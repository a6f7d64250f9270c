//! Laws of the dispatch and orchestration logic, stated and proved once
//! over the plan models.

use vstd::prelude::*;

use crate::actions::ActionModel;
use crate::actions::PlanErrorModel;
use crate::actions::plan_abort;
use crate::cli::TestArgsModel;
use crate::cli::build_cmd::build_all_model;
use crate::cli::build_cmd::build_component_model;
use crate::cli::clean::clean_model;
use crate::cli::test::integration_tests_model;
use crate::cli::test::missing_test_env_model;
use crate::cli::test::test_model;
use crate::cli::test::unit_tests_model;
use crate::components::ActivationScripts;
use crate::components::BuildContextModel;
use crate::components::Buildenv;
use crate::components::Component;
use crate::components::EnvVarsModel;
use crate::components::Flox;
use crate::components::NixPlugin;
use crate::components::PackageBuilder;
use crate::components::Watchdog;

verus! {

/// The artifact identifiers that build and clean dispatch know.
pub open spec fn known_artifact(artifact: Seq<char>) -> bool {
    ||| artifact == "all"@
    ||| artifact == "scripts"@
    ||| artifact == "activations"@
    ||| artifact == "act"@
    ||| artifact == "flox"@
    ||| artifact == "cli"@
    ||| artifact == "plugins"@
    ||| artifact == "nix-plugins"@
    ||| artifact == "buildenv"@
    ||| artifact == "package-builder"@
    ||| artifact == "watchdog"@
    ||| artifact == "nix"@
}

/// Law: an artifact identifier outside the known set yields, on the build
/// path and on the clean path alike, a plan that runs nothing and reports
/// an error whose message carries the identifier itself.
pub proof fn lemma_unknown_artifact_reported(
    artifact: Seq<char>,
    with_nix: bool,
    ctx: BuildContextModel,
)
    requires
        !known_artifact(artifact),
    ensures
        build_component_model(artifact, with_nix, ctx) == plan_abort(
            PlanErrorModel::UnknownArtifact(artifact),
        ),
        clean_model(artifact, ctx) == plan_abort(PlanErrorModel::UnknownArtifact(artifact)),
        PlanErrorModel::UnknownArtifact(artifact).message() == "unknown artifact: "@ + artifact,
        PlanErrorModel::UnknownArtifact(artifact).message().skip(
            "unknown artifact: "@.len() as int,
        ) == artifact,
{
    assert(("unknown artifact: "@ + artifact).skip("unknown artifact: "@.len() as int)
        =~= artifact);
}

/// Law: when every component can state its plan, the all-components build
/// runs each component's plan exactly once, in the fixed order — native
/// plugin, package builder, activation scripts, watchdog, build
/// environment, CLI — and nothing else.
pub proof fn lemma_build_all_each_component_once(with_nix: bool, ctx: BuildContextModel)
    requires
        ctx.env.flox_interpreter is Some,
        ctx.env.flox_package_builder is Some,
        ctx.env.flox_buildenv is Some,
    ensures
        build_all_model(with_nix, ctx).abort is None,
        build_all_model(with_nix, ctx).actions == (NixPlugin {}).build_model(with_nix, ctx).actions
            + (PackageBuilder {}).build_model(with_nix, ctx).actions + (ActivationScripts {
        }).build_model(with_nix, ctx).actions + (Watchdog {}).build_model(with_nix, ctx).actions
            + (Buildenv {}).build_model(with_nix, ctx).actions + (Flox {}).build_model(
            with_nix,
            ctx,
        ).actions,
{
    assert(build_all_model(with_nix, ctx).actions =~= (NixPlugin {}).build_model(
        with_nix,
        ctx,
    ).actions + (PackageBuilder {}).build_model(with_nix, ctx).actions + (ActivationScripts {
    }).build_model(with_nix, ctx).actions + (Watchdog {}).build_model(with_nix, ctx).actions
        + (Buildenv {}).build_model(with_nix, ctx).actions + (Flox {}).build_model(
        with_nix,
        ctx,
    ).actions);
}

/// Law: the first component whose plan aborts cuts off every component
/// after it. Concretely: with the package-builder output variable unset,
/// the all-components build plan holds exactly the native plugin's
/// actions, then reports the missing variable — the four components after
/// the package builder contribute nothing.
pub proof fn lemma_build_all_aborts_on_first_failure(with_nix: bool, ctx: BuildContextModel)
    requires
        ctx.env.flox_package_builder is None,
    ensures
        build_all_model(with_nix, ctx).actions == (NixPlugin {}).build_model(with_nix, ctx).actions,
        build_all_model(with_nix, ctx).abort == Some(
            PlanErrorModel::MissingEnvVar("FLOX_PACKAGE_BUILDER"@),
        ),
{
    assert(build_all_model(with_nix, ctx).actions =~= (NixPlugin {}).build_model(
        with_nix,
        ctx,
    ).actions);
}

/// Law: a bare unit-test flag, which parsing turns into the sentinel
/// filter, selects the same invocation as no filter at all: the filter
/// argument is omitted. A concrete filter is appended as the final
/// argument.
pub proof fn lemma_unit_filter(root: Seq<char>, version: Seq<char>, filter: Seq<char>)
    ensures
        unit_tests_model(root, Some("all"@), version) == unit_tests_model(root, None, version),
        filter != "all"@ ==> (unit_tests_model(root, Some(filter), version) matches ActionModel::Run(inv)
            && inv.args.len() > 0 && inv.args.last() == filter),
{
}

/// Law: a requested pre-test build stands at the front of the test plan:
/// when it aborts nothing else is planned, and when it goes through, the
/// test plan starts with exactly the build plan's actions.
pub proof fn lemma_pre_test_build_first(
    args: TestArgsModel,
    ctx: BuildContextModel,
    version: Seq<char>,
    component: Seq<char>,
)
    requires
        args.build == Some(component),
    ensures
        build_component_model(component, false, ctx).abort is Some ==> test_model(
            args,
            ctx,
            version,
        ) == build_component_model(component, false, ctx),
        build_component_model(component, false, ctx).abort is None ==> test_model(
            args,
            ctx,
            version,
        ).actions.take(build_component_model(component, false, ctx).actions.len() as int)
            == build_component_model(component, false, ctx).actions,
{
    let pre = build_component_model(component, false, ctx);
    if pre.abort is None {
        assert(test_model(args, ctx, version).actions.take(pre.actions.len() as int)
            =~= pre.actions);
    }
}

/// Law: whenever any required variable for non-hermetic integration tests
/// is unset, the integration-test plan runs nothing and reports the first
/// unset variable of the fixed check order by name, whatever the other
/// variables hold.
pub proof fn lemma_missing_test_env_fatal(
    env: EnvVarsModel,
    bats: Option<Seq<Seq<char>>>,
    version: Seq<char>,
)
    requires
        env.flox_bin is None || env.watchdog_bin is None || env.nix_plugins is None
            || env.generated_data is None,
    ensures
        integration_tests_model(env, bats, version).actions == Seq::<ActionModel>::empty(),
        integration_tests_model(env, bats, version).abort == Some(
            PlanErrorModel::MissingEnvVar(missing_test_env_model(env).unwrap()),
        ),
        env.flox_bin is None ==> missing_test_env_model(env) == Some("FLOX_BIN"@),
        env.flox_bin is Some && env.watchdog_bin is None ==> missing_test_env_model(env) == Some(
            "WATCHDOG_BIN"@,
        ),
        env.flox_bin is Some && env.watchdog_bin is Some && env.nix_plugins is None
            ==> missing_test_env_model(env) == Some("NIX_PLUGINS"@),
        env.flox_bin is Some && env.watchdog_bin is Some && env.nix_plugins is Some
            && env.generated_data is None ==> missing_test_env_model(env) == Some(
            "GENERATED_DATA"@,
        ),
{
}

} // verus!
