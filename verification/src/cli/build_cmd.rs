//! Build dispatch: from an artifact identifier to a build plan.

use vstd::prelude::*;

use crate::actions::Plan;
use crate::actions::PlanError;
use crate::actions::PlanErrorModel;
use crate::actions::PlanModel;
use crate::actions::plan_abort;
use crate::actions::plan_then;
use crate::cli::BuildArgs;
use crate::components::ActivationScripts;
use crate::components::BuildContext;
use crate::components::BuildContextModel;
use crate::components::Buildenv;
use crate::components::Component;
use crate::components::Flox;
use crate::components::FloxActivations;
use crate::components::NixPlugin;
use crate::components::PackageBuilder;
use crate::components::Watchdog;
use crate::util::str_eq;

verus! {

/// The plan that builds every component, in the fixed order: native plugin,
/// package builder, activation scripts, watchdog, build environment, CLI.
/// Each component contributes its plan exactly once; the first aborting
/// component cuts off everything after it.
pub open spec fn build_all_model(with_nix: bool, ctx: BuildContextModel) -> PlanModel {
    plan_then(
        plan_then(
            plan_then(
                plan_then(
                    plan_then(
                        (NixPlugin {}).build_model(with_nix, ctx),
                        (PackageBuilder {}).build_model(with_nix, ctx),
                    ),
                    (ActivationScripts {}).build_model(with_nix, ctx),
                ),
                (Watchdog {}).build_model(with_nix, ctx),
            ),
            (Buildenv {}).build_model(with_nix, ctx),
        ),
        (Flox {}).build_model(with_nix, ctx),
    )
}

/// The plan that builds the hermetic-only subset, each through the hermetic
/// build system: native plugin, package builder, activation scripts, build
/// environment.
pub open spec fn build_nix_components_model(ctx: BuildContextModel) -> PlanModel {
    plan_then(
        plan_then(
            plan_then(
                (NixPlugin {}).build_model(true, ctx),
                (PackageBuilder {}).build_model(true, ctx),
            ),
            (ActivationScripts {}).build_model(true, ctx),
        ),
        (Buildenv {}).build_model(true, ctx),
    )
}

/// Build dispatch: which plan each artifact identifier selects. An
/// identifier outside the known set yields an abort naming it.
pub open spec fn build_component_model(
    artifact: Seq<char>,
    with_nix: bool,
    ctx: BuildContextModel,
) -> PlanModel {
    if artifact == "all"@ {
        build_all_model(with_nix, ctx)
    } else if artifact == "scripts"@ {
        (ActivationScripts {}).build_model(with_nix, ctx)
    } else if artifact == "activations"@ || artifact == "act"@ {
        (FloxActivations {}).build_model(with_nix, ctx)
    } else if artifact == "flox"@ || artifact == "cli"@ {
        (Flox {}).build_model(with_nix, ctx)
    } else if artifact == "plugins"@ || artifact == "nix-plugins"@ {
        (NixPlugin {}).build_model(with_nix, ctx)
    } else if artifact == "buildenv"@ {
        (Buildenv {}).build_model(with_nix, ctx)
    } else if artifact == "package-builder"@ {
        (PackageBuilder {}).build_model(with_nix, ctx)
    } else if artifact == "watchdog"@ {
        (Watchdog {}).build_model(with_nix, ctx)
    } else if artifact == "nix"@ {
        build_nix_components_model(ctx)
    } else {
        plan_abort(PlanErrorModel::UnknownArtifact(artifact))
    }
}

/// Plan a build of every component, in the fixed order.
pub fn build_all(with_nix: bool, ctx: &BuildContext) -> (r: Plan)
    ensures
        r.deep_view() == build_all_model(with_nix, ctx.deep_view()),
{
    let p = NixPlugin.build(with_nix, ctx);
    let p = p.and_then(PackageBuilder.build(with_nix, ctx));
    let p = p.and_then(ActivationScripts.build(with_nix, ctx));
    let p = p.and_then(Watchdog.build(with_nix, ctx));
    let p = p.and_then(Buildenv.build(with_nix, ctx));
    p.and_then(Flox.build(with_nix, ctx))
}

/// Plan a hermetic build of the components that only exist hermetically.
fn build_nix_components(ctx: &BuildContext) -> (r: Plan)
    ensures
        r.deep_view() == build_nix_components_model(ctx.deep_view()),
{
    let p = NixPlugin.build(true, ctx);
    let p = p.and_then(PackageBuilder.build(true, ctx));
    let p = p.and_then(ActivationScripts.build(true, ctx));
    p.and_then(Buildenv.build(true, ctx))
}

/// Plan the build that `artifact` names.
pub fn build_component(artifact: &str, with_nix: bool, ctx: &BuildContext) -> (r: Plan)
    ensures
        r.deep_view() == build_component_model(artifact@, with_nix, ctx.deep_view()),
{
    if str_eq(artifact, "all") {
        build_all(with_nix, ctx)
    } else if str_eq(artifact, "scripts") {
        ActivationScripts.build(with_nix, ctx)
    } else if str_eq(artifact, "activations") || str_eq(artifact, "act") {
        FloxActivations.build(with_nix, ctx)
    } else if str_eq(artifact, "flox") || str_eq(artifact, "cli") {
        Flox.build(with_nix, ctx)
    } else if str_eq(artifact, "plugins") || str_eq(artifact, "nix-plugins") {
        NixPlugin.build(with_nix, ctx)
    } else if str_eq(artifact, "buildenv") {
        Buildenv.build(with_nix, ctx)
    } else if str_eq(artifact, "package-builder") {
        PackageBuilder.build(with_nix, ctx)
    } else if str_eq(artifact, "watchdog") {
        Watchdog.build(with_nix, ctx)
    } else if str_eq(artifact, "nix") {
        build_nix_components(ctx)
    } else {
        Plan::fail(PlanError::UnknownArtifact(artifact.to_owned()))
    }
}

/// Plan the build a parsed build subcommand asks for.
pub fn build(args: &BuildArgs, ctx: &BuildContext) -> (r: Plan)
    ensures
        r.deep_view() == build_component_model(args.artifact@, args.nix, ctx.deep_view()),
{
    build_component(args.artifact.as_str(), args.nix, ctx)
}

} // verus!
