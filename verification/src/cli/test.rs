//! Test orchestration: from parsed test flags to a test plan.
//!
//! A test run may first build a named component, then runs unit tests, or
//! integration tests, or both, depending on which flags were given. Every
//! test invocation carries the assembled version string in an environment
//! variable. Non-hermetic integration tests need paths to built artifacts
//! and test data from the environment, and abort naming the first variable
//! that is missing.

use vstd::prelude::*;

use crate::actions::Action;
use crate::actions::ActionModel;
use crate::actions::EnvVarModel;
use crate::actions::Invocation;
use crate::actions::Plan;
use crate::actions::PlanError;
use crate::actions::PlanErrorModel;
use crate::actions::PlanModel;
use crate::actions::plan_abort;
use crate::actions::plan_ok;
use crate::actions::plan_then;
use crate::actions::run_env_model;
use crate::cli::TestArgs;
use crate::cli::TestArgsModel;
use crate::cli::build_cmd::build_component;
use crate::cli::build_cmd::build_component_model;
use crate::components::BuildContext;
use crate::components::BuildContextModel;
use crate::components::EnvVarsModel;
use crate::util::cargo_workspace_manifest;
use crate::util::cargo_workspace_manifest_model;
use crate::util::str_eq;

verus! {

/// The environment handed to every test invocation: the assembled version
/// string.
pub open spec fn version_env_model(version: Seq<char>) -> Seq<EnvVarModel> {
    seq![EnvVarModel { name: "FLOX_VERSION"@, value: version }]
}

/// The unit-test filter arguments: nothing for no filter or for the
/// sentinel `all`, else the filter itself.
pub open spec fn unit_filter_args_model(filter: Option<Seq<char>>) -> Seq<Seq<char>> {
    match filter {
        Some(f) => if f == "all"@ {
            Seq::<Seq<char>>::empty()
        } else {
            seq![f]
        },
        None => Seq::<Seq<char>>::empty(),
    }
}

/// The unit-test invocation: the native test runner over the whole
/// workspace, optionally filtered.
pub open spec fn unit_tests_model(
    root: Seq<char>,
    filter: Option<Seq<char>>,
    version: Seq<char>,
) -> ActionModel {
    run_env_model(
        "cargo"@,
        seq![
            "nextest"@,
            "run"@,
            "--workspace"@,
            "--manifest-path"@,
            cargo_workspace_manifest_model(root)
        ] + unit_filter_args_model(filter),
        version_env_model(version),
    )
}

/// The arguments handed on to the integration-test runner: nothing when no
/// arguments were given or when the first is the sentinel `all`, else all
/// of them.
pub open spec fn runner_args_model(bats: Option<Seq<Seq<char>>>) -> Seq<Seq<char>> {
    match bats {
        Some(v) => if v.len() > 0 && v[0] == "all"@ {
            Seq::<Seq<char>>::empty()
        } else {
            v
        },
        None => Seq::<Seq<char>>::empty(),
    }
}

/// The first required integration-test variable that is unset, in the fixed
/// check order, if any.
pub open spec fn missing_test_env_model(env: EnvVarsModel) -> Option<Seq<char>> {
    if env.flox_bin is None {
        Some("FLOX_BIN"@)
    } else if env.watchdog_bin is None {
        Some("WATCHDOG_BIN"@)
    } else if env.nix_plugins is None {
        Some("NIX_PLUGINS"@)
    } else if env.generated_data is None {
        Some("GENERATED_DATA"@)
    } else {
        None
    }
}

/// The non-hermetic integration-test plan: abort naming the first missing
/// required variable, else invoke the integration-test runner directly.
pub open spec fn integration_tests_model(
    env: EnvVarsModel,
    bats: Option<Seq<Seq<char>>>,
    version: Seq<char>,
) -> PlanModel {
    match missing_test_env_model(env) {
        Some(name) => plan_abort(PlanErrorModel::MissingEnvVar(name)),
        None => plan_ok(
            seq![
                run_env_model("flox-cli-tests"@, runner_args_model(bats), version_env_model(version))
            ],
        ),
    }
}

/// The hermetic integration-test invocation: run the test package through
/// the hermetic build system.
pub open spec fn integration_tests_nix_model(
    bats: Option<Seq<Seq<char>>>,
    version: Seq<char>,
) -> ActionModel {
    run_env_model(
        "nix"@,
        seq!["run"@, ".#flox-cli-tests"@] + runner_args_model(bats),
        version_env_model(version),
    )
}

/// The whole test plan a parsed test subcommand asks for: the pre-test
/// build, if one was requested, then the test invocations its flags select.
pub open spec fn test_model(args: TestArgsModel, ctx: BuildContextModel, version: Seq<char>) -> PlanModel {
    let pre = match args.build {
        Some(component) => build_component_model(component, false, ctx),
        None => plan_ok(Seq::<ActionModel>::empty()),
    };
    let tests = if args.unit is None && args.int is None {
        let unit = plan_ok(seq![unit_tests_model(ctx.repo_root, None, version)]);
        let integration = if args.nix {
            plan_ok(seq![integration_tests_nix_model(None, version)])
        } else {
            integration_tests_model(ctx.env, None, version)
        };
        plan_then(unit, integration)
    } else if args.unit is Some {
        plan_ok(seq![unit_tests_model(ctx.repo_root, args.unit, version)])
    } else if args.nix {
        plan_ok(seq![integration_tests_nix_model(args.int, version)])
    } else {
        integration_tests_model(ctx.env, args.int, version)
    };
    plan_then(pre, tests)
}

fn run_unit_tests(filter: Option<&String>, ctx: &BuildContext, version: &str) -> (r: Plan)
    ensures
        r.deep_view() == plan_ok(
            seq![unit_tests_model(ctx.deep_view().repo_root, filter.deep_view(), version@)],
        ),
{
    let mut inv = Invocation::new("cargo");
    inv.arg("nextest");
    inv.arg("run");
    inv.arg("--workspace");
    inv.arg("--manifest-path");
    inv.arg_owned(cargo_workspace_manifest(ctx.repo_root.as_str()));
    match filter {
        Some(f) => {
            if !str_eq(f.as_str(), "all") {
                inv.arg_owned(f.clone());
            }
        },
        None => {},
    }
    inv.add_env("FLOX_VERSION", version.to_owned());
    let r = Plan::single(Action::Run(inv));
    proof {
        assert(r.deep_view() =~~= plan_ok(
            seq![unit_tests_model(ctx.deep_view().repo_root, filter.deep_view(), version@)],
        ));
    }
    r
}

fn run_integration_tests(bats: Option<&Vec<String>>, ctx: &BuildContext, version: &str) -> (r:
    Plan)
    requires
        bats matches Some(v) ==> v@.len() >= 1,
    ensures
        r.deep_view() == integration_tests_model(ctx.deep_view().env, bats.deep_view(), version@),
{
    if ctx.env.flox_bin.is_none() {
        return Plan::fail(PlanError::MissingEnvVar("FLOX_BIN".to_owned()));
    }
    if ctx.env.watchdog_bin.is_none() {
        return Plan::fail(PlanError::MissingEnvVar("WATCHDOG_BIN".to_owned()));
    }
    if ctx.env.nix_plugins.is_none() {
        return Plan::fail(PlanError::MissingEnvVar("NIX_PLUGINS".to_owned()));
    }
    if ctx.env.generated_data.is_none() {
        return Plan::fail(PlanError::MissingEnvVar("GENERATED_DATA".to_owned()));
    }
    let mut inv = Invocation::new("flox-cli-tests");
    match bats {
        Some(b) => {
            if !str_eq(b[0].as_str(), "all") {
                inv.extend_args(b);
            }
        },
        None => {},
    }
    inv.add_env("FLOX_VERSION", version.to_owned());
    let r = Plan::single(Action::Run(inv));
    proof {
        assert(r.deep_view() =~= integration_tests_model(
            ctx.deep_view().env,
            bats.deep_view(),
            version@,
        ));
    }
    r
}

fn run_integration_tests_with_nix(bats: Option<&Vec<String>>, version: &str) -> (r: Plan)
    requires
        bats matches Some(v) ==> v@.len() >= 1,
    ensures
        r.deep_view() == plan_ok(seq![integration_tests_nix_model(bats.deep_view(), version@)]),
{
    let mut inv = Invocation::new("nix");
    inv.arg("run");
    inv.arg(".#flox-cli-tests");
    match bats {
        Some(b) => {
            if !str_eq(b[0].as_str(), "all") {
                inv.extend_args(b);
            }
        },
        None => {},
    }
    inv.add_env("FLOX_VERSION", version.to_owned());
    let r = Plan::single(Action::Run(inv));
    proof {
        assert(r.deep_view() =~~= plan_ok(
            seq![integration_tests_nix_model(bats.deep_view(), version@)],
        ));
    }
    r
}

/// Plan the test run a parsed test subcommand asks for. `version` is the
/// assembled version string exported to every test invocation.
pub fn test(args: &TestArgs, ctx: &BuildContext, version: &str) -> (r: Plan)
    requires
        args.int matches Some(v) ==> v@.len() >= 1,
    ensures
        r.deep_view() == test_model(args.deep_view(), ctx.deep_view(), version@),
{
    let unit_ref: Option<&String> = match &args.unit {
        Some(f) => Some(f),
        None => None,
    };
    let int_ref: Option<&Vec<String>> = match &args.int {
        Some(v) => Some(v),
        None => None,
    };
    let pre = match &args.build {
        Some(component) => build_component(component.as_str(), false, ctx),
        None => Plan::empty(),
    };
    let tests: Plan;
    if unit_ref.is_none() && int_ref.is_none() {
        let unit = run_unit_tests(None, ctx, version);
        let integration = if args.nix {
            run_integration_tests_with_nix(None, version)
        } else {
            run_integration_tests(None, ctx, version)
        };
        tests = unit.and_then(integration);
    } else if unit_ref.is_some() {
        tests = run_unit_tests(unit_ref, ctx, version);
    } else if args.nix {
        tests = run_integration_tests_with_nix(int_ref, version);
    } else {
        tests = run_integration_tests(int_ref, ctx, version);
    }
    let r = pre.and_then(tests);
    proof {
        assert(r.deep_view() =~= test_model(args.deep_view(), ctx.deep_view(), version@));
    }
    r
}

} // verus!
