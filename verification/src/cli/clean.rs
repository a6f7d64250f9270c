//! Clean dispatch: from an artifact identifier to a clean plan.

use vstd::prelude::*;

use crate::actions::ActionModel;
use crate::actions::Action;
use crate::actions::Invocation;
use crate::actions::Plan;
use crate::actions::PlanError;
use crate::actions::PlanErrorModel;
use crate::actions::PlanModel;
use crate::actions::plan_abort;
use crate::actions::plan_ok;
use crate::actions::run_model;
use crate::components::ActivationScripts;
use crate::components::BuildContext;
use crate::components::BuildContextModel;
use crate::components::Buildenv;
use crate::components::Component;
use crate::components::Flox;
use crate::components::FloxActivations;
use crate::components::NixPlugin;
use crate::components::PackageBuilder;
use crate::components::Watchdog;
use crate::util::build_dir;
use crate::util::build_dir_model;
use crate::util::cargo_workspace_manifest;
use crate::util::cargo_workspace_manifest_model;
use crate::util::str_eq;

verus! {

/// `cargo clean --manifest-path <workspace manifest>`, over the whole
/// workspace.
pub open spec fn cargo_workspace_clean_model(root: Seq<char>) -> ActionModel {
    run_model("cargo"@, seq!["clean"@, "--manifest-path"@, cargo_workspace_manifest_model(root)])
}

/// Cleaning everything: remove the build output directory, then clean the
/// whole workspace.
pub open spec fn clean_all_model(ctx: BuildContextModel) -> PlanModel {
    plan_ok(
        seq![
            ActionModel::RemoveDirAll(build_dir_model(ctx.repo_root)),
            cargo_workspace_clean_model(ctx.repo_root)
        ],
    )
}

/// Cleaning the hermetic artifacts: remove the build output directory.
pub open spec fn clean_nix_artifacts_model(ctx: BuildContextModel) -> PlanModel {
    plan_ok(seq![ActionModel::RemoveDirAll(build_dir_model(ctx.repo_root))])
}

/// Clean dispatch: which plan each artifact identifier selects. An
/// identifier outside the known set yields an abort naming it.
pub open spec fn clean_model(artifact: Seq<char>, ctx: BuildContextModel) -> PlanModel {
    if artifact == "all"@ {
        clean_all_model(ctx)
    } else if artifact == "scripts"@ {
        (ActivationScripts {}).clean_model(ctx)
    } else if artifact == "activations"@ || artifact == "act"@ {
        (FloxActivations {}).clean_model(ctx)
    } else if artifact == "flox"@ || artifact == "cli"@ {
        (Flox {}).clean_model(ctx)
    } else if artifact == "plugins"@ || artifact == "nix-plugins"@ {
        (NixPlugin {}).clean_model(ctx)
    } else if artifact == "buildenv"@ {
        (Buildenv {}).clean_model(ctx)
    } else if artifact == "package-builder"@ {
        (PackageBuilder {}).clean_model(ctx)
    } else if artifact == "watchdog"@ {
        (Watchdog {}).clean_model(ctx)
    } else if artifact == "nix"@ {
        clean_nix_artifacts_model(ctx)
    } else {
        plan_abort(PlanErrorModel::UnknownArtifact(artifact))
    }
}

fn clean_all(ctx: &BuildContext) -> (r: Plan)
    ensures
        r.deep_view() == clean_all_model(ctx.deep_view()),
{
    let mut p = Plan::empty();
    p.push_action(Action::RemoveDirAll(build_dir(ctx.repo_root.as_str())));
    let mut inv = Invocation::new("cargo");
    inv.arg("clean");
    inv.arg("--manifest-path");
    inv.arg_owned(cargo_workspace_manifest(ctx.repo_root.as_str()));
    p.push_action(Action::Run(inv));
    proof {
        assert(p.deep_view() =~~= clean_all_model(ctx.deep_view()));
    }
    p
}

fn clean_nix_artifacts(ctx: &BuildContext) -> (r: Plan)
    ensures
        r.deep_view() == clean_nix_artifacts_model(ctx.deep_view()),
{
    Plan::single(Action::RemoveDirAll(build_dir(ctx.repo_root.as_str())))
}

/// Plan the clean that `artifact` names.
pub fn clean(artifact: &str, ctx: &BuildContext) -> (r: Plan)
    ensures
        r.deep_view() == clean_model(artifact@, ctx.deep_view()),
{
    if str_eq(artifact, "all") {
        clean_all(ctx)
    } else if str_eq(artifact, "scripts") {
        ActivationScripts.clean(ctx)
    } else if str_eq(artifact, "activations") || str_eq(artifact, "act") {
        FloxActivations.clean(ctx)
    } else if str_eq(artifact, "flox") || str_eq(artifact, "cli") {
        Flox.clean(ctx)
    } else if str_eq(artifact, "plugins") || str_eq(artifact, "nix-plugins") {
        NixPlugin.clean(ctx)
    } else if str_eq(artifact, "buildenv") {
        Buildenv.clean(ctx)
    } else if str_eq(artifact, "package-builder") {
        PackageBuilder.clean(ctx)
    } else if str_eq(artifact, "watchdog") {
        Watchdog.clean(ctx)
    } else if str_eq(artifact, "nix") {
        clean_nix_artifacts(ctx)
    } else {
        Plan::fail(PlanError::UnknownArtifact(artifact.to_owned()))
    }
}

} // verus!
