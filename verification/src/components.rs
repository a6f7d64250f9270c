//! The fixed set of named build targets and their build and clean plans.
//!
//! Each component turns a build or clean request into a [`Plan`]: the exact
//! external commands to run, in order. Components that have no native
//! toolchain equivalent ignore the hermetic-build flag and always use the
//! hermetic path; components whose output is linked from an environment
//! variable abort their plan when that variable is unset, after any
//! preparatory steps that the original ordering runs first.

use vstd::prelude::*;

use crate::actions::Action;
use crate::actions::ActionModel;
use crate::actions::Invocation;
use crate::actions::Plan;
use crate::actions::PlanError;
use crate::actions::PlanErrorModel;
use crate::actions::PlanModel;
use crate::actions::plan_abort;
use crate::actions::plan_ok;
use crate::actions::run_model;
use crate::util::build_dir;
use crate::util::build_dir_model;
use crate::util::cargo_workspace_manifest;
use crate::util::cargo_workspace_manifest_model;
use crate::util::meson_builddir;
use crate::util::meson_builddir_model;

verus! {

/// The environment variables the orchestrator reads, as found at process
/// start. `None` means the variable is unset.
pub struct EnvVars {
    pub flox_interpreter: Option<String>,
    pub flox_package_builder: Option<String>,
    pub flox_buildenv: Option<String>,
    pub flox_bin: Option<String>,
    pub watchdog_bin: Option<String>,
    pub nix_plugins: Option<String>,
    pub generated_data: Option<String>,
}

/// Mathematical model of [`EnvVars`].
#[verifier::ext_equal]
pub struct EnvVarsModel {
    pub flox_interpreter: Option<Seq<char>>,
    pub flox_package_builder: Option<Seq<char>>,
    pub flox_buildenv: Option<Seq<char>>,
    pub flox_bin: Option<Seq<char>>,
    pub watchdog_bin: Option<Seq<char>>,
    pub nix_plugins: Option<Seq<char>>,
    pub generated_data: Option<Seq<char>>,
}

impl DeepView for EnvVars {
    type V = EnvVarsModel;

    open spec fn deep_view(&self) -> EnvVarsModel {
        EnvVarsModel {
            flox_interpreter: self.flox_interpreter.deep_view(),
            flox_package_builder: self.flox_package_builder.deep_view(),
            flox_buildenv: self.flox_buildenv.deep_view(),
            flox_bin: self.flox_bin.deep_view(),
            watchdog_bin: self.watchdog_bin.deep_view(),
            nix_plugins: self.nix_plugins.deep_view(),
            generated_data: self.generated_data.deep_view(),
        }
    }
}

/// Everything a component needs to state its plan: the repository root and
/// the environment.
pub struct BuildContext {
    pub repo_root: String,
    pub env: EnvVars,
}

/// Mathematical model of a [`BuildContext`].
#[verifier::ext_equal]
pub struct BuildContextModel {
    pub repo_root: Seq<char>,
    pub env: EnvVarsModel,
}

impl DeepView for BuildContext {
    type V = BuildContextModel;

    open spec fn deep_view(&self) -> BuildContextModel {
        BuildContextModel { repo_root: self.repo_root@, env: self.env.deep_view() }
    }
}

/// `nix build <target>`.
pub open spec fn nix_build_model(target: Seq<char>) -> ActionModel {
    run_model("nix"@, seq!["build"@, target])
}

/// `nix build <target> -o <out>`.
pub open spec fn nix_build_out_model(target: Seq<char>, out: Seq<char>) -> ActionModel {
    run_model("nix"@, seq!["build"@, target, "-o"@, out])
}

/// `nix build --option pure-eval false <target> -o <out>`.
pub open spec fn nix_impure_build_model(target: Seq<char>, out: Seq<char>) -> ActionModel {
    run_model(
        "nix"@,
        seq!["build"@, "--option"@, "pure-eval"@, "false"@, target, "-o"@, out],
    )
}

/// `cargo <sub> --manifest-path <workspace manifest> -p <package>`.
pub open spec fn cargo_package_model(sub: Seq<char>, root: Seq<char>, package: Seq<char>) -> ActionModel {
    run_model(
        "cargo"@,
        seq![sub, "--manifest-path"@, cargo_workspace_manifest_model(root), "-p"@, package],
    )
}

/// `meson <sub> -C <plugin builddir>`.
pub open spec fn meson_model(sub: Seq<char>, root: Seq<char>) -> ActionModel {
    run_model("meson"@, seq![sub, "-C"@, meson_builddir_model(root)])
}

/// `meson compile -C <plugin builddir> --clean`.
pub open spec fn meson_clean_model(root: Seq<char>) -> ActionModel {
    run_model("meson"@, seq!["compile"@, "-C"@, meson_builddir_model(root), "--clean"@])
}

fn nix_build(target: &str) -> (a: Action)
    ensures
        a.deep_view() == nix_build_model(target@),
{
    let mut inv = Invocation::new("nix");
    inv.arg("build");
    inv.arg(target);
    let a = Action::Run(inv);
    proof {
        assert(a.deep_view() =~= nix_build_model(target@));
    }
    a
}

fn nix_build_out(target: &str, out: String) -> (a: Action)
    ensures
        a.deep_view() == nix_build_out_model(target@, out@),
{
    let ghost out_chars = out@;
    let mut inv = Invocation::new("nix");
    inv.arg("build");
    inv.arg(target);
    inv.arg("-o");
    inv.arg_owned(out);
    let a = Action::Run(inv);
    proof {
        assert(a.deep_view() =~= nix_build_out_model(target@, out_chars));
    }
    a
}

fn nix_impure_build(target: &str, out: String) -> (a: Action)
    ensures
        a.deep_view() == nix_impure_build_model(target@, out@),
{
    let ghost out_chars = out@;
    let mut inv = Invocation::new("nix");
    inv.arg("build");
    inv.arg("--option");
    inv.arg("pure-eval");
    inv.arg("false");
    inv.arg(target);
    inv.arg("-o");
    inv.arg_owned(out);
    let a = Action::Run(inv);
    proof {
        assert(a.deep_view() =~= nix_impure_build_model(target@, out_chars));
    }
    a
}

fn cargo_package(sub: &str, root: &str, package: &str) -> (a: Action)
    ensures
        a.deep_view() == cargo_package_model(sub@, root@, package@),
{
    let mut inv = Invocation::new("cargo");
    inv.arg(sub);
    inv.arg("--manifest-path");
    inv.arg_owned(cargo_workspace_manifest(root));
    inv.arg("-p");
    inv.arg(package);
    let a = Action::Run(inv);
    proof {
        assert(a.deep_view() =~= cargo_package_model(sub@, root@, package@));
    }
    a
}

fn meson_sub(sub: &str, root: &str) -> (a: Action)
    ensures
        a.deep_view() == meson_model(sub@, root@),
{
    let mut inv = Invocation::new("meson");
    inv.arg(sub);
    inv.arg("-C");
    inv.arg_owned(meson_builddir(root));
    let a = Action::Run(inv);
    proof {
        assert(a.deep_view() =~= meson_model(sub@, root@));
    }
    a
}

fn meson_clean(root: &str) -> (a: Action)
    ensures
        a.deep_view() == meson_clean_model(root@),
{
    let mut inv = Invocation::new("meson");
    inv.arg("compile");
    inv.arg("-C");
    inv.arg_owned(meson_builddir(root));
    inv.arg("--clean");
    let a = Action::Run(inv);
    proof {
        assert(a.deep_view() =~= meson_clean_model(root@));
    }
    a
}

/// Removal of the symlink `<build dir>/<link>` that a hermetic build left.
fn remove_build_link(root: &str, link: &str) -> (a: Action)
    ensures
        a.deep_view() == ActionModel::RemoveFile(build_dir_model(root@) + link@),
{
    let path = build_dir(root).concat(link);
    Action::RemoveFile(path)
}

/// A named build target with a uniform build and clean operation.
pub trait Component {
    /// The plan that [`Component::build`] returns.
    spec fn build_model(&self, with_nix: bool, ctx: BuildContextModel) -> PlanModel;

    /// The plan that [`Component::clean`] returns.
    spec fn clean_model(&self, ctx: BuildContextModel) -> PlanModel;

    /// Plan the external commands that build this component.
    fn build(&self, with_nix: bool, ctx: &BuildContext) -> (r: Plan)
        ensures
            r.deep_view() == self.build_model(with_nix, ctx.deep_view()),
    ;

    /// Plan the external commands that remove this component's artifacts.
    fn clean(&self, ctx: &BuildContext) -> (r: Plan)
        ensures
            r.deep_view() == self.clean_model(ctx.deep_view()),
    ;
}

/// The CLI binary.
pub struct Flox;

impl Component for Flox {
    open spec fn build_model(&self, with_nix: bool, ctx: BuildContextModel) -> PlanModel {
        if with_nix {
            plan_ok(seq![nix_build_model(".#flox-cli"@)])
        } else {
            plan_ok(seq![cargo_package_model("build"@, ctx.repo_root, "flox"@)])
        }
    }

    open spec fn clean_model(&self, ctx: BuildContextModel) -> PlanModel {
        plan_ok(seq![cargo_package_model("clean"@, ctx.repo_root, "flox"@)])
    }

    fn build(&self, with_nix: bool, ctx: &BuildContext) -> (r: Plan) {
        if with_nix {
            Plan::single(nix_build(".#flox-cli"))
        } else {
            Plan::single(cargo_package("build", ctx.repo_root.as_str(), "flox"))
        }
    }

    fn clean(&self, ctx: &BuildContext) -> (r: Plan) {
        Plan::single(cargo_package("clean", ctx.repo_root.as_str(), "flox"))
    }
}

/// The background watchdog process.
pub struct Watchdog;

impl Component for Watchdog {
    open spec fn build_model(&self, with_nix: bool, ctx: BuildContextModel) -> PlanModel {
        if with_nix {
            plan_ok(seq![nix_build_model(".#flox-watchdog"@)])
        } else {
            plan_ok(seq![cargo_package_model("build"@, ctx.repo_root, "flox-watchdog"@)])
        }
    }

    open spec fn clean_model(&self, ctx: BuildContextModel) -> PlanModel {
        plan_ok(seq![cargo_package_model("clean"@, ctx.repo_root, "flox-watchdog"@)])
    }

    fn build(&self, with_nix: bool, ctx: &BuildContext) -> (r: Plan) {
        if with_nix {
            Plan::single(nix_build(".#flox-watchdog"))
        } else {
            Plan::single(cargo_package("build", ctx.repo_root.as_str(), "flox-watchdog"))
        }
    }

    fn clean(&self, ctx: &BuildContext) -> (r: Plan) {
        Plan::single(cargo_package("clean", ctx.repo_root.as_str(), "flox-watchdog"))
    }
}

/// The activation-tracking helper binary.
pub struct FloxActivations;

impl Component for FloxActivations {
    open spec fn build_model(&self, with_nix: bool, ctx: BuildContextModel) -> PlanModel {
        if with_nix {
            plan_ok(seq![nix_build_model(".#flox-activations"@)])
        } else {
            plan_ok(seq![cargo_package_model("build"@, ctx.repo_root, "flox-activations"@)])
        }
    }

    open spec fn clean_model(&self, ctx: BuildContextModel) -> PlanModel {
        plan_ok(seq![cargo_package_model("clean"@, ctx.repo_root, "flox-activations"@)])
    }

    fn build(&self, with_nix: bool, ctx: &BuildContext) -> (r: Plan) {
        let r = if with_nix {
            Plan::single(nix_build(".#flox-activations"))
        } else {
            Plan::single(cargo_package("build", ctx.repo_root.as_str(), "flox-activations"))
        };
        proof {
            assert(r.deep_view() =~~= self.build_model(with_nix, ctx.deep_view()));
        }
        r
    }

    fn clean(&self, ctx: &BuildContext) -> (r: Plan) {
        Plan::single(cargo_package("clean", ctx.repo_root.as_str(), "flox-activations"))
    }
}

/// The native plugin module, built through its own build system when not
/// using the hermetic path.
pub struct NixPlugin;

impl Component for NixPlugin {
    open spec fn build_model(&self, with_nix: bool, ctx: BuildContextModel) -> PlanModel {
        if with_nix {
            plan_ok(seq![nix_build_model(".#flox-nix-plugins"@)])
        } else {
            plan_ok(seq![meson_model("compile"@, ctx.repo_root), meson_model("install"@, ctx.repo_root)])
        }
    }

    open spec fn clean_model(&self, ctx: BuildContextModel) -> PlanModel {
        plan_ok(seq![meson_clean_model(ctx.repo_root)])
    }

    fn build(&self, with_nix: bool, ctx: &BuildContext) -> (r: Plan) {
        if with_nix {
            Plan::single(nix_build(".#flox-nix-plugins"))
        } else {
            let mut p = Plan::empty();
            p.push_action(meson_sub("compile", ctx.repo_root.as_str()));
            p.push_action(meson_sub("install", ctx.repo_root.as_str()));
            proof {
                assert(p.deep_view() =~= self.build_model(with_nix, ctx.deep_view()));
            }
            p
        }
    }

    fn clean(&self, ctx: &BuildContext) -> (r: Plan) {
        Plan::single(meson_clean(ctx.repo_root.as_str()))
    }
}

/// The generated documentation.
pub struct ManPages;

impl Component for ManPages {
    open spec fn build_model(&self, with_nix: bool, ctx: BuildContextModel) -> PlanModel {
        plan_ok(
            seq![
                nix_build_out_model(
                    ".#flox-manpages"@,
                    build_dir_model(ctx.repo_root) + "/flox-manpages"@,
                )
            ],
        )
    }

    open spec fn clean_model(&self, ctx: BuildContextModel) -> PlanModel {
        plan_ok(seq![ActionModel::NoOp])
    }

    fn build(&self, with_nix: bool, ctx: &BuildContext) -> (r: Plan) {
        let out = build_dir(ctx.repo_root.as_str()).concat("/flox-manpages");
        Plan::single(nix_build_out(".#flox-manpages", out))
    }

    fn clean(&self, ctx: &BuildContext) -> (r: Plan) {
        Plan::single(Action::NoOp)
    }
}

/// The activation scripts package; building it first builds the
/// activation-tracking helper natively, then links the hermetic output at
/// the path the interpreter variable names.
pub struct ActivationScripts;

impl Component for ActivationScripts {
    open spec fn build_model(&self, with_nix: bool, ctx: BuildContextModel) -> PlanModel {
        let pre = cargo_package_model("build"@, ctx.repo_root, "flox-activations"@);
        match ctx.env.flox_interpreter {
            Some(out) => plan_ok(
                seq![
                    pre,
                    nix_impure_build_model(
                        ".#floxDevelopmentPackages.flox-activation-scripts^*"@,
                        out,
                    )
                ],
            ),
            None => PlanModel {
                actions: seq![pre],
                abort: Some(PlanErrorModel::MissingEnvVar("FLOX_INTERPRETER"@)),
            },
        }
    }

    open spec fn clean_model(&self, ctx: BuildContextModel) -> PlanModel {
        plan_ok(
            seq![ActionModel::RemoveFile(build_dir_model(ctx.repo_root) + "/flox-activation-scripts"@)],
        )
    }

    fn build(&self, with_nix: bool, ctx: &BuildContext) -> (r: Plan) {
        let pre = FloxActivations.build(false, ctx);
        match &ctx.env.flox_interpreter {
            Some(out) => {
                let finale = Plan::single(
                    nix_impure_build(
                        ".#floxDevelopmentPackages.flox-activation-scripts^*",
                        out.clone(),
                    ),
                );
                let r = pre.and_then(finale);
                proof {
                    assert(r.deep_view() =~= self.build_model(with_nix, ctx.deep_view()));
                }
                r
            },
            None => {
                let var: String = "FLOX_INTERPRETER".to_owned();
                let r = pre.and_then(Plan::fail(PlanError::MissingEnvVar(var)));
                proof {
                    assert(r.deep_view() =~= self.build_model(with_nix, ctx.deep_view()));
                }
                r
            },
        }
    }

    fn clean(&self, ctx: &BuildContext) -> (r: Plan) {
        Plan::single(remove_build_link(ctx.repo_root.as_str(), "/flox-activation-scripts"))
    }
}

/// The package-builder tool, linked at the path its output variable names.
pub struct PackageBuilder;

impl Component for PackageBuilder {
    open spec fn build_model(&self, with_nix: bool, ctx: BuildContextModel) -> PlanModel {
        match ctx.env.flox_package_builder {
            Some(out) => plan_ok(
                seq![
                    nix_build_out_model(".#floxDevelopmentPackages.flox-package-builder^*"@, out)
                ],
            ),
            None => plan_abort(PlanErrorModel::MissingEnvVar("FLOX_PACKAGE_BUILDER"@)),
        }
    }

    open spec fn clean_model(&self, ctx: BuildContextModel) -> PlanModel {
        plan_ok(
            seq![ActionModel::RemoveFile(build_dir_model(ctx.repo_root) + "/flox-package-builder"@)],
        )
    }

    fn build(&self, with_nix: bool, ctx: &BuildContext) -> (r: Plan) {
        match &ctx.env.flox_package_builder {
            Some(out) => Plan::single(
                nix_build_out(".#floxDevelopmentPackages.flox-package-builder^*", out.clone()),
            ),
            None => {
                let var: String = "FLOX_PACKAGE_BUILDER".to_owned();
                Plan::fail(PlanError::MissingEnvVar(var))
            },
        }
    }

    fn clean(&self, ctx: &BuildContext) -> (r: Plan) {
        Plan::single(remove_build_link(ctx.repo_root.as_str(), "/flox-package-builder"))
    }
}

/// The build-environment tool, linked at the path its output variable names.
pub struct Buildenv;

impl Component for Buildenv {
    open spec fn build_model(&self, with_nix: bool, ctx: BuildContextModel) -> PlanModel {
        match ctx.env.flox_buildenv {
            Some(out) => plan_ok(
                seq![
                    nix_impure_build_model(".#floxDevelopmentPackages.flox-buildenv^*"@, out)
                ],
            ),
            None => plan_abort(PlanErrorModel::MissingEnvVar("FLOX_BUILDENV"@)),
        }
    }

    open spec fn clean_model(&self, ctx: BuildContextModel) -> PlanModel {
        plan_ok(seq![ActionModel::RemoveFile(build_dir_model(ctx.repo_root) + "/flox-buildenv"@)])
    }

    fn build(&self, with_nix: bool, ctx: &BuildContext) -> (r: Plan) {
        match &ctx.env.flox_buildenv {
            Some(out) => Plan::single(
                nix_impure_build(".#floxDevelopmentPackages.flox-buildenv^*", out.clone()),
            ),
            None => {
                let var: String = "FLOX_BUILDENV".to_owned();
                Plan::fail(PlanError::MissingEnvVar(var))
            },
        }
    }

    fn clean(&self, ctx: &BuildContext) -> (r: Plan) {
        Plan::single(remove_build_link(ctx.repo_root.as_str(), "/flox-buildenv"))
    }
}

} // verus!
