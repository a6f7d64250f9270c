//! Build orchestration planning for a multi-component project.
//!
//! The library computes, as plain data, the external commands that a build,
//! clean, or test request must run: which programs, with which arguments,
//! in which order, and with which extra environment variables. A thin
//! unverified shell around the library executes those plans.

mod actions;
pub mod cli;
mod components;
mod laws;
mod runner;
mod util;

pub use actions::Action;
pub use actions::EnvVar;
pub use actions::Invocation;
pub use actions::Plan;
pub use actions::PlanError;
pub use cli::BinArgs;
pub use cli::BuildArgs;
pub use cli::Cli;
pub use cli::CleanArgs;
pub use cli::Command;
pub use cli::TestArgs;
pub use cli::bin_path;
pub use cli::build_cmd::build;
pub use cli::build_cmd::build_all;
pub use cli::build_cmd::build_component;
pub use cli::clean::clean;
pub use components::ActivationScripts;
pub use components::BuildContext;
pub use components::Buildenv;
pub use components::Component;
pub use components::EnvVars;
pub use components::Flox;
pub use components::FloxActivations;
pub use components::ManPages;
pub use components::NixPlugin;
pub use components::PackageBuilder;
pub use components::Watchdog;
pub use runner::PlanRunner;
pub use util::build_dir;
pub use util::cargo_workspace_manifest;
pub use util::cli_directory;
pub use util::flox_version;
pub use util::meson_builddir;
