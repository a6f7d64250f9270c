//! The command-line surface: parsed arguments and their meaning.
//!
//! Parsing itself (flag syntax, defaults) is done by the unverified shell;
//! the structs here hold the parsed values, and the submodules turn them
//! into plans.

use vstd::prelude::*;

use crate::util::cli_directory_model;
use crate::util::cli_directory;

pub mod build_cmd;
pub mod clean;
pub mod test;

verus! {

/// The whole parsed command line.
#[derive(Debug, Clone)]
pub struct Cli {
    pub cmd: Command,
}

/// The subcommand given on the command line.
#[derive(Debug, Clone)]
pub enum Command {
    /// Build artifacts.
    Build(BuildArgs),
    /// Run (parts of) the test suite.
    Test(TestArgs),
    /// Remove build artifacts.
    Clean(CleanArgs),
    /// Print the path to the CLI binary.
    Bin(BinArgs),
}

/// Arguments of the build subcommand.
#[derive(Debug, Clone)]
pub struct BuildArgs {
    /// Build the artifact with the hermetic build system.
    pub nix: bool,
    /// The artifact to build; parsing defaults it to `all`.
    pub artifact: String,
}

/// Arguments of the test subcommand.
#[derive(Debug, Clone)]
pub struct TestArgs {
    /// Run integration tests against a hermetically built binary.
    pub nix: bool,
    /// Build the named artifact before running any tests.
    pub build: Option<String>,
    /// Run unit tests, optionally filtered; parsing turns a bare flag into
    /// the sentinel `all`.
    pub unit: Option<String>,
    /// Run integration tests with these runner arguments; parsing turns a
    /// bare flag into the single sentinel `all`.
    pub int: Option<Vec<String>>,
}

/// Mathematical model of [`TestArgs`].
#[verifier::ext_equal]
pub struct TestArgsModel {
    pub nix: bool,
    pub build: Option<Seq<char>>,
    pub unit: Option<Seq<char>>,
    pub int: Option<Seq<Seq<char>>>,
}

impl DeepView for TestArgs {
    type V = TestArgsModel;

    open spec fn deep_view(&self) -> TestArgsModel {
        TestArgsModel {
            nix: self.nix,
            build: self.build.deep_view(),
            unit: self.unit.deep_view(),
            int: self.int.deep_view(),
        }
    }
}

/// Arguments of the clean subcommand.
#[derive(Debug, Clone)]
pub struct CleanArgs {
    /// The artifact to clean; parsing defaults it to `all`.
    pub artifact: String,
}

/// Arguments of the path-printing subcommand.
#[derive(Debug, Clone)]
pub struct BinArgs {
    /// The build profile whose binary path is printed; parsing defaults it
    /// to `debug`.
    pub profile: String,
}

/// The path of the CLI binary built under `profile`.
pub open spec fn bin_path_model(root: Seq<char>, profile: Seq<char>) -> Seq<char> {
    cli_directory_model(root) + "/target/"@ + profile + "/flox"@
}

/// Where the CLI binary built under `profile` lands.
pub fn bin_path(root: &str, profile: &str) -> (r: String)
    ensures
        r@ == bin_path_model(root@, profile@),
{
    let dir = cli_directory(root);
    let with_target = dir.concat("/target/");
    let with_profile = with_target.concat(profile);
    with_profile.concat("/flox")
}

} // verus!
