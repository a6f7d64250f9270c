//! Fixed locations inside the repository, and the version string.
//!
//! The repository root itself is found by an external query (a version
//! control call), so every function here takes it as a plain argument and
//! derives the location it names by pure string work.

use vstd::prelude::*;

verus! {

/// The sub-directory of the repository holding the CLI workspace.
pub open spec fn cli_directory_model(root: Seq<char>) -> Seq<char> {
    root + "/cli"@
}

/// The directory build outputs are linked into.
pub open spec fn build_dir_model(root: Seq<char>) -> Seq<char> {
    root + "/build"@
}

/// The manifest of the CLI workspace.
pub open spec fn cargo_workspace_manifest_model(root: Seq<char>) -> Seq<char> {
    cli_directory_model(root) + "/Cargo.toml"@
}

/// The build directory of the native plugin module.
pub open spec fn meson_builddir_model(root: Seq<char>) -> Seq<char> {
    root + "/nix-plugins/builddir"@
}

/// Path of the CLI workspace directory under `root`.
pub fn cli_directory(root: &str) -> (r: String)
    ensures
        r@ == cli_directory_model(root@),
{
    root.to_owned().concat("/cli")
}

/// Path of the build output directory under `root`.
pub fn build_dir(root: &str) -> (r: String)
    ensures
        r@ == build_dir_model(root@),
{
    root.to_owned().concat("/build")
}

/// Path of the CLI workspace manifest under `root`.
pub fn cargo_workspace_manifest(root: &str) -> (r: String)
    ensures
        r@ == cargo_workspace_manifest_model(root@),
{
    let dir = cli_directory(root);
    dir.concat("/Cargo.toml")
}

/// Path of the native plugin build directory under `root`.
pub fn meson_builddir(root: &str) -> (r: String)
    ensures
        r@ == meson_builddir_model(root@),
{
    root.to_owned().concat("/nix-plugins/builddir")
}

/// Whether two string slices hold the same characters.
pub fn str_eq(a: &str, b: &str) -> (r: bool)
    ensures
        r == (a@ == b@),
{
    let a_owned = a.to_owned();
    let b_owned = b.to_owned();
    a_owned == b_owned
}

/// What `str::trim` returns: the input without its leading and trailing
/// whitespace. The result depends on the characters alone.
pub uninterp spec fn trimmed_of(s: Seq<char>) -> Seq<char>;

/// Relies on `str::trim` of std: removes leading and trailing whitespace,
/// returning a sub-slice of the input, so the result is never longer than
/// the input and an empty input stays empty.
#[verifier::external_body]
fn trim(s: &str) -> (r: &str)
    ensures
        r@ == trimmed_of(s@),
        r@.len() <= s@.len(),
        s@.len() == 0 ==> r@.len() == 0,
{
    s.trim()
}

/// The assembled version string: the trimmed contents of the version file,
/// then `-g`, then the short revision hash.
pub open spec fn flox_version_model(file_contents: Seq<char>, git_rev: Seq<char>) -> Seq<char> {
    trimmed_of(file_contents) + "-g"@ + git_rev
}

/// Combine the contents of the repository's version file with a short
/// source-control revision hash into the version string exported to tests.
pub fn flox_version(file_contents: &str, git_rev: &str) -> (r: String)
    ensures
        r@ == flox_version_model(file_contents@, git_rev@),
{
    let base = trim(file_contents).to_owned();
    let tagged = base.concat("-g");
    tagged.concat(git_rev)
}

} // verus!
