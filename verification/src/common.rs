//! The known Casper dependencies, the shared manifest patch section, and the
//! description of a generated file.

use vstd::prelude::*;
use vstd::string::StringExecFns;

use crate::args::{CasperOverrides, OverridesView};
use crate::dependency::Dependency;

verus! {

/// The exit code used for every fatal error in this tool.
pub const FAILURE_EXIT_CODE: i32 = 101;

/// Mathematical view of a generated file: its path relative to the project
/// root, and its full contents.
pub ghost struct FileView {
    pub path: Seq<char>,
    pub contents: Seq<char>,
}

/// A file the generator plans to write: a path relative to the project root
/// and the full contents.
pub struct GeneratedFile {
    pub path: String,
    pub contents: String,
}

impl View for GeneratedFile {
    type V = FileView;

    open spec fn view(&self) -> FileView {
        FileView { path: self.path@, contents: self.contents@ }
    }
}

impl DeepView for GeneratedFile {
    type V = FileView;

    open spec fn deep_view(&self) -> FileView {
        self@
    }
}

/// The dependency on the contract API library.
pub fn cl_contract() -> (d: Dependency)
    ensures
        d@.name == "casper-contract"@,
        d@.version == "4.0.0"@,
{
    Dependency::new("casper-contract", "4.0.0")
}

/// The dependency on the shared types library.
pub fn cl_types() -> (d: Dependency)
    ensures
        d@.name == "casper-types"@,
        d@.version == "4.0.1"@,
{
    Dependency::new("casper-types", "4.0.1")
}

/// The dependency on the execution-engine test-support library.
pub fn cl_engine_test_support() -> (d: Dependency)
    ensures
        d@.name == "casper-engine-test-support"@,
        d@.version == "7.0.1"@,
{
    Dependency::new("casper-engine-test-support", "7.0.1")
}

/// The dependency on the execution engine itself.
pub fn cl_execution_engine() -> (d: Dependency)
    ensures
        d@.name == "casper-execution-engine"@,
        d@.version == "7.0.1"@,
{
    Dependency::new("casper-execution-engine", "7.0.1")
}

/// One patch entry redirecting dependency `name` to a local `path`.
pub open spec fn spec_path_entry(name: Seq<char>, path: Seq<char>) -> Seq<char> {
    name + " = { path = \""@ + path + "\" }\n"@
}

/// One patch entry redirecting dependency `name` to a remote repository at
/// `url` on `branch`.
pub open spec fn spec_git_entry(name: Seq<char>, url: Seq<char>, branch: Seq<char>) -> Seq<char> {
    name + " = { git = \""@ + url + "\", branch = \""@ + branch + "\" }\n"@
}

/// The shared patch block for a workspace-path override: each of the four
/// known dependencies is redirected to `path` extended with that dependency's
/// fixed subdirectory.
pub open spec fn spec_workspace_patch(path: Seq<char>) -> Seq<char> {
    "[patch.crates-io]\n"@ + spec_path_entry(
        "casper-contract"@,
        path + "/smart_contracts/contract"@,
    ) + spec_path_entry("casper-engine-test-support"@, path + "/execution_engine_testing/test_support"@)
        + spec_path_entry("casper-execution-engine"@, path + "/execution_engine"@)
        + spec_path_entry("casper-types"@, path + "/types"@)
}

/// The shared patch block for a remote-source override: each of the four
/// known dependencies is redirected to the same `url` and `branch`.
pub open spec fn spec_git_patch(url: Seq<char>, branch: Seq<char>) -> Seq<char> {
    "[patch.crates-io]\n"@ + spec_git_entry("casper-contract"@, url, branch) + spec_git_entry(
        "casper-engine-test-support"@,
        url,
        branch,
    ) + spec_git_entry("casper-execution-engine"@, url, branch) + spec_git_entry(
        "casper-types"@,
        url,
        branch,
    )
}

/// The shared patch section appended to every generated manifest: empty when
/// no override is active, otherwise the patch block of the override's kind.
pub open spec fn spec_patch_section(overrides: Option<OverridesView>) -> Seq<char> {
    match overrides {
        None => Seq::empty(),
        Some(OverridesView::WorkspacePath(path)) => spec_workspace_patch(path),
        Some(OverridesView::GitRepo { url, branch }) => spec_git_patch(url, branch),
    }
}

/// The view of an optional borrowed override.
pub open spec fn spec_overrides_view(overrides: Option<&CasperOverrides>) -> Option<OverridesView> {
    match overrides {
        Some(o) => Some(o@),
        None => None,
    }
}

/// Appends one patch entry redirecting `name` to the local `path` extended
/// with the dependency's fixed `subdir`.
fn append_path_entry(out: &mut String, name: &str, path: &str, subdir: &str)
    ensures
        final(out)@ == old(out)@ + spec_path_entry(name@, path@ + subdir@),
{
    out.append(name);
    out.append(" = { path = \"");
    out.append(path);
    out.append(subdir);
    out.append("\" }\n");
    proof {
        assert(final(out)@ =~= old(out)@ + spec_path_entry(name@, path@ + subdir@));
    }
}

/// Appends one patch entry redirecting `name` to the remote `url` on `branch`.
fn append_git_entry(out: &mut String, name: &str, url: &str, branch: &str)
    ensures
        final(out)@ == old(out)@ + spec_git_entry(name@, url@, branch@),
{
    out.append(name);
    out.append(" = { git = \"");
    out.append(url);
    out.append("\", branch = \"");
    out.append(branch);
    out.append("\" }\n");
    proof {
        assert(final(out)@ =~= old(out)@ + spec_git_entry(name@, url@, branch@));
    }
}

/// Renders the shared patch section for the given override.
pub fn patch_section(overrides: Option<&CasperOverrides>) -> (r: String)
    ensures
        r@ == spec_patch_section(spec_overrides_view(overrides)),
{
    match overrides {
        None => String::new(),
        Some(CasperOverrides::WorkspacePath(path)) => {
            let mut out = String::new();
            out.append("[patch.crates-io]\n");
            append_path_entry(&mut out, "casper-contract", path.as_str(), "/smart_contracts/contract");
            append_path_entry(
                &mut out,
                "casper-engine-test-support",
                path.as_str(),
                "/execution_engine_testing/test_support",
            );
            append_path_entry(&mut out, "casper-execution-engine", path.as_str(), "/execution_engine");
            append_path_entry(&mut out, "casper-types", path.as_str(), "/types");
            proof {
                assert(out@ =~= spec_workspace_patch(path@));
            }
            out
        },
        Some(CasperOverrides::GitRepo { url, branch }) => {
            let mut out = String::new();
            out.append("[patch.crates-io]\n");
            append_git_entry(&mut out, "casper-contract", url.as_str(), branch.as_str());
            append_git_entry(&mut out, "casper-engine-test-support", url.as_str(), branch.as_str());
            append_git_entry(&mut out, "casper-execution-engine", url.as_str(), branch.as_str());
            append_git_entry(&mut out, "casper-types", url.as_str(), branch.as_str());
            proof {
                assert(out@ =~= spec_git_patch(url@, branch@));
            }
            out
        },
    }
}

} // verus!
