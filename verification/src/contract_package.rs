//! The generator of the buildable contract package.

use vstd::prelude::*;
use vstd::string::StringExecFns;

use crate::args::{CasperOverrides, OverridesView};
use crate::common;
use crate::common::{FileView, GeneratedFile};
use crate::dependency::{spec_effective_version, spec_render};

verus! {

/// The subdirectory tree of the contract package, created before its files.
pub const CONTRACT_SRC_DIR: &'static str = "contract/src";

/// The manifest text above the dependency lines.
pub const CARGO_TOML_HEADER: &'static str = "[package]\nname = \"contract\"\nversion = \"0.1.0\"\nedition = \"2018\"\n\n[dependencies]\n";

/// The manifest text below the dependency lines.
pub const CARGO_TOML_FOOTER: &'static str = "\n[[bin]]\nname = \"contract\"\npath = \"src/main.rs\"\nbench = false\ndoctest = false\ntest = false\n\n[profile.release]\ncodegen-units = 1\nlto = true\n\n";

/// The minimal starter source file of the contract package.
pub const MAIN_RS_CONTENTS: &'static str = "fn main() {\n    // Entry point of the contract.\n}\n";

/// The contract package's manifest: the fixed template around the rendered
/// lines for the contract API and types dependencies, with the shared patch
/// section appended.
pub open spec fn spec_contract_manifest(overrides: Option<OverridesView>) -> Seq<char> {
    CARGO_TOML_HEADER@ + spec_render(
        "casper-contract"@,
        spec_effective_version(overrides is Some, "4.0.0"@),
        true,
        Seq::empty(),
    ) + spec_render(
        "casper-types"@,
        spec_effective_version(overrides is Some, "4.0.1"@),
        true,
        Seq::empty(),
    ) + CARGO_TOML_FOOTER@ + common::spec_patch_section(overrides)
}

/// Plans the contract package: its manifest and its starter source file.
pub fn create(overrides: Option<&CasperOverrides>) -> (r: (GeneratedFile, GeneratedFile))
    ensures
        r.0@ == (FileView {
            path: "contract/Cargo.toml"@,
            contents: spec_contract_manifest(common::spec_overrides_view(overrides)),
        }),
        r.1@ == (FileView { path: "contract/src/main.rs"@, contents: MAIN_RS_CONTENTS@ }),
{
    let no_features: [&str; 0] = [];
    let mut manifest = String::from_str(CARGO_TOML_HEADER);
    let contract_line = common::cl_contract().display_with_features(overrides, true, &no_features);
    manifest.append(contract_line.as_str());
    let types_line = common::cl_types().display_with_features(overrides, true, &no_features);
    manifest.append(types_line.as_str());
    manifest.append(CARGO_TOML_FOOTER);
    let patch = common::patch_section(overrides);
    manifest.append(patch.as_str());
    proof {
        assert(no_features.deep_view() =~= Seq::<Seq<char>>::empty());
        assert(manifest@ =~= spec_contract_manifest(common::spec_overrides_view(overrides)));
    }
    let toml = GeneratedFile { path: String::from_str("contract/Cargo.toml"), contents: manifest };
    let main_rs = GeneratedFile {
        path: String::from_str("contract/src/main.rs"),
        contents: String::from_str(MAIN_RS_CONTENTS),
    };
    (toml, main_rs)
}

} // verus!
