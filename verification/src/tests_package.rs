//! The generator of the contract's test package.

use vstd::prelude::*;
use vstd::string::StringExecFns;

use crate::args::{CasperOverrides, OverridesView};
use crate::common;
use crate::common::{FileView, GeneratedFile};
use crate::dependency::{spec_effective_version, spec_render};

verus! {

/// The subdirectory tree of the test package, created before its files.
pub const TESTS_SRC_DIR: &'static str = "tests/src";

/// The manifest text above the dependency lines.
pub const CARGO_TOML_HEADER: &'static str = "[package]\nname = \"tests\"\nversion = \"0.1.0\"\nedition = \"2018\"\n\n[dependencies]\n";

/// The manifest text below the dependency lines.
pub const CARGO_TOML_FOOTER: &'static str = "\n[[bin]]\nname = \"integration-tests\"\npath = \"src/integration_tests.rs\"\nbench = false\ndoctest = false\ntest = false\n\n";

/// The minimal starter source file of the test package.
pub const INTEGRATION_TESTS_RS_CONTENTS: &'static str = "fn main() {\n    // Run the contract's integration tests with `cargo test`.\n}\n";

/// The test package's manifest: the fixed template around the rendered lines
/// for the test-support, execution-engine and types dependencies, with the
/// shared patch section appended.
pub open spec fn spec_tests_manifest(overrides: Option<OverridesView>) -> Seq<char> {
    CARGO_TOML_HEADER@ + spec_render(
        "casper-engine-test-support"@,
        spec_effective_version(overrides is Some, "7.0.1"@),
        true,
        seq!["test-support"@],
    ) + spec_render(
        "casper-execution-engine"@,
        spec_effective_version(overrides is Some, "7.0.1"@),
        true,
        Seq::empty(),
    ) + spec_render(
        "casper-types"@,
        spec_effective_version(overrides is Some, "4.0.1"@),
        true,
        Seq::empty(),
    ) + CARGO_TOML_FOOTER@ + common::spec_patch_section(overrides)
}

/// Plans the test package: its manifest and its starter source file.
pub fn create(overrides: Option<&CasperOverrides>) -> (r: (GeneratedFile, GeneratedFile))
    ensures
        r.0@ == (FileView {
            path: "tests/Cargo.toml"@,
            contents: spec_tests_manifest(common::spec_overrides_view(overrides)),
        }),
        r.1@ == (FileView {
            path: "tests/src/integration_tests.rs"@,
            contents: INTEGRATION_TESTS_RS_CONTENTS@,
        }),
{
    let no_features: [&str; 0] = [];
    let test_support_features: [&str; 1] = ["test-support"];
    let mut manifest = String::from_str(CARGO_TOML_HEADER);
    let test_support_line = common::cl_engine_test_support().display_with_features(
        overrides,
        true,
        &test_support_features,
    );
    manifest.append(test_support_line.as_str());
    let engine_line = common::cl_execution_engine().display_with_features(
        overrides,
        true,
        &no_features,
    );
    manifest.append(engine_line.as_str());
    let types_line = common::cl_types().display_with_features(overrides, true, &no_features);
    manifest.append(types_line.as_str());
    manifest.append(CARGO_TOML_FOOTER);
    let patch = common::patch_section(overrides);
    manifest.append(patch.as_str());
    proof {
        assert(no_features.deep_view() =~= Seq::<Seq<char>>::empty());
        assert(test_support_features.deep_view() =~= seq!["test-support"@]);
        assert(manifest@ =~= spec_tests_manifest(common::spec_overrides_view(overrides)));
    }
    let toml = GeneratedFile { path: String::from_str("tests/Cargo.toml"), contents: manifest };
    let integration_tests = GeneratedFile {
        path: String::from_str("tests/src/integration_tests.rs"),
        contents: String::from_str(INTEGRATION_TESTS_RS_CONTENTS),
    };
    (toml, integration_tests)
}

} // verus!
