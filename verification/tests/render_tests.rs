//! Tests of the dependency-line rendering and the shared patch section.

use cargo_casper::args::CasperOverrides;
use cargo_casper::common::{
    cl_contract, cl_engine_test_support, cl_execution_engine, cl_types, patch_section,
};
use cargo_casper::dependency::Dependency;

fn workspace_override() -> CasperOverrides {
    CasperOverrides::WorkspacePath("/ws".to_string())
}

fn git_override() -> CasperOverrides {
    CasperOverrides::GitRepo {
        url: "https://example.com/node.git".to_string(),
        branch: "dev".to_string(),
    }
}

#[test]
fn renders_plain_line_for_all_known_dependencies() {
    assert_eq!(
        cl_contract().display_with_features(None, true, &[]),
        "casper-contract = \"4.0.0\"\n"
    );
    assert_eq!(
        cl_types().display_with_features(None, true, &[]),
        "casper-types = \"4.0.1\"\n"
    );
    assert_eq!(
        cl_engine_test_support().display_with_features(None, true, &[]),
        "casper-engine-test-support = \"7.0.1\"\n"
    );
    assert_eq!(
        cl_execution_engine().display_with_features(None, true, &[]),
        "casper-execution-engine = \"7.0.1\"\n"
    );
}

#[test]
fn renders_wildcard_version_for_all_known_dependencies_under_workspace_override() {
    let ov = workspace_override();
    assert_eq!(
        cl_contract().display_with_features(Some(&ov), true, &[]),
        "casper-contract = \"*\"\n"
    );
    assert_eq!(
        cl_types().display_with_features(Some(&ov), true, &[]),
        "casper-types = \"*\"\n"
    );
    assert_eq!(
        cl_engine_test_support().display_with_features(Some(&ov), true, &[]),
        "casper-engine-test-support = \"*\"\n"
    );
    assert_eq!(
        cl_execution_engine().display_with_features(Some(&ov), true, &[]),
        "casper-execution-engine = \"*\"\n"
    );
}

#[test]
fn renders_wildcard_version_under_git_override() {
    let ov = git_override();
    assert_eq!(
        cl_contract().display_with_features(Some(&ov), true, &[]),
        "casper-contract = \"*\"\n"
    );
    assert_eq!(
        cl_contract().display_with_features(Some(&ov), false, &[]),
        "casper-contract = { version = \"*\", default-features = false }\n"
    );
}

#[test]
fn renders_inline_table_when_default_features_disabled() {
    assert_eq!(
        cl_contract().display_with_features(None, false, &[]),
        "casper-contract = { version = \"4.0.0\", default-features = false }\n"
    );
    assert_eq!(
        cl_types().display_with_features(None, false, &[]),
        "casper-types = { version = \"4.0.1\", default-features = false }\n"
    );
}

#[test]
fn renders_inline_table_with_features() {
    assert_eq!(
        cl_contract().display_with_features(None, true, &["a", "b"]),
        "casper-contract = { version = \"4.0.0\", features = [\"a\", \"b\"] }\n"
    );
    assert_eq!(
        cl_contract().display_with_features(None, true, &["one"]),
        "casper-contract = { version = \"4.0.0\", features = [\"one\"] }\n"
    );
}

#[test]
fn renders_inline_table_with_features_and_no_default_features() {
    assert_eq!(
        cl_contract().display_with_features(None, false, &["a", "b"]),
        "casper-contract = { version = \"4.0.0\", default-features = false, features = [\"a\", \"b\"] }\n"
    );
}

#[test]
fn renders_custom_dependency() {
    let dep = Dependency::new("some-lib", "1.2.3");
    assert_eq!(dep.name(), "some-lib");
    assert_eq!(dep.version(), "1.2.3");
    assert_eq!(dep.display_with_features(None, true, &[]), "some-lib = \"1.2.3\"\n");
}

#[test]
fn patch_section_empty_without_override() {
    assert_eq!(patch_section(None), "");
}

#[test]
fn patch_section_redirects_each_dependency_to_workspace_subdirectory() {
    let ov = workspace_override();
    assert_eq!(
        patch_section(Some(&ov)),
        "[patch.crates-io]\n\
         casper-contract = { path = \"/ws/smart_contracts/contract\" }\n\
         casper-engine-test-support = { path = \"/ws/execution_engine_testing/test_support\" }\n\
         casper-execution-engine = { path = \"/ws/execution_engine\" }\n\
         casper-types = { path = \"/ws/types\" }\n"
    );
}

#[test]
fn patch_section_redirects_each_dependency_to_git_url_and_branch() {
    let ov = git_override();
    assert_eq!(
        patch_section(Some(&ov)),
        "[patch.crates-io]\n\
         casper-contract = { git = \"https://example.com/node.git\", branch = \"dev\" }\n\
         casper-engine-test-support = { git = \"https://example.com/node.git\", branch = \"dev\" }\n\
         casper-execution-engine = { git = \"https://example.com/node.git\", branch = \"dev\" }\n\
         casper-types = { git = \"https://example.com/node.git\", branch = \"dev\" }\n"
    );
}
