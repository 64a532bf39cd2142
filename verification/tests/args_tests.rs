//! Tests of the argument resolution: positional filtering, flags, and the
//! usage errors for invalid override combinations.

use cargo_casper::args::{Args, CasperOverrides, UsageError};

fn argv(parts: &[&str]) -> Vec<String> {
    parts.iter().map(|s| s.to_string()).collect()
}

fn expect_err(parts: &[&str]) -> UsageError {
    match Args::new(&argv(parts)) {
        Ok(_) => panic!("expected a usage error"),
        Err(e) => e,
    }
}

#[test]
fn resolves_plain_destination_path() {
    let args = Args::new(&argv(&["cargo-casper", "mydir"])).unwrap();
    assert_eq!(args.root_path(), "mydir");
    assert!(!args.use_wrapper());
    assert!(args.casper_overrides().is_none());
}

#[test]
fn drops_injected_subcommand_name_before_positional_parsing() {
    let args = Args::new(&argv(&["cargo-casper", "casper", "newdir"])).unwrap();
    assert_eq!(args.root_path(), "newdir");
}

#[test]
fn injected_subcommand_name_alone_leaves_no_destination() {
    assert_eq!(expect_err(&["cargo-casper", "casper"]), UsageError::MissingPath);
}

#[test]
fn second_argument_equal_to_subcommand_name_twice_keeps_one_as_destination() {
    let args = Args::new(&argv(&["cargo-casper", "casper", "casper"])).unwrap();
    assert_eq!(args.root_path(), "casper");
}

#[test]
fn other_second_position_value_is_the_destination() {
    let args = Args::new(&argv(&["cargo-casper", "other"])).unwrap();
    assert_eq!(args.root_path(), "other");
    assert_eq!(
        expect_err(&["cargo-casper", "other", "casper"]),
        UsageError::UnexpectedArgument
    );
}

#[test]
fn missing_destination_is_a_usage_error() {
    assert_eq!(expect_err(&["cargo-casper"]), UsageError::MissingPath);
}

#[test]
fn extra_destination_is_a_usage_error() {
    assert_eq!(expect_err(&["cargo-casper", "a", "b"]), UsageError::UnexpectedArgument);
}

#[test]
fn wrapper_flag_both_forms() {
    let args = Args::new(&argv(&["cargo-casper", "dir", "-w"])).unwrap();
    assert!(args.use_wrapper());
    let args = Args::new(&argv(&["cargo-casper", "--wrapper", "dir"])).unwrap();
    assert!(args.use_wrapper());
    assert_eq!(args.root_path(), "dir");
}

#[test]
fn workspace_path_override_is_resolved() {
    let args = Args::new(&argv(&["cargo-casper", "dir", "--workspace-path", "/ws"])).unwrap();
    match args.casper_overrides() {
        Some(CasperOverrides::WorkspacePath(p)) => assert_eq!(p, "/ws"),
        _ => panic!("expected a workspace-path override"),
    }
}

#[test]
fn git_override_is_resolved() {
    let args = Args::new(&argv(&[
        "cargo-casper",
        "dir",
        "--git-url",
        "https://example.com/node.git",
        "--git-branch",
        "dev",
    ]))
    .unwrap();
    match args.casper_overrides() {
        Some(CasperOverrides::GitRepo { url, branch }) => {
            assert_eq!(url, "https://example.com/node.git");
            assert_eq!(branch, "dev");
        },
        _ => panic!("expected a git override"),
    }
}

#[test]
fn git_url_without_branch_is_a_usage_error() {
    assert_eq!(
        expect_err(&["cargo-casper", "dir", "--git-url", "https://example.com/node.git"]),
        UsageError::GitUrlRequiresBranch
    );
}

#[test]
fn git_branch_without_url_is_a_usage_error() {
    assert_eq!(
        expect_err(&["cargo-casper", "dir", "--git-branch", "dev"]),
        UsageError::GitBranchRequiresUrl
    );
}

#[test]
fn workspace_path_with_git_url_is_a_usage_error() {
    assert_eq!(
        expect_err(&[
            "cargo-casper",
            "dir",
            "--workspace-path",
            "/ws",
            "--git-url",
            "https://example.com/node.git",
            "--git-branch",
            "dev",
        ]),
        UsageError::ConflictingOverrides
    );
    assert_eq!(
        expect_err(&[
            "cargo-casper",
            "dir",
            "--workspace-path",
            "/ws",
            "--git-url",
            "https://example.com/node.git",
        ]),
        UsageError::ConflictingOverrides
    );
}

#[test]
fn option_without_value_is_a_usage_error() {
    assert_eq!(
        expect_err(&["cargo-casper", "dir", "--workspace-path"]),
        UsageError::MissingOptionValue
    );
    assert_eq!(expect_err(&["cargo-casper", "dir", "--git-url"]), UsageError::MissingOptionValue);
}

#[test]
fn repeated_option_is_a_usage_error() {
    assert_eq!(
        expect_err(&["cargo-casper", "dir", "--workspace-path", "/a", "--workspace-path", "/b"]),
        UsageError::DuplicateOption
    );
}

#[test]
fn usage_error_messages() {
    assert_eq!(UsageError::MissingPath.message(), ": missing required argument '<path>'");
    assert_eq!(UsageError::UnexpectedArgument.message(), ": unexpected extra argument");
    assert_eq!(UsageError::MissingOptionValue.message(), ": an option is missing its value");
    assert_eq!(
        UsageError::DuplicateOption.message(),
        ": an option was supplied more than once"
    );
    assert_eq!(UsageError::GitUrlRequiresBranch.message(), ": --git-url requires --git-branch");
    assert_eq!(UsageError::GitBranchRequiresUrl.message(), ": --git-branch requires --git-url");
    assert_eq!(
        UsageError::ConflictingOverrides.message(),
        ": --workspace-path conflicts with --git-url and --git-branch"
    );
}
