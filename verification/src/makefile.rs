//! The build-orchestration file generator.

use vstd::prelude::*;
use vstd::string::StringExecFns;

use crate::common::{FileView, GeneratedFile};

verus! {

/// The plain build-orchestration template.
pub const MAKEFILE_CONTENTS: &'static str = "prepare:\n\trustup target add wasm32-unknown-unknown\n\nbuild-contract:\n\tcd contract && cargo build --release --target wasm32-unknown-unknown\n\ntest: build-contract\n\tcd tests && cargo test\n\nclippy:\n\tcd contract && cargo clippy --all-targets --target wasm32-unknown-unknown\n\tcd tests && cargo clippy --all-targets\n\nclean:\n\tcd contract && cargo clean\n\tcd tests && cargo clean\n";

/// The build-orchestration template routing contract builds through the
/// build-determinism wrapper.
pub const MAKEFILE_CONTENTS_WITH_WRAPPER: &'static str = "prepare:\n\trustup target add wasm32-unknown-unknown\n\nbuild-wrapper:\n\tcd helper && cargo build --release\n\nbuild-contract: build-wrapper\n\tcd contract && RUSTC_WRAPPER=../helper/target/release/wrapper cargo build --release --target wasm32-unknown-unknown\n\ntest: build-contract\n\tcd tests && cargo test\n\nclippy:\n\tcd contract && cargo clippy --all-targets --target wasm32-unknown-unknown\n\tcd tests && cargo clippy --all-targets\n\nclean:\n\tcd contract && cargo clean\n\tcd tests && cargo clean\n\tcd helper && cargo clean\n";

/// The contents selected for the build-orchestration file: the wrapper
/// variant exactly when the wrapper flag is set.
pub open spec fn spec_makefile_contents(use_wrapper: bool) -> Seq<char> {
    if use_wrapper {
        MAKEFILE_CONTENTS_WITH_WRAPPER@
    } else {
        MAKEFILE_CONTENTS@
    }
}

/// Law: the two build-orchestration template variants differ, so the chosen
/// flag is visible in the generated file's contents.
pub proof fn lemma_makefile_variants_differ()
    ensures
        spec_makefile_contents(true) != spec_makefile_contents(false),
{
    reveal_strlit(
        "prepare:\n\trustup target add wasm32-unknown-unknown\n\nbuild-contract:\n\tcd contract && cargo build --release --target wasm32-unknown-unknown\n\ntest: build-contract\n\tcd tests && cargo test\n\nclippy:\n\tcd contract && cargo clippy --all-targets --target wasm32-unknown-unknown\n\tcd tests && cargo clippy --all-targets\n\nclean:\n\tcd contract && cargo clean\n\tcd tests && cargo clean\n",
    );
    reveal_strlit(
        "prepare:\n\trustup target add wasm32-unknown-unknown\n\nbuild-wrapper:\n\tcd helper && cargo build --release\n\nbuild-contract: build-wrapper\n\tcd contract && RUSTC_WRAPPER=../helper/target/release/wrapper cargo build --release --target wasm32-unknown-unknown\n\ntest: build-contract\n\tcd tests && cargo test\n\nclippy:\n\tcd contract && cargo clippy --all-targets --target wasm32-unknown-unknown\n\tcd tests && cargo clippy --all-targets\n\nclean:\n\tcd contract && cargo clean\n\tcd tests && cargo clean\n\tcd helper && cargo clean\n",
    );
    assert(spec_makefile_contents(true).len() != spec_makefile_contents(false).len());
}

/// Plans the build-orchestration file at the project root, selecting between
/// the two embedded template variants.
pub fn create(use_wrapper: bool) -> (f: GeneratedFile)
    ensures
        f@ == (FileView { path: "Makefile"@, contents: spec_makefile_contents(use_wrapper) }),
{
    let contents = if use_wrapper {
        String::from_str(MAKEFILE_CONTENTS_WITH_WRAPPER)
    } else {
        String::from_str(MAKEFILE_CONTENTS)
    };
    GeneratedFile { path: String::from_str("Makefile"), contents }
}

} // verus!
