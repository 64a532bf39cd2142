//! The CI configuration file generator.

use vstd::prelude::*;
use vstd::string::StringExecFns;

use crate::common::{FileView, GeneratedFile};

verus! {

/// The embedded CI configuration template, copied byte for byte.
pub const TRAVIS_YML_CONTENTS: &'static str = "language: rust\n\nscript:\n  - make prepare\n  - make test\n";

/// Plans the CI configuration file at the project root.
pub fn create() -> (f: GeneratedFile)
    ensures
        f@ == (FileView { path: ".travis.yml"@, contents: TRAVIS_YML_CONTENTS@ }),
{
    GeneratedFile {
        path: String::from_str(".travis.yml"),
        contents: String::from_str(TRAVIS_YML_CONTENTS),
    }
}

} // verus!
