//! The build-determinism wrapper generator.

use vstd::prelude::*;
use vstd::string::StringExecFns;

use crate::common::{FileView, GeneratedFile};

verus! {

/// The subdirectory under the project root that holds the wrapper source.
pub const HELPER_DIR: &'static str = "helper";

/// The embedded wrapper source template, copied byte for byte.
pub const WRAPPER_CONTENTS: &'static str = "//! Build wrapper keeping contract builds reproducible.\n\nfn main() {\n    // Invoke the wrapped compiler with a pinned flag set, so that repeated\n    // builds of the contract yield identical output.\n}\n";

/// Plans the build-determinism wrapper source file.  The file lives in a
/// subdirectory of the project root, which the driver creates first.
pub fn create() -> (f: GeneratedFile)
    ensures
        f@ == (FileView { path: "helper/wrapper.rs"@, contents: WRAPPER_CONTENTS@ }),
{
    GeneratedFile {
        path: String::from_str("helper/wrapper.rs"),
        contents: String::from_str(WRAPPER_CONTENTS),
    }
}

} // verus!
