//! Assembly of the full generation plan: every directory and file that a new
//! project skeleton consists of, in the order they are created.

use vstd::prelude::*;
use vstd::string::StringExecFns;

use crate::args::{Args, ArgsView};
use crate::common::{FileView, GeneratedFile};
use crate::contract_package;
use crate::makefile;
use crate::tests_package;
use crate::travis_yml;
use crate::wrapper;

verus! {

/// Everything to create under the project root, in order: first the
/// directories, then the files.
pub struct ProjectPlan {
    pub dirs: Vec<String>,
    pub files: Vec<GeneratedFile>,
}

/// The directories of the plan: the two package source trees, and the helper
/// directory exactly when the wrapper flag is set.
pub open spec fn spec_plan_dirs(a: ArgsView) -> Seq<Seq<char>> {
    if a.use_wrapper {
        seq!["contract/src"@, "tests/src"@, "helper"@]
    } else {
        seq!["contract/src"@, "tests/src"@]
    }
}

/// The files of the plan: manifest and starter source of each package, the
/// build-orchestration file in the variant chosen by the wrapper flag, the CI
/// configuration, and the wrapper source exactly when the wrapper flag is
/// set.
pub open spec fn spec_plan_files(a: ArgsView) -> Seq<FileView> {
    let base = seq![
        FileView {
            path: "contract/Cargo.toml"@,
            contents: contract_package::spec_contract_manifest(a.casper_overrides),
        },
        FileView {
            path: "contract/src/main.rs"@,
            contents: contract_package::MAIN_RS_CONTENTS@,
        },
        FileView {
            path: "tests/Cargo.toml"@,
            contents: tests_package::spec_tests_manifest(a.casper_overrides),
        },
        FileView {
            path: "tests/src/integration_tests.rs"@,
            contents: tests_package::INTEGRATION_TESTS_RS_CONTENTS@,
        },
        FileView { path: "Makefile"@, contents: makefile::spec_makefile_contents(a.use_wrapper) },
        FileView { path: ".travis.yml"@, contents: travis_yml::TRAVIS_YML_CONTENTS@ },
    ];
    if a.use_wrapper {
        base.push(FileView { path: "helper/wrapper.rs"@, contents: wrapper::WRAPPER_CONTENTS@ })
    } else {
        base
    }
}

/// Assembles the plan for the resolved configuration.  The driver around the
/// library checks that the destination does not exist, creates it, and then
/// creates each directory and writes each file of the plan in order.
pub fn plan(args: &Args) -> (p: ProjectPlan)
    ensures
        p.dirs.deep_view() == spec_plan_dirs(args@),
        p.files.deep_view() == spec_plan_files(args@),
{
    let overrides = args.casper_overrides();
    let use_wrapper = args.use_wrapper();

    let mut dirs: Vec<String> = Vec::new();
    dirs.push(String::from_str(contract_package::CONTRACT_SRC_DIR));
    dirs.push(String::from_str(tests_package::TESTS_SRC_DIR));
    if use_wrapper {
        dirs.push(String::from_str(wrapper::HELPER_DIR));
    }

    let mut files: Vec<GeneratedFile> = Vec::new();
    let (contract_toml, contract_main) = contract_package::create(overrides);
    files.push(contract_toml);
    files.push(contract_main);
    let (tests_toml, tests_main) = tests_package::create(overrides);
    files.push(tests_toml);
    files.push(tests_main);
    files.push(makefile::create(use_wrapper));
    files.push(travis_yml::create());
    if use_wrapper {
        files.push(wrapper::create());
    }

    proof {
        assert(dirs.deep_view() =~= spec_plan_dirs(args@));
        assert(files.deep_view() =~= spec_plan_files(args@));
    }
    ProjectPlan { dirs, files }
}

/// Law: without the wrapper flag the plan consists of exactly the two package
/// source trees and the six files of the skeleton, the build-orchestration
/// file in its plain variant, and nothing under the helper directory.
pub proof fn lemma_plan_without_wrapper(a: ArgsView)
    requires
        !a.use_wrapper,
    ensures
        spec_plan_dirs(a) == seq!["contract/src"@, "tests/src"@],
        spec_plan_files(a).len() == 6,
        spec_plan_files(a)[4].contents == makefile::spec_makefile_contents(false),
        forall|i: int|
            0 <= i < spec_plan_files(a).len() ==> spec_plan_files(a)[i].path
                != "helper/wrapper.rs"@,
{
    reveal_strlit("contract/Cargo.toml");
    reveal_strlit("contract/src/main.rs");
    reveal_strlit("tests/Cargo.toml");
    reveal_strlit("tests/src/integration_tests.rs");
    reveal_strlit("Makefile");
    reveal_strlit(".travis.yml");
    reveal_strlit("helper/wrapper.rs");
    assert forall|i: int|
        0 <= i < spec_plan_files(a).len() implies spec_plan_files(a)[i].path
        != "helper/wrapper.rs"@ by {
        assert(spec_plan_files(a)[i].path.len() != "helper/wrapper.rs"@.len());
    }
}

/// Law: with the wrapper flag the plan additionally holds the helper
/// directory and the wrapper source file, and the build-orchestration file is
/// the wrapper variant, which differs in content from the plain one.
pub proof fn lemma_plan_with_wrapper(a: ArgsView)
    requires
        a.use_wrapper,
    ensures
        spec_plan_dirs(a) == seq!["contract/src"@, "tests/src"@, "helper"@],
        spec_plan_files(a).len() == 7,
        spec_plan_files(a)[4].contents == makefile::spec_makefile_contents(true),
        spec_plan_files(a)[4].contents != makefile::spec_makefile_contents(false),
        spec_plan_files(a)[6].path == "helper/wrapper.rs"@,
        spec_plan_files(a)[6].contents == wrapper::WRAPPER_CONTENTS@,
{
    makefile::lemma_makefile_variants_differ();
}

} // verus!
