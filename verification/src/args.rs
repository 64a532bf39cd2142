//! Resolution of the command-line tokens into the tool's configuration.

use vstd::prelude::*;
use vstd::string::StringExecFns;

verus! {

/// Mathematical view of a dependency-source override.
pub ghost enum OverridesView {
    /// Redirect every dependency into a local checkout at this path.
    WorkspacePath(Seq<char>),
    /// Redirect every dependency to a remote repository.
    GitRepo { url: Seq<char>, branch: Seq<char> },
}

/// A hidden mechanism to redirect every generated dependency to an alternate
/// source instead of its pinned published version.
pub enum CasperOverrides {
    /// The path to a local copy of the casper-node repository.
    WorkspacePath(String),
    /// The details of an online copy of the casper-node repository.
    GitRepo { url: String, branch: String },
}

impl View for CasperOverrides {
    type V = OverridesView;

    open spec fn view(&self) -> OverridesView {
        match self {
            CasperOverrides::WorkspacePath(p) => OverridesView::WorkspacePath(p@),
            CasperOverrides::GitRepo { url, branch } => OverridesView::GitRepo {
                url: url@,
                branch: branch@,
            },
        }
    }
}

/// Mathematical view of the resolved configuration.
#[verifier::ext_equal]
pub ghost struct ArgsView {
    pub root_path: Seq<char>,
    pub casper_overrides: Option<OverridesView>,
    pub use_wrapper: bool,
}

/// The tool's configuration, resolved once from the command-line tokens.
pub struct Args {
    root_path: String,
    casper_overrides: Option<CasperOverrides>,
    use_wrapper: bool,
}

impl View for Args {
    type V = ArgsView;

    closed spec fn view(&self) -> ArgsView {
        ArgsView {
            root_path: self.root_path@,
            casper_overrides: match self.casper_overrides {
                Some(o) => Some(o@),
                None => None,
            },
            use_wrapper: self.use_wrapper,
        }
    }
}

impl Args {
    /// The destination path for the new project.
    pub fn root_path(&self) -> (r: &str)
        ensures
            r@ == self@.root_path,
    {
        self.root_path.as_str()
    }

    /// The dependency-source override, if one was supplied.
    pub fn casper_overrides(&self) -> (r: Option<&CasperOverrides>)
        ensures
            match r {
                Some(o) => self@.casper_overrides == Some(o@),
                None => self@.casper_overrides is None,
            },
    {
        self.casper_overrides.as_ref()
    }

    /// Whether the build-determinism wrapper should be generated.
    pub fn use_wrapper(&self) -> (r: bool)
        ensures
            r == self@.use_wrapper,
    {
        self.use_wrapper
    }
}

impl Args {
    /// Resolves the raw process arguments, program name first, into the
    /// tool's configuration, or reports the usage error that the scan or the
    /// resolution of the collected options runs into.
    pub fn new(raw_args: &Vec<String>) -> (r: Result<Args, UsageError>)
        ensures
            match r {
                Ok(a) => spec_resolve_args(raw_args.deep_view()) == Ok::<ArgsView, UsageError>(
                    a@,
                ),
                Err(e) => spec_resolve_args(raw_args.deep_view()) == Err::<ArgsView, UsageError>(
                    e,
                ),
            },
    {
        let ghost all: Seq<Seq<char>> = raw_args.deep_view();
        if raw_args.len() == 0 {
            return Err(UsageError::MissingPath);
        }
        let subcommand = String::from_str("casper");
        let start: usize = if raw_args.len() >= 2 && raw_args[1] == subcommand {
            2
        } else {
            1
        };
        proof {
            if all.len() >= 2 {
                assert(all[1] == raw_args@[1]@);
            }
            assert(all.subrange(start as int, all.len() as int) =~= spec_filtered_tokens(all));
        }
        let flag_wrapper_long = String::from_str("--wrapper");
        let flag_wrapper_short = String::from_str("-w");
        let flag_workspace_path = String::from_str("--workspace-path");
        let flag_git_url = String::from_str("--git-url");
        let flag_git_branch = String::from_str("--git-branch");

        let mut root_path: Option<String> = None;
        let mut workspace_path: Option<String> = None;
        let mut git_url: Option<String> = None;
        let mut git_branch: Option<String> = None;
        let mut use_wrapper: bool = false;
        let mut i: usize = start;

        while i < raw_args.len()
            invariant
                start <= i <= raw_args.len(),
                flag_wrapper_long@ == "--wrapper"@,
                flag_wrapper_short@ == "-w"@,
                flag_workspace_path@ == "--workspace-path"@,
                flag_git_url@ == "--git-url"@,
                flag_git_branch@ == "--git-branch"@,
                all == raw_args.deep_view(),
                all.len() == raw_args@.len(),
                forall|j: int| 0 <= j < all.len() ==> all[j] == raw_args@[j]@,
                spec_scan(spec_filtered_tokens(all), spec_initial_scan_state()) == spec_scan(
                    all.subrange(i as int, all.len() as int),
                    ScanState {
                        root_path: root_path.deep_view(),
                        workspace_path: workspace_path.deep_view(),
                        git_url: git_url.deep_view(),
                        git_branch: git_branch.deep_view(),
                        use_wrapper: use_wrapper,
                    },
                ),
            decreases raw_args.len() - i,
        {
            let ghost rest = all.subrange(i as int, all.len() as int);
            let ghost st = ScanState {
                root_path: root_path.deep_view(),
                workspace_path: workspace_path.deep_view(),
                git_url: git_url.deep_view(),
                git_branch: git_branch.deep_view(),
                use_wrapper: use_wrapper,
            };
            proof {
                reveal_strlit("--wrapper");
                reveal_strlit("-w");
                reveal_strlit("--workspace-path");
                reveal_strlit("--git-url");
                reveal_strlit("--git-branch");
                assert(rest[0] == all[i as int]);
                assert(rest.drop_first() =~= all.subrange(i as int + 1, all.len() as int));
            }
            let token = &raw_args[i];
            if *token == flag_wrapper_long || *token == flag_wrapper_short {
                use_wrapper = true;
                i = i + 1;
            } else if *token == flag_workspace_path {
                if i + 1 >= raw_args.len() {
                    assert(rest.len() == 1);
                    return Err(UsageError::MissingOptionValue);
                }
                if workspace_path.is_some() {
                    return Err(UsageError::DuplicateOption);
                }
                proof {
                    assert(rest[1] == all[i as int + 1]);
                    assert(rest.subrange(2, rest.len() as int) =~= all.subrange(
                        i as int + 2,
                        all.len() as int,
                    ));
                }
                workspace_path = Some(raw_args[i + 1].clone());
                i = i + 2;
            } else if *token == flag_git_url {
                if i + 1 >= raw_args.len() {
                    assert(rest.len() == 1);
                    return Err(UsageError::MissingOptionValue);
                }
                if git_url.is_some() {
                    return Err(UsageError::DuplicateOption);
                }
                proof {
                    assert(rest[1] == all[i as int + 1]);
                    assert(rest.subrange(2, rest.len() as int) =~= all.subrange(
                        i as int + 2,
                        all.len() as int,
                    ));
                }
                git_url = Some(raw_args[i + 1].clone());
                i = i + 2;
            } else if *token == flag_git_branch {
                if i + 1 >= raw_args.len() {
                    assert(rest.len() == 1);
                    return Err(UsageError::MissingOptionValue);
                }
                if git_branch.is_some() {
                    return Err(UsageError::DuplicateOption);
                }
                proof {
                    assert(rest[1] == all[i as int + 1]);
                    assert(rest.subrange(2, rest.len() as int) =~= all.subrange(
                        i as int + 2,
                        all.len() as int,
                    ));
                }
                git_branch = Some(raw_args[i + 1].clone());
                i = i + 2;
            } else {
                if root_path.is_some() {
                    return Err(UsageError::UnexpectedArgument);
                }
                root_path = Some(token.clone());
                i = i + 1;
            }
        }
        let ghost final_st = ScanState {
            root_path: root_path.deep_view(),
            workspace_path: workspace_path.deep_view(),
            git_url: git_url.deep_view(),
            git_branch: git_branch.deep_view(),
            use_wrapper: use_wrapper,
        };
        proof {
            assert(all.subrange(i as int, all.len() as int) =~= Seq::<Seq<char>>::empty());
            assert(spec_scan(spec_filtered_tokens(all), spec_initial_scan_state())
                == Ok::<ScanState, UsageError>(final_st));
        }

        let path = match root_path {
            Some(p) => p,
            None => {
                return Err(UsageError::MissingPath);
            },
        };
        if workspace_path.is_some() && (git_url.is_some() || git_branch.is_some()) {
            return Err(UsageError::ConflictingOverrides);
        }
        if git_url.is_some() && git_branch.is_none() {
            return Err(UsageError::GitUrlRequiresBranch);
        }
        if git_branch.is_some() && git_url.is_none() {
            return Err(UsageError::GitBranchRequiresUrl);
        }
        let casper_overrides = if let Some(p) = workspace_path {
            Some(CasperOverrides::WorkspacePath(p))
        } else if let Some(url) = git_url {
            let branch = git_branch.unwrap();
            Some(CasperOverrides::GitRepo { url, branch })
        } else {
            None
        };
        let args = Args { root_path: path, casper_overrides, use_wrapper };
        proof {
            assert(spec_resolve_args(all) == Ok::<ArgsView, UsageError>(args@));
        }
        Ok(args)
    }
}

/// An invalid or conflicting combination of command-line tokens.
#[derive(Clone, Copy, Debug, PartialEq, Eq, Structural)]
pub enum UsageError {
    /// No destination path was supplied.
    MissingPath,
    /// More than one destination path was supplied.
    UnexpectedArgument,
    /// An option that takes a value stood last, with no value after it.
    MissingOptionValue,
    /// An option that takes a value was supplied more than once.
    DuplicateOption,
    /// A git-url was supplied without a git-branch.
    GitUrlRequiresBranch,
    /// A git-branch was supplied without a git-url.
    GitBranchRequiresUrl,
    /// A workspace-path was supplied together with a remote-source option.
    ConflictingOverrides,
}

impl UsageError {
    /// A one-line description of the usage error, as printed after the error
    /// marker.
    pub fn message(&self) -> (r: &'static str)
        ensures
            r@ == match self {
                UsageError::MissingPath => ": missing required argument '<path>'"@,
                UsageError::UnexpectedArgument => ": unexpected extra argument"@,
                UsageError::MissingOptionValue => ": an option is missing its value"@,
                UsageError::DuplicateOption => ": an option was supplied more than once"@,
                UsageError::GitUrlRequiresBranch => ": --git-url requires --git-branch"@,
                UsageError::GitBranchRequiresUrl => ": --git-branch requires --git-url"@,
                UsageError::ConflictingOverrides => (
                    ": --workspace-path conflicts with --git-url and --git-branch"@
                ),
            },
    {
        match self {
            UsageError::MissingPath => ": missing required argument '<path>'",
            UsageError::UnexpectedArgument => ": unexpected extra argument",
            UsageError::MissingOptionValue => ": an option is missing its value",
            UsageError::DuplicateOption => ": an option was supplied more than once",
            UsageError::GitUrlRequiresBranch => ": --git-url requires --git-branch",
            UsageError::GitBranchRequiresUrl => ": --git-branch requires --git-url",
            UsageError::ConflictingOverrides => (
                ": --workspace-path conflicts with --git-url and --git-branch"
            ),
        }
    }
}

/// The options collected while scanning the command-line tokens from left to
/// right.
#[verifier::ext_equal]
pub ghost struct ScanState {
    pub root_path: Option<Seq<char>>,
    pub workspace_path: Option<Seq<char>>,
    pub git_url: Option<Seq<char>>,
    pub git_branch: Option<Seq<char>>,
    pub use_wrapper: bool,
}

/// The scan state before any token has been read.
pub open spec fn spec_initial_scan_state() -> ScanState {
    ScanState {
        root_path: None,
        workspace_path: None,
        git_url: None,
        git_branch: None,
        use_wrapper: false,
    }
}

/// One left-to-right scan over the tokens after the program name: flags set
/// their option, any other token is the destination path, and a second such
/// token is an error.
pub open spec fn spec_scan(tokens: Seq<Seq<char>>, st: ScanState) -> Result<
    ScanState,
    UsageError,
>
    decreases tokens.len(),
{
    if tokens.len() == 0 {
        Ok(st)
    } else {
        let t = tokens[0];
        if t == "--wrapper"@ || t == "-w"@ {
            spec_scan(
                tokens.drop_first(),
                ScanState {
                    root_path: st.root_path,
                    workspace_path: st.workspace_path,
                    git_url: st.git_url,
                    git_branch: st.git_branch,
                    use_wrapper: true,
                },
            )
        } else if t == "--workspace-path"@ {
            if tokens.len() == 1 {
                Err(UsageError::MissingOptionValue)
            } else if st.workspace_path is Some {
                Err(UsageError::DuplicateOption)
            } else {
                spec_scan(
                    tokens.subrange(2, tokens.len() as int),
                    ScanState {
                        root_path: st.root_path,
                        workspace_path: Some(tokens[1]),
                        git_url: st.git_url,
                        git_branch: st.git_branch,
                        use_wrapper: st.use_wrapper,
                    },
                )
            }
        } else if t == "--git-url"@ {
            if tokens.len() == 1 {
                Err(UsageError::MissingOptionValue)
            } else if st.git_url is Some {
                Err(UsageError::DuplicateOption)
            } else {
                spec_scan(
                    tokens.subrange(2, tokens.len() as int),
                    ScanState {
                        root_path: st.root_path,
                        workspace_path: st.workspace_path,
                        git_url: Some(tokens[1]),
                        git_branch: st.git_branch,
                        use_wrapper: st.use_wrapper,
                    },
                )
            }
        } else if t == "--git-branch"@ {
            if tokens.len() == 1 {
                Err(UsageError::MissingOptionValue)
            } else if st.git_branch is Some {
                Err(UsageError::DuplicateOption)
            } else {
                spec_scan(
                    tokens.subrange(2, tokens.len() as int),
                    ScanState {
                        root_path: st.root_path,
                        workspace_path: st.workspace_path,
                        git_url: st.git_url,
                        git_branch: Some(tokens[1]),
                        use_wrapper: st.use_wrapper,
                    },
                )
            }
        } else {
            if st.root_path is Some {
                Err(UsageError::UnexpectedArgument)
            } else {
                spec_scan(
                    tokens.drop_first(),
                    ScanState {
                        root_path: Some(t),
                        workspace_path: st.workspace_path,
                        git_url: st.git_url,
                        git_branch: st.git_branch,
                        use_wrapper: st.use_wrapper,
                    },
                )
            }
        }
    }
}

/// Resolution of a finished scan: a destination path is required, the two
/// override mechanisms exclude each other, and the remote-source options come
/// only as a pair.
pub open spec fn spec_resolve(st: ScanState) -> Result<ArgsView, UsageError> {
    if st.root_path is None {
        Err(UsageError::MissingPath)
    } else if st.workspace_path is Some && (st.git_url is Some || st.git_branch is Some) {
        Err(UsageError::ConflictingOverrides)
    } else if st.git_url is Some && st.git_branch is None {
        Err(UsageError::GitUrlRequiresBranch)
    } else if st.git_branch is Some && st.git_url is None {
        Err(UsageError::GitBranchRequiresUrl)
    } else {
        Ok(
            ArgsView {
                root_path: st.root_path->0,
                casper_overrides: if st.workspace_path is Some {
                    Some(OverridesView::WorkspacePath(st.workspace_path->0))
                } else if st.git_url is Some {
                    Some(OverridesView::GitRepo { url: st.git_url->0, branch: st.git_branch->0 })
                } else {
                    None
                },
                use_wrapper: st.use_wrapper,
            },
        )
    }
}

/// The tokens handed to positional parsing: the program name is dropped, and
/// so is an argument equal to the subcommand's own name standing immediately
/// after the program name, which the build tool injects when the tool runs as
/// a subcommand.
pub open spec fn spec_filtered_tokens(args: Seq<Seq<char>>) -> Seq<Seq<char>> {
    if args.len() >= 2 && args[1] == "casper"@ {
        args.subrange(2, args.len() as int)
    } else if args.len() >= 1 {
        args.subrange(1, args.len() as int)
    } else {
        Seq::empty()
    }
}

/// The full resolution of a raw argument vector into a configuration or a
/// usage error.
pub open spec fn spec_resolve_args(args: Seq<Seq<char>>) -> Result<ArgsView, UsageError> {
    match spec_scan(spec_filtered_tokens(args), spec_initial_scan_state()) {
        Ok(st) => spec_resolve(st),
        Err(e) => Err(e),
    }
}

/// Law: an argument standing immediately after the program name and equal to
/// the subcommand's own name is dropped before positional parsing; any other
/// value in that position is parsed as an ordinary token.
pub proof fn lemma_subcommand_filtering(args: Seq<Seq<char>>)
    requires
        args.len() >= 2,
    ensures
        args[1] == "casper"@ ==> spec_filtered_tokens(args) == args.subrange(
            2,
            args.len() as int,
        ),
        args[1] != "casper"@ ==> spec_filtered_tokens(args) == args.subrange(
            1,
            args.len() as int,
        ),
{
}

/// Law: a scan that saw only a git-url or only a git-branch resolves to a
/// usage error; when a destination path and no workspace-path were supplied,
/// the error names the missing half of the pair.
pub proof fn lemma_incomplete_git_override_rejected(st: ScanState)
    requires
        (st.git_url is Some) != (st.git_branch is Some),
    ensures
        spec_resolve(st) is Err,
        st.root_path is Some && st.workspace_path is None && st.git_url is Some ==> spec_resolve(
            st,
        ) == Err::<ArgsView, UsageError>(UsageError::GitUrlRequiresBranch),
        st.root_path is Some && st.workspace_path is None && st.git_branch is Some
            ==> spec_resolve(st) == Err::<ArgsView, UsageError>(UsageError::GitBranchRequiresUrl),
{
}

/// Law: a scan that saw both a workspace-path and either remote-source option
/// resolves to a usage error; when a destination path was supplied, the error
/// names the conflict.
pub proof fn lemma_conflicting_overrides_rejected(st: ScanState)
    requires
        st.workspace_path is Some,
        st.git_url is Some || st.git_branch is Some,
    ensures
        spec_resolve(st) is Err,
        st.root_path is Some ==> spec_resolve(st) == Err::<ArgsView, UsageError>(
            UsageError::ConflictingOverrides,
        ),
{
}

} // verus!
