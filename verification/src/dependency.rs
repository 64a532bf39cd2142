//! The `Dependency` type and the rendering of manifest dependency lines.

use vstd::prelude::*;
use vstd::string::StringExecFns;

use crate::args::CasperOverrides;

verus! {

/// Mathematical view of a `Dependency`: its name and its pinned version.
pub ghost struct DependencyView {
    pub name: Seq<char>,
    pub version: Seq<char>,
}

/// A named external library with a pinned version, referenced by the
/// generated manifests.
pub struct Dependency {
    name: String,
    version: String,
}

impl View for Dependency {
    type V = DependencyView;

    closed spec fn view(&self) -> DependencyView {
        DependencyView { name: self.name@, version: self.version@ }
    }
}

/// The version that a rendered line carries: the wildcard marker when an
/// override is active, the pinned version otherwise.
pub open spec fn spec_effective_version(overridden: bool, version: Seq<char>) -> Seq<char> {
    if overridden {
        "*"@
    } else {
        version
    }
}

/// `s` wrapped in double quotes.
pub open spec fn spec_quote(s: Seq<char>) -> Seq<char> {
    "\""@ + s + "\""@
}

/// The comma-separated, individually quoted feature names: `"a", "b"`.
pub open spec fn spec_quoted_join(fs: Seq<Seq<char>>) -> Seq<char>
    decreases fs.len(),
{
    if fs.len() == 0 {
        Seq::empty()
    } else if fs.len() == 1 {
        spec_quote(fs[0])
    } else {
        spec_quoted_join(fs.drop_last()) + ", "@ + spec_quote(fs.last())
    }
}

/// The clause disabling default features, present exactly when
/// `default_features` is false.
pub open spec fn spec_default_features_clause(default_features: bool) -> Seq<char> {
    if default_features {
        Seq::empty()
    } else {
        ", default-features = false"@
    }
}

/// The feature-list clause, present exactly when `fs` is non-empty.
pub open spec fn spec_features_clause(fs: Seq<Seq<char>>) -> Seq<char> {
    if fs.len() == 0 {
        Seq::<char>::empty()
    } else {
        ", features = ["@ + spec_quoted_join(fs) + "]"@
    }
}

/// The rendered manifest line for a dependency `name` at `version`: the bare
/// string form when default features are kept and no features are requested,
/// the inline-table form otherwise.
pub open spec fn spec_render(
    name: Seq<char>,
    version: Seq<char>,
    default_features: bool,
    fs: Seq<Seq<char>>,
) -> Seq<char> {
    if default_features && fs.len() == 0 {
        name + " = \""@ + version + "\"\n"@
    } else {
        name + " = { version = \""@ + version + "\""@ + spec_default_features_clause(
            default_features,
        ) + spec_features_clause(fs) + " }\n"@
    }
}

/// Law: with no override active, default features kept and no features
/// requested, a dependency renders as exactly its name, then ` = `, then its
/// pinned version in double quotes, then a line break.
pub proof fn lemma_render_plain(name: Seq<char>, version: Seq<char>)
    ensures
        spec_render(name, spec_effective_version(false, version), true, Seq::empty()) == name
            + " = \""@ + version + "\"\n"@,
{
}

/// Law: with any override active the rendered version field is the wildcard
/// marker, never the pinned version itself unless that version is already the
/// marker.
pub proof fn lemma_override_version_is_wildcard(version: Seq<char>)
    ensures
        spec_effective_version(true, version) == "*"@,
        version != "*"@ ==> spec_effective_version(true, version) != version,
{
}

/// Law: with default features disabled the rendered line always takes the
/// inline-table form and carries the `default-features = false` clause,
/// whatever the version and the requested features.
pub proof fn lemma_render_no_default_features(
    name: Seq<char>,
    version: Seq<char>,
    fs: Seq<Seq<char>>,
)
    ensures
        spec_render(name, version, false, fs) == name + " = { version = \""@ + version + "\""@
            + ", default-features = false"@ + spec_features_clause(fs) + " }\n"@,
{
}

/// Law: with features requested the rendered line always takes the
/// inline-table form and carries the quoted feature list, in order, whatever
/// the version and the default-features choice.
pub proof fn lemma_render_features(
    name: Seq<char>,
    version: Seq<char>,
    default_features: bool,
    fs: Seq<Seq<char>>,
)
    requires
        fs.len() > 0,
    ensures
        spec_render(name, version, default_features, fs) == name + " = { version = \""@ + version
            + "\""@ + spec_default_features_clause(default_features) + ", features = ["@
            + spec_quoted_join(fs) + "]"@ + " }\n"@,
{
    assert(spec_render(name, version, default_features, fs) =~= name + " = { version = \""@
        + version + "\""@ + spec_default_features_clause(default_features) + ", features = ["@
        + spec_quoted_join(fs) + "]"@ + " }\n"@);
}

impl Dependency {
    /// A dependency on `name`, pinned at `version`.
    pub fn new(name: &str, version: &str) -> (d: Dependency)
        ensures
            d@.name == name@,
            d@.version == version@,
    {
        Dependency { name: name.to_owned(), version: version.to_owned() }
    }

    /// The dependency's name.
    pub fn name(&self) -> (r: &str)
        ensures
            r@ == self@.name,
    {
        self.name.as_str()
    }

    /// The dependency's pinned version.
    pub fn version(&self) -> (r: &str)
        ensures
            r@ == self@.version,
    {
        self.version.as_str()
    }

    /// Renders the manifest line for this dependency.  When an override is
    /// active the pinned version is replaced by the wildcard marker; the line
    /// takes the bare string form exactly when default features are kept and
    /// no features are requested.
    pub fn display_with_features(
        &self,
        overrides: Option<&CasperOverrides>,
        default_features: bool,
        features: &[&str],
    ) -> (r: String)
        ensures
            r@ == spec_render(
                self@.name,
                spec_effective_version(overrides is Some, self@.version),
                default_features,
                features.deep_view(),
            ),
    {
        let version: &str = if overrides.is_some() {
            "*"
        } else {
            self.version.as_str()
        };
        assert(version@ == spec_effective_version(overrides is Some, self@.version));

        let mut out = self.name.clone();

        if default_features && features.len() == 0 {
            out.append(" = \"");
            out.append(version);
            out.append("\"\n");
            proof {
                assert(features.deep_view() =~= Seq::<Seq<char>>::empty());
                assert(out@ =~= spec_render(
                    self@.name,
                    version@,
                    default_features,
                    features.deep_view(),
                ));
            }
            return out;
        }

        out.append(" = { version = \"");
        out.append(version);
        out.append("\"");

        if !default_features {
            out.append(", default-features = false");
        }
        assert(out@ =~= self@.name + " = { version = \""@ + version@ + "\""@
            + spec_default_features_clause(default_features));

        let ghost base: Seq<char> = out@;
        let ghost fs: Seq<Seq<char>> = features.deep_view();

        if features.len() > 0 {
            out.append(", features = [");
            let mut i: usize = 0;
            while i < features.len()
                invariant
                    0 < features.len(),
                    i <= features.len(),
                    fs == features.deep_view(),
                    fs.len() == features@.len(),
                    forall|j: int| 0 <= j < fs.len() ==> fs[j] == features@[j]@,
                    i == 0 ==> out@ == base + ", features = ["@,
                    i > 0 ==> out@ == base + ", features = ["@ + spec_quoted_join(fs.take(i as int)),
                decreases features.len() - i,
            {
                if i > 0 {
                    out.append(", ");
                }
                out.append("\"");
                out.append(features[i]);
                out.append("\"");
                proof {
                    if i == 0 {
                        assert(fs.take(1).len() == 1);
                        assert(fs.take(1)[0] == fs[0]);
                        assert(spec_quoted_join(fs.take(1)) == spec_quote(fs[0]));
                        assert(out@ =~= base + ", features = ["@ + spec_quoted_join(fs.take(1)));
                    } else {
                        let taken = fs.take(i as int + 1);
                        assert(taken.drop_last() =~= fs.take(i as int));
                        assert(taken.last() == fs[i as int]);
                        assert(spec_quoted_join(taken) == spec_quoted_join(fs.take(i as int))
                            + ", "@ + spec_quote(fs[i as int]));
                        assert(out@ =~= base + ", features = ["@ + spec_quoted_join(taken));
                    }
                }
                i = i + 1;
            }
            out.append("]");
            proof {
                assert(fs.take(fs.len() as int) =~= fs);
                assert(out@ =~= base + spec_features_clause(fs));
            }
        }

        out.append(" }\n");
        proof {
            assert(out@ =~= spec_render(
                self@.name,
                version@,
                default_features,
                features.deep_view(),
            ));
        }
        out
    }
}

} // verus!

