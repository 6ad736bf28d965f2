//! Filesystem paths as the standard library splits and joins them.

use vstd::prelude::*;

verus! {

/// One component of a path, as `std::path::Component`.
#[derive(Debug, PartialEq, Eq)]
pub enum PathComponent {
    Prefix(String),
    RootDir,
    CurDir,
    ParentDir,
    Normal(String),
}

/// The model of a path component.
pub ghost enum PathComponentView {
    Prefix(Seq<char>),
    RootDir,
    CurDir,
    ParentDir,
    Normal(Seq<char>),
}

impl View for PathComponent {
    type V = PathComponentView;

    open spec fn view(&self) -> PathComponentView {
        match self {
            PathComponent::Prefix(s) => PathComponentView::Prefix(s@),
            PathComponent::RootDir => PathComponentView::RootDir,
            PathComponent::CurDir => PathComponentView::CurDir,
            PathComponent::ParentDir => PathComponentView::ParentDir,
            PathComponent::Normal(s) => PathComponentView::Normal(s@),
        }
    }
}

/// The components `std::path::Path::components` yields for `path` on the
/// target the crate is built for.
pub uninterp spec fn spec_path_components(path: Seq<char>) -> Seq<PathComponentView>;

/// What `std::path::Path::strip_prefix` leaves of `path` after `base`, as a
/// string; `None` when `base` is not a prefix of `path`.
pub uninterp spec fn spec_path_strip_prefix(path: Seq<char>, base: Seq<char>) -> Option<Seq<char>>;

/// The display string of `std::path::Path::join(base, rel)`.
pub uninterp spec fn spec_path_join(base: Seq<char>, rel: Seq<char>) -> Seq<char>;

/// Calls `std::path::Path::components` and converts each component one for
/// one (names lossily to strings). Claims only that the result is the named
/// component list of `path`.
#[verifier::external_body]
fn components_with_std(path: &str) -> (r: Vec<PathComponent>)
    ensures
        r@.map_values(|c: PathComponent| c@) == spec_path_components(path@),
{
    let mut out = Vec::new();
    for c in std::path::Path::new(path).components() {
        out.push(match c {
            std::path::Component::Prefix(p) => PathComponent::Prefix(p.as_os_str().to_string_lossy().into_owned()),
            std::path::Component::RootDir => PathComponent::RootDir,
            std::path::Component::CurDir => PathComponent::CurDir,
            std::path::Component::ParentDir => PathComponent::ParentDir,
            std::path::Component::Normal(n) => PathComponent::Normal(n.to_string_lossy().into_owned()),
        });
    }
    out
}

/// The components of `path`.
pub fn path_components(path: &str) -> (r: Vec<PathComponent>)
    ensures
        r@.map_values(|c: PathComponent| c@) == spec_path_components(path@),
{
    components_with_std(path)
}

/// Calls `std::path::Path::strip_prefix(path, base)` and turns the rest into
/// a string. Claims only that the outcome is the named one.
#[verifier::external_body]
fn strip_prefix_with_std(path: &str, base: &str) -> (r: Option<String>)
    ensures
        match r {
            Some(s) => spec_path_strip_prefix(path@, base@) == Some(s@),
            None => spec_path_strip_prefix(path@, base@) is None,
        },
{
    std::path::Path::new(path).strip_prefix(base).ok().map(|rest| rest.to_string_lossy().into_owned())
}

/// Calls `std::path::Path::join(base, rel)` and displays the result as a
/// string. Claims only that the result is the named join.
#[verifier::external_body]
fn join_with_std(base: &str, rel: &str) -> (r: String)
    ensures
        r@ == spec_path_join(base@, rel@),
{
    std::path::Path::new(base).join(rel).display().to_string()
}

/// The rest of `path` after the whole components of `base`, if `base`
/// begins it.
pub fn path_strip_prefix(path: &str, base: &str) -> (r: Option<String>)
    ensures
        match r {
            Some(s) => spec_path_strip_prefix(path@, base@) == Some(s@),
            None => spec_path_strip_prefix(path@, base@) is None,
        },
{
    strip_prefix_with_std(path, base)
}

/// `rel` joined onto `base`.
pub fn path_join(base: &str, rel: &str) -> (r: String)
    ensures
        r@ == spec_path_join(base@, rel@),
{
    join_with_std(base, rel)
}

} // verus!
