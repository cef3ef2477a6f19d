//! Filesystem paths, held as text, and the operations the browser needs on them.
//!
//! The path syntax is that of the platform the crate is built for, as
//! `std::path` reads it.

use vstd::prelude::*;

use crate::entries::path_hash;
use crate::strings::{chars_of, push_chars, string_from_chars};

verus! {

/// What `Path::parent` gives for a path: the path without its final
/// component, if it has one.
pub uninterp spec fn path_parent(p: Seq<char>) -> Option<Seq<char>>;

/// What `Path::starts_with` gives: whether the whole components of `base`
/// begin the path `p`.
pub uninterp spec fn path_starts_with(p: Seq<char>, base: Seq<char>) -> bool;

/// What `Path::components` gives for a path: the text of each component, in order.
pub uninterp spec fn path_components(p: Seq<char>) -> Seq<Seq<char>>;

/// What `Path == Path` gives: whether two paths have the same components.
pub uninterp spec fn path_eq(a: Seq<char>, b: Seq<char>) -> bool;

/// What `Path::join` gives: `part` appended to `base` with a separator
/// (or `part` alone when it is absolute).
pub uninterp spec fn path_join(base: Seq<char>, part: Seq<char>) -> Seq<char>;

/// What `Path::extension` gives: the text after the final dot of the file
/// name, if there is one.
pub uninterp spec fn path_extension(p: Seq<char>) -> Option<Seq<char>>;

/// Wraps `Path::parent`. Its documentation says it drops the final
/// component and gives nothing for the empty path; the parent is then the
/// start of the path's text, shorter than it. Which paths have no parent
/// beyond the empty one (roots and prefixes) is left unsaid.
#[verifier::external_body]
pub(crate) fn parent_of(p: &str) -> (r: Option<String>)
    ensures
        r.deep_view() == path_parent(p@),
        p@.len() == 0 ==> r is None,
        r matches Some(q) ==> q@.len() < p@.len() && q@ == p@.take(q@.len() as int),
{
    match std::path::Path::new(p).parent() {
        Some(q) => Some(q.to_string_lossy().into_owned()),
        None => None,
    }
}

/// Wraps `Path::starts_with`, which compares whole components.
#[verifier::external_body]
fn starts_with_path(p: &str, base: &str) -> (r: bool)
    ensures
        r == path_starts_with(p@, base@),
{
    std::path::Path::new(p).starts_with(base)
}

/// Wraps `Path::components`, giving each component as text.
#[verifier::external_body]
fn components_of(p: &str) -> (r: Vec<String>)
    ensures
        r.deep_view() == path_components(p@),
{
    let mut out = Vec::new();
    for c in std::path::Path::new(p).components() {
        out.push(c.as_os_str().to_string_lossy().into_owned());
    }
    out
}

/// Wraps `<Path as PartialEq>::eq`, which compares paths component by
/// component. It is reflexive, as `Eq` requires, and equal paths hash alike,
/// as `Hash` requires of a type that is also `Eq`.
#[verifier::external_body]
pub(crate) fn paths_equal(a: &str, b: &str) -> (r: bool)
    ensures
        r == path_eq(a@, b@),
        a@ == b@ ==> r,
        r ==> path_hash(a@) == path_hash(b@),
{
    std::path::Path::new(a) == std::path::Path::new(b)
}

/// Wraps `Path::join`.
#[verifier::external_body]
pub(crate) fn join_path(base: &str, part: &str) -> (r: String)
    ensures
        r@ == path_join(base@, part@),
{
    std::path::Path::new(base).join(part).to_string_lossy().into_owned()
}

/// Wraps `Path::extension`.
#[verifier::external_body]
pub(crate) fn extension_of(p: &str) -> (r: Option<String>)
    ensures
        r.deep_view() == path_extension(p@),
{
    match std::path::Path::new(p).extension() {
        Some(e) => Some(e.to_string_lossy().into_owned()),
        None => None,
    }
}

/// The directory above `path`, if there is one.
pub fn go_up_path(path: &str) -> (r: Option<String>)
    ensures
        r.deep_view() == path_parent(path@),
        r matches Some(q) ==> q@.len() < path@.len(),
{
    parent_of(path)
}

/// `child` when it lies inside `parent` (both already normalized), else nothing.
pub fn safe_child(parent: &str, child: &str) -> (r: Option<String>)
    ensures
        r.deep_view() == (if path_starts_with(child@, parent@) {
            Some(child@)
        } else {
            None
        }),
{
    if starts_with_path(child, parent) {
        Some(child.to_string())
    } else {
        None
    }
}

/// The breadcrumb text of one path component.
pub open spec fn crumb(part: Seq<char>) -> Seq<char> {
    "> "@ + part
}

/// One breadcrumb per component of `path`, each `"> "` followed by the component.
pub fn path_to_breadcrumbs(path: &str) -> (r: Vec<String>)
    ensures
        r.deep_view() == path_components(path@).map_values(|c: Seq<char>| crumb(c)),
{
    let parts = components_of(path);
    let ghost comps = path_components(path@);
    let mut out: Vec<String> = Vec::new();
    let mut i: usize = 0;
    while i < parts.len()
        invariant
            i <= parts.len(),
            parts.deep_view() == comps,
            out.len() == i,
            forall|k: int| 0 <= k < i ==> #[trigger] out@[k]@ == crumb(comps[k]),
        decreases parts.len() - i,
    {
        let mut text = chars_of("> ");
        let part = chars_of(parts[i].as_str());
        push_chars(&mut text, &part);
        assert(parts.deep_view()[i as int] == parts@[i as int]@);
        out.push(string_from_chars(&text));
        i = i + 1;
    }
    assert(out.deep_view() =~= comps.map_values(|c: Seq<char>| crumb(c)));
    out
}

/// Hook for live watching of a directory; nothing is watched yet.
pub fn watch_path(_path: &str) {
}

} // verus!
