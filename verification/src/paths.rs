//! Paths, held as text and combined by `camino`.

use vstd::prelude::*;

verus! {

/// The path that `camino` gives when `path` is adjoined to `base`.
pub uninterp spec fn joined_path(base: Seq<char>, path: Seq<char>) -> Seq<char>;

/// The parent that `camino` finds for `path`, if it has one.
pub uninterp spec fn parent_of_path(path: Seq<char>) -> Option<Seq<char>>;

/// Calls `camino::Utf8Path::join` on `base` with `path`.
///
/// Trusted: the result is the text of the adjoined path, and the same two texts
/// always give the same result.
#[verifier::external_body]
pub(crate) fn join_path(base: &str, path: &str) -> (r: String)
    ensures
        r@ == joined_path(base@, path@),
{
    camino::Utf8Path::new(base).join(path).into_string()
}

/// Calls `camino::Utf8Path::parent` on `path`.
///
/// Trusted: the result is the text of the path without its final component, or
/// nothing where the path ends in a root or is empty, and the same text always gives
/// the same result.
#[verifier::external_body]
pub(crate) fn parent_path(path: &str) -> (r: Option<String>)
    ensures
        match r {
            Some(parent) => parent_of_path(path@) == Some(parent@),
            None => parent_of_path(path@) is None,
        },
{
    camino::Utf8Path::new(path).parent().map(|parent| parent.as_str().to_owned())
}

} // verus!
