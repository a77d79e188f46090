//! File paths, as the platform's path type reads them.
//!
//! The two operations the mapping needs are the platform's own: the parent
//! of a path, and a path joined to a directory. Each gets a name, so that
//! contracts can say which path was asked for without saying how the
//! platform spells it.

use vstd::prelude::*;

verus! {

/// The parent of a path as `std::path::Path::parent` gives it, on the
/// platform the crate is built for: `None` where the path ends in a root or
/// is empty.
pub uninterp spec fn path_parent(path: Seq<char>) -> Option<Seq<char>>;

/// A path joined to a directory as `std::path::Path::join` gives it, on the
/// platform the crate is built for.
pub uninterp spec fn path_join(directory: Seq<char>, file: Seq<char>) -> Seq<char>;

/// The characters of an optional string.
pub open spec fn text_of(s: Option<String>) -> Option<Seq<char>> {
    match s {
        Some(t) => Some(t@),
        None => None,
    }
}

/// `std::path::Path::parent` on a path given as text. Claimed: the result
/// depends on the text alone.
#[verifier::external_body]
pub(crate) fn parent(path: &str) -> (r: Option<String>)
    ensures
        text_of(r) == path_parent(path@),
{
    std::path::Path::new(path).parent().map(|p| p.to_string_lossy().into_owned())
}

/// `std::path::Path::join` on a directory and a file given as text. Claimed:
/// the result depends on the two texts alone.
#[verifier::external_body]
pub(crate) fn join(directory: &str, file: &str) -> (r: String)
    ensures
        r@ == path_join(directory@, file@),
{
    std::path::Path::new(directory).join(file).to_string_lossy().into_owned()
}

/// The directory that holds a file: the parent of its path, or the empty
/// path where it has none.
pub open spec fn directory_of(path: Seq<char>) -> Seq<char> {
    match path_parent(path) {
        Some(d) => d,
        None => Seq::empty(),
    }
}

/// The directory that holds the file at `path`.
pub fn directory(path: &str) -> (r: String)
    ensures
        r@ == directory_of(path@),
{
    match parent(path) {
        Some(d) => d,
        None => String::new(),
    }
}

} // verus!
