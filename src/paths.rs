//! Paths as text, with the few operations of std's `Path` that the library
//! relies on. What these operations give is fixed by the platform that the
//! library is built for (its separators and prefixes), and by their
//! arguments alone.
use vstd::prelude::*;

verus! {

/// What std's `Path::join` gives for a base and a part.
pub uninterp spec fn joined(base: Seq<char>, part: Seq<char>) -> Seq<char>;

/// What std's `Path::parent` gives for a path: none for a root or an empty
/// path.
pub uninterp spec fn parent_of(path: Seq<char>) -> Option<Seq<char>>;

/// What std's `Path::extension` gives for a path: the text after the last
/// dot of its file name, if it has one.
pub uninterp spec fn extension_of(path: Seq<char>) -> Option<Seq<char>>;

/// Relies on `std::path::Path::join`: `part` appended to `base` with the
/// platform's separator (or `part` alone where it is absolute).
#[verifier::external_body]
pub(crate) fn join_path(base: &str, part: &str) -> (r: String)
    ensures
        r@ == joined(base@, part@),
{
    std::path::Path::new(base).join(part).to_string_lossy().into_owned()
}

/// Relies on `std::path::Path::parent`: the path without its last
/// component.
#[verifier::external_body]
pub(crate) fn parent_dir(path: &str) -> (r: Option<String>)
    ensures
        match r {
            Some(p) => parent_of(path@) == Some(p@),
            None => parent_of(path@) is None,
        },
{
    std::path::Path::new(path).parent().map(|p| p.to_string_lossy().into_owned())
}

/// Relies on `std::path::Path::extension`: the extension of the path's file
/// name.
#[verifier::external_body]
pub(crate) fn path_extension(path: &str) -> (r: Option<String>)
    ensures
        match r {
            Some(e) => extension_of(path@) == Some(e@),
            None => extension_of(path@) is None,
        },
{
    std::path::Path::new(path).extension().map(|e| e.to_string_lossy().into_owned())
}

} // verus!
