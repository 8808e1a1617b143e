//! The failures that the library reports.
use vstd::prelude::*;

verus! {

/// std's category of an I/O failure, carried through unchanged.
#[verifier::external_type_specification]
#[verifier::external_body]
pub struct ExErrorKind(std::io::ErrorKind);

/// Relies on `ErrorKind` being a plain `Copy` enum: a clone is the same
/// category.
pub assume_specification[ <std::io::ErrorKind as Clone>::clone ](k: &std::io::ErrorKind) -> (r:
    std::io::ErrorKind)
    ensures
        r == *k,
;

/// A failure: of an I/O step, with its category; of reading or writing a
/// JSON document, with a message; or of a path that has no parent directory.
#[derive(Debug, Clone, PartialEq)]
pub enum Errors {
    Io(std::io::ErrorKind),
    Json(String),
    NoParent,
}

/// The model of [`Errors`].
pub enum ErrorsV {
    Io(std::io::ErrorKind),
    Json(Seq<char>),
    NoParent,
}

impl View for Errors {
    type V = ErrorsV;

    open spec fn view(&self) -> ErrorsV {
        match self {
            Errors::Io(k) => ErrorsV::Io(*k),
            Errors::Json(m) => ErrorsV::Json(m@),
            Errors::NoParent => ErrorsV::NoParent,
        }
    }
}

} // verus!
