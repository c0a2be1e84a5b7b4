//! The error types that the adapter surfaces to its callers.

use vstd::prelude::*;

verus! {

/// Relies on `std::io::Error` from the standard library. The adapter never
/// looks inside an I/O error: it only carries the value through to the
/// caller unchanged, so the type is declared opaque.
#[verifier::external_type_specification]
#[verifier::external_body]
pub struct ExIoError(std::io::Error);

/// The error produced for one element of the parsed sequence.
///
/// Exactly two kinds of failure exist and they are never merged: reading a
/// line can fail (`Io`, carrying the underlying I/O error unchanged) or the
/// text of a line can be invalid for the target type (`Parse`, carrying the
/// target type's own error value unchanged).
#[derive(Debug)]
pub enum ParseListError<TE> {
    Io(std::io::Error),
    Parse(TE),
}

/// The error of the built-in decimal parser for `u32`: the text was not a
/// decimal number in range, so no further detail is carried.
#[derive(Debug, Clone, Copy, PartialEq, Eq, Structural)]
pub struct ParseUintError;

} // verus!
