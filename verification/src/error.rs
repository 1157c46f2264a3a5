//! The two kinds of failure: malformed data and a failing byte source.

use vstd::prelude::*;

verus! {

/// A value or a byte does not form a well-shaped title or number.
#[derive(Copy, Clone, Debug, PartialEq, Eq, Structural)]
pub struct InvalidError;

/// Why decoding a title failed.
#[derive(Debug)]
pub enum DecodeError<E> {
    /// The prefix byte carries a reserved minor header code.
    Invalid,
    /// The byte source itself failed; its error is handed on untouched.
    Source(E),
}

} // verus!
