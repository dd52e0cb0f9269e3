//! Errors that the library reports.

use vstd::prelude::*;

verus! {

/// Why account data could not be decoded.
#[derive(Clone, Copy, Debug, PartialEq, Eq)]
pub enum DecodeError {
    /// The data ends before the record does.
    TooShort,
    /// The data goes on after the record has ended.
    TrailingBytes,
    /// A boolean is stored as a byte other than 0 and 1.
    InvalidBool,
}

/// Why no address could be derived.
#[derive(Clone, Copy, Debug, PartialEq, Eq)]
pub enum DerivationError {
    /// No bump seed gave an address off the curve.
    ExhaustedSeeds,
}

/// Why the tick arrays of a swap could not be fetched.
#[derive(Debug, PartialEq, Eq)]
pub enum FetchError<E> {
    /// The address of a tick array could not be derived.
    Derivation(DerivationError),
    /// The account fetch failed; the error is handed on as it came.
    Transport(E),
}

} // verus!
