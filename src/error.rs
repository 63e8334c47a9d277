//! Failures reported by the library's operations.
use vstd::prelude::*;

verus! {

/// Why an operation failed.
#[derive(Debug, Clone, Copy, PartialEq, Eq, Structural)]
pub enum CoreError {
    /// A request or record carried a value outside what the library accepts.
    RequestMalformed,
    /// No coordinate record exists for the requested bit.
    BitNotFound,
    /// The backing store could not be opened, read or written.
    StoreUnavailable,
    /// An output program could not be written to its destination.
    WriteFailed,
}

} // verus!
