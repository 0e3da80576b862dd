//! The flat error taxonomy of the wrapper.
//!
//! Every failure a capability operation can report is one of these kinds;
//! engine failure signals (null pointers, boolean status flags, unknown
//! enumeration codes) are classified into them by the marshaling layer.

use vstd::prelude::*;

verus! {

/// A failure of one capability operation.
///
/// The taxonomy is flat: no kind wraps another, and none is retried. Each
/// kind says on which side of the boundary the failure arose and why.
#[derive(Clone, Copy, Debug, PartialEq, Eq, Structural)]
pub enum Error {
    /// A capability call was attempted without a successful prior acquisition.
    NoHandle,
    /// The engine returned a null pointer where a valid one was expected.
    NullPointer,
    /// Outbound text cannot be represented as a nul-terminated byte sequence
    /// because it contains an embedded nul byte.
    StringEncode,
    /// Inbound bytes were not valid UTF-8.
    StringDecode,
    /// A numeric value crossing the boundary does not fit the required width
    /// without loss.
    NumericRange,
    /// An enumeration code returned by the engine has no known mapping.
    UnexpectedValue,
    /// The operation is intentionally not exposed because its foreign
    /// signature cannot be safely represented.
    Unbindable,
}

impl Error {
    /// A short description of the error kind, for embedders that log or
    /// display failures.
    pub fn message(&self) -> (r: &'static str)
        ensures
            r@ == match self {
                Error::NoHandle => "no engine handle is held"@,
                Error::NullPointer => "engine returned an unexpected null pointer"@,
                Error::StringEncode => "text contains an embedded nul byte"@,
                Error::StringDecode => "engine bytes are not valid UTF-8"@,
                Error::NumericRange => "numeric value does not fit the required width"@,
                Error::UnexpectedValue => "engine returned an unknown enumeration code"@,
                Error::Unbindable => "operation is not bindable to a safe signature"@,
            },
    {
        match self {
            Error::NoHandle => "no engine handle is held",
            Error::NullPointer => "engine returned an unexpected null pointer",
            Error::StringEncode => "text contains an embedded nul byte",
            Error::StringDecode => "engine bytes are not valid UTF-8",
            Error::NumericRange => "numeric value does not fit the required width",
            Error::UnexpectedValue => "engine returned an unknown enumeration code",
            Error::Unbindable => "operation is not bindable to a safe signature",
        }
    }
}

} // verus!
