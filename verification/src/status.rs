//! The status-code protocol of the call boundary.
//!
//! Every exported operation returns one of these codes; `EQS_SUCCESS` is the
//! zero value and every failure code is non-zero. An explicit failure raised
//! by an operation's own logic is an [`Error`], which carries the code to
//! return and the human-readable diagnostic to store.

use vstd::prelude::*;

verus! {

/// The operation completed and its documented postconditions hold.
pub const EQS_SUCCESS: i32 = 0;

/// The caller passed a malformed or out-of-range argument.
pub const EQS_INVALID_PARAMETER_ERROR: i32 = 1;

/// A caller-provided output buffer was too small.
pub const EQS_BUFFER_SIZE_ERROR: i32 = 254;

/// An unexpected internal fault was intercepted at the boundary.
pub const EQS_INTERNAL_ERROR: i32 = 255;

/// An explicit failure detected by an operation's own logic, before it is
/// translated into a status code at the boundary.
pub enum Error {
    /// A malformed or out-of-range argument.
    InvalidParameter(String),
    /// A caller-provided output buffer too small for the requested data.
    BufferSize(String),
    /// An invariant breach the library detected itself.
    Internal(String),
    /// A domain-specific failure with its own non-zero status code.
    Domain(i32, String),
}

impl Error {
    /// A well-formed error carries a non-empty diagnostic message, and a
    /// domain-specific code lies outside the reserved code space.
    pub open spec fn wf(&self) -> bool {
        self.spec_message().len() > 0 && match self {
            Error::Domain(code, _) => *code != EQS_SUCCESS
                && *code != EQS_INVALID_PARAMETER_ERROR
                && *code != EQS_BUFFER_SIZE_ERROR
                && *code != EQS_INTERNAL_ERROR,
            _ => true,
        }
    }

    /// The status code this error is reported as.
    pub open spec fn spec_code(&self) -> i32 {
        match self {
            Error::InvalidParameter(_) => EQS_INVALID_PARAMETER_ERROR,
            Error::BufferSize(_) => EQS_BUFFER_SIZE_ERROR,
            Error::Internal(_) => EQS_INTERNAL_ERROR,
            Error::Domain(code, _) => *code,
        }
    }

    /// The diagnostic message this error carries.
    pub open spec fn spec_message(&self) -> Seq<char> {
        match self {
            Error::InvalidParameter(m) => m@,
            Error::BufferSize(m) => m@,
            Error::Internal(m) => m@,
            Error::Domain(_, m) => m@,
        }
    }

    /// The status code of this error; never `EQS_SUCCESS` for a well-formed
    /// error.
    pub fn code(&self) -> (code: i32)
        ensures
            code == self.spec_code(),
            self.wf() ==> code != EQS_SUCCESS,
    {
        match self {
            Error::InvalidParameter(_) => EQS_INVALID_PARAMETER_ERROR,
            Error::BufferSize(_) => EQS_BUFFER_SIZE_ERROR,
            Error::Internal(_) => EQS_INTERNAL_ERROR,
            Error::Domain(code, _) => *code,
        }
    }

    /// Takes the diagnostic message out of the error.
    pub fn into_message(self) -> (message: String)
        ensures
            message@ == self.spec_message(),
    {
        match self {
            Error::InvalidParameter(m) => m,
            Error::BufferSize(m) => m,
            Error::Internal(m) => m,
            Error::Domain(_, m) => m,
        }
    }
}

} // verus!
