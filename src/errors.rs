use vstd::prelude::*;

verus! {

/// Errors of the contract, reported to the host as user error codes.
#[derive(Debug, Clone, Copy, PartialEq, Eq, Structural)]
pub enum Error {
    FatalError,
    SignatureValidatorsLengthMismatch,
}

impl Error {
    /// The user error code under which the host reports this error.
    pub fn code(&self) -> (r: u16)
        ensures
            r == match self {
                Error::FatalError => 1u16,
                Error::SignatureValidatorsLengthMismatch => 2u16,
            },
    {
        match self {
            Error::FatalError => 1,
            Error::SignatureValidatorsLengthMismatch => 2,
        }
    }
}

} // verus!
