use vstd::prelude::*;

verus! {

/// The errors of the settlement engine and its parameter store.
#[derive(Clone, Copy, Debug, PartialEq, Eq, Structural)]
pub enum Error {
    AlreadyInitialized,
    NotInitialized,
    InvalidDisputeWindow,
    Unauthorized,
    InvalidTreasuryAddress,
    DuplicateSessionId,
    InvalidAmount,
    InsufficientBalance,
    TransferError,
    SessionNotFound,
    InvalidSessionStatus,
    DisputeWindowNotElapsed,
    NotAuthorizedParty,
    AlreadyApproved,
    InvalidFeeBps,
}

impl Error {
    /// The stable numeric code under which the error crosses the engine's boundary.
    pub open spec fn code_spec(self) -> u32 {
        match self {
            Error::AlreadyInitialized => 1,
            Error::NotInitialized => 2,
            Error::InvalidDisputeWindow => 3,
            Error::Unauthorized => 4,
            Error::InvalidTreasuryAddress => 5,
            Error::DuplicateSessionId => 6,
            Error::InvalidAmount => 7,
            Error::InsufficientBalance => 8,
            Error::TransferError => 9,
            Error::SessionNotFound => 10,
            Error::InvalidSessionStatus => 11,
            Error::DisputeWindowNotElapsed => 12,
            Error::NotAuthorizedParty => 13,
            Error::AlreadyApproved => 14,
            Error::InvalidFeeBps => 15,
        }
    }

    /// The stable numeric code of this error.
    pub fn code(&self) -> (r: u32)
        ensures
            r == self.code_spec(),
    {
        match self {
            Error::AlreadyInitialized => 1,
            Error::NotInitialized => 2,
            Error::InvalidDisputeWindow => 3,
            Error::Unauthorized => 4,
            Error::InvalidTreasuryAddress => 5,
            Error::DuplicateSessionId => 6,
            Error::InvalidAmount => 7,
            Error::InsufficientBalance => 8,
            Error::TransferError => 9,
            Error::SessionNotFound => 10,
            Error::InvalidSessionStatus => 11,
            Error::DisputeWindowNotElapsed => 12,
            Error::NotAuthorizedParty => 13,
            Error::AlreadyApproved => 14,
            Error::InvalidFeeBps => 15,
        }
    }
}

} // verus!
