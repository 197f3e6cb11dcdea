use vstd::prelude::*;

verus! {

/// The shared layout of the notices that the booking contracts publish for indexers.
#[derive(Clone, Copy, Debug, PartialEq, Eq, Structural)]
pub struct BookingFunded {
    pub booking_id: u64,
    pub mentee: u64,
    pub mentor: u64,
    pub token: u64,
    pub amount: u128,
}

#[derive(Clone, Copy, Debug, PartialEq, Eq, Structural)]
pub struct BookingReleased {
    pub booking_id: u64,
    pub mentor: u64,
    pub token: u64,
    pub amount: u128,
}

#[derive(Clone, Copy, Debug, PartialEq, Eq, Structural)]
pub struct BookingRefunded {
    pub booking_id: u64,
    pub mentee: u64,
    pub token: u64,
    pub amount: u128,
}

#[derive(Clone, Copy, Debug)]
pub struct DisputeOpened {
    pub booking_id: u64,
    pub initiator: u64,
    pub reason_hash: [u8; 32],
}

/// A resolved dispute; `resolution` numbers the outcome.
#[derive(Clone, Copy, Debug, PartialEq, Eq, Structural)]
pub struct DisputeResolved {
    pub booking_id: u64,
    pub resolution: u8,
}

#[derive(Clone, Copy, Debug)]
pub struct ReleaseAuthorized {
    pub booking_id: u64,
    pub mentor: u64,
    pub signer: [u8; 32],
}

} // verus!
