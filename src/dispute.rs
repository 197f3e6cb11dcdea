use std::collections::HashMap;
use vstd::prelude::*;

use crate::events::DisputeResolved;

verus! {

broadcast use vstd::std_specs::hash::group_hash_axioms;

#[derive(Clone, Copy, Debug, PartialEq, Eq, Structural)]
pub enum DisputeStatus {
    Open,
    Resolved,
}

#[derive(Clone, Copy, Debug, PartialEq, Eq, Structural)]
pub enum DisputeOutcome {
    MentorWins,
    MenteeWins,
}

/// A dispute raised on a booking.
#[derive(Debug)]
pub struct Dispute {
    pub status: DisputeStatus,
    pub raiser: u64,
    pub opened_at: u64,
    pub outcome: Option<DisputeOutcome>,
    pub reason: Option<String>,
}

impl Dispute {
    /// A copy of the dispute.
    pub fn duplicate(&self) -> (r: Dispute)
        ensures
            r == *self,
    {
        Dispute {
            status: self.status,
            raiser: self.raiser,
            opened_at: self.opened_at,
            outcome: self.outcome,
            reason: self.reason.clone(),
        }
    }
}

/// Disputes per booking: raised once, resolved once by the administrator. An open dispute
/// freezes the booking.
pub struct DisputeContract {
    admin: Option<u64>,
    disputes: HashMap<u64, Dispute>,
}

/// The abstract state of the dispute registry.
pub struct DisputeView {
    pub admin: Option<u64>,
    pub disputes: Map<u64, Dispute>,
}

impl View for DisputeContract {
    type V = DisputeView;

    closed spec fn view(&self) -> DisputeView {
        DisputeView { admin: self.admin, disputes: self.disputes@ }
    }
}

/// The number under which an outcome is published.
pub open spec fn outcome_code(o: DisputeOutcome) -> u8 {
    match o {
        DisputeOutcome::MentorWins => 0,
        DisputeOutcome::MenteeWins => 1,
    }
}

impl DisputeContract {
    /// A registry with no administrator and no dispute.
    pub fn new() -> (r: DisputeContract)
        ensures
            r@ == (DisputeView { admin: None, disputes: Map::<u64, Dispute>::empty() }),
    {
        DisputeContract { admin: None, disputes: HashMap::new() }
    }

    /// Sets the administrator who resolves disputes.
    pub fn initialize(&mut self, admin: u64)
        ensures
            final(self)@ == (DisputeView { admin: Some(admin), ..old(self)@ }),
    {
        self.admin = Some(admin);
    }

    /// Opens a dispute on `booking_id`, which must have none yet.
    pub fn raise(&mut self, booking_id: u64, raiser: u64, now: u64)
        requires
            !old(self)@.disputes.contains_key(booking_id),
        ensures
            final(self)@ == (DisputeView {
                disputes: old(self)@.disputes.insert(
                    booking_id,
                    Dispute {
                        status: DisputeStatus::Open,
                        raiser,
                        opened_at: now,
                        outcome: None,
                        reason: None,
                    },
                ),
                ..old(self)@
            }),
    {
        let d = Dispute {
            status: DisputeStatus::Open,
            raiser,
            opened_at: now,
            outcome: None,
            reason: None,
        };
        self.disputes.insert(booking_id, d);
    }

    /// Whether `booking_id` has a dispute.
    pub fn has_dispute(&self, booking_id: u64) -> (r: bool)
        ensures
            r == self@.disputes.contains_key(booking_id),
    {
        self.disputes.contains_key(&booking_id)
    }

    /// Resolves the open dispute on `booking_id`; only the administrator may.
    pub fn resolve(
        &mut self,
        caller: u64,
        booking_id: u64,
        outcome: DisputeOutcome,
        reason: Option<String>,
    ) -> (r: DisputeResolved)
        requires
            old(self)@.admin == Some(caller),
            old(self)@.disputes.contains_key(booking_id),
            old(self)@.disputes[booking_id].status == DisputeStatus::Open,
        ensures
            r == (DisputeResolved { booking_id, resolution: outcome_code(outcome) }),
            ({
                let d = old(self)@.disputes[booking_id];
                final(self)@ == (DisputeView {
                    disputes: old(self)@.disputes.insert(
                        booking_id,
                        Dispute {
                            status: DisputeStatus::Resolved,
                            raiser: d.raiser,
                            opened_at: d.opened_at,
                            outcome: Some(outcome),
                            reason,
                        },
                    ),
                    ..old(self)@
                })
            }),
    {
        let (raiser, opened_at) = match self.disputes.get(&booking_id) {
            Some(d) => (d.raiser, d.opened_at),
            None => (0, 0),
        };
        let d = Dispute {
            status: DisputeStatus::Resolved,
            raiser,
            opened_at,
            outcome: Some(outcome),
            reason,
        };
        self.disputes.insert(booking_id, d);
        let resolution: u8 = match outcome {
            DisputeOutcome::MentorWins => 0,
            DisputeOutcome::MenteeWins => 1,
        };
        DisputeResolved { booking_id, resolution }
    }

    /// The dispute on `booking_id`, if any.
    pub fn get(&self, booking_id: u64) -> (r: Option<Dispute>)
        ensures
            r is None <==> !self@.disputes.contains_key(booking_id),
            r matches Some(d) ==> d == self@.disputes[booking_id],
    {
        match self.disputes.get(&booking_id) {
            Some(d) => Some(d.duplicate()),
            None => None,
        }
    }

    /// Whether `booking_id` has an open dispute.
    pub fn is_frozen(&self, booking_id: u64) -> (r: bool)
        ensures
            r == (self@.disputes.contains_key(booking_id) && self@.disputes[booking_id].status
                == DisputeStatus::Open),
    {
        match self.disputes.get(&booking_id) {
            Some(d) => d.status == DisputeStatus::Open,
            None => false,
        }
    }
}

} // verus!
