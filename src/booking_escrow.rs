use std::collections::HashMap;
use vstd::prelude::*;

use crate::engine::Transfer;

verus! {

broadcast use vstd::std_specs::hash::group_hash_axioms;

#[derive(Clone, Copy, Debug, PartialEq, Eq, Structural)]
pub enum EscrowStatus {
    Funded,
    Released,
    Refunded,
}

/// Funds that a mentee placed in escrow for one booking.
#[derive(Clone, Copy, Debug, PartialEq, Eq, Structural)]
pub struct Escrow {
    pub booking_id: u64,
    pub mentee: u64,
    pub mentor: u64,
    pub token: u64,
    pub amount: i128,
    pub status: EscrowStatus,
    pub created_at: u64,
}

#[derive(Clone, Copy, Debug, PartialEq, Eq, Structural)]
pub enum EscrowError {
    NotInitialized,
    AlreadyInitialized,
    EscrowNotFound,
    EscrowAlreadyExists,
    InvalidAmount,
    EscrowAlreadyTerminal,
    Unauthorized,
}

/// Escrow per booking: funded by the mentee, then released to the mentor or refunded to the
/// mentee by the administrator, once.
pub struct BookingEscrowContract {
    account: u64,
    admin: Option<u64>,
    escrows: HashMap<u64, Escrow>,
}

/// The abstract state of a booking escrow.
pub struct BookingEscrowView {
    pub account: u64,
    pub admin: Option<u64>,
    pub escrows: Map<u64, Escrow>,
}

impl View for BookingEscrowContract {
    type V = BookingEscrowView;

    closed spec fn view(&self) -> BookingEscrowView {
        BookingEscrowView { account: self.account, admin: self.admin, escrows: self.escrows@ }
    }
}

/// The outcome of `fund`: the next state and the transfer from the mentee into escrow.
pub open spec fn fund_step(
    v: BookingEscrowView,
    booking_id: u64,
    mentee: u64,
    mentor: u64,
    token: u64,
    amount: i128,
    now: u64,
) -> (BookingEscrowView, Result<Transfer, EscrowError>) {
    if v.admin is None {
        (v, Err(EscrowError::NotInitialized))
    } else if amount <= 0 {
        (v, Err(EscrowError::InvalidAmount))
    } else if v.escrows.contains_key(booking_id) {
        (v, Err(EscrowError::EscrowAlreadyExists))
    } else {
        let e = Escrow {
            booking_id,
            mentee,
            mentor,
            token,
            amount,
            status: EscrowStatus::Funded,
            created_at: now,
        };
        (
            BookingEscrowView { escrows: v.escrows.insert(booking_id, e), ..v },
            Ok(Transfer { asset: token, from: mentee, to: v.account, amount }),
        )
    }
}

/// The outcome of closing a funded escrow, paying the mentor when `to_mentor` holds and the
/// mentee otherwise: the next state and the transfer out of escrow.
pub open spec fn close_step(v: BookingEscrowView, caller: u64, booking_id: u64, to_mentor: bool) -> (
    BookingEscrowView,
    Result<Transfer, EscrowError>,
) {
    if v.admin is None {
        (v, Err(EscrowError::NotInitialized))
    } else if caller != v.admin->Some_0 {
        (v, Err(EscrowError::Unauthorized))
    } else if !v.escrows.contains_key(booking_id) {
        (v, Err(EscrowError::EscrowNotFound))
    } else if v.escrows[booking_id].status != EscrowStatus::Funded {
        (v, Err(EscrowError::EscrowAlreadyTerminal))
    } else {
        let e = v.escrows[booking_id];
        let status = if to_mentor {
            EscrowStatus::Released
        } else {
            EscrowStatus::Refunded
        };
        let to = if to_mentor {
            e.mentor
        } else {
            e.mentee
        };
        (
            BookingEscrowView {
                escrows: v.escrows.insert(booking_id, Escrow { status, ..e }),
                ..v
            },
            Ok(Transfer { asset: e.token, from: v.account, to, amount: e.amount }),
        )
    }
}

impl BookingEscrowContract {
    /// An escrow holding funds in `account`, with no administrator yet.
    pub fn new(account: u64) -> (r: BookingEscrowContract)
        ensures
            r@ == (BookingEscrowView {
                account,
                admin: None,
                escrows: Map::<u64, Escrow>::empty(),
            }),
    {
        BookingEscrowContract { account, admin: None, escrows: HashMap::new() }
    }

    /// Sets the administrator, once.
    pub fn init(&mut self, admin: u64) -> (r: Result<(), EscrowError>)
        ensures
            old(self)@.admin is Some ==> r == Err::<(), EscrowError>(
                EscrowError::AlreadyInitialized,
            ) && final(self)@ == old(self)@,
            old(self)@.admin is None ==> r is Ok && final(self)@ == (BookingEscrowView {
                admin: Some(admin),
                ..old(self)@
            }),
    {
        if self.admin.is_some() {
            return Err(EscrowError::AlreadyInitialized);
        }
        self.admin = Some(admin);
        Ok(())
    }

    /// Records a funded escrow for `booking_id` and returns the transfer from the mentee into
    /// escrow, which the caller must carry out.
    pub fn fund(
        &mut self,
        booking_id: u64,
        mentee: u64,
        mentor: u64,
        token: u64,
        amount: i128,
        now: u64,
    ) -> (r: Result<Transfer, EscrowError>)
        ensures
            (final(self)@, r) == fund_step(old(self)@, booking_id, mentee, mentor, token, amount, now),
    {
        if self.admin.is_none() {
            return Err(EscrowError::NotInitialized);
        }
        if amount <= 0 {
            return Err(EscrowError::InvalidAmount);
        }
        if self.escrows.contains_key(&booking_id) {
            return Err(EscrowError::EscrowAlreadyExists);
        }
        let e = Escrow {
            booking_id,
            mentee,
            mentor,
            token,
            amount,
            status: EscrowStatus::Funded,
            created_at: now,
        };
        self.escrows.insert(booking_id, e);
        Ok(Transfer { asset: token, from: mentee, to: self.account, amount })
    }

    fn close(&mut self, caller: u64, booking_id: u64, to_mentor: bool) -> (r: Result<
        Transfer,
        EscrowError,
    >)
        ensures
            (final(self)@, r) == close_step(old(self)@, caller, booking_id, to_mentor),
    {
        let admin = match self.admin {
            Some(a) => a,
            None => return Err(EscrowError::NotInitialized),
        };
        if caller != admin {
            return Err(EscrowError::Unauthorized);
        }
        let e = match self.escrows.get(&booking_id) {
            Some(e) => *e,
            None => return Err(EscrowError::EscrowNotFound),
        };
        if e.status != EscrowStatus::Funded {
            return Err(EscrowError::EscrowAlreadyTerminal);
        }
        let status = if to_mentor {
            EscrowStatus::Released
        } else {
            EscrowStatus::Refunded
        };
        let to = if to_mentor {
            e.mentor
        } else {
            e.mentee
        };
        self.escrows.insert(booking_id, Escrow { status, ..e });
        Ok(Transfer { asset: e.token, from: self.account, to, amount: e.amount })
    }

    /// Releases a funded escrow to the mentor; only the administrator may.
    pub fn release(&mut self, caller: u64, booking_id: u64) -> (r: Result<Transfer, EscrowError>)
        ensures
            (final(self)@, r) == close_step(old(self)@, caller, booking_id, true),
    {
        self.close(caller, booking_id, true)
    }

    /// Refunds a funded escrow to the mentee; only the administrator may.
    pub fn refund(&mut self, caller: u64, booking_id: u64) -> (r: Result<Transfer, EscrowError>)
        ensures
            (final(self)@, r) == close_step(old(self)@, caller, booking_id, false),
    {
        self.close(caller, booking_id, false)
    }

    /// The escrow of `booking_id`.
    pub fn get(&self, booking_id: u64) -> (r: Result<Escrow, EscrowError>)
        ensures
            self@.escrows.contains_key(booking_id) ==> r == Ok::<Escrow, EscrowError>(
                self@.escrows[booking_id],
            ),
            !self@.escrows.contains_key(booking_id) ==> r == Err::<Escrow, EscrowError>(
                EscrowError::EscrowNotFound,
            ),
    {
        match self.escrows.get(&booking_id) {
            Some(e) => Ok(*e),
            None => Err(EscrowError::EscrowNotFound),
        }
    }

    /// The status of the escrow of `booking_id`.
    pub fn status(&self, booking_id: u64) -> (r: Result<EscrowStatus, EscrowError>)
        ensures
            self@.escrows.contains_key(booking_id) ==> r == Ok::<EscrowStatus, EscrowError>(
                self@.escrows[booking_id].status,
            ),
            !self@.escrows.contains_key(booking_id) ==> r == Err::<EscrowStatus, EscrowError>(
                EscrowError::EscrowNotFound,
            ),
    {
        match self.escrows.get(&booking_id) {
            Some(e) => Ok(e.status),
            None => Err(EscrowError::EscrowNotFound),
        }
    }

    /// The administrator.
    pub fn get_admin(&self) -> (r: Result<u64, EscrowError>)
        ensures
            self@.admin matches Some(a) ==> r == Ok::<u64, EscrowError>(a),
            self@.admin is None ==> r == Err::<u64, EscrowError>(EscrowError::NotInitialized),
    {
        match self.admin {
            Some(a) => Ok(a),
            None => Err(EscrowError::NotInitialized),
        }
    }
}

} // verus!
