use std::collections::HashMap;

use skillsync::booking_escrow::{BookingEscrowContract, EscrowError, EscrowStatus};
use skillsync::engine::Transfer;

const ESCROW: u64 = 1;
const ADMIN: u64 = 2;
const MENTEE: u64 = 3;
const MENTOR: u64 = 4;
const TOKEN: u64 = 70;

struct Ledger(HashMap<u64, i128>);

impl Ledger {
    fn with(who: u64, amount: i128) -> Ledger {
        let mut m = HashMap::new();
        m.insert(who, amount);
        Ledger(m)
    }
    fn apply(&mut self, t: Transfer) {
        *self.0.entry(t.from).or_insert(0) -= t.amount;
        *self.0.entry(t.to).or_insert(0) += t.amount;
    }
    fn balance(&self, who: u64) -> i128 {
        *self.0.get(&who).unwrap_or(&0)
    }
}

fn escrow() -> BookingEscrowContract {
    let mut e = BookingEscrowContract::new(ESCROW);
    e.init(ADMIN).unwrap();
    e
}

fn funded(amount: i128) -> (BookingEscrowContract, Ledger) {
    let mut e = escrow();
    let mut l = Ledger::with(MENTEE, amount);
    l.apply(e.fund(1, MENTEE, MENTOR, TOKEN, amount, 0).unwrap());
    (e, l)
}

#[test]
fn test_init_success() {
    let e = escrow();
    assert_eq!(e.get_admin(), Ok(ADMIN));
}

#[test]
fn test_init_already_initialized() {
    let mut e = escrow();
    assert_eq!(e.init(ADMIN), Err(EscrowError::AlreadyInitialized));
}

#[test]
fn test_fund_success() {
    let amount: i128 = 1_000_0000000;
    let (e, l) = funded(amount);
    let d = e.get(1).unwrap();
    assert_eq!(d.booking_id, 1u64);
    assert_eq!(d.mentee, MENTEE);
    assert_eq!(d.mentor, MENTOR);
    assert_eq!(d.token, TOKEN);
    assert_eq!(d.amount, amount);
    assert_eq!(d.status, EscrowStatus::Funded);
    assert_eq!(l.balance(MENTEE), 0);
    assert_eq!(l.balance(ESCROW), amount);
}

#[test]
fn test_fund_requires_mentee_auth() {
    let mut e = escrow();
    let t = e.fund(1, MENTEE, MENTOR, TOKEN, 1000, 0).unwrap();
    assert_eq!(t, Transfer { asset: TOKEN, from: MENTEE, to: ESCROW, amount: 1000 });
}

#[test]
fn test_fund_double_fund_same_booking_fails() {
    let (mut e, _) = funded(1000);
    assert_eq!(e.fund(1, MENTEE, MENTOR, TOKEN, 1000, 0), Err(EscrowError::EscrowAlreadyExists));
}

#[test]
fn test_fund_zero_amount_rejected() {
    let mut e = escrow();
    assert_eq!(e.fund(1, MENTEE, MENTOR, TOKEN, 0, 0), Err(EscrowError::InvalidAmount));
}

#[test]
fn test_fund_negative_amount_rejected() {
    let mut e = escrow();
    assert_eq!(e.fund(1, MENTEE, MENTOR, TOKEN, -100, 0), Err(EscrowError::InvalidAmount));
}

#[test]
fn test_fund_not_initialized() {
    let mut e = BookingEscrowContract::new(ESCROW);
    assert_eq!(e.fund(1, MENTEE, MENTOR, TOKEN, 1000, 0), Err(EscrowError::NotInitialized));
}

#[test]
fn test_release_success() {
    let amount: i128 = 1000;
    let (mut e, mut l) = funded(amount);
    assert_eq!(l.balance(MENTOR), 0);
    assert_eq!(l.balance(ESCROW), amount);
    l.apply(e.release(ADMIN, 1).unwrap());
    assert_eq!(l.balance(MENTOR), amount);
    assert_eq!(l.balance(ESCROW), 0);
    assert_eq!(e.status(1), Ok(EscrowStatus::Released));
}

#[test]
fn test_release_idempotency() {
    let amount: i128 = 1000;
    let (mut e, mut l) = funded(amount);
    l.apply(e.release(ADMIN, 1).unwrap());
    assert_eq!(e.release(ADMIN, 1), Err(EscrowError::EscrowAlreadyTerminal));
    assert_eq!(l.balance(MENTOR), amount);
}

#[test]
fn test_release_not_found() {
    let mut e = escrow();
    assert_eq!(e.release(ADMIN, 999), Err(EscrowError::EscrowNotFound));
}

#[test]
fn test_release_requires_admin_auth() {
    let (mut e, _) = funded(1000);
    assert_eq!(e.release(MENTEE, 1), Err(EscrowError::Unauthorized));
    assert!(e.release(ADMIN, 1).is_ok());
}

#[test]
fn test_refund_success() {
    let amount: i128 = 1000;
    let (mut e, mut l) = funded(amount);
    assert_eq!(l.balance(MENTEE), 0);
    assert_eq!(l.balance(ESCROW), amount);
    l.apply(e.refund(ADMIN, 1).unwrap());
    assert_eq!(l.balance(MENTEE), amount);
    assert_eq!(l.balance(ESCROW), 0);
    assert_eq!(e.status(1), Ok(EscrowStatus::Refunded));
}

#[test]
fn test_refund_idempotency() {
    let amount: i128 = 1000;
    let (mut e, mut l) = funded(amount);
    l.apply(e.refund(ADMIN, 1).unwrap());
    assert_eq!(e.refund(ADMIN, 1), Err(EscrowError::EscrowAlreadyTerminal));
    assert_eq!(l.balance(MENTEE), amount);
}

#[test]
fn test_refund_not_found() {
    let mut e = escrow();
    assert_eq!(e.refund(ADMIN, 999), Err(EscrowError::EscrowNotFound));
}

#[test]
fn test_refund_requires_admin_auth() {
    let (mut e, _) = funded(1000);
    assert_eq!(e.refund(MENTOR, 1), Err(EscrowError::Unauthorized));
    assert!(e.refund(ADMIN, 1).is_ok());
}

#[test]
fn test_cannot_refund_after_release() {
    let (mut e, _) = funded(1000);
    e.release(ADMIN, 1).unwrap();
    assert_eq!(e.refund(ADMIN, 1), Err(EscrowError::EscrowAlreadyTerminal));
}

#[test]
fn test_cannot_release_after_refund() {
    let (mut e, _) = funded(1000);
    e.refund(ADMIN, 1).unwrap();
    assert_eq!(e.release(ADMIN, 1), Err(EscrowError::EscrowAlreadyTerminal));
}

#[test]
fn test_token_with_zero_decimals() {
    let amount: i128 = 1000;
    let (mut e, mut l) = funded(amount);
    assert_eq!(l.balance(ESCROW), amount);
    l.apply(e.release(ADMIN, 1).unwrap());
    assert_eq!(l.balance(MENTOR), amount);
}

#[test]
fn test_token_with_seven_decimals() {
    let amount: i128 = 1_234_5678901;
    let (mut e, mut l) = funded(amount);
    assert_eq!(e.get(1).unwrap().amount, amount);
    l.apply(e.release(ADMIN, 1).unwrap());
    assert_eq!(l.balance(MENTOR), amount);
}

#[test]
fn test_get_escrow_details() {
    let amount: i128 = 1000;
    let (e, _) = funded(amount);
    let d = e.get(1).unwrap();
    assert_eq!(d.booking_id, 1u64);
    assert_eq!(d.mentee, MENTEE);
    assert_eq!(d.mentor, MENTOR);
    assert_eq!(d.token, TOKEN);
    assert_eq!(d.amount, amount);
    assert_eq!(d.status, EscrowStatus::Funded);
}

#[test]
fn test_get_escrow_not_found() {
    let e = escrow();
    assert_eq!(e.get(999), Err(EscrowError::EscrowNotFound));
}

#[test]
fn test_status_funded() {
    let (e, _) = funded(1000);
    assert_eq!(e.status(1), Ok(EscrowStatus::Funded));
}

#[test]
fn test_status_released() {
    let (mut e, _) = funded(1000);
    e.release(ADMIN, 1).unwrap();
    assert_eq!(e.status(1), Ok(EscrowStatus::Released));
}

#[test]
fn test_status_refunded() {
    let (mut e, _) = funded(1000);
    e.refund(ADMIN, 1).unwrap();
    assert_eq!(e.status(1), Ok(EscrowStatus::Refunded));
}

#[test]
fn test_status_not_found() {
    let e = escrow();
    assert_eq!(e.status(999), Err(EscrowError::EscrowNotFound));
}

#[test]
fn test_multiple_bookings() {
    let mut e = escrow();
    let (amount1, amount2, amount3): (i128, i128, i128) = (1000, 2000, 3000);
    let mut l = Ledger::with(MENTEE, amount1 + amount2 + amount3);
    l.apply(e.fund(1, MENTEE, MENTOR, TOKEN, amount1, 0).unwrap());
    l.apply(e.fund(2, MENTEE, MENTOR, TOKEN, amount2, 0).unwrap());
    l.apply(e.fund(3, MENTEE, MENTOR, TOKEN, amount3, 0).unwrap());
    assert_eq!(e.get(1).unwrap().amount, amount1);
    assert_eq!(e.get(2).unwrap().amount, amount2);
    assert_eq!(e.get(3).unwrap().amount, amount3);
    l.apply(e.release(ADMIN, 1).unwrap());
    l.apply(e.refund(ADMIN, 2).unwrap());
    assert_eq!(e.status(1), Ok(EscrowStatus::Released));
    assert_eq!(e.status(2), Ok(EscrowStatus::Refunded));
    assert_eq!(e.status(3), Ok(EscrowStatus::Funded));
    assert_eq!(l.balance(MENTOR), amount1);
    assert_eq!(l.balance(MENTEE), amount2);
    assert_eq!(l.balance(ESCROW), amount3);
}
