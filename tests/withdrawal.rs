use std::collections::HashMap;

use skillsync::engine::Transfer;
use skillsync::withdrawal::{Credited, Error, WithdrawalContract};

const CONTRACT: u64 = 1;
const ADMIN: u64 = 2;
const MENTOR: u64 = 3;
const MENTOR2: u64 = 4;
const TOKEN: u64 = 80;
const TOKEN2: u64 = 81;

/// Token balances per (token, account).
struct Ledger(HashMap<(u64, u64), i128>);

impl Ledger {
    fn new() -> Ledger {
        Ledger(HashMap::new())
    }
    fn mint(&mut self, token: u64, to: u64, amount: i128) {
        *self.0.entry((token, to)).or_insert(0) += amount;
    }
    fn apply(&mut self, t: Transfer) {
        *self.0.entry((t.asset, t.from)).or_insert(0) -= t.amount;
        *self.0.entry((t.asset, t.to)).or_insert(0) += t.amount;
    }
    fn balance(&self, token: u64, who: u64) -> i128 {
        *self.0.get(&(token, who)).unwrap_or(&0)
    }
}

fn contract() -> WithdrawalContract {
    let mut c = WithdrawalContract::new(CONTRACT);
    c.init(ADMIN).unwrap();
    c
}

#[test]
fn init_sets_admin() {
    let mut c = contract();
    assert_eq!(c.admin(), Ok(ADMIN));
    assert_eq!(c.init(MENTOR), Err(Error::AlreadyInitialized));
    assert_eq!(WithdrawalContract::new(CONTRACT).admin(), Err(Error::NotInitialized));
}

#[test]
fn credit_increases_balance() {
    let mut c = contract();
    assert_eq!(c.available(MENTOR, TOKEN), 0);
    c.credit(ADMIN, MENTOR, TOKEN, 1000).unwrap();
    assert_eq!(c.available(MENTOR, TOKEN), 1000);
    c.credit(ADMIN, MENTOR, TOKEN, 500).unwrap();
    assert_eq!(c.available(MENTOR, TOKEN), 1500);
}

#[test]
fn credit_requires_admin_auth() {
    let mut c = contract();
    assert_eq!(c.credit(MENTOR, MENTOR, TOKEN, 1000), Err(Error::Unauthorized));
    assert_eq!(c.available(MENTOR, TOKEN), 0);
    assert!(c.credit(ADMIN, MENTOR, TOKEN, 1000).is_ok());
}

#[test]
fn partial_withdrawal_updates_balance_and_transfers() {
    let mut c = contract();
    let mut l = Ledger::new();
    c.credit(ADMIN, MENTOR, TOKEN, 1000).unwrap();
    l.mint(TOKEN, CONTRACT, 1000);
    l.apply(c.withdraw(MENTOR, TOKEN, 400).unwrap());
    assert_eq!(c.available(MENTOR, TOKEN), 600);
    assert_eq!(l.balance(TOKEN, MENTOR), 400);
    assert_eq!(l.balance(TOKEN, CONTRACT), 600);
}

#[test]
fn full_withdrawal_updates_balance_and_transfers() {
    let mut c = contract();
    let mut l = Ledger::new();
    c.credit(ADMIN, MENTOR, TOKEN, 1000).unwrap();
    l.mint(TOKEN, CONTRACT, 1000);
    l.apply(c.withdraw(MENTOR, TOKEN, 1000).unwrap());
    assert_eq!(c.available(MENTOR, TOKEN), 0);
    assert_eq!(l.balance(TOKEN, MENTOR), 1000);
    assert_eq!(l.balance(TOKEN, CONTRACT), 0);
}

#[test]
fn withdraw_all_transfers_entire_balance() {
    let mut c = contract();
    let mut l = Ledger::new();
    c.credit(ADMIN, MENTOR, TOKEN, 5000).unwrap();
    l.mint(TOKEN, CONTRACT, 5000);
    l.apply(c.withdraw_all(MENTOR, TOKEN).unwrap());
    assert_eq!(c.available(MENTOR, TOKEN), 0);
    assert_eq!(l.balance(TOKEN, MENTOR), 5000);
    assert_eq!(l.balance(TOKEN, CONTRACT), 0);
}

#[test]
fn withdraw_requires_mentor_auth() {
    let mut c = contract();
    c.credit(ADMIN, MENTOR, TOKEN, 1000).unwrap();
    let t = c.withdraw(MENTOR, TOKEN, 500).unwrap();
    assert_eq!(t, Transfer { asset: TOKEN, from: CONTRACT, to: MENTOR, amount: 500 });
}

#[test]
fn withdraw_all_requires_mentor_auth() {
    let mut c = contract();
    c.credit(ADMIN, MENTOR, TOKEN, 1000).unwrap();
    let t = c.withdraw_all(MENTOR, TOKEN).unwrap();
    assert_eq!(t, Transfer { asset: TOKEN, from: CONTRACT, to: MENTOR, amount: 1000 });
}

#[test]
fn emits_withdrawal_event() {
    let mut c = contract();
    let credited = c.credit(ADMIN, MENTOR, TOKEN, 1000).unwrap();
    let withdrawn = c.withdraw(MENTOR, TOKEN, 500).unwrap();
    assert_eq!(credited, Credited { mentor: MENTOR, token: TOKEN, amount: 1000 });
    assert_eq!(withdrawn.amount, 500);
}

#[test]
fn emits_credited_event() {
    let mut c = contract();
    assert_eq!(
        c.credit(ADMIN, MENTOR, TOKEN, 1000),
        Ok(Credited { mentor: MENTOR, token: TOKEN, amount: 1000 })
    );
}

#[test]
fn multiple_mentors_have_separate_balances() {
    let mut c = contract();
    let mut l = Ledger::new();
    c.credit(ADMIN, MENTOR, TOKEN, 1000).unwrap();
    c.credit(ADMIN, MENTOR2, TOKEN, 2000).unwrap();
    assert_eq!(c.available(MENTOR, TOKEN), 1000);
    assert_eq!(c.available(MENTOR2, TOKEN), 2000);
    l.mint(TOKEN, CONTRACT, 3000);
    l.apply(c.withdraw(MENTOR, TOKEN, 500).unwrap());
    assert_eq!(c.available(MENTOR, TOKEN), 500);
    assert_eq!(c.available(MENTOR2, TOKEN), 2000);
    assert_eq!(l.balance(TOKEN, MENTOR), 500);
    assert_eq!(l.balance(TOKEN, MENTOR2), 0);
}

#[test]
fn multiple_tokens_have_separate_balances() {
    let mut c = contract();
    let mut l = Ledger::new();
    c.credit(ADMIN, MENTOR, TOKEN, 1000).unwrap();
    c.credit(ADMIN, MENTOR, TOKEN2, 5000).unwrap();
    assert_eq!(c.available(MENTOR, TOKEN), 1000);
    assert_eq!(c.available(MENTOR, TOKEN2), 5000);
    l.mint(TOKEN, CONTRACT, 1000);
    l.mint(TOKEN2, CONTRACT, 5000);
    l.apply(c.withdraw(MENTOR, TOKEN, 300).unwrap());
    assert_eq!(c.available(MENTOR, TOKEN), 700);
    assert_eq!(c.available(MENTOR, TOKEN2), 5000);
    assert_eq!(l.balance(TOKEN, MENTOR), 300);
    assert_eq!(l.balance(TOKEN2, MENTOR), 0);
}

#[test]
fn sequential_withdrawals_work_correctly() {
    let mut c = contract();
    let mut l = Ledger::new();
    c.credit(ADMIN, MENTOR, TOKEN, 1000).unwrap();
    l.mint(TOKEN, CONTRACT, 1000);
    l.apply(c.withdraw(MENTOR, TOKEN, 200).unwrap());
    assert_eq!(c.available(MENTOR, TOKEN), 800);
    assert_eq!(l.balance(TOKEN, MENTOR), 200);
    l.apply(c.withdraw(MENTOR, TOKEN, 300).unwrap());
    assert_eq!(c.available(MENTOR, TOKEN), 500);
    assert_eq!(l.balance(TOKEN, MENTOR), 500);
    l.apply(c.withdraw(MENTOR, TOKEN, 500).unwrap());
    assert_eq!(c.available(MENTOR, TOKEN), 0);
    assert_eq!(l.balance(TOKEN, MENTOR), 1000);
}

#[test]
fn withdrawal_errors() {
    let mut c = contract();
    assert_eq!(c.withdraw(MENTOR, TOKEN, 0), Err(Error::InvalidAmount));
    assert_eq!(c.withdraw(MENTOR, TOKEN, 1), Err(Error::InsufficientBalance));
    assert_eq!(c.withdraw_all(MENTOR, TOKEN), Err(Error::InsufficientBalance));
    assert_eq!(c.credit(ADMIN, MENTOR, TOKEN, 0), Err(Error::InvalidAmount));
    c.credit(ADMIN, MENTOR, TOKEN, i128::MAX).unwrap();
    assert_eq!(c.credit(ADMIN, MENTOR, TOKEN, 1), Err(Error::InvalidAmount));
    assert_eq!(c.available(MENTOR, TOKEN), i128::MAX);
}
