use std::collections::HashMap;
use vstd::prelude::*;

use crate::engine::Transfer;
use crate::keys::{pair_key, pair_key_spec};

verus! {

broadcast use vstd::std_specs::hash::group_hash_axioms;

#[derive(Clone, Copy, Debug, PartialEq, Eq, Structural)]
pub enum Error {
    AlreadyInitialized,
    NotInitialized,
    InvalidAmount,
    InsufficientBalance,
    Unauthorized,
}

/// A notice that a mentor's balance in a token was credited.
#[derive(Clone, Copy, Debug, PartialEq, Eq, Structural)]
pub struct Credited {
    pub mentor: u64,
    pub token: u64,
    pub amount: i128,
}

/// A notice that a mentor withdrew from a balance.
#[derive(Clone, Copy, Debug, PartialEq, Eq, Structural)]
pub struct Withdrawal {
    pub mentor: u64,
    pub token: u64,
    pub amount: i128,
}

/// Per-mentor, per-token balances that the administrator credits and the mentor withdraws.
pub struct WithdrawalContract {
    account: u64,
    admin: Option<u64>,
    balances: HashMap<u128, i128>,
}

/// The abstract state: balances keyed by `pair_key_spec(mentor, token)`.
pub struct WithdrawalView {
    pub account: u64,
    pub admin: Option<u64>,
    pub balances: Map<u128, i128>,
}

impl View for WithdrawalContract {
    type V = WithdrawalView;

    closed spec fn view(&self) -> WithdrawalView {
        WithdrawalView { account: self.account, admin: self.admin, balances: self.balances@ }
    }
}

/// The balance of `mentor` in `token`; zero when none was ever recorded.
pub open spec fn balance_of(v: WithdrawalView, mentor: u64, token: u64) -> i128 {
    if v.balances.contains_key(pair_key_spec(mentor, token)) {
        v.balances[pair_key_spec(mentor, token)]
    } else {
        0
    }
}

/// The state with the balance of `mentor` in `token` set to `b`.
pub open spec fn with_balance(v: WithdrawalView, mentor: u64, token: u64, b: i128) -> WithdrawalView {
    WithdrawalView { balances: v.balances.insert(pair_key_spec(mentor, token), b), ..v }
}

impl WithdrawalContract {
    /// A contract holding funds in `account`, with no administrator yet.
    pub fn new(account: u64) -> (r: WithdrawalContract)
        ensures
            r@ == (WithdrawalView { account, admin: None, balances: Map::<u128, i128>::empty() }),
    {
        WithdrawalContract { account, admin: None, balances: HashMap::new() }
    }

    /// Sets the administrator, once.
    pub fn init(&mut self, admin: u64) -> (r: Result<(), Error>)
        ensures
            old(self)@.admin is Some ==> r == Err::<(), Error>(Error::AlreadyInitialized)
                && final(self)@ == old(self)@,
            old(self)@.admin is None ==> r is Ok && final(self)@ == (WithdrawalView {
                admin: Some(admin),
                ..old(self)@
            }),
    {
        if self.admin.is_some() {
            return Err(Error::AlreadyInitialized);
        }
        self.admin = Some(admin);
        Ok(())
    }

    fn read_balance(&self, mentor: u64, token: u64) -> (r: i128)
        ensures
            r == balance_of(self@, mentor, token),
    {
        match self.balances.get(&pair_key(mentor, token)) {
            Some(b) => *b,
            None => 0,
        }
    }

    /// Adds `amount` to the balance of `mentor` in `token`; only the administrator may. A credit
    /// that would overflow the balance is refused as an invalid amount.
    pub fn credit(&mut self, caller: u64, mentor: u64, token: u64, amount: i128) -> (r: Result<
        Credited,
        Error,
    >)
        ensures
            old(self)@.admin is None ==> r == Err::<Credited, Error>(Error::NotInitialized),
            old(self)@.admin matches Some(a) && caller != a ==> r == Err::<Credited, Error>(
                Error::Unauthorized,
            ),
            old(self)@.admin == Some(caller) ==> {
                let b = balance_of(old(self)@, mentor, token);
                &&& (amount <= 0 || b + amount > i128::MAX) ==> r == Err::<Credited, Error>(
                    Error::InvalidAmount,
                )
                &&& (amount > 0 && b + amount <= i128::MAX) ==> r == Ok::<Credited, Error>(
                    Credited { mentor, token, amount },
                ) && final(self)@ == with_balance(old(self)@, mentor, token, (b + amount) as i128)
            },
            r is Err ==> final(self)@ == old(self)@,
    {
        let admin = match self.admin {
            Some(a) => a,
            None => return Err(Error::NotInitialized),
        };
        if caller != admin {
            return Err(Error::Unauthorized);
        }
        if amount <= 0 {
            return Err(Error::InvalidAmount);
        }
        let current = self.read_balance(mentor, token);
        let new_balance = match current.checked_add(amount) {
            Some(b) => b,
            None => return Err(Error::InvalidAmount),
        };
        self.balances.insert(pair_key(mentor, token), new_balance);
        Ok(Credited { mentor, token, amount })
    }

    /// Takes `amount` from the balance of `mentor` in `token` and returns the transfer that
    /// pays it to the mentor.
    pub fn withdraw(&mut self, mentor: u64, token: u64, amount: i128) -> (r: Result<
        Transfer,
        Error,
    >)
        ensures
            amount <= 0 ==> r == Err::<Transfer, Error>(Error::InvalidAmount),
            amount > 0 && amount > balance_of(old(self)@, mentor, token) ==> r == Err::<
                Transfer,
                Error,
            >(Error::InsufficientBalance),
            amount > 0 && amount <= balance_of(old(self)@, mentor, token) ==> r == Ok::<
                Transfer,
                Error,
            >(Transfer { asset: token, from: old(self)@.account, to: mentor, amount })
                && final(self)@ == with_balance(
                old(self)@,
                mentor,
                token,
                (balance_of(old(self)@, mentor, token) - amount) as i128,
            ),
            r is Err ==> final(self)@ == old(self)@,
    {
        if amount <= 0 {
            return Err(Error::InvalidAmount);
        }
        let current = self.read_balance(mentor, token);
        if amount > current {
            return Err(Error::InsufficientBalance);
        }
        self.balances.insert(pair_key(mentor, token), current - amount);
        Ok(Transfer { asset: token, from: self.account, to: mentor, amount })
    }

    /// Empties the positive balance of `mentor` in `token` and returns the transfer that pays
    /// it to the mentor.
    pub fn withdraw_all(&mut self, mentor: u64, token: u64) -> (r: Result<Transfer, Error>)
        ensures
            balance_of(old(self)@, mentor, token) <= 0 ==> r == Err::<Transfer, Error>(
                Error::InsufficientBalance,
            ) && final(self)@ == old(self)@,
            balance_of(old(self)@, mentor, token) > 0 ==> r == Ok::<Transfer, Error>(
                Transfer {
                    asset: token,
                    from: old(self)@.account,
                    to: mentor,
                    amount: balance_of(old(self)@, mentor, token),
                },
            ) && final(self)@ == with_balance(old(self)@, mentor, token, 0),
    {
        let balance = self.read_balance(mentor, token);
        if balance <= 0 {
            return Err(Error::InsufficientBalance);
        }
        self.balances.insert(pair_key(mentor, token), 0);
        Ok(Transfer { asset: token, from: self.account, to: mentor, amount: balance })
    }

    /// The balance of `mentor` in `token`.
    pub fn available(&self, mentor: u64, token: u64) -> (r: i128)
        ensures
            r == balance_of(self@, mentor, token),
    {
        self.read_balance(mentor, token)
    }

    /// The administrator.
    pub fn admin(&self) -> (r: Result<u64, Error>)
        ensures
            self@.admin matches Some(a) ==> r == Ok::<u64, Error>(a),
            self@.admin is None ==> r == Err::<u64, Error>(Error::NotInitialized),
    {
        match self.admin {
            Some(a) => Ok(a),
            None => Err(Error::NotInitialized),
        }
    }
}

} // verus!
