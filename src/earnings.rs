use std::collections::HashMap;
use vstd::prelude::*;

use crate::keys::{pair_key, pair_key_spec};

verus! {

broadcast use vstd::std_specs::hash::group_hash_axioms;

/// One credit to a mentor's earnings.
#[derive(Clone, Copy, Debug, PartialEq, Eq, Structural)]
pub struct CreditRecord {
    pub amount: u128,
    pub booking_id: u64,
    pub ts: u64,
}

/// Mentor earnings per token, credited by the escrow, with the history of credits.
pub struct EarningsContract {
    escrow: Option<u64>,
    balances: HashMap<u128, u128>,
    credits: HashMap<u128, Vec<CreditRecord>>,
}

/// The abstract state: balances and histories keyed by `pair_key_spec(mentor, token)`.
pub struct EarningsView {
    pub escrow: Option<u64>,
    pub balances: Map<u128, u128>,
    pub credits: Map<u128, Seq<CreditRecord>>,
}

impl View for EarningsContract {
    type V = EarningsView;

    closed spec fn view(&self) -> EarningsView {
        EarningsView {
            escrow: self.escrow,
            balances: self.balances@,
            credits: self.credits@.map_values(|v: Vec<CreditRecord>| v@),
        }
    }
}

pub open spec fn earned(v: EarningsView, mentor: u64, token: u64) -> u128 {
    if v.balances.contains_key(pair_key_spec(mentor, token)) {
        v.balances[pair_key_spec(mentor, token)]
    } else {
        0
    }
}

pub open spec fn history_of(v: EarningsView, mentor: u64, token: u64) -> Seq<CreditRecord> {
    if v.credits.contains_key(pair_key_spec(mentor, token)) {
        v.credits[pair_key_spec(mentor, token)]
    } else {
        Seq::empty()
    }
}

/// The page `page` of `limit` records of a history.
pub open spec fn page_of(h: Seq<CreditRecord>, page: u64, limit: u64) -> Seq<CreditRecord> {
    let start = page * limit;
    let end = if start + limit < h.len() {
        start + limit
    } else {
        h.len() as int
    };
    if start < end {
        h.subrange(start, end)
    } else {
        Seq::empty()
    }
}

impl EarningsContract {
    /// A ledger with no escrow account yet.
    pub fn new() -> (r: EarningsContract)
        ensures
            r@.escrow is None,
            r@.balances == Map::<u128, u128>::empty(),
            r@.credits == Map::<u128, Seq<CreditRecord>>::empty(),
    {
        let r = EarningsContract { escrow: None, balances: HashMap::new(), credits: HashMap::new() };
        assert(r@.credits =~= Map::<u128, Seq<CreditRecord>>::empty());
        r
    }

    /// Whether the escrow account is set.
    pub fn has_escrow(&self) -> (r: bool)
        ensures
            r == self@.escrow is Some,
    {
        self.escrow.is_some()
    }

    /// Sets the escrow account, the only one that may credit, once.
    pub fn initialize(&mut self, escrow: u64)
        requires
            old(self)@.escrow is None,
        ensures
            final(self)@ == (EarningsView { escrow: Some(escrow), ..old(self)@ }),
    {
        self.escrow = Some(escrow);
        assert(self@.credits =~= old(self)@.credits);
    }

    /// Credits `amount` to the mentor's earnings in `token` and records it at time `now`.
    pub fn credit(
        &mut self,
        caller: u64,
        mentor: u64,
        token: u64,
        amount: u128,
        booking_id: u64,
        now: u64,
    ) -> (r: CreditRecord)
        requires
            old(self)@.escrow == Some(caller),
            earned(old(self)@, mentor, token) + amount <= u128::MAX,
        ensures
            r == (CreditRecord { amount, booking_id, ts: now }),
            final(self)@.escrow == old(self)@.escrow,
            final(self)@.balances == old(self)@.balances.insert(
                pair_key_spec(mentor, token),
                (earned(old(self)@, mentor, token) + amount) as u128,
            ),
            final(self)@.credits == old(self)@.credits.insert(
                pair_key_spec(mentor, token),
                history_of(old(self)@, mentor, token).push(r),
            ),
    {
        let key = pair_key(mentor, token);
        let balance = match self.balances.get(&key) {
            Some(b) => *b,
            None => 0,
        };
        self.balances.insert(key, balance + amount);
        let record = CreditRecord { amount, booking_id, ts: now };
        let ghost before = self.credits@;
        let mut records = match self.credits.remove(&key) {
            Some(v) => v,
            None => Vec::new(),
        };
        let ghost removed = self.credits@;
        records.push(record);
        self.credits.insert(key, records);
        assert(self@.credits =~= old(self)@.credits.insert(
            pair_key_spec(mentor, token),
            history_of(old(self)@, mentor, token).push(record),
        )) by {
            assert(removed == before.remove(key));
        }
        record
    }

    /// The mentor's earnings in `token`.
    pub fn available(&self, mentor: u64, token: u64) -> (r: u128)
        ensures
            r == earned(self@, mentor, token),
    {
        match self.balances.get(&pair_key(mentor, token)) {
            Some(b) => *b,
            None => 0,
        }
    }

    /// Page `page` of the mentor's credits in `token`, `limit` records per page, oldest first.
    pub fn history(&self, mentor: u64, token: u64, page: u64, limit: u64) -> (r: Vec<
        CreditRecord,
    >)
        requires
            page * limit + limit <= u64::MAX,
        ensures
            r@ == page_of(history_of(self@, mentor, token), page, limit),
    {
        let mut res: Vec<CreditRecord> = Vec::new();
        let records = match self.credits.get(&pair_key(mentor, token)) {
            Some(v) => v,
            None => {
                assert(res@ =~= page_of(history_of(self@, mentor, token), page, limit));
                return res;
            },
        };
        proof {
            assert(0 <= page * limit) by (nonlinear_arith);
        }
        let start = page * limit;
        let end = start + limit;
        let ghost h = records@;
        assert(h == history_of(self@, mentor, token));
        if start as u128 >= records.len() as u128 {
            assert(res@ =~= page_of(h, page, limit));
            return res;
        }
        let n: usize = if (end as u128) < (records.len() as u128) {
            end as usize
        } else {
            records.len()
        };
        let mut i: usize = start as usize;
        while i < n
            invariant
                start <= i <= n,
                n <= h.len(),
                h == records@,
                res@ == h.subrange(start as int, i as int),
            decreases n - i,
        {
            res.push(records[i]);
            i = i + 1;
            assert(res@ =~= h.subrange(start as int, i as int));
        }
        assert(res@ =~= page_of(h, page, limit));
        res
    }

    /// The escrow account.
    pub fn escrow(&self) -> (r: Option<u64>)
        ensures
            r == self@.escrow,
    {
        self.escrow
    }
}

} // verus!
