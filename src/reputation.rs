use std::collections::HashMap;
use vstd::prelude::*;

verus! {

broadcast use vstd::std_specs::hash::group_hash_axioms;

/// A notice that the score of `addr` changed to `new_score`, and why.
#[derive(Debug)]
pub struct ReputationUpdated {
    pub addr: u64,
    pub new_score: i64,
    pub reason: String,
}

#[derive(Clone, Copy, Debug, PartialEq, Eq, Structural)]
pub enum ReputationError {
    Unauthorized,
}

/// Reputation scores that grow after sessions and move with reviews.
pub struct Reputation {
    scores: HashMap<u64, i64>,
    admin: u64,
    session_bonus: i64,
}

/// The abstract state of the reputation registry.
pub struct ReputationView {
    pub scores: Map<u64, i64>,
    pub admin: u64,
    pub session_bonus: i64,
}

impl View for Reputation {
    type V = ReputationView;

    closed spec fn view(&self) -> ReputationView {
        ReputationView { scores: self.scores@, admin: self.admin, session_bonus: self.session_bonus }
    }
}

/// `a + b`, held within the range of `i64`.
pub open spec fn saturating(a: int, b: int) -> i64 {
    if a + b > i64::MAX {
        i64::MAX
    } else if a + b < i64::MIN {
        i64::MIN
    } else {
        (a + b) as i64
    }
}

/// The score of `addr`; zero when none was recorded.
pub open spec fn score_of(scores: Map<u64, i64>, addr: u64) -> i64 {
    if scores.contains_key(addr) {
        scores[addr]
    } else {
        0
    }
}

/// The scores after adding `delta` to the score of `addr`, saturating.
pub open spec fn bumped(scores: Map<u64, i64>, addr: u64, delta: int) -> Map<u64, i64> {
    scores.insert(addr, saturating(score_of(scores, addr) as int, delta))
}

fn saturating_add(a: i64, b: i64) -> (r: i64)
    ensures
        r == saturating(a as int, b as int),
{
    if b > 0 && a > i64::MAX - b {
        i64::MAX
    } else if b < 0 && a < i64::MIN - b {
        i64::MIN
    } else {
        a + b
    }
}

impl Reputation {
    /// A registry administered by `admin` that awards `session_bonus` per completed session.
    pub fn new(admin: u64, session_bonus: i64) -> (r: Reputation)
        ensures
            r@ == (ReputationView { scores: Map::<u64, i64>::empty(), admin, session_bonus }),
    {
        Reputation { scores: HashMap::new(), admin, session_bonus }
    }

    fn add(&mut self, addr: u64, delta: i64, reason: &str) -> (r: ReputationUpdated)
        ensures
            final(self)@ == (ReputationView {
                scores: bumped(old(self)@.scores, addr, delta as int),
                ..old(self)@
            }),
            r.addr == addr,
            r.new_score == saturating(score_of(old(self)@.scores, addr) as int, delta as int),
            r.reason@ == reason@,
    {
        let current = match self.scores.get(&addr) {
            Some(s) => *s,
            None => 0,
        };
        let new_score = saturating_add(current, delta);
        self.scores.insert(addr, new_score);
        ReputationUpdated { addr, new_score, reason: String::from_str(reason) }
    }

    /// Awards the session bonus to the mentor, then to the mentee; only the administrator may.
    pub fn bump_after_session(&mut self, caller: u64, mentor: u64, mentee: u64) -> (r: Result<
        (ReputationUpdated, ReputationUpdated),
        ReputationError,
    >)
        ensures
            caller != old(self)@.admin ==> (r matches Err(ReputationError::Unauthorized)
                && final(self)@ == old(self)@),
            caller == old(self)@.admin ==> r is Ok && final(self)@ == (ReputationView {
                scores: bumped(
                    bumped(old(self)@.scores, mentor, old(self)@.session_bonus as int),
                    mentee,
                    old(self)@.session_bonus as int,
                ),
                ..old(self)@
            }),
    {
        if caller != self.admin {
            return Err(ReputationError::Unauthorized);
        }
        let bonus = self.session_bonus;
        let a = self.add(mentor, bonus, "session_completion");
        let b = self.add(mentee, bonus, "session_completion");
        Ok((a, b))
    }

    /// Adds `rating` to the mentor's score; only the administrator may.
    pub fn apply_review(&mut self, caller: u64, mentor: u64, rating: i32) -> (r: Result<
        ReputationUpdated,
        ReputationError,
    >)
        ensures
            caller != old(self)@.admin ==> (r matches Err(ReputationError::Unauthorized)
                && final(self)@ == old(self)@),
            caller == old(self)@.admin ==> r is Ok && final(self)@ == (ReputationView {
                scores: bumped(old(self)@.scores, mentor, rating as int),
                ..old(self)@
            }),
    {
        if caller != self.admin {
            return Err(ReputationError::Unauthorized);
        }
        Ok(self.add(mentor, rating as i64, "review"))
    }

    /// The score of `addr`.
    pub fn get(&self, addr: u64) -> (r: i64)
        ensures
            r == score_of(self@.scores, addr),
    {
        match self.scores.get(&addr) {
            Some(s) => *s,
            None => 0,
        }
    }

    pub fn admin(&self) -> (r: u64)
        ensures
            r == self@.admin,
    {
        self.admin
    }
}

} // verus!
