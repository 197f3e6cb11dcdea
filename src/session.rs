use vstd::prelude::*;

use crate::error::Error;

verus! {

/// The lifecycle of a session: it starts `Locked` and moves once to a terminal status.
#[derive(Clone, Copy, Debug, PartialEq, Eq, Structural)]
pub enum SessionStatus {
    Locked,
    Completed,
    Disputed,
    Cancelled,
}

/// One custodial engagement between a payer and a payee.
#[derive(Debug)]
pub struct Session {
    pub version: u32,
    pub session_id: Vec<u8>,
    pub payer: u64,
    pub payee: u64,
    pub asset: u64,
    pub amount: i128,
    pub fee_bps: u32,
    pub status: SessionStatus,
    pub created_at: u64,
    pub updated_at: u64,
    pub dispute_deadline: u64,
    pub payer_approved: bool,
    pub payee_approved: bool,
    pub approved_at: u64,
}

/// The mathematical value of a `Session`: its identifier as a byte sequence.
pub struct SessionView {
    pub version: u32,
    pub session_id: Seq<u8>,
    pub payer: u64,
    pub payee: u64,
    pub asset: u64,
    pub amount: i128,
    pub fee_bps: u32,
    pub status: SessionStatus,
    pub created_at: u64,
    pub updated_at: u64,
    pub dispute_deadline: u64,
    pub payer_approved: bool,
    pub payee_approved: bool,
    pub approved_at: u64,
}

impl View for Session {
    type V = SessionView;

    open spec fn view(&self) -> SessionView {
        SessionView {
            version: self.version,
            session_id: self.session_id@,
            payer: self.payer,
            payee: self.payee,
            asset: self.asset,
            amount: self.amount,
            fee_bps: self.fee_bps,
            status: self.status,
            created_at: self.created_at,
            updated_at: self.updated_at,
            dispute_deadline: self.dispute_deadline,
            payer_approved: self.payer_approved,
            payee_approved: self.payee_approved,
            approved_at: self.approved_at,
        }
    }
}

/// Compares two byte strings.
pub fn bytes_eq(a: &[u8], b: &[u8]) -> (r: bool)
    ensures
        r == (a@ == b@),
{
    if a.len() != b.len() {
        return false;
    }
    let mut i: usize = 0;
    while i < a.len()
        invariant
            a@.len() == b@.len(),
            0 <= i <= a@.len(),
            forall|j: int| 0 <= j < i ==> a@[j] == b@[j],
        decreases a@.len() - i,
    {
        if a[i] != b[i] {
            return false;
        }
        i = i + 1;
    }
    assert(a@ =~= b@);
    true
}

/// Copies a byte string into a fresh vector.
pub fn copy_bytes(b: &[u8]) -> (r: Vec<u8>)
    ensures
        r@ == b@,
{
    let mut r: Vec<u8> = Vec::new();
    let mut i: usize = 0;
    while i < b.len()
        invariant
            0 <= i <= b@.len(),
            r@ == b@.subrange(0, i as int),
        decreases b@.len() - i,
    {
        r.push(b[i]);
        i = i + 1;
        assert(r@ =~= b@.subrange(0, i as int));
    }
    assert(b@.subrange(0, b@.len() as int) =~= b@);
    r
}

/// A map from session identifier to session, with at most one session per identifier.
pub struct SessionStore {
    sessions: Vec<Session>,
    contents: Ghost<Map<Seq<u8>, SessionView>>,
}

impl View for SessionStore {
    type V = Map<Seq<u8>, SessionView>;

    closed spec fn view(&self) -> Map<Seq<u8>, SessionView> {
        self.contents@
    }
}

impl SessionStore {
    /// The stored vector and the map agree, and no identifier occurs twice.
    pub closed spec fn wf(&self) -> bool {
        &&& forall|i: int|
            0 <= i < self.sessions@.len() ==> #[trigger] self.contents@.contains_key(
                self.sessions@[i].session_id@,
            )
        &&& forall|i: int|
            0 <= i < self.sessions@.len() ==> self.contents@[#[trigger] self.sessions@[i].session_id@]
                == self.sessions@[i]@
        &&& forall|k: Seq<u8>| #[trigger]
            self.contents@.contains_key(k) ==> exists|i: int|
                0 <= i < self.sessions@.len() && #[trigger] self.sessions@[i].session_id@ == k
        &&& forall|i: int, j: int|
            0 <= i < j < self.sessions@.len() ==> self.sessions@[i].session_id@
                != self.sessions@[j].session_id@
    }

    /// An empty store.
    pub fn new() -> (r: SessionStore)
        ensures
            r.wf(),
            r@ == Map::<Seq<u8>, SessionView>::empty(),
    {
        SessionStore { sessions: Vec::new(), contents: Ghost(Map::empty()) }
    }

    /// The position of the session with identifier `id`, if there is one.
    fn find(&self, id: &[u8]) -> (r: Option<usize>)
        requires
            self.wf(),
        ensures
            r is None <==> !self@.contains_key(id@),
            r matches Some(i) ==> i < self.sessions@.len() && self.sessions@[i as int].session_id@
                == id@,
    {
        let mut i: usize = 0;
        while i < self.sessions.len()
            invariant
                self.wf(),
                0 <= i <= self.sessions@.len(),
                forall|j: int| 0 <= j < i ==> self.sessions@[j].session_id@ != id@,
            decreases self.sessions@.len() - i,
        {
            if bytes_eq(self.sessions[i].session_id.as_slice(), id) {
                return Some(i);
            }
            i = i + 1;
        }
        proof {
            if self@.contains_key(id@) {
                let k = id@;
                assert(self.contents@.contains_key(k));
                let j = choose|j: int|
                    0 <= j < self.sessions@.len() && #[trigger] self.sessions@[j].session_id@ == k;
                assert(self.sessions@[j].session_id@ != id@);
            }
        }
        None
    }

    /// Whether a session with identifier `id` is stored.
    pub fn contains(&self, id: &[u8]) -> (r: bool)
        requires
            self.wf(),
        ensures
            r == self@.contains_key(id@),
    {
        self.find(id).is_some()
    }

    /// The session with identifier `id`, if there is one.
    pub fn get(&self, id: &[u8]) -> (r: Option<&Session>)
        requires
            self.wf(),
        ensures
            r is None <==> !self@.contains_key(id@),
            r matches Some(s) ==> s@ == self@[id@],
    {
        match self.find(id) {
            Some(i) => Some(&self.sessions[i]),
            None => None,
        }
    }

    /// Stores `s` unless a session with its identifier is already stored.
    ///
    /// The existence check and the write are one step: nothing can come between them.
    pub fn insert_if_absent(&mut self, s: Session) -> (r: Result<(), Error>)
        requires
            old(self).wf(),
        ensures
            final(self).wf(),
            old(self)@.contains_key(s.session_id@) ==> r == Err::<(), Error>(
                Error::DuplicateSessionId,
            ) && final(self)@ == old(self)@,
            !old(self)@.contains_key(s.session_id@) ==> r is Ok && final(self)@ == old(self)@.insert(
                s.session_id@,
                s@,
            ),
    {
        if self.find(s.session_id.as_slice()).is_some() {
            return Err(Error::DuplicateSessionId);
        }
        let ghost old_sessions = self.sessions@;
        let ghost old_map = self.contents@;
        let ghost key = s.session_id@;
        let ghost sv = s@;
        self.sessions.push(s);
        self.contents = Ghost(old_map.insert(key, sv));
        assert forall|k: Seq<u8>| #[trigger] self.contents@.contains_key(k) implies exists|i: int|
            0 <= i < self.sessions@.len() && #[trigger] self.sessions@[i].session_id@ == k by {
            if k == key {
                assert(self.sessions@[old_sessions.len() as int].session_id@ == k);
            } else {
                assert(old_map.contains_key(k));
                let j = choose|j: int|
                    0 <= j < old_sessions.len() && #[trigger] old_sessions[j].session_id@ == k;
                assert(self.sessions@[j].session_id@ == k);
            }
        }
        assert forall|i: int|
            0 <= i < self.sessions@.len() implies self.contents@[#[trigger] self.sessions@[i].session_id@]
            == self.sessions@[i]@ by {
            if i < old_sessions.len() {
                assert(self.sessions@[i] == old_sessions[i]);
                assert(old_map.contains_key(old_sessions[i].session_id@));
            }
        }
        Ok(())
    }

    /// Overwrites the stored session that has the identifier of `s`.
    pub fn replace(&mut self, s: Session)
        requires
            old(self).wf(),
            old(self)@.contains_key(s.session_id@),
        ensures
            final(self).wf(),
            final(self)@ == old(self)@.insert(s.session_id@, s@),
    {
        let i = self.find(s.session_id.as_slice()).unwrap();
        let ghost old_sessions = self.sessions@;
        let ghost old_map = self.contents@;
        let ghost key = s.session_id@;
        let ghost sv = s@;
        self.sessions.set(i, s);
        self.contents = Ghost(old_map.insert(key, sv));
        assert forall|k: Seq<u8>| #[trigger] self.contents@.contains_key(k) implies exists|j: int|
            0 <= j < self.sessions@.len() && #[trigger] self.sessions@[j].session_id@ == k by {
            if k == key {
                assert(self.sessions@[i as int].session_id@ == k);
            } else {
                assert(old_map.contains_key(k));
                let j = choose|j: int|
                    0 <= j < old_sessions.len() && #[trigger] old_sessions[j].session_id@ == k;
                assert(self.sessions@[j].session_id@ == k);
            }
        }
        assert forall|j: int|
            0 <= j < self.sessions@.len() implies self.contents@[#[trigger] self.sessions@[j].session_id@]
            == self.sessions@[j]@ by {
            if j != i {
                assert(self.sessions@[j] == old_sessions[j]);
                assert(old_map.contains_key(old_sessions[j].session_id@));
            }
        }
        assert forall|a: int, b: int|
            0 <= a < b < self.sessions@.len() implies self.sessions@[a].session_id@
            != self.sessions@[b].session_id@ by {
            assert(old_sessions[a].session_id@ != old_sessions[b].session_id@);
        }
    }
}

} // verus!
