use std::collections::HashMap;
use vstd::prelude::*;

verus! {

broadcast use vstd::std_specs::hash::group_hash_axioms;

/// A notice that a booking was marked completed.
#[derive(Clone, Copy, Debug, PartialEq, Eq, Structural)]
pub struct SessionCompleted {
    pub booking_id: u64,
}

#[derive(Clone, Copy, Debug, PartialEq, Eq, Structural)]
pub enum SessionGateError {
    Unauthorized,
    AlreadyCompleted,
}

/// Records, once per booking, that its session was completed.
pub struct SessionGate {
    completed: HashMap<u64, bool>,
    admin: u64,
}

/// The abstract state: the completed bookings and the administrator.
pub struct SessionGateView {
    pub completed: Set<u64>,
    pub admin: u64,
}

impl View for SessionGate {
    type V = SessionGateView;

    closed spec fn view(&self) -> SessionGateView {
        SessionGateView {
            completed: Set::new(|b: u64| self.completed@.contains_key(b) && self.completed@[b]),
            admin: self.admin,
        }
    }
}

impl SessionGate {
    /// A gate administered by `admin`, with no completed booking.
    pub fn new(admin: u64) -> (r: SessionGate)
        ensures
            r@.completed == Set::<u64>::empty(),
            r@.admin == admin,
    {
        let mut completed: HashMap<u64, bool> = HashMap::new();
        completed.insert(admin, false);
        let r = SessionGate { completed, admin };
        assert(r@.completed =~= Set::<u64>::empty());
        r
    }

    /// Whether `booking_id` was marked completed.
    pub fn is_completed(&self, booking_id: u64) -> (r: bool)
        ensures
            r == self@.completed.contains(booking_id),
    {
        match self.completed.get(&booking_id) {
            Some(c) => *c,
            None => false,
        }
    }

    /// Marks `booking_id` completed; only the administrator may, and only once.
    pub fn set_completed(&mut self, caller: u64, booking_id: u64) -> (r: Result<
        SessionCompleted,
        SessionGateError,
    >)
        ensures
            caller != old(self)@.admin ==> r == Err::<SessionCompleted, SessionGateError>(
                SessionGateError::Unauthorized,
            ),
            caller == old(self)@.admin && old(self)@.completed.contains(booking_id) ==> r == Err::<
                SessionCompleted,
                SessionGateError,
            >(SessionGateError::AlreadyCompleted),
            caller == old(self)@.admin && !old(self)@.completed.contains(booking_id) ==> r == Ok::<
                SessionCompleted,
                SessionGateError,
            >(SessionCompleted { booking_id }) && final(self)@ == (SessionGateView {
                completed: old(self)@.completed.insert(booking_id),
                ..old(self)@
            }),
            r is Err ==> final(self)@ == old(self)@,
    {
        if caller != self.admin {
            return Err(SessionGateError::Unauthorized);
        }
        if self.is_completed(booking_id) {
            return Err(SessionGateError::AlreadyCompleted);
        }
        let ghost before = self@.completed;
        self.completed.insert(booking_id, true);
        assert(self@.completed =~= before.insert(booking_id));
        Ok(SessionCompleted { booking_id })
    }

    pub fn admin(&self) -> (r: u64)
        ensures
            r == self@.admin,
    {
        self.admin
    }

    /// Hands the administrator role to `new_admin`; only the administrator may.
    pub fn transfer_admin(&mut self, caller: u64, new_admin: u64) -> (r: Result<(), SessionGateError>)
        ensures
            caller != old(self)@.admin ==> r == Err::<(), SessionGateError>(
                SessionGateError::Unauthorized,
            ) && final(self)@ == old(self)@,
            caller == old(self)@.admin ==> r is Ok && final(self)@ == (SessionGateView {
                admin: new_admin,
                ..old(self)@
            }),
    {
        if caller != self.admin {
            return Err(SessionGateError::Unauthorized);
        }
        self.admin = new_admin;
        assert(self@.completed =~= old(self)@.completed);
        Ok(())
    }
}

} // verus!
