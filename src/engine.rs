use vstd::prelude::*;

use crate::error::Error;
use crate::fee::{checked_fee, fee_of, lemma_fee_bounds, MAX_FEE_BPS};
use crate::session::{copy_bytes, Session, SessionStatus, SessionStore, SessionView};

verus! {

/// The shortest dispute window that the administrator may configure.
pub const DISPUTE_WINDOW_MIN_SECONDS: u64 = 60;

/// The longest dispute window that the administrator may configure (thirty days).
pub const DISPUTE_WINDOW_MAX_SECONDS: u64 = 2592000;

/// The dispute window in force before the parameters are initialized (one day).
pub const DEFAULT_DISPUTE_WINDOW_SECONDS: u64 = 86400;

/// The schema version written into every new session.
pub const SESSION_VERSION: u32 = 1;

/// Process-wide configuration of the engine.
#[derive(Clone, Copy, Debug, PartialEq, Eq, Structural)]
pub struct Params {
    pub admin: u64,
    pub fee_bps: u32,
    pub treasury: u64,
    pub dispute_window: u64,
}

/// A movement of `amount` units of `asset` from one account to another.
#[derive(Clone, Copy, Debug, PartialEq, Eq, Structural)]
pub struct Transfer {
    pub asset: u64,
    pub from: u64,
    pub to: u64,
    pub amount: i128,
}

/// What a settlement pays out of custody: the payee's share and the platform fee.
#[derive(Clone, Copy, Debug, PartialEq, Eq, Structural)]
pub struct Payout {
    pub asset: u64,
    pub payee: u64,
    pub mentor_share: i128,
    pub treasury: u64,
    pub platform_fee: i128,
}

/// The settlement engine: its parameters and its sessions.
pub struct Engine {
    custody: u64,
    params: Option<Params>,
    store: SessionStore,
}

/// The abstract state of an engine.
pub struct EngineView {
    pub custody: u64,
    pub params: Option<Params>,
    pub sessions: Map<Seq<u8>, SessionView>,
}

impl View for Engine {
    type V = EngineView;

    closed spec fn view(&self) -> EngineView {
        EngineView { custody: self.custody, params: self.params, sessions: self.store@ }
    }
}

pub open spec fn window_ok(seconds: u64) -> bool {
    DISPUTE_WINDOW_MIN_SECONDS <= seconds <= DISPUTE_WINDOW_MAX_SECONDS
}

pub open spec fn params_ok(p: Params, custody: u64) -> bool {
    &&& p.fee_bps <= MAX_FEE_BPS
    &&& window_ok(p.dispute_window)
    &&& p.treasury != custody
}

/// What holds of every stored session: two parties, a positive principal, a capped rate,
/// and a fee that the checked formula can compute.
pub open spec fn session_ok(s: SessionView) -> bool {
    &&& s.payer != s.payee
    &&& s.amount > 0
    &&& s.fee_bps <= MAX_FEE_BPS
    &&& s.amount * s.fee_bps <= i128::MAX
}

/// The invariant of the abstract state.
pub open spec fn engine_ok(v: EngineView) -> bool {
    &&& v.params matches Some(p) ==> params_ok(p, v.custody)
    &&& forall|k: Seq<u8>| #[trigger]
        v.sessions.contains_key(k) ==> {
            &&& v.sessions[k].session_id == k
            &&& session_ok(v.sessions[k])
            &&& v.params is Some
        }
}

/// The dispute window that a lock reads: the configured one, or the default.
pub open spec fn window_of(v: EngineView) -> u64 {
    match v.params {
        Some(p) => p.dispute_window,
        None => DEFAULT_DISPUTE_WINDOW_SECONDS,
    }
}

/// Settlement may proceed once both parties approved, or once the deadline is reached.
pub open spec fn can_settle_spec(s: SessionView, now: u64) -> bool {
    (s.payer_approved && s.payee_approved) || now >= s.dispute_deadline
}

/// The outcome of `lock` on state `v`: the next state and the transfer into custody.
pub open spec fn lock_step(
    v: EngineView,
    id: Seq<u8>,
    payer: u64,
    payee: u64,
    asset: u64,
    amount: i128,
    fee_bps: u32,
    now: u64,
    payer_balance: i128,
) -> (EngineView, Result<Transfer, Error>) {
    if v.sessions.contains_key(id) {
        (v, Err(Error::DuplicateSessionId))
    } else if v.params is None {
        (v, Err(Error::NotInitialized))
    } else if amount <= 0 || payer == payee {
        (v, Err(Error::InvalidAmount))
    } else if fee_bps > MAX_FEE_BPS {
        (v, Err(Error::InvalidFeeBps))
    } else if amount * fee_bps > i128::MAX || amount + fee_of(amount as int, fee_bps as int)
        > i128::MAX {
        (v, Err(Error::TransferError))
    } else if payer_balance < amount + fee_of(amount as int, fee_bps as int) {
        (v, Err(Error::InsufficientBalance))
    } else {
        let total = (amount + fee_of(amount as int, fee_bps as int)) as i128;
        let s = SessionView {
            version: SESSION_VERSION,
            session_id: id,
            payer,
            payee,
            asset,
            amount,
            fee_bps,
            status: SessionStatus::Locked,
            created_at: now,
            updated_at: now,
            dispute_deadline: (now + window_of(v)) as u64,
            payer_approved: false,
            payee_approved: false,
            approved_at: 0,
        };
        (
            EngineView { sessions: v.sessions.insert(id, s), ..v },
            Ok(Transfer { asset, from: payer, to: v.custody, amount: total }),
        )
    }
}

/// The outcome of `approve` on state `v`: the next state and whether both parties have now
/// approved.
pub open spec fn approve_step(v: EngineView, id: Seq<u8>, approver: u64, now: u64) -> (
    EngineView,
    Result<bool, Error>,
) {
    if !v.sessions.contains_key(id) {
        (v, Err(Error::SessionNotFound))
    } else if v.sessions[id].status != SessionStatus::Locked {
        (v, Err(Error::InvalidSessionStatus))
    } else if approver != v.sessions[id].payer && approver != v.sessions[id].payee {
        (v, Err(Error::NotAuthorizedParty))
    } else if (approver == v.sessions[id].payer && v.sessions[id].payer_approved) || (approver
        == v.sessions[id].payee && v.sessions[id].payee_approved) {
        (v, Err(Error::AlreadyApproved))
    } else {
        let s = v.sessions[id];
        let payer_approved = s.payer_approved || approver == s.payer;
        let payee_approved = s.payee_approved || approver == s.payee;
        let both = payer_approved && payee_approved;
        let t = SessionView {
            payer_approved,
            payee_approved,
            updated_at: now,
            approved_at: if both && s.approved_at == 0 {
                now
            } else {
                s.approved_at
            },
            ..s
        };
        (EngineView { sessions: v.sessions.insert(id, t), ..v }, Ok(both))
    }
}

/// The outcome of `settle` on state `v`: the next state and the payout out of custody.
pub open spec fn settle_step(v: EngineView, id: Seq<u8>, now: u64) -> (
    EngineView,
    Result<Payout, Error>,
) {
    if !v.sessions.contains_key(id) {
        (v, Err(Error::SessionNotFound))
    } else if v.sessions[id].status != SessionStatus::Locked {
        (v, Err(Error::InvalidSessionStatus))
    } else if !can_settle_spec(v.sessions[id], now) {
        (v, Err(Error::DisputeWindowNotElapsed))
    } else if v.sessions[id].amount * v.sessions[id].fee_bps > i128::MAX {
        (v, Err(Error::TransferError))
    } else if v.params is None {
        (v, Err(Error::NotInitialized))
    } else {
        let s = v.sessions[id];
        let fee = fee_of(s.amount as int, s.fee_bps as int);
        let payout = Payout {
            asset: s.asset,
            payee: s.payee,
            mentor_share: (s.amount - fee) as i128,
            treasury: v.params->Some_0.treasury,
            platform_fee: fee as i128,
        };
        let t = SessionView { status: SessionStatus::Completed, updated_at: now, ..s };
        (EngineView { sessions: v.sessions.insert(id, t), ..v }, Ok(payout))
    }
}

/// The outcome of a status change by the dispute side: a locked session moves to a terminal
/// status, and nothing else changes.
pub open spec fn status_step(v: EngineView, id: Seq<u8>, status: SessionStatus, now: u64) -> (
    EngineView,
    Result<(), Error>,
) {
    if !v.sessions.contains_key(id) {
        (v, Err(Error::SessionNotFound))
    } else if v.sessions[id].status != SessionStatus::Locked || status == SessionStatus::Locked {
        (v, Err(Error::InvalidSessionStatus))
    } else {
        let t = SessionView { status, updated_at: now, ..v.sessions[id] };
        (EngineView { sessions: v.sessions.insert(id, t), ..v }, Ok(()))
    }
}

/// Whether `session` may be settled at time `now`: both parties approved, or the dispute
/// deadline is reached.
pub fn can_settle(session: &Session, now: u64) -> (r: bool)
    ensures
        r == can_settle_spec(session@, now),
{
    (session.payer_approved && session.payee_approved) || now >= session.dispute_deadline
}

impl Engine {
    pub closed spec fn wf(&self) -> bool {
        self.store.wf() && engine_ok(self@)
    }

    /// An engine with no parameters and no sessions, holding funds in account `custody`.
    pub fn new(custody: u64) -> (r: Engine)
        ensures
            r.wf(),
            r@ == (EngineView {
                custody,
                params: None,
                sessions: Map::<Seq<u8>, SessionView>::empty(),
            }),
    {
        Engine { custody, params: None, store: SessionStore::new() }
    }

    /// The account in which locked funds are held.
    pub fn custody(&self) -> (r: u64)
        ensures
            r == self@.custody,
    {
        self.custody
    }

    /// Sets the parameters once.
    pub fn initialize(&mut self, admin: u64, fee_bps: u32, treasury: u64, dispute_window: u64) -> (r:
        Result<(), Error>)
        requires
            old(self).wf(),
        ensures
            final(self).wf(),
            old(self)@.params is Some ==> r == Err::<(), Error>(Error::AlreadyInitialized),
            old(self)@.params is None && fee_bps > MAX_FEE_BPS ==> r == Err::<(), Error>(
                Error::InvalidFeeBps,
            ),
            old(self)@.params is None && fee_bps <= MAX_FEE_BPS && !window_ok(dispute_window)
                ==> r == Err::<(), Error>(Error::InvalidDisputeWindow),
            old(self)@.params is None && fee_bps <= MAX_FEE_BPS && window_ok(dispute_window)
                && treasury == old(self)@.custody ==> r == Err::<(), Error>(
                Error::InvalidTreasuryAddress,
            ),
            r is Ok <==> old(self)@.params is None && fee_bps <= MAX_FEE_BPS && window_ok(
                dispute_window,
            ) && treasury != old(self)@.custody,
            r is Ok ==> final(self)@ == (EngineView {
                params: Some(Params { admin, fee_bps, treasury, dispute_window }),
                ..old(self)@
            }),
            r is Err ==> final(self)@ == old(self)@,
    {
        if self.params.is_some() {
            return Err(Error::AlreadyInitialized);
        }
        if fee_bps > MAX_FEE_BPS {
            return Err(Error::InvalidFeeBps);
        }
        if dispute_window < DISPUTE_WINDOW_MIN_SECONDS || dispute_window
            > DISPUTE_WINDOW_MAX_SECONDS {
            return Err(Error::InvalidDisputeWindow);
        }
        if treasury == self.custody {
            return Err(Error::InvalidTreasuryAddress);
        }
        self.params = Some(Params { admin, fee_bps, treasury, dispute_window });
        Ok(())
    }

    /// The administrator, once the parameters are set.
    pub fn get_admin(&self) -> (r: Result<u64, Error>)
        ensures
            self@.params matches Some(p) ==> r == Ok::<u64, Error>(p.admin),
            self@.params is None ==> r == Err::<u64, Error>(Error::NotInitialized),
    {
        match self.params {
            Some(p) => Ok(p.admin),
            None => Err(Error::NotInitialized),
        }
    }

    /// The dispute window that the next lock will use.
    pub fn get_dispute_window(&self) -> (r: u64)
        ensures
            r == window_of(self@),
    {
        match self.params {
            Some(p) => p.dispute_window,
            None => DEFAULT_DISPUTE_WINDOW_SECONDS,
        }
    }

    /// The account that receives platform fees, once the parameters are set.
    pub fn get_treasury(&self) -> (r: Result<u64, Error>)
        ensures
            self@.params matches Some(p) ==> r == Ok::<u64, Error>(p.treasury),
            self@.params is None ==> r == Err::<u64, Error>(Error::NotInitialized),
    {
        match self.params {
            Some(p) => Ok(p.treasury),
            None => Err(Error::NotInitialized),
        }
    }

    /// The configured platform fee rate, once the parameters are set.
    pub fn get_fee_bps(&self) -> (r: Result<u32, Error>)
        ensures
            self@.params matches Some(p) ==> r == Ok::<u32, Error>(p.fee_bps),
            self@.params is None ==> r == Err::<u32, Error>(Error::NotInitialized),
    {
        match self.params {
            Some(p) => Ok(p.fee_bps),
            None => Err(Error::NotInitialized),
        }
    }

    /// Changes the dispute window; returns the previous one.
    pub fn set_dispute_window(&mut self, caller: u64, seconds: u64) -> (r: Result<u64, Error>)
        requires
            old(self).wf(),
        ensures
            final(self).wf(),
            old(self)@.params is None ==> r == Err::<u64, Error>(Error::NotInitialized),
            old(self)@.params matches Some(p) ==> {
                &&& caller != p.admin ==> r == Err::<u64, Error>(Error::Unauthorized)
                &&& caller == p.admin && !window_ok(seconds) ==> r == Err::<u64, Error>(
                    Error::InvalidDisputeWindow,
                )
                &&& caller == p.admin && window_ok(seconds) ==> r == Ok::<u64, Error>(
                    p.dispute_window,
                ) && final(self)@ == (EngineView {
                    params: Some(Params { dispute_window: seconds, ..p }),
                    ..old(self)@
                })
            },
            r is Err ==> final(self)@ == old(self)@,
    {
        let p = match self.params {
            Some(p) => p,
            None => return Err(Error::NotInitialized),
        };
        if caller != p.admin {
            return Err(Error::Unauthorized);
        }
        if seconds < DISPUTE_WINDOW_MIN_SECONDS || seconds > DISPUTE_WINDOW_MAX_SECONDS {
            return Err(Error::InvalidDisputeWindow);
        }
        self.params = Some(Params { dispute_window: seconds, ..p });
        Ok(p.dispute_window)
    }

    /// Changes the treasury account; returns the previous one.
    pub fn set_treasury(&mut self, caller: u64, addr: u64) -> (r: Result<u64, Error>)
        requires
            old(self).wf(),
        ensures
            final(self).wf(),
            old(self)@.params is None ==> r == Err::<u64, Error>(Error::NotInitialized),
            old(self)@.params matches Some(p) ==> {
                &&& caller != p.admin ==> r == Err::<u64, Error>(Error::Unauthorized)
                &&& caller == p.admin && addr == old(self)@.custody ==> r == Err::<u64, Error>(
                    Error::InvalidTreasuryAddress,
                )
                &&& caller == p.admin && addr != old(self)@.custody ==> r == Ok::<u64, Error>(
                    p.treasury,
                ) && final(self)@ == (EngineView {
                    params: Some(Params { treasury: addr, ..p }),
                    ..old(self)@
                })
            },
            r is Err ==> final(self)@ == old(self)@,
    {
        let p = match self.params {
            Some(p) => p,
            None => return Err(Error::NotInitialized),
        };
        if caller != p.admin {
            return Err(Error::Unauthorized);
        }
        if addr == self.custody {
            return Err(Error::InvalidTreasuryAddress);
        }
        self.params = Some(Params { treasury: addr, ..p });
        Ok(p.treasury)
    }

    /// Changes the platform fee rate; returns the previous one.
    pub fn set_fee_bps(&mut self, caller: u64, bps: u32) -> (r: Result<u32, Error>)
        requires
            old(self).wf(),
        ensures
            final(self).wf(),
            old(self)@.params is None ==> r == Err::<u32, Error>(Error::NotInitialized),
            old(self)@.params matches Some(p) ==> {
                &&& caller != p.admin ==> r == Err::<u32, Error>(Error::Unauthorized)
                &&& caller == p.admin && bps > MAX_FEE_BPS ==> r == Err::<u32, Error>(
                    Error::InvalidFeeBps,
                )
                &&& caller == p.admin && bps <= MAX_FEE_BPS ==> r == Ok::<u32, Error>(p.fee_bps)
                    && final(self)@ == (EngineView {
                    params: Some(Params { fee_bps: bps, ..p }),
                    ..old(self)@
                })
            },
            r is Err ==> final(self)@ == old(self)@,
    {
        let p = match self.params {
            Some(p) => p,
            None => return Err(Error::NotInitialized),
        };
        if caller != p.admin {
            return Err(Error::Unauthorized);
        }
        if bps > MAX_FEE_BPS {
            return Err(Error::InvalidFeeBps);
        }
        self.params = Some(Params { fee_bps: bps, ..p });
        Ok(p.fee_bps)
    }

    /// The session with identifier `id`, if there is one.
    pub fn get_session(&self, id: &[u8]) -> (r: Option<&Session>)
        requires
            self.wf(),
        ensures
            r is None <==> !self@.sessions.contains_key(id@),
            r matches Some(s) ==> s@ == self@.sessions[id@],
    {
        self.store.get(id)
    }
    /// Creates a locked session and returns the transfer of principal plus fee from the payer
    /// into custody, which the caller must carry out. `payer_balance` is the payer's balance of
    /// `asset`, and `now` the current time.
    pub fn lock(
        &mut self,
        session_id: Vec<u8>,
        payer: u64,
        payee: u64,
        asset: u64,
        amount: i128,
        fee_bps: u32,
        now: u64,
        payer_balance: i128,
    ) -> (r: Result<Transfer, Error>)
        requires
            old(self).wf(),
            now <= u64::MAX - DISPUTE_WINDOW_MAX_SECONDS,
        ensures
            final(self).wf(),
            (final(self)@, r) == lock_step(
                old(self)@,
                session_id@,
                payer,
                payee,
                asset,
                amount,
                fee_bps,
                now,
                payer_balance,
            ),
    {
        if self.store.contains(session_id.as_slice()) {
            return Err(Error::DuplicateSessionId);
        }
        if self.params.is_none() {
            return Err(Error::NotInitialized);
        }
        if amount <= 0 || payer == payee {
            return Err(Error::InvalidAmount);
        }
        if fee_bps > MAX_FEE_BPS {
            return Err(Error::InvalidFeeBps);
        }
        let fee = match checked_fee(amount, fee_bps) {
            Some(f) => f,
            None => return Err(Error::TransferError),
        };
        let total = match amount.checked_add(fee) {
            Some(t) => t,
            None => return Err(Error::TransferError),
        };
        if payer_balance < total {
            return Err(Error::InsufficientBalance);
        }
        let window = self.get_dispute_window();
        let ghost id = session_id@;
        let session = Session {
            version: SESSION_VERSION,
            session_id,
            payer,
            payee,
            asset,
            amount,
            fee_bps,
            status: SessionStatus::Locked,
            created_at: now,
            updated_at: now,
            dispute_deadline: now + window,
            payer_approved: false,
            payee_approved: false,
            approved_at: 0,
        };
        let _ = self.store.insert_if_absent(session);
        let ghost post = lock_step(
            old(self)@,
            id,
            payer,
            payee,
            asset,
            amount,
            fee_bps,
            now,
            payer_balance,
        ).0;
        assert(self@.sessions =~= post.sessions);
        Ok(Transfer { asset, from: payer, to: self.custody, amount: total })
    }

    /// Records the approval of `approver`, who must be the payer or the payee of a locked
    /// session; returns whether both parties have now approved.
    pub fn approve(&mut self, id: &[u8], approver: u64, now: u64) -> (r: Result<bool, Error>)
        requires
            old(self).wf(),
        ensures
            final(self).wf(),
            (final(self)@, r) == approve_step(old(self)@, id@, approver, now),
    {
        let s = match self.store.get(id) {
            Some(s) => s,
            None => return Err(Error::SessionNotFound),
        };
        if s.status != SessionStatus::Locked {
            return Err(Error::InvalidSessionStatus);
        }
        let is_payer = approver == s.payer;
        let is_payee = approver == s.payee;
        if !is_payer && !is_payee {
            return Err(Error::NotAuthorizedParty);
        }
        if (is_payer && s.payer_approved) || (is_payee && s.payee_approved) {
            return Err(Error::AlreadyApproved);
        }
        let payer_approved = s.payer_approved || is_payer;
        let payee_approved = s.payee_approved || is_payee;
        let both = payer_approved && payee_approved;
        let approved_at = if both && s.approved_at == 0 {
            now
        } else {
            s.approved_at
        };
        let t = Session {
            version: s.version,
            session_id: copy_bytes(id),
            payer: s.payer,
            payee: s.payee,
            asset: s.asset,
            amount: s.amount,
            fee_bps: s.fee_bps,
            status: s.status,
            created_at: s.created_at,
            updated_at: now,
            dispute_deadline: s.dispute_deadline,
            payer_approved,
            payee_approved,
            approved_at,
        };
        self.store.replace(t);
        let ghost post = approve_step(old(self)@, id@, approver, now).0;
        assert(self@.sessions =~= post.sessions);
        Ok(both)
    }

    /// Completes a locked session whose parties both approved or whose dispute deadline is
    /// reached; returns the payout that the caller must carry out of custody.
    pub fn settle(&mut self, id: &[u8], now: u64) -> (r: Result<Payout, Error>)
        requires
            old(self).wf(),
        ensures
            final(self).wf(),
            (final(self)@, r) == settle_step(old(self)@, id@, now),
    {
        let s = match self.store.get(id) {
            Some(s) => s,
            None => return Err(Error::SessionNotFound),
        };
        if s.status != SessionStatus::Locked {
            return Err(Error::InvalidSessionStatus);
        }
        if !can_settle(s, now) {
            return Err(Error::DisputeWindowNotElapsed);
        }
        let fee = match checked_fee(s.amount, s.fee_bps) {
            Some(f) => f,
            None => return Err(Error::TransferError),
        };
        let treasury = match self.params {
            Some(p) => p.treasury,
            None => return Err(Error::NotInitialized),
        };
        proof {
            lemma_fee_bounds(s.amount as int, s.fee_bps as int);
        }
        let payout = Payout {
            asset: s.asset,
            payee: s.payee,
            mentor_share: s.amount - fee,
            treasury,
            platform_fee: fee,
        };
        let t = Session {
            version: s.version,
            session_id: copy_bytes(id),
            payer: s.payer,
            payee: s.payee,
            asset: s.asset,
            amount: s.amount,
            fee_bps: s.fee_bps,
            status: SessionStatus::Completed,
            created_at: s.created_at,
            updated_at: now,
            dispute_deadline: s.dispute_deadline,
            payer_approved: s.payer_approved,
            payee_approved: s.payee_approved,
            approved_at: s.approved_at,
        };
        self.store.replace(t);
        let ghost post = settle_step(old(self)@, id@, now).0;
        assert(self@.sessions =~= post.sessions);
        Ok(payout)
    }

    /// Moves a locked session to a terminal status on behalf of the dispute side.
    pub fn update_session_status(&mut self, id: &[u8], status: SessionStatus, now: u64) -> (r:
        Result<(), Error>)
        requires
            old(self).wf(),
        ensures
            final(self).wf(),
            (final(self)@, r) == status_step(old(self)@, id@, status, now),
    {
        let s = match self.store.get(id) {
            Some(s) => s,
            None => return Err(Error::SessionNotFound),
        };
        if s.status != SessionStatus::Locked || status == SessionStatus::Locked {
            return Err(Error::InvalidSessionStatus);
        }
        let t = Session {
            version: s.version,
            session_id: copy_bytes(id),
            payer: s.payer,
            payee: s.payee,
            asset: s.asset,
            amount: s.amount,
            fee_bps: s.fee_bps,
            status,
            created_at: s.created_at,
            updated_at: now,
            dispute_deadline: s.dispute_deadline,
            payer_approved: s.payer_approved,
            payee_approved: s.payee_approved,
            approved_at: s.approved_at,
        };
        self.store.replace(t);
        let ghost post = status_step(old(self)@, id@, status, now).0;
        assert(self@.sessions =~= post.sessions);
        Ok(())
    }
}

} // verus!
