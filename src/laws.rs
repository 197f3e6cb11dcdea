use vstd::prelude::*;

use crate::engine::{
    approve_step, can_settle_spec, engine_ok, lock_step, settle_step, EngineView, Payout,
};
use crate::error::Error;
use crate::fee::{fee_of, lemma_fee_bounds};
use crate::session::SessionStatus;

verus! {

/// Once a lock with identifier `id` succeeded, every later lock with the same identifier fails
/// with `DuplicateSessionId` and changes nothing, whatever its other arguments.
pub proof fn law_lock_unique(
    v: EngineView,
    id: Seq<u8>,
    payer: u64,
    payee: u64,
    asset: u64,
    amount: i128,
    fee_bps: u32,
    now: u64,
    balance: i128,
    payer2: u64,
    payee2: u64,
    asset2: u64,
    amount2: i128,
    fee_bps2: u32,
    now2: u64,
    balance2: i128,
)
    requires
        lock_step(v, id, payer, payee, asset, amount, fee_bps, now, balance).1 is Ok,
    ensures
        ({
            let v1 = lock_step(v, id, payer, payee, asset, amount, fee_bps, now, balance).0;
            lock_step(v1, id, payer2, payee2, asset2, amount2, fee_bps2, now2, balance2) == (
                v1,
                Err::<crate::engine::Transfer, Error>(Error::DuplicateSessionId),
            )
        }),
{
}

/// A successful settlement pays out exactly the locked principal: the payee's share and the
/// platform fee add up to it, and the fee lies between zero and the principal.
pub proof fn law_settle_conserves(v: EngineView, id: Seq<u8>, now: u64)
    requires
        engine_ok(v),
        settle_step(v, id, now).1 is Ok,
    ensures
        ({
            let p: Payout = settle_step(v, id, now).1->Ok_0;
            &&& p.mentor_share + p.platform_fee == v.sessions[id].amount
            &&& 0 <= p.platform_fee <= v.sessions[id].amount
            &&& p.platform_fee == fee_of(v.sessions[id].amount as int, v.sessions[id].fee_bps as int)
        }),
{
    assert(v.sessions.contains_key(id));
    lemma_fee_bounds(v.sessions[id].amount as int, v.sessions[id].fee_bps as int);
}

/// Without both approvals, a settlement before the dispute deadline fails with
/// `DisputeWindowNotElapsed` and changes nothing; one after the deadline succeeds.
pub proof fn law_window_gating(v: EngineView, id: Seq<u8>, now: u64)
    requires
        engine_ok(v),
        v.sessions.contains_key(id),
        v.sessions[id].status == SessionStatus::Locked,
        !(v.sessions[id].payer_approved && v.sessions[id].payee_approved),
    ensures
        now < v.sessions[id].dispute_deadline ==> settle_step(v, id, now) == (
            v,
            Err::<Payout, Error>(Error::DisputeWindowNotElapsed),
        ),
        now > v.sessions[id].dispute_deadline ==> settle_step(v, id, now).1 is Ok,
{
}

/// Once both parties approved a locked session, settlement succeeds at any time.
pub proof fn law_consent_bypass(v: EngineView, id: Seq<u8>, now: u64)
    requires
        engine_ok(v),
        v.sessions.contains_key(id),
        v.sessions[id].status == SessionStatus::Locked,
        v.sessions[id].payer_approved,
        v.sessions[id].payee_approved,
    ensures
        can_settle_spec(v.sessions[id], now),
        settle_step(v, id, now).1 is Ok,
        settle_step(v, id, now).0.sessions[id].status == SessionStatus::Completed,
{
}

/// A party that approved once gets `AlreadyApproved` on a second approval, which changes
/// nothing; the first approval left the other party's flag as it was.
pub proof fn law_approve_once(v: EngineView, id: Seq<u8>, party: u64, now1: u64, now2: u64)
    requires
        engine_ok(v),
        approve_step(v, id, party, now1).1 is Ok,
    ensures
        ({
            let v1 = approve_step(v, id, party, now1).0;
            &&& approve_step(v1, id, party, now2) == (v1, Err::<bool, Error>(Error::AlreadyApproved))
            &&& party == v.sessions[id].payer ==> v1.sessions[id].payee_approved
                == v.sessions[id].payee_approved
            &&& party == v.sessions[id].payee ==> v1.sessions[id].payer_approved
                == v.sessions[id].payer_approved
        }),
{
    assert(v.sessions.contains_key(id));
}

/// A session that is no longer locked refuses approval and settlement with
/// `InvalidSessionStatus`, and neither call changes the state.
pub proof fn law_terminal_immutable(v: EngineView, id: Seq<u8>, approver: u64, now: u64)
    requires
        v.sessions.contains_key(id),
        v.sessions[id].status != SessionStatus::Locked,
    ensures
        approve_step(v, id, approver, now) == (v, Err::<bool, Error>(Error::InvalidSessionStatus)),
        settle_step(v, id, now) == (v, Err::<Payout, Error>(Error::InvalidSessionStatus)),
{
}

} // verus!
