use skillsync::earnings::{CreditRecord, EarningsContract};
use skillsync::release_auth::{ReleaseAuth, ReleaseAuthError};
use skillsync::reputation::{Reputation, ReputationError};
use skillsync::session_gate::{SessionCompleted, SessionGate, SessionGateError};

const ADMIN: u64 = 1;
const MENTOR: u64 = 2;
const MENTEE: u64 = 3;
const TOKEN: u64 = 4;

fn signature_of(pubkey: [u8; 32]) -> [u8; 65] {
    let mut sig = [0u8; 65];
    sig[0..32].copy_from_slice(&pubkey);
    sig[32] = 1;
    sig[64] = 27;
    sig
}

#[test]
fn session_gate_marks_once() {
    let mut g = SessionGate::new(ADMIN);
    assert!(!g.is_completed(7));
    assert!(!g.is_completed(ADMIN));
    assert_eq!(g.set_completed(MENTOR, 7), Err(SessionGateError::Unauthorized));
    assert_eq!(g.set_completed(ADMIN, 7), Ok(SessionCompleted { booking_id: 7 }));
    assert!(g.is_completed(7));
    assert_eq!(g.set_completed(ADMIN, 7), Err(SessionGateError::AlreadyCompleted));
    assert_eq!(g.transfer_admin(MENTOR, MENTOR), Err(SessionGateError::Unauthorized));
    assert_eq!(g.transfer_admin(ADMIN, MENTOR), Ok(()));
    assert_eq!(g.admin(), MENTOR);
    assert!(g.is_completed(7));
}

#[test]
fn reputation_bumps_and_reviews() {
    let mut r = Reputation::new(ADMIN, 10);
    assert_eq!(r.get(MENTOR), 0);
    let (a, b) = r.bump_after_session(ADMIN, MENTOR, MENTEE).unwrap();
    assert_eq!((a.addr, a.new_score, a.reason.as_str()), (MENTOR, 10, "session_completion"));
    assert_eq!((b.addr, b.new_score), (MENTEE, 10));
    let e = r.apply_review(ADMIN, MENTOR, -25).unwrap();
    assert_eq!((e.new_score, e.reason.as_str()), (-15, "review"));
    assert!(matches!(r.apply_review(MENTOR, MENTOR, 5), Err(ReputationError::Unauthorized)));
    assert_eq!(r.get(MENTOR), -15);
    assert_eq!(r.admin(), ADMIN);
}

#[test]
fn reputation_saturates() {
    let mut r = Reputation::new(ADMIN, i64::MAX);
    r.bump_after_session(ADMIN, MENTOR, MENTEE).unwrap();
    r.bump_after_session(ADMIN, MENTOR, MENTEE).unwrap();
    assert_eq!(r.get(MENTOR), i64::MAX);
    let mut low = Reputation::new(ADMIN, i64::MIN);
    low.bump_after_session(ADMIN, MENTOR, MENTOR).unwrap();
    assert_eq!(low.get(MENTOR), i64::MIN);
}

#[test]
fn release_auth_signers_and_nonces() {
    let mut a = ReleaseAuth::new(ADMIN);
    let key = [7u8; 32];
    let other = [9u8; 32];
    assert!(matches!(a.add_signer(MENTOR, key), Err(ReleaseAuthError::Unauthorized)));
    a.add_signer(ADMIN, key).unwrap();
    assert!(matches!(a.add_signer(ADMIN, key), Err(ReleaseAuthError::SignerAlreadyExists)));
    a.add_signer(ADMIN, other).unwrap();
    assert_eq!(a.get_signer_count(), 2);
    assert!(a.is_signer_authorized(key));

    let e = a.authorize(1, MENTEE, MENTOR, 500, TOKEN, 42, signature_of(key)).unwrap();
    assert_eq!((e.booking_id, e.mentor, e.signer), (1, MENTOR, key));
    assert!(a.is_nonce_used(42));
    assert!(matches!(
        a.authorize(1, MENTEE, MENTOR, 500, TOKEN, 42, signature_of(key)),
        Err(ReleaseAuthError::NonceAlreadyUsed)
    ));
    assert!(matches!(
        a.authorize(1, MENTEE, MENTOR, 500, TOKEN, 43, signature_of([1u8; 32])),
        Err(ReleaseAuthError::SignerNotFound)
    ));
    assert!(!a.is_nonce_used(43));

    a.remove_signer(ADMIN, key).unwrap();
    assert!(!a.is_signer_authorized(key));
    assert!(a.is_signer_authorized(other));
    assert_eq!(a.get_signer_count(), 1);
    assert!(matches!(a.remove_signer(ADMIN, key), Err(ReleaseAuthError::SignerNotFound)));
    assert!(matches!(a.transfer_admin(MENTOR, MENTOR), Err(ReleaseAuthError::Unauthorized)));
    a.transfer_admin(ADMIN, MENTOR).unwrap();
    assert_eq!(a.get_admin(), MENTOR);
}

#[test]
fn earnings_credit_and_history() {
    let mut e = EarningsContract::new();
    assert!(!e.has_escrow());
    e.initialize(ADMIN);
    assert_eq!(e.escrow(), Some(ADMIN));
    for i in 0..5u64 {
        let r = e.credit(ADMIN, MENTOR, TOKEN, 100, i, 1000 + i);
        assert_eq!(r, CreditRecord { amount: 100, booking_id: i, ts: 1000 + i });
    }
    assert_eq!(e.available(MENTOR, TOKEN), 500);
    assert_eq!(e.available(MENTEE, TOKEN), 0);
    let page: Vec<u64> = e.history(MENTOR, TOKEN, 1, 2).iter().map(|r| r.booking_id).collect();
    assert_eq!(page, vec![2, 3]);
    assert_eq!(e.history(MENTOR, TOKEN, 2, 2).len(), 1);
    assert_eq!(e.history(MENTOR, TOKEN, 3, 2).len(), 0);
    assert_eq!(e.history(MENTEE, TOKEN, 0, 10).len(), 0);
}
