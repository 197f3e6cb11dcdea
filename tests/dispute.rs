use skillsync::dispute::{DisputeContract, DisputeOutcome, DisputeStatus};
use skillsync::events::DisputeResolved;

const ADMIN: u64 = 1;
const MENTOR: u64 = 2;
const MENTEE: u64 = 3;

#[test]
fn test_raise_dispute() {
    let mut c = DisputeContract::new();
    c.initialize(ADMIN);
    c.raise(1, MENTOR, 10);
    let dispute = c.get(1).unwrap();
    assert_eq!(dispute.status, DisputeStatus::Open);
    assert_eq!(dispute.raiser, MENTOR);
    assert_eq!(dispute.opened_at, 10);
    assert!(c.is_frozen(1));
    assert!(c.has_dispute(1));
}

#[test]
fn test_resolve_dispute_mentor_wins() {
    let mut c = DisputeContract::new();
    c.initialize(ADMIN);
    c.raise(1, MENTOR, 0);
    let e = c.resolve(ADMIN, 1, DisputeOutcome::MentorWins, None);
    assert_eq!(e, DisputeResolved { booking_id: 1, resolution: 0 });
    let dispute = c.get(1).unwrap();
    assert_eq!(dispute.status, DisputeStatus::Resolved);
    assert_eq!(dispute.outcome, Some(DisputeOutcome::MentorWins));
    assert!(!c.is_frozen(1));
}

#[test]
fn test_resolve_dispute_mentee_wins() {
    let mut c = DisputeContract::new();
    c.initialize(ADMIN);
    c.raise(1, MENTEE, 0);
    let e = c.resolve(ADMIN, 1, DisputeOutcome::MenteeWins, Some("Service not delivered".to_string()));
    assert_eq!(e.resolution, 1);
    let dispute = c.get(1).unwrap();
    assert_eq!(dispute.status, DisputeStatus::Resolved);
    assert_eq!(dispute.outcome, Some(DisputeOutcome::MenteeWins));
    assert_eq!(dispute.reason, Some("Service not delivered".to_string()));
}

#[test]
fn test_no_dispute_returns_none() {
    let mut c = DisputeContract::new();
    c.initialize(ADMIN);
    assert!(c.get(999).is_none());
    assert!(!c.is_frozen(999));
    assert!(!c.has_dispute(999));
}
