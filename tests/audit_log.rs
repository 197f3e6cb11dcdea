use skillsync::audit_log::{AuditError, AuditLogContract};

const ADMIN: u64 = 1;
const WRITER: u64 = 2;
const RANDOM: u64 = 3;

fn log() -> AuditLogContract {
    let mut l = AuditLogContract::new();
    l.init(ADMIN).unwrap();
    l
}

#[test]
fn test_append_and_get() {
    let mut l = log();
    let data = b"{\"action\":\"opened\"}".to_vec();
    let idx = l.append(ADMIN, "DISPUTE".to_string(), 100, data.clone(), 7).unwrap();
    assert_eq!(idx, 0);
    let entry = l.get(0).unwrap();
    assert_eq!(entry.topic, "DISPUTE");
    assert_eq!(entry.ref_id, 100);
    assert_eq!(entry.data, data);
    assert_eq!(entry.ts, 7);
}

#[test]
fn test_range() {
    let mut l = log();
    for i in 0..5u64 {
        l.append(ADMIN, "PAYOUT".to_string(), i, b"{}".to_vec(), 0).unwrap();
    }
    let entries = l.range(1, 3);
    assert_eq!(entries.len(), 3);
    assert_eq!(entries[0].ref_id, 1);
    assert_eq!(entries[2].ref_id, 3);
    assert_eq!(l.range(4, 10).len(), 1);
    assert_eq!(l.range(9, 10).len(), 0);
}

#[test]
fn test_by_topic() {
    let mut l = log();
    for (topic, id) in [("DISPUTE", 1), ("PAYOUT", 2), ("DISPUTE", 3), ("PAYOUT", 4), ("DISPUTE", 5)] {
        l.append(ADMIN, topic.to_string(), id, b"{}".to_vec(), 0).unwrap();
    }
    let disputes = l.by_topic("DISPUTE", 0, 10);
    assert_eq!(disputes.len(), 3);
    let payouts = l.by_topic("PAYOUT", 0, 10);
    assert_eq!(payouts.len(), 2);
    let second_page: Vec<u64> = l.by_topic("DISPUTE", 1, 2).iter().map(|e| e.ref_id).collect();
    assert_eq!(second_page, vec![5]);
}

#[test]
fn unauthorized_append_is_refused() {
    let mut l = log();
    assert_eq!(
        l.append(RANDOM, "DISPUTE".to_string(), 1, b"{}".to_vec(), 0),
        Err(AuditError::Unauthorized)
    );
    assert_eq!(l.count(), 0);
}

#[test]
fn test_add_remove_writer() {
    let mut l = log();
    l.add_writer(ADMIN, WRITER).unwrap();
    assert!(l.is_writer(WRITER));
    l.append(WRITER, "POLICY".to_string(), 1, b"{}".to_vec(), 0).unwrap();
    l.remove_writer(ADMIN, WRITER).unwrap();
    assert!(!l.is_writer(WRITER));
    assert_eq!(l.add_writer(RANDOM, WRITER), Err(AuditError::Unauthorized));
    assert_eq!(l.get(5).map(|e| e.ref_id), Err(AuditError::EntryNotFound));
    assert_eq!(l.count(), 1);
}
