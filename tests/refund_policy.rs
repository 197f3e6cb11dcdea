use skillsync::refund_policy::{Policy, RefundPolicyContract};

const ADMIN: u64 = 9;

fn contract(cutoff_secs: u64, late_bps: u64) -> RefundPolicyContract {
    let mut c = RefundPolicyContract::new();
    c.init(ADMIN, cutoff_secs, late_bps);
    c
}

#[test]
fn test_init() {
    let c = contract(3600, 5000);
    assert_eq!(c.get_admin(), ADMIN);
    let policy = c.get_policy();
    assert_eq!(policy.cutoff_secs, 3600);
    assert_eq!(policy.late_bps, 5000);
    assert!(c.is_initialized());
    assert!(!RefundPolicyContract::new().is_initialized());
}

#[test]
fn test_full_refund_before_cutoff() {
    assert_eq!(contract(3600, 5000).compute_refund(1000, 5000, 1000), 1000);
}

#[test]
fn test_partial_refund_after_cutoff() {
    assert_eq!(contract(3600, 5000).compute_refund(2000, 5000, 1000), 500);
}

#[test]
fn test_no_refund_after_start() {
    assert_eq!(contract(3600, 5000).compute_refund(6000, 5000, 1000), 0);
}

#[test]
fn test_exact_cutoff_boundary() {
    assert_eq!(contract(3600, 5000).compute_refund(1000, 4600, 1000), 500);
}

#[test]
fn test_exact_start_boundary() {
    assert_eq!(contract(3600, 5000).compute_refund(5000, 5000, 1000), 0);
}

#[test]
fn test_set_policy() {
    let mut c = contract(3600, 5000);
    let p = c.set_policy(ADMIN, 7200, 2500);
    assert_eq!(p, Policy { cutoff_secs: 7200, late_bps: 2500 });
    let policy = c.get_policy();
    assert_eq!(policy.cutoff_secs, 7200);
    assert_eq!(policy.late_bps, 2500);
}

#[test]
fn test_zero_late_bps() {
    assert_eq!(contract(3600, 0).compute_refund(2000, 5000, 1000), 0);
}

#[test]
fn test_full_late_bps() {
    assert_eq!(contract(3600, 10000).compute_refund(2000, 5000, 1000), 1000);
}

#[test]
fn late_refund_rounds_down_and_overflow_gives_nothing() {
    let c = contract(100, 3333);
    assert_eq!(c.compute_refund(50, 100, 10), 3);
    assert_eq!(c.compute_refund(50, 100, -10), 0);
    assert_eq!(c.compute_refund(50, 100, i128::MAX), 0);
    assert_eq!(c.compute_refund(0, 101, -10), -10);
}
