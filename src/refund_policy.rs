use vstd::prelude::*;

verus! {

/// How much of a booking is refunded on cancellation: everything when cancelled more than
/// `cutoff_secs` before the start, `late_bps` basis points of it after that, nothing once the
/// session has started.
#[derive(Clone, Copy, Debug, PartialEq, Eq, Structural)]
pub struct Policy {
    pub cutoff_secs: u64,
    pub late_bps: u64,
}

/// Holds the administrator and the refund policy.
pub struct RefundPolicyContract {
    admin: Option<u64>,
    policy: Option<Policy>,
}

/// The refund of `amount` for a cancellation at `now` of a session that starts at
/// `session_start`. A late refund whose product overflows 128 bits, or of a negative amount,
/// is zero.
pub open spec fn refund_of(p: Policy, now: u64, session_start: u64, amount: i128) -> i128 {
    if now >= session_start {
        0
    } else if session_start - now > p.cutoff_secs {
        amount
    } else if amount < 0 || amount * p.late_bps > u128::MAX {
        0
    } else {
        ((amount * p.late_bps) / 10000) as i128
    }
}

impl RefundPolicyContract {
    pub closed spec fn admin_spec(&self) -> Option<u64> {
        self.admin
    }

    pub closed spec fn policy_spec(&self) -> Option<Policy> {
        self.policy
    }

    /// A contract with no administrator and no policy yet.
    pub fn new() -> (r: RefundPolicyContract)
        ensures
            r.admin_spec() is None,
            r.policy_spec() is None,
    {
        RefundPolicyContract { admin: None, policy: None }
    }

    /// Whether the administrator and the policy are set.
    pub fn is_initialized(&self) -> (r: bool)
        ensures
            r == (self.admin_spec() is Some && self.policy_spec() is Some),
    {
        self.admin.is_some() && self.policy.is_some()
    }

    /// Sets the administrator and the policy; returns the policy set.
    pub fn init(&mut self, admin: u64, cutoff_secs: u64, late_bps: u64) -> (r: Policy)
        requires
            late_bps <= 10000,
        ensures
            r == (Policy { cutoff_secs, late_bps }),
            final(self).admin_spec() == Some(admin),
            final(self).policy_spec() == Some(r),
    {
        let policy = Policy { cutoff_secs, late_bps };
        self.admin = Some(admin);
        self.policy = Some(policy);
        policy
    }

    /// Replaces the policy; only the administrator may. Returns the policy set.
    pub fn set_policy(&mut self, caller: u64, cutoff_secs: u64, late_bps: u64) -> (r: Policy)
        requires
            old(self).admin_spec() == Some(caller),
            late_bps <= 10000,
        ensures
            r == (Policy { cutoff_secs, late_bps }),
            final(self).admin_spec() == old(self).admin_spec(),
            final(self).policy_spec() == Some(r),
    {
        let policy = Policy { cutoff_secs, late_bps };
        self.policy = Some(policy);
        policy
    }

    /// The refund of `amount` for a cancellation at `now` of a session starting at
    /// `session_start`.
    pub fn compute_refund(&self, now: u64, session_start: u64, amount: i128) -> (r: i128)
        requires
            self.policy_spec() is Some,
        ensures
            r == refund_of(self.policy_spec()->Some_0, now, session_start, amount),
    {
        let policy = match self.policy {
            Some(p) => p,
            None => Policy { cutoff_secs: 0, late_bps: 0 },
        };
        if now >= session_start {
            return 0;
        }
        let time_until_start = session_start - now;
        if time_until_start > policy.cutoff_secs {
            return amount;
        }
        if amount < 0 {
            return 0;
        }
        match (amount as u128).checked_mul(policy.late_bps as u128) {
            Some(x) => {
                let refund = x / 10000;
                assert(refund <= x);
                proof {
                    assert(x / 10000 <= u128::MAX / 10000);
                }
                refund as i128
            },
            None => 0,
        }
    }

    /// The administrator.
    pub fn get_admin(&self) -> (r: u64)
        requires
            self.admin_spec() is Some,
        ensures
            r == self.admin_spec()->Some_0,
    {
        match self.admin {
            Some(a) => a,
            None => 0,
        }
    }

    /// The policy.
    pub fn get_policy(&self) -> (r: Policy)
        requires
            self.policy_spec() is Some,
        ensures
            r == self.policy_spec()->Some_0,
    {
        match self.policy {
            Some(p) => p,
            None => Policy { cutoff_secs: 0, late_bps: 0 },
        }
    }
}

} // verus!
