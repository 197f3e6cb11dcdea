use std::collections::HashMap;
use vstd::prelude::*;

use crate::keys::{pair_key, pair_key_spec};

verus! {

broadcast use vstd::std_specs::hash::group_hash_axioms;

/// A notice that a mentor staked `amount` of `token`.
#[derive(Clone, Copy, Debug, PartialEq, Eq, Structural)]
pub struct Staked {
    pub mentor: u64,
    pub token: u64,
    pub amount: u128,
}

/// A notice that a mentor asked to unstake `amount`, which unlocks at block `unlock_at`.
#[derive(Clone, Copy, Debug, PartialEq, Eq, Structural)]
pub struct UnstakeRequested {
    pub mentor: u64,
    pub token: u64,
    pub amount: u128,
    pub unlock_at: u32,
}

/// A notice that a mentor withdrew the unlocked `amount`.
#[derive(Clone, Copy, Debug, PartialEq, Eq, Structural)]
pub struct Unstaked {
    pub mentor: u64,
    pub token: u64,
    pub amount: u128,
}

/// A notice that the administrator took `amount` of a mentor's stake.
#[derive(Clone, Copy, Debug, PartialEq, Eq, Structural)]
pub struct Slashed {
    pub mentor: u64,
    pub token: u64,
    pub amount: u128,
}

/// What a mentor has at stake in one token.
#[derive(Clone, Copy, Debug, PartialEq, Eq, Structural)]
pub struct StakeInfo {
    pub staked: u128,
    pub pending_unstake: u128,
    pub unlock_at: u32,
}

#[derive(Clone, Copy, Debug, PartialEq, Eq, Structural)]
pub enum StakeError {
    Unauthorized,
    InsufficientStake,
    InsufficientPendingUnstake,
    UnlockTimeNotReached,
    ZeroAmount,
    StakeNotFound,
}

/// Mentor stakes per token, with a cooldown between an unstake request and the withdrawal.
pub struct Stake {
    stakes: HashMap<u128, StakeInfo>,
    admin: u64,
    cooldown_blocks: u32,
}

/// The abstract state: stakes keyed by `pair_key_spec(mentor, token)`.
pub struct StakeView {
    pub stakes: Map<u128, StakeInfo>,
    pub admin: u64,
    pub cooldown_blocks: u32,
}

impl View for Stake {
    type V = StakeView;

    closed spec fn view(&self) -> StakeView {
        StakeView { stakes: self.stakes@, admin: self.admin, cooldown_blocks: self.cooldown_blocks }
    }
}

pub open spec fn stake_of(v: StakeView, mentor: u64, token: u64) -> Option<StakeInfo> {
    if v.stakes.contains_key(pair_key_spec(mentor, token)) {
        Some(v.stakes[pair_key_spec(mentor, token)])
    } else {
        None
    }
}

pub open spec fn with_stake(v: StakeView, mentor: u64, token: u64, s: StakeInfo) -> StakeView {
    StakeView { stakes: v.stakes.insert(pair_key_spec(mentor, token), s), ..v }
}

impl Stake {
    /// A stake registry with administrator `admin` and an unstaking cooldown in blocks.
    pub fn new(admin: u64, cooldown_blocks: u32) -> (r: Stake)
        ensures
            r@ == (StakeView { stakes: Map::<u128, StakeInfo>::empty(), admin, cooldown_blocks }),
    {
        Stake { stakes: HashMap::new(), admin, cooldown_blocks }
    }

    fn read(&self, mentor: u64, token: u64) -> (r: Option<StakeInfo>)
        ensures
            r == stake_of(self@, mentor, token),
    {
        match self.stakes.get(&pair_key(mentor, token)) {
            Some(s) => Some(*s),
            None => None,
        }
    }

    /// Adds `amount` of `token` to the stake of `caller`.
    pub fn stake(&mut self, caller: u64, token: u64, amount: u128) -> (r: Result<Staked, StakeError>)
        ensures
            ({
                let old_info = match stake_of(old(self)@, caller, token) {
                    Some(s) => s,
                    None => StakeInfo { staked: 0, pending_unstake: 0, unlock_at: 0 },
                };
                &&& amount == 0 ==> r == Err::<Staked, StakeError>(StakeError::ZeroAmount)
                &&& amount > 0 && old_info.staked + amount > u128::MAX ==> r == Err::<
                    Staked,
                    StakeError,
                >(StakeError::InsufficientStake)
                &&& amount > 0 && old_info.staked + amount <= u128::MAX ==> r == Ok::<
                    Staked,
                    StakeError,
                >(Staked { mentor: caller, token, amount }) && final(self)@ == with_stake(
                    old(self)@,
                    caller,
                    token,
                    StakeInfo { staked: (old_info.staked + amount) as u128, ..old_info },
                )
            }),
            r is Err ==> final(self)@ == old(self)@,
    {
        if amount == 0 {
            return Err(StakeError::ZeroAmount);
        }
        let info = match self.read(caller, token) {
            Some(s) => s,
            None => StakeInfo { staked: 0, pending_unstake: 0, unlock_at: 0 },
        };
        let staked = match info.staked.checked_add(amount) {
            Some(s) => s,
            None => return Err(StakeError::InsufficientStake),
        };
        self.stakes.insert(pair_key(caller, token), StakeInfo { staked, ..info });
        Ok(Staked { mentor: caller, token, amount })
    }

    /// Moves `amount` of the stake of `caller` to pending, unlocking `cooldown_blocks` after
    /// block `now`.
    pub fn request_unstake(&mut self, caller: u64, token: u64, amount: u128, now: u32) -> (r:
        Result<UnstakeRequested, StakeError>)
        ensures
            amount == 0 ==> r == Err::<UnstakeRequested, StakeError>(StakeError::ZeroAmount),
            amount > 0 && stake_of(old(self)@, caller, token) is None ==> r == Err::<
                UnstakeRequested,
                StakeError,
            >(StakeError::StakeNotFound),
            amount > 0 ==> (stake_of(old(self)@, caller, token) matches Some(s) ==> {
                let unlock_at = now + old(self)@.cooldown_blocks;
                &&& (s.staked < amount || unlock_at > u32::MAX || s.pending_unstake + amount
                    > u128::MAX) ==> r == Err::<UnstakeRequested, StakeError>(
                    StakeError::InsufficientStake,
                )
                &&& !(s.staked < amount || unlock_at > u32::MAX || s.pending_unstake + amount
                    > u128::MAX) ==> r == Ok::<UnstakeRequested, StakeError>(
                    UnstakeRequested { mentor: caller, token, amount, unlock_at: unlock_at as u32 },
                ) && final(self)@ == with_stake(
                    old(self)@,
                    caller,
                    token,
                    StakeInfo {
                        staked: (s.staked - amount) as u128,
                        pending_unstake: (s.pending_unstake + amount) as u128,
                        unlock_at: unlock_at as u32,
                    },
                )
            }),
            r is Err ==> final(self)@ == old(self)@,
    {
        if amount == 0 {
            return Err(StakeError::ZeroAmount);
        }
        let info = match self.read(caller, token) {
            Some(s) => s,
            None => return Err(StakeError::StakeNotFound),
        };
        if info.staked < amount {
            return Err(StakeError::InsufficientStake);
        }
        let unlock_at = match now.checked_add(self.cooldown_blocks) {
            Some(u) => u,
            None => return Err(StakeError::InsufficientStake),
        };
        let pending_unstake = match info.pending_unstake.checked_add(amount) {
            Some(p) => p,
            None => return Err(StakeError::InsufficientStake),
        };
        self.stakes.insert(
            pair_key(caller, token),
            StakeInfo { staked: info.staked - amount, pending_unstake, unlock_at },
        );
        Ok(UnstakeRequested { mentor: caller, token, amount, unlock_at })
    }

    /// Releases the pending unstake of `caller` once block `now` reaches its unlock block.
    pub fn withdraw_unstaked(&mut self, caller: u64, token: u64, now: u32) -> (r: Result<
        Unstaked,
        StakeError,
    >)
        ensures
            stake_of(old(self)@, caller, token) is None ==> r == Err::<Unstaked, StakeError>(
                StakeError::StakeNotFound,
            ),
            stake_of(old(self)@, caller, token) matches Some(s) ==> {
                &&& s.pending_unstake == 0 ==> r == Err::<Unstaked, StakeError>(
                    StakeError::InsufficientPendingUnstake,
                )
                &&& s.pending_unstake > 0 && now < s.unlock_at ==> r == Err::<Unstaked, StakeError>(
                    StakeError::UnlockTimeNotReached,
                )
                &&& s.pending_unstake > 0 && now >= s.unlock_at ==> r == Ok::<Unstaked, StakeError>(
                    Unstaked { mentor: caller, token, amount: s.pending_unstake },
                ) && final(self)@ == with_stake(
                    old(self)@,
                    caller,
                    token,
                    StakeInfo { staked: s.staked, pending_unstake: 0, unlock_at: 0 },
                )
            },
            r is Err ==> final(self)@ == old(self)@,
    {
        let info = match self.read(caller, token) {
            Some(s) => s,
            None => return Err(StakeError::StakeNotFound),
        };
        if info.pending_unstake == 0 {
            return Err(StakeError::InsufficientPendingUnstake);
        }
        if now < info.unlock_at {
            return Err(StakeError::UnlockTimeNotReached);
        }
        let amount = info.pending_unstake;
        self.stakes.insert(
            pair_key(caller, token),
            StakeInfo { staked: info.staked, pending_unstake: 0, unlock_at: 0 },
        );
        Ok(Unstaked { mentor: caller, token, amount })
    }

    /// Takes `amount` from the stake of `mentor`; only the administrator may.
    pub fn slash(&mut self, caller: u64, mentor: u64, token: u64, amount: u128) -> (r: Result<
        Slashed,
        StakeError,
    >)
        ensures
            caller != old(self)@.admin ==> r == Err::<Slashed, StakeError>(StakeError::Unauthorized),
            caller == old(self)@.admin && amount == 0 ==> r == Err::<Slashed, StakeError>(
                StakeError::ZeroAmount,
            ),
            caller == old(self)@.admin && amount > 0 && stake_of(old(self)@, mentor, token) is None
                ==> r == Err::<Slashed, StakeError>(StakeError::StakeNotFound),
            caller == old(self)@.admin && amount > 0 ==> (stake_of(old(self)@, mentor, token) matches Some(s) ==> {
                &&& s.staked < amount ==> r == Err::<Slashed, StakeError>(
                    StakeError::InsufficientStake,
                )
                &&& s.staked >= amount ==> r == Ok::<Slashed, StakeError>(
                    Slashed { mentor, token, amount },
                ) && final(self)@ == with_stake(
                    old(self)@,
                    mentor,
                    token,
                    StakeInfo { staked: (s.staked - amount) as u128, ..s },
                )
            }),
            r is Err ==> final(self)@ == old(self)@,
    {
        if caller != self.admin {
            return Err(StakeError::Unauthorized);
        }
        if amount == 0 {
            return Err(StakeError::ZeroAmount);
        }
        let info = match self.read(mentor, token) {
            Some(s) => s,
            None => return Err(StakeError::StakeNotFound),
        };
        if info.staked < amount {
            return Err(StakeError::InsufficientStake);
        }
        self.stakes.insert(pair_key(mentor, token), StakeInfo { staked: info.staked - amount, ..info });
        Ok(Slashed { mentor, token, amount })
    }

    /// The stake of `mentor` in `token`, if any.
    pub fn get_stake(&self, mentor: u64, token: u64) -> (r: Option<StakeInfo>)
        ensures
            r == stake_of(self@, mentor, token),
    {
        self.read(mentor, token)
    }

    pub fn get_admin(&self) -> (r: u64)
        ensures
            r == self@.admin,
    {
        self.admin
    }

    pub fn get_cooldown_blocks(&self) -> (r: u32)
        ensures
            r == self@.cooldown_blocks,
    {
        self.cooldown_blocks
    }

    /// Hands the administrator role to `new_admin`; only the administrator may.
    pub fn transfer_admin(&mut self, caller: u64, new_admin: u64) -> (r: Result<(), StakeError>)
        ensures
            caller != old(self)@.admin ==> r == Err::<(), StakeError>(StakeError::Unauthorized)
                && final(self)@ == old(self)@,
            caller == old(self)@.admin ==> r is Ok && final(self)@ == (StakeView {
                admin: new_admin,
                ..old(self)@
            }),
    {
        if caller != self.admin {
            return Err(StakeError::Unauthorized);
        }
        self.admin = new_admin;
        Ok(())
    }
}

} // verus!
