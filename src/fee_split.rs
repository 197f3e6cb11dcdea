use vstd::prelude::*;

use crate::engine::Transfer;
use crate::fee::{fee_of, lemma_fee_bounds, lemma_fee_by_parts, BPS_SCALE};

verus! {

/// A change of the fee rate.
#[derive(Clone, Copy, Debug, PartialEq, Eq, Structural)]
pub struct FeeUpdated {
    pub fee_bps: u32,
}

/// A change of the treasury account.
#[derive(Clone, Copy, Debug, PartialEq, Eq, Structural)]
pub struct TreasuryUpdated {
    pub addr: u64,
}

/// How an amount was divided between the mentor and the platform.
#[derive(Clone, Copy, Debug, PartialEq, Eq, Structural)]
pub struct PayoutSplit {
    pub booking_id: Option<u64>,
    pub mentor_share: i128,
    pub platform_fee: i128,
}

#[derive(Clone, Copy, Debug, PartialEq, Eq, Structural)]
pub enum Error {
    AlreadyInitialized,
    NotInitialized,
    InvalidFeeBps,
    NegativeAmount,
    Unauthorized,
}

/// The configuration of a fee splitter.
#[derive(Clone, Copy, Debug, PartialEq, Eq, Structural)]
pub struct FeeSplitConfig {
    pub admin: u64,
    pub treasury: u64,
    pub fee_bps: u32,
}

/// Divides payouts between a mentor and the platform treasury at a configured rate.
pub struct FeeSplitContract {
    account: u64,
    config: Option<FeeSplitConfig>,
}

/// The mentor's share of `amount`: `floor(amount * (10000 - bps) / 10000)`. The platform's
/// fee is the rest, so any remainder of the division goes to the platform.
pub open spec fn mentor_share_of(amount: int, bps: int) -> int {
    fee_of(amount, 10000 - bps)
}

impl View for FeeSplitContract {
    type V = Option<FeeSplitConfig>;

    closed spec fn view(&self) -> Option<FeeSplitConfig> {
        self.config
    }
}

impl FeeSplitContract {
    /// The account that holds the funds being split.
    pub closed spec fn account_spec(&self) -> u64 {
        self.account
    }

    /// The account that holds the funds being split.
    pub fn account(&self) -> (r: u64)
        ensures
            r == self.account_spec(),
    {
        self.account
    }

    pub open spec fn wf(&self) -> bool {
        self@ matches Some(c) ==> c.fee_bps <= BPS_SCALE
    }

    /// A splitter that holds funds in `account` and is not yet configured.
    pub fn new(account: u64) -> (r: FeeSplitContract)
        ensures
            r.wf(),
            r@ is None,
            r.account_spec() == account,
    {
        FeeSplitContract { account, config: None }
    }

    /// Sets the administrator, the treasury and the fee rate, once.
    pub fn init(&mut self, admin: u64, treasury: u64, fee_bps: u32) -> (r: Result<(), Error>)
        requires
            old(self).wf(),
        ensures
            final(self).wf(),
            final(self).account_spec() == old(self).account_spec(),
            old(self)@ is Some ==> r == Err::<(), Error>(Error::AlreadyInitialized),
            old(self)@ is None && fee_bps > BPS_SCALE ==> r == Err::<(), Error>(
                Error::InvalidFeeBps,
            ),
            r is Ok <==> old(self)@ is None && fee_bps <= BPS_SCALE,
            r is Ok ==> final(self)@ == Some(FeeSplitConfig { admin, treasury, fee_bps }),
            r is Err ==> final(self)@ == old(self)@,
    {
        if self.config.is_some() {
            return Err(Error::AlreadyInitialized);
        }
        if fee_bps > BPS_SCALE {
            return Err(Error::InvalidFeeBps);
        }
        self.config = Some(FeeSplitConfig { admin, treasury, fee_bps });
        Ok(())
    }

    /// Changes the fee rate; only the administrator may.
    pub fn set_fee_bps(&mut self, caller: u64, fee_bps: u32) -> (r: Result<FeeUpdated, Error>)
        requires
            old(self).wf(),
        ensures
            final(self).wf(),
            final(self).account_spec() == old(self).account_spec(),
            old(self)@ is None ==> r == Err::<FeeUpdated, Error>(Error::NotInitialized),
            old(self)@ matches Some(c) ==> {
                &&& caller != c.admin ==> r == Err::<FeeUpdated, Error>(Error::Unauthorized)
                &&& caller == c.admin && fee_bps > BPS_SCALE ==> r == Err::<FeeUpdated, Error>(
                    Error::InvalidFeeBps,
                )
                &&& caller == c.admin && fee_bps <= BPS_SCALE ==> r == Ok::<FeeUpdated, Error>(
                    FeeUpdated { fee_bps },
                ) && final(self)@ == Some(FeeSplitConfig { fee_bps, ..c })
            },
            r is Err ==> final(self)@ == old(self)@,
    {
        let c = match self.config {
            Some(c) => c,
            None => return Err(Error::NotInitialized),
        };
        if caller != c.admin {
            return Err(Error::Unauthorized);
        }
        if fee_bps > BPS_SCALE {
            return Err(Error::InvalidFeeBps);
        }
        self.config = Some(FeeSplitConfig { fee_bps, ..c });
        Ok(FeeUpdated { fee_bps })
    }

    /// Changes the treasury account; only the administrator may.
    pub fn set_treasury(&mut self, caller: u64, addr: u64) -> (r: Result<TreasuryUpdated, Error>)
        requires
            old(self).wf(),
        ensures
            final(self).wf(),
            final(self).account_spec() == old(self).account_spec(),
            old(self)@ is None ==> r == Err::<TreasuryUpdated, Error>(Error::NotInitialized),
            old(self)@ matches Some(c) ==> {
                &&& caller != c.admin ==> r == Err::<TreasuryUpdated, Error>(Error::Unauthorized)
                &&& caller == c.admin ==> r == Ok::<TreasuryUpdated, Error>(TreasuryUpdated { addr })
                    && final(self)@ == Some(FeeSplitConfig { treasury: addr, ..c })
            },
            r is Err ==> final(self)@ == old(self)@,
    {
        let c = match self.config {
            Some(c) => c,
            None => return Err(Error::NotInitialized),
        };
        if caller != c.admin {
            return Err(Error::Unauthorized);
        }
        self.config = Some(FeeSplitConfig { treasury: addr, ..c });
        Ok(TreasuryUpdated { addr })
    }

    fn split_amount(&self, amount: i128) -> (r: Result<(i128, i128), Error>)
        requires
            self.wf(),
        ensures
            self@ is None ==> r == Err::<(i128, i128), Error>(Error::NotInitialized),
            self@ is Some && amount < 0 ==> r == Err::<(i128, i128), Error>(Error::NegativeAmount),
            self@ matches Some(c) ==> (amount >= 0 ==> (r matches Ok(p) && p.0 == mentor_share_of(
                amount as int,
                c.fee_bps as int,
            ) && p.1 == amount - p.0 && 0 <= p.0 <= amount)),
    {
        let c = match self.config {
            Some(c) => c,
            None => return Err(Error::NotInitialized),
        };
        if amount < 0 {
            return Err(Error::NegativeAmount);
        }
        let keep_bps = (BPS_SCALE - c.fee_bps) as i128;
        let quotient = amount / 10000;
        let remainder = amount % 10000;
        proof {
            lemma_fee_bounds(amount as int, keep_bps as int);
            lemma_fee_by_parts(amount as int, keep_bps as int);
            assert(0 <= quotient * keep_bps <= amount) by (nonlinear_arith)
                requires
                    quotient == amount / 10000,
                    amount >= 0,
                    0 <= keep_bps <= 10000,
            ;
            assert(0 <= remainder * keep_bps <= 10000 * 10000) by (nonlinear_arith)
                requires
                    0 <= remainder < 10000,
                    0 <= keep_bps <= 10000,
            ;
        }
        let mentor_share = quotient * keep_bps + (remainder * keep_bps) / 10000;
        Ok((mentor_share, amount - mentor_share))
    }

    /// Divides `amount` into the mentor's share and the platform fee without moving funds.
    pub fn split(&self, amount: i128) -> (r: Result<(i128, i128), Error>)
        requires
            self.wf(),
        ensures
            self@ is None ==> r == Err::<(i128, i128), Error>(Error::NotInitialized),
            self@ is Some && amount < 0 ==> r == Err::<(i128, i128), Error>(Error::NegativeAmount),
            self@ matches Some(c) ==> (amount >= 0 ==> (r matches Ok(p) && p.0 == mentor_share_of(
                amount as int,
                c.fee_bps as int,
            ) && p.1 == amount - p.0 && 0 <= p.0 <= amount)),
    {
        self.split_amount(amount)
    }

    /// Divides `amount` held by the splitter and returns the split with the transfers that pay
    /// it out: the mentor's share to the mentor and, when positive, the fee to the treasury.
    pub fn release(&self, token: u64, mentor: u64, amount: i128, booking_id: Option<u64>) -> (r:
        Result<(PayoutSplit, Vec<Transfer>), Error>)
        requires
            self.wf(),
        ensures
            self@ is None ==> r matches Err(Error::NotInitialized),
            self@ is Some && amount < 0 ==> r matches Err(Error::NegativeAmount),
            self@ matches Some(c) ==> (amount >= 0 ==> (r matches Ok((p, ts)) && {
                &&& p.booking_id == booking_id
                &&& p.mentor_share == mentor_share_of(amount as int, c.fee_bps as int)
                &&& p.platform_fee == amount - p.mentor_share
                &&& ts@.len() == if p.platform_fee > 0 { 2int } else { 1int }
                &&& ts@[0] == Transfer {
                    asset: token,
                    from: self.account_spec(),
                    to: mentor,
                    amount: p.mentor_share,
                }
                &&& p.platform_fee > 0 ==> ts@[1] == Transfer {
                    asset: token,
                    from: self.account_spec(),
                    to: c.treasury,
                    amount: p.platform_fee,
                }
            })),
    {
        let (mentor_share, platform_fee) = self.split_amount(amount)?;
        let treasury = match self.config {
            Some(c) => c.treasury,
            None => return Err(Error::NotInitialized),
        };
        let mut ts: Vec<Transfer> = Vec::new();
        ts.push(Transfer { asset: token, from: self.account, to: mentor, amount: mentor_share });
        if platform_fee > 0 {
            ts.push(Transfer { asset: token, from: self.account, to: treasury, amount: platform_fee });
        }
        Ok((PayoutSplit { booking_id, mentor_share, platform_fee }, ts))
    }

    /// The administrator.
    pub fn admin(&self) -> (r: Result<u64, Error>)
        ensures
            self@ matches Some(c) ==> r == Ok::<u64, Error>(c.admin),
            self@ is None ==> r == Err::<u64, Error>(Error::NotInitialized),
    {
        match self.config {
            Some(c) => Ok(c.admin),
            None => Err(Error::NotInitialized),
        }
    }

    /// The treasury account.
    pub fn treasury(&self) -> (r: Result<u64, Error>)
        ensures
            self@ matches Some(c) ==> r == Ok::<u64, Error>(c.treasury),
            self@ is None ==> r == Err::<u64, Error>(Error::NotInitialized),
    {
        match self.config {
            Some(c) => Ok(c.treasury),
            None => Err(Error::NotInitialized),
        }
    }

    /// The fee rate in basis points.
    pub fn fee_bps(&self) -> (r: Result<u32, Error>)
        ensures
            self@ matches Some(c) ==> r == Ok::<u32, Error>(c.fee_bps),
            self@ is None ==> r == Err::<u32, Error>(Error::NotInitialized),
    {
        match self.config {
            Some(c) => Ok(c.fee_bps),
            None => Err(Error::NotInitialized),
        }
    }
}

} // verus!
