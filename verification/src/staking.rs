//! The staking exchange-rate engine: what a stake mints, what a redemption
//! pays, and how the rate advances with time.

use crate::error::LendingError;
use crate::state::{ZFubaoConfig, RATE_INTERVAL, RATIO_SCALE};
use vstd::prelude::*;

verus! {

impl ZFubaoConfig {
    /// The receipt units that staking `amount` mints: the amount times the
    /// exchange ratio, scaled down and rounded down. It is an
    /// `ArithmeticError` where the product does not fit in 64 bits.
    pub open spec fn staked(self, amount: u64) -> Result<u64, LendingError> {
        if amount * self.szusd_price_ratio > u64::MAX {
            Err(LendingError::ArithmeticError)
        } else {
            Ok((amount * self.szusd_price_ratio / (RATIO_SCALE as int)) as u64)
        }
    }

    /// The debt-asset units that redeeming `amount` receipt units pays: the
    /// amount times the whole part of the exchange ratio. It is an
    /// `ArithmeticError` where the product does not fit in 64 bits.
    ///
    /// The fraction of the ratio is dropped before the multiplication: below
    /// a ratio of one a redemption pays nothing, and from one up to two it
    /// pays one for one, while a stake is scaled by the full ratio. This loss
    /// of precision is known; it is kept rather than changed silently.
    pub open spec fn unstaked(self, amount: u64) -> Result<u64, LendingError> {
        if amount * (self.szusd_price_ratio / RATIO_SCALE) > u64::MAX {
            Err(LendingError::ArithmeticError)
        } else {
            Ok((amount * (self.szusd_price_ratio / RATIO_SCALE)) as u64)
        }
    }

    /// The configuration after the rate is refreshed at time `now`: the
    /// exchange ratio grows by one for every full interval since the start
    /// time. It is an `ArithmeticError` where `now` lies before the start
    /// time, where the elapsed time does not fit in 64 signed bits, and where
    /// the new ratio does not fit in 64 bits.
    pub open spec fn refreshed(self, now: i64) -> Result<ZFubaoConfig, LendingError> {
        if now < self.start_time {
            Err(LendingError::ArithmeticError)
        } else if now - self.start_time > i64::MAX {
            Err(LendingError::ArithmeticError)
        } else if self.szusd_price_ratio + (now - self.start_time) / (RATE_INTERVAL as int)
            > u64::MAX {
            Err(LendingError::ArithmeticError)
        } else {
            Ok(
                ZFubaoConfig {
                    szusd_price_ratio: (self.szusd_price_ratio + (now - self.start_time) / (
                    RATE_INTERVAL as int)) as u64,
                    ..self
                },
            )
        }
    }

    /// Computes the receipt units that staking `amount` mints.
    pub fn stake(&self, amount: u64) -> (receipt: Result<u64, LendingError>)
        ensures
            receipt == self.staked(amount),
    {
        match amount.checked_mul(self.szusd_price_ratio) {
            Some(scaled) => Ok(scaled / RATIO_SCALE),
            None => Err(LendingError::ArithmeticError),
        }
    }

    /// Computes the debt-asset units that redeeming `amount` receipt units
    /// pays.
    pub fn unstake(&self, amount: u64) -> (payout: Result<u64, LendingError>)
        ensures
            payout == self.unstaked(amount),
    {
        match amount.checked_mul(self.get_current_szusd_price_in_zusd()) {
            Some(payout) => Ok(payout),
            None => Err(LendingError::ArithmeticError),
        }
    }

    /// Advances the exchange ratio to time `now`. Nothing else changes, and
    /// the ratio never decreases.
    pub fn refresh_rate(&self, now: i64) -> (next: Result<ZFubaoConfig, LendingError>)
        ensures
            next == self.refreshed(now),
            next matches Ok(config) ==> config.szusd_price_ratio >= self.szusd_price_ratio,
    {
        if now < self.start_time {
            return Err(LendingError::ArithmeticError);
        }
        let elapsed = match now.checked_sub(self.start_time) {
            Some(elapsed) => elapsed,
            None => return Err(LendingError::ArithmeticError),
        };
        let steps = (elapsed / RATE_INTERVAL) as u64;
        match self.szusd_price_ratio.checked_add(steps) {
            Some(szusd_price_ratio) => Ok(
                ZFubaoConfig {
                    authority: self.authority,
                    zbtc_mint: self.zbtc_mint,
                    zusd_mint: self.zusd_mint,
                    authority_bump: self.authority_bump,
                    global_config_bump: self.global_config_bump,
                    ltv_ratio: self.ltv_ratio,
                    price: self.price,
                    start_time: self.start_time,
                    szusd_price_ratio,
                },
            ),
            None => Err(LendingError::ArithmeticError),
        }
    }

    /// A refresh keeps a valid configuration valid: the ratio only grows.
    pub proof fn lemma_refresh_keeps_valid(self, now: i64)
        requires
            self.is_valid(),
            self.refreshed(now) is Ok,
        ensures
            self.refreshed(now).unwrap().is_valid(),
            self.refreshed(now).unwrap().szusd_price_ratio >= self.szusd_price_ratio,
    {
    }

    /// At a ratio of exactly one, a stake mints what it takes and a
    /// redemption pays what it burns.
    pub proof fn lemma_par_is_identity(self, amount: u64)
        requires
            self.szusd_price_ratio == RATIO_SCALE,
        ensures
            self.unstaked(amount) == Ok::<u64, LendingError>(amount),
            amount * RATIO_SCALE <= u64::MAX ==> self.staked(amount) == Ok::<u64, LendingError>(
                amount,
            ),
    {
    }
}

} // verus!
