//! Platform, forex, compliance and network fees on an amount.

use vstd::prelude::*;
use crate::error::Error;
use crate::math::{basis_point_share, lemma_share_bounds, share_fits, share_of};

verus! {

#[derive(Clone, Copy, PartialEq, Eq, Debug, Structural)]
pub enum FeeType {
    Platform,
    Forex,
    Compliance,
    Network,
}

/// The fees charged on one amount, part by part.
#[derive(Clone, Copy, Debug, PartialEq, Eq, Structural)]
pub struct FeeBreakdown {
    pub platform_fee: i128,
    pub forex_fee: i128,
    pub compliance_fee: i128,
    pub network_fee: i128,
    pub total_fee: i128,
}

/// The schedule from which fees are computed: two rates in basis points, two
/// flat fees, and the bounds between which the total is clamped.
#[derive(Clone, Copy, Debug, PartialEq, Eq, Structural)]
pub struct FeeStructure {
    pub platform_percentage: i128,
    pub forex_percentage: i128,
    pub compliance_flat: i128,
    pub network_flat: i128,
    pub min_fee: i128,
    pub max_fee: i128,
}

/// `total` raised to `min_fee` where it is below, then lowered to `max_fee`
/// where it is above.
pub open spec fn clamped(total: int, min_fee: int, max_fee: int) -> int {
    let raised = if total < min_fee { min_fee } else { total };
    if raised > max_fee { max_fee } else { raised }
}

impl FeeStructure {
    /// Rates within 0..=10000 basis points, flat fees that are not negative,
    /// and bounds with `0 <= min_fee <= max_fee`.
    pub open spec fn valid(&self) -> bool {
        &&& 0 <= self.platform_percentage <= 10000
        &&& 0 <= self.forex_percentage <= 10000
        &&& 0 <= self.compliance_flat
        &&& 0 <= self.network_flat
        &&& 0 <= self.min_fee <= self.max_fee
    }

    /// Whether the schedule is valid.
    pub fn is_valid(&self) -> (ok: bool)
        ensures
            ok == self.valid(),
    {
        0 <= self.platform_percentage && self.platform_percentage <= 10000 && 0
            <= self.forex_percentage && self.forex_percentage <= 10000 && 0 <= self.compliance_flat
            && 0 <= self.network_flat && 0 <= self.min_fee && self.min_fee <= self.max_fee
    }

    /// The sum of the four fees on `amount`, before clamping.
    pub open spec fn raw_total(&self, amount: int) -> int {
        share_of(amount, self.platform_percentage as int) + share_of(
            amount,
            self.forex_percentage as int,
        ) + self.compliance_flat + self.network_flat
    }

    /// Whether every product and partial sum of the computation on `amount`
    /// can be held in an `i128`.
    pub open spec fn fits(&self, amount: int) -> bool {
        let p = share_of(amount, self.platform_percentage as int);
        let f = share_of(amount, self.forex_percentage as int);
        &&& share_fits(amount, self.platform_percentage as int)
        &&& share_fits(amount, self.forex_percentage as int)
        &&& i128::MIN <= p + f <= i128::MAX
        &&& i128::MIN <= p + f + self.compliance_flat <= i128::MAX
        &&& i128::MIN <= p + f + self.compliance_flat + self.network_flat <= i128::MAX
    }

    /// The fees on `amount`: `ArithmeticOverflow` where the computation does
    /// not fit, `FeeExceedsAmount` where the clamped total reaches `amount`.
    pub open spec fn fees_on(&self, amount: int) -> Result<FeeBreakdown, Error> {
        if !self.fits(amount) {
            Err(Error::ArithmeticOverflow)
        } else if clamped(self.raw_total(amount), self.min_fee as int, self.max_fee as int)
            >= amount {
            Err(Error::FeeExceedsAmount)
        } else {
            Ok(
                FeeBreakdown {
                    platform_fee: share_of(amount, self.platform_percentage as int) as i128,
                    forex_fee: share_of(amount, self.forex_percentage as int) as i128,
                    compliance_fee: self.compliance_flat,
                    network_fee: self.network_flat,
                    total_fee: clamped(
                        self.raw_total(amount),
                        self.min_fee as int,
                        self.max_fee as int,
                    ) as i128,
                },
            )
        }
    }

    /// The schedule that charges nothing and bounds nothing.
    pub open spec fn zero() -> FeeStructure {
        FeeStructure {
            platform_percentage: 0,
            forex_percentage: 0,
            compliance_flat: 0,
            network_flat: 0,
            min_fee: 0,
            max_fee: i128::MAX,
        }
    }

    /// The schedule that charges nothing and bounds nothing.
    pub fn free() -> (s: FeeStructure)
        ensures
            s == FeeStructure::zero(),
            s.valid(),
    {
        FeeStructure {
            platform_percentage: 0,
            forex_percentage: 0,
            compliance_flat: 0,
            network_flat: 0,
            min_fee: 0,
            max_fee: i128::MAX,
        }
    }

    /// Computes the fees on `amount`.
    pub fn compute(&self, amount: i128) -> (r: Result<FeeBreakdown, Error>)
        ensures
            r == self.fees_on(amount as int),
    {
        let platform_fee = match basis_point_share(amount, self.platform_percentage) {
            Some(fee) => fee,
            None => {
                return Err(Error::ArithmeticOverflow);
            },
        };
        let forex_fee = match basis_point_share(amount, self.forex_percentage) {
            Some(fee) => fee,
            None => {
                return Err(Error::ArithmeticOverflow);
            },
        };
        let percent_fees = match platform_fee.checked_add(forex_fee) {
            Some(sum) => sum,
            None => {
                return Err(Error::ArithmeticOverflow);
            },
        };
        let with_compliance = match percent_fees.checked_add(self.compliance_flat) {
            Some(sum) => sum,
            None => {
                return Err(Error::ArithmeticOverflow);
            },
        };
        let mut total_fee = match with_compliance.checked_add(self.network_flat) {
            Some(sum) => sum,
            None => {
                return Err(Error::ArithmeticOverflow);
            },
        };
        if total_fee < self.min_fee {
            total_fee = self.min_fee;
        }
        if total_fee > self.max_fee {
            total_fee = self.max_fee;
        }
        if total_fee >= amount {
            return Err(Error::FeeExceedsAmount);
        }
        Ok(
            FeeBreakdown {
                platform_fee,
                forex_fee,
                compliance_fee: self.compliance_flat,
                network_fee: self.network_flat,
                total_fee,
            },
        )
    }
}

/// Under a valid schedule every fee that is charged is non-negative and the
/// total stays below the amount, which is then positive.
pub proof fn lemma_fees_within_amount(schedule: FeeStructure, amount: int)
    requires
        schedule.valid(),
        schedule.fees_on(amount) is Ok,
    ensures
        amount > 0,
        0 <= schedule.fees_on(amount)->Ok_0.platform_fee,
        0 <= schedule.fees_on(amount)->Ok_0.forex_fee,
        0 <= schedule.fees_on(amount)->Ok_0.compliance_fee,
        0 <= schedule.fees_on(amount)->Ok_0.network_fee,
        0 <= schedule.fees_on(amount)->Ok_0.total_fee < amount,
{
    assert(clamped(schedule.raw_total(amount), schedule.min_fee as int, schedule.max_fee as int)
        >= 0);
    assert(amount > 0);
    lemma_share_bounds(amount, schedule.platform_percentage as int);
    lemma_share_bounds(amount, schedule.forex_percentage as int);
}

/// With no clamping in force, the total is the sum of the four parts.
pub proof fn lemma_total_is_sum(schedule: FeeStructure, amount: int)
    requires
        schedule.fees_on(amount) is Ok,
        schedule.min_fee as int <= schedule.raw_total(amount) <= schedule.max_fee as int,
    ensures
        ({
            let b = schedule.fees_on(amount)->Ok_0;
            b.total_fee == b.platform_fee + b.forex_fee + b.compliance_fee + b.network_fee
        }),
{
}

} // verus!
