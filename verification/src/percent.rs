//! Percentages with four decimals: 10000 stands for 100%.

use vstd::prelude::*;
use crate::u256::{U256, u256_max};
use crate::wad_ray::Error;

verus! {

pub open spec fn percentage_factor_spec() -> nat {
    10000
}

pub open spec fn half_percent_spec() -> nat {
    5000
}

pub fn percentage_factor() -> (r: U256)
    ensures
        r@ == percentage_factor_spec(),
{
    U256::from_u128(10000)
}

pub fn half_percent() -> (r: U256)
    ensures
        r@ == half_percent_spec(),
{
    U256::from_u128(5000)
}

/// `value * percentage / 10000`, rounded half up.
pub open spec fn percent_mul_spec(value: nat, percentage: nat) -> nat {
    (value * percentage + half_percent_spec()) / percentage_factor_spec()
}

/// `percent_mul` reports an overflow: neither factor is zero and `value` exceeds
/// `(2^256 - 1 - 5000) / percentage`.
pub open spec fn percent_mul_overflows(value: nat, percentage: nat) -> bool {
    value != 0 && percentage != 0 && value > ((u256_max() - half_percent_spec()) as nat)
        / percentage
}

pub struct Percent {
    pub value: U256,
}

impl Percent {
    /// `value * percentage / 10000`, rounded half up; zero when either is zero.
    pub fn percent_mul(&self, percentage: U256) -> (r: Result<Percent, Error>)
        ensures
            match r {
                Ok(p) => !percent_mul_overflows(self.value@, percentage@) && p.value@ == (if self.value@
                    == 0 || percentage@ == 0 {
                    0
                } else {
                    percent_mul_spec(self.value@, percentage@)
                }),
                Err(e) => e == Error::MathMultiplicationOverflow && percent_mul_overflows(
                    self.value@,
                    percentage@,
                ),
            },
    {
        let value = self.value;
        if value.is_zero() || percentage.is_zero() {
            return Ok(Percent { value: U256::from_u128(0) });
        }
        if value.gt(&U256::max_value().sub(half_percent()).div(percentage)) {
            return Err(Error::MathMultiplicationOverflow);
        }
        proof {
            crate::arith::lemma_le_div_mul(
                value@,
                (u256_max() - half_percent_spec()) as nat,
                percentage@,
            );
        }
        Ok(Percent { value: value.mul(percentage).add(half_percent()).div(percentage_factor()) })
    }

    /// Division by a percentage. The guard in front of it asserts that `percentage` is
    /// zero, so every other input aborts; on a zero percentage it reports the division
    /// by zero.
    pub fn percent_div(&self, percentage: U256) -> (r: Result<Percent, Error>)
        requires
            percentage@ == 0,
        ensures
            r == Err::<Percent, Error>(Error::MathDivisionByZero),
    {
        if percentage.is_zero() {
            return Err(Error::MathDivisionByZero);
        }
        let value = self.value;
        let half_percentage = percentage.div(U256::from_u128(2));
        if value.gt(&U256::max_value().sub(half_percentage).div(percentage_factor())) {
            return Err(Error::MathMultiplicationOverflow);
        }
        proof {
            crate::arith::lemma_le_div_mul(
                value@,
                (u256_max() - percentage@ / 2) as nat,
                percentage_factor_spec(),
            );
        }
        Ok(
            Percent {
                value: value.mul(percentage_factor()).add(half_percentage).div(percentage),
            },
        )
    }
}

} // verus!
