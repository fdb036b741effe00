//! The default interest rate model: a borrow rate that grows linearly with the
//! utilization of a pool, with a steeper slope above the "kink".

use vstd::prelude::*;
use crate::u256::{U256, u256_max};
use crate::types::WrappedU256;

verus! {

/// 10^18, the scale of rates and of the utilization.
pub open spec fn base_spec() -> nat {
    1_000_000_000_000_000_000
}

/// The number of milliseconds in a 365-day year.
pub open spec fn milliseconds_per_year_spec() -> nat {
    31_536_000_000
}

pub fn base() -> (r: U256)
    ensures
        r@ == base_spec(),
{
    // 1e18
    U256::from_u128(1_000_000_000_000_000_000)
}

pub fn milliseconds_per_year() -> (r: U256)
    ensures
        r@ == milliseconds_per_year_spec(),
{
    U256::from_u128(60 * 60 * 24 * 365).mul(U256::from_u128(1000))
}

pub fn u256_from_balance(b: u128) -> (r: U256)
    ensures
        r@ == b as nat,
{
    U256::from_u128(b)
}

/// The utilization of a pool (18 decimals): `borrows / (cash + borrows - reserves)`,
/// zero when nothing is borrowed.
pub open spec fn utilization_rate_spec(cash: nat, borrows: nat, reserves: nat) -> nat {
    if borrows == 0 {
        0
    } else {
        borrows * base_spec() / ((cash + borrows - reserves) as nat)
    }
}

/// The pool holds more than its reserves, so the utilization is defined.
pub open spec fn utilization_rate_defined(cash: nat, borrows: nat, reserves: nat) -> bool {
    borrows != 0 ==> reserves < cash + borrows
}

pub fn utilization_rate(cash: u128, borrows: u128, reserves: u128) -> (r: U256)
    requires
        utilization_rate_defined(cash as nat, borrows as nat, reserves as nat),
    ensures
        r@ == utilization_rate_spec(cash as nat, borrows as nat, reserves as nat),
{
    let (_cash, _borrows, _reserves) = (
        u256_from_balance(cash),
        u256_from_balance(borrows),
        u256_from_balance(reserves),
    );
    if _borrows.eq(&U256::zero()) {
        return U256::zero();
    }
    _borrows.mul(base()).div(_cash.add(_borrows).sub(_reserves))
}

/// The parameters of the model, per millisecond (18 decimals).
pub struct Data {
    pub multiplier_per_milli_second_slope_1: WrappedU256,
    pub multiplier_per_milli_second_slope_2: WrappedU256,
    pub base_rate_per_milli_second: WrappedU256,
    pub kink: WrappedU256,
}

impl Data {
    /// The borrow rate per millisecond at the given utilization: `util * slope1 + base`
    /// up to the kink, and beyond it the rate at the kink plus
    /// `(util - kink) * slope2`.
    pub open spec fn borrow_rate_at(&self, util: nat) -> nat {
        if util <= self.kink@ {
            util * self.multiplier_per_milli_second_slope_1@ / base_spec()
                + self.base_rate_per_milli_second@
        } else {
            self.kink@ * self.multiplier_per_milli_second_slope_1@ / base_spec()
                + self.base_rate_per_milli_second@ + ((util - self.kink@) as nat)
                * self.multiplier_per_milli_second_slope_2@ / base_spec()
        }
    }

    /// Every step of `borrow_rate_at` stays within 256 bits.
    pub open spec fn borrow_rate_fits(&self, util: nat) -> bool {
        if util <= self.kink@ {
            &&& util * self.multiplier_per_milli_second_slope_1@ <= u256_max()
            &&& self.borrow_rate_at(util) <= u256_max()
        } else {
            &&& self.kink@ * self.multiplier_per_milli_second_slope_1@ <= u256_max()
            &&& self.kink@ * self.multiplier_per_milli_second_slope_1@ / base_spec()
                + self.base_rate_per_milli_second@ <= u256_max()
            &&& ((util - self.kink@) as nat) * self.multiplier_per_milli_second_slope_2@
                <= u256_max()
            &&& self.borrow_rate_at(util) <= u256_max()
        }
    }

    /// The supply rate per millisecond: the borrow rate less the reserve factor's
    /// share, times the utilization.
    pub open spec fn supply_rate_at(&self, util: nat, reserve_factor: nat) -> nat {
        util * (self.borrow_rate_at(util) * ((base_spec() - reserve_factor) as nat) / base_spec())
            / base_spec()
    }

    /// Every step of `supply_rate_at` stays within 256 bits.
    pub open spec fn supply_rate_fits(&self, util: nat, reserve_factor: nat) -> bool {
        &&& reserve_factor <= base_spec()
        &&& self.borrow_rate_fits(util)
        &&& self.borrow_rate_at(util) * ((base_spec() - reserve_factor) as nat) <= u256_max()
        &&& util * (self.borrow_rate_at(util) * ((base_spec() - reserve_factor) as nat)
            / base_spec()) <= u256_max()
    }

    /// A model from yearly rates: each slope and the base rate are divided by the number
    /// of milliseconds in a year; the kink is kept.
    pub fn new(
        base_rate_per_year: WrappedU256,
        multiplier_per_year_slope_1: WrappedU256,
        multiplier_per_year_slope_2: WrappedU256,
        kink: WrappedU256,
    ) -> (r: Data)
        ensures
            r.multiplier_per_milli_second_slope_1@ == multiplier_per_year_slope_1@
                / milliseconds_per_year_spec(),
            r.multiplier_per_milli_second_slope_2@ == multiplier_per_year_slope_2@
                / milliseconds_per_year_spec(),
            r.base_rate_per_milli_second@ == base_rate_per_year@ / milliseconds_per_year_spec(),
            r.kink@ == kink@,
    {
        Data {
            multiplier_per_milli_second_slope_1: WrappedU256(
                multiplier_per_year_slope_1.0.div(milliseconds_per_year()),
            ),
            multiplier_per_milli_second_slope_2: WrappedU256(
                multiplier_per_year_slope_2.0.div(milliseconds_per_year()),
            ),
            base_rate_per_milli_second: WrappedU256(
                base_rate_per_year.0.div(milliseconds_per_year()),
            ),
            kink,
        }
    }

    /// The borrow rate per millisecond of a pool with the given balances.
    pub fn borrow_rate(&self, _cash: u128, _borrows: u128, _reserves: u128) -> (r: WrappedU256)
        requires
            utilization_rate_defined(_cash as nat, _borrows as nat, _reserves as nat),
            self.borrow_rate_fits(
                utilization_rate_spec(_cash as nat, _borrows as nat, _reserves as nat),
            ),
        ensures
            r@ == self.borrow_rate_at(
                utilization_rate_spec(_cash as nat, _borrows as nat, _reserves as nat),
            ),
    {
        let util = utilization_rate(_cash, _borrows, _reserves);
        let data = self;
        if util.le(&data.kink.0) {
            let result = util.mul(data.multiplier_per_milli_second_slope_1.0).div(base()).add(
                data.base_rate_per_milli_second.0,
            );
            return WrappedU256(result);
        }
        let normal_rate = data.kink.0.mul(self.multiplier_per_milli_second_slope_1.0).div(
            base(),
        ).add(data.base_rate_per_milli_second.0);
        let excess_util = util.sub(data.kink.0);
        let excess_rate = excess_util.mul(data.multiplier_per_milli_second_slope_2.0).div(base());
        WrappedU256(normal_rate.add(excess_rate))
    }

    /// The supply rate per millisecond of a pool with the given balances and reserve
    /// factor.
    pub fn supply_rate(
        &self,
        _cash: u128,
        _borrows: u128,
        _reserves: u128,
        _reserve_factor_mantissa: u128,
    ) -> (r: WrappedU256)
        requires
            utilization_rate_defined(_cash as nat, _borrows as nat, _reserves as nat),
            self.supply_rate_fits(
                utilization_rate_spec(_cash as nat, _borrows as nat, _reserves as nat),
                _reserve_factor_mantissa as nat,
            ),
        ensures
            r@ == self.supply_rate_at(
                utilization_rate_spec(_cash as nat, _borrows as nat, _reserves as nat),
                _reserve_factor_mantissa as nat,
            ),
    {
        let one_minus_reserve_factor = base().sub(u256_from_balance(_reserve_factor_mantissa));
        let borrow_rate = self.get_borrow_rate(_cash, _borrows, _reserves);
        let rate_to_pool = borrow_rate.0.mul(one_minus_reserve_factor).div(base());
        WrappedU256(utilization_rate(_cash, _borrows, _reserves).mul(rate_to_pool).div(base()))
    }

    /// The borrow rate per millisecond; see `borrow_rate`.
    pub fn get_borrow_rate(&self, cash: u128, borrows: u128, reserves: u128) -> (r: WrappedU256)
        requires
            utilization_rate_defined(cash as nat, borrows as nat, reserves as nat),
            self.borrow_rate_fits(
                utilization_rate_spec(cash as nat, borrows as nat, reserves as nat),
            ),
        ensures
            r@ == self.borrow_rate_at(
                utilization_rate_spec(cash as nat, borrows as nat, reserves as nat),
            ),
    {
        self.borrow_rate(cash, borrows, reserves)
    }

    /// The supply rate per millisecond; see `supply_rate`.
    pub fn get_supply_rate(
        &self,
        cash: u128,
        borrows: u128,
        reserves: u128,
        reserve_factor_mantissa: u128,
    ) -> (r: WrappedU256)
        requires
            utilization_rate_defined(cash as nat, borrows as nat, reserves as nat),
            self.supply_rate_fits(
                utilization_rate_spec(cash as nat, borrows as nat, reserves as nat),
                reserve_factor_mantissa as nat,
            ),
        ensures
            r@ == self.supply_rate_at(
                utilization_rate_spec(cash as nat, borrows as nat, reserves as nat),
                reserve_factor_mantissa as nat,
            ),
    {
        self.supply_rate(cash, borrows, reserves, reserve_factor_mantissa)
    }
}

} // verus!
