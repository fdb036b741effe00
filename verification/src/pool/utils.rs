//! Stateless calculations of a pool: interest accrual, exchange rate, scaled
//! balances and the split of seized collateral.

use vstd::prelude::*;
use crate::u256::{U256, u256_max, u128_max};
use crate::types::WrappedU256;
use crate::exp::{Exp, exp_scale, exp_scale_spec};
use crate::wad_ray::{Ray, exp_ray_ratio, exp_ray_ratio_spec, ray_scale_spec, ray_mul_spec,
    ray_div_spec, mul_guard, div_guard};
use crate::arith::{lemma_le_div_mul, lemma_div_monotone, lemma_mul_le, lemma_le_div_of_mul};
use super::Error;

verus! {

/// The highest borrow rate per millisecond a pool accepts: 0.0005% (5 * 10^13).
pub open spec fn borrow_rate_max_spec() -> nat {
    50_000_000_000_000
}

/// The share of seized collateral kept as reserves: 2.8% (2.8 * 10^16).
pub open spec fn protocol_seize_share_spec() -> nat {
    28_000_000_000_000_000
}

pub fn borrow_rate_max_mantissa() -> (r: U256)
    ensures
        r@ == borrow_rate_max_spec(),
{
    // .0005% / time
    exp_scale().mul(U256::from_u128(5)).div(U256::from_u128(1000 * 100))
}

pub fn reserve_factor_max_mantissa() -> (r: U256)
    ensures
        r@ == exp_scale_spec(),
{
    // 100% / time
    exp_scale()
}

pub fn protocol_seize_share_mantissa() -> (r: U256)
    ensures
        r@ == protocol_seize_share_spec(),
{
    // 2.8%
    exp_scale().mul(U256::from_u128(28)).div(U256::from_u128(10 * 100))
}

pub struct CalculateInterestInput {
    pub total_borrows: u128,
    pub total_reserves: u128,
    pub borrow_index: U256,
    pub borrow_rate: U256,
    pub old_block_timestamp: u64,
    pub new_block_timestamp: u64,
    pub reserve_factor_mantissa: U256,
}

pub struct CalculateInterestOutput {
    pub borrow_index: U256,
    pub total_borrows: u128,
    pub total_reserves: u128,
    pub interest_accumulated: u128,
}

/// `amount / index` on the Ray scale, rounded half up: the scaled amount of `amount`
/// at the index `idx` (18 decimals).
pub fn scaled_amount_of(amount: u128, idx: Exp) -> (r: u128)
    requires
        idx@ * exp_ray_ratio_spec() <= u256_max(),
        idx@ != 0,
        ray_div_spec(amount as nat, idx@ * exp_ray_ratio_spec()) <= u128_max(),
    ensures
        r as nat == ray_div_spec(amount as nat, idx@ * exp_ray_ratio_spec()),
{
    let ray_idx = idx.to_ray();
    proof {
        let b = ray_idx@;
        assert(b <= u256_max());
        assert(b / 2 <= u256_max() / 2);
        assert(((u256_max() - b / 2) as nat) >= u256_max() / 2);
        lemma_div_monotone(u256_max() / 2, (u256_max() - b / 2) as nat, ray_scale_spec());
        assert(amount as nat <= div_guard(ray_scale_spec(), b));
    }
    let divided = Ray { mantissa: WrappedU256(U256::from_u128(amount)) }.ray_div(ray_idx).unwrap();
    divided.mantissa.0.as_u128()
}

/// `scaled_amount * index` on the Ray scale, rounded half up: the amount that the
/// scaled amount stands for at the index `idx` (18 decimals).
pub fn from_scaled_amount(scaled_amount: u128, idx: Exp) -> (r: u128)
    requires
        idx@ * exp_ray_ratio_spec() <= u256_max(),
        scaled_amount != 0 ==> idx@ * exp_ray_ratio_spec() <= mul_guard(
            ray_scale_spec(),
            scaled_amount as nat,
        ),
        ray_mul_spec(idx@ * exp_ray_ratio_spec(), scaled_amount as nat) <= u128_max(),
    ensures
        r as nat == ray_mul_spec(idx@ * exp_ray_ratio_spec(), scaled_amount as nat),
{
    let multiplied = idx.to_ray().ray_mul(Ray { mantissa: WrappedU256(U256::from_u128(scaled_amount)) });
    proof {
        crate::wad_ray::lemma_ray_mul_zero(scaled_amount as nat);
        crate::wad_ray::lemma_ray_mul_zero(idx@ * exp_ray_ratio_spec());
    }
    multiplied.unwrap().mantissa.0.as_u128()
}

/// The second-order term of the compounded interest, on the Ray scale:
/// `delta * (delta - 1) * rate² / 2`.
pub open spec fn second_term_spec(rate: nat, delta: nat) -> nat {
    let r = rate * exp_ray_ratio_spec();
    let dm1 = (delta - 1) as nat;
    delta * dm1 * ray_mul_spec(r, r) / 2
}

/// The third-order term of the compounded interest, on the Ray scale:
/// `delta * (delta - 1) * (delta - 2) * rate³ / 6`.
pub open spec fn third_term_spec(rate: nat, delta: nat) -> nat {
    let r = rate * exp_ray_ratio_spec();
    let dm1 = (delta - 1) as nat;
    let dm2 = if delta > 2 { (delta - 2) as nat } else { 0 };
    delta * dm1 * dm2 * ray_mul_spec(ray_mul_spec(r, r), r) / 6
}

/// The interest factor accumulated over `delta` milliseconds at `rate` per millisecond
/// (18 decimals): the binomial expansion of `(1 + rate)^delta - 1` cut after the third
/// term, `rate·delta + C(delta,2)·rate² + C(delta,3)·rate³`, with the powers of the
/// rate taken on the Ray scale and rounded half up.
pub open spec fn compound_interest_spec(rate: nat, delta: nat) -> nat {
    if delta == 0 {
        0
    } else {
        rate * delta + second_term_spec(rate, delta) / exp_ray_ratio_spec() + third_term_spec(
            rate,
            delta,
        ) / exp_ray_ratio_spec()
    }
}

/// Every step of `compound_interest` stays within 256 bits.
pub open spec fn compound_interest_fits(rate: nat, delta: nat) -> bool {
    delta == 0 || {
        let r = rate * exp_ray_ratio_spec();
        let bp2 = ray_mul_spec(r, r);
        let bp3 = ray_mul_spec(bp2, r);
        let dm1 = (delta - 1) as nat;
        let dm2 = if delta > 2 { (delta - 2) as nat } else { 0 };
        &&& r <= u256_max()
        &&& r != 0 ==> r <= mul_guard(ray_scale_spec(), r)
        &&& r != 0 && bp2 != 0 ==> bp2 <= mul_guard(ray_scale_spec(), r)
        &&& delta * dm1 <= u256_max()
        &&& delta * dm1 * bp2 <= u256_max()
        &&& delta * dm1 * dm2 <= u256_max()
        &&& delta * dm1 * dm2 * bp3 <= u256_max()
        &&& rate * delta <= u256_max()
        &&& rate * delta + second_term_spec(rate, delta) / exp_ray_ratio_spec() <= u256_max()
        &&& compound_interest_spec(rate, delta) <= u256_max()
    }
}

/// The interest factor accumulated over `delta` milliseconds at the rate
/// `borrow_rate_per_millisec`; see `compound_interest_spec`.
pub fn compound_interest(borrow_rate_per_millisec: &Exp, delta: U256) -> (r: Exp)
    requires
        compound_interest_fits(borrow_rate_per_millisec@, delta@),
    ensures
        r@ == compound_interest_spec(borrow_rate_per_millisec@, delta@),
{
    if delta.is_zero() {
        return Exp { mantissa: WrappedU256(U256::zero()) };
    }
    let ghost rate = borrow_rate_per_millisec@;
    let ghost rr = rate * exp_ray_ratio_spec();
    let delta_minus_one = delta.sub(U256::one());
    let delta_minus_two = if delta.gt(&U256::from_u128(2)) {
        delta.sub(U256::from_u128(2))
    } else {
        U256::zero()
    };
    proof {
        crate::wad_ray::lemma_ray_mul_zero(rr);
        crate::wad_ray::lemma_ray_mul_zero(0);
    }
    let base_power_two = borrow_rate_per_millisec.to_ray().ray_mul(borrow_rate_per_millisec.to_ray()).unwrap();
    let base_power_three = base_power_two.ray_mul(borrow_rate_per_millisec.to_ray()).unwrap();
    assert(base_power_two@ == ray_mul_spec(rr, rr));
    assert(base_power_three@ == ray_mul_spec(ray_mul_spec(rr, rr), rr));
    let second_term_ray = delta.mul(delta_minus_one).mul(base_power_two.mantissa.0).div(
        U256::from_u128(2),
    );
    let third_term_ray = delta.mul(delta_minus_one).mul(delta_minus_two).mul(
        base_power_three.mantissa.0,
    ).div(U256::from_u128(6));
    assert(second_term_ray@ == second_term_spec(rate, delta@));
    assert(third_term_ray@ == third_term_spec(rate, delta@));
    Exp {
        mantissa: WrappedU256(
            borrow_rate_per_millisec.mantissa.0.mul(delta).add(
                second_term_ray.div(exp_ray_ratio()),
            ).add(third_term_ray.div(exp_ray_ratio())),
        ),
    }
}

/// Below the highest borrow rate, every step of `compound_interest` stays within 256
/// bits for any elapsed time that fits in a `u64`.
pub proof fn lemma_compound_interest_fits(rate: nat, delta: nat)
    requires
        rate <= borrow_rate_max_spec(),
        delta <= 0xffff_ffff_ffff_ffff,
    ensures
        compound_interest_fits(rate, delta),
{
    if delta > 0 {
        let r = rate * exp_ray_ratio_spec();
        let bp2 = ray_mul_spec(r, r);
        let bp3 = ray_mul_spec(bp2, r);
        let dm1 = (delta - 1) as nat;
        let dm2: nat = if delta > 2 { (delta - 2) as nat } else { 0 };
        let d: nat = 0xffff_ffff_ffff_ffff;
        let rmax: nat = 50_000_000_000_000_000_000_000;
        let g: nat = (u256_max() - ray_scale_spec() / 2) as nat;
        assert(r <= rmax);
        lemma_mul_le(r, rmax, r, rmax);
        if r != 0 {
            lemma_le_div_of_mul(r, r, g);
        }
        lemma_div_monotone(r * r + ray_scale_spec() / 2, rmax * rmax + ray_scale_spec() / 2, ray_scale_spec());
        assert(bp2 <= 3_000_000_000_000_000_000);
        lemma_mul_le(bp2, 3_000_000_000_000_000_000, r, rmax);
        if r != 0 {
            lemma_le_div_of_mul(bp2, r, g);
        }
        lemma_div_monotone(bp2 * r + ray_scale_spec() / 2, 3_000_000_000_000_000_000 * rmax + ray_scale_spec() / 2, ray_scale_spec());
        assert(bp3 <= 200_000_000_000_000);
        lemma_mul_le(delta, d, dm1, d);
        lemma_mul_le(delta * dm1, d * d, bp2, 3_000_000_000_000_000_000);
        lemma_mul_le(delta * dm1, d * d, dm2, d);
        lemma_mul_le(delta * dm1 * dm2, d * d * d, bp3, 200_000_000_000_000);
        lemma_mul_le(rate, borrow_rate_max_spec(), delta, d);
        lemma_div_monotone(delta * dm1 * bp2, d * d * 3_000_000_000_000_000_000, 2);
        lemma_div_monotone(delta * dm1 * dm2 * bp3, d * d * d * 200_000_000_000_000, 6);
        lemma_div_monotone(second_term_spec(rate, delta), d * d * 3_000_000_000_000_000_000 / 2, exp_ray_ratio_spec());
        lemma_div_monotone(third_term_spec(rate, delta), d * d * d * 200_000_000_000_000 / 6, exp_ray_ratio_spec());
    }
}

/// The time between two timestamps, in either order.
pub open spec fn elapsed(old: u64, new: u64) -> nat {
    if new >= old {
        (new - old) as nat
    } else {
        (old - new) as nat
    }
}

/// The interest factor of an accrual (18 decimals).
pub open spec fn interest_factor_of(input: &CalculateInterestInput) -> nat {
    compound_interest_spec(
        input.borrow_rate@,
        elapsed(input.old_block_timestamp, input.new_block_timestamp),
    )
}

/// The interest accumulated on the total borrows by an accrual.
pub open spec fn interest_accumulated_of(input: &CalculateInterestInput) -> nat {
    interest_factor_of(input) * (input.total_borrows as nat) / exp_scale_spec()
}

/// Every step of an accrual below the highest borrow rate stays within its integer type:
/// 256 bits for products and the borrow index, 128 bits for balances.
pub open spec fn calculate_interest_fits(input: &CalculateInterestInput) -> bool {
    let f = interest_factor_of(input);
    let interest = interest_accumulated_of(input);
    &&& f * (input.total_borrows as nat) <= u256_max()
    &&& interest + input.total_borrows <= u128_max()
    &&& input.reserve_factor_mantissa@ * interest <= u256_max()
    &&& input.reserve_factor_mantissa@ * interest / exp_scale_spec() + input.total_reserves
        <= u128_max()
    &&& f * input.borrow_index@ <= u256_max()
    &&& f * input.borrow_index@ / exp_scale_spec() + input.borrow_index@ <= u256_max()
}

/// Accrues interest from `old_block_timestamp` to `new_block_timestamp`.
///
/// A borrow rate above `borrow_rate_max_mantissa` is refused. Otherwise the interest
/// factor `f` (see `compound_interest_spec`) gives the interest `f * total_borrows`,
/// which is added to the total borrows; the reserve factor's share of it is added to the
/// reserves, and the borrow index grows by the factor `1 + f`.
pub fn calculate_interest(input: &CalculateInterestInput) -> (r: Result<CalculateInterestOutput, Error>)
    requires
        input.borrow_rate@ <= borrow_rate_max_spec() ==> calculate_interest_fits(input),
    ensures
        match r {
            Ok(out) => {
                let interest = interest_accumulated_of(input);
                &&& input.borrow_rate@ <= borrow_rate_max_spec()
                &&& out.interest_accumulated as nat == interest
                &&& out.total_borrows as nat == interest + input.total_borrows
                &&& out.total_reserves as nat == input.reserve_factor_mantissa@ * interest
                    / exp_scale_spec() + input.total_reserves
                &&& out.borrow_index@ == interest_factor_of(input) * input.borrow_index@
                    / exp_scale_spec() + input.borrow_index@
            },
            Err(e) => e == Error::BorrowRateIsAbsurdlyHigh && input.borrow_rate@
                > borrow_rate_max_spec(),
        },
{
    if input.borrow_rate.gt(&borrow_rate_max_mantissa()) {
        return Err(Error::BorrowRateIsAbsurdlyHigh);
    }
    let delta: u64 = if input.new_block_timestamp >= input.old_block_timestamp {
        input.new_block_timestamp - input.old_block_timestamp
    } else {
        input.old_block_timestamp - input.new_block_timestamp
    };
    proof {
        lemma_compound_interest_fits(input.borrow_rate@, delta as nat);
    }
    let compound_interest_factor = compound_interest(
        &Exp { mantissa: WrappedU256(input.borrow_rate) },
        U256::from_u128(delta as u128),
    );
    let interest_accumulated = compound_interest_factor.mul_scalar_truncate(
        U256::from_u128(input.total_borrows),
    );
    let total_borrows_new = interest_accumulated.as_u128() + input.total_borrows;
    let total_reserves_new = Exp { mantissa: WrappedU256(input.reserve_factor_mantissa) }.mul_scalar_truncate_add_uint(
        interest_accumulated,
        U256::from_u128(input.total_reserves),
    );
    let borrow_index_new = compound_interest_factor.mul_scalar_truncate_add_uint(
        input.borrow_index,
        input.borrow_index,
    );
    Ok(
        CalculateInterestOutput {
            borrow_index: borrow_index_new,
            interest_accumulated: interest_accumulated.as_u128(),
            total_borrows: total_borrows_new,
            total_reserves: total_reserves_new.as_u128(),
        },
    )
}

/// Splits seized pool tokens between the liquidator and the protocol.
///
/// Returns `(liquidator_seize_tokens, protocol_seize_amount, protocol_seize_tokens)`:
/// the protocol keeps `seize_tokens * share` (18 decimals) tokens, worth
/// `exchange_rate * protocol_seize_tokens` of the underlying, and the liquidator
/// receives the rest.
pub fn protocol_seize_amount(
    exchange_rate: Exp,
    seize_tokens: u128,
    protocol_seize_share_mantissa: U256,
) -> (r: (u128, u128, u128))
    requires
        (seize_tokens as nat) * protocol_seize_share_mantissa@ <= u256_max(),
        (seize_tokens as nat) * protocol_seize_share_mantissa@ / exp_scale_spec() <= seize_tokens,
        exchange_rate@ * ((seize_tokens as nat) * protocol_seize_share_mantissa@ / exp_scale_spec())
            <= u256_max(),
        exchange_rate@ * ((seize_tokens as nat) * protocol_seize_share_mantissa@ / exp_scale_spec())
            / exp_scale_spec() <= u128_max(),
    ensures
        ({
            let protocol_tokens = (seize_tokens as nat) * protocol_seize_share_mantissa@ / exp_scale_spec();
            &&& r.2 as nat == protocol_tokens
            &&& r.0 as nat == seize_tokens - protocol_tokens
            &&& r.1 as nat == exchange_rate@ * protocol_tokens / exp_scale_spec()
        }),
{
    let protocol_seize_tokens = Exp {
        mantissa: WrappedU256(U256::from_u128(seize_tokens).mul(protocol_seize_share_mantissa)),
    }.truncate();
    let liquidator_seize_tokens = U256::from_u128(seize_tokens).sub(protocol_seize_tokens);
    (
        liquidator_seize_tokens.as_u128(),
        exchange_rate.mul_scalar_truncate(protocol_seize_tokens).as_u128(),
        protocol_seize_tokens.as_u128(),
    )
}

/// The pool-token exchange rate (18 decimals): the default rate while no pool token
/// exists, else `(cash + borrows - reserves) / total_supply`.
pub fn exchange_rate(
    total_supply: u128,
    total_cash: u128,
    total_borrows: u128,
    total_reserves: u128,
    default_exchange_rate_mantissa: U256,
) -> (r: U256)
    requires
        total_supply != 0 ==> total_cash + total_borrows <= u128_max(),
        total_supply != 0 ==> total_reserves <= total_cash + total_borrows,
    ensures
        r@ == (if total_supply == 0 {
            default_exchange_rate_mantissa@
        } else {
            ((total_cash + total_borrows - total_reserves) as nat) * exp_scale_spec()
                / total_supply as nat
        }),
{
    if total_supply == 0 {
        return default_exchange_rate_mantissa;
    }
    let cash_plus_borrows_minus_reserves: u128 = total_cash + total_borrows - total_reserves;
    U256::from_u128(cash_plus_borrows_minus_reserves).mul(exp_scale()).div(
        U256::from_u128(total_supply),
    )
}

} // verus!
