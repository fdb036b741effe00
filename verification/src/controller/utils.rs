//! Stateless calculations of the controller: liquidation amounts, account
//! liquidity and health factors.

use vstd::prelude::*;
use vstd::arithmetic::power::pow;
use crate::u256::{U256, u256_max, u128_max};
use crate::types::WrappedU256;
use crate::account::AccountId;
use crate::exp::{Exp, exp_scale, exp_scale_spec};
use crate::percent::{Percent, percent_mul_overflows, percent_mul_spec};
use crate::wad_ray::{Wad, div_guard, wad_div_spec};
use crate::price_oracle::PRICE_PRECISION;

verus! {

/// A health factor below 10^18 (one) makes an account liquidatable.
pub const HEALTH_FACTOR_LIQUIDATION_THRESHOLD: u128 = 1_000_000_000_000_000_000;

/// 10 to the power `d`.
pub open spec fn pow10(d: nat) -> nat
    decreases d,
{
    if d == 0 {
        1
    } else {
        10 * pow10((d - 1) as nat)
    }
}

/// `pow10` agrees with vstd's `pow`.
pub proof fn lemma_pow10_is_pow(d: nat)
    ensures
        pow10(d) == pow(10, d),
    decreases d,
{
    reveal(pow);
    if d > 0 {
        lemma_pow10_is_pow((d - 1) as nat);
    }
}

/// `10^(a+b) == 10^a * 10^b`.
pub proof fn lemma_pow10_add(a: nat, b: nat)
    ensures
        pow10(a + b) == pow10(a) * pow10(b),
        pow10(a) >= 1,
    decreases a,
{
    if a > 0 {
        let am1 = (a - 1) as nat;
        lemma_pow10_add(am1, b);
        assert(((a + b) - 1) as nat == am1 + b);
        assert(pow10(a + b) == 10 * pow10(am1 + b));
        assert(pow10(a) == 10 * pow10(am1));
        assert(10 * (pow10(am1) * pow10(b)) == (10 * pow10(am1)) * pow10(b)) by (nonlinear_arith);
    } else {
        assert(pow10(0) == 1);
        assert(a + b == b);
    }
}

/// `10^38`, the largest power of ten below 2^128.
pub proof fn lemma_pow10_38()
    ensures
        pow10(38) == 100_000_000_000_000_000_000_000_000_000_000_000_000,
{
    reveal_with_fuel(pow10, 39);
}

/// `10^d` as a `u128`; defined for `d <= 38`.
pub fn pow10_u128(d: u8) -> (r: u128)
    requires
        d <= 38,
    ensures
        r as nat == pow10(d as nat),
{
    let mut r: u128 = 1;
    let mut i: u8 = 0;
    while i < d
        invariant
            i <= d,
            d <= 38,
            r as nat == pow10(i as nat),
        decreases d - i,
    {
        proof {
            lemma_pow10_38();
            lemma_pow10_add((i + 1) as nat, (37 - i) as nat);
            lemma_pow10_add((37 - i) as nat, 0);
            assert(pow10((i + 1) as nat) <= pow10(38)) by (nonlinear_arith)
                requires
                    pow10(38) == pow10((i + 1) as nat) * pow10((37 - i) as nat),
                    pow10((37 - i) as nat) >= 1,
            ;
        }
        r = r * 10;
        i = i + 1;
    }
    r
}

pub struct LiquidateCalculateSeizeTokensInput {
    pub price_borrowed_mantissa: U256,
    pub decimals_borrowed: u8,
    pub price_collateral_mantissa: U256,
    pub decimals_collateral: u8,
    pub exchange_rate_mantissa: U256,
    pub liquidation_incentive_mantissa: U256,
    pub actual_repay_amount: u128,
}

/// The ratio `(incentive * price_borrowed) / (price_collateral * exchange_rate)`
/// (18 decimals), each product truncated to 18 decimals.
pub open spec fn seize_ratio_spec(input: &LiquidateCalculateSeizeTokensInput) -> nat {
    let numerator = input.liquidation_incentive_mantissa@ * input.price_borrowed_mantissa@
        / exp_scale_spec();
    let denominator = input.price_collateral_mantissa@ * input.exchange_rate_mantissa@
        / exp_scale_spec();
    numerator * exp_scale_spec() / denominator
}

/// The repaid amount converted from the borrowed asset's decimals to the collateral's.
pub open spec fn seize_repay_adjusted(input: &LiquidateCalculateSeizeTokensInput) -> nat {
    (input.actual_repay_amount as nat) * pow10(input.decimals_collateral as nat) / pow10(
        input.decimals_borrowed as nat,
    )
}

/// The collateral pool tokens seized for repaying `actual_repay_amount`:
/// `repay * incentive * price_borrowed / (price_collateral * exchange_rate)`, adjusted
/// for the decimals of both assets.
pub open spec fn seize_tokens_spec(input: &LiquidateCalculateSeizeTokensInput) -> nat {
    seize_ratio_spec(input) * seize_repay_adjusted(input) / exp_scale_spec()
}

/// Every step of `liquidate_calculate_seize_tokens` stays within its integer type.
pub open spec fn seize_tokens_fits(input: &LiquidateCalculateSeizeTokensInput) -> bool {
    let numerator = input.liquidation_incentive_mantissa@ * input.price_borrowed_mantissa@
        / exp_scale_spec();
    &&& input.liquidation_incentive_mantissa@ * input.price_borrowed_mantissa@ <= u256_max()
    &&& input.price_collateral_mantissa@ * input.exchange_rate_mantissa@ <= u256_max()
    &&& input.price_collateral_mantissa@ * input.exchange_rate_mantissa@ / exp_scale_spec() != 0
    &&& numerator * exp_scale_spec() <= u256_max()
    &&& pow10(input.decimals_collateral as nat) <= u256_max()
    &&& pow10(input.decimals_borrowed as nat) <= u256_max()
    &&& (input.actual_repay_amount as nat) * pow10(input.decimals_collateral as nat) <= u256_max()
    &&& seize_ratio_spec(input) * seize_repay_adjusted(input) <= u256_max()
    &&& seize_tokens_spec(input) <= u128_max()
}

/// Calculate seize value when liquidation
pub fn liquidate_calculate_seize_tokens(input: &LiquidateCalculateSeizeTokensInput) -> (r: u128)
    requires
        seize_tokens_fits(input),
    ensures
        r as nat == seize_tokens_spec(input),
{
    let numerator = Exp { mantissa: WrappedU256(input.liquidation_incentive_mantissa) }.mul(
        Exp { mantissa: WrappedU256(input.price_borrowed_mantissa) },
    );
    let denominator = Exp { mantissa: WrappedU256(input.price_collateral_mantissa) }.mul(
        Exp { mantissa: WrappedU256(input.exchange_rate_mantissa) },
    );
    let ratio = numerator.div(denominator);
    proof {
        lemma_pow10_is_pow(input.decimals_collateral as nat);
        lemma_pow10_is_pow(input.decimals_borrowed as nat);
        lemma_pow10_add(input.decimals_borrowed as nat, 0);
    }
    let seize_tokens = ratio.mul_scalar_truncate(
        U256::from_u128(input.actual_repay_amount).mul(
            U256::from_u128(10).pow(U256::from_u128(input.decimals_collateral as u128)),
        ).div(U256::from_u128(10).pow(U256::from_u128(input.decimals_borrowed as u128))),
    );
    seize_tokens.as_u128()
}

/// The health factor of an account (18 decimals): its collateral weighted by the
/// liquidation threshold (four decimals), divided by its debt, on the Wad scale.
/// It is the largest integer when there is no debt, and zero when either step
/// reports an overflow.
pub open spec fn health_factor_spec(collateral: nat, debt: nat, liquidation_threshold: nat) -> nat {
    if debt == 0 {
        u256_max()
    } else if percent_mul_overflows(liquidation_threshold, collateral) {
        0
    } else {
        let weighted = if liquidation_threshold == 0 || collateral == 0 {
            0
        } else {
            percent_mul_spec(liquidation_threshold, collateral)
        };
        if weighted > div_guard(exp_scale_spec(), debt) {
            0
        } else {
            wad_div_spec(weighted, debt)
        }
    }
}

/// Calculate Health Factor from Balance
pub fn calculate_health_factor_from_balances(
    total_collateral_in_base_currency: U256,
    total_debt_in_base_currency: U256,
    liquidation_threshold: U256,
) -> (r: U256)
    ensures
        r@ == health_factor_spec(
            total_collateral_in_base_currency@,
            total_debt_in_base_currency@,
            liquidation_threshold@,
        ),
{
    if total_debt_in_base_currency.is_zero() {
        return U256::max_value();
    }
    let percent_mul_result = (Percent { value: liquidation_threshold }).percent_mul(
        total_collateral_in_base_currency,
    );
    match percent_mul_result {
        Err(_) => U256::from_u128(0),
        Ok(weighted) => {
            let wad_div_result = (Wad { mantissa: WrappedU256(weighted.value) }).wad_div(
                Wad { mantissa: WrappedU256(total_debt_in_base_currency) },
            );
            match wad_div_result {
                Err(_) => U256::from_u128(0),
                Ok(w) => w.mantissa.0,
            }
        },
    }
}

#[derive(Clone, Copy, Debug)]
pub struct BalanceDecreaseAllowedParam {
    pub asset_price: U256,
    pub amount_in_base_currency_unit: U256,
    pub total_collateral_in_base_currency: U256,
    pub avg_liquidation_threshold: U256,
    pub liquidation_threshold: U256,
    pub total_debt_in_base_currency: U256,
}

/// The value, in the base currency, of `amount` at `price`.
pub open spec fn decrease_in_base_currency(price: nat, amount: nat) -> nat {
    price * amount / PRICE_PRECISION as nat
}

/// Whether an account may withdraw collateral worth `amount * price`: the collateral
/// covers the amount and something remains, and the health factor after the
/// withdrawal, with the liquidation threshold reweighted to the remaining collateral,
/// is at least one.
pub open spec fn balance_decrease_allowed_values(
    price: nat,
    amount: nat,
    collateral: nat,
    avg_liquidation_threshold: nat,
    liquidation_threshold: nat,
    debt: nat,
) -> bool {
    let value = decrease_in_base_currency(price, amount);
    if collateral < value {
        false
    } else if collateral - value == 0 {
        false
    } else {
        let after = (collateral - value) as nat;
        let threshold_after = ((collateral * avg_liquidation_threshold - value
            * liquidation_threshold) as nat) / after;
        health_factor_spec(after, debt, threshold_after)
            >= HEALTH_FACTOR_LIQUIDATION_THRESHOLD as nat
    }
}

/// Every step of `balance_decrease_allowed` stays within 256 bits and the reweighted
/// threshold is not negative.
pub open spec fn balance_decrease_fits_values(
    price: nat,
    amount: nat,
    collateral: nat,
    avg_liquidation_threshold: nat,
    liquidation_threshold: nat,
) -> bool {
    let value = decrease_in_base_currency(price, amount);
    &&& price * amount <= u256_max()
    &&& value < collateral ==> {
        &&& collateral * avg_liquidation_threshold <= u256_max()
        &&& value * liquidation_threshold <= u256_max()
        &&& value * liquidation_threshold <= collateral * avg_liquidation_threshold
    }
}

pub open spec fn balance_decrease_allowed_spec(param: BalanceDecreaseAllowedParam) -> bool {
    balance_decrease_allowed_values(
        param.asset_price@,
        param.amount_in_base_currency_unit@,
        param.total_collateral_in_base_currency@,
        param.avg_liquidation_threshold@,
        param.liquidation_threshold@,
        param.total_debt_in_base_currency@,
    )
}

pub open spec fn balance_decrease_fits(param: BalanceDecreaseAllowedParam) -> bool {
    balance_decrease_fits_values(
        param.asset_price@,
        param.amount_in_base_currency_unit@,
        param.total_collateral_in_base_currency@,
        param.avg_liquidation_threshold@,
        param.liquidation_threshold@,
    )
}

pub fn balance_decrease_allowed(param: BalanceDecreaseAllowedParam) -> (r: bool)
    requires
        balance_decrease_fits(param),
    ensures
        r == balance_decrease_allowed_spec(param),
{
    let amount_to_decrease_in_base_currency = param.asset_price.mul(
        param.amount_in_base_currency_unit,
    ).div(U256::from_u128(PRICE_PRECISION));
    if param.total_collateral_in_base_currency.lt(&amount_to_decrease_in_base_currency) {
        return false;
    }
    let collateral_balance_after_decrease = param.total_collateral_in_base_currency.sub(
        amount_to_decrease_in_base_currency,
    );
    if collateral_balance_after_decrease.is_zero() {
        return false;
    }
    let liquidation_threshold_after_decrease = param.total_collateral_in_base_currency.mul(
        param.avg_liquidation_threshold,
    ).sub(amount_to_decrease_in_base_currency.mul(param.liquidation_threshold)).div(
        collateral_balance_after_decrease,
    );
    let health_factor_after_decrease = calculate_health_factor_from_balances(
        collateral_balance_after_decrease,
        param.total_debt_in_base_currency,
        liquidation_threshold_after_decrease,
    );
    health_factor_after_decrease.ge(&U256::from_u128(HEALTH_FACTOR_LIQUIDATION_THRESHOLD))
}

/// The largest collateral factor: 90% (9 * 10^17).
pub fn collateral_factor_max_mantissa() -> (r: U256)
    ensures
        r@ == 900_000_000_000_000_000,
{
    // 90%
    exp_scale().mul(U256::from_u128(90)).div(U256::from_u128(100))
}

#[derive(Clone, Copy, Debug)]
pub struct HypotheticalAccountLiquidityCalculationParam {
    pub asset: AccountId,
    pub decimals: u8,
    pub token_balance: u128,
    pub borrow_balance: u128,
    pub exchange_rate_mantissa: Exp,
    pub collateral_factor_mantissa: Exp,
    pub oracle_price_mantissa: Exp,
}

pub struct GetHypotheticalAccountLiquidityInput {
    pub asset_params: Vec<HypotheticalAccountLiquidityCalculationParam>,
    pub token_modify: Option<AccountId>,
    pub redeem_tokens: u128,
    pub borrow_amount: u128,
}

/// An amount with `decimals` decimals brought to 18 decimals.
pub open spec fn flatten(volume: nat, decimals: nat) -> nat {
    volume * exp_scale_spec() / pow10(decimals)
}

/// The value in the base currency of one pool token counted as collateral:
/// collateral factor × exchange rate × oracle price (18 decimals).
pub open spec fn token_to_denom_spec(p: HypotheticalAccountLiquidityCalculationParam) -> nat {
    (p.collateral_factor_mantissa@ * p.exchange_rate_mantissa@ / exp_scale_spec())
        * p.oracle_price_mantissa@ / exp_scale_spec()
}

/// The collateral value of an asset, in 18 decimals.
pub open spec fn asset_collateral_spec(p: HypotheticalAccountLiquidityCalculationParam) -> nat {
    flatten(
        token_to_denom_spec(p) * (p.token_balance as nat) / exp_scale_spec(),
        p.decimals as nat,
    )
}

/// The borrowed value of an asset, in 18 decimals.
pub open spec fn asset_borrow_spec(p: HypotheticalAccountLiquidityCalculationParam) -> nat {
    flatten(
        p.oracle_price_mantissa@ * (p.borrow_balance as nat) / exp_scale_spec(),
        p.decimals as nat,
    )
}

/// Every step of the per-asset calculation stays within its integer type.
pub open spec fn asset_fits(p: HypotheticalAccountLiquidityCalculationParam) -> bool {
    &&& p.decimals <= 38
    &&& p.collateral_factor_mantissa@ * p.exchange_rate_mantissa@ <= u256_max()
    &&& (p.collateral_factor_mantissa@ * p.exchange_rate_mantissa@ / exp_scale_spec())
        * p.oracle_price_mantissa@ <= u256_max()
    &&& token_to_denom_spec(p) * (p.token_balance as nat) <= u256_max()
    &&& (token_to_denom_spec(p) * (p.token_balance as nat) / exp_scale_spec()) * exp_scale_spec()
        <= u256_max()
    &&& p.oracle_price_mantissa@ * (p.borrow_balance as nat) <= u256_max()
    &&& (p.oracle_price_mantissa@ * (p.borrow_balance as nat) / exp_scale_spec())
        * exp_scale_spec() <= u256_max()
}

/// Calculate the available capacity in a pool for a given user
/// NOTE: This function has no state and calculates its arguments as source information
pub fn get_hypothetical_account_liquidity_per_asset(
    token_balance: u128,
    borrow_balance: u128,
    decimals: u8,
    exchange_rate_mantissa: Exp,
    collateral_factor_mantissa: Exp,
    oracle_price_mantissa: Exp,
) -> (r: (Exp, U256, U256))
    requires
        asset_fits(
            HypotheticalAccountLiquidityCalculationParam {
                asset: AccountId { w0: 0, w1: 0, w2: 0, w3: 0 },
                decimals,
                token_balance,
                borrow_balance,
                exchange_rate_mantissa,
                collateral_factor_mantissa,
                oracle_price_mantissa,
            },
        ),
    ensures
        ({
            let p = HypotheticalAccountLiquidityCalculationParam {
                asset: AccountId { w0: 0, w1: 0, w2: 0, w3: 0 },
                decimals,
                token_balance,
                borrow_balance,
                exchange_rate_mantissa,
                collateral_factor_mantissa,
                oracle_price_mantissa,
            };
            &&& r.0@ == token_to_denom_spec(p)
            &&& r.1@ == asset_collateral_spec(p)
            &&& r.2@ == asset_borrow_spec(p)
        }),
{
    // Pre-compute a conversion factor from tokens -> base token (normalized price value)
    let token_to_denom = collateral_factor_mantissa.mul(exchange_rate_mantissa).mul(
        oracle_price_mantissa,
    );
    let ten_pow = U256::from_u128(pow10_u128(decimals));
    proof {
        lemma_pow10_add(decimals as nat, 0);
    }
    // sumCollateral += tokensToDenom * cTokenBalance
    let collateral = token_to_denom.mul_scalar_truncate(U256::from_u128(token_balance));
    let flatten_collateral = collateral.mul(exp_scale()).div(ten_pow);
    // sumBorrowPlusEffects += oraclePrice * borrowBalance
    let borrow_plus_effect = oracle_price_mantissa.mul_scalar_truncate(
        U256::from_u128(borrow_balance),
    );
    let flatten_borrow_plus_effect = borrow_plus_effect.mul(exp_scale()).div(ten_pow);
    (token_to_denom, flatten_collateral, flatten_borrow_plus_effect)
}

/// The borrowed value after the effect of redeeming `redeem` pool tokens and
/// borrowing `borrow` more of the asset `p`, starting from `sum_borrow`.
pub open spec fn modify_effect(
    p: HypotheticalAccountLiquidityCalculationParam,
    sum_borrow: nat,
    redeem: nat,
    borrow: nat,
) -> nat {
    let after_redeem = token_to_denom_spec(p) * flatten(redeem, p.decimals as nat) / exp_scale_spec()
        + sum_borrow;
    p.oracle_price_mantissa@ * flatten(borrow, p.decimals as nat) / exp_scale_spec()
        + after_redeem
}

/// What redeeming `redeem` pool tokens and borrowing `borrow` more of the asset `p`
/// add to the borrow side: their values in the base currency, each rounded down.
pub open spec fn modify_extra(p: HypotheticalAccountLiquidityCalculationParam, redeem: nat, borrow: nat) -> nat {
    token_to_denom_spec(p) * flatten(redeem, p.decimals as nat) / exp_scale_spec()
        + p.oracle_price_mantissa@ * flatten(borrow, p.decimals as nat) / exp_scale_spec()
}

/// The sum of `modify_extra` over the assets that are `token_modify`.
pub open spec fn modify_extras(
    params: Seq<HypotheticalAccountLiquidityCalculationParam>,
    token_modify: Option<AccountId>,
    redeem: nat,
    borrow: nat,
) -> nat
    decreases params.len(),
{
    if params.len() == 0 {
        0
    } else {
        let p = params.last();
        modify_extras(params.drop_last(), token_modify, redeem, borrow) + if token_modify == Some(p.asset) {
            modify_extra(p, redeem, borrow)
        } else {
            0
        }
    }
}

/// The sums `(collateral, borrows plus effects)` over the assets: each asset adds its
/// collateral and its borrows, and the modified asset also adds the value of the
/// redeemed pool tokens and of the new borrow.
pub open spec fn liquidity_sums(
    params: Seq<HypotheticalAccountLiquidityCalculationParam>,
    token_modify: Option<AccountId>,
    redeem: nat,
    borrow: nat,
) -> (nat, nat)
    decreases params.len(),
{
    if params.len() == 0 {
        (0, 0)
    } else {
        let prev = liquidity_sums(params.drop_last(), token_modify, redeem, borrow);
        let p = params.last();
        let sum_collateral = prev.0 + asset_collateral_spec(p);
        let sum_borrow = prev.1 + asset_borrow_spec(p);
        if token_modify == Some(p.asset) {
            (sum_collateral, modify_effect(p, sum_borrow, redeem, borrow))
        } else {
            (sum_collateral, sum_borrow)
        }
    }
}

/// Every step of `get_hypothetical_account_liquidity` stays within 256 bits.
pub open spec fn liquidity_fits(
    params: Seq<HypotheticalAccountLiquidityCalculationParam>,
    token_modify: Option<AccountId>,
    redeem: nat,
    borrow: nat,
) -> bool
    decreases params.len(),
{
    if params.len() == 0 {
        true
    } else {
        let prev = liquidity_sums(params.drop_last(), token_modify, redeem, borrow);
        let p = params.last();
        let sum_borrow = prev.1 + asset_borrow_spec(p);
        &&& liquidity_fits(params.drop_last(), token_modify, redeem, borrow)
        &&& asset_fits(p)
        &&& prev.0 + asset_collateral_spec(p) <= u256_max()
        &&& sum_borrow <= u256_max()
        &&& token_modify == Some(p.asset) ==> {
            let fr = flatten(redeem, p.decimals as nat);
            let fb = flatten(borrow, p.decimals as nat);
            &&& token_to_denom_spec(p) * fr <= u256_max()
            &&& token_to_denom_spec(p) * fr / exp_scale_spec() + sum_borrow <= u256_max()
            &&& p.oracle_price_mantissa@ * fb <= u256_max()
            &&& modify_effect(p, sum_borrow, redeem, borrow) <= u256_max()
        }
    }
}

proof fn lemma_liquidity_fits_prefix(
    params: Seq<HypotheticalAccountLiquidityCalculationParam>,
    token_modify: Option<AccountId>,
    redeem: nat,
    borrow: nat,
    i: int,
)
    requires
        0 <= i <= params.len(),
        liquidity_fits(params, token_modify, redeem, borrow),
    ensures
        liquidity_fits(params.take(i), token_modify, redeem, borrow),
    decreases params.len(),
{
    if i < params.len() {
        assert(params.drop_last().take(i) =~= params.take(i));
        lemma_liquidity_fits_prefix(params.drop_last(), token_modify, redeem, borrow, i);
    } else {
        assert(params.take(i) =~= params);
    }
}

/// Calculate the available capacity (hypothetical_account_liquidity) for a given user
/// NOTE: This function has no state and calculates its arguments as source information
pub fn get_hypothetical_account_liquidity(input: GetHypotheticalAccountLiquidityInput) -> (r: (U256, U256))
    requires
        liquidity_fits(
            input.asset_params@,
            input.token_modify,
            input.redeem_tokens as nat,
            input.borrow_amount as nat,
        ),
    ensures
        (r.0@, r.1@) == liquidity_sums(
            input.asset_params@,
            input.token_modify,
            input.redeem_tokens as nat,
            input.borrow_amount as nat,
        ),
{
    let mut sum_collateral = U256::from_u128(0);
    let mut sum_borrow_plus_effect = U256::from_u128(0);
    let GetHypotheticalAccountLiquidityInput {
        asset_params,
        token_modify,
        redeem_tokens,
        borrow_amount,
    } = input;
    let ghost params = asset_params@;
    let ghost redeem = redeem_tokens as nat;
    let ghost borrow = borrow_amount as nat;
    let n = asset_params.len();
    let mut i: usize = 0;
    assert(params.take(0) =~= Seq::<HypotheticalAccountLiquidityCalculationParam>::empty());
    while i < n
        invariant
            n == params.len(),
            params == asset_params@,
            i <= n,
            liquidity_fits(params, token_modify, redeem, borrow),
            redeem == redeem_tokens as nat,
            borrow == borrow_amount as nat,
            (sum_collateral@, sum_borrow_plus_effect@) == liquidity_sums(
                params.take(i as int),
                token_modify,
                redeem,
                borrow,
            ),
        decreases n - i,
    {
        let param = asset_params[i];
        proof {
            lemma_liquidity_fits_prefix(params, token_modify, redeem, borrow, i + 1);
            assert(params.take(i + 1).drop_last() =~= params.take(i as int));
            assert(params.take(i + 1).last() == param);
        }
        let (token_to_denom, collateral, borrow_plus_effect) =
            get_hypothetical_account_liquidity_per_asset(
            param.token_balance,
            param.borrow_balance,
            param.decimals,
            param.exchange_rate_mantissa,
            param.collateral_factor_mantissa,
            param.oracle_price_mantissa,
        );
        sum_collateral = sum_collateral.add(collateral);
        sum_borrow_plus_effect = sum_borrow_plus_effect.add(borrow_plus_effect);
        // Calculate effects of interacting with cTokenModify
        if token_modify == Some(param.asset) {
            let ten_pow = U256::from_u128(pow10_u128(param.decimals));
            proof {
                lemma_pow10_add(param.decimals as nat, 0);
            }
            // redeem effect
            // sumBorrowPlusEffects += tokensToDenom * redeemTokens
            sum_borrow_plus_effect = token_to_denom.mul_scalar_truncate_add_uint(
                U256::from_u128(redeem_tokens).mul(exp_scale()).div(ten_pow),
                sum_borrow_plus_effect,
            );
            // borrow effect
            // sumBorrowPlusEffects += oraclePrice * borrowAmount
            sum_borrow_plus_effect = param.oracle_price_mantissa.mul_scalar_truncate_add_uint(
                U256::from_u128(borrow_amount).mul(exp_scale()).div(ten_pow),
                sum_borrow_plus_effect,
            );
        }
        i = i + 1;
    }
    assert(params.take(n as int) =~= params);
    (sum_collateral, sum_borrow_plus_effect)
}

} // verus!
