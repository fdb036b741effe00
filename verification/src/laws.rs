//! Properties of the protocol that span several operations or hold of every input.

use vstd::prelude::*;
use crate::account::AccountId;
use crate::arith::{lemma_div_monotone, lemma_mul_monotone};
use crate::controller::Data as ControllerData;
use crate::controller::Error as ControllerError;
use crate::controller::{MarketSnapshot, PoolAttributes, scan_markets, snapshot_skipped, ScanTotals};
use crate::price_oracle::PRICE_PRECISION;
use crate::percent::percent_mul_overflows;
use crate::controller::utils::{
    flatten, health_factor_spec, lemma_pow10_add, liquidity_sums, modify_extra, modify_extras, pow10,
    seize_tokens_spec, LiquidateCalculateSeizeTokensInput,
    HypotheticalAccountLiquidityCalculationParam,
};
use crate::exp::exp_scale_spec;
use crate::interest_rate_model::{Data as RateModel, base_spec, utilization_rate_spec};
use crate::leverager::{loop_deposit, close_rounds, close_step_spec, CloseStep, CLOSE_MAX_LOOPS};
use crate::pool::Data as PoolData;
use crate::psp22::Psp22Data;
use crate::types::WrappedU256;
use crate::u256::u256_max;
use crate::wad_ray::{div_guard, wad_mul_spec, ray_mul_spec, ray_div_spec, ray_scale_spec, exp_ray_ratio_spec};

verus! {

/// `x <= y` gives `z * x <= z * y`.
proof fn lemma_mul_left_monotone(z: nat, x: nat, y: nat)
    requires
        x <= y,
    ensures
        z * x <= z * y,
{
    assert(z * x <= z * y) by (nonlinear_arith)
        requires
            x <= y,
    ;
}

/// The borrow rate of the kinked model never falls as utilization rises.
pub proof fn law_borrow_rate_monotone(model: RateModel, u1: nat, u2: nat)
    requires
        u1 <= u2,
    ensures
        model.borrow_rate_at(u1) <= model.borrow_rate_at(u2),
{
    let kink = model.kink@;
    let s1 = model.multiplier_per_milli_second_slope_1@;
    let s2 = model.multiplier_per_milli_second_slope_2@;
    if u2 <= kink {
        lemma_mul_monotone(u1, u2, s1);
        lemma_div_monotone(u1 * s1, u2 * s1, base_spec());
    } else if u1 <= kink {
        lemma_mul_monotone(u1, kink, s1);
        lemma_div_monotone(u1 * s1, kink * s1, base_spec());
    } else {
        lemma_mul_monotone((u1 - kink) as nat, (u2 - kink) as nat, s2);
        lemma_div_monotone(((u1 - kink) as nat) * s2, ((u2 - kink) as nat) * s2, base_spec());
    }
}

/// While the reserves do not exceed the cash, utilization is at most 100%.
pub proof fn law_utilization_at_most_one(cash: nat, borrows: nat, reserves: nat)
    requires
        reserves <= cash,
    ensures
        utilization_rate_spec(cash, borrows, reserves) <= base_spec(),
{
    if borrows != 0 {
        let total = (cash + borrows - reserves) as nat;
        assert(borrows * base_spec() / total <= base_spec()) by (nonlinear_arith)
            requires
                borrows <= total,
                total > 0,
                base_spec() > 0,
        {
            assert(borrows * base_spec() <= total * base_spec());
        }
    }
}

/// Suppliers never earn more than borrowers pay: at utilization at most 100% and a
/// reserve factor at most 100%, the supply rate is at most the borrow rate.
pub proof fn law_supply_rate_at_most_borrow_rate(model: RateModel, util: nat, reserve_factor: nat)
    requires
        util <= base_spec(),
        reserve_factor <= base_spec(),
    ensures
        model.supply_rate_at(util, reserve_factor) <= model.borrow_rate_at(util),
{
    let b = base_spec();
    let br = model.borrow_rate_at(util);
    let kept = (b - reserve_factor) as nat;
    assert(br * kept / b <= br) by (nonlinear_arith)
        requires
            kept <= b,
            b > 0,
    {
        assert(br * kept <= br * b);
    }
    let x = br * kept / b;
    assert(util * x / b <= x) by (nonlinear_arith)
        requires
            util <= b,
            b > 0,
    {
        assert(util * x <= b * x);
    }
}

/// Interest accrues once per block: once accrued up to `at`, a second accrual at
/// `at`, at any rate, succeeds and changes nothing.
pub proof fn law_accrual_once_per_block(before: PoolData, after: PoolData, at: u64, rate: WrappedU256, again: WrappedU256)
    requires
        before.accrued(&after, at, rate),
    ensures
        after.accrue_spec(at, again) is Ok,
        after.accrual_done(&after, at, again),
{
}

/// Accrual never lowers the borrow index, the total borrows or the reserves.
pub proof fn law_accrual_never_lowers(before: PoolData, after: PoolData, at: u64, rate: WrappedU256)
    requires
        before.accrued(&after, at, rate),
    ensures
        after.borrow_index@ >= before.borrow_index@,
        after.total_borrows >= before.total_borrows,
        after.total_reserves >= before.total_reserves,
{
}

/// A repayment moves underlying from borrows to cash, and a borrow from cash to
/// borrows; neither changes the exchange rate of pool tokens.
pub proof fn law_exchange_rate_unchanged_by_repay(before: PoolData, after: PoolData, cash: u128, amount: u128)
    requires
        after.token.supply == before.token.supply,
        after.total_reserves == before.total_reserves,
        after.initial_exchange_rate_mantissa == before.initial_exchange_rate_mantissa,
        after.total_borrows + amount == before.total_borrows,
        cash + amount <= u128::MAX,
    ensures
        after.exchange_rate_spec((cash + amount) as u128) == before.exchange_rate_spec(cash),
{
}

/// Minting never creates value: the pool tokens minted for an amount are worth at
/// most that amount at the exchange rate they were minted at.
pub proof fn law_mint_not_overpaid(pool: PoolData, cash: u128, mint_amount: u128)
    requires
        pool.exchange_rate_spec(cash) > 0,
    ensures
        pool.minted_tokens(cash, mint_amount) * pool.exchange_rate_spec(cash) / exp_scale_spec() <= mint_amount,
{
    let rate = pool.exchange_rate_spec(cash);
    let s = exp_scale_spec();
    let m = mint_amount as nat;
    assert((m * s / rate) * rate / s <= m) by (nonlinear_arith)
        requires
            rate > 0,
            s > 0,
    {
        assert((m * s / rate) * rate <= m * s);
        assert((m * s / rate) * rate / s <= (m * s) / s);
        assert((m * s) / s == m);
    }
}

/// A repayment takes at most the debt and at most the amount offered.
pub proof fn law_repay_at_most_debt(pool: PoolData, borrower: AccountId, repay_amount: u128)
    ensures
        pool.repay_amount_final(borrower, repay_amount) <= pool.borrow_balance_spec(borrower),
        pool.repay_amount_final(borrower, repay_amount) <= repay_amount,
{
}

/// A seizure moves pool tokens from the borrower to the liquidator but for the
/// protocol share: together they lose exactly that share, and so does the supply.
pub proof fn law_seize_conserves_tokens(
    before: PoolData,
    after: PoolData,
    cash: u128,
    liquidator: AccountId,
    borrower: AccountId,
    seize_tokens: u128,
)
    requires
        liquidator != borrower,
        before.token.balance_spec(borrower) >= seize_tokens,
        before.seized(&after, cash, liquidator, borrower, seize_tokens),
        PoolData::protocol_seize_tokens(seize_tokens) <= seize_tokens,
        before.token.balance_spec(liquidator) + seize_tokens - PoolData::protocol_seize_tokens(seize_tokens) <= u128::MAX,
    ensures
        after.token.balance_spec(borrower) + after.token.balance_spec(liquidator)
            + PoolData::protocol_seize_tokens(seize_tokens)
            == before.token.balance_spec(borrower) + before.token.balance_spec(liquidator),
        after.token.supply + PoolData::protocol_seize_tokens(seize_tokens) == before.token.supply,
{
    let m = after.token.balances.view();
    assert(m.contains_key(borrower) && m[borrower] == (before.token.balance_spec(borrower) - seize_tokens) as u128);
    assert(m.contains_key(liquidator));
}

/// A transfer moves tokens between two accounts: their sum and the supply stay.
pub proof fn law_transfer_conserves_tokens(before: Psp22Data, after: Psp22Data, from: AccountId, to: AccountId, amount: u128)
    requires
        from != to,
        before.balance_spec(from) >= amount,
        before.balance_spec(to) + amount <= u128::MAX,
        after.supply == before.supply,
        after.balances.view() == before.balances.view()
            .insert(from, (before.balance_spec(from) - amount) as u128)
            .insert(to, (before.balance_spec(to) + amount) as u128),
    ensures
        after.balance_spec(from) + after.balance_spec(to) == before.balance_spec(from) + before.balance_spec(to),
        after.supply == before.supply,
{
}

/// Raising a delegate allowance and lowering it by the same amount restores it.
pub proof fn law_delegate_allowance_round_trip(
    d0: PoolData,
    d1: PoolData,
    d2: PoolData,
    owner: AccountId,
    delegatee: AccountId,
    amount: u128,
)
    requires
        d1.delegate_allowance_spec(owner, delegatee) == d0.delegate_allowance_spec(owner, delegatee) + amount,
        d2.delegate_allowance_spec(owner, delegatee) == d1.delegate_allowance_spec(owner, delegatee) - amount,
    ensures
        d2.delegate_allowance_spec(owner, delegatee) == d0.delegate_allowance_spec(owner, delegatee),
{
}

/// The manager of a pool changes hands in two steps: once the manager names a
/// successor, only that successor can accept, and accepting makes it the manager.
pub proof fn law_pool_manager_handover(before: PoolData, named: PoolData, manager: AccountId, successor: AccountId, other: AccountId)
    requires
        before.manager == Some(manager),
        named == (PoolData { pending_manager: Some(successor), ..before }),
        other != successor,
    ensures
        before.assert_manager_spec(manager) is Ok,
        named.accept_manager_spec(successor) is Ok,
        named.accept_manager_spec(other) == Err::<(), crate::pool::Error>(crate::pool::Error::CallerIsNotPendingManager),
        (PoolData { manager: named.pending_manager, pending_manager: None, ..named }).manager == Some(successor),
{
}

/// A pool is listed once: after it was listed, listing it again is refused.
pub proof fn law_market_listed_once(
    before: ControllerData,
    after: ControllerData,
    pool: AccountId,
    underlying: AccountId,
    collateral_factor_mantissa: Option<WrappedU256>,
    pool_liquidation_threshold: u128,
    underlying_price: Option<u128>,
    underlying2: AccountId,
    collateral_factor2: Option<WrappedU256>,
    pool_liquidation_threshold2: u128,
    underlying_price2: Option<u128>,
)
    requires
        after.market_underlying_pair.view() == before.market_underlying_pair.view().insert(pool, underlying),
    ensures
        after.support_market_spec(pool, underlying2, collateral_factor2, pool_liquidation_threshold2, underlying_price2) is Err,
        after.support_market_spec(pool, underlying2, collateral_factor2, pool_liquidation_threshold2, underlying_price2)
            == Err::<(), ControllerError>(ControllerError::MarketCountReachedToMaximum)
        || after.support_market_spec(pool, underlying2, collateral_factor2, pool_liquidation_threshold2, underlying_price2)
            == Err::<(), ControllerError>(ControllerError::MarketAlreadyListed),
{
    assert(after.is_listed_spec(pool));
}

/// An account without debt is healthy: its health factor is the largest value.
pub proof fn law_no_debt_is_healthy(collateral: nat, liquidation_threshold: nat)
    ensures
        health_factor_spec(collateral, 0, liquidation_threshold) == u256_max(),
{
}

/// Multiplying by one on the Wad scale gives the number back.
pub proof fn law_wad_mul_by_one(a: nat)
    ensures
        wad_mul_spec(a, exp_scale_spec()) == a,
{
    let s = exp_scale_spec();
    assert((a * s + s / 2) / s == a) by (nonlinear_arith)
        requires
            s == 1_000_000_000_000_000_000nat,
    ;
}

/// A loop never supplies more in a later round when it borrows at most 100% of what
/// it supplied.
pub proof fn law_loop_deposits_shrink(deposit: nat, borrow_ratio: nat, i: nat, j: nat)
    requires
        borrow_ratio <= 10000,
        i <= j,
    ensures
        loop_deposit(deposit, borrow_ratio, j) <= loop_deposit(deposit, borrow_ratio, i),
    decreases j - i,
{
    if i < j {
        law_loop_deposits_shrink(deposit, borrow_ratio, i, (j - 1) as nat);
        let prev = loop_deposit(deposit, borrow_ratio, (j - 1) as nat);
        lemma_mul_left_monotone(prev, borrow_ratio, 10000);
        lemma_div_monotone(prev * borrow_ratio, prev * 10000, 10000);
        assert(prev * 10000 / 10000 == prev) by (nonlinear_arith);
    }
}

/// Redeeming the pool tokens that a mint gave undoes the mint: the supply and the
/// minter's balance are back where they were.
pub proof fn law_redeem_undoes_mint(
    d0: PoolData,
    d1: PoolData,
    d2: PoolData,
    cash: u128,
    minter: AccountId,
    mint_amount: u128,
)
    requires
        d0.minted_tokens(cash, mint_amount) <= u128::MAX,
        d0.token.balance_spec(minter) + d0.minted_tokens(cash, mint_amount) <= u128::MAX,
        d0.mint_effect(&d1, cash, minter, mint_amount),
        d1.redeem_effect(&d2, minter, d0.minted_tokens(cash, mint_amount) as u128),
    ensures
        d2.token.supply == d0.token.supply,
        d2.token.balance_spec(minter) == d0.token.balance_spec(minter),
{
    assert(d1.token.balances.view().contains_key(minter));
    assert(d2.token.balances.view().contains_key(minter));
}

/// Repaying what was just borrowed undoes the borrow: the borrower owes what it owed
/// before, and the pool's total borrows are back.
pub proof fn law_repay_undoes_borrow(
    d0: PoolData,
    d1: PoolData,
    d2: PoolData,
    borrower: AccountId,
    amount: u128,
)
    requires
        d0.wf(),
        d0.borrow_balance_spec(borrower) + amount <= u128::MAX,
        d0.borrow_effect(&d1, borrower, amount),
        d1.repay_effect(&d2, borrower, amount),
    ensures
        d2.borrow_balance_spec(borrower) == d0.borrow_balance_spec(borrower),
        d2.total_borrows == d0.total_borrows,
{
    let index = d0.borrow_index@;
    let owed = d0.borrow_balance_spec(borrower);
    let grown: nat = owed + amount as nat;
    assert(d1.account_borrows.view().contains_key(borrower));
    assert((grown * index) / index == grown) by (nonlinear_arith)
        requires
            index > 0,
    ;
    assert(d1.borrow_balance_spec(borrower) == grown);
    assert(d2.account_borrows.view().contains_key(borrower));
    assert((owed * index) / index == owed) by (nonlinear_arith)
        requires
            index > 0,
    ;
}

/// An account that owes nothing in any market, redeeming and borrowing nothing,
/// has nothing on the borrow side of its liquidity, so it cannot fall short.
pub proof fn law_no_borrows_no_shortfall(
    params: Seq<HypotheticalAccountLiquidityCalculationParam>,
    token_modify: Option<AccountId>,
)
    requires
        forall|i: int| 0 <= i < params.len() ==> #[trigger] params[i].borrow_balance == 0,
    ensures
        liquidity_sums(params, token_modify, 0, 0).1 == 0,
    decreases params.len(),
{
    if params.len() > 0 {
        let rest = params.drop_last();
        assert forall|i: int| 0 <= i < rest.len() implies #[trigger] rest[i].borrow_balance == 0 by {
            assert(rest[i] == params[i]);
        }
        law_no_borrows_no_shortfall(rest, token_modify);
        let p = params.last();
        assert(p.borrow_balance == 0) by {
            assert(p == params[params.len() - 1]);
        }
        lemma_pow10_add(p.decimals as nat, 0);
        assert(flatten(0, p.decimals as nat) == 0);
    }
}

/// The hypothetical liquidity splits into the account's own liquidity and the
/// effect of the modification: the collateral side never depends on which asset is
/// modified nor on the amounts redeemed or borrowed, and the borrow side is the
/// unmodified one plus the values of the redeemed tokens and the new borrow in every
/// asset that is `token_modify`.
pub proof fn law_hypothetical_liquidity_splits(
    params: Seq<HypotheticalAccountLiquidityCalculationParam>,
    token_modify: Option<AccountId>,
    redeem: nat,
    borrow: nat,
)
    ensures
        liquidity_sums(params, token_modify, redeem, borrow).0 == liquidity_sums(params, None, 0, 0).0,
        liquidity_sums(params, token_modify, redeem, borrow).1
            == liquidity_sums(params, None, 0, 0).1 + modify_extras(params, token_modify, redeem, borrow),
    decreases params.len(),
{
    if params.len() > 0 {
        law_hypothetical_liquidity_splits(params.drop_last(), token_modify, redeem, borrow);
    }
}

/// No asset is `token_modify`: the modification adds nothing.
pub proof fn law_unmodified_liquidity(
    params: Seq<HypotheticalAccountLiquidityCalculationParam>,
    token_modify: Option<AccountId>,
    redeem: nat,
    borrow: nat,
)
    requires
        forall|i: int| 0 <= i < params.len() ==> token_modify != Some(#[trigger] params[i].asset),
    ensures
        modify_extras(params, token_modify, redeem, borrow) == 0,
        liquidity_sums(params, token_modify, redeem, borrow) == liquidity_sums(params, None, 0, 0),
    decreases params.len(),
{
    law_hypothetical_liquidity_splits(params, token_modify, redeem, borrow);
    if params.len() > 0 {
        let rest = params.drop_last();
        assert forall|i: int| 0 <= i < rest.len() implies token_modify != Some(#[trigger] rest[i].asset) by {
            assert(rest[i] == params[i]);
        }
        law_unmodified_liquidity(rest, token_modify, redeem, borrow);
        assert(params.last() == params[params.len() - 1]);
    }
}

/// With each asset listed once, the modification adds exactly the values of the
/// redeemed tokens and of the new borrow in the modified asset.
pub proof fn law_modified_liquidity(
    params: Seq<HypotheticalAccountLiquidityCalculationParam>,
    k: int,
    redeem: nat,
    borrow: nat,
)
    requires
        0 <= k < params.len(),
        forall|i: int, j: int| 0 <= i < j < params.len() ==> #[trigger] params[i].asset != #[trigger] params[j].asset,
    ensures
        modify_extras(params, Some(params[k].asset), redeem, borrow) == modify_extra(params[k], redeem, borrow),
        liquidity_sums(params, Some(params[k].asset), redeem, borrow).1
            == liquidity_sums(params, None, 0, 0).1 + modify_extra(params[k], redeem, borrow),
    decreases params.len(),
{
    let tm = Some(params[k].asset);
    law_hypothetical_liquidity_splits(params, tm, redeem, borrow);
    let rest = params.drop_last();
    let last = params.len() - 1;
    assert(params.last() == params[last]);
    if k == last {
        assert forall|i: int| 0 <= i < rest.len() implies tm != Some(#[trigger] rest[i].asset) by {
            assert(rest[i] == params[i]);
            assert(params[i].asset != params[last].asset);
        }
        law_unmodified_liquidity(rest, tm, redeem, borrow);
    } else {
        assert forall|i: int, j: int| 0 <= i < j < rest.len() implies #[trigger] rest[i].asset != #[trigger] rest[j].asset by {
            assert(rest[i] == params[i]);
            assert(rest[j] == params[j]);
        }
        assert(rest[k] == params[k]);
        law_modified_liquidity(rest, k, redeem, borrow);
        assert(params[k].asset != params[last].asset);
    }
}

/// Scaling an amount by a ray index and back gives the amount again, up to the
/// rounding of the two steps: at most half the index (in whole units) plus one away,
/// and exactly when the index is one.
pub proof fn law_scaled_round_trip(x: nat, idx: nat)
    requires
        idx > 0,
    ensures
        ({
            let b = idx * exp_ray_ratio_spec();
            let back = ray_mul_spec(b, ray_div_spec(x, b));
            &&& back <= x + idx / (2 * exp_scale_spec()) + 1
            &&& x <= back + idx / (2 * exp_scale_spec()) + 1
        }),
        idx == exp_scale_spec() ==> ray_mul_spec(idx * exp_ray_ratio_spec(), ray_div_spec(x, idx * exp_ray_ratio_spec())) == x,
{
    let rr: int = ray_scale_spec() as int;
    let b: int = (idx * exp_ray_ratio_spec()) as int;
    let h: int = b / 2;
    let r2: int = rr / 2;
    let xi: int = x as int;
    assert(rr == 1_000_000_000_000_000_000_000_000_000int);
    assert(r2 == 500_000_000_000_000_000_000_000_000int);
    assert(b > 0) by (nonlinear_arith)
        requires
            b == idx * 1_000_000_000int,
            idx > 0,
    ;
    let s: int = (xi * rr + h) / b;
    assert(s == ray_div_spec(x, b as nat));
    let y: int = (b * s + r2) / rr;
    assert(y == ray_mul_spec(b as nat, ray_div_spec(x, b as nat)));
    assert(s * b <= xi * rr + h && xi * rr + h < s * b + b) by (nonlinear_arith)
        requires
            b > 0,
            s == (xi * rr + h) / b,
    ;
    assert(y * rr <= b * s + r2 && b * s + r2 < y * rr + rr) by (nonlinear_arith)
        requires
            rr > 0,
            y == (b * s + r2) / rr,
    ;
    let q: int = h / rr;
    assert(q * rr <= h && h < q * rr + rr) by (nonlinear_arith)
        requires
            rr > 0,
            q == h / rr,
            h >= 0,
    ;
    assert(b - h <= h + 1);
    // The upper bound.
    assert(y <= xi + q + 1) by (nonlinear_arith)
        requires
            y * rr <= b * s + r2,
            s * b <= xi * rr + h,
            h < q * rr + rr,
            r2 < rr,
            rr > 0,
    ;
    // The lower bound.
    assert(s * b == b * s) by (nonlinear_arith);
    assert(xi * rr < y * rr + rr + h);
    let d: int = xi - y - 1;
    assert(d * rr < h) by (nonlinear_arith)
        requires
            xi * rr < y * rr + rr + h,
            d == xi - y - 1,
    ;
    assert(d <= q) by (nonlinear_arith)
        requires
            d * rr < h,
            h < q * rr + rr,
            rr > 0,
    ;
    // Half the ray index in rays is half the index in whole units.
    let e: int = exp_scale_spec() as int;
    assert(e == 1_000_000_000_000_000_000int);
    let q2: int = (idx as int) / (2 * e);
    let t: int = (idx as int) % (2 * e);
    assert(idx as int == 2 * e * q2 + t && 0 <= t < 2 * e) by (nonlinear_arith)
        requires
            e > 0,
            q2 == (idx as int) / (2 * e),
            t == (idx as int) % (2 * e),
    ;
    assert(b == 2 * rr * q2 + t * 1_000_000_000) by (nonlinear_arith)
        requires
            b == idx * 1_000_000_000int,
            idx as int == 2 * e * q2 + t,
            e == 1_000_000_000_000_000_000int,
            rr == 1_000_000_000_000_000_000_000_000_000int,
    ;
    assert(h == rr * q2 + (t * 1_000_000_000) / 2);
    assert((t * 1_000_000_000) / 2 < rr) by (nonlinear_arith)
        requires
            0 <= t < 2 * e,
            e == 1_000_000_000_000_000_000int,
            rr == 1_000_000_000_000_000_000_000_000_000int,
    ;
    assert(q == q2) by (nonlinear_arith)
        requires
            q * rr <= h,
            h < q * rr + rr,
            h == rr * q2 + (t * 1_000_000_000) / 2,
            0 <= (t * 1_000_000_000) / 2 < rr,
            rr > 0,
    ;
    if idx == exp_scale_spec() {
        assert(b == rr);
        assert(s == xi) by (nonlinear_arith)
            requires
                s * b <= xi * rr + h,
                xi * rr + h < s * b + b,
                b == rr,
                h == rr / 2,
                rr > 2,
        ;
        assert(y == xi) by (nonlinear_arith)
            requires
                y * rr <= b * s + r2,
                b * s + r2 < y * rr + rr,
                b == rr,
                s == xi,
                r2 == rr / 2,
                rr > 2,
        ;
    }
}

/// `close` repays and looks again at most as many times as it had rounds left, so
/// at most `CLOSE_MAX_LOOPS` times, whatever the pools answer; and no round repays
/// more than is owed.
pub proof fn law_close_rounds_bounded(withdrawable: Seq<u128>, owed: Seq<u128>, loop_remains: u128)
    ensures
        close_rounds(withdrawable, owed, loop_remains) <= loop_remains,
        loop_remains == CLOSE_MAX_LOOPS ==> close_rounds(withdrawable, owed, loop_remains) <= 40,
        withdrawable.len() > 0 && owed.len() > 0 ==> match close_step_spec(withdrawable[0], owed[0], loop_remains) {
            CloseStep::Repay(w, _) => w <= owed[0],
            CloseStep::RepayAll(w) => w == owed[0],
            CloseStep::Finish => true,
        },
    decreases withdrawable.len(),
{
    if withdrawable.len() > 0 && owed.len() > 0 {
        law_close_rounds_bounded(withdrawable.drop_first(), owed.drop_first(), (loop_remains - 1) as u128);
    }
}

/// The debt in the base currency of the markets a scan counts (all but `skip`, and
/// those where the account has neither supply nor borrow unless it is
/// `token_modify`): each adds the value of the account's borrow there at the
/// oracle's price, whatever the account supplies in it.
pub open spec fn counted_debt(skip: AccountId, token_modify: Option<AccountId>, snaps: Seq<MarketSnapshot>) -> nat
    decreases snaps.len(),
{
    if snaps.len() == 0 {
        0
    } else {
        let s = snaps.last();
        counted_debt(skip, token_modify, snaps.drop_last()) + if snapshot_skipped(s, skip, token_modify) {
            0
        } else {
            (s.price.unwrap() as nat) * (s.borrow_balance as nat) / (PRICE_PRECISION as nat)
        }
    }
}

/// The sum of `w` over the markets a scan counts (see `counted_debt`).
pub open spec fn counted_sum(
    skip: AccountId,
    token_modify: Option<AccountId>,
    snaps: Seq<MarketSnapshot>,
    w: spec_fn(MarketSnapshot) -> nat,
) -> nat
    decreases snaps.len(),
{
    if snaps.len() == 0 {
        0
    } else {
        let s = snaps.last();
        counted_sum(skip, token_modify, snaps.drop_last(), w) + if snapshot_skipped(s, skip, token_modify) {
            0
        } else {
            w(s)
        }
    }
}

/// The value in the base currency of what the account supplies in a market.
pub open spec fn supply_value(s: MarketSnapshot) -> nat {
    (s.price.unwrap() as nat) * (s.account_balance as nat) / (PRICE_PRECISION as nat)
}

/// A market's supply value.
pub open spec fn supply_weight() -> spec_fn(MarketSnapshot) -> nat {
    |s: MarketSnapshot| supply_value(s)
}

/// A market's supply value weighted by its collateral factor in `cfs`.
pub open spec fn ltv_weight(cfs: Map<AccountId, WrappedU256>) -> spec_fn(MarketSnapshot) -> nat {
    |s: MarketSnapshot| supply_value(s) * cfs[s.asset]@
}

/// A market's supply value weighted by its liquidation threshold.
pub open spec fn threshold_weight() -> spec_fn(MarketSnapshot) -> nat {
    |s: MarketSnapshot| supply_value(s) * (s.liquidation_threshold as nat)
}

proof fn lemma_scan_sums(
    cfs: Map<AccountId, WrappedU256>,
    skip: AccountId,
    token_modify: Option<AccountId>,
    snaps: Seq<MarketSnapshot>,
    init: ScanTotals,
)
    requires
        scan_markets(cfs, skip, token_modify, snaps, init) is Ok,
    ensures
        ({
            let t = scan_markets(cfs, skip, token_modify, snaps, init)->Ok_0;
            &&& t.0 == init.0 + counted_sum(skip, token_modify, snaps, supply_weight())
            &&& t.1 == init.1 + counted_sum(skip, token_modify, snaps, ltv_weight(cfs))
            &&& t.2 == init.2 + counted_sum(skip, token_modify, snaps, threshold_weight())
        }),
    decreases snaps.len(),
{
    if snaps.len() > 0 {
        lemma_scan_sums(cfs, skip, token_modify, snaps.drop_last(), init);
    }
}

/// The collateral of an account is the value of everything it supplies in the
/// markets counted (the calling pool's own when it describes itself), its average
/// loan to value and liquidation threshold are the collateral factors and
/// liquidation thresholds weighted by those values (zero without collateral), and
/// its health factor is that of the collateral, the debt and the average threshold.
pub proof fn law_account_collateral_and_averages(
    c: ControllerData,
    caller: AccountId,
    pool_attributes: Option<PoolAttributes>,
    attribute_price: Option<u128>,
    token_modify: Option<AccountId>,
    snaps: Seq<MarketSnapshot>,
)
    requires
        c.user_account_data_spec(caller, pool_attributes, attribute_price, token_modify, snaps) is Ok,
    ensures
        ({
            let d = c.user_account_data_spec(caller, pool_attributes, attribute_price, token_modify, snaps)->Ok_0;
            let cfs = c.collateral_factor_mantissa.view();
            let (coll0, ltv0, lt0, skip) = match pool_attributes {
                None => (0nat, 0nat, 0nat, caller),
                Some(a) => {
                    let v = (attribute_price.unwrap() as nat) * (a.account_balance as nat) / (PRICE_PRECISION as nat);
                    (v, v * cfs[a.pool.unwrap()]@, v * (a.liquidation_threshold as nat), a.pool.unwrap())
                },
            };
            let collateral = coll0 + counted_sum(skip, token_modify, snaps, supply_weight());
            let ltv_sum = ltv0 + counted_sum(skip, token_modify, snaps, ltv_weight(cfs));
            let lt_sum = lt0 + counted_sum(skip, token_modify, snaps, threshold_weight());
            &&& d.0 == collateral
            &&& d.2 == (if collateral == 0 { 0 } else { ltv_sum / collateral })
            &&& d.3 == (if collateral == 0 { 0 } else { lt_sum / collateral })
            &&& d.4 == health_factor_spec(d.0, d.1, d.3)
        }),
{
    let cfs = c.collateral_factor_mantissa.view();
    let start = crate::controller::scan_start(cfs, pool_attributes, attribute_price, caller)->Ok_0;
    lemma_scan_sums(cfs, start.1, token_modify, snaps, start.0);
}

proof fn lemma_scan_debt(
    cfs: Map<AccountId, WrappedU256>,
    skip: AccountId,
    token_modify: Option<AccountId>,
    snaps: Seq<MarketSnapshot>,
    init: ScanTotals,
)
    requires
        scan_markets(cfs, skip, token_modify, snaps, init) is Ok,
    ensures
        scan_markets(cfs, skip, token_modify, snaps, init)->Ok_0.3 == init.3 + counted_debt(skip, token_modify, snaps),
    decreases snaps.len(),
{
    if snaps.len() > 0 {
        lemma_scan_debt(cfs, skip, token_modify, snaps.drop_last(), init);
    }
}

/// The total debt of an account is the value of every borrow counted: the calling
/// pool's own when it describes itself, and each scanned market's, whether or not
/// the account supplies anything there.
pub proof fn law_total_debt_counts_every_borrow(
    c: ControllerData,
    caller: AccountId,
    pool_attributes: Option<PoolAttributes>,
    attribute_price: Option<u128>,
    token_modify: Option<AccountId>,
    snaps: Seq<MarketSnapshot>,
)
    requires
        c.user_account_data_spec(caller, pool_attributes, attribute_price, token_modify, snaps) is Ok,
    ensures
        ({
            let debt = c.user_account_data_spec(caller, pool_attributes, attribute_price, token_modify, snaps)->Ok_0.1;
            match pool_attributes {
                None => debt == counted_debt(caller, token_modify, snaps),
                Some(a) => debt == (attribute_price.unwrap() as nat) * (a.account_borrow_balance as nat)
                    / (PRICE_PRECISION as nat) + counted_debt(a.pool.unwrap(), token_modify, snaps),
            }
        }),
{
    let cfs = c.collateral_factor_mantissa.view();
    let start = crate::controller::scan_start(cfs, pool_attributes, attribute_price, caller)->Ok_0;
    lemma_scan_debt(cfs, start.1, token_modify, snaps, start.0);
}

/// A redemption is allowed only from a listed pool and where it leaves the account
/// without shortfall: its hypothetical liquidity after redeeming has no shortfall.
pub proof fn law_redeem_needs_liquidity(
    c: ControllerData,
    caller: AccountId,
    pool: AccountId,
    redeem_amount: u128,
    pool_attributes: Option<PoolAttributes>,
    attribute_price: Option<u128>,
    snaps: Seq<MarketSnapshot>,
)
    requires
        c.redeem_allowed_spec(caller, pool, redeem_amount, pool_attributes, attribute_price, snaps) is Ok,
    ensures
        c.is_listed_spec(pool),
        c.hypothetical_liquidity_spec(caller, Some(pool), redeem_amount, 0, pool_attributes, attribute_price, snaps)
            matches Ok(l) && l.1 == 0,
{
}

/// A redemption of a listed pool that would leave the account short is refused for
/// want of liquidity.
pub proof fn law_redeem_shortfall_refused(
    c: ControllerData,
    caller: AccountId,
    pool: AccountId,
    redeem_amount: u128,
    pool_attributes: Option<PoolAttributes>,
    attribute_price: Option<u128>,
    snaps: Seq<MarketSnapshot>,
)
    requires
        c.is_listed_spec(pool),
        c.hypothetical_liquidity_spec(caller, Some(pool), redeem_amount, 0, pool_attributes, attribute_price, snaps)
            matches Ok(l) && l.1 > 0,
    ensures
        c.redeem_allowed_spec(caller, pool, redeem_amount, pool_attributes, attribute_price, snaps)
            == Err::<(), ControllerError>(ControllerError::InsufficientLiquidity),
{
}

/// A borrow is allowed only from a listed pool whose borrowing is not paused, at a
/// positive price, below the borrow cap when there is one, and where it leaves the
/// account without shortfall.
pub proof fn law_borrow_needs_liquidity(
    c: ControllerData,
    caller: AccountId,
    pool: AccountId,
    borrow_amount: u128,
    pool_attributes: Option<PoolAttributes>,
    price: Option<u128>,
    pool_total_borrows: u128,
    snaps: Seq<MarketSnapshot>,
)
    requires
        c.borrow_allowed_spec(caller, pool, borrow_amount, pool_attributes, price, pool_total_borrows, snaps) is Ok,
    ensures
        c.is_listed_spec(pool),
        c.borrow_guardian_paused.view().contains_key(pool) && !c.borrow_guardian_paused.view()[pool],
        c.oracle.is_some(),
        price matches Some(p) && p > 0,
        c.borrow_caps.view().contains_key(pool) && c.borrow_caps.view()[pool] != 0 ==> (match pool_attributes {
            Some(a) => a.total_borrows,
            None => pool_total_borrows,
        }) + borrow_amount < c.borrow_caps.view()[pool],
        c.hypothetical_liquidity_spec(caller, Some(pool), 0, borrow_amount, pool_attributes, price, snaps)
            matches Ok(l) && l.1 == 0,
{
}

/// A borrow from a listed pool whose borrowing is not paused, with an oracle and a
/// positive price, below the borrow cap when there is one, that leaves the account
/// without shortfall, is allowed.
pub proof fn law_borrow_allowed_when_all_hold(
    c: ControllerData,
    caller: AccountId,
    pool: AccountId,
    borrow_amount: u128,
    pool_attributes: Option<PoolAttributes>,
    price: Option<u128>,
    pool_total_borrows: u128,
    snaps: Seq<MarketSnapshot>,
)
    requires
        c.is_listed_spec(pool),
        c.borrow_guardian_paused.view().contains_key(pool) && !c.borrow_guardian_paused.view()[pool],
        c.oracle.is_some(),
        pool_attributes matches Some(a) ==> a.underlying.is_some(),
        price matches Some(p) && p > 0,
        c.borrow_caps.view().contains_key(pool) && c.borrow_caps.view()[pool] != 0 ==> (match pool_attributes {
            Some(a) => a.total_borrows,
            None => pool_total_borrows,
        }) + borrow_amount < c.borrow_caps.view()[pool],
        c.hypothetical_liquidity_spec(caller, Some(pool), 0, borrow_amount, pool_attributes, price, snaps)
            matches Ok(l) && l.1 == 0,
    ensures
        c.borrow_allowed_spec(caller, pool, borrow_amount, pool_attributes, price, pool_total_borrows, snaps) is Ok,
{
}

/// A liquidation is allowed only between listed pools, of an account that falls
/// short, and may repay at most the close factor's share of the borrow balance (the
/// pool's own figure when it describes itself).
pub proof fn law_liquidation_within_close_factor(
    c: ControllerData,
    caller: AccountId,
    pool_borrowed: AccountId,
    pool_collateral: AccountId,
    repay_amount: u128,
    pool_attributes: Option<PoolAttributes>,
    attribute_price: Option<u128>,
    borrow_balance: u128,
    snaps: Seq<MarketSnapshot>,
)
    requires
        c.liquidate_borrow_allowed_spec(caller, pool_borrowed, pool_collateral, repay_amount, pool_attributes,
            attribute_price, borrow_balance, snaps) is Ok,
    ensures
        c.is_listed_spec(pool_borrowed) && c.is_listed_spec(pool_collateral),
        c.hypothetical_liquidity_spec(caller, None, 0, 0, pool_attributes, attribute_price, snaps)
            matches Ok(l) && l.1 > 0,
        (repay_amount as nat) * exp_scale_spec() <= c.close_factor_mantissa@ * (match pool_attributes {
            Some(a) => a.account_borrow_balance,
            None => borrow_balance,
        } as nat),
{
    let balance: nat = (match pool_attributes {
        Some(a) => a.account_borrow_balance,
        None => borrow_balance,
    }) as nat;
    let m = c.close_factor_mantissa@ * balance;
    let e = exp_scale_spec();
    assert((repay_amount as nat) * e <= m) by (nonlinear_arith)
        requires
            repay_amount as nat <= m / e,
            e > 0,
    ;
}

/// A liquidation of an account that falls short, of listed pools, that would repay
/// more than the close factor's share of the borrow balance is refused as too much.
pub proof fn law_liquidation_above_close_factor_refused(
    c: ControllerData,
    caller: AccountId,
    pool_borrowed: AccountId,
    pool_collateral: AccountId,
    repay_amount: u128,
    pool_attributes: Option<PoolAttributes>,
    attribute_price: Option<u128>,
    borrow_balance: u128,
    snaps: Seq<MarketSnapshot>,
)
    requires
        c.is_listed_spec(pool_borrowed),
        c.is_listed_spec(pool_collateral),
        c.hypothetical_liquidity_spec(caller, None, 0, 0, pool_attributes, attribute_price, snaps)
            matches Ok(l) && l.1 > 0,
        (repay_amount as nat) * exp_scale_spec() > c.close_factor_mantissa@ * (match pool_attributes {
            Some(a) => a.account_borrow_balance,
            None => borrow_balance,
        } as nat),
    ensures
        c.liquidate_borrow_allowed_spec(caller, pool_borrowed, pool_collateral, repay_amount, pool_attributes,
            attribute_price, borrow_balance, snaps) == Err::<(), ControllerError>(ControllerError::TooMuchRepay),
{
    let balance: nat = (match pool_attributes {
        Some(a) => a.account_borrow_balance,
        None => borrow_balance,
    }) as nat;
    let m = c.close_factor_mantissa@ * balance;
    let e = exp_scale_spec();
    assert(repay_amount as nat > m / e) by (nonlinear_arith)
        requires
            (repay_amount as nat) * e > m,
            e > 0,
    ;
}

/// A liquidation of an account that falls short, of listed pools, that repays at
/// most the close factor's share of the borrow balance is allowed.
pub proof fn law_liquidation_within_close_factor_allowed(
    c: ControllerData,
    caller: AccountId,
    pool_borrowed: AccountId,
    pool_collateral: AccountId,
    repay_amount: u128,
    pool_attributes: Option<PoolAttributes>,
    attribute_price: Option<u128>,
    borrow_balance: u128,
    snaps: Seq<MarketSnapshot>,
)
    requires
        c.is_listed_spec(pool_borrowed),
        c.is_listed_spec(pool_collateral),
        c.hypothetical_liquidity_spec(caller, None, 0, 0, pool_attributes, attribute_price, snaps)
            matches Ok(l) && l.1 > 0,
        (repay_amount as nat) * exp_scale_spec() <= c.close_factor_mantissa@ * (match pool_attributes {
            Some(a) => a.account_borrow_balance,
            None => borrow_balance,
        } as nat),
    ensures
        c.liquidate_borrow_allowed_spec(caller, pool_borrowed, pool_collateral, repay_amount, pool_attributes,
            attribute_price, borrow_balance, snaps) is Ok,
{
    let balance: nat = (match pool_attributes {
        Some(a) => a.account_borrow_balance,
        None => borrow_balance,
    }) as nat;
    let m = c.close_factor_mantissa@ * balance;
    let e = exp_scale_spec();
    assert(repay_amount as nat <= m / e) by (nonlinear_arith)
        requires
            (repay_amount as nat) * e <= m,
            e > 0,
    ;
}

/// A redemption from a listed pool by an account without debt that leaves it
/// without shortfall is allowed.
pub proof fn law_redeem_without_debt_allowed(
    c: ControllerData,
    caller: AccountId,
    pool: AccountId,
    redeem_amount: u128,
    pool_attributes: Option<PoolAttributes>,
    attribute_price: Option<u128>,
    snaps: Seq<MarketSnapshot>,
)
    requires
        c.is_listed_spec(pool),
        c.user_account_data_spec(caller, pool_attributes, attribute_price, Some(pool), snaps) matches Ok(d) && d.1 == 0,
        c.hypothetical_liquidity_spec(caller, Some(pool), redeem_amount, 0, pool_attributes, attribute_price, snaps)
            matches Ok(l) && l.1 == 0,
    ensures
        c.redeem_allowed_spec(caller, pool, redeem_amount, pool_attributes, attribute_price, snaps) is Ok,
{
}

/// An accrual puts the reserve factor's share of the interest into the reserves,
/// the interest being what the total borrows grew by.
pub proof fn law_accrual_reserves_take_their_share(before: PoolData, after: PoolData, at: u64, rate: WrappedU256)
    requires
        before.accrual_done(&after, at, rate),
    ensures
        after.total_borrows >= before.total_borrows,
        after.total_reserves as nat == before.total_reserves + before.reserve_factor_mantissa@
            * ((after.total_borrows - before.total_borrows) as nat) / exp_scale_spec(),
{
    assert(before.reserve_factor_mantissa@ * 0 == 0) by (nonlinear_arith);
}

/// `x` grown by the interest factor `factor` (18 decimals), rounded down.
pub open spec fn grown_by(x: nat, factor: nat) -> nat {
    x + factor * x / exp_scale_spec()
}

/// An accrual grows the total borrows and the borrow index by the same interest
/// factor.
pub proof fn law_accrual_grows_borrows_and_index_alike(before: PoolData, after: PoolData, at: u64, rate: WrappedU256)
    requires
        before.accrual_done(&after, at, rate),
    ensures
        exists|f: nat|
            after.total_borrows as nat == grown_by(before.total_borrows as nat, f)
            && after.borrow_index@ == #[trigger] grown_by(before.borrow_index@, f),
{
    if before.accrual_block_number == at {
        assert(0 * (before.total_borrows as nat) == 0);
        assert(0 * before.borrow_index@ == 0);
        assert(after.total_borrows as nat == grown_by(before.total_borrows as nat, 0));
        assert(after.borrow_index@ == grown_by(before.borrow_index@, 0));
    } else {
        let f = crate::pool::utils::interest_factor_of(&before.accrual_input(at, rate));
        assert(after.total_borrows as nat == grown_by(before.total_borrows as nat, f));
        assert(after.borrow_index@ == grown_by(before.borrow_index@, f));
    }
}

/// The collateral seized for a repayment: the repaid amount brought from the
/// borrowed asset's decimals to the collateral's (times ten to the difference when
/// the collateral has more decimals, divided by it, rounded down, when it has
/// fewer), times the ratio of the incentive-weighted price of the borrowed asset to
/// the collateral's price times its exchange rate (each product and the ratio on
/// 18 decimals, rounded down).
pub proof fn law_seize_tokens_follow_decimals(input: LiquidateCalculateSeizeTokensInput)
    ensures
        ({
            let e = exp_scale_spec();
            let weighted_borrowed = input.liquidation_incentive_mantissa@ * input.price_borrowed_mantissa@ / e;
            let collateral_value = input.price_collateral_mantissa@ * input.exchange_rate_mantissa@ / e;
            let ratio = weighted_borrowed * e / collateral_value;
            let repay = input.actual_repay_amount as nat;
            let dc = input.decimals_collateral as nat;
            let db = input.decimals_borrowed as nat;
            &&& dc >= db ==> seize_tokens_spec(&input) == ratio * (repay * pow10((dc - db) as nat)) / e
            &&& dc < db ==> seize_tokens_spec(&input) == ratio * (repay / pow10((db - dc) as nat)) / e
        }),
{
    let repay = input.actual_repay_amount as nat;
    let dc = input.decimals_collateral as nat;
    let db = input.decimals_borrowed as nat;
    if dc >= db {
        let k = (dc - db) as nat;
        lemma_pow10_add(k, db);
        lemma_pow10_add(db, 0);
        assert(k + db == dc);
        let a = pow10(k);
        let b = pow10(db);
        assert((repay * (a * b)) / b == repay * a) by (nonlinear_arith)
            requires
                b > 0,
        ;
        assert(repay * pow10(dc) == repay * (a * b));
    } else {
        let k = (db - dc) as nat;
        lemma_pow10_add(dc, k);
        lemma_pow10_add(k, 0);
        assert(dc + k == db);
        let a = pow10(dc);
        let b = pow10(k);
        vstd::arithmetic::div_mod::lemma_div_multiples_vanish_quotient(a as int, repay as int, b as int);
        assert(a * repay == repay * a) by (nonlinear_arith);
    }
}

/// With debt, and no overflow, the health factor is the collateral weighted by the
/// liquidation threshold (`weighted`: the product over 10000, rounded half up)
/// divided by the debt on 18 decimals, rounded half up.
pub proof fn law_health_factor_is_weighted_collateral_over_debt(
    collateral: nat,
    debt: nat,
    liquidation_threshold: nat,
    weighted: nat,
)
    requires
        debt > 0,
        !percent_mul_overflows(liquidation_threshold, collateral),
        weighted * 10000 <= liquidation_threshold * collateral + 5000,
        liquidation_threshold * collateral + 5000 < weighted * 10000 + 10000,
        weighted <= div_guard(exp_scale_spec(), debt),
    ensures
        ({
            let hf = health_factor_spec(collateral, debt, liquidation_threshold);
            &&& hf * debt <= weighted * exp_scale_spec() + debt / 2
            &&& weighted * exp_scale_spec() + debt / 2 < hf * debt + debt
        }),
{
    let x = liquidation_threshold * collateral + 5000;
    let w0: nat = if liquidation_threshold == 0 || collateral == 0 {
        0
    } else {
        x / 10000
    };
    if liquidation_threshold == 0 || collateral == 0 {
        assert(liquidation_threshold * collateral == 0) by (nonlinear_arith)
            requires
                liquidation_threshold == 0 || collateral == 0,
        ;
    }
    assert(w0 == weighted) by (nonlinear_arith)
        requires
            weighted * 10000 <= x,
            x < weighted * 10000 + 10000,
            w0 == x / 10000 || (w0 == 0 && x == 5000),
    ;
    let n = weighted * exp_scale_spec() + debt / 2;
    let hf = n / debt;
    assert(hf * debt <= n && n < hf * debt + debt) by (nonlinear_arith)
        requires
            debt > 0,
            hf == n / debt,
    ;
}

} // verus!
