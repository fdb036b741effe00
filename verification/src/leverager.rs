//! The leverager: loops supply and borrow in a pool to build a leveraged position,
//! and reports how much of a position can safely be withdrawn.

use vstd::prelude::*;
use crate::account::AccountId;
use crate::arith::{lemma_div_monotone, lemma_mul_monotone, lemma_u128_product};
use crate::controller::{AccountData, Error as ControllerError};
use crate::controller::utils::{calculate_health_factor_from_balances, health_factor_spec};
use crate::pool::Error as PoolError;
use crate::price_oracle::PRICE_PRECISION;
use crate::psp22::PSP22Error;
use crate::types::WrappedU256;
use crate::u256::{U256, u256_max, u128_max};

verus! {

/// The most rounds `close` repays and withdraws.
pub const CLOSE_MAX_LOOPS: u128 = 40;

/// The fewest and the most rounds of a loop.
pub const MIN_LOOP_COUNT: u128 = 2;
pub const MAX_LOOP_COUNT: u128 = 40;

/// The health factor a withdrawal must leave: 1.01 (18 decimals).
pub const HEALTH_FACTOR_LIMIT: u128 = 1_010_000_000_000_000_000;

/// Why the leverager refused an action.
#[derive(Debug, PartialEq, Eq, Clone)]
pub enum Error {
    ManagerIsNotSet,
    CallerIsNotManager,
    InappropriateBorrowRate,
    InappropriateLoopCount,
    ControllerIsNotSet,
    MarketNotListed,
    WETHIsNotSet,
    Controller(ControllerError),
    Pool(PoolError),
    PSP22(PSP22Error),
}

/// What an account may still borrow, in the base currency.
#[derive(Clone, Copy, Debug)]
pub struct AvailableBorrows {
    pub total_collateral_in_base_currency: U256,
    pub available_borrow_in_base_currency: U256,
    pub price_eth: u128,
    pub health_factor: U256,
    pub ltv: U256,
}

/// How much of its collateral an account can withdraw.
#[derive(Clone, Copy, Debug)]
pub struct Withdrawable {
    pub total_collateral_in_base_currency: U256,
    pub total_debt_in_base_currency: U256,
    pub current_liquidation_threshold: U256,
    pub afford_in_base_currency: U256,
    pub withdrawable_collateral_in_base_currency: U256,
    pub withdrawable_collateral: U256,
    pub withdraw_amount: U256,
}

/// One call that a loop makes on the pool, for the caller.
#[derive(Clone, Copy, Debug, PartialEq, Eq, Structural)]
pub enum LoopStep {
    /// Supply this much of the asset.
    Mint(u128),
    /// Borrow this much of the asset.
    Borrow(u128),
}

/// What `close` does next, given what can be withdrawn and what is owed.
#[derive(Clone, Copy, Debug, PartialEq, Eq, Structural)]
pub enum CloseStep {
    /// Nothing is left to do.
    Finish,
    /// Withdraw and repay this amount, which settles the debt, and finish.
    RepayAll(u128),
    /// Withdraw and repay this amount, then look again with this many rounds left.
    Repay(u128, u128),
}

/// The leverager's storage.
pub struct Data {
    /// AccountId of Controller
    pub controller: Option<AccountId>,
    /// AccountId of Weth
    pub weth: Option<AccountId>,
    /// AccountId of Price Oracle
    pub price_oracle: Option<AccountId>,
    /// AccountId of Manager
    pub manager: Option<AccountId>,
}

/// The loan to value of a collateral factor (18 decimals), in basis points.
pub open spec fn loan_to_value_spec(collateral_factor: nat) -> nat {
    collateral_factor * 10000 / (PRICE_PRECISION as nat)
}

/// The value in the base currency of `amount` of an asset at `price`.
pub open spec fn in_base(price: nat, amount: nat) -> nat {
    price * amount / (PRICE_PRECISION as nat)
}

/// The health factor of an account with collateral `tc`, debt `debt` and average
/// liquidation threshold `avg_lt` (both in the base currency) after it withdraws
/// `amount` of an asset of price `price` and liquidation threshold `lt`: the
/// collateral loses the withdrawn value and the threshold is reweighted.
pub open spec fn health_factor_after(tc: nat, debt: nat, avg_lt: nat, lt: nat, price: nat, amount: nat) -> nat {
    let withdrawn = in_base(price, amount);
    let after = if tc > withdrawn { (tc - withdrawn) as nat } else { 0nat };
    let threshold_after = ((avg_lt * tc - lt * withdrawn) as nat) / after;
    health_factor_spec(after, debt, threshold_after)
}

/// The arithmetic of `health_factor_after` stays within 256 bits, the reweighted
/// threshold is not negative, and collateral remains.
pub open spec fn health_factor_after_fits(tc: nat, avg_lt: nat, lt: nat, price: nat, amount: nat) -> bool {
    let withdrawn = in_base(price, amount);
    &&& avg_lt * tc <= u256_max()
    &&& lt * withdrawn <= avg_lt * tc
    &&& tc > withdrawn
}

/// The withdraw amount after `k` cuts of 5%.
pub open spec fn withdraw_after_cuts(start: nat, k: nat) -> nat
    decreases k,
{
    if k == 0 {
        start
    } else {
        withdraw_after_cuts(start, (k - 1) as nat) * 95 / 100
    }
}

/// Cutting never raises the amount.
pub proof fn lemma_withdraw_after_cuts_le(start: nat, k: nat)
    ensures
        withdraw_after_cuts(start, k) <= start,
    decreases k,
{
    if k > 0 {
        lemma_withdraw_after_cuts_le(start, (k - 1) as nat);
        let prev = withdraw_after_cuts(start, (k - 1) as nat);
        assert(prev * 95 / 100 <= prev) by (nonlinear_arith);
    }
}

/// The calls of a loop that starts by supplying `deposit`, with `rounds` rounds of
/// borrowing left: supply, then borrow `borrow_ratio` basis points of what was
/// supplied and supply it again, until the rounds run out or the amount is zero.
pub open spec fn loop_plan(deposit: nat, borrow_ratio: nat, rounds: nat) -> Seq<LoopStep>
    decreases rounds,
{
    if rounds == 0 {
        if deposit != 0 {
            seq![LoopStep::Mint(deposit as u128)]
        } else {
            Seq::empty()
        }
    } else {
        let next = deposit * borrow_ratio / 10000;
        if next == 0 {
            seq![LoopStep::Mint(deposit as u128)]
        } else {
            seq![LoopStep::Mint(deposit as u128), LoopStep::Borrow(next as u128)]
                + loop_plan(next, borrow_ratio, (rounds - 1) as nat)
        }
    }
}

/// The amount supplied in round `i` of a loop.
pub open spec fn loop_deposit(deposit: nat, borrow_ratio: nat, i: nat) -> nat
    decreases i,
{
    if i == 0 {
        deposit
    } else {
        loop_deposit(deposit, borrow_ratio, (i - 1) as nat) * borrow_ratio / 10000
    }
}

/// Every product a loop of `rounds` rounds computes fits in 128 bits.
pub open spec fn loop_fits(deposit: nat, borrow_ratio: nat, rounds: nat) -> bool {
    forall|i: nat| i < rounds ==> #[trigger] loop_deposit(deposit, borrow_ratio, i) * borrow_ratio <= u128_max()
}

/// The calls a loop makes on the pool, in order; the caller stops at the first one
/// that fails.
pub fn loop_steps(amount: u128, borrow_ratio: u128, loop_count: u128) -> (r: Vec<LoopStep>)
    requires
        loop_fits(amount as nat, borrow_ratio as nat, loop_count as nat),
    ensures
        r@ == loop_plan(amount as nat, borrow_ratio as nat, loop_count as nat),
{
    let mut steps: Vec<LoopStep> = Vec::new();
    let mut next_deposit_amount = amount;
    let mut i: u128 = 0;
    let mut stopped = false;
    while i < loop_count && !stopped
        invariant
            i <= loop_count,
            loop_fits(amount as nat, borrow_ratio as nat, loop_count as nat),
            next_deposit_amount as nat == loop_deposit(amount as nat, borrow_ratio as nat, i as nat),
            !stopped ==> steps@ + loop_plan(next_deposit_amount as nat, borrow_ratio as nat, (loop_count - i) as nat)
                == loop_plan(amount as nat, borrow_ratio as nat, loop_count as nat),
            stopped ==> next_deposit_amount == 0 && steps@ == loop_plan(amount as nat, borrow_ratio as nat, loop_count as nat),
        decreases loop_count - i,
    {
        let ghost before = steps@;
        let ghost d = next_deposit_amount as nat;
        assert(loop_deposit(amount as nat, borrow_ratio as nat, i as nat) * borrow_ratio <= u128_max());
        steps.push(LoopStep::Mint(next_deposit_amount));
        next_deposit_amount = (next_deposit_amount * borrow_ratio) / 10000;
        assert(loop_plan(d, borrow_ratio as nat, (loop_count - i) as nat) == (if next_deposit_amount == 0 {
            seq![LoopStep::Mint(d as u128)]
        } else {
            seq![LoopStep::Mint(d as u128), LoopStep::Borrow(next_deposit_amount)]
                + loop_plan(next_deposit_amount as nat, borrow_ratio as nat, (loop_count - i - 1) as nat)
        }));
        i = i + 1;
        if next_deposit_amount == 0 {
            assert(steps@ == before + seq![LoopStep::Mint(d as u128)]);
            stopped = true;
        } else {
            steps.push(LoopStep::Borrow(next_deposit_amount));
            assert(steps@ == before + seq![LoopStep::Mint(d as u128), LoopStep::Borrow(next_deposit_amount)]);
            assert(before + (seq![LoopStep::Mint(d as u128), LoopStep::Borrow(next_deposit_amount)]
                + loop_plan(next_deposit_amount as nat, borrow_ratio as nat, (loop_count - i) as nat))
                == steps@ + loop_plan(next_deposit_amount as nat, borrow_ratio as nat, (loop_count - i) as nat));
        }
    }
    if !stopped && next_deposit_amount != 0 {
        let ghost before = steps@;
        steps.push(LoopStep::Mint(next_deposit_amount));
        assert(steps@ == before + seq![LoopStep::Mint(next_deposit_amount)]);
    }
    if !stopped && next_deposit_amount == 0 {
        assert(steps@ + Seq::<LoopStep>::empty() == steps@);
    }
    steps
}

/// What `close` does next when it can withdraw `withdraw_amount`, owes `repay_amount`
/// and has `loop_remains` rounds left.
pub open spec fn close_step_spec(withdraw_amount: u128, repay_amount: u128, loop_remains: u128) -> CloseStep {
    if !(loop_remains > 0 || withdraw_amount > 0) {
        CloseStep::Finish
    } else if withdraw_amount > repay_amount {
        CloseStep::RepayAll(repay_amount)
    } else {
        CloseStep::Repay(withdraw_amount, (loop_remains - 1) as u128)
    }
}

/// The rounds of `close` that repay and look again, when it finds `withdrawable[i]`
/// to withdraw and `owed[i]` owed at its `i`-th look and starts with `loop_remains`
/// rounds left. Counting ends where `close` finishes or settles the debt, where the
/// looks run out, and where a round would be due with none left (which `close_step`
/// does not admit).
pub open spec fn close_rounds(withdrawable: Seq<u128>, owed: Seq<u128>, loop_remains: u128) -> nat
    decreases withdrawable.len(),
{
    if withdrawable.len() == 0 || owed.len() == 0 {
        0
    } else if loop_remains == 0 && withdrawable[0] > 0 && withdrawable[0] <= owed[0] {
        0
    } else {
        match close_step_spec(withdrawable[0], owed[0], loop_remains) {
            CloseStep::Repay(_, next) => 1 + close_rounds(withdrawable.drop_first(), owed.drop_first(), next),
            _ => 0,
        }
    }
}

/// The next step of `close`, from what can be withdrawn, what is owed and the rounds
/// left; it repays at most the debt, and stops when no round is left and nothing can
/// be withdrawn.
pub fn close_step(withdraw_amount: u128, repay_amount: u128, loop_remains: u128) -> (r: CloseStep)
    requires
        loop_remains == 0 && withdraw_amount > 0 ==> withdraw_amount > repay_amount,
    ensures
        r == close_step_spec(withdraw_amount, repay_amount, loop_remains),
{
    if !(loop_remains > 0 || withdraw_amount > 0) {
        return CloseStep::Finish;
    }
    if withdraw_amount > repay_amount {
        CloseStep::RepayAll(repay_amount)
    } else {
        CloseStep::Repay(withdraw_amount, loop_remains - 1)
    }
}

/// The refusals of a loop's parameters: the borrow ratio must be positive and at
/// most the asset's loan to value, and the loop count between the bounds.
pub fn validate_loop(borrow_ratio: u128, loop_count: u128, ltv: u128) -> (r: Result<(), Error>)
    ensures
        r == (if borrow_ratio == 0 || borrow_ratio > ltv {
            Err::<(), Error>(Error::InappropriateBorrowRate)
        } else if loop_count < MIN_LOOP_COUNT || loop_count > MAX_LOOP_COUNT {
            Err(Error::InappropriateLoopCount)
        } else {
            Ok(())
        }),
{
    if borrow_ratio == 0 || borrow_ratio > ltv {
        return Err(Error::InappropriateBorrowRate);
    }
    if loop_count < MIN_LOOP_COUNT || loop_count > MAX_LOOP_COUNT {
        return Err(Error::InappropriateLoopCount);
    }
    Ok(())
}

impl Data {
    /// A leverager managed by `manager`, not yet initialized.
    pub fn new(manager: AccountId) -> (r: Data)
        ensures
            r == (Data { controller: None, weth: None, price_oracle: None, manager: Some(manager) }),
    {
        Data { controller: None, weth: None, price_oracle: None, manager: Some(manager) }
    }

    /// The manager check: `caller` is the manager.
    pub open spec fn assert_manager_spec(&self, caller: AccountId) -> Result<(), Error> {
        match self.manager {
            None => Err(Error::ManagerIsNotSet),
            Some(m) => if m == caller {
                Ok(())
            } else {
                Err(Error::CallerIsNotManager)
            },
        }
    }

    pub fn _assert_manager(&self, caller: AccountId) -> (r: Result<(), Error>)
        ensures
            r == self.assert_manager_spec(caller),
    {
        let manager = match self.manager {
            Some(m) => m,
            None => return Err(Error::ManagerIsNotSet),
        };
        if manager != caller {
            return Err(Error::CallerIsNotManager);
        }
        Ok(())
    }

    pub fn _initialize(&mut self, controller: Option<AccountId>, price_oracle: Option<AccountId>, weth: Option<AccountId>)
        ensures
            *final(self) == (Data { controller, price_oracle, weth, manager: old(self).manager }),
    {
        self.controller = controller;
        self.price_oracle = price_oracle;
        self.weth = weth;
    }

    /// The manager sets the controller, the price oracle and the wrapped native token.
    pub fn initialize(
        &mut self,
        caller: AccountId,
        controller: Option<AccountId>,
        price_oracle: Option<AccountId>,
        weth: Option<AccountId>,
    ) -> (r: Result<(), Error>)
        ensures
            r == old(self).assert_manager_spec(caller),
            r is Err ==> *final(self) == *old(self),
            r is Ok ==> *final(self) == (Data { controller, price_oracle, weth, manager: old(self).manager }),
    {
        self._assert_manager(caller)?;
        self._initialize(controller, price_oracle, weth);
        Ok(())
    }

    pub fn controller(&self) -> (r: Option<AccountId>)
        ensures
            r == self.controller,
    {
        self.controller
    }

    pub fn price_oracle(&self) -> (r: Option<AccountId>)
        ensures
            r == self.price_oracle,
    {
        self.price_oracle
    }

    pub fn weth_address(&self) -> (r: Option<AccountId>)
        ensures
            r == self.weth,
    {
        self.weth
    }

    pub fn manager(&self) -> (r: Option<AccountId>)
        ensures
            r == self.manager,
    {
        self.manager
    }

    /// The loan to value of an asset in basis points: zero without a controller or
    /// without a collateral factor; `collateral_factor` is what the controller holds
    /// for the asset's pool.
    pub fn _loan_to_value(&self, collateral_factor: Option<WrappedU256>) -> (r: u128)
        requires
            collateral_factor is Some ==> collateral_factor->Some_0@ * 10000 <= u256_max()
                && loan_to_value_spec(collateral_factor->Some_0@) <= u128_max(),
        ensures
            r as nat == (if self.controller.is_none() || collateral_factor.is_none() {
                0
            } else {
                loan_to_value_spec(collateral_factor->Some_0@)
            }),
    {
        if self.controller.is_none() {
            return 0;
        }
        match collateral_factor {
            Some(cf) => cf.0.mul(U256::from_u128(10000)).div(U256::from_u128(PRICE_PRECISION)).as_u128(),
            None => 0,
        }
    }

    /// The liquidation threshold of an asset: its pool's, zero without a controller or
    /// without a pool; `pool_threshold` is the threshold of the asset's pool.
    pub fn _liquidation_threshold(&self, pool_threshold: Option<u128>) -> (r: u128)
        ensures
            r == (if self.controller.is_none() || pool_threshold.is_none() { 0 } else { pool_threshold->Some_0 }),
    {
        if self.controller.is_none() {
            return 0;
        }
        match pool_threshold {
            Some(t) => t,
            None => 0,
        }
    }

    /// The health factor of an account after it withdraws `withdraw_amount` of an
    /// asset; zero without a controller, account data, price oracle or price.
    /// `account_data` is the controller's answer for the account, `price` the
    /// oracle's price of the asset and `liquidation_threshold` the asset's.
    pub fn _get_health_factor(
        &self,
        account_data: Result<AccountData, ControllerError>,
        liquidation_threshold: u128,
        price: Option<u128>,
        withdraw_amount: u128,
    ) -> (r: U256)
        requires
            account_data is Ok && price is Some ==> health_factor_after_fits(
                account_data->Ok_0.total_collateral_in_base_currency@,
                account_data->Ok_0.avg_liquidation_threshold@,
                liquidation_threshold as nat,
                price->Some_0 as nat,
                withdraw_amount as nat,
            ),
        ensures
            r@ == (if self.controller.is_none() || account_data is Err || self.price_oracle.is_none()
                || price is None {
                0
            } else {
                let d = account_data->Ok_0;
                health_factor_after(
                    d.total_collateral_in_base_currency@,
                    d.total_debt_in_base_currency@,
                    d.avg_liquidation_threshold@,
                    liquidation_threshold as nat,
                    price->Some_0 as nat,
                    withdraw_amount as nat,
                )
            }),
    {
        if self.controller.is_none() {
            return U256::from_u128(0);
        }
        let account_data = match account_data {
            Ok(d) => d,
            Err(_) => return U256::from_u128(0),
        };
        if self.price_oracle.is_none() {
            return U256::from_u128(0);
        }
        let price_asset = match price {
            Some(p) => p,
            None => return U256::from_u128(0),
        };
        health_factor_after_withdraw(
            account_data.total_collateral_in_base_currency,
            account_data.total_debt_in_base_currency,
            account_data.avg_liquidation_threshold,
            liquidation_threshold,
            price_asset,
            withdraw_amount,
        )
    }
}

/// See `health_factor_after`.
pub fn health_factor_after_withdraw(
    total_collateral: U256,
    total_debt: U256,
    avg_liquidation_threshold: U256,
    liquidation_threshold: u128,
    price: u128,
    withdraw_amount: u128,
) -> (r: U256)
    requires
        health_factor_after_fits(total_collateral@, avg_liquidation_threshold@, liquidation_threshold as nat,
            price as nat, withdraw_amount as nat),
    ensures
        r@ == health_factor_after(total_collateral@, total_debt@, avg_liquidation_threshold@,
            liquidation_threshold as nat, price as nat, withdraw_amount as nat),
{
    proof {
        lemma_u128_product(price, withdraw_amount);
    }
    let withdraw_amount_in_base_currency = U256::from_u128(price).mul(U256::from_u128(withdraw_amount)).div(
        U256::from_u128(PRICE_PRECISION),
    );
    let total_collateral_after = if total_collateral.gt(&withdraw_amount_in_base_currency) {
        total_collateral.sub(withdraw_amount_in_base_currency)
    } else {
        U256::from_u128(0)
    };
    let factor = avg_liquidation_threshold.mul(total_collateral).sub(
        U256::from_u128(liquidation_threshold).mul(withdraw_amount_in_base_currency),
    );
    let liquidation_threshold_after = factor.div(total_collateral_after);
    calculate_health_factor_from_balances(total_collateral_after, total_debt, liquidation_threshold_after)
}

/// What `withdrawable` computes before its search: what the account can afford to
/// lose in the base currency (`tc * avg_lt - debt * 10000`), that divided by the
/// asset's liquidation threshold, and that in the asset at `price`.
pub open spec fn withdrawable_start(tc: nat, debt: nat, avg_lt: nat, lt: nat, price: nat) -> (nat, nat, nat) {
    let afford = (tc * avg_lt - debt * 10000) as nat;
    let in_base_currency = afford / lt;
    (afford, in_base_currency, in_base_currency * (PRICE_PRECISION as nat) / price)
}

/// The arithmetic of `withdrawable`'s start stays within 256 bits and its result
/// within 128.
pub open spec fn withdrawable_start_fits(tc: nat, debt: nat, avg_lt: nat, lt: nat, price: nat) -> bool {
    let (afford, in_base_currency, collateral) = withdrawable_start(tc, debt, avg_lt, lt, price);
    &&& tc * avg_lt <= u256_max()
    &&& debt * 10000 <= tc * avg_lt
    &&& lt > 0
    &&& price > 0
    &&& in_base_currency * (PRICE_PRECISION as nat) <= u256_max()
    &&& collateral <= u128_max()
}

/// The withdrawable amount of an asset: the start amount, cut by 5% until the
/// health factor after the withdrawal exceeds 1.01. The search ends: some number of
/// cuts reaches such an amount.
pub fn search_withdraw_amount(
    total_collateral: U256,
    total_debt: U256,
    avg_liquidation_threshold: U256,
    liquidation_threshold: u128,
    price: u128,
    start: u128,
) -> (r: u128)
    requires
        health_factor_after_fits(total_collateral@, avg_liquidation_threshold@, liquidation_threshold as nat,
            price as nat, start as nat),
        exists|k: nat| health_factor_after(total_collateral@, total_debt@, avg_liquidation_threshold@,
            liquidation_threshold as nat, price as nat, #[trigger] withdraw_after_cuts(start as nat, k))
            > HEALTH_FACTOR_LIMIT,
    ensures
        exists|k: nat| r == withdraw_after_cuts(start as nat, k)
            && (forall|j: nat| j < k ==> health_factor_after(total_collateral@, total_debt@,
                avg_liquidation_threshold@, liquidation_threshold as nat, price as nat,
                #[trigger] withdraw_after_cuts(start as nat, j)) <= HEALTH_FACTOR_LIMIT),
        health_factor_after(total_collateral@, total_debt@, avg_liquidation_threshold@,
            liquidation_threshold as nat, price as nat, r as nat) > HEALTH_FACTOR_LIMIT,
{
    let ghost tc = total_collateral@;
    let ghost debt = total_debt@;
    let ghost avg = avg_liquidation_threshold@;
    let ghost lt = liquidation_threshold as nat;
    let ghost p = price as nat;
    let ghost bound: nat = choose|k: nat| health_factor_after(tc, debt, avg, lt, p,
        #[trigger] withdraw_after_cuts(start as nat, k)) > HEALTH_FACTOR_LIMIT;
    let mut withdraw_amount = start;
    let ghost mut cuts: nat = 0;
    proof {
        lemma_withdraw_after_cuts_le(start as nat, 0);
    }
    let mut health_factor = health_factor_after_withdraw(total_collateral, total_debt, avg_liquidation_threshold,
        liquidation_threshold, price, withdraw_amount);
    let limit = U256::from_u128(HEALTH_FACTOR_LIMIT);
    while health_factor.le(&limit)
        invariant
            withdraw_amount as nat == withdraw_after_cuts(start as nat, cuts),
            health_factor@ == health_factor_after(tc, debt, avg, lt, p, withdraw_amount as nat),
            limit@ == HEALTH_FACTOR_LIMIT,
            cuts <= bound,
            health_factor_after(tc, debt, avg, lt, p, withdraw_after_cuts(start as nat, bound)) > HEALTH_FACTOR_LIMIT,
            forall|j: nat| j < cuts ==> health_factor_after(tc, debt, avg, lt, p,
                #[trigger] withdraw_after_cuts(start as nat, j)) <= HEALTH_FACTOR_LIMIT,
            health_factor_after_fits(tc, avg, lt, p, start as nat),
            tc == total_collateral@, debt == total_debt@, avg == avg_liquidation_threshold@,
            lt == liquidation_threshold as nat, p == price as nat,
        decreases bound - cuts,
    {
        proof {
            if cuts == bound {
                assert(false);
            }
        }
        proof {
            assert((withdraw_amount as nat) * 95 / 100 <= withdraw_amount) by (nonlinear_arith);
        }
        withdraw_amount = U256::from_u128(withdraw_amount).mul(U256::from_u128(95)).div(U256::from_u128(100)).as_u128();
        proof {
            cuts = cuts + 1;
            lemma_withdraw_after_cuts_le(start as nat, cuts);
            let w = withdraw_amount as nat;
            lemma_mul_monotone(w, start as nat, p);
            lemma_mul_monotone_comm(p, w, start as nat);
            lemma_div_monotone(p * w, p * (start as nat), PRICE_PRECISION as nat);
            lemma_mul_monotone_comm(lt, in_base(p, w), in_base(p, start as nat));
        }
        health_factor = health_factor_after_withdraw(total_collateral, total_debt, avg_liquidation_threshold,
            liquidation_threshold, price, withdraw_amount);
    }
    withdraw_amount
}

/// `x <= y` gives `z * x <= z * y`.
proof fn lemma_mul_monotone_comm(z: nat, x: nat, y: nat)
    requires
        x <= y,
    ensures
        z * x <= z * y,
{
    assert(z * x <= z * y) by (nonlinear_arith)
        requires
            x <= y,
    ;
}

impl Data {
    /// How much of an asset an account can withdraw: `None` without a controller,
    /// account data, price oracle or price. The inputs are as for
    /// `_get_health_factor`.
    pub fn _withdrawable(
        &self,
        account_data: Result<AccountData, ControllerError>,
        liquidation_threshold: u128,
        price: Option<u128>,
    ) -> (r: Option<Withdrawable>)
        requires
            account_data is Ok && price is Some ==> {
                let d = account_data->Ok_0;
                let p = price->Some_0 as nat;
                let lt = liquidation_threshold as nat;
                let (afford, in_base_currency, collateral) = withdrawable_start(
                    d.total_collateral_in_base_currency@, d.total_debt_in_base_currency@,
                    d.avg_liquidation_threshold@, lt, p);
                &&& withdrawable_start_fits(d.total_collateral_in_base_currency@, d.total_debt_in_base_currency@,
                    d.avg_liquidation_threshold@, lt, p)
                &&& health_factor_after_fits(d.total_collateral_in_base_currency@,
                    d.avg_liquidation_threshold@, lt, p, collateral)
                &&& exists|k: nat| health_factor_after(d.total_collateral_in_base_currency@,
                    d.total_debt_in_base_currency@, d.avg_liquidation_threshold@, lt, p,
                    #[trigger] withdraw_after_cuts(collateral, k)) > HEALTH_FACTOR_LIMIT
            },
        ensures
            r is Some <==> self.controller.is_some() && account_data is Ok && self.price_oracle.is_some()
                && price is Some,
            r is Some ==> {
                let d = account_data->Ok_0;
                let p = price->Some_0 as nat;
                let lt = liquidation_threshold as nat;
                let (afford, in_base_currency, collateral) = withdrawable_start(
                    d.total_collateral_in_base_currency@, d.total_debt_in_base_currency@,
                    d.avg_liquidation_threshold@, lt, p);
                let w = r->Some_0;
                &&& w.total_collateral_in_base_currency == d.total_collateral_in_base_currency
                &&& w.total_debt_in_base_currency == d.total_debt_in_base_currency
                &&& w.current_liquidation_threshold == d.avg_liquidation_threshold
                &&& w.afford_in_base_currency@ == afford
                &&& w.withdrawable_collateral_in_base_currency@ == in_base_currency
                &&& w.withdrawable_collateral@ == collateral
                &&& exists|k: nat| w.withdraw_amount@ == withdraw_after_cuts(collateral, k)
                    && (forall|j: nat| j < k ==> health_factor_after(d.total_collateral_in_base_currency@,
                        d.total_debt_in_base_currency@, d.avg_liquidation_threshold@, lt, p,
                        #[trigger] withdraw_after_cuts(collateral, j)) <= HEALTH_FACTOR_LIMIT)
                &&& health_factor_after(d.total_collateral_in_base_currency@, d.total_debt_in_base_currency@,
                    d.avg_liquidation_threshold@, lt, p, w.withdraw_amount@) > HEALTH_FACTOR_LIMIT
            },
    {
        if self.controller.is_none() {
            return None;
        }
        let account_data = match account_data {
            Ok(d) => d,
            Err(_) => return None,
        };
        if self.price_oracle.is_none() {
            return None;
        }
        let price_asset = match price {
            Some(p) => p,
            None => return None,
        };
        let afford_in_base_currency = account_data.total_collateral_in_base_currency.mul(
            account_data.avg_liquidation_threshold,
        ).sub(account_data.total_debt_in_base_currency.mul(U256::from_u128(10000)));
        let withdrawable_collateral_in_base_currency = afford_in_base_currency.div(
            U256::from_u128(liquidation_threshold),
        );
        let withdrawable_collateral = withdrawable_collateral_in_base_currency.mul(
            U256::from_u128(PRICE_PRECISION),
        ).div(U256::from_u128(price_asset));
        let amount = search_withdraw_amount(
            account_data.total_collateral_in_base_currency,
            account_data.total_debt_in_base_currency,
            account_data.avg_liquidation_threshold,
            liquidation_threshold,
            price_asset,
            withdrawable_collateral.as_u128(),
        );
        Some(Withdrawable {
            total_collateral_in_base_currency: account_data.total_collateral_in_base_currency,
            total_debt_in_base_currency: account_data.total_debt_in_base_currency,
            current_liquidation_threshold: account_data.avg_liquidation_threshold,
            afford_in_base_currency,
            withdrawable_collateral_in_base_currency,
            withdrawable_collateral,
            withdraw_amount: U256::from_u128(amount),
        })
    }
}

impl Data {
    /// The checks of a loop on an asset, in order, before its calls: the borrow ratio
    /// and loop count (against the asset's loan to value `ltv`), the pull of `amount`
    /// from the caller (`pulled` is the token's answer), the controller, and the
    /// asset's pool (`pool`, as the controller lists it). Returns the pool.
    pub fn loop_asset_setup(
        &self,
        ltv: u128,
        borrow_ratio: u128,
        loop_count: u128,
        pulled: Result<(), PSP22Error>,
        pool: Option<AccountId>,
    ) -> (r: Result<AccountId, Error>)
        ensures
            r == (if borrow_ratio == 0 || borrow_ratio > ltv {
                Err::<AccountId, Error>(Error::InappropriateBorrowRate)
            } else if loop_count < MIN_LOOP_COUNT || loop_count > MAX_LOOP_COUNT {
                Err(Error::InappropriateLoopCount)
            } else if pulled is Err {
                Err(Error::PSP22(pulled->Err_0))
            } else if self.controller.is_none() {
                Err(Error::ControllerIsNotSet)
            } else if pool.is_none() {
                Err(Error::MarketNotListed)
            } else {
                Ok(pool->Some_0)
            }),
    {
        validate_loop(borrow_ratio, loop_count, ltv)?;
        if let Err(e) = pulled {
            return Err(Error::PSP22(e));
        }
        if self.controller.is_none() {
            return Err(Error::ControllerIsNotSet);
        }
        match pool {
            Some(p) => Ok(p),
            None => Err(Error::MarketNotListed),
        }
    }

    /// The checks of a loop on the native token, in order: the wrapped token, the
    /// borrow ratio and loop count (against its loan to value `ltv`), the controller
    /// and the wrapped token's pool. Returns the wrapped token and its pool.
    pub fn loop_eth_setup(
        &self,
        ltv: u128,
        borrow_ratio: u128,
        loop_count: u128,
        pool: Option<AccountId>,
    ) -> (r: Result<(AccountId, AccountId), Error>)
        ensures
            r == (if self.weth.is_none() {
                Err::<(AccountId, AccountId), Error>(Error::WETHIsNotSet)
            } else if borrow_ratio == 0 || borrow_ratio > ltv {
                Err(Error::InappropriateBorrowRate)
            } else if loop_count < MIN_LOOP_COUNT || loop_count > MAX_LOOP_COUNT {
                Err(Error::InappropriateLoopCount)
            } else if self.controller.is_none() {
                Err(Error::ControllerIsNotSet)
            } else if pool.is_none() {
                Err(Error::MarketNotListed)
            } else {
                Ok((self.weth->Some_0, pool->Some_0))
            }),
    {
        let weth = match self.weth {
            Some(w) => w,
            None => return Err(Error::WETHIsNotSet),
        };
        validate_loop(borrow_ratio, loop_count, ltv)?;
        if self.controller.is_none() {
            return Err(Error::ControllerIsNotSet);
        }
        match pool {
            Some(p) => Ok((weth, p)),
            None => Err(Error::MarketNotListed),
        }
    }

    /// The amount `close` can withdraw next: the withdrawable amount, zero when there
    /// is none; see `_withdrawable`.
    pub fn _withdrawable_amount(&self, withdrawable: Option<Withdrawable>) -> (r: U256)
        ensures
            r@ == (match withdrawable {
                Some(w) => w.withdraw_amount@,
                None => 0,
            }),
    {
        match withdrawable {
            Some(w) => w.withdraw_amount,
            None => U256::from_u128(0),
        }
    }
}

} // verus!
