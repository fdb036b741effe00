//! The controller: the risk manager that lists pools and decides which actions a
//! pool may perform.
//!
//! The controller's storage is `Data`. What it learns from other contracts during a
//! call (the pools' account snapshots and metadata, the oracle's prices) is handed to
//! its functions as plain values; the functions decide. A call that fails leaves the
//! storage unchanged, as a reverted contract call does.

pub mod utils;

use vstd::prelude::*;
use crate::account::AccountId;
use crate::mapping::Mapping;
use crate::types::WrappedU256;
use crate::u256::{U256, u256_max};
use crate::exp::{Exp, exp_scale_spec};
use crate::price_oracle::PRICE_PRECISION;
use self::utils::{
    collateral_factor_max_mantissa, HypotheticalAccountLiquidityCalculationParam,
    GetHypotheticalAccountLiquidityInput, get_hypothetical_account_liquidity, liquidity_sums,
    liquidity_fits, BalanceDecreaseAllowedParam, balance_decrease_allowed,
    balance_decrease_allowed_values, balance_decrease_fits_values,
    LiquidateCalculateSeizeTokensInput, liquidate_calculate_seize_tokens, seize_tokens_fits,
    seize_tokens_spec,
};

verus! {

/// Why the controller refused an action.
#[derive(Debug, PartialEq, Eq, Structural, Clone, Copy)]
pub enum Error {
    MintIsPaused,
    BorrowIsPaused,
    SeizeIsPaused,
    TransferIsPaused,
    MarketNotListed,
    MarketAlreadyListed,
    ControllerMismatch,
    PriceError,
    TooMuchRepay,
    BorrowCapReached,
    InsufficientLiquidity,
    InsufficientShortfall,
    CallerIsNotManager,
    CallerIsNotPendingManager,
    InvalidCollateralFactor,
    UnderlyingIsNotSet,
    PoolIsNotSet,
    ManagerIsNotSet,
    PendingManagerIsNotSet,
    OracleIsNotSet,
    BalanceDecreaseNotAllowed,
    MarketCountReachedToMaximum,
    PoolError,
}

/// The most pools a controller lists.
pub const MAXIMUM_MARKETS: usize = 8;

/// The number of decimals of a collateral factor.
pub const COLLATERAL_FACTOR_MANTISSA_DECIMALS: u32 = 18;

/// The number of decimals of a liquidation threshold.
pub const LIQUIDATION_THRESHOLD_DECIMALS: u32 = 4;

/// What a pool tells the controller about itself and an account, so that the
/// controller need not call back into the pool that is calling it.
#[derive(Clone, Copy, Debug)]
pub struct PoolAttributes {
    pub pool: Option<AccountId>,
    pub underlying: Option<AccountId>,
    pub decimals: u8,
    pub liquidation_threshold: u128,
    pub account_balance: u128,
    pub account_borrow_balance: u128,
    pub exchange_rate: U256,
    pub total_borrows: u128,
}

/// What a pool tells the controller for the calculation of seized tokens.
#[derive(Clone, Copy, Debug)]
pub struct PoolAttributesForSeizeCalculation {
    pub underlying: Option<AccountId>,
    pub decimals: u8,
}

/// What a pool tells the controller for the validation of a withdrawal.
#[derive(Clone, Copy, Debug)]
pub struct PoolAttributesForWithdrawValidation {
    pub pool: Option<AccountId>,
    pub underlying: Option<AccountId>,
    pub decimals: u8,
    pub liquidation_threshold: u128,
    pub account_balance: u128,
    pub account_borrow_balance: u128,
    pub exchange_rate: U256,
    pub total_borrows: u128,
}

/// The status of an account across all pools, in the base currency.
#[derive(Clone, Copy, Debug)]
pub struct AccountData {
    pub total_collateral_in_base_currency: U256,
    pub total_debt_in_base_currency: U256,
    pub avg_ltv: U256,
    pub avg_liquidation_threshold: U256,
    pub health_factor: U256,
}

/// The status of an account, with the price and liquidation threshold of the pool
/// that described itself.
#[derive(Clone, Copy, Debug)]
pub struct AccountCollateralData {
    pub total_collateral_in_base_currency: U256,
    pub total_debt_in_base_currency: U256,
    pub avg_ltv: U256,
    pub avg_liquidation_threshold: U256,
    pub health_factor: U256,
    pub asset_price: u128,
    pub liquidation_threshold: u128,
}

/// What a listed pool and the oracle answer about an account: the pool's account
/// snapshot (collateral balance, borrow balance, exchange rate) and metadata
/// (decimals, liquidation threshold, underlying), and the oracle's price of the
/// underlying.
#[derive(Clone, Copy, Debug)]
pub struct MarketSnapshot {
    pub asset: AccountId,
    pub account_balance: u128,
    pub borrow_balance: u128,
    pub exchange_rate: U256,
    pub decimals: u8,
    pub liquidation_threshold: u128,
    pub underlying: Option<AccountId>,
    pub price: Option<u128>,
}

/// What the controller reports when it lists a pool.
#[derive(Clone, Copy, Debug, PartialEq, Eq, Structural)]
pub struct MarketListed {
    pub pool: AccountId,
}

/// The controller's storage.
pub struct Data {
    /// AccountId of managed Pools
    pub markets: Vec<AccountId>,
    /// Pair of underlying and pool
    pub underlying_market_pair: Mapping<AccountId, AccountId>,
    /// Pair of pool and underlying
    pub market_underlying_pair: Mapping<AccountId, AccountId>,
    /// Mapping of Pool and Collateral Factors (Decimals: 18)
    pub collateral_factor_mantissa: Mapping<AccountId, WrappedU256>,
    /// Whether Pool has paused `Mint` Action
    pub mint_guardian_paused: Mapping<AccountId, bool>,
    /// Whether Pool has paused `Borrow` Action
    pub borrow_guardian_paused: Mapping<AccountId, bool>,
    /// Whether Pool has paused `Seize` Action
    pub seize_guardian_paused: bool,
    /// Whether Pool has paused `Transfer` Action
    pub transfer_guardian_paused: bool,
    /// Oracle's AccountId associated with this contract
    pub oracle: Option<AccountId>,
    /// Close Factor
    pub close_factor_mantissa: WrappedU256,
    /// Liquidation Incentive
    pub liquidation_incentive_mantissa: WrappedU256,
    /// Maximum that can be borrowed per Pool
    pub borrow_caps: Mapping<AccountId, u128>,
    /// Manager's AccountId associated with this contract
    pub manager: Option<AccountId>,
    /// AccountId of Pending Manager use for transfer manager role
    pub pending_manager: Option<AccountId>,
    /// Flashloan Gateway's AccountId associated with this contract
    pub flashloan_gateway: Option<AccountId>,
}

/// Running totals of an account scan, in the base currency: collateral, collateral
/// weighted by collateral factor, collateral weighted by liquidation threshold, debt;
/// and the parameters of every asset counted.
pub type ScanTotals = (nat, nat, nat, nat, Seq<HypotheticalAccountLiquidityCalculationParam>);

/// The value in the base currency of `amount` at `price`.
pub open spec fn in_base_currency(price: nat, amount: nat) -> nat {
    price * amount / PRICE_PRECISION as nat
}

/// The totals after counting an asset with the given balances, price, collateral
/// factor and liquidation threshold.
pub open spec fn add_asset(
    t: ScanTotals,
    param: HypotheticalAccountLiquidityCalculationParam,
    price: nat,
    balance: nat,
    borrow: nat,
    collateral_factor: nat,
    liquidation_threshold: nat,
) -> ScanTotals {
    let lbe = in_base_currency(price, balance);
    (
        t.0 + lbe,
        t.1 + lbe * collateral_factor,
        t.2 + lbe * liquidation_threshold,
        t.3 + in_base_currency(price, borrow),
        t.4.push(param),
    )
}

/// The arithmetic of `add_asset` stays within 256 bits.
pub open spec fn add_asset_fits(
    t: ScanTotals,
    price: nat,
    balance: nat,
    borrow: nat,
    collateral_factor: nat,
    liquidation_threshold: nat,
) -> bool {
    let lbe = in_base_currency(price, balance);
    &&& t.0 + lbe <= u256_max()
    &&& lbe * collateral_factor <= u256_max()
    &&& t.1 + lbe * collateral_factor <= u256_max()
    &&& lbe * liquidation_threshold <= u256_max()
    &&& t.2 + lbe * liquidation_threshold <= u256_max()
    &&& t.3 + in_base_currency(price, borrow) <= u256_max()
}

/// The parameters of the asset a market snapshot describes, with the given
/// collateral factor.
pub open spec fn snapshot_param(s: MarketSnapshot, cf: WrappedU256) -> HypotheticalAccountLiquidityCalculationParam {
    HypotheticalAccountLiquidityCalculationParam {
        asset: s.asset,
        decimals: s.decimals,
        token_balance: s.account_balance,
        borrow_balance: s.borrow_balance,
        exchange_rate_mantissa: Exp { mantissa: WrappedU256(s.exchange_rate) },
        collateral_factor_mantissa: Exp { mantissa: cf },
        oracle_price_mantissa: Exp { mantissa: WrappedU256(U256::spec_from_u128(s.price.unwrap())) },
    }
}

/// A snapshot is skipped: it is the pool that described itself, or the account has
/// neither collateral nor borrows there and it is not the pool being modified.
pub open spec fn snapshot_skipped(s: MarketSnapshot, skip: AccountId, token_modify: Option<AccountId>) -> bool {
    s.asset == skip || (s.account_balance == 0 && s.borrow_balance == 0 && (token_modify.is_none()
        || token_modify != Some(s.asset)))
}

/// Counting one market snapshot: skipped ones leave the totals; others need an
/// underlying, a non-zero price and a collateral factor.
pub open spec fn scan_step(
    cfs: Map<AccountId, WrappedU256>,
    skip: AccountId,
    token_modify: Option<AccountId>,
    s: MarketSnapshot,
    t: ScanTotals,
) -> Result<ScanTotals, Error> {
    if snapshot_skipped(s, skip, token_modify) {
        Ok(t)
    } else if s.underlying.is_none() {
        Err(Error::UnderlyingIsNotSet)
    } else if s.price.is_none() || s.price.unwrap() == 0 {
        Err(Error::PriceError)
    } else if !cfs.contains_key(s.asset) {
        Err(Error::InvalidCollateralFactor)
    } else {
        Ok(
            add_asset(
                t,
                snapshot_param(s, cfs[s.asset]),
                s.price.unwrap() as nat,
                s.account_balance as nat,
                s.borrow_balance as nat,
                cfs[s.asset]@,
                s.liquidation_threshold as nat,
            ),
        )
    }
}

/// Counting the market snapshots in order from `init`; the first refusal stops it.
pub open spec fn scan_markets(
    cfs: Map<AccountId, WrappedU256>,
    skip: AccountId,
    token_modify: Option<AccountId>,
    snaps: Seq<MarketSnapshot>,
    init: ScanTotals,
) -> Result<ScanTotals, Error>
    decreases snaps.len(),
{
    if snaps.len() == 0 {
        Ok(init)
    } else {
        match scan_markets(cfs, skip, token_modify, snaps.drop_last(), init) {
            Err(e) => Err(e),
            Ok(t) => scan_step(cfs, skip, token_modify, snaps.last(), t),
        }
    }
}

/// The arithmetic of `scan_markets` stays within 256 bits.
pub open spec fn scan_fits(
    cfs: Map<AccountId, WrappedU256>,
    skip: AccountId,
    token_modify: Option<AccountId>,
    snaps: Seq<MarketSnapshot>,
    init: ScanTotals,
) -> bool
    decreases snaps.len(),
{
    if snaps.len() == 0 {
        true
    } else {
        &&& scan_fits(cfs, skip, token_modify, snaps.drop_last(), init)
        &&& match scan_markets(cfs, skip, token_modify, snaps.drop_last(), init) {
            Err(_) => true,
            Ok(t) => {
                let s = snaps.last();
                !snapshot_skipped(s, skip, token_modify) && s.price.is_some()
                    && cfs.contains_key(s.asset) ==> add_asset_fits(
                    t,
                    s.price.unwrap() as nat,
                    s.account_balance as nat,
                    s.borrow_balance as nat,
                    cfs[s.asset]@,
                    s.liquidation_threshold as nat,
                )
            },
        }
    }
}

proof fn lemma_scan_fits_prefix(
    cfs: Map<AccountId, WrappedU256>,
    skip: AccountId,
    token_modify: Option<AccountId>,
    snaps: Seq<MarketSnapshot>,
    init: ScanTotals,
    i: int,
)
    requires
        0 <= i <= snaps.len(),
        scan_fits(cfs, skip, token_modify, snaps, init),
    ensures
        scan_fits(cfs, skip, token_modify, snaps.take(i), init),
    decreases snaps.len(),
{
    if i < snaps.len() {
        assert(snaps.drop_last().take(i) =~= snaps.take(i));
        lemma_scan_fits_prefix(cfs, skip, token_modify, snaps.drop_last(), init, i);
    } else {
        assert(snaps.take(i) =~= snaps);
    }
}

/// A refusal while scanning a prefix of the snapshots is the refusal of the whole scan.
proof fn lemma_scan_err_prefix(
    cfs: Map<AccountId, WrappedU256>,
    skip: AccountId,
    token_modify: Option<AccountId>,
    snaps: Seq<MarketSnapshot>,
    init: ScanTotals,
    j: int,
    e: Error,
)
    requires
        0 <= j <= snaps.len(),
        scan_markets(cfs, skip, token_modify, snaps.take(j), init) == Err::<ScanTotals, Error>(e),
    ensures
        scan_markets(cfs, skip, token_modify, snaps, init) == Err::<ScanTotals, Error>(e),
    decreases snaps.len(),
{
    if j < snaps.len() {
        assert(snaps.drop_last().take(j) =~= snaps.take(j));
        lemma_scan_err_prefix(cfs, skip, token_modify, snaps.drop_last(), init, j, e);
    } else {
        assert(snaps.take(j) =~= snaps);
    }
}

/// The pools in which an account is active, in listing order: every pool but the
/// caller that the account supplies to or borrows from, and the pool being modified.
pub open spec fn account_assets_spec(
    caller: AccountId,
    token_modify: Option<AccountId>,
    snaps: Seq<MarketSnapshot>,
) -> Seq<AccountId>
    decreases snaps.len(),
{
    if snaps.len() == 0 {
        Seq::empty()
    } else {
        let prev = account_assets_spec(caller, token_modify, snaps.drop_last());
        let s = snaps.last();
        if s.asset == caller {
            prev
        } else if token_modify == Some(s.asset) {
            prev.push(s.asset)
        } else if s.account_balance > 0 || s.borrow_balance > 0 {
            prev.push(s.asset)
        } else {
            prev
        }
    }
}

/// The parameters of the pool that described itself, with the given collateral factor
/// and price.
pub open spec fn attribute_param(
    a: PoolAttributes,
    cf: WrappedU256,
    price: u128,
) -> HypotheticalAccountLiquidityCalculationParam {
    HypotheticalAccountLiquidityCalculationParam {
        asset: a.pool.unwrap(),
        decimals: a.decimals,
        token_balance: a.account_balance,
        borrow_balance: a.account_borrow_balance,
        exchange_rate_mantissa: Exp { mantissa: WrappedU256(a.exchange_rate) },
        collateral_factor_mantissa: Exp { mantissa: cf },
        oracle_price_mantissa: Exp { mantissa: WrappedU256(U256::spec_from_u128(price)) },
    }
}

/// Where the scan starts: with no pool attributes, from zero, skipping the caller;
/// with them, from the counted calling pool, skipping that pool. Also gives the
/// calling pool's price and liquidation threshold (zero without attributes).
pub open spec fn scan_start(
    cfs: Map<AccountId, WrappedU256>,
    attrs: Option<PoolAttributes>,
    attribute_price: Option<u128>,
    caller: AccountId,
) -> Result<(ScanTotals, AccountId, u128, u128), Error> {
    match attrs {
        None => Ok(((0nat, 0nat, 0nat, 0nat, Seq::empty()), caller, 0u128, 0u128)),
        Some(a) => if a.underlying.is_none() {
            Err(Error::UnderlyingIsNotSet)
        } else if a.pool.is_none() {
            Err(Error::PoolIsNotSet)
        } else if !cfs.contains_key(a.pool.unwrap()) {
            Err(Error::InvalidCollateralFactor)
        } else if attribute_price.is_none() || attribute_price.unwrap() == 0 {
            Err(Error::PriceError)
        } else {
            let cf = cfs[a.pool.unwrap()];
            let price = attribute_price.unwrap();
            Ok(
                (
                    add_asset(
                        (0nat, 0nat, 0nat, 0nat, Seq::empty()),
                        attribute_param(a, cf, price),
                        price as nat,
                        a.account_balance as nat,
                        a.account_borrow_balance as nat,
                        cf@,
                        a.liquidation_threshold as nat,
                    ),
                    a.pool.unwrap(),
                    price,
                    a.liquidation_threshold,
                ),
            )
        },
    }
}

/// The arithmetic of `scan_start` stays within 256 bits.
pub open spec fn scan_start_fits(
    cfs: Map<AccountId, WrappedU256>,
    attrs: Option<PoolAttributes>,
    attribute_price: Option<u128>,
) -> bool {
    match attrs {
        None => true,
        Some(a) => a.pool.is_some() && cfs.contains_key(a.pool.unwrap()) && attribute_price.is_some()
            ==> add_asset_fits(
            (0nat, 0nat, 0nat, 0nat, Seq::empty()),
            attribute_price.unwrap() as nat,
            a.account_balance as nat,
            a.account_borrow_balance as nat,
            cfs[a.pool.unwrap()]@,
            a.liquidation_threshold as nat,
        ),
    }
}

/// The account status that `_calculate_user_account_data` computes, as
/// `(total collateral, total debt, average ltv, average liquidation threshold,
/// health factor, asset price, liquidation threshold, asset parameters)`: the totals
/// of the scan, the weighted sums divided by the total collateral (zero without
/// collateral), and the health factor of the totals.
pub open spec fn account_data_of(t: ScanTotals, price: u128, lt: u128) -> (nat, nat, nat, nat, nat, u128, u128, Seq<HypotheticalAccountLiquidityCalculationParam>) {
    let avg_ltv = if t.0 == 0 { 0 } else { t.1 / t.0 };
    let avg_lt = if t.0 == 0 { 0 } else { t.2 / t.0 };
    (t.0, t.3, avg_ltv, avg_lt, utils::health_factor_spec(t.0, t.3, avg_lt), price, lt, t.4)
}

/// The exec counterpart of `add_asset` on the four running totals.
fn add_asset_totals(
    totals: (U256, U256, U256, U256),
    price: u128,
    balance: u128,
    borrow: u128,
    collateral_factor: U256,
    liquidation_threshold: u128,
    Ghost(param): Ghost<HypotheticalAccountLiquidityCalculationParam>,
    Ghost(params): Ghost<Seq<HypotheticalAccountLiquidityCalculationParam>>,
) -> (r: (U256, U256, U256, U256))
    requires
        add_asset_fits(
            (totals.0@, totals.1@, totals.2@, totals.3@, params),
            price as nat,
            balance as nat,
            borrow as nat,
            collateral_factor@,
            liquidation_threshold as nat,
        ),
    ensures
        ({
            let t = add_asset(
                (totals.0@, totals.1@, totals.2@, totals.3@, params),
                param,
                price as nat,
                balance as nat,
                borrow as nat,
                collateral_factor@,
                liquidation_threshold as nat,
            );
            r.0@ == t.0 && r.1@ == t.1 && r.2@ == t.2 && r.3@ == t.3
        }),
{
    let (mut total_collateral, mut avg_ltv, mut avg_liquidation_threshold, mut total_debt) = totals;
    proof {
        assert(price as nat * 0 == 0) by (nonlinear_arith);
        crate::arith::lemma_u128_product(price, balance);
        crate::arith::lemma_u128_product(price, borrow);
    }
    if balance != 0 {
        let liquidity_balance_eth = U256::from_u128(price).mul(U256::from_u128(balance)).div(
            U256::from_u128(PRICE_PRECISION),
        );
        total_collateral = total_collateral.add(liquidity_balance_eth);
        avg_ltv = avg_ltv.add(liquidity_balance_eth.mul(collateral_factor));
        avg_liquidation_threshold = avg_liquidation_threshold.add(
            liquidity_balance_eth.mul(U256::from_u128(liquidation_threshold)),
        );
    } else {
        proof {
            assert(0 * (collateral_factor@) == 0) by (nonlinear_arith);
            assert(0 * (liquidation_threshold as nat) == 0) by (nonlinear_arith);
        }
    }
    if borrow != 0 {
        let borrow_balance_eth = U256::from_u128(price).mul(U256::from_u128(borrow)).div(
            U256::from_u128(PRICE_PRECISION),
        );
        total_debt = total_debt.add(borrow_balance_eth);
    }
    (total_collateral, avg_ltv, avg_liquidation_threshold, total_debt)
}

impl Data {
    /// The storage is well formed: every mapping holds distinct keys.
    pub open spec fn wf(&self) -> bool {
        &&& self.underlying_market_pair.wf()
        &&& self.market_underlying_pair.wf()
        &&& self.collateral_factor_mantissa.wf()
        &&& self.mint_guardian_paused.wf()
        &&& self.borrow_guardian_paused.wf()
        &&& self.borrow_caps.wf()
    }

    /// The listed markets agree with the two pair maps: at most `MAXIMUM_MARKETS`
    /// pools, each listed once; a pool is in `markets` exactly when it has an
    /// underlying, and the two pair maps are each other's inverse.
    pub open spec fn listing_wf(&self) -> bool {
        let mup = self.market_underlying_pair.view();
        let ump = self.underlying_market_pair.view();
        &&& self.markets@.len() <= MAXIMUM_MARKETS
        &&& self.markets@.no_duplicates()
        &&& forall|p: AccountId| #[trigger] self.markets@.contains(p) <==> mup.contains_key(p)
        &&& forall|p: AccountId| #[trigger] mup.contains_key(p) ==> ump.contains_key(mup[p]) && ump[mup[p]] == p
        &&& forall|u: AccountId| #[trigger] ump.contains_key(u) ==> mup.contains_key(ump[u]) && mup[ump[u]] == u
    }

    /// `next` is this storage with `pool` listed for `underlying`: appended to the
    /// markets, recorded in both pair maps, minting and borrowing unpaused, borrow cap
    /// zero (none), the collateral factor set where one is given and otherwise left
    /// as it was; nothing else changes.
    pub open spec fn market_listed(&self, next: Data, pool: AccountId, underlying: AccountId, collateral_factor_mantissa: Option<WrappedU256>) -> bool {
        &&& next.markets@ == self.markets@.push(pool)
        &&& next.underlying_market_pair.view() == self.underlying_market_pair.view().insert(underlying, pool)
        &&& next.market_underlying_pair.view() == self.market_underlying_pair.view().insert(pool, underlying)
        &&& next.mint_guardian_paused.view() == self.mint_guardian_paused.view().insert(pool, false)
        &&& next.borrow_guardian_paused.view() == self.borrow_guardian_paused.view().insert(pool, false)
        &&& next.borrow_caps.view() == self.borrow_caps.view().insert(pool, 0)
        &&& next.collateral_factor_mantissa.view() == match collateral_factor_mantissa {
            Some(cf) => self.collateral_factor_mantissa.view().insert(pool, cf),
            None => self.collateral_factor_mantissa.view(),
        }
        &&& next == (Data {
            markets: next.markets,
            underlying_market_pair: next.underlying_market_pair,
            market_underlying_pair: next.market_underlying_pair,
            mint_guardian_paused: next.mint_guardian_paused,
            borrow_guardian_paused: next.borrow_guardian_paused,
            borrow_caps: next.borrow_caps,
            collateral_factor_mantissa: next.collateral_factor_mantissa,
            ..*self
        })
    }

    /// `next` is this storage with the collateral factor of `pool` set to
    /// `collateral_factor_mantissa`; nothing else changes.
    pub open spec fn collateral_factor_set(&self, next: Data, pool: AccountId, collateral_factor_mantissa: WrappedU256) -> bool {
        &&& next.collateral_factor_mantissa.view() == self.collateral_factor_mantissa.view().insert(pool, collateral_factor_mantissa)
        &&& next == (Data { collateral_factor_mantissa: next.collateral_factor_mantissa, ..*self })
    }

    /// A fresh controller managed by `manager`.
    pub fn new(manager: AccountId) -> (r: Data)
        ensures
            r.wf(),
            r.listing_wf(),
            r.markets@.len() == 0,
            r.market_underlying_pair.view() == Map::<AccountId, AccountId>::empty(),
            r.underlying_market_pair.view() == Map::<AccountId, AccountId>::empty(),
            r.collateral_factor_mantissa.view() == Map::<AccountId, WrappedU256>::empty(),
            r.mint_guardian_paused.view() == Map::<AccountId, bool>::empty(),
            r.borrow_guardian_paused.view() == Map::<AccountId, bool>::empty(),
            r.borrow_caps.view() == Map::<AccountId, u128>::empty(),
            !r.seize_guardian_paused,
            !r.transfer_guardian_paused,
            r.oracle.is_none(),
            r.close_factor_mantissa@ == 0,
            r.liquidation_incentive_mantissa@ == 0,
            r.manager == Some(manager),
            r.pending_manager.is_none(),
            r.flashloan_gateway.is_none(),
    {
        let mut instance = Data::default();
        instance.manager = Some(manager);
        instance
    }

    /// The storage of a fresh controller: nothing listed, nothing set.
    pub fn default() -> (r: Data)
        ensures
            r.wf(),
            r.listing_wf(),
            r.markets@.len() == 0,
            r.market_underlying_pair.view() == Map::<AccountId, AccountId>::empty(),
            r.underlying_market_pair.view() == Map::<AccountId, AccountId>::empty(),
            r.collateral_factor_mantissa.view() == Map::<AccountId, WrappedU256>::empty(),
            r.mint_guardian_paused.view() == Map::<AccountId, bool>::empty(),
            r.borrow_guardian_paused.view() == Map::<AccountId, bool>::empty(),
            r.borrow_caps.view() == Map::<AccountId, u128>::empty(),
            !r.seize_guardian_paused,
            !r.transfer_guardian_paused,
            r.oracle.is_none(),
            r.close_factor_mantissa@ == 0,
            r.liquidation_incentive_mantissa@ == 0,
            r.manager.is_none(),
            r.pending_manager.is_none(),
            r.flashloan_gateway.is_none(),
    {
        Data {
            markets: Vec::new(),
            underlying_market_pair: Mapping::new(),
            market_underlying_pair: Mapping::new(),
            collateral_factor_mantissa: Mapping::new(),
            mint_guardian_paused: Mapping::new(),
            borrow_guardian_paused: Mapping::new(),
            seize_guardian_paused: false,
            transfer_guardian_paused: false,
            oracle: None,
            close_factor_mantissa: WrappedU256::zero(),
            liquidation_incentive_mantissa: WrappedU256::zero(),
            borrow_caps: Mapping::new(),
            manager: None,
            pending_manager: None,
            flashloan_gateway: None,
        }
    }

    /// The pool is listed: it has a recorded underlying.
    pub open spec fn is_listed_spec(&self, pool: AccountId) -> bool {
        self.market_underlying_pair.view().contains_key(pool)
    }

    pub fn _is_listed(&self, pool: AccountId) -> (r: bool)
        requires
            self.wf(),
        ensures
            r == self.is_listed_spec(pool),
    {
        if let Some(_underlying) = self.market_underlying_pair.get(&pool) {
            return true;
        }
        return false;
    }

    /// Minting is allowed unless it is paused, or was never configured, for the pool.
    pub fn _mint_allowed(&self, pool: AccountId, _minter: AccountId, _mint_amount: u128) -> (r: Result<(), Error>)
        requires
            self.wf(),
        ensures
            r == (if !self.mint_guardian_paused.view().contains_key(pool)
                || self.mint_guardian_paused.view()[pool] {
                Err::<(), Error>(Error::MintIsPaused)
            } else {
                Ok(())
            }),
    {
        match self.mint_guardian_paused.get(&pool) {
            Some(true) | None => {
                return Err(Error::MintIsPaused);
            },
            _ => {},
        }
        // FEATURE: update governance token supply index & distribute
        Ok(())
    }

    /// Seizing is allowed unless it is paused, when both pools are listed.
    pub fn _seize_allowed(
        &self,
        pool_collateral: AccountId,
        pool_borrowed: AccountId,
        _liquidator: AccountId,
        _borrower: AccountId,
        _seize_tokens: u128,
    ) -> (r: Result<(), Error>)
        requires
            self.wf(),
        ensures
            r == (if self.seize_guardian_paused {
                Err::<(), Error>(Error::SeizeIsPaused)
            } else if !self.is_listed_spec(pool_collateral) || !self.is_listed_spec(pool_borrowed) {
                Err(Error::MarketNotListed)
            } else {
                Ok(())
            }),
    {
        if self.seize_guardian_paused {
            return Err(Error::SeizeIsPaused);
        }
        if !self._is_listed(pool_collateral) || !self._is_listed(pool_borrowed) {
            return Err(Error::MarketNotListed);
        }
        Ok(())
    }

    /// The caller is the manager.
    pub fn _assert_manager(&self, caller: AccountId) -> (r: Result<(), Error>)
        ensures
            r == (match self.manager {
                None => Err::<(), Error>(Error::ManagerIsNotSet),
                Some(m) => if caller == m {
                    Ok(())
                } else {
                    Err(Error::CallerIsNotManager)
                },
            }),
    {
        let manager = match self.manager {
            Some(m) => m,
            None => {
                return Err(Error::ManagerIsNotSet);
            },
        };
        if caller != manager {
            return Err(Error::CallerIsNotManager);
        }
        Ok(())
    }

    /// The caller is the pending manager.
    pub fn _assert_pending_manager(&self, caller: AccountId) -> (r: Result<(), Error>)
        ensures
            r == (match self.pending_manager {
                None => Err::<(), Error>(Error::PendingManagerIsNotSet),
                Some(m) => if caller == m {
                    Ok(())
                } else {
                    Err(Error::CallerIsNotPendingManager)
                },
            }),
    {
        let pending_manager = match self.pending_manager {
            Some(m) => m,
            None => {
                return Err(Error::PendingManagerIsNotSet);
            },
        };
        if caller != pending_manager {
            return Err(Error::CallerIsNotPendingManager);
        }
        Ok(())
    }

    /// The market snapshots describe the listed pools, in order.
    pub open spec fn snapshots_match(&self, snapshots: Seq<MarketSnapshot>) -> bool {
        &&& snapshots.len() == self.markets@.len()
        &&& forall|i: int| 0 <= i < snapshots.len() ==> (#[trigger] snapshots[i]).asset
            == self.markets@[i]
    }

    /// What `_calculate_user_account_data` returns; see `account_data_of`.
    pub open spec fn user_account_data_spec(
        &self,
        caller: AccountId,
        pool_attributes: Option<PoolAttributes>,
        attribute_price: Option<u128>,
        token_modify: Option<AccountId>,
        snapshots: Seq<MarketSnapshot>,
    ) -> Result<(nat, nat, nat, nat, nat, u128, u128, Seq<HypotheticalAccountLiquidityCalculationParam>), Error> {
        let cfs = self.collateral_factor_mantissa.view();
        if self.oracle.is_none() {
            Err(Error::OracleIsNotSet)
        } else {
            match scan_start(cfs, pool_attributes, attribute_price, caller) {
                Err(e) => Err(e),
                Ok((init, skip, price, lt)) => match scan_markets(cfs, skip, token_modify, snapshots, init) {
                    Err(e) => Err(e),
                    Ok(t) => Ok(account_data_of(t, price, lt)),
                },
            }
        }
    }

    /// The arithmetic of `_calculate_user_account_data` stays within 256 bits.
    pub open spec fn user_account_data_fits(
        &self,
        caller: AccountId,
        pool_attributes: Option<PoolAttributes>,
        attribute_price: Option<u128>,
        token_modify: Option<AccountId>,
        snapshots: Seq<MarketSnapshot>,
    ) -> bool {
        let cfs = self.collateral_factor_mantissa.view();
        &&& scan_start_fits(cfs, pool_attributes, attribute_price)
        &&& match scan_start(cfs, pool_attributes, attribute_price, caller) {
            Err(_) => true,
            Ok((init, skip, _, _)) => scan_fits(cfs, skip, token_modify, snapshots, init),
        }
    }

    /// The status of an account over all listed pools. The calling pool may describe
    /// itself in `pool_attributes` (with the oracle's price of its underlying in
    /// `attribute_price`); it is then counted from those and skipped in the scan.
    /// `snapshots` hold what each listed pool and the oracle answer for the account.
    pub fn _calculate_user_account_data(
        &self,
        caller: AccountId,
        _account: AccountId,
        pool_attributes: Option<PoolAttributes>,
        attribute_price: Option<u128>,
        token_modify: Option<AccountId>,
        snapshots: &Vec<MarketSnapshot>,
    ) -> (r: Result<(AccountCollateralData, Vec<HypotheticalAccountLiquidityCalculationParam>), Error>)
        requires
            self.wf(),
            self.snapshots_match(snapshots@),
            self.user_account_data_fits(caller, pool_attributes, attribute_price, token_modify, snapshots@),
        ensures
            match (r, self.user_account_data_spec(caller, pool_attributes, attribute_price, token_modify, snapshots@)) {
                (Ok((d, params)), Ok(s)) => {
                    &&& d.total_collateral_in_base_currency@ == s.0
                    &&& d.total_debt_in_base_currency@ == s.1
                    &&& d.avg_ltv@ == s.2
                    &&& d.avg_liquidation_threshold@ == s.3
                    &&& d.health_factor@ == s.4
                    &&& d.asset_price == s.5
                    &&& d.liquidation_threshold == s.6
                    &&& params@ == s.7
                },
                (Err(e), Err(f)) => e == f,
                _ => false,
            },
    {
        if self.oracle.is_none() {
            return Err(Error::OracleIsNotSet);
        }
        let ghost cfs = self.collateral_factor_mantissa.view();
        let mut totals = (U256::zero(), U256::zero(), U256::zero(), U256::zero());
        let mut asset_params: Vec<HypotheticalAccountLiquidityCalculationParam> = Vec::new();
        let (asset_price, liquidation_threshold, skip_pool) = match pool_attributes {
            Some(pool_attribute) => {
                // if caller is a pool, get parameters for the pool without call the pool
                let attr_underlying = match pool_attribute.underlying {
                    Some(u) => u,
                    None => {
                        return Err(Error::UnderlyingIsNotSet);
                    },
                };
                let attr_pool = match pool_attribute.pool {
                    Some(p) => p,
                    None => {
                        return Err(Error::PoolIsNotSet);
                    },
                };
                let collateral_factor_mantissa = match self.collateral_factor_mantissa.get(&attr_pool) {
                    Some(cf) => cf,
                    None => {
                        return Err(Error::InvalidCollateralFactor);
                    },
                };
                let oracle_price: u128 = match attribute_price {
                    Some(p) => p,
                    None => {
                        return Err(Error::PriceError);
                    },
                };
                if oracle_price == 0 {
                    return Err(Error::PriceError);
                }
                let param = HypotheticalAccountLiquidityCalculationParam {
                    asset: attr_pool,
                    decimals: pool_attribute.decimals,
                    token_balance: pool_attribute.account_balance,
                    borrow_balance: pool_attribute.account_borrow_balance,
                    exchange_rate_mantissa: Exp { mantissa: WrappedU256(pool_attribute.exchange_rate) },
                    collateral_factor_mantissa: Exp { mantissa: collateral_factor_mantissa },
                    oracle_price_mantissa: Exp { mantissa: WrappedU256(U256::from_u128(oracle_price)) },
                };
                assert(param == attribute_param(pool_attribute, collateral_factor_mantissa, oracle_price));
                totals = add_asset_totals(
                    totals,
                    oracle_price,
                    pool_attribute.account_balance,
                    pool_attribute.account_borrow_balance,
                    collateral_factor_mantissa.0,
                    pool_attribute.liquidation_threshold,
                    Ghost(param),
                    Ghost(Seq::empty()),
                );
                asset_params.push(param);
                (oracle_price, pool_attribute.liquidation_threshold, attr_pool)
            },
            None => (0, 0, caller),
        };
        let ghost init = (totals.0@, totals.1@, totals.2@, totals.3@, asset_params@);
        assert(scan_start(cfs, pool_attributes, attribute_price, caller) == Ok::<(ScanTotals, AccountId, u128, u128), Error>((init, skip_pool, asset_price, liquidation_threshold)));
        let n = snapshots.len();
        let mut i: usize = 0;
        assert(snapshots@.take(0) =~= Seq::<MarketSnapshot>::empty());
        while i < n
            invariant
                self.wf(),
                self.oracle.is_some(),
                cfs == self.collateral_factor_mantissa.view(),
                scan_start(cfs, pool_attributes, attribute_price, caller) == Ok::<(ScanTotals, AccountId, u128, u128), Error>((init, skip_pool, asset_price, liquidation_threshold)),
                n == snapshots@.len(),
                i <= n,
                scan_fits(cfs, skip_pool, token_modify, snapshots@, init),
                scan_markets(cfs, skip_pool, token_modify, snapshots@.take(i as int), init)
                    == Ok::<ScanTotals, Error>((totals.0@, totals.1@, totals.2@, totals.3@, asset_params@)),
            decreases n - i,
        {
            let snap = snapshots[i];
            let asset = snap.asset;
            proof {
                lemma_scan_fits_prefix(cfs, skip_pool, token_modify, snapshots@, init, i + 1);
                assert(snapshots@.take(i + 1).drop_last() =~= snapshots@.take(i as int));
                assert(snapshots@.take(i + 1).last() == snap);
            }
            let skipped = asset == skip_pool || (snap.account_balance == 0 && snap.borrow_balance == 0
                && (token_modify.is_none() || token_modify != Some(asset)));
            if !skipped {
                if snap.underlying.is_none() {
                    proof {
                        lemma_scan_err_prefix(cfs, skip_pool, token_modify, snapshots@, init, i + 1, Error::UnderlyingIsNotSet);
                    }
                    return Err(Error::UnderlyingIsNotSet);
                }
                let oracle_price: u128 = match snap.price {
                    Some(p) => p,
                    None => {
                        proof {
                            lemma_scan_err_prefix(cfs, skip_pool, token_modify, snapshots@, init, i + 1, Error::PriceError);
                        }
                        return Err(Error::PriceError);
                    },
                };
                if oracle_price == 0 {
                    proof {
                        lemma_scan_err_prefix(cfs, skip_pool, token_modify, snapshots@, init, i + 1, Error::PriceError);
                    }
                    return Err(Error::PriceError);
                }
                let collateral_factor_mantissa = match self.collateral_factor_mantissa.get(&asset) {
                    Some(cf) => cf,
                    None => {
                        proof {
                            lemma_scan_err_prefix(cfs, skip_pool, token_modify, snapshots@, init, i + 1, Error::InvalidCollateralFactor);
                        }
                        return Err(Error::InvalidCollateralFactor);
                    },
                };
                let param = HypotheticalAccountLiquidityCalculationParam {
                    asset,
                    decimals: snap.decimals,
                    token_balance: snap.account_balance,
                    borrow_balance: snap.borrow_balance,
                    exchange_rate_mantissa: Exp { mantissa: WrappedU256(snap.exchange_rate) },
                    collateral_factor_mantissa: Exp { mantissa: collateral_factor_mantissa },
                    oracle_price_mantissa: Exp { mantissa: WrappedU256(U256::from_u128(oracle_price)) },
                };
                assert(param == snapshot_param(snap, collateral_factor_mantissa));
                totals = add_asset_totals(
                    totals,
                    oracle_price,
                    snap.account_balance,
                    snap.borrow_balance,
                    collateral_factor_mantissa.0,
                    snap.liquidation_threshold,
                    Ghost(param),
                    Ghost(asset_params@),
                );
                asset_params.push(param);
            }
            i = i + 1;
        }
        assert(snapshots@.take(n as int) =~= snapshots@);
        let (total_collateral_in_base_currency, avg_ltv_sum, avg_liquidation_threshold_sum, total_debt_in_base_currency) = totals;
        let (avg_ltv, avg_liquidation_threshold) = if total_collateral_in_base_currency.is_zero() {
            (U256::from_u128(0), U256::from_u128(0))
        } else {
            (
                avg_ltv_sum.div(total_collateral_in_base_currency),
                avg_liquidation_threshold_sum.div(total_collateral_in_base_currency),
            )
        };
        let health_factor = utils::calculate_health_factor_from_balances(
            total_collateral_in_base_currency,
            total_debt_in_base_currency,
            avg_liquidation_threshold,
        );
        Ok(
            (
                AccountCollateralData {
                    total_collateral_in_base_currency,
                    total_debt_in_base_currency,
                    avg_ltv,
                    avg_liquidation_threshold,
                    health_factor,
                    asset_price,
                    liquidation_threshold,
                },
                asset_params,
            ),
        )
    }

    /// The account's excess liquidity and shortfall, `(sum_collateral - sum_borrow, 0)`
    /// or `(0, sum_borrow - sum_collateral)`, after hypothetically redeeming
    /// `redeem_tokens` of and borrowing `borrow_amount` from `token_modify`.
    pub open spec fn hypothetical_liquidity_spec(
        &self,
        caller: AccountId,
        token_modify: Option<AccountId>,
        redeem_tokens: u128,
        borrow_amount: u128,
        pool_attributes: Option<PoolAttributes>,
        attribute_price: Option<u128>,
        snapshots: Seq<MarketSnapshot>,
    ) -> Result<(nat, nat), Error> {
        match self.user_account_data_spec(caller, pool_attributes, attribute_price, token_modify, snapshots) {
            Err(e) => Err(e),
            Ok(s) => {
                let sums = liquidity_sums(s.7, token_modify, redeem_tokens as nat, borrow_amount as nat);
                if sums.0 > sums.1 {
                    Ok(((sums.0 - sums.1) as nat, 0nat))
                } else {
                    Ok((0nat, (sums.1 - sums.0) as nat))
                }
            },
        }
    }

    /// The arithmetic of `_get_hypothetical_account_liquidity` stays within 256 bits.
    pub open spec fn hypothetical_liquidity_fits(
        &self,
        caller: AccountId,
        token_modify: Option<AccountId>,
        redeem_tokens: u128,
        borrow_amount: u128,
        pool_attributes: Option<PoolAttributes>,
        attribute_price: Option<u128>,
        snapshots: Seq<MarketSnapshot>,
    ) -> bool {
        &&& self.user_account_data_fits(caller, pool_attributes, attribute_price, token_modify, snapshots)
        &&& match self.user_account_data_spec(caller, pool_attributes, attribute_price, token_modify, snapshots) {
            Err(_) => true,
            Ok(s) => liquidity_fits(s.7, token_modify, redeem_tokens as nat, borrow_amount as nat),
        }
    }

    pub fn _get_hypothetical_account_liquidity(
        &self,
        caller: AccountId,
        account: AccountId,
        token_modify: Option<AccountId>,
        redeem_tokens: u128,
        borrow_amount: u128,
        pool_attributes: Option<PoolAttributes>,
        attribute_price: Option<u128>,
        snapshots: &Vec<MarketSnapshot>,
    ) -> (r: Result<(U256, U256), Error>)
        requires
            self.wf(),
            self.snapshots_match(snapshots@),
            self.hypothetical_liquidity_fits(caller, token_modify, redeem_tokens, borrow_amount, pool_attributes, attribute_price, snapshots@),
        ensures
            match (r, self.hypothetical_liquidity_spec(caller, token_modify, redeem_tokens, borrow_amount, pool_attributes, attribute_price, snapshots@)) {
                (Ok(v), Ok(s)) => v.0@ == s.0 && v.1@ == s.1,
                (Err(e), Err(f)) => e == f,
                _ => false,
            },
    {
        let (_, asset_params) = self._calculate_user_account_data(
            caller,
            account,
            pool_attributes,
            attribute_price,
            token_modify,
            snapshots,
        )?;
        let (sum_collateral, sum_borrow_plus_effect) = get_hypothetical_account_liquidity(
            GetHypotheticalAccountLiquidityInput {
                asset_params,
                token_modify,
                redeem_tokens,
                borrow_amount,
            },
        );
        // These are safe, as the underflow condition is checked first
        let value = if sum_collateral.gt(&sum_borrow_plus_effect) {
            (sum_collateral.sub(sum_borrow_plus_effect), U256::from_u128(0))
        } else {
            (U256::from_u128(0), sum_borrow_plus_effect.sub(sum_collateral))
        };
        Ok(value)
    }

    /// The account's current excess liquidity and shortfall.
    pub fn _get_account_liquidity(
        &self,
        caller: AccountId,
        account: AccountId,
        snapshots: &Vec<MarketSnapshot>,
    ) -> (r: Result<(U256, U256), Error>)
        requires
            self.wf(),
            self.snapshots_match(snapshots@),
            self.hypothetical_liquidity_fits(caller, None, 0, 0, None, None, snapshots@),
        ensures
            match (r, self.hypothetical_liquidity_spec(caller, None, 0, 0, None, None, snapshots@)) {
                (Ok(v), Ok(s)) => v.0@ == s.0 && v.1@ == s.1,
                (Err(e), Err(f)) => e == f,
                _ => false,
            },
    {
        self._get_hypothetical_account_liquidity(caller, account, None, 0, 0, None, None, snapshots)
    }

    /// Whether `redeemer` may redeem `redeem_amount` from `pool`: the pool is listed,
    /// the account keeps enough liquidity after the redemption and, when it has debt,
    /// its health factor stays at least one.
    pub open spec fn redeem_allowed_spec(
        &self,
        caller: AccountId,
        pool: AccountId,
        redeem_amount: u128,
        pool_attributes: Option<PoolAttributes>,
        attribute_price: Option<u128>,
        snapshots: Seq<MarketSnapshot>,
    ) -> Result<(), Error> {
        if !self.is_listed_spec(pool) {
            Err(Error::MarketNotListed)
        } else {
            match self.user_account_data_spec(caller, pool_attributes, attribute_price, Some(pool), snapshots) {
                Err(e) => Err(e),
                Ok(s) => {
                    let sums = liquidity_sums(s.7, Some(pool), redeem_amount as nat, 0);
                    if sums.0 < sums.1 {
                        Err(Error::InsufficientLiquidity)
                    } else if s.1 == 0 {
                        Ok(())
                    } else if !balance_decrease_allowed_values(s.5 as nat, redeem_amount as nat, s.0, s.3, s.6 as nat, s.1) {
                        Err(Error::BalanceDecreaseNotAllowed)
                    } else {
                        Ok(())
                    }
                },
            }
        }
    }

    /// The arithmetic of `_redeem_allowed` stays within 256 bits.
    pub open spec fn redeem_allowed_fits(
        &self,
        caller: AccountId,
        pool: AccountId,
        redeem_amount: u128,
        pool_attributes: Option<PoolAttributes>,
        attribute_price: Option<u128>,
        snapshots: Seq<MarketSnapshot>,
    ) -> bool {
        &&& self.user_account_data_fits(caller, pool_attributes, attribute_price, Some(pool), snapshots)
        &&& match self.user_account_data_spec(caller, pool_attributes, attribute_price, Some(pool), snapshots) {
            Err(_) => true,
            Ok(s) => {
                &&& liquidity_fits(s.7, Some(pool), redeem_amount as nat, 0)
                &&& balance_decrease_fits_values(s.5 as nat, redeem_amount as nat, s.0, s.3, s.6 as nat)
            },
        }
    }

    pub fn _redeem_allowed(
        &self,
        caller: AccountId,
        pool: AccountId,
        redeemer: AccountId,
        redeem_amount: u128,
        pool_attributes: Option<PoolAttributes>,
        attribute_price: Option<u128>,
        snapshots: &Vec<MarketSnapshot>,
    ) -> (r: Result<(), Error>)
        requires
            self.wf(),
            self.snapshots_match(snapshots@),
            self.redeem_allowed_fits(caller, pool, redeem_amount, pool_attributes, attribute_price, snapshots@),
        ensures
            r == self.redeem_allowed_spec(caller, pool, redeem_amount, pool_attributes, attribute_price, snapshots@),
    {
        if !self._is_listed(pool) {
            return Err(Error::MarketNotListed);
        }
        let (data, asset_params) = self._calculate_user_account_data(
            caller,
            redeemer,
            pool_attributes,
            attribute_price,
            Some(pool),
            snapshots,
        )?;
        // Prepare parameters for calculation
        let (sum_collateral, sum_borrow_plus_effect) = get_hypothetical_account_liquidity(
            GetHypotheticalAccountLiquidityInput {
                asset_params,
                token_modify: Some(pool),
                redeem_tokens: redeem_amount,
                borrow_amount: 0,
            },
        );
        // These are safe, as the underflow condition is checked first
        if sum_collateral.lt(&sum_borrow_plus_effect) {
            return Err(Error::InsufficientLiquidity);
        }
        if data.total_debt_in_base_currency.is_zero() {
            return Ok(());
        }
        let balance_decrease_allowed_result = balance_decrease_allowed(
            BalanceDecreaseAllowedParam {
                total_collateral_in_base_currency: data.total_collateral_in_base_currency,
                total_debt_in_base_currency: data.total_debt_in_base_currency,
                avg_liquidation_threshold: data.avg_liquidation_threshold,
                amount_in_base_currency_unit: U256::from_u128(redeem_amount),
                asset_price: U256::from_u128(data.asset_price),
                liquidation_threshold: U256::from_u128(data.liquidation_threshold),
            },
        );
        if !balance_decrease_allowed_result {
            return Err(Error::BalanceDecreaseNotAllowed);
        }
        // FEATURE: update governance token supply index & distribute
        Ok(())
    }

    /// Whether `src` may transfer `transfer_tokens` pool tokens: transfers are not
    /// paused and the tokens could be redeemed.
    pub fn _transfer_allowed(
        &self,
        caller: AccountId,
        pool: AccountId,
        src: AccountId,
        _dst: AccountId,
        transfer_tokens: u128,
        pool_attributes: Option<PoolAttributes>,
        attribute_price: Option<u128>,
        snapshots: &Vec<MarketSnapshot>,
    ) -> (r: Result<(), Error>)
        requires
            self.wf(),
            self.snapshots_match(snapshots@),
            self.redeem_allowed_fits(caller, pool, transfer_tokens, pool_attributes, attribute_price, snapshots@),
        ensures
            r == (if self.transfer_guardian_paused {
                Err::<(), Error>(Error::TransferIsPaused)
            } else {
                self.redeem_allowed_spec(caller, pool, transfer_tokens, pool_attributes, attribute_price, snapshots@)
            }),
    {
        if self.transfer_guardian_paused {
            return Err(Error::TransferIsPaused);
        }
        self._redeem_allowed(caller, pool, src, transfer_tokens, pool_attributes, attribute_price, snapshots)?;
        Ok(())
    }

    /// Whether `borrower` may borrow `borrow_amount` from `pool`: borrowing is not
    /// paused (a pool that was never listed has no flag and counts as paused), the
    /// pool is listed, the oracle prices the underlying above zero, the
    /// borrow cap (zero means none) stays above the total borrows and the account has no shortfall
    /// after the borrow. `price` is the oracle's price of the underlying (of the
    /// attributes' underlying when the pool describes itself); `pool_total_borrows` is
    /// the pool's total borrows when it does not.
    pub open spec fn borrow_allowed_spec(
        &self,
        caller: AccountId,
        pool: AccountId,
        borrow_amount: u128,
        pool_attributes: Option<PoolAttributes>,
        price: Option<u128>,
        pool_total_borrows: u128,
        snapshots: Seq<MarketSnapshot>,
    ) -> Result<(), Error> {
        let cap = if self.borrow_caps.view().contains_key(pool) { self.borrow_caps.view()[pool] } else { 0 };
        let total_borrow = match pool_attributes { Some(a) => a.total_borrows, None => pool_total_borrows };
        if !self.borrow_guardian_paused.view().contains_key(pool) || self.borrow_guardian_paused.view()[pool] {
            Err(Error::BorrowIsPaused)
        } else if !self.is_listed_spec(pool) {
            Err(Error::MarketNotListed)
        } else if self.oracle.is_none() {
            Err(Error::OracleIsNotSet)
        } else if pool_attributes.is_some() && pool_attributes.unwrap().underlying.is_none() {
            Err(Error::UnderlyingIsNotSet)
        } else if price.is_none() || price.unwrap() == 0 {
            Err(Error::PriceError)
        } else if cap != 0 && total_borrow + borrow_amount >= cap {
            Err(Error::BorrowCapReached)
        } else {
            match self.hypothetical_liquidity_spec(caller, Some(pool), 0, borrow_amount, pool_attributes, price, snapshots) {
                Err(e) => Err(e),
                Ok(v) => if v.1 != 0 {
                    Err(Error::InsufficientLiquidity)
                } else {
                    Ok(())
                },
            }
        }
    }

    pub fn _borrow_allowed(
        &self,
        caller: AccountId,
        pool: AccountId,
        borrower: AccountId,
        borrow_amount: u128,
        pool_attribute: Option<PoolAttributes>,
        price: Option<u128>,
        pool_total_borrows: u128,
        snapshots: &Vec<MarketSnapshot>,
    ) -> (r: Result<(), Error>)
        requires
            self.wf(),
            self.snapshots_match(snapshots@),
            self.hypothetical_liquidity_fits(caller, Some(pool), 0, borrow_amount, pool_attribute, price, snapshots@),
        ensures
            r == self.borrow_allowed_spec(caller, pool, borrow_amount, pool_attribute, price, pool_total_borrows, snapshots@),
    {
        match self.borrow_guardian_paused.get(&pool) {
            Some(true) | None => {
                return Err(Error::BorrowIsPaused);
            },
            _ => {},
        }
        if !self._is_listed(pool) {
            return Err(Error::MarketNotListed);
        }
        if self.oracle.is_none() {
            return Err(Error::OracleIsNotSet);
        }
        let total_borrow = match pool_attribute {
            Some(attrs) => {
                if attrs.underlying.is_none() {
                    return Err(Error::UnderlyingIsNotSet);
                }
                attrs.total_borrows
            },
            None => pool_total_borrows,
        };
        match price {
            None | Some(0) => {
                return Err(Error::PriceError);
            },
            _ => {},
        }
        let borrow_cap = match self.borrow_caps.get(&pool) {
            Some(c) => c,
            None => 0,
        };
        if borrow_cap != 0 {
            if borrow_cap <= borrow_amount || total_borrow >= borrow_cap - borrow_amount {
                return Err(Error::BorrowCapReached);
            }
        }
        let (_, shortfall) = self._get_hypothetical_account_liquidity(
            caller,
            borrower,
            Some(pool),
            0,
            borrow_amount,
            pool_attribute,
            price,
            snapshots,
        )?;
        if !shortfall.is_zero() {
            return Err(Error::InsufficientLiquidity);
        }
        // FEATURE: update governance token borrow index & distribute
        Ok(())
    }

    /// Whether `liquidator` may repay `repay_amount` of `borrower`'s debt to
    /// `pool_borrowed`: both pools are listed, the borrower has a shortfall, and the
    /// repayment is at most the close factor of the borrow balance.
    /// `borrow_balance` is the pool's stored borrow balance of the borrower when the
    /// pool does not describe itself.
    pub open spec fn liquidate_borrow_allowed_spec(
        &self,
        caller: AccountId,
        pool_borrowed: AccountId,
        pool_collateral: AccountId,
        repay_amount: u128,
        pool_attribute: Option<PoolAttributes>,
        attribute_price: Option<u128>,
        borrow_balance: u128,
        snapshots: Seq<MarketSnapshot>,
    ) -> Result<(), Error> {
        let balance = match pool_attribute { Some(a) => a.account_borrow_balance, None => borrow_balance };
        if !self.is_listed_spec(pool_borrowed) || !self.is_listed_spec(pool_collateral) {
            Err(Error::MarketNotListed)
        } else {
            match self.hypothetical_liquidity_spec(caller, None, 0, 0, pool_attribute, attribute_price, snapshots) {
                Err(e) => Err(e),
                Ok(v) => if v.1 == 0 {
                    Err(Error::InsufficientShortfall)
                } else if repay_amount > self.close_factor_mantissa@ * (balance as nat) / exp_scale_spec() {
                    Err(Error::TooMuchRepay)
                } else {
                    Ok(())
                },
            }
        }
    }

    pub fn _liquidate_borrow_allowed(
        &self,
        caller: AccountId,
        pool_borrowed: AccountId,
        pool_collateral: AccountId,
        _liquidator: AccountId,
        borrower: AccountId,
        repay_amount: u128,
        pool_attribute: Option<PoolAttributes>,
        attribute_price: Option<u128>,
        borrow_balance: u128,
        snapshots: &Vec<MarketSnapshot>,
    ) -> (r: Result<(), Error>)
        requires
            self.wf(),
            self.snapshots_match(snapshots@),
            self.hypothetical_liquidity_fits(caller, None, 0, 0, pool_attribute, attribute_price, snapshots@),
            self.close_factor_mantissa@ * (match pool_attribute { Some(a) => a.account_borrow_balance, None => borrow_balance } as nat) <= u256_max(),
        ensures
            r == self.liquidate_borrow_allowed_spec(caller, pool_borrowed, pool_collateral, repay_amount, pool_attribute, attribute_price, borrow_balance, snapshots@),
    {
        if !self._is_listed(pool_borrowed) || !self._is_listed(pool_collateral) {
            return Err(Error::MarketNotListed);
        }
        let balance = match pool_attribute {
            Some(attrs) => attrs.account_borrow_balance,
            None => borrow_balance,
        };
        // The borrower must have shortfall in order to be liquidatable
        let (_, shortfall) = self._get_hypothetical_account_liquidity(
            caller,
            borrower,
            None,
            0,
            0,
            pool_attribute,
            attribute_price,
            snapshots,
        )?;
        if shortfall.is_zero() {
            return Err(Error::InsufficientShortfall);
        }
        // The liquidator may not repay more than what is allowed by the closeFactor
        let max_close = Exp { mantissa: self.close_factor_mantissa }.mul_scalar_truncate(
            U256::from_u128(balance),
        );
        if U256::from_u128(repay_amount).gt(&max_close) {
            return Err(Error::TooMuchRepay);
        }
        Ok(())
    }

    /// Whether `account` may withdraw `amount` of the pool that describes itself in
    /// `pool_attributes`: allowed without debt, else when the health factor after the
    /// withdrawal stays at least one.
    pub open spec fn balance_decrease_allowed_spec(
        &self,
        caller: AccountId,
        pool_attributes: PoolAttributes,
        amount: u128,
        attribute_price: Option<u128>,
        snapshots: Seq<MarketSnapshot>,
    ) -> Result<(), Error> {
        if self.oracle.is_none() {
            Err(Error::OracleIsNotSet)
        } else {
            match self.user_account_data_spec(caller, Some(pool_attributes), attribute_price, None, snapshots) {
                Err(e) => Err(e),
                Ok(s) => if s.1 == 0 {
                    Ok(())
                } else if balance_decrease_allowed_values(
                    attribute_price.unwrap() as nat,
                    amount as nat,
                    s.0,
                    s.3,
                    pool_attributes.liquidation_threshold as nat,
                    s.1,
                ) {
                    Ok(())
                } else {
                    Err(Error::BalanceDecreaseNotAllowed)
                },
            }
        }
    }

    pub fn _balance_decrease_allowed(
        &self,
        caller: AccountId,
        pool_attributes: PoolAttributes,
        account: AccountId,
        amount: u128,
        attribute_price: Option<u128>,
        snapshots: &Vec<MarketSnapshot>,
    ) -> (r: Result<(), Error>)
        requires
            self.wf(),
            self.snapshots_match(snapshots@),
            self.user_account_data_fits(caller, Some(pool_attributes), attribute_price, None, snapshots@),
            match self.user_account_data_spec(caller, Some(pool_attributes), attribute_price, None, snapshots@) {
                Err(_) => true,
                Ok(s) => balance_decrease_fits_values(
                    attribute_price.unwrap() as nat,
                    amount as nat,
                    s.0,
                    s.3,
                    pool_attributes.liquidation_threshold as nat,
                ),
            },
        ensures
            r == self.balance_decrease_allowed_spec(caller, pool_attributes, amount, attribute_price, snapshots@),
    {
        if self.oracle.is_none() {
            return Err(Error::OracleIsNotSet);
        }
        let (account_data, _) = self._calculate_user_account_data(
            caller,
            account,
            Some(pool_attributes),
            attribute_price,
            None,
            snapshots,
        )?;
        let total_debt_in_base_currency = account_data.total_debt_in_base_currency;
        if total_debt_in_base_currency.is_zero() {
            return Ok(());
        }
        if pool_attributes.underlying.is_none() {
            return Err(Error::UnderlyingIsNotSet);
        }
        let asset_price: u128 = match attribute_price {
            Some(p) => p,
            None => {
                return Err(Error::PriceError);
            },
        };
        if asset_price == 0 {
            return Err(Error::PriceError);
        }
        let result = balance_decrease_allowed(
            BalanceDecreaseAllowedParam {
                total_collateral_in_base_currency: account_data.total_collateral_in_base_currency,
                total_debt_in_base_currency,
                avg_liquidation_threshold: account_data.avg_liquidation_threshold,
                amount_in_base_currency_unit: U256::from_u128(amount),
                asset_price: U256::from_u128(asset_price),
                liquidation_threshold: U256::from_u128(pool_attributes.liquidation_threshold),
            },
        );
        if result {
            return Ok(());
        }
        Err(Error::BalanceDecreaseNotAllowed)
    }

    /// The input of the seize calculation for the given prices and decimals.
    pub open spec fn seize_input(
        &self,
        exchange_rate_mantissa: WrappedU256,
        repay_amount: u128,
        price_borrowed: u128,
        decimals_borrowed: u8,
        price_collateral: u128,
        decimals_collateral: u8,
    ) -> LiquidateCalculateSeizeTokensInput {
        LiquidateCalculateSeizeTokensInput {
            price_borrowed_mantissa: U256::spec_from_u128(price_borrowed),
            decimals_borrowed,
            price_collateral_mantissa: U256::spec_from_u128(price_collateral),
            decimals_collateral,
            exchange_rate_mantissa: exchange_rate_mantissa.0,
            liquidation_incentive_mantissa: self.liquidation_incentive_mantissa.0,
            actual_repay_amount: repay_amount,
        }
    }

    /// The price and decimals of one side of a liquidation: from the oracle's price of
    /// the pool's own description when it gives one, else of the pool's underlying and
    /// the pool's decimals.
    pub open spec fn seize_side(
        attrs: Option<PoolAttributesForSeizeCalculation>,
        price: Option<u128>,
        pool_decimals: u8,
    ) -> Result<(u128, u8), Error> {
        if attrs.is_some() && attrs.unwrap().underlying.is_none() {
            Err(Error::UnderlyingIsNotSet)
        } else if price.is_none() || price.unwrap() == 0 {
            Err(Error::PriceError)
        } else {
            Ok((price.unwrap(), match attrs { Some(a) => a.decimals, None => pool_decimals }))
        }
    }

    /// The pool tokens of `pool_collateral` seized for repaying `repay_amount` to
    /// `pool_borrowed`; see `seize_tokens_spec`.
    pub open spec fn liquidate_calculate_seize_tokens_spec(
        &self,
        exchange_rate_mantissa: WrappedU256,
        repay_amount: u128,
        borrowed_attributes: Option<PoolAttributesForSeizeCalculation>,
        collateral_attributes: Option<PoolAttributesForSeizeCalculation>,
        borrowed_price: Option<u128>,
        borrowed_decimals: u8,
        collateral_price: Option<u128>,
        collateral_decimals: u8,
    ) -> Result<nat, Error> {
        if self.oracle.is_none() {
            Err(Error::OracleIsNotSet)
        } else {
            match Self::seize_side(borrowed_attributes, borrowed_price, borrowed_decimals) {
                Err(e) => Err(e),
                Ok((pb, db)) => match Self::seize_side(collateral_attributes, collateral_price, collateral_decimals) {
                    Err(e) => Err(e),
                    Ok((pc, dc)) => Ok(seize_tokens_spec(&self.seize_input(exchange_rate_mantissa, repay_amount, pb, db, pc, dc))),
                },
            }
        }
    }

    /// The number of `pool_collateral` tokens a liquidator seizes for repaying
    /// `repay_amount` to `pool_borrowed`. The prices are the oracle's answers: of the
    /// underlying a pool describes in its attributes, or else of the pool's underlying,
    /// in which case the pool's own decimals are used.
    pub fn _liquidate_calculate_seize_tokens(
        &self,
        _pool_borrowed: AccountId,
        _pool_collateral: AccountId,
        exchange_rate_mantissa: WrappedU256,
        repay_amount: u128,
        pool_borrowed_attributes: Option<PoolAttributesForSeizeCalculation>,
        pool_collateral_attributes: Option<PoolAttributesForSeizeCalculation>,
        borrowed_price: Option<u128>,
        borrowed_decimals: u8,
        collateral_price: Option<u128>,
        collateral_decimals: u8,
    ) -> (r: Result<u128, Error>)
        requires
            match (Self::seize_side(pool_borrowed_attributes, borrowed_price, borrowed_decimals),
                Self::seize_side(pool_collateral_attributes, collateral_price, collateral_decimals)) {
                (Ok((pb, db)), Ok((pc, dc))) => seize_tokens_fits(&self.seize_input(exchange_rate_mantissa, repay_amount, pb, db, pc, dc)),
                _ => true,
            },
        ensures
            match (r, self.liquidate_calculate_seize_tokens_spec(exchange_rate_mantissa, repay_amount,
                pool_borrowed_attributes, pool_collateral_attributes, borrowed_price, borrowed_decimals,
                collateral_price, collateral_decimals)) {
                (Ok(v), Ok(w)) => v as nat == w,
                (Err(e), Err(f)) => e == f,
                _ => false,
            },
    {
        if self.oracle.is_none() {
            return Err(Error::OracleIsNotSet);
        }
        let price_borrowed_mantissa: u128;
        let pool_decimals_borrowed: u8;
        match pool_borrowed_attributes {
            Some(attrs) => {
                if attrs.underlying.is_none() {
                    return Err(Error::UnderlyingIsNotSet);
                }
                price_borrowed_mantissa = match borrowed_price {
                    Some(p) => p,
                    None => {
                        return Err(Error::PriceError);
                    },
                };
                pool_decimals_borrowed = attrs.decimals;
            },
            None => {
                price_borrowed_mantissa = match borrowed_price {
                    Some(p) => p,
                    None => {
                        return Err(Error::PriceError);
                    },
                };
                pool_decimals_borrowed = borrowed_decimals;
            },
        }
        if price_borrowed_mantissa == 0 {
            return Err(Error::PriceError);
        }
        let price_collateral_mantissa: u128;
        let pool_decimals_collateral: u8;
        match pool_collateral_attributes {
            Some(attrs) => {
                if attrs.underlying.is_none() {
                    return Err(Error::UnderlyingIsNotSet);
                }
                price_collateral_mantissa = match collateral_price {
                    Some(p) => p,
                    None => {
                        return Err(Error::PriceError);
                    },
                };
                pool_decimals_collateral = attrs.decimals;
            },
            None => {
                price_collateral_mantissa = match collateral_price {
                    Some(p) => p,
                    None => {
                        return Err(Error::PriceError);
                    },
                };
                pool_decimals_collateral = collateral_decimals;
            },
        }
        if price_collateral_mantissa == 0 {
            return Err(Error::PriceError);
        }
        let input = LiquidateCalculateSeizeTokensInput {
            price_borrowed_mantissa: U256::from_u128(price_borrowed_mantissa),
            decimals_borrowed: pool_decimals_borrowed,
            price_collateral_mantissa: U256::from_u128(price_collateral_mantissa),
            decimals_collateral: pool_decimals_collateral,
            exchange_rate_mantissa: exchange_rate_mantissa.0,
            liquidation_incentive_mantissa: self.liquidation_incentive_mantissa.0,
            actual_repay_amount: repay_amount,
        };
        assert(input == self.seize_input(exchange_rate_mantissa, repay_amount, price_borrowed_mantissa,
            pool_decimals_borrowed, price_collateral_mantissa, pool_decimals_collateral));
        let result = liquidate_calculate_seize_tokens(&input);
        Ok(result)
    }

    /// Why a collateral factor may not be set for a pool, if it may not: it must be
    /// positive, at most 90%, at most the pool's liquidation threshold (rescaled from
    /// four to eighteen decimals), and the oracle must price the pool's underlying
    /// above zero.
    pub open spec fn collateral_factor_check_spec(
        &self,
        new_collateral_factor_mantissa: WrappedU256,
        pool_liquidation_threshold: u128,
        underlying_price: Option<u128>,
    ) -> Result<(), Error> {
        let cf = new_collateral_factor_mantissa@;
        if cf == 0 || cf > 900_000_000_000_000_000 {
            Err(Error::InvalidCollateralFactor)
        } else if cf > (pool_liquidation_threshold as nat) * 100_000_000_000_000 {
            Err(Error::InvalidCollateralFactor)
        } else if self.oracle.is_none() {
            Err(Error::OracleIsNotSet)
        } else if underlying_price.is_none() || underlying_price.unwrap() == 0 {
            Err(Error::PriceError)
        } else {
            Ok(())
        }
    }

    fn collateral_factor_check(
        &self,
        new_collateral_factor_mantissa: WrappedU256,
        pool_liquidation_threshold: u128,
        underlying_price: Option<u128>,
    ) -> (r: Result<(), Error>)
        ensures
            r == self.collateral_factor_check_spec(new_collateral_factor_mantissa, pool_liquidation_threshold, underlying_price),
    {
        let new_collateral_factor_mantissa_u256 = new_collateral_factor_mantissa.0;
        if new_collateral_factor_mantissa_u256.is_zero() || new_collateral_factor_mantissa_u256.gt(
            &collateral_factor_max_mantissa(),
        ) {
            return Err(Error::InvalidCollateralFactor);
        }
        let liquidation_threshold_u256 = U256::from_u128(pool_liquidation_threshold).mul(
            U256::from_u128(100_000_000_000_000),
        );
        if new_collateral_factor_mantissa_u256.gt(&liquidation_threshold_u256) {
            return Err(Error::InvalidCollateralFactor);
        }
        if self.oracle.is_none() {
            return Err(Error::OracleIsNotSet);
        }
        match underlying_price {
            None | Some(0) => {
                return Err(Error::PriceError);
            },
            _ => {},
        }
        Ok(())
    }

    /// Sets the collateral factor of `pool`; `pool_liquidation_threshold` is the pool's
    /// liquidation threshold and `underlying_price` the oracle's price of its
    /// underlying.
    pub fn _set_collateral_factor_mantissa(
        &mut self,
        pool: &AccountId,
        new_collateral_factor_mantissa: WrappedU256,
        pool_liquidation_threshold: u128,
        underlying_price: Option<u128>,
    ) -> (r: Result<(), Error>)
        requires
            old(self).wf(),
        ensures
            final(self).wf(),
            r == old(self).collateral_factor_check_spec(new_collateral_factor_mantissa, pool_liquidation_threshold, underlying_price),
            r is Ok ==> old(self).collateral_factor_set(*final(self), *pool, new_collateral_factor_mantissa),
            r is Err ==> *final(self) == *old(self),
    {
        self.collateral_factor_check(new_collateral_factor_mantissa, pool_liquidation_threshold, underlying_price)?;
        self.collateral_factor_mantissa.insert(pool, &new_collateral_factor_mantissa);
        Ok(())
    }

    /// Lists `pool` for `underlying`, with minting and borrowing unpaused, no borrow
    /// cap and, when given, a collateral factor (checked as `_set_collateral_factor_mantissa`
    /// checks it). At most `MAXIMUM_MARKETS` pools, each pool and each underlying once.
    pub open spec fn support_market_spec(
        &self,
        pool: AccountId,
        underlying: AccountId,
        collateral_factor_mantissa: Option<WrappedU256>,
        pool_liquidation_threshold: u128,
        underlying_price: Option<u128>,
    ) -> Result<(), Error> {
        if self.markets@.len() >= MAXIMUM_MARKETS {
            Err(Error::MarketCountReachedToMaximum)
        } else if self.is_listed_spec(pool) {
            Err(Error::MarketAlreadyListed)
        } else if self.underlying_market_pair.view().contains_key(underlying) {
            Err(Error::MarketAlreadyListed)
        } else {
            match collateral_factor_mantissa {
                None => Ok(()),
                Some(cf) => self.collateral_factor_check_spec(cf, pool_liquidation_threshold, underlying_price),
            }
        }
    }

    pub fn _support_market(
        &mut self,
        pool: &AccountId,
        underlying: &AccountId,
        collateral_factor_mantissa: Option<WrappedU256>,
        pool_liquidation_threshold: u128,
        underlying_price: Option<u128>,
    ) -> (r: Result<(), Error>)
        requires
            old(self).wf(),
        ensures
            final(self).wf(),
            old(self).listing_wf() ==> final(self).listing_wf(),
            r == old(self).support_market_spec(*pool, *underlying, collateral_factor_mantissa, pool_liquidation_threshold, underlying_price),
            r is Ok ==> old(self).market_listed(*final(self), *pool, *underlying, collateral_factor_mantissa),
            r is Err ==> *final(self) == *old(self),
    {
        // Prevent clone to reduce gas
        if self.markets.len() >= MAXIMUM_MARKETS {
            return Err(Error::MarketCountReachedToMaximum);
        }
        if self._is_listed(*pool) {
            return Err(Error::MarketAlreadyListed);
        }
        if let Some(_existing) = self.underlying_market_pair.get(underlying) {
            return Err(Error::MarketAlreadyListed);
        }
        if let Some(value) = collateral_factor_mantissa {
            self.collateral_factor_check(value, pool_liquidation_threshold, underlying_price)?;
        }
        self.markets.push(*pool);
        self.underlying_market_pair.insert(underlying, pool);
        self.market_underlying_pair.insert(pool, underlying);
        // set default states
        self.mint_guardian_paused.insert(pool, &false);
        self.borrow_guardian_paused.insert(pool, &false);
        if let Some(value) = collateral_factor_mantissa {
            self.collateral_factor_mantissa.insert(pool, &value);
        }
        self.borrow_caps.insert(pool, &0);
        proof {
            if old(self).listing_wf() {
                let mup0 = old(self).market_underlying_pair.view();
                let ump0 = old(self).underlying_market_pair.view();
                let mup = self.market_underlying_pair.view();
                let ump = self.underlying_market_pair.view();
                assert(!old(self).markets@.contains(*pool));
                assert forall|p: AccountId| #[trigger] self.markets@.contains(p) <==> mup.contains_key(p) by {
                    assert(old(self).markets@.contains(p) <==> mup0.contains_key(p));
                    if p == *pool {
                        assert(self.markets@[self.markets@.len() - 1] == p);
                    } else {
                        if self.markets@.contains(p) {
                            let k = choose|k: int| 0 <= k < self.markets@.len() && self.markets@[k] == p;
                            assert(old(self).markets@[k] == p);
                            assert(old(self).markets@.contains(p));
                        }
                        if old(self).markets@.contains(p) {
                            let k = choose|k: int| 0 <= k < old(self).markets@.len() && old(self).markets@[k] == p;
                            assert(self.markets@[k] == p);
                        }
                    }
                };
                assert forall|p: AccountId| #[trigger] mup.contains_key(p) implies ump.contains_key(mup[p]) && ump[mup[p]] == p by {
                    if p != *pool {
                        assert(mup0.contains_key(p));
                        assert(ump0.contains_key(mup0[p]));
                    }
                };
                assert forall|u: AccountId| #[trigger] ump.contains_key(u) implies mup.contains_key(ump[u]) && mup[ump[u]] == u by {
                    if u != *underlying {
                        assert(ump0.contains_key(u));
                        assert(mup0.contains_key(ump0[u]));
                    }
                };
                assert(self.markets@.no_duplicates());
            }
        }
        Ok(())
    }

    /// The manager check of the administrative functions; see `_assert_manager`.
    pub open spec fn assert_manager_spec(&self, caller: AccountId) -> Result<(), Error> {
        match self.manager {
            None => Err::<(), Error>(Error::ManagerIsNotSet),
            Some(m) => if caller == m {
                Ok(())
            } else {
                Err(Error::CallerIsNotManager)
            },
        }
    }

    /// Sets the price oracle.
    pub fn _set_price_oracle(&mut self, new_oracle: AccountId) -> (r: Result<(), Error>)
        ensures
            r == Ok::<(), Error>(()),
            *final(self) == (Data { oracle: Some(new_oracle), ..*old(self) }),
    {
        self.oracle = Some(new_oracle);
        Ok(())
    }

    /// Sets the price oracle. Only the manager may.
    pub fn set_price_oracle(&mut self, caller: AccountId, new_oracle: AccountId) -> (r: Result<(), Error>)
        ensures
            r == old(self).assert_manager_spec(caller),
            r is Ok ==> *final(self) == (Data { oracle: Some(new_oracle), ..*old(self) }),
            r is Err ==> *final(self) == *old(self),
    {
        self._assert_manager(caller)?;
        self._set_price_oracle(new_oracle)
    }

    /// Sets the flashloan gateway.
    pub fn _set_flashloan_gateway(&mut self, new_flashloan_gateway: AccountId) -> (r: Result<(), Error>)
        ensures
            r == Ok::<(), Error>(()),
            *final(self) == (Data { flashloan_gateway: Some(new_flashloan_gateway), ..*old(self) }),
    {
        self.flashloan_gateway = Some(new_flashloan_gateway);
        Ok(())
    }

    /// Sets the flashloan gateway. Only the manager may.
    pub fn set_flashloan_gateway(&mut self, caller: AccountId, new_flashloan_gateway: AccountId) -> (r: Result<(), Error>)
        ensures
            r == old(self).assert_manager_spec(caller),
            r is Ok ==> *final(self) == (Data { flashloan_gateway: Some(new_flashloan_gateway), ..*old(self) }),
            r is Err ==> *final(self) == *old(self),
    {
        self._assert_manager(caller)?;
        self._set_flashloan_gateway(new_flashloan_gateway)
    }

    /// Pauses or resumes seizing in every pool.
    pub fn _set_seize_guardian_paused(&mut self, paused: bool) -> (r: Result<(), Error>)
        ensures
            r == Ok::<(), Error>(()),
            *final(self) == (Data { seize_guardian_paused: paused, ..*old(self) }),
    {
        self.seize_guardian_paused = paused;
        Ok(())
    }

    /// Pauses or resumes seizing in every pool. Only the manager may.
    pub fn set_seize_guardian_paused(&mut self, caller: AccountId, paused: bool) -> (r: Result<(), Error>)
        ensures
            r == old(self).assert_manager_spec(caller),
            r is Ok ==> *final(self) == (Data { seize_guardian_paused: paused, ..*old(self) }),
            r is Err ==> *final(self) == *old(self),
    {
        self._assert_manager(caller)?;
        self._set_seize_guardian_paused(paused)
    }

    /// Pauses or resumes pool-token transfers in every pool.
    pub fn _set_transfer_guardian_paused(&mut self, paused: bool) -> (r: Result<(), Error>)
        ensures
            r == Ok::<(), Error>(()),
            *final(self) == (Data { transfer_guardian_paused: paused, ..*old(self) }),
    {
        self.transfer_guardian_paused = paused;
        Ok(())
    }

    /// Pauses or resumes pool-token transfers in every pool. Only the manager may.
    pub fn set_transfer_guardian_paused(&mut self, caller: AccountId, paused: bool) -> (r: Result<(), Error>)
        ensures
            r == old(self).assert_manager_spec(caller),
            r is Ok ==> *final(self) == (Data { transfer_guardian_paused: paused, ..*old(self) }),
            r is Err ==> *final(self) == *old(self),
    {
        self._assert_manager(caller)?;
        self._set_transfer_guardian_paused(paused)
    }

    /// Sets the close factor: the share of a borrow a liquidator may repay at once.
    pub fn _set_close_factor_mantissa(&mut self, new_close_factor_mantissa: WrappedU256) -> (r: Result<(), Error>)
        ensures
            r == Ok::<(), Error>(()),
            *final(self) == (Data { close_factor_mantissa: new_close_factor_mantissa, ..*old(self) }),
    {
        self.close_factor_mantissa = new_close_factor_mantissa;
        Ok(())
    }

    /// Sets the close factor: the share of a borrow a liquidator may repay at once. Only the manager may.
    pub fn set_close_factor_mantissa(&mut self, caller: AccountId, new_close_factor_mantissa: WrappedU256) -> (r: Result<(), Error>)
        ensures
            r == old(self).assert_manager_spec(caller),
            r is Ok ==> *final(self) == (Data { close_factor_mantissa: new_close_factor_mantissa, ..*old(self) }),
            r is Err ==> *final(self) == *old(self),
    {
        self._assert_manager(caller)?;
        self._set_close_factor_mantissa(new_close_factor_mantissa)
    }

    /// Sets the liquidation incentive: the premium a liquidator receives on seized collateral.
    pub fn _set_liquidation_incentive_mantissa(&mut self, new_liquidation_incentive_mantissa: WrappedU256) -> (r: Result<(), Error>)
        ensures
            r == Ok::<(), Error>(()),
            *final(self) == (Data { liquidation_incentive_mantissa: new_liquidation_incentive_mantissa, ..*old(self) }),
    {
        self.liquidation_incentive_mantissa = new_liquidation_incentive_mantissa;
        Ok(())
    }

    /// Sets the liquidation incentive: the premium a liquidator receives on seized collateral. Only the manager may.
    pub fn set_liquidation_incentive_mantissa(&mut self, caller: AccountId, new_liquidation_incentive_mantissa: WrappedU256) -> (r: Result<(), Error>)
        ensures
            r == old(self).assert_manager_spec(caller),
            r is Ok ==> *final(self) == (Data { liquidation_incentive_mantissa: new_liquidation_incentive_mantissa, ..*old(self) }),
            r is Err ==> *final(self) == *old(self),
    {
        self._assert_manager(caller)?;
        self._set_liquidation_incentive_mantissa(new_liquidation_incentive_mantissa)
    }

    /// Proposes a new manager, who becomes manager on accepting.
    pub fn _set_manager(&mut self, manager: AccountId) -> (r: Result<(), Error>)
        ensures
            r == Ok::<(), Error>(()),
            *final(self) == (Data { pending_manager: Some(manager), ..*old(self) }),
    {
        self.pending_manager = Some(manager);
        Ok(())
    }

    /// Proposes a new manager, who becomes manager on accepting. Only the manager may.
    pub fn set_manager(&mut self, caller: AccountId, manager: AccountId) -> (r: Result<(), Error>)
        ensures
            r == old(self).assert_manager_spec(caller),
            r is Ok ==> *final(self) == (Data { pending_manager: Some(manager), ..*old(self) }),
            r is Err ==> *final(self) == *old(self),
    {
        self._assert_manager(caller)?;
        self._set_manager(manager)
    }

    /// Pauses or resumes minting in `pool`.
    pub fn _set_mint_guardian_paused(&mut self, pool: &AccountId, paused: bool) -> (r: Result<(), Error>)
        requires
            old(self).wf(),
        ensures
            r == Ok::<(), Error>(()),
            final(self).wf(),
            final(self).mint_guardian_paused.view() == old(self).mint_guardian_paused.view().insert(*pool, paused),
            *final(self) == (Data { mint_guardian_paused: final(self).mint_guardian_paused, ..*old(self) }),
    {
        self.mint_guardian_paused.insert(pool, &paused);
        Ok(())
    }

    /// Pauses or resumes borrowing in `pool`.
    pub fn _set_borrow_guardian_paused(&mut self, pool: &AccountId, paused: bool) -> (r: Result<(), Error>)
        requires
            old(self).wf(),
        ensures
            r == Ok::<(), Error>(()),
            final(self).wf(),
            final(self).borrow_guardian_paused.view() == old(self).borrow_guardian_paused.view().insert(*pool, paused),
            *final(self) == (Data { borrow_guardian_paused: final(self).borrow_guardian_paused, ..*old(self) }),
    {
        self.borrow_guardian_paused.insert(pool, &paused);
        Ok(())
    }

    /// Sets the most that may be borrowed from `pool`; zero means no cap.
    pub fn _set_borrow_cap(&mut self, pool: &AccountId, new_cap: u128) -> (r: Result<(), Error>)
        requires
            old(self).wf(),
        ensures
            r == Ok::<(), Error>(()),
            final(self).wf(),
            final(self).borrow_caps.view() == old(self).borrow_caps.view().insert(*pool, new_cap),
            *final(self) == (Data { borrow_caps: final(self).borrow_caps, ..*old(self) }),
    {
        self.borrow_caps.insert(pool, &new_cap);
        Ok(())
    }

    /// Pauses or resumes minting in `pool`. Only the manager may.
    pub fn set_mint_guardian_paused(&mut self, caller: AccountId, pool: AccountId, paused: bool) -> (r: Result<(), Error>)
        requires
            old(self).wf(),
        ensures
            final(self).wf(),
            r == old(self).assert_manager_spec(caller),
            r is Ok ==> final(self).mint_guardian_paused.view() == old(self).mint_guardian_paused.view().insert(pool, paused)
                && *final(self) == (Data { mint_guardian_paused: final(self).mint_guardian_paused, ..*old(self) }),
            r is Err ==> *final(self) == *old(self),
    {
        self._assert_manager(caller)?;
        self._set_mint_guardian_paused(&pool, paused)
    }

    /// Pauses or resumes borrowing in `pool`. Only the manager may.
    pub fn set_borrow_guardian_paused(&mut self, caller: AccountId, pool: AccountId, paused: bool) -> (r: Result<(), Error>)
        requires
            old(self).wf(),
        ensures
            final(self).wf(),
            r == old(self).assert_manager_spec(caller),
            r is Ok ==> final(self).borrow_guardian_paused.view() == old(self).borrow_guardian_paused.view().insert(pool, paused)
                && *final(self) == (Data { borrow_guardian_paused: final(self).borrow_guardian_paused, ..*old(self) }),
            r is Err ==> *final(self) == *old(self),
    {
        self._assert_manager(caller)?;
        self._set_borrow_guardian_paused(&pool, paused)
    }

    /// Sets the borrow cap of `pool`. Only the manager may.
    pub fn set_borrow_cap(&mut self, caller: AccountId, pool: AccountId, new_cap: u128) -> (r: Result<(), Error>)
        requires
            old(self).wf(),
        ensures
            final(self).wf(),
            r == old(self).assert_manager_spec(caller),
            r is Ok ==> final(self).borrow_caps.view() == old(self).borrow_caps.view().insert(pool, new_cap)
                && *final(self) == (Data { borrow_caps: final(self).borrow_caps, ..*old(self) }),
            r is Err ==> *final(self) == *old(self),
    {
        self._assert_manager(caller)?;
        self._set_borrow_cap(&pool, new_cap)
    }

    /// The pending manager becomes the manager, and no manager is pending.
    pub fn _accept_manager(&mut self) -> (r: Result<(), Error>)
        ensures
            r == (if old(self).manager.is_none() {
                Err::<(), Error>(Error::ManagerIsNotSet)
            } else if old(self).pending_manager.is_none() {
                Err(Error::PendingManagerIsNotSet)
            } else {
                Ok(())
            }),
            r is Ok ==> *final(self) == (Data { manager: old(self).pending_manager, pending_manager: None, ..*old(self) }),
            r is Err ==> *final(self) == *old(self),
    {
        if self.manager.is_none() {
            return Err(Error::ManagerIsNotSet);
        }
        let pending_manager = match self.pending_manager {
            Some(p) => p,
            None => {
                return Err(Error::PendingManagerIsNotSet);
            },
        };
        self.manager = Some(pending_manager);
        self.pending_manager = None;
        Ok(())
    }

    /// The pending manager accepts the manager role. Only the pending manager may.
    pub fn accept_manager(&mut self, caller: AccountId) -> (r: Result<(), Error>)
        ensures
            r == (match old(self).pending_manager {
                None => Err::<(), Error>(Error::PendingManagerIsNotSet),
                Some(p) => if caller != p {
                    Err(Error::CallerIsNotPendingManager)
                } else if old(self).manager.is_none() {
                    Err(Error::ManagerIsNotSet)
                } else {
                    Ok(())
                },
            }),
            r is Ok ==> *final(self) == (Data { manager: old(self).pending_manager, pending_manager: None, ..*old(self) }),
            r is Err ==> *final(self) == *old(self),
    {
        self._assert_pending_manager(caller)?;
        self._accept_manager()
    }

    /// Lists `pool` for `underlying`; see `_support_market`. Only the manager may.
    pub fn support_market(&mut self, caller: AccountId, pool: AccountId, underlying: AccountId) -> (r: Result<(), Error>)
        requires
            old(self).wf(),
        ensures
            final(self).wf(),
            old(self).listing_wf() ==> final(self).listing_wf(),
            r == (match old(self).assert_manager_spec(caller) {
                Err(e) => Err(e),
                Ok(_) => old(self).support_market_spec(pool, underlying, None, 0, None),
            }),
            r is Ok ==> old(self).market_listed(*final(self), pool, underlying, None),
            r is Err ==> *final(self) == *old(self),
    {
        self._assert_manager(caller)?;
        self._support_market(&pool, &underlying, None, 0, None)
    }

    /// The event of a listing of `pool`, reported once `support_market` or
    /// `support_market_with_collateral_factor_mantissa` went through.
    pub fn market_listed_event(pool: AccountId) -> (r: MarketListed)
        ensures
            r == (MarketListed { pool }),
    {
        MarketListed { pool }
    }

    /// Lists `pool` for `underlying` with a collateral factor; see `_support_market`.
    /// Only the manager may.
    pub fn support_market_with_collateral_factor_mantissa(
        &mut self,
        caller: AccountId,
        pool: AccountId,
        underlying: AccountId,
        collateral_factor_mantissa: WrappedU256,
        pool_liquidation_threshold: u128,
        underlying_price: Option<u128>,
    ) -> (r: Result<(), Error>)
        requires
            old(self).wf(),
        ensures
            final(self).wf(),
            r == (match old(self).assert_manager_spec(caller) {
                Err(e) => Err(e),
                Ok(_) => old(self).support_market_spec(pool, underlying, Some(collateral_factor_mantissa), pool_liquidation_threshold, underlying_price),
            }),
            old(self).listing_wf() ==> final(self).listing_wf(),
            r is Ok ==> old(self).market_listed(*final(self), pool, underlying, Some(collateral_factor_mantissa)),
            r is Err ==> *final(self) == *old(self),
    {
        self._assert_manager(caller)?;
        self._support_market(&pool, &underlying, Some(collateral_factor_mantissa), pool_liquidation_threshold, underlying_price)
    }

    /// Sets the collateral factor of `pool`; see `_set_collateral_factor_mantissa`.
    /// Only the manager may.
    pub fn set_collateral_factor_mantissa(
        &mut self,
        caller: AccountId,
        pool: AccountId,
        new_collateral_factor_mantissa: WrappedU256,
        pool_liquidation_threshold: u128,
        underlying_price: Option<u128>,
    ) -> (r: Result<(), Error>)
        requires
            old(self).wf(),
        ensures
            final(self).wf(),
            r == (match old(self).assert_manager_spec(caller) {
                Err(e) => Err(e),
                Ok(_) => old(self).collateral_factor_check_spec(new_collateral_factor_mantissa, pool_liquidation_threshold, underlying_price),
            }),
            r is Ok ==> old(self).collateral_factor_set(*final(self), pool, new_collateral_factor_mantissa),
            r is Err ==> *final(self) == *old(self),
    {
        self._assert_manager(caller)?;
        self._set_collateral_factor_mantissa(&pool, new_collateral_factor_mantissa, pool_liquidation_threshold, underlying_price)
    }

    /// The pools in which `account` is active; see `account_assets_spec`. The pool
    /// calling (`caller`) is left out: it checks itself.
    pub fn _account_assets(
        &self,
        caller: AccountId,
        _account: AccountId,
        token_modify: Option<AccountId>,
        snapshots: &Vec<MarketSnapshot>,
    ) -> (r: Vec<AccountId>)
        requires
            self.snapshots_match(snapshots@),
        ensures
            r@ == account_assets_spec(caller, token_modify, snapshots@),
    {
        let mut account_assets: Vec<AccountId> = Vec::new();
        let n = snapshots.len();
        let mut i: usize = 0;
        assert(snapshots@.take(0) =~= Seq::<MarketSnapshot>::empty());
        while i < n
            invariant
                n == snapshots@.len(),
                i <= n,
                account_assets@ == account_assets_spec(caller, token_modify, snapshots@.take(i as int)),
            decreases n - i,
        {
            let snap = snapshots[i];
            let pool = snap.asset;
            proof {
                assert(snapshots@.take(i + 1).drop_last() =~= snapshots@.take(i as int));
                assert(snapshots@.take(i + 1).last() == snap);
            }
            if pool == caller {
                // NOTE: if caller is pool, need to check by the pool itself
            } else if token_modify.is_some() && token_modify == Some(pool) {
                // NOTE: add unconditionally even if balance, borrowed is not already there
                account_assets.push(pool);
            } else if snap.account_balance > 0 || snap.borrow_balance > 0 {
                // whether deposits or loans exist
                account_assets.push(pool);
            }
            i = i + 1;
        }
        assert(snapshots@.take(n as int) =~= snapshots@);
        account_assets
    }

    /// The account's status in the base currency; see `_calculate_user_account_data`.
    pub fn calculate_user_account_data(
        &self,
        caller: AccountId,
        account: AccountId,
        pool_attributes: Option<PoolAttributes>,
        attribute_price: Option<u128>,
        snapshots: &Vec<MarketSnapshot>,
    ) -> (r: Result<AccountData, Error>)
        requires
            self.wf(),
            self.snapshots_match(snapshots@),
            self.user_account_data_fits(caller, pool_attributes, attribute_price, None, snapshots@),
        ensures
            match (r, self.user_account_data_spec(caller, pool_attributes, attribute_price, None, snapshots@)) {
                (Ok(d), Ok(s)) => {
                    &&& d.total_collateral_in_base_currency@ == s.0
                    &&& d.total_debt_in_base_currency@ == s.1
                    &&& d.avg_ltv@ == s.2
                    &&& d.avg_liquidation_threshold@ == s.3
                    &&& d.health_factor@ == s.4
                },
                (Err(e), Err(f)) => e == f,
                _ => false,
            },
    {
        let (account_data, _) = self._calculate_user_account_data(
            caller,
            account,
            pool_attributes,
            attribute_price,
            None,
            snapshots,
        )?;
        Ok(
            AccountData {
                total_collateral_in_base_currency: account_data.total_collateral_in_base_currency,
                total_debt_in_base_currency: account_data.total_debt_in_base_currency,
                avg_ltv: account_data.avg_ltv,
                avg_liquidation_threshold: account_data.avg_liquidation_threshold,
                health_factor: account_data.health_factor,
            },
        )
    }

    /// The listed pools, in listing order.
    pub fn markets(&self) -> (r: Vec<AccountId>)
        ensures
            r@ == self.markets@,
    {
        let mut r: Vec<AccountId> = Vec::new();
        let mut i: usize = 0;
        while i < self.markets.len()
            invariant
                i <= self.markets@.len(),
                r@ == self.markets@.take(i as int),
            decreases self.markets@.len() - i,
        {
            r.push(self.markets[i]);
            i = i + 1;
            assert(r@ =~= self.markets@.take(i as int));
        }
        assert(self.markets@.take(self.markets@.len() as int) =~= self.markets@);
        r
    }

    /// The pool listed for `underlying`.
    pub fn market_of_underlying(&self, underlying: AccountId) -> (r: Option<AccountId>)
        requires
            self.wf(),
        ensures
            r == (if self.underlying_market_pair.view().contains_key(underlying) {
                Some(self.underlying_market_pair.view()[underlying])
            } else {
                None::<AccountId>
            }),
    {
        self.underlying_market_pair.get(&underlying)
    }

    /// The underlying of a listed pool.
    pub fn underlying_of_market(&self, pool: AccountId) -> (r: Option<AccountId>)
        requires
            self.wf(),
        ensures
            r == (if self.market_underlying_pair.view().contains_key(pool) {
                Some(self.market_underlying_pair.view()[pool])
            } else {
                None::<AccountId>
            }),
    {
        self.market_underlying_pair.get(&pool)
    }

    /// The collateral factor of `pool`, if set.
    pub fn collateral_factor_mantissa(&self, pool: AccountId) -> (r: Option<WrappedU256>)
        requires
            self.wf(),
        ensures
            r == (if self.collateral_factor_mantissa.view().contains_key(pool) {
                Some(self.collateral_factor_mantissa.view()[pool])
            } else {
                None::<WrappedU256>
            }),
    {
        self.collateral_factor_mantissa.get(&pool)
    }

    /// Whether minting is paused in `pool`, if configured.
    pub fn mint_guardian_paused(&self, pool: AccountId) -> (r: Option<bool>)
        requires
            self.wf(),
        ensures
            r == (if self.mint_guardian_paused.view().contains_key(pool) {
                Some(self.mint_guardian_paused.view()[pool])
            } else {
                None::<bool>
            }),
    {
        self.mint_guardian_paused.get(&pool)
    }

    /// Whether borrowing is paused in `pool`, if configured.
    pub fn borrow_guardian_paused(&self, pool: AccountId) -> (r: Option<bool>)
        requires
            self.wf(),
        ensures
            r == (if self.borrow_guardian_paused.view().contains_key(pool) {
                Some(self.borrow_guardian_paused.view()[pool])
            } else {
                None::<bool>
            }),
    {
        self.borrow_guardian_paused.get(&pool)
    }

    /// The borrow cap of `pool`, if set.
    pub fn borrow_cap(&self, pool: AccountId) -> (r: Option<u128>)
        requires
            self.wf(),
        ensures
            r == (if self.borrow_caps.view().contains_key(pool) {
                Some(self.borrow_caps.view()[pool])
            } else {
                None::<u128>
            }),
    {
        self.borrow_caps.get(&pool)
    }

    /// Whether `pool` is listed.
    pub fn is_listed(&self, pool: AccountId) -> (r: bool)
        requires
            self.wf(),
        ensures
            r == self.is_listed_spec(pool),
    {
        self._is_listed(pool)
    }
}

} // verus!
