//! The lens: read-only summaries of pools and accounts for front ends.

use vstd::prelude::*;
use crate::account::AccountId;
use crate::pool::Error as PoolError;
use crate::types::WrappedU256;

verus! {

/// Pool's Balance Information
#[derive(Clone, Copy, Debug, PartialEq, Eq, Structural)]
pub struct PoolBalances {
    pub pool: AccountId,
    pub balance_of: u128,
    pub borrow_balance_current: u128,
    pub balance_of_underlying: u128,
    pub token_balance: u128,
    pub token_allowance: u128,
}

/// The price of a pool's underlying.
#[derive(Clone, Copy, Debug, PartialEq, Eq, Structural)]
pub struct PoolUnderlyingPrice {
    pub pool: AccountId,
    /// underlying_price of the pool
    pub underlying_price: u128,
}

/// Protocol's Configuration
#[derive(Clone, Copy, Debug)]
pub struct Configuration {
    pub manager: Option<AccountId>,
    pub oracle: Option<AccountId>,
    pub seize_guardian_paused: bool,
    pub transfer_guardian_paused: bool,
    pub liquidation_incentive_mantissa: WrappedU256,
    pub close_factor_mantissa: WrappedU256,
}

/// Metadata in the Pool
#[derive(Clone, Debug)]
pub struct PoolMetadata {
    pub pool: AccountId,
    pub pool_decimals: u8,
    pub underlying_asset_address: Option<AccountId>,
    pub underlying_decimals: u8,
    pub underlying_symbol: String,
    pub is_listed: bool,
    pub total_cash: u128,
    pub total_supply: u128,
    pub total_borrows: u128,
    pub total_reserves: u128,
    pub exchange_rate_current: WrappedU256,
    pub supply_rate_per_msec: WrappedU256,
    pub borrow_rate_per_msec: WrappedU256,
    pub collateral_factor_mantissa: WrappedU256,
    pub reserve_factor_mantissa: WrappedU256,
    pub borrow_cap: Option<u128>,
    pub mint_guardian_paused: bool,
    pub borrow_guardian_paused: bool,
}

/// What a pool, its underlying token and its controller report, as the lens reads
/// them for `pool_metadata`.
pub struct PoolReadings {
    pub pool_decimals: u8,
    pub controller: Option<AccountId>,
    pub underlying: Option<AccountId>,
    pub underlying_decimals: u8,
    pub underlying_symbol: Option<String>,
    pub is_listed: bool,
    pub collateral_factor_mantissa: Option<WrappedU256>,
    pub borrow_cap: Option<u128>,
    pub mint_guardian_paused: Option<bool>,
    pub borrow_guardian_paused: Option<bool>,
    pub total_cash: u128,
    pub total_supply: u128,
    pub total_borrows: u128,
    pub total_reserves: u128,
    pub exchange_rate_current: Result<WrappedU256, PoolError>,
    pub supply_rate_per_msec: WrappedU256,
    pub borrow_rate_per_msec: WrappedU256,
    pub reserve_factor_mantissa: WrappedU256,
}

/// The lens holds nothing.
#[derive(Clone, Copy, Debug, PartialEq, Eq, Structural)]
pub struct LensContract {}

impl LensContract {
    pub fn new() -> (r: LensContract)
        ensures
            r == (LensContract {}),
    {
        LensContract {}
    }

    /// The price of `pool`'s underlying: zero when the pool has no controller or no
    /// underlying, or its controller no oracle; otherwise the oracle's price, which
    /// must exist. The inputs are what the pool, its controller and the oracle
    /// report.
    pub fn _pool_underlying_price(
        &self,
        pool: AccountId,
        controller: Option<AccountId>,
        underlying: Option<AccountId>,
        oracle: Option<AccountId>,
        price: Option<u128>,
    ) -> (r: PoolUnderlyingPrice)
        requires
            controller is Some && underlying is Some && oracle is Some ==> price is Some,
        ensures
            r.pool == pool,
            r.underlying_price == (if controller is None || underlying is None || oracle is None {
                0
            } else {
                price->Some_0
            }),
    {
        if controller.is_none() || underlying.is_none() {
            return PoolUnderlyingPrice { pool, underlying_price: 0 };
        }
        if oracle.is_none() {
            return PoolUnderlyingPrice { pool, underlying_price: 0 };
        }
        match price {
            Some(p) => PoolUnderlyingPrice { pool, underlying_price: p },
            None => PoolUnderlyingPrice { pool, underlying_price: 0 },
        }
    }

    /// An account's balance of a pool's underlying: zero without an underlying;
    /// `balance` is what the underlying token reports.
    pub fn _underlying_balance(&self, underlying: Option<AccountId>, balance: u128) -> (r: u128)
        ensures
            r == (if underlying is Some { balance } else { 0 }),
    {
        if underlying.is_some() {
            return balance;
        }
        0
    }

    /// An account's balances in a pool: the underlying's balance and allowance count
    /// only when the pool has an underlying, and a borrow balance the pool could not
    /// compute counts as zero.
    pub fn _pool_balances(
        &self,
        pool: AccountId,
        underlying: Option<AccountId>,
        balance_of: u128,
        borrow_balance_current: Result<u128, PoolError>,
        balance_of_underlying: u128,
        token_balance: u128,
        token_allowance: u128,
    ) -> (r: PoolBalances)
        ensures
            r == (PoolBalances {
                pool,
                balance_of,
                borrow_balance_current: match borrow_balance_current {
                    Ok(b) => b,
                    Err(_) => 0,
                },
                balance_of_underlying,
                token_balance: if underlying is Some { token_balance } else { 0 },
                token_allowance: if underlying is Some { token_allowance } else { 0 },
            }),
    {
        let (token_balance, token_allowance) = if underlying.is_some() {
            (token_balance, token_allowance)
        } else {
            (0, 0)
        };
        PoolBalances {
            pool,
            balance_of,
            borrow_balance_current: match borrow_balance_current {
                Ok(b) => b,
                Err(_) => 0,
            },
            balance_of_underlying,
            token_balance,
            token_allowance,
        }
    }

    /// The metadata of `pool`: without an underlying, its decimals and symbol are
    /// zero and empty; without a controller, the pool counts as unlisted, with no
    /// collateral factor, a zero borrow cap and both guardians paused; values the
    /// contracts could not give count as zero.
    pub fn _pool_metadata(&self, pool: AccountId, readings: PoolReadings) -> (r: PoolMetadata)
        ensures
            r.pool == pool,
            r.pool_decimals == readings.pool_decimals,
            r.underlying_asset_address == readings.underlying,
            r.underlying_decimals == (if readings.underlying is Some { readings.underlying_decimals } else { 0 }),
            r.underlying_symbol@ == (if readings.underlying is Some && readings.underlying_symbol is Some {
                readings.underlying_symbol->Some_0@
            } else {
                Seq::<char>::empty()
            }),
            r.is_listed == (readings.controller is Some && readings.is_listed),
            r.collateral_factor_mantissa@ == (if readings.controller is Some && readings.collateral_factor_mantissa is Some {
                readings.collateral_factor_mantissa->Some_0@
            } else {
                0
            }),
            r.borrow_cap == (if readings.controller is Some { readings.borrow_cap } else { Some(0u128) }),
            r.mint_guardian_paused == (if readings.controller is Some {
                readings.mint_guardian_paused == Some(true)
            } else {
                true
            }),
            r.borrow_guardian_paused == (if readings.controller is Some {
                readings.borrow_guardian_paused == Some(true)
            } else {
                true
            }),
            r.total_cash == readings.total_cash,
            r.total_supply == readings.total_supply,
            r.total_borrows == readings.total_borrows,
            r.total_reserves == readings.total_reserves,
            r.exchange_rate_current@ == (match readings.exchange_rate_current {
                Ok(rate) => rate@,
                Err(_) => 0,
            }),
            r.supply_rate_per_msec == readings.supply_rate_per_msec,
            r.borrow_rate_per_msec == readings.borrow_rate_per_msec,
            r.reserve_factor_mantissa == readings.reserve_factor_mantissa,
    {
        let (underlying_decimals, underlying_symbol) = if readings.underlying.is_some() {
            let symbol = match readings.underlying_symbol {
                Some(s) => s,
                None => String::new(),
            };
            (readings.underlying_decimals, symbol)
        } else {
            (0u8, String::new())
        };
        let (is_listed, collateral_factor_mantissa, borrow_cap, mint_guardian_paused, borrow_guardian_paused) =
            if readings.controller.is_some() {
                (
                    readings.is_listed,
                    match readings.collateral_factor_mantissa {
                        Some(cf) => cf,
                        None => WrappedU256::zero(),
                    },
                    readings.borrow_cap,
                    match readings.mint_guardian_paused {
                        Some(p) => p,
                        None => false,
                    },
                    match readings.borrow_guardian_paused {
                        Some(p) => p,
                        None => false,
                    },
                )
            } else {
                (false, WrappedU256::zero(), Some(0u128), true, true)
            };
        let exchange_rate_current = match readings.exchange_rate_current {
            Ok(rate) => rate,
            Err(_) => WrappedU256::zero(),
        };
        PoolMetadata {
            pool,
            pool_decimals: readings.pool_decimals,
            underlying_asset_address: readings.underlying,
            underlying_decimals,
            underlying_symbol,
            is_listed,
            total_cash: readings.total_cash,
            total_supply: readings.total_supply,
            total_borrows: readings.total_borrows,
            total_reserves: readings.total_reserves,
            exchange_rate_current,
            supply_rate_per_msec: readings.supply_rate_per_msec,
            borrow_rate_per_msec: readings.borrow_rate_per_msec,
            collateral_factor_mantissa,
            reserve_factor_mantissa: readings.reserve_factor_mantissa,
            borrow_cap,
            mint_guardian_paused,
            borrow_guardian_paused,
        }
    }

    /// The price of `pool`'s underlying; see `_pool_underlying_price`.
    pub fn pool_underlying_price(
        &self,
        pool: AccountId,
        controller: Option<AccountId>,
        underlying: Option<AccountId>,
        oracle: Option<AccountId>,
        price: Option<u128>,
    ) -> (r: PoolUnderlyingPrice)
        requires
            controller is Some && underlying is Some && oracle is Some ==> price is Some,
        ensures
            r.pool == pool,
            r.underlying_price == (if controller is None || underlying is None || oracle is None {
                0
            } else {
                price->Some_0
            }),
    {
        self._pool_underlying_price(pool, controller, underlying, oracle, price)
    }

    /// An account's balance of a pool's underlying; see `_underlying_balance`.
    pub fn underlying_balance(&self, underlying: Option<AccountId>, balance: u128) -> (r: u128)
        ensures
            r == (if underlying is Some { balance } else { 0 }),
    {
        self._underlying_balance(underlying, balance)
    }
}

} // verus!
