//! The price oracle: prices of assets in the base currency, set by hand.

use vstd::prelude::*;
use crate::account::AccountId;
use crate::mapping::Mapping;

verus! {

/// The scale of an oracle price: a price of 10^18 means one unit of the base currency.
pub const PRICE_PRECISION: u128 = 1_000_000_000_000_000_000;

/// The oracle's storage: the price set for each asset.
pub struct Data {
    pub fixed_prices: Mapping<AccountId, u128>,
}

impl Data {
    pub open spec fn wf(&self) -> bool {
        self.fixed_prices.wf()
    }

    /// The price of `asset`, if one was set.
    pub open spec fn price_spec(&self, asset: AccountId) -> Option<u128> {
        if self.fixed_prices.view().contains_key(asset) {
            Some(self.fixed_prices.view()[asset])
        } else {
            None
        }
    }

    /// An oracle without prices.
    pub fn new() -> (r: Data)
        ensures
            r.wf(),
            forall|a: AccountId| #[trigger] r.price_spec(a) is None,
    {
        Data { fixed_prices: Mapping::new() }
    }

    /// The current price of `asset`, if available.
    pub fn get_price(&self, asset: AccountId) -> (r: Option<u128>)
        requires
            self.wf(),
        ensures
            r == self.price_spec(asset),
    {
        self.fixed_prices.get(&asset)
    }

    /// The price of a pool's underlying, if available; `underlying` is the pool's.
    pub fn get_underlying_price(&self, underlying: Option<AccountId>) -> (r: Option<u128>)
        requires
            self.wf(),
        ensures
            r == (match underlying {
                Some(u) => self.price_spec(u),
                None => None,
            }),
    {
        match underlying {
            Some(u) => self.get_price(u),
            None => None,
        }
    }

    /// Sets the price of `asset`; this never fails.
    pub fn set_fixed_price(&mut self, asset: AccountId, value: u128)
        requires
            old(self).wf(),
        ensures
            final(self).wf(),
            final(self).fixed_prices.view() == old(self).fixed_prices.view().insert(asset, value),
    {
        self.fixed_prices.insert(&asset, &value);
    }
}

/// A price set for an asset is the price read back, and setting one price leaves the
/// others as they were.
pub proof fn law_price_read_after_set(before: Data, after: Data, asset: AccountId, value: u128, other: AccountId)
    requires
        before.wf(),
        after.fixed_prices.view() == before.fixed_prices.view().insert(asset, value),
    ensures
        after.price_spec(asset) == Some(value),
        other != asset ==> after.price_spec(other) == before.price_spec(other),
{
}

} // verus!
