//! The storable wrapper around a 256-bit integer.

use vstd::prelude::*;
use crate::u256::U256;

verus! {

/// A `U256` as it is stored and passed between contracts.
#[derive(Clone, Copy, Debug)]
pub struct WrappedU256(pub U256);

impl View for WrappedU256 {
    type V = nat;

    open spec fn view(&self) -> nat {
        self.0@
    }
}

impl From<U256> for WrappedU256 {
    fn from(value: U256) -> (r: WrappedU256) {
        WrappedU256(value)
    }
}

impl vstd::std_specs::convert::FromSpecImpl<U256> for WrappedU256 {
    open spec fn obeys_from_spec() -> bool {
        true
    }

    open spec fn from_spec(v: U256) -> WrappedU256 {
        WrappedU256(v)
    }
}

impl From<WrappedU256> for U256 {
    fn from(value: WrappedU256) -> (r: U256) {
        value.0
    }
}

impl vstd::std_specs::convert::FromSpecImpl<WrappedU256> for U256 {
    open spec fn obeys_from_spec() -> bool {
        true
    }

    open spec fn from_spec(v: WrappedU256) -> U256 {
        v.0
    }
}

impl WrappedU256 {
    /// The wrapped integer `x`.
    pub fn from_u128(x: u128) -> (r: WrappedU256)
        ensures
            r@ == x as nat,
    {
        WrappedU256(U256::from_u128(x))
    }

    /// The wrapped zero, the value a fresh storage cell holds.
    pub fn zero() -> (r: WrappedU256)
        ensures
            r@ == 0,
    {
        WrappedU256(U256::zero())
    }
}

} // verus!
