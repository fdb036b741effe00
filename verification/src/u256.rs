//! A 256-bit unsigned integer held as four little-endian 64-bit limbs.
//!
//! The value of a `U256` is `limbs[0] + limbs[1]·2^64 + limbs[2]·2^128 + limbs[3]·2^192`.
//! Arithmetic that can overflow is delegated to `primitive_types::U256` through the
//! checked wrappers below; the public operations state exactly when they are defined,
//! mirroring the panicking operators of `primitive_types`.

use vstd::prelude::*;
use vstd::arithmetic::power::pow;

verus! {

/// 2^64
pub open spec fn limb_base() -> nat {
    0x1_0000_0000_0000_0000
}

/// 2^128
pub open spec fn two_pow_128() -> nat {
    0x1_0000_0000_0000_0000_0000_0000_0000_0000nat
}

/// 2^192
pub open spec fn two_pow_192() -> nat {
    0x1_0000_0000_0000_0000_0000_0000_0000_0000_0000_0000_0000_0000nat
}

/// 2^256 - 1, the largest value a `U256` holds.
pub open spec fn u256_max() -> nat {
    0xffff_ffff_ffff_ffff_ffff_ffff_ffff_ffff_ffff_ffff_ffff_ffff_ffff_ffff_ffff_ffffnat
}

/// The largest `u128`, as a mathematical integer.
pub open spec fn u128_max() -> nat {
    0xffff_ffff_ffff_ffff_ffff_ffff_ffff_ffff
}

#[derive(Clone, Copy, Debug)]
pub struct U256 {
    pub limbs: [u64; 4],
}

impl View for U256 {
    type V = nat;

    open spec fn view(&self) -> nat {
        self.limbs@[0] as nat + self.limbs@[1] as nat * limb_base() + self.limbs@[2] as nat
            * two_pow_128() + self.limbs@[3] as nat * two_pow_192()
    }
}

/// `primitive_types::U256::checked_add`: the sum, or `None` when it exceeds 2^256 - 1.
#[verifier::external_body]
fn raw_checked_add(a: &U256, b: &U256) -> (r: Option<U256>)
    ensures
        match r {
            Some(s) => s@ == a@ + b@,
            None => a@ + b@ > u256_max(),
        },
{
    match primitive_types::U256(a.limbs).checked_add(primitive_types::U256(b.limbs)) {
        Some(v) => Some(U256 { limbs: v.0 }),
        None => None,
    }
}

/// `primitive_types::U256::checked_sub`: the difference, or `None` when `b > a`.
#[verifier::external_body]
fn raw_checked_sub(a: &U256, b: &U256) -> (r: Option<U256>)
    ensures
        match r {
            Some(s) => s@ == a@ - b@,
            None => a@ < b@,
        },
{
    match primitive_types::U256(a.limbs).checked_sub(primitive_types::U256(b.limbs)) {
        Some(v) => Some(U256 { limbs: v.0 }),
        None => None,
    }
}

/// `primitive_types::U256::checked_mul`: the product, or `None` when it exceeds 2^256 - 1.
#[verifier::external_body]
fn raw_checked_mul(a: &U256, b: &U256) -> (r: Option<U256>)
    ensures
        match r {
            Some(s) => s@ == a@ * b@,
            None => a@ * b@ > u256_max(),
        },
{
    match primitive_types::U256(a.limbs).checked_mul(primitive_types::U256(b.limbs)) {
        Some(v) => Some(U256 { limbs: v.0 }),
        None => None,
    }
}

/// `primitive_types::U256::checked_div`: the floor quotient, or `None` when `b` is zero.
#[verifier::external_body]
fn raw_checked_div(a: &U256, b: &U256) -> (r: Option<U256>)
    ensures
        match r {
            Some(s) => b@ != 0 && s@ == a@ / b@,
            None => b@ == 0,
        },
{
    match primitive_types::U256(a.limbs).checked_div(primitive_types::U256(b.limbs)) {
        Some(v) => Some(U256 { limbs: v.0 }),
        None => None,
    }
}

/// `primitive_types::U256::checked_pow`: `a` to the power `e`, or `None` when that
/// exceeds 2^256 - 1.
#[verifier::external_body]
fn raw_checked_pow(a: &U256, e: &U256) -> (r: Option<U256>)
    ensures
        match r {
            Some(s) => s@ == pow(a@ as int, e@),
            None => pow(a@ as int, e@) > u256_max(),
        },
{
    match primitive_types::U256(a.limbs).checked_pow(primitive_types::U256(e.limbs)) {
        Some(v) => Some(U256 { limbs: v.0 }),
        None => None,
    }
}

/// `<` of `primitive_types::U256`, which orders by numeric value.
#[verifier::external_body]
fn raw_lt(a: &U256, b: &U256) -> (r: bool)
    ensures
        r == (a@ < b@),
{
    primitive_types::U256(a.limbs) < primitive_types::U256(b.limbs)
}

impl U256 {
    /// The `U256` holding `x`: its low and high 64 bits in the two lowest limbs.
    pub open spec fn spec_from_u128(x: u128) -> U256 {
        U256 {
            limbs: [
                (x % 0x1_0000_0000_0000_0000u128) as u64,
                (x / 0x1_0000_0000_0000_0000u128) as u64,
                0,
                0,
            ],
        }
    }

    /// The number `x`.
    pub fn from_u128(x: u128) -> (r: U256)
        ensures
            r@ == x as nat,
            r == U256::spec_from_u128(x),
    {
        let lo: u128 = x % 0x1_0000_0000_0000_0000u128;
        let hi: u128 = x / 0x1_0000_0000_0000_0000u128;
        assert(hi < 0x1_0000_0000_0000_0000);
        U256 { limbs: [lo as u64, hi as u64, 0, 0] }
    }

    pub fn zero() -> (r: U256)
        ensures
            r@ == 0,
    {
        U256 { limbs: [0, 0, 0, 0] }
    }

    pub fn one() -> (r: U256)
        ensures
            r@ == 1,
    {
        U256 { limbs: [1, 0, 0, 0] }
    }

    /// 2^256 - 1.
    pub fn max_value() -> (r: U256)
        ensures
            r@ == u256_max(),
    {
        U256 { limbs: [0xffff_ffff_ffff_ffff, 0xffff_ffff_ffff_ffff, 0xffff_ffff_ffff_ffff, 0xffff_ffff_ffff_ffff] }
    }

    pub fn is_zero(&self) -> (r: bool)
        ensures
            r == (self@ == 0),
    {
        self.limbs[0] == 0 && self.limbs[1] == 0 && self.limbs[2] == 0 && self.limbs[3] == 0
    }

    /// The value as a `u128`; defined when it fits.
    pub fn as_u128(&self) -> (r: u128)
        requires
            self@ <= u128_max(),
        ensures
            r as nat == self@,
    {
        let lo: u128 = self.limbs[0] as u128;
        let hi: u128 = self.limbs[1] as u128;
        hi * 0x1_0000_0000_0000_0000u128 + lo
    }

    /// The sum; defined when it does not exceed 2^256 - 1.
    pub fn add(self, other: U256) -> (r: U256)
        requires
            self@ + other@ <= u256_max(),
        ensures
            r@ == self@ + other@,
    {
        raw_checked_add(&self, &other).unwrap()
    }

    /// The difference; defined when `other <= self`.
    pub fn sub(self, other: U256) -> (r: U256)
        requires
            other@ <= self@,
        ensures
            r@ == self@ - other@,
    {
        raw_checked_sub(&self, &other).unwrap()
    }

    /// The product; defined when it does not exceed 2^256 - 1.
    pub fn mul(self, other: U256) -> (r: U256)
        requires
            self@ * other@ <= u256_max(),
        ensures
            r@ == self@ * other@,
    {
        raw_checked_mul(&self, &other).unwrap()
    }

    /// The floor quotient; defined when `other` is not zero.
    pub fn div(self, other: U256) -> (r: U256)
        requires
            other@ != 0,
        ensures
            r@ == self@ / other@,
    {
        raw_checked_div(&self, &other).unwrap()
    }

    /// `self` to the power `e`; defined when it does not exceed 2^256 - 1.
    pub fn pow(self, e: U256) -> (r: U256)
        requires
            pow(self@ as int, e@) <= u256_max(),
        ensures
            r@ == pow(self@ as int, e@),
    {
        raw_checked_pow(&self, &e).unwrap()
    }

    pub fn lt(&self, other: &U256) -> (r: bool)
        ensures
            r == (self@ < other@),
    {
        raw_lt(self, other)
    }

    pub fn gt(&self, other: &U256) -> (r: bool)
        ensures
            r == (self@ > other@),
    {
        raw_lt(other, self)
    }

    pub fn le(&self, other: &U256) -> (r: bool)
        ensures
            r == (self@ <= other@),
    {
        !raw_lt(other, self)
    }

    pub fn ge(&self, other: &U256) -> (r: bool)
        ensures
            r == (self@ >= other@),
    {
        !raw_lt(self, other)
    }

    pub fn eq(&self, other: &U256) -> (r: bool)
        ensures
            r == (self@ == other@),
    {
        !raw_lt(self, other) && !raw_lt(other, self)
    }
}

} // verus!
