//! Fixed-point numbers with 18 decimals ("Exp", also called "Wad").
//!
//! An `Exp` with mantissa `m` stands for the real number `m / 10^18`. Every operation
//! truncates toward zero and is defined exactly where the underlying 256-bit operations
//! neither overflow nor divide by zero.

use vstd::prelude::*;
use crate::u256::{U256, u256_max};
use crate::types::WrappedU256;
use crate::wad_ray::{exp_ray_ratio, exp_ray_ratio_spec, Ray};

verus! {

/// 10^18, the scale of an `Exp`.
pub open spec fn exp_scale_spec() -> nat {
    1_000_000_000_000_000_000
}

pub fn exp_scale() -> (r: U256)
    ensures
        r@ == exp_scale_spec(),
{
    U256::from_u128(1_000_000_000_000_000_000)
}

pub fn half_exp_scale() -> (r: U256)
    ensures
        r@ == exp_scale_spec() / 2,
{
    exp_scale().div(U256::from_u128(2))
}

/// The mantissa of the number one.
pub fn mantissa_one() -> (r: U256)
    ensures
        r@ == exp_scale_spec(),
{
    exp_scale()
}

#[derive(Clone, Copy, Debug)]
pub struct Exp {
    pub mantissa: WrappedU256,
}

impl View for Exp {
    type V = nat;

    open spec fn view(&self) -> nat {
        self.mantissa@
    }
}

impl Exp {
    /// The fixed-point number with mantissa `m`.
    pub fn from_mantissa(m: U256) -> (r: Exp)
        ensures
            r@ == m@,
    {
        Exp { mantissa: WrappedU256(m) }
    }

    pub fn add(&self, a: Exp) -> (r: Exp)
        requires
            self@ + a@ <= u256_max(),
        ensures
            r@ == self@ + a@,
    {
        Exp::from_mantissa(self.mantissa.0.add(a.mantissa.0))
    }

    pub fn sub(&self, another: Exp) -> (r: Exp)
        requires
            another@ <= self@,
        ensures
            r@ == self@ - another@,
    {
        Exp::from_mantissa(self.mantissa.0.sub(another.mantissa.0))
    }

    /// The same number with 27 decimals.
    pub fn to_ray(&self) -> (r: Ray)
        requires
            self@ * exp_ray_ratio_spec() <= u256_max(),
        ensures
            r@ == self@ * exp_ray_ratio_spec(),
    {
        Ray { mantissa: WrappedU256(self.mantissa.0.mul(exp_ray_ratio())) }
    }

    /// The product, truncated: `a * b / 10^18`.
    pub fn mul(&self, another: Exp) -> (r: Exp)
        requires
            self@ * another@ <= u256_max(),
        ensures
            r@ == self@ * another@ / exp_scale_spec(),
    {
        Exp::from_mantissa(self.mantissa.0.mul(another.mantissa.0).div(exp_scale()))
    }

    /// The product with a plain integer, not rescaled.
    pub fn mul_scalar(&self, scalar: U256) -> (r: Exp)
        requires
            self@ * scalar@ <= u256_max(),
        ensures
            r@ == self@ * scalar@,
    {
        Exp::from_mantissa(self.mantissa.0.mul(scalar))
    }

    /// The quotient, truncated: `a * 10^18 / b`.
    pub fn div(&self, another: Exp) -> (r: Exp)
        requires
            self@ * exp_scale_spec() <= u256_max(),
            another@ != 0,
        ensures
            r@ == self@ * exp_scale_spec() / another@,
    {
        Exp::from_mantissa(self.mantissa.0.mul(exp_scale()).div(another.mantissa.0))
    }

    /// The integer part of the product with a plain integer: `m * scalar / 10^18`.
    pub fn mul_scalar_truncate(&self, scalar: U256) -> (r: U256)
        requires
            self@ * scalar@ <= u256_max(),
        ensures
            r@ == self@ * scalar@ / exp_scale_spec(),
    {
        let product = self.mul_scalar(scalar);
        product.truncate()
    }

    /// `m * scalar / 10^18 + addend`.
    pub fn mul_scalar_truncate_add_uint(&self, scalar: U256, addend: U256) -> (r: U256)
        requires
            self@ * scalar@ <= u256_max(),
            self@ * scalar@ / exp_scale_spec() + addend@ <= u256_max(),
        ensures
            r@ == self@ * scalar@ / exp_scale_spec() + addend@,
    {
        self.mul_scalar_truncate(scalar).add(addend)
    }

    pub fn lt(&self, another: Exp) -> (r: bool)
        ensures
            r == (self@ < another@),
    {
        self.mantissa.0.lt(&another.mantissa.0)
    }

    pub fn le(&self, another: Exp) -> (r: bool)
        ensures
            r == (self@ <= another@),
    {
        self.mantissa.0.le(&another.mantissa.0)
    }

    pub fn gt(&self, another: Exp) -> (r: bool)
        ensures
            r == (self@ > another@),
    {
        self.mantissa.0.gt(&another.mantissa.0)
    }

    pub fn ge(&self, another: Exp) -> (r: bool)
        ensures
            r == (self@ >= another@),
    {
        self.mantissa.0.ge(&another.mantissa.0)
    }

    pub fn is_zero(&self) -> (r: bool)
        ensures
            r == (self@ == 0),
    {
        self.mantissa.0.is_zero()
    }

    /// The integer part: `m / 10^18`.
    pub fn truncate(&self) -> (r: U256)
        ensures
            r@ == self@ / exp_scale_spec(),
    {
        self.mantissa.0.div(exp_scale())
    }
}

} // verus!
