//! Rounding fixed-point arithmetic with 18 decimals ("Wad") and 27 decimals ("Ray").
//!
//! Multiplication and division round half up, and report an overflow before it can
//! happen where the guard in front of them catches it.

use vstd::prelude::*;
use crate::u256::{U256, u256_max};
use crate::types::WrappedU256;
use crate::exp::{Exp, exp_scale, exp_scale_spec, half_exp_scale};
use crate::arith::lemma_le_div_mul;

verus! {

#[derive(Debug, PartialEq, Eq, Structural, Clone, Copy)]
pub enum Error {
    MathMultiplicationOverflow,
    MathDivisionByZero,
}

/// 10^27, the scale of a `Ray`.
pub open spec fn ray_scale_spec() -> nat {
    1_000_000_000_000_000_000_000_000_000
}

/// 10^9, the ratio of the `Ray` scale to the `Exp` scale.
pub open spec fn exp_ray_ratio_spec() -> nat {
    1_000_000_000
}

pub fn ray_scale() -> (r: U256)
    ensures
        r@ == ray_scale_spec(),
{
    U256::from_u128(1_000_000_000_000_000_000_000_000_000)
}

pub fn half_ray() -> (r: U256)
    ensures
        r@ == ray_scale_spec() / 2,
{
    ray_scale().div(U256::from_u128(2))
}

pub fn exp_ray_ratio() -> (r: U256)
    ensures
        r@ == exp_ray_ratio_spec(),
{
    U256::from_u128(1_000_000_000)
}

/// A fixed-point number with 27 decimals.
#[derive(Clone, Copy, Debug)]
pub struct Ray {
    pub mantissa: WrappedU256,
}

impl View for Ray {
    type V = nat;

    open spec fn view(&self) -> nat {
        self.mantissa@
    }
}

/// A fixed-point number with 18 decimals, seen as a Wad.
pub type Wad = Exp;

/// `a * b + 10^18 / 2` rounded down to the Wad scale: `a * b` rounded half up.
pub open spec fn wad_mul_spec(a: nat, b: nat) -> nat {
    (a * b + exp_scale_spec() / 2) / exp_scale_spec()
}

/// `a / b` on the Wad scale, rounded half up.
pub open spec fn wad_div_spec(a: nat, b: nat) -> nat {
    (a * exp_scale_spec() + b / 2) / b
}

/// `a * b` on the Ray scale, rounded half up.
pub open spec fn ray_mul_spec(a: nat, b: nat) -> nat {
    (a * b + ray_scale_spec() / 2) / ray_scale_spec()
}

/// `a / b` on the Ray scale, rounded half up.
pub open spec fn ray_div_spec(a: nat, b: nat) -> nat {
    (a * ray_scale_spec() + b / 2) / b
}

/// The overflow guard of a rounding division by `b` on the given scale:
/// `(2^256 - 1 - b / 2) / scale`.
pub open spec fn div_guard(scale: nat, b: nat) -> nat {
    ((u256_max() - b / 2) as nat) / scale
}

/// The overflow guard of a rounding multiplication by `b` on the given scale:
/// `(2^256 - 1 - scale / 2) / b`.
pub open spec fn mul_guard(scale: nat, b: nat) -> nat {
    ((u256_max() - scale / 2) as nat) / b
}

/// A rounded Ray product with a zero factor is zero.
pub proof fn lemma_ray_mul_zero(a: nat)
    ensures
        ray_mul_spec(a, 0) == 0,
        ray_mul_spec(0, a) == 0,
{
    assert(a * 0 == 0 && 0 * a == 0) by (nonlinear_arith);
}

/// `wad_mul` reports an overflow: neither factor is zero and `a` exceeds
/// `2^256 - 1 - (10^18 / 2) / b`.
pub open spec fn wad_mul_overflows(a: nat, b: nat) -> bool {
    a != 0 && b != 0 && a > u256_max() - (exp_scale_spec() / 2) / b
}

impl Exp {
    /// `self * another` on the Wad scale, rounded half up. Both factors zero-checked
    /// first; the overflow guard compares `a` with `2^256 - 1 - (10^18 / 2) / b`, which
    /// does not exclude every overflowing product: the rest is left out by `requires`.
    pub fn wad_mul(&self, another: Wad) -> (r: Result<Wad, Error>)
        requires
            !(self@ == 0 || another@ == 0) && !wad_mul_overflows(self@, another@) ==>
                self@ * another@ + exp_scale_spec() / 2 <= u256_max(),
        ensures
            match r {
                Ok(w) => !wad_mul_overflows(self@, another@) && w@ == (if self@ == 0 || another@ == 0 {
                    0
                } else {
                    wad_mul_spec(self@, another@)
                }),
                Err(e) => e == Error::MathMultiplicationOverflow && wad_mul_overflows(self@, another@),
            },
    {
        let a = self.mantissa.0;
        let b = another.mantissa.0;
        if a.eq(&U256::zero()) || b.eq(&U256::zero()) {
            return Ok(Exp::from_mantissa(U256::from_u128(0)));
        }
        if a.gt(&U256::max_value().sub(half_exp_scale().div(b))) {
            return Err(Error::MathMultiplicationOverflow);
        }
        Ok(Exp::from_mantissa(a.mul(b).add(half_exp_scale()).div(exp_scale())))
    }

    /// `self / another` on the Wad scale, rounded half up.
    pub fn wad_div(&self, another: Wad) -> (r: Result<Wad, Error>)
        ensures
            match r {
                Ok(w) => another@ != 0 && self@ <= div_guard(exp_scale_spec(), another@)
                    && w@ == wad_div_spec(self@, another@),
                Err(e) => if another@ == 0 {
                    e == Error::MathDivisionByZero
                } else {
                    e == Error::MathMultiplicationOverflow && self@ > div_guard(exp_scale_spec(), another@)
                },
            },
    {
        let a = self.mantissa.0;
        let b = another.mantissa.0;
        if b.is_zero() {
            return Err(Error::MathDivisionByZero);
        }
        let half_another = b.div(U256::from_u128(2));
        if a.gt(&U256::max_value().sub(half_another).div(exp_scale())) {
            return Err(Error::MathMultiplicationOverflow);
        }
        proof {
            lemma_le_div_mul(a@, (u256_max() - b@ / 2) as nat, exp_scale_spec());
        }
        Ok(Exp::from_mantissa(a.mul(exp_scale()).add(half_another).div(b)))
    }
}

/// `one / another` on the Ray scale, truncated.
pub fn fraction(one: WrappedU256, another: WrappedU256) -> (r: Ray)
    requires
        one@ * ray_scale_spec() <= u256_max(),
        another@ != 0,
    ensures
        r@ == one@ * ray_scale_spec() / another@,
{
    Ray { mantissa: WrappedU256(one.0.mul(ray_scale()).div(another.0)) }
}

impl Ray {
    pub fn add(&self, a: Ray) -> (r: Ray)
        requires
            self@ + a@ <= u256_max(),
        ensures
            r@ == self@ + a@,
    {
        Ray { mantissa: WrappedU256(self.mantissa.0.add(a.mantissa.0)) }
    }

    pub fn sub(&self, another: Ray) -> (r: Ray)
        requires
            another@ <= self@,
        ensures
            r@ == self@ - another@,
    {
        Ray { mantissa: WrappedU256(self.mantissa.0.sub(another.mantissa.0)) }
    }

    /// The same number with 18 decimals, rounded half up.
    pub fn to_exp(&self) -> (r: Exp)
        requires
            self@ + exp_ray_ratio_spec() / 2 <= u256_max(),
        ensures
            r@ == (exp_ray_ratio_spec() / 2 + self@) / exp_ray_ratio_spec(),
    {
        let half_ratio = exp_ray_ratio().div(U256::from_u128(2));
        Exp::from_mantissa(half_ratio.add(self.mantissa.0).div(exp_ray_ratio()))
    }

    /// `self * another` on the Ray scale, rounded half up.
    pub fn ray_mul(&self, another: Ray) -> (r: Result<Ray, Error>)
        ensures
            match r {
                Ok(w) => w@ == (if self@ == 0 || another@ == 0 {
                    0
                } else {
                    ray_mul_spec(self@, another@)
                }) && (self@ != 0 && another@ != 0 ==> self@ <= mul_guard(ray_scale_spec(), another@)),
                Err(e) => e == Error::MathMultiplicationOverflow && self@ != 0 && another@ != 0
                    && self@ > mul_guard(ray_scale_spec(), another@),
            },
    {
        if self.mantissa.0.is_zero() || another.mantissa.0.is_zero() {
            return Ok(Ray { mantissa: WrappedU256(U256::from_u128(0)) });
        }
        let a = self.mantissa.0;
        let b = another.mantissa.0;
        if a.gt(&U256::max_value().sub(half_ray()).div(b)) {
            return Err(Error::MathMultiplicationOverflow);
        }
        proof {
            lemma_le_div_mul(a@, (u256_max() - ray_scale_spec() / 2) as nat, b@);
        }
        Ok(Ray { mantissa: WrappedU256(a.mul(b).add(half_ray()).div(ray_scale())) })
    }

    /// `self / another` on the Ray scale, rounded half up.
    pub fn ray_div(&self, another: Ray) -> (r: Result<Ray, Error>)
        ensures
            match r {
                Ok(w) => another@ != 0 && self@ <= div_guard(ray_scale_spec(), another@)
                    && w@ == ray_div_spec(self@, another@),
                Err(e) => if another@ == 0 {
                    e == Error::MathDivisionByZero
                } else {
                    e == Error::MathMultiplicationOverflow && self@ > div_guard(ray_scale_spec(), another@)
                },
            },
    {
        let a = self.mantissa.0;
        let b = another.mantissa.0;
        if b.is_zero() {
            return Err(Error::MathDivisionByZero);
        }
        let half_another = b.div(U256::from_u128(2));
        if a.gt(&U256::max_value().sub(half_another).div(ray_scale())) {
            return Err(Error::MathMultiplicationOverflow);
        }
        proof {
            lemma_le_div_mul(a@, (u256_max() - b@ / 2) as nat, ray_scale_spec());
        }
        Ok(Ray { mantissa: WrappedU256(a.mul(ray_scale()).add(half_another).div(b)) })
    }
}

} // verus!
