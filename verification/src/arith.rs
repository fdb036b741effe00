//! Facts about integer division and multiplication used by the fixed-point proofs.

use vstd::prelude::*;

verus! {

/// `x <= y / b` implies `x * b <= y`.
pub proof fn lemma_le_div_mul(x: nat, y: nat, b: nat)
    requires
        b > 0,
        x <= y / b,
    ensures
        x * b <= y,
{
    assert((y / b) * b <= y) by (nonlinear_arith)
        requires
            b > 0,
    ;
    assert(x * b <= (y / b) * b) by (nonlinear_arith)
        requires
            x <= y / b,
    ;
}

/// Floor division is monotone in the numerator.
pub proof fn lemma_div_monotone(x: nat, y: nat, b: nat)
    requires
        b > 0,
        x <= y,
    ensures
        x / b <= y / b,
{
    assert(x / b <= y / b) by (nonlinear_arith)
        requires
            b > 0,
            x <= y,
    ;
}

/// Multiplication is monotone.
pub proof fn lemma_mul_monotone(x: nat, y: nat, z: nat)
    requires
        x <= y,
    ensures
        x * z <= y * z,
{
    assert(x * z <= y * z) by (nonlinear_arith)
        requires
            x <= y,
    ;
}

} // verus!

verus! {

/// The product of two `u128` values fits in 256 bits.
pub proof fn lemma_u128_product(x: u128, y: u128)
    ensures
        (x as nat) * (y as nat) <= crate::u256::u256_max(),
{
    lemma_mul_le(x as nat, 0xffff_ffff_ffff_ffff_ffff_ffff_ffff_ffff, y as nat, 0xffff_ffff_ffff_ffff_ffff_ffff_ffff_ffff);
}

/// Products of bounded factors are bounded.
pub proof fn lemma_mul_le(x: nat, a: nat, y: nat, b: nat)
    requires
        x <= a,
        y <= b,
    ensures
        x * y <= a * b,
{
    assert(x * y <= a * b) by (nonlinear_arith)
        requires
            x <= a,
            y <= b,
    ;
}

/// `x * y <= m` implies `x <= m / y` for positive `y`.
pub proof fn lemma_le_div_of_mul(x: nat, y: nat, m: nat)
    requires
        y > 0,
        x * y <= m,
    ensures
        x <= m / y,
{
    assert(x <= m / y) by (nonlinear_arith)
        requires
            y > 0,
            x * y <= m,
    ;
}

} // verus!
