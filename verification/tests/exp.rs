use starlay_lending::exp::{exp_scale, Exp};
use starlay_lending::types::WrappedU256;
use starlay_lending::u256::U256;
use starlay_lending::wad_ray::{Error, Ray};

fn u(val: u128) -> U256 {
    U256::from_u128(val)
}

fn wr(val: u128) -> WrappedU256 {
    WrappedU256(U256::from_u128(val))
}

fn same(a: U256, b: U256) -> bool {
    a.limbs == b.limbs
}

#[test]
fn test_add() {
    let a = Exp { mantissa: wr(1) };
    let b = Exp { mantissa: wr(1) };
    assert!(same(u(2), a.add(b).mantissa.0));
}

#[test]
fn test_sub() {
    let a = Exp { mantissa: wr(2) };
    let b = Exp { mantissa: wr(1) };
    assert!(same(U256::one(), a.sub(b).mantissa.0));
}

#[test]
fn test_mul() {
    let a = Exp { mantissa: wr(2) };
    let b = Exp { mantissa: WrappedU256(u(2).mul(exp_scale())) };
    assert!(same(u(4), a.mul(b).mantissa.0));
}

#[test]
fn test_mul_scalar() {
    let a = Exp { mantissa: wr(2) };
    let b = u(2);
    assert!(same(u(4), a.mul_scalar(b).mantissa.0));
}

#[test]
fn test_div() {
    let out: u128 = 1666666666666666666;
    let a = Exp { mantissa: wr(5) };
    let b = Exp { mantissa: wr(3) };
    assert!(same(u(out), a.div(b).mantissa.0));
}

#[test]
fn test_mul_scalar_truncate() {
    let a = Exp { mantissa: WrappedU256(u(10).mul(exp_scale())) };
    let b = u(5);
    assert!(same(u(50), a.mul_scalar_truncate(b)));
}

#[test]
fn test_mul_scalar_truncate_add_uint() {
    let a = Exp { mantissa: WrappedU256(u(10).mul(exp_scale())) };
    let b = u(5);
    let c = u(10);
    assert!(same(u(60), a.mul_scalar_truncate_add_uint(b, c)));
}

#[test]
fn test_truncate() {
    let val: u128 = 1_111_111_111_111_111_111;
    let a = Exp { mantissa: WrappedU256(u(val)) };
    assert!(same(U256::one(), a.truncate()));
}

#[test]
fn exp_comparisons_follow_mantissas() {
    let a = Exp { mantissa: wr(1) };
    let b = Exp { mantissa: wr(2) };
    assert!(a.lt(b));
    assert!(a.le(b));
    assert!(b.gt(a));
    assert!(b.ge(a));
    assert!(!a.is_zero());
    assert!(Exp { mantissa: wr(0) }.is_zero());
}

#[test]
fn u256_as_u128_reads_two_limbs() {
    let x = u(u128::MAX);
    assert_eq!(x.as_u128(), u128::MAX);
    assert_eq!(u(12345).add(u(5)).as_u128(), 12350);
    assert_eq!(u(12345).sub(u(5)).as_u128(), 12340);
    assert_eq!(u(10).pow(u(18)).as_u128(), 1_000_000_000_000_000_000);
}

#[test]
fn wad_arithmetic_rounds_half_up() {
    let one = Exp { mantissa: WrappedU256(exp_scale()) };
    let a = Exp { mantissa: wr(123_456_789) };
    // Multiplying by one gives the number back.
    assert!(same(a.wad_mul(one).unwrap().mantissa.0, u(123_456_789)));
    // 1.5e-18 * 1 rounds up: (3 * 5e17 + 5e17) / 1e18 = 2
    let x = Exp { mantissa: wr(3) };
    let half = Exp { mantissa: wr(500_000_000_000_000_000) };
    assert!(same(x.wad_mul(half).unwrap().mantissa.0, u(2)));
    assert!(same(a.wad_div(one).unwrap().mantissa.0, u(123_456_789)));
    assert_eq!(a.wad_div(Exp { mantissa: wr(0) }).err().unwrap(), Error::MathDivisionByZero);
    let r = Ray { mantissa: WrappedU256(u(10).pow(u(27))) };
    let two = Ray { mantissa: WrappedU256(u(2).mul(u(10).pow(u(27)))) };
    assert!(same(r.ray_mul(two).unwrap().mantissa.0, u(2).mul(u(10).pow(u(27)))));
    assert!(same(two.ray_div(two).unwrap().mantissa.0, u(10).pow(u(27))));
}
