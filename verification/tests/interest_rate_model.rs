use starlay_lending::interest_rate_model::{base, milliseconds_per_year, utilization_rate, Data};
use starlay_lending::types::WrappedU256;
use starlay_lending::u256::U256;

fn u(val: u128) -> U256 {
    U256::from_u128(val)
}

fn mul_base(val: u128) -> U256 {
    u(val).mul(base())
}

fn percent(val: u128) -> U256 {
    mul_base(val).div(u(100))
}

fn wr(val: U256) -> WrappedU256 {
    WrappedU256(val)
}

fn same(a: U256, b: U256) -> bool {
    a.limbs == b.limbs
}

#[test]
fn test_utilization_rate() {
    // Utilization Rate = Borrows / (Cash + Borrows - Reserves)
    let total_borrow: u32 = 100;
    let total_cash: u32 = 900;
    let reserves: u32 = 0;
    let rate = utilization_rate(total_cash as u128, total_borrow as u128, reserves as u128);
    assert!(same(rate, percent(10)))
}

#[test]
fn test_borrow_rate_utilization_under_kink() {
    let total_borrow: u32 = 100;
    let total_cash: u32 = 900;
    let reserves: u32 = 0;
    let kink = 15;

    struct Case {
        multiplier: u128,
        base_rate: u128,
    }
    let cases = [
        Case { multiplier: 100, base_rate: 100 },
        Case { multiplier: 99, base_rate: 20 },
        Case { multiplier: 50, base_rate: 50 },
    ];
    for case in cases {
        let util = utilization_rate(total_cash as u128, total_borrow as u128, reserves as u128);
        // borrow rate = utilization rate(%) * multiplier + base_rate(%)
        let want = util.mul(mul_base(case.multiplier)).div(base()).add(mul_base(case.base_rate));
        let result = Data::new(
            wr(milliseconds_per_year().mul(mul_base(case.base_rate))),
            wr(milliseconds_per_year().mul(mul_base(case.multiplier))),
            wr(milliseconds_per_year().mul(mul_base(case.multiplier))),
            wr(percent(kink)),
        )
        .borrow_rate(total_cash as u128, total_borrow as u128, reserves as u128);

        assert!(same(result.0, want))
    }
}

#[test]
fn test_borrow_rate_utilization_over_kink() {
    let total_borrow: u32 = 100;
    let total_cash: u32 = 900;
    let reserves: u32 = 0;
    let kink = 9;
    let util = utilization_rate(total_cash as u128, total_borrow as u128, reserves as u128);
    struct Case {
        multiplier: u128,
        jump_multiplier: u128,
        base_rate: u128,
    }
    let cases = [
        Case { multiplier: 100, jump_multiplier: 110, base_rate: 100 },
        Case { multiplier: 99, jump_multiplier: 120, base_rate: 20 },
        Case { multiplier: 50, jump_multiplier: 130, base_rate: 50 },
    ];
    for case in cases {
        // borrow rate = multiplier * kink + jump multiplier * (utilization - kink) + base rate
        let want = percent(kink)
            .mul(mul_base(case.multiplier))
            .div(base())
            .add(mul_base(case.base_rate))
            .add(mul_base(case.jump_multiplier).mul(util.sub(percent(kink))).div(base()));

        let result = Data::new(
            wr(milliseconds_per_year().mul(mul_base(case.base_rate))),
            wr(milliseconds_per_year().mul(mul_base(case.multiplier))),
            wr(milliseconds_per_year().mul(mul_base(case.jump_multiplier))),
            wr(percent(kink)),
        )
        .borrow_rate(total_cash as u128, total_borrow as u128, reserves as u128);
        assert!(same(result.0, want))
    }
}

#[test]
fn test_get_supply_rate() {
}

#[test]
fn supply_rate_is_utilization_times_borrow_rate_after_reserves() {
    // 10% utilization, borrow rate 2 per ms, reserve factor 50%: 10% * 2 * 50% = 0.1
    let model = Data::new(
        wr(milliseconds_per_year().mul(mul_base(2))),
        wr(U256::zero()),
        wr(U256::zero()),
        wr(percent(80)),
    );
    let borrow = model.get_borrow_rate(900, 100, 0);
    assert!(same(borrow.0, mul_base(2)));
    let supply = model.get_supply_rate(900, 100, 0, 500_000_000_000_000_000);
    assert!(same(supply.0, percent(10)));
    assert!(supply.0.le(&borrow.0));
}

#[test]
fn utilization_is_zero_without_borrows() {
    assert!(same(utilization_rate(1000, 0, 0), U256::zero()));
}

#[test]
fn borrow_rate_rises_with_utilization() {
    let model = Data::new(
        wr(milliseconds_per_year().mul(mul_base(1))),
        wr(milliseconds_per_year().mul(mul_base(10))),
        wr(milliseconds_per_year().mul(mul_base(100))),
        wr(percent(50)),
    );
    let low = model.get_borrow_rate(900, 100, 0);
    let mid = model.get_borrow_rate(500, 500, 0);
    let high = model.get_borrow_rate(100, 900, 0);
    assert!(low.0.le(&mid.0));
    assert!(mid.0.le(&high.0));
}

#[test]
fn utilization_is_one_when_all_is_borrowed() {
    assert!(same(utilization_rate(0, 100, 0), base()));
}
