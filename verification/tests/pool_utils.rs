use starlay_lending::exp::{exp_scale, Exp};
use starlay_lending::pool::utils::{
    calculate_interest, compound_interest, exchange_rate, protocol_seize_amount, scaled_amount_of,
    from_scaled_amount, CalculateInterestInput,
};
use starlay_lending::pool::Error;
use starlay_lending::types::WrappedU256;
use starlay_lending::u256::U256;

fn u(val: u128) -> U256 {
    U256::from_u128(val)
}

fn mantissa() -> U256 {
    u(10).pow(u(18))
}

fn same(a: U256, b: U256) -> bool {
    a.limbs == b.limbs
}

#[test]
fn test_scaled_amount_of() {
    struct TestCase {
        amount: u128,
        idx: Exp,
        want: u128,
    }
    let cases = vec![
        TestCase { amount: 100, idx: Exp { mantissa: WrappedU256(u(1).mul(mantissa())) }, want: 100 },
        TestCase { amount: 200, idx: Exp { mantissa: WrappedU256(u(1).mul(mantissa())) }, want: 200 },
        TestCase { amount: 100, idx: Exp { mantissa: WrappedU256(u(100).mul(mantissa())) }, want: 1 },
        TestCase { amount: 90, idx: Exp { mantissa: WrappedU256(u(100).mul(mantissa())) }, want: 1 },
    ];
    for c in cases {
        assert_eq!(scaled_amount_of(c.amount, c.idx), c.want)
    }
}

#[test]
fn scaled_amount_round_trip_at_index_one() {
    let idx = Exp { mantissa: WrappedU256(mantissa()) };
    assert_eq!(from_scaled_amount(scaled_amount_of(12345, idx), idx), 12345);
    let idx2 = Exp { mantissa: WrappedU256(u(2).mul(mantissa())) };
    assert_eq!(from_scaled_amount(50, idx2), 100);
}

#[test]
fn test_calculate_interest_panic_if_over_borrow_rate_max() {
    let input = CalculateInterestInput {
        borrow_index: u(0),
        borrow_rate: U256::one().mul(u(10)).pow(u(18)),
        new_block_timestamp: 0,
        old_block_timestamp: 0,
        reserve_factor_mantissa: U256::zero(),
        total_borrows: 0,
        total_reserves: 0,
    };
    let out = calculate_interest(&input);
    assert_eq!(out.err().unwrap(), Error::BorrowRateIsAbsurdlyHigh)
}

#[test]
fn test_compound_interest() {
    let rate = Exp { mantissa: WrappedU256(u(1).mul(mantissa())) };
    let delta = u(1000_u128 * 60 * 60 * 24 * 30 * 12); // 1 year
    let want = u(501530650214400000002592_u128).mul(u(10000000000000000000000000_u128));
    let got = compound_interest(&rate, delta);
    assert!(same(got.mantissa.0, want));
}

#[test]
fn test_calculate_apy() {
    // when USDC's utilization rate is 1%
    let utilization_rate_mantissa = mantissa().div(u(100)); // 1%
    let base_rate_per_milli_sec = U256::zero();
    let multiplier_slope_one_mantissa = u(4).mul(mantissa()).div(u(100)); // 4%
    let optimal_utilization_rate_mantissa = u(9).mul(mantissa()).div(u(10)); // 90%
    let multiplier_per_year_slope_one_mantissa =
        multiplier_slope_one_mantissa.mul(mantissa()).div(optimal_utilization_rate_mantissa);
    let milliseconds_per_year = u(1000_u128 * 60 * 60 * 24 * 365);
    let multiplier_per_milliseconds_slope_one_mantissa =
        multiplier_per_year_slope_one_mantissa.div(milliseconds_per_year);
    let borrow_rate_mantissa = utilization_rate_mantissa
        .mul(multiplier_per_milliseconds_slope_one_mantissa)
        .div(mantissa())
        .add(base_rate_per_milli_sec);
    let got = compound_interest(&Exp { mantissa: WrappedU256(borrow_rate_mantissa) }, milliseconds_per_year);
    assert!(same(got.mantissa.0, u(444436848000000_u128)));
}

#[test]
fn test_calculate_interest() {
    let old_timestamp: u64 = 0;
    let inputs: &[CalculateInterestInput] = &[
        CalculateInterestInput {
            old_block_timestamp: old_timestamp,
            new_block_timestamp: old_timestamp + 1000 * 60 * 60 * 24 * 30 * 12, // 1 year
            borrow_index: u(1),
            borrow_rate: mantissa().div(u(100000)), // 0.001 %
            reserve_factor_mantissa: mantissa().div(u(100)), // 1 %
            total_borrows: 10_000 * (10_u128.pow(18)),
            total_reserves: 10_000 * (10_u128.pow(18)),
        },
        CalculateInterestInput {
            old_block_timestamp: old_timestamp,
            new_block_timestamp: old_timestamp + 1000 * 60 * 60, // 1 hour
            borrow_index: u(123123123),
            borrow_rate: mantissa().div(u(1000000)),
            reserve_factor_mantissa: mantissa().div(u(10)),
            total_borrows: 100_000 * (10_u128.pow(18)),
            total_reserves: 1_000_000 * (10_u128.pow(18)),
        },
        CalculateInterestInput {
            old_block_timestamp: old_timestamp,
            new_block_timestamp: old_timestamp + 1000 * 60 * 60,
            borrow_index: u(123123123),
            borrow_rate: mantissa().div(u(123123)),
            reserve_factor_mantissa: mantissa().div(u(10)).mul(u(2)),
            total_borrows: 123_456 * (10_u128.pow(18)),
            total_reserves: 789_012 * (10_u128.pow(18)),
        },
    ];

    for input in inputs {
        let got = calculate_interest(input).unwrap();
        let delta = input.new_block_timestamp.abs_diff(input.old_block_timestamp);
        let simple_interest_factor = input.borrow_rate.mul(u(delta as u128));
        let simple_interest_accumulated =
            simple_interest_factor.mul(u(input.total_borrows)).div(mantissa()).as_u128();
        let reserves_simple = input
            .reserve_factor_mantissa
            .mul(u(simple_interest_accumulated))
            .div(mantissa())
            .add(u(input.total_reserves));
        assert!(got.interest_accumulated > simple_interest_accumulated);
        assert!(got.total_borrows > simple_interest_accumulated + input.total_borrows);
        assert!(got.total_reserves > reserves_simple.as_u128());
        let borrow_idx_simple = simple_interest_factor
            .mul(input.borrow_index)
            .div(mantissa())
            .add(input.borrow_index);
        assert!(got.borrow_index.gt(&borrow_idx_simple));
    }
}

#[test]
fn calculate_interest_over_no_time_changes_nothing() {
    let input = CalculateInterestInput {
        old_block_timestamp: 5,
        new_block_timestamp: 5,
        borrow_index: mantissa(),
        borrow_rate: mantissa().div(u(100000)),
        reserve_factor_mantissa: mantissa().div(u(10)),
        total_borrows: 1000,
        total_reserves: 10,
    };
    let got = calculate_interest(&input).unwrap();
    assert_eq!(got.interest_accumulated, 0);
    assert_eq!(got.total_borrows, 1000);
    assert_eq!(got.total_reserves, 10);
    assert!(same(got.borrow_index, mantissa()));
}

#[test]
fn test_protocol_seize_amount() {
    // 1%
    let exchange_rate = Exp { mantissa: WrappedU256(u(10).pow(u(18)).mul(U256::one()).div(u(100))) };
    let seize_tokens = 10_u128.pow(18) * 100000000000;
    let protocol_seize_tokens = seize_tokens * 10 / 100;
    let protocol_seize_share_mantissa = u(10_u128.pow(18) / 10); // 10%
    let liquidator_seize_tokens_want = seize_tokens * 9 / 10;
    let protocol_seize_amount_want = protocol_seize_tokens * 1 / 100; // 1%
    let (liquidator_seize_tokens_got, protocol_seize_amount_got, protocol_seize_tokens_got) =
        protocol_seize_amount(exchange_rate, seize_tokens, protocol_seize_share_mantissa);
    assert_eq!(liquidator_seize_tokens_got, liquidator_seize_tokens_want);
    assert_eq!(protocol_seize_amount_got, protocol_seize_amount_want);
    assert_eq!(protocol_seize_tokens_got, protocol_seize_tokens);
}

#[test]
fn test_exchange_rate_in_case_total_supply_is_zero() {
    let initial = U256::one().mul(exp_scale());
    assert!(same(exchange_rate(0, 1, 1, 1, initial), initial));
}

#[test]
fn test_exchange_rate() {
    let with_dec = |val: u128| 10_u128.pow(18) * val;
    struct Case {
        total_cash: u128,
        total_borrows: u128,
        total_reserves: u128,
        total_supply: u128,
    }
    let cases: &[Case] = &[
        Case {
            total_cash: with_dec(999987),
            total_borrows: with_dec(199987),
            total_reserves: with_dec(299987),
            total_supply: with_dec(1999987),
        },
        Case {
            total_cash: with_dec(999983),
            total_borrows: with_dec(199983),
            total_reserves: with_dec(299983),
            total_supply: with_dec(1999983),
        },
        Case {
            total_cash: with_dec(1999983),
            total_borrows: with_dec(1199983),
            total_reserves: with_dec(1299983),
            total_supply: with_dec(11999983),
        },
        Case {
            total_cash: with_dec(1234567),
            total_borrows: with_dec(234567),
            total_reserves: with_dec(34567),
            total_supply: with_dec(11999983),
        },
    ];
    for case in cases {
        let rate_want = u(10_u128.pow(18))
            .mul(u(case.total_cash + case.total_borrows - case.total_reserves))
            .div(u(case.total_supply));
        assert!(same(
            exchange_rate(case.total_supply, case.total_cash, case.total_borrows, case.total_reserves, u(0)),
            rate_want
        ));
    }
}

#[test]
fn scaled_amount_round_trip_stays_within_half_the_index() {
    // Index 1.5: the amount comes back within 0.75 + 1 of where it started.
    let idx = Exp { mantissa: WrappedU256(u(15).mul(mantissa()).div(u(10))) };
    for x in [1u128, 2, 3, 7, 10, 12345, 999_999] {
        let back = from_scaled_amount(scaled_amount_of(x, idx), idx);
        assert!(back <= x + 1 && x <= back + 1);
    }
    assert_eq!(from_scaled_amount(scaled_amount_of(1, idx), idx), 2);
}
