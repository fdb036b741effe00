use starlay_lending::account::AccountId;
use starlay_lending::controller::utils::{
    balance_decrease_allowed, calculate_health_factor_from_balances, get_hypothetical_account_liquidity,
    get_hypothetical_account_liquidity_per_asset, liquidate_calculate_seize_tokens,
    BalanceDecreaseAllowedParam, GetHypotheticalAccountLiquidityInput,
    HypotheticalAccountLiquidityCalculationParam, LiquidateCalculateSeizeTokensInput,
};
use starlay_lending::exp::{exp_scale, Exp};
use starlay_lending::types::WrappedU256;
use starlay_lending::u256::U256;

fn u(val: u128) -> U256 {
    U256::from_u128(val)
}

fn mts(val: u128) -> U256 {
    u(val).mul(exp_scale())
}

fn same(a: U256, b: U256) -> bool {
    a.limbs == b.limbs
}

#[test]
fn test_liquidate_calculate_seize_tokens() {
    let cases = vec![
        LiquidateCalculateSeizeTokensInput {
            price_borrowed_mantissa: mts(100),
            decimals_borrowed: 0,
            price_collateral_mantissa: mts(200),
            decimals_collateral: 0,
            exchange_rate_mantissa: mts(10).div(u(100)),
            liquidation_incentive_mantissa: mts(10).div(u(100)),
            actual_repay_amount: 1,
        },
        LiquidateCalculateSeizeTokensInput {
            price_borrowed_mantissa: mts(233),
            decimals_borrowed: 0,
            price_collateral_mantissa: mts(957),
            decimals_collateral: 0,
            exchange_rate_mantissa: mts(20).div(u(100)),
            liquidation_incentive_mantissa: mts(10).div(u(100)),
            actual_repay_amount: 123,
        },
        LiquidateCalculateSeizeTokensInput {
            price_borrowed_mantissa: mts(99827),
            decimals_borrowed: 0,
            price_collateral_mantissa: mts(99823),
            decimals_collateral: 0,
            exchange_rate_mantissa: mts(23).div(u(100)),
            liquidation_incentive_mantissa: mts(11).div(u(100)),
            actual_repay_amount: 1237,
        },
        LiquidateCalculateSeizeTokensInput {
            price_borrowed_mantissa: mts(1),
            decimals_borrowed: 18,
            price_collateral_mantissa: mts(1),
            decimals_collateral: 6,
            exchange_rate_mantissa: mts(1),
            liquidation_incentive_mantissa: mts(108).div(u(100)),
            actual_repay_amount: 1000 * 10_u128.pow(18),
        },
    ];
    for input in cases.iter() {
        let got = liquidate_calculate_seize_tokens(input);
        //  seize_tokens = actual_repay_amount * (liquidation_incentive * price_borrowed) / (price_collateral * exchange_rate)
        let want = u(input.actual_repay_amount)
            .mul(input.liquidation_incentive_mantissa)
            .mul(input.price_borrowed_mantissa)
            .div(input.price_collateral_mantissa)
            .div(input.exchange_rate_mantissa)
            .mul(u(10).pow(u(input.decimals_collateral as u128)))
            .div(u(10).pow(u(input.decimals_borrowed as u128)));
        assert_eq!(got, want.as_u128());
    }
}

#[test]
fn test_get_hypothetical_account_liquidity_per_asset() {
    let mantissa = 10_u128.pow(18);
    let pow10_6 = 10_u128.pow(6);
    let pow10_18 = 10_u128.pow(18);

    struct Input {
        token_balance: u128,
        borrow_balance: u128,
        decimals: u8,
        exchange_rate_mantissa: u128,
        collateral_factor_mantissa: u128,
        oracle_price_mantissa: u128,
    }
    struct Expected {
        collateral: u128,
        borrow_plus_effect: u128,
    }
    let cases = vec![
        (
            Input {
                token_balance: 200 * pow10_6,
                borrow_balance: 100 * pow10_6,
                decimals: 6,
                exchange_rate_mantissa: mantissa * 1,
                collateral_factor_mantissa: mantissa * 50 / 100, // 50%
                oracle_price_mantissa: mantissa * 1,
            },
            Expected { collateral: 100 * mantissa, borrow_plus_effect: 100 * mantissa },
        ), // simple
        (
            Input {
                token_balance: 111111 * pow10_6,
                borrow_balance: 100000 * pow10_6,
                decimals: 6,
                exchange_rate_mantissa: mantissa * 1,
                collateral_factor_mantissa: mantissa * 90 / 100, // 90%
                oracle_price_mantissa: mantissa * 100,
            },
            Expected { collateral: 9999990 * mantissa, borrow_plus_effect: 10000000 * mantissa },
        ), // HF = almost 100%
        (
            Input {
                token_balance: 1000 * pow10_18,
                borrow_balance: 1000 * pow10_18,
                decimals: 18,
                exchange_rate_mantissa: mantissa * 5 / 10, // 0.5
                collateral_factor_mantissa: mantissa * 25 / 100, // 25%
                oracle_price_mantissa: mantissa * 100,
            },
            Expected { collateral: 12500 * mantissa, borrow_plus_effect: 100000 * mantissa },
        ), // low exchange_rate, collateral_factor (HF = 12.5%)
    ];
    for (input, expected) in cases {
        let (_, collateral, borrow_plus_effect) = get_hypothetical_account_liquidity_per_asset(
            input.token_balance,
            input.borrow_balance,
            input.decimals,
            Exp { mantissa: WrappedU256(u(input.exchange_rate_mantissa)) },
            Exp { mantissa: WrappedU256(u(input.collateral_factor_mantissa)) },
            Exp { mantissa: WrappedU256(u(input.oracle_price_mantissa)) },
        );
        assert!(same(collateral, u(expected.collateral)));
        assert!(same(borrow_plus_effect, u(expected.borrow_plus_effect)));
    }
}

#[test]
fn test_get_hypothetical_account_liquidity_without_borrows() {
    let mantissa = 10_u128.pow(18);
    let pow10_6 = 10_u128.pow(6);
    let pow10_18 = 10_u128.pow(18);
    let to_exp = |val: u128| Exp { mantissa: WrappedU256(u(val)) };

    // decimal 6 token with 90% collateral factor
    let token1_dec6_param = HypotheticalAccountLiquidityCalculationParam {
        asset: AccountId::new([1; 32]),
        decimals: 6,
        token_balance: 10_000 * pow10_6,
        borrow_balance: 0,
        exchange_rate_mantissa: to_exp(mantissa * 1),
        collateral_factor_mantissa: to_exp(mantissa * 90 / 100), // 90%
        oracle_price_mantissa: to_exp(mantissa * 1),
    };
    let token1_dec6_param_with_borrow = HypotheticalAccountLiquidityCalculationParam {
        borrow_balance: 5_000 * pow10_6,
        ..token1_dec6_param.clone()
    };
    // decimal 6 token with 50% collateral factor
    let token2_dec6_param = HypotheticalAccountLiquidityCalculationParam {
        asset: AccountId::new([2; 32]),
        decimals: 6,
        token_balance: 50_000 * pow10_6,
        borrow_balance: 0,
        exchange_rate_mantissa: to_exp(mantissa * 1),
        collateral_factor_mantissa: to_exp(mantissa * 50 / 100), // 50%
        oracle_price_mantissa: to_exp(mantissa * 1),
    };
    let token2_dec6_param_with_borrow = HypotheticalAccountLiquidityCalculationParam {
        borrow_balance: 20_000 * pow10_6,
        ..token2_dec6_param.clone()
    };
    // decimal 18 token with 90% collateral factor
    let token3_dec18_param = HypotheticalAccountLiquidityCalculationParam {
        asset: AccountId::new([3; 32]),
        decimals: 18,
        token_balance: 25_000 * pow10_18,
        borrow_balance: 0,
        exchange_rate_mantissa: to_exp(mantissa * 1),
        collateral_factor_mantissa: to_exp(mantissa * 90 / 100), // 90%
        oracle_price_mantissa: to_exp(mantissa * 1),
    };
    let token3_dec18_param_with_borrow = HypotheticalAccountLiquidityCalculationParam {
        borrow_balance: 15_000 * pow10_18,
        ..token3_dec18_param.clone()
    };

    let without_borrows = vec![token1_dec6_param, token2_dec6_param, token3_dec18_param];
    let with_borrows =
        vec![token1_dec6_param_with_borrow, token2_dec6_param_with_borrow, token3_dec18_param_with_borrow];
    let zero = AccountId::zero();
    let sum_collateral = ((10_000 * 90 / 100) + (50_000 * 50 / 100) + (25_000 * 90 / 100)) * mantissa;
    // (asset params, token modify, redeem tokens, borrow amount, expected borrow plus effect)
    let cases: Vec<(Vec<HypotheticalAccountLiquidityCalculationParam>, AccountId, u128, u128, u128)> = vec![
        // no redeem & borrow
        (without_borrows.clone(), zero, 0, 0, 0),
        // some redeem with decimal 6 token with 90% collateral factor
        (without_borrows.clone(), AccountId::new([1; 32]), 7_500 * pow10_6, 0, (7_500 * 90 / 100) * mantissa),
        // some redeem with decimal 6 token with 50% collateral factor
        (without_borrows.clone(), AccountId::new([2; 32]), 35_000 * pow10_6, 0, (35_000 * 50 / 100) * mantissa),
        // some borrow with decimal 6 token with 90% collateral factor
        (without_borrows.clone(), AccountId::new([1; 32]), 0, 7_500 * pow10_6, 7_500 * mantissa),
        // some borrow with decimal 18 token with 90% collateral factor
        (without_borrows.clone(), AccountId::new([3; 32]), 0, 15_000 * pow10_18, 15_000 * mantissa),
        // (existing some borrows) no redeem/borrow
        (with_borrows.clone(), zero, 0, 0, (5_000 + 20_000 + 15_000) * mantissa),
        // (existing some borrows) some redeem
        (
            with_borrows.clone(),
            AccountId::new([1; 32]),
            7_500 * pow10_6,
            0,
            (5_000 + 20_000 + 15_000 + 7_500 * 90 / 100) * mantissa,
        ),
        // (existing some borrows) some borrow
        (
            with_borrows.clone(),
            AccountId::new([3; 32]),
            0,
            7_500 * pow10_18,
            (5_000 + 20_000 + 15_000 + 7_500) * mantissa,
        ),
    ];

    for (asset_params, token_modify, redeem_tokens, borrow_amount, expected_borrow) in cases {
        let (got_collateral, got_borrow) = get_hypothetical_account_liquidity(GetHypotheticalAccountLiquidityInput {
            asset_params,
            token_modify: Some(token_modify),
            redeem_tokens,
            borrow_amount,
        });
        assert!(same(got_collateral, u(sum_collateral)));
        assert!(same(got_borrow, u(expected_borrow)));
    }
}

#[test]
fn test_calculate_health_factor_from_balances() {
    let one: U256 = u(10).pow(u(18));
    let one_percent: U256 = u(100);
    // debt is zero
    let got = calculate_health_factor_from_balances(u(0), u(0), u(0));
    assert!(same(got, U256::max_value()), "debt is zero");
    // just hits liquidation threshold
    let got = calculate_health_factor_from_balances(one, one.div(u(100)), one_percent);
    assert!(same(got, one), "just hits liquidation threshold");
}

#[test]
fn test_balance_decrease_allowed() {
    let one: U256 = u(10).pow(u(18));
    let price_one: U256 = one;
    let mantissa_one: U256 = one;
    let one_percent: U256 = u(100);
    let cases = vec![
        (
            "all params are zero",
            BalanceDecreaseAllowedParam {
                amount_in_base_currency_unit: u(0),
                asset_price: u(0),
                avg_liquidation_threshold: u(0),
                liquidation_threshold: u(0),
                total_collateral_in_base_currency: u(0),
                total_debt_in_base_currency: u(0),
            },
            false,
        ),
        (
            "if there is a borrow, there can't be 0 collateral",
            BalanceDecreaseAllowedParam {
                amount_in_base_currency_unit: one,
                asset_price: price_one,
                avg_liquidation_threshold: mantissa_one,
                liquidation_threshold: mantissa_one,
                total_collateral_in_base_currency: mantissa_one,
                total_debt_in_base_currency: u(0),
            },
            false,
        ),
        (
            "just hit the boundary of liquidation threshold: pass",
            BalanceDecreaseAllowedParam {
                asset_price: price_one,
                avg_liquidation_threshold: one_percent.mul(u(80)),
                liquidation_threshold: one_percent.mul(u(80)),
                total_collateral_in_base_currency: one.mul(u(110)),
                total_debt_in_base_currency: one.mul(u(80)),
                amount_in_base_currency_unit: one.mul(u(10)),
            },
            true,
        ),
        (
            "just hit the boundary of liquidation threshold: fail",
            BalanceDecreaseAllowedParam {
                asset_price: price_one,
                avg_liquidation_threshold: one_percent.mul(u(80)),
                liquidation_threshold: one_percent.mul(u(80)),
                total_collateral_in_base_currency: one.mul(u(110)),
                total_debt_in_base_currency: one.mul(u(80)),
                amount_in_base_currency_unit: one.mul(u(10)).add(u(51)),
            },
            false,
        ),
        (
            "health factor is 2",
            BalanceDecreaseAllowedParam {
                asset_price: price_one,
                avg_liquidation_threshold: one_percent.mul(u(80)),
                liquidation_threshold: one_percent.mul(u(80)),
                total_collateral_in_base_currency: one.mul(u(210)),
                total_debt_in_base_currency: one.mul(u(80)),
                amount_in_base_currency_unit: one.mul(u(10)),
            },
            true,
        ),
    ];
    for (name, input, expected) in cases {
        assert_eq!(balance_decrease_allowed(input.clone()), expected, "case: {}", name);
    }
}

#[test]
fn liquidity_of_a_modification_adds_to_the_borrow_side_only() {
    let mantissa = 10_u128.pow(18);
    let to_exp = |val: u128| Exp { mantissa: WrappedU256(u(val)) };
    let param = HypotheticalAccountLiquidityCalculationParam {
        asset: AccountId::new([1; 32]),
        decimals: 18,
        token_balance: 100 * mantissa,
        borrow_balance: 10 * mantissa,
        exchange_rate_mantissa: to_exp(mantissa),
        collateral_factor_mantissa: to_exp(mantissa / 2),
        oracle_price_mantissa: to_exp(2 * mantissa),
    };
    let run = |token_modify: Option<AccountId>, redeem_tokens: u128, borrow_amount: u128| {
        get_hypothetical_account_liquidity(GetHypotheticalAccountLiquidityInput {
            asset_params: vec![param.clone()],
            token_modify,
            redeem_tokens,
            borrow_amount,
        })
    };
    let (base_c, base_b) = run(None, 0, 0);
    assert!(same(base_c, u(100 * mantissa)));
    assert!(same(base_b, u(20 * mantissa)));
    // Redeeming 4 tokens adds 0.5 * 1 * 2 * 4 = 4; borrowing 3 adds 2 * 3 = 6.
    let (c, b) = run(Some(AccountId::new([1; 32])), 4 * mantissa, 3 * mantissa);
    assert!(same(c, base_c));
    assert!(same(b, u(30 * mantissa)));
    // A modification of an asset that is not there changes nothing.
    let (c, b) = run(Some(AccountId::new([9; 32])), 4 * mantissa, 3 * mantissa);
    assert!(same(c, base_c));
    assert!(same(b, base_b));
}
