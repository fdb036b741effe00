use starlay_lending::account::AccountId;
use starlay_lending::controller::{AccountData, Error as ControllerError};
use starlay_lending::flashloan_gateway::{
    check_executor_return, flashloan_events, flashloan_settlements, Data as Gateway, Error as GatewayError, FlashLoanEvent,
    FlashLoanType,
    FlashloanReplies, Settlement,
};
use starlay_lending::incentives_controller::{Data as Incentives, Error as IncentivesError};
use starlay_lending::lens::{LensContract, PoolBalances};
use starlay_lending::leverager::{
    close_step, loop_steps, validate_loop, CloseStep, Data as Leverager, Error as LeveragerError, LoopStep,
};
use starlay_lending::manager::{
    controller_outcome, only_role, required_role, AccessControlError, Data as Manager, Error as ManagerError,
    ManagerAction, BORROW_CAP_GUARDIAN, CONTROLLER_ADMIN, DEFAULT_ADMIN_ROLE, PAUSE_GUARDIAN, TOKEN_ADMIN,
};
use starlay_lending::mocks::{DummyContract, DummyError, Faucet, FlashloanReceiver, MintRequest};
use starlay_lending::pool::Error as PoolError;
use starlay_lending::price_oracle::{Data as Oracle, PRICE_PRECISION};
use starlay_lending::psp22::PSP22Error;
use starlay_lending::types::WrappedU256;
use starlay_lending::u256::U256;
use starlay_lending::weth::Weth;
use starlay_lending::weth_gateway::{
    repay_amounts, repay_eth, safe_transfer_outcome, withdraw_amount, withdraw_eth, Data as WethGateway,
    Error as WethGatewayError, RepayReplies, WithdrawReplies,
};

const ONE: u128 = 1_000_000_000_000_000_000;

fn acc(b: u8) -> AccountId {
    AccountId::new([b; 32])
}

fn u(x: u128) -> U256 {
    U256::from_u128(x)
}

#[test]
fn new_works() {
    let contract = Leverager::new(acc(2));
    assert_eq!(contract.manager(), Some(acc(2)));
}

#[test]
fn initialize_works() {
    let mut contract = Leverager::new(acc(2));
    assert!(contract.initialize(acc(2), Some(acc(0x01)), Some(acc(0x02)), Some(acc(0x03))).is_ok());
    assert_eq!(contract.controller(), Some(acc(0x01)));
    assert_eq!(contract.price_oracle(), Some(acc(0x02)));
    assert_eq!(contract.weth_address(), Some(acc(0x03)));
}

#[test]
fn initialize_works_only_manager() {
    let mut contract = Leverager::new(acc(2));
    let result = contract.initialize(acc(1), Some(acc(0x01)), Some(acc(0x02)), Some(acc(0x03)));
    assert_eq!(result.err().unwrap(), LeveragerError::CallerIsNotManager);
}

#[test]
fn all_methods_not_working_without_initialize() {
    let contract = Leverager::new(acc(2));
    let data = AccountData {
        total_collateral_in_base_currency: u(0),
        total_debt_in_base_currency: u(0),
        avg_ltv: u(0),
        avg_liquidation_threshold: u(0),
        health_factor: u(0),
    };
    assert_eq!(contract._get_health_factor(Ok(data), 0, Some(ONE), 0).as_u128(), 0);
    assert!(contract._withdrawable(Ok(data), 0, Some(ONE)).is_none());
    assert_eq!(contract._loan_to_value(Some(WrappedU256::from_u128(ONE / 2))), 0);
    assert_eq!(contract._liquidation_threshold(Some(8000)), 0);
}

#[test]
fn loan_to_value_in_basis_points() {
    let mut contract = Leverager::new(acc(2));
    contract.initialize(acc(2), Some(acc(1)), Some(acc(2)), Some(acc(3))).unwrap();
    assert_eq!(contract._loan_to_value(Some(WrappedU256::from_u128(ONE * 75 / 100))), 7500);
    assert_eq!(contract._loan_to_value(None), 0);
    assert_eq!(contract._liquidation_threshold(Some(8000)), 8000);
}

#[test]
fn health_factor_after_a_withdrawal() {
    let mut contract = Leverager::new(acc(2));
    contract.initialize(acc(2), Some(acc(1)), Some(acc(2)), Some(acc(3))).unwrap();
    // 200 of collateral at 80%, 80 of debt; withdrawing 50 at price one leaves 150 at 80%.
    let data = AccountData {
        total_collateral_in_base_currency: u(200 * ONE),
        total_debt_in_base_currency: u(80 * ONE),
        avg_ltv: u(7000),
        avg_liquidation_threshold: u(8000),
        health_factor: u(0),
    };
    let hf = contract._get_health_factor(Ok(data), 8000, Some(ONE), 50 * ONE);
    assert_eq!(hf.as_u128(), 150 * ONE * 80 / 100 / 80);
    assert_eq!(contract._get_health_factor(Ok(data), 8000, None, 50 * ONE).as_u128(), 0);
    assert_eq!(
        contract._get_health_factor(Err(ControllerError::OracleIsNotSet), 8000, Some(ONE), 50 * ONE).as_u128(),
        0
    );
}

#[test]
fn withdrawable_amount_keeps_health_above_the_limit() {
    let mut contract = Leverager::new(acc(2));
    contract.initialize(acc(2), Some(acc(1)), Some(acc(2)), Some(acc(3))).unwrap();
    let data = AccountData {
        total_collateral_in_base_currency: u(200 * ONE),
        total_debt_in_base_currency: u(80 * ONE),
        avg_ltv: u(7000),
        avg_liquidation_threshold: u(8000),
        health_factor: u(0),
    };
    let w = contract._withdrawable(Ok(data), 8000, Some(ONE)).unwrap();
    // afford = 200 * 8000 - 80 * 10000, in base currency over the threshold: 100.
    assert_eq!(w.afford_in_base_currency.as_u128(), 200 * ONE * 8000 - 80 * ONE * 10000);
    assert_eq!(w.withdrawable_collateral.as_u128(), 100 * ONE);
    let amount = w.withdraw_amount.as_u128();
    assert!(amount < 100 * ONE);
    let hf = contract._get_health_factor(Ok(data), 8000, Some(ONE), amount);
    assert!(hf.as_u128() > 1_010_000_000_000_000_000);
}

#[test]
fn loop_plan_supplies_and_borrows_in_turn() {
    let steps = loop_steps(1000, 5000, 3);
    assert_eq!(
        steps,
        vec![
            LoopStep::Mint(1000),
            LoopStep::Borrow(500),
            LoopStep::Mint(500),
            LoopStep::Borrow(250),
            LoopStep::Mint(250),
            LoopStep::Borrow(125),
            LoopStep::Mint(125),
        ]
    );
    // It stops once the next amount rounds to zero.
    assert_eq!(loop_steps(1, 5000, 3), vec![LoopStep::Mint(1)]);
    assert_eq!(validate_loop(0, 3, 7500), Err(LeveragerError::InappropriateBorrowRate));
    assert_eq!(validate_loop(8000, 3, 7500), Err(LeveragerError::InappropriateBorrowRate));
    assert_eq!(validate_loop(5000, 1, 7500), Err(LeveragerError::InappropriateLoopCount));
    assert_eq!(validate_loop(5000, 41, 7500), Err(LeveragerError::InappropriateLoopCount));
    assert_eq!(validate_loop(5000, 2, 7500), Ok(()));
}

#[test]
fn close_repays_at_most_the_debt() {
    assert_eq!(close_step(0, 100, 0), CloseStep::Finish);
    assert_eq!(close_step(150, 100, 40), CloseStep::RepayAll(100));
    assert_eq!(close_step(50, 100, 40), CloseStep::Repay(50, 39));
    assert_eq!(close_step(0, 100, 3), CloseStep::Repay(0, 2));
}

#[test]
fn flashloan_premiums_and_settlements() {
    let mut gateway = Gateway::default();
    assert_eq!(
        gateway.flashloan_plan(1, &vec![100], &vec![Some(acc(1))]).err().unwrap(),
        GatewayError::ControllerIsNotSet
    );
    gateway._initialize(acc(50));
    assert_eq!(gateway.flashloan_premium_total(), 9);
    assert_eq!(
        gateway.flashloan_plan(2, &vec![100], &vec![Some(acc(1)), Some(acc(2))]).err().unwrap(),
        GatewayError::InconsistentFlashloanParams
    );
    assert_eq!(
        gateway.flashloan_plan(2, &vec![100, 200], &vec![Some(acc(1)), None]).err().unwrap(),
        GatewayError::MarketNotListed
    );
    let (pools, premiums) = gateway.flashloan_plan(2, &vec![1_000_000, 200], &vec![Some(acc(1)), Some(acc(2))]).unwrap();
    assert_eq!(pools, vec![acc(1), acc(2)]);
    assert_eq!(premiums, vec![900, 0]);
    let settlements = flashloan_settlements(&vec![1_000_000, 200], &premiums, &vec![0, 1]);
    assert_eq!(settlements, vec![Settlement::PayBack(1_000_900), Settlement::Borrow(200)]);
    assert_eq!(check_executor_return(false), Err(GatewayError::InvalidFlashloanExecutorReturn));
    assert_eq!(FlashLoanType::from_code(0), FlashLoanType::NoBorrow);
    assert_eq!(FlashLoanType::from_code(1), FlashLoanType::Borrowing);
    assert_eq!(FlashLoanType::Borrowing.code(), 1);
}

#[test]
fn weth_gateway_amounts() {
    assert_eq!(withdraw_amount(u128::MAX, 77), 77);
    assert_eq!(withdraw_amount(5, 77), 5);
    assert_eq!(repay_amounts(100, 150, 80), Ok((80, 70)));
    assert_eq!(repay_amounts(50, 60, 80), Ok((50, 10)));
    assert_eq!(repay_amounts(100, 70, 80), Err(WethGatewayError::InsufficientPayback));
    assert_eq!(safe_transfer_outcome(false), Err(WethGatewayError::SafeETHTransferFailed));
    let g = WethGateway::new(acc(1), acc(2));
    assert_eq!(g.get_weth_address(), acc(1));
    assert_eq!(g.get_pool_address(), acc(2));
}

#[test]
fn weth_wraps_and_unwraps() {
    let mut w = Weth::new();
    assert!(w.deposit(acc(1), 100).is_ok());
    assert_eq!(w.token._balance_of(&acc(1)), 100);
    assert_eq!(w.withdraw(acc(1), 500, true), Err(PSP22Error::InsufficientBalance));
    match w.withdraw(acc(1), 50, false) {
        Err(PSP22Error::Custom(s)) => assert_eq!(s, "Cannot send ASTR."),
        other => panic!("unexpected {:?}", other),
    }
    assert!(w.withdraw(acc(1), 50, true).is_ok());
    assert_eq!(w.token._balance_of(&acc(1)), 50);
    assert_eq!(w.token.supply, 50);
}

#[test]
fn manager_roles() {
    assert_eq!(required_role(ManagerAction::SetController), DEFAULT_ADMIN_ROLE);
    assert_eq!(required_role(ManagerAction::SupportMarket), CONTROLLER_ADMIN);
    assert_eq!(required_role(ManagerAction::SetBorrowCap), BORROW_CAP_GUARDIAN);
    assert_eq!(required_role(ManagerAction::SetMintGuardianPaused), PAUSE_GUARDIAN);
    assert_eq!(required_role(ManagerAction::ReduceReserves), TOKEN_ADMIN);
    assert_eq!(
        only_role(ManagerAction::SupportMarket, false),
        Err(ManagerError::AccessControl(AccessControlError::MissingRole))
    );
    assert_eq!(
        controller_outcome(Err(ControllerError::MarketAlreadyListed)),
        Err(ManagerError::Controller(ControllerError::MarketAlreadyListed))
    );
    let mut m = Manager::new(acc(1));
    assert!(m.set_controller(false, acc(2)).is_err());
    assert_eq!(m.controller(), acc(1));
    assert!(m.set_controller(true, acc(2)).is_ok());
    assert_eq!(m.controller(), acc(2));
}

#[test]
fn lens_reports() {
    let lens = LensContract::new();
    let p = lens._pool_underlying_price(acc(1), Some(acc(2)), Some(acc(3)), Some(acc(4)), Some(PRICE_PRECISION));
    assert_eq!(p.underlying_price, PRICE_PRECISION);
    let p = lens._pool_underlying_price(acc(1), None, Some(acc(3)), Some(acc(4)), None);
    assert_eq!(p.underlying_price, 0);
    assert_eq!(lens._underlying_balance(None, 5), 0);
    assert_eq!(lens._underlying_balance(Some(acc(3)), 5), 5);
    let b = lens._pool_balances(acc(1), None, 10, Err(PoolError::AccrualBlockNumberIsNotFresh), 20, 30, 40);
    assert_eq!(
        b,
        PoolBalances {
            pool: acc(1),
            balance_of: 10,
            borrow_balance_current: 0,
            balance_of_underlying: 20,
            token_balance: 0,
            token_allowance: 0,
        }
    );
}

#[test]
fn dummy_contract_answers() {
    let mut d = DummyContract::new();
    assert_eq!(d.result_ok(), Ok(()));
    assert_eq!(d.result_ng(), Err(DummyError::Ng));
}

#[test]
fn faucet_mints_to_the_caller_by_default() {
    let f = Faucet::new();
    assert_eq!(f.mint(acc(1), acc(5), 10, None), MintRequest { token: acc(5), to: acc(1), amount: 10 });
    assert_eq!(f.mint(acc(1), acc(5), 10, Some(acc(2))), MintRequest { token: acc(5), to: acc(2), amount: 10 });
    let all = f.mint_underlying_all(acc(1), &vec![acc(5), acc(6)], 3, None);
    assert_eq!(all.len(), 2);
    assert_eq!(all[1], MintRequest { token: acc(6), to: acc(1), amount: 3 });
}

#[test]
fn set_fixed_price_works() {
    let mut oracle = Oracle::new();
    let asset_addr = acc(0x01);
    assert_eq!(oracle.get_price(asset_addr), None);
    oracle.set_fixed_price(asset_addr, PRICE_PRECISION * 101 / 100);
    assert_eq!(oracle.get_price(asset_addr), Some(PRICE_PRECISION * 101 / 100));
    assert_eq!(oracle.get_underlying_price(Some(asset_addr)), Some(PRICE_PRECISION * 101 / 100));
    assert_eq!(oracle.get_underlying_price(None), None);
}

#[test]
fn incentives_controller_accepts_when_configured() {
    let mut i = Incentives { is_ok: false };
    assert_eq!(i.handle_action(acc(1), 0, 0, 0, 0), Err(IncentivesError::CallerIsNotConfiguredAsset));
    i.set_ok(true).unwrap();
    assert_eq!(i.handle_action(acc(1), 0, 0, 0, 0), Ok(()));
}

fn flash_replies() -> FlashloanReplies {
    FlashloanReplies {
        markets: vec![Some(acc(1)), Some(acc(2))],
        lent: vec![Ok(()), Ok(())],
        operation_result: true,
        settled: vec![Ok(()), Ok(())],
    }
}

#[test]
fn flashloan_refusals_come_in_order() {
    let mut gateway = Gateway::default();
    assert_eq!(gateway.flashloan(2, &vec![1, 2], flash_replies()), Err(GatewayError::ControllerIsNotSet));
    gateway._initialize(acc(50));
    assert_eq!(gateway.flashloan(2, &vec![1, 2], flash_replies()), Ok(()));
    assert_eq!(gateway.flashloan(1, &vec![1, 2], flash_replies()), Err(GatewayError::InconsistentFlashloanParams));
    let mut r = flash_replies();
    r.lent = vec![Ok(()), Err(PoolError::BorrowCashNotAvailable)];
    r.operation_result = false;
    assert_eq!(gateway.flashloan(2, &vec![1, 2], r), Err(GatewayError::Pool(PoolError::BorrowCashNotAvailable)));
    let mut r = flash_replies();
    r.markets = vec![Some(acc(1)), None];
    r.lent = vec![Err(PoolError::BorrowCashNotAvailable), Ok(())];
    assert_eq!(gateway.flashloan(2, &vec![1, 2], r), Err(GatewayError::Pool(PoolError::BorrowCashNotAvailable)));
    let mut r = flash_replies();
    r.operation_result = false;
    assert_eq!(gateway.flashloan(2, &vec![1, 2], r), Err(GatewayError::InvalidFlashloanExecutorReturn));
    let mut r = flash_replies();
    r.settled = vec![Ok(()), Err(GatewayError::PSP22(PSP22Error::InsufficientAllowance))];
    assert_eq!(gateway.flashloan(2, &vec![1, 2], r), Err(GatewayError::PSP22(PSP22Error::InsufficientAllowance)));
}

#[test]
fn loop_setup_checks_in_order() {
    let mut l = Leverager::new(acc(2));
    assert_eq!(l.loop_asset_setup(7500, 5000, 3, Ok(()), Some(acc(9))), Err(LeveragerError::ControllerIsNotSet));
    assert_eq!(l.loop_eth_setup(7500, 5000, 3, Some(acc(9))), Err(LeveragerError::WETHIsNotSet));
    l.initialize(acc(2), Some(acc(1)), Some(acc(2)), Some(acc(3))).unwrap();
    assert_eq!(l.loop_asset_setup(7500, 5000, 3, Ok(()), Some(acc(9))), Ok(acc(9)));
    assert_eq!(l.loop_asset_setup(7500, 5000, 3, Ok(()), None), Err(LeveragerError::MarketNotListed));
    assert_eq!(
        l.loop_asset_setup(7500, 5000, 3, Err(PSP22Error::InsufficientBalance), Some(acc(9))),
        Err(LeveragerError::PSP22(PSP22Error::InsufficientBalance))
    );
    assert_eq!(l.loop_asset_setup(7500, 9000, 3, Ok(()), Some(acc(9))), Err(LeveragerError::InappropriateBorrowRate));
    assert_eq!(l.loop_eth_setup(7500, 5000, 3, Some(acc(9))), Ok((acc(3), acc(9))));
    assert_eq!(l._withdrawable_amount(None).as_u128(), 0);
}

fn withdraw_replies() -> WithdrawReplies {
    WithdrawReplies { collateral_set: Ok(()), pulled: Ok(()), redeemed: Ok(()), unwrapped: Ok(()), sent: true }
}

fn repay_replies(owed: u128) -> RepayReplies {
    RepayReplies { owed: Ok(owed), wrapped: Ok(()), approved: Ok(()), repaid: Ok(()), refunded: true }
}

#[test]
fn native_token_withdrawal_and_repayment() {
    assert_eq!(withdraw_eth(u128::MAX, 40, withdraw_replies()), Ok(40));
    assert_eq!(withdraw_eth(10, 40, withdraw_replies()), Ok(10));
    let mut r = withdraw_replies();
    r.redeemed = Err(PoolError::RedeemTransferOutNotPossible);
    r.sent = false;
    assert_eq!(withdraw_eth(10, 40, r), Err(WethGatewayError::Pool(PoolError::RedeemTransferOutNotPossible)));
    let mut r = withdraw_replies();
    r.sent = false;
    assert_eq!(withdraw_eth(10, 40, r), Err(WethGatewayError::SafeETHTransferFailed));

    assert_eq!(repay_eth(100, 150, repay_replies(80)), Ok((80, 70)));
    assert_eq!(repay_eth(100, 70, repay_replies(80)), Err(WethGatewayError::InsufficientPayback));
    let mut r = repay_replies(80);
    r.refunded = false;
    assert_eq!(repay_eth(100, 150, r), Err(WethGatewayError::SafeETHTransferFailed));
    // No refund is due, so none needs to go through.
    let mut r = repay_replies(80);
    r.refunded = false;
    assert_eq!(repay_eth(100, 80, r), Ok((80, 0)));
    let mut r = repay_replies(80);
    r.owed = Err(PoolError::InterestRateModelIsNotSet);
    assert_eq!(repay_eth(100, 80, r), Err(WethGatewayError::Pool(PoolError::InterestRateModelIsNotSet)));
}

#[test]
fn receiver_pays_back_when_it_can() {
    let mut receiver = FlashloanReceiver::new();
    let amounts = vec![100, 200];
    let premiums = vec![1, 2];
    assert!(!receiver.execute_operation(&amounts, &premiums, &vec![true, true], &vec![101, 202], &vec![true, true]));
    receiver._initialize(acc(7));
    assert!(receiver.execute_operation(&amounts, &premiums, &vec![true, true], &vec![101, 202], &vec![true, true]));
    assert!(!receiver.execute_operation(&amounts, &premiums, &vec![true, true], &vec![101, 201], &vec![true, true]));
    assert!(!receiver.execute_operation(&amounts, &premiums, &vec![true, false], &vec![101, 202], &vec![true, true]));
    receiver._set_fail_execution_transfer(true);
    assert!(!receiver.execute_operation(&amounts, &premiums, &vec![true, true], &vec![101, 202], &vec![true, true]));
}

#[test]
fn close_runs_out_of_rounds() {
    // Nothing can be withdrawn while debt remains: every look repays nothing and
    // uses a round, until none is left.
    let mut remains: u128 = 40;
    let mut rounds = 0;
    loop {
        match close_step(0, 100, remains) {
            CloseStep::Repay(w, next) => {
                assert_eq!(w, 0);
                rounds += 1;
                remains = next;
            }
            other => {
                assert_eq!(other, CloseStep::Finish);
                break;
            }
        }
    }
    assert_eq!(rounds, 40);
}

#[test]
fn every_asset_of_a_flash_loan_is_reported() {
    let events = flashloan_events(acc(7), acc(8), &vec![acc(1), acc(2)], &vec![1_000_000, 200], &vec![900, 0]);
    assert_eq!(events.len(), 2);
    assert_eq!(
        events[0],
        FlashLoanEvent { target: acc(7), initiator: acc(8), asset: acc(1), amount: 1_000_000, premium: 900 }
    );
    assert_eq!(events[1].asset, acc(2));
    assert_eq!(events[1].premium, 0);
}
