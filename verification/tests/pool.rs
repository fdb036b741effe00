use starlay_lending::account::AccountId;
use starlay_lending::controller::Error as ControllerError;
use starlay_lending::controller::PoolAttributesForSeizeCalculation;
use starlay_lending::pool::{psp22_error_of, Data, Env, Error, LiquidationReplies, SeizeRequest, UnderlyingTransfer, Event};
use starlay_lending::psp22::PSP22Error;
use starlay_lending::types::WrappedU256;
use starlay_lending::u256::U256;

const ONE: u128 = 1_000_000_000_000_000_000;

fn acc(b: u8) -> AccountId {
    AccountId::new([b; 32])
}

fn env(caller: u8, cash: u128) -> Env {
    Env {
        caller: acc(caller),
        contract: acc(100),
        block_number: 0,
        cash,
        borrow_rate: WrappedU256::zero(),
    }
}

/// A listed pool with an underlying, a controller, a rate model and an initial
/// exchange rate of one.
fn pool() -> Data {
    let mut p = Data::default();
    p.controller = Some(acc(50));
    p.underlying = Some(acc(51));
    p.rate_model = Some(acc(52));
    p.manager = Some(acc(9));
    p.initial_exchange_rate_mantissa = WrappedU256::from_u128(ONE);
    p
}

fn minted(p: &mut Data, who: u8, amount: u128) {
    p._mint(env(who, 0), acc(who), amount, true, Ok(()), Ok(())).unwrap();
}

#[test]
fn mint_credits_tokens_at_the_exchange_rate_and_enables_collateral() {
    let mut p = pool();
    assert!(p._mint(env(1, 0), acc(1), 100, true, Ok(()), Ok(())).is_ok());
    assert_eq!(p.token._balance_of(&acc(1)), 100);
    assert_eq!(p.token.supply, 100);
    assert!(p.using_reserve_as_collateral(acc(1)));
    // At a rate of two, half as many tokens.
    let mut q = pool();
    q.initial_exchange_rate_mantissa = WrappedU256::from_u128(2 * ONE);
    q._mint(env(1, 0), acc(1), 100, true, Ok(()), Ok(())).unwrap();
    assert_eq!(q.token._balance_of(&acc(1)), 50);
}

#[test]
fn mint_refusals_come_in_order() {
    let mut p = pool();
    p.incentives_controller = Some(acc(53));
    assert_eq!(p._mint(env(1, 0), acc(1), 1, false, Ok(()), Ok(())), Err(Error::AccrueRewardFailed));
    let mut p = pool();
    p.controller = None;
    assert_eq!(p._mint(env(1, 0), acc(1), 1, true, Ok(()), Ok(())), Err(Error::ControllerIsNotSet));
    let mut p = pool();
    assert_eq!(
        p._mint(env(1, 0), acc(1), 1, true, Err(ControllerError::MintIsPaused), Ok(())),
        Err(Error::Controller(ControllerError::MintIsPaused))
    );
    let mut p = pool();
    p.accrual_block_number = 7;
    assert_eq!(p._mint(env(1, 0), acc(1), 1, true, Ok(()), Ok(())), Err(Error::AccrualBlockNumberIsNotFresh));
    let mut p = pool();
    assert_eq!(
        p._mint(env(1, 0), acc(1), 1, true, Ok(()), Err(PSP22Error::InsufficientAllowance)),
        Err(Error::PSP22(PSP22Error::InsufficientAllowance))
    );
    let mut p = pool();
    assert_eq!(
        p._mint(env(1, 0), AccountId::zero(), 1, true, Ok(()), Ok(())),
        Err(Error::PSP22(PSP22Error::ZeroRecipientAddress))
    );
    assert_eq!(p.token.supply, 0);
}

#[test]
fn redeeming_everything_stops_collateral() {
    let mut p = pool();
    minted(&mut p, 1, 100);
    assert!(p._redeem(env(1, 100), acc(1), 40, true, Ok(()), Ok(())).is_ok());
    assert_eq!(p.token._balance_of(&acc(1)), 60);
    assert!(p.using_reserve_as_collateral(acc(1)));
    assert!(p._redeem(env(1, 60), acc(1), 60, true, Ok(()), Ok(())).is_ok());
    assert_eq!(p.token._balance_of(&acc(1)), 0);
    assert_eq!(p.token.supply, 0);
    assert!(!p.using_reserve_as_collateral(acc(1)));
}

#[test]
fn redeem_refusals() {
    let mut p = pool();
    minted(&mut p, 1, 100);
    assert_eq!(p._redeem(env(1, 10), acc(1), 40, true, Ok(()), Ok(())), Err(Error::RedeemTransferOutNotPossible));
    assert_eq!(
        p._redeem(env(1, 1000), acc(1), 400, true, Ok(()), Ok(())),
        Err(Error::PSP22(PSP22Error::InsufficientBalance))
    );
    assert_eq!(
        p._redeem(env(1, 1000), acc(1), 40, true, Err(ControllerError::InsufficientLiquidity), Ok(())),
        Err(Error::Controller(ControllerError::InsufficientLiquidity))
    );
    // Nothing to redeem: nothing happens.
    assert_eq!(p._redeem(env(1, 1000), acc(1), 0, true, Ok(()), Ok(())), Ok(()));
    assert_eq!(
        p._redeem(env(2, 1000), acc(2), 10, true, Ok(()), Ok(())),
        Err(Error::PSP22(PSP22Error::InsufficientBalance))
    );
    assert_eq!(p.token._balance_of(&acc(1)), 100);
    // A pool that has not accrued up to the current block refuses.
    let mut q = pool();
    minted(&mut q, 1, 100);
    q.accrual_block_number = 5;
    assert_eq!(q._redeem(env(1, 1000), acc(1), 40, true, Ok(()), Ok(())), Err(Error::AccrualBlockNumberIsNotFresh));
}

#[test]
fn borrow_records_debt_at_the_index() {
    let mut p = pool();
    assert!(p._borrow(env(2, 1000), acc(2), 300, true, true, Ok(()), Ok(())).is_ok());
    assert_eq!(p.total_borrows, 300);
    assert_eq!(p._borrow_balance_stored(acc(2)), 300);
    assert_eq!(
        p._borrow(env(2, 100), acc(2), 300, true, true, Ok(()), Ok(())),
        Err(Error::BorrowCashNotAvailable)
    );
    assert_eq!(
        p._borrow(env(2, 1000), acc(2), 300, true, true, Err(ControllerError::BorrowCapReached), Ok(())),
        Err(Error::Controller(ControllerError::BorrowCapReached))
    );
    p.underlying = None;
    assert_eq!(p._borrow(env(2, 1000), acc(2), 1, true, true, Ok(()), Ok(())), Err(Error::UnderlyingIsNotSet));
    // A flash loan keeps the underlying in the pool.
    assert!(p._borrow(env(2, 1000), acc(2), 1, false, true, Ok(()), Ok(())).is_ok());
    assert_eq!(p.total_borrows, 301);
}

#[test]
fn debt_grows_with_the_borrow_index() {
    let mut p = pool();
    p._borrow(env(2, 1000), acc(2), 300, true, true, Ok(()), Ok(())).unwrap();
    p.borrow_index = WrappedU256::from_u128(2 * ONE);
    assert_eq!(p._borrow_balance_stored(acc(2)), 600);
}

#[test]
fn repay_takes_at_most_the_debt() {
    let mut p = pool();
    p._borrow(env(2, 1000), acc(2), 300, true, true, Ok(()), Ok(())).unwrap();
    assert_eq!(p._repay_borrow(env(3, 700), acc(3), acc(2), 100, true, Ok(())), Ok(100));
    assert_eq!(p._borrow_balance_stored(acc(2)), 200);
    assert_eq!(p._repay_borrow(env(3, 800), acc(3), acc(2), u128::MAX, true, Ok(())), Ok(200));
    assert_eq!(p._borrow_balance_stored(acc(2)), 0);
    assert_eq!(p.total_borrows, 0);
    p.accrual_block_number = 3;
    assert_eq!(
        p._repay_borrow(env(3, 800), acc(3), acc(2), 1, true, Ok(())),
        Err(Error::AccrualBlockNumberIsNotFresh)
    );
}

#[test]
fn seize_moves_tokens_and_keeps_the_protocol_share() {
    let mut p = pool();
    minted(&mut p, 1, 1000 * ONE);
    let seize = 100 * ONE;
    assert!(p._seize(env(7, 1000 * ONE), acc(3), acc(1), seize, true, Ok(())).is_ok());
    // 2.8% of the seized tokens stay with the protocol.
    let protocol = seize * 28 / 1000;
    assert_eq!(p.token._balance_of(&acc(1)), 900 * ONE);
    assert_eq!(p.token._balance_of(&acc(3)), seize - protocol);
    assert_eq!(p.token.supply, 1000 * ONE - protocol);
    // At an exchange rate of one, the reserves gain the share's worth.
    assert_eq!(p.total_reserves, protocol);
}

#[test]
fn seize_refusals() {
    let mut p = pool();
    minted(&mut p, 1, 1000);
    assert_eq!(
        p._seize(env(7, 1000), acc(1), acc(1), 10, true, Ok(())),
        Err(Error::LiquidateSeizeLiquidatorIsBorrower)
    );
    assert_eq!(
        p._seize(env(7, 1000), acc(3), acc(2), 10, true, Ok(())),
        Err(Error::ReserveIsNotEnabledAsCollateral)
    );
    assert_eq!(
        p._seize(env(7, 1000), acc(3), acc(1), 10, true, Err(ControllerError::SeizeIsPaused)),
        Err(Error::Controller(ControllerError::SeizeIsPaused))
    );
    assert_eq!(
        p._seize(env(7, 1000), acc(3), acc(1), 10_000, true, Ok(())),
        Err(Error::PSP22(PSP22Error::InsufficientBalance))
    );
}

fn replies() -> LiquidationReplies {
    LiquidationReplies {
        reward_ok: true,
        collateral_accrual_block_number: 0,
        allowed: Ok(()),
        received: Ok(()),
        seize_tokens: Ok(10 * ONE),
        seize_allowed: Ok(()),
        collateral_controller: Some(acc(50)),
        seized: Ok(()),
    }
}

#[test]
fn liquidation_repays_and_seizes_in_the_same_pool() {
    let mut p = pool();
    minted(&mut p, 1, 1000 * ONE);
    p._borrow(env(1, 1000 * ONE), acc(1), 500 * ONE, true, true, Ok(()), Ok(())).unwrap();
    let r = p._liquidate_borrow(env(3, 500 * ONE), acc(3), acc(1), 100 * ONE, acc(100), replies());
    assert_eq!(r, Ok(()));
    assert_eq!(p._borrow_balance_stored(acc(1)), 400 * ONE);
    assert_eq!(p.total_borrows, 400 * ONE);
    assert_eq!(p.token._balance_of(&acc(1)), 990 * ONE);
    assert_eq!(p.token._balance_of(&acc(3)), 10 * ONE - 10 * ONE * 28 / 1000);
}

#[test]
fn liquidation_in_another_pool() {
    let mut p = pool();
    p._borrow(env(1, 1000 * ONE), acc(1), 500 * ONE, true, true, Ok(()), Ok(())).unwrap();
    let r = p._liquidate_borrow(env(3, 500 * ONE), acc(3), acc(1), 100 * ONE, acc(101), replies());
    assert_eq!(r, Ok(()));
    assert_eq!(p._borrow_balance_stored(acc(1)), 400 * ONE);
    let mut other = replies();
    other.collateral_controller = Some(acc(99));
    assert_eq!(
        p._liquidate_borrow(env(3, 500 * ONE), acc(3), acc(1), 1, acc(101), other),
        Err(Error::Controller(ControllerError::ControllerMismatch))
    );
    let mut stale = replies();
    stale.collateral_accrual_block_number = 4;
    assert_eq!(
        p._liquidate_borrow(env(3, 500 * ONE), acc(3), acc(1), 1, acc(101), stale),
        Err(Error::AccrualBlockNumberIsNotFresh)
    );
    assert_eq!(
        p._liquidate_borrow(env(3, 500 * ONE), acc(1), acc(1), 1, acc(101), replies()),
        Err(Error::LiquidateLiquidatorIsBorrower)
    );
    assert_eq!(
        p._liquidate_borrow(env(3, 500 * ONE), acc(3), acc(1), 0, acc(101), replies()),
        Err(Error::LiquidateCloseAmountIsZero)
    );
    let mut refused = replies();
    refused.seized = Err(Error::ReserveIsNotEnabledAsCollateral);
    assert_eq!(
        p._liquidate_borrow(env(3, 500 * ONE), acc(3), acc(1), 1, acc(101), refused),
        Err(Error::ReserveIsNotEnabledAsCollateral)
    );
    assert_eq!(p._borrow_balance_stored(acc(1)), 400 * ONE);
}

#[test]
fn transfer_of_pool_tokens() {
    let mut p = pool();
    minted(&mut p, 1, 100);
    assert!(p._transfer_tokens(env(1, 100), acc(1), acc(1), acc(2), 30, true, Ok(())).is_ok());
    assert_eq!(p.token._balance_of(&acc(1)), 70);
    assert_eq!(p.token._balance_of(&acc(2)), 30);
    match p._transfer_tokens(env(1, 100), acc(1), acc(1), acc(1), 30, true, Ok(())) {
        Err(PSP22Error::Custom(s)) => assert_eq!(s, "TransferNotAllowed"),
        other => panic!("unexpected {:?}", other),
    }
    match p._transfer_tokens(env(1, 100), acc(1), acc(1), acc(2), 30, true, Err(ControllerError::TransferIsPaused)) {
        Err(PSP22Error::Custom(s)) => assert_eq!(s, "TransferIsPaused"),
        other => panic!("unexpected {:?}", other),
    }
    // A spender needs an allowance.
    assert_eq!(
        p._transfer_tokens(env(3, 100), acc(3), acc(1), acc(2), 10, true, Ok(())),
        Err(PSP22Error::InsufficientAllowance)
    );
    p.token._approve_from_to(acc(1), acc(3), 10).unwrap();
    assert!(p._transfer_tokens(env(3, 100), acc(3), acc(1), acc(2), 10, true, Ok(())).is_ok());
    assert_eq!(p.token._allowance(&acc(1), &acc(3)), 0);
    assert_eq!(p.token._balance_of(&acc(2)), 40);
}

#[test]
fn transfer_accrues_interest_first() {
    let mut p = pool();
    minted(&mut p, 1, 100);
    let mut e = env(1, 100);
    e.block_number = 10;
    e.borrow_rate = WrappedU256::from_u128(ONE / 1_000_000);
    assert!(p._transfer_tokens(e, acc(1), acc(1), acc(2), 30, true, Ok(())).is_ok());
    assert_eq!(p.accrual_block_number, 10);
    p.rate_model = None;
    e.block_number = 20;
    match p._transfer_tokens(e, acc(1), acc(1), acc(2), 30, true, Ok(())) {
        Err(PSP22Error::Custom(s)) => assert_eq!(s, "AccrueInterestFailed"),
        other => panic!("unexpected {:?}", other),
    }
}

#[test]
fn controller_errors_become_custom_token_errors() {
    match psp22_error_of(ControllerError::MintIsPaused) {
        PSP22Error::Custom(s) => assert_eq!(s, "MintIsPaused"),
        other => panic!("unexpected {:?}", other),
    }
    match psp22_error_of(ControllerError::MarketCountReachedToMaximum) {
        PSP22Error::Custom(s) => assert_eq!(s, "MarketCountReachedToMaximum"),
        other => panic!("unexpected {:?}", other),
    }
}

#[test]
fn accrual_grows_the_index_once_per_block() {
    let mut p = pool();
    p._borrow(env(2, 1000 * ONE), acc(2), 100 * ONE, true, true, Ok(()), Ok(())).unwrap();
    let rate = WrappedU256::from_u128(ONE / 1_000_000); // per millisecond
    assert!(p._accrue_interest_at(1000, rate).is_ok());
    assert_eq!(p.accrual_block_number, 1000);
    assert!(p.total_borrows > 100 * ONE);
    let borrows = p.total_borrows;
    // The same block again: nothing changes.
    assert!(p._accrue_interest_at(1000, rate).is_ok());
    assert_eq!(p.total_borrows, borrows);
    // Refusals.
    let too_high = WrappedU256(U256::from_u128(ONE));
    assert_eq!(p._accrue_interest_at(2000, too_high), Err(Error::BorrowRateIsAbsurdlyHigh));
    p.rate_model = None;
    assert_eq!(p._accrue_interest_at(2000, rate), Err(Error::InterestRateModelIsNotSet));
}

#[test]
fn reserves_are_added_and_reduced() {
    let mut p = pool();
    assert!(p._add_reserves(env(1, 0), 500, Ok(())).is_ok());
    assert_eq!(p.total_reserves, 500);
    assert_eq!(p._reduce_reserves(env(9, 100), 200, Ok(())), Err(Error::ReduceReservesCashNotAvailable));
    assert_eq!(p._reduce_reserves(env(9, 1000), 600, Ok(())), Err(Error::ReduceReservesCashValidation));
    assert!(p._reduce_reserves(env(9, 1000), 200, Ok(())).is_ok());
    assert_eq!(p.total_reserves, 300);
    p.accrual_block_number = 5;
    assert_eq!(p._add_reserves(env(1, 0), 1, Ok(())), Err(Error::AccrualBlockNumberIsNotFresh));
}

#[test]
fn reserve_factor_is_bounded_and_manager_only() {
    let mut p = pool();
    assert_eq!(
        p.set_reserve_factor_mantissa(env(9, 0), WrappedU256::from_u128(ONE + 1)),
        Err(Error::SetReserveFactorBoundsCheck)
    );
    assert_eq!(
        p.set_reserve_factor_mantissa(env(8, 0), WrappedU256::from_u128(ONE / 10)),
        Err(Error::CallerIsNotManager)
    );
    assert!(p.set_reserve_factor_mantissa(env(9, 0), WrappedU256::from_u128(ONE / 10)).is_ok());
    assert_eq!(p.reserve_factor_mantissa.0.as_u128(), ONE / 10);
}

#[test]
fn delegate_allowances() {
    let mut p = pool();
    assert!(p.approve_delegate(env(1, 0), acc(2), 100).is_ok());
    assert_eq!(p._delegate_allowance(&acc(1), &acc(2)), 100);
    assert!(p.increase_delegate_allowance(env(1, 0), acc(2), 50).is_ok());
    assert_eq!(p._delegate_allowance(&acc(1), &acc(2)), 150);
    assert_eq!(p.decrease_delegate_allowance(env(1, 0), acc(2), 500), Err(Error::InsufficientDelegateAllowance));
    assert!(p.decrease_delegate_allowance(env(1, 0), acc(2), 50).is_ok());
    assert_eq!(p._delegate_allowance(&acc(1), &acc(2)), 100);
    assert_eq!(p._approve_delegate(AccountId::zero(), acc(2), 1), Err(Error::ZeroOwnerAddress));
    assert_eq!(p._approve_delegate(acc(1), AccountId::zero(), 1), Err(Error::ZeroDelegateeAddress));
    // The delegatee may act within the allowance.
    assert_eq!(p.delegated_allowed(env(2, 0), acc(1), 100), Ok(()));
    assert_eq!(p.delegated_allowed(env(2, 0), acc(1), 101), Err(Error::InsufficientDelegateAllowance));
    assert_eq!(p.delegated_allowed(env(1, 0), acc(1), u128::MAX), Ok(()));
}

#[test]
fn manager_hands_over_in_two_steps() {
    let mut p = pool();
    assert_eq!(p.set_manager(env(8, 0), acc(8)), Err(Error::CallerIsNotManager));
    assert!(p.set_manager(env(9, 0), acc(8)).is_ok());
    assert_eq!(p.accept_manager(env(7, 0)), Err(Error::CallerIsNotPendingManager));
    assert!(p.accept_manager(env(8, 0)).is_ok());
    assert_eq!(p.manager, Some(acc(8)));
    assert_eq!(p.pending_manager, None);
    assert_eq!(p.accept_manager(env(8, 0)), Err(Error::PendingManagerIsNotSet));
    let mut q = Data::default();
    assert_eq!(q.set_controller(env(9, 0), acc(1)), Err(Error::ManagerIsNotSet));
}

#[test]
fn liquidation_threshold_must_exceed_the_collateral_factor() {
    let mut p = pool();
    // A collateral factor of 80% against a threshold of 80.00%: refused.
    assert_eq!(
        p._set_liquidation_threshold(8000, Some(WrappedU256::from_u128(8 * ONE / 10))),
        Err(Error::InvalidLiquidationThreshold)
    );
    assert!(p._set_liquidation_threshold(8500, Some(WrappedU256::from_u128(8 * ONE / 10))).is_ok());
    assert_eq!(p.liquidation_threshold, 8500);
    assert_eq!(
        p._set_liquidation_threshold(8500, None),
        Err(Error::Controller(ControllerError::InvalidCollateralFactor))
    );
}

#[test]
fn collateral_cannot_be_withdrawn_without_balance_or_permission() {
    let mut p = pool();
    minted(&mut p, 1, 100);
    assert_eq!(p._validate_set_use_reserve_as_collateral(acc(1), true, Ok(())), Ok(()));
    assert_eq!(
        p._validate_set_use_reserve_as_collateral(acc(1), false, Err(ControllerError::BalanceDecreaseNotAllowed)),
        Err(Error::Controller(ControllerError::BalanceDecreaseNotAllowed))
    );
    p._set_use_reserve_as_collateral(acc(2), true);
    assert_eq!(
        p._validate_set_use_reserve_as_collateral(acc(2), false, Ok(())),
        Err(Error::PSP22(PSP22Error::InsufficientBalance))
    );
}

#[test]
fn sweeping_refuses_the_underlying() {
    let p = pool();
    assert_eq!(p._sweep_token(acc(51), Ok(())), Err(Error::CannotSweepUnderlyingToken));
    assert_eq!(p._sweep_token(acc(60), Ok(())), Ok(()));
    assert_eq!(
        p._sweep_token(acc(60), Err(PSP22Error::InsufficientBalance)),
        Err(Error::PSP22(PSP22Error::InsufficientBalance))
    );
}

#[test]
fn account_snapshot_and_status() {
    let mut p = pool();
    minted(&mut p, 1, 100);
    let (balance, borrow, rate) = p.account_snapshot(env(1, 100), acc(1));
    assert_eq!((balance, borrow), (100, 0));
    assert_eq!(rate.as_u128(), ONE);
    let status = p.status(100);
    assert_eq!(status.total_supply, 100);
    let attrs = p.pool_attributes(env(1, 100), acc(1));
    assert_eq!(attrs.account_balance, 100);
    assert_eq!(attrs.pool, Some(acc(100)));
    // Without collateral the balance is reported in the borrow position.
    let (balance, borrow, _) = p.account_snapshot(env(2, 100), acc(2));
    assert_eq!((balance, borrow), (0, 0));
}

#[test]
fn only_the_gateway_may_flash_borrow() {
    let p = pool();
    assert_eq!(p.only_flashloan_gateway(env(5, 0), Some(acc(5))), Ok(()));
    assert_eq!(p.only_flashloan_gateway(env(6, 0), Some(acc(5))), Err(Error::CallerIsNotFlashloanGateway));
    assert_eq!(p.only_flashloan_gateway(env(6, 0), None), Err(Error::CallerIsNotFlashloanGateway));
}

fn env_at(caller: u8, cash: u128, block: u64) -> Env {
    Env {
        caller: acc(caller),
        contract: acc(100),
        block_number: block,
        cash,
        borrow_rate: WrappedU256::from_u128(ONE / 1_000_000),
    }
}

#[test]
fn messages_accrue_interest_first() {
    let mut p = pool();
    assert!(p.mint(env_at(1, 0, 0), 1000 * ONE, true, Ok(()), Ok(())).is_ok());
    assert!(p.borrow(env_at(2, 1000 * ONE, 0), 100 * ONE, true, Ok(()), Ok(())).is_ok());
    // A later block: the borrow grows before the repayment is taken.
    assert!(p.repay_borrow(env_at(2, 900 * ONE, 10), 10 * ONE, true, Ok(())).is_ok());
    assert_eq!(p.accrual_block_number, 10);
    assert!(p._borrow_balance_stored(acc(2)) > 90 * ONE);
    let owed = p.borrow_balance_current(env_at(2, 910 * ONE, 10), acc(2)).unwrap();
    assert!(p.repay_borrow_all(env_at(2, 910 * ONE, 10), true, Ok(())).is_ok());
    assert!(owed > 90 * ONE);
    assert_eq!(p._borrow_balance_stored(acc(2)), 0);
    // Suppliers now get more underlying per pool token.
    let rate = p.exchange_rate_current(env_at(1, 1000 * ONE + owed - 90 * ONE, 10)).unwrap();
    assert!(rate.0.gt(&U256::from_u128(ONE)));
}

#[test]
fn a_refused_message_leaves_the_pool_as_it_was() {
    let mut p = pool();
    p.mint(env_at(1, 0, 0), 1000 * ONE, true, Ok(()), Ok(())).unwrap();
    p.borrow(env_at(2, 1000 * ONE, 0), 100 * ONE, true, Ok(()), Ok(())).unwrap();
    let r = p.borrow(env_at(2, 900 * ONE, 10), 100 * ONE, true, Err(ControllerError::BorrowIsPaused), Ok(()));
    assert_eq!(r, Err(Error::Controller(ControllerError::BorrowIsPaused)));
    // The accrual at block 10 was undone with the refusal.
    assert_eq!(p.accrual_block_number, 0);
    assert_eq!(p.total_borrows, 100 * ONE);
    let mut no_model = pool();
    no_model.rate_model = None;
    assert_eq!(
        no_model.mint(env_at(1, 0, 5), 1, true, Ok(()), Ok(())),
        Err(Error::InterestRateModelIsNotSet)
    );
}

#[test]
fn borrowing_for_another_uses_up_the_allowance() {
    let mut p = pool();
    p.approve_delegate(env(1, 0), acc(2), 300).unwrap();
    assert_eq!(
        p.borrow_for(env_at(2, 1000, 0), acc(1), 400, true, Ok(()), Ok(())),
        Err(Error::InsufficientDelegateAllowance)
    );
    assert!(p.borrow_for(env_at(2, 1000, 0), acc(1), 100, true, Ok(()), Ok(())).is_ok());
    assert_eq!(p._borrow_balance_stored(acc(1)), 100);
    assert_eq!(p._delegate_allowance(&acc(1), &acc(2)), 200);
}

#[test]
fn redeeming_all_and_collateral_switch() {
    let mut p = pool();
    p.mint(env_at(1, 0, 0), 100, true, Ok(()), Ok(())).unwrap();
    assert!(p.set_use_reserve_as_collateral(env_at(1, 100, 0), false, Ok(())).is_ok());
    assert!(!p.using_reserve_as_collateral(acc(1)));
    // Supply that is not collateral is redeemed like any other.
    assert!(p.redeem_underlying(env_at(1, 100, 0), 40, true, Ok(()), Ok(())).is_ok());
    assert_eq!(p.token._balance_of(&acc(1)), 60);
    p.set_use_reserve_as_collateral(env_at(1, 60, 0), true, Ok(())).unwrap();
    assert!(p.redeem_all(env_at(1, 60, 0), true, Ok(()), Ok(())).is_ok());
    assert_eq!(p.token._balance_of(&acc(1)), 0);
    let snapshot = p.get_account_snapshot(env_at(1, 0, 0), acc(1)).unwrap();
    assert_eq!((snapshot.0, snapshot.1), (0, 0));
}

#[test]
fn liquidation_message() {
    let mut p = pool();
    p.mint(env_at(1, 0, 0), 1000 * ONE, true, Ok(()), Ok(())).unwrap();
    p.borrow(env_at(1, 1000 * ONE, 0), 500 * ONE, true, Ok(()), Ok(())).unwrap();
    assert_eq!(
        p.liquidate_borrow(env_at(3, 500 * ONE, 0), acc(1), 10 * ONE, acc(101), Err(Error::InterestRateModelIsNotSet), replies()),
        Err(Error::InterestRateModelIsNotSet)
    );
    assert!(p.liquidate_borrow(env_at(3, 500 * ONE, 0), acc(1), 10 * ONE, acc(101), Ok(()), replies()).is_ok());
    assert_eq!(p._borrow_balance_stored(acc(1)), 490 * ONE);
    assert!(p.seize(env_at(101, 500 * ONE, 0), acc(3), acc(1), 10 * ONE, true, Ok(())).is_ok());
    assert_eq!(p.token._balance_of(&acc(1)), 990 * ONE);
}

#[test]
fn flash_loan_entry_points() {
    let mut p = pool();
    assert_eq!(
        p.transfer_underlying(env_at(5, 100, 0), Some(acc(6)), Ok(())),
        Err(Error::CallerIsNotFlashloanGateway)
    );
    assert!(p.transfer_underlying(env_at(5, 100, 0), Some(acc(5)), Ok(())).is_ok());
    assert!(p.borrow_for_flashloan(env_at(5, 100, 0), Some(acc(5)), acc(2), 50, true, Ok(())).is_ok());
    assert_eq!(p._borrow_balance_stored(acc(2)), 50);
}

#[test]
fn liquidation_asks_for_the_repaid_amount_at_the_collateral_rate() {
    let mut p = pool();
    p.decimals = 6;
    minted(&mut p, 1, 1000 * ONE);
    p._borrow(env(1, 1000 * ONE), acc(1), 500 * ONE, true, true, Ok(()), Ok(())).unwrap();
    let other = PoolAttributesForSeizeCalculation { underlying: Some(acc(61)), decimals: 8 };
    // The collateral is this pool: its own rate (cash 500 + borrows 500 over 1000 tokens) and attributes.
    let (calc, seize) = p.liquidation_requests(
        env(3, 500 * ONE), acc(3), acc(1), 100 * ONE, acc(100), WrappedU256::from_u128(7), other, 42,
    );
    assert_eq!(calc.pool_borrowed, acc(100));
    assert_eq!(calc.pool_collateral, acc(100));
    assert_eq!(calc.actual_repay_amount, 100 * ONE);
    assert_eq!(calc.exchange_rate_mantissa.0.as_u128(), ONE);
    assert_eq!(calc.pool_borrowed_attributes.unwrap().underlying, Some(acc(51)));
    assert_eq!(calc.pool_borrowed_attributes.unwrap().decimals, 6);
    assert_eq!(calc.pool_collateral_attributes.unwrap().decimals, 6);
    assert_eq!(seize, SeizeRequest { pool: acc(100), liquidator: acc(3), borrower: acc(1), seize_tokens: 42 });
    // Another collateral pool: its answers, and a repayment capped at the debt.
    let (calc, seize) = p.liquidation_requests(
        env(3, 500 * ONE), acc(3), acc(1), 800 * ONE, acc(101), WrappedU256::from_u128(7), other, 42,
    );
    assert_eq!(calc.pool_collateral, acc(101));
    assert_eq!(calc.actual_repay_amount, 500 * ONE);
    assert_eq!(calc.exchange_rate_mantissa.0.as_u128(), 7);
    assert_eq!(calc.pool_collateral_attributes.unwrap().underlying, Some(acc(61)));
    assert_eq!(calc.pool_collateral_attributes.unwrap().decimals, 8);
    assert_eq!(seize.pool, acc(101));
}

#[test]
fn balance_of_counts_in_the_underlying() {
    let mut p = pool();
    minted(&mut p, 1, 1000);
    assert_eq!(p.token._balance_of(&acc(1)), 1000);
    // Exchange rate one while nothing is borrowed.
    assert_eq!(p.balance_of(env(1, 1000), acc(1)), 1000);
    // Cash 1000, borrows 500 over 1000 tokens: a rate of 1.5.
    p.total_borrows = 500;
    assert_eq!(p.balance_of(env(1, 1000), acc(1)), 1500);
    assert_eq!(p.balance_of_underlying(env(1, 1000), acc(1)), 1500);
    assert_eq!(p.balance_of(env(1, 1000), acc(2)), 0);
}

#[test]
fn a_pool_made_from_its_asset_is_named_after_it() {
    let p = Data::new_from_asset(
        None,
        acc(51),
        acc(50),
        acc(52),
        acc(9),
        WrappedU256::from_u128(ONE),
        8500,
        Some("Wrapped ASTR".to_string()),
        Some("WASTR".to_string()),
        18,
        5,
    );
    assert_eq!(p.token_name(), Some("Starlay Wrapped ASTR".to_string()));
    assert_eq!(p.token_symbol(), Some("sWASTR".to_string()));
    assert_eq!(p.decimals, 18);
    assert_eq!(p.underlying, Some(acc(51)));
    assert_eq!(p.liquidation_threshold, 8500);
    assert_eq!(p.accrual_block_number, 5);
    let q = Data::new(None, acc(51), acc(50), acc(52), acc(9), WrappedU256::from_u128(ONE), 8500, "Pool".to_string(), "P".to_string(), 6, 0);
    assert_eq!(q.token_name(), Some("Pool".to_string()));
    assert_eq!(q.token_symbol(), Some("P".to_string()));
    assert_eq!(q.decimals, 6);
}

#[test]
fn the_underlying_moves_between_the_pool_and_its_users() {
    let e = env(2, 1000);
    assert_eq!(Data::mint_transfer(e, 70), UnderlyingTransfer { from: acc(2), to: acc(100), amount: 70 });
    assert_eq!(Data::redeem_transfer(e, acc(4), 30), UnderlyingTransfer { from: acc(100), to: acc(4), amount: 30 });
    assert_eq!(Data::borrow_transfer(e, 40, true), Some(UnderlyingTransfer { from: acc(100), to: acc(2), amount: 40 }));
    assert_eq!(Data::borrow_transfer(e, 40, false), None);
    let mut p = pool();
    p._borrow(env(1, 1000), acc(1), 300, true, true, Ok(()), Ok(())).unwrap();
    assert_eq!(p.repay_transfer(e, acc(3), acc(1), 100), UnderlyingTransfer { from: acc(3), to: acc(100), amount: 100 });
    assert_eq!(p.repay_transfer(e, acc(3), acc(1), 1000), UnderlyingTransfer { from: acc(3), to: acc(100), amount: 300 });
}

#[test]
fn a_snapshot_without_collateral_still_reports_the_debt() {
    let mut p = pool();
    minted(&mut p, 1, 1000);
    p._borrow(env(1, 1000), acc(1), 300, true, true, Ok(()), Ok(())).unwrap();
    assert_eq!(p.account_snapshot(env(1, 700), acc(1)).0, 1000);
    p._set_use_reserve_as_collateral(acc(1), false);
    let (balance, debt, _) = p.account_snapshot(env(1, 700), acc(1));
    assert_eq!((balance, debt), (0, 300));
}

#[test]
fn borrowing_and_liquidating_need_a_fresh_pool() {
    let mut p = pool();
    minted(&mut p, 1, 1000 * ONE);
    p.accrual_block_number = 3;
    assert_eq!(
        p._borrow(env(2, 1000), acc(2), 300, true, true, Ok(()), Ok(())),
        Err(Error::AccrualBlockNumberIsNotFresh)
    );
    assert_eq!(
        p._liquidate_borrow(env(3, 500 * ONE), acc(3), acc(1), 100 * ONE, acc(100), replies()),
        Err(Error::AccrualBlockNumberIsNotFresh)
    );
    assert_eq!(p.total_borrows, 0);
}

#[test]
fn asset_operations_are_reported() {
    let mut p = pool();
    p.initial_exchange_rate_mantissa = WrappedU256::from_u128(2 * ONE);
    assert_eq!(
        p.mint_event(env(1, 0), acc(1), 100),
        Event::Mint { minter: acc(1), mint_amount: 100, mint_tokens: 50 }
    );
    assert_eq!(Data::redeem_event(acc(1), 30), Event::Redeem { redeemer: acc(1), redeem_amount: 30 });
    assert_eq!(
        p.borrow_event(acc(2), 300),
        Event::Borrow { borrower: acc(2), borrow_amount: 300, account_borrows: 300, total_borrows: 300 }
    );
    p._borrow(env(2, 1000), acc(2), 300, true, true, Ok(()), Ok(())).unwrap();
    assert_eq!(
        p.borrow_event(acc(2), 50),
        Event::Borrow { borrower: acc(2), borrow_amount: 50, account_borrows: 350, total_borrows: 350 }
    );
    assert_eq!(
        p.repay_borrow_event(acc(3), acc(2), 1000),
        Event::RepayBorrow { payer: acc(3), borrower: acc(2), repay_amount: 300, account_borrows: 0, total_borrows: 0 }
    );
    assert_eq!(
        p.repay_borrow_event(acc(3), acc(2), 100),
        Event::RepayBorrow { payer: acc(3), borrower: acc(2), repay_amount: 100, account_borrows: 200, total_borrows: 200 }
    );
    assert_eq!(
        p.liquidate_borrow_event(acc(3), acc(2), 500, acc(101), 7),
        Event::LiquidateBorrow { liquidator: acc(3), borrower: acc(2), repay_amount: 300, token_collateral: acc(101), seize_tokens: 7 }
    );
}
