use starlay_lending::account::AccountId;
use starlay_lending::controller::{Data, Error, MarketListed};
use starlay_lending::types::WrappedU256;

const ONE: u128 = 1_000_000_000_000_000_000;

fn acc(b: u8) -> AccountId {
    AccountId::new([b; 32])
}

fn controller() -> Data {
    let mut c = Data::default();
    c.manager = Some(acc(9));
    c
}

#[test]
fn a_market_is_listed_once() {
    let mut c = controller();
    assert!(c.support_market(acc(9), acc(1), acc(11)).is_ok());
    assert!(c.is_listed(acc(1)));
    assert_eq!(c.markets().len(), 1);
    assert_eq!(c.support_market(acc(9), acc(1), acc(12)), Err(Error::MarketAlreadyListed));
    // The same underlying cannot be listed under another pool either.
    assert_eq!(c.support_market(acc(9), acc(2), acc(11)), Err(Error::MarketAlreadyListed));
    assert_eq!(c.market_of_underlying(acc(11)), Some(acc(1)));
    assert_eq!(c.underlying_of_market(acc(1)), Some(acc(11)));
    assert_eq!(c.support_market(acc(8), acc(3), acc(13)), Err(Error::CallerIsNotManager));
}

#[test]
fn at_most_eight_markets() {
    let mut c = controller();
    for i in 0..8u8 {
        assert!(c.support_market(acc(9), acc(20 + i), acc(40 + i)).is_ok());
    }
    assert_eq!(c.support_market(acc(9), acc(30), acc(60)), Err(Error::MarketCountReachedToMaximum));
}

#[test]
fn minting_follows_the_guardian() {
    let mut c = controller();
    assert_eq!(c._mint_allowed(acc(1), acc(5), 1), Err(Error::MintIsPaused));
    c.support_market(acc(9), acc(1), acc(11)).unwrap();
    assert_eq!(c._mint_allowed(acc(1), acc(5), 1), Ok(()));
    c.set_mint_guardian_paused(acc(9), acc(1), true).unwrap();
    assert_eq!(c._mint_allowed(acc(1), acc(5), 1), Err(Error::MintIsPaused));
    assert_eq!(c.mint_guardian_paused(acc(1)), Some(true));
}

#[test]
fn seizing_needs_listed_markets_and_no_pause() {
    let mut c = controller();
    c.support_market(acc(9), acc(1), acc(11)).unwrap();
    assert_eq!(c._seize_allowed(acc(1), acc(2), acc(5), acc(6), 1), Err(Error::MarketNotListed));
    c.support_market(acc(9), acc(2), acc(12)).unwrap();
    assert_eq!(c._seize_allowed(acc(1), acc(2), acc(5), acc(6), 1), Ok(()));
    c.set_seize_guardian_paused(acc(9), true).unwrap();
    assert_eq!(c._seize_allowed(acc(1), acc(2), acc(5), acc(6), 1), Err(Error::SeizeIsPaused));
}

#[test]
fn controller_manager_hands_over_in_two_steps() {
    let mut c = controller();
    assert_eq!(c.set_manager(acc(8), acc(8)), Err(Error::CallerIsNotManager));
    c.set_manager(acc(9), acc(8)).unwrap();
    assert_eq!(c.accept_manager(acc(7)), Err(Error::CallerIsNotPendingManager));
    c.accept_manager(acc(8)).unwrap();
    assert_eq!(c.manager, Some(acc(8)));
    assert_eq!(c.set_price_oracle(acc(9), acc(30)), Err(Error::CallerIsNotManager));
    assert!(c.set_price_oracle(acc(8), acc(30)).is_ok());
    assert_eq!(c.oracle, Some(acc(30)));
}

#[test]
fn collateral_factor_is_checked() {
    let mut c = controller();
    c.support_market(acc(9), acc(1), acc(11)).unwrap();
    // Zero or above 90% is refused.
    assert_eq!(
        c.set_collateral_factor_mantissa(acc(9), acc(1), WrappedU256::from_u128(0), 10000, Some(ONE)),
        Err(Error::InvalidCollateralFactor)
    );
    assert_eq!(
        c.set_collateral_factor_mantissa(acc(9), acc(1), WrappedU256::from_u128(95 * ONE / 100), 10000, Some(ONE)),
        Err(Error::InvalidCollateralFactor)
    );
    // Without an oracle, or without a price, it is refused too.
    assert_eq!(
        c.set_collateral_factor_mantissa(acc(9), acc(1), WrappedU256::from_u128(ONE / 2), 10000, Some(ONE)),
        Err(Error::OracleIsNotSet)
    );
    c.set_price_oracle(acc(9), acc(30)).unwrap();
    assert_eq!(
        c.set_collateral_factor_mantissa(acc(9), acc(1), WrappedU256::from_u128(ONE / 2), 10000, None),
        Err(Error::PriceError)
    );
    assert!(c.set_collateral_factor_mantissa(acc(9), acc(1), WrappedU256::from_u128(ONE / 2), 10000, Some(ONE)).is_ok());
    assert_eq!(c.collateral_factor_mantissa(acc(1)).unwrap().0.as_u128(), ONE / 2);
}

fn bob_controller() -> Data {
    Data::new(acc(0x0b))
}

#[test]
fn tests_new_works() {
    let c = bob_controller();
    assert_eq!(c.markets(), Vec::new());
    assert!(!c.seize_guardian_paused);
    assert!(!c.transfer_guardian_paused);
    assert_eq!(c.oracle, None);
    assert_eq!(c.manager, Some(acc(0x0b)));
    assert_eq!(c.close_factor_mantissa.0.as_u128(), 0);
    assert_eq!(c.liquidation_incentive_mantissa.0.as_u128(), 0);
}

#[test]
fn mint_allowed_works() {
    let mut c = bob_controller();
    let pool = acc(0x01);
    let underlying = acc(0x01);
    assert!(c.support_market(acc(0x0b), pool, underlying).is_ok());
    assert!(c._mint_allowed(pool, acc(0x0b), 0).is_ok());
}

#[test]
fn mint_allowed_fail_when_not_supported() {
    let c = bob_controller();
    assert_eq!(c._mint_allowed(acc(0x01), acc(0x0b), 0), Err(Error::MintIsPaused));
}

#[test]
fn mint_allowed_fail_when_paused() {
    let mut c = bob_controller();
    let pool = acc(0x01);
    assert!(c.support_market(acc(0x0b), pool, acc(0x01)).is_ok());
    assert!(c.set_mint_guardian_paused(acc(0x0b), pool, true).is_ok());
    assert_eq!(c._mint_allowed(pool, acc(0x0b), 0), Err(Error::MintIsPaused));
}

#[test]
fn borrow_allowed_fail_when_not_supported() {
    let c = bob_controller();
    let pool = acc(0x01);
    assert_eq!(
        c._borrow_allowed(pool, pool, acc(0x0b), 0, None, None, 0, &Vec::new()),
        Err(Error::BorrowIsPaused)
    );
}

#[test]
fn borrow_allowed_fail_when_paused() {
    let mut c = bob_controller();
    let pool = acc(0x01);
    assert!(c.support_market(acc(0x0b), pool, acc(0x01)).is_ok());
    assert!(c.set_borrow_guardian_paused(acc(0x0b), pool, true).is_ok());
    assert_eq!(
        c._borrow_allowed(pool, pool, acc(0x0b), 0, None, None, 0, &Vec::new()),
        Err(Error::BorrowIsPaused)
    );
}

#[test]
fn borrowing_from_an_unlisted_pool_with_its_flag_unpaused_is_refused() {
    let mut c = bob_controller();
    let pool = acc(0x01);
    assert!(c.set_borrow_guardian_paused(acc(0x0b), pool, false).is_ok());
    assert_eq!(
        c._borrow_allowed(pool, pool, acc(0x0b), 0, None, None, 0, &Vec::new()),
        Err(Error::MarketNotListed)
    );
}

#[test]
fn liquidate_borrow_allowed_fail() {
    let mut c = bob_controller();
    let pool1 = acc(0x01);
    let pool2 = acc(0x02);
    let borrower = acc(0x04);
    assert_eq!(
        c._liquidate_borrow_allowed(pool1, pool1, pool2, borrower, borrower, 0, None, None, 0, &Vec::new()),
        Err(Error::MarketNotListed)
    );
    assert!(c.support_market(acc(0x0b), pool1, acc(0x01)).is_ok());
    assert_eq!(
        c._liquidate_borrow_allowed(pool1, pool1, pool2, borrower, borrower, 0, None, None, 0, &Vec::new()),
        Err(Error::MarketNotListed)
    );
}

#[test]
fn seize_allowed_fail() {
    let mut c = bob_controller();
    let pool1 = acc(0x01);
    let pool2 = acc(0x02);
    let borrower = acc(0x04);
    assert_eq!(c._seize_allowed(pool1, pool2, borrower, borrower, 0), Err(Error::MarketNotListed));
    assert!(c.support_market(acc(0x0b), pool1, acc(0x01)).is_ok());
    assert_eq!(c._seize_allowed(pool1, pool2, borrower, borrower, 0), Err(Error::MarketNotListed));
}

#[test]
fn tests_support_market_works() {
    let mut c = bob_controller();
    let p1 = acc(0x01);
    assert!(c.support_market(acc(0x0b), p1, acc(0x01)).is_ok());
    assert_eq!(c.markets(), vec![p1]);
    assert!(c.collateral_factor_mantissa(p1).is_none());
    assert_eq!(c.mint_guardian_paused(p1), Some(false));
    assert_eq!(c.borrow_guardian_paused(p1), Some(false));
    assert_eq!(c.borrow_cap(p1), Some(0));
    let p2 = acc(0x02);
    assert!(c.support_market(acc(0x0b), p2, acc(0x02)).is_ok());
    assert_eq!(c.markets(), vec![p1, p2]);
}

#[test]
fn support_market_fails_when_duplicate() {
    let mut c = bob_controller();
    let p1 = acc(0x01);
    assert!(c.support_market(acc(0x0b), p1, acc(0x01)).is_ok());
    assert_eq!(c.support_market(acc(0x0b), p1, acc(0x01)), Err(Error::MarketAlreadyListed));
}

#[test]
fn support_market_with_collateral_factor_mantissa_fails_when_collateral_factor_is_zero() {
    let mut c = bob_controller();
    let p1 = acc(0x01);
    let underlying = acc(0x01);
    assert_eq!(
        c.support_market_with_collateral_factor_mantissa(acc(0x0b), p1, underlying, WrappedU256::from_u128(0), 10000, None),
        Err(Error::InvalidCollateralFactor)
    );
    assert_eq!(c.markets(), Vec::new());
    assert!(!c.is_listed(p1));
    assert_eq!(c.market_of_underlying(underlying), None);
}

#[test]
fn set_collateral_factor_mantissa_fail_when_invalid_value() {
    let mut c = bob_controller();
    let pool = acc(0x01);
    assert!(c.collateral_factor_mantissa(pool).is_none());
    let max = ONE * 90 / 100;
    assert_eq!(
        c.set_collateral_factor_mantissa(acc(0x0b), pool, WrappedU256::from_u128(0), 10000, None),
        Err(Error::InvalidCollateralFactor)
    );
    assert_eq!(
        c.set_collateral_factor_mantissa(acc(0x0b), pool, WrappedU256::from_u128(max + 1), 10000, None),
        Err(Error::InvalidCollateralFactor)
    );
    assert!(c.collateral_factor_mantissa(pool).is_none());
}

#[test]
fn mint_guardian_paused_works() {
    let mut c = bob_controller();
    let pool = acc(0x01);
    assert_eq!(c.mint_guardian_paused(pool), None);
    assert!(c.support_market(acc(0x0b), pool, acc(0x01)).is_ok());
    assert_eq!(c.mint_guardian_paused(pool), Some(false));
    assert!(c.set_mint_guardian_paused(acc(0x0b), pool, true).is_ok());
    assert_eq!(c.mint_guardian_paused(pool), Some(true));
    assert!(c.set_mint_guardian_paused(acc(0x0b), pool, false).is_ok());
    assert_eq!(c.mint_guardian_paused(pool), Some(false));
}

#[test]
fn borrow_guardian_paused_works() {
    let mut c = bob_controller();
    let pool = acc(0x01);
    assert_eq!(c.borrow_guardian_paused(pool), None);
    assert!(c.support_market(acc(0x0b), pool, acc(0x01)).is_ok());
    assert_eq!(c.mint_guardian_paused(pool), Some(false));
    assert!(c.set_borrow_guardian_paused(acc(0x0b), pool, true).is_ok());
    assert_eq!(c.borrow_guardian_paused(pool), Some(true));
    assert!(c.set_borrow_guardian_paused(acc(0x0b), pool, false).is_ok());
    assert_eq!(c.borrow_guardian_paused(pool), Some(false));
}

#[test]
fn seize_guardian_paused_works() {
    let mut c = bob_controller();
    assert!(!c.seize_guardian_paused);
    assert!(c.set_seize_guardian_paused(acc(0x0b), true).is_ok());
    assert!(c.seize_guardian_paused);
}

#[test]
fn transfer_guardian_paused_works() {
    let mut c = bob_controller();
    assert!(!c.transfer_guardian_paused);
    assert!(c.set_transfer_guardian_paused(acc(0x0b), true).is_ok());
    assert!(c.transfer_guardian_paused);
}

#[test]
fn tests_assert_manager_works() {
    let mut c = bob_controller();
    let charlie = acc(0x0c);
    let dummy_id = acc(0xff);
    let underlying = acc(0x01);
    let zero = WrappedU256::from_u128(0);
    let results = vec![
        c.set_price_oracle(charlie, dummy_id),
        c.support_market(charlie, dummy_id, underlying),
        c.set_manager(charlie, dummy_id),
        c.support_market_with_collateral_factor_mantissa(charlie, dummy_id, underlying, zero, 10000, None),
        c.set_collateral_factor_mantissa(charlie, dummy_id, zero, 10000, None),
        c.set_mint_guardian_paused(charlie, dummy_id, true),
        c.set_borrow_guardian_paused(charlie, dummy_id, true),
        c.set_seize_guardian_paused(charlie, true),
        c.set_transfer_guardian_paused(charlie, true),
        c.set_close_factor_mantissa(charlie, zero),
        c.set_liquidation_incentive_mantissa(charlie, zero),
        c.set_borrow_cap(charlie, dummy_id, 0),
    ];
    for r in results {
        assert_eq!(r, Err(Error::CallerIsNotManager));
    }
    assert_eq!(c.markets(), Vec::new());
    assert_eq!(c.oracle, None);
    assert_eq!(c.pending_manager, None);
    assert_eq!(c.mint_guardian_paused(dummy_id), None);
}

#[test]
fn tests_set_manager_works() {
    let mut c = bob_controller();
    let alice = acc(0x0a);
    c.set_manager(acc(0x0b), alice).unwrap();
    assert_eq!(c.pending_manager, Some(alice));
}

#[test]
fn tests_accept_manager_not_works() {
    let mut c = bob_controller();
    assert_eq!(c.accept_manager(acc(0x0b)), Err(Error::PendingManagerIsNotSet));
}

#[test]
fn tests_accept_manager_works() {
    let mut c = bob_controller();
    let alice = acc(0x0a);
    c.set_manager(acc(0x0b), alice).unwrap();
    c.accept_manager(alice).unwrap();
    assert_eq!(c.pending_manager, None);
    assert_eq!(c.manager, Some(alice));
}

#[test]
fn a_borrow_reaching_the_cap_is_refused() {
    let mut c = bob_controller();
    let pool = acc(0x01);
    assert!(c.support_market(acc(0x0b), pool, acc(0x01)).is_ok());
    assert!(c.set_price_oracle(acc(0x0b), acc(0x30)).is_ok());
    assert!(c.set_borrow_cap(acc(0x0b), pool, 100).is_ok());
    // Total borrows 60: borrowing 40 reaches the cap, 39 stays below it.
    assert_eq!(
        c._borrow_allowed(pool, pool, acc(0x0b), 40, None, Some(ONE), 60, &Vec::new()),
        Err(Error::BorrowCapReached)
    );
    assert_eq!(
        c._borrow_allowed(pool, pool, acc(0x0b), 100, None, Some(ONE), 0, &Vec::new()),
        Err(Error::BorrowCapReached)
    );
    assert_eq!(c._borrow_allowed(pool, pool, acc(0x0b), 39, None, Some(ONE), 60, &Vec::new()), Ok(()));
}

#[test]
fn a_listing_is_reported() {
    assert_eq!(Data::market_listed_event(acc(0x01)), MarketListed { pool: acc(0x01) });
}
