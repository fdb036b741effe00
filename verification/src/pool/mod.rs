//! A lending pool: it holds one underlying asset, issues pool tokens to suppliers
//! and tracks what borrowers owe.

pub mod utils;

use vstd::prelude::*;
use vstd::string::StringExecFns;
use crate::controller::Error as ControllerError;
use crate::controller::PoolAttributes;
use crate::controller::PoolAttributesForSeizeCalculation;
use crate::psp22::{PSP22Error, LangError, Psp22Data, get_or_zero};
use crate::account::AccountId;
use crate::mapping::{Mapping, AllowancesKey};
use crate::types::WrappedU256;
use crate::u256::{U256, u256_max, u128_max};
use crate::exp::{Exp, exp_scale, exp_scale_spec};
use crate::controller::utils::{pow10, pow10_u128};
use self::utils::{
    calculate_interest, CalculateInterestInput, interest_accumulated_of, interest_factor_of,
    calculate_interest_fits, borrow_rate_max_spec, borrow_rate_max_mantissa, exchange_rate, protocol_seize_amount,
    protocol_seize_share_mantissa, protocol_seize_share_spec, reserve_factor_max_mantissa,
};

verus! {

/// Why a pool refused an action.
#[derive(Debug, PartialEq, Eq, Clone)]
pub enum Error {
    NotImplemented,
    InvalidParameter,
    OnlyEitherRedeemTokensOrRedeemAmountIsZero,
    BorrowCashNotAvailable,
    RedeemTransferOutNotPossible,
    LiquidateLiquidatorIsBorrower,
    LiquidateCloseAmountIsZero,
    AccrualBlockNumberIsNotFresh,
    LiquidateSeizeLiquidatorIsBorrower,
    ReduceReservesCashNotAvailable,
    ReduceReservesCashValidation,
    BorrowRateIsAbsurdlyHigh,
    SetReserveFactorBoundsCheck,
    CannotSweepUnderlyingToken,
    CallerIsNotManager,
    CallerIsNotPendingManager,
    ManagerIsNotSet,
    PendingManagerIsNotSet,
    ControllerIsNotSet,
    InterestRateModelIsNotSet,
    UnderlyingIsNotSet,
    InsufficientDelegateAllowance,
    CallerIsNotFlashloanGateway,
    InvalidLiquidationThreshold,
    ZeroOwnerAddress,
    ZeroDelegateeAddress,
    ReserveIsNotEnabledAsCollateral,
    AccrueRewardFailed,
    Controller(ControllerError),
    PSP22(PSP22Error),
    Lang(LangError),
}

/// The number of decimals of a collateral factor.
pub const COLLATERAL_FACTOR_MANTISSA_DECIMALS: u32 = 18;

/// The number of decimals of a liquidation threshold.
pub const LIQUIDATION_THRESHOLD_DECIMALS: u32 = 4;

/// What a borrower owed when it last borrowed or repaid, and the borrow index then.
#[derive(Clone, Copy, Debug)]
pub struct BorrowSnapshot {
    pub principal: u128,
    pub interest_index: WrappedU256,
}

/// The metadata of a pool.
#[derive(Clone, Copy, Debug)]
pub struct PoolMetaData {
    pub underlying: Option<AccountId>,
    pub decimals: u8,
    pub liquidation_threshold: u128,
}

/// The totals of a pool.
#[derive(Clone, Copy, Debug)]
pub struct PoolStatus {
    pub total_supply: u128,
    pub total_borrows: u128,
    pub exchange_rate: U256,
}

/// What the environment of a call tells the pool: who calls, the pool's own address,
/// the current block, the pool's balance of the underlying before the call moves any,
/// and the interest rate model's borrow rate for the pool's current balances.
#[derive(Clone, Copy, Debug)]
pub struct Env {
    pub caller: AccountId,
    pub contract: AccountId,
    pub block_number: u64,
    pub cash: u128,
    pub borrow_rate: WrappedU256,
}

/// What the other contracts answered in the course of a liquidation.
pub struct LiquidationReplies {
    /// The incentives controller, when there is one, recorded the action for the
    /// liquidator and the borrower.
    pub reward_ok: bool,
    /// The block up to which the collateral pool has accrued interest.
    pub collateral_accrual_block_number: u64,
    /// The controller's answer to the liquidation.
    pub allowed: Result<(), ControllerError>,
    /// The underlying token's answer to the repayment by the liquidator.
    pub received: Result<(), PSP22Error>,
    /// The controller's count of the collateral tokens to seize for the amount repaid.
    pub seize_tokens: Result<u128, ControllerError>,
    /// The controller's answer to a seizure of this pool's own tokens.
    pub seize_allowed: Result<(), ControllerError>,
    /// The controller of the collateral pool, when the collateral is another pool.
    pub collateral_controller: Option<AccountId>,
    /// The collateral pool's answer to the seizure, when the collateral is another pool.
    pub seized: Result<(), Error>,
}

/// What a pool asks the controller in a liquidation: the number of collateral pool
/// tokens worth the amount repaid, at the collateral pool's exchange rate.
#[derive(Clone, Copy, Debug)]
pub struct SeizeCalculationRequest {
    pub pool_borrowed: AccountId,
    pub pool_collateral: AccountId,
    pub exchange_rate_mantissa: WrappedU256,
    pub actual_repay_amount: u128,
    pub pool_borrowed_attributes: Option<PoolAttributesForSeizeCalculation>,
    pub pool_collateral_attributes: Option<PoolAttributesForSeizeCalculation>,
}

/// What a pool reports after an operation on assets.
#[derive(Clone, Copy, Debug, PartialEq, Eq, Structural)]
pub enum Event {
    Mint { minter: AccountId, mint_amount: u128, mint_tokens: u128 },
    Redeem { redeemer: AccountId, redeem_amount: u128 },
    Borrow { borrower: AccountId, borrow_amount: u128, account_borrows: u128, total_borrows: u128 },
    RepayBorrow { payer: AccountId, borrower: AccountId, repay_amount: u128, account_borrows: u128, total_borrows: u128 },
    LiquidateBorrow { liquidator: AccountId, borrower: AccountId, repay_amount: u128, token_collateral: AccountId, seize_tokens: u128 },
}

/// A transfer of the underlying that a pool asks of the underlying token.
#[derive(Clone, Copy, Debug, PartialEq, Eq, Structural)]
pub struct UnderlyingTransfer {
    pub from: AccountId,
    pub to: AccountId,
    pub amount: u128,
}

/// What a pool asks the collateral pool in a liquidation: to move `seize_tokens` of
/// `borrower`'s pool tokens to `liquidator`.
#[derive(Clone, Copy, Debug, PartialEq, Eq, Structural)]
pub struct SeizeRequest {
    pub pool: AccountId,
    pub liquidator: AccountId,
    pub borrower: AccountId,
    pub seize_tokens: u128,
}

/// The pool's storage, with its pool-token ledger.
pub struct Data {
    /// AccountId of underlying asset
    pub underlying: Option<AccountId>,
    /// AccountId of Controller managing this pool
    pub controller: Option<AccountId>,
    /// AccountId of Manager, the administrator of this pool
    pub manager: Option<AccountId>,
    /// AccountId of Pending Manager use for transfer manager role
    pub pending_manager: Option<AccountId>,
    /// AccountId of incentives conroller
    pub incentives_controller: Option<AccountId>,
    /// AccountId of Rate Model
    pub rate_model: Option<AccountId>,
    /// Total borrows
    pub total_borrows: u128,
    /// Total reserves
    pub total_reserves: u128,
    /// Borrow balance for accounts
    pub account_borrows: Mapping<AccountId, BorrowSnapshot>,
    /// Last block number of interest calculation process execution
    pub accrual_block_number: u64,
    /// Borrow index for interests
    pub borrow_index: WrappedU256,
    /// Initial exchange_rate, Used if never called
    pub initial_exchange_rate_mantissa: WrappedU256,
    /// Maximum fraction of interest that can be set aside for reserves
    pub reserve_factor_mantissa: WrappedU256,
    /// Liquidation Threshold (Decimals: 4)
    pub liquidation_threshold: u128,
    /// Delegation Allowance for borrowing
    pub delegate_allowance: Mapping<AllowancesKey, u128>,
    /// Represent if user is using his reserve as collateral or not
    pub using_reserve_as_collateral: Mapping<AccountId, bool>,
    /// The pool token: balances, allowances and supply
    pub token: Psp22Data,
    /// The name of the pool token
    pub name: Option<String>,
    /// The symbol of the pool token
    pub symbol: Option<String>,
    /// The decimals of the pool token
    pub decimals: u8,
}

impl Data {
    /// The storage is well formed: mappings hold distinct keys, and every recorded
    /// borrow has a positive index to scale it by.
    pub open spec fn wf(&self) -> bool {
        &&& self.account_borrows.wf()
        &&& self.delegate_allowance.wf()
        &&& self.using_reserve_as_collateral.wf()
        &&& self.token.wf()
        &&& self.borrow_index@ > 0
        &&& forall|a: AccountId| #[trigger] self.account_borrows.view().contains_key(a)
            ==> self.account_borrows.view()[a].interest_index@ > 0
    }

    /// The storage of a fresh pool: index one, liquidation threshold 100%, nothing
    /// borrowed or supplied.
    pub fn default() -> (r: Data)
        ensures
            r.wf(),
            r.borrow_index@ == exp_scale_spec(),
            r.liquidation_threshold == 10000,
            r.total_borrows == 0,
            r.total_reserves == 0,
            r.accrual_block_number == 0,
            r.token.supply == 0,
            r.initial_exchange_rate_mantissa@ == 0,
            r.reserve_factor_mantissa@ == 0,
            r.underlying.is_none() && r.controller.is_none() && r.manager.is_none()
                && r.pending_manager.is_none() && r.rate_model.is_none()
                && r.incentives_controller.is_none(),
            r.account_borrows.view() == Map::<AccountId, BorrowSnapshot>::empty(),
            r.delegate_allowance.view() == Map::<AllowancesKey, u128>::empty(),
            r.using_reserve_as_collateral.view() == Map::<AccountId, bool>::empty(),
            r.token.balances.view() == Map::<AccountId, u128>::empty(),
            r.token.allowances.view() == Map::<AllowancesKey, u128>::empty(),
            r.name.is_none() && r.symbol.is_none(),
            r.decimals == 0,
    {
        Data {
            underlying: None,
            controller: None,
            manager: None,
            pending_manager: None,
            rate_model: None,
            incentives_controller: None,
            total_borrows: 0,
            total_reserves: 0,
            account_borrows: Mapping::new(),
            delegate_allowance: Mapping::new(),
            accrual_block_number: 0,
            borrow_index: WrappedU256(exp_scale()),
            initial_exchange_rate_mantissa: WrappedU256::zero(),
            reserve_factor_mantissa: WrappedU256::zero(),
            liquidation_threshold: 10000,
            using_reserve_as_collateral: Mapping::new(),
            token: Psp22Data::new(),
            name: None,
            symbol: None,
            decimals: 0,
        }
    }

    /// A pool for `underlying`, created at block `block_number`; the addresses it
    /// is given must not be the zero address.
    pub fn new(
        incentives_controller: Option<AccountId>,
        underlying: AccountId,
        controller: AccountId,
        rate_model: AccountId,
        manager: AccountId,
        initial_exchange_rate_mantissa: WrappedU256,
        liquidation_threshold: u128,
        name: String,
        symbol: String,
        decimals: u8,
        block_number: u64,
    ) -> (r: Data)
        requires
            !underlying.is_zero_spec(),
            !controller.is_zero_spec(),
            !rate_model.is_zero_spec(),
            incentives_controller matches Some(i) ==> !i.is_zero_spec(),
        ensures
            r.wf(),
            r.incentives_controller == incentives_controller,
            r.underlying == Some(underlying),
            r.controller == Some(controller),
            r.rate_model == Some(rate_model),
            r.manager == Some(manager),
            r.pending_manager.is_none(),
            r.initial_exchange_rate_mantissa == initial_exchange_rate_mantissa,
            r.liquidation_threshold == liquidation_threshold,
            r.name == Some(name),
            r.symbol == Some(symbol),
            r.decimals == decimals,
            r.accrual_block_number == block_number,
            r.borrow_index@ == exp_scale_spec(),
            r.total_borrows == 0 && r.total_reserves == 0 && r.token.supply == 0,
            r.reserve_factor_mantissa@ == 0,
    {
        let mut instance = Data::default();
        instance.incentives_controller = incentives_controller;
        instance.underlying = Some(underlying);
        instance.controller = Some(controller);
        instance.manager = Some(manager);
        instance.rate_model = Some(rate_model);
        instance.initial_exchange_rate_mantissa = initial_exchange_rate_mantissa;
        instance.liquidation_threshold = liquidation_threshold;
        instance.accrual_block_number = block_number;
        instance.name = Some(name);
        instance.symbol = Some(symbol);
        instance.decimals = decimals;
        instance
    }

    /// A pool for `underlying` named after it: `base_name`, `base_symbol` and
    /// `decimals` are the underlying token's metadata; the pool token is called
    /// "Starlay " and the underlying's name, its symbol is "s" and the underlying's
    /// symbol, and it has the underlying's decimals. The underlying must have a name
    /// and a symbol.
    pub fn new_from_asset(
        incentives_controller: Option<AccountId>,
        underlying: AccountId,
        controller: AccountId,
        rate_model: AccountId,
        manager: AccountId,
        initial_exchange_rate_mantissa: WrappedU256,
        liquidation_threshold: u128,
        base_name: Option<String>,
        base_symbol: Option<String>,
        decimals: u8,
        block_number: u64,
    ) -> (r: Data)
        requires
            !underlying.is_zero_spec(),
            !controller.is_zero_spec(),
            !rate_model.is_zero_spec(),
            incentives_controller matches Some(i) ==> !i.is_zero_spec(),
            base_name.is_some(),
            base_symbol.is_some(),
        ensures
            r.wf(),
            r.incentives_controller == incentives_controller,
            r.underlying == Some(underlying),
            r.controller == Some(controller),
            r.rate_model == Some(rate_model),
            r.manager == Some(manager),
            r.pending_manager.is_none(),
            r.initial_exchange_rate_mantissa == initial_exchange_rate_mantissa,
            r.liquidation_threshold == liquidation_threshold,
            r.name matches Some(n) && n@ == "Starlay "@ + base_name.unwrap()@,
            r.symbol matches Some(s) && s@ == "s"@ + base_symbol.unwrap()@,
            r.decimals == decimals,
            r.accrual_block_number == block_number,
            r.borrow_index@ == exp_scale_spec(),
            r.total_borrows == 0 && r.total_reserves == 0 && r.token.supply == 0,
            r.reserve_factor_mantissa@ == 0,
    {
        let base_name = base_name.unwrap();
        let base_symbol = base_symbol.unwrap();
        let name = "Starlay ".to_owned().concat(base_name.as_str());
        let symbol = "s".to_owned().concat(base_symbol.as_str());
        Data::new(
            incentives_controller,
            underlying,
            controller,
            rate_model,
            manager,
            initial_exchange_rate_mantissa,
            liquidation_threshold,
            name,
            symbol,
            decimals,
            block_number,
        )
    }

    /// The name of the pool token.
    pub fn token_name(&self) -> (r: Option<String>)
        ensures
            r == self.name,
    {
        match &self.name {
            Some(n) => Some(n.clone()),
            None => None,
        }
    }

    /// The symbol of the pool token.
    pub fn token_symbol(&self) -> (r: Option<String>)
        ensures
            r == self.symbol,
    {
        match &self.symbol {
            Some(s) => Some(s.clone()),
            None => None,
        }
    }

    /// The recorded borrow of `account`: principal and index, zero when none.
    pub open spec fn snapshot_of(&self, account: AccountId) -> (nat, nat) {
        if self.account_borrows.view().contains_key(account) {
            let s = self.account_borrows.view()[account];
            (s.principal as nat, s.interest_index@)
        } else {
            (0, 0)
        }
    }

    /// What `account` owes now: its principal grown by the borrow index since it was
    /// recorded, `principal * borrow_index / interest_index`; zero without principal.
    pub open spec fn borrow_balance_spec(&self, account: AccountId) -> nat {
        let (principal, index) = self.snapshot_of(account);
        if principal == 0 {
            0
        } else {
            principal * self.borrow_index@ / index
        }
    }

    /// The arithmetic of `_borrow_balance_stored` stays within its types.
    pub open spec fn borrow_balance_fits(&self, account: AccountId) -> bool {
        let (principal, _) = self.snapshot_of(account);
        principal != 0 ==> principal * self.borrow_index@ <= u256_max()
            && self.borrow_balance_spec(account) <= u128_max()
    }

    pub fn _borrow_balance_stored(&self, account: AccountId) -> (r: u128)
        requires
            self.wf(),
            self.borrow_balance_fits(account),
        ensures
            r as nat == self.borrow_balance_spec(account),
    {
        let snapshot = match self.account_borrows.get(&account) {
            Some(s) => s,
            None => BorrowSnapshot { principal: 0, interest_index: WrappedU256::zero() },
        };
        if snapshot.principal == 0 {
            return 0;
        }
        let borrow_index = self.borrow_index;
        let principal_times_index = U256::from_u128(snapshot.principal).mul(borrow_index.0);
        principal_times_index.div(snapshot.interest_index.0).as_u128()
    }

    /// The exchange rate of pool tokens to the underlying when the pool holds `cash`;
    /// see `utils::exchange_rate`.
    pub open spec fn exchange_rate_spec(&self, cash: u128) -> nat {
        if self.token.supply == 0 {
            self.initial_exchange_rate_mantissa@
        } else {
            ((cash + self.total_borrows - self.total_reserves) as nat) * exp_scale_spec()
                / self.token.supply as nat
        }
    }

    /// The pool holds at least its reserves, so the exchange rate is defined.
    pub open spec fn exchange_rate_defined(&self, cash: u128) -> bool {
        self.token.supply != 0 ==> cash + self.total_borrows <= u128_max()
            && self.total_reserves <= cash + self.total_borrows
    }

    pub fn _exchange_rate_stored(&self, cash: u128) -> (r: U256)
        requires
            self.exchange_rate_defined(cash),
        ensures
            r@ == self.exchange_rate_spec(cash),
    {
        exchange_rate(
            self.token.supply,
            cash,
            self.total_borrows,
            self.total_reserves,
            self.initial_exchange_rate_mantissa.0,
        )
    }

    /// The input of an accrual up to `at` at `borrow_rate`.
    pub open spec fn accrual_input(&self, at: u64, borrow_rate: WrappedU256) -> CalculateInterestInput {
        CalculateInterestInput {
            total_borrows: self.total_borrows,
            total_reserves: self.total_reserves,
            borrow_index: self.borrow_index.0,
            borrow_rate: borrow_rate.0,
            old_block_timestamp: self.accrual_block_number,
            new_block_timestamp: at,
            reserve_factor_mantissa: self.reserve_factor_mantissa.0,
        }
    }

    /// The outcome of an accrual: nothing when already accrued at `at`; refused without
    /// an interest rate model or above the highest borrow rate.
    pub open spec fn accrue_spec(&self, at: u64, borrow_rate: WrappedU256) -> Result<(), Error> {
        if self.accrual_block_number == at {
            Ok(())
        } else if self.rate_model.is_none() {
            Err(Error::InterestRateModelIsNotSet)
        } else if borrow_rate@ > borrow_rate_max_spec() {
            Err(Error::BorrowRateIsAbsurdlyHigh)
        } else {
            Ok(())
        }
    }

    /// The state after a successful accrual up to `at` that was not already done:
    /// interest added to the total borrows, its reserve share to the reserves, the
    /// borrow index grown by the interest factor, and the accrual moved to `at`.
    pub open spec fn accrued(&self, after: &Data, at: u64, borrow_rate: WrappedU256) -> bool {
        let input = self.accrual_input(at, borrow_rate);
        let interest = interest_accumulated_of(&input);
        &&& after.accrual_block_number == at
        &&& after.total_borrows as nat == interest + self.total_borrows
        &&& after.total_reserves as nat == self.reserve_factor_mantissa@ * interest / exp_scale_spec()
            + self.total_reserves
        &&& after.borrow_index@ == interest_factor_of(&input) * self.borrow_index@ / exp_scale_spec()
            + self.borrow_index@
    }

    /// Everything but the accrual fields is the same.
    pub open spec fn same_but_accrual(&self, after: &Data) -> bool {
        *after == (Data {
            accrual_block_number: after.accrual_block_number,
            total_borrows: after.total_borrows,
            total_reserves: after.total_reserves,
            borrow_index: after.borrow_index,
            ..*self
        })
    }

    /// Accrues interest up to `at`, at the borrow rate the interest rate model gives.
    pub fn _accrue_interest_at(&mut self, at: u64, borrow_rate: WrappedU256) -> (r: Result<(), Error>)
        requires
            old(self).wf(),
            old(self).accrual_block_number != at && old(self).rate_model.is_some()
                && borrow_rate@ <= borrow_rate_max_spec() ==> calculate_interest_fits(&old(self).accrual_input(at, borrow_rate)),
        ensures
            final(self).wf(),
            r == old(self).accrue_spec(at, borrow_rate),
            r is Ok && old(self).accrual_block_number != at ==> old(self).accrued(&*final(self), at, borrow_rate)
                && old(self).same_but_accrual(&*final(self)),
            r is Err || old(self).accrual_block_number == at ==> *final(self) == *old(self),
            final(self).borrow_index@ >= old(self).borrow_index@,
    {
        let accrual_block_number_prior = self.accrual_block_number;
        if accrual_block_number_prior == at {
            return Ok(());
        }
        if self.rate_model.is_none() {
            return Err(Error::InterestRateModelIsNotSet);
        }
        let input = CalculateInterestInput {
            total_borrows: self.total_borrows,
            total_reserves: self.total_reserves,
            borrow_index: self.borrow_index.0,
            borrow_rate: borrow_rate.0,
            old_block_timestamp: self.accrual_block_number,
            new_block_timestamp: at,
            reserve_factor_mantissa: self.reserve_factor_mantissa.0,
        };
        let calculated_interest = calculate_interest(&input)?;
        self.accrual_block_number = at;
        self.borrow_index = WrappedU256(calculated_interest.borrow_index);
        self.total_borrows = calculated_interest.total_borrows;
        self.total_reserves = calculated_interest.total_reserves;
        Ok(())
    }

    /// Whether `account` uses its supply as collateral (false when never set).
    pub open spec fn collateral_enabled(&self, account: AccountId) -> bool {
        self.using_reserve_as_collateral.view().contains_key(account)
            && self.using_reserve_as_collateral.view()[account]
    }

    /// The collateral flags after setting `user`'s to `flag`: written only when it
    /// changes.
    pub open spec fn collateral_flags_after(&self, user: AccountId, flag: bool) -> Map<AccountId, bool> {
        if self.collateral_enabled(user) == flag {
            self.using_reserve_as_collateral.view()
        } else {
            self.using_reserve_as_collateral.view().insert(user, flag)
        }
    }

    pub fn _using_reserve_as_collateral(&self, user: AccountId) -> (r: Option<bool>)
        requires
            self.wf(),
        ensures
            r == (if self.using_reserve_as_collateral.view().contains_key(user) {
                Some(self.using_reserve_as_collateral.view()[user])
            } else {
                None::<bool>
            }),
    {
        self.using_reserve_as_collateral.get(&user)
    }

    /// Sets whether `user` uses its supply as collateral.
    pub fn _set_use_reserve_as_collateral(&mut self, user: AccountId, use_as_collateral: bool)
        requires
            old(self).wf(),
        ensures
            final(self).wf(),
            final(self).using_reserve_as_collateral.view() == old(self).collateral_flags_after(user, use_as_collateral),
            *final(self) == (Data { using_reserve_as_collateral: final(self).using_reserve_as_collateral, ..*old(self) }),
    {
        let current_using_as_collateral = match self.using_reserve_as_collateral.get(&user) {
            Some(b) => b,
            None => false,
        };
        if current_using_as_collateral == use_as_collateral {
            return;
        }
        self.using_reserve_as_collateral.insert(&user, &use_as_collateral);
    }

    /// The incentives controller, when there is one, refused to record the action.
    pub open spec fn reward_refused(&self, reward_ok: bool) -> bool {
        self.incentives_controller.is_some() && !reward_ok
    }

    /// The pool tokens minted for `mint_amount` of the underlying when the pool holds
    /// `cash`: `mint_amount / exchange_rate`.
    pub open spec fn minted_tokens(&self, cash: u128, mint_amount: u128) -> nat {
        (mint_amount as nat) * exp_scale_spec() / self.exchange_rate_spec(cash)
    }

    /// The refusals of `_mint` that come before any arithmetic, in order.
    pub open spec fn mint_checks(
        &self,
        env: Env,
        reward_ok: bool,
        allowed: Result<(), ControllerError>,
        transfer_in: Result<(), PSP22Error>,
    ) -> Result<(), Error> {
        if self.reward_refused(reward_ok) {
            Err(Error::AccrueRewardFailed)
        } else if self.controller.is_none() {
            Err(Error::ControllerIsNotSet)
        } else if allowed is Err {
            Err(Error::Controller(allowed->Err_0))
        } else if self.accrual_block_number != env.block_number {
            Err(Error::AccrualBlockNumberIsNotFresh)
        } else if transfer_in is Err {
            Err(Error::PSP22(transfer_in->Err_0))
        } else {
            Ok(())
        }
    }

    /// The refusals of `_mint`, in order.
    pub open spec fn mint_spec(
        &self,
        env: Env,
        minter: AccountId,
        reward_ok: bool,
        allowed: Result<(), ControllerError>,
        transfer_in: Result<(), PSP22Error>,
    ) -> Result<(), Error> {
        if self.mint_checks(env, reward_ok, allowed, transfer_in) is Err {
            self.mint_checks(env, reward_ok, allowed, transfer_in)
        } else if minter.is_zero_spec() {
            Err(Error::PSP22(PSP22Error::ZeroRecipientAddress))
        } else {
            Ok(())
        }
    }

    /// The arithmetic of `_mint` stays within its types once the checks before it pass.
    pub open spec fn mint_fits(&self, env: Env, minter: AccountId, mint_amount: u128) -> bool {
        &&& self.exchange_rate_defined(env.cash)
        &&& self.exchange_rate_spec(env.cash) != 0
        &&& self.minted_tokens(env.cash, mint_amount) <= u128_max()
        &&& self.token.supply + self.minted_tokens(env.cash, mint_amount) <= u128_max()
        &&& self.token.balance_spec(minter) + self.minted_tokens(env.cash, mint_amount) <= u128_max()
    }

    /// The pool tokens that `mint_amount` of the underlying buys at the exchange rate
    /// for `cash`.
    pub fn mint_tokens(&self, cash: u128, mint_amount: u128) -> (r: u128)
        requires
            self.exchange_rate_defined(cash),
            self.exchange_rate_spec(cash) != 0,
            self.minted_tokens(cash, mint_amount) <= u128_max(),
        ensures
            r as nat == self.minted_tokens(cash, mint_amount),
    {
        let exchange_rate = self._exchange_rate_stored(cash);
        U256::from_u128(mint_amount).mul(exp_scale()).div(exchange_rate).as_u128()
    }

    /// `after` is `self` once `minter` received the pool tokens for `mint_amount` at the
    /// exchange rate for `cash`, using them as collateral on a first supply.
    pub open spec fn mint_effect(&self, after: &Data, cash: u128, minter: AccountId, mint_amount: u128) -> bool {
        let minted = self.minted_tokens(cash, mint_amount);
        &&& after.token.supply == self.token.supply + minted
        &&& after.token.balances.view() == self.token.balances.view().insert(minter, (self.token.balance_spec(minter) + minted) as u128)
        &&& after.token.allowances.view() == self.token.allowances.view()
        &&& after.using_reserve_as_collateral.view() == (if self.token.balance_spec(minter) == 0 {
            self.collateral_flags_after(minter, true)
        } else {
            self.using_reserve_as_collateral.view()
        })
        &&& *after == (Data { token: after.token, using_reserve_as_collateral: after.using_reserve_as_collateral, ..*self })
    }

    /// Supplies `mint_amount` of the underlying for `minter`, who receives pool tokens
    /// at the current exchange rate and, on a first supply, uses them as collateral.
    /// `allowed` is the controller's answer to the mint and `transfer_in` the outcome
    /// of moving the underlying from the caller to the pool (see `mint_transfer`).
    pub fn _mint(
        &mut self,
        env: Env,
        minter: AccountId,
        mint_amount: u128,
        reward_ok: bool,
        allowed: Result<(), ControllerError>,
        transfer_in: Result<(), PSP22Error>,
    ) -> (r: Result<(), Error>)
        requires
            old(self).wf(),
            old(self).mint_checks(env, reward_ok, allowed, transfer_in) is Ok
                ==> old(self).mint_fits(env, minter, mint_amount),
        ensures
            final(self).wf(),
            r == old(self).mint_spec(env, minter, reward_ok, allowed, transfer_in),
            r is Ok ==> old(self).mint_effect(&*final(self), env.cash, minter, mint_amount),
            r is Err ==> *final(self) == *old(self),
    {
        if self.incentives_controller.is_some() && !reward_ok {
            return Err(Error::AccrueRewardFailed);
        }
        if self.controller.is_none() {
            return Err(Error::ControllerIsNotSet);
        }
        if let Err(e) = allowed {
            return Err(Error::Controller(e));
        }
        if self.accrual_block_number != env.block_number {
            return Err(Error::AccrualBlockNumberIsNotFresh);
        }
        if let Err(e) = transfer_in {
            return Err(Error::PSP22(e));
        }
        // The rate is taken at the cash held before the underlying came in.
        let minted_tokens = self.mint_tokens(env.cash, mint_amount);
        // Check if it is first deposit.
        let lp_balance = self.token._balance_of(&minter);
        if let Err(e) = self.token._mint_to(minter, minted_tokens) {
            return Err(Error::PSP22(e));
        }
        if lp_balance == 0 {
            self._set_use_reserve_as_collateral(minter, true);
        }
        Ok(())
    }

    /// The account snapshot a pool reports: with collateral enabled, the pool-token
    /// balance, the borrow balance and the exchange rate; otherwise zero (the supply
    /// counts for nothing as collateral), the borrow balance and the exchange rate.
    pub open spec fn account_snapshot_spec(&self, account: AccountId, cash: u128) -> (nat, nat, nat) {
        if self.collateral_enabled(account) {
            (self.token.balance_spec(account), self.borrow_balance_spec(account), self.exchange_rate_spec(cash))
        } else {
            (0, self.borrow_balance_spec(account), self.exchange_rate_spec(cash))
        }
    }

    /// The account snapshot of a pool that has accrued interest up to the current
    /// block; see `account_snapshot_spec`.
    pub fn account_snapshot(&self, env: Env, account: AccountId) -> (r: (u128, u128, U256))
        requires
            self.wf(),
            self.exchange_rate_defined(env.cash),
            self.borrow_balance_fits(account),
        ensures
            (r.0 as nat, r.1 as nat, r.2@) == self.account_snapshot_spec(account, env.cash),
    {
        let using_as_collateral = match self._using_reserve_as_collateral(account) {
            Some(b) => b,
            None => false,
        };
        if using_as_collateral {
            return (
                self.token._balance_of(&account),
                self._borrow_balance_stored(account),
                self._exchange_rate_stored(env.cash),
            );
        }
        (0, self._borrow_balance_stored(account), self._exchange_rate_stored(env.cash))
    }

    /// Accrues interest up to the current block, then reports the account snapshot.
    pub fn get_account_snapshot(&mut self, env: Env, account: AccountId) -> (r: Result<(u128, u128, U256), Error>)
        requires
            old(self).wf(),
            old(self).accrual_fits(env.block_number, env.borrow_rate),
            forall|mid: Data| #[trigger] old(self).accrues_to(&mid, env.block_number, env.borrow_rate)
                ==> mid.exchange_rate_defined(env.cash)
                && mid.borrow_balance_fits(account),
        ensures
            final(self).wf(),
            r is Err <==> old(self).accrue_spec(env.block_number, env.borrow_rate) is Err,
            r is Err ==> r == Err::<(u128, u128, U256), Error>(old(self).accrue_spec(env.block_number, env.borrow_rate)->Err_0)
                && *final(self) == *old(self),
            r is Ok ==> old(self).accrues_to(&*final(self), env.block_number, env.borrow_rate)
                && (r->Ok_0.0 as nat, r->Ok_0.1 as nat, r->Ok_0.2@) == final(self).account_snapshot_spec(account, env.cash),
    {
        self._accrue_interest_at(env.block_number, env.borrow_rate)?;
        let ghost mid = *self;
        assert(old(self).accrues_to(&mid, env.block_number, env.borrow_rate));
        Ok(self.account_snapshot(env, account))
    }

    /// `attrs` is what the pool tells the controller about itself and `account`:
    /// its address, underlying, decimals and liquidation threshold, the account
    /// snapshot and the total borrows.
    pub open spec fn attributes_match(&self, env: Env, account: AccountId, attrs: PoolAttributes) -> bool {
        let (balance, borrow_balance, rate) = self.account_snapshot_spec(account, env.cash);
        &&& attrs.pool == Some(env.contract)
        &&& attrs.underlying == self.underlying
        &&& attrs.decimals == self.decimals
        &&& attrs.liquidation_threshold == self.liquidation_threshold
        &&& attrs.account_balance as nat == balance
        &&& attrs.account_borrow_balance as nat == borrow_balance
        &&& attrs.exchange_rate@ == rate
        &&& attrs.total_borrows == self.total_borrows
    }

    /// What the pool hands the controller when it asks whether `account` may act.
    pub fn pool_attributes(&self, env: Env, account: AccountId) -> (r: PoolAttributes)
        requires
            self.wf(),
            self.exchange_rate_defined(env.cash),
            self.borrow_balance_fits(account),
        ensures
            self.attributes_match(env, account, r),
    {
        let (account_balance, account_borrow_balance, exchange_rate) = self.account_snapshot(env, account);
        PoolAttributes {
            pool: Some(env.contract),
            underlying: self.underlying,
            decimals: self.decimals,
            liquidation_threshold: self.liquidation_threshold,
            account_balance,
            account_borrow_balance,
            exchange_rate,
            total_borrows: self.total_borrows,
        }
    }

    /// The outcome of sending `value` of the underlying out of the pool, given what
    /// the underlying token answered.
    pub open spec fn transfer_underlying_spec(&self, sent: Result<(), PSP22Error>) -> Result<(), Error> {
        if self.underlying.is_none() {
            Err(Error::UnderlyingIsNotSet)
        } else if sent is Err {
            Err(Error::PSP22(sent->Err_0))
        } else {
            Ok(())
        }
    }

    /// Checks that the pool has an underlying and maps the underlying token's answer
    /// to a transfer into the pool's error.
    pub fn _transfer_underlying(&self, sent: Result<(), PSP22Error>) -> (r: Result<(), Error>)
        ensures
            r == self.transfer_underlying_spec(sent),
    {
        if self.underlying.is_none() {
            return Err(Error::UnderlyingIsNotSet);
        }
        match sent {
            Ok(()) => Ok(()),
            Err(e) => Err(Error::PSP22(e)),
        }
    }

    /// Everything but the pool token and the collateral flags is the same.
    pub open spec fn same_but_token(&self, after: &Data) -> bool {
        *after == (Data {
            token: after.token,
            using_reserve_as_collateral: after.using_reserve_as_collateral,
            ..*self
        })
    }

    /// The refusals of `_redeem`, in order; a redemption of nothing does nothing.
    pub open spec fn redeem_spec(
        &self,
        env: Env,
        redeemer: AccountId,
        redeem_amount: u128,
        reward_ok: bool,
        allowed: Result<(), ControllerError>,
        sent: Result<(), PSP22Error>,
    ) -> Result<(), Error> {
        if self.reward_refused(reward_ok) {
            Err(Error::AccrueRewardFailed)
        } else if redeem_amount == 0 {
            Ok(())
        } else if self.controller.is_none() {
            Err(Error::ControllerIsNotSet)
        } else if allowed is Err {
            Err(Error::Controller(allowed->Err_0))
        } else if self.accrual_block_number != env.block_number {
            Err(Error::AccrualBlockNumberIsNotFresh)
        } else if (env.cash as nat) < redeem_amount {
            Err(Error::RedeemTransferOutNotPossible)
        } else if redeemer.is_zero_spec() {
            Err(Error::PSP22(PSP22Error::ZeroSenderAddress))
        } else if self.token.balance_spec(redeemer) < redeem_amount {
            Err(Error::PSP22(PSP22Error::InsufficientBalance))
        } else {
            self.transfer_underlying_spec(sent)
        }
    }

    /// Whether `_redeem` burns tokens and sends the underlying.
    pub open spec fn redeem_moves(&self, redeemer: AccountId, redeem_amount: u128, reward_ok: bool) -> bool {
        !self.reward_refused(reward_ok) && redeem_amount != 0
    }

    /// `after` is `self` once `redeemer` burned `redeem_amount` pool tokens, no longer
    /// using its supply as collateral when none is left.
    pub open spec fn redeem_effect(&self, after: &Data, redeemer: AccountId, redeem_amount: u128) -> bool {
        let balance = self.token.balance_spec(redeemer);
        &&& after.token.supply == self.token.supply - redeem_amount
        &&& after.token.balances.view() == self.token.balances.view().insert(redeemer, (balance - redeem_amount) as u128)
        &&& after.token.allowances.view() == self.token.allowances.view()
        &&& after.using_reserve_as_collateral.view() == (if balance == redeem_amount {
            self.collateral_flags_after(redeemer, false)
        } else {
            self.using_reserve_as_collateral.view()
        })
        &&& self.same_but_token(after)
    }

    /// Redeems `redeem_amount` pool tokens of `redeemer` for the underlying; the pool
    /// must have accrued interest up to the current block. `allowed` is the
    /// controller's answer to the request (see `pool_attributes`), `sent` the
    /// underlying token's answer to the transfer out (see `redeem_transfer`). Redeeming the whole balance
    /// stops using it as collateral.
    pub fn _redeem(
        &mut self,
        env: Env,
        redeemer: AccountId,
        redeem_amount: u128,
        reward_ok: bool,
        allowed: Result<(), ControllerError>,
        sent: Result<(), PSP22Error>,
    ) -> (r: Result<(), Error>)
        requires
            old(self).wf(),
        ensures
            final(self).wf(),
            r == old(self).redeem_spec(env, redeemer, redeem_amount, reward_ok, allowed, sent),
            r is Ok && old(self).redeem_moves(redeemer, redeem_amount, reward_ok) ==> old(self).redeem_effect(&*final(self), redeemer, redeem_amount),
            r is Err || !old(self).redeem_moves(redeemer, redeem_amount, reward_ok) ==> *final(self) == *old(self),
    {
        if self.incentives_controller.is_some() && !reward_ok {
            return Err(Error::AccrueRewardFailed);
        }
        if redeem_amount == 0 {
            return Ok(());
        }
        if self.controller.is_none() {
            return Err(Error::ControllerIsNotSet);
        }
        if let Err(e) = allowed {
            return Err(Error::Controller(e));
        }
        if self.accrual_block_number != env.block_number {
            return Err(Error::AccrualBlockNumberIsNotFresh);
        }
        if env.cash < redeem_amount {
            return Err(Error::RedeemTransferOutNotPossible);
        }
        if redeemer.is_zero() {
            return Err(Error::PSP22(PSP22Error::ZeroSenderAddress));
        }
        let lp_balance = self.token._balance_of(&redeemer);
        if lp_balance < redeem_amount {
            return Err(Error::PSP22(PSP22Error::InsufficientBalance));
        }
        self._transfer_underlying(sent)?;
        let burned = self.token._burn_from(redeemer, redeem_amount);
        proof { assert(burned is Ok); }
        if lp_balance == redeem_amount {
            self._set_use_reserve_as_collateral(redeemer, false);
        }
        Ok(())
    }

    /// The refusals of `_borrow`, in order.
    pub open spec fn borrow_spec(
        &self,
        env: Env,
        borrow_amount: u128,
        release_underlying: bool,
        reward_ok: bool,
        allowed: Result<(), ControllerError>,
        sent: Result<(), PSP22Error>,
    ) -> Result<(), Error> {
        if self.reward_refused(reward_ok) {
            Err(Error::AccrueRewardFailed)
        } else if self.controller.is_none() {
            Err(Error::ControllerIsNotSet)
        } else if allowed is Err {
            Err(Error::Controller(allowed->Err_0))
        } else if self.accrual_block_number != env.block_number {
            Err(Error::AccrualBlockNumberIsNotFresh)
        } else if (env.cash as nat) < borrow_amount {
            Err(Error::BorrowCashNotAvailable)
        } else if release_underlying {
            self.transfer_underlying_spec(sent)
        } else {
            Ok(())
        }
    }

    /// The arithmetic of `_borrow` stays within its types.
    pub open spec fn borrow_fits(&self, borrower: AccountId, borrow_amount: u128) -> bool {
        &&& self.borrow_balance_fits(borrower)
        &&& self.borrow_balance_spec(borrower) + borrow_amount <= u128_max()
        &&& self.total_borrows + borrow_amount <= u128_max()
    }

    /// `after` is `self` once `borrower` owes `borrow_amount` more, recorded at the
    /// current index.
    pub open spec fn borrow_effect(&self, after: &Data, borrower: AccountId, borrow_amount: u128) -> bool {
        &&& after.account_borrows.view() == self.account_borrows.view().insert(
            borrower,
            BorrowSnapshot {
                principal: (self.borrow_balance_spec(borrower) + borrow_amount) as u128,
                interest_index: self.borrow_index,
            },
        )
        &&& after.total_borrows == self.total_borrows + borrow_amount
        &&& *after == (Data {
            account_borrows: after.account_borrows,
            total_borrows: after.total_borrows,
            ..*self
        })
    }

    /// Lends `borrow_amount` of the underlying to `borrower`; the pool must have
    /// accrued interest up to the current block. The borrower's debt is recorded at
    /// the current index and the underlying is sent to the caller when
    /// `release_underlying` (a flash loan keeps it in the pool). `allowed` is the
    /// controller's answer, `sent` the underlying token's answer to the transfer
    /// (see `borrow_transfer`).
    pub fn _borrow(
        &mut self,
        env: Env,
        borrower: AccountId,
        borrow_amount: u128,
        release_underlying: bool,
        reward_ok: bool,
        allowed: Result<(), ControllerError>,
        sent: Result<(), PSP22Error>,
    ) -> (r: Result<(), Error>)
        requires
            old(self).wf(),
            old(self).borrow_spec(env, borrow_amount, release_underlying, reward_ok, allowed, sent) is Ok
                ==> old(self).borrow_fits(borrower, borrow_amount),
        ensures
            final(self).wf(),
            r == old(self).borrow_spec(env, borrow_amount, release_underlying, reward_ok, allowed, sent),
            r is Ok ==> old(self).borrow_effect(&*final(self), borrower, borrow_amount),
            r is Err ==> *final(self) == *old(self),
    {
        if self.incentives_controller.is_some() && !reward_ok {
            return Err(Error::AccrueRewardFailed);
        }
        if self.controller.is_none() {
            return Err(Error::ControllerIsNotSet);
        }
        if let Err(e) = allowed {
            return Err(Error::Controller(e));
        }
        if self.accrual_block_number != env.block_number {
            return Err(Error::AccrualBlockNumberIsNotFresh);
        }
        if env.cash < borrow_amount {
            return Err(Error::BorrowCashNotAvailable);
        }
        if release_underlying {
            self._transfer_underlying(sent)?;
        }
        let account_borrows_prev = self._borrow_balance_stored(borrower);
        let account_borrows_new = account_borrows_prev + borrow_amount;
        let total_borrows_new = self.total_borrows + borrow_amount;
        let borrow_index = self.borrow_index;
        self.account_borrows.insert(
            &borrower,
            &BorrowSnapshot { principal: account_borrows_new, interest_index: borrow_index },
        );
        self.total_borrows = total_borrows_new;
        Ok(())
    }

    /// What `_repay_borrow` takes from the payer: the repay amount, at most the debt.
    pub open spec fn repay_amount_final(&self, borrower: AccountId, repay_amount: u128) -> nat {
        let owed = self.borrow_balance_spec(borrower);
        if repay_amount > owed {
            owed
        } else {
            repay_amount as nat
        }
    }

    /// The refusals of `_repay_borrow`, in order.
    pub open spec fn repay_spec(&self, env: Env, reward_ok: bool, received: Result<(), PSP22Error>) -> Result<(), Error> {
        if self.reward_refused(reward_ok) {
            Err(Error::AccrueRewardFailed)
        } else if self.accrual_block_number != env.block_number {
            Err(Error::AccrualBlockNumberIsNotFresh)
        } else {
            self.transfer_underlying_spec(received)
        }
    }

    /// The arithmetic of `_repay_borrow` stays within its types.
    pub open spec fn repay_fits(&self, borrower: AccountId, repay_amount: u128) -> bool {
        &&& self.borrow_balance_fits(borrower)
        &&& self.repay_amount_final(borrower, repay_amount) <= self.total_borrows
    }

    /// `after` is `self` once up to `repay_amount` of `borrower`'s debt (at most the
    /// debt) was repaid, the rest recorded at the current index.
    pub open spec fn repay_effect(&self, after: &Data, borrower: AccountId, repay_amount: u128) -> bool {
        let repaid = self.repay_amount_final(borrower, repay_amount);
        &&& after.account_borrows.view() == self.account_borrows.view().insert(
            borrower,
            BorrowSnapshot {
                principal: (self.borrow_balance_spec(borrower) - repaid) as u128,
                interest_index: self.borrow_index,
            },
        )
        &&& after.total_borrows == self.total_borrows - repaid
        &&& *after == (Data {
            account_borrows: after.account_borrows,
            total_borrows: after.total_borrows,
            ..*self
        })
    }

    /// Repays `repay_amount` (at most the debt) of `borrower`'s debt on behalf of
    /// `payer`, and returns the amount repaid. `received` is the underlying token's
    /// answer to the transfer of that amount from the payer to the pool (see
    /// `repay_transfer`).
    pub fn _repay_borrow(
        &mut self,
        env: Env,
        payer: AccountId,
        borrower: AccountId,
        repay_amount: u128,
        reward_ok: bool,
        received: Result<(), PSP22Error>,
    ) -> (r: Result<u128, Error>)
        requires
            old(self).wf(),
            old(self).repay_spec(env, reward_ok, received) is Ok ==> old(self).repay_fits(borrower, repay_amount),
        ensures
            final(self).wf(),
            r is Err <==> old(self).repay_spec(env, reward_ok, received) is Err,
            r is Err ==> r == Err::<u128, Error>(old(self).repay_spec(env, reward_ok, received)->Err_0)
                && *final(self) == *old(self),
            r is Ok ==> r->Ok_0 as nat == old(self).repay_amount_final(borrower, repay_amount)
                && old(self).repay_effect(&*final(self), borrower, repay_amount),
    {
        if self.incentives_controller.is_some() && !reward_ok {
            return Err(Error::AccrueRewardFailed);
        }
        if self.accrual_block_number != env.block_number {
            return Err(Error::AccrualBlockNumberIsNotFresh);
        }
        if let Err(e) = self._transfer_underlying(received) {
            return Err(e);
        }
        let account_borrow_prev = self._borrow_balance_stored(borrower);
        let repay_amount_final = if repay_amount > account_borrow_prev {
            account_borrow_prev
        } else {
            repay_amount
        };
        let account_borrows_new = account_borrow_prev - repay_amount_final;
        let total_borrows_new = self.total_borrows - repay_amount_final;
        let borrow_index = self.borrow_index;
        self.account_borrows.insert(
            &borrower,
            &BorrowSnapshot { principal: account_borrows_new, interest_index: borrow_index },
        );
        self.total_borrows = total_borrows_new;
        Ok(repay_amount_final)
    }

    /// The pool tokens the protocol keeps of `seize_tokens`: their protocol share.
    pub open spec fn protocol_seize_tokens(seize_tokens: u128) -> nat {
        (seize_tokens as nat) * protocol_seize_share_spec() / exp_scale_spec()
    }

    /// The refusals of `_seize` that come before any arithmetic, in order.
    pub open spec fn seize_checks(
        &self,
        liquidator: AccountId,
        borrower: AccountId,
        reward_ok: bool,
        allowed: Result<(), ControllerError>,
    ) -> Result<(), Error> {
        if liquidator == borrower {
            Err(Error::LiquidateSeizeLiquidatorIsBorrower)
        } else if self.reward_refused(reward_ok) {
            Err(Error::AccrueRewardFailed)
        } else if !self.collateral_enabled(borrower) {
            Err(Error::ReserveIsNotEnabledAsCollateral)
        } else if self.controller.is_none() {
            Err(Error::ControllerIsNotSet)
        } else if allowed is Err {
            Err(Error::Controller(allowed->Err_0))
        } else {
            Ok(())
        }
    }

    /// The refusals of `_seize`, in order.
    pub open spec fn seize_spec(
        &self,
        liquidator: AccountId,
        borrower: AccountId,
        seize_tokens: u128,
        reward_ok: bool,
        allowed: Result<(), ControllerError>,
    ) -> Result<(), Error> {
        if self.seize_checks(liquidator, borrower, reward_ok, allowed) is Err {
            self.seize_checks(liquidator, borrower, reward_ok, allowed)
        } else if borrower.is_zero_spec() {
            Err(Error::PSP22(PSP22Error::ZeroSenderAddress))
        } else if self.token.balance_spec(borrower) < seize_tokens {
            Err(Error::PSP22(PSP22Error::InsufficientBalance))
        } else if liquidator.is_zero_spec() {
            Err(Error::PSP22(PSP22Error::ZeroRecipientAddress))
        } else {
            Ok(())
        }
    }

    /// The arithmetic of `_seize` stays within its types.
    pub open spec fn seize_fits(&self, cash: u128, liquidator: AccountId, borrower: AccountId, seize_tokens: u128) -> bool {
        let protocol_tokens = Self::protocol_seize_tokens(seize_tokens);
        let rate = self.exchange_rate_spec(cash);
        &&& self.exchange_rate_defined(cash)
        &&& rate * protocol_tokens <= u256_max()
        &&& self.total_reserves + rate * protocol_tokens / exp_scale_spec() <= u128_max()
        &&& self.token.balance_spec(liquidator) + seize_tokens - protocol_tokens <= u128_max()
    }

    /// `after` is `self` once `seize_tokens` of `borrower`'s pool tokens went to the
    /// liquidator, but for the protocol share, whose worth in the underlying (at the
    /// exchange rate for `cash`) joined the reserves.
    pub open spec fn seized(&self, after: &Data, cash: u128, liquidator: AccountId, borrower: AccountId, seize_tokens: u128) -> bool {
        let protocol_tokens = Self::protocol_seize_tokens(seize_tokens);
        let liquidator_tokens = seize_tokens - protocol_tokens;
        &&& after.total_reserves as nat == self.total_reserves
            + self.exchange_rate_spec(cash) * protocol_tokens / exp_scale_spec()
        &&& after.token.supply as nat == self.token.supply - protocol_tokens
        &&& after.token.balances.view() == self.token.balances.view()
            .insert(borrower, (self.token.balance_spec(borrower) - seize_tokens) as u128)
            .insert(liquidator, (self.token.balance_spec(liquidator) + liquidator_tokens) as u128)
        &&& after.token.allowances.view() == self.token.allowances.view()
        &&& after.using_reserve_as_collateral == self.using_reserve_as_collateral
    }

    /// Moves `seize_tokens` of `borrower`'s pool tokens to `liquidator`, keeping the
    /// protocol share as reserves. `allowed` is the controller's answer, and `cash`
    /// in `env` the pool's balance of the underlying at the time of the seizure.
    pub fn _seize(
        &mut self,
        env: Env,
        liquidator: AccountId,
        borrower: AccountId,
        seize_tokens: u128,
        reward_ok: bool,
        allowed: Result<(), ControllerError>,
    ) -> (r: Result<(), Error>)
        requires
            old(self).wf(),
            old(self).seize_checks(liquidator, borrower, reward_ok, allowed) is Ok
                ==> old(self).seize_fits(env.cash, liquidator, borrower, seize_tokens),
        ensures
            final(self).wf(),
            r == old(self).seize_spec(liquidator, borrower, seize_tokens, reward_ok, allowed),
            r is Ok ==> old(self).seized(&*final(self), env.cash, liquidator, borrower, seize_tokens)
                && *final(self) == (Data { token: final(self).token, total_reserves: final(self).total_reserves, ..*old(self) }),
            r is Err ==> *final(self) == *old(self),
    {
        if liquidator == borrower {
            return Err(Error::LiquidateSeizeLiquidatorIsBorrower);
        }
        if self.incentives_controller.is_some() && !reward_ok {
            return Err(Error::AccrueRewardFailed);
        }
        let collateral_enabled = match self._using_reserve_as_collateral(borrower) {
            Some(b) => b,
            None => false,
        };
        if !collateral_enabled {
            return Err(Error::ReserveIsNotEnabledAsCollateral);
        }
        if self.controller.is_none() {
            return Err(Error::ControllerIsNotSet);
        }
        if let Err(e) = allowed {
            return Err(Error::Controller(e));
        }
        let exchange_rate = Exp { mantissa: WrappedU256(self._exchange_rate_stored(env.cash)) };
        let share = protocol_seize_share_mantissa();
        proof {
            let st = seize_tokens as nat;
            assert(st * protocol_seize_share_spec() <= u256_max()) by (nonlinear_arith)
                requires st <= u128_max(), protocol_seize_share_spec() == 28_000_000_000_000_000nat,
                    u128_max() == 0xffff_ffff_ffff_ffff_ffff_ffff_ffff_ffffnat,
                    u256_max() == 0xffff_ffff_ffff_ffff_ffff_ffff_ffff_ffff_ffff_ffff_ffff_ffff_ffff_ffff_ffff_ffffnat;
            assert(st * protocol_seize_share_spec() / exp_scale_spec() <= st) by (nonlinear_arith)
                requires protocol_seize_share_spec() == 28_000_000_000_000_000nat,
                    exp_scale_spec() == 1_000_000_000_000_000_000nat;
        }
        if borrower.is_zero() {
            return Err(Error::PSP22(PSP22Error::ZeroSenderAddress));
        }
        if self.token._balance_of(&borrower) < seize_tokens {
            return Err(Error::PSP22(PSP22Error::InsufficientBalance));
        }
        if liquidator.is_zero() {
            return Err(Error::PSP22(PSP22Error::ZeroRecipientAddress));
        }
        let (liquidator_seize_tokens, protocol_amount, _) = protocol_seize_amount(exchange_rate, seize_tokens, share);
        let total_reserves_new = self.total_reserves + protocol_amount;
        self.total_reserves = total_reserves_new;
        let burned = self.token._burn_from(borrower, seize_tokens);
        proof { assert(burned is Ok); }
        let minted = self.token._mint_to(liquidator, liquidator_seize_tokens);
        proof { assert(minted is Ok); }
        Ok(())
    }

    /// The refusals of `_liquidate_borrow` before anything moves, in order.
    pub open spec fn liquidate_checks(
        &self,
        env: Env,
        liquidator: AccountId,
        borrower: AccountId,
        repay_amount: u128,
        collateral: AccountId,
        replies: &LiquidationReplies,
    ) -> Result<(), Error> {
        if self.reward_refused(replies.reward_ok) {
            Err(Error::AccrueRewardFailed)
        } else if self.controller.is_none() {
            Err(Error::ControllerIsNotSet)
        } else if self.accrual_block_number != env.block_number {
            Err(Error::AccrualBlockNumberIsNotFresh)
        } else if collateral != env.contract && replies.collateral_accrual_block_number != env.block_number {
            Err(Error::AccrualBlockNumberIsNotFresh)
        } else if liquidator == borrower {
            Err(Error::LiquidateLiquidatorIsBorrower)
        } else if repay_amount == 0 {
            Err(Error::LiquidateCloseAmountIsZero)
        } else if replies.allowed is Err {
            Err(Error::Controller(replies.allowed->Err_0))
        } else {
            Ok(())
        }
    }

    /// The refusals of `_liquidate_borrow`, in order.
    pub open spec fn liquidate_spec(
        &self,
        env: Env,
        liquidator: AccountId,
        borrower: AccountId,
        repay_amount: u128,
        collateral: AccountId,
        replies: &LiquidationReplies,
    ) -> Result<(), Error> {
        if self.liquidate_checks(env, liquidator, borrower, repay_amount, collateral, replies) is Err {
            self.liquidate_checks(env, liquidator, borrower, repay_amount, collateral, replies)
        } else if self.transfer_underlying_spec(replies.received) is Err {
            self.transfer_underlying_spec(replies.received)
        } else if replies.seize_tokens is Err {
            Err(Error::Controller(replies.seize_tokens->Err_0))
        } else if collateral == env.contract {
            self.seize_spec(liquidator, borrower, replies.seize_tokens->Ok_0, replies.reward_ok, replies.seize_allowed)
        } else if replies.collateral_controller.is_none() {
            Err(Error::ControllerIsNotSet)
        } else if replies.collateral_controller != self.controller {
            Err(Error::Controller(ControllerError::ControllerMismatch))
        } else if replies.seized is Err {
            Err(replies.seized->Err_0)
        } else {
            Ok(())
        }
    }

    /// The arithmetic of `_liquidate_borrow` stays within its types.
    pub open spec fn liquidate_fits(
        &self,
        env: Env,
        liquidator: AccountId,
        borrower: AccountId,
        repay_amount: u128,
        collateral: AccountId,
        replies: &LiquidationReplies,
    ) -> bool {
        &&& self.repay_fits(borrower, repay_amount)
        &&& collateral == env.contract && replies.seize_tokens is Ok ==> {
            &&& env.cash + self.repay_amount_final(borrower, repay_amount) <= u128_max()
            &&& self.seize_fits(env.cash, liquidator, borrower, replies.seize_tokens->Ok_0)
        }
    }

    /// `after` is `self` once `borrower`'s debt was repaid by up to `repay_amount` and,
    /// when the collateral is this pool, `seize_tokens` of its pool tokens went to the
    /// liquidator (see `seized`).
    pub open spec fn liquidate_effect(
        &self,
        after: &Data,
        env: Env,
        liquidator: AccountId,
        borrower: AccountId,
        repay_amount: u128,
        collateral: AccountId,
        seize_tokens: u128,
    ) -> bool {
        let repaid = self.repay_amount_final(borrower, repay_amount);
        &&& after.account_borrows.view() == self.account_borrows.view().insert(
            borrower,
            BorrowSnapshot {
                principal: (self.borrow_balance_spec(borrower) - repaid) as u128,
                interest_index: self.borrow_index,
            },
        )
        &&& after.total_borrows == self.total_borrows - repaid
        &&& collateral == env.contract ==> {
            &&& self.seized(after, env.cash, liquidator, borrower, seize_tokens)
            &&& *after == (Data {
                account_borrows: after.account_borrows,
                total_borrows: after.total_borrows,
                token: after.token,
                total_reserves: after.total_reserves,
                ..*self
            })
        }
        &&& collateral != env.contract ==> *after == (Data {
            account_borrows: after.account_borrows,
            total_borrows: after.total_borrows,
            ..*self
        })
    }

    /// The event of a mint by `minter` of `mint_amount`, made on the pool before the
    /// mint: the pool tokens it bought.
    pub fn mint_event(&self, env: Env, minter: AccountId, mint_amount: u128) -> (r: Event)
        requires
            self.exchange_rate_defined(env.cash),
            self.exchange_rate_spec(env.cash) != 0,
            self.minted_tokens(env.cash, mint_amount) <= u128_max(),
        ensures
            r == (Event::Mint { minter, mint_amount, mint_tokens: self.minted_tokens(env.cash, mint_amount) as u128 }),
    {
        Event::Mint { minter, mint_amount, mint_tokens: self.mint_tokens(env.cash, mint_amount) }
    }

    /// The event of a redemption of `redeem_amount` by `redeemer`.
    pub fn redeem_event(redeemer: AccountId, redeem_amount: u128) -> (r: Event)
        ensures
            r == (Event::Redeem { redeemer, redeem_amount }),
    {
        Event::Redeem { redeemer, redeem_amount }
    }

    /// The event of a borrow of `borrow_amount` by `borrower`, made on the pool before
    /// the borrow: the borrower's debt and the total borrows once it is recorded.
    pub fn borrow_event(&self, borrower: AccountId, borrow_amount: u128) -> (r: Event)
        requires
            self.wf(),
            self.borrow_fits(borrower, borrow_amount),
        ensures
            r == (Event::Borrow {
                borrower,
                borrow_amount,
                account_borrows: (self.borrow_balance_spec(borrower) + borrow_amount) as u128,
                total_borrows: (self.total_borrows + borrow_amount) as u128,
            }),
    {
        let account_borrows = self._borrow_balance_stored(borrower) + borrow_amount;
        Event::Borrow { borrower, borrow_amount, account_borrows, total_borrows: self.total_borrows + borrow_amount }
    }

    /// The event of a repayment by `payer` of up to `repay_amount` of `borrower`'s
    /// debt, made on the pool before the repayment: the amount repaid, and the debt
    /// and total borrows left.
    pub fn repay_borrow_event(&self, payer: AccountId, borrower: AccountId, repay_amount: u128) -> (r: Event)
        requires
            self.wf(),
            self.repay_fits(borrower, repay_amount),
        ensures
            r == (Event::RepayBorrow {
                payer,
                borrower,
                repay_amount: self.repay_amount_final(borrower, repay_amount) as u128,
                account_borrows: (self.borrow_balance_spec(borrower) - self.repay_amount_final(borrower, repay_amount)) as u128,
                total_borrows: (self.total_borrows - self.repay_amount_final(borrower, repay_amount)) as u128,
            }),
    {
        let owed = self._borrow_balance_stored(borrower);
        let repaid = if repay_amount > owed { owed } else { repay_amount };
        Event::RepayBorrow {
            payer,
            borrower,
            repay_amount: repaid,
            account_borrows: owed - repaid,
            total_borrows: self.total_borrows - repaid,
        }
    }

    /// The event of a liquidation of `borrower` by `liquidator`, made on the pool
    /// before it: the amount actually repaid, the collateral pool and the seized
    /// pool tokens.
    pub fn liquidate_borrow_event(
        &self,
        liquidator: AccountId,
        borrower: AccountId,
        repay_amount: u128,
        collateral: AccountId,
        seize_tokens: u128,
    ) -> (r: Event)
        requires
            self.wf(),
            self.borrow_balance_fits(borrower),
        ensures
            r == (Event::LiquidateBorrow {
                liquidator,
                borrower,
                repay_amount: self.repay_amount_final(borrower, repay_amount) as u128,
                token_collateral: collateral,
                seize_tokens,
            }),
    {
        let owed = self._borrow_balance_stored(borrower);
        let repaid = if repay_amount > owed { owed } else { repay_amount };
        Event::LiquidateBorrow { liquidator, borrower, repay_amount: repaid, token_collateral: collateral, seize_tokens }
    }

    /// The transfer behind `_mint`'s `transfer_in`: `mint_amount` from the caller to
    /// the pool.
    pub fn mint_transfer(env: Env, mint_amount: u128) -> (r: UnderlyingTransfer)
        ensures
            r == (UnderlyingTransfer { from: env.caller, to: env.contract, amount: mint_amount }),
    {
        UnderlyingTransfer { from: env.caller, to: env.contract, amount: mint_amount }
    }

    /// The transfer behind `_redeem`'s `sent`: `redeem_amount` from the pool to the
    /// redeemer.
    pub fn redeem_transfer(env: Env, redeemer: AccountId, redeem_amount: u128) -> (r: UnderlyingTransfer)
        ensures
            r == (UnderlyingTransfer { from: env.contract, to: redeemer, amount: redeem_amount }),
    {
        UnderlyingTransfer { from: env.contract, to: redeemer, amount: redeem_amount }
    }

    /// The transfer behind `_borrow`'s `sent`: `borrow_amount` from the pool to the
    /// caller, and none when the underlying stays in the pool.
    pub fn borrow_transfer(env: Env, borrow_amount: u128, release_underlying: bool) -> (r: Option<UnderlyingTransfer>)
        ensures
            r == (if release_underlying {
                Some(UnderlyingTransfer { from: env.contract, to: env.caller, amount: borrow_amount })
            } else {
                None
            }),
    {
        if release_underlying {
            Some(UnderlyingTransfer { from: env.contract, to: env.caller, amount: borrow_amount })
        } else {
            None
        }
    }

    /// The transfer behind `_repay_borrow`'s `received` (and a liquidation's): what
    /// is repaid of `borrower`'s debt, at most `repay_amount`, from the payer to the
    /// pool.
    pub fn repay_transfer(&self, env: Env, payer: AccountId, borrower: AccountId, repay_amount: u128) -> (r: UnderlyingTransfer)
        requires
            self.wf(),
            self.borrow_balance_fits(borrower),
        ensures
            r.from == payer,
            r.to == env.contract,
            r.amount as nat == self.repay_amount_final(borrower, repay_amount),
    {
        let owed = self._borrow_balance_stored(borrower);
        let amount = if repay_amount > owed { owed } else { repay_amount };
        UnderlyingTransfer { from: payer, to: env.contract, amount }
    }

    /// What this pool asks of the other contracts when `liquidator` liquidates
    /// `borrower` by repaying up to `repay_amount`, taking `collateral`: first the
    /// controller's count of collateral tokens worth the amount actually repaid, then
    /// the seizure of `seize_tokens` (the controller's answer) by the collateral pool.
    /// The count is asked at the collateral pool's exchange rate: this pool's own when
    /// `collateral` is this pool (the rate at `env.cash`, which the repayment leaves as
    /// it is: see `law_exchange_rate_unchanged_by_repay`), else
    /// `collateral_exchange_rate`, the collateral pool's answer, which also gives
    /// `collateral_attributes`.
    pub fn liquidation_requests(
        &self,
        env: Env,
        liquidator: AccountId,
        borrower: AccountId,
        repay_amount: u128,
        collateral: AccountId,
        collateral_exchange_rate: WrappedU256,
        collateral_attributes: PoolAttributesForSeizeCalculation,
        seize_tokens: u128,
    ) -> (r: (SeizeCalculationRequest, SeizeRequest))
        requires
            self.wf(),
            self.borrow_balance_fits(borrower),
            self.exchange_rate_defined(env.cash),
        ensures
            r.0.pool_borrowed == env.contract,
            r.0.pool_collateral == collateral,
            r.0.actual_repay_amount as nat == self.repay_amount_final(borrower, repay_amount),
            r.0.exchange_rate_mantissa@ == (if collateral == env.contract {
                self.exchange_rate_spec(env.cash)
            } else {
                collateral_exchange_rate@
            }),
            r.0.pool_borrowed_attributes == Some(PoolAttributesForSeizeCalculation { underlying: self.underlying, decimals: self.decimals }),
            r.0.pool_collateral_attributes == (if collateral == env.contract {
                Some(PoolAttributesForSeizeCalculation { underlying: self.underlying, decimals: self.decimals })
            } else {
                Some(collateral_attributes)
            }),
            r.1 == (SeizeRequest { pool: collateral, liquidator, borrower, seize_tokens }),
    {
        let owed = self._borrow_balance_stored(borrower);
        let actual_repay_amount = if repay_amount > owed { owed } else { repay_amount };
        let own_attributes = PoolAttributesForSeizeCalculation { underlying: self.underlying, decimals: self.decimals };
        let (exchange_rate_mantissa, pool_collateral_attributes) = if collateral == env.contract {
            (WrappedU256(self._exchange_rate_stored(env.cash)), own_attributes)
        } else {
            (collateral_exchange_rate, collateral_attributes)
        };
        let calculation = SeizeCalculationRequest {
            pool_borrowed: env.contract,
            pool_collateral: collateral,
            exchange_rate_mantissa,
            actual_repay_amount,
            pool_borrowed_attributes: Some(own_attributes),
            pool_collateral_attributes: Some(pool_collateral_attributes),
        };
        (calculation, SeizeRequest { pool: collateral, liquidator, borrower, seize_tokens })
    }

    /// Liquidates `borrower`: the liquidator repays up to `repay_amount` of the debt
    /// and receives `borrower`'s pool tokens of the `collateral` pool, this pool's own
    /// when `collateral` is this pool. The pool has accrued interest up to the current
    /// block; `replies` holds what the other contracts answered. Of these,
    /// `replies.seize_tokens` is the controller's answer to the first request of
    /// `liquidation_requests`, made with the same arguments on this state, and
    /// `replies.seized` the collateral pool's answer to the second.
    pub fn _liquidate_borrow(
        &mut self,
        env: Env,
        liquidator: AccountId,
        borrower: AccountId,
        repay_amount: u128,
        collateral: AccountId,
        replies: LiquidationReplies,
    ) -> (r: Result<(), Error>)
        requires
            old(self).wf(),
            old(self).liquidate_checks(env, liquidator, borrower, repay_amount, collateral, &replies) is Ok
                ==> old(self).liquidate_fits(env, liquidator, borrower, repay_amount, collateral, &replies),
        ensures
            final(self).wf(),
            r == old(self).liquidate_spec(env, liquidator, borrower, repay_amount, collateral, &replies),
            r is Err ==> *final(self) == *old(self),
            r is Ok ==> old(self).liquidate_effect(&*final(self), env, liquidator, borrower, repay_amount, collateral,
                replies.seize_tokens->Ok_0),
    {
        if self.incentives_controller.is_some() && !replies.reward_ok {
            return Err(Error::AccrueRewardFailed);
        }
        let controller = match self.controller {
            Some(c) => c,
            None => return Err(Error::ControllerIsNotSet),
        };
        if self.accrual_block_number != env.block_number {
            return Err(Error::AccrualBlockNumberIsNotFresh);
        }
        if collateral != env.contract && replies.collateral_accrual_block_number != env.block_number {
            return Err(Error::AccrualBlockNumberIsNotFresh);
        }
        if liquidator == borrower {
            return Err(Error::LiquidateLiquidatorIsBorrower);
        }
        if repay_amount == 0 {
            return Err(Error::LiquidateCloseAmountIsZero);
        }
        if let Err(e) = replies.allowed {
            return Err(Error::Controller(e));
        }
        if self.underlying.is_none() {
            return Err(Error::UnderlyingIsNotSet);
        }
        if let Err(e) = replies.received {
            return Err(Error::PSP22(e));
        }
        let seize_tokens = match replies.seize_tokens {
            Ok(n) => n,
            Err(e) => return Err(Error::Controller(e)),
        };
        if collateral == env.contract {
            let seize_checked = self.seize_spec_holds(liquidator, borrower, seize_tokens, replies.reward_ok, replies.seize_allowed);
            if let Err(e) = seize_checked {
                return Err(e);
            }
            let ghost before = *self;
            let repaid = self._repay_borrow(env, liquidator, borrower, repay_amount, replies.reward_ok, Ok(()));
            let repaid = match repaid {
                Ok(n) => n,
                Err(e) => return Err(e),
            };
            let ghost mid = *self;
            let env_after = Env { cash: env.cash + repaid, ..env };
            assert(mid.exchange_rate_spec(env_after.cash) == before.exchange_rate_spec(env.cash));
            let seized = self._seize(env_after, liquidator, borrower, seize_tokens, replies.reward_ok, replies.seize_allowed);
            proof { assert(seized is Ok); }
            Ok(())
        } else {
            let seizer_controller = match replies.collateral_controller {
                Some(c) => c,
                None => return Err(Error::ControllerIsNotSet),
            };
            if seizer_controller != controller {
                return Err(Error::Controller(ControllerError::ControllerMismatch));
            }
            if let Err(e) = replies.seized {
                return Err(e);
            }
            let repaid = self._repay_borrow(env, liquidator, borrower, repay_amount, replies.reward_ok, Ok(()));
            match repaid {
                Ok(_) => Ok(()),
                Err(e) => Err(e),
            }
        }
    }

    /// Evaluates the refusals of `_seize` without changing anything.
    pub fn seize_spec_holds(
        &self,
        liquidator: AccountId,
        borrower: AccountId,
        seize_tokens: u128,
        reward_ok: bool,
        allowed: Result<(), ControllerError>,
    ) -> (r: Result<(), Error>)
        requires
            self.wf(),
        ensures
            r == self.seize_spec(liquidator, borrower, seize_tokens, reward_ok, allowed),
    {
        if liquidator == borrower {
            return Err(Error::LiquidateSeizeLiquidatorIsBorrower);
        }
        if self.incentives_controller.is_some() && !reward_ok {
            return Err(Error::AccrueRewardFailed);
        }
        let collateral_enabled = match self._using_reserve_as_collateral(borrower) {
            Some(b) => b,
            None => false,
        };
        if !collateral_enabled {
            return Err(Error::ReserveIsNotEnabledAsCollateral);
        }
        if self.controller.is_none() {
            return Err(Error::ControllerIsNotSet);
        }
        if let Err(e) = allowed {
            return Err(Error::Controller(e));
        }
        if borrower.is_zero() {
            return Err(Error::PSP22(PSP22Error::ZeroSenderAddress));
        }
        if self.token._balance_of(&borrower) < seize_tokens {
            return Err(Error::PSP22(PSP22Error::InsufficientBalance));
        }
        if liquidator.is_zero() {
            return Err(Error::PSP22(PSP22Error::ZeroRecipientAddress));
        }
        Ok(())
    }

    /// The arithmetic of an accrual up to `at` stays within its types.
    pub open spec fn accrual_fits(&self, at: u64, borrow_rate: WrappedU256) -> bool {
        self.accrual_block_number != at && self.rate_model.is_some() && borrow_rate@ <= borrow_rate_max_spec()
            ==> calculate_interest_fits(&self.accrual_input(at, borrow_rate))
    }

    /// Tells whether an accrual up to `at` would be refused, without accruing.
    pub fn accrue_check(&self, at: u64, borrow_rate: WrappedU256) -> (r: Result<(), Error>)
        ensures
            r == self.accrue_spec(at, borrow_rate),
    {
        if self.accrual_block_number == at {
            return Ok(());
        }
        if self.rate_model.is_none() {
            return Err(Error::InterestRateModelIsNotSet);
        }
        if borrow_rate.0.gt(&borrow_rate_max_mantissa()) {
            return Err(Error::BorrowRateIsAbsurdlyHigh);
        }
        Ok(())
    }

    /// Why a transfer of pool tokens is refused before the ledger is looked at, as the
    /// text of the `Custom` error it returns; `None` when it is not.
    pub open spec fn transfer_custom_refusal(
        &self,
        env: Env,
        src: AccountId,
        dst: AccountId,
        reward_ok: bool,
        allowed: Result<(), ControllerError>,
    ) -> Option<Seq<char>> {
        if self.reward_refused(reward_ok) {
            Some("AccrueRewardFailed"@)
        } else if self.accrue_spec(env.block_number, env.borrow_rate) is Err {
            Some("AccrueInterestFailed"@)
        } else if src == dst {
            Some("TransferNotAllowed"@)
        } else if self.controller.is_none() {
            Some("ControllerIsNotSet"@)
        } else if allowed is Err {
            Some(controller_error_name(allowed->Err_0))
        } else {
            None
        }
    }

    /// Why the pool-token ledger refuses a transfer of `value` from `src` to `dst` by
    /// `spender`; `None` when it does not.
    pub open spec fn transfer_token_refusal(
        &self,
        spender: AccountId,
        src: AccountId,
        dst: AccountId,
        value: u128,
    ) -> Option<PSP22Error> {
        if spender != src && self.token.allowance_spec(src, spender) < value {
            Some(PSP22Error::InsufficientAllowance)
        } else if src.is_zero_spec() {
            Some(PSP22Error::ZeroSenderAddress)
        } else if spender != src && spender.is_zero_spec() {
            Some(PSP22Error::ZeroRecipientAddress)
        } else if dst.is_zero_spec() {
            Some(PSP22Error::ZeroRecipientAddress)
        } else if self.token.balance_spec(src) < value {
            Some(PSP22Error::InsufficientBalance)
        } else {
            None
        }
    }

    /// Transfers `value` pool tokens from `src` to `dst` on behalf of `spender`, who
    /// spends its allowance when it is not `src`. Interest is accrued first, and the
    /// controller must allow the transfer: `allowed` is its answer, given the account
    /// snapshot of `src` (see `pool_attributes`).
    pub fn _transfer_tokens(
        &mut self,
        env: Env,
        spender: AccountId,
        src: AccountId,
        dst: AccountId,
        value: u128,
        reward_ok: bool,
        allowed: Result<(), ControllerError>,
    ) -> (r: Result<(), PSP22Error>)
        requires
            old(self).wf(),
            old(self).accrual_fits(env.block_number, env.borrow_rate),
            src != dst ==> old(self).token.balance_spec(dst) + value <= u128_max(),
        ensures
            final(self).wf(),
            ({
                let custom = old(self).transfer_custom_refusal(env, src, dst, reward_ok, allowed);
                let token = old(self).transfer_token_refusal(spender, src, dst, value);
                &&& custom is Some ==> r is Err && r->Err_0 is Custom && r->Err_0->Custom_0@ == custom->Some_0
                &&& custom is None && token is Some ==> r == Err::<(), PSP22Error>(token->Some_0)
                &&& r is Ok <==> custom is None && token is None
            }),
            r is Err ==> *final(self) == *old(self),
            r is Ok ==> {
                &&& final(self).token.supply == old(self).token.supply
                &&& final(self).token.balances.view() == old(self).token.balances.view()
                    .insert(src, (old(self).token.balance_spec(src) - value) as u128)
                    .insert(dst, (old(self).token.balance_spec(dst) + value) as u128)
                &&& final(self).token.allowances.view() == (if spender == src {
                    old(self).token.allowances.view()
                } else {
                    old(self).token.allowances.view().insert(
                        AllowancesKey { owner: src, delegatee: spender },
                        (old(self).token.allowance_spec(src, spender) - value) as u128,
                    )
                })
                &&& old(self).accrual_block_number != env.block_number
                    ==> old(self).accrued(&*final(self), env.block_number, env.borrow_rate)
                &&& *final(self) == (Data {
                    token: final(self).token,
                    accrual_block_number: final(self).accrual_block_number,
                    total_borrows: final(self).total_borrows,
                    total_reserves: final(self).total_reserves,
                    borrow_index: final(self).borrow_index,
                    ..*old(self)
                })
                &&& old(self).accrual_block_number == env.block_number ==> *final(self) == (Data {
                    token: final(self).token,
                    ..*old(self)
                })
            },
    {
        if self.incentives_controller.is_some() && !reward_ok {
            return Err(PSP22Error::Custom("AccrueRewardFailed".to_owned()));
        }
        if self.accrue_check(env.block_number, env.borrow_rate).is_err() {
            return Err(PSP22Error::Custom("AccrueInterestFailed".to_owned()));
        }
        if src == dst {
            return Err(PSP22Error::Custom("TransferNotAllowed".to_owned()));
        }
        if self.controller.is_none() {
            return Err(PSP22Error::Custom("ControllerIsNotSet".to_owned()));
        }
        if let Err(e) = allowed {
            return Err(psp22_error_of(e));
        }
        if spender != src {
            let allowance = self.token._allowance(&src, &spender);
            if allowance < value {
                return Err(PSP22Error::InsufficientAllowance);
            }
        }
        if src.is_zero() {
            return Err(PSP22Error::ZeroSenderAddress);
        }
        if spender != src && spender.is_zero() {
            return Err(PSP22Error::ZeroRecipientAddress);
        }
        if dst.is_zero() {
            return Err(PSP22Error::ZeroRecipientAddress);
        }
        if self.token._balance_of(&src) < value {
            return Err(PSP22Error::InsufficientBalance);
        }
        let accrued = self._accrue_interest_at(env.block_number, env.borrow_rate);
        proof { assert(accrued is Ok); }
        if spender != src {
            let allowance = self.token._allowance(&src, &spender);
            let approved = self.token._approve_from_to(src, spender, allowance - value);
            proof { assert(approved is Ok); }
        }
        let moved = self.token._transfer_from_to(src, dst, value);
        proof { assert(moved is Ok); }
        Ok(())
    }

    /// The highest reserve factor is accepted, and the pool has accrued interest up to
    /// the current block before the factor changes.
    pub open spec fn set_reserve_factor_spec(&self, env: Env, new_reserve_factor_mantissa: WrappedU256) -> Result<(), Error> {
        if self.accrue_spec(env.block_number, env.borrow_rate) is Err {
            self.accrue_spec(env.block_number, env.borrow_rate)
        } else if new_reserve_factor_mantissa@ > exp_scale_spec() {
            Err(Error::SetReserveFactorBoundsCheck)
        } else {
            Ok(())
        }
    }

    /// The state after a successful accrual up to `at`: the same when already accrued.
    pub open spec fn accrual_done(&self, after: &Data, at: u64, borrow_rate: WrappedU256) -> bool {
        if self.accrual_block_number == at {
            after.accrual_block_number == self.accrual_block_number
                && after.total_borrows == self.total_borrows
                && after.total_reserves == self.total_reserves
                && after.borrow_index == self.borrow_index
        } else {
            self.accrued(after, at, borrow_rate)
        }
    }

    /// Accrues interest, then sets the reserve factor: the share of interest kept as
    /// reserves, at most 100%.
    pub fn _set_reserve_factor_mantissa(&mut self, env: Env, new_reserve_factor_mantissa: WrappedU256) -> (r: Result<(), Error>)
        requires
            old(self).wf(),
            old(self).accrual_fits(env.block_number, env.borrow_rate),
        ensures
            final(self).wf(),
            r == old(self).set_reserve_factor_spec(env, new_reserve_factor_mantissa),
            r is Err ==> *final(self) == *old(self),
            r is Ok ==> old(self).accrual_done(&*final(self), env.block_number, env.borrow_rate)
                && *final(self) == (Data {
                    reserve_factor_mantissa: new_reserve_factor_mantissa,
                    accrual_block_number: final(self).accrual_block_number,
                    total_borrows: final(self).total_borrows,
                    total_reserves: final(self).total_reserves,
                    borrow_index: final(self).borrow_index,
                    ..*old(self)
                }),
    {
        self.accrue_check(env.block_number, env.borrow_rate)?;
        if new_reserve_factor_mantissa.0.gt(&reserve_factor_max_mantissa()) {
            return Err(Error::SetReserveFactorBoundsCheck);
        }
        let accrued = self._accrue_interest_at(env.block_number, env.borrow_rate);
        proof { assert(accrued is Ok); }
        self.reserve_factor_mantissa = new_reserve_factor_mantissa;
        Ok(())
    }

    /// The manager check of the pool: `caller` is the manager.
    pub open spec fn assert_manager_spec(&self, caller: AccountId) -> Result<(), Error> {
        match self.manager {
            None => Err(Error::ManagerIsNotSet),
            Some(m) => if caller == m {
                Ok(())
            } else {
                Err(Error::CallerIsNotManager)
            },
        }
    }

    /// The caller is the manager.
    pub fn _assert_manager(&self, caller: AccountId) -> (r: Result<(), Error>)
        ensures
            r == self.assert_manager_spec(caller),
    {
        let manager = match self.manager {
            Some(m) => m,
            None => return Err(Error::ManagerIsNotSet),
        };
        if caller != manager {
            return Err(Error::CallerIsNotManager);
        }
        Ok(())
    }

    /// The caller is the pending manager.
    pub fn _assert_pending_manager(&self, caller: AccountId) -> (r: Result<(), Error>)
        ensures
            r == (match self.pending_manager {
                None => Err::<(), Error>(Error::PendingManagerIsNotSet),
                Some(m) => if caller == m {
                    Ok(())
                } else {
                    Err(Error::CallerIsNotPendingManager)
                },
            }),
    {
        let pending_manager = match self.pending_manager {
            Some(m) => m,
            None => return Err(Error::PendingManagerIsNotSet),
        };
        if caller != pending_manager {
            return Err(Error::CallerIsNotPendingManager);
        }
        Ok(())
    }

    /// The manager sets the reserve factor, after the pool accrued interest.
    pub fn set_reserve_factor_mantissa(&mut self, env: Env, new_reserve_factor_mantissa: WrappedU256) -> (r: Result<(), Error>)
        requires
            old(self).wf(),
            old(self).accrual_fits(env.block_number, env.borrow_rate),
        ensures
            final(self).wf(),
            r == (if old(self).assert_manager_spec(env.caller) is Err {
                old(self).assert_manager_spec(env.caller)
            } else {
                old(self).set_reserve_factor_spec(env, new_reserve_factor_mantissa)
            }),
            r is Err ==> *final(self) == *old(self),
            r is Ok ==> old(self).accrual_done(&*final(self), env.block_number, env.borrow_rate)
                && final(self).reserve_factor_mantissa == new_reserve_factor_mantissa,
    {
        self._assert_manager(env.caller)?;
        self._set_reserve_factor_mantissa(env, new_reserve_factor_mantissa)
    }

    /// Sets the interest rate model of a pool that has accrued interest up to the
    /// current block.
    pub fn _set_interest_rate_model(&mut self, env: Env, new_interest_rate_model: AccountId) -> (r: Result<(), Error>)
        ensures
            r == (if old(self).accrual_block_number != env.block_number {
                Err::<(), Error>(Error::AccrualBlockNumberIsNotFresh)
            } else {
                Ok(())
            }),
            r is Err ==> *final(self) == *old(self),
            r is Ok ==> *final(self) == (Data { rate_model: Some(new_interest_rate_model), ..*old(self) }),
    {
        if self.accrual_block_number != env.block_number {
            return Err(Error::AccrualBlockNumberIsNotFresh);
        }
        self.rate_model = Some(new_interest_rate_model);
        Ok(())
    }

    /// The manager replaces the interest rate model, after the pool accrued interest
    /// at the old model's rate.
    pub fn set_interest_rate_model(&mut self, env: Env, new_interest_rate_model: AccountId) -> (r: Result<(), Error>)
        requires
            old(self).wf(),
            old(self).accrual_fits(env.block_number, env.borrow_rate),
        ensures
            final(self).wf(),
            r == (if old(self).assert_manager_spec(env.caller) is Err {
                old(self).assert_manager_spec(env.caller)
            } else {
                old(self).accrue_spec(env.block_number, env.borrow_rate)
            }),
            r is Err ==> *final(self) == *old(self),
            r is Ok ==> old(self).accrual_done(&*final(self), env.block_number, env.borrow_rate)
                && *final(self) == (Data {
                    rate_model: Some(new_interest_rate_model),
                    accrual_block_number: final(self).accrual_block_number,
                    total_borrows: final(self).total_borrows,
                    total_reserves: final(self).total_reserves,
                    borrow_index: final(self).borrow_index,
                    ..*old(self)
                }),
    {
        self._assert_manager(env.caller)?;
        self.accrue_check(env.block_number, env.borrow_rate)?;
        let accrued = self._accrue_interest_at(env.block_number, env.borrow_rate);
        proof { assert(accrued is Ok); }
        let set = self._set_interest_rate_model(env, new_interest_rate_model);
        proof { assert(set is Ok); }
        Ok(())
    }

    /// Adds `amount` of the caller's underlying to the reserves of a pool that has
    /// accrued interest up to the current block; `received` is the underlying token's
    /// answer to the transfer into the pool.
    pub fn _add_reserves(&mut self, env: Env, amount: u128, received: Result<(), PSP22Error>) -> (r: Result<(), Error>)
        requires
            old(self).accrual_block_number == env.block_number ==> old(self).total_reserves + amount <= u128_max(),
        ensures
            r == (if old(self).accrual_block_number != env.block_number {
                Err::<(), Error>(Error::AccrualBlockNumberIsNotFresh)
            } else {
                old(self).transfer_underlying_spec(received)
            }),
            r is Err ==> *final(self) == *old(self),
            r is Ok ==> *final(self) == (Data { total_reserves: (old(self).total_reserves + amount) as u128, ..*old(self) }),
    {
        if self.accrual_block_number != env.block_number {
            return Err(Error::AccrualBlockNumberIsNotFresh);
        }
        let total_reserves_new = self.total_reserves + amount;
        self._transfer_underlying(received)?;
        self.total_reserves = total_reserves_new;
        Ok(())
    }

    /// The refusals of `_reduce_reserves`, in order.
    pub open spec fn reduce_reserves_spec(&self, env: Env, amount: u128, sent: Result<(), PSP22Error>) -> Result<(), Error> {
        if self.accrual_block_number != env.block_number {
            Err(Error::AccrualBlockNumberIsNotFresh)
        } else if env.cash < amount {
            Err(Error::ReduceReservesCashNotAvailable)
        } else if self.total_reserves < amount {
            Err(Error::ReduceReservesCashValidation)
        } else {
            self.transfer_underlying_spec(sent)
        }
    }

    /// Sends `amount` of the reserves to the manager; `sent` is the underlying
    /// token's answer to the transfer.
    pub fn _reduce_reserves(&mut self, env: Env, amount: u128, sent: Result<(), PSP22Error>) -> (r: Result<(), Error>)
        ensures
            r == old(self).reduce_reserves_spec(env, amount, sent),
            r is Err ==> *final(self) == *old(self),
            r is Ok ==> *final(self) == (Data { total_reserves: (old(self).total_reserves - amount) as u128, ..*old(self) }),
    {
        if self.accrual_block_number != env.block_number {
            return Err(Error::AccrualBlockNumberIsNotFresh);
        }
        if env.cash < amount {
            return Err(Error::ReduceReservesCashNotAvailable);
        }
        if self.total_reserves < amount {
            return Err(Error::ReduceReservesCashValidation);
        }
        self._transfer_underlying(sent)?;
        self.total_reserves = self.total_reserves - amount;
        Ok(())
    }

    /// The outcome of sweeping `asset`, given the token's answer to the transfer.
    pub open spec fn sweep_spec(&self, asset: AccountId, sent: Result<(), PSP22Error>) -> Result<(), Error> {
        match self.underlying {
            None => Err(Error::UnderlyingIsNotSet),
            Some(u) => if asset == u {
                Err(Error::CannotSweepUnderlyingToken)
            } else if sent is Err {
                Err(Error::PSP22(sent->Err_0))
            } else {
                Ok(())
            },
        }
    }

    /// Sends the pool's whole balance of `asset`, any token but the underlying, to
    /// the caller; `sent` is the token's answer to the transfer.
    pub fn _sweep_token(&self, asset: AccountId, sent: Result<(), PSP22Error>) -> (r: Result<(), Error>)
        ensures
            r == self.sweep_spec(asset, sent),
    {
        let underlying = match self.underlying {
            Some(u) => u,
            None => return Err(Error::UnderlyingIsNotSet),
        };
        if asset == underlying {
            return Err(Error::CannotSweepUnderlyingToken);
        }
        match sent {
            Ok(()) => Ok(()),
            Err(e) => Err(Error::PSP22(e)),
        }
    }

    /// The refusals of a new liquidation threshold (4 decimals), in order: it must lie
    /// above the pool's collateral factor (18 decimals).
    pub open spec fn liquidation_threshold_spec(&self, new_liquidation_threshold: u128, collateral_factor: Option<WrappedU256>) -> Result<(), Error> {
        if self.controller.is_none() {
            Err(Error::ControllerIsNotSet)
        } else if collateral_factor.is_none() {
            Err(Error::Controller(ControllerError::InvalidCollateralFactor))
        } else if collateral_factor->Some_0@ >= new_liquidation_threshold * pow10(14) {
            Err(Error::InvalidLiquidationThreshold)
        } else {
            Ok(())
        }
    }

    /// Sets the liquidation threshold (4 decimals), which must lie above the pool's
    /// collateral factor (18 decimals); `collateral_factor` is what the controller
    /// holds for this pool.
    pub fn _set_liquidation_threshold(&mut self, new_liquidation_threshold: u128, collateral_factor: Option<WrappedU256>) -> (r: Result<(), Error>)
        ensures
            r == old(self).liquidation_threshold_spec(new_liquidation_threshold, collateral_factor),
            r is Err ==> *final(self) == *old(self),
            r is Ok ==> *final(self) == (Data { liquidation_threshold: new_liquidation_threshold, ..*old(self) }),
    {
        if self.controller.is_none() {
            return Err(Error::ControllerIsNotSet);
        }
        let collateral_factor = match collateral_factor {
            Some(cf) => cf,
            None => return Err(Error::Controller(ControllerError::InvalidCollateralFactor)),
        };
        let scale = pow10_u128((COLLATERAL_FACTOR_MANTISSA_DECIMALS - LIQUIDATION_THRESHOLD_DECIMALS) as u8);
        proof {
            assert(new_liquidation_threshold * pow10(14) <= u256_max()) by (nonlinear_arith)
                requires new_liquidation_threshold <= u128_max(), pow10(14) <= u128_max(),
                    u128_max() == 0xffff_ffff_ffff_ffff_ffff_ffff_ffff_ffffnat,
                    u256_max() == 0xffff_ffff_ffff_ffff_ffff_ffff_ffff_ffff_ffff_ffff_ffff_ffff_ffff_ffff_ffff_ffffnat;
        }
        let threshold = U256::from_u128(new_liquidation_threshold).mul(U256::from_u128(scale));
        if collateral_factor.0.ge(&threshold) {
            return Err(Error::InvalidLiquidationThreshold);
        }
        self.liquidation_threshold = new_liquidation_threshold;
        Ok(())
    }

    /// What `delegatee` may still borrow on behalf of `owner`.
    pub open spec fn delegate_allowance_spec(&self, owner: AccountId, delegatee: AccountId) -> nat {
        get_or_zero(self.delegate_allowance.view(), AllowancesKey { owner, delegatee })
    }

    pub fn _delegate_allowance(&self, owner: &AccountId, delegatee: &AccountId) -> (r: u128)
        requires
            self.wf(),
        ensures
            r as nat == self.delegate_allowance_spec(*owner, *delegatee),
    {
        match self.delegate_allowance.get(&AllowancesKey { owner: *owner, delegatee: *delegatee }) {
            Some(a) => a,
            None => 0,
        }
    }

    /// Lets `delegatee` borrow up to `amount` on behalf of `owner`.
    pub fn _approve_delegate(&mut self, owner: AccountId, delegatee: AccountId, amount: u128) -> (r: Result<(), Error>)
        requires
            old(self).wf(),
        ensures
            final(self).wf(),
            r == (if owner.is_zero_spec() {
                Err::<(), Error>(Error::ZeroOwnerAddress)
            } else if delegatee.is_zero_spec() {
                Err(Error::ZeroDelegateeAddress)
            } else {
                Ok(())
            }),
            r is Err ==> *final(self) == *old(self),
            r is Ok ==> final(self).delegate_allowance.view()
                    == old(self).delegate_allowance.view().insert(AllowancesKey { owner, delegatee }, amount)
                && *final(self) == (Data { delegate_allowance: final(self).delegate_allowance, ..*old(self) }),
    {
        if owner.is_zero() {
            return Err(Error::ZeroOwnerAddress);
        }
        if delegatee.is_zero() {
            return Err(Error::ZeroDelegateeAddress);
        }
        self.delegate_allowance.insert(&AllowancesKey { owner, delegatee }, &amount);
        Ok(())
    }

    /// The caller lets `delegatee` borrow up to `amount` on its behalf.
    pub fn approve_delegate(&mut self, env: Env, delegatee: AccountId, amount: u128) -> (r: Result<(), Error>)
        requires
            old(self).wf(),
        ensures
            final(self).wf(),
            r == (if env.caller.is_zero_spec() {
                Err::<(), Error>(Error::ZeroOwnerAddress)
            } else if delegatee.is_zero_spec() {
                Err(Error::ZeroDelegateeAddress)
            } else {
                Ok(())
            }),
            r is Err ==> *final(self) == *old(self),
            r is Ok ==> final(self).delegate_allowance_spec(env.caller, delegatee) == amount
                && *final(self) == (Data { delegate_allowance: final(self).delegate_allowance, ..*old(self) }),
    {
        self._approve_delegate(env.caller, delegatee, amount)
    }

    /// The caller raises what `delegatee` may borrow on its behalf by `amount`.
    pub fn increase_delegate_allowance(&mut self, env: Env, delegatee: AccountId, amount: u128) -> (r: Result<(), Error>)
        requires
            old(self).wf(),
            old(self).delegate_allowance_spec(env.caller, delegatee) + amount <= u128_max(),
        ensures
            final(self).wf(),
            r == (if env.caller.is_zero_spec() {
                Err::<(), Error>(Error::ZeroOwnerAddress)
            } else if delegatee.is_zero_spec() {
                Err(Error::ZeroDelegateeAddress)
            } else {
                Ok(())
            }),
            r is Err ==> *final(self) == *old(self),
            r is Ok ==> final(self).delegate_allowance_spec(env.caller, delegatee)
                    == old(self).delegate_allowance_spec(env.caller, delegatee) + amount
                && *final(self) == (Data { delegate_allowance: final(self).delegate_allowance, ..*old(self) }),
    {
        let owner = env.caller;
        let allowance = self._delegate_allowance(&owner, &delegatee);
        self._approve_delegate(owner, delegatee, allowance + amount)
    }

    /// The caller lowers what `delegatee` may borrow on its behalf by `amount`.
    pub fn decrease_delegate_allowance(&mut self, env: Env, delegatee: AccountId, amount: u128) -> (r: Result<(), Error>)
        requires
            old(self).wf(),
        ensures
            final(self).wf(),
            r == (if old(self).delegate_allowance_spec(env.caller, delegatee) < amount {
                Err::<(), Error>(Error::InsufficientDelegateAllowance)
            } else if env.caller.is_zero_spec() {
                Err(Error::ZeroOwnerAddress)
            } else if delegatee.is_zero_spec() {
                Err(Error::ZeroDelegateeAddress)
            } else {
                Ok(())
            }),
            r is Err ==> *final(self) == *old(self),
            r is Ok ==> final(self).delegate_allowance_spec(env.caller, delegatee)
                    == old(self).delegate_allowance_spec(env.caller, delegatee) - amount
                && *final(self) == (Data { delegate_allowance: final(self).delegate_allowance, ..*old(self) }),
    {
        let owner = env.caller;
        let allowance = self._delegate_allowance(&owner, &delegatee);
        if allowance < amount {
            return Err(Error::InsufficientDelegateAllowance);
        }
        self._approve_delegate(owner, delegatee, allowance - amount)
    }

    /// A caller other than `owner` may act for `owner` on `amount` only within the
    /// delegate allowance `owner` gave it.
    pub fn delegated_allowed(&self, env: Env, owner: AccountId, amount: u128) -> (r: Result<(), Error>)
        requires
            self.wf(),
        ensures
            r == (if env.caller != owner && self.delegate_allowance_spec(owner, env.caller) < amount {
                Err::<(), Error>(Error::InsufficientDelegateAllowance)
            } else {
                Ok(())
            }),
    {
        let delegatee = env.caller;
        if delegatee != owner {
            let delegate_allowance = self._delegate_allowance(&owner, &delegatee);
            if delegate_allowance < amount {
                return Err(Error::InsufficientDelegateAllowance);
            }
        }
        Ok(())
    }

    /// Only the controller's flash-loan gateway may call; `flashloan_gateway` is the
    /// gateway the controller names.
    pub fn only_flashloan_gateway(&self, env: Env, flashloan_gateway: Option<AccountId>) -> (r: Result<(), Error>)
        ensures
            r == (if self.controller.is_none() {
                Err::<(), Error>(Error::ControllerIsNotSet)
            } else if flashloan_gateway != Some(env.caller) {
                Err(Error::CallerIsNotFlashloanGateway)
            } else {
                Ok(())
            }),
    {
        if self.controller.is_none() {
            return Err(Error::ControllerIsNotSet);
        }
        match flashloan_gateway {
            Some(g) => if env.caller != g {
                Err(Error::CallerIsNotFlashloanGateway)
            } else {
                Ok(())
            },
            None => Err(Error::CallerIsNotFlashloanGateway),
        }
    }

    /// Whether `user` may stop using its supply as collateral, in a pool that has
    /// accrued interest up to the current block: always when enabling or when it is
    /// not collateral; otherwise it needs a balance, and the controller must allow
    /// the balance to leave the collateral (`allowed` is its answer).
    pub fn _validate_set_use_reserve_as_collateral(
        &self,
        user: AccountId,
        use_as_collateral: bool,
        allowed: Result<(), ControllerError>,
    ) -> (r: Result<(), Error>)
        requires
            self.wf(),
        ensures
            r == (if use_as_collateral || !self.collateral_enabled(user) {
                Ok::<(), Error>(())
            } else if self.token.balance_spec(user) == 0 {
                Err(Error::PSP22(PSP22Error::InsufficientBalance))
            } else if self.controller.is_none() {
                Err(Error::ControllerIsNotSet)
            } else if allowed is Err {
                Err(Error::Controller(allowed->Err_0))
            } else {
                Ok(())
            }),
    {
        let enabled = match self._using_reserve_as_collateral(user) {
            Some(b) => b,
            None => false,
        };
        if use_as_collateral || !enabled {
            return Ok(());
        }
        let account_balance = self.token._balance_of(&user);
        if account_balance == 0 {
            return Err(Error::PSP22(PSP22Error::InsufficientBalance));
        }
        if self.controller.is_none() {
            return Err(Error::ControllerIsNotSet);
        }
        match allowed {
            Ok(()) => Ok(()),
            Err(e) => Err(Error::Controller(e)),
        }
    }

    /// The manager names a new pending manager, who must then accept.
    pub fn set_manager(&mut self, env: Env, manager: AccountId) -> (r: Result<(), Error>)
        ensures
            r == old(self).assert_manager_spec(env.caller),
            r is Err ==> *final(self) == *old(self),
            r is Ok ==> *final(self) == (Data { pending_manager: Some(manager), ..*old(self) }),
    {
        self._assert_manager(env.caller)?;
        self.pending_manager = Some(manager);
        Ok(())
    }

    /// The pending manager becomes the manager.
    pub fn _accept_manager(&mut self) -> (r: Result<(), Error>)
        ensures
            r == (if old(self).manager.is_none() {
                Err::<(), Error>(Error::ManagerIsNotSet)
            } else if old(self).pending_manager.is_none() {
                Err(Error::PendingManagerIsNotSet)
            } else {
                Ok(())
            }),
            r is Err ==> *final(self) == *old(self),
            r is Ok ==> *final(self) == (Data { manager: old(self).pending_manager, pending_manager: None, ..*old(self) }),
    {
        if self.manager.is_none() {
            return Err(Error::ManagerIsNotSet);
        }
        let pending_manager = match self.pending_manager {
            Some(m) => m,
            None => return Err(Error::PendingManagerIsNotSet),
        };
        self.manager = Some(pending_manager);
        self.pending_manager = None;
        Ok(())
    }

    /// The refusals of `accept_manager`, in order.
    pub open spec fn accept_manager_spec(&self, caller: AccountId) -> Result<(), Error> {
        if self.pending_manager.is_none() {
            Err(Error::PendingManagerIsNotSet)
        } else if self.pending_manager != Some(caller) {
            Err(Error::CallerIsNotPendingManager)
        } else if self.manager.is_none() {
            Err(Error::ManagerIsNotSet)
        } else {
            Ok(())
        }
    }

    /// The pending manager, calling, becomes the manager.
    pub fn accept_manager(&mut self, env: Env) -> (r: Result<(), Error>)
        ensures
            r == old(self).accept_manager_spec(env.caller),
            r is Err ==> *final(self) == *old(self),
            r is Ok ==> *final(self) == (Data { manager: Some(env.caller), pending_manager: None, ..*old(self) }),
    {
        self._assert_pending_manager(env.caller)?;
        self._accept_manager()
    }

    /// The manager sets the controller.
    pub fn set_controller(&mut self, env: Env, new_controller: AccountId) -> (r: Result<(), Error>)
        ensures
            r == old(self).assert_manager_spec(env.caller),
            r is Err ==> *final(self) == *old(self),
            r is Ok ==> *final(self) == (Data { controller: Some(new_controller), ..*old(self) }),
    {
        self._assert_manager(env.caller)?;
        self.controller = Some(new_controller);
        Ok(())
    }

    /// The manager sets the incentives controller.
    pub fn set_incentives_controller(&mut self, env: Env, incentives_controller: AccountId) -> (r: Result<(), Error>)
        ensures
            r == old(self).assert_manager_spec(env.caller),
            r is Err ==> *final(self) == *old(self),
            r is Ok ==> *final(self) == (Data { incentives_controller: Some(incentives_controller), ..*old(self) }),
    {
        self._assert_manager(env.caller)?;
        self.incentives_controller = Some(incentives_controller);
        Ok(())
    }

    /// The manager sets the liquidation threshold; see `_set_liquidation_threshold`.
    pub fn set_liquidation_threshold(&mut self, env: Env, new_liquidation_threshold: u128, collateral_factor: Option<WrappedU256>) -> (r: Result<(), Error>)
        ensures
            r == (if old(self).assert_manager_spec(env.caller) is Err {
                old(self).assert_manager_spec(env.caller)
            } else {
                old(self).liquidation_threshold_spec(new_liquidation_threshold, collateral_factor)
            }),
            r is Err ==> *final(self) == *old(self),
            r is Ok ==> *final(self) == (Data { liquidation_threshold: new_liquidation_threshold, ..*old(self) }),
    {
        self._assert_manager(env.caller)?;
        self._set_liquidation_threshold(new_liquidation_threshold, collateral_factor)
    }

    /// The pool's metadata.
    pub fn metadata(&self) -> (r: PoolMetaData)
        ensures
            r == (PoolMetaData {
                underlying: self.underlying,
                decimals: self.decimals,
                liquidation_threshold: self.liquidation_threshold,
            }),
    {
        PoolMetaData {
            underlying: self.underlying,
            decimals: self.decimals,
            liquidation_threshold: self.liquidation_threshold,
        }
    }

    /// The pool's totals when it holds `cash` of the underlying.
    pub fn status(&self, cash: u128) -> (r: PoolStatus)
        requires
            self.exchange_rate_defined(cash),
        ensures
            r.total_supply == self.token.supply,
            r.total_borrows == self.total_borrows,
            r.exchange_rate@ == self.exchange_rate_spec(cash),
    {
        PoolStatus {
            total_supply: self.token.supply,
            total_borrows: self.total_borrows,
            exchange_rate: self._exchange_rate_stored(cash),
        }
    }

    /// The exchange rate of pool tokens to the underlying when the pool holds `cash`.
    pub fn exchange_rate_stored(&self, cash: u128) -> (r: WrappedU256)
        requires
            self.exchange_rate_defined(cash),
        ensures
            r@ == self.exchange_rate_spec(cash),
    {
        WrappedU256(self._exchange_rate_stored(cash))
    }

    /// Whether `user` uses its supply as collateral.
    pub fn using_reserve_as_collateral(&self, user: AccountId) -> (r: bool)
        requires
            self.wf(),
        ensures
            r == self.collateral_enabled(user),
    {
        match self._using_reserve_as_collateral(user) {
            Some(b) => b,
            None => false,
        }
    }

    /// The supply rate per millisecond: the interest rate model's answer `model_rate`
    /// for the pool's balances and reserve factor, zero without a model.
    pub fn _supply_rate_per_msec(&self, model_rate: WrappedU256) -> (r: WrappedU256)
        ensures
            r == (if self.rate_model.is_some() { model_rate } else { WrappedU256(U256 { limbs: [0, 0, 0, 0] }) }),
    {
        if self.rate_model.is_some() {
            return model_rate;
        }
        WrappedU256(U256 { limbs: [0, 0, 0, 0] })
    }

    /// The borrow rate per millisecond: the interest rate model's answer `model_rate`,
    /// zero without a model.
    pub fn _borrow_rate_per_msec(&self, model_rate: WrappedU256) -> (r: WrappedU256)
        ensures
            r == (if self.rate_model.is_some() { model_rate } else { WrappedU256(U256 { limbs: [0, 0, 0, 0] }) }),
    {
        if self.rate_model.is_some() {
            return model_rate;
        }
        WrappedU256(U256 { limbs: [0, 0, 0, 0] })
    }

    /// `mid` is `self` once interest accrued up to `at` at `rate`.
    pub open spec fn accrues_to(&self, mid: &Data, at: u64, rate: WrappedU256) -> bool {
        &&& self.accrual_done(mid, at, rate)
        &&& mid.accrual_block_number == at
        &&& self.same_but_accrual(mid)
    }

    /// Puts back the accrual fields of `saved`: a refused message leaves the pool as
    /// it found it.
    fn restore_accrual(&mut self, saved: (u64, u128, u128, WrappedU256))
        ensures
            *final(self) == (Data {
                accrual_block_number: saved.0,
                total_borrows: saved.1,
                total_reserves: saved.2,
                borrow_index: saved.3,
                ..*old(self)
            }),
    {
        self.accrual_block_number = saved.0;
        self.total_borrows = saved.1;
        self.total_reserves = saved.2;
        self.borrow_index = saved.3;
    }

    /// The caller supplies `mint_amount` of the underlying for `minter`, after the
    /// pool accrued interest; see `_mint`. A refusal leaves the pool unchanged.
    pub fn mint_to(
        &mut self,
        env: Env,
        minter: AccountId,
        mint_amount: u128,
        reward_ok: bool,
        allowed: Result<(), ControllerError>,
        transfer_in: Result<(), PSP22Error>,
    ) -> (r: Result<(), Error>)
        requires
            old(self).wf(),
            old(self).accrual_fits(env.block_number, env.borrow_rate),
            forall|mid: Data| #[trigger] old(self).accrues_to(&mid, env.block_number, env.borrow_rate)
                && mid.mint_checks(env, reward_ok, allowed, transfer_in) is Ok
                ==> mid.mint_fits(env, minter, mint_amount),
        ensures
            final(self).wf(),
            old(self).accrue_spec(env.block_number, env.borrow_rate) is Err
                ==> r == old(self).accrue_spec(env.block_number, env.borrow_rate),
            r is Err ==> *final(self) == *old(self),
            old(self).accrue_spec(env.block_number, env.borrow_rate) is Ok ==> exists|mid: Data|
                #[trigger] old(self).accrues_to(&mid, env.block_number, env.borrow_rate)
                && r == mid.mint_spec(env, minter, reward_ok, allowed, transfer_in)
                && (r is Ok ==> mid.mint_effect(&*final(self), env.cash, minter, mint_amount)),
    {
        let saved = (self.accrual_block_number, self.total_borrows, self.total_reserves, self.borrow_index);
        self._accrue_interest_at(env.block_number, env.borrow_rate)?;
        let ghost mid = *self;
        assert(old(self).accrues_to(&mid, env.block_number, env.borrow_rate));
        let r = self._mint(env, minter, mint_amount, reward_ok, allowed, transfer_in);
        if r.is_err() {
            self.restore_accrual(saved);
        }
        r
    }

    /// The caller supplies `mint_amount` of the underlying for itself; see `mint_to`.
    pub fn mint(
        &mut self,
        env: Env,
        mint_amount: u128,
        reward_ok: bool,
        allowed: Result<(), ControllerError>,
        transfer_in: Result<(), PSP22Error>,
    ) -> (r: Result<(), Error>)
        requires
            old(self).wf(),
            old(self).accrual_fits(env.block_number, env.borrow_rate),
            forall|mid: Data| #[trigger] old(self).accrues_to(&mid, env.block_number, env.borrow_rate)
                && mid.mint_checks(env, reward_ok, allowed, transfer_in) is Ok
                ==> mid.mint_fits(env, env.caller, mint_amount),
        ensures
            final(self).wf(),
            old(self).accrue_spec(env.block_number, env.borrow_rate) is Err
                ==> r == old(self).accrue_spec(env.block_number, env.borrow_rate),
            r is Err ==> *final(self) == *old(self),
            old(self).accrue_spec(env.block_number, env.borrow_rate) is Ok ==> exists|mid: Data|
                #[trigger] old(self).accrues_to(&mid, env.block_number, env.borrow_rate)
                && r == mid.mint_spec(env, env.caller, reward_ok, allowed, transfer_in)
                && (r is Ok ==> mid.mint_effect(&*final(self), env.cash, env.caller, mint_amount)),
    {
        self.mint_to(env, env.caller, mint_amount, reward_ok, allowed, transfer_in)
    }

    /// The caller redeems `redeem_amount` of its pool tokens, after the pool accrued
    /// interest; see `_redeem`. A refusal leaves the pool unchanged.
    pub fn redeem_underlying(
        &mut self,
        env: Env,
        redeem_amount: u128,
        reward_ok: bool,
        allowed: Result<(), ControllerError>,
        sent: Result<(), PSP22Error>,
    ) -> (r: Result<(), Error>)
        requires
            old(self).wf(),
            old(self).accrual_fits(env.block_number, env.borrow_rate),
        ensures
            final(self).wf(),
            old(self).accrue_spec(env.block_number, env.borrow_rate) is Err
                ==> r == old(self).accrue_spec(env.block_number, env.borrow_rate),
            r is Err ==> *final(self) == *old(self),
            old(self).accrue_spec(env.block_number, env.borrow_rate) is Ok ==> exists|mid: Data|
                #[trigger] old(self).accrues_to(&mid, env.block_number, env.borrow_rate)
                && r == mid.redeem_spec(env, env.caller, redeem_amount, reward_ok, allowed, sent)
                && (r is Ok && mid.redeem_moves(env.caller, redeem_amount, reward_ok)
                    ==> mid.redeem_effect(&*final(self), env.caller, redeem_amount))
                && (r is Ok && !mid.redeem_moves(env.caller, redeem_amount, reward_ok) ==> *final(self) == mid),
    {
        let saved = (self.accrual_block_number, self.total_borrows, self.total_reserves, self.borrow_index);
        self._accrue_interest_at(env.block_number, env.borrow_rate)?;
        let ghost mid = *self;
        assert(old(self).accrues_to(&mid, env.block_number, env.borrow_rate));
        let r = self._redeem(env, env.caller, redeem_amount, reward_ok, allowed, sent);
        if r.is_err() {
            self.restore_accrual(saved);
        }
        r
    }

    /// The caller redeems all its pool tokens; see `redeem_underlying`.
    pub fn redeem_all(
        &mut self,
        env: Env,
        reward_ok: bool,
        allowed: Result<(), ControllerError>,
        sent: Result<(), PSP22Error>,
    ) -> (r: Result<(), Error>)
        requires
            old(self).wf(),
            old(self).accrual_fits(env.block_number, env.borrow_rate),
        ensures
            final(self).wf(),
            old(self).accrue_spec(env.block_number, env.borrow_rate) is Err
                ==> r == old(self).accrue_spec(env.block_number, env.borrow_rate),
            r is Err ==> *final(self) == *old(self),
            old(self).accrue_spec(env.block_number, env.borrow_rate) is Ok ==> exists|mid: Data|
                #[trigger] old(self).accrues_to(&mid, env.block_number, env.borrow_rate)
                && r == mid.redeem_spec(env, env.caller, mid.token.balance_spec(env.caller) as u128, reward_ok, allowed, sent)
                && (r is Ok && mid.redeem_moves(env.caller, mid.token.balance_spec(env.caller) as u128, reward_ok)
                    ==> mid.redeem_effect(&*final(self), env.caller, mid.token.balance_spec(env.caller) as u128)),
    {
        let saved = (self.accrual_block_number, self.total_borrows, self.total_reserves, self.borrow_index);
        self._accrue_interest_at(env.block_number, env.borrow_rate)?;
        let ghost mid = *self;
        assert(old(self).accrues_to(&mid, env.block_number, env.borrow_rate));
        let all_tokens_redeemed = self.token._balance_of(&env.caller);
        let r = self._redeem(env, env.caller, all_tokens_redeemed, reward_ok, allowed, sent);
        if r.is_err() {
            self.restore_accrual(saved);
        }
        r
    }

    /// `borrower` borrows `borrow_amount` after the pool accrued interest; see
    /// `_borrow`. A refusal leaves the pool unchanged.
    fn borrow_accrued(
        &mut self,
        env: Env,
        borrower: AccountId,
        borrow_amount: u128,
        release_underlying: bool,
        reward_ok: bool,
        allowed: Result<(), ControllerError>,
        sent: Result<(), PSP22Error>,
    ) -> (r: Result<(), Error>)
        requires
            old(self).wf(),
            old(self).accrual_fits(env.block_number, env.borrow_rate),
            forall|mid: Data| #[trigger] old(self).accrues_to(&mid, env.block_number, env.borrow_rate)
                && mid.borrow_spec(env, borrow_amount, release_underlying, reward_ok, allowed, sent) is Ok
                ==> mid.borrow_fits(borrower, borrow_amount),
        ensures
            final(self).wf(),
            old(self).accrue_spec(env.block_number, env.borrow_rate) is Err
                ==> r == old(self).accrue_spec(env.block_number, env.borrow_rate),
            r is Err ==> *final(self) == *old(self),
            old(self).accrue_spec(env.block_number, env.borrow_rate) is Ok ==> exists|mid: Data|
                #[trigger] old(self).accrues_to(&mid, env.block_number, env.borrow_rate)
                && r == mid.borrow_spec(env, borrow_amount, release_underlying, reward_ok, allowed, sent)
                && (r is Ok ==> mid.borrow_effect(&*final(self), borrower, borrow_amount)),
    {
        let saved = (self.accrual_block_number, self.total_borrows, self.total_reserves, self.borrow_index);
        self._accrue_interest_at(env.block_number, env.borrow_rate)?;
        let ghost mid = *self;
        assert(old(self).accrues_to(&mid, env.block_number, env.borrow_rate));
        let r = self._borrow(env, borrower, borrow_amount, release_underlying, reward_ok, allowed, sent);
        if r.is_err() {
            self.restore_accrual(saved);
        }
        r
    }

    /// The caller borrows `borrow_amount` for itself; see `_borrow`.
    pub fn borrow(
        &mut self,
        env: Env,
        borrow_amount: u128,
        reward_ok: bool,
        allowed: Result<(), ControllerError>,
        sent: Result<(), PSP22Error>,
    ) -> (r: Result<(), Error>)
        requires
            old(self).wf(),
            old(self).accrual_fits(env.block_number, env.borrow_rate),
            forall|mid: Data| #[trigger] old(self).accrues_to(&mid, env.block_number, env.borrow_rate)
                && mid.borrow_spec(env, borrow_amount, true, reward_ok, allowed, sent) is Ok
                ==> mid.borrow_fits(env.caller, borrow_amount),
        ensures
            final(self).wf(),
            old(self).accrue_spec(env.block_number, env.borrow_rate) is Err
                ==> r == old(self).accrue_spec(env.block_number, env.borrow_rate),
            r is Err ==> *final(self) == *old(self),
            old(self).accrue_spec(env.block_number, env.borrow_rate) is Ok ==> exists|mid: Data|
                #[trigger] old(self).accrues_to(&mid, env.block_number, env.borrow_rate)
                && r == mid.borrow_spec(env, borrow_amount, true, reward_ok, allowed, sent)
                && (r is Ok ==> mid.borrow_effect(&*final(self), env.caller, borrow_amount)),
    {
        self.borrow_accrued(env, env.caller, borrow_amount, true, reward_ok, allowed, sent)
    }

    /// The flash-loan gateway records `borrow_amount` as `borrower`'s borrow; the
    /// underlying stays in the pool. `flashloan_gateway` is the gateway the
    /// controller names.
    pub fn borrow_for_flashloan(
        &mut self,
        env: Env,
        flashloan_gateway: Option<AccountId>,
        borrower: AccountId,
        borrow_amount: u128,
        reward_ok: bool,
        allowed: Result<(), ControllerError>,
    ) -> (r: Result<(), Error>)
        requires
            old(self).wf(),
            old(self).accrual_fits(env.block_number, env.borrow_rate),
            forall|mid: Data| #[trigger] old(self).accrues_to(&mid, env.block_number, env.borrow_rate)
                && mid.borrow_spec(env, borrow_amount, false, reward_ok, allowed, Ok(())) is Ok
                ==> mid.borrow_fits(borrower, borrow_amount),
        ensures
            final(self).wf(),
            r is Err ==> *final(self) == *old(self),
            old(self).controller.is_none() ==> r == Err::<(), Error>(Error::ControllerIsNotSet),
            old(self).controller.is_some() && flashloan_gateway != Some(env.caller)
                ==> r == Err::<(), Error>(Error::CallerIsNotFlashloanGateway),
            old(self).controller.is_some() && flashloan_gateway == Some(env.caller)
                && old(self).accrue_spec(env.block_number, env.borrow_rate) is Err ==> r == old(self).accrue_spec(env.block_number, env.borrow_rate),
            old(self).controller.is_some() && flashloan_gateway == Some(env.caller)
                && old(self).accrue_spec(env.block_number, env.borrow_rate) is Ok ==> exists|mid: Data|
                #[trigger] old(self).accrues_to(&mid, env.block_number, env.borrow_rate)
                && r == mid.borrow_spec(env, borrow_amount, false, reward_ok, allowed, Ok(()))
                && (r is Ok ==> mid.borrow_effect(&*final(self), borrower, borrow_amount)),
    {
        self.only_flashloan_gateway(env, flashloan_gateway)?;
        self.borrow_accrued(env, borrower, borrow_amount, false, reward_ok, allowed, Ok(()))
    }

    /// `payer` repays up to `repay_amount` of `borrower`'s debt after the pool accrued
    /// interest; see `_repay_borrow`. A refusal leaves the pool unchanged.
    fn repay_accrued(
        &mut self,
        env: Env,
        payer: AccountId,
        borrower: AccountId,
        repay_amount: u128,
        reward_ok: bool,
        received: Result<(), PSP22Error>,
    ) -> (r: Result<(), Error>)
        requires
            old(self).wf(),
            old(self).accrual_fits(env.block_number, env.borrow_rate),
            forall|mid: Data| #[trigger] old(self).accrues_to(&mid, env.block_number, env.borrow_rate)
                && mid.repay_spec(env, reward_ok, received) is Ok ==> mid.repay_fits(borrower, repay_amount),
        ensures
            final(self).wf(),
            old(self).accrue_spec(env.block_number, env.borrow_rate) is Err
                ==> r == old(self).accrue_spec(env.block_number, env.borrow_rate),
            r is Err ==> *final(self) == *old(self),
            old(self).accrue_spec(env.block_number, env.borrow_rate) is Ok ==> exists|mid: Data|
                #[trigger] old(self).accrues_to(&mid, env.block_number, env.borrow_rate)
                && r == mid.repay_spec(env, reward_ok, received)
                && (r is Ok ==> mid.repay_effect(&*final(self), borrower, repay_amount)),
    {
        let saved = (self.accrual_block_number, self.total_borrows, self.total_reserves, self.borrow_index);
        self._accrue_interest_at(env.block_number, env.borrow_rate)?;
        let ghost mid = *self;
        assert(old(self).accrues_to(&mid, env.block_number, env.borrow_rate));
        match self._repay_borrow(env, payer, borrower, repay_amount, reward_ok, received) {
            Ok(_) => Ok(()),
            Err(e) => {
                self.restore_accrual(saved);
                Err(e)
            },
        }
    }

    /// The caller repays up to `repay_amount` of its debt; see `_repay_borrow`.
    pub fn repay_borrow(&mut self, env: Env, repay_amount: u128, reward_ok: bool, received: Result<(), PSP22Error>) -> (r: Result<(), Error>)
        requires
            old(self).wf(),
            old(self).accrual_fits(env.block_number, env.borrow_rate),
            forall|mid: Data| #[trigger] old(self).accrues_to(&mid, env.block_number, env.borrow_rate)
                && mid.repay_spec(env, reward_ok, received) is Ok ==> mid.repay_fits(env.caller, repay_amount),
        ensures
            final(self).wf(),
            old(self).accrue_spec(env.block_number, env.borrow_rate) is Err
                ==> r == old(self).accrue_spec(env.block_number, env.borrow_rate),
            r is Err ==> *final(self) == *old(self),
            old(self).accrue_spec(env.block_number, env.borrow_rate) is Ok ==> exists|mid: Data|
                #[trigger] old(self).accrues_to(&mid, env.block_number, env.borrow_rate)
                && r == mid.repay_spec(env, reward_ok, received)
                && (r is Ok ==> mid.repay_effect(&*final(self), env.caller, repay_amount)),
    {
        self.repay_accrued(env, env.caller, env.caller, repay_amount, reward_ok, received)
    }

    /// The caller repays all of its debt; see `_repay_borrow`.
    pub fn repay_borrow_all(&mut self, env: Env, reward_ok: bool, received: Result<(), PSP22Error>) -> (r: Result<(), Error>)
        requires
            old(self).wf(),
            old(self).accrual_fits(env.block_number, env.borrow_rate),
            forall|mid: Data| #[trigger] old(self).accrues_to(&mid, env.block_number, env.borrow_rate)
                && mid.repay_spec(env, reward_ok, received) is Ok ==> mid.repay_fits(env.caller, u128::MAX),
        ensures
            final(self).wf(),
            old(self).accrue_spec(env.block_number, env.borrow_rate) is Err
                ==> r == old(self).accrue_spec(env.block_number, env.borrow_rate),
            r is Err ==> *final(self) == *old(self),
            old(self).accrue_spec(env.block_number, env.borrow_rate) is Ok ==> exists|mid: Data|
                #[trigger] old(self).accrues_to(&mid, env.block_number, env.borrow_rate)
                && r == mid.repay_spec(env, reward_ok, received)
                && (r is Ok ==> mid.repay_effect(&*final(self), env.caller, u128::MAX)),
    {
        self.repay_accrued(env, env.caller, env.caller, u128::MAX, reward_ok, received)
    }

    /// The caller repays up to `repay_amount` of `borrower`'s debt; see `_repay_borrow`.
    pub fn repay_borrow_behalf(
        &mut self,
        env: Env,
        borrower: AccountId,
        repay_amount: u128,
        reward_ok: bool,
        received: Result<(), PSP22Error>,
    ) -> (r: Result<(), Error>)
        requires
            old(self).wf(),
            old(self).accrual_fits(env.block_number, env.borrow_rate),
            forall|mid: Data| #[trigger] old(self).accrues_to(&mid, env.block_number, env.borrow_rate)
                && mid.repay_spec(env, reward_ok, received) is Ok ==> mid.repay_fits(borrower, repay_amount),
        ensures
            final(self).wf(),
            old(self).accrue_spec(env.block_number, env.borrow_rate) is Err
                ==> r == old(self).accrue_spec(env.block_number, env.borrow_rate),
            r is Err ==> *final(self) == *old(self),
            old(self).accrue_spec(env.block_number, env.borrow_rate) is Ok ==> exists|mid: Data|
                #[trigger] old(self).accrues_to(&mid, env.block_number, env.borrow_rate)
                && r == mid.repay_spec(env, reward_ok, received)
                && (r is Ok ==> mid.repay_effect(&*final(self), borrower, repay_amount)),
    {
        self.repay_accrued(env, env.caller, borrower, repay_amount, reward_ok, received)
    }

    /// `owner`'s pool tokens counted in the underlying: the balance times the
    /// exchange rate for `cash`, rounded down.
    pub open spec fn underlying_balance_spec(&self, cash: u128, owner: AccountId) -> nat {
        self.token.balance_spec(owner) * self.exchange_rate_spec(cash) / exp_scale_spec()
    }

    /// The balance of `owner`, converted to the quantity in the underlying at the
    /// exchange rate for the pool's cash `env.cash`.
    pub fn balance_of(&self, env: Env, owner: AccountId) -> (r: u128)
        requires
            self.wf(),
            self.exchange_rate_defined(env.cash),
            self.token.balance_spec(owner) * self.exchange_rate_spec(env.cash) <= u256_max(),
            self.underlying_balance_spec(env.cash, owner) <= u128_max(),
        ensures
            r as nat == self.underlying_balance_spec(env.cash, owner),
    {
        let exchange_rate = Exp::from_mantissa(self._exchange_rate_stored(env.cash));
        let pool_token_balance = self.token._balance_of(&owner);
        proof {
            assert(exchange_rate@ * pool_token_balance as nat == pool_token_balance as nat * exchange_rate@) by (nonlinear_arith);
        }
        exchange_rate.mul_scalar_truncate(U256::from_u128(pool_token_balance)).as_u128()
    }

    /// The balance of `owner` in the underlying; the same as `balance_of`.
    pub fn balance_of_underlying(&self, env: Env, owner: AccountId) -> (r: u128)
        requires
            self.wf(),
            self.exchange_rate_defined(env.cash),
            self.token.balance_spec(owner) * self.exchange_rate_spec(env.cash) <= u256_max(),
            self.underlying_balance_spec(env.cash, owner) <= u128_max(),
        ensures
            r as nat == self.underlying_balance_spec(env.cash, owner),
    {
        self.balance_of(env, owner)
    }

    /// The caller liquidates `borrower`, after this pool, and the collateral pool when
    /// it is another, accrued interest (`collateral_accrued` is the collateral pool's
    /// answer); see `_liquidate_borrow`. The requests behind `replies.seize_tokens` and
    /// `replies.seized` are those of `liquidation_requests` on the pool once it has
    /// accrued. A refusal leaves the pool unchanged.
    pub fn liquidate_borrow(
        &mut self,
        env: Env,
        borrower: AccountId,
        repay_amount: u128,
        collateral: AccountId,
        collateral_accrued: Result<(), Error>,
        replies: LiquidationReplies,
    ) -> (r: Result<(), Error>)
        requires
            old(self).wf(),
            old(self).accrual_fits(env.block_number, env.borrow_rate),
            forall|mid: Data| #[trigger] old(self).accrues_to(&mid, env.block_number, env.borrow_rate)
                && mid.liquidate_checks(env, env.caller, borrower, repay_amount, collateral, &replies) is Ok
                ==> mid.liquidate_fits(env, env.caller, borrower, repay_amount, collateral, &replies),
        ensures
            final(self).wf(),
            old(self).accrue_spec(env.block_number, env.borrow_rate) is Err
                ==> r == old(self).accrue_spec(env.block_number, env.borrow_rate),
            r is Err ==> *final(self) == *old(self),
            old(self).accrue_spec(env.block_number, env.borrow_rate) is Ok && collateral != env.contract && collateral_accrued is Err
                ==> r == collateral_accrued,
            old(self).accrue_spec(env.block_number, env.borrow_rate) is Ok && (collateral == env.contract || collateral_accrued is Ok)
                ==> exists|mid: Data|
                #[trigger] old(self).accrues_to(&mid, env.block_number, env.borrow_rate)
                && r == mid.liquidate_spec(env, env.caller, borrower, repay_amount, collateral, &replies)
                && (r is Ok ==> mid.liquidate_effect(&*final(self), env, env.caller, borrower, repay_amount,
                    collateral, replies.seize_tokens->Ok_0)),
    {
        let saved = (self.accrual_block_number, self.total_borrows, self.total_reserves, self.borrow_index);
        self._accrue_interest_at(env.block_number, env.borrow_rate)?;
        let ghost mid = *self;
        assert(old(self).accrues_to(&mid, env.block_number, env.borrow_rate));
        if collateral != env.contract {
            if let Err(e) = collateral_accrued {
                self.restore_accrual(saved);
                return Err(e);
            }
        }
        let r = self._liquidate_borrow(env, env.caller, borrower, repay_amount, collateral, replies);
        if r.is_err() {
            self.restore_accrual(saved);
        }
        r
    }

    /// The calling pool seizes `seize_tokens` of `borrower`'s pool tokens for
    /// `liquidator`, after this pool accrued interest; see `_seize`. A refusal leaves
    /// the pool unchanged.
    pub fn seize(
        &mut self,
        env: Env,
        liquidator: AccountId,
        borrower: AccountId,
        seize_tokens: u128,
        reward_ok: bool,
        allowed: Result<(), ControllerError>,
    ) -> (r: Result<(), Error>)
        requires
            old(self).wf(),
            old(self).accrual_fits(env.block_number, env.borrow_rate),
            forall|mid: Data| #[trigger] old(self).accrues_to(&mid, env.block_number, env.borrow_rate)
                && mid.seize_checks(liquidator, borrower, reward_ok, allowed) is Ok
                ==> mid.seize_fits(env.cash, liquidator, borrower, seize_tokens),
        ensures
            final(self).wf(),
            old(self).accrue_spec(env.block_number, env.borrow_rate) is Err
                ==> r == old(self).accrue_spec(env.block_number, env.borrow_rate),
            r is Err ==> *final(self) == *old(self),
            old(self).accrue_spec(env.block_number, env.borrow_rate) is Ok ==> exists|mid: Data|
                #[trigger] old(self).accrues_to(&mid, env.block_number, env.borrow_rate)
                && r == mid.seize_spec(liquidator, borrower, seize_tokens, reward_ok, allowed)
                && (r is Ok ==> mid.seized(&*final(self), env.cash, liquidator, borrower, seize_tokens)),
    {
        let saved = (self.accrual_block_number, self.total_borrows, self.total_reserves, self.borrow_index);
        self._accrue_interest_at(env.block_number, env.borrow_rate)?;
        let ghost mid = *self;
        assert(old(self).accrues_to(&mid, env.block_number, env.borrow_rate));
        let r = self._seize(env, liquidator, borrower, seize_tokens, reward_ok, allowed);
        if r.is_err() {
            self.restore_accrual(saved);
        }
        r
    }

    /// The caller starts or stops using its supply as collateral, after the pool
    /// accrued interest; stopping needs the controller's leave (`allowed`), see
    /// `_validate_set_use_reserve_as_collateral`. A refusal leaves the pool unchanged.
    pub fn set_use_reserve_as_collateral(
        &mut self,
        env: Env,
        use_as_collateral: bool,
        allowed: Result<(), ControllerError>,
    ) -> (r: Result<(), Error>)
        requires
            old(self).wf(),
            old(self).accrual_fits(env.block_number, env.borrow_rate),
        ensures
            final(self).wf(),
            old(self).accrue_spec(env.block_number, env.borrow_rate) is Err
                ==> r == old(self).accrue_spec(env.block_number, env.borrow_rate),
            r is Err ==> *final(self) == *old(self),
            old(self).accrue_spec(env.block_number, env.borrow_rate) is Ok ==> exists|mid: Data|
                #[trigger] old(self).accrues_to(&mid, env.block_number, env.borrow_rate)
                && r == (if use_as_collateral || !mid.collateral_enabled(env.caller) {
                    Ok::<(), Error>(())
                } else if mid.token.balance_spec(env.caller) == 0 {
                    Err(Error::PSP22(PSP22Error::InsufficientBalance))
                } else if mid.controller.is_none() {
                    Err(Error::ControllerIsNotSet)
                } else if allowed is Err {
                    Err(Error::Controller(allowed->Err_0))
                } else {
                    Ok(())
                })
                && (r is Ok ==> final(self).using_reserve_as_collateral.view()
                    == mid.collateral_flags_after(env.caller, use_as_collateral)
                    && *final(self) == (Data { using_reserve_as_collateral: final(self).using_reserve_as_collateral, ..mid })),
    {
        let saved = (self.accrual_block_number, self.total_borrows, self.total_reserves, self.borrow_index);
        self._accrue_interest_at(env.block_number, env.borrow_rate)?;
        let ghost mid = *self;
        assert(old(self).accrues_to(&mid, env.block_number, env.borrow_rate));
        if let Err(e) = self._validate_set_use_reserve_as_collateral(env.caller, use_as_collateral, allowed) {
            self.restore_accrual(saved);
            return Err(e);
        }
        self._set_use_reserve_as_collateral(env.caller, use_as_collateral);
        Ok(())
    }

    /// The exchange rate after the pool accrued interest.
    pub fn exchange_rate_current(&mut self, env: Env) -> (r: Result<WrappedU256, Error>)
        requires
            old(self).wf(),
            old(self).accrual_fits(env.block_number, env.borrow_rate),
            forall|mid: Data| #[trigger] old(self).accrues_to(&mid, env.block_number, env.borrow_rate) ==> mid.exchange_rate_defined(env.cash),
        ensures
            final(self).wf(),
            r is Err <==> old(self).accrue_spec(env.block_number, env.borrow_rate) is Err,
            r is Err ==> r == Err::<WrappedU256, Error>(old(self).accrue_spec(env.block_number, env.borrow_rate)->Err_0) && *final(self) == *old(self),
            r is Ok ==> old(self).accrues_to(&*final(self), env.block_number, env.borrow_rate)
                && r->Ok_0@ == final(self).exchange_rate_spec(env.cash),
    {
        self._accrue_interest_at(env.block_number, env.borrow_rate)?;
        let ghost mid = *self;
        assert(old(self).accrues_to(&mid, env.block_number, env.borrow_rate));
        Ok(self.exchange_rate_stored(env.cash))
    }

    /// What `account` owes after the pool accrued interest.
    pub fn borrow_balance_current(&mut self, env: Env, account: AccountId) -> (r: Result<u128, Error>)
        requires
            old(self).wf(),
            old(self).accrual_fits(env.block_number, env.borrow_rate),
            forall|mid: Data| #[trigger] old(self).accrues_to(&mid, env.block_number, env.borrow_rate) ==> mid.borrow_balance_fits(account),
        ensures
            final(self).wf(),
            r is Err <==> old(self).accrue_spec(env.block_number, env.borrow_rate) is Err,
            r is Err ==> r == Err::<u128, Error>(old(self).accrue_spec(env.block_number, env.borrow_rate)->Err_0) && *final(self) == *old(self),
            r is Ok ==> old(self).accrues_to(&*final(self), env.block_number, env.borrow_rate)
                && r->Ok_0 as nat == final(self).borrow_balance_spec(account),
    {
        self._accrue_interest_at(env.block_number, env.borrow_rate)?;
        let ghost mid = *self;
        assert(old(self).accrues_to(&mid, env.block_number, env.borrow_rate));
        Ok(self._borrow_balance_stored(account))
    }

    /// The caller adds `amount` of the underlying to the reserves, after the pool
    /// accrued interest; see `_add_reserves`. A refusal leaves the pool unchanged.
    pub fn add_reserves(&mut self, env: Env, amount: u128, received: Result<(), PSP22Error>) -> (r: Result<(), Error>)
        requires
            old(self).wf(),
            old(self).accrual_fits(env.block_number, env.borrow_rate),
            forall|mid: Data| #[trigger] old(self).accrues_to(&mid, env.block_number, env.borrow_rate) ==> mid.total_reserves + amount <= u128_max(),
        ensures
            final(self).wf(),
            old(self).accrue_spec(env.block_number, env.borrow_rate) is Err
                ==> r == old(self).accrue_spec(env.block_number, env.borrow_rate),
            r is Err ==> *final(self) == *old(self),
            old(self).accrue_spec(env.block_number, env.borrow_rate) is Ok ==> exists|mid: Data|
                #[trigger] old(self).accrues_to(&mid, env.block_number, env.borrow_rate)
                && r == mid.transfer_underlying_spec(received)
                && (r is Ok ==> *final(self) == (Data { total_reserves: (mid.total_reserves + amount) as u128, ..mid })),
    {
        let saved = (self.accrual_block_number, self.total_borrows, self.total_reserves, self.borrow_index);
        self._accrue_interest_at(env.block_number, env.borrow_rate)?;
        let ghost mid = *self;
        assert(old(self).accrues_to(&mid, env.block_number, env.borrow_rate));
        let r = self._add_reserves(env, amount, received);
        if r.is_err() {
            self.restore_accrual(saved);
        }
        r
    }

    /// The manager takes `amount` of the reserves, after the pool accrued interest;
    /// see `_reduce_reserves`. A refusal leaves the pool unchanged.
    pub fn reduce_reserves(&mut self, env: Env, amount: u128, sent: Result<(), PSP22Error>) -> (r: Result<(), Error>)
        requires
            old(self).wf(),
            old(self).accrual_fits(env.block_number, env.borrow_rate),
        ensures
            final(self).wf(),
            old(self).assert_manager_spec(env.caller) is Err ==> r == old(self).assert_manager_spec(env.caller),
            old(self).assert_manager_spec(env.caller) is Ok && old(self).accrue_spec(env.block_number, env.borrow_rate) is Err
                ==> r == old(self).accrue_spec(env.block_number, env.borrow_rate),
            r is Err ==> *final(self) == *old(self),
            old(self).assert_manager_spec(env.caller) is Ok && old(self).accrue_spec(env.block_number, env.borrow_rate) is Ok ==> exists|mid: Data|
                #[trigger] old(self).accrues_to(&mid, env.block_number, env.borrow_rate)
                && r == mid.reduce_reserves_spec(env, amount, sent)
                && (r is Ok ==> *final(self) == (Data { total_reserves: (mid.total_reserves - amount) as u128, ..mid })),
    {
        self._assert_manager(env.caller)?;
        let saved = (self.accrual_block_number, self.total_borrows, self.total_reserves, self.borrow_index);
        self._accrue_interest_at(env.block_number, env.borrow_rate)?;
        let ghost mid = *self;
        assert(old(self).accrues_to(&mid, env.block_number, env.borrow_rate));
        let r = self._reduce_reserves(env, amount, sent);
        if r.is_err() {
            self.restore_accrual(saved);
        }
        r
    }

    /// The manager sweeps a token other than the underlying; see `_sweep_token`.
    pub fn sweep_token(&self, env: Env, asset: AccountId, sent: Result<(), PSP22Error>) -> (r: Result<(), Error>)
        ensures
            r == (if self.assert_manager_spec(env.caller) is Err {
                self.assert_manager_spec(env.caller)
            } else {
                self.sweep_spec(asset, sent)
            }),
    {
        self._assert_manager(env.caller)?;
        self._sweep_token(asset, sent)
    }

    /// The flash-loan gateway sends the underlying out of the pool, after the pool
    /// accrued interest; `flashloan_gateway` is the gateway the controller names and
    /// `sent` the underlying token's answer.
    pub fn transfer_underlying(
        &mut self,
        env: Env,
        flashloan_gateway: Option<AccountId>,
        sent: Result<(), PSP22Error>,
    ) -> (r: Result<(), Error>)
        requires
            old(self).wf(),
            old(self).accrual_fits(env.block_number, env.borrow_rate),
        ensures
            final(self).wf(),
            r is Err ==> *final(self) == *old(self),
            old(self).controller.is_none() ==> r == Err::<(), Error>(Error::ControllerIsNotSet),
            old(self).controller.is_some() && flashloan_gateway != Some(env.caller)
                ==> r == Err::<(), Error>(Error::CallerIsNotFlashloanGateway),
            old(self).controller.is_some() && flashloan_gateway == Some(env.caller)
                ==> r == (if old(self).accrue_spec(env.block_number, env.borrow_rate) is Err {
                    old(self).accrue_spec(env.block_number, env.borrow_rate)
                } else {
                    old(self).transfer_underlying_spec(sent)
                }),
            r is Ok ==> old(self).accrues_to(&*final(self), env.block_number, env.borrow_rate),
    {
        self.only_flashloan_gateway(env, flashloan_gateway)?;
        let saved = (self.accrual_block_number, self.total_borrows, self.total_reserves, self.borrow_index);
        self._accrue_interest_at(env.block_number, env.borrow_rate)?;
        let r = self._transfer_underlying(sent);
        if r.is_err() {
            self.restore_accrual(saved);
        }
        r
    }

    /// The refusals of `borrow_for`, in order.
    pub open spec fn borrow_for_spec(
        &self,
        env: Env,
        borrower: AccountId,
        borrow_amount: u128,
        reward_ok: bool,
        allowed: Result<(), ControllerError>,
        sent: Result<(), PSP22Error>,
    ) -> Result<(), Error> {
        if env.caller != borrower && self.delegate_allowance_spec(borrower, env.caller) < borrow_amount {
            Err(Error::InsufficientDelegateAllowance)
        } else if self.accrue_spec(env.block_number, env.borrow_rate) is Err {
            self.accrue_spec(env.block_number, env.borrow_rate)
        } else if (Data { accrual_block_number: env.block_number, ..*self }).borrow_spec(env, borrow_amount, true, reward_ok, allowed, sent) is Err {
            (Data { accrual_block_number: env.block_number, ..*self }).borrow_spec(env, borrow_amount, true, reward_ok, allowed, sent)
        } else if borrower.is_zero_spec() {
            Err(Error::ZeroOwnerAddress)
        } else if env.caller.is_zero_spec() {
            Err(Error::ZeroDelegateeAddress)
        } else {
            Ok(())
        }
    }

    /// The caller borrows `borrow_amount` on behalf of `borrower`, within the delegate
    /// allowance `borrower` gave it, which the borrow uses up; the interest is accrued
    /// first. See `_borrow`. A refusal leaves the pool unchanged.
    pub fn borrow_for(
        &mut self,
        env: Env,
        borrower: AccountId,
        borrow_amount: u128,
        reward_ok: bool,
        allowed: Result<(), ControllerError>,
        sent: Result<(), PSP22Error>,
    ) -> (r: Result<(), Error>)
        requires
            old(self).wf(),
            old(self).accrual_fits(env.block_number, env.borrow_rate),
            forall|mid: Data| #[trigger] old(self).accrues_to(&mid, env.block_number, env.borrow_rate)
                && mid.borrow_spec(env, borrow_amount, true, reward_ok, allowed, sent) is Ok
                ==> mid.borrow_fits(borrower, borrow_amount),
            env.caller == borrower ==> old(self).delegate_allowance_spec(borrower, borrower) >= borrow_amount,
        ensures
            final(self).wf(),
            r == old(self).borrow_for_spec(env, borrower, borrow_amount, reward_ok, allowed, sent),
            r is Err ==> *final(self) == *old(self),
            r is Ok ==> exists|mid: Data|
                #[trigger] old(self).accrues_to(&mid, env.block_number, env.borrow_rate)
                && mid.borrow_effect(&(Data { delegate_allowance: mid.delegate_allowance, ..*final(self) }), borrower, borrow_amount)
                && final(self).delegate_allowance.view() == mid.delegate_allowance.view().insert(
                    AllowancesKey { owner: borrower, delegatee: env.caller },
                    (old(self).delegate_allowance_spec(borrower, env.caller) - borrow_amount) as u128,
                ),
    {
        self.delegated_allowed(env, borrower, borrow_amount)?;
        self.accrue_check(env.block_number, env.borrow_rate)?;
        if self.incentives_controller.is_some() && !reward_ok {
            return Err(Error::AccrueRewardFailed);
        }
        if self.controller.is_none() {
            return Err(Error::ControllerIsNotSet);
        }
        if let Err(e) = allowed {
            return Err(Error::Controller(e));
        }
        if env.cash < borrow_amount {
            return Err(Error::BorrowCashNotAvailable);
        }
        if self.underlying.is_none() {
            return Err(Error::UnderlyingIsNotSet);
        }
        if let Err(e) = sent {
            return Err(Error::PSP22(e));
        }
        if borrower.is_zero() {
            return Err(Error::ZeroOwnerAddress);
        }
        if env.caller.is_zero() {
            return Err(Error::ZeroDelegateeAddress);
        }
        let accrued = self._accrue_interest_at(env.block_number, env.borrow_rate);
        proof { assert(accrued is Ok); }
        let ghost mid = *self;
        assert(old(self).accrues_to(&mid, env.block_number, env.borrow_rate));
        let borrowed = self._borrow(env, borrower, borrow_amount, true, reward_ok, Ok(()), Ok(()));
        proof { assert(borrowed is Ok); }
        let delegatee = env.caller;
        let delegate_allowance = self._delegate_allowance(&borrower, &delegatee);
        let approved = self._approve_delegate(borrower, delegatee, delegate_allowance - borrow_amount);
        proof { assert(approved is Ok); }
        Ok(())
    }
}

/// A token error as a pool error.
pub fn to_psp22_error(e: PSP22Error) -> (r: Error)
    ensures
        r == Error::PSP22(e),
{
    Error::PSP22(e)
}

/// The name of a controller error, as a pool token reports it.
pub open spec fn controller_error_name(e: ControllerError) -> Seq<char> {
    match e {
        ControllerError::MintIsPaused => "MintIsPaused"@,
        ControllerError::BorrowIsPaused => "BorrowIsPaused"@,
        ControllerError::SeizeIsPaused => "SeizeIsPaused"@,
        ControllerError::TransferIsPaused => "TransferIsPaused"@,
        ControllerError::MarketNotListed => "MarketNotListed"@,
        ControllerError::MarketAlreadyListed => "MarketAlreadyListed"@,
        ControllerError::ControllerMismatch => "ControllerMismatch"@,
        ControllerError::PriceError => "PriceError"@,
        ControllerError::TooMuchRepay => "TooMuchRepay"@,
        ControllerError::BorrowCapReached => "BorrowCapReached"@,
        ControllerError::InsufficientLiquidity => "InsufficientLiquidity"@,
        ControllerError::InsufficientShortfall => "InsufficientShortfall"@,
        ControllerError::CallerIsNotManager => "CallerIsNotManager"@,
        ControllerError::CallerIsNotPendingManager => "CallerIsNotPendingManager"@,
        ControllerError::InvalidCollateralFactor => "InvalidCollateralFactor"@,
        ControllerError::UnderlyingIsNotSet => "UnderlyingIsNotSet"@,
        ControllerError::PoolIsNotSet => "PoolIsNotSet"@,
        ControllerError::ManagerIsNotSet => "ManagerIsNotSet"@,
        ControllerError::PendingManagerIsNotSet => "PendingManagerIsNotSet"@,
        ControllerError::OracleIsNotSet => "OracleIsNotSet"@,
        ControllerError::BalanceDecreaseNotAllowed => "BalanceDecreaseNotAllowed"@,
        ControllerError::MarketCountReachedToMaximum => "MarketCountReachedToMaximum"@,
        ControllerError::PoolError => "PoolError"@,
    }
}

/// A controller error as a pool-token error: `Custom` with the error's name.
pub fn psp22_error_of(e: ControllerError) -> (r: PSP22Error)
    ensures
        r is Custom,
        r->Custom_0@ == controller_error_name(e),
{
    let name = match e {
        ControllerError::MintIsPaused => "MintIsPaused",
        ControllerError::BorrowIsPaused => "BorrowIsPaused",
        ControllerError::SeizeIsPaused => "SeizeIsPaused",
        ControllerError::TransferIsPaused => "TransferIsPaused",
        ControllerError::MarketNotListed => "MarketNotListed",
        ControllerError::MarketAlreadyListed => "MarketAlreadyListed",
        ControllerError::ControllerMismatch => "ControllerMismatch",
        ControllerError::PriceError => "PriceError",
        ControllerError::TooMuchRepay => "TooMuchRepay",
        ControllerError::BorrowCapReached => "BorrowCapReached",
        ControllerError::InsufficientLiquidity => "InsufficientLiquidity",
        ControllerError::InsufficientShortfall => "InsufficientShortfall",
        ControllerError::CallerIsNotManager => "CallerIsNotManager",
        ControllerError::CallerIsNotPendingManager => "CallerIsNotPendingManager",
        ControllerError::InvalidCollateralFactor => "InvalidCollateralFactor",
        ControllerError::UnderlyingIsNotSet => "UnderlyingIsNotSet",
        ControllerError::PoolIsNotSet => "PoolIsNotSet",
        ControllerError::ManagerIsNotSet => "ManagerIsNotSet",
        ControllerError::PendingManagerIsNotSet => "PendingManagerIsNotSet",
        ControllerError::OracleIsNotSet => "OracleIsNotSet",
        ControllerError::BalanceDecreaseNotAllowed => "BalanceDecreaseNotAllowed",
        ControllerError::MarketCountReachedToMaximum => "MarketCountReachedToMaximum",
        ControllerError::PoolError => "PoolError",
    };
    PSP22Error::Custom(name.to_owned())
}

} // verus!
