//! The flash-loan gateway: lends pool liquidity within one transaction against a
//! premium, or turns the loan into a borrow.

use vstd::prelude::*;
use crate::account::AccountId;
use crate::pool::Error as PoolError;
use crate::psp22::PSP22Error;

verus! {

/// The premium of a flash loan in hundredths of a percent, at initialization: 0.09%.
pub const DEFAULT_FLASHLOAN_PREMIUM_TOTAL: u128 = 9;

/// Why the gateway refused a flash loan.
#[derive(Debug, PartialEq, Eq, Clone)]
pub enum Error {
    InconsistentFlashloanParams,
    InvalidFlashloanExecutorReturn,
    InvalidFlashloanAmount,
    DuplicatedFlashloanAssets,
    MarketNotListed,
    ControllerIsNotSet,
    PSP22(PSP22Error),
    Pool(PoolError),
}

/// How a flash loan of one asset is settled.
#[derive(Debug, PartialEq, Eq, Structural, Clone, Copy)]
pub enum FlashLoanType {
    /// The receiver pays back the amount and the premium.
    NoBorrow,
    /// The initiator keeps the amount as a borrow.
    Borrowing,
}

impl FlashLoanType {
    /// The code of the settlement in a flash-loan request.
    pub open spec fn code_spec(self) -> u8 {
        match self {
            FlashLoanType::NoBorrow => 0,
            FlashLoanType::Borrowing => 1,
        }
    }

    pub fn code(&self) -> (r: u8)
        ensures
            r == self.code_spec(),
    {
        match self {
            FlashLoanType::NoBorrow => 0,
            FlashLoanType::Borrowing => 1,
        }
    }

    /// The settlement a request code asks for: code 0 pays back, any other borrows.
    pub fn from_code(code: u8) -> (r: FlashLoanType)
        ensures
            r == (if code == 0 { FlashLoanType::NoBorrow } else { FlashLoanType::Borrowing }),
    {
        if code == FlashLoanType::NoBorrow.code() {
            FlashLoanType::NoBorrow
        } else {
            FlashLoanType::Borrowing
        }
    }
}

/// How one borrowed asset comes back after the receiver ran.
#[derive(Debug, PartialEq, Eq, Structural, Clone, Copy)]
pub enum Settlement {
    /// The pool pulls this amount (loan and premium) from the receiver.
    PayBack(u128),
    /// The pool records this amount as the initiator's borrow.
    Borrow(u128),
}

/// The premium of a flash loan of `amount` at `premium_total` hundredths of a percent.
pub open spec fn premium_spec(amount: nat, premium_total: nat) -> nat {
    amount * premium_total / 10000
}

/// Every asset has a pool.
pub open spec fn all_listed(markets: Seq<Option<AccountId>>) -> bool {
    forall|i: int| 0 <= i < markets.len() ==> #[trigger] markets[i] is Some
}

/// What the gateway reports for each asset of a flash loan: the receiver, the
/// caller who started it, the asset, the amount lent and the premium.
#[derive(Debug, PartialEq, Eq, Structural, Clone, Copy)]
pub struct FlashLoanEvent {
    pub target: AccountId,
    pub initiator: AccountId,
    pub asset: AccountId,
    pub amount: u128,
    pub premium: u128,
}

/// The events of a flash loan that went through: one per asset, in order.
pub fn flashloan_events(
    target: AccountId,
    initiator: AccountId,
    assets: &Vec<AccountId>,
    amounts: &Vec<u128>,
    premiums: &Vec<u128>,
) -> (r: Vec<FlashLoanEvent>)
    requires
        amounts.len() == assets.len(),
        premiums.len() == assets.len(),
    ensures
        r.len() == assets.len(),
        forall|i: int| 0 <= i < assets.len() ==> #[trigger] r[i] == (FlashLoanEvent {
            target,
            initiator,
            asset: assets[i],
            amount: amounts[i],
            premium: premiums[i],
        }),
{
    let mut events: Vec<FlashLoanEvent> = Vec::new();
    let mut i: usize = 0;
    while i < assets.len()
        invariant
            i <= assets.len(),
            amounts.len() == assets.len(),
            premiums.len() == assets.len(),
            events.len() == i,
            forall|j: int| 0 <= j < i ==> #[trigger] events[j] == (FlashLoanEvent {
                target,
                initiator,
                asset: assets[j],
                amount: amounts[j],
                premium: premiums[j],
            }),
        decreases assets.len() - i,
    {
        events.push(FlashLoanEvent { target, initiator, asset: assets[i], amount: amounts[i], premium: premiums[i] });
        i = i + 1;
    }
    events
}

/// The gateway's storage.
pub struct Data {
    /// Flashloan Fee in percentage * 100.
    pub flashloan_premium_total: u128,
    /// AccountId of Controller managing Flashloan Gateway
    pub controller: Option<AccountId>,
}

impl Data {
    /// A gateway with no controller and no premium.
    pub fn default() -> (r: Data)
        ensures
            r == (Data { flashloan_premium_total: 0, controller: None }),
    {
        Data { flashloan_premium_total: 0, controller: None }
    }

    /// Sets the controller and the default premium.
    pub fn _initialize(&mut self, controller: AccountId)
        ensures
            *final(self) == (Data { flashloan_premium_total: DEFAULT_FLASHLOAN_PREMIUM_TOTAL, controller: Some(controller) }),
    {
        self.flashloan_premium_total = DEFAULT_FLASHLOAN_PREMIUM_TOTAL;
        self.controller = Some(controller);
    }

    pub fn flashloan_premium_total(&self) -> (r: u128)
        ensures
            r == self.flashloan_premium_total,
    {
        self.flashloan_premium_total
    }

    pub fn controller(&self) -> (r: Option<AccountId>)
        ensures
            r == self.controller,
    {
        self.controller
    }

    /// The premium of a flash loan of `amount`.
    pub fn premium(&self, amount: u128) -> (r: u128)
        requires
            amount * self.flashloan_premium_total <= u128::MAX,
        ensures
            r as nat == premium_spec(amount as nat, self.flashloan_premium_total as nat),
    {
        amount * self.flashloan_premium_total / 10000
    }

    /// Checks a flash-loan request and finds the pools that lend each asset:
    /// `markets[i]` is the pool the controller lists for `assets[i]`. Returns the
    /// pools and the premiums, in the order of the assets.
    pub fn flashloan_plan(
        &self,
        assets_len: usize,
        amounts: &Vec<u128>,
        markets: &Vec<Option<AccountId>>,
    ) -> (r: Result<(Vec<AccountId>, Vec<u128>), Error>)
        requires
            markets.len() == assets_len,
            forall|i: int| 0 <= i < amounts.len() ==> amounts[i] * self.flashloan_premium_total <= u128::MAX,
        ensures
            assets_len != amounts.len() ==> r == Err::<(Vec<AccountId>, Vec<u128>), Error>(Error::InconsistentFlashloanParams),
            assets_len == amounts.len() && self.controller.is_none() ==> r == Err::<(Vec<AccountId>, Vec<u128>), Error>(Error::ControllerIsNotSet),
            assets_len == amounts.len() && self.controller.is_some() && !all_listed(markets@)
                ==> r == Err::<(Vec<AccountId>, Vec<u128>), Error>(Error::MarketNotListed),
            assets_len == amounts.len() && self.controller.is_some() && all_listed(markets@) ==> r is Ok,
            r is Ok ==> {
                &&& r->Ok_0.0.len() == assets_len && r->Ok_0.1.len() == assets_len
                &&& forall|i: int| 0 <= i < assets_len ==> Some(#[trigger] r->Ok_0.0[i]) == markets[i]
                &&& forall|i: int| 0 <= i < assets_len ==> #[trigger] r->Ok_0.1[i] as nat
                    == premium_spec(amounts[i] as nat, self.flashloan_premium_total as nat)
            },
    {
        if assets_len != amounts.len() {
            return Err(Error::InconsistentFlashloanParams);
        }
        if self.controller.is_none() {
            return Err(Error::ControllerIsNotSet);
        }
        let mut pools: Vec<AccountId> = Vec::new();
        let mut premiums: Vec<u128> = Vec::new();
        let mut index: usize = 0;
        while index < assets_len
            invariant
                index <= assets_len,
                markets.len() == assets_len,
                amounts.len() == assets_len,
                self.controller.is_some(),
                pools.len() == index && premiums.len() == index,
                forall|i: int| 0 <= i < amounts.len() ==> amounts[i] * self.flashloan_premium_total <= u128::MAX,
                forall|i: int| 0 <= i < index ==> Some(#[trigger] pools[i]) == markets[i],
                forall|i: int| 0 <= i < index ==> #[trigger] premiums[i] as nat
                    == premium_spec(amounts[i] as nat, self.flashloan_premium_total as nat),
            decreases assets_len - index,
        {
            let pool = match markets[index] {
                Some(p) => p,
                None => {
                    assert(markets@[index as int] is None);
                    return Err(Error::MarketNotListed);
                },
            };
            pools.push(pool);
            premiums.push(self.premium(amounts[index]));
            index = index + 1;
        }
        assert forall|i: int| 0 <= i < markets@.len() implies #[trigger] markets@[i] is Some by {
            assert(Some(pools[i]) == markets[i]);
        }
        Ok((pools, premiums))
    }
}

/// How each borrowed asset is settled: `mods[i]` is the request code of asset `i`;
/// paying back takes the amount and its premium.
pub fn flashloan_settlements(amounts: &Vec<u128>, premiums: &Vec<u128>, mods: &Vec<u8>) -> (r: Vec<Settlement>)
    requires
        premiums.len() == amounts.len(),
        mods.len() >= amounts.len(),
        forall|i: int| 0 <= i < amounts.len() && mods[i] == 0 ==> amounts[i] + premiums[i] <= u128::MAX,
    ensures
        r.len() == amounts.len(),
        forall|i: int| 0 <= i < amounts.len() ==> #[trigger] r[i] == (if mods[i] == 0 {
            Settlement::PayBack((amounts[i] + premiums[i]) as u128)
        } else {
            Settlement::Borrow(amounts[i])
        }),
{
    let mut settlements: Vec<Settlement> = Vec::new();
    let mut index: usize = 0;
    while index < amounts.len()
        invariant
            index <= amounts.len(),
            premiums.len() == amounts.len(),
            mods.len() >= amounts.len(),
            settlements.len() == index,
            forall|i: int| 0 <= i < amounts.len() && mods[i] == 0 ==> amounts[i] + premiums[i] <= u128::MAX,
            forall|i: int| 0 <= i < index ==> #[trigger] settlements[i] == (if mods[i] == 0 {
                Settlement::PayBack((amounts[i] + premiums[i]) as u128)
            } else {
                Settlement::Borrow(amounts[i])
            }),
        decreases amounts.len() - index,
    {
        let settlement = match FlashLoanType::from_code(mods[index]) {
            FlashLoanType::NoBorrow => Settlement::PayBack(amounts[index] + premiums[index]),
            FlashLoanType::Borrowing => Settlement::Borrow(amounts[index]),
        };
        settlements.push(settlement);
        index = index + 1;
    }
    settlements
}

/// The receiver must report that it ran the operation.
pub fn check_executor_return(operation_result: bool) -> (r: Result<(), Error>)
    ensures
        r == (if operation_result { Ok::<(), Error>(()) } else { Err(Error::InvalidFlashloanExecutorReturn) }),
{
    if !operation_result {
        return Err(Error::InvalidFlashloanExecutorReturn);
    }
    Ok(())
}

/// What the other contracts answered in the course of a flash loan, asset by asset.
pub struct FlashloanReplies {
    /// The pool the controller lists for each asset.
    pub markets: Vec<Option<AccountId>>,
    /// Each pool's answer to sending its asset to the receiver.
    pub lent: Vec<Result<(), PoolError>>,
    /// The receiver's report that it ran its operation.
    pub operation_result: bool,
    /// The outcome of settling each asset: pulling the amount and premium back into
    /// the pool after it accrued interest, or recording the borrow.
    pub settled: Vec<Result<(), Error>>,
}

/// The first refusal while lending the assets out: an asset without a pool, or a
/// pool that could not send it.
pub open spec fn first_lend_failure(markets: Seq<Option<AccountId>>, lent: Seq<Result<(), PoolError>>) -> Option<Error>
    decreases markets.len(),
{
    if markets.len() == 0 {
        None
    } else if markets[0] is None {
        Some(Error::MarketNotListed)
    } else if lent.len() > 0 && lent[0] is Err {
        Some(Error::Pool(lent[0]->Err_0))
    } else {
        first_lend_failure(markets.drop_first(), lent.drop_first())
    }
}

/// The first refusal while settling the assets.
pub open spec fn first_settle_failure(settled: Seq<Result<(), Error>>) -> Option<Error>
    decreases settled.len(),
{
    if settled.len() == 0 {
        None
    } else if settled[0] is Err {
        Some(settled[0]->Err_0)
    } else {
        first_settle_failure(settled.drop_first())
    }
}

impl Data {
    /// The outcome of a flash loan of `assets_len` assets, in the order the checks
    /// and calls come: the parameters, the controller, lending each asset out, the
    /// receiver's operation, and settling each asset.
    pub open spec fn flashloan_spec(&self, assets_len: usize, amounts_len: usize, replies: &FlashloanReplies) -> Result<(), Error> {
        if assets_len != amounts_len {
            Err(Error::InconsistentFlashloanParams)
        } else if self.controller.is_none() {
            Err(Error::ControllerIsNotSet)
        } else if first_lend_failure(replies.markets@, replies.lent@) is Some {
            Err(first_lend_failure(replies.markets@, replies.lent@)->Some_0)
        } else if !replies.operation_result {
            Err(Error::InvalidFlashloanExecutorReturn)
        } else if first_settle_failure(replies.settled@) is Some {
            Err(first_settle_failure(replies.settled@)->Some_0)
        } else {
            Ok(())
        }
    }

    /// Lends `amounts` of `assets_len` assets to a receiver within one transaction;
    /// see `flashloan_spec`. `flashloan_plan` gives the pools and premiums the calls
    /// use and `flashloan_settlements` how each asset is settled.
    pub fn flashloan(&self, assets_len: usize, amounts: &Vec<u128>, replies: FlashloanReplies) -> (r: Result<(), Error>)
        requires
            assets_len == amounts.len() ==> replies.markets.len() == assets_len && replies.lent.len() == assets_len
                && replies.settled.len() == assets_len,
        ensures
            r == self.flashloan_spec(assets_len, amounts.len(), &replies),
    {
        if assets_len != amounts.len() {
            return Err(Error::InconsistentFlashloanParams);
        }
        if self.controller.is_none() {
            return Err(Error::ControllerIsNotSet);
        }
        let FlashloanReplies { markets, mut lent, operation_result, mut settled } = replies;
        let mut index: usize = 0;
        assert(markets@.subrange(0, assets_len as int) =~= markets@);
        assert(replies.lent@.subrange(0, assets_len as int) =~= lent@);
        while index < assets_len
            invariant
                index <= assets_len,
                assets_len == amounts.len(),
                self.controller.is_some(),
                markets.len() == assets_len,
                lent.len() == assets_len - index,
                replies.lent@.len() == assets_len,
                lent@ == replies.lent@.subrange(index as int, assets_len as int),
                markets@ == replies.markets@,
                first_lend_failure(replies.markets@, replies.lent@)
                    == first_lend_failure(markets@.subrange(index as int, assets_len as int), lent@),
            decreases assets_len - index,
        {
            let ghost rest_markets = markets@.subrange(index as int, assets_len as int);
            let ghost rest_lent = lent@;
            let lend = lent.remove(0);
            if markets[index].is_none() {
                assert(rest_markets[0] is None);
                return Err(Error::MarketNotListed);
            }
            if let Err(e) = lend {
                assert(rest_lent[0] is Err);
                return Err(Error::Pool(e));
            }
            assert(rest_markets.drop_first() =~= markets@.subrange(index + 1, assets_len as int));
            assert(rest_lent.drop_first() =~= lent@);
            assert(lent@ =~= replies.lent@.subrange(index + 1, assets_len as int));
            index = index + 1;
        }
        assert(markets@.subrange(assets_len as int, assets_len as int).len() == 0);
        assert(first_lend_failure(replies.markets@, replies.lent@) is None);
        if !operation_result {
            return Err(Error::InvalidFlashloanExecutorReturn);
        }
        let mut index: usize = 0;
        while index < assets_len
            invariant
                index <= assets_len,
                assets_len == amounts.len(),
                self.controller.is_some(),
                first_lend_failure(replies.markets@, replies.lent@) is None,
                operation_result == replies.operation_result,
                replies.operation_result,
                settled.len() == assets_len - index,
                first_settle_failure(replies.settled@) == first_settle_failure(settled@),
            decreases assets_len - index,
        {
            let ghost rest = settled@;
            let outcome = settled.remove(0);
            if let Err(e) = outcome {
                assert(rest[0] is Err);
                return Err(e);
            }
            assert(rest.drop_first() =~= settled@);
            index = index + 1;
        }
        Ok(())
    }
}

} // verus!
