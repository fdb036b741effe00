//! Contracts that stand in for others in tests: one that answers with fixed
//! results, and a faucet that mints test tokens.

use vstd::prelude::*;
use crate::account::AccountId;

verus! {

/// The error of the dummy contract.
#[derive(Debug, PartialEq, Eq, Structural, Clone, Copy)]
pub enum DummyError {
    Ng,
}

/// A contract whose messages succeed or fail by name.
#[derive(Clone, Copy, Debug, PartialEq, Eq, Structural)]
pub struct DummyContract {}

impl DummyContract {
    pub fn new() -> (r: DummyContract)
        ensures
            r == (DummyContract {}),
    {
        DummyContract {}
    }

    pub fn result_ok(&mut self) -> (r: Result<(), DummyError>)
        ensures
            r == Ok::<(), DummyError>(()),
    {
        Ok(())
    }

    pub fn result_ng(&mut self) -> (r: Result<(), DummyError>)
        ensures
            r == Err::<(), DummyError>(DummyError::Ng),
    {
        Err(DummyError::Ng)
    }
}

/// A mint that the faucet asks a mintable token for.
#[derive(Clone, Copy, Debug, PartialEq, Eq, Structural)]
pub struct MintRequest {
    pub token: AccountId,
    pub to: AccountId,
    pub amount: u128,
}

/// A faucet of test tokens: it mints to the given account, or to the caller.
#[derive(Clone, Copy, Debug, PartialEq, Eq, Structural)]
pub struct Faucet {}

impl Faucet {
    pub fn new() -> (r: Faucet)
        ensures
            r == (Faucet {}),
    {
        Faucet {}
    }

    /// The mint of `amount` of `asset` for `account`, the caller when none.
    pub fn mint(&self, caller: AccountId, asset: AccountId, amount: u128, account: Option<AccountId>) -> (r: MintRequest)
        ensures
            r == (MintRequest {
                token: asset,
                to: match account {
                    Some(a) => a,
                    None => caller,
                },
                amount,
            }),
    {
        let to = match account {
            Some(a) => a,
            None => caller,
        };
        MintRequest { token: asset, to, amount }
    }

    /// The mint of a pool's underlying; `underlying` is the pool's.
    pub fn mint_underlying(&self, caller: AccountId, underlying: AccountId, amount: u128, account: Option<AccountId>) -> (r: MintRequest)
        ensures
            r == self.mint_spec(caller, underlying, amount, account),
    {
        self.mint(caller, underlying, amount, account)
    }

    pub open spec fn mint_spec(&self, caller: AccountId, asset: AccountId, amount: u128, account: Option<AccountId>) -> MintRequest {
        MintRequest {
            token: asset,
            to: match account {
                Some(a) => a,
                None => caller,
            },
            amount,
        }
    }

    /// The mints of the underlyings of all of a controller's pools, in order;
    /// `underlyings` are the pools' underlyings.
    pub fn mint_underlying_all(
        &self,
        caller: AccountId,
        underlyings: &Vec<AccountId>,
        amount: u128,
        account: Option<AccountId>,
    ) -> (r: Vec<MintRequest>)
        ensures
            r.len() == underlyings.len(),
            forall|i: int| 0 <= i < underlyings.len() ==> #[trigger] r[i] == self.mint_spec(caller, underlyings[i], amount, account),
    {
        let mut requests: Vec<MintRequest> = Vec::new();
        let mut i: usize = 0;
        while i < underlyings.len()
            invariant
                i <= underlyings.len(),
                requests.len() == i,
                forall|j: int| 0 <= j < i ==> #[trigger] requests[j] == self.mint_spec(caller, underlyings[j], amount, account),
            decreases underlyings.len() - i,
        {
            requests.push(self.mint_underlying(caller, underlyings[i], amount, account));
            i = i + 1;
        }
        requests
    }
}

/// A flash-loan receiver that pays back what it borrowed and the premium, or fails
/// on request.
#[derive(Clone, Copy, Debug, PartialEq, Eq, Structural)]
pub struct FlashloanReceiver {
    /// AccountId of Flashloan Gateway
    pub flashloan_gateway: Option<AccountId>,
    /// Whether the execution reports failure.
    pub fail_execution: bool,
}

/// Whether the receiver can pay back asset `i`: it pulled the premium from the
/// initiator, holds the amount and the premium, and let the gateway take them.
pub open spec fn receiver_pays_back(
    amounts: Seq<u128>,
    premiums: Seq<u128>,
    pulled: Seq<bool>,
    balances: Seq<u128>,
    approved: Seq<bool>,
    i: int,
) -> bool {
    pulled[i] && balances[i] >= amounts[i] + premiums[i] && approved[i]
}

impl FlashloanReceiver {
    pub fn new() -> (r: FlashloanReceiver)
        ensures
            r == (FlashloanReceiver { flashloan_gateway: None, fail_execution: false }),
    {
        FlashloanReceiver { flashloan_gateway: None, fail_execution: false }
    }

    pub fn _initialize(&mut self, flashloan_gateway: AccountId)
        ensures
            *final(self) == (FlashloanReceiver { flashloan_gateway: Some(flashloan_gateway), ..*old(self) }),
    {
        self.flashloan_gateway = Some(flashloan_gateway);
    }

    /// Whether the execution reports failure.
    pub fn fail_execution_transfer(&self) -> (r: bool)
        ensures
            r == self.fail_execution,
    {
        self.fail_execution
    }

    /// Tells the receiver to fail its executions, or not.
    pub fn set_fail_execution_transfer(&mut self, fail: bool)
        ensures
            *final(self) == (FlashloanReceiver { fail_execution: fail, ..*old(self) }),
    {
        self._set_fail_execution_transfer(fail);
    }

    pub fn _set_fail_execution_transfer(&mut self, fail: bool)
        ensures
            *final(self) == (FlashloanReceiver { fail_execution: fail, ..*old(self) }),
    {
        self.fail_execution = fail;
    }

    /// Runs the operation on the borrowed assets: it succeeds when it is not told to
    /// fail, knows the gateway, and can pay back every asset. For asset `i`, `pulled`
    /// tells whether the premium came from the initiator, `balances` what the
    /// receiver then holds and `approved` whether the gateway may take it back.
    pub fn execute_operation(
        &self,
        amounts: &Vec<u128>,
        premiums: &Vec<u128>,
        pulled: &Vec<bool>,
        balances: &Vec<u128>,
        approved: &Vec<bool>,
    ) -> (r: bool)
        requires
            premiums.len() == amounts.len(),
            pulled.len() == amounts.len(),
            balances.len() == amounts.len(),
            approved.len() == amounts.len(),
            forall|i: int| 0 <= i < amounts.len() ==> amounts[i] + premiums[i] <= u128::MAX,
        ensures
            r == (!self.fail_execution && self.flashloan_gateway is Some
                && forall|i: int| 0 <= i < amounts.len()
                    ==> #[trigger] receiver_pays_back(amounts@, premiums@, pulled@, balances@, approved@, i)),
    {
        if self.fail_execution {
            return false;
        }
        if self.flashloan_gateway.is_none() {
            return false;
        }
        let mut index: usize = 0;
        while index < amounts.len()
            invariant
                index <= amounts.len(),
                premiums.len() == amounts.len(),
                pulled.len() == amounts.len(),
                balances.len() == amounts.len(),
                approved.len() == amounts.len(),
                forall|i: int| 0 <= i < amounts.len() ==> amounts[i] + premiums[i] <= u128::MAX,
                forall|i: int| 0 <= i < index
                    ==> #[trigger] receiver_pays_back(amounts@, premiums@, pulled@, balances@, approved@, i),
            decreases amounts.len() - index,
        {
            if !pulled[index] {
                assert(!receiver_pays_back(amounts@, premiums@, pulled@, balances@, approved@, index as int));
                return false;
            }
            let amount_to_return = amounts[index] + premiums[index];
            if balances[index] < amount_to_return {
                assert(!receiver_pays_back(amounts@, premiums@, pulled@, balances@, approved@, index as int));
                return false;
            }
            if !approved[index] {
                assert(!receiver_pays_back(amounts@, premiums@, pulled@, balances@, approved@, index as int));
                return false;
            }
            index = index + 1;
        }
        true
    }
}

} // verus!
