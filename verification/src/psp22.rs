//! Errors of the pool token, which follows the PSP22 fungible-token standard.

use vstd::prelude::*;

verus! {

/// Why a PSP22 operation failed.
#[derive(Debug, PartialEq, Eq, Clone)]
pub enum PSP22Error {
    /// A failure described by the token itself.
    Custom(String),
    InsufficientBalance,
    InsufficientAllowance,
    ZeroRecipientAddress,
    ZeroSenderAddress,
    SafeTransferCheckFailed(String),
}

/// Why a cross-contract message could not be dispatched.
#[derive(Debug, PartialEq, Eq, Structural, Clone, Copy)]
pub enum LangError {
    CouldNotReadInput,
}

} // verus!

use crate::account::AccountId;
use crate::mapping::{Mapping, AllowancesKey};

verus! {

/// The balances and allowances of a PSP22 token.
pub struct Psp22Data {
    pub supply: u128,
    pub balances: Mapping<AccountId, u128>,
    pub allowances: Mapping<AllowancesKey, u128>,
}

/// The value at `k`, or zero.
pub open spec fn get_or_zero<K>(m: Map<K, u128>, k: K) -> nat {
    if m.contains_key(k) {
        m[k] as nat
    } else {
        0
    }
}

/// A balance counted as a number of tokens.
pub open spec fn token_amount() -> spec_fn(u128) -> nat {
    |v: u128| v as nat
}

impl Psp22Data {
    /// The mappings hold distinct keys, and the balances add up to the supply.
    pub open spec fn wf(&self) -> bool {
        &&& self.balances.wf()
        &&& self.allowances.wf()
        &&& self.balances.total(token_amount()) == self.supply
    }

    /// No holder has more than the supply.
    pub proof fn lemma_balance_le_supply(&self, owner: AccountId)
        requires
            self.wf(),
        ensures
            self.balance_spec(owner) <= self.supply,
    {
        if self.balances.view().contains_key(owner) {
            self.balances.lemma_value_le_total(owner, token_amount());
        }
    }

    pub open spec fn balance_spec(&self, owner: AccountId) -> nat {
        get_or_zero(self.balances.view(), owner)
    }

    pub open spec fn allowance_spec(&self, owner: AccountId, spender: AccountId) -> nat {
        get_or_zero(self.allowances.view(), AllowancesKey { owner, delegatee: spender })
    }

    /// A token with no holder.
    pub fn new() -> (r: Psp22Data)
        ensures
            r.wf(),
            r.supply == 0,
            r.balances.view() == Map::<AccountId, u128>::empty(),
            r.allowances.view() == Map::<AllowancesKey, u128>::empty(),
    {
        Psp22Data { supply: 0, balances: Mapping::new(), allowances: Mapping::new() }
    }

    pub fn _balance_of(&self, owner: &AccountId) -> (r: u128)
        requires
            self.wf(),
        ensures
            r as nat == self.balance_spec(*owner),
    {
        match self.balances.get(owner) {
            Some(b) => b,
            None => 0,
        }
    }

    pub fn _allowance(&self, owner: &AccountId, spender: &AccountId) -> (r: u128)
        requires
            self.wf(),
        ensures
            r as nat == self.allowance_spec(*owner, *spender),
    {
        match self.allowances.get(&AllowancesKey { owner: *owner, delegatee: *spender }) {
            Some(b) => b,
            None => 0,
        }
    }

    /// Creates `amount` tokens for `account`.
    pub fn _mint_to(&mut self, account: AccountId, amount: u128) -> (r: Result<(), PSP22Error>)
        requires
            old(self).wf(),
            !account.is_zero_spec() ==> old(self).supply + amount <= u128::MAX,
            !account.is_zero_spec() ==> old(self).balance_spec(account) + amount <= u128::MAX,
        ensures
            final(self).wf(),
            r == (if account.is_zero_spec() {
                Err::<(), PSP22Error>(PSP22Error::ZeroRecipientAddress)
            } else {
                Ok(())
            }),
            r is Ok ==> final(self).supply == old(self).supply + amount
                && final(self).balances.view() == old(self).balances.view().insert(account, (old(self).balance_spec(account) + amount) as u128)
                && final(self).allowances.view() == old(self).allowances.view(),
            r is Err ==> *final(self) == *old(self),
    {
        if account.is_zero() {
            return Err(PSP22Error::ZeroRecipientAddress);
        }
        let new_balance = self._balance_of(&account) + amount;
        self.balances.insert(&account, &new_balance);
        self.supply = self.supply + amount;
        Ok(())
    }

    /// Destroys `amount` of `account`'s tokens.
    pub fn _burn_from(&mut self, account: AccountId, amount: u128) -> (r: Result<(), PSP22Error>)
        requires
            old(self).wf(),
        ensures
            final(self).wf(),
            r == (if account.is_zero_spec() {
                Err::<(), PSP22Error>(PSP22Error::ZeroSenderAddress)
            } else if old(self).balance_spec(account) < amount {
                Err(PSP22Error::InsufficientBalance)
            } else {
                Ok(())
            }),
            r is Ok ==> final(self).supply == old(self).supply - amount
                && final(self).balances.view() == old(self).balances.view().insert(account, (old(self).balance_spec(account) - amount) as u128)
                && final(self).allowances.view() == old(self).allowances.view(),
            r is Err ==> *final(self) == *old(self),
    {
        if account.is_zero() {
            return Err(PSP22Error::ZeroSenderAddress);
        }
        let balance = self._balance_of(&account);
        if balance < amount {
            return Err(PSP22Error::InsufficientBalance);
        }
        proof {
            self.lemma_balance_le_supply(account);
        }
        self.balances.insert(&account, &(balance - amount));
        self.supply = self.supply - amount;
        Ok(())
    }

    /// Moves `amount` tokens from `from` to `to`.
    pub fn _transfer_from_to(&mut self, from: AccountId, to: AccountId, amount: u128) -> (r: Result<(), PSP22Error>)
        requires
            old(self).wf(),
            from != to ==> old(self).balance_spec(to) + amount <= u128::MAX,
        ensures
            final(self).wf(),
            r == (if from.is_zero_spec() {
                Err::<(), PSP22Error>(PSP22Error::ZeroSenderAddress)
            } else if to.is_zero_spec() {
                Err(PSP22Error::ZeroRecipientAddress)
            } else if old(self).balance_spec(from) < amount {
                Err(PSP22Error::InsufficientBalance)
            } else {
                Ok(())
            }),
            r is Ok ==> final(self).supply == old(self).supply
                && final(self).allowances.view() == old(self).allowances.view()
                && (from != to ==> final(self).balances.view() == old(self).balances.view().insert(from, (old(self).balance_spec(from) - amount) as u128).insert(to, (old(self).balance_spec(to) + amount) as u128))
                && (from == to ==> final(self).balances.view() == old(self).balances.view().insert(from, old(self).balance_spec(from) as u128)),
            r is Err ==> *final(self) == *old(self),
    {
        if from.is_zero() {
            return Err(PSP22Error::ZeroSenderAddress);
        }
        if to.is_zero() {
            return Err(PSP22Error::ZeroRecipientAddress);
        }
        let from_balance = self._balance_of(&from);
        if from_balance < amount {
            return Err(PSP22Error::InsufficientBalance);
        }
        if from == to {
            self.balances.insert(&from, &from_balance);
            return Ok(());
        }
        let to_balance = self._balance_of(&to);
        self.balances.insert(&from, &(from_balance - amount));
        self.balances.insert(&to, &(to_balance + amount));
        Ok(())
    }

    /// Sets what `spender` may transfer of `owner`'s tokens.
    pub fn _approve_from_to(&mut self, owner: AccountId, spender: AccountId, amount: u128) -> (r: Result<(), PSP22Error>)
        requires
            old(self).wf(),
        ensures
            final(self).wf(),
            r == (if owner.is_zero_spec() {
                Err::<(), PSP22Error>(PSP22Error::ZeroSenderAddress)
            } else if spender.is_zero_spec() {
                Err(PSP22Error::ZeroRecipientAddress)
            } else {
                Ok(())
            }),
            r is Ok ==> final(self).allowances.view() == old(self).allowances.view().insert(AllowancesKey { owner, delegatee: spender }, amount)
                && final(self).balances.view() == old(self).balances.view()
                && final(self).supply == old(self).supply,
            r is Err ==> *final(self) == *old(self),
    {
        if owner.is_zero() {
            return Err(PSP22Error::ZeroSenderAddress);
        }
        if spender.is_zero() {
            return Err(PSP22Error::ZeroRecipientAddress);
        }
        self.allowances.insert(&AllowancesKey { owner, delegatee: spender }, &amount);
        Ok(())
    }
}

} // verus!
