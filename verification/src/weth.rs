//! The wrapped native token: a PSP22 token minted one for one against the native
//! token and burned to get it back.

use vstd::prelude::*;
use crate::account::AccountId;
use crate::psp22::{PSP22Error, Psp22Data};
use crate::u256::u128_max;

verus! {

/// The wrapped native token's ledger.
pub struct Weth {
    pub token: Psp22Data,
}

impl Weth {
    pub fn new() -> (r: Weth)
        ensures
            r.token.wf(),
            r.token.supply == 0,
            r.token.balances.view() == Map::<AccountId, u128>::empty(),
            r.token.allowances.view() == Map::<crate::mapping::AllowancesKey, u128>::empty(),
    {
        Weth { token: Psp22Data::new() }
    }

    /// Wraps the `transferred_value` native tokens the caller sent into as many
    /// wrapped ones.
    pub fn deposit(&mut self, caller: AccountId, transferred_value: u128) -> (r: Result<(), PSP22Error>)
        requires
            old(self).token.wf(),
            !caller.is_zero_spec() ==> old(self).token.supply + transferred_value <= u128_max(),
            !caller.is_zero_spec() ==> old(self).token.balance_spec(caller) + transferred_value <= u128_max(),
        ensures
            final(self).token.wf(),
            r == (if caller.is_zero_spec() {
                Err::<(), PSP22Error>(PSP22Error::ZeroRecipientAddress)
            } else {
                Ok(())
            }),
            r is Ok ==> final(self).token.supply == old(self).token.supply + transferred_value
                && final(self).token.balances.view() == old(self).token.balances.view().insert(
                    caller, (old(self).token.balance_spec(caller) + transferred_value) as u128)
                && final(self).token.allowances.view() == old(self).token.allowances.view(),
            r is Err ==> *final(self) == *old(self),
    {
        self.token._mint_to(caller, transferred_value)
    }

    /// The refusals of a withdrawal of `value`, in order, given whether the chain
    /// sent the native tokens.
    pub open spec fn withdraw_refusal(&self, caller: AccountId, value: u128, sent: bool) -> Option<PSP22Error> {
        if self.token.balance_spec(caller) < value {
            Some(PSP22Error::InsufficientBalance)
        } else if caller.is_zero_spec() {
            Some(PSP22Error::ZeroSenderAddress)
        } else {
            None
        }
    }

    /// Unwraps `value` of the caller's wrapped tokens; `sent` tells whether the chain
    /// sent the native tokens back.
    pub fn withdraw(&mut self, caller: AccountId, value: u128, sent: bool) -> (r: Result<(), PSP22Error>)
        requires
            old(self).token.wf(),
        ensures
            final(self).token.wf(),
            old(self).withdraw_refusal(caller, value, sent) is Some
                ==> r == Err::<(), PSP22Error>(old(self).withdraw_refusal(caller, value, sent)->Some_0),
            old(self).withdraw_refusal(caller, value, sent) is None && !sent
                ==> r is Err && r->Err_0 is Custom && r->Err_0->Custom_0@ == "Cannot send ASTR."@,
            r is Ok <==> old(self).withdraw_refusal(caller, value, sent) is None && sent,
            r is Ok ==> final(self).token.supply == old(self).token.supply - value
                && final(self).token.balances.view() == old(self).token.balances.view().insert(
                    caller, (old(self).token.balance_spec(caller) - value) as u128)
                && final(self).token.allowances.view() == old(self).token.allowances.view(),
            r is Err ==> *final(self) == *old(self),
    {
        if self.token._balance_of(&caller) < value {
            return Err(PSP22Error::InsufficientBalance);
        }
        if caller.is_zero() {
            return Err(PSP22Error::ZeroSenderAddress);
        }
        if !sent {
            return Err(PSP22Error::Custom("Cannot send ASTR.".to_owned()));
        }
        let burned = self.token._burn_from(caller, value);
        proof { assert(burned is Ok); }
        Ok(())
    }
}

} // verus!
