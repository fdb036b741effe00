//! The gateway for the native token: wraps it to supply, withdraw, borrow and repay
//! in the pool of the wrapped token.

use vstd::prelude::*;
use crate::account::AccountId;
use crate::pool::Error as PoolError;
use crate::psp22::PSP22Error;

verus! {

/// Why the gateway refused an action.
#[derive(Debug, PartialEq, Eq, Clone)]
pub enum Error {
    SafeETHTransferFailed,
    InsufficientPayback,
    Pool(PoolError),
    PSP22(PSP22Error),
}

/// The gateway's storage.
pub struct Data {
    /// Account Id of Wrapped Native Token(PSP22)
    pub weth: AccountId,
    /// Pool address of WETH
    pub pool: AccountId,
}

/// What a repayment of at most `amount` with `transferred` native tokens does when
/// the caller owes `owed`: it pays back the smaller of the amount and the debt, and
/// refunds the rest of what was sent.
pub open spec fn repay_spec(amount: u128, transferred: u128, owed: u128) -> Result<(u128, u128), Error> {
    let payback = if amount < owed { amount } else { owed };
    if transferred < payback {
        Err(Error::InsufficientPayback)
    } else {
        Ok((payback, (transferred - payback) as u128))
    }
}

/// The amount a withdrawal redeems: all of the caller's pool tokens for `u128::MAX`.
pub fn withdraw_amount(amount: u128, user_balance: u128) -> (r: u128)
    ensures
        r == (if amount == u128::MAX { user_balance } else { amount }),
{
    if amount == u128::MAX {
        return user_balance;
    }
    amount
}

/// The payback and the refund of a repayment; see `repay_spec`.
pub fn repay_amounts(amount: u128, transferred: u128, owed: u128) -> (r: Result<(u128, u128), Error>)
    ensures
        r == repay_spec(amount, transferred, owed),
{
    let mut payback_amount = owed;
    if amount < payback_amount {
        payback_amount = amount;
    }
    if transferred < payback_amount {
        return Err(Error::InsufficientPayback);
    }
    Ok((payback_amount, transferred - payback_amount))
}

/// The outcome of sending native tokens, given whether the chain moved them.
pub fn safe_transfer_outcome(transferred: bool) -> (r: Result<(), Error>)
    ensures
        r == (if transferred { Ok::<(), Error>(()) } else { Err(Error::SafeETHTransferFailed) }),
{
    if !transferred {
        return Err(Error::SafeETHTransferFailed);
    }
    Ok(())
}

impl Data {
    pub fn new(weth: AccountId, pool: AccountId) -> (r: Data)
        ensures
            r == (Data { weth, pool }),
    {
        Data { weth, pool }
    }

    pub fn get_weth_address(&self) -> (r: AccountId)
        ensures
            r == self.weth,
    {
        self.weth
    }

    pub fn get_pool_address(&self) -> (r: AccountId)
        ensures
            r == self.pool,
    {
        self.pool
    }
}

/// What the pool, the wrapped token and the chain answered in the course of a
/// withdrawal.
pub struct WithdrawReplies {
    /// The pool's answer to keeping the caller's supply as collateral.
    pub collateral_set: Result<(), PoolError>,
    /// The pool's answer to moving the caller's pool tokens to the gateway.
    pub pulled: Result<(), PSP22Error>,
    /// The pool's answer to redeeming them.
    pub redeemed: Result<(), PoolError>,
    /// The wrapped token's answer to unwrapping.
    pub unwrapped: Result<(), PSP22Error>,
    /// Whether the chain sent the native tokens to the caller.
    pub sent: bool,
}

/// The outcome of a withdrawal of `amount` (all when `u128::MAX`) by a caller with
/// `user_balance` pool tokens: the amount withdrawn, or the first refusal in the
/// order of the calls.
pub open spec fn withdraw_eth_spec(amount: u128, user_balance: u128, replies: &WithdrawReplies) -> Result<u128, Error> {
    let amount_to_withdraw = if amount == u128::MAX { user_balance } else { amount };
    if replies.collateral_set is Err {
        Err(Error::Pool(replies.collateral_set->Err_0))
    } else if replies.pulled is Err {
        Err(Error::PSP22(replies.pulled->Err_0))
    } else if replies.redeemed is Err {
        Err(Error::Pool(replies.redeemed->Err_0))
    } else if replies.unwrapped is Err {
        Err(Error::PSP22(replies.unwrapped->Err_0))
    } else if !replies.sent {
        Err(Error::SafeETHTransferFailed)
    } else {
        Ok(amount_to_withdraw)
    }
}

/// Withdraws native tokens from the pool of the wrapped token; see
/// `withdraw_eth_spec`.
pub fn withdraw_eth(amount: u128, user_balance: u128, replies: WithdrawReplies) -> (r: Result<u128, Error>)
    ensures
        r == withdraw_eth_spec(amount, user_balance, &replies),
{
    let amount_to_withdraw = withdraw_amount(amount, user_balance);
    let WithdrawReplies { collateral_set, pulled, redeemed, unwrapped, sent } = replies;
    if let Err(e) = collateral_set {
        return Err(Error::Pool(e));
    }
    if let Err(e) = pulled {
        return Err(Error::PSP22(e));
    }
    if let Err(e) = redeemed {
        return Err(Error::Pool(e));
    }
    if let Err(e) = unwrapped {
        return Err(Error::PSP22(e));
    }
    safe_transfer_outcome(sent)?;
    Ok(amount_to_withdraw)
}

/// What the pool, the wrapped token and the chain answered in the course of a
/// repayment.
pub struct RepayReplies {
    /// The pool's answer for what the caller owes.
    pub owed: Result<u128, PoolError>,
    /// The wrapped token's answer to wrapping the payback.
    pub wrapped: Result<(), PSP22Error>,
    /// The wrapped token's answer to letting the pool take the payback.
    pub approved: Result<(), PSP22Error>,
    /// The pool's answer to the repayment.
    pub repaid: Result<(), PoolError>,
    /// Whether the chain sent the refund back, when there is one.
    pub refunded: bool,
}

/// The outcome of a repayment of at most `amount` with `transferred` native tokens:
/// the payback and the refund, or the first refusal in the order of the calls.
pub open spec fn repay_eth_spec(amount: u128, transferred: u128, replies: &RepayReplies) -> Result<(u128, u128), Error> {
    if replies.owed is Err {
        Err(Error::Pool(replies.owed->Err_0))
    } else if repay_spec(amount, transferred, replies.owed->Ok_0) is Err {
        repay_spec(amount, transferred, replies.owed->Ok_0)
    } else if replies.wrapped is Err {
        Err(Error::PSP22(replies.wrapped->Err_0))
    } else if replies.approved is Err {
        Err(Error::PSP22(replies.approved->Err_0))
    } else if replies.repaid is Err {
        Err(Error::Pool(replies.repaid->Err_0))
    } else if repay_spec(amount, transferred, replies.owed->Ok_0)->Ok_0.1 > 0 && !replies.refunded {
        Err(Error::SafeETHTransferFailed)
    } else {
        repay_spec(amount, transferred, replies.owed->Ok_0)
    }
}

/// Repays a debt in the pool of the wrapped token with native tokens; see
/// `repay_eth_spec`.
pub fn repay_eth(amount: u128, transferred: u128, replies: RepayReplies) -> (r: Result<(u128, u128), Error>)
    ensures
        r == repay_eth_spec(amount, transferred, &replies),
{
    let RepayReplies { owed, wrapped, approved, repaid, refunded } = replies;
    let owed = match owed {
        Ok(o) => o,
        Err(e) => return Err(Error::Pool(e)),
    };
    let (payback, refund) = repay_amounts(amount, transferred, owed)?;
    if let Err(e) = wrapped {
        return Err(Error::PSP22(e));
    }
    if let Err(e) = approved {
        return Err(Error::PSP22(e));
    }
    if let Err(e) = repaid {
        return Err(Error::Pool(e));
    }
    if refund > 0 {
        safe_transfer_outcome(refunded)?;
    }
    Ok((payback, refund))
}

} // verus!
