//! The incentives controller that pools notify of every action of a user.

use vstd::prelude::*;
use crate::account::AccountId;

verus! {

/// Why the incentives controller refused an action.
#[derive(Debug, PartialEq, Eq, Structural, Clone, Copy)]
pub enum Error {
    CallerIsNotConfiguredAsset,
}

/// The storage of the incentives controller.
pub struct Data {
    pub is_ok: bool,
}

impl Data {
    /// Records an action of `user`: accepted exactly when the controller is
    /// configured to accept.
    pub fn handle_action(
        &self,
        _user: AccountId,
        _total_deposit: u128,
        _total_borrow: u128,
        _user_deposit: u128,
        _user_borrow: u128,
    ) -> (r: Result<(), Error>)
        ensures
            r == (if self.is_ok { Ok::<(), Error>(()) } else { Err(Error::CallerIsNotConfiguredAsset) }),
    {
        if self.is_ok {
            return Ok(());
        }
        Err(Error::CallerIsNotConfiguredAsset)
    }

    /// Configures whether actions are accepted.
    pub fn set_ok(&mut self, is_ok: bool) -> (r: Result<(), Error>)
        ensures
            r is Ok,
            final(self).is_ok == is_ok,
    {
        self._set_ok(is_ok)
    }

    pub fn _set_ok(&mut self, is_ok: bool) -> (r: Result<(), Error>)
        ensures
            r is Ok,
            final(self).is_ok == is_ok,
    {
        self.is_ok = is_ok;
        Ok(())
    }
}

} // verus!
