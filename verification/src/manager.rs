//! The manager: a role-guarded front for the administration of the controller and
//! its pools.

use vstd::prelude::*;
use crate::account::AccountId;
use crate::controller::Error as ControllerError;
use crate::pool::Error as PoolError;

verus! {

/// A role of the access control, by its number.
pub type RoleType = u32;

/// The role that administers the other roles and the manager itself.
pub const DEFAULT_ADMIN_ROLE: RoleType = 0;
/// The role that configures the controller and its markets.
pub const CONTROLLER_ADMIN: RoleType = 2873677832;
/// The role that administers the pools.
pub const TOKEN_ADMIN: RoleType = 937842313;
/// The role that sets borrow caps.
pub const BORROW_CAP_GUARDIAN: RoleType = 181502825;
/// The role that pauses actions.
pub const PAUSE_GUARDIAN: RoleType = 1332676982;

/// Why the access control refused a caller.
#[derive(Debug, PartialEq, Eq, Structural, Clone, Copy)]
pub enum AccessControlError {
    InvalidCaller,
    MissingRole,
    RoleRedundant,
}

/// Why the manager refused an action.
#[derive(Debug, PartialEq, Eq, Clone)]
pub enum Error {
    AccessControl(AccessControlError),
    Controller(ControllerError),
    Pool(PoolError),
}

/// An action that the manager performs for a role holder.
#[derive(Debug, PartialEq, Eq, Structural, Clone, Copy)]
pub enum ManagerAction {
    SetController,
    SetPriceOracle,
    SetFlashloanGateway,
    SupportMarket,
    SupportMarketWithCollateralFactorMantissa,
    SetCollateralFactorMantissa,
    SetCloseFactorMantissa,
    SetLiquidationIncentiveMantissa,
    SetControllerManager,
    AcceptControllerManager,
    SetBorrowCap,
    SetMintGuardianPaused,
    SetBorrowGuardianPaused,
    SetSeizeGuardianPaused,
    SetTransferGuardianPaused,
    ReduceReserves,
    SweepToken,
    SetLiquidationThreshold,
    SetReserveFactorMantissa,
    SetIncentivesController,
    SetPoolManager,
    AcceptPoolManager,
}

/// The role an action needs.
pub open spec fn required_role_spec(action: ManagerAction) -> RoleType {
    match action {
        ManagerAction::SetController => DEFAULT_ADMIN_ROLE,
        ManagerAction::SetBorrowCap => BORROW_CAP_GUARDIAN,
        ManagerAction::SetMintGuardianPaused | ManagerAction::SetBorrowGuardianPaused
        | ManagerAction::SetSeizeGuardianPaused | ManagerAction::SetTransferGuardianPaused => PAUSE_GUARDIAN,
        ManagerAction::ReduceReserves | ManagerAction::SweepToken | ManagerAction::SetLiquidationThreshold
        | ManagerAction::SetReserveFactorMantissa | ManagerAction::SetIncentivesController
        | ManagerAction::SetPoolManager | ManagerAction::AcceptPoolManager => TOKEN_ADMIN,
        _ => CONTROLLER_ADMIN,
    }
}

/// The role `action` needs.
pub fn required_role(action: ManagerAction) -> (r: RoleType)
    ensures
        r == required_role_spec(action),
{
    match action {
        ManagerAction::SetController => DEFAULT_ADMIN_ROLE,
        ManagerAction::SetBorrowCap => BORROW_CAP_GUARDIAN,
        ManagerAction::SetMintGuardianPaused | ManagerAction::SetBorrowGuardianPaused
        | ManagerAction::SetSeizeGuardianPaused | ManagerAction::SetTransferGuardianPaused => PAUSE_GUARDIAN,
        ManagerAction::ReduceReserves | ManagerAction::SweepToken | ManagerAction::SetLiquidationThreshold
        | ManagerAction::SetReserveFactorMantissa | ManagerAction::SetIncentivesController
        | ManagerAction::SetPoolManager | ManagerAction::AcceptPoolManager => TOKEN_ADMIN,
        _ => CONTROLLER_ADMIN,
    }
}

/// A caller may perform an action only if it holds the role; `has_role` is whether
/// the access control lists the caller under `required_role(action)`.
pub fn only_role(action: ManagerAction, has_role: bool) -> (r: Result<(), Error>)
    ensures
        r == (if has_role { Ok::<(), Error>(()) } else { Err(Error::AccessControl(AccessControlError::MissingRole)) }),
{
    let _role = required_role(action);
    if !has_role {
        return Err(Error::AccessControl(AccessControlError::MissingRole));
    }
    Ok(())
}

/// The outcome of an action forwarded to the controller, given its answer.
pub fn controller_outcome(answer: Result<(), ControllerError>) -> (r: Result<(), Error>)
    ensures
        r == (match answer {
            Ok(()) => Ok::<(), Error>(()),
            Err(e) => Err(Error::Controller(e)),
        }),
{
    match answer {
        Ok(()) => Ok(()),
        Err(e) => Err(Error::Controller(e)),
    }
}

/// The outcome of an action forwarded to a pool, given its answer.
pub fn pool_outcome(answer: Result<(), PoolError>) -> (r: Result<(), Error>)
    ensures
        answer is Ok ==> r is Ok,
        answer is Err ==> r == Err::<(), Error>(Error::Pool(answer->Err_0)),
{
    match answer {
        Ok(()) => Ok(()),
        Err(e) => Err(Error::Pool(e)),
    }
}

/// The manager's storage.
pub struct Data {
    /// AccountId of Controller
    pub controller: AccountId,
}

impl Data {
    pub fn new(controller: AccountId) -> (r: Data)
        ensures
            r.controller == controller,
    {
        Data { controller }
    }

    pub fn controller(&self) -> (r: AccountId)
        ensures
            r == self.controller,
    {
        self.controller
    }

    /// An administrator (`is_admin`) points the manager at another controller.
    pub fn set_controller(&mut self, is_admin: bool, id: AccountId) -> (r: Result<(), Error>)
        ensures
            r == (if is_admin { Ok::<(), Error>(()) } else { Err(Error::AccessControl(AccessControlError::MissingRole)) }),
            final(self).controller == (if is_admin { id } else { old(self).controller }),
    {
        only_role(ManagerAction::SetController, is_admin)?;
        self.controller = id;
        Ok(())
    }
}

} // verus!
