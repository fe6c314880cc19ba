//! Errors the protocol answers a refused request with.

use vstd::prelude::*;

verus! {

/// Why a request was refused. A refused request changes nothing.
#[derive(Clone, Copy, Debug, PartialEq, Eq, Structural)]
pub enum Error {
    /// `initialize` was called a second time.
    AlreadyInitialized,
    /// No admin has been set yet.
    NotInitialized,
    /// No plan has the requested identifier.
    PlanNotFound,
    /// No subscription has the requested identifier.
    SubscriptionNotFound,
    /// An amount is zero or negative, or would not fit the balance type.
    InvalidAmount,
    /// A billing interval lies outside the accepted range.
    InvalidInterval,
    /// The plan no longer accepts new subscriptions.
    PlanInactive,
    /// The subscriber's per-period cap is below the plan's price.
    CapBelowPlanAmount,
    /// The initial deposit cannot pay for the first period.
    DepositBelowFirstCharge,
    /// The next billing period has not started yet.
    ChargeNotDue,
    /// The subscription's state does not allow the operation.
    InvalidStatus,
    /// The prepaid balance is smaller than the requested withdrawal.
    InsufficientBalance,
}

} // verus!
