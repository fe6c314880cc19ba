//! Domain types of the protocol: accounts, plans, subscriptions, their
//! lifecycle states, and the token movements an operation asks for.

use vstd::prelude::*;

verus! {

/// Whether an on-chain address names a key-holding account or a contract.
#[derive(Clone, Copy, Debug, PartialEq, Eq, Hash, Structural)]
pub enum AccountKind {
    Account,
    Contract,
}

/// An on-chain address, held as its kind and its 32-byte key
/// (high and low halves, big-endian).
#[derive(Clone, Copy, Debug, PartialEq, Eq, Hash, Structural)]
pub struct AccountId {
    pub kind: AccountKind,
    pub hi: u128,
    pub lo: u128,
}

impl AccountId {
    /// The address of a key-holding account with the given key halves.
    pub fn account(hi: u128, lo: u128) -> (r: AccountId)
        ensures
            r == (AccountId { kind: AccountKind::Account, hi, lo }),
    {
        AccountId { kind: AccountKind::Account, hi, lo }
    }

    /// The address of a contract with the given key halves.
    pub fn contract(hi: u128, lo: u128) -> (r: AccountId)
        ensures
            r == (AccountId { kind: AccountKind::Contract, hi, lo }),
    {
        AccountId { kind: AccountKind::Contract, hi, lo }
    }
}

/// One side of a token movement: the protocol's own escrow, or an outside
/// account.
#[derive(Clone, Copy, Debug, PartialEq, Eq, Structural)]
pub enum Party {
    /// The protocol contract, which holds every subscription's prepaid
    /// balance.
    Escrow,
    Account(AccountId),
}

/// A token movement that an operation requires, to be carried out by the
/// host in the same transaction.
#[derive(Clone, Copy, Debug, PartialEq, Eq, Structural)]
pub struct Transfer {
    pub token: AccountId,
    pub from: Party,
    pub to: Party,
    pub amount: i128,
}

/// Lifecycle of a subscription.
///
/// ```text
///                          +---------+
///        subscribe ------> | Active  | <---- resume / successful charge
///                          +---------+
///                            |  |  |
///          charge failed --- |  |  --- pause
///                            v  |         v
///                       +---------+   +--------+
///                       | PastDue |   | Paused |
///                       +---------+   +--------+
///                            |
///        grace elapsed ------+------> Expired
///
///        cancel (from Active / PastDue / Paused) ------> Cancelled
/// ```
#[derive(Clone, Copy, Debug, PartialEq, Eq, Structural)]
pub enum SubscriptionStatus {
    /// Billing normally.
    Active,
    /// Last charge attempt failed; within the grace window.
    PastDue,
    /// Voluntarily paused by the subscriber; no charges occur.
    Paused,
    /// Terminated by the subscriber; terminal state.
    Cancelled,
    /// Terminated by the protocol (grace elapsed or spend ceiling
    /// reached); terminal state.
    Expired,
}

impl SubscriptionStatus {
    /// Cancelled and Expired are final: nothing leaves them.
    pub open spec fn spec_is_terminal(&self) -> bool {
        *self == SubscriptionStatus::Cancelled || *self == SubscriptionStatus::Expired
    }

    /// The states in which the keeper may bill.
    pub open spec fn spec_is_billable(&self) -> bool {
        *self == SubscriptionStatus::Active || *self == SubscriptionStatus::PastDue
    }

    #[verifier::when_used_as_spec(spec_is_terminal)]
    pub fn is_terminal(&self) -> (r: bool)
        ensures
            r == self.spec_is_terminal(),
    {
        match self {
            SubscriptionStatus::Cancelled | SubscriptionStatus::Expired => true,
            _ => false,
        }
    }

    #[verifier::when_used_as_spec(spec_is_billable)]
    pub fn is_billable(&self) -> (r: bool)
        ensures
            r == self.spec_is_billable(),
    {
        match self {
            SubscriptionStatus::Active | SubscriptionStatus::PastDue => true,
            _ => false,
        }
    }
}

/// Outcome of a `charge` attempt. `charge` deliberately returns an
/// outcome instead of erroring on payment failure, so that state
/// transitions (PastDue, Expired) persist when a keeper calls it.
#[derive(Clone, Copy, Debug, PartialEq, Eq, Structural)]
pub enum ChargeOutcome {
    /// Payment moved to the merchant; subscription remains Active.
    Charged,
    /// Deposited balance could not cover the period; now PastDue.
    InsufficientFunds,
    /// Grace window elapsed without recovery; now Expired.
    GraceElapsed,
    /// Spend ceiling reached; subscription completed as Expired.
    CeilingReached,
}

/// A merchant's billing plan. Immutable after creation except for the
/// `active` flag, so subscribers always know exactly what they agreed to.
#[derive(Clone, Debug, PartialEq, Eq)]
pub struct Plan {
    /// Sequential plan identifier.
    pub id: u64,
    /// Account that receives charges and controls the plan.
    pub merchant: AccountId,
    /// Token contract used for billing.
    pub token: AccountId,
    /// Price per billing period, in the token's smallest unit.
    pub amount: i128,
    /// Billing period length in seconds.
    pub interval: u64,
    /// Seconds after a missed charge before the subscription expires.
    pub grace_period: u64,
    /// Human-readable plan name.
    pub name: String,
    /// Whether the plan accepts new subscriptions.
    pub active: bool,
    /// Ledger timestamp at creation.
    pub created_at: u64,
}

impl Plan {
    /// An exact copy of the plan.
    pub fn duplicate(&self) -> (r: Plan)
        ensures
            r == *self,
    {
        Plan {
            id: self.id,
            merchant: self.merchant,
            token: self.token,
            amount: self.amount,
            interval: self.interval,
            grace_period: self.grace_period,
            name: self.name.clone(),
            active: self.active,
            created_at: self.created_at,
        }
    }
}

/// A subscriber's authorization against a plan, together with the
/// prepaid balance the protocol may draw from.
///
/// The subscriber funds a balance held by the protocol, and `charge`
/// moves at most `plan.amount` per elapsed period from that balance to
/// the merchant — never more, never early. The subscriber can withdraw
/// the unused balance at any time.
#[derive(Clone, Copy, Debug, PartialEq, Eq, Structural)]
pub struct Subscription {
    /// Sequential subscription identifier.
    pub id: u64,
    /// The plan this subscription is bound to.
    pub plan_id: u64,
    /// The paying account.
    pub subscriber: AccountId,
    /// Current lifecycle state.
    pub status: SubscriptionStatus,
    /// Hard per-period cap authorized by the subscriber. A charge can
    /// never exceed this, regardless of the plan.
    pub max_amount: i128,
    /// Optional lifetime spend ceiling. `0` means unlimited. Once
    /// `total_spent + plan.amount` would exceed it, the subscription
    /// completes as Expired instead of charging.
    pub spend_ceiling: i128,
    /// Prepaid balance held by the protocol for this subscription.
    pub balance: i128,
    /// Cumulative amount ever charged to the merchant.
    pub total_spent: i128,
    /// Timestamp at/after which the next charge is permitted.
    pub next_charge_at: u64,
    /// Number of successfully billed periods.
    pub periods_paid: u32,
    /// Consecutive failed charge attempts since the last success.
    pub failed_attempts: u32,
    /// Timestamp of pause, `0` when not paused. Used to shift the
    /// schedule by the paused duration on resume.
    pub paused_at: u64,
    /// Ledger timestamp at creation.
    pub created_at: u64,
}

} // verus!
