//! ZIP-317 fee estimation.
//!
//! Fee formula: 5000 zatoshis × max(2, logical actions). The remote
//! processor computes the authoritative fee; the estimate is advisory.

use vstd::prelude::*;
use crate::rpc::Payment;

verus! {

/// Fee charged per logical action, in zatoshis.
pub const FEE_BASE: u64 = 5000;

/// Smallest number of logical actions that a fee is charged for.
pub const MIN_LOGICAL_ACTIONS: u64 = 2;

/// A count as a `u64`: itself where it fits, else `u64::MAX`.
pub open spec fn saturate(value: nat) -> u64 {
    if value > u64::MAX {
        u64::MAX
    } else {
        value as u64
    }
}

/// The conventional fee for a number of logical actions, as a mathematical
/// integer: the per-action fee times the larger of the action count and the
/// minimum.
pub open spec fn zip317_fee(logical_actions: nat) -> nat {
    5000 * (if logical_actions < 2 { 2 } else { logical_actions })
}

/// Conventional fee in zatoshis for a transaction with `logical_actions`
/// logical actions. Saturates at `u64::MAX` where the product does not fit.
pub fn calculate_zip317_fee(logical_actions: u64) -> (fee: u64)
    ensures
        fee == saturate(zip317_fee(logical_actions as nat)),
{
    let actions: u64 = if logical_actions < MIN_LOGICAL_ACTIONS {
        MIN_LOGICAL_ACTIONS
    } else {
        logical_actions
    };
    if actions > u64::MAX / FEE_BASE {
        u64::MAX
    } else {
        FEE_BASE * actions
    }
}

/// Logical actions of a transaction with `payment_count` payments: one
/// input, one output per payment whatever its pool, and one more spend where
/// the inputs are shielded.
pub open spec fn logical_actions(payment_count: nat, has_shielded_input: bool) -> nat {
    1 + payment_count + (if has_shielded_input { 1nat } else { 0nat })
}

/// The estimated fee of a transaction with `payment_count` payments.
pub open spec fn estimated_fee(payment_count: nat, has_shielded_input: bool) -> nat {
    zip317_fee(logical_actions(payment_count, has_shielded_input))
}

/// Estimate logical actions for a transaction based on its payments.
/// Saturates at `u64::MAX`.
pub fn estimate_logical_actions(payments: &[Payment], has_shielded_input: bool) -> (actions: u64)
    ensures
        actions == saturate(logical_actions(payments@.len(), has_shielded_input)),
{
    let outputs: u64 = payments.len() as u64;
    let spends: u64 = if has_shielded_input { 2 } else { 1 };
    if outputs > u64::MAX - spends {
        u64::MAX
    } else {
        outputs + spends
    }
}

/// Calculate the ZIP-317 fee for a transaction based on its payments.
/// Saturates at `u64::MAX`.
pub fn calculate_fee_from_payments(payments: &[Payment], has_shielded_input: bool) -> (fee: u64)
    ensures
        fee == saturate(estimated_fee(payments@.len(), has_shielded_input)),
{
    let actions = estimate_logical_actions(payments, has_shielded_input);
    calculate_zip317_fee(actions)
}

/// The fee never goes down when logical actions are added, neither as a
/// mathematical integer nor as the `u64` that is returned.
pub proof fn lemma_zip317_fee_monotone(fewer: nat, more: nat)
    requires
        fewer <= more,
    ensures
        zip317_fee(fewer) <= zip317_fee(more),
        saturate(zip317_fee(fewer)) <= saturate(zip317_fee(more)),
{
}

/// The estimated fee is monotone non-decreasing in the number of payments,
/// and a shielded input never lowers it. Both hold of the `u64` that is
/// returned as well.
pub proof fn lemma_estimated_fee_monotone(fewer: nat, more: nat, has_shielded_input: bool)
    requires
        fewer <= more,
    ensures
        estimated_fee(fewer, has_shielded_input) <= estimated_fee(more, has_shielded_input),
        estimated_fee(fewer, false) <= estimated_fee(fewer, true),
        saturate(estimated_fee(fewer, has_shielded_input)) <= saturate(estimated_fee(more, has_shielded_input)),
        saturate(estimated_fee(fewer, false)) <= saturate(estimated_fee(fewer, true)),
{
}

/// No transaction is estimated below the fee of the minimum action count,
/// which is also the estimate for an empty batch without shielded input.
pub proof fn lemma_estimated_fee_floor(payment_count: nat, has_shielded_input: bool)
    ensures
        estimated_fee(payment_count, has_shielded_input) >= 10000,
        estimated_fee(0, false) == 10000,
        saturate(estimated_fee(0, false)) == 10000,
{
}

} // verus!
