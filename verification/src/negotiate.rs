use vstd::prelude::*;

use crate::validate::{cross_failure, validate_cross, LimitSet, ValidationFailure};

verus! {

/// Authoritative serving limits reported by the backend once connected.
/// They supersede operator-supplied optional limits of the same name and
/// are immutable for the process lifetime.
#[derive(Clone, Copy, Debug, PartialEq, Eq)]
pub struct CapacityDescriptor {
    pub max_input_tokens: usize,
    pub max_total_tokens: usize,
    pub max_batch_total_tokens: u32,
    pub support_chunking: bool,
}

/// The effective token ceilings after negotiation, with a note of which
/// ones were filled in from the descriptor so the driver can log the
/// effective values for the operator.
#[derive(Clone, Copy, Debug, PartialEq, Eq)]
pub struct EffectiveLimits {
    pub max_input_tokens: usize,
    pub max_total_tokens: usize,
    pub input_defaulted: bool,
    pub total_defaulted: bool,
}

/// The limit set once the descriptor's authoritative values replace the
/// operator-supplied optional ceilings.
pub open spec fn spec_apply_capacity(l: LimitSet, desc: CapacityDescriptor) -> LimitSet {
    LimitSet {
        max_input_tokens: Some(desc.max_input_tokens),
        max_total_tokens: Some(desc.max_total_tokens),
        max_batch_prefill_tokens: l.max_batch_prefill_tokens,
        max_batch_total_tokens: Some(desc.max_batch_total_tokens),
        max_batch_size: l.max_batch_size,
        validation_workers: l.validation_workers,
    }
}

/// Replaces the optional ceilings with the descriptor's authoritative
/// values, leaving every other limit as the operator set it.
pub fn apply_capacity(l: &LimitSet, desc: &CapacityDescriptor) -> (r: LimitSet)
    ensures
        r == spec_apply_capacity(*l, *desc),
{
    LimitSet {
        max_input_tokens: Some(desc.max_input_tokens),
        max_total_tokens: Some(desc.max_total_tokens),
        max_batch_prefill_tokens: l.max_batch_prefill_tokens,
        max_batch_total_tokens: Some(desc.max_batch_total_tokens),
        max_batch_size: l.max_batch_size,
        validation_workers: l.validation_workers,
    }
}

/// Merges the caller-supplied optional ceilings with the descriptor: the
/// descriptor is authoritative for both ceilings, and a ceiling the caller
/// left unset is marked as defaulted so the operator learns the effective
/// value.
pub fn merge_limits(
    requested_input: Option<usize>,
    requested_total: Option<usize>,
    desc: &CapacityDescriptor,
) -> (r: EffectiveLimits)
    ensures
        r.max_input_tokens == desc.max_input_tokens,
        r.max_total_tokens == desc.max_total_tokens,
        r.input_defaulted == (requested_input is None),
        r.total_defaulted == (requested_total is None),
{
    EffectiveLimits {
        max_input_tokens: desc.max_input_tokens,
        max_total_tokens: desc.max_total_tokens,
        input_defaulted: requested_input.is_none(),
        total_defaulted: requested_total.is_none(),
    }
}

/// Re-runs the cross-field rules with the now-authoritative values, since
/// the first pass may have been impossible (ceilings unknown) or may need
/// re-checking against values the backend itself constrains.
pub fn revalidate(l: &LimitSet, desc: &CapacityDescriptor) -> (r: Result<(), ValidationFailure>)
    ensures
        r == (match cross_failure(spec_apply_capacity(*l, *desc), desc.support_chunking) {
            None => Ok::<(), ValidationFailure>(()),
            Some(f) => Err::<(), ValidationFailure>(f),
        }),
{
    let applied = apply_capacity(l, desc);
    validate_cross(&applied, desc.support_chunking)
}

} // verus!
