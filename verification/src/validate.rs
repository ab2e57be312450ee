use vstd::prelude::*;

verus! {

/// The operator-supplied serving limits that the cross-field validation rules
/// read. Ceilings that the operator may leave unset (to be filled in later
/// from the backend's capacity report) are optional.
#[derive(Clone, Copy, Debug)]
pub struct LimitSet {
    pub max_input_tokens: Option<usize>,
    pub max_total_tokens: Option<usize>,
    pub max_batch_prefill_tokens: u32,
    pub max_batch_total_tokens: Option<u32>,
    pub max_batch_size: Option<usize>,
    pub validation_workers: usize,
}

/// One argument-validation failure, carrying the offending values so that the
/// caller can render a field-level diagnostic.
#[derive(Clone, Copy, Debug, PartialEq, Eq)]
pub enum ValidationFailure {
    NoValidationWorkers,
    BatchSizeZero,
    InputNotBelowTotal { max_input_tokens: usize, max_total_tokens: usize },
    PrefillBelowInput { max_batch_prefill_tokens: u32, max_input_tokens: usize },
    PrefillAboveBatchTotal { max_batch_prefill_tokens: u32, max_batch_total_tokens: u32 },
    TotalAboveBatchTotal { max_total_tokens: usize, max_batch_total_tokens: u32 },
    ExecutorWorkerMissing,
}

/// Rule 1: there must be at least one validation worker.
pub open spec fn workers_rule_ok(l: LimitSet) -> bool {
    l.validation_workers > 0
}

/// Rule 2: a batch-size ceiling, when present, must be positive.
pub open spec fn batch_size_rule_ok(l: LimitSet) -> bool {
    l.max_batch_size matches Some(b) ==> b > 0
}

/// Rule 3: when both are known, the input-token ceiling must lie strictly
/// below the total-token ceiling.
pub open spec fn input_below_total_ok(l: LimitSet) -> bool {
    l.max_input_tokens is Some && l.max_total_tokens is Some ==> (l.max_input_tokens->0 as int)
        < (l.max_total_tokens->0 as int)
}

/// Rule 4: a known input-token ceiling must fit inside one prefill batch,
/// unless the backend supports prefill chunking.
pub open spec fn prefill_covers_input_ok(l: LimitSet, support_chunking: bool) -> bool {
    !support_chunking && l.max_input_tokens is Some ==> (l.max_input_tokens->0 as int) <= (
    l.max_batch_prefill_tokens as int)
}

/// Rule 5a: when the batch-total ceiling is known, the prefill ceiling must
/// not exceed it.
pub open spec fn prefill_within_batch_total_ok(l: LimitSet) -> bool {
    l.max_batch_total_tokens is Some ==> (l.max_batch_prefill_tokens as int) <= (
    l.max_batch_total_tokens->0 as int)
}

/// Rule 5b: when both are known, the total-token ceiling must not exceed the
/// batch-total ceiling.
pub open spec fn total_within_batch_total_ok(l: LimitSet) -> bool {
    l.max_batch_total_tokens is Some && l.max_total_tokens is Some ==> (l.max_total_tokens->0
        as int) <= (l.max_batch_total_tokens->0 as int)
}

/// Rule 6: a backend-specific precondition — when the backend requires an
/// executor-worker binary (`Some(..)`), that binary must be present on disk.
pub open spec fn executor_rule_ok(executor_worker_present: Option<bool>) -> bool {
    executor_worker_present matches Some(p) ==> p
}

/// The first cross-field rule (rules 3 to 5) that the limits break, in the
/// diagnostic order the rules are stated in, or `None` when they all hold.
pub open spec fn cross_failure(l: LimitSet, support_chunking: bool) -> Option<ValidationFailure> {
    if !input_below_total_ok(l) {
        Some(
            ValidationFailure::InputNotBelowTotal {
                max_input_tokens: l.max_input_tokens->0,
                max_total_tokens: l.max_total_tokens->0,
            },
        )
    } else if !prefill_covers_input_ok(l, support_chunking) {
        Some(
            ValidationFailure::PrefillBelowInput {
                max_batch_prefill_tokens: l.max_batch_prefill_tokens,
                max_input_tokens: l.max_input_tokens->0,
            },
        )
    } else if !prefill_within_batch_total_ok(l) {
        Some(
            ValidationFailure::PrefillAboveBatchTotal {
                max_batch_prefill_tokens: l.max_batch_prefill_tokens,
                max_batch_total_tokens: l.max_batch_total_tokens->0,
            },
        )
    } else if !total_within_batch_total_ok(l) {
        Some(
            ValidationFailure::TotalAboveBatchTotal {
                max_total_tokens: l.max_total_tokens->0,
                max_batch_total_tokens: l.max_batch_total_tokens->0,
            },
        )
    } else {
        None
    }
}

/// The first rule that the configuration breaks, in diagnostic order, or
/// `None` when validation passes.
pub open spec fn first_failure(
    l: LimitSet,
    support_chunking: bool,
    executor_worker_present: Option<bool>,
) -> Option<ValidationFailure> {
    if !workers_rule_ok(l) {
        Some(ValidationFailure::NoValidationWorkers)
    } else if !batch_size_rule_ok(l) {
        Some(ValidationFailure::BatchSizeZero)
    } else if cross_failure(l, support_chunking) is Some {
        cross_failure(l, support_chunking)
    } else if !executor_rule_ok(executor_worker_present) {
        Some(ValidationFailure::ExecutorWorkerMissing)
    } else {
        None
    }
}

/// What `validate` returns: `Ok` exactly when every rule holds, otherwise the
/// first failure in diagnostic order.
pub open spec fn spec_validate(
    l: LimitSet,
    support_chunking: bool,
    executor_worker_present: Option<bool>,
) -> Result<(), ValidationFailure> {
    match first_failure(l, support_chunking, executor_worker_present) {
        None => Ok(()),
        Some(f) => Err(f),
    }
}

/// Checks the cross-field rules (3 to 5) alone. The capacity negotiator
/// re-runs exactly these once the backend has reported authoritative values.
pub fn validate_cross(l: &LimitSet, support_chunking: bool) -> (r: Result<(), ValidationFailure>)
    ensures
        r == (match cross_failure(*l, support_chunking) {
            None => Ok::<(), ValidationFailure>(()),
            Some(f) => Err::<(), ValidationFailure>(f),
        }),
{
    if let (Some(i), Some(t)) = (l.max_input_tokens, l.max_total_tokens) {
        if i >= t {
            return Err(
                ValidationFailure::InputNotBelowTotal { max_input_tokens: i, max_total_tokens: t },
            );
        }
    }
    if !support_chunking {
        if let Some(i) = l.max_input_tokens {
            if (i as u64) > (l.max_batch_prefill_tokens as u64) {
                return Err(
                    ValidationFailure::PrefillBelowInput {
                        max_batch_prefill_tokens: l.max_batch_prefill_tokens,
                        max_input_tokens: i,
                    },
                );
            }
        }
    }
    if let Some(bt) = l.max_batch_total_tokens {
        if l.max_batch_prefill_tokens > bt {
            return Err(
                ValidationFailure::PrefillAboveBatchTotal {
                    max_batch_prefill_tokens: l.max_batch_prefill_tokens,
                    max_batch_total_tokens: bt,
                },
            );
        }
        if let Some(t) = l.max_total_tokens {
            if (t as u64) > (bt as u64) {
                return Err(
                    ValidationFailure::TotalAboveBatchTotal {
                        max_total_tokens: t,
                        max_batch_total_tokens: bt,
                    },
                );
            }
        }
    }
    Ok(())
}

/// Validates the full rule set over the supplied limits: worker count, batch
/// size, the cross-field ceilings, and the backend-specific executor-worker
/// precondition. Pure and total; returns the first failure in diagnostic
/// order.
pub fn validate(
    l: &LimitSet,
    support_chunking: bool,
    executor_worker_present: Option<bool>,
) -> (r: Result<(), ValidationFailure>)
    ensures
        r == spec_validate(*l, support_chunking, executor_worker_present),
{
    if l.validation_workers == 0 {
        return Err(ValidationFailure::NoValidationWorkers);
    }
    if let Some(b) = l.max_batch_size {
        if b == 0 {
            return Err(ValidationFailure::BatchSizeZero);
        }
    }
    if let Err(f) = validate_cross(l, support_chunking) {
        return Err(f);
    }
    if let Some(present) = executor_worker_present {
        if !present {
            return Err(ValidationFailure::ExecutorWorkerMissing);
        }
    }
    Ok(())
}

/// Law: a configuration whose known input-token ceiling is at or above its
/// known total-token ceiling never validates.
pub proof fn lemma_input_at_or_above_total_rejected(
    l: LimitSet,
    support_chunking: bool,
    executor_worker_present: Option<bool>,
)
    requires
        l.max_input_tokens is Some,
        l.max_total_tokens is Some,
        l.max_input_tokens->0 >= l.max_total_tokens->0,
    ensures
        spec_validate(l, support_chunking, executor_worker_present) is Err,
{
}

/// Law: a configuration with zero validation workers never validates, and the
/// reported failure is the worker rule itself.
pub proof fn lemma_zero_validation_workers_rejected(
    l: LimitSet,
    support_chunking: bool,
    executor_worker_present: Option<bool>,
)
    requires
        l.validation_workers == 0,
    ensures
        spec_validate(l, support_chunking, executor_worker_present) == Err::<
            (),
            ValidationFailure,
        >(ValidationFailure::NoValidationWorkers),
{
}

/// Law: a batch-size ceiling of zero never validates, while an absent or
/// positive batch-size ceiling never trips the batch-size rule.
pub proof fn lemma_batch_size_rule(
    l: LimitSet,
    support_chunking: bool,
    executor_worker_present: Option<bool>,
)
    ensures
        l.max_batch_size == Some(0usize) ==> spec_validate(
            l,
            support_chunking,
            executor_worker_present,
        ) is Err,
        (l.max_batch_size matches Some(b) ==> b > 0) ==> first_failure(
            l,
            support_chunking,
            executor_worker_present,
        ) != Some(ValidationFailure::BatchSizeZero),
{
}

/// Law: a prefill ceiling above a known batch-total ceiling never validates.
pub proof fn lemma_prefill_above_batch_total_rejected(
    l: LimitSet,
    support_chunking: bool,
    executor_worker_present: Option<bool>,
)
    requires
        l.max_batch_total_tokens is Some,
        l.max_batch_prefill_tokens > l.max_batch_total_tokens->0,
    ensures
        spec_validate(l, support_chunking, executor_worker_present) is Err,
{
}

} // verus!
