use vstd::prelude::*;

use crate::config::ServingConfig;
use crate::negotiate::{revalidate, spec_apply_capacity, CapacityDescriptor};
use crate::resolver::{is_terminal, ResolverState};
use crate::validate::{cross_failure, first_failure, validate, LimitSet, ValidationFailure};

verus! {

/// The classified fatal errors of bootstrap. Each one terminates the
/// process with a non-zero status before any server resource exists; none
/// is retried at this layer.
#[derive(Clone, Debug, PartialEq, Eq)]
pub enum BootstrapError {
    /// Bad or inconsistent operator input, with field-level detail.
    ArgumentValidation(ValidationFailure),
    /// Tokenizer resolution exhausted every fallback.
    ResourceResolution,
    /// The backend handshake or construction failed; the collaborator's
    /// message is passed through verbatim.
    BackendConnection(String),
    /// The server collaborator failed after startup; its message is passed
    /// through verbatim.
    ServerFailure(String),
}

/// What the active backend variant demands of bootstrap.
#[derive(Clone, Copy, Debug, PartialEq, Eq)]
pub struct BackendProfile {
    /// The backend reports authoritative capacity once connected, so the
    /// capacity negotiator and a second validation pass must run.
    pub reports_capacity: bool,
    /// The backend needs a directly loadable fast tokenizer; an external
    /// selection is fatal.
    pub requires_loadable_tokenizer: bool,
    /// The backend needs an executor-worker binary present on disk.
    pub requires_executor_worker: bool,
}

/// The next thing the bootstrap driver must do. The driver performs the
/// step's I/O and reports its outcome back; this module alone decides the
/// order.
#[derive(Clone, Debug, PartialEq, Eq)]
pub enum BootStep {
    /// Print the server's API schema and exit with status zero, before any
    /// validation or backend work.
    EmitSchema,
    /// Connect to the backend to obtain its capacity descriptor.
    Negotiate,
    /// Run the tokenizer-resolution chain.
    ResolveTokenizer,
    /// Construct and connect the backend with the final validated limits.
    ConnectBackend,
    /// Hand the backend to the server contract and block until it ends.
    RunServer,
    /// Terminate the process with a non-zero status. Nothing externally
    /// visible has been created yet, so nothing is rolled back.
    Abort(BootstrapError),
}

/// The step after a successful validation pass: negotiate capacity first
/// when the backend reports it and has not yet, then resolve the tokenizer
/// when one is required, then connect.
pub open spec fn next_after_validation(profile: BackendProfile, negotiated: bool) -> BootStep {
    if profile.reports_capacity && !negotiated {
        BootStep::Negotiate
    } else if profile.requires_loadable_tokenizer {
        BootStep::ResolveTokenizer
    } else {
        BootStep::ConnectBackend
    }
}

/// What bootstrap decides first. The schema subcommand short-circuits
/// everything else; otherwise the first validation pass runs over the
/// limits knowable without I/O. A backend that reports capacity settles
/// prefill chunking itself later, so on that profile the prefill-coverage
/// rule waits for the second pass.
pub open spec fn spec_initial_step(
    print_schema: bool,
    l: LimitSet,
    profile: BackendProfile,
    executor_worker_present: Option<bool>,
) -> BootStep {
    if print_schema {
        BootStep::EmitSchema
    } else {
        match first_failure(l, profile.reports_capacity, executor_worker_present) {
            Some(f) => BootStep::Abort(BootstrapError::ArgumentValidation(f)),
            None => next_after_validation(profile, false),
        }
    }
}

/// Decides bootstrap's first step from the parsed configuration: emit the
/// schema and stop, abort on the first validation failure, or proceed to
/// the first piece of backend work. Cheap checks run before any expensive
/// I/O is even suggested.
pub fn initial_step(
    print_schema: bool,
    cfg: &ServingConfig,
    profile: &BackendProfile,
    executor_worker_present: Option<bool>,
) -> (r: BootStep)
    ensures
        r == spec_initial_step(print_schema, cfg.limits, *profile, executor_worker_present),
{
    if print_schema {
        return BootStep::EmitSchema;
    }
    match validate(&cfg.limits, profile.reports_capacity, executor_worker_present) {
        Err(f) => BootStep::Abort(BootstrapError::ArgumentValidation(f)),
        Ok(()) => {
            if profile.reports_capacity {
                BootStep::Negotiate
            } else if profile.requires_loadable_tokenizer {
                BootStep::ResolveTokenizer
            } else {
                BootStep::ConnectBackend
            }
        },
    }
}

/// Decides the step after the capacity handshake: a failed handshake is
/// fatal and surfaced verbatim; otherwise the cross-field rules are re-run
/// with the authoritative values, whose first failure is fatal, and
/// bootstrap then moves on.
pub fn after_capacity(
    l: &LimitSet,
    profile: &BackendProfile,
    outcome: Result<CapacityDescriptor, String>,
) -> (r: BootStep)
    ensures
        outcome matches Err(m) ==> r == BootStep::Abort(BootstrapError::BackendConnection(m)),
        outcome matches Ok(desc) ==> r == (match cross_failure(
            spec_apply_capacity(*l, desc),
            desc.support_chunking,
        ) {
            Some(f) => BootStep::Abort(BootstrapError::ArgumentValidation(f)),
            None => next_after_validation(*profile, true),
        }),
{
    match outcome {
        Err(m) => BootStep::Abort(BootstrapError::BackendConnection(m)),
        Ok(desc) => match revalidate(l, &desc) {
            Err(f) => BootStep::Abort(BootstrapError::ArgumentValidation(f)),
            Ok(()) => {
                if profile.requires_loadable_tokenizer {
                    BootStep::ResolveTokenizer
                } else {
                    BootStep::ConnectBackend
                }
            },
        },
    }
}

/// Decides the step after the tokenizer resolver reached a terminal state:
/// exhausted resolution is fatal, and so is an external selection when the
/// active backend requires a directly loadable tokenizer.
pub fn after_resolution(outcome: &ResolverState, profile: &BackendProfile) -> (r: BootStep)
    requires
        is_terminal(*outcome),
    ensures
        *outcome is FastLoaded ==> r == BootStep::ConnectBackend,
        *outcome is ExternalSelected && profile.requires_loadable_tokenizer ==> r
            == BootStep::Abort(BootstrapError::ResourceResolution),
        *outcome is ExternalSelected && !profile.requires_loadable_tokenizer ==> r
            == BootStep::ConnectBackend,
        *outcome is Failed ==> r == BootStep::Abort(BootstrapError::ResourceResolution),
{
    match outcome {
        ResolverState::FastLoaded => BootStep::ConnectBackend,
        ResolverState::ExternalSelected { .. } => {
            if profile.requires_loadable_tokenizer {
                BootStep::Abort(BootstrapError::ResourceResolution)
            } else {
                BootStep::ConnectBackend
            }
        },
        _ => BootStep::Abort(BootstrapError::ResourceResolution),
    }
}

/// Decides the step after backend construction: a failed construction or
/// connection is fatal with the collaborator's message passed through; a
/// connected backend is handed to the server.
pub fn after_connect(outcome: Result<(), String>) -> (r: BootStep)
    ensures
        outcome matches Err(m) ==> r == BootStep::Abort(BootstrapError::BackendConnection(m)),
        outcome is Ok ==> r == BootStep::RunServer,
{
    match outcome {
        Err(m) => BootStep::Abort(BootstrapError::BackendConnection(m)),
        Ok(()) => BootStep::RunServer,
    }
}

/// Classifies what the server-run contract returned: a server failure is
/// propagated verbatim, and a clean shutdown ends bootstrap successfully.
pub fn after_server(outcome: Result<(), String>) -> (r: Result<(), BootstrapError>)
    ensures
        outcome matches Err(m) ==> r == Err::<(), BootstrapError>(BootstrapError::ServerFailure(m)),
        outcome is Ok ==> r is Ok,
{
    match outcome {
        Err(m) => Err(BootstrapError::ServerFailure(m)),
        Ok(()) => Ok(()),
    }
}

/// Law: the schema subcommand bypasses bootstrap entirely — the first
/// decision is the schema emission for every configuration and backend
/// profile alike, so no validation rule and no resolver is ever consulted
/// on that path.
pub proof fn lemma_schema_path_ignores_config(
    limits_a: LimitSet,
    limits_b: LimitSet,
    profile_a: BackendProfile,
    profile_b: BackendProfile,
    executor_a: Option<bool>,
    executor_b: Option<bool>,
)
    ensures
        spec_initial_step(true, limits_a, profile_a, executor_a) == spec_initial_step(
            true,
            limits_b,
            profile_b,
            executor_b,
        ),
        spec_initial_step(true, limits_a, profile_a, executor_a) == BootStep::EmitSchema,
{
}

} // verus!
