use serving_bootstrap::config::ServingConfig;
use serving_bootstrap::negotiate::{
    apply_capacity, merge_limits, revalidate, CapacityDescriptor,
};
use serving_bootstrap::orchestrate::{
    after_capacity, after_connect, after_resolution, after_server, initial_step, BackendProfile,
    BootStep, BootstrapError,
};
use serving_bootstrap::resolver::{ExternalTokenizerRef, ResolverState};
use serving_bootstrap::validate::{LimitSet, ValidationFailure};

fn base_limits() -> LimitSet {
    LimitSet {
        max_input_tokens: Some(1024),
        max_total_tokens: Some(2048),
        max_batch_prefill_tokens: 4096,
        max_batch_total_tokens: Some(4096),
        max_batch_size: Some(4),
        validation_workers: 2,
    }
}

fn config_with(limits: LimitSet) -> ServingConfig {
    ServingConfig {
        limits,
        max_concurrent_requests: 128,
        max_best_of: 2,
        max_stop_sequences: 4,
        max_top_n_tokens: 5,
        max_waiting_tokens: 20,
        max_client_batch_size: 4,
        hostname: "0.0.0.0".to_owned(),
        port: 3000,
        prometheus_port: 9000,
        tokenizer_name: "org/model".to_owned(),
        tokenizer_config_path: None,
        revision: None,
        auth_token: None,
        payload_limit: 2_000_000,
    }
}

fn negotiating_profile() -> BackendProfile {
    BackendProfile {
        reports_capacity: true,
        requires_loadable_tokenizer: false,
        requires_executor_worker: false,
    }
}

fn tokenizer_profile() -> BackendProfile {
    BackendProfile {
        reports_capacity: false,
        requires_loadable_tokenizer: true,
        requires_executor_worker: true,
    }
}

fn example_descriptor() -> CapacityDescriptor {
    CapacityDescriptor {
        max_input_tokens: 1024,
        max_total_tokens: 2048,
        max_batch_total_tokens: 4096,
        support_chunking: false,
    }
}

#[test]
fn schema_subcommand_short_circuits_everything() {
    let broken = LimitSet { validation_workers: 0, ..base_limits() };
    let step = initial_step(true, &config_with(broken), &negotiating_profile(), None);
    assert_eq!(step, BootStep::EmitSchema);
}

#[test]
fn first_pass_failure_aborts() {
    let broken = LimitSet { validation_workers: 0, ..base_limits() };
    let step = initial_step(false, &config_with(broken), &negotiating_profile(), None);
    assert_eq!(
        step,
        BootStep::Abort(BootstrapError::ArgumentValidation(ValidationFailure::NoValidationWorkers))
    );
}

#[test]
fn capacity_reporting_backend_negotiates_first() {
    let step = initial_step(false, &config_with(base_limits()), &negotiating_profile(), None);
    assert_eq!(step, BootStep::Negotiate);
}

#[test]
fn tokenizer_backend_resolves_after_validation() {
    let step = initial_step(false, &config_with(base_limits()), &tokenizer_profile(), Some(true));
    assert_eq!(step, BootStep::ResolveTokenizer);
}

#[test]
fn missing_executor_worker_aborts_before_any_io() {
    let step = initial_step(false, &config_with(base_limits()), &tokenizer_profile(), Some(false));
    assert_eq!(
        step,
        BootStep::Abort(BootstrapError::ArgumentValidation(
            ValidationFailure::ExecutorWorkerMissing
        ))
    );
}

#[test]
fn prefill_coverage_waits_for_negotiation() {
    let wide_input = LimitSet {
        max_input_tokens: Some(8000),
        max_total_tokens: Some(9000),
        max_batch_total_tokens: None,
        ..base_limits()
    };
    let step = initial_step(false, &config_with(wide_input), &negotiating_profile(), None);
    assert_eq!(step, BootStep::Negotiate);
}

#[test]
fn failed_handshake_aborts_with_backend_error() {
    let step = after_capacity(
        &base_limits(),
        &negotiating_profile(),
        Err("shard handshake refused".to_owned()),
    );
    assert_eq!(
        step,
        BootStep::Abort(BootstrapError::BackendConnection("shard handshake refused".to_owned()))
    );
}

#[test]
fn negotiation_with_consistent_capacity_proceeds() {
    let requested = LimitSet {
        max_input_tokens: None,
        max_total_tokens: None,
        max_batch_prefill_tokens: 2048,
        ..base_limits()
    };
    let step = after_capacity(&requested, &negotiating_profile(), Ok(example_descriptor()));
    assert_eq!(step, BootStep::ConnectBackend);
}

#[test]
fn negotiation_with_low_prefill_aborts() {
    let requested = LimitSet {
        max_input_tokens: None,
        max_total_tokens: None,
        max_batch_prefill_tokens: 512,
        ..base_limits()
    };
    let step = after_capacity(&requested, &negotiating_profile(), Ok(example_descriptor()));
    assert_eq!(
        step,
        BootStep::Abort(BootstrapError::ArgumentValidation(ValidationFailure::PrefillBelowInput {
            max_batch_prefill_tokens: 512,
            max_input_tokens: 1024,
        }))
    );
}

#[test]
fn negotiation_with_excessive_prefill_aborts() {
    let requested = LimitSet {
        max_input_tokens: None,
        max_total_tokens: None,
        max_batch_prefill_tokens: 8192,
        ..base_limits()
    };
    let step = after_capacity(&requested, &negotiating_profile(), Ok(example_descriptor()));
    assert_eq!(
        step,
        BootStep::Abort(BootstrapError::ArgumentValidation(
            ValidationFailure::PrefillAboveBatchTotal {
                max_batch_prefill_tokens: 8192,
                max_batch_total_tokens: 4096,
            }
        ))
    );
}

#[test]
fn merge_notes_which_ceilings_were_defaulted() {
    let merged = merge_limits(None, Some(4096), &example_descriptor());
    assert_eq!(merged.max_input_tokens, 1024);
    assert_eq!(merged.max_total_tokens, 2048);
    assert!(merged.input_defaulted);
    assert!(!merged.total_defaulted);
}

#[test]
fn capacity_descriptor_supersedes_requested_ceilings() {
    let requested = LimitSet {
        max_input_tokens: Some(9999),
        max_total_tokens: Some(9999),
        max_batch_total_tokens: None,
        ..base_limits()
    };
    let applied = apply_capacity(&requested, &example_descriptor());
    assert_eq!(applied.max_input_tokens, Some(1024));
    assert_eq!(applied.max_total_tokens, Some(2048));
    assert_eq!(applied.max_batch_total_tokens, Some(4096));
    assert_eq!(applied.max_batch_prefill_tokens, requested.max_batch_prefill_tokens);
}

#[test]
fn revalidation_passes_for_consistent_descriptor() {
    let requested = LimitSet {
        max_input_tokens: None,
        max_total_tokens: None,
        max_batch_prefill_tokens: 2048,
        ..base_limits()
    };
    assert_eq!(revalidate(&requested, &example_descriptor()), Ok(()));
}

#[test]
fn fast_tokenizer_leads_to_backend_construction() {
    let step = after_resolution(&ResolverState::FastLoaded, &tokenizer_profile());
    assert_eq!(step, BootStep::ConnectBackend);
}

#[test]
fn external_selection_is_fatal_when_fast_tokenizer_required() {
    let outcome = ResolverState::ExternalSelected {
        external: ExternalTokenizerRef {
            identifier: "org/model".to_owned(),
            revision: None,
            trust_remote_code: false,
        },
    };
    let step = after_resolution(&outcome, &tokenizer_profile());
    assert_eq!(step, BootStep::Abort(BootstrapError::ResourceResolution));
}

#[test]
fn external_selection_is_tolerated_otherwise() {
    let outcome = ResolverState::ExternalSelected {
        external: ExternalTokenizerRef {
            identifier: "org/model".to_owned(),
            revision: None,
            trust_remote_code: false,
        },
    };
    let step = after_resolution(&outcome, &negotiating_profile());
    assert_eq!(step, BootStep::ConnectBackend);
}

#[test]
fn failed_resolution_is_fatal() {
    let step = after_resolution(&ResolverState::Failed, &negotiating_profile());
    assert_eq!(step, BootStep::Abort(BootstrapError::ResourceResolution));
}

#[test]
fn connected_backend_runs_the_server() {
    assert_eq!(after_connect(Ok(())), BootStep::RunServer);
}

#[test]
fn failed_backend_construction_aborts() {
    assert_eq!(
        after_connect(Err("executor exited".to_owned())),
        BootStep::Abort(BootstrapError::BackendConnection("executor exited".to_owned()))
    );
}

#[test]
fn server_failure_is_propagated_verbatim() {
    assert_eq!(
        after_server(Err("socket closed".to_owned())),
        Err(BootstrapError::ServerFailure("socket closed".to_owned()))
    );
    assert_eq!(after_server(Ok(())), Ok(()));
}
