use vstd::prelude::*;

use crate::validate::LimitSet;

verus! {

/// The full set of operator-supplied serving limits, immutable once parsed.
/// The numeric ceilings in `limits` feed the argument validator; the rest
/// is carried through bootstrap and handed to the server contract.
#[derive(Clone, Debug)]
pub struct ServingConfig {
    pub limits: LimitSet,
    pub max_concurrent_requests: usize,
    pub max_best_of: usize,
    pub max_stop_sequences: usize,
    pub max_top_n_tokens: u32,
    pub max_waiting_tokens: usize,
    pub max_client_batch_size: usize,
    pub hostname: String,
    pub port: u16,
    pub prometheus_port: u16,
    pub tokenizer_name: String,
    pub tokenizer_config_path: Option<String>,
    pub revision: Option<String>,
    pub auth_token: Option<String>,
    pub payload_limit: usize,
}

} // verus!
