use vstd::pervasive::unreached;
use vstd::prelude::*;

use crate::locate::ResourceLocation;

verus! {

/// Presence of each best-effort auxiliary descriptor file fetched for the
/// located resource. A missing file is recorded as absent, never fatal at
/// this stage.
#[derive(Clone, Copy, Debug, PartialEq, Eq)]
pub struct MetadataReport {
    pub config_present: bool,
    pub tokenizer_config_present: bool,
    pub preprocessor_config_present: bool,
    pub processor_config_present: bool,
}

/// A tokenizer resolved only by deferring to a richer, out-of-process
/// component at serving time.
#[derive(Clone, Debug, PartialEq, Eq)]
pub struct ExternalTokenizerRef {
    pub identifier: String,
    pub revision: Option<String>,
    pub trust_remote_code: bool,
}

/// What the driver observed while running the ordered resolution attempts:
/// whether the richer environment-integrated attempt produced a serialized
/// fast-tokenizer artifact, whether the narrower legacy attempt (run only
/// after the richer one has failed) produced one, whether a loadable
/// artifact now sits at the known output location, and whether the
/// external-selection fallback could be constructed at all.
#[derive(Clone, Copy, Debug, PartialEq, Eq)]
pub struct AttemptOutcomes {
    pub rich_produced: bool,
    pub legacy_produced: bool,
    pub artifact_loadable: bool,
    pub external_constructible: bool,
}

/// The tokenizer resolver's states. `FastLoaded`, `ExternalSelected` and
/// `Failed` are terminal; `Failed` is fatal for the whole process.
#[derive(Clone, Debug, PartialEq, Eq)]
pub enum ResolverState {
    Init,
    Located { location: ResourceLocation },
    MetadataFetched { location: ResourceLocation, metadata: MetadataReport },
    FastLoaded,
    ExternalSelected { external: ExternalTokenizerRef },
    Failed,
}

/// One observation handed to the resolver by the driver that performs the
/// actual fetches and attempts.
#[derive(Clone, Debug)]
pub enum ResolverEvent {
    Located { location: ResourceLocation },
    MetadataReady { metadata: MetadataReport },
    AttemptsDone { outcomes: AttemptOutcomes, identifier: String, revision: Option<String> },
}

/// A state from which no further event is accepted.
pub open spec fn is_terminal(state: ResolverState) -> bool {
    state is FastLoaded || state is ExternalSelected || state is Failed
}

/// Protocol order: locate first, then the metadata fetch, then the ordered
/// resolution attempts.
pub open spec fn event_fits(state: ResolverState, event: ResolverEvent) -> bool {
    match event {
        ResolverEvent::Located { .. } => state is Init,
        ResolverEvent::MetadataReady { .. } => state is Located,
        ResolverEvent::AttemptsDone { .. } => state is MetadataFetched,
    }
}

/// The terminal state reached from the attempt outcomes: a loadable artifact
/// wins, otherwise the external fallback carrying the original identifier
/// and revision with the remote-code trust flag fixed to false, otherwise
/// failure.
pub open spec fn decision_post(
    r: ResolverState,
    outcomes: AttemptOutcomes,
    identifier: Seq<char>,
    revision: Option<Seq<char>>,
) -> bool {
    match r {
        ResolverState::FastLoaded => outcomes.artifact_loadable,
        ResolverState::ExternalSelected { external } => {
            &&& !outcomes.artifact_loadable
            &&& outcomes.external_constructible
            &&& external.identifier@ == identifier
            &&& external.revision.deep_view() == revision
            &&& external.trust_remote_code == false
        },
        ResolverState::Failed => !outcomes.artifact_loadable
            && !outcomes.external_constructible,
        _ => false,
    }
}

/// Exactly how one event advances the machine.
pub open spec fn step_post(pre: ResolverState, event: ResolverEvent, post: ResolverState) -> bool {
    match event {
        ResolverEvent::Located { location } => post == (ResolverState::Located { location }),
        ResolverEvent::MetadataReady { metadata } => pre matches ResolverState::Located { location }
            && post == (ResolverState::MetadataFetched { location, metadata }),
        ResolverEvent::AttemptsDone { outcomes, identifier, revision } => decision_post(
            post,
            outcomes,
            identifier@,
            revision.deep_view(),
        ),
    }
}

/// Constructs the external-selection fallback: the original identifier and
/// revision, with the untrusted-remote-code flag fixed to false for safety.
pub fn external_fallback(identifier: String, revision: Option<String>) -> (r: ExternalTokenizerRef)
    ensures
        r.identifier == identifier,
        r.revision == revision,
        r.trust_remote_code == false,
{
    ExternalTokenizerRef { identifier, revision, trust_remote_code: false }
}

/// Advances the resolver by one event. The driver performs the fetches and
/// resolution attempts strictly in order — the attempts are never run in
/// parallel — and reports what it observed; this function alone decides the
/// next state.
pub fn step(state: ResolverState, event: ResolverEvent) -> (post: ResolverState)
    requires
        event_fits(state, event),
    ensures
        step_post(state, event, post),
{
    match event {
        ResolverEvent::Located { location } => ResolverState::Located { location },
        ResolverEvent::MetadataReady { metadata } => match state {
            ResolverState::Located { location } => ResolverState::MetadataFetched {
                location,
                metadata,
            },
            _ => unreached(),
        },
        ResolverEvent::AttemptsDone { outcomes, identifier, revision } => {
            if outcomes.artifact_loadable {
                ResolverState::FastLoaded
            } else if outcomes.external_constructible {
                ResolverState::ExternalSelected {
                    external: external_fallback(identifier, revision),
                }
            } else {
                ResolverState::Failed
            }
        },
    }
}

/// The auxiliary descriptor files fetched best-effort for any located
/// resource, in fetch order: model config, tokenizer config, preprocessor
/// config, processor config.
pub fn metadata_file_names() -> (r: Vec<String>)
    ensures
        r@.len() == 4,
        r@[0]@ == "config.json"@,
        r@[1]@ == "tokenizer_config.json"@,
        r@[2]@ == "preprocessor_config.json"@,
        r@[3]@ == "processor_config.json"@,
{
    let mut names: Vec<String> = Vec::new();
    names.push("config.json".to_owned());
    names.push("tokenizer_config.json".to_owned());
    names.push("preprocessor_config.json".to_owned());
    names.push("processor_config.json".to_owned());
    names
}

/// Law: the resolver never selects the external fallback when either
/// resolution attempt produced a fast-tokenizer artifact (a produced
/// artifact is loadable at the known output location), and it fails only
/// when both attempts and the external fallback construction all failed.
pub proof fn lemma_resolution_prefers_fast(
    r: ResolverState,
    outcomes: AttemptOutcomes,
    identifier: Seq<char>,
    revision: Option<Seq<char>>,
)
    requires
        decision_post(r, outcomes, identifier, revision),
        outcomes.rich_produced || outcomes.legacy_produced ==> outcomes.artifact_loadable,
    ensures
        outcomes.rich_produced || outcomes.legacy_produced ==> r !is ExternalSelected,
        r is Failed <==> (!outcomes.rich_produced && !outcomes.legacy_produced
            && !outcomes.artifact_loadable && !outcomes.external_constructible),
{
}

} // verus!
