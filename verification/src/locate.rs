use vstd::prelude::*;

verus! {

/// Process-environment state, read once at startup and threaded as an
/// explicit parameter into the resource locator and the hub client
/// configuration.
#[derive(Clone, Debug)]
pub struct EnvironmentContext {
    /// Offline-mode flag: when set, no network access may be attempted.
    pub offline: bool,
    /// A configured cache-directory override, when present.
    pub cache_dir: Option<String>,
    /// Credential from the highest-priority credential variable.
    pub primary_token: Option<String>,
    /// Credential from the lower-priority fallback variable.
    pub secondary_token: Option<String>,
    /// A user-agent origin tag for the hub client.
    pub user_agent_origin: Option<String>,
}

/// Where tokenizer artifacts will be fetched from: the identifier as a ready
/// local directory, the purely local hub cache, or the remote hub API.
#[derive(Clone, Debug, PartialEq, Eq)]
pub enum ResourceLocation {
    LocalPath,
    CachedRepo { revision: String, uses_default_cache: bool },
    RemoteRepo { revision: String },
}

/// The revision used for hub resolution: the explicit one when supplied,
/// otherwise the hub's default branch.
pub open spec fn spec_effective_revision(revision: Option<Seq<char>>) -> Seq<char> {
    match revision {
        Some(r) => r,
        None => "main"@,
    }
}

/// Exactly which location `locate` chooses, as a predicate over its inputs:
/// a missing revision together with a ready local directory means the local
/// path; otherwise hub resolution, restricted to the cache when offline.
pub open spec fn locate_post(
    r: ResourceLocation,
    revision: Option<Seq<char>>,
    identifier_is_local_dir: bool,
    offline: bool,
    cache_dir_configured: bool,
) -> bool {
    match r {
        ResourceLocation::LocalPath => revision is None && identifier_is_local_dir,
        ResourceLocation::CachedRepo { revision: rev, uses_default_cache } => {
            &&& !(revision is None && identifier_is_local_dir)
            &&& offline
            &&& rev@ == spec_effective_revision(revision)
            &&& uses_default_cache == !cache_dir_configured
        },
        ResourceLocation::RemoteRepo { revision: rev } => {
            &&& !(revision is None && identifier_is_local_dir)
            &&& !offline
            &&& rev@ == spec_effective_revision(revision)
        },
    }
}

/// Decides the resource location for one bootstrap. An explicit revision, or
/// an identifier that is not a ready local directory, forces hub resolution;
/// under the offline flag hub resolution never leaves the local cache, which
/// falls back to a well-known default root when none is configured.
pub fn locate(
    revision: Option<String>,
    identifier_is_local_dir: bool,
    env: &EnvironmentContext,
) -> (r: ResourceLocation)
    ensures
        locate_post(
            r,
            revision.deep_view(),
            identifier_is_local_dir,
            env.offline,
            env.cache_dir is Some,
        ),
{
    if revision.is_none() && identifier_is_local_dir {
        ResourceLocation::LocalPath
    } else {
        let rev: String = match revision {
            Some(r) => r,
            None => "main".to_owned(),
        };
        if env.offline {
            ResourceLocation::CachedRepo {
                revision: rev,
                uses_default_cache: env.cache_dir.is_none(),
            }
        } else {
            ResourceLocation::RemoteRepo { revision: rev }
        }
    }
}

/// Law: resource location is a function of its inputs alone — any two results
/// that meet the locator's contract for the same inputs are the same choice,
/// variant and fields alike.
pub proof fn lemma_locate_deterministic(
    r1: ResourceLocation,
    r2: ResourceLocation,
    revision: Option<Seq<char>>,
    identifier_is_local_dir: bool,
    offline: bool,
    cache_dir_configured: bool,
)
    requires
        locate_post(r1, revision, identifier_is_local_dir, offline, cache_dir_configured),
        locate_post(r2, revision, identifier_is_local_dir, offline, cache_dir_configured),
    ensures
        r1 is LocalPath <==> r2 is LocalPath,
        r1 is CachedRepo <==> r2 is CachedRepo,
        r1 is RemoteRepo <==> r2 is RemoteRepo,
        r1 matches ResourceLocation::CachedRepo { revision: rev1, uses_default_cache: d1 } ==> (
        r2 matches ResourceLocation::CachedRepo { revision: rev2, uses_default_cache: d2 }
            && rev1@ == rev2@ && d1 == d2),
        r1 matches ResourceLocation::RemoteRepo { revision: rev1 } ==> (
        r2 matches ResourceLocation::RemoteRepo { revision: rev2 } && rev1@ == rev2@),
{
}

/// Law: when the offline flag is set, the locator never chooses the remote
/// hub, whatever the revision or the local-path state.
pub proof fn lemma_offline_never_remote(
    r: ResourceLocation,
    revision: Option<Seq<char>>,
    identifier_is_local_dir: bool,
    cache_dir_configured: bool,
)
    requires
        locate_post(r, revision, identifier_is_local_dir, true, cache_dir_configured),
    ensures
        r !is RemoteRepo,
{
}

/// Configuration for the online hub API client.
#[derive(Clone, Debug)]
pub struct HubClientConfig {
    pub token: Option<String>,
    pub cache_dir: Option<String>,
    pub user_agent_origin: Option<String>,
    pub progress_enabled: bool,
}

/// Builds the hub client configuration from the environment: the bearer
/// token comes from the highest-priority credential variable that is set,
/// the cache-directory override and origin tag are passed through, and
/// progress reporting is disabled by design (bootstrap is scriptable and
/// log-friendly, not interactive).
pub fn build_client_config(env: EnvironmentContext) -> (r: HubClientConfig)
    ensures
        r.progress_enabled == false,
        env.primary_token is Some ==> r.token == env.primary_token,
        env.primary_token is None ==> r.token == env.secondary_token,
        r.cache_dir == env.cache_dir,
        r.user_agent_origin == env.user_agent_origin,
{
    let token: Option<String> = match env.primary_token {
        Some(t) => Some(t),
        None => env.secondary_token,
    };
    HubClientConfig {
        token,
        cache_dir: env.cache_dir,
        user_agent_origin: env.user_agent_origin,
        progress_enabled: false,
    }
}

} // verus!
