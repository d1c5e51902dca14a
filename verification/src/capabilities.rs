//! The capability set: the host operation bundles baked into an engine.

use vstd::prelude::*;

verus! {

/// How the policy bundle answers permission checks.
#[derive(Clone, Copy, Debug, PartialEq, Eq, Structural)]
pub enum PolicyMode {
    /// Everything is allowed: the main worker.
    Permissive,
    /// Only what a user worker may do is allowed.
    Restrictive,
}

/// One bundle of host operations.
#[derive(Clone, Copy, Debug, PartialEq, Eq, Structural)]
pub enum Capability {
    /// The capability policy, with its enforcement mode.
    Permissions(PolicyMode),
    /// Web IDL conversions.
    WebIdl,
    /// The console.
    Console,
    /// URL parsing.
    Url,
    /// Web platform basics, with an empty blob store.
    Web,
    /// Fetch, with the user agent and the root certificates.
    Fetch,
    /// WebSocket, with the user agent and the root certificates.
    WebSocket,
    /// Crypto, without a seed.
    Crypto,
    /// Sockets, with the root certificates, stable operations only.
    Net,
    /// TLS.
    Tls,
    /// HTTP serving.
    Http,
    /// Access to the environment table.
    Env,
    /// Creation of user workers.
    UserWorkers,
    /// The runtime's own script.
    MainJs,
    /// The runtime's socket operations.
    CoreNet,
    /// The runtime's HTTP start operations.
    CoreHttp,
    /// The runtime's core operations, which know the entry module.
    Runtime,
}

/// The policy mode of a tier.
pub open spec fn policy_of(is_user: bool) -> PolicyMode {
    if is_user {
        PolicyMode::Restrictive
    } else {
        PolicyMode::Permissive
    }
}

/// The capability set under a policy mode: always the same bundles in the
/// same order, the policy bundle first.
pub open spec fn capability_set(mode: PolicyMode) -> Seq<Capability> {
    seq![
        Capability::Permissions(mode),
        Capability::WebIdl,
        Capability::Console,
        Capability::Url,
        Capability::Web,
        Capability::Fetch,
        Capability::WebSocket,
        Capability::Crypto,
        Capability::Net,
        Capability::Tls,
        Capability::Http,
        Capability::Env,
        Capability::UserWorkers,
        Capability::MainJs,
        Capability::CoreNet,
        Capability::CoreHttp,
        Capability::Runtime,
    ]
}

/// Picks the policy mode of a tier.
pub fn policy_mode(is_user: bool) -> (mode: PolicyMode)
    ensures
        mode == policy_of(is_user),
{
    if is_user {
        PolicyMode::Restrictive
    } else {
        PolicyMode::Permissive
    }
}

/// Assembles the capability set under a policy mode.
pub fn assemble_capabilities(mode: PolicyMode) -> (bundles: Vec<Capability>)
    ensures
        bundles@ == capability_set(mode),
        bundles@.len() == 17,
{
    let mut bundles: Vec<Capability> = Vec::new();
    bundles.push(Capability::Permissions(mode));
    bundles.push(Capability::WebIdl);
    bundles.push(Capability::Console);
    bundles.push(Capability::Url);
    bundles.push(Capability::Web);
    bundles.push(Capability::Fetch);
    bundles.push(Capability::WebSocket);
    bundles.push(Capability::Crypto);
    bundles.push(Capability::Net);
    bundles.push(Capability::Tls);
    bundles.push(Capability::Http);
    bundles.push(Capability::Env);
    bundles.push(Capability::UserWorkers);
    bundles.push(Capability::MainJs);
    bundles.push(Capability::CoreNet);
    bundles.push(Capability::CoreHttp);
    bundles.push(Capability::Runtime);
    assert(bundles@ =~= capability_set(mode));
    bundles
}

/// The two tiers get the same bundles: their capability sets differ in the
/// policy bundle's mode and in nothing else, and no bundle occurs twice.
pub proof fn lemma_capability_sets_differ_in_policy_only(first: PolicyMode, second: PolicyMode)
    ensures
        capability_set(first).len() == capability_set(second).len(),
        capability_set(first)[0] == Capability::Permissions(first),
        capability_set(second)[0] == Capability::Permissions(second),
        forall|i: int|
            1 <= i < capability_set(first).len() ==> capability_set(first)[i] == capability_set(
                second,
            )[i],
        forall|i: int, j: int|
            0 <= i < j < capability_set(first).len() ==> capability_set(first)[i]
                != capability_set(first)[j],
{
}

} // verus!
