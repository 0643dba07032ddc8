use vstd::prelude::*;

use crate::cache::{lookup, BackendCache};
use crate::tls::TlsType;

verus! {

/// How a reachability probe ended.
#[derive(Clone, Copy, Debug, PartialEq, Eq, Structural)]
pub enum ProbeOutcome {
    /// Any response came back, whatever its status.
    Success,
    /// The request failed at the connection or TLS layer.
    ConnectFailure,
    /// Any other failure (a malformed URL, a timeout outside the transport).
    OtherFailure,
}

/// Where the fallback walk for one URL stands.
#[derive(Clone, Copy, Debug, PartialEq, Eq)]
pub struct FallbackState {
    /// The TLS implementation of the client to build next.
    pub tls_type: TlsType,
    /// Whether a TLS implementation was remembered for the URL when the walk
    /// began.
    pub tls_type_cached: bool,
    /// The certificate policy of the client to build next; `None` builds a
    /// strict client.
    pub accept_invalid_cert: Option<bool>,
    /// The certificate policy remembered for the URL when the walk began.
    pub remembered_accept_invalid_cert: Option<bool>,
}

/// The state a walk begins in, given what the cache remembers for the URL.
pub open spec fn initial_state(cached_tls: Option<TlsType>, cached_cert: Option<bool>) -> FallbackState {
    FallbackState {
        tls_type: match cached_tls {
            Some(t) => t,
            None => TlsType::NativeTls,
        },
        tls_type_cached: cached_tls is Some,
        accept_invalid_cert: cached_cert,
        remembered_accept_invalid_cert: cached_cert,
    }
}

/// A walk probes unless both settings were remembered for the URL.
pub open spec fn spec_needs_probe(s: FallbackState) -> bool {
    !(s.tls_type_cached && s.remembered_accept_invalid_cert is Some)
}

/// The certificate policy a client built in state `s` has: invalid
/// certificates are accepted only where the state says so.
pub open spec fn spec_client_accepts_invalid_cert(s: FallbackState) -> bool {
    s.accept_invalid_cert == Some(true)
}

/// The transition taken when the probe in state `s` fails to connect, or
/// `None` where the walk ends.
pub open spec fn spec_next_on_connect_failure(s: FallbackState) -> Option<FallbackState> {
    match (s.tls_type, s.tls_type_cached, s.accept_invalid_cert) {
        (TlsType::NativeTls, _, None) => Some(
            FallbackState { tls_type: TlsType::Rustls, accept_invalid_cert: Some(true), ..s },
        ),
        (TlsType::NativeTls, false, Some(_)) => Some(
            FallbackState {
                tls_type: TlsType::Rustls,
                accept_invalid_cert: s.remembered_accept_invalid_cert,
                ..s
            },
        ),
        (TlsType::Rustls, _, None) => Some(
            FallbackState { tls_type: TlsType::NativeTls, accept_invalid_cert: Some(true), ..s },
        ),
        _ => None,
    }
}

/// The configuration of the client built in state `s`: its TLS implementation
/// and whether it accepts invalid certificates.
pub open spec fn client_config(s: FallbackState) -> (TlsType, bool) {
    (s.tls_type, spec_client_accepts_invalid_cert(s))
}

/// What a walk from `s` writes to the cache, with at most `fuel` probes, when
/// a probe of configuration `c` succeeds exactly where `works(c)` holds and
/// fails to connect everywhere else; `None` where nothing is written.
pub open spec fn walk_result(s: FallbackState, works: spec_fn((TlsType, bool)) -> bool, fuel: nat) -> Option<(TlsType, bool)>
    decreases fuel,
{
    if fuel == 0 || !spec_needs_probe(s) {
        None
    } else if works(client_config(s)) {
        Some(client_config(s))
    } else {
        match spec_next_on_connect_failure(s) {
            Some(t) => walk_result(t, works, (fuel - 1) as nat),
            None => None,
        }
    }
}

/// A URL whose settings are both remembered is never probed: the walk for
/// it trusts the cache and builds its client from the remembered pair.
pub proof fn lemma_remembered_url_is_not_probed(cache: BackendCache, url: Seq<char>)
    requires
        cache.tls_types().contains_key(url),
        cache.cert_modes().contains_key(url),
    ensures
        !spec_needs_probe(initial_state(lookup(cache.tls_types(), url), lookup(cache.cert_modes(), url))),
        client_config(initial_state(lookup(cache.tls_types(), url), lookup(cache.cert_modes(), url)))
            == (cache.tls_types()[url], cache.cert_modes()[url]),
{
}

/// Whatever the cache remembers, a walk moves to another candidate at most
/// once, so it probes at most twice: from its initial state, the second
/// failure to connect ends it.
pub proof fn lemma_fallback_is_bounded(cached_tls: Option<TlsType>, cached_cert: Option<bool>)
    ensures
        match spec_next_on_connect_failure(initial_state(cached_tls, cached_cert)) {
            None => true,
            Some(s1) => spec_next_on_connect_failure(s1) is None,
        },
{
}

/// For a URL that only the bundled TLS implementation with relaxed
/// certificate checks reaches, one call from a fresh cache, or from a cache
/// that remembers nothing that steers the walk elsewhere, remembers exactly
/// that pair; every later call then takes the cached path with it.
pub proof fn lemma_walk_converges(cached_tls: Option<TlsType>, cached_cert: Option<bool>)
    requires
        (cached_tls, cached_cert) == (None::<TlsType>, None::<bool>)
            || (cached_tls, cached_cert) == (None::<TlsType>, Some(true))
            || (cached_tls, cached_cert) == (Some(TlsType::NativeTls), None::<bool>)
            || (cached_tls, cached_cert) == (Some(TlsType::Rustls), Some(true)),
    ensures
        ({
            let s0 = initial_state(cached_tls, cached_cert);
            let only = |c: (TlsType, bool)| c == (TlsType::Rustls, true);
            spec_needs_probe(s0) ==> walk_result(s0, only, 3) == Some((TlsType::Rustls, true))
        }),
        !spec_needs_probe(initial_state(cached_tls, cached_cert)) ==> client_config(
            initial_state(cached_tls, cached_cert),
        ) == (TlsType::Rustls, true),
        !spec_needs_probe(initial_state(Some(TlsType::Rustls), Some(true))),
        client_config(initial_state(Some(TlsType::Rustls), Some(true))) == (TlsType::Rustls, true),
{
    reveal_with_fuel(walk_result, 3);
}

/// Remembering an outcome for URL `a` changes nothing of the walk for any
/// other URL `b`: it begins in the same state, so it builds and probes the
/// same clients.
pub proof fn lemma_per_url_isolation(
    cache: BackendCache,
    a: Seq<char>,
    b: Seq<char>,
    tls_type: TlsType,
    accept_invalid_cert: bool,
)
    requires
        a != b,
    ensures
        initial_state(
            lookup(cache.tls_types().insert(a, tls_type), b),
            lookup(cache.cert_modes().insert(a, accept_invalid_cert), b),
        ) == initial_state(lookup(cache.tls_types(), b), lookup(cache.cert_modes(), b)),
{
}

impl FallbackState {
    /// Begins the walk for `tls_url` from what `cache` remembers for it.
    pub fn start(cache: &BackendCache, tls_url: &str) -> (r: Self)
        requires
            cache.wf(),
        ensures
            r == initial_state(
                lookup(cache.tls_types(), tls_url@),
                lookup(cache.cert_modes(), tls_url@),
            ),
    {
        let cached_tls = cache.get_cached_tls_type(tls_url);
        let cached_cert = cache.get_cached_tls_accept_invalid_cert(tls_url);
        FallbackState {
            tls_type: match cached_tls {
                Some(t) => t,
                None => TlsType::NativeTls,
            },
            tls_type_cached: cached_tls.is_some(),
            accept_invalid_cert: cached_cert,
            remembered_accept_invalid_cert: cached_cert,
        }
    }

    /// Whether the client built in this state must be probed; where it need
    /// not, the remembered configuration is trusted as it is.
    pub fn needs_probe(&self) -> (r: bool)
        ensures
            r == spec_needs_probe(*self),
    {
        !(self.tls_type_cached && self.remembered_accept_invalid_cert.is_some())
    }

    /// Whether the client built in this state accepts invalid certificates.
    pub fn client_accepts_invalid_cert(&self) -> (r: bool)
        ensures
            r == spec_client_accepts_invalid_cert(*self),
    {
        match self.accept_invalid_cert {
            Some(b) => b,
            None => false,
        }
    }

    /// The next configuration to try after a failure to connect, or `None`
    /// where no candidate is left.
    pub fn next_on_connect_failure(&self) -> (r: Option<Self>)
        ensures
            r == spec_next_on_connect_failure(*self),
    {
        match (self.tls_type, self.tls_type_cached, self.accept_invalid_cert) {
            (TlsType::NativeTls, _, None) => Some(
                FallbackState { tls_type: TlsType::Rustls, accept_invalid_cert: Some(true), ..*self },
            ),
            (TlsType::NativeTls, false, Some(_)) => Some(
                FallbackState {
                    tls_type: TlsType::Rustls,
                    accept_invalid_cert: self.remembered_accept_invalid_cert,
                    ..*self
                },
            ),
            (TlsType::Rustls, _, None) => Some(
                FallbackState { tls_type: TlsType::NativeTls, accept_invalid_cert: Some(true), ..*self },
            ),
            _ => None,
        }
    }

    /// Takes in the outcome of the probe made in this state. A success is
    /// remembered for `tls_url` and ends the walk; a failure to connect moves
    /// to the next candidate, if any; any other failure ends the walk. Only a
    /// success touches the cache. `None` means: hand the client built in this
    /// state to the caller.
    pub fn record_outcome(&self, outcome: ProbeOutcome, cache: &mut BackendCache, tls_url: &str) -> (r: Option<Self>)
        requires
            old(cache).wf(),
        ensures
            final(cache).wf(),
            outcome == ProbeOutcome::Success ==> {
                &&& r is None
                &&& final(cache).tls_types() == old(cache).tls_types().insert(tls_url@, self.tls_type)
                &&& final(cache).cert_modes() == old(cache).cert_modes().insert(
                    tls_url@,
                    spec_client_accepts_invalid_cert(*self),
                )
            },
            outcome == ProbeOutcome::ConnectFailure ==> r == spec_next_on_connect_failure(*self),
            outcome == ProbeOutcome::OtherFailure ==> r is None,
            outcome != ProbeOutcome::Success ==> *final(cache) == *old(cache),
    {
        match outcome {
            ProbeOutcome::Success => {
                cache.upsert_tls_type(tls_url, self.tls_type);
                let accept = self.client_accepts_invalid_cert();
                cache.upsert_tls_accept_invalid_cert(tls_url, accept);
                None
            },
            ProbeOutcome::ConnectFailure => self.next_on_connect_failure(),
            ProbeOutcome::OtherFailure => None,
        }
    }
}

} // verus!
