use hbbs_http::cache::{BackendCache, CacheEntry};
use hbbs_http::client::ClientSettings;
use hbbs_http::fallback::{FallbackState, ProbeOutcome};
use hbbs_http::tls::TlsType;

/// Runs one whole walk for `url`, probing each built client with `probe`.
/// Returns the state whose client is handed out and the configurations probed.
fn run_walk(
    cache: &mut BackendCache,
    url: &str,
    probe: &dyn Fn(TlsType, bool) -> ProbeOutcome,
) -> (FallbackState, Vec<(TlsType, bool)>) {
    let mut state = FallbackState::start(cache, url);
    let mut probed = Vec::new();
    if !state.needs_probe() {
        return (state, probed);
    }
    loop {
        let config = (state.tls_type, state.client_accepts_invalid_cert());
        probed.push(config);
        let outcome = probe(config.0, config.1);
        match state.record_outcome(outcome, cache, url) {
            Some(next) => state = next,
            None => return (state, probed),
        }
    }
}

fn only_rustls_relaxed(t: TlsType, accept: bool) -> ProbeOutcome {
    if t == TlsType::Rustls && accept {
        ProbeOutcome::Success
    } else {
        ProbeOutcome::ConnectFailure
    }
}

#[test]
fn fresh_cache_success_is_remembered_strict() {
    let mut cache = BackendCache::new();
    let url = "http://svc.local";
    let (state, probed) = run_walk(&mut cache, url, &|_, _| ProbeOutcome::Success);
    assert_eq!(probed, vec![(TlsType::NativeTls, false)]);
    assert_eq!(state.tls_type, TlsType::NativeTls);
    assert!(!state.client_accepts_invalid_cert());
    assert_eq!(cache.get_cached_tls_type(url), Some(TlsType::NativeTls));
    assert_eq!(cache.get_cached_tls_accept_invalid_cert(url), Some(false));
    let settings = ClientSettings::for_state(&state, None);
    assert!(!settings.accept_invalid_cert);
    assert!(settings.proxy.is_none());
}

#[test]
fn preloaded_cache_takes_fast_path() {
    let mut cache = BackendCache::new();
    let url = "https://rs.example.com";
    cache.upsert_tls_type(url, TlsType::Rustls);
    cache.upsert_tls_accept_invalid_cert(url, true);
    let (state, probed) = run_walk(&mut cache, url, &|_, _| panic!("no probe expected"));
    assert!(probed.is_empty());
    assert_eq!(state.tls_type, TlsType::Rustls);
    assert!(state.client_accepts_invalid_cert());
}

#[test]
fn connect_failure_then_rustls_relaxed_success() {
    let mut cache = BackendCache::new();
    let url = "https://api.example.com";
    let (state, probed) = run_walk(&mut cache, url, &only_rustls_relaxed);
    assert_eq!(probed, vec![(TlsType::NativeTls, false), (TlsType::Rustls, true)]);
    assert_eq!(state.tls_type, TlsType::Rustls);
    assert_eq!(
        cache.get_entry(url),
        Some(CacheEntry { tls_type: TlsType::Rustls, accept_invalid_cert: Some(true) })
    );
}

#[test]
fn other_failure_stops_without_caching() {
    let mut cache = BackendCache::new();
    let url = "not a url";
    let (state, probed) = run_walk(&mut cache, url, &|_, _| ProbeOutcome::OtherFailure);
    assert_eq!(probed, vec![(TlsType::NativeTls, false)]);
    assert_eq!(state.tls_type, TlsType::NativeTls);
    assert!(!state.client_accepts_invalid_cert());
    assert_eq!(cache.get_entry(url), None);
    assert_eq!(cache.get_cached_tls_accept_invalid_cert(url), None);
}

#[test]
fn repeated_calls_converge_then_skip_probing() {
    let mut cache = BackendCache::new();
    let url = "https://only-rustls.example";
    let (_, first) = run_walk(&mut cache, url, &only_rustls_relaxed);
    assert_eq!(first.len(), 2);
    let (state, second) = run_walk(&mut cache, url, &only_rustls_relaxed);
    assert!(second.is_empty());
    assert_eq!((state.tls_type, state.client_accepts_invalid_cert()), (TlsType::Rustls, true));
    let (_, third) = run_walk(&mut cache, url, &only_rustls_relaxed);
    assert!(third.is_empty());
}

#[test]
fn remembered_cert_mode_converges_through_backend_swap() {
    let mut cache = BackendCache::new();
    let url = "https://cert-only.example";
    cache.upsert_tls_accept_invalid_cert(url, true);
    let (_, probed) = run_walk(&mut cache, url, &only_rustls_relaxed);
    assert_eq!(probed, vec![(TlsType::NativeTls, true), (TlsType::Rustls, true)]);
    assert_eq!(cache.get_cached_tls_type(url), Some(TlsType::Rustls));
}

#[test]
fn connect_failures_never_exceed_two_retries() {
    let url = "https://down.example";
    let tls_options = [None, Some(TlsType::Plain), Some(TlsType::NativeTls), Some(TlsType::Rustls)];
    let cert_options = [None, Some(false), Some(true)];
    for t in tls_options {
        for c in cert_options {
            let mut cache = BackendCache::new();
            if let Some(t) = t {
                cache.upsert_tls_type(url, t);
            }
            if let Some(c) = c {
                cache.upsert_tls_accept_invalid_cert(url, c);
            }
            let (_, probed) = run_walk(&mut cache, url, &|_, _| ProbeOutcome::ConnectFailure);
            assert!(probed.len() <= 2, "{:?} {:?}: {:?}", t, c, probed);
            assert_eq!(cache.get_cached_tls_type(url), t);
            assert_eq!(cache.get_cached_tls_accept_invalid_cert(url), c);
        }
    }
}

#[test]
fn fresh_cache_all_failing_probes_twice() {
    let mut cache = BackendCache::new();
    let (state, probed) = run_walk(&mut cache, "https://x.example", &|_, _| ProbeOutcome::ConnectFailure);
    assert_eq!(probed, vec![(TlsType::NativeTls, false), (TlsType::Rustls, true)]);
    assert_eq!(state.tls_type, TlsType::Rustls);
}

#[test]
fn cached_rustls_without_cert_mode_tries_native_relaxed() {
    let mut cache = BackendCache::new();
    let url = "https://r.example";
    cache.upsert_tls_type(url, TlsType::Rustls);
    let (_, probed) = run_walk(&mut cache, url, &|_, _| ProbeOutcome::ConnectFailure);
    assert_eq!(probed, vec![(TlsType::Rustls, false), (TlsType::NativeTls, true)]);
}

#[test]
fn known_cert_mode_keeps_mode_and_swaps_backend() {
    let mut cache = BackendCache::new();
    let url = "https://strict.example";
    cache.upsert_tls_accept_invalid_cert(url, false);
    let (_, probed) = run_walk(&mut cache, url, &|_, _| ProbeOutcome::ConnectFailure);
    assert_eq!(probed, vec![(TlsType::NativeTls, false), (TlsType::Rustls, false)]);
}

#[test]
fn plain_backend_failure_is_terminal() {
    let state = FallbackState {
        tls_type: TlsType::Plain,
        tls_type_cached: true,
        accept_invalid_cert: None,
        remembered_accept_invalid_cert: None,
    };
    assert_eq!(state.next_on_connect_failure(), None);
}

#[test]
fn caching_one_url_leaves_another_alone() {
    let mut cache = BackendCache::new();
    cache.upsert_tls_type("https://b.example", TlsType::NativeTls);
    cache.upsert_tls_accept_invalid_cert("https://b.example", false);
    let before = FallbackState::start(&cache, "https://b.example");
    let (_, _) = run_walk(&mut cache, "https://a.example", &only_rustls_relaxed);
    assert_eq!(cache.get_cached_tls_type("https://a.example"), Some(TlsType::Rustls));
    assert_eq!(FallbackState::start(&cache, "https://b.example"), before);
    assert_eq!(
        cache.get_entry("https://b.example"),
        Some(CacheEntry { tls_type: TlsType::NativeTls, accept_invalid_cert: Some(false) })
    );
}

#[test]
fn cache_overwrites_last_write_wins() {
    let mut cache = BackendCache::new();
    let url = "https://w.example";
    cache.upsert_tls_type(url, TlsType::NativeTls);
    cache.upsert_tls_type(url, TlsType::Rustls);
    cache.upsert_tls_accept_invalid_cert(url, true);
    cache.upsert_tls_accept_invalid_cert(url, false);
    assert_eq!(
        cache.get_entry(url),
        Some(CacheEntry { tls_type: TlsType::Rustls, accept_invalid_cert: Some(false) })
    );
    assert_eq!(cache.get_cached_tls_type("https://w.example/"), None);
}

#[test]
fn entry_absent_until_backend_known() {
    let mut cache = BackendCache::new();
    let url = "https://c.example";
    cache.upsert_tls_accept_invalid_cert(url, true);
    assert_eq!(cache.get_entry(url), None);
    cache.upsert_tls_type(url, TlsType::Plain);
    assert_eq!(
        cache.get_entry(url),
        Some(CacheEntry { tls_type: TlsType::Plain, accept_invalid_cert: Some(true) })
    );
}
