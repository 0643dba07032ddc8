use vstd::prelude::*;

use crate::fallback::{spec_client_accepts_invalid_cert, FallbackState};
use crate::proxy::{is_header_text, resolve_proxy, resolves_to, ProxyConfig, ProxyTarget};
use crate::tls::TlsType;

verus! {

/// Everything a client is built from. A client built from these settings
/// ignores proxies named by the environment: `proxy` alone decides.
pub struct ClientSettings {
    pub tls_type: TlsType,
    /// Whether certificate validation is switched off for this client.
    pub accept_invalid_cert: bool,
    pub proxy: Option<ProxyTarget>,
}

impl ClientSettings {
    /// Settings for a client with the given TLS implementation and
    /// certificate policy, sent through the configured proxy, if any.
    pub fn new(tls_type: TlsType, accept_invalid_cert: bool, proxy_conf: Option<&ProxyConfig>) -> (r: Self)
        ensures
            r.tls_type == tls_type,
            r.accept_invalid_cert == accept_invalid_cert,
            match proxy_conf {
                Some(c) => r.proxy matches Some(t) && resolves_to(t, *c),
                None => r.proxy is None,
            },
            r.proxy matches Some(t) ==> (t.auth_header matches Some(h) ==> is_header_text(h@)),
    {
        let proxy = match proxy_conf {
            Some(c) => Some(resolve_proxy(c)),
            None => None,
        };
        ClientSettings { tls_type, accept_invalid_cert, proxy }
    }

    /// Settings for the client that the fallback walk builds in `state`.
    pub fn for_state(state: &FallbackState, proxy_conf: Option<&ProxyConfig>) -> (r: Self)
        ensures
            r.tls_type == state.tls_type,
            r.accept_invalid_cert == spec_client_accepts_invalid_cert(*state),
            match proxy_conf {
                Some(c) => r.proxy matches Some(t) && resolves_to(t, *c),
                None => r.proxy is None,
            },
            r.proxy matches Some(t) ==> (t.auth_header matches Some(h) ==> is_header_text(h@)),
    {
        ClientSettings::new(state.tls_type, state.client_accepts_invalid_cert(), proxy_conf)
    }
}

#[verifier::external_type_specification]
#[verifier::external_body]
pub struct ExProxy(reqwest::Proxy);

#[verifier::external_type_specification]
#[verifier::external_body]
pub struct ExReqwestError(reqwest::Error);

#[verifier::external_type_specification]
#[verifier::external_body]
pub struct ExHeaderValue(reqwest::header::HeaderValue);

#[verifier::external_type_specification]
#[verifier::external_body]
pub struct ExInvalidHeaderValue(reqwest::header::InvalidHeaderValue);

/// Whether reqwest takes `url` as a proxy address.
pub uninterp spec fn proxy_url_accepted(url: Seq<char>) -> bool;

/// Relies on reqwest::Proxy::all: it parses `url` (adding `http://` where a
/// scheme seems missing) and succeeds or fails on the text alone.
#[verifier::external_body]
fn proxy_for_all_schemes(url: &str) -> (r: Result<reqwest::Proxy, reqwest::Error>)
    ensures
        r is Ok <==> proxy_url_accepted(url@),
{
    reqwest::Proxy::all(url)
}

/// Relies on reqwest::header::HeaderValue::from_str: it fails exactly when
/// a byte of `s` is below 32 and not a tab, or is 127.
#[verifier::external_body]
fn header_value(s: &str) -> (r: Result<reqwest::header::HeaderValue, reqwest::header::InvalidHeaderValue>)
    ensures
        r is Ok <==> is_header_text(s@),
{
    reqwest::header::HeaderValue::from_str(s)
}

/// What becomes of a proxy target when a client is built.
pub enum ProxySetup {
    /// The proxy is used, with its `Proxy-Authorization` value where one was
    /// given and is a valid header value.
    Applied { proxy: reqwest::Proxy, authorization: Option<reqwest::header::HeaderValue> },
    /// The proxy address was refused: the caller builds a default client.
    Refused,
}

/// Turns a proxy target into what the client builder takes.
pub fn proxy_setup(target: &ProxyTarget) -> (r: ProxySetup)
    ensures
        r is Applied <==> proxy_url_accepted(target.url@),
        r matches ProxySetup::Applied { authorization, .. } ==> (authorization is Some <==> (
        target.auth_header matches Some(h) && is_header_text(h@))),
{
    match proxy_for_all_schemes(target.url.as_str()) {
        Ok(proxy) => {
            let authorization = match &target.auth_header {
                Some(h) => match header_value(h.as_str()) {
                    Ok(v) => Some(v),
                    Err(_) => None,
                },
                None => None,
            };
            ProxySetup::Applied { proxy, authorization }
        },
        Err(_) => ProxySetup::Refused,
    }
}

} // verus!
