use vstd::prelude::*;

use base64::Engine;

verus! {

/// The upstream proxy setting as the configuration stores it.
pub struct Socks5Server {
    /// The proxy address, with or without a scheme (`https://host:443`,
    /// `127.0.0.1:1080`).
    pub proxy: String,
    pub username: String,
    pub password: String,
}

/// The kind of upstream proxy.
#[derive(Clone, Copy, Debug, PartialEq, Eq, Structural)]
pub enum ProxyScheme {
    Http,
    Https,
    Socks5,
}

/// User name and password for a proxy.
pub struct ProxyCredentials {
    pub user: String,
    pub password: String,
}

/// A parsed upstream proxy setting.
pub struct ProxyConfig {
    pub scheme: ProxyScheme,
    /// `host` for the HTTP schemes, `addr` for SOCKS5.
    pub host_or_addr: String,
    pub credentials: Option<ProxyCredentials>,
}

/// Where a client sends its requests through, and the value of the
/// `Proxy-Authorization` header it adds, if any.
pub struct ProxyTarget {
    pub url: String,
    pub auth_header: Option<String>,
}

/// The URL scheme prefix of a proxy kind.
pub open spec fn scheme_prefix(scheme: ProxyScheme) -> Seq<char> {
    match scheme {
        ProxyScheme::Http => "http://"@,
        ProxyScheme::Https => "https://"@,
        ProxyScheme::Socks5 => "socks5://"@,
    }
}

/// A URL that travels unencrypted.
pub open spec fn is_plain(url: Seq<char>) -> bool {
    "ws://"@.is_prefix_of(url) || "http://"@.is_prefix_of(url)
}

/// The URL whose TLS settings govern requests to `url`: the proxy's own URL
/// where a plain URL goes through a TLS proxy, else `url` itself.
pub open spec fn spec_url_for_tls(url: Seq<char>, proxy_conf: Option<Seq<char>>) -> Seq<char> {
    match proxy_conf {
        Some(p) => if is_plain(url) && "https://"@.is_prefix_of(p) {
            p
        } else {
            url
        },
        None => url,
    }
}

/// Whether `s` may stand as an HTTP header value: no control character but
/// the tab. (In UTF-8 every byte of a non-ASCII character is at least 0x80.)
pub open spec fn is_header_text(s: Seq<char>) -> bool {
    forall|i: int| 0 <= i < s.len() ==> ((s[i] as u32 >= 32 && s[i] as u32 != 127) || s[i] == '\t')
}

/// The standard, padded Base64 text of the UTF-8 bytes of `s`.
pub uninterp spec fn base64_of(s: Seq<char>) -> Seq<char>;

/// A character of the standard Base64 alphabet, padding included.
pub open spec fn is_base64_char(c: char) -> bool {
    ('A' <= c && c <= 'Z') || ('a' <= c && c <= 'z') || ('0' <= c && c <= '9') || c == '+' || c == '/' || c == '='
}

/// The `Proxy-Authorization` value for the given credentials.
pub open spec fn spec_basic_authorization(user: Seq<char>, password: Seq<char>) -> Seq<char> {
    "Basic "@ + base64_of(user + ":"@ + password)
}

/// Whether `t` is what the setting `c` resolves to: the scheme's URL of the
/// host or address, and a basic authorization header exactly where
/// credentials are given.
pub open spec fn resolves_to(t: ProxyTarget, c: ProxyConfig) -> bool {
    &&& t.url@ == scheme_prefix(c.scheme) + c.host_or_addr@
    &&& match c.credentials {
        Some(k) => t.auth_header matches Some(h) && h@ == spec_basic_authorization(k.user@, k.password@),
        None => t.auth_header is None,
    }
}

/// Relies on base64's `STANDARD` engine: `encode` returns the padded Base64
/// text of the bytes it is given, which depends on them alone. It cannot
/// overflow on any string that fits in memory, and writes only characters of
/// the standard alphabet and `=`.
#[verifier::external_body]
fn encode_base64(s: &str) -> (r: String)
    ensures
        r@ == base64_of(s@),
        forall|i: int| 0 <= i < r@.len() ==> is_base64_char(#[trigger] r@[i]),
{
    base64::engine::general_purpose::STANDARD.encode(s)
}

/// Whether `s` begins with `prefix`.
pub fn starts_with(s: &str, prefix: &str) -> (r: bool)
    ensures
        r == prefix@.is_prefix_of(s@),
{
    let n = prefix.unicode_len();
    if s.unicode_len() < n {
        return false;
    }
    let mut i: usize = 0;
    while i < n
        invariant
            n == prefix@.len(),
            n <= s@.len(),
            i <= n,
            forall|j: int| 0 <= j < i ==> s@[j] == prefix@[j],
        decreases n - i,
    {
        if s.get_char(i) != prefix.get_char(i) {
            return false;
        }
        i = i + 1;
    }
    assert(prefix@ =~= s@.subrange(0, prefix@.len() as int));
    true
}

/// Picks the URL whose TLS settings are looked up and probed for `url`.
pub fn get_url_for_tls<'a>(url: &'a str, proxy_conf: &'a Option<Socks5Server>) -> (r: &'a str)
    ensures
        r@ == spec_url_for_tls(
            url@,
            match proxy_conf {
                Some(c) => Some(c.proxy@),
                None => None,
            },
        ),
{
    if starts_with(url, "ws://") || starts_with(url, "http://") {
        if let Some(conf) = proxy_conf {
            if starts_with(conf.proxy.as_str(), "https://") {
                return conf.proxy.as_str();
            }
        }
    }
    url
}

/// Derives the proxy URL and the authorization header from a proxy setting.
pub fn resolve_proxy(conf: &ProxyConfig) -> (r: ProxyTarget)
    ensures
        resolves_to(r, *conf),
        r.auth_header matches Some(h) ==> is_header_text(h@),
{
    let prefix = match conf.scheme {
        ProxyScheme::Http => String::from_str("http://"),
        ProxyScheme::Https => String::from_str("https://"),
        ProxyScheme::Socks5 => String::from_str("socks5://"),
    };
    let url = prefix.concat(conf.host_or_addr.as_str());
    let auth_header = match &conf.credentials {
        Some(c) => {
            let pair = String::from_str(c.user.as_str()).concat(":").concat(c.password.as_str());
            let token = encode_base64(pair.as_str());
            let header = String::from_str("Basic ").concat(token.as_str());
            proof {
                reveal_strlit("Basic ");
                assert forall|i: int| 0 <= i < header@.len() implies ((header@[i] as u32 >= 32
                    && header@[i] as u32 != 127) || header@[i] == '\t') by {
                    if i >= 6 {
                        assert(is_base64_char(token@[i - 6]));
                    }
                }
            }
            Some(header)
        },
        None => None,
    };
    ProxyTarget { url, auth_header }
}

} // verus!
