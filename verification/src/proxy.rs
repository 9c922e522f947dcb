//! Proxy selection.
//!
//! A [`Proxy`] says which requests it takes (by the scheme of their URL, and
//! but for the hosts it is told to leave alone) and where it sends them. For
//! HTTP proxies it also supplies the `Proxy-Authorization` header, whose
//! value is the word `Basic` and the Base64 form of `user:password`.

use vstd::prelude::*;
use vstd::string::StringSliceAdditionalSpecFns;
use vstd::utf8::encode_utf8;
use crate::header::copy_headers;
use crate::header::header_fields;
use crate::text::chars_of;
use crate::text::copy_bytes;
use crate::text::str_eq;
use crate::url::Url;
use crate::url::UrlView;

verus! {

/// The character that stands for the six-bit number `i` in Base64.
pub open spec fn base64_char(i: int) -> u8 {
    if i < 26 {
        (65 + i) as u8
    } else if i < 52 {
        (97 + i - 26) as u8
    } else if i < 62 {
        (48 + i - 52) as u8
    } else if i == 62 {
        43u8
    } else {
        47u8
    }
}

/// The Base64 form of `data`, with padding: each group of three bytes
/// becomes four characters, and a last group of one or two bytes is filled
/// up with `=`.
pub open spec fn base64(data: Seq<u8>) -> Seq<u8>
    decreases data.len(),
{
    if data.len() == 0 {
        Seq::empty()
    } else if data.len() == 1 {
        seq![base64_char(data[0] as int / 4), base64_char((data[0] as int % 4) * 16), 61u8, 61u8]
    } else if data.len() == 2 {
        seq![
            base64_char(data[0] as int / 4),
            base64_char((data[0] as int % 4) * 16 + data[1] as int / 16),
            base64_char((data[1] as int % 16) * 4),
            61u8,
        ]
    } else {
        seq![
            base64_char(data[0] as int / 4),
            base64_char((data[0] as int % 4) * 16 + data[1] as int / 16),
            base64_char((data[1] as int % 16) * 4 + data[2] as int / 64),
            base64_char(data[2] as int % 64),
        ] + base64(data.skip(3))
    }
}

/// The Base64 character for a six-bit number.
fn encode_sextet(i: u8) -> (c: u8)
    requires
        i < 64,
    ensures
        c == base64_char(i as int),
{
    if i < 26 {
        65 + i
    } else if i < 52 {
        97 + (i - 26)
    } else if i < 62 {
        48 + (i - 52)
    } else if i == 62 {
        43
    } else {
        47
    }
}

/// The Base64 form of `data`.
pub fn base64_encode(data: &[u8]) -> (out: Vec<u8>)
    ensures
        out@ == base64(data@),
{
    let mut out: Vec<u8> = Vec::new();
    let mut i: usize = 0;
    proof {
        assert(data@.skip(0) =~= data@);
        assert(out@ + base64(data@) =~= base64(data@));
    }
    while data.len() - i >= 3
        invariant
            i <= data.len(),
            out@ + base64(data@.skip(i as int)) == base64(data@),
        decreases data.len() - i,
    {
        let a = data[i];
        let b = data[i + 1];
        let c = data[i + 2];
        let ghost rest = data@.skip(i as int);
        let ghost before = out@;
        out.push(encode_sextet(a / 4));
        out.push(encode_sextet((a % 4) * 16 + b / 16));
        out.push(encode_sextet((b % 16) * 4 + c / 64));
        out.push(encode_sextet(c % 64));
        proof {
            assert(rest.skip(3) =~= data@.skip(i + 3));
            assert(out@ =~= before + seq![
                base64_char(rest[0] as int / 4),
                base64_char((rest[0] as int % 4) * 16 + rest[1] as int / 16),
                base64_char((rest[1] as int % 16) * 4 + rest[2] as int / 64),
                base64_char(rest[2] as int % 64),
            ]);
            assert(out@ + base64(data@.skip(i + 3)) =~= before + base64(rest));
        }
        i += 3;
    }
    let ghost rest = data@.skip(i as int);
    let ghost before = out@;
    if data.len() - i == 1 {
        let a = data[i];
        out.push(encode_sextet(a / 4));
        out.push(encode_sextet((a % 4) * 16));
        out.push(61);
        out.push(61);
        proof {
            assert(out@ =~= before + base64(rest));
        }
    } else if data.len() - i == 2 {
        let a = data[i];
        let b = data[i + 1];
        out.push(encode_sextet(a / 4));
        out.push(encode_sextet((a % 4) * 16 + b / 16));
        out.push(encode_sextet((b % 16) * 4));
        out.push(61);
        proof {
            assert(out@ =~= before + base64(rest));
        }
    } else {
        proof {
            assert(out@ =~= before + base64(rest));
        }
    }
    out
}

/// The value of a `Proxy-Authorization` header for a user name and a
/// password: `Basic `, then the Base64 form of the name, a colon and the
/// password.
pub open spec fn basic_auth_value(username: Seq<u8>, password: Seq<u8>) -> Seq<u8> {
    "Basic ".spec_bytes() + base64(username + seq![58u8] + password)
}

/// Builds the value of a `Proxy-Authorization` header.
pub fn encode_basic_auth(username: &str, password: &str) -> (value: Vec<u8>)
    ensures
        value@ == basic_auth_value(username.spec_bytes(), password.spec_bytes()),
{
    let mut plain: Vec<u8> = copy_bytes(username.as_bytes());
    plain.push(58);
    plain.extend_from_slice(password.as_bytes());
    proof {
        assert(plain@ =~= username.spec_bytes() + seq![58u8] + password.spec_bytes());
    }
    let encoded = base64_encode(plain.as_slice());
    let mut value: Vec<u8> = copy_bytes("Basic ".as_bytes());
    value.extend_from_slice(encoded.as_slice());
    value
}

/// The protocol spoken to a proxy.
#[derive(Clone, Copy, Debug, PartialEq, Eq, Structural)]
pub enum ProxyKind {
    /// An HTTP proxy reached in the clear.
    Http,
    /// An HTTP proxy reached over TLS.
    Https,
    /// SOCKS4; the client resolves the target.
    Socks4,
    /// SOCKS4a; the proxy resolves the target.
    Socks4a,
    /// SOCKS5; the client resolves the target.
    Socks5,
    /// SOCKS5; the proxy resolves the target.
    Socks5h,
}

impl ProxyKind {
    /// Whether the proxy speaks SOCKS.
    pub open spec fn spec_is_socks(&self) -> bool {
        !(*self == ProxyKind::Http || *self == ProxyKind::Https)
    }

    #[verifier::when_used_as_spec(spec_is_socks)]
    pub fn is_socks(&self) -> (b: bool)
        ensures
            b == self.spec_is_socks(),
    {
        match self {
            ProxyKind::Http | ProxyKind::Https => false,
            _ => true,
        }
    }
}

/// The protocol that a proxy URL with the given scheme asks for.
pub open spec fn kind_of_scheme(scheme: Seq<char>) -> Option<ProxyKind> {
    if scheme == "http"@ {
        Some(ProxyKind::Http)
    } else if scheme == "https"@ {
        Some(ProxyKind::Https)
    } else if scheme == "socks4"@ {
        Some(ProxyKind::Socks4)
    } else if scheme == "socks4a"@ {
        Some(ProxyKind::Socks4a)
    } else if scheme == "socks5"@ {
        Some(ProxyKind::Socks5)
    } else if scheme == "socks5h"@ {
        Some(ProxyKind::Socks5h)
    } else {
        None
    }
}

/// The protocol that a proxy URL with the given scheme asks for.
pub fn proxy_kind(scheme: &str) -> (kind: Option<ProxyKind>)
    ensures
        kind == kind_of_scheme(scheme@),
{
    if str_eq(scheme, "http") {
        Some(ProxyKind::Http)
    } else if str_eq(scheme, "https") {
        Some(ProxyKind::Https)
    } else if str_eq(scheme, "socks4") {
        Some(ProxyKind::Socks4)
    } else if str_eq(scheme, "socks4a") {
        Some(ProxyKind::Socks4a)
    } else if str_eq(scheme, "socks5") {
        Some(ProxyKind::Socks5)
    } else if str_eq(scheme, "socks5h") {
        Some(ProxyKind::Socks5h)
    } else {
        None
    }
}

/// User name and password for a proxy.
#[derive(Debug)]
pub struct Credentials {
    pub username: String,
    pub password: String,
}

/// Where a proxy is and how to talk to it.
#[derive(Debug)]
pub struct ProxyScheme {
    /// The protocol spoken to the proxy.
    pub kind: ProxyKind,
    /// The proxy's URL.
    pub uri: Url,
    /// The credentials to present, if any.
    pub auth: Option<Credentials>,
    /// Headers to send to an HTTP proxy with every request for a tunnel.
    pub custom_headers: Option<http::HeaderMap>,
}

/// A proxy target, to contracts.
pub ghost struct ProxySchemeView {
    pub kind: ProxyKind,
    pub uri: UrlView,
    pub auth: Option<(Seq<char>, Seq<char>)>,
    pub custom_headers: Option<Map<Seq<char>, Seq<Seq<u8>>>>,
}

impl View for ProxyScheme {
    type V = ProxySchemeView;

    open spec fn view(&self) -> ProxySchemeView {
        ProxySchemeView {
            kind: self.kind,
            uri: self.uri@,
            auth: match self.auth {
                Some(c) => Some((c.username@, c.password@)),
                None => None,
            },
            custom_headers: match self.custom_headers {
                Some(h) => Some(header_fields(h)),
                None => None,
            },
        }
    }
}

/// The view of an optional proxy target.
pub open spec fn opt_scheme_view(scheme: Option<ProxyScheme>) -> Option<ProxySchemeView> {
    match scheme {
        Some(s) => Some(s@),
        None => None,
    }
}

impl ProxyScheme {
    /// The proxy at `uri`, where the URL's scheme names a protocol spoken to
    /// proxies.
    pub fn parse(uri: Url) -> (scheme: Option<ProxyScheme>)
        ensures
            scheme is Some == kind_of_scheme(uri@.scheme) is Some,
            scheme matches Some(s) ==> s@ == (ProxySchemeView {
                kind: kind_of_scheme(uri@.scheme)->0,
                uri: uri@,
                auth: None,
                custom_headers: None,
            }),
    {
        match proxy_kind(uri.scheme()) {
            Some(kind) => Some(ProxyScheme { kind, uri, auth: None, custom_headers: None }),
            None => None,
        }
    }

    /// The same proxy, with credentials.
    pub fn with_basic_auth(self, username: String, password: String) -> (scheme: ProxyScheme)
        ensures
            scheme@ == (ProxySchemeView { auth: Some((username@, password@)), ..self@ }),
    {
        ProxyScheme {
            kind: self.kind,
            uri: self.uri,
            auth: Some(Credentials { username, password }),
            custom_headers: self.custom_headers,
        }
    }

    /// The same proxy, with headers for its tunnel requests.
    pub fn with_custom_headers(self, headers: http::HeaderMap) -> (scheme: ProxyScheme)
        ensures
            scheme@ == (ProxySchemeView { custom_headers: Some(header_fields(headers)), ..self@ }),
    {
        ProxyScheme {
            kind: self.kind,
            uri: self.uri,
            auth: self.auth,
            custom_headers: Some(headers),
        }
    }

    /// A copy of this target.
    pub fn copy(&self) -> (scheme: ProxyScheme)
        ensures
            scheme@ == self@,
    {
        ProxyScheme {
            kind: self.kind,
            uri: self.uri.copy(),
            auth: match &self.auth {
                Some(c) => Some(
                    Credentials { username: c.username.clone(), password: c.password.clone() },
                ),
                None => None,
            },
            custom_headers: match &self.custom_headers {
                Some(h) => Some(copy_headers(h)),
                None => None,
            },
        }
    }

    /// The value of the `Proxy-Authorization` header for this proxy: the
    /// Basic form of its credentials, where it is an HTTP proxy that has
    /// some.
    pub open spec fn basic_auth_of(scheme: ProxySchemeView) -> Option<Seq<u8>> {
        match scheme.auth {
            Some(c) => if scheme.kind.is_socks() {
                None
            } else {
                Some(basic_auth_value(encode_utf8(c.0), encode_utf8(c.1)))
            },
            None => None,
        }
    }

    /// The value of the `Proxy-Authorization` header for this proxy.
    pub fn basic_auth(&self) -> (value: Option<Vec<u8>>)
        ensures
            value is Some == ProxyScheme::basic_auth_of(self@) is Some,
            value matches Some(v) ==> Some(v@) == ProxyScheme::basic_auth_of(self@),
    {
        match &self.auth {
            Some(c) => {
                if self.kind.is_socks() {
                    None
                } else {
                    Some(encode_basic_auth(c.username.as_str(), c.password.as_str()))
                }
            },
            None => None,
        }
    }

    /// Whether this is an HTTP proxy with credentials.
    pub fn maybe_http_auth(&self) -> (b: bool)
        ensures
            b == (self@.auth is Some && !self@.kind.is_socks()),
    {
        self.auth.is_some() && !self.kind.is_socks()
    }
}

/// Which requests a proxy takes.
#[derive(Clone, Copy, Debug, PartialEq, Eq, Structural)]
pub enum Intercept {
    /// Every request.
    All,
    /// Requests for `http` URLs.
    Http,
    /// Requests for `https` URLs.
    Https,
}

impl Intercept {
    /// Whether requests for URLs with the given scheme are taken.
    pub open spec fn takes(&self, scheme: Seq<char>) -> bool {
        match self {
            Intercept::All => true,
            Intercept::Http => scheme == "http"@,
            Intercept::Https => scheme == "https"@,
        }
    }
}

/// Hosts that are reached directly although a proxy would take them.
#[derive(Debug)]
pub struct NoProxy {
    /// Host names, each of which stands for itself and for the hosts
    /// beneath it; `*` stands for every host.
    pub domains: Vec<String>,
}

/// Whether `host` ends in a dot followed by `domain`.
pub open spec fn is_subdomain(host: Seq<char>, domain: Seq<char>) -> bool {
    host.len() > domain.len() && host.subrange(host.len() - domain.len(), host.len() as int)
        == domain && host[host.len() - domain.len() - 1] == '.'
}

/// Whether the entry `domain` covers `host`: it is `*`, or the host itself,
/// or the host lies beneath it.
pub open spec fn covers(domain: Seq<char>, host: Seq<char>) -> bool {
    domain == seq!['*'] || domain == host || is_subdomain(host, domain)
}

/// Whether one of `domains` covers `host`.
pub open spec fn any_covers(domains: Seq<String>, host: Seq<char>) -> bool {
    exists|i: int| 0 <= i < domains.len() && covers(#[trigger] domains[i]@, host)
}

/// Whether the entry `domain` covers `host`.
fn entry_covers(domain: &Vec<char>, host: &Vec<char>) -> (b: bool)
    ensures
        b == covers(domain@, host@),
{
    if domain.len() == 1 && domain[0] == '*' {
        proof {
            assert(domain@ =~= seq!['*']);
        }
        return true;
    }
    if domain.len() > host.len() {
        return false;
    }
    let offset = host.len() - domain.len();
    let mut i: usize = 0;
    while i < domain.len()
        invariant
            i <= domain.len(),
            offset + domain.len() == host.len(),
            !(domain@.len() == 1 && domain@[0] == '*'),
            forall|k: int| 0 <= k < i ==> domain@[k] == host@[offset + k],
        decreases domain.len() - i,
    {
        if domain[i] != host[offset + i] {
            proof {
                let tail = host@.subrange(host@.len() - domain@.len(), host@.len() as int);
                assert(tail[i as int] == host@[offset + i]);
                assert(domain@ != seq!['*']) by {
                    if domain@ == seq!['*'] {
                        assert(domain@.len() == 1);
                        assert(domain@[0] == '*');
                    }
                }
            }
            return false;
        }
        i += 1;
    }
    proof {
        let tail = host@.subrange(host@.len() - domain@.len(), host@.len() as int);
        assert(tail =~= domain@);
        if offset == 0 {
            assert(host@ =~= domain@);
        }
        assert(domain@ != seq!['*']) by {
            if domain@ == seq!['*'] {
                assert(domain@.len() == 1);
                assert(domain@[0] == '*');
            }
        }
    }
    if offset == 0 {
        true
    } else {
        host[offset - 1] == '.'
    }
}

impl NoProxy {
    /// Whether `host` is to be reached directly.
    pub fn contains(&self, host: &str) -> (b: bool)
        ensures
            b == any_covers(self.domains@, host@),
    {
        let target = chars_of(host);
        let mut i: usize = 0;
        while i < self.domains.len()
            invariant
                i <= self.domains.len(),
                target@ == host@,
                forall|k: int| 0 <= k < i ==> !covers(#[trigger] self.domains[k]@, host@),
            decreases self.domains.len() - i,
        {
            let entry = chars_of(self.domains[i].as_str());
            if entry_covers(&entry, &target) {
                return true;
            }
            i += 1;
        }
        false
    }

    /// A copy of this list.
    pub fn copy(&self) -> (list: NoProxy)
        ensures
            list.domains@.len() == self.domains@.len(),
            forall|i: int| 0 <= i < self.domains@.len() ==> list.domains[i]@ == self.domains[i]@,
    {
        let mut domains: Vec<String> = Vec::new();
        let mut i: usize = 0;
        while i < self.domains.len()
            invariant
                i <= self.domains.len(),
                domains@.len() == i,
                forall|k: int| 0 <= k < i ==> domains[k]@ == self.domains[k]@,
            decreases self.domains.len() - i,
        {
            domains.push(self.domains[i].clone());
            i += 1;
        }
        NoProxy { domains }
    }
}

/// A rule that sends requests through a proxy.
#[derive(Debug)]
pub struct Proxy {
    /// Which requests the proxy takes.
    pub intercept: Intercept,
    /// Where the proxy is.
    pub target: ProxyScheme,
    /// The hosts that are left alone.
    pub no_proxy: Option<NoProxy>,
}

/// Whether a request for `url` is left alone on account of `no_proxy`.
pub open spec fn bypasses(no_proxy: Option<NoProxy>, url: UrlView) -> bool {
    match (no_proxy, url.host) {
        (Some(list), Some(host)) => any_covers(list.domains@, host),
        _ => false,
    }
}

impl Proxy {
    /// A proxy for requests to `http` URLs.
    pub fn http(target: ProxyScheme) -> (proxy: Proxy)
        ensures
            proxy.intercept == Intercept::Http,
            proxy.target == target,
            proxy.no_proxy is None,
    {
        Proxy { intercept: Intercept::Http, target, no_proxy: None }
    }

    /// A proxy for requests to `https` URLs.
    pub fn https(target: ProxyScheme) -> (proxy: Proxy)
        ensures
            proxy.intercept == Intercept::Https,
            proxy.target == target,
            proxy.no_proxy is None,
    {
        Proxy { intercept: Intercept::Https, target, no_proxy: None }
    }

    /// A proxy for every request.
    pub fn all(target: ProxyScheme) -> (proxy: Proxy)
        ensures
            proxy.intercept == Intercept::All,
            proxy.target == target,
            proxy.no_proxy is None,
    {
        Proxy { intercept: Intercept::All, target, no_proxy: None }
    }

    /// The same proxy, leaving the hosts of `no_proxy` alone.
    pub fn no_proxy(self, no_proxy: Option<NoProxy>) -> (proxy: Proxy)
        ensures
            proxy.intercept == self.intercept,
            proxy.target == self.target,
            proxy.no_proxy == no_proxy,
    {
        Proxy { intercept: self.intercept, target: self.target, no_proxy }
    }

    /// Whether the proxy takes a request for `url`: the URL's scheme is one
    /// it takes, and its host is not one that is left alone.
    pub open spec fn matches(&self, url: UrlView) -> bool {
        self.intercept.takes(url.scheme) && !bypasses(self.no_proxy, url)
    }

    /// Whether the proxy takes a request for `uri`.
    pub fn is_match(&self, uri: &Url) -> (b: bool)
        ensures
            b == self.matches(uri@),
    {
        let bypass = match (&self.no_proxy, uri.host_str()) {
            (Some(list), Some(host)) => list.contains(host),
            _ => false,
        };
        if bypass {
            return false;
        }
        match self.intercept {
            Intercept::All => true,
            Intercept::Http => uri.is_http(),
            Intercept::Https => uri.is_https(),
        }
    }

    /// Where the proxy sends a request for `uri`, if it takes it.
    pub fn intercept(&self, uri: &Url) -> (target: Option<ProxyScheme>)
        ensures
            target is Some == self.matches(uri@),
            target matches Some(t) ==> t@ == self.target@,
    {
        if self.is_match(uri) {
            Some(self.target.copy())
        } else {
            None
        }
    }

    /// Whether the proxy may supply a `Proxy-Authorization` header: it takes
    /// `http` requests and is an HTTP proxy with credentials.
    pub open spec fn spec_maybe_has_http_auth(&self) -> bool {
        self.intercept != Intercept::Https && self.target@.auth is Some
            && !self.target@.kind.is_socks()
    }

    #[verifier::when_used_as_spec(spec_maybe_has_http_auth)]
    pub fn maybe_has_http_auth(&self) -> (b: bool)
        ensures
            b == self.spec_maybe_has_http_auth(),
    {
        match self.intercept {
            Intercept::Https => false,
            _ => self.target.maybe_http_auth(),
        }
    }

    /// The value of the `Proxy-Authorization` header to send with a request
    /// for `uri`, if the proxy supplies one.
    pub fn http_basic_auth(&self, uri: &Url) -> (value: Option<Vec<u8>>)
        ensures
            self.intercept == Intercept::Https ==> value is None,
            self.intercept != Intercept::Https ==> (value is Some) == (ProxyScheme::basic_auth_of(
                self.target@,
            ) is Some),
            value matches Some(v) ==> Some(v@) == ProxyScheme::basic_auth_of(
                self.target@,
            ),
    {
        match self.intercept {
            Intercept::Https => None,
            _ => self.target.basic_auth(),
        }
    }

    /// The headers to send to the proxy with every request, if it has any.
    pub fn http_headers(&self) -> (headers: Option<http::HeaderMap>)
        ensures
            headers is Some == self.target.custom_headers is Some,
            headers matches Some(h) ==> header_fields(h) == header_fields(
                self.target.custom_headers->0,
            ),
    {
        match &self.target.custom_headers {
            Some(h) => Some(copy_headers(h)),
            None => None,
        }
    }

    /// A copy of this rule.
    pub fn copy(&self) -> (proxy: Proxy)
        ensures
            proxy.intercept == self.intercept,
            proxy.target@ == self.target@,
            proxy.no_proxy is Some == self.no_proxy is Some,
            forall|url: UrlView| proxy.matches(url) == self.matches(url),
            proxy.spec_maybe_has_http_auth() == self.spec_maybe_has_http_auth(),
    {
        let no_proxy = match &self.no_proxy {
            Some(list) => Some(list.copy()),
            None => None,
        };
        let proxy = Proxy { intercept: self.intercept, target: self.target.copy(), no_proxy };
        proof {
            assert forall|url: UrlView| proxy.matches(url) == self.matches(url) by {
                match (proxy.no_proxy, self.no_proxy, url.host) {
                    (Some(a), Some(b), Some(host)) => {
                        if any_covers(a.domains@, host) {
                            let i = choose|i: int|
                                0 <= i < a.domains@.len() && covers(#[trigger] a.domains@[i]@, host);
                            assert(covers(b.domains@[i]@, host));
                        }
                        if any_covers(b.domains@, host) {
                            let i = choose|i: int|
                                0 <= i < b.domains@.len() && covers(#[trigger] b.domains@[i]@, host);
                            assert(covers(a.domains@[i]@, host));
                        }
                    },
                    _ => {},
                }
            }
        }
        proxy
    }
}

/// Every character of the Base64 form may stand in a header value.
pub proof fn lemma_base64_is_header_value(data: Seq<u8>)
    ensures
        crate::header::is_header_value(base64(data)),
    decreases data.len(),
{
    if data.len() >= 3 {
        lemma_base64_is_header_value(data.skip(3));
    }
}

/// The value of a `Proxy-Authorization` header is a header value.
pub proof fn lemma_basic_auth_is_header_value(username: Seq<u8>, password: Seq<u8>)
    ensures
        crate::header::is_header_value(basic_auth_value(username, password)),
{
    reveal_strlit("Basic ");
    vstd::string::is_ascii_spec_bytes("Basic ");
    lemma_base64_is_header_value(username + seq![58u8] + password);
}

/// Whether two rules take the same requests and send them to the same
/// place.
pub open spec fn same_proxy(a: Proxy, b: Proxy) -> bool {
    &&& a.intercept == b.intercept
    &&& a.target@ == b.target@
    &&& a.spec_maybe_has_http_auth() == b.spec_maybe_has_http_auth()
    &&& forall|url: UrlView| #[trigger] a.matches(url) == b.matches(url)
}

/// Whether two lists of rules agree rule by rule.
pub open spec fn same_proxies(a: Seq<Proxy>, b: Seq<Proxy>) -> bool {
    a.len() == b.len() && forall|i: int| 0 <= i < a.len() ==> same_proxy(#[trigger] a[i], b[i])
}

/// Copies a list of rules.
pub fn copy_proxies(proxies: &Vec<Proxy>) -> (copy: Vec<Proxy>)
    ensures
        same_proxies(copy@, proxies@),
{
    let mut copy: Vec<Proxy> = Vec::new();
    let mut i: usize = 0;
    while i < proxies.len()
        invariant
            i <= proxies.len(),
            copy@.len() == i,
            forall|k: int| 0 <= k < i ==> same_proxy(#[trigger] copy@[k], proxies@[k]),
        decreases proxies.len() - i,
    {
        copy.push(proxies[i].copy());
        i += 1;
    }
    copy
}

/// Whether one of the rules may supply a `Proxy-Authorization` header.
pub open spec fn any_http_auth(proxies: Seq<Proxy>) -> bool {
    exists|i: int| 0 <= i < proxies.len() && (#[trigger] proxies[i]).spec_maybe_has_http_auth()
}

/// Whether one of the rules may supply a `Proxy-Authorization` header.
pub fn proxies_maybe_http_auth(proxies: &Vec<Proxy>) -> (b: bool)
    ensures
        b == any_http_auth(proxies@),
{
    let mut i: usize = 0;
    while i < proxies.len()
        invariant
            i <= proxies.len(),
            forall|k: int| 0 <= k < i ==> !(#[trigger] proxies[k]).spec_maybe_has_http_auth(),
        decreases proxies.len() - i,
    {
        if proxies[i].maybe_has_http_auth() {
            return true;
        }
        i += 1;
    }
    false
}

/// Whether `b` is a blank: a space, a tab or a line break.
pub open spec fn is_blank(b: u8) -> bool {
    b == 32 || (9 <= b && b <= 13)
}

/// The first position from `from` up to `to` that holds no blank.
pub open spec fn after_blanks(s: Seq<u8>, from: int, to: int) -> int
    decreases to - from,
{
    if from < to && 0 <= from < s.len() && is_blank(s[from]) {
        after_blanks(s, from + 1, to)
    } else {
        from
    }
}

/// The first position from `from` up to `to` that holds no dot.
pub open spec fn after_dots(s: Seq<u8>, from: int, to: int) -> int
    decreases to - from,
{
    if from < to && 0 <= from < s.len() && s[from] == 46 {
        after_dots(s, from + 1, to)
    } else {
        from
    }
}

/// The position behind the last byte from `from` up to `to` that is no
/// blank.
pub open spec fn before_blanks(s: Seq<u8>, from: int, to: int) -> int
    decreases to - from,
{
    if from < to && 0 < to <= s.len() && is_blank(s[to - 1]) {
        before_blanks(s, from, to - 1)
    } else {
        to
    }
}

/// The entry that stands in `s` from `from` up to `to`: what is left when
/// the blanks at both ends and then the dots in front are taken away.
pub open spec fn list_entry(s: Seq<u8>, from: int, to: int) -> Seq<u8> {
    let a = after_blanks(s, from, to);
    let b = before_blanks(s, a, to);
    let c = after_dots(s, a, b);
    s.subrange(c, b)
}

/// The entry as a list of entries: none where it is empty or no text.
pub open spec fn kept_entry(entry: Seq<u8>) -> Seq<Seq<u8>> {
    if entry.len() > 0 && vstd::utf8::valid_utf8(entry) {
        seq![entry]
    } else {
        Seq::empty()
    }
}

/// The entries of a list whose entries are parted by commas, read from
/// `at` on, where the entry being read began at `start`.
pub open spec fn list_entries(s: Seq<u8>, at: int, start: int) -> Seq<Seq<u8>>
    decreases s.len() - at,
{
    if at < 0 || at >= s.len() {
        kept_entry(list_entry(s, start, s.len() as int))
    } else if s[at] == 44 {
        kept_entry(list_entry(s, start, at)) + list_entries(s, at + 1, at + 1)
    } else {
        list_entries(s, at + 1, start)
    }
}

/// The texts of the entries.
pub open spec fn entry_texts(entries: Seq<Seq<u8>>) -> Seq<Seq<char>> {
    entries.map_values(|e: Seq<u8>| vstd::utf8::decode_utf8(e))
}

/// The texts of the host names.
pub open spec fn domain_texts(domains: Seq<String>) -> Seq<Seq<char>> {
    domains.map_values(|d: String| d@)
}

/// Reads the entry of `bytes` from `from` up to `to` and adds it to
/// `domains` where it is a host name.
fn read_entry(bytes: &[u8], from: usize, to: usize, domains: &mut Vec<String>)
    requires
        from <= to <= bytes.len(),
    ensures
        domain_texts(final(domains)@) == domain_texts(old(domains)@) + entry_texts(
            kept_entry(list_entry(bytes@, from as int, to as int)),
        ),
{
    let mut a: usize = from;
    while a < to && (bytes[a] == 32 || (9 <= bytes[a] && bytes[a] <= 13))
        invariant
            from <= a <= to <= bytes.len(),
            after_blanks(bytes@, from as int, to as int) == after_blanks(
                bytes@,
                a as int,
                to as int,
            ),
        decreases to - a,
    {
        a += 1;
    }
    let mut b: usize = to;
    while a < b && (bytes[b - 1] == 32 || (9 <= bytes[b - 1] && bytes[b - 1] <= 13))
        invariant
            a <= b <= to <= bytes.len(),
            before_blanks(bytes@, a as int, to as int) == before_blanks(
                bytes@,
                a as int,
                b as int,
            ),
        decreases b - a,
    {
        b -= 1;
    }
    let mut c: usize = a;
    while c < b && bytes[c] == 46
        invariant
            a <= c <= b <= bytes.len(),
            after_dots(bytes@, a as int, b as int) == after_dots(bytes@, c as int, b as int),
        decreases b - c,
    {
        c += 1;
    }
    let entry = vstd::slice::slice_subrange(bytes, c, b);
    proof {
        assert(entry@ == list_entry(bytes@, from as int, to as int));
    }
    if entry.len() > 0 {
        match crate::text::utf8_str(entry) {
            Some(text) => {
                let ghost before = domains@;
                domains.push(text.to_owned());
                proof {
                    assert(domain_texts(domains@) =~= domain_texts(before) + entry_texts(
                        seq![entry@],
                    ));
                }
            },
            None => {
                proof {
                    assert(domain_texts(domains@) =~= domain_texts(domains@) + entry_texts(
                        Seq::empty(),
                    ));
                }
            },
        }
    } else {
        proof {
            assert(domain_texts(domains@) =~= domain_texts(domains@) + entry_texts(Seq::empty()));
        }
    }
}

impl NoProxy {
    /// Reads a list of hosts to leave alone, as the environment gives it:
    /// entries parted by commas, each without the blanks around it and the
    /// dots in front of it; empty entries count for nothing.
    pub fn from_string(list: &str) -> (hosts: NoProxy)
        ensures
            domain_texts(hosts.domains@) == entry_texts(list_entries(list.spec_bytes(), 0, 0)),
    {
        let bytes = list.as_bytes();
        let mut domains: Vec<String> = Vec::new();
        let mut start: usize = 0;
        let mut at: usize = 0;
        proof {
            assert(domain_texts(domains@) =~= Seq::<Seq<char>>::empty());
            assert(Seq::<Seq<char>>::empty() + entry_texts(list_entries(bytes@, 0, 0))
                =~= entry_texts(list_entries(bytes@, 0, 0)));
        }
        while at < bytes.len()
            invariant
                start <= at <= bytes.len(),
                domain_texts(domains@) + entry_texts(
                    list_entries(bytes@, at as int, start as int),
                ) == entry_texts(list_entries(bytes@, 0, 0)),
            decreases bytes.len() - at,
        {
            if bytes[at] == 44 {
                let ghost before = domain_texts(domains@);
                read_entry(bytes, start, at, &mut domains);
                proof {
                    let one = kept_entry(list_entry(bytes@, start as int, at as int));
                    let rest = list_entries(bytes@, at + 1, at + 1);
                    assert(entry_texts(one + rest) =~= entry_texts(one) + entry_texts(rest));
                    assert((before + entry_texts(one)) + entry_texts(rest) =~= before + (
                    entry_texts(one) + entry_texts(rest)));
                }
                start = at + 1;
            }
            at += 1;
        }
        let ghost before = domain_texts(domains@);
        read_entry(bytes, start, at, &mut domains);
        NoProxy { domains }
    }
}

/// Whether `://` stands in the text at `at`.
pub open spec fn scheme_mark_at(text: Seq<u8>, at: int) -> bool {
    0 <= at && at + 3 <= text.len() && text[at] == 58 && text[at + 1] == 47 && text[at + 2] == 47
}

/// Whether the text names a scheme: `://` stands in it.
pub open spec fn names_scheme(text: Seq<u8>) -> bool {
    exists|at: int| #[trigger] scheme_mark_at(text, at)
}

/// The URL that a proxy variable of the environment stands for: the value
/// itself where it names a scheme, else the value behind `http://`.
pub open spec fn target_text(value: Seq<u8>) -> Seq<u8> {
    if names_scheme(value) {
        value
    } else {
        "http://".spec_bytes() + value
    }
}

/// The credentials of a proxy whose URL carries `credentials`: the user
/// name with the password, or with none, where there is a user name.
pub open spec fn url_auth(credentials: Option<(Seq<char>, Option<Seq<char>>)>) -> Option<
    (Seq<char>, Seq<char>),
> {
    match credentials {
        Some((user, password)) => if user.len() > 0 {
            Some(
                (
                    user,
                    match password {
                        Some(p) => p,
                        None => Seq::empty(),
                    },
                ),
            )
        } else {
            None
        },
        None => None,
    }
}

/// The proxy that a proxy variable of the environment with the value
/// `value` names: the URL the value stands for, where it is one and its
/// scheme names a protocol spoken to proxies, with the credentials that
/// the URL carries.
pub open spec fn env_target(value: Seq<u8>) -> Option<ProxySchemeView> {
    let bytes = target_text(value);
    if !vstd::utf8::valid_utf8(bytes) {
        None
    } else {
        match crate::url::parsed_url(vstd::utf8::decode_utf8(bytes)) {
            Some(u) => match kind_of_scheme(u.scheme) {
                Some(kind) => Some(
                    ProxySchemeView {
                        kind,
                        uri: u,
                        auth: url_auth(crate::url::url_credentials(u.href)),
                        custom_headers: None,
                    },
                ),
                None => None,
            },
            None => None,
        }
    }
}

/// Checks whether the text names a scheme.
pub fn has_scheme_mark(text: &[u8]) -> (found: bool)
    ensures
        found == names_scheme(text@),
{
    if text.len() < 3 {
        proof {
            assert forall|at: int| !#[trigger] scheme_mark_at(text@, at) by {}
        }
        return false;
    }
    let last: usize = text.len() - 3;
    let mut i: usize = 0;
    while i <= last
        invariant
            last + 3 == text.len(),
            i <= last + 1,
            forall|k: int| 0 <= k < i ==> !scheme_mark_at(text@, k),
        decreases last + 1 - i,
    {
        if text[i] == 58 && text[i + 1] == 47 && text[i + 2] == 47 {
            proof {
                assert(scheme_mark_at(text@, i as int));
            }
            return true;
        }
        i += 1;
    }
    proof {
        assert forall|at: int| !#[trigger] scheme_mark_at(text@, at) by {
            if 0 <= at && at + 3 <= text@.len() {
                assert(at < i);
            }
        }
    }
    false
}

impl ProxyScheme {
    /// Reads the proxy that a proxy variable of the environment names.
    pub fn from_env_value(value: &str) -> (scheme: Option<ProxyScheme>)
        ensures
            opt_scheme_view(scheme) == env_target(value.spec_bytes()),
    {
        let given = value.as_bytes();
        let mut text: Vec<u8> = Vec::new();
        if !has_scheme_mark(given) {
            text.extend_from_slice("http://".as_bytes());
        }
        text.extend_from_slice(given);
        proof {
            assert(text@ =~= target_text(given@));
        }
        let url = match crate::text::utf8_str(text.as_slice()) {
            Some(t) => match Url::parse(t) {
                Some(u) => u,
                None => {
                    return None;
                },
            },
            None => {
                return None;
            },
        };
        let credentials = url.credentials();
        match ProxyScheme::parse(url) {
            Some(scheme) => match credentials {
                Some((user, password)) => {
                    if user.as_str().unicode_len() > 0 {
                        let password = match password {
                            Some(p) => p,
                            None => String::new(),
                        };
                        Some(scheme.with_basic_auth(user, password))
                    } else {
                        Some(scheme)
                    }
                },
                None => Some(scheme),
            },
            None => None,
        }
    }
}

} // verus!
