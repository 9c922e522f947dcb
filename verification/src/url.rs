//! Absolute URLs.
//!
//! Parsing and reference resolution are done by the `url` crate. A [`Url`]
//! keeps the parts the engine decides on (scheme, host, port) and the
//! serialised form as plain strings.

use vstd::prelude::*;
use crate::text::opt_string_eq;
use crate::text::opt_text;
use crate::text::str_eq;

verus! {

/// The parts of a URL that contracts speak of.
pub ghost struct UrlView {
    /// The serialised URL.
    pub href: Seq<char>,
    /// The scheme, in lower case and without the colon.
    pub scheme: Seq<char>,
    /// The host, if the URL has one.
    pub host: Option<Seq<char>>,
    /// The port, or the default port of the scheme where that is known.
    pub port: Option<u16>,
    /// The path.
    pub path: Seq<char>,
    /// The port, where the URL names one that is not the default of its
    /// scheme.
    pub explicit_port: Option<u16>,
}

/// A parsed absolute URL.
#[derive(Debug)]
pub struct Url {
    href: String,
    scheme: String,
    host: Option<String>,
    port: Option<u16>,
    path: String,
    explicit_port: Option<u16>,
}

impl View for Url {
    type V = UrlView;

    closed spec fn view(&self) -> UrlView {
        UrlView {
            href: self.href@,
            scheme: self.scheme@,
            host: opt_text(self.host),
            port: self.port,
            path: self.path@,
            explicit_port: self.explicit_port,
        }
    }
}

/// The view of an optional URL.
pub open spec fn opt_url_view(url: Option<Url>) -> Option<UrlView> {
    match url {
        Some(u) => Some(u@),
        None => None,
    }
}

/// What `url::Url::parse` makes of `input`: the URL's parts, or nothing where
/// the input is no absolute URL.
pub uninterp spec fn parsed_url(input: Seq<char>) -> Option<UrlView>;

/// What `url::Url::join` makes of `reference` against the URL serialised as
/// `base`: the parts of the resolved URL, or nothing where the reference
/// cannot be resolved.
pub uninterp spec fn joined_url(base: Seq<char>, reference: Seq<char>) -> Option<UrlView>;

/// What `url::Url::set_username` leaves of the URL serialised as `href`, or
/// nothing where the URL cannot carry a user name.
pub uninterp spec fn url_with_username(href: Seq<char>, username: Seq<char>) -> Option<UrlView>;

/// What `url::Url::set_password` with no password leaves of the URL
/// serialised as `href`, or nothing where the URL cannot carry a password.
pub uninterp spec fn url_without_password(href: Seq<char>) -> Option<UrlView>;

/// What `url::Url::set_fragment` with no fragment leaves of the URL serialised
/// as `href`, or nothing where `href` is no URL.
pub uninterp spec fn url_without_fragment(href: Seq<char>) -> Option<UrlView>;

/// Whether `http::Uri` accepts `href`.
pub uninterp spec fn uri_accepts(href: Seq<char>) -> bool;

/// `url::Url::parse`.
#[verifier::external_body]
fn parse_outside(input: &str) -> (url: Option<Url>)
    ensures
        opt_url_view(url) == parsed_url(input@),
{
    url::Url::parse(input).ok().map(|u| Url {
        href: u.as_str().to_owned(),
        scheme: u.scheme().to_owned(),
        host: u.host_str().map(|h| h.to_owned()),
        port: u.port_or_known_default(),
        path: u.path().to_owned(),
        explicit_port: u.port(),
    })
}

/// `url::Url::join`.
#[verifier::external_body]
fn join_outside(base: &Url, reference: &str) -> (url: Option<Url>)
    ensures
        opt_url_view(url) == joined_url(base@.href, reference@),
{
    let base = url::Url::parse(&base.href).ok();
    base.and_then(|b| b.join(reference).ok()).map(|u| Url {
        href: u.as_str().to_owned(),
        scheme: u.scheme().to_owned(),
        host: u.host_str().map(|h| h.to_owned()),
        port: u.port_or_known_default(),
        path: u.path().to_owned(),
        explicit_port: u.port(),
    })
}

/// `url::Url::set_username`, on a copy of `url`.
#[verifier::external_body]
fn with_username_outside(url: &Url, username: &str) -> (changed: Option<Url>)
    ensures
        opt_url_view(changed) == url_with_username(url@.href, username@),
{
    let parsed = url::Url::parse(&url.href).ok();
    let set = parsed.and_then(|mut u| u.set_username(username).ok().map(|_| u));
    set.map(|u| Url {
        href: u.as_str().to_owned(),
        scheme: u.scheme().to_owned(),
        host: u.host_str().map(|h| h.to_owned()),
        port: u.port_or_known_default(),
        path: u.path().to_owned(),
        explicit_port: u.port(),
    })
}

/// `url::Url::set_password` with no password, on a copy of `url`.
#[verifier::external_body]
fn without_password_outside(url: &Url) -> (changed: Option<Url>)
    ensures
        opt_url_view(changed) == url_without_password(url@.href),
{
    let parsed = url::Url::parse(&url.href).ok();
    let set = parsed.and_then(|mut u| u.set_password(None).ok().map(|_| u));
    set.map(|u| Url {
        href: u.as_str().to_owned(),
        scheme: u.scheme().to_owned(),
        host: u.host_str().map(|h| h.to_owned()),
        port: u.port_or_known_default(),
        path: u.path().to_owned(),
        explicit_port: u.port(),
    })
}

/// `url::Url::set_fragment` with no fragment, on a copy of `url`.
#[verifier::external_body]
fn without_fragment_outside(url: &Url) -> (changed: Option<Url>)
    ensures
        opt_url_view(changed) == url_without_fragment(url@.href),
{
    let parsed = url::Url::parse(&url.href).ok();
    let set = parsed.map(|mut u| {
        u.set_fragment(None);
        u
    });
    set.map(|u| Url {
        href: u.as_str().to_owned(),
        scheme: u.scheme().to_owned(),
        host: u.host_str().map(|h| h.to_owned()),
        port: u.port_or_known_default(),
        path: u.path().to_owned(),
        explicit_port: u.port(),
    })
}

/// The user name and the password that `url::Url::parse` reads from `href`,
/// as `Url::username` and `Url::password` give them; nothing where `href`
/// is no URL.
pub uninterp spec fn url_credentials(href: Seq<char>) -> Option<(Seq<char>, Option<Seq<char>>)>;

/// The view of credentials that may be absent.
pub open spec fn opt_credentials_view(credentials: Option<(String, Option<String>)>) -> Option<
    (Seq<char>, Option<Seq<char>>),
> {
    match credentials {
        Some(c) => Some((c.0@, opt_text(c.1))),
        None => None,
    }
}

/// `url::Url::username` and `url::Url::password`, on the URL that
/// `url::Url::parse` reads from `href`.
#[verifier::external_body]
fn credentials_outside(href: &str) -> (credentials: Option<(String, Option<String>)>)
    ensures
        opt_credentials_view(credentials) == url_credentials(href@),
{
    let parsed = url::Url::parse(href).ok();
    parsed.map(|u| (u.username().to_owned(), u.password().map(|p| p.to_owned())))
}

/// `http::Uri`'s parser: whether it accepts `href`.
#[verifier::external_body]
fn uri_accepts_outside(href: &str) -> (ok: bool)
    ensures
        ok == uri_accepts(href@),
{
    href.parse::<http::Uri>().is_ok()
}

/// The URL that a referer header names for a request that came from the URL
/// serialised as `href`: that URL without user name, password and fragment.
pub open spec fn referer_url(url: UrlView) -> UrlView {
    let a = match url_with_username(url.href, Seq::empty()) {
        Some(v) => v,
        None => url,
    };
    let b = match url_without_password(a.href) {
        Some(v) => v,
        None => a,
    };
    match url_without_fragment(b.href) {
        Some(v) => v,
        None => b,
    }
}

impl Url {
    /// Parses an absolute URL.
    pub fn parse(input: &str) -> (url: Option<Url>)
        ensures
            opt_url_view(url) == parsed_url(input@),
    {
        parse_outside(input)
    }

    /// Resolves `reference` against this URL.
    pub fn join(&self, reference: &str) -> (url: Option<Url>)
        ensures
            opt_url_view(url) == joined_url(self@.href, reference@),
    {
        join_outside(self, reference)
    }

    /// The user name and the password that the URL carries.
    pub fn credentials(&self) -> (credentials: Option<(String, Option<String>)>)
        ensures
            opt_credentials_view(credentials) == url_credentials(self@.href),
    {
        credentials_outside(self.href.as_str())
    }

    /// A copy of this URL.
    pub fn copy(&self) -> (url: Url)
        ensures
            url@ == self@,
    {
        Url {
            href: self.href.clone(),
            scheme: self.scheme.clone(),
            host: match &self.host {
                Some(h) => Some(h.clone()),
                None => None,
            },
            port: self.port,
            path: self.path.clone(),
            explicit_port: self.explicit_port,
        }
    }

    /// The port, where the URL names one that is not the default of its
    /// scheme.
    pub fn port(&self) -> (port: Option<u16>)
        ensures
            port == self@.explicit_port,
    {
        self.explicit_port
    }

    /// The path.
    pub fn path(&self) -> (path: &str)
        ensures
            path@ == self@.path,
    {
        self.path.as_str()
    }

    /// The serialised URL.
    pub fn as_str(&self) -> (href: &str)
        ensures
            href@ == self@.href,
    {
        self.href.as_str()
    }

    /// The scheme, in lower case and without the colon.
    pub fn scheme(&self) -> (scheme: &str)
        ensures
            scheme@ == self@.scheme,
    {
        self.scheme.as_str()
    }

    /// The host, if the URL has one.
    pub fn host_str(&self) -> (host: Option<&str>)
        ensures
            host is Some == self@.host is Some,
            host matches Some(h) ==> h@ == self@.host->0,
    {
        match &self.host {
            Some(h) => Some(h.as_str()),
            None => None,
        }
    }

    /// The port, or the default port of the scheme where that is known.
    pub fn port_or_known_default(&self) -> (port: Option<u16>)
        ensures
            port == self@.port,
    {
        self.port
    }

    /// Whether the scheme is `https`.
    pub fn is_https(&self) -> (b: bool)
        ensures
            b == (self@.scheme == "https"@),
    {
        str_eq(self.scheme.as_str(), "https")
    }

    /// Whether the scheme is `http`.
    pub fn is_http(&self) -> (b: bool)
        ensures
            b == (self@.scheme == "http"@),
    {
        str_eq(self.scheme.as_str(), "http")
    }

    /// Whether the serialised URL is also accepted as a request target.
    pub fn is_valid_uri(&self) -> (ok: bool)
        ensures
            ok == uri_accepts(self@.href),
    {
        uri_accepts_outside(self.href.as_str())
    }

    /// Whether this URL and `other` have the same origin: the same scheme,
    /// host and port.
    pub fn same_origin(&self, other: &Url) -> (same: bool)
        ensures
            same == same_origin(self@, other@),
    {
        str_eq(self.scheme.as_str(), other.scheme.as_str()) && opt_string_eq(
            &self.host,
            &other.host,
        ) && self.port == other.port
    }

    /// This URL without user name, password and fragment, as a referer header
    /// names it.
    pub fn without_credentials(&self) -> (url: Url)
        ensures
            url@ == referer_url(self@),
    {
        proof {
            reveal_strlit("");
            assert(""@ =~= Seq::<char>::empty());
        }
        let a = match with_username_outside(self, "") {
            Some(u) => u,
            None => self.copy(),
        };
        let b = match without_password_outside(&a) {
            Some(u) => u,
            None => a,
        };
        match without_fragment_outside(&b) {
            Some(u) => u,
            None => b,
        }
    }
}

/// Whether two URLs have the same origin: the same scheme, host and port.
pub open spec fn same_origin(a: UrlView, b: UrlView) -> bool {
    a.scheme == b.scheme && a.host == b.host && a.port == b.port
}

/// Copies a list of URLs.
pub fn copy_urls(urls: &Vec<Url>) -> (copy: Vec<Url>)
    ensures
        copy@.len() == urls@.len(),
        forall|i: int| 0 <= i < urls@.len() ==> (#[trigger] copy@[i])@ == urls@[i]@,
{
    let mut copy: Vec<Url> = Vec::new();
    let mut i: usize = 0;
    while i < urls.len()
        invariant
            i <= urls.len(),
            copy@.len() == i,
            forall|j: int| 0 <= j < i ==> (#[trigger] copy@[j])@ == urls@[j]@,
        decreases urls.len() - i,
    {
        copy.push(urls[i].copy());
        i += 1;
    }
    copy
}

} // verus!
