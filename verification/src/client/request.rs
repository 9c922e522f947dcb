//! Requests.

use vstd::prelude::*;
use crate::header::has_room;
use crate::header::header_map_full;
use crate::text::ascii_lower;
use crate::text::lowered;
use std::time::Duration;
use crate::body::Body;
use crate::decoder::Accepts;
use crate::error::Cause;
use crate::error::Error;
use crate::error::ErrorView;
use crate::error::Kind;
use crate::header::append_header;
use crate::header::field_values;
use crate::header::header_fields;
use crate::header::headers_full;
use crate::header::invalid_value;
use crate::header::is_header_name;
use crate::header::is_header_value;
use crate::header::is_name_char;
use crate::header::new_headers;
use crate::header::no_fields;
use crate::header::MAX_HEADER_NAME_LEN;
use crate::method::Method;
use crate::method::Version;
use crate::redirect::Policy;
use crate::scheme::NetworkScheme;
use crate::url::Url;

verus! {

/// What a request asks for in place of the client's settings.
#[derive(Clone, Copy, Debug)]
pub struct RequestExtensions {
    /// The deadline on the whole exchange.
    pub total_timeout: Option<Duration>,
    /// The deadline on the gap between two chunks of the body.
    pub read_timeout: Option<Duration>,
    /// The decoders to enable.
    pub accepts: Option<Accepts>,
}

impl RequestExtensions {
    /// Nothing asked for.
    pub fn new() -> (extensions: RequestExtensions)
        ensures
            extensions.total_timeout is None,
            extensions.read_timeout is None,
            extensions.accepts is None,
    {
        RequestExtensions { total_timeout: None, read_timeout: None, accepts: None }
    }
}

/// A request.
#[derive(Debug)]
pub struct Request {
    pub method: Method,
    pub url: Url,
    pub headers: http::HeaderMap,
    pub headers_order: Option<Vec<String>>,
    pub body: Option<Body>,
    pub version: Option<Version>,
    pub extensions: RequestExtensions,
    pub redirect: Option<Policy>,
    pub allow_compression: bool,
    pub network_scheme: NetworkScheme,
}

impl Request {
    /// A request for `url` without headers or body, which leaves every
    /// choice to the client.
    pub fn new(method: Method, url: Url) -> (request: Request)
        ensures
            request.method == method,
            request.url == url,
            header_fields(request.headers) == no_fields(),
            request.headers_order is None,
            request.body is None,
            request.version is None,
            request.extensions.total_timeout is None,
            request.extensions.read_timeout is None,
            request.extensions.accepts is None,
            request.redirect is None,
            request.allow_compression,
            request.network_scheme@ is Default,
    {
        Request {
            method,
            url,
            headers: new_headers(),
            headers_order: None,
            body: None,
            version: None,
            extensions: RequestExtensions::new(),
            redirect: None,
            allow_compression: true,
            network_scheme: NetworkScheme::Default,
        }
    }
}

/// Checks that `name` is a header name in normal form.
pub fn valid_header_name(name: &str) -> (ok: bool)
    ensures
        ok == is_header_name(name@),
{
    let n = name.unicode_len();
    if n == 0 || n > MAX_HEADER_NAME_LEN {
        return false;
    }
    let mut i: usize = 0;
    while i < n
        invariant
            i <= n,
            n == name@.len(),
            forall|k: int| 0 <= k < i ==> is_name_char(#[trigger] name@[k]),
        decreases n - i,
    {
        let c = name.get_char(i);
        let ok = ('a' <= c && c <= 'z') || ('0' <= c && c <= '9') || c == '!' || c == '"' || c
            == '#' || c
            == '$' || c == '%' || c == '&' || c == '\'' || c == '*' || c == '+' || c == '-' || c
            == '.' || c == '^' || c == '_' || c == '`' || c == '|' || c == '~';
        if !ok {
            return false;
        }
        i += 1;
    }
    true
}

/// Whether `name` is a header name as a request may give it once it is in
/// lower case: a header name without a double quote.
pub open spec fn is_token_name(name: Seq<char>) -> bool {
    is_header_name(name) && forall|i: int| 0 <= i < name.len() ==> #[trigger] name[i] != '"'
}

/// Checks that `name` is a header name without a double quote.
pub fn valid_token_name(name: &str) -> (ok: bool)
    ensures
        ok == is_token_name(name@),
{
    if !valid_header_name(name) {
        return false;
    }
    let n = name.unicode_len();
    let mut i: usize = 0;
    while i < n
        invariant
            i <= n,
            n == name@.len(),
            forall|k: int| 0 <= k < i ==> #[trigger] name@[k] != '"',
        decreases n - i,
    {
        if name.get_char(i) == '"' {
            return false;
        }
        i += 1;
    }
    true
}

/// Whether `after` is what adding the header `name` with `value` makes of
/// the request `before`.
///
/// The name counts in lower case. A name that is no header name then, or
/// holds a double quote, is refused, and so is a value that is no header
/// value. Otherwise the value stands behind those the request held under
/// the name, and nothing else of the request changes; this fails exactly
/// when the header map is too full.
pub open spec fn header_added(
    before: Request,
    name: Seq<char>,
    value: Seq<u8>,
    after: Result<Request, Error>,
) -> bool {
    let lower = lowered(name);
    if !is_token_name(lower) {
        after matches Err(e) && e@ == invalid_name()
    } else if !is_header_value(value) {
        after matches Err(e) && e@ == invalid_value()
    } else {
        match after {
            Ok(r) => !header_map_full(before.headers) && r == (Request {
                headers: r.headers,
                ..before
            }) && header_fields(r.headers) == header_fields(before.headers).insert(
                lower,
                field_values(before.headers, lower).push(value),
            ),
            Err(e) => header_map_full(before.headers) && e@ == headers_full() && !has_room(
                header_fields(before.headers),
                0,
            ),
        }
    }
}

/// The error for a header name that is not in normal form.
pub open spec fn invalid_name() -> ErrorView {
    ErrorView { kind: Kind::Builder, cause: Cause::InvalidHeaderName, url: None, target: None }
}

/// Collects the parts of a request. The first invalid part turns the
/// builder into an error, which later parts leave alone.
#[derive(Debug)]
pub struct RequestBuilder {
    pub request: Result<Request, Error>,
}

impl RequestBuilder {
    /// A builder for `request`.
    pub fn new(request: Result<Request, Error>) -> (builder: RequestBuilder)
        ensures
            builder.request == request,
    {
        RequestBuilder { request }
    }

    /// Adds a header behind those of the same name. The name may be
    /// written with upper-case letters; it counts in lower case.
    ///
    /// The builder turns into an error where `name` is no header name,
    /// where `value` is no header value, or where the header map is too
    /// full, which a map that has room never is.
    pub fn header(self, name: &str, value: &[u8]) -> (builder: RequestBuilder)
        ensures
            match self.request {
                Ok(r) => header_added(r, name@, value@, builder.request),
                Err(_) => builder.request == self.request,
            },
    {
        match self.request {
            Ok(request) => {
                let lower = ascii_lower(name);
                if !valid_token_name(lower.as_str()) {
                    return RequestBuilder {
                        request: Err(Error::builder(Cause::InvalidHeaderName)),
                    };
                }
                let mut request = request;
                match append_header(&mut request.headers, lower.as_str(), value) {
                    Ok(_) => RequestBuilder { request: Ok(request) },
                    Err(e) => RequestBuilder { request: Err(e) },
                }
            },
            Err(e) => RequestBuilder { request: Err(e) },
        }
    }

    /// Sets the body.
    pub fn body(self, body: Body) -> (builder: RequestBuilder)
        ensures
            match self.request {
                Ok(r) => builder.request == Ok::<Request, Error>(
                    Request { body: Some(body), ..r },
                ),
                Err(_) => builder.request == self.request,
            },
    {
        match self.request {
            Ok(request) => {
                let mut request = request;
                request.body = Some(body);
                RequestBuilder { request: Ok(request) }
            },
            Err(e) => RequestBuilder { request: Err(e) },
        }
    }

    /// Sets the deadline on the whole exchange.
    pub fn timeout(self, timeout: Duration) -> (builder: RequestBuilder)
        ensures
            match self.request {
                Ok(r) => builder.request == Ok::<Request, Error>(
                    Request {
                        extensions: RequestExtensions {
                            total_timeout: Some(timeout),
                            ..r.extensions
                        },
                        ..r
                    },
                ),
                Err(_) => builder.request == self.request,
            },
    {
        match self.request {
            Ok(request) => {
                let mut request = request;
                request.extensions.total_timeout = Some(timeout);
                RequestBuilder { request: Ok(request) }
            },
            Err(e) => RequestBuilder { request: Err(e) },
        }
    }

    /// Sets the deadline on the gap between two chunks of the body.
    pub fn read_timeout(self, timeout: Duration) -> (builder: RequestBuilder)
        ensures
            match self.request {
                Ok(r) => builder.request == Ok::<Request, Error>(
                    Request {
                        extensions: RequestExtensions { read_timeout: Some(timeout), ..r.extensions },
                        ..r
                    },
                ),
                Err(_) => builder.request == self.request,
            },
    {
        match self.request {
            Ok(request) => {
                let mut request = request;
                request.extensions.read_timeout = Some(timeout);
                RequestBuilder { request: Ok(request) }
            },
            Err(e) => RequestBuilder { request: Err(e) },
        }
    }

    /// Sets the redirect policy for this request.
    pub fn redirect(self, policy: Policy) -> (builder: RequestBuilder)
        ensures
            match self.request {
                Ok(r) => builder.request == Ok::<Request, Error>(
                    Request { redirect: Some(policy), ..r },
                ),
                Err(_) => builder.request == self.request,
            },
    {
        match self.request {
            Ok(request) => {
                let mut request = request;
                request.redirect = Some(policy);
                RequestBuilder { request: Ok(request) }
            },
            Err(e) => RequestBuilder { request: Err(e) },
        }
    }

    /// Sets the route for this request.
    pub fn network_scheme(self, network_scheme: NetworkScheme) -> (builder: RequestBuilder)
        ensures
            match self.request {
                Ok(r) => builder.request == Ok::<Request, Error>(
                    Request { network_scheme, ..r },
                ),
                Err(_) => builder.request == self.request,
            },
    {
        match self.request {
            Ok(request) => {
                let mut request = request;
                request.network_scheme = network_scheme;
                RequestBuilder { request: Ok(request) }
            },
            Err(e) => RequestBuilder { request: Err(e) },
        }
    }

    /// The request, or the first error met while it was put together.
    pub fn build(self) -> (request: Result<Request, Error>)
        ensures
            request == self.request,
    {
        self.request
    }
}

} // verus!
