//! A request in flight.
//!
//! A [`PendingRequest`] is the record of one request between its first
//! dispatch and its end: method, URL, headers, the body kept for sending
//! again, the URLs requested so far, and the retry counter. The caller
//! performs each exchange and reports how it ended; the record answers with
//! the next [`Step`]: another dispatch (a redirect hop or a retry), the
//! response to hand out, or the error to end with.

use vstd::prelude::*;
use std::sync::Arc;
use std::time::Duration;
use vstd::utf8::decode_utf8;
use vstd::utf8::encode_utf8;
use vstd::utf8::valid_utf8;
use vstd::string::StringSliceAdditionalSpecFns;
use crate::body::Body;
use crate::body::BodyView;
use crate::body::body_from_snapshot;
use crate::body::resend_body;
use crate::body::snapshot_view;
use crate::client::request::Request;
use crate::client::request::RequestExtensions;
use crate::client::state::ClientRef;
use crate::cookie::CookieStore;
use crate::cookie::add_cookie_values;
use crate::cookie::with_cookies;
use crate::cookie::cookies_to_offer;
use crate::decoder::Accepts;
use crate::error::Cause;
use crate::error::Error;
use crate::error::ErrorView;
use crate::error::Kind;
use crate::header::CONTENT_ENCODING;
use crate::header::CONTENT_LENGTH;
use crate::header::CONTENT_TYPE;
use crate::header::COOKIE;
use crate::header::LOCATION;
use crate::header::REFERER;
use crate::header::TRANSFER_ENCODING;
use crate::header::contains_header;
use crate::header::copy_headers;
use crate::header::copy_opt_names;
use crate::header::first_value;
use crate::header::all_header_values;
use crate::header::has_field;
use crate::header::has_room;
use crate::header::lemma_room_after_insert;
use crate::header::lemma_room_after_remove;
use crate::header::value_bytes;
use crate::header::header_fields;
use crate::header::headers_full;
use crate::header::insert_header;
use crate::header::is_header_value;
use crate::header::lemma_known_names;
use crate::header::opt_name_texts;
use crate::header::remove_header;
use crate::header::valid_header_value;
use crate::method::Method;
use crate::method::Version;
use crate::redirect::ActionKind;
use crate::redirect::Attempt;
use crate::redirect::Policy;
use crate::redirect::crosses_origin;
use crate::redirect::without_sensitive;
use crate::retry::TransportError;
use crate::retry::is_retryable_error;
use crate::retry::retryable_chain;
use crate::scheme::NetworkScheme;
use crate::status::StatusCode;
use crate::text::utf8_str;
use crate::url::Url;
use crate::url::UrlView;
use crate::url::joined_url;
use crate::url::referer_url;
use crate::url::uri_accepts;

verus! {

/// One request as it is handed to the dispatcher.
#[derive(Debug)]
pub struct InnerRequest {
    pub uri: Url,
    pub method: Method,
    pub headers: http::HeaderMap,
    pub headers_order: Option<Vec<String>>,
    pub version: Option<Version>,
    pub extensions: RequestExtensions,
    pub network_scheme: NetworkScheme,
    pub body: Body,
}

/// What accompanies a response that is handed to the caller.
#[derive(Debug)]
pub struct ResponseParts {
    /// The URL the response came from.
    pub url: Url,
    /// The decoders to apply to the body.
    pub accepts: Accepts,
    /// The deadline on the whole exchange, which goes on while the body is
    /// read.
    pub total_timeout: Option<Duration>,
    /// The deadline on the gap between two chunks of the body.
    pub read_timeout: Option<Duration>,
}

/// What the caller does next.
#[derive(Debug)]
pub enum Step {
    /// Send this request on a freshly acquired connection and report how
    /// the exchange ended.
    Dispatch(InnerRequest),
    /// Hand the last response to the caller of the request.
    Respond(ResponseParts),
    /// Ask the redirect policy of the caller for its verdict on this hop,
    /// and hand the verdict to [`PendingRequest::judge`] together with the
    /// URL of the hop.
    Judge(Attempt),
    /// End the request with this error.
    Fail(Error),
}

/// How an exchange ended, or what interrupted it.
#[derive(Debug)]
pub enum Event {
    /// The deadline on the whole exchange passed.
    TotalTimeout,
    /// The deadline on the gap between two chunks passed.
    ReadTimeout,
    /// The transport failed.
    Failed(TransportError),
    /// A response head arrived.
    Response { status: StatusCode, headers: http::HeaderMap },
}

/// A request in flight.
#[derive(Debug)]
pub struct PendingRequest<C: CookieStore, L> {
    pub method: Method,
    pub url: Url,
    pub headers: http::HeaderMap,
    pub headers_order: Option<Vec<String>>,
    /// The body kept for sending again: absent for a request without body,
    /// empty for a body that can be sent once only.
    pub body: Option<Option<bytes::Bytes>>,
    pub version: Option<Version>,
    pub extensions: RequestExtensions,
    /// The URLs requested before the current one, oldest first.
    pub urls: Vec<Url>,
    pub http2_retry_count: usize,
    pub http2_max_retry_count: usize,
    pub redirect: Option<Policy>,
    pub network_scheme: NetworkScheme,
    /// The state of the client when the request began.
    pub client: Arc<ClientRef<C, L>>,
    pub total_timeout: Option<Duration>,
    pub read_timeout: Option<Duration>,
    /// Whether the `Cookie` headers of the request came from the cookie
    /// store.
    pub store_cookies: bool,
}

/// Whether a response with `status` is a redirect that the request may
/// follow: 301, 302 and 303 always, 307 and 308 unless the request has a
/// body that cannot be sent again.
pub open spec fn may_redirect(status: StatusCode, body: Option<Option<Seq<u8>>>) -> bool {
    status.rewrites_to_get() || (status.preserves_method() && body != Some(None::<Seq<u8>>))
}

/// The method of the request that follows a redirect with `status`: GET
/// after 301, 302 and 303 unless the method was HEAD, else unchanged.
pub open spec fn next_method(status: StatusCode, method: Method) -> Method {
    if status.rewrites_to_get() && !method.is_get_or_head() {
        Method::Get
    } else {
        method
    }
}

/// The body kept after a redirect with `status`: none after 301, 302 and
/// 303, else unchanged.
pub open spec fn next_body(status: StatusCode, body: Option<Option<bytes::Bytes>>) -> Option<
    Option<bytes::Bytes>,
> {
    if status.rewrites_to_get() {
        None
    } else {
        body
    }
}

/// The fields left when the headers that describe a body are removed.
pub open spec fn without_content(fields: Map<Seq<char>, Seq<Seq<u8>>>) -> Map<
    Seq<char>,
    Seq<Seq<u8>>,
> {
    fields.remove(TRANSFER_ENCODING@).remove(CONTENT_ENCODING@).remove(CONTENT_TYPE@).remove(
        CONTENT_LENGTH@,
    )
}

/// The request headers after a redirect with `status`: without the headers
/// that describe a body after 301, 302 and 303, else unchanged.
pub open spec fn next_fields(status: StatusCode, fields: Map<Seq<char>, Seq<Seq<u8>>>) -> Map<
    Seq<char>,
    Seq<Seq<u8>>,
> {
    if status.rewrites_to_get() {
        without_content(fields)
    } else {
        fields
    }
}

/// The URL that the first `Location` value of a response resolves to
/// against `base`; nothing where there is no such value, where it is not
/// UTF-8, where it does not resolve, or where the result is no request
/// target.
pub open spec fn resolved_location(base: UrlView, fields: Map<Seq<char>, Seq<Seq<u8>>>) -> Option<
    UrlView,
> {
    if !fields.dom().contains(LOCATION@) || fields[LOCATION@].len() == 0 {
        None
    } else {
        let value = fields[LOCATION@][0];
        if !valid_utf8(value) {
            None
        } else {
            match joined_url(base.href, decode_utf8(value)) {
                Some(u) => if uri_accepts(u.href) {
                    Some(u)
                } else {
                    None
                },
                None => None,
            }
        }
    }
}

/// The value of the `Referer` header for a request to `next` that follows
/// one to `previous`: the previous URL without credentials and fragment;
/// nothing on the way from `https` to `http`, or where that URL is no
/// header value.
pub open spec fn referer_value(next: UrlView, previous: UrlView) -> Option<Seq<u8>> {
    if next.scheme == "http"@ && previous.scheme == "https"@ {
        None
    } else {
        let bytes = encode_utf8(referer_url(previous).href);
        if is_header_value(bytes) {
            Some(bytes)
        } else {
            None
        }
    }
}

/// Builds the value of the `Referer` header.
pub fn make_referer(next: &Url, previous: &Url) -> (referer: Option<Vec<u8>>)
    ensures
        referer is Some == referer_value(next@, previous@) is Some,
        referer matches Some(v) ==> Some(v@) == referer_value(next@, previous@),
{
    if next.is_http() && previous.is_https() {
        return None;
    }
    let referer = previous.without_credentials();
    let bytes = referer.as_str().as_bytes();
    if valid_header_value(bytes) {
        Some(crate::text::copy_bytes(bytes))
    } else {
        None
    }
}

/// Resolves the first `Location` value of a response against `base`.
pub fn resolve_location(base: &Url, headers: &http::HeaderMap) -> (loc: Option<Url>)
    ensures
        crate::url::opt_url_view(loc) == resolved_location(base@, header_fields(*headers)),
{
    proof {
        lemma_known_names();
    }
    match first_value(headers, LOCATION) {
        Some(value) => match utf8_str(value.as_slice()) {
            Some(text) => match base.join(text) {
                Some(url) => if url.is_valid_uri() {
                    Some(url)
                } else {
                    None
                },
                None => None,
            },
            None => None,
        },
        None => None,
    }
}

/// The error a request ends with when a deadline passes.
pub open spec fn timed_out(url: UrlView) -> ErrorView {
    ErrorView { kind: Kind::TimedOut, cause: Cause::Unspecified, url: Some(url), target: None }
}

/// The error a request ends with when the transport fails.
pub open spec fn transport_failed(url: UrlView) -> ErrorView {
    ErrorView { kind: Kind::Request, cause: Cause::Transport, url: Some(url), target: None }
}

/// The error a request ends with when the header map cannot grow.
pub open spec fn headers_full_at(url: UrlView) -> ErrorView {
    ErrorView { kind: Kind::Builder, cause: Cause::HeadersFull, url: Some(url), target: None }
}

/// Whether a failed exchange is answered by sending the request again: the
/// failure is safe to retry, the body can be sent again, a retry is left,
/// and the URL is a request target.
pub open spec fn retries<C: CookieStore, L>(state: PendingRequest<C, L>, err: TransportError) -> bool {
    &&& retryable_chain(err.chain@)
    &&& snapshot_view(state.body) != Some(None::<Seq<u8>>)
    &&& state.http2_retry_count < state.http2_max_retry_count
    &&& uri_accepts(state.url@.href)
}

/// Whether `request` is the request that `state` sends: its URL, method,
/// headers and the rest as the record has them, and the body as kept.
pub open spec fn sends<C: CookieStore, L>(state: PendingRequest<C, L>, request: InnerRequest) -> bool {
    &&& request.uri@ == state.url@
    &&& request.method == state.method
    &&& header_fields(request.headers) == header_fields(state.headers)
    &&& opt_name_texts(request.headers_order) == opt_name_texts(state.headers_order)
    &&& request.version == state.version
    &&& request.extensions == state.extensions
    &&& request.network_scheme@ == state.network_scheme@
    &&& request.body@ == resend_body(snapshot_view(state.body))
}

/// Whether `parts` accompany the response that `state` hands out.
pub open spec fn hands_out<C: CookieStore, L>(state: PendingRequest<C, L>, parts: ResponseParts)
    -> bool {
    &&& parts.url@ == state.url@
    &&& parts.accepts == state.client.accepts
    &&& parts.total_timeout == state.total_timeout
    &&& parts.read_timeout == state.read_timeout
}

/// The policy that judges the hops of a request: its own where it has one,
/// else the client's.
pub open spec fn policy_of<C: CookieStore, L>(state: PendingRequest<C, L>) -> Policy {
    match state.redirect {
        Some(p) => p,
        None => state.client.redirect,
    }
}

/// Whether a hop to `loc` is refused, and with what error: a scheme other
/// than `http` and `https` is refused as a bad URL, a scheme other than
/// `https` is refused as a redirect where the client requests `https`
/// only, and a URL that is no request target is refused as one.
pub open spec fn refused_hop<C: CookieStore, L>(state: PendingRequest<C, L>, loc: UrlView) -> Option<
    ErrorView,
> {
    if loc.scheme != "http"@ && loc.scheme != "https"@ {
        Some(ErrorView { kind: Kind::Url, cause: Cause::BadScheme, url: Some(loc), target: None })
    } else if state.client.https_only && loc.scheme != "https"@ {
        Some(
            ErrorView {
                kind: Kind::Redirect,
                cause: Cause::BadScheme,
                url: Some(loc),
                target: Some(loc),
            },
        )
    } else if !uri_accepts(loc.href) {
        Some(ErrorView { kind: Kind::Url, cause: Cause::BadUri, url: Some(loc), target: None })
    } else {
        None
    }
}

/// The headers carried over a hop to `loc`, before the cookie store is
/// asked: the cookies that came from the store are left behind, and so is,
/// on the way to another origin, everything that must not travel there.
pub open spec fn carried_fields<C: CookieStore, L>(state: PendingRequest<C, L>, loc: UrlView) -> Map<
    Seq<char>,
    Seq<Seq<u8>>,
> {
    let kept = if state.store_cookies {
        header_fields(state.headers).remove(COOKIE@)
    } else {
        header_fields(state.headers)
    };
    if crosses_origin(loc, state.urls@) {
        without_sensitive(kept)
    } else {
        kept
    }
}

/// Whether the cookie store is asked on a hop to `loc`: one is attached,
/// and the headers carried over name no cookie.
pub open spec fn asks_store<C: CookieStore, L>(state: PendingRequest<C, L>, loc: UrlView) -> bool {
    state.client.cookie_store is Some && !carried_fields(state, loc).dom().contains(COOKIE@)
}

/// Whether the cookie store is asked on a hop to `loc`: the hop is not
/// refused, and the store is due.
pub open spec fn asked_on_hop<C: CookieStore, L>(state: PendingRequest<C, L>, loc: UrlView) -> bool {
    refused_hop(state, loc) is None && asks_store(state, loc)
}

/// The values of an answer of the cookie store; none where it answered
/// with nothing.
pub open spec fn answer_bytes(answer: Option<Vec<Vec<u8>>>) -> Seq<Seq<u8>> {
    match answer {
        Some(values) => value_bytes(values@),
        None => Seq::empty(),
    }
}

/// Whether `after` and `step` are what following a hop to `loc` makes of
/// `before`, where the cookie store, if it is asked, answers with `answer`.
///
/// A hop that is refused ends the request and leaves the record as it is.
/// Otherwise the record moves to `loc`, keeps the headers that are carried
/// over, and the next request is sent. Where the store is asked, its
/// answer is added as `Cookie` headers first; the one failure there is a
/// header map that is too full, which never comes where the answer adds
/// nothing or the map has room for a name.
pub open spec fn follows_with<C: CookieStore, L>(
    before: PendingRequest<C, L>,
    after: PendingRequest<C, L>,
    loc: Url,
    answer: Seq<Seq<u8>>,
    step: Step,
) -> bool {
    let carried = carried_fields(before, loc@);
    match refused_hop(before, loc@) {
        Some(e) => after == before && (step matches Step::Fail(err) && err@ == e),
        None => {
            &&& after == (PendingRequest {
                url: loc,
                headers: after.headers,
                store_cookies: after.store_cookies,
                ..before
            })
            &&& after.store_cookies == (asked_on_hop(before, loc@) && header_fields(
                after.headers,
            ).dom().contains(COOKIE@))
            &&& if !asks_store(before, loc@) {
                header_fields(after.headers) == carried && (step matches Step::Dispatch(request)
                    && sends(after, request))
            } else {
                match step {
                    Step::Dispatch(request) => header_fields(after.headers) == with_cookies(
                        carried,
                        answer,
                    ) && sends(after, request),
                    Step::Fail(err) => err@ == headers_full_at(loc@) && answer.len() > 0
                        && all_header_values(answer) && !has_room(carried, 1) && header_fields(
                        after.headers,
                    ).remove(
                        COOKIE@,
                    ) == carried.remove(COOKIE@),
                    _ => false,
                }
            }
        },
    }
}

/// Whether `after` and `step` are what following a hop to `loc` makes of
/// `before`, whatever the cookie store answers.
pub open spec fn follows<C: CookieStore, L>(
    before: PendingRequest<C, L>,
    after: PendingRequest<C, L>,
    loc: Url,
    step: Step,
) -> bool {
    exists|answer: Seq<Seq<u8>>| #[trigger] follows_with(before, after, loc, answer, step)
}

/// Whether `after` and `step` are what the verdict `action` on a hop to
/// `loc` makes of `before`: the hop is followed, or the response is handed
/// out, or the request ends with a redirect error on the URL that was
/// redirected, which names `loc` as the target.
pub open spec fn judged<C: CookieStore, L>(
    before: PendingRequest<C, L>,
    after: PendingRequest<C, L>,
    loc: Url,
    action: ActionKind,
    step: Step,
) -> bool {
    match action {
        ActionKind::Follow => follows(before, after, loc, step),
        ActionKind::Stop => after == before && (step matches Step::Respond(parts) && hands_out(
            before,
            parts,
        )),
        ActionKind::Error(cause) => after == before && (step matches Step::Fail(err) && err@ == (
        ErrorView { kind: Kind::Redirect, cause, url: Some(before.url@), target: Some(loc@) })),
    }
}

impl<C: CookieStore, L> PendingRequest<C, L> {
    /// Whether the record is in order: the retry counter is within its
    /// bound, and the URL is a request target.
    pub open spec fn wf(&self) -> bool {
        self.http2_retry_count <= self.http2_max_retry_count && uri_accepts(self.url@.href)
    }

    /// The request the record sends now.
    pub fn request(&self) -> (request: InnerRequest)
        ensures
            sends(*self, request),
    {
        InnerRequest {
            uri: self.url.copy(),
            method: self.method,
            headers: copy_headers(&self.headers),
            headers_order: copy_opt_names(&self.headers_order),
            version: self.version,
            extensions: self.extensions,
            network_scheme: self.network_scheme.copy(),
            body: body_from_snapshot(&self.body),
        }
    }

    /// What accompanies the response the record hands out.
    pub fn response(&self) -> (parts: ResponseParts)
        ensures
            hands_out(*self, parts),
    {
        ResponseParts {
            url: self.url.copy(),
            accepts: self.client.accepts,
            total_timeout: self.total_timeout,
            read_timeout: self.read_timeout,
        }
    }

    /// Decides whether a failed exchange is answered by sending the request
    /// again, and with what. A retry uses up one of the retries that are
    /// left; the record is otherwise unchanged.
    pub fn retry_error(&mut self, err: &TransportError) -> (again: Option<InnerRequest>)
        requires
            old(self).wf(),
        ensures
            final(self).wf(),
            again is Some == retries(*old(self), *err),
            again matches Some(request) ==> sends(*old(self), request) && *final(self) == (
            PendingRequest { http2_retry_count: (old(self).http2_retry_count + 1) as usize, ..*old(
                self,
            ) }),
            again is None ==> *final(self) == *old(self),
    {
        if !is_retryable_error(err) {
            return None;
        }
        match &self.body {
            Some(None) => {
                return None;
            },
            _ => {},
        }
        if self.http2_retry_count >= self.http2_max_retry_count {
            return None;
        }
        if !self.url.is_valid_uri() {
            return None;
        }
        let request = self.request();
        self.http2_retry_count = self.http2_retry_count + 1;
        Some(request)
    }

    /// Whether the cookie store is asked on a hop to `loc`.
    pub fn asks_store_on_hop(&self, loc: &Url) -> (asks: bool)
        ensures
            asks == asked_on_hop(*self, loc@),
    {
        proof {
            lemma_known_names();
            crate::header::lemma_redirect_names_differ();
        }
        if !loc.is_http() && !loc.is_https() {
            return false;
        }
        if self.client.https_only && !loc.is_https() {
            return false;
        }
        if !loc.is_valid_uri() {
            return false;
        }
        match &self.client.cookie_store {
            Some(_) => {},
            None => {
                return false;
            },
        }
        if self.store_cookies {
            return true;
        }
        if self.urls.len() > 0 && !loc.same_origin(&self.urls[self.urls.len() - 1]) {
            return true;
        }
        !contains_header(&self.headers, COOKIE)
    }

    /// Follows a hop to `loc`.
    ///
    /// The hop is refused for its scheme, or taken: then the record moves
    /// to `loc`, leaves behind the headers that are not carried over, asks
    /// the cookie store where that is due, and sends the next request with
    /// the answer of the store as [`PendingRequest::follow_with`] adds it.
    pub fn follow(&mut self, loc: Url) -> (step: Step)
        ensures
            follows(*old(self), *final(self), loc, step),
    {
        let answer = if self.asks_store_on_hop(&loc) {
            match &self.client.cookie_store {
                Some(store) => store.cookies(&loc),
                None => None,
            }
        } else {
            None
        };
        let step = self.follow_with(loc, answer);
        proof {
            assert(follows_with(*old(self), *self, loc, answer_bytes(answer), step));
        }
        step
    }

    /// Follows a hop to `loc`, given the answer of the cookie store for
    /// `loc`. The answer counts only where the store is asked.
    pub fn follow_with(&mut self, loc: Url, answer: Option<Vec<Vec<u8>>>) -> (step: Step)
        ensures
            follows_with(*old(self), *final(self), loc, answer_bytes(answer), step),
    {
        if !loc.is_http() && !loc.is_https() {
            return Step::Fail(Error::url_bad_scheme(loc));
        }
        if self.client.https_only && !loc.is_https() {
            let target = loc.copy();
            return Step::Fail(Error::redirect(Cause::BadScheme, loc, target));
        }
        if !loc.is_valid_uri() {
            return Step::Fail(Error::url_bad_uri(loc));
        }
        proof {
            lemma_known_names();
        }
        if self.store_cookies {
            remove_header(&mut self.headers, COOKIE);
            self.store_cookies = false;
        }
        Policy::remove_sensitive_headers(&mut self.headers, &loc, &self.urls);
        let ghost carried = header_fields(self.headers);
        self.url = loc;
        let asks = match &self.client.cookie_store {
            Some(_) => !contains_header(&self.headers, COOKIE),
            None => false,
        };
        if asks {
            match answer {
                Some(values) => {
                    let done = add_cookie_values(&mut self.headers, &values);
                    self.store_cookies = contains_header(&self.headers, COOKIE);
                    match done {
                        Ok(_) => {},
                        Err(_) => {
                            return Step::Fail(
                                Error::builder(Cause::HeadersFull).with_url(self.url.copy()),
                            );
                        },
                    }
                },
                None => {
                    proof {
                        assert(with_cookies(carried, Seq::<Seq<u8>>::empty()) == carried);
                    }
                },
            }
        }
        Step::Dispatch(self.request())
    }

    /// Acts on the verdict of a redirect policy on a hop to `loc`.
    pub fn judge(&mut self, loc: Url, action: ActionKind) -> (step: Step)
        ensures
            judged(*old(self), *final(self), loc, action, step),
    {
        match action {
            ActionKind::Follow => self.follow(loc),
            ActionKind::Stop => Step::Respond(self.response()),
            ActionKind::Error(cause) => Step::Fail(Error::redirect(cause, self.url.copy(), loc)),
        }
    }
}

/// Whether two records agree in everything that a response cannot change:
/// the client's state, the choices of the request, the counters and the
/// deadlines.
pub open spec fn same_request<C: CookieStore, L>(a: PendingRequest<C, L>, b: PendingRequest<C, L>) -> bool {
    &&& a.client == b.client
    &&& a.headers_order == b.headers_order
    &&& a.version == b.version
    &&& a.extensions == b.extensions
    &&& a.http2_retry_count == b.http2_retry_count
    &&& a.http2_max_retry_count == b.http2_max_retry_count
    &&& a.redirect == b.redirect
    &&& a.network_scheme == b.network_scheme
    &&& a.total_timeout == b.total_timeout
    &&& a.read_timeout == b.read_timeout
    &&& a.store_cookies == b.store_cookies
}

/// Whether `after` is `before` as a redirect with `status` rewrites it,
/// still at the URL that was redirected: method, kept body and headers are
/// as such a redirect leaves them.
pub open spec fn rewritten<C: CookieStore, L>(
    before: PendingRequest<C, L>,
    after: PendingRequest<C, L>,
    status: StatusCode,
) -> bool {
    &&& same_request(before, after)
    &&& after.url == before.url
    &&& after.urls == before.urls
    &&& after.method == next_method(status, before.method)
    &&& after.body == next_body(status, before.body)
    &&& header_fields(after.headers) == next_fields(status, header_fields(before.headers))
}

/// Whether a `Referer` header is set on a hop from `previous` to `next`.
pub open spec fn sets_referer<C: CookieStore, L>(
    state: PendingRequest<C, L>,
    next: UrlView,
    previous: UrlView,
) -> bool {
    state.client.referer && referer_value(next, previous) is Some
}

/// Whether `mid` is `before` readied for the hop to `loc` that a redirect
/// with `status` asks for: rewritten as the status demands, with the
/// `Referer` header where one is due, and with the redirected URL added to
/// the URLs requested so far.
pub open spec fn readied<C: CookieStore, L>(
    before: PendingRequest<C, L>,
    mid: PendingRequest<C, L>,
    status: StatusCode,
    loc: UrlView,
) -> bool {
    &&& same_request(before, mid)
    &&& mid.url == before.url
    &&& mid.urls@.len() == before.urls@.len() + 1
    &&& mid.urls@.drop_last() == before.urls@
    &&& mid.urls@.last()@ == before.url@
    &&& mid.method == next_method(status, before.method)
    &&& mid.body == next_body(status, before.body)
    &&& header_fields(mid.headers) == if sets_referer(before, loc, before.url@) {
        next_fields(status, header_fields(before.headers)).insert(
            REFERER@,
            seq![referer_value(loc, before.url@)->0],
        )
    } else {
        next_fields(status, header_fields(before.headers))
    }
}

/// Whether `attempt` describes the hop to `loc` that a redirect with
/// `status` asks of the record `state`, which is readied for it.
pub open spec fn describes<C: CookieStore, L>(
    state: PendingRequest<C, L>,
    attempt: Attempt,
    loc: Url,
    status: StatusCode,
    previous_method: Method,
) -> bool {
    &&& attempt.status == status
    &&& attempt.next_method == state.method
    &&& attempt.next == loc
    &&& attempt.previous_method == previous_method
    &&& attempt.previous@.len() == state.urls@.len()
    &&& forall|i: int|
        0 <= i < state.urls@.len() ==> (#[trigger] attempt.previous@[i])@ == state.urls@[i]@
}

/// Whether `after` and `step` are what asking the redirect policy makes of
/// the record `before`, which is readied for the hop to `loc`: where the
/// policy gives a verdict, what follows is as the verdict says; where the
/// policy is the caller's own, the hop is handed to the caller and the
/// record waits as it is.
pub open spec fn referred<C: CookieStore, L>(
    before: PendingRequest<C, L>,
    after: PendingRequest<C, L>,
    loc: Url,
    status: StatusCode,
    previous_method: Method,
    verdict: Option<ActionKind>,
    step: Step,
) -> bool {
    match verdict {
        Some(action) => judged(before, after, loc, action, step),
        None => after == before && (step matches Step::Judge(attempt) && describes(
            before,
            attempt,
            loc,
            status,
            previous_method,
        )),
    }
}

/// Whether `after` and `step` are what a response with `status` and the
/// given header fields makes of `before`.
///
/// A response that is no redirect the request may follow is handed out. So
/// is a redirect without a usable `Location`, after the record was
/// rewritten as the status demands. Otherwise the record is readied for the
/// hop and the redirect policy is asked; what follows is as its verdict
/// says, and a policy of the caller's own has the hop handed to the caller.
/// The one other end is a header map that is too full to take the
/// `Referer` header, which a map that has room never is.
pub open spec fn responded<C: CookieStore, L>(
    before: PendingRequest<C, L>,
    after: PendingRequest<C, L>,
    status: StatusCode,
    fields: Map<Seq<char>, Seq<Seq<u8>>>,
    step: Step,
) -> bool {
    if !may_redirect(status, snapshot_view(before.body)) {
        after == before && (step matches Step::Respond(parts) && hands_out(before, parts))
    } else {
        match resolved_location(before.url@, fields) {
            None => rewritten(before, after, status) && (step matches Step::Respond(parts)
                && hands_out(after, parts)),
            Some(l) => {
                ||| (sets_referer(before, l, before.url@) && rewritten(before, after, status)
                    && !has_room(header_fields(after.headers), 0) && (step matches Step::Fail(
                    err,
                ) && err@ == headers_full_at(before.url@)))
                ||| exists|mid: PendingRequest<C, L>, loc: Url|
                    loc@ == l && readied(before, mid, status, l) && #[trigger] referred(
                        mid,
                        after,
                        loc,
                        status,
                        before.method,
                        policy_of(before).verdict(mid.urls@.len()),
                        step,
                    )
            },
        }
    }
}

/// Whether `after` and `step` are what `event` makes of `before`.
///
/// A deadline that passed ends the request with a timeout on its URL. A
/// transport failure is answered by sending the request again where that
/// is safe and a retry is left, and ends the request otherwise. A response
/// is dealt with as [`responded`] says.
pub open spec fn polled<C: CookieStore, L>(
    before: PendingRequest<C, L>,
    after: PendingRequest<C, L>,
    event: Event,
    step: Step,
) -> bool {
    match event {
        Event::TotalTimeout | Event::ReadTimeout => after == before && (step matches Step::Fail(
            err,
        ) && err@ == timed_out(before.url@)),
        Event::Failed(failure) => if retries(before, failure) {
            (step matches Step::Dispatch(request) && sends(before, request)) && after == (
            PendingRequest {
                http2_retry_count: (before.http2_retry_count + 1) as usize,
                ..before
            })
        } else {
            after == before && (step matches Step::Fail(err) && err@ == transport_failed(
                before.url@,
            ))
        },
        Event::Response { status, headers } => responded(
            before,
            after,
            status,
            header_fields(headers),
            step,
        ),
    }
}

/// The body that the first dispatch of a request carries: the body itself,
/// whether it can be sent again or not.
pub open spec fn first_body(snapshot: Option<Option<Seq<u8>>>) -> BodyView {
    match snapshot {
        None => BodyView::Empty,
        Some(None) => BodyView::Streaming,
        Some(Some(b)) => BodyView::Reusable(b),
    }
}

/// Whether `request` is the first request that `state` sends: as every
/// later one, but with the body itself.
pub open spec fn sends_first<C: CookieStore, L>(state: PendingRequest<C, L>, request: InnerRequest)
    -> bool {
    &&& request.uri@ == state.url@
    &&& request.method == state.method
    &&& header_fields(request.headers) == header_fields(state.headers)
    &&& opt_name_texts(request.headers_order) == opt_name_texts(state.headers_order)
    &&& request.version == state.version
    &&& request.extensions == state.extensions
    &&& request.network_scheme@ == state.network_scheme@
    &&& request.body@ == first_body(snapshot_view(state.body))
}

impl<C: CookieStore, L> PendingRequest<C, L> {
    /// The first request of the record. Unlike every later one it carries
    /// the body even where the body can be sent once only.
    pub fn begin(&self) -> (request: InnerRequest)
        ensures
            sends_first(*self, request),
    {
        let mut request = self.request();
        match &self.body {
            Some(None) => {
                request.body = Body::streaming();
            },
            _ => {},
        }
        request
    }

    /// Deals with a response head. Where a cookie store is attached, what
    /// [`cookies_to_offer`] picks from the headers is offered to it for the
    /// URL of the record first.
    pub fn on_response(&mut self, status: StatusCode, headers: &http::HeaderMap) -> (step: Step)
        ensures
            responded(*old(self), *final(self), status, header_fields(*headers), step),
    {
        match &self.client.cookie_store {
            Some(store) => match cookies_to_offer(true, headers) {
                Some(cookies) => {
                    store.set_cookies(&cookies, &self.url);
                },
                None => {},
            },
            None => {},
        }
        let previous_method = self.method;
        let should_redirect = if status.rewrites_to_get() {
            proof {
                lemma_known_names();
            }
            self.body = None;
            remove_header(&mut self.headers, TRANSFER_ENCODING);
            remove_header(&mut self.headers, CONTENT_ENCODING);
            remove_header(&mut self.headers, CONTENT_TYPE);
            remove_header(&mut self.headers, CONTENT_LENGTH);
            if !self.method.is_get_or_head() {
                self.method = Method::Get;
            }
            true
        } else if status.preserves_method() {
            match &self.body {
                Some(None) => false,
                _ => true,
            }
        } else {
            false
        };
        if !should_redirect {
            return Step::Respond(self.response());
        }
        let loc = match resolve_location(&self.url, headers) {
            Some(loc) => loc,
            None => {
                return Step::Respond(self.response());
            },
        };
        if self.client.referer {
            match make_referer(&loc, &self.url) {
                Some(referer) => {
                    proof {
                        lemma_known_names();
                    }
                    match insert_header(&mut self.headers, REFERER, referer.as_slice()) {
                        Ok(_) => {},
                        Err(_) => {
                            return Step::Fail(
                                Error::builder(Cause::HeadersFull).with_url(self.url.copy()),
                            );
                        },
                    }
                },
                None => {},
            }
        }
        let url = self.url.copy();
        self.urls.push(url);
        let policy = match self.redirect {
            Some(p) => p,
            None => self.client.redirect,
        };
        let action = policy.check(status, self.method, &loc, previous_method, &self.urls);
        let ghost mid = *self;
        proof {
            assert(mid.urls@.drop_last() =~= old(self).urls@);
            assert(readied(*old(self), mid, status, loc@));
        }
        let step = match action {
            Some(action) => self.judge(loc, action),
            None => Step::Judge(
                Attempt {
                    status,
                    next_method: self.method,
                    next: loc,
                    previous_method,
                    previous: crate::url::copy_urls(&self.urls),
                },
            ),
        };
        proof {
            assert(referred(
                mid,
                *self,
                loc,
                status,
                old(self).method,
                policy_of(*old(self)).verdict(mid.urls@.len()),
                step,
            ));
        }
        step
    }

    /// Deals with the end of an exchange, or with what interrupted it.
    pub fn poll(&mut self, event: Event) -> (step: Step)
        requires
            old(self).wf(),
        ensures
            final(self).wf(),
            polled(*old(self), *final(self), event, step),
    {
        match event {
            Event::TotalTimeout => Step::Fail(Error::timed_out(self.url.copy())),
            Event::ReadTimeout => Step::Fail(Error::timed_out(self.url.copy())),
            Event::Failed(failure) => match self.retry_error(&failure) {
                Some(request) => Step::Dispatch(request),
                None => Step::Fail(Error::request(Cause::Transport).with_url(self.url.copy())),
            },
            Event::Response { status, headers } => {
                let step = self.on_response(status, &headers);
                proof {
                    lemma_response_keeps_counters(*old(self), *self, status, header_fields(headers), step);
                }
                step
            },
        }
    }
}

/// A response changes neither the retry counters nor the state of the
/// client that the request works from, and it leaves the record at a URL
/// that is a request target.
pub proof fn lemma_response_keeps_counters<C: CookieStore, L>(
    before: PendingRequest<C, L>,
    after: PendingRequest<C, L>,
    status: StatusCode,
    fields: Map<Seq<char>, Seq<Seq<u8>>>,
    step: Step,
)
    requires
        responded(before, after, status, fields, step),
    ensures
        after.http2_retry_count == before.http2_retry_count,
        after.http2_max_retry_count == before.http2_max_retry_count,
        after.client == before.client,
        uri_accepts(before.url@.href) ==> uri_accepts(after.url@.href),
{
    if may_redirect(status, snapshot_view(before.body)) {
        match resolved_location(before.url@, fields) {
            Some(l) => {
                if !(sets_referer(before, l, before.url@) && rewritten(before, after, status)) {
                    let (mid, loc) = choose|mid: PendingRequest<C, L>, loc: Url|
                        loc@ == l && readied(before, mid, status, l) && #[trigger] referred(
                        mid,
                        after,
                        loc,
                        status,
                        before.method,
                        policy_of(before).verdict(mid.urls@.len()),
                        step,
                    );
                    assert(referred(
                        mid,
                        after,
                        loc,
                        status,
                        before.method,
                        policy_of(before).verdict(mid.urls@.len()),
                        step,
                    ));
                }
            },
            None => {},
        }
    }
}

/// Whether a request for `url` is refused before anything is sent, and
/// with what error: the client requests `http` and `https` URLs only, and
/// `https` URLs only where it is told so.
pub open spec fn refused_at_start<C: CookieStore, L>(client: ClientRef<C, L>, url: UrlView) -> Option<
    ErrorView,
> {
    if (url.scheme != "http"@ && url.scheme != "https"@) || (client.https_only && url.scheme
        != "https"@) {
        Some(ErrorView { kind: Kind::Url, cause: Cause::BadScheme, url: Some(url), target: None })
    } else {
        None
    }
}

/// The header fields of a request once the client's headers are merged in.
pub open spec fn merged_fields<C: CookieStore, L>(client: ClientRef<C, L>, req: Request) -> Map<
    Seq<char>,
    Seq<Seq<u8>>,
> {
    crate::header::with_defaults(header_fields(req.headers), header_fields(client.headers))
}

/// Whether the cookie store is asked when a request begins: one is
/// attached, and the request names no cookie.
pub open spec fn asks_store_at_start<C: CookieStore, L>(client: ClientRef<C, L>, req: Request) -> bool {
    client.cookie_store is Some && !merged_fields(client, req).dom().contains(COOKIE@)
}

/// The header fields of a request as it is first sent, given its fields
/// after the cookie store was asked: content encodings are offered where
/// the request allows it, and the proxy's headers are added.
pub open spec fn finished_fields<C: CookieStore, L>(
    client: ClientRef<C, L>,
    req: Request,
    with_cookies: Map<Seq<char>, Seq<Seq<u8>>>,
) -> Map<Seq<char>, Seq<Seq<u8>>> {
    let offered = if req.allow_compression {
        crate::decoder::with_accept_encoding(client.accepts, with_cookies)
    } else {
        with_cookies
    };
    crate::client::state::proxy_authorized(client, req.url@, offered)
}

/// Whether nothing needs to be added to the headers of a request before it
/// is first sent, where the cookie store, if it is asked, answers with
/// `answer`.
pub open spec fn adds_nothing<C: CookieStore, L>(
    client: ClientRef<C, L>,
    req: Request,
    answer: Seq<Seq<u8>>,
) -> bool {
    &&& header_fields(client.headers).dom().subset_of(header_fields(req.headers).dom())
    &&& !(asks_store_at_start(client, req) && answer.len() > 0 && all_header_values(answer))
    &&& !(req.allow_compression && crate::decoder::offers_encodings(
        client.accepts,
        header_fields(req.headers),
    ))
    &&& !crate::client::state::wants_proxy_auth(client, req.url@, header_fields(req.headers))
}

/// Whether the headers of `req` have room for all that may be added before
/// it is first sent: the client's headers, a `Cookie` header, an
/// `Accept-Encoding` header, and what a proxy adds.
pub open spec fn start_room<C: CookieStore, L>(client: ClientRef<C, L>, req: Request) -> bool {
    has_room(
        header_fields(req.headers),
        header_fields(client.headers).dom().len() + 2 + crate::client::state::proxy_names(
            client,
            req.url@,
        ),
    )
}

/// Whether the cookie store is asked when `req` begins: the request is not
/// refused for its URL's scheme, and the store is due.
pub open spec fn asked_at_start<C: CookieStore, L>(client: ClientRef<C, L>, req: Request) -> bool {
    refused_at_start(client, req.url@) is None && asks_store_at_start(client, req)
}

/// The header fields of a request once the client's headers are merged in
/// and the answer of the cookie store, where it is asked, was added.
pub open spec fn fields_with_answer<C: CookieStore, L>(
    client: ClientRef<C, L>,
    req: Request,
    answer: Seq<Seq<u8>>,
) -> Map<Seq<char>, Seq<Seq<u8>>> {
    if asks_store_at_start(client, req) {
        with_cookies(merged_fields(client, req), answer)
    } else {
        merged_fields(client, req)
    }
}

/// Whether `result` is what beginning `req` under the state `client` gives
/// where the cookie store, if it is asked, answers with `answer`.
///
/// A URL the client does not request is refused, and so is one that is no
/// request target. Otherwise the request begins: with the client's headers
/// merged into its own, the answer of the store as `Cookie` headers where
/// the request names none, an offer of content encodings, and the headers
/// of the proxy; with the deadlines and the route in force; with its body
/// kept for sending again; and with the state of the client it began under.
/// The one other end is a header map that is too full to take what is
/// added; where nothing is added, and where the map has room for all that
/// may be added, the request is owed.
pub open spec fn begun_with<C: CookieStore, L>(
    client: Arc<ClientRef<C, L>>,
    req: Request,
    answer: Seq<Seq<u8>>,
    result: Result<PendingRequest<C, L>, Error>,
) -> bool {
    match refused_at_start(*client, req.url@) {
        Some(e) => result matches Err(err) && err@ == e,
        None => match result {
            Err(err) => if uri_accepts(req.url@.href) {
                err@ == headers_full() && !adds_nothing(*client, req, answer) && !start_room(
                    *client,
                    req,
                )
            } else {
                err@ == headers_full() || err@ == (ErrorView {
                    kind: Kind::Url,
                    cause: Cause::BadUri,
                    url: Some(req.url@),
                    target: None,
                })
            },
            Ok(p) => {
                &&& uri_accepts(req.url@.href)
                &&& p.client == client
                &&& p.method == req.method
                &&& p.url == req.url
                &&& p.version == req.version
                &&& p.extensions == req.extensions
                &&& p.redirect == req.redirect
                &&& p.urls@.len() == 0
                &&& p.http2_retry_count == 0
                &&& p.http2_max_retry_count == client.http2_max_retry_count
                &&& p.total_timeout == crate::timeout::effective_timeout(
                    req.extensions.total_timeout,
                    client.total_timeout,
                )
                &&& p.read_timeout == crate::timeout::effective_timeout(
                    req.extensions.read_timeout,
                    client.read_timeout,
                )
                &&& snapshot_view(p.body) == crate::body::kept_body(req.body)
                &&& opt_name_texts(p.headers_order) == if req.headers_order is Some {
                    opt_name_texts(req.headers_order)
                } else {
                    opt_name_texts(client.headers_order)
                }
                &&& p.network_scheme@ == if req.network_scheme@ is Default {
                    crate::client::state::client_route(*client, req.url@)
                } else {
                    req.network_scheme@
                }
                &&& p.store_cookies == (asks_store_at_start(*client, req) && fields_with_answer(
                    *client,
                    req,
                    answer,
                ).dom().contains(COOKIE@))
                &&& header_fields(p.headers) == finished_fields(
                    *client,
                    req,
                    fields_with_answer(*client, req, answer),
                )
            },
        },
    }
}

/// Whether `result` is what beginning `req` under the state `client` may
/// give, whatever the cookie store answers.
pub open spec fn begun<C: CookieStore, L>(
    client: Arc<ClientRef<C, L>>,
    req: Request,
    result: Result<PendingRequest<C, L>, Error>,
) -> bool {
    exists|answer: Seq<Seq<u8>>| #[trigger] begun_with(client, req, answer, result)
}

impl<C: CookieStore, L> PendingRequest<C, L> {
    /// Whether the cookie store is asked when `req` begins under the state
    /// `client`.
    pub fn asks_store_to_begin(client: &ClientRef<C, L>, req: &Request) -> (asks: bool)
        ensures
            asks == asked_at_start(*client, *req),
    {
        proof {
            lemma_known_names();
        }
        if !req.url.is_http() && !req.url.is_https() {
            return false;
        }
        if client.https_only && !req.url.is_https() {
            return false;
        }
        match &client.cookie_store {
            Some(_) => !contains_header(&req.headers, COOKIE) && !contains_header(
                &client.headers,
                COOKIE,
            ),
            None => false,
        }
    }

    /// Begins `req` under the state `client`: asks the cookie store where
    /// that is due, and begins the request with its answer as
    /// [`PendingRequest::new_with`] says.
    pub fn new(client: Arc<ClientRef<C, L>>, req: Request) -> (result: Result<PendingRequest<C, L>, Error>)
        ensures
            begun(client, req, result),
            result matches Ok(p) ==> p.wf(),
    {
        let answer = if Self::asks_store_to_begin(&client, &req) {
            match &client.cookie_store {
                Some(store) => store.cookies(&req.url),
                None => None,
            }
        } else {
            None
        };
        let result = Self::new_with(client, req, answer);
        proof {
            assert(begun_with(client, req, answer_bytes(answer), result));
        }
        result
    }

    /// Begins `req` under the state `client`, given the answer of the
    /// cookie store for the URL of the request. The answer counts only
    /// where the store is asked.
    pub fn new_with(client: Arc<ClientRef<C, L>>, req: Request, answer: Option<Vec<Vec<u8>>>) -> (result:
        Result<PendingRequest<C, L>, Error>)
        ensures
            begun_with(client, req, answer_bytes(answer), result),
            result matches Ok(p) ==> p.wf(),
    {
        let Request {
            method,
            url,
            headers,
            headers_order,
            body,
            version,
            extensions,
            redirect,
            allow_compression,
            network_scheme,
        } = req;
        let mut headers = headers;
        if !url.is_http() && !url.is_https() {
            return Err(Error::url_bad_scheme(url));
        }
        if client.https_only && !url.is_https() {
            return Err(Error::url_bad_scheme(url));
        }
        proof {
            lemma_known_names();
        }
        match crate::header::merge_defaults(&mut headers, &client.headers) {
            Ok(_) => {},
            Err(e) => {
                return Err(e);
            },
        }
        let mut store_cookies = false;
        let ghost merged = header_fields(headers);
        let asks = match &client.cookie_store {
            Some(_) => !contains_header(&headers, COOKIE),
            None => false,
        };
        if asks {
            match answer {
                Some(values) => {
                    let done = add_cookie_values(&mut headers, &values);
                    store_cookies = contains_header(&headers, COOKIE);
                    match done {
                        Ok(_) => {},
                        Err(e) => {
                            return Err(e);
                        },
                    }
                },
                None => {
                    proof {
                        assert(with_cookies(merged, Seq::<Seq<u8>>::empty()) == merged);
                    }
                },
            }
        }
        let ghost with_answer = header_fields(headers);
        if allow_compression {
            match crate::decoder::add_accpet_encoding_header(&client.accepts, &mut headers) {
                Ok(_) => {},
                Err(e) => {
                    return Err(e);
                },
            }
        }
        if !url.is_valid_uri() {
            return Err(Error::url_bad_uri(url));
        }
        let kept = crate::body::keep_body(body);
        let total_timeout = crate::timeout::pick_timeout(
            extensions.total_timeout,
            client.total_timeout,
        );
        let read_timeout = crate::timeout::pick_timeout(
            extensions.read_timeout,
            client.read_timeout,
        );
        match client.proxy_auth(&url, &mut headers) {
            Ok(_) => {},
            Err(e) => {
                return Err(e);
            },
        }
        let headers_order = match headers_order {
            Some(order) => Some(order),
            None => copy_opt_names(&client.headers_order),
        };
        let network_scheme = client.network_scheme(&url, network_scheme);
        let http2_max_retry_count = client.http2_max_retry_count;
        let pending = PendingRequest {
            method,
            url,
            headers,
            headers_order,
            body: kept,
            version,
            extensions,
            urls: Vec::new(),
            http2_retry_count: 0,
            http2_max_retry_count,
            redirect,
            network_scheme,
            client,
            total_timeout,
            read_timeout,
            store_cookies,
        };
        proof {
            assert(with_answer == fields_with_answer(*client, req, answer_bytes(answer)));
            assert(header_fields(pending.headers) == finished_fields(*client, req, with_answer));
        }
        Ok(pending)
    }
}

/// A request from its first dispatch to its end, or the error that kept it
/// from being sent at all.
#[derive(Debug)]
pub struct Pending<C: CookieStore, L> {
    pub inner: PendingInner<C, L>,
}

/// What a [`Pending`] holds.
#[derive(Debug)]
pub enum PendingInner<C: CookieStore, L> {
    /// A request in flight.
    Request(Box<PendingRequest<C, L>>),
    /// The error to end with, until it has been handed out.
    Error(Option<Error>),
}

/// The error for driving a request that has ended.
pub open spec fn already_finished() -> ErrorView {
    ErrorView { kind: Kind::Request, cause: Cause::AlreadyFinished, url: None, target: None }
}

impl<C: CookieStore, L> Pending<C, L> {
    /// A request that ends with `err` without being sent.
    pub fn new_err(err: Error) -> (pending: Pending<C, L>)
        ensures
            pending.inner == PendingInner::<C, L>::Error(Some(err)),
    {
        Pending { inner: PendingInner::Error(Some(err)) }
    }

    /// A request in flight.
    pub fn new(request: PendingRequest<C, L>) -> (pending: Pending<C, L>)
        ensures
            pending.inner == PendingInner::Request(Box::new(request)),
    {
        Pending { inner: PendingInner::Request(Box::new(request)) }
    }

    /// Whether the record of the request, if one is in flight, is in
    /// order.
    pub open spec fn wf(&self) -> bool {
        self.inner matches PendingInner::Request(p) ==> p.wf()
    }

    /// Checks that the record of the request, if one is in flight, is in
    /// order.
    pub fn is_wf(&self) -> (ok: bool)
        ensures
            ok == self.wf(),
    {
        match &self.inner {
            PendingInner::Request(p) => p.http2_retry_count <= p.http2_max_retry_count
                && p.url.is_valid_uri(),
            PendingInner::Error(_) => true,
        }
    }

    /// The first step: the first dispatch of the request, or the error that
    /// kept it from being sent. The error is handed out once; after that
    /// the request counts as ended.
    pub fn begin(&mut self) -> (step: Step)
        ensures
            match old(self).inner {
                PendingInner::Request(p) => *final(self) == *old(self) && (
                step matches Step::Dispatch(r) && sends_first(*p, r)),
                PendingInner::Error(Some(e)) => final(self).inner == PendingInner::<C, L>::Error(None)
                    && step == Step::Fail(e),
                PendingInner::Error(None) => *final(self) == *old(self) && (
                step matches Step::Fail(err) && err@ == already_finished()),
            },
    {
        match &mut self.inner {
            PendingInner::Request(p) => Step::Dispatch(p.begin()),
            PendingInner::Error(err) => match err.take() {
                Some(e) => Step::Fail(e),
                None => Step::Fail(Error::request(Cause::AlreadyFinished)),
            },
        }
    }

    /// Acts on the verdict of the caller's redirect policy on the hop to
    /// `loc` that was handed out. A request that was never sent answers
    /// with its error, once, and counts as ended after that.
    pub fn judge(&mut self, loc: Url, action: ActionKind) -> (step: Step)
        ensures
            old(self).wf() ==> final(self).wf(),
            match old(self).inner {
                PendingInner::Request(p) => final(self).inner matches PendingInner::Request(q)
                    && judged(*p, *q, loc, action, step),
                PendingInner::Error(Some(e)) => final(self).inner == PendingInner::<C, L>::Error(None)
                    && step == Step::Fail(e),
                PendingInner::Error(None) => *final(self) == *old(self) && (
                step matches Step::Fail(err) && err@ == already_finished()),
            },
    {
        match &mut self.inner {
            PendingInner::Request(p) => p.judge(loc, action),
            PendingInner::Error(err) => match err.take() {
                Some(e) => Step::Fail(e),
                None => Step::Fail(Error::request(Cause::AlreadyFinished)),
            },
        }
    }

    /// Deals with the end of an exchange as [`Pending::poll`] does, where
    /// the record is in order; a record that is not is left as it is and
    /// given no step.
    pub fn try_poll(&mut self, event: Event) -> (step: Option<Step>)
        ensures
            step is Some == old(self).wf(),
            !old(self).wf() ==> *final(self) == *old(self),
            old(self).wf() ==> final(self).wf() && match old(self).inner {
                PendingInner::Request(p) => final(self).inner matches PendingInner::Request(q)
                    && polled(*p, *q, event, step->0),
                PendingInner::Error(Some(e)) => final(self).inner == PendingInner::<C, L>::Error(None)
                    && step->0 == Step::Fail(e),
                PendingInner::Error(None) => *final(self) == *old(self) && (
                step->0 matches Step::Fail(err) && err@ == already_finished()),
            },
    {
        if self.is_wf() {
            Some(self.poll(event))
        } else {
            None
        }
    }

    /// Deals with the end of an exchange, or with what interrupted it. A
    /// request that was never sent answers with its error, once, and counts
    /// as ended after that.
    pub fn poll(&mut self, event: Event) -> (step: Step)
        requires
            old(self).wf(),
        ensures
            final(self).wf(),
            match old(self).inner {
                PendingInner::Request(p) => final(self).inner matches PendingInner::Request(q)
                    && polled(*p, *q, event, step),
                PendingInner::Error(Some(e)) => final(self).inner == PendingInner::<C, L>::Error(None)
                    && step == Step::Fail(e),
                PendingInner::Error(None) => *final(self) == *old(self) && (
                step matches Step::Fail(err) && err@ == already_finished()),
            },
    {
        match &mut self.inner {
            PendingInner::Request(p) => p.poll(event),
            PendingInner::Error(err) => match err.take() {
                Some(e) => Step::Fail(e),
                None => Step::Fail(Error::request(Cause::AlreadyFinished)),
            },
        }
    }
}

/// The request that follows a redirect goes to the URL that the
/// `Location` header of the response resolves to against the URL that was
/// redirected, and the record is at that URL from then on. A response that
/// is handed out comes from the URL the record is at.
pub proof fn lemma_hop_goes_to_location<C: CookieStore, L>(
    before: PendingRequest<C, L>,
    after: PendingRequest<C, L>,
    status: StatusCode,
    fields: Map<Seq<char>, Seq<Seq<u8>>>,
    step: Step,
)
    requires
        responded(before, after, status, fields, step),
    ensures
        step matches Step::Dispatch(request) ==> resolved_location(before.url@, fields) == Some(
            request.uri@,
        ) && after.url@ == request.uri@ && (joined_url(
            before.url@.href,
            decode_utf8(fields[LOCATION@][0]),
        ) == Some(request.uri@)),
        step matches Step::Respond(parts) ==> parts.url@ == after.url@ && after.url@
            == before.url@,
{
    if may_redirect(status, snapshot_view(before.body)) {
        match resolved_location(before.url@, fields) {
            Some(l) => {
                if !(sets_referer(before, l, before.url@) && rewritten(before, after, status) && (
                step matches Step::Fail(err) && err@ == headers_full_at(before.url@))) {
                    let (mid, loc) = choose|mid: PendingRequest<C, L>, loc: Url|
                        loc@ == l && readied(before, mid, status, l) && #[trigger] referred(
                        mid,
                        after,
                        loc,
                        status,
                        before.method,
                        policy_of(before).verdict(mid.urls@.len()),
                        step,
                    );
                    assert(referred(
                        mid,
                        after,
                        loc,
                        status,
                        before.method,
                        policy_of(before).verdict(mid.urls@.len()),
                        step,
                    ));
                }
            },
            None => {},
        }
    }
}

/// A redirect that the request may follow, to a location that is not
/// refused, is followed where the policy says so and the headers have room
/// for two names more: exactly one request is sent, to the location, and
/// the URL that was redirected joins the URLs requested so far. With the
/// policy that follows up to `max` hops this holds for the first `max`
/// hops.
pub proof fn lemma_redirect_is_followed<C: CookieStore, L>(
    before: PendingRequest<C, L>,
    after: PendingRequest<C, L>,
    status: StatusCode,
    fields: Map<Seq<char>, Seq<Seq<u8>>>,
    step: Step,
)
    requires
        responded(before, after, status, fields, step),
        may_redirect(status, snapshot_view(before.body)),
        resolved_location(before.url@, fields) is Some,
        policy_of(before).verdict((before.urls@.len() + 1) as nat) == Some(ActionKind::Follow),
        has_room(header_fields(before.headers), 2),
        ({
            let l = resolved_location(before.url@, fields)->0;
            (l.scheme == "https"@ || (l.scheme == "http"@ && !before.client.https_only))
        }),
    ensures
        step matches Step::Dispatch(request) && Some(request.uri@) == resolved_location(
            before.url@,
            fields,
        ),
        after.urls@.len() == before.urls@.len() + 1,
        after.urls@.last()@ == before.url@,
{
    let l = resolved_location(before.url@, fields)->0;
    let base = header_fields(before.headers);
    let rewritten_fields = next_fields(status, base);
    lemma_room_after_remove(base, TRANSFER_ENCODING@, 2);
    lemma_room_after_remove(base.remove(TRANSFER_ENCODING@), CONTENT_ENCODING@, 2);
    lemma_room_after_remove(
        base.remove(TRANSFER_ENCODING@).remove(CONTENT_ENCODING@),
        CONTENT_TYPE@,
        2,
    );
    lemma_room_after_remove(
        base.remove(TRANSFER_ENCODING@).remove(CONTENT_ENCODING@).remove(CONTENT_TYPE@),
        CONTENT_LENGTH@,
        2,
    );
    assert(has_room(rewritten_fields, 2));
    if sets_referer(before, l, before.url@) && rewritten(before, after, status) && !has_room(
        header_fields(after.headers),
        0,
    ) {
        assert(false);
    }
    let (mid, loc) = choose|mid: PendingRequest<C, L>, loc: Url|
        loc@ == l && readied(before, mid, status, l) && #[trigger] referred(
            mid,
            after,
            loc,
            status,
            before.method,
            policy_of(before).verdict(mid.urls@.len()),
            step,
        );
    assert(referred(
        mid,
        after,
        loc,
        status,
        before.method,
        policy_of(before).verdict(mid.urls@.len()),
        step,
    ));
    assert(follows(mid, after, loc, step));
    let answer = choose|answer: Seq<Seq<u8>>| #[trigger]
        follows_with(mid, after, loc, answer, step);
    assert(refused_hop(mid, loc@) is None);
    let held = header_fields(mid.headers);
    lemma_room_after_insert(
        rewritten_fields,
        REFERER@,
        seq![referer_value(l, before.url@)->0],
        1,
    );
    assert(has_room(held, 1));
    let kept = if mid.store_cookies {
        held.remove(COOKIE@)
    } else {
        held
    };
    lemma_room_after_remove(held, COOKIE@, 1);
    lemma_room_after_remove(kept, crate::header::AUTHORIZATION@, 1);
    lemma_room_after_remove(kept.remove(crate::header::AUTHORIZATION@), COOKIE@, 1);
    lemma_room_after_remove(
        kept.remove(crate::header::AUTHORIZATION@).remove(COOKIE@),
        crate::header::PROXY_AUTHORIZATION@,
        1,
    );
    lemma_room_after_remove(
        kept.remove(crate::header::AUTHORIZATION@).remove(COOKIE@).remove(
            crate::header::PROXY_AUTHORIZATION@,
        ),
        crate::header::WWW_AUTHENTICATE@,
        1,
    );
    assert(has_room(carried_fields(mid, loc@), 1));
}

/// With the policy that follows up to `max` hops, the redirect after the
/// last hop that is followed ends the request: nothing more is sent, and
/// the error of too many redirects names the URL that was requested last
/// and the location as its target.
pub proof fn lemma_limit_ends_the_chain<C: CookieStore, L>(
    before: PendingRequest<C, L>,
    after: PendingRequest<C, L>,
    status: StatusCode,
    fields: Map<Seq<char>, Seq<Seq<u8>>>,
    step: Step,
    max: usize,
)
    requires
        responded(before, after, status, fields, step),
        may_redirect(status, snapshot_view(before.body)),
        resolved_location(before.url@, fields) is Some,
        policy_of(before) == Policy::Limit(max),
        before.urls@.len() + 1 > max,
        has_room(header_fields(before.headers), 0),
    ensures
        step matches Step::Fail(err) && err@ == (ErrorView {
            kind: Kind::Redirect,
            cause: Cause::TooManyRedirects,
            url: Some(before.url@),
            target: resolved_location(before.url@, fields),
        }),
{
    let l = resolved_location(before.url@, fields)->0;
    let base = header_fields(before.headers);
    lemma_room_after_remove(base, TRANSFER_ENCODING@, 0);
    lemma_room_after_remove(base.remove(TRANSFER_ENCODING@), CONTENT_ENCODING@, 0);
    lemma_room_after_remove(
        base.remove(TRANSFER_ENCODING@).remove(CONTENT_ENCODING@),
        CONTENT_TYPE@,
        0,
    );
    lemma_room_after_remove(
        base.remove(TRANSFER_ENCODING@).remove(CONTENT_ENCODING@).remove(CONTENT_TYPE@),
        CONTENT_LENGTH@,
        0,
    );
    assert(has_room(next_fields(status, base), 0));
    let (mid, loc) = choose|mid: PendingRequest<C, L>, loc: Url|
        loc@ == l && readied(before, mid, status, l) && #[trigger] referred(
            mid,
            after,
            loc,
            status,
            before.method,
            policy_of(before).verdict(mid.urls@.len()),
            step,
        );
    assert(referred(
        mid,
        after,
        loc,
        status,
        before.method,
        policy_of(before).verdict(mid.urls@.len()),
        step,
    ));
}

/// After a 301, 302 or 303 the next request has no body and none of the
/// headers that describe one; and its method is GET unless the method of
/// the request was HEAD.
pub proof fn lemma_see_other_drops_body<C: CookieStore, L>(
    before: PendingRequest<C, L>,
    after: PendingRequest<C, L>,
    status: StatusCode,
    fields: Map<Seq<char>, Seq<Seq<u8>>>,
    step: Step,
)
    requires
        responded(before, after, status, fields, step),
        status.rewrites_to_get(),
    ensures
        step matches Step::Dispatch(request) ==> {
            &&& request.method == if before.method == Method::Head {
                Method::Head
            } else {
                Method::Get
            }
            &&& request.body@ == BodyView::Empty
            &&& !has_field(request.headers, TRANSFER_ENCODING@)
            &&& !has_field(request.headers, CONTENT_ENCODING@)
            &&& !has_field(request.headers, CONTENT_TYPE@)
            &&& !has_field(request.headers, CONTENT_LENGTH@)
        },
{
    crate::header::lemma_redirect_names_differ();
    match resolved_location(before.url@, fields) {
        Some(l) => {
            if step is Dispatch {
                let (mid, loc) = choose|mid: PendingRequest<C, L>, loc: Url|
                    loc@ == l && readied(before, mid, status, l) && #[trigger] referred(
                        mid,
                        after,
                        loc,
                        status,
                        before.method,
                        policy_of(before).verdict(mid.urls@.len()),
                        step,
                    );
                assert(referred(
                        mid,
                        after,
                        loc,
                        status,
                        before.method,
                        policy_of(before).verdict(mid.urls@.len()),
                        step,
                    ));
                assert(follows(mid, after, loc, step));
                let stripped = without_content(header_fields(before.headers));
                let carried = carried_fields(mid, loc@);
                let request = step->Dispatch_0;
                assert(header_fields(request.headers).remove(COOKIE@) == carried.remove(COOKIE@));
                assert forall|n: Seq<char>|
                    n == TRANSFER_ENCODING@ || n == CONTENT_ENCODING@ || n == CONTENT_TYPE@ || n
                        == CONTENT_LENGTH@ implies !header_fields(request.headers).dom().contains(
                    n,
                ) by {
                    assert(!stripped.dom().contains(n));
                    assert(!header_fields(mid.headers).dom().contains(n));
                    assert(!carried.dom().contains(n));
                    assert(header_fields(request.headers).remove(COOKIE@).dom().contains(n)
                        == carried.remove(COOKIE@).dom().contains(n));
                }
            }
        },
        None => {},
    }
}

/// A 307 or 308 in answer to a request whose body cannot be sent again is
/// handed to the caller; nothing more is sent and the record stays as it
/// is.
pub proof fn lemma_unrepeatable_body_ends_redirect<C: CookieStore, L>(
    before: PendingRequest<C, L>,
    after: PendingRequest<C, L>,
    status: StatusCode,
    fields: Map<Seq<char>, Seq<Seq<u8>>>,
    step: Step,
)
    requires
        responded(before, after, status, fields, step),
        status.preserves_method(),
        snapshot_view(before.body) == Some(None::<Seq<u8>>),
    ensures
        after == before,
        step matches Step::Respond(parts) && hands_out(before, parts),
{
}

/// On the way to another origin the next request carries no
/// `Authorization`, no `Proxy-Authorization` and no `WWW-Authenticate`
/// header; and it carries no `Cookie` header unless a cookie store is
/// attached, which is then asked for the cookies of the new URL.
pub proof fn lemma_other_origin_strips_credentials<C: CookieStore, L>(
    before: PendingRequest<C, L>,
    after: PendingRequest<C, L>,
    loc: Url,
    step: Step,
)
    requires
        follows(before, after, loc, step),
        crosses_origin(loc@, before.urls@),
    ensures
        step matches Step::Dispatch(request) ==> {
            &&& !has_field(request.headers, crate::header::AUTHORIZATION@)
            &&& !has_field(request.headers, crate::header::PROXY_AUTHORIZATION@)
            &&& !has_field(request.headers, crate::header::WWW_AUTHENTICATE@)
            &&& before.client.cookie_store is None ==> !has_field(request.headers, COOKIE@)
        },
{
    crate::header::lemma_redirect_names_differ();
    if step is Dispatch {
        let request = step->Dispatch_0;
        let carried = carried_fields(before, loc@);
        assert forall|n: Seq<char>|
            n == crate::header::AUTHORIZATION@ || n == crate::header::PROXY_AUTHORIZATION@ || n
                == crate::header::WWW_AUTHENTICATE@ implies !header_fields(
            request.headers,
        ).dom().contains(n) by {
            assert(!carried.dom().contains(n));
            assert(header_fields(request.headers).remove(COOKIE@).dom().contains(n)
                == carried.remove(COOKIE@).dom().contains(n));
        }
    }
}

/// Where a cookie store is attached, and the cookies of the request came
/// from the store or the hop leaves the origin, the next request carries
/// as `Cookie` headers exactly what the store answered for the new URL:
/// nothing of the hop before is carried over, and nothing stands twice. An
/// answer that is empty or holds what is no header value adds nothing.
pub proof fn lemma_next_cookies_are_the_answer<C: CookieStore, L>(
    before: PendingRequest<C, L>,
    after: PendingRequest<C, L>,
    loc: Url,
    answer: Seq<Seq<u8>>,
    step: Step,
)
    requires
        follows_with(before, after, loc, answer, step),
        before.client.cookie_store is Some,
        before.store_cookies || crosses_origin(loc@, before.urls@),
    ensures
        step matches Step::Dispatch(request) ==> {
            &&& asks_store(before, loc@)
            &&& answer.len() > 0 && all_header_values(answer) ==> has_field(
                request.headers,
                COOKIE@,
            ) && header_fields(request.headers)[COOKIE@] == answer
            &&& !(answer.len() > 0 && all_header_values(answer)) ==> !has_field(
                request.headers,
                COOKIE@,
            )
        },
{
    crate::header::lemma_redirect_names_differ();
    if step is Dispatch {
        let carried = carried_fields(before, loc@);
        assert(!carried.dom().contains(COOKIE@));
        if answer.len() > 0 && all_header_values(answer) {
            assert(Seq::<Seq<u8>>::empty() + answer =~= answer);
        }
    }
}

/// Whatever ends an exchange, the record keeps working from the state of
/// the client that the request began under: its settings, the set-up of
/// its dispatcher and its TLS connector. An update that is stored later
/// makes a new state and leaves this one as it is.
pub proof fn lemma_request_keeps_its_state<C: CookieStore, L>(
    before: PendingRequest<C, L>,
    after: PendingRequest<C, L>,
    event: Event,
    step: Step,
)
    requires
        polled(before, after, event, step),
    ensures
        after.client == before.client,
        after.client.hyper == before.client.hyper,
        after.client.hyper.connector.base().tls == before.client.hyper.connector.base().tls,
        after.http2_max_retry_count == before.http2_max_retry_count,
{
    match event {
        Event::Response { status, headers } => {
            lemma_response_keeps_counters(before, after, status, header_fields(headers), step);
        },
        _ => {},
    }
}

/// A failure that is safe to retry, of a request whose body can be sent
/// again or that has none, is answered by sending the request again
/// exactly while a retry is left. The retry counter then goes up by one;
/// else it stays, and the request ends.
pub proof fn lemma_retry_while_one_is_left<C: CookieStore, L>(
    before: PendingRequest<C, L>,
    after: PendingRequest<C, L>,
    failure: TransportError,
    step: Step,
)
    requires
        before.wf(),
        polled(before, after, Event::Failed(failure), step),
        retryable_chain(failure.chain@),
        snapshot_view(before.body) != Some(None::<Seq<u8>>),
    ensures
        step is Dispatch == (before.http2_retry_count < before.http2_max_retry_count),
        step is Dispatch ==> after.http2_retry_count == before.http2_retry_count + 1,
        !(step is Dispatch) ==> step is Fail && after == before,
        after.wf(),
{
}

/// The number of retries in a run: the failed exchanges that were answered
/// with another dispatch.
pub open spec fn retries_in(events: Seq<Event>, steps: Seq<Step>) -> nat
    decreases events.len(),
{
    if events.len() == 0 || steps.len() != events.len() {
        0
    } else {
        let earlier = retries_in(events.drop_last(), steps.drop_last());
        if events.last() is Failed && steps.last() is Dispatch {
            earlier + 1
        } else {
            earlier
        }
    }
}

/// Whether `states` are the states of a record in a run with the given
/// events and steps: each state follows from the one before by the event
/// and the step at its place.
pub open spec fn is_run<C: CookieStore, L>(
    states: Seq<PendingRequest<C, L>>,
    events: Seq<Event>,
    steps: Seq<Step>,
) -> bool {
    &&& states.len() == events.len() + 1
    &&& steps.len() == events.len()
    &&& forall|i: int|
        0 <= i < events.len() ==> polled(#[trigger] states[i], states[i + 1], events[i], steps[i])
}

/// In a run that begins with the retry counter at zero, the retry counter
/// is the number of retries so far, and it never passes the number of
/// retries that the client allows. However often the transport fails, the
/// request is sent again at most that many times.
pub proof fn lemma_retries_are_bounded<C: CookieStore, L>(
    states: Seq<PendingRequest<C, L>>,
    events: Seq<Event>,
    steps: Seq<Step>,
)
    requires
        is_run(states, events, steps),
        states[0].http2_retry_count == 0,
    ensures
        retries_in(events, steps) == states.last().http2_retry_count,
        retries_in(events, steps) <= states[0].http2_max_retry_count,
        states.last().http2_max_retry_count == states[0].http2_max_retry_count,
    decreases events.len(),
{
    if events.len() > 0 {
        let n = events.len() - 1;
        let earlier_states = states.drop_last();
        let earlier_events = events.drop_last();
        let earlier_steps = steps.drop_last();
        assert forall|i: int| 0 <= i < earlier_events.len() implies polled(
            #[trigger] earlier_states[i],
            earlier_states[i + 1],
            earlier_events[i],
            earlier_steps[i],
        ) by {
            assert(polled(states[i], states[i + 1], events[i], steps[i]));
        }
        lemma_retries_are_bounded(earlier_states, earlier_events, earlier_steps);
        assert(earlier_states.last() == states[n]);
        assert(polled(states[n], states[n + 1], events[n], steps[n]));
        lemma_request_keeps_its_state(states[n], states[n + 1], events[n], steps[n]);
        match events[n] {
            Event::Response { status, headers } => {
                lemma_response_keeps_counters(
                    states[n],
                    states[n + 1],
                    status,
                    header_fields(headers),
                    steps[n],
                );
            },
            _ => {},
        }
    }
}

} // verus!
