//! The client: its configuration, its state and the requests it runs.

use vstd::prelude::*;
use std::sync::Arc;
use crate::client::builder::ClientBuilder;
use crate::client::dispatch::Dispatcher;
use crate::client::pending::Pending;
use crate::client::pending::PendingInner;
use crate::client::pending::PendingRequest;
use crate::client::pending::begun;
use crate::client::request::Request;
use crate::client::request::RequestBuilder;
use crate::client::state::ClientRef;
use crate::client::state::same_settings;
use crate::client::update::Applied;
use crate::client::update::ClientUpdate;
use crate::cookie::CookieStore;
use crate::cookie::Jar;
use crate::error::Cause;
use crate::error::Error;
use crate::error::ErrorView;
use crate::error::Kind;
use crate::header::header_fields;
use crate::header::no_fields;
use crate::method::Method;
use crate::text::arc_clone;
use crate::url::Url;
use crate::url::parsed_url;

pub mod builder;
pub mod dispatch;
pub mod future;
pub mod pending;
pub mod request;
pub mod service;
pub mod state;
pub mod update;

verus! {

/// A client: its state and the set-up of its dispatcher.
///
/// The state is shared with the requests that began under it and is never
/// changed; an update puts a new state in its place.
#[derive(Debug)]
pub struct Client<C: CookieStore, L> {
    pub inner: Arc<ClientRef<C, L>>,
}

/// The error for a text that is no URL.
pub open spec fn invalid_url() -> ErrorView {
    ErrorView { kind: Kind::Builder, cause: Cause::InvalidUrl, url: None, target: None }
}

/// Whether `builder` is the builder for a request for the URL written as
/// `url`: an error where the text is no URL or the URL has no host, else a
/// request without headers or body.
pub open spec fn requests(builder: RequestBuilder, method: Method, url: Seq<char>) -> bool {
    match parsed_url(url) {
        None => builder.request matches Err(e) && e@ == invalid_url(),
        Some(u) => if u.host is None {
            builder.request matches Err(e) && e@ == (ErrorView {
                kind: Kind::Url,
                cause: Cause::BadScheme,
                url: Some(u),
                target: None,
            })
        } else {
            builder.request matches Ok(r) && r.method == method && r.url@ == u && header_fields(
                r.headers,
            ) == no_fields() && r.body is None && r.redirect is None && r.allow_compression
                && r.network_scheme@ is Default && r.extensions.total_timeout is None
                && r.extensions.read_timeout is None && r.headers_order is None
        },
    }
}

/// Whether `builder` is the builder for the request that opens a WebSocket
/// connection to the URL written as `url` with the key `key`: an error
/// where the text is no URL or the URL has no host, as for any request;
/// else a `GET` request over HTTP/1.1 whose only headers are those of the
/// upgrade.
pub open spec fn asks_upgrade(builder: RequestBuilder, url: Seq<char>, key: Seq<u8>) -> bool {
    match parsed_url(url) {
        None => builder.request matches Err(e) && e@ == invalid_url(),
        Some(u) => if u.host is None {
            builder.request matches Err(e) && e@ == (ErrorView {
                kind: Kind::Url,
                cause: Cause::BadScheme,
                url: Some(u),
                target: None,
            })
        } else {
            builder.request matches Ok(r) && r.method == Method::Get && r.url@ == u && r.version
                == Some(crate::method::Version::Http11) && header_fields(r.headers)
                == crate::websocket::upgrade_fields(no_fields(), key) && r.body is None
                && r.redirect is None && r.allow_compression && r.network_scheme@ is Default
                && r.extensions.total_timeout is None && r.extensions.read_timeout is None
                && r.headers_order is None
        },
    }
}

impl<L> Client<Jar, L> {
    /// A client with the settings of a builder that nothing was said about.
    pub fn new() -> (client: Client<Jar, L>)
        ensures
            header_fields(client.inner.headers) == no_fields(),
            client.inner.headers_order is None,
            client.inner.accepts == (crate::decoder::Accepts {
                gzip: true,
                brotli: true,
                zstd: true,
                deflate: true,
            }),
            client.inner.cookie_store is None,
            client.inner.redirect == crate::redirect::Policy::Limit(
                crate::redirect::DEFAULT_MAX_REDIRECTS,
            ),
            client.inner.referer,
            client.inner.total_timeout is None,
            client.inner.read_timeout is None,
            !client.inner.https_only,
            client.inner.http2_max_retry_count == 2,
            client.inner.proxies@.len() == 0,
            !client.inner.proxies_maybe_http_auth,
            client.inner.network_scheme@ == crate::scheme::NetworkSchemeBuilder::empty(),
            client.inner.alpn_protos is None,
            client.inner.tls_sni,
            client.inner.verify_hostname,
            client.inner.cert_verification,
            client.inner.hyper.connector is Simple,
            !client.inner.hyper.http2_only,
            client.inner.hyper.pool_idle_timeout == Some(crate::timeout::duration_from_secs(90)),
            client.inner.hyper.pool_max_idle_per_host == usize::MAX,
            client.inner.hyper.pool_max_size is None,
            client.inner.hyper.resolver == crate::client::dispatch::Resolver::Hickory(
                crate::client::dispatch::LookupIpStrategy::Ipv4AndIpv6,
            ),
    {
        ClientBuilder::<Jar, L>::new().build().unwrap()
    }

    /// A builder that nothing was said about.
    pub fn builder() -> (builder: ClientBuilder<Jar, L>)
        ensures
            crate::client::builder::is_fresh(builder.config),
    {
        ClientBuilder::new()
    }
}

impl<C: CookieStore, L: Clone> Client<C, L> {
    /// A second client with the state of this one and a dispatcher that is
    /// set up alike. The state is shared until one of the two is updated.
    pub fn cloned(&self) -> (client: Client<C, L>)
        ensures
            client.inner == self.inner,
    {
        Client { inner: arc_clone(&self.inner) }
    }

    /// Begins an update: a copy of the current state to derive the next
    /// state from.
    pub fn update(&self) -> (update: ClientUpdate<C, L>)
        ensures
            same_settings(update.current, *self.inner),
            update.emulation is None,
    {
        ClientUpdate { current: self.inner.copy(), emulation: None }
    }
}

impl<C: CookieStore, L> Client<C, L> {
    /// Begins to put together a `GET` request for `url`.
    pub fn get(&self, url: &str) -> (builder: RequestBuilder)
        ensures
            requests(builder, Method::Get, url@),
    {
        self.request(Method::Get, url)
    }

    /// Begins to put together the request that opens a WebSocket
    /// connection to `url`: a `GET` request over HTTP/1.1 that asks for the
    /// upgrade with the key `key`.
    pub fn websocket(&self, url: &str, key: &[u8]) -> (builder: RequestBuilder)
        ensures
            asks_upgrade(builder, url@, key@),
    {
        match self.request(Method::Get, url).build() {
            Ok(request) => RequestBuilder::new(crate::websocket::upgrade_request(request, key)),
            Err(e) => RequestBuilder::new(Err(e)),
        }
    }

    /// Begins to put together a `POST` request for `url`.
    pub fn post(&self, url: &str) -> (builder: RequestBuilder)
        ensures
            requests(builder, Method::Post, url@),
    {
        self.request(Method::Post, url)
    }

    /// Begins to put together a `PUT` request for `url`.
    pub fn put(&self, url: &str) -> (builder: RequestBuilder)
        ensures
            requests(builder, Method::Put, url@),
    {
        self.request(Method::Put, url)
    }

    /// Begins to put together a `PATCH` request for `url`.
    pub fn patch(&self, url: &str) -> (builder: RequestBuilder)
        ensures
            requests(builder, Method::Patch, url@),
    {
        self.request(Method::Patch, url)
    }

    /// Begins to put together a `DELETE` request for `url`.
    pub fn delete(&self, url: &str) -> (builder: RequestBuilder)
        ensures
            requests(builder, Method::Delete, url@),
    {
        self.request(Method::Delete, url)
    }

    /// Begins to put together a `HEAD` request for `url`.
    pub fn head(&self, url: &str) -> (builder: RequestBuilder)
        ensures
            requests(builder, Method::Head, url@),
    {
        self.request(Method::Head, url)
    }

    /// Begins to put together a request for `url`.
    pub fn request(&self, method: Method, url: &str) -> (builder: RequestBuilder)
        ensures
            requests(builder, method, url@),
    {
        let req = match Url::parse(url) {
            Some(url) => {
                if url.host_str().is_none() {
                    Err(Error::url_bad_scheme(url))
                } else {
                    Ok(Request::new(method, url))
                }
            },
            None => Err(Error::builder(Cause::InvalidUrl)),
        };
        RequestBuilder::new(req)
    }

    /// Begins `request` under the current state of the client.
    pub fn execute(&self, request: Request) -> (pending: Pending<C, L>)
        ensures
            pending.wf(),
            match pending.inner {
                PendingInner::Request(p) => begun(self.inner, request, Ok(*p)),
                PendingInner::Error(Some(e)) => begun(self.inner, request, Err(e)),
                PendingInner::Error(None) => false,
            },
    {
        self.execute_request(request)
    }

    /// Begins `req` under the current state of the client.
    pub fn execute_request(&self, req: Request) -> (pending: Pending<C, L>)
        ensures
            pending.wf(),
            match pending.inner {
                PendingInner::Request(p) => begun(self.inner, req, Ok(*p)),
                PendingInner::Error(Some(e)) => begun(self.inner, req, Err(e)),
                PendingInner::Error(None) => false,
            },
    {
        match PendingRequest::new(arc_clone(&self.inner), req) {
            Ok(p) => Pending::new(p),
            Err(e) => Pending::new_err(e),
        }
    }

    /// Puts the state that an update derived in the place of the current
    /// one, with the dispatcher set up as the update asks. The new state is
    /// a new value: requests that began earlier keep the state they began
    /// under, dispatcher and all.
    #[verifier::rlimit(60)]
    pub fn store(&mut self, applied: Applied<C, L>)
        ensures
            *final(self).inner == (ClientRef { hyper: final(self).inner.hyper, ..applied.state }),
            final(self).inner.hyper.http1_config == match applied.http1_config {
                Some(c) => c,
                None => applied.state.hyper.http1_config,
            },
            final(self).inner.hyper.http2_config == match applied.http2_config {
                Some(c) => c,
                None => applied.state.hyper.http2_config,
            },
            final(self).inner.hyper.http2_only == applied.state.hyper.http2_only,
            final(self).inner.hyper.pool_idle_timeout == applied.state.hyper.pool_idle_timeout,
            final(self).inner.hyper.pool_max_idle_per_host
                == applied.state.hyper.pool_max_idle_per_host,
            final(self).inner.hyper.pool_max_size == applied.state.hyper.pool_max_size,
            final(self).inner.hyper.resolver == applied.state.hyper.resolver,
            final(self).inner.hyper.dns_overrides == applied.state.hyper.dns_overrides,
            applied.tls_connector is None ==> final(self).inner.hyper.connector
                == applied.state.hyper.connector,
            applied.tls_connector matches Some(tls) ==> final(self).inner.hyper.connector.base().tls
                == tls && (final(self).inner.hyper.connector is Simple) == (
            applied.state.hyper.connector is Simple),
    {
        let Applied { state, http1_config, http2_config, tls_connector } = applied;
        let mut state = state;
        match http1_config {
            Some(c) => {
                state.hyper.set_http1_config(c);
            },
            None => {},
        }
        match http2_config {
            Some(c) => {
                state.hyper.set_http2_config(c);
            },
            None => {},
        }
        match tls_connector {
            Some(tls) => {
                state.hyper.connector_mut().set_tls_connector(tls);
            },
            None => {},
        }
        self.inner = Arc::new(state);
    }
}

} // verus!
