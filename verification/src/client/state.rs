//! The state of a client.
//!
//! The state is one value. An update derives a new value from the current
//! one and puts it in its place as a whole; a request that has begun keeps
//! working from what it read when it began.

use vstd::prelude::*;
use std::sync::Arc;
use std::time::Duration;
use crate::client::dispatch::Dispatcher;
use crate::cookie::CookieStore;
use crate::decoder::Accepts;
use crate::error::Error;
use crate::header::PROXY_AUTHORIZATION;
use crate::header::contains_header;
use crate::header::copy_headers;
use crate::header::copy_opt_names;
use crate::header::extend_headers;
use crate::header::header_fields;
use crate::header::headers_full;
use crate::header::insert_header;
use crate::header::lemma_known_names;
use crate::header::opt_name_texts;
use crate::proxy::Intercept;
use crate::proxy::Proxy;
use crate::proxy::ProxyScheme;
use crate::proxy::copy_proxies;
use crate::proxy::lemma_basic_auth_is_header_value;
use crate::proxy::same_proxies;
use crate::redirect::Policy;
use crate::scheme::NetworkScheme;
use crate::scheme::NetworkSchemeBuilder;
use crate::scheme::NetworkSchemeBuilderView;
use crate::scheme::NetworkSchemeView;
use crate::text::arc_clone;
use crate::tls::connector::CertStore;
use crate::tls::connector::Identity;
use crate::tls::connector::KeyLogPolicy;
use crate::tls::connector::opt_identity_view;
use crate::tls::connector::opt_keylog_view;
use crate::tls::connector::opt_store_view;
use crate::tls::settings::AlpnProtos;
use crate::tls::settings::TlsVersion;
use crate::url::Url;
use crate::url::UrlView;

verus! {

/// The state of a client.
#[derive(Debug)]
pub struct ClientRef<C: CookieStore, L> {
    pub accepts: Accepts,
    pub cookie_store: Option<Arc<C>>,
    pub headers: http::HeaderMap,
    pub headers_order: Option<Vec<String>>,
    pub redirect: Policy,
    pub referer: bool,
    pub total_timeout: Option<Duration>,
    pub read_timeout: Option<Duration>,
    pub https_only: bool,
    pub http2_max_retry_count: usize,
    pub proxies: Vec<Proxy>,
    pub proxies_maybe_http_auth: bool,
    pub network_scheme: NetworkSchemeBuilder,
    pub alpn_protos: Option<AlpnProtos>,
    pub keylog: Option<KeyLogPolicy>,
    pub tls_sni: bool,
    pub verify_hostname: bool,
    pub identity: Option<Identity>,
    pub cert_store: Option<CertStore>,
    pub cert_verification: bool,
    pub min_tls_version: Option<TlsVersion>,
    pub max_tls_version: Option<TlsVersion>,
    /// What the dispatcher is set up with: how HTTP/1 and HTTP/2 are
    /// written, how connections are kept, who resolves names, and how the
    /// client connects.
    pub hyper: Dispatcher<L>,
}

/// Whether two states hold the same settings.
pub open spec fn same_settings<C: CookieStore, L>(a: ClientRef<C, L>, b: ClientRef<C, L>) -> bool {
    &&& a.accepts == b.accepts
    &&& a.cookie_store == b.cookie_store
    &&& header_fields(a.headers) == header_fields(b.headers)
    &&& opt_name_texts(a.headers_order) == opt_name_texts(b.headers_order)
    &&& a.redirect == b.redirect
    &&& a.referer == b.referer
    &&& a.total_timeout == b.total_timeout
    &&& a.read_timeout == b.read_timeout
    &&& a.https_only == b.https_only
    &&& a.http2_max_retry_count == b.http2_max_retry_count
    &&& same_proxies(a.proxies@, b.proxies@)
    &&& a.proxies_maybe_http_auth == b.proxies_maybe_http_auth
    &&& a.network_scheme@ == b.network_scheme@
    &&& a.alpn_protos == b.alpn_protos
    &&& opt_keylog_view(a.keylog) == opt_keylog_view(b.keylog)
    &&& a.tls_sni == b.tls_sni
    &&& a.verify_hostname == b.verify_hostname
    &&& opt_identity_view(a.identity) == opt_identity_view(b.identity)
    &&& opt_store_view(a.cert_store) == opt_store_view(b.cert_store)
    &&& a.cert_verification == b.cert_verification
    &&& a.min_tls_version == b.min_tls_version
    &&& a.max_tls_version == b.max_tls_version
    &&& crate::client::dispatch::same_dispatch(a.hyper, b.hyper)
}

/// The first of `proxies` that takes a request for `uri`, if one does.
pub open spec fn first_taker(proxies: Seq<Proxy>, uri: UrlView) -> Option<int> {
    crate::connect::first_match(proxies, uri)
}

/// The last of `proxies` that takes a request for `uri`, if one does.
pub open spec fn last_taker(proxies: Seq<Proxy>, uri: UrlView) -> Option<int>
    decreases proxies.len(),
{
    if proxies.len() == 0 {
        None
    } else if proxies.last().matches(uri) {
        Some(proxies.len() - 1)
    } else {
        last_taker(proxies.drop_last(), uri)
    }
}

/// Whether a request for `dst` with the given headers is given a
/// `Proxy-Authorization` header: a proxy may supply one, the destination is
/// an `http` URL (for others the header travels in the tunnel request), and
/// the request names none itself.
pub open spec fn wants_proxy_auth<C: CookieStore, L>(
    state: ClientRef<C, L>,
    dst: UrlView,
    fields: Map<Seq<char>, Seq<Seq<u8>>>,
) -> bool {
    state.proxies_maybe_http_auth && dst.scheme == "http"@ && !fields.dom().contains(
        PROXY_AUTHORIZATION@,
    )
}

/// The headers of a request after the proxy `proxy` added what it supplies:
/// its `Proxy-Authorization` header, then its own headers in place of those
/// of the same names.
pub open spec fn with_proxy_headers(fields: Map<Seq<char>, Seq<Seq<u8>>>, proxy: Proxy) -> Map<
    Seq<char>,
    Seq<Seq<u8>>,
> {
    let auth = if proxy.intercept == Intercept::Https {
        None
    } else {
        ProxyScheme::basic_auth_of(proxy.target@)
    };
    let a = match auth {
        Some(v) => fields.insert(PROXY_AUTHORIZATION@, seq![v]),
        None => fields,
    };
    match proxy.target@.custom_headers {
        Some(h) => a.union_prefer_right(h),
        None => a,
    }
}

/// The number of names that the first proxy that takes a request for `dst`
/// adds at most: its `Proxy-Authorization` header and its own headers.
pub open spec fn proxy_names<C: CookieStore, L>(state: ClientRef<C, L>, dst: UrlView) -> nat {
    match first_taker(state.proxies@, dst) {
        Some(i) => 1 + match state.proxies[i].target@.custom_headers {
            Some(h) => h.dom().len(),
            None => 0,
        },
        None => 0,
    }
}

/// The headers of a request for `dst` after the first proxy that takes it
/// added what it supplies.
pub open spec fn proxy_authorized<C: CookieStore, L>(
    state: ClientRef<C, L>,
    dst: UrlView,
    fields: Map<Seq<char>, Seq<Seq<u8>>>,
) -> Map<Seq<char>, Seq<Seq<u8>>> {
    if wants_proxy_auth(state, dst, fields) {
        match first_taker(state.proxies@, dst) {
            Some(i) => with_proxy_headers(fields, state.proxies[i]),
            None => fields,
        }
    } else {
        fields
    }
}

/// The route of a request for `uri` that names none itself: the client's,
/// through the last proxy that takes the request where one does.
pub open spec fn client_route<C: CookieStore, L>(state: ClientRef<C, L>, uri: UrlView)
    -> NetworkSchemeView {
    match last_taker(state.proxies@, uri) {
        Some(i) => (NetworkSchemeBuilderView {
            proxy_scheme: Some(state.proxies[i].target@),
            ..state.network_scheme@
        }).route(),
        None => state.network_scheme@.route(),
    }
}

impl<C: CookieStore, L> ClientRef<C, L> {
    /// Adds what the first proxy that takes a request for `dst` supplies.
    ///
    /// Fails only when the header map is too full, and never where it has
    /// room for what the proxy adds.
    pub fn proxy_auth(&self, dst: &Url, headers: &mut http::HeaderMap) -> (done: Result<(), Error>)
        ensures
            done is Ok ==> header_fields(*final(headers)) == proxy_authorized(
                *self,
                dst@,
                header_fields(*old(headers)),
            ),
            done matches Err(e) ==> e@ == headers_full(),
            !wants_proxy_auth(*self, dst@, header_fields(*old(headers))) ==> done is Ok,
            crate::header::has_room(header_fields(*old(headers)), proxy_names(*self, dst@))
                ==> done is Ok,
            crate::header::grows_by(
                header_fields(*old(headers)),
                header_fields(*final(headers)),
                proxy_names(*self, dst@),
            ),
    {
        if !self.proxies_maybe_http_auth {
            return Ok(());
        }
        if !dst.is_http() {
            return Ok(());
        }
        proof {
            lemma_known_names();
        }
        if contains_header(headers, PROXY_AUTHORIZATION) {
            return Ok(());
        }
        let mut i: usize = 0;
        while i < self.proxies.len()
            invariant
                i <= self.proxies.len(),
                *headers == *old(headers),
                wants_proxy_auth(*self, dst@, header_fields(*old(headers))),
                crate::header::is_header_name(PROXY_AUTHORIZATION@),
                forall|k: int| 0 <= k < i ==> !(#[trigger] self.proxies[k]).matches(dst@),
            decreases self.proxies.len() - i,
        {
            let proxy = &self.proxies[i];
            if proxy.is_match(dst) {
                proof {
                    crate::connect::lemma_first_match(self.proxies@, dst@);
                }
                let ghost room = crate::header::has_room(
                    header_fields(*old(headers)),
                    proxy_names(*self, dst@),
                );
                match proxy.http_basic_auth(dst) {
                    Some(header) => {
                        proof {
                            crate::header::lemma_grows_by_insert(
                                header_fields(*old(headers)),
                                PROXY_AUTHORIZATION@,
                                seq![header@],
                            );
                            if room {
                                crate::header::lemma_room_after_insert(
                                    header_fields(*old(headers)),
                                    PROXY_AUTHORIZATION@,
                                    seq![header@],
                                    (proxy_names(*self, dst@) - 1) as nat,
                                );
                            }
                            let auth = proxy.target@.auth->0;
                            lemma_basic_auth_is_header_value(
                                vstd::utf8::encode_utf8(auth.0),
                                vstd::utf8::encode_utf8(auth.1),
                            );
                        }
                        match insert_header(headers, PROXY_AUTHORIZATION, header.as_slice()) {
                            Ok(_) => {},
                            Err(e) => {
                                return Err(e);
                            },
                        }
                    },
                    None => {},
                }
                match &proxy.target.custom_headers {
                    Some(extra) => {
                        match extend_headers(headers, extra) {
                            Ok(_) => {},
                            Err(e) => {
                                return Err(e);
                            },
                        }
                    },
                    None => {},
                }
                return Ok(());
            }
            i += 1;
        }
        proof {
            crate::connect::lemma_first_match(self.proxies@, dst@);
        }
        Ok(())
    }

    /// The route of a request for `uri`: the one the request names, else
    /// the client's, through the last proxy that takes the request where
    /// one does.
    pub fn network_scheme(&self, uri: &Url, default: NetworkScheme) -> (route: NetworkScheme)
        ensures
            route@ == if default@ is Default {
                client_route(*self, uri@)
            } else {
                default@
            },
    {
        if default.is_default() {
            let mut builder = self.network_scheme.copy();
            let mut i: usize = 0;
            while i < self.proxies.len()
                invariant
                    i <= self.proxies.len(),
                    builder@ == match last_taker(self.proxies@.subrange(0, i as int), uri@) {
                        Some(k) => NetworkSchemeBuilderView {
                            proxy_scheme: Some(self.proxies[k].target@),
                            ..self.network_scheme@
                        },
                        None => self.network_scheme@,
                    },
                decreases self.proxies.len() - i,
            {
                proof {
                    let upto = self.proxies@.subrange(0, i + 1);
                    assert(upto.drop_last() =~= self.proxies@.subrange(0, i as int));
                    assert(upto.last() == self.proxies@[i as int]);
                }
                match self.proxies[i].intercept(uri) {
                    Some(proxy_scheme) => {
                        builder.proxy_scheme(Some(proxy_scheme));
                    },
                    None => {},
                }
                i += 1;
            }
            proof {
                assert(self.proxies@.subrange(0, self.proxies.len() as int) =~= self.proxies@);
            }
            return builder.build();
        }
        default
    }

}

impl<C: CookieStore, L: Clone> ClientRef<C, L> {
    /// A copy of this state. The cookie store is shared, not copied.
    pub fn copy(&self) -> (state: ClientRef<C, L>)
        ensures
            same_settings(state, *self),
    {
        ClientRef {
            accepts: self.accepts,
            cookie_store: match &self.cookie_store {
                Some(s) => Some(arc_clone(s)),
                None => None,
            },
            headers: copy_headers(&self.headers),
            headers_order: copy_opt_names(&self.headers_order),
            redirect: self.redirect,
            referer: self.referer,
            total_timeout: self.total_timeout,
            read_timeout: self.read_timeout,
            https_only: self.https_only,
            http2_max_retry_count: self.http2_max_retry_count,
            proxies: copy_proxies(&self.proxies),
            proxies_maybe_http_auth: self.proxies_maybe_http_auth,
            network_scheme: self.network_scheme.copy(),
            alpn_protos: self.alpn_protos,
            keylog: match &self.keylog {
                Some(k) => Some(k.copy()),
                None => None,
            },
            tls_sni: self.tls_sni,
            verify_hostname: self.verify_hostname,
            identity: match &self.identity {
                Some(i) => Some(i.copy()),
                None => None,
            },
            cert_store: match &self.cert_store {
                Some(s) => Some(s.copy()),
                None => None,
            },
            cert_verification: self.cert_verification,
            min_tls_version: self.min_tls_version,
            max_tls_version: self.max_tls_version,
            hyper: self.hyper.copy(),
        }
    }
}

} // verus!
