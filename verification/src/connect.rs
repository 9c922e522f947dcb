//! Planning a connection.
//!
//! Before anything is dialled the connector decides by what route a
//! destination is reached: directly, through an HTTP proxy (as a tunnel for
//! `https`, by forwarding for `http`), or through a SOCKS proxy. The caller
//! dials as the plan says and wraps the stream it gets.

use vstd::prelude::*;
use std::time::Duration;
use crate::error::Cause;
use crate::error::Error;
use crate::error::ErrorView;
use crate::error::Kind;
use crate::header::copy_headers;
use crate::header::header_fields;
use crate::net::IpAddr;
use crate::net::Ipv4Addr;
use crate::net::Ipv6Addr;
use crate::net::SocketAddr;
use crate::proxy::Proxy;
use crate::proxy::ProxyKind;
use crate::proxy::ProxyScheme;
use crate::proxy::ProxySchemeView;
use crate::tls::connector::TlsConnector;
use crate::tls::connector::TlsInfo;
use crate::url::Url;
use crate::url::UrlView;

verus! {

/// The settings of the TCP connector.
#[derive(Debug)]
pub struct HttpConnector {
    pub keepalive: Option<Duration>,
    pub keepalive_interval: Option<Duration>,
    pub keepalive_retries: Option<u32>,
    pub connect_timeout: Option<Duration>,
    pub interface: Option<String>,
    pub local_address_ipv4: Option<Ipv4Addr>,
    pub local_address_ipv6: Option<Ipv6Addr>,
    pub nodelay: bool,
    pub enforce_http: bool,
}

impl HttpConnector {
    /// A connector that binds nowhere, keeps nothing alive, waits without
    /// limit and accepts `http` destinations only.
    pub fn new() -> (http: HttpConnector)
        ensures
            http.keepalive is None,
            http.keepalive_interval is None,
            http.keepalive_retries is None,
            http.connect_timeout is None,
            http.interface is None,
            http.local_address_ipv4 is None,
            http.local_address_ipv6 is None,
            !http.nodelay,
            http.enforce_http,
    {
        HttpConnector {
            keepalive: None,
            keepalive_interval: None,
            keepalive_retries: None,
            connect_timeout: None,
            interface: None,
            local_address_ipv4: None,
            local_address_ipv6: None,
            nodelay: false,
            enforce_http: true,
        }
    }

    /// A copy of these settings.
    pub fn copy(&self) -> (http: HttpConnector)
        ensures
            http.keepalive == self.keepalive,
            http.keepalive_interval == self.keepalive_interval,
            http.keepalive_retries == self.keepalive_retries,
            http.connect_timeout == self.connect_timeout,
            crate::text::opt_text(http.interface) == crate::text::opt_text(self.interface),
            http.local_address_ipv4 == self.local_address_ipv4,
            http.local_address_ipv6 == self.local_address_ipv6,
            http.nodelay == self.nodelay,
            http.enforce_http == self.enforce_http,
    {
        HttpConnector {
            keepalive: self.keepalive,
            keepalive_interval: self.keepalive_interval,
            keepalive_retries: self.keepalive_retries,
            connect_timeout: self.connect_timeout,
            interface: match &self.interface {
                Some(i) => Some(i.clone()),
                None => None,
            },
            local_address_ipv4: self.local_address_ipv4,
            local_address_ipv6: self.local_address_ipv6,
            nodelay: self.nodelay,
            enforce_http: self.enforce_http,
        }
    }

    /// Binds to `addr`, clearing the slot of the other family; clears both
    /// where `addr` is absent.
    pub fn set_local_address(&mut self, addr: Option<IpAddr>)
        ensures
            *final(self) == (HttpConnector {
                local_address_ipv4: crate::net::split_address(addr).0,
                local_address_ipv6: crate::net::split_address(addr).1,
                ..*old(self)
            }),
    {
        let pair = crate::net::split_local_address(addr);
        self.local_address_ipv4 = pair.0;
        self.local_address_ipv6 = pair.1;
    }

    /// Binds to one address of each family.
    pub fn set_local_addresses(&mut self, ipv4: Ipv4Addr, ipv6: Ipv6Addr)
        ensures
            *final(self) == (HttpConnector {
                local_address_ipv4: Some(ipv4),
                local_address_ipv6: Some(ipv6),
                ..*old(self)
            }),
    {
        self.local_address_ipv4 = Some(ipv4);
        self.local_address_ipv6 = Some(ipv6);
    }
}

/// Whether the bytes that pass through a connection are traced.
#[derive(Clone, Copy, Debug, PartialEq, Eq, Structural)]
pub struct Wrapper(pub bool);

impl Wrapper {
    /// The number under which a connection is traced: the low 32 bits of
    /// `random` where connections are traced at all and tracing is compiled
    /// in (`tracing`), else nothing.
    pub fn wrap(&self, tracing: bool, random: u64) -> (id: Option<u32>)
        ensures
            id == if self.0 && tracing {
                Some((random % 0x1_0000_0000) as u32)
            } else {
                None
            },
    {
        if self.0 && tracing {
            Some((random % 0x1_0000_0000) as u32)
        } else {
            None
        }
    }
}

/// Collects what a connector is made of.
#[derive(Debug)]
pub struct ConnectorBuilder {
    pub http: HttpConnector,
    pub tls: TlsConnector,
    pub proxies: Vec<Proxy>,
    pub verbose: Wrapper,
    pub timeout: Option<Duration>,
    pub nodelay: bool,
    pub tls_info: bool,
}

/// The connector without caller-supplied layers.
#[derive(Debug)]
pub struct ConnectorService {
    pub http: HttpConnector,
    pub tls: TlsConnector,
    pub proxies: Vec<Proxy>,
    pub verbose: Wrapper,
    pub timeout: Option<Duration>,
    pub nodelay: bool,
    pub tls_info: bool,
}

/// A connector: the base service alone, or wrapped in the layers the caller
/// supplied. With layers the deadline on connecting, if there is one, is
/// applied around them.
#[derive(Debug)]
pub enum Connector<L> {
    /// The base service, with or without a deadline of its own.
    Simple(ConnectorService),
    /// The base service under at least the layers given.
    WithLayers { layers: Vec<L>, base_service: ConnectorService },
}

impl ConnectorBuilder {
    /// The connector these parts make: the base service alone where no
    /// layers are given, else the base service under the layers.
    pub fn build<L>(self, layers: Option<Vec<L>>) -> (connector: Connector<L>)
        ensures
            connector.base() == (ConnectorService {
                http: self.http,
                tls: self.tls,
                proxies: self.proxies,
                verbose: self.verbose,
                timeout: self.timeout,
                nodelay: self.nodelay,
                tls_info: self.tls_info,
            }),
            layers is None ==> connector is Simple,
            layers matches Some(l) ==> connector is WithLayers && connector->layers == l,
    {
        let base_service = ConnectorService {
            http: self.http,
            tls: self.tls,
            proxies: self.proxies,
            verbose: self.verbose,
            nodelay: self.nodelay,
            tls_info: self.tls_info,
            timeout: self.timeout,
        };
        match layers {
            Some(layers) => Connector::WithLayers { layers, base_service },
            None => Connector::Simple(base_service),
        }
    }

    /// Sets how long an idle connection waits before it probes.
    pub fn keepalive(self, dur: Option<Duration>) -> (builder: ConnectorBuilder)
        ensures
            builder == (ConnectorBuilder {
                http: HttpConnector { keepalive: dur, ..self.http },
                ..self
            }),
    {
        let mut builder = self;
        builder.http.keepalive = dur;
        builder
    }

    /// Sets the time between two probes.
    pub fn tcp_keepalive_interval(self, dur: Option<Duration>) -> (builder: ConnectorBuilder)
        ensures
            builder == (ConnectorBuilder {
                http: HttpConnector { keepalive_interval: dur, ..self.http },
                ..self
            }),
    {
        let mut builder = self;
        builder.http.keepalive_interval = dur;
        builder
    }

    /// Sets the number of probes before a connection is given up.
    pub fn tcp_keepalive_retries(self, retries: Option<u32>) -> (builder: ConnectorBuilder)
        ensures
            builder == (ConnectorBuilder {
                http: HttpConnector { keepalive_retries: retries, ..self.http },
                ..self
            }),
    {
        let mut builder = self;
        builder.http.keepalive_retries = retries;
        builder
    }

    /// Sets the deadline on connecting, for the connector as a whole and
    /// for dialling.
    pub fn timeout(self, timeout: Option<Duration>) -> (builder: ConnectorBuilder)
        ensures
            builder == (ConnectorBuilder {
                http: HttpConnector { connect_timeout: timeout, ..self.http },
                timeout,
                ..self
            }),
    {
        let mut builder = self;
        builder.timeout = timeout;
        builder.http.connect_timeout = timeout;
        builder
    }

    /// Sets the interface to bind to.
    pub fn interface(self, iface: Option<String>) -> (builder: ConnectorBuilder)
        ensures
            builder == (ConnectorBuilder {
                http: HttpConnector { interface: iface, ..self.http },
                ..self
            }),
    {
        let mut builder = self;
        builder.http.interface = iface;
        builder
    }

    /// Sets the local addresses to bind to. With one address the slot of
    /// the other family is cleared; with none the builder stays as it is.
    pub fn local_addresses(
        self,
        local_ipv4_address: Option<Ipv4Addr>,
        local_ipv6_address: Option<Ipv6Addr>,
    ) -> (builder: ConnectorBuilder)
        ensures
            local_ipv4_address is None && local_ipv6_address is None ==> builder == self,
            local_ipv4_address is Some || local_ipv6_address is Some ==> builder == (
            ConnectorBuilder {
                http: HttpConnector {
                    local_address_ipv4: local_ipv4_address,
                    local_address_ipv6: local_ipv6_address,
                    ..self.http
                },
                ..self
            }),
    {
        let mut builder = self;
        match (local_ipv4_address, local_ipv6_address) {
            (Some(ipv4), None) => builder.http.set_local_address(Some(IpAddr::V4(ipv4))),
            (None, Some(ipv6)) => builder.http.set_local_address(Some(IpAddr::V6(ipv6))),
            (Some(ipv4), Some(ipv6)) => {
                builder.http.set_local_addresses(ipv4, ipv6);
            },
            (None, None) => {},
        }
        builder
    }

    /// Sets whether the bytes that pass through connections are traced.
    pub fn verbose(self, enabled: bool) -> (builder: ConnectorBuilder)
        ensures
            builder == (ConnectorBuilder { verbose: Wrapper(enabled), ..self }),
    {
        let mut builder = self;
        builder.verbose = Wrapper(enabled);
        builder
    }
}

impl<L> Connector<L> {
    /// The base service of the connector.
    pub open spec fn base(&self) -> ConnectorService {
        match self {
            Connector::Simple(service) => *service,
            Connector::WithLayers { base_service, .. } => *base_service,
        }
    }

    /// A builder for a connector over `http` and `tls`. The TCP connector
    /// is told to accept destinations of any scheme.
    pub fn builder(
        http: HttpConnector,
        tls: TlsConnector,
        proxies: Vec<Proxy>,
        nodelay: bool,
        tls_info: bool,
    ) -> (builder: ConnectorBuilder)
        ensures
            builder == (ConnectorBuilder {
                http: HttpConnector { enforce_http: false, ..http },
                tls,
                proxies,
                verbose: Wrapper(false),
                timeout: None,
                nodelay,
                tls_info,
            }),
    {
        let mut http = http;
        http.enforce_http = false;
        ConnectorBuilder {
            http,
            tls,
            proxies,
            verbose: Wrapper(false),
            timeout: None,
            nodelay,
            tls_info,
        }
    }

    /// Replaces the TLS connector. A connector with layers is rebuilt from
    /// its base service under the same layers, so that its TCP connector
    /// once more accepts any scheme and dials under the connector's
    /// deadline.
    pub fn set_tls_connector(&mut self, connector: TlsConnector)
        ensures
            *old(self) is Simple ==> *final(self) == Connector::<L>::Simple(
                ConnectorService { tls: connector, ..old(self).base() },
            ),
            *old(self) is WithLayers ==> *final(self) == (Connector::<L>::WithLayers {
                layers: (*old(self))->layers,
                base_service: ConnectorService {
                    tls: connector,
                    http: HttpConnector {
                        enforce_http: false,
                        connect_timeout: old(self).base().timeout,
                        ..old(self).base().http
                    },
                    ..old(self).base()
                },
            }),
    {
        match self {
            Connector::Simple(service) => {
                service.tls = connector;
            },
            Connector::WithLayers { base_service, .. } => {
                base_service.tls = connector;
                base_service.http.enforce_http = false;
                base_service.http.connect_timeout = base_service.timeout;
            },
        }
    }

    /// The base service of the connector.
    pub fn base_service(&self) -> (service: &ConnectorService)
        ensures
            *service == self.base(),
    {
        match self {
            Connector::Simple(service) => service,
            Connector::WithLayers { base_service, .. } => base_service,
        }
    }
}

/// A destination to connect to.
#[derive(Debug)]
pub struct Dst {
    /// The URL of the destination.
    pub uri: Url,
    /// The proxy the request itself asks for.
    pub proxy: Option<ProxyScheme>,
}

impl Dst {
    /// Takes the proxy the request asks for out of the destination.
    pub fn take_proxy_intercepted(&mut self) -> (proxy: Option<ProxyScheme>)
        ensures
            proxy == old(self).proxy,
            final(self).proxy is None,
            final(self).uri == old(self).uri,
    {
        self.proxy.take()
    }

    /// Replaces the URL.
    pub fn set_uri(&mut self, uri: Url)
        ensures
            final(self).uri == uri,
            final(self).proxy == old(self).proxy,
    {
        self.uri = uri;
    }
}

/// A destination as a layer of the caller sees it.
#[derive(Debug)]
pub struct Unnameable(pub Dst);

/// Who resolves the name of the target behind a SOCKS proxy.
#[derive(Clone, Copy, Debug, PartialEq, Eq, Structural)]
pub enum DnsResolve {
    /// The client.
    Local,
    /// The proxy.
    Proxy,
}

/// The version of SOCKS to speak.
#[derive(Clone, Copy, Debug, PartialEq, Eq, Structural)]
pub enum SocksVersion {
    V4,
    V5,
}

/// What to tell a SOCKS proxy to connect to.
#[derive(Debug)]
pub enum TargetAddr {
    /// An address the client resolved.
    Ip(SocketAddr),
    /// A name for the proxy to resolve.
    Domain(String, u16),
}

/// The flags a connection carries.
#[derive(Clone, Copy, Debug, PartialEq, Eq, Structural)]
pub struct Conn {
    /// Requests on the connection are written in the form for proxies.
    pub is_proxy: bool,
    /// The peer's certificate is reported.
    pub tls_info: bool,
}

/// The route by which a destination is reached.
#[derive(Debug)]
pub enum Route {
    /// Dial `uri`, with TLS where it is an `https` URL. While the TLS
    /// handshake runs, Nagle's algorithm is switched off where
    /// `handshake_nodelay` says so, and switched on again afterwards.
    Direct { uri: Url, handshake_nodelay: bool, conn: Conn },
    /// Dial the HTTP proxy `proxy`, ask it for a tunnel to `target` with the
    /// given authorisation and headers, and run TLS for `host` inside.
    Tunnel {
        proxy: Url,
        target: Url,
        host: String,
        auth: Option<Vec<u8>>,
        headers: Option<http::HeaderMap>,
        conn: Conn,
    },
    /// Dial the SOCKS proxy `via` and have it connect to `host` and
    /// `port`, resolved by whom `dns` says; run TLS for `host` on top where
    /// `tls` says so.
    Socks {
        via: ProxyScheme,
        version: SocksVersion,
        dns: DnsResolve,
        host: String,
        port: u16,
        tls: bool,
        conn: Conn,
    },
}

/// A route, to contracts.
pub ghost enum RouteView {
    Direct { uri: UrlView, handshake_nodelay: bool, conn: Conn },
    Tunnel {
        proxy: UrlView,
        target: UrlView,
        host: Seq<char>,
        auth: Option<Seq<u8>>,
        headers: Option<Map<Seq<char>, Seq<Seq<u8>>>>,
        conn: Conn,
    },
    Socks {
        via: ProxySchemeView,
        version: SocksVersion,
        dns: DnsResolve,
        host: Seq<char>,
        port: u16,
        tls: bool,
        conn: Conn,
    },
}

impl View for Route {
    type V = RouteView;

    open spec fn view(&self) -> RouteView {
        match self {
            Route::Direct { uri, handshake_nodelay, conn } => RouteView::Direct {
                uri: uri@,
                handshake_nodelay: *handshake_nodelay,
                conn: *conn,
            },
            Route::Tunnel { proxy, target, host, auth, headers, conn } => RouteView::Tunnel {
                proxy: proxy@,
                target: target@,
                host: host@,
                auth: match auth {
                    Some(a) => Some(a@),
                    None => None,
                },
                headers: match headers {
                    Some(h) => Some(header_fields(*h)),
                    None => None,
                },
                conn: *conn,
            },
            Route::Socks { via, version, dns, host, port, tls, conn } => RouteView::Socks {
                via: via@,
                version: *version,
                dns: *dns,
                host: host@,
                port: *port,
                tls: *tls,
                conn: *conn,
            },
        }
    }
}

/// The error for a destination without a host.
pub open spec fn bad_host() -> ErrorView {
    ErrorView { kind: Kind::Url, cause: Cause::BadHost, url: None, target: None }
}

/// Who resolves the target's name behind a SOCKS proxy of the given kind.
pub open spec fn dns_mode(kind: ProxyKind) -> DnsResolve {
    match kind {
        ProxyKind::Socks4a | ProxyKind::Socks5h => DnsResolve::Proxy,
        _ => DnsResolve::Local,
    }
}

/// The version of SOCKS that a proxy of the given kind speaks.
pub open spec fn socks_version(kind: ProxyKind) -> SocksVersion {
    match kind {
        ProxyKind::Socks4 | ProxyKind::Socks4a => SocksVersion::V4,
        _ => SocksVersion::V5,
    }
}

/// The port of a destination: the one its URL names, else 443 for `https`
/// and 80 for everything else.
pub open spec fn port_of(uri: UrlView) -> u16 {
    match uri.port {
        Some(p) => p,
        None => if uri.scheme == "https"@ {
            443
        } else {
            80
        },
    }
}

/// The route to `uri` through `proxy`.
pub open spec fn route_via_proxy(service: ConnectorService, uri: UrlView, proxy: ProxySchemeView)
    -> Result<RouteView, ErrorView> {
    if proxy.kind.is_socks() {
        match uri.host {
            Some(host) => Ok(
                RouteView::Socks {
                    via: proxy,
                    version: socks_version(proxy.kind),
                    dns: dns_mode(proxy.kind),
                    host,
                    port: port_of(uri),
                    tls: uri.scheme == "https"@,
                    conn: Conn {
                        is_proxy: false,
                        tls_info: uri.scheme == "https"@ && service.tls_info,
                    },
                },
            ),
            None => Err(bad_host()),
        }
    } else if uri.scheme == "https"@ {
        match uri.host {
            Some(host) => Ok(
                RouteView::Tunnel {
                    proxy: proxy.uri,
                    target: uri,
                    host,
                    auth: ProxyScheme::basic_auth_of(proxy),
                    headers: proxy.custom_headers,
                    conn: Conn { is_proxy: false, tls_info: service.tls_info },
                },
            ),
            None => Err(bad_host()),
        }
    } else {
        Ok(route_direct(service, proxy.uri, true))
    }
}

/// The route that dials `uri` itself. For an `https` URL Nagle's algorithm
/// is switched off during the handshake unless it is off anyway.
pub open spec fn route_direct(service: ConnectorService, uri: UrlView, is_proxy: bool)
    -> RouteView {
    RouteView::Direct {
        uri,
        handshake_nodelay: !service.nodelay && uri.scheme == "https"@,
        conn: Conn { is_proxy, tls_info: service.tls_info },
    }
}

/// The first of `proxies` that takes a request for `uri`, if one does.
pub open spec fn first_match(proxies: Seq<Proxy>, uri: UrlView) -> Option<int>
    decreases proxies.len(),
{
    if proxies.len() == 0 {
        None
    } else if proxies[0].matches(uri) {
        Some(0)
    } else {
        match first_match(proxies.skip(1), uri) {
            Some(i) => Some(i + 1),
            None => None,
        }
    }
}

/// The first of `proxies` takes `uri`, or a later one found in the rest
/// does.
pub proof fn lemma_first_match(proxies: Seq<Proxy>, uri: UrlView)
    ensures
        match first_match(proxies, uri) {
            Some(i) => 0 <= i < proxies.len() && proxies[i].matches(uri) && forall|k: int|
                0 <= k < i ==> !(#[trigger] proxies[k]).matches(uri),
            None => forall|k: int| 0 <= k < proxies.len() ==> !(#[trigger] proxies[k]).matches(uri),
        },
    decreases proxies.len(),
{
    if proxies.len() > 0 && !proxies[0].matches(uri) {
        lemma_first_match(proxies.skip(1), uri);
        match first_match(proxies.skip(1), uri) {
            Some(i) => {
                assert forall|k: int| 0 <= k < i + 1 implies !(#[trigger] proxies[k]).matches(
                    uri,
                ) by {
                    if k > 0 {
                        assert(proxies.skip(1)[k - 1] == proxies[k]);
                    }
                }
            },
            None => {
                assert forall|k: int| 0 <= k < proxies.len() implies !(
                #[trigger] proxies[k]).matches(uri) by {
                    if k > 0 {
                        assert(proxies.skip(1)[k - 1] == proxies[k]);
                    }
                }
            },
        }
    }
}

/// The route to a destination: through the proxy the request asks for;
/// else through the first proxy of the connector that takes the
/// destination; else directly.
pub open spec fn planned_route(service: ConnectorService, dst: Dst) -> Result<RouteView, ErrorView> {
    match dst.proxy {
        Some(p) => route_via_proxy(service, dst.uri@, p@),
        None => match first_match(service.proxies@, dst.uri@) {
            Some(i) => route_via_proxy(service, dst.uri@, service.proxies[i].target@),
            None => Ok(route_direct(service, dst.uri@, false)),
        },
    }
}

/// The view of a planned route.
pub open spec fn route_result_view(route: Result<Route, Error>) -> Result<RouteView, ErrorView> {
    match route {
        Ok(r) => Ok(r@),
        Err(e) => Err(e@),
    }
}

/// A plan for reaching a destination.
#[derive(Debug)]
pub struct Connecting {
    /// The route, or the reason why there is none.
    pub route: Result<Route, Error>,
    /// The deadline on the whole of connecting.
    pub timeout: Option<Duration>,
}

/// Whether two base services are set up alike.
pub open spec fn same_service(a: ConnectorService, b: ConnectorService) -> bool {
    &&& a.http.keepalive == b.http.keepalive
    &&& a.http.keepalive_interval == b.http.keepalive_interval
    &&& a.http.keepalive_retries == b.http.keepalive_retries
    &&& a.http.connect_timeout == b.http.connect_timeout
    &&& crate::text::opt_text(a.http.interface) == crate::text::opt_text(b.http.interface)
    &&& a.http.local_address_ipv4 == b.http.local_address_ipv4
    &&& a.http.local_address_ipv6 == b.http.local_address_ipv6
    &&& a.http.nodelay == b.http.nodelay
    &&& a.http.enforce_http == b.http.enforce_http
    &&& a.tls@ == b.tls@
    &&& crate::proxy::same_proxies(a.proxies@, b.proxies@)
    &&& a.verbose == b.verbose
    &&& a.timeout == b.timeout
    &&& a.nodelay == b.nodelay
    &&& a.tls_info == b.tls_info
}

impl ConnectorService {
    /// A copy of this service.
    pub fn copy(&self) -> (service: ConnectorService)
        ensures
            same_service(service, *self),
    {
        ConnectorService {
            http: self.http.copy(),
            tls: self.tls.copy(),
            proxies: crate::proxy::copy_proxies(&self.proxies),
            verbose: self.verbose,
            timeout: self.timeout,
            nodelay: self.nodelay,
            tls_info: self.tls_info,
        }
    }

    /// The host and port to name to a SOCKS proxy.
    pub fn extract_host_port(dst: &Url) -> (target: Result<(String, u16), Error>)
        ensures
            target is Ok == dst@.host is Some,
            target matches Ok(t) ==> t.0@ == dst@.host->0 && t.1 == port_of(dst@),
            target matches Err(e) ==> e@ == bad_host(),
    {
        let https = dst.is_https();
        let host = match dst.host_str() {
            Some(h) => h.to_owned(),
            None => {
                return Err(Error::uri_bad_host());
            },
        };
        let port = match dst.port_or_known_default() {
            Some(p) => p,
            None => if https {
                443
            } else {
                80
            },
        };
        Ok((host, port))
    }

    /// The route that dials `uri` itself.
    pub fn connect_with_maybe_proxy(&self, uri: Url, is_proxy: bool) -> (route: Route)
        ensures
            route@ == route_direct(*self, uri@, is_proxy),
    {
        let handshake_nodelay = !self.nodelay && uri.is_https();
        Route::Direct { uri, handshake_nodelay, conn: Conn { is_proxy, tls_info: self.tls_info } }
    }

    /// The route to `uri` through the SOCKS proxy `proxy`.
    pub fn connect_socks(&self, uri: Url, proxy: ProxyScheme) -> (route: Result<Route, Error>)
        requires
            proxy@.kind.is_socks(),
        ensures
            route_result_view(route) == route_via_proxy(*self, uri@, proxy@),
    {
        let dns = match proxy.kind {
            ProxyKind::Socks4a | ProxyKind::Socks5h => DnsResolve::Proxy,
            _ => DnsResolve::Local,
        };
        let version = match proxy.kind {
            ProxyKind::Socks4 | ProxyKind::Socks4a => SocksVersion::V4,
            _ => SocksVersion::V5,
        };
        let tls = uri.is_https();
        match ConnectorService::extract_host_port(&uri) {
            Ok(target) => Ok(
                Route::Socks {
                    via: proxy,
                    version,
                    dns,
                    host: target.0,
                    port: target.1,
                    tls,
                    conn: Conn { is_proxy: false, tls_info: tls && self.tls_info },
                },
            ),
            Err(e) => Err(e),
        }
    }

    /// The route to `uri` through `proxy`: a SOCKS route for a SOCKS proxy;
    /// for an HTTP proxy a tunnel where the destination is `https`, else the
    /// proxy in the destination's place.
    pub fn connect_via_proxy(&self, uri: Url, proxy: ProxyScheme) -> (route: Result<Route, Error>)
        ensures
            route_result_view(route) == route_via_proxy(*self, uri@, proxy@),
    {
        if proxy.kind.is_socks() {
            return self.connect_socks(uri, proxy);
        }
        if uri.is_https() {
            let host = match uri.host_str() {
                Some(h) => h.to_owned(),
                None => {
                    return Err(Error::uri_bad_host());
                },
            };
            let auth = proxy.basic_auth();
            let headers = match &proxy.custom_headers {
                Some(h) => Some(copy_headers(h)),
                None => None,
            };
            return Ok(
                Route::Tunnel {
                    proxy: proxy.uri,
                    target: uri,
                    host,
                    auth,
                    headers,
                    conn: Conn { is_proxy: false, tls_info: self.tls_info },
                },
            );
        }
        Ok(self.connect_with_maybe_proxy(proxy.uri, true))
    }

    /// Plans the connection to `dst`.
    pub fn call(&self, dst: Dst) -> (plan: Connecting)
        ensures
            route_result_view(plan.route) == planned_route(*self, dst),
            plan.timeout == self.timeout,
    {
        let Dst { uri, proxy } = dst;
        match proxy {
            Some(p) => {
                return Connecting { route: self.connect_via_proxy(uri, p), timeout: self.timeout };
            },
            None => {},
        }
        let mut i: usize = 0;
        while i < self.proxies.len()
            invariant
                i <= self.proxies.len(),
                dst.uri == uri,
                dst.proxy is None,
                forall|k: int| 0 <= k < i ==> !(#[trigger] self.proxies[k]).matches(uri@),
            decreases self.proxies.len() - i,
        {
            match self.proxies[i].intercept(&uri) {
                Some(target) => {
                    proof {
                        lemma_first_match(self.proxies@, uri@);
                    }
                    return Connecting {
                        route: self.connect_via_proxy(uri, target),
                        timeout: self.timeout,
                    };
                },
                None => {},
            }
            i += 1;
        }
        proof {
            lemma_first_match(self.proxies@, uri@);
        }
        Connecting { route: Ok(self.connect_with_maybe_proxy(uri, false)), timeout: self.timeout }
    }
}

impl<L: Clone> Connector<L> {
    /// A copy of this connector: a base service that is set up alike,
    /// under copies of the same layers.
    pub fn copy(&self) -> (connector: Connector<L>)
        ensures
            same_service(connector.base(), self.base()),
            connector is Simple == self is Simple,
            connector matches Connector::WithLayers { layers, .. } ==> layers@.len()
                == self->layers@.len(),
    {
        match self {
            Connector::Simple(service) => Connector::Simple(service.copy()),
            Connector::WithLayers { layers, base_service } => {
                let mut copies: Vec<L> = Vec::new();
                let mut i: usize = 0;
                while i < layers.len()
                    invariant
                        i <= layers.len(),
                        copies@.len() == i,
                    decreases layers.len() - i,
                {
                    copies.push(layers[i].clone());
                    i += 1;
                }
                Connector::WithLayers { layers: copies, base_service: base_service.copy() }
            },
        }
    }
}

impl<L> Connector<L> {
    /// Plans the connection to `dst`.
    pub fn call(&self, dst: Dst) -> (plan: Connecting)
        ensures
            route_result_view(plan.route) == planned_route(self.base(), dst),
            plan.timeout == self.base().timeout,
    {
        match self {
            Connector::Simple(service) => service.call(dst),
            Connector::WithLayers { base_service, .. } => base_service.call(dst),
        }
    }
}

/// The credentials to present to a SOCKS proxy: those of the proxy where
/// version 5 is spoken, none with version 4.
pub fn socks_credentials(version: SocksVersion, via: &ProxyScheme) -> (auth: Option<
    &crate::proxy::Credentials,
>)
    ensures
        version == SocksVersion::V4 ==> auth is None,
        version == SocksVersion::V5 ==> auth is Some == via.auth is Some,
        auth matches Some(c) ==> *c == via.auth->0,
{
    match version {
        SocksVersion::V4 => None,
        SocksVersion::V5 => match &via.auth {
            Some(c) => Some(c),
            None => None,
        },
    }
}

/// How an attempt under a deadline ended.
pub enum Attempt<T> {
    /// The deadline passed first.
    Elapsed,
    /// The attempt ended with this result.
    Finished(Result<T, Error>),
}

/// The result of an attempt under a deadline: where the deadline passed
/// first, a timeout; else the attempt's own result.
pub fn with_timeout<T>(outcome: Attempt<T>) -> (result: Result<T, Error>)
    ensures
        match outcome {
            Attempt::Elapsed => result matches Err(e) && e@ == (ErrorView {
                kind: Kind::TimedOut,
                cause: Cause::Unspecified,
                url: None,
                target: None,
            }),
            Attempt::Finished(r) => result == r,
        },
{
    match outcome {
        Attempt::Elapsed => Err(Error::new(Kind::TimedOut, Cause::Unspecified)),
        Attempt::Finished(r) => r,
    }
}

/// The address of a proxy: the first its name resolves to.
pub fn resolve_proxy_addr(resolved: Option<SocketAddr>) -> (addr: Result<SocketAddr, Error>)
    ensures
        match resolved {
            Some(a) => addr == Ok::<SocketAddr, Error>(a),
            None => addr matches Err(e) && e@ == (ErrorView {
                kind: Kind::Connect,
                cause: Cause::Unspecified,
                url: None,
                target: None,
            }),
        },
{
    match resolved {
        Some(a) => Ok(a),
        None => Err(Error::new(Kind::Connect, Cause::Unspecified)),
    }
}

/// What to name to a SOCKS proxy as the target: where the client resolves
/// and found an address, that address; else host and port.
pub fn resolve_target_addr(
    host: String,
    port: u16,
    dns_mode: DnsResolve,
    resolved: Option<SocketAddr>,
) -> (target: TargetAddr)
    ensures
        match (dns_mode, resolved) {
            (DnsResolve::Local, Some(a)) => target == TargetAddr::Ip(a),
            _ => target == TargetAddr::Domain(host, port),
        },
{
    match dns_mode {
        DnsResolve::Local => match resolved {
            Some(addr) => TargetAddr::Ip(addr),
            None => TargetAddr::Domain(host, port),
        },
        DnsResolve::Proxy => TargetAddr::Domain(host, port),
    }
}

/// What a layer beneath reports of a connection.
#[derive(Debug)]
pub struct Connected {
    /// Requests are written in the form for proxies.
    pub is_proxied: bool,
    /// HTTP/2 was negotiated.
    pub negotiated_h2: bool,
    /// What is known of the TLS connection.
    pub extra: Option<TlsInfo>,
}

impl Conn {
    /// What is reported of a connection with these flags: what the stream
    /// beneath reports, with the proxy flag of the connection; and with the
    /// peer's certificate, where the connection reports it and the stream
    /// has one.
    pub fn connected(&self, inner: Connected, tls_info: Option<TlsInfo>) -> (connected: Connected)
        ensures
            connected.is_proxied == self.is_proxy,
            connected.negotiated_h2 == inner.negotiated_h2,
            connected.extra == if self.tls_info && tls_info is Some {
                tls_info
            } else {
                inner.extra
            },
    {
        let mut connected = inner;
        connected.is_proxied = self.is_proxy;
        if self.tls_info {
            match tls_info {
                Some(info) => {
                    connected.extra = Some(info);
                },
                None => {},
            }
        }
        connected
    }
}

/// What is reported of a TLS stream: what the stream beneath reports, and
/// that HTTP/2 was negotiated where the peer selected `h2`.
pub fn tls_connected(inner: Connected, selected_alpn: Option<&[u8]>) -> (connected: Connected)
    ensures
        connected.is_proxied == inner.is_proxied,
        connected.extra == inner.extra,
        connected.negotiated_h2 == (inner.negotiated_h2 || (selected_alpn matches Some(p) && p@
            == seq![104u8, 50u8])),
{
    let mut connected = inner;
    match selected_alpn {
        Some(p) => {
            if p.len() == 2 && p[0] == 104 && p[1] == 50 {
                proof {
                    assert(p@ =~= seq![104u8, 50u8]);
                }
                connected.negotiated_h2 = true;
            }
        },
        None => {},
    }
    connected
}

} // verus!
