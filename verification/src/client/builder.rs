//! Configuring a client.

use vstd::prelude::*;
use std::sync::Arc;
use std::time::Duration;
use crate::client::dispatch::Dispatcher;
use crate::client::dispatch::LookupIpStrategy;
use crate::client::dispatch::Resolver;
use crate::client::state::ClientRef;
use crate::client::Client;
use crate::connect::Connector;
use crate::connect::HttpConnector;
use crate::connect::Wrapper;
use crate::cookie::CookieStore;
use crate::cookie::Jar;
use crate::decoder::Accepts;
use crate::emulation::EmulationProvider;
use crate::emulation::EmulationProviderFactory;
use crate::error::Cause;
use crate::error::Error;
use crate::error::ErrorView;
use crate::error::Kind;
use crate::header::USER_AGENT;
use crate::header::header_fields;
use crate::header::headers_full;
use crate::header::insert_header;
use crate::header::invalid_value;
use crate::header::is_header_value;
use crate::header::lemma_known_names;
use crate::header::new_headers;
use crate::header::no_fields;
use crate::http1::Http1Config;
use crate::http2::Http2Config;
use crate::net::IpAddr;
use crate::net::Ipv4Addr;
use crate::net::Ipv6Addr;
use crate::net::SocketAddr;
use crate::net::split_address;
use crate::net::split_local_address;
use crate::proxy::Proxy;
use crate::proxy::any_http_auth;
use crate::proxy::proxies_maybe_http_auth;
use crate::redirect::Policy;
use crate::scheme::NetworkScheme;
use crate::scheme::NetworkSchemeBuilder;
use crate::text::str_eq;
use crate::tls::connector::CertStore;
use crate::tls::connector::Identity;
use crate::tls::connector::KeyLogPolicy;
use crate::tls::connector::TlsConnector;
use crate::tls::connector::TlsConnectorView;
use crate::tls::connector::apply_client_choices;
use crate::tls::connector::opt_identity_view;
use crate::tls::connector::opt_keylog_view;
use crate::tls::connector::with_client_choices;
use crate::tls::settings::AlpnProtos;
use crate::tls::settings::HttpVersionPref;
use crate::tls::settings::TlsConfig;
use crate::tls::settings::TlsVersion;
use crate::tls::settings::default_tls_settings;

verus! {

/// The addresses that a host name resolves to without being looked up.
#[derive(Debug)]
pub struct DnsOverride {
    pub domain: String,
    pub addrs: Vec<SocketAddr>,
}

/// What a client is built from.
#[derive(Debug)]
pub struct Config<C: CookieStore, L> {
    pub headers: http::HeaderMap,
    pub headers_order: Option<Vec<String>>,
    pub accepts: Accepts,
    pub connect_timeout: Option<Duration>,
    pub connection_verbose: bool,
    pub pool_idle_timeout: Option<Duration>,
    pub pool_max_idle_per_host: usize,
    pub pool_max_size: Option<usize>,
    pub tcp_keepalive: Option<Duration>,
    pub tcp_keepalive_interval: Option<Duration>,
    pub tcp_keepalive_retries: Option<u32>,
    pub proxies: Vec<Proxy>,
    pub auto_sys_proxy: bool,
    pub system_proxies: Vec<Proxy>,
    pub redirect_policy: Policy,
    pub referer: bool,
    pub timeout: Option<Duration>,
    pub read_timeout: Option<Duration>,
    pub network_scheme: NetworkSchemeBuilder,
    pub nodelay: bool,
    pub cookie_store: Option<Arc<C>>,
    pub hickory_dns: bool,
    /// Whether names are looked up by a resolver that the caller supplies.
    pub custom_resolver: bool,
    pub error: Option<Error>,
    pub dns_overrides: Vec<DnsOverride>,
    pub dns_strategy: Option<LookupIpStrategy>,
    pub https_only: bool,
    pub http1_config: Http1Config,
    pub http2_config: Http2Config,
    pub http2_max_retry_count: usize,
    pub connector_layers: Option<Vec<L>>,
    pub alpn_protos: Option<AlpnProtos>,
    pub keylog_policy: Option<KeyLogPolicy>,
    pub tls_info: bool,
    pub tls_sni: bool,
    pub verify_hostname: bool,
    pub identity: Option<Identity>,
    pub cert_store: Option<CertStore>,
    pub cert_verification: bool,
    pub min_tls_version: Option<TlsVersion>,
    pub max_tls_version: Option<TlsVersion>,
    pub tls_config: TlsConfig,
}

/// Collects what a client is built from.
#[derive(Debug)]
pub struct ClientBuilder<C: CookieStore, L> {
    pub config: Config<C, L>,
}

/// The error for a certificate that cannot be pinned.
pub open spec fn bad_certificate() -> ErrorView {
    ErrorView { kind: Kind::Builder, cause: Cause::InvalidCertificate, url: None, target: None }
}

/// Whether `after` is `before` with `value` as the user agent: the value
/// stands in the headers; or, exactly where the value is no header value
/// or the header map is too full, the headers are as before and an error
/// says which.
pub open spec fn agent_set<C: CookieStore, L>(
    before: Config<C, L>,
    after: Config<C, L>,
    value: Seq<u8>,
) -> bool {
    if !is_header_value(value) {
        header_fields(after.headers) == header_fields(before.headers) && (
        after.error matches Some(e) && e@ == invalid_value())
    } else if crate::header::header_map_full(before.headers) {
        header_fields(after.headers) == header_fields(before.headers) && (
        after.error matches Some(e) && e@ == headers_full()) && !crate::header::has_room(
            header_fields(before.headers),
            0,
        )
    } else {
        after.error == before.error && header_fields(after.headers) == header_fields(
            before.headers,
        ).insert(USER_AGENT@, seq![value])
    }
}

/// The position of the first override for `domain`; the number of
/// overrides where there is none.
pub open spec fn override_at(overrides: Seq<DnsOverride>, domain: Seq<char>) -> int
    decreases overrides.len(),
{
    if overrides.len() == 0 {
        0
    } else if overrides[0].domain@ == domain {
        0
    } else {
        1 + override_at(overrides.skip(1), domain)
    }
}

/// The addresses that `domain` is made to resolve to, if it is made to
/// resolve to any: those of the first override for it.
pub open spec fn override_for(overrides: Seq<DnsOverride>, domain: Seq<char>) -> Option<
    Seq<SocketAddr>,
> {
    if override_at(overrides, domain) < overrides.len() {
        Some(overrides[override_at(overrides, domain)].addrs@)
    } else {
        None
    }
}

/// The first override for `domain` is where [`override_at`] says, and no
/// earlier one is for that name.
pub proof fn lemma_override_at(overrides: Seq<DnsOverride>, domain: Seq<char>)
    ensures
        0 <= override_at(overrides, domain) <= overrides.len(),
        override_at(overrides, domain) < overrides.len() ==> overrides[override_at(
            overrides,
            domain,
        )].domain@ == domain,
        forall|j: int|
            0 <= j < override_at(overrides, domain) ==> (#[trigger] overrides[j]).domain@ != domain,
    decreases overrides.len(),
{
    if overrides.len() > 0 && overrides[0].domain@ != domain {
        lemma_override_at(overrides.skip(1), domain);
        assert forall|j: int| 0 <= j < override_at(overrides, domain) implies (
        #[trigger] overrides[j]).domain@ != domain by {
            if j > 0 {
                assert(overrides.skip(1)[j - 1] == overrides[j]);
            }
        }
    }
}

/// The first override for `domain` is at `at` where the override at `at`
/// is for that name and no earlier one is.
pub proof fn lemma_override_is_at(overrides: Seq<DnsOverride>, domain: Seq<char>, at: int)
    requires
        0 <= at <= overrides.len(),
        at < overrides.len() ==> overrides[at].domain@ == domain,
        forall|j: int| 0 <= j < at ==> (#[trigger] overrides[j]).domain@ != domain,
    ensures
        override_at(overrides, domain) == at,
{
    lemma_override_at(overrides, domain);
    let found = override_at(overrides, domain);
    if found < at {
        assert(overrides[found].domain@ != domain);
    } else if found > at {
        assert(overrides[at].domain@ != domain);
    }
}

/// Looks up the addresses that `domain` is made to resolve to without
/// being looked up.
pub fn overridden(overrides: &Vec<DnsOverride>, domain: &str) -> (addrs: Option<Vec<SocketAddr>>)
    ensures
        addrs is Some == override_for(overrides@, domain@) is Some,
        addrs matches Some(a) ==> Some(a@) == override_for(overrides@, domain@),
{
    let mut i: usize = 0;
    while i < overrides.len()
        invariant
            i <= overrides.len(),
            forall|j: int| 0 <= j < i ==> (#[trigger] overrides[j]).domain@ != domain@,
        decreases overrides.len() - i,
    {
        if str_eq(overrides[i].domain.as_str(), domain) {
            proof {
                lemma_override_is_at(overrides@, domain@, i as int);
            }
            return Some(overrides[i].addrs.clone());
        }
        i += 1;
    }
    proof {
        lemma_override_is_at(overrides@, domain@, overrides@.len() as int);
    }
    None
}

/// Whether `config` holds the settings of a client that nothing was said
/// about: no headers of its own, every decoder enabled, no deadlines, idle
/// connections kept for ninety seconds, the proxy of the environment, up
/// to ten redirects followed, the `Referer` header set, no cookie store,
/// two retries, and TLS that verifies certificate and host name.
pub open spec fn is_fresh<L>(config: Config<Jar, L>) -> bool {
    &&& config.error is None
    &&& header_fields(config.headers) == no_fields()
    &&& config.headers_order is None
    &&& config.accepts == (Accepts {
        gzip: true,
        brotli: true,
        zstd: true,
        deflate: true,
    })
    &&& config.connect_timeout is None
    &&& !config.connection_verbose
    &&& config.pool_idle_timeout == Some(crate::timeout::duration_from_secs(90))
    &&& config.pool_max_idle_per_host == usize::MAX
    &&& config.pool_max_size is None
    &&& config.tcp_keepalive is None
    &&& config.tcp_keepalive_interval is None
    &&& config.tcp_keepalive_retries is None
    &&& config.proxies@.len() == 0
    &&& config.auto_sys_proxy
    &&& config.system_proxies@.len() == 0
    &&& config.redirect_policy == Policy::Limit(crate::redirect::DEFAULT_MAX_REDIRECTS)
    &&& config.referer
    &&& config.timeout is None
    &&& config.read_timeout is None
    &&& config.network_scheme@ == NetworkSchemeBuilder::empty()
    &&& config.nodelay
    &&& config.cookie_store is None
    &&& config.hickory_dns
    &&& !config.custom_resolver
    &&& config.dns_strategy is None
    &&& config.dns_overrides@.len() == 0
    &&& !config.https_only
    &&& config.http1_config == (Http1Config {
        preserve_header_case: false,
        title_case_headers: false,
    })
    &&& config.http2_config == Http2Config::unset()
    &&& config.http2_max_retry_count == 2
    &&& config.connector_layers is None
    &&& config.alpn_protos is None
    &&& config.keylog_policy is None
    &&& !config.tls_info
    &&& config.tls_sni
    &&& config.verify_hostname
    &&& config.identity is None
    &&& config.cert_store is None
    &&& config.cert_verification
    &&& config.min_tls_version is None
    &&& config.max_tls_version is None
    &&& config.tls_config@ == default_tls_settings()
}

impl<L> ClientBuilder<Jar, L> {
    /// A builder with the settings of a client that nothing was said
    /// about: no headers of its own, every decoder enabled, no deadlines,
    /// idle connections kept for ninety seconds, the proxy of the
    /// environment, up to ten redirects followed, the `Referer` header set, no
    /// cookie store, two retries, and TLS that verifies certificate and
    /// host name.
    pub fn new() -> (builder: ClientBuilder<Jar, L>)
        ensures
            is_fresh(builder.config),
    {
        ClientBuilder {
            config: Config {
                error: None,
                headers: new_headers(),
                headers_order: None,
                accepts: Accepts::default(),
                connect_timeout: None,
                connection_verbose: false,
                pool_idle_timeout: Some(crate::timeout::seconds(90)),
                pool_max_idle_per_host: usize::MAX,
                pool_max_size: None,
                tcp_keepalive: None,
                tcp_keepalive_interval: None,
                tcp_keepalive_retries: None,
                proxies: Vec::new(),
                auto_sys_proxy: true,
                system_proxies: Vec::new(),
                redirect_policy: Policy::default(),
                referer: true,
                timeout: None,
                read_timeout: None,
                network_scheme: NetworkScheme::builder(),
                nodelay: true,
                hickory_dns: true,
                custom_resolver: false,
                dns_strategy: None,
                cookie_store: None,
                dns_overrides: Vec::new(),
                https_only: false,
                http1_config: Http1Config::default(),
                http2_config: Http2Config::default(),
                http2_max_retry_count: 2,
                connector_layers: None,
                alpn_protos: None,
                keylog_policy: None,
                tls_info: false,
                tls_sni: true,
                verify_hostname: true,
                identity: None,
                cert_store: None,
                cert_verification: true,
                min_tls_version: None,
                max_tls_version: None,
                tls_config: TlsConfig::default(),
            },
        }
    }
}

/// The settings `config` with another cookie store, or none.
pub open spec fn with_store<C: CookieStore, D: CookieStore, L>(
    config: Config<C, L>,
    cookie_store: Option<Arc<D>>,
) -> Config<D, L> {
    Config::<D, L> {
        cookie_store,
        headers: config.headers,
        headers_order: config.headers_order,
        accepts: config.accepts,
        connect_timeout: config.connect_timeout,
        connection_verbose: config.connection_verbose,
        pool_idle_timeout: config.pool_idle_timeout,
        pool_max_idle_per_host: config.pool_max_idle_per_host,
        pool_max_size: config.pool_max_size,
        tcp_keepalive: config.tcp_keepalive,
        tcp_keepalive_interval: config.tcp_keepalive_interval,
        tcp_keepalive_retries: config.tcp_keepalive_retries,
        proxies: config.proxies,
        auto_sys_proxy: config.auto_sys_proxy,
        system_proxies: config.system_proxies,
        redirect_policy: config.redirect_policy,
        referer: config.referer,
        timeout: config.timeout,
        read_timeout: config.read_timeout,
        network_scheme: config.network_scheme,
        nodelay: config.nodelay,
        hickory_dns: config.hickory_dns,
        custom_resolver: config.custom_resolver,
        error: config.error,
        dns_overrides: config.dns_overrides,
        dns_strategy: config.dns_strategy,
        https_only: config.https_only,
        http1_config: config.http1_config,
        http2_config: config.http2_config,
        http2_max_retry_count: config.http2_max_retry_count,
        connector_layers: config.connector_layers,
        alpn_protos: config.alpn_protos,
        keylog_policy: config.keylog_policy,
        tls_info: config.tls_info,
        tls_sni: config.tls_sni,
        verify_hostname: config.verify_hostname,
        identity: config.identity,
        cert_store: config.cert_store,
        cert_verification: config.cert_verification,
        min_tls_version: config.min_tls_version,
        max_tls_version: config.max_tls_version,
        tls_config: config.tls_config,
    }
}

impl<C: CookieStore, L> ClientBuilder<C, L> {
    /// The same builder with another cookie store, or none.
    pub fn with_cookie_store<D: CookieStore>(self, cookie_store: Option<Arc<D>>) -> (builder:
        ClientBuilder<D, L>)
        ensures
            builder.config == with_store(self.config, cookie_store),
    {
        ClientBuilder {
            config: Config {
                cookie_store,
                headers: self.config.headers,
                headers_order: self.config.headers_order,
                accepts: self.config.accepts,
                connect_timeout: self.config.connect_timeout,
                connection_verbose: self.config.connection_verbose,
                pool_idle_timeout: self.config.pool_idle_timeout,
                pool_max_idle_per_host: self.config.pool_max_idle_per_host,
                pool_max_size: self.config.pool_max_size,
                tcp_keepalive: self.config.tcp_keepalive,
                tcp_keepalive_interval: self.config.tcp_keepalive_interval,
                tcp_keepalive_retries: self.config.tcp_keepalive_retries,
                proxies: self.config.proxies,
                auto_sys_proxy: self.config.auto_sys_proxy,
                system_proxies: self.config.system_proxies,
                redirect_policy: self.config.redirect_policy,
                referer: self.config.referer,
                timeout: self.config.timeout,
                read_timeout: self.config.read_timeout,
                network_scheme: self.config.network_scheme,
                nodelay: self.config.nodelay,
                hickory_dns: self.config.hickory_dns,
                custom_resolver: self.config.custom_resolver,
                error: self.config.error,
                dns_overrides: self.config.dns_overrides,
                dns_strategy: self.config.dns_strategy,
                https_only: self.config.https_only,
                http1_config: self.config.http1_config,
                http2_config: self.config.http2_config,
                http2_max_retry_count: self.config.http2_max_retry_count,
                connector_layers: self.config.connector_layers,
                alpn_protos: self.config.alpn_protos,
                keylog_policy: self.config.keylog_policy,
                tls_info: self.config.tls_info,
                tls_sni: self.config.tls_sni,
                verify_hostname: self.config.verify_hostname,
                identity: self.config.identity,
                cert_store: self.config.cert_store,
                cert_verification: self.config.cert_verification,
                min_tls_version: self.config.min_tls_version,
                max_tls_version: self.config.max_tls_version,
                tls_config: self.config.tls_config,
            },
        }
    }

    /// Switches cookies on, with a fresh [`Jar`] as the store, or off.
    pub fn cookie_store(self, enable: bool) -> (builder: ClientBuilder<Jar, L>)
        ensures
            builder.config.cookie_store is Some == enable,
            builder.config == with_store(self.config, builder.config.cookie_store),
    {
        if enable {
            self.cookie_provider(Arc::new(Jar::default()))
        } else {
            self.with_cookie_store::<Jar>(None)
        }
    }

    /// Switches cookies on, with `cookie_store` as the store.
    pub fn cookie_provider<D: CookieStore>(self, cookie_store: Arc<D>) -> (builder: ClientBuilder<
        D,
        L,
    >)
        ensures
            builder.config == with_store(self.config, Some(cookie_store)),
    {
        self.with_cookie_store(Some(cookie_store))
    }

    /// Sets the `User-Agent` header sent with every request. A value that
    /// is no header value, or a header map that cannot grow, leaves the
    /// headers as they are and makes building the client fail.
    pub fn user_agent(self, value: &[u8]) -> (builder: ClientBuilder<C, L>)
        ensures
            agent_set(self.config, builder.config, value@),
            builder.config == (Config {
                headers: builder.config.headers,
                error: builder.config.error,
                ..self.config
            }),
    {
        let mut builder = self;
        proof {
            lemma_known_names();
        }
        match insert_header(&mut builder.config.headers, USER_AGENT, value) {
            Ok(_) => {},
            Err(e) => {
                builder.config.error = Some(e);
            },
        }
        builder
    }

    /// Sets the headers sent with every request, in place of those set so
    /// far.
    pub fn default_headers(self, headers: http::HeaderMap) -> (builder: ClientBuilder<C, L>)
        ensures
            builder.config == (Config { headers, ..self.config }),
    {
        let mut builder = self;
        builder.config.headers = headers;
        builder
    }

    /// Sets the order in which headers are sent.
    pub fn headers_order(self, order: Vec<String>) -> (builder: ClientBuilder<C, L>)
        ensures
            builder.config == (Config { headers_order: Some(order), ..self.config }),
    {
        let mut builder = self;
        builder.config.headers_order = Some(order);
        builder
    }

    /// Enables or disables the gzip decoder.
    pub fn gzip(self, enable: bool) -> (builder: ClientBuilder<C, L>)
        ensures
            builder.config == (Config { accepts: Accepts { gzip: enable, ..self.config.accepts }, ..self.config }),
    {
        let mut builder = self;
        builder.config.accepts.gzip = enable;
        builder
    }

    /// Enables or disables the brotli decoder.
    pub fn brotli(self, enable: bool) -> (builder: ClientBuilder<C, L>)
        ensures
            builder.config == (Config { accepts: Accepts { brotli: enable, ..self.config.accepts }, ..self.config }),
    {
        let mut builder = self;
        builder.config.accepts.brotli = enable;
        builder
    }

    /// Enables or disables the zstd decoder.
    pub fn zstd(self, enable: bool) -> (builder: ClientBuilder<C, L>)
        ensures
            builder.config == (Config { accepts: Accepts { zstd: enable, ..self.config.accepts }, ..self.config }),
    {
        let mut builder = self;
        builder.config.accepts.zstd = enable;
        builder
    }

    /// Enables or disables the deflate decoder.
    pub fn deflate(self, enable: bool) -> (builder: ClientBuilder<C, L>)
        ensures
            builder.config == (Config { accepts: Accepts { deflate: enable, ..self.config.accepts }, ..self.config }),
    {
        let mut builder = self;
        builder.config.accepts.deflate = enable;
        builder
    }

    /// Disables the zstd decoder.
    pub fn no_zstd(self) -> (builder: ClientBuilder<C, L>)
        ensures
            builder.config == (Config { accepts: Accepts { zstd: false, ..self.config.accepts }, ..self.config }),
    {
        let mut builder = self;
        builder.config.accepts.zstd = false;
        builder
    }

    /// Disables the gzip decoder.
    pub fn no_gzip(self) -> (builder: ClientBuilder<C, L>)
        ensures
            builder.config == (Config { accepts: Accepts { gzip: false, ..self.config.accepts }, ..self.config }),
    {
        let mut builder = self;
        builder.config.accepts.gzip = false;
        builder
    }

    /// Disables the brotli decoder.
    pub fn no_brotli(self) -> (builder: ClientBuilder<C, L>)
        ensures
            builder.config == (Config { accepts: Accepts { brotli: false, ..self.config.accepts }, ..self.config }),
    {
        let mut builder = self;
        builder.config.accepts.brotli = false;
        builder
    }

    /// Disables the deflate decoder.
    pub fn no_deflate(self) -> (builder: ClientBuilder<C, L>)
        ensures
            builder.config == (Config { accepts: Accepts { deflate: false, ..self.config.accepts }, ..self.config }),
    {
        let mut builder = self;
        builder.config.accepts.deflate = false;
        builder
    }

    /// Sets the redirect policy.
    pub fn redirect(self, policy: Policy) -> (builder: ClientBuilder<C, L>)
        ensures
            builder.config == (Config { redirect_policy: policy, ..self.config }),
    {
        let mut builder = self;
        builder.config.redirect_policy = policy;
        builder
    }

    /// Enables or disables the `Referer` header on redirects.
    pub fn referer(self, enable: bool) -> (builder: ClientBuilder<C, L>)
        ensures
            builder.config == (Config { referer: enable, ..self.config }),
    {
        let mut builder = self;
        builder.config.referer = enable;
        builder
    }

    /// Sets the deadline on the whole exchange.
    pub fn timeout(self, timeout: Duration) -> (builder: ClientBuilder<C, L>)
        ensures
            builder.config == (Config { timeout: Some(timeout), ..self.config }),
    {
        let mut builder = self;
        builder.config.timeout = Some(timeout);
        builder
    }

    /// Sets the deadline on the gap between two chunks of a body.
    pub fn read_timeout(self, timeout: Duration) -> (builder: ClientBuilder<C, L>)
        ensures
            builder.config == (Config { read_timeout: Some(timeout), ..self.config }),
    {
        let mut builder = self;
        builder.config.read_timeout = Some(timeout);
        builder
    }

    /// Sets the deadline on connecting.
    pub fn connect_timeout(self, timeout: Duration) -> (builder: ClientBuilder<C, L>)
        ensures
            builder.config == (Config { connect_timeout: Some(timeout), ..self.config }),
    {
        let mut builder = self;
        builder.config.connect_timeout = Some(timeout);
        builder
    }

    /// Sets whether the bytes that pass through connections are traced.
    pub fn connection_verbose(self, verbose: bool) -> (builder: ClientBuilder<C, L>)
        ensures
            builder.config == (Config { connection_verbose: verbose, ..self.config }),
    {
        let mut builder = self;
        builder.config.connection_verbose = verbose;
        builder
    }

    /// Sets how long an idle connection is kept.
    pub fn pool_idle_timeout(self, val: Option<Duration>) -> (builder: ClientBuilder<C, L>)
        ensures
            builder.config == (Config { pool_idle_timeout: val, ..self.config }),
    {
        let mut builder = self;
        builder.config.pool_idle_timeout = val;
        builder
    }

    /// Sets how many idle connections are kept for one host.
    pub fn pool_max_idle_per_host(self, max: usize) -> (builder: ClientBuilder<C, L>)
        ensures
            builder.config == (Config { pool_max_idle_per_host: max, ..self.config }),
    {
        let mut builder = self;
        builder.config.pool_max_idle_per_host = max;
        builder
    }

    /// Keeps no connection after its request.
    pub fn no_keepalive(self) -> (builder: ClientBuilder<C, L>)
        ensures
            builder.config == (Config { pool_max_idle_per_host: 0, tcp_keepalive: None, ..self.config }),
    {
        let mut builder = self;
        builder.config.pool_max_idle_per_host = 0;
        builder.config.tcp_keepalive = None;
        builder
    }

    /// Offers HTTP/1.1 only.
    pub fn http1_only(self) -> (builder: ClientBuilder<C, L>)
        ensures
            builder.config == (Config { alpn_protos: Some(HttpVersionPref::Http1), ..self.config }),
    {
        let mut builder = self;
        builder.config.alpn_protos = Some(HttpVersionPref::Http1);
        builder
    }

    /// Offers HTTP/2 only.
    pub fn http2_only(self) -> (builder: ClientBuilder<C, L>)
        ensures
            builder.config == (Config { alpn_protos: Some(HttpVersionPref::Http2), ..self.config }),
    {
        let mut builder = self;
        builder.config.alpn_protos = Some(HttpVersionPref::Http2);
        builder
    }

    /// Sets how often a request is sent again after an HTTP/2 failure that is safe to retry.
    pub fn http2_max_retry_count(self, max: usize) -> (builder: ClientBuilder<C, L>)
        ensures
            builder.config == (Config { http2_max_retry_count: max, ..self.config }),
    {
        let mut builder = self;
        builder.config.http2_max_retry_count = max;
        builder
    }

    /// Sets whether Nagle's algorithm is switched off.
    pub fn tcp_nodelay(self, enabled: bool) -> (builder: ClientBuilder<C, L>)
        ensures
            builder.config == (Config { nodelay: enabled, ..self.config }),
    {
        let mut builder = self;
        builder.config.nodelay = enabled;
        builder
    }

    /// Sets how long an idle connection waits before it probes.
    pub fn tcp_keepalive(self, val: Option<Duration>) -> (builder: ClientBuilder<C, L>)
        ensures
            builder.config == (Config { tcp_keepalive: val, ..self.config }),
    {
        let mut builder = self;
        builder.config.tcp_keepalive = val;
        builder
    }

    /// Sets the time between two probes.
    pub fn tcp_keepalive_interval(self, val: Option<Duration>) -> (builder: ClientBuilder<C, L>)
        ensures
            builder.config == (Config { tcp_keepalive_interval: val, ..self.config }),
    {
        let mut builder = self;
        builder.config.tcp_keepalive_interval = val;
        builder
    }

    /// Sets the number of probes before a connection is given up.
    pub fn tcp_keepalive_retries(self, retries: Option<u32>) -> (builder: ClientBuilder<C, L>)
        ensures
            builder.config == (Config { tcp_keepalive_retries: retries, ..self.config }),
    {
        let mut builder = self;
        builder.config.tcp_keepalive_retries = retries;
        builder
    }

    /// Sets the identity to present.
    pub fn identity(self, identity: Identity) -> (builder: ClientBuilder<C, L>)
        ensures
            builder.config == (Config { identity: Some(identity), ..self.config }),
    {
        let mut builder = self;
        builder.config.identity = Some(identity);
        builder
    }

    /// Sets whether certificates are verified.
    pub fn cert_verification(self, cert_verification: bool) -> (builder: ClientBuilder<C, L>)
        ensures
            builder.config == (Config { cert_verification: cert_verification, ..self.config }),
    {
        let mut builder = self;
        builder.config.cert_verification = cert_verification;
        builder
    }

    /// Sets the certificates to trust.
    pub fn cert_store(self, store: CertStore) -> (builder: ClientBuilder<C, L>)
        ensures
            builder.config == (Config { cert_store: Some(store), ..self.config }),
    {
        let mut builder = self;
        builder.config.cert_store = Some(store);
        builder
    }

    /// Sets whether the server name is sent.
    pub fn tls_sni(self, tls_sni: bool) -> (builder: ClientBuilder<C, L>)
        ensures
            builder.config == (Config { tls_sni: tls_sni, ..self.config }),
    {
        let mut builder = self;
        builder.config.tls_sni = tls_sni;
        builder
    }

    /// Sets where session keys are logged.
    pub fn keylog(self, policy: KeyLogPolicy) -> (builder: ClientBuilder<C, L>)
        ensures
            builder.config == (Config { keylog_policy: Some(policy), ..self.config }),
    {
        let mut builder = self;
        builder.config.keylog_policy = Some(policy);
        builder
    }

    /// Sets whether the host name is verified.
    pub fn verify_hostname(self, verify_hostname: bool) -> (builder: ClientBuilder<C, L>)
        ensures
            builder.config == (Config { verify_hostname: verify_hostname, ..self.config }),
    {
        let mut builder = self;
        builder.config.verify_hostname = verify_hostname;
        builder
    }

    /// Sets the lowest TLS version to offer.
    pub fn min_tls_version(self, version: TlsVersion) -> (builder: ClientBuilder<C, L>)
        ensures
            builder.config == (Config { min_tls_version: Some(version), ..self.config }),
    {
        let mut builder = self;
        builder.config.min_tls_version = Some(version);
        builder
    }

    /// Sets the highest TLS version to offer.
    pub fn max_tls_version(self, version: TlsVersion) -> (builder: ClientBuilder<C, L>)
        ensures
            builder.config == (Config { max_tls_version: Some(version), ..self.config }),
    {
        let mut builder = self;
        builder.config.max_tls_version = Some(version);
        builder
    }

    /// Sets whether the peer's certificate is reported.
    pub fn tls_info(self, tls_info: bool) -> (builder: ClientBuilder<C, L>)
        ensures
            builder.config == (Config { tls_info: tls_info, ..self.config }),
    {
        let mut builder = self;
        builder.config.tls_info = tls_info;
        builder
    }

    /// Sets whether `https` URLs only are requested.
    pub fn https_only(self, enabled: bool) -> (builder: ClientBuilder<C, L>)
        ensures
            builder.config == (Config { https_only: enabled, ..self.config }),
    {
        let mut builder = self;
        builder.config.https_only = enabled;
        builder
    }

    /// Sets which address families are looked up.
    pub fn hickory_dns_strategy(self, strategy: LookupIpStrategy) -> (builder: ClientBuilder<C, L>)
        ensures
            builder.config == (Config { dns_strategy: Some(strategy), ..self.config }),
    {
        let mut builder = self;
        builder.config.dns_strategy = Some(strategy);
        builder
    }

    /// Has names looked up by a resolver that the caller supplies, in place
    /// of the built-in ones. The addresses that single names were made to
    /// resolve to still come first.
    pub fn dns_resolver(self) -> (builder: ClientBuilder<C, L>)
        ensures
            builder.config == (Config { custom_resolver: true, ..self.config }),
    {
        let mut builder = self;
        builder.config.custom_resolver = true;
        builder
    }

    /// Resolves names with the system's resolver.
    pub fn no_hickory_dns(self) -> (builder: ClientBuilder<C, L>)
        ensures
            builder.config == (Config { hickory_dns: false, ..self.config }),
    {
        let mut builder = self;
        builder.config.hickory_dns = false;
        builder
    }

    /// Sets the proxies that the environment names. They are used where no
    /// proxy is set and proxies are not switched off.
    pub fn system_proxies(self, proxies: Vec<Proxy>) -> (builder: ClientBuilder<C, L>)
        ensures
            builder.config == (Config { system_proxies: proxies, ..self.config }),
    {
        let mut builder = self;
        builder.config.system_proxies = proxies;
        builder
    }

    /// Adds a proxy. With a proxy set, the proxy of the environment is not
    /// used.
    pub fn proxy(self, proxy: Proxy) -> (builder: ClientBuilder<C, L>)
        ensures
            builder.config.proxies@ == self.config.proxies@.push(proxy),
            builder.config == (Config {
                proxies: builder.config.proxies,
                auto_sys_proxy: false,
                ..self.config
            }),
    {
        let mut builder = self;
        builder.config.proxies.push(proxy);
        builder.config.auto_sys_proxy = false;
        builder
    }

    /// Removes every proxy, that of the environment included.
    pub fn no_proxy(self) -> (builder: ClientBuilder<C, L>)
        ensures
            builder.config.proxies@.len() == 0,
            builder.config == (Config {
                proxies: builder.config.proxies,
                auto_sys_proxy: false,
                ..self.config
            }),
    {
        let mut builder = self;
        builder.config.proxies.clear();
        builder.config.auto_sys_proxy = false;
        builder
    }

    /// Sets how many connections are kept in all; zero stands for no
    /// limit.
    pub fn pool_max_size(self, max: usize) -> (builder: ClientBuilder<C, L>)
        ensures
            builder.config == (Config {
                pool_max_size: if max == 0 {
                    None
                } else {
                    Some(max)
                },
                ..self.config
            }),
    {
        let mut builder = self;
        builder.config.pool_max_size = if max == 0 {
            None
        } else {
            Some(max)
        };
        builder
    }

    /// Sets the local address to bind to; the slot of the other family is
    /// cleared.
    pub fn local_address(self, addr: Option<IpAddr>) -> (builder: ClientBuilder<C, L>)
        ensures
            builder.config == (Config {
                network_scheme: NetworkSchemeBuilder {
                    addresses: split_address(addr),
                    ..self.config.network_scheme
                },
                ..self.config
            }),
    {
        let mut builder = self;
        builder.config.network_scheme.addresses = split_local_address(addr);
        builder
    }

    /// Sets the local addresses of both families.
    pub fn local_addresses(self, ipv4: Option<Ipv4Addr>, ipv6: Option<Ipv6Addr>) -> (builder:
        ClientBuilder<C, L>)
        ensures
            builder.config == (Config {
                network_scheme: NetworkSchemeBuilder {
                    addresses: (ipv4, ipv6),
                    ..self.config.network_scheme
                },
                ..self.config
            }),
    {
        let mut builder = self;
        builder.config.network_scheme.addresses = (ipv4, ipv6);
        builder
    }

    /// Sets the interface to bind to.
    pub fn interface(self, interface: String) -> (builder: ClientBuilder<C, L>)
        ensures
            builder.config == (Config {
                network_scheme: NetworkSchemeBuilder {
                    interface: Some(interface),
                    ..self.config.network_scheme
                },
                ..self.config
            }),
    {
        let mut builder = self;
        builder.config.network_scheme.interface = Some(interface);
        builder
    }

    /// Puts the parts of `emulation` in the place of the builder's own:
    /// headers, header order, HTTP/1, HTTP/2 and TLS knobs, each where the
    /// profile has it.
    #[verifier::rlimit(60)]
    pub fn apply_emulation(self, emulation: EmulationProvider) -> (builder: ClientBuilder<C, L>)
        ensures
            builder.config == (Config {
                headers: match emulation.default_headers {
                    Some(h) => h,
                    None => self.config.headers,
                },
                headers_order: match emulation.headers_order {
                    Some(o) => Some(o),
                    None => self.config.headers_order,
                },
                http1_config: match emulation.http1_config {
                    Some(c) => c,
                    None => self.config.http1_config,
                },
                http2_config: match emulation.http2_config {
                    Some(c) => c,
                    None => self.config.http2_config,
                },
                tls_config: match emulation.tls_config {
                    Some(c) => c,
                    None => self.config.tls_config,
                },
                ..self.config
            }),
    {
        let mut builder = self;
        let EmulationProvider {
            tls_config,
            http1_config,
            http2_config,
            default_headers,
            headers_order,
        } = emulation;
        match default_headers {
            Some(headers) => {
                builder.config.headers = headers;
            },
            None => {},
        }
        match headers_order {
            Some(order) => {
                builder.config.headers_order = Some(order);
            },
            None => {},
        }
        match http1_config {
            Some(config) => {
                builder.config.http1_config = config;
            },
            None => {},
        }
        match http2_config {
            Some(config) => {
                builder.config.http2_config = config;
            },
            None => {},
        }
        match tls_config {
            Some(config) => {
                builder.config.tls_config = config;
            },
            None => {},
        }
        builder
    }

    /// Makes the client look like the build that `factory` provides the
    /// profile of.
    pub fn emulation<P: EmulationProviderFactory>(self, factory: P) -> (builder: ClientBuilder<
        C,
        L,
    >)
        ensures
            builder.config == (Config {
                headers: builder.config.headers,
                headers_order: builder.config.headers_order,
                http1_config: builder.config.http1_config,
                http2_config: builder.config.http2_config,
                tls_config: builder.config.tls_config,
                ..self.config
            }),
    {
        let emulation = factory.emulation();
        self.apply_emulation(emulation)
    }

    /// Trusts the given certificates, each in DER form, and no others. An
    /// empty certificate makes building the client fail.
    pub fn ssl_pinning(self, certs: Vec<Vec<u8>>) -> (builder: ClientBuilder<C, L>)
        ensures
            (forall|i: int| 0 <= i < certs@.len() ==> (#[trigger] certs@[i])@.len() > 0)
                ==> builder.config == (Config {
                cert_store: Some(CertStore { certs }),
                ..self.config
            }),
            !(forall|i: int| 0 <= i < certs@.len() ==> (#[trigger] certs@[i])@.len() > 0)
                ==> builder.config == (Config { error: builder.config.error, ..self.config }) && (
            builder.config.error matches Some(e) && e@ == bad_certificate()),
    {
        let mut builder = self;
        match CertStore::from_der_certs(certs) {
            Some(store) => {
                builder.config.cert_store = Some(store);
            },
            None => {
                builder.config.error = Some(Error::builder(Cause::InvalidCertificate));
            },
        }
        builder
    }

    /// Makes `domain` resolve to `addr` without being looked up.
    pub fn resolve(self, domain: &str, addr: SocketAddr) -> (builder: ClientBuilder<C, L>)
        ensures
            override_for(builder.config.dns_overrides@, domain@) == Some(seq![addr]),
            forall|d: Seq<char>|
                d != domain@ ==> #[trigger] override_for(builder.config.dns_overrides@, d)
                    == override_for(self.config.dns_overrides@, d),
            builder.config == (Config {
                dns_overrides: builder.config.dns_overrides,
                ..self.config
            }),
    {
        let mut addrs: Vec<SocketAddr> = Vec::new();
        addrs.push(addr);
        self.resolve_to_addrs(domain, addrs)
    }

    /// Makes `domain` resolve to `addrs` without being looked up, in place
    /// of whatever it was made to resolve to before. The other host names
    /// resolve as before.
    pub fn resolve_to_addrs(self, domain: &str, addrs: Vec<SocketAddr>) -> (builder: ClientBuilder<
        C,
        L,
    >)
        ensures
            override_for(builder.config.dns_overrides@, domain@) == Some(addrs@),
            forall|d: Seq<char>|
                d != domain@ ==> #[trigger] override_for(builder.config.dns_overrides@, d)
                    == override_for(self.config.dns_overrides@, d),
            builder.config == (Config {
                dns_overrides: builder.config.dns_overrides,
                ..self.config
            }),
    {
        let mut builder = self;
        let ghost before = builder.config.dns_overrides@;
        let mut i: usize = 0;
        let mut found: bool = false;
        while i < builder.config.dns_overrides.len() && !found
            invariant
                i <= builder.config.dns_overrides.len(),
                builder.config.dns_overrides@ == before,
                found ==> i < before.len() && before[i as int].domain@ == domain@,
                forall|k: int| 0 <= k < i ==> (#[trigger] before[k]).domain@ != domain@,
            decreases builder.config.dns_overrides.len() - i + if found {
                    0int
                } else {
                    1int
                },
        {
            if str_eq(builder.config.dns_overrides[i].domain.as_str(), domain) {
                found = true;
            } else {
                i += 1;
            }
        }
        if found {
            builder.config.dns_overrides.set(i, DnsOverride { domain: domain.to_owned(), addrs });
        } else {
            builder.config.dns_overrides.push(DnsOverride { domain: domain.to_owned(), addrs });
        }
        proof {
            let after = builder.config.dns_overrides@;
            let at = i as int;
            assert(after[at].domain@ == domain@);
            assert forall|k: int| 0 <= k < at implies (#[trigger] after[k]).domain@ != domain@ by {
                assert(after[k] == before[k]);
            }
            lemma_override_is_at(after, domain@, at);
            assert forall|d: Seq<char>| d != domain@ implies #[trigger] override_for(after, d)
                == override_for(before, d) by {
                lemma_override_at(before, d);
                let p = override_at(before, d);
                assert forall|k: int| 0 <= k < p implies (#[trigger] after[k]).domain@ != d by {
                    if k != at {
                        assert(after[k] == before[k]);
                    }
                }
                if p < before.len() {
                    assert(p != at);
                    assert(after[p] == before[p]);
                    lemma_override_is_at(after, d, p);
                } else {
                    assert forall|k: int| 0 <= k < after.len() implies (
                    #[trigger] after[k]).domain@ != d by {
                        if k != at {
                            assert(after[k] == before[k]);
                        }
                    }
                    lemma_override_is_at(after, d, after.len() as int);
                }
            }
        }
        builder
    }

    /// Adds a layer around the connector, outside the layers added so far.
    pub fn connector_layer(self, layer: L) -> (builder: ClientBuilder<C, L>)
        ensures
            builder.config.connector_layers matches Some(l) && l@ == (
            match self.config.connector_layers {
                Some(old) => old@.push(layer),
                None => seq![layer],
            }),
            builder.config == (Config {
                connector_layers: builder.config.connector_layers,
                ..self.config
            }),
    {
        let mut builder = self;
        let mut layers = match builder.config.connector_layers.take() {
            Some(l) => l,
            None => Vec::new(),
        };
        layers.push(layer);
        builder.config.connector_layers = Some(layers);
        builder
    }
}

/// The proxies of a client: those that were set, and behind them the
/// proxies of the environment where those are to be used.
pub open spec fn effective_proxies<C: CookieStore, L>(config: Config<C, L>) -> Seq<Proxy> {
    if config.auto_sys_proxy {
        config.proxies@ + config.system_proxies@
    } else {
        config.proxies@
    }
}

/// Who looks names up for a client: the resolver that the caller supplies,
/// if there is one; else the Hickory resolver, for both address families
/// unless told otherwise, or the system's resolver.
pub open spec fn chosen_resolver<C: CookieStore, L>(config: Config<C, L>) -> Resolver {
    if config.custom_resolver {
        Resolver::Custom
    } else if config.hickory_dns {
        Resolver::Hickory(
            match config.dns_strategy {
                Some(s) => s,
                None => LookupIpStrategy::Ipv4AndIpv6,
            },
        )
    } else {
        Resolver::Gai
    }
}

/// The TLS connector of a client: the knobs of its profile as its own
/// choices change them, with its key log, identity and trusted
/// certificates.
pub open spec fn built_tls<C: CookieStore, L>(config: Config<C, L>) -> TlsConnectorView {
    TlsConnectorView {
        tls_config: with_client_choices(
            config.tls_config@,
            config.alpn_protos,
            config.min_tls_version,
            config.max_tls_version,
        ),
        keylog: opt_keylog_view(config.keylog_policy),
        identity: opt_identity_view(config.identity),
        cert_store: Some(
            match config.cert_store {
                Some(s) => s.ders(),
                None => Seq::empty(),
            },
        ),
        cert_verification: config.cert_verification,
        tls_sni: config.tls_sni,
        verify_hostname: config.verify_hostname,
    }
}

/// The TCP connector of a client.
pub open spec fn built_http<C: CookieStore, L>(config: Config<C, L>) -> HttpConnector {
    HttpConnector {
        keepalive: config.tcp_keepalive,
        keepalive_interval: config.tcp_keepalive_interval,
        keepalive_retries: config.tcp_keepalive_retries,
        connect_timeout: config.connect_timeout,
        interface: None,
        local_address_ipv4: None,
        local_address_ipv6: None,
        nodelay: false,
        enforce_http: false,
    }
}

/// Whether `client` is the client that `config` describes.
pub open spec fn built<C: CookieStore, L>(config: Config<C, L>, client: Client<C, L>) -> bool {
    let state = *client.inner;
    let hyper = client.inner.hyper;
    let base = hyper.connector.base();
    &&& state.accepts == config.accepts
    &&& state.cookie_store == config.cookie_store
    &&& state.headers == config.headers
    &&& state.headers_order == config.headers_order
    &&& state.redirect == config.redirect_policy
    &&& state.referer == config.referer
    &&& state.total_timeout == config.timeout
    &&& state.read_timeout == config.read_timeout
    &&& state.https_only == config.https_only
    &&& state.http2_max_retry_count == config.http2_max_retry_count
    &&& state.proxies@ == effective_proxies(config)
    &&& state.proxies_maybe_http_auth == any_http_auth(effective_proxies(config))
    &&& state.network_scheme == config.network_scheme
    &&& state.alpn_protos == config.alpn_protos
    &&& state.keylog == config.keylog_policy
    &&& state.tls_sni == config.tls_sni
    &&& state.verify_hostname == config.verify_hostname
    &&& state.identity == config.identity
    &&& state.cert_store == config.cert_store
    &&& state.cert_verification == config.cert_verification
    &&& state.min_tls_version == config.min_tls_version
    &&& state.max_tls_version == config.max_tls_version
    &&& hyper.http1_config == config.http1_config
    &&& hyper.http2_config == config.http2_config
    &&& hyper.http2_only == (config.alpn_protos == Some(HttpVersionPref::Http2))
    &&& hyper.pool_idle_timeout == config.pool_idle_timeout
    &&& hyper.pool_max_idle_per_host == config.pool_max_idle_per_host
    &&& hyper.pool_max_size == config.pool_max_size
    &&& hyper.resolver == chosen_resolver(config)
    &&& hyper.dns_overrides == config.dns_overrides
    &&& config.connector_layers is None ==> hyper.connector is Simple
    &&& config.connector_layers matches Some(l) ==> hyper.connector is WithLayers
        && hyper.connector->layers == l
    &&& base.http == built_http(config)
    &&& base.tls@ == built_tls(config)
    &&& base.proxies@.len() == 0
    &&& base.verbose == Wrapper(config.connection_verbose)
    &&& base.timeout == config.connect_timeout
    &&& base.nodelay == config.nodelay
    &&& base.tls_info == config.tls_info
}

impl<C: CookieStore, L> ClientBuilder<C, L> {
    /// The client that the collected settings describe, or the first error
    /// that was met while they were collected.
    pub fn build(self) -> (client: Result<Client<C, L>, Error>)
        ensures
            self.config.error matches Some(e) ==> client == Err::<Client<C, L>, Error>(e),
            self.config.error is None ==> (client matches Ok(c) && built(self.config, c)),
    {
        let config = self.config;
        match config.error {
            Some(err) => {
                return Err(err);
            },
            None => {},
        }
        let mut proxies = config.proxies;
        if config.auto_sys_proxy {
            let mut system = config.system_proxies;
            proxies.append(&mut system);
        }
        let maybe_http_auth = proxies_maybe_http_auth(&proxies);
        let http2_only = match config.alpn_protos {
            Some(HttpVersionPref::Http2) => true,
            _ => false,
        };
        let resolver = if config.custom_resolver {
            Resolver::Custom
        } else if config.hickory_dns {
            Resolver::Hickory(
                match config.dns_strategy {
                    Some(s) => s,
                    None => LookupIpStrategy::Ipv4AndIpv6,
                },
            )
        } else {
            Resolver::Gai
        };
        let mut http = HttpConnector::new();
        http.connect_timeout = config.connect_timeout;
        let tls_config = apply_client_choices(
            config.tls_config,
            config.alpn_protos,
            config.min_tls_version,
            config.max_tls_version,
        );
        let keylog = match &config.keylog_policy {
            Some(k) => Some(k.copy()),
            None => None,
        };
        let identity = match &config.identity {
            Some(i) => Some(i.copy()),
            None => None,
        };
        let cert_store = match &config.cert_store {
            Some(s) => s.copy(),
            None => CertStore::default(),
        };
        proof {
            assert(cert_store.ders() =~= match config.cert_store {
                Some(s) => s.ders(),
                None => Seq::empty(),
            });
        }
        let tls = TlsConnector::builder(tls_config).keylog(keylog).identity(identity).cert_store(
            Some(cert_store),
        ).cert_verification(config.cert_verification).tls_sni(config.tls_sni).verify_hostname(
            config.verify_hostname,
        ).build();
        let connector = Connector::<L>::builder(
            http,
            tls,
            Vec::new(),
            config.nodelay,
            config.tls_info,
        ).timeout(config.connect_timeout).keepalive(config.tcp_keepalive).tcp_keepalive_interval(
            config.tcp_keepalive_interval,
        ).tcp_keepalive_retries(config.tcp_keepalive_retries).verbose(
            config.connection_verbose,
        ).build(config.connector_layers);
        Ok(
            Client {
                inner: Arc::new(
                    ClientRef {
                        accepts: config.accepts,
                        cookie_store: config.cookie_store,
                        headers: config.headers,
                        headers_order: config.headers_order,
                        redirect: config.redirect_policy,
                        referer: config.referer,
                        total_timeout: config.timeout,
                        read_timeout: config.read_timeout,
                        https_only: config.https_only,
                        http2_max_retry_count: config.http2_max_retry_count,
                        proxies,
                        proxies_maybe_http_auth: maybe_http_auth,
                        network_scheme: config.network_scheme,
                        alpn_protos: config.alpn_protos,
                        keylog: config.keylog_policy,
                        tls_sni: config.tls_sni,
                        verify_hostname: config.verify_hostname,
                        identity: config.identity,
                        cert_store: config.cert_store,
                        cert_verification: config.cert_verification,
                        min_tls_version: config.min_tls_version,
                        max_tls_version: config.max_tls_version,
                        hyper: Dispatcher {
                    http1_config: config.http1_config,
                    http2_config: config.http2_config,
                    http2_only,
                    pool_idle_timeout: config.pool_idle_timeout,
                    pool_max_idle_per_host: config.pool_max_idle_per_host,
                    pool_max_size: config.pool_max_size,
                            resolver,
                            dns_overrides: config.dns_overrides,
                            connector,
                        },
                    },
                ),
            },
        )
    }
}

} // verus!
