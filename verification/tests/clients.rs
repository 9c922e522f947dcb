use rquest::body::Body;
use rquest::client::builder::overridden;
use rquest::client::builder::ClientBuilder;
use rquest::client::dispatch::hickory_strategy;
use rquest::client::dispatch::LookupIpStrategy;
use rquest::client::dispatch::Resolver;
use rquest::client::pending::Event;
use rquest::client::pending::PendingInner;
use rquest::client::pending::Step;
use rquest::client::request::Request;
use rquest::client::request::RequestBuilder;
use rquest::client::update::ClientUpdate;
use rquest::client::Client;
use rquest::connect::Connector;
use rquest::connect::Wrapper;
use rquest::cookie::Jar;
use rquest::decoder::Accepts;
use rquest::emulation::EmulationProvider;
use rquest::error::Cause;
use rquest::error::Error;
use rquest::error::Kind;
use rquest::header::all_values;
use rquest::header::contains_header;
use rquest::header::first_value;
use rquest::header::insert_header;
use rquest::header::new_headers;
use rquest::http1::Http1Config;
use rquest::http2::Http2Config;
use rquest::method::Method;
use rquest::net::IpAddr;
use rquest::net::Ipv4Addr;
use rquest::net::Ipv6Addr;
use rquest::net::SocketAddr;
use rquest::proxy::Proxy;
use rquest::proxy::ProxyScheme;
use rquest::redirect::Policy;
use rquest::scheme::NetworkScheme;
use rquest::status::StatusCode;
use rquest::tls::connector::CertStore;
use rquest::tls::connector::Identity;
use rquest::tls::connector::KeyLogPolicy;
use rquest::tls::impersonate::okhttp::okhttp4_9;
use rquest::tls::impersonate::okhttp::okhttp5;
use rquest::tls::settings::HttpVersionPref;
use rquest::tls::settings::TlsSettings;
use rquest::tls::settings::TlsVersion;
use rquest::url::Url;
use std::sync::Arc;
use std::time::Duration;

type TestBuilder = ClientBuilder<Jar, u8>;

#[test]
fn builder_defaults() {
    let config = TestBuilder::new().config;
    assert!(config.error.is_none());
    assert!(config.headers.is_empty());
    assert_eq!(config.accepts, Accepts { gzip: true, brotli: true, zstd: true, deflate: true });
    assert_eq!(config.pool_idle_timeout, Some(Duration::from_secs(90)));
    assert_eq!(config.pool_max_idle_per_host, usize::MAX);
    assert_eq!(config.pool_max_size, None);
    assert!(config.auto_sys_proxy);
    assert_eq!(config.redirect_policy, Policy::Limit(10));
    assert!(config.referer);
    assert_eq!(config.timeout, None);
    assert!(config.nodelay);
    assert!(config.cookie_store.is_none());
    assert!(!config.https_only);
    assert_eq!(config.http2_max_retry_count, 2);
    assert!(config.tls_sni && config.verify_hostname && config.cert_verification);
    assert!(!config.tls_info);
    assert!(config.hickory_dns);
    assert_eq!(Policy::default(), Policy::Limit(10));
}

#[test]
fn builder_setters_set_their_field() {
    let config = TestBuilder::new()
        .headers_order(vec!["host".into()])
        .gzip(false)
        .brotli(false)
        .zstd(false)
        .deflate(false)
        .redirect(Policy::limited(3))
        .referer(false)
        .timeout(Duration::from_secs(1))
        .read_timeout(Duration::from_secs(2))
        .connect_timeout(Duration::from_secs(3))
        .connection_verbose(true)
        .pool_idle_timeout(None)
        .pool_max_idle_per_host(4)
        .pool_max_size(5)
        .http2_max_retry_count(6)
        .tcp_nodelay(false)
        .tcp_keepalive(Some(Duration::from_secs(7)))
        .tcp_keepalive_interval(Some(Duration::from_secs(8)))
        .tcp_keepalive_retries(Some(9))
        .cert_verification(false)
        .tls_sni(false)
        .verify_hostname(false)
        .min_tls_version(TlsVersion::Tls1_2)
        .max_tls_version(TlsVersion::Tls1_3)
        .tls_info(true)
        .https_only(true)
        .identity(Identity { encoded: vec![1] })
        .cert_store(CertStore { certs: vec![vec![2]] })
        .keylog(KeyLogPolicy::Environment)
        .hickory_dns_strategy(LookupIpStrategy::Ipv6Only)
        .interface("eth0".to_string())
        .local_addresses(Some(Ipv4Addr([1, 2, 3, 4])), None)
        .config;
    assert_eq!(config.headers_order, Some(vec!["host".to_string()]));
    assert_eq!(config.accepts, Accepts::none());
    assert_eq!(config.redirect_policy, Policy::Limit(3));
    assert!(!config.referer);
    assert_eq!(config.timeout, Some(Duration::from_secs(1)));
    assert_eq!(config.read_timeout, Some(Duration::from_secs(2)));
    assert_eq!(config.connect_timeout, Some(Duration::from_secs(3)));
    assert!(config.connection_verbose);
    assert_eq!(config.pool_idle_timeout, None);
    assert_eq!(config.pool_max_idle_per_host, 4);
    assert_eq!(config.pool_max_size, Some(5));
    assert_eq!(config.http2_max_retry_count, 6);
    assert!(!config.nodelay);
    assert_eq!(config.tcp_keepalive, Some(Duration::from_secs(7)));
    assert_eq!(config.tcp_keepalive_interval, Some(Duration::from_secs(8)));
    assert_eq!(config.tcp_keepalive_retries, Some(9));
    assert!(!config.cert_verification && !config.tls_sni && !config.verify_hostname);
    assert_eq!(config.min_tls_version, Some(TlsVersion::Tls1_2));
    assert_eq!(config.max_tls_version, Some(TlsVersion::Tls1_3));
    assert!(config.tls_info && config.https_only);
    assert_eq!(config.identity.unwrap().encoded, vec![1]);
    assert_eq!(config.cert_store.unwrap().certs, vec![vec![2]]);
    assert!(matches!(config.keylog_policy, Some(KeyLogPolicy::Environment)));
    assert_eq!(config.dns_strategy, Some(LookupIpStrategy::Ipv6Only));
    assert_eq!(config.network_scheme.interface.as_deref(), Some("eth0"));
    assert_eq!(config.network_scheme.addresses.0.map(|a| a.0), Some([1, 2, 3, 4]));
    assert!(config.network_scheme.addresses.1.is_none());
}

#[test]
fn builder_shorthands() {
    let config =
        TestBuilder::new().no_gzip().no_brotli().no_zstd().no_deflate().no_hickory_dns().config;
    assert_eq!(config.accepts, Accepts::none());
    assert!(!config.hickory_dns);
    let config = TestBuilder::new().tcp_keepalive(Some(Duration::from_secs(1))).no_keepalive().config;
    assert_eq!(config.pool_max_idle_per_host, 0);
    assert_eq!(config.tcp_keepalive, None);
    assert_eq!(TestBuilder::new().http1_only().config.alpn_protos, Some(HttpVersionPref::Http1));
    assert_eq!(TestBuilder::new().http2_only().config.alpn_protos, Some(HttpVersionPref::Http2));
    assert_eq!(TestBuilder::new().pool_max_size(0).config.pool_max_size, None);
    let v6 = IpAddr::V6(Ipv6Addr([0; 16]));
    let config = TestBuilder::new()
        .local_addresses(Some(Ipv4Addr([1, 1, 1, 1])), None)
        .local_address(Some(v6))
        .config;
    assert!(config.network_scheme.addresses.0.is_none());
    assert!(config.network_scheme.addresses.1.is_some());
    let config = TestBuilder::new().connector_layer(1).connector_layer(2).config;
    assert_eq!(config.connector_layers, Some(vec![1, 2]));
}

#[test]
fn user_agent_and_default_headers() {
    let config = TestBuilder::new().user_agent(b"app/1.0").config;
    assert!(config.error.is_none());
    assert_eq!(first_value(&config.headers, "user-agent"), Some(b"app/1.0".to_vec()));
    let bad = TestBuilder::new().user_agent(b"bad\nagent");
    assert!(bad.config.headers.is_empty());
    let err = bad.build().unwrap_err();
    assert!(err.is_builder());
    assert_eq!(err.cause(), Cause::InvalidHeaderValue);
    let mut headers = new_headers();
    insert_header(&mut headers, "accept", b"*/*").unwrap();
    let config = TestBuilder::new().user_agent(b"gone").default_headers(headers).config;
    assert!(!contains_header(&config.headers, "user-agent"));
    assert_eq!(first_value(&config.headers, "accept"), Some(b"*/*".to_vec()));
}

#[test]
fn pinning_needs_certificates_with_content() {
    let config = TestBuilder::new().ssl_pinning(vec![vec![1, 2], vec![3]]).config;
    assert!(config.error.is_none());
    assert_eq!(config.cert_store.unwrap().certs.len(), 2);
    let err = TestBuilder::new().ssl_pinning(vec![Vec::new()]).build().unwrap_err();
    assert_eq!(err.kind(), Kind::Builder);
    assert_eq!(err.cause(), Cause::InvalidCertificate);
}

#[test]
fn dns_overrides_replace_by_name() {
    let a1 = SocketAddr::new(IpAddr::V4(Ipv4Addr([1, 1, 1, 1])), 80);
    let a2 = SocketAddr::new(IpAddr::V4(Ipv4Addr([2, 2, 2, 2])), 81);
    let config = TestBuilder::new()
        .resolve("a.example", a1)
        .resolve_to_addrs("b.example", vec![a1, a2])
        .resolve("a.example", a2)
        .config;
    assert_eq!(config.dns_overrides.len(), 2);
    let a = config.dns_overrides.iter().find(|o| o.domain == "a.example").unwrap();
    assert_eq!(a.addrs.len(), 1);
    assert_eq!(a.addrs[0].port, 81);
    let b = config.dns_overrides.iter().find(|o| o.domain == "b.example").unwrap();
    assert_eq!(b.addrs.len(), 2);
    let copy = TestBuilder::new().resolve("a.example", a1).build().unwrap().cloned();
    assert_eq!(copy.inner.hyper.dns_overrides.len(), 1);
    assert_eq!(copy.inner.hyper.dns_overrides[0].domain, "a.example");
    assert_eq!(copy.inner.hyper.dns_overrides[0].addrs[0].port, 80);
}

#[test]
fn overridden_names_are_looked_up_first_match_first() {
    let a1 = SocketAddr::new(IpAddr::V4(Ipv4Addr([1, 1, 1, 1])), 80);
    let a2 = SocketAddr::new(IpAddr::V4(Ipv4Addr([2, 2, 2, 2])), 81);
    let config = TestBuilder::new()
        .resolve_to_addrs("b.example", vec![a1, a2])
        .resolve("a.example", a2)
        .config;
    let b = overridden(&config.dns_overrides, "b.example").unwrap();
    assert_eq!(b.len(), 2);
    assert_eq!((b[0].port, b[1].port), (80, 81));
    let a = overridden(&config.dns_overrides, "a.example").unwrap();
    assert_eq!(a.len(), 1);
    assert_eq!(a[0].port, 81);
    assert!(overridden(&config.dns_overrides, "c.example").is_none());
    assert!(overridden(&config.dns_overrides, "A.example").is_none());
    assert!(overridden(&Vec::new(), "a.example").is_none());
}

#[test]
fn supplied_resolver_comes_before_the_built_in_ones() {
    assert!(!TestBuilder::new().config.custom_resolver);
    let config = TestBuilder::new().dns_resolver().config;
    assert!(config.custom_resolver && config.hickory_dns);
    let client = TestBuilder::new().dns_resolver().build().unwrap();
    assert_eq!(client.inner.hyper.resolver, Resolver::Custom);
    let client = TestBuilder::new().no_hickory_dns().dns_resolver().build().unwrap();
    assert_eq!(client.inner.hyper.resolver, Resolver::Custom);
    let client = TestBuilder::new()
        .dns_resolver()
        .hickory_dns_strategy(LookupIpStrategy::Ipv6Only)
        .build()
        .unwrap();
    assert_eq!(client.inner.hyper.resolver, Resolver::Custom);
}

#[test]
fn cookie_store_can_be_switched() {
    assert!(TestBuilder::new().cookie_store(true).config.cookie_store.is_some());
    assert!(TestBuilder::new().cookie_store(true).cookie_store(false).config.cookie_store.is_none());
    let jar = Arc::new(Jar::default());
    let config = TestBuilder::new().cookie_provider(jar.clone()).config;
    assert!(Arc::ptr_eq(config.cookie_store.as_ref().unwrap(), &jar));
    let kept = TestBuilder::new().user_agent(b"ua").cookie_store(true).config;
    assert_eq!(first_value(&kept.headers, "user-agent"), Some(b"ua".to_vec()));
}

#[test]
fn emulation_replaces_what_the_profile_has() {
    let mut headers = new_headers();
    insert_header(&mut headers, "accept", b"profile").unwrap();
    let mut tls = TlsSettings::default();
    tls.cipher_list = Some("X".into());
    let profile = EmulationProvider::builder()
        .default_headers(headers)
        .http1_config(Http1Config { preserve_header_case: true, title_case_headers: true })
        .tls_config(tls)
        .build();
    let config = TestBuilder::new()
        .user_agent(b"mine")
        .headers_order(vec!["a".into()])
        .emulation(profile)
        .config;
    assert_eq!(first_value(&config.headers, "accept"), Some(b"profile".to_vec()));
    assert!(!contains_header(&config.headers, "user-agent"));
    assert_eq!(config.headers_order, Some(vec!["a".to_string()]));
    assert!(config.http1_config.title_case_headers);
    assert_eq!(config.http2_config.max_concurrent_streams, None);
    assert_eq!(config.tls_config.cipher_list.as_deref(), Some("X"));
    let untouched = TestBuilder::new().user_agent(b"mine").emulation(EmulationProvider::default()).config;
    assert_eq!(first_value(&untouched.headers, "user-agent"), Some(b"mine".to_vec()));
}

#[test]
fn build_puts_the_settings_in_their_places() {
    let proxy = Proxy::http(
        ProxyScheme::parse(Url::parse("http://p.example").unwrap())
            .unwrap()
            .with_basic_auth("u".into(), "p".into()),
    );
    let client = TestBuilder::new()
        .user_agent(b"ua")
        .timeout(Duration::from_secs(1))
        .read_timeout(Duration::from_secs(2))
        .connect_timeout(Duration::from_secs(3))
        .tcp_keepalive(Some(Duration::from_secs(4)))
        .tcp_keepalive_retries(Some(5))
        .connection_verbose(true)
        .tcp_nodelay(false)
        .tls_info(true)
        .http2_only()
        .min_tls_version(TlsVersion::Tls1_2)
        .cert_verification(false)
        .proxy(proxy)
        .pool_max_size(7)
        .connector_layer(1)
        .hickory_dns_strategy(LookupIpStrategy::Ipv4Only)
        .build()
        .unwrap();
    let state = &client.inner;
    assert_eq!(first_value(&state.headers, "user-agent"), Some(b"ua".to_vec()));
    assert_eq!(state.total_timeout, Some(Duration::from_secs(1)));
    assert_eq!(state.read_timeout, Some(Duration::from_secs(2)));
    assert_eq!(state.proxies.len(), 1);
    assert!(state.proxies_maybe_http_auth);
    assert_eq!(state.alpn_protos, Some(HttpVersionPref::Http2));
    assert_eq!(state.http2_max_retry_count, 2);
    let hyper = &client.inner.hyper;
    assert!(hyper.http2_only);
    assert_eq!(hyper.pool_max_size, Some(7));
    assert_eq!(hyper.pool_idle_timeout, Some(Duration::from_secs(90)));
    assert_eq!(hyper.resolver, Resolver::Hickory(LookupIpStrategy::Ipv4Only));
    match &hyper.connector {
        Connector::WithLayers { layers, base_service } => {
            assert_eq!(layers, &vec![1]);
            assert_eq!(base_service.timeout, Some(Duration::from_secs(3)));
            assert_eq!(base_service.http.connect_timeout, Some(Duration::from_secs(3)));
            assert_eq!(base_service.http.keepalive, Some(Duration::from_secs(4)));
            assert_eq!(base_service.http.keepalive_retries, Some(5));
            assert!(!base_service.http.enforce_http);
            assert_eq!(base_service.verbose, Wrapper(true));
            assert!(!base_service.nodelay);
            assert!(base_service.tls_info);
            assert!(base_service.proxies.is_empty());
            assert_eq!(base_service.tls.tls_config.http_version_pref, HttpVersionPref::Http2);
            assert_eq!(base_service.tls.tls_config.min_tls_version, Some(TlsVersion::Tls1_2));
            assert!(!base_service.tls.cert_verification);
            assert!(base_service.tls.cert_store.as_ref().unwrap().certs.is_empty());
        }
        Connector::Simple(_) => panic!("simple"),
    }
}

#[test]
fn resolver_choice() {
    let client = TestBuilder::new().build().unwrap();
    assert_eq!(client.inner.hyper.resolver, Resolver::Hickory(LookupIpStrategy::Ipv4AndIpv6));
    assert!(!client.inner.hyper.http2_only);
    assert!(matches!(client.inner.hyper.connector, Connector::Simple(_)));
    let gai = TestBuilder::new().no_hickory_dns().build().unwrap();
    assert_eq!(gai.inner.hyper.resolver, Resolver::Gai);
    assert_eq!(hickory_strategy(None), LookupIpStrategy::Ipv4AndIpv6);
    assert_eq!(hickory_strategy(Some(LookupIpStrategy::Ipv6thenIpv4)), LookupIpStrategy::Ipv6thenIpv4);
}

#[test]
fn build_reports_the_first_error() {
    let builder = TestBuilder::new().user_agent(&[0]).ssl_pinning(vec![Vec::new()]);
    assert_eq!(builder.build().unwrap_err().cause(), Cause::InvalidCertificate);
}

#[test]
fn new_client_has_the_defaults() {
    let client: Client<Jar, u8> = Client::new();
    assert!(client.inner.headers.is_empty());
    assert!(client.inner.cookie_store.is_none());
    assert!(client.inner.proxies.is_empty());
    assert_eq!(client.inner.redirect, Policy::Limit(10));
    assert!(Client::<Jar, u8>::builder().config.error.is_none());
}

#[test]
fn request_builders_by_method() {
    let client: Client<Jar, u8> = Client::new();
    let cases: Vec<(RequestBuilder, Method)> = vec![
        (client.get("http://a.example/"), Method::Get),
        (client.post("http://a.example/"), Method::Post),
        (client.put("http://a.example/"), Method::Put),
        (client.patch("http://a.example/"), Method::Patch),
        (client.delete("http://a.example/"), Method::Delete),
        (client.head("http://a.example/"), Method::Head),
        (client.request(Method::Options, "http://a.example/"), Method::Options),
    ];
    for (builder, method) in cases {
        let request = builder.build().unwrap();
        assert_eq!(request.method, method);
        assert_eq!(request.url.as_str(), "http://a.example/");
        assert!(request.headers.is_empty());
        assert!(request.body.is_none());
        assert!(request.allow_compression);
        assert_eq!(method.as_str().len() >= 3, true);
    }
    assert_eq!(Method::Delete.as_str(), "DELETE");
    assert_eq!(Method::Get.as_str(), "GET");
}

#[test]
fn request_for_what_is_no_url_is_an_error() {
    let client: Client<Jar, u8> = Client::new();
    let err = client.get("not a url").build().unwrap_err();
    assert_eq!(err.kind(), Kind::Builder);
    assert_eq!(err.cause(), Cause::InvalidUrl);
    let err = client.get("data:text/plain,hello").build().unwrap_err();
    assert_eq!(err.kind(), Kind::Url);
    assert_eq!(err.cause(), Cause::BadScheme);
    assert!(err.url().is_some());
}

#[test]
fn request_builder_collects_parts() {
    let client: Client<Jar, u8> = Client::new();
    let request = client
        .post("http://a.example/")
        .header("accept", b"a")
        .header("accept", b"b")
        .body(Body::from_vec(b"x".to_vec()))
        .timeout(Duration::from_millis(100))
        .read_timeout(Duration::from_millis(50))
        .redirect(Policy::limited(2))
        .network_scheme(NetworkScheme::from_interface("eth0".into()))
        .build()
        .unwrap();
    assert_eq!(all_values(&request.headers, "accept"), vec![b"a".to_vec(), b"b".to_vec()]);
    assert_eq!(request.body.unwrap().as_bytes(), Some(&b"x"[..]));
    assert_eq!(request.extensions.total_timeout, Some(Duration::from_millis(100)));
    assert_eq!(request.extensions.read_timeout, Some(Duration::from_millis(50)));
    assert_eq!(request.redirect, Some(Policy::Limit(2)));
    assert!(matches!(request.network_scheme, NetworkScheme::Scheme { .. }));
}

#[test]
fn request_builder_keeps_its_first_error() {
    let client: Client<Jar, u8> = Client::new();
    let err = client.get("http://a.example/").header("Bad Name", b"x").build().unwrap_err();
    assert_eq!(err.cause(), Cause::InvalidHeaderName);
    let err = client.get("http://a.example/").header("ok", b"bad\n").build().unwrap_err();
    assert_eq!(err.cause(), Cause::InvalidHeaderValue);
    let err = client
        .get("nope")
        .header("ok", b"fine")
        .body(Body::empty())
        .timeout(Duration::from_secs(1))
        .read_timeout(Duration::from_secs(1))
        .redirect(Policy::none())
        .network_scheme(NetworkScheme::Default)
        .build()
        .unwrap_err();
    assert_eq!(err.cause(), Cause::InvalidUrl);
    let built = RequestBuilder::new(Err(Error::builder(Cause::HeadersFull))).build();
    assert_eq!(built.unwrap_err().cause(), Cause::HeadersFull);
}

#[test]
fn first_request_carries_defaults_and_offers_encodings() {
    let client = TestBuilder::new().user_agent(b"ua").no_zstd().build().unwrap();
    let mut req = Request::new(Method::Get, Url::parse("http://a.example/x").unwrap());
    insert_header(&mut req.headers, "accept", b"mine").unwrap();
    let mut pending = client.execute(req);
    match pending.begin() {
        Step::Dispatch(request) => {
            assert_eq!(request.uri.as_str(), "http://a.example/x");
            assert_eq!(request.method, Method::Get);
            assert_eq!(first_value(&request.headers, "user-agent"), Some(b"ua".to_vec()));
            assert_eq!(first_value(&request.headers, "accept"), Some(b"mine".to_vec()));
            assert_eq!(first_value(&request.headers, "accept-encoding"), Some(b"gzip, br, deflate".to_vec()));
            assert!(matches!(request.body, Body::Empty));
            assert_eq!(request.headers.len(), 3);
        }
        other => panic!("{:?}", other),
    }
}

#[test]
fn request_may_forbid_compression_and_order_headers() {
    let client = TestBuilder::new().headers_order(vec!["a".into(), "b".into()]).build().unwrap();
    let mut req = Request::new(Method::Get, Url::parse("http://a.example/").unwrap());
    req.allow_compression = false;
    match client.execute(req).inner {
        PendingInner::Request(p) => {
            assert!(p.headers.is_empty());
            assert_eq!(p.headers_order, Some(vec!["a".to_string(), "b".to_string()]));
            assert_eq!(p.http2_max_retry_count, 2);
            assert_eq!(p.http2_retry_count, 0);
            assert!(p.urls.is_empty());
        }
        PendingInner::Error(e) => panic!("{:?}", e),
    }
    let mut own = Request::new(Method::Get, Url::parse("http://a.example/").unwrap());
    own.headers_order = Some(vec!["z".into()]);
    match client.execute(own).inner {
        PendingInner::Request(p) => assert_eq!(p.headers_order, Some(vec!["z".to_string()])),
        PendingInner::Error(e) => panic!("{:?}", e),
    }
}

#[test]
fn url_that_is_no_request_target_is_refused() {
    let client: Client<Jar, u8> = Client::new();
    let long = format!("http://a.example/{}", "a".repeat(70000));
    let mut pending = client.execute(Request::new(Method::Get, Url::parse(&long).unwrap()));
    match pending.begin() {
        Step::Fail(err) => {
            assert_eq!(err.kind(), Kind::Url);
            assert_eq!(err.cause(), Cause::BadUri);
        }
        other => panic!("{:?}", other),
    }
}

#[test]
fn update_changes_the_copy_only() {
    let client = TestBuilder::new().user_agent(b"old").build().unwrap();
    let mut headers = new_headers();
    insert_header(&mut headers, "user-agent", b"new").unwrap();
    let proxy = Proxy::all(
        ProxyScheme::parse(Url::parse("http://p.example").unwrap())
            .unwrap()
            .with_basic_auth("u".into(), "p".into()),
    );
    let update = client
        .update()
        .headers(headers)
        .headers_order(vec!["user-agent".into()])
        .local_address(Some(IpAddr::V4(Ipv4Addr([9, 9, 9, 9]))))
        .interface("eth9".into())
        .proxies(vec![proxy]);
    assert_eq!(first_value(&update.current.headers, "user-agent"), Some(b"new".to_vec()));
    assert_eq!(first_value(&client.inner.headers, "user-agent"), Some(b"old".to_vec()));
    assert_eq!(update.current.proxies.len(), 1);
    assert!(update.current.proxies_maybe_http_auth);
    assert!(client.inner.proxies.is_empty());
    assert_eq!(update.current.network_scheme.interface.as_deref(), Some("eth9"));
    let update = update.unset_proxies().local_addresses(None, Some(Ipv6Addr([0; 16])));
    assert!(update.current.proxies.is_empty());
    assert!(!update.current.proxies_maybe_http_auth);
    assert!(update.current.network_scheme.addresses.0.is_none());
    assert!(update.current.network_scheme.addresses.1.is_some());
    let applied = update.cookie_provider(Arc::new(Jar::default())).apply();
    assert!(applied.state.cookie_store.is_some());
    assert!(applied.http1_config.is_none());
    assert!(applied.http2_config.is_none());
    assert!(applied.tls_connector.is_none());
    assert_eq!(applied.state.headers_order, Some(vec!["user-agent".to_string()]));
}

#[test]
fn update_copies_every_setting() {
    let jar = Arc::new(Jar::default());
    let client = TestBuilder::new()
        .user_agent(b"ua")
        .https_only(true)
        .redirect(Policy::limited(4))
        .timeout(Duration::from_secs(3))
        .http2_max_retry_count(5)
        .cookie_provider(jar.clone())
        .keylog(KeyLogPolicy::File("k".into()))
        .identity(Identity { encoded: vec![1] })
        .cert_store(CertStore { certs: vec![vec![2]] })
        .build()
        .unwrap();
    let copy = client.update().current;
    assert_eq!(copy.headers, client.inner.headers);
    assert!(copy.https_only);
    assert_eq!(copy.redirect, Policy::Limit(4));
    assert_eq!(copy.total_timeout, Some(Duration::from_secs(3)));
    assert_eq!(copy.http2_max_retry_count, 5);
    assert!(Arc::ptr_eq(copy.cookie_store.as_ref().unwrap(), &jar));
    assert!(matches!(copy.keylog, Some(KeyLogPolicy::File(ref p)) if p == "k"));
    assert_eq!(copy.identity.unwrap().encoded, vec![1]);
    assert_eq!(copy.cert_store.unwrap().certs, vec![vec![2]]);
    let fresh = ClientUpdate::new(client.inner.copy());
    assert!(fresh.emulation.is_none());
}

#[test]
fn profile_switch_rebuilds_tls_with_the_client_choices() {
    let client = TestBuilder::new()
        .user_agent(b"old")
        .http1_only()
        .max_tls_version(TlsVersion::Tls1_2)
        .tls_sni(false)
        .cert_store(CertStore { certs: vec![vec![5]] })
        .build()
        .unwrap();
    let applied = client.update().emulation(okhttp4_9::get_settings(true)).apply();
    assert!(first_value(&applied.state.headers, "user-agent").unwrap().ends_with(b"OkHttp/4.9"));
    assert!(applied.http1_config.is_none());
    assert_eq!(applied.http2_config.unwrap().max_concurrent_streams, Some(1000));
    let tls = applied.tls_connector.unwrap();
    assert_eq!(tls.tls_config.http_version_pref, HttpVersionPref::Http1);
    assert_eq!(tls.tls_config.min_tls_version, Some(TlsVersion::Tls1_2));
    assert_eq!(tls.tls_config.max_tls_version, Some(TlsVersion::Tls1_2));
    assert!(tls.tls_config.cipher_list.as_deref().unwrap().starts_with("TLS_AES_128_GCM_SHA256"));
    assert!(!tls.tls_sni);
    assert_eq!(tls.cert_store.unwrap().certs, vec![vec![5]]);
    let without = client.update().emulation(okhttp4_9::get_settings(false)).apply();
    assert_eq!(first_value(&without.state.headers, "user-agent"), Some(b"old".to_vec()));
}

#[test]
fn request_in_flight_keeps_the_state_it_began_under() {
    let mut client = TestBuilder::new()
        .emulation(okhttp4_9::get_settings(true))
        .redirect(Policy::limited(5))
        .build()
        .unwrap();
    let mut first =
        client.execute(Request::new(Method::Get, Url::parse("https://a.example/slow").unwrap()));
    let before = match first.begin() {
        Step::Dispatch(request) => first_value(&request.headers, "user-agent").unwrap(),
        other => panic!("{:?}", other),
    };
    assert!(before.ends_with(b"OkHttp/4.9"));

    let applied = client
        .update()
        .emulation(okhttp5::get_settings(true))
        .apply();
    client.store(applied);
    assert_eq!(client.inner.hyper.http2_config.max_concurrent_streams, Some(1000));
    assert!(client.inner.hyper.connector.base_service().tls.tls_config.enable_ocsp_stapling);

    let mut redirect = new_headers();
    insert_header(&mut redirect, "location", b"/next").unwrap();
    match first.poll(Event::Response { status: StatusCode(302), headers: redirect }) {
        Step::Dispatch(request) => {
            assert_eq!(first_value(&request.headers, "user-agent"), Some(before.clone()));
        }
        other => panic!("{:?}", other),
    }
    match &first.inner {
        PendingInner::Request(p) => {
            assert!(first_value(&p.client.headers, "user-agent").unwrap().ends_with(b"OkHttp/4.9"));
            let ciphers = &p.client.hyper.connector.base_service().tls.tls_config.cipher_list;
            assert_eq!(ciphers.as_deref(), Some(okhttp4_9::CIPHER_LIST));
            assert_ne!(
                client.inner.hyper.connector.base_service().tls.tls_config.cipher_list,
                *ciphers
            );
        }
        PendingInner::Error(e) => panic!("{:?}", e),
    }

    let mut second =
        client.execute(Request::new(Method::Get, Url::parse("https://a.example/new").unwrap()));
    match second.begin() {
        Step::Dispatch(request) => {
            assert!(first_value(&request.headers, "user-agent")
                .unwrap()
                .ends_with(b"OkHttp/5.0.0-alpha2"));
        }
        other => panic!("{:?}", other),
    }
}

#[test]
fn store_sets_the_dispatcher_up() {
    let mut client = TestBuilder::new().connector_layer(3).build().unwrap();
    let mut http2 = Http2Config::default();
    http2.max_frame_size = Some(16384);
    let mut tls = TlsSettings::default();
    tls.pre_shared_key = true;
    let profile = EmulationProvider::builder()
        .http1_config(Http1Config { preserve_header_case: true, title_case_headers: false })
        .http2_config(http2)
        .tls_config(tls)
        .build();
    let applied = client.update().apply_emulation(profile).apply();
    client.store(applied);
    assert!(client.inner.hyper.http1_config.preserve_header_case);
    assert_eq!(client.inner.hyper.http2_config.max_frame_size, Some(16384));
    match &client.inner.hyper.connector {
        Connector::WithLayers { layers, base_service } => {
            assert_eq!(layers, &vec![3]);
            assert!(base_service.tls.tls_config.pre_shared_key);
        }
        Connector::Simple(_) => panic!("simple"),
    }
}

#[test]
fn request_header_names_count_in_lower_case() {
    let client: Client<Jar, u8> = Client::new();
    let request = client
        .get("http://a.example/")
        .header("User-Agent", b"x")
        .header("user-agent", b"y")
        .header("X-Custom_1.2", b"z")
        .build()
        .unwrap();
    assert_eq!(all_values(&request.headers, "user-agent"), vec![b"x".to_vec(), b"y".to_vec()]);
    assert_eq!(all_values(&request.headers, "x-custom_1.2"), vec![b"z".to_vec()]);
    assert_eq!(request.method, Method::Get);
    assert!(request.body.is_none() && request.redirect.is_none() && request.allow_compression);
    let err = client.get("http://a.example/").header("a\"b", b"x").build().unwrap_err();
    assert_eq!(err.cause(), Cause::InvalidHeaderName);
    let err = client.get("http://a.example/").header("", b"x").build().unwrap_err();
    assert_eq!(err.cause(), Cause::InvalidHeaderName);
    let err = client.get("http://a.example/").header("caf\u{c9}", b"x").build().unwrap_err();
    assert_eq!(err.cause(), Cause::InvalidHeaderName);
}

#[test]
fn builder_of_a_client_is_a_fresh_builder() {
    let config = Client::<Jar, u8>::builder().config;
    assert!(config.error.is_none() && config.headers.is_empty());
    assert_eq!(config.redirect_policy, Policy::Limit(10));
    assert_eq!(config.http2_max_retry_count, 2);
    assert!(config.auto_sys_proxy && config.referer && config.nodelay && config.hickory_dns);
    assert!(config.cookie_store.is_none() && config.timeout.is_none());
}
