use rquest::connect::resolve_proxy_addr;
use rquest::connect::resolve_target_addr;
use rquest::connect::tls_connected;
use rquest::connect::with_timeout;
use rquest::connect::Attempt;
use rquest::connect::Conn;
use rquest::connect::Connected;
use rquest::connect::Connector;
use rquest::connect::ConnectorBuilder;
use rquest::connect::ConnectorService;
use rquest::connect::DnsResolve;
use rquest::connect::Dst;
use rquest::connect::HttpConnector;
use rquest::connect::Route;
use rquest::connect::SocksVersion;
use rquest::connect::TargetAddr;
use rquest::connect::Unnameable;
use rquest::connect::Wrapper;
use rquest::error::Cause;
use rquest::error::Error;
use rquest::error::Kind;
use rquest::header::first_value;
use rquest::header::insert_header;
use rquest::header::new_headers;
use rquest::net::IpAddr;
use rquest::net::Ipv4Addr;
use rquest::net::Ipv6Addr;
use rquest::net::SocketAddr;
use rquest::proxy::Proxy;
use rquest::proxy::ProxyScheme;
use rquest::tls::connector::TlsConnector;
use rquest::tls::connector::TlsInfo;
use rquest::tls::settings::TlsSettings;
use rquest::url::Url;
use rquest::verbose::Escape;
use rquest::verbose::Vectored;
use std::time::Duration;

fn connects_builder(proxies: Vec<Proxy>, nodelay: bool, tls_info: bool) -> ConnectorBuilder {
    Connector::<()>::builder(
        HttpConnector::new(),
        TlsConnector::builder(TlsSettings::default()),
        proxies,
        nodelay,
        tls_info,
    )
}

fn connects_service(proxies: Vec<Proxy>, nodelay: bool, tls_info: bool) -> ConnectorService {
    match connects_builder(proxies, nodelay, tls_info).build::<()>(None) {
        Connector::Simple(service) => service,
        Connector::WithLayers { .. } => panic!("layers"),
    }
}

fn connects_dst(url: &str) -> Dst {
    Dst { uri: Url::parse(url).unwrap(), proxy: None }
}

fn connects_target(url: &str) -> ProxyScheme {
    ProxyScheme::parse(Url::parse(url).unwrap()).unwrap()
}

#[test]
fn builder_starts_from_the_given_parts() {
    let builder = connects_builder(Vec::new(), true, false);
    assert!(!builder.http.enforce_http);
    assert_eq!(builder.verbose, Wrapper(false));
    assert_eq!(builder.timeout, None);
    assert!(builder.nodelay);
    assert!(!builder.tls_info);
}

#[test]
fn builder_setters() {
    let builder = connects_builder(Vec::new(), true, false)
        .keepalive(Some(Duration::from_secs(1)))
        .tcp_keepalive_interval(Some(Duration::from_secs(2)))
        .tcp_keepalive_retries(Some(3))
        .timeout(Some(Duration::from_secs(4)))
        .interface(Some("eth0".to_string()))
        .verbose(true);
    assert_eq!(builder.http.keepalive, Some(Duration::from_secs(1)));
    assert_eq!(builder.http.keepalive_interval, Some(Duration::from_secs(2)));
    assert_eq!(builder.http.keepalive_retries, Some(3));
    assert_eq!(builder.timeout, Some(Duration::from_secs(4)));
    assert_eq!(builder.http.connect_timeout, Some(Duration::from_secs(4)));
    assert_eq!(builder.http.interface.as_deref(), Some("eth0"));
    assert_eq!(builder.verbose, Wrapper(true));
}

#[test]
fn local_addresses_fill_the_slots() {
    let v4 = Ipv4Addr([10, 0, 0, 1]);
    let v6 = Ipv6Addr([0; 16]);
    let only4 = connects_builder(Vec::new(), true, false).local_addresses(Some(v4), None);
    assert_eq!(only4.http.local_address_ipv4.map(|a| a.0), Some([10, 0, 0, 1]));
    assert!(only4.http.local_address_ipv6.is_none());
    let only6 = only4.local_addresses(None, Some(v6));
    assert!(only6.http.local_address_ipv4.is_none());
    assert!(only6.http.local_address_ipv6.is_some());
    let both = only6.local_addresses(Some(v4), Some(v6));
    assert!(both.http.local_address_ipv4.is_some());
    assert!(both.http.local_address_ipv6.is_some());
    let same = both.local_addresses(None, None);
    assert!(same.http.local_address_ipv4.is_some());
    assert!(same.http.local_address_ipv6.is_some());
    let mut http = HttpConnector::new();
    http.set_local_address(Some(IpAddr::V6(v6)));
    assert!(http.local_address_ipv4.is_none() && http.local_address_ipv6.is_some());
    http.set_local_address(None);
    assert!(http.local_address_ipv4.is_none() && http.local_address_ipv6.is_none());
}

#[test]
fn layers_decide_the_kind_of_connector() {
    let simple = connects_builder(Vec::new(), true, false).build::<u8>(None);
    assert!(matches!(simple, Connector::Simple(_)));
    let layered = connects_builder(Vec::new(), true, false)
        .timeout(Some(Duration::from_secs(1)))
        .build(Some(vec![1u8, 2]));
    match &layered {
        Connector::WithLayers { layers, base_service } => {
            assert_eq!(layers, &vec![1u8, 2]);
            assert_eq!(base_service.timeout, Some(Duration::from_secs(1)));
        }
        Connector::Simple(_) => panic!("simple"),
    }
    assert_eq!(layered.base_service().timeout, Some(Duration::from_secs(1)));
}

#[test]
fn tls_connector_is_replaced_in_both_kinds() {
    let fresh = || TlsConnector::builder(TlsSettings::default()).tls_sni(false);
    let mut simple = connects_builder(Vec::new(), true, false).build::<u8>(None);
    assert!(simple.base_service().tls.tls_sni);
    simple.set_tls_connector(fresh());
    assert!(!simple.base_service().tls.tls_sni);
    assert!(matches!(simple, Connector::Simple(_)));

    let mut layered = connects_builder(Vec::new(), true, true)
        .timeout(Some(Duration::from_secs(9)))
        .verbose(true)
        .build(Some(vec![7u8]));
    layered.set_tls_connector(fresh());
    match layered {
        Connector::WithLayers { layers, base_service } => {
            assert_eq!(layers, vec![7u8]);
            assert!(!base_service.tls.tls_sni);
            assert!(!base_service.http.enforce_http);
            assert_eq!(base_service.http.connect_timeout, Some(Duration::from_secs(9)));
            assert_eq!(base_service.timeout, Some(Duration::from_secs(9)));
            assert_eq!(base_service.verbose, Wrapper(true));
            assert!(base_service.tls_info);
        }
        Connector::Simple(_) => panic!("simple"),
    }
}

#[test]
fn direct_route() {
    let service = connects_service(Vec::new(), false, true);
    let plan = service.call(connects_dst("https://a.example/"));
    assert_eq!(plan.timeout, None);
    match plan.route.unwrap() {
        Route::Direct { uri, handshake_nodelay, conn } => {
            assert_eq!(uri.as_str(), "https://a.example/");
            assert!(handshake_nodelay);
            assert_eq!(conn, Conn { is_proxy: false, tls_info: true });
        }
        other => panic!("{:?}", other),
    }
    match service.call(connects_dst("http://a.example/")).route.unwrap() {
        Route::Direct { handshake_nodelay, .. } => assert!(!handshake_nodelay),
        other => panic!("{:?}", other),
    }
    let nodelay = connects_service(Vec::new(), true, false);
    match nodelay.call(connects_dst("https://a.example/")).route.unwrap() {
        Route::Direct { handshake_nodelay, conn, .. } => {
            assert!(!handshake_nodelay);
            assert!(!conn.tls_info);
        }
        other => panic!("{:?}", other),
    }
}

#[test]
fn https_through_http_proxy_is_tunnelled() {
    let mut extra = new_headers();
    insert_header(&mut extra, "x-tunnel", b"1").unwrap();
    let target = connects_target("http://p.example:3128")
        .with_basic_auth("u".into(), "p".into())
        .with_custom_headers(extra);
    let service = connects_service(vec![Proxy::all(target)], true, true);
    match service.call(connects_dst("https://a.example:8443/x")).route.unwrap() {
        Route::Tunnel { proxy, target, host, auth, headers, conn } => {
            assert_eq!(proxy.as_str(), "http://p.example:3128/");
            assert_eq!(target.as_str(), "https://a.example:8443/x");
            assert_eq!(host, "a.example");
            assert_eq!(auth, Some(b"Basic dTpw".to_vec()));
            assert_eq!(first_value(&headers.unwrap(), "x-tunnel"), Some(b"1".to_vec()));
            assert_eq!(conn, Conn { is_proxy: false, tls_info: true });
        }
        other => panic!("{:?}", other),
    }
}

#[test]
fn http_through_http_proxy_is_forwarded() {
    let service = connects_service(vec![Proxy::all(connects_target("http://p.example:3128"))], false, false);
    match service.call(connects_dst("http://a.example/x")).route.unwrap() {
        Route::Direct { uri, handshake_nodelay, conn } => {
            assert_eq!(uri.as_str(), "http://p.example:3128/");
            assert!(!handshake_nodelay);
            assert!(conn.is_proxy);
        }
        other => panic!("{:?}", other),
    }
}

#[test]
fn socks_routes_by_variant() {
    for (scheme, version, dns) in [
        ("socks4", SocksVersion::V4, DnsResolve::Local),
        ("socks4a", SocksVersion::V4, DnsResolve::Proxy),
        ("socks5", SocksVersion::V5, DnsResolve::Local),
        ("socks5h", SocksVersion::V5, DnsResolve::Proxy),
    ] {
        let proxy_url = format!("{scheme}://p.example:1080");
        let service = connects_service(vec![Proxy::all(connects_target(&proxy_url))], true, true);
        match service.call(connects_dst("https://a.example/")).route.unwrap() {
            Route::Socks { via, version: v, dns: d, host, port, tls, conn } => {
                assert_eq!(via.uri.as_str(), proxy_url);
                assert_eq!(v, version);
                assert_eq!(d, dns);
                assert_eq!(host, "a.example");
                assert_eq!(port, 443);
                assert!(tls);
                assert_eq!(conn, Conn { is_proxy: false, tls_info: true });
            }
            other => panic!("{:?}", other),
        }
        match service.call(connects_dst("http://a.example:8080/")).route.unwrap() {
            Route::Socks { port, tls, conn, .. } => {
                assert_eq!(port, 8080);
                assert!(!tls);
                assert_eq!(conn, Conn { is_proxy: false, tls_info: false });
            }
            other => panic!("{:?}", other),
        }
    }
}

#[test]
fn proxy_of_the_request_goes_first_then_the_first_match() {
    let service = connects_service(
        vec![
            Proxy::https(connects_target("http://only-https.example")),
            Proxy::all(connects_target("http://first.example")),
            Proxy::all(connects_target("http://second.example")),
        ],
        true,
        false,
    );
    match service.call(connects_dst("http://a.example/")).route.unwrap() {
        Route::Direct { uri, .. } => assert_eq!(uri.as_str(), "http://first.example/"),
        other => panic!("{:?}", other),
    }
    let own = Dst {
        uri: Url::parse("http://a.example/").unwrap(),
        proxy: Some(connects_target("http://own.example")),
    };
    match service.call(own).route.unwrap() {
        Route::Direct { uri, .. } => assert_eq!(uri.as_str(), "http://own.example/"),
        other => panic!("{:?}", other),
    }
    let layered = connects_builder(Vec::new(), true, false)
        .timeout(Some(Duration::from_secs(3)))
        .build(Some(vec![0u8]));
    let plan = layered.call(connects_dst("http://a.example/"));
    assert_eq!(plan.timeout, Some(Duration::from_secs(3)));
    assert!(matches!(plan.route, Ok(Route::Direct { .. })));
}

#[test]
fn destination_parts_can_be_taken_and_set() {
    let mut dst = Dst {
        uri: Url::parse("http://a.example/").unwrap(),
        proxy: Some(connects_target("http://p.example")),
    };
    assert!(dst.take_proxy_intercepted().is_some());
    assert!(dst.take_proxy_intercepted().is_none());
    dst.set_uri(Url::parse("http://b.example/").unwrap());
    let wrapped = Unnameable(dst);
    assert_eq!(wrapped.0.uri.as_str(), "http://b.example/");
}

#[test]
fn host_and_port_for_socks() {
    let (host, port) =
        ConnectorService::extract_host_port(&Url::parse("https://a.example/").unwrap()).unwrap();
    assert_eq!((host.as_str(), port), ("a.example", 443));
    let (_, port) =
        ConnectorService::extract_host_port(&Url::parse("http://a.example/").unwrap()).unwrap();
    assert_eq!(port, 80);
    let (_, port) =
        ConnectorService::extract_host_port(&Url::parse("http://a.example:81/").unwrap()).unwrap();
    assert_eq!(port, 81);
    let (_, port) =
        ConnectorService::extract_host_port(&Url::parse("other://a.example/").unwrap()).unwrap();
    assert_eq!(port, 80);
    let err = ConnectorService::extract_host_port(&Url::parse("data:text/plain,x").unwrap())
        .unwrap_err();
    assert_eq!(err.kind(), Kind::Url);
    assert_eq!(err.cause(), Cause::BadHost);
}

#[test]
fn deadline_on_connecting() {
    let elapsed: Result<u8, Error> = with_timeout(Attempt::Elapsed);
    let err = elapsed.unwrap_err();
    assert_eq!(err.kind(), Kind::TimedOut);
    assert!(err.url().is_none());
    assert_eq!(with_timeout(Attempt::Finished(Ok(5u8))).unwrap(), 5);
    let failed: Result<u8, Error> =
        with_timeout(Attempt::Finished(Err(Error::new(Kind::Connect, Cause::Unspecified))));
    assert_eq!(failed.unwrap_err().kind(), Kind::Connect);
}

#[test]
fn socks_addresses() {
    let addr = SocketAddr::new(IpAddr::V4(Ipv4Addr([127, 0, 0, 1])), 1080);
    assert_eq!(resolve_proxy_addr(Some(addr)).unwrap().port, 1080);
    assert_eq!(resolve_proxy_addr(None).unwrap_err().kind(), Kind::Connect);
    match resolve_target_addr("a.example".into(), 443, DnsResolve::Local, Some(addr)) {
        TargetAddr::Ip(a) => assert_eq!(a.port, 1080),
        other => panic!("{:?}", other),
    }
    for (mode, resolved) in
        [(DnsResolve::Local, None), (DnsResolve::Proxy, Some(addr)), (DnsResolve::Proxy, None)]
    {
        match resolve_target_addr("a.example".into(), 443, mode, resolved) {
            TargetAddr::Domain(host, port) => assert_eq!((host.as_str(), port), ("a.example", 443)),
            other => panic!("{:?}", other),
        }
    }
}

#[test]
fn connection_reports() {
    let inner = || Connected { is_proxied: false, negotiated_h2: true, extra: None };
    let info = || Some(TlsInfo { peer_certificate: Some(vec![1, 2, 3]) });
    let conn = Conn { is_proxy: true, tls_info: true };
    let connected = conn.connected(inner(), info());
    assert!(connected.is_proxied);
    assert!(connected.negotiated_h2);
    assert_eq!(connected.extra.unwrap().peer_certificate, Some(vec![1, 2, 3]));
    let quiet = Conn { is_proxy: false, tls_info: false };
    assert!(quiet.connected(inner(), info()).extra.is_none());
    assert!(conn.connected(inner(), None).extra.is_none());

    let plain = || Connected { is_proxied: true, negotiated_h2: false, extra: None };
    assert!(tls_connected(plain(), Some(b"h2")).negotiated_h2);
    assert!(!tls_connected(plain(), Some(b"http/1.1")).negotiated_h2);
    assert!(!tls_connected(plain(), Some(b"h2c")).negotiated_h2);
    assert!(!tls_connected(plain(), None).negotiated_h2);
    assert!(tls_connected(plain(), Some(b"h2")).is_proxied);
}

#[test]
fn trace_ids() {
    assert_eq!(Wrapper(true).wrap(true, 0x1_2345_6789), Some(0x2345_6789));
    assert_eq!(Wrapper(true).wrap(false, 1), None);
    assert_eq!(Wrapper(false).wrap(true, 1), None);
}

#[test]
fn bytes_are_escaped_for_traces() {
    assert_eq!(Escape(b"").fmt(), b"b\"\"");
    assert_eq!(Escape(b"GET / HTTP/1.1\r\n").fmt(), b"b\"GET / HTTP/1.1\\r\\n\"".to_vec());
    assert_eq!(Escape(b"a\tb\\c\"d\0").fmt(), b"b\"a\\tb\\\\c\\\"d\\0\"".to_vec());
    assert_eq!(Escape(&[0x01, 0x1f, 0x7f, 0x80, 0xff, 0x20, 0x7e]).fmt(), b"b\"\\x01\\x1f\\x7f\\x80\\xff ~\"".to_vec());
    let mut out = b"x".to_vec();
    Escape(b"y").write_to(&mut out);
    assert_eq!(out, b"xb\"y\"");
}

#[test]
fn vectored_writes_are_escaped_as_far_as_written() {
    let bufs = vec![b"abc".to_vec(), b"de\n".to_vec(), b"f".to_vec()];
    assert_eq!(Vectored { bufs: &bufs, nwritten: 0 }.fmt(), b"");
    assert_eq!(Vectored { bufs: &bufs, nwritten: 2 }.fmt(), b"b\"ab\"");
    assert_eq!(Vectored { bufs: &bufs, nwritten: 3 }.fmt(), b"b\"abc\"");
    assert_eq!(Vectored { bufs: &bufs, nwritten: 6 }.fmt(), b"b\"abc\"b\"de\\n\"".to_vec());
    assert_eq!(Vectored { bufs: &bufs, nwritten: 100 }.fmt(), b"b\"abc\"b\"de\\n\"b\"f\"".to_vec());
    let with_empty = vec![Vec::new(), b"x".to_vec()];
    assert_eq!(Vectored { bufs: &with_empty, nwritten: 1 }.fmt(), b"b\"\"b\"x\"");
}
