use rquest::client::builder::ClientBuilder;
use rquest::client::pending::PendingInner;
use rquest::client::pending::Step;
use rquest::client::request::Request;
use rquest::cookie::Jar;
use rquest::header::all_values;
use rquest::header::contains_header;
use rquest::header::first_value;
use rquest::header::insert_header;
use rquest::header::new_headers;
use rquest::method::Method;
use rquest::proxy::base64_encode;
use rquest::proxy::copy_proxies;
use rquest::proxy::encode_basic_auth;
use rquest::proxy::has_scheme_mark;
use rquest::proxy::proxies_maybe_http_auth;
use rquest::proxy::proxy_kind;
use rquest::proxy::Intercept;
use rquest::proxy::NoProxy;
use rquest::proxy::Proxy;
use rquest::proxy::ProxyKind;
use rquest::proxy::ProxyScheme;
use rquest::scheme::NetworkScheme;
use rquest::url::Url;

fn proxy_target(url: &str) -> ProxyScheme {
    ProxyScheme::parse(Url::parse(url).unwrap()).unwrap()
}

#[test]
fn base64_of_known_texts() {
    assert_eq!(base64_encode(b""), b"");
    assert_eq!(base64_encode(b"f"), b"Zg==");
    assert_eq!(base64_encode(b"fo"), b"Zm8=");
    assert_eq!(base64_encode(b"foo"), b"Zm9v");
    assert_eq!(base64_encode(b"foob"), b"Zm9vYg==");
    assert_eq!(base64_encode(b"fooba"), b"Zm9vYmE=");
    assert_eq!(base64_encode(b"foobar"), b"Zm9vYmFy");
    assert_eq!(base64_encode(&[0xfb, 0xff, 0xfe]), b"+//+");
    assert_eq!(base64_encode(&[0, 0, 0]), b"AAAA");
    assert_eq!(base64_encode(&[0xff]), b"/w==");
}

#[test]
fn basic_auth_value() {
    assert_eq!(encode_basic_auth("user", "pass"), b"Basic dXNlcjpwYXNz");
    assert_eq!(encode_basic_auth("Aladdin", "open sesame"), b"Basic QWxhZGRpbjpvcGVuIHNlc2FtZQ==");
    assert_eq!(encode_basic_auth("", ""), b"Basic Og==");
}

#[test]
fn kinds_by_scheme() {
    assert_eq!(proxy_kind("http"), Some(ProxyKind::Http));
    assert_eq!(proxy_kind("https"), Some(ProxyKind::Https));
    assert_eq!(proxy_kind("socks4"), Some(ProxyKind::Socks4));
    assert_eq!(proxy_kind("socks4a"), Some(ProxyKind::Socks4a));
    assert_eq!(proxy_kind("socks5"), Some(ProxyKind::Socks5));
    assert_eq!(proxy_kind("socks5h"), Some(ProxyKind::Socks5h));
    assert_eq!(proxy_kind("ftp"), None);
    assert!(ProxyKind::Socks5h.is_socks());
    assert!(!ProxyKind::Https.is_socks());
    assert!(ProxyScheme::parse(Url::parse("ftp://p.example").unwrap()).is_none());
}

#[test]
fn target_supplies_basic_auth_for_http_proxies_only() {
    let http = proxy_target("http://p.example:3128").with_basic_auth("u".into(), "p".into());
    assert_eq!(http.basic_auth(), Some(b"Basic dTpw".to_vec()));
    assert!(http.maybe_http_auth());
    let socks = proxy_target("socks5://p.example:1080").with_basic_auth("u".into(), "p".into());
    assert_eq!(socks.basic_auth(), None);
    assert!(!socks.maybe_http_auth());
    assert_eq!(proxy_target("http://p.example").basic_auth(), None);
    let copy = http.copy();
    assert_eq!(copy.uri.as_str(), "http://p.example:3128/");
    assert_eq!(copy.basic_auth(), http.basic_auth());
}

#[test]
fn no_proxy_covers_hosts_and_what_lies_beneath() {
    let list = NoProxy { domains: vec!["example.com".into(), "intra.net".into()] };
    assert!(list.contains("example.com"));
    assert!(list.contains("www.example.com"));
    assert!(list.contains("a.b.intra.net"));
    assert!(!list.contains("badexample.com"));
    assert!(!list.contains("example.org"));
    assert!(!list.contains("com"));
    assert!(!list.contains(""));
    let all = NoProxy { domains: vec!["*".into()] };
    assert!(all.contains("anything.example"));
    let none = NoProxy { domains: Vec::new() };
    assert!(!none.contains("example.com"));
    assert_eq!(list.copy().domains, list.domains);
}

#[test]
fn proxies_take_requests_by_scheme() {
    let http = Proxy::http(proxy_target("http://p.example"));
    let https = Proxy::https(proxy_target("http://p.example"));
    let all = Proxy::all(proxy_target("socks5h://p.example"));
    let plain = Url::parse("http://a.example/").unwrap();
    let secure = Url::parse("https://a.example/").unwrap();
    assert_eq!(http.intercept, Intercept::Http);
    assert!(http.is_match(&plain));
    assert!(!http.is_match(&secure));
    assert!(!https.is_match(&plain));
    assert!(https.is_match(&secure));
    assert!(all.is_match(&plain));
    assert!(all.is_match(&secure));
    assert_eq!(all.intercept(&secure).unwrap().kind, ProxyKind::Socks5h);
    assert!(http.intercept(&secure).is_none());
}

#[test]
fn no_proxy_keeps_a_proxy_out() {
    let proxy = Proxy::all(proxy_target("http://p.example"))
        .no_proxy(Some(NoProxy { domains: vec!["a.example".into()] }));
    assert!(!proxy.is_match(&Url::parse("http://a.example/").unwrap()));
    assert!(!proxy.is_match(&Url::parse("http://x.a.example/").unwrap()));
    assert!(proxy.is_match(&Url::parse("http://b.example/").unwrap()));
    let copy = proxy.copy();
    assert!(!copy.is_match(&Url::parse("http://a.example/").unwrap()));
    assert!(copy.is_match(&Url::parse("http://b.example/").unwrap()));
}

#[test]
fn http_auth_may_come_from_http_and_all_proxies() {
    let with_auth = || proxy_target("http://p.example").with_basic_auth("u".into(), "p".into());
    assert!(Proxy::http(with_auth()).maybe_has_http_auth());
    assert!(Proxy::all(with_auth()).maybe_has_http_auth());
    assert!(!Proxy::https(with_auth()).maybe_has_http_auth());
    assert!(!Proxy::http(proxy_target("http://p.example")).maybe_has_http_auth());
    let url = Url::parse("http://a.example/").unwrap();
    assert_eq!(Proxy::http(with_auth()).http_basic_auth(&url), Some(b"Basic dTpw".to_vec()));
    assert_eq!(Proxy::https(with_auth()).http_basic_auth(&url), None);
    let list = vec![Proxy::https(with_auth()), Proxy::http(with_auth())];
    assert!(proxies_maybe_http_auth(&list));
    assert!(!proxies_maybe_http_auth(&list[..1].iter().map(|p| p.copy()).collect()));
    assert_eq!(copy_proxies(&list).len(), 2);
}

#[test]
fn proxy_headers_are_copied_out() {
    let mut extra = new_headers();
    insert_header(&mut extra, "x-proxy", b"1").unwrap();
    let proxy = Proxy::http(proxy_target("http://p.example").with_custom_headers(extra));
    let headers = proxy.http_headers().unwrap();
    assert_eq!(first_value(&headers, "x-proxy"), Some(b"1".to_vec()));
    assert!(Proxy::http(proxy_target("http://p.example")).http_headers().is_none());
}

fn proxies_first_request(builder: ClientBuilder<Jar, ()>, url: &str) -> rquest::client::pending::InnerRequest {
    let client = builder.build().unwrap();
    let mut pending = client.execute(Request::new(Method::Get, Url::parse(url).unwrap()));
    match pending.begin() {
        Step::Dispatch(request) => request,
        other => panic!("{:?}", other),
    }
}

#[test]
fn first_matching_proxy_authorizes_http_requests() {
    let mut extra = new_headers();
    insert_header(&mut extra, "x-proxy", b"one").unwrap();
    let first = Proxy::http(
        proxy_target("http://p1.example")
            .with_basic_auth("u".into(), "p".into())
            .with_custom_headers(extra),
    );
    let second =
        Proxy::all(proxy_target("http://p2.example").with_basic_auth("other".into(), "x".into()));
    let builder = ClientBuilder::<Jar, ()>::new().proxy(first).proxy(second);
    let request = proxies_first_request(builder, "http://a.example/");
    assert_eq!(all_values(&request.headers, "proxy-authorization"), vec![b"Basic dTpw".to_vec()]);
    assert_eq!(first_value(&request.headers, "x-proxy"), Some(b"one".to_vec()));
}

#[test]
fn https_requests_get_no_proxy_authorization() {
    let proxy = Proxy::all(proxy_target("http://p.example").with_basic_auth("u".into(), "p".into()));
    let builder = ClientBuilder::<Jar, ()>::new().proxy(proxy);
    let request = proxies_first_request(builder, "https://a.example/");
    assert!(!contains_header(&request.headers, "proxy-authorization"));
}

#[test]
fn request_proxy_authorization_is_kept() {
    let proxy = Proxy::all(proxy_target("http://p.example").with_basic_auth("u".into(), "p".into()));
    let client = ClientBuilder::<Jar, ()>::new().proxy(proxy).build().unwrap();
    let mut req = Request::new(Method::Get, Url::parse("http://a.example/").unwrap());
    insert_header(&mut req.headers, "proxy-authorization", b"Basic mine").unwrap();
    match client.execute(req).inner {
        PendingInner::Request(p) => {
            assert_eq!(all_values(&p.headers, "proxy-authorization"), vec![b"Basic mine".to_vec()]);
        }
        PendingInner::Error(e) => panic!("{:?}", e),
    }
}

#[test]
fn route_goes_through_the_last_matching_proxy() {
    let builder = ClientBuilder::<Jar, ()>::new()
        .proxy(Proxy::all(proxy_target("http://p1.example")))
        .proxy(Proxy::http(proxy_target("socks5://p2.example")))
        .proxy(Proxy::https(proxy_target("http://p3.example")));
    let request = proxies_first_request(builder, "http://a.example/");
    match request.network_scheme {
        NetworkScheme::Scheme { proxy_scheme: Some(p), .. } => {
            assert_eq!(p.uri.as_str(), "socks5://p2.example");
        }
        other => panic!("{:?}", other),
    }
}

#[test]
fn route_of_the_request_wins() {
    let client = ClientBuilder::<Jar, ()>::new()
        .proxy(Proxy::all(proxy_target("http://p1.example")))
        .build()
        .unwrap();
    let mut req = Request::new(Method::Get, Url::parse("http://a.example/").unwrap());
    req.network_scheme = NetworkScheme::from_interface("eth1".to_string());
    let mut pending = client.execute(req);
    match pending.begin() {
        Step::Dispatch(request) => match request.network_scheme {
            NetworkScheme::Scheme { interface, proxy_scheme, .. } => {
                assert_eq!(interface.as_deref(), Some("eth1"));
                assert!(proxy_scheme.is_none());
            }
            other => panic!("{:?}", other),
        },
        other => panic!("{:?}", other),
    }
}

#[test]
fn without_proxies_the_route_is_the_default() {
    let request = proxies_first_request(ClientBuilder::<Jar, ()>::new(), "http://a.example/");
    assert!(matches!(request.network_scheme, NetworkScheme::Default));
}

#[test]
fn environment_proxy_is_used_unless_proxies_are_set_or_switched_off() {
    let env = || {
        vec![
            Proxy::http(proxy_target("http://env.example")),
            Proxy::https(proxy_target("http://env-secure.example")),
        ]
    };
    let client = ClientBuilder::<Jar, ()>::new().system_proxies(env()).build().unwrap();
    assert_eq!(client.inner.proxies.len(), 2);
    assert_eq!(client.inner.proxies[0].target.uri.as_str(), "http://env.example/");
    assert_eq!(client.inner.proxies[1].target.uri.as_str(), "http://env-secure.example/");
    let explicit = ClientBuilder::<Jar, ()>::new()
        .system_proxies(env())
        .proxy(Proxy::all(proxy_target("http://mine.example")))
        .build()
        .unwrap();
    assert_eq!(explicit.inner.proxies.len(), 1);
    assert_eq!(explicit.inner.proxies[0].target.uri.as_str(), "http://mine.example/");
    let off = ClientBuilder::<Jar, ()>::new().system_proxies(env()).no_proxy().build().unwrap();
    assert!(off.inner.proxies.is_empty());
}

#[test]
fn list_of_hosts_to_leave_alone_is_read_entry_by_entry() {
    let read = |text: &str| NoProxy::from_string(text).domains;
    assert_eq!(read("a.example,b.example"), vec!["a.example", "b.example"]);
    assert_eq!(read(" a.example , .b.example ,, ..c.example\t"), vec!["a.example", "b.example", "c.example"]);
    assert_eq!(read("*"), vec!["*"]);
    assert_eq!(read("localhost"), vec!["localhost"]);
    assert!(read("").is_empty());
    assert!(read(" , ,. ,").is_empty());
    assert_eq!(read("a b,c."), vec!["a b", "c."]);
    assert_eq!(read("caf\u{e9}.example"), vec!["caf\u{e9}.example"]);
    let hosts = NoProxy::from_string("internal.example, .corp.example");
    assert!(hosts.contains("internal.example"));
    assert!(hosts.contains("x.corp.example"));
    assert!(!hosts.contains("other.example"));
}

#[test]
fn proxy_variable_names_a_proxy() {
    let plain = ProxyScheme::from_env_value("proxy.example:8080").unwrap();
    assert_eq!(plain.kind, ProxyKind::Http);
    assert_eq!(plain.uri.as_str(), "http://proxy.example:8080/");
    assert!(plain.auth.is_none() && plain.custom_headers.is_none());

    let socks = ProxyScheme::from_env_value("socks5://user:pw@p.example:1080").unwrap();
    assert_eq!(socks.kind, ProxyKind::Socks5);
    let auth = socks.auth.unwrap();
    assert_eq!((auth.username.as_str(), auth.password.as_str()), ("user", "pw"));

    let only_user = ProxyScheme::from_env_value("https://user@p.example").unwrap();
    assert_eq!(only_user.kind, ProxyKind::Https);
    let auth = only_user.auth.unwrap();
    assert_eq!((auth.username.as_str(), auth.password.as_str()), ("user", ""));

    assert!(ProxyScheme::from_env_value("ftp://p.example").is_none());
    assert!(ProxyScheme::from_env_value("").is_none());
    assert!(ProxyScheme::from_env_value("://").is_none());
}

#[test]
fn scheme_mark_is_found_wherever_it_stands() {
    assert!(has_scheme_mark(b"http://a"));
    assert!(has_scheme_mark(b"://"));
    assert!(has_scheme_mark(b"a://"));
    assert!(!has_scheme_mark(b""));
    assert!(!has_scheme_mark(b":/"));
    assert!(!has_scheme_mark(b"a:/b/"));
    assert!(!has_scheme_mark(b"host:8080"));
}
