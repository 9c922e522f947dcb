use rquest::http2::Builder;
use rquest::http2::Connection;
use rquest::http2::DispatchState;
use rquest::http2::Dispatched;
use rquest::http2::Http2Config;
use rquest::http2::SendError;
use rquest::http2::SendRequest;
use rquest::http2::Time;
use rquest::http2::Timer;
use rquest::net::split_local_address;
use rquest::net::IpAddr;
use rquest::net::Ipv4Addr;
use rquest::net::Ipv6Addr;
use rquest::proxy::ProxyScheme;
use rquest::redirect::ActionKind;
use rquest::redirect::Attempt;
use rquest::redirect::Policy;
use rquest::retry::is_retryable_error;
use rquest::retry::CauseLink;
use rquest::retry::H2Error;
use rquest::retry::Http2RetryPolicy;
use rquest::retry::RetryRequest;
use rquest::retry::TransportError;
use rquest::body::Body;
use rquest::error::Cause;
use rquest::header::contains_header;
use rquest::header::insert_header;
use rquest::header::new_headers;
use rquest::method::Method;
use rquest::scheme::NetworkScheme;
use rquest::scheme::NetworkSchemeBuilder;
use rquest::status::StatusCode;
use rquest::timeout::pick_timeout;
use rquest::timeout::ResponseBodyTimeout;
use rquest::timeout::TotalTimeout;
use rquest::url::Url;
use std::sync::Arc;
use std::time::Duration;

struct LayersTimer;

impl Timer for LayersTimer {}

fn layers_h2(is_go_away: bool, is_reset: bool, is_remote: bool, reason: Option<u32>) -> TransportError {
    TransportError {
        chain: vec![CauseLink::Other, CauseLink::H2(H2Error { is_go_away, is_reset, is_remote, reason })],
    }
}

#[test]
fn safe_failures() {
    assert!(is_retryable_error(&layers_h2(true, false, true, Some(0))));
    assert!(is_retryable_error(&layers_h2(false, true, true, Some(7))));
    assert!(!is_retryable_error(&layers_h2(true, false, true, Some(7))));
    assert!(!is_retryable_error(&layers_h2(false, true, true, Some(0))));
    assert!(!is_retryable_error(&layers_h2(true, false, false, Some(0))));
    assert!(!is_retryable_error(&layers_h2(false, true, false, Some(7))));
    assert!(!is_retryable_error(&layers_h2(true, true, true, None)));
    assert!(!is_retryable_error(&layers_h2(false, true, true, Some(8))));
    assert!(!is_retryable_error(&TransportError { chain: Vec::new() }));
    let immediate = TransportError {
        chain: vec![CauseLink::H2(H2Error {
            is_go_away: true,
            is_reset: false,
            is_remote: true,
            reason: Some(0),
        })],
    };
    assert!(!is_retryable_error(&immediate));
    assert!(!is_retryable_error(&TransportError { chain: vec![CauseLink::Other, CauseLink::Other] }));
    assert!(H2Error { is_go_away: true, is_reset: false, is_remote: true, reason: Some(0) }.is_retryable());
}

#[test]
fn retry_policy_counts_down() {
    let mut policy = Http2RetryPolicy::new(2);
    let safe = layers_h2(true, false, true, Some(0));
    let unsafe_failure = layers_h2(true, false, false, Some(0));
    assert_eq!(policy.attempts_left(), 2);
    assert!(policy.is_retryable_error(&safe));
    assert!(!policy.retry(None));
    assert!(!policy.retry(Some(&unsafe_failure)));
    assert_eq!(policy.attempts_left(), 2);
    assert!(policy.retry(Some(&safe)));
    assert!(policy.retry(Some(&safe)));
    assert_eq!(policy.attempts_left(), 0);
    assert!(!policy.retry(Some(&safe)));
    assert_eq!(policy, Http2RetryPolicy(0));
}

#[test]
fn retry_policy_copies_requests_that_can_be_sent_again() {
    let policy = Http2RetryPolicy::new(1);
    let copy = policy.clone_request(&RetryRequest { body: Body::from_vec(b"abc".to_vec()) }).unwrap();
    assert_eq!(copy.body.as_bytes(), Some(&b"abc"[..]));
    assert!(policy.clone_request(&RetryRequest { body: Body::empty() }).is_some());
    assert!(policy.clone_request(&RetryRequest { body: Body::streaming() }).is_none());
}

#[test]
fn request_deadline_takes_the_place_of_the_clients() {
    let one = Some(Duration::from_millis(100));
    let two = Some(Duration::from_secs(2));
    assert_eq!(pick_timeout(one, two), one);
    assert_eq!(pick_timeout(None, two), two);
    assert_eq!(pick_timeout(one, None), one);
    assert_eq!(pick_timeout(None, None), None);
    let total = TotalTimeout::new("inner", two);
    assert_eq!(*total.get_ref(), "inner");
    assert_eq!(total.call(None), two);
    assert_eq!(total.call(one), one);
    let body = ResponseBodyTimeout::new((), two, None);
    let picked = body.call(None, one);
    assert_eq!(picked.total_timeout, two);
    assert_eq!(picked.read_timeout, one);
    let picked = body.call(one, None);
    assert_eq!(picked.total_timeout, one);
    assert_eq!(picked.read_timeout, None);
}

#[test]
fn status_classes() {
    assert!(StatusCode(200).is_success());
    assert!(StatusCode(299).is_success());
    assert!(!StatusCode(199).is_success());
    assert!(!StatusCode(300).is_success());
    assert_eq!(StatusCode(404).as_u16(), 404);
    for code in [301u16, 302, 303] {
        assert!(StatusCode(code).rewrites_to_get());
        assert!(!StatusCode(code).preserves_method());
    }
    for code in [307u16, 308] {
        assert!(!StatusCode(code).rewrites_to_get());
        assert!(StatusCode(code).preserves_method());
    }
    for code in [300u16, 304, 305, 306, 200] {
        assert!(!StatusCode(code).rewrites_to_get());
        assert!(!StatusCode(code).preserves_method());
    }
    assert!(Method::Get.is_get_or_head() && Method::Head.is_get_or_head());
    assert!(!Method::Post.is_get_or_head());
}

#[test]
fn policies_judge_by_the_number_of_urls() {
    let url = Url::parse("http://a.example/").unwrap();
    let urls = |n: usize| (0..n).map(|_| url.copy()).collect::<Vec<Url>>();
    let check = |policy: Policy, n: usize| {
        policy.check(StatusCode(302), Method::Get, &url, Method::Get, &urls(n))
    };
    assert_eq!(check(Policy::none(), 0), Some(ActionKind::Stop));
    assert_eq!(check(Policy::none(), 5), Some(ActionKind::Stop));
    assert_eq!(check(Policy::limited(2), 1), Some(ActionKind::Follow));
    assert_eq!(check(Policy::limited(2), 2), Some(ActionKind::Follow));
    assert_eq!(check(Policy::limited(2), 3), Some(ActionKind::Error(Cause::TooManyRedirects)));
    assert_eq!(check(Policy::limited(0), 1), Some(ActionKind::Error(Cause::TooManyRedirects)));
    assert_eq!(check(Policy::default(), 10), Some(ActionKind::Follow));
    assert_eq!(check(Policy::default(), 11), Some(ActionKind::Error(Cause::TooManyRedirects)));
    assert_eq!(check(Policy::custom(), 0), None);
    assert_eq!(check(Policy::custom(), 50), None);
    let attempt = Attempt {
        status: StatusCode(301),
        next_method: Method::Get,
        next: url.copy(),
        previous_method: Method::Post,
        previous: urls(1),
    };
    assert_eq!(Policy::limited(1).redirect(&attempt), Some(ActionKind::Follow));
    assert_eq!(Policy::custom().redirect(&attempt), None);
}

#[test]
fn sensitive_headers_go_on_the_way_to_another_origin() {
    let fill = || {
        let mut headers = new_headers();
        for name in ["authorization", "cookie", "proxy-authorization", "www-authenticate", "accept"] {
            insert_header(&mut headers, name, b"x").unwrap();
        }
        headers
    };
    let previous = vec![
        Url::parse("https://old.example/").unwrap(),
        Url::parse("https://a.example/").unwrap(),
    ];
    let mut same = fill();
    Policy::remove_sensitive_headers(&mut same, &Url::parse("https://a.example/x").unwrap(), &previous);
    assert_eq!(same.len(), 5);
    let mut other = fill();
    Policy::remove_sensitive_headers(&mut other, &Url::parse("https://old.example/").unwrap(), &previous);
    assert_eq!(other.len(), 1);
    assert!(contains_header(&other, "accept"));
    let mut first = fill();
    Policy::remove_sensitive_headers(&mut first, &Url::parse("https://b.example/").unwrap(), &Vec::new());
    assert_eq!(first.len(), 5);
}

#[test]
fn http2_builder() {
    let mut builder = Builder::new(7u8);
    assert_eq!(builder.executor, 7);
    assert!(builder.timer.source.is_none());
    assert_eq!(builder.h2_builder.max_concurrent_streams, None);
    let mut config = Http2Config::default();
    config.max_concurrent_streams = Some(100);
    config.enable_push = Some(false);
    let timer: Arc<dyn Timer> = Arc::new(LayersTimer);
    builder.timer(Time { source: Some(timer) }).config(config);
    assert!(builder.timer.source.is_some());
    assert_eq!(builder.h2_builder.max_concurrent_streams, Some(100));
    assert_eq!(builder.executor, 7);
    builder.timer(Time::empty());
    assert!(builder.timer.source.is_none());
    assert_eq!(builder.h2_builder.enable_push, Some(false));
    let (sender, connection) = builder.handshake(true);
    assert!(sender.is_ready());
    assert!(connection.is_extended_connect_protocol_enabled());
    let (_, plain) = builder.handshake(false);
    assert!(!plain.is_extended_connect_protocol_enabled());
}

#[test]
fn http2_sender() {
    let mut sender = SendRequest::new(DispatchState::Ready);
    assert!(sender.is_ready() && !sender.is_closed());
    assert!(sender.poll_ready().is_ok());
    assert!(sender.send_request().is_ok());
    assert!(!sender.is_ready());
    assert!(sender.ready().is_ok());
    assert_eq!(sender.send_request(), Err(SendError::Canceled));
    let refused = sender.try_send_request("req").unwrap_err();
    assert_eq!(refused.error, SendError::Canceled);
    assert_eq!(refused.message, Some("req"));
    sender.set_state(DispatchState::Ready);
    assert!(sender.try_send_request("req").is_ok());
    assert!(!sender.is_ready());
    sender.set_state(DispatchState::Closed);
    assert!(sender.is_closed());
    assert_eq!(sender.poll_ready(), Err(SendError::Closed));
    assert_eq!(sender.ready(), Err(SendError::Closed));
    assert_eq!(sender.send_request(), Err(SendError::Canceled));
}

#[test]
fn http2_connection_end() {
    let (_, connection): (SendRequest, Connection) = Builder::new(()).handshake(false);
    assert!(connection.poll(Dispatched::Shutdown));
    assert!(!connection.poll(Dispatched::Upgrade));
}

#[test]
fn local_address_goes_to_the_slot_of_its_family() {
    let (v4, v6) = split_local_address(Some(IpAddr::V4(Ipv4Addr([1, 2, 3, 4]))));
    assert_eq!(v4.map(|a| a.0), Some([1, 2, 3, 4]));
    assert!(v6.is_none());
    let (v4, v6) = split_local_address(Some(IpAddr::V6(Ipv6Addr([7; 16]))));
    assert!(v4.is_none());
    assert_eq!(v6.map(|a| a.0), Some([7; 16]));
    let (v4, v6) = split_local_address(None);
    assert!(v4.is_none() && v6.is_none());
}

#[test]
fn route_builder() {
    assert!(matches!(NetworkScheme::builder().build(), NetworkScheme::Default));
    assert!(matches!(NetworkSchemeBuilder::default().build(), NetworkScheme::Default));
    assert!(matches!(NetworkScheme::default(), NetworkScheme::Default));
    let mut builder = NetworkScheme::builder();
    builder.address(Some(IpAddr::V4(Ipv4Addr([1, 1, 1, 1])))).interface("eth0".to_string());
    match builder.copy().build() {
        NetworkScheme::Scheme { interface, addresses, proxy_scheme } => {
            assert_eq!(interface.as_deref(), Some("eth0"));
            assert!(addresses.0.is_some() && addresses.1.is_none());
            assert!(proxy_scheme.is_none());
        }
        NetworkScheme::Default => panic!("default"),
    }
    builder.addresses(None, Some(Ipv6Addr([0; 16])));
    builder.proxy_scheme(ProxyScheme::parse(Url::parse("socks5://p.example").unwrap()));
    let mut route = builder.build();
    assert!(!route.is_default());
    let copy = route.copy();
    assert!(route.take_proxy_scheme().is_some());
    assert!(route.take_proxy_scheme().is_none());
    assert_eq!(route.take_interface().as_deref(), Some("eth0"));
    assert!(route.take_interface().is_none());
    let taken = route.take_addresses();
    assert!(taken.0.is_none() && taken.1.is_some());
    let empty = route.take_addresses();
    assert!(empty.0.is_none() && empty.1.is_none());
    assert!(matches!(copy, NetworkScheme::Scheme { proxy_scheme: Some(_), .. }));
    let mut default = NetworkScheme::Default;
    assert!(default.take_proxy_scheme().is_none());
    assert!(default.take_interface().is_none());
    assert!(default.take_addresses().0.is_none());
}

#[test]
fn routes_from_parts() {
    assert!(matches!(
        NetworkScheme::from_address(None),
        NetworkScheme::Scheme { interface: None, addresses: (None, None), proxy_scheme: None }
    ));
    assert!(matches!(
        NetworkScheme::from_address(Some(IpAddr::V6(Ipv6Addr([0; 16])))),
        NetworkScheme::Scheme { addresses: (None, Some(_)), .. }
    ));
    assert!(matches!(NetworkScheme::from_addresses(None, None), NetworkScheme::Default));
    assert!(matches!(
        NetworkScheme::from_addresses(Some(Ipv4Addr([1, 1, 1, 1])), None),
        NetworkScheme::Scheme { addresses: (Some(_), None), .. }
    ));
    let proxy = ProxyScheme::parse(Url::parse("http://p.example").unwrap()).unwrap();
    assert!(matches!(
        NetworkScheme::from_proxy_scheme(proxy),
        NetworkScheme::Scheme { proxy_scheme: Some(_), .. }
    ));
    assert!(matches!(
        NetworkScheme::from_interface("eth0".into()),
        NetworkScheme::Scheme { interface: Some(_), .. }
    ));
}

#[test]
fn routes_convert_from_their_parts() {
    let from_none: NetworkScheme = NetworkScheme::from(None::<IpAddr>);
    assert!(matches!(
        from_none,
        NetworkScheme::Scheme { interface: None, addresses: (None, None), proxy_scheme: None }
    ));
    let from_v4: NetworkScheme = Some(IpAddr::V4(Ipv4Addr([10, 0, 0, 1]))).into();
    match from_v4 {
        NetworkScheme::Scheme { addresses: (Some(a), None), interface: None, proxy_scheme: None } => {
            assert_eq!(a.0, [10, 0, 0, 1]);
        }
        _ => panic!("an address was given"),
    }
    let unbound: NetworkScheme = (None::<Ipv4Addr>, None::<Ipv6Addr>).into();
    assert!(matches!(unbound, NetworkScheme::Default));
    let both: NetworkScheme = (Some(Ipv4Addr([1, 2, 3, 4])), Some(Ipv6Addr([0; 16]))).into();
    assert!(matches!(both, NetworkScheme::Scheme { addresses: (Some(_), Some(_)), .. }));
    let proxy = ProxyScheme::parse(Url::parse("socks5://p.example:1080").unwrap()).unwrap();
    let through: NetworkScheme = proxy.into();
    assert!(matches!(
        through,
        NetworkScheme::Scheme { proxy_scheme: Some(_), interface: None, addresses: (None, None) }
    ));
    let named: NetworkScheme = String::from("eth0").into();
    match named {
        NetworkScheme::Scheme { interface: Some(name), .. } => assert_eq!(name, "eth0"),
        _ => panic!("an interface was given"),
    }
}
