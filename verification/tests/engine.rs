use rquest::body::Body;
use rquest::client::builder::ClientBuilder;
use rquest::client::pending::make_referer;
use rquest::client::pending::resolve_location;
use rquest::client::pending::Event;
use rquest::client::pending::Pending;
use rquest::client::pending::PendingInner;
use rquest::client::pending::PendingRequest;
use rquest::client::pending::Step;
use rquest::client::request::Request;
use rquest::client::Client;
use rquest::cookie::Jar;
use rquest::error::Cause;
use rquest::error::Error;
use rquest::error::Kind;
use rquest::header::all_values;
use rquest::header::contains_header;
use rquest::header::first_value;
use rquest::header::insert_header;
use rquest::header::new_headers;
use rquest::method::Method;
use rquest::cookie::CookieStore;
use rquest::redirect::ActionKind;
use rquest::redirect::Policy;
use rquest::retry::CauseLink;
use rquest::retry::H2Error;
use rquest::retry::TransportError;
use rquest::status::StatusCode;
use rquest::url::Url;
use std::sync::Arc;
use std::time::Duration;

fn engine_client(policy: Policy) -> Client<Jar, ()> {
    ClientBuilder::<Jar, ()>::new().redirect(policy).build().unwrap()
}

fn engine_start(client: &Client<Jar, ()>, req: Request) -> PendingRequest<Jar, ()> {
    match client.execute(req).inner {
        PendingInner::Request(p) => *p,
        PendingInner::Error(e) => panic!("request did not begin: {:?}", e),
    }
}

fn engine_request(method: Method, url: &str) -> Request {
    Request::new(method, Url::parse(url).unwrap())
}

fn engine_redirect(status: u16, location: &str) -> Event {
    let mut headers = new_headers();
    insert_header(&mut headers, "location", location.as_bytes()).unwrap();
    Event::Response { status: StatusCode(status), headers }
}

fn engine_refused_stream() -> TransportError {
    TransportError {
        chain: vec![
            CauseLink::Other,
            CauseLink::H2(H2Error {
                is_go_away: false,
                is_reset: true,
                is_remote: true,
                reason: Some(7),
            }),
        ],
    }
}

fn engine_go_away() -> TransportError {
    TransportError {
        chain: vec![
            CauseLink::Other,
            CauseLink::H2(H2Error {
                is_go_away: true,
                is_reset: false,
                is_remote: true,
                reason: Some(0),
            }),
        ],
    }
}

#[test]
fn every_redirect_status_sends_one_request_to_the_resolved_location() {
    for status in [301u16, 302, 303, 307, 308] {
        let client = engine_client(Policy::limited(10));
        let mut req = engine_request(Method::Post, "http://a.example/dir/start");
        req.body = Some(Body::from_vec(b"12345678".to_vec()));
        let mut pending = engine_start(&client, req);
        let step = pending.poll(engine_redirect(status, "next?x=1"));
        match step {
            Step::Dispatch(request) => {
                assert_eq!(request.uri.as_str(), "http://a.example/dir/next?x=1");
            }
            other => panic!("status {status}: {:?}", other),
        }
        assert_eq!(pending.url.as_str(), "http://a.example/dir/next?x=1");
        assert_eq!(pending.urls.len(), 1);
        assert_eq!(pending.urls[0].as_str(), "http://a.example/dir/start");
        match pending.poll(Event::Response { status: StatusCode(200), headers: new_headers() }) {
            Step::Respond(parts) => assert_eq!(parts.url.as_str(), "http://a.example/dir/next?x=1"),
            other => panic!("status {status}: {:?}", other),
        }
    }
}

#[test]
fn see_other_turns_post_into_get_without_body() {
    for status in [301u16, 302, 303] {
        let client = engine_client(Policy::limited(10));
        let mut req = engine_request(Method::Post, "http://a.example/form");
        req.body = Some(Body::from_vec(b"a=1".to_vec()));
        insert_header(&mut req.headers, "content-type", b"application/x-www-form-urlencoded")
            .unwrap();
        insert_header(&mut req.headers, "content-length", b"3").unwrap();
        insert_header(&mut req.headers, "content-encoding", b"identity").unwrap();
        insert_header(&mut req.headers, "transfer-encoding", b"chunked").unwrap();
        insert_header(&mut req.headers, "x-keep", b"yes").unwrap();
        let mut pending = engine_start(&client, req);
        match pending.poll(engine_redirect(status, "/done")) {
            Step::Dispatch(request) => {
                assert_eq!(request.method, Method::Get);
                assert!(matches!(request.body, Body::Empty));
                assert!(!contains_header(&request.headers, "content-type"));
                assert!(!contains_header(&request.headers, "content-length"));
                assert!(!contains_header(&request.headers, "content-encoding"));
                assert!(!contains_header(&request.headers, "transfer-encoding"));
                assert_eq!(first_value(&request.headers, "x-keep"), Some(b"yes".to_vec()));
            }
            other => panic!("status {status}: {:?}", other),
        }
        assert_eq!(pending.method, Method::Get);
        assert_eq!(pending.body, None);
    }
}

#[test]
fn see_other_leaves_head_as_it_is() {
    let client = engine_client(Policy::limited(10));
    let mut pending = engine_start(&client, engine_request(Method::Head, "http://a.example/"));
    match pending.poll(engine_redirect(303, "/x")) {
        Step::Dispatch(request) => assert_eq!(request.method, Method::Head),
        other => panic!("{:?}", other),
    }
}

#[test]
fn temporary_redirect_keeps_method_and_body() {
    for status in [307u16, 308] {
        let client = engine_client(Policy::limited(10));
        let mut req = engine_request(Method::Put, "http://a.example/item");
        req.body = Some(Body::from_vec(b"payload".to_vec()));
        insert_header(&mut req.headers, "content-type", b"text/plain").unwrap();
        let mut pending = engine_start(&client, req);
        match pending.poll(engine_redirect(status, "/moved")) {
            Step::Dispatch(request) => {
                assert_eq!(request.method, Method::Put);
                assert_eq!(request.body.as_bytes(), Some(&b"payload"[..]));
                assert_eq!(first_value(&request.headers, "content-type"), Some(b"text/plain".to_vec()));
            }
            other => panic!("status {status}: {:?}", other),
        }
    }
}

#[test]
fn temporary_redirect_with_one_shot_body_is_handed_out() {
    for status in [307u16, 308] {
        let client = engine_client(Policy::limited(10));
        let mut req = engine_request(Method::Post, "http://a.example/upload");
        req.body = Some(Body::streaming());
        let mut pending = engine_start(&client, req);
        match pending.poll(engine_redirect(status, "/elsewhere")) {
            Step::Respond(parts) => assert_eq!(parts.url.as_str(), "http://a.example/upload"),
            other => panic!("status {status}: {:?}", other),
        }
        assert_eq!(pending.url.as_str(), "http://a.example/upload");
        assert!(pending.urls.is_empty());
        assert_eq!(pending.method, Method::Post);
    }
}

#[test]
fn other_origin_loses_credentials() {
    let client = engine_client(Policy::limited(10));
    let mut req = engine_request(Method::Get, "https://a.example/start");
    insert_header(&mut req.headers, "authorization", b"Bearer t").unwrap();
    insert_header(&mut req.headers, "cookie", b"k=v").unwrap();
    insert_header(&mut req.headers, "proxy-authorization", b"Basic x").unwrap();
    insert_header(&mut req.headers, "www-authenticate", b"Basic").unwrap();
    insert_header(&mut req.headers, "accept", b"*/*").unwrap();
    let mut pending = engine_start(&client, req);
    match pending.poll(engine_redirect(302, "https://b.example/landing")) {
        Step::Dispatch(request) => {
            assert!(!contains_header(&request.headers, "authorization"));
            assert!(!contains_header(&request.headers, "cookie"));
            assert!(!contains_header(&request.headers, "proxy-authorization"));
            assert!(!contains_header(&request.headers, "www-authenticate"));
            assert_eq!(first_value(&request.headers, "accept"), Some(b"*/*".to_vec()));
        }
        other => panic!("{:?}", other),
    }
}

#[test]
fn same_origin_keeps_credentials() {
    let client = engine_client(Policy::limited(10));
    let mut req = engine_request(Method::Get, "https://a.example/start");
    insert_header(&mut req.headers, "authorization", b"Bearer t").unwrap();
    insert_header(&mut req.headers, "cookie", b"k=v").unwrap();
    let mut pending = engine_start(&client, req);
    match pending.poll(engine_redirect(302, "/landing")) {
        Step::Dispatch(request) => {
            assert_eq!(first_value(&request.headers, "authorization"), Some(b"Bearer t".to_vec()));
            assert_eq!(all_values(&request.headers, "cookie"), vec![b"k=v".to_vec()]);
        }
        other => panic!("{:?}", other),
    }
}

#[test]
fn other_scheme_or_port_is_another_origin() {
    for target in ["http://a.example/x", "https://a.example:8443/x"] {
        let client = engine_client(Policy::limited(10));
        let mut req = engine_request(Method::Get, "https://a.example/start");
        insert_header(&mut req.headers, "authorization", b"Bearer t").unwrap();
        let mut pending = engine_start(&client, req);
        match pending.poll(engine_redirect(302, target)) {
            Step::Dispatch(request) => assert!(!contains_header(&request.headers, "authorization")),
            other => panic!("{target}: {:?}", other),
        }
    }
}

#[test]
fn redirect_loop_ends_after_ten_hops() {
    let a = "http://a.example/a";
    let b = "http://a.example/b";
    let client = engine_client(Policy::limited(10));
    let mut pending = engine_start(&client, engine_request(Method::Get, a));
    let mut hops = 0;
    let err = loop {
        let target = if pending.url.as_str() == a { b } else { a };
        match pending.poll(engine_redirect(302, target)) {
            Step::Dispatch(request) => {
                hops += 1;
                assert_eq!(request.uri.as_str(), target);
            }
            Step::Fail(err) => break err,
            other => panic!("{:?}", other),
        }
        assert!(hops <= 10);
    };
    assert_eq!(hops, 10);
    assert_eq!(err.kind(), Kind::Redirect);
    assert!(err.is_redirect());
    assert_eq!(err.cause(), Cause::TooManyRedirects);
    assert_eq!(err.url().unwrap().as_str(), a);
    assert_eq!(err.target().unwrap().as_str(), b);
    assert_eq!(pending.url.as_str(), a);
}

#[test]
fn policy_none_hands_the_redirect_out() {
    let client = engine_client(Policy::none());
    let mut pending = engine_start(&client, engine_request(Method::Get, "http://a.example/"));
    match pending.poll(engine_redirect(302, "/x")) {
        Step::Respond(parts) => assert_eq!(parts.url.as_str(), "http://a.example/"),
        other => panic!("{:?}", other),
    }
}

#[test]
fn request_policy_overrides_the_client() {
    let client = engine_client(Policy::none());
    let mut req = engine_request(Method::Get, "http://a.example/");
    req.redirect = Some(Policy::limited(1));
    let mut pending = engine_start(&client, req);
    assert!(matches!(pending.poll(engine_redirect(302, "/one")), Step::Dispatch(_)));
    match pending.poll(engine_redirect(302, "/two")) {
        Step::Fail(err) => {
            assert_eq!(err.cause(), Cause::TooManyRedirects);
            assert_eq!(err.url().unwrap().as_str(), "http://a.example/one");
            assert_eq!(err.target().unwrap().as_str(), "http://a.example/two");
        }
        other => panic!("{:?}", other),
    }
}

#[test]
fn redirect_without_usable_location_is_handed_out() {
    let client = engine_client(Policy::limited(10));
    let mut pending = engine_start(&client, engine_request(Method::Get, "http://a.example/"));
    let step = pending.poll(Event::Response { status: StatusCode(302), headers: new_headers() });
    assert!(matches!(step, Step::Respond(_)));
    let mut bad = new_headers();
    insert_header(&mut bad, "location", &[0xff, 0xfe]).unwrap();
    let step = pending.poll(Event::Response { status: StatusCode(302), headers: bad });
    assert!(matches!(step, Step::Respond(_)));
    let mut unresolvable = new_headers();
    insert_header(&mut unresolvable, "location", b"http://[oops").unwrap();
    let step = pending.poll(Event::Response { status: StatusCode(301), headers: unresolvable });
    assert!(matches!(step, Step::Respond(_)));
    assert!(pending.urls.is_empty());
}

#[test]
fn other_statuses_are_handed_out_untouched() {
    for status in [200u16, 204, 300, 304, 305, 404, 500] {
        let client = engine_client(Policy::limited(10));
        let mut req = engine_request(Method::Post, "http://a.example/");
        req.body = Some(Body::from_vec(b"x".to_vec()));
        insert_header(&mut req.headers, "content-type", b"text/plain").unwrap();
        let mut pending = engine_start(&client, req);
        assert!(matches!(pending.poll(engine_redirect(status, "/x")), Step::Respond(_)));
        assert_eq!(pending.method, Method::Post);
        assert!(pending.body.is_some());
        assert!(contains_header(&pending.headers, "content-type"));
    }
}

#[test]
fn redirect_to_another_scheme_is_refused() {
    let client = engine_client(Policy::limited(10));
    let mut pending = engine_start(&client, engine_request(Method::Get, "http://a.example/"));
    match pending.poll(engine_redirect(302, "ftp://a.example/file")) {
        Step::Fail(err) => {
            assert_eq!(err.kind(), Kind::Url);
            assert_eq!(err.cause(), Cause::BadScheme);
            assert_eq!(err.url().unwrap().as_str(), "ftp://a.example/file");
        }
        other => panic!("{:?}", other),
    }
}

#[test]
fn https_only_refuses_downgrade() {
    let client = ClientBuilder::<Jar, ()>::new()
        .redirect(Policy::limited(10))
        .https_only(true)
        .build()
        .unwrap();
    let mut pending = engine_start(&client, engine_request(Method::Get, "https://a.example/"));
    match pending.poll(engine_redirect(302, "http://a.example/plain")) {
        Step::Fail(err) => {
            assert_eq!(err.kind(), Kind::Redirect);
            assert_eq!(err.cause(), Cause::BadScheme);
            assert_eq!(err.url().unwrap().as_str(), "http://a.example/plain");
            assert_eq!(err.target().unwrap().as_str(), "http://a.example/plain");
        }
        other => panic!("{:?}", other),
    }
}

#[test]
fn https_only_refuses_http_at_start() {
    let client = ClientBuilder::<Jar, ()>::new().https_only(true).build().unwrap();
    let mut pending = client.execute(engine_request(Method::Get, "http://a.example/"));
    match pending.begin() {
        Step::Fail(err) => {
            assert_eq!(err.kind(), Kind::Url);
            assert_eq!(err.cause(), Cause::BadScheme);
            assert_eq!(err.url().unwrap().as_str(), "http://a.example/");
            assert!(err.target().is_none());
        }
        other => panic!("{:?}", other),
    }
    match pending.begin() {
        Step::Fail(err) => assert_eq!(err.cause(), Cause::AlreadyFinished),
        other => panic!("{:?}", other),
    }
}

#[test]
fn unsupported_scheme_is_refused_at_start() {
    let client = engine_client(Policy::none());
    let mut pending = client.execute(engine_request(Method::Get, "ftp://a.example/"));
    match pending.poll(Event::TotalTimeout) {
        Step::Fail(err) => assert_eq!(err.cause(), Cause::BadScheme),
        other => panic!("{:?}", other),
    }
}

#[test]
fn referer_is_set_on_redirect() {
    let client = engine_client(Policy::limited(10));
    let mut pending =
        engine_start(&client, engine_request(Method::Get, "https://user:pw@a.example/p?q#f"));
    match pending.poll(engine_redirect(302, "/next")) {
        Step::Dispatch(request) => {
            assert_eq!(first_value(&request.headers, "referer"), Some(b"https://a.example/p?q".to_vec()));
        }
        other => panic!("{:?}", other),
    }
}

#[test]
fn referer_is_omitted_on_downgrade_and_when_switched_off() {
    let client = engine_client(Policy::limited(10));
    let mut pending = engine_start(&client, engine_request(Method::Get, "https://a.example/p"));
    match pending.poll(engine_redirect(302, "http://a.example/plain")) {
        Step::Dispatch(request) => assert!(!contains_header(&request.headers, "referer")),
        other => panic!("{:?}", other),
    }
    let quiet = ClientBuilder::<Jar, ()>::new()
        .redirect(Policy::limited(10))
        .referer(false)
        .build()
        .unwrap();
    let mut pending = engine_start(&quiet, engine_request(Method::Get, "https://a.example/p"));
    match pending.poll(engine_redirect(302, "/next")) {
        Step::Dispatch(request) => assert!(!contains_header(&request.headers, "referer")),
        other => panic!("{:?}", other),
    }
}

#[test]
fn referer_values() {
    let https = Url::parse("https://u:p@a.example/x#f").unwrap();
    let http = Url::parse("http://a.example/y").unwrap();
    assert_eq!(make_referer(&http, &https), None);
    assert_eq!(make_referer(&https, &http), Some(b"http://a.example/y".to_vec()));
    assert_eq!(make_referer(&https, &https), Some(b"https://a.example/x".to_vec()));
}

#[test]
fn location_is_resolved_against_the_base() {
    let base = Url::parse("http://a.example/dir/").unwrap();
    let mut headers = new_headers();
    assert!(resolve_location(&base, &headers).is_none());
    insert_header(&mut headers, "location", b"../up").unwrap();
    assert_eq!(resolve_location(&base, &headers).unwrap().as_str(), "http://a.example/up");
}

#[test]
fn custom_verdicts_are_acted_on() {
    let client = engine_client(Policy::none());
    let mut pending = engine_start(&client, engine_request(Method::Get, "http://a.example/"));
    let loc = Url::parse("http://a.example/x").unwrap();
    match pending.judge(loc.copy(), ActionKind::Error(Cause::PolicyRejected)) {
        Step::Fail(err) => {
            assert_eq!(err.kind(), Kind::Redirect);
            assert_eq!(err.cause(), Cause::PolicyRejected);
            assert_eq!(err.url().unwrap().as_str(), "http://a.example/");
        }
        other => panic!("{:?}", other),
    }
    assert!(matches!(pending.judge(loc.copy(), ActionKind::Stop), Step::Respond(_)));
    match pending.judge(loc, ActionKind::Follow) {
        Step::Dispatch(request) => assert_eq!(request.uri.as_str(), "http://a.example/x"),
        other => panic!("{:?}", other),
    }
}

#[test]
fn refused_stream_is_retried_once_and_then_succeeds() {
    let client = engine_client(Policy::none());
    let mut req = engine_request(Method::Post, "https://a.example/echo");
    req.body = Some(Body::from_vec(b"12345678".to_vec()));
    let mut pending = client.execute(req);
    match pending.begin() {
        Step::Dispatch(request) => assert_eq!(request.body.as_bytes(), Some(&b"12345678"[..])),
        other => panic!("{:?}", other),
    }
    match pending.poll(Event::Failed(engine_refused_stream())) {
        Step::Dispatch(request) => {
            assert_eq!(request.method, Method::Post);
            assert_eq!(request.uri.as_str(), "https://a.example/echo");
            assert_eq!(request.body.as_bytes(), Some(&b"12345678"[..]));
        }
        other => panic!("{:?}", other),
    }
    match pending.poll(Event::Response { status: StatusCode(200), headers: new_headers() }) {
        Step::Respond(parts) => assert_eq!(parts.url.as_str(), "https://a.example/echo"),
        other => panic!("{:?}", other),
    }
    match pending.inner {
        PendingInner::Request(p) => assert_eq!(p.http2_retry_count, 1),
        PendingInner::Error(_) => panic!("request ended"),
    }
}

#[test]
fn go_away_is_retried_at_most_as_often_as_allowed() {
    for max in [0usize, 1, 2, 5] {
        let client = ClientBuilder::<Jar, ()>::new().http2_max_retry_count(max).build().unwrap();
        let mut pending = engine_start(&client, engine_request(Method::Get, "https://a.example/"));
        let mut retries = 0;
        let err = loop {
            match pending.poll(Event::Failed(engine_go_away())) {
                Step::Dispatch(_) => retries += 1,
                Step::Fail(err) => break err,
                other => panic!("{:?}", other),
            }
            assert!(retries <= max);
        };
        assert_eq!(retries, max);
        assert_eq!(err.kind(), Kind::Request);
        assert_eq!(err.cause(), Cause::Transport);
        assert_eq!(err.url().unwrap().as_str(), "https://a.example/");
        assert_eq!(pending.http2_retry_count, max);
    }
}

#[test]
fn failure_with_one_shot_body_is_not_retried() {
    let client = engine_client(Policy::none());
    let mut req = engine_request(Method::Post, "https://a.example/");
    req.body = Some(Body::streaming());
    let mut pending = client.execute(req);
    match pending.begin() {
        Step::Dispatch(request) => assert!(matches!(request.body, Body::Streaming)),
        other => panic!("{:?}", other),
    }
    assert!(matches!(pending.poll(Event::Failed(engine_go_away())), Step::Fail(_)));
}

#[test]
fn other_failures_are_not_retried() {
    let client = engine_client(Policy::none());
    let mut pending = engine_start(&client, engine_request(Method::Get, "https://a.example/"));
    let plain = TransportError { chain: vec![CauseLink::Other, CauseLink::Other] };
    assert!(matches!(pending.poll(Event::Failed(plain)), Step::Fail(_)));
    let local = TransportError {
        chain: vec![
            CauseLink::Other,
            CauseLink::H2(H2Error {
                is_go_away: true,
                is_reset: false,
                is_remote: false,
                reason: Some(0),
            }),
        ],
    };
    assert!(pending.retry_error(&local).is_none());
    assert_eq!(pending.http2_retry_count, 0);
}

#[test]
fn timeouts_end_the_request_with_its_url() {
    let client = engine_client(Policy::none());
    let mut req = engine_request(Method::Get, "http://slow.example/wait");
    req.extensions.total_timeout = Some(Duration::from_millis(100));
    let mut pending = engine_start(&client, req);
    assert_eq!(pending.total_timeout, Some(Duration::from_millis(100)));
    for event in [Event::TotalTimeout, Event::ReadTimeout] {
        match pending.poll(event) {
            Step::Fail(err) => {
                assert_eq!(err.kind(), Kind::TimedOut);
                assert!(err.is_timeout());
                assert_eq!(err.url().unwrap().as_str(), "http://slow.example/wait");
            }
            other => panic!("{:?}", other),
        }
    }
}

#[test]
fn pending_that_never_began_hands_its_error_out_once() {
    let mut pending: Pending<Jar, ()> = Pending::new_err(Error::builder(Cause::InvalidUrl));
    match pending.poll(Event::TotalTimeout) {
        Step::Fail(err) => assert_eq!(err.cause(), Cause::InvalidUrl),
        other => panic!("{:?}", other),
    }
    match pending.poll(Event::TotalTimeout) {
        Step::Fail(err) => {
            assert_eq!(err.kind(), Kind::Request);
            assert_eq!(err.cause(), Cause::AlreadyFinished);
        }
        other => panic!("{:?}", other),
    }
}

#[test]
fn response_parts_carry_the_deadlines_and_decoders() {
    let client = ClientBuilder::<Jar, ()>::new()
        .timeout(Duration::from_secs(5))
        .read_timeout(Duration::from_secs(2))
        .no_gzip()
        .build()
        .unwrap();
    let mut req = engine_request(Method::Get, "http://a.example/");
    req.extensions.read_timeout = Some(Duration::from_secs(1));
    let mut pending = engine_start(&client, req);
    match pending.poll(Event::Response { status: StatusCode(200), headers: new_headers() }) {
        Step::Respond(parts) => {
            assert_eq!(parts.total_timeout, Some(Duration::from_secs(5)));
            assert_eq!(parts.read_timeout, Some(Duration::from_secs(1)));
            assert!(!parts.accepts.gzip);
            assert!(parts.accepts.brotli);
        }
        other => panic!("{:?}", other),
    }
}

#[test]
fn default_policy_follows_up_to_ten_hops() {
    let client = ClientBuilder::<Jar, ()>::new().build().unwrap();
    assert_eq!(client.inner.redirect, Policy::Limit(10));
    let mut pending = engine_start(&client, engine_request(Method::Get, "http://a.example/0"));
    for hop in 1..=10 {
        let target = format!("http://a.example/{}", hop);
        match pending.poll(engine_redirect(302, &target)) {
            Step::Dispatch(request) => assert_eq!(request.uri.as_str(), target),
            other => panic!("{:?}", other),
        }
    }
    match pending.poll(engine_redirect(302, "http://a.example/11")) {
        Step::Fail(err) => {
            assert_eq!(err.kind(), Kind::Redirect);
            assert_eq!(err.cause(), Cause::TooManyRedirects);
            assert_eq!(err.url().unwrap().as_str(), "http://a.example/10");
        }
        other => panic!("{:?}", other),
    }
}

#[test]
fn policy_of_the_caller_is_handed_each_hop() {
    let client = engine_client(Policy::custom());
    let mut pending = engine_start(&client, engine_request(Method::Post, "http://a.example/a"));
    let attempt = match pending.poll(engine_redirect(303, "/b")) {
        Step::Judge(attempt) => attempt,
        other => panic!("{:?}", other),
    };
    assert_eq!(attempt.status, StatusCode(303));
    assert_eq!(attempt.next.as_str(), "http://a.example/b");
    assert_eq!(attempt.next_method, Method::Get);
    assert_eq!(attempt.previous_method, Method::Post);
    assert_eq!(attempt.previous.len(), 1);
    assert_eq!(attempt.previous[0].as_str(), "http://a.example/a");
    assert_eq!(pending.url.as_str(), "http://a.example/a");
    match pending.judge(attempt.next, ActionKind::Follow) {
        Step::Dispatch(request) => {
            assert_eq!(request.uri.as_str(), "http://a.example/b");
            assert_eq!(request.method, Method::Get);
        }
        other => panic!("{:?}", other),
    }
    let attempt = match pending.poll(engine_redirect(302, "/c")) {
        Step::Judge(attempt) => attempt,
        other => panic!("{:?}", other),
    };
    assert_eq!(attempt.previous.len(), 2);
    match pending.judge(attempt.next, ActionKind::Error(Cause::PolicyRejected)) {
        Step::Fail(err) => {
            assert_eq!(err.cause(), Cause::PolicyRejected);
            assert_eq!(err.url().unwrap().as_str(), "http://a.example/b");
            assert_eq!(err.target().unwrap().as_str(), "http://a.example/c");
        }
        other => panic!("{:?}", other),
    }
}

#[test]
fn pending_wrapper_acts_on_a_verdict() {
    let client = engine_client(Policy::custom());
    let mut pending = client.execute(engine_request(Method::Get, "http://a.example/a"));
    assert!(pending.is_wf());
    assert!(matches!(pending.begin(), Step::Dispatch(_)));
    let attempt = match pending.poll(engine_redirect(302, "/b")) {
        Step::Judge(attempt) => attempt,
        other => panic!("{:?}", other),
    };
    assert!(matches!(pending.judge(attempt.next, ActionKind::Stop), Step::Respond(_)));
    let mut failed = Pending::<Jar, ()>::new_err(Error::builder(Cause::InvalidUrl));
    let loc = Url::parse("http://a.example/").unwrap();
    match failed.judge(loc.copy(), ActionKind::Follow) {
        Step::Fail(err) => assert_eq!(err.cause(), Cause::InvalidUrl),
        other => panic!("{:?}", other),
    }
    match failed.judge(loc, ActionKind::Follow) {
        Step::Fail(err) => assert_eq!(err.cause(), Cause::AlreadyFinished),
        other => panic!("{:?}", other),
    }
}

struct EngineAnswer(Option<Vec<Vec<u8>>>);

impl CookieStore for EngineAnswer {
    fn set_cookies(&self, _cookie_headers: &Vec<Vec<u8>>, _url: &Url) {}

    fn cookies(&self, _url: &Url) -> Option<Vec<Vec<u8>>> {
        self.0.clone()
    }
}

fn engine_with_store(answer: Option<Vec<Vec<u8>>>) -> Client<EngineAnswer, ()> {
    ClientBuilder::<Jar, ()>::new()
        .redirect(Policy::limited(5))
        .cookie_provider(Arc::new(EngineAnswer(answer)))
        .build()
        .unwrap()
}

#[test]
fn next_request_carries_exactly_the_answer_of_the_store() {
    let client = engine_with_store(Some(vec![b"old=1".to_vec()]));
    let request = engine_request(Method::Get, "http://a.example/a");
    assert!(PendingRequest::asks_store_to_begin(&client.inner, &request));
    let mut pending = match client.execute(request).inner {
        PendingInner::Request(p) => *p,
        PendingInner::Error(e) => panic!("{:?}", e),
    };
    assert_eq!(all_values(&pending.headers, "cookie"), vec![b"old=1".to_vec()]);
    assert!(pending.store_cookies);
    let loc = Url::parse("http://a.example/b").unwrap();
    assert!(pending.asks_store_on_hop(&loc));
    let answer = Some(vec![b"new=2".to_vec(), b"more=3".to_vec()]);
    match pending.follow_with(loc, answer) {
        Step::Dispatch(request) => {
            assert_eq!(
                all_values(&request.headers, "cookie"),
                vec![b"new=2".to_vec(), b"more=3".to_vec()]
            );
        }
        other => panic!("{:?}", other),
    }
    assert!(pending.store_cookies);
    let loc = Url::parse("http://a.example/c").unwrap();
    match pending.follow_with(loc, None) {
        Step::Dispatch(request) => assert!(!contains_header(&request.headers, "cookie")),
        other => panic!("{:?}", other),
    }
    assert!(!pending.store_cookies);
}

#[test]
fn answer_of_the_store_counts_only_where_it_is_asked() {
    let client = engine_with_store(None);
    let mut request = engine_request(Method::Get, "http://a.example/a");
    insert_header(&mut request.headers, "cookie", b"own=1").unwrap();
    assert!(!PendingRequest::asks_store_to_begin(&client.inner, &request));
    let answer = Some(vec![b"store=2".to_vec()]);
    let mut pending = PendingRequest::new_with(client.inner.clone(), request, answer).unwrap();
    assert_eq!(all_values(&pending.headers, "cookie"), vec![b"own=1".to_vec()]);
    assert!(!pending.store_cookies);
    let loc = Url::parse("http://a.example/b").unwrap();
    assert!(!pending.asks_store_on_hop(&loc));
    match pending.follow_with(loc, Some(vec![b"store=2".to_vec()])) {
        Step::Dispatch(request) => {
            assert_eq!(all_values(&request.headers, "cookie"), vec![b"own=1".to_vec()]);
        }
        other => panic!("{:?}", other),
    }
    let bare = engine_request(Method::Get, "http://a.example/a");
    let answer = Some(vec![b"store=2".to_vec()]);
    let pending = PendingRequest::new_with(client.inner.clone(), bare, answer).unwrap();
    assert_eq!(all_values(&pending.headers, "cookie"), vec![b"store=2".to_vec()]);
    assert!(pending.store_cookies);
}

#[test]
fn refused_hop_leaves_the_record_as_it_is() {
    let client = engine_client(Policy::limited(5));
    let mut pending = engine_start(&client, engine_request(Method::Get, "http://a.example/a"));
    let loc = Url::parse("ftp://a.example/b").unwrap();
    assert!(!pending.asks_store_on_hop(&loc));
    match pending.follow(loc) {
        Step::Fail(err) => {
            assert_eq!(err.kind(), Kind::Url);
            assert_eq!(err.cause(), Cause::BadScheme);
        }
        other => panic!("{:?}", other),
    }
    assert_eq!(pending.url.as_str(), "http://a.example/a");
}

#[test]
fn record_in_order_is_polled_and_one_out_of_order_is_left() {
    let client = engine_client(Policy::limited(5));
    let mut pending = client.execute(engine_request(Method::Get, "http://a.example/a"));
    assert!(matches!(pending.begin(), Step::Dispatch(_)));
    match pending.try_poll(engine_redirect(302, "/b")) {
        Some(Step::Dispatch(request)) => assert_eq!(request.uri.as_str(), "http://a.example/b"),
        other => panic!("{:?}", other),
    }
    match &mut pending.inner {
        PendingInner::Request(p) => p.http2_retry_count = p.http2_max_retry_count + 1,
        PendingInner::Error(e) => panic!("{:?}", e),
    }
    assert!(!pending.is_wf());
    assert!(pending.try_poll(engine_redirect(302, "/c")).is_none());
    match &pending.inner {
        PendingInner::Request(p) => assert_eq!(p.url.as_str(), "http://a.example/b"),
        PendingInner::Error(e) => panic!("{:?}", e),
    }
}

#[test]
fn small_requests_always_begin_and_follow() {
    let client = ClientBuilder::<Jar, ()>::new()
        .user_agent(b"agent/1")
        .build()
        .unwrap();
    let mut request = engine_request(Method::Get, "http://a.example/a");
    for i in 0..50 {
        insert_header(&mut request.headers, &format!("x-{}", i), b"v").unwrap();
    }
    let mut pending = engine_start(&client, request);
    assert_eq!(first_value(&pending.headers, "accept-encoding"), Some(b"gzip, br, zstd, deflate".to_vec()));
    assert_eq!(first_value(&pending.headers, "user-agent"), Some(b"agent/1".to_vec()));
    match pending.poll(engine_redirect(302, "/b")) {
        Step::Dispatch(next) => {
            assert_eq!(first_value(&next.headers, "referer"), Some(b"http://a.example/a".to_vec()));
        }
        other => panic!("{:?}", other),
    }
}
