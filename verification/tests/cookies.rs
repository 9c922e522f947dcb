use rquest::client::builder::ClientBuilder;
use rquest::client::pending::Event;
use rquest::client::pending::PendingInner;
use rquest::client::pending::Step;
use rquest::client::request::Request;
use rquest::client::service::ClientService;
use rquest::cookie::add_cookie_header;
use rquest::cookie::add_cookie_values;
use rquest::cookie::cookie_header;
use rquest::cookie::cookie_values;
use rquest::cookie::cookies_to_offer;
use rquest::cookie::extract_response_cookie_headers;
use rquest::cookie::extract_response_cookies;
use rquest::cookie::Cookie;
use rquest::cookie::CookieStore;
use rquest::cookie::Jar;
use rquest::header::all_values;
use rquest::header::append_header;
use rquest::header::contains_header;
use rquest::header::insert_header;
use rquest::header::new_headers;
use rquest::method::Method;
use rquest::redirect::Policy;
use rquest::status::StatusCode;
use rquest::url::Url;
use std::sync::Arc;
use std::sync::Mutex;
use std::time::Duration;

#[test]
fn cookie_is_read_from_a_header_value() {
    let cookie = Cookie::parse(
        b"sid=abc; Path=/app; Domain=example.com; Secure; HttpOnly; SameSite=Lax; Max-Age=60",
    )
    .unwrap();
    assert_eq!(cookie.name(), "sid");
    assert_eq!(cookie.value(), "abc");
    assert_eq!(cookie.path(), Some("/app"));
    assert_eq!(cookie.domain(), Some("example.com"));
    assert!(cookie.secure());
    assert!(cookie.http_only());
    assert!(cookie.same_site_lax());
    assert!(!cookie.same_site_strict());
    assert_eq!(cookie.max_age(), Some(Duration::from_secs(60)));
    assert_eq!(cookie.expires(), None);
    let owned = cookie.into_owned();
    assert_eq!(owned.name(), "sid");
}

#[test]
fn plain_cookie_has_no_attributes() {
    let cookie = Cookie::parse(b"k=v").unwrap();
    assert_eq!(cookie.name(), "k");
    assert_eq!(cookie.value(), "v");
    assert_eq!(cookie.path(), None);
    assert_eq!(cookie.domain(), None);
    assert!(!cookie.secure());
    assert!(!cookie.http_only());
    assert!(!cookie.same_site_lax());
    assert!(!cookie.same_site_strict());
    assert_eq!(cookie.max_age(), None);
    assert_eq!(cookie.to_string(), "k=v");
}

#[test]
fn cookie_expiry_and_strictness() {
    let cookie =
        Cookie::parse(b"a=b; Expires=Wed, 21 Oct 2015 07:28:00 GMT; SameSite=Strict").unwrap();
    assert_eq!(cookie.expires(), Some(1445412480));
    assert!(cookie.same_site_strict());
    assert!(!cookie.same_site_lax());
}

#[test]
fn what_is_no_cookie_is_refused() {
    assert!(Cookie::parse(b"").is_none());
    assert!(Cookie::parse(b"novalue").is_none());
    assert!(Cookie::parse(&[0xff, b'=', b'1']).is_none());
}

#[test]
fn set_cookie_headers_are_extracted() {
    let mut headers = new_headers();
    assert!(extract_response_cookie_headers(&headers).is_empty());
    append_header(&mut headers, "set-cookie", b"a=1").unwrap();
    append_header(&mut headers, "set-cookie", b"broken").unwrap();
    append_header(&mut headers, "set-cookie", b"b=2; Path=/").unwrap();
    assert_eq!(
        extract_response_cookie_headers(&headers),
        vec![b"a=1".to_vec(), b"broken".to_vec(), b"b=2; Path=/".to_vec()]
    );
    let cookies = extract_response_cookies(&headers);
    assert_eq!(cookies.len(), 3);
    assert_eq!(cookies[0].as_ref().unwrap().name(), "a");
    assert!(cookies[1].is_none());
    assert_eq!(cookies[2].as_ref().unwrap().path(), Some("/"));
}

#[test]
fn cookie_header_joins_pairs() {
    assert_eq!(cookie_header(&Vec::new()), None);
    assert_eq!(cookie_header(&vec![(b"a".to_vec(), b"1".to_vec())]), Some(b"a=1".to_vec()));
    assert_eq!(
        cookie_header(&vec![
            (b"a".to_vec(), b"1".to_vec()),
            (b"b".to_vec(), b"2".to_vec()),
            (b"c".to_vec(), b"".to_vec()),
        ]),
        Some(b"a=1; b=2; c=".to_vec())
    );
    assert_eq!(cookie_header(&vec![(b"a".to_vec(), b"x\ny".to_vec())]), None);
}

#[test]
fn jar_returns_what_was_added_for_the_url() {
    let url = Url::parse("https://yolo.local/some/path").unwrap();
    let jar = Jar::default();
    assert_eq!(jar.cookies(&url), None);
    jar.add_cookie_str("foo=bar; Domain=yolo.local", &url);
    assert_eq!(jar.cookies(&url), Some(vec![b"foo=bar".to_vec()]));
    let beneath = Url::parse("https://www.yolo.local/some/other").unwrap();
    assert_eq!(jar.cookies(&beneath), Some(vec![b"foo=bar".to_vec()]));
    let elsewhere = Url::parse("https://other.local/some/path").unwrap();
    assert_eq!(jar.cookies(&Url::parse("https://yolo.local/").unwrap()), None);
    assert_eq!(jar.cookies(&elsewhere), None);
}

#[test]
fn jar_honours_path_and_secure() {
    let url = Url::parse("https://a.example/app/page").unwrap();
    let jar = Jar::default();
    jar.add_cookie_str("p=1; Path=/app", &url);
    jar.add_cookie_str("s=2; Secure", &url);
    assert!(jar.cookies(&Url::parse("https://a.example/other").unwrap()).is_none());
    let plain = jar.cookies(&Url::parse("http://a.example/app/x").unwrap()).unwrap();
    assert_eq!(plain, vec![b"p=1".to_vec()]);
    let both = jar.cookies(&Url::parse("https://a.example/app/x").unwrap()).unwrap();
    assert_eq!(both.len(), 1);
    let text = String::from_utf8(both[0].clone()).unwrap();
    let mut pairs: Vec<&str> = text.split("; ").collect();
    pairs.sort();
    assert_eq!(pairs, vec!["p=1", "s=2"]);
}

#[test]
fn jar_ignores_what_is_no_cookie_and_foreign_domains() {
    let url = Url::parse("https://a.example/").unwrap();
    let jar = Jar::default();
    jar.add_cookie_str("nonsense", &url);
    jar.add_cookie_str("x=1; Domain=b.example", &url);
    assert_eq!(jar.cookies(&url), None);
}

#[test]
fn jar_stores_removes_and_clears() {
    let url = Url::parse("https://a.example/").unwrap();
    let jar = Jar::default();
    jar.set_cookies(&vec![b"a=1".to_vec(), b"broken".to_vec(), b"b=2".to_vec()], &url);
    let text = String::from_utf8(jar.cookies(&url).unwrap().remove(0)).unwrap();
    let mut pairs: Vec<&str> = text.split("; ").collect();
    pairs.sort();
    assert_eq!(pairs, vec!["a=1", "b=2"]);
    jar.remove(&url, "a");
    assert_eq!(jar.cookies(&url), Some(vec![b"b=2".to_vec()]));
    jar.set_cookie(&url, b"c=3");
    assert!(jar.cookies(&url).unwrap()[0].len() == "b=2; c=3".len());
    jar.clear();
    assert_eq!(jar.cookies(&url), None);
}

#[test]
fn jar_overwrites_a_cookie_of_the_same_name() {
    let url = Url::parse("https://a.example/").unwrap();
    let jar = Jar::default();
    jar.add_cookie_str("k=old", &url);
    jar.add_cookie_str("k=new", &url);
    assert_eq!(jar.cookies(&url), Some(vec![b"k=new".to_vec()]));
}

#[test]
fn cookie_values_are_appended_unless_one_is_invalid() {
    let mut headers = new_headers();
    insert_header(&mut headers, "cookie", b"mine=1").unwrap();
    add_cookie_values(&mut headers, &vec![b"a=1".to_vec(), b"b=2".to_vec()]).unwrap();
    assert_eq!(
        all_values(&headers, "cookie"),
        vec![b"mine=1".to_vec(), b"a=1".to_vec(), b"b=2".to_vec()]
    );
    add_cookie_values(&mut headers, &vec![b"c=3".to_vec(), b"bad\n".to_vec()]).unwrap();
    assert_eq!(all_values(&headers, "cookie").len(), 3);
    add_cookie_values(&mut headers, &Vec::new()).unwrap();
    assert_eq!(all_values(&headers, "cookie").len(), 3);
}

#[test]
fn store_cookies_are_attached() {
    let url = Url::parse("https://a.example/").unwrap();
    let jar = Arc::new(Jar::default());
    jar.add_cookie_str("k=v", &url);
    let mut headers = new_headers();
    insert_header(&mut headers, "accept", b"*/*").unwrap();
    add_cookie_header(&jar, &mut headers, &url).unwrap();
    assert_eq!(all_values(&headers, "cookie"), vec![b"k=v".to_vec()]);
    assert_eq!(all_values(&headers, "accept"), vec![b"*/*".to_vec()]);
    let mut none = new_headers();
    add_cookie_header(&jar, &mut none, &Url::parse("https://b.example/").unwrap()).unwrap();
    assert!(none.is_empty());
}

#[test]
fn cookie_set_by_a_response_is_sent_with_the_next_request() {
    let client = ClientBuilder::<Jar, ()>::new().cookie_store(true).build().unwrap();
    let first = Request::new(Method::Get, Url::parse("https://a.example/set").unwrap());
    let mut pending = client.execute(first);
    match pending.begin() {
        Step::Dispatch(request) => assert!(!contains_header(&request.headers, "cookie")),
        other => panic!("{:?}", other),
    }
    let mut response = new_headers();
    insert_header(&mut response, "set-cookie", b"k=v").unwrap();
    let step = pending.poll(Event::Response { status: StatusCode(200), headers: response });
    assert!(matches!(step, Step::Respond(_)));

    let second = Request::new(Method::Get, Url::parse("https://a.example/get").unwrap());
    let mut pending = client.execute(second);
    match pending.begin() {
        Step::Dispatch(request) => {
            assert_eq!(all_values(&request.headers, "cookie"), vec![b"k=v".to_vec()]);
        }
        other => panic!("{:?}", other),
    }
    let other = Request::new(Method::Get, Url::parse("https://b.example/get").unwrap());
    match client.execute(other).inner {
        PendingInner::Request(p) => assert!(!contains_header(&p.headers, "cookie")),
        PendingInner::Error(e) => panic!("{:?}", e),
    }
}

#[test]
fn cookie_named_by_the_request_keeps_the_store_out() {
    let jar = Arc::new(Jar::default());
    jar.add_cookie_str("k=v", &Url::parse("https://a.example/").unwrap());
    let client = ClientBuilder::<Jar, ()>::new().cookie_provider(jar).build().unwrap();
    let mut req = Request::new(Method::Get, Url::parse("https://a.example/").unwrap());
    insert_header(&mut req.headers, "cookie", b"mine=1").unwrap();
    match client.execute(req).inner {
        PendingInner::Request(p) => {
            assert_eq!(all_values(&p.headers, "cookie"), vec![b"mine=1".to_vec()]);
            assert!(!p.store_cookies);
        }
        PendingInner::Error(e) => panic!("{:?}", e),
    }
}

#[test]
fn redirect_asks_the_store_for_the_new_url() {
    let jar = Arc::new(Jar::default());
    jar.add_cookie_str("a=1", &Url::parse("https://a.example/").unwrap());
    jar.add_cookie_str("b=2", &Url::parse("https://b.example/").unwrap());
    let client = ClientBuilder::<Jar, ()>::new()
        .cookie_provider(jar)
        .redirect(Policy::limited(5))
        .build()
        .unwrap();
    let mut pending =
        client.execute(Request::new(Method::Get, Url::parse("https://a.example/start").unwrap()));
    match pending.begin() {
        Step::Dispatch(request) => {
            assert_eq!(all_values(&request.headers, "cookie"), vec![b"a=1".to_vec()]);
        }
        other => panic!("{:?}", other),
    }
    let mut to_b = new_headers();
    insert_header(&mut to_b, "location", b"https://b.example/next").unwrap();
    insert_header(&mut to_b, "set-cookie", b"late=3").unwrap();
    match pending.poll(Event::Response { status: StatusCode(302), headers: to_b }) {
        Step::Dispatch(request) => {
            assert_eq!(all_values(&request.headers, "cookie"), vec![b"b=2".to_vec()]);
        }
        other => panic!("{:?}", other),
    }
    let mut back = new_headers();
    insert_header(&mut back, "location", b"https://a.example/end").unwrap();
    match pending.poll(Event::Response { status: StatusCode(302), headers: back }) {
        Step::Dispatch(request) => {
            let cookies = all_values(&request.headers, "cookie");
            assert_eq!(cookies.len(), 1);
            let text = String::from_utf8(cookies[0].clone()).unwrap();
            let mut pairs: Vec<&str> = text.split("; ").collect();
            pairs.sort();
            assert_eq!(pairs, vec!["a=1", "late=3"]);
        }
        other => panic!("{:?}", other),
    }
    let mut nowhere = new_headers();
    insert_header(&mut nowhere, "location", b"https://c.example/").unwrap();
    match pending.poll(Event::Response { status: StatusCode(302), headers: nowhere }) {
        Step::Dispatch(request) => assert!(!contains_header(&request.headers, "cookie")),
        other => panic!("{:?}", other),
    }
}

#[test]
fn cookie_layer_attaches_and_stores() {
    let jar = Arc::new(Jar::default());
    let service = ClientService::new((), Some(jar.clone()));
    let url = Url::parse("https://a.example/").unwrap();
    let mut headers = new_headers();
    service.call(&url, &mut headers).unwrap();
    assert!(headers.is_empty());
    let mut response = new_headers();
    assert!(!service.store_response_cookies(&url, &response));
    insert_header(&mut response, "set-cookie", b"k=v").unwrap();
    assert!(service.store_response_cookies(&url, &response));
    service.call(&url, &mut headers).unwrap();
    assert_eq!(all_values(&headers, "cookie"), vec![b"k=v".to_vec()]);
    let mut own = new_headers();
    insert_header(&mut own, "cookie", b"mine=1").unwrap();
    service.call(&url, &mut own).unwrap();
    assert_eq!(all_values(&own, "cookie"), vec![b"mine=1".to_vec()]);
    let bare: ClientService<Jar, ()> = ClientService::new((), None);
    let mut untouched = new_headers();
    bare.call(&url, &mut untouched).unwrap();
    assert!(untouched.is_empty());
    assert!(!bare.store_response_cookies(&url, &response));
}

#[test]
fn cookie_values_hold_the_joined_pairs_as_one_value() {
    assert_eq!(cookie_values(&Vec::new()), None);
    assert_eq!(cookie_values(&vec![(b"a".to_vec(), b"1".to_vec())]), Some(vec![b"a=1".to_vec()]));
    assert_eq!(
        cookie_values(&vec![(b"a".to_vec(), b"1".to_vec()), (b"b".to_vec(), b"2".to_vec())]),
        Some(vec![b"a=1; b=2".to_vec()])
    );
    assert_eq!(cookie_values(&vec![(b"a".to_vec(), b"x\ny".to_vec())]), None);
}

struct FixedAnswer(Option<Vec<Vec<u8>>>);

impl CookieStore for FixedAnswer {
    fn set_cookies(&self, _cookie_headers: &Vec<Vec<u8>>, _url: &Url) {}

    fn cookies(&self, _url: &Url) -> Option<Vec<Vec<u8>>> {
        self.0.clone()
    }
}

#[test]
fn answers_of_a_store_are_added_behind_the_cookies_held() {
    let url = Url::parse("https://a.example/").unwrap();
    let store = Arc::new(FixedAnswer(Some(vec![b"b=2".to_vec(), b"c=3".to_vec()])));
    let mut headers = new_headers();
    insert_header(&mut headers, "accept", b"*/*").unwrap();
    append_header(&mut headers, "cookie", b"a=1").unwrap();
    assert!(add_cookie_header(&store, &mut headers, &url).is_ok());
    assert_eq!(
        all_values(&headers, "cookie"),
        vec![b"a=1".to_vec(), b"b=2".to_vec(), b"c=3".to_vec()]
    );
    assert_eq!(all_values(&headers, "accept"), vec![b"*/*".to_vec()]);
    assert_eq!(headers.len(), 4);

    let silent = Arc::new(FixedAnswer(None));
    assert!(add_cookie_header(&silent, &mut headers, &url).is_ok());
    assert_eq!(headers.len(), 4);

    let empty = Arc::new(FixedAnswer(Some(Vec::new())));
    assert!(add_cookie_header(&empty, &mut headers, &url).is_ok());
    assert_eq!(headers.len(), 4);

    let broken = Arc::new(FixedAnswer(Some(vec![b"d=4".to_vec(), b"e=\n".to_vec()])));
    assert!(add_cookie_header(&broken, &mut headers, &url).is_ok());
    assert_eq!(
        all_values(&headers, "cookie"),
        vec![b"a=1".to_vec(), b"b=2".to_vec(), b"c=3".to_vec()]
    );
}

#[test]
fn cookie_layer_asks_the_store_only_where_the_request_names_no_cookie() {
    let url = Url::parse("https://a.example/").unwrap();
    let store = Arc::new(FixedAnswer(Some(vec![b"k=v".to_vec()])));
    let service = ClientService::new((), Some(store));
    let mut bare = new_headers();
    assert!(service.call(&url, &mut bare).is_ok());
    assert_eq!(all_values(&bare, "cookie"), vec![b"k=v".to_vec()]);
    let mut named = new_headers();
    insert_header(&mut named, "cookie", b"own=1").unwrap();
    assert!(service.call(&url, &mut named).is_ok());
    assert_eq!(all_values(&named, "cookie"), vec![b"own=1".to_vec()]);
    let without: ClientService<FixedAnswer, ()> = ClientService::new((), None);
    let mut untouched = new_headers();
    assert!(without.call(&url, &mut untouched).is_ok());
    assert!(untouched.is_empty());
}

#[test]
fn set_cookie_values_are_picked_in_order_where_a_store_is_attached() {
    let mut headers = new_headers();
    assert_eq!(cookies_to_offer(true, &headers), None);
    append_header(&mut headers, "set-cookie", b"a=1").unwrap();
    append_header(&mut headers, "set-cookie", b"b=2; Path=/").unwrap();
    assert_eq!(
        cookies_to_offer(true, &headers),
        Some(vec![b"a=1".to_vec(), b"b=2; Path=/".to_vec()])
    );
    assert_eq!(cookies_to_offer(false, &headers), None);
}

struct Recorder {
    offered: Mutex<Vec<(Vec<Vec<u8>>, String)>>,
}

impl CookieStore for Recorder {
    fn set_cookies(&self, cookie_headers: &Vec<Vec<u8>>, url: &Url) {
        self.offered.lock().unwrap().push((cookie_headers.clone(), url.as_str().to_string()));
    }

    fn cookies(&self, _url: &Url) -> Option<Vec<Vec<u8>>> {
        None
    }
}

#[test]
fn response_cookies_are_offered_once_with_the_url_they_came_from() {
    let store = Arc::new(Recorder { offered: Mutex::new(Vec::new()) });
    let client = ClientBuilder::<Jar, ()>::new().cookie_provider(store.clone()).build().unwrap();
    let request = Request::new(Method::Get, Url::parse("https://a.example/set").unwrap());
    let mut pending = client.execute(request);
    assert!(matches!(pending.begin(), Step::Dispatch(_)));
    let mut headers = new_headers();
    append_header(&mut headers, "set-cookie", b"k=v").unwrap();
    append_header(&mut headers, "set-cookie", b"l=w").unwrap();
    assert!(matches!(
        pending.poll(Event::Response { status: StatusCode(200), headers }),
        Step::Respond(_)
    ));
    assert_eq!(
        *store.offered.lock().unwrap(),
        vec![(vec![b"k=v".to_vec(), b"l=w".to_vec()], "https://a.example/set".to_string())]
    );
    let request = Request::new(Method::Get, Url::parse("https://a.example/none").unwrap());
    let mut pending = client.execute(request);
    assert!(matches!(pending.begin(), Step::Dispatch(_)));
    assert!(matches!(
        pending.poll(Event::Response { status: StatusCode(200), headers: new_headers() }),
        Step::Respond(_)
    ));
    assert_eq!(store.offered.lock().unwrap().len(), 1);
}
