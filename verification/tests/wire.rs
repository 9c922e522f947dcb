use rquest::header::append_header;
use rquest::header::insert_header;
use rquest::header::new_headers;
use rquest::order::name_le;
use rquest::order::ordered_names;
use rquest::tunnel::tunnel_established;
use rquest::tunnel::tunnel_request;

#[test]
fn names_compare_alphabetically() {
    assert!(name_le("", ""));
    assert!(name_le("", "a"));
    assert!(!name_le("a", ""));
    assert!(name_le("a", "a"));
    assert!(name_le("a", "b"));
    assert!(!name_le("b", "a"));
    assert!(name_le("accept", "accept-encoding"));
    assert!(!name_le("accept-encoding", "accept"));
    assert!(name_le("abc", "abd"));
    assert!(!name_le("abd", "abc"));
}

#[test]
fn named_headers_go_first_and_the_rest_alphabetically() {
    let mut headers = new_headers();
    for name in ["user-agent", "accept", "x-b", "host", "x-a", "cookie"] {
        insert_header(&mut headers, name, b"v").unwrap();
    }
    append_header(&mut headers, "cookie", b"w").unwrap();
    let order = vec![
        "host".to_string(),
        "missing".to_string(),
        "user-agent".to_string(),
        "host".to_string(),
        "accept".to_string(),
    ];
    let result = ordered_names(&headers, &order);
    assert_eq!(result.leading, 3);
    assert_eq!(result.names, vec!["host", "user-agent", "accept", "cookie", "x-a", "x-b"]);
}

#[test]
fn without_an_order_headers_go_alphabetically() {
    let mut headers = new_headers();
    for name in ["b", "a", "c", "a-a"] {
        insert_header(&mut headers, name, b"v").unwrap();
    }
    let result = ordered_names(&headers, &Vec::new());
    assert_eq!(result.leading, 0);
    assert_eq!(result.names, vec!["a", "a-a", "b", "c"]);
    let none = ordered_names(&new_headers(), &vec!["a".to_string()]);
    assert_eq!(none.leading, 0);
    assert!(none.names.is_empty());
}

#[test]
fn tunnel_request_bytes() {
    assert_eq!(
        tunnel_request("a.example", 443, None, &Vec::new()),
        b"CONNECT a.example:443 HTTP/1.1\r\nHost: a.example:443\r\n\r\n".to_vec()
    );
    assert_eq!(
        tunnel_request(
            "a.example",
            8443,
            Some(b"Basic dTpw"),
            &vec![("x-one".to_string(), b"1".to_vec()), ("x-two".to_string(), b"2".to_vec())],
        ),
        b"CONNECT a.example:8443 HTTP/1.1\r\nHost: a.example:8443\r\nProxy-Authorization: Basic dTpw\r\nx-one: 1\r\nx-two: 2\r\n\r\n"
            .to_vec()
    );
    assert!(tunnel_request("h", 0, None, &Vec::new()).starts_with(b"CONNECT h:0 "));
    assert!(tunnel_request("h", 9, None, &Vec::new()).starts_with(b"CONNECT h:9 "));
    assert!(tunnel_request("h", 10, None, &Vec::new()).starts_with(b"CONNECT h:10 "));
    assert!(tunnel_request("h", 65535, None, &Vec::new()).starts_with(b"CONNECT h:65535 "));
}

#[test]
fn tunnel_stands_on_any_2xx() {
    assert!(tunnel_established(b"HTTP/1.1 200 Connection established\r\n\r\n"));
    assert!(tunnel_established(b"HTTP/1.0 200 OK\r\n\r\n"));
    assert!(tunnel_established(b"HTTP/1.1 204"));
    assert!(tunnel_established(b"HTTP/1.1 299 x"));
    assert!(!tunnel_established(b"HTTP/1.1 407 Proxy Authentication Required\r\n\r\n"));
    assert!(!tunnel_established(b"HTTP/1.1 300 x"));
    assert!(!tunnel_established(b"HTTP/1.1 199 x"));
    assert!(!tunnel_established(b"HTTP/1.1 20"));
    assert!(!tunnel_established(b"HTTP/1.1 2xx"));
    assert!(!tunnel_established(b"HTTPS1.1 200 OK"));
    assert!(!tunnel_established(b"HTTP/1.1200 OK "));
    assert!(!tunnel_established(b""));
}
