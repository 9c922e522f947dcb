use rquest::url::Url;

#[test]
fn parse_reads_the_parts() {
    let url = Url::parse("https://user:pw@Example.COM:8443/a/b?q=1#frag").unwrap();
    assert_eq!(url.scheme(), "https");
    assert_eq!(url.host_str(), Some("example.com"));
    assert_eq!(url.port_or_known_default(), Some(8443));
    assert_eq!(url.port(), Some(8443));
    assert_eq!(url.path(), "/a/b");
    assert_eq!(url.as_str(), "https://user:pw@example.com:8443/a/b?q=1#frag");
    assert!(url.is_https());
    assert!(!url.is_http());
}

#[test]
fn parse_knows_default_ports() {
    let url = Url::parse("http://a.example").unwrap();
    assert_eq!(url.port_or_known_default(), Some(80));
    assert_eq!(url.port(), None);
    assert_eq!(url.as_str(), "http://a.example/");
    assert_eq!(Url::parse("https://a.example").unwrap().port_or_known_default(), Some(443));
    assert_eq!(Url::parse("socks5://p.example").unwrap().port_or_known_default(), None);
}

#[test]
fn parse_refuses_what_is_no_absolute_url() {
    assert!(Url::parse("").is_none());
    assert!(Url::parse("/relative").is_none());
    assert!(Url::parse("http://").is_none());
}

#[test]
fn join_resolves_references() {
    let base = Url::parse("http://a.example/dir/page?x=1").unwrap();
    assert_eq!(base.join("other").unwrap().as_str(), "http://a.example/dir/other");
    assert_eq!(base.join("/root").unwrap().as_str(), "http://a.example/root");
    assert_eq!(base.join("https://b.example/z").unwrap().as_str(), "https://b.example/z");
    assert_eq!(base.join("//c.example/y").unwrap().as_str(), "http://c.example/y");
    assert!(base.join("http://[bad").is_none());
}

#[test]
fn copy_is_equal_in_every_part() {
    let url = Url::parse("https://a.example:444/p").unwrap();
    let copy = url.copy();
    assert_eq!(copy.as_str(), url.as_str());
    assert_eq!(copy.scheme(), url.scheme());
    assert_eq!(copy.host_str(), url.host_str());
    assert_eq!(copy.port_or_known_default(), url.port_or_known_default());
    assert_eq!(copy.path(), url.path());
    assert_eq!(copy.port(), url.port());
}

#[test]
fn origin_is_scheme_host_and_port() {
    let a = Url::parse("https://a.example/x").unwrap();
    assert!(a.same_origin(&Url::parse("https://a.example:443/y").unwrap()));
    assert!(!a.same_origin(&Url::parse("http://a.example/x").unwrap()));
    assert!(!a.same_origin(&Url::parse("https://b.example/x").unwrap()));
    assert!(!a.same_origin(&Url::parse("https://a.example:8443/x").unwrap()));
    let plain = Url::parse("http://a.example:8080/").unwrap();
    assert!(!plain.same_origin(&Url::parse("https://a.example:8080/").unwrap()));
}

#[test]
fn referer_form_has_no_credentials_and_no_fragment() {
    let url = Url::parse("https://user:pw@a.example/p?q=1#frag").unwrap();
    assert_eq!(url.without_credentials().as_str(), "https://a.example/p?q=1");
    let plain = Url::parse("http://a.example/p").unwrap();
    assert_eq!(plain.without_credentials().as_str(), "http://a.example/p");
    let only_user = Url::parse("http://user@a.example/#x").unwrap();
    assert_eq!(only_user.without_credentials().as_str(), "http://a.example/");
}

#[test]
fn request_targets() {
    assert!(Url::parse("http://a.example/path?x=1").unwrap().is_valid_uri());
    assert!(Url::parse("https://a.example:8443/").unwrap().is_valid_uri());
    let long = format!("http://a.example/{}", "a".repeat(70000));
    assert!(!Url::parse(&long).unwrap().is_valid_uri());
}
