use rquest::client::future::Answer;
use rquest::client::future::CorePending;
use rquest::client::future::Pending;
use rquest::error::Cause;
use rquest::error::Error;
use rquest::error::Kind;
use rquest::url::Url;

#[test]
fn test_future_size() {
    let s = std::mem::size_of::<Pending>();
    assert!(s <= 360, "size_of::<Pending>() == {s}, too big");
}

#[test]
fn response_without_redirect_comes_from_the_request_url() {
    let mut pending = Pending::new(Url::parse("http://a.example/x").unwrap());
    let end = pending.poll(Answer::Response { final_uri: None }).unwrap();
    assert_eq!(end.as_str(), "http://a.example/x");
}

#[test]
fn response_after_redirect_comes_from_the_arrival() {
    let mut pending = Pending::new(Url::parse("http://a.example/x").unwrap());
    let end = pending
        .poll(Answer::Response { final_uri: Some("http://b.example/y".to_string()) })
        .unwrap();
    assert_eq!(end.as_str(), "http://b.example/y");
}

#[test]
fn arrival_that_is_no_url_is_an_error() {
    let mut pending = Pending::new(Url::parse("http://a.example/x").unwrap());
    let err = pending.poll(Answer::Response { final_uri: Some("::".to_string()) }).unwrap_err();
    assert_eq!(err.kind(), Kind::Builder);
    assert_eq!(err.cause(), Cause::InvalidUrl);
}

#[test]
fn error_without_url_is_given_the_request_url() {
    let mut pending = Pending::new(Url::parse("http://does.not.exist.local/ever").unwrap());
    let err = pending.poll(Answer::Error(Error::new(Kind::Connect, Cause::Unspecified))).unwrap_err();
    assert_eq!(err.kind(), Kind::Connect);
    assert_eq!(err.url().map(|u| u.as_str()), Some("http://does.not.exist.local/ever"));
}

#[test]
fn error_with_url_keeps_it() {
    let mut pending = Pending::new(Url::parse("http://a.example/").unwrap());
    let other = Url::parse("http://b.example/").unwrap();
    let err = pending.poll(Answer::Error(Error::timed_out(other))).unwrap_err();
    assert_eq!(err.url().map(|u| u.as_str()), Some("http://b.example/"));
    assert!(err.is_timeout());
}

#[test]
fn foreign_error_becomes_a_request_error() {
    let mut pending = Pending::new(Url::parse("http://a.example/").unwrap());
    let err = pending.poll(Answer::Foreign).unwrap_err();
    assert_eq!(err.kind(), Kind::Request);
    assert_eq!(err.url().map(|u| u.as_str()), Some("http://a.example/"));
}

#[test]
fn pending_error_is_handed_out_once() {
    let mut pending = Pending::new_err(Error::builder(Cause::HeadersFull));
    let first = pending.poll(Answer::Foreign).unwrap_err();
    assert_eq!(first.cause(), Cause::HeadersFull);
    let second = pending.poll(Answer::Foreign).unwrap_err();
    assert_eq!(second.cause(), Cause::AlreadyFinished);
}

#[test]
fn core_pending_passes_the_answer_on() {
    let mut pending = CorePending::new();
    assert!(pending.poll(Ok(())).is_ok());
    let err = pending.poll(Err(Error::request(Cause::Transport))).unwrap_err();
    assert_eq!(err.cause(), Cause::Transport);
}

#[test]
fn core_pending_error_is_handed_out_once() {
    let mut pending = CorePending::new_err(Error::builder(Cause::InvalidUrl));
    assert_eq!(pending.poll(Ok(())).unwrap_err().cause(), Cause::InvalidUrl);
    let again = pending.poll(Ok(())).unwrap_err();
    assert_eq!(again.kind(), Kind::Builder);
    assert_eq!(again.cause(), Cause::Unspecified);
}

#[test]
fn arrival_without_a_host_is_refused() {
    let mut pending = Pending::new(Url::parse("http://a.example/x").unwrap());
    let err = pending
        .poll(Answer::Response { final_uri: Some("data:text/plain,x".to_string()) })
        .unwrap_err();
    assert_eq!(err.kind(), Kind::Builder);
    assert_eq!(err.cause(), Cause::InvalidUrl);
    let end = pending.poll(Answer::Response { final_uri: None }).unwrap();
    assert_eq!(end.as_str(), "http://a.example/x");
}
