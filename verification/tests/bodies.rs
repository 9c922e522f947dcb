use rquest::body::body_from_snapshot;
use rquest::body::copy_snapshot;
use rquest::body::keep_body;
use rquest::body::Body;

#[test]
fn kinds_of_body() {
    assert!(matches!(Body::empty(), Body::Empty));
    assert!(matches!(Body::streaming(), Body::Streaming));
    assert!(Body::empty().is_reusable());
    assert!(Body::from_vec(vec![1, 2, 3]).is_reusable());
    assert!(!Body::streaming().is_reusable());
    assert_eq!(Body::from_vec(vec![1, 2, 3]).as_bytes(), Some(&[1u8, 2, 3][..]));
    assert_eq!(Body::empty().as_bytes(), None);
    assert_eq!(Body::reusable(bytes::Bytes::from_static(b"abc")).as_bytes(), Some(&b"abc"[..]));
}

#[test]
fn clone_where_reusable() {
    let body = Body::from_vec(b"12345678".to_vec());
    let copy = body.try_clone().unwrap();
    assert_eq!(copy.as_bytes(), Some(&b"12345678"[..]));
    assert_eq!(body.as_bytes(), Some(&b"12345678"[..]));
    assert!(matches!(Body::empty().try_clone(), Some(Body::Empty)));
    assert!(Body::streaming().try_clone().is_none());
}

#[test]
fn reuse_splits_off_the_bytes() {
    let (kept, body) = Body::from_vec(b"xyz".to_vec()).try_reuse();
    assert_eq!(kept.unwrap().as_ref(), b"xyz");
    assert_eq!(body.as_bytes(), Some(&b"xyz"[..]));
    let (kept, body) = Body::streaming().try_reuse();
    assert!(kept.is_none());
    assert!(matches!(body, Body::Streaming));
    let (kept, body) = Body::empty().try_reuse();
    assert!(kept.is_none());
    assert!(matches!(body, Body::Empty));
}

#[test]
fn snapshots() {
    assert_eq!(keep_body(None), None);
    assert_eq!(keep_body(Some(Body::empty())), None);
    assert_eq!(keep_body(Some(Body::streaming())), Some(None));
    let kept = keep_body(Some(Body::from_vec(b"hi".to_vec())));
    assert_eq!(kept, Some(Some(bytes::Bytes::from_static(b"hi"))));
    assert_eq!(copy_snapshot(&kept), kept);
    assert_eq!(copy_snapshot(&Some(None)), Some(None));
    assert_eq!(copy_snapshot(&None), None);
    assert_eq!(body_from_snapshot(&kept).as_bytes(), Some(&b"hi"[..]));
    assert!(matches!(body_from_snapshot(&None), Body::Empty));
    assert!(matches!(body_from_snapshot(&Some(None)), Body::Empty));
}
