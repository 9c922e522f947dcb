use rquest::decoder::add_accpet_encoding_header;
use rquest::decoder::Accepts;
use rquest::decoder::Decompression;
use rquest::decoder::DecompressionLayer;
use rquest::decoder::Encoding;
use rquest::header::all_values;
use rquest::header::contains_header;
use rquest::header::first_value;
use rquest::header::insert_header;
use rquest::header::new_headers;

#[test]
fn tokens() {
    assert_eq!(Encoding::Gzip.as_bytes(), b"gzip");
    assert_eq!(Encoding::Brotli.as_bytes(), b"br");
    assert_eq!(Encoding::Zstd.as_bytes(), b"zstd");
    assert_eq!(Encoding::Deflate.as_bytes(), b"deflate");
}

#[test]
fn accept_encoding_lists_enabled_decoders_in_order() {
    assert_eq!(Accepts::default().as_bytes().unwrap(), b"gzip, br, zstd, deflate");
    assert_eq!(Accepts::none().as_bytes(), None);
    let some = Accepts { gzip: true, brotli: false, zstd: false, deflate: true };
    assert_eq!(some.as_bytes().unwrap(), b"gzip, deflate");
    let one = Accepts { gzip: false, brotli: true, zstd: false, deflate: false };
    assert_eq!(one.as_bytes().unwrap(), b"br");
    let two = Accepts { gzip: false, brotli: true, zstd: true, deflate: false };
    assert_eq!(two.as_bytes().unwrap(), b"br, zstd");
    assert_eq!(two.encodings(), vec![Encoding::Brotli, Encoding::Zstd]);
    assert!(two.enables(Encoding::Zstd));
    assert!(!two.enables(Encoding::Gzip));
}

#[test]
fn accept_encoding_is_added_when_absent() {
    let mut headers = new_headers();
    add_accpet_encoding_header(&Accepts::default(), &mut headers).unwrap();
    assert_eq!(
        all_values(&headers, "accept-encoding"),
        vec![b"gzip, br, zstd, deflate".to_vec()]
    );
}

#[test]
fn accept_encoding_is_left_alone_when_present_or_with_range() {
    let mut headers = new_headers();
    insert_header(&mut headers, "accept-encoding", b"identity").unwrap();
    add_accpet_encoding_header(&Accepts::default(), &mut headers).unwrap();
    assert_eq!(first_value(&headers, "accept-encoding"), Some(b"identity".to_vec()));

    let mut ranged = new_headers();
    insert_header(&mut ranged, "range", b"bytes=0-9").unwrap();
    add_accpet_encoding_header(&Accepts::default(), &mut ranged).unwrap();
    assert!(!contains_header(&ranged, "accept-encoding"));

    let mut none = new_headers();
    add_accpet_encoding_header(&Accepts::none(), &mut none).unwrap();
    assert!(none.is_empty());
}

#[test]
fn matching_content_encoding_is_decoded_and_stripped() {
    let mut headers = new_headers();
    insert_header(&mut headers, "content-encoding", b"gzip").unwrap();
    insert_header(&mut headers, "content-length", b"42").unwrap();
    insert_header(&mut headers, "content-type", b"text/plain").unwrap();
    assert_eq!(Accepts::default().detect(&mut headers), Some(Encoding::Gzip));
    assert!(!contains_header(&headers, "content-encoding"));
    assert!(!contains_header(&headers, "content-length"));
    assert!(contains_header(&headers, "content-type"));
}

#[test]
fn other_content_encoding_passes_through() {
    let mut headers = new_headers();
    insert_header(&mut headers, "content-encoding", b"GZIP").unwrap();
    insert_header(&mut headers, "content-length", b"42").unwrap();
    assert_eq!(Accepts::default().detect(&mut headers), None);
    assert!(contains_header(&headers, "content-encoding"));
    assert!(contains_header(&headers, "content-length"));

    let mut disabled = new_headers();
    insert_header(&mut disabled, "content-encoding", b"br").unwrap();
    let accepts = Accepts { gzip: true, brotli: false, zstd: true, deflate: true };
    assert_eq!(accepts.detect(&mut disabled), None);
    assert!(contains_header(&disabled, "content-encoding"));

    let mut plain = new_headers();
    insert_header(&mut plain, "content-length", b"1").unwrap();
    assert_eq!(Accepts::default().detect(&mut plain), None);
    assert!(contains_header(&plain, "content-length"));
}

#[test]
fn each_decoder_is_detected() {
    for (token, encoding) in [
        (&b"br"[..], Encoding::Brotli),
        (&b"zstd"[..], Encoding::Zstd),
        (&b"deflate"[..], Encoding::Deflate),
    ] {
        let mut headers = new_headers();
        insert_header(&mut headers, "content-encoding", token).unwrap();
        assert_eq!(Accepts::default().detect(&mut headers), Some(encoding));
    }
}

#[test]
fn request_choice_overrides_the_layer() {
    let layer = DecompressionLayer::new(Accepts::default());
    let service = layer.layer(7u8);
    assert_eq!(*service.get_ref(), 7);
    assert_eq!(service.call(None), Accepts::default());
    assert_eq!(service.call(Some(Accepts::none())), Accepts::none());
    let direct = Decompression::new((), Accepts::none());
    assert_eq!(direct.call(None), Accepts::none());
}
