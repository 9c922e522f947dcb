//! Content-encoding negotiation.
//!
//! A request that names neither `Accept-Encoding` nor `Range` is given an
//! `Accept-Encoding` header that lists the enabled decoders. A response
//! whose `Content-Encoding` is exactly the token of an enabled decoder is
//! decoded, and loses its `Content-Encoding` and `Content-Length` headers.

use vstd::prelude::*;
use vstd::string::StringSliceAdditionalSpecFns;
use crate::error::Error;
use crate::header::ACCEPT_ENCODING;
use crate::header::CONTENT_ENCODING;
use crate::header::CONTENT_LENGTH;
use crate::header::RANGE;
use crate::header::contains_header;
use crate::header::first_value;
use crate::header::header_fields;
use crate::header::headers_full;
use crate::header::insert_header;
use crate::header::is_header_value;
use crate::header::lemma_known_names;
use crate::header::remove_header;
use crate::text::bytes_eq;

verus! {

/// A content encoding the client can decode.
#[derive(Clone, Copy, Debug, PartialEq, Eq, Structural)]
pub enum Encoding {
    Gzip,
    Brotli,
    Zstd,
    Deflate,
}

impl Encoding {
    /// The token that names the encoding in headers.
    pub open spec fn token(&self) -> Seq<u8> {
        match self {
            Encoding::Gzip => "gzip".spec_bytes(),
            Encoding::Brotli => "br".spec_bytes(),
            Encoding::Zstd => "zstd".spec_bytes(),
            Encoding::Deflate => "deflate".spec_bytes(),
        }
    }

    /// The token that names the encoding in headers.
    pub fn as_bytes(&self) -> (token: &'static [u8])
        ensures
            token@ == self.token(),
    {
        match self {
            Encoding::Gzip => "gzip".as_bytes(),
            Encoding::Brotli => "br".as_bytes(),
            Encoding::Zstd => "zstd".as_bytes(),
            Encoding::Deflate => "deflate".as_bytes(),
        }
    }
}

/// Which decoders are enabled.
#[derive(Clone, Copy, Debug, PartialEq, Eq, Structural)]
pub struct Accepts {
    pub gzip: bool,
    pub brotli: bool,
    pub zstd: bool,
    pub deflate: bool,
}

impl Default for Accepts {
    /// Every decoder enabled.
    fn default() -> (accepts: Accepts)
        ensures
            accepts == (Accepts { gzip: true, brotli: true, zstd: true, deflate: true }),
    {
        Accepts { gzip: true, brotli: true, zstd: true, deflate: true }
    }
}

/// The tokens in `encodings`, each followed by `, ` but the last.
pub open spec fn joined_tokens(encodings: Seq<Encoding>) -> Seq<u8>
    decreases encodings.len(),
{
    if encodings.len() == 0 {
        Seq::empty()
    } else if encodings.len() == 1 {
        encodings[0].token()
    } else {
        joined_tokens(encodings.drop_last()) + seq![44u8, 32u8] + encodings.last().token()
    }
}

impl Accepts {
    /// No decoder enabled.
    pub fn none() -> (accepts: Accepts)
        ensures
            accepts == (Accepts { gzip: false, brotli: false, zstd: false, deflate: false }),
    {
        Accepts { gzip: false, brotli: false, zstd: false, deflate: false }
    }

    /// Whether the decoder for `encoding` is enabled.
    pub open spec fn spec_enables(&self, encoding: Encoding) -> bool {
        match encoding {
            Encoding::Gzip => self.gzip,
            Encoding::Brotli => self.brotli,
            Encoding::Zstd => self.zstd,
            Encoding::Deflate => self.deflate,
        }
    }

    #[verifier::when_used_as_spec(spec_enables)]
    pub fn enables(&self, encoding: Encoding) -> (b: bool)
        ensures
            b == self.spec_enables(encoding),
    {
        match encoding {
            Encoding::Gzip => self.gzip,
            Encoding::Brotli => self.brotli,
            Encoding::Zstd => self.zstd,
            Encoding::Deflate => self.deflate,
        }
    }

    /// The enabled encodings, in the order in which they are offered: gzip,
    /// brotli, zstd, deflate.
    pub open spec fn enabled(&self) -> Seq<Encoding> {
        let a: Seq<Encoding> = if self.gzip {
            seq![Encoding::Gzip]
        } else {
            Seq::empty()
        };
        let b = if self.brotli {
            a.push(Encoding::Brotli)
        } else {
            a
        };
        let c = if self.zstd {
            b.push(Encoding::Zstd)
        } else {
            b
        };
        if self.deflate {
            c.push(Encoding::Deflate)
        } else {
            c
        }
    }

    /// The value of the `Accept-Encoding` header that offers the enabled
    /// encodings, or nothing where none is enabled.
    pub open spec fn accept_encoding(&self) -> Option<Seq<u8>> {
        if self.enabled().len() == 0 {
            None
        } else {
            Some(joined_tokens(self.enabled()))
        }
    }

    /// The enabled encodings, in the order in which they are offered.
    pub fn encodings(&self) -> (list: Vec<Encoding>)
        ensures
            list@ == self.enabled(),
    {
        let mut list: Vec<Encoding> = Vec::new();
        if self.gzip {
            list.push(Encoding::Gzip);
        }
        if self.brotli {
            list.push(Encoding::Brotli);
        }
        if self.zstd {
            list.push(Encoding::Zstd);
        }
        if self.deflate {
            list.push(Encoding::Deflate);
        }
        proof {
            assert(list@ =~= self.enabled());
        }
        list
    }

    /// The value of the `Accept-Encoding` header that offers the enabled
    /// encodings, or nothing where none is enabled.
    pub fn as_bytes(&self) -> (value: Option<Vec<u8>>)
        ensures
            value is Some == self.accept_encoding() is Some,
            value matches Some(v) ==> Some(v@) == self.accept_encoding(),
    {
        let list = self.encodings();
        if list.len() == 0 {
            return None;
        }
        let mut out: Vec<u8> = Vec::new();
        let mut i: usize = 0;
        while i < list.len()
            invariant
                i <= list.len(),
                out@ == joined_tokens(list@.subrange(0, i as int)),
            decreases list.len() - i,
        {
            let ghost before = out@;
            if i > 0 {
                out.push(44u8);
                out.push(32u8);
            }
            out.extend_from_slice(list[i].as_bytes());
            proof {
                let upto = list@.subrange(0, i + 1);
                assert(upto.drop_last() =~= list@.subrange(0, i as int));
                assert(upto.last() == list@[i as int]);
                if i == 0 {
                    assert(out@ =~= upto[0].token());
                } else {
                    assert(out@ =~= before + seq![44u8, 32u8] + upto.last().token());
                }
            }
            i += 1;
        }
        proof {
            assert(list@.subrange(0, list.len() as int) =~= list@);
        }
        Some(out)
    }

    /// The encoding to decode a response with: the enabled encoding whose
    /// token the first `Content-Encoding` value is, if there is one.
    pub open spec fn decodes(&self, fields: Map<Seq<char>, Seq<Seq<u8>>>) -> Option<Encoding> {
        if !fields.dom().contains(CONTENT_ENCODING@) || fields[CONTENT_ENCODING@].len() == 0 {
            None
        } else {
            let value = fields[CONTENT_ENCODING@][0];
            if self.gzip && value == Encoding::Gzip.token() {
                Some(Encoding::Gzip)
            } else if self.brotli && value == Encoding::Brotli.token() {
                Some(Encoding::Brotli)
            } else if self.zstd && value == Encoding::Zstd.token() {
                Some(Encoding::Zstd)
            } else if self.deflate && value == Encoding::Deflate.token() {
                Some(Encoding::Deflate)
            } else {
                None
            }
        }
    }

    /// Decides how to decode a response with the given headers. Where an
    /// enabled decoder applies, `Content-Encoding` and `Content-Length` are
    /// removed from the headers; otherwise they stay as they are.
    pub fn detect(&self, headers: &mut http::HeaderMap) -> (decoder: Option<Encoding>)
        ensures
            decoder == self.decodes(header_fields(*old(headers))),
            header_fields(*final(headers)) == if decoder is Some {
                header_fields(*old(headers)).remove(CONTENT_ENCODING@).remove(CONTENT_LENGTH@)
            } else {
                header_fields(*old(headers))
            },
    {
        proof {
            lemma_known_names();
        }
        let found = match first_value(headers, CONTENT_ENCODING) {
            Some(value) => {
                let v = value.as_slice();
                if self.gzip && bytes_eq(v, Encoding::Gzip.as_bytes()) {
                    Some(Encoding::Gzip)
                } else if self.brotli && bytes_eq(v, Encoding::Brotli.as_bytes()) {
                    Some(Encoding::Brotli)
                } else if self.zstd && bytes_eq(v, Encoding::Zstd.as_bytes()) {
                    Some(Encoding::Zstd)
                } else if self.deflate && bytes_eq(v, Encoding::Deflate.as_bytes()) {
                    Some(Encoding::Deflate)
                } else {
                    None
                }
            },
            None => None,
        };
        if found.is_some() {
            remove_header(headers, CONTENT_ENCODING);
            remove_header(headers, CONTENT_LENGTH);
        }
        found
    }
}

/// Whether a request with the given header fields is given an
/// `Accept-Encoding` header: it names neither `Accept-Encoding` nor `Range`,
/// and a decoder is enabled.
pub open spec fn offers_encodings(accepts: Accepts, fields: Map<Seq<char>, Seq<Seq<u8>>>) -> bool {
    accepts.accept_encoding() is Some && !fields.dom().contains(ACCEPT_ENCODING@)
        && !fields.dom().contains(RANGE@)
}

/// The header fields of a request after content encodings were offered.
pub open spec fn with_accept_encoding(accepts: Accepts, fields: Map<Seq<char>, Seq<Seq<u8>>>)
    -> Map<Seq<char>, Seq<Seq<u8>>> {
    if offers_encodings(accepts, fields) {
        fields.insert(ACCEPT_ENCODING@, seq![accepts.accept_encoding()->0])
    } else {
        fields
    }
}

/// The tokens of the encodings are header values.
pub proof fn lemma_tokens_are_header_values()
    ensures
        forall|e: Encoding| is_header_value(#[trigger] e.token()),
{
    reveal_strlit("gzip");
    reveal_strlit("br");
    reveal_strlit("zstd");
    reveal_strlit("deflate");
    vstd::string::is_ascii_spec_bytes("gzip");
    vstd::string::is_ascii_spec_bytes("br");
    vstd::string::is_ascii_spec_bytes("zstd");
    vstd::string::is_ascii_spec_bytes("deflate");
    assert forall|e: Encoding| is_header_value(#[trigger] e.token()) by {
        match e {
            Encoding::Gzip => {},
            Encoding::Brotli => {},
            Encoding::Zstd => {},
            Encoding::Deflate => {},
        }
    }
}

/// A list of tokens joined by `, ` is a header value.
pub proof fn lemma_joined_tokens_are_header_value(encodings: Seq<Encoding>)
    ensures
        is_header_value(joined_tokens(encodings)),
    decreases encodings.len(),
{
    lemma_tokens_are_header_values();
    if encodings.len() >= 2 {
        lemma_joined_tokens_are_header_value(encodings.drop_last());
    }
}

/// Gives a request that names neither `Accept-Encoding` nor `Range` an
/// `Accept-Encoding` header that offers the enabled encodings.
///
/// Fails, leaving the headers as they were, exactly when the header is due
/// and the map is too full; a map that has room never is.
pub fn add_accpet_encoding_header(accepts: &Accepts, headers: &mut http::HeaderMap) -> (done:
    Result<(), Error>)
    ensures
        done is Ok ==> header_fields(*final(headers)) == with_accept_encoding(
            *accepts,
            header_fields(*old(headers)),
        ),
        done is Err == (offers_encodings(*accepts, header_fields(*old(headers)))
            && crate::header::header_map_full(*old(headers))),
        crate::header::has_room(header_fields(*old(headers)), 0) ==> done is Ok,
        done matches Err(e) ==> e@ == headers_full() && header_fields(*final(headers))
            == header_fields(*old(headers)),
{
    proof {
        lemma_known_names();
        lemma_joined_tokens_are_header_value(accepts.enabled());
    }
    match accepts.as_bytes() {
        Some(value) => {
            if !contains_header(headers, ACCEPT_ENCODING) && !contains_header(headers, RANGE) {
                insert_header(headers, ACCEPT_ENCODING, value.as_slice())
            } else {
                Ok(())
            }
        },
        None => Ok(()),
    }
}

/// Makes services that decode response bodies.
#[derive(Clone, Copy, Debug)]
pub struct DecompressionLayer {
    accept: Accepts,
}

impl DecompressionLayer {
    /// A layer whose services decode what `accept` enables.
    pub fn new(accept: Accepts) -> (layer: Self)
        ensures
            layer.accepts() == accept,
    {
        DecompressionLayer { accept }
    }

    /// The decoders the layer enables.
    pub closed spec fn accepts(&self) -> Accepts {
        self.accept
    }

    /// Wraps `service`.
    pub fn layer<S>(&self, service: S) -> (wrapped: Decompression<S>)
        ensures
            wrapped.accepts() == self.accepts(),
            wrapped.inner() == service,
    {
        Decompression::new(service, self.accept)
    }
}

/// Decodes the response bodies of the service it wraps.
#[derive(Clone, Debug)]
pub struct Decompression<S> {
    inner: S,
    accepts: Accepts,
}

impl<S> Decompression<S> {
    /// Wraps `service`, decoding what `accepts` enables.
    pub fn new(service: S, accepts: Accepts) -> (wrapped: Decompression<S>)
        ensures
            wrapped.accepts() == accepts,
            wrapped.inner() == service,
    {
        Decompression { inner: service, accepts }
    }

    /// The decoders enabled for requests that do not choose themselves.
    pub closed spec fn accepts(&self) -> Accepts {
        self.accepts
    }

    /// The wrapped service.
    pub closed spec fn inner(&self) -> S {
        self.inner
    }

    /// The wrapped service.
    pub fn get_ref(&self) -> (inner: &S)
        ensures
            *inner == self.inner(),
    {
        &self.inner
    }

    /// The decoders in force for a request: the request's own choice where
    /// it made one, else the service's.
    pub fn call(&self, request_accepts: Option<Accepts>) -> (accepts: Accepts)
        ensures
            accepts == match request_accepts {
                Some(a) => a,
                None => self.accepts(),
            },
    {
        match request_accepts {
            Some(a) => a,
            None => self.accepts,
        }
    }
}

} // verus!
