//! Request bodies.
//!
//! A body is empty, a block of bytes in memory, or a stream that can be read
//! once. Only the first two can be sent again, which is what redirects that
//! keep the body and retries depend upon.

use vstd::prelude::*;

verus! {

#[verifier::external_type_specification]
#[verifier::external_body]
pub struct ExBytes(bytes::Bytes);

/// The bytes that a buffer holds.
pub uninterp spec fn buffer_content(buffer: bytes::Bytes) -> Seq<u8>;

/// `Bytes::from` on a vector: a buffer holding the vector's bytes.
#[verifier::external_body]
fn buffer_from_vec(data: Vec<u8>) -> (buffer: bytes::Bytes)
    ensures
        buffer_content(buffer) == data@,
{
    bytes::Bytes::from(data)
}

/// `Bytes::clone`: a second handle on the same bytes.
#[verifier::external_body]
fn buffer_clone(buffer: &bytes::Bytes) -> (copy: bytes::Bytes)
    ensures
        buffer_content(copy) == buffer_content(*buffer),
{
    buffer.clone()
}

/// `Bytes::as_ref`: the buffer's bytes as a slice.
#[verifier::external_body]
fn buffer_as_slice(buffer: &bytes::Bytes) -> (slice: &[u8])
    ensures
        slice@ == buffer_content(*buffer),
{
    buffer.as_ref()
}

/// A request body.
#[derive(Debug)]
pub enum Body {
    /// No body.
    Empty,
    /// Bytes in memory; can be sent any number of times.
    Reusable(bytes::Bytes),
    /// A stream held by the caller; can be sent once.
    Streaming,
}

/// What a body is, to contracts.
pub ghost enum BodyView {
    Empty,
    Reusable(Seq<u8>),
    Streaming,
}

impl View for Body {
    type V = BodyView;

    open spec fn view(&self) -> BodyView {
        match self {
            Body::Empty => BodyView::Empty,
            Body::Reusable(b) => BodyView::Reusable(buffer_content(*b)),
            Body::Streaming => BodyView::Streaming,
        }
    }
}

/// The bytes kept of a request's body so that it can be sent again.
///
/// `None` stands for a request without a body, `Some(None)` for a body that
/// cannot be sent again, `Some(Some(b))` for one held in memory.
pub open spec fn snapshot_view(snapshot: Option<Option<bytes::Bytes>>) -> Option<Option<Seq<u8>>> {
    match snapshot {
        None => None,
        Some(None) => Some(None),
        Some(Some(b)) => Some(Some(buffer_content(b))),
    }
}

/// The body that a request with the given snapshot is sent with when it is
/// sent again: the kept bytes, or nothing.
pub open spec fn resend_body(snapshot: Option<Option<Seq<u8>>>) -> BodyView {
    match snapshot {
        Some(Some(b)) => BodyView::Reusable(b),
        _ => BodyView::Empty,
    }
}

/// Copies a snapshot.
pub fn copy_snapshot(snapshot: &Option<Option<bytes::Bytes>>) -> (copy: Option<Option<bytes::Bytes>>)
    ensures
        snapshot_view(copy) == snapshot_view(*snapshot),
{
    match snapshot {
        None => None,
        Some(None) => Some(None),
        Some(Some(b)) => Some(Some(buffer_clone(b))),
    }
}

impl Body {
    /// The empty body.
    pub fn empty() -> (body: Body)
        ensures
            body@ == BodyView::Empty,
    {
        Body::Empty
    }

    /// A body of bytes in memory.
    pub fn reusable(bytes: bytes::Bytes) -> (body: Body)
        ensures
            body@ == BodyView::Reusable(buffer_content(bytes)),
    {
        Body::Reusable(bytes)
    }

    /// A body of the given bytes.
    pub fn from_vec(data: Vec<u8>) -> (body: Body)
        ensures
            body@ == BodyView::Reusable(data@),
    {
        Body::Reusable(buffer_from_vec(data))
    }

    /// A body that the caller streams.
    pub fn streaming() -> (body: Body)
        ensures
            body@ == BodyView::Streaming,
    {
        Body::Streaming
    }

    /// Whether the body can be sent again.
    pub open spec fn spec_is_reusable(&self) -> bool {
        !(self@ is Streaming)
    }

    #[verifier::when_used_as_spec(spec_is_reusable)]
    pub fn is_reusable(&self) -> (b: bool)
        ensures
            b == self.spec_is_reusable(),
    {
        match self {
            Body::Streaming => false,
            _ => true,
        }
    }

    /// The bytes of a body held in memory.
    pub fn as_bytes(&self) -> (bytes: Option<&[u8]>)
        ensures
            match self@ {
                BodyView::Reusable(b) => bytes is Some && bytes->0@ == b,
                _ => bytes is None,
            },
    {
        match self {
            Body::Reusable(b) => Some(buffer_as_slice(b)),
            _ => None,
        }
    }

    /// A second body with the same content, where the body can be sent again.
    pub fn try_clone(&self) -> (copy: Option<Body>)
        ensures
            self@ is Streaming ==> copy is None,
            !(self@ is Streaming) ==> copy is Some && copy->0@ == self@,
    {
        match self {
            Body::Empty => Some(Body::Empty),
            Body::Reusable(b) => Some(Body::Reusable(buffer_clone(b))),
            Body::Streaming => None,
        }
    }

    /// Splits a body into the bytes to keep for sending it again, if it has
    /// any, and the body to send now.
    pub fn try_reuse(self) -> (parts: (Option<bytes::Bytes>, Body))
        ensures
            parts.1@ == self@,
            match self@ {
                BodyView::Reusable(b) => parts.0 is Some && buffer_content(parts.0->0) == b,
                _ => parts.0 is None,
            },
    {
        match self {
            Body::Reusable(b) => {
                let kept = buffer_clone(&b);
                (Some(kept), Body::Reusable(b))
            },
            Body::Empty => (None, Body::Empty),
            Body::Streaming => (None, Body::Streaming),
        }
    }
}

/// The body to send when a request with the given snapshot is sent again.
pub fn body_from_snapshot(snapshot: &Option<Option<bytes::Bytes>>) -> (body: Body)
    ensures
        body@ == resend_body(snapshot_view(*snapshot)),
{
    match snapshot {
        Some(Some(b)) => Body::Reusable(buffer_clone(b)),
        _ => Body::Empty,
    }
}

/// What is kept of the body of a request so that it can be sent again:
/// nothing for a request without body or with an empty one, the bytes of a
/// body held in memory, and a mark for a body that can be sent once only.
pub open spec fn kept_body(body: Option<Body>) -> Option<Option<Seq<u8>>> {
    match body {
        None => None,
        Some(b) => match b@ {
            BodyView::Empty => None,
            BodyView::Reusable(bytes) => Some(Some(bytes)),
            BodyView::Streaming => Some(None),
        },
    }
}

/// Keeps of the body of a request what is needed to send it again.
pub fn keep_body(body: Option<Body>) -> (snapshot: Option<Option<bytes::Bytes>>)
    ensures
        snapshot_view(snapshot) == kept_body(body),
{
    match body {
        None => None,
        Some(Body::Empty) => None,
        Some(Body::Reusable(b)) => Some(Some(b)),
        Some(Body::Streaming) => Some(None),
    }
}

} // verus!
