//! Request deadlines.
//!
//! A request has two deadlines, judged independently: one on the whole
//! exchange and one on the gap between two chunks of the response body. For
//! either, a value set on the request takes the place of the client's.

use vstd::prelude::*;
use std::time::Duration;

verus! {

/// What `Duration::from_secs` makes of a number of seconds.
pub uninterp spec fn duration_from_secs(secs: u64) -> Duration;

/// `Duration::from_secs`: the span of `secs` whole seconds.
#[verifier::external_body]
pub(crate) fn seconds(secs: u64) -> (span: Duration)
    ensures
        span == duration_from_secs(secs),
{
    Duration::from_secs(secs)
}

/// The deadline in force: the request's own where it has one, else the
/// client's.
pub open spec fn effective_timeout(request: Option<Duration>, client: Option<Duration>) -> Option<
    Duration,
> {
    match request {
        Some(d) => Some(d),
        None => client,
    }
}

/// Picks the deadline in force.
pub fn pick_timeout(request: Option<Duration>, client: Option<Duration>) -> (picked: Option<
    Duration,
>)
    ensures
        picked == effective_timeout(request, client),
{
    match request {
        Some(d) => Some(d),
        None => client,
    }
}

/// Puts a deadline on the whole exchange of the service it wraps.
#[derive(Clone, Debug)]
pub struct TotalTimeout<T> {
    inner: T,
    timeout: Option<Duration>,
}

impl<T> TotalTimeout<T> {
    /// Wraps `inner`; `timeout` applies to requests that set none themselves.
    pub fn new(inner: T, timeout: Option<Duration>) -> (layer: Self)
        ensures
            layer.timeout() == timeout,
            layer.inner() == inner,
    {
        TotalTimeout { inner, timeout }
    }

    /// The client-wide deadline.
    pub closed spec fn timeout(&self) -> Option<Duration> {
        self.timeout
    }

    /// The wrapped service.
    pub closed spec fn inner(&self) -> T {
        self.inner
    }

    /// The wrapped service.
    pub fn get_ref(&self) -> (inner: &T)
        ensures
            *inner == self.inner(),
    {
        &self.inner
    }

    /// The deadline for a request that asks for `request_timeout`.
    pub fn call(&self, request_timeout: Option<Duration>) -> (sleep: Option<Duration>)
        ensures
            sleep == effective_timeout(request_timeout, self.timeout()),
    {
        pick_timeout(request_timeout, self.timeout)
    }
}

/// Puts the two deadlines on the response body of the service it wraps.
#[derive(Clone, Debug)]
pub struct ResponseBodyTimeout<S> {
    inner: S,
    read_timeout: Option<Duration>,
    total_timeout: Option<Duration>,
}

/// The two deadlines chosen for one response body.
#[derive(Clone, Copy, Debug)]
pub struct BodyDeadlines {
    pub total_timeout: Option<Duration>,
    pub read_timeout: Option<Duration>,
}

impl<S> ResponseBodyTimeout<S> {
    /// Wraps `inner`; the deadlines apply to requests that set none
    /// themselves.
    pub fn new(inner: S, total_timeout: Option<Duration>, read_timeout: Option<Duration>) -> (layer:
        Self)
        ensures
            layer.total_timeout() == total_timeout,
            layer.read_timeout() == read_timeout,
            layer.inner() == inner,
    {
        ResponseBodyTimeout { inner, read_timeout, total_timeout }
    }

    /// The client-wide deadline on the whole exchange.
    pub closed spec fn total_timeout(&self) -> Option<Duration> {
        self.total_timeout
    }

    /// The client-wide deadline on the gap between two chunks.
    pub closed spec fn read_timeout(&self) -> Option<Duration> {
        self.read_timeout
    }

    /// The wrapped service.
    pub closed spec fn inner(&self) -> S {
        self.inner
    }

    /// The wrapped service.
    pub fn get_ref(&self) -> (inner: &S)
        ensures
            *inner == self.inner(),
    {
        &self.inner
    }

    /// The deadlines for the body of a request that asks for `request_total`
    /// and `request_read`.
    pub fn call(&self, request_total: Option<Duration>, request_read: Option<Duration>) -> (picked:
        BodyDeadlines)
        ensures
            picked.total_timeout == effective_timeout(request_total, self.total_timeout()),
            picked.read_timeout == effective_timeout(request_read, self.read_timeout()),
    {
        BodyDeadlines {
            total_timeout: pick_timeout(request_total, self.total_timeout),
            read_timeout: pick_timeout(request_read, self.read_timeout),
        }
    }
}

} // verus!
