//! Redirect policy.
//!
//! A policy is asked before each hop and answers with an [`ActionKind`]. The
//! built-in policies either refuse every hop or follow up to a fixed number
//! of them; with a policy of the caller's own the hop is handed to the
//! caller, who answers. [`Policy::remove_sensitive_headers`] strips what must not travel
//! to another origin.

use vstd::prelude::*;
use crate::error::Cause;
use crate::header::AUTHORIZATION;
use crate::header::COOKIE;
use crate::header::PROXY_AUTHORIZATION;
use crate::header::WWW_AUTHENTICATE;
use crate::header::header_fields;
use crate::header::lemma_known_names;
use crate::header::remove_header;
use crate::method::Method;
use crate::status::StatusCode;
use crate::url::Url;
use crate::url::UrlView;
use crate::url::same_origin;

verus! {

/// The answer of a redirect policy.
#[derive(Clone, Copy, Debug, PartialEq, Eq, Structural)]
pub enum ActionKind {
    /// Send the next request.
    Follow,
    /// Hand the redirect response to the caller.
    Stop,
    /// End the request with a redirect error of this cause.
    Error(Cause),
}

/// What a redirect policy is told about the hop it judges.
#[derive(Debug)]
pub struct Attempt {
    /// The status of the redirect response.
    pub status: StatusCode,
    /// The method of the next request.
    pub next_method: Method,
    /// The URL of the next request.
    pub next: Url,
    /// The method of the request that was redirected.
    pub previous_method: Method,
    /// The URLs requested so far, oldest first; the last is the URL that was
    /// redirected.
    pub previous: Vec<Url>,
}

/// A built-in redirect policy.
#[derive(Clone, Copy, Debug, PartialEq, Eq, Structural)]
pub enum Policy {
    /// Follow no redirect.
    Never,
    /// Follow as long as no more than this many URLs have been requested.
    Limit(usize),
    /// A policy of the caller's own: the caller is asked for the verdict
    /// on each hop.
    Custom,
}

/// The number of hops the default policy follows.
pub const DEFAULT_MAX_REDIRECTS: usize = 10;

impl Policy {
    /// A policy that follows up to `max` hops and then fails with
    /// [`Cause::TooManyRedirects`].
    pub fn limited(max: usize) -> (policy: Policy)
        ensures
            policy == Policy::Limit(max),
    {
        Policy::Limit(max)
    }

    /// A policy that follows no redirect.
    pub fn none() -> (policy: Policy)
        ensures
            policy == Policy::Never,
    {
        Policy::Never
    }

    /// A policy of the caller's own. The request hands each hop to the
    /// caller, who answers with the verdict.
    pub fn custom() -> (policy: Policy)
        ensures
            policy == Policy::Custom,
    {
        Policy::Custom
    }

    /// The policy's answer when `requested` URLs have been requested so far,
    /// the redirected one included; none where the policy is the caller's
    /// own.
    pub open spec fn verdict(&self, requested: nat) -> Option<ActionKind> {
        match self {
            Policy::Never => Some(ActionKind::Stop),
            Policy::Limit(max) => if requested > *max {
                Some(ActionKind::Error(Cause::TooManyRedirects))
            } else {
                Some(ActionKind::Follow)
            },
            Policy::Custom => None,
        }
    }

    /// Judges a hop. The built-in policies decide by the number of URLs
    /// requested so far alone; a policy of the caller's own gives no answer
    /// here.
    pub fn check(
        &self,
        status: StatusCode,
        next_method: Method,
        next: &Url,
        previous_method: Method,
        previous: &Vec<Url>,
    ) -> (action: Option<ActionKind>)
        ensures
            action == self.verdict(previous@.len()),
    {
        match self {
            Policy::Never => Some(ActionKind::Stop),
            Policy::Limit(max) => {
                if previous.len() > *max {
                    Some(ActionKind::Error(Cause::TooManyRedirects))
                } else {
                    Some(ActionKind::Follow)
                }
            },
            Policy::Custom => None,
        }
    }

    /// Judges the hop that `attempt` describes.
    pub fn redirect(&self, attempt: &Attempt) -> (action: Option<ActionKind>)
        ensures
            action == self.verdict(attempt.previous@.len()),
    {
        self.check(
            attempt.status,
            attempt.next_method,
            &attempt.next,
            attempt.previous_method,
            &attempt.previous,
        )
    }

    /// Removes `Authorization`, `Cookie`, `Proxy-Authorization` and
    /// `WWW-Authenticate` from `headers` when `next` has another origin than
    /// the last of `previous`. Otherwise, and when `previous` is empty, the
    /// headers stay as they are.
    pub fn remove_sensitive_headers(headers: &mut http::HeaderMap, next: &Url, previous: &Vec<Url>)
        ensures
            header_fields(*final(headers)) == if crosses_origin(next@, previous@) {
                without_sensitive(header_fields(*old(headers)))
            } else {
                header_fields(*old(headers))
            },
    {
        if previous.len() > 0 {
            let last = &previous[previous.len() - 1];
            if !next.same_origin(last) {
                proof {
                    lemma_known_names();
                }
                remove_header(headers, AUTHORIZATION);
                remove_header(headers, COOKIE);
                remove_header(headers, PROXY_AUTHORIZATION);
                remove_header(headers, WWW_AUTHENTICATE);
            }
        }
    }
}

impl Default for Policy {
    /// The default policy follows up to ten hops.
    fn default() -> (policy: Policy)
        ensures
            policy == Policy::Limit(DEFAULT_MAX_REDIRECTS),
    {
        Policy::Limit(DEFAULT_MAX_REDIRECTS)
    }
}

/// Whether a request for `next` that follows the requests for `previous`
/// leaves the origin of the last of them.
pub open spec fn crosses_origin(next: UrlView, previous: Seq<Url>) -> bool {
    previous.len() > 0 && !same_origin(next, previous.last()@)
}

/// The fields left when the headers that must not travel to another origin
/// are removed.
pub open spec fn without_sensitive(fields: Map<Seq<char>, Seq<Seq<u8>>>) -> Map<
    Seq<char>,
    Seq<Seq<u8>>,
> {
    fields.remove(AUTHORIZATION@).remove(COOKIE@).remove(PROXY_AUTHORIZATION@).remove(
        WWW_AUTHENTICATE@,
    )
}

} // verus!
