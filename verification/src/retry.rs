//! Retrying after HTTP/2 failures that are safe to retry.
//!
//! Two failures are safe to retry on a fresh connection: a graceful shutdown
//! (`GOAWAY` with `NO_ERROR`) and a refused stream (`RST_STREAM` with
//! `REFUSED_STREAM`), both sent by the peer. Every other failure ends the
//! request.

use vstd::prelude::*;
use crate::body::Body;

verus! {

/// The HTTP/2 error code `NO_ERROR`.
pub const NO_ERROR: u32 = 0;

/// The HTTP/2 error code `REFUSED_STREAM`.
pub const REFUSED_STREAM: u32 = 7;

/// What the HTTP/2 layer reports of a failure.
#[derive(Clone, Copy, Debug, PartialEq, Eq, Structural)]
pub struct H2Error {
    /// The failure is a `GOAWAY` frame.
    pub is_go_away: bool,
    /// The failure is a `RST_STREAM` frame.
    pub is_reset: bool,
    /// The frame came from the peer.
    pub is_remote: bool,
    /// The error code the frame carried.
    pub reason: Option<u32>,
}

/// One link in the chain of causes beneath a transport error.
#[derive(Clone, Copy, Debug, PartialEq, Eq, Structural)]
pub enum CauseLink {
    /// A failure of the HTTP/2 layer.
    H2(H2Error),
    /// Any other failure.
    Other,
}

/// A transport error: the chain of causes beneath it, the immediate cause
/// first.
#[derive(Debug)]
pub struct TransportError {
    pub chain: Vec<CauseLink>,
}

/// A request as the retry policy sees it.
#[derive(Debug)]
pub struct RetryRequest {
    pub body: Body,
}

impl H2Error {
    /// Whether the failure is safe to retry: a `GOAWAY` with `NO_ERROR` or a
    /// `RST_STREAM` with `REFUSED_STREAM`, sent by the peer.
    pub open spec fn spec_is_retryable(&self) -> bool {
        ||| self.is_go_away && self.is_remote && self.reason == Some(NO_ERROR)
        ||| self.is_reset && self.is_remote && self.reason == Some(REFUSED_STREAM)
    }

    #[verifier::when_used_as_spec(spec_is_retryable)]
    pub fn is_retryable(&self) -> (b: bool)
        ensures
            b == self.spec_is_retryable(),
    {
        let code_is_no_error = match self.reason {
            Some(code) => code == NO_ERROR,
            None => false,
        };
        let code_is_refused = match self.reason {
            Some(code) => code == REFUSED_STREAM,
            None => false,
        };
        (self.is_go_away && self.is_remote && code_is_no_error) || (self.is_reset && self.is_remote
            && code_is_refused)
    }
}

/// Whether the chain of causes names, one level beneath the immediate cause,
/// an HTTP/2 failure that is safe to retry.
pub open spec fn retryable_chain(chain: Seq<CauseLink>) -> bool {
    chain.len() >= 2 && (chain[1] matches CauseLink::H2(e) && e.is_retryable())
}

/// Whether a transport error may be answered by sending the request again.
pub fn is_retryable_error(err: &TransportError) -> (b: bool)
    ensures
        b == retryable_chain(err.chain@),
{
    if err.chain.len() < 2 {
        return false;
    }
    match err.chain[1] {
        CauseLink::H2(e) => e.is_retryable(),
        CauseLink::Other => false,
    }
}

/// A retry policy with a bounded number of attempts.
#[derive(Clone, Copy, Debug, PartialEq, Eq, Structural)]
pub struct Http2RetryPolicy(pub usize);

impl Http2RetryPolicy {
    /// A policy that retries up to `attempts` times.
    pub fn new(attempts: usize) -> (policy: Self)
        ensures
            policy.0 == attempts,
    {
        Http2RetryPolicy(attempts)
    }

    /// The attempts that are left.
    pub fn attempts_left(&self) -> (n: usize)
        ensures
            n == self.0,
    {
        self.0
    }

    /// Whether a transport error may be answered by sending the request
    /// again.
    pub fn is_retryable_error(&self, err: &TransportError) -> (b: bool)
        ensures
            b == retryable_chain(err.chain@),
    {
        is_retryable_error(err)
    }

    /// Decides whether to send the request again after `failure`, the error
    /// the exchange ended in, if it ended in one. A retry is granted when the
    /// failure is safe to retry and an attempt is left, and uses up one
    /// attempt.
    pub fn retry(&mut self, failure: Option<&TransportError>) -> (again: bool)
        ensures
            again == (failure matches Some(e) && retryable_chain(e.chain@) && old(self).0 > 0),
            final(self).0 == if again {
                old(self).0 - 1
            } else {
                old(self).0 as int
            },
    {
        match failure {
            Some(err) => {
                if self.is_retryable_error(err) && self.0 > 0 {
                    self.0 = self.0 - 1;
                    true
                } else {
                    false
                }
            },
            None => false,
        }
    }

    /// The request to send on a retry: a copy of `req`, where its body can be
    /// sent again.
    pub fn clone_request(&self, req: &RetryRequest) -> (copy: Option<RetryRequest>)
        ensures
            copy is Some == req.body.is_reusable(),
            copy matches Some(r) ==> r.body@ == req.body@,
    {
        match req.body.try_clone() {
            Some(body) => Some(RetryRequest { body }),
            None => None,
        }
    }
}

/// Whether `budgets` and `granted` are the attempts left and the answers in
/// a row of calls of [`Http2RetryPolicy::retry`], each with a failure that
/// is safe to retry: a retry is granted while an attempt is left, and uses
/// it up.
pub open spec fn is_retry_row(budgets: Seq<usize>, granted: Seq<bool>) -> bool {
    &&& budgets.len() == granted.len() + 1
    &&& forall|i: int|
        0 <= i < granted.len() ==> (#[trigger] granted[i]) == (budgets[i] > 0) && budgets[i + 1]
            == if granted[i] {
            budgets[i] - 1
        } else {
            budgets[i] as int
        }
}

/// The number of retries granted in a row of answers.
pub open spec fn retries_granted(granted: Seq<bool>) -> nat
    decreases granted.len(),
{
    if granted.len() == 0 {
        0
    } else {
        retries_granted(granted.drop_last()) + if granted.last() {
            1nat
        } else {
            0nat
        }
    }
}

/// In a row of calls with failures that are safe to retry, a policy that
/// began with `m` attempts grants as many retries as there were calls, but
/// `m` at most: after `m` retries every further call is refused.
pub proof fn lemma_retries_granted(budgets: Seq<usize>, granted: Seq<bool>)
    requires
        is_retry_row(budgets, granted),
    ensures
        retries_granted(granted) == if granted.len() <= budgets[0] {
            granted.len()
        } else {
            budgets[0] as nat
        },
        budgets.last() == budgets[0] - retries_granted(granted),
    decreases granted.len(),
{
    if granted.len() > 0 {
        let n = granted.len() - 1;
        let earlier_budgets = budgets.drop_last();
        let earlier = granted.drop_last();
        assert forall|i: int| 0 <= i < earlier.len() implies (#[trigger] earlier[i]) == (
        earlier_budgets[i] > 0) && earlier_budgets[i + 1] == if earlier[i] {
            earlier_budgets[i] - 1
        } else {
            earlier_budgets[i] as int
        } by {
            assert(granted[i] == (budgets[i] > 0));
        }
        lemma_retries_granted(earlier_budgets, earlier);
        assert(earlier_budgets.last() == budgets[n]);
        assert(granted[n] == (budgets[n] > 0));
    }
}

} // verus!
