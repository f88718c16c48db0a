//! The kinds of failure that a request can end in.

use vstd::prelude::*;

verus! {

/// A failure as the client sees it.
#[derive(Debug)]
pub enum ResponseError {
    /// A credential or the pre-shared key is missing or wrong.
    Unauthorized(String),
    /// The upstream refused a login, refresh or revoke exchange.
    BadRequest(String),
    /// Serialising, a date out of range, or another failure of this process.
    InternalServerError(String),
    /// The session has run out: the client is sent to the given place to
    /// authenticate again.
    TemporaryRedirect(String),
    /// The upstream, or the queue before it, took too long.
    Timeout,
    /// The upstream could not be reached.
    BadGateway,
}

impl ResponseError {
    /// The HTTP status that stands for a kind of failure.
    pub open spec fn status_of(self) -> int {
        match self {
            ResponseError::Unauthorized(_) => 401,
            ResponseError::BadRequest(_) => 400,
            ResponseError::InternalServerError(_) => 500,
            ResponseError::TemporaryRedirect(_) => 307,
            ResponseError::Timeout => 408,
            ResponseError::BadGateway => 502,
        }
    }

    /// The HTTP status to answer with.
    pub fn status(&self) -> (code: u16)
        ensures
            code == self.status_of(),
    {
        match self {
            ResponseError::Unauthorized(_) => 401,
            ResponseError::BadRequest(_) => 400,
            ResponseError::InternalServerError(_) => 500,
            ResponseError::TemporaryRedirect(_) => 307,
            ResponseError::Timeout => 408,
            ResponseError::BadGateway => 502,
        }
    }

    /// The text that goes with a failure: its message, or the place to go to
    /// for a redirect. Timeouts and unreachable upstreams carry none.
    pub open spec fn detail_of(self) -> Seq<char> {
        match self {
            ResponseError::Unauthorized(m) => m@,
            ResponseError::BadRequest(m) => m@,
            ResponseError::InternalServerError(m) => m@,
            ResponseError::TemporaryRedirect(place) => place@,
            ResponseError::Timeout => Seq::empty(),
            ResponseError::BadGateway => Seq::empty(),
        }
    }

    /// The text that goes with the failure: its message, or the place to go
    /// to for a redirect. Timeouts and unreachable upstreams carry none.
    pub fn detail(&self) -> (text: &str)
        ensures
            text@ == self.detail_of(),
    {
        proof {
            reveal_strlit("");
            assert(""@ =~= Seq::<char>::empty());
        }
        match self {
            ResponseError::Unauthorized(m) => m.as_str(),
            ResponseError::BadRequest(m) => m.as_str(),
            ResponseError::InternalServerError(m) => m.as_str(),
            ResponseError::TemporaryRedirect(place) => place.as_str(),
            ResponseError::Timeout => "",
            ResponseError::BadGateway => "",
        }
    }
}

/// How a call to the upstream ended without an answer.
#[derive(Clone, Copy, Debug, PartialEq, Eq, Structural)]
pub enum UpstreamFault {
    /// No connection could be made.
    Unreachable,
    /// No answer came in time.
    TimedOut,
}

/// The failure that a fault of the upstream call surfaces as.
pub fn fault_error(fault: UpstreamFault) -> (error: ResponseError)
    ensures
        error == (match fault {
            UpstreamFault::Unreachable => ResponseError::BadGateway,
            UpstreamFault::TimedOut => ResponseError::Timeout,
        }),
{
    match fault {
        UpstreamFault::Unreachable => ResponseError::BadGateway,
        UpstreamFault::TimedOut => ResponseError::Timeout,
    }
}

} // verus!
