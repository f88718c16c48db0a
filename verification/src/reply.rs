//! Answers as plain values: a status, headers in order, and a body.

use crate::route::{pairs, Header};
pub use crate::route::CONTENT_TYPE;
use vstd::prelude::*;

verus! {

/// The name of the header that says where to go.
pub const LOCATION: &'static str = "location";

/// The name of the header that sets a cookie.
pub const SET_COOKIE: &'static str = "set-cookie";

/// The content type of a JSON body.
pub const JSON: &'static str = "application/json";

/// An answer to a request.
pub struct Reply {
    /// The HTTP status.
    pub status: u16,
    /// The headers, in the order in which they are sent.
    pub headers: Vec<Header>,
    /// The body; empty where the answer has none.
    pub body: String,
}

/// An answer as a value of mathematics.
pub struct ReplyModel {
    /// The HTTP status.
    pub status: int,
    /// Names and values of the headers, in order.
    pub headers: Seq<(Seq<char>, Seq<char>)>,
    /// The body.
    pub body: Seq<char>,
}

impl View for Reply {
    type V = ReplyModel;

    open spec fn view(&self) -> ReplyModel {
        ReplyModel { status: self.status as int, headers: pairs(self.headers@), body: self.body@ }
    }
}

impl Reply {
    /// An answer with the given status, no header and no body.
    pub fn new(status: u16) -> (reply: Reply)
        ensures
            reply@ == (ReplyModel {
                status: status as int,
                headers: Seq::empty(),
                body: Seq::empty(),
            }),
    {
        let reply = Reply { status, headers: Vec::new(), body: String::new() };
        assert(pairs(reply.headers@) =~= Seq::empty());
        reply
    }

    /// Adds a header behind those that are there.
    pub fn header(&mut self, name: &str, value: String)
        ensures
            final(self)@ == (ReplyModel {
                headers: old(self)@.headers.push((name@, value@)),
                ..old(self)@
            }),
    {
        let header = Header { name: name.to_owned(), value };
        self.headers.push(header);
        assert(pairs(self.headers@) =~= pairs(old(self).headers@).push(header@));
    }

    /// Sets the body.
    pub fn body(&mut self, body: String)
        ensures
            final(self)@ == (ReplyModel { body: body@, ..old(self)@ }),
    {
        self.body = body;
    }
}

} // verus!
