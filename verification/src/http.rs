use vstd::prelude::*;

use crate::routes::subscriptions::Subscriber;

verus! {

/// Status code of a successful request.
pub const OK: u16 = 200;

/// Status code of a request whose payload the service refuses.
pub const BAD_REQUEST: u16 = 400;

/// Status code of a request that failed inside the service.
pub const INTERNAL_SERVER_ERROR: u16 = 500;

/// What a reply carries besides its status.
#[derive(Debug, PartialEq, Eq)]
pub enum ReplyBody {
    /// No body at all (content length 0).
    Empty,
    /// The stored subscribers, sent as a JSON list.
    Subscribers(Vec<Subscriber>),
}

/// A reply of the service: a status code and a body.
#[derive(Debug, PartialEq, Eq)]
pub struct HttpReply {
    pub status: u16,
    pub body: ReplyBody,
}

/// A reply with the given status and no body.
pub open spec fn empty_reply(status: u16) -> HttpReply {
    HttpReply { status, body: ReplyBody::Empty }
}

impl HttpReply {
    /// A reply with `status` and no body.
    pub fn empty(status: u16) -> (reply: HttpReply)
        ensures
            reply == empty_reply(status),
    {
        HttpReply { status, body: ReplyBody::Empty }
    }

    /// Whether the status is in the success class (2xx).
    pub fn is_success(&self) -> (b: bool)
        ensures
            b == (200 <= self.status < 300),
    {
        200 <= self.status && self.status < 300
    }

    /// The number of body bytes when the body is empty; `None` when the
    /// body is a JSON document, whose length the caller's encoder decides.
    pub fn content_length(&self) -> (len: Option<usize>)
        ensures
            len == (match self.body {
                ReplyBody::Empty => Some(0usize),
                ReplyBody::Subscribers(_) => None,
            }),
    {
        match &self.body {
            ReplyBody::Empty => Some(0),
            ReplyBody::Subscribers(_) => None,
        }
    }
}

} // verus!
