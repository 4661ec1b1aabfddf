use vstd::prelude::*;

use crate::http::{empty_reply, HttpReply, OK};

verus! {

/// Answers `GET /health_check`: always 200 with an empty body.
pub fn health_check() -> (reply: HttpReply)
    ensures
        reply == empty_reply(OK),
{
    HttpReply::empty(OK)
}

} // verus!
