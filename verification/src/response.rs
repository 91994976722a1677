//! The uniform terminal outcome of request handling: a status code and a
//! short plain body.

use vstd::prelude::*;

verus! {

/// One HTTP-shaped outcome: a status code plus a short string body.
#[derive(Debug)]
pub struct Response {
    pub status: u16,
    pub body: String,
}

impl Response {
    /// A response with the given status and body text.
    pub fn of(status: u16, body: &str) -> (r: Response)
        ensures
            r.status == status,
            r.body@ == body@,
    {
        Response { status, body: body.to_owned() }
    }
}

} // verus!
