//! The outcome of handling one request: a status code and a body.

use vstd::prelude::*;

verus! {

/// Status of a request that was handled successfully.
pub const STATUS_OK: u16 = 200;

/// Status of a request whose payload could not be decoded.
pub const STATUS_BAD_REQUEST: u16 = 400;

/// Status of a request that failed in the store.
pub const STATUS_INTERNAL_SERVER_ERROR: u16 = 500;

/// What the server answers to one request.
#[derive(Debug)]
pub struct HttpOutcome {
    pub status: u16,
    pub body: Vec<u8>,
}

impl HttpOutcome {
    /// Whether the status lies in the range of successes, 200 to 299.
    pub open spec fn spec_is_success(&self) -> bool {
        200 <= self.status < 300
    }

    /// An answer with the given status and an empty body.
    pub fn with_status(status: u16) -> (out: HttpOutcome)
        ensures
            out.status == status,
            out.body@ == Seq::<u8>::empty(),
    {
        HttpOutcome { status, body: Vec::new() }
    }

    /// The status code of the answer.
    pub fn status(&self) -> (s: u16)
        ensures
            s == self.status,
    {
        self.status
    }

    /// The length of the body, as the content-length header announces it.
    pub fn content_length(&self) -> (n: usize)
        ensures
            n == self.body@.len(),
    {
        self.body.len()
    }

    /// Whether the request succeeded.
    #[verifier::when_used_as_spec(spec_is_success)]
    pub fn is_success(&self) -> (b: bool)
        ensures
            b == self.spec_is_success(),
    {
        200 <= self.status && self.status < 300
    }
}

} // verus!
