use vstd::prelude::*;

verus! {

/// When a server asks to be tried again.
#[derive(Debug, PartialEq, Eq)]
pub enum RetryAfter {
    /// After this many seconds.
    Seconds(u64),
    /// At this HTTP date, which only a wall clock resolves.
    HttpDate(String),
}

impl RetryAfter {
    /// The delay in milliseconds, when no wall clock is needed to tell it.
    pub open spec fn millis(self) -> Option<int> {
        match self {
            RetryAfter::Seconds(seconds) => Some(seconds * 1000),
            RetryAfter::HttpDate(_) => None,
        }
    }

    /// The delay in milliseconds, when no wall clock is needed to tell it and it fits.
    pub fn to_millis(&self) -> (millis: Option<u64>)
        ensures
            match self.millis() {
                Some(delay) => if delay <= u64::MAX {
                    millis == Some(delay as u64)
                } else {
                    millis is None
                },
                None => millis is None,
            },
    {
        match self {
            Self::Seconds(seconds) => seconds.checked_mul(1000),
            Self::HttpDate(_) => None,
        }
    }
}

/// An HTTP response, as the transport hands it over.
#[derive(Debug, PartialEq, Eq)]
pub struct HttpResponse {
    /// The status code.
    pub status: u16,
    /// The body.
    pub body: Vec<u8>,
    /// The `Retry-After` header, when the response has one.
    pub retry_after: Option<RetryAfter>,
}

/// Whether `status` reports success.
pub open spec fn success_status(status: u16) -> bool {
    200 <= status < 300
}

impl HttpResponse {
    /// A response without a `Retry-After` header.
    pub fn new(status: u16, body: Vec<u8>) -> (response: Self)
        ensures
            response == (HttpResponse { status, body, retry_after: None }),
    {
        Self { status, body, retry_after: None }
    }

    /// This response with the given `Retry-After` header.
    pub fn with_retry_after(self, retry_after: Option<RetryAfter>) -> (response: Self)
        ensures
            response == (HttpResponse { status: self.status, body: self.body, retry_after }),
    {
        Self { status: self.status, body: self.body, retry_after }
    }

    /// Whether the status reports success.
    pub fn is_success(&self) -> (success: bool)
        ensures
            success == success_status(self.status),
    {
        200 <= self.status && self.status < 300
    }
}

} // verus!
