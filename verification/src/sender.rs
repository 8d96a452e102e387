use vstd::prelude::*;

verus! {

/// The outcome of one HTTP delivery attempt: either the numeric response
/// status, or `Unknown` with the transport error's description (connection
/// refused, timeout, DNS, TLS).
#[derive(Debug)]
pub enum Status {
    Numeric(u16),
    Unknown(String),
}

/// Status equality up to string contents.
pub open spec fn same_status(a: Status, b: Status) -> bool {
    match (a, b) {
        (Status::Numeric(x), Status::Numeric(y)) => x == y,
        (Status::Unknown(x), Status::Unknown(y)) => x@ == y@,
        _ => false,
    }
}

/// Delivered means a numeric HTTP status in `[200, 299]`.
pub open spec fn spec_is_delivered(s: Status) -> bool {
    match s {
        Status::Numeric(n) => 200 <= n && n <= 299,
        Status::Unknown(_) => false,
    }
}

impl Status {
    /// Delivered exactly for numeric statuses in `[200, 299]`: `299` is
    /// delivered, `300` is not, `Unknown` never is.
    pub fn is_delivered(&self) -> (r: bool)
        ensures
            r == spec_is_delivered(*self),
    {
        match self {
            Status::Numeric(n) => 200 <= *n && *n <= 299,
            Status::Unknown(_) => false,
        }
    }
}

impl PartialEq for Status {
    fn eq(&self, other: &Self) -> (r: bool) {
        match (self, other) {
            (Status::Numeric(x), Status::Numeric(y)) => *x == *y,
            (Status::Unknown(x), Status::Unknown(y)) => *x == *y,
            _ => false,
        }
    }
}

impl vstd::std_specs::cmp::PartialEqSpecImpl for Status {
    open spec fn obeys_eq_spec() -> bool {
        true
    }

    open spec fn eq_spec(&self, other: &Self) -> bool {
        same_status(*self, *other)
    }
}

impl Clone for Status {
    fn clone(&self) -> (r: Self)
        ensures
            same_status(r, *self),
    {
        match self {
            Status::Numeric(n) => Status::Numeric(*n),
            Status::Unknown(s) => Status::Unknown(s.clone()),
        }
    }
}

/// `Option<String>` equality up to string contents.
pub open spec fn same_opt_string(a: Option<String>, b: Option<String>) -> bool {
    match (a, b) {
        (Some(x), Some(y)) => x@ == y@,
        (None, None) => true,
        _ => false,
    }
}

/// What one delivery attempt produced: the status, the wall-clock time the
/// request took in milliseconds, and the response body where one was read.
#[derive(Debug)]
pub struct SentResult {
    pub status: Status,
    pub response_time: u64,
    pub body: Option<String>,
}

impl SentResult {
    /// A result that carries a response body.
    pub fn with_body(status: Status, response_time: u64, body: String) -> (r: Self)
        ensures
            r.status == status,
            r.response_time == response_time,
            r.body == Some(body),
    {
        SentResult { status, response_time, body: Some(body) }
    }

    /// A result without a response body (a transport error reads none).
    pub fn without_body(status: Status, response_time: u64) -> (r: Self)
        ensures
            r.status == status,
            r.response_time == response_time,
            r.body is None,
    {
        SentResult { status, response_time, body: None }
    }
}

impl Clone for SentResult {
    fn clone(&self) -> (r: Self)
        ensures
            same_status(r.status, self.status),
            r.response_time == self.response_time,
            same_opt_string(r.body, self.body),
    {
        SentResult {
            status: self.status.clone(),
            response_time: self.response_time,
            body: match &self.body {
                Some(b) => Some(b.clone()),
                None => None,
            },
        }
    }
}

/// Classifies an HTTP response the way the sender reports it: a `2xx` status
/// is a success (`Ok`), any other status a failure (`Err`); either way the
/// numeric status, the measured time and the body are kept.  A transport
/// error never reaches this function: it becomes
/// `Err(SentResult::without_body(Status::Unknown(reason), t))` at the caller.
pub fn classify_response(status_code: u16, response_time: u64, body: String) -> (r: Result<
    SentResult,
    SentResult,
>)
    ensures
        200 <= status_code <= 299 ==> (r matches Ok(res) && res.status == Status::Numeric(
            status_code,
        ) && res.response_time == response_time && res.body == Some(body)),
        !(200 <= status_code <= 299) ==> (r matches Err(res) && res.status == Status::Numeric(
            status_code,
        ) && res.response_time == response_time && res.body == Some(body)),
{
    if 200 <= status_code && status_code <= 299 {
        Ok(SentResult::with_body(Status::Numeric(status_code), response_time, body))
    } else {
        Err(SentResult::with_body(Status::Numeric(status_code), response_time, body))
    }
}

} // verus!
