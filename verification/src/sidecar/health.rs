//! Interpreting the answer to one health request.
//!
//! The request itself is made by the caller: one GET with a bounded
//! timeout. What came back is handed over as a [`HealthReply`].

use vstd::prelude::*;
use vstd::string::*;

verus! {

/// Seconds after which a single health request is abandoned.
pub const HEALTH_REQUEST_TIMEOUT_SECS: u64 = 5;

/// The body of a health answer.
#[derive(Debug)]
pub struct HealthResponse {
    pub status: String,
    pub version: Option<String>,
}

/// Whether a status text reports a healthy backend: exactly "healthy" or
/// "ok", in lower case.
pub open spec fn healthy_status(status: Seq<char>) -> bool {
    status == "healthy"@ || status == "ok"@
}

impl HealthResponse {
    /// Whether the body reports a healthy backend.
    pub fn is_healthy(&self) -> (healthy: bool)
        ensures
            healthy == healthy_status(self.status@),
    {
        let healthy = "healthy".to_owned();
        let ok = "ok".to_owned();
        self.status == healthy || self.status == ok
    }
}

/// Whether an HTTP status code is a success: 200 to 299.
pub open spec fn success_code(code: u16) -> bool {
    200 <= code < 300
}

/// Whether an HTTP status code is a success: 200 to 299.
pub fn is_success_code(code: u16) -> (success: bool)
    ensures
        success == success_code(code),
{
    200 <= code && code < 300
}

/// What one health request came to.
#[derive(Debug)]
pub enum HealthReply {
    /// No answer arrived: the connection failed or the request timed out.
    Unreachable { reason: String },
    /// The server answered with `code`. `body` is the decoded JSON body, or
    /// why it could not be decoded; it is only read for a success code.
    Answered { code: u16, body: Result<HealthResponse, String> },
}

/// The verdict on one health request.
///
/// `Ok(true)`: a success code and a body whose status is healthy.
/// `Ok(false)`: the server is up and says otherwise, by a non-success code
/// or by another status text. `Err`: the server could not be reached, or a
/// success answer had no decodable body; the error is the reason given.
pub open spec fn health_verdict(reply: HealthReply) -> Result<bool, String> {
    match reply {
        HealthReply::Unreachable { reason } => Err(reason),
        HealthReply::Answered { code, body } => if !success_code(code) {
            Ok(false)
        } else {
            match body {
                Ok(response) => Ok(healthy_status(response.status@)),
                Err(reason) => Err(reason),
            }
        },
    }
}

/// Interprets the answer to one health request.
pub fn check_health(reply: HealthReply) -> (verdict: Result<bool, String>)
    ensures
        verdict == health_verdict(reply),
{
    match reply {
        HealthReply::Unreachable { reason } => Err(reason),
        HealthReply::Answered { code, body } => {
            if !is_success_code(code) {
                return Ok(false);
            }
            match body {
                Ok(response) => Ok(response.is_healthy()),
                Err(reason) => Err(reason),
            }
        },
    }
}

} // verus!
