//! The closed set of failures and the classification of HTTP outcomes.

use vstd::prelude::*;
use crate::text::{append_decimal, decimal};

verus! {

#[verifier::external_type_specification]
#[verifier::external_body]
pub struct ExReqwestError(reqwest::Error);

#[verifier::external_type_specification]
#[verifier::external_body]
pub struct ExJsonError(serde_json::Error);

/// All possible errors that can occur when using the ElevenLabs API.
#[derive(Debug)]
pub enum ElevenLabsTTSError {
    /// The HTTP exchange failed before any status was known (network
    /// issues, timeout, etc.).
    RequestError(reqwest::Error),
    /// The API answered with a status that no other variant covers.
    ApiError { status: u16, message: String },
    /// A JSON document could not be read.
    ParseError(serde_json::Error),
    /// Invalid API key: HTTP 401.
    AuthenticationError(String),
    /// Rate limit exceeded: HTTP 429, with the delay the provider asked for,
    /// in seconds, when it gave one.
    RateLimitError { retry_after: Option<u64>, message: String },
    /// Not enough credits: HTTP 402.
    QuotaExceededError(String),
    /// The request was refused before it was sent.
    ValidationError(String),
}

/// `e` is the error for an unsuccessful HTTP `status` whose body reads
/// `message`: 401 is an authentication failure, 429 a rate limit, 402 an
/// exhausted quota, and any other status an API error carrying it.
pub open spec fn classified(
    e: ElevenLabsTTSError,
    status: u16,
    message: Seq<char>,
    retry_after: Option<u64>,
) -> bool {
    if status == 401 {
        e matches ElevenLabsTTSError::AuthenticationError(m) && m@ == message
    } else if status == 429 {
        e matches ElevenLabsTTSError::RateLimitError { retry_after: ra, message: m } && ra
            == retry_after && m@ == message
    } else if status == 402 {
        e matches ElevenLabsTTSError::QuotaExceededError(m) && m@ == message
    } else {
        e matches ElevenLabsTTSError::ApiError { status: st, message: m } && st == status && m@
            == message
    }
}

/// Message of a transport failure with status 401.
pub const INVALID_API_KEY: &'static str = "Invalid API key";

/// Message of a transport failure with status 429.
pub const TOO_MANY_REQUESTS: &'static str = "Too many requests";

/// Message of a transport failure with status 402.
pub const INSUFFICIENT_CREDITS: &'static str = "Insufficient credits";

/// `e` is the error for a failed HTTP exchange that carried `status`, if
/// any, and whose description reads `message`.
pub open spec fn transport_classified(
    e: ElevenLabsTTSError,
    status: Option<u16>,
    message: Seq<char>,
    error: reqwest::Error,
) -> bool {
    match status {
        None => e == ElevenLabsTTSError::RequestError(error),
        Some(s) => if s == 401 {
            e matches ElevenLabsTTSError::AuthenticationError(m) && m@ == INVALID_API_KEY@
        } else if s == 429 {
            e matches ElevenLabsTTSError::RateLimitError { retry_after: None, message: m } && m@
                == TOO_MANY_REQUESTS@
        } else if s == 402 {
            e matches ElevenLabsTTSError::QuotaExceededError(m) && m@ == INSUFFICIENT_CREDITS@
        } else {
            e matches ElevenLabsTTSError::ApiError { status: st, message: m } && st == s && m@
                == message
        },
    }
}

/// Relies on reqwest::Error::status: the HTTP status the error carries, if
/// any, as a number.
#[verifier::external_body]
fn reqwest_error_status(e: &reqwest::Error) -> Option<u16> {
    e.status().map(|s| s.as_u16())
}

/// Relies on reqwest::Error's Display: a description of the failure.
#[verifier::external_body]
fn reqwest_error_text(e: &reqwest::Error) -> String {
    e.to_string()
}

/// Relies on serde_json::Error's Display: a description of the failure.
#[verifier::external_body]
fn json_error_text(e: &serde_json::Error) -> String {
    e.to_string()
}

/// `a` followed by `b`.
fn joined(a: &str, b: &str) -> (r: String)
    ensures
        r@ == a@ + b@,
{
    let mut r = String::from_str(a);
    r.append(b);
    r
}

impl ElevenLabsTTSError {
    /// Classifies an unsuccessful HTTP status: 401 is an authentication
    /// failure, 429 a rate limit, 402 an exhausted quota, any other status an
    /// API error carrying the status and the message.
    pub fn from_status(status: u16, message: String, retry_after: Option<u64>) -> (r: Self)
        ensures
            classified(r, status, message@, retry_after),
    {
        if status == 401 {
            ElevenLabsTTSError::AuthenticationError(message)
        } else if status == 429 {
            ElevenLabsTTSError::RateLimitError { retry_after, message }
        } else if status == 402 {
            ElevenLabsTTSError::QuotaExceededError(message)
        } else {
            ElevenLabsTTSError::ApiError { status, message }
        }
    }

    /// Classifies a failed HTTP exchange from what the transport reported.
    /// One without a `status` is a request error that keeps `error`; 401,
    /// 429 and 402 give their fixed messages; any other status is an API
    /// error carrying it and `message`.
    pub fn from_transport(status: Option<u16>, message: String, error: reqwest::Error) -> (r: Self)
        ensures
            transport_classified(r, status, message@, error),
    {
        match status {
            Some(401) => ElevenLabsTTSError::AuthenticationError(
                String::from_str(INVALID_API_KEY),
            ),
            Some(429) => ElevenLabsTTSError::RateLimitError {
                retry_after: None,
                message: String::from_str(TOO_MANY_REQUESTS),
            },
            Some(402) => ElevenLabsTTSError::QuotaExceededError(
                String::from_str(INSUFFICIENT_CREDITS),
            ),
            Some(s) => ElevenLabsTTSError::ApiError { status: s, message },
            None => ElevenLabsTTSError::RequestError(error),
        }
    }

    /// A one-line human-readable description of the error.
    pub fn to_string(&self) -> (r: String)
        ensures
            match self {
                ElevenLabsTTSError::RequestError(_) => r@.subrange(0, 16) == "Request failed: "@,
                ElevenLabsTTSError::ApiError { status, message } => r@ == "API error ("@
                    + decimal(*status as nat) + "): "@ + message@,
                ElevenLabsTTSError::ParseError(_) => r@.subrange(0, 26)
                    == "Failed to parse response: "@,
                ElevenLabsTTSError::AuthenticationError(m) => r@ == "Authentication failed: "@
                    + m@,
                ElevenLabsTTSError::RateLimitError { retry_after, message } => match retry_after {
                    Some(s) => r@ == "Rate limit exceeded (retry in "@ + decimal(*s as nat)
                        + "s): "@ + message@,
                    None => r@ == "Rate limit exceeded: "@ + message@,
                },
                ElevenLabsTTSError::QuotaExceededError(m) => r@ == "Quota exceeded: "@ + m@,
                ElevenLabsTTSError::ValidationError(m) => r@ == "Validation error: "@ + m@,
            },
    {
        match self {
            ElevenLabsTTSError::RequestError(e) => {
                let t = reqwest_error_text(e);
                proof {
                    reveal_strlit("Request failed: ");
                }
                let r = joined("Request failed: ", t.as_str());
                assert(r@.subrange(0, 16) =~= "Request failed: "@);
                r
            },
            ElevenLabsTTSError::ApiError { status, message } => {
                let mut r = String::from_str("API error (");
                append_decimal(&mut r, *status as u64);
                r.append("): ");
                r.append(message.as_str());
                r
            },
            ElevenLabsTTSError::ParseError(e) => {
                let t = json_error_text(e);
                proof {
                    reveal_strlit("Failed to parse response: ");
                }
                let r = joined("Failed to parse response: ", t.as_str());
                assert(r@.subrange(0, 26) =~= "Failed to parse response: "@);
                r
            },
            ElevenLabsTTSError::AuthenticationError(m) => joined(
                "Authentication failed: ",
                m.as_str(),
            ),
            ElevenLabsTTSError::RateLimitError { retry_after, message } => match retry_after {
                Some(s) => {
                    let mut r = String::from_str("Rate limit exceeded (retry in ");
                    append_decimal(&mut r, *s);
                    r.append("s): ");
                    r.append(message.as_str());
                    r
                },
                None => joined("Rate limit exceeded: ", message.as_str()),
            },
            ElevenLabsTTSError::QuotaExceededError(m) => joined("Quota exceeded: ", m.as_str()),
            ElevenLabsTTSError::ValidationError(m) => joined("Validation error: ", m.as_str()),
        }
    }
}

impl From<reqwest::Error> for ElevenLabsTTSError {
    /// Classifies a transport failure by the HTTP status it carries, if any
    /// (see [`ElevenLabsTTSError::from_transport`]).
    fn from(error: reqwest::Error) -> (r: Self)
        ensures
            match r {
                ElevenLabsTTSError::RequestError(e) => e == error,
                ElevenLabsTTSError::AuthenticationError(m) => m@ == INVALID_API_KEY@,
                ElevenLabsTTSError::RateLimitError { retry_after, message } => retry_after is None
                    && message@ == TOO_MANY_REQUESTS@,
                ElevenLabsTTSError::QuotaExceededError(m) => m@ == INSUFFICIENT_CREDITS@,
                ElevenLabsTTSError::ApiError { status, .. } => status != 401 && status != 429
                    && status != 402,
                ElevenLabsTTSError::ParseError(_) | ElevenLabsTTSError::ValidationError(_) => false,
            },
    {
        let status = reqwest_error_status(&error);
        let message = reqwest_error_text(&error);
        ElevenLabsTTSError::from_transport(status, message, error)
    }
}

impl vstd::std_specs::convert::FromSpecImpl<reqwest::Error> for ElevenLabsTTSError {
    open spec fn obeys_from_spec() -> bool {
        false
    }

    open spec fn from_spec(v: reqwest::Error) -> Self {
        ElevenLabsTTSError::RequestError(v)
    }
}

impl From<serde_json::Error> for ElevenLabsTTSError {
    fn from(error: serde_json::Error) -> (r: Self) {
        ElevenLabsTTSError::ParseError(error)
    }
}

impl vstd::std_specs::convert::FromSpecImpl<serde_json::Error> for ElevenLabsTTSError {
    open spec fn obeys_from_spec() -> bool {
        true
    }

    open spec fn from_spec(v: serde_json::Error) -> Self {
        ElevenLabsTTSError::ParseError(v)
    }
}

} // verus!
