//! Unified error handling.
//!
//! Every failure maps to a stable machine-readable code, an HTTP status and
//! a structured JSON body; diagnostic detail stays out of the body.

use vstd::prelude::*;
use vstd::string::StringExecFns;

use crate::text::json_escaped;
use crate::text::escape_json;
use crate::text::dec_str;
use crate::text::u64_to_string;

verus! {

/// Application error types.
#[derive(Clone, Debug, PartialEq, Eq)]
pub enum AppError {
    /// No or invalid credentials.
    Unauthorized(String),
    /// Valid credentials, insufficient rights.
    Forbidden(String),
    /// The addressed resource does not exist.
    NotFound(String),
    /// The request itself is malformed.
    ValidationError(String),
    /// The caller exceeded its window.
    RateLimited,
    /// A downstream dependency timed out or refused the connection.
    ServiceUnavailable(String),
    /// An unexpected failure.
    Internal(String),
    /// The database failed.
    Database(String),
    /// The shared cache store failed.
    Redis(String),
}

/// The JSON body every error is rendered as.
pub open spec fn spec_error_body(code: Seq<char>, msg: Seq<char>) -> Seq<char> {
    "{\"error\":{\"code\":\""@ + code + "\",\"message\":\""@ + json_escaped(msg) + "\"}}"@
}

impl AppError {
    /// The HTTP status the error maps to.
    pub open spec fn spec_status(&self) -> u16 {
        match self {
            AppError::Unauthorized(_) => 401,
            AppError::Forbidden(_) => 403,
            AppError::NotFound(_) => 404,
            AppError::ValidationError(_) => 400,
            AppError::RateLimited => 429,
            AppError::ServiceUnavailable(_) => 503,
            AppError::Internal(_) => 500,
            AppError::Database(_) => 500,
            AppError::Redis(_) => 500,
        }
    }

    /// The stable machine-readable code.
    pub open spec fn spec_code(&self) -> Seq<char> {
        match self {
            AppError::Unauthorized(_) => "UNAUTHORIZED"@,
            AppError::Forbidden(_) => "FORBIDDEN"@,
            AppError::NotFound(_) => "NOT_FOUND"@,
            AppError::ValidationError(_) => "VALIDATION_ERROR"@,
            AppError::RateLimited => "RATE_LIMITED"@,
            AppError::ServiceUnavailable(_) => "SERVICE_UNAVAILABLE"@,
            AppError::Internal(_) => "INTERNAL_ERROR"@,
            AppError::Database(_) => "DATABASE_ERROR"@,
            AppError::Redis(_) => "CACHE_ERROR"@,
        }
    }

    /// The human-readable message.
    pub open spec fn spec_message(&self) -> Seq<char> {
        match self {
            AppError::Unauthorized(m) => m@,
            AppError::Forbidden(m) => m@,
            AppError::NotFound(m) => m@,
            AppError::ValidationError(m) => m@,
            AppError::RateLimited => "Too many requests"@,
            AppError::ServiceUnavailable(m) => m@,
            AppError::Internal(m) => m@,
            AppError::Database(m) => m@,
            AppError::Redis(m) => m@,
        }
    }

    /// The HTTP status the error maps to.
    pub fn status_code(&self) -> (r: u16)
        ensures
            r == self.spec_status(),
    {
        match self {
            AppError::Unauthorized(_) => 401,
            AppError::Forbidden(_) => 403,
            AppError::NotFound(_) => 404,
            AppError::ValidationError(_) => 400,
            AppError::RateLimited => 429,
            AppError::ServiceUnavailable(_) => 503,
            AppError::Internal(_) => 500,
            AppError::Database(_) => 500,
            AppError::Redis(_) => 500,
        }
    }

    /// The stable machine-readable code.
    pub fn error_code(&self) -> (r: &'static str)
        ensures
            r@ == self.spec_code(),
    {
        match self {
            AppError::Unauthorized(_) => "UNAUTHORIZED",
            AppError::Forbidden(_) => "FORBIDDEN",
            AppError::NotFound(_) => "NOT_FOUND",
            AppError::ValidationError(_) => "VALIDATION_ERROR",
            AppError::RateLimited => "RATE_LIMITED",
            AppError::ServiceUnavailable(_) => "SERVICE_UNAVAILABLE",
            AppError::Internal(_) => "INTERNAL_ERROR",
            AppError::Database(_) => "DATABASE_ERROR",
            AppError::Redis(_) => "CACHE_ERROR",
        }
    }

    /// The human-readable message.
    pub fn message(&self) -> (r: String)
        ensures
            r@ == self.spec_message(),
    {
        match self {
            AppError::Unauthorized(m) => m.clone(),
            AppError::Forbidden(m) => m.clone(),
            AppError::NotFound(m) => m.clone(),
            AppError::ValidationError(m) => m.clone(),
            AppError::RateLimited => String::from_str("Too many requests"),
            AppError::ServiceUnavailable(m) => m.clone(),
            AppError::Internal(m) => m.clone(),
            AppError::Database(m) => m.clone(),
            AppError::Redis(m) => m.clone(),
        }
    }

    /// Render the structured JSON body the caller sees.
    pub fn body_json(&self) -> (r: String)
        ensures
            r@ == spec_error_body(self.spec_code(), self.spec_message()),
    {
        let mut out = String::from_str("{\"error\":{\"code\":\"");
        out.append(self.error_code());
        out.append("\",\"message\":\"");
        let msg = self.message();
        let escaped = escape_json(msg.as_str());
        out.append(escaped.as_str());
        out.append("\"}}");
        proof {
            assert(out@ =~= spec_error_body(self.spec_code(), self.spec_message()));
        }
        out
    }
}

/// The code a downstream response of this status is classified under:
/// the authentication statuses map to their own errors, overload maps to
/// the rate-limit error, server errors mark the service unavailable, and
/// everything else is an internal failure.
pub open spec fn spec_class_code(status: u16) -> Seq<char> {
    if status == 401 {
        "UNAUTHORIZED"@
    } else if status == 403 {
        "FORBIDDEN"@
    } else if status == 404 {
        "NOT_FOUND"@
    } else if status == 429 {
        "RATE_LIMITED"@
    } else if 500 <= status < 600 {
        "SERVICE_UNAVAILABLE"@
    } else {
        "INTERNAL_ERROR"@
    }
}

/// The message that accompanies the classification.
pub open spec fn spec_class_msg(status: u16, body: Seq<char>, service: Seq<char>) -> Seq<char> {
    if status == 401 {
        "Authentication failed"@
    } else if status == 403 {
        "Access denied"@
    } else if status == 404 {
        body
    } else if status == 429 {
        "Too many requests"@
    } else if 500 <= status < 600 {
        service + " error: "@ + body
    } else {
        service + " error ("@ + dec_str(status as nat) + "): "@ + body
    }
}

/// Whether a response with this status counts against the service's
/// breaker: server errors do, client errors do not.
pub fn counts_against_breaker(status: u16) -> (r: bool)
    ensures
        r == (500 <= status < 600),
{
    500 <= status && status < 600
}

/// Classify one downstream response by its status, with its body and the
/// service's name at hand for the message.
pub fn classify_response(status: u16, body: &str, service: &str) -> (r: Result<(), AppError>)
    ensures
        r is Ok <==> 200 <= status < 300,
        r matches Err(e) ==> e.spec_code() == spec_class_code(status)
            && e.spec_message() == spec_class_msg(status, body@, service@),
{
    if 200 <= status && status < 300 {
        Ok(())
    } else if status == 401 {
        Err(AppError::Unauthorized(String::from_str("Authentication failed")))
    } else if status == 403 {
        Err(AppError::Forbidden(String::from_str("Access denied")))
    } else if status == 404 {
        Err(AppError::NotFound(String::from_str(body)))
    } else if status == 429 {
        Err(AppError::RateLimited)
    } else if 500 <= status && status < 600 {
        let mut m = String::from_str(service);
        m.append(" error: ");
        m.append(body);
        Err(AppError::ServiceUnavailable(m))
    } else {
        let mut m = String::from_str(service);
        m.append(" error (");
        let n = u64_to_string(status as u64);
        m.append(n.as_str());
        m.append("): ");
        m.append(body);
        Err(AppError::Internal(m))
    }
}

/// Map a transport failure, told apart by its kind, to the taxonomy:
/// timeouts and refused connections mark the service unavailable, anything
/// else is internal, with the transport's words kept.
pub fn classify_transport_error(is_timeout: bool, is_connect: bool, words: &str) -> (r: AppError)
    ensures
        is_timeout ==> r.spec_code() == "SERVICE_UNAVAILABLE"@
            && r.spec_message() == "Service request timed out"@,
        !is_timeout && is_connect ==> r.spec_code() == "SERVICE_UNAVAILABLE"@
            && r.spec_message() == "Failed to connect to service"@,
        !is_timeout && !is_connect ==> r.spec_code() == "INTERNAL_ERROR"@
            && r.spec_message() == words@,
{
    if is_timeout {
        AppError::ServiceUnavailable(String::from_str("Service request timed out"))
    } else if is_connect {
        AppError::ServiceUnavailable(String::from_str("Failed to connect to service"))
    } else {
        AppError::Internal(String::from_str(words))
    }
}

} // verus!
