//! Per-request integrity validation.
//!
//! Every request is checked for freshness (a carried timestamp must lie
//! close to server time, against replayed requests) and is tied to a
//! correlation identifier that is kept when the caller sent one and coined
//! otherwise, so one logical operation can be followed across services.

use vstd::prelude::*;
use vstd::string::StringExecFns;

use crate::error::spec_error_body;
use crate::text::all_digits;
use crate::text::dec_val;
use crate::text::dec_str;
use crate::text::parse_u64;
use crate::text::u64_to_string;
use crate::text::str_starts_with;
use crate::text::str_eq;
use crate::text::starts_with;
use crate::text::escape_json;

verus! {

/// Zero-trust configuration.
#[derive(Clone, Copy, Debug)]
pub struct ZeroTrustLayer {
    /// Largest allowed drift between a request timestamp and server time,
    /// in seconds.
    pub max_request_age_secs: u64,
    /// Whether request timestamps are checked at all.
    pub enforce_timestamps: bool,
    /// Whether every request must carry a correlation identifier.
    pub require_correlation_id: bool,
    /// Whether service-to-service identity is validated.
    pub enforce_service_identity: bool,
}

impl Default for ZeroTrustLayer {
    /// Five minutes of allowed drift, timestamps and service identity
    /// enforced, correlation identifiers coined when missing.
    fn default() -> (r: Self)
        ensures
            r.max_request_age_secs == 300,
            r.enforce_timestamps,
            !r.require_correlation_id,
            r.enforce_service_identity,
    {
        ZeroTrustLayer {
            max_request_age_secs: 300,
            enforce_timestamps: true,
            require_correlation_id: false,
            enforce_service_identity: true,
        }
    }
}

/// The outcome of the freshness check.
#[derive(Clone, Copy, Debug, PartialEq, Eq, Structural)]
pub enum IntegrityCheck {
    /// The request may proceed.
    Pass,
    /// The carried timestamp lies too far from server time.
    StaleRequest,
}

/// The absolute distance between the carried timestamp and server time.
pub open spec fn spec_drift(ts: u64, now: u64) -> u64 {
    if now >= ts { (now - ts) as u64 } else { (ts - now) as u64 }
}

impl ZeroTrustLayer {
    /// Check a request's timestamp header against server time: a parsed
    /// timestamp whose drift exceeds the allowed age is stale; a missing
    /// or unparsable header is not itself an error; and with enforcement
    /// off everything passes.
    pub fn check_freshness(&self, timestamp_header: Option<&str>, now_secs: u64) -> (r: IntegrityCheck)
        ensures
            ({
                if !self.enforce_timestamps {
                    r == IntegrityCheck::Pass
                } else {
                    match timestamp_header {
                        Some(h) => {
                            if h@.len() >= 1 && all_digits(h@) && dec_val(h@) <= u64::MAX {
                                if spec_drift(dec_val(h@) as u64, now_secs) > self.max_request_age_secs {
                                    r == IntegrityCheck::StaleRequest
                                } else {
                                    r == IntegrityCheck::Pass
                                }
                            } else {
                                r == IntegrityCheck::Pass
                            }
                        },
                        None => r == IntegrityCheck::Pass,
                    }
                }
            }),
    {
        if !self.enforce_timestamps {
            return IntegrityCheck::Pass;
        }
        match timestamp_header {
            Some(h) => match parse_u64(h) {
                Some(ts) => {
                    let drift = if now_secs >= ts { now_secs - ts } else { ts - now_secs };
                    if drift > self.max_request_age_secs {
                        IntegrityCheck::StaleRequest
                    } else {
                        IntegrityCheck::Pass
                    }
                },
                None => IntegrityCheck::Pass,
            },
            None => IntegrityCheck::Pass,
        }
    }
}

/// The response a stale request is answered with: status 400 and the
/// structured body that names the rejection.
pub fn stale_request_response() -> (r: (u16, String))
    ensures
        r.0 == 400,
        r.1@ == spec_error_body(
            "STALE_REQUEST"@,
            "Request timestamp is outside acceptable window"@,
        ),
{
    let mut out = String::from_str("{\"error\":{\"code\":\"");
    out.append("STALE_REQUEST");
    out.append("\",\"message\":\"");
    let escaped = escape_json("Request timestamp is outside acceptable window");
    out.append(escaped.as_str());
    out.append("\"}}");
    proof {
        assert(out@ =~= spec_error_body(
            "STALE_REQUEST"@,
            "Request timestamp is outside acceptable window"@,
        ));
    }
    (400, out)
}

/// Whether the path is exempt from validation: health and readiness
/// endpoints, the status page and the metrics endpoint.
pub open spec fn spec_exempt_path(path: Seq<char>) -> bool {
    starts_with(path, "/health"@) || path == "/status"@ || path == "/metrics"@
}

/// Check whether a path is exempt from zero-trust validation.
pub fn is_exempt_path(path: &str) -> (r: bool)
    ensures
        r == spec_exempt_path(path@),
{
    str_starts_with(path, "/health") || str_eq(path, "/status") || str_eq(path, "/metrics")
}

/// The correlation identifier a request keeps: its own, else its request
/// identifier, else none.
pub open spec fn spec_carried_correlation(
    correlation_header: Option<&str>,
    request_id_header: Option<&str>,
) -> Option<Seq<char>> {
    match correlation_header {
        Some(c) => Some(c@),
        None => match request_id_header {
            Some(rid) => Some(rid@),
            None => None,
        },
    }
}

/// Pick the correlation identifier a request carried, when it carried one.
pub fn carried_correlation_id(
    correlation_header: Option<&str>,
    request_id_header: Option<&str>,
) -> (r: Option<String>)
    ensures
        ({
            match spec_carried_correlation(correlation_header, request_id_header) {
                Some(c) => r matches Some(s) && s@ == c,
                None => r is None,
            }
        }),
{
    match correlation_header {
        Some(c) => Some(String::from_str(c)),
        None => match request_id_header {
            Some(rid) => Some(String::from_str(rid)),
            None => None,
        },
    }
}

/// A coined correlation identifier: a fixed prefix, the instant it was
/// coined, and a nonce the caller supplies, so coins from different
/// requests stay told apart.
pub fn make_correlation_id(now_ms: u64, nonce: &str) -> (r: String)
    ensures
        r@ == "zt-"@ + dec_str(now_ms as nat) + "-"@ + nonce@,
{
    let mut out = String::from_str("zt-");
    let t = u64_to_string(now_ms);
    out.append(t.as_str());
    out.append("-");
    out.append(nonce);
    out
}

} // verus!
