//! Health reporting.
//!
//! Probing the downstream services is the caller's work; judging what the
//! probe results mean for the gateway as a whole happens here.

use vstd::prelude::*;

use crate::text::str_eq;

verus! {

/// Health check result for the whole gateway.
#[derive(Clone, Debug)]
pub struct HealthCheckResult {
    /// The overall status word.
    pub status: String,
    /// The gateway's version.
    pub version: String,
    /// When the check ran.
    pub timestamp: String,
    /// What each dependency answered.
    pub components: Vec<ComponentHealth>,
}

/// One dependency's health.
#[derive(Clone, Debug)]
pub struct ComponentHealth {
    /// The dependency's name.
    pub name: String,
    /// The dependency's status word.
    pub status: String,
    /// Further words, when there are any.
    pub message: Option<String>,
}

/// Whether every component reported healthy.
pub open spec fn spec_all_healthy(components: Seq<ComponentHealth>) -> bool {
    forall|i: int| 0 <= i < components.len() ==> (#[trigger] components[i]).status@ == "healthy"@
}

/// The overall status word: healthy when every dependency is, degraded
/// otherwise — a degraded gateway still accepts traffic.
pub fn overall_status(components: &Vec<ComponentHealth>) -> (r: &'static str)
    ensures
        spec_all_healthy(components@) ==> r@ == "healthy"@,
        !spec_all_healthy(components@) ==> r@ == "degraded"@,
{
    let mut i: usize = 0;
    while i < components.len()
        invariant
            i <= components@.len(),
            forall|j: int| 0 <= j < i ==> (#[trigger] components@[j]).status@ == "healthy"@,
        decreases components@.len() - i,
    {
        if !str_eq(components[i].status.as_str(), "healthy") {
            return "degraded";
        }
        i = i + 1;
    }
    "healthy"
}

} // verus!
