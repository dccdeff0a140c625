//! Common response models.

use vstd::prelude::*;

use crate::models::source::Source;

verus! {

/// Health check response.
#[derive(Clone, Debug)]
pub struct HealthResponse {
    /// Overall status word.
    pub status: String,
    /// The service's version.
    pub version: String,
    /// The service's name.
    pub service: String,
    /// When the check ran, if recorded.
    pub timestamp: Option<String>,
    /// Per-dependency health, when gathered, as name and health pairs.
    pub services: Option<Vec<(String, ServiceHealth)>>,
}

/// Individual service health.
#[derive(Clone, Debug)]
pub struct ServiceHealth {
    /// The dependency's status word.
    pub status: String,
    /// The observed round trip, in milliseconds, when measured.
    pub latency: Option<u64>,
}

/// Sources list response.
#[derive(Clone, Debug)]
pub struct SourcesListResponse {
    /// The sources the caller may see.
    pub sources: Vec<Source>,
    /// How many there are in all, when counted.
    pub total: Option<u64>,
}

} // verus!
