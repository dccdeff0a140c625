//! Resilience and traffic-control core of an API gateway.
//!
//! The crate provides the building blocks a gateway needs to protect its
//! downstream services: a per-service circuit breaker registry, a sliding
//! window rate limiter, a TTL response cache with bounded eviction, a
//! retrying event publisher guarded by its own breaker, and an admission
//! layer that resolves caller identity and checks request freshness.

pub mod auth;
pub mod breaker;
pub mod clients;
pub mod error;
pub mod events;
pub mod health;
pub mod cache;
pub mod config;
pub mod producer;
pub mod kvstore;
pub mod models;
pub mod rate_limit;
pub mod text;
pub mod zero_trust;

pub use auth::AuthenticatedUser;
pub use auth::IdentityResolution;
pub use breaker::CircuitBreakerConfig;
pub use error::AppError;
pub use events::EventHeaders;
pub use events::EventMetadata;
pub use events::SourceSyncRequestedEvent;
pub use events::SyncRequestResponse;
pub use breaker::CircuitBreakerRegistry;
pub use breaker::CircuitState;
pub use cache::CacheConfig;
pub use config::Config;
pub use config::ConfigError;
pub use cache::ResponseCache;
pub use producer::CircuitBreaker;
pub use producer::EventProducer;
pub use producer::ProducerConfig;
pub use producer::ProducerError;
pub use rate_limit::RateLimitConfig;
pub use rate_limit::RateLimiter;
pub use rate_limit::RateLimitInfo;
pub use rate_limit::RateDecision;
pub use zero_trust::ZeroTrustLayer;
pub use zero_trust::IntegrityCheck;

