//! Request and response shapes of the downstream services.
//!
//! The calls themselves are plain HTTP and live with the callers; the
//! shapes the services speak are defined here.

pub mod relation_graph_client;
pub mod unified_processor_client;
