//! Verified core of the Synapse AI router: gateway-secret checks for cache
//! invalidation, usage-metering plans, cache-backed rate-limit decisions,
//! the ONNX routing strategy stub and the Anthropic wire types.

pub mod anthropic;
pub mod billing;
pub mod invalidate;
pub mod ratelimit;
pub mod routing;
