//! Client-side admission control for outbound HTTP requests.
//!
//! The crate classifies each outgoing request by target API and endpoint,
//! keeps a registry of token-bucket limiters built from a quota
//! configuration, and decides, in a fixed precedence order, which limiters
//! a request must pass before it may be dispatched.

pub mod admission;
pub mod classify;
pub mod config;
pub mod quota;
pub mod registry;
pub mod strutil;

pub use admission::admission_plan;
pub use classify::ApiType;
pub use classify::Endpoint;
pub use classify::classify;
pub use classify::detect_endpoint;
pub use config::Category;
pub use config::Config;
pub use quota::MultiWindowQuota;
pub use quota::Quota;
pub use registry::Limiter;
pub use registry::RateLimiters;
