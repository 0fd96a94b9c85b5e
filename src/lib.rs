//! Provider-agnostic chat client core: canonical request and response
//! types, per-provider request mapping, stream aggregation, default
//! hydration and the structured-output repair policy.

pub mod api;
pub mod ask;
pub mod client;
pub mod config;
pub mod error;
pub mod facade;
pub mod stream;
pub mod types;
pub mod util;

pub use error::AiError;
pub use facade::CnctdAi;
