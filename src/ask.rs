//! The canonical request, message and response model shared by every
//! provider adapter.

pub mod config;
pub mod msg;
pub mod request;
pub mod response;
