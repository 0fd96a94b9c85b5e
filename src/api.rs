//! Identity types exchanged with the calling application.

use vstd::prelude::*;

verus! {

/// A provider gateway a caller may name.
#[derive(Clone, Copy, Debug, PartialEq, Eq, Structural)]
pub enum Provider {
    /// OpenAI or an Azure-compatible endpoint.
    Openai,
    Anthropic,
    /// The OpenRouter gateway.
    Openrouter,
}

/// The claims of an authenticated caller.
#[derive(Clone, Debug, PartialEq, Eq)]
pub struct UserClaims {
    pub sub: String,
    pub email: Option<String>,
    pub name: Option<String>,
    /// Expiry, in seconds since the Unix epoch.
    pub exp: Option<i64>,
}

} // verus!
