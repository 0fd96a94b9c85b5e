//! Process-wide configuration consumed by the dispatcher.

use vstd::prelude::*;

use crate::types::ProviderId;
use std::time::Duration;

verus! {

/// Configuration loaded once at startup.
#[derive(Clone, Debug)]
pub struct AiConfig {
    /// Provider used when a caller names none.
    pub default_provider: ProviderId,
    /// Model used when a request names none.
    pub default_model: String,
    /// Key for OpenAI-compatible providers (OpenAI, OpenRouter).
    pub openai_api_key: Option<String>,
    pub openai_base_url: String,
    pub anthropic_api_key: Option<String>,
    pub anthropic_base_url: String,
    /// Timeout handed to the transport.
    pub request_timeout: Duration,
}

impl AiConfig {
    /// The API key configured for `provider`, if any.
    pub open spec fn spec_key(&self, provider: ProviderId) -> Option<String> {
        match provider {
            ProviderId::Anthropic => self.anthropic_api_key,
            _ => self.openai_api_key,
        }
    }

    /// The base URL configured for `provider`.
    pub open spec fn spec_base_url(&self, provider: ProviderId) -> String {
        match provider {
            ProviderId::Anthropic => self.anthropic_base_url,
            _ => self.openai_base_url,
        }
    }
}

} // verus!
