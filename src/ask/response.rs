use vstd::prelude::*;

verus! {

/// Token counters, best effort: an absent counter is unknown, which is not
/// the same as zero.
#[derive(Clone, Copy, Debug, PartialEq, Eq, Structural, Default)]
pub struct Usage {
    pub prompt_tokens: Option<u32>,
    pub completion_tokens: Option<u32>,
    pub total_tokens: Option<u32>,
}

/// Provider-agnostic response.
#[derive(Clone, Debug)]
pub struct AskResponse {
    /// Final answer text (may be empty on tool calls).
    pub text: String,
    /// One of "stop", "length", "tool_call", "content_filter", "error".
    pub finish_reason: String,
    pub usage: Option<Usage>,
    /// End-to-end latency, measured around the whole call.
    pub latency_ms: u128,
    /// Raw provider payload, for debugging only.
    pub provider_meta: serde_json::Value,
}

} // verus!
