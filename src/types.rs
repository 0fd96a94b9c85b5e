//! Provider identity and static provider metadata.

use vstd::prelude::*;

use crate::ask::response::AskResponse;
use crate::error::AiError;

verus! {

/// Provider selector; the tags are stable across client and server.
#[derive(Clone, Copy, Debug, PartialEq, Eq, Structural)]
pub enum ProviderId {
    /// OpenAI, or Azure OpenAI behind an OpenAI base URL.
    OpenAI,
    /// OpenRouter, an OpenAI-compatible gateway.
    OpenRouter,
    Anthropic,
}

/// The provider that a tag names, if any.
pub open spec fn provider_of_tag(tag: Seq<char>) -> Option<ProviderId> {
    if tag == "openai"@ {
        Some(ProviderId::OpenAI)
    } else if tag == "openrouter"@ {
        Some(ProviderId::OpenRouter)
    } else if tag == "anthropic"@ {
        Some(ProviderId::Anthropic)
    } else {
        None
    }
}

/// Whether two strings hold the same characters.
pub fn same_text(a: &str, b: &str) -> (r: bool)
    ensures
        r == (a@ == b@),
{
    let n = a.unicode_len();
    if n != b.unicode_len() {
        return false;
    }
    let mut i: usize = 0;
    while i < n
        invariant
            n == a@.len(),
            n == b@.len(),
            i <= n,
            a@.subrange(0, i as int) == b@.subrange(0, i as int),
        decreases n - i,
    {
        if a.get_char(i) != b.get_char(i) {
            return false;
        }
        assert(a@.subrange(0, i + 1) =~= a@.subrange(0, i as int).push(a@[i as int]));
        assert(b@.subrange(0, i + 1) =~= b@.subrange(0, i as int).push(b@[i as int]));
        i = i + 1;
    }
    assert(a@ =~= a@.subrange(0, n as int));
    assert(b@ =~= b@.subrange(0, n as int));
    true
}

impl ProviderId {
    /// The provider that a tag names; an unknown tag is `Unsupported`.
    pub fn from_tag(tag: &str) -> (r: Result<ProviderId, AiError>)
        ensures
            r == match provider_of_tag(tag@) {
                Some(p) => Ok(p),
                None => Err::<ProviderId, AiError>(AiError::Unsupported),
            },
    {
        if same_text(tag, "openai") {
            Ok(ProviderId::OpenAI)
        } else if same_text(tag, "openrouter") {
            Ok(ProviderId::OpenRouter)
        } else if same_text(tag, "anthropic") {
            Ok(ProviderId::Anthropic)
        } else {
            Err(AiError::Unsupported)
        }
    }
}

/// The provider-agnostic response.
pub type UniversalResponse = AskResponse;

/// Metadata of one model, for clients that list models.
#[derive(Clone, Debug, PartialEq, Eq)]
pub struct ModelInfo {
    /// Provider-native id, such as "gpt-4.1-mini".
    pub id: String,
    /// Human-friendly name.
    pub label: String,
    pub context_tokens: Option<u32>,
    pub supports_json: Option<bool>,
    pub supports_tools: Option<bool>,
}

/// Metadata of one provider and its models.
#[derive(Clone, Debug, PartialEq, Eq)]
pub struct ProviderInfo {
    pub id: ProviderId,
    pub name: String,
    pub models: Vec<ModelInfo>,
}

} // verus!
