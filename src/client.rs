//! Provider selection, the provider-native request shape and the
//! per-provider adapters.

pub mod anthropic;
pub mod openai;

use vstd::prelude::*;

use crate::ask::msg::Role;
use crate::ask::request::Temperature;
use crate::types::ProviderId;

verus! {

/// The wire protocol family an adapter speaks.
#[derive(Clone, Copy, Debug, PartialEq, Eq, Structural)]
pub enum ProviderAPI {
    /// OpenAI, or any OpenAI-compatible endpoint.
    OpenAI,
    /// Anthropic's messages API.
    Anthropic,
}

impl ProviderAPI {
    /// Display name of the protocol family.
    pub fn to_string(&self) -> (r: String)
        ensures
            r@ == match *self {
                ProviderAPI::OpenAI => "OpenAI"@,
                ProviderAPI::Anthropic => "Anthropic"@,
            },
    {
        match self {
            ProviderAPI::OpenAI => String::from_str("OpenAI"),
            ProviderAPI::Anthropic => String::from_str("Anthropic"),
        }
    }
}

/// A client bound to one endpoint; its fields stay private so that the
/// provider behind it can change.
pub struct AiClient {
    base_url: String,
    api_key: String,
    default_model: String,
}

impl AiClient {
    /// The endpoint's base URL.
    pub closed spec fn spec_base_url(&self) -> Seq<char> {
        self.base_url@
    }

    /// The key presented to the endpoint.
    pub closed spec fn spec_api_key(&self) -> Seq<char> {
        self.api_key@
    }

    /// The model used when a request names none.
    pub closed spec fn spec_default_model(&self) -> Seq<char> {
        self.default_model@
    }

    /// A client for an endpoint, a key and a default model.
    pub fn new(base_url: String, api_key: String, default_model: String) -> (r: AiClient)
        ensures
            r.spec_base_url() == base_url@,
            r.spec_api_key() == api_key@,
            r.spec_default_model() == default_model@,
    {
        AiClient { base_url, api_key, default_model }
    }

    /// The endpoint's base URL.
    pub fn base_url(&self) -> (r: &str)
        ensures
            r@ == self.spec_base_url(),
    {
        self.base_url.as_str()
    }

    /// The key presented to the endpoint.
    pub fn api_key(&self) -> (r: &str)
        ensures
            r@ == self.spec_api_key(),
    {
        self.api_key.as_str()
    }

    /// The model used when a request names none.
    pub fn default_model(&self) -> (r: &str)
        ensures
            r@ == self.spec_default_model(),
    {
        self.default_model.as_str()
    }
}

/// The user agent presented by the HTTP transport of a protocol family.
pub open spec fn spec_user_agent(api: ProviderAPI) -> Seq<char> {
    match api {
        ProviderAPI::OpenAI => "cnctd-ai-openai-api"@,
        ProviderAPI::Anthropic => "cnctd-ai-anthropic-api"@,
    }
}

/// The user agent presented by the HTTP transport of a protocol family.
pub fn user_agent(api: ProviderAPI) -> (r: String)
    ensures
        r@ == spec_user_agent(api),
{
    match api {
        ProviderAPI::OpenAI => String::from_str("cnctd-ai-openai-api"),
        ProviderAPI::Anthropic => String::from_str("cnctd-ai-anthropic-api"),
    }
}

/// Output tokens an adapter asks for when the request sets no bound. The
/// dispatcher sets its own default first, so this applies only to requests
/// that reach an adapter unhydrated.
pub const DEFAULT_MAX_TOKENS: u32 = 1024;

/// The output-token bound an adapter sends for a request's bound.
pub open spec fn adapter_max_tokens(requested: Option<u32>) -> u32 {
    match requested {
        Some(n) => n,
        None => DEFAULT_MAX_TOKENS,
    }
}

/// The output-token bound an adapter sends for a request's bound.
pub fn max_tokens_for(requested: Option<u32>) -> (r: u32)
    ensures
        r == adapter_max_tokens(requested),
{
    match requested {
        Some(n) => n,
        None => DEFAULT_MAX_TOKENS,
    }
}

/// The protocol family that serves a provider.
pub open spec fn spec_api_of(p: ProviderId) -> ProviderAPI {
    match p {
        ProviderId::Anthropic => ProviderAPI::Anthropic,
        _ => ProviderAPI::OpenAI,
    }
}

/// The protocol family that serves a provider: OpenRouter speaks the
/// OpenAI protocol.
pub fn api_of(p: ProviderId) -> (r: ProviderAPI)
    ensures
        r == spec_api_of(p),
{
    match p {
        ProviderId::Anthropic => ProviderAPI::Anthropic,
        _ => ProviderAPI::OpenAI,
    }
}

/// Why a provider stopped generating, as the provider reports it.
#[derive(Clone, Copy, Debug, PartialEq, Eq, Structural)]
pub enum FinishSignal {
    Stop,
    Length,
    ToolCalls,
    ContentFilter,
    FunctionCall,
}

/// One message as it goes on the wire.
#[derive(Clone, Debug, PartialEq, Eq)]
pub struct WireMessage {
    pub role: Role,
    pub content: String,
    /// For a tool result, the id of the call it answers.
    pub tool_call_id: Option<String>,
}

/// The mathematical content of a wire message.
pub struct WireView {
    pub role: Role,
    pub content: Seq<char>,
    pub tool_call_id: Option<Seq<char>>,
}

impl View for WireMessage {
    type V = WireView;

    open spec fn view(&self) -> WireView {
        WireView {
            role: self.role,
            content: self.content@,
            tool_call_id: match self.tool_call_id {
                Some(t) => Some(t@),
                None => None,
            },
        }
    }
}

/// The views of a list of wire messages.
pub open spec fn wire_views(ws: Seq<WireMessage>) -> Seq<WireView> {
    Seq::new(ws.len(), |i: int| ws[i]@)
}

/// A provider-native request, built the same way for the blocking and the
/// streaming call.
#[derive(Clone, Debug)]
pub struct ProviderRequest {
    pub api: ProviderAPI,
    pub model: String,
    /// Content of the provider's dedicated system channel, where it has one.
    pub system: Option<String>,
    pub messages: Vec<WireMessage>,
    pub temperature: Option<Temperature>,
    /// Output-token bound.
    pub max_tokens: u32,
    /// Ask for strict JSON output.
    pub json_mode: bool,
}

} // verus!
