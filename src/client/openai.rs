//! The adapter for OpenAI-compatible chat-completion endpoints.

use vstd::prelude::*;

use crate::ask::config::AskConfig;
use crate::ask::msg::{Msg, Role};
use crate::ask::request::AskRequest;
use crate::ask::response::{AskResponse, Usage};
use crate::client::{adapter_max_tokens, max_tokens_for, wire_views, FinishSignal, ProviderAPI, ProviderRequest, WireMessage, WireView};
use crate::error::AiError;
use crate::util::{contains_seq, contains_text};

verus! {

/// Adapter for OpenAI-compatible providers.
pub struct OpenAiApi;

/// How one canonical message goes on the wire: every role inline, and a
/// tool result carries its sender label as the call id.
pub open spec fn openai_wire_of(m: Msg) -> WireView {
    WireView {
        role: m.role,
        content: m.content@,
        tool_call_id: if m.role == Role::Tool {
            Some(
                match m.name {
                    Some(n) => n@,
                    None => Seq::<char>::empty(),
                },
            )
        } else {
            None
        },
    }
}

/// The wire messages for a system instruction and a transcript: the
/// instruction first, as an inline system message, then every message.
pub open spec fn openai_wire(system: Option<String>, msgs: Seq<Msg>) -> Seq<WireView> {
    let head = match system {
        Some(s) => seq![WireView { role: Role::System, content: s@, tool_call_id: None }],
        None => Seq::<WireView>::empty(),
    };
    head + Seq::new(msgs.len(), |i: int| openai_wire_of(msgs[i]))
}

/// The normalized finish reason for a provider finish signal.
pub open spec fn spec_finish_reason(f: FinishSignal) -> Seq<char> {
    match f {
        FinishSignal::Stop => "stop"@,
        FinishSignal::Length => "length"@,
        FinishSignal::ToolCalls => "tool_call"@,
        FinishSignal::FunctionCall => "tool_call"@,
        FinishSignal::ContentFilter => "content_filter"@,
    }
}

/// The normalized finish reason; a legacy function call counts as a tool
/// call.
pub fn finish_reason_str(f: FinishSignal) -> (r: &'static str)
    ensures
        r@ == spec_finish_reason(f),
{
    match f {
        FinishSignal::Stop => "stop",
        FinishSignal::Length => "length",
        FinishSignal::ToolCalls => "tool_call",
        FinishSignal::FunctionCall => "tool_call",
        FinishSignal::ContentFilter => "content_filter",
    }
}

/// A failure of an OpenAI-compatible call, as the transport reports it.
#[derive(Clone, Debug, PartialEq, Eq)]
pub enum ProviderFailure {
    /// The provider answered with an API error: the HTTP status, the
    /// provider's error code and its message.
    Api { status: Option<u16>, code: Option<String>, message: String },
    /// The event stream broke.
    Stream(String),
    /// The HTTP transport failed.
    Transport { timed_out: bool, detail: String },
    /// Any other failure, described.
    Other(String),
}

/// Whether an API error says `token`: as its HTTP status, or inside its
/// error code.
pub open spec fn api_says(status: Option<u16>, code: Option<String>, n: u16, token: Seq<char>) -> bool {
    status == Some(n) || (code matches Some(c) && contains_seq(c@, token))
}

/// The error a failure maps to: an API error that says 401 is a rejected
/// credential and one that says 429 a rate limit; a transport timeout is a
/// timeout; everything else is a provider error with its description.
pub open spec fn spec_map_failure(f: ProviderFailure) -> AiError {
    match f {
        ProviderFailure::Api { status, code, message } => if api_says(status, code, 401, "401"@) {
            AiError::Auth
        } else if api_says(status, code, 429, "429"@) {
            AiError::RateLimited
        } else {
            AiError::Provider(message)
        },
        ProviderFailure::Stream(m) => AiError::Provider(m),
        ProviderFailure::Transport { timed_out, detail } => if timed_out {
            AiError::Timeout
        } else {
            AiError::Provider(detail)
        },
        ProviderFailure::Other(d) => AiError::Provider(d),
    }
}

/// Maps a transport failure into the error taxonomy.
pub fn map_oai_err(f: ProviderFailure) -> (r: AiError)
    ensures
        r == spec_map_failure(f),
{
    match f {
        ProviderFailure::Api { status, code, message } => {
            let (code_401, code_429) = match &code {
                Some(c) => (contains_text(c.as_str(), "401"), contains_text(c.as_str(), "429")),
                None => (false, false),
            };
            if status == Some(401u16) || code_401 {
                AiError::Auth
            } else if status == Some(429u16) || code_429 {
                AiError::RateLimited
            } else {
                AiError::Provider(message)
            }
        },
        ProviderFailure::Stream(m) => AiError::Provider(m),
        ProviderFailure::Transport { timed_out, detail } => if timed_out {
            AiError::Timeout
        } else {
            AiError::Provider(detail)
        },
        ProviderFailure::Other(d) => AiError::Provider(d),
    }
}

/// One canonical message as a wire message.
fn openai_message(m: &Msg) -> (r: WireMessage)
    ensures
        r@ == openai_wire_of(*m),
{
    let tool_call_id = match m.role {
        Role::Tool => match &m.name {
            Some(n) => Some(n.clone()),
            None => Some(String::new()),
        },
        _ => None,
    };
    WireMessage { role: m.role, content: m.content.clone(), tool_call_id }
}

/// What the OpenAI adapter sends for a request: the system instruction
/// inline, every message in order, the options as given, and the output
/// bound defaulted.
pub open spec fn openai_request(r: ProviderRequest, config: AskConfig, request: AskRequest) -> bool {
    &&& r.api == ProviderAPI::OpenAI
    &&& r.model == config.model
    &&& r.system is None
    &&& wire_views(r.messages@) == openai_wire(request.system, request.messages@)
    &&& r.temperature == request.options.temperature
    &&& r.max_tokens == adapter_max_tokens(request.options.max_output_tokens)
    &&& r.json_mode == (request.options.json_mode == Some(true))
}

/// Usage as reported by a provider that counts tokens: every counter known.
pub open spec fn spec_counted_usage(counts: (u32, u32, u32)) -> Usage {
    Usage {
        prompt_tokens: Some(counts.0),
        completion_tokens: Some(counts.1),
        total_tokens: Some(counts.2),
    }
}

impl OpenAiApi {
    /// The normalized response of a completed call: the first choice's
    /// text (empty when absent), its finish reason ("stop" when absent), the
    /// reported token counts, and the raw payload. Latency is left at zero
    /// for the dispatcher to measure.
    pub fn normalize_completion(
        content: Option<String>,
        finish: Option<FinishSignal>,
        counts: Option<(u32, u32, u32)>,
        provider_meta: serde_json::Value,
    ) -> (r: AskResponse)
        ensures
            r.text@ == match content {
                Some(c) => c@,
                None => Seq::<char>::empty(),
            },
            r.finish_reason@ == match finish {
                Some(f) => spec_finish_reason(f),
                None => "stop"@,
            },
            r.usage == match counts {
                Some(c) => Some(spec_counted_usage(c)),
                None => None,
            },
            r.latency_ms == 0,
            r.provider_meta == provider_meta,
    {
        let text = match content {
            Some(c) => c,
            None => String::new(),
        };
        let finish_reason = match finish {
            Some(f) => String::from_str(finish_reason_str(f)),
            None => String::from_str("stop"),
        };
        proof {
            reveal_strlit("stop");
        }
        let usage = match counts {
            Some((p, c, t)) => Some(
                Usage { prompt_tokens: Some(p), completion_tokens: Some(c), total_tokens: Some(t) },
            ),
            None => None,
        };
        AskResponse { text, finish_reason, usage, latency_ms: 0, provider_meta }
    }

    /// The provider-native request; the blocking and the streaming call
    /// both send it.
    pub fn build_request(config: &AskConfig, request: &AskRequest) -> (r: ProviderRequest)
        ensures
            openai_request(r, *config, *request),
    {
        let mut out: Vec<WireMessage> = Vec::new();
        match &request.system {
            Some(s) => {
                out.push(WireMessage { role: Role::System, content: s.clone(), tool_call_id: None });
            },
            None => {},
        }
        let head_len = out.len();
        let ghost head = wire_views(out@);
        let msgs = &request.messages;
        let mut i: usize = 0;
        while i < msgs.len()
            invariant
                head_len == head.len(),
                i <= msgs@.len(),
                out@.len() == head_len + i,
                forall|j: int| 0 <= j < head_len ==> #[trigger] out@[j]@ == head[j],
                forall|j: int| 0 <= j < i ==> #[trigger] out@[head_len + j]@ == openai_wire_of(msgs@[j]),
            decreases msgs@.len() - i,
        {
            out.push(openai_message(&msgs[i]));
            i = i + 1;
        }
        let ghost full = openai_wire(request.system, request.messages@);
        assert(head =~= full.subrange(0, head_len as int));
        assert forall|j: int| 0 <= j < out@.len() implies wire_views(out@)[j] == full[j] by {
            if j < head_len {
                assert(out@[j]@ == head[j]);
            } else {
                assert(out@[head_len + (j - head_len)]@ == openai_wire_of(msgs@[j - head_len]));
            }
        }
        assert(wire_views(out@) =~= full);
        let json_mode = match request.options.json_mode {
            Some(b) => b,
            None => false,
        };
        ProviderRequest {
            api: ProviderAPI::OpenAI,
            model: config.model.clone(),
            system: None,
            messages: out,
            temperature: request.options.temperature,
            max_tokens: max_tokens_for(request.options.max_output_tokens),
            json_mode,
        }
    }
}

} // verus!
