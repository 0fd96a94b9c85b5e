//! The adapter for Anthropic's messages API.

use vstd::prelude::*;

use crate::ask::config::AskConfig;
use crate::ask::msg::{Msg, Role};
use crate::ask::request::AskRequest;
use crate::error::AiError;
use crate::util::{contains_seq, contains_text, starts_with_seq, starts_with_text};
use crate::client::{
    adapter_max_tokens, max_tokens_for, wire_views, ProviderAPI, ProviderRequest, WireMessage,
    WireView,
};

verus! {

/// Adapter for Anthropic-style providers.
pub struct AnthropicApi;

/// Separator between system instructions joined into one channel.
pub open spec fn system_separator() -> Seq<char> {
    "\n\n"@
}

/// Whether a message goes inline in the message list.
pub open spec fn is_inline(m: Msg) -> bool {
    m.role == Role::User || m.role == Role::Assistant
}

/// The inline wire messages for a transcript: user and assistant messages
/// in order. System messages go to the system channel; tool messages have
/// no mapping here and are dropped.
pub open spec fn anthropic_wire(msgs: Seq<Msg>) -> Seq<WireView>
    decreases msgs.len(),
{
    if msgs.len() == 0 {
        Seq::empty()
    } else {
        let rest = anthropic_wire(msgs.drop_last());
        let m = msgs.last();
        if is_inline(m) {
            rest.push(WireView { role: m.role, content: m.content@, tool_call_id: None })
        } else {
            rest
        }
    }
}

/// `text` appended to an optional system channel.
pub open spec fn join_system(acc: Option<Seq<char>>, text: Seq<char>) -> Option<Seq<char>> {
    match acc {
        Some(a) => Some(a + system_separator() + text),
        None => Some(text),
    }
}

/// The system channel: the request's instruction, then the content of each
/// system message of the transcript, joined by a blank line.
pub open spec fn anthropic_system(system: Option<Seq<char>>, msgs: Seq<Msg>) -> Option<Seq<char>>
    decreases msgs.len(),
{
    if msgs.len() == 0 {
        system
    } else {
        let acc = anthropic_system(system, msgs.drop_last());
        let m = msgs.last();
        if m.role == Role::System {
            join_system(acc, m.content@)
        } else {
            acc
        }
    }
}

/// The view of an optional string.
pub open spec fn opt_view(s: Option<String>) -> Option<Seq<char>> {
    match s {
        Some(v) => Some(v@),
        None => None,
    }
}

/// The model ids offered for Anthropic.
pub open spec fn anthropic_model_ids() -> Seq<Seq<char>> {
    seq!["default"@, "sonnet"@, "opus"@, "haiku"@, "sonnet[1m]"@, "opusplan"@]
}

/// What the Anthropic adapter sends for a request: system content in the
/// dedicated channel, user and assistant messages inline, tool messages
/// dropped, the output bound defaulted, and no JSON flag (the protocol has
/// none, so the flag is ignored).
pub open spec fn anthropic_request(r: ProviderRequest, config: AskConfig, request: AskRequest) -> bool {
    &&& r.api == ProviderAPI::Anthropic
    &&& r.model == config.model
    &&& opt_view(r.system) == anthropic_system(opt_view(request.system), request.messages@)
    &&& wire_views(r.messages@) == anthropic_wire(request.messages@)
    &&& r.temperature == request.options.temperature
    &&& r.max_tokens == adapter_max_tokens(request.options.max_output_tokens)
    &&& !r.json_mode
}

/// The wire view of a message sent inline as it is.
pub open spec fn inline_view(m: Msg) -> WireView {
    WireView { role: m.role, content: m.content@, tool_call_id: None }
}

/// The wire views of messages sent inline as they are, in order.
pub open spec fn inline_views(msgs: Seq<Msg>) -> Seq<WireView> {
    Seq::new(msgs.len(), |i: int| inline_view(msgs[i]))
}

/// The inline messages of a concatenated transcript are those of each part.
pub proof fn anthropic_wire_concat(a: Seq<Msg>, b: Seq<Msg>)
    ensures
        anthropic_wire(a + b) == anthropic_wire(a) + anthropic_wire(b),
    decreases b.len(),
{
    if b.len() == 0 {
        assert(a + b =~= a);
        assert(anthropic_wire(b) =~= Seq::<WireView>::empty());
        assert(anthropic_wire(a) + anthropic_wire(b) =~= anthropic_wire(a));
    } else {
        anthropic_wire_concat(a, b.drop_last());
        assert((a + b).drop_last() =~= a + b.drop_last());
        assert((a + b).last() == b.last());
        if is_inline(b.last()) {
            assert(anthropic_wire(a) + anthropic_wire(b) =~= (anthropic_wire(a) + anthropic_wire(
                b.drop_last(),
            )).push(inline_view(b.last())));
        }
    }
}

/// A transcript of user and assistant messages goes on the wire unchanged.
pub proof fn anthropic_wire_inline(msgs: Seq<Msg>)
    requires
        forall|i: int| 0 <= i < msgs.len() ==> is_inline(#[trigger] msgs[i]),
    ensures
        anthropic_wire(msgs) == inline_views(msgs),
    decreases msgs.len(),
{
    if msgs.len() == 0 {
        assert(inline_views(msgs) =~= Seq::<WireView>::empty());
    } else {
        let pre = msgs.drop_last();
        assert forall|i: int| 0 <= i < pre.len() implies is_inline(#[trigger] pre[i]) by {
            assert(pre[i] == msgs[i]);
        }
        anthropic_wire_inline(pre);
        assert(is_inline(msgs[msgs.len() - 1]));
        assert(inline_views(msgs) =~= inline_views(pre).push(inline_view(msgs.last())));
    }
}

/// Law: for a provider without a tool-result channel, a tool message in a
/// transcript is absent from the provider-native messages, and the user and
/// assistant messages before and after it are kept, in order.
pub proof fn tool_message_dropped(before: Seq<Msg>, tool: Msg, after: Seq<Msg>)
    requires
        tool.role == Role::Tool,
        forall|i: int| 0 <= i < before.len() ==> is_inline(#[trigger] before[i]),
        forall|i: int| 0 <= i < after.len() ==> is_inline(#[trigger] after[i]),
    ensures
        anthropic_wire(before + seq![tool] + after) == inline_views(before) + inline_views(after),
{
    anthropic_wire_concat(before + seq![tool], after);
    anthropic_wire_concat(before, seq![tool]);
    anthropic_wire_inline(before);
    anthropic_wire_inline(after);
    let t = seq![tool];
    assert(t.drop_last() =~= Seq::<Msg>::empty());
    assert(anthropic_wire(Seq::<Msg>::empty()) =~= Seq::<WireView>::empty());
    assert(anthropic_wire(t) =~= Seq::<WireView>::empty());
    assert(anthropic_wire(before) + anthropic_wire(t) =~= anthropic_wire(before));
}

/// The error a failed Anthropic call maps to, from the SDK's description
/// of the failure: the SDK reports a rejected key (HTTP 401) as a message
/// that begins "Unauthorized", and the provider names a rate limit
/// "rate_limit_error" in the error body the SDK quotes; anything else is a
/// provider error with its description.
pub open spec fn spec_map_anthropic_failure(detail: String) -> AiError {
    if starts_with_seq(detail@, "Unauthorized"@) {
        AiError::Auth
    } else if contains_seq(detail@, "rate_limit_error"@) {
        AiError::RateLimited
    } else {
        AiError::Provider(detail)
    }
}

/// Maps the description of a failed Anthropic call into the error
/// taxonomy.
pub fn map_anthropic_failure(detail: String) -> (r: AiError)
    ensures
        r == spec_map_anthropic_failure(detail),
{
    if starts_with_text(detail.as_str(), "Unauthorized") {
        AiError::Auth
    } else if contains_text(detail.as_str(), "rate_limit_error") {
        AiError::RateLimited
    } else {
        AiError::Provider(detail)
    }
}

impl AnthropicApi {
    /// The provider-native request; the blocking and the streaming call
    /// both send it.
    pub fn build_request(config: &AskConfig, request: &AskRequest) -> (r: ProviderRequest)
        ensures
            anthropic_request(r, *config, *request),
    {
        let msgs = &request.messages;
        let mut out: Vec<WireMessage> = Vec::new();
        let mut system: Option<String> = match &request.system {
            Some(s) => Some(s.clone()),
            None => None,
        };
        let mut i: usize = 0;
        while i < msgs.len()
            invariant
                i <= msgs@.len(),
                wire_views(out@) == anthropic_wire(msgs@.subrange(0, i as int)),
                opt_view(system) == anthropic_system(
                    opt_view(request.system),
                    msgs@.subrange(0, i as int),
                ),
            decreases msgs@.len() - i,
        {
            let m = &msgs[i];
            let ghost pre = msgs@.subrange(0, i as int);
            let ghost next = msgs@.subrange(0, i + 1);
            assert(next.drop_last() =~= pre);
            assert(next.last() == msgs@[i as int]);
            match m.role {
                Role::User | Role::Assistant => {
                    let ghost before = out@;
                    out.push(WireMessage { role: m.role, content: m.content.clone(), tool_call_id: None });
                    assert(wire_views(out@) =~= wire_views(before).push(out@.last()@));
                },
                Role::System => {
                    system = match system {
                        Some(acc) => Some(acc.concat("\n\n").concat(m.content.as_str())),
                        None => Some(m.content.clone()),
                    };
                    proof {
                        reveal_strlit("\n\n");
                    }
                },
                Role::Tool => {},
            }
            i = i + 1;
        }
        assert(msgs@.subrange(0, msgs@.len() as int) =~= msgs@);
        let max_tokens = max_tokens_for(request.options.max_output_tokens);
        ProviderRequest {
            api: ProviderAPI::Anthropic,
            model: config.model.clone(),
            system,
            messages: out,
            temperature: request.options.temperature,
            max_tokens,
            json_mode: false,
        }
    }

    /// The model ids offered for Anthropic; the list is static.
    pub fn model_ids() -> (r: Vec<String>)
        ensures
            r@.len() == anthropic_model_ids().len(),
            forall|i: int| 0 <= i < r@.len() ==> #[trigger] r@[i]@ == anthropic_model_ids()[i],
    {
        let v: Vec<String> = vec![
            String::from_str("default"),
            String::from_str("sonnet"),
            String::from_str("opus"),
            String::from_str("haiku"),
            String::from_str("sonnet[1m]"),
            String::from_str("opusplan"),
        ];
        v
    }
}

} // verus!
