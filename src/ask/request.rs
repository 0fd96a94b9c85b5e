use vstd::prelude::*;

use crate::ask::msg::{copy_messages, Msg};
use crate::ask::response::AskResponse;
use crate::error::AiError;
use crate::types::ProviderId;

verus! {

/// A sampling temperature in thousandths (200 stands for 0.2).
#[derive(Clone, Copy, Debug, PartialEq, Eq, Structural)]
pub struct Temperature {
    pub milli: u32,
}

/// Per-call generation knobs; an unset knob is filled in before dispatch.
#[derive(Clone, Copy, Debug, PartialEq, Eq, Structural, Default)]
pub struct AskOptions {
    pub temperature: Option<Temperature>,
    pub max_output_tokens: Option<u32>,
    /// Request strict JSON output where the provider supports it.
    pub json_mode: Option<bool>,
    pub stream: Option<bool>,
}

/// The canonical request.
#[derive(Clone, Debug, PartialEq, Eq)]
pub struct AskRequest {
    /// Which adapter serves the request.
    pub provider: ProviderId,
    /// Provider-native model id; the configured default when absent.
    pub model: Option<String>,
    /// Optional system instruction.
    pub system: Option<String>,
    pub messages: Vec<Msg>,
    pub options: AskOptions,
    /// Caller bookkeeping ids, passed through untouched.
    pub context_refs: Vec<String>,
}

/// A copy of an optional string.
pub fn copy_opt_string(s: &Option<String>) -> (r: Option<String>)
    ensures
        r == *s,
{
    match s {
        Some(v) => Some(v.clone()),
        None => None,
    }
}

/// A copy of a list of strings.
pub fn copy_strings(v: &Vec<String>) -> (r: Vec<String>)
    ensures
        r@ == v@,
{
    let mut out: Vec<String> = Vec::new();
    let mut i: usize = 0;
    while i < v.len()
        invariant
            i <= v@.len(),
            out@ == v@.subrange(0, i as int),
        decreases v@.len() - i,
    {
        out.push(v[i].clone());
        i = i + 1;
    }
    assert(out@ =~= v@);
    out
}

impl AskRequest {
    /// A field-by-field copy of the request.
    pub fn duplicate(&self) -> (r: AskRequest)
        ensures
            r.provider == self.provider,
            r.model == self.model,
            r.system == self.system,
            r.messages@ == self.messages@,
            r.options == self.options,
            r.context_refs@ == self.context_refs@,
    {
        AskRequest {
            provider: self.provider,
            model: copy_opt_string(&self.model),
            system: copy_opt_string(&self.system),
            messages: copy_messages(&self.messages),
            options: self.options,
            context_refs: copy_strings(&self.context_refs),
        }
    }
}

/// One unit of a streamed response.
#[derive(Clone, Debug)]
pub enum AskChunk {
    /// A fragment of the answer text.
    Delta { text: String },
    /// A tool-call fragment, forwarded as received; assembling the call is
    /// the caller's work.
    ToolCallDelta { tool_call_id: String, name: Option<String>, args_delta: Option<String> },
    /// The provider announced a role.
    Role(String),
    /// The last chunk of a stream: the whole aggregated response.
    Complete(AskResponse),
}

/// An item of a chunk stream: a chunk, or the error that ended the stream.
pub type StreamItem = Result<AskChunk, AiError>;

} // verus!
