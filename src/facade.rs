//! The dispatcher: default hydration, credential check, adapter selection,
//! latency, and the structured-output repair policy.

use vstd::prelude::*;

use crate::ask::config::AskConfig;
use crate::ask::msg::{Msg, Role};
use crate::ask::request::{AskOptions, AskRequest, Temperature};
use crate::ask::response::AskResponse;
use crate::client::anthropic::{anthropic_request, AnthropicApi};
use crate::client::openai::{openai_request, OpenAiApi};
use crate::client::{api_of, spec_api_of, ProviderAPI, ProviderRequest};
use crate::config::AiConfig;
use crate::error::AiError;

verus! {

/// The dispatcher.
pub struct CnctdAi;

/// Temperature used when a request sets none (0.2).
pub const DEFAULT_TEMPERATURE_MILLI: u32 = 200;

/// Output-token bound used when a request sets none.
pub const DEFAULT_MAX_OUTPUT_TOKENS: u32 = 512;

/// The request with every unset field given its default: the configured
/// model, temperature 0.2, 512 output tokens, no streaming.
pub open spec fn spec_hydrate(req: AskRequest, default_model: String) -> AskRequest {
    AskRequest {
        model: match req.model {
            Some(m) => Some(m),
            None => Some(default_model),
        },
        options: AskOptions {
            temperature: match req.options.temperature {
                Some(t) => Some(t),
                None => Some(Temperature { milli: DEFAULT_TEMPERATURE_MILLI }),
            },
            max_output_tokens: match req.options.max_output_tokens {
                Some(n) => Some(n),
                None => Some(DEFAULT_MAX_OUTPUT_TOKENS),
            },
            stream: match req.options.stream {
                Some(s) => Some(s),
                None => Some(false),
            },
            ..req.options
        },
        ..req
    }
}

/// Whether every field that hydration fills is already set.
pub open spec fn fully_specified(req: AskRequest) -> bool {
    &&& req.model is Some
    &&& req.options.temperature is Some
    &&& req.options.max_output_tokens is Some
    &&& req.options.stream is Some
}

/// The options of a structured-output call: strict JSON, temperature 0 and
/// 512 output tokens, wherever the caller left them unset.
pub open spec fn spec_structured_options(o: AskOptions) -> AskOptions {
    AskOptions {
        json_mode: match o.json_mode {
            Some(b) => Some(b),
            None => Some(true),
        },
        temperature: match o.temperature {
            Some(t) => Some(t),
            None => Some(Temperature { milli: 0 }),
        },
        max_output_tokens: match o.max_output_tokens {
            Some(n) => Some(n),
            None => Some(DEFAULT_MAX_OUTPUT_TOKENS),
        },
        ..o
    }
}

/// The instruction appended to a transcript whose answer was not JSON.
pub open spec fn repair_instruction() -> Seq<char> {
    "Your previous output was not valid JSON. Re-emit only valid minified JSON. No prose."@
}

/// Whole milliseconds covering `nanos` nanoseconds, rounded up, so that any
/// measured call reports a positive latency.
pub open spec fn spec_latency_ms(nanos: u128) -> int {
    (nanos as int + 999_999) / 1_000_000
}

/// A call ready for the transport: where it goes and what it sends.
#[derive(Clone, Debug)]
pub struct PreparedCall {
    pub config: AskConfig,
    pub request: ProviderRequest,
    /// Whether the caller asked for a stream.
    pub stream: bool,
}

impl CnctdAi {
    /// Fills every unset field of the request with its default. Nothing
    /// else changes.
    pub fn hydrate(request: AskRequest, config: &AiConfig) -> (r: AskRequest)
        ensures
            r == spec_hydrate(request, config.default_model),
            fully_specified(r),
            fully_specified(request) ==> r == request,
    {
        let mut req = request;
        if req.model.is_none() {
            req.model = Some(config.default_model.clone());
        }
        if req.options.temperature.is_none() {
            req.options.temperature = Some(Temperature { milli: DEFAULT_TEMPERATURE_MILLI });
        }
        if req.options.max_output_tokens.is_none() {
            req.options.max_output_tokens = Some(DEFAULT_MAX_OUTPUT_TOKENS);
        }
        if req.options.stream.is_none() {
            req.options.stream = Some(false);
        }
        req
    }

    /// Biases a structured-output request toward determinism and bounded
    /// length: strict JSON, temperature 0 and 512 output tokens wherever
    /// the caller left them unset.
    pub fn structured_request(request: AskRequest) -> (r: AskRequest)
        ensures
            r == (AskRequest { options: spec_structured_options(request.options), ..request }),
    {
        let mut req = request;
        if req.options.json_mode.is_none() {
            req.options.json_mode = Some(true);
        }
        if req.options.temperature.is_none() {
            req.options.temperature = Some(Temperature { milli: 0 });
        }
        if req.options.max_output_tokens.is_none() {
            req.options.max_output_tokens = Some(DEFAULT_MAX_OUTPUT_TOKENS);
        }
        req
    }

    /// The request re-issued after an answer that was not JSON: the same
    /// request with one user message appended that asks for minified JSON.
    pub fn repair_request(request: AskRequest) -> (r: AskRequest)
        ensures
            r.messages@.len() == request.messages@.len() + 1,
            r.messages@.drop_last() == request.messages@,
            r.messages@.last().role == Role::User,
            r.messages@.last().content@ == repair_instruction(),
            r.messages@.last().name is None,
            r == (AskRequest { messages: r.messages, ..request }),
    {
        let mut req = request;
        let ghost before = req.messages@;
        let note = String::from_str(
            "Your previous output was not valid JSON. Re-emit only valid minified JSON. No prose.",
        );
        req.messages.push(Msg::new(Role::User, note));
        assert(req.messages@.drop_last() =~= before);
        req
    }

    /// Checks the credential, fills defaults and builds the provider-native
    /// request. A provider whose key is not configured fails with `Auth`
    /// here, before any transport is touched.
    pub fn prepare(config: &AiConfig, request: AskRequest) -> (r: Result<PreparedCall, AiError>)
        ensures
            config.spec_key(request.provider) is None <==> r is Err,
            r is Err ==> r == Err::<PreparedCall, AiError>(AiError::Auth),
            r matches Ok(call) ==> {
                let hydrated = spec_hydrate(request, config.default_model);
                &&& Some(call.config.model) == hydrated.model
                &&& call.config.api == spec_api_of(request.provider)
                &&& Some(call.config.api_key) == config.spec_key(request.provider)
                &&& call.config.url == config.spec_base_url(request.provider)
                &&& call.config.request_timeout == config.request_timeout
                &&& Some(call.stream) == hydrated.options.stream
                &&& match call.config.api {
                    ProviderAPI::OpenAI => openai_request(call.request, call.config, hydrated),
                    ProviderAPI::Anthropic => anthropic_request(call.request, call.config, hydrated),
                }
            },
    {
        let provider = request.provider;
        let key = match provider {
            crate::types::ProviderId::Anthropic => &config.anthropic_api_key,
            _ => &config.openai_api_key,
        };
        let api_key = match key {
            Some(k) => k.clone(),
            None => {
                return Err(AiError::Auth);
            },
        };
        let url = match provider {
            crate::types::ProviderId::Anthropic => config.anthropic_base_url.clone(),
            _ => config.openai_base_url.clone(),
        };
        let hydrated = CnctdAi::hydrate(request, config);
        let model = match &hydrated.model {
            Some(m) => m.clone(),
            None => config.default_model.clone(),
        };
        let stream = match hydrated.options.stream {
            Some(s) => s,
            None => false,
        };
        let api = api_of(provider);
        let ask_config = AskConfig {
            model,
            api,
            url,
            api_key,
            request_timeout: config.request_timeout.clone(),
        };
        let wire = match api {
            ProviderAPI::OpenAI => OpenAiApi::build_request(&ask_config, &hydrated),
            ProviderAPI::Anthropic => AnthropicApi::build_request(&ask_config, &hydrated),
        };
        Ok(PreparedCall { config: ask_config, request: wire, stream })
    }

    /// Whole milliseconds covering an elapsed time in nanoseconds, rounded
    /// up.
    pub fn latency_ms(nanos: u128) -> (r: u128)
        ensures
            r == spec_latency_ms(nanos),
            nanos > 0 ==> r > 0,
    {
        let whole = nanos / 1_000_000;
        if nanos % 1_000_000 == 0 {
            whole
        } else {
            whole + 1
        }
    }

    /// The response with its latency overwritten by the dispatcher's own
    /// measurement of the whole call.
    pub fn with_latency(response: AskResponse, elapsed_nanos: u128) -> (r: AskResponse)
        ensures
            r == (AskResponse { latency_ms: spec_latency_ms(elapsed_nanos) as u128, ..response }),
    {
        let mut resp = response;
        resp.latency_ms = CnctdAi::latency_ms(elapsed_nanos);
        resp
    }
}

/// Where a structured-output call stands.
#[derive(Clone, Copy, Debug, PartialEq, Eq, Structural)]
pub enum StructuredPhase {
    /// Waiting for the answer to the first request.
    First,
    /// Waiting for the answer to the one repair request.
    Repair,
    /// Settled: accepted or rejected.
    Done,
}

/// What a structured-output call's answer settles.
#[derive(Clone, Copy, Debug, PartialEq, Eq, Structural)]
pub enum StructuredOutcome {
    Accepted,
    Rejected,
    /// An answer is still awaited.
    Waiting,
}

/// What the caller does next.
pub enum StructuredAction<T> {
    /// Send this request and report the parsed answer.
    Ask(AskRequest),
    /// The answer parsed: the call succeeds with it.
    Accept(T),
    /// Both answers failed to parse: the call fails with this error.
    Reject(AiError),
}

/// One step of the repair policy: from a phase and whether the answer
/// parsed, the next phase, the outcome, and whether a request is issued.
pub open spec fn reply_step(phase: StructuredPhase, parsed: bool) -> (StructuredPhase, StructuredOutcome, bool) {
    match phase {
        StructuredPhase::First => if parsed {
            (StructuredPhase::Done, StructuredOutcome::Accepted, false)
        } else {
            (StructuredPhase::Repair, StructuredOutcome::Waiting, true)
        },
        StructuredPhase::Repair => if parsed {
            (StructuredPhase::Done, StructuredOutcome::Accepted, false)
        } else {
            (StructuredPhase::Done, StructuredOutcome::Rejected, false)
        },
        StructuredPhase::Done => (StructuredPhase::Done, StructuredOutcome::Waiting, false),
    }
}

/// The outcome and the number of requests issued when the answers parse
/// as `parsed` says, in order, from `phase` with `asks` requests issued.
/// Answers after the call settles are never read.
pub open spec fn drive(phase: StructuredPhase, parsed: Seq<bool>, asks: nat) -> (StructuredOutcome, nat)
    decreases parsed.len(),
{
    if parsed.len() == 0 || phase == StructuredPhase::Done {
        (StructuredOutcome::Waiting, asks)
    } else {
        let (next, outcome, ask) = reply_step(phase, parsed[0]);
        if next == StructuredPhase::Done {
            (outcome, asks)
        } else {
            drive(next, parsed.subrange(1, parsed.len() as int), if ask { asks + 1 } else { asks })
        }
    }
}

/// A structured-output call in progress.
pub struct StructuredCall {
    pub phase: StructuredPhase,
    /// The request as last sent.
    pub request: AskRequest,
    /// Requests issued so far.
    pub asks: Ghost<nat>,
}

impl StructuredCall {
    /// Starts a call: the structured options are applied and the first
    /// request is handed out to be sent.
    pub fn start(request: AskRequest) -> (r: (StructuredCall, AskRequest))
        ensures
            r.0.phase == StructuredPhase::First,
            r.0.asks@ == 1,
            r.0.request == (AskRequest { options: spec_structured_options(request.options), ..request }),
            r.1.provider == r.0.request.provider,
            r.1.model == r.0.request.model,
            r.1.system == r.0.request.system,
            r.1.messages@ == r.0.request.messages@,
            r.1.options == r.0.request.options,
            r.1.context_refs@ == r.0.request.context_refs@,
    {
        let req = CnctdAi::structured_request(request);
        let send = req.duplicate();
        (StructuredCall { phase: StructuredPhase::First, request: req, asks: Ghost(1) }, send)
    }

    /// Takes the parse result of the latest answer. A parsed answer is
    /// accepted; the first failure issues the repair request; a second
    /// failure rejects the call with a `Json` error carrying the parse error.
    pub fn on_reply<T>(&mut self, parsed: Result<T, String>) -> (r: StructuredAction<T>)
        requires
            old(self).phase != StructuredPhase::Done,
        ensures
            ({
                let (next, outcome, ask) = reply_step(old(self).phase, parsed is Ok);
                &&& final(self).phase == next
                &&& final(self).asks@ == if ask { old(self).asks@ + 1 } else { old(self).asks@ }
                &&& (outcome == StructuredOutcome::Accepted) == (r is Accept)
                &&& (outcome == StructuredOutcome::Rejected) == (r is Reject)
                &&& ask == (r is Ask)
            }),
            parsed matches Ok(v) ==> r matches StructuredAction::Accept(w) && w == v,
            r matches StructuredAction::Reject(e) ==> parsed matches Err(d) && e == AiError::Json(d),
            r matches StructuredAction::Ask(q) ==> {
                &&& q.messages@.drop_last() == old(self).request.messages@
                &&& q.messages@.len() == old(self).request.messages@.len() + 1
                &&& q.messages@.last().role == Role::User
                &&& q.messages@.last().content@ == repair_instruction()
                &&& q.provider == old(self).request.provider
                &&& q.model == old(self).request.model
                &&& q.system == old(self).request.system
                &&& q.options == old(self).request.options
                &&& q.context_refs@ == old(self).request.context_refs@
                &&& final(self).request.messages@ == q.messages@
            },
    {
        match parsed {
            Ok(v) => {
                self.phase = StructuredPhase::Done;
                StructuredAction::Accept(v)
            },
            Err(detail) => {
                match self.phase {
                    StructuredPhase::First => {
                        let repaired = CnctdAi::repair_request(self.request.duplicate());
                        let send = repaired.duplicate();
                        self.request = repaired;
                        self.phase = StructuredPhase::Repair;
                        self.asks = Ghost(self.asks@ + 1);
                        StructuredAction::Ask(send)
                    },
                    _ => {
                        self.phase = StructuredPhase::Done;
                        StructuredAction::Reject(AiError::Json(detail))
                    },
                }
            },
        }
    }
}

/// Law: when the first answer is not JSON and the repaired one is, the
/// call succeeds after exactly two requests, whatever would follow.
pub proof fn repair_succeeds_after_two_asks(parsed: Seq<bool>)
    requires
        parsed.len() >= 2,
        !parsed[0],
        parsed[1],
    ensures
        drive(StructuredPhase::First, parsed, 1) == (StructuredOutcome::Accepted, 2nat),
{
    let rest = parsed.subrange(1, parsed.len() as int);
    assert(rest[0] == parsed[1]);
    assert(drive(StructuredPhase::First, parsed, 1) == drive(StructuredPhase::Repair, rest, 2));
}

/// Law: when neither answer is JSON, the call fails after exactly two
/// requests and never issues a third.
pub proof fn repair_fails_after_two_asks(parsed: Seq<bool>)
    requires
        parsed.len() >= 2,
        !parsed[0],
        !parsed[1],
    ensures
        drive(StructuredPhase::First, parsed, 1) == (StructuredOutcome::Rejected, 2nat),
{
    let rest = parsed.subrange(1, parsed.len() as int);
    assert(rest[0] == parsed[1]);
    assert(drive(StructuredPhase::First, parsed, 1) == drive(StructuredPhase::Repair, rest, 2));
}

/// Law: hydration is idempotent, and leaves an already fully specified
/// request unchanged.
pub proof fn hydration_idempotent(req: AskRequest, default_model: String)
    ensures
        spec_hydrate(spec_hydrate(req, default_model), default_model) == spec_hydrate(req, default_model),
        fully_specified(req) ==> spec_hydrate(req, default_model) == req,
{
}

} // verus!
