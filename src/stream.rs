//! Stream aggregation: provider events in, normalized chunks out, with the
//! answer text accumulated for the one terminal `Complete` chunk.

use vstd::prelude::*;

use crate::ask::request::{AskChunk, StreamItem};
use crate::ask::response::{AskResponse, Usage};
use crate::client::openai::{finish_reason_str, spec_finish_reason};
use crate::client::FinishSignal;
use crate::error::AiError;

verus! {

/// One event observed from a provider transport, in arrival order.
#[derive(Debug)]
pub enum StreamEvent {
    /// A fragment of answer text.
    Text(String),
    /// A tool-call fragment.
    ToolCall { tool_call_id: String, name: Option<String>, args_delta: Option<String> },
    /// The provider announced a role.
    Role(String),
    /// The provider reported why it stopped.
    Finish(FinishSignal),
    /// A usage snapshot.
    Usage(Usage),
    /// The raw payload of the latest provider event.
    Meta(serde_json::Value),
    /// The transport finished normally.
    End,
    /// The transport failed.
    Failed(AiError),
}

/// Whether an item ends a stream.
pub open spec fn is_terminal(item: StreamItem) -> bool {
    match item {
        Ok(AskChunk::Complete(_)) => true,
        Ok(_) => false,
        Err(_) => true,
    }
}

/// Whether an item is a `Complete` chunk.
pub open spec fn is_complete(item: StreamItem) -> bool {
    item matches Ok(AskChunk::Complete(_))
}

/// The concatenated text of the `Delta` chunks among `items`, in order.
pub open spec fn delta_text(items: Seq<StreamItem>) -> Seq<char>
    decreases items.len(),
{
    if items.len() == 0 {
        Seq::empty()
    } else {
        let rest = delta_text(items.drop_last());
        match items.last() {
            Ok(AskChunk::Delta { text }) => rest + text@,
            _ => rest,
        }
    }
}

/// How many `Complete` chunks `items` holds.
pub open spec fn count_complete(items: Seq<StreamItem>) -> nat
    decreases items.len(),
{
    if items.len() == 0 {
        0
    } else {
        count_complete(items.drop_last()) + if is_complete(items.last()) {
            1nat
        } else {
            0nat
        }
    }
}

/// The normalized finish reason for the last reported signal, "stop" when
/// none was reported.
pub open spec fn final_finish_reason(f: Option<FinishSignal>) -> Seq<char> {
    match f {
        Some(s) => spec_finish_reason(s),
        None => "stop"@,
    }
}

/// The per-stream state: the text so far, the last finish signal, usage
/// snapshot and raw payload, and whether a terminal item was handed out.
pub struct StreamAggregator {
    pub text: String,
    pub finish: Option<FinishSignal>,
    pub usage: Option<Usage>,
    pub provider_meta: serde_json::Value,
    pub closed: bool,
    /// Every item handed out so far.
    pub emitted: Ghost<Seq<StreamItem>>,
}

impl StreamAggregator {
    /// The aggregator's invariant: the text is the concatenation of the
    /// deltas handed out, no item follows a terminal one, and the stream is
    /// closed exactly when the last item is terminal.
    pub open spec fn wf(&self) -> bool {
        &&& delta_text(self.emitted@) == self.text@
        &&& forall|i: int| 0 <= i < self.emitted@.len() - 1 ==> !is_terminal(#[trigger] self.emitted@[i])
        &&& self.closed == (self.emitted@.len() > 0 && is_terminal(self.emitted@.last()))
        &&& count_complete(self.emitted@) == if self.closed && is_complete(self.emitted@.last()) {
            1nat
        } else {
            0nat
        }
        &&& (self.closed && is_complete(self.emitted@.last())) ==> (
        self.emitted@.last() matches Ok(AskChunk::Complete(resp)) && resp.text@ == self.text@)
    }

    /// A fresh aggregator; `provider_meta` is the payload reported when no
    /// provider event carries one.
    pub fn new(provider_meta: serde_json::Value) -> (r: StreamAggregator)
        ensures
            r.wf(),
            !r.closed,
            r.text@.len() == 0,
            r.finish is None,
            r.usage is None,
            r.provider_meta == provider_meta,
            r.emitted@.len() == 0,
    {
        StreamAggregator {
            text: String::new(),
            finish: None,
            usage: None,
            provider_meta,
            closed: false,
            emitted: Ghost(Seq::empty()),
        }
    }

    /// Takes one event and returns the item, if any, to hand to the
    /// consumer. Text fragments are forwarded and accumulated; tool-call
    /// fragments and roles are forwarded; finish signals, usage and payloads
    /// are recorded; `End` yields the one `Complete` chunk and `Failed` the
    /// error, after which the stream is closed.
    pub fn accept(&mut self, ev: StreamEvent) -> (r: Option<StreamItem>)
        requires
            old(self).wf(),
            !old(self).closed,
        ensures
            final(self).wf(),
            final(self).emitted@ == match r {
                Some(item) => old(self).emitted@.push(item),
                None => old(self).emitted@,
            },
            final(self).closed == (ev is End || ev is Failed),
            match ev {
                StreamEvent::Text(t) => {
                    &&& r == Some(Ok::<AskChunk, AiError>(AskChunk::Delta { text: t }))
                    &&& final(self).text@ == old(self).text@ + t@
                },
                StreamEvent::ToolCall { tool_call_id, name, args_delta } => r == Some(
                    Ok::<AskChunk, AiError>(AskChunk::ToolCallDelta { tool_call_id, name, args_delta }),
                ),
                StreamEvent::Role(role) => r == Some(Ok::<AskChunk, AiError>(AskChunk::Role(role))),
                StreamEvent::Finish(f) => r is None && final(self).finish == Some(f),
                StreamEvent::Usage(u) => r is None && final(self).usage == Some(u),
                StreamEvent::Meta(v) => r is None && final(self).provider_meta == v,
                StreamEvent::End => r matches Some(Ok(AskChunk::Complete(resp))) && {
                    &&& resp.text@ == old(self).text@
                    &&& resp.text@ == delta_text(old(self).emitted@)
                    &&& resp.finish_reason@ == final_finish_reason(old(self).finish)
                    &&& resp.usage == old(self).usage
                    &&& resp.latency_ms == 0
                    &&& resp.provider_meta == old(self).provider_meta
                },
                StreamEvent::Failed(e) => r == Some(Err::<AskChunk, AiError>(e)),
            },
            !(ev is Text) ==> final(self).text == old(self).text,
            !(ev is Finish) ==> final(self).finish == old(self).finish,
            !(ev is Usage) ==> final(self).usage == old(self).usage,
            !(ev is Meta) ==> final(self).provider_meta == old(self).provider_meta,
    {
        let ghost prev = self.emitted@;
        let r: Option<StreamItem> = match ev {
            StreamEvent::Text(t) => {
                self.text.append(t.as_str());
                Some(Ok(AskChunk::Delta { text: t }))
            },
            StreamEvent::ToolCall { tool_call_id, name, args_delta } => {
                Some(Ok(AskChunk::ToolCallDelta { tool_call_id, name, args_delta }))
            },
            StreamEvent::Role(role) => Some(Ok(AskChunk::Role(role))),
            StreamEvent::Finish(f) => {
                self.finish = Some(f);
                None
            },
            StreamEvent::Usage(u) => {
                self.usage = Some(u);
                None
            },
            StreamEvent::Meta(v) => {
                self.provider_meta = v;
                None
            },
            StreamEvent::End => {
                let finish_reason = match self.finish {
                    Some(f) => String::from_str(finish_reason_str(f)),
                    None => String::from_str("stop"),
                };
                proof {
                    reveal_strlit("stop");
                }
                let text = self.text.clone();
                let resp = AskResponse {
                    text,
                    finish_reason,
                    usage: self.usage,
                    latency_ms: 0,
                    provider_meta: self.provider_meta.clone(),
                };
                self.closed = true;
                Some(Ok(AskChunk::Complete(resp)))
            },
            StreamEvent::Failed(e) => {
                self.closed = true;
                Some(Err(e))
            },
        };
        match &r {
            Some(item) => {
                self.emitted = Ghost(prev.push(*item));
                assert(self.emitted@.drop_last() =~= prev);
            },
            None => {},
        }
        r
    }
}

/// The concatenated `Text` fragments among `evs`, in order.
pub open spec fn event_text(evs: Seq<StreamEvent>) -> Seq<char>
    decreases evs.len(),
{
    if evs.len() == 0 {
        Seq::empty()
    } else {
        let rest = event_text(evs.drop_last());
        match evs.last() {
            StreamEvent::Text(t) => rest + t@,
            _ => rest,
        }
    }
}

/// Whether an event ends the transport.
pub open spec fn ends_transport(ev: StreamEvent) -> bool {
    ev is End || ev is Failed
}

/// Law: for every stream that closed with a `Complete` chunk, the `Delta`
/// texts handed out before it, concatenated in order, equal the text of
/// that `Complete` chunk.
pub proof fn stream_text_round_trip(a: &StreamAggregator)
    requires
        a.wf(),
        a.closed,
        is_complete(a.emitted@.last()),
    ensures
        a.emitted@.last() matches Ok(AskChunk::Complete(resp)) && resp.text@ == delta_text(
            a.emitted@.drop_last(),
        ),
{
}

/// Law: every closed stream ends with exactly one terminal item, nothing
/// follows it, and it holds one `Complete` chunk exactly when it did not
/// fail, that chunk being the last.
pub proof fn stream_single_terminal(a: &StreamAggregator)
    requires
        a.wf(),
        a.closed,
    ensures
        a.emitted@.len() > 0,
        is_terminal(a.emitted@.last()),
        forall|i: int| 0 <= i < a.emitted@.len() - 1 ==> !is_terminal(#[trigger] a.emitted@[i]),
        count_complete(a.emitted@) == if a.emitted@.last() is Ok {
            1nat
        } else {
            0nat
        },
{
}

/// The events before the first one that ends the transport.
pub open spec fn live_prefix(evs: Seq<StreamEvent>) -> Seq<StreamEvent>
    decreases evs.len(),
{
    if evs.len() == 0 || ends_transport(evs[0]) {
        Seq::empty()
    } else {
        seq![evs[0]] + live_prefix(evs.drop_first())
    }
}

/// The first event that ends the transport, if any.
pub open spec fn terminal_event(evs: Seq<StreamEvent>) -> Option<StreamEvent>
    decreases evs.len(),
{
    if evs.len() == 0 {
        None
    } else if ends_transport(evs[0]) {
        Some(evs[0])
    } else {
        terminal_event(evs.drop_first())
    }
}

/// The chunks forwarded for `evs` as they arrive: a delta for each text
/// fragment, and each tool-call fragment and role as received.
pub open spec fn forwarded(evs: Seq<StreamEvent>) -> Seq<StreamItem>
    decreases evs.len(),
{
    if evs.len() == 0 {
        Seq::empty()
    } else {
        let rest = forwarded(evs.drop_last());
        match evs.last() {
            StreamEvent::Text(t) => rest.push(Ok(AskChunk::Delta { text: t })),
            StreamEvent::ToolCall { tool_call_id, name, args_delta } => rest.push(
                Ok(AskChunk::ToolCallDelta { tool_call_id, name, args_delta }),
            ),
            StreamEvent::Role(role) => rest.push(Ok(AskChunk::Role(role))),
            _ => rest,
        }
    }
}

/// The last finish signal among `evs`.
pub open spec fn last_finish(evs: Seq<StreamEvent>) -> Option<FinishSignal>
    decreases evs.len(),
{
    if evs.len() == 0 {
        None
    } else {
        match evs.last() {
            StreamEvent::Finish(f) => Some(f),
            _ => last_finish(evs.drop_last()),
        }
    }
}

/// The last usage snapshot among `evs`.
pub open spec fn last_usage(evs: Seq<StreamEvent>) -> Option<Usage>
    decreases evs.len(),
{
    if evs.len() == 0 {
        None
    } else {
        match evs.last() {
            StreamEvent::Usage(u) => Some(u),
            _ => last_usage(evs.drop_last()),
        }
    }
}

/// The last payload among `evs`, `init` when there is none.
pub open spec fn last_meta(evs: Seq<StreamEvent>, init: serde_json::Value) -> serde_json::Value
    decreases evs.len(),
{
    if evs.len() == 0 {
        init
    } else {
        match evs.last() {
            StreamEvent::Meta(v) => v,
            _ => last_meta(evs.drop_last(), init),
        }
    }
}

/// Whether `resp` is the response aggregated from the live events `live`
/// with `init` as the payload when no event carries one.
pub open spec fn aggregated(resp: AskResponse, live: Seq<StreamEvent>, init: serde_json::Value) -> bool {
    &&& resp.text@ == event_text(live)
    &&& resp.finish_reason@ == final_finish_reason(last_finish(live))
    &&& resp.usage == last_usage(live)
    &&& resp.latency_ms == 0
    &&& resp.provider_meta == last_meta(live, init)
}

/// The live prefix and terminal event of a sequence whose first `k` events
/// do not end the transport are those of its remainder, after those `k`.
pub proof fn live_split(evs: Seq<StreamEvent>, k: int)
    requires
        0 <= k <= evs.len(),
        forall|i: int| 0 <= i < k ==> !ends_transport(#[trigger] evs[i]),
    ensures
        live_prefix(evs) == evs.subrange(0, k) + live_prefix(evs.subrange(k, evs.len() as int)),
        terminal_event(evs) == terminal_event(evs.subrange(k, evs.len() as int)),
    decreases k,
{
    if k == 0 {
        assert(evs.subrange(0, evs.len() as int) =~= evs);
        assert(evs.subrange(0, 0) + live_prefix(evs) =~= live_prefix(evs));
    } else {
        let tail = evs.drop_first();
        assert forall|i: int| 0 <= i < k - 1 implies !ends_transport(#[trigger] tail[i]) by {
            assert(tail[i] == evs[i + 1]);
        }
        live_split(tail, k - 1);
        assert(!ends_transport(evs[0]));
        assert(tail.subrange(k - 1, tail.len() as int) =~= evs.subrange(k, evs.len() as int));
        assert(seq![evs[0]] + tail.subrange(0, k - 1) =~= evs.subrange(0, k));
        assert(seq![evs[0]] + (tail.subrange(0, k - 1) + live_prefix(evs.subrange(k, evs.len() as int)))
            =~= evs.subrange(0, k) + live_prefix(evs.subrange(k, evs.len() as int)));
    }
}

/// Runs a whole event sequence through a fresh aggregator: the chunks
/// forwarded for the events before the first one that ends the transport,
/// then the error of a failure, or else one `Complete` chunk with the
/// aggregated response. Events after that are not read; a sequence that
/// runs out ends as if the transport finished normally.
pub fn collect_stream(mut events: Vec<StreamEvent>, provider_meta: serde_json::Value) -> (r: Vec<
    StreamItem,
>)
    ensures
        r@.len() > 0,
        r@.drop_last() == forwarded(live_prefix(events@)),
        match terminal_event(events@) {
            Some(StreamEvent::Failed(e)) => r@.last() == Err::<AskChunk, AiError>(e),
            _ => r@.last() matches Ok(AskChunk::Complete(resp)) && aggregated(
                resp,
                live_prefix(events@),
                provider_meta,
            ),
        },
        is_terminal(r@.last()),
        forall|i: int| 0 <= i < r@.len() - 1 ==> !is_terminal(#[trigger] r@[i]),
        count_complete(r@) == if r@.last() is Ok {
            1nat
        } else {
            0nat
        },
        r@.last() matches Ok(AskChunk::Complete(resp)) ==> resp.text@ == delta_text(r@.drop_last()),
{
    let ghost evs = events@;
    let ghost init = provider_meta;
    let mut agg = StreamAggregator::new(provider_meta);
    let mut out: Vec<StreamItem> = Vec::new();
    let total: usize = events.len();
    let mut k: usize = 0;
    assert(out@ =~= agg.emitted@);
    assert(evs.subrange(0, 0) =~= Seq::<StreamEvent>::empty());
    loop
        invariant_except_break
            !agg.closed,
            forall|i: int| 0 <= i < k ==> !ends_transport(#[trigger] evs[i]),
            out@ == forwarded(evs.subrange(0, k as int)),
            agg.text@ == event_text(evs.subrange(0, k as int)),
            agg.finish == last_finish(evs.subrange(0, k as int)),
            agg.usage == last_usage(evs.subrange(0, k as int)),
            agg.provider_meta == last_meta(evs.subrange(0, k as int), init),
        invariant
            agg.wf(),
            evs.len() == total,
            out@ == agg.emitted@,
            k <= evs.len(),
            events@ == evs.subrange(k as int, evs.len() as int),
        ensures
            agg.wf(),
            agg.closed,
            out@ == agg.emitted@,
            out@.drop_last() == forwarded(live_prefix(evs)),
            match terminal_event(evs) {
                Some(StreamEvent::Failed(e)) => out@.last() == Err::<AskChunk, AiError>(e),
                _ => out@.last() matches Ok(AskChunk::Complete(resp)) && aggregated(
                    resp,
                    live_prefix(evs),
                    init,
                ),
            },
        decreases evs.len() - k,
    {
        let ghost pre = evs.subrange(0, k as int);
        let ghost before = out@;
        if events.len() > 0 {
            let ev = events.remove(0);
            let ghost e = ev;
            assert(e == evs[k as int]);
            assert(events@ =~= evs.subrange(k + 1, evs.len() as int));
            let ghost next = evs.subrange(0, k + 1);
            assert(next.drop_last() =~= pre);
            assert(next.last() == e);
            let item = agg.accept(ev);
            match item {
                Some(x) => {
                    out.push(x);
                },
                None => {},
            }
            k = k + 1;
            if agg.closed {
                proof {
                    live_split(evs, k - 1);
                    let rest = evs.subrange(k - 1, evs.len() as int);
                    assert(rest[0] == e);
                    assert(live_prefix(rest) =~= Seq::<StreamEvent>::empty());
                    assert(terminal_event(rest) == Some(e));
                    assert(live_prefix(evs) =~= pre);
                    assert(out@.drop_last() =~= before);
                }
                break;
            }
        } else {
            proof {
                live_split(evs, k as int);
                let rest = evs.subrange(k as int, evs.len() as int);
                assert(rest.len() == 0);
                assert(live_prefix(evs) =~= pre);
            }
            let item = agg.accept(StreamEvent::End);
            match item {
                Some(x) => {
                    out.push(x);
                },
                None => {},
            }
            proof {
                assert(out@.drop_last() =~= before);
            }
            break;
        }
    }
    proof {
        stream_single_terminal(&agg);
        if is_complete(agg.emitted@.last()) {
            stream_text_round_trip(&agg);
        }
    }
    out
}

/// The response aggregated from a whole event sequence, or the error that
/// ended it.
pub fn collect_response(events: Vec<StreamEvent>, provider_meta: serde_json::Value) -> (r: Result<
    AskResponse,
    AiError,
>)
    ensures
        match terminal_event(events@) {
            Some(StreamEvent::Failed(e)) => r == Err::<AskResponse, AiError>(e),
            _ => r matches Ok(resp) && aggregated(resp, live_prefix(events@), provider_meta),
        },
{
    let mut items = collect_stream(events, provider_meta);
    let last = items.pop();
    match last {
        Some(Ok(AskChunk::Complete(resp))) => Ok(resp),
        Some(Err(e)) => Err(e),
        _ => unreached(),
    }
}

} // verus!
