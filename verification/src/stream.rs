//! Streamed completions: provider chunks in, [`StreamEvent`]s out.
//!
//! The terminator order is a contract: `Usage` (when the provider reported it)
//! comes before `Done`, so a consumer that stops reading at `Done` has already
//! seen the usage. A provider error is the last item of its stream; no `Done`
//! follows it.

use crate::provider::{FinishReason, LlmError, LlmErrorView, StreamEvent, StreamEventView};
use crate::response::{
    map_completion_error, stream_usage_event, take_correlation_id, CompletionFailure,
    ReportedUsage,
};
use vstd::prelude::*;

verus! {

/// One chunk of a provider's stream.
#[derive(Debug)]
pub enum StreamChunk {
    Text(String),
    /// A tool call, complete: it arrives once the provider client has
    /// assembled the whole call.
    ToolCall {
        id: String,
        call_id: Option<String>,
        name: String,
        arguments: serde_json::Value,
    },
    /// Content that is not surfaced: reasoning, partial tool calls, the final
    /// raw response.
    Other,
}

/// How a provider's stream ended.
#[derive(Debug)]
pub enum StreamEnd {
    /// It ran to its end, with the usage that came with it.
    Finished(Option<ReportedUsage>),
    /// The provider failed.
    Failed(CompletionFailure),
}

// ---------------------------------------------------------------------------
// Models
// ---------------------------------------------------------------------------

/// The events of one chunk. A tool call is complete when it arrives, so it
/// becomes a start marker immediately followed by its end.
pub open spec fn chunk_events(chunk: StreamChunk) -> Seq<StreamEventView> {
    match chunk {
        StreamChunk::Text(text) => seq![StreamEventView::TextChunk(text@)],
        StreamChunk::ToolCall { id, call_id, name, arguments } => seq![
            StreamEventView::ToolCallStart {
                id: crate::response::correlation_id(id, call_id)@,
                name: name@,
            },
            StreamEventView::ToolCallEnd {
                id: crate::response::correlation_id(id, call_id)@,
                args: arguments,
            },
        ],
        StreamChunk::Other => Seq::empty(),
    }
}

/// The events of the chunks, in order.
pub open spec fn body_events(chunks: Seq<StreamChunk>) -> Seq<StreamEventView>
    decreases chunks.len(),
{
    if chunks.len() == 0 {
        Seq::empty()
    } else {
        body_events(chunks.drop_last()) + chunk_events(chunks.last())
    }
}

/// Whether some chunk is a tool call.
pub open spec fn saw_call(chunks: Seq<StreamChunk>) -> bool {
    exists|i: int| 0 <= i < chunks.len() && (#[trigger] chunks[i]) is ToolCall
}

/// Why a stream of these chunks ended, when it ran to its end.
pub open spec fn stream_finish(chunks: Seq<StreamChunk>) -> FinishReason {
    if saw_call(chunks) {
        FinishReason::ToolCalls
    } else {
        FinishReason::Stop
    }
}

/// The usage event that closes a stream, if usage was reported.
pub open spec fn closing_usage(reported: Option<ReportedUsage>, model: Seq<char>) -> Option<
    StreamEventView,
> {
    match reported {
        Some(usage) => crate::response::usage_event(usage, model),
        None => None,
    }
}

/// The events that close a stream that ran to its end.
pub open spec fn closing_events(
    chunks: Seq<StreamChunk>,
    reported: Option<ReportedUsage>,
    model: Seq<char>,
) -> Seq<StreamEventView> {
    let done = StreamEventView::Done { finish_reason: stream_finish(chunks) };
    match closing_usage(reported, model) {
        Some(usage) => seq![usage, done],
        None => seq![done],
    }
}

/// Events as items of a stream.
pub open spec fn as_items(events: Seq<StreamEventView>) -> Seq<
    Result<StreamEventView, LlmErrorView>,
> {
    events.map_values(|e: StreamEventView| Ok::<StreamEventView, LlmErrorView>(e))
}

/// Everything a consumer sees of a stream.
pub open spec fn transcript(
    chunks: Seq<StreamChunk>,
    end: StreamEnd,
    model: Seq<char>,
) -> Seq<Result<StreamEventView, LlmErrorView>> {
    as_items(body_events(chunks)) + match end {
        StreamEnd::Finished(reported) => as_items(closing_events(chunks, reported, model)),
        StreamEnd::Failed(failure) => seq![Err(crate::response::failure_error(failure))],
    }
}

/// The model of one stream item.
pub open spec fn item_view(item: Result<StreamEvent, LlmError>) -> Result<
    StreamEventView,
    LlmErrorView,
> {
    match item {
        Ok(event) => Ok(event@),
        Err(e) => Err(e@),
    }
}

/// The text that the chunks carry, in order.
pub open spec fn chunk_text(chunks: Seq<StreamChunk>) -> Seq<char>
    decreases chunks.len(),
{
    if chunks.len() == 0 {
        Seq::empty()
    } else {
        chunk_text(chunks.drop_last()) + match chunks.last() {
            StreamChunk::Text(text) => text@,
            _ => Seq::empty(),
        }
    }
}

/// The text that stream items carry, in order.
pub open spec fn item_text(items: Seq<Result<StreamEventView, LlmErrorView>>) -> Seq<char>
    decreases items.len(),
{
    if items.len() == 0 {
        Seq::empty()
    } else {
        item_text(items.drop_last()) + match items.last() {
            Ok(StreamEventView::TextChunk(text)) => text,
            _ => Seq::empty(),
        }
    }
}

// ---------------------------------------------------------------------------
// Adapter
// ---------------------------------------------------------------------------

/// Turns the chunks of one provider stream into events, chunk by chunk.
/// Ending the stream, well or badly, uses the adapter up, so nothing can
/// follow the end.
pub struct StreamAdapter {
    model: String,
    finish_reason: FinishReason,
    seen: Ghost<Seq<StreamChunk>>,
}

impl StreamAdapter {
    /// The chunks adapted so far.
    pub closed spec fn chunks(self) -> Seq<StreamChunk> {
        self.seen@
    }

    /// The model that usage is attributed to.
    pub closed spec fn model_id(self) -> Seq<char> {
        self.model@
    }

    /// The finish reason kept so far is that of the chunks seen.
    pub closed spec fn wf(self) -> bool {
        self.finish_reason == stream_finish(self.seen@)
    }

    /// An adapter for a stream of the given model.
    pub fn new(model: String) -> (r: StreamAdapter)
        ensures
            r.wf(),
            r.chunks() == Seq::<StreamChunk>::empty(),
            r.model_id() == model@,
    {
        StreamAdapter { model, finish_reason: FinishReason::Stop, seen: Ghost(Seq::empty()) }
    }

    /// The events of the next chunk.
    pub fn push(&mut self, chunk: StreamChunk) -> (r: Vec<StreamEvent>)
        requires
            old(self).wf(),
        ensures
            final(self).wf(),
            final(self).chunks() == old(self).chunks().push(chunk),
            final(self).model_id() == old(self).model_id(),
            crate::provider::event_views(r@) == chunk_events(chunk),
    {
        proof {
            lemma_saw_call_step(self.seen@, chunk);
        }
        let ghost longer = self.seen@.push(chunk);
        let mut events: Vec<StreamEvent> = Vec::new();
        match chunk {
            StreamChunk::Text(text) => {
                events.push(StreamEvent::TextChunk(text));
            },
            StreamChunk::ToolCall { id, call_id, name, arguments } => {
                let id = take_correlation_id(id, call_id);
                events.push(StreamEvent::ToolCallStart { id: id.clone(), name });
                events.push(StreamEvent::ToolCallEnd { id, args: arguments });
                self.finish_reason = FinishReason::ToolCalls;
            },
            StreamChunk::Other => {},
        }
        self.seen = Ghost(longer);
        assert(crate::provider::event_views(events@) =~= chunk_events(chunk));
        events
    }

    /// The events that close a stream that ran to its end.
    pub fn finish(self, reported: Option<ReportedUsage>) -> (r: Vec<StreamEvent>)
        requires
            self.wf(),
        ensures
            crate::provider::event_views(r@) == closing_events(
                self.chunks(),
                reported,
                self.model_id(),
            ),
    {
        let mut events: Vec<StreamEvent> = Vec::new();
        let usage = match reported {
            Some(reported) => stream_usage_event(reported, self.model.as_str()),
            None => None,
        };
        if let Some(event) = usage {
            events.push(event);
        }
        events.push(StreamEvent::Done { finish_reason: self.finish_reason });
        assert(crate::provider::event_views(events@) =~= closing_events(
            self.chunks(),
            reported,
            self.model_id(),
        ));
        events
    }

    /// The error that ends a stream whose provider failed.
    pub fn fail(self, failure: CompletionFailure) -> (r: LlmError)
        ensures
            r@ == crate::response::failure_error(failure),
    {
        map_completion_error(failure)
    }
}

/// Adapts a whole provider stream: every item that a consumer of it sees.
pub fn map_rig_stream(chunks: Vec<StreamChunk>, end: StreamEnd, model: String) -> (r: Vec<
    Result<StreamEvent, LlmError>,
>)
    ensures
        r@.map_values(|item: Result<StreamEvent, LlmError>| item_view(item)) == transcript(
            chunks@,
            end,
            model@,
        ),
{
    let ghost view = |item: Result<StreamEvent, LlmError>| item_view(item);
    let ghost all = chunks@;
    let mut adapter = StreamAdapter::new(model);
    let mut items: Vec<Result<StreamEvent, LlmError>> = Vec::new();
    for chunk in it: chunks
        invariant
            it.seq() == all,
            view == (|item: Result<StreamEvent, LlmError>| item_view(item)),
            adapter.wf(),
            adapter.model_id() == model@,
            adapter.chunks() == all.take(it.index()),
            items@.map_values(view) == as_items(body_events(all.take(it.index()))),
    {
        let ghost n = it.index();
        let events = adapter.push(chunk);
        proof {
            assert(all.take(n).push(all[n]) =~= all.take(n + 1));
            assert(all.take(n + 1).drop_last() =~= all.take(n));
        }
        append_events(&mut items, events);
        assert(items@.map_values(view) =~= as_items(body_events(all.take(n + 1))));
    }
    assert(all.take(all.len() as int) =~= all);
    match end {
        StreamEnd::Finished(reported) => {
            let events = adapter.finish(reported);
            append_events(&mut items, events);
        },
        StreamEnd::Failed(failure) => {
            items.push(Err(adapter.fail(failure)));
        },
    }
    assert(items@.map_values(view) =~= transcript(chunks@, end, model@));
    items
}

/// Appends events to the items of a stream.
fn append_events(items: &mut Vec<Result<StreamEvent, LlmError>>, events: Vec<StreamEvent>)
    ensures
        final(items)@.map_values(|item: Result<StreamEvent, LlmError>| item_view(item)) == old(
            items,
        )@.map_values(|item: Result<StreamEvent, LlmError>| item_view(item)) + as_items(
            crate::provider::event_views(events@),
        ),
{
    let ghost view = |item: Result<StreamEvent, LlmError>| item_view(item);
    let ghost before = items@;
    let ghost all = events@;
    for event in it: events
        invariant
            it.seq() == all,
            view == (|item: Result<StreamEvent, LlmError>| item_view(item)),
            items@.map_values(view) == before.map_values(view) + as_items(
                crate::provider::event_views(all.take(it.index())),
            ),
    {
        let ghost n = it.index();
        let ghost current = items@;
        items.push(Ok(event));
        assert(items@.map_values(view) =~= current.map_values(view).push(Ok(all[n]@)));
        assert(as_items(crate::provider::event_views(all.take(n + 1))) =~= as_items(
            crate::provider::event_views(all.take(n)),
        ).push(Ok(all[n]@)));
    }
    assert(all.take(all.len() as int) =~= all);
}

// ---------------------------------------------------------------------------
// Laws
// ---------------------------------------------------------------------------

/// A stream that runs to its end closes with exactly one `Done`, as its last
/// item, and holds no error. `Done` says `ToolCalls` when a call was seen and
/// `Stop` otherwise.
pub proof fn done_comes_last_and_once(
    chunks: Seq<StreamChunk>,
    reported: Option<ReportedUsage>,
    model: Seq<char>,
)
    ensures
        ({
            let items = transcript(chunks, StreamEnd::Finished(reported), model);
            &&& items.len() > 0
            &&& items.last() == Ok::<StreamEventView, LlmErrorView>(
                StreamEventView::Done { finish_reason: stream_finish(chunks) },
            )
            &&& forall|i: int|
                0 <= i < items.len() - 1 ==> (#[trigger] items[i]) is Ok && !(items[i]->Ok_0 is Done)
        }),
{
    lemma_body_events(chunks);
    let items = transcript(chunks, StreamEnd::Finished(reported), model);
    let body = body_events(chunks);
    assert forall|i: int| 0 <= i < items.len() - 1 implies (#[trigger] items[i]) is Ok && !(
    items[i]->Ok_0 is Done) by {
        if i < body.len() {
            assert(items[i] == Ok::<StreamEventView, LlmErrorView>(body[i]));
        }
    }
}

/// Usage is sent when it was reported and only then, once, right before
/// `Done`.
pub proof fn usage_comes_right_before_done(
    chunks: Seq<StreamChunk>,
    reported: Option<ReportedUsage>,
    model: Seq<char>,
)
    ensures
        ({
            let items = transcript(chunks, StreamEnd::Finished(reported), model);
            &&& forall|i: int|
                0 <= i < items.len() && (#[trigger] items[i]) is Ok && items[i]->Ok_0 is Usage
                    ==> i == items.len() - 2
            &&& !(reported is Some && crate::response::usage_reported(reported->0)) ==> forall|i: int|
                0 <= i < items.len() && (#[trigger] items[i]) is Ok ==> !(items[i]->Ok_0 is Usage)
            &&& (reported is Some && crate::response::usage_reported(reported->0)) <==> (
            items.len() >= 2 && items[items.len() - 2] == Ok::<StreamEventView, LlmErrorView>(
                StreamEventView::Usage(crate::response::attributed(reported->0, model)),
            ))
        }),
{
    lemma_body_events(chunks);
    let items = transcript(chunks, StreamEnd::Finished(reported), model);
    let body = body_events(chunks);
    assert forall|i: int|
        0 <= i < items.len() && (#[trigger] items[i]) is Ok && items[i]->Ok_0 is Usage implies i
        == items.len() - 2 by {
        if i < body.len() {
            assert(items[i] == Ok::<StreamEventView, LlmErrorView>(body[i]));
        }
    }
    if closing_usage(reported, model) is None {
        assert forall|i: int| 0 <= i < items.len() && (#[trigger] items[i]) is Ok implies !(
        items[i]->Ok_0 is Usage) by {
            if i < body.len() {
                assert(items[i] == Ok::<StreamEventView, LlmErrorView>(body[i]));
            }
        }
    }
}

/// A provider error is the last item of its stream and the only error in it;
/// neither `Usage` nor `Done` occurs.
pub proof fn failure_ends_the_stream(
    chunks: Seq<StreamChunk>,
    failure: CompletionFailure,
    model: Seq<char>,
)
    ensures
        ({
            let items = transcript(chunks, StreamEnd::Failed(failure), model);
            &&& items.len() > 0
            &&& items.last() == Err::<StreamEventView, LlmErrorView>(
                crate::response::failure_error(failure),
            )
            &&& forall|i: int|
                0 <= i < items.len() - 1 ==> (#[trigger] items[i]) is Ok && !(items[i]->Ok_0 is Done)
                    && !(items[i]->Ok_0 is Usage)
        }),
{
    lemma_body_events(chunks);
    let items = transcript(chunks, StreamEnd::Failed(failure), model);
    let body = body_events(chunks);
    assert forall|i: int| 0 <= i < items.len() - 1 implies (#[trigger] items[i]) is Ok && !(
    items[i]->Ok_0 is Done) && !(items[i]->Ok_0 is Usage) by {
        assert(items[i] == Ok::<StreamEventView, LlmErrorView>(body[i]));
    }
}

/// A tool call is never split: each start marker is immediately followed by
/// the end of the same call, each end follows the start of the same call, and
/// no partial arguments are ever sent.
pub proof fn calls_are_never_split(chunks: Seq<StreamChunk>, end: StreamEnd, model: Seq<char>)
    ensures
        ({
            let items = transcript(chunks, end, model);
            &&& forall|i: int|
                0 <= i < items.len() ==> !((#[trigger] items[i]) is Ok && items[i]->Ok_0 is ToolCallArgs)
            &&& forall|i: int|
                0 <= i < items.len() && (#[trigger] items[i]) is Ok
                    && items[i]->Ok_0 is ToolCallStart ==> ends_call(items, i + 1) && i + 1
                    < items.len() && items[i + 1]->Ok_0->ToolCallEnd_id
                    == items[i]->Ok_0->ToolCallStart_id
            &&& forall|i: int|
                ends_call(items, i) ==> 0 < i && items[i - 1] is Ok
                    && items[i - 1]->Ok_0 is ToolCallStart
                    && items[i - 1]->Ok_0->ToolCallStart_id == items[i]->Ok_0->ToolCallEnd_id
        }),
{
    lemma_body_events(chunks);
    let items = transcript(chunks, end, model);
    let body = body_events(chunks);
    assert forall|i: int| 0 <= i < items.len() implies !((#[trigger] items[i]) is Ok
        && items[i]->Ok_0 is ToolCallArgs) by {
        if i < body.len() {
            assert(items[i] == Ok::<StreamEventView, LlmErrorView>(body[i]));
        }
    }
    assert forall|i: int|
        0 <= i < items.len() && (#[trigger] items[i]) is Ok
            && items[i]->Ok_0 is ToolCallStart implies ends_call(items, i + 1) && i + 1
        < items.len() && items[i + 1]->Ok_0->ToolCallEnd_id == items[i]->Ok_0->ToolCallStart_id by {
        if i < body.len() {
            assert(items[i] == Ok::<StreamEventView, LlmErrorView>(body[i]));
            assert(items[i + 1] == Ok::<StreamEventView, LlmErrorView>(body[i + 1]));
        }
    }
    assert forall|i: int| ends_call(items, i) implies 0 < i && items[i - 1] is Ok
        && items[i - 1]->Ok_0 is ToolCallStart && items[i - 1]->Ok_0->ToolCallStart_id
        == items[i]->Ok_0->ToolCallEnd_id by {
        if i < body.len() {
            assert(items[i] == Ok::<StreamEventView, LlmErrorView>(body[i]));
            assert(items[i - 1] == Ok::<StreamEventView, LlmErrorView>(body[i - 1]));
        }
    }
}

/// Whether item `i` ends a tool call.
pub open spec fn ends_call(items: Seq<Result<StreamEventView, LlmErrorView>>, i: int) -> bool {
    0 <= i < items.len() && items[i] is Ok && items[i]->Ok_0 is ToolCallEnd
}

/// No text is lost, added or reordered: the text of the stream is the text of
/// its chunks.
pub proof fn text_is_preserved(chunks: Seq<StreamChunk>, end: StreamEnd, model: Seq<char>)
    ensures
        item_text(transcript(chunks, end, model)) == chunk_text(chunks),
{
    lemma_body_text(chunks);
    let body = as_items(body_events(chunks));
    let items = transcript(chunks, end, model);
    match end {
        StreamEnd::Finished(reported) => {
            let closing = as_items(closing_events(chunks, reported, model));
            assert(items =~= body + closing);
            assert(items.drop_last() =~= body + closing.drop_last());
            assert(item_text(items) == item_text(items.drop_last()) + Seq::<char>::empty());
            if closing.len() == 2 {
                assert(items.drop_last().drop_last() =~= body);
                assert(items.drop_last().last() == closing[0]);
                assert(item_text(items.drop_last()) == item_text(body) + Seq::<char>::empty());
            } else {
                assert(items.drop_last() =~= body);
            }
        },
        StreamEnd::Failed(failure) => {
            assert(items.drop_last() =~= body);
            assert(item_text(items) == item_text(body) + Seq::<char>::empty());
        },
    }
}

// ---------------------------------------------------------------------------
// Lemmas
// ---------------------------------------------------------------------------

/// Seeing one more chunk sees a call if that chunk is one.
proof fn lemma_saw_call_step(chunks: Seq<StreamChunk>, chunk: StreamChunk)
    ensures
        saw_call(chunks.push(chunk)) <==> saw_call(chunks) || chunk is ToolCall,
{
    let longer = chunks.push(chunk);
    if saw_call(chunks) {
        let i = choose|i: int| 0 <= i < chunks.len() && (#[trigger] chunks[i]) is ToolCall;
        assert(longer[i] is ToolCall);
    }
    if chunk is ToolCall {
        assert(longer[chunks.len() as int] is ToolCall);
    }
    if saw_call(longer) {
        let i = choose|i: int| 0 <= i < longer.len() && (#[trigger] longer[i]) is ToolCall;
        if i < chunks.len() {
            assert(chunks[i] is ToolCall);
        }
    }
}

/// What holds of the events of any chunks.
proof fn lemma_body_events(chunks: Seq<StreamChunk>)
    ensures
        ({
            let body = body_events(chunks);
            &&& forall|i: int|
                0 <= i < body.len() ==> !((#[trigger] body[i]) is Done) && !(body[i] is Usage) && !(
                body[i] is ToolCallArgs)
            &&& forall|i: int|
                0 <= i < body.len() && (#[trigger] body[i]) is ToolCallStart ==> i + 1 < body.len()
                    && body[i + 1] is ToolCallEnd && body[i + 1]->ToolCallEnd_id
                    == body[i]->ToolCallStart_id
            &&& forall|i: int|
                0 <= i < body.len() && (#[trigger] body[i]) is ToolCallEnd ==> 0 < i
                    && body[i - 1] is ToolCallStart
        }),
    decreases chunks.len(),
{
    if chunks.len() > 0 {
        lemma_body_events(chunks.drop_last());
        let before = body_events(chunks.drop_last());
        let added = chunk_events(chunks.last());
        let body = body_events(chunks);
        assert(body =~= before + added);
        assert forall|i: int|
            0 <= i < body.len() && (#[trigger] body[i]) is ToolCallStart implies i + 1 < body.len()
            && body[i + 1] is ToolCallEnd && body[i + 1]->ToolCallEnd_id
            == body[i]->ToolCallStart_id by {
            if i < before.len() {
                assert(before[i] is ToolCallStart);
            }
        }
        assert forall|i: int|
            0 <= i < body.len() && (#[trigger] body[i]) is ToolCallEnd implies 0 < i
            && body[i - 1] is ToolCallStart by {
            if i < before.len() {
                assert(before[i] is ToolCallEnd);
            } else {
                assert(added[i - before.len()] is ToolCallEnd);
                assert(i == before.len() + 1);
                assert(body[i - 1] == added[0]);
            }
        }
    }
}

/// The text of the chunks' events is the text of the chunks.
proof fn lemma_body_text(chunks: Seq<StreamChunk>)
    ensures
        item_text(as_items(body_events(chunks))) == chunk_text(chunks),
    decreases chunks.len(),
{
    if chunks.len() > 0 {
        lemma_body_text(chunks.drop_last());
        let before = as_items(body_events(chunks.drop_last()));
        let items = as_items(body_events(chunks));
        let added = as_items(chunk_events(chunks.last()));
        assert(items =~= before + added);
        match chunks.last() {
            StreamChunk::Text(text) => {
                assert(items.drop_last() =~= before);
            },
            StreamChunk::ToolCall { id, call_id, name, arguments } => {
                assert(items.drop_last().drop_last() =~= before);
                assert(items.last() == added[1]);
                assert(items.drop_last().last() == added[0]);
                assert(item_text(items.drop_last()) =~= item_text(before));
                assert(item_text(items) =~= item_text(before));
            },
            StreamChunk::Other => {
                assert(items =~= before);
            },
        }
        assert(item_text(items) =~= chunk_text(chunks));
    }
}

} // verus!
