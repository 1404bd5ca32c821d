//! Laws of the reducer and of the input handler, proved over the views.

use vstd::prelude::*;
use crate::input::{key_step, keys_step, last_index, KeyInput};
use crate::model::{scroll_in_range, ToolStateView, ViewModelView};
use crate::protocol::{StreamEventView, TuiMessageView};
use crate::reducer::{
    decoded_batch, dispatch, feed, first_open, first_open_at, open_at, result_id, run, status_of,
    step, turn_open, Run,
};

verus! {

/// A batch of one message is one step of the reducer; `Destroy` changes
/// nothing and stops the session.
pub proof fn law_run_of_one(s: ViewModelView, msg: TuiMessageView, now: u64)
    ensures
        run(s, seq![msg], now) == (Run { state: step(s, msg, now), running: !(msg is Destroy) }),
{
    let batch = seq![msg];
    assert(batch.drop_last() =~= Seq::empty());
    assert(batch.last() == msg);
    assert(run(s, batch.drop_last(), now) == (Run { state: s, running: true }));
}

/// Draining has no effect of its own: messages applied as one batch leave
/// the session where the same messages leave it when they are applied as two
/// batches, one after the other. Once a batch has met `Destroy`, a later
/// batch is not applied.
pub proof fn law_batching_unobservable(
    s: ViewModelView,
    first: Seq<TuiMessageView>,
    second: Seq<TuiMessageView>,
    now: u64,
)
    ensures
        run(s, first + second, now) == (if run(s, first, now).running {
            run(run(s, first, now).state, second, now)
        } else {
            run(s, first, now)
        }),
    decreases second.len(),
{
    if second.len() == 0 {
        assert(first + second =~= first);
    } else {
        let whole = first + second;
        assert(whole.drop_last() =~= first + second.drop_last());
        assert(whole.last() == second.last());
        law_batching_unobservable(s, first, second.drop_last(), now);
    }
}

/// Messages applied one at a time, each as a batch of its own, leave the
/// session where the whole batch leaves it.
pub proof fn law_one_at_a_time(s: ViewModelView, batch: Seq<TuiMessageView>, now: u64)
    requires
        batch.len() > 0,
    ensures
        run(s, batch, now) == (if run(s, batch.drop_last(), now).running {
            run(run(s, batch.drop_last(), now).state, seq![batch.last()], now)
        } else {
            run(s, batch.drop_last(), now)
        }),
{
    assert(batch =~= batch.drop_last() + seq![batch.last()]);
    law_batching_unobservable(s, batch.drop_last(), seq![batch.last()], now);
}

/// Feeding queued lines is applying, in order, the control messages that
/// they stand for: a line that stands for none has no effect.
pub proof fn law_feed_applies_decoded(s: ViewModelView, lines: Seq<Seq<char>>, now: u64)
    ensures
        feed(s, lines, now) == run(s, decoded_batch(lines), now),
    decreases lines.len(),
{
    if lines.len() > 0 {
        law_feed_applies_decoded(s, lines.drop_last(), now);
        let rest = decoded_batch(lines.drop_last());
        match crate::decode::decoded(lines.last()) {
            Some(msg) => {
                assert(rest.push(msg).drop_last() =~= rest);
                assert(rest.push(msg).last() == msg);
            },
            None => {},
        }
    }
}

/// A tool call that carries a name and an id, followed by a result for that
/// id, leaves one more entry in the tool log: it has the call's name and id
/// and the result's status, output and elapsed time. A further result for
/// the same id changes nothing in the tool log. This holds where no entry
/// was running under that id before the call.
pub proof fn law_tool_correlation(
    s: ViewModelView,
    name: Seq<char>,
    id: Seq<char>,
    success: Option<bool>,
    output: Option<Seq<char>>,
    elapsed_ms: Option<u64>,
    again: StreamEventView,
    now: u64,
)
    requires
        forall|i: int| !open_at(s.tool_log, id, i),
        again is ToolResult,
        again->tool_id == Some(id),
    ensures
        ({
            let called = dispatch(
                s,
                StreamEventView::ToolCall { name: Some(name), id: Some(id) },
                now,
            );
            let done = dispatch(
                called,
                StreamEventView::ToolResult { tool_id: Some(id), success, output, elapsed_ms },
                now,
            );
            &&& done.tool_log == s.tool_log.push(
                ToolStateView { name, id, status: status_of(success), output, elapsed_ms },
            )
            &&& dispatch(done, again, now).tool_log == done.tool_log
        }),
{
    let called = dispatch(s, StreamEventView::ToolCall { name: Some(name), id: Some(id) }, now);
    let at = s.tool_log.len() as int;
    assert(first_open_at(called.tool_log, id, at)) by {
        assert forall|j: int| 0 <= j < at implies !open_at(called.tool_log, id, j) by {
            assert(!open_at(s.tool_log, id, j));
        }
    }
    let chosen = choose|i: int| first_open_at(called.tool_log, id, i);
    assert(chosen == at) by {
        if chosen < at {
            assert(!open_at(s.tool_log, id, chosen));
        }
    }
    assert(first_open(called.tool_log, id) == Some(at));
    let done = dispatch(
        called,
        StreamEventView::ToolResult { tool_id: Some(id), success, output, elapsed_ms },
        now,
    );
    assert(done.tool_log =~= s.tool_log.push(
        ToolStateView { name, id, status: status_of(success), output, elapsed_ms },
    ));
    assert forall|i: int| !first_open_at(done.tool_log, id, i) by {
        if open_at(done.tool_log, id, i) {
            assert(i != at);
            assert(open_at(s.tool_log, id, i));
        }
    }
    assert(first_open(done.tool_log, id) is None);
}

/// A result for an id under which no entry is running changes nothing in
/// the tool log.
pub proof fn law_unmatched_result_ignored(s: ViewModelView, result: StreamEventView, now: u64)
    requires
        result is ToolResult,
        forall|i: int| !open_at(s.tool_log, result_id(result->tool_id), i),
    ensures
        dispatch(s, result, now).tool_log == s.tool_log,
        dispatch(s, result, now).transcript == s.transcript,
{
    let id = result_id(result->tool_id);
    assert forall|i: int| !first_open_at(s.tool_log, id, i) by {
        assert(!open_at(s.tool_log, id, i));
    }
    assert(first_open(s.tool_log, id) is None);
}

/// `complete` with no streamed text and no tool entry changes nothing: no
/// message is added and the scroll position stays.
pub proof fn law_complete_without_turn(s: ViewModelView, now: u64)
    requires
        !turn_open(s),
    ensures
        dispatch(s, StreamEventView::Complete, now) == s,
{
}

/// `complete` on a turn in progress adds one assistant entry that holds the
/// streamed text and the tool log, empties both, and focuses the new entry,
/// which is the last one.
pub proof fn law_complete_focuses_last(s: ViewModelView, now: u64)
    requires
        turn_open(s),
    ensures
        ({
            let t = dispatch(s, StreamEventView::Complete, now);
            &&& t.transcript.len() == s.transcript.len() + 1
            &&& t.transcript.last().content == s.streaming_buffer
            &&& t.transcript.last().tools == s.tool_log
            &&& t.scroll_position == t.transcript.len() - 1
            &&& t.scroll_position == last_index(t)
            &&& !turn_open(t)
        }),
{
}

/// No control message changes an entry that is in the transcript: the
/// transcript before a step is the start of the transcript after it.
pub proof fn law_transcript_append_only(s: ViewModelView, msg: TuiMessageView, now: u64)
    ensures
        s.transcript.len() <= step(s, msg, now).transcript.len(),
        step(s, msg, now).transcript.take(s.transcript.len() as int) == s.transcript,
{
    let t = step(s, msg, now);
    assert(t.transcript.take(s.transcript.len() as int) =~= s.transcript);
}

/// The same over a whole batch.
pub proof fn law_transcript_append_only_run(
    s: ViewModelView,
    batch: Seq<TuiMessageView>,
    now: u64,
)
    ensures
        s.transcript.len() <= run(s, batch, now).state.transcript.len(),
        run(s, batch, now).state.transcript.take(s.transcript.len() as int) == s.transcript,
    decreases batch.len(),
{
    if batch.len() == 0 {
        assert(s.transcript.take(s.transcript.len() as int) =~= s.transcript);
    } else {
        law_transcript_append_only_run(s, batch.drop_last(), now);
        let before = run(s, batch.drop_last(), now);
        if before.running && !(batch.last() is Destroy) {
            law_transcript_append_only(before.state, batch.last(), now);
            let after = step(before.state, batch.last(), now);
            assert(after.transcript.take(s.transcript.len() as int) =~= before.state.transcript.take(
                s.transcript.len() as int,
            ));
        }
    }
}

/// Once `complete` has closed a turn, a tool result changes neither the
/// entry that holds the turn's tools nor any other entry, whatever id it
/// names.
pub proof fn law_snapshot_frozen(s: ViewModelView, result: StreamEventView, now: u64, later: u64)
    requires
        turn_open(s),
        result is ToolResult,
    ensures
        ({
            let closed = dispatch(s, StreamEventView::Complete, now);
            &&& closed.transcript.last().tools == s.tool_log
            &&& dispatch(closed, result, later).transcript == closed.transcript
            &&& dispatch(closed, result, later).tool_log == closed.tool_log
        }),
{
    let closed = dispatch(s, StreamEventView::Complete, now);
    assert(closed.tool_log.len() == 0);
    law_unmatched_result_ignored(closed, result, later);
}

/// A control message keeps the scroll position in range.
pub proof fn law_step_keeps_scroll(s: ViewModelView, msg: TuiMessageView, now: u64)
    requires
        scroll_in_range(s),
    ensures
        scroll_in_range(step(s, msg, now)),
{
}

/// A key event keeps the scroll position in range, and changes neither the
/// transcript nor anything but the input buffer and the scroll position.
pub proof fn law_key_keeps_scroll(s: ViewModelView, key: KeyInput)
    requires
        scroll_in_range(s),
    ensures
        scroll_in_range(key_step(s, key)),
        key_step(s, key).scroll_position <= last_index(s),
        key_step(s, key) == (ViewModelView {
            input_buffer: key_step(s, key).input_buffer,
            scroll_position: key_step(s, key).scroll_position,
            ..s
        }),
{
}

/// Whatever keys are pressed, in whatever order, the scroll position stays
/// in range.
pub proof fn law_keys_keep_scroll(s: ViewModelView, keys: Seq<KeyInput>)
    requires
        scroll_in_range(s),
    ensures
        scroll_in_range(keys_step(s, keys)),
        keys_step(s, keys).transcript == s.transcript,
        keys_step(s, keys).scroll_position <= last_index(s),
    decreases keys.len(),
{
    if keys.len() > 0 {
        law_keys_keep_scroll(s, keys.drop_last());
        law_key_keeps_scroll(keys_step(s, keys.drop_last()), keys.last());
    }
}

} // verus!
