//! The reducer: how one control message changes the view-model.

use vstd::prelude::*;
use crate::model::{MessageView, Phase, Role, ToolStateView, ToolStatus, ViewModelView};
use crate::protocol::{StreamEventView, TuiMessageView};
use crate::decode::decoded;
use crate::text::same_text;

verus! {

/// The phase that a phase name of the protocol stands for; an unknown name is
/// `Other`.
pub open spec fn phase_of_name(name: Seq<char>) -> Phase {
    if name == "idle"@ {
        Phase::Idle
    } else if name == "done"@ {
        Phase::Done
    } else if name == "request_sent"@ {
        Phase::RequestSent
    } else if name == "thinking"@ {
        Phase::Thinking
    } else if name == "awaiting_first_token"@ {
        Phase::AwaitingFirstToken
    } else if name == "streaming"@ {
        Phase::Streaming
    } else if name == "tool_executing"@ {
        Phase::ToolExecuting
    } else if name == "waiting"@ {
        Phase::Waiting
    } else if name == "error"@ {
        Phase::Error
    } else {
        Phase::Other
    }
}

impl Phase {
    /// Reads a phase name of the protocol.
    pub fn from_name(name: &str) -> (phase: Phase)
        ensures
            phase == phase_of_name(name@),
    {
        if same_text(name, "idle") {
            Phase::Idle
        } else if same_text(name, "done") {
            Phase::Done
        } else if same_text(name, "request_sent") {
            Phase::RequestSent
        } else if same_text(name, "thinking") {
            Phase::Thinking
        } else if same_text(name, "awaiting_first_token") {
            Phase::AwaitingFirstToken
        } else if same_text(name, "streaming") {
            Phase::Streaming
        } else if same_text(name, "tool_executing") {
            Phase::ToolExecuting
        } else if same_text(name, "waiting") {
            Phase::Waiting
        } else if same_text(name, "error") {
            Phase::Error
        } else {
            Phase::Other
        }
    }
}

/// Entry `i` of a tool log is still running and carries this correlation id.
pub open spec fn open_at(tools: Seq<ToolStateView>, id: Seq<char>, i: int) -> bool {
    &&& 0 <= i < tools.len()
    &&& tools[i].id == id
    &&& tools[i].status == ToolStatus::Running
}

/// Entry `i` is the first one that is still running under this id.
pub open spec fn first_open_at(tools: Seq<ToolStateView>, id: Seq<char>, i: int) -> bool {
    &&& open_at(tools, id, i)
    &&& forall|j: int| 0 <= j < i ==> !open_at(tools, id, j)
}

/// The index of the first entry that is still running under this id, if any.
pub open spec fn first_open(tools: Seq<ToolStateView>, id: Seq<char>) -> Option<int> {
    if exists|i: int| first_open_at(tools, id, i) {
        Some(choose|i: int| first_open_at(tools, id, i))
    } else {
        None
    }
}

/// The status that a result reports: success only where it says so.
pub open spec fn status_of(success: Option<bool>) -> ToolStatus {
    if success == Some(true) {
        ToolStatus::Success
    } else {
        ToolStatus::Error
    }
}

/// A tool log after a result came in: the first entry still running under the
/// id takes the result; with no such entry the log stays as it is.
pub open spec fn resolve_tool(
    tools: Seq<ToolStateView>,
    id: Seq<char>,
    success: Option<bool>,
    output: Option<Seq<char>>,
    elapsed_ms: Option<u64>,
) -> Seq<ToolStateView> {
    match first_open(tools, id) {
        Some(i) => tools.update(
            i,
            ToolStateView {
                name: tools[i].name,
                id: tools[i].id,
                status: status_of(success),
                output,
                elapsed_ms,
            },
        ),
        None => tools,
    }
}

/// The id that a result is matched by: the empty id where it names none.
pub open spec fn result_id(tool_id: Option<Seq<char>>) -> Seq<char> {
    match tool_id {
        Some(id) => id,
        None => Seq::empty(),
    }
}

/// A tool log after a call was announced: a running entry is added where the
/// call carries both a name and an id.
pub open spec fn open_tool(
    tools: Seq<ToolStateView>,
    name: Option<Seq<char>>,
    id: Option<Seq<char>>,
) -> Seq<ToolStateView> {
    if name is Some && id is Some {
        tools.push(
            ToolStateView {
                name: name->0,
                id: id->0,
                status: ToolStatus::Running,
                output: None,
                elapsed_ms: None,
            },
        )
    } else {
        tools
    }
}

/// A turn is in progress: there is streamed text or a tool entry to record.
pub open spec fn turn_open(s: ViewModelView) -> bool {
    s.streaming_buffer.len() > 0 || s.tool_log.len() > 0
}

/// The state after the turn in progress was closed at time `now`.
pub open spec fn finish_turn(s: ViewModelView, now: u64) -> ViewModelView {
    ViewModelView {
        transcript: s.transcript.push(
            MessageView {
                role: Role::Assistant,
                content: s.streaming_buffer,
                timestamp: now,
                tools: s.tool_log,
            },
        ),
        streaming_buffer: Seq::empty(),
        tool_log: Seq::empty(),
        stream_phase: Phase::Idle,
        scroll_position: s.transcript.len(),
        ..s
    }
}

/// The state after one stream event, seen at time `now`.
pub open spec fn dispatch(s: ViewModelView, event: StreamEventView, now: u64) -> ViewModelView {
    match event {
        StreamEventView::Meta { provider, model } => ViewModelView { provider, model, ..s },
        StreamEventView::State { state } => ViewModelView {
            stream_phase: phase_of_name(state),
            ..s
        },
        StreamEventView::TextDelta { text } => ViewModelView {
            streaming_buffer: s.streaming_buffer + text,
            ..s
        },
        StreamEventView::ToolCall { name, id } => ViewModelView {
            active_tool: name,
            tool_log: open_tool(s.tool_log, name, id),
            ..s
        },
        StreamEventView::ToolResult { tool_id, success, output, elapsed_ms } => ViewModelView {
            active_tool: None,
            tool_log: resolve_tool(s.tool_log, result_id(tool_id), success, output, elapsed_ms),
            ..s
        },
        StreamEventView::Gate { .. } => ViewModelView { stream_phase: Phase::Waiting, ..s },
        StreamEventView::Complete => if turn_open(s) {
            finish_turn(s, now)
        } else {
            s
        },
        StreamEventView::Error { .. } => ViewModelView { stream_phase: Phase::Error, ..s },
    }
}

/// The state after one control message, seen at time `now`. `Destroy` leaves
/// the state as it is.
pub open spec fn step(s: ViewModelView, msg: TuiMessageView, now: u64) -> ViewModelView {
    match msg {
        TuiMessageView::Dispatch { event } => dispatch(s, event, now),
        TuiMessageView::AddUserMessage { content } => ViewModelView {
            transcript: s.transcript.push(
                MessageView { role: Role::User, content, timestamp: now, tools: Seq::empty() },
            ),
            streaming_buffer: Seq::empty(),
            stream_phase: Phase::Thinking,
            ..s
        },
        TuiMessageView::SetContext { files, scope } => ViewModelView {
            context_files: files,
            context_scope: scope,
            ..s
        },
        TuiMessageView::UpdateState { state } => ViewModelView {
            stream_phase: phase_of_name(state),
            ..s
        },
        TuiMessageView::Destroy => s,
    }
}

/// Where a batch of control messages leaves the session.
pub struct Run {
    /// The state after the messages that were applied.
    pub state: ViewModelView,
    /// No `Destroy` has been met.
    pub running: bool,
}

/// Applies a batch in order, at time `now`, up to its first `Destroy`: that
/// message and all behind it change nothing.
pub open spec fn run(s: ViewModelView, batch: Seq<TuiMessageView>, now: u64) -> Run
    decreases batch.len(),
{
    if batch.len() == 0 {
        Run { state: s, running: true }
    } else {
        let before = run(s, batch.drop_last(), now);
        if !before.running {
            before
        } else if batch.last() is Destroy {
            Run { state: before.state, running: false }
        } else {
            Run { state: step(before.state, batch.last(), now), running: true }
        }
    }
}

/// The control messages that a sequence of lines stands for, in order; a
/// line that stands for none is passed over.
pub open spec fn decoded_batch(lines: Seq<Seq<char>>) -> Seq<TuiMessageView>
    decreases lines.len(),
{
    if lines.len() == 0 {
        Seq::empty()
    } else {
        match decoded(lines.last()) {
            Some(msg) => decoded_batch(lines.drop_last()).push(msg),
            None => decoded_batch(lines.drop_last()),
        }
    }
}

/// Decodes and applies queued lines in order, at time `now`, up to the first
/// one that stands for `Destroy`. A line that stands for no control message
/// changes nothing.
pub open spec fn feed(s: ViewModelView, lines: Seq<Seq<char>>, now: u64) -> Run
    decreases lines.len(),
{
    if lines.len() == 0 {
        Run { state: s, running: true }
    } else {
        let before = feed(s, lines.drop_last(), now);
        if !before.running {
            before
        } else {
            match decoded(lines.last()) {
                None => before,
                Some(msg) => if msg is Destroy {
                    Run { state: before.state, running: false }
                } else {
                    Run { state: step(before.state, msg, now), running: true }
                },
            }
        }
    }
}

} // verus!
