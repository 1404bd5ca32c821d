//! The view-model and the records it is made of, each with its mathematical view.

use vstd::prelude::*;

verus! {

/// Who wrote a transcript entry.
#[derive(Clone, Copy, Debug, PartialEq, Eq, Structural)]
pub enum Role {
    User,
    Assistant,
}

/// Where a tool invocation stands.
#[derive(Clone, Copy, Debug, PartialEq, Eq, Structural)]
pub enum ToolStatus {
    Running,
    Success,
    Error,
}

/// The session's current high-level activity.
#[derive(Clone, Copy, Debug, PartialEq, Eq, Structural)]
pub enum Phase {
    Idle,
    Done,
    RequestSent,
    Thinking,
    AwaitingFirstToken,
    Streaming,
    ToolExecuting,
    Waiting,
    Error,
    /// A phase name that this front end does not know.
    Other,
}

/// One tool invocation of a turn.
#[derive(Clone, Debug, PartialEq, Eq)]
pub struct ToolState {
    pub name: String,
    pub id: String,
    pub status: ToolStatus,
    pub output: Option<String>,
    pub elapsed_ms: Option<u64>,
}

/// What a [`ToolState`] holds, as plain values.
pub struct ToolStateView {
    pub name: Seq<char>,
    pub id: Seq<char>,
    pub status: ToolStatus,
    pub output: Option<Seq<char>>,
    pub elapsed_ms: Option<u64>,
}

/// The characters of an optional string.
pub open spec fn opt_text(s: Option<String>) -> Option<Seq<char>> {
    match s {
        Some(t) => Some(t@),
        None => None,
    }
}

impl View for ToolState {
    type V = ToolStateView;

    open spec fn view(&self) -> ToolStateView {
        ToolStateView {
            name: self.name@,
            id: self.id@,
            status: self.status,
            output: opt_text(self.output),
            elapsed_ms: self.elapsed_ms,
        }
    }
}

/// The views of a tool log, entry by entry.
pub open spec fn tool_views(tools: Seq<ToolState>) -> Seq<ToolStateView> {
    Seq::new(tools.len(), |i: int| tools[i]@)
}

/// A finished transcript entry.
#[derive(Clone, Debug, PartialEq, Eq)]
pub struct Message {
    pub role: Role,
    pub content: String,
    pub timestamp: u64,
    pub tools: Vec<ToolState>,
}

/// What a [`Message`] holds, as plain values.
pub struct MessageView {
    pub role: Role,
    pub content: Seq<char>,
    pub timestamp: u64,
    pub tools: Seq<ToolStateView>,
}

impl View for Message {
    type V = MessageView;

    open spec fn view(&self) -> MessageView {
        MessageView {
            role: self.role,
            content: self.content@,
            timestamp: self.timestamp,
            tools: tool_views(self.tools@),
        }
    }
}

/// The views of a transcript, entry by entry.
pub open spec fn message_views(messages: Seq<Message>) -> Seq<MessageView> {
    Seq::new(messages.len(), |i: int| messages[i]@)
}

/// The characters of each string of a list.
pub open spec fn texts(items: Seq<String>) -> Seq<Seq<char>> {
    Seq::new(items.len(), |i: int| items[i]@)
}

/// The state of the whole front end, as plain values.
pub struct ViewModelView {
    pub transcript: Seq<MessageView>,
    pub streaming_buffer: Seq<char>,
    pub stream_phase: Phase,
    pub active_tool: Option<Seq<char>>,
    pub tool_log: Seq<ToolStateView>,
    pub context_files: Seq<Seq<char>>,
    pub context_scope: Seq<Seq<char>>,
    pub input_buffer: Seq<char>,
    pub scroll_position: nat,
    pub provider: Option<Seq<char>>,
    pub model: Option<Seq<char>>,
}

/// The scroll position points at a transcript entry, or is zero while the
/// transcript is empty.
pub open spec fn scroll_in_range(s: ViewModelView) -> bool {
    s.scroll_position == 0 || s.scroll_position < s.transcript.len()
}

/// The state at startup: nothing said, nothing typed, phase `Done`.
pub open spec fn initial_state() -> ViewModelView {
    ViewModelView {
        transcript: Seq::empty(),
        streaming_buffer: Seq::empty(),
        stream_phase: Phase::Done,
        active_tool: None,
        tool_log: Seq::empty(),
        context_files: Seq::empty(),
        context_scope: Seq::empty(),
        input_buffer: Seq::empty(),
        scroll_position: 0,
        provider: None,
        model: None,
    }
}

} // verus!
