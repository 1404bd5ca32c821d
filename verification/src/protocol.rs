//! The control messages that drive the view-model.

use vstd::prelude::*;
use crate::model::{opt_text, texts};

verus! {

/// A warning attached to a gate event.
#[derive(Clone, Debug, PartialEq, Eq)]
pub struct Warning {
    pub code: String,
    pub subject: String,
}

/// What a [`Warning`] holds, as plain values.
pub struct WarningView {
    pub code: Seq<char>,
    pub subject: Seq<char>,
}

impl View for Warning {
    type V = WarningView;

    open spec fn view(&self) -> WarningView {
        WarningView { code: self.code@, subject: self.subject@ }
    }
}

/// The views of a list of warnings, entry by entry.
pub open spec fn warning_views(warnings: Seq<Warning>) -> Seq<WarningView> {
    Seq::new(warnings.len(), |i: int| warnings[i]@)
}

/// The views of an optional list of warnings.
pub open spec fn opt_warning_views(warnings: Option<Vec<Warning>>) -> Option<Seq<WarningView>> {
    match warnings {
        Some(w) => Some(warning_views(w@)),
        None => None,
    }
}

/// One event of the agent's output stream.
#[derive(Clone, Debug, PartialEq, Eq)]
pub enum StreamEvent {
    Meta { provider: Option<String>, model: Option<String> },
    State { state: String },
    TextDelta { text: String },
    ToolCall { name: Option<String>, id: Option<String> },
    ToolResult {
        tool_id: Option<String>,
        success: Option<bool>,
        output: Option<String>,
        elapsed_ms: Option<u64>,
    },
    Gate { id: Option<String>, blocked: Option<bool>, warnings: Option<Vec<Warning>> },
    Complete,
    Error { message: Option<String> },
}

/// What a [`StreamEvent`] holds, as plain values.
pub enum StreamEventView {
    Meta { provider: Option<Seq<char>>, model: Option<Seq<char>> },
    State { state: Seq<char> },
    TextDelta { text: Seq<char> },
    ToolCall { name: Option<Seq<char>>, id: Option<Seq<char>> },
    ToolResult {
        tool_id: Option<Seq<char>>,
        success: Option<bool>,
        output: Option<Seq<char>>,
        elapsed_ms: Option<u64>,
    },
    Gate { id: Option<Seq<char>>, blocked: Option<bool>, warnings: Option<Seq<WarningView>> },
    Complete,
    Error { message: Option<Seq<char>> },
}

impl View for StreamEvent {
    type V = StreamEventView;

    open spec fn view(&self) -> StreamEventView {
        match *self {
            StreamEvent::Meta { provider, model } => StreamEventView::Meta {
                provider: opt_text(provider),
                model: opt_text(model),
            },
            StreamEvent::State { state } => StreamEventView::State { state: state@ },
            StreamEvent::TextDelta { text } => StreamEventView::TextDelta { text: text@ },
            StreamEvent::ToolCall { name, id } => StreamEventView::ToolCall {
                name: opt_text(name),
                id: opt_text(id),
            },
            StreamEvent::ToolResult { tool_id, success, output, elapsed_ms } => {
                StreamEventView::ToolResult {
                    tool_id: opt_text(tool_id),
                    success,
                    output: opt_text(output),
                    elapsed_ms,
                }
            },
            StreamEvent::Gate { id, blocked, warnings } => StreamEventView::Gate {
                id: opt_text(id),
                blocked,
                warnings: opt_warning_views(warnings),
            },
            StreamEvent::Complete => StreamEventView::Complete,
            StreamEvent::Error { message } => StreamEventView::Error { message: opt_text(message) },
        }
    }
}

/// One control message.
#[derive(Clone, Debug, PartialEq, Eq)]
pub enum TuiMessage {
    Dispatch { event: StreamEvent },
    AddUserMessage { content: String },
    SetContext { files: Vec<String>, scope: Vec<String> },
    UpdateState { state: String },
    Destroy,
}

/// What a [`TuiMessage`] holds, as plain values.
pub enum TuiMessageView {
    Dispatch { event: StreamEventView },
    AddUserMessage { content: Seq<char> },
    SetContext { files: Seq<Seq<char>>, scope: Seq<Seq<char>> },
    UpdateState { state: Seq<char> },
    Destroy,
}

impl View for TuiMessage {
    type V = TuiMessageView;

    open spec fn view(&self) -> TuiMessageView {
        match *self {
            TuiMessage::Dispatch { event } => TuiMessageView::Dispatch { event: event@ },
            TuiMessage::AddUserMessage { content } => TuiMessageView::AddUserMessage {
                content: content@,
            },
            TuiMessage::SetContext { files, scope } => TuiMessageView::SetContext {
                files: texts(files@),
                scope: texts(scope@),
            },
            TuiMessage::UpdateState { state } => TuiMessageView::UpdateState { state: state@ },
            TuiMessage::Destroy => TuiMessageView::Destroy,
        }
    }
}

/// The views of a batch of control messages, entry by entry.
pub open spec fn batch_views(batch: Seq<TuiMessage>) -> Seq<TuiMessageView> {
    Seq::new(batch.len(), |i: int| batch[i]@)
}

} // verus!
