//! The view-model itself: the one state value that the tick loop owns.

use vstd::prelude::*;
use vstd::string::StringExecFns;
use crate::decode::decode_line;
use crate::emit::submission_line;
use crate::input::{key_reaction, key_step, KeyCode, KeyInput, Reaction, PAGE_STEP};
use crate::model::{
    initial_state, message_views, opt_text, scroll_in_range, texts, tool_views, Message, Phase,
    Role, ToolState, ToolStatus, ViewModelView,
};
use crate::protocol::{batch_views, StreamEvent, StreamEventView, TuiMessage};
use crate::reducer::{
    dispatch, feed, first_open, first_open_at, open_at, resolve_tool, run, step, Run,
};
use crate::text::{pop_char, push_char, same_text};

verus! {

/// The state of the whole front end.
#[derive(Debug)]
pub struct ViewModel {
    transcript: Vec<Message>,
    streaming_buffer: String,
    stream_phase: Phase,
    active_tool: Option<String>,
    tool_log: Vec<ToolState>,
    context_files: Vec<String>,
    context_scope: Vec<String>,
    input_buffer: String,
    scroll_position: usize,
    provider: Option<String>,
    model: Option<String>,
}

impl View for ViewModel {
    type V = ViewModelView;

    closed spec fn view(&self) -> ViewModelView {
        ViewModelView {
            transcript: message_views(self.transcript@),
            streaming_buffer: self.streaming_buffer@,
            stream_phase: self.stream_phase,
            active_tool: opt_text(self.active_tool),
            tool_log: tool_views(self.tool_log@),
            context_files: texts(self.context_files@),
            context_scope: texts(self.context_scope@),
            input_buffer: self.input_buffer@,
            scroll_position: self.scroll_position as nat,
            provider: opt_text(self.provider),
            model: opt_text(self.model),
        }
    }
}

/// Once a start of the lines has stopped the session, the lines behind it
/// change nothing.
proof fn lemma_feed_stopped(s: ViewModelView, lines: Seq<Seq<char>>, upto: int, now: u64)
    requires
        0 <= upto <= lines.len(),
        !feed(s, lines.take(upto), now).running,
    ensures
        feed(s, lines, now) == feed(s, lines.take(upto), now),
    decreases lines.len(),
{
    if upto < lines.len() {
        assert(lines.drop_last().take(upto) =~= lines.take(upto));
        lemma_feed_stopped(s, lines.drop_last(), upto, now);
    } else {
        assert(lines.take(upto) =~= lines);
    }
}

impl ViewModel {
    /// The scroll position is in range.
    pub open spec fn wf(&self) -> bool {
        scroll_in_range(self@)
    }

    /// The state at startup.
    pub fn new() -> (vm: ViewModel)
        ensures
            vm@ == initial_state(),
            vm.wf(),
    {
        let vm = ViewModel {
            transcript: Vec::new(),
            streaming_buffer: String::new(),
            stream_phase: Phase::Done,
            active_tool: None,
            tool_log: Vec::new(),
            context_files: Vec::new(),
            context_scope: Vec::new(),
            input_buffer: String::new(),
            scroll_position: 0,
            provider: None,
            model: None,
        };
        assert(vm@.transcript =~= Seq::empty());
        assert(vm@.tool_log =~= Seq::empty());
        assert(vm@.context_files =~= Seq::empty());
        assert(vm@.context_scope =~= Seq::empty());
        vm
    }

    /// Records a result against the first entry of the tool log that is still
    /// running under `id`.
    fn resolve(
        &mut self,
        id: &str,
        success: Option<bool>,
        output: Option<String>,
        elapsed_ms: Option<u64>,
    )
        ensures
            final(self)@ == (ViewModelView {
                tool_log: resolve_tool(
                    old(self)@.tool_log,
                    id@,
                    success,
                    opt_text(output),
                    elapsed_ms,
                ),
                ..old(self)@
            }),
    {
        let ghost tools = self@.tool_log;
        let n = self.tool_log.len();
        let mut i: usize = 0;
        let mut found = false;
        while i < n && !found
            invariant
                i <= n,
                n == self.tool_log.len(),
                *self == *old(self),
                tools == self@.tool_log,
                forall|j: int| 0 <= j < i ==> !open_at(tools, id@, j),
                found ==> open_at(tools, id@, i as int),
            decreases n - i + (if found { 0int } else { 1int }),
        {
            let running = match self.tool_log[i].status {
                ToolStatus::Running => true,
                _ => false,
            };
            if running && same_text(self.tool_log[i].id.as_str(), id) {
                found = true;
            } else {
                i = i + 1;
            }
        }
        if found {
            assert(first_open_at(tools, id@, i as int));
            assert(forall|k: int| first_open_at(tools, id@, k) ==> k == i) by {
                assert forall|k: int| first_open_at(tools, id@, k) implies k == i by {
                    if k < i {
                        assert(!open_at(tools, id@, k));
                    } else if k > i {
                        assert(open_at(tools, id@, i as int));
                    }
                }
            }
            assert(first_open(tools, id@) == Some(i as int));
            let status = match success {
                Some(true) => ToolStatus::Success,
                _ => ToolStatus::Error,
            };
            let entry = ToolState {
                name: self.tool_log[i].name.clone(),
                id: self.tool_log[i].id.clone(),
                status,
                output,
                elapsed_ms,
            };
            self.tool_log.set(i, entry);
            assert(self@.tool_log =~= resolve_tool(
                tools,
                id@,
                success,
                opt_text(output),
                elapsed_ms,
            ));
        } else {
            assert(first_open(tools, id@) is None) by {
                if exists|k: int| first_open_at(tools, id@, k) {
                    let k = choose|k: int| first_open_at(tools, id@, k);
                    assert(open_at(tools, id@, k));
                }
            }
        }
    }

    /// Closes the turn in progress, if there is one, at time `now_ms`.
    fn complete(&mut self, now_ms: u64)
        ensures
            final(self)@ == dispatch(old(self)@, StreamEventView::Complete, now_ms),
    {
        if !self.streaming_buffer.as_str().is_empty() || self.tool_log.len() > 0 {
            let mut tools: Vec<ToolState> = Vec::new();
            core::mem::swap(&mut self.tool_log, &mut tools);
            let mut content = String::new();
            core::mem::swap(&mut self.streaming_buffer, &mut content);
            let ghost before = self.transcript@;
            self.transcript.push(
                Message { role: Role::Assistant, content, timestamp: now_ms, tools },
            );
            self.stream_phase = Phase::Idle;
            self.scroll_position = self.transcript.len() - 1;
            assert(self@.transcript =~= old(self)@.transcript.push(self.transcript@.last()@));
            assert(self@.tool_log =~= Seq::empty());
            assert(self@.streaming_buffer =~= Seq::empty());
        }
    }

    /// Applies one stream event, seen at time `now_ms`.
    fn dispatch_event(&mut self, event: StreamEvent, now_ms: u64)
        ensures
            final(self)@ == dispatch(old(self)@, event@, now_ms),
    {
        match event {
            StreamEvent::Meta { provider, model } => {
                self.provider = provider;
                self.model = model;
            },
            StreamEvent::State { state } => {
                self.stream_phase = Phase::from_name(state.as_str());
            },
            StreamEvent::TextDelta { text } => {
                self.streaming_buffer.append(text.as_str());
            },
            StreamEvent::ToolCall { name, id } => {
                match (&name, id) {
                    (Some(n), Some(i)) => {
                        self.tool_log.push(
                            ToolState {
                                name: n.clone(),
                                id: i,
                                status: ToolStatus::Running,
                                output: None,
                                elapsed_ms: None,
                            },
                        );
                        assert(self@.tool_log =~= old(self)@.tool_log.push(
                            self.tool_log@.last()@,
                        ));
                    },
                    _ => {},
                }
                self.active_tool = name;
            },
            StreamEvent::ToolResult { tool_id, success, output, elapsed_ms } => {
                self.active_tool = None;
                let id = match tool_id {
                    Some(id) => id,
                    None => String::new(),
                };
                self.resolve(id.as_str(), success, output, elapsed_ms);
            },
            StreamEvent::Gate { id: _, blocked: _, warnings: _ } => {
                self.stream_phase = Phase::Waiting;
            },
            StreamEvent::Complete => {
                self.complete(now_ms);
            },
            StreamEvent::Error { message: _ } => {
                self.stream_phase = Phase::Error;
            },
        }
    }

    /// Applies one control message, seen at time `now_ms`, and says whether
    /// the session goes on: `Destroy` changes nothing and ends it.
    pub fn apply(&mut self, msg: TuiMessage, now_ms: u64) -> (running: bool)
        ensures
            final(self)@ == step(old(self)@, msg@, now_ms),
            running == !(msg@ is Destroy),
            old(self).wf() ==> final(self).wf(),
    {
        match msg {
            TuiMessage::Dispatch { event } => {
                self.dispatch_event(event, now_ms);
                true
            },
            TuiMessage::AddUserMessage { content } => {
                self.transcript.push(
                    Message { role: Role::User, content, timestamp: now_ms, tools: Vec::new() },
                );
                self.streaming_buffer = String::new();
                self.stream_phase = Phase::Thinking;
                assert(self.transcript@.last()@.tools =~= Seq::empty());
                assert(self@.transcript =~= old(self)@.transcript.push(self.transcript@.last()@));
                true
            },
            TuiMessage::SetContext { files, scope } => {
                self.context_files = files;
                self.context_scope = scope;
                true
            },
            TuiMessage::UpdateState { state } => {
                self.stream_phase = Phase::from_name(state.as_str());
                true
            },
            TuiMessage::Destroy => false,
        }
    }

    /// Applies a drained batch in arrival order, all at time `now_ms`, up to
    /// its first `Destroy`, and says whether the session goes on.
    pub fn apply_all(&mut self, batch: Vec<TuiMessage>, now_ms: u64) -> (running: bool)
        ensures
            final(self)@ == run(old(self)@, batch_views(batch@), now_ms).state,
            running == run(old(self)@, batch_views(batch@), now_ms).running,
            old(self).wf() ==> final(self).wf(),
    {
        let ghost all = batch_views(batch@);
        let mut running = true;
        for msg in it: batch
            invariant
                it.seq() == batch@,
                all == batch_views(batch@),
                run(old(self)@, all.take(it.index() as int), now_ms) == (Run {
                    state: self@,
                    running,
                }),
                old(self).wf() ==> self.wf(),
        {
            proof {
                let i = it.index() as int;
                assert(all.take(i + 1).drop_last() =~= all.take(i));
                assert(all.take(i + 1).last() == msg@);
            }
            if running {
                running = self.apply(msg, now_ms);
            }
        }
        proof {
            assert(all.take(all.len() as int) =~= all);
        }
        running
    }

    /// Decodes and applies queued lines in arrival order, all at time
    /// `now_ms`, up to the first one that stands for `Destroy`, and says
    /// whether the session goes on. A line that cannot be decoded is dropped.
    pub fn apply_lines(&mut self, lines: &Vec<String>, now_ms: u64) -> (running: bool)
        ensures
            final(self)@ == feed(old(self)@, texts(lines@), now_ms).state,
            running == feed(old(self)@, texts(lines@), now_ms).running,
            old(self).wf() ==> final(self).wf(),
    {
        let ghost all = texts(lines@);
        let n = lines.len();
        let mut running = true;
        let mut i: usize = 0;
        while i < n && running
            invariant
                i <= n,
                n == lines.len(),
                all == texts(lines@),
                feed(old(self)@, all.take(i as int), now_ms) == (Run { state: self@, running }),
                old(self).wf() ==> self.wf(),
            decreases n - i,
        {
            proof {
                assert(all.take(i + 1).drop_last() =~= all.take(i as int));
                assert(all.take(i + 1).last() == lines@[i as int]@);
            }
            match decode_line(lines[i].as_str()) {
                Some(msg) => {
                    running = self.apply(msg, now_ms);
                },
                None => {},
            }
            i = i + 1;
        }
        proof {
            if i < n {
                lemma_feed_stopped(old(self)@, all, i as int, now_ms);
            } else {
                assert(all.take(n as int) =~= all);
            }
        }
        running
    }

    /// Handles one key event: edits the input buffer or moves the scroll
    /// position, and says what the tick loop has to do.
    pub fn handle_key(&mut self, key: KeyInput) -> (reaction: Reaction)
        ensures
            final(self)@ == key_step(old(self)@, key),
            reaction@ == key_reaction(old(self)@, key),
            old(self).wf() ==> final(self).wf(),
    {
        if !key.pressed {
            return Reaction::Continue;
        }
        let len = self.transcript.len();
        let last = if len == 0 {
            0
        } else {
            len - 1
        };
        let at = self.scroll_position;
        match key.code {
            KeyCode::Char(c) => {
                if key.control && c == 'c' {
                    return Reaction::Quit;
                }
                push_char(&mut self.input_buffer, c);
                Reaction::Continue
            },
            KeyCode::Backspace => {
                let _ = pop_char(&mut self.input_buffer);
                Reaction::Continue
            },
            KeyCode::Enter => {
                if self.input_buffer.as_str().is_empty() {
                    assert(self@.input_buffer =~= Seq::empty());
                    Reaction::Continue
                } else {
                    let line = submission_line(self.input_buffer.as_str());
                    self.input_buffer = String::new();
                    Reaction::Emit(line)
                }
            },
            KeyCode::Up => {
                if at > 0 {
                    self.scroll_position = at - 1;
                }
                Reaction::Continue
            },
            KeyCode::Down => {
                if at < last {
                    self.scroll_position = at + 1;
                }
                Reaction::Continue
            },
            KeyCode::PageUp => {
                self.scroll_position = if at >= PAGE_STEP {
                    at - PAGE_STEP
                } else {
                    0
                };
                Reaction::Continue
            },
            KeyCode::PageDown => {
                self.scroll_position = if at < last && last - at > PAGE_STEP {
                    at + PAGE_STEP
                } else {
                    last
                };
                Reaction::Continue
            },
            KeyCode::Home => {
                self.scroll_position = 0;
                Reaction::Continue
            },
            KeyCode::End => {
                self.scroll_position = last;
                Reaction::Continue
            },
            KeyCode::Other => Reaction::Continue,
        }
    }

    /// The finished entries, oldest first.
    pub fn transcript(&self) -> (entries: &Vec<Message>)
        ensures
            message_views(entries@) == self@.transcript,
    {
        &self.transcript
    }

    /// The text streamed so far in the turn in progress.
    pub fn streaming_buffer(&self) -> (text: &str)
        ensures
            text@ == self@.streaming_buffer,
    {
        self.streaming_buffer.as_str()
    }

    /// The current phase.
    pub fn stream_phase(&self) -> (phase: Phase)
        ensures
            phase == self@.stream_phase,
    {
        self.stream_phase
    }

    /// The name of the tool that is executing, if one is.
    pub fn active_tool(&self) -> (name: &Option<String>)
        ensures
            opt_text(*name) == self@.active_tool,
    {
        &self.active_tool
    }

    /// The tool invocations of the turn in progress, oldest first.
    pub fn tool_log(&self) -> (tools: &Vec<ToolState>)
        ensures
            tool_views(tools@) == self@.tool_log,
    {
        &self.tool_log
    }

    /// The context files, as last set.
    pub fn context_files(&self) -> (files: &Vec<String>)
        ensures
            texts(files@) == self@.context_files,
    {
        &self.context_files
    }

    /// The context scope, as last set.
    pub fn context_scope(&self) -> (scope: &Vec<String>)
        ensures
            texts(scope@) == self@.context_scope,
    {
        &self.context_scope
    }

    /// The text that the user is composing.
    pub fn input_buffer(&self) -> (text: &str)
        ensures
            text@ == self@.input_buffer,
    {
        self.input_buffer.as_str()
    }

    /// The index of the focused transcript entry.
    pub fn scroll_position(&self) -> (at: usize)
        ensures
            at == self@.scroll_position,
    {
        self.scroll_position
    }

    /// The name of the backend's provider, if known.
    pub fn provider(&self) -> (name: &Option<String>)
        ensures
            opt_text(*name) == self@.provider,
    {
        &self.provider
    }

    /// The name of the backend's model, if known.
    pub fn model(&self) -> (name: &Option<String>)
        ensures
            opt_text(*name) == self@.model,
    {
        &self.model
    }
}

} // verus!
