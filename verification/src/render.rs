//! The render engine's projection: the view-model as styled text, ready for
//! a terminal surface to draw. Colors are named by their place in the theme.

use vstd::prelude::*;
use vstd::string::StringExecFns;
use crate::model::{
    message_views, texts, tool_views, Message, MessageView, Phase, Role, ToolState, ToolStateView,
    ToolStatus, ViewModelView,
};
use crate::text::{decimal, join, joined, push_decimal, split_lines, text_lines};
use crate::view_model::ViewModel;

verus! {

/// A color of the theme, named by what it is for.
#[derive(Clone, Copy, Debug, PartialEq, Eq, Structural)]
pub enum Tone {
    Text,
    Dim,
    Border,
    Accent,
    Success,
    Warning,
    Error,
    User,
    Assistant,
}

/// A run of text in one style. Without a tone it takes the pane's own color.
#[derive(Clone, Debug, PartialEq, Eq)]
pub struct Span {
    pub text: String,
    pub tone: Option<Tone>,
    pub bold: bool,
}

/// What a [`Span`] holds, as plain values.
pub struct SpanView {
    pub text: Seq<char>,
    pub tone: Option<Tone>,
    pub bold: bool,
}

impl View for Span {
    type V = SpanView;

    open spec fn view(&self) -> SpanView {
        SpanView { text: self.text@, tone: self.tone, bold: self.bold }
    }
}

/// The views of a list of spans, entry by entry.
pub open spec fn span_views(spans: Seq<Span>) -> Seq<SpanView> {
    Seq::new(spans.len(), |i: int| spans[i]@)
}

/// One line of a pane.
#[derive(Clone, Debug, PartialEq, Eq)]
pub struct Line {
    pub spans: Vec<Span>,
}

impl View for Line {
    type V = Seq<SpanView>;

    open spec fn view(&self) -> Seq<SpanView> {
        span_views(self.spans@)
    }
}

/// The views of a list of lines, entry by entry.
pub open spec fn line_views(lines: Seq<Line>) -> Seq<Seq<SpanView>> {
    Seq::new(lines.len(), |i: int| lines[i]@)
}

/// A span in the pane's own style.
pub open spec fn plain(text: Seq<char>) -> SpanView {
    SpanView { text, tone: None, bold: false }
}

/// A span in a color of the theme.
pub open spec fn toned(text: Seq<char>, tone: Tone, bold: bool) -> SpanView {
    SpanView { text, tone: Some(tone), bold }
}

/// The color of the header for a phase.
pub open spec fn status_tone(phase: Phase) -> Tone {
    match phase {
        Phase::RequestSent | Phase::Thinking => Tone::Accent,
        Phase::AwaitingFirstToken => Tone::Warning,
        Phase::Streaming => Tone::Success,
        Phase::ToolExecuting => Tone::Accent,
        Phase::Waiting => Tone::Warning,
        Phase::Error => Tone::Error,
        _ => Tone::Dim,
    }
}

/// The icon and label of the header for a phase. Every phase without a
/// label of its own shows as ready.
pub open spec fn status_label(phase: Phase) -> Seq<char> {
    match phase {
        Phase::RequestSent | Phase::Thinking => "⟳ Thinking"@,
        Phase::AwaitingFirstToken => "◐ Waiting"@,
        Phase::Streaming => "▮ Streaming"@,
        Phase::ToolExecuting => "⚙ Tools"@,
        Phase::Waiting => "⚠ Gate"@,
        Phase::Error => "✕ Error"@,
        _ => "✓ Ready"@,
    }
}

/// The color of the header for a phase.
pub fn phase_tone(phase: Phase) -> (tone: Tone)
    ensures
        tone == status_tone(phase),
{
    match phase {
        Phase::RequestSent | Phase::Thinking => Tone::Accent,
        Phase::AwaitingFirstToken => Tone::Warning,
        Phase::Streaming => Tone::Success,
        Phase::ToolExecuting => Tone::Accent,
        Phase::Waiting => Tone::Warning,
        Phase::Error => Tone::Error,
        _ => Tone::Dim,
    }
}

/// The icon and label of the header for a phase.
pub fn phase_label(phase: Phase) -> (label: &'static str)
    ensures
        label@ == status_label(phase),
{
    match phase {
        Phase::RequestSent | Phase::Thinking => "⟳ Thinking",
        Phase::AwaitingFirstToken => "◐ Waiting",
        Phase::Streaming => "▮ Streaming",
        Phase::ToolExecuting => "⚙ Tools",
        Phase::Waiting => "⚠ Gate",
        Phase::Error => "✕ Error",
        _ => "✓ Ready",
    }
}

/// The backend's annotation in the header: provider and model, the provider
/// alone, or nothing where no provider is known.
pub open spec fn backend_text(provider: Option<Seq<char>>, model: Option<Seq<char>>) -> Seq<char> {
    match (provider, model) {
        (Some(p), Some(m)) => " • "@ + p + ":"@ + m,
        (Some(p), None) => " • "@ + p,
        _ => Seq::empty(),
    }
}

/// The title of the header.
pub open spec fn header_text(s: ViewModelView) -> Seq<char> {
    "  DAX "@ + status_label(s.stream_phase) + " "@ + backend_text(s.provider, s.model) + " "@
}

/// The title of the header: the product's name, the phase, the backend.
pub fn header_title(vm: &ViewModel) -> (title: String)
    ensures
        title@ == header_text(vm@),
{
    let mut title = String::from_str("  DAX ");
    title.append(phase_label(vm.stream_phase()));
    title.append(" ");
    match (vm.provider(), vm.model()) {
        (Some(p), Some(m)) => {
            title.append(" • ");
            title.append(p.as_str());
            title.append(":");
            title.append(m.as_str());
        },
        (Some(p), None) => {
            title.append(" • ");
            title.append(p.as_str());
        },
        _ => {},
    }
    title.append(" ");
    assert(title@ =~= header_text(vm@));
    title
}

/// The color of an entry's label.
pub open spec fn role_tone(role: Role) -> Tone {
    match role {
        Role::User => Tone::User,
        Role::Assistant => Tone::Assistant,
    }
}

/// The first line of an entry: a marker, filled where the entry is the
/// focused one, and the label of who wrote it.
pub open spec fn head_line(role: Role, focused: bool) -> Seq<SpanView> {
    seq![
        toned(
            if focused {
                "▶"@
            } else {
                "▸"@
            },
            Tone::Accent,
            true,
        ),
        toned(
            match role {
                Role::User => " You "@,
                Role::Assistant => " DAX "@,
            },
            role_tone(role),
            true,
        ),
    ]
}

/// One line of an entry's text, indented.
pub open spec fn body_line(text: Seq<char>) -> Seq<SpanView> {
    seq![plain("   "@), plain(text)]
}

/// The lines of an entry's text.
pub open spec fn body_lines(text: Seq<char>) -> Seq<Seq<SpanView>> {
    Seq::new(text_lines(text).len(), |i: int| body_line(text_lines(text)[i]))
}

/// An empty line.
pub open spec fn blank_line() -> Seq<SpanView> {
    seq![plain(Seq::empty())]
}

/// The color of a tool's line.
pub open spec fn tool_tone(status: ToolStatus) -> Tone {
    match status {
        ToolStatus::Success => Tone::Success,
        ToolStatus::Error => Tone::Error,
        ToolStatus::Running => Tone::Warning,
    }
}

/// The icon of a tool's line.
pub open spec fn tool_icon(status: ToolStatus) -> Seq<char> {
    match status {
        ToolStatus::Success => "✓"@,
        ToolStatus::Error => "✕"@,
        ToolStatus::Running => "◐"@,
    }
}

/// The elapsed time behind a tool's name, where it is known.
pub open spec fn elapsed_text(elapsed_ms: Option<u64>) -> Seq<char> {
    match elapsed_ms {
        Some(e) => " "@ + decimal(e as nat) + "ms"@,
        None => Seq::empty(),
    }
}

/// The line of one tool: icon and name, then the elapsed time.
pub open spec fn tool_line(tool: ToolStateView) -> Seq<SpanView> {
    seq![
        plain("   "@),
        toned(tool_icon(tool.status) + " "@ + tool.name, tool_tone(tool.status), true),
        toned(elapsed_text(tool.elapsed_ms), Tone::Dim, false),
    ]
}

/// The lines of an entry's tools: none where it has none, else an empty
/// line and one line for each tool.
pub open spec fn tool_lines(tools: Seq<ToolStateView>) -> Seq<Seq<SpanView>> {
    if tools.len() == 0 {
        Seq::empty()
    } else {
        seq![blank_line()] + Seq::new(tools.len(), |i: int| tool_line(tools[i]))
    }
}

/// The lines of one entry, closed by an empty line.
pub open spec fn message_lines(msg: MessageView, focused: bool) -> Seq<Seq<SpanView>> {
    seq![head_line(msg.role, focused)] + body_lines(msg.content) + tool_lines(msg.tools) + seq![
        blank_line(),
    ]
}

/// The lines of a transcript of which entry `focus` is the focused one.
pub open spec fn transcript_lines(entries: Seq<MessageView>, focus: nat) -> Seq<Seq<SpanView>>
    decreases entries.len(),
{
    if entries.len() == 0 {
        Seq::empty()
    } else {
        transcript_lines(entries.drop_last(), focus) + message_lines(
            entries.last(),
            focus == entries.len() - 1,
        )
    }
}

/// The line that names the tool that is executing.
pub open spec fn running_line(name: Seq<char>) -> Seq<SpanView> {
    seq![plain(Seq::empty()), toned("   ◐ running: "@ + name, Tone::Warning, false)]
}

/// The lines of the turn in progress: none while no text has been streamed,
/// else a label, the text, and the tool that is executing if one is.
pub open spec fn streaming_lines(s: ViewModelView) -> Seq<Seq<SpanView>> {
    if s.streaming_buffer.len() == 0 {
        Seq::empty()
    } else {
        seq![seq![toned("▸ "@, Tone::Assistant, true), toned("DAX "@, Tone::Assistant, true)]]
            + body_lines(s.streaming_buffer) + (match s.active_tool {
            Some(name) => seq![running_line(name)],
            None => Seq::empty(),
        })
    }
}

/// All lines of the chat pane: the transcript, then the turn in progress.
pub open spec fn chat_text(s: ViewModelView) -> Seq<Seq<SpanView>> {
    transcript_lines(s.transcript, s.scroll_position) + streaming_lines(s)
}

/// Makes a span in the pane's own style.
fn plain_span(text: &str) -> (span: Span)
    ensures
        span@ == plain(text@),
{
    Span { text: String::from_str(text), tone: None, bold: false }
}

/// Makes a span in a color of the theme.
fn toned_span(text: String, tone: Tone, bold: bool) -> (span: Span)
    ensures
        span@ == toned(text@, tone, bold),
{
    Span { text, tone: Some(tone), bold }
}

/// Appends a line of two spans.
fn push_pair(out: &mut Vec<Line>, first: Span, second: Span)
    ensures
        line_views(final(out)@) == line_views(old(out)@).push(seq![first@, second@]),
{
    let mut spans: Vec<Span> = Vec::new();
    spans.push(first);
    spans.push(second);
    let line = Line { spans };
    assert(line@ =~= seq![first@, second@]);
    out.push(line);
    assert(line_views(out@) =~= line_views(old(out)@).push(seq![first@, second@]));
}

/// Appends an empty line.
fn push_blank(out: &mut Vec<Line>)
    ensures
        line_views(final(out)@) == line_views(old(out)@).push(blank_line()),
{
    let mut spans: Vec<Span> = Vec::new();
    spans.push(plain_span(""));
    let line = Line { spans };
    proof {
        reveal_strlit("");
        assert(""@ =~= Seq::<char>::empty());
        assert(line@ =~= blank_line());
    }
    out.push(line);
    assert(line_views(out@) =~= line_views(old(out)@).push(blank_line()));
}

/// Appends the lines of a text.
fn push_body(out: &mut Vec<Line>, text: &str)
    ensures
        line_views(final(out)@) == line_views(old(out)@) + body_lines(text@),
{
    let lines = split_lines(text);
    let ghost all = text_lines(text@);
    let n = lines.len();
    let mut i: usize = 0;
    while i < n
        invariant
            i <= n,
            n == lines.len(),
            all == texts(lines@),
            all == text_lines(text@),
            line_views(out@) == line_views(old(out)@) + body_lines(text@).take(i as int),
        decreases n - i,
    {
        push_pair(out, plain_span("   "), plain_span(lines[i].as_str()));
        proof {
            assert(all[i as int] == lines@[i as int]@);
            assert(body_lines(text@).take(i + 1) =~= body_lines(text@).take(i as int).push(
                body_line(all[i as int]),
            ));
            assert(line_views(out@) =~= line_views(old(out)@) + body_lines(text@).take(i + 1));
        }
        i = i + 1;
    }
    proof {
        assert(body_lines(text@).take(n as int) =~= body_lines(text@));
    }
}

/// The icon of a tool's line.
fn icon_of(status: ToolStatus) -> (icon: &'static str)
    ensures
        icon@ == tool_icon(status),
{
    match status {
        ToolStatus::Success => "✓",
        ToolStatus::Error => "✕",
        ToolStatus::Running => "◐",
    }
}

/// The color of a tool's line.
fn tone_of(status: ToolStatus) -> (tone: Tone)
    ensures
        tone == tool_tone(status),
{
    match status {
        ToolStatus::Success => Tone::Success,
        ToolStatus::Error => Tone::Error,
        ToolStatus::Running => Tone::Warning,
    }
}

/// Makes the line of one tool.
fn make_tool_line(tool: &ToolState) -> (line: Line)
    ensures
        line@ == tool_line(tool@),
{
    let mut label = String::from_str(icon_of(tool.status));
    label.append(" ");
    label.append(tool.name.as_str());
    let mut elapsed = String::new();
    match tool.elapsed_ms {
        Some(e) => {
            elapsed.append(" ");
            push_decimal(&mut elapsed, e);
            elapsed.append("ms");
        },
        None => {},
    }
    assert(elapsed@ =~= elapsed_text(tool.elapsed_ms));
    let mut spans: Vec<Span> = Vec::new();
    spans.push(plain_span("   "));
    spans.push(toned_span(label, tone_of(tool.status), true));
    spans.push(toned_span(elapsed, Tone::Dim, false));
    let line = Line { spans };
    assert(line@ =~= tool_line(tool@));
    line
}

/// Appends the lines of an entry's tools.
fn push_tools(out: &mut Vec<Line>, tools: &Vec<ToolState>)
    ensures
        line_views(final(out)@) == line_views(old(out)@) + tool_lines(tool_views(tools@)),
{
    let ghost all = tool_views(tools@);
    let n = tools.len();
    if n == 0 {
        assert(line_views(out@) =~= line_views(old(out)@) + tool_lines(all));
        return ;
    }
    push_blank(out);
    let ghost each = Seq::new(all.len(), |i: int| tool_line(all[i]));
    let mut i: usize = 0;
    while i < n
        invariant
            i <= n,
            n == tools.len(),
            all == tool_views(tools@),
            each == Seq::new(all.len(), |i: int| tool_line(all[i])),
            line_views(out@) == line_views(old(out)@) + seq![blank_line()] + each.take(i as int),
        decreases n - i,
    {
        let ghost before = line_views(out@);
        let line = make_tool_line(&tools[i]);
        out.push(line);
        proof {
            assert(all[i as int] == tools@[i as int]@);
            assert(line_views(out@) =~= before.push(tool_line(all[i as int])));
            assert(each.take(i + 1) =~= each.take(i as int).push(tool_line(all[i as int])));
            assert(line_views(out@) =~= line_views(old(out)@) + seq![blank_line()] + each.take(
                i + 1,
            ));
        }
        i = i + 1;
    }
    proof {
        assert(each.take(n as int) =~= each);
        assert(line_views(out@) =~= line_views(old(out)@) + tool_lines(all));
    }
}

/// Appends the lines of one entry.
fn push_message(out: &mut Vec<Line>, msg: &Message, focused: bool)
    ensures
        line_views(final(out)@) == line_views(old(out)@) + message_lines(msg@, focused),
{
    let marker = if focused {
        "▶"
    } else {
        "▸"
    };
    let label = match msg.role {
        Role::User => " You ",
        Role::Assistant => " DAX ",
    };
    let tone = match msg.role {
        Role::User => Tone::User,
        Role::Assistant => Tone::Assistant,
    };
    push_pair(
        out,
        toned_span(String::from_str(marker), Tone::Accent, true),
        toned_span(String::from_str(label), tone, true),
    );
    assert(line_views(out@) =~= line_views(old(out)@) + seq![head_line(msg.role, focused)]);
    push_body(out, msg.content.as_str());
    push_tools(out, &msg.tools);
    push_blank(out);
    assert(line_views(out@) =~= line_views(old(out)@) + message_lines(msg@, focused));
}

/// All lines of the chat pane: each finished entry, the focused one marked,
/// then the turn in progress.
pub fn chat_lines(vm: &ViewModel) -> (lines: Vec<Line>)
    ensures
        line_views(lines@) == chat_text(vm@),
{
    let entries = vm.transcript();
    let focus = vm.scroll_position();
    let ghost all = message_views(entries@);
    let mut out: Vec<Line> = Vec::new();
    assert(line_views(out@) =~= transcript_lines(all.take(0), focus as nat));
    let n = entries.len();
    let mut i: usize = 0;
    while i < n
        invariant
            i <= n,
            n == entries.len(),
            all == message_views(entries@),
            line_views(out@) == transcript_lines(all.take(i as int), focus as nat),
        decreases n - i,
    {
        proof {
            assert(all.take(i + 1).drop_last() =~= all.take(i as int));
            assert(all.take(i + 1).last() == entries@[i as int]@);
        }
        push_message(&mut out, &entries[i], i == focus);
        i = i + 1;
    }
    proof {
        assert(all.take(n as int) =~= all);
    }
    let ghost shown = line_views(out@);
    let streamed = vm.streaming_buffer();
    if !streamed.is_empty() {
        push_pair(
            &mut out,
            toned_span(String::from_str("▸ "), Tone::Assistant, true),
            toned_span(String::from_str("DAX "), Tone::Assistant, true),
        );
        push_body(&mut out, streamed);
        match vm.active_tool() {
            Some(name) => {
                let mut text = String::from_str("   ◐ running: ");
                text.append(name.as_str());
                proof {
                    reveal_strlit("");
                    assert(""@ =~= Seq::<char>::empty());
                }
                push_pair(&mut out, plain_span(""), toned_span(text, Tone::Warning, false));
            },
            None => {},
        }
        assert(line_views(out@) =~= shown + streaming_lines(vm@));
    } else {
        assert(line_views(out@) =~= shown + streaming_lines(vm@));
    }
    out
}

/// The height of the header, in rows.
pub const HEADER_HEIGHT: u16 = 3;

/// The height of the input pane, in rows.
pub const INPUT_HEIGHT: u16 = 6;

/// The share of the body's width that the chat pane takes, in percent; the
/// sidebar takes the rest.
pub const CHAT_PERCENT: u16 = 70;

/// A rectangle of the terminal surface.
#[derive(Clone, Copy, Debug, PartialEq, Eq, Structural)]
pub struct Area {
    pub x: u16,
    pub y: u16,
    pub width: u16,
    pub height: u16,
}

/// The inside of a bordered pane: one cell in from each side.
pub open spec fn inside(area: Area) -> Area {
    Area {
        x: (area.x + 1) as u16,
        y: (area.y + 1) as u16,
        width: if area.width >= 2 {
            (area.width - 2) as u16
        } else {
            0
        },
        height: if area.height >= 2 {
            (area.height - 2) as u16
        } else {
            0
        },
    }
}

/// The inside of a bordered pane.
pub fn inner_area(area: Area) -> (inner: Area)
    requires
        area.x < u16::MAX,
        area.y < u16::MAX,
    ensures
        inner == inside(area),
{
    Area {
        x: area.x + 1,
        y: area.y + 1,
        width: if area.width >= 2 {
            area.width - 2
        } else {
            0
        },
        height: if area.height >= 2 {
            area.height - 2
        } else {
            0
        },
    }
}

/// A scroll indicator is shown where the lines do not fit the pane.
pub fn needs_scrollbar(line_count: usize, pane_height: u16) -> (shown: bool)
    ensures
        shown == (line_count > pane_height),
{
    line_count > pane_height as usize
}

/// The text of a sidebar list: the placeholder while the list is empty, else
/// the items, one to a line.
pub open spec fn list_text(items: Seq<Seq<char>>, placeholder: Seq<char>) -> Seq<char> {
    if items.len() == 0 {
        placeholder
    } else {
        joined(items, "\n"@)
    }
}

/// The text of the sidebar's files list.
pub fn files_text(vm: &ViewModel) -> (text: String)
    ensures
        text@ == list_text(vm@.context_files, "No files loaded"@),
{
    let files = vm.context_files();
    if files.len() == 0 {
        String::from_str("No files loaded")
    } else {
        join(files, "\n")
    }
}

/// The text of the sidebar's scope list.
pub fn scope_text(vm: &ViewModel) -> (text: String)
    ensures
        text@ == list_text(vm@.context_scope, "No scope defined"@),
{
    let scope = vm.context_scope();
    if scope.len() == 0 {
        String::from_str("No scope defined")
    } else {
        join(scope, "\n")
    }
}

/// The text of the input pane: the input buffer, or a caret while it is
/// empty.
pub open spec fn input_pane_text(s: ViewModelView) -> Seq<char> {
    if s.input_buffer.len() == 0 {
        "▊"@
    } else {
        s.input_buffer
    }
}

/// The text of the input pane.
pub fn input_text(vm: &ViewModel) -> (text: String)
    ensures
        text@ == input_pane_text(vm@),
{
    let typed = vm.input_buffer();
    if typed.is_empty() {
        String::from_str("▊")
    } else {
        String::from_str(typed)
    }
}

} // verus!
