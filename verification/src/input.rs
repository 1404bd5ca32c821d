//! The input handler's rules: what a key event does to the view-model and
//! what it asks of the tick loop.

use vstd::prelude::*;
use crate::emit::submission_text;
use crate::model::ViewModelView;

verus! {

/// The key of a key event.
#[derive(Clone, Copy, Debug, PartialEq, Eq, Structural)]
pub enum KeyCode {
    Char(char),
    Backspace,
    Enter,
    Up,
    Down,
    PageUp,
    PageDown,
    Home,
    End,
    /// Any key that the input pane does not use.
    Other,
}

/// One key event of the terminal.
#[derive(Clone, Copy, Debug, PartialEq, Eq, Structural)]
pub struct KeyInput {
    pub code: KeyCode,
    /// The control modifier was held.
    pub control: bool,
    /// The event is a press, not a repeat or a release.
    pub pressed: bool,
}

/// What the tick loop has to do after a key event.
#[derive(Clone, Debug, PartialEq, Eq)]
pub enum Reaction {
    /// Nothing: go on with the next tick.
    Continue,
    /// Write this line to the driving process, then go on.
    Emit(String),
    /// Restore the terminal and leave the loop.
    Quit,
}

/// What a [`Reaction`] holds, as plain values.
pub enum ReactionView {
    Continue,
    Emit(Seq<char>),
    Quit,
}

impl View for Reaction {
    type V = ReactionView;

    open spec fn view(&self) -> ReactionView {
        match *self {
            Reaction::Continue => ReactionView::Continue,
            Reaction::Emit(line) => ReactionView::Emit(line@),
            Reaction::Quit => ReactionView::Quit,
        }
    }
}

/// How far page-up and page-down move the scroll position.
pub const PAGE_STEP: usize = 10;

/// The key event is the interrupt combination: a press of `c` with control.
pub open spec fn is_interrupt(key: KeyInput) -> bool {
    key.pressed && key.control && key.code == KeyCode::Char('c')
}

/// The index of the last transcript entry, or zero while there is none.
pub open spec fn last_index(s: ViewModelView) -> nat {
    if s.transcript.len() == 0 {
        0
    } else {
        (s.transcript.len() - 1) as nat
    }
}

/// The scroll position after a key event.
pub open spec fn scroll_after(s: ViewModelView, code: KeyCode) -> nat {
    let at = s.scroll_position;
    let last = last_index(s);
    match code {
        KeyCode::Up => if at > 0 {
            (at - 1) as nat
        } else {
            0
        },
        KeyCode::Down => if at < last {
            at + 1
        } else {
            at
        },
        KeyCode::PageUp => if at >= PAGE_STEP {
            (at - PAGE_STEP) as nat
        } else {
            0
        },
        KeyCode::PageDown => if at + PAGE_STEP < last {
            (at + PAGE_STEP) as nat
        } else {
            last
        },
        KeyCode::Home => 0,
        KeyCode::End => last,
        _ => at,
    }
}

/// The input buffer after a key event.
pub open spec fn input_after(buffer: Seq<char>, code: KeyCode) -> Seq<char> {
    match code {
        KeyCode::Char(c) => buffer.push(c),
        KeyCode::Backspace => if buffer.len() > 0 {
            buffer.drop_last()
        } else {
            buffer
        },
        KeyCode::Enter => Seq::empty(),
        _ => buffer,
    }
}

/// The state after a key event. Only a press counts, and the interrupt
/// combination changes nothing.
pub open spec fn key_step(s: ViewModelView, key: KeyInput) -> ViewModelView {
    if !key.pressed || is_interrupt(key) {
        s
    } else {
        ViewModelView {
            input_buffer: input_after(s.input_buffer, key.code),
            scroll_position: scroll_after(s, key.code),
            ..s
        }
    }
}

/// What a key event asks of the tick loop: the interrupt combination ends
/// it, enter on a buffer that is not empty submits the buffer.
pub open spec fn key_reaction(s: ViewModelView, key: KeyInput) -> ReactionView {
    if !key.pressed {
        ReactionView::Continue
    } else if is_interrupt(key) {
        ReactionView::Quit
    } else if key.code == KeyCode::Enter && s.input_buffer.len() > 0 {
        ReactionView::Emit(submission_text(s.input_buffer))
    } else {
        ReactionView::Continue
    }
}

/// The state after a sequence of key events, handled in order.
pub open spec fn keys_step(s: ViewModelView, keys: Seq<KeyInput>) -> ViewModelView
    decreases keys.len(),
{
    if keys.len() == 0 {
        s
    } else {
        key_step(keys_step(s, keys.drop_last()), keys.last())
    }
}

} // verus!
