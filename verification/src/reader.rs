//! The line reader's rule: which lines of the input stream are queued.

use vstd::prelude::*;
use vstd::string::StringExecFns;
use crate::text::{trim_text, trimmed};

verus! {

/// What is queued for a line that was read: the line without the white space
/// at its ends, or nothing where that leaves no character.
pub open spec fn queued(raw: Seq<char>) -> Option<Seq<char>> {
    if trimmed(raw).len() == 0 {
        None
    } else {
        Some(trimmed(raw))
    }
}

/// Prepares a line that was read for the queue: trims it, and drops it where
/// nothing is left.
pub fn queue_line(raw: &str) -> (line: Option<String>)
    ensures
        crate::model::opt_text(line) == queued(raw@),
{
    let rest = trim_text(raw);
    if rest.is_empty() {
        None
    } else {
        Some(String::from_str(rest))
    }
}

} // verus!
