use vstd::prelude::*;
use crate::text::str_eq;

verus! {

/// What the learner does to a word while memorizing a verse.
#[derive(Debug, Clone, Copy, PartialEq, Eq, Structural)]
pub enum MemorizationAction {
    /// A quick tap.
    Tap,
    /// A long press.
    LongPress,
}

/// The action a command names: "Tap" or "tap"; "LongPress", "longpress" or
/// "long_press".
pub open spec fn action_named(s: Seq<char>) -> Option<MemorizationAction> {
    if s == "Tap"@ || s == "tap"@ {
        Some(MemorizationAction::Tap)
    } else if s == "LongPress"@ || s == "longpress"@ || s == "long_press"@ {
        Some(MemorizationAction::LongPress)
    } else {
        None
    }
}

impl MemorizationAction {
    /// Reads an action from a command.
    pub fn from_str(s: &str) -> (r: Option<Self>)
        ensures
            r == action_named(s@),
    {
        if str_eq(s, "Tap") || str_eq(s, "tap") {
            Some(MemorizationAction::Tap)
        } else if str_eq(s, "LongPress") || str_eq(s, "longpress") || str_eq(s, "long_press") {
            Some(MemorizationAction::LongPress)
        } else {
            None
        }
    }
}

} // verus!
