//! The append-only event log shown to the player: one text line per event,
//! with a category used by the interface for color-coding.

use vstd::prelude::*;

verus! {

/// Category of a log entry. Carries no semantics beyond display color-coding.
#[derive(PartialEq, Eq, Structural, Copy, Clone, Debug)]
pub enum MessageType {
    Build,
    Claim,
    Move,
    Error,
    Other,
}

/// Ordered list of (message, category) pairs; entries are only ever appended.
#[derive(Clone, Debug)]
pub struct GameLog {
    pub entries: Vec<String>,
    pub message_type: Vec<MessageType>,
}

impl GameLog {
    /// The two parallel vectors always hold one category per message.
    pub open spec fn wf(self) -> bool {
        self.entries@.len() == self.message_type@.len()
    }

    /// Holds when `new` is `old` with exactly one entry appended, whose text
    /// is `text` and whose category is `ty`.
    pub open spec fn appended(old_log: GameLog, new_log: GameLog, text: Seq<char>, ty: MessageType) -> bool {
        &&& new_log.entries@.len() == old_log.entries@.len() + 1
        &&& new_log.entries@.subrange(0, old_log.entries@.len() as int) == old_log.entries@
        &&& new_log.entries@.last()@ == text
        &&& new_log.message_type@ == old_log.message_type@.push(ty)
    }

    pub fn new() -> (log: GameLog)
        ensures
            log.wf(),
            log.entries@.len() == 0,
            log.message_type@.len() == 0,
    {
        GameLog { entries: Vec::new(), message_type: Vec::new() }
    }

    /// Append one (message, category) pair.
    pub fn push(&mut self, entry: String, ty: MessageType)
        requires
            old(self).wf(),
        ensures
            final(self).wf(),
            final(self).entries@ == old(self).entries@.push(entry),
            final(self).message_type@ == old(self).message_type@.push(ty),
            GameLog::appended(*old(self), *final(self), entry@, ty),
    {
        self.entries.push(entry);
        self.message_type.push(ty);
        proof {
            assert(self.entries@.subrange(0, old(self).entries@.len() as int) =~= old(self).entries@);
        }
    }
}

/// Holds when `new_log` extends `old_log`: the old entries stand unchanged at
/// the front, in order, and only appends follow. Every game operation keeps
/// this relation between the log before and after.
pub open spec fn log_extends(old_log: GameLog, new_log: GameLog) -> bool {
    &&& old_log.entries@.is_prefix_of(new_log.entries@)
    &&& old_log.message_type@.is_prefix_of(new_log.message_type@)
}

} // verus!
