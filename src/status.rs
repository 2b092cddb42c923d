//! Transient user-facing status messages, each cleared by a delayed request
//! that only removes the message it was scheduled for.

use vstd::prelude::*;

verus! {

/// How long a status message stays visible, in seconds.
pub const STATUS_CLEAR_DELAY_SECS: u64 = 3;

#[derive(Debug, Clone, Copy, PartialEq, Eq, Structural)]
pub enum NotificationLevel {
    Success,
    Error,
}

#[derive(Debug)]
pub struct StatusMessage {
    pub message: String,
    pub level: NotificationLevel,
}

impl StatusMessage {
    /// A message that reports a completed action.
    pub fn success(message: &str) -> (r: StatusMessage)
        ensures
            r.message@ == message@,
            r.level == NotificationLevel::Success,
    {
        StatusMessage { message: message.to_owned(), level: NotificationLevel::Success }
    }

    /// A message that reports a failure.
    pub fn error(message: &str) -> (r: StatusMessage)
        ensures
            r.message@ == message@,
            r.level == NotificationLevel::Error,
    {
        StatusMessage { message: message.to_owned(), level: NotificationLevel::Error }
    }
}

/// At most one live message, with the tag of the `set` that put it there.
///
/// Every `set` hands out a fresh tag; a `clear` carrying any other tag than
/// the current one leaves the message alone.
#[derive(Debug)]
pub struct StatusNotifier {
    pub current: Option<StatusMessage>,
    pub generation: u64,
}

impl StatusNotifier {
    /// The tag that follows `g`; it always differs from `g`.
    pub open spec fn next_tag(g: u64) -> u64 {
        if g < u64::MAX {
            (g + 1) as u64
        } else {
            0
        }
    }

    /// The notifier after `set(msg)`.
    pub open spec fn after_set(self, msg: StatusMessage) -> StatusNotifier {
        StatusNotifier { current: Some(msg), generation: Self::next_tag(self.generation) }
    }

    /// The notifier after `clear(tag)`.
    pub open spec fn after_clear(self, tag: u64) -> StatusNotifier {
        if tag == self.generation {
            StatusNotifier { current: None, generation: self.generation }
        } else {
            self
        }
    }

    pub fn new() -> (r: StatusNotifier)
        ensures
            r.current is None,
            r.generation == 0,
    {
        StatusNotifier { current: None, generation: 0 }
    }

    /// Shows `msg` in place of any current message and returns the tag that
    /// the delayed clear for it must carry.
    pub fn set(&mut self, msg: StatusMessage) -> (tag: u64)
        ensures
            *final(self) == old(self).after_set(msg),
            tag == final(self).generation,
    {
        let tag: u64 = if self.generation < u64::MAX {
            self.generation + 1
        } else {
            0
        };
        self.current = Some(msg);
        self.generation = tag;
        tag
    }

    /// Removes the current message if it was set under `tag`.
    pub fn clear(&mut self, tag: u64)
        ensures
            *final(self) == old(self).after_clear(tag),
    {
        if tag == self.generation {
            self.current = None;
        }
    }

    /// A stale clear never erases a newer message: after two `set`s, the
    /// clear scheduled for the first leaves the second message in place.
    pub proof fn lemma_stale_clear_keeps_newer(
        self,
        first: StatusMessage,
        second: StatusMessage,
    )
        ensures
            ({
                let n1 = self.after_set(first);
                let n2 = n1.after_set(second);
                n2.after_clear(n1.generation).current == Some(second)
            }),
    {
    }
}

} // verus!
