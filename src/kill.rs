//! The confirm-before-destroy workflow for terminating a process, and the
//! status message that reports how an attempt went.

use vstd::prelude::*;
use crate::decimal::{decimal, push_decimal};
use crate::status::{NotificationLevel, StatusMessage};

verus! {

/// How an attempt to terminate a process ended.
#[derive(Debug, Clone, Copy, PartialEq, Eq, Structural)]
pub enum KillOutcome {
    /// The process existed and the operating system terminated it.
    Killed,
    /// The process existed but the operating system refused.
    Denied,
    /// No process with that identifier exists any more.
    NoSuchProcess,
}

/// `pending` is `None` when idle, or the process awaiting a yes or no.
#[derive(Debug, Clone, Copy, PartialEq, Eq, Structural)]
pub struct KillWorkflow {
    pub pending: Option<u32>,
}

impl KillWorkflow {
    pub fn new() -> (r: KillWorkflow)
        ensures
            r.pending is None,
    {
        KillWorkflow { pending: None }
    }

    /// Asks for confirmation to kill `pid`, superseding any earlier request.
    pub fn request(&mut self, pid: u32)
        ensures
            final(self).pending == Some(pid),
    {
        self.pending = Some(pid);
    }

    /// Drops the pending request.
    pub fn cancel(&mut self)
        ensures
            final(self).pending is None,
    {
        self.pending = None;
    }

    /// Confirms the pending request: returns the process to kill, if one was
    /// pending, and goes back to idle.
    pub fn confirm(&mut self) -> (target: Option<u32>)
        ensures
            target == old(self).pending,
            final(self).pending is None,
    {
        let target = self.pending;
        self.pending = None;
        target
    }
}

/// The text that reports `outcome` for process `pid`.
pub open spec fn kill_report_text(pid: u32, outcome: KillOutcome) -> Seq<char> {
    match outcome {
        KillOutcome::Killed => "Process "@ + decimal(pid as nat) + " killed successfully"@,
        KillOutcome::Denied => "Failed to kill process "@ + decimal(pid as nat)
            + " (permission denied?)"@,
        KillOutcome::NoSuchProcess => "Tried to kill non-existent process "@ + decimal(
            pid as nat,
        ),
    }
}

/// Only a successful kill is reported as a success.
pub open spec fn kill_report_level(outcome: KillOutcome) -> NotificationLevel {
    match outcome {
        KillOutcome::Killed => NotificationLevel::Success,
        _ => NotificationLevel::Error,
    }
}

/// The status message that reports `outcome` for process `pid`.
pub fn kill_report(pid: u32, outcome: KillOutcome) -> (r: StatusMessage)
    ensures
        r.message@ == kill_report_text(pid, outcome),
        r.level == kill_report_level(outcome),
{
    match outcome {
        KillOutcome::Killed => {
            let mut text = "Process ".to_owned();
            push_decimal(&mut text, pid);
            text.append(" killed successfully");
            StatusMessage { message: text, level: NotificationLevel::Success }
        },
        KillOutcome::Denied => {
            let mut text = "Failed to kill process ".to_owned();
            push_decimal(&mut text, pid);
            text.append(" (permission denied?)");
            StatusMessage { message: text, level: NotificationLevel::Error }
        },
        KillOutcome::NoSuchProcess => {
            let mut text = "Tried to kill non-existent process ".to_owned();
            push_decimal(&mut text, pid);
            StatusMessage { message: text, level: NotificationLevel::Error }
        },
    }
}

} // verus!
