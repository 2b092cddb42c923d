//! The application controller: one owner of all state, advanced one event
//! at a time by [`AppState::handle`], which answers with the background
//! work that the host should start. Completed work comes back as events.

use vstd::prelude::*;
use crate::decimal::decimal;
use crate::kill::{kill_report, kill_report_level, kill_report_text, KillOutcome, KillWorkflow};
use crate::process::{
    lists_pid,
    reconcile_selection,
    reconciled,
    sort_by_cpu,
    sorted_by_cpu_desc,
    stable_cpu_sort,
    ProcessRecord,
};
use crate::settings::{default_settings, AppSettings, ThemeChoice};
use crate::status::{NotificationLevel, StatusMessage, StatusNotifier};

verus! {

/// The view the user is looking at; the controller only records it.
#[derive(Debug, Clone, Copy, PartialEq, Eq, Structural)]
pub enum Tab {
    Dashboard,
    Processes,
    Settings,
}

/// System-wide figures of one sample.
///
/// `cpu_usage` is encoded as in [`ProcessRecord`]; memory is in bytes.
#[derive(Debug, Clone, Copy, PartialEq, Eq, Structural)]
pub struct SystemSnapshot {
    pub cpu_usage: u32,
    pub memory_used: u64,
    pub memory_total: u64,
    pub process_count: usize,
}

/// Something that happened: a tick, a user intent, or finished background
/// work.
#[derive(Debug)]
pub enum Event {
    /// The refresh timer fired.
    Tick,
    /// A fresh sample, with its records in the order the collector gave them.
    Refreshed(SystemSnapshot, Vec<ProcessRecord>),
    SettingsLoaded(Result<AppSettings, String>),
    SettingsSaved(Result<(), String>),
    ThemeChanged(ThemeChoice),
    TabSelected(Tab),
    ProcessSelected(u32),
    KillRequested(u32),
    KillConfirmed,
    KillCancelled,
    /// The kill attempt for this process ended so.
    KillFinished(u32, KillOutcome),
    /// The delay for the status message set under this tag has passed.
    ClearStatus(u64),
}

/// Background work for the host to start; each ends in an event.
#[derive(Debug, Clone, Copy, PartialEq, Eq, Structural)]
pub enum Task {
    /// Sample the system, then deliver `Refreshed`.
    Refresh,
    /// Read the stored settings, then deliver `SettingsLoaded`.
    LoadSettings,
    /// Write these settings, then deliver `SettingsSaved`.
    SaveSettings(AppSettings),
    /// Wait the status delay, then deliver `ClearStatus` with this tag.
    ClearStatus(u64),
    /// Try to terminate this process, then deliver `KillFinished`.
    Kill(u32),
}

#[derive(Debug)]
pub struct AppState {
    /// True until the first settings load has completed.
    pub is_loading: bool,
    pub active_tab: Tab,
    pub snapshot: SystemSnapshot,
    /// The latest sample's processes, highest CPU usage first.
    pub processes: Vec<ProcessRecord>,
    /// The process under inspection.
    pub selected: Option<u32>,
    pub kill: KillWorkflow,
    pub status: StatusNotifier,
    pub settings: AppSettings,
}

/// `post` shows a new message with this text and level, and the only task
/// is the delayed clear for it.
pub open spec fn announces(
    pre: StatusNotifier,
    post: StatusNotifier,
    text: Seq<char>,
    level: NotificationLevel,
    tasks: Seq<Task>,
) -> bool {
    &&& post.current is Some
    &&& post == pre.after_set(post.current.unwrap())
    &&& post.current.unwrap().message@ == text
    &&& post.current.unwrap().level == level
    &&& tasks == seq![Task::ClearStatus(post.generation)]
}

impl AppState {
    /// The list stays ordered by CPU usage.
    pub open spec fn wf(self) -> bool {
        sorted_by_cpu_desc(self.processes@)
    }

    /// Handling `e` in state `self` gives state `post` and starts `tasks`.
    pub open spec fn step(self, e: Event, post: AppState, tasks: Seq<Task>) -> bool {
        match e {
            Event::Tick => post == self && tasks == seq![Task::Refresh],
            Event::Refreshed(snapshot, raw) => {
                &&& stable_cpu_sort(raw@, post.processes@)
                &&& post == (AppState {
                    snapshot,
                    processes: post.processes,
                    selected: reconciled(self.selected, post.processes@),
                    ..self
                })
                &&& tasks == Seq::<Task>::empty()
            },
            Event::SettingsLoaded(Ok(settings)) => {
                &&& post == (AppState { settings, is_loading: false, ..self })
                &&& tasks == Seq::<Task>::empty()
            },
            Event::SettingsLoaded(Err(_)) => {
                &&& post == (AppState { status: post.status, is_loading: false, ..self })
                &&& announces(
                    self.status,
                    post.status,
                    "Failed to load settings"@,
                    NotificationLevel::Error,
                    tasks,
                )
            },
            Event::SettingsSaved(Ok(())) => {
                &&& post == (AppState { status: post.status, ..self })
                &&& announces(
                    self.status,
                    post.status,
                    "Settings saved"@,
                    NotificationLevel::Success,
                    tasks,
                )
            },
            Event::SettingsSaved(Err(_)) => {
                &&& post == (AppState { status: post.status, ..self })
                &&& announces(
                    self.status,
                    post.status,
                    "Failed to save settings"@,
                    NotificationLevel::Error,
                    tasks,
                )
            },
            Event::ThemeChanged(theme) => if self.is_loading {
                post == self && tasks == Seq::<Task>::empty()
            } else {
                &&& post == (AppState { settings: AppSettings { theme }, ..self })
                &&& tasks == seq![Task::SaveSettings(AppSettings { theme })]
            },
            Event::TabSelected(tab) => {
                &&& post == (AppState { active_tab: tab, ..self })
                &&& tasks == Seq::<Task>::empty()
            },
            Event::ProcessSelected(pid) => {
                &&& post == (AppState { selected: Some(pid), ..self })
                &&& tasks == Seq::<Task>::empty()
            },
            Event::KillRequested(pid) => {
                &&& post == (AppState { kill: KillWorkflow { pending: Some(pid) }, ..self })
                &&& tasks == Seq::<Task>::empty()
            },
            Event::KillConfirmed => {
                &&& post == (AppState { kill: KillWorkflow { pending: None }, ..self })
                &&& tasks == match self.kill.pending {
                    Some(pid) => seq![Task::Kill(pid)],
                    None => Seq::<Task>::empty(),
                }
            },
            Event::KillCancelled => {
                &&& post == (AppState { kill: KillWorkflow { pending: None }, ..self })
                &&& tasks == Seq::<Task>::empty()
            },
            Event::KillFinished(pid, outcome) => {
                &&& post == (AppState { status: post.status, ..self })
                &&& announces(
                    self.status,
                    post.status,
                    kill_report_text(pid, outcome),
                    kill_report_level(outcome),
                    tasks,
                )
            },
            Event::ClearStatus(tag) => {
                &&& post == (AppState { status: self.status.after_clear(tag), ..self })
                &&& tasks == Seq::<Task>::empty()
            },
        }
    }

    /// The state at start-up, from a first sample, with the task that loads
    /// the stored settings.
    pub fn new(snapshot: SystemSnapshot, processes: Vec<ProcessRecord>) -> (r: (
        AppState,
        Vec<Task>,
    ))
        ensures
            r.0.is_loading,
            r.0.active_tab == Tab::Dashboard,
            r.0.snapshot == snapshot,
            stable_cpu_sort(processes@, r.0.processes@),
            r.0.selected is None,
            r.0.kill.pending is None,
            r.0.status.current is None,
            r.0.settings == default_settings(),
            r.0.wf(),
            r.1@ == seq![Task::LoadSettings],
    {
        let state = AppState {
            is_loading: true,
            active_tab: Tab::Dashboard,
            snapshot,
            processes: sort_by_cpu(processes),
            selected: None,
            kill: KillWorkflow::new(),
            status: StatusNotifier::new(),
            settings: AppSettings::default(),
        };
        (state, Self::single(Task::LoadSettings))
    }

    fn single(task: Task) -> (r: Vec<Task>)
        ensures
            r@ == seq![task],
    {
        let r = vec![task];
        assert(r@ =~= seq![task]);
        r
    }

    fn announce(&mut self, msg: StatusMessage) -> (tasks: Vec<Task>)
        ensures
            *final(self) == (AppState { status: old(self).status.after_set(msg), ..*old(self) }),
            tasks@ == seq![Task::ClearStatus(final(self).status.generation)],
    {
        let tag: u64 = self.status.set(msg);
        Self::single(Task::ClearStatus(tag))
    }

    /// Applies one event and returns the background work to start.
    pub fn handle(&mut self, e: Event) -> (tasks: Vec<Task>)
        ensures
            old(self).step(e, *final(self), tasks@),
            old(self).wf() ==> final(self).wf(),
    {
        match e {
            Event::Tick => Self::single(Task::Refresh),
            Event::Refreshed(snapshot, raw) => {
                self.snapshot = snapshot;
                self.processes = sort_by_cpu(raw);
                self.selected = reconcile_selection(self.selected, &self.processes);
                Vec::new()
            },
            Event::SettingsLoaded(Ok(settings)) => {
                self.settings = settings;
                self.is_loading = false;
                Vec::new()
            },
            Event::SettingsLoaded(Err(_)) => {
                self.is_loading = false;
                self.announce(StatusMessage::error("Failed to load settings"))
            },
            Event::SettingsSaved(Ok(())) => self.announce(StatusMessage::success("Settings saved")),
            Event::SettingsSaved(Err(_)) => self.announce(
                StatusMessage::error("Failed to save settings"),
            ),
            Event::ThemeChanged(theme) => {
                if self.is_loading {
                    Vec::new()
                } else {
                    self.settings = AppSettings { theme };
                    Self::single(Task::SaveSettings(self.settings))
                }
            },
            Event::TabSelected(tab) => {
                self.active_tab = tab;
                Vec::new()
            },
            Event::ProcessSelected(pid) => {
                self.selected = Some(pid);
                Vec::new()
            },
            Event::KillRequested(pid) => {
                self.kill.request(pid);
                Vec::new()
            },
            Event::KillConfirmed => match self.kill.confirm() {
                Some(pid) => Self::single(Task::Kill(pid)),
                None => Vec::new(),
            },
            Event::KillCancelled => {
                self.kill.cancel();
                Vec::new()
            },
            Event::KillFinished(pid, outcome) => self.announce(kill_report(pid, outcome)),
            Event::ClearStatus(tag) => {
                self.status.clear(tag);
                Vec::new()
            },
        }
    }
    /// Every refresh leaves the process list ordered by CPU usage, highest
    /// first, with ties in the order the collector reported them.
    pub proof fn lemma_refresh_orders_by_cpu(
        self,
        snapshot: SystemSnapshot,
        raw: Vec<ProcessRecord>,
        post: AppState,
        tasks: Seq<Task>,
    )
        requires
            self.step(Event::Refreshed(snapshot, raw), post, tasks),
        ensures
            sorted_by_cpu_desc(post.processes@),
            stable_cpu_sort(raw@, post.processes@),
    {
    }

    /// A selected process that is missing from a refreshed list is no
    /// longer selected.
    pub proof fn lemma_refresh_drops_vanished_selection(
        self,
        pid: u32,
        snapshot: SystemSnapshot,
        raw: Vec<ProcessRecord>,
        post: AppState,
        tasks: Seq<Task>,
    )
        requires
            self.selected == Some(pid),
            self.step(Event::Refreshed(snapshot, raw), post, tasks),
            !lists_pid(post.processes@, pid),
        ensures
            post.selected is None,
    {
    }

    /// Requesting a kill and then cancelling it returns the workflow to
    /// idle, starts no work, and changes nothing else, the status message
    /// included.
    pub proof fn lemma_request_then_cancel(
        self,
        pid: u32,
        mid: AppState,
        post: AppState,
        first: Seq<Task>,
        second: Seq<Task>,
    )
        requires
            self.step(Event::KillRequested(pid), mid, first),
            mid.step(Event::KillCancelled, post, second),
        ensures
            post == (AppState { kill: KillWorkflow { pending: None }, ..self }),
            post.status == self.status,
            first.len() == 0,
            second.len() == 0,
    {
    }

    /// Requesting a kill, confirming it, and learning that the process no
    /// longer exists leaves the workflow idle and shows exactly the error
    /// that names the missing process.
    pub proof fn lemma_confirm_vanished_process(
        self,
        pid: u32,
        requested: AppState,
        confirmed: AppState,
        post: AppState,
        first: Seq<Task>,
        second: Seq<Task>,
        third: Seq<Task>,
    )
        requires
            self.step(Event::KillRequested(pid), requested, first),
            requested.step(Event::KillConfirmed, confirmed, second),
            confirmed.step(Event::KillFinished(pid, KillOutcome::NoSuchProcess), post, third),
        ensures
            second == seq![Task::Kill(pid)],
            post.kill.pending is None,
            post.status.current is Some,
            post.status.current.unwrap().level == NotificationLevel::Error,
            post.status.current.unwrap().message@ == "Tried to kill non-existent process "@
                + decimal(pid as nat),
    {
    }

    /// A failed save reports an error and keeps the theme the user chose:
    /// the change made before saving is not rolled back.
    pub proof fn lemma_failed_save_keeps_choice(
        self,
        theme: ThemeChoice,
        cause: String,
        changed: AppState,
        post: AppState,
        first: Seq<Task>,
        second: Seq<Task>,
    )
        requires
            !self.is_loading,
            self.step(Event::ThemeChanged(theme), changed, first),
            changed.step(Event::SettingsSaved(Err(cause)), post, second),
        ensures
            first == seq![Task::SaveSettings(AppSettings { theme })],
            post.settings == (AppSettings { theme }),
            post.status.current is Some,
            post.status.current.unwrap().level == NotificationLevel::Error,
            post.status.current.unwrap().message@ == "Failed to save settings"@,
    {
    }

    /// When a second message is shown before the first one's delay has
    /// passed, the first one's clear leaves the second message visible.
    pub proof fn lemma_stale_clear_keeps_newer_message(
        self,
        first_event: Event,
        second_event: Event,
        shown: AppState,
        replaced: AppState,
        post: AppState,
        first: Seq<Task>,
        second: Seq<Task>,
        third: Seq<Task>,
        tag: u64,
    )
        requires
            self.step(first_event, shown, first),
            first == seq![Task::ClearStatus(tag)],
            shown.step(second_event, replaced, second),
            second.len() == 1 && second[0] is ClearStatus,
            replaced.step(Event::ClearStatus(tag), post, third),
        ensures
            replaced.status.current is Some,
            post.status.current == replaced.status.current,
    {
    }
}

} // verus!
