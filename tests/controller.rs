use sysmon::app::{AppState, Event, SystemSnapshot, Tab, Task};
use sysmon::decimal::push_decimal;
use sysmon::kill::{kill_report, KillOutcome, KillWorkflow};
use sysmon::process::{contains_pid, reconcile_selection, sort_by_cpu, ProcessRecord};
use sysmon::settings::{missing_config_dir, AppSettings, StoredSettings, ThemeChoice};
use sysmon::status::{NotificationLevel, StatusMessage, StatusNotifier, STATUS_CLEAR_DELAY_SECS};

fn rec(pid: u32, name: &str, cpu: f32, memory_bytes: u64) -> ProcessRecord {
    ProcessRecord { pid, name: name.to_string(), cpu_usage: cpu.to_bits(), memory_bytes }
}

fn snapshot() -> SystemSnapshot {
    SystemSnapshot {
        cpu_usage: 12.5f32.to_bits(),
        memory_used: 4 << 30,
        memory_total: 16 << 30,
        process_count: 3,
    }
}

fn loaded_state(processes: Vec<ProcessRecord>) -> AppState {
    let (mut st, tasks) = AppState::new(snapshot(), processes);
    assert_eq!(tasks, vec![Task::LoadSettings]);
    let t = st.handle(Event::SettingsLoaded(Ok(AppSettings { theme: ThemeChoice::Dark })));
    assert!(t.is_empty());
    st
}

fn pids(list: &[ProcessRecord]) -> Vec<u32> {
    list.iter().map(|p| p.pid).collect()
}

fn status_text(st: &AppState) -> Option<(String, NotificationLevel)> {
    st.status.current.as_ref().map(|m| (m.message.clone(), m.level))
}

#[test]
fn sort_orders_by_cpu_descending_and_keeps_ties_stable() {
    let raw = vec![
        rec(1, "a", 5.0, 10),
        rec(2, "b", 50.0, 20),
        rec(3, "c", 5.0, 30),
        rec(4, "d", 0.0, 40),
        rec(5, "e", 50.0, 50),
        rec(6, "f", 12.25, 60),
    ];
    let sorted = sort_by_cpu(raw);
    assert_eq!(pids(&sorted), vec![2, 5, 6, 1, 3, 4]);
    assert_eq!(sorted[0].name, "b");
    assert_eq!(sorted[3].memory_bytes, 10);
}

#[test]
fn sort_handles_empty_and_equal_lists() {
    assert!(sort_by_cpu(Vec::new()).is_empty());
    let same = vec![rec(9, "x", 1.0, 0), rec(8, "y", 1.0, 0), rec(7, "z", 1.0, 0)];
    assert_eq!(pids(&sort_by_cpu(same)), vec![9, 8, 7]);
}

#[test]
fn selection_survives_only_while_listed() {
    let list = vec![rec(10, "a", 1.0, 0), rec(20, "b", 2.0, 0)];
    assert!(contains_pid(&list, 20));
    assert!(!contains_pid(&list, 30));
    assert_eq!(reconcile_selection(Some(10), &list), Some(10));
    assert_eq!(reconcile_selection(Some(30), &list), None);
    assert_eq!(reconcile_selection(None, &list), None);
}

#[test]
fn refresh_sorts_and_drops_vanished_selection() {
    let mut st = loaded_state(vec![rec(1, "a", 1.0, 0), rec(2, "b", 2.0, 0)]);
    assert_eq!(st.handle(Event::Tick), vec![Task::Refresh]);
    st.handle(Event::ProcessSelected(1));
    assert_eq!(st.selected, Some(1));
    let t = st.handle(Event::Refreshed(
        snapshot(),
        vec![rec(3, "c", 3.0, 0), rec(1, "a", 9.0, 0), rec(4, "d", 3.0, 0)],
    ));
    assert!(t.is_empty());
    assert_eq!(pids(&st.processes), vec![1, 3, 4]);
    assert_eq!(st.selected, Some(1));
    st.handle(Event::Refreshed(snapshot(), vec![rec(2, "b", 0.5, 0), rec(4, "d", 3.0, 0)]));
    assert_eq!(pids(&st.processes), vec![4, 2]);
    assert_eq!(st.selected, None);
}

#[test]
fn request_then_cancel_changes_nothing_else() {
    let mut st = loaded_state(vec![rec(7, "a", 1.0, 0)]);
    st.handle(Event::SettingsSaved(Ok(())));
    let before = status_text(&st);
    let gen = st.status.generation;
    assert!(st.handle(Event::KillRequested(7)).is_empty());
    assert_eq!(st.kill.pending, Some(7));
    assert!(st.handle(Event::KillCancelled).is_empty());
    assert_eq!(st.kill, KillWorkflow { pending: None });
    assert_eq!(status_text(&st), before);
    assert_eq!(st.status.generation, gen);
}

#[test]
fn confirm_of_vanished_process_reports_it() {
    let mut st = loaded_state(Vec::new());
    st.handle(Event::KillRequested(4242));
    let t = st.handle(Event::KillConfirmed);
    assert_eq!(t, vec![Task::Kill(4242)]);
    assert_eq!(st.kill.pending, None);
    let t = st.handle(Event::KillFinished(4242, KillOutcome::NoSuchProcess));
    assert_eq!(t, vec![Task::ClearStatus(st.status.generation)]);
    assert_eq!(
        status_text(&st),
        Some(("Tried to kill non-existent process 4242".to_string(), NotificationLevel::Error))
    );
}

#[test]
fn confirm_without_request_does_nothing() {
    let mut st = loaded_state(Vec::new());
    assert!(st.handle(Event::KillConfirmed).is_empty());
    assert_eq!(st.kill.pending, None);
}

#[test]
fn later_request_supersedes_earlier() {
    let mut st = loaded_state(Vec::new());
    st.handle(Event::KillRequested(1));
    st.handle(Event::KillRequested(2));
    assert_eq!(st.handle(Event::KillConfirmed), vec![Task::Kill(2)]);
}

#[test]
fn kill_reports_name_the_pid() {
    let m = kill_report(1234, KillOutcome::Killed);
    assert_eq!(m.message, "Process 1234 killed successfully");
    assert_eq!(m.level, NotificationLevel::Success);
    let m = kill_report(0, KillOutcome::Denied);
    assert_eq!(m.message, "Failed to kill process 0 (permission denied?)");
    assert_eq!(m.level, NotificationLevel::Error);
    let m = kill_report(u32::MAX, KillOutcome::NoSuchProcess);
    assert_eq!(m.message, "Tried to kill non-existent process 4294967295");
    assert_eq!(m.level, NotificationLevel::Error);
}

#[test]
fn decimal_rendering() {
    for n in [0u32, 7, 10, 99, 100, 65535, 4294967295] {
        let mut s = "#".to_string();
        push_decimal(&mut s, n);
        assert_eq!(s, format!("#{}", n));
    }
}

#[test]
fn missing_file_loads_defaults() {
    let r = AppSettings::from_stored(StoredSettings::NotFound);
    assert_eq!(r, Ok(AppSettings { theme: ThemeChoice::Dark }));
    assert_eq!(AppSettings::default().theme, ThemeChoice::Dark);
}

#[test]
fn load_errors_carry_their_cause() {
    assert_eq!(
        AppSettings::from_stored(StoredSettings::NoConfigDir),
        Err("Could not find config directory".to_string())
    );
    assert_eq!(missing_config_dir(), "Could not find config directory");
    assert_eq!(
        AppSettings::from_stored(StoredSettings::Failed("expected value at line 1".to_string())),
        Err("expected value at line 1".to_string())
    );
    assert_eq!(
        AppSettings::from_stored(StoredSettings::Theme("Blue".to_string())),
        Err("unknown theme Blue".to_string())
    );
    assert_eq!(ThemeChoice::from_token("dark"), None);
}

#[test]
fn settings_round_trip_through_token() {
    for theme in [ThemeChoice::Light, ThemeChoice::Dark] {
        let s = AppSettings { theme };
        let stored = s.stored_theme();
        assert_eq!(AppSettings::from_stored(StoredSettings::Theme(stored)), Ok(s));
    }
    assert_eq!(ThemeChoice::Light.token(), "Light");
    assert_eq!(ThemeChoice::Dark.token(), "Dark");
}

#[test]
fn failed_save_keeps_chosen_theme() {
    let mut st = loaded_state(Vec::new());
    let t = st.handle(Event::ThemeChanged(ThemeChoice::Light));
    assert_eq!(t, vec![Task::SaveSettings(AppSettings { theme: ThemeChoice::Light })]);
    assert_eq!(st.settings.theme, ThemeChoice::Light);
    let t = st.handle(Event::SettingsSaved(Err("permission denied".to_string())));
    assert_eq!(t.len(), 1);
    assert_eq!(st.settings.theme, ThemeChoice::Light);
    assert_eq!(
        status_text(&st),
        Some(("Failed to save settings".to_string(), NotificationLevel::Error))
    );
}

#[test]
fn successful_save_is_announced() {
    let mut st = loaded_state(Vec::new());
    let t = st.handle(Event::SettingsSaved(Ok(())));
    assert_eq!(t, vec![Task::ClearStatus(1)]);
    assert_eq!(status_text(&st), Some(("Settings saved".to_string(), NotificationLevel::Success)));
    st.handle(Event::ClearStatus(1));
    assert_eq!(status_text(&st), None);
}

#[test]
fn theme_change_while_loading_is_ignored() {
    let (mut st, _) = AppState::new(snapshot(), Vec::new());
    assert!(st.handle(Event::ThemeChanged(ThemeChoice::Light)).is_empty());
    assert_eq!(st.settings.theme, ThemeChoice::Dark);
    assert!(st.is_loading);
}

#[test]
fn failed_load_stops_loading_and_reports() {
    let (mut st, _) = AppState::new(snapshot(), Vec::new());
    let t = st.handle(Event::SettingsLoaded(Err("bad json".to_string())));
    assert_eq!(t.len(), 1);
    assert!(!st.is_loading);
    assert_eq!(st.settings.theme, ThemeChoice::Dark);
    assert_eq!(
        status_text(&st),
        Some(("Failed to load settings".to_string(), NotificationLevel::Error))
    );
}

#[test]
fn tab_selection_is_recorded() {
    let mut st = loaded_state(Vec::new());
    assert_eq!(st.active_tab, Tab::Dashboard);
    st.handle(Event::TabSelected(Tab::Settings));
    assert_eq!(st.active_tab, Tab::Settings);
}

#[test]
fn stale_clear_keeps_newer_message() {
    let mut n = StatusNotifier::new();
    let first = n.set(StatusMessage::success("one"));
    let second = n.set(StatusMessage::error("two"));
    assert_ne!(first, second);
    n.clear(first);
    assert_eq!(n.current.as_ref().map(|m| m.message.clone()), Some("two".to_string()));
    n.clear(second);
    assert!(n.current.is_none());
    assert_eq!(STATUS_CLEAR_DELAY_SECS, 3);
}

#[test]
fn stale_clear_through_controller() {
    let mut st = loaded_state(Vec::new());
    let t1 = st.handle(Event::SettingsSaved(Ok(())));
    let t2 = st.handle(Event::KillFinished(3, KillOutcome::Denied));
    let Task::ClearStatus(first_tag) = t1[0] else { panic!("expected a clear task") };
    st.handle(Event::ClearStatus(first_tag));
    assert_eq!(
        status_text(&st),
        Some(("Failed to kill process 3 (permission denied?)".to_string(), NotificationLevel::Error))
    );
    let Task::ClearStatus(second_tag) = t2[0] else { panic!("expected a clear task") };
    st.handle(Event::ClearStatus(second_tag));
    assert_eq!(status_text(&st), None);
}

#[test]
fn status_constructors() {
    let s = StatusMessage::success("ok");
    assert_eq!((s.message.as_str(), s.level), ("ok", NotificationLevel::Success));
    let e = StatusMessage::error("bad");
    assert_eq!((e.message.as_str(), e.level), ("bad", NotificationLevel::Error));
}
