use codex_scheduling::monitor::TailBuffer;
use codex_scheduling::monitor_tools::MonitorWatchForHandler;
use codex_scheduling::monitor_tools::WatchEvent;
use codex_scheduling::monitor_tools::WatchState;
use codex_scheduling::monitor::MonitorTask;
use codex_scheduling::monitor_registry::MonitorRegistry;
use codex_scheduling::task::TaskStatus;
use codex_scheduling::timestamp::Timestamp;

fn at(secs: i64) -> Timestamp {
    Timestamp::from_unix(secs, 0).unwrap()
}

#[test]
fn new_monitor_starts_pending_with_no_lines() {
    let m = MonitorTask::new("tail -F log.txt".into());
    assert_eq!(m.status, TaskStatus::Pending);
    assert_eq!(m.lines_emitted, 0);
    assert!(m.started_at.is_none());
    assert!(m.stopped_at.is_none());
    assert!(m.background);
    assert!(!m.restart_on_resume);
}

#[test]
fn each_monitor_gets_unique_id() {
    let a = MonitorTask::new("ls".into());
    let b = MonitorTask::new("ls".into());
    assert_ne!(a.id, b.id);
}

#[test]
fn monitor_registry_insert_then_list() {
    let mut reg = MonitorRegistry::new();
    let id = reg.insert(MonitorTask::new("tail -f log".into()));
    let listed = reg.list();
    assert_eq!(listed.len(), 1);
    assert_eq!(listed[0].id, id);
    assert_eq!(listed[0].status, TaskStatus::Pending);
}

#[test]
fn record_line_increments_counter() {
    let mut reg = MonitorRegistry::new();
    let id = reg.insert(MonitorTask::new("noop".into()));
    reg.record_line(&id);
    reg.record_line(&id);
    let task = reg.list().into_iter().find(|t| t.id == id).unwrap();
    assert_eq!(task.lines_emitted, 2);
}

#[test]
fn mark_running_updates_status_and_started_at() {
    let mut reg = MonitorRegistry::new();
    let id = reg.insert(MonitorTask::new("noop".into()));
    reg.mark_running(&id, at(100));
    let task = reg.list().into_iter().find(|t| t.id == id).unwrap();
    assert_eq!(task.status, TaskStatus::Running);
    assert_eq!(task.started_at, Some(at(100)));
}

#[test]
fn mark_terminal_records_killed_status() {
    let mut reg = MonitorRegistry::new();
    let id = reg.insert(MonitorTask::new("noop".into()));
    reg.mark_terminal(&id, TaskStatus::Killed, at(200));
    let task = reg.list().into_iter().find(|t| t.id == id).unwrap();
    assert_eq!(task.status, TaskStatus::Killed);
    assert_eq!(task.stopped_at, Some(at(200)));
}

#[test]
fn remove_drops_the_entry() {
    let mut reg = MonitorRegistry::new();
    let id = reg.insert(MonitorTask::new("noop".into()));
    assert_eq!(reg.len(), 1);
    let removed = reg.remove(&id);
    assert!(removed.is_some());
    assert_eq!(reg.len(), 0);
}

#[test]
fn the_watch_step_looks_at_each_numbered_line_once() {
    let watch = MonitorWatchForHandler;
    let mut state = WatchState::new();
    let tail = vec!["[stdout] ok 1".to_string(), "[stderr] ok 2".to_string(), "[stdout] skip".to_string()];
    let r = watch.step(&mut state, WatchEvent::Tail { first_seq: 5, entries: tail.clone() }, "ok", true, None);
    assert!(r.is_none());
    assert_eq!(state.collected.len(), 2);
    assert_eq!(state.next_seq, 8);
    // The live feed repeats line 7 and the tail comes again after a lag:
    // nothing is collected twice.
    let line = WatchEvent::Line { seq: 6, stream: "stderr".to_string(), line: "ok 2".to_string() };
    assert!(watch.step(&mut state, line, "ok", true, None).is_none());
    let r = watch.step(&mut state, WatchEvent::Tail { first_seq: 5, entries: tail }, "ok", true, None);
    assert!(r.is_none());
    assert_eq!(state.collected.len(), 2);
    let line = WatchEvent::Line { seq: 8, stream: "stdout".to_string(), line: "ok 3".to_string() };
    assert!(watch.step(&mut state, line, "ok", true, None).is_none());
    assert_eq!(state.next_seq, 9);
    let reply = watch.step(&mut state, WatchEvent::Closed, "ok", true, None).unwrap();
    let lines: Vec<&str> = reply.matches.iter().map(|m| m.matching_line.as_str()).collect();
    assert_eq!(lines, vec!["ok 1", "ok 2", "ok 3"]);
    assert_eq!(reply.matches[1].stream, "stderr");
    assert!(reply.matched);
    assert!(!reply.terminated_without_match);
}

#[test]
fn the_watch_step_stops_at_the_cap_and_reports_the_end() {
    let watch = MonitorWatchForHandler;
    let mut state = WatchState::new();
    let tail = vec!["[stdout] hit a".to_string(), "[stdout] hit b".to_string(), "[stdout] hit c".to_string()];
    let reply = watch.step(&mut state, WatchEvent::Tail { first_seq: 0, entries: tail }, "hit", true, Some(2)).unwrap();
    assert_eq!(reply.matches.len(), 2);
    assert_eq!(reply.matching_line.as_deref(), Some("hit a"));

    let mut state = WatchState::new();
    let line = WatchEvent::Line { seq: 0, stream: "stdout".to_string(), line: "ready".to_string() };
    let reply = watch.step(&mut state, line, "ready", false, None).unwrap();
    assert_eq!(reply.matching_line.as_deref(), Some("ready"));
    assert!(reply.matches.is_empty());

    let mut state = WatchState::new();
    let reply = watch.step(&mut state, WatchEvent::Closed, "x", false, None).unwrap();
    assert!(reply.terminated_without_match);
    let mut state = WatchState::new();
    let reply = watch.step(&mut state, WatchEvent::TimedOut, "x", false, None).unwrap();
    assert!(reply.timed_out);
    assert!(!reply.terminated_without_match);
}

#[test]
fn the_tail_numbers_its_entries() {
    let mut tail = TailBuffer::new();
    assert_eq!(tail.first_seq(), 0);
    for i in 0..45 {
        assert_eq!(tail.pushed(), i);
        tail.push(format!("[stdout] line {i}"));
    }
    assert_eq!(tail.pushed(), 45);
    assert_eq!(tail.first_seq(), 5);
    assert_eq!(tail.snapshot()[0], "[stdout] line 5");
}
