use codex_scheduling::loop_registry::LoopRegistry;
use codex_scheduling::loop_task::LoopTask;
use codex_scheduling::task::TaskId;
use codex_scheduling::task::TaskStatus;
use codex_scheduling::timestamp::Timestamp;

fn at(secs: i64) -> Timestamp {
    Timestamp::from_unix(secs, 0).unwrap()
}

#[test]
fn fixed_loop_records_interval() {
    let l = LoopTask::new_fixed("poll".into(), 300);
    assert_eq!(l.interval_secs, Some(300));
    assert!(!l.is_dynamic());
}

#[test]
fn dynamic_loop_has_no_interval() {
    let l = LoopTask::new_dynamic("watch".into());
    assert_eq!(l.interval_secs, None);
    assert!(l.is_dynamic());
}

#[test]
fn new_loop_starts_pending_with_zero_iterations() {
    let l = LoopTask::new_dynamic("noop".into());
    assert_eq!(l.status, TaskStatus::Pending);
    assert_eq!(l.iteration_count, 0);
    assert!(l.last_iter_at.is_none());
    assert!(l.next_wakeup_at.is_none());
}

#[test]
fn loop_registry_insert_then_list() {
    let mut reg = LoopRegistry::new();
    let id = reg.insert(LoopTask::new_fixed("poll".into(), 60));
    assert_eq!(reg.len(), 1);
    assert_eq!(reg.list()[0].id, id);
}

#[test]
fn record_iteration_increments_counter() {
    let mut reg = LoopRegistry::new();
    let id = reg.insert(LoopTask::new_fixed("p".into(), 10));
    reg.record_iteration(&id, at(100));
    reg.record_iteration(&id, at(200));
    let task = reg.list().into_iter().find(|t| t.id == id).unwrap();
    assert_eq!(task.iteration_count, 2);
    assert_eq!(task.last_iter_at, Some(at(200)));
    assert_eq!(task.status, TaskStatus::Pending);
    // The next wake-up is one interval after the last firing.
    assert_eq!(task.next_wakeup_at, Some(at(210)));
}

#[test]
fn mark_terminal_records_killed() {
    let mut reg = LoopRegistry::new();
    let id = reg.insert(LoopTask::new_fixed("p".into(), 10));
    reg.mark_terminal(&id, TaskStatus::Killed, at(500));
    let task = reg.list().into_iter().find(|t| t.id == id).unwrap();
    assert_eq!(task.status, TaskStatus::Killed);
    assert_eq!(task.last_iter_at, Some(at(500)));
}

#[test]
fn status_returns_none_when_missing_and_tracks_terminal() {
    let mut reg = LoopRegistry::new();
    let unknown = TaskId::new();
    assert!(reg.status(&unknown).is_none());
    let id = reg.insert(LoopTask::new_fixed("p".into(), 10));
    assert_eq!(reg.status(&id), Some(TaskStatus::Pending));
    reg.mark_terminal(&id, TaskStatus::Completed, at(1));
    assert_eq!(reg.status(&id), Some(TaskStatus::Completed));
}

#[test]
fn remove_drops_entry() {
    let mut reg = LoopRegistry::new();
    let id = reg.insert(LoopTask::new_fixed("p".into(), 10));
    assert!(reg.remove(&id).is_some());
    assert_eq!(reg.len(), 0);
}

#[test]
fn hydrate_replaces_contents() {
    let mut reg = LoopRegistry::new();
    reg.insert(LoopTask::new_fixed("old".into(), 10));
    let a = LoopTask::new_fixed("a".into(), 10);
    let b = LoopTask::new_dynamic("b".into());
    let (ida, idb) = (a.id.clone(), b.id.clone());
    reg.hydrate(vec![a, b]);
    let listed = reg.list();
    assert_eq!(listed.len(), 2);
    assert_eq!(listed[0].id, ida);
    assert_eq!(listed[1].id, idb);
}

#[test]
fn wakeup_and_prompt_updates() {
    let mut reg = LoopRegistry::new();
    let id = reg.insert(LoopTask::new_dynamic("first".into()));
    reg.set_next_wakeup(&id, at(42));
    reg.update_prompt(&id, "second".into());
    let t = reg.list().into_iter().find(|t| t.id == id).unwrap();
    assert_eq!(t.next_wakeup_at, Some(at(42)));
    assert_eq!(t.prompt, "second");
    reg.clear_next_wakeup(&id);
    let t = reg.list().into_iter().find(|t| t.id == id).unwrap();
    assert_eq!(t.next_wakeup_at, None);
    // A dynamic loop's iteration leaves the wake-up alone.
    reg.record_iteration(&id, at(50));
    let t = reg.list().into_iter().find(|t| t.id == id).unwrap();
    assert_eq!(t.next_wakeup_at, None);
    assert_eq!(t.iteration_count, 1);
}
