use codex_scheduling::cron_job::CronJob;
use codex_scheduling::loop_task::LoopTask;
use codex_scheduling::monitor::MonitorTask;
use codex_scheduling::paths::push_path;
use codex_scheduling::paths::with_suffix;
use codex_scheduling::persist::default_version;
use codex_scheduling::persist::scheduling_state_path;
use codex_scheduling::persist::SchedulingSnapshot;

#[test]
fn scheduling_state_path_uses_thread_id() {
    let p = scheduling_state_path("/tmp/test-codex", "abc-123");
    assert!(p.ends_with("scheduling/abc-123.json"));
    assert_eq!(p, "/tmp/test-codex/scheduling/abc-123.json");
}

#[test]
fn snapshot_new_and_empty() {
    let cron = CronJob::new("0 * * * * *".into(), "tick".into()).unwrap();
    let mon = MonitorTask::new("ping -c 3 google.com".into());
    let lp = LoopTask::new_fixed("poll".into(), 30);
    let snap = SchedulingSnapshot::new(vec![cron], vec![mon], vec![lp]);
    assert_eq!(snap.version, 1);
    assert!(!snap.is_empty());
    let empty = SchedulingSnapshot::default();
    assert!(empty.is_empty());
    assert_eq!(empty.version, 0);
    assert_eq!(default_version(), 1);
}

#[test]
fn path_helpers() {
    assert_eq!(with_suffix("/a/b.json", ".tmp"), "/a/b.json.tmp");
    assert_eq!(push_path("/a", "/abs"), "/abs");
    assert_eq!(push_path("", "x"), "x");
    assert_eq!(push_path("a/", "x"), "a/x");
}
