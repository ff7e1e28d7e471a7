use codex_scheduling::cron_job::CronError;
use codex_scheduling::cron_job::CronJob;
use codex_scheduling::registry::CronRegistry;
use codex_scheduling::task::TaskStatus;
use codex_scheduling::timestamp::Timestamp;

fn at(secs: i64) -> Timestamp {
    Timestamp::from_unix(secs, 0).unwrap()
}

fn make_job(expr: &str, prompt: &str) -> CronJob {
    CronJob::new(expr.into(), prompt.into()).expect("valid cron")
}

#[test]
fn rejects_invalid_cron_expression() {
    let err = CronJob::new("not a cron expression".into(), "do the thing".into()).unwrap_err();
    assert!(matches!(err, CronError::InvalidExpression(_)));
    assert!(err.message().starts_with("invalid cron expression: "));
}

#[test]
fn accepts_standard_cron_expression() {
    let job = CronJob::new("0 0 9 * * *".into(), "check CI".into()).expect("valid cron");
    assert_eq!(job.status, TaskStatus::Pending);
    assert_eq!(job.fire_count, 0);
    assert!(job.last_fired_at.is_none());
    assert!(job.background);
}

#[test]
fn each_job_gets_unique_id() {
    let a = CronJob::new("0 0 * * * *".into(), "a".into()).unwrap();
    let b = CronJob::new("0 0 * * * *".into(), "b".into()).unwrap();
    assert_ne!(a.id, b.id);
}

#[test]
fn insert_then_list_returns_the_job() {
    let mut reg = CronRegistry::new();
    let job = make_job("0 0 0 * * *", "daily");
    let id = reg.insert(job, at(0));
    let listed = reg.list();
    assert_eq!(listed.len(), 1);
    assert_eq!(listed[0].id, id);
}

#[test]
fn insert_computes_next_fire_at() {
    let mut reg = CronRegistry::new();
    let job = make_job("0 0 0 * * *", "daily");
    let id = reg.insert(job, at(0));
    let job = reg.list().into_iter().find(|j| j.id == id).unwrap();
    assert!(job.next_fire_at.is_some());
    // Daily at midnight: the first firing after the epoch is a day later.
    assert_eq!(job.next_fire_at.unwrap().secs(), 86_400);
}

#[test]
fn remove_drops_the_job() {
    let mut reg = CronRegistry::new();
    let id = reg.insert(make_job("0 0 0 * * *", "x"), at(0));
    assert_eq!(reg.len(), 1);
    let removed = reg.remove(&id);
    assert!(removed.is_some());
    assert_eq!(reg.len(), 0);
    assert!(reg.is_empty());
    assert!(reg.remove(&id).is_none());
}

#[test]
fn take_due_returns_nothing_when_not_yet_due() {
    let mut reg = CronRegistry::new();
    reg.insert(make_job("30 * * * * *", "tick"), at(0));
    let due = reg.take_due(at(1));
    assert!(due.is_empty());
}

#[test]
fn take_due_fires_and_advances_next() {
    let mut reg = CronRegistry::new();
    let id = reg.insert(make_job("0 * * * * *", "tick"), at(0));
    let due = reg.take_due(at(3_600 * 24 * 365 * 10));
    assert_eq!(due.len(), 1);
    assert_eq!(due[0].0, id);
    assert_eq!(due[0].1, "tick");
    assert!(due[0].2);
    let job = reg.list().into_iter().find(|j| j.id == id).unwrap();
    assert_eq!(job.fire_count, 1);
    assert!(job.last_fired_at.is_some());
    assert_eq!(job.status, TaskStatus::Pending);
}

#[test]
fn take_due_skips_already_completed_jobs() {
    let mut reg = CronRegistry::new();
    let id = reg.insert(make_job("0 * * * * *", "tick"), at(0));
    let mut job = reg.remove(&id).unwrap();
    job.status = TaskStatus::Completed;
    reg.insert(job, at(0));
    let due = reg.take_due(at(3_600 * 24 * 365 * 10));
    assert!(due.is_empty());
}

#[test]
fn take_due_twice_at_the_same_instant_fires_once() {
    let mut reg = CronRegistry::new();
    reg.insert(make_job("0 * * * * *", "tick"), at(0));
    let now = at(3_600);
    assert_eq!(reg.take_due(now).len(), 1);
    assert!(reg.take_due(now).is_empty());
}

#[test]
fn take_due_advances_to_the_next_minute() {
    let mut reg = CronRegistry::new();
    let id = reg.insert(make_job("0 * * * * *", "tick"), at(0));
    reg.take_due(at(90));
    let job = reg.list().into_iter().find(|j| j.id == id).unwrap();
    assert_eq!(job.last_fired_at.unwrap().secs(), 90);
    assert_eq!(job.next_fire_at.unwrap().secs(), 120);
}

#[test]
fn insert_with_same_id_replaces() {
    let mut reg = CronRegistry::new();
    let job = make_job("0 * * * * *", "first");
    let mut again = job.clone();
    again.prompt = "second".into();
    reg.insert(job, at(0));
    reg.insert(again, at(0));
    assert_eq!(reg.len(), 1);
    assert_eq!(reg.list()[0].prompt, "second");
}

#[test]
fn next_fire_after_is_strictly_later() {
    let mut registry = CronRegistry::new();
    let job = make_job("0 * * * * *", "tick");
    let id = registry.insert(job, at(60));
    let stored = registry.list().into_iter().find(|j| j.id == id).unwrap();
    let t = stored.next_fire_at.unwrap();
    assert_eq!(t.secs(), 120);
    assert_eq!(t.nanos(), 0);
}
