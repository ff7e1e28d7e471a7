use codex_scheduling::cron_job::CronError;
use codex_scheduling::cron_job::CronJob;
use codex_scheduling::cron_tools::CronCreateArgs;
use codex_scheduling::cron_tools::CronSessionCreateHandler;
use codex_scheduling::registry::CronRegistry;
use codex_scheduling::task::TaskId;
use codex_scheduling::task::TaskStatus;
use codex_scheduling::timestamp::Timestamp;

fn at(secs: i64) -> Timestamp {
    Timestamp::from_unix(secs, 0).unwrap()
}

fn args(expr: &str) -> CronCreateArgs {
    CronCreateArgs {
        cron_expr: expr.to_string(),
        prompt: "ping".to_string(),
        background: true,
        max_firings: None,
        until: None,
        timezone: None,
    }
}

fn job_of(registry: &CronRegistry, id: &str) -> CronJob {
    registry.get(&TaskId::from_string(id.to_string())).unwrap()
}

#[test]
fn a_capped_job_completes_after_its_last_firing() {
    let mut registry = CronRegistry::new();
    let mut a = args("0 * * * * *");
    a.max_firings = Some(2);
    let resp = CronSessionCreateHandler.handle(true, &mut registry, a, at(0)).unwrap();
    assert_eq!(resp.next_fire_at.as_deref(), Some("1970-01-01T00:01:00+00:00"));
    assert_eq!(registry.take_due(at(60)).len(), 1);
    let job = job_of(&registry, &resp.task_id);
    assert_eq!(job.status, TaskStatus::Pending);
    assert_eq!(job.next_fire_at.map(|t| t.secs()), Some(120));
    assert_eq!(registry.take_due(at(120)).len(), 1);
    let job = job_of(&registry, &resp.task_id);
    assert_eq!(job.fire_count, 2);
    assert_eq!(job.status, TaskStatus::Completed);
    assert!(job.next_fire_at.is_none());
    assert!(registry.take_due(at(180)).is_empty());
}

#[test]
fn a_one_shot_job_fires_once_and_a_zero_cap_never() {
    let mut registry = CronRegistry::new();
    let mut a = args("0 * * * * *");
    a.max_firings = Some(1);
    let resp = CronSessionCreateHandler.handle(true, &mut registry, a, at(0)).unwrap();
    assert_eq!(registry.take_due(at(60)).len(), 1);
    assert_eq!(job_of(&registry, &resp.task_id).status, TaskStatus::Completed);
    let mut z = args("0 * * * * *");
    z.max_firings = Some(0);
    let resp = CronSessionCreateHandler.handle(true, &mut registry, z, at(0)).unwrap();
    assert_eq!(resp.next_fire_at, None);
    assert!(registry.take_due(at(10_000)).is_empty());
}

#[test]
fn a_job_stops_after_its_end() {
    let mut registry = CronRegistry::new();
    let mut a = args("0 * * * * *");
    a.until = Some("1970-01-01T00:02:30Z".to_string());
    let resp = CronSessionCreateHandler.handle(true, &mut registry, a, at(0)).unwrap();
    let job = job_of(&registry, &resp.task_id);
    assert_eq!(job.until.map(|t| t.secs()), Some(150));
    assert_eq!(registry.take_due(at(60)).len(), 1);
    assert_eq!(registry.take_due(at(120)).len(), 1);
    let job = job_of(&registry, &resp.task_id);
    assert_eq!(job.status, TaskStatus::Completed);
    assert!(job.next_fire_at.is_none());
    let mut late = args("0 * * * * *");
    late.until = Some("1970-01-01T00:00:30Z".to_string());
    let resp = CronSessionCreateHandler.handle(true, &mut registry, late, at(0)).unwrap();
    assert_eq!(resp.next_fire_at, None);
}

#[test]
fn a_timezone_offset_moves_the_wall_clock_schedule() {
    let mut registry = CronRegistry::new();
    let mut a = args("0 0 9 * * *");
    a.timezone = Some("+07:00".to_string());
    let resp = CronSessionCreateHandler.handle(true, &mut registry, a, at(0)).unwrap();
    // 09:00 at +07:00 is 02:00 UTC.
    assert_eq!(resp.next_fire_at.as_deref(), Some("1970-01-01T02:00:00+00:00"));
    assert_eq!(job_of(&registry, &resp.task_id).utc_offset, Some(25_200));
    assert_eq!(registry.take_due(at(7_200)).len(), 1);
    assert_eq!(job_of(&registry, &resp.task_id).next_fire_at.map(|t| t.secs()), Some(7_200 + 86_400));

    let mut w = args("0 0 9 * * *");
    w.timezone = Some("-05:00".to_string());
    let resp = CronSessionCreateHandler.handle(true, &mut registry, w, at(0)).unwrap();
    assert_eq!(resp.next_fire_at.as_deref(), Some("1970-01-01T14:00:00+00:00"));

    let mut z = args("0 0 9 * * *");
    z.timezone = Some("Z".to_string());
    let resp = CronSessionCreateHandler.handle(true, &mut registry, z, at(0)).unwrap();
    assert_eq!(resp.next_fire_at.as_deref(), Some("1970-01-01T09:00:00+00:00"));
}

#[test]
fn a_bad_timezone_is_refused() {
    let mut registry = CronRegistry::new();
    let mut a = args("0 0 9 * * *");
    a.timezone = Some("Mars/Olympus".to_string());
    let err = CronSessionCreateHandler.handle(true, &mut registry, a, at(0)).unwrap_err();
    assert!(err.starts_with("cron_create_session rejected: invalid timezone offset: "), "{err}");
    assert_eq!(registry.len(), 0);
    let err = CronJob::new_with_full_options(
        "0 0 9 * * *".to_string(),
        "p".to_string(),
        true,
        None,
        None,
        Some("nowhere".to_string()),
    )
    .unwrap_err();
    assert!(matches!(err, CronError::InvalidTimezone(_)));
    let err = CronJob::new_with_full_options("bogus".to_string(), "p".to_string(), true, None, None, Some("nowhere".to_string()))
        .unwrap_err();
    assert!(matches!(err, CronError::InvalidExpression(_)));
}

#[test]
fn a_tick_with_nothing_due_changes_nothing() {
    let mut registry = CronRegistry::new();
    let resp = CronSessionCreateHandler.handle(true, &mut registry, args("0 * * * * *"), at(0)).unwrap();
    assert_eq!(registry.take_due(at(60)).len(), 1);
    assert!(registry.take_due(at(60)).is_empty());
    let job = job_of(&registry, &resp.task_id);
    assert_eq!(job.fire_count, 1);
    assert!(registry.due_have_room(at(60)));
}

#[test]
fn handle_checked_declines_only_where_no_firing_can_be_looked_up() {
    let mut registry = CronRegistry::new();
    let last = at(8_210_266_876_799);
    assert!(CronSessionCreateHandler.handle_checked(true, &mut registry, args("0 * * * * *"), last).is_none());
    let mut east = args("0 0 9 * * *");
    east.timezone = Some("+07:00".to_string());
    assert!(CronSessionCreateHandler.handle_checked(true, &mut registry, east, at(8_210_266_876_000)).is_none());
    assert_eq!(registry.len(), 0);
    let refused = CronSessionCreateHandler.handle_checked(true, &mut registry, args("bogus"), last).unwrap();
    assert!(refused.is_err());
    let mut none = args("0 * * * * *");
    none.max_firings = Some(0);
    let made = CronSessionCreateHandler.handle_checked(true, &mut registry, none, last).unwrap().unwrap();
    assert_eq!(made.next_fire_at, None);
    let made = CronSessionCreateHandler.handle_checked(true, &mut registry, args("0 * * * * *"), at(0)).unwrap().unwrap();
    assert_eq!(made.next_fire_at.as_deref(), Some("1970-01-01T00:01:00+00:00"));
    assert_eq!(registry.len(), 2);
}
