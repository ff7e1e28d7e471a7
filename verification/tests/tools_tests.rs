use codex_scheduling::cron_tools::normalize_cron_expr;
use codex_scheduling::cron_tools::CronCreateArgs;
use codex_scheduling::cron_tools::CronCreateHandler;
use codex_scheduling::cron_tools::CronDeleteArgs;
use codex_scheduling::cron_tools::CronDeleteHandler;
use codex_scheduling::cron_tools::CronSessionCreateHandler;
use codex_scheduling::cron_tools::CronSessionDeleteHandler;
use codex_scheduling::cron_tools::CronSessionListHandler;
use codex_scheduling::loop_registry::LoopRegistry;
use codex_scheduling::loop_task::LoopTask;
use codex_scheduling::loop_tools::dynamic_loop_step;
use codex_scheduling::loop_tools::fixed_loop_tick;
use codex_scheduling::loop_tools::loop_prompt_text;
use codex_scheduling::loop_tools::loop_submission_id;
use codex_scheduling::loop_tools::DynamicStep;
use codex_scheduling::loop_tools::LoopListHandler;
use codex_scheduling::loop_tools::LoopMode;
use codex_scheduling::loop_tools::LoopStartArgs;
use codex_scheduling::loop_tools::LoopStartHandler;
use codex_scheduling::loop_tools::LoopStopArgs;
use codex_scheduling::loop_tools::LoopStopHandler;
use codex_scheduling::loop_tools::LoopWakeupArgs;
use codex_scheduling::loop_tools::LoopWakeupHandler;
use codex_scheduling::monitor::MonitorTask;
use codex_scheduling::monitor_registry::MonitorRegistry;
use codex_scheduling::monitor_tools::build_response;
use codex_scheduling::monitor_tools::exit_status;
use codex_scheduling::monitor_tools::observe_line;
use codex_scheduling::monitor_tools::strip_stream_prefix;
use codex_scheduling::monitor_tools::tail_entry;
use codex_scheduling::monitor_tools::terminate_summary_text;
use codex_scheduling::monitor_tools::MonitorListHandler;
use codex_scheduling::monitor_tools::MonitorStartArgs;
use codex_scheduling::monitor_tools::MonitorStartHandler;
use codex_scheduling::monitor_tools::MonitorStopArgs;
use codex_scheduling::monitor_tools::MonitorStopHandler;
use codex_scheduling::monitor_tools::MonitorWaitArgs;
use codex_scheduling::monitor_tools::MonitorWaitHandler;
use codex_scheduling::monitor_tools::MonitorWatchForArgs;
use codex_scheduling::monitor_tools::MonitorWatchForHandler;
use codex_scheduling::monitor_tools::MonitorWatchForMatch;
use codex_scheduling::registry::CronRegistry;
use codex_scheduling::task::TaskId;
use codex_scheduling::task::TaskStatus;
use codex_scheduling::timestamp::Timestamp;
use codex_scheduling::tools::not_enabled_message;

fn at(secs: i64) -> Timestamp {
    Timestamp::from_unix(secs, 0).unwrap()
}

fn cron_args(expr: &str, prompt: &str) -> CronCreateArgs {
    CronCreateArgs {
        cron_expr: expr.to_string(),
        prompt: prompt.to_string(),
        background: true,
        max_firings: None,
        until: None,
        timezone: None,
    }
}

#[test]
fn tool_names() {
    assert_eq!(CronCreateHandler.tool_name(), "cron_create");
    assert_eq!(CronDeleteHandler.tool_name(), "cron_delete");
    assert_eq!(CronSessionCreateHandler.tool_name(), "cron_create_session");
    assert_eq!(CronSessionListHandler.tool_name(), "cron_list_session");
    assert_eq!(CronSessionDeleteHandler.tool_name(), "cron_delete_session");
    assert_eq!(LoopStartHandler.tool_name(), "loop_start");
    assert_eq!(LoopListHandler.tool_name(), "loop_list");
    assert_eq!(LoopStopHandler.tool_name(), "loop_stop");
    assert_eq!(LoopWakeupHandler.tool_name(), "loop_wakeup");
    assert_eq!(MonitorStartHandler.tool_name(), "monitor_start");
    assert_eq!(MonitorListHandler.tool_name(), "monitor_list");
    assert_eq!(MonitorStopHandler.tool_name(), "monitor_stop");
    assert_eq!(MonitorWaitHandler.tool_name(), "monitor_wait");
    assert_eq!(MonitorWatchForHandler.tool_name(), "monitor_watch_for");
}

#[test]
fn five_field_expressions_get_a_seconds_field() {
    assert_eq!(normalize_cron_expr("*/2 * * * *"), "0 */2 * * * *");
    assert_eq!(normalize_cron_expr("0 */2 * * * *"), "0 */2 * * * *");
}

#[test]
fn cron_create_prepares_an_os_cron_job() {
    let err = CronCreateHandler.prepare(false, cron_args("*/2 * * * *", "p")).unwrap_err();
    assert_eq!(err, not_enabled_message());
    let job = CronCreateHandler.prepare(true, cron_args("*/2 * * * *", "touch")).unwrap();
    assert_eq!(job.cron_expr, "0 */2 * * * *");
    assert_eq!(job.prompt, "touch");
    assert_eq!(job.status, TaskStatus::Pending);
    let err = CronCreateHandler.prepare(true, cron_args("*/30 * * * * *", "p")).unwrap_err();
    assert!(err.starts_with("cron_create rejected: "), "{err}");
    let err = CronCreateHandler.prepare(true, cron_args("nonsense", "p")).unwrap_err();
    assert!(err.starts_with("cron_create rejected: "), "{err}");
    let resp = CronCreateHandler.respond(&job, Some(at(60)), "/tmp/x.log".to_string());
    assert_eq!(resp.task_id, job.id.as_str());
    assert_eq!(resp.next_fire_at.as_deref(), Some("1970-01-01T00:01:00+00:00"));
    assert_eq!(resp.log_path, "/tmp/x.log");
    let id = CronDeleteHandler.target(true, CronDeleteArgs { task_id: "abc".to_string() }).unwrap();
    assert_eq!(id.as_str(), "abc");
    assert!(CronDeleteHandler.target(false, CronDeleteArgs { task_id: "abc".to_string() }).is_err());
}

#[test]
fn cron_session_create_list_delete() {
    let mut registry = CronRegistry::new();
    let now = at(1_000);
    let err = CronSessionCreateHandler.handle(false, &mut registry, cron_args("0 * * * * *", "p"), now);
    assert_eq!(err.unwrap_err(), "scheduling feature is not enabled in this session");
    let mut bad_until = cron_args("0 * * * * *", "p");
    bad_until.until = Some("tomorrow".to_string());
    let err = CronSessionCreateHandler.handle(true, &mut registry, bad_until, now).unwrap_err();
    assert!(err.starts_with("cron_create_session: `until` must be RFC3339"), "{err}");
    let err = CronSessionCreateHandler.handle(true, &mut registry, cron_args("bogus", "p"), now).unwrap_err();
    assert!(err.starts_with("cron_create_session rejected: invalid cron expression: "), "{err}");
    assert_eq!(registry.len(), 0);

    let resp = CronSessionCreateHandler.handle(true, &mut registry, cron_args("0 * * * * *", "tick"), now).unwrap();
    assert_eq!(resp.next_fire_at.as_deref(), Some("1970-01-01T00:17:00+00:00"));
    assert_eq!(registry.len(), 1);

    let list = CronSessionListHandler.handle(true, &registry).unwrap();
    assert_eq!(list.jobs.len(), 1);
    assert_eq!(list.jobs[0].task_id, resp.task_id);
    assert_eq!(list.jobs[0].prompt, "tick");
    assert_eq!(list.jobs[0].status, "Pending");
    assert_eq!(list.jobs[0].fire_count, 0);
    assert!(CronSessionListHandler.handle(false, &registry).is_err());

    let gone = CronSessionDeleteHandler
        .handle(true, &mut registry, CronDeleteArgs { task_id: "missing".to_string() })
        .unwrap();
    assert!(!gone.deleted);
    let gone = CronSessionDeleteHandler
        .handle(true, &mut registry, CronDeleteArgs { task_id: resp.task_id.clone() })
        .unwrap();
    assert!(gone.deleted);
    assert!(registry.is_empty());
}

fn loop_args(prompt: &str, interval: Option<u64>, delay: Option<u64>) -> LoopStartArgs {
    LoopStartArgs {
        prompt: prompt.to_string(),
        interval_seconds: interval,
        initial_delay_seconds: delay,
        background: true,
    }
}

#[test]
fn loop_start_picks_the_pacing_or_refuses() {
    let h = LoopStartHandler;
    assert_eq!(h.select_mode(&loop_args("  ", Some(10), None)).unwrap_err(), "loop_start requires a non-empty prompt");
    assert!(h.select_mode(&loop_args("p", Some(10), Some(10))).unwrap_err().contains("not both"));
    assert!(h.select_mode(&loop_args("p", None, None)).unwrap_err().starts_with("loop_start: must pass either"));
    assert_eq!(h.select_mode(&loop_args("p", Some(4), None)).unwrap_err(), "loop_start requires interval_seconds >= 5");
    assert_eq!(h.select_mode(&loop_args("p", None, Some(1))).unwrap_err(), "loop_start requires initial_delay_seconds >= 5");
    assert_eq!(h.select_mode(&loop_args("p", Some(5), None)).unwrap(), LoopMode::Fixed(5));
    assert_eq!(h.select_mode(&loop_args("p", None, Some(30))).unwrap(), LoopMode::Dynamic(30));

    let mut registry = LoopRegistry::new();
    let now = at(1_000);
    assert!(h.handle(false, &mut registry, loop_args("p", Some(10), None), now).is_err());
    assert_eq!(registry.len(), 0);
    let (resp, mode) = h.handle(true, &mut registry, loop_args("watch", None, Some(30)), now).unwrap();
    assert_eq!(mode, LoopMode::Dynamic(30));
    let listed = registry.list();
    assert_eq!(listed[0].id.as_str(), resp.task_id);
    assert_eq!(listed[0].next_wakeup_at, Some(at(1_030)));
    assert_eq!(listed[0].interval_secs, None);
}

fn args(id: &str, delay: u64, prompt: Option<&str>) -> LoopWakeupArgs {
    LoopWakeupArgs { task_id: id.to_string(), delay_seconds: delay, prompt: prompt.map(String::from) }
}

#[test]
fn loop_wakeup_reschedules_dynamic_loops_only() {
    let mut registry = LoopRegistry::new();
    let fixed = LoopTask::new_fixed("poll".to_string(), 60);
    let fixed_id = fixed.id.as_str().to_string();
    registry.insert(fixed);
    let dynamic = LoopTask::new_dynamic("watch".to_string());
    let dyn_id = dynamic.id.as_str().to_string();
    registry.insert(dynamic);
    let h = LoopWakeupHandler;
    let now = at(1_000);
    assert_eq!(h.handle(true, &mut registry, args(&dyn_id, 2, None), now).unwrap_err(), "loop_wakeup requires delay_seconds >= 5");
    assert_eq!(h.handle(true, &mut registry, args("nope", 10, None), now).unwrap_err(), "loop_wakeup: task_id `nope` not found");
    let err = h.handle(true, &mut registry, args(&fixed_id, 10, None), now).unwrap_err();
    assert!(err.ends_with("is fixed-interval, not dynamic — cannot reschedule"), "{err}");
    let resp = h.handle(true, &mut registry, args(&dyn_id, 90, Some("new prompt")), now).unwrap();
    assert_eq!(resp.next_fire_at, "1970-01-01T00:18:10+00:00");
    let task = registry.list().into_iter().find(|t| t.id.as_str() == dyn_id).unwrap();
    assert_eq!(task.next_wakeup_at, Some(at(1_090)));
    assert_eq!(task.prompt, "new prompt");
    let huge = 9_223_372_036_854_776;
    let err = h.handle(true, &mut registry, args(&dyn_id, huge, None), now).unwrap_err();
    assert_eq!(err, "loop_wakeup: invalid delay: Source duration value is out of range for the target type");
    assert_eq!(h.refusal(true, &registry, &args(&dyn_id, huge, None)), Some(err));
    assert_eq!(h.refusal(true, &registry, &args(&dyn_id, 90, None)), None);
}

#[test]
fn loop_ticks_and_steps() {
    let mut registry = LoopRegistry::new();
    let fixed = LoopTask::new_fixed("poll".to_string(), 60);
    let fixed_id = fixed.id.duplicate();
    registry.insert(fixed);
    assert!(fixed_loop_tick(&mut registry, &fixed_id, at(100)));
    let t = registry.list().into_iter().next().unwrap();
    assert_eq!(t.iteration_count, 1);
    assert_eq!(t.next_wakeup_at, Some(at(160)));
    assert!(!fixed_loop_tick(&mut registry, &TaskId::from_string("gone".to_string()), at(100)));

    let dynamic = LoopTask::new_dynamic("watch".to_string());
    let dyn_id = dynamic.id.duplicate();
    registry.insert(dynamic);
    assert!(matches!(dynamic_loop_step(&mut registry, &dyn_id, at(100)), DynamicStep::Idle));
    registry.set_next_wakeup(&dyn_id, at(200));
    assert!(matches!(dynamic_loop_step(&mut registry, &dyn_id, at(100)), DynamicStep::SleepUntil(t) if t == at(200)));
    match dynamic_loop_step(&mut registry, &dyn_id, at(200)) {
        DynamicStep::Fire(p) => assert_eq!(p, "watch"),
        other => panic!("expected a firing, got {other:?}"),
    }
    let t = registry.list().into_iter().find(|t| t.id == dyn_id).unwrap();
    assert_eq!(t.next_wakeup_at, None);
    assert_eq!(t.iteration_count, 1);
    registry.mark_terminal(&dyn_id, TaskStatus::Killed, at(300));
    assert!(matches!(dynamic_loop_step(&mut registry, &dyn_id, at(400)), DynamicStep::Stop));

    let stop = LoopStopHandler;
    let id = stop.target(true, LoopStopArgs { task_id: fixed_id.as_str().to_string() }).unwrap();
    let resp = stop.finish(&mut registry, &id, true, at(500));
    assert!(resp.stopped);
    assert_eq!(registry.status(&fixed_id), Some(TaskStatus::Completed));
    let list = LoopListHandler.handle(true, &registry).unwrap();
    assert_eq!(list.loops.len(), 2);
    assert_eq!(list.loops[0].status, "Completed");
}

#[test]
fn loop_firing_texts() {
    let id = TaskId::from_string("abc".to_string());
    assert_eq!(loop_prompt_text(&id, "check CI"), "[loop abc] check CI");
    assert_eq!(loop_submission_id(true, &id, "u1"), "loopbg__abc__u1");
    assert_eq!(loop_submission_id(false, &id, "u1"), "loop__abc__u1");
}

fn start_args(command: &str) -> MonitorStartArgs {
    MonitorStartArgs { command: command.to_string(), background: true, restart_on_resume: false }
}

#[test]
fn monitor_start_list_stop() {
    let mut registry = MonitorRegistry::new();
    let start = MonitorStartHandler;
    assert!(start.handle(true, &mut registry, start_args("   ")).is_err());
    assert_eq!(start.handle(false, &mut registry, start_args("ls")).unwrap_err(), not_enabled_message());
    let resp = start.handle(true, &mut registry, start_args("tail -f log")).unwrap();
    let list = MonitorListHandler.handle(true, &registry).unwrap();
    assert_eq!(list.monitors.len(), 1);
    assert_eq!(list.monitors[0].task_id, resp.task_id);
    assert_eq!(list.monitors[0].command, "tail -f log");
    assert_eq!(list.monitors[0].status, "Pending");

    let stop = MonitorStopHandler;
    let id = stop.target(true, MonitorStopArgs { task_id: resp.task_id.clone() }).unwrap();
    assert!(stop.finish(&mut registry, &id, true, at(10)).stopped);
    let m = registry.list().into_iter().next().unwrap();
    assert_eq!(m.status, TaskStatus::Killed);
    assert_eq!(m.stopped_at, Some(at(10)));
    assert!(!stop.finish(&mut registry, &id, false, at(20)).stopped);
}

#[test]
fn monitor_wait_and_watch_for() {
    let mut registry = MonitorRegistry::new();
    let task = MonitorTask::new("make".to_string());
    let id = task.id.as_str().to_string();
    registry.insert(task);
    let wait = MonitorWaitHandler;
    let args = MonitorWaitArgs { task_id: "nope".to_string(), timeout_seconds: None };
    assert_eq!(wait.target(true, &registry, &args).unwrap_err(), "monitor_wait: task_id `nope` not found");
    let args = MonitorWaitArgs { task_id: id.clone(), timeout_seconds: Some(5) };
    assert!(wait.target(true, &registry, &args).is_ok());
    let m = registry.list().into_iter().next().unwrap();
    assert_eq!(wait.poll(Some(&m), false), None);
    assert_eq!(wait.poll(Some(&m), true), Some((TaskStatus::Pending, true)));
    assert_eq!(wait.poll(None, false), Some((TaskStatus::Killed, false)));
    let resp = wait.respond(TaskStatus::Completed, false, vec!["[stdout] ok".to_string()]);
    assert_eq!(resp.status, "Completed");
    let resp = wait.respond(TaskStatus::Pending, true, vec![]);
    assert_eq!(resp.status, "Running");
    assert!(resp.timed_out);

    let watch = MonitorWatchForHandler;
    let wargs = MonitorWatchForArgs {
        task_id: id.clone(),
        pattern: String::new(),
        timeout_seconds: None,
        all_matches: false,
        max_matches: None,
    };
    assert!(watch.target(true, &registry, &wargs).is_err());
    let tail = vec!["[stdout] starting".to_string(), "[stderr] warning: x".to_string(), "plain warning: y".to_string()];
    let mut collected: Vec<MonitorWatchForMatch> = Vec::new();
    assert!(watch.scan_tail(&tail, "warning", false, None, &mut collected));
    assert_eq!(collected.len(), 1);
    assert_eq!(collected[0].stream, "stderr");
    assert_eq!(collected[0].matching_line, "warning: x");
    let mut all: Vec<MonitorWatchForMatch> = Vec::new();
    assert!(!watch.scan_tail(&tail, "warning", true, None, &mut all));
    assert_eq!(all.len(), 2);
    assert!(observe_line(&mut all, "stdout", "warning: z", "warning", true, Some(3)));
    let resp = build_response(all, true, false, false);
    assert!(resp.matched);
    assert_eq!(resp.matching_line.as_deref(), Some("warning: x"));
    assert_eq!(resp.matches.len(), 3);
    let resp = build_response(Vec::new(), false, true, false);
    assert!(!resp.matched);
    assert!(resp.terminated_without_match);
    assert!(resp.matches.is_empty());
}

#[test]
fn monitor_lines_and_endings() {
    assert_eq!(strip_stream_prefix("[stdout] hi"), ("stdout", "hi"));
    assert_eq!(strip_stream_prefix("[stderr] oops"), ("stderr", "oops"));
    assert_eq!(strip_stream_prefix("bare"), ("stdout", "bare"));
    assert_eq!(tail_entry("stderr", "oops"), "[stderr] oops");
    assert_eq!(exit_status(true, true), TaskStatus::Completed);
    assert_eq!(exit_status(true, false), TaskStatus::Failed);
    assert_eq!(exit_status(false, true), TaskStatus::Failed);
    let id = TaskId::from_string("m1".to_string());
    let text = terminate_summary_text(&id, "make", TaskStatus::Completed, &vec![], None);
    assert_eq!(text, "[monitor m1] `make` completed.");
    let text = terminate_summary_text(
        &id,
        "make",
        TaskStatus::Failed,
        &vec!["[stderr] boom".to_string()],
        Some("exit 2".to_string()),
    );
    assert_eq!(text, "[monitor m1] `make` failed.\nError: exit 2\nLast output:\n[stderr] boom\n");
    let text = terminate_summary_text(&id, "make", TaskStatus::Killed, &vec![], None);
    assert_eq!(text, "[monitor m1] `make` ended.");
}
