use codex_scheduling::protocol::SchedulingCronRow;
use codex_scheduling::protocol::SchedulingLoopRow;
use codex_scheduling::protocol::SchedulingMonitorRow;
use codex_scheduling::protocol::SchedulingTaskKind;
use codex_scheduling::protocol::SchedulingTasksSnapshotEvent;
use codex_scheduling::timestamp::Timestamp;
use codex_scheduling::view::pad_status;
use codex_scheduling::view::relative_label_text;
use codex_scheduling::view::relative_time;
use codex_scheduling::view::short_task_id;
use codex_scheduling::view::status_span;
use codex_scheduling::view::truncate;
use codex_scheduling::view::SchedulingView;
use codex_scheduling::view::Span;
use codex_scheduling::view::SpanStyle;
use codex_scheduling::view::ViewKey;

fn at(secs: i64) -> Timestamp {
    Timestamp::from_unix(secs, 0).unwrap()
}

fn text_of(lines: &[Vec<Span>]) -> String {
    let mut out = String::new();
    for line in lines {
        for span in line {
            out.push_str(&span.text);
        }
        out.push('\n');
    }
    out
}

fn render(view: &SchedulingView, now: Timestamp) -> String {
    let mut all = view.header_lines();
    all.extend(view.body_lines(now));
    text_of(&all)
}

fn sample_snapshot() -> SchedulingTasksSnapshotEvent {
    SchedulingTasksSnapshotEvent {
        cron_jobs: vec![SchedulingCronRow {
            task_id: "c1".into(),
            cron_expr: "* * * * *".into(),
            prompt: "say hi".into(),
            status: "Scheduled".into(),
            fire_count: 3,
            last_fired_at: None,
            next_fire_at: Some("2026-05-12T12:00:00Z".into()),
        }],
        monitors: vec![SchedulingMonitorRow {
            task_id: "m1".into(),
            command: "tail -f log".into(),
            status: "Running".into(),
            lines_emitted: 42,
            started_at: None,
            stopped_at: None,
        }],
        loops: vec![SchedulingLoopRow {
            task_id: "l1".into(),
            prompt: "poll status".into(),
            interval_seconds: Some(5),
            status: "Running".into(),
            iteration_count: 7,
            last_iter_at: None,
            next_wakeup_at: None,
        }],
        scheduling_enabled: true,
    }
}

#[test]
fn loading_state_renders_placeholder() {
    let view = SchedulingView::new();
    let out = render(&view, at(0));
    assert!(out.contains("Scheduling tasks"), "header missing: {out}");
    assert!(out.contains("Loading"), "loading placeholder missing: {out}");
    assert!(out.contains("Active cron jobs and monitors for this thread.\n"), "{out}");
}

#[test]
fn snapshot_renders_cron_monitor_and_loop_rows() {
    let mut view = SchedulingView::new();
    view.set_snapshot(sample_snapshot());
    let out = render(&view, at(1_778_587_200));
    assert!(out.contains("Cron (1)"), "cron header missing: {out}");
    assert!(out.contains("c1"), "cron row missing: {out}");
    assert!(out.contains("Monitors (1)"), "monitors header missing: {out}");
    assert!(out.contains("m1"), "monitor row missing: {out}");
    assert!(out.contains("Loops (1)"), "loops header missing: {out}");
    assert!(out.contains("l1"), "loop row missing: {out}");
    assert!(out.contains("every 5s"), "interval missing: {out}");
}

#[test]
fn snapshot_disabled_shows_off_message() {
    let mut view = SchedulingView::new();
    view.set_snapshot(SchedulingTasksSnapshotEvent {
        cron_jobs: vec![],
        monitors: vec![],
        loops: vec![],
        scheduling_enabled: false,
    });
    let out = render(&view, at(0));
    assert!(out.contains("Scheduling is not enabled"), "{out}");
}

#[test]
fn empty_sections_say_none() {
    let mut view = SchedulingView::new();
    view.set_snapshot(SchedulingTasksSnapshotEvent {
        cron_jobs: vec![],
        monitors: vec![],
        loops: vec![],
        scheduling_enabled: true,
    });
    let out = render(&view, at(0));
    assert!(out.contains("Cron (0)\n  (none)\n"), "{out}");
    assert!(out.contains("Loops (0)\n  (none)\n"), "{out}");
}

#[test]
fn selection_moves_within_the_rows_and_marks_the_row() {
    let mut view = SchedulingView::new();
    view.set_snapshot(sample_snapshot());
    assert_eq!(view.flat_rows().len(), 3);
    assert_eq!(view.clamped_selected_index(), 0);
    view.handle_key_event(ViewKey::Up, true);
    assert_eq!(view.selected_index, 0);
    view.handle_key_event(ViewKey::Down, true);
    view.handle_key_event(ViewKey::Char('j'), true);
    view.handle_key_event(ViewKey::Down, true);
    assert_eq!(view.selected_index, 2);
    let out = render(&view, at(0));
    assert!(out.contains("▸ l1"), "{out}");
    assert!(out.contains("  c1"), "{out}");
    view.handle_key_event(ViewKey::Char('k'), true);
    assert_eq!(view.selected_index, 1);
    let deleted = view.handle_key_event(ViewKey::Char('d'), true);
    assert_eq!(deleted, Some((SchedulingTaskKind::Monitor, "m1".to_string())));
    assert!(!view.is_complete());
    assert_eq!(view.handle_key_event(ViewKey::Char('d'), false), None);
    view.handle_key_event(ViewKey::Enter, false);
    assert!(!view.is_complete());
    view.handle_key_event(ViewKey::Esc, true);
    assert!(view.is_complete());
}

#[test]
fn delete_on_an_empty_panel_asks_nothing() {
    let mut view = SchedulingView::new();
    assert_eq!(view.delete_selected(), None);
    view.on_ctrl_c();
    assert!(view.is_complete());
}

#[test]
fn row_pieces() {
    assert_eq!(short_task_id("0123456789abcdef"), "01234567");
    assert_eq!(short_task_id("c1"), "c1");
    assert_eq!(pad_status("Running"), "Running  ");
    assert_eq!(pad_status("Interrupted"), "Interrupt");
    assert_eq!(truncate("hello world", 5), "hell…");
    assert_eq!(truncate("hi", 5), "hi");
    let span = status_span("Failed");
    assert_eq!(span.text, "Failed   ");
    assert_eq!(span.style, SpanStyle::Red);
    assert_eq!(status_span("Pending").style, SpanStyle::Cyan);
    assert_eq!(status_span("Whatever").style, SpanStyle::Plain);
}

#[test]
fn relative_times() {
    assert_eq!(relative_label_text(25), "in 25s");
    assert_eq!(relative_label_text(-150), "2m ago");
    assert_eq!(relative_label_text(7200), "in 2h");
    assert_eq!(relative_label_text(0), "in 0s");
    assert_eq!(relative_time("2026-05-12T12:00:30Z", at(1_778_587_200)), Some("in 30s".to_string()));
    assert_eq!(relative_time("2026-05-12T11:00:00Z", at(1_778_587_200)), Some("1h ago".to_string()));
    assert_eq!(relative_time("not a time", at(0)), None);
}

#[test]
fn enter_opens_the_detail_view_and_esc_closes_the_panel() {
    let id = "0c1d2e3f-4a5b-4c6d-8e7f-8091a2b3c4d5";
    let mut view = SchedulingView::new();
    view.set_snapshot(SchedulingTasksSnapshotEvent {
        cron_jobs: vec![],
        monitors: vec![SchedulingMonitorRow {
            task_id: id.into(),
            command: "for i in 1 2 3 4 5; do echo \"tick $i\"; sleep 2; done".into(),
            status: "Completed".into(),
            lines_emitted: 5,
            started_at: None,
            stopped_at: None,
        }],
        loops: vec![],
        scheduling_enabled: true,
    });
    assert_eq!(view.handle_key_event(ViewKey::Enter, true), None);
    assert!(!view.is_complete());
    assert_eq!(view.detail, Some((SchedulingTaskKind::Monitor, id.to_string())));
    view.set_detail_tail(
        (1..=5).map(|i| ("stdout".to_string(), format!("tick {i}"))).collect(),
    );
    let out = render(&view, at(0));
    assert!(out.contains("Monitor · 0c1d2e3f"), "{out}");
    assert!(out.contains(&format!("id {id}")), "{out}");
    assert!(out.contains("status Completed"), "{out}");
    assert!(out.contains("lines 5"), "{out}");
    assert!(out.contains("command: for i in 1 2 3 4 5;"), "{out}");
    assert!(out.contains("Recent output tail:\n[stdout] tick 1\n"), "{out}");
    assert!(out.contains("[stdout] tick 5"), "{out}");
    assert!(!out.contains("Monitors (1)"), "{out}");
    assert_eq!(view.handle_key_event(ViewKey::Char('d'), true), None);
    assert!(!view.is_complete());
    view.handle_key_event(ViewKey::Esc, true);
    assert!(view.is_complete());
}

#[test]
fn enter_on_an_empty_list_closes_and_a_vanished_task_is_reported() {
    let mut view = SchedulingView::new();
    view.handle_key_event(ViewKey::Enter, true);
    assert!(view.is_complete());
    let mut view = SchedulingView::new();
    view.set_snapshot(sample_snapshot());
    view.handle_key_event(ViewKey::Enter, true);
    assert_eq!(view.detail, Some((SchedulingTaskKind::Cron, "c1".to_string())));
    let out = render(&view, at(0));
    assert!(out.contains("Cron · c1\nid c1\nstatus Scheduled\nfired 3\nschedule: * * * * *\nprompt: say hi\n"), "{out}");
    view.set_snapshot(SchedulingTasksSnapshotEvent {
        cron_jobs: vec![],
        monitors: vec![],
        loops: vec![],
        scheduling_enabled: true,
    });
    let out = render(&view, at(0));
    assert!(out.contains("Task c1 is no longer listed."), "{out}");
}
