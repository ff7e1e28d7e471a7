use codex_scheduling::timestamp::Timestamp;
use codex_scheduling::task::TaskId;
use codex_scheduling::task::TaskKind;
use codex_scheduling::task::TaskStatus;

#[test]
fn task_id_is_unique_across_constructions() {
    let a = TaskId::new();
    let b = TaskId::new();
    assert_ne!(a, b);
}

#[test]
fn task_id_is_a_hyphenated_uuid() {
    let id = TaskId::new();
    assert_eq!(id.as_str().chars().count(), 36);
    assert_eq!(id.as_str().chars().filter(|c| *c == '-').count(), 4);
}

#[test]
fn task_id_from_string_keeps_the_text() {
    let id = TaskId::from(String::from("abc-123"));
    assert_eq!(id.as_str(), "abc-123");
    assert!(id.same_as(&TaskId::from_string("abc-123".to_string())));
    assert!(!id.same_as(&TaskId::from_string("abc-124".to_string())));
}

#[test]
fn terminal_statuses_are_exactly_the_finished_ones() {
    assert!(!TaskStatus::Pending.is_terminal());
    assert!(!TaskStatus::Running.is_terminal());
    assert!(TaskStatus::Completed.is_terminal());
    assert!(TaskStatus::Failed.is_terminal());
    assert!(TaskStatus::Killed.is_terminal());
    assert!(TaskStatus::Interrupted.is_terminal());
}

#[test]
fn status_names_match_debug_output() {
    for s in [
        TaskStatus::Pending,
        TaskStatus::Running,
        TaskStatus::Completed,
        TaskStatus::Failed,
        TaskStatus::Killed,
        TaskStatus::Interrupted,
    ] {
        assert_eq!(s.name(), format!("{s:?}"));
    }
    assert_ne!(TaskKind::Cron, TaskKind::Loop);
}

#[test]
fn instants_cover_chronos_whole_range() {
    // -262143-01-01T00:00:00Z and +262142-12-31T23:59:59Z.
    assert!(Timestamp::from_unix(-8_334_601_315_200, 0).is_some());
    assert!(Timestamp::from_unix(-8_334_601_315_201, 0).is_none());
    assert!(Timestamp::from_unix(8_210_266_876_799, 0).is_some());
    assert!(Timestamp::from_unix(8_210_266_876_800, 0).is_none());
}
