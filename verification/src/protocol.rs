//! Messages between the session and its clients about scheduling: the
//! snapshot the `/scheduling` panel shows, listing and deleting tasks, and
//! streamed monitor output.

use vstd::prelude::*;

verus! {

/// Which family a task belongs to.
#[derive(Debug, Clone, Copy, PartialEq, Eq, Structural)]
pub enum SchedulingTaskKind {
    Cron,
    Monitor,
    Loop,
}

/// One cron job as the panel shows it.
#[derive(Debug)]
pub struct SchedulingCronRow {
    pub task_id: String,
    pub cron_expr: String,
    pub prompt: String,
    pub status: String,
    pub fire_count: u64,
    pub last_fired_at: Option<String>,
    pub next_fire_at: Option<String>,
}

/// One monitor as the panel shows it.
#[derive(Debug)]
pub struct SchedulingMonitorRow {
    pub task_id: String,
    pub command: String,
    pub status: String,
    pub lines_emitted: u64,
    pub started_at: Option<String>,
    pub stopped_at: Option<String>,
}

/// One loop as the panel shows it.
#[derive(Debug)]
pub struct SchedulingLoopRow {
    pub task_id: String,
    pub prompt: String,
    pub interval_seconds: Option<u64>,
    pub status: String,
    pub iteration_count: u64,
    pub last_iter_at: Option<String>,
    pub next_wakeup_at: Option<String>,
}

/// Every task of a thread, and whether scheduling is on there.
#[derive(Debug)]
pub struct SchedulingTasksSnapshotEvent {
    pub cron_jobs: Vec<SchedulingCronRow>,
    pub monitors: Vec<SchedulingMonitorRow>,
    pub loops: Vec<SchedulingLoopRow>,
    pub scheduling_enabled: bool,
}

/// One line of output from a running monitor, for the user only.
#[derive(Debug)]
pub struct SchedulingMonitorOutputDeltaEvent {
    pub task_id: String,
    /// `stdout` or `stderr`.
    pub stream: String,
    pub line: String,
}

/// A snapshot pushed to a client, for the thread it describes.
#[derive(Debug)]
pub struct SchedulingTasksSnapshotNotification {
    pub thread_id: String,
    pub event: SchedulingTasksSnapshotEvent,
}

/// Request for a fresh snapshot of a thread's tasks.
#[derive(Debug, PartialEq, Eq)]
pub struct SchedulingTasksListParams {
    pub thread_id: String,
}

/// Empty reply to a list request; the snapshot follows as a notification.
#[derive(Debug, PartialEq, Eq)]
pub struct SchedulingTasksListResponse {}

/// Request to delete one task (aborting it first if it runs).
#[derive(Debug)]
pub struct SchedulingTaskDeleteParams {
    pub thread_id: String,
    pub task_id: String,
    pub kind: SchedulingTaskKind,
}

/// Empty reply to a delete request; the removal shows in the next snapshot.
#[derive(Debug, PartialEq, Eq)]
pub struct SchedulingTaskDeleteResponse {}

/// Streamed monitor output pushed to a client, for its thread.
#[derive(Debug)]
pub struct SchedulingMonitorOutputDeltaNotification {
    pub thread_id: String,
    pub event: SchedulingMonitorOutputDeltaEvent,
}

} // verus!
