//! The durable snapshot of a thread's cron jobs, monitors and loops, and
//! where it is kept. Reading and writing the file is the host's part.

use vstd::prelude::*;
use vstd::string::StringExecFns;
use crate::cron_job::CronJob;
use crate::loop_task::LoopTask;
use crate::monitor::MonitorTask;
use crate::paths::path_push;
use crate::paths::push_path;

verus! {

/// Persisted scheduling state for one thread. Each list mirrors a registry;
/// loaders rebuild the registries from them. Schema version is `1`.
#[derive(Debug)]
pub struct SchedulingSnapshot {
    pub version: u32,
    pub cron_jobs: Vec<CronJob>,
    pub monitors: Vec<MonitorTask>,
    pub loops: Vec<LoopTask>,
}

/// The schema version a snapshot without one is read as.
pub fn default_version() -> (r: u32)
    ensures
        r == 1,
{
    1
}

impl SchedulingSnapshot {
    pub fn new(cron_jobs: Vec<CronJob>, monitors: Vec<MonitorTask>, loops: Vec<LoopTask>) -> (r:
        SchedulingSnapshot)
        ensures
            r.version == 1,
            r.cron_jobs@ == cron_jobs@,
            r.monitors@ == monitors@,
            r.loops@ == loops@,
    {
        SchedulingSnapshot { version: 1, cron_jobs, monitors, loops }
    }

    pub fn is_empty(&self) -> (r: bool)
        ensures
            r == (self.cron_jobs@.len() == 0 && self.monitors@.len() == 0 && self.loops@.len()
                == 0),
    {
        self.cron_jobs.len() == 0 && self.monitors.len() == 0 && self.loops.len() == 0
    }
}

impl Default for SchedulingSnapshot {
    /// The empty snapshot with every field at its type's default.
    fn default() -> (r: SchedulingSnapshot)
        ensures
            r.version == 0,
            r.cron_jobs@.len() == 0,
            r.monitors@.len() == 0,
            r.loops@.len() == 0,
    {
        SchedulingSnapshot {
            version: 0,
            cron_jobs: Vec::new(),
            monitors: Vec::new(),
            loops: Vec::new(),
        }
    }
}

/// `<codex_home>/scheduling/<thread_id>.json`: where a thread's snapshot is
/// kept.
pub fn scheduling_state_path(codex_home: &str, thread_id: &str) -> (r: String)
    ensures
        r@ == path_push(path_push(codex_home@, "scheduling"@), thread_id@ + ".json"@),
{
    let dir = push_path(codex_home, "scheduling");
    let mut name = thread_id.to_owned();
    name.append(".json");
    push_path(dir.as_str(), name.as_str())
}

} // verus!
