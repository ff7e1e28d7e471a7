//! In-memory registry of a session's `MonitorTask`s. Tool handlers add,
//! list and stop monitors; the per-monitor streaming task counts lines and
//! reports how the process ended.

use vstd::prelude::*;
use crate::monitor::MonitorTask;
use crate::registry::saturating_inc;
use crate::table::clone_all;
use crate::table::find_index;
use crate::table::has_key;
use crate::table::key_index;
use crate::table::keys_distinct;
use crate::table::law_lookup_after_replace;
use crate::table::lookup;
use crate::table::remove_key;
use crate::table::remove_vec;
use crate::table::replace_at;
use crate::table::replace_key;
use crate::table::upsert;
use crate::table::upsert_vec;
use crate::table::Keyed;
use crate::task::TaskId;
use crate::task::TaskStatus;
use crate::timestamp::Timestamp;

verus! {

impl Keyed for MonitorTask {
    open spec fn key(&self) -> Seq<char> {
        self.id@
    }

    fn task_id(&self) -> (r: &TaskId) {
        &self.id
    }
}

/// `s` with the monitor `k` changed by `f` (unchanged when absent).
pub open spec fn change_monitor(
    s: Seq<MonitorTask>,
    k: Seq<char>,
    f: spec_fn(MonitorTask) -> MonitorTask,
) -> Seq<MonitorTask> {
    if has_key(s, k) {
        replace_key(s, k, f(s[key_index(s, k)]))
    } else {
        s
    }
}

/// Changing one monitor by an update that keeps ids: that monitor is found
/// changed (when it is held), every other id finds what it found before,
/// and the ids stay distinct.
pub proof fn law_change_monitor(s: Seq<MonitorTask>, k: Seq<char>, f: spec_fn(MonitorTask) -> MonitorTask, other: Seq<char>)
    requires
        keys_distinct(s),
        forall|t: MonitorTask| #[trigger] f(t).key() == t.key(),
    ensures
        keys_distinct(change_monitor(s, k, f)),
        change_monitor(s, k, f).len() == s.len(),
        lookup(change_monitor(s, k, f), k) == (match lookup(s, k) {
            Some(t) => Some(f(t)),
            None => None,
        }),
        other != k ==> lookup(change_monitor(s, k, f), other) == lookup(s, other),
{
    if has_key(s, k) {
        let t = s[key_index(s, k)];
        assert(f(t).key() == t.key());
        law_lookup_after_replace(s, k, f(t), other);
    }
}

/// A session's monitors, at most one per id, in insertion order.
#[derive(Debug)]
pub struct MonitorRegistry {
    monitors: Vec<MonitorTask>,
}

impl View for MonitorRegistry {
    type V = Seq<MonitorTask>;

    closed spec fn view(&self) -> Seq<MonitorTask> {
        self.monitors@
    }
}

impl MonitorRegistry {
    /// Ids are unique.
    pub open spec fn wf(&self) -> bool {
        keys_distinct(self@)
    }

    #[verifier::type_invariant]
    closed spec fn inv(self) -> bool {
        keys_distinct(self.monitors@)
    }

    /// Every registry has unique ids.
    pub fn check_wf(&self)
        ensures
            self.wf(),
    {
        proof {
            use_type_invariant(self);
        }
    }

    /// Moves the entries out, leaving the registry empty.
    fn take_monitors(&mut self) -> (v: Vec<MonitorTask>)
        ensures
            v@ == old(self)@,
            keys_distinct(v@),
            final(self)@ == Seq::<MonitorTask>::empty(),
    {
        proof {
            use_type_invariant(&*self);
        }
        let mut v: Vec<MonitorTask> = Vec::new();
        std::mem::swap(&mut v, &mut self.monitors);
        v
    }

    pub fn new() -> (r: MonitorRegistry)
        ensures
            r.wf(),
            r@ == Seq::<MonitorTask>::empty(),
    {
        MonitorRegistry { monitors: Vec::new() }
    }

    /// Stores `task` (replacing a monitor with the same id); returns its id.
    pub fn insert(&mut self, task: MonitorTask) -> (id: TaskId)
        ensures
            final(self).wf(),
            final(self)@ == upsert(old(self)@, task),
            id@ == task.id@,
    {
        let id = task.id.clone();
        let mut all = self.take_monitors();
        upsert_vec(&mut all, task);
        self.monitors = all;
        id
    }

    /// Removes the monitor with `id`, returning it if there was one.
    pub fn remove(&mut self, id: &TaskId) -> (r: Option<MonitorTask>)
        ensures
            final(self).wf(),
            final(self)@ == remove_key(old(self)@, id@),
            r == lookup(old(self)@, id@),
    {
        let mut all = self.take_monitors();
        let r = remove_vec(&mut all, id);
        self.monitors = all;
        r
    }

    /// All registered monitors.
    pub fn list(&self) -> (r: Vec<MonitorTask>)
        ensures
            r@ == self@,
    {
        clone_all(&self.monitors)
    }

    pub fn len(&self) -> (r: usize)
        ensures
            r == self@.len(),
    {
        self.monitors.len()
    }

    pub fn is_empty(&self) -> (r: bool)
        ensures
            r == (self@.len() == 0),
    {
        self.monitors.len() == 0
    }

    /// Counts one more output line of monitor `id`.
    pub fn record_line(&mut self, id: &TaskId)
        ensures
            final(self).wf(),
            final(self)@ == change_monitor(
                old(self)@,
                id@,
                |m: MonitorTask| MonitorTask { lines_emitted: saturating_inc(m.lines_emitted), ..m },
            ),
    {
        proof {
            use_type_invariant(&*self);
        }
        if let Some(i) = find_index(&self.monitors, id) {
            let mut m = self.monitors[i].clone();
            m.lines_emitted = if m.lines_emitted == u64::MAX {
                m.lines_emitted
            } else {
                m.lines_emitted + 1
            };
            let mut all = self.take_monitors();
            replace_at(&mut all, i, m);
            self.monitors = all;
        }
    }

    /// Marks monitor `id` running since `started_at`.
    pub fn mark_running(&mut self, id: &TaskId, started_at: Timestamp)
        ensures
            final(self).wf(),
            final(self)@ == change_monitor(
                old(self)@,
                id@,
                |m: MonitorTask|
                    MonitorTask { status: TaskStatus::Running, started_at: Some(started_at), ..m },
            ),
    {
        proof {
            use_type_invariant(&*self);
        }
        if let Some(i) = find_index(&self.monitors, id) {
            let mut m = self.monitors[i].clone();
            m.status = TaskStatus::Running;
            m.started_at = Some(started_at);
            let mut all = self.take_monitors();
            replace_at(&mut all, i, m);
            self.monitors = all;
        }
    }

    /// Marks monitor `id` terminal with `status`, stopped at `stopped_at`.
    /// The entry stays registered until removed.
    pub fn mark_terminal(&mut self, id: &TaskId, status: TaskStatus, stopped_at: Timestamp)
        ensures
            final(self).wf(),
            final(self)@ == change_monitor(
                old(self)@,
                id@,
                |m: MonitorTask| MonitorTask { status: status, stopped_at: Some(stopped_at), ..m },
            ),
    {
        proof {
            use_type_invariant(&*self);
        }
        if let Some(i) = find_index(&self.monitors, id) {
            let mut m = self.monitors[i].clone();
            m.status = status;
            m.stopped_at = Some(stopped_at);
            let mut all = self.take_monitors();
            replace_at(&mut all, i, m);
            self.monitors = all;
        }
    }
}

} // verus!
