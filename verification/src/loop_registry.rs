//! In-memory registry of a session's `LoopTask`s. Data only: the per-loop
//! timer tasks live with the host, which calls back in here each time a
//! loop fires or is rescheduled.

use vstd::prelude::*;
use crate::loop_task::LoopTask;
use crate::registry::saturating_inc;
use crate::table::clone_all;
use crate::table::find_index;
use crate::table::has_key;
use crate::table::key_index;
use crate::table::keys_distinct;
use crate::table::law_lookup_after_replace;
use crate::table::lookup;
use crate::table::remove_key;
use crate::table::remove_vec;
use crate::table::replace_at;
use crate::table::replace_key;
use crate::table::upsert;
use crate::table::upsert_vec;
use crate::table::Keyed;
use crate::task::TaskId;
use crate::task::TaskStatus;
use crate::timestamp::add_secs;
use crate::timestamp::checked_add_secs;
use crate::timestamp::Timestamp;
use crate::timestamp::MAX_DELTA_SECS;

verus! {

impl Keyed for LoopTask {
    open spec fn key(&self) -> Seq<char> {
        self.id@
    }

    fn task_id(&self) -> (r: &TaskId) {
        &self.id
    }
}

/// `s` after storing each of `xs` in turn.
pub open spec fn upsert_all<T: Keyed>(s: Seq<T>, xs: Seq<T>) -> Seq<T>
    decreases xs.len(),
{
    if xs.len() == 0 {
        s
    } else {
        upsert(upsert_all(s, xs.drop_last()), xs.last())
    }
}

/// Whether the wake-up after an iteration at `fired_at` can be computed:
/// a fixed interval that `chrono::TimeDelta` can hold must not carry the
/// instant past the end of chrono's range.
pub open spec fn iteration_fits(t: LoopTask, fired_at: Timestamp) -> bool {
    match t.interval_secs {
        Some(d) => d <= MAX_DELTA_SECS ==> add_secs(fired_at, d as nat) is Some,
        None => true,
    }
}

/// The loop after one iteration at `fired_at`: fired then, one more
/// iteration counted, the next wake-up one interval later (for a fixed
/// interval chrono can hold), and `Pending` until the next tick.
pub open spec fn iterated(t: LoopTask, fired_at: Timestamp) -> LoopTask {
    LoopTask {
        last_iter_at: Some(fired_at),
        iteration_count: saturating_inc(t.iteration_count),
        next_wakeup_at: match t.interval_secs {
            Some(d) => if d <= MAX_DELTA_SECS {
                add_secs(fired_at, d as nat)
            } else {
                t.next_wakeup_at
            },
            None => t.next_wakeup_at,
        },
        status: TaskStatus::Pending,
        ..t
    }
}

/// `s` with the loop `k` changed by `f` (unchanged when absent).
pub open spec fn change_loop(s: Seq<LoopTask>, k: Seq<char>, f: spec_fn(LoopTask) -> LoopTask) -> Seq<
    LoopTask,
> {
    if has_key(s, k) {
        replace_key(s, k, f(s[key_index(s, k)]))
    } else {
        s
    }
}

/// Hydrating from loops with distinct ids gives back exactly those loops,
/// in order: a snapshot read back restores the registry it was taken of.
pub proof fn law_hydrate_distinct(xs: Seq<LoopTask>)
    requires
        keys_distinct(xs),
    ensures
        upsert_all(Seq::<LoopTask>::empty(), xs) == xs,
    decreases xs.len(),
{
    if xs.len() > 0 {
        let init = xs.drop_last();
        assert(keys_distinct(init)) by {
            assert forall|a: int, b: int|
                0 <= a < init.len() && 0 <= b < init.len() && a != b implies #[trigger] init[a].key()
                != #[trigger] init[b].key() by {
                assert(init[a] == xs[a] && init[b] == xs[b]);
            }
        }
        law_hydrate_distinct(init);
        let last = xs.last();
        assert(!has_key(init, last.key())) by {
            if has_key(init, last.key()) {
                let j = choose|j: int| 0 <= j < init.len() && #[trigger] init[j].key() == last.key();
                assert(xs[j].key() != xs[xs.len() - 1].key());
            }
        }
        assert(init.push(last) =~= xs);
    }
}

/// Changing one loop by an update that keeps ids: that loop is found
/// changed (when it is held), every other id finds what it found before,
/// and the ids stay distinct.
pub proof fn law_change_loop(s: Seq<LoopTask>, k: Seq<char>, f: spec_fn(LoopTask) -> LoopTask, other: Seq<char>)
    requires
        keys_distinct(s),
        forall|t: LoopTask| #[trigger] f(t).key() == t.key(),
    ensures
        keys_distinct(change_loop(s, k, f)),
        change_loop(s, k, f).len() == s.len(),
        lookup(change_loop(s, k, f), k) == (match lookup(s, k) {
            Some(t) => Some(f(t)),
            None => None,
        }),
        other != k ==> lookup(change_loop(s, k, f), other) == lookup(s, other),
{
    if has_key(s, k) {
        let t = s[key_index(s, k)];
        assert(f(t).key() == t.key());
        law_lookup_after_replace(s, k, f(t), other);
    }
}

/// A session's loops, at most one per id, in insertion order.
#[derive(Debug)]
pub struct LoopRegistry {
    loops: Vec<LoopTask>,
}

impl View for LoopRegistry {
    type V = Seq<LoopTask>;

    closed spec fn view(&self) -> Seq<LoopTask> {
        self.loops@
    }
}

impl LoopRegistry {
    /// Ids are unique.
    pub open spec fn wf(&self) -> bool {
        keys_distinct(self@)
    }

    #[verifier::type_invariant]
    closed spec fn inv(self) -> bool {
        keys_distinct(self.loops@)
    }

    /// Every registry has unique ids.
    pub fn check_wf(&self)
        ensures
            self.wf(),
    {
        proof {
            use_type_invariant(self);
        }
    }

    /// Moves the entries out, leaving the registry empty.
    fn take_loops(&mut self) -> (v: Vec<LoopTask>)
        ensures
            v@ == old(self)@,
            keys_distinct(v@),
            final(self)@ == Seq::<LoopTask>::empty(),
    {
        proof {
            use_type_invariant(&*self);
        }
        let mut v: Vec<LoopTask> = Vec::new();
        std::mem::swap(&mut v, &mut self.loops);
        v
    }

    pub fn new() -> (r: LoopRegistry)
        ensures
            r.wf(),
            r@ == Seq::<LoopTask>::empty(),
    {
        LoopRegistry { loops: Vec::new() }
    }

    /// Stores `task` (replacing a loop with the same id); returns its id.
    pub fn insert(&mut self, task: LoopTask) -> (id: TaskId)
        ensures
            final(self).wf(),
            final(self)@ == upsert(old(self)@, task),
            id@ == task.id@,
    {
        let id = task.id.clone();
        let mut all = self.take_loops();
        upsert_vec(&mut all, task);
        self.loops = all;
        id
    }

    /// Removes the loop with `id`, returning it if there was one.
    pub fn remove(&mut self, id: &TaskId) -> (r: Option<LoopTask>)
        ensures
            final(self).wf(),
            final(self)@ == remove_key(old(self)@, id@),
            r == lookup(old(self)@, id@),
    {
        let mut all = self.take_loops();
        let r = remove_vec(&mut all, id);
        self.loops = all;
        r
    }

    /// All registered loops.
    pub fn list(&self) -> (r: Vec<LoopTask>)
        ensures
            r@ == self@,
    {
        clone_all(&self.loops)
    }

    pub fn len(&self) -> (r: usize)
        ensures
            r == self@.len(),
    {
        self.loops.len()
    }

    pub fn is_empty(&self) -> (r: bool)
        ensures
            r == (self@.len() == 0),
    {
        self.loops.len() == 0
    }

    /// Current status of a loop, or `None` if it is not registered.
    pub fn status(&self, id: &TaskId) -> (r: Option<TaskStatus>)
        ensures
            r == (match lookup(self@, id@) {
                Some(t) => Some(t.status),
                None => None,
            }),
    {
        proof {
            use_type_invariant(self);
        }
        match find_index(&self.loops, id) {
            Some(i) => Some(self.loops[i].status),
            None => None,
        }
    }

    /// Replaces the contents with `tasks`, stored one after another (used
    /// on session resume).
    pub fn hydrate(&mut self, tasks: Vec<LoopTask>)
        ensures
            final(self).wf(),
            final(self)@ == upsert_all(Seq::<LoopTask>::empty(), tasks@),
    {
        let mut all: Vec<LoopTask> = Vec::new();
        let n = tasks.len();
        let mut i: usize = 0;
        while i < n
            invariant
                n == tasks@.len(),
                i <= n,
                keys_distinct(all@),
                all@ == upsert_all(Seq::<LoopTask>::empty(), tasks@.take(i as int)),
            decreases n - i,
        {
            proof {
                assert(tasks@.take(i + 1).drop_last() =~= tasks@.take(i as int));
            }
            upsert_vec(&mut all, tasks[i].clone());
            i += 1;
        }
        assert(tasks@.take(n as int) =~= tasks@);
        self.loops = all;
    }

    /// Records one iteration of loop `id` fired at `fired_at`.
    pub fn record_iteration(&mut self, id: &TaskId, fired_at: Timestamp)
        requires
            lookup(old(self)@, id@) matches Some(t) ==> iteration_fits(t, fired_at),
        ensures
            final(self).wf(),
            final(self)@ == change_loop(old(self)@, id@, |t: LoopTask| iterated(t, fired_at)),
    {
        proof {
            use_type_invariant(&*self);
        }
        if let Some(i) = find_index(&self.loops, id) {
            let mut t = self.loops[i].clone();
            t.last_iter_at = Some(fired_at);
            t.iteration_count = if t.iteration_count == u64::MAX {
                t.iteration_count
            } else {
                t.iteration_count + 1
            };
            if let Some(d) = t.interval_secs {
                if crate::timestamp::delta_from_secs(d).is_ok() {
                    t.next_wakeup_at = checked_add_secs(fired_at, d);
                }
            }
            t.status = TaskStatus::Pending;
            proof {
                assert(t == iterated(self.loops@[i as int], fired_at));
            }
            let mut all = self.take_loops();
            replace_at(&mut all, i, t);
            self.loops = all;
        }
    }

    /// Sets the next wake-up of loop `id`.
    pub fn set_next_wakeup(&mut self, id: &TaskId, wakeup_at: Timestamp)
        ensures
            final(self).wf(),
            final(self)@ == change_loop(
                old(self)@,
                id@,
                |t: LoopTask| LoopTask { next_wakeup_at: Some(wakeup_at), ..t },
            ),
    {
        proof {
            use_type_invariant(&*self);
        }
        if let Some(i) = find_index(&self.loops, id) {
            let mut t = self.loops[i].clone();
            t.next_wakeup_at = Some(wakeup_at);
            let mut all = self.take_loops();
            replace_at(&mut all, i, t);
            self.loops = all;
        }
    }

    /// Clears the next wake-up of loop `id`.
    pub fn clear_next_wakeup(&mut self, id: &TaskId)
        ensures
            final(self).wf(),
            final(self)@ == change_loop(
                old(self)@,
                id@,
                |t: LoopTask| LoopTask { next_wakeup_at: None, ..t },
            ),
    {
        proof {
            use_type_invariant(&*self);
        }
        if let Some(i) = find_index(&self.loops, id) {
            let mut t = self.loops[i].clone();
            t.next_wakeup_at = None;
            let mut all = self.take_loops();
            replace_at(&mut all, i, t);
            self.loops = all;
        }
    }

    /// Replaces the prompt that later iterations of loop `id` fire.
    pub fn update_prompt(&mut self, id: &TaskId, prompt: String)
        ensures
            final(self).wf(),
            final(self)@ == change_loop(
                old(self)@,
                id@,
                |t: LoopTask| LoopTask { prompt: prompt, ..t },
            ),
    {
        proof {
            use_type_invariant(&*self);
        }
        if let Some(i) = find_index(&self.loops, id) {
            let mut t = self.loops[i].clone();
            t.prompt = prompt;
            let mut all = self.take_loops();
            replace_at(&mut all, i, t);
            self.loops = all;
        }
    }

    /// Marks loop `id` terminal with `status`, stopped at `stopped_at`.
    pub fn mark_terminal(&mut self, id: &TaskId, status: TaskStatus, stopped_at: Timestamp)
        ensures
            final(self).wf(),
            final(self)@ == change_loop(
                old(self)@,
                id@,
                |t: LoopTask| LoopTask { status: status, last_iter_at: Some(stopped_at), ..t },
            ),
    {
        proof {
            use_type_invariant(&*self);
        }
        if let Some(i) = find_index(&self.loops, id) {
            let mut t = self.loops[i].clone();
            t.status = status;
            t.last_iter_at = Some(stopped_at);
            let mut all = self.take_loops();
            replace_at(&mut all, i, t);
            self.loops = all;
        }
    }
}

} // verus!
