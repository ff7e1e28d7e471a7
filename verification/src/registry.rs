//! In-memory registry of a session's `CronJob`s. Tool handlers add and
//! remove jobs; the engine asks it, each tick, which jobs are due.

use vstd::prelude::*;
use crate::cron_job::cron_next;
use crate::cron_job::next_fire_after;
use crate::cron_job::CronJob;
use crate::table::keys_distinct;
use crate::table::lookup;
use crate::table::remove_key;
use crate::table::remove_vec;
use crate::table::upsert;
use crate::table::upsert_vec;
use crate::table::Keyed;
use crate::task::TaskId;
use crate::task::TaskStatus;
use crate::timestamp::Timestamp;
use crate::timestamp::MAX_SECS;
use crate::timestamp::MIN_SECS;
use crate::timestamp::cron_next_at;
use crate::timestamp::next_fire_after_at;

verus! {

impl Keyed for CronJob {
    open spec fn key(&self) -> Seq<char> {
        self.id@
    }

    fn task_id(&self) -> (r: &TaskId) {
        &self.id
    }
}

/// The first firing of the job's schedule after `t`, the expression read
/// at the job's UTC offset when it has one.
pub open spec fn next_after(job: CronJob, t: Timestamp) -> Option<Timestamp> {
    match job.utc_offset {
        None => cron_next(job.cron_expr@, t),
        Some(o) => cron_next_at(job.cron_expr@, t, o as int),
    }
}

/// The next firing after `t` can be looked up: `t` leaves chrono a later
/// second, and a job with an offset has one chrono accepts, with `t` read
/// at that offset still in chrono's range.
pub open spec fn has_room(job: CronJob, t: Timestamp) -> bool {
    &&& t.sec() < MAX_SECS
    &&& job.utc_offset matches Some(o) ==> (-86_400 < o < 86_400 && MIN_SECS <= t.sec() + o && t.sec()
        + o < MAX_SECS)
}

/// The job has fired as often as its cap allows.
pub open spec fn cap_reached(job: CronJob) -> bool {
    job.max_firings matches Some(m) && job.fire_count >= m
}

/// The firing `next` as the job may still take it: none once its cap is
/// reached, and none after its end.
pub open spec fn capped(job: CronJob, next: Option<Timestamp>) -> Option<Timestamp> {
    if cap_reached(job) {
        None
    } else {
        match next {
            Some(n) => match job.until {
                Some(u) => if n.le(u) {
                    Some(n)
                } else {
                    None
                },
                None => Some(n),
            },
            None => None,
        }
    }
}

/// The job as stored on insert: without a next firing, it gets the first
/// firing of its schedule after `now` that its cap and end allow.
pub open spec fn with_first_fire(job: CronJob, now: Timestamp) -> CronJob {
    if job.next_fire_at is None {
        CronJob { next_fire_at: capped(job, next_after(job, now)), ..job }
    } else {
        job
    }
}

/// The job fires at `now`: it is pending or running and its next firing is
/// not later than `now`.
pub open spec fn is_due(job: CronJob, now: Timestamp) -> bool {
    &&& (job.status is Pending || job.status is Running)
    &&& job.next_fire_at matches Some(t) && t.le(now)
}

/// `n + 1`, held at `u64::MAX`.
pub open spec fn saturating_inc(n: u64) -> u64 {
    if n == u64::MAX {
        n
    } else {
        (n + 1) as u64
    }
}

/// The job after firing at `now`: fired then, one more firing counted, the
/// next firing taken from the schedule as its cap and end allow, and back
/// to `Pending`; or `Completed` when there is no such firing (the cap is
/// reached, the next firing is after the end, or the schedule has none).
pub open spec fn fired(job: CronJob, now: Timestamp) -> CronJob {
    let counted = CronJob {
        last_fired_at: Some(now),
        fire_count: saturating_inc(job.fire_count),
        ..job
    };
    let next = capped(counted, next_after(job, now));
    CronJob {
        next_fire_at: next,
        status: if next is Some {
            TaskStatus::Pending
        } else {
            TaskStatus::Completed
        },
        ..counted
    }
}

/// The job after a tick at `now`.
pub open spec fn tick(job: CronJob, now: Timestamp) -> CronJob {
    if is_due(job, now) {
        fired(job, now)
    } else {
        job
    }
}

/// What a tick at `now` reports, in registry order: `(id, prompt,
/// background)` of each due job.
pub open spec fn due_reports(jobs: Seq<CronJob>, now: Timestamp) -> Seq<
    (Seq<char>, Seq<char>, bool),
>
    decreases jobs.len(),
{
    if jobs.len() == 0 {
        seq![]
    } else {
        due_reports(jobs.drop_last(), now) + if is_due(jobs.last(), now) {
            seq![(jobs.last().id@, jobs.last().prompt@, jobs.last().background)]
        } else {
            seq![]
        }
    }
}

/// A tick at an instant at which no job is due reports nothing and leaves
/// every job as it was, and `take_due` may be called there at any instant
/// (no due job needs room); after `take_due` at `now` this holds at `now`,
/// so a second `take_due` at the same instant fires nothing and changes
/// nothing.
pub proof fn law_idle_tick(jobs: Seq<CronJob>, now: Timestamp)
    requires
        forall|i: int| 0 <= i < jobs.len() ==> !is_due(#[trigger] jobs[i], now),
    ensures
        due_reports(jobs, now) == Seq::<(Seq<char>, Seq<char>, bool)>::empty(),
        jobs.map_values(|j: CronJob| tick(j, now)) == jobs,
        forall|i: int| 0 <= i < jobs.len() && is_due(#[trigger] jobs[i], now) ==> has_room(jobs[i], now),
    decreases jobs.len(),
{
    if jobs.len() > 0 {
        let init = jobs.drop_last();
        assert forall|i: int| 0 <= i < init.len() implies !is_due(#[trigger] init[i], now) by {
            assert(init[i] == jobs[i]);
        }
        law_idle_tick(init, now);
        assert(!is_due(jobs[jobs.len() - 1], now));
        assert(due_reports(jobs, now) =~= Seq::<(Seq<char>, Seq<char>, bool)>::empty());
    }
    assert(jobs.map_values(|j: CronJob| tick(j, now)) =~= jobs);
}

/// A job fires neither past its cap nor after its end: after a firing, a
/// next firing is no later than the job's end, there is none once the cap
/// is reached, and a job left without one is `Completed` and due at no
/// instant. The first firing given on insert is no later than the end
/// either, and there is none when the cap allows no firing.
pub proof fn law_cap_and_end(job: CronJob, now: Timestamp, later: Timestamp)
    ensures
        fired(job, now).next_fire_at matches Some(n) ==> (job.until matches Some(u) ==> n.le(u)),
        cap_reached(fired(job, now)) ==> fired(job, now).next_fire_at is None,
        fired(job, now).next_fire_at is None ==> (fired(job, now).status == TaskStatus::Completed
            && !is_due(fired(job, now), later)),
        job.next_fire_at is None ==> (with_first_fire(job, now).next_fire_at matches Some(n) ==> (
        job.until matches Some(u) ==> n.le(u))),
        job.next_fire_at is None && cap_reached(job) ==> with_first_fire(job, now).next_fire_at is None,
{
}

/// The end `until` is inclusive, and the cap counts firings: after a
/// firing at `now` whose schedule's next firing is `n`, the job stays
/// `Pending` with `n` as its next firing exactly when `n` is not after its
/// end (a firing at the end instant itself still happens) and one more
/// firing is within its cap; otherwise it is `Completed` with none. The
/// first firing given on insert follows the same rule, counting the
/// firings already made.
pub proof fn law_until_inclusive(job: CronJob, now: Timestamp)
    ensures
        next_after(job, now) matches Some(n) ==> (fired(job, now).next_fire_at == Some(n) <==> (
        (job.until matches Some(u) ==> n.le(u)) && (job.max_firings matches Some(m) ==> job.fire_count
            + 1 < m))),
        next_after(job, now) matches Some(n) ==> (fired(job, now).next_fire_at is None <==> !(
        (job.until matches Some(u) ==> n.le(u)) && (job.max_firings matches Some(m) ==> job.fire_count
            + 1 < m))),
        next_after(job, now) is None ==> fired(job, now).next_fire_at is None,
        fired(job, now).next_fire_at is Some ==> fired(job, now).status == TaskStatus::Pending,
        fired(job, now).next_fire_at is None ==> fired(job, now).status == TaskStatus::Completed,
        job.until matches Some(u) ==> (next_after(job, now) == Some(u) && (job.max_firings matches Some(m)
            ==> job.fire_count + 1 < m) ==> fired(job, now).next_fire_at == Some(u)),
        job.next_fire_at is None ==> (next_after(job, now) matches Some(n) ==> (with_first_fire(
            job,
            now,
        ).next_fire_at == Some(n) <==> ((job.until matches Some(u) ==> n.le(u)) && (
        job.max_firings matches Some(m) ==> job.fire_count < m)))),
        job.next_fire_at is None && next_after(job, now) is None ==> with_first_fire(job, now).next_fire_at is None,
{
}

/// The views of reported firings.
pub open spec fn report_views(v: Seq<(TaskId, String, bool)>) -> Seq<(Seq<char>, Seq<char>, bool)> {
    v.map_values(|e: (TaskId, String, bool)| (e.0@, e.1@, e.2))
}

/// `next_after`, looked up through the `cron` crate.
fn next_of(job: &CronJob, t: Timestamp) -> (r: Option<Timestamp>)
    requires
        has_room(*job, t),
    ensures
        r == next_after(*job, t),
        r matches Some(n) ==> n.sec() > t.sec(),
{
    match job.utc_offset {
        None => next_fire_after(job.cron_expr.as_str(), t),
        Some(o) => next_fire_after_at(job.cron_expr.as_str(), t, o),
    }
}

/// `capped(job, next_after(job, t))`; the schedule is not consulted once
/// the cap is reached.
fn next_allowed(job: &CronJob, t: Timestamp) -> (r: Option<Timestamp>)
    requires
        !cap_reached(*job) ==> has_room(*job, t),
    ensures
        r == capped(*job, next_after(*job, t)),
        r matches Some(n) ==> n.sec() > t.sec(),
{
    let reached = match job.max_firings {
        Some(m) => job.fire_count >= m,
        None => false,
    };
    if reached {
        return None;
    }
    match next_of(job, t) {
        Some(n) => match job.until {
            Some(u) => if n.at_or_before(&u) {
                Some(n)
            } else {
                None
            },
            None => Some(n),
        },
        None => None,
    }
}

/// `is_due`, computed.
fn job_is_due(job: &CronJob, now: Timestamp) -> (r: bool)
    ensures
        r == is_due(*job, now),
{
    let active = match job.status {
        TaskStatus::Pending | TaskStatus::Running => true,
        _ => false,
    };
    active && match job.next_fire_at {
        Some(t) => t.at_or_before(&now),
        None => false,
    }
}

/// `has_room`, computed.
fn job_has_room(job: &CronJob, now: Timestamp) -> (r: bool)
    ensures
        r == has_room(*job, now),
{
    now.check_valid();
    if now.secs() >= MAX_SECS {
        return false;
    }
    match job.utc_offset {
        None => true,
        Some(o) => -86_400 < o && o < 86_400 && MIN_SECS <= now.secs() + o as i64 && now.secs() + (o as i64)
            < MAX_SECS,
    }
}

/// A session's cron jobs, at most one per id, in insertion order.
#[derive(Debug)]
pub struct CronRegistry {
    jobs: Vec<CronJob>,
}

impl View for CronRegistry {
    type V = Seq<CronJob>;

    closed spec fn view(&self) -> Seq<CronJob> {
        self.jobs@
    }
}

impl CronRegistry {
    /// Ids are unique.
    pub open spec fn wf(&self) -> bool {
        keys_distinct(self@)
    }

    #[verifier::type_invariant]
    closed spec fn inv(self) -> bool {
        keys_distinct(self.jobs@)
    }

    /// Every registry has unique ids.
    pub fn check_wf(&self)
        ensures
            self.wf(),
    {
        proof {
            use_type_invariant(self);
        }
    }

    pub fn new() -> (r: CronRegistry)
        ensures
            r.wf(),
            r@ == Seq::<CronJob>::empty(),
    {
        CronRegistry { jobs: Vec::new() }
    }

    /// Stores `job` (replacing a job with the same id), first giving it its
    /// first firing after `now` when it has none (see `with_first_fire`).
    /// Returns its id.
    pub fn insert(&mut self, job: CronJob, now: Timestamp) -> (id: TaskId)
        requires
            job.next_fire_at is None && !cap_reached(job) ==> has_room(job, now),
        ensures
            final(self).wf(),
            final(self)@ == upsert(old(self)@, with_first_fire(job, now)),
            id@ == job.id@,
    {
        let mut job = job;
        if job.next_fire_at.is_none() {
            job.next_fire_at = next_allowed(&job, now);
        }
        let id = job.id.clone();
        let mut jobs = self.take_jobs();
        upsert_vec(&mut jobs, job);
        self.jobs = jobs;
        id
    }

    /// Moves the jobs out, leaving the registry empty.
    fn take_jobs(&mut self) -> (v: Vec<CronJob>)
        ensures
            v@ == old(self)@,
            keys_distinct(v@),
            final(self)@ == Seq::<CronJob>::empty(),
    {
        proof {
            use_type_invariant(&*self);
        }
        let mut v: Vec<CronJob> = Vec::new();
        std::mem::swap(&mut v, &mut self.jobs);
        v
    }

    /// Removes the job with `id`, returning it if there was one.
    pub fn remove(&mut self, id: &TaskId) -> (r: Option<CronJob>)
        ensures
            final(self).wf(),
            final(self)@ == remove_key(old(self)@, id@),
            r == lookup(old(self)@, id@),
    {
        let mut jobs = self.take_jobs();
        let r = remove_vec(&mut jobs, id);
        self.jobs = jobs;
        r
    }

    /// The job with `id`, if there is one.
    pub fn get(&self, id: &TaskId) -> (r: Option<CronJob>)
        ensures
            r == lookup(self@, id@),
    {
        proof {
            use_type_invariant(self);
        }
        match crate::table::find_index(&self.jobs, id) {
            Some(i) => Some(self.jobs[i].clone()),
            None => None,
        }
    }

    /// All registered jobs.
    pub fn list(&self) -> (r: Vec<CronJob>)
        ensures
            r@ == self@,
    {
        let mut out: Vec<CronJob> = Vec::new();
        let n = self.jobs.len();
        let mut i: usize = 0;
        while i < n
            invariant
                n == self@.len(),
                i <= n,
                out@ == self@.take(i as int),
            decreases n - i,
        {
            out.push(self.jobs[i].clone());
            i += 1;
            assert(out@ =~= self@.take(i as int));
        }
        assert(self@.take(n as int) =~= self@);
        out
    }

    pub fn len(&self) -> (r: usize)
        ensures
            r == self@.len(),
    {
        self.jobs.len()
    }

    pub fn is_empty(&self) -> (r: bool)
        ensures
            r == (self@.len() == 0),
    {
        self.jobs.len() == 0
    }

    /// Whether every job due at `now` leaves room to look up its next
    /// firing, as `take_due` needs.
    pub fn due_have_room(&self, now: Timestamp) -> (r: bool)
        ensures
            r == (forall|i: int| 0 <= i < self@.len() && is_due(#[trigger] self@[i], now) ==> has_room(
                self@[i],
                now,
            )),
    {
        let n = self.jobs.len();
        let mut i: usize = 0;
        while i < n
            invariant
                n == self@.len(),
                i <= n,
                forall|k: int| 0 <= k < i && is_due(#[trigger] self@[k], now) ==> has_room(self@[k], now),
            decreases n - i,
        {
            if job_is_due(&self.jobs[i], now) && !job_has_room(&self.jobs[i], now) {
                return false;
            }
            i += 1;
        }
        true
    }

    /// Fires the jobs due at `now`: reports `(id, prompt, background)` for
    /// each and advances it (see `fired`: fired at `now`, one more firing,
    /// the next firing its schedule, cap and end allow; `Pending` again, or
    /// `Completed` when there is none). Other jobs are untouched.
    /// Afterwards no job is due at `now`.
    pub fn take_due(&mut self, now: Timestamp) -> (fired_now: Vec<(TaskId, String, bool)>)
        requires
            forall|i: int| 0 <= i < old(self)@.len() && is_due(#[trigger] old(self)@[i], now) ==> has_room(
                old(self)@[i],
                now,
            ),
        ensures
            final(self).wf(),
            final(self)@ == old(self)@.map_values(|j: CronJob| tick(j, now)),
            report_views(fired_now@) == due_reports(old(self)@, now),
            forall|i: int| 0 <= i < final(self)@.len() ==> !is_due(#[trigger] final(self)@[i], now),
    {
        let mut jobs = self.take_jobs();
        let ghost before = jobs@;
        let n = jobs.len();
        let mut out: Vec<(TaskId, String, bool)> = Vec::new();
        let mut i: usize = 0;
        while i < n
            invariant
                n == before.len(),
                jobs@.len() == n,
                i <= n,
                forall|k: int| 0 <= k < n && is_due(#[trigger] before[k], now) ==> has_room(before[k], now),
                keys_distinct(before),
                forall|k: int| 0 <= k < i ==> jobs@[k] == tick(#[trigger] before[k], now),
                forall|k: int| i <= k < n ==> jobs@[k] == #[trigger] before[k],
                forall|k: int| 0 <= k < i ==> !is_due(#[trigger] jobs@[k], now),
                report_views(out@) == due_reports(before.take(i as int), now),
            decreases n - i,
        {
            proof {
                assert(before.take(i + 1).drop_last() =~= before.take(i as int));
                assert(before.take(i + 1).last() == before[i as int]);
            }
            let job = &jobs[i];
            let active = match job.status {
                TaskStatus::Pending | TaskStatus::Running => true,
                _ => false,
            };
            let due = active && match job.next_fire_at {
                Some(t) => t.at_or_before(&now),
                None => false,
            };
            let ghost out_before = out@;
            if due {
                let mut j = job.clone();
                out.push((j.id.clone(), j.prompt.clone(), j.background));
                let ghost orig = j;
                j.last_fired_at = Some(now);
                j.fire_count = if j.fire_count == u64::MAX {
                    j.fire_count
                } else {
                    j.fire_count + 1
                };
                proof {
                    assert(next_after(j, now) == next_after(orig, now));
                }
                let next = next_allowed(&j, now);
                j.next_fire_at = next;
                j.status = if next.is_some() {
                    TaskStatus::Pending
                } else {
                    TaskStatus::Completed
                };
                proof {
                    assert(j == fired(before[i as int], now));
                    assert(report_views(out@) =~= report_views(out_before).push(
                        (j.id@, j.prompt@, j.background),
                    ));
                }
                jobs.set(i, j);
            } else {
                proof {
                    assert(report_views(out@) =~= report_views(out_before) + seq![]);
                }
            }
            i += 1;
        }
        proof {
            assert(before.take(n as int) =~= before);
            assert(jobs@ =~= before.map_values(|j: CronJob| tick(j, now)));
            assert forall|a: int, b: int|
                0 <= a < jobs@.len() && 0 <= b < jobs@.len() && a != b implies #[trigger] jobs@[a].key()
                != #[trigger] jobs@[b].key() by {
                assert(before[a].key() != before[b].key());
                assert(jobs@[a] == tick(before[a], now));
                assert(jobs@[b] == tick(before[b], now));
            }
        }
        self.jobs = jobs;
        out
    }
}

} // verus!
