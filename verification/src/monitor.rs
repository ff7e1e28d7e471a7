//! `MonitorTask`: a long-running background command whose output lines are
//! surfaced back to the agent.

use vstd::prelude::*;
use crate::task::TaskId;
use crate::task::TaskStatus;
use crate::timestamp::utc_now;
use crate::timestamp::Timestamp;

verus! {

/// One background streaming watcher.
#[derive(Debug)]
pub struct MonitorTask {
    pub id: TaskId,
    /// Shell-style command to spawn (e.g. `tail -F /var/log/app.log`).
    pub command: String,
    pub status: TaskStatus,
    pub created_at: Timestamp,
    pub started_at: Option<Timestamp>,
    pub stopped_at: Option<Timestamp>,
    /// Count of output lines surfaced so far.
    pub lines_emitted: u64,
    /// When `true` (the default), per-line chat cells are suppressed; the
    /// line counter still climbs.
    pub background: bool,
    /// When `true`, a monitor interrupted by a session exit is respawned on
    /// resume with the same command and id.
    pub restart_on_resume: bool,
}

impl Clone for MonitorTask {
    fn clone(&self) -> (r: MonitorTask)
        ensures
            r == *self,
    {
        MonitorTask {
            id: self.id.clone(),
            command: self.command.clone(),
            status: self.status,
            created_at: self.created_at,
            started_at: self.started_at,
            stopped_at: self.stopped_at,
            lines_emitted: self.lines_emitted,
            background: self.background,
            restart_on_resume: self.restart_on_resume,
        }
    }
}

/// A freshly made monitor: pending, not started, no lines yet.
pub open spec fn fresh_monitor(
    m: MonitorTask,
    command: Seq<char>,
    background: bool,
    restart_on_resume: bool,
) -> bool {
    &&& crate::task::uuid_v4_text(m.id@)
    &&& m.command@ == command
    &&& m.status == TaskStatus::Pending
    &&& m.started_at is None
    &&& m.stopped_at is None
    &&& m.lines_emitted == 0
    &&& m.background == background
    &&& m.restart_on_resume == restart_on_resume
}

impl MonitorTask {
    /// A background monitor that is not restarted on resume.
    pub fn new(command: String) -> (r: MonitorTask)
        ensures
            fresh_monitor(r, command@, true, false),
    {
        Self::new_with_options(command, true, false)
    }

    pub fn new_with_background(command: String, background: bool) -> (r: MonitorTask)
        ensures
            fresh_monitor(r, command@, background, false),
    {
        Self::new_with_options(command, background, false)
    }

    pub fn new_with_options(command: String, background: bool, restart_on_resume: bool) -> (r:
        MonitorTask)
        ensures
            fresh_monitor(r, command@, background, restart_on_resume),
    {
        MonitorTask {
            id: TaskId::new(),
            command,
            status: TaskStatus::Pending,
            created_at: utc_now(),
            started_at: None,
            stopped_at: None,
            lines_emitted: 0,
            background,
            restart_on_resume,
        }
    }
}


/// How many of a monitor's latest output lines are kept for its end
/// summary and for `monitor_wait`.
pub const TAIL_CAPACITY: usize = 40;

/// The last `TAIL_CAPACITY` entries of `s`.
pub open spec fn last_entries(s: Seq<Seq<char>>) -> Seq<Seq<char>> {
    if s.len() > TAIL_CAPACITY {
        s.skip(s.len() - TAIL_CAPACITY)
    } else {
        s
    }
}

/// The latest output lines of a monitor, oldest first, at most
/// `TAIL_CAPACITY` of them.
#[derive(Debug)]
pub struct TailBuffer {
    entries: Vec<String>,
    /// How many entries were ever pushed (held at `u64::MAX`): the number
    /// of the next entry, counting from zero.
    pushed: u64,
}

impl View for TailBuffer {
    type V = Seq<Seq<char>>;

    closed spec fn view(&self) -> Seq<Seq<char>> {
        self.entries@.map_values(|e: String| e@)
    }
}

impl TailBuffer {
    #[verifier::type_invariant]
    closed spec fn inv(self) -> bool {
        &&& self.entries@.len() <= TAIL_CAPACITY
        &&& self.entries@.len() <= self.pushed
    }

    /// How many entries were ever pushed, held at `u64::MAX`.
    pub closed spec fn pushed_count(self) -> nat {
        self.pushed as nat
    }

    /// An empty buffer.
    pub fn new() -> (r: TailBuffer)
        ensures
            r@ == Seq::<Seq<char>>::empty(),
            r.pushed_count() == 0,
    {
        let b = TailBuffer { entries: Vec::new(), pushed: 0 };
        assert(b@ =~= Seq::<Seq<char>>::empty());
        b
    }

    /// The number the next pushed entry gets: how many were pushed before.
    pub fn pushed(&self) -> (r: u64)
        ensures
            r == self.pushed_count(),
    {
        self.pushed
    }

    /// The number of the oldest entry kept: entries are numbered from zero
    /// in the order they were pushed.
    pub fn first_seq(&self) -> (r: u64)
        ensures
            r + self@.len() == self.pushed_count(),
    {
        proof {
            use_type_invariant(self);
        }
        self.pushed - self.entries.len() as u64
    }

    /// The number of entries, never more than `TAIL_CAPACITY`.
    pub fn len(&self) -> (r: usize)
        ensures
            r == self@.len(),
            r <= TAIL_CAPACITY,
    {
        proof {
            use_type_invariant(self);
        }
        self.entries.len()
    }

    /// Appends an entry, dropping the oldest when the buffer is full.
    pub fn push(&mut self, entry: String)
        ensures
            final(self)@ == last_entries(old(self)@.push(entry@)),
            final(self).pushed_count() == (if old(self).pushed_count() < u64::MAX {
                old(self).pushed_count() + 1
            } else {
                old(self).pushed_count()
            }),
    {
        proof {
            use_type_invariant(&*self);
        }
        let ghost before = self@;
        let mut entries: Vec<String> = Vec::new();
        std::mem::swap(&mut entries, &mut self.entries);
        if entries.len() >= TAIL_CAPACITY {
            entries.remove(0);
        }
        entries.push(entry);
        proof {
            let pushed = before.push(entry@);
            assert(entries@.map_values(|e: String| e@) =~= last_entries(pushed));
        }
        if self.pushed < u64::MAX {
            self.pushed = self.pushed + 1;
        }
        self.entries = entries;
    }

    /// A copy of the entries, oldest first.
    pub fn snapshot(&self) -> (r: Vec<String>)
        ensures
            r@.map_values(|e: String| e@) == self@,
    {
        let mut out: Vec<String> = Vec::new();
        let n = self.entries.len();
        let mut i: usize = 0;
        while i < n
            invariant
                n == self.entries@.len(),
                i <= n,
                out@.map_values(|e: String| e@) =~= self.entries@.take(i as int).map_values(
                    |e: String| e@,
                ),
            decreases n - i,
        {
            let c = self.entries[i].clone();
            assert(c@ == self.entries@[i as int]@);
            let ghost prev = out@;
            out.push(c);
            assert(out@.map_values(|e: String| e@) =~= prev.map_values(|e: String| e@).push(c@));
            assert(self.entries@.take(i + 1).map_values(|e: String| e@) =~= self.entries@.take(
                i as int,
            ).map_values(|e: String| e@).push(self.entries@[i as int]@));
            i += 1;
        }
        assert(self.entries@.take(n as int) =~= self.entries@);
        out
    }
}

} // verus!
