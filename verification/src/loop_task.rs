//! `LoopTask`: a prompt repeated on a fixed interval or with model-paced
//! wakeups, scoped to the enclosing agent session.

use vstd::prelude::*;
use crate::task::TaskId;
use crate::task::TaskStatus;
use crate::timestamp::utc_now;
use crate::timestamp::Timestamp;

verus! {

/// One loop. `interval_secs == None` means the model picks the delay before
/// each next iteration (dynamic pacing).
#[derive(Debug)]
pub struct LoopTask {
    pub id: TaskId,
    pub prompt: String,
    /// Fixed delay between iterations, in seconds. `None` = model-paced.
    pub interval_secs: Option<u64>,
    pub status: TaskStatus,
    pub created_at: Timestamp,
    pub last_iter_at: Option<Timestamp>,
    pub next_wakeup_at: Option<Timestamp>,
    pub iteration_count: u64,
    /// When `true` (the default), firings run silently: the host hides the
    /// agent's natural-language reply for the turn.
    pub background: bool,
}

impl Clone for LoopTask {
    fn clone(&self) -> (r: LoopTask)
        ensures
            r == *self,
    {
        LoopTask {
            id: self.id.clone(),
            prompt: self.prompt.clone(),
            interval_secs: self.interval_secs,
            status: self.status,
            created_at: self.created_at,
            last_iter_at: self.last_iter_at,
            next_wakeup_at: self.next_wakeup_at,
            iteration_count: self.iteration_count,
            background: self.background,
        }
    }
}

/// A freshly made loop: pending, never fired, nothing scheduled yet.
pub open spec fn fresh_loop(
    t: LoopTask,
    prompt: Seq<char>,
    interval_secs: Option<u64>,
    background: bool,
) -> bool {
    &&& crate::task::uuid_v4_text(t.id@)
    &&& t.prompt@ == prompt
    &&& t.interval_secs == interval_secs
    &&& t.status == TaskStatus::Pending
    &&& t.last_iter_at is None
    &&& t.next_wakeup_at is None
    &&& t.iteration_count == 0
    &&& t.background == background
}

impl LoopTask {
    /// A loop firing every `interval_secs` seconds, in the background.
    pub fn new_fixed(prompt: String, interval_secs: u64) -> (r: LoopTask)
        ensures
            fresh_loop(r, prompt@, Some(interval_secs), true),
    {
        Self::new_inner(prompt, Some(interval_secs), true)
    }

    /// A model-paced loop, in the background.
    pub fn new_dynamic(prompt: String) -> (r: LoopTask)
        ensures
            fresh_loop(r, prompt@, None, true),
    {
        Self::new_inner(prompt, None, true)
    }

    /// A loop firing every `interval_secs` seconds.
    pub fn new_fixed_with_background(prompt: String, interval_secs: u64, background: bool) -> (r:
        LoopTask)
        ensures
            fresh_loop(r, prompt@, Some(interval_secs), background),
    {
        Self::new_inner(prompt, Some(interval_secs), background)
    }

    fn new_inner(prompt: String, interval_secs: Option<u64>, background: bool) -> (r: LoopTask)
        ensures
            fresh_loop(r, prompt@, interval_secs, background),
    {
        LoopTask {
            id: TaskId::new(),
            prompt,
            interval_secs,
            status: TaskStatus::Pending,
            created_at: utc_now(),
            last_iter_at: None,
            next_wakeup_at: None,
            iteration_count: 0,
            background,
        }
    }

    pub fn is_dynamic(&self) -> (r: bool)
        ensures
            r == (self.interval_secs is None),
    {
        self.interval_secs.is_none()
    }
}

} // verus!
