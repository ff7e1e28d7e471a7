//! The loop tools: `loop_start`, `loop_list`, `loop_stop` and
//! `loop_wakeup`; and what a running loop decides each time its timer
//! fires. Timers, submissions and reply encoding are the host's part.

use vstd::prelude::*;
use vstd::string::StrSliceExecFns;
use vstd::string::StringExecFns;
use crate::loop_registry::change_loop;
use crate::loop_registry::iterated;
use crate::loop_registry::iteration_fits;
use crate::loop_registry::LoopRegistry;
use crate::loop_task::fresh_loop;
use crate::loop_task::LoopTask;
use crate::table::lookup;
use crate::table::upsert;
use crate::task::status_name;
use crate::task::terminal;
use crate::task::TaskId;
use crate::task::TaskStatus;
use crate::timestamp::add_secs;
use crate::timestamp::checked_add_secs;
use crate::timestamp::rfc3339_text;
use crate::timestamp::to_rfc3339;
use crate::timestamp::Timestamp;
use crate::timestamp::MAX_DELTA_SECS;
use crate::tools::not_enabled_message;
use crate::tools::not_enabled_text;
use crate::tools::opt_rfc3339;
use crate::tools::opt_to_rfc3339;
use crate::tools::opt_view;
use crate::tools::ToolKind;

verus! {

/// Shortest interval or delay a loop accepts, in seconds.
pub const MIN_INTERVAL_SECONDS: u64 = 5;

/// Arguments of `loop_start`.
#[derive(Debug)]
pub struct LoopStartArgs {
    pub prompt: String,
    /// Fixed mode: fire every this many seconds.
    pub interval_seconds: Option<u64>,
    /// Dynamic mode: fire the first iteration after this many seconds.
    pub initial_delay_seconds: Option<u64>,
    /// Fire silently (the default).
    pub background: bool,
}

/// Arguments of `loop_stop`.
#[derive(Debug)]
pub struct LoopStopArgs {
    pub task_id: String,
}

/// Arguments of `loop_wakeup`.
#[derive(Debug)]
pub struct LoopWakeupArgs {
    pub task_id: String,
    /// Seconds from now until the next firing.
    pub delay_seconds: u64,
    /// Replaces the prompt of later firings when given.
    pub prompt: Option<String>,
}

#[derive(Debug)]
pub struct LoopWakeupResponse {
    /// RFC 3339 time of the next firing.
    pub next_fire_at: String,
}

#[derive(Debug)]
pub struct LoopStartResponse {
    pub task_id: String,
}

/// One loop as `loop_list` reports it.
#[derive(Debug)]
pub struct LoopSummary {
    pub task_id: String,
    pub prompt: String,
    pub interval_seconds: Option<u64>,
    pub status: String,
    pub last_iter_at: Option<String>,
    pub iteration_count: u64,
}

#[derive(Debug)]
pub struct LoopListResponse {
    pub loops: Vec<LoopSummary>,
}

#[derive(Debug)]
pub struct LoopStopResponse {
    pub stopped: bool,
}

/// How a new loop is paced: every `n` seconds, or first after `n` seconds
/// and then as the model asks.
#[derive(Debug, Clone, Copy, PartialEq, Eq, Structural)]
pub enum LoopMode {
    Fixed(u64),
    Dynamic(u64),
}

/// What `loop_start` makes of its arguments: the pacing, or the message
/// refusing them.
pub open spec fn start_decision(args: LoopStartArgs) -> Result<LoopMode, Seq<char>> {
    if crate::text::trim(args.prompt@).len() == 0 {
        Err("loop_start requires a non-empty prompt"@)
    } else {
        match (args.interval_seconds, args.initial_delay_seconds) {
            (Some(_), Some(_)) => Err(
                "loop_start: pass either `interval_seconds` (fixed mode) OR `initial_delay_seconds` (dynamic mode), not both"@,
            ),
            (None, None) => Err(
                "loop_start: must pass either `interval_seconds` (fixed mode) or `initial_delay_seconds` (dynamic mode)"@,
            ),
            (Some(s), None) => if s < MIN_INTERVAL_SECONDS {
                Err("loop_start requires interval_seconds >= "@ + crate::text::decimal(MIN_INTERVAL_SECONDS as nat))
            } else {
                Ok(LoopMode::Fixed(s))
            },
            (None, Some(s)) => if s < MIN_INTERVAL_SECONDS {
                Err("loop_start requires initial_delay_seconds >= "@ + crate::text::decimal(MIN_INTERVAL_SECONDS as nat))
            } else {
                Ok(LoopMode::Dynamic(s))
            },
        }
    }
}

/// The loop `loop_start` stores for `mode`, as made at `now`: fixed loops
/// carry their interval; a dynamic loop has its first wake-up at `now`
/// plus the delay (when chrono can hold the delay).
pub open spec fn started_loop(t: LoopTask, args: LoopStartArgs, mode: LoopMode, now: Timestamp) -> bool {
    match mode {
        LoopMode::Fixed(s) => fresh_loop(t, args.prompt@, Some(s), args.background),
        LoopMode::Dynamic(s) => {
            &&& crate::task::uuid_v4_text(t.id@)
            &&& t.prompt@ == args.prompt@
            &&& t.interval_secs is None
            &&& t.status == TaskStatus::Pending
            &&& t.last_iter_at is None
            &&& t.iteration_count == 0
            &&& t.background == args.background
            &&& t.next_wakeup_at == (if s <= MAX_DELTA_SECS { add_secs(now, s as nat) } else { None })
        },
    }
}

pub struct LoopStartHandler;

impl LoopStartHandler {
    pub fn tool_name(&self) -> (r: &'static str)
        ensures
            r@ == "loop_start"@,
    {
        crate::tools::LOOP_START_TOOL_NAME
    }

    pub fn kind(&self) -> (r: ToolKind)
        ensures
            r == ToolKind::Function,
    {
        ToolKind::Function
    }

    /// The pacing the arguments ask for, or why they are refused.
    pub fn select_mode(&self, args: &LoopStartArgs) -> (r: Result<LoopMode, String>)
        ensures
            start_decision(*args) matches Ok(m) ==> r == Ok::<LoopMode, String>(m),
            start_decision(*args) matches Err(e) ==> (r matches Err(x) && x@ == e),
    {
        let trimmed = crate::text::trim_str(args.prompt.as_str());
        if trimmed.unicode_len() == 0 {
            return Err("loop_start requires a non-empty prompt".to_owned());
        }
        match (args.interval_seconds, args.initial_delay_seconds) {
            (Some(_), Some(_)) => Err(
                "loop_start: pass either `interval_seconds` (fixed mode) OR `initial_delay_seconds` (dynamic mode), not both".to_owned(),
            ),
            (None, None) => Err(
                "loop_start: must pass either `interval_seconds` (fixed mode) or `initial_delay_seconds` (dynamic mode)".to_owned(),
            ),
            (Some(secs), None) => {
                if secs < MIN_INTERVAL_SECONDS {
                    let mut m = "loop_start requires interval_seconds >= ".to_owned();
                    let d = crate::text::decimal_string(MIN_INTERVAL_SECONDS);
                    m.append(d.as_str());
                    Err(m)
                } else {
                    Ok(LoopMode::Fixed(secs))
                }
            },
            (None, Some(secs)) => {
                if secs < MIN_INTERVAL_SECONDS {
                    let mut m = "loop_start requires initial_delay_seconds >= ".to_owned();
                    let d = crate::text::decimal_string(MIN_INTERVAL_SECONDS);
                    m.append(d.as_str());
                    Err(m)
                } else {
                    Ok(LoopMode::Dynamic(secs))
                }
            },
        }
    }

    /// Starts a loop at `now`: refused when the arguments are (see
    /// `start_decision`) or scheduling is off; otherwise the new loop is
    /// stored and its id and pacing returned, for the host to start its
    /// timer.
    pub fn handle(
        &self,
        scheduling_enabled: bool,
        registry: &mut LoopRegistry,
        args: LoopStartArgs,
        now: Timestamp,
    ) -> (r: Result<(LoopStartResponse, LoopMode), String>)
        requires
            scheduling_enabled ==> (start_decision(args) matches Ok(LoopMode::Dynamic(d)) ==> (d
                <= MAX_DELTA_SECS ==> add_secs(now, d as nat) is Some)),
        ensures
            start_decision(args) matches Err(e) ==> (r matches Err(x) && x@ == e),
            start_decision(args) is Ok && !scheduling_enabled ==> (r matches Err(x) && x@ == not_enabled_text()),
            r is Err ==> final(registry)@ == old(registry)@,
            r is Ok <==> (start_decision(args) is Ok && scheduling_enabled),
            r matches Ok(out) ==> (start_decision(args) == Ok::<LoopMode, Seq<char>>(out.1) && exists|t: LoopTask|
                {
                    &&& started_loop(t, args, out.1, now)
                    &&& final(registry)@ == upsert(old(registry)@, t)
                    &&& out.0.task_id@ == t.id@
                }),
    {
        let mode = match self.select_mode(&args) {
            Ok(m) => m,
            Err(e) => {
                return Err(e);
            },
        };
        if !scheduling_enabled {
            return Err(not_enabled_message());
        }
        let task = match mode {
            LoopMode::Fixed(interval) => LoopTask::new_fixed_with_background(
                args.prompt,
                interval,
                args.background,
            ),
            LoopMode::Dynamic(delay) => {
                let mut t = LoopTask::new_dynamic(args.prompt);
                t.background = args.background;
                if crate::timestamp::delta_from_secs(delay).is_ok() {
                    t.next_wakeup_at = checked_add_secs(now, delay);
                }
                t
            },
        };
        let ghost stored = task;
        let id = registry.insert(task);
        Ok((LoopStartResponse { task_id: id.as_str().to_owned() }, mode))
    }
}

/// A loop as `loop_list` reports it.
pub open spec fn loop_summary_matches(s: LoopSummary, t: LoopTask) -> bool {
    &&& s.task_id@ == t.id@
    &&& s.prompt@ == t.prompt@
    &&& s.interval_seconds == t.interval_secs
    &&& s.status@ == status_name(t.status)
    &&& opt_view(s.last_iter_at) == opt_rfc3339(t.last_iter_at)
    &&& s.iteration_count == t.iteration_count
}

pub fn loop_summary(t: &LoopTask) -> (r: LoopSummary)
    ensures
        loop_summary_matches(r, *t),
{
    LoopSummary {
        task_id: t.id.as_str().to_owned(),
        prompt: t.prompt.clone(),
        interval_seconds: t.interval_secs,
        status: t.status.name().to_owned(),
        last_iter_at: opt_to_rfc3339(t.last_iter_at),
        iteration_count: t.iteration_count,
    }
}

pub struct LoopListHandler;

impl LoopListHandler {
    pub fn tool_name(&self) -> (r: &'static str)
        ensures
            r@ == "loop_list"@,
    {
        crate::tools::LOOP_LIST_TOOL_NAME
    }

    pub fn kind(&self) -> (r: ToolKind)
        ensures
            r == ToolKind::Function,
    {
        ToolKind::Function
    }

    /// One summary per registered loop, in registry order.
    pub fn handle(&self, scheduling_enabled: bool, registry: &LoopRegistry) -> (r: Result<
        LoopListResponse,
        String,
    >)
        ensures
            !scheduling_enabled ==> (r matches Err(m) && m@ == not_enabled_text()),
            scheduling_enabled ==> (r matches Ok(resp) && resp.loops@.len() == registry@.len() && forall|
                i: int,
            | 0 <= i < registry@.len() ==> loop_summary_matches(#[trigger] resp.loops@[i], registry@[i])),
    {
        if !scheduling_enabled {
            return Err(not_enabled_message());
        }
        let loops = registry.list();
        let mut out: Vec<LoopSummary> = Vec::new();
        let n = loops.len();
        let mut i: usize = 0;
        while i < n
            invariant
                n == loops@.len(),
                loops@ == registry@,
                i <= n,
                out@.len() == i,
                forall|k: int| 0 <= k < i ==> loop_summary_matches(#[trigger] out@[k], loops@[k]),
            decreases n - i,
        {
            out.push(loop_summary(&loops[i]));
            i += 1;
        }
        Ok(LoopListResponse { loops: out })
    }
}

pub struct LoopStopHandler;

impl LoopStopHandler {
    pub fn tool_name(&self) -> (r: &'static str)
        ensures
            r@ == "loop_stop"@,
    {
        crate::tools::LOOP_STOP_TOOL_NAME
    }

    pub fn kind(&self) -> (r: ToolKind)
        ensures
            r == ToolKind::Function,
    {
        ToolKind::Function
    }

    /// The id of the loop to stop, refused when scheduling is off.
    pub fn target(&self, scheduling_enabled: bool, args: LoopStopArgs) -> (r: Result<TaskId, String>)
        ensures
            !scheduling_enabled ==> (r matches Err(m) && m@ == not_enabled_text()),
            scheduling_enabled ==> (r matches Ok(id) && id@ == args.task_id@),
    {
        if !scheduling_enabled {
            return Err(not_enabled_message());
        }
        Ok(TaskId::from_string(args.task_id))
    }

    /// After the host tried to abort the loop's timer: a loop whose timer
    /// was running is marked `Completed` at `now` (a graceful end); the
    /// reply says whether it was.
    pub fn finish(&self, registry: &mut LoopRegistry, id: &TaskId, aborted: bool, now: Timestamp) -> (r:
        LoopStopResponse)
        ensures
            r.stopped == aborted,
            aborted ==> final(registry)@ == change_loop(
                old(registry)@,
                id@,
                |t: LoopTask| LoopTask { status: TaskStatus::Completed, last_iter_at: Some(now), ..t },
            ),
            !aborted ==> final(registry)@ == old(registry)@,
    {
        if aborted {
            registry.mark_terminal(id, TaskStatus::Completed, now);
        }
        LoopStopResponse { stopped: aborted }
    }
}

/// What `loop_wakeup` decides for a loop `task` (if registered): the
/// message refusing the request, or `None` when it goes ahead.
pub open spec fn wakeup_refusal(
    scheduling_enabled: bool,
    args: LoopWakeupArgs,
    task: Option<LoopTask>,
) -> Option<Seq<char>> {
    if args.delay_seconds < MIN_INTERVAL_SECONDS {
        Some("loop_wakeup requires delay_seconds >= "@ + crate::text::decimal(MIN_INTERVAL_SECONDS as nat))
    } else if !scheduling_enabled {
        Some(not_enabled_text())
    } else {
        match task {
            None => Some("loop_wakeup: task_id `"@ + args.task_id@ + "` not found"@),
            Some(t) => if terminal(t.status) {
                Some("loop_wakeup: loop `"@ + args.task_id@ + "` is already terminal"@)
            } else if t.interval_secs is Some {
                Some(
                    "loop_wakeup: loop `"@ + args.task_id@
                        + "` is fixed-interval, not dynamic — cannot reschedule"@,
                )
            } else if args.delay_seconds > MAX_DELTA_SECS {
                Some("loop_wakeup: invalid delay: "@ + crate::timestamp::out_of_range_text())
            } else {
                None
            },
        }
    }
}

pub struct LoopWakeupHandler;

impl LoopWakeupHandler {
    pub fn tool_name(&self) -> (r: &'static str)
        ensures
            r@ == "loop_wakeup"@,
    {
        crate::tools::LOOP_WAKEUP_TOOL_NAME
    }

    pub fn kind(&self) -> (r: ToolKind)
        ensures
            r == ToolKind::Function,
    {
        ToolKind::Function
    }

    /// Why `loop_wakeup` would refuse `args` against `registry`, or `None`
    /// when it goes ahead (see `wakeup_refusal`).
    pub fn refusal(&self, scheduling_enabled: bool, registry: &LoopRegistry, args: &LoopWakeupArgs) -> (r:
        Option<String>)
        ensures
            match r {
                Some(m) => wakeup_refusal(scheduling_enabled, *args, lookup(registry@, args.task_id@))
                    == Some(m@),
                None => wakeup_refusal(scheduling_enabled, *args, lookup(registry@, args.task_id@)) is None,
            },
    {
        if args.delay_seconds < MIN_INTERVAL_SECONDS {
            let mut m = "loop_wakeup requires delay_seconds >= ".to_owned();
            let d = crate::text::decimal_string(MIN_INTERVAL_SECONDS);
            m.append(d.as_str());
            return Some(m);
        }
        if !scheduling_enabled {
            return Some(not_enabled_message());
        }
        let id = TaskId::from_string(args.task_id.clone());
        registry.check_wf();
        let loops = registry.list();
        let found = crate::table::find_index(&loops, &id);
        let i = match found {
            None => {
                let mut m = "loop_wakeup: task_id `".to_owned();
                m.append(args.task_id.as_str());
                m.append("` not found");
                return Some(m);
            },
            Some(i) => i,
        };
        let task = &loops[i];
        if task.status.is_terminal() {
            let mut m = "loop_wakeup: loop `".to_owned();
            m.append(args.task_id.as_str());
            m.append("` is already terminal");
            return Some(m);
        }
        if !task.is_dynamic() {
            let mut m = "loop_wakeup: loop `".to_owned();
            m.append(args.task_id.as_str());
            m.append("` is fixed-interval, not dynamic — cannot reschedule");
            return Some(m);
        }
        match crate::timestamp::delta_from_secs(args.delay_seconds) {
            Ok(()) => None,
            Err(e) => {
                let mut m = "loop_wakeup: invalid delay: ".to_owned();
                m.append(e.as_str());
                Some(m)
            },
        }
    }

    /// Schedules the next firing of a dynamic loop `delay_seconds` after
    /// `now` (and replaces its prompt when one is given); refused as
    /// `wakeup_refusal` says, with the registry untouched.
    pub fn handle(
        &self,
        scheduling_enabled: bool,
        registry: &mut LoopRegistry,
        args: LoopWakeupArgs,
        now: Timestamp,
    ) -> (r: Result<LoopWakeupResponse, String>)
        requires
            wakeup_refusal(scheduling_enabled, args, lookup(old(registry)@, args.task_id@)) is None
                ==> add_secs(now, args.delay_seconds as nat) is Some,
        ensures
            wakeup_refusal(scheduling_enabled, args, lookup(old(registry)@, args.task_id@)) matches Some(m)
                ==> (r matches Err(x) && x@ == m && final(registry)@ == old(registry)@),
            wakeup_refusal(scheduling_enabled, args, lookup(old(registry)@, args.task_id@)) is None ==> (
            r matches Ok(resp) && add_secs(now, args.delay_seconds as nat) matches Some(next) && resp.next_fire_at@
                == rfc3339_text(next) && final(registry)@ == change_loop(
                old(registry)@,
                args.task_id@,
                |t: LoopTask|
                    LoopTask {
                        next_wakeup_at: Some(next),
                        prompt: match args.prompt {
                            Some(p) => p,
                            None => t.prompt,
                        },
                        ..t
                    },
            )),
    {
        match self.refusal(scheduling_enabled, registry, &args) {
            Some(m) => {
                return Err(m);
            },
            None => {},
        }
        let id = TaskId::from_string(args.task_id.clone());
        let next = match checked_add_secs(now, args.delay_seconds) {
            Some(t) => t,
            None => {
                return Err("loop_wakeup: invalid delay".to_owned());
            },
        };
        registry.set_next_wakeup(&id, next);
        let ghost mid = registry@;
        match args.prompt {
            Some(p) => {
                registry.update_prompt(&id, p);
            },
            None => {},
        }
        proof {
            let before = old(registry)@;
            let k = crate::table::key_index(before, id@);
            crate::table::lemma_key_index_unique(mid, id@, k);
        }
        Ok(LoopWakeupResponse { next_fire_at: to_rfc3339(next) })
    }
}


/// The text a loop firing submits: `[loop <id>] <prompt>`.
pub open spec fn loop_prompt(id: Seq<char>, prompt: Seq<char>) -> Seq<char> {
    "[loop "@ + id + "] "@ + prompt
}

pub fn loop_prompt_text(id: &TaskId, prompt: &str) -> (r: String)
    ensures
        r@ == loop_prompt(id@, prompt@),
{
    let mut s = "[loop ".to_owned();
    s.append(id.as_str());
    s.append("] ");
    s.append(prompt);
    s
}

/// The submission id of a loop firing: `loopbg__<id>__<unique>` for a
/// background loop, `loop__<id>__<unique>` otherwise, so queued firings of
/// a stopped loop can be dropped and background replies hidden.
pub open spec fn loop_submission(background: bool, id: Seq<char>, unique: Seq<char>) -> Seq<char> {
    (if background { "loopbg"@ } else { "loop"@ }) + "__"@ + id + "__"@ + unique
}

pub fn loop_submission_id(background: bool, id: &TaskId, unique: &str) -> (r: String)
    ensures
        r@ == loop_submission(background, id@, unique@),
{
    let mut s = if background {
        "loopbg".to_owned()
    } else {
        "loop".to_owned()
    };
    s.append("__");
    s.append(id.as_str());
    s.append("__");
    s.append(unique);
    s
}

/// One tick of a fixed-interval loop at `now`: a loop that is gone or
/// terminal does not fire (and its timer stops); otherwise its iteration is
/// recorded and it fires.
pub fn fixed_loop_tick(registry: &mut LoopRegistry, id: &TaskId, now: Timestamp) -> (fire: bool)
    requires
        lookup(old(registry)@, id@) matches Some(t) ==> iteration_fits(t, now),
    ensures
        fire == (lookup(old(registry)@, id@) matches Some(t) && !terminal(t.status)),
        fire ==> final(registry)@ == change_loop(old(registry)@, id@, |t: LoopTask| iterated(t, now)),
        !fire ==> final(registry)@ == old(registry)@,
{
    match registry.status(id) {
        None => false,
        Some(st) => {
            if st.is_terminal() {
                false
            } else {
                registry.record_iteration(id, now);
                true
            }
        },
    }
}

/// What a model-paced loop does when polled.
#[derive(Debug)]
pub enum DynamicStep {
    /// The loop is gone or terminal: the poller ends.
    Stop,
    /// No wake-up is scheduled: poll again later.
    Idle,
    /// The wake-up is still ahead: sleep towards it.
    SleepUntil(Timestamp),
    /// Fire now with this prompt.
    Fire(String),
}

/// One poll of a model-paced loop at `now`. When its wake-up has come, the
/// wake-up is cleared (the agent must schedule the next one), the iteration
/// recorded, and the loop fires with its current prompt.
pub fn dynamic_loop_step(registry: &mut LoopRegistry, id: &TaskId, now: Timestamp) -> (r: DynamicStep)
    requires
        lookup(old(registry)@, id@) matches Some(t) ==> iteration_fits(
            LoopTask { next_wakeup_at: None, ..t },
            now,
        ),
    ensures
        lookup(old(registry)@, id@) is None ==> (r is Stop && final(registry)@ == old(registry)@),
        lookup(old(registry)@, id@) matches Some(t) ==> ({
            if terminal(t.status) {
                r is Stop && final(registry)@ == old(registry)@
            } else {
                match t.next_wakeup_at {
                    None => r is Idle && final(registry)@ == old(registry)@,
                    Some(w) => if !w.le(now) {
                        r == DynamicStep::SleepUntil(w) && final(registry)@ == old(registry)@
                    } else {
                        (r matches DynamicStep::Fire(p) && p@ == t.prompt@) && final(registry)@
                            == change_loop(
                            old(registry)@,
                            id@,
                            |u: LoopTask| iterated(LoopTask { next_wakeup_at: None, ..u }, now),
                        )
                    },
                }
            }
        }),
{
    registry.check_wf();
    let loops = registry.list();
    let i = match crate::table::find_index(&loops, id) {
        None => {
            return DynamicStep::Stop;
        },
        Some(i) => i,
    };
    let task = &loops[i];
    if task.status.is_terminal() {
        return DynamicStep::Stop;
    }
    let wakeup = match task.next_wakeup_at {
        None => {
            return DynamicStep::Idle;
        },
        Some(w) => w,
    };
    if !wakeup.at_or_before(&now) {
        return DynamicStep::SleepUntil(wakeup);
    }
    let prompt = task.prompt.clone();
    let ghost before = registry@;
    registry.clear_next_wakeup(id);
    proof {
        let k = crate::table::key_index(before, id@);
        crate::table::lemma_key_index_unique(registry@, id@, k);
    }
    registry.record_iteration(id, now);
    proof {
        let k = crate::table::key_index(before, id@);
        crate::table::lemma_key_index_unique(registry@, id@, k);
    }
    DynamicStep::Fire(prompt)
}

} // verus!
