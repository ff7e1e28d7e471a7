//! The monitor tools: `monitor_start`, `monitor_list`, `monitor_stop`,
//! `monitor_wait` and `monitor_watch_for`; and what a running monitor
//! decides about each output line and about its end. Processes, channels
//! and reply encoding are the host's part.

use vstd::prelude::*;
use vstd::string::StrSliceExecFns;
use vstd::string::StringExecFns;
use crate::monitor::fresh_monitor;
use crate::monitor::MonitorTask;
use crate::monitor_registry::change_monitor;
use crate::monitor_registry::MonitorRegistry;
use crate::table::has_key;
use crate::table::upsert;
use crate::task::status_name;
use crate::task::TaskId;
use crate::task::TaskStatus;
use crate::text::contains_seq;
use crate::timestamp::Timestamp;
use crate::tools::not_enabled_message;
use crate::tools::not_enabled_text;
use crate::tools::opt_rfc3339;
use crate::tools::opt_to_rfc3339;
use crate::tools::opt_view;
use crate::tools::ToolKind;
use crate::protocol::SchedulingMonitorOutputDeltaEvent;
use crate::registry::saturating_inc;

verus! {

/// Arguments of `monitor_start`.
#[derive(Debug)]
pub struct MonitorStartArgs {
    pub command: String,
    /// Suppress per-line chat cells (the default).
    pub background: bool,
    /// Respawn on session resume.
    pub restart_on_resume: bool,
}

/// Arguments of `monitor_stop`.
#[derive(Debug)]
pub struct MonitorStopArgs {
    pub task_id: String,
}

/// Arguments of `monitor_wait`.
#[derive(Debug)]
pub struct MonitorWaitArgs {
    pub task_id: String,
    pub timeout_seconds: Option<u64>,
}

/// Arguments of `monitor_watch_for`.
#[derive(Debug)]
pub struct MonitorWatchForArgs {
    pub task_id: String,
    /// Literal, case-sensitive substring looked for in each line.
    pub pattern: String,
    pub timeout_seconds: Option<u64>,
    /// Collect every match instead of returning on the first.
    pub all_matches: bool,
    /// With `all_matches`, stop after this many matches.
    pub max_matches: Option<u64>,
}

/// One matching line and the stream (`stdout` or `stderr`) it came from.
#[derive(Debug)]
pub struct MonitorWatchForMatch {
    pub matching_line: String,
    pub stream: String,
}

/// Reply of `monitor_watch_for`.
#[derive(Debug)]
pub struct MonitorWatchForResponse {
    /// At least one matching line was seen.
    pub matched: bool,
    /// The first matching line.
    pub matching_line: Option<String>,
    /// The stream of the first matching line.
    pub stream: Option<String>,
    /// Every match, in order (with `all_matches` only).
    pub matches: Vec<MonitorWatchForMatch>,
    /// The process ended and nothing matched.
    pub terminated_without_match: bool,
    /// The timeout fired.
    pub timed_out: bool,
}

#[derive(Debug)]
pub struct MonitorStartResponse {
    pub task_id: String,
}

#[derive(Debug)]
pub struct MonitorWaitResponse {
    pub status: String,
    pub timed_out: bool,
    pub tail: Vec<String>,
}

/// One monitor as `monitor_list` reports it.
#[derive(Debug)]
pub struct MonitorSummary {
    pub task_id: String,
    pub command: String,
    pub status: String,
    pub started_at: Option<String>,
    pub stopped_at: Option<String>,
    pub lines_emitted: u64,
}

#[derive(Debug)]
pub struct MonitorListResponse {
    pub monitors: Vec<MonitorSummary>,
}

#[derive(Debug)]
pub struct MonitorStopResponse {
    pub stopped: bool,
}

pub struct MonitorStartHandler;

impl MonitorStartHandler {
    pub fn tool_name(&self) -> (r: &'static str)
        ensures
            r@ == "monitor_start"@,
    {
        crate::tools::MONITOR_START_TOOL_NAME
    }

    pub fn kind(&self) -> (r: ToolKind)
        ensures
            r == ToolKind::Function,
    {
        ToolKind::Function
    }

    /// Registers a new pending monitor for the command; refused, with the
    /// registry untouched, for a blank command or when scheduling is off.
    /// The host then spawns the process and marks it running.
    pub fn handle(&self, scheduling_enabled: bool, registry: &mut MonitorRegistry, args: MonitorStartArgs) -> (r:
        Result<MonitorStartResponse, String>)
        ensures
            crate::text::trim(args.command@).len() == 0 ==> (r matches Err(m) && m@
                == "monitor_start requires a non-empty command"@),
            crate::text::trim(args.command@).len() > 0 && !scheduling_enabled ==> (r matches Err(m)
                && m@ == not_enabled_text()),
            r is Err ==> final(registry)@ == old(registry)@,
            r is Ok <==> (crate::text::trim(args.command@).len() > 0 && scheduling_enabled),
            r matches Ok(resp) ==> exists|m: MonitorTask|
                {
                    &&& fresh_monitor(m, args.command@, args.background, args.restart_on_resume)
                    &&& final(registry)@ == upsert(old(registry)@, m)
                    &&& resp.task_id@ == m.id@
                },
    {
        let trimmed = crate::text::trim_str(args.command.as_str());
        if trimmed.unicode_len() == 0 {
            return Err("monitor_start requires a non-empty command".to_owned());
        }
        if !scheduling_enabled {
            return Err(not_enabled_message());
        }
        let task = MonitorTask::new_with_options(args.command, args.background, args.restart_on_resume);
        let ghost stored = task;
        let id = registry.insert(task);
        Ok(MonitorStartResponse { task_id: id.as_str().to_owned() })
    }
}

/// A monitor as `monitor_list` reports it.
pub open spec fn monitor_summary_matches(s: MonitorSummary, m: MonitorTask) -> bool {
    &&& s.task_id@ == m.id@
    &&& s.command@ == m.command@
    &&& s.status@ == status_name(m.status)
    &&& opt_view(s.started_at) == opt_rfc3339(m.started_at)
    &&& opt_view(s.stopped_at) == opt_rfc3339(m.stopped_at)
    &&& s.lines_emitted == m.lines_emitted
}

pub fn monitor_summary(m: &MonitorTask) -> (r: MonitorSummary)
    ensures
        monitor_summary_matches(r, *m),
{
    MonitorSummary {
        task_id: m.id.as_str().to_owned(),
        command: m.command.clone(),
        status: m.status.name().to_owned(),
        started_at: opt_to_rfc3339(m.started_at),
        stopped_at: opt_to_rfc3339(m.stopped_at),
        lines_emitted: m.lines_emitted,
    }
}

pub struct MonitorListHandler;

impl MonitorListHandler {
    pub fn tool_name(&self) -> (r: &'static str)
        ensures
            r@ == "monitor_list"@,
    {
        crate::tools::MONITOR_LIST_TOOL_NAME
    }

    pub fn kind(&self) -> (r: ToolKind)
        ensures
            r == ToolKind::Function,
    {
        ToolKind::Function
    }

    /// One summary per registered monitor, in registry order.
    pub fn handle(&self, scheduling_enabled: bool, registry: &MonitorRegistry) -> (r: Result<
        MonitorListResponse,
        String,
    >)
        ensures
            !scheduling_enabled ==> (r matches Err(m) && m@ == not_enabled_text()),
            scheduling_enabled ==> (r matches Ok(resp) && resp.monitors@.len() == registry@.len()
                && forall|i: int|
                0 <= i < registry@.len() ==> monitor_summary_matches(
                    #[trigger] resp.monitors@[i],
                    registry@[i],
                )),
    {
        if !scheduling_enabled {
            return Err(not_enabled_message());
        }
        let monitors = registry.list();
        let mut out: Vec<MonitorSummary> = Vec::new();
        let n = monitors.len();
        let mut i: usize = 0;
        while i < n
            invariant
                n == monitors@.len(),
                monitors@ == registry@,
                i <= n,
                out@.len() == i,
                forall|k: int| 0 <= k < i ==> monitor_summary_matches(#[trigger] out@[k], monitors@[k]),
            decreases n - i,
        {
            out.push(monitor_summary(&monitors[i]));
            i += 1;
        }
        Ok(MonitorListResponse { monitors: out })
    }
}

pub struct MonitorStopHandler;

impl MonitorStopHandler {
    pub fn tool_name(&self) -> (r: &'static str)
        ensures
            r@ == "monitor_stop"@,
    {
        crate::tools::MONITOR_STOP_TOOL_NAME
    }

    pub fn kind(&self) -> (r: ToolKind)
        ensures
            r == ToolKind::Function,
    {
        ToolKind::Function
    }

    /// The id of the monitor to stop, refused when scheduling is off.
    pub fn target(&self, scheduling_enabled: bool, args: MonitorStopArgs) -> (r: Result<TaskId, String>)
        ensures
            !scheduling_enabled ==> (r matches Err(m) && m@ == not_enabled_text()),
            scheduling_enabled ==> (r matches Ok(id) && id@ == args.task_id@),
    {
        if !scheduling_enabled {
            return Err(not_enabled_message());
        }
        Ok(TaskId::from_string(args.task_id))
    }

    /// After the host tried to abort the monitor's task: a monitor whose
    /// task was running is marked `Killed` at `now`; the reply says
    /// whether it was.
    pub fn finish(&self, registry: &mut MonitorRegistry, id: &TaskId, aborted: bool, now: Timestamp) -> (r:
        MonitorStopResponse)
        ensures
            r.stopped == aborted,
            aborted ==> final(registry)@ == change_monitor(
                old(registry)@,
                id@,
                |m: MonitorTask| MonitorTask { status: TaskStatus::Killed, stopped_at: Some(now), ..m },
            ),
            !aborted ==> final(registry)@ == old(registry)@,
    {
        if aborted {
            registry.mark_terminal(id, TaskStatus::Killed, now);
        }
        MonitorStopResponse { stopped: aborted }
    }
}

/// The message for a monitor id that is not registered.
pub open spec fn not_found_text(tool: Seq<char>, id: Seq<char>) -> Seq<char> {
    tool + ": task_id `"@ + id + "` not found"@
}

fn not_found_message(tool: &str, id: &str) -> (r: String)
    ensures
        r@ == not_found_text(tool@, id@),
{
    let mut m = tool.to_owned();
    m.append(": task_id `");
    m.append(id);
    m.append("` not found");
    m
}

/// Whether the registry holds a monitor with the given id.
fn registered(registry: &MonitorRegistry, id: &TaskId) -> (r: bool)
    ensures
        r == has_key(registry@, id@),
{
    registry.check_wf();
    let monitors = registry.list();
    crate::table::find_index(&monitors, id).is_some()
}

/// What one poll of `monitor_wait` finds, given the monitor (if still
/// registered) and whether the deadline has passed: `None` to keep waiting,
/// or the status to report and whether it timed out.
pub open spec fn wait_outcome(task: Option<MonitorTask>, deadline_passed: bool) -> Option<(TaskStatus, bool)> {
    match task {
        None => Some((TaskStatus::Killed, false)),
        Some(m) => if m.status is Completed || m.status is Failed || m.status is Killed {
            Some((m.status, false))
        } else if deadline_passed {
            Some((m.status, true))
        } else {
            None
        },
    }
}

pub struct MonitorWaitHandler;

impl MonitorWaitHandler {
    pub fn tool_name(&self) -> (r: &'static str)
        ensures
            r@ == "monitor_wait"@,
    {
        crate::tools::MONITOR_WAIT_TOOL_NAME
    }

    pub fn kind(&self) -> (r: ToolKind)
        ensures
            r == ToolKind::Function,
    {
        ToolKind::Function
    }

    /// The monitor to wait for: refused when scheduling is off or when it
    /// is not registered.
    pub fn target(&self, scheduling_enabled: bool, registry: &MonitorRegistry, args: &MonitorWaitArgs) -> (r:
        Result<TaskId, String>)
        ensures
            !scheduling_enabled ==> (r matches Err(m) && m@ == not_enabled_text()),
            scheduling_enabled && !has_key(registry@, args.task_id@) ==> (r matches Err(m) && m@
                == not_found_text("monitor_wait"@, args.task_id@)),
            scheduling_enabled && has_key(registry@, args.task_id@) ==> (r matches Ok(id) && id@
                == args.task_id@),
    {
        if !scheduling_enabled {
            return Err(not_enabled_message());
        }
        let id = TaskId::from_string(args.task_id.clone());
        if !registered(registry, &id) {
            return Err(not_found_message("monitor_wait", args.task_id.as_str()));
        }
        Ok(id)
    }

    /// One poll.
    pub fn poll(&self, task: Option<&MonitorTask>, deadline_passed: bool) -> (r: Option<(TaskStatus, bool)>)
        ensures
            r == wait_outcome(
                match task {
                    Some(m) => Some(*m),
                    None => None,
                },
                deadline_passed,
            ),
    {
        match task {
            None => Some((TaskStatus::Killed, false)),
            Some(m) => match m.status {
                TaskStatus::Completed | TaskStatus::Failed | TaskStatus::Killed => Some((m.status, false)),
                _ => if deadline_passed {
                    Some((m.status, true))
                } else {
                    None
                },
            },
        }
    }

    /// The reply: `Running` when it timed out, else the final status's name.
    pub fn respond(&self, status: TaskStatus, timed_out: bool, tail: Vec<String>) -> (r: MonitorWaitResponse)
        ensures
            r.status@ == (if timed_out { "Running"@ } else { status_name(status) }),
            r.timed_out == timed_out,
            r.tail@ == tail@,
    {
        MonitorWaitResponse {
            status: if timed_out {
                "Running".to_owned()
            } else {
                status.name().to_owned()
            },
            timed_out,
            tail,
        }
    }
}

/// How one poll of `monitor_wait` ends: a monitor that has finished
/// (`Completed`, `Failed` or `Killed`) ends the wait at once with that
/// status, not timed out, whether or not the deadline has passed; a
/// monitor in any other state (pending, running, interrupted) ends it only
/// once the deadline has passed, as timed out with its current status; a
/// monitor no longer registered ends it as `Killed`.
pub proof fn law_wait_poll(m: MonitorTask, deadline_passed: bool)
    ensures
        m.status == TaskStatus::Completed ==> wait_outcome(Some(m), deadline_passed) == Some(
            (TaskStatus::Completed, false),
        ),
        m.status == TaskStatus::Failed ==> wait_outcome(Some(m), deadline_passed) == Some(
            (TaskStatus::Failed, false),
        ),
        m.status == TaskStatus::Killed ==> wait_outcome(Some(m), deadline_passed) == Some(
            (TaskStatus::Killed, false),
        ),
        m.status != TaskStatus::Completed && m.status != TaskStatus::Failed && m.status
            != TaskStatus::Killed && !deadline_passed ==> wait_outcome(Some(m), deadline_passed) is None,
        m.status != TaskStatus::Completed && m.status != TaskStatus::Failed && m.status
            != TaskStatus::Killed && deadline_passed ==> wait_outcome(Some(m), deadline_passed) == Some(
            (m.status, true),
        ),
        wait_outcome(None, deadline_passed) == Some((TaskStatus::Killed, false)),
        wait_outcome(Some(m), deadline_passed) matches Some(o) && o.1 ==> deadline_passed,
{
}

/// A tail entry split into its stream and its text: `[stdout] ` and
/// `[stderr] ` prefixes name the stream; anything else is stdout text.
pub open spec fn stream_split(entry: Seq<char>) -> (Seq<char>, Seq<char>) {
    if "[stdout] "@.is_prefix_of(entry) {
        ("stdout"@, entry.skip("[stdout] "@.len() as int))
    } else if "[stderr] "@.is_prefix_of(entry) {
        ("stderr"@, entry.skip("[stderr] "@.len() as int))
    } else {
        ("stdout"@, entry)
    }
}

pub fn strip_stream_prefix(tail_line: &str) -> (r: (&'static str, &str))
    ensures
        (r.0@, r.1@) == stream_split(tail_line@),
{
    if let Some(rest) = crate::text::strip_prefix(tail_line, "[stdout] ") {
        ("stdout", rest)
    } else if let Some(rest) = crate::text::strip_prefix(tail_line, "[stderr] ") {
        ("stderr", rest)
    } else {
        ("stdout", tail_line)
    }
}

/// The tail entry recorded for a line of `stream`: `[<stream>] <line>`.
pub open spec fn tail_entry_text(stream: Seq<char>, line: Seq<char>) -> Seq<char> {
    "["@ + stream + "] "@ + line
}

pub fn tail_entry(stream: &str, line: &str) -> (r: String)
    ensures
        r@ == tail_entry_text(stream@, line@),
{
    let mut s = "[".to_owned();
    s.append(stream);
    s.append("] ");
    s.append(line);
    s
}

/// The plain values of a match.
pub open spec fn match_view(m: MonitorWatchForMatch) -> (Seq<char>, Seq<char>) {
    (m.matching_line@, m.stream@)
}

pub open spec fn match_views(v: Seq<MonitorWatchForMatch>) -> Seq<(Seq<char>, Seq<char>)> {
    v.map_values(|m: MonitorWatchForMatch| match_view(m))
}

/// Collecting stops once this many matches are in: the first one without
/// `all_matches`, else the cap when one is given.
pub open spec fn collection_done(n: nat, all_matches: bool, max_matches: Option<u64>) -> bool {
    (n > 0 && !all_matches) || (max_matches matches Some(cap) && n >= cap && n > 0)
}

/// The reply for what was collected, and whether the process ended or the
/// timeout fired. Without `all_matches` the list of matches stays empty.
pub fn build_response(
    collected: Vec<MonitorWatchForMatch>,
    all_matches: bool,
    terminated_without_more: bool,
    timed_out: bool,
) -> (r: MonitorWatchForResponse)
    ensures
        r.matched == (collected@.len() > 0),
        collected@.len() > 0 ==> (opt_view(r.matching_line) == Some(collected@[0].matching_line@)
            && opt_view(r.stream) == Some(collected@[0].stream@)),
        collected@.len() == 0 ==> (r.matching_line is None && r.stream is None),
        all_matches ==> match_views(r.matches@) == match_views(collected@),
        !all_matches ==> r.matches@.len() == 0,
        r.terminated_without_match == (terminated_without_more && collected@.len() == 0),
        r.timed_out == timed_out,
{
    let matched = collected.len() > 0;
    let first_line = if matched {
        Some(collected[0].matching_line.clone())
    } else {
        None
    };
    let first_stream = if matched {
        Some(collected[0].stream.clone())
    } else {
        None
    };
    let terminated_without_match = terminated_without_more && !matched;
    if all_matches {
        MonitorWatchForResponse {
            matched,
            matching_line: first_line,
            stream: first_stream,
            matches: collected,
            terminated_without_match,
            timed_out,
        }
    } else {
        MonitorWatchForResponse {
            matched,
            matching_line: first_line,
            stream: first_stream,
            matches: Vec::new(),
            terminated_without_match,
            timed_out,
        }
    }
}

/// Adds one observed line to the matches when it contains the pattern;
/// says whether collecting is now done.
pub fn observe_line(
    collected: &mut Vec<MonitorWatchForMatch>,
    stream: &str,
    line: &str,
    pattern: &str,
    all_matches: bool,
    max_matches: Option<u64>,
) -> (done: bool)
    ensures
        contains_seq(line@, pattern@) ==> match_views(final(collected)@) == match_views(old(collected)@).push(
            (line@, stream@),
        ),
        !contains_seq(line@, pattern@) ==> final(collected)@ == old(collected)@,
        done == (contains_seq(line@, pattern@) && collection_done(
            final(collected)@.len(),
            all_matches,
            max_matches,
        )),
{
    if !crate::text::contains(line, pattern) {
        return false;
    }
    let ghost before = collected@;
    collected.push(MonitorWatchForMatch { matching_line: line.to_owned(), stream: stream.to_owned() });
    proof {
        assert(match_views(collected@) =~= match_views(before).push((line@, stream@)));
    }
    if !all_matches {
        return true;
    }
    match max_matches {
        Some(cap) => (collected.len() as u64) >= cap,
        None => false,
    }
}

/// The matches among tail entries, in order: the text after each entry's
/// stream prefix is matched against the pattern.
pub open spec fn tail_matches(tail: Seq<Seq<char>>, pattern: Seq<char>) -> Seq<(Seq<char>, Seq<char>)>
    decreases tail.len(),
{
    if tail.len() == 0 {
        seq![]
    } else {
        let (stream, text) = stream_split(tail.last());
        tail_matches(tail.drop_last(), pattern) + if contains_seq(text, pattern) {
            seq![(text, stream)]
        } else {
            seq![]
        }
    }
}

pub struct MonitorWatchForHandler;

impl MonitorWatchForHandler {
    pub fn tool_name(&self) -> (r: &'static str)
        ensures
            r@ == "monitor_watch_for"@,
    {
        crate::tools::MONITOR_WATCH_FOR_TOOL_NAME
    }

    pub fn kind(&self) -> (r: ToolKind)
        ensures
            r == ToolKind::Function,
    {
        ToolKind::Function
    }

    /// The monitor to watch: refused for an empty pattern, when scheduling
    /// is off, or when the monitor is not registered.
    pub fn target(&self, scheduling_enabled: bool, registry: &MonitorRegistry, args: &MonitorWatchForArgs) -> (r:
        Result<TaskId, String>)
        ensures
            args.pattern@.len() == 0 ==> (r matches Err(m) && m@
                == "monitor_watch_for requires a non-empty pattern"@),
            args.pattern@.len() > 0 && !scheduling_enabled ==> (r matches Err(m) && m@
                == not_enabled_text()),
            args.pattern@.len() > 0 && scheduling_enabled && !has_key(registry@, args.task_id@) ==> (
            r matches Err(m) && m@ == not_found_text("monitor_watch_for"@, args.task_id@)),
            args.pattern@.len() > 0 && scheduling_enabled && has_key(registry@, args.task_id@) ==> (
            r matches Ok(id) && id@ == args.task_id@),
    {
        if args.pattern.unicode_len() == 0 {
            return Err("monitor_watch_for requires a non-empty pattern".to_owned());
        }
        if !scheduling_enabled {
            return Err(not_enabled_message());
        }
        let id = TaskId::from_string(args.task_id.clone());
        if !registered(registry, &id) {
            return Err(not_found_message("monitor_watch_for", args.task_id.as_str()));
        }
        Ok(id)
    }

    /// Scans already-recorded tail entries before subscribing to new lines:
    /// collects their matches in order, stopping right after the match that
    /// completes the collection (`tail_scan_stop`). Says whether it did.
    pub fn scan_tail(
        &self,
        tail: &Vec<String>,
        pattern: &str,
        all_matches: bool,
        max_matches: Option<u64>,
        collected: &mut Vec<MonitorWatchForMatch>,
    ) -> (done: bool)
        ensures
            done == tail_scan_stop(
                crate::text::views(tail@),
                pattern@,
                old(collected)@.len(),
                all_matches,
                max_matches,
                0,
            ) is Some,
            match_views(final(collected)@) == match_views(old(collected)@) + tail_matches(
                crate::text::views(tail@).take(
                    match tail_scan_stop(
                        crate::text::views(tail@),
                        pattern@,
                        old(collected)@.len(),
                        all_matches,
                        max_matches,
                        0,
                    ) {
                        Some(k) => k,
                        None => tail@.len() as int,
                    },
                ),
                pattern@,
            ),
    {
        let ghost start = match_views(collected@);
        let ghost n0 = collected@.len();
        assert(crate::text::views(tail@).take(0) =~= seq![]);
        assert(start + seq![] =~= start);
        let ghost tv = crate::text::views(tail@);
        let n = tail.len();
        let mut i: usize = 0;
        while i < n
            invariant
                n == tail@.len(),
                tv == crate::text::views(tail@),
                i <= n,
                start == match_views(old(collected)@),
                n0 == old(collected)@.len(),
                match_views(collected@) == start + tail_matches(tv.take(i as int), pattern@),
                tail_scan_stop(tv, pattern@, n0, all_matches, max_matches, i as int) == tail_scan_stop(
                    tv,
                    pattern@,
                    n0,
                    all_matches,
                    max_matches,
                    0,
                ),
            decreases n - i,
        {
            proof {
                assert(tv.take(i + 1).drop_last() =~= tv.take(i as int));
                assert(tv.take(i + 1).last() == tail@[i as int]@);
                assert(tv[i as int] == tail@[i as int]@);
            }
            let (stream, text) = strip_stream_prefix(tail[i].as_str());
            let ghost before = match_views(collected@);
            let done = observe_line(collected, stream, text, pattern, all_matches, max_matches);
            proof {
                if contains_seq(text@, pattern@) {
                    assert(before.push((text@, stream@)) =~= start + tail_matches(tv.take(i + 1), pattern@));
                } else {
                    assert(before =~= start + tail_matches(tv.take(i + 1), pattern@));
                }
                assert(collected@.len() == match_views(collected@).len());
                assert(match_views(collected@).len() == n0 + tail_matches(tv.take(i + 1), pattern@).len());
            }
            i += 1;
            if done {
                return true;
            }
        }
        assert(tv.take(n as int) =~= tv);
        false
    }
}

/// Where scanning tail entries from `i` on stops: `Some(k)` when the
/// match in entry `k - 1` completes the collection (which held `n0`
/// matches before the scan), `None` when the entries run out first.
pub open spec fn tail_scan_stop(
    tail: Seq<Seq<char>>,
    pattern: Seq<char>,
    n0: nat,
    all_matches: bool,
    max_matches: Option<u64>,
    i: int,
) -> Option<int>
    decreases tail.len() - i,
{
    if i < 0 || i >= tail.len() {
        None
    } else if contains_seq(stream_split(tail[i]).1, pattern) && collection_done(
        n0 + tail_matches(tail.take(i + 1), pattern).len(),
        all_matches,
        max_matches,
    ) {
        Some(i + 1)
    } else {
        tail_scan_stop(tail, pattern, n0, all_matches, max_matches, i + 1)
    }
}

/// What `build_response` gives for the matches `ms` (as plain values).
pub open spec fn response_views(
    resp: MonitorWatchForResponse,
    ms: Seq<(Seq<char>, Seq<char>)>,
    all_matches: bool,
    terminated: bool,
    timed_out: bool,
) -> bool {
    &&& resp.matched == (ms.len() > 0)
    &&& ms.len() > 0 ==> (opt_view(resp.matching_line) == Some(ms[0].0) && opt_view(resp.stream) == Some(
        ms[0].1,
    ))
    &&& ms.len() == 0 ==> (resp.matching_line is None && resp.stream is None)
    &&& all_matches ==> match_views(resp.matches@) == ms
    &&& !all_matches ==> resp.matches@.len() == 0
    &&& resp.terminated_without_match == (terminated && ms.len() == 0)
    &&& resp.timed_out == timed_out
}

/// What a `monitor_watch_for` call has gathered so far: its matches, and
/// the number of the next output line it has not looked at (lines are
/// numbered from zero in the order the monitor emitted them).
#[derive(Debug)]
pub struct WatchState {
    pub collected: Vec<MonitorWatchForMatch>,
    pub next_seq: u128,
}

/// What a `monitor_watch_for` call hears next: a live line with its
/// number; the monitor's tail, oldest first, with the number of its first
/// entry (at the start, and after the live feed lost lines); the end of
/// the live feed; or the timeout.
#[derive(Debug)]
pub enum WatchEvent {
    Line { seq: u64, stream: String, line: String },
    Tail { first_seq: u64, entries: Vec<String> },
    Closed,
    TimedOut,
}

/// How many leading tail entries were looked at already: those numbered
/// below `next_seq`.
pub open spec fn seen_prefix(next_seq: int, first_seq: int, len: int) -> int {
    if next_seq <= first_seq {
        0
    } else if next_seq - first_seq >= len {
        len
    } else {
        next_seq - first_seq
    }
}

/// The larger of two numbers.
pub open spec fn max_int(a: int, b: int) -> int {
    if a >= b {
        a
    } else {
        b
    }
}

impl WatchState {
    /// Nothing gathered, no line looked at.
    pub fn new() -> (r: WatchState)
        ensures
            r.collected@.len() == 0,
            r.next_seq == 0,
    {
        WatchState { collected: Vec::new(), next_seq: 0 }
    }
}

impl MonitorWatchForHandler {
    /// One step of a `monitor_watch_for` call: takes what it hears and says
    /// whether the call is over, with its reply. A line numbered below
    /// `next_seq` was looked at before and is ignored, and `next_seq` moves
    /// past every line a step looks at, so no output line is looked at, or
    /// collected, twice: not when the tail is scanned again after the live
    /// feed lost lines, nor when the tail and the live feed overlap.
    pub fn step(
        &self,
        state: &mut WatchState,
        event: WatchEvent,
        pattern: &str,
        all_matches: bool,
        max_matches: Option<u64>,
    ) -> (r: Option<MonitorWatchForResponse>)
        ensures
            final(state).next_seq >= old(state).next_seq,
            event matches WatchEvent::Line { seq, stream, line } ==> {
                let ms = match_views(old(state).collected@);
                let ms2 = if contains_seq(line@, pattern@) {
                    ms.push((line@, stream@))
                } else {
                    ms
                };
                let done = contains_seq(line@, pattern@) && collection_done(ms2.len(), all_matches, max_matches);
                &&& seq < old(state).next_seq ==> (r is None && final(state).next_seq == old(state).next_seq
                    && match_views(final(state).collected@) == ms)
                &&& seq >= old(state).next_seq && done ==> (r matches Some(resp) && response_views(
                    resp,
                    ms2,
                    all_matches,
                    false,
                    false,
                ))
                &&& seq >= old(state).next_seq && !done ==> (r is None && final(state).next_seq == seq + 1
                    && match_views(final(state).collected@) == ms2)
            },
            event matches WatchEvent::Tail { first_seq, entries } ==> {
                let tv = crate::text::views(entries@);
                let rest = tv.skip(seen_prefix(old(state).next_seq as int, first_seq as int, tv.len() as int));
                let stop = tail_scan_stop(rest, pattern@, old(state).collected@.len(), all_matches, max_matches, 0);
                let ms2 = match_views(old(state).collected@) + tail_matches(
                    rest.take(
                        match stop {
                            Some(k) => k,
                            None => rest.len() as int,
                        },
                    ),
                    pattern@,
                );
                &&& stop is Some ==> (r matches Some(resp) && response_views(resp, ms2, all_matches, false, false))
                &&& stop is None ==> (r is None && final(state).next_seq == max_int(
                    old(state).next_seq as int,
                    first_seq + tv.len(),
                ) && match_views(final(state).collected@) == ms2)
            },
            event is Closed ==> (r matches Some(resp) && response_views(
                resp,
                match_views(old(state).collected@),
                all_matches,
                true,
                false,
            )),
            event is TimedOut ==> (r matches Some(resp) && response_views(
                resp,
                match_views(old(state).collected@),
                all_matches,
                false,
                true,
            )),
    {
        let done = match event {
            WatchEvent::Line { seq, stream, line } => {
                if (seq as u128) < state.next_seq {
                    return None;
                }
                state.next_seq = seq as u128 + 1;
                observe_line(&mut state.collected, stream.as_str(), line.as_str(), pattern, all_matches, max_matches)
            },
            WatchEvent::Tail { first_seq, entries } => {
                let n = entries.len();
                let ghost tv = crate::text::views(entries@);
                let skip: usize = if state.next_seq <= first_seq as u128 {
                    0
                } else if state.next_seq - (first_seq as u128) >= n as u128 {
                    n
                } else {
                    (state.next_seq - (first_seq as u128)) as usize
                };
                let mut rest: Vec<String> = Vec::new();
                let mut i: usize = skip;
                assert(tv.skip(skip as int).take(0) =~= crate::text::views(rest@));
                while i < n
                    invariant
                        n == entries@.len(),
                        tv == crate::text::views(entries@),
                        skip <= i <= n,
                        crate::text::views(rest@) == tv.skip(skip as int).take(i - skip),
                    decreases n - i,
                {
                    let e = entries[i].clone();
                    let ghost prev = rest@;
                    rest.push(e);
                    proof {
                        assert(crate::text::views(rest@) =~= crate::text::views(prev).push(e@));
                        assert(tv.skip(skip as int).take(i + 1 - skip) =~= tv.skip(skip as int).take(
                            i - skip,
                        ).push(tv[i as int]));
                    }
                    i += 1;
                }
                assert(tv.skip(skip as int).take(n - skip) =~= tv.skip(skip as int));
                let end = first_seq as u128 + n as u128;
                let found = self.scan_tail(&rest, pattern, all_matches, max_matches, &mut state.collected);
                if !found && end > state.next_seq {
                    state.next_seq = end;
                }
                found
            },
            WatchEvent::Closed => {
                let mut c: Vec<MonitorWatchForMatch> = Vec::new();
                std::mem::swap(&mut c, &mut state.collected);
                return Some(build_response(c, all_matches, true, false));
            },
            WatchEvent::TimedOut => {
                let mut c: Vec<MonitorWatchForMatch> = Vec::new();
                std::mem::swap(&mut c, &mut state.collected);
                return Some(build_response(c, all_matches, false, true));
            },
        };
        if done {
            let mut c: Vec<MonitorWatchForMatch> = Vec::new();
            std::mem::swap(&mut c, &mut state.collected);
            Some(build_response(c, all_matches, false, false))
        } else {
            None
        }
    }
}

/// What a monitor's end is reported as: a process that exited successfully
/// `Completed`, one that failed or could not be waited on `Failed`.
pub fn exit_status(waited: bool, success: bool) -> (r: TaskStatus)
    ensures
        r == (if waited && success { TaskStatus::Completed } else { TaskStatus::Failed }),
{
    if waited && success {
        TaskStatus::Completed
    } else {
        TaskStatus::Failed
    }
}

/// Each entry followed by a newline.
pub open spec fn with_newlines(tail: Seq<Seq<char>>) -> Seq<char>
    decreases tail.len(),
{
    if tail.len() == 0 {
        seq![]
    } else {
        with_newlines(tail.drop_last()) + tail.last() + "\n"@
    }
}

/// The message a monitor's end sends to the agent: `[monitor <id>]
/// `<command>` <completed|failed|ended>.`, then the error if any, then the
/// last output lines if any.
pub open spec fn terminate_summary(
    id: Seq<char>,
    command: Seq<char>,
    status: TaskStatus,
    error: Option<Seq<char>>,
    tail: Seq<Seq<char>>,
) -> Seq<char> {
    let word = match status {
        TaskStatus::Completed => "completed"@,
        TaskStatus::Failed => "failed"@,
        _ => "ended"@,
    };
    let head = "[monitor "@ + id + "] `"@ + command + "` "@ + word + "."@;
    let with_error = match error {
        Some(e) => head + "\nError: "@ + e,
        None => head,
    };
    if tail.len() == 0 {
        with_error
    } else {
        with_error + "\nLast output:\n"@ + with_newlines(tail)
    }
}

pub fn terminate_summary_text(
    id: &TaskId,
    command: &str,
    status: TaskStatus,
    tail: &Vec<String>,
    error: Option<String>,
) -> (r: String)
    ensures
        r@ == terminate_summary(id@, command@, status, opt_view(error), crate::text::views(tail@)),
{
    let word = match status {
        TaskStatus::Completed => "completed",
        TaskStatus::Failed => "failed",
        _ => "ended",
    };
    let mut body = "[monitor ".to_owned();
    body.append(id.as_str());
    body.append("] `");
    body.append(command);
    body.append("` ");
    body.append(word);
    body.append(".");
    match &error {
        Some(e) => {
            body.append("\nError: ");
            body.append(e.as_str());
        },
        None => {},
    }
    let n = tail.len();
    if n > 0 {
        body.append("\nLast output:\n");
        let ghost prefix = body@;
        let ghost tv = crate::text::views(tail@);
        let mut i: usize = 0;
        while i < n
            invariant
                n == tail@.len(),
                tv == crate::text::views(tail@),
                i <= n,
                body@ == prefix + with_newlines(tv.take(i as int)),
            decreases n - i,
        {
            proof {
                assert(tv.take(i + 1).drop_last() =~= tv.take(i as int));
                assert(tv.take(i + 1).last() == tail@[i as int]@);
            }
            body.append(tail[i].as_str());
            body.append("\n");
            i += 1;
        }
        assert(tv.take(n as int) =~= tv);
    }
    body
}


/// Handles one output line of monitor `id`: the line is counted, and the
/// tail entry to keep is returned, with the event that shows the line in
/// chat unless the monitor runs in the background.
pub fn monitor_line(
    registry: &mut MonitorRegistry,
    id: &TaskId,
    stream: &str,
    line: &str,
    background: bool,
) -> (r: (String, Option<SchedulingMonitorOutputDeltaEvent>))
    ensures
        final(registry)@ == change_monitor(
            old(registry)@,
            id@,
            |m: MonitorTask| MonitorTask { lines_emitted: saturating_inc(m.lines_emitted), ..m },
        ),
        r.0@ == tail_entry_text(stream@, line@),
        background ==> r.1 is None,
        !background ==> (r.1 matches Some(e) && e.task_id@ == id@ && e.stream@ == stream@ && e.line@
            == line@),
{
    registry.record_line(id);
    let entry = tail_entry(stream, line);
    if background {
        (entry, None)
    } else {
        (
            entry,
            Some(
                SchedulingMonitorOutputDeltaEvent {
                    task_id: id.as_str().to_owned(),
                    stream: stream.to_owned(),
                    line: line.to_owned(),
                },
            ),
        )
    }
}

} // verus!
