//! The `/scheduling` panel: its state (the snapshot shown, the selected
//! row, the task whose detail view is open, whether it is closed), how keys
//! change it, and the text and styles of what it shows. Drawing on the
//! terminal is the host's part.

use vstd::prelude::*;
use vstd::string::StrSliceExecFns;
use vstd::string::StringExecFns;
use crate::protocol::SchedulingCronRow;
use crate::protocol::SchedulingLoopRow;
use crate::protocol::SchedulingMonitorRow;
use crate::protocol::SchedulingTaskKind;
use crate::protocol::SchedulingTasksSnapshotEvent;
use crate::text::decimal;
use crate::text::decimal_string;
use crate::timestamp::parse_rfc3339;
use crate::timestamp::rfc3339_parse;
use crate::timestamp::Timestamp;

verus! {

/// How a piece of text is drawn.
#[derive(Debug, Clone, Copy, PartialEq, Eq, Structural)]
pub enum SpanStyle {
    Plain,
    Bold,
    Dim,
    Cyan,
    Yellow,
    GreenDim,
    Red,
    Magenta,
}

/// A piece of a line and its style.
#[derive(Debug)]
pub struct Span {
    pub text: String,
    pub style: SpanStyle,
}

pub open spec fn span_view(s: Span) -> (Seq<char>, SpanStyle) {
    (s.text@, s.style)
}

pub open spec fn line_view(l: Seq<Span>) -> Seq<(Seq<char>, SpanStyle)> {
    l.map_values(|s: Span| span_view(s))
}

pub open spec fn lines_view(ls: Seq<Vec<Span>>) -> Seq<Seq<(Seq<char>, SpanStyle)>> {
    ls.map_values(|l: Vec<Span>| line_view(l@))
}

/// The marker in front of a row: a pointer for the selected one.
pub open spec fn marker(selected: bool) -> Seq<char> {
    if selected {
        "▸ "@
    } else {
        "  "@
    }
}

pub fn row_marker(selected: bool) -> (r: &'static str)
    ensures
        r@ == marker(selected),
{
    if selected {
        "▸ "
    } else {
        "  "
    }
}

/// The first eight characters of a task id.
pub open spec fn short_id(id: Seq<char>) -> Seq<char> {
    id.take(if id.len() < 8 { id.len() as int } else { 8 })
}

pub fn short_task_id(id: &str) -> (r: String)
    ensures
        r@ == short_id(id@),
{
    crate::text::take_chars(id, 8).to_owned()
}

/// `n` spaces.
pub open spec fn spaces(n: nat) -> Seq<char> {
    Seq::new(n, |i: int| ' ')
}

/// A status name padded with spaces (or cut) to nine characters.
pub open spec fn padded_status(status: Seq<char>) -> Seq<char> {
    if status.len() >= 9 {
        status.take(9)
    } else {
        status + spaces((9 - status.len()) as nat)
    }
}

pub fn pad_status(status: &str) -> (r: String)
    ensures
        r@ == padded_status(status@),
{
    let n = status.unicode_len();
    if n >= 9 {
        return status.substring_char(0, 9).to_owned();
    }
    let mut out = status.to_owned();
    let mut k = n;
    while k < 9
        invariant
            n == status@.len(),
            n <= k <= 9,
            out@ == status@ + spaces((k - n) as nat),
        decreases 9 - k,
    {
        out.append(" ");
        proof {
            reveal_strlit(" ");
        }
        k += 1;
        assert(out@ =~= status@ + spaces((k - n) as nat));
    }
    out
}

/// `s` cut to `max` characters, the last of them an ellipsis when cut.
pub open spec fn truncated(s: Seq<char>, max: nat) -> Seq<char> {
    if s.len() <= max {
        s
    } else {
        s.take(if max >= 1 { max - 1 } else { 0 }) + "…"@
    }
}

pub fn truncate(s: &str, max: usize) -> (r: String)
    ensures
        r@ == truncated(s@, max as nat),
{
    let n = s.unicode_len();
    if n <= max {
        return s.to_owned();
    }
    let keep = if max >= 1 {
        max - 1
    } else {
        0
    };
    let mut out = s.substring_char(0, keep).to_owned();
    out.append("…");
    out
}

/// `secs` seconds as the panel says it: `25s`, `2m`, `3h`.
pub open spec fn duration_label(abs: nat) -> Seq<char> {
    if abs < 60 {
        decimal(abs) + "s"@
    } else if abs < 3600 {
        decimal(abs / 60) + "m"@
    } else {
        decimal(abs / 3600) + "h"@
    }
}

/// A signed offset from now as `in 25s` or `2m ago`.
pub open spec fn relative_label(secs: int) -> Seq<char> {
    if secs >= 0 {
        "in "@ + duration_label(secs as nat)
    } else {
        duration_label((-secs) as nat) + " ago"@
    }
}

pub fn relative_label_text(secs: i64) -> (r: String)
    ensures
        r@ == relative_label(secs as int),
{
    let abs: u64 = if secs >= 0 {
        secs as u64
    } else if secs == i64::MIN {
        9_223_372_036_854_775_808u64
    } else {
        (-secs) as u64
    };
    let mut label = if abs < 60 {
        decimal_string(abs)
    } else if abs < 3600 {
        decimal_string(abs / 60)
    } else {
        decimal_string(abs / 3600)
    };
    if abs < 60 {
        label.append("s");
    } else if abs < 3600 {
        label.append("m");
    } else {
        label.append("h");
    }
    if secs >= 0 {
        let mut out = "in ".to_owned();
        out.append(label.as_str());
        out
    } else {
        label.append(" ago");
        label
    }
}

/// `(target - now).num_seconds()` as chrono computes it for two instants.
pub uninterp spec fn secs_between(target: Timestamp, now: Timestamp) -> int;

/// `target.signed_duration_since(now).num_seconds()` (chrono): whole
/// seconds from `now` to `target`, which the contract names.
#[verifier::external_body]
pub(crate) fn signed_secs_between(target: Timestamp, now: Timestamp) -> (r: i64)
    ensures
        r == secs_between(target, now),
{
    let t = chrono::DateTime::from_timestamp(target.secs(), target.nanos()).unwrap();
    let n = chrono::DateTime::from_timestamp(now.secs(), now.nanos()).unwrap();
    t.signed_duration_since(n).num_seconds()
}

/// An RFC 3339 time relative to `now`, or `None` when it does not parse.
pub open spec fn relative_time_spec(rfc3339: Seq<char>, now: Timestamp) -> Option<Seq<char>> {
    match rfc3339_parse(rfc3339) {
        Ok(t) => Some(relative_label(secs_between(t, now))),
        Err(_) => None,
    }
}

pub fn relative_time(rfc3339: &str, now: Timestamp) -> (r: Option<String>)
    ensures
        crate::tools::opt_view(r) == relative_time_spec(rfc3339@, now),
{
    match parse_rfc3339(rfc3339) {
        Ok(t) => Some(relative_label_text(signed_secs_between(t, now))),
        Err(_) => None,
    }
}


/// The color of a status: pending cyan, running yellow, completed dim
/// green, failed red, killed dim, interrupted magenta.
pub open spec fn status_style(status: Seq<char>) -> SpanStyle {
    if status == "Pending"@ {
        SpanStyle::Cyan
    } else if status == "Running"@ {
        SpanStyle::Yellow
    } else if status == "Completed"@ {
        SpanStyle::GreenDim
    } else if status == "Failed"@ {
        SpanStyle::Red
    } else if status == "Killed"@ {
        SpanStyle::Dim
    } else if status == "Interrupted"@ {
        SpanStyle::Magenta
    } else {
        SpanStyle::Plain
    }
}

pub fn status_span(status: &str) -> (r: Span)
    ensures
        span_view(r) == (padded_status(status@), status_style(status@)),
{
    let text = pad_status(status);
    let style = if crate::text::same_text(status, "Pending") {
        SpanStyle::Cyan
    } else if crate::text::same_text(status, "Running") {
        SpanStyle::Yellow
    } else if crate::text::same_text(status, "Completed") {
        SpanStyle::GreenDim
    } else if crate::text::same_text(status, "Failed") {
        SpanStyle::Red
    } else if crate::text::same_text(status, "Killed") {
        SpanStyle::Dim
    } else if crate::text::same_text(status, "Interrupted") {
        SpanStyle::Magenta
    } else {
        SpanStyle::Plain
    };
    Span { text, style }
}

/// The first line of a row: marker, short id, bracketed status, label.
pub open spec fn row_head_spec(marker: Seq<char>, short: Seq<char>, status: Seq<char>, label: Seq<char>) -> Seq<
    (Seq<char>, SpanStyle),
> {
    seq![
        (marker + short + "  ["@, SpanStyle::Plain),
        (padded_status(status), status_style(status)),
        ("]  "@ + label, SpanStyle::Plain),
    ]
}

pub fn row_head(marker: &str, short: &str, status: &str, label: &str) -> (r: Vec<Span>)
    ensures
        line_view(r@) == row_head_spec(marker@, short@, status@, label@),
{
    let mut first = marker.to_owned();
    first.append(short);
    first.append("  [");
    let mut last = "]  ".to_owned();
    last.append(label);
    let mut v: Vec<Span> = Vec::new();
    v.push(Span { text: first, style: SpanStyle::Plain });
    v.push(status_span(status));
    v.push(Span { text: last, style: SpanStyle::Plain });
    proof {
        assert(line_view(v@) =~= row_head_spec(marker@, short@, status@, label@));
    }
    v
}

/// An optional time relative to `now`, `—` when absent or unreadable.
pub open spec fn next_label(t: Option<Seq<char>>, now: Timestamp) -> Seq<char> {
    match t {
        Some(x) => match relative_time_spec(x, now) {
            Some(l) => l,
            None => "—"@,
        },
        None => "—"@,
    }
}

fn next_label_text(t: &Option<String>, now: Timestamp) -> (r: String)
    ensures
        r@ == next_label(crate::tools::opt_view(*t), now),
{
    match t {
        Some(x) => match relative_time(x.as_str(), now) {
            Some(l) => l,
            None => "—".to_owned(),
        },
        None => "—".to_owned(),
    }
}

/// A dim line of one piece.
pub open spec fn dim_line(text: Seq<char>) -> Seq<(Seq<char>, SpanStyle)> {
    seq![(text, SpanStyle::Dim)]
}

fn dim_line_of(text: String) -> (r: Vec<Span>)
    ensures
        line_view(r@) == dim_line(text@),
{
    let mut v: Vec<Span> = Vec::new();
    v.push(Span { text, style: SpanStyle::Dim });
    proof {
        assert(line_view(v@) =~= dim_line(text@));
    }
    v
}

/// The two lines of a cron row.
pub open spec fn cron_row_spec(row: SchedulingCronRow, selected: bool, now: Timestamp) -> Seq<
    Seq<(Seq<char>, SpanStyle)>,
> {
    seq![
        row_head_spec(marker(selected), short_id(row.task_id@), row.status@, truncated(row.prompt@, 50)),
        dim_line(
            "      fired "@ + decimal(row.fire_count as nat) + " · next "@ + next_label(
                crate::tools::opt_view(row.next_fire_at),
                now,
            ),
        ),
    ]
}

pub fn cron_row_lines(row: &SchedulingCronRow, selected: bool, now: Timestamp) -> (r: Vec<Vec<Span>>)
    ensures
        lines_view(r@) == cron_row_spec(*row, selected, now),
{
    let short = short_task_id(row.task_id.as_str());
    let label = truncate(row.prompt.as_str(), 50);
    let head = row_head(row_marker(selected), short.as_str(), row.status.as_str(), label.as_str());
    let mut d = "      fired ".to_owned();
    let count = decimal_string(row.fire_count);
    d.append(count.as_str());
    d.append(" · next ");
    let next = next_label_text(&row.next_fire_at, now);
    d.append(next.as_str());
    let details = dim_line_of(d);
    let mut v: Vec<Vec<Span>> = Vec::new();
    v.push(head);
    v.push(details);
    proof {
        assert(lines_view(v@) =~= cron_row_spec(*row, selected, now));
    }
    v
}

/// The two lines of a monitor row.
pub open spec fn monitor_row_spec(row: SchedulingMonitorRow, selected: bool) -> Seq<
    Seq<(Seq<char>, SpanStyle)>,
> {
    seq![
        row_head_spec(marker(selected), short_id(row.task_id@), row.status@, truncated(row.command@, 60)),
        dim_line("      lines "@ + decimal(row.lines_emitted as nat)),
    ]
}

pub fn monitor_row_lines(row: &SchedulingMonitorRow, selected: bool) -> (r: Vec<Vec<Span>>)
    ensures
        lines_view(r@) == monitor_row_spec(*row, selected),
{
    let short = short_task_id(row.task_id.as_str());
    let label = truncate(row.command.as_str(), 60);
    let head = row_head(row_marker(selected), short.as_str(), row.status.as_str(), label.as_str());
    let mut d = "      lines ".to_owned();
    let count = decimal_string(row.lines_emitted);
    d.append(count.as_str());
    let details = dim_line_of(d);
    let mut v: Vec<Vec<Span>> = Vec::new();
    v.push(head);
    v.push(details);
    proof {
        assert(lines_view(v@) =~= monitor_row_spec(*row, selected));
    }
    v
}

/// A loop's pacing as the panel says it: `5s` or `dynamic`.
pub open spec fn interval_label(interval: Option<u64>) -> Seq<char> {
    match interval {
        Some(s) => decimal(s as nat) + "s"@,
        None => "dynamic"@,
    }
}

/// The two lines of a loop row.
pub open spec fn loop_row_spec(row: SchedulingLoopRow, selected: bool, now: Timestamp) -> Seq<
    Seq<(Seq<char>, SpanStyle)>,
> {
    seq![
        row_head_spec(marker(selected), short_id(row.task_id@), row.status@, truncated(row.prompt@, 50)),
        dim_line(
            "      iter "@ + decimal(row.iteration_count as nat) + " · every "@ + interval_label(
                row.interval_seconds,
            ) + " · next "@ + next_label(crate::tools::opt_view(row.next_wakeup_at), now),
        ),
    ]
}

pub fn loop_row_lines(row: &SchedulingLoopRow, selected: bool, now: Timestamp) -> (r: Vec<Vec<Span>>)
    ensures
        lines_view(r@) == loop_row_spec(*row, selected, now),
{
    let short = short_task_id(row.task_id.as_str());
    let label = truncate(row.prompt.as_str(), 50);
    let head = row_head(row_marker(selected), short.as_str(), row.status.as_str(), label.as_str());
    let interval = match row.interval_seconds {
        Some(s) => {
            let mut t = decimal_string(s);
            t.append("s");
            t
        },
        None => "dynamic".to_owned(),
    };
    let mut d = "      iter ".to_owned();
    let count = decimal_string(row.iteration_count);
    d.append(count.as_str());
    d.append(" · every ");
    d.append(interval.as_str());
    d.append(" · next ");
    let next = next_label_text(&row.next_wakeup_at, now);
    d.append(next.as_str());
    let details = dim_line_of(d);
    let mut v: Vec<Vec<Span>> = Vec::new();
    v.push(head);
    v.push(details);
    proof {
        assert(lines_view(v@) =~= loop_row_spec(*row, selected, now));
    }
    v
}


/// A key press the panel reacts to; `plain` when no modifier is held.
#[derive(Debug, Clone, Copy, PartialEq, Eq, Structural)]
pub enum ViewKey {
    Esc,
    Enter,
    Up,
    Down,
    Char(char),
}

/// The rows of a snapshot in display order (cron, then monitors, then
/// loops) as `(kind, task id)`; none without a snapshot or when scheduling
/// is off.
pub open spec fn flat_rows_spec(snapshot: Option<SchedulingTasksSnapshotEvent>) -> Seq<
    (SchedulingTaskKind, Seq<char>),
> {
    match snapshot {
        None => seq![],
        Some(s) => if !s.scheduling_enabled {
            seq![]
        } else {
            s.cron_jobs@.map_values(|r: SchedulingCronRow| (SchedulingTaskKind::Cron, r.task_id@))
                + s.monitors@.map_values(
                |r: SchedulingMonitorRow| (SchedulingTaskKind::Monitor, r.task_id@),
            ) + s.loops@.map_values(|r: SchedulingLoopRow| (SchedulingTaskKind::Loop, r.task_id@))
        },
    }
}

/// The plain values of flattened rows.
pub open spec fn row_ids(v: Seq<(SchedulingTaskKind, String)>) -> Seq<(SchedulingTaskKind, Seq<char>)> {
    v.map_values(|e: (SchedulingTaskKind, String)| (e.0, e.1@))
}

/// The selection kept within the rows.
pub open spec fn clamped(selected: nat, len: nat) -> nat {
    if len == 0 {
        0
    } else if selected < len {
        selected
    } else {
        (len - 1) as nat
    }
}

/// The selection after moving by `delta` rows, held within the rows.
pub open spec fn moved(selected: nat, len: nat, delta: int) -> nat {
    if len == 0 {
        0
    } else {
        let next = clamped(selected, len) + delta;
        if next < 0 {
            0
        } else if next > len - 1 {
            (len - 1) as nat
        } else {
            next as nat
        }
    }
}

/// Moving the selection keeps it on a row whenever there are rows, and
/// at the first row when there are none: one row down stops at the last
/// row, one row up stops at the first.
pub proof fn law_moved_within(selected: nat, len: nat, delta: int)
    ensures
        len > 0 ==> moved(selected, len, delta) < len,
        len == 0 ==> moved(selected, len, delta) == 0,
        len > 0 ==> clamped(selected, len) < len,
        len > 0 ==> moved(selected, len, 1) as int == (if clamped(selected, len) + 1 < len {
            clamped(selected, len) + 1int
        } else {
            len - 1int
        }),
        len > 0 ==> moved(selected, len, -1) as int == (if clamped(selected, len) > 0 {
            clamped(selected, len) - 1int
        } else {
            0int
        }),
{
}

/// How often the panel asks for a fresh snapshot while it is shown, in
/// milliseconds.
pub const REFRESH_INTERVAL_MS: u64 = 1000;

/// Whether the panel asks for a fresh snapshot at `now_ms`: when it has not
/// asked yet, or its last request went out at least an interval earlier
/// (times in milliseconds on a monotonic clock).
pub fn refresh_due(last_dispatch_ms: Option<u64>, now_ms: u64) -> (r: bool)
    ensures
        r == (match last_dispatch_ms {
            None => true,
            Some(prev) => now_ms - prev >= REFRESH_INTERVAL_MS,
        }),
{
    match last_dispatch_ms {
        None => true,
        Some(prev) => now_ms >= prev && now_ms - prev >= REFRESH_INTERVAL_MS,
    }
}

/// The `/scheduling` panel.
#[derive(Debug)]
pub struct SchedulingView {
    /// The panel has been closed.
    pub complete: bool,
    /// The last snapshot received (`None` while loading).
    pub snapshot: Option<SchedulingTasksSnapshotEvent>,
    /// Index into the flattened rows.
    pub selected_index: usize,
    /// The task whose detail view is open, if one is.
    pub detail: Option<(SchedulingTaskKind, String)>,
    /// The latest output of the task in the detail view, oldest first, as
    /// `(stream, line)`; the host fills it in.
    pub detail_tail: Vec<(String, String)>,
}

impl SchedulingView {
    /// A panel waiting for its first snapshot.
    pub fn new() -> (r: SchedulingView)
        ensures
            !r.complete,
            r.snapshot is None,
            r.selected_index == 0,
            r.detail is None,
            r.detail_tail@.len() == 0,
    {
        SchedulingView {
            complete: false,
            snapshot: None,
            selected_index: 0,
            detail: None,
            detail_tail: Vec::new(),
        }
    }

    /// The open detail view's task, by kind and id.
    pub open spec fn detail_of(&self) -> Option<(SchedulingTaskKind, Seq<char>)> {
        match self.detail {
            Some(p) => Some((p.0, p.1@)),
            None => None,
        }
    }

    pub open spec fn rows(&self) -> Seq<(SchedulingTaskKind, Seq<char>)> {
        flat_rows_spec(self.snapshot)
    }

    /// The rows in display order.
    pub fn flat_rows(&self) -> (r: Vec<(SchedulingTaskKind, String)>)
        ensures
            row_ids(r@) == self.rows(),
    {
        let mut rows: Vec<(SchedulingTaskKind, String)> = Vec::new();
        match &self.snapshot {
            None => {
                assert(row_ids(rows@) =~= self.rows());
                rows
            },
            Some(snap) => {
                if !snap.scheduling_enabled {
                    assert(row_ids(rows@) =~= self.rows());
                    return rows;
                }
                let ghost c = snap.cron_jobs@.map_values(
                    |r: SchedulingCronRow| (SchedulingTaskKind::Cron, r.task_id@),
                );
                let ghost m = snap.monitors@.map_values(
                    |r: SchedulingMonitorRow| (SchedulingTaskKind::Monitor, r.task_id@),
                );
                let ghost l = snap.loops@.map_values(
                    |r: SchedulingLoopRow| (SchedulingTaskKind::Loop, r.task_id@),
                );
                let mut i: usize = 0;
                while i < snap.cron_jobs.len()
                    invariant
                        i <= snap.cron_jobs@.len(),
                        c == snap.cron_jobs@.map_values(
                            |r: SchedulingCronRow| (SchedulingTaskKind::Cron, r.task_id@),
                        ),
                        row_ids(rows@) =~= c.take(i as int),
                    decreases snap.cron_jobs@.len() - i,
                {
                    let ghost before = rows@;
                    rows.push((SchedulingTaskKind::Cron, snap.cron_jobs[i].task_id.clone()));
                    assert(row_ids(rows@) =~= row_ids(before).push((SchedulingTaskKind::Cron, snap.cron_jobs@[i as int].task_id@)));
                    i += 1;
                    assert(row_ids(rows@) =~= c.take(i as int));
                }
                assert(c.take(snap.cron_jobs@.len() as int) =~= c);
                let mut i: usize = 0;
                while i < snap.monitors.len()
                    invariant
                        i <= snap.monitors@.len(),
                        m == snap.monitors@.map_values(
                            |r: SchedulingMonitorRow| (SchedulingTaskKind::Monitor, r.task_id@),
                        ),
                        row_ids(rows@) =~= c + m.take(i as int),
                    decreases snap.monitors@.len() - i,
                {
                    let ghost before = rows@;
                    rows.push((SchedulingTaskKind::Monitor, snap.monitors[i].task_id.clone()));
                    assert(row_ids(rows@) =~= row_ids(before).push((SchedulingTaskKind::Monitor, snap.monitors@[i as int].task_id@)));
                    i += 1;
                    assert(row_ids(rows@) =~= c + m.take(i as int));
                }
                assert(m.take(snap.monitors@.len() as int) =~= m);
                let mut i: usize = 0;
                while i < snap.loops.len()
                    invariant
                        i <= snap.loops@.len(),
                        l == snap.loops@.map_values(
                            |r: SchedulingLoopRow| (SchedulingTaskKind::Loop, r.task_id@),
                        ),
                        row_ids(rows@) =~= c + m + l.take(i as int),
                    decreases snap.loops@.len() - i,
                {
                    let ghost before = rows@;
                    rows.push((SchedulingTaskKind::Loop, snap.loops[i].task_id.clone()));
                    assert(row_ids(rows@) =~= row_ids(before).push((SchedulingTaskKind::Loop, snap.loops@[i as int].task_id@)));
                    i += 1;
                    assert(row_ids(rows@) =~= c + m + l.take(i as int));
                }
                assert(l.take(snap.loops@.len() as int) =~= l);
                rows
            },
        }
    }

    /// The selected row's index, held within the rows.
    pub fn clamped_selected_index(&self) -> (r: usize)
        ensures
            r == clamped(self.selected_index as nat, self.rows().len()),
    {
        let len = self.flat_rows().len();
        if len == 0 {
            0
        } else if self.selected_index < len {
            self.selected_index
        } else {
            len - 1
        }
    }

    /// Moves the selection by `delta` rows, stopping at the ends.
    pub fn move_selection(&mut self, delta: isize)
        ensures
            final(self).selected_index == moved(old(self).selected_index as nat, old(self).rows().len(), delta as int),
            final(self).snapshot == old(self).snapshot,
            final(self).complete == old(self).complete,
            final(self).detail == old(self).detail,
            final(self).detail_tail == old(self).detail_tail,
    {
        let len = self.flat_rows().len();
        if len == 0 {
            self.selected_index = 0;
            return;
        }
        let current = self.clamped_selected_index();
        let cur = current as i128 + delta as i128;
        let next: usize = if cur < 0 {
            0
        } else if cur > (len - 1) as i128 {
            len - 1
        } else {
            cur as usize
        };
        self.selected_index = next;
    }

    /// The task the `d` key asks to delete: the selected row, if any.
    pub fn delete_selected(&self) -> (r: Option<(SchedulingTaskKind, String)>)
        ensures
            self.rows().len() == 0 ==> r is None,
            self.rows().len() > 0 ==> (r matches Some(p) && (p.0, p.1@) == self.rows()[clamped(
                self.selected_index as nat,
                self.rows().len(),
            ) as int]),
    {
        let rows = self.flat_rows();
        if rows.len() == 0 {
            return None;
        }
        let idx = self.clamped_selected_index();
        let (kind, id) = (rows[idx].0, rows[idx].1.clone());
        proof {
            assert(row_ids(rows@)[idx as int] == (rows@[idx as int].0, rows@[idx as int].1@));
        }
        Some((kind, id))
    }

    /// Shows a new snapshot.
    pub fn set_snapshot(&mut self, snapshot: SchedulingTasksSnapshotEvent)
        ensures
            final(self).snapshot == Some(snapshot),
            final(self).complete == old(self).complete,
            final(self).selected_index == old(self).selected_index,
            final(self).detail == old(self).detail,
            final(self).detail_tail == old(self).detail_tail,
    {
        self.snapshot = Some(snapshot);
    }

    /// A key press. Esc closes the panel, from the list or from a detail
    /// view. While a detail view is open every other key is ignored. In
    /// the list, a plain Enter opens the detail view of the selected row
    /// (and closes the panel when there are no rows); Down/`j` and Up/`k`
    /// move the selection; a plain `d` asks to delete the selected task,
    /// which is returned for the host to send.
    pub fn handle_key_event(&mut self, key: ViewKey, plain: bool) -> (r: Option<(SchedulingTaskKind, String)>)
        ensures
            final(self).snapshot == old(self).snapshot,
            final(self).detail_tail == old(self).detail_tail,
            key is Esc ==> (final(self).complete && final(self).selected_index == old(self).selected_index
                && final(self).detail == old(self).detail && r is None),
            !(key is Esc) && old(self).detail is Some ==> (final(self).complete == old(self).complete
                && final(self).selected_index == old(self).selected_index && final(self).detail
                == old(self).detail && r is None),
            key is Enter && plain && old(self).detail is None && old(self).rows().len() > 0 ==> (
            final(self).detail_of() == Some(
                old(self).rows()[clamped(old(self).selected_index as nat, old(self).rows().len()) as int],
            ) && final(self).complete == old(self).complete && final(self).selected_index
                == old(self).selected_index && r is None),
            key is Enter && plain && old(self).detail is None && old(self).rows().len() == 0 ==> (
            final(self).complete && final(self).detail is None && final(self).selected_index
                == old(self).selected_index && r is None),
            old(self).detail is None && !(key is Esc || (key is Enter && plain)) ==> final(self).detail
                == old(self).detail,
            old(self).detail is None && (key is Down || (key == ViewKey::Char('j') && plain)) ==> (
            final(self).selected_index == moved(old(self).selected_index as nat, old(self).rows().len(), 1)
                && final(self).complete == old(self).complete && r is None),
            old(self).detail is None && (key is Up || (key == ViewKey::Char('k') && plain)) ==> (
            final(self).selected_index == moved(old(self).selected_index as nat, old(self).rows().len(), -1)
                && final(self).complete == old(self).complete && r is None),
            old(self).detail is None && key == ViewKey::Char('d') && plain ==> (final(self).complete
                == old(self).complete && final(self).selected_index == old(self).selected_index && (old(
                self,
            ).rows().len() == 0 ==> r is None) && (old(self).rows().len() > 0 ==> (r matches Some(p) && (
            p.0,
            p.1@,
            ) == old(self).rows()[clamped(old(self).selected_index as nat, old(self).rows().len()) as int]))),
            old(self).detail is None && !(key is Esc || key is Enter || key is Down || key is Up || (plain
                && (key == ViewKey::Char('j') || key == ViewKey::Char('k') || key == ViewKey::Char('d'))))
                ==> (final(self).complete == old(self).complete && final(self).selected_index == old(
                self,
            ).selected_index && r is None),
            old(self).detail is None && key is Enter && !plain ==> (final(self).complete == old(
                self,
            ).complete && final(self).selected_index == old(self).selected_index && r is None),
    {
        if let ViewKey::Esc = key {
            self.complete = true;
            return None;
        }
        if self.detail.is_some() {
            return None;
        }
        match key {
            ViewKey::Esc => None,
            ViewKey::Enter => {
                if plain {
                    match self.delete_selected() {
                        Some(p) => {
                            self.detail = Some(p);
                        },
                        None => {
                            self.complete = true;
                        },
                    }
                }
                None
            },
            ViewKey::Down => {
                self.move_selection(1);
                None
            },
            ViewKey::Up => {
                self.move_selection(-1);
                None
            },
            ViewKey::Char(c) => {
                if plain && c == 'j' {
                    self.move_selection(1);
                    None
                } else if plain && c == 'k' {
                    self.move_selection(-1);
                    None
                } else if plain && c == 'd' {
                    self.delete_selected()
                } else {
                    None
                }
            },
        }
    }

    /// Gives the detail view the latest output of its task.
    pub fn set_detail_tail(&mut self, tail: Vec<(String, String)>)
        ensures
            final(self).detail_tail == tail,
            final(self).complete == old(self).complete,
            final(self).snapshot == old(self).snapshot,
            final(self).selected_index == old(self).selected_index,
            final(self).detail == old(self).detail,
    {
        self.detail_tail = tail;
    }

    pub fn is_complete(&self) -> (r: bool)
        ensures
            r == self.complete,
    {
        self.complete
    }

    /// Ctrl-C closes the panel.
    pub fn on_ctrl_c(&mut self)
        ensures
            final(self).complete,
            final(self).snapshot == old(self).snapshot,
            final(self).selected_index == old(self).selected_index,
            final(self).detail == old(self).detail,
            final(self).detail_tail == old(self).detail_tail,
    {
        self.complete = true;
    }
}


/// An empty line.
pub open spec fn blank_line() -> Seq<(Seq<char>, SpanStyle)> {
    seq![(seq![], SpanStyle::Plain)]
}

/// A bold line of one piece.
pub open spec fn bold_line(text: Seq<char>) -> Seq<(Seq<char>, SpanStyle)> {
    seq![(text, SpanStyle::Bold)]
}

fn one_span(text: String, style: SpanStyle) -> (r: Vec<Span>)
    ensures
        line_view(r@) == seq![(text@, style)],
{
    let mut v: Vec<Span> = Vec::new();
    v.push(Span { text, style });
    proof {
        assert(line_view(v@) =~= seq![(text@, style)]);
    }
    v
}

/// The lines of the cron rows, the first at overall index `first`.
pub open spec fn cron_section(rows: Seq<SchedulingCronRow>, first: int, selected: int, now: Timestamp) -> Seq<
    Seq<(Seq<char>, SpanStyle)>,
>
    decreases rows.len(),
{
    if rows.len() == 0 {
        seq![]
    } else {
        cron_section(rows.drop_last(), first, selected, now) + cron_row_spec(
            rows.last(),
            first + rows.len() - 1 == selected,
            now,
        )
    }
}

/// The lines of the monitor rows, the first at overall index `first`.
pub open spec fn monitor_section(rows: Seq<SchedulingMonitorRow>, first: int, selected: int) -> Seq<
    Seq<(Seq<char>, SpanStyle)>,
>
    decreases rows.len(),
{
    if rows.len() == 0 {
        seq![]
    } else {
        monitor_section(rows.drop_last(), first, selected) + monitor_row_spec(
            rows.last(),
            first + rows.len() - 1 == selected,
        )
    }
}

/// The lines of the loop rows, the first at overall index `first`.
pub open spec fn loop_section(rows: Seq<SchedulingLoopRow>, first: int, selected: int, now: Timestamp) -> Seq<
    Seq<(Seq<char>, SpanStyle)>,
>
    decreases rows.len(),
{
    if rows.len() == 0 {
        seq![]
    } else {
        loop_section(rows.drop_last(), first, selected, now) + loop_row_spec(
            rows.last(),
            first + rows.len() - 1 == selected,
            now,
        )
    }
}

/// A section: a blank line, its bold title with the count, then its rows,
/// or `  (none)` dimmed when there are none.
pub open spec fn section(title: Seq<char>, count: nat, rows: Seq<Seq<(Seq<char>, SpanStyle)>>) -> Seq<
    Seq<(Seq<char>, SpanStyle)>,
> {
    seq![blank_line(), bold_line(title + " ("@ + decimal(count) + ")"@)] + if count == 0 {
        seq![dim_line("  (none)"@)]
    } else {
        rows
    }
}

/// What the list shows: `Loading…` before a snapshot, a notice when
/// scheduling is off, else the cron, monitor and loop sections with the
/// selected row marked.
pub open spec fn list_body_spec(v: SchedulingView, now: Timestamp) -> Seq<Seq<(Seq<char>, SpanStyle)>> {
    match v.snapshot {
        None => seq![blank_line(), dim_line("Loading…"@)],
        Some(s) => if !s.scheduling_enabled {
            seq![blank_line(), dim_line("Scheduling is not enabled. Toggle it on in /experimental."@)]
        } else {
            let sel = clamped(v.selected_index as nat, v.rows().len()) as int;
            let nc = s.cron_jobs@.len();
            let nm = s.monitors@.len();
            section("Cron"@, nc, cron_section(s.cron_jobs@, 0, sel, now)) + section(
                "Monitors"@,
                nm,
                monitor_section(s.monitors@, nc as int, sel),
            ) + section("Loops"@, s.loops@.len(), loop_section(s.loops@, (nc + nm) as int, sel, now))
        },
    }
}


/// A line of one plain piece.
pub open spec fn plain_line(text: Seq<char>) -> Seq<(Seq<char>, SpanStyle)> {
    seq![(text, SpanStyle::Plain)]
}

/// The name of a kind of task as headings show it.
pub open spec fn kind_title(kind: SchedulingTaskKind) -> Seq<char> {
    match kind {
        SchedulingTaskKind::Cron => "Cron"@,
        SchedulingTaskKind::Monitor => "Monitor"@,
        SchedulingTaskKind::Loop => "Loop"@,
    }
}

/// The first index at or after `from` whose id is `id`.
pub open spec fn find_id(ids: Seq<Seq<char>>, id: Seq<char>, from: int) -> Option<int>
    decreases ids.len() - from,
{
    if from < 0 || from >= ids.len() {
        None
    } else if ids[from] == id {
        Some(from)
    } else {
        find_id(ids, id, from + 1)
    }
}

pub open spec fn cron_ids(rows: Seq<SchedulingCronRow>) -> Seq<Seq<char>> {
    rows.map_values(|r: SchedulingCronRow| r.task_id@)
}

pub open spec fn monitor_ids(rows: Seq<SchedulingMonitorRow>) -> Seq<Seq<char>> {
    rows.map_values(|r: SchedulingMonitorRow| r.task_id@)
}

pub open spec fn loop_ids(rows: Seq<SchedulingLoopRow>) -> Seq<Seq<char>> {
    rows.map_values(|r: SchedulingLoopRow| r.task_id@)
}

/// The heading and the fields every detail view starts with.
pub open spec fn detail_head(kind: SchedulingTaskKind, id: Seq<char>, status: Seq<char>) -> Seq<
    Seq<(Seq<char>, SpanStyle)>,
> {
    seq![
        blank_line(),
        bold_line(kind_title(kind) + " · "@ + short_id(id)),
        plain_line("id "@ + id),
        plain_line("status "@ + status),
    ]
}

/// One output line of the tail, tagged with its stream.
pub open spec fn tail_line(e: (Seq<char>, Seq<char>)) -> Seq<(Seq<char>, SpanStyle)> {
    plain_line("["@ + e.0 + "] "@ + e.1)
}

pub open spec fn tail_view(tail: Seq<(String, String)>) -> Seq<(Seq<char>, Seq<char>)> {
    tail.map_values(|e: (String, String)| (e.0@, e.1@))
}

/// The detail view of a monitor: its fields, its full command, and the
/// recent output, each line tagged with its stream.
pub open spec fn monitor_detail(row: SchedulingMonitorRow, tail: Seq<(Seq<char>, Seq<char>)>) -> Seq<
    Seq<(Seq<char>, SpanStyle)>,
> {
    detail_head(SchedulingTaskKind::Monitor, row.task_id@, row.status@) + seq![
        plain_line("lines "@ + decimal(row.lines_emitted as nat)),
        plain_line("command: "@ + row.command@),
        blank_line(),
        bold_line("Recent output tail:"@),
    ] + if tail.len() == 0 {
        seq![dim_line("  (none)"@)]
    } else {
        tail.map_values(|e: (Seq<char>, Seq<char>)| tail_line(e))
    }
}

/// The detail view of a cron job: its fields, schedule and full prompt.
pub open spec fn cron_detail(row: SchedulingCronRow) -> Seq<Seq<(Seq<char>, SpanStyle)>> {
    detail_head(SchedulingTaskKind::Cron, row.task_id@, row.status@) + seq![
        plain_line("fired "@ + decimal(row.fire_count as nat)),
        plain_line("schedule: "@ + row.cron_expr@),
        plain_line("prompt: "@ + row.prompt@),
    ]
}

/// The detail view of a loop: its fields, pacing and full prompt.
pub open spec fn loop_detail(row: SchedulingLoopRow) -> Seq<Seq<(Seq<char>, SpanStyle)>> {
    detail_head(SchedulingTaskKind::Loop, row.task_id@, row.status@) + seq![
        plain_line("iter "@ + decimal(row.iteration_count as nat)),
        plain_line("every "@ + interval_label(row.interval_seconds)),
        plain_line("prompt: "@ + row.prompt@),
    ]
}

/// What a detail view shows when its task is no longer in the snapshot.
pub open spec fn gone_detail(id: Seq<char>) -> Seq<Seq<(Seq<char>, SpanStyle)>> {
    seq![blank_line(), dim_line("Task "@ + id + " is no longer listed."@)]
}

/// The detail view of the task `id` of `kind` in the snapshot `s`.
pub open spec fn detail_body(
    s: SchedulingTasksSnapshotEvent,
    kind: SchedulingTaskKind,
    id: Seq<char>,
    tail: Seq<(Seq<char>, Seq<char>)>,
) -> Seq<Seq<(Seq<char>, SpanStyle)>> {
    match kind {
        SchedulingTaskKind::Cron => match find_id(cron_ids(s.cron_jobs@), id, 0) {
            Some(i) => cron_detail(s.cron_jobs@[i]),
            None => gone_detail(id),
        },
        SchedulingTaskKind::Monitor => match find_id(monitor_ids(s.monitors@), id, 0) {
            Some(i) => monitor_detail(s.monitors@[i], tail),
            None => gone_detail(id),
        },
        SchedulingTaskKind::Loop => match find_id(loop_ids(s.loops@), id, 0) {
            Some(i) => loop_detail(s.loops@[i]),
            None => gone_detail(id),
        },
    }
}

/// What the panel's body shows: the detail view when one is open, else
/// the list.
pub open spec fn body_spec(v: SchedulingView, now: Timestamp) -> Seq<Seq<(Seq<char>, SpanStyle)>> {
    match v.detail_of() {
        Some(d) => match v.snapshot {
            Some(s) => detail_body(s, d.0, d.1, tail_view(v.detail_tail@)),
            None => list_body_spec(v, now),
        },
        None => list_body_spec(v, now),
    }
}


fn find_cron(rows: &Vec<SchedulingCronRow>, id: &str) -> (r: Option<usize>)
    ensures
        match r {
            Some(i) => i < rows@.len() && find_id(cron_ids(rows@), id@, 0) == Some(i as int),
            None => find_id(cron_ids(rows@), id@, 0) is None,
        },
{
    let mut i: usize = 0;
    while i < rows.len()
        invariant
            i <= rows@.len(),
            find_id(cron_ids(rows@), id@, i as int) == find_id(cron_ids(rows@), id@, 0),
        decreases rows@.len() - i,
    {
        assert(cron_ids(rows@)[i as int] == rows@[i as int].task_id@);
        if crate::text::same_text(rows[i].task_id.as_str(), id) {
            return Some(i);
        }
        i += 1;
    }
    None
}

fn find_monitor(rows: &Vec<SchedulingMonitorRow>, id: &str) -> (r: Option<usize>)
    ensures
        match r {
            Some(i) => i < rows@.len() && find_id(monitor_ids(rows@), id@, 0) == Some(i as int),
            None => find_id(monitor_ids(rows@), id@, 0) is None,
        },
{
    let mut i: usize = 0;
    while i < rows.len()
        invariant
            i <= rows@.len(),
            find_id(monitor_ids(rows@), id@, i as int) == find_id(monitor_ids(rows@), id@, 0),
        decreases rows@.len() - i,
    {
        assert(monitor_ids(rows@)[i as int] == rows@[i as int].task_id@);
        if crate::text::same_text(rows[i].task_id.as_str(), id) {
            return Some(i);
        }
        i += 1;
    }
    None
}

fn find_loop(rows: &Vec<SchedulingLoopRow>, id: &str) -> (r: Option<usize>)
    ensures
        match r {
            Some(i) => i < rows@.len() && find_id(loop_ids(rows@), id@, 0) == Some(i as int),
            None => find_id(loop_ids(rows@), id@, 0) is None,
        },
{
    let mut i: usize = 0;
    while i < rows.len()
        invariant
            i <= rows@.len(),
            find_id(loop_ids(rows@), id@, i as int) == find_id(loop_ids(rows@), id@, 0),
        decreases rows@.len() - i,
    {
        assert(loop_ids(rows@)[i as int] == rows@[i as int].task_id@);
        if crate::text::same_text(rows[i].task_id.as_str(), id) {
            return Some(i);
        }
        i += 1;
    }
    None
}

/// A plain line: `label` followed by `value`.
fn labeled_line(label: &str, value: &str) -> (r: Vec<Span>)
    ensures
        line_view(r@) == plain_line(label@ + value@),
{
    let mut t = label.to_owned();
    t.append(value);
    one_span(t, SpanStyle::Plain)
}

fn detail_head_lines(kind: SchedulingTaskKind, id: &str, status: &str) -> (r: Vec<Vec<Span>>)
    ensures
        lines_view(r@) == detail_head(kind, id@, status@),
{
    let mut title = match kind {
        SchedulingTaskKind::Cron => "Cron".to_owned(),
        SchedulingTaskKind::Monitor => "Monitor".to_owned(),
        SchedulingTaskKind::Loop => "Loop".to_owned(),
    };
    title.append(" · ");
    let short = short_task_id(id);
    title.append(short.as_str());
    let mut v: Vec<Vec<Span>> = Vec::new();
    v.push(one_span(String::new(), SpanStyle::Plain));
    v.push(one_span(title, SpanStyle::Bold));
    v.push(labeled_line("id ", id));
    v.push(labeled_line("status ", status));
    proof {
        assert(lines_view(v@) =~= detail_head(kind, id@, status@));
    }
    v
}

fn monitor_detail_lines(row: &SchedulingMonitorRow, tail: &Vec<(String, String)>) -> (r: Vec<Vec<Span>>)
    ensures
        lines_view(r@) == monitor_detail(*row, tail_view(tail@)),
{
    let mut v = detail_head_lines(SchedulingTaskKind::Monitor, row.task_id.as_str(), row.status.as_str());
    let count = decimal_string(row.lines_emitted);
    let ghost head = lines_view(v@);
    v.push(labeled_line("lines ", count.as_str()));
    v.push(labeled_line("command: ", row.command.as_str()));
    v.push(one_span(String::new(), SpanStyle::Plain));
    v.push(one_span("Recent output tail:".to_owned(), SpanStyle::Bold));
    let ghost fields = head + seq![
        plain_line("lines "@ + decimal(row.lines_emitted as nat)),
        plain_line("command: "@ + row.command@),
        blank_line(),
        bold_line("Recent output tail:"@),
    ];
    assert(lines_view(v@) =~= fields);
    let ghost tv = tail_view(tail@);
    if tail.len() == 0 {
        v.push(one_span("  (none)".to_owned(), SpanStyle::Dim));
        proof {
            assert(lines_view(v@) =~= monitor_detail(*row, tv));
        }
        return v;
    }
    let ghost all = tv.map_values(|e: (Seq<char>, Seq<char>)| tail_line(e));
    let mut i: usize = 0;
    while i < tail.len()
        invariant
            i <= tail@.len(),
            tv == tail_view(tail@),
            all == tv.map_values(|e: (Seq<char>, Seq<char>)| tail_line(e)),
            lines_view(v@) == fields + all.take(i as int),
        decreases tail@.len() - i,
    {
        let mut t = "[".to_owned();
        t.append(tail[i].0.as_str());
        t.append("] ");
        t.append(tail[i].1.as_str());
        let ghost before = lines_view(v@);
        v.push(one_span(t, SpanStyle::Plain));
        proof {
            assert(tv[i as int] == (tail@[i as int].0@, tail@[i as int].1@));
            assert(all[i as int] == tail_line(tv[i as int]));
            assert(lines_view(v@) =~= before.push(all[i as int]));
            assert(all.take(i + 1) =~= all.take(i as int).push(all[i as int]));
        }
        i += 1;
    }
    proof {
        assert(all.take(tail@.len() as int) =~= all);
        assert(lines_view(v@) =~= monitor_detail(*row, tv));
    }
    v
}

fn cron_detail_lines(row: &SchedulingCronRow) -> (r: Vec<Vec<Span>>)
    ensures
        lines_view(r@) == cron_detail(*row),
{
    let mut v = detail_head_lines(SchedulingTaskKind::Cron, row.task_id.as_str(), row.status.as_str());
    let count = decimal_string(row.fire_count);
    v.push(labeled_line("fired ", count.as_str()));
    v.push(labeled_line("schedule: ", row.cron_expr.as_str()));
    v.push(labeled_line("prompt: ", row.prompt.as_str()));
    proof {
        assert(lines_view(v@) =~= cron_detail(*row));
    }
    v
}

fn loop_detail_lines(row: &SchedulingLoopRow) -> (r: Vec<Vec<Span>>)
    ensures
        lines_view(r@) == loop_detail(*row),
{
    let mut v = detail_head_lines(SchedulingTaskKind::Loop, row.task_id.as_str(), row.status.as_str());
    let count = decimal_string(row.iteration_count);
    v.push(labeled_line("iter ", count.as_str()));
    let interval = match row.interval_seconds {
        Some(s) => {
            let mut t = decimal_string(s);
            t.append("s");
            t
        },
        None => "dynamic".to_owned(),
    };
    v.push(labeled_line("every ", interval.as_str()));
    v.push(labeled_line("prompt: ", row.prompt.as_str()));
    proof {
        assert(lines_view(v@) =~= loop_detail(*row));
    }
    v
}

/// The lines of the detail view of the task `id` of `kind`.
pub fn detail_lines(
    snap: &SchedulingTasksSnapshotEvent,
    kind: SchedulingTaskKind,
    id: &str,
    tail: &Vec<(String, String)>,
) -> (r: Vec<Vec<Span>>)
    ensures
        lines_view(r@) == detail_body(*snap, kind, id@, tail_view(tail@)),
{
    let found = match kind {
        SchedulingTaskKind::Cron => match find_cron(&snap.cron_jobs, id) {
            Some(i) => Some(cron_detail_lines(&snap.cron_jobs[i])),
            None => None,
        },
        SchedulingTaskKind::Monitor => match find_monitor(&snap.monitors, id) {
            Some(i) => Some(monitor_detail_lines(&snap.monitors[i], tail)),
            None => None,
        },
        SchedulingTaskKind::Loop => match find_loop(&snap.loops, id) {
            Some(i) => Some(loop_detail_lines(&snap.loops[i])),
            None => None,
        },
    };
    match found {
        Some(v) => v,
        None => {
            let mut t = "Task ".to_owned();
            t.append(id);
            t.append(" is no longer listed.");
            let mut v: Vec<Vec<Span>> = Vec::new();
            v.push(one_span(String::new(), SpanStyle::Plain));
            v.push(dim_line_of(t));
            proof {
                assert(lines_view(v@) =~= gone_detail(id@));
            }
            v
        },
    }
}

fn section_head(out: &mut Vec<Vec<Span>>, title: &str, count: usize)
    ensures
        lines_view(final(out)@) == lines_view(old(out)@) + seq![
            blank_line(),
            bold_line(title@ + " ("@ + decimal(count as nat) + ")"@),
        ],
{
    let ghost before = lines_view(out@);
    out.push(one_span(String::new(), SpanStyle::Plain));
    let mut t = title.to_owned();
    t.append(" (");
    let d = decimal_string(count as u64);
    t.append(d.as_str());
    t.append(")");
    out.push(one_span(t, SpanStyle::Bold));
    proof {
        assert(lines_view(out@) =~= before + seq![
            blank_line(),
            bold_line(title@ + " ("@ + decimal(count as nat) + ")"@),
        ]);
    }
}

fn push_lines(out: &mut Vec<Vec<Span>>, more: Vec<Vec<Span>>)
    ensures
        lines_view(final(out)@) == lines_view(old(out)@) + lines_view(more@),
{
    let mut more = more;
    let ghost a = out@;
    let ghost b = more@;
    out.append(&mut more);
    proof {
        assert(out@ =~= a + b);
        assert(lines_view(a + b) =~= lines_view(a) + lines_view(b));
    }
}

impl SchedulingView {
    /// The header lines: a bold title and a dim subtitle.
    pub fn header_lines(&self) -> (r: Vec<Vec<Span>>)
        ensures
            lines_view(r@) == seq![
                bold_line("Scheduling tasks in this session"@),
                dim_line("Active cron jobs and monitors for this thread."@),
            ],
    {
        let mut v: Vec<Vec<Span>> = Vec::new();
        v.push(one_span("Scheduling tasks in this session".to_owned(), SpanStyle::Bold));
        v.push(one_span("Active cron jobs and monitors for this thread.".to_owned(), SpanStyle::Dim));
        proof {
            assert(lines_view(v@) =~= seq![
                bold_line("Scheduling tasks in this session"@),
                dim_line("Active cron jobs and monitors for this thread."@),
            ]);
        }
        v
    }

    /// The body lines, relative times taken against `now`.
    pub fn body_lines(&self, now: Timestamp) -> (r: Vec<Vec<Span>>)
        ensures
            lines_view(r@) == body_spec(*self, now),
    {
        if let Some(d) = &self.detail {
            if let Some(snap) = &self.snapshot {
                return detail_lines(snap, d.0, d.1.as_str(), &self.detail_tail);
            }
        }
        let mut out: Vec<Vec<Span>> = Vec::new();
        match &self.snapshot {
            None => {
                out.push(one_span(String::new(), SpanStyle::Plain));
                out.push(one_span("Loading…".to_owned(), SpanStyle::Dim));
                proof {
                    assert(lines_view(out@) =~= body_spec(*self, now));
                }
                out
            },
            Some(snap) => {
                if !snap.scheduling_enabled {
                    out.push(one_span(String::new(), SpanStyle::Plain));
                    out.push(
                        one_span(
                            "Scheduling is not enabled. Toggle it on in /experimental.".to_owned(),
                            SpanStyle::Dim,
                        ),
                    );
                    proof {
                        assert(lines_view(out@) =~= body_spec(*self, now));
                    }
                    return out;
                }
                let selected = self.clamped_selected_index();
                let nc = snap.cron_jobs.len();
                let nm = snap.monitors.len();
                let nl = snap.loops.len();
                let ghost sel = selected as int;
                proof {
                    assert(lines_view(out@) =~= seq![]);
                }
                section_head(&mut out, "Cron", nc);
                if nc == 0 {
                    let ghost before = lines_view(out@);
                    out.push(one_span("  (none)".to_owned(), SpanStyle::Dim));
                    proof {
                        assert(lines_view(out@) =~= before.push(dim_line("  (none)"@)));
                    }
                } else {
                    let ghost base = lines_view(out@);
                    let mut i: usize = 0;
                    while i < nc
                        invariant
                            nc == snap.cron_jobs@.len(),
                            i <= nc,
                            lines_view(out@) == base + cron_section(snap.cron_jobs@.take(i as int), 0, sel, now),
                            sel == selected as int,
                        decreases nc - i,
                    {
                        proof {
                            assert(snap.cron_jobs@.take(i + 1).drop_last() =~= snap.cron_jobs@.take(i as int));
                        }
                        let lines = cron_row_lines(&snap.cron_jobs[i], i == selected, now);
                        let ghost lv = lines_view(lines@);
                        let ghost prev = lines_view(out@);
                        push_lines(&mut out, lines);
                        proof {
                            assert(lines_view(out@) =~= base + (cron_section(snap.cron_jobs@.take(i as int), 0, sel, now) + lv));
                        }
                        i += 1;
                    }
                    assert(snap.cron_jobs@.take(nc as int) =~= snap.cron_jobs@);
                }
                proof {
                    assert(lines_view(out@) =~= section("Cron"@, nc as nat, cron_section(snap.cron_jobs@, 0, sel, now)));
                }
                let ghost p1 = lines_view(out@);
                section_head(&mut out, "Monitors", nm);
                if nm == 0 {
                    let ghost before = lines_view(out@);
                    out.push(one_span("  (none)".to_owned(), SpanStyle::Dim));
                    proof {
                        assert(lines_view(out@) =~= before.push(dim_line("  (none)"@)));
                    }
                } else {
                    let ghost base = lines_view(out@);
                    let mut i: usize = 0;
                    while i < nm
                        invariant
                            nm == snap.monitors@.len(),
                            nc == snap.cron_jobs@.len(),
                            i <= nm,
                            lines_view(out@) == base + monitor_section(snap.monitors@.take(i as int), nc as int, sel),
                            sel == selected as int,
                        decreases nm - i,
                    {
                        proof {
                            assert(snap.monitors@.take(i + 1).drop_last() =~= snap.monitors@.take(i as int));
                        }
                        let lines = monitor_row_lines(&snap.monitors[i], selected >= nc && selected - nc == i);
                        let ghost lv = lines_view(lines@);
                        push_lines(&mut out, lines);
                        proof {
                            assert(lines_view(out@) =~= base + (monitor_section(snap.monitors@.take(i as int), nc as int, sel) + lv));
                        }
                        i += 1;
                    }
                    assert(snap.monitors@.take(nm as int) =~= snap.monitors@);
                    assert(lines_view(out@) == base + monitor_section(snap.monitors@, nc as int, sel));
                }
                proof {
                    assert(lines_view(out@) =~= p1 + section("Monitors"@, nm as nat, monitor_section(snap.monitors@, nc as int, sel)));
                }
                let ghost p2 = lines_view(out@);
                section_head(&mut out, "Loops", nl);
                if nl == 0 {
                    let ghost before = lines_view(out@);
                    out.push(one_span("  (none)".to_owned(), SpanStyle::Dim));
                    proof {
                        assert(lines_view(out@) =~= before.push(dim_line("  (none)"@)));
                    }
                } else {
                    let ghost base = lines_view(out@);
                    let mut i: usize = 0;
                    while i < nl
                        invariant
                            nl == snap.loops@.len(),
                            nc == snap.cron_jobs@.len(),
                            nm == snap.monitors@.len(),
                            i <= nl,
                            lines_view(out@) == base + loop_section(snap.loops@.take(i as int), (nc + nm) as int, sel, now),
                            sel == selected as int,
                        decreases nl - i,
                    {
                        proof {
                            assert(snap.loops@.take(i + 1).drop_last() =~= snap.loops@.take(i as int));
                        }
                        let lines = loop_row_lines(&snap.loops[i], selected >= nc && selected - nc >= nm && selected - nc - nm == i, now);
                        let ghost lv = lines_view(lines@);
                        push_lines(&mut out, lines);
                        proof {
                            assert(lines_view(out@) =~= base + (loop_section(snap.loops@.take(i as int), (nc + nm) as int, sel, now) + lv));
                        }
                        i += 1;
                    }
                    assert(snap.loops@.take(nl as int) =~= snap.loops@);
                }
                proof {
                    assert(lines_view(out@) =~= p2 + section("Loops"@, nl as nat, loop_section(snap.loops@, (nc + nm) as int, sel, now)));
                    assert(lines_view(out@) =~= body_spec(*self, now));
                }
                out
            },
        }
    }
}

} // verus!
