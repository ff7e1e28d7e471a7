//! `CronJob`: a recurring prompt fired on a cron schedule, scoped to the
//! enclosing agent session; and the calls into the `cron` crate that parse
//! schedules and find their next firing.

use vstd::prelude::*;
use crate::task::TaskId;
use crate::task::TaskStatus;
use crate::timestamp::Timestamp;
use crate::timestamp::utc_now;
use crate::timestamp::offset_parse;
use crate::timestamp::parse_utc_offset;
pub use crate::timestamp::cron_next;
pub(crate) use crate::timestamp::next_fire_after;
use vstd::string::StringExecFns;

verus! {

/// What `cron::Schedule::from_str` makes of an expression: `None` when it is
/// a schedule, else the text of the parse error.
pub uninterp spec fn cron_parse_error(expr: Seq<char>) -> Option<Seq<char>>;

/// The expression is a schedule the `cron` crate accepts.
pub open spec fn cron_accepts(expr: Seq<char>) -> bool {
    cron_parse_error(expr) is None
}



/// `cron::Schedule::from_str(expr)`: `Ok(())` when it parses, else the
/// `Display` text of the error. The outcome is named, not spelled out.
#[verifier::external_body]
pub(crate) fn parse_cron(expr: &str) -> (r: Result<(), String>)
    ensures
        r is Ok <==> cron_parse_error(expr@) is None,
        r matches Err(m) ==> cron_parse_error(expr@) == Some(m@),
{
    match <cron::Schedule as std::str::FromStr>::from_str(expr) {
        Ok(_) => Ok(()),
        Err(e) => Err(e.to_string()),
    }
}

/// Errors when building a cron job.
#[derive(Debug)]
pub enum CronError {
    InvalidExpression(String),
    InvalidTimezone(String),
}

impl CronError {
    /// The error's text: `invalid cron expression: <detail>` or `invalid
    /// timezone offset: <detail>`.
    pub fn message(&self) -> (r: String)
        ensures
            self matches CronError::InvalidExpression(d) ==> r@ == "invalid cron expression: "@
                + d@,
            self matches CronError::InvalidTimezone(d) ==> r@ == "invalid timezone offset: "@ + d@,
    {
        match self {
            CronError::InvalidExpression(d) => {
                let mut s = "invalid cron expression: ".to_owned();
                s.append(d.as_str());
                s
            },
            CronError::InvalidTimezone(d) => {
                let mut s = "invalid timezone offset: ".to_owned();
                s.append(d.as_str());
                s
            },
        }
    }
}

/// The UTC offset a `timezone` argument names: none for no argument or
/// `Z` (UTC), else what chrono's `FixedOffset` parser reads, or its error.
pub open spec fn tz_offset(tz: Option<Seq<char>>) -> Result<Option<i32>, Seq<char>> {
    match tz {
        None => Ok(None),
        Some(z) => if z == "Z"@ {
            Ok(None)
        } else {
            match offset_parse(z) {
                Ok(o) => Ok(Some(o)),
                Err(e) => Err(e),
            }
        },
    }
}

/// One scheduled, recurring prompt. The cron expression is validated at
/// construction; the other fields are bookkeeping that the registry and
/// persistence read and update.
#[derive(Debug)]
pub struct CronJob {
    pub id: TaskId,
    /// Validated 5- or 6-field cron expression.
    pub cron_expr: String,
    /// The prompt re-injected as a user message when the job fires.
    pub prompt: String,
    pub status: TaskStatus,
    pub created_at: Timestamp,
    pub last_fired_at: Option<Timestamp>,
    pub next_fire_at: Option<Timestamp>,
    pub fire_count: u64,
    /// Whether firings run silently (the host hides the agent's reply).
    pub background: bool,
    /// Stop after this many firings (`None` = no cap).
    pub max_firings: Option<u64>,
    /// No firing after this instant (`None` = no end).
    pub until: Option<Timestamp>,
    /// The UTC offset, in seconds east, at which the expression is read as
    /// wall-clock time (`None` = UTC).
    pub utc_offset: Option<i32>,
}

/// A job as made by `new_with_full_options`: a fresh id, pending, never
/// fired, with the given cap, end and offset.
pub open spec fn fresh_job_with(
    job: CronJob,
    cron_expr: Seq<char>,
    prompt: Seq<char>,
    background: bool,
    max_firings: Option<u64>,
    until: Option<Timestamp>,
    utc_offset: Option<i32>,
) -> bool {
    &&& crate::task::uuid_v4_text(job.id@)
    &&& job.cron_expr@ == cron_expr
    &&& job.prompt@ == prompt
    &&& job.status == TaskStatus::Pending
    &&& job.last_fired_at is None
    &&& job.next_fire_at is None
    &&& job.fire_count == 0
    &&& job.background == background
    &&& job.max_firings == max_firings
    &&& job.until == until
    &&& job.utc_offset == utc_offset
}

/// A job as made by `new` and `new_with_background`: no cap, no end, UTC.
pub open spec fn fresh_cron_job(
    job: CronJob,
    cron_expr: Seq<char>,
    prompt: Seq<char>,
    background: bool,
) -> bool {
    fresh_job_with(job, cron_expr, prompt, background, None, None, None)
}

impl Clone for CronJob {
    fn clone(&self) -> (r: CronJob)
        ensures
            r == *self,
    {
        CronJob {
            id: self.id.clone(),
            cron_expr: self.cron_expr.clone(),
            prompt: self.prompt.clone(),
            status: self.status,
            created_at: self.created_at,
            last_fired_at: self.last_fired_at,
            next_fire_at: self.next_fire_at,
            fire_count: self.fire_count,
            background: self.background,
            max_firings: self.max_firings,
            until: self.until,
            utc_offset: self.utc_offset,
        }
    }
}

impl CronJob {
    /// A new pending job, or `InvalidExpression` with the parser's message
    /// when `cron_expr` is not a schedule.
    pub fn new(cron_expr: String, prompt: String) -> (r: Result<CronJob, CronError>)
        ensures
            r is Ok <==> cron_accepts(cron_expr@),
            r matches Err(CronError::InvalidExpression(m)) ==> cron_parse_error(cron_expr@) == Some(m@),
            r matches Ok(job) ==> fresh_cron_job(job, cron_expr@, prompt@, true),
    {
        Self::new_with_background(cron_expr, prompt, true)
    }

    /// Like `new`, with the given background flag.
    pub fn new_with_background(cron_expr: String, prompt: String, background: bool) -> (r: Result<
        CronJob,
        CronError,
    >)
        ensures
            r is Ok <==> cron_accepts(cron_expr@),
            r matches Err(CronError::InvalidExpression(m)) ==> cron_parse_error(cron_expr@) == Some(
                m@,
            ),
            r matches Ok(job) ==> fresh_cron_job(job, cron_expr@, prompt@, background),
    {
        Self::new_with_full_options(cron_expr, prompt, background, None, None, None)
    }

    /// A new pending job firing at most `max_firings` times, not after
    /// `until`, with the expression read at the UTC offset `timezone` names
    /// (`+07:00`, `-05:00`, or `Z`; none = UTC). Refused with the parser's
    /// message when `cron_expr` is not a schedule, else when `timezone` is
    /// not an offset.
    pub fn new_with_full_options(
        cron_expr: String,
        prompt: String,
        background: bool,
        max_firings: Option<u64>,
        until: Option<Timestamp>,
        timezone: Option<String>,
    ) -> (r: Result<CronJob, CronError>)
        ensures
            r is Ok <==> cron_accepts(cron_expr@) && tz_offset(crate::tools::opt_view(timezone)) is Ok,
            !cron_accepts(cron_expr@) ==> (r matches Err(CronError::InvalidExpression(m))
                && cron_parse_error(cron_expr@) == Some(m@)),
            cron_accepts(cron_expr@) ==> (tz_offset(crate::tools::opt_view(timezone)) matches Err(d)
                ==> (r matches Err(CronError::InvalidTimezone(m)) && m@ == d)),
            r matches Ok(job) ==> fresh_job_with(job, cron_expr@, prompt@, background, max_firings, until, job.utc_offset)
                && tz_offset(crate::tools::opt_view(timezone)) == Ok::<Option<i32>, Seq<char>>(job.utc_offset)
                && (job.utc_offset matches Some(o) ==> -86_400 < o < 86_400),
    {
        match parse_cron(cron_expr.as_str()) {
            Err(m) => {
                return Err(CronError::InvalidExpression(m));
            },
            Ok(()) => {},
        }
        let utc_offset = match &timezone {
            None => None,
            Some(z) => {
                if crate::text::same_text(z.as_str(), "Z") {
                    None
                } else {
                    match parse_utc_offset(z.as_str()) {
                        Ok(o) => Some(o),
                        Err(e) => {
                            return Err(CronError::InvalidTimezone(e));
                        },
                    }
                }
            },
        };
        Ok(
            CronJob {
                id: TaskId::new(),
                cron_expr,
                prompt,
                status: TaskStatus::Pending,
                created_at: utc_now(),
                last_fired_at: None,
                next_fire_at: None,
                fire_count: 0,
                background,
                max_firings,
                until,
                utc_offset,
            },
        )
    }
}

} // verus!
