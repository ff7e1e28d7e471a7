//! The cron tools: `cron_create` / `cron_delete`, which schedule through the
//! user's crontab, and `cron_create_session` / `cron_list_session` /
//! `cron_delete_session`, which keep jobs in the session's registry.
//! Decoding arguments, writing the crontab and encoding replies is the
//! host's part; these are the decisions and the replies' contents.

use vstd::prelude::*;
use vstd::string::StrSliceExecFns;
use vstd::string::StringExecFns;
use crate::cron_job::cron_accepts;
use crate::cron_job::cron_parse_error;
use crate::cron_job::fresh_cron_job;
use crate::cron_job::fresh_job_with;
use crate::cron_job::tz_offset;
use crate::cron_job::CronJob;
use crate::os_cron::os_cron_error_text;
use crate::os_cron::six_field_to_five;
use crate::os_cron::six_to_five_result;
use crate::registry::with_first_fire;
use crate::registry::CronRegistry;
use crate::table::lookup;
use crate::table::remove_key;
use crate::table::upsert;
use crate::task::status_name;
use crate::task::TaskId;
use crate::text::words;
use crate::timestamp::parse_rfc3339;
use crate::timestamp::rfc3339_parse;
use crate::timestamp::Timestamp;
use crate::timestamp::MAX_SECS;
use crate::timestamp::MIN_SECS;
use crate::tools::not_enabled_message;
use crate::tools::not_enabled_text;
use crate::tools::opt_rfc3339;
use crate::tools::opt_to_rfc3339;
use crate::tools::opt_view;
use crate::tools::ToolKind;

verus! {

/// Arguments of `cron_create` and `cron_create_session`.
#[derive(Debug)]
pub struct CronCreateArgs {
    pub cron_expr: String,
    pub prompt: String,
    /// Fire silently (the default).
    pub background: bool,
    /// Stop after this many firings (`None` = forever).
    pub max_firings: Option<u64>,
    /// Stop firing after this RFC 3339 instant.
    pub until: Option<String>,
    /// UTC offset the expression is read at as wall-clock time (`+07:00`,
    /// `-05:00`, `Z`; `None` = UTC).
    pub timezone: Option<String>,
}

/// Arguments of `cron_delete` and `cron_delete_session`.
#[derive(Debug)]
pub struct CronDeleteArgs {
    pub task_id: String,
}

/// Reply of `cron_create`.
#[derive(Debug)]
pub struct CronCreateResponse {
    pub task_id: String,
    pub next_fire_at: Option<String>,
    pub log_path: String,
}

/// Reply of `cron_delete` and `cron_delete_session`.
#[derive(Debug)]
pub struct CronDeleteResponse {
    pub deleted: bool,
}

/// Reply of `cron_create_session`.
#[derive(Debug)]
pub struct CronSessionCreateResponse {
    pub task_id: String,
    pub next_fire_at: Option<String>,
}

/// One job as `cron_list_session` reports it.
#[derive(Debug)]
pub struct CronSessionJobSummary {
    pub task_id: String,
    pub cron_expr: String,
    pub prompt: String,
    pub status: String,
    pub next_fire_at: Option<String>,
    pub last_fired_at: Option<String>,
    pub fire_count: u64,
}

/// Reply of `cron_list_session`.
#[derive(Debug)]
pub struct CronSessionListResponse {
    pub jobs: Vec<CronSessionJobSummary>,
}

/// The expression the `cron` crate is given: a 5-field expression gets a
/// `0` seconds field in front; any other is taken as it is.
pub open spec fn normalized_expr(expr: Seq<char>) -> Seq<char> {
    if words(expr).len() == 5 {
        "0 "@ + expr
    } else {
        expr
    }
}

pub fn normalize_cron_expr(expr: &str) -> (r: String)
    ensures
        r@ == normalized_expr(expr@),
{
    let parts = crate::text::split_whitespace(expr);
    if parts.len() == 5 {
        let mut s = "0 ".to_owned();
        s.append(expr);
        s
    } else {
        expr.to_owned()
    }
}

/// `prefix` followed by an error's text.
pub open spec fn rejected_text(prefix: Seq<char>, detail: Seq<char>) -> Seq<char> {
    prefix + detail
}

pub struct CronCreateHandler;

impl CronCreateHandler {
    pub fn tool_name(&self) -> (r: &'static str)
        ensures
            r@ == "cron_create"@,
    {
        crate::tools::CRON_CREATE_TOOL_NAME
    }

    pub fn kind(&self) -> (r: ToolKind)
        ensures
            r == ToolKind::Function,
    {
        ToolKind::Function
    }

    /// The job to write into the crontab: refused when scheduling is off,
    /// or with the conversion's error when the normalized expression cannot
    /// be written as a 5-field OS cron schedule.
    pub fn prepare(&self, scheduling_enabled: bool, args: CronCreateArgs) -> (r: Result<
        CronJob,
        String,
    >)
        ensures
            !scheduling_enabled ==> (r matches Err(m) && m@ == not_enabled_text()),
            scheduling_enabled ==> (r is Ok <==> (cron_accepts(normalized_expr(args.cron_expr@))
                && words(normalized_expr(args.cron_expr@)).len() == 6 && (words(
                normalized_expr(args.cron_expr@),
            )[0] == "0"@ || words(normalized_expr(args.cron_expr@))[0] == "*"@))),
            scheduling_enabled ==> (r matches Err(m) ==> exists|e: Result<String, crate::os_cron::OsCronError>|
                six_to_five_result(normalized_expr(args.cron_expr@), e) && (e matches Err(x) && m@
                == "cron_create rejected: "@ + os_cron_error_text(x))),
            r matches Ok(job) ==> fresh_cron_job(job, normalized_expr(args.cron_expr@), args.prompt@, true),
    {
        if !scheduling_enabled {
            return Err(not_enabled_message());
        }
        let normalized = normalize_cron_expr(args.cron_expr.as_str());
        let checked = six_field_to_five(normalized.as_str());
        match checked {
            Err(e) => {
                let mut m = "cron_create rejected: ".to_owned();
                let t = e.message();
                m.append(t.as_str());
                return Err(m);
            },
            Ok(_) => {},
        }
        match CronJob::new(normalized, args.prompt) {
            Ok(job) => Ok(job),
            Err(e) => {
                let mut m = "cron_create rejected: ".to_owned();
                let t = e.message();
                m.append(t.as_str());
                Err(m)
            },
        }
    }

    /// The reply once the job is in the crontab.
    pub fn respond(&self, job: &CronJob, next_fire_at: Option<Timestamp>, log_path: String) -> (r:
        CronCreateResponse)
        ensures
            r.task_id@ == job.id@,
            opt_view(r.next_fire_at) == opt_rfc3339(next_fire_at),
            r.log_path@ == log_path@,
    {
        CronCreateResponse {
            task_id: job.id.as_str().to_owned(),
            next_fire_at: opt_to_rfc3339(next_fire_at),
            log_path,
        }
    }
}

pub struct CronDeleteHandler;

impl CronDeleteHandler {
    pub fn tool_name(&self) -> (r: &'static str)
        ensures
            r@ == "cron_delete"@,
    {
        crate::tools::CRON_DELETE_TOOL_NAME
    }

    pub fn kind(&self) -> (r: ToolKind)
        ensures
            r == ToolKind::Function,
    {
        ToolKind::Function
    }

    /// The id of the crontab block to remove, refused when scheduling is off.
    pub fn target(&self, scheduling_enabled: bool, args: CronDeleteArgs) -> (r: Result<
        TaskId,
        String,
    >)
        ensures
            !scheduling_enabled ==> (r matches Err(m) && m@ == not_enabled_text()),
            scheduling_enabled ==> (r matches Ok(id) && id@ == args.task_id@),
    {
        if !scheduling_enabled {
            return Err(not_enabled_message());
        }
        Ok(TaskId::from_string(args.task_id))
    }
}

/// The message for an `until` that is not RFC 3339.
pub open spec fn until_message(detail: Seq<char>) -> Seq<char> {
    "cron_create_session: `until` must be RFC3339 (e.g. \"2026-05-16T17:00:00Z\"): "@ + detail
}

/// What `cron_create_session` at `now` gives and does to a registry
/// holding `before` (afterwards `after`): refused, with the registry
/// untouched, when scheduling is off, when `until` is not RFC 3339, when
/// the expression is not a schedule, or when `timezone` is not a UTC
/// offset; otherwise a fresh pending job stored with its cap, end and
/// offset and its first firing after `now` that they allow, the reply
/// carrying its id and that firing.
pub open spec fn session_created(
    scheduling_enabled: bool,
    before: Seq<CronJob>,
    after: Seq<CronJob>,
    args: CronCreateArgs,
    now: Timestamp,
    r: Result<CronSessionCreateResponse, String>,
) -> bool {
    &&& !scheduling_enabled ==> (r matches Err(m) && m@ == not_enabled_text())
    &&& scheduling_enabled && (args.until matches Some(u) && rfc3339_parse(u@) is Err) ==> (r matches Err(
        m,
    ) && (rfc3339_parse(args.until->0@) matches Err(d) && m@ == until_message(d)))
    &&& scheduling_enabled && !(args.until matches Some(u) && rfc3339_parse(u@) is Err) && cron_parse_error(
        args.cron_expr@,
    ) is Some ==> (r matches Err(m) && m@ == "cron_create_session rejected: "@ + ("invalid cron expression: "@
        + cron_parse_error(args.cron_expr@)->0))
    &&& scheduling_enabled && !(args.until matches Some(u) && rfc3339_parse(u@) is Err) && cron_accepts(
        args.cron_expr@,
    ) ==> (tz_offset(opt_view(args.timezone)) matches Err(d) ==> (r matches Err(m) && m@
        == "cron_create_session rejected: "@ + ("invalid timezone offset: "@ + d)))
    &&& r is Err ==> after == before
    &&& r is Ok <==> session_create_accepted(scheduling_enabled, args)
    &&& r matches Ok(resp) ==> exists|job: CronJob|
        {
            &&& fresh_job_with(
                job,
                args.cron_expr@,
                args.prompt@,
                args.background,
                args.max_firings,
                until_of(args.until),
                job.utc_offset,
            )
            &&& tz_offset(opt_view(args.timezone)) == Ok::<Option<i32>, Seq<char>>(job.utc_offset)
            &&& after == upsert(before, with_first_fire(job, now))
            &&& resp.task_id@ == job.id@
            &&& opt_view(resp.next_fire_at) == opt_rfc3339(with_first_fire(job, now).next_fire_at)
        }
}

pub struct CronSessionCreateHandler;

impl CronSessionCreateHandler {
    pub fn tool_name(&self) -> (r: &'static str)
        ensures
            r@ == "cron_create_session"@,
    {
        crate::tools::CRON_SESSION_CREATE_TOOL_NAME
    }

    pub fn kind(&self) -> (r: ToolKind)
        ensures
            r == ToolKind::Function,
    {
        ToolKind::Function
    }

    /// Adds a job to the session's registry at `now`. Refused, with the
    /// registry untouched, when scheduling is off, when `until` is not RFC
    /// 3339, when the expression is not a schedule, or when `timezone` is
    /// not a UTC offset. Otherwise a fresh pending job is stored with its
    /// cap, end and offset and its first firing after `now` that they allow
    /// (see `with_first_fire`), and the reply carries its id and that
    /// firing.
    pub fn handle(
        &self,
        scheduling_enabled: bool,
        registry: &mut CronRegistry,
        args: CronCreateArgs,
        now: Timestamp,
    ) -> (r: Result<CronSessionCreateResponse, String>)
        requires
            session_create_accepted(scheduling_enabled, args) && args.max_firings != Some(0u64) ==> (
            tz_offset(opt_view(args.timezone)) matches Ok(o) && offset_room(o, now)),
        ensures
            session_created(scheduling_enabled, old(registry)@, final(registry)@, args, now, r),
    {
        if !scheduling_enabled {
            return Err(not_enabled_message());
        }
        let until = match &args.until {
            Some(u) => {
                match parse_rfc3339(u.as_str()) {
                    Err(e) => {
                        let mut m = "cron_create_session: `until` must be RFC3339 (e.g. \"2026-05-16T17:00:00Z\"): ".to_owned();
                        m.append(e.as_str());
                        return Err(m);
                    },
                    Ok(t) => Some(t),
                }
            },
            None => None,
        };
        let job = match CronJob::new_with_full_options(
            args.cron_expr,
            args.prompt,
            args.background,
            args.max_firings,
            until,
            args.timezone,
        ) {
            Ok(j) => j,
            Err(e) => {
                let mut m = "cron_create_session rejected: ".to_owned();
                let t = e.message();
                m.append(t.as_str());
                return Err(m);
            },
        };
        let ghost stored = job;
        registry.check_wf();
        let id = registry.insert(job, now);
        proof {
            crate::table::law_lookup_after_upsert(old(registry)@, with_first_fire(stored, now), id@);
        }
        let next = match registry.get(&id) {
            Some(j) => j.next_fire_at,
            None => None,
        };
        Ok(CronSessionCreateResponse { task_id: id.as_str().to_owned(), next_fire_at: opt_to_rfc3339(next) })
    }

    /// `handle`, called only where the first firing can be looked up:
    /// when the request would be accepted and its cap allows a firing, but
    /// `now`, one second later and read at the timezone's offset, would
    /// leave chrono's range, nothing is done and `None` is returned.
    pub fn handle_checked(
        &self,
        scheduling_enabled: bool,
        registry: &mut CronRegistry,
        args: CronCreateArgs,
        now: Timestamp,
    ) -> (r: Option<Result<CronSessionCreateResponse, String>>)
        ensures
            r is None <==> (session_create_accepted(scheduling_enabled, args) && args.max_firings != Some(0u64)
                && !(tz_offset(opt_view(args.timezone)) matches Ok(o) && offset_room(o, now))),
            r is None ==> final(registry)@ == old(registry)@,
            r matches Some(res) ==> session_created(scheduling_enabled, old(registry)@, final(registry)@, args, now, res),
    {
        let until_ok = match &args.until {
            Some(u) => parse_rfc3339(u.as_str()).is_ok(),
            None => true,
        };
        let cron_ok = crate::cron_job::parse_cron(args.cron_expr.as_str()).is_ok();
        let offset: Result<Option<i32>, String> = match &args.timezone {
            None => Ok(None),
            Some(z) => {
                if crate::text::same_text(z.as_str(), "Z") {
                    Ok(None)
                } else {
                    match crate::timestamp::parse_utc_offset(z.as_str()) {
                        Ok(o) => Ok(Some(o)),
                        Err(e) => Err(e),
                    }
                }
            },
        };
        let zero_cap = match args.max_firings {
            Some(m) => m == 0,
            None => false,
        };
        let room = match offset {
            Ok(o) => has_offset_room(o, now),
            Err(_) => false,
        };
        if scheduling_enabled && until_ok && cron_ok && offset.is_ok() && !zero_cap && !room {
            return None;
        }
        Some(self.handle(scheduling_enabled, registry, args, now))
    }
}

/// `offset_room`, computed.
fn has_offset_room(o: Option<i32>, now: Timestamp) -> (r: bool)
    ensures
        r == offset_room(o, now),
{
    now.check_valid();
    if now.secs() >= MAX_SECS {
        return false;
    }
    match o {
        None => true,
        Some(x) => MIN_SECS <= now.secs() + x as i64 && now.secs() + (x as i64) < MAX_SECS,
    }
}

/// The instant an `until` argument names, when it is RFC 3339.
pub open spec fn until_of(until: Option<String>) -> Option<Timestamp> {
    match until {
        Some(u) => match rfc3339_parse(u@) {
            Ok(t) => Some(t),
            Err(_) => None,
        },
        None => None,
    }
}

/// `cron_create_session` goes ahead: scheduling is on, `until` (if given)
/// is RFC 3339, the expression is a schedule and `timezone` (if given) a
/// UTC offset.
pub open spec fn session_create_accepted(scheduling_enabled: bool, args: CronCreateArgs) -> bool {
    &&& scheduling_enabled
    &&& !(args.until matches Some(u) && rfc3339_parse(u@) is Err)
    &&& cron_accepts(args.cron_expr@)
    &&& tz_offset(opt_view(args.timezone)) is Ok
}

/// The first firing after `now` can be looked up for a job at the offset
/// `o`: `now` leaves chrono a later second and, read at the offset, stays
/// in chrono's range.
pub open spec fn offset_room(o: Option<i32>, now: Timestamp) -> bool {
    &&& now.sec() < MAX_SECS
    &&& o matches Some(x) ==> (MIN_SECS <= now.sec() + x && now.sec() + x < MAX_SECS)
}

/// A job as `cron_list_session` reports it.
pub open spec fn summary_matches(s: CronSessionJobSummary, j: CronJob) -> bool {
    &&& s.task_id@ == j.id@
    &&& s.cron_expr@ == j.cron_expr@
    &&& s.prompt@ == j.prompt@
    &&& s.status@ == status_name(j.status)
    &&& opt_view(s.next_fire_at) == opt_rfc3339(j.next_fire_at)
    &&& opt_view(s.last_fired_at) == opt_rfc3339(j.last_fired_at)
    &&& s.fire_count == j.fire_count
}

pub fn cron_session_summary(j: &CronJob) -> (r: CronSessionJobSummary)
    ensures
        summary_matches(r, *j),
{
    CronSessionJobSummary {
        task_id: j.id.as_str().to_owned(),
        cron_expr: j.cron_expr.clone(),
        prompt: j.prompt.clone(),
        status: j.status.name().to_owned(),
        next_fire_at: opt_to_rfc3339(j.next_fire_at),
        last_fired_at: opt_to_rfc3339(j.last_fired_at),
        fire_count: j.fire_count,
    }
}

pub struct CronSessionListHandler;

impl CronSessionListHandler {
    pub fn tool_name(&self) -> (r: &'static str)
        ensures
            r@ == "cron_list_session"@,
    {
        crate::tools::CRON_SESSION_LIST_TOOL_NAME
    }

    pub fn kind(&self) -> (r: ToolKind)
        ensures
            r == ToolKind::Function,
    {
        ToolKind::Function
    }

    /// One summary per registered job, in registry order.
    pub fn handle(&self, scheduling_enabled: bool, registry: &CronRegistry) -> (r: Result<
        CronSessionListResponse,
        String,
    >)
        ensures
            !scheduling_enabled ==> (r matches Err(m) && m@ == not_enabled_text()),
            scheduling_enabled ==> (r matches Ok(resp) && resp.jobs@.len() == registry@.len() && forall|
                i: int,
            | 0 <= i < registry@.len() ==> summary_matches(#[trigger] resp.jobs@[i], registry@[i])),
    {
        if !scheduling_enabled {
            return Err(not_enabled_message());
        }
        let jobs = registry.list();
        let mut out: Vec<CronSessionJobSummary> = Vec::new();
        let n = jobs.len();
        let mut i: usize = 0;
        while i < n
            invariant
                n == jobs@.len(),
                jobs@ == registry@,
                i <= n,
                out@.len() == i,
                forall|k: int| 0 <= k < i ==> summary_matches(#[trigger] out@[k], jobs@[k]),
            decreases n - i,
        {
            out.push(cron_session_summary(&jobs[i]));
            i += 1;
        }
        Ok(CronSessionListResponse { jobs: out })
    }
}

pub struct CronSessionDeleteHandler;

impl CronSessionDeleteHandler {
    pub fn tool_name(&self) -> (r: &'static str)
        ensures
            r@ == "cron_delete_session"@,
    {
        crate::tools::CRON_SESSION_DELETE_TOOL_NAME
    }

    pub fn kind(&self) -> (r: ToolKind)
        ensures
            r == ToolKind::Function,
    {
        ToolKind::Function
    }

    /// Removes the job with the given id; the reply says whether there was
    /// one.
    pub fn handle(&self, scheduling_enabled: bool, registry: &mut CronRegistry, args: CronDeleteArgs) -> (r:
        Result<CronDeleteResponse, String>)
        ensures
            !scheduling_enabled ==> (r matches Err(m) && m@ == not_enabled_text() && final(registry)@
                == old(registry)@),
            scheduling_enabled ==> (r matches Ok(resp) && resp.deleted == lookup(old(registry)@, args.task_id@) is Some
                && final(registry)@ == remove_key(old(registry)@, args.task_id@)),
    {
        if !scheduling_enabled {
            return Err(not_enabled_message());
        }
        let id = TaskId::from_string(args.task_id);
        let removed = registry.remove(&id);
        Ok(CronDeleteResponse { deleted: removed.is_some() })
    }
}

} // verus!
