//! OS-level cron persistence. Each managed schedule lives as a two-line
//! block in the user's crontab:
//!
//! ```text
//! # ata-cron:<task_id> | created=<rfc3339>
//! <5-field-schedule> <ata-binary> exec - < <prompt-file> >> <log-file> 2>&1
//! ```
//!
//! This module holds the block format, the parsing of a crontab back into
//! entries, the edits made to a crontab's text, and the decisions taken on
//! what `crontab` and `which` report. Running those commands and touching
//! files is left to the host. OS cron has 1-minute granularity, so
//! sub-minute schedules are refused.

use vstd::prelude::*;
use vstd::string::StrSliceExecFns;
use vstd::string::StringExecFns;
use crate::cron_job::cron_accepts;
use crate::cron_job::cron_parse_error;
use crate::cron_job::parse_cron;
use crate::text::decimal;
use crate::text::decimal_string;
use crate::text::join;
use crate::text::join_strings;
use crate::text::replace_char;
use crate::text::replace_char_str;
use crate::text::same_text;
use crate::text::split_whitespace;
use crate::text::views;
use crate::text::words;
use crate::text::trim;
use crate::text::split_once;
use crate::text::split_on;
use crate::text::lines;
use crate::task::TaskId;
use crate::timestamp::Timestamp;
use crate::timestamp::MAX_SECS;
use crate::timestamp::utc_now;
use crate::cron_job::cron_next;
use crate::cron_job::next_fire_after;
use crate::timestamp::rfc3339_parse;
use crate::timestamp::parse_rfc3339;
use crate::timestamp::rfc3339_text;
use crate::timestamp::to_rfc3339;
use crate::timestamp::rfc3339_char;
use crate::timestamp::four_digit_year;
use crate::timestamp::reads_as;
use crate::text_lemmas::ends_clean;
use crate::text_lemmas::lacks;
use crate::text_lemmas::lemma_find_bar_none;
use crate::text_lemmas::lemma_find_from_at;
use crate::text_lemmas::lemma_join_first;
use crate::text_lemmas::lemma_join_lacks;
use crate::text_lemmas::lemma_lacks_add;
use crate::text_lemmas::lemma_lines_append;
use crate::text_lemmas::lemma_lines_newline;
use crate::text_lemmas::lemma_lines_two;
use crate::text_lemmas::lemma_no_ws_lacks_newline;
use crate::text_lemmas::lemma_replace_lacks;
use crate::text_lemmas::lemma_trim_no_ws;
use crate::text_lemmas::lemma_trim_nonempty;
use crate::text_lemmas::lemma_words_append;
use crate::text_lemmas::lemma_words_join;
use crate::text_lemmas::lemma_words_shape;
use crate::text_lemmas::no_ws;
use crate::cron_job::CronJob;

verus! {

/// Errors that can come out of crontab handling.
#[derive(Debug)]
pub enum OsCronError {
    CrontabFailed(String),
    Io(String),
    Parse(String),
    SubMinuteUnsupported,
    InvalidExpression(String),
    BinaryNotFound,
}

/// The text an error displays.
pub open spec fn os_cron_error_text(e: OsCronError) -> Seq<char> {
    match e {
        OsCronError::CrontabFailed(s) => "crontab command failed: "@ + s@,
        OsCronError::Io(s) => "io error: "@ + s@,
        OsCronError::Parse(s) => "invalid crontab line: "@ + s@,
        OsCronError::SubMinuteUnsupported =>
            "cron expression has sub-minute granularity; OS cron can only schedule at 1-minute resolution"@,
        OsCronError::InvalidExpression(s) => "cron expression invalid: "@ + s@,
        OsCronError::BinaryNotFound => "ata binary not found on PATH (need absolute path for crontab)"@,
    }
}

impl OsCronError {
    /// The error's text.
    pub fn message(&self) -> (r: String)
        ensures
            r@ == os_cron_error_text(*self),
    {
        match self {
            OsCronError::CrontabFailed(s) => {
                let mut m = "crontab command failed: ".to_owned();
                m.append(s.as_str());
                m
            },
            OsCronError::Io(s) => {
                let mut m = "io error: ".to_owned();
                m.append(s.as_str());
                m
            },
            OsCronError::Parse(s) => {
                let mut m = "invalid crontab line: ".to_owned();
                m.append(s.as_str());
                m
            },
            OsCronError::SubMinuteUnsupported => {
                "cron expression has sub-minute granularity; OS cron can only schedule at 1-minute resolution".to_owned()
            },
            OsCronError::InvalidExpression(s) => {
                let mut m = "cron expression invalid: ".to_owned();
                m.append(s.as_str());
                m
            },
            OsCronError::BinaryNotFound => {
                "ata binary not found on PATH (need absolute path for crontab)".to_owned()
            },
        }
    }
}

/// Tag that starts the comment line of every managed crontab block.
pub open spec fn tag_prefix() -> Seq<char> {
    "# ata-cron:"@
}

/// The 5-field form of a 6-field expression: its fields after the first,
/// single-space separated.
pub open spec fn five_field_form(expr: Seq<char>) -> Seq<char> {
    join(words(expr).skip(1), " "@)
}

/// The message for an expression with `n` fields instead of six.
pub open spec fn field_count_message(n: nat) -> Seq<char> {
    "expected 6 fields (sec min hour dom mon dow), got "@ + decimal(n)
}

/// The outcome `r` is what converting `expr` gives: `InvalidExpression`
/// with the parser's message when the `cron` crate refuses it, or with the
/// field count when it has other than six fields; `SubMinuteUnsupported`
/// when the seconds field is neither `0` nor `*`; else the 5-field form.
pub open spec fn six_to_five_result(expr: Seq<char>, r: Result<String, OsCronError>) -> bool {
    &&& (cron_parse_error(expr) matches Some(m) ==> (r matches Err(OsCronError::InvalidExpression(x))
        && x@ == m))
    &&& (cron_accepts(expr) && words(expr).len() != 6 ==> (r matches Err(
        OsCronError::InvalidExpression(x),
    ) && x@ == field_count_message(words(expr).len())))
    &&& (cron_accepts(expr) && words(expr).len() == 6 && words(expr)[0] != "0"@ && words(expr)[0]
        != "*"@ ==> r matches Err(OsCronError::SubMinuteUnsupported))
    &&& (cron_accepts(expr) && words(expr).len() == 6 && (words(expr)[0] == "0"@ || words(expr)[0]
        == "*"@) ==> (r matches Ok(s) && s@ == five_field_form(expr)))
}

/// The 5-field form splits back into the fields after the first.
pub proof fn lemma_five_field_words(expr: Seq<char>)
    requires
        words(expr).len() >= 1,
    ensures
        words(five_field_form(expr)) == words(expr).skip(1),
{
    lemma_words_shape(expr);
    let parts = words(expr).skip(1);
    assert forall|k: int| 0 <= k < parts.len() implies (#[trigger] parts[k]).len() > 0 && no_ws(
        parts[k],
    ) by {
        assert(parts[k] == words(expr)[k + 1]);
    }
    lemma_words_join(parts);
}

/// Converts a 6-field cron expression to the 5-field form of OS cron.
/// Refuses what the `cron` crate does not parse, anything but six fields,
/// and a seconds field other than `0` or `*` (sub-minute schedules).
pub fn six_field_to_five(cron_expr: &str) -> (r: Result<String, OsCronError>)
    ensures
        six_to_five_result(cron_expr@, r),
        r matches Ok(s) ==> words(s@) == words(cron_expr@).skip(1),
{
    if let Err(m) = parse_cron(cron_expr) {
        return Err(OsCronError::InvalidExpression(m));
    }
    let parts = split_whitespace(cron_expr);
    let n = parts.len();
    if n != 6 {
        let mut m = "expected 6 fields (sec min hour dom mon dow), got ".to_owned();
        let count = decimal_string(n as u64);
        m.append(count.as_str());
        return Err(OsCronError::InvalidExpression(m));
    }
    let seconds = parts[0].as_str();
    if !same_text(seconds, "0") && !same_text(seconds, "*") {
        return Err(OsCronError::SubMinuteUnsupported);
    }
    let mut rest: Vec<String> = Vec::new();
    let mut i: usize = 1;
    while i < 6
        invariant
            n == 6,
            parts@.len() == 6,
            1 <= i <= 6,
            views(rest@) =~= views(parts@).subrange(1, i as int),
        decreases 6 - i,
    {
        let ghost before = rest@;
        rest.push(parts[i].clone());
        proof {
            assert(views(rest@) =~= views(before).push(parts@[i as int]@));
        }
        i += 1;
    }
    proof {
        assert(views(parts@).skip(1) =~= views(parts@).subrange(1, 6));
        lemma_five_field_words(cron_expr@);
    }
    Ok(join_strings(&rest, " "))
}

/// A character left alone by shell quoting.
pub open spec fn shell_safe(c: char) -> bool {
    ||| ('a' <= c && c <= 'z')
    ||| ('A' <= c && c <= 'Z')
    ||| ('0' <= c && c <= '9')
    ||| c == '/'
    ||| c == '_'
    ||| c == '-'
    ||| c == '.'
}

/// `p` as it is written into a crontab command: unchanged when every
/// character is safe, else in single quotes with each `'` written `'\''`.
pub open spec fn shell_quoted(p: Seq<char>) -> Seq<char> {
    if forall|i: int| 0 <= i < p.len() ==> shell_safe(#[trigger] p[i]) {
        p
    } else {
        "'"@ + replace_char(p, '\'', "'\\''"@) + "'"@
    }
}

/// Minimal shell quoting for paths.
pub fn shell_quote_path(p: &str) -> (r: String)
    ensures
        r@ == shell_quoted(p@),
{
    let c = crate::text::chars_of(p);
    let n = c.len();
    let mut i: usize = 0;
    let mut all_safe = true;
    while i < n
        invariant
            n == p@.len(),
            c@ == p@,
            i <= n,
            all_safe == forall|k: int| 0 <= k < i ==> shell_safe(#[trigger] p@[k]),
        decreases n - i,
    {
        let ch = c[i];
        let safe = ('a' <= ch && ch <= 'z') || ('A' <= ch && ch <= 'Z') || ('0' <= ch && ch
            <= '9') || ch == '/' || ch == '_' || ch == '-' || ch == '.';
        proof {
            if all_safe && !safe {
                assert(!shell_safe(p@[i as int]));
            }
        }
        all_safe = all_safe && safe;
        i += 1;
    }
    if all_safe {
        p.to_owned()
    } else {
        let mut out = "'".to_owned();
        let body = replace_char_str(p, '\'', "'\\''");
        out.append(body.as_str());
        out.append("'");
        out
    }
}

/// What to make of `crontab -l`: its output when it succeeded; the empty
/// crontab when it failed saying there is no crontab; else the failure.
pub fn interpret_crontab_listing(success: bool, stdout: String, stderr: String) -> (r: Result<
    String,
    OsCronError,
>)
    ensures
        success ==> (r matches Ok(s) && s@ == stdout@),
        !success && crate::text::contains_seq(stderr@, "no crontab"@) ==> (r matches Ok(s)
            && s@.len() == 0),
        !success && !crate::text::contains_seq(stderr@, "no crontab"@) ==> (r matches Err(
            OsCronError::CrontabFailed(m),
        ) && m@ == stderr@),
{
    if !success {
        if crate::text::contains(stderr.as_str(), "no crontab") {
            return Ok(String::new());
        }
        return Err(OsCronError::CrontabFailed(stderr));
    }
    Ok(stdout)
}

/// What to make of `crontab -` having exited: fine when it succeeded, else
/// the failure with its error output.
pub fn interpret_crontab_write(success: bool, stderr: String) -> (r: Result<(), OsCronError>)
    ensures
        success ==> r is Ok,
        !success ==> (r matches Err(OsCronError::CrontabFailed(m)) && m@ == stderr@),
{
    if !success {
        return Err(OsCronError::CrontabFailed(stderr));
    }
    Ok(())
}

/// What to make of `which ata`: the trimmed path it printed, or
/// `BinaryNotFound` when it failed or printed nothing but whitespace.
pub fn interpret_which(success: bool, stdout: &str) -> (r: Result<String, OsCronError>)
    ensures
        !success ==> r matches Err(OsCronError::BinaryNotFound),
        success && crate::text::trim(stdout@).len() == 0 ==> r matches Err(
            OsCronError::BinaryNotFound,
        ),
        success && crate::text::trim(stdout@).len() > 0 ==> (r matches Ok(s) && s@
            == crate::text::trim(stdout@)),
{
    if !success {
        return Err(OsCronError::BinaryNotFound);
    }
    let path = crate::text::trim_str(stdout);
    if path.unicode_len() == 0 {
        return Err(OsCronError::BinaryNotFound);
    }
    Ok(path.to_owned())
}


/// One managed entry as read back from a crontab: its id, its 5-field
/// schedule, and when it was created (when the tag line says so).
#[derive(Debug)]
pub struct CrontabEntry {
    pub task_id: TaskId,
    /// 5-field cron expression as it appears in the crontab.
    pub cron_expr_five_field: String,
    pub created_at: Option<Timestamp>,
}

/// The plain values of an entry.
pub open spec fn entry_view(e: CrontabEntry) -> (Seq<char>, Seq<char>, Option<Timestamp>) {
    (e.task_id@, e.cron_expr_five_field@, e.created_at)
}

pub open spec fn entry_views(v: Seq<CrontabEntry>) -> Seq<(Seq<char>, Seq<char>, Option<Timestamp>)> {
    v.map_values(|e: CrontabEntry| entry_view(e))
}

/// The id and the metadata of a tag line's text after the tag: split at
/// the first ` | `, the id trimmed.
pub open spec fn tag_fields(rest: Seq<char>) -> (Seq<char>, Seq<char>) {
    match split_once(rest, " | "@) {
        Some(pair) => (trim(pair.0), pair.1),
        None => (trim(rest), seq![]),
    }
}

/// The value of the first `created=` item, if any.
pub open spec fn first_created(items: Seq<Seq<char>>) -> Option<Seq<char>>
    decreases items.len(),
{
    if items.len() == 0 {
        None
    } else if "created="@.is_prefix_of(items[0]) {
        Some(items[0].skip("created="@.len() as int))
    } else {
        first_created(items.drop_first())
    }
}

/// The creation time a tag line's metadata records: its first `created=`
/// item, read as RFC 3339 (`None` when absent or unreadable).
pub open spec fn created_of(meta: Seq<char>) -> Option<Timestamp> {
    match first_created(split_on(meta, " | "@)) {
        Some(v) => match rfc3339_parse(v) {
            Ok(t) => Some(t),
            Err(_) => None,
        },
        None => None,
    }
}

/// The first line at or after `from` that is not blank.
pub open spec fn next_nonblank(ls: Seq<Seq<char>>, from: int) -> Option<int>
    decreases ls.len() - from,
{
    if from < 0 || from >= ls.len() {
        None
    } else if trim(ls[from]).len() > 0 {
        Some(from)
    } else {
        next_nonblank(ls, from + 1)
    }
}

pub proof fn lemma_next_nonblank_range(ls: Seq<Seq<char>>, from: int)
    ensures
        next_nonblank(ls, from) matches Some(j) ==> from <= j < ls.len() && trim(ls[j]).len() > 0,
    decreases ls.len() - from,
{
    if from < 0 || from >= ls.len() {
    } else if trim(ls[from]).len() > 0 {
    } else {
        lemma_next_nonblank_range(ls, from + 1);
    }
}

/// The message for a tag line with no schedule line after it.
pub open spec fn dangling_tag_message(id: Seq<char>) -> Seq<char> {
    "tag line for "@ + id + " not followed by a schedule line"@
}

/// The message for a schedule line with fewer than five fields.
pub open spec fn short_schedule_message(id: Seq<char>) -> Seq<char> {
    "schedule line for "@ + id + " has fewer than 5 fields"@
}

/// The managed entries found in the lines `ls` from line `i` on, or the
/// message of the first malformed block. A tag line is followed by its
/// schedule line: the next line that is not blank, whose first five fields
/// form the schedule. Other lines are skipped.
pub open spec fn parse_from(ls: Seq<Seq<char>>, i: int) -> Result<
    Seq<(Seq<char>, Seq<char>, Option<Timestamp>)>,
    Seq<char>,
>
    decreases ls.len() - i,
{
    if i < 0 || i >= ls.len() {
        Ok(seq![])
    } else if tag_prefix().is_prefix_of(ls[i]) {
        let fields = tag_fields(ls[i].skip(tag_prefix().len() as int));
        let id = fields.0;
        match next_nonblank(ls, i + 1) {
            None => Err(dangling_tag_message(id)),
            Some(j) => {
                proof {
                    lemma_next_nonblank_range(ls, i + 1);
                }
                if words(ls[j]).len() < 5 {
                    Err(short_schedule_message(id))
                } else {
                    match parse_from(ls, j + 1) {
                        Ok(more) => Ok(
                            seq![(id, join(words(ls[j]).take(5), " "@), created_of(fields.1))]
                                + more,
                        ),
                        Err(e) => Err(e),
                    }
                }
            },
        }
    } else {
        parse_from(ls, i + 1)
    }
}

/// `done` in front of the entries of `r`.
pub open spec fn after_done(
    done: Seq<(Seq<char>, Seq<char>, Option<Timestamp>)>,
    r: Result<Seq<(Seq<char>, Seq<char>, Option<Timestamp>)>, Seq<char>>,
) -> Result<Seq<(Seq<char>, Seq<char>, Option<Timestamp>)>, Seq<char>> {
    match r {
        Ok(more) => Ok(done + more),
        Err(e) => Err(e),
    }
}

fn first_created_exec(items: &Vec<String>) -> (r: Option<String>)
    ensures
        r is Some <==> first_created(views(items@)) is Some,
        r matches Some(v) ==> first_created(views(items@)) == Some(v@),
{
    let n = items.len();
    let mut i: usize = 0;
    assert(views(items@).skip(0) =~= views(items@));
    while i < n
        invariant
            n == items@.len(),
            i <= n,
            first_created(views(items@)) == first_created(views(items@).skip(i as int)),
        decreases n - i,
    {
        proof {
            assert(views(items@).skip(i as int).drop_first() =~= views(items@).skip(i + 1));
            assert(views(items@).skip(i as int)[0] == items@[i as int]@);
        }
        if let Some(v) = crate::text::strip_prefix(items[i].as_str(), "created=") {
            return Some(v.to_owned());
        }
        i += 1;
    }
    None
}

/// Reads the managed entries out of a crontab's text. Lines that are not
/// ours are skipped; a tag line without a schedule line, or a schedule line
/// with fewer than five fields, is a `Parse` error.
pub fn parse_crontab(content: &str) -> (r: Result<Vec<CrontabEntry>, OsCronError>)
    ensures
        parse_from(lines(content@), 0) matches Ok(es) ==> (r matches Ok(v) && entry_views(v@)
            == es),
        parse_from(lines(content@), 0) matches Err(m) ==> (r matches Err(OsCronError::Parse(x))
            && x@ == m),
{
    let ls = crate::text::lines_of(content);
    let ghost lv = views(ls@);
    let n = ls.len();
    let mut entries: Vec<CrontabEntry> = Vec::new();
    let mut i: usize = 0;
    assert(after_done(entry_views(entries@), parse_from(lv, 0)) =~= parse_from(lv, 0)) by {
        assert(entry_views(entries@) =~= seq![]);
        match parse_from(lv, 0) {
            Ok(more) => {
                assert(seq![] + more =~= more);
            },
            Err(_) => {},
        }
    }
    while i < n
        invariant
            n == ls@.len(),
            lv == views(ls@),
            lv == lines(content@),
            i <= n,
            after_done(entry_views(entries@), parse_from(lv, i as int)) == parse_from(lv, 0),
        decreases n - i,
    {
        let line = ls[i].as_str();
        match crate::text::strip_prefix(line, "# ata-cron:") {
            None => {
                i += 1;
            },
            Some(rest) => {
                let (id_part, meta) = match crate::text::split_once_str(rest, " | ") {
                    Some(pair) => (crate::text::trim_str(pair.0), pair.1),
                    None => (crate::text::trim_str(rest), ""),
                };
                proof {
                    reveal_strlit("");
                    assert((id_part@, meta@) == tag_fields(rest@));
                }
                proof {
                    reveal_strlit(" | ");
                }
                let items = crate::text::split_on_str(meta, " | ");
                let created = match first_created_exec(&items) {
                    Some(v) => match parse_rfc3339(v.as_str()) {
                        Ok(t) => Some(t),
                        Err(_) => None,
                    },
                    None => None,
                };
                let mut j = i + 1;
                while j < n && crate::text::trim_str(ls[j].as_str()).unicode_len() == 0
                    invariant
                        n == ls@.len(),
                        lv == views(ls@),
                        i < j <= n,
                        next_nonblank(lv, i + 1) == next_nonblank(lv, j as int),
                    decreases n - j,
                {
                    j += 1;
                }
                if j == n {
                    let mut m = "tag line for ".to_owned();
                    m.append(id_part);
                    m.append(" not followed by a schedule line");
                    return Err(OsCronError::Parse(m));
                }
                let parts = split_whitespace(ls[j].as_str());
                if parts.len() < 5 {
                    let mut m = "schedule line for ".to_owned();
                    m.append(id_part);
                    m.append(" has fewer than 5 fields");
                    return Err(OsCronError::Parse(m));
                }
                let mut five: Vec<String> = Vec::new();
                let mut k: usize = 0;
                while k < 5
                    invariant
                        parts@.len() >= 5,
                        k <= 5,
                        views(five@) =~= views(parts@).take(k as int),
                    decreases 5 - k,
                {
                    let ghost before = five@;
                    five.push(parts[k].clone());
                    proof {
                        assert(views(five@) =~= views(before).push(parts@[k as int]@));
                    }
                    k += 1;
                }
                let expr = join_strings(&five, " ");
                let ghost e = (id_part@, expr@, created);
                let ghost done_before = entry_views(entries@);
                entries.push(
                    CrontabEntry {
                        task_id: TaskId::from_string(id_part.to_owned()),
                        cron_expr_five_field: expr,
                        created_at: created,
                    },
                );
                proof {
                    assert(entry_views(entries@) =~= done_before.push(e));
                    match parse_from(lv, j + 1) {
                        Ok(more) => {
                            assert(done_before.push(e) + more =~= done_before + (seq![e] + more));
                        },
                        Err(_) => {},
                    }
                }
                i = j + 1;
            },
        }
    }
    proof {
        assert(parse_from(lv, n as int) == Ok::<Seq<(Seq<char>, Seq<char>, Option<Timestamp>)>, Seq<char>>(seq![]));
        assert(entry_views(entries@) + seq![] =~= entry_views(entries@));
    }
    Ok(entries)
}


/// What `std::path::Path::parent` gives for the path `p`, as text.
pub uninterp spec fn path_parent_of(p: Seq<char>) -> Option<Seq<char>>;

/// `std::path::Path::new(p).parent()`, rendered back to text (lossless for
/// a path made from a `&str`). The result is named, not spelled out; as
/// documented it is the path without its final component, so it begins
/// the path's text.
#[verifier::external_body]
pub(crate) fn path_parent(p: &str) -> (r: Option<String>)
    ensures
        r is None <==> path_parent_of(p@) is None,
        r matches Some(d) ==> path_parent_of(p@) == Some(d@),
        r matches Some(d) ==> d@.is_prefix_of(p@),
{
    match std::path::Path::new(p).parent() {
        Some(d) => Some(d.to_string_lossy().into_owned()),
        None => None,
    }
}

/// The tag line of a job's block: the tag, the id and the creation time.
pub open spec fn tag_line(job: CronJob) -> Seq<char> {
    tag_prefix() + job.id@ + " | created="@ + rfc3339_text(job.created_at)
}

/// The directory of the binary as the command puts it in front of `PATH`,
/// empty when the binary has none.
pub open spec fn bin_dir_of(ata_binary: Seq<char>) -> Seq<char> {
    match path_parent_of(ata_binary) {
        Some(d) => d,
        None => seq![],
    }
}

/// What the command puts in front of `PATH` for the binary's directory.
pub open spec fn path_prefix_of(ata_binary: Seq<char>) -> Seq<char> {
    if bin_dir_of(ata_binary).len() == 0 {
        seq![]
    } else {
        "PATH="@ + shell_quoted(bin_dir_of(ata_binary)) + ":/usr/bin:/bin "@
    }
}

/// The command of a job's schedule line after its 5-field schedule: the
/// binary run on the prompt file, appending to the log file.
pub open spec fn command_tail(ata_binary: Seq<char>, prompt_file: Seq<char>, log_file: Seq<char>) -> Seq<
    char,
> {
    path_prefix_of(ata_binary) + shell_quoted(ata_binary) + " exec --skip-git-repo-check - < "@
        + shell_quoted(prompt_file) + " >> "@ + shell_quoted(log_file) + " 2>&1"@
}

/// The schedule line of a job's block: the 5-field schedule, a space and
/// the command.
pub open spec fn schedule_line(
    job: CronJob,
    ata_binary: Seq<char>,
    prompt_file: Seq<char>,
    log_file: Seq<char>,
) -> Seq<char> {
    five_field_form(job.cron_expr@) + " "@ + command_tail(ata_binary, prompt_file, log_file)
}

/// The two crontab lines for a job, each ending in a newline: the tag line
/// with id and creation time, and the schedule line that runs the binary
/// on the prompt file and appends to the log file. When the binary has a
/// parent directory, the command first puts it in front of `PATH`.
pub open spec fn entry_block(
    job: CronJob,
    ata_binary: Seq<char>,
    prompt_file: Seq<char>,
    log_file: Seq<char>,
) -> Seq<char> {
    tag_line(job) + "\n"@ + schedule_line(job, ata_binary, prompt_file, log_file) + "\n"@
}

/// The inputs on which the block written for a job reads back as that
/// job: an id without whitespace or `|`, paths without a newline, and a
/// creation time in the years 0 to 9999.
pub open spec fn written_plainly(
    job: CronJob,
    ata_binary: Seq<char>,
    prompt_file: Seq<char>,
    log_file: Seq<char>,
) -> bool {
    &&& no_ws(job.id@)
    &&& lacks(job.id@, '|')
    &&& lacks(ata_binary, '\n')
    &&& lacks(prompt_file, '\n')
    &&& lacks(log_file, '\n')
    &&& four_digit_year(job.created_at)
}

/// `written_plainly`, with the binary's directory without a newline too.
pub open spec fn block_reads_back(
    job: CronJob,
    ata_binary: Seq<char>,
    prompt_file: Seq<char>,
    log_file: Seq<char>,
) -> bool {
    &&& written_plainly(job, ata_binary, prompt_file, log_file)
    &&& (path_parent_of(ata_binary) matches Some(d) ==> lacks(d, '\n'))
}

/// The id of every task the library makes (a v4 UUID's text) has no
/// whitespace and no `|`, as `written_plainly` asks of a job's id.
pub proof fn lemma_uuid_id_fits_tag(id: Seq<char>)
    requires
        crate::task::uuid_v4_text(id),
    ensures
        no_ws(id),
        lacks(id, '|'),
{
    assert forall|i: int| 0 <= i < id.len() implies !crate::text::is_ws(#[trigger] id[i]) && id[i]
        != '|' by {
        if i == 8 || i == 13 || i == 18 || i == 23 {
            assert(id[i] == '-');
        } else {
            assert(crate::task::lower_hex(id[i]));
        }
    }
}

proof fn lemma_shell_quoted_lacks(p: Seq<char>)
    requires
        lacks(p, '\n'),
    ensures
        lacks(shell_quoted(p), '\n'),
{
    if !(forall|i: int| 0 <= i < p.len() ==> shell_safe(#[trigger] p[i])) {
        reveal_strlit("'");
        reveal_strlit("'\\''");
        lemma_replace_lacks(p, '\'', "'\\''"@, '\n');
        lemma_lacks_add("'"@, replace_char(p, '\'', "'\\''"@), '\n');
        lemma_lacks_add("'"@ + replace_char(p, '\'', "'\\''"@), "'"@, '\n');
    }
}

/// The tag line holds no newline, does not end in a carriage return, and
/// its text after the tag gives back the job's id and creation time.
proof fn lemma_tag_line(job: CronJob)
    requires
        no_ws(job.id@),
        lacks(job.id@, '|'),
        forall|i: int|
            0 <= i < rfc3339_text(job.created_at).len() ==> rfc3339_char(
                #[trigger] rfc3339_text(job.created_at)[i],
            ),
        reads_as(rfc3339_text(job.created_at), job.created_at),
    ensures
        lacks(tag_line(job), '\n'),
        ends_clean(tag_line(job)),
        tag_prefix().is_prefix_of(tag_line(job)),
        tag_fields(tag_line(job).skip(tag_prefix().len() as int)).0 == job.id@,
        created_of(tag_fields(tag_line(job).skip(tag_prefix().len() as int)).1) == Some(
            job.created_at,
        ),
{
    let id = job.id@;
    let text = rfc3339_text(job.created_at);
    reveal_strlit("# ata-cron:");
    reveal_strlit(" | created=");
    reveal_strlit("created=");
    reveal_strlit(" | ");
    assert(lacks(text, '\n') && lacks(text, '|')) by {
        assert forall|i: int| 0 <= i < text.len() implies text[i] != '\n' && text[i] != '|' by {
            assert(rfc3339_char(text[i]));
        }
    }
    let meta = "created="@ + text;
    let after_tag = id + " | created="@ + text;
    let comment = tag_line(job);
    assert(comment =~= tag_prefix() + after_tag);
    lemma_no_ws_lacks_newline(id);
    lemma_lacks_add(tag_prefix(), id, '\n');
    lemma_lacks_add(tag_prefix() + id, " | created="@, '\n');
    lemma_lacks_add(tag_prefix() + id + " | created="@, text, '\n');
    assert(ends_clean(comment)) by {
        if text.len() > 0 {
            assert(comment.last() == text[text.len() - 1]);
            assert(rfc3339_char(text[text.len() - 1]));
        } else {
            assert(comment.last() == '=');
        }
    }
    assert(tag_prefix().is_prefix_of(comment));
    assert(comment.skip(tag_prefix().len() as int) =~= after_tag);
    let bar = " | "@;
    assert forall|j: int| 0 <= j < id.len() implies #[trigger] after_tag.subrange(
        j,
        j + bar.len(),
    ) != bar by {
        assert(after_tag.subrange(j, j + bar.len())[1] == after_tag[j + 1]);
        if j + 1 < id.len() {
            assert(after_tag[j + 1] == id[j + 1]);
        } else {
            assert(after_tag[j + 1] == ' ');
        }
    }
    assert(after_tag.subrange(id.len() as int, id.len() + bar.len() as int) =~= bar);
    lemma_find_from_at(after_tag, bar, 0, id.len() as int);
    assert(after_tag.take(id.len() as int) =~= id);
    assert(after_tag.skip(id.len() + bar.len() as int) =~= meta);
    lemma_trim_no_ws(id);
    assert(lacks("created="@, '|'));
    lemma_lacks_add("created="@, text, '|');
    lemma_find_bar_none(meta, 0);
    assert(split_on(meta, bar) =~= seq![meta]);
    assert("created="@.is_prefix_of(meta));
    assert(meta.skip("created="@.len() as int) =~= text);
    assert(first_created(seq![meta]) == Some(text));
}

/// The schedule line holds no newline, ends in `1`, starts with a
/// character that is not whitespace, and its first five fields are the
/// 5-field form of the job's schedule.
proof fn lemma_schedule_line(
    job: CronJob,
    ata_binary: Seq<char>,
    prompt_file: Seq<char>,
    log_file: Seq<char>,
)
    requires
        words(job.cron_expr@).len() == 6,
        lacks(ata_binary, '\n'),
        lacks(prompt_file, '\n'),
        lacks(log_file, '\n'),
        lacks(bin_dir_of(ata_binary), '\n'),
    ensures
        lacks(schedule_line(job, ata_binary, prompt_file, log_file), '\n'),
        ends_clean(schedule_line(job, ata_binary, prompt_file, log_file)),
        trim(schedule_line(job, ata_binary, prompt_file, log_file)).len() > 0,
        words(schedule_line(job, ata_binary, prompt_file, log_file)).len() >= 5,
        join(words(schedule_line(job, ata_binary, prompt_file, log_file)).take(5), " "@)
            == five_field_form(job.cron_expr@),
{
    reveal_strlit(" ");
    let expr = job.cron_expr@;
    let parts = words(expr).skip(1);
    lemma_words_shape(expr);
    assert forall|k: int| 0 <= k < parts.len() implies (#[trigger] parts[k]).len() > 0 && no_ws(
        parts[k],
    ) by {
        assert(parts[k] == words(expr)[k + 1]);
    }
    lemma_words_join(parts);
    let five = five_field_form(expr);
    assert forall|k: int| 0 <= k < parts.len() implies lacks(#[trigger] parts[k], '\n') by {
        lemma_no_ws_lacks_newline(parts[k]);
    }
    lemma_join_lacks(parts, " "@, '\n');
    lemma_join_first(parts, " "@);
    let rest = command_tail(ata_binary, prompt_file, log_file);
    lemma_command_tail(ata_binary, prompt_file, log_file);
    lemma_lacks_add(" "@, rest, '\n');
    let tail = " "@ + rest;
    let line = schedule_line(job, ata_binary, prompt_file, log_file);
    assert(line =~= five + tail);
    lemma_lacks_add(five, tail, '\n');
    assert(line.last() == rest.last());
    assert(tail[0] == ' ');
    lemma_words_append(five, tail);
    assert(words(line).take(5) =~= parts);
    assert(line[0] == five[0]);
    lemma_trim_nonempty(line);
}

/// The command after the schedule holds no newline and ends in `1`.
proof fn lemma_command_tail(ata_binary: Seq<char>, prompt_file: Seq<char>, log_file: Seq<char>)
    requires
        lacks(ata_binary, '\n'),
        lacks(prompt_file, '\n'),
        lacks(log_file, '\n'),
        lacks(bin_dir_of(ata_binary), '\n'),
    ensures
        lacks(command_tail(ata_binary, prompt_file, log_file), '\n'),
        ends_clean(command_tail(ata_binary, prompt_file, log_file)),
        command_tail(ata_binary, prompt_file, log_file).last() == '1',
{
    reveal_strlit("PATH=");
    reveal_strlit(":/usr/bin:/bin ");
    reveal_strlit(" exec --skip-git-repo-check - < ");
    reveal_strlit(" >> ");
    reveal_strlit(" 2>&1");
    let bin_dir = bin_dir_of(ata_binary);
    let path_prefix = path_prefix_of(ata_binary);
    assert(lacks(path_prefix, '\n')) by {
        if bin_dir.len() > 0 {
            lemma_shell_quoted_lacks(bin_dir);
            lemma_lacks_add("PATH="@, shell_quoted(bin_dir), '\n');
            lemma_lacks_add("PATH="@ + shell_quoted(bin_dir), ":/usr/bin:/bin "@, '\n');
        }
    }
    lemma_shell_quoted_lacks(ata_binary);
    lemma_shell_quoted_lacks(prompt_file);
    lemma_shell_quoted_lacks(log_file);
    let r1 = path_prefix + shell_quoted(ata_binary);
    let r2 = r1 + " exec --skip-git-repo-check - < "@;
    let r3 = r2 + shell_quoted(prompt_file);
    let r4 = r3 + " >> "@;
    let r5 = r4 + shell_quoted(log_file);
    lemma_lacks_add(path_prefix, shell_quoted(ata_binary), '\n');
    lemma_lacks_add(r1, " exec --skip-git-repo-check - < "@, '\n');
    lemma_lacks_add(r2, shell_quoted(prompt_file), '\n');
    lemma_lacks_add(r3, " >> "@, '\n');
    lemma_lacks_add(r4, shell_quoted(log_file), '\n');
    lemma_lacks_add(r5, " 2>&1"@, '\n');
    assert(command_tail(ata_binary, prompt_file, log_file) == r5 + " 2>&1"@);
}

/// The block written for a job, read back line by line, is one entry: the
/// job's id, its 5-field schedule and its creation time.
pub proof fn lemma_entry_block_reads_back(
    job: CronJob,
    ata_binary: Seq<char>,
    prompt_file: Seq<char>,
    log_file: Seq<char>,
)
    requires
        block_reads_back(job, ata_binary, prompt_file, log_file),
        words(job.cron_expr@).len() == 6,
        forall|i: int|
            0 <= i < rfc3339_text(job.created_at).len() ==> rfc3339_char(
                #[trigger] rfc3339_text(job.created_at)[i],
            ),
        reads_as(rfc3339_text(job.created_at), job.created_at),
    ensures
        parse_from(lines(entry_block(job, ata_binary, prompt_file, log_file)), 0) == Ok::<
            Seq<(Seq<char>, Seq<char>, Option<Timestamp>)>,
            Seq<char>,
        >(seq![(job.id@, five_field_form(job.cron_expr@), Some(job.created_at))]),
        is_block_of(entry_block(job, ata_binary, prompt_file, log_file), job.id@),
{
    let comment = tag_line(job);
    let command = schedule_line(job, ata_binary, prompt_file, log_file);
    assert(lacks(bin_dir_of(ata_binary), '\n'));
    lemma_tag_line(job);
    lemma_schedule_line(job, ata_binary, prompt_file, log_file);
    lemma_lines_two(comment, command);
    let ls = seq![comment, command];
    assert(lines(entry_block(job, ata_binary, prompt_file, log_file)) == ls);
    assert(tags_id(comment, job.id@));
    assert(entry_block(job, ata_binary, prompt_file, log_file).last() == '\n') by {
        reveal_strlit("\n");
    }
    assert(ls[0] == comment && ls[1] == command);
    assert(next_nonblank(ls, 1) == Some(1int));
    assert(parse_from(ls, 2) =~= Ok::<Seq<(Seq<char>, Seq<char>, Option<Timestamp>)>, Seq<char>>(
        seq![],
    ));
    assert(seq![(job.id@, five_field_form(job.cron_expr@), Some(job.created_at))] + Seq::<
        (Seq<char>, Seq<char>, Option<Timestamp>),
    >::empty() =~= seq![(job.id@, five_field_form(job.cron_expr@), Some(job.created_at))]);
}

/// `block` is a crontab block of the task `id`: text ending in a newline
/// whose two lines are a tag line of `id` and the line after it.
pub open spec fn is_block_of(block: Seq<char>, id: Seq<char>) -> bool {
    &&& block.len() > 0
    &&& block.last() == '\n'
    &&& lines(block).len() == 2
    &&& tags_id(lines(block)[0], id)
}

/// The crontab text `s`, read line by line, holds exactly one managed
/// entry: the job's id, its 5-field schedule and its creation time.
pub open spec fn reads_back_as(s: Seq<char>, job: CronJob) -> bool {
    parse_from(lines(s), 0) == Ok::<Seq<(Seq<char>, Seq<char>, Option<Timestamp>)>, Seq<char>>(
        seq![(job.id@, five_field_form(job.cron_expr@), Some(job.created_at))],
    )
}

/// Builds the crontab block for `job`, or the error converting its
/// schedule to 5 fields gives.
pub fn format_entry(job: &CronJob, ata_binary: &str, prompt_file: &str, log_file: &str) -> (r:
    Result<String, OsCronError>)
    ensures
        r is Err ==> six_to_five_result(job.cron_expr@, r),
        r is Err <==> !(cron_accepts(job.cron_expr@) && words(job.cron_expr@).len() == 6 && (words(
            job.cron_expr@,
        )[0] == "0"@ || words(job.cron_expr@)[0] == "*"@)),
        r matches Ok(s) ==> s@ == entry_block(*job, ata_binary@, prompt_file@, log_file@),
        r matches Ok(s) ==> (written_plainly(*job, ata_binary@, prompt_file@, log_file@)
            ==> reads_back_as(s@, *job) && is_block_of(s@, job.id@)),
{
    let five = match six_field_to_five(job.cron_expr.as_str()) {
        Ok(f) => f,
        Err(e) => {
            return Err(e);
        },
    };
    let mut comment = "# ata-cron:".to_owned();
    comment.append(job.id.as_str());
    comment.append(" | created=");
    let created = to_rfc3339(job.created_at);
    comment.append(created.as_str());
    let parent = path_parent(ata_binary);
    proof {
        if parent is Some && lacks(ata_binary@, '\n') {
            let d = parent->0@;
            assert forall|i: int| 0 <= i < d.len() implies d[i] != '\n' by {
                assert(d[i] == ata_binary@[i]);
            }
        }
    }
    let bin_dir = match parent {
        Some(d) => d,
        None => String::new(),
    };
    let mut path_prefix = String::new();
    if bin_dir.unicode_len() > 0 {
        path_prefix.append("PATH=");
        let q = shell_quote_path(bin_dir.as_str());
        path_prefix.append(q.as_str());
        path_prefix.append(":/usr/bin:/bin ");
    }
    let mut command = five;
    command.append(" ");
    command.append(path_prefix.as_str());
    let qb = shell_quote_path(ata_binary);
    command.append(qb.as_str());
    command.append(" exec --skip-git-repo-check - < ");
    let qp = shell_quote_path(prompt_file);
    command.append(qp.as_str());
    command.append(" >> ");
    let ql = shell_quote_path(log_file);
    command.append(ql.as_str());
    command.append(" 2>&1");
    let mut out = comment;
    out.append("\n");
    out.append(command.as_str());
    out.append("\n");
    proof {
        assert(out@ =~= entry_block(*job, ata_binary@, prompt_file@, log_file@));
        if written_plainly(*job, ata_binary@, prompt_file@, log_file@) {
            assert(block_reads_back(*job, ata_binary@, prompt_file@, log_file@));
            lemma_entry_block_reads_back(*job, ata_binary@, prompt_file@, log_file@);
        }
    }
    Ok(out)
}


/// Whether `line` is the tag line of the task `id`: it starts with the
/// tag, and its id part (the text after the tag up to the first ` | `,
/// trimmed) is `id` exactly.
pub open spec fn tags_id(line: Seq<char>, id: Seq<char>) -> bool {
    tag_prefix().is_prefix_of(line) && tag_fields(line.skip(tag_prefix().len() as int)).0 == id
}

/// Whether `line` is the tag line of the task `id`.
pub fn is_tag_line_of(line: &str, id: &str) -> (r: bool)
    ensures
        r == tags_id(line@, id@),
{
    match crate::text::strip_prefix(line, "# ata-cron:") {
        None => false,
        Some(rest) => {
            let id_part = match crate::text::split_once_str(rest, " | ") {
                Some(pair) => crate::text::trim_str(pair.0),
                None => crate::text::trim_str(rest),
            };
            proof {
                assert(id_part@ == tag_fields(rest@).0);
            }
            crate::text::same_text(id_part, id)
        },
    }
}

/// The lines of `ls` that stay when the block of the task `id` is removed:
/// a tag line of `id` goes, and so does the line after it.
pub open spec fn kept_lines(ls: Seq<Seq<char>>, id: Seq<char>, skip: bool) -> Seq<Seq<char>>
    decreases ls.len(),
{
    if ls.len() == 0 {
        seq![]
    } else if skip {
        kept_lines(ls.drop_first(), id, false)
    } else if tags_id(ls[0], id) {
        kept_lines(ls.drop_first(), id, true)
    } else {
        seq![ls[0]] + kept_lines(ls.drop_first(), id, false)
    }
}

/// Whether some line of `ls` (not skipped as the line after a tag line)
/// is a tag line of the task `id`.
pub open spec fn tag_found(ls: Seq<Seq<char>>, id: Seq<char>, skip: bool) -> bool
    decreases ls.len(),
{
    if ls.len() == 0 {
        false
    } else if skip {
        tag_found(ls.drop_first(), id, false)
    } else if tags_id(ls[0], id) {
        true
    } else {
        tag_found(ls.drop_first(), id, false)
    }
}

/// Each line followed by a newline.
pub open spec fn unlines(ls: Seq<Seq<char>>) -> Seq<char>
    decreases ls.len(),
{
    if ls.len() == 0 {
        seq![]
    } else {
        unlines(ls.drop_last()) + ls.last() + "\n"@
    }
}

/// The crontab text without the block of `task_id` (its tag line and the
/// line after it), every kept line ending in a newline; and whether a block
/// was found.
pub fn remove_entry_block(current: &str, task_id: &TaskId) -> (r: (String, bool))
    ensures
        r.0@ == unlines(kept_lines(lines(current@), task_id@, false)),
        r.1 == tag_found(lines(current@), task_id@, false),
{
    let ls = crate::text::lines_of(current);
    let ghost lv = views(ls@);
    let n = ls.len();
    let mut out = String::new();
    let ghost mut kept: Seq<Seq<char>> = seq![];
    let mut skip_next = false;
    let mut removed = false;
    let mut i: usize = 0;
    assert(lv.skip(0) =~= lv);
    while i < n
        invariant
            n == ls@.len(),
            lv == views(ls@),
            i <= n,
            out@ == unlines(kept),
            kept + kept_lines(lv.skip(i as int), task_id@, skip_next) == kept_lines(lv, task_id@, false),
            (removed || tag_found(lv.skip(i as int), task_id@, skip_next)) == tag_found(lv, task_id@, false),
        decreases n - i,
    {
        proof {
            assert(lv.skip(i as int).drop_first() =~= lv.skip(i + 1));
            assert(lv.skip(i as int)[0] == ls@[i as int]@);
        }
        let line = ls[i].as_str();
        if skip_next {
            skip_next = false;
        } else if is_tag_line_of(line, task_id.as_str()) {
            skip_next = true;
            removed = true;
        } else {
            out.append(line);
            out.append("\n");
            proof {
                let k2 = kept.push(line@);
                assert(k2.drop_last() =~= kept);
                assert(kept + (seq![line@] + kept_lines(lv.skip(i + 1), task_id@, false)) =~= k2
                    + kept_lines(lv.skip(i + 1), task_id@, false));
                kept = k2;
            }
        }
        i += 1;
    }
    proof {
        assert(lv.skip(n as int).len() == 0);
        assert(kept + seq![] =~= kept);
    }
    (out, removed)
}

/// `block` appended to the crontab text `current`, after a newline when
/// `current` is not empty and does not end in one.
pub open spec fn appended(current: Seq<char>, block: Seq<char>) -> Seq<char> {
    if current.len() > 0 && current.last() != '\n' {
        current + "\n"@ + block
    } else {
        current + block
    }
}

pub fn append_block(current: String, block: &str) -> (r: String)
    ensures
        r@ == appended(current@, block@),
{
    let mut new = current;
    if new.unicode_len() > 0 && !crate::text::ends_with_char(new.as_str(), '\n') {
        new.append("\n");
    }
    new.append(block);
    new
}

/// Lines before any tag line are kept as they are, and the rest is handled
/// as if it stood alone.
proof fn lemma_kept_prefix(l: Seq<Seq<char>>, r: Seq<Seq<char>>, id: Seq<char>)
    requires
        !tag_found(l, id, false),
    ensures
        kept_lines(l + r, id, false) == l + kept_lines(r, id, false),
        tag_found(l + r, id, false) == tag_found(r, id, false),
    decreases l.len(),
{
    if l.len() == 0 {
        assert(l + r =~= r);
        assert(l + kept_lines(r, id, false) =~= kept_lines(r, id, false));
    } else {
        assert((l + r)[0] == l[0]);
        assert((l + r).drop_first() =~= l.drop_first() + r);
        lemma_kept_prefix(l.drop_first(), r, id);
        assert(seq![l[0]] + (l.drop_first() + kept_lines(r, id, false)) =~= l + kept_lines(
            r,
            id,
            false,
        ));
    }
}

/// Appending the block of a task to a crontab that holds none for it, then
/// removing the block of that task, leaves the crontab's own lines (each
/// ended by a newline), and the removal reports that it found the block.
/// A crontab whose last character is a carriage return is left out: the
/// newline put after it turns that character into a line ending.
pub proof fn law_remove_after_append(current: Seq<char>, block: Seq<char>, id: Seq<char>)
    requires
        is_block_of(block, id),
        !tag_found(lines(current), id, false),
        current.len() == 0 || current.last() != '\r',
    ensures
        unlines(kept_lines(lines(appended(current, block)), id, false)) == unlines(
            lines(current),
        ),
        tag_found(lines(appended(current, block)), id, false),
{
    reveal_strlit("\n");
    if current.len() > 0 && current.last() != '\n' {
        let c2 = current + "\n"@;
        lemma_lines_newline(current);
        assert(appended(current, block) == c2 + block);
        assert(c2.last() == '\n');
        lemma_lines_append(c2, block);
    } else {
        lemma_lines_append(current, block);
    }
    let lb = lines(block);
    lemma_kept_prefix(lines(current), lb, id);
    assert(lb.drop_first()[0] == lb[1]);
    let last = lb.drop_first().drop_first();
    assert(last =~= Seq::<Seq<char>>::empty());
    assert(kept_lines(last, id, false) =~= Seq::<Seq<char>>::empty());
    assert(kept_lines(lb.drop_first(), id, true) == kept_lines(last, id, false));
    assert(kept_lines(lb, id, false) == kept_lines(lb.drop_first(), id, true));
    assert(lines(current) + Seq::<Seq<char>>::empty() =~= lines(current));
}

/// The first firing of the 6-field schedule `expr` after the instant
/// `now`, or `None` when `now` is the last second chrono can hold (no
/// later second to search from).
pub open spec fn next_fire_from(expr: Seq<char>, now: Timestamp) -> Option<Timestamp> {
    if now.sec() < MAX_SECS {
        cron_next(expr, now)
    } else {
        None
    }
}

/// The first firing of the 6-field schedule `expr` after the instant `now`
/// (see `next_fire_from`).
pub fn next_fire_at(expr: &str, now: Timestamp) -> (r: Option<Timestamp>)
    ensures
        r == next_fire_from(expr@, now),
        cron_parse_error(expr@) is Some ==> r is None,
        r matches Some(t) ==> t.nano() == 0 && t.sec() > now.sec(),
{
    if now.secs() >= MAX_SECS {
        return None;
    }
    next_fire_after(expr, now)
}

/// The first firing of the 6-field schedule `expr` after the current time:
/// `None` when the `cron` crate refuses the expression, when the schedule
/// has no later firing, or when the clock stands at the last second chrono
/// can hold. Which instant the clock gives is not known here; the result
/// is `next_fire_from` at that instant.
pub fn next_fire_after_now(expr: &str) -> (r: Option<Timestamp>)
    ensures
        exists|now: Timestamp| r == #[trigger] next_fire_from(expr@, now),
        cron_parse_error(expr@) is Some ==> r is None,
        r matches Some(t) ==> t.nano() == 0 && exists|now: Timestamp|
            #[trigger] cron_next(expr@, now) == Some(t) && t.sec() > now.sec(),
{
    let now = utc_now();
    let r = next_fire_at(expr, now);
    proof {
        assert(r == next_fire_from(expr@, now));
        if r is Some {
            assert(cron_next(expr@, now) == r);
        }
    }
    r
}

/// The first firing of the 5-field (OS cron) schedule `expr` after the
/// current time: the 6-field schedule with a `0` seconds field in front.
pub fn next_fire_after_now_five_field(expr: &str) -> (r: Option<Timestamp>)
    ensures
        exists|now: Timestamp| r == #[trigger] next_fire_from("0 "@ + expr@, now),
        cron_parse_error("0 "@ + expr@) is Some ==> r is None,
        r matches Some(t) ==> t.nano() == 0 && exists|now: Timestamp|
            #[trigger] cron_next("0 "@ + expr@, now) == Some(t) && t.sec() > now.sec(),
{
    let mut six = "0 ".to_owned();
    six.append(expr);
    next_fire_after_now(six.as_str())
}

/// Firing statistics of a crontab job, read from its log: how many runs
/// the log records, and when the log was last written.
#[derive(Debug, Clone, Copy, PartialEq, Eq)]
pub struct FireStats {
    pub fire_count: u64,
    pub last_fired_at: Option<Timestamp>,
}

impl Default for FireStats {
    /// No firing yet.
    fn default() -> (r: FireStats)
        ensures
            r.fire_count == 0,
            r.last_fired_at is None,
    {
        FireStats { fire_count: 0, last_fired_at: None }
    }
}

/// The statistics of a job given its log's text (empty when the log cannot
/// be read) and the log's modification time, when known.
pub fn fire_stats_from_log(log: &str, modified: Option<Timestamp>) -> (r: FireStats)
    ensures
        r.fire_count == fire_line_count(lines(log@)),
        r.last_fired_at == modified,
{
    FireStats { fire_count: count_fire_lines(log), last_fired_at: modified }
}

/// One managed crontab job as listed: its id, its 5-field schedule, its
/// prompt (from the prompt file, empty when that is gone), its creation
/// time when the tag records it, and where its log is written.
#[derive(Debug, PartialEq, Eq)]
pub struct AtaCronEntry {
    pub task_id: TaskId,
    pub cron_expr_five_field: String,
    pub prompt: String,
    pub created_at: Option<Timestamp>,
    pub log_path: String,
}

impl CrontabEntry {
    /// The listed entry for this parsed block, with the job's prompt and
    /// log path.
    pub fn with_sidecars(self, prompt: String, log_path: String) -> (r: AtaCronEntry)
        ensures
            r.task_id@ == self.task_id@,
            r.cron_expr_five_field@ == self.cron_expr_five_field@,
            r.prompt@ == prompt@,
            r.created_at == self.created_at,
            r.log_path@ == log_path@,
    {
        AtaCronEntry {
            task_id: self.task_id,
            cron_expr_five_field: self.cron_expr_five_field,
            prompt,
            created_at: self.created_at,
            log_path,
        }
    }
}

/// How many lines of `ls` start with `session id:` once leading whitespace
/// is dropped: each run of the scheduled command prints one such line.
pub open spec fn fire_line_count(ls: Seq<Seq<char>>) -> nat
    decreases ls.len(),
{
    if ls.len() == 0 {
        0
    } else {
        fire_line_count(ls.drop_last()) + if "session id:"@.is_prefix_of(
            crate::text::trim_start(ls.last()),
        ) {
            1nat
        } else {
            0nat
        }
    }
}

/// The number of firings a job's log records.
pub fn count_fire_lines(log: &str) -> (r: u64)
    ensures
        r == fire_line_count(lines(log@)),
{
    let ls = crate::text::lines_of(log);
    let ghost lv = views(ls@);
    let n = ls.len();
    let mut count: usize = 0;
    let mut i: usize = 0;
    while i < n
        invariant
            n == ls@.len(),
            lv == views(ls@),
            i <= n,
            count == fire_line_count(lv.take(i as int)),
            count <= i,
        decreases n - i,
    {
        proof {
            assert(lv.take(i + 1).drop_last() =~= lv.take(i as int));
            assert(lv.take(i + 1).last() == ls@[i as int]@);
        }
        let t = trim_start_str(ls[i].as_str());
        if crate::text::starts_with(t, "session id:") {
            count += 1;
        }
        i += 1;
    }
    assert(lv.take(n as int) =~= lv);
    count as u64
}

/// `s` without leading whitespace (`str::trim_start`).
pub fn trim_start_str(s: &str) -> (r: &str)
    ensures
        r@ == crate::text::trim_start(s@),
{
    let n = s.unicode_len();
    let mut i: usize = 0;
    assert(s@.skip(0) =~= s@);
    while i < n && crate::text::is_whitespace(s.get_char(i))
        invariant
            n == s@.len(),
            i <= n,
            crate::text::lead_ws(s@) == i + crate::text::lead_ws(s@.skip(i as int)),
        decreases n - i,
    {
        proof {
            assert(s@.skip(i as int).drop_first() =~= s@.skip(i + 1));
        }
        i += 1;
    }
    proof {
        if i < n {
            assert(s@.skip(i as int)[0] == s@[i as int]);
        }
    }
    s.substring_char(i, n)
}


/// Looking for the next non-blank line of `p + r` from a position in `r`
/// finds the same line `r` alone gives, shifted by `p`'s length.
proof fn lemma_next_nonblank_shift(p: Seq<Seq<char>>, r: Seq<Seq<char>>, i: int)
    requires
        0 <= i,
    ensures
        next_nonblank(p + r, p.len() + i) == match next_nonblank(r, i) {
            Some(j) => Some(p.len() + j),
            None => None::<int>,
        },
    decreases r.len() - i,
{
    if i < r.len() {
        assert((p + r)[p.len() + i] == r[i]);
        if trim(r[i]).len() == 0 {
            lemma_next_nonblank_shift(p, r, i + 1);
        }
    }
}

/// Parsing `p + r` from a position in `r` gives what parsing `r` alone
/// gives: lines before do not change how later ones are read.
proof fn lemma_parse_shift(p: Seq<Seq<char>>, r: Seq<Seq<char>>, i: int)
    requires
        0 <= i,
    ensures
        parse_from(p + r, p.len() + i) == parse_from(r, i),
    decreases r.len() - i,
{
    if i < r.len() {
        assert((p + r)[p.len() + i] == r[i]);
        lemma_next_nonblank_shift(p, r, i + 1);
        lemma_next_nonblank_range(r, i + 1);
        if tag_prefix().is_prefix_of(r[i]) {
            match next_nonblank(r, i + 1) {
                Some(j) => {
                    assert((p + r)[p.len() + j] == r[j]);
                    lemma_parse_shift(p, r, j + 1);
                },
                None => {},
            }
        } else {
            lemma_parse_shift(p, r, i + 1);
        }
    }
}

/// A managed block on its own lines: a tag line, then a schedule line that
/// is not blank and has at least five fields.
pub open spec fn block_lines(ls: Seq<Seq<char>>) -> bool {
    &&& ls.len() == 2
    &&& tag_prefix().is_prefix_of(ls[0])
    &&& trim(ls[1]).len() > 0
    &&& words(ls[1]).len() >= 5
}

/// Reading a managed block followed by any lines gives the block's entry
/// (its tag line's id, the first five fields of its schedule line, the
/// tag line's creation time) followed by what the later lines give on
/// their own; every block of a crontab is read, none is skipped. So a
/// crontab made of blocks reads as the entries of its blocks in order.
pub proof fn law_block_then_rest(block: Seq<Seq<char>>, rest: Seq<Seq<char>>)
    requires
        block_lines(block),
    ensures
        parse_from(block, 0) == Ok::<Seq<(Seq<char>, Seq<char>, Option<Timestamp>)>, Seq<char>>(
            seq![
                (
                    tag_fields(block[0].skip(tag_prefix().len() as int)).0,
                    join(words(block[1]).take(5), " "@),
                    created_of(tag_fields(block[0].skip(tag_prefix().len() as int)).1),
                ),
            ],
        ),
        parse_from(block + rest, 0) == match parse_from(rest, 0) {
            Ok(es) => Ok(parse_from(block, 0)->Ok_0 + es),
            Err(e) => Err(e),
        },
{
    let all = block + rest;
    assert(all[0] == block[0]);
    assert(all[1] == block[1]);
    assert(next_nonblank(all, 1) == Some(1int));
    assert(next_nonblank(block, 1) == Some(1int));
    lemma_parse_shift(block, rest, 0);
    assert(parse_from(block, 2) == Ok::<Seq<(Seq<char>, Seq<char>, Option<Timestamp>)>, Seq<char>>(seq![]));
    let e = (
        tag_fields(block[0].skip(tag_prefix().len() as int)).0,
        join(words(block[1]).take(5), " "@),
        created_of(tag_fields(block[0].skip(tag_prefix().len() as int)).1),
    );
    assert(seq![e] + Seq::<(Seq<char>, Seq<char>, Option<Timestamp>)>::empty() =~= seq![e]);
}

/// Two managed blocks one after the other read as both entries, in order:
/// the reading of the two is the reading of the first followed by the
/// reading of the second.
pub proof fn law_two_blocks(a: Seq<Seq<char>>, b: Seq<Seq<char>>)
    requires
        block_lines(a),
        block_lines(b),
    ensures
        parse_from(a, 0) is Ok,
        parse_from(b, 0) is Ok,
        parse_from(a + b, 0) == Ok::<Seq<(Seq<char>, Seq<char>, Option<Timestamp>)>, Seq<char>>(
            parse_from(a, 0)->Ok_0 + parse_from(b, 0)->Ok_0,
        ),
        (parse_from(a + b, 0)->Ok_0).len() == 2,
{
    law_block_then_rest(a, b);
    law_block_then_rest(b, seq![]);
}

} // verus!
