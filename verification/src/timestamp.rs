//! UTC instants as plain values: whole seconds since the Unix epoch and the
//! nanoseconds within that second, over the range of `chrono::DateTime<Utc>`.

use vstd::prelude::*;

verus! {

/// Earliest second `chrono::DateTime<Utc>` can hold (-262143-01-01T00:00:00Z).
pub const MIN_SECS: i64 = -8_334_601_315_200;

/// Latest second `chrono::DateTime<Utc>` can hold (+262142-12-31T23:59:59Z).
pub const MAX_SECS: i64 = 8_210_266_876_799;

/// Largest number of whole seconds `chrono::TimeDelta::from_std` accepts
/// (`TimeDelta::MAX` is `i64::MAX` milliseconds).
pub const MAX_DELTA_SECS: u64 = 9_223_372_036_854_775;

/// The parts of an instant chrono can hold: a second in its range, and
/// nanoseconds below one billion, or below two billion in a leap second
/// (the last second of a minute).
pub open spec fn valid_parts(secs: int, nanos: int) -> bool {
    &&& MIN_SECS <= secs <= MAX_SECS
    &&& 0 <= nanos
    &&& (nanos < 1_000_000_000 || (nanos < 2_000_000_000 && secs % 60 == 59))
}

/// An instant in UTC that `chrono::DateTime<Utc>` can hold.
#[derive(Debug, Clone, Copy, PartialEq, Eq, Hash, Structural)]
pub struct Timestamp {
    secs: i64,
    nanos: u32,
}

impl Timestamp {
    /// Whole seconds since the epoch.
    pub closed spec fn sec(self) -> int {
        self.secs as int
    }

    /// Nanoseconds within the second.
    pub closed spec fn nano(self) -> int {
        self.nanos as int
    }

    #[verifier::type_invariant]
    closed spec fn inv(self) -> bool {
        valid_parts(self.secs as int, self.nanos as int)
    }

    /// The parts are those of an instant chrono can hold.
    pub open spec fn valid(self) -> bool {
        valid_parts(self.sec(), self.nano())
    }

    /// `self` is not later than `other` (the order of `DateTime<Utc>`).
    pub open spec fn le(self, other: Timestamp) -> bool {
        self.sec() < other.sec() || (self.sec() == other.sec() && self.nano() <= other.nano())
    }

    /// The instant with the given parts.
    pub closed spec fn make(secs: int, nanos: int) -> Timestamp {
        Timestamp { secs: secs as i64, nanos: nanos as u32 }
    }

    pub proof fn lemma_make(secs: int, nanos: int)
        requires
            valid_parts(secs, nanos),
        ensures
            Timestamp::make(secs, nanos).sec() == secs,
            Timestamp::make(secs, nanos).nano() == nanos,
    {
    }

    /// Whole seconds since the epoch.
    pub fn secs(&self) -> (r: i64)
        ensures
            r == self.sec(),
    {
        self.secs
    }

    /// Nanoseconds within the second (one billion or more in a leap second).
    pub fn nanos(&self) -> (r: u32)
        ensures
            r == self.nano(),
    {
        self.nanos
    }

    /// Every `Timestamp` has valid parts.
    pub fn check_valid(&self)
        ensures
            self.valid(),
    {
        proof {
            use_type_invariant(self);
        }
    }

    /// The instant `secs` seconds and `nanos` nanoseconds after the epoch,
    /// when chrono can hold it (`DateTime::from_timestamp`).
    pub fn from_unix(secs: i64, nanos: u32) -> (r: Option<Timestamp>)
        ensures
            r is Some <==> valid_parts(secs as int, nanos as int),
            r matches Some(t) ==> t.sec() == secs && t.nano() == nanos,
    {
        if secs < MIN_SECS || secs > MAX_SECS {
            return None;
        }
        let in_minute = secs % 60;
        let in_minute_e = if in_minute < 0 {
            in_minute + 60
        } else {
            in_minute
        };
        proof {
            assert(in_minute_e == secs % 60);
        }
        if nanos < 1_000_000_000 || (nanos < 2_000_000_000 && in_minute_e == 59) {
            Some(Timestamp { secs, nanos })
        } else {
            None
        }
    }

    /// `self <= other`.
    pub fn at_or_before(&self, other: &Timestamp) -> (r: bool)
        ensures
            r == self.le(*other),
    {
        self.secs < other.secs || (self.secs == other.secs && self.nanos <= other.nanos)
    }
}

/// `t + TimeDelta::seconds(d)` as `DateTime::checked_add_signed` computes it
/// for `d >= 0`: a leap second is left when whole seconds are added, and the
/// sum is `None` past the end of chrono's range.
pub open spec fn add_secs(t: Timestamp, d: nat) -> Option<Timestamp> {
    if d == 0 {
        Some(t)
    } else if t.sec() + d > MAX_SECS {
        None
    } else {
        Some(
            Timestamp::make(
                t.sec() + d,
                if t.nano() >= 1_000_000_000 {
                    t.nano() - 1_000_000_000
                } else {
                    t.nano()
                },
            ),
        )
    }
}

/// `t` plus `d` whole seconds, `None` past the end of chrono's range.
pub fn checked_add_secs(t: Timestamp, d: u64) -> (r: Option<Timestamp>)
    ensures
        r == add_secs(t, d as nat),
{
    proof {
        use_type_invariant(&t);
    }
    if d == 0 {
        return Some(t);
    }
    let room = (MAX_SECS - t.secs) as u64;
    if d > room {
        return None;
    }
    let secs = t.secs + d as i64;
    let nanos = if t.nanos >= 1_000_000_000 {
        t.nanos - 1_000_000_000
    } else {
        t.nanos
    };
    proof {
        assert(secs % 60 == 59 ==> true);
    }
    Some(Timestamp { secs, nanos })
}

/// The `Display` text of chrono's `OutOfRangeError`.
pub open spec fn out_of_range_text() -> Seq<char> {
    "Source duration value is out of range for the target type"@
}

/// `chrono::TimeDelta::from_std` on `secs` whole seconds: chrono accepts
/// at most `MAX_DELTA_SECS` seconds (its `TimeDelta::MAX` is `i64::MAX`
/// milliseconds) and refuses more with an `OutOfRangeError`, whose text is
/// returned.
#[verifier::external_body]
pub(crate) fn delta_from_secs(secs: u64) -> (r: Result<(), String>)
    ensures
        r is Ok <==> secs <= MAX_DELTA_SECS,
        r matches Err(e) ==> e@ == out_of_range_text(),
{
    match chrono::TimeDelta::from_std(std::time::Duration::from_secs(secs)) {
        Ok(_) => Ok(()),
        Err(e) => Err(e.to_string()),
    }
}

/// Text of `DateTime::<Utc>::to_rfc3339` for the instant `t`.
pub uninterp spec fn rfc3339_text(t: Timestamp) -> Seq<char>;

/// What `DateTime::parse_from_rfc3339` gives for `s`, taken to UTC: the
/// instant, or the text of the parse error.
pub uninterp spec fn rfc3339_parse(s: Seq<char>) -> Result<Timestamp, Seq<char>>;

/// A character `to_rfc3339` writes for an instant in UTC: a digit or one
/// of `-`, `:`, `T`, `.`, `+`.
pub open spec fn rfc3339_char(c: char) -> bool {
    ||| ('0' <= c && c <= '9')
    ||| c == '-'
    ||| c == ':'
    ||| c == 'T'
    ||| c == '.'
    ||| c == '+'
}

/// First second of the year 0 (0000-01-01T00:00:00Z).
pub const RFC3339_MIN_SECS: i64 = -62_167_219_200;

/// Last second of the year 9999 (9999-12-31T23:59:59Z).
pub const RFC3339_MAX_SECS: i64 = 253_402_300_799;

/// The instant lies in the years 0 to 9999.
pub open spec fn four_digit_year(t: Timestamp) -> bool {
    RFC3339_MIN_SECS <= t.sec() <= RFC3339_MAX_SECS
}

/// `DateTime::parse_from_rfc3339` reads `s` as the instant `t`.
pub open spec fn reads_as(s: Seq<char>, t: Timestamp) -> bool {
    rfc3339_parse(s) == Ok::<Timestamp, Seq<char>>(t)
}

/// `chrono::DateTime::<Utc>::to_rfc3339` of the instant `t`, which the
/// contract names and does not spell out. From chrono's `write_rfc3339`:
/// the text is made of digits, the separators `-`, `T`, `:`, an optional
/// `.` fraction and the offset `+00:00` (a year outside 0..=9999 gets a
/// sign); for a year from 0 to 9999 the year has four digits and
/// `parse_from_rfc3339` reads the same instant back, leap second included.
#[verifier::external_body]
pub(crate) fn to_rfc3339(t: Timestamp) -> (r: String)
    ensures
        r@ == rfc3339_text(t),
        forall|i: int| 0 <= i < r@.len() ==> rfc3339_char(#[trigger] r@[i]),
        four_digit_year(t) ==> reads_as(r@, t),
{
    chrono::DateTime::from_timestamp(t.secs, t.nanos).unwrap().to_rfc3339()
}

/// `chrono::DateTime::parse_from_rfc3339(s)` taken to UTC; an error becomes
/// its `Display` text.
#[verifier::external_body]
pub(crate) fn parse_rfc3339(s: &str) -> (r: Result<Timestamp, String>)
    ensures
        r matches Ok(t) ==> (rfc3339_parse(s@) matches Ok(u) && u == t),
        r matches Err(e) ==> (rfc3339_parse(s@) matches Err(m) && m == e@),
{
    match chrono::DateTime::parse_from_rfc3339(s) {
        Ok(dt) => Ok(Timestamp { secs: dt.timestamp(), nanos: dt.timestamp_subsec_nanos() }),
        Err(e) => Err(e.to_string()),
    }
}

/// `chrono::Utc::now()`. Which instant comes back is the clock's; nothing
/// more is stated of it.
#[verifier::external_body]
pub(crate) fn utc_now() -> (r: Timestamp) {
    let now = chrono::Utc::now();
    Timestamp { secs: now.timestamp(), nanos: now.timestamp_subsec_nanos() }
}

/// The first firing of the schedule `expr` strictly after `after`, as
/// `Schedule::after(&after).next()` finds it.
pub uninterp spec fn cron_next(expr: Seq<char>, after: Timestamp) -> Option<Timestamp>;

/// `cron::Schedule::from_str(expr).ok()?.after(&after).next()`: the next
/// firing strictly after `after`. From the crate's source: an expression
/// that does not parse gives `None`; the search starts one second after
/// `after` and builds whole-second times in the years 1970..=2100, so a
/// firing is later than `after` by at least a second, has no fraction and
/// lies in chrono's range. `after` must leave room for that one second.
#[verifier::external_body]
pub(crate) fn next_fire_after(expr: &str, after: Timestamp) -> (r: Option<Timestamp>)
    requires
        after.sec() < MAX_SECS,
    ensures
        r == cron_next(expr@, after),
        crate::cron_job::cron_parse_error(expr@) is Some ==> r is None,
        r matches Some(t) ==> t.sec() > after.sec() && t.nano() == 0,
{
    let start = chrono::DateTime::from_timestamp(after.secs, after.nanos).unwrap();
    let schedule = <cron::Schedule as std::str::FromStr>::from_str(expr).ok()?;
    let next = schedule.after(&start).next()?;
    Some(Timestamp { secs: next.timestamp(), nanos: next.timestamp_subsec_nanos() })
}

/// What `<chrono::FixedOffset as FromStr>::from_str` makes of `s`: the
/// offset's seconds east of UTC, or the text of the parse error.
pub uninterp spec fn offset_parse(s: Seq<char>) -> Result<i32, Seq<char>>;

/// `chrono::FixedOffset::from_str(s)`: a UTC offset such as `+07:00` or
/// `-05:00`, as seconds east of UTC (chrono's `FixedOffset::east_opt`
/// holds it strictly within a day), or the `Display` text of the error.
#[verifier::external_body]
pub(crate) fn parse_utc_offset(s: &str) -> (r: Result<i32, String>)
    ensures
        r matches Ok(o) ==> (offset_parse(s@) matches Ok(x) && x == o && -86_400 < o < 86_400),
        r matches Err(e) ==> (offset_parse(s@) matches Err(m) && m == e@),
{
    match <chrono::FixedOffset as std::str::FromStr>::from_str(s) {
        Ok(o) => Ok(o.local_minus_utc()),
        Err(e) => Err(e.to_string()),
    }
}

/// The first firing of the schedule `expr`, read as wall-clock time at the
/// UTC offset `offset` (seconds east), strictly after `after`, as
/// `Schedule::after(&after_at_offset).next()` finds it.
pub uninterp spec fn cron_next_at(expr: Seq<char>, after: Timestamp, offset: int) -> Option<Timestamp>;

/// `cron::Schedule::from_str(expr).ok()?.after(&after.with_timezone(&offset)).next()`
/// taken back to UTC. From the crates' sources: an expression that does
/// not parse gives `None`; the search starts one second after `after` in
/// that offset's wall-clock time and builds whole-second times, so a firing
/// is later than `after` by at least a second and has no fraction. The
/// offset must be one `FixedOffset::east_opt` accepts, and `after`, one
/// second later and read at that offset, must stay in chrono's range.
#[verifier::external_body]
pub(crate) fn next_fire_after_at(expr: &str, after: Timestamp, offset: i32) -> (r: Option<Timestamp>)
    requires
        after.sec() < MAX_SECS,
        -86_400 < offset < 86_400,
        MIN_SECS <= after.sec() + offset,
        after.sec() + offset < MAX_SECS,
    ensures
        r == cron_next_at(expr@, after, offset as int),
        crate::cron_job::cron_parse_error(expr@) is Some ==> r is None,
        r matches Some(t) ==> t.sec() > after.sec() && t.nano() == 0,
{
    let zone = chrono::FixedOffset::east_opt(offset).unwrap();
    let start = chrono::DateTime::from_timestamp(after.secs, after.nanos).unwrap().with_timezone(&zone);
    let schedule = <cron::Schedule as std::str::FromStr>::from_str(expr).ok()?;
    let next = schedule.after(&start).next()?;
    Some(Timestamp { secs: next.timestamp(), nanos: next.timestamp_subsec_nanos() })
}

} // verus!
