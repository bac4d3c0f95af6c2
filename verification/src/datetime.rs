//! Calendar dates and instants, as the day and nanosecond counts that the
//! rules of the viewer compare and step through.
//!
//! Turning a date into text and back, and reading the clock, is the work of
//! `chrono`; everything else here is arithmetic on the counts.
use chrono::Datelike;
use vstd::prelude::*;

use crate::constants::{DISP_DATE_FMT, SRC_DATE_FMT};

verus! {

/// Day number of the earliest date that can be represented.
pub const MIN_DAY: i32 = -95_746_129;

/// Day number of the latest date that can be represented.
pub const MAX_DAY: i32 = 95_745_399;

/// Day number of January 1, 1970, from where the clock counts.
pub const EPOCH_DAY: i32 = 719_163;

/// Number of nanoseconds in a second.
pub const NANOS_PER_SEC: u32 = 1_000_000_000;

/// Number of seconds in an hour.
pub const SECS_PER_HOUR: i64 = 3_600;

/// `chrono::format::ParseError`: what `chrono` says of a text that it cannot
/// read as a date. It is carried through as it is; nothing is said of what
/// it holds.
#[verifier::external_type_specification]
#[verifier::external_body]
pub struct ExParseError(chrono::format::ParseError);

/// The day number of the calendar day `year`-`month`-`day`, where there is
/// such a day and it can be represented.
pub uninterp spec fn ymd_day_number(year: int, month: int, day: int) -> Option<int>;

/// The day number that `text` stands for when it is read by the format
/// `fmt`, where it can be read so.
pub uninterp spec fn parsed_day_number(text: Seq<char>, fmt: Seq<char>) -> Option<int>;

/// The text of the date with day number `days` in the format `fmt`.
pub uninterp spec fn formatted_date(days: int, fmt: Seq<char>) -> Seq<char>;

/// A calendar date, held as its day number in the proleptic Gregorian
/// calendar: January 1 of year 1 is day 1.
#[derive(Clone, Copy, Debug, PartialEq, Eq, PartialOrd, Ord, Hash, Structural)]
pub struct Date {
    days: i32,
}

impl View for Date {
    type V = int;

    closed spec fn view(&self) -> int {
        self.days as int
    }
}

/// `chrono::NaiveDate::from_ymd_opt`, followed by
/// `Datelike::num_days_from_ce`. Trusted: the day number is the one named by
/// [`ymd_day_number`], there is none exactly when `chrono` makes no date, and
/// the day number of a date that `chrono` made lies between those of
/// `NaiveDate::MIN` and `NaiveDate::MAX`.
#[verifier::external_body]
fn ymd_to_days(year: i32, month: u32, day: u32) -> (days: Option<i32>)
    ensures
        days matches Some(n) ==> ymd_day_number(year as int, month as int, day as int) == Some(
            n as int,
        ) && MIN_DAY <= n <= MAX_DAY,
        days is None ==> ymd_day_number(year as int, month as int, day as int) is None,
{
    chrono::NaiveDate::from_ymd_opt(year, month, day).map(|date| date.num_days_from_ce())
}

/// `chrono::NaiveDate::parse_from_str`, followed by
/// `Datelike::num_days_from_ce`. Trusted: the day number is the one named by
/// [`parsed_day_number`], the call fails exactly when there is none, and the
/// day number of a date that `chrono` made lies between those of
/// `NaiveDate::MIN` and `NaiveDate::MAX`.
#[verifier::external_body]
fn parse_days(text: &str, fmt: &str) -> (days: Result<i32, chrono::format::ParseError>)
    ensures
        days matches Ok(n) ==> parsed_day_number(text@, fmt@) == Some(n as int) && MIN_DAY <= n
            <= MAX_DAY,
        days is Err ==> parsed_day_number(text@, fmt@) is None,
{
    chrono::NaiveDate::parse_from_str(text, fmt).map(|date| date.num_days_from_ce())
}

/// `Display` of `chrono::format::ParseError`. Nothing is said of the text.
#[verifier::external_body]
pub(crate) fn parse_error_text(err: &chrono::format::ParseError) -> (text: String) {
    err.to_string()
}

/// `chrono::NaiveDate::from_num_days_from_ce_opt`, then `NaiveDate::format`
/// written out as a `String`. Trusted: the text is the one named by
/// [`formatted_date`]. `chrono` panics on a format that it cannot read, so
/// only the two formats of this crate are let in; and it makes a date of
/// every day number in the range that `date` is held to.
#[verifier::external_body]
fn format_days(date: &Date, fmt: &str) -> (text: String)
    requires
        fmt@ == SRC_DATE_FMT@ || fmt@ == DISP_DATE_FMT@,
    ensures
        text@ == formatted_date(date@, fmt@),
{
    chrono::NaiveDate::from_num_days_from_ce_opt(date.days).unwrap().format(fmt).to_string()
}

/// `chrono::Utc::now`, read as the day number of its date. Trusted: `chrono`
/// makes the instant out of the time that has passed since the start of
/// 1970, so the day is none before January 1, 1970, which is day
/// [`EPOCH_DAY`]; and the day number of a date that `chrono` made is no
/// later than that of `NaiveDate::MAX`. Nothing is said of which day it is.
/// `chrono` panics where the system clock stands before 1970.
#[verifier::external_body]
fn utc_today() -> (days: i32)
    ensures
        EPOCH_DAY <= days <= MAX_DAY,
{
    chrono::Utc::now().date_naive().num_days_from_ce()
}

/// `chrono::Utc::now`, read as whole seconds since the start of 1970
/// (`DateTime::timestamp`) and the nanoseconds past them
/// (`DateTime::timestamp_subsec_nanos`). Trusted: `chrono` makes the instant
/// out of the time that has passed since the start of 1970, so the seconds
/// are not negative, and out of less than a second beside them, so the
/// reading is never that of a leap second. Nothing is said of which instant
/// it is. `chrono` panics where the system clock stands before 1970.
#[verifier::external_body]
fn utc_now() -> (parts: (i64, u32))
    ensures
        parts.0 >= 0,
        parts.1 < NANOS_PER_SEC,
{
    let now = chrono::Utc::now();
    (now.timestamp(), now.timestamp_subsec_nanos())
}

impl Date {
    /// What every date is held to: its day number is that of a date that
    /// can be represented.
    #[verifier::type_invariant]
    pub closed spec fn in_range(self) -> bool {
        MIN_DAY <= self.days <= MAX_DAY
    }

    /// Whether `days` is the day number of a date that can be represented.
    pub open spec fn is_day_number(days: int) -> bool {
        MIN_DAY <= days <= MAX_DAY
    }

    /// The day number of a date that is held to its range lies between
    /// [`MIN_DAY`] and [`MAX_DAY`].
    pub proof fn lemma_day_number_in_range(self)
        requires
            self.in_range(),
        ensures
            Self::is_day_number(self@),
    {
    }

    /// The date of the calendar day `year`-`month`-`day`, if there is such a
    /// day and it can be represented.
    pub fn from_ymd_opt(year: i32, month: u32, day: u32) -> (date: Option<Date>)
        ensures
            date matches Some(d) ==> ymd_day_number(year as int, month as int, day as int) == Some(
                d@,
            ) && Self::is_day_number(d@),
            date is None <==> ymd_day_number(year as int, month as int, day as int) is None,
    {
        match ymd_to_days(year, month, day) {
            Some(days) => Some(Date { days }),
            None => None,
        }
    }

    /// The date with the day number `days`, if it can be represented.
    pub fn from_num_days_from_ce_opt(days: i32) -> (date: Option<Date>)
        ensures
            date is Some <==> Self::is_day_number(days as int),
            date matches Some(d) ==> d@ == days,
    {
        if MIN_DAY <= days && days <= MAX_DAY {
            Some(Date { days })
        } else {
            None
        }
    }

    /// The day number of the date.
    pub fn num_days_from_ce(&self) -> (days: i32)
        ensures
            days == self@,
            Self::is_day_number(days as int),
    {
        proof {
            use_type_invariant(self);
        }
        self.days
    }

    /// The day before, if it can be represented.
    pub fn pred_opt(&self) -> (date: Option<Date>)
        ensures
            date is Some <==> self@ > MIN_DAY,
            date matches Some(d) ==> d@ == self@ - 1,
    {
        proof {
            use_type_invariant(self);
        }
        if self.days > MIN_DAY {
            Some(Date { days: self.days - 1 })
        } else {
            None
        }
    }

    /// The day after, if it can be represented.
    pub fn succ_opt(&self) -> (date: Option<Date>)
        ensures
            date is Some <==> self@ < MAX_DAY,
            date matches Some(d) ==> d@ == self@ + 1,
    {
        proof {
            use_type_invariant(self);
        }
        if self.days < MAX_DAY {
            Some(Date { days: self.days + 1 })
        } else {
            None
        }
    }

    /// The date `offset` days after this one (before it, where `offset` is
    /// negative), if it can be represented.
    pub fn checked_add_days(&self, offset: i64) -> (date: Option<Date>)
        ensures
            date is Some <==> Self::is_day_number(self@ + offset),
            date matches Some(d) ==> d@ == self@ + offset,
    {
        proof {
            use_type_invariant(self);
        }
        match (self.days as i64).checked_add(offset) {
            Some(days) if MIN_DAY as i64 <= days && days <= MAX_DAY as i64 => Some(
                Date { days: days as i32 },
            ),
            _ => None,
        }
    }

    /// The number of days from `earlier` to this date; negative where this
    /// date is the earlier one.
    pub fn days_since(&self, earlier: &Date) -> (days: i64)
        ensures
            days == self@ - earlier@,
    {
        proof {
            use_type_invariant(self);
            use_type_invariant(earlier);
        }
        self.days as i64 - earlier.days as i64
    }

    /// Whether this date comes strictly after `other`.
    pub fn is_after(&self, other: &Date) -> (after: bool)
        ensures
            after == (self@ > other@),
    {
        self.days > other.days
    }

    /// Whether this date comes strictly before `other`.
    pub fn is_before(&self, other: &Date) -> (before: bool)
        ensures
            before == (self@ < other@),
    {
        self.days < other.days
    }

    /// The date as the source writes it in its paths, such as `2000-01-01`.
    pub fn to_src_string(&self) -> (text: String)
        ensures
            text@ == formatted_date(self@, SRC_DATE_FMT@),
    {
        format_days(self, SRC_DATE_FMT)
    }

    /// The date as it is shown beside a comic, such as
    /// `Saturday January 01, 2000`.
    pub fn to_display_string(&self) -> (text: String)
        ensures
            text@ == formatted_date(self@, DISP_DATE_FMT@),
    {
        format_days(self, DISP_DATE_FMT)
    }
}

/// Two dates are the same date exactly when their day numbers agree.
pub proof fn lemma_date_by_day_number(a: Date, b: Date)
    ensures
        (a == b) <==> (a@ == b@),
{
}

/// Convert the date string to a date.
///
/// # Arguments
/// * `date` - The input date
/// * `fmt` - The format of the input date
pub fn str_to_date(date: &str, fmt: &str) -> (parsed: Result<Date, chrono::format::ParseError>)
    ensures
        parsed matches Ok(d) ==> parsed_day_number(date@, fmt@) == Some(d@) && Date::is_day_number(
            d@,
        ),
        parsed is Err <==> parsed_day_number(date@, fmt@) is None,
{
    match parse_days(date, fmt) {
        Ok(days) => Ok(Date { days }),
        Err(err) => Err(err),
    }
}

/// Return the current date.
///
/// The timezone is fixed to UTC so that the code is independent of local time.
///
/// Which day it is depends on the clock. Whatever the clock says, the day is
/// none before January 1, 1970, from where the clock counts, so it has a day
/// before it.
pub fn curr_date() -> (today: Date)
    ensures
        Date::is_day_number(today@),
        today@ >= EPOCH_DAY,
{
    Date { days: utc_today() }
}

/// An instant, held as the whole seconds since the start of 1970 (UTC) and
/// the nanoseconds past them.
#[derive(Clone, Copy, Debug, PartialEq, Eq, PartialOrd, Ord, Hash, Structural)]
pub struct Timestamp {
    secs: i64,
    nanos: u32,
}

impl View for Timestamp {
    type V = int;

    /// The instant in nanoseconds since the start of 1970.
    open spec fn view(&self) -> int {
        Timestamp::nanos_of(self.spec_secs() as int, self.spec_subsec_nanos() as int)
    }
}

impl Timestamp {
    #[verifier::type_invariant]
    closed spec fn in_range(self) -> bool {
        self.nanos < NANOS_PER_SEC
    }

    /// The instant in nanoseconds of `nanos` nanoseconds past `secs` whole
    /// seconds. A leap second, which clocks report as a count of nanoseconds
    /// of one second or more, counts as the last nanosecond of its second.
    pub open spec fn nanos_of(secs: int, nanos: int) -> int {
        secs * NANOS_PER_SEC + if nanos < NANOS_PER_SEC {
            nanos
        } else {
            NANOS_PER_SEC - 1
        }
    }

    /// The whole seconds since the start of 1970.
    pub closed spec fn spec_secs(&self) -> i64 {
        self.secs
    }

    /// The nanoseconds past the whole seconds.
    pub closed spec fn spec_subsec_nanos(&self) -> u32 {
        self.nanos
    }

    /// The instant `nanos` nanoseconds past `secs` whole seconds since the
    /// start of 1970.
    pub fn new(secs: i64, nanos: u32) -> (instant: Timestamp)
        ensures
            instant@ == Self::nanos_of(secs as int, nanos as int),
            instant.spec_secs() == secs,
            instant.spec_subsec_nanos() == if nanos < NANOS_PER_SEC {
                nanos
            } else {
                (NANOS_PER_SEC - 1) as u32
            },
    {
        if nanos < NANOS_PER_SEC {
            Timestamp { secs, nanos }
        } else {
            Timestamp { secs, nanos: NANOS_PER_SEC - 1 }
        }
    }

    /// The whole seconds since the start of 1970.
    #[verifier::when_used_as_spec(spec_secs)]
    pub fn secs(&self) -> (secs: i64)
        ensures
            secs == self.spec_secs(),
    {
        self.secs
    }

    /// The nanoseconds past the whole seconds.
    #[verifier::when_used_as_spec(spec_subsec_nanos)]
    pub fn subsec_nanos(&self) -> (nanos: u32)
        ensures
            nanos == self.spec_subsec_nanos(),
            nanos < NANOS_PER_SEC,
    {
        proof {
            use_type_invariant(self);
        }
        self.nanos
    }

    /// Whether this instant lies no more than `window_secs` seconds before
    /// `now`; an instant after `now` does so too.
    pub fn is_within(&self, window_secs: i64, now: &Timestamp) -> (within: bool)
        ensures
            within == (self@ >= now@ - window_secs * NANOS_PER_SEC),
    {
        proof {
            use_type_invariant(self);
            use_type_invariant(now);
        }
        let bound: i128 = now.secs as i128 - window_secs as i128;
        let secs: i128 = self.secs as i128;
        secs > bound || (secs == bound && self.nanos >= now.nanos)
    }
}

/// Return the current datetime.
///
/// The timezone is fixed to UTC so that the code is independent of local time.
///
/// Which instant it is depends on the clock. Whatever the clock says, the
/// instant is none before the start of 1970, from where the clock counts.
pub fn curr_datetime() -> (now: Timestamp)
    ensures
        now.spec_secs() >= 0,
        now@ >= 0,
{
    let (secs, nanos) = utc_now();
    Timestamp::new(secs, nanos)
}

} // verus!
