use vstd::prelude::*;
use chrono::Datelike;

verus! {

/// The built-in start date, midnight UTC of 2022-11-25, as seconds since the
/// Unix epoch, and its calendar parts.
pub const DEFAULT_START_SECS: i64 = 1669334400;

pub const DEFAULT_START_DAY: u32 = 25;

pub const DEFAULT_START_MONTH: u32 = 11;

pub const DEFAULT_START_YEAR: i32 = 2022;

/// Error returned when the supplied start date cannot be used: the string does
/// not parse as a calendar date, or the date lies in the future.
#[derive(Clone, Copy, Debug, PartialEq, Eq, Structural)]
pub enum DateError {
    InvalidInput,
}

/// A resolved start date: its timestamp, the whole days elapsed since it, and
/// the formatted `dd/mm/yyyy` label shown above the counter.
pub struct StartInfo {
    pub secs: i64,
    pub days: u64,
    pub label: String,
}

pub struct StartInfoView {
    pub secs: int,
    pub days: int,
    pub label: Seq<char>,
}

impl View for StartInfo {
    type V = StartInfoView;

    open spec fn view(&self) -> StartInfoView {
        StartInfoView { secs: self.secs as int, days: self.days as int, label: self.label@ }
    }
}

/// Number of whole days between two clock readings, both in seconds since the
/// Unix epoch. A reading earlier than the start counts as zero days.
pub open spec fn spec_days_between(start_secs: int, now_secs: int) -> int {
    if now_secs <= start_secs {
        0
    } else {
        (now_secs - start_secs) / 86400
    }
}

/// Whole days elapsed from `start_secs` to `now_secs`.
pub fn calc_days_since(start_secs: i64, now_secs: i64) -> (days: u64)
    ensures
        days == spec_days_between(start_secs as int, now_secs as int),
{
    if now_secs <= start_secs {
        0
    } else {
        let diff: u128 = (now_secs as i128 - start_secs as i128) as u128;
        (diff / 86400) as u64
    }
}

/// The decimal digits of `n`, most significant first.
pub open spec fn spec_decimal(n: int) -> Seq<char>
    decreases n,
{
    if n < 10 {
        seq![spec_digit(n)]
    } else {
        spec_decimal(n / 10) + seq![spec_digit(n % 10)]
    }
}

pub open spec fn spec_digit(d: int) -> char {
    if d == 0 {
        '0'
    } else if d == 1 {
        '1'
    } else if d == 2 {
        '2'
    } else if d == 3 {
        '3'
    } else if d == 4 {
        '4'
    } else if d == 5 {
        '5'
    } else if d == 6 {
        '6'
    } else if d == 7 {
        '7'
    } else if d == 8 {
        '8'
    } else {
        '9'
    }
}

fn digit_str(d: u64) -> (r: &'static str)
    requires
        d < 10,
    ensures
        r@ =~= seq![spec_digit(d as int)],
{
    if d == 0 {
        proof { reveal_strlit("0"); }
        "0"
    } else if d == 1 {
        proof { reveal_strlit("1"); }
        "1"
    } else if d == 2 {
        proof { reveal_strlit("2"); }
        "2"
    } else if d == 3 {
        proof { reveal_strlit("3"); }
        "3"
    } else if d == 4 {
        proof { reveal_strlit("4"); }
        "4"
    } else if d == 5 {
        proof { reveal_strlit("5"); }
        "5"
    } else if d == 6 {
        proof { reveal_strlit("6"); }
        "6"
    } else if d == 7 {
        proof { reveal_strlit("7"); }
        "7"
    } else if d == 8 {
        proof { reveal_strlit("8"); }
        "8"
    } else {
        proof { reveal_strlit("9"); }
        "9"
    }
}

/// Decimal rendering of `n`, without sign or padding.
pub fn decimal_string(n: u64) -> (r: String)
    ensures
        r@ == spec_decimal(n as int),
    decreases n,
{
    if n < 10 {
        let r = digit_str(n).to_owned();
        assert(r@ =~= spec_decimal(n as int));
        r
    } else {
        let mut r = decimal_string(n / 10);
        r.append(digit_str(n % 10));
        assert(r@ =~= spec_decimal(n as int));
        r
    }
}

/// `n` in decimal, left-padded with `0` to at least two digits.
pub open spec fn spec_pad2(n: int) -> Seq<char> {
    if n < 10 {
        seq![spec_digit(0)] + spec_decimal(n)
    } else {
        spec_decimal(n)
    }
}

pub fn two_digit(n: u32) -> (r: String)
    ensures
        r@ == spec_pad2(n as int),
{
    if n < 10 {
        let mut r = digit_str(0).to_owned();
        r.append(digit_str(n as u64));
        assert(r@ =~= spec_pad2(n as int));
        r
    } else {
        let r = decimal_string(n as u64);
        r
    }
}

/// `y` in decimal, with a leading minus sign when negative.
pub open spec fn spec_signed_decimal(y: int) -> Seq<char> {
    if y < 0 {
        seq!['-'] + spec_decimal(-y)
    } else {
        spec_decimal(y)
    }
}

pub fn signed_decimal_string(y: i32) -> (r: String)
    ensures
        r@ == spec_signed_decimal(y as int),
{
    if y < 0 {
        proof { reveal_strlit("-"); }
        let mut r = "-".to_owned();
        assert(r@ =~= seq!['-']);
        let mag: u64 = (-(y as i64)) as u64;
        r.append(decimal_string(mag).as_str());
        assert(r@ =~= spec_signed_decimal(y as int));
        r
    } else {
        decimal_string(y as u64)
    }
}

/// The start-date label `dd/mm/yyyy`, day and month zero-padded to two digits.
pub open spec fn spec_label(day: int, month: int, year: int) -> Seq<char> {
    spec_pad2(day) + seq!['/'] + spec_pad2(month) + seq!['/'] + spec_signed_decimal(year)
}

pub fn format_label(day: u32, month: u32, year: i32) -> (r: String)
    ensures
        r@ == spec_label(day as int, month as int, year as int),
{
    proof { reveal_strlit("/"); }
    assert("/"@ =~= seq!['/']);
    let mut r = two_digit(day);
    r.append("/");
    r.append(two_digit(month).as_str());
    r.append("/");
    r.append(signed_decimal_string(year).as_str());
    assert(r@ =~= spec_label(day as int, month as int, year as int));
    r
}

/// The current time, in seconds since the Unix epoch. Nothing is assumed of
/// the value: callers must hold for every reading.
///
/// Relies on std::time::SystemTime::now; the body only converts the reading
/// to signed epoch seconds, handling every case — a clock before the epoch
/// gives negative seconds — so no reading can make it panic.
#[verifier::external_body]
pub(crate) fn now_secs() -> i64 {
    match std::time::SystemTime::now().duration_since(std::time::UNIX_EPOCH) {
        Ok(since) => i64::try_from(since.as_secs()).unwrap_or(i64::MAX),
        Err(before) => match i64::try_from(before.duration().as_secs()) {
            Ok(s) => -s,
            Err(_) => i64::MIN,
        },
    }
}

/// What chrono's parser makes of a date string under the format
/// `%Y-%m-%dT%H-%M-%S%z`: `None` when the string does not parse, otherwise
/// the UTC timestamp in seconds and the calendar day, month and year.
pub uninterp spec fn parsed_date(s: Seq<char>) -> Option<(i64, u32, u32, i32)>;

/// Relies on chrono::DateTime::parse_from_str with format
/// `%Y-%m-%dT%H-%M-%S%z`, whose result depends on the string alone; the body
/// only converts that result to plain values through `with_timezone(&Utc)`
/// and the `timestamp`, `day`, `month` and `year` accessors.
#[verifier::external_body]
fn parse_date_parts(s: &str) -> (r: Option<(i64, u32, u32, i32)>)
    ensures
        r == parsed_date(s@),
{
    match chrono::DateTime::parse_from_str(s, "%Y-%m-%dT%H-%M-%S%z") {
        Ok(parsed) => {
            let d = parsed.with_timezone(&chrono::Utc);
            Some((d.timestamp(), d.day(), d.month(), d.year()))
        },
        Err(_) => None,
    }
}

/// The date argument, extended to midnight UTC as the parser's format wants it.
pub open spec fn spec_full_date(s: Seq<char>) -> Seq<char> {
    s + "T00-00-00+0000"@
}

/// How a start date resolves against the clock reading `now`: the date is
/// refused when it lies in the future, and otherwise yields the elapsed whole
/// days and the formatted label.
pub open spec fn spec_start_from_parts(
    secs: int,
    day: int,
    month: int,
    year: int,
    now: int,
) -> Result<StartInfoView, DateError> {
    if secs > now {
        Err(DateError::InvalidInput)
    } else {
        Ok(
            StartInfoView {
                secs,
                days: spec_days_between(secs, now),
                label: spec_label(day, month, year),
            },
        )
    }
}

/// The mathematical value of a resolution result.
pub open spec fn view_result(r: Result<StartInfo, DateError>) -> Result<StartInfoView, DateError> {
    match r {
        Ok(info) => Ok(info@),
        Err(e) => Err(e),
    }
}

/// The mathematical value of the optional date argument.
pub open spec fn view_arg(arg: Option<&str>) -> Option<Seq<char>> {
    match arg {
        Some(s) => Some(s@),
        None => None,
    }
}

/// Resolve a start date already split into its timestamp and calendar parts,
/// against the clock reading `now`.
pub fn start_from_parts(secs: i64, day: u32, month: u32, year: i32, now: i64) -> (r: Result<
    StartInfo,
    DateError,
>)
    ensures
        view_result(r) == spec_start_from_parts(
            secs as int,
            day as int,
            month as int,
            year as int,
            now as int,
        ),
{
    if secs > now {
        Err(DateError::InvalidInput)
    } else {
        Ok(
            StartInfo {
                secs,
                days: calc_days_since(secs, now),
                label: format_label(day, month, year),
            },
        )
    }
}

/// How the optional command-line date resolves at the clock reading `now`:
/// no argument falls back to the built-in date, an argument that chrono
/// cannot parse is invalid, and a parsed date is resolved against `now`.
pub open spec fn spec_resolve(arg: Option<Seq<char>>, now: int) -> Result<
    StartInfoView,
    DateError,
> {
    match arg {
        None => spec_start_from_parts(
            DEFAULT_START_SECS as int,
            DEFAULT_START_DAY as int,
            DEFAULT_START_MONTH as int,
            DEFAULT_START_YEAR as int,
            now,
        ),
        Some(s) => match parsed_date(spec_full_date(s)) {
            None => Err(DateError::InvalidInput),
            Some((secs, day, month, year)) => spec_start_from_parts(
                secs as int,
                day as int,
                month as int,
                year as int,
                now,
            ),
        },
    }
}

/// Resolve the optional command-line date against the clock reading `now`.
pub fn resolve_start_at(arg: Option<&str>, now: i64) -> (r: Result<StartInfo, DateError>)
    ensures
        view_result(r) == spec_resolve(view_arg(arg), now as int),
{
    match arg {
        None => start_from_parts(
            DEFAULT_START_SECS,
            DEFAULT_START_DAY,
            DEFAULT_START_MONTH,
            DEFAULT_START_YEAR,
            now,
        ),
        Some(s) => {
            proof { reveal_strlit("T00-00-00+0000"); }
            let mut full = s.to_owned();
            full.append("T00-00-00+0000");
            assert(full@ == spec_full_date(s@));
            match parse_date_parts(full.as_str()) {
                None => Err(DateError::InvalidInput),
                Some((secs, day, month, year)) => start_from_parts(secs, day, month, year, now),
            }
        },
    }
}

/// Resolve the optional command-line date against the clock now. The clock is
/// read once; the result is exactly the resolution at that reading.
pub fn resolve_start(arg: Option<&str>) -> (r: Result<StartInfo, DateError>)
    ensures
        exists|now: int| view_result(r) == #[trigger] spec_resolve(view_arg(arg), now),
{
    let now = now_secs();
    let r = resolve_start_at(arg, now);
    proof {
        assert(view_result(r) == spec_resolve(view_arg(arg), now as int));
    }
    r
}

} // verus!
