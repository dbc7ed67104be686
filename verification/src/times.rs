//! Timezones, clock times, time bounds and the rendering of timestamps.
//!
//! The calendar is `chrono`'s: its dates, wall-clock times and offsets are
//! carried as values of its own types, and each is reasoned about by the
//! number of seconds that it stands for.

use crate::config::Config;
use crate::schedule;
use crate::text;
use chrono::TimeZone;
use vstd::prelude::*;
use vstd::string::*;

verus! {

broadcast use vstd::seq_lib::group_seq_properties;

// ------------------------------------------------------- the outside calendar

/// `chrono::NaiveDate`: a calendar date. What it stands for is
/// [`date_seconds`].
#[verifier::external_type_specification]
#[verifier::external_body]
pub struct ExNaiveDate(chrono::NaiveDate);

/// `chrono::NaiveDateTime`: a date and a wall-clock time. What it stands for
/// is [`wall_seconds`].
#[verifier::external_type_specification]
#[verifier::external_body]
pub struct ExNaiveDateTime(chrono::NaiveDateTime);

/// `chrono::FixedOffset`: an offset from UTC. What it stands for is
/// [`offset_seconds`].
#[verifier::external_type_specification]
#[verifier::external_body]
pub struct ExFixedOffset(chrono::FixedOffset);

/// Seconds from 1970-01-01 00:00 to the start of a date, both in one zone.
pub uninterp spec fn date_seconds(date: chrono::NaiveDate) -> int;

/// Seconds from 1970-01-01 00:00 to a wall-clock time, both in one zone.
pub uninterp spec fn wall_seconds(time: chrono::NaiveDateTime) -> int;

/// Seconds by which an offset lies east of UTC.
pub uninterp spec fn offset_seconds(offset: chrono::FixedOffset) -> int;

/// Whether the calendar reaches a number of seconds: years -262143 to 262142.
pub open spec fn in_calendar(seconds: int) -> bool {
    -8334601228800 <= seconds <= 8210266876799
}

/// Whether seconds lie in a year that is written with four digits: 0 to 9999.
pub open spec fn in_plain_years(seconds: int) -> bool {
    -62167219200 <= seconds <= 253402300799
}

/// Whether a text starts with a year of four digits.
pub open spec fn plain_year(s: Seq<char>) -> bool {
    s.len() >= 5 && text::all_digits(s.take(4)) && s[4] == '-'
}

/// Whether `s` has the form `YYYY-MM-DD HH:MM:SS`.
pub open spec fn is_stamp(s: Seq<char>) -> bool {
    &&& s.len() == 19
    &&& s[4] == '-' && s[7] == '-' && s[10] == ' ' && s[13] == ':' && s[16] == ':'
    &&& forall|i: int|
        0 <= i < 19 && i != 4 && i != 7 && i != 10 && i != 13 && i != 16 ==> text::ascii_digit(
            #[trigger] s[i],
        )
}

/// Whether a format is one of those of a date and a time.
pub open spec fn moment_format(format: Seq<char>) -> bool {
    ||| format == "%Y-%m-%d %H:%M:%S"@
    ||| format == "%Y-%m-%d %H:%M"@
    ||| format == "%Y-%m-%dT%H:%M:%S"@
    ||| format == "%Y-%m-%dT%H:%M"@
}

/// The wall-clock time that `text` writes in the format `format`, in seconds.
pub uninterp spec fn read_wall(text: Seq<char>, format: Seq<char>) -> Option<int>;

/// `NaiveDateTime::parse_from_str`. Claimed: whether it succeeds, and the
/// time that it gives, depends on the two texts alone; the time lies in the
/// calendar. In the formats of a date and a time, what it reads is no date
/// alone, and a year of four digits is just that year.
#[verifier::external_body]
fn parse_wall(text: &str, format: &str) -> (r: Option<chrono::NaiveDateTime>)
    ensures
        match r {
            Some(time) => {
                &&& read_wall(text@, format@) == Some(wall_seconds(time))
                &&& in_calendar(wall_seconds(time))
                &&& moment_format(format@) ==> read_date(text@, "%Y-%m-%d"@) is None
                &&& moment_format(format@) && plain_year(text@) ==> in_plain_years(
                    wall_seconds(time),
                )
            },
            None => read_wall(text@, format@) is None,
        },
{
    chrono::NaiveDateTime::parse_from_str(text, format).ok()
}

/// The date that `text` writes in the format `format`, in seconds.
pub uninterp spec fn read_date(text: Seq<char>, format: Seq<char>) -> Option<int>;

/// `NaiveDate::parse_from_str`. Claimed: whether it succeeds, and the date
/// that it gives, depends on the two texts alone; the date lies in the
/// calendar. In the format of a bare date, the text with `00:00:00` behind it
/// is read as the first second of the date, and a year of four digits is just
/// that year.
#[verifier::external_body]
fn parse_date(text: &str, format: &str) -> (r: Option<chrono::NaiveDate>)
    ensures
        match r {
            Some(date) => {
                &&& read_date(text@, format@) == Some(date_seconds(date))
                &&& in_calendar(date_seconds(date))
                &&& format@ == "%Y-%m-%d"@ ==> read_wall(
                    text@ + " 00:00:00"@,
                    "%Y-%m-%d %H:%M:%S"@,
                ) == Some(date_seconds(date))
                &&& format@ == "%Y-%m-%d"@ && plain_year(text@) ==> in_plain_years(
                    date_seconds(date),
                ) && in_plain_years(date_seconds(date) + 86399)
            },
            None => read_date(text@, format@) is None,
        },
{
    chrono::NaiveDate::parse_from_str(text, format).ok()
}

/// `NaiveDate::and_hms_opt`. Claimed: for a valid time of day it gives that
/// time on the date, which lies in the calendar, and nothing for any other.
#[verifier::external_body]
fn time_on(date: &chrono::NaiveDate, hour: u32, min: u32, sec: u32) -> (r: Option<
    chrono::NaiveDateTime,
>)
    ensures
        match r {
            Some(time) => hour < 24 && min < 60 && sec < 60 && wall_seconds(time) == date_seconds(
                *date,
            ) + 3600 * hour + 60 * min + sec && in_calendar(wall_seconds(time)),
            None => hour >= 24 || min >= 60 || sec >= 60,
        },
{
    date.and_hms_opt(hour, min, sec)
}

/// `NaiveDateTime::and_utc` and `timestamp`: the unix timestamp of a
/// wall-clock time that is read in UTC.
#[verifier::external_body]
fn utc_timestamp(time: &chrono::NaiveDateTime) -> (r: i64)
    ensures
        r == wall_seconds(*time),
{
    time.and_utc().timestamp()
}

/// `FixedOffset::east_opt`. Claimed: it gives the offset where it is less
/// than a day, and nothing otherwise.
#[verifier::external_body]
fn east(secs: i32) -> (r: Option<chrono::FixedOffset>)
    ensures
        match r {
            Some(offset) => -86400 < secs < 86400 && offset_seconds(offset) == secs,
            None => !(-86400 < secs < 86400),
        },
{
    chrono::FixedOffset::east_opt(secs)
}

/// `TimeZone::from_local_datetime` of an offset, `single` and `timestamp`.
/// Claimed: the timestamp is the wall-clock time less the offset, and nothing
/// comes back only where that lies outside the calendar.
#[verifier::external_body]
fn offset_timestamp(time: &chrono::NaiveDateTime, offset: &chrono::FixedOffset) -> (r: Option<i64>)
    ensures
        match r {
            Some(t) => t == wall_seconds(*time) - offset_seconds(*offset) && in_calendar(t as int),
            None => !in_calendar(wall_seconds(*time) - offset_seconds(*offset)),
        },
{
    offset.from_local_datetime(time).single().map(|t| t.timestamp())
}

/// Whether a timestamp, where there is one, belongs to a wall-clock time in
/// some zone: the offset is less than a day.
pub open spec fn in_some_zone(t: Option<i64>, wall: int) -> bool {
    t matches Some(t) ==> -86400 < wall - t < 86400 && in_calendar(t as int)
}

/// `TimeZone::from_local_datetime` of the machine's zone, `earliest` and
/// `timestamp`. Claimed: the timestamp is the wall-clock time less an offset
/// of under a day. Which offset, and whether the zone has the time at all,
/// rests on the machine's timezone.
#[verifier::external_body]
fn local_timestamp(time: &chrono::NaiveDateTime) -> (r: Option<i64>)
    ensures
        in_some_zone(r, wall_seconds(*time)),
{
    chrono::Local.from_local_datetime(time).earliest().map(|t| t.timestamp())
}

/// The date and time of day of a timestamp at an offset, as
/// `YYYY-MM-DD HH:MM:SS`.
pub uninterp spec fn wall_text(epoch: int, offset: int) -> Seq<char>;

/// `DateTime::from_timestamp`, `with_timezone` and `format`. Claimed: there is
/// a text exactly where the calendar reaches the timestamp, and it depends on
/// the timestamp and the offset alone. In a year of four digits it has the
/// form `YYYY-MM-DD HH:MM:SS`, and parsing gives back what was written.
#[verifier::external_body]
fn offset_text(epoch: i64, offset: &chrono::FixedOffset) -> (r: Option<String>)
    ensures
        match r {
            Some(text) => {
                &&& in_calendar(epoch as int)
                &&& text@ == wall_text(epoch as int, offset_seconds(*offset))
                &&& in_plain_years(epoch + offset_seconds(*offset)) ==> is_stamp(text@)
                    && read_wall(text@, "%Y-%m-%d %H:%M:%S"@) == Some(
                    epoch + offset_seconds(*offset),
                )
            },
            None => !in_calendar(epoch as int),
        },
{
    let utc = chrono::DateTime::from_timestamp(epoch, 0)?;
    Some(utc.with_timezone(offset).format("%Y-%m-%d %H:%M:%S").to_string())
}

/// `DateTime::from_timestamp`, `with_timezone` to the machine's zone,
/// `format`, and the offset that the zone has at that instant. Claimed: there
/// is a result exactly where the calendar reaches the timestamp, the offset is
/// less than a day, and the text is that of the timestamp at the offset. Which
/// offset it is rests on the machine's timezone.
#[verifier::external_body]
fn local_text(epoch: i64) -> (r: Option<(String, i32)>)
    ensures
        r is Some == in_calendar(epoch as int),
        r matches Some(local) ==> -86400 < local.1 < 86400 && local.0@ == wall_text(
            epoch as int,
            local.1 as int,
        ),
{
    let utc = chrono::DateTime::from_timestamp(epoch, 0)?;
    let local = utc.with_timezone(&chrono::Local);
    Some((local.format("%Y-%m-%d %H:%M:%S").to_string(), local.offset().local_minus_utc()))
}

/// `Local::now` and the offset that the machine's zone has now. Claimed: it
/// is less than a day.
#[verifier::external_body]
fn machine_offset_secs() -> (r: i32)
    ensures
        -86400 < r < 86400,
{
    chrono::Local::now().offset().local_minus_utc()
}

/// A timestamp in UTC, as RFC 3339.
pub uninterp spec fn rfc3339(epoch: int) -> Seq<char>;

/// `DateTime::from_timestamp` and `to_rfc3339`. Claimed: there is a text
/// exactly where the calendar reaches the timestamp, and it depends on the
/// timestamp alone.
#[verifier::external_body]
fn rfc3339_text(epoch: i64) -> (r: Option<String>)
    ensures
        match r {
            Some(text) => in_calendar(epoch as int) && text@ == rfc3339(epoch as int),
            None => !in_calendar(epoch as int),
        },
{
    chrono::DateTime::from_timestamp(epoch, 0).map(|t| t.to_rfc3339())
}

/// `Utc::now` and `timestamp`: the current time, in seconds. Claimed: it lies
/// in the calendar. Otherwise it rests on the machine's clock.
#[verifier::external_body]
fn clock_seconds() -> (r: i64)
    ensures
        in_calendar(r as int),
{
    chrono::Utc::now().timestamp()
}

/// Whether the calendar reaches a number of milliseconds.
pub open spec fn millis_in_calendar(millis: int) -> bool {
    in_calendar(millis / 1000)
}

/// `Utc::now` and `timestamp_millis`: the current time, in milliseconds.
/// Claimed: it lies in the calendar. Otherwise it rests on the machine's
/// clock.
#[verifier::external_body]
fn clock_millis() -> (r: i64)
    ensures
        millis_in_calendar(r as int),
{
    chrono::Utc::now().timestamp_millis()
}

/// The current unix timestamp. It rests on the machine's clock, and lies in
/// the calendar.
pub fn now() -> (r: i64)
    ensures
        in_calendar(r as int),
{
    clock_seconds()
}

/// The current unix timestamp in milliseconds. It rests on the machine's
/// clock, and lies in the calendar.
pub fn now_millis() -> (r: i64)
    ensures
        millis_in_calendar(r as int),
{
    clock_millis()
}

/// A timestamp as it is shown, RFC 3339 in UTC; the bare number where the
/// calendar does not reach it.
pub open spec fn shown_time(ts: int) -> Seq<char> {
    if in_calendar(ts) {
        rfc3339(ts)
    } else {
        text::dec_int(ts)
    }
}

/// A timestamp as it is shown.
pub fn human_time(ts: i64) -> (r: String)
    ensures
        r@ == shown_time(ts as int),
{
    match rfc3339_text(ts) {
        Some(shown) => shown,
        None => {
            let mut s = String::new();
            text::push_dec_int(&mut s, ts);
            proof {
                assert(s@ =~= text::dec_int(ts as int));
            }
            s
        },
    }
}

// ------------------------------------------------------------------- on or off

/// What an on/off word means.
pub open spec fn on_off(state: Seq<char>) -> Option<bool> {
    let s = text::ascii_lower(state);
    if s == "on"@ || s == "1"@ || s == "true"@ {
        Some(true)
    } else if s == "off"@ || s == "0"@ || s == "false"@ {
        Some(false)
    } else {
        None
    }
}

/// `on`, `1`, `true` or `off`, `0`, `false`, in any case.
pub fn parse_on_off(state: &str) -> (r: Result<bool, String>)
    ensures
        match on_off(state@) {
            Some(on) => r == Ok::<bool, String>(on),
            None => r matches Err(m) && m@ == "expected on or off, got '"@ + text::ascii_lower(
                state@,
            ) + "'"@,
        },
{
    let lower = text::to_ascii_lower(state);
    let s = lower.as_str();
    if text::same(s, "on") || text::same(s, "1") || text::same(s, "true") {
        Ok(true)
    } else if text::same(s, "off") || text::same(s, "0") || text::same(s, "false") {
        Ok(false)
    } else {
        let mut m = "expected on or off, got '".to_owned();
        m.append(s);
        m.append("'");
        Err(m)
    }
}

// --------------------------------------------------------------- ago durations

/// Seconds in one unit of a duration.
pub open spec fn unit_seconds(unit: char) -> Option<int> {
    if unit == 's' {
        Some(1)
    } else if unit == 'm' {
        Some(60)
    } else if unit == 'h' {
        Some(3600)
    } else if unit == 'd' {
        Some(86400)
    } else {
        None
    }
}

/// The seconds of a duration like `30s`, `5m`, `2h`, `1d`, however many.
pub open spec fn ago(s: Seq<char>) -> Option<int> {
    let t = text::trim(s);
    if t.len() < 2 || !text::all_digits(t.drop_last()) {
        None
    } else {
        match (text::parse_i64(t.drop_last()), unit_seconds(t.last())) {
            (Some(n), Some(unit)) => Some(n * unit),
            _ => None,
        }
    }
}

/// Whether the seconds of a duration fit `i64`, where `s` is one.
pub open spec fn ago_fits(s: Seq<char>) -> bool {
    ago(s) matches Some(n) ==> schedule::fits(n)
}

/// The count and the unit's seconds of a duration.
fn ago_parts(s: &str) -> (r: Option<(i64, i64)>)
    ensures
        match r {
            Some(parts) => ago(s@) == Some(parts.0 * parts.1) && parts.0 >= 0 && 1 <= parts.1
                <= 86400,
            None => ago(s@) is None,
        },
{
    let t = text::trimmed(s);
    let v = text::chars_of(t.as_str());
    let n = v.len();
    if n < 2 {
        return None;
    }
    let mut i: usize = 0;
    while i < n - 1
        invariant
            n == v@.len(),
            n >= 2,
            v@ == t@,
            t@ == text::trim(s@),
            i <= n - 1,
            forall|j: int| 0 <= j < i ==> text::ascii_digit(#[trigger] v@.drop_last()[j]),
        decreases n - i,
    {
        if !('0' <= v[i] && v[i] <= '9') {
            proof {
                assert(!text::ascii_digit(t@.drop_last()[i as int]));
            }
            return None;
        }
        i = i + 1;
    }
    let num = text::part_of(&v, 0, n - 1);
    proof {
        assert(num@ =~= t@.drop_last());
        assert(text::all_digits(num@));
    }
    let unit = v[n - 1];
    let secs: i64 = if unit == 's' {
        1
    } else if unit == 'm' {
        60
    } else if unit == 'h' {
        3600
    } else if unit == 'd' {
        86400
    } else {
        return None;
    };
    match text::to_i64(num.as_str()) {
        Some(n) => {
            proof {
                assert(text::ascii_digit(num@[0]));
            }
            Some((n, secs))
        },
        None => None,
    }
}

/// Whether the seconds of a duration fit: true of anything that is none.
pub fn ago_in_range(s: &str) -> (r: bool)
    ensures
        r == ago_fits(s@),
{
    match ago_parts(s) {
        Some(parts) => parts.0.checked_mul(parts.1).is_some(),
        None => true,
    }
}

/// Seconds for an "ago" bound like `30s`, `5m`, `2h`, `1d`; `None` when the
/// string is not a plain duration.
pub fn parse_ago_secs(s: &str) -> (r: Option<i64>)
    requires
        ago_fits(s@),
    ensures
        match r {
            Some(n) => ago(s@) == Some(n as int) && n >= 0,
            None => ago(s@) is None,
        },
{
    match ago_parts(s) {
        Some(parts) => {
            proof {
                assert(parts.0 * parts.1 >= 0) by (nonlinear_arith)
                    requires
                        parts.0 >= 0,
                        parts.1 >= 1,
                ;
            }
            Some(parts.0 * parts.1)
        },
        None => None,
    }
}

// ------------------------------------------------------------------ clock times

/// The number that `s` writes with digits alone, where it is `hi` at most.
pub open spec fn up_to(s: Seq<char>, hi: int) -> Option<int> {
    match text::unsigned_value(s) {
        Some(n) => if n <= hi {
            Some(n as int)
        } else {
            None
        },
        None => None,
    }
}

/// The number that `s` writes with digits alone, where it is `hi` at most.
fn number_up_to(s: &str, hi: i64) -> (r: Option<i64>)
    requires
        0 <= hi,
    ensures
        match r {
            Some(n) => up_to(s@, hi as int) == Some(n as int) && 0 <= n <= hi,
            None => up_to(s@, hi as int) is None,
        },
{
    let v = text::chars_of(s);
    proof {
        assert(v@.skip(0) =~= s@);
    }
    match text::digits_from(&v, 0) {
        Some(n) => if n <= hi as u64 {
            Some(n as i64)
        } else {
            None
        },
        None => None,
    }
}

/// Hours and minutes as minutes.
pub open spec fn minutes_of(h: Option<int>, m: Option<int>) -> Option<int> {
    match (h, m) {
        (Some(h), Some(m)) => Some(60 * h + m),
        _ => None,
    }
}

/// The minutes of the day that a clock time writes.
pub open spec fn local_time_of(input: Seq<char>) -> Option<int> {
    let s = text::trim(input);
    match text::split_once(s, ":"@) {
        Some(hm) => minutes_of(
            up_to(text::trim(hm.0), 23),
            up_to(text::trim(hm.1), 59),
        ),
        None => up_to(s, 1439),
    }
}

/// Parses a local clock time into minutes of the day (0 to 1439): a clock
/// time like `19:25` or `8:05`, or plain minutes of the day like `480`. The
/// numbers carry no sign.
pub fn parse_local_time(input: &str) -> (r: Option<u64>)
    ensures
        match r {
            Some(n) => local_time_of(input@) == Some(n as int) && n < 1440,
            None => local_time_of(input@) is None,
        },
{
    let s = text::trimmed(input);
    match text::split_at_first(s.as_str(), ":") {
        Some(hm) => {
            let h = number_up_to(text::trimmed(hm.0.as_str()).as_str(), 23);
            let m = number_up_to(text::trimmed(hm.1.as_str()).as_str(), 59);
            match (h, m) {
                (Some(h), Some(m)) => Some((h * 60 + m) as u64),
                _ => None,
            }
        },
        None => match number_up_to(s.as_str(), 1439) {
            Some(n) => Some(n as u64),
            None => None,
        },
    }
}

// -------------------------------------------------------------------- timezones

/// The minutes that an offset writes after its sign.
pub open spec fn tz_minutes(rest: Seq<char>) -> Option<int> {
    match text::split_once(rest, ":"@) {
        Some(hm) => minutes_of(
            up_to(hm.0, 23),
            up_to(hm.1, 59),
        ),
        None => match text::strip_suffix(rest, "min"@) {
            Some(num) => up_to(num, 1439),
            None => match (text::strip_suffix(rest, "h"@), text::strip_suffix(rest, "H"@)) {
                (Some(num), _) => minutes_of(up_to(num, 23), Some(0)),
                (None, Some(num)) => minutes_of(up_to(num, 23), Some(0)),
                (None, None) => None,
            },
        },
    }
}

/// The minutes east of UTC that an offset writes.
pub open spec fn tz_of(input: Seq<char>) -> Option<int> {
    let s = text::trim(input);
    if s.len() > 1 && s[0] == '+' {
        tz_minutes(s.drop_first())
    } else if s.len() > 1 && s[0] == '-' {
        match tz_minutes(s.drop_first()) {
            Some(n) => Some(-n),
            None => None,
        }
    } else {
        None
    }
}

/// The minutes that an offset writes after its sign.
fn unsigned_tz(rest: &str) -> (r: Option<i64>)
    ensures
        match r {
            Some(n) => tz_minutes(rest@) == Some(n as int) && 0 <= n < 1440,
            None => tz_minutes(rest@) is None,
        },
{
    match text::split_at_first(rest, ":") {
        Some(hm) => {
            let h = number_up_to(hm.0.as_str(), 23);
            let m = number_up_to(hm.1.as_str(), 59);
            match (h, m) {
                (Some(h), Some(m)) => Some(h * 60 + m),
                _ => None,
            }
        },
        None => match text::without_suffix(rest, "min") {
            Some(num) => number_up_to(num.as_str(), 1439),
            None => {
                let num = match text::without_suffix(rest, "h") {
                    Some(num) => num,
                    None => match text::without_suffix(rest, "H") {
                        Some(num) => num,
                        None => {
                            return None;
                        },
                    },
                };
                match number_up_to(num.as_str(), 23) {
                    Some(n) => Some(n * 60),
                    None => None,
                }
            },
        },
    }
}

/// Parses a timezone value into minutes east of UTC. One sign is mandatory,
/// digits alone follow it, and only these forms are accepted: `+8h`, `-5h`;
/// `+480min`, `-300min`; `+08:00`, `-08:20`, `+8:00`.
pub fn parse_tz(input: &str) -> (r: Option<i64>)
    ensures
        match r {
            Some(n) => tz_of(input@) == Some(n as int) && -1440 < n < 1440,
            None => tz_of(input@) is None,
        },
{
    let s = text::trimmed(input);
    let v = text::chars_of(s.as_str());
    if v.len() < 2 || !(v[0] == '+' || v[0] == '-') {
        return None;
    }
    let rest = text::part_of(&v, 1, v.len());
    proof {
        assert(rest@ =~= s@.drop_first());
    }
    match unsigned_tz(rest.as_str()) {
        Some(n) => if v[0] == '-' {
            Some(-n)
        } else {
            Some(n)
        },
        None => None,
    }
}

/// The magnitude of a number.
pub open spec fn magnitude_of(n: int) -> nat {
    if n < 0 {
        (-n) as nat
    } else {
        n as nat
    }
}

/// The name of an offset.
pub open spec fn tz_name(min: int) -> Seq<char> {
    "UTC"@ + (if min < 0 {
        "-"@
    } else {
        "+"@
    }) + text::dec2(magnitude_of(min) / 60) + ":"@ + text::dec2(magnitude_of(min) % 60)
}

/// A human-readable timezone name for an offset in minutes east of UTC, e.g.
/// `UTC+08:00`, `UTC-05:30`; zero is written `UTC+00:00`.
pub fn tz_label(min: i64) -> (r: String)
    requires
        min != i64::MIN,
    ensures
        r@ == tz_name(min as int),
{
    let mut s = "UTC".to_owned();
    let abs: u64 = if min < 0 {
        s.append("-");
        (-min) as u64
    } else {
        s.append("+");
        min as u64
    };
    text::push_dec2(&mut s, abs / 60);
    s.append(":");
    text::push_dec2(&mut s, abs % 60);
    s
}

/// Minutes of a number of seconds, towards zero.
pub open spec fn whole_minutes(secs: int) -> int {
    if secs < 0 {
        -((-secs) / 60)
    } else {
        secs / 60
    }
}

/// Minutes of a number of seconds, towards zero.
fn to_minutes(secs: i32) -> (r: i64)
    requires
        -86400 < secs < 86400,
    ensures
        r == whole_minutes(secs as int),
        -1440 < r < 1440,
{
    if secs < 0 {
        let back: i64 = (-secs) as i64 / 60;
        -back
    } else {
        secs as i64 / 60
    }
}

/// The machine's current UTC offset in minutes east of UTC. It rests on the
/// machine's timezone; it is less than a day.
pub fn machine_offset_min() -> (r: i64)
    ensures
        -1440 < r < 1440,
{
    to_minutes(machine_offset_secs())
}

/// How an offset that cannot be read is reported.
pub open spec fn bad_config_tz(s: Seq<char>) -> Seq<char> {
    "invalid `tz` in config: '"@ + s
        + "' (use a signed offset like +8h / +480min / +08:00)"@
}

/// The offset in effect, given the machine's own.
pub open spec fn effective_tz(tz: Option<Seq<char>>, arg: Option<i64>, machine: int) -> Result<
    int,
    Seq<char>,
> {
    match (arg, tz) {
        (Some(min), _) => Ok(min as int),
        (None, Some(s)) => match tz_of(s) {
            Some(min) => Ok(min),
            None => Err(bad_config_tz(s)),
        },
        (None, None) => Ok(machine),
    }
}

/// What a fallible function gave.
pub open spec fn outcome_of(r: Result<i64, String>) -> Result<int, Seq<char>> {
    match r {
        Ok(n) => Ok(n as int),
        Err(m) => Err(m@),
    }
}

/// The offset in effect, given the machine's own: the argument, else the
/// configured one, else the machine's.
pub fn resolve_tz_with(cfg: &Config, arg: Option<i64>, machine: i64) -> (r: Result<i64, String>)
    ensures
        outcome_of(r) == effective_tz(text::opt_view(cfg.tz), arg, machine as int),
{
    if let Some(min) = arg {
        return Ok(min);
    }
    match &cfg.tz {
        Some(s) => match parse_tz(s.as_str()) {
            Some(min) => Ok(min),
            None => {
                let mut m = "invalid `tz` in config: '".to_owned();
                m.append(s.as_str());
                m.append("' (use a signed offset like +8h / +480min / +08:00)");
                Err(m)
            },
        },
        None => Ok(machine),
    }
}

/// Resolves the timezone offset of the plugs, in minutes east of UTC: the
/// argument, then the configured one, then the machine's.
pub fn resolve_tz(cfg: &Config, arg: Option<i64>) -> (r: Result<i64, String>)
    ensures
        arg is Some || cfg.tz is Some ==> outcome_of(r) == effective_tz(
            text::opt_view(cfg.tz),
            arg,
            0,
        ),
        arg is None && cfg.tz is None ==> (r matches Ok(min) && -1440 < min < 1440),
{
    if arg.is_some() || cfg.tz.is_some() {
        resolve_tz_with(cfg, arg, 0)
    } else {
        Ok(machine_offset_min())
    }
}

/// The warning that goes with an offset that is the machine's.
pub open spec fn tz_warning_text(min: int) -> Seq<char> {
    "warning: no --tz or config `tz` set; assuming the machine's local offset "@ + text::dec_int(
        min,
    ) + " min ("@ + tz_name(min)
        + ") for plug-local times (timers and absolute log windows) — use --tz or set `tz` in the config if the plug is in another timezone"@
}

/// The warning that goes with the resolved offset `min`: there is one where
/// neither an argument nor the configuration gave it.
pub fn tz_warning(cfg: &Config, arg: Option<i64>, min: i64) -> (r: Option<String>)
    requires
        min != i64::MIN,
    ensures
        text::opt_view(r) == (if arg is None && cfg.tz is None {
            Some(tz_warning_text(min as int))
        } else {
            None
        }),
{
    if arg.is_some() || cfg.tz.is_some() {
        return None;
    }
    let mut s = "warning: no --tz or config `tz` set; assuming the machine's local offset ".to_owned();
    text::push_dec_int(&mut s, min);
    s.append(" min (");
    s.append(tz_label(min).as_str());
    s.append(
        ") for plug-local times (timers and absolute log windows) — use --tz or set `tz` in the config if the plug is in another timezone",
    );
    Some(s)
}

// ------------------------------------------------------------------- timestamps

/// The seconds of an offset given in minutes, as far as the calendar takes
/// them: an offset of a day or more counts as none.
pub open spec fn applied_offset(min: int) -> int {
    if -86400 < 60 * min < 86400 {
        60 * min
    } else {
        0
    }
}

/// The offset of `min` minutes, as far as the calendar takes it.
fn offset_of(min: i64) -> (r: chrono::FixedOffset)
    requires
        schedule::fits(60 * min),
    ensures
        offset_seconds(r) == applied_offset(min as int),
{
    let secs: i64 = min * 60;
    let narrow: i32 = if -2147483648 <= secs && secs <= 2147483647 {
        secs as i32
    } else {
        0
    };
    match east(narrow) {
        Some(offset) => offset,
        None => east(0).unwrap(),
    }
}

/// The timestamp of a wall-clock time, given what the machine's zone makes of
/// it.
pub open spec fn epoch_of(wall: int, tz_min: Option<i64>, local: Option<i64>) -> int {
    match tz_min {
        Some(min) => if in_calendar(wall - applied_offset(min as int)) {
            wall - applied_offset(min as int)
        } else {
            wall
        },
        None => match local {
            Some(t) => t as int,
            None => wall,
        },
    }
}

/// Interprets a wall-clock time in a timezone: an explicit offset in minutes
/// east of UTC, or, without one, what the machine's zone makes of it
/// (`local`); a time that the zone skips is read in UTC.
fn naive_to_epoch(
    time: &chrono::NaiveDateTime,
    tz_min: Option<i64>,
    local: Option<i64>,
) -> (r: i64)
    requires
        tz_min matches Some(min) ==> schedule::fits(60 * min),
    ensures
        r == epoch_of(wall_seconds(*time), tz_min, local),
{
    match tz_min {
        None => match local {
            Some(t) => t,
            None => utc_timestamp(time),
        },
        Some(min) => match offset_timestamp(time, &offset_of(min)) {
            Some(t) => t,
            None => utc_timestamp(time),
        },
    }
}

/// The first of some readings that there is.
pub open spec fn or_else(a: Option<int>, b: Option<int>) -> Option<int> {
    match a {
        Some(_) => a,
        None => b,
    }
}

/// The wall-clock time that an absolute bound writes: a date and a time, or a
/// bare date, which starts with its first second and ends with its last.
pub open spec fn bound_wall(v: Seq<char>, lower: bool) -> Option<int> {
    let time = or_else(
        read_wall(v, "%Y-%m-%d %H:%M:%S"@),
        or_else(
            read_wall(v, "%Y-%m-%d %H:%M"@),
            or_else(read_wall(v, "%Y-%m-%dT%H:%M:%S"@), read_wall(v, "%Y-%m-%dT%H:%M"@)),
        ),
    );
    match (time, read_date(v, "%Y-%m-%d"@)) {
        (Some(_), _) => time,
        (None, Some(day)) => Some(
            if lower {
                day
            } else {
                day + 86399
            },
        ),
        (None, None) => None,
    }
}

/// Whether a bare date is read as its day: as a lower bound its first second,
/// as an upper one its last, and with `00:00:00` behind it its first again.
pub open spec fn day_is_read(v: Seq<char>, day: int) -> bool {
    &&& bound_wall(v, true) == Some(day)
    &&& bound_wall(v, false) == Some(day + 86399)
    &&& read_wall(v + " 00:00:00"@, "%Y-%m-%d %H:%M:%S"@) == Some(day)
    &&& in_calendar(day)
    &&& plain_year(v) ==> in_plain_years(day) && in_plain_years(day + 86399)
}

/// The wall-clock time that an absolute bound writes. A date alone is read as
/// its day.
fn parse_bound(v: &str, lower: bool) -> (r: Option<chrono::NaiveDateTime>)
    ensures
        match r {
            Some(time) => {
                &&& bound_wall(v@, lower) == Some(wall_seconds(time))
                &&& in_calendar(wall_seconds(time))
                &&& plain_year(v@) ==> in_plain_years(wall_seconds(time))
            },
            None => bound_wall(v@, lower) is None,
        },
        read_date(v@, "%Y-%m-%d"@) matches Some(day) ==> day_is_read(v@, day),
{
    if let Some(time) = parse_wall(v, "%Y-%m-%d %H:%M:%S") {
        return Some(time);
    }
    if let Some(time) = parse_wall(v, "%Y-%m-%d %H:%M") {
        return Some(time);
    }
    if let Some(time) = parse_wall(v, "%Y-%m-%dT%H:%M:%S") {
        return Some(time);
    }
    if let Some(time) = parse_wall(v, "%Y-%m-%dT%H:%M") {
        return Some(time);
    }
    match parse_date(v, "%Y-%m-%d") {
        Some(date) => if lower {
            time_on(&date, 0, 0, 0)
        } else {
            time_on(&date, 23, 59, 59)
        },
        None => None,
    }
}

/// How a bound that cannot be read is reported.
pub open spec fn bad_bound(value: Seq<char>) -> Seq<char> {
    "invalid time bound '"@ + value
        + "': use an ago duration like 30m/2h/1d, or an absolute time like 2026-09-01 or 2026-09-01 08:30[:00]"@
}

/// Whether a duration that `value` may be can be taken from `now`.
pub open spec fn bound_fits(value: Seq<char>, now: i64) -> bool {
    ago(text::trim(value)) matches Some(n) ==> schedule::fits(n) && schedule::fits(now - n)
}

/// The timestamp of a bound, given what the machine's zone makes of its
/// wall-clock time.
pub open spec fn bound_of(
    value: Seq<char>,
    lower: bool,
    now: i64,
    tz_min: Option<i64>,
    local: Option<i64>,
) -> Result<int, Seq<char>> {
    let v = text::trim(value);
    match (ago(v), bound_wall(v, lower)) {
        (Some(secs), _) => Ok(now - secs),
        (None, Some(wall)) => Ok(epoch_of(wall, tz_min, local)),
        (None, None) => Err(bad_bound(value)),
    }
}

/// Whether a bound is a date alone.
pub open spec fn is_bare_date(value: Seq<char>) -> bool {
    let d = text::trim(value);
    d.len() > 0 && ago(d) is None && read_date(d, "%Y-%m-%d"@) is Some
}

/// The bound that spells out the first second of a date.
pub open spec fn midnight_of(value: Seq<char>) -> Seq<char> {
    text::trim(value) + " 00:00:00"@
}

/// Whether an offset in minutes, below a day, leaves a wall-clock time that
/// `value` writes in the calendar; the years of four digits are all far from
/// its ends.
pub open spec fn offset_fits(value: Seq<char>, wall: int, min: int) -> bool {
    -1440 < min < 1440 && (plain_year(text::trim(value)) || in_calendar(wall - 60 * min))
}

/// Whether a bound that is given at an offset is what it is at UTC, moved by
/// the offset, whatever time it is now.
pub open spec fn moves_with_offset(value: Seq<char>, lower: bool, min: i64) -> bool {
    forall|now: i64, utc_now: i64|
        #![trigger bound_of(value, lower, now, Some(min), None), bound_of(value, lower, utc_now, Some(0), None)]
        {
            &&& bound_of(value, lower, now, Some(min), None) is Ok
            &&& bound_of(value, lower, utc_now, Some(0), None) == Ok::<int, Seq<char>>(
                bound_of(value, lower, now, Some(min), None)->Ok_0 + 60 * min,
            )
        }
}

/// Whether a bare date starts where the same date at `00:00:00` does, however
/// that is asked for.
pub open spec fn starts_at_midnight(value: Seq<char>, min: i64) -> bool {
    &&& forall|now: i64| #[trigger] bound_fits(midnight_of(value), now)
    &&& forall|now: i64, lower: bool, then_now: i64|
        #![trigger bound_of(value, true, now, Some(min), None), bound_of(midnight_of(value), lower, then_now, Some(min), None)]
        bound_of(midnight_of(value), lower, then_now, Some(min), None) == bound_of(
            value,
            true,
            now,
            Some(min),
            None,
        )
}

/// Whether a bare date ends with the last second of the day that it starts.
pub open spec fn spans_its_day(value: Seq<char>, min: i64) -> bool {
    forall|now: i64, later: i64|
        #![trigger bound_of(value, true, now, Some(min), None), bound_of(value, false, later, Some(min), None)]
        {
            &&& bound_of(value, true, now, Some(min), None) is Ok
            &&& bound_of(value, false, later, Some(min), None) == Ok::<int, Seq<char>>(
                bound_of(value, true, now, Some(min), None)->Ok_0 + 86399,
            )
        }
}

/// What holds of an absolute bound at an offset: it moves with the offset, and
/// a bare date starts at midnight and spans its day.
pub open spec fn bound_laws(value: Seq<char>, lower: bool, tz_min: Option<i64>) -> bool {
    let v = text::trim(value);
    &&& ago(v) is None && (bound_wall(v, lower) matches Some(wall) && tz_min matches Some(min)
        && offset_fits(value, wall, min as int)) ==> moves_with_offset(
        value,
        lower,
        tz_min->Some_0,
    )
    &&& is_bare_date(value) && tz_min is Some ==> starts_at_midnight(value, tz_min->Some_0)
    &&& is_bare_date(value) && tz_min is Some && offset_fits(
        value,
        bound_wall(v, true)->Some_0,
        tz_min->Some_0 as int,
    ) && offset_fits(value, bound_wall(v, false)->Some_0, tz_min->Some_0 as int) ==> spans_its_day(
        value,
        tz_min->Some_0,
    )
}

/// A date and a time are read as they stand, at every offset and whatever
/// time it is now.
proof fn moments_are_absolute(m: Seq<char>, wall: int)
    requires
        m.len() >= 2,
        !text::white_space(m[0]),
        text::ascii_digit(m.last()),
        read_wall(m, "%Y-%m-%d %H:%M:%S"@) == Some(wall),
    ensures
        forall|lower: bool, now: i64, tz_min: Option<i64>, local: Option<i64>| #[trigger]
            bound_of(m, lower, now, tz_min, local) == Ok::<int, Seq<char>>(
                epoch_of(wall, tz_min, local),
            ),
        forall|now: i64| #[trigger] bound_fits(m, now),
{
    assert(text::trim_start(m) == m);
    assert(text::trim_end(m) == m);
    assert(unit_seconds(m.last()) is None);
}

/// The laws of a bare date, from what is read of it.
proof fn bare_dates(value: Seq<char>, day: int, min: i64)
    requires
        is_bare_date(value),
        read_date(text::trim(value), "%Y-%m-%d"@) == Some(day),
        day_is_read(text::trim(value), day),
    ensures
        starts_at_midnight(value, min),
        offset_fits(value, day, min as int) && offset_fits(value, day + 86399, min as int)
            ==> spans_its_day(value, min),
{
    let d = text::trim(value);
    let m = midnight_of(value);
    text::trim_is_final(value);
    reveal_strlit(" 00:00:00");
    assert(m.last() == '0');
    assert(m[0] == d[0]);
    moments_are_absolute(m, day);
}

/// What the machine's zone makes of the wall-clock time that a bound writes;
/// nothing where it writes none, or the zone skips it.
fn local_reading(value: &str, lower: bool) -> (r: Option<i64>)
    ensures
        bound_wall(text::trim(value@), lower) matches Some(wall) ==> in_some_zone(r, wall),
{
    match parse_bound(text::trimmed(value).as_str(), lower) {
        Some(time) => local_timestamp(&time),
        None => None,
    }
}

/// Resolves a time bound to a unix timestamp: a duration like `30m`, `2h` or
/// `1d` before `now`, or an absolute wall-clock time in the timezone `tz_min`
/// (in minutes east of UTC; without one, `local` is what the machine's zone
/// makes of it, and a time that the zone skips is read in UTC). A bare date
/// means the start of the day for a lower bound and its last second for an
/// upper one. An absolute bound does not depend on `now` and moves with the
/// offset; a bare date starts where the same date at `00:00:00` does, and ends
/// with the last second of that day.
pub fn resolve_time_bound_with(
    value: &str,
    lower: bool,
    now: i64,
    tz_min: Option<i64>,
    local: Option<i64>,
) -> (r: Result<i64, String>)
    requires
        bound_fits(value@, now),
        tz_min matches Some(min) ==> schedule::fits(60 * min),
    ensures
        outcome_of(r) == bound_of(value@, lower, now, tz_min, local),
        bound_laws(value@, lower, tz_min),
{
    let v = text::trimmed(value);
    if let Some(secs) = parse_ago_secs(v.as_str()) {
        return Ok(now - secs);
    }
    let bound = parse_bound(v.as_str(), lower);
    proof {
        if is_bare_date(value@) && tz_min is Some {
            let day = read_date(v@, "%Y-%m-%d"@)->Some_0;
            bare_dates(value@, day, tz_min->Some_0);
        }
    }
    match bound {
        Some(time) => Ok(naive_to_epoch(&time, tz_min, local)),
        None => {
            let mut m = "invalid time bound '".to_owned();
            m.append(value);
            m.append(
                "': use an ago duration like 30m/2h/1d, or an absolute time like 2026-09-01 or 2026-09-01 08:30[:00]",
            );
            Err(m)
        },
    }
}

/// Resolves a time bound to a unix timestamp, as [`resolve_time_bound_with`]
/// does. Without a timezone an absolute bound is read in the machine's zone,
/// on which the result then rests.
pub fn resolve_time_bound_tz(value: &str, lower: bool, now: i64, tz_min: Option<i64>) -> (r: Result<
    i64,
    String,
>)
    requires
        bound_fits(value@, now),
        tz_min matches Some(min) ==> schedule::fits(60 * min),
    ensures
        tz_min is Some || ago(text::trim(value@)) is Some || bound_wall(
            text::trim(value@),
            lower,
        ) is None ==> outcome_of(r) == bound_of(value@, lower, now, tz_min, None),
        exists|local: Option<i64>|
            (bound_wall(text::trim(value@), lower) matches Some(wall) ==> in_some_zone(local, wall))
                && outcome_of(r) == #[trigger] bound_of(value@, lower, now, tz_min, local),
        bound_laws(value@, lower, tz_min),
{
    let local = match tz_min {
        Some(_) => None,
        None => local_reading(value, lower),
    };
    let r = resolve_time_bound_with(value, lower, now, tz_min, local);
    proof {
        assert(outcome_of(r) == bound_of(value@, lower, now, tz_min, local));
    }
    r
}

/// Whether [`resolve_time_bound_tz`] can be asked: the duration that `value`
/// may be stays in range.
pub fn bound_in_range(value: &str, now: i64) -> (r: bool)
    ensures
        r == bound_fits(value@, now),
{
    let v = text::trimmed(value);
    if !ago_in_range(v.as_str()) {
        return false;
    }
    match parse_ago_secs(v.as_str()) {
        Some(secs) => now.checked_sub(secs).is_some(),
        None => true,
    }
}

/// A timestamp that the calendar does not reach.
pub open spec fn raw_time(epoch: int) -> Seq<char> {
    text::dec_int(epoch) + " (epoch)"@
}

/// A timestamp rendered at an offset in minutes.
pub open spec fn time_at(epoch: int, min: int) -> Seq<char> {
    if in_calendar(epoch) {
        wall_text(epoch, applied_offset(min)) + " "@ + tz_name(min)
    } else {
        raw_time(epoch)
    }
}

/// A timestamp that the calendar does not reach.
fn raw_time_text(epoch: i64) -> (r: String)
    ensures
        r@ == raw_time(epoch as int),
{
    let mut s = String::new();
    text::push_dec_int(&mut s, epoch);
    s.append(" (epoch)");
    proof {
        assert(s@ =~= raw_time(epoch as int));
    }
    s
}

/// A rendered date and time, with the name of its offset behind it.
fn labelled(shown: String, min: i64) -> (r: String)
    requires
        min != i64::MIN,
    ensures
        r@ == shown@ + " "@ + tz_name(min as int),
{
    let mut s = shown;
    s.append(" ");
    s.append(tz_label(min).as_str());
    s
}

/// A timestamp as the machine's zone has it: `local` is its date and time
/// there and the offset in seconds, and nothing where the calendar does not
/// reach it.
pub fn render_local(epoch: i64, local: Option<(String, i32)>) -> (r: String)
    requires
        local matches Some(l) ==> -86400 < l.1 < 86400,
    ensures
        r@ == (match local {
            Some(l) => l.0@ + " "@ + tz_name(whole_minutes(l.1 as int)),
            None => raw_time(epoch as int),
        }),
{
    match local {
        Some(l) => labelled(l.0, to_minutes(l.1)),
        None => raw_time_text(epoch),
    }
}

/// Whether `shown` is a timestamp as some zone has it, with the offset of
/// that zone behind it.
pub open spec fn is_local_time(shown: Seq<char>, epoch: int) -> bool {
    if in_calendar(epoch) {
        exists|secs: int|
            -86400 < secs < 86400 && shown == #[trigger] wall_text(epoch, secs) + " "@ + tz_name(
                whole_minutes(secs),
            )
    } else {
        shown == raw_time(epoch)
    }
}

/// Whether a rendered time is read back: its first 19 characters, as a bound
/// at the same offset, are the timestamp again, whatever time it is now.
pub open spec fn reads_back(shown: Seq<char>, epoch: int, min: i64) -> bool {
    &&& shown.len() >= 19
    &&& is_stamp(shown.take(19))
    &&& forall|now: i64| #[trigger] bound_fits(shown.take(19), now)
    &&& forall|lower: bool, now: i64| #[trigger]
        bound_of(shown.take(19), lower, now, Some(min), None) == Ok::<int, Seq<char>>(epoch)
}

/// Renders an epoch timestamp as `YYYY-MM-DD HH:MM:SS <tz name>`. `tz` is the
/// offset in minutes east of UTC; without one the timestamp is rendered in
/// the machine's zone, on which the text then rests, with the offset that the
/// zone has at that instant. What was rendered at an offset is read back at
/// the same offset, in the years that are written with four digits.
pub fn render_ts(epoch: i64, tz: Option<i64>) -> (r: String)
    requires
        tz matches Some(min) ==> schedule::fits(60 * min),
    ensures
        tz matches Some(min) ==> r@ == time_at(epoch as int, min as int),
        tz is None ==> is_local_time(r@, epoch as int),
        tz matches Some(min) ==> (-1440 < min < 1440 && in_plain_years(epoch + 60 * min)
            ==> reads_back(r@, epoch as int, min)),
{
    match tz {
        Some(min) => match offset_text(epoch, &offset_of(min)) {
            Some(shown) => {
                let ghost stamp = shown@;
                let r = labelled(shown, min);
                proof {
                    if -1440 < min < 1440 && in_plain_years(epoch + 60 * min) {
                        assert(r@.take(19) =~= stamp);
                        moments_are_absolute(stamp, epoch + 60 * min);
                    }
                }
                r
            },
            None => raw_time_text(epoch),
        },
        None => render_local(epoch, local_text(epoch)),
    }
}

// ---------------------------------------------------------------------- laws

/// An offset that is written as a name is read back: `+HH:MM` of any offset
/// below a day gives that offset.
pub proof fn tz_reads_its_name(h: int, m: int, negative: bool)
    requires
        0 <= h < 24,
        0 <= m < 60,
    ensures
        tz_of(
            seq![if negative { '-' } else { '+' }] + text::dec2(h as nat) + ":"@ + text::dec2(
                m as nat,
            ),
        ) == Some(if negative { -(60 * h + m) } else { 60 * h + m }),
{
    let hh = text::dec2(h as nat);
    let mm = text::dec2(m as nat);
    let sign = if negative {
        '-'
    } else {
        '+'
    };
    two_digits(h);
    two_digits(m);
    reveal_strlit(":");
    let s = seq![sign] + hh + ":"@ + mm;
    assert(s.len() == 6);
    assert(text::trim_start(s) == s);
    assert(text::trim_end(s) == s) by {
        assert(s.last() == mm[1]);
    }
    let rest = s.drop_first();
    assert(rest =~= hh + ":"@ + mm);
    assert(rest[2] == ':');
    assert(rest.subrange(2, 3) =~= ":"@);
    assert(!text::occurs_at(rest, ":"@, 0)) by {
        assert(rest.subrange(0, 1)[0] == hh[0]);
    }
    assert(!text::occurs_at(rest, ":"@, 1)) by {
        assert(rest.subrange(1, 2)[0] == hh[1]);
    }
    reveal_with_fuel(text::index_from, 4);
    assert(text::index_from(rest, ":"@, 0) == Some(2int));
    assert(rest.take(2) =~= hh);
    assert(rest.skip(3) =~= mm);
}

/// Moving the timezone east moves the timestamp of a wall-clock time back by
/// as much.
pub proof fn offset_moves_the_bound(wall: int, east: i64, west: i64)
    requires
        -1440 < east < 1440,
        -1440 < west < 1440,
        in_calendar(wall - 60 * east),
        in_calendar(wall - 60 * west),
    ensures
        epoch_of(wall, Some(east), None) - epoch_of(wall, Some(west), None) == 60 * (west - east),
{
}

/// Two digits of a number below a hundred, and the number that they write.
proof fn two_digits(n: int)
    requires
        0 <= n < 100,
    ensures
        text::dec2(n as nat).len() == 2,
        text::all_digits(text::dec2(n as nat)),
        text::unsigned_value(text::dec2(n as nat)) == Some(n as nat),
{
    reveal_with_fuel(text::dec, 3);
    reveal_with_fuel(text::digits_value, 4);
    let s = text::dec2(n as nat);
    assert(s.len() == 2);
    assert(s.drop_last().drop_last() =~= seq![]);
    assert(s[0] as u32 == 48 + n / 10);
    assert(s[1] as u32 == 48 + n % 10);
    assert(text::digits_value(s) == n);
}

/// A clock time that is shown is read back, and so are plain minutes of the
/// day.
pub proof fn clock_times_are_read_back(minutes: int)
    requires
        0 <= minutes < 1440,
    ensures
        local_time_of(schedule::clock(minutes)) == Some(minutes),
        local_time_of(text::dec(minutes as nat)) == Some(minutes),
{
    let h = (minutes / 60) as nat;
    let m = (minutes % 60) as nat;
    let hh = text::dec2(h);
    let mm = text::dec2(m);
    text::padded_numbers_are_read_back(h);
    text::padded_numbers_are_read_back(m);
    reveal_strlit(":");
    assert(":"@ =~= seq![':']);
    let s = schedule::clock(minutes);
    digits_are_not_trimmed(hh);
    digits_are_not_trimmed(mm);
    assert(s[0] == hh[0] && s.last() == mm.last());
    text::trimming_removes_just_the_space(s);
    text::splits_at_the_separator(hh, ':', mm);
    let plain = text::dec(minutes as nat);
    text::numbers_are_read_back(minutes as nat);
    digits_are_not_trimmed(plain);
    text::splits_at_the_separator(plain, ':', mm);
}

/// Digits have no space around them.
proof fn digits_are_not_trimmed(s: Seq<char>)
    requires
        s.len() > 0,
        text::all_digits(s),
    ensures
        text::trim(s) == s,
        !text::white_space(s[0]),
        !text::white_space(s.last()),
{
    assert(text::ascii_digit(s[0]) && text::ascii_digit(s.last()));
    text::trimming_removes_just_the_space(s);
}

/// A clock time is a time of the day.
pub proof fn clock_times_lie_in_the_day(input: Seq<char>)
    ensures
        local_time_of(input) matches Some(t) ==> 0 <= t < 1440,
{
}

/// The name of an offset is read back.
pub proof fn offset_names_are_read_back(min: int)
    requires
        -1440 < min < 1440,
    ensures
        tz_name(min).take(3) == "UTC"@,
        tz_of(tz_name(min).skip(3)) == Some(min),
{
    let n = magnitude_of(min) as int;
    let hh = text::dec2(magnitude_of(min) / 60);
    let mm = text::dec2(magnitude_of(min) % 60);
    tz_reads_its_name(n / 60, n % 60, min < 0);
    if min < 0 {
        names_are_an_offset("-"@, '-', hh, mm);
    } else {
        names_are_an_offset("+"@, '+', hh, mm);
    }
}

/// What stands behind `UTC` in a name.
proof fn names_are_an_offset(sign: Seq<char>, c: char, hh: Seq<char>, mm: Seq<char>)
    requires
        sign == "-"@ && c == '-' || sign == "+"@ && c == '+',
    ensures
        ("UTC"@ + sign + hh + ":"@ + mm).take(3) == "UTC"@,
        ("UTC"@ + sign + hh + ":"@ + mm).skip(3) == seq![c] + hh + ":"@ + mm,
{
    reveal_strlit("UTC");
    reveal_strlit("-");
    reveal_strlit("+");
    assert(sign =~= seq![c]);
    let rest = seq![c] + hh + ":"@ + mm;
    let whole = "UTC"@ + sign + hh + ":"@ + mm;
    assert(whole =~= "UTC"@ + rest);
    assert(whole.take(3) =~= "UTC"@);
    assert(whole.skip(3) =~= rest);
}

/// An offset can be written in hours, in minutes or as a clock time, and a
/// minus turns it around: all forms of one offset are read alike.
pub proof fn offset_forms_agree(h: nat, m: nat)
    requires
        h < 24,
        m < 1440,
    ensures
        tz_of(seq!['+'] + text::dec(h) + "h"@) == Some(60 * h as int),
        tz_of(seq!['-'] + text::dec(h) + "h"@) == Some(-60 * h),
        tz_of(seq!['+'] + text::dec(m) + "min"@) == Some(m as int),
        tz_of(seq!['-'] + text::dec(m) + "min"@) == Some(-m),
{
    reveal_strlit("h");
    reveal_strlit("H");
    reveal_strlit("min");
    reveal_strlit(":");
    assert(":"@ =~= seq![':']);
    let hours = text::dec(h) + "h"@;
    let minutes = text::dec(m) + "min"@;
    text::numbers_are_read_back(h);
    text::numbers_are_read_back(m);
    assert(forall|i: int| 0 <= i < hours.len() ==> hours[i] != ':');
    assert(forall|i: int| 0 <= i < minutes.len() ==> minutes[i] != ':');
    text::splits_at_the_separator(hours, ':', hours);
    text::splits_at_the_separator(minutes, ':', minutes);
    let n = text::dec(h).len() as int;
    assert(hours.subrange(n, n + 1) =~= "h"@);
    assert(hours.take(n) =~= text::dec(h));
    assert(!text::occurs_at(hours, "min"@, hours.len() - 3)) by {
        if text::occurs_at(hours, "min"@, hours.len() - 3) {
            assert(hours.subrange(hours.len() - 3, hours.len() as int)[2] == 'h');
            assert("min"@[2] == 'n');
        }
    }
    let k = text::dec(m).len() as int;
    assert(minutes.subrange(k, k + 3) =~= "min"@);
    assert(minutes.take(k) =~= text::dec(m));
    signed_offsets(hours, tz_minutes(hours));
    signed_offsets(minutes, tz_minutes(minutes));
    assert(seq!['+'] + text::dec(h) + "h"@ =~= seq!['+'] + hours);
    assert(seq!['-'] + text::dec(h) + "h"@ =~= seq!['-'] + hours);
    assert(seq!['+'] + text::dec(m) + "min"@ =~= seq!['+'] + minutes);
    assert(seq!['-'] + text::dec(m) + "min"@ =~= seq!['-'] + minutes);
}

/// A sign in front of an offset.
proof fn signed_offsets(rest: Seq<char>, n: Option<int>)
    requires
        rest.len() > 0,
        !text::white_space(rest.last()),
        tz_minutes(rest) == n,
    ensures
        tz_of(seq!['+'] + rest) == n,
        tz_of(seq!['-'] + rest) == (match n {
            Some(n) => Some(-n),
            None => None,
        }),
{
    let plus = seq!['+'] + rest;
    let minus = seq!['-'] + rest;
    assert(plus.last() == rest.last() && minus.last() == rest.last());
    text::trimming_removes_just_the_space(plus);
    text::trimming_removes_just_the_space(minus);
    assert(plus.drop_first() =~= rest);
    assert(minus.drop_first() =~= rest);
}

/// An offset is less than a day.
pub proof fn offsets_are_less_than_a_day(input: Seq<char>)
    ensures
        tz_of(input) matches Some(min) ==> -1440 < min < 1440,
{
}

/// A duration is its count times its unit: seconds, minutes, hours or days.
pub proof fn durations_count_their_unit(n: nat)
    requires
        n <= i64::MAX,
    ensures
        ago(text::dec(n).push('s')) == Some(n as int),
        ago(text::dec(n).push('m')) == Some(60int * n),
        ago(text::dec(n).push('h')) == Some(3600int * n),
        ago(text::dec(n).push('d')) == Some(86400int * n),
{
    text::numbers_are_read_back(n);
    let digits = text::dec(n);
    assert(text::ascii_digit(digits[0]));
    assert(text::parse_i64(digits) == Some(n as int));
    duration_of(digits, 's', n as int, 1);
    duration_of(digits, 'm', n as int, 60);
    duration_of(digits, 'h', n as int, 3600);
    duration_of(digits, 'd', n as int, 86400);
}

/// The count and the unit of a duration.
proof fn duration_of(digits: Seq<char>, unit: char, n: int, secs: int)
    requires
        digits.len() > 0,
        text::all_digits(digits),
        text::parse_i64(digits) == Some(n),
        unit_seconds(unit) == Some(secs),
    ensures
        ago(digits.push(unit)) == Some(n * secs),
{
    let s = digits.push(unit);
    assert(text::ascii_digit(digits[0]));
    assert(s[0] == digits[0]);
    text::trimming_removes_just_the_space(s);
    assert(s.drop_last() =~= digits);
}

/// A duration counts back from now: it lies before now, moves with the clock,
/// and rests neither on a timezone nor on which bound it is.
pub proof fn durations_count_back_from_now(
    value: Seq<char>,
    now: i64,
    later: i64,
    lower: bool,
    tz_min: Option<i64>,
    local: Option<i64>,
)
    requires
        ago(text::trim(value)) is Some,
    ensures
        bound_of(value, lower, now, tz_min, local) is Ok,
        now - bound_of(value, lower, now, tz_min, local)->Ok_0 == ago(text::trim(value))->Some_0,
        bound_of(value, lower, later, tz_min, local)->Ok_0 - bound_of(
            value,
            lower,
            now,
            tz_min,
            local,
        )->Ok_0 == later - now,
        bound_of(value, lower, now, tz_min, local) == bound_of(value, !lower, now, None, None),
{
}

/// At the offset 0 a wall-clock time is its own timestamp, and without an
/// offset it is what the machine's zone makes of it.
pub proof fn utc_times_are_timestamps(wall: int, local: i64)
    requires
        in_calendar(wall),
    ensures
        epoch_of(wall, Some(0), None) == wall,
        epoch_of(wall, None, Some(local)) == local,
{
}

/// A bound that is neither a duration nor a time is refused with its text.
pub proof fn unreadable_bounds_are_refused(
    value: Seq<char>,
    lower: bool,
    now: i64,
    tz_min: Option<i64>,
    local: Option<i64>,
)
    ensures
        bound_of(value, lower, now, tz_min, local) is Err <==> ago(text::trim(value)) is None
            && bound_wall(text::trim(value), lower) is None,
{
}

/// The argument wins over the configured offset, and that over the machine's;
/// one that is configured and cannot be read is an error, and not passed over.
pub proof fn given_offsets_win(tz: Option<Seq<char>>, configured: Seq<char>, min: i64, machine: int)
    ensures
        effective_tz(tz, Some(min), machine) == Ok::<int, Seq<char>>(min as int),
        tz_of(configured) matches Some(own) ==> effective_tz(Some(configured), None, machine)
            == Ok::<int, Seq<char>>(own),
        tz_of(configured) is None ==> effective_tz(Some(configured), None, machine) is Err,
        effective_tz(None, None, machine) == Ok::<int, Seq<char>>(machine),
{
}

/// On and off can be written in three ways each, in any case, and nothing else
/// is either.
pub proof fn on_and_off_are_told_apart(state: Seq<char>)
    ensures
        on_off(state) == on_off(text::ascii_lower(state)),
        text::ascii_lower(state) == "on"@ || text::ascii_lower(state) == "1"@ || text::ascii_lower(
            state,
        ) == "true"@ ==> on_off(state) == Some(true),
        text::ascii_lower(state) == "off"@ || text::ascii_lower(state) == "0"@
            || text::ascii_lower(state) == "false"@ ==> on_off(state) == Some(false),
        on_off(state) is Some ==> seq!["on"@, "1"@, "true"@, "off"@, "0"@, "false"@].contains(
            text::ascii_lower(state),
        ),
{
    reveal_strlit("on");
    reveal_strlit("1");
    reveal_strlit("true");
    reveal_strlit("off");
    reveal_strlit("0");
    reveal_strlit("false");
    assert("on"@.len() == 2 && "1"@.len() == 1 && "true"@.len() == 4 && "off"@.len() == 3
        && "0"@.len() == 1 && "false"@.len() == 5);
    assert("1"@[0] == '1' && "0"@[0] == '0');
    let lower = text::ascii_lower(state);
    text::lower_case_is_final(state);
    let words = seq!["on"@, "1"@, "true"@, "off"@, "0"@, "false"@];
    if on_off(state) is Some {
        assert(words[0] == "on"@ && words[1] == "1"@ && words[2] == "true"@);
        assert(words[3] == "off"@ && words[4] == "0"@ && words[5] == "false"@);
        assert(words.contains(lower));
    }
}

/// A time that the calendar reaches is shown with the name of its offset
/// behind it, and one that it does not reach as a bare number.
pub proof fn shown_times_name_their_offset(epoch: int, min: int)
    ensures
        in_calendar(epoch) && -1440 < min < 1440 ==> time_at(epoch, min) == wall_text(
            epoch,
            60 * min,
        ) + " "@ + tz_name(min),
        !in_calendar(epoch) ==> time_at(epoch, min) == text::dec_int(epoch) + " (epoch)"@,
{
}

/// The minutes of an offset are its seconds without the rest, towards zero.
pub proof fn minutes_are_cut_towards_zero(secs: int)
    ensures
        -60 < secs - 60 * whole_minutes(secs) < 60,
        secs >= 0 ==> 0 <= 60 * whole_minutes(secs) <= secs,
        secs <= 0 ==> secs <= 60 * whole_minutes(secs) <= 0,
{
}

/// A bound is read in the first form that fits it: a date and a time with a
/// space or a `T` between them, with seconds or without, and else a bare date,
/// which starts with its first second and ends with its last.
pub proof fn bounds_are_read_in_every_form(v: Seq<char>, lower: bool, wall: int)
    ensures
        read_wall(v, "%Y-%m-%d %H:%M:%S"@) == Some(wall) ==> bound_wall(v, lower) == Some(wall),
        read_wall(v, "%Y-%m-%d %H:%M:%S"@) is None && read_wall(v, "%Y-%m-%d %H:%M"@) == Some(wall)
            ==> bound_wall(v, lower) == Some(wall),
        read_wall(v, "%Y-%m-%d %H:%M:%S"@) is None && read_wall(v, "%Y-%m-%d %H:%M"@) is None
            && read_wall(v, "%Y-%m-%dT%H:%M:%S"@) == Some(wall) ==> bound_wall(v, lower) == Some(
            wall,
        ),
        read_wall(v, "%Y-%m-%d %H:%M:%S"@) is None && read_wall(v, "%Y-%m-%d %H:%M"@) is None
            && read_wall(v, "%Y-%m-%dT%H:%M:%S"@) is None && read_wall(v, "%Y-%m-%dT%H:%M"@)
            == Some(wall) ==> bound_wall(v, lower) == Some(wall),
        read_wall(v, "%Y-%m-%d %H:%M:%S"@) is None && read_wall(v, "%Y-%m-%d %H:%M"@) is None
            && read_wall(v, "%Y-%m-%dT%H:%M:%S"@) is None && read_wall(v, "%Y-%m-%dT%H:%M"@) is None
            && read_date(v, "%Y-%m-%d"@) == Some(wall) ==> bound_wall(v, true) == Some(wall)
            && bound_wall(v, false) == Some(wall + 86399),
{
}

/// A timestamp that the calendar reaches is shown as a date, and any other as
/// the number that it is.
pub proof fn unreachable_times_are_shown_as_numbers(ts: int)
    ensures
        in_calendar(ts) ==> shown_time(ts) == rfc3339(ts),
        !in_calendar(ts) && i64::MIN <= ts <= i64::MAX ==> text::parse_i64(shown_time(ts)) == Some(
            ts,
        ),
{
    if !in_calendar(ts) && i64::MIN <= ts <= i64::MAX {
        text::signed_numbers_are_read_back(ts);
    }
}

} // verus!
