//! Timer schedules: between local clock times and weekdays and those that a
//! plug stores.
//!
//! A plug stores schedule times in UTC minutes of the day and weekday bits
//! over UTC days (bit 0 is Sunday). To a person a timer fires at a local time,
//! on weekdays that start with Monday (bit 0). The functions below convert
//! between the two, given the timezone offset in minutes east of UTC.

use crate::text;
use vstd::prelude::*;
use vstd::string::*;

verus! {

// --------------------------------------------------------------------- times

/// `n` read as a signed number of the same 64 bits.
pub open spec fn signed(n: u64) -> int {
    if n <= i64::MAX {
        n as int
    } else {
        n - 0x1_0000_0000_0000_0000
    }
}

/// `n as i64`.
pub fn to_signed(n: u64) -> (r: i64)
    ensures
        r == signed(n),
{
    if n <= 9223372036854775807 {
        n as i64
    } else {
        -((u64::MAX - n) as i64) - 1
    }
}

/// Whether `n` fits `i64`.
pub open spec fn fits(n: int) -> bool {
    i64::MIN <= n <= i64::MAX
}

/// Minutes of the day, for minutes counted from the start of some day.
pub open spec fn minute_of_day(minutes: int) -> int {
    minutes % 1440
}

/// Minutes of the day, for minutes counted from the start of some day.
fn wrap_day(minutes: i64) -> (r: u64)
    ensures
        r == minute_of_day(minutes as int),
        r < 1440,
{
    if minutes >= 0 {
        (minutes % 1440) as u64
    } else {
        let back: i64 = (-(minutes + 1)) % 1440;
        (1439 - back) as u64
    }
}

/// The UTC minutes of the day for a local time.
pub open spec fn cloud_time(local_min: int, tz_min: int) -> int {
    minute_of_day(local_min - tz_min)
}

/// The local minutes of the day for a UTC time.
pub open spec fn local_time(cloud_min: int, tz_min: int) -> int {
    minute_of_day(cloud_min + tz_min)
}

/// The UTC minutes of the day for a local time in `tz_min`.
pub fn local_to_cloud_time(local_min: u64, tz_min: i64) -> (r: u64)
    requires
        fits(signed(local_min) - tz_min),
    ensures
        r == cloud_time(signed(local_min), tz_min as int),
        r < 1440,
{
    wrap_day(to_signed(local_min) - tz_min)
}

/// The local minutes of the day for a UTC time that a plug stores.
pub fn cloud_to_local_time(cloud_min: u64, tz_min: i64) -> (r: u64)
    requires
        fits(signed(cloud_min) + tz_min),
    ensures
        r == local_time(signed(cloud_min), tz_min as int),
        r < 1440,
{
    wrap_day(to_signed(cloud_min) + tz_min)
}

/// Calendar-day offset between a local firing date and its UTC instant.
pub open spec fn day_shift(local_min: int, tz_min: int) -> int {
    if local_min - tz_min < 0 {
        -1
    } else if local_min - tz_min >= 1440 {
        1
    } else {
        0
    }
}

/// Calendar-day offset between the local firing date and its UTC instant: -1
/// when the UTC moment falls on the previous UTC day, +1 when it falls on the
/// next day, otherwise 0.
pub fn date_delta(local_min: u64, tz_min: i64) -> (r: i64)
    requires
        fits(signed(local_min) - tz_min),
    ensures
        r == day_shift(signed(local_min), tz_min as int),
{
    let raw: i64 = to_signed(local_min) - tz_min;
    if raw < 0 {
        -1
    } else if raw >= 1440 {
        1
    } else {
        0
    }
}

// ------------------------------------------------------------------ weekdays

/// Whether weekday `day` (0 to 6) is in `mask`.
pub open spec fn has_day(mask: u8, day: int) -> bool {
    mask & (1u8 << (day as u8)) != 0
}

/// Whether `out` holds the weekdays of `mask`, each moved `shift` days on,
/// and nothing else.
pub open spec fn is_turned(mask: u8, out: u8, shift: int) -> bool {
    &&& out < 128
    &&& forall|day: int|
        0 <= day < 7 ==> #[trigger] has_day(mask, day) == has_day(out, (day + shift) % 7)
}

/// Adding a weekday to a mask adds that day and leaves the others.
proof fn day_added(mask: u8, added: u8, day: u8)
    requires
        mask < 128,
        added < 7,
        day < 7,
    ensures
        (mask | (1u8 << added)) < 128,
        has_day(mask | (1u8 << added), day as int) == (has_day(mask, day as int) || day == added),
{
    assert((mask | (1u8 << added)) < 128) by (bit_vector)
        requires
            mask < 128,
            added < 7,
    ;
    assert(((mask | (1u8 << added)) & (1u8 << day) != 0) == (mask & (1u8 << day) != 0 || day
        == added)) by (bit_vector)
        requires
            added < 7,
            day < 7,
    ;
}

/// Two masks of seven bits that hold the same weekdays are equal.
proof fn same_days(a: u8, b: u8)
    requires
        a < 128,
        b < 128,
        forall|day: int| 0 <= day < 7 ==> #[trigger] has_day(a, day) == has_day(b, day),
    ensures
        a == b,
{
    assert(has_day(a, 0) == has_day(b, 0));
    assert(has_day(a, 1) == has_day(b, 1));
    assert(has_day(a, 2) == has_day(b, 2));
    assert(has_day(a, 3) == has_day(b, 3));
    assert(has_day(a, 4) == has_day(b, 4));
    assert(has_day(a, 5) == has_day(b, 5));
    assert(has_day(a, 6) == has_day(b, 6));
    assert(a == b) by (bit_vector)
        requires
            a < 128,
            b < 128,
            (a & (1u8 << 0u8) != 0) == (b & (1u8 << 0u8) != 0),
            (a & (1u8 << 1u8) != 0) == (b & (1u8 << 1u8) != 0),
            (a & (1u8 << 2u8) != 0) == (b & (1u8 << 2u8) != 0),
            (a & (1u8 << 3u8) != 0) == (b & (1u8 << 3u8) != 0),
            (a & (1u8 << 4u8) != 0) == (b & (1u8 << 4u8) != 0),
            (a & (1u8 << 5u8) != 0) == (b & (1u8 << 5u8) != 0),
            (a & (1u8 << 6u8) != 0) == (b & (1u8 << 6u8) != 0),
    ;
}

/// Those of the first `n` weekdays that are in `mask`, each moved `shift` days
/// on.
pub open spec fn turned_days(mask: u8, shift: int, n: nat) -> u8
    decreases n,
{
    if n == 0 {
        0
    } else if has_day(mask, n - 1) {
        turned_days(mask, shift, (n - 1) as nat) | (1u8 << (((n - 1 + shift) % 7) as u8))
    } else {
        turned_days(mask, shift, (n - 1) as nat)
    }
}

/// The weekdays of `mask`, each moved `shift` days on.
pub open spec fn turned(mask: u8, shift: int) -> u8 {
    turned_days(mask, shift, 7)
}

/// No bit is set in zero.
proof fn no_days()
    ensures
        forall|e: int| 0 <= e < 7 ==> !#[trigger] has_day(0u8, e),
{
    assert(forall|e: u8| #![trigger (0u8 & (1u8 << e))] 0u8 & (1u8 << e) == 0) by (bit_vector);
    assert forall|e: int| 0 <= e < 7 implies !#[trigger] has_day(0u8, e) by {
        assert(0u8 & (1u8 << (e as u8)) == 0);
    }
}

/// Which weekdays [`turned_days`] holds.
proof fn turned_days_hold(mask: u8, shift: int, n: nat)
    requires
        n <= 7,
    ensures
        turned_days(mask, shift, n) < 128,
        forall|e: int|
            0 <= e < 7 ==> #[trigger] has_day(turned_days(mask, shift, n), e) == ((e - shift) % 7
                < n && has_day(mask, (e - shift) % 7)),
    decreases n,
{
    if n == 0 {
        no_days();
    } else {
        let before = turned_days(mask, shift, (n - 1) as nat);
        let to = (n - 1 + shift) % 7;
        turned_days_hold(mask, shift, (n - 1) as nat);
        day_added(before, to as u8, 0);
        assert forall|e: int| 0 <= e < 7 implies #[trigger] has_day(
            turned_days(mask, shift, n),
            e,
        ) == ((e - shift) % 7 < n && has_day(mask, (e - shift) % 7)) by {
            day_added(before, to as u8, e as u8);
            assert(has_day(before, e) == ((e - shift) % 7 < n - 1 && has_day(
                mask,
                (e - shift) % 7,
            )));
        }
    }
}

/// [`turned`] moves the weekdays, and adds none.
pub proof fn turned_turns(mask: u8, shift: int)
    ensures
        is_turned(mask, turned(mask, shift), shift),
{
    turned_days_hold(mask, shift, 7);
    assert forall|day: int| 0 <= day < 7 implies #[trigger] has_day(mask, day) == has_day(
        turned(mask, shift),
        (day + shift) % 7,
    ) by {
        let e = (day + shift) % 7;
        assert((e - shift) % 7 == day);
        assert(has_day(turned_days(mask, shift, 7), e) == has_day(mask, (e - shift) % 7));
    }
}

/// No two masks hold the weekdays of `mask` moved on.
pub proof fn turned_is(mask: u8, out: u8, shift: int)
    requires
        is_turned(mask, out, shift),
    ensures
        turned(mask, shift) == out,
{
    let other = turned(mask, shift);
    turned_turns(mask, shift);
    assert forall|e: int| 0 <= e < 7 implies #[trigger] has_day(other, e) == has_day(out, e) by {
        let day = (e - shift) % 7;
        assert((day + shift) % 7 == e);
        assert(has_day(mask, day) == has_day(out, (day + shift) % 7));
        assert(has_day(mask, day) == has_day(other, (day + shift) % 7));
    }
    same_days(other, out);
}

/// The weekdays of `mask`, each moved `shift` days on.
fn turn_days(mask: u8, shift: u8) -> (out: u8)
    requires
        shift < 7,
    ensures
        is_turned(mask, out, shift as int),
{
    let mut out: u8 = 0;
    let mut day: u8 = 0;
    proof {
        no_days();
    }
    while day < 7
        invariant
            day <= 7,
            shift < 7,
            out < 128,
            forall|e: int|
                0 <= e < 7 ==> #[trigger] has_day(out, e) == ((e + 7 - shift) % 7 < day && has_day(
                    mask,
                    (e + 7 - shift) % 7,
                )),
        decreases 7 - day,
    {
        if mask & (1u8 << day) != 0 {
            let to: u8 = (day + shift) % 7;
            proof {
                assert(out | (1u8 << to) < 128) by {
                    day_added(out, to, 0);
                }
                assert forall|e: int| 0 <= e < 7 implies #[trigger] has_day(out | (1u8 << to), e)
                    == ((e + 7 - shift) % 7 < day + 1 && has_day(mask, (e + 7 - shift) % 7)) by {
                    day_added(out, to, e as u8);
                    assert(has_day(out, e) == ((e + 7 - shift) % 7 < day && has_day(
                        mask,
                        (e + 7 - shift) % 7,
                    )));
                }
            }
            out = out | (1u8 << to);
        }
        day = day + 1;
    }
    proof {
        assert forall|d: int| 0 <= d < 7 implies #[trigger] has_day(mask, d) == has_day(
            out,
            (d + shift) % 7,
        ) by {
            let e = (d + shift) % 7;
            assert((e + 7 - shift) % 7 == d);
            assert(has_day(out, e) == has_day(mask, (e + 7 - shift) % 7));
        }
    }
    out
}

/// Converts a local weekday mask (bit 0 is Monday) plus a local time into the
/// UTC weekday mask that a plug stores (bit 0 is Sunday, over the UTC day of
/// the firing instant).
pub fn local_to_cloud_repeat(local_mask: u8, local_min: u64, tz_min: i64) -> (r: u8)
    requires
        fits(signed(local_min) - tz_min),
    ensures
        is_turned(local_mask, r, 1 + day_shift(signed(local_min), tz_min as int)),
{
    let delta: i64 = date_delta(local_min, tz_min);
    turn_days(local_mask, (1 + delta) as u8)
}

/// Inverse of [`local_to_cloud_repeat`]: a plug's weekday mask plus the local
/// time to the local weekday mask.
pub fn cloud_to_local_mask(cloud_mask: u8, local_min: u64, tz_min: i64) -> (r: u8)
    requires
        fits(signed(local_min) - tz_min),
    ensures
        is_turned(cloud_mask, r, 6 - day_shift(signed(local_min), tz_min as int)),
{
    let delta: i64 = date_delta(local_min, tz_min);
    let shift: u8 = ((6 - delta) % 7) as u8;
    let r = turn_days(cloud_mask, shift);
    proof {
        let exact = 6 - day_shift(signed(local_min), tz_min as int);
        assert forall|d: int| 0 <= d < 7 implies #[trigger] has_day(cloud_mask, d) == has_day(
            r,
            (d + exact) % 7,
        ) by {
            assert((d + exact) % 7 == (d + shift) % 7);
        }
    }
    r
}

/// The label of one weekday, Monday first.
pub open spec fn weekday_name(day: int) -> Seq<char> {
    if day == 0 {
        "周一"@
    } else if day == 1 {
        "周二"@
    } else if day == 2 {
        "周三"@
    } else if day == 3 {
        "周四"@
    } else if day == 4 {
        "周五"@
    } else if day == 5 {
        "周六"@
    } else {
        "周日"@
    }
}

/// The labels of those of the first `n` weekdays that are in `mask`.
pub open spec fn day_names(mask: u8, n: nat) -> Seq<char>
    decreases n,
{
    if n == 0 {
        seq![]
    } else if has_day(mask, n - 1) {
        day_names(mask, (n - 1) as nat) + weekday_name(n - 1)
    } else {
        day_names(mask, (n - 1) as nat)
    }
}

/// Whether `mask` holds a weekday.
pub open spec fn any_day(mask: u8) -> bool {
    exists|day: int| 0 <= day < 7 && has_day(mask, day)
}

/// The label of a local weekday mask.
pub open spec fn days_label(mask: u8) -> Seq<char> {
    if any_day(mask) {
        day_names(mask, 7)
    } else {
        "只一次"@
    }
}

/// The label of one weekday, Monday first.
fn weekday(day: u8) -> (r: &'static str)
    ensures
        r@ == weekday_name(day as int),
{
    if day == 0 {
        "周一"
    } else if day == 1 {
        "周二"
    } else if day == 2 {
        "周三"
    } else if day == 3 {
        "周四"
    } else if day == 4 {
        "周五"
    } else if day == 5 {
        "周六"
    } else {
        "周日"
    }
}

/// Human label for a local weekday mask, e.g. `周一周三周五`.
pub fn mask_days(mask: u8) -> (r: String)
    ensures
        r@ == days_label(mask),
{
    let mut names = String::new();
    let mut any = false;
    let mut day: u8 = 0;
    while day < 7
        invariant
            day <= 7,
            names@ == day_names(mask, day as nat),
            any == exists|d: int| 0 <= d < day && has_day(mask, d),
        decreases 7 - day,
    {
        if mask & (1u8 << day) != 0 {
            proof {
                assert(has_day(mask, day as int));
            }
            names.append(weekday(day));
            any = true;
        }
        day = day + 1;
    }
    if any {
        names
    } else {
        "只一次".to_owned()
    }
}

/// `HH:MM` of a time in minutes.
pub open spec fn clock(minutes: int) -> Seq<char> {
    text::dec2((minutes / 60) as nat) + ":"@ + text::dec2((minutes % 60) as nat)
}

/// `HH:MM` of a time in minutes.
pub fn clock_text(minutes: u64) -> (r: String)
    ensures
        r@ == clock(minutes as int),
{
    let mut s = String::new();
    text::push_dec2(&mut s, minutes / 60);
    s.append(":");
    text::push_dec2(&mut s, minutes % 60);
    proof {
        assert(s@ =~= clock(minutes as int));
    }
    s
}

// ---------------------------------------------------------------------- laws

/// A local time survives the way to the plug and back.
pub proof fn time_round_trip(local_min: int, tz_min: int)
    requires
        0 <= local_min < 1440,
    ensures
        local_time(cloud_time(local_min, tz_min), tz_min) == local_min,
{
}

/// A time that a plug stores survives the way to local time and back.
pub proof fn cloud_time_round_trip(cloud_min: int, tz_min: int)
    requires
        0 <= cloud_min < 1440,
    ensures
        cloud_time(local_time(cloud_min, tz_min), tz_min) == cloud_min,
{
}

/// A local weekday mask survives the way to the plug and back, at every local
/// time and offset: with `cloud` from [`local_to_cloud_repeat`] and `back`
/// from [`cloud_to_local_mask`], the seven weekday bits are the old ones.
pub proof fn repeat_round_trip(mask: u8, cloud: u8, back: u8, local_min: int, tz_min: int)
    requires
        is_turned(mask, cloud, 1 + day_shift(local_min, tz_min)),
        is_turned(cloud, back, 6 - day_shift(local_min, tz_min)),
    ensures
        back == mask & 0x7f,
{
    let there = 1 + day_shift(local_min, tz_min);
    let again = 6 - day_shift(local_min, tz_min);
    assert forall|d: int| 0 <= d < 7 implies #[trigger] has_day(back, d) == has_day(
        mask & 0x7f,
        d,
    ) by {
        let e = (d + there) % 7;
        assert(has_day(mask, d) == has_day(cloud, e));
        assert(has_day(cloud, e) == has_day(back, (e + again) % 7));
        assert((e + again) % 7 == d);
        let day = d as u8;
        assert((mask & 0x7f) & (1u8 << day) != 0 <==> mask & (1u8 << day) != 0) by (bit_vector)
            requires
                day < 7,
        ;
    }
    assert(mask & 0x7f < 128) by (bit_vector);
    same_days(back, mask & 0x7f);
}

/// The weekday shift is the calendar: with offsets below a day, the UTC
/// instant of a local time lies `day_shift` days after the local date began.
pub proof fn shift_matches_calendar(local_min: int, tz_min: int)
    requires
        0 <= local_min < 1440,
        -1440 < tz_min < 1440,
    ensures
        local_min - tz_min == 1440 * day_shift(local_min, tz_min) + cloud_time(local_min, tz_min),
{
}

/// A mask of one weekday is labelled with that day, Monday first.
pub proof fn single_days_are_named(mask: u8, day: int)
    requires
        0 <= day < 7,
        forall|d: int| 0 <= d < 7 ==> (#[trigger] has_day(mask, d) <==> d == day),
    ensures
        days_label(mask) == seq!["周一"@, "周二"@, "周三"@, "周四"@, "周五"@, "周六"@, "周日"@][day],
{
    reveal_with_fuel(day_names, 8);
    assert(has_day(mask, day));
    assert(any_day(mask));
    assert(day_names(mask, 7) =~= weekday_name(day)) by {
        assert(forall|d: int| 0 <= d < 7 && d != day ==> !has_day(mask, d));
    }
}

/// A mask without a weekday fires once, and any other on the days that it holds.
pub proof fn masks_without_days_fire_once(mask: u8)
    ensures
        (forall|d: int| 0 <= d < 7 ==> !#[trigger] has_day(mask, d)) ==> days_label(mask)
            == "只一次"@,
        any_day(mask) ==> days_label(mask) == day_names(mask, 7),
{
}

/// The days of a label stand in the order of the week, and every day of the
/// mask is there: the label up to a day is the label before it, with the
/// day's name behind it exactly where the mask holds the day.
pub proof fn days_stand_in_order(mask: u8, day: int)
    requires
        0 <= day < 7,
    ensures
        has_day(mask, day) ==> day_names(mask, (day + 1) as nat) == day_names(mask, day as nat)
            + weekday_name(day),
        !has_day(mask, day) ==> day_names(mask, (day + 1) as nat) == day_names(mask, day as nat),
        day_names(mask, 0).len() == 0,
{
}

/// A time is shown by its hours and its minutes.
pub proof fn clocks_show_hours_and_minutes(h: int, m: int)
    requires
        0 <= h,
        0 <= m < 60,
    ensures
        clock(60 * h + m) == text::dec2(h as nat) + ":"@ + text::dec2(m as nat),
{
    assert((60 * h + m) / 60 == h && (60 * h + m) % 60 == m);
}

/// The weekdays of a mask are its binary digits, Monday the lowest: a Monday
/// counts 1, a Tuesday 2, and a Sunday 64.
pub proof fn weekdays_are_binary_digits(mask: u8)
    ensures
        has_day(mask, 0) <==> mask % 2 == 1,
        has_day(mask, 1) <==> mask / 2 % 2 == 1,
        has_day(mask, 2) <==> mask / 4 % 2 == 1,
        has_day(mask, 3) <==> mask / 8 % 2 == 1,
        has_day(mask, 4) <==> mask / 16 % 2 == 1,
        has_day(mask, 5) <==> mask / 32 % 2 == 1,
        has_day(mask, 6) <==> mask / 64 % 2 == 1,
{
    assert((mask & (1u8 << 0u8) != 0) <==> mask % 2 == 1) by (bit_vector);
    assert((mask & (1u8 << 1u8) != 0) <==> mask / 2 % 2 == 1) by (bit_vector);
    assert((mask & (1u8 << 2u8) != 0) <==> mask / 4 % 2 == 1) by (bit_vector);
    assert((mask & (1u8 << 3u8) != 0) <==> mask / 8 % 2 == 1) by (bit_vector);
    assert((mask & (1u8 << 4u8) != 0) <==> mask / 16 % 2 == 1) by (bit_vector);
    assert((mask & (1u8 << 5u8) != 0) <==> mask / 32 % 2 == 1) by (bit_vector);
    assert((mask & (1u8 << 6u8) != 0) <==> mask / 64 % 2 == 1) by (bit_vector);
}

/// A number of 63 bits is itself as a signed one, and a larger one wraps
/// around once.
pub proof fn large_numbers_wrap_around(n: u64)
    ensures
        n <= i64::MAX ==> signed(n) == n,
        n > i64::MAX ==> signed(n) == n - 0x1_0000_0000_0000_0000,
        fits(signed(n)),
        fits(i64::MIN as int) && fits(i64::MAX as int),
        !fits(i64::MIN - 1) && !fits(i64::MAX + 1),
{
}

} // verus!
