//! The `wakeup plug logs` command: its time window, and what it prints.

use crate::config::Config;
use crate::json;
use crate::json::{Json, Tree};
use crate::logs::{LogQuery, StatusLog};
use crate::plug_report;
use crate::schedule;
use crate::text;
use crate::times;
use vstd::prelude::*;
use vstd::string::*;

verus! {

broadcast use vstd::seq_lib::group_seq_properties;

// --------------------------------------------------------------------- timezones

/// Whether a bound is there and is no duration before now.
pub open spec fn absolute_bound(bound: Option<Seq<char>>) -> bool {
    bound matches Some(b) && times::ago(b) is None
}

/// Whether one of the bounds is absolute.
pub open spec fn any_absolute(since: Option<Seq<char>>, until: Option<Seq<char>>) -> bool {
    absolute_bound(since) || absolute_bound(until)
}

/// Whether a bound is there and is no duration before now.
fn bound_is_absolute(bound: &Option<String>) -> (r: bool)
    requires
        text::opt_view(*bound) matches Some(b) ==> times::ago_fits(b),
    ensures
        r == absolute_bound(text::opt_view(*bound)),
{
    match bound {
        Some(b) => times::parse_ago_secs(b.as_str()).is_none(),
        None => false,
    }
}

/// The timezones of a query, in minutes east of UTC.
#[derive(Debug, Clone, Copy, PartialEq, Eq, Structural)]
pub struct Zones {
    /// In which absolute bounds are read; there is one where a bound is
    /// absolute.
    pub bounds: Option<i64>,
    /// In which times are shown; without one they are shown in the machine's.
    pub display: Option<i64>,
}

/// The timezones of a query, given the machine's: absolute bounds are read in
/// the timezone of the plug, and times are shown in that which was asked for,
/// or in which the bounds are read.
pub open spec fn zones_of(
    tz: Option<Seq<char>>,
    arg: Option<i64>,
    absolute: bool,
    machine: int,
) -> Result<(Option<int>, Option<int>), Seq<char>> {
    let asked = arg is Some || tz is Some;
    if !absolute && !asked {
        Ok((None, None))
    } else {
        match times::effective_tz(tz, arg, machine) {
            Ok(min) => Ok(
                (
                    if absolute {
                        Some(min)
                    } else {
                        None
                    },
                    Some(min),
                ),
            ),
            Err(m) => Err(m),
        }
    }
}

/// An offset that may be absent.
pub open spec fn opt_int(n: Option<i64>) -> Option<int> {
    match n {
        Some(n) => Some(n as int),
        None => None,
    }
}

/// What a fallible function gave.
pub open spec fn zones_result(r: Result<Zones, String>) -> Result<
    (Option<int>, Option<int>),
    Seq<char>,
> {
    match r {
        Ok(z) => Ok((opt_int(z.bounds), opt_int(z.display))),
        Err(m) => Err(m@),
    }
}

/// The timezones of a query, given the machine's.
pub fn log_zones_with(
    cfg: &Config,
    arg: Option<i64>,
    since: &Option<String>,
    until: &Option<String>,
    machine: i64,
) -> (r: Result<Zones, String>)
    requires
        text::opt_view(*since) matches Some(b) ==> times::ago_fits(b),
        text::opt_view(*until) matches Some(b) ==> times::ago_fits(b),
    ensures
        zones_result(r) == zones_of(
            text::opt_view(cfg.tz),
            arg,
            any_absolute(text::opt_view(*since), text::opt_view(*until)),
            machine as int,
        ),
{
    let absolute = bound_is_absolute(since) || bound_is_absolute(until);
    if !absolute && arg.is_none() && cfg.tz.is_none() {
        return Ok(Zones { bounds: None, display: None });
    }
    match times::resolve_tz_with(cfg, arg, machine) {
        Ok(min) => Ok(
            Zones {
                bounds: if absolute {
                    Some(min)
                } else {
                    None
                },
                display: Some(min),
            },
        ),
        Err(m) => Err(m),
    }
}

/// The timezones of a query. Where neither an argument nor the configuration
/// gives one, absolute bounds are read in the machine's, on which the result
/// then rests; it is less than a day.
pub fn log_zones(
    cfg: &Config,
    arg: Option<i64>,
    since: &Option<String>,
    until: &Option<String>,
) -> (r: Result<Zones, String>)
    requires
        text::opt_view(*since) matches Some(b) ==> times::ago_fits(b),
        text::opt_view(*until) matches Some(b) ==> times::ago_fits(b),
    ensures
        exists|machine: int|
            -1440 < machine < 1440 && #[trigger] zones_of(
                text::opt_view(cfg.tz),
                arg,
                any_absolute(text::opt_view(*since), text::opt_view(*until)),
                machine,
            ) == zones_result(r),
{
    let machine: i64 = times::machine_offset_min();
    log_zones_with(cfg, arg, since, until, machine)
}

// ------------------------------------------------------------------------ window

/// How a window that ends before it starts is reported.
pub open spec fn bad_window(since: Seq<char>, until: Seq<char>) -> Seq<char> {
    "invalid window: --since starts after --until ends (since=Some("@ + text::debug_text(since)
        + "), until=Some("@ + text::debug_text(until) + "))"@
}

/// The timestamp of a bound that may be absent.
pub open spec fn opt_bound(bound: Option<Seq<char>>, lower: bool, now: i64, tz_min: Option<i64>) ->
    Result<Option<int>, Seq<char>> {
    match bound {
        Some(b) => match times::bound_of(b, lower, now, tz_min, None) {
            Ok(t) => Ok(Some(t)),
            Err(m) => Err(m),
        },
        None => Ok(None),
    }
}

/// The window of a query.
pub open spec fn window_of(
    since: Option<Seq<char>>,
    until: Option<Seq<char>>,
    now: i64,
    tz_min: Option<i64>,
) -> Result<(Option<int>, Option<int>), Seq<char>> {
    match (opt_bound(since, true, now, tz_min), opt_bound(until, false, now, tz_min)) {
        (Err(m), _) => Err(m),
        (Ok(_), Err(m)) => Err(m),
        (Ok(start), Ok(end)) => match (start, end) {
            (Some(s), Some(e)) => if s > e {
                Err(bad_window(since->Some_0, until->Some_0))
            } else {
                Ok((start, end))
            },
            _ => Ok((start, end)),
        },
    }
}

/// Whether a bound that may be absent can be resolved in 64 bits.
pub open spec fn opt_bound_fits(bound: Option<Seq<char>>, now: i64) -> bool {
    bound matches Some(b) ==> times::ago_fits(b) && times::bound_fits(b, now)
}

/// Whether the bounds of a query can be resolved: a duration before now stays
/// in range.
pub fn bounds_in_range(since: &Option<String>, until: &Option<String>, now: i64) -> (r: bool)
    ensures
        r == (opt_bound_fits(text::opt_view(*since), now) && opt_bound_fits(
            text::opt_view(*until),
            now,
        )),
{
    let first = match since {
        Some(b) => times::ago_in_range(b.as_str()) && times::bound_in_range(b.as_str(), now),
        None => true,
    };
    let second = match until {
        Some(b) => times::ago_in_range(b.as_str()) && times::bound_in_range(b.as_str(), now),
        None => true,
    };
    first && second
}

/// The timestamp of a bound that may be absent.
fn resolve_bound(bound: &Option<String>, lower: bool, now: i64, tz_min: Option<i64>) -> (r: Result<
    Option<i64>,
    String,
>)
    requires
        opt_bound_fits(text::opt_view(*bound), now),
        absolute_bound(text::opt_view(*bound)) ==> tz_min is Some,
        tz_min matches Some(min) ==> schedule::fits(60 * min),
    ensures
        match r {
            Ok(t) => opt_bound(text::opt_view(*bound), lower, now, tz_min) == Ok::<
                Option<int>,
                Seq<char>,
            >(opt_int(t)),
            Err(m) => opt_bound(text::opt_view(*bound), lower, now, tz_min) == Err::<
                Option<int>,
                Seq<char>,
            >(m@),
        },
{
    match bound {
        Some(b) => {
            proof {
                text::trim_is_final(b@);
            }
            match times::resolve_time_bound_tz(b.as_str(), lower, now, tz_min) {
                Ok(t) => Ok(Some(t)),
                Err(m) => Err(m),
            }
        },
        None => Ok(None),
    }
}

/// The query for a time window: the bounds as timestamps, or why they are
/// none. Absolute bounds are read in the timezone `tz_min`.
pub fn log_query(
    since: &Option<String>,
    until: &Option<String>,
    page: Option<u32>,
    index: Option<usize>,
    now: i64,
    tz_min: Option<i64>,
) -> (r: Result<LogQuery, String>)
    requires
        opt_bound_fits(text::opt_view(*since), now),
        opt_bound_fits(text::opt_view(*until), now),
        any_absolute(text::opt_view(*since), text::opt_view(*until)) ==> tz_min is Some,
        tz_min matches Some(min) ==> schedule::fits(60 * min),
    ensures
        match window_of(text::opt_view(*since), text::opt_view(*until), now, tz_min) {
            Ok(w) => r matches Ok(q) && opt_int(q.start) == w.0 && opt_int(q.end) == w.1 && q.page
                == page && q.index == index,
            Err(m) => r matches Err(s) && s@ == m,
        },
{
    let start = match resolve_bound(since, true, now, tz_min) {
        Ok(t) => t,
        Err(m) => {
            return Err(m);
        },
    };
    let end = match resolve_bound(until, false, now, tz_min) {
        Ok(t) => t,
        Err(m) => {
            return Err(m);
        },
    };
    match (start, end, since, until) {
        (Some(s), Some(e), Some(since), Some(until)) => {
            if s > e {
                let mut m =
                    "invalid window: --since starts after --until ends (since=Some(".to_owned();
                m.append(text::quoted(since.as_str()).as_str());
                m.append("), until=Some(");
                m.append(text::quoted(until.as_str()).as_str());
                m.append("))");
                return Err(m);
            }
        },
        _ => {},
    }
    Ok(LogQuery { start, end, page, index })
}

// ------------------------------------------------------------------------ output

/// The line of an entry, with its time as it is shown.
pub open spec fn log_line(shown: Seq<char>, log: StatusLog) -> Seq<char> {
    shown + " index="@ + text::dec_int(log.index as int) + " "@ + plug_report::state_word(
        log.status == 1,
    ) + " "@ + log.event@
}

/// The line of an entry, with its time as it is shown.
pub fn log_text(shown: String, log: &StatusLog) -> (r: String)
    ensures
        r@ == log_line(shown@, *log),
{
    let mut s = shown;
    s.append(" index=");
    text::push_dec_int(&mut s, log.index as i64);
    s.append(" ");
    s.append(plug_report::state_text(log.status == 1));
    s.append(" ");
    s.append(log.event.as_str());
    s
}

/// Whether `shown` is the time of an entry in a timezone; without one, in
/// some zone: the machine's.
pub open spec fn is_shown(shown: Seq<char>, log: StatusLog, tz: Option<i64>) -> bool {
    match tz {
        Some(min) => shown == times::time_at(log.createtime as int, min as int),
        None => times::is_local_time(shown, log.createtime as int),
    }
}

/// Whether `line` is the line of an entry in a timezone.
pub open spec fn is_log_line(line: Seq<char>, log: StatusLog, tz: Option<i64>) -> bool {
    exists|shown: Seq<char>| is_shown(shown, log, tz) && line == #[trigger] log_line(shown, log)
}

/// Whether `lines` are the text-mode lines of a query.
pub open spec fn is_log_listing(lines: Seq<String>, logs: Seq<StatusLog>, tz: Option<i64>) -> bool {
    &&& logs.len() == 0 ==> text::lines_view(lines) == seq!["no matching events"@]
    &&& logs.len() > 0 ==> lines.len() == logs.len()
    &&& forall|i: int| 0 <= i < logs.len() ==> is_log_line(#[trigger] lines[i]@, logs[i], tz)
}

/// The text-mode lines of a query; an empty result gets a notice. With a
/// timezone every line is fixed; without one the times rest on the machine's.
pub fn logs_text_lines(logs: &Vec<StatusLog>, tz: Option<i64>) -> (r: Vec<String>)
    requires
        tz matches Some(min) ==> schedule::fits(60 * min),
    ensures
        is_log_listing(r@, logs@, tz),
{
    let mut lines: Vec<String> = Vec::new();
    if logs.len() == 0 {
        lines.push("no matching events".to_owned());
        proof {
            assert(text::lines_view(lines@) =~= seq!["no matching events"@]);
        }
        return lines;
    }
    let mut i: usize = 0;
    while i < logs.len()
        invariant
            i <= logs@.len(),
            tz matches Some(min) ==> schedule::fits(60 * min),
            lines@.len() == i,
            forall|k: int| 0 <= k < i ==> is_log_line(#[trigger] lines@[k]@, logs@[k], tz),
        decreases logs.len() - i,
    {
        let shown = times::render_ts(logs[i].createtime, tz);
        let ghost time = shown@;
        let line = log_text(shown, &logs[i]);
        proof {
            assert(is_shown(time, logs@[i as int], tz));
            assert(is_log_line(line@, logs@[i as int], tz));
        }
        lines.push(line);
        i = i + 1;
    }
    lines
}

/// The document of an entry, with its time as it is shown.
pub open spec fn log_tree(shown: Seq<char>, log: StatusLog) -> Tree {
    Tree::Object(
        map![
            "event"@ => Tree::Str(log.event@),
            "status"@ => json::int_tree(log.status as int),
            "index"@ => json::int_tree(log.index as int),
            "createtime"@ => json::int_tree(log.createtime as int),
            "createtime_format"@ => Tree::Str(log.createtime_format@),
            "createtime_tz"@ => Tree::Str(shown),
        ],
    )
}

/// The document of an entry, with its time as it is shown.
pub fn log_json(shown: &str, log: &StatusLog) -> (r: Json)
    ensures
        r@ == log_tree(shown@, *log),
{
    let mut f: Vec<(String, Json)> = Vec::new();
    json::put(&mut f, "event", json::json_str(log.event.as_str()));
    json::put(&mut f, "status", Json::Int(log.status as i64));
    json::put(&mut f, "index", Json::Int(log.index as i64));
    json::put(&mut f, "createtime", Json::Int(log.createtime));
    json::put(&mut f, "createtime_format", json::json_str(log.createtime_format.as_str()));
    json::put(&mut f, "createtime_tz", json::json_str(shown));
    Json::Object(f)
}

/// Whether `tree` is the document of an entry in a timezone.
pub open spec fn is_log_tree(tree: Tree, log: StatusLog, tz: Option<i64>) -> bool {
    exists|shown: Seq<char>| is_shown(shown, log, tz) && tree == #[trigger] log_tree(shown, log)
}

/// `--json` body of a query: an array of its entries, each with its time as
/// it is shown. With a timezone it is fixed; without one the times rest on
/// the machine's.
pub fn logs_json(logs: &Vec<StatusLog>, tz: Option<i64>) -> (r: Json)
    requires
        tz matches Some(min) ==> schedule::fits(60 * min),
    ensures
        r@ is Array,
        r@->Array_0.len() == logs@.len(),
        forall|i: int| 0 <= i < logs@.len() ==> is_log_tree(#[trigger] r@->Array_0[i], logs@[i], tz),
{
    let mut items: Vec<Json> = Vec::new();
    let mut i: usize = 0;
    while i < logs.len()
        invariant
            i <= logs@.len(),
            tz matches Some(min) ==> schedule::fits(60 * min),
            items@.len() == i,
            json::items_tree(items@).len() == i,
            forall|k: int|
                0 <= k < i ==> is_log_tree(#[trigger] json::items_tree(items@)[k], logs@[k], tz),
        decreases logs.len() - i,
    {
        let shown = times::render_ts(logs[i].createtime, tz);
        let item = log_json(shown.as_str(), &logs[i]);
        proof {
            assert(is_shown(shown@, logs@[i as int], tz));
            assert(is_log_tree(item@, logs@[i as int], tz));
        }
        let ghost before = items@;
        items.push(item);
        proof {
            assert(items@.drop_last() =~= before);
        }
        i = i + 1;
    }
    Json::Array(items)
}

// ---------------------------------------------------------------------- laws

/// Times are shown in the timezone in which the bounds were read: where a
/// bound is absolute, both are the same.
pub proof fn times_match_the_bounds(
    tz: Option<Seq<char>>,
    arg: Option<i64>,
    machine: int,
)
    ensures
        zones_of(tz, arg, true, machine) matches Ok(z) ==> z.0 is Some && z.1 == z.0,
{
}

/// A query without absolute bounds needs no timezone: it never fails for want
/// of one, and leaves the times to the machine's unless one was asked for.
pub proof fn durations_need_no_timezone(machine: int)
    ensures
        zones_of(None, None, false, machine) == Ok::<
            (Option<int>, Option<int>),
            Seq<char>,
        >((None, None)),
{
}

/// A window that is accepted does not end before it starts.
pub proof fn windows_are_ordered(
    since: Option<Seq<char>>,
    until: Option<Seq<char>>,
    now: i64,
    tz_min: Option<i64>,
)
    requires
        window_of(since, until, now, tz_min) is Ok,
    ensures
        ({
            let w = window_of(since, until, now, tz_min)->Ok_0;
            w.0 is Some && w.1 is Some ==> w.0->Some_0 <= w.1->Some_0
        }),
{
}

/// Each bound of a query stands for itself: in a window that is accepted, a
/// bound that was given is there, as the time that it resolves to, whether or
/// not the other one was given, and one that was not given is not there.
pub proof fn given_bounds_are_kept(
    since: Option<Seq<char>>,
    until: Option<Seq<char>>,
    now: i64,
    tz_min: Option<i64>,
)
    requires
        window_of(since, until, now, tz_min) is Ok,
    ensures
        ({
            let w = window_of(since, until, now, tz_min)->Ok_0;
            &&& w.0 is None <==> since is None
            &&& w.1 is None <==> until is None
            &&& since matches Some(s) ==> times::bound_of(s, true, now, tz_min, None) == Ok::<
                int,
                Seq<char>,
            >(w.0->Some_0)
            &&& until matches Some(u) ==> times::bound_of(u, false, now, tz_min, None) == Ok::<
                int,
                Seq<char>,
            >(w.1->Some_0)
        }),
{
}

/// A query is accepted exactly where every bound that was given can be read
/// and the window does not end before it starts; a bound alone is enough.
pub proof fn readable_bounds_are_accepted(
    since: Option<Seq<char>>,
    until: Option<Seq<char>>,
    now: i64,
    tz_min: Option<i64>,
)
    ensures
        window_of(since, until, now, tz_min) is Ok <==> {
            &&& since matches Some(s) ==> times::bound_of(s, true, now, tz_min, None) is Ok
            &&& until matches Some(u) ==> times::bound_of(u, false, now, tz_min, None) is Ok
            &&& since is Some && until is Some ==> times::bound_of(
                since->Some_0,
                true,
                now,
                tz_min,
                None,
            )->Ok_0 <= times::bound_of(until->Some_0, false, now, tz_min, None)->Ok_0
        },
        window_of(None, None, now, tz_min) == Ok::<(Option<int>, Option<int>), Seq<char>>(
            (None, None),
        ),
{
}

/// A query is refused for what is wrong with it: for the start before the
/// end, where both cannot be read, and for the window only where both can.
pub proof fn refused_queries_say_why(
    since: Seq<char>,
    until: Seq<char>,
    now: i64,
    tz_min: Option<i64>,
)
    ensures
        times::bound_of(since, true, now, tz_min, None) matches Err(m) ==> window_of(
            Some(since),
            Some(until),
            now,
            tz_min,
        ) == Err::<(Option<int>, Option<int>), Seq<char>>(m),
        times::bound_of(since, true, now, tz_min, None) matches Err(m) ==> window_of(
            Some(since),
            None,
            now,
            tz_min,
        ) == Err::<(Option<int>, Option<int>), Seq<char>>(m),
        times::bound_of(until, false, now, tz_min, None) matches Err(m) ==> window_of(
            None,
            Some(until),
            now,
            tz_min,
        ) == Err::<(Option<int>, Option<int>), Seq<char>>(m),
        times::bound_of(since, true, now, tz_min, None) is Ok && (times::bound_of(
            until,
            false,
            now,
            tz_min,
            None,
        ) matches Err(m)) ==> window_of(Some(since), Some(until), now, tz_min) == Err::<
            (Option<int>, Option<int>),
            Seq<char>,
        >(times::bound_of(until, false, now, tz_min, None)->Err_0),
        times::bound_of(since, true, now, tz_min, None) is Ok && times::bound_of(
            until,
            false,
            now,
            tz_min,
            None,
        ) is Ok && times::bound_of(since, true, now, tz_min, None)->Ok_0 > times::bound_of(
            until,
            false,
            now,
            tz_min,
            None,
        )->Ok_0 ==> window_of(Some(since), Some(until), now, tz_min) == Err::<
            (Option<int>, Option<int>),
            Seq<char>,
        >(
            "invalid window: --since starts after --until ends (since=Some("@ + text::debug_text(
                since,
            ) + "), until=Some("@ + text::debug_text(until) + "))"@,
        ),
{
}

/// The timezone that was asked for wins over the configured one, and that
/// over the machine's; the bounds are read in it where one is absolute, and
/// times are shown in it.
pub proof fn asked_timezone_wins(
    tz: Option<Seq<char>>,
    configured: Seq<char>,
    min: i64,
    absolute: bool,
    machine: int,
)
    ensures
        zones_of(tz, Some(min), absolute, machine) == Ok::<(Option<int>, Option<int>), Seq<char>>(
            (
                if absolute {
                    Some(min as int)
                } else {
                    None
                },
                Some(min as int),
            ),
        ),
        times::tz_of(configured) matches Some(own) ==> zones_of(
            Some(configured),
            None,
            absolute,
            machine,
        ) == Ok::<(Option<int>, Option<int>), Seq<char>>(
            (
                if absolute {
                    Some(own)
                } else {
                    None
                },
                Some(own),
            ),
        ),
        times::tz_of(configured) is None ==> zones_of(Some(configured), None, absolute, machine)
            is Err,
        zones_of(None, None, true, machine) == Ok::<(Option<int>, Option<int>), Seq<char>>(
            (Some(machine), Some(machine)),
        ),
{
}

/// A bound is absolute exactly where it is given and is no duration, and one
/// absolute bound is enough for a timezone to be needed.
pub proof fn durations_are_not_absolute(since: Seq<char>, until: Seq<char>)
    ensures
        any_absolute(Some(since), None) <==> times::ago(since) is None,
        any_absolute(None, Some(until)) <==> times::ago(until) is None,
        any_absolute(Some(since), Some(until)) <==> times::ago(since) is None || times::ago(until)
            is None,
        !any_absolute(None, None),
{
}

/// A line of the log says when, which port, the state that the port went
/// into, and why; the state is `ON` exactly where the entry's status is 1.
pub proof fn log_lines_say_what_happened(shown: Seq<char>, log: StatusLog)
    ensures
        log.status == 1 ==> log_line(shown, log) == shown + " index="@ + text::dec_int(
            log.index as int,
        ) + " ON "@ + log.event@,
        log.status != 1 ==> log_line(shown, log) == shown + " index="@ + text::dec_int(
            log.index as int,
        ) + " OFF "@ + log.event@,
{
    reveal_strlit(" ");
    reveal_strlit("ON");
    reveal_strlit("OFF");
    reveal_strlit(" ON ");
    reveal_strlit(" OFF ");
    assert(" ON "@ =~= " "@ + "ON"@ + " "@);
    assert(" OFF "@ =~= " "@ + "OFF"@ + " "@);
    let start = shown + " index="@ + text::dec_int(log.index as int);
    if log.status == 1 {
        assert(log_line(shown, log) =~= start + " ON "@ + log.event@);
    } else {
        assert(log_line(shown, log) =~= start + " OFF "@ + log.event@);
    }
}

/// The document of a log entry holds each of its fields under its own name,
/// and its time as it is shown beside the time as it was sent.
pub proof fn log_documents_hold_the_entry(shown: Seq<char>, log: StatusLog)
    ensures
        json::member(log_tree(shown, log), "event"@) == Some(Tree::Str(log.event@)),
        json::member(log_tree(shown, log), "status"@) == Some(json::int_tree(log.status as int)),
        json::member(log_tree(shown, log), "index"@) == Some(json::int_tree(log.index as int)),
        json::member(log_tree(shown, log), "createtime"@) == Some(
            json::int_tree(log.createtime as int),
        ),
        json::member(log_tree(shown, log), "createtime_format"@) == Some(
            Tree::Str(log.createtime_format@),
        ),
        json::member(log_tree(shown, log), "createtime_tz"@) == Some(Tree::Str(shown)),
{
    reveal_strlit("event");
    reveal_strlit("status");
    reveal_strlit("index");
    reveal_strlit("createtime");
    reveal_strlit("createtime_format");
    reveal_strlit("createtime_tz");
    assert("event"@.len() == 5 && "status"@.len() == 6 && "index"@.len() == 5
        && "createtime"@.len() == 10 && "createtime_format"@.len() == 17
        && "createtime_tz"@.len() == 13);
    assert("event"@[0] == 'e' && "index"@[0] == 'i');
}

/// The times of a query are shown in the timezone that it has: an entry's
/// line and its document show one and the same time.
pub proof fn times_are_shown_in_the_timezone(log: StatusLog, min: i64, line: Seq<char>, tree: Tree)
    requires
        is_log_line(line, log, Some(min)),
        is_log_tree(tree, log, Some(min)),
    ensures
        line.take(times::time_at(log.createtime as int, min as int).len() as int)
            == times::time_at(log.createtime as int, min as int),
        json::member(tree, "createtime_tz"@) == Some(
            Tree::Str(times::time_at(log.createtime as int, min as int)),
        ),
{
    let shown = times::time_at(log.createtime as int, min as int);
    log_lines_say_what_happened(shown, log);
    log_documents_hold_the_entry(shown, log);
    assert(line.take(shown.len() as int) =~= shown);
}

/// Every entry of a query gets its own line, in their order, and a query
/// without entries one notice.
pub proof fn every_entry_is_listed(
    lines: Seq<String>,
    logs: Seq<StatusLog>,
    min: i64,
    at: int,
    none: Seq<String>,
)
    requires
        is_log_listing(lines, logs, Some(min)),
        0 <= at < logs.len(),
        is_log_listing(none, Seq::empty(), Some(min)),
    ensures
        lines.len() == logs.len(),
        lines[at]@ == times::time_at(logs[at].createtime as int, min as int) + " index="@
            + text::dec_int(logs[at].index as int) + (if logs[at].status == 1 {
            " ON "@
        } else {
            " OFF "@
        }) + logs[at].event@,
        none.len() == 1,
        none[0]@ == "no matching events"@,
{
    assert(is_log_line(lines[at]@, logs[at], Some(min)));
    log_lines_say_what_happened(
        times::time_at(logs[at].createtime as int, min as int),
        logs[at],
    );
    assert(text::lines_view(none).len() == 1);
    assert(text::lines_view(none)[0] == none[0]@);
}

} // verus!
