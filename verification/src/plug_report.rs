//! What the `wakeup plug` commands print.
//!
//! With `--json` each command prints exactly one JSON value, and only when it
//! succeeds; otherwise it prints the lines below.

use crate::json;
use crate::json::{Json, Tree};
use crate::output::Report;
use crate::plug::{CntdownResp, PlugStatus, PlugStatusResp, PlugTimer};
use crate::plug_call;
use crate::plug_call::PlugStep;
use crate::plug_cmd::{CountdownCmd, PlugCmd, TimerCmd};
use crate::schedule;
use crate::text;
use crate::times;
use crate::url;
use vstd::prelude::*;
use vstd::string::*;

verus! {

broadcast use vstd::seq_lib::group_seq_properties;

/// `on` or `off`.
pub open spec fn on_word(on: bool) -> Seq<char> {
    if on {
        "on"@
    } else {
        "off"@
    }
}

/// `on` or `off`.
fn on_text(on: bool) -> (r: &'static str)
    ensures
        r@ == on_word(on),
{
    if on {
        "on"
    } else {
        "off"
    }
}

/// `ON` or `OFF`.
pub open spec fn state_word(on: bool) -> Seq<char> {
    if on {
        "ON"@
    } else {
        "OFF"@
    }
}

/// `ON` or `OFF`.
pub fn state_text(on: bool) -> (r: &'static str)
    ensures
        r@ == state_word(on),
{
    if on {
        "ON"
    } else {
        "OFF"
    }
}

/// `enabled` or `disabled`.
pub open spec fn enabled_word(enabled: bool) -> Seq<char> {
    if enabled {
        "enabled"@
    } else {
        "disabled"@
    }
}

/// `enabled` or `disabled`.
fn enabled_text(enabled: bool) -> (r: &'static str)
    ensures
        r@ == enabled_word(enabled),
{
    if enabled {
        "enabled"
    } else {
        "disabled"
    }
}

/// How a line starts: the device and the port.
pub open spec fn outlet(sn: Seq<char>, index: int) -> Seq<char> {
    "sn="@ + sn + " index="@ + text::dec(index as nat)
}

/// How a line starts: the device and the port.
fn outlet_text(sn: &str, index: usize) -> (r: String)
    ensures
        r@ == outlet(sn@, index as int),
{
    let mut s = "sn=".to_owned();
    s.append(sn);
    s.append(" index=");
    text::push_dec(&mut s, index as u64);
    s
}

// ------------------------------------------------------------------- documents

/// The document of a switched outlet.
pub open spec fn switch_tree(sn: Seq<char>, index: int, on: bool) -> Tree {
    Tree::Object(
        map![
            "ok"@ => Tree::Bool(true),
            "sn"@ => Tree::Str(sn),
            "index"@ => json::int_tree(index),
            "status"@ => Tree::Str(on_word(on)),
        ],
    )
}

/// `--json` body of `plug on` and `plug off`.
pub fn json_plug_switch(sn: &str, index: usize, on: bool) -> (r: Json)
    ensures
        r@ == switch_tree(sn@, index as int, on),
{
    let mut f: Vec<(String, Json)> = Vec::new();
    json::put(&mut f, "ok", Json::Bool(true));
    json::put(&mut f, "sn", json::json_str(sn));
    json::put(&mut f, "index", Json::UInt(index as u64));
    json::put(&mut f, "status", json::json_str(on_text(on)));
    Json::Object(f)
}

/// The document of a switched LED.
pub open spec fn led_tree(sn: Seq<char>, on: bool) -> Tree {
    Tree::Object(
        map!["ok"@ => Tree::Bool(true), "sn"@ => Tree::Str(sn), "led"@ => Tree::Str(on_word(on))],
    )
}

/// `--json` body of `plug led`.
pub fn json_led(sn: &str, on: bool) -> (r: Json)
    ensures
        r@ == led_tree(sn@, on),
{
    let mut f: Vec<(String, Json)> = Vec::new();
    json::put(&mut f, "ok", Json::Bool(true));
    json::put(&mut f, "sn", json::json_str(sn));
    json::put(&mut f, "led", json::json_str(on_text(on)));
    Json::Object(f)
}

/// The document of a state after a power loss.
pub open spec fn restore_tree(sn: Seq<char>, state: int) -> Tree {
    Tree::Object(
        map!["ok"@ => Tree::Bool(true), "sn"@ => Tree::Str(sn), "state"@ => json::int_tree(state)],
    )
}

/// `--json` body of `plug power-on-restore`.
pub fn json_power_on_restore(sn: &str, state: u32) -> (r: Json)
    ensures
        r@ == restore_tree(sn@, state as int),
{
    let mut f: Vec<(String, Json)> = Vec::new();
    json::put(&mut f, "ok", Json::Bool(true));
    json::put(&mut f, "sn", json::json_str(sn));
    json::put(&mut f, "state", Json::UInt(state as u64));
    Json::Object(f)
}

/// The document of a started countdown.
pub open spec fn countdown_start_tree(sn: Seq<char>, index: int, count: int, action: int) -> Tree {
    Tree::Object(
        map![
            "ok"@ => Tree::Bool(true),
            "sn"@ => Tree::Str(sn),
            "index"@ => json::int_tree(index),
            "count"@ => json::int_tree(count),
            "action"@ => json::int_tree(action),
        ],
    )
}

/// `--json` body of `plug countdown start`.
pub fn json_countdown_start(sn: &str, index: usize, count: u64, action: u8) -> (r: Json)
    ensures
        r@ == countdown_start_tree(sn@, index as int, count as int, action as int),
{
    let mut f: Vec<(String, Json)> = Vec::new();
    json::put(&mut f, "ok", Json::Bool(true));
    json::put(&mut f, "sn", json::json_str(sn));
    json::put(&mut f, "index", Json::UInt(index as u64));
    json::put(&mut f, "count", Json::UInt(count));
    json::put(&mut f, "action", Json::UInt(action as u64));
    Json::Object(f)
}

/// The document of a stopped countdown.
pub open spec fn countdown_stop_tree(sn: Seq<char>, index: int) -> Tree {
    Tree::Object(
        map!["ok"@ => Tree::Bool(true), "sn"@ => Tree::Str(sn), "index"@ => json::int_tree(index)],
    )
}

/// `--json` body of `plug countdown stop`.
pub fn json_countdown_stop(sn: &str, index: usize) -> (r: Json)
    ensures
        r@ == countdown_stop_tree(sn@, index as int),
{
    let mut f: Vec<(String, Json)> = Vec::new();
    json::put(&mut f, "ok", Json::Bool(true));
    json::put(&mut f, "sn", json::json_str(sn));
    json::put(&mut f, "index", Json::UInt(index as u64));
    Json::Object(f)
}

/// The document of a removed timer.
pub open spec fn timer_removed_tree(sn: Seq<char>, index: int, id: int) -> Tree {
    Tree::Object(
        map![
            "ok"@ => Tree::Bool(true),
            "sn"@ => Tree::Str(sn),
            "index"@ => json::int_tree(index),
            "timer_id"@ => json::int_tree(id),
        ],
    )
}

/// `--json` body of `plug timer remove`.
pub fn json_timer_removed(sn: &str, index: usize, id: u64) -> (r: Json)
    ensures
        r@ == timer_removed_tree(sn@, index as int, id as int),
{
    let mut f: Vec<(String, Json)> = Vec::new();
    json::put(&mut f, "ok", Json::Bool(true));
    json::put(&mut f, "sn", json::json_str(sn));
    json::put(&mut f, "index", Json::UInt(index as u64));
    json::put(&mut f, "timer_id", Json::UInt(id));
    Json::Object(f)
}

/// The document of an enabled or disabled timer.
pub open spec fn timer_enabled_tree(sn: Seq<char>, index: int, id: int, enabled: bool) -> Tree {
    Tree::Object(
        map![
            "ok"@ => Tree::Bool(true),
            "sn"@ => Tree::Str(sn),
            "index"@ => json::int_tree(index),
            "timer_id"@ => json::int_tree(id),
            "enabled"@ => Tree::Bool(enabled),
        ],
    )
}

/// `--json` body of `plug timer enable` and `plug timer disable`.
pub fn json_timer_enabled(sn: &str, index: usize, id: u64, enabled: bool) -> (r: Json)
    ensures
        r@ == timer_enabled_tree(sn@, index as int, id as int, enabled),
{
    let mut f: Vec<(String, Json)> = Vec::new();
    json::put(&mut f, "ok", Json::Bool(true));
    json::put(&mut f, "sn", json::json_str(sn));
    json::put(&mut f, "index", Json::UInt(index as u64));
    json::put(&mut f, "timer_id", Json::UInt(id));
    json::put(&mut f, "enabled", Json::Bool(enabled));
    Json::Object(f)
}

// --------------------------------------------------------------------- reports

/// What a report says.
pub open spec fn says(r: Option<Report>, json: Tree, line: Seq<char>) -> bool {
    r is Some && r->Some_0.json@ == json && r->Some_0.line@ == line
}

/// What a change of one timer says in text.
pub open spec fn timer_line(sn: Seq<char>, index: int, id: int, word: Seq<char>) -> Seq<char> {
    outlet(sn, index) + " timer "@ + text::dec(id as nat) + " "@ + word
}

/// Whether a timer command that changed a timer reports `r`.
pub open spec fn is_timer_report(r: Option<Report>, cmd: TimerCmd) -> bool {
    match cmd {
        TimerCmd::Remove { sn: Some(sn), id: Some(id), index } => says(
            r,
            timer_removed_tree(sn@, index as int, id as int),
            timer_line(sn@, index as int, id as int, "removed"@),
        ),
        TimerCmd::Enable { sn: Some(sn), id: Some(id), index } => says(
            r,
            timer_enabled_tree(sn@, index as int, id as int, true),
            timer_line(sn@, index as int, id as int, "enabled"@),
        ),
        TimerCmd::Disable { sn: Some(sn), id: Some(id), index } => says(
            r,
            timer_enabled_tree(sn@, index as int, id as int, false),
            timer_line(sn@, index as int, id as int, "disabled"@),
        ),
        _ => r is None,
    }
}

/// What a change of one timer says in text.
fn timer_text(sn: &str, index: usize, id: u64, word: &str) -> (r: String)
    ensures
        r@ == timer_line(sn@, index as int, id as int, word@),
{
    let mut line = outlet_text(sn, index);
    line.append(" timer ");
    text::push_dec(&mut line, id);
    line.append(" ");
    line.append(word);
    line
}

/// What a timer command reports once its change went through.
fn timer_report(cmd: &TimerCmd) -> (r: Option<Report>)
    ensures
        is_timer_report(r, *cmd),
{
    match cmd {
        TimerCmd::Remove { sn: Some(sn), id: Some(id), index } => Some(
            Report {
                json: json_timer_removed(sn.as_str(), *index, *id),
                line: timer_text(sn.as_str(), *index, *id, "removed"),
            },
        ),
        TimerCmd::Enable { sn: Some(sn), id: Some(id), index } => Some(
            Report {
                json: json_timer_enabled(sn.as_str(), *index, *id, true),
                line: timer_text(sn.as_str(), *index, *id, "enabled"),
            },
        ),
        TimerCmd::Disable { sn: Some(sn), id: Some(id), index } => Some(
            Report {
                json: json_timer_enabled(sn.as_str(), *index, *id, false),
                line: timer_text(sn.as_str(), *index, *id, "disabled"),
            },
        ),
        _ => None,
    }
}

/// Whether a countdown command that changed something reports `r`.
pub open spec fn is_countdown_report(r: Option<Report>, cmd: CountdownCmd) -> bool {
    match cmd {
        CountdownCmd::Start { sn: Some(sn), index, count: Some(count), action } => says(
            r,
            countdown_start_tree(sn@, index as int, count as int, action as int),
            outlet(sn@, index as int) + " countdown started: "@ + text::dec(count as nat) + "s -> "@
                + state_word(action == 1),
        ),
        CountdownCmd::Stop { sn: Some(sn), index } => says(
            r,
            countdown_stop_tree(sn@, index as int),
            outlet(sn@, index as int) + " countdown stopped"@,
        ),
        _ => r is None,
    }
}

/// What a countdown command reports once its change went through.
fn countdown_report(cmd: &CountdownCmd) -> (r: Option<Report>)
    ensures
        is_countdown_report(r, *cmd),
{
    match cmd {
        CountdownCmd::Start { sn: Some(sn), index, count: Some(count), action } => {
            let mut line = outlet_text(sn.as_str(), *index);
            line.append(" countdown started: ");
            text::push_dec(&mut line, *count);
            line.append("s -> ");
            line.append(state_text(*action == 1));
            Some(Report { json: json_countdown_start(sn.as_str(), *index, *count, *action), line })
        },
        CountdownCmd::Stop { sn: Some(sn), index } => {
            let mut line = outlet_text(sn.as_str(), *index);
            line.append(" countdown stopped");
            Some(Report { json: json_countdown_stop(sn.as_str(), *index), line })
        },
        _ => None,
    }
}

/// Whether a command that changed something reports `r`.
pub open spec fn is_report(r: Option<Report>, cmd: PlugCmd) -> bool {
    match cmd {
        PlugCmd::On { sn: Some(sn), index } => says(
            r,
            switch_tree(sn@, index as int, true),
            outlet(sn@, index as int) + " ON"@,
        ),
        PlugCmd::Off { sn: Some(sn), index } => says(
            r,
            switch_tree(sn@, index as int, false),
            outlet(sn@, index as int) + " OFF"@,
        ),
        PlugCmd::Timer { sub } => is_timer_report(r, sub),
        PlugCmd::Countdown { sub } => is_countdown_report(r, sub),
        PlugCmd::Led { sn: Some(sn), state: Some(state) } => match times::on_off(state@) {
            Some(on) => says(r, led_tree(sn@, on), "sn="@ + sn@ + " led "@ + state_word(on)),
            None => r is None,
        },
        PlugCmd::PowerOnRestore { sn: Some(sn), state: Some(state) } => says(
            r,
            restore_tree(sn@, state as int),
            "sn="@ + sn@ + " power-on-restore="@ + text::dec(state as nat),
        ),
        _ => r is None,
    }
}

/// What a command that changes something reports once its change went
/// through.
pub fn after_change(cmd: &PlugCmd) -> (r: Option<Report>)
    ensures
        is_report(r, *cmd),
{
    match cmd {
        PlugCmd::On { sn: Some(sn), index } => {
            let mut line = outlet_text(sn.as_str(), *index);
            line.append(" ON");
            Some(Report { json: json_plug_switch(sn.as_str(), *index, true), line })
        },
        PlugCmd::Off { sn: Some(sn), index } => {
            let mut line = outlet_text(sn.as_str(), *index);
            line.append(" OFF");
            Some(Report { json: json_plug_switch(sn.as_str(), *index, false), line })
        },
        PlugCmd::Timer { sub } => timer_report(sub),
        PlugCmd::Countdown { sub } => countdown_report(sub),
        PlugCmd::Led { sn: Some(sn), state: Some(state) } => match times::parse_on_off(
            state.as_str(),
        ) {
            Ok(on) => {
                let mut line = "sn=".to_owned();
                line.append(sn.as_str());
                line.append(" led ");
                line.append(state_text(on));
                Some(Report { json: json_led(sn.as_str(), on), line })
            },
            Err(_) => None,
        },
        PlugCmd::PowerOnRestore { sn: Some(sn), state: Some(state) } => {
            let mut line = "sn=".to_owned();
            line.append(sn.as_str());
            line.append(" power-on-restore=");
            text::push_dec(&mut line, *state as u64);
            Some(Report { json: json_power_on_restore(sn.as_str(), *state), line })
        },
        _ => None,
    }
}

// ---------------------------------------------------------------------- status

/// The line of one outlet.
pub open spec fn port_line(sn: Seq<char>, p: PlugStatus) -> Seq<char> {
    "sn="@ + sn + " index="@ + text::dec_int(p.index as int) + " status="@ + state_word(
        p.status == 1,
    )
}

/// The lines of `plug status`.
pub open spec fn status_lines_of(sn: Seq<char>, index: int, ports: Option<Seq<PlugStatus>>) -> Seq<
    Seq<char>,
> {
    match ports {
        Some(ports) => ports.map_values(|p: PlugStatus| port_line(sn, p)),
        None => seq![outlet(sn, index) + " status=<<unknown>>"@],
    }
}

/// The outlets that an answer lists.
pub open spec fn ports_of(resp: PlugStatusResp) -> Option<Seq<PlugStatus>> {
    match resp.response {
        Some(ports) => Some(ports@),
        None => None,
    }
}

/// The lines of `plug status`.
pub fn status_lines(sn: &str, index: usize, resp: &PlugStatusResp) -> (r: Vec<String>)
    ensures
        text::lines_view(r@) == status_lines_of(sn@, index as int, ports_of(*resp)),
{
    let mut lines: Vec<String> = Vec::new();
    match &resp.response {
        Some(ports) => {
            let ghost f = |p: PlugStatus| port_line(sn@, p);
            let mut i: usize = 0;
            proof {
                assert(text::lines_view(lines@) =~= ports@.take(0).map_values(f));
            }
            while i < ports.len()
                invariant
                    i <= ports@.len(),
                    f == (|p: PlugStatus| port_line(sn@, p)),
                    text::lines_view(lines@) == ports@.take(i as int).map_values(f),
                decreases ports.len() - i,
            {
                let p = &ports[i];
                let mut s = "sn=".to_owned();
                s.append(sn);
                s.append(" index=");
                text::push_dec_int(&mut s, p.index as i64);
                s.append(" status=");
                s.append(state_text(p.status == 1));
                proof {
                    assert(ports@.take(i + 1).map_values(f) =~= ports@.take(i as int).map_values(
                        f,
                    ).push(s@));
                }
                text::add_line(&mut lines, s);
                i = i + 1;
            }
            proof {
                assert(ports@.take(ports@.len() as int) =~= ports@);
            }
        },
        None => {
            let mut s = outlet_text(sn, index);
            s.append(" status=<<unknown>>");
            text::add_line(&mut lines, s);
            proof {
                assert(text::lines_view(lines@) =~= seq![
                    outlet(sn@, index as int) + " status=<<unknown>>"@,
                ]);
            }
        },
    }
    lines
}

/// The line of `plug countdown status`.
pub open spec fn countdown_line(
    sn: Seq<char>,
    index: int,
    remain: Option<u64>,
    count: Option<u64>,
    action: Option<u8>,
) -> Seq<char> {
    match remain {
        Some(n) => if n > 0 {
            outlet(sn, index) + " countdown running: remain="@ + text::dec(n as nat) + "s total="@
                + text::dec(plug_call::or_zero(count) as nat) + "s action="@ + text::dec(
                plug_call::or_byte(action, 0) as nat,
            )
        } else {
            outlet(sn, index) + " no countdown running"@
        },
        None => outlet(sn, index) + " no countdown running"@,
    }
}

/// The line of `plug countdown status`.
pub fn countdown_text(sn: &str, index: usize, resp: &CntdownResp) -> (r: String)
    ensures
        r@ == countdown_line(sn@, index as int, resp.remain, resp.count, resp.action),
{
    let mut s = outlet_text(sn, index);
    if let Some(remain) = resp.remain {
        if remain > 0 {
            s.append(" countdown running: remain=");
            text::push_dec(&mut s, remain);
            s.append("s total=");
            text::push_dec(&mut s, resp.count.unwrap_or(0));
            s.append("s action=");
            text::push_dec(&mut s, resp.action.unwrap_or(0) as u64);
            return s;
        }
    }
    s.append(" no countdown running");
    s
}

// ---------------------------------------------------------------------- timers

/// The local time at which a stored timer fires, in minutes of the day.
pub open spec fn row_time(t: PlugTimer, tz_min: int) -> int {
    schedule::local_time(schedule::signed(plug_call::or_zero(t.time)), tz_min)
}

/// The local weekdays of a stored timer.
pub open spec fn row_days(t: PlugTimer, tz_min: int) -> u8 {
    schedule::turned(
        plug_call::or_byte(t.repeat, 0),
        6 - schedule::day_shift(row_time(t, tz_min), tz_min),
    )
}

/// Whether the local time of a stored timer can be computed in 64 bits.
pub open spec fn row_fits(t: PlugTimer, tz_min: int) -> bool {
    &&& schedule::fits(schedule::signed(plug_call::or_zero(t.time)) + tz_min)
    &&& schedule::fits(row_time(t, tz_min) - tz_min)
}

/// Whether the local time of every timer can be computed in 64 bits.
pub open spec fn rows_fit(timers: Seq<PlugTimer>, tz_min: int) -> bool {
    forall|i: int| 0 <= i < timers.len() ==> #[trigger] row_fits(timers[i], tz_min)
}

/// Whether the local times of these timers can be computed: with an offset
/// of less than a day they always can for times of the day.
pub fn timers_in_range(timers: &Vec<PlugTimer>, tz_min: i64) -> (r: bool)
    ensures
        r == rows_fit(timers@, tz_min as int),
{
    let mut i: usize = 0;
    while i < timers.len()
        invariant
            i <= timers@.len(),
            forall|k: int| 0 <= k < i ==> #[trigger] row_fits(timers@[k], tz_min as int),
        decreases timers.len() - i,
    {
        let time: u64 = timers[i].time.unwrap_or(0);
        let fits = match schedule::to_signed(time).checked_add(tz_min) {
            Some(_) => {
                let local: u64 = schedule::cloud_to_local_time(time, tz_min);
                schedule::to_signed(local).checked_sub(tz_min).is_some()
            },
            None => false,
        };
        if !fits {
            proof {
                assert(!row_fits(timers@[i as int], tz_min as int));
            }
            return false;
        }
        proof {
            assert(row_fits(timers@[i as int], tz_min as int));
        }
        i = i + 1;
    }
    true
}

/// The local time and weekdays of a stored timer.
fn row(t: &PlugTimer, tz_min: i64) -> (r: (u64, u8))
    requires
        row_fits(*t, tz_min as int),
    ensures
        r.0 == row_time(*t, tz_min as int),
        r.1 == row_days(*t, tz_min as int),
{
    let time: u64 = schedule::cloud_to_local_time(t.time.unwrap_or(0), tz_min);
    let stored: u8 = t.repeat.unwrap_or(0);
    let days: u8 = schedule::cloud_to_local_mask(stored, time, tz_min);
    proof {
        schedule::turned_is(
            stored,
            days,
            6 - schedule::day_shift(schedule::signed(time), tz_min as int),
        );
    }
    (time, days)
}

/// The tree of a number that may be absent.
pub open spec fn opt_tree(n: Option<int>) -> Tree {
    match n {
        Some(n) => json::int_tree(n),
        None => Tree::Null,
    }
}

/// A byte that may be absent, as a number.
pub open spec fn opt_byte(n: Option<u8>) -> Option<int> {
    match n {
        Some(n) => Some(n as int),
        None => None,
    }
}

/// A number that may be absent, as a number.
pub open spec fn opt_word(n: Option<u64>) -> Option<int> {
    match n {
        Some(n) => Some(n as int),
        None => None,
    }
}

/// A number that may be absent.
fn opt_json(n: Option<u64>) -> (r: Json)
    ensures
        r@ == opt_tree(opt_word(n)),
{
    match n {
        Some(n) => Json::UInt(n),
        None => Json::Null,
    }
}

/// A byte that may be absent.
fn opt_byte_json(n: Option<u8>) -> (r: Json)
    ensures
        r@ == opt_tree(opt_byte(n)),
{
    match n {
        Some(n) => Json::UInt(n as u64),
        None => Json::Null,
    }
}

/// The document of one timer in the list.
pub open spec fn row_tree(t: PlugTimer, tz_min: int) -> Tree {
    Tree::Object(
        map![
            "timer_id"@ => opt_tree(opt_word(t.timer_id)),
            "time"@ => json::int_tree(row_time(t, tz_min)),
            "time_local"@ => Tree::Str(schedule::clock(row_time(t, tz_min))),
            "action"@ => opt_tree(opt_byte(t.action)),
            "repeat"@ => json::int_tree(row_days(t, tz_min) as int),
            "days"@ => Tree::Str(schedule::days_label(row_days(t, tz_min))),
            "enabled"@ => opt_tree(opt_byte(t.enabled)),
            "tz"@ => Tree::Str(times::tz_name(tz_min)),
        ],
    )
}

/// The document of one timer in the list.
fn row_json(t: &PlugTimer, tz_min: i64) -> (r: Json)
    requires
        row_fits(*t, tz_min as int),
        tz_min != i64::MIN,
    ensures
        r@ == row_tree(*t, tz_min as int),
{
    let (time, days) = row(t, tz_min);
    let mut f: Vec<(String, Json)> = Vec::new();
    json::put(&mut f, "timer_id", opt_json(t.timer_id));
    json::put(&mut f, "time", Json::UInt(time));
    json::put(&mut f, "time_local", json::json_str(schedule::clock_text(time).as_str()));
    json::put(&mut f, "action", opt_byte_json(t.action));
    json::put(&mut f, "repeat", Json::UInt(days as u64));
    json::put(&mut f, "days", json::json_str(schedule::mask_days(days).as_str()));
    json::put(&mut f, "enabled", opt_byte_json(t.enabled));
    json::put(&mut f, "tz", json::json_str(times::tz_label(tz_min).as_str()));
    Json::Object(f)
}

/// `--json` body of `plug timer list`: what the plug stores, in local time
/// with a Monday-first weekday mask.
pub fn timers_json(timers: &Vec<PlugTimer>, tz_min: i64) -> (r: Json)
    requires
        rows_fit(timers@, tz_min as int),
        tz_min != i64::MIN,
    ensures
        r@ == Tree::Array(timers@.map_values(|t: PlugTimer| row_tree(t, tz_min as int))),
{
    let mut items: Vec<Json> = Vec::new();
    let ghost f = |t: PlugTimer| row_tree(t, tz_min as int);
    let mut i: usize = 0;
    proof {
        assert(json::items_tree(items@) =~= timers@.take(0).map_values(f));
    }
    while i < timers.len()
        invariant
            i <= timers@.len(),
            rows_fit(timers@, tz_min as int),
            tz_min != i64::MIN,
            f == (|t: PlugTimer| row_tree(t, tz_min as int)),
            json::items_tree(items@) == timers@.take(i as int).map_values(f),
        decreases timers.len() - i,
    {
        proof {
            assert(row_fits(timers@[i as int], tz_min as int));
        }
        let item = row_json(&timers[i], tz_min);
        let ghost before = items@;
        items.push(item);
        proof {
            assert(items@.drop_last() =~= before);
            assert(timers@.take(i + 1).map_values(f) =~= timers@.take(i as int).map_values(f).push(
                f(timers@[i as int]),
            ));
        }
        i = i + 1;
    }
    proof {
        assert(timers@.take(timers@.len() as int) =~= timers@);
    }
    Json::Array(items)
}

/// An id, or a dash.
pub open spec fn id_word(id: Option<u64>) -> Seq<char> {
    match id {
        Some(n) => text::dec(n as nat),
        None => "-"@,
    }
}

/// An id, or a dash.
fn id_text(id: Option<u64>) -> (r: String)
    ensures
        r@ == id_word(id),
{
    match id {
        Some(n) => text::dec_text(n),
        None => "-".to_owned(),
    }
}

/// What a line says of a timer behind its id.
pub open spec fn settings(time: int, days: u8, action: int, enabled: bool, tz_min: int) -> Seq<
    char,
> {
    " time="@ + schedule::clock(time) + " days="@ + schedule::days_label(days) + " action="@
        + text::dec(action as nat) + " "@ + enabled_word(enabled) + " ("@ + times::tz_name(tz_min)
        + ")"@
}

/// What a line says of a timer behind its id.
fn settings_text(time: u64, days: u8, action: u8, enabled: bool, tz_min: i64) -> (r: String)
    requires
        tz_min != i64::MIN,
    ensures
        r@ == settings(time as int, days, action as int, enabled, tz_min as int),
{
    let mut s = " time=".to_owned();
    s.append(schedule::clock_text(time).as_str());
    s.append(" days=");
    s.append(schedule::mask_days(days).as_str());
    s.append(" action=");
    text::push_dec(&mut s, action as u64);
    s.append(" ");
    s.append(enabled_text(enabled));
    s.append(" (");
    s.append(times::tz_label(tz_min).as_str());
    s.append(")");
    s
}

/// The line of one timer in the list.
pub open spec fn row_line(sn: Seq<char>, index: int, t: PlugTimer, tz_min: int) -> Seq<char> {
    outlet(sn, index) + " timer_id="@ + id_word(t.timer_id) + settings(
        row_time(t, tz_min),
        row_days(t, tz_min),
        plug_call::or_byte(t.action, 0) as int,
        t.enabled == Some(1u8),
        tz_min,
    )
}

/// The lines of `plug timer list`.
pub open spec fn timer_lines_of(sn: Seq<char>, index: int, timers: Seq<PlugTimer>, tz_min: int) ->
    Seq<Seq<char>> {
    if timers.len() == 0 {
        seq![outlet(sn, index) + " no timers"@]
    } else {
        timers.map_values(|t: PlugTimer| row_line(sn, index, t, tz_min))
    }
}

/// The lines of `plug timer list`: what the plug stores, in local time.
pub fn timer_lines(sn: &str, index: usize, timers: &Vec<PlugTimer>, tz_min: i64) -> (r: Vec<String>)
    requires
        rows_fit(timers@, tz_min as int),
        tz_min != i64::MIN,
    ensures
        text::lines_view(r@) == timer_lines_of(sn@, index as int, timers@, tz_min as int),
{
    let mut lines: Vec<String> = Vec::new();
    if timers.len() == 0 {
        let mut s = outlet_text(sn, index);
        s.append(" no timers");
        text::add_line(&mut lines, s);
        proof {
            assert(text::lines_view(lines@) =~= seq![outlet(sn@, index as int) + " no timers"@]);
        }
        return lines;
    }
    let ghost f = |t: PlugTimer| row_line(sn@, index as int, t, tz_min as int);
    let mut i: usize = 0;
    proof {
        assert(text::lines_view(lines@) =~= timers@.take(0).map_values(f));
    }
    while i < timers.len()
        invariant
            i <= timers@.len(),
            rows_fit(timers@, tz_min as int),
            tz_min != i64::MIN,
            f == (|t: PlugTimer| row_line(sn@, index as int, t, tz_min as int)),
            text::lines_view(lines@) == timers@.take(i as int).map_values(f),
        decreases timers.len() - i,
    {
        proof {
            assert(row_fits(timers@[i as int], tz_min as int));
        }
        let t = &timers[i];
        let (time, days) = row(t, tz_min);
        let enabled = match t.enabled {
            Some(e) => e == 1,
            None => false,
        };
        let mut s = outlet_text(sn, index);
        s.append(" timer_id=");
        s.append(id_text(t.timer_id).as_str());
        s.append(settings_text(time, days, t.action.unwrap_or(0), enabled, tz_min).as_str());
        proof {
            assert(timers@.take(i + 1).map_values(f) =~= timers@.take(i as int).map_values(f).push(
                s@,
            ));
        }
        text::add_line(&mut lines, s);
        i = i + 1;
    }
    proof {
        assert(timers@.take(timers@.len() as int) =~= timers@);
    }
    lines
}

/// The line of a timer that was added.
pub open spec fn added_line(
    sn: Seq<char>,
    index: int,
    id: Option<u64>,
    time: int,
    repeat: u8,
    action: int,
    disabled: bool,
    tz_min: int,
) -> Seq<char> {
    outlet(sn, index) + " timer added: id="@ + id_word(id) + settings(
        time,
        repeat,
        action,
        !disabled,
        tz_min,
    )
}

/// The line of a timer that was added: what was asked for, and the id that
/// the plug gave it.
pub fn added_text(
    sn: &str,
    index: usize,
    id: Option<u64>,
    time: u64,
    repeat: u8,
    action: u8,
    disabled: bool,
    tz_min: i64,
) -> (r: String)
    requires
        tz_min != i64::MIN,
    ensures
        r@ == added_line(
            sn@,
            index as int,
            id,
            time as int,
            repeat,
            action as int,
            disabled,
            tz_min as int,
        ),
{
    let mut s = outlet_text(sn, index);
    s.append(" timer added: id=");
    s.append(id_text(id).as_str());
    s.append(settings_text(time, repeat, action, !disabled, tz_min).as_str());
    s
}

// ---------------------------------------------------------------------- laws

/// A timer is listed as it was asked for: the plug stores it in UTC, and the
/// list in the same timezone shows the local time and the weekdays again,
/// with the action that was asked for, and enabled exactly where it was not
/// asked for disabled.
pub proof fn added_timers_are_listed_as_asked(
    time: int,
    action: u8,
    repeat: u8,
    disabled: bool,
    tz_min: int,
)
    requires
        0 <= time < 1440,
    ensures
        ({
            let t = plug_call::stored_timer(time, action, repeat, disabled, tz_min);
            &&& row_time(t, tz_min) == time
            &&& row_days(t, tz_min) == repeat & 0x7f
            &&& t.action == Some(action)
            &&& t.enabled == Some(1u8) <==> !disabled
            &&& t.enabled == Some(0u8) <==> disabled
            &&& json::member(row_tree(t, tz_min), "action"@) == Some(json::int_tree(action as int))
            &&& json::member(row_tree(t, tz_min), "enabled"@) == Some(
                json::int_tree(
                    if disabled {
                        0
                    } else {
                        1
                    },
                ),
            )
        }),
{
    let t = plug_call::stored_timer(time, action, repeat, disabled, tz_min);
    schedule::time_round_trip(time, tz_min);
    let there = 1 + schedule::day_shift(time, tz_min);
    let again = 6 - schedule::day_shift(time, tz_min);
    schedule::turned_turns(repeat, there);
    let cloud = schedule::turned(repeat, there);
    schedule::turned_turns(cloud, again);
    schedule::repeat_round_trip(repeat, cloud, schedule::turned(cloud, again), time, tz_min);
    listed_timers_show_their_settings(t, tz_min);
}

/// Every command that changes something reports its success in one way: the
/// document holds `ok`, and it is true.
pub proof fn changes_report_ok(r: Option<Report>, cmd: PlugCmd)
    requires
        is_report(r, cmd),
        r is Some,
    ensures
        json::member(r->Some_0.json@, "ok"@) == Some(Tree::Bool(true)),
{
    reveal_strlit("ok");
    reveal_strlit("sn");
    reveal_strlit("index");
    reveal_strlit("status");
    reveal_strlit("led");
    reveal_strlit("state");
    reveal_strlit("count");
    reveal_strlit("action");
    reveal_strlit("timer_id");
    reveal_strlit("enabled");
    assert("ok"@[0] == 'o' && "sn"@[0] == 's' && "ok"@ != "sn"@);
    assert("ok"@.len() == 2 && "index"@.len() == 5 && "ok"@ != "index"@);
    assert("status"@.len() == 6 && "ok"@ != "status"@);
    assert("led"@.len() == 3 && "ok"@ != "led"@);
    assert("state"@.len() == 5 && "ok"@ != "state"@);
    assert("count"@.len() == 5 && "ok"@ != "count"@);
    assert("action"@.len() == 6 && "ok"@ != "action"@);
    assert("timer_id"@.len() == 8 && "ok"@ != "timer_id"@);
    assert("enabled"@.len() == 7 && "ok"@ != "enabled"@);
}

/// A listed timer is shown with everything that it has, each under its own
/// name, at its local time, on its local weekdays, and in the timezone that
/// these are local to.
pub proof fn listed_timers_show_their_settings(t: PlugTimer, tz_min: int)
    ensures
        t.timer_id matches Some(id) ==> json::member(row_tree(t, tz_min), "timer_id"@) == Some(
            json::int_tree(id as int),
        ),
        t.action matches Some(a) ==> json::member(row_tree(t, tz_min), "action"@) == Some(
            json::int_tree(a as int),
        ),
        t.enabled matches Some(e) ==> json::member(row_tree(t, tz_min), "enabled"@) == Some(
            json::int_tree(e as int),
        ),
        t.timer_id is None ==> json::member(row_tree(t, tz_min), "timer_id"@) == Some(Tree::Null),
        t.action is None ==> json::member(row_tree(t, tz_min), "action"@) == Some(Tree::Null),
        t.enabled is None ==> json::member(row_tree(t, tz_min), "enabled"@) == Some(Tree::Null),
        json::member(row_tree(t, tz_min), "time"@) == Some(json::int_tree(row_time(t, tz_min))),
        json::member(row_tree(t, tz_min), "time_local"@) == Some(
            Tree::Str(schedule::clock(row_time(t, tz_min))),
        ),
        json::member(row_tree(t, tz_min), "repeat"@) == Some(
            json::int_tree(row_days(t, tz_min) as int),
        ),
        json::member(row_tree(t, tz_min), "days"@) == Some(
            Tree::Str(schedule::days_label(row_days(t, tz_min))),
        ),
        json::member(row_tree(t, tz_min), "tz"@) == Some(Tree::Str(times::tz_name(tz_min))),
{
    reveal_strlit("timer_id");
    reveal_strlit("time");
    reveal_strlit("time_local");
    reveal_strlit("action");
    reveal_strlit("repeat");
    reveal_strlit("days");
    reveal_strlit("enabled");
    reveal_strlit("tz");
    assert("timer_id"@.len() == 8 && "time"@.len() == 4 && "time_local"@.len() == 10
        && "action"@.len() == 6 && "repeat"@.len() == 6 && "days"@.len() == 4
        && "enabled"@.len() == 7 && "tz"@.len() == 2);
    assert("time"@[0] == 't' && "days"@[0] == 'd' && "action"@[0] == 'a' && "repeat"@[0] == 'r');
}

/// What a line says of a timer, in words.
proof fn settings_in_words(time: int, days: u8, action: int, enabled: bool, tz_min: int)
    ensures
        settings(time, days, action, enabled, tz_min) == " time="@ + schedule::clock(time)
            + " days="@ + schedule::days_label(days) + " action="@ + text::dec(action as nat) + (
        if enabled {
            " enabled ("@
        } else {
            " disabled ("@
        }) + times::tz_name(tz_min) + ")"@,
{
    reveal_strlit(" ");
    reveal_strlit(" (");
    reveal_strlit("enabled");
    reveal_strlit("disabled");
    reveal_strlit(" enabled (");
    reveal_strlit(" disabled (");
    assert(" enabled ("@ =~= " "@ + "enabled"@ + " ("@);
    assert(" disabled ("@ =~= " "@ + "disabled"@ + " ("@);
    let start = " time="@ + schedule::clock(time) + " days="@ + schedule::days_label(days)
        + " action="@ + text::dec(action as nat);
    if enabled {
        assert(settings(time, days, action, enabled, tz_min) =~= start + " enabled ("@
            + times::tz_name(tz_min) + ")"@);
    } else {
        assert(settings(time, days, action, enabled, tz_min) =~= start + " disabled ("@
            + times::tz_name(tz_min) + ")"@);
    }
}

/// What is said when a timer is added is what the list says of it from then
/// on: both name the device, the port and the id, and then the time, the
/// weekdays, the action and the state that were asked for.
#[verifier::rlimit(40)]
pub proof fn added_timers_are_shown_as_listed(
    sn: Seq<char>,
    index: int,
    id: u64,
    time: int,
    action: u8,
    repeat: u8,
    disabled: bool,
    tz_min: int,
)
    requires
        0 <= time < 1440,
        repeat <= 0x7f,
    ensures
        ({
            let t = plug_call::stored_timer(time, action, repeat, disabled, tz_min);
            let listed = PlugTimer {
                timer_id: Some(id),
                time: t.time,
                action: t.action,
                repeat: t.repeat,
                enabled: t.enabled,
            };
            let shown = " time="@ + schedule::clock(time) + " days="@ + schedule::days_label(repeat)
                + " action="@ + text::dec(action as nat) + (if disabled {
                " disabled ("@
            } else {
                " enabled ("@
            }) + times::tz_name(tz_min) + ")"@;
            &&& row_line(sn, index, listed, tz_min) == "sn="@ + sn + " index="@ + text::dec(
                index as nat,
            ) + " timer_id="@ + text::dec(id as nat) + shown
            &&& added_line(sn, index, Some(id), time, repeat, action as int, disabled, tz_min)
                == "sn="@ + sn + " index="@ + text::dec(index as nat) + " timer added: id="@
                + text::dec(id as nat) + shown
        }),
{
    added_timers_are_listed_as_asked(time, action, repeat, disabled, tz_min);
    settings_in_words(time, repeat, action as int, !disabled, tz_min);
    assert(repeat & 0x7f == repeat) by (bit_vector)
        requires
            repeat <= 0x7f,
    ;
    let t = plug_call::stored_timer(time, action, repeat, disabled, tz_min);
    let listed = PlugTimer {
        timer_id: Some(id),
        time: t.time,
        action: t.action,
        repeat: t.repeat,
        enabled: t.enabled,
    };
    assert(row_time(listed, tz_min) == row_time(t, tz_min));
    assert(row_days(listed, tz_min) == row_days(t, tz_min));
}

/// The state that the report names is the state that was sent: `plug on` sends
/// 1 and says on, and `plug off` sends 0 and says off, of the device and the
/// port that were named.
pub proof fn switches_report_what_was_sent(r: Option<Report>, cmd: PlugCmd, sn: String, index: usize)
    requires
        cmd == (PlugCmd::On { sn: Some(sn), index }) || cmd == (PlugCmd::Off {
            sn: Some(sn),
            index,
        }),
        is_report(r, cmd),
    ensures
        r is Some,
        json::member(r->Some_0.json@, "sn"@) == Some(Tree::Str(sn@)),
        json::member(r->Some_0.json@, "index"@) == Some(json::int_tree(index as int)),
        cmd is On ==> {
            &&& json::member(r->Some_0.json@, "status"@) == Some(Tree::Str("on"@))
            &&& r->Some_0.line@ == "sn="@ + sn@ + " index="@ + text::dec(index as nat) + " ON"@
        },
        cmd is Off ==> {
            &&& json::member(r->Some_0.json@, "status"@) == Some(Tree::Str("off"@))
            &&& r->Some_0.line@ == "sn="@ + sn@ + " index="@ + text::dec(index as nat) + " OFF"@
        },
        plug_call::first_step(cmd) matches Ok(PlugStep::Ask(ask)) && {
            &&& json::member(r->Some_0.json@, "status"@) == Some(Tree::Str("on"@))
                <==> url::carries(plug_call::params_of(sn@, ask), "status"@, "1"@)
            &&& json::member(r->Some_0.json@, "status"@) == Some(Tree::Str("off"@))
                <==> url::carries(plug_call::params_of(sn@, ask), "status"@, "0"@)
        },
{
    reveal_strlit("ok");
    reveal_strlit("sn");
    reveal_strlit("index");
    reveal_strlit("status");
    assert("ok"@.len() == 2 && "sn"@.len() == 2 && "index"@.len() == 5 && "status"@.len() == 6);
    assert("ok"@[0] == 'o' && "sn"@[0] == 's');
    reveal_strlit("on");
    reveal_strlit("off");
    reveal_strlit("1");
    reveal_strlit("0");
    assert("on"@.len() != "off"@.len());
    assert("1"@[0] != "0"@[0]);
    plug_call::switches_send_the_named_state(sn, index);
    let ask = plug_call::first_step(cmd)->Ok_0->Ask_0;
    let p = plug_call::params_of(sn@, ask);
    if cmd is On {
        let k = choose|k: int| 0 <= k < p.len() && p[k] == ("status"@, "1"@);
        assert(p[k].0 == "status"@);
    } else {
        let k = choose|k: int| 0 <= k < p.len() && p[k] == ("status"@, "0"@);
        assert(p[k].0 == "status"@);
    }
}

/// The report on the LED names the state that the word names.
pub proof fn leds_report_the_named_state(r: Option<Report>, sn: String, word: String, on: bool)
    requires
        times::on_off(word@) == Some(on),
        is_report(r, PlugCmd::Led { sn: Some(sn), state: Some(word) }),
    ensures
        r is Some,
        json::member(r->Some_0.json@, "sn"@) == Some(Tree::Str(sn@)),
        on ==> json::member(r->Some_0.json@, "led"@) == Some(Tree::Str("on"@))
            && r->Some_0.line@ == "sn="@ + sn@ + " led ON"@,
        !on ==> json::member(r->Some_0.json@, "led"@) == Some(Tree::Str("off"@))
            && r->Some_0.line@ == "sn="@ + sn@ + " led OFF"@,
{
    reveal_strlit("ok");
    reveal_strlit("sn");
    reveal_strlit("led");
    assert("ok"@.len() == 2 && "sn"@.len() == 2 && "led"@.len() == 3);
    assert("ok"@[0] == 'o' && "sn"@[0] == 's');
    reveal_strlit(" led ");
    reveal_strlit("ON");
    reveal_strlit("OFF");
    reveal_strlit(" led ON");
    reveal_strlit(" led OFF");
    assert(" led ON"@ =~= " led "@ + "ON"@);
    assert(" led OFF"@ =~= " led "@ + "OFF"@);
    if on {
        assert(r->Some_0.line@ =~= "sn="@ + sn@ + " led ON"@);
    } else {
        assert(r->Some_0.line@ =~= "sn="@ + sn@ + " led OFF"@);
    }
}

/// The report on the state after a power loss names the state that was sent.
pub proof fn restores_report_what_was_sent(r: Option<Report>, sn: String, state: u32)
    requires
        is_report(r, PlugCmd::PowerOnRestore { sn: Some(sn), state: Some(state) }),
    ensures
        r is Some,
        json::member(r->Some_0.json@, "sn"@) == Some(Tree::Str(sn@)),
        json::member(r->Some_0.json@, "state"@) == Some(json::int_tree(state as int)),
        r->Some_0.line@ == "sn="@ + sn@ + " power-on-restore="@ + text::dec(state as nat),
{
    reveal_strlit("ok");
    reveal_strlit("sn");
    reveal_strlit("state");
    assert("ok"@.len() == 2 && "sn"@.len() == 2 && "state"@.len() == 5);
    assert("ok"@[0] == 'o' && "sn"@[0] == 's');
}

/// The report on a countdown names what was started, or that it was stopped,
/// and where; a countdown whose action is 1 ends with the outlet on.
pub proof fn countdowns_report_what_was_sent(
    r: Option<Report>,
    stopped: Option<Report>,
    sn: String,
    index: usize,
    count: u64,
    action: u8,
)
    requires
        is_report(
            r,
            PlugCmd::Countdown {
                sub: CountdownCmd::Start { sn: Some(sn), index, count: Some(count), action },
            },
        ),
        is_report(
            stopped,
            PlugCmd::Countdown { sub: CountdownCmd::Stop { sn: Some(sn), index } },
        ),
    ensures
        r is Some,
        json::member(r->Some_0.json@, "sn"@) == Some(Tree::Str(sn@)),
        json::member(r->Some_0.json@, "index"@) == Some(json::int_tree(index as int)),
        json::member(r->Some_0.json@, "count"@) == Some(json::int_tree(count as int)),
        json::member(r->Some_0.json@, "action"@) == Some(json::int_tree(action as int)),
        r->Some_0.line@ == "sn="@ + sn@ + " index="@ + text::dec(index as nat)
            + " countdown started: "@ + text::dec(count as nat) + (if action == 1 {
            "s -> ON"@
        } else {
            "s -> OFF"@
        }),
        stopped is Some,
        json::member(stopped->Some_0.json@, "sn"@) == Some(Tree::Str(sn@)),
        json::member(stopped->Some_0.json@, "index"@) == Some(json::int_tree(index as int)),
        stopped->Some_0.line@ == "sn="@ + sn@ + " index="@ + text::dec(index as nat)
            + " countdown stopped"@,
{
    reveal_strlit("ok");
    reveal_strlit("sn");
    reveal_strlit("index");
    reveal_strlit("count");
    reveal_strlit("action");
    assert("ok"@.len() == 2 && "sn"@.len() == 2 && "index"@.len() == 5 && "count"@.len() == 5
        && "action"@.len() == 6);
    assert("ok"@[0] == 'o' && "sn"@[0] == 's' && "index"@[0] == 'i' && "count"@[0] == 'c');
    reveal_strlit("s -> ");
    reveal_strlit("ON");
    reveal_strlit("OFF");
    reveal_strlit("s -> ON");
    reveal_strlit("s -> OFF");
    assert("s -> ON"@ =~= "s -> "@ + "ON"@);
    assert("s -> OFF"@ =~= "s -> "@ + "OFF"@);
    let start = "sn="@ + sn@ + " index="@ + text::dec(index as nat) + " countdown started: "@
        + text::dec(count as nat);
    if action == 1 {
        assert(r->Some_0.line@ =~= start + "s -> ON"@);
    } else {
        assert(r->Some_0.line@ =~= start + "s -> OFF"@);
    }
}

/// The report on a timer names the timer, where it is, and what became of it:
/// that it was removed, or whether it is enabled now, which is what was sent.
#[verifier::rlimit(40)]
pub proof fn timers_report_what_was_sent(r: Option<Report>, cmd: TimerCmd, sn: String, id: u64, index: usize)
    requires
        cmd == (TimerCmd::Remove { sn: Some(sn), id: Some(id), index }) || cmd == (
        TimerCmd::Enable { sn: Some(sn), id: Some(id), index }) || cmd == (TimerCmd::Disable {
            sn: Some(sn),
            id: Some(id),
            index,
        }),
        is_report(r, PlugCmd::Timer { sub: cmd }),
    ensures
        r is Some,
        json::member(r->Some_0.json@, "sn"@) == Some(Tree::Str(sn@)),
        json::member(r->Some_0.json@, "index"@) == Some(json::int_tree(index as int)),
        json::member(r->Some_0.json@, "timer_id"@) == Some(json::int_tree(id as int)),
        plug_call::timer_change(cmd) is Some,
        match plug_call::timer_change(cmd)->Some_0.2 {
            None => cmd is Remove && json::member(r->Some_0.json@, "enabled"@) is None,
            Some(enabled) => (cmd is Enable <==> enabled) && json::member(
                r->Some_0.json@,
                "enabled"@,
            ) == Some(Tree::Bool(enabled)),
        },
        r->Some_0.line@ == "sn="@ + sn@ + " index="@ + text::dec(index as nat) + " timer "@
            + text::dec(id as nat) + (match cmd {
            TimerCmd::Remove { .. } => " removed"@,
            TimerCmd::Enable { .. } => " enabled"@,
            _ => " disabled"@,
        }),
{
    reveal_strlit("ok");
    reveal_strlit("sn");
    reveal_strlit("index");
    reveal_strlit("timer_id");
    reveal_strlit("enabled");
    assert("ok"@.len() == 2 && "sn"@.len() == 2 && "index"@.len() == 5 && "timer_id"@.len() == 8
        && "enabled"@.len() == 7);
    assert("ok"@[0] == 'o' && "sn"@[0] == 's');
    reveal_strlit(" ");
    reveal_strlit("removed");
    reveal_strlit("disabled");
    reveal_strlit(" removed");
    reveal_strlit(" enabled");
    reveal_strlit(" disabled");
    assert(" removed"@ =~= " "@ + "removed"@);
    assert(" enabled"@ =~= " "@ + "enabled"@);
    assert(" disabled"@ =~= " "@ + "disabled"@);
    let start = "sn="@ + sn@ + " index="@ + text::dec(index as nat) + " timer "@ + text::dec(
        id as nat,
    );
    match cmd {
        TimerCmd::Remove { .. } => {
            assert(r->Some_0.line@ =~= start + " removed"@);
        },
        TimerCmd::Enable { .. } => {
            assert(r->Some_0.line@ =~= start + " enabled"@);
        },
        _ => {
            assert(r->Some_0.line@ =~= start + " disabled"@);
        },
    }
}

/// The state of an outlet is shown as the plug reported it: `ON` exactly where
/// its status is 1. There is a line for each outlet, in their order, and a
/// notice where the plug listed none.
pub proof fn outlets_are_shown_as_reported(
    sn: Seq<char>,
    index: int,
    ports: Seq<PlugStatus>,
    at: int,
)
    requires
        0 <= at < ports.len(),
    ensures
        status_lines_of(sn, index, Some(ports)).len() == ports.len(),
        ports[at].status == 1 ==> status_lines_of(sn, index, Some(ports))[at] == "sn="@ + sn
            + " index="@ + text::dec_int(ports[at].index as int) + " status=ON"@,
        ports[at].status != 1 ==> status_lines_of(sn, index, Some(ports))[at] == "sn="@ + sn
            + " index="@ + text::dec_int(ports[at].index as int) + " status=OFF"@,
        status_lines_of(sn, index, None) == seq![
            "sn="@ + sn + " index="@ + text::dec(index as nat) + " status=<<unknown>>"@,
        ],
{
    reveal_strlit(" status=");
    reveal_strlit("ON");
    reveal_strlit("OFF");
    reveal_strlit(" status=ON");
    reveal_strlit(" status=OFF");
    assert(" status=ON"@ =~= " status="@ + "ON"@);
    assert(" status=OFF"@ =~= " status="@ + "OFF"@);
    let start = "sn="@ + sn + " index="@ + text::dec_int(ports[at].index as int);
    if ports[at].status == 1 {
        assert(port_line(sn, ports[at]) =~= start + " status=ON"@);
    } else {
        assert(port_line(sn, ports[at]) =~= start + " status=OFF"@);
    }
}

/// A countdown is shown as running exactly where time remains, with what
/// remains, how long it was and what it does at its end.
pub proof fn countdowns_are_shown_while_they_run(
    sn: Seq<char>,
    index: int,
    remain: u64,
    count: u64,
    action: u8,
)
    ensures
        remain > 0 ==> countdown_line(sn, index, Some(remain), Some(count), Some(action)) == "sn="@
            + sn + " index="@ + text::dec(index as nat) + " countdown running: remain="@
            + text::dec(remain as nat) + "s total="@ + text::dec(count as nat) + "s action="@
            + text::dec(action as nat),
        countdown_line(sn, index, Some(0), Some(count), Some(action)) == "sn="@ + sn + " index="@
            + text::dec(index as nat) + " no countdown running"@,
        countdown_line(sn, index, None, Some(count), Some(action)) == "sn="@ + sn + " index="@
            + text::dec(index as nat) + " no countdown running"@,
{
}

/// There is a line for each timer, in their order, and a notice where there is
/// none.
pub proof fn every_timer_is_listed(
    sn: Seq<char>,
    index: int,
    timers: Seq<PlugTimer>,
    tz_min: int,
    at: int,
)
    requires
        0 <= at < timers.len(),
    ensures
        timer_lines_of(sn, index, timers, tz_min).len() == timers.len(),
        timer_lines_of(sn, index, timers, tz_min)[at] == row_line(sn, index, timers[at], tz_min),
        timer_lines_of(sn, index, Seq::empty(), tz_min) == seq![
            "sn="@ + sn + " index="@ + text::dec(index as nat) + " no timers"@,
        ],
{
}

/// Timers that fire at a time of the day can be listed in every timezone.
pub proof fn ordinary_timers_can_be_listed(timers: Seq<PlugTimer>, tz_min: int)
    requires
        -1440 < tz_min < 1440,
        forall|i: int|
            0 <= i < timers.len() ==> ((#[trigger] timers[i]).time matches Some(t) ==> t < 1440),
    ensures
        rows_fit(timers, tz_min),
{
}

/// What a plug did not report is shown as such: a timer without an id has a
/// dash in its place, one without an action or a state counts as off and
/// disabled, and a countdown without a length or an action shows zeros.
pub proof fn unreported_parts_are_shown_as_such(
    sn: Seq<char>,
    index: int,
    t: PlugTimer,
    tz_min: int,
    remain: u64,
)
    requires
        t.timer_id is None,
        t.action is None,
        t.enabled is None,
        remain > 0,
    ensures
        row_line(sn, index, t, tz_min) == "sn="@ + sn + " index="@ + text::dec(index as nat)
            + " timer_id="@ + "-"@ + (" time="@ + schedule::clock(row_time(t, tz_min)) + " days="@
            + schedule::days_label(row_days(t, tz_min)) + " action="@ + text::dec(0)
            + " disabled ("@ + times::tz_name(tz_min) + ")"@),
        countdown_line(sn, index, Some(remain), None, None) == "sn="@ + sn + " index="@ + text::dec(
            index as nat,
        ) + " countdown running: remain="@ + text::dec(remain as nat) + "s total="@ + text::dec(0)
            + "s action="@ + text::dec(0),
{
    settings_in_words(row_time(t, tz_min), row_days(t, tz_min), 0, false, tz_min);
}

} // verus!
