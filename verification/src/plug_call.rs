//! The API calls of the `wakeup plug` commands.

use crate::error;
use crate::json;
use crate::plug;
use crate::plug::{PlugApi, PlugTimer};
use crate::plug_cmd;
use crate::plug_cmd::{CountdownCmd, PlugCmd, TimerCmd};
use crate::prompt;
use crate::schedule;
use crate::text;
use crate::times;
use crate::trace::Request;
use crate::url;
use vstd::prelude::*;
use vstd::string::*;

verus! {

/// What a plug is asked for.
#[derive(Debug, Clone, Copy, PartialEq, Eq, Structural)]
pub enum PlugAsk {
    /// The state of an outlet.
    Status { index: usize },
    /// To switch an outlet.
    Switch { index: usize, on: bool },
    /// To switch its LED.
    Led { on: bool },
    /// To be in this state after a power loss.
    Restore { state: u32 },
    /// The timers of an outlet.
    Timers { index: usize },
    /// To add a timer.
    AddTimer { index: usize, timer: PlugTimer },
    /// To set a timer.
    SetTimer { index: usize, id: u64, enabled: bool, action: u8, repeat: u8, time: u64 },
    /// To delete a timer.
    DeleteTimer { index: usize, id: u64, repeat: u8, time: u64 },
    /// The countdown of an outlet.
    Countdown { index: usize },
    /// To start a countdown.
    StartCountdown { index: usize, action: u8, count: u64 },
    /// To stop a countdown.
    StopCountdown { index: usize },
    /// A page of the status log.
    Logs { page: u32 },
}

/// The parameters of a request, next to the serial number.
pub open spec fn params_of(sn: Seq<char>, ask: PlugAsk) -> Seq<(Seq<char>, Seq<char>)> {
    match ask {
        PlugAsk::Status { index } => seq![
            ("sn"@, sn),
            ("_api"@, "get_plug_status"@),
            ("index"@, text::dec(index as nat)),
        ],
        PlugAsk::Switch { index, on } => seq![
            ("sn"@, sn),
            ("index"@, text::dec(index as nat)),
            ("status"@, plug::flag(on)),
            ("_api"@, "set_plug_status"@),
        ],
        PlugAsk::Led { on } => seq![
            ("sn"@, sn),
            ("_api"@, "set_plug_led"@),
            ("enabled"@, plug::flag(on)),
        ],
        PlugAsk::Restore { state } => seq![
            ("sn"@, sn),
            ("_api"@, "set_plug_dfltstat"@),
            ("default"@, text::dec(state as nat)),
        ],
        PlugAsk::Timers { index } => seq![
            ("sn"@, sn),
            ("_api"@, "plug_timer_get"@),
            ("index"@, text::dec(index as nat)),
        ],
        PlugAsk::AddTimer { index, timer } => seq![
            ("sn"@, sn),
            ("_api"@, "plug_timer_add"@),
            ("index"@, text::dec(index as nat)),
            ("timer"@, json::json_compact(plug::timer_tree(timer))),
        ],
        PlugAsk::SetTimer { index, id, enabled, action, repeat, time } => seq![
            ("sn"@, sn),
            ("timer_id"@, text::dec(id as nat)),
            ("enabled"@, plug::flag(enabled)),
            ("action"@, text::dec(action as nat)),
            ("repeat"@, text::dec(repeat as nat)),
            ("index"@, text::dec(index as nat)),
            ("timer"@, text::dec(time as nat)),
            ("_api"@, "plug_timer_set"@),
        ],
        PlugAsk::DeleteTimer { index, id, repeat, time } => seq![
            ("sn"@, sn),
            ("timer_id"@, text::dec(id as nat)),
            ("repeat"@, text::dec(repeat as nat)),
            ("index"@, text::dec(index as nat)),
            ("timer"@, text::dec(time as nat)),
            ("_api"@, "plug_timer_del"@),
        ],
        PlugAsk::Countdown { index } => seq![
            ("sn"@, sn),
            ("_api"@, "plug_cntdown_get"@),
            ("index"@, text::dec(index as nat)),
        ],
        PlugAsk::StartCountdown { index, action, count } => seq![
            ("sn"@, sn),
            ("_api"@, "plug_cntdown_add"@),
            ("action"@, text::dec(action as nat)),
            ("count"@, text::dec(count as nat)),
            ("index"@, text::dec(index as nat)),
        ],
        PlugAsk::StopCountdown { index } => seq![
            ("sn"@, sn),
            ("_api"@, "plug_cntdown_del"@),
            ("index"@, text::dec(index as nat)),
        ],
        PlugAsk::Logs { page } => seq![
            ("sn"@, sn),
            ("page"@, text::dec(page as nat)),
            ("_format"@, "json"@),
        ],
    }
}

/// Whether `r` is the request of a call, or the error of a bad base.
pub open spec fn is_request(
    r: error::Result<Request>,
    slapi_base: Seq<char>,
    token: Seq<char>,
    sn: Seq<char>,
    ask: PlugAsk,
) -> bool {
    if ask is Logs {
        r matches Ok(req) && req@ == plug::form_request(
            slapi_base + "/smart-plug/get-status-logs"@,
            token,
            params_of(sn, ask),
        )
    } else {
        plug::is_plug_request(r, slapi_base, token, params_of(sn, ask))
    }
}

/// The endpoint of a call, as messages name it.
pub open spec fn endpoint_of(ask: PlugAsk) -> Seq<char> {
    match ask {
        PlugAsk::Status { .. } => "get_plug_status"@,
        PlugAsk::Switch { .. } => "set_plug_status"@,
        PlugAsk::Led { .. } => "set_plug_led"@,
        PlugAsk::Restore { .. } => "set_plug_dfltstat"@,
        PlugAsk::Timers { .. } => "plug_timer_get"@,
        PlugAsk::AddTimer { .. } => "plug_timer_add"@,
        PlugAsk::SetTimer { .. } => "plug_timer_set"@,
        PlugAsk::DeleteTimer { .. } => "plug_timer_del"@,
        PlugAsk::Countdown { .. } => "plug_cntdown_get"@,
        PlugAsk::StartCountdown { .. } => "plug_cntdown_add"@,
        PlugAsk::StopCountdown { .. } => "plug_cntdown_del"@,
        PlugAsk::Logs { .. } => "get-status-logs"@,
    }
}

impl PlugAsk {
    /// The request of a call on the state of a plug.
    fn switch_request(&self, api: &PlugApi, token: &str, sn: &str) -> (r: error::Result<Request>)
        requires
            self is Status || self is Switch || self is Led || self is Restore,
        ensures
            plug::is_plug_request(r, api.slapi_base@, token@, params_of(sn@, *self)),
    {
        match *self {
            PlugAsk::Status { index } => api.get_status(token, sn, index),
            PlugAsk::Switch { index, on } => api.set_status(token, sn, index, on),
            PlugAsk::Led { on } => api.set_led(token, sn, on),
            PlugAsk::Restore { state } => api.set_dfltstat(token, sn, state),
            _ => api.get_status(token, sn, 0),
        }
    }

    /// The request of a call on timers.
    fn timer_request(&self, api: &PlugApi, token: &str, sn: &str) -> (r: error::Result<Request>)
        requires
            self is Timers || self is AddTimer || self is SetTimer || self is DeleteTimer,
        ensures
            plug::is_plug_request(r, api.slapi_base@, token@, params_of(sn@, *self)),
    {
        match *self {
            PlugAsk::Timers { index } => api.timer_list(token, sn, index),
            PlugAsk::AddTimer { index, timer } => api.timer_add(token, sn, index, &timer),
            PlugAsk::SetTimer { index, id, enabled, action, repeat, time } => api.timer_set(
                token,
                sn,
                index,
                id,
                enabled,
                action,
                repeat,
                time,
            ),
            PlugAsk::DeleteTimer { index, id, repeat, time } => api.timer_del(
                token,
                sn,
                index,
                id,
                repeat,
                time,
            ),
            _ => api.timer_list(token, sn, 0),
        }
    }

    /// The request of a call on countdowns.
    fn countdown_request(&self, api: &PlugApi, token: &str, sn: &str) -> (r: error::Result<Request>)
        requires
            self is Countdown || self is StartCountdown || self is StopCountdown,
        ensures
            plug::is_plug_request(r, api.slapi_base@, token@, params_of(sn@, *self)),
    {
        match *self {
            PlugAsk::Countdown { index } => api.cntdown_get(token, sn, index),
            PlugAsk::StartCountdown { index, action, count } => api.cntdown_start(
                token,
                sn,
                index,
                action,
                count,
            ),
            PlugAsk::StopCountdown { index } => api.cntdown_stop(token, sn, index),
            _ => api.cntdown_get(token, sn, 0),
        }
    }

    /// The request of a call.
    pub fn request(&self, api: &PlugApi, token: &str, sn: &str) -> (r: error::Result<Request>)
        ensures
            is_request(r, api.slapi_base@, token@, sn@, *self),
    {
        match *self {
            PlugAsk::Timers { .. } => self.timer_request(api, token, sn),
            PlugAsk::AddTimer { .. } => self.timer_request(api, token, sn),
            PlugAsk::SetTimer { .. } => self.timer_request(api, token, sn),
            PlugAsk::DeleteTimer { .. } => self.timer_request(api, token, sn),
            PlugAsk::Countdown { .. } => self.countdown_request(api, token, sn),
            PlugAsk::StartCountdown { .. } => self.countdown_request(api, token, sn),
            PlugAsk::StopCountdown { .. } => self.countdown_request(api, token, sn),
            PlugAsk::Status { .. } => self.switch_request(api, token, sn),
            PlugAsk::Switch { .. } => self.switch_request(api, token, sn),
            PlugAsk::Led { .. } => self.switch_request(api, token, sn),
            PlugAsk::Restore { .. } => self.switch_request(api, token, sn),
            PlugAsk::Logs { page } => Ok(api.status_logs(token, sn, page)),
        }
    }

    /// The endpoint of a call, as messages name it.
    pub fn endpoint(&self) -> (r: &'static str)
        ensures
            r@ == endpoint_of(*self),
    {
        match self {
            PlugAsk::Status { .. } => "get_plug_status",
            PlugAsk::Switch { .. } => "set_plug_status",
            PlugAsk::Led { .. } => "set_plug_led",
            PlugAsk::Restore { .. } => "set_plug_dfltstat",
            PlugAsk::Timers { .. } => "plug_timer_get",
            PlugAsk::AddTimer { .. } => "plug_timer_add",
            PlugAsk::SetTimer { .. } => "plug_timer_set",
            PlugAsk::DeleteTimer { .. } => "plug_timer_del",
            PlugAsk::Countdown { .. } => "plug_cntdown_get",
            PlugAsk::StartCountdown { .. } => "plug_cntdown_add",
            PlugAsk::StopCountdown { .. } => "plug_cntdown_del",
            PlugAsk::Logs { .. } => "get-status-logs",
        }
    }
}

// ------------------------------------------------------------------- first calls

/// What a command does first.
#[derive(Debug, Clone, Copy, PartialEq, Eq, Structural)]
pub enum PlugStep {
    /// Make this call.
    Ask(PlugAsk),
    /// Find the timezone, then list the timers in it.
    ListTimers { index: usize },
    /// Find the timezone, then add a timer that fires at this local time.
    AddTimer { index: usize, time: u64, action: u8, repeat: u8, disabled: bool },
    /// Find the time window, then search the status log.
    SearchLogs,
}

/// How a timer time that cannot be read is reported.
pub open spec fn bad_time(time: Seq<char>) -> Seq<char> {
    "invalid --time '"@ + time
        + "': use a local clock time like 19:25, or minutes of the day 0-1439 (e.g. 480 = 08:00)"@
}

/// What a timer command does first, once its device is known.
pub open spec fn timer_step(cmd: TimerCmd) -> Result<PlugStep, Seq<char>> {
    match cmd {
        TimerCmd::List { index, .. } => Ok(PlugStep::ListTimers { index }),
        TimerCmd::Add { index, time, action, repeat, disabled, .. } => match time {
            None => Err("missing <TIME>"@),
            Some(t) => if action > 1 {
                Err("timer action must be 0 (off) or 1 (on)"@)
            } else {
                match times::local_time_of(t@) {
                    Some(n) => Ok(
                        PlugStep::AddTimer { index, time: n as u64, action, repeat, disabled },
                    ),
                    None => Err(bad_time(t@)),
                }
            },
        },
        TimerCmd::Remove { id, index, .. } => if id is None {
            Err("missing <ID>"@)
        } else {
            Ok(PlugStep::Ask(PlugAsk::Timers { index }))
        },
        TimerCmd::Enable { id, index, .. } => if id is None {
            Err("missing <ID>"@)
        } else {
            Ok(PlugStep::Ask(PlugAsk::Timers { index }))
        },
        TimerCmd::Disable { id, index, .. } => if id is None {
            Err("missing <ID>"@)
        } else {
            Ok(PlugStep::Ask(PlugAsk::Timers { index }))
        },
    }
}

/// What a countdown command does first, once its device is known.
pub open spec fn countdown_step(cmd: CountdownCmd) -> Result<PlugStep, Seq<char>> {
    match cmd {
        CountdownCmd::Status { index, .. } => Ok(PlugStep::Ask(PlugAsk::Countdown { index })),
        CountdownCmd::Start { index, count, action, .. } => match count {
            None => Err("missing <COUNT>"@),
            Some(count) => if action > 1 {
                Err("countdown action must be 0 (off) or 1 (on)"@)
            } else if count == 0 {
                Err("countdown count must be > 0 seconds"@)
            } else {
                Ok(PlugStep::Ask(PlugAsk::StartCountdown { index, action, count }))
            },
        },
        CountdownCmd::Stop { index, .. } => Ok(PlugStep::Ask(PlugAsk::StopCountdown { index })),
    }
}

/// What a command does first, once its device is known.
pub open spec fn step_of(cmd: PlugCmd) -> Result<PlugStep, Seq<char>> {
    match cmd {
        PlugCmd::Status { index, .. } => Ok(PlugStep::Ask(PlugAsk::Status { index })),
        PlugCmd::On { index, .. } => Ok(PlugStep::Ask(PlugAsk::Switch { index, on: true })),
        PlugCmd::Off { index, .. } => Ok(PlugStep::Ask(PlugAsk::Switch { index, on: false })),
        PlugCmd::Logs { .. } => Ok(PlugStep::SearchLogs),
        PlugCmd::Timer { sub } => timer_step(sub),
        PlugCmd::Countdown { sub } => countdown_step(sub),
        PlugCmd::Led { state, .. } => match state {
            None => Err("missing <STATE>"@),
            Some(s) => match times::on_off(s@) {
                Some(on) => Ok(PlugStep::Ask(PlugAsk::Led { on })),
                None => Err("expected on or off, got '"@ + text::ascii_lower(s@) + "'"@),
            },
        },
        PlugCmd::PowerOnRestore { state, .. } => match state {
            None => Err("missing <STATE>"@),
            Some(state) => if state != 0 && state != 2 {
                Err(
                    "power-on-restore state must be 0 (off) or 2 (keep last state), got "@
                        + text::dec(state as nat),
                )
            } else {
                Ok(PlugStep::Ask(PlugAsk::Restore { state }))
            },
        },
    }
}

/// The device of a command.
pub open spec fn device_of(cmd: PlugCmd) -> Option<Seq<char>> {
    text::opt_view(
        match cmd {
            PlugCmd::Status { sn, .. } => sn,
            PlugCmd::On { sn, .. } => sn,
            PlugCmd::Off { sn, .. } => sn,
            PlugCmd::Logs { sn, .. } => sn,
            PlugCmd::Timer { sub } => match sub {
                TimerCmd::List { sn, .. } => sn,
                TimerCmd::Add { sn, .. } => sn,
                TimerCmd::Remove { sn, .. } => sn,
                TimerCmd::Enable { sn, .. } => sn,
                TimerCmd::Disable { sn, .. } => sn,
            },
            PlugCmd::Countdown { sub } => match sub {
                CountdownCmd::Status { sn, .. } => sn,
                CountdownCmd::Start { sn, .. } => sn,
                CountdownCmd::Stop { sn, .. } => sn,
            },
            PlugCmd::Led { sn, .. } => sn,
            PlugCmd::PowerOnRestore { sn, .. } => sn,
        },
    )
}

/// The device of a command.
pub fn device(cmd: &PlugCmd) -> (r: Option<&String>)
    ensures
        match r {
            Some(sn) => device_of(*cmd) == Some(sn@),
            None => device_of(*cmd) is None,
        },
{
    let sn = match cmd {
        PlugCmd::Status { sn, .. } => sn,
        PlugCmd::On { sn, .. } => sn,
        PlugCmd::Off { sn, .. } => sn,
        PlugCmd::Logs { sn, .. } => sn,
        PlugCmd::Timer { sub } => match sub {
            TimerCmd::List { sn, .. } => sn,
            TimerCmd::Add { sn, .. } => sn,
            TimerCmd::Remove { sn, .. } => sn,
            TimerCmd::Enable { sn, .. } => sn,
            TimerCmd::Disable { sn, .. } => sn,
        },
        PlugCmd::Countdown { sub } => match sub {
            CountdownCmd::Status { sn, .. } => sn,
            CountdownCmd::Start { sn, .. } => sn,
            CountdownCmd::Stop { sn, .. } => sn,
        },
        PlugCmd::Led { sn, .. } => sn,
        PlugCmd::PowerOnRestore { sn, .. } => sn,
    };
    match sn {
        Some(s) => Some(s),
        None => None,
    }
}

/// What a fallible step gave.
pub open spec fn step_result(r: Result<PlugStep, String>) -> Result<PlugStep, Seq<char>> {
    match r {
        Ok(step) => Ok(step),
        Err(m) => Err(m@),
    }
}

/// What a timer command does first, once its device is known.
fn start_timer(cmd: &TimerCmd) -> (r: Result<PlugStep, String>)
    ensures
        step_result(r) == timer_step(*cmd),
{
    match cmd {
        TimerCmd::List { index, .. } => Ok(PlugStep::ListTimers { index: *index }),
        TimerCmd::Add { index, time, action, repeat, disabled, .. } => match time {
            None => Err("missing <TIME>".to_owned()),
            Some(t) => {
                if *action > 1 {
                    return Err("timer action must be 0 (off) or 1 (on)".to_owned());
                }
                match times::parse_local_time(t.as_str()) {
                    Some(n) => Ok(
                        PlugStep::AddTimer {
                            index: *index,
                            time: n,
                            action: *action,
                            repeat: *repeat,
                            disabled: *disabled,
                        },
                    ),
                    None => {
                        let mut m = "invalid --time '".to_owned();
                        m.append(t.as_str());
                        m.append(
                            "': use a local clock time like 19:25, or minutes of the day 0-1439 (e.g. 480 = 08:00)",
                        );
                        Err(m)
                    },
                }
            },
        },
        TimerCmd::Remove { id, index, .. } => list_first(id.is_none(), *index),
        TimerCmd::Enable { id, index, .. } => list_first(id.is_none(), *index),
        TimerCmd::Disable { id, index, .. } => list_first(id.is_none(), *index),
    }
}

/// A command on one timer first lists them.
fn list_first(no_id: bool, index: usize) -> (r: Result<PlugStep, String>)
    ensures
        step_result(r) == (if no_id {
            Err("missing <ID>"@)
        } else {
            Ok(PlugStep::Ask(PlugAsk::Timers { index }))
        }),
{
    if no_id {
        Err("missing <ID>".to_owned())
    } else {
        Ok(PlugStep::Ask(PlugAsk::Timers { index }))
    }
}

/// What a countdown command does first, once its device is known.
fn start_countdown(cmd: &CountdownCmd) -> (r: Result<PlugStep, String>)
    ensures
        step_result(r) == countdown_step(*cmd),
{
    match cmd {
        CountdownCmd::Status { index, .. } => Ok(
            PlugStep::Ask(PlugAsk::Countdown { index: *index }),
        ),
        CountdownCmd::Start { index, count, action, .. } => match count {
            None => Err("missing <COUNT>".to_owned()),
            Some(count) => if *action > 1 {
                Err("countdown action must be 0 (off) or 1 (on)".to_owned())
            } else if *count == 0 {
                Err("countdown count must be > 0 seconds".to_owned())
            } else {
                Ok(
                    PlugStep::Ask(
                        PlugAsk::StartCountdown { index: *index, action: *action, count: *count },
                    ),
                )
            },
        },
        CountdownCmd::Stop { index, .. } => Ok(
            PlugStep::Ask(PlugAsk::StopCountdown { index: *index }),
        ),
    }
}

/// What a command does first, or what is missing or wrong in it.
pub open spec fn first_step(cmd: PlugCmd) -> Result<PlugStep, Seq<char>> {
    match device_of(cmd) {
        Some(_) => step_of(cmd),
        None => Err("missing <SN>"@),
    }
}

/// What a command does first, or what is missing or wrong in it. Nothing is
/// asked of a plug before all arguments were checked.
pub fn start(cmd: &PlugCmd) -> (r: Result<PlugStep, String>)
    ensures
        step_result(r) == first_step(*cmd),
{
    if device(cmd).is_none() {
        return Err("missing <SN>".to_owned());
    }
    match cmd {
        PlugCmd::Status { index, .. } => Ok(PlugStep::Ask(PlugAsk::Status { index: *index })),
        PlugCmd::On { index, .. } => Ok(
            PlugStep::Ask(PlugAsk::Switch { index: *index, on: true }),
        ),
        PlugCmd::Off { index, .. } => Ok(
            PlugStep::Ask(PlugAsk::Switch { index: *index, on: false }),
        ),
        PlugCmd::Logs { .. } => Ok(PlugStep::SearchLogs),
        PlugCmd::Timer { sub } => start_timer(sub),
        PlugCmd::Countdown { sub } => start_countdown(sub),
        PlugCmd::Led { state, .. } => match state {
            None => Err("missing <STATE>".to_owned()),
            Some(s) => match times::parse_on_off(s.as_str()) {
                Ok(on) => Ok(PlugStep::Ask(PlugAsk::Led { on })),
                Err(m) => Err(m),
            },
        },
        PlugCmd::PowerOnRestore { state, .. } => match state {
            None => Err("missing <STATE>".to_owned()),
            Some(state) => if *state != 0 && *state != 2 {
                let mut m =
                    "power-on-restore state must be 0 (off) or 2 (keep last state), got ".to_owned();
                text::push_dec(&mut m, *state as u64);
                Err(m)
            } else {
                Ok(PlugStep::Ask(PlugAsk::Restore { state: *state }))
            },
        },
    }
}

// ------------------------------------------------------------------------ timers

/// The timer that fires at a local time, as a plug stores it.
pub open spec fn stored_timer(
    time: int,
    action: u8,
    repeat: u8,
    disabled: bool,
    tz_min: int,
) -> PlugTimer {
    PlugTimer {
        timer_id: None,
        time: Some(schedule::cloud_time(time, tz_min) as u64),
        action: Some(action),
        repeat: Some(schedule::turned(repeat, 1 + schedule::day_shift(time, tz_min))),
        enabled: Some(
            if disabled {
                0u8
            } else {
                1u8
            },
        ),
    }
}

/// The timer that fires at a local time, as a plug stores it.
pub fn timer_for(time: u64, action: u8, repeat: u8, disabled: bool, tz_min: i64) -> (r: PlugTimer)
    requires
        schedule::fits(schedule::signed(time) - tz_min),
    ensures
        r == stored_timer(schedule::signed(time), action, repeat, disabled, tz_min as int),
{
    let turned = schedule::local_to_cloud_repeat(repeat, time, tz_min);
    proof {
        schedule::turned_is(
            repeat,
            turned,
            1 + schedule::day_shift(schedule::signed(time), tz_min as int),
        );
    }
    PlugTimer {
        timer_id: None,
        time: Some(schedule::local_to_cloud_time(time, tz_min)),
        action: Some(action),
        repeat: Some(turned),
        enabled: Some(
            if disabled {
                0
            } else {
                1
            },
        ),
    }
}

/// The first timer with this id.
pub open spec fn timer_at(timers: Seq<PlugTimer>, id: u64) -> Option<PlugTimer>
    decreases timers.len(),
{
    if timers.len() == 0 {
        None
    } else if timers[0].timer_id == Some(id) {
        Some(timers[0])
    } else {
        timer_at(timers.drop_first(), id)
    }
}

/// The first timer with this id.
fn find_timer(timers: &Vec<PlugTimer>, id: u64) -> (r: Option<PlugTimer>)
    ensures
        r == timer_at(timers@, id),
{
    let mut i: usize = 0;
    proof {
        assert(timers@.skip(0) =~= timers@);
    }
    while i < timers.len()
        invariant
            i <= timers@.len(),
            timer_at(timers@, id) == timer_at(timers@.skip(i as int), id),
        decreases timers.len() - i,
    {
        proof {
            assert(timers@.skip(i as int).drop_first() =~= timers@.skip(i + 1));
        }
        let t: PlugTimer = timers[i];
        if let Some(other) = t.timer_id {
            if other == id {
                return Some(t);
            }
        }
        i = i + 1;
    }
    None
}

/// How a timer that is not there is reported.
pub open spec fn no_timer(id: int, sn: Seq<char>, index: int) -> Seq<char> {
    "timer "@ + text::dec(id as nat) + " not found on sn="@ + sn + " index="@ + text::dec(
        index as nat,
    )
}

/// A number that counts as another where it is absent.
pub open spec fn or_byte(n: Option<u8>, default: u8) -> u8 {
    match n {
        Some(n) => n,
        None => default,
    }
}

/// A number that counts as 0 where it is absent.
pub open spec fn or_zero(n: Option<u64>) -> u64 {
    match n {
        Some(n) => n,
        None => 0,
    }
}

/// The call that deletes a timer, or enables or disables it and keeps its
/// other settings.
pub open spec fn change_of(
    id: u64,
    index: usize,
    enabled: Option<bool>,
    timer: PlugTimer,
) -> PlugAsk {
    match enabled {
        None => PlugAsk::DeleteTimer {
            index,
            id,
            repeat: or_byte(timer.repeat, 0),
            time: or_zero(timer.time),
        },
        Some(enabled) => PlugAsk::SetTimer {
            index,
            id,
            enabled,
            action: or_byte(timer.action, 1),
            repeat: or_byte(timer.repeat, 0),
            time: or_zero(timer.time),
        },
    }
}

/// What a command does to one timer: its id and port, and whether it is
/// enabled or disabled; without that it is removed.
pub open spec fn timer_change(cmd: TimerCmd) -> Option<(u64, usize, Option<bool>)> {
    match cmd {
        TimerCmd::Remove { sn: Some(_), id: Some(id), index } => Some((id, index, None)),
        TimerCmd::Enable { sn: Some(_), id: Some(id), index } => Some((id, index, Some(true))),
        TimerCmd::Disable { sn: Some(_), id: Some(id), index } => Some((id, index, Some(false))),
        _ => None,
    }
}

/// What a command does to one timer: its id and port, and whether it is
/// enabled or disabled; without that it is removed.
pub fn change(cmd: &TimerCmd) -> (r: Option<(u64, usize, Option<bool>)>)
    ensures
        r == timer_change(*cmd),
{
    match cmd {
        TimerCmd::Remove { sn: Some(_), id: Some(id), index } => Some((*id, *index, None)),
        TimerCmd::Enable { sn: Some(_), id: Some(id), index } => Some((*id, *index, Some(true))),
        TimerCmd::Disable { sn: Some(_), id: Some(id), index } => Some((*id, *index, Some(false))),
        _ => None,
    }
}

/// The call that removes, enables or disables the timer `id` among those that
/// the plug listed: `enabled` tells which, and nothing removes it.
pub fn change_timer(
    sn: &str,
    index: usize,
    id: u64,
    enabled: Option<bool>,
    timers: &Vec<PlugTimer>,
) -> (r: Result<PlugAsk, String>)
    ensures
        match timer_at(timers@, id) {
            Some(t) => r == Ok::<PlugAsk, String>(change_of(id, index, enabled, t)),
            None => r matches Err(m) && m@ == no_timer(id as int, sn@, index as int),
        },
{
    match find_timer(timers, id) {
        Some(t) => {
            let repeat = t.repeat.unwrap_or(0);
            let time = t.time.unwrap_or(0);
            Ok(
                match enabled {
                    None => PlugAsk::DeleteTimer { index, id, repeat, time },
                    Some(enabled) => PlugAsk::SetTimer {
                        index,
                        id,
                        enabled,
                        action: t.action.unwrap_or(1),
                        repeat,
                        time,
                    },
                },
            )
        },
        None => {
            let mut m = "timer ".to_owned();
            text::push_dec(&mut m, id);
            m.append(" not found on sn=");
            m.append(sn);
            m.append(" index=");
            text::push_dec(&mut m, index as u64);
            Err(m)
        },
    }
}

// ---------------------------------------------------------------------- laws

/// Arguments that were given are never asked for: a command that gets to a
/// call leaves nothing to ask.
pub proof fn complete_commands_ask_nothing(cmd: PlugCmd)
    requires
        device_of(cmd) is Some,
        step_of(cmd) is Ok,
    ensures
        plug_cmd::questions_of(cmd).len() == 0,
{
}

/// The timer that is changed is one that the plug listed under its id.
pub proof fn changed_timer_was_listed(timers: Seq<PlugTimer>, id: u64)
    ensures
        match timer_at(timers, id) {
            Some(t) => timers.contains(t) && t.timer_id == Some(id),
            None => forall|i: int| 0 <= i < timers.len() ==> timers[i].timer_id != Some(id),
        },
    decreases timers.len(),
{
    if timers.len() > 0 {
        let rest = timers.drop_first();
        changed_timer_was_listed(rest, id);
        if timers[0].timer_id == Some(id) {
            assert(timers.contains(timers[0]));
        } else {
            match timer_at(rest, id) {
                Some(t) => {
                    let k = choose|k: int| 0 <= k < rest.len() && rest[k] == t;
                    assert(timers[k + 1] == t);
                },
                None => {
                    assert forall|i: int| 0 <= i < timers.len() implies timers[i].timer_id != Some(
                        id,
                    ) by {
                        if i > 0 {
                            assert(rest[i - 1] == timers[i]);
                        }
                    }
                },
            }
        }
    }
}

/// Enabling and disabling a timer keep what it does, when, and on which days.
pub proof fn switching_keeps_settings(id: u64, index: usize, enabled: bool, timer: PlugTimer)
    requires
        timer.time is Some,
        timer.action is Some,
        timer.repeat is Some,
    ensures
        change_of(id, index, Some(enabled), timer) == (PlugAsk::SetTimer {
            index,
            id,
            enabled,
            action: timer.action->Some_0,
            repeat: timer.repeat->Some_0,
            time: timer.time->Some_0,
        }),
{
}

/// Arguments are checked before anything is asked of a plug: where a command
/// gets to a call that changes something, that call is in range.
pub proof fn calls_are_in_range(cmd: PlugCmd)
    requires
        step_of(cmd) is Ok,
    ensures
        match step_of(cmd)->Ok_0 {
            PlugStep::Ask(PlugAsk::Restore { state }) => state == 0 || state == 2,
            PlugStep::Ask(PlugAsk::StartCountdown { action, count, .. }) => action <= 1 && count
                > 0,
            PlugStep::AddTimer { action, .. } => action <= 1,
            _ => true,
        },
{
}

/// Switching an outlet sends the state that the command names, to the device
/// and the port that it names: `on` sends 1 and `off` sends 0.
pub proof fn switches_send_the_named_state(sn: String, index: usize)
    ensures
        device_of(PlugCmd::On { sn: Some(sn), index }) == Some(sn@),
        device_of(PlugCmd::Off { sn: Some(sn), index }) == Some(sn@),
        first_step(PlugCmd::On { sn: Some(sn), index }) matches Ok(PlugStep::Ask(ask)) && {
            &&& url::carries(params_of(sn@, ask), "status"@, "1"@)
            &&& url::carries(params_of(sn@, ask), "index"@, text::dec(index as nat))
            &&& url::carries(params_of(sn@, ask), "_api"@, "set_plug_status"@)
        },
        first_step(PlugCmd::Off { sn: Some(sn), index }) matches Ok(PlugStep::Ask(ask)) && {
            &&& url::carries(params_of(sn@, ask), "status"@, "0"@)
            &&& url::carries(params_of(sn@, ask), "index"@, text::dec(index as nat))
            &&& url::carries(params_of(sn@, ask), "_api"@, "set_plug_status"@)
        },
{
    reveal_strlit("sn");
    reveal_strlit("index");
    reveal_strlit("status");
    reveal_strlit("_api");
    assert("sn"@.len() == 2 && "index"@.len() == 5 && "status"@.len() == 6 && "_api"@.len() == 4);
    let on = params_of(sn@, PlugAsk::Switch { index, on: true });
    let off = params_of(sn@, PlugAsk::Switch { index, on: false });
    assert(on[1] == ("index"@, text::dec(index as nat)) && off[1] == on[1]);
    assert(on[2] == ("status"@, "1"@) && off[2] == ("status"@, "0"@));
    assert(on[3] == ("_api"@, "set_plug_status"@) && off[3] == on[3]);
}

/// The LED is sent the state that the word names.
pub proof fn leds_are_sent_the_named_state(sn: String, word: String, on: bool)
    requires
        times::on_off(word@) == Some(on),
    ensures
        device_of(PlugCmd::Led { sn: Some(sn), state: Some(word) }) == Some(sn@),
        first_step(PlugCmd::Led { sn: Some(sn), state: Some(word) }) matches Ok(PlugStep::Ask(ask))
            && {
            &&& url::carries(
                params_of(sn@, ask),
                "enabled"@,
                if on {
                    "1"@
                } else {
                    "0"@
                },
            )
            &&& url::carries(params_of(sn@, ask), "_api"@, "set_plug_led"@)
        },
{
    reveal_strlit("sn");
    reveal_strlit("_api");
    reveal_strlit("enabled");
    assert("sn"@.len() == 2 && "_api"@.len() == 4 && "enabled"@.len() == 7);
    let p = params_of(sn@, PlugAsk::Led { on });
    assert(p[1] == ("_api"@, "set_plug_led"@));
    assert(p[2] == ("enabled"@, if on { "1"@ } else { "0"@ }));
}

/// The state after a power loss is sent as it was asked for, where there is
/// such a state, and refused by its number otherwise.
pub proof fn restores_are_sent_as_asked(sn: String, state: u32)
    ensures
        device_of(PlugCmd::PowerOnRestore { sn: Some(sn), state: Some(state) }) == Some(sn@),
        state == 0 || state == 2 ==> (first_step(
            PlugCmd::PowerOnRestore { sn: Some(sn), state: Some(state) },
        ) matches Ok(PlugStep::Ask(ask)) && url::carries(
            params_of(sn@, ask),
            "default"@,
            text::dec(state as nat),
        ) && url::carries(params_of(sn@, ask), "_api"@, "set_plug_dfltstat"@)),
        state != 0 && state != 2 ==> first_step(
            PlugCmd::PowerOnRestore { sn: Some(sn), state: Some(state) },
        ) == Err::<PlugStep, Seq<char>>(
            "power-on-restore state must be 0 (off) or 2 (keep last state), got "@ + text::dec(
                state as nat,
            ),
        ),
{
    reveal_strlit("sn");
    reveal_strlit("_api");
    reveal_strlit("default");
    assert("sn"@.len() == 2 && "_api"@.len() == 4 && "default"@.len() == 7);
    let p = params_of(sn@, PlugAsk::Restore { state });
    assert(p[1] == ("_api"@, "set_plug_dfltstat"@));
    assert(p[2] == ("default"@, text::dec(state as nat)));
}

/// A countdown is started with the length and the action that were asked for,
/// on the port that was asked for.
pub proof fn countdowns_start_as_asked(sn: String, index: usize, count: u64, action: u8)
    requires
        count > 0,
        action <= 1,
    ensures
        ({
            let cmd = PlugCmd::Countdown {
                sub: CountdownCmd::Start { sn: Some(sn), index, count: Some(count), action },
            };
            &&& device_of(cmd) == Some(sn@)
            &&& first_step(cmd) matches Ok(PlugStep::Ask(ask))
            &&& url::carries(params_of(sn@, ask), "_api"@, "plug_cntdown_add"@)
            &&& url::carries(params_of(sn@, ask), "action"@, text::dec(action as nat))
            &&& url::carries(params_of(sn@, ask), "count"@, text::dec(count as nat))
            &&& url::carries(params_of(sn@, ask), "index"@, text::dec(index as nat))
        }),
{
    reveal_strlit("sn");
    reveal_strlit("_api");
    reveal_strlit("action");
    reveal_strlit("count");
    reveal_strlit("index");
    assert("sn"@.len() == 2 && "_api"@.len() == 4 && "action"@.len() == 6 && "count"@.len() == 5
        && "index"@.len() == 5);
    assert("count"@[0] == 'c' && "index"@[0] == 'i');
    let p = params_of(sn@, PlugAsk::StartCountdown { index, action, count });
    assert(p[1] == ("_api"@, "plug_cntdown_add"@));
    assert(p[2] == ("action"@, text::dec(action as nat)));
    assert(p[3] == ("count"@, text::dec(count as nat)));
    assert(p[4] == ("index"@, text::dec(index as nat)));
}

/// The state and the countdown of an outlet are asked for, and a countdown is
/// stopped, at the port that was asked for.
pub proof fn questions_go_to_the_port(sn: String, index: usize)
    ensures
        device_of(PlugCmd::Status { sn: Some(sn), index }) == Some(sn@),
        device_of(
            PlugCmd::Countdown { sub: CountdownCmd::Status { sn: Some(sn), index } },
        ) == Some(sn@),
        device_of(PlugCmd::Countdown { sub: CountdownCmd::Stop { sn: Some(sn), index } }) == Some(
            sn@,
        ),
        first_step(PlugCmd::Status { sn: Some(sn), index }) matches Ok(PlugStep::Ask(ask))
            && url::carries(params_of(sn@, ask), "_api"@, "get_plug_status"@) && url::carries(
            params_of(sn@, ask),
            "index"@,
            text::dec(index as nat),
        ),
        first_step(
            PlugCmd::Countdown { sub: CountdownCmd::Status { sn: Some(sn), index } },
        ) matches Ok(PlugStep::Ask(ask)) && url::carries(
            params_of(sn@, ask),
            "_api"@,
            "plug_cntdown_get"@,
        ) && url::carries(params_of(sn@, ask), "index"@, text::dec(index as nat)),
        first_step(
            PlugCmd::Countdown { sub: CountdownCmd::Stop { sn: Some(sn), index } },
        ) matches Ok(PlugStep::Ask(ask)) && url::carries(
            params_of(sn@, ask),
            "_api"@,
            "plug_cntdown_del"@,
        ) && url::carries(params_of(sn@, ask), "index"@, text::dec(index as nat)),
{
    reveal_strlit("sn");
    reveal_strlit("_api");
    reveal_strlit("index");
    assert("sn"@.len() == 2 && "_api"@.len() == 4 && "index"@.len() == 5);
    let status = params_of(sn@, PlugAsk::Status { index });
    let left = params_of(sn@, PlugAsk::Countdown { index });
    let stop = params_of(sn@, PlugAsk::StopCountdown { index });
    assert(status[1] == ("_api"@, "get_plug_status"@));
    assert(left[1] == ("_api"@, "plug_cntdown_get"@));
    assert(stop[1] == ("_api"@, "plug_cntdown_del"@));
    assert(status[2] == ("index"@, text::dec(index as nat)));
    assert(left[2] == status[2] && stop[2] == status[2]);
}

/// A timer that is to be changed is looked up first, among those of its port.
pub proof fn timers_are_looked_up_first(sn: String, id: u64, index: usize, cmd: TimerCmd)
    requires
        cmd == (TimerCmd::Remove { sn: Some(sn), id: Some(id), index }) || cmd == (
        TimerCmd::Enable { sn: Some(sn), id: Some(id), index }) || cmd == (TimerCmd::Disable {
            sn: Some(sn),
            id: Some(id),
            index,
        }),
    ensures
        device_of(PlugCmd::Timer { sub: cmd }) == Some(sn@),
        first_step(PlugCmd::Timer { sub: cmd }) matches Ok(PlugStep::Ask(ask)) && url::carries(
            params_of(sn@, ask),
            "_api"@,
            "plug_timer_get"@,
        ) && url::carries(params_of(sn@, ask), "index"@, text::dec(index as nat)),
        timer_change(cmd) is Some,
        timer_change(cmd)->Some_0.0 == id,
        timer_change(cmd)->Some_0.1 == index,
{
    reveal_strlit("sn");
    reveal_strlit("_api");
    reveal_strlit("index");
    assert("sn"@.len() == 2 && "_api"@.len() == 4 && "index"@.len() == 5);
    let p = params_of(sn@, PlugAsk::Timers { index });
    assert(p[1] == ("_api"@, "plug_timer_get"@));
    assert(p[2] == ("index"@, text::dec(index as nat)));
}

/// A timer that is enabled or disabled is sent under its id with the state
/// that the command names, and with the settings that it had.
pub proof fn timers_are_switched_as_named(sn: String, id: u64, index: usize, timer: PlugTimer)
    ensures
        ({
            let on = timer_change(TimerCmd::Enable { sn: Some(sn), id: Some(id), index })->Some_0;
            let p = params_of(sn@, change_of(on.0, on.1, on.2, timer));
            &&& url::carries(p, "_api"@, "plug_timer_set"@)
            &&& url::carries(p, "timer_id"@, text::dec(id as nat))
            &&& url::carries(p, "index"@, text::dec(index as nat))
            &&& url::carries(p, "enabled"@, "1"@)
            &&& timer.action matches Some(a) ==> url::carries(p, "action"@, text::dec(a as nat))
            &&& timer.repeat matches Some(d) ==> url::carries(p, "repeat"@, text::dec(d as nat))
            &&& timer.time matches Some(t) ==> url::carries(p, "timer"@, text::dec(t as nat))
        }),
        ({
            let off = timer_change(TimerCmd::Disable { sn: Some(sn), id: Some(id), index })->Some_0;
            let p = params_of(sn@, change_of(off.0, off.1, off.2, timer));
            &&& url::carries(p, "_api"@, "plug_timer_set"@)
            &&& url::carries(p, "timer_id"@, text::dec(id as nat))
            &&& url::carries(p, "index"@, text::dec(index as nat))
            &&& url::carries(p, "enabled"@, "0"@)
            &&& timer.action matches Some(a) ==> url::carries(p, "action"@, text::dec(a as nat))
            &&& timer.repeat matches Some(d) ==> url::carries(p, "repeat"@, text::dec(d as nat))
            &&& timer.time matches Some(t) ==> url::carries(p, "timer"@, text::dec(t as nat))
        }),
{
    set_timers_are_sent_whole(sn@, id, index, true, timer);
    set_timers_are_sent_whole(sn@, id, index, false, timer);
}

/// What is sent to enable or disable a timer.
proof fn set_timers_are_sent_whole(
    sn: Seq<char>,
    id: u64,
    index: usize,
    enabled: bool,
    timer: PlugTimer,
)
    ensures
        ({
            let p = params_of(sn, change_of(id, index, Some(enabled), timer));
            &&& url::carries(p, "_api"@, "plug_timer_set"@)
            &&& url::carries(p, "timer_id"@, text::dec(id as nat))
            &&& url::carries(p, "index"@, text::dec(index as nat))
            &&& url::carries(
                p,
                "enabled"@,
                if enabled {
                    "1"@
                } else {
                    "0"@
                },
            )
            &&& url::carries(p, "action"@, text::dec(or_byte(timer.action, 1) as nat))
            &&& url::carries(p, "repeat"@, text::dec(or_byte(timer.repeat, 0) as nat))
            &&& url::carries(p, "timer"@, text::dec(or_zero(timer.time) as nat))
        }),
{
    reveal_strlit("sn");
    reveal_strlit("timer_id");
    reveal_strlit("enabled");
    reveal_strlit("action");
    reveal_strlit("repeat");
    reveal_strlit("index");
    reveal_strlit("timer");
    reveal_strlit("_api");
    assert("sn"@.len() == 2 && "timer_id"@.len() == 8 && "enabled"@.len() == 7
        && "action"@.len() == 6 && "repeat"@.len() == 6 && "index"@.len() == 5
        && "timer"@.len() == 5 && "_api"@.len() == 4);
    assert("action"@[0] == 'a' && "repeat"@[0] == 'r' && "index"@[0] == 'i'
        && "timer"@[0] == 't');
    let p = params_of(sn, change_of(id, index, Some(enabled), timer));
    assert(p[1] == ("timer_id"@, text::dec(id as nat)));
    assert(p[2] == ("enabled"@, if enabled { "1"@ } else { "0"@ }));
    assert(p[3] == ("action"@, text::dec(or_byte(timer.action, 1) as nat)));
    assert(p[4] == ("repeat"@, text::dec(or_byte(timer.repeat, 0) as nat)));
    assert(p[5] == ("index"@, text::dec(index as nat)));
    assert(p[6] == ("timer"@, text::dec(or_zero(timer.time) as nat)));
    assert(p[7] == ("_api"@, "plug_timer_set"@));
}

/// A timer is removed under its id, and the request says which timer it was.
pub proof fn timers_are_removed_by_id(sn: String, id: u64, index: usize, timer: PlugTimer)
    ensures
        ({
            let c = timer_change(TimerCmd::Remove { sn: Some(sn), id: Some(id), index })->Some_0;
            let p = params_of(sn@, change_of(c.0, c.1, c.2, timer));
            &&& url::carries(p, "_api"@, "plug_timer_del"@)
            &&& url::carries(p, "timer_id"@, text::dec(id as nat))
            &&& url::carries(p, "index"@, text::dec(index as nat))
            &&& timer.repeat matches Some(d) ==> url::carries(p, "repeat"@, text::dec(d as nat))
            &&& timer.time matches Some(t) ==> url::carries(p, "timer"@, text::dec(t as nat))
        }),
{
    reveal_strlit("sn");
    reveal_strlit("timer_id");
    reveal_strlit("repeat");
    reveal_strlit("index");
    reveal_strlit("timer");
    reveal_strlit("_api");
    assert("sn"@.len() == 2 && "timer_id"@.len() == 8 && "repeat"@.len() == 6
        && "index"@.len() == 5 && "timer"@.len() == 5 && "_api"@.len() == 4);
    assert("index"@[0] == 'i' && "timer"@[0] == 't');
    let p = params_of(sn@, change_of(id, index, None, timer));
    assert(p[1] == ("timer_id"@, text::dec(id as nat)));
    assert(p[2] == ("repeat"@, text::dec(or_byte(timer.repeat, 0) as nat)));
    assert(p[3] == ("index"@, text::dec(index as nat)));
    assert(p[4] == ("timer"@, text::dec(or_zero(timer.time) as nat)));
    assert(p[5] == ("_api"@, "plug_timer_del"@));
}

/// A timer is added as it was asked for: at the local time that was typed,
/// with the action, the weekdays and the port of the command, and disabled
/// only where that was asked for.
pub proof fn timers_are_added_as_asked(
    sn: String,
    index: usize,
    time: String,
    action: u8,
    repeat: u8,
    disabled: bool,
)
    requires
        action <= 1,
        times::local_time_of(time@) is Some,
        0 <= times::local_time_of(time@)->Some_0 < 1440,
    ensures
        ({
            let cmd = PlugCmd::Timer {
                sub: TimerCmd::Add { sn: Some(sn), index, time: Some(time), action, repeat, disabled },
            };
            &&& device_of(cmd) == Some(sn@)
            &&& first_step(cmd) matches Ok(PlugStep::AddTimer {
                index: port,
                time: at,
                action: does,
                repeat: days,
                disabled: asleep,
            })
            &&& port == index
            &&& at == times::local_time_of(time@)->Some_0
            &&& does == action
            &&& days == repeat
            &&& asleep == disabled
        }),
{
}

/// A stored timer does what was asked for, and is enabled exactly where it
/// was not asked for disabled; the plug gives it its id.
pub proof fn stored_timers_do_what_was_asked(
    time: int,
    action: u8,
    repeat: u8,
    disabled: bool,
    tz_min: int,
)
    ensures
        ({
            let t = stored_timer(time, action, repeat, disabled, tz_min);
            &&& t.timer_id is None
            &&& t.action == Some(action)
            &&& t.enabled == Some(1u8) <==> !disabled
            &&& t.enabled == Some(0u8) <==> disabled
            &&& t.time is Some
            &&& t.repeat is Some
        }),
{
}

/// The timer that is added goes out with the action and the state that were
/// asked for.
pub proof fn added_timers_are_sent_as_asked(
    sn: Seq<char>,
    index: usize,
    time: int,
    action: u8,
    repeat: u8,
    disabled: bool,
    tz_min: int,
)
    ensures
        ({
            let timer = stored_timer(time, action, repeat, disabled, tz_min);
            let p = params_of(sn, PlugAsk::AddTimer { index, timer });
            &&& url::carries(p, "_api"@, "plug_timer_add"@)
            &&& url::carries(p, "index"@, text::dec(index as nat))
            &&& url::carries(p, "timer"@, json::json_compact(plug::timer_tree(timer)))
            &&& json::member(plug::timer_tree(timer), "action"@) == Some(
                json::int_tree(action as int),
            )
            &&& json::member(plug::timer_tree(timer), "enabled"@) == Some(
                json::int_tree(
                    if disabled {
                        0
                    } else {
                        1
                    },
                ),
            )
        }),
{
    reveal_strlit("sn");
    reveal_strlit("_api");
    reveal_strlit("index");
    reveal_strlit("timer");
    assert("sn"@.len() == 2 && "_api"@.len() == 4 && "index"@.len() == 5 && "timer"@.len() == 5);
    assert("index"@[0] == 'i' && "timer"@[0] == 't');
    let timer = stored_timer(time, action, repeat, disabled, tz_min);
    plug::added_timers_are_sent_whole(timer);
    let p = params_of(sn, PlugAsk::AddTimer { index, timer });
    assert(p[1] == ("_api"@, "plug_timer_add"@));
    assert(p[2] == ("index"@, text::dec(index as nat)));
    assert(p[3] == ("timer"@, json::json_compact(plug::timer_tree(timer))));
}

/// Every call names its device, and a call on `/plug` names itself as its
/// messages do.
#[verifier::rlimit(40)]
pub proof fn calls_name_device_and_endpoint(sn: Seq<char>, ask: PlugAsk)
    ensures
        url::carries(params_of(sn, ask), "sn"@, sn),
        !(ask is Logs) ==> url::carries(params_of(sn, ask), "_api"@, endpoint_of(ask)),
{
    reveal_strlit("sn");
    reveal_strlit("_api");
    reveal_strlit("index");
    reveal_strlit("status");
    reveal_strlit("enabled");
    reveal_strlit("default");
    reveal_strlit("timer");
    reveal_strlit("timer_id");
    reveal_strlit("action");
    reveal_strlit("repeat");
    reveal_strlit("count");
    reveal_strlit("page");
    reveal_strlit("_format");
    assert("sn"@.len() == 2 && "_api"@.len() == 4 && "index"@.len() == 5 && "status"@.len() == 6
        && "enabled"@.len() == 7 && "default"@.len() == 7 && "timer"@.len() == 5
        && "timer_id"@.len() == 8 && "action"@.len() == 6 && "repeat"@.len() == 6
        && "count"@.len() == 5 && "page"@.len() == 4 && "_format"@.len() == 7);
    assert("_api"@[0] == '_' && "page"@[0] == 'p' && "index"@[0] == 'i' && "timer"@[0] == 't'
        && "count"@[0] == 'c' && "status"@[0] == 's' && "action"@[0] == 'a'
        && "repeat"@[0] == 'r' && "enabled"@[0] == 'e' && "default"@[0] == 'd'
        && "_format"@[0] == '_');
    let p = params_of(sn, ask);
    assert(p[0] == ("sn"@, sn));
    let at: int = match ask {
        PlugAsk::Switch { .. } => 3,
        PlugAsk::SetTimer { .. } => 7,
        PlugAsk::DeleteTimer { .. } => 5,
        _ => 1,
    };
    if !(ask is Logs) {
        assert(p[at] == ("_api"@, endpoint_of(ask)));
    }
}

/// A page of the log is asked for by its number, as a form of its own
/// endpoint; everything else is asked of `/plug`.
pub proof fn log_pages_are_asked_by_number(
    req: Request,
    slapi_base: Seq<char>,
    token: Seq<char>,
    sn: Seq<char>,
    page: u32,
)
    requires
        is_request(Ok(req), slapi_base, token, sn, PlugAsk::Logs { page }),
    ensures
        req@.method == "POST"@,
        req@.url == slapi_base + "/smart-plug/get-status-logs"@,
        url::carries(params_of(sn, PlugAsk::Logs { page }), "page"@, text::dec(page as nat)),
        req@.body == Some(url::pairs_text(params_of(sn, PlugAsk::Logs { page }))),
        req@.headers.contains(("Authorization"@, "Bearer "@ + token)),
{
    reveal_strlit("sn");
    reveal_strlit("page");
    reveal_strlit("_format");
    assert("sn"@.len() == 2 && "page"@.len() == 4 && "_format"@.len() == 7);
    assert(params_of(sn, PlugAsk::Logs { page })[1] == ("page"@, text::dec(page as nat)));
    assert(req@.headers[0] == ("Authorization"@, "Bearer "@ + token));
}

/// Every other call goes out as a plug request with its parameters.
pub proof fn calls_go_out_with_their_parameters(
    req: Request,
    slapi_base: Seq<char>,
    token: Seq<char>,
    sn: Seq<char>,
    ask: PlugAsk,
)
    requires
        !(ask is Logs),
        is_request(Ok(req), slapi_base, token, sn, ask),
    ensures
        req@.method == "GET"@,
        url::normal_url(slapi_base + "/plug"@) is Ok,
        req@.url == url::with_query(
            url::normal_url(slapi_base + "/plug"@)->Ok_0,
            url::pairs_text(params_of(sn, ask)),
        ),
        req@.headers.contains(("Authorization"@, "Bearer "@ + token)),
{
    assert(req@.headers[0] == ("Authorization"@, "Bearer "@ + token));
}

/// A command that lacks an argument is refused by the name of what it lacks.
pub proof fn missing_arguments_are_named(
    sn: Option<String>,
    index: usize,
    action: u8,
    repeat: u8,
    disabled: bool,
)
    ensures
        step_of(PlugCmd::Led { sn, state: None }) == Err::<PlugStep, Seq<char>>("missing <STATE>"@),
        step_of(PlugCmd::PowerOnRestore { sn, state: None }) == Err::<PlugStep, Seq<char>>(
            "missing <STATE>"@,
        ),
        step_of(
            PlugCmd::Timer {
                sub: TimerCmd::Add { sn, index, time: None, action, repeat, disabled },
            },
        ) == Err::<PlugStep, Seq<char>>("missing <TIME>"@),
        step_of(PlugCmd::Timer { sub: TimerCmd::Remove { sn, id: None, index } }) == Err::<
            PlugStep,
            Seq<char>,
        >("missing <ID>"@),
        step_of(PlugCmd::Timer { sub: TimerCmd::Enable { sn, id: None, index } }) == Err::<
            PlugStep,
            Seq<char>,
        >("missing <ID>"@),
        step_of(PlugCmd::Timer { sub: TimerCmd::Disable { sn, id: None, index } }) == Err::<
            PlugStep,
            Seq<char>,
        >("missing <ID>"@),
        step_of(
            PlugCmd::Countdown { sub: CountdownCmd::Start { sn, index, count: None, action } },
        ) == Err::<PlugStep, Seq<char>>("missing <COUNT>"@),
{
}

/// Listing timers and searching the log need nothing but a device.
pub proof fn lists_need_only_a_device(
    sn: String,
    index: usize,
    port: Option<usize>,
    since: Option<String>,
    until: Option<String>,
    page: Option<u32>,
)
    ensures
        device_of(PlugCmd::Timer { sub: TimerCmd::List { sn: Some(sn), index } }) == Some(sn@),
        first_step(PlugCmd::Timer { sub: TimerCmd::List { sn: Some(sn), index } }) == Ok::<
            PlugStep,
            Seq<char>,
        >(PlugStep::ListTimers { index }),
        device_of(PlugCmd::Logs { sn: Some(sn), index: port, since, until, page }) == Some(sn@),
        first_step(PlugCmd::Logs { sn: Some(sn), index: port, since, until, page }) == Ok::<
            PlugStep,
            Seq<char>,
        >(PlugStep::SearchLogs),
{
}

/// A command is asked for just what it lacks, the device first: there is a
/// question for the serial number exactly where the command names none, and a
/// command that lacks nothing else is asked for nothing else.
pub proof fn devices_are_asked_for_first(cmd: PlugCmd)
    ensures
        device_of(cmd) is None ==> plug_cmd::questions_of(cmd).len() >= 1
            && plug_cmd::questions_of(cmd)[0].name == "<SN>"@,
        device_of(cmd) is Some ==> (plug_cmd::questions_of(cmd).len() == 0
            || plug_cmd::questions_of(cmd)[0].name != "<SN>"@),
        step_of(cmd) is Ok ==> plug_cmd::questions_of(cmd).len() == (if device_of(cmd) is None {
            1int
        } else {
            0
        }),
{
    reveal_strlit("<SN>");
    reveal_strlit("<STATE>");
    reveal_strlit("<ID>");
    reveal_strlit("<TIME>");
    reveal_strlit("<COUNT>");
    assert("<SN>"@.len() == 4 && "<STATE>"@.len() == 7 && "<ID>"@.len() == 4
        && "<TIME>"@.len() == 6 && "<COUNT>"@.len() == 7);
    assert("<SN>"@[1] == 'S' && "<ID>"@[1] == 'I' && "<STATE>"@[1] == 'S'
        && "<COUNT>"@[1] == 'C');
}

/// What was given on the command line stays: a command that was completed is
/// for the device that it named, or the one that was typed, and does what it
/// did, where it lacked nothing to do it.
pub proof fn given_arguments_stay(cmd: PlugCmd, typed: Seq<Seq<char>>, out: PlugCmd)
    requires
        plug_cmd::is_completed(cmd, typed, out),
    ensures
        device_of(cmd) is Some ==> device_of(out) == device_of(cmd),
        device_of(cmd) is None && typed.len() > 0 ==> device_of(out) == Some(typed[0]),
        step_of(cmd) is Ok ==> step_of(out) == step_of(cmd),
{
}

/// A log search keeps its window, its port and its page when its device is
/// asked for.
pub proof fn log_searches_keep_their_window(
    sn: Option<String>,
    index: Option<usize>,
    since: Option<String>,
    until: Option<String>,
    page: Option<u32>,
    typed: Seq<Seq<char>>,
    out: PlugCmd,
)
    requires
        plug_cmd::is_completed(PlugCmd::Logs { sn, index, since, until, page }, typed, out),
    ensures
        out matches PlugCmd::Logs { sn: s, index: i, since: a, until: b, page: p } && i == index
            && a == since && b == until && p == page,
{
}

/// What was typed is used for what was missing: the last value that was typed
/// is the state, the time, the length or the id that the command lacked, and
/// the rest of the command stays.
pub proof fn typed_arguments_are_used(cmd: PlugCmd, typed: Seq<Seq<char>>, out: PlugCmd, n: u64)
    requires
        plug_cmd::is_completed(cmd, typed, out),
        typed.len() == plug_cmd::questions_of(cmd).len(),
    ensures
        device_of(out) is Some,
        cmd matches PlugCmd::Led { sn, state: None } ==> times::on_off(typed.last()) is Some
            ==> step_of(out) == Ok::<PlugStep, Seq<char>>(
            PlugStep::Ask(PlugAsk::Led { on: times::on_off(typed.last())->Some_0 }),
        ),
        cmd matches PlugCmd::PowerOnRestore { sn, state: None } ==> (text::parse_u64(
            typed.last(),
        ) == Some(n as nat) && (n == 0 || n == 2)) ==> step_of(out) == Ok::<PlugStep, Seq<char>>(
            PlugStep::Ask(PlugAsk::Restore { state: n as u32 }),
        ),
        cmd matches PlugCmd::Timer {
            sub: TimerCmd::Add { sn, index, time: None, action, repeat, disabled },
        } ==> (action <= 1 && times::local_time_of(typed.last()) == Some(n as int)) ==> step_of(out)
            == Ok::<PlugStep, Seq<char>>(
            PlugStep::AddTimer { index, time: n, action, repeat, disabled },
        ),
        cmd matches PlugCmd::Countdown {
            sub: CountdownCmd::Start { sn, index, count: None, action },
        } ==> (action <= 1 && n > 0 && text::parse_u64(typed.last()) == Some(n as nat)) ==> step_of(
            out,
        ) == Ok::<PlugStep, Seq<char>>(
            PlugStep::Ask(PlugAsk::StartCountdown { index, action, count: n }),
        ),
{
}

/// The id of a timer that was typed is that of the timer that is changed, and
/// the change stays the one that was asked for.
pub proof fn typed_ids_are_used(sub: TimerCmd, typed: Seq<Seq<char>>, out: TimerCmd, n: u64)
    requires
        plug_cmd::is_completed(PlugCmd::Timer { sub }, typed, PlugCmd::Timer { sub: out }),
        typed.len() == plug_cmd::questions_of(PlugCmd::Timer { sub }).len(),
        typed.len() > 0 ==> text::parse_u64(typed.last()) == Some(n as nat),
    ensures
        sub matches TimerCmd::Remove { sn, id, index } ==> timer_change(out) == Some(
            (
                match id {
                    Some(given) => given,
                    None => n,
                },
                index,
                None::<bool>,
            ),
        ),
        sub matches TimerCmd::Enable { sn, id, index } ==> timer_change(out) == Some(
            (
                match id {
                    Some(given) => given,
                    None => n,
                },
                index,
                Some(true),
            ),
        ),
        sub matches TimerCmd::Disable { sn, id, index } ==> timer_change(out) == Some(
            (
                match id {
                    Some(given) => given,
                    None => n,
                },
                index,
                Some(false),
            ),
        ),
{
}

/// A question accepts just what the command can do something with: an LED
/// state or a timer time that the question accepts is one that the command
/// gets going with.
pub proof fn accepted_answers_get_going(cmd: PlugCmd, typed: Seq<Seq<char>>, out: PlugCmd)
    requires
        plug_cmd::is_completed(cmd, typed, out),
        typed.len() == plug_cmd::questions_of(cmd).len(),
        typed.len() > 0,
        cmd is Led || (cmd matches PlugCmd::Timer { sub: TimerCmd::Add { action, .. } } && action
            <= 1),
        step_of(cmd) is Err,
        cmd matches PlugCmd::Led { sn, state } ==> state is None,
        cmd matches PlugCmd::Timer { sub: TimerCmd::Add { time, .. } } ==> time is None,
    ensures
        prompt::complaint(plug_cmd::questions_of(cmd).last().kind, typed.last()) is None
            <==> step_of(out) is Ok,
{
}

/// A timer is stored for the moment that was asked for: at the time of day in
/// UTC, and on the weekdays on which that moment falls in UTC, counted from
/// Sunday where the command counts from Monday.
pub proof fn timers_are_stored_in_utc(
    time: int,
    action: u8,
    repeat: u8,
    disabled: bool,
    tz_min: int,
    day: int,
)
    requires
        0 <= time < 1440,
        -1440 < tz_min < 1440,
        0 <= day < 7,
    ensures
        ({
            let t = stored_timer(time, action, repeat, disabled, tz_min);
            let days_off: int = if time - tz_min < 0 {
                -1
            } else if time - tz_min >= 1440 {
                1
            } else {
                0
            };
            &&& t.time is Some && t.time->Some_0 == time - tz_min - 1440 * days_off
            &&& t.repeat is Some && schedule::has_day(repeat, day) == schedule::has_day(
                t.repeat->Some_0,
                (day + 1 + days_off) % 7,
            )
        }),
{
    let shift = 1 + schedule::day_shift(time, tz_min);
    schedule::turned_turns(repeat, shift);
    schedule::shift_matches_calendar(time, tz_min);
    assert(schedule::has_day(repeat, day) == schedule::has_day(
        schedule::turned(repeat, shift),
        (day + shift) % 7,
    ));
}

/// A command without a device does nothing, and is told so before anything
/// else that it lacks.
pub proof fn commands_need_a_device(cmd: PlugCmd)
    requires
        device_of(cmd) is None,
    ensures
        first_step(cmd) == Err::<PlugStep, Seq<char>>("missing <SN>"@),
{
}

/// Arguments that are out of range are refused, each by its own rule: an
/// action that is neither on nor off, a countdown without a length, a time and
/// a state that cannot be read.
pub proof fn bad_arguments_are_refused(
    sn: String,
    index: usize,
    time: String,
    action: u8,
    repeat: u8,
    disabled: bool,
    count: u64,
    word: String,
)
    ensures
        action > 1 ==> first_step(
            PlugCmd::Timer {
                sub: TimerCmd::Add { sn: Some(sn), index, time: Some(time), action, repeat, disabled },
            },
        ) == Err::<PlugStep, Seq<char>>("timer action must be 0 (off) or 1 (on)"@),
        action <= 1 && times::local_time_of(time@) is None ==> first_step(
            PlugCmd::Timer {
                sub: TimerCmd::Add { sn: Some(sn), index, time: Some(time), action, repeat, disabled },
            },
        ) == Err::<PlugStep, Seq<char>>(
            "invalid --time '"@ + time@
                + "': use a local clock time like 19:25, or minutes of the day 0-1439 (e.g. 480 = 08:00)"@,
        ),
        action > 1 ==> first_step(
            PlugCmd::Countdown {
                sub: CountdownCmd::Start { sn: Some(sn), index, count: Some(count), action },
            },
        ) == Err::<PlugStep, Seq<char>>("countdown action must be 0 (off) or 1 (on)"@),
        action <= 1 ==> first_step(
            PlugCmd::Countdown {
                sub: CountdownCmd::Start { sn: Some(sn), index, count: Some(0), action },
            },
        ) == Err::<PlugStep, Seq<char>>("countdown count must be > 0 seconds"@),
        times::on_off(word@) is None ==> first_step(
            PlugCmd::Led { sn: Some(sn), state: Some(word) },
        ) == Err::<PlugStep, Seq<char>>(
            "expected on or off, got '"@ + text::ascii_lower(word@) + "'"@,
        ),
{
}

/// A timer that is listed without its settings counts as one that switches on,
/// once, at the start of the day.
pub proof fn bare_timers_switch_on(id: u64, index: usize, enabled: bool, timer: PlugTimer)
    requires
        timer.time is None,
        timer.action is None,
        timer.repeat is None,
    ensures
        change_of(id, index, Some(enabled), timer) == (PlugAsk::SetTimer {
            index,
            id,
            enabled,
            action: 1,
            repeat: 0,
            time: 0,
        }),
        change_of(id, index, None, timer) == (PlugAsk::DeleteTimer { index, id, repeat: 0, time: 0 }),
{
}

/// A timer that is not there is named, with its device and its port.
pub proof fn missing_timers_are_named(id: u64, sn: Seq<char>, index: usize)
    ensures
        no_timer(id as int, sn, index as int) == "timer "@ + text::dec(id as nat)
            + " not found on sn="@ + sn + " index="@ + text::dec(index as nat),
{
}

} // verus!
