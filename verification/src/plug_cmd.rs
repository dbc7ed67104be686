//! The `wakeup plug` commands, and asking for what a command line leaves out.

use crate::prompt;
use crate::prompt::{Asked, AskEnd, Kind, Question, QuestionView, Session, SessionView};
use crate::text;
use vstd::prelude::*;
use vstd::string::*;

verus! {

broadcast use vstd::seq_lib::group_seq_properties;

/// How a serial number is asked for.
pub const SN_LABEL: &'static str = "Device serial number (SN)";

/// A `wakeup plug` command.
#[allow(inconsistent_fields)]
#[derive(Debug)]
pub enum PlugCmd {
    /// Query plug status.
    Status { sn: Option<String>, index: usize },
    /// Turn the plug on.
    On { sn: Option<String>, index: usize },
    /// Turn the plug off.
    Off { sn: Option<String>, index: usize },
    /// Fetch status-change logs.
    Logs {
        sn: Option<String>,
        /// Only events of this port.
        index: Option<usize>,
        /// Only events at or after this.
        since: Option<String>,
        /// Only events at or before this.
        until: Option<String>,
        /// Only this page.
        page: Option<u32>,
    },
    /// Timer management.
    Timer { sub: TimerCmd },
    /// Countdown management.
    Countdown { sub: CountdownCmd },
    /// Control the LED indicator.
    Led { sn: Option<String>, state: Option<String> },
    /// Set the state after a power loss: 0 is off, 2 keeps the last state.
    PowerOnRestore { sn: Option<String>, state: Option<u32> },
}

/// A `wakeup plug timer` command.
#[derive(Debug)]
pub enum TimerCmd {
    /// List timers for an outlet.
    List { sn: Option<String>, index: usize },
    /// Add a timer that fires at a local clock time on the matching days.
    Add {
        sn: Option<String>,
        index: usize,
        time: Option<String>,
        action: u8,
        repeat: u8,
        disabled: bool,
    },
    /// Remove a timer by its id.
    Remove { sn: Option<String>, id: Option<u64>, index: usize },
    /// Enable a timer by its id.
    Enable { sn: Option<String>, id: Option<u64>, index: usize },
    /// Disable a timer by its id.
    Disable { sn: Option<String>, id: Option<u64>, index: usize },
}

/// A `wakeup plug countdown` command.
#[derive(Debug)]
pub enum CountdownCmd {
    /// Show the running countdown for an outlet.
    Status { sn: Option<String>, index: usize },
    /// Start a countdown that flips the outlet after `count` seconds.
    Start { sn: Option<String>, index: usize, count: Option<u64>, action: u8 },
    /// Stop any running countdown.
    Stop { sn: Option<String>, index: usize },
}

// ------------------------------------------------------------- missing arguments

/// The question for a serial number, where it is missing.
pub open spec fn sn_questions(missing: bool) -> Seq<QuestionView> {
    if missing {
        seq![prompt::text_question("<SN>"@, SN_LABEL@)]
    } else {
        seq![]
    }
}

/// The question for a serial number, where it is missing.
pub fn ask_sn(missing: bool) -> (r: Vec<Question>)
    ensures
        prompt::questions_view(r@) == sn_questions(missing),
{
    let mut qs: Vec<Question> = Vec::new();
    proof {
        assert(prompt::questions_view(qs@) =~= seq![]);
    }
    if missing {
        prompt::ask_for_text(&mut qs, "<SN>", SN_LABEL);
        proof {
            assert(prompt::questions_view(qs@) =~= sn_questions(missing));
        }
    }
    qs
}

/// `qs` with one more question, where its argument is missing.
pub open spec fn and_question(
    qs: Seq<QuestionView>,
    missing: bool,
    name: Seq<char>,
    label: Seq<char>,
    kind: Kind,
) -> Seq<QuestionView> {
    if missing {
        qs.push(QuestionView { name, label, kind, default: None })
    } else {
        qs
    }
}

/// The questions for a serial number and one more argument, where they are
/// missing.
fn ask_sn_and(
    no_sn: bool,
    missing: bool,
    name: &'static str,
    label: &'static str,
    kind: Kind,
) -> (r: Vec<Question>)
    ensures
        prompt::questions_view(r@) == and_question(
            sn_questions(no_sn),
            missing,
            name@,
            label@,
            kind,
        ),
{
    let mut qs = ask_sn(no_sn);
    if missing {
        prompt::ask_for(&mut qs, name, label, kind, None);
    }
    qs
}

/// The questions for a serial number and a timer id, where they are missing.
pub open spec fn sn_id_questions(no_sn: bool, no_id: bool) -> Seq<QuestionView> {
    and_question(
        sn_questions(no_sn),
        no_id,
        "<ID>"@,
        "Timer id (see `timer list`)"@,
        Kind::Number(u64::MAX),
    )
}

/// The questions for what a timer command is missing.
pub open spec fn timer_questions_of(cmd: TimerCmd) -> Seq<QuestionView> {
    match cmd {
        TimerCmd::List { sn, .. } => sn_questions(sn is None),
        TimerCmd::Add { sn, time, .. } => and_question(
            sn_questions(sn is None),
            time is None,
            "<TIME>"@,
            "Timer time (e.g. 19:25)"@,
            Kind::ClockTime,
        ),
        TimerCmd::Remove { sn, id, .. } => sn_id_questions(sn is None, id is None),
        TimerCmd::Enable { sn, id, .. } => sn_id_questions(sn is None, id is None),
        TimerCmd::Disable { sn, id, .. } => sn_id_questions(sn is None, id is None),
    }
}

/// The questions for what a countdown command is missing.
pub open spec fn countdown_questions_of(cmd: CountdownCmd) -> Seq<QuestionView> {
    match cmd {
        CountdownCmd::Status { sn, .. } => sn_questions(sn is None),
        CountdownCmd::Start { sn, count, .. } => and_question(
            sn_questions(sn is None),
            count is None,
            "<COUNT>"@,
            "Countdown seconds"@,
            Kind::Number(u64::MAX),
        ),
        CountdownCmd::Stop { sn, .. } => sn_questions(sn is None),
    }
}

/// The questions for what a command is missing.
pub open spec fn questions_of(cmd: PlugCmd) -> Seq<QuestionView> {
    match cmd {
        PlugCmd::Status { sn, .. } => sn_questions(sn is None),
        PlugCmd::On { sn, .. } => sn_questions(sn is None),
        PlugCmd::Off { sn, .. } => sn_questions(sn is None),
        PlugCmd::Logs { sn, .. } => sn_questions(sn is None),
        PlugCmd::Timer { sub } => timer_questions_of(sub),
        PlugCmd::Countdown { sub } => countdown_questions_of(sub),
        PlugCmd::Led { sn, state } => and_question(
            sn_questions(sn is None),
            state is None,
            "<STATE>"@,
            "LED state (on/off)"@,
            Kind::OnOff,
        ),
        PlugCmd::PowerOnRestore { sn, state } => and_question(
            sn_questions(sn is None),
            state is None,
            "<STATE>"@,
            "Power-on state (0 = off, 2 = keep last)"@,
            Kind::Number(u32::MAX as u64),
        ),
    }
}

/// The timer command line that leaves nothing out.
pub open spec fn timer_example_of(cmd: TimerCmd) -> Seq<char> {
    match cmd {
        TimerCmd::List { .. } => "oray-tools wakeup plug timer list <sn>"@,
        TimerCmd::Add { .. } => "oray-tools wakeup plug timer add <sn> --time <TIME>"@,
        TimerCmd::Remove { .. } => "oray-tools wakeup plug timer remove <sn> <id>"@,
        TimerCmd::Enable { .. } => "oray-tools wakeup plug timer enable <sn> <id>"@,
        TimerCmd::Disable { .. } => "oray-tools wakeup plug timer disable <sn> <id>"@,
    }
}

/// The countdown command line that leaves nothing out.
pub open spec fn countdown_example_of(cmd: CountdownCmd) -> Seq<char> {
    match cmd {
        CountdownCmd::Status { .. } => "oray-tools wakeup plug countdown status <sn>"@,
        CountdownCmd::Start { .. } => "oray-tools wakeup plug countdown start <sn> --count <COUNT>"@,
        CountdownCmd::Stop { .. } => "oray-tools wakeup plug countdown stop <sn>"@,
    }
}

/// The command line that leaves nothing out.
pub open spec fn example_of(cmd: PlugCmd) -> Seq<char> {
    match cmd {
        PlugCmd::Status { .. } => "oray-tools wakeup plug status <sn>"@,
        PlugCmd::On { .. } => "oray-tools wakeup plug on <sn>"@,
        PlugCmd::Off { .. } => "oray-tools wakeup plug off <sn>"@,
        PlugCmd::Logs { .. } => "oray-tools wakeup plug logs <sn>"@,
        PlugCmd::Timer { sub } => timer_example_of(sub),
        PlugCmd::Countdown { sub } => countdown_example_of(sub),
        PlugCmd::Led { .. } => "oray-tools wakeup plug led <sn> <state>"@,
        PlugCmd::PowerOnRestore { .. } => "oray-tools wakeup plug power-on-restore <sn> <state>"@,
    }
}

/// The questions for what a timer command is missing.
fn timer_questions(cmd: &TimerCmd) -> (r: Vec<Question>)
    ensures
        prompt::questions_view(r@) == timer_questions_of(*cmd),
{
    match cmd {
        TimerCmd::List { sn, .. } => ask_sn(sn.is_none()),
        TimerCmd::Add { sn, time, .. } => ask_sn_and(
            sn.is_none(),
            time.is_none(),
            "<TIME>",
            "Timer time (e.g. 19:25)",
            Kind::ClockTime,
        ),
        TimerCmd::Remove { sn, id, .. } => ask_sn_and(
            sn.is_none(),
            id.is_none(),
            "<ID>",
            "Timer id (see `timer list`)",
            Kind::Number(u64::MAX),
        ),
        TimerCmd::Enable { sn, id, .. } => ask_sn_and(
            sn.is_none(),
            id.is_none(),
            "<ID>",
            "Timer id (see `timer list`)",
            Kind::Number(u64::MAX),
        ),
        TimerCmd::Disable { sn, id, .. } => ask_sn_and(
            sn.is_none(),
            id.is_none(),
            "<ID>",
            "Timer id (see `timer list`)",
            Kind::Number(u64::MAX),
        ),
    }
}

/// The questions for what a countdown command is missing.
fn countdown_questions(cmd: &CountdownCmd) -> (r: Vec<Question>)
    ensures
        prompt::questions_view(r@) == countdown_questions_of(*cmd),
{
    match cmd {
        CountdownCmd::Status { sn, .. } => ask_sn(sn.is_none()),
        CountdownCmd::Start { sn, count, .. } => ask_sn_and(
            sn.is_none(),
            count.is_none(),
            "<COUNT>",
            "Countdown seconds",
            Kind::Number(u64::MAX),
        ),
        CountdownCmd::Stop { sn, .. } => ask_sn(sn.is_none()),
    }
}

/// The questions for what a command is missing.
pub fn questions(cmd: &PlugCmd) -> (r: Vec<Question>)
    ensures
        prompt::questions_view(r@) == questions_of(*cmd),
{
    match cmd {
        PlugCmd::Status { sn, .. } => ask_sn(sn.is_none()),
        PlugCmd::On { sn, .. } => ask_sn(sn.is_none()),
        PlugCmd::Off { sn, .. } => ask_sn(sn.is_none()),
        PlugCmd::Logs { sn, .. } => ask_sn(sn.is_none()),
        PlugCmd::Timer { sub } => timer_questions(sub),
        PlugCmd::Countdown { sub } => countdown_questions(sub),
        PlugCmd::Led { sn, state } => ask_sn_and(
            sn.is_none(),
            state.is_none(),
            "<STATE>",
            "LED state (on/off)",
            Kind::OnOff,
        ),
        PlugCmd::PowerOnRestore { sn, state } => ask_sn_and(
            sn.is_none(),
            state.is_none(),
            "<STATE>",
            "Power-on state (0 = off, 2 = keep last)",
            Kind::Number(u32::MAX as u64),
        ),
    }
}

/// The command line that leaves nothing out.
pub fn example(cmd: &PlugCmd) -> (r: &'static str)
    ensures
        r@ == example_of(*cmd),
{
    match cmd {
        PlugCmd::Status { .. } => "oray-tools wakeup plug status <sn>",
        PlugCmd::On { .. } => "oray-tools wakeup plug on <sn>",
        PlugCmd::Off { .. } => "oray-tools wakeup plug off <sn>",
        PlugCmd::Logs { .. } => "oray-tools wakeup plug logs <sn>",
        PlugCmd::Timer { sub } => match sub {
            TimerCmd::List { .. } => "oray-tools wakeup plug timer list <sn>",
            TimerCmd::Add { .. } => "oray-tools wakeup plug timer add <sn> --time <TIME>",
            TimerCmd::Remove { .. } => "oray-tools wakeup plug timer remove <sn> <id>",
            TimerCmd::Enable { .. } => "oray-tools wakeup plug timer enable <sn> <id>",
            TimerCmd::Disable { .. } => "oray-tools wakeup plug timer disable <sn> <id>",
        },
        PlugCmd::Countdown { sub } => match sub {
            CountdownCmd::Status { .. } => "oray-tools wakeup plug countdown status <sn>",
            CountdownCmd::Start { .. } => "oray-tools wakeup plug countdown start <sn> --count <COUNT>",
            CountdownCmd::Stop { .. } => "oray-tools wakeup plug countdown stop <sn>",
        },
        PlugCmd::Led { .. } => "oray-tools wakeup plug led <sn> <state>",
        PlugCmd::PowerOnRestore { .. } => "oray-tools wakeup plug power-on-restore <sn> <state>",
    }
}

/// Whether `s` is the serial number `sn`, or the first value typed where that
/// is missing.
pub open spec fn sn_filled(sn: Option<String>, typed: Seq<Seq<char>>, s: Option<String>) -> bool {
    text::opt_view(s) == prompt::given_or_typed(text::opt_view(sn), typed)
}

/// Whether `n` is the number `id`, or the value typed for it where that is
/// missing.
pub open spec fn id_filled(
    sn: Option<String>,
    id: Option<u64>,
    typed: Seq<Seq<char>>,
    n: Option<u64>,
) -> bool {
    prompt::opt_number(n) == prompt::number_or_typed(
        prompt::opt_number(id),
        prompt::typed_after(sn is Some, typed),
    )
}

/// Whether `t` is the text `state`, or the value typed for it where that is
/// missing.
pub open spec fn text_filled(
    sn: Option<String>,
    state: Option<String>,
    typed: Seq<Seq<char>>,
    t: Option<String>,
) -> bool {
    text::opt_view(t) == prompt::given_or_typed(
        text::opt_view(state),
        prompt::typed_after(sn is Some, typed),
    )
}

/// Whether `out` is `cmd` with what was missing replaced by what was typed.
pub open spec fn timer_completed(cmd: TimerCmd, typed: Seq<Seq<char>>, out: TimerCmd) -> bool {
    match (cmd, out) {
        (TimerCmd::List { sn, index }, TimerCmd::List { sn: s, index: i }) => sn_filled(
            sn,
            typed,
            s,
        ) && i == index,
        (
            TimerCmd::Add { sn, index, time, action, repeat, disabled },
            TimerCmd::Add { sn: s, index: i, time: t, action: a, repeat: r, disabled: d },
        ) => sn_filled(sn, typed, s) && text_filled(sn, time, typed, t) && i == index && a
            == action && r == repeat && d == disabled,
        (
            TimerCmd::Remove { sn, id, index },
            TimerCmd::Remove { sn: s, id: n, index: i },
        ) => sn_filled(sn, typed, s) && id_filled(sn, id, typed, n) && i == index,
        (
            TimerCmd::Enable { sn, id, index },
            TimerCmd::Enable { sn: s, id: n, index: i },
        ) => sn_filled(sn, typed, s) && id_filled(sn, id, typed, n) && i == index,
        (
            TimerCmd::Disable { sn, id, index },
            TimerCmd::Disable { sn: s, id: n, index: i },
        ) => sn_filled(sn, typed, s) && id_filled(sn, id, typed, n) && i == index,
        _ => false,
    }
}

/// Whether `out` is `cmd` with what was missing replaced by what was typed.
pub open spec fn countdown_completed(
    cmd: CountdownCmd,
    typed: Seq<Seq<char>>,
    out: CountdownCmd,
) -> bool {
    match (cmd, out) {
        (CountdownCmd::Status { sn, index }, CountdownCmd::Status { sn: s, index: i }) => sn_filled(
            sn,
            typed,
            s,
        ) && i == index,
        (
            CountdownCmd::Start { sn, index, count, action },
            CountdownCmd::Start { sn: s, index: i, count: n, action: a },
        ) => sn_filled(sn, typed, s) && id_filled(sn, count, typed, n) && i == index && a == action,
        (CountdownCmd::Stop { sn, index }, CountdownCmd::Stop { sn: s, index: i }) => sn_filled(
            sn,
            typed,
            s,
        ) && i == index,
        _ => false,
    }
}

/// A number of 32 bits that may be absent, as one of 64.
pub open spec fn widened(n: Option<u32>) -> Option<int> {
    match n {
        Some(n) => Some(n as int),
        None => None,
    }
}

/// A number that may be absent, where 32 bits hold it.
pub open spec fn narrowed(n: Option<int>) -> Option<int> {
    match n {
        Some(n) => if 0 <= n <= u32::MAX {
            Some(n)
        } else {
            None
        },
        None => None,
    }
}

/// Whether `out` is `cmd` with what was missing replaced by what was typed.
pub open spec fn is_completed(cmd: PlugCmd, typed: Seq<Seq<char>>, out: PlugCmd) -> bool {
    match (cmd, out) {
        (PlugCmd::Status { sn, index }, PlugCmd::Status { sn: s, index: i }) => sn_filled(
            sn,
            typed,
            s,
        ) && i == index,
        (PlugCmd::On { sn, index }, PlugCmd::On { sn: s, index: i }) => sn_filled(sn, typed, s) && i
            == index,
        (PlugCmd::Off { sn, index }, PlugCmd::Off { sn: s, index: i }) => sn_filled(sn, typed, s)
            && i == index,
        (
            PlugCmd::Logs { sn, index, since, until, page },
            PlugCmd::Logs { sn: s, index: i, since: a, until: b, page: p },
        ) => sn_filled(sn, typed, s) && i == index && a == since && b == until && p == page,
        (PlugCmd::Timer { sub }, PlugCmd::Timer { sub: s }) => timer_completed(sub, typed, s),
        (PlugCmd::Countdown { sub }, PlugCmd::Countdown { sub: s }) => countdown_completed(
            sub,
            typed,
            s,
        ),
        (PlugCmd::Led { sn, state }, PlugCmd::Led { sn: s, state: t }) => sn_filled(sn, typed, s)
            && text_filled(sn, state, typed, t),
        (
            PlugCmd::PowerOnRestore { sn, state },
            PlugCmd::PowerOnRestore { sn: s, state: n },
        ) => sn_filled(sn, typed, s) && widened(n) == narrowed(
            prompt::number_or_typed(widened(state), prompt::typed_after(sn is Some, typed)),
        ),
        _ => false,
    }
}

/// Fills in what was typed.
fn complete_timer(cmd: TimerCmd, typed: Vec<String>) -> (r: TimerCmd)
    ensures
        timer_completed(cmd, text::lines_view(typed@), r),
{
    let mut typed = typed;
    match cmd {
        TimerCmd::List { sn, index } => TimerCmd::List {
            sn: prompt::take_text(sn, &mut typed),
            index,
        },
        TimerCmd::Add { sn, index, time, action, repeat, disabled } => {
            let sn = prompt::take_text(sn, &mut typed);
            let time = prompt::take_text(time, &mut typed);
            TimerCmd::Add { sn, index, time, action, repeat, disabled }
        },
        TimerCmd::Remove { sn, id, index } => {
            let sn = prompt::take_text(sn, &mut typed);
            let id = prompt::take_number(id, &mut typed);
            TimerCmd::Remove { sn, id, index }
        },
        TimerCmd::Enable { sn, id, index } => {
            let sn = prompt::take_text(sn, &mut typed);
            let id = prompt::take_number(id, &mut typed);
            TimerCmd::Enable { sn, id, index }
        },
        TimerCmd::Disable { sn, id, index } => {
            let sn = prompt::take_text(sn, &mut typed);
            let id = prompt::take_number(id, &mut typed);
            TimerCmd::Disable { sn, id, index }
        },
    }
}

/// Fills in what was typed.
fn complete_countdown(cmd: CountdownCmd, typed: Vec<String>) -> (r: CountdownCmd)
    ensures
        countdown_completed(cmd, text::lines_view(typed@), r),
{
    let mut typed = typed;
    match cmd {
        CountdownCmd::Status { sn, index } => CountdownCmd::Status {
            sn: prompt::take_text(sn, &mut typed),
            index,
        },
        CountdownCmd::Start { sn, index, count, action } => {
            let sn = prompt::take_text(sn, &mut typed);
            let count = prompt::take_number(count, &mut typed);
            CountdownCmd::Start { sn, index, count, action }
        },
        CountdownCmd::Stop { sn, index } => CountdownCmd::Stop {
            sn: prompt::take_text(sn, &mut typed),
            index,
        },
    }
}

/// Fills in what was typed.
pub fn complete(cmd: PlugCmd, typed: Vec<String>) -> (r: PlugCmd)
    ensures
        is_completed(cmd, text::lines_view(typed@), r),
{
    let mut typed = typed;
    match cmd {
        PlugCmd::Status { sn, index } => PlugCmd::Status {
            sn: prompt::take_text(sn, &mut typed),
            index,
        },
        PlugCmd::On { sn, index } => PlugCmd::On { sn: prompt::take_text(sn, &mut typed), index },
        PlugCmd::Off { sn, index } => PlugCmd::Off { sn: prompt::take_text(sn, &mut typed), index },
        PlugCmd::Logs { sn, index, since, until, page } => PlugCmd::Logs {
            sn: prompt::take_text(sn, &mut typed),
            index,
            since,
            until,
            page,
        },
        PlugCmd::Timer { sub } => PlugCmd::Timer { sub: complete_timer(sub, typed) },
        PlugCmd::Countdown { sub } => PlugCmd::Countdown { sub: complete_countdown(sub, typed) },
        PlugCmd::Led { sn, state } => {
            let sn = prompt::take_text(sn, &mut typed);
            PlugCmd::Led { sn, state: prompt::take_text(state, &mut typed) }
        },
        PlugCmd::PowerOnRestore { sn, state } => {
            let sn = prompt::take_text(sn, &mut typed);
            let given = match state {
                Some(n) => Some(n as u64),
                None => None,
            };
            let state = match prompt::take_number(given, &mut typed) {
                Some(n) => if n <= u32::MAX as u64 {
                    Some(n as u32)
                } else {
                    None
                },
                None => None,
            };
            PlugCmd::PowerOnRestore { sn, state }
        },
    }
}

/// Whether `r` is what filling in the arguments of a command comes to, and
/// `after` the session then.
pub open spec fn is_filled(
    r: Asked<PlugCmd>,
    cmd: PlugCmd,
    before: SessionView,
    after: SessionView,
    interactive: bool,
    is_terminal: bool,
) -> bool {
    if interactive {
        let f = prompt::filled(before, questions_of(cmd), example_of(cmd), is_terminal);
        &&& after == f.1
        &&& match f.0 {
            AskEnd::Value(typed) => r is Value && is_completed(cmd, typed, r->Value_0),
            AskEnd::Failed(m) => r is Failed && r->Failed_0@ == m,
            AskEnd::Waiting(secret) => r == Asked::<PlugCmd>::Waiting(secret),
        }
    } else {
        r == Asked::Value(cmd) && after == before
    }
}

/// `--interactive`: asks for the arguments that the command line left out.
/// Without the flag nothing is ever asked.
pub fn fill(cmd: PlugCmd, interactive: bool, io: &mut Session, is_terminal: bool) -> (r: Asked<
    PlugCmd,
>)
    ensures
        is_filled(r, cmd, old(io)@, final(io)@, interactive, is_terminal),
        !interactive ==> *final(io) == *old(io),
{
    if !interactive {
        return Asked::Value(cmd);
    }
    let qs = questions(&cmd);
    match prompt::fill_arguments(io, &qs, example(&cmd), is_terminal) {
        Asked::Value(typed) => Asked::Value(complete(cmd, typed)),
        Asked::Failed(m) => Asked::Failed(m),
        Asked::Waiting(secret) => Asked::Waiting(secret),
    }
}

// ---------------------------------------------------------------------- laws

/// Nobody is asked for anything without `--interactive`, and nobody for what
/// the command line gave: a command that lacks nothing is completed with
/// nothing. Where something is missing and there is no terminal, it fails and
/// shows nothing.
pub proof fn only_gaps_are_asked_for(
    r: Asked<PlugCmd>,
    cmd: PlugCmd,
    before: SessionView,
    after: SessionView,
    is_terminal: bool,
)
    ensures
        is_filled(r, cmd, before, after, false, is_terminal) ==> r == Asked::Value(cmd) && after
            == before,
        is_filled(r, cmd, before, after, true, is_terminal) && questions_of(cmd).len() == 0 ==> r is Value
            && is_completed(cmd, Seq::empty(), r->Value_0) && after == before,
        is_filled(r, cmd, before, after, true, false) && questions_of(cmd).len() > 0 ==> r is Failed && after
            == before && r->Failed_0@ == prompt::no_terminal(questions_of(cmd), example_of(cmd)),
{
}

/// Behind the serial number a command is asked for the one argument that it
/// lacks, by its name.
pub proof fn missing_arguments_are_asked_for(
    sn: Option<String>,
    index: usize,
    action: u8,
    repeat: u8,
    disabled: bool,
)
    ensures
        questions_of(PlugCmd::Led { sn, state: None }).last().name == "<STATE>"@,
        questions_of(PlugCmd::PowerOnRestore { sn, state: None }).last().name == "<STATE>"@,
        questions_of(
            PlugCmd::Timer {
                sub: TimerCmd::Add { sn, index, time: None, action, repeat, disabled },
            },
        ).last().name == "<TIME>"@,
        questions_of(
            PlugCmd::Timer { sub: TimerCmd::Remove { sn, id: None, index } },
        ).last().name == "<ID>"@,
        questions_of(PlugCmd::Timer { sub: TimerCmd::Enable { sn, id: None, index } })
            == questions_of(PlugCmd::Timer { sub: TimerCmd::Remove { sn, id: None, index } }),
        questions_of(PlugCmd::Timer { sub: TimerCmd::Disable { sn, id: None, index } })
            == questions_of(PlugCmd::Timer { sub: TimerCmd::Remove { sn, id: None, index } }),
        questions_of(
            PlugCmd::Countdown { sub: CountdownCmd::Start { sn, index, count: None, action } },
        ).last().name == "<COUNT>"@,
        questions_of(PlugCmd::On { sn, index }) == questions_of(PlugCmd::Off { sn, index }),
{
}

/// Commands that do opposite things are told apart by the example that leaves
/// nothing out.
pub proof fn examples_name_their_command(
    sn: Option<String>,
    id: Option<u64>,
    index: usize,
)
    ensures
        example_of(PlugCmd::On { sn, index }) == "oray-tools wakeup plug on <sn>"@,
        example_of(PlugCmd::Off { sn, index }) == "oray-tools wakeup plug off <sn>"@,
        example_of(PlugCmd::Timer { sub: TimerCmd::Remove { sn, id, index } })
            == "oray-tools wakeup plug timer remove <sn> <id>"@,
        example_of(PlugCmd::Timer { sub: TimerCmd::Enable { sn, id, index } })
            == "oray-tools wakeup plug timer enable <sn> <id>"@,
        example_of(PlugCmd::Timer { sub: TimerCmd::Disable { sn, id, index } })
            == "oray-tools wakeup plug timer disable <sn> <id>"@,
        example_of(PlugCmd::Countdown { sub: CountdownCmd::Stop { sn, index } })
            == "oray-tools wakeup plug countdown stop <sn>"@,
{
}

} // verus!
