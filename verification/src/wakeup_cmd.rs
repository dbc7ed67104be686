//! The `wakeup` commands: what each asks the API for, in which order, and
//! what it prints.

use crate::error;
use crate::json;
use crate::json::{Json, Tree};
use crate::output;
use crate::output::Report;
use crate::plug;
use crate::plug::PlugApi;
use crate::plug_cmd;
use crate::plug_cmd::PlugCmd;
use crate::prompt;
use crate::prompt::{Asked, AskEnd, Question, QuestionView, Session, SessionView};
use crate::text;
use crate::trace::Request;
use crate::url;
use crate::wakeup;
use crate::wakeup::{WakeupApi, WakeupDevice, WakeupDevicesResponse};
use vstd::prelude::*;
use vstd::string::*;

verus! {

broadcast use vstd::seq_lib::group_seq_properties;

/// A `wakeup` command.
#[derive(Debug)]
pub enum WakeupCmd {
    /// List wakeup devices.
    List { offset: u64, limit: usize },
    /// Show details for one device.
    Info { sn: Option<String> },
    /// Rename a device.
    Rename { sn: Option<String>, new_name: Option<String> },
    /// Set the memo of a device.
    Memo { sn: Option<String>, new_memo: Option<String> },
    /// Smart-plug specific controls.
    Plug { sub: PlugCmd },
}

// ------------------------------------------------------------- missing arguments

/// The questions for what is missing.
pub open spec fn questions_of(cmd: WakeupCmd) -> Seq<QuestionView> {
    match cmd {
        WakeupCmd::List { .. } => seq![],
        WakeupCmd::Info { sn } => plug_cmd::sn_questions(sn is None),
        WakeupCmd::Rename { sn, new_name } => if new_name is None {
            plug_cmd::sn_questions(sn is None).push(
                prompt::text_question("<NEW_NAME>"@, "New device name"@),
            )
        } else {
            plug_cmd::sn_questions(sn is None)
        },
        WakeupCmd::Memo { sn, new_memo } => if new_memo is None {
            plug_cmd::sn_questions(sn is None).push(
                prompt::text_question("<NEW_MEMO>"@, "New memo"@),
            )
        } else {
            plug_cmd::sn_questions(sn is None)
        },
        WakeupCmd::Plug { sub } => plug_cmd::questions_of(sub),
    }
}

/// The command line that leaves nothing out.
pub open spec fn example_of(cmd: WakeupCmd) -> Seq<char> {
    match cmd {
        WakeupCmd::List { .. } => "oray-tools wakeup list"@,
        WakeupCmd::Info { .. } => "oray-tools wakeup info <sn>"@,
        WakeupCmd::Rename { .. } => "oray-tools wakeup rename <sn> <new_name>"@,
        WakeupCmd::Memo { .. } => "oray-tools wakeup memo <sn> <new_memo>"@,
        WakeupCmd::Plug { sub } => plug_cmd::example_of(sub),
    }
}

/// Whether `out` is `cmd` with what was missing replaced by what was typed.
pub open spec fn is_completed(cmd: WakeupCmd, typed: Seq<Seq<char>>, out: WakeupCmd) -> bool {
    match (cmd, out) {
        (WakeupCmd::List { .. }, WakeupCmd::List { .. }) => out == cmd,
        (WakeupCmd::Info { sn }, WakeupCmd::Info { sn: s }) => text::opt_view(s)
            == prompt::given_or_typed(text::opt_view(sn), typed),
        (WakeupCmd::Rename { sn, new_name }, WakeupCmd::Rename { sn: s, new_name: n }) => {
            &&& text::opt_view(s) == prompt::given_or_typed(text::opt_view(sn), typed)
            &&& text::opt_view(n) == prompt::given_or_typed(
                text::opt_view(new_name),
                prompt::typed_after(sn is Some, typed),
            )
        },
        (WakeupCmd::Memo { sn, new_memo }, WakeupCmd::Memo { sn: s, new_memo: n }) => {
            &&& text::opt_view(s) == prompt::given_or_typed(text::opt_view(sn), typed)
            &&& text::opt_view(n) == prompt::given_or_typed(
                text::opt_view(new_memo),
                prompt::typed_after(sn is Some, typed),
            )
        },
        (WakeupCmd::Plug { sub }, WakeupCmd::Plug { sub: s }) => plug_cmd::is_completed(
            sub,
            typed,
            s,
        ),
        _ => false,
    }
}

/// The questions for what is missing.
fn questions(cmd: &WakeupCmd) -> (r: Vec<Question>)
    ensures
        prompt::questions_view(r@) == questions_of(*cmd),
{
    match cmd {
        WakeupCmd::List { .. } => plug_cmd::ask_sn(false),
        WakeupCmd::Info { sn } => plug_cmd::ask_sn(sn.is_none()),
        WakeupCmd::Rename { sn, new_name } => {
            let mut qs = plug_cmd::ask_sn(sn.is_none());
            if new_name.is_none() {
                prompt::ask_for_text(&mut qs, "<NEW_NAME>", "New device name");
            }
            qs
        },
        WakeupCmd::Memo { sn, new_memo } => {
            let mut qs = plug_cmd::ask_sn(sn.is_none());
            if new_memo.is_none() {
                prompt::ask_for_text(&mut qs, "<NEW_MEMO>", "New memo");
            }
            qs
        },
        WakeupCmd::Plug { sub } => plug_cmd::questions(sub),
    }
}

/// The command line that leaves nothing out.
fn example(cmd: &WakeupCmd) -> (r: &'static str)
    ensures
        r@ == example_of(*cmd),
{
    match cmd {
        WakeupCmd::List { .. } => "oray-tools wakeup list",
        WakeupCmd::Info { .. } => "oray-tools wakeup info <sn>",
        WakeupCmd::Rename { .. } => "oray-tools wakeup rename <sn> <new_name>",
        WakeupCmd::Memo { .. } => "oray-tools wakeup memo <sn> <new_memo>",
        WakeupCmd::Plug { sub } => plug_cmd::example(sub),
    }
}

/// Fills in what was typed.
fn complete(cmd: WakeupCmd, typed: Vec<String>) -> (r: WakeupCmd)
    ensures
        is_completed(cmd, text::lines_view(typed@), r),
{
    let mut typed = typed;
    match cmd {
        WakeupCmd::List { offset, limit } => WakeupCmd::List { offset, limit },
        WakeupCmd::Info { sn } => WakeupCmd::Info { sn: prompt::take_text(sn, &mut typed) },
        WakeupCmd::Rename { sn, new_name } => {
            let sn = prompt::take_text(sn, &mut typed);
            WakeupCmd::Rename { sn, new_name: prompt::take_text(new_name, &mut typed) }
        },
        WakeupCmd::Memo { sn, new_memo } => {
            let sn = prompt::take_text(sn, &mut typed);
            WakeupCmd::Memo { sn, new_memo: prompt::take_text(new_memo, &mut typed) }
        },
        WakeupCmd::Plug { sub } => WakeupCmd::Plug { sub: plug_cmd::complete(sub, typed) },
    }
}

/// Whether `r` is what filling in the arguments of a command comes to, and
/// `after` the session then.
pub open spec fn is_filled(
    r: Asked<WakeupCmd>,
    cmd: WakeupCmd,
    before: SessionView,
    after: SessionView,
    interactive: bool,
    is_terminal: bool,
) -> bool {
    if interactive {
        let f = prompt::filled(before, questions_of(cmd), example_of(cmd), is_terminal);
        &&& after == f.1
        &&& match f.0 {
            AskEnd::Value(typed) => r is Value && is_completed(cmd, typed, r->Value_0),
            AskEnd::Failed(m) => r is Failed && r->Failed_0@ == m,
            AskEnd::Waiting(secret) => r == Asked::<WakeupCmd>::Waiting(secret),
        }
    } else {
        r == Asked::Value(cmd) && after == before
    }
}

/// `--interactive`: asks for the arguments that the command line left out.
/// Without the flag nothing is ever asked.
pub fn fill(cmd: WakeupCmd, interactive: bool, io: &mut Session, is_terminal: bool) -> (r: Asked<
    WakeupCmd,
>)
    ensures
        is_filled(r, cmd, old(io)@, final(io)@, interactive, is_terminal),
        !interactive ==> *final(io) == *old(io),
{
    if !interactive {
        return Asked::Value(cmd);
    }
    let qs = questions(&cmd);
    match prompt::fill_arguments(io, &qs, example(&cmd), is_terminal) {
        Asked::Value(typed) => Asked::Value(complete(cmd, typed)),
        Asked::Failed(m) => Asked::Failed(m),
        Asked::Waiting(secret) => Asked::Waiting(secret),
    }
}

// ------------------------------------------------------------------------- calls

/// An API call that a command makes.
pub enum WakeupCall {
    /// List devices: offset and limit.
    List(u64, usize),
    /// Look one up by serial number.
    Find(String),
    /// Set the name and the memo of one.
    Rename(String, String, String),
}

/// An API call that a command makes.
pub enum CallView {
    List(int, int),
    Find(Seq<char>),
    Rename(Seq<char>, Seq<char>, Seq<char>),
}

impl View for WakeupCall {
    type V = CallView;

    open spec fn view(&self) -> CallView {
        match self {
            WakeupCall::List(offset, limit) => CallView::List(*offset as int, *limit as int),
            WakeupCall::Find(sn) => CallView::Find(sn@),
            WakeupCall::Rename(sn, name, memo) => CallView::Rename(sn@, name@, memo@),
        }
    }
}

/// Whether `r` is the request of a call, or the error of a bad base.
pub open spec fn is_request(
    r: error::Result<Request>,
    api_base: Seq<char>,
    slapi_base: Seq<char>,
    call: CallView,
    token: Seq<char>,
) -> bool {
    match call {
        CallView::List(offset, limit) => wakeup::is_list_request(
            r,
            wakeup::devices_at(api_base, offset, limit, None),
            token,
        ),
        CallView::Find(sn) => wakeup::is_list_request(
            r,
            wakeup::devices_at(api_base, 0, wakeup::DEVICE_LIST_LIMIT as int, Some(sn)),
            token,
        ),
        CallView::Rename(sn, name, memo) => r matches Ok(req) && req@ == plug::form_request(
            slapi_base + "/smart-plug/rename"@,
            token,
            seq![
                ("sn"@, sn),
                ("name"@, name),
                ("description"@, memo),
                ("_format"@, "json"@),
            ],
        ),
    }
}

impl WakeupCall {
    /// The request of a call.
    pub fn request(&self, wakeup: &WakeupApi, plug: &PlugApi, token: &str) -> (r: error::Result<
        Request,
    >)
        ensures
            is_request(r, wakeup.api_base@, plug.slapi_base@, self@, token@),
    {
        match self {
            WakeupCall::List(offset, limit) => wakeup.list(token, *offset, *limit, None),
            WakeupCall::Find(sn) => wakeup.find(token, sn.as_str()),
            WakeupCall::Rename(sn, name, memo) => Ok(
                plug.rename_device(token, sn.as_str(), name.as_str(), memo.as_str()),
            ),
        }
    }
}

/// The first call of a command, or why there is none. Plug commands make
/// their own.
pub open spec fn first_call(cmd: WakeupCmd) -> Option<Result<CallView, Seq<char>>> {
    match cmd {
        WakeupCmd::List { offset, limit } => Some(
            if limit == 0 {
                Err("--limit must be at least 1"@)
            } else {
                Ok(CallView::List(offset as int, limit as int))
            },
        ),
        WakeupCmd::Info { sn } => Some(
            match sn {
                Some(sn) => Ok(CallView::Find(sn@)),
                None => Err("missing <SN>"@),
            },
        ),
        WakeupCmd::Rename { sn, new_name } => Some(
            match (sn, new_name) {
                (None, _) => Err("missing <SN>"@),
                (Some(_), None) => Err("missing <NEW_NAME>"@),
                (Some(sn), Some(_)) => Ok(CallView::Find(sn@)),
            },
        ),
        WakeupCmd::Memo { sn, new_memo } => Some(
            match (sn, new_memo) {
                (None, _) => Err("missing <SN>"@),
                (Some(_), None) => Err("missing <NEW_MEMO>"@),
                (Some(sn), Some(_)) => Ok(CallView::Find(sn@)),
            },
        ),
        WakeupCmd::Plug { .. } => None,
    }
}

/// The first call of a command, or why there is none. Plug commands make
/// their own.
pub fn start(cmd: &WakeupCmd) -> (r: Option<Result<WakeupCall, String>>)
    ensures
        match first_call(*cmd) {
            Some(Ok(call)) => r matches Some(Ok(c)) && c@ == call,
            Some(Err(m)) => r matches Some(Err(s)) && s@ == m,
            None => r is None,
        },
{
    match cmd {
        WakeupCmd::List { offset, limit } => if *limit == 0 {
            Some(Err("--limit must be at least 1".to_owned()))
        } else {
            Some(Ok(WakeupCall::List(*offset, *limit)))
        },
        WakeupCmd::Info { sn } => match sn {
            Some(sn) => Some(Ok(WakeupCall::Find(sn.clone()))),
            None => Some(Err("missing <SN>".to_owned())),
        },
        WakeupCmd::Rename { sn, new_name } => match sn {
            Some(sn) => if new_name.is_none() {
                Some(Err("missing <NEW_NAME>".to_owned()))
            } else {
                Some(Ok(WakeupCall::Find(sn.clone())))
            },
            None => Some(Err("missing <SN>".to_owned())),
        },
        WakeupCmd::Memo { sn, new_memo } => match sn {
            Some(sn) => if new_memo.is_none() {
                Some(Err("missing <NEW_MEMO>".to_owned()))
            } else {
                Some(Ok(WakeupCall::Find(sn.clone())))
            },
            None => Some(Err("missing <SN>".to_owned())),
        },
        WakeupCmd::Plug { .. } => None,
    }
}

/// The call that follows once the device was found.
pub open spec fn second_call(cmd: WakeupCmd, name: Seq<char>, memo: Option<Seq<char>>) -> Option<
    CallView,
> {
    match cmd {
        WakeupCmd::Rename { sn: Some(sn), new_name: Some(new_name) } => Some(
            CallView::Rename(
                sn@,
                new_name@,
                match memo {
                    Some(m) => m,
                    None => ""@,
                },
            ),
        ),
        WakeupCmd::Memo { sn: Some(sn), new_memo: Some(new_memo) } => Some(
            CallView::Rename(sn@, name, new_memo@),
        ),
        _ => None,
    }
}

/// The call that follows once the device was found, as it is now.
pub open spec fn update_of(cmd: WakeupCmd, device: WakeupDevice) -> Option<CallView> {
    second_call(cmd, device.name@, text::opt_view(device.description))
}

/// The call that follows once the device was found: the endpoint always sets
/// both fields, so the one that is to stay is sent as it is.
pub fn after_find(cmd: &WakeupCmd, device: &WakeupDevice) -> (r: Option<WakeupCall>)
    ensures
        match update_of(*cmd, *device) {
            Some(call) => r matches Some(c) && c@ == call,
            None => r is None,
        },
{
    match cmd {
        WakeupCmd::Rename { sn: Some(sn), new_name: Some(new_name) } => {
            let memo = match &device.description {
                Some(m) => m.clone(),
                None => "".to_owned(),
            };
            Some(WakeupCall::Rename(sn.clone(), new_name.clone(), memo))
        },
        WakeupCmd::Memo { sn: Some(sn), new_memo: Some(new_memo) } => Some(
            WakeupCall::Rename(sn.clone(), device.name.clone(), new_memo.clone()),
        ),
        _ => None,
    }
}

// ------------------------------------------------------------------------ output

/// The document of a renamed device.
pub open spec fn renamed_tree(sn: Seq<char>, name: Seq<char>) -> Tree {
    Tree::Object(
        map!["ok"@ => Tree::Bool(true), "sn"@ => Tree::Str(sn), "name"@ => Tree::Str(name)],
    )
}

/// `--json` body of `wakeup rename`.
pub fn json_renamed(sn: &str, name: &str) -> (r: Json)
    ensures
        r@ == renamed_tree(sn@, name@),
{
    let mut f: Vec<(String, Json)> = Vec::new();
    json::put(&mut f, "ok", Json::Bool(true));
    json::put(&mut f, "sn", json::json_str(sn));
    json::put(&mut f, "name", json::json_str(name));
    Json::Object(f)
}

/// The document of a device with a new memo.
pub open spec fn memo_tree(sn: Seq<char>, memo: Seq<char>) -> Tree {
    Tree::Object(
        map!["ok"@ => Tree::Bool(true), "sn"@ => Tree::Str(sn), "memo"@ => Tree::Str(memo)],
    )
}

/// `--json` body of `wakeup memo`.
pub fn json_memo(sn: &str, memo: &str) -> (r: Json)
    ensures
        r@ == memo_tree(sn@, memo@),
{
    let mut f: Vec<(String, Json)> = Vec::new();
    json::put(&mut f, "ok", Json::Bool(true));
    json::put(&mut f, "sn", json::json_str(sn));
    json::put(&mut f, "memo", json::json_str(memo));
    Json::Object(f)
}

/// What a command that changed something reports.
pub open spec fn is_report(r: Option<Report>, cmd: WakeupCmd) -> bool {
    match cmd {
        WakeupCmd::Rename { sn: Some(sn), new_name: Some(name) } => r matches Some(report)
            && report.json@ == renamed_tree(sn@, name@) && report.line@ == "renamed "@ + sn@
            + " to '"@ + name@ + "'"@,
        WakeupCmd::Memo { sn: Some(sn), new_memo: Some(memo) } => r matches Some(report)
            && report.json@ == memo_tree(sn@, memo@) && report.line@ == "memo of "@ + sn@
            + " set to '"@ + memo@ + "'"@,
        _ => r is None,
    }
}

/// What a command reports once its update went through.
pub fn after_rename(cmd: &WakeupCmd) -> (r: Option<Report>)
    ensures
        is_report(r, *cmd),
{
    match cmd {
        WakeupCmd::Rename { sn: Some(sn), new_name: Some(name) } => {
            let mut line = "renamed ".to_owned();
            line.append(sn.as_str());
            line.append(" to '");
            line.append(name.as_str());
            line.append("'");
            Some(Report { json: json_renamed(sn.as_str(), name.as_str()), line })
        },
        WakeupCmd::Memo { sn: Some(sn), new_memo: Some(memo) } => {
            let mut line = "memo of ".to_owned();
            line.append(sn.as_str());
            line.append(" set to '");
            line.append(memo.as_str());
            line.append("'");
            Some(Report { json: json_memo(sn.as_str(), memo.as_str()), line })
        },
        _ => None,
    }
}

/// The document of a failure.
pub open spec fn failure_tree(message: Seq<char>) -> Tree {
    Tree::Object(map!["ok"@ => Tree::Bool(false), "error"@ => Tree::Str(message)])
}

/// The document that a failed command prints in place of its result.
pub open spec fn failure_of(cmd: WakeupCmd, json: bool, message: Seq<char>) -> Option<Tree> {
    if json && !(cmd is Plug) {
        Some(failure_tree(message))
    } else {
        None
    }
}

/// The document that a failed command prints in place of its result, so that
/// a reader of `--json` output always sees exactly one value. Plug commands
/// print none, and neither does any command in text mode: there the message
/// goes to the error output alone.
pub fn failure_json(cmd: &WakeupCmd, json: bool, message: &str) -> (r: Option<Json>)
    ensures
        match r {
            Some(doc) => failure_of(*cmd, json, message@) == Some(doc@),
            None => failure_of(*cmd, json, message@) is None,
        },
{
    if !json {
        return None;
    }
    if let WakeupCmd::Plug { .. } = cmd {
        return None;
    }
    let mut f: Vec<(String, Json)> = Vec::new();
    json::put(&mut f, "ok", Json::Bool(false));
    json::put(&mut f, "error", json::json_str(message));
    Some(Json::Object(f))
}

/// The line of one device in the list.
pub open spec fn list_line(d: WakeupDevice) -> Seq<char> {
    "sn="@ + d.sn@ + " name="@ + d.name@ + " type="@ + d.device_type@ + " outlets="@ + text::dec(
        d.outletcount as nat,
    ) + " "@ + (if d.isenable {
        "enabled"@
    } else {
        "disabled"@
    })
}

/// The lines of `wakeup list`.
pub fn list_lines(resp: &WakeupDevicesResponse) -> (r: Vec<String>)
    ensures
        text::lines_view(r@) == resp.devices@.map_values(|d: WakeupDevice| list_line(d)),
{
    let mut lines: Vec<String> = Vec::new();
    let ghost f = |d: WakeupDevice| list_line(d);
    let mut i: usize = 0;
    proof {
        assert(text::lines_view(lines@) =~= resp.devices@.take(0).map_values(f));
    }
    while i < resp.devices.len()
        invariant
            i <= resp.devices@.len(),
            f == (|d: WakeupDevice| list_line(d)),
            text::lines_view(lines@) == resp.devices@.take(i as int).map_values(f),
        decreases resp.devices.len() - i,
    {
        let d = &resp.devices[i];
        let mut s = "sn=".to_owned();
        s.append(d.sn.as_str());
        s.append(" name=");
        s.append(d.name.as_str());
        s.append(" type=");
        s.append(d.device_type.as_str());
        s.append(" outlets=");
        text::push_dec(&mut s, d.outletcount as u64);
        s.append(" ");
        if d.isenable {
            s.append("enabled");
        } else {
            s.append("disabled");
        }
        proof {
            assert(resp.devices@.take(i + 1) =~= resp.devices@.take(i as int).push(*d));
            assert(resp.devices@.take(i + 1).map_values(f) =~= resp.devices@.take(
                i as int,
            ).map_values(f).push(s@));
        }
        text::add_line(&mut lines, s);
        i = i + 1;
    }
    proof {
        assert(resp.devices@.take(resp.devices@.len() as int) =~= resp.devices@);
    }
    lines
}

/// Numbers in brackets, with commas between them.
pub open spec fn numbers_text(ids: Seq<u64>) -> Seq<char>
    decreases ids.len(),
{
    if ids.len() == 0 {
        "["@
    } else if ids.len() == 1 {
        "["@ + text::dec(ids[0] as nat)
    } else {
        numbers_text(ids.drop_last()) + ", "@ + text::dec(ids.last() as nat)
    }
}

/// Numbers in brackets, with commas between them.
fn list_numbers(ids: &Vec<u64>) -> (r: String)
    ensures
        r@ == numbers_text(ids@) + "]"@,
{
    let mut s = "[".to_owned();
    let mut i: usize = 0;
    while i < ids.len()
        invariant
            i <= ids@.len(),
            s@ == numbers_text(ids@.take(i as int)),
        decreases ids.len() - i,
    {
        proof {
            assert(ids@.take(i + 1).drop_last() =~= ids@.take(i as int));
            assert(ids@.take(i + 1).last() == ids@[i as int]);
        }
        if i > 0 {
            s.append(", ");
        }
        text::push_dec(&mut s, ids[i]);
        i = i + 1;
    }
    proof {
        assert(ids@.take(ids@.len() as int) =~= ids@);
    }
    s.append("]");
    s
}

/// The lines of `wakeup info`.
pub open spec fn device_lines_of(d: WakeupDevice) -> Seq<Seq<char>> {
    output::line_if(true, "sn:          "@, d.sn@) + output::line_if(
        true,
        "name:        "@,
        d.name@,
    ) + output::line_if(true, "device_id:   "@, text::dec(d.device_id as nat)) + output::line_if(
        true,
        "mac:         "@,
        d.mac@,
    ) + output::line_if(
        true,
        "type:        "@,
        d.device_type@ + " ("@ + text::dec(d.kind as nat) + ")"@,
    ) + output::line_if(true, "model:       "@, d.model@) + output::line_if(
        true,
        "hardware:    "@,
        d.hardware_type@,
    ) + output::line_if(true, "outlets:     "@, text::dec(d.outletcount as nat)) + output::line_if(
        true,
        "enabled:     "@,
        if d.isenable {
            "true"@
        } else {
            "false"@
        },
    ) + output::line_if(true, "create_time: "@, d.create_time@) + output::line_if(
        d.description is Some,
        "memo:        "@,
        match d.description {
            Some(m) => m@,
            None => ""@,
        },
    ) + output::line_if(
        d.remote_ids@.len() > 0,
        "remote_ids:  "@,
        numbers_text(d.remote_ids@) + "]"@,
    )
}

/// The lines of `wakeup info`.
pub fn print_wakeup_device(d: &WakeupDevice) -> (r: Vec<String>)
    ensures
        text::lines_view(r@) == device_lines_of(*d),
{
    let mut lines: Vec<String> = Vec::new();
    proof {
        let first = output::line_if(true, "sn:          "@, d.sn@);
        assert(text::lines_view(lines@) + first =~= first);
    }
    output::put_line_if(&mut lines, true, "sn:          ", d.sn.as_str());
    output::put_line_if(&mut lines, true, "name:        ", d.name.as_str());
    output::put_line_if(&mut lines, true, "device_id:   ", text::dec_text(d.device_id).as_str());
    output::put_line_if(&mut lines, true, "mac:         ", d.mac.as_str());
    let mut kind = d.device_type.clone();
    kind.append(" (");
    text::push_dec(&mut kind, d.kind as u64);
    kind.append(")");
    output::put_line_if(&mut lines, true, "type:        ", kind.as_str());
    output::put_line_if(&mut lines, true, "model:       ", d.model.as_str());
    output::put_line_if(&mut lines, true, "hardware:    ", d.hardware_type.as_str());
    output::put_line_if(
        &mut lines,
        true,
        "outlets:     ",
        text::dec_text(d.outletcount as u64).as_str(),
    );
    let enabled = if d.isenable {
        "true"
    } else {
        "false"
    };
    output::put_line_if(&mut lines, true, "enabled:     ", enabled);
    output::put_line_if(&mut lines, true, "create_time: ", d.create_time.as_str());
    let memo = match &d.description {
        Some(m) => m.clone(),
        None => "".to_owned(),
    };
    output::put_line_if(&mut lines, d.description.is_some(), "memo:        ", memo.as_str());
    output::put_line_if(
        &mut lines,
        d.remote_ids.len() > 0,
        "remote_ids:  ",
        list_numbers(&d.remote_ids).as_str(),
    );
    lines
}

// ---------------------------------------------------------------------- laws

/// Renaming a device keeps its memo (a device without one gets an empty one),
/// and setting its memo keeps its name.
pub proof fn updates_keep_the_other_field(
    sn: String,
    typed: String,
    name: Seq<char>,
    memo: Seq<char>,
)
    ensures
        second_call(
            WakeupCmd::Rename { sn: Some(sn), new_name: Some(typed) },
            name,
            Some(memo),
        ) == Some(CallView::Rename(sn@, typed@, memo)),
        second_call(
            WakeupCmd::Memo { sn: Some(sn), new_memo: Some(typed) },
            name,
            Some(memo),
        ) == Some(CallView::Rename(sn@, name, typed@)),
{
}

/// Arguments that were given are never asked for: a command that gets to a
/// call leaves nothing to ask.
pub proof fn complete_commands_ask_nothing(cmd: WakeupCmd)
    requires
        first_call(cmd) is Some,
        first_call(cmd)->Some_0 is Ok,
    ensures
        questions_of(cmd).len() == 0,
{
}

/// A list asks for the page that was asked for, and a size of 0 is refused
/// before anything is sent.
pub proof fn lists_ask_for_their_page(
    req: Request,
    api_base: Seq<char>,
    slapi_base: Seq<char>,
    token: Seq<char>,
    offset: u64,
    limit: usize,
)
    requires
        limit > 0,
    ensures
        first_call(WakeupCmd::List { offset, limit: 0 }) == Some(
            Err::<CallView, Seq<char>>("--limit must be at least 1"@),
        ),
        first_call(WakeupCmd::List { offset, limit }) matches Some(Ok(call)) && (is_request(
            Ok(req),
            api_base,
            slapi_base,
            call,
            token,
        ) ==> {
            &&& req@.method == "GET"@
            &&& req@.headers.contains(("Authorization"@, "Bearer "@ + token))
            &&& url::normal_url(api_base + "/wakeup/devices"@) is Ok
            &&& req@.url == url::with_query(
                url::normal_url(api_base + "/wakeup/devices"@)->Ok_0,
                url::pairs_text(wakeup::device_query(offset as int, limit as int, None)),
            )
        }),
{
    let call = CallView::List(offset as int, limit as int);
    if is_request(Ok(req), api_base, slapi_base, call, token) {
        wakeup::list_requests_are_authorized(
            req,
            api_base,
            offset as int,
            limit as int,
            None,
            token,
        );
    }
}

/// A device is looked up by its serial number, whatever is to be done with it.
pub proof fn devices_are_looked_up_by_serial_number(
    req: Request,
    api_base: Seq<char>,
    slapi_base: Seq<char>,
    token: Seq<char>,
    sn: String,
    typed: String,
)
    ensures
        first_call(WakeupCmd::Info { sn: Some(sn) }) matches Some(Ok(call)) && (is_request(
            Ok(req),
            api_base,
            slapi_base,
            call,
            token,
        ) ==> {
            &&& req@.method == "GET"@
            &&& req@.headers.contains(("Authorization"@, "Bearer "@ + token))
            &&& url::normal_url(api_base + "/wakeup/devices"@) is Ok
            &&& req@.url == url::with_query(
                url::normal_url(api_base + "/wakeup/devices"@)->Ok_0,
                url::pairs_text(wakeup::device_query(0, 100, Some(sn@))),
            )
        }),
        url::carries(wakeup::device_query(0, 100, Some(sn@)), "sn"@, sn@),
        first_call(WakeupCmd::Rename { sn: Some(sn), new_name: Some(typed) }) == first_call(
            WakeupCmd::Info { sn: Some(sn) },
        ),
        first_call(WakeupCmd::Memo { sn: Some(sn), new_memo: Some(typed) }) == first_call(
            WakeupCmd::Info { sn: Some(sn) },
        ),
{
    if is_request(Ok(req), api_base, slapi_base, CallView::Find(sn@), token) {
        wakeup::list_requests_are_authorized(req, api_base, 0, 100, Some(sn@), token);
    }
    wakeup::pages_are_asked_for_as_given(0, 100, sn@);
}

/// An update sends the new field and the one that stays, each under its own
/// name, for the device that was named; a device without a memo keeps none.
pub proof fn updates_are_sent_whole(
    req: Request,
    noted: Request,
    api_base: Seq<char>,
    slapi_base: Seq<char>,
    token: Seq<char>,
    sn: String,
    typed: String,
    device: WakeupDevice,
)
    ensures
        update_of(
            WakeupCmd::Rename { sn: Some(sn), new_name: Some(typed) },
            device,
        ) matches Some(call) && (is_request(Ok(req), api_base, slapi_base, call, token) ==> {
            &&& req@.method == "POST"@
            &&& req@.headers.contains(("Authorization"@, "Bearer "@ + token))
            &&& req@.url == slapi_base + "/smart-plug/rename"@
            &&& req@.body == Some(
                url::pair_text(("sn"@, sn@)) + "&"@ + url::pair_text(("name"@, typed@)) + "&"@
                    + url::pair_text(
                    (
                        "description"@,
                        match device.description {
                            Some(m) => m@,
                            None => ""@,
                        },
                    ),
                ) + "&"@ + url::pair_text(("_format"@, "json"@)),
            )
        }),
        update_of(
            WakeupCmd::Memo { sn: Some(sn), new_memo: Some(typed) },
            device,
        ) matches Some(call) && (is_request(Ok(noted), api_base, slapi_base, call, token) ==> {
            &&& noted@.method == "POST"@
            &&& noted@.headers.contains(("Authorization"@, "Bearer "@ + token))
            &&& noted@.url == slapi_base + "/smart-plug/rename"@
            &&& noted@.body == Some(
                url::pair_text(("sn"@, sn@)) + "&"@ + url::pair_text(("name"@, device.name@))
                    + "&"@ + url::pair_text(("description"@, typed@)) + "&"@ + url::pair_text(
                    ("_format"@, "json"@),
                ),
            )
        }),
{
    let url = slapi_base + "/smart-plug/rename"@;
    let memo = match device.description {
        Some(m) => m@,
        None => ""@,
    };
    plug::rename_form_carries_both(url, token, sn@, typed@, memo);
    plug::rename_form_carries_both(url, token, sn@, device.name@, typed@);
    if is_request(Ok(req), api_base, slapi_base, CallView::Rename(sn@, typed@, memo), token) {
        assert(req@.headers[0] == ("Authorization"@, "Bearer "@ + token));
    }
    if is_request(
        Ok(noted),
        api_base,
        slapi_base,
        CallView::Rename(sn@, device.name@, typed@),
        token,
    ) {
        assert(noted@.headers[0] == ("Authorization"@, "Bearer "@ + token));
    }
}

/// Only the two updates make a second call, and plug commands make their own.
pub proof fn other_commands_make_one_call(
    offset: u64,
    limit: usize,
    sn: Option<String>,
    sub: PlugCmd,
    device: WakeupDevice,
)
    ensures
        update_of(WakeupCmd::List { offset, limit }, device) is None,
        update_of(WakeupCmd::Info { sn }, device) is None,
        update_of(WakeupCmd::Plug { sub }, device) is None,
        first_call(WakeupCmd::Plug { sub }) is None,
{
}

/// What an update reports is what it sent: the device that was named, and the
/// new field.
pub proof fn updates_report_what_was_sent(
    renamed: Option<Report>,
    noted: Option<Report>,
    sn: String,
    typed: String,
)
    requires
        is_report(renamed, WakeupCmd::Rename { sn: Some(sn), new_name: Some(typed) }),
        is_report(noted, WakeupCmd::Memo { sn: Some(sn), new_memo: Some(typed) }),
    ensures
        renamed is Some,
        json::member(renamed->Some_0.json@, "ok"@) == Some(Tree::Bool(true)),
        json::member(renamed->Some_0.json@, "sn"@) == Some(Tree::Str(sn@)),
        json::member(renamed->Some_0.json@, "name"@) == Some(Tree::Str(typed@)),
        renamed->Some_0.line@ == "renamed "@ + sn@ + " to '"@ + typed@ + "'"@,
        noted is Some,
        json::member(noted->Some_0.json@, "ok"@) == Some(Tree::Bool(true)),
        json::member(noted->Some_0.json@, "sn"@) == Some(Tree::Str(sn@)),
        json::member(noted->Some_0.json@, "memo"@) == Some(Tree::Str(typed@)),
        noted->Some_0.line@ == "memo of "@ + sn@ + " set to '"@ + typed@ + "'"@,
{
    reveal_strlit("ok");
    reveal_strlit("sn");
    reveal_strlit("name");
    reveal_strlit("memo");
    assert("ok"@.len() == 2 && "sn"@.len() == 2 && "name"@.len() == 4 && "memo"@.len() == 4);
    assert("ok"@[0] == 'o' && "sn"@[0] == 's' && "name"@[0] == 'n' && "memo"@[0] == 'm');
}

/// A failure is told from a success by `ok`, and says what went wrong. It is
/// printed exactly where a document was asked for, and by no plug command.
pub proof fn failures_are_not_ok(cmd: WakeupCmd, message: Seq<char>)
    ensures
        failure_of(cmd, false, message) is None,
        cmd is Plug ==> failure_of(cmd, true, message) is None,
        !(cmd is Plug) ==> failure_of(cmd, true, message) == Some(failure_tree(message)),
        json::member(failure_tree(message), "ok"@) == Some(Tree::Bool(false)),
        json::member(failure_tree(message), "error"@) == Some(Tree::Str(message)),
{
    reveal_strlit("ok");
    reveal_strlit("error");
    assert("ok"@.len() == 2 && "error"@.len() == 5);
}

/// A command that lacks an argument is refused by the name of what it lacks,
/// the serial number before the rest.
pub proof fn missing_arguments_are_named(sn: String, given: Option<String>)
    ensures
        first_call(WakeupCmd::Info { sn: None }) == Some(
            Err::<CallView, Seq<char>>("missing <SN>"@),
        ),
        first_call(WakeupCmd::Rename { sn: None, new_name: given }) == Some(
            Err::<CallView, Seq<char>>("missing <SN>"@),
        ),
        first_call(WakeupCmd::Memo { sn: None, new_memo: given }) == Some(
            Err::<CallView, Seq<char>>("missing <SN>"@),
        ),
        first_call(WakeupCmd::Rename { sn: Some(sn), new_name: None }) == Some(
            Err::<CallView, Seq<char>>("missing <NEW_NAME>"@),
        ),
        first_call(WakeupCmd::Memo { sn: Some(sn), new_memo: None }) == Some(
            Err::<CallView, Seq<char>>("missing <NEW_MEMO>"@),
        ),
{
}

/// The list and the details of a device agree on whether it is enabled, on
/// its serial number, its name and its outlets, and each line holds what its
/// label says.
#[verifier::rlimit(40)]
pub proof fn devices_are_shown_as_reported(d: WakeupDevice)
    ensures
        list_line(d) == "sn="@ + d.sn@ + " name="@ + d.name@ + " type="@ + d.device_type@
            + " outlets="@ + text::dec(d.outletcount as nat) + (if d.isenable {
            " enabled"@
        } else {
            " disabled"@
        }),
        device_lines_of(d)[0] == "sn:          "@ + d.sn@,
        device_lines_of(d)[1] == "name:        "@ + d.name@,
        device_lines_of(d)[2] == "device_id:   "@ + text::dec(d.device_id as nat),
        device_lines_of(d)[3] == "mac:         "@ + d.mac@,
        device_lines_of(d)[4] == "type:        "@ + d.device_type@ + " ("@ + text::dec(
            d.kind as nat,
        ) + ")"@,
        device_lines_of(d)[5] == "model:       "@ + d.model@,
        device_lines_of(d)[6] == "hardware:    "@ + d.hardware_type@,
        device_lines_of(d)[7] == "outlets:     "@ + text::dec(d.outletcount as nat),
        device_lines_of(d)[8] == (if d.isenable {
            "enabled:     true"@
        } else {
            "enabled:     false"@
        }),
        device_lines_of(d)[9] == "create_time: "@ + d.create_time@,
        d.description matches Some(m) ==> device_lines_of(d)[10] == "memo:        "@ + m@,
        device_lines_of(d).len() == 10 + (if d.description is Some {
            1int
        } else {
            0
        }) + (if d.remote_ids@.len() > 0 {
            1int
        } else {
            0
        }),
        d.remote_ids@.len() > 0 ==> device_lines_of(d).last() == "remote_ids:  "@ + numbers_text(
            d.remote_ids@,
        ) + "]"@,
{
    reveal_strlit(" ");
    reveal_strlit("enabled");
    reveal_strlit("disabled");
    reveal_strlit(" enabled");
    reveal_strlit(" disabled");
    reveal_strlit("enabled:     ");
    reveal_strlit("true");
    reveal_strlit("false");
    reveal_strlit("enabled:     true");
    reveal_strlit("enabled:     false");
    assert(" enabled"@ =~= " "@ + "enabled"@);
    assert(" disabled"@ =~= " "@ + "disabled"@);
    assert("enabled:     true"@ =~= "enabled:     "@ + "true"@);
    assert("enabled:     false"@ =~= "enabled:     "@ + "false"@);
    let start = "sn="@ + d.sn@ + " name="@ + d.name@ + " type="@ + d.device_type@ + " outlets="@
        + text::dec(d.outletcount as nat);
    if d.isenable {
        assert(list_line(d) =~= start + " enabled"@);
    } else {
        assert(list_line(d) =~= start + " disabled"@);
    }
    let lines = device_lines_of(d);
    assert(lines[4] =~= "type:        "@ + d.device_type@ + " ("@ + text::dec(d.kind as nat) + ")"@);
    if d.remote_ids@.len() > 0 {
        assert(lines.last() =~= "remote_ids:  "@ + numbers_text(d.remote_ids@) + "]"@);
    }
}

/// A list of numbers shows each of them, in their order, with a comma and a
/// space between one and the next.
pub proof fn numbers_are_listed_in_order(ids: Seq<u64>, next: u64)
    ensures
        numbers_text(seq![next]) + "]"@ == "["@ + text::dec(next as nat) + "]"@,
        ids.len() > 0 ==> numbers_text(ids.push(next)) == numbers_text(ids) + ", "@ + text::dec(
            next as nat,
        ),
{
    assert(ids.push(next).drop_last() =~= ids);
}

/// A command is asked for just what it lacks, the serial number first.
pub proof fn serial_numbers_are_asked_for_first(
    offset: u64,
    limit: usize,
    sn: Option<String>,
    given: Option<String>,
    sub: PlugCmd,
)
    ensures
        questions_of(WakeupCmd::List { offset, limit }).len() == 0,
        questions_of(WakeupCmd::Info { sn }).len() == (if sn is None {
            1int
        } else {
            0
        }),
        sn is None ==> questions_of(WakeupCmd::Info { sn })[0].name == "<SN>"@,
        questions_of(WakeupCmd::Rename { sn, new_name: given }).len() == (if sn is None {
            1int
        } else {
            0
        }) + (if given is None {
            1int
        } else {
            0
        }),
        sn is None ==> questions_of(WakeupCmd::Rename { sn, new_name: given })[0].name == "<SN>"@,
        given is None ==> questions_of(WakeupCmd::Rename { sn, new_name: given }).last().name
            == "<NEW_NAME>"@,
        questions_of(WakeupCmd::Memo { sn, new_memo: given }).len() == questions_of(
            WakeupCmd::Rename { sn, new_name: given },
        ).len(),
        sn is None ==> questions_of(WakeupCmd::Memo { sn, new_memo: given })[0].name == "<SN>"@,
        given is None ==> questions_of(WakeupCmd::Memo { sn, new_memo: given }).last().name
            == "<NEW_MEMO>"@,
        questions_of(WakeupCmd::Plug { sub }) == plug_cmd::questions_of(sub),
{
}

/// What was given on the command line stays: a command that lacked nothing
/// does what it did.
pub proof fn given_arguments_stay(
    cmd: WakeupCmd,
    typed: Seq<Seq<char>>,
    out: WakeupCmd,
    device: WakeupDevice,
)
    requires
        is_completed(cmd, typed, out),
        first_call(cmd) is Some,
        first_call(cmd)->Some_0 is Ok,
    ensures
        first_call(out) == first_call(cmd),
        update_of(out, device) == update_of(cmd, device),
{
}

/// What was typed is used for what was missing, in the order of the questions:
/// the serial number first, and the new text last.
pub proof fn typed_arguments_are_used(
    cmd: WakeupCmd,
    typed: Seq<Seq<char>>,
    out: WakeupCmd,
    device: WakeupDevice,
)
    requires
        is_completed(cmd, typed, out),
        typed.len() == questions_of(cmd).len(),
        typed.len() > 0,
    ensures
        cmd is Info ==> first_call(out) == Some(Ok::<CallView, Seq<char>>(CallView::Find(typed[0]))),
        cmd matches WakeupCmd::Rename { sn, new_name } ==> update_of(out, device) == Some(
            CallView::Rename(
                match sn {
                    Some(given) => given@,
                    None => typed[0],
                },
                match new_name {
                    Some(given) => given@,
                    None => typed.last(),
                },
                match device.description {
                    Some(m) => m@,
                    None => ""@,
                },
            ),
        ),
        cmd matches WakeupCmd::Memo { sn, new_memo } ==> update_of(out, device) == Some(
            CallView::Rename(
                match sn {
                    Some(given) => given@,
                    None => typed[0],
                },
                device.name@,
                match new_memo {
                    Some(given) => given@,
                    None => typed.last(),
                },
            ),
        ),
        cmd matches WakeupCmd::Plug { sub } ==> (out matches WakeupCmd::Plug { sub: s }
            && plug_cmd::is_completed(sub, typed, s)),
{
}

/// Nobody is asked for anything without `--interactive`, and nobody for what
/// the command line gave: a command that lacks nothing is completed with
/// nothing. Where something is missing and there is no terminal, it fails and
/// shows nothing.
pub proof fn only_gaps_are_asked_for(
    r: Asked<WakeupCmd>,
    cmd: WakeupCmd,
    before: SessionView,
    after: SessionView,
    is_terminal: bool,
)
    ensures
        is_filled(r, cmd, before, after, false, is_terminal) ==> r == Asked::Value(cmd) && after
            == before,
        is_filled(r, cmd, before, after, true, is_terminal) && questions_of(cmd).len() == 0 ==> r is Value
            && is_completed(cmd, Seq::empty(), r->Value_0) && after == before,
        is_filled(r, cmd, before, after, true, false) && questions_of(cmd).len() > 0 ==> r is Failed && after
            == before && r->Failed_0@ == prompt::no_terminal(questions_of(cmd), example_of(cmd)),
{
}

} // verus!
