//! The `remote` commands: what each asks the API for, in which order, and
//! what it prints.

use crate::json;
use crate::json::{Json, Tree};
use crate::output;
use crate::output::Report;
use crate::prompt;
use crate::prompt::{Asked, AskEnd, Kind, Question, QuestionView, Session, SessionView};
use crate::remote;
use crate::remote::{ConsoleRemote, Remote, RemoteApi, RemoteState, RemoteUpdate, RemotesResponse};
use crate::schedule;
use crate::text;
use crate::times;
use crate::trace::{Request, RequestView};
use vstd::prelude::*;
use vstd::string::*;

verus! {

broadcast use vstd::seq_lib::group_seq_properties;

/// A `remote` command.
#[derive(Debug)]
pub enum RemoteCmd {
    /// List remote devices.
    List,
    /// Show extended detail for one remote.
    Info { id: Option<u64> },
    /// Show runtime status of one remote.
    Status { id: Option<u64> },
    /// Rename a remote device.
    Rename { id: Option<u64>, new_name: Option<String> },
    /// Set the memo of a remote device.
    Memo { id: Option<u64>, new_memo: Option<String> },
}

// ------------------------------------------------------------- missing arguments

/// The question for a remote id.
pub open spec fn id_question() -> QuestionView {
    QuestionView {
        name: "<ID>"@,
        label: "Remote id"@,
        kind: Kind::Number(u64::MAX),
        default: None,
    }
}

/// The questions for what is missing.
pub open spec fn questions_of(cmd: RemoteCmd) -> Seq<QuestionView> {
    match cmd {
        RemoteCmd::List => seq![],
        RemoteCmd::Info { id } => if id is None {
            seq![id_question()]
        } else {
            seq![]
        },
        RemoteCmd::Status { id } => if id is None {
            seq![id_question()]
        } else {
            seq![]
        },
        RemoteCmd::Rename { id, new_name } => {
            let first: Seq<QuestionView> = if id is None {
                seq![id_question()]
            } else {
                seq![]
            };
            if new_name is None {
                first.push(prompt::text_question("<NEW_NAME>"@, "New device name"@))
            } else {
                first
            }
        },
        RemoteCmd::Memo { id, new_memo } => {
            let first: Seq<QuestionView> = if id is None {
                seq![id_question()]
            } else {
                seq![]
            };
            if new_memo is None {
                first.push(prompt::text_question("<NEW_MEMO>"@, "New memo"@))
            } else {
                first
            }
        },
    }
}

/// The command line that leaves nothing out.
pub open spec fn example_of(cmd: RemoteCmd) -> Seq<char> {
    match cmd {
        RemoteCmd::List => "oray-tools remote list"@,
        RemoteCmd::Info { .. } => "oray-tools remote info <id>"@,
        RemoteCmd::Status { .. } => "oray-tools remote status <id>"@,
        RemoteCmd::Rename { .. } => "oray-tools remote rename <id> <new_name>"@,
        RemoteCmd::Memo { .. } => "oray-tools remote memo <id> <new_memo>"@,
    }
}

/// Whether `out` is `cmd` with what was missing replaced by what was typed.
pub open spec fn is_completed(cmd: RemoteCmd, typed: Seq<Seq<char>>, out: RemoteCmd) -> bool {
    match (cmd, out) {
        (RemoteCmd::List, RemoteCmd::List) => true,
        (RemoteCmd::Info { id }, RemoteCmd::Info { id: n }) => prompt::opt_number(n)
            == prompt::number_or_typed(prompt::opt_number(id), typed),
        (RemoteCmd::Status { id }, RemoteCmd::Status { id: n }) => prompt::opt_number(n)
            == prompt::number_or_typed(prompt::opt_number(id), typed),
        (RemoteCmd::Rename { id, new_name }, RemoteCmd::Rename { id: n, new_name: s }) => {
            &&& prompt::opt_number(n) == prompt::number_or_typed(prompt::opt_number(id), typed)
            &&& text::opt_view(s) == prompt::given_or_typed(
                text::opt_view(new_name),
                prompt::typed_after(id is Some, typed),
            )
        },
        (RemoteCmd::Memo { id, new_memo }, RemoteCmd::Memo { id: n, new_memo: s }) => {
            &&& prompt::opt_number(n) == prompt::number_or_typed(prompt::opt_number(id), typed)
            &&& text::opt_view(s) == prompt::given_or_typed(
                text::opt_view(new_memo),
                prompt::typed_after(id is Some, typed),
            )
        },
        _ => false,
    }
}

/// The questions for what is missing.
fn questions(cmd: &RemoteCmd) -> (r: Vec<Question>)
    ensures
        prompt::questions_view(r@) == questions_of(*cmd),
{
    let mut qs: Vec<Question> = Vec::new();
    proof {
        assert(prompt::questions_view(qs@) =~= seq![]);
    }
    let no_id = match cmd {
        RemoteCmd::List => false,
        RemoteCmd::Info { id } => id.is_none(),
        RemoteCmd::Status { id } => id.is_none(),
        RemoteCmd::Rename { id, new_name: _ } => id.is_none(),
        RemoteCmd::Memo { id, new_memo: _ } => id.is_none(),
    };
    if no_id {
        prompt::ask_for(&mut qs, "<ID>", "Remote id", Kind::Number(u64::MAX), None);
        proof {
            assert(prompt::questions_view(qs@) =~= seq![id_question()]);
        }
    }
    match cmd {
        RemoteCmd::Rename { id: _, new_name } => {
            if new_name.is_none() {
                prompt::ask_for_text(&mut qs, "<NEW_NAME>", "New device name");
            }
        },
        RemoteCmd::Memo { id: _, new_memo } => {
            if new_memo.is_none() {
                prompt::ask_for_text(&mut qs, "<NEW_MEMO>", "New memo");
            }
        },
        _ => {},
    }
    qs
}

/// The command line that leaves nothing out.
fn example(cmd: &RemoteCmd) -> (r: &'static str)
    ensures
        r@ == example_of(*cmd),
{
    match cmd {
        RemoteCmd::List => "oray-tools remote list",
        RemoteCmd::Info { .. } => "oray-tools remote info <id>",
        RemoteCmd::Status { .. } => "oray-tools remote status <id>",
        RemoteCmd::Rename { .. } => "oray-tools remote rename <id> <new_name>",
        RemoteCmd::Memo { .. } => "oray-tools remote memo <id> <new_memo>",
    }
}

/// Fills in what was typed.
fn complete(cmd: RemoteCmd, typed: Vec<String>) -> (r: RemoteCmd)
    ensures
        is_completed(cmd, text::lines_view(typed@), r),
{
    let mut typed = typed;
    match cmd {
        RemoteCmd::List => RemoteCmd::List,
        RemoteCmd::Info { id } => RemoteCmd::Info { id: prompt::take_number(id, &mut typed) },
        RemoteCmd::Status { id } => RemoteCmd::Status { id: prompt::take_number(id, &mut typed) },
        RemoteCmd::Rename { id, new_name } => {
            let id = prompt::take_number(id, &mut typed);
            RemoteCmd::Rename { id, new_name: prompt::take_text(new_name, &mut typed) }
        },
        RemoteCmd::Memo { id, new_memo } => {
            let id = prompt::take_number(id, &mut typed);
            RemoteCmd::Memo { id, new_memo: prompt::take_text(new_memo, &mut typed) }
        },
    }
}

/// Whether `r` is what filling in the arguments of a command comes to, and
/// `after` the session then.
pub open spec fn is_filled(
    r: Asked<RemoteCmd>,
    cmd: RemoteCmd,
    before: SessionView,
    after: SessionView,
    interactive: bool,
    is_terminal: bool,
) -> bool {
    if interactive {
        let f = prompt::filled(before, questions_of(cmd), example_of(cmd), is_terminal);
        &&& after == f.1
        &&& match f.0 {
            AskEnd::Value(typed) => r is Value && is_completed(cmd, typed, r->Value_0),
            AskEnd::Failed(m) => r is Failed && r->Failed_0@ == m,
            AskEnd::Waiting(secret) => r == Asked::<RemoteCmd>::Waiting(secret),
        }
    } else {
        r == Asked::Value(cmd) && after == before
    }
}

/// `--interactive`: asks for the arguments that the command line left out.
/// Without the flag nothing is ever asked.
pub fn fill(cmd: RemoteCmd, interactive: bool, io: &mut Session, is_terminal: bool) -> (r: Asked<
    RemoteCmd,
>)
    ensures
        is_filled(r, cmd, old(io)@, final(io)@, interactive, is_terminal),
        !interactive ==> *final(io) == *old(io),
{
    if !interactive {
        return Asked::Value(cmd);
    }
    let qs = questions(&cmd);
    match prompt::fill_arguments(io, &qs, example(&cmd), is_terminal) {
        Asked::Value(typed) => Asked::Value(complete(cmd, typed)),
        Asked::Failed(m) => Asked::Failed(m),
        Asked::Waiting(secret) => Asked::Waiting(secret),
    }
}

// ------------------------------------------------------------------------- calls

/// An API call that a command makes.
pub enum RemoteCall {
    /// List the remotes.
    List,
    /// Look one up in the list.
    Find(u64),
    /// Fetch its detail.
    Detail(u64),
    /// Set its name and its memo.
    Update(u64, String, String),
}

/// An API call that a command makes.
pub enum CallView {
    List,
    Find(int),
    Detail(int),
    Update(int, Seq<char>, Seq<char>),
}

impl View for RemoteCall {
    type V = CallView;

    open spec fn view(&self) -> CallView {
        match self {
            RemoteCall::List => CallView::List,
            RemoteCall::Find(id) => CallView::Find(*id as int),
            RemoteCall::Detail(id) => CallView::Detail(*id as int),
            RemoteCall::Update(id, name, memo) => CallView::Update(*id as int, name@, memo@),
        }
    }
}

/// The request of a call.
pub open spec fn request_of(api_base: Seq<char>, call: CallView, token: Seq<char>) -> RequestView {
    match call {
        CallView::List => remote::remote_request(
            "GET"@,
            remote::remotes_at(api_base, 0, remote::REMOTE_PAGE_LIMIT as int),
            token,
            None,
        ),
        CallView::Find(_) => remote::remote_request(
            "GET"@,
            remote::remotes_at(api_base, 0, remote::REMOTE_PAGE_LIMIT as int),
            token,
            None,
        ),
        CallView::Detail(id) => remote::remote_request(
            "GET"@,
            api_base + "/console/remotes/"@ + text::dec(id as nat)
                + "?with_powerplan=true&with_extend=true&new_server=1"@,
            token,
            None,
        ),
        CallView::Update(id, name, memo) => remote::remote_request(
            "PATCH"@,
            api_base + "/remotes/"@ + text::dec(id as nat) + "/info"@,
            token,
            Some(remote::update_text(name, memo, 1)),
        ),
    }
}

impl RemoteCall {
    /// The request of a call.
    pub fn request(&self, api: &RemoteApi, token: &str) -> (r: Request)
        ensures
            r@ == request_of(api.api_base@, self@, token@),
    {
        match self {
            RemoteCall::List => api.list(token, 0, remote::REMOTE_PAGE_LIMIT),
            RemoteCall::Find(_) => api.find(token),
            RemoteCall::Detail(id) => api.detail(token, *id),
            RemoteCall::Update(id, name, memo) => api.update(
                token,
                *id,
                &RemoteUpdate::new(name.as_str(), memo.as_str()),
            ),
        }
    }
}

/// The first call of a command, or what is missing.
pub open spec fn first_call(cmd: RemoteCmd) -> Result<CallView, Seq<char>> {
    match cmd {
        RemoteCmd::List => Ok(CallView::List),
        RemoteCmd::Info { id } => match id {
            Some(id) => Ok(CallView::Detail(id as int)),
            None => Err("missing <ID>"@),
        },
        RemoteCmd::Status { id } => match id {
            Some(id) => Ok(CallView::Find(id as int)),
            None => Err("missing <ID>"@),
        },
        RemoteCmd::Rename { id, new_name } => match (id, new_name) {
            (None, _) => Err("missing <ID>"@),
            (Some(_), None) => Err("missing <NEW_NAME>"@),
            (Some(id), Some(_)) => Ok(CallView::Find(id as int)),
        },
        RemoteCmd::Memo { id, new_memo } => match (id, new_memo) {
            (None, _) => Err("missing <ID>"@),
            (Some(_), None) => Err("missing <NEW_MEMO>"@),
            (Some(id), Some(_)) => Ok(CallView::Find(id as int)),
        },
    }
}

/// The first call of a command, or what is missing.
pub fn start(cmd: &RemoteCmd) -> (r: Result<RemoteCall, String>)
    ensures
        match first_call(*cmd) {
            Ok(call) => r matches Ok(c) && c@ == call,
            Err(m) => r matches Err(s) && s@ == m,
        },
{
    match cmd {
        RemoteCmd::List => Ok(RemoteCall::List),
        RemoteCmd::Info { id } => match id {
            Some(id) => Ok(RemoteCall::Detail(*id)),
            None => Err("missing <ID>".to_owned()),
        },
        RemoteCmd::Status { id } => match id {
            Some(id) => Ok(RemoteCall::Find(*id)),
            None => Err("missing <ID>".to_owned()),
        },
        RemoteCmd::Rename { id, new_name } => match id {
            Some(id) => if new_name.is_none() {
                Err("missing <NEW_NAME>".to_owned())
            } else {
                Ok(RemoteCall::Find(*id))
            },
            None => Err("missing <ID>".to_owned()),
        },
        RemoteCmd::Memo { id, new_memo } => match id {
            Some(id) => if new_memo.is_none() {
                Err("missing <NEW_MEMO>".to_owned())
            } else {
                Ok(RemoteCall::Find(*id))
            },
            None => Err("missing <ID>".to_owned()),
        },
    }
}

/// The call that follows once the remote was found.
pub open spec fn second_call(cmd: RemoteCmd, name: Seq<char>, memo: Seq<char>) -> Option<CallView> {
    match cmd {
        RemoteCmd::Rename { id: Some(id), new_name: Some(new_name) } => Some(
            CallView::Update(id as int, new_name@, memo),
        ),
        RemoteCmd::Memo { id: Some(id), new_memo: Some(new_memo) } => Some(
            CallView::Update(id as int, name, new_memo@),
        ),
        _ => None,
    }
}

/// The call that follows once the remote was found, as it is now.
pub open spec fn update_of(cmd: RemoteCmd, current: Remote) -> Option<CallView> {
    second_call(cmd, current.info.name@, current.info.description@)
}

/// The call that follows once the remote was found: an update always sets
/// both fields, so the one that is to stay is sent as it is.
pub fn after_find(cmd: &RemoteCmd, current: &Remote) -> (r: Option<RemoteCall>)
    ensures
        match update_of(*cmd, *current) {
            Some(call) => r matches Some(c) && c@ == call,
            None => r is None,
        },
{
    match cmd {
        RemoteCmd::Rename { id: Some(id), new_name: Some(new_name) } => Some(
            RemoteCall::Update(*id, new_name.clone(), current.info.description.clone()),
        ),
        RemoteCmd::Memo { id: Some(id), new_memo: Some(new_memo) } => Some(
            RemoteCall::Update(*id, current.info.name.clone(), new_memo.clone()),
        ),
        _ => None,
    }
}

// ------------------------------------------------------------------------ output

/// The document of a renamed remote.
pub open spec fn renamed_tree(id: int, name: Seq<char>) -> Tree {
    Tree::Object(
        map!["ok"@ => Tree::Bool(true), "id"@ => json::int_tree(id), "name"@ => Tree::Str(name)],
    )
}

/// `--json` body of `remote rename`.
pub fn json_renamed(id: u64, name: &str) -> (r: Json)
    ensures
        r@ == renamed_tree(id as int, name@),
{
    let mut f: Vec<(String, Json)> = Vec::new();
    json::put(&mut f, "ok", Json::Bool(true));
    json::put(&mut f, "id", Json::UInt(id));
    json::put(&mut f, "name", json::json_str(name));
    Json::Object(f)
}

/// The document of a remote with a new memo.
pub open spec fn memo_tree(id: int, memo: Seq<char>) -> Tree {
    Tree::Object(
        map!["ok"@ => Tree::Bool(true), "id"@ => json::int_tree(id), "memo"@ => Tree::Str(memo)],
    )
}

/// `--json` body of `remote memo`.
pub fn json_memo(id: u64, memo: &str) -> (r: Json)
    ensures
        r@ == memo_tree(id as int, memo@),
{
    let mut f: Vec<(String, Json)> = Vec::new();
    json::put(&mut f, "ok", Json::Bool(true));
    json::put(&mut f, "id", Json::UInt(id));
    json::put(&mut f, "memo", json::json_str(memo));
    Json::Object(f)
}

/// What a command that changed something reports.
pub open spec fn is_report(r: Option<Report>, cmd: RemoteCmd) -> bool {
    match cmd {
        RemoteCmd::Rename { id: Some(id), new_name: Some(name) } => r matches Some(report)
            && report.json@ == renamed_tree(id as int, name@) && report.line@ == "renamed remote "@
            + text::dec(id as nat) + " to '"@ + name@ + "'"@,
        RemoteCmd::Memo { id: Some(id), new_memo: Some(memo) } => r matches Some(report)
            && report.json@ == memo_tree(id as int, memo@) && report.line@ == "memo of remote "@
            + text::dec(id as nat) + " set to '"@ + memo@ + "'"@,
        _ => r is None,
    }
}

/// What a command reports once its update went through.
pub fn after_update(cmd: &RemoteCmd) -> (r: Option<Report>)
    ensures
        is_report(r, *cmd),
{
    match cmd {
        RemoteCmd::Rename { id: Some(id), new_name: Some(name) } => {
            let mut line = "renamed remote ".to_owned();
            text::push_dec(&mut line, *id);
            line.append(" to '");
            line.append(name.as_str());
            line.append("'");
            Some(Report { json: json_renamed(*id, name.as_str()), line })
        },
        RemoteCmd::Memo { id: Some(id), new_memo: Some(memo) } => {
            let mut line = "memo of remote ".to_owned();
            text::push_dec(&mut line, *id);
            line.append(" set to '");
            line.append(memo.as_str());
            line.append("'");
            Some(Report { json: json_memo(*id, memo.as_str()), line })
        },
        _ => None,
    }
}

/// Whether a remote is online.
pub open spec fn is_up(state: Option<RemoteState>) -> bool {
    state is Some && state->Some_0.online()
}

/// Online or offline.
pub open spec fn state_word(up: bool) -> Seq<char> {
    if up {
        "online"@
    } else {
        "offline"@
    }
}

/// Online or offline.
fn state_text(state: &Option<RemoteState>) -> (r: &'static str)
    ensures
        r@ == state_word(is_up(*state)),
{
    match state {
        Some(s) => if s.is_online() {
            "online"
        } else {
            "offline"
        },
        None => "offline",
    }
}

/// The line of one remote in the list.
pub open spec fn list_line(r: Remote) -> Seq<char> {
    let base = "id="@ + text::dec(r.remote_id as nat) + " name="@ + r.info.name@ + " os="@
        + r.info.os_name@ + " client="@ + r.client@ + " "@ + state_word(is_up(r.state));
    if r.info.description@.len() == 0 {
        base
    } else {
        base + " memo="@ + r.info.description@
    }
}

/// The lines of `remote list`.
pub fn list_lines(resp: &RemotesResponse) -> (r: Vec<String>)
    ensures
        text::lines_view(r@) == resp.remotes@.map_values(|x: Remote| list_line(x)),
{
    let mut lines: Vec<String> = Vec::new();
    let ghost f = |x: Remote| list_line(x);
    let mut i: usize = 0;
    proof {
        assert(text::lines_view(lines@) =~= resp.remotes@.take(0).map_values(f));
    }
    while i < resp.remotes.len()
        invariant
            i <= resp.remotes@.len(),
            f == (|x: Remote| list_line(x)),
            text::lines_view(lines@) == resp.remotes@.take(i as int).map_values(f),
        decreases resp.remotes.len() - i,
    {
        let x = &resp.remotes[i];
        let mut s = "id=".to_owned();
        text::push_dec(&mut s, x.remote_id);
        s.append(" name=");
        s.append(x.info.name.as_str());
        s.append(" os=");
        s.append(x.info.os_name.as_str());
        s.append(" client=");
        s.append(x.client.as_str());
        s.append(" ");
        s.append(state_text(&x.state));
        if !text::is_empty(&x.info.description) {
            s.append(" memo=");
            s.append(x.info.description.as_str());
        }
        proof {
            assert(resp.remotes@.take(i + 1) =~= resp.remotes@.take(i as int).push(*x));
            assert(resp.remotes@.take(i + 1).map_values(f) =~= resp.remotes@.take(
                i as int,
            ).map_values(f).push(s@));
        }
        text::add_line(&mut lines, s);
        i = i + 1;
    }
    proof {
        assert(resp.remotes@.take(resp.remotes@.len() as int) =~= resp.remotes@);
    }
    lines
}

/// The state lines of `remote info`.
pub open spec fn info_state_lines(state: Option<RemoteState>) -> Seq<Seq<char>> {
    match state {
        Some(s) => output::line_if(true, "state:        "@, state_word(s.online())) + output::line_if(
            s.ip@.len() > 0,
            "ip:           "@,
            s.ip@,
        ) + output::line_if(
            s.login_time > 0,
            "login_time:   "@,
            times::shown_time(schedule::signed(s.login_time)),
        ),
        None => output::line_if(true, "state:        "@, "offline"@),
    }
}

/// The lines of `remote info`.
pub open spec fn info_lines_of(d: ConsoleRemote) -> Seq<Seq<char>> {
    output::line_if(true, "id:           "@, text::dec(d.remote_id as nat)) + output::line_if(
        true,
        "name:         "@,
        d.info.name@,
    ) + output::line_if(true, "mac:          "@, d.mac@) + output::line_if(
        true,
        "client:       "@,
        d.client@ + " "@ + d.info.version@,
    ) + output::line_if(true, "os:           "@, d.info.os_name@) + output::line_if(
        true,
        "cpu:          "@,
        d.info.cpu@,
    ) + output::line_if(true, "memory:       "@, d.info.memory@) + output::line_if(
        d.info.screen_size@.len() > 0,
        "screen:       "@,
        d.info.screen_size@,
    ) + output::line_if(d.info.description@.len() > 0, "memo:         "@, d.info.description@)
        + info_state_lines(d.state)
}

/// The lines of `remote info`.
pub fn info_lines(d: &ConsoleRemote) -> (r: Vec<String>)
    ensures
        text::lines_view(r@) == info_lines_of(*d),
{
    let mut lines: Vec<String> = Vec::new();
    proof {
        let first = output::line_if(true, "id:           "@, text::dec(d.remote_id as nat));
        assert(text::lines_view(lines@) + first =~= first);
    }
    output::put_line_if(&mut lines, true, "id:           ", text::dec_text(d.remote_id).as_str());
    output::put_line_if(&mut lines, true, "name:         ", d.info.name.as_str());
    output::put_line_if(&mut lines, true, "mac:          ", d.mac.as_str());
    let mut client = d.client.clone();
    client.append(" ");
    client.append(d.info.version.as_str());
    output::put_line_if(&mut lines, true, "client:       ", client.as_str());
    output::put_line_if(&mut lines, true, "os:           ", d.info.os_name.as_str());
    output::put_line_if(&mut lines, true, "cpu:          ", d.info.cpu.as_str());
    output::put_line_if(&mut lines, true, "memory:       ", d.info.memory.as_str());
    output::put_line_if(
        &mut lines,
        !text::is_empty(&d.info.screen_size),
        "screen:       ",
        d.info.screen_size.as_str(),
    );
    output::put_line_if(
        &mut lines,
        !text::is_empty(&d.info.description),
        "memo:         ",
        d.info.description.as_str(),
    );
    let ghost head = text::lines_view(lines@);
    match &d.state {
        Some(s) => {
            output::put_line_if(&mut lines, true, "state:        ", state_text(&d.state));
            output::put_line_if(&mut lines, !text::is_empty(&s.ip), "ip:           ", s.ip.as_str());
            output::put_line_if(
                &mut lines,
                s.login_time > 0,
                "login_time:   ",
                times::human_time(schedule::to_signed(s.login_time)).as_str(),
            );
        },
        None => {
            output::put_line_if(&mut lines, true, "state:        ", "offline");
        },
    }
    proof {
        assert(text::lines_view(lines@) =~= head + info_state_lines(d.state));
    }
    lines
}

/// The state lines of `remote status`.
pub open spec fn status_state_lines(state: Option<RemoteState>) -> Seq<Seq<char>> {
    match state {
        Some(s) => output::line_if(s.ip@.len() > 0, "ip="@, s.ip@) + output::line_if(
            s.login_time > 0,
            "login_time="@,
            times::shown_time(schedule::signed(s.login_time)),
        ) + output::line_if(s.fastcode@.len() > 0, "fastcode="@, s.fastcode@),
        None => seq![],
    }
}

/// The lines of `remote status`.
pub open spec fn status_lines_of(r: Remote) -> Seq<Seq<char>> {
    output::line_if(
        true,
        "id="@,
        text::dec(r.remote_id as nat) + " name="@ + r.info.name@ + " status="@ + state_word(
            is_up(r.state),
        ),
    ) + status_state_lines(r.state) + output::line_if(
        true,
        "client="@,
        r.client@ + " os="@ + r.info.os_name@,
    )
}

/// The lines of `remote status`.
pub fn status_lines(x: &Remote) -> (r: Vec<String>)
    ensures
        text::lines_view(r@) == status_lines_of(*x),
{
    let mut lines: Vec<String> = Vec::new();
    let mut first = text::dec_text(x.remote_id);
    first.append(" name=");
    first.append(x.info.name.as_str());
    first.append(" status=");
    first.append(state_text(&x.state));
    proof {
        let shown = output::line_if(true, "id="@, first@);
        assert(text::lines_view(lines@) + shown =~= shown);
    }
    output::put_line_if(&mut lines, true, "id=", first.as_str());
    let ghost head = text::lines_view(lines@);
    match &x.state {
        Some(s) => {
            output::put_line_if(&mut lines, !text::is_empty(&s.ip), "ip=", s.ip.as_str());
            output::put_line_if(
                &mut lines,
                s.login_time > 0,
                "login_time=",
                times::human_time(schedule::to_signed(s.login_time)).as_str(),
            );
            output::put_line_if(
                &mut lines,
                !text::is_empty(&s.fastcode),
                "fastcode=",
                s.fastcode.as_str(),
            );
        },
        None => {},
    }
    proof {
        assert(text::lines_view(lines@) =~= head + status_state_lines(x.state));
    }
    let mut last = x.client.clone();
    last.append(" os=");
    last.append(x.info.os_name.as_str());
    output::put_line_if(&mut lines, true, "client=", last.as_str());
    lines
}

// ---------------------------------------------------------------------- laws

/// Renaming a remote keeps its memo, and setting its memo keeps its name.
pub proof fn updates_keep_the_other_field(
    id: u64,
    typed: String,
    name: Seq<char>,
    memo: Seq<char>,
)
    ensures
        second_call(
            RemoteCmd::Rename { id: Some(id), new_name: Some(typed) },
            name,
            memo,
        ) == Some(CallView::Update(id as int, typed@, memo)),
        second_call(
            RemoteCmd::Memo { id: Some(id), new_memo: Some(typed) },
            name,
            memo,
        ) == Some(CallView::Update(id as int, name, typed@)),
{
}

/// Arguments that were given are never asked for: a command that leaves
/// nothing out asks nothing and stays as it is.
pub proof fn complete_commands_ask_nothing(cmd: RemoteCmd)
    requires
        first_call(cmd) is Ok,
    ensures
        questions_of(cmd).len() == 0,
{
}

/// Whether a remote has something in its state block.
spec fn block_is_filled(state: Option<RemoteState>) -> bool {
    match state {
        Some(s) => !(s.addr@ =~= ""@ && s.version@ =~= ""@ && s.ip@ =~= ""@ && s.fastcode@ =~= ""@
            && s.login_time == 0 && s.owner_id == 0),
        None => false,
    }
}

/// A remote is online exactly where it has a state block with something in
/// it.
proof fn filled_blocks_are_online(state: Option<RemoteState>)
    ensures
        is_up(state) <==> block_is_filled(state),
{
    reveal_strlit("");
}

/// `remote status` says that a remote is online exactly where the remote has a
/// state block with something in it, and offline where it has none or an empty
/// one; the line names the remote that was asked for.
pub proof fn status_says_whether_the_remote_is_up(r: Remote)
    ensures
        ({
            let start = "id="@ + text::dec(r.remote_id as nat) + " name="@ + r.info.name@;
            &&& status_lines_of(r).len() >= 2
            &&& r.state is None ==> status_lines_of(r)[0] == start + " status=offline"@
            &&& r.state matches Some(s) ==> (s.addr@ == ""@ && s.version@ == ""@ && s.ip@ == ""@
                && s.fastcode@ == ""@ && s.login_time == 0 && s.owner_id == 0)
                ==> status_lines_of(r)[0] == start + " status=offline"@
            &&& r.state matches Some(s) ==> !(s.addr@ == ""@ && s.version@ == ""@ && s.ip@ == ""@
                && s.fastcode@ == ""@ && s.login_time == 0 && s.owner_id == 0)
                ==> status_lines_of(r)[0] == start + " status=online"@
            &&& status_lines_of(r).last() == "client="@ + r.client@ + " os="@ + r.info.os_name@
        }),
{
    filled_blocks_are_online(r.state);
    reveal_strlit(" status=");
    reveal_strlit("online");
    reveal_strlit("offline");
    reveal_strlit(" status=online");
    reveal_strlit(" status=offline");
    assert(" status=online"@ =~= " status="@ + "online"@);
    assert(" status=offline"@ =~= " status="@ + "offline"@);
    let start = "id="@ + text::dec(r.remote_id as nat) + " name="@ + r.info.name@;
    if is_up(r.state) {
        assert(status_lines_of(r)[0] =~= start + " status=online"@);
    } else {
        assert(status_lines_of(r)[0] =~= start + " status=offline"@);
    }
    assert(status_lines_of(r).last() =~= "client="@ + r.client@ + " os="@ + r.info.os_name@);
}

/// `remote list` and `remote info` use the word that `remote status` uses for
/// one and the same state.
#[verifier::rlimit(40)]
pub proof fn all_views_agree_on_the_state(r: Remote, d: ConsoleRemote)
    requires
        d.state == r.state,
    ensures
        ({
            let start = "id="@ + text::dec(r.remote_id as nat) + " name="@ + r.info.name@;
            let listed = start + " os="@ + r.info.os_name@ + " client="@ + r.client@;
            let memo = if r.info.description@.len() == 0 {
                Seq::<char>::empty()
            } else {
                " memo="@ + r.info.description@
            };
            ||| {
                &&& status_lines_of(r)[0] == start + " status=online"@
                &&& list_line(r) == listed + " online"@ + memo
                &&& info_state_lines(d.state)[0] == "state:        online"@
            }
            ||| {
                &&& status_lines_of(r)[0] == start + " status=offline"@
                &&& list_line(r) == listed + " offline"@ + memo
                &&& info_state_lines(d.state)[0] == "state:        offline"@
            }
        }),
{
    status_says_whether_the_remote_is_up(r);
    filled_blocks_are_online(r.state);
    reveal_strlit(" ");
    reveal_strlit("online");
    reveal_strlit("offline");
    reveal_strlit(" online");
    reveal_strlit(" offline");
    reveal_strlit("state:        ");
    reveal_strlit("state:        online");
    reveal_strlit("state:        offline");
    assert(" online"@ =~= " "@ + "online"@);
    assert(" offline"@ =~= " "@ + "offline"@);
    assert("state:        online"@ =~= "state:        "@ + "online"@);
    assert("state:        offline"@ =~= "state:        "@ + "offline"@);
    let start = "id="@ + text::dec(r.remote_id as nat) + " name="@ + r.info.name@;
    let listed = start + " os="@ + r.info.os_name@ + " client="@ + r.client@;
    let memo = if r.info.description@.len() == 0 {
        Seq::<char>::empty()
    } else {
        " memo="@ + r.info.description@
    };
    if is_up(r.state) {
        assert(list_line(r) =~= listed + " online"@ + memo);
    } else {
        assert(list_line(r) =~= listed + " offline"@ + memo);
    }
}

/// `remote status` shows the address, the time of login and the code of a
/// remote, each where it has one and only there.
pub proof fn status_shows_what_the_state_has(r: Remote, s: RemoteState)
    requires
        r.state == Some(s),
    ensures
        status_lines_of(r).len() == 2 + (if s.ip@.len() > 0 {
            1int
        } else {
            0
        }) + (if s.login_time > 0 {
            1int
        } else {
            0
        }) + (if s.fastcode@.len() > 0 {
            1int
        } else {
            0
        }),
        s.ip@.len() > 0 ==> status_lines_of(r)[1] == "ip="@ + s.ip@,
        s.login_time > 0 ==> status_lines_of(r).contains(
            "login_time="@ + times::shown_time(schedule::signed(s.login_time)),
        ),
        s.fastcode@.len() > 0 ==> status_lines_of(r)[status_lines_of(r).len() - 2] == "fastcode="@
            + s.fastcode@,
{
    let lines = status_lines_of(r);
    let at: int = if s.ip@.len() > 0 {
        2
    } else {
        1
    };
    if s.login_time > 0 {
        assert(lines[at] == "login_time="@ + times::shown_time(schedule::signed(s.login_time)));
    }
}

/// A remote without a state block has nothing but its first and its last line.
pub proof fn absent_states_show_nothing(r: Remote)
    requires
        r.state is None,
    ensures
        status_lines_of(r).len() == 2,
{
}

/// `remote info` shows every field of a remote under its own label, the screen
/// and the memo where there are any, and the state behind them.
#[verifier::rlimit(60)]
pub proof fn info_shows_every_field(d: ConsoleRemote)
    ensures
        info_lines_of(d)[0] == "id:           "@ + text::dec(d.remote_id as nat),
        info_lines_of(d)[1] == "name:         "@ + d.info.name@,
        info_lines_of(d)[2] == "mac:          "@ + d.mac@,
        info_lines_of(d)[3] == "client:       "@ + d.client@ + " "@ + d.info.version@,
        info_lines_of(d)[4] == "os:           "@ + d.info.os_name@,
        info_lines_of(d)[5] == "cpu:          "@ + d.info.cpu@,
        info_lines_of(d)[6] == "memory:       "@ + d.info.memory@,
        d.info.screen_size@.len() > 0 ==> info_lines_of(d)[7] == "screen:       "@
            + d.info.screen_size@,
        d.info.description@.len() > 0 ==> info_lines_of(d)[if d.info.screen_size@.len() > 0 {
            8
        } else {
            7
        }] == "memo:         "@ + d.info.description@,
        info_lines_of(d).len() == 7 + (if d.info.screen_size@.len() > 0 {
            1int
        } else {
            0
        }) + (if d.info.description@.len() > 0 {
            1int
        } else {
            0
        }) + info_state_lines(d.state).len(),
        info_lines_of(d).skip(info_lines_of(d).len() - info_state_lines(d.state).len())
            == info_state_lines(d.state),
{
    let lines = info_lines_of(d);
    let screen = output::line_if(
        d.info.screen_size@.len() > 0,
        "screen:       "@,
        d.info.screen_size@,
    );
    let memo = output::line_if(
        d.info.description@.len() > 0,
        "memo:         "@,
        d.info.description@,
    );
    let client = "client:       "@ + d.client@ + " "@ + d.info.version@;
    assert("client:       "@ + (d.client@ + " "@ + d.info.version@) =~= client);
    let fixed = seq![
        "id:           "@ + text::dec(d.remote_id as nat),
        "name:         "@ + d.info.name@,
        "mac:          "@ + d.mac@,
        client,
        "os:           "@ + d.info.os_name@,
        "cpu:          "@ + d.info.cpu@,
        "memory:       "@ + d.info.memory@,
    ];
    let state = info_state_lines(d.state);
    assert(lines =~= fixed + screen + memo + state);
    assert(lines.skip(lines.len() - state.len()) =~= state);
}

/// `remote info` shows the address and the time of login of a remote, each
/// where it has one and only there.
pub proof fn info_shows_what_the_state_has(s: RemoteState)
    ensures
        info_state_lines(Some(s)).len() == 1 + (if s.ip@.len() > 0 {
            1int
        } else {
            0
        }) + (if s.login_time > 0 {
            1int
        } else {
            0
        }),
        s.ip@.len() > 0 ==> info_state_lines(Some(s))[1] == "ip:           "@ + s.ip@,
        s.login_time > 0 ==> info_state_lines(Some(s)).last() == "login_time:   "@
            + times::shown_time(schedule::signed(s.login_time)),
        info_state_lines(None).len() == 1,
{
}

/// A remote is looked up in the list: the list, the status and the two updates
/// start with one and the same request, and details are asked for by id.
pub proof fn lookups_read_the_first_page(api_base: Seq<char>, token: Seq<char>, id: u64)
    ensures
        first_call(RemoteCmd::List) matches Ok(all) && {
            &&& request_of(api_base, all, token).method == "GET"@
            &&& request_of(api_base, all, token).headers.contains(
                ("Authorization"@, "Bearer "@ + token),
            )
            &&& request_of(api_base, all, token).body is None
            &&& request_of(api_base, all, token).url == api_base
                + "/remotes?offset=0&limit=10000&version=v2&new_server=1"@
            &&& first_call(RemoteCmd::Status { id: Some(id) }) matches Ok(one)
            &&& request_of(api_base, one, token) == request_of(api_base, all, token)
        },
        first_call(RemoteCmd::Info { id: Some(id) }) matches Ok(detail) && {
            &&& request_of(api_base, detail, token).method == "GET"@
            &&& request_of(api_base, detail, token).headers.contains(
                ("Authorization"@, "Bearer "@ + token),
            )
            &&& request_of(api_base, detail, token).body is None
            &&& request_of(api_base, detail, token).url == api_base + "/console/remotes/"@
                + text::dec(id as nat) + "?with_powerplan=true&with_extend=true&new_server=1"@
        },
{
    remote::first_pages_are_large(api_base);
    assert(request_of(api_base, CallView::List, token).headers[0] == (
        "Authorization"@,
        "Bearer "@ + token,
    ));
    assert(request_of(api_base, CallView::Detail(id as int), token).headers[0] == (
        "Authorization"@,
        "Bearer "@ + token,
    ));
}

/// An update first looks the remote up, and then sends the new field and the
/// one that stays, each under its own name, to the remote that was named.
pub proof fn updates_are_sent_whole(
    api_base: Seq<char>,
    token: Seq<char>,
    id: u64,
    typed: String,
    current: Remote,
)
    ensures
        first_call(RemoteCmd::Rename { id: Some(id), new_name: Some(typed) }) == first_call(
            RemoteCmd::Status { id: Some(id) },
        ),
        first_call(RemoteCmd::Memo { id: Some(id), new_memo: Some(typed) }) == first_call(
            RemoteCmd::Status { id: Some(id) },
        ),
        update_of(
            RemoteCmd::Rename { id: Some(id), new_name: Some(typed) },
            current,
        ) matches Some(call) && {
            &&& request_of(api_base, call, token).method == "PATCH"@
            &&& request_of(api_base, call, token).headers.contains(
                ("Authorization"@, "Bearer "@ + token),
            )
            &&& request_of(api_base, call, token).url == api_base + "/remotes/"@ + text::dec(
                id as nat,
            ) + "/info"@
            &&& request_of(api_base, call, token).body == Some(
                "{\"name\":"@ + json::json_compact(Tree::Str(typed@)) + ",\"description\":"@
                    + json::json_compact(Tree::Str(current.info.description@))
                    + ",\"update_type\":1}"@,
            )
        },
        update_of(
            RemoteCmd::Memo { id: Some(id), new_memo: Some(typed) },
            current,
        ) matches Some(call) && {
            &&& request_of(api_base, call, token).method == "PATCH"@
            &&& request_of(api_base, call, token).headers.contains(
                ("Authorization"@, "Bearer "@ + token),
            )
            &&& request_of(api_base, call, token).url == api_base + "/remotes/"@ + text::dec(
                id as nat,
            ) + "/info"@
            &&& request_of(api_base, call, token).body == Some(
                "{\"name\":"@ + json::json_compact(Tree::Str(current.info.name@))
                    + ",\"description\":"@ + json::json_compact(Tree::Str(typed@))
                    + ",\"update_type\":1}"@,
            )
        },
{
    remote::updates_set_both_fields(typed@, current.info.description@);
    remote::updates_set_both_fields(current.info.name@, typed@);
    let renamed = CallView::Update(id as int, typed@, current.info.description@);
    let noted = CallView::Update(id as int, current.info.name@, typed@);
    assert(request_of(api_base, renamed, token).headers[0] == (
        "Authorization"@,
        "Bearer "@ + token,
    ));
    assert(request_of(api_base, noted, token).headers[0] == (
        "Authorization"@,
        "Bearer "@ + token,
    ));
}

/// Only the two updates make a second call.
pub proof fn other_commands_make_one_call(id: Option<u64>, current: Remote)
    ensures
        update_of(RemoteCmd::List, current) is None,
        update_of(RemoteCmd::Info { id }, current) is None,
        update_of(RemoteCmd::Status { id }, current) is None,
{
}

/// What an update reports is what it sent: the remote that was named, and the
/// new field.
pub proof fn updates_report_what_was_sent(
    renamed: Option<Report>,
    noted: Option<Report>,
    id: u64,
    typed: String,
)
    requires
        is_report(renamed, RemoteCmd::Rename { id: Some(id), new_name: Some(typed) }),
        is_report(noted, RemoteCmd::Memo { id: Some(id), new_memo: Some(typed) }),
    ensures
        renamed is Some,
        json::member(renamed->Some_0.json@, "ok"@) == Some(Tree::Bool(true)),
        json::member(renamed->Some_0.json@, "id"@) == Some(json::int_tree(id as int)),
        json::member(renamed->Some_0.json@, "name"@) == Some(Tree::Str(typed@)),
        renamed->Some_0.line@ == "renamed remote "@ + text::dec(id as nat) + " to '"@ + typed@
            + "'"@,
        noted is Some,
        json::member(noted->Some_0.json@, "ok"@) == Some(Tree::Bool(true)),
        json::member(noted->Some_0.json@, "id"@) == Some(json::int_tree(id as int)),
        json::member(noted->Some_0.json@, "memo"@) == Some(Tree::Str(typed@)),
        noted->Some_0.line@ == "memo of remote "@ + text::dec(id as nat) + " set to '"@ + typed@
            + "'"@,
{
    reveal_strlit("ok");
    reveal_strlit("id");
    reveal_strlit("name");
    reveal_strlit("memo");
    assert("ok"@.len() == 2 && "id"@.len() == 2 && "name"@.len() == 4 && "memo"@.len() == 4);
    assert("ok"@[0] == 'o' && "id"@[0] == 'i' && "name"@[0] == 'n' && "memo"@[0] == 'm');
}

/// A command that lacks an argument is refused by the name of what it lacks,
/// the id before the rest.
pub proof fn missing_arguments_are_named(id: u64, given: Option<String>)
    ensures
        first_call(RemoteCmd::Info { id: None }) == Err::<CallView, Seq<char>>("missing <ID>"@),
        first_call(RemoteCmd::Status { id: None }) == Err::<CallView, Seq<char>>("missing <ID>"@),
        first_call(RemoteCmd::Rename { id: None, new_name: given }) == Err::<CallView, Seq<char>>(
            "missing <ID>"@,
        ),
        first_call(RemoteCmd::Memo { id: None, new_memo: given }) == Err::<CallView, Seq<char>>(
            "missing <ID>"@,
        ),
        first_call(RemoteCmd::Rename { id: Some(id), new_name: None }) == Err::<
            CallView,
            Seq<char>,
        >("missing <NEW_NAME>"@),
        first_call(RemoteCmd::Memo { id: Some(id), new_memo: None }) == Err::<CallView, Seq<char>>(
            "missing <NEW_MEMO>"@,
        ),
{
}

/// A command is asked for just what it lacks, the id first.
pub proof fn ids_are_asked_for_first(id: Option<u64>, given: Option<String>)
    ensures
        questions_of(RemoteCmd::List).len() == 0,
        questions_of(RemoteCmd::Info { id }).len() == (if id is None {
            1int
        } else {
            0
        }),
        questions_of(RemoteCmd::Status { id }) == questions_of(RemoteCmd::Info { id }),
        id is None ==> questions_of(RemoteCmd::Info { id })[0].name == "<ID>"@,
        questions_of(RemoteCmd::Rename { id, new_name: given }).len() == (if id is None {
            1int
        } else {
            0
        }) + (if given is None {
            1int
        } else {
            0
        }),
        id is None ==> questions_of(RemoteCmd::Rename { id, new_name: given })[0].name == "<ID>"@,
        given is None ==> questions_of(RemoteCmd::Rename { id, new_name: given }).last().name
            == "<NEW_NAME>"@,
        questions_of(RemoteCmd::Memo { id, new_memo: given }).len() == questions_of(
            RemoteCmd::Rename { id, new_name: given },
        ).len(),
        id is None ==> questions_of(RemoteCmd::Memo { id, new_memo: given })[0].name == "<ID>"@,
        given is None ==> questions_of(RemoteCmd::Memo { id, new_memo: given }).last().name
            == "<NEW_MEMO>"@,
{
}

/// What was given on the command line stays: a command that lacked nothing
/// does what it did, and only the new text of an update can differ in how it
/// is held, not in what it says.
pub proof fn given_arguments_stay(
    cmd: RemoteCmd,
    typed: Seq<Seq<char>>,
    out: RemoteCmd,
    current: Remote,
)
    requires
        is_completed(cmd, typed, out),
        first_call(cmd) is Ok,
    ensures
        first_call(out) == first_call(cmd),
        update_of(out, current) == update_of(cmd, current),
{
}

/// What was typed is used for what was missing, in the order of the questions:
/// the id first, and the new text last.
pub proof fn typed_arguments_are_used(
    cmd: RemoteCmd,
    typed: Seq<Seq<char>>,
    out: RemoteCmd,
    n: u64,
    current: Remote,
)
    requires
        is_completed(cmd, typed, out),
        typed.len() == questions_of(cmd).len(),
        typed.len() > 0,
        text::parse_u64(typed[0]) == Some(n as nat),
    ensures
        cmd matches RemoteCmd::Info { id } ==> first_call(out) == first_call(
            RemoteCmd::Info { id: Some(n) },
        ),
        cmd matches RemoteCmd::Status { id } ==> first_call(out) == first_call(
            RemoteCmd::Status { id: Some(n) },
        ),
        cmd matches RemoteCmd::Rename { id: None, new_name: Some(given) } ==> update_of(
            out,
            current,
        ) == update_of(RemoteCmd::Rename { id: Some(n), new_name: Some(given) }, current),
        cmd matches RemoteCmd::Memo { id: None, new_memo: Some(given) } ==> update_of(out, current)
            == update_of(RemoteCmd::Memo { id: Some(n), new_memo: Some(given) }, current),
        cmd matches RemoteCmd::Rename { id: None, new_name: None } ==> update_of(out, current)
            == Some(CallView::Update(n as int, typed[1], current.info.description@)),
        cmd matches RemoteCmd::Memo { id: None, new_memo: None } ==> update_of(out, current)
            == Some(CallView::Update(n as int, current.info.name@, typed[1])),
{
}

/// A new text that was typed is the one that is set on the remote that was
/// given.
pub proof fn typed_texts_are_set(id: u64, typed: Seq<char>, out: RemoteCmd, current: Remote)
    ensures
        is_completed(RemoteCmd::Rename { id: Some(id), new_name: None }, seq![typed], out)
            ==> update_of(out, current) == Some(
            CallView::Update(id as int, typed, current.info.description@),
        ),
        is_completed(RemoteCmd::Memo { id: Some(id), new_memo: None }, seq![typed], out)
            ==> update_of(out, current) == Some(
            CallView::Update(id as int, current.info.name@, typed),
        ),
{
}

/// Nobody is asked for anything without `--interactive`, and nobody for what
/// the command line gave: a command that lacks nothing is completed with
/// nothing. Where something is missing and there is no terminal, it fails and
/// shows nothing.
pub proof fn only_gaps_are_asked_for(
    r: Asked<RemoteCmd>,
    cmd: RemoteCmd,
    before: SessionView,
    after: SessionView,
    is_terminal: bool,
)
    ensures
        is_filled(r, cmd, before, after, false, is_terminal) ==> r == Asked::Value(cmd) && after
            == before,
        is_filled(r, cmd, before, after, true, is_terminal) && questions_of(cmd).len() == 0 ==> r is Value
            && is_completed(cmd, Seq::empty(), r->Value_0) && after == before,
        is_filled(r, cmd, before, after, true, false) && questions_of(cmd).len() > 0 ==> r is Failed && after
            == before && r->Failed_0@ == prompt::no_terminal(questions_of(cmd), example_of(cmd)),
{
}

} // verus!
