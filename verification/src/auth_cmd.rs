//! The `auth` commands: logging in by password or SMS code, renewing tokens,
//! and what is shown of them.
//!
//! A login alternates requests and questions. It runs as a sequence of
//! actions: each [`LoginAction`] or [`SmsAction`] is carried out by the
//! caller, and what came of it decides the next.

use crate::auth;
use crate::auth::{AuthApi, AuthResponse, LoginOutcome, NewDeviceAlert};
use crate::config::{Account, Client, Config, Token};
use crate::json;
use crate::json::{Json, Tree};
use crate::mobile;
use crate::output;
use crate::output::Report;
use crate::prompt;
use crate::prompt::{Asked, AskEnd, Kind, Question, QuestionView, Session, SessionView};
use crate::text;
use crate::times;
use crate::token;
use crate::trace;
use crate::trace::Request;
use vstd::prelude::*;
use vstd::string::*;

verus! {

broadcast use vstd::seq_lib::group_seq_properties;

/// An `auth` command.
#[derive(Debug)]
pub enum AuthCmd {
    /// Log in with an Oray account and its password.
    Login { account: Option<String>, password: Option<String> },
    /// Log in with an SMS code.
    LoginSms {
        mobile: Option<String>,
        /// A code that was received already.
        code: Option<String>,
        /// A captcha token obtained elsewhere.
        captcha: Option<String>,
        /// Print the captcha URL instead of opening a browser.
        no_browser: bool,
    },
    /// Renew tokens with the saved refresh token.
    Refresh,
    /// Show current token info and expiry.
    Status {
        /// Print the tokens in full instead of masking them.
        show: bool,
    },
    /// Clear saved tokens and account.
    Logout,
}

// ------------------------------------------------------------- missing arguments

/// The account stored by an earlier login.
pub open spec fn stored_account(cfg: Config) -> Option<Seq<char>> {
    match cfg.account {
        Some(a) => Some(a.account@),
        None => None,
    }
}

/// The account stored by an earlier login, offered as a prompt default.
pub fn saved_account(cfg: &Config) -> (r: Option<String>)
    ensures
        text::opt_view(r) == stored_account(*cfg),
{
    match &cfg.account {
        Some(a) => Some(a.account.clone()),
        None => None,
    }
}

/// The stored account, where it is a mobile number.
pub open spec fn stored_mobile(cfg: Config) -> Option<Seq<char>> {
    match stored_account(cfg) {
        Some(a) => if mobile::is_mobile(a) {
            Some(a)
        } else {
            None
        },
        None => None,
    }
}

/// The stored account, where it is a mobile number.
fn saved_mobile(cfg: &Config) -> (r: Option<String>)
    ensures
        text::opt_view(r) == stored_mobile(*cfg),
{
    match saved_account(cfg) {
        Some(a) => if mobile::check_mobile(a.as_str()).is_ok() {
            Some(a)
        } else {
            None
        },
        None => None,
    }
}

/// The question for an account.
pub open spec fn account_question(cfg: Config) -> QuestionView {
    QuestionView {
        name: "<ACCOUNT>"@,
        label: "Account (mobile or email)"@,
        kind: Kind::Text,
        default: stored_account(cfg),
    }
}

/// The question for a password: it is typed unseen, and has no default.
pub open spec fn password_question() -> QuestionView {
    QuestionView { name: "<PASSWORD>"@, label: "Password"@, kind: Kind::Secret, default: None }
}

/// The question for a mobile number.
pub open spec fn mobile_question(cfg: Config) -> QuestionView {
    QuestionView {
        name: "<MOBILE>"@,
        label: "Mobile number"@,
        kind: Kind::Mobile,
        default: stored_mobile(cfg),
    }
}

/// The questions for what a command is missing.
pub open spec fn questions_of(cmd: AuthCmd, cfg: Config) -> Seq<QuestionView> {
    match cmd {
        AuthCmd::Login { account, password } => {
            let first: Seq<QuestionView> = if account is None {
                seq![account_question(cfg)]
            } else {
                seq![]
            };
            if password is None {
                first.push(password_question())
            } else {
                first
            }
        },
        AuthCmd::LoginSms { mobile, .. } => if mobile is None {
            seq![mobile_question(cfg)]
        } else {
            seq![]
        },
        _ => seq![],
    }
}

/// The command line that leaves nothing out.
pub open spec fn example_of(cmd: AuthCmd) -> Seq<char> {
    match cmd {
        AuthCmd::Login { .. } => "oray-tools auth login <account> <password>"@,
        AuthCmd::LoginSms { .. } => "oray-tools auth login-sms <mobile>"@,
        AuthCmd::Refresh => "oray-tools auth refresh"@,
        AuthCmd::Status { .. } => "oray-tools auth status"@,
        AuthCmd::Logout => "oray-tools auth logout"@,
    }
}

/// The questions for what a command is missing.
fn questions(cmd: &AuthCmd, cfg: &Config) -> (r: Vec<Question>)
    ensures
        prompt::questions_view(r@) == questions_of(*cmd, *cfg),
{
    let mut qs: Vec<Question> = Vec::new();
    proof {
        assert(prompt::questions_view(qs@) =~= seq![]);
    }
    match cmd {
        AuthCmd::Login { account, password } => {
            if account.is_none() {
                prompt::ask_for(
                    &mut qs,
                    "<ACCOUNT>",
                    "Account (mobile or email)",
                    Kind::Text,
                    saved_account(cfg),
                );
                proof {
                    assert(prompt::questions_view(qs@) =~= seq![account_question(*cfg)]);
                }
            }
            if password.is_none() {
                prompt::ask_for(&mut qs, "<PASSWORD>", "Password", Kind::Secret, None);
            }
        },
        AuthCmd::LoginSms { mobile, .. } => {
            if mobile.is_none() {
                prompt::ask_for(
                    &mut qs,
                    "<MOBILE>",
                    "Mobile number",
                    Kind::Mobile,
                    saved_mobile(cfg),
                );
                proof {
                    assert(prompt::questions_view(qs@) =~= seq![mobile_question(*cfg)]);
                }
            }
        },
        _ => {},
    }
    qs
}

/// The command line that leaves nothing out.
fn example(cmd: &AuthCmd) -> (r: &'static str)
    ensures
        r@ == example_of(*cmd),
{
    match cmd {
        AuthCmd::Login { .. } => "oray-tools auth login <account> <password>",
        AuthCmd::LoginSms { .. } => "oray-tools auth login-sms <mobile>",
        AuthCmd::Refresh => "oray-tools auth refresh",
        AuthCmd::Status { .. } => "oray-tools auth status",
        AuthCmd::Logout => "oray-tools auth logout",
    }
}

/// Whether `out` is `cmd` with what was missing replaced by what was typed.
pub open spec fn is_completed(cmd: AuthCmd, typed: Seq<Seq<char>>, out: AuthCmd) -> bool {
    match (cmd, out) {
        (
            AuthCmd::Login { account, password },
            AuthCmd::Login { account: a, password: p },
        ) => text::opt_view(a) == prompt::given_or_typed(text::opt_view(account), typed)
            && text::opt_view(p) == prompt::given_or_typed(
            text::opt_view(password),
            prompt::typed_after(account is Some, typed),
        ),
        (
            AuthCmd::LoginSms { mobile, code, captcha, no_browser },
            AuthCmd::LoginSms { mobile: m, code: c, captcha: t, no_browser: n },
        ) => text::opt_view(m) == prompt::given_or_typed(text::opt_view(mobile), typed) && c
            == code && t == captcha && n == no_browser,
        (AuthCmd::Refresh, AuthCmd::Refresh) => true,
        (AuthCmd::Status { show }, AuthCmd::Status { show: s }) => s == show,
        (AuthCmd::Logout, AuthCmd::Logout) => true,
        _ => false,
    }
}

/// Fills in what was typed.
fn complete(cmd: AuthCmd, typed: Vec<String>) -> (r: AuthCmd)
    ensures
        is_completed(cmd, text::lines_view(typed@), r),
{
    let mut typed = typed;
    match cmd {
        AuthCmd::Login { account, password } => {
            let account = prompt::take_text(account, &mut typed);
            AuthCmd::Login { account, password: prompt::take_text(password, &mut typed) }
        },
        AuthCmd::LoginSms { mobile, code, captcha, no_browser } => AuthCmd::LoginSms {
            mobile: prompt::take_text(mobile, &mut typed),
            code,
            captcha,
            no_browser,
        },
        other => other,
    }
}

/// Whether `r` is what filling in the arguments of a command comes to, and
/// `after` the session then.
pub open spec fn is_filled(
    r: Asked<AuthCmd>,
    cmd: AuthCmd,
    cfg: Config,
    before: SessionView,
    after: SessionView,
    interactive: bool,
    is_terminal: bool,
) -> bool {
    if interactive {
        let f = prompt::filled(before, questions_of(cmd, cfg), example_of(cmd), is_terminal);
        &&& after == f.1
        &&& match f.0 {
            AskEnd::Value(typed) => r is Value && is_completed(cmd, typed, r->Value_0),
            AskEnd::Failed(m) => r is Failed && r->Failed_0@ == m,
            AskEnd::Waiting(secret) => r == Asked::<AuthCmd>::Waiting(secret),
        }
    } else {
        r == Asked::Value(cmd) && after == before
    }
}

/// `--interactive`: asks for the arguments that the command line left out.
/// Without the flag nothing is ever asked. The login method is never a
/// choice: it is the command itself.
pub fn fill(
    cmd: AuthCmd,
    cfg: &Config,
    interactive: bool,
    io: &mut Session,
    is_terminal: bool,
) -> (r: Asked<AuthCmd>)
    ensures
        is_filled(r, cmd, *cfg, old(io)@, final(io)@, interactive, is_terminal),
        !interactive ==> *final(io) == *old(io),
{
    if !interactive {
        return Asked::Value(cmd);
    }
    let qs = questions(&cmd, cfg);
    match prompt::fill_arguments(io, &qs, example(&cmd), is_terminal) {
        Asked::Value(typed) => Asked::Value(complete(cmd, typed)),
        Asked::Failed(m) => Asked::Failed(m),
        Asked::Waiting(secret) => Asked::Waiting(secret),
    }
}

/// What a command is missing.
pub open spec fn missing_of(cmd: AuthCmd) -> Option<Seq<char>> {
    match cmd {
        AuthCmd::Login { account, password } => if account is None {
            Some("missing <ACCOUNT>"@)
        } else if password is None {
            Some("missing <PASSWORD>"@)
        } else {
            None
        },
        AuthCmd::LoginSms { mobile, .. } => if mobile is None {
            Some("missing <MOBILE>"@)
        } else {
            None
        },
        _ => None,
    }
}

/// What a command is missing: nothing is done before it is there.
pub fn missing(cmd: &AuthCmd) -> (r: Option<&'static str>)
    ensures
        match r {
            Some(m) => missing_of(*cmd) == Some(m@),
            None => missing_of(*cmd) is None,
        },
{
    match cmd {
        AuthCmd::Login { account, password } => if account.is_none() {
            Some("missing <ACCOUNT>")
        } else if password.is_none() {
            Some("missing <PASSWORD>")
        } else {
            None
        },
        AuthCmd::LoginSms { mobile, .. } => if mobile.is_none() {
            Some("missing <MOBILE>")
        } else {
            None
        },
        _ => None,
    }
}

// ---------------------------------------------------------------- password login

/// Whether a flow that is about to request an SMS code cannot possibly
/// collect it: no code was supplied up front and nobody is there to type it.
pub fn code_unreachable(has_code: bool, is_terminal: bool) -> (r: bool)
    ensures
        r == (!has_code && !is_terminal),
{
    !has_code && !is_terminal
}

/// An action of a password login.
#[derive(Debug)]
pub enum LoginAction {
    /// Send the login request.
    Login,
    /// Send the request for a verification code.
    SendCode,
    /// Ask for the code (`SMS code`).
    ReadCode,
    /// Send the code.
    CheckCode(String),
    /// Send the login request once more.
    LoginAgain,
}

/// What came of an action.
#[derive(Debug)]
pub enum LoginEvent {
    /// A login request was answered.
    Outcome(LoginOutcome),
    /// Another request went through.
    Done,
    /// This code was typed.
    Code(String),
}

/// What a login does next.
#[derive(Debug)]
pub enum LoginNext {
    /// Say this, where there is something to say, and carry this out.
    Do(Option<String>, LoginAction),
    /// The login succeeded.
    Tokens(AuthResponse),
    /// The login failed.
    Failed(String),
}

/// Whether an event is one that can come of an action.
pub open spec fn comes_of(action: LoginAction, event: LoginEvent) -> bool {
    match action {
        LoginAction::Login => event is Outcome,
        LoginAction::SendCode => event is Done,
        LoginAction::ReadCode => event is Code,
        LoginAction::CheckCode(_) => event is Done,
        LoginAction::LoginAgain => event is Outcome,
    }
}

/// Why a new device cannot be verified without a terminal.
pub open spec fn unverifiable(error: Seq<char>) -> Seq<char> {
    "new-device SMS verification is required ("@ + error
        + "), but stdin is not a terminal so the code could not be read: run `oray-tools auth login <account> <password>` in a terminal to complete it"@
}

/// What is said of a new device.
pub open spec fn new_device_notice(alert: NewDeviceAlert) -> Seq<char> {
    "New device detected ("@ + alert.error@ + "), code="@ + text::dec_int(alert.code as int)
        + ": "@ + (if alert.mobile@.len() > 0 {
        alert.mobile@
    } else {
        alert.email@
    }) + " requires SMS verification. A code has been sent."@
}

/// Why a second login cannot go on.
pub open spec fn still_new(alert: NewDeviceAlert) -> Seq<char> {
    "re-login did not return tokens: NewDevice(NewDeviceAlert { error: "@ + text::debug_text(
        alert.error@,
    ) + ", code: "@ + text::dec_int(alert.code as int) + ", mobile: "@ + text::debug_text(
        alert.mobile@,
    ) + ", email: "@ + text::debug_text(alert.email@) + " })"@
}

/// Whether `next` says `notice` and carries out `action`.
pub open spec fn does(next: LoginNext, notice: Option<Seq<char>>, action: LoginAction) -> bool {
    match next {
        LoginNext::Do(said, a) => text::opt_view(said) == notice && match (a, action) {
            (LoginAction::CheckCode(c), LoginAction::CheckCode(d)) => c@ == d@,
            _ => a == action,
        },
        _ => false,
    }
}

/// Whether `next` is what follows an action and what came of it.
pub open spec fn follows(
    next: LoginNext,
    action: LoginAction,
    event: LoginEvent,
    is_terminal: bool,
) -> bool {
    match (action, event) {
        (LoginAction::Login, LoginEvent::Outcome(LoginOutcome::Tokens(resp))) => next
            == LoginNext::Tokens(resp),
        (LoginAction::Login, LoginEvent::Outcome(LoginOutcome::NewDevice(alert))) => {
            if is_terminal {
                does(next, Some(new_device_notice(alert)), LoginAction::SendCode)
            } else {
                next is Failed && next->Failed_0@ == unverifiable(alert.error@)
            }
        },
        (LoginAction::SendCode, LoginEvent::Done) => does(next, None, LoginAction::ReadCode),
        (LoginAction::ReadCode, LoginEvent::Code(code)) => does(
            next,
            None,
            LoginAction::CheckCode(code),
        ),
        (LoginAction::CheckCode(_), LoginEvent::Done) => does(
            next,
            Some("Device trusted, logging in again..."@),
            LoginAction::LoginAgain,
        ),
        (LoginAction::LoginAgain, LoginEvent::Outcome(LoginOutcome::Tokens(resp))) => next
            == LoginNext::Tokens(resp),
        (LoginAction::LoginAgain, LoginEvent::Outcome(LoginOutcome::NewDevice(alert))) => next
            is Failed && next->Failed_0@ == still_new(alert),
        _ => true,
    }
}

/// What is said of a new device.
fn new_device_text(alert: &NewDeviceAlert) -> (r: String)
    ensures
        r@ == new_device_notice(*alert),
{
    let mut s = "New device detected (".to_owned();
    s.append(alert.error.as_str());
    s.append("), code=");
    text::push_dec_int(&mut s, alert.code);
    s.append(": ");
    if !text::is_empty(&alert.mobile) {
        s.append(alert.mobile.as_str());
    } else {
        s.append(alert.email.as_str());
    }
    s.append(" requires SMS verification. A code has been sent.");
    s
}

/// Why a second login cannot go on.
fn still_new_text(alert: &NewDeviceAlert) -> (r: String)
    ensures
        r@ == still_new(*alert),
{
    let mut s = "re-login did not return tokens: NewDevice(NewDeviceAlert { error: ".to_owned();
    s.append(text::quoted(alert.error.as_str()).as_str());
    s.append(", code: ");
    text::push_dec_int(&mut s, alert.code);
    s.append(", mobile: ");
    s.append(text::quoted(alert.mobile.as_str()).as_str());
    s.append(", email: ");
    s.append(text::quoted(alert.email.as_str()).as_str());
    s.append(" })");
    s
}

/// What a password login does after an action, given what came of it. It
/// starts with [`LoginAction::Login`]; a device that is not trusted yet is
/// verified by SMS first, which needs a terminal.
pub fn login_step(action: &LoginAction, event: LoginEvent, is_terminal: bool) -> (r: LoginNext)
    requires
        comes_of(*action, event),
    ensures
        follows(r, *action, event, is_terminal),
{
    match (action, event) {
        (LoginAction::Login, LoginEvent::Outcome(outcome)) => match outcome {
            LoginOutcome::Tokens(resp) => LoginNext::Tokens(resp),
            LoginOutcome::NewDevice(alert) => if code_unreachable(false, is_terminal) {
                let mut m = "new-device SMS verification is required (".to_owned();
                m.append(alert.error.as_str());
                m.append(
                    "), but stdin is not a terminal so the code could not be read: run `oray-tools auth login <account> <password>` in a terminal to complete it",
                );
                LoginNext::Failed(m)
            } else {
                LoginNext::Do(Some(new_device_text(&alert)), LoginAction::SendCode)
            },
        },
        (LoginAction::ReadCode, LoginEvent::Code(code)) => LoginNext::Do(
            None,
            LoginAction::CheckCode(code),
        ),
        (LoginAction::CheckCode(_), _) => LoginNext::Do(
            Some("Device trusted, logging in again...".to_owned()),
            LoginAction::LoginAgain,
        ),
        (LoginAction::LoginAgain, LoginEvent::Outcome(outcome)) => match outcome {
            LoginOutcome::Tokens(resp) => LoginNext::Tokens(resp),
            LoginOutcome::NewDevice(alert) => LoginNext::Failed(still_new_text(&alert)),
        },
        _ => LoginNext::Do(None, LoginAction::ReadCode),
    }
}

/// Whether `r` is the request of an action; asking for a code is none.
pub open spec fn is_login_request(
    r: Option<Request>,
    action: LoginAction,
    api_base: Seq<char>,
    clientid: Seq<char>,
    account: Seq<char>,
    password_md5: Seq<char>,
    terminal_name: Seq<char>,
) -> bool {
    let headers = auth::auth_headers(clientid, None);
    match action {
        LoginAction::ReadCode => r is None,
        LoginAction::SendCode => r is Some && exists|t: i64|
            times::millis_in_calendar(t as int) && r->Some_0@ == auth::json_request(
                "POST"@,
                api_base + "/login-terminals/sendcode"@,
                headers,
                #[trigger] auth::sendcode_tree(account, t as int),
            ),
        LoginAction::CheckCode(code) => r is Some && r->Some_0@ == auth::json_request(
            "PUT"@,
            api_base + "/login-terminals/checkcode"@,
            headers,
            auth::checkcode_tree(account, code@, terminal_name),
        ),
        _ => r is Some && r->Some_0@ == auth::json_request(
            "POST"@,
            api_base + "/authorization"@,
            headers,
            auth::login_tree(account, password_md5),
        ),
    }
}

impl LoginAction {
    /// The request of an action; asking for a code is none.
    pub fn request(
        &self,
        api: &AuthApi,
        clientid: &str,
        account: &str,
        password_md5: &str,
        terminal_name: &str,
    ) -> (r: Option<Request>)
        ensures
            is_login_request(
                r,
                *self,
                api.api_base@,
                clientid@,
                account@,
                password_md5@,
                terminal_name@,
            ),
    {
        match self {
            LoginAction::Login => Some(api.login(clientid, account, password_md5)),
            LoginAction::LoginAgain => Some(api.login(clientid, account, password_md5)),
            LoginAction::SendCode => Some(api.sendcode(clientid, account)),
            LoginAction::CheckCode(code) => Some(
                api.checkcode(clientid, account, code.as_str(), terminal_name),
            ),
            LoginAction::ReadCode => None,
        }
    }

    /// How messages name the request of an action.
    pub open spec fn name(&self) -> Seq<char> {
        match self {
            LoginAction::Login => "login"@,
            LoginAction::LoginAgain => "login"@,
            LoginAction::SendCode => "send verification code"@,
            LoginAction::CheckCode(_) => "verify code"@,
            LoginAction::ReadCode => "SMS code"@,
        }
    }

    /// How messages name the request of an action.
    pub fn label(&self) -> (r: &'static str)
        ensures
            r@ == self.name(),
    {
        match self {
            LoginAction::Login => "login",
            LoginAction::LoginAgain => "login",
            LoginAction::SendCode => "send verification code",
            LoginAction::CheckCode(_) => "verify code",
            LoginAction::ReadCode => "SMS code",
        }
    }
}

// --------------------------------------------------------------------- SMS login

/// An action of an SMS login.
#[derive(Debug)]
pub enum SmsAction {
    /// Have a captcha solved in a browser.
    Captcha,
    /// Send the request for a code, with this captcha token.
    SendCode(String),
    /// Ask for the code (`SMS code`).
    ReadCode,
    /// Send the login request, with this code.
    Login(String),
}

/// What came of an action.
#[derive(Debug)]
pub enum SmsEvent {
    /// The captcha was solved, and gave this token.
    Solved(String),
    /// The code was sent: which request of the day this was, where that is
    /// known.
    Sent(Option<i64>),
    /// This code was typed.
    Code(String),
    /// The login request was answered.
    Outcome(LoginOutcome),
}

/// What an SMS login does next.
#[derive(Debug)]
pub enum SmsNext {
    /// Say this, where there is something to say, and carry this out.
    Do(Option<String>, SmsAction),
    /// The login succeeded.
    Tokens(AuthResponse),
    /// The login failed.
    Failed(String),
}

/// What an action is, by its texts.
pub enum SmsView {
    Captcha,
    SendCode(Seq<char>),
    ReadCode,
    Login(Seq<char>),
}

impl View for SmsAction {
    type V = SmsView;

    open spec fn view(&self) -> SmsView {
        match self {
            SmsAction::Captcha => SmsView::Captcha,
            SmsAction::SendCode(t) => SmsView::SendCode(t@),
            SmsAction::ReadCode => SmsView::ReadCode,
            SmsAction::Login(c) => SmsView::Login(c@),
        }
    }
}

/// Why an SMS login needs a terminal.
pub const NO_TERMINAL: &'static str =
    "stdin is not a terminal, so the SMS code could not be read: pass `--code <CODE>` with a code you already have (it skips the captcha and the SMS request), or run `oray-tools auth login-sms <mobile> --interactive` in a terminal";

/// What is said where a code was supplied.
pub const CODE_SUPPLIED: &'static str = "using the supplied code; skipping the captcha and the SMS request";

/// What an SMS login does first, or why it cannot start.
pub open spec fn sms_first(
    target: Seq<char>,
    code: Option<Seq<char>>,
    captcha: Option<Seq<char>>,
    is_terminal: bool,
) -> Result<(Option<Seq<char>>, SmsView), Seq<char>> {
    if !mobile::is_mobile(target) {
        Err(mobile::not_mobile(target))
    } else {
        match (code, captcha) {
            (Some(c), _) => Ok((Some(CODE_SUPPLIED@), SmsView::Login(c))),
            (None, _) if !is_terminal => Err(NO_TERMINAL@),
            (None, Some(t)) => Ok((None, SmsView::SendCode(t))),
            (None, None) => Ok((None, SmsView::Captcha)),
        }
    }
}

/// Whether `next` says and does this.
pub open spec fn sms_does(next: SmsNext, notice: Option<Seq<char>>, action: SmsView) -> bool {
    match next {
        SmsNext::Do(said, a) => text::opt_view(said) == notice && a@ == action,
        _ => false,
    }
}

/// What an SMS login does first: with a code that was received already it
/// logs in; otherwise it needs a terminal to type one, and a captcha before
/// one is sent. It fails before anything waits or is sent.
pub fn sms_start(
    target: &str,
    code: &Option<String>,
    captcha: &Option<String>,
    is_terminal: bool,
) -> (r: SmsNext)
    ensures
        match sms_first(target@, text::opt_view(*code), text::opt_view(*captcha), is_terminal) {
            Ok(first) => sms_does(r, first.0, first.1),
            Err(m) => r is Failed && r->Failed_0@ == m,
        },
{
    if let Err(m) = mobile::check_mobile(target) {
        return SmsNext::Failed(m);
    }
    if code_unreachable(code.is_some(), is_terminal) {
        return SmsNext::Failed(NO_TERMINAL.to_owned());
    }
    match (code, captcha) {
        (Some(c), _) => SmsNext::Do(Some(CODE_SUPPLIED.to_owned()), SmsAction::Login(c.clone())),
        (None, Some(t)) => SmsNext::Do(None, SmsAction::SendCode(t.clone())),
        (None, None) => SmsNext::Do(None, SmsAction::Captcha),
    }
}

/// Whether an event is one that can come of an action.
pub open spec fn sms_comes_of(action: SmsAction, event: SmsEvent) -> bool {
    match action {
        SmsAction::Captcha => event is Solved,
        SmsAction::SendCode(_) => event is Sent,
        SmsAction::ReadCode => event is Code,
        SmsAction::Login(_) => event is Outcome,
    }
}

/// What is said of a code that was sent.
pub open spec fn sent_notice(target: Seq<char>, number: Option<i64>) -> Seq<char> {
    let base = "verification code requested for "@ + mobile::masked_mobile(target);
    match number {
        Some(n) => base + " (daily request #"@ + text::dec_int(n as int) + ")"@,
        None => base,
    }
}

/// Why an SMS login cannot trust a device.
pub open spec fn needs_password(error: Seq<char>) -> Seq<char> {
    "server asked for extra device verification ("@ + error
        + "); a password login is required for this device — run `oray-tools auth login <account> <password>`"@
}

/// Whether `next` is what follows an action and what came of it.
pub open spec fn sms_follows(
    next: SmsNext,
    target: Seq<char>,
    action: SmsAction,
    event: SmsEvent,
) -> bool {
    match (action, event) {
        (SmsAction::Captcha, SmsEvent::Solved(token)) => sms_does(
            next,
            None,
            SmsView::SendCode(token@),
        ),
        (SmsAction::SendCode(_), SmsEvent::Sent(number)) => sms_does(
            next,
            Some(sent_notice(target, number)),
            SmsView::ReadCode,
        ),
        (SmsAction::ReadCode, SmsEvent::Code(code)) => sms_does(next, None, SmsView::Login(code@)),
        (SmsAction::Login(_), SmsEvent::Outcome(LoginOutcome::Tokens(resp))) => next
            == SmsNext::Tokens(resp),
        (SmsAction::Login(_), SmsEvent::Outcome(LoginOutcome::NewDevice(alert))) => next is Failed
            && next->Failed_0@ == needs_password(alert.error@),
        _ => true,
    }
}

/// What is said of a code that was sent.
fn sent_text(target: &str, number: Option<i64>) -> (r: String)
    ensures
        r@ == sent_notice(target@, number),
{
    let mut s = "verification code requested for ".to_owned();
    s.append(mobile::mask_mobile(target).as_str());
    if let Some(n) = number {
        s.append(" (daily request #");
        text::push_dec_int(&mut s, n);
        s.append(")");
    }
    s
}

/// What an SMS login does after an action, given what came of it.
pub fn sms_step(target: &str, action: &SmsAction, event: SmsEvent) -> (r: SmsNext)
    requires
        sms_comes_of(*action, event),
    ensures
        sms_follows(r, target@, *action, event),
{
    match event {
        SmsEvent::Solved(token) => SmsNext::Do(None, SmsAction::SendCode(token)),
        SmsEvent::Sent(number) => SmsNext::Do(
            Some(sent_text(target, number)),
            SmsAction::ReadCode,
        ),
        SmsEvent::Code(code) => SmsNext::Do(None, SmsAction::Login(code)),
        SmsEvent::Outcome(LoginOutcome::Tokens(resp)) => SmsNext::Tokens(resp),
        SmsEvent::Outcome(LoginOutcome::NewDevice(alert)) => {
            let mut m = "server asked for extra device verification (".to_owned();
            m.append(alert.error.as_str());
            m.append(
                "); a password login is required for this device — run `oray-tools auth login <account> <password>`",
            );
            SmsNext::Failed(m)
        },
    }
}

/// Whether `r` is the request of an action; the captcha and asking for a code
/// are none.
pub open spec fn is_sms_request(
    r: Option<Request>,
    action: SmsView,
    api: AuthApi,
    clientid: Seq<char>,
    target: Seq<char>,
) -> bool {
    match action {
        SmsView::SendCode(token) => r is Some && exists|t: i64|
            times::in_calendar(t as int) && r->Some_0@ == auth::json_request(
                "POST"@,
                api.shield_base@ + auth::SECCODE_MOBILE_PATH@,
                auth::shield_headers(),
                #[trigger] auth::send_login_code_tree(target, t as int, token),
            ),
        SmsView::Login(code) => r is Some && r->Some_0@ == auth::json_request(
            "POST"@,
            api.api_base@ + "/authorization"@,
            auth::auth_headers(clientid, None),
            auth::login_with_code_tree(target, code),
        ),
        _ => r is None,
    }
}

impl SmsAction {
    /// The request of an action; the captcha and asking for a code are none.
    pub fn request(&self, api: &AuthApi, clientid: &str, target: &str) -> (r: Option<Request>)
        ensures
            is_sms_request(r, self@, *api, clientid@, target@),
    {
        match self {
            SmsAction::SendCode(token) => Some(api.send_login_code(target, token.as_str())),
            SmsAction::Login(code) => Some(api.login_with_code(clientid, target, code.as_str())),
            _ => None,
        }
    }
}

// ---------------------------------------------------------------- configuration

/// Whether `after` is `before` with a login in it.
pub open spec fn is_logged_in(
    before: Config,
    after: Config,
    account: Seq<char>,
    password_md5: Seq<char>,
    clientid: Seq<char>,
    resp: AuthResponse,
) -> bool {
    &&& after == (Config {
        account: after.account,
        client: after.client,
        token: after.token,
        ..before
    })
    &&& after.account matches Some(a) && a.account@ == account && a.password_md5@ == password_md5
    &&& after.client matches Some(c) && c.clientid@ == clientid
    &&& after.token matches Some(t) && token::is_token_of(t, resp)
}

/// Writes a login into the configuration: the account, the client id that is
/// now trusted, and the tokens; nothing else in it changes.
pub fn adopt_login(
    cfg: &mut Config,
    account: &str,
    password_md5: String,
    clientid: String,
    resp: AuthResponse,
)
    ensures
        is_logged_in(*old(cfg), *final(cfg), account@, password_md5@, clientid@, resp),
{
    cfg.account = Some(Account { account: account.to_owned(), password_md5 });
    cfg.client = Some(Client { clientid });
    token::adopt_refreshed(cfg, resp);
}

/// The password hash that an SMS login keeps.
pub open spec fn kept_password(cfg: Config, target: Seq<char>) -> Seq<char> {
    match cfg.account {
        Some(a) => if a.account@ == target {
            a.password_md5@
        } else {
            ""@
        },
        None => ""@,
    }
}

/// The password hash that an SMS login keeps: no password backs it, so a
/// stored one stays only where it belongs to the same account.
pub fn password_to_keep(cfg: &Config, target: &str) -> (r: String)
    ensures
        r@ == kept_password(*cfg, target@),
{
    match &cfg.account {
        Some(a) => if text::same(a.account.as_str(), target) {
            a.password_md5.clone()
        } else {
            "".to_owned()
        },
        None => "".to_owned(),
    }
}

/// The saved tokens that a refresh exchanges, or why there are none.
pub open spec fn saved_tokens(cfg: Config) -> Result<(Seq<char>, Seq<char>), Seq<char>> {
    match cfg.token {
        Some(t) => if t.refresh_token@.len() == 0 {
            Err("no refresh token saved; run `oray-tools auth login` first"@)
        } else {
            Ok((t.access_token@, t.refresh_token@))
        },
        None => Err("no token saved; run `oray-tools auth login` first"@),
    }
}

/// The saved access and refresh token that `auth refresh` exchanges, or why
/// there are none.
pub fn tokens_to_refresh(cfg: &Config) -> (r: Result<(String, String), String>)
    ensures
        match saved_tokens(*cfg) {
            Ok(t) => r matches Ok(s) && s.0@ == t.0 && s.1@ == t.1,
            Err(m) => r matches Err(s) && s@ == m,
        },
{
    match &cfg.token {
        Some(t) => if text::is_empty(&t.refresh_token) {
            Err("no refresh token saved; run `oray-tools auth login` first".to_owned())
        } else {
            Ok((t.access_token.clone(), t.refresh_token.clone()))
        },
        None => Err("no token saved; run `oray-tools auth login` first".to_owned()),
    }
}

/// A configuration after a logout.
pub open spec fn logged_out(cfg: Config) -> Config {
    Config { account: None, token: None, ..cfg }
}

/// Forgets the account and the tokens; the trusted client id stays.
pub fn log_out(cfg: &mut Config)
    ensures
        *final(cfg) == logged_out(*old(cfg)),
{
    cfg.account = None;
    cfg.token = None;
}

// ------------------------------------------------------------------------ output

/// The document of an account.
pub open spec fn account_tree(account: Option<Seq<char>>) -> Tree {
    Tree::Object(map!["ok"@ => Tree::Bool(true), "account"@ => json::opt_str_tree(account)])
}

/// Whether `r` is what a login reports.
pub open spec fn is_login_report(r: Report, account: Seq<char>) -> bool {
    r.json@ == account_tree(Some(account)) && r.line@ == "logged in as "@ + account
}

/// What a login reports.
pub fn login_report(account: &str) -> (r: Report)
    ensures
        is_login_report(r, account@),
{
    let mut f: Vec<(String, Json)> = Vec::new();
    json::put(&mut f, "ok", Json::Bool(true));
    json::put(&mut f, "account", json::json_str(account));
    let mut line = "logged in as ".to_owned();
    line.append(account);
    Report { json: Json::Object(f), line }
}

/// A text that may be absent, as a document.
fn opt_json(s: Option<String>) -> (r: Json)
    ensures
        r@ == json::opt_str_tree(text::opt_view(s)),
{
    match s {
        Some(s) => Json::Str(s),
        None => Json::Null,
    }
}

/// Whether `r` is what `auth refresh` reports.
pub open spec fn is_refresh_report(r: Report, cfg: Config) -> bool {
    r.json@ == account_tree(stored_account(cfg)) && r.line@ == "tokens refreshed"@
}

/// What `auth refresh` reports.
pub fn refresh_report(cfg: &Config) -> (r: Report)
    ensures
        is_refresh_report(r, *cfg),
{
    let mut f: Vec<(String, Json)> = Vec::new();
    json::put(&mut f, "ok", Json::Bool(true));
    json::put(&mut f, "account", opt_json(saved_account(cfg)));
    Report { json: Json::Object(f), line: "tokens refreshed".to_owned() }
}

/// Whether `r` is what `auth logout` reports.
pub open spec fn is_logout_report(r: Report) -> bool {
    r.json@ == Tree::Object(map!["ok"@ => Tree::Bool(true)]) && r.line@ == "logged out"@
}

/// What `auth logout` reports.
pub fn logout_report() -> (r: Report)
    ensures
        is_logout_report(r),
{
    let mut f: Vec<(String, Json)> = Vec::new();
    json::put(&mut f, "ok", Json::Bool(true));
    Report { json: Json::Object(f), line: "logged out".to_owned() }
}

/// The tree of a timestamp that may be absent.
pub open spec fn opt_time_tree(t: Option<int>) -> Tree {
    match t {
        Some(t) => json::int_tree(t),
        None => Tree::Null,
    }
}

/// When the saved access token expires.
pub open spec fn saved_access_expiry(cfg: Config) -> Option<int> {
    match cfg.token {
        Some(t) => token::expiry_of(t.access_token@),
        None => None,
    }
}

/// When the saved refresh token expires.
pub open spec fn saved_refresh_expiry(cfg: Config) -> Option<int> {
    match cfg.token {
        Some(t) => Some(t.refresh_expires as int),
        None => None,
    }
}

/// The document of `auth status`, given when the access token expires.
pub open spec fn status_tree(cfg: Config, access_expires: Option<int>) -> Tree {
    Tree::Object(
        map![
            "logged_in"@ => Tree::Bool(cfg.token is Some && cfg.account is Some),
            "account"@ => json::opt_str_tree(stored_account(cfg)),
            "access_expires"@ => opt_time_tree(access_expires),
            "refresh_expires"@ => opt_time_tree(saved_refresh_expiry(cfg)),
        ],
    )
}

/// A timestamp that may be absent, as a document.
fn time_json(t: Option<i64>) -> (r: Json)
    ensures
        r@ == opt_time_tree(
            match t {
                Some(t) => Some(t as int),
                None => None,
            },
        ),
{
    match t {
        Some(t) => Json::Int(t),
        None => Json::Null,
    }
}

/// The document of `auth status`, given when the access token expires.
pub fn status_json_with(cfg: &Config, access_expires: Option<i64>) -> (r: Json)
    ensures
        r@ == status_tree(
            *cfg,
            match access_expires {
                Some(t) => Some(t as int),
                None => None,
            },
        ),
{
    let refresh_expires = match &cfg.token {
        Some(t) => Some(t.refresh_expires),
        None => None,
    };
    let mut f: Vec<(String, Json)> = Vec::new();
    json::put(&mut f, "logged_in", Json::Bool(cfg.token.is_some() && cfg.account.is_some()));
    json::put(&mut f, "account", opt_json(saved_account(cfg)));
    json::put(&mut f, "access_expires", time_json(access_expires));
    json::put(&mut f, "refresh_expires", time_json(refresh_expires));
    Json::Object(f)
}

/// When the saved access token expires.
fn access_expires(cfg: &Config) -> (r: Option<i64>)
    ensures
        match r {
            Some(t) => saved_access_expiry(*cfg) == Some(t as int),
            None => saved_access_expiry(*cfg) is None,
        },
{
    match &cfg.token {
        Some(t) => token::access_expiry(t.access_token.as_str()),
        None => None,
    }
}

/// `--json` body of `auth status`: no token is in it.
pub fn status_json(cfg: &Config) -> (r: Json)
    ensures
        r@ == status_tree(*cfg, saved_access_expiry(*cfg)),
{
    status_json_with(cfg, access_expires(cfg))
}

/// A token as it is shown.
pub open spec fn shown_token(t: Seq<char>, show: bool) -> Seq<char> {
    if show {
        t
    } else {
        trace::masked_str(t)
    }
}

/// A token as it is shown.
fn shown_token_text(t: &String, show: bool) -> (r: String)
    ensures
        r@ == shown_token(t@, show),
{
    if show {
        t.clone()
    } else {
        trace::mask_str(t.as_str())
    }
}

/// An expiry as it is shown.
pub open spec fn shown_expiry(t: Option<int>) -> Seq<char> {
    match t {
        Some(t) => times::shown_time(t),
        None => "unknown"@,
    }
}

/// The lines of `auth status`, given when the access token expires.
pub open spec fn status_lines_of(cfg: Config, access_expires: Option<int>, show: bool) -> Seq<
    Seq<char>,
> {
    (match cfg.token {
        Some(t) => output::line_if(
            true,
            "access_token:    "@,
            shown_token(t.access_token@, show),
        ) + output::line_if(true, "refresh_token:   "@, shown_token(t.refresh_token@, show))
            + output::line_if(true, "access_expiry:   "@, shown_expiry(access_expires))
            + output::line_if(
            true,
            "refresh_expiry:  "@,
            times::shown_time(t.refresh_expires as int),
        ),
        None => output::line_if(true, "no tokens saved"@, ""@),
    }) + (match cfg.account {
        Some(a) => output::line_if(true, "account:         "@, a.account@),
        None => seq![],
    })
}

/// The lines of `auth status`, given when the access token expires. Tokens
/// are masked unless `show` is set.
pub fn status_lines_with(cfg: &Config, access_expires: Option<i64>, show: bool) -> (r: Vec<String>)
    ensures
        text::lines_view(r@) == status_lines_of(
            *cfg,
            match access_expires {
                Some(t) => Some(t as int),
                None => None,
            },
            show,
        ),
{
    let mut lines: Vec<String> = Vec::new();
    match &cfg.token {
        Some(t) => {
            let access = shown_token_text(&t.access_token, show);
            let refresh = shown_token_text(&t.refresh_token, show);
            let expiry = match access_expires {
                Some(t) => times::human_time(t),
                None => "unknown".to_owned(),
            };
            proof {
                let first = output::line_if(true, "access_token:    "@, access@);
                assert(text::lines_view(lines@) + first =~= first);
            }
            output::put_line_if(&mut lines, true, "access_token:    ", access.as_str());
            output::put_line_if(&mut lines, true, "refresh_token:   ", refresh.as_str());
            output::put_line_if(&mut lines, true, "access_expiry:   ", expiry.as_str());
            output::put_line_if(
                &mut lines,
                true,
                "refresh_expiry:  ",
                times::human_time(t.refresh_expires).as_str(),
            );
        },
        None => {
            proof {
                let first = output::line_if(true, "no tokens saved"@, ""@);
                assert(text::lines_view(lines@) + first =~= first);
            }
            output::put_line_if(&mut lines, true, "no tokens saved", "");
        },
    }
    let ghost head = text::lines_view(lines@);
    match &cfg.account {
        Some(a) => {
            output::put_line_if(&mut lines, true, "account:         ", a.account.as_str());
        },
        None => {
            proof {
                assert(head + Seq::<Seq<char>>::empty() =~= head);
            }
        },
    }
    lines
}

/// The lines of `auth status`. Tokens are masked unless `show` is set.
pub fn print_tokens(cfg: &Config, show: bool) -> (r: Vec<String>)
    ensures
        text::lines_view(r@) == status_lines_of(*cfg, saved_access_expiry(*cfg), show),
{
    status_lines_with(cfg, access_expires(cfg), show)
}

// ---------------------------------------------------------------------- laws

/// No SMS is requested that nobody could answer: without a terminal a
/// password login never gets to the request for a code.
pub proof fn no_code_without_terminal(next: LoginNext, action: LoginAction, event: LoginEvent)
    requires
        comes_of(action, event),
        follows(next, action, event, false),
    ensures
        next matches LoginNext::Do(_, a) ==> !(a is SendCode),
{
}

/// How far a password login is.
pub open spec fn progress(action: LoginAction) -> int {
    match action {
        LoginAction::Login => 0,
        LoginAction::SendCode => 1,
        LoginAction::ReadCode => 2,
        LoginAction::CheckCode(_) => 3,
        LoginAction::LoginAgain => 4,
    }
}

/// A password login ends: every action but the last brings it one further.
pub proof fn logins_end(
    next: LoginNext,
    action: LoginAction,
    event: LoginEvent,
    is_terminal: bool,
)
    requires
        comes_of(action, event),
        follows(next, action, event, is_terminal),
    ensures
        next matches LoginNext::Do(_, a) ==> progress(a) == progress(action) + 1 && progress(a) <= 4,
{
}

/// An SMS login fails before anything waits or is sent: it only starts with
/// a valid number, and asks for a captcha or an SMS only where nobody
/// supplied a code and somebody is there to type one.
pub proof fn sms_login_fails_first(
    target: Seq<char>,
    code: Option<Seq<char>>,
    captcha: Option<Seq<char>>,
    is_terminal: bool,
)
    requires
        sms_first(target, code, captcha, is_terminal) is Ok,
    ensures
        mobile::is_mobile(target),
        ({
            let action = sms_first(target, code, captcha, is_terminal)->Ok_0.1;
            action is Captcha || action is SendCode ==> is_terminal && code is None
        }),
{
}

/// A code that was supplied is used as it is: no captcha, no SMS, no
/// question.
pub proof fn supplied_codes_are_used(
    target: Seq<char>,
    code: Seq<char>,
    captcha: Option<Seq<char>>,
    is_terminal: bool,
)
    requires
        mobile::is_mobile(target),
    ensures
        sms_first(target, Some(code), captcha, is_terminal) == Ok::<
            (Option<Seq<char>>, SmsView),
            Seq<char>,
        >((Some(CODE_SUPPLIED@), SmsView::Login(code))),
{
}

/// After a login the stored tokens can be used, and logging out forgets them
/// and the account, but not the trusted client id.
pub proof fn logout_forgets_the_login(
    before: Config,
    after: Config,
    account: Seq<char>,
    password_md5: Seq<char>,
    clientid: Seq<char>,
    resp: AuthResponse,
)
    requires
        is_logged_in(before, after, account, password_md5, clientid, resp),
        resp.access_token@.len() > 0,
    ensures
        token::plan_of(after, false, false) is Use,
        ({
            let out = logged_out(after);
            &&& token::plan_of(out, false, false) is Fail
            &&& out.client == after.client
        }),
{
}

/// A password hash never outlives its account: an SMS login under another
/// account drops it.
pub proof fn passwords_stay_with_their_account(cfg: Config, target: Seq<char>)
    ensures
        stored_account(cfg) != Some(target) ==> kept_password(cfg, target) == ""@,
        stored_account(cfg) == Some(target) ==> kept_password(cfg, target)
            == cfg.account->Some_0.password_md5@,
{
}

/// Arguments that were given are never asked for: a command that misses
/// nothing asks nothing.
pub proof fn complete_commands_ask_nothing(cmd: AuthCmd, cfg: Config)
    requires
        missing_of(cmd) is None,
    ensures
        questions_of(cmd, cfg).len() == 0,
{
}

/// Both login requests of a password login are one and the same: they go to
/// the authorization endpoint under the client id, and name the account and
/// the digest of its password.
pub proof fn logins_are_sent_for_the_account(
    first: Option<Request>,
    again: Option<Request>,
    api_base: Seq<char>,
    clientid: Seq<char>,
    account: Seq<char>,
    password_md5: Seq<char>,
    terminal_name: Seq<char>,
)
    requires
        is_login_request(
            first,
            LoginAction::Login,
            api_base,
            clientid,
            account,
            password_md5,
            terminal_name,
        ),
        is_login_request(
            again,
            LoginAction::LoginAgain,
            api_base,
            clientid,
            account,
            password_md5,
            terminal_name,
        ),
    ensures
        first is Some,
        again is Some,
        again->Some_0@ == first->Some_0@,
        first->Some_0@.method == "POST"@,
        first->Some_0@.url == api_base + "/authorization"@,
        first->Some_0@.headers.contains(("EX-ClientId"@, clientid)),
        exists|body: Tree| #[trigger]
            json::json_compact(body) == first->Some_0@.body->Some_0 && json::member(
                body,
                "account"@,
            ) == Some(Tree::Str(account)) && json::member(body, "password"@) == Some(
                Tree::Str(password_md5),
            ) && json::member(body, "ismd5"@) == Some(Tree::Bool(true)),
        first->Some_0@.body is Some,
{
    auth::logins_name_their_account(account, password_md5);
    assert(first->Some_0@.headers[3] == ("EX-ClientId"@, clientid));
    let body = auth::login_tree(account, password_md5);
    assert(json::json_compact(body) == first->Some_0@.body->Some_0);
}

/// A verification code is asked for, and sent back, for the account that logs
/// in, under the client id that becomes trusted by it; the code that was typed
/// and the name of the terminal go with it.
pub proof fn codes_are_verified_for_the_account(
    asked: Option<Request>,
    sent: Option<Request>,
    code: String,
    api_base: Seq<char>,
    clientid: Seq<char>,
    account: Seq<char>,
    password_md5: Seq<char>,
    terminal_name: Seq<char>,
)
    requires
        is_login_request(
            asked,
            LoginAction::SendCode,
            api_base,
            clientid,
            account,
            password_md5,
            terminal_name,
        ),
        is_login_request(
            sent,
            LoginAction::CheckCode(code),
            api_base,
            clientid,
            account,
            password_md5,
            terminal_name,
        ),
    ensures
        asked is Some,
        sent is Some,
        asked->Some_0@.method == "POST"@,
        asked->Some_0@.url == api_base + "/login-terminals/sendcode"@,
        asked->Some_0@.headers.contains(("EX-ClientId"@, clientid)),
        asked->Some_0@.body is Some,
        exists|body: Tree| #[trigger]
            json::json_compact(body) == asked->Some_0@.body->Some_0 && json::member(
                body,
                "account"@,
            ) == Some(Tree::Str(account)) && json::member(body, "method"@) == Some(
                Tree::Str("mobile"@),
            ),
        sent->Some_0@.method == "PUT"@,
        sent->Some_0@.url == api_base + "/login-terminals/checkcode"@,
        sent->Some_0@.headers.contains(("EX-ClientId"@, clientid)),
        sent->Some_0@.body is Some,
        exists|body: Tree| #[trigger]
            json::json_compact(body) == sent->Some_0@.body->Some_0 && json::member(
                body,
                "account"@,
            ) == Some(Tree::Str(account)) && json::member(body, "code"@) == Some(
                Tree::Str(code@),
            ) && json::member(body, "terminal_name"@) == Some(Tree::Str(terminal_name)),
{
    let t = choose|t: i64|
        times::millis_in_calendar(t as int) && asked->Some_0@ == auth::json_request(
            "POST"@,
            api_base + "/login-terminals/sendcode"@,
            auth::auth_headers(clientid, None),
            #[trigger] auth::sendcode_tree(account, t as int),
        );
    auth::codes_are_checked_for_their_account(account, code@, terminal_name, t as int);
    assert(asked->Some_0@.headers[3] == ("EX-ClientId"@, clientid));
    assert(sent->Some_0@.headers[3] == ("EX-ClientId"@, clientid));
    let question = auth::sendcode_tree(account, t as int);
    assert(json::json_compact(question) == asked->Some_0@.body->Some_0);
    let answer = auth::checkcode_tree(account, code@, terminal_name);
    assert(json::json_compact(answer) == sent->Some_0@.body->Some_0);
}

/// Asking for the code sends nothing.
pub proof fn reading_a_code_sends_nothing(
    r: Option<Request>,
    api_base: Seq<char>,
    clientid: Seq<char>,
    account: Seq<char>,
    password_md5: Seq<char>,
    terminal_name: Seq<char>,
)
    requires
        is_login_request(
            r,
            LoginAction::ReadCode,
            api_base,
            clientid,
            account,
            password_md5,
            terminal_name,
        ),
    ensures
        r is None,
{
}

/// A password login succeeds exactly where a login request is answered with
/// tokens, and with those tokens; a code that was typed is the code that is
/// checked, and a device that was verified logs in again.
pub proof fn logins_use_what_came_of_them(
    next: LoginNext,
    action: LoginAction,
    event: LoginEvent,
    is_terminal: bool,
)
    requires
        comes_of(action, event),
        follows(next, action, event, is_terminal),
    ensures
        next is Tokens <==> (event matches LoginEvent::Outcome(o) && o is Tokens),
        next matches LoginNext::Tokens(resp) ==> event == LoginEvent::Outcome(
            LoginOutcome::Tokens(resp),
        ),
        event matches LoginEvent::Code(typed) ==> (next matches LoginNext::Do(
            said,
            LoginAction::CheckCode(code),
        ) && said is None && code@ == typed@),
        action is SendCode ==> (next matches LoginNext::Do(said, a) && said is None && a
            is ReadCode),
        action is CheckCode ==> (next matches LoginNext::Do(Some(said), a) && said@
            == "Device trusted, logging in again..."@ && a is LoginAgain),
        next is Failed ==> (event matches LoginEvent::Outcome(o) && o is NewDevice) && (action
            is LoginAgain || !is_terminal),
{
}

/// A device that is not trusted yet is verified where somebody can type the
/// code, and the notice says why and to whom it was sent: the mobile number,
/// or the mail address where there is none. Elsewhere the login says why it
/// cannot go on.
pub proof fn new_devices_are_verified(next: LoginNext, alert: NewDeviceAlert, is_terminal: bool)
    requires
        follows(
            next,
            LoginAction::Login,
            LoginEvent::Outcome(LoginOutcome::NewDevice(alert)),
            is_terminal,
        ),
    ensures
        is_terminal ==> (next matches LoginNext::Do(Some(said), a) && a is SendCode && said@
            == "New device detected ("@ + alert.error@ + "), code="@ + text::dec_int(
            alert.code as int,
        ) + ": "@ + (if alert.mobile@.len() > 0 {
            alert.mobile@
        } else {
            alert.email@
        }) + " requires SMS verification. A code has been sent."@),
        !is_terminal ==> (next matches LoginNext::Failed(m) && m@
            == "new-device SMS verification is required ("@ + alert.error@
            + "), but stdin is not a terminal so the code could not be read: run `oray-tools auth login <account> <password>` in a terminal to complete it"@),
{
}

/// An SMS login asks for its code with the number that logs in and the captcha
/// result that came in, and logs in with that number and the code that was
/// typed.
pub proof fn sms_codes_are_sent_for_the_number(
    asked: Option<Request>,
    login: Option<Request>,
    api: AuthApi,
    clientid: Seq<char>,
    target: Seq<char>,
    captcha: Seq<char>,
    code: Seq<char>,
)
    requires
        is_sms_request(asked, SmsView::SendCode(captcha), api, clientid, target),
        is_sms_request(login, SmsView::Login(code), api, clientid, target),
    ensures
        asked is Some,
        asked->Some_0@.method == "POST"@,
        asked->Some_0@.url == api.shield_base@ + "/seccode/mobile"@,
        asked->Some_0@.body is Some,
        exists|body: Tree| #[trigger]
            json::json_compact(body) == asked->Some_0@.body->Some_0 && json::member(
                body,
                "target"@,
            ) == Some(Tree::Str(target)) && json::member(body, "aliyun_captcha_response"@) == Some(
                Tree::Str(captcha),
            ),
        login is Some,
        login->Some_0@.method == "POST"@,
        login->Some_0@.url == api.api_base@ + "/authorization"@,
        login->Some_0@.headers.contains(("EX-ClientId"@, clientid)),
        login->Some_0@.body is Some,
        exists|body: Tree| #[trigger]
            json::json_compact(body) == login->Some_0@.body->Some_0 && json::member(
                body,
                "account"@,
            ) == Some(Tree::Str(target)) && json::member(body, "code"@) == Some(Tree::Str(code)),
{
    let t = choose|t: i64|
        times::in_calendar(t as int) && asked->Some_0@ == auth::json_request(
            "POST"@,
            api.shield_base@ + auth::SECCODE_MOBILE_PATH@,
            auth::shield_headers(),
            #[trigger] auth::send_login_code_tree(target, t as int, captcha),
        );
    auth::login_codes_are_signed(target, t as int, captcha);
    auth::code_logins_follow_the_sent_code(target, code, t as int, captcha);
    let question = auth::send_login_code_tree(target, t as int, captcha);
    assert(json::json_compact(question) == asked->Some_0@.body->Some_0);
    let answer = auth::login_with_code_tree(target, code);
    assert(json::json_compact(answer) == login->Some_0@.body->Some_0);
    assert(login->Some_0@.headers[3] == ("EX-ClientId"@, clientid));
}

/// The captcha and asking for the code send nothing to the API.
pub proof fn captchas_send_nothing(
    r: Option<Request>,
    action: SmsView,
    api: AuthApi,
    clientid: Seq<char>,
    target: Seq<char>,
)
    requires
        action is Captcha || action is ReadCode,
        is_sms_request(r, action, api, clientid, target),
    ensures
        r is None,
{
}

/// An SMS login that needs a code first has the captcha solved, unless a
/// result was given; it starts by sending the code where one was.
pub proof fn sms_logins_start_where_they_can(target: Seq<char>, captcha: Seq<char>)
    requires
        mobile::is_mobile(target),
    ensures
        sms_first(target, None, None, true) matches Ok(first) && first.0 is None && first.1
            is Captcha,
        sms_first(target, None, Some(captcha), true) matches Ok(first) && first.0 is None
            && first.1 == SmsView::SendCode(captcha),
        sms_first(target, None, Some(captcha), false) is Err,
        sms_first(target, None, None, false) == sms_first(target, None, Some(captcha), false),
{
}

/// An SMS login uses what came of each action: the captcha result is sent, the
/// code that was typed logs in, and it succeeds exactly where the login is
/// answered with tokens, and with those tokens.
pub proof fn sms_logins_use_what_came_of_them(
    next: SmsNext,
    target: Seq<char>,
    action: SmsAction,
    event: SmsEvent,
)
    requires
        sms_comes_of(action, event),
        sms_follows(next, target, action, event),
    ensures
        event matches SmsEvent::Solved(token) ==> (next matches SmsNext::Do(
            said,
            SmsAction::SendCode(sent),
        ) && said is None && sent@ == token@),
        event is Sent ==> (next matches SmsNext::Do(said, a) && said is Some && a is ReadCode),
        event matches SmsEvent::Code(typed) ==> (next matches SmsNext::Do(
            said,
            SmsAction::Login(code),
        ) && said is None && code@ == typed@),
        next is Tokens <==> (event matches SmsEvent::Outcome(o) && o is Tokens),
        next matches SmsNext::Tokens(resp) ==> event == SmsEvent::Outcome(
            LoginOutcome::Tokens(resp),
        ),
        next is Failed <==> (event matches SmsEvent::Outcome(o) && o is NewDevice),
        next matches SmsNext::Failed(m) ==> (event matches SmsEvent::Outcome(
            LoginOutcome::NewDevice(alert),
        ) && m@ == "server asked for extra device verification ("@ + alert.error@
            + "); a password login is required for this device — run `oray-tools auth login <account> <password>`"@),
{
}

/// The notice of a sent code hides the middle of the number, and counts the
/// requests of the day where the server does.
pub proof fn sent_codes_are_announced(target: Seq<char>, number: i64)
    ensures
        sent_notice(target, None) == "verification code requested for "@ + mobile::masked_mobile(
            target,
        ),
        sent_notice(target, Some(number)) == sent_notice(target, None) + " (daily request #"@
            + text::dec_int(number as int) + ")"@,
{
}

/// After a login, the configuration holds the account that logged in, its
/// digest, the client id that is trusted now and the tokens that came; what
/// else it holds stays as it was.
pub proof fn logins_are_kept(
    before: Config,
    after: Config,
    account: Seq<char>,
    password_md5: Seq<char>,
    clientid: Seq<char>,
    resp: AuthResponse,
)
    requires
        is_logged_in(before, after, account, password_md5, clientid, resp),
    ensures
        stored_account(after) == Some(account),
        kept_password(after, account) == password_md5,
        after.token is Some,
        after.token->Some_0.access_token == resp.access_token,
        after.token->Some_0.refresh_token == resp.refresh_token,
        clientid.len() > 0 ==> token::known_clientid(after, None) == Some(clientid),
        after.server == before.server,
        after.tz == before.tz,
        resp.refresh_token@.len() > 0 ==> saved_tokens(after) == Ok::<
            (Seq<char>, Seq<char>),
            Seq<char>,
        >((resp.access_token@, resp.refresh_token@)),
        json::member(status_tree(after, saved_access_expiry(after)), "logged_in"@) == Some(
            Tree::Bool(true),
        ),
        json::member(status_tree(after, saved_access_expiry(after)), "account"@) == Some(
            Tree::Str(account),
        ),
{
    status_says_what_is_saved(after, saved_access_expiry(after));
}

/// A logout leaves neither an account nor tokens to see or to use, and keeps
/// everything else.
pub proof fn logouts_leave_nothing(cfg: Config)
    ensures
        stored_account(logged_out(cfg)) is None,
        saved_tokens(logged_out(cfg)) is Err,
        logged_out(cfg).client == cfg.client,
        logged_out(cfg).server == cfg.server,
        logged_out(cfg).tz == cfg.tz,
        json::member(
            status_tree(logged_out(cfg), saved_access_expiry(logged_out(cfg))),
            "logged_in"@,
        ) == Some(Tree::Bool(false)),
        json::member(
            status_tree(logged_out(cfg), saved_access_expiry(logged_out(cfg))),
            "account"@,
        ) == Some(Tree::Null),
{
    status_says_what_is_saved(logged_out(cfg), saved_access_expiry(logged_out(cfg)));
}

/// The saved tokens are exchanged each in its place, and only where there is a
/// refresh token.
pub proof fn refreshes_need_a_refresh_token(cfg: Config, t: Token)
    ensures
        cfg.token is None ==> saved_tokens(cfg) == Err::<(Seq<char>, Seq<char>), Seq<char>>(
            "no token saved; run `oray-tools auth login` first"@,
        ),
        cfg.token == Some(t) && t.refresh_token@.len() == 0 ==> saved_tokens(cfg) == Err::<
            (Seq<char>, Seq<char>),
            Seq<char>,
        >("no refresh token saved; run `oray-tools auth login` first"@),
        cfg.token == Some(t) && t.refresh_token@.len() > 0 ==> saved_tokens(cfg) == Ok::<
            (Seq<char>, Seq<char>),
            Seq<char>,
        >((t.access_token@, t.refresh_token@)),
{
}

/// `auth status` says that somebody is logged in exactly where there are an
/// account and tokens, names the account, tells when each token expires, and
/// shows nothing else: no token is in the document.
pub proof fn status_says_what_is_saved(cfg: Config, access_expires: Option<int>)
    ensures
        json::member(status_tree(cfg, access_expires), "logged_in"@) == Some(
            Tree::Bool(cfg.token is Some && cfg.account is Some),
        ),
        cfg.account matches Some(a) ==> json::member(status_tree(cfg, access_expires), "account"@)
            == Some(Tree::Str(a.account@)),
        cfg.account is None ==> json::member(status_tree(cfg, access_expires), "account"@) == Some(
            Tree::Null,
        ),
        access_expires matches Some(t) ==> json::member(
            status_tree(cfg, access_expires),
            "access_expires"@,
        ) == Some(json::int_tree(t)),
        access_expires is None ==> json::member(
            status_tree(cfg, access_expires),
            "access_expires"@,
        ) == Some(Tree::Null),
        cfg.token matches Some(t) ==> json::member(
            status_tree(cfg, access_expires),
            "refresh_expires"@,
        ) == Some(json::int_tree(t.refresh_expires as int)),
        cfg.token is None ==> json::member(status_tree(cfg, access_expires), "refresh_expires"@)
            == Some(Tree::Null),
        forall|name: Seq<char>|
            #![trigger json::member(status_tree(cfg, access_expires), name)]
            name != "logged_in"@ && name != "account"@ && name != "access_expires"@ && name
                != "refresh_expires"@ ==> json::member(status_tree(cfg, access_expires), name)
                is None,
{
    reveal_strlit("logged_in");
    reveal_strlit("account");
    reveal_strlit("access_expires");
    reveal_strlit("refresh_expires");
    assert("logged_in"@.len() == 9 && "account"@.len() == 7 && "access_expires"@.len() == 14
        && "refresh_expires"@.len() == 15);
}

/// The times that `auth status` tells are those of the saved tokens.
pub proof fn status_tells_the_saved_times(cfg: Config, t: Token)
    requires
        cfg.token == Some(t),
    ensures
        saved_access_expiry(cfg) == token::expiry_of(t.access_token@),
        saved_refresh_expiry(cfg) == Some(t.refresh_expires as int),
{
}

/// The lines of `auth status` show each token under its own label, in full
/// exactly where that was asked for, then when each expires, and the account.
pub proof fn status_lines_show_what_is_saved(
    cfg: Config,
    t: Token,
    access_expires: Option<int>,
    show: bool,
)
    requires
        cfg.token == Some(t),
    ensures
        show ==> status_lines_of(cfg, access_expires, show)[0] == "access_token:    "@
            + t.access_token@,
        show ==> status_lines_of(cfg, access_expires, show)[1] == "refresh_token:   "@
            + t.refresh_token@,
        !show ==> status_lines_of(cfg, access_expires, show)[0] == "access_token:    "@
            + trace::first(t.access_token@, 4) + "***"@,
        !show ==> status_lines_of(cfg, access_expires, show)[1] == "refresh_token:   "@
            + trace::first(t.refresh_token@, 4) + "***"@,
        access_expires matches Some(at) ==> status_lines_of(cfg, access_expires, show)[2]
            == "access_expiry:   "@ + times::shown_time(at),
        access_expires is None ==> status_lines_of(cfg, access_expires, show)[2]
            == "access_expiry:   unknown"@,
        status_lines_of(cfg, access_expires, show)[3] == "refresh_expiry:  "@ + times::shown_time(
            t.refresh_expires as int,
        ),
        cfg.account matches Some(a) ==> status_lines_of(cfg, access_expires, show).len() == 5
            && status_lines_of(cfg, access_expires, show)[4] == "account:         "@ + a.account@,
        cfg.account is None ==> status_lines_of(cfg, access_expires, show).len() == 4,
{
    reveal_strlit("access_expiry:   ");
    reveal_strlit("unknown");
    reveal_strlit("access_expiry:   unknown");
    assert("access_expiry:   unknown"@ =~= "access_expiry:   "@ + "unknown"@);
    let lines = status_lines_of(cfg, access_expires, show);
    if !show {
        assert(lines[0] =~= "access_token:    "@ + trace::first(t.access_token@, 4) + "***"@);
        assert(lines[1] =~= "refresh_token:   "@ + trace::first(t.refresh_token@, 4) + "***"@);
    }
}

/// Without tokens, `auth status` says so, and shows the account where there is
/// one.
pub proof fn status_says_that_nothing_is_saved(cfg: Config, access_expires: Option<int>, show: bool)
    requires
        cfg.token is None,
    ensures
        status_lines_of(cfg, access_expires, show)[0] == "no tokens saved"@,
        cfg.account matches Some(a) ==> status_lines_of(cfg, access_expires, show).len() == 2
            && status_lines_of(cfg, access_expires, show)[1] == "account:         "@ + a.account@,
        cfg.account is None ==> status_lines_of(cfg, access_expires, show).len() == 1,
{
    reveal_strlit("");
    assert("no tokens saved"@ + ""@ =~= "no tokens saved"@);
}

/// A login and a refresh report the account that they were for, and a logout
/// that it is done; each of them is a success.
pub proof fn reports_name_the_account(
    login: Report,
    refresh: Report,
    logout: Report,
    account: Seq<char>,
    cfg: Config,
)
    requires
        is_login_report(login, account),
        is_refresh_report(refresh, cfg),
        is_logout_report(logout),
        stored_account(cfg) == Some(account),
    ensures
        json::member(login.json@, "ok"@) == Some(Tree::Bool(true)),
        json::member(login.json@, "account"@) == Some(Tree::Str(account)),
        login.line@ == "logged in as "@ + account,
        refresh.json@ == login.json@,
        refresh.line@ == "tokens refreshed"@,
        json::member(logout.json@, "ok"@) == Some(Tree::Bool(true)),
        json::member(logout.json@, "account"@) is None,
        logout.line@ == "logged out"@,
{
    reveal_strlit("ok");
    reveal_strlit("account");
    assert("ok"@.len() == 2 && "account"@.len() == 7);
}

/// Messages name the two login requests alike, and tell the others apart.
pub proof fn requests_are_named(code: String)
    ensures
        LoginAction::Login.name() == "login"@,
        LoginAction::LoginAgain.name() == LoginAction::Login.name(),
        LoginAction::SendCode.name() == "send verification code"@,
        LoginAction::CheckCode(code).name() == "verify code"@,
        LoginAction::ReadCode.name() == "SMS code"@,
{
}

/// A command that lacks an argument is refused by the name of what it lacks,
/// and is asked for just that: the account before the password, the stored
/// account as the default, and no default for a secret.
pub proof fn missing_arguments_are_asked_for(
    account: Option<String>,
    password: Option<String>,
    code: Option<String>,
    captcha: Option<String>,
    no_browser: bool,
    given: String,
    cfg: Config,
)
    ensures
        missing_of(AuthCmd::Login { account: None, password }) == Some("missing <ACCOUNT>"@),
        missing_of(AuthCmd::Login { account: Some(given), password: None }) == Some(
            "missing <PASSWORD>"@,
        ),
        missing_of(AuthCmd::LoginSms { mobile: None, code, captcha, no_browser }) == Some(
            "missing <MOBILE>"@,
        ),
        questions_of(AuthCmd::Login { account: None, password }, cfg).len() == 1 + (
        if password is None {
            1int
        } else {
            0
        }),
        questions_of(AuthCmd::Login { account: None, password }, cfg)[0].name == "<ACCOUNT>"@,
        questions_of(AuthCmd::Login { account: None, password }, cfg)[0].default
            == stored_account(cfg),
        questions_of(AuthCmd::Login { account, password: None }, cfg).last().name
            == "<PASSWORD>"@,
        questions_of(AuthCmd::Login { account, password: None }, cfg).last().kind is Secret,
        questions_of(AuthCmd::Login { account, password: None }, cfg).last().default is None,
        questions_of(
            AuthCmd::LoginSms { mobile: None, code, captcha, no_browser },
            cfg,
        ).len() == 1,
        questions_of(AuthCmd::LoginSms { mobile: None, code, captcha, no_browser }, cfg)[0].name
            == "<MOBILE>"@,
        questions_of(AuthCmd::LoginSms { mobile: None, code, captcha, no_browser }, cfg)[0].kind
            is Mobile,
        questions_of(AuthCmd::LoginSms { mobile: None, code, captcha, no_browser }, cfg)[0].default
            matches Some(m) ==> mobile::is_mobile(m) && stored_account(cfg) == Some(m),
        cfg.account matches Some(a) ==> mobile::is_mobile(a.account@) ==> questions_of(
            AuthCmd::LoginSms { mobile: None, code, captcha, no_browser },
            cfg,
        )[0].default == Some(a.account@),
{
}

/// What was given on the command line stays, and what was typed stands where
/// something was missing, in the order of the questions.
pub proof fn typed_arguments_are_used(
    cmd: AuthCmd,
    cfg: Config,
    typed: Seq<Seq<char>>,
    out: AuthCmd,
)
    requires
        is_completed(cmd, typed, out),
        typed.len() == questions_of(cmd, cfg).len(),
    ensures
        missing_of(out) is None,
        cmd matches AuthCmd::Login { account, password } ==> (out matches AuthCmd::Login {
            account: a,
            password: p,
        } && a is Some && p is Some && a->Some_0@ == (match account {
            Some(given) => given@,
            None => typed[0],
        }) && p->Some_0@ == (match password {
            Some(given) => given@,
            None => typed.last(),
        })),
        cmd matches AuthCmd::LoginSms { mobile, code, captcha, no_browser } ==> (
        out matches AuthCmd::LoginSms { mobile: m, code: c, captcha: t, no_browser: n } && m is Some
            && m->Some_0@ == (match mobile {
            Some(given) => given@,
            None => typed[0],
        }) && c == code && t == captcha && n == no_browser),
        cmd matches AuthCmd::Status { show } ==> out == (AuthCmd::Status { show }),
        cmd is Refresh ==> out is Refresh,
        cmd is Logout ==> out is Logout,
{
}

/// Nobody is asked for anything without `--interactive`, and nobody for what
/// the command line gave: a command that lacks nothing is completed with
/// nothing. Where something is missing and there is no terminal, it fails and
/// shows nothing.
pub proof fn only_gaps_are_asked_for(
    r: Asked<AuthCmd>,
    cmd: AuthCmd,
    cfg: Config,
    before: SessionView,
    after: SessionView,
    is_terminal: bool,
)
    ensures
        is_filled(r, cmd, cfg, before, after, false, is_terminal) ==> r == Asked::Value(cmd) && after
            == before,
        is_filled(r, cmd, cfg, before, after, true, is_terminal) && questions_of(cmd, cfg).len() == 0 ==> r is Value
            && is_completed(cmd, Seq::empty(), r->Value_0) && after == before,
        is_filled(r, cmd, cfg, before, after, true, false) && questions_of(cmd, cfg).len() > 0 ==> r is Failed && after
            == before && r->Failed_0@ == prompt::no_terminal(questions_of(cmd, cfg), example_of(cmd)),
{
}

/// A text that is no mobile number is refused before anything else, with the
/// text in the message, whatever else was given.
pub proof fn sms_logins_need_a_number(
    target: Seq<char>,
    code: Option<Seq<char>>,
    captcha: Option<Seq<char>>,
    is_terminal: bool,
)
    requires
        !mobile::is_mobile(target),
    ensures
        sms_first(target, code, captcha, is_terminal) == Err::<
            (Option<Seq<char>>, SmsView),
            Seq<char>,
        >("expected a mobile number like 12345678901, got '"@ + target + "'"@),
{
}

} // verus!
