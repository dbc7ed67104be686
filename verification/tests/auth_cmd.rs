use oray_tools::auth::{md5_hex, AuthApi, AuthResponse, LoginOutcome, NewDeviceAlert, RefreshExpires};
use oray_tools::auth_cmd::{
    adopt_login, code_unreachable, fill, log_out, login_report, login_step, logout_report,
    missing, password_to_keep, print_tokens, refresh_report, saved_account, sms_start, sms_step,
    status_json, status_json_with, status_lines_with, tokens_to_refresh, AuthCmd, LoginAction,
    LoginEvent, LoginNext, SmsAction, SmsEvent, SmsNext,
};
use oray_tools::config::{Account, Config, Token};
use oray_tools::prompt::{Asked, Session};

/// The fail-fast decision shared by both login flows: it only fires when a
/// code will certainly be requested *and* cannot be collected.
#[test]
fn sms_code_guard_fails_only_without_code_and_terminal() {
    // Bail immediately, before the captcha wait and before any SMS-consuming
    // request.
    assert!(code_unreachable(false, false));
    // `--code 123456` skips the captcha + SMS and proceeds (it does not read
    // the code from stdin).
    assert!(!code_unreachable(true, false));
    // A real terminal keeps behaving exactly as before.
    assert!(!code_unreachable(false, true));
    assert!(!code_unreachable(true, true));
}

fn account(name: &str, md5: &str) -> Config {
    let mut cfg = Config::default();
    cfg.account = Some(Account { account: name.into(), password_md5: md5.into() });
    cfg
}

fn login(account: Option<&str>, password: Option<&str>) -> AuthCmd {
    AuthCmd::Login {
        account: account.map(|s| s.to_string()),
        password: password.map(|s| s.to_string()),
    }
}

#[test]
fn credentials_are_asked_for() {
    let mut io = Session::over("\ns3cret \n");
    match fill(login(None, None), &account("alice", "x"), true, &mut io, true) {
        Asked::Value(AuthCmd::Login { account, password }) => {
            assert_eq!(account.as_deref(), Some("alice"), "the saved account is the default");
            assert_eq!(password.as_deref(), Some("s3cret "));
        }
        _ => panic!("not filled"),
    }
    assert!(io.out.starts_with("Account (mobile or email) [alice]: Password: "), "{}", io.out);
    // Given values are never asked for again.
    let mut io = Session::over("pw\n");
    match fill(login(Some("bob"), None), &account("alice", "x"), true, &mut io, true) {
        Asked::Value(AuthCmd::Login { account, .. }) => assert_eq!(account.as_deref(), Some("bob")),
        _ => panic!("not filled"),
    }
    let mut io = Session::over("pw\n");
    assert!(matches!(
        fill(login(None, None), &Config::default(), true, &mut io, false),
        Asked::Failed(_)
    ));
    assert!(matches!(
        fill(AuthCmd::Refresh, &Config::default(), true, &mut io, false),
        Asked::Value(AuthCmd::Refresh)
    ));
}

fn sms(mobile: Option<&str>) -> AuthCmd {
    AuthCmd::LoginSms {
        mobile: mobile.map(|s| s.to_string()),
        code: Some("123456".into()),
        captcha: None,
        no_browser: true,
    }
}

#[test]
fn a_saved_mobile_number_is_the_default() {
    let mut io = Session::over("\n");
    match fill(sms(None), &account("12345678901", ""), true, &mut io, true) {
        Asked::Value(AuthCmd::LoginSms { mobile, code, captcha, no_browser }) => {
            assert_eq!(mobile.as_deref(), Some("12345678901"));
            assert_eq!(code.as_deref(), Some("123456"));
            assert!(captcha.is_none() && no_browser);
        }
        _ => panic!("not filled"),
    }
    // An account that is no number is not offered, and none is accepted.
    let mut io = Session::over("alice\n12345678901\n");
    match fill(sms(None), &account("alice@example.com", ""), true, &mut io, true) {
        Asked::Value(AuthCmd::LoginSms { mobile, .. }) => {
            assert_eq!(mobile.as_deref(), Some("12345678901"));
        }
        _ => panic!("not filled"),
    }
    assert_eq!(io.out.matches("Mobile number: ").count(), 2);
}

#[test]
fn missing_credentials_are_named() {
    assert_eq!(missing(&login(None, None)), Some("missing <ACCOUNT>"));
    assert_eq!(missing(&login(Some("a"), None)), Some("missing <PASSWORD>"));
    assert_eq!(missing(&login(Some("a"), Some("b"))), None);
    assert_eq!(missing(&sms(None)), Some("missing <MOBILE>"));
    assert_eq!(missing(&AuthCmd::Logout), None);
    assert_eq!(saved_account(&account("alice", "x")).as_deref(), Some("alice"));
    assert_eq!(saved_account(&Config::default()), None);
}

// ---------------------------------------------------------------- password login

fn tokens() -> AuthResponse {
    AuthResponse {
        access_token: "at".to_string(),
        refresh_token: "rt".to_string(),
        refresh_expires: RefreshExpires::Timestamp(1_790_000_000),
        refresh_ttl: None,
    }
}

fn alert() -> NewDeviceAlert {
    NewDeviceAlert {
        error: "unknown \"device\"".to_string(),
        code: -7,
        mobile: String::new(),
        email: "a@example.com".to_string(),
    }
}

fn new_device() -> LoginEvent {
    LoginEvent::Outcome(LoginOutcome::NewDevice(alert()))
}

fn got_tokens() -> LoginEvent {
    LoginEvent::Outcome(LoginOutcome::Tokens(tokens()))
}

#[test]
fn a_trusted_device_logs_in_at_once() {
    let next = login_step(&LoginAction::Login, got_tokens(), false);
    assert!(matches!(next, LoginNext::Tokens(t) if t.access_token == "at"));
}

#[test]
fn a_new_device_is_verified_by_sms() {
    let next = login_step(&LoginAction::Login, new_device(), true);
    match next {
        LoginNext::Do(Some(said), LoginAction::SendCode) => assert_eq!(
            said,
            "New device detected (unknown \"device\"), code=-7: a@example.com requires SMS verification. A code has been sent."
        ),
        other => panic!("{other:?}"),
    }
    let next = login_step(&LoginAction::SendCode, LoginEvent::Done, true);
    assert!(matches!(next, LoginNext::Do(None, LoginAction::ReadCode)));
    let next = login_step(&LoginAction::ReadCode, LoginEvent::Code("42".into()), true);
    let check = match next {
        LoginNext::Do(None, action) => action,
        other => panic!("{other:?}"),
    };
    assert!(matches!(&check, LoginAction::CheckCode(c) if c == "42"));
    match login_step(&check, LoginEvent::Done, true) {
        LoginNext::Do(Some(said), LoginAction::LoginAgain) => {
            assert_eq!(said, "Device trusted, logging in again...");
        }
        other => panic!("{other:?}"),
    }
    assert!(matches!(
        login_step(&LoginAction::LoginAgain, got_tokens(), true),
        LoginNext::Tokens(_)
    ));
    match login_step(&LoginAction::LoginAgain, new_device(), true) {
        LoginNext::Failed(m) => assert_eq!(
            m,
            format!("re-login did not return tokens: {:?}", LoginOutcome::NewDevice(alert()))
        ),
        other => panic!("{other:?}"),
    }
}

#[test]
fn no_sms_is_requested_that_nobody_can_answer() {
    match login_step(&LoginAction::Login, new_device(), false) {
        LoginNext::Failed(m) => assert!(
            m.starts_with(
                "new-device SMS verification is required (unknown \"device\"), but stdin is not a terminal"
            ),
            "{m}"
        ),
        other => panic!("{other:?}"),
    }
}

#[test]
fn actions_have_their_requests() {
    let api = AuthApi::new("https://api.example.com");
    let md5 = md5_hex("pw");
    let request = |a: &LoginAction| a.request(&api, "CID", "alice", &md5, "desk");
    let first = request(&LoginAction::Login).unwrap();
    assert_eq!(first.url, "https://api.example.com/authorization");
    assert_eq!(request(&LoginAction::LoginAgain).unwrap().body, first.body);
    assert!(request(&LoginAction::SendCode).unwrap().url.ends_with("/sendcode"));
    assert!(request(&LoginAction::CheckCode("1".into())).unwrap().url.ends_with("/checkcode"));
    assert!(request(&LoginAction::ReadCode).is_none());
    assert_eq!(LoginAction::Login.label(), "login");
    assert_eq!(LoginAction::SendCode.label(), "send verification code");
    assert_eq!(LoginAction::CheckCode("1".into()).label(), "verify code");
}

// --------------------------------------------------------------------- SMS login

const MOBILE: &str = "12345678901";

#[test]
fn an_sms_login_fails_before_anything_is_sent() {
    match sms_start("123", &Some("1".into()), &None, true) {
        SmsNext::Failed(m) => {
            assert_eq!(m, "expected a mobile number like 12345678901, got '123'");
        }
        other => panic!("{other:?}"),
    }
    match sms_start(MOBILE, &None, &Some("t".into()), false) {
        SmsNext::Failed(m) => assert!(m.contains("--code <CODE>"), "{m}"),
        other => panic!("{other:?}"),
    }
}

#[test]
fn a_supplied_code_skips_captcha_and_sms() {
    match sms_start(MOBILE, &Some("987".into()), &Some("t".into()), false) {
        SmsNext::Do(Some(said), SmsAction::Login(code)) => {
            assert_eq!(code, "987");
            assert!(said.contains("skipping the captcha"), "{said}");
        }
        other => panic!("{other:?}"),
    }
}

#[test]
fn an_sms_login_goes_from_captcha_to_tokens() {
    assert!(matches!(
        sms_start(MOBILE, &None, &None, true),
        SmsNext::Do(None, SmsAction::Captcha)
    ));
    assert!(matches!(
        sms_start(MOBILE, &None, &Some("t".into()), true),
        SmsNext::Do(None, SmsAction::SendCode(t)) if t == "t"
    ));
    let send = match sms_step(MOBILE, &SmsAction::Captcha, SmsEvent::Solved("TOK".into())) {
        SmsNext::Do(None, action) => action,
        other => panic!("{other:?}"),
    };
    assert!(matches!(&send, SmsAction::SendCode(t) if t == "TOK"));
    match sms_step(MOBILE, &send, SmsEvent::Sent(Some(3))) {
        SmsNext::Do(Some(said), SmsAction::ReadCode) => assert_eq!(
            said,
            "verification code requested for 123****8901 (daily request #3)"
        ),
        other => panic!("{other:?}"),
    }
    match sms_step(MOBILE, &send, SmsEvent::Sent(None)) {
        SmsNext::Do(Some(said), _) => {
            assert_eq!(said, "verification code requested for 123****8901");
        }
        other => panic!("{other:?}"),
    }
    let login = match sms_step(MOBILE, &SmsAction::ReadCode, SmsEvent::Code("11".into())) {
        SmsNext::Do(None, action) => action,
        other => panic!("{other:?}"),
    };
    let outcome = SmsEvent::Outcome(LoginOutcome::Tokens(tokens()));
    assert!(matches!(sms_step(MOBILE, &login, outcome), SmsNext::Tokens(_)));
    let outcome = SmsEvent::Outcome(LoginOutcome::NewDevice(alert()));
    match sms_step(MOBILE, &login, outcome) {
        SmsNext::Failed(m) => {
            assert!(m.starts_with("server asked for extra device verification ("), "{m}");
        }
        other => panic!("{other:?}"),
    }
    let api = AuthApi::new("https://api.example.com").shield_base("https://shield.example.com");
    let req = send.request(&api, "CID", MOBILE).unwrap();
    assert_eq!(req.url, "https://shield.example.com/seccode/mobile");
    let req = login.request(&api, "CID", MOBILE).unwrap();
    assert!(req.body.unwrap().contains(r#""code":"11""#));
    assert!(SmsAction::Captcha.request(&api, "CID", MOBILE).is_none());
}

// ---------------------------------------------------------------- configuration

#[test]
fn a_login_is_written_down_and_forgotten() {
    let mut cfg = Config::default();
    cfg.tz = Some("+8h".to_string());
    adopt_login(&mut cfg, "alice", "md5".to_string(), "CID".to_string(), tokens());
    assert_eq!(cfg.account.as_ref().unwrap().account, "alice");
    assert_eq!(cfg.account.as_ref().unwrap().password_md5, "md5");
    assert_eq!(cfg.client.as_ref().unwrap().clientid, "CID");
    assert_eq!(cfg.token.as_ref().unwrap().refresh_expires, 1_790_000_000);
    assert_eq!(tokens_to_refresh(&cfg), Ok(("at".to_string(), "rt".to_string())));
    log_out(&mut cfg);
    assert!(cfg.account.is_none() && cfg.token.is_none());
    assert_eq!(cfg.client.as_ref().unwrap().clientid, "CID");
    assert_eq!(cfg.tz.as_deref(), Some("+8h"));
    assert_eq!(
        tokens_to_refresh(&cfg),
        Err("no token saved; run `oray-tools auth login` first".to_string())
    );
    cfg.token = Some(Token::default());
    assert_eq!(
        tokens_to_refresh(&cfg),
        Err("no refresh token saved; run `oray-tools auth login` first".to_string())
    );
}

#[test]
fn a_password_stays_with_its_account() {
    let cfg = account(MOBILE, "md5");
    assert_eq!(password_to_keep(&cfg, MOBILE), "md5");
    assert_eq!(password_to_keep(&cfg, "10987654321"), "");
    assert_eq!(password_to_keep(&Config::default(), MOBILE), "");
}

#[test]
fn auth_reports() {
    let r = login_report("alice");
    assert_eq!(r.line, "logged in as alice");
    assert_eq!(r.json.compact(), r#"{"account":"alice","ok":true}"#);
    let r = refresh_report(&Config::default());
    assert_eq!(r.line, "tokens refreshed");
    assert_eq!(r.json.compact(), r#"{"account":null,"ok":true}"#);
    let r = logout_report();
    assert_eq!(r.line, "logged out");
    assert_eq!(r.json.compact(), r#"{"ok":true}"#);
}

#[test]
fn tokens_are_masked_unless_they_are_to_be_shown() {
    let mut cfg = account("alice", "md5");
    cfg.token = Some(Token {
        access_token: "access-secret".into(),
        refresh_token: "refresh-secret".into(),
        refresh_expires: 0,
    });
    assert_eq!(
        status_lines_with(&cfg, Some(1_788_314_270), false),
        vec![
            "access_token:    acce***",
            "refresh_token:   refr***",
            "access_expiry:   2026-09-02T01:57:50+00:00",
            "refresh_expiry:  1970-01-01T00:00:00+00:00",
            "account:         alice",
        ]
    );
    let shown = print_tokens(&cfg, true);
    assert_eq!(shown[0], "access_token:    access-secret");
    assert_eq!(shown[2], "access_expiry:   unknown");
    assert_eq!(print_tokens(&Config::default(), true), vec!["no tokens saved"]);
    assert_eq!(
        status_json_with(&cfg, Some(5)).compact(),
        r#"{"access_expires":5,"account":"alice","logged_in":true,"refresh_expires":0}"#
    );
    assert_eq!(
        status_json(&Config::default()).compact(),
        r#"{"access_expires":null,"account":null,"logged_in":false,"refresh_expires":null}"#
    );
}
