use base64::Engine;
use oray_tools::auth::{AuthResponse, RefreshExpires};
use oray_tools::config::{Account, Client, Config, Token};
use oray_tools::error::Error;
use oray_tools::json::Json;
use oray_tools::token::{
    access_expiry, adopt_refreshed, ensure_token, ensure_token_at, expired_at, is_access_expired,
    plan_token, refresh_expiry, resolve_clientid, token_of, with_token, AfterCall, Attempt,
    TokenPlan,
    TokenStep, EXPIRY_SKEW_SECS,
};
use oray_tools::trace::{Traced, TracedError, TracedResult};

/// A response with the fields of a JSON document.
fn resp(raw: &str) -> AuthResponse {
    let value = Json::parse(raw).unwrap();
    let text = |name: &str| -> String { value.get(name).unwrap().as_text().unwrap().clone() };
    AuthResponse {
        access_token: text("access_token"),
        refresh_token: text("refresh_token"),
        refresh_expires: match value.get("refresh_expires") {
            Some(v) => RefreshExpires::from_json(v),
            None => RefreshExpires::default(),
        },
        refresh_ttl: value.get("refresh_ttl").and_then(|v| v.as_i64()).map(|v| v as u64),
    }
}

const TEN_YEARS: i64 = 10 * 365 * 24 * 3600;
const THIRTY_DAYS: i64 = 30 * 24 * 3600;

/// `refresh_expiry` reads the clock itself, so a relative expectation can
/// only be bounded: the value must be `before + offset ..= after + offset`
/// for the two clock reads around the call.
fn assert_relative(resp: &AuthResponse, offset: i64) {
    let before = chrono::Utc::now().timestamp();
    let got = refresh_expiry(resp);
    let after = chrono::Utc::now().timestamp();
    assert!(
        before + offset <= got && got <= after + offset,
        "expected now {offset}, got {got} (before {before}, after {after})"
    );
}

/// A numeric `refresh_expires` is an absolute timestamp, clock-free.
#[test]
fn refresh_expiry_number_field_is_absolute() {
    let r = resp(r#"{"access_token":"a","refresh_token":"b","refresh_expires":1790000000}"#);
    assert_eq!(refresh_expiry(&r), 1_790_000_000);
}

/// … and so is its numeric-string form.
#[test]
fn refresh_expiry_numeric_string_is_absolute() {
    let r = resp(r#"{"access_token":"a","refresh_token":"b","refresh_expires":"1790000000"}"#);
    assert_eq!(refresh_expiry(&r), 1_790_000_000);
}

/// A login-shaped `refresh_ttl` is a TTL in seconds.
#[test]
fn refresh_expiry_ttl_is_relative_to_now() {
    let r = resp(r#"{"access_token":"a","refresh_token":"b","refresh_ttl":2592000}"#);
    assert_relative(&r, 2_592_000);
}

/// Exactly 10 years of seconds is still a TTL; one second more is read as an
/// absolute timestamp.
#[test]
fn refresh_expiry_ttl_threshold_between_relative_and_absolute() {
    let at = resp(&format!(
        r#"{{"access_token":"a","refresh_token":"b","refresh_ttl":{TEN_YEARS}}}"#
    ));
    assert_relative(&at, TEN_YEARS);

    let above = resp(&format!(
        r#"{{"access_token":"a","refresh_token":"b","refresh_ttl":{}}}"#,
        TEN_YEARS + 1
    ));
    assert_eq!(refresh_expiry(&above), TEN_YEARS + 1);
}

/// No expiry information at all: 30 days from now.
#[test]
fn refresh_expiry_defaults_to_thirty_days() {
    let r = resp(r#"{"access_token":"a","refresh_token":"b"}"#);
    assert_relative(&r, THIRTY_DAYS);
}

/// `refresh_expires: null` degrades to "unknown" instead of failing the
/// response, and the 30-day default applies.
#[test]
fn refresh_expiry_null_field_degrades_to_default() {
    let r = resp(r#"{"access_token":"a","refresh_token":"b","refresh_expires":null}"#);
    assert_eq!(r.refresh_expires, RefreshExpires::Unknown);
    assert_relative(&r, THIRTY_DAYS);
}

/// Build a JWT-shaped string (`header.payload.signature`) whose payload is
/// `payload` JSON. Only the middle segment is ever decoded.
fn jwt(payload: &str) -> String {
    let encoded = base64::engine::general_purpose::URL_SAFE_NO_PAD.encode(payload);
    format!("eyJhbGciOiJIUzI1NiJ9.{encoded}.c2lnbmF0dXJl")
}

/// `access_expiry` is the token's absolute `exp`, not a value re-anchored to
/// the clock: this token really expired at 1970-01-01 00:16:40 UTC.
#[test]
fn access_expiry_returns_the_absolute_exp() {
    assert_eq!(access_expiry(&jwt(r#"{"exp":1000,"isa":500}"#)), Some(1000));
    assert!(is_access_expired(&jwt(r#"{"exp":1000,"isa":500}"#)));
}

#[test]
fn is_access_expired_false_for_far_future_exp() {
    let far = chrono::Utc::now().timestamp() + 3600;
    let token = jwt(&format!(r#"{{"exp":{far},"isa":0}}"#));
    assert_eq!(access_expiry(&token), Some(far));
    assert!(!is_access_expired(&token));
}

/// Inside the skew window the token counts as expired so the next request
/// does not start with a token that dies in flight.
#[test]
fn is_access_expired_true_inside_the_skew_window() {
    let almost = chrono::Utc::now().timestamp() + EXPIRY_SKEW_SECS - 5;
    assert!(is_access_expired(&jwt(&format!(r#"{{"exp":{almost}}}"#))));
}

/// A token that cannot be parsed at all, or carries no `exp`, counts as
/// expired: the refresh path must still be attempted instead of shipping a
/// token the server will reject.
#[test]
fn is_access_expired_true_without_readable_expiry() {
    // No `.` segments: not a JWT.
    assert_eq!(access_expiry("not-a-jwt"), None);
    assert!(is_access_expired("not-a-jwt"));
    // Parses, but has no `exp` claim.
    assert_eq!(access_expiry(&jwt(r#"{"isa":500,"iat":500}"#)), None);
    assert!(is_access_expired(&jwt(r#"{"isa":500,"iat":500}"#)));
}

#[test]
fn unreadable_payloads_have_no_expiry() {
    assert_eq!(access_expiry("a.!!!.c"), None);
    assert_eq!(access_expiry(&jwt("not json")), None);
    assert_eq!(access_expiry(&jwt(r#"{"exp":"1000"}"#)), None);
    assert_eq!(access_expiry(&jwt(r#"{"exp":1.5}"#)), None);
}

#[test]
fn staleness_starts_at_the_skew() {
    assert!(expired_at(Some(1000), 1000));
    assert!(expired_at(Some(1000), 1000 - EXPIRY_SKEW_SECS));
    assert!(!expired_at(Some(1000), 999 - EXPIRY_SKEW_SECS));
    assert!(expired_at(None, 0));
}

// ------------------------------------------------------------------- client ids

#[test]
fn client_ids_come_from_the_flag_then_the_configuration() {
    let mut cfg = Config::default();
    cfg.client = Some(Client { clientid: "stored".to_string() });
    assert_eq!(resolve_clientid(&mut cfg, Some("given")), "given");
    assert_eq!(resolve_clientid(&mut cfg, Some("")), "stored");
    assert_eq!(resolve_clientid(&mut cfg, None), "stored");
    let mut fresh = Config::default();
    let id = resolve_clientid(&mut fresh, None);
    assert_eq!(id.len(), 36);
    assert_eq!(fresh.client.as_ref().unwrap().clientid, id);
    assert_eq!(resolve_clientid(&mut fresh, None), id);
}

#[test]
fn a_given_client_id_serves_one_run() {
    for stored in [None, Some("stored")] {
        let mut cfg = logged_in("garbage", "rt");
        cfg.client = stored.map(|id| Client { clientid: id.to_string() });
        match ensure_token(&mut cfg, false, Some("given")) {
            TokenStep::Refresh(req) => {
                assert!(req.headers.iter().any(|h| h.0 == "EX-ClientId" && h.1 == "given"));
            }
            _ => panic!("not renewed"),
        }
        adopt_refreshed(&mut cfg, resp(r#"{"access_token":"a","refresh_token":"b"}"#));
        assert_eq!(cfg.client.as_ref().map(|c| c.clientid.as_str()), stored);
    }
}

#[test]
fn tokens_are_renewed_by_the_clock() {
    let token = jwt(r#"{"exp":1000}"#);
    let mut cfg = logged_in(&token, "rt");
    assert!(matches!(ensure_token_at(&mut cfg, false, None, 954), TokenStep::Use(_)));
    assert!(cfg.client.is_none());
    assert!(matches!(ensure_token_at(&mut cfg, true, None, 954), TokenStep::Refresh(_)));
    assert!(matches!(ensure_token_at(&mut cfg, false, None, 955), TokenStep::Refresh(_)));
    cfg.token.as_mut().unwrap().refresh_token.clear();
    assert!(matches!(ensure_token_at(&mut cfg, false, None, 954), TokenStep::Use(_)));
    assert!(matches!(ensure_token_at(&mut cfg, false, None, 955), TokenStep::Fail(_)));
}

// ------------------------------------------------------------------------ tokens

fn logged_in(access: &str, refresh: &str) -> Config {
    let mut cfg = Config::default();
    cfg.account = Some(Account { account: "alice".into(), password_md5: "x".into() });
    cfg.token = Some(Token {
        access_token: access.into(),
        refresh_token: refresh.into(),
        refresh_expires: 0,
    });
    cfg
}

#[test]
fn plans_for_a_token() {
    match plan_token(&Config::default(), false, false) {
        TokenPlan::Fail(m) => assert_eq!(m, "no account configured; run `oray-tools auth login`"),
        _ => panic!("planned"),
    }
    assert!(matches!(
        plan_token(&logged_in("at", "rt"), false, false),
        TokenPlan::Use(t) if t.access_token == "at"
    ));
    assert!(matches!(
        plan_token(&logged_in("at", "rt"), false, true),
        TokenPlan::Refresh(a, r) if a == "at" && r == "rt"
    ));
    assert!(matches!(plan_token(&logged_in("at", "rt"), true, false), TokenPlan::Refresh(..)));
    match plan_token(&logged_in("at", ""), false, true) {
        TokenPlan::Fail(m) => assert_eq!(
            m,
            "no valid access token and no refresh token; run `oray-tools auth login`"
        ),
        _ => panic!("planned"),
    }
}

#[test]
fn good_tokens_are_used_and_stale_ones_renewed() {
    let far = chrono::Utc::now().timestamp() + 3600;
    let good = jwt(&format!(r#"{{"exp":{far}}}"#));
    let mut cfg = logged_in(&good, "rt");
    assert!(matches!(ensure_token(&mut cfg, false, None), TokenStep::Use(t) if t.access_token == good));
    cfg.client = Some(Client { clientid: "CID".to_string() });
    match ensure_token(&mut cfg, true, None) {
        TokenStep::Refresh(req) => {
            assert!(req.url.ends_with("/authorize/refreshing"));
            assert!(req.headers.iter().any(|h| h.0 == "EX-ClientId" && h.1 == "CID"));
            assert_eq!(req.body.as_deref(), Some(r#"{"refresh_token":"rt"}"#));
        }
        _ => panic!("not renewed"),
    }
    let mut cfg = logged_in("garbage", "rt");
    assert!(matches!(ensure_token(&mut cfg, false, None), TokenStep::Refresh(_)));
    assert!(cfg.client.is_some(), "a fresh client id is kept");
}

#[test]
fn refreshed_tokens_are_kept() {
    let mut cfg = logged_in("old", "rt");
    let t = adopt_refreshed(
        &mut cfg,
        resp(r#"{"access_token":"new","refresh_token":"rt2","refresh_expires":1790000000}"#),
    );
    assert_eq!(t.refresh_expires, 1_790_000_000);
    assert_eq!(cfg.token.as_ref().unwrap().access_token, "new");
    assert_eq!(cfg.account.as_ref().unwrap().account, "alice");
    let t = token_of(resp(r#"{"access_token":"a","refresh_token":"b","refresh_ttl":60}"#), 100);
    assert_eq!(t.refresh_expires, 160);
}

fn expired() -> TracedResult<u8> {
    Err(TracedError { error: Error::TokenExpired("x".to_string()), calls: Vec::new() })
}

#[test]
fn expired_tokens_are_renewed_once() {
    match with_token(expired(), Attempt::First, true) {
        AfterCall::Retry(_, next) => {
            assert!(next.force() && !Attempt::First.force());
            assert!(matches!(with_token(expired(), next, true), AfterCall::Fail(_)));
        }
        _ => panic!("not tried again"),
    }
    assert!(matches!(with_token(expired(), Attempt::First, false), AfterCall::Fail(_)));
    let other: TracedResult<u8> =
        Err(TracedError { error: Error::Api("no".to_string()), calls: Vec::new() });
    assert!(matches!(with_token(other, Attempt::First, true), AfterCall::Fail(_)));
    let done: TracedResult<u8> = Ok(Traced { data: 9, calls: Vec::new() });
    assert!(matches!(with_token(done, Attempt::First, true), AfterCall::Done(9, _)));
}
