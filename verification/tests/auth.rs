use oray_tools::auth::{
    generate_client_id, login_with_code_body, md5_hex, refresh_expires_at, seccode_checksum,
    send_login_code_body, AuthApi, AuthResponse, LoginOutcome, NewDeviceAlert, RefreshExpires,
    SendCodeResponse, CAPTCHA_SCENE, LOGIN_CODE_PLAN,
};
use oray_tools::error::Error;
use oray_tools::json::Json;
use oray_tools::trace::{Exchange, Request, RequestLog};

/// The formula and the timestamps are those of a recorded request; the target
/// is a dummy number.
#[test]
fn seccode_checksum_matches_captured_client() {
    assert_eq!(
        seccode_checksum("sl-code-client-login", "12345678901", 1790321487),
        "1e2a5b17983b451d932bd1a935362f30"
    );
    assert_eq!(
        seccode_checksum("sl-code-client-login", "12345678901", 1790321424),
        "e7338c50fe7ce28363ba40c903420d6f"
    );
}

#[test]
fn md5_of_known_texts() {
    assert_eq!(md5_hex(""), "d41d8cd98f00b204e9800998ecf8427e");
    assert_eq!(md5_hex("abc"), "900150983cd24fb0d6963f7d28e17f72");
    assert_eq!(md5_hex("密码"), md5_hex("密码"));
    assert_eq!(md5_hex("密码").len(), 32);
}

#[test]
fn client_ids_are_fresh_v4_uuids() {
    let a = generate_client_id();
    let b = generate_client_id();
    assert_ne!(a, b);
    for id in [a, b] {
        assert_eq!(id.len(), 36, "{id}");
        let chars: Vec<char> = id.chars().collect();
        for i in [8usize, 13, 18, 23] {
            assert_eq!(chars[i], '-', "{id}");
        }
        assert_eq!(chars[14], '4', "{id}");
        assert!(matches!(chars[19], '8' | '9' | 'a' | 'b'), "{id}");
    }
}

fn parsed(body: &str) -> serde_json::Value {
    serde_json::from_str(body).unwrap()
}

#[test]
fn send_login_code_body_fields() {
    let body = send_login_code_body("12345678901", 1790321487, "TOKEN");
    let v = parsed(&body);
    assert_eq!(v["target"], "12345678901");
    assert_eq!(v["plan_alias"], LOGIN_CODE_PLAN);
    assert_eq!(v["length"], 6);
    assert_eq!(v["send_voice_confirm"], 3);
    assert_eq!(v["brand_id"], 3);
    assert_eq!(v["timestamp"], 1790321487);
    assert_eq!(v["aliyun_captcha_response"], "TOKEN");
    assert_eq!(v["aliyun_captcha_sceneid"], CAPTCHA_SCENE);
    assert_eq!(v["checksum"], "1e2a5b17983b451d932bd1a935362f30");
}

#[test]
fn login_with_code_body_fields() {
    let body = login_with_code_body("12345678901", "123456");
    let v = parsed(&body);
    assert_eq!(v["type"], "securecode");
    assert_eq!(v["account"], "12345678901");
    assert_eq!(v["code"], "123456");
    assert_eq!(v["medium"], "sms");
    assert_eq!(v["code-type"], LOGIN_CODE_PLAN);
    assert_eq!(v["oaid"], "");
}

/// A response with the fields of a JSON document.
fn resp(raw: &str) -> AuthResponse {
    let value = Json::parse(raw).unwrap();
    let text = |name: &str| -> String { value.get(name).unwrap().as_text().unwrap().clone() };
    AuthResponse {
        access_token: text("access_token"),
        refresh_token: text("refresh_token"),
        refresh_expires: match value.get("refresh_expires") {
            Some(v) => RefreshExpires::from_json(v),
            None => RefreshExpires::default(),
        },
        refresh_ttl: value.get("refresh_ttl").and_then(|v| v.as_i64()).map(|v| v as u64),
    }
}

/// The securecode answer carries the same token fields as a password login.
#[test]
fn auth_response_from_securecode() {
    let raw = r#"{"access_token":"a","refresh_token":"b","refresh_ttl":1792913498,"is_recalled_user":false}"#;
    let parsed = resp(raw);
    assert_eq!(parsed.access_token, "a");
    assert_eq!(parsed.refresh_token, "b");
    assert_eq!(parsed.refresh_ttl, Some(1792913498));
}

/// Fixed clock.
const NOW: i64 = 1_800_000_000;
const TEN_YEARS: i64 = 10 * 365 * 24 * 3600;
const THIRTY_DAYS: i64 = 30 * 24 * 3600;

/// A numeric `refresh_expires` is an absolute timestamp.
#[test]
fn refresh_expires_number_is_absolute() {
    let r = resp(r#"{"access_token":"a","refresh_token":"b","refresh_expires":1790000000}"#);
    assert_eq!(r.refresh_expires, RefreshExpires::Timestamp(1_790_000_000));
    assert_eq!(refresh_expires_at(&r, NOW), 1_790_000_000);
}

/// So is a numeric string (`"1790000000"`).
#[test]
fn refresh_expires_numeric_string_is_absolute() {
    let r = resp(r#"{"access_token":"a","refresh_token":"b","refresh_expires":"1790000000"}"#);
    assert_eq!(r.refresh_expires, RefreshExpires::Timestamp(1_790_000_000));
    assert_eq!(refresh_expires_at(&r, NOW), 1_790_000_000);
}

/// `refresh_expires` wins over `refresh_ttl`.
#[test]
fn refresh_expires_beats_refresh_ttl() {
    let r = resp(
        r#"{"access_token":"a","refresh_token":"b","refresh_expires":1790000000,"refresh_ttl":60}"#,
    );
    assert_eq!(refresh_expires_at(&r, NOW), 1_790_000_000);
}

/// A login-shaped `refresh_ttl` is a TTL in seconds: `now + ttl`.
#[test]
fn refresh_ttl_is_relative() {
    let r = resp(r#"{"access_token":"a","refresh_token":"b","refresh_ttl":2592000}"#);
    assert_eq!(refresh_expires_at(&r, NOW), NOW + 2_592_000);
}

/// The 10-year threshold: exactly at it the value is still a TTL, one second
/// above it it is treated as an absolute timestamp.
#[test]
fn refresh_ttl_threshold_between_relative_and_absolute() {
    let at = resp(&format!(
        r#"{{"access_token":"a","refresh_token":"b","refresh_ttl":{TEN_YEARS}}}"#
    ));
    assert_eq!(refresh_expires_at(&at, NOW), NOW + TEN_YEARS);

    let above = resp(&format!(
        r#"{{"access_token":"a","refresh_token":"b","refresh_ttl":{}}}"#,
        TEN_YEARS + 1
    ));
    assert_eq!(refresh_expires_at(&above, NOW), TEN_YEARS + 1);
}

/// Nothing usable at all: assume 30 days.
#[test]
fn missing_expiry_defaults_to_thirty_days() {
    let r = resp(r#"{"access_token":"a","refresh_token":"b"}"#);
    assert_eq!(r.refresh_expires, RefreshExpires::Unknown);
    assert_eq!(refresh_expires_at(&r, NOW), NOW + THIRTY_DAYS);
}

/// `refresh_expires: null` degrades to "unknown" and the TTL (or the 30-day
/// default) is used instead.
#[test]
fn refresh_expires_null_degrades_to_ttl_fallback() {
    let with_ttl = resp(
        r#"{"access_token":"a","refresh_token":"b","refresh_expires":null,"refresh_ttl":60}"#,
    );
    assert_eq!(with_ttl.refresh_expires, RefreshExpires::Unknown);
    assert_eq!(refresh_expires_at(&with_ttl, NOW), NOW + 60);

    let without = resp(r#"{"access_token":"a","refresh_token":"b","refresh_expires":null}"#);
    assert_eq!(refresh_expires_at(&without, NOW), NOW + THIRTY_DAYS);
}

/// Unusable shapes (non-numeric string, object) are tolerated and fall back
/// like a missing field.
#[test]
fn refresh_expires_garbage_is_tolerated() {
    for raw in [
        r#"{"access_token":"a","refresh_token":"b","refresh_expires":"soon"}"#,
        r#"{"access_token":"a","refresh_token":"b","refresh_expires":{"odd":true}}"#,
        r#"{"access_token":"a","refresh_token":"b","refresh_expires":true}"#,
        r#"{"access_token":"a","refresh_token":"b","refresh_expires":1.5}"#,
    ] {
        let r = resp(raw);
        assert_eq!(r.refresh_expires, RefreshExpires::Unknown, "{raw}");
        assert_eq!(refresh_expires_at(&r, NOW), NOW + THIRTY_DAYS, "{raw}");
    }
}

// -------------------------------------------------------------------- requests

fn header<'a>(req: &'a Request, name: &str) -> Option<&'a str> {
    req.headers.iter().find(|h| h.0 == name).map(|h| h.1.as_str())
}

#[test]
fn a_password_login_request() {
    let api = AuthApi::new("https://api.example.com/");
    let req = api.login("CID", "alice", "00ff");
    assert_eq!(req.method, "POST");
    assert_eq!(req.url, "https://api.example.com/authorization");
    assert_eq!(header(&req, "EX-ClientId"), Some("CID"));
    assert_eq!(header(&req, "Content-Type"), Some("application/json; charset=utf-8"));
    assert_eq!(header(&req, "Authorization"), None);
    let v = parsed(req.body.as_deref().unwrap());
    assert_eq!(v["type"], "password");
    assert_eq!(v["account"], "alice");
    assert_eq!(v["password"], "00ff");
    assert_eq!(v["ismd5"], true);
    assert_eq!(v.as_object().unwrap().len(), 7);
}

#[test]
fn a_verification_code_request_is_salted() {
    let api = AuthApi::new("https://api.example.com");
    let req = api.sendcode_at("CID", "alice", 1790321487123);
    assert_eq!(req.url, "https://api.example.com/login-terminals/sendcode");
    let v = parsed(req.body.as_deref().unwrap());
    assert_eq!(v["t"], "1790321487123");
    assert_eq!(v["method"], "mobile");
    assert_eq!(v["checksum"], md5_hex("alicemobile1790321487123sunlogin.oray.com"));
    let now = api.sendcode("CID", "alice");
    assert_eq!(now.url, req.url);
    assert_ne!(now.body, req.body);
}

#[test]
fn a_code_check_request() {
    let api = AuthApi::new("https://api.example.com");
    let req = api.checkcode("CID", "alice", "123456", "desk");
    assert_eq!(req.method, "PUT");
    assert_eq!(req.url, "https://api.example.com/login-terminals/checkcode");
    let v = parsed(req.body.as_deref().unwrap());
    assert_eq!(v["code"], "123456");
    assert_eq!(v["terminal_name"], "desk");
    assert_eq!(v["memo"], "");
}

#[test]
fn a_refresh_request_carries_both_tokens() {
    let api = AuthApi::new("https://api.example.com");
    let req = api.refresh("CID", "AT", "RT");
    assert_eq!(req.url, "https://api.example.com/authorize/refreshing");
    assert_eq!(header(&req, "Authorization"), Some("Bearer AT"));
    assert_eq!(req.body.as_deref(), Some(r#"{"refresh_token":"RT"}"#));
}

#[test]
fn the_shield_service_gets_no_app_headers() {
    let api = AuthApi::new("https://api.example.com").shield_base("https://shield.example.com/");
    let req = api.send_login_code_at("12345678901", "TOKEN", 1790321487);
    assert_eq!(req.url, "https://shield.example.com/seccode/mobile");
    assert_eq!(header(&req, "X-AppID"), None);
    assert_eq!(header(&req, "EX-ClientId"), None);
    assert_eq!(header(&req, "Country-Region"), Some("CN"));
    assert_eq!(
        req.body.as_deref(),
        Some(send_login_code_body("12345678901", 1790321487, "TOKEN").as_str())
    );
    assert_eq!(api.send_login_code("12345678901", "TOKEN").url, req.url);
    let login = api.login_with_code("CID", "12345678901", "123456");
    assert_eq!(login.url, "https://api.example.com/authorization");
    assert_eq!(
        login.body.as_deref(),
        Some(login_with_code_body("12345678901", "123456").as_str())
    );
}

// -------------------------------------------------------------------- outcomes

fn exchange(status: u16, text: &str) -> Exchange {
    Exchange {
        log: RequestLog {
            method: "POST".to_string(),
            url: "https://api.example.com/authorization".to_string(),
            request_headers: Vec::new(),
            request_body: None,
            status: Some(status),
            response_body: text.to_string(),
        },
        status,
        text: text.to_string(),
    }
}

fn no_json<T>() -> Result<T, serde_json::Error> {
    match serde_json::from_str::<serde_json::Value>("{") {
        Ok(_) => panic!("parsed"),
        Err(e) => Err(e),
    }
}

fn alert() -> NewDeviceAlert {
    NewDeviceAlert {
        error: "new device".to_string(),
        code: 20101,
        mobile: "123****8901".to_string(),
        email: String::new(),
    }
}

#[test]
fn a_202_is_a_new_device() {
    let r = AuthApi::auth_outcome(exchange(202, "{}"), "login", Ok(alert()), no_json());
    match r {
        Ok(done) => {
            assert!(matches!(done.data, LoginOutcome::NewDevice(_)));
            assert_eq!(done.calls.len(), 1);
        }
        Err(_) => panic!("failed"),
    }
    let r = AuthApi::auth_outcome(exchange(202, "oops"), "login", no_json(), no_json());
    assert!(matches!(r, Err(e) if matches!(e.error, Error::BadBody { .. })));
}

#[test]
fn a_200_holds_tokens_and_anything_else_fails() {
    let tokens = || resp(r#"{"access_token":"a","refresh_token":"b"}"#);
    let r = AuthApi::auth_outcome(exchange(200, "{}"), "login", no_json(), Ok(tokens()));
    assert!(matches!(r, Ok(done) if matches!(done.data, LoginOutcome::Tokens(_))));
    let r = AuthApi::auth_outcome(exchange(403, "no"), "login", no_json(), Ok(tokens()));
    match r {
        Err(e) => {
            assert!(matches!(
                e.error,
                Error::HttpStatus { what: "login", status: 403, .. }
            ));
            assert_eq!(e.calls.len(), 1);
        }
        Ok(_) => panic!("accepted"),
    }
}

#[test]
fn acknowledgements_need_a_2xx() {
    assert!(AuthApi::expect_ok(exchange(204, ""), "sendcode").is_ok());
    assert!(AuthApi::expect_ok(exchange(299, "x"), "sendcode").is_ok());
    assert!(AuthApi::expect_ok(exchange(300, ""), "sendcode").is_err());
    assert!(AuthApi::expect_ok(exchange(199, ""), "sendcode").is_err());
}

#[test]
fn sent_codes_and_refreshed_tokens() {
    let sent = SendCodeResponse { request_num: Some(2), medium: None };
    let r = AuthApi::send_login_code_outcome(exchange(200, "{}"), Ok(sent));
    assert!(matches!(r, Ok(done) if done.data.request_num == Some(2)));
    let r = AuthApi::refresh_outcome(
        exchange(200, "{}"),
        Ok(resp(r#"{"access_token":"x","refresh_token":"y"}"#)),
    );
    assert!(matches!(r, Ok(done) if done.data.access_token == "x"));
    let r = AuthApi::refresh_outcome(exchange(500, "down"), no_json());
    assert!(matches!(r, Err(e) if matches!(e.error, Error::HttpStatus { what: "refresh", .. })));
}
