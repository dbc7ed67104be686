//! The authentication endpoints: requests, and what their responses mean.
//!
//! Stateless: callers own credentials, client id and token lifecycle, and
//! perform the requests.

use crate::error;
use crate::json;
use crate::json::{Json, Tree};
use crate::schedule;
use crate::text;
use crate::times;
use crate::trace;
use crate::trace::{Exchange, Request, RequestView, Traced, TracedResult};
use md5::{Digest, Md5};
use serde_json::Error as JsonError;
use vstd::prelude::*;
use vstd::string::*;

verus! {

broadcast use vstd::seq_lib::group_seq_properties;

pub const ACCOUNT_TYPE: &'static str = "password";

pub const APP_ID: &'static str = "kNUC97u86Zr7mt9xeZVl";

/// Salt used to compute the sendcode `checksum`.
pub const CHECKSUM_SALT: &'static str = "sunlogin.oray.com";

/// Default base URL of the shield service that sends login SMS codes.
pub const SHIELD_BASE: &'static str = "https://shield-api-v3.oray.com";

/// Plan (template) alias of the SMS-code client login.
pub const LOGIN_CODE_PLAN: &'static str = "sl-code-client-login";

/// Aliyun captcha scene the shield service expects.
pub const CAPTCHA_SCENE: &'static str = "1sdsal45";

/// Path of the shield send-code endpoint; also part of its `checksum`.
pub const SECCODE_MOBILE_PATH: &'static str = "/seccode/mobile";

// ------------------------------------------------------------------ client ids

/// Whether `c` is a hexadecimal digit in lower case.
pub open spec fn hex_digit(c: char) -> bool {
    '0' <= c <= '9' || 'a' <= c <= 'f'
}

/// Whether `s` is written as a UUID of version 4.
pub open spec fn is_uuid_v4(s: Seq<char>) -> bool {
    &&& s.len() == 36
    &&& s[8] == '-' && s[13] == '-' && s[18] == '-' && s[23] == '-'
    &&& s[14] == '4'
    &&& s[19] == '8' || s[19] == '9' || s[19] == 'a' || s[19] == 'b'
    &&& forall|i: int|
        0 <= i < 36 && i != 8 && i != 13 && i != 18 && i != 23 ==> hex_digit(#[trigger] s[i])
}

/// `Uuid::new_v4` and `to_string`. Claimed: the result is written as a UUID
/// of version 4. Which one rests on chance.
#[verifier::external_body]
fn random_uuid() -> (r: String)
    ensures
        is_uuid_v4(r@),
{
    uuid::Uuid::new_v4().to_string()
}

/// Generates a machine-local client id: a random UUID of version 4.
pub fn generate_client_id() -> (r: String)
    ensures
        is_uuid_v4(r@),
{
    random_uuid()
}

// ------------------------------------------------------------------- checksums

/// The MD5 digest of the UTF-8 encoding of a text.
pub uninterp spec fn md5_digest(input: Seq<char>) -> Seq<u8>;

/// `Md5::digest` over the UTF-8 encoding of a text. Claimed: the digest
/// depends on the text alone, and has 16 bytes.
#[verifier::external_body]
fn md5_bytes(input: &str) -> (r: Vec<u8>)
    ensures
        r@ == md5_digest(input@),
        r@.len() == 16,
{
    Md5::digest(input.as_bytes()).to_vec()
}

/// The hexadecimal digit of a number below 16, in lower case.
pub open spec fn hex_char(n: int) -> char {
    if n < 10 {
        (48 + n) as char
    } else {
        (87 + n) as char
    }
}

/// Bytes in hexadecimal, in lower case, two digits each.
pub open spec fn hex_text(bytes: Seq<u8>) -> Seq<char>
    decreases bytes.len(),
{
    if bytes.len() == 0 {
        seq![]
    } else {
        hex_text(bytes.drop_last()) + seq![
            hex_char(bytes.last() as int / 16),
            hex_char(bytes.last() as int % 16),
        ]
    }
}

/// `hex::encode`: each byte as two hexadecimal digits in lower case.
#[verifier::external_body]
fn hex_encode(bytes: &Vec<u8>) -> (r: String)
    ensures
        r@ == hex_text(bytes@),
{
    hex::encode(bytes)
}

/// The MD5 digest of a text, in hexadecimal.
pub open spec fn md5_text(input: Seq<char>) -> Seq<char> {
    hex_text(md5_digest(input))
}

/// md5 (lowercase hex) of a string.
pub fn md5_hex(input: &str) -> (r: String)
    ensures
        r@ == md5_text(input@),
{
    hex_encode(&md5_bytes(input))
}

/// What the `checksum` of the shield send-code request is taken of.
pub open spec fn seccode_input(plan_alias: Seq<char>, target: Seq<char>, timestamp: int) -> Seq<
    char,
> {
    plan_alias + target + SECCODE_MOBILE_PATH@ + text::dec_int(timestamp)
}

/// `checksum` of the shield send-code request:
/// `md5(plan_alias + target + "/seccode/mobile" + timestamp)`, with the
/// timestamp in seconds.
pub fn seccode_checksum(plan_alias: &str, target: &str, timestamp: i64) -> (r: String)
    ensures
        r@ == md5_text(seccode_input(plan_alias@, target@, timestamp as int)),
{
    let mut s = plan_alias.to_owned();
    s.append(target);
    s.append(SECCODE_MOBILE_PATH);
    text::push_dec_int(&mut s, timestamp);
    md5_hex(s.as_str())
}

// ---------------------------------------------------------------- response types

/// The `refresh_expires` field of an [`AuthResponse`].
///
/// The service is inconsistent: the value may be absent, `null`, a number, a
/// numeric string, or something unusable.
#[derive(Debug, Clone, Copy, PartialEq, Eq, Structural)]
pub enum RefreshExpires {
    /// Absent, `null` or not a usable number: fall back to `refresh_ttl`.
    Unknown,
    /// An absolute unix timestamp (seconds).
    Timestamp(i64),
}

impl Default for RefreshExpires {
    fn default() -> (r: Self)
        ensures
            r == RefreshExpires::Unknown,
    {
        RefreshExpires::Unknown
    }
}

/// What a `refresh_expires` value says.
pub open spec fn expires_of(tree: Tree) -> Option<int> {
    match tree {
        Tree::Str(s) => text::parse_i64(s),
        _ => json::tree_i64(tree),
    }
}

impl RefreshExpires {
    /// Reads a `refresh_expires` value: an integer or a numeric string is a
    /// timestamp, anything else is unknown.
    pub fn from_json(value: &Json) -> (r: RefreshExpires)
        ensures
            r == (match expires_of(value@) {
                Some(ts) => RefreshExpires::Timestamp(ts as i64),
                None => RefreshExpires::Unknown,
            }),
    {
        let n = match value.as_text() {
            Some(s) => text::to_i64(s.as_str()),
            None => value.as_i64(),
        };
        match n {
            Some(ts) => RefreshExpires::Timestamp(ts),
            None => RefreshExpires::Unknown,
        }
    }
}

/// Tokens, as login and refresh answer them.
#[derive(Debug)]
pub struct AuthResponse {
    pub access_token: String,
    pub refresh_token: String,
    pub refresh_expires: RefreshExpires,
    /// Login: seconds of TTL; refresh: an absolute unix timestamp.
    pub refresh_ttl: Option<u64>,
}

/// Ten years of seconds: the limit between a TTL and a timestamp.
pub const TEN_YEARS: u64 = 315_360_000;

/// Thirty days of seconds.
pub const THIRTY_DAYS: i64 = 2_592_000;

/// The timestamp at which a refresh token expires.
pub open spec fn refresh_deadline(expires: RefreshExpires, ttl: Option<u64>, now: int) -> int {
    match (expires, ttl) {
        (RefreshExpires::Timestamp(ts), _) => ts as int,
        (RefreshExpires::Unknown, Some(ttl)) => if ttl > TEN_YEARS {
            schedule::signed(ttl)
        } else {
            now + ttl
        },
        (RefreshExpires::Unknown, None) => now + THIRTY_DAYS,
    }
}

/// Absolute unix timestamp (seconds) at which `refresh_token` expires. The
/// rules, in order:
///
/// 1. `refresh_expires` is a number: that absolute timestamp;
/// 2. `refresh_ttl` is more than 10 years of seconds: taken as absolute;
/// 3. `refresh_ttl` otherwise: `now + ttl`;
/// 4. nothing usable: `now + 30 days`.
pub fn refresh_expires_at(resp: &AuthResponse, now: i64) -> (r: i64)
    requires
        schedule::fits(
            refresh_deadline(resp.refresh_expires, resp.refresh_ttl, now as int),
        ),
    ensures
        r == refresh_deadline(resp.refresh_expires, resp.refresh_ttl, now as int),
{
    if let RefreshExpires::Timestamp(ts) = resp.refresh_expires {
        return ts;
    }
    match resp.refresh_ttl {
        Some(ttl) => if ttl > TEN_YEARS {
            schedule::to_signed(ttl)
        } else {
            now + ttl as i64
        },
        None => now + THIRTY_DAYS,
    }
}

/// The answer to a login from a device that is not trusted yet.
#[derive(Debug)]
pub struct NewDeviceAlert {
    pub error: String,
    pub code: i64,
    pub mobile: String,
    pub email: String,
}

/// Response of the shield send-code endpoint.
#[derive(Debug)]
pub struct SendCodeResponse {
    /// How many codes were requested for the target today.
    pub request_num: Option<i64>,
    /// Which medium delivered the last one.
    pub medium: Option<String>,
}

/// What a login came to.
#[derive(Debug)]
pub enum LoginOutcome {
    Tokens(AuthResponse),
    NewDevice(NewDeviceAlert),
}

// ----------------------------------------------------------------------- bodies

/// The document of the shield send-code request.
pub open spec fn send_login_code_tree(
    mobile: Seq<char>,
    timestamp: int,
    captcha_token: Seq<char>,
) -> Tree {
    Tree::Object(
        map![
            "target"@ => Tree::Str(mobile),
            "plan_alias"@ => Tree::Str(LOGIN_CODE_PLAN@),
            "length"@ => json::int_tree(6),
            "send_voice_confirm"@ => json::int_tree(3),
            "brand_id"@ => json::int_tree(3),
            "timestamp"@ => json::int_tree(timestamp),
            "checksum"@ => Tree::Str(md5_text(seccode_input(LOGIN_CODE_PLAN@, mobile, timestamp))),
            "aliyun_captcha_response"@ => Tree::Str(captcha_token),
            "aliyun_captcha_sceneid"@ => Tree::Str(CAPTCHA_SCENE@),
        ],
    )
}

/// Body of `POST {shield}/seccode/mobile`: request a 6-digit SMS login code
/// for `mobile`, bound to the captcha result of scene [`CAPTCHA_SCENE`].
pub fn send_login_code_body(mobile: &str, timestamp: i64, captcha_token: &str) -> (r: String)
    ensures
        r@ == json::json_compact(
            send_login_code_tree(mobile@, timestamp as int, captcha_token@),
        ),
{
    let mut f: Vec<(String, Json)> = Vec::new();
    json::put(&mut f, "target", json::json_str(mobile));
    json::put(&mut f, "plan_alias", json::json_str(LOGIN_CODE_PLAN));
    json::put(&mut f, "length", Json::Int(6));
    json::put(&mut f, "send_voice_confirm", Json::Int(3));
    json::put(&mut f, "brand_id", Json::Int(3));
    json::put(&mut f, "timestamp", Json::Int(timestamp));
    json::put(
        &mut f,
        "checksum",
        Json::Str(seccode_checksum(LOGIN_CODE_PLAN, mobile, timestamp)),
    );
    json::put(&mut f, "aliyun_captcha_response", json::json_str(captcha_token));
    json::put(&mut f, "aliyun_captcha_sceneid", json::json_str(CAPTCHA_SCENE));
    Json::Object(f).compact()
}

/// The document of the SMS-code login request.
pub open spec fn login_with_code_tree(account: Seq<char>, code: Seq<char>) -> Tree {
    Tree::Object(
        map![
            "type"@ => Tree::Str("securecode"@),
            "account"@ => Tree::Str(account),
            "code"@ => Tree::Str(code),
            "medium"@ => Tree::Str("sms"@),
            "code-type"@ => Tree::Str(LOGIN_CODE_PLAN@),
            "oaid"@ => Tree::Str(""@),
            "getui"@ => Tree::Str(""@),
            "umeng"@ => Tree::Str(""@),
        ],
    )
}

/// Body of `POST {api_base}/authorization` for SMS-code login.
pub fn login_with_code_body(account: &str, code: &str) -> (r: String)
    ensures
        r@ == json::json_compact(login_with_code_tree(account@, code@)),
{
    let mut f: Vec<(String, Json)> = Vec::new();
    json::put(&mut f, "type", json::json_str("securecode"));
    json::put(&mut f, "account", json::json_str(account));
    json::put(&mut f, "code", json::json_str(code));
    json::put(&mut f, "medium", json::json_str("sms"));
    json::put(&mut f, "code-type", json::json_str(LOGIN_CODE_PLAN));
    json::put(&mut f, "oaid", json::json_str(""));
    json::put(&mut f, "getui", json::json_str(""));
    json::put(&mut f, "umeng", json::json_str(""));
    Json::Object(f).compact()
}

/// The document of the password login request.
pub open spec fn login_tree(account: Seq<char>, password_md5: Seq<char>) -> Tree {
    Tree::Object(
        map![
            "type"@ => Tree::Str(ACCOUNT_TYPE@),
            "account"@ => Tree::Str(account),
            "password"@ => Tree::Str(password_md5),
            "ismd5"@ => Tree::Bool(true),
            "oaid"@ => Tree::Str(""@),
            "getui"@ => Tree::Str(""@),
            "umeng"@ => Tree::Str(""@),
        ],
    )
}

/// What the `checksum` of the sendcode request is taken of.
pub open spec fn sendcode_input(account: Seq<char>, t: Seq<char>) -> Seq<char> {
    account + "mobile"@ + t + CHECKSUM_SALT@
}

/// The document of the sendcode request, at a time in milliseconds.
pub open spec fn sendcode_tree(account: Seq<char>, millis: int) -> Tree {
    Tree::Object(
        map![
            "account"@ => Tree::Str(account),
            "method"@ => Tree::Str("mobile"@),
            "t"@ => Tree::Str(text::dec_int(millis)),
            "checksum"@ => Tree::Str(md5_text(sendcode_input(account, text::dec_int(millis)))),
        ],
    )
}

/// The document of the checkcode request.
pub open spec fn checkcode_tree(
    account: Seq<char>,
    code: Seq<char>,
    terminal_name: Seq<char>,
) -> Tree {
    Tree::Object(
        map![
            "terminal_name"@ => Tree::Str(terminal_name),
            "account"@ => Tree::Str(account),
            "method"@ => Tree::Str("mobile"@),
            "code"@ => Tree::Str(code),
            "memo"@ => Tree::Str(""@),
        ],
    )
}

/// The document of the refresh request.
pub open spec fn refresh_tree(refresh_token: Seq<char>) -> Tree {
    Tree::Object(map!["refresh_token"@ => Tree::Str(refresh_token)])
}

// --------------------------------------------------------------------- requests

/// The header that goes with a JSON body.
pub open spec fn json_content() -> (Seq<char>, Seq<char>) {
    ("Content-Type"@, "application/json; charset=utf-8"@)
}

/// The headers of a request to the authentication service.
pub open spec fn auth_headers(clientid: Seq<char>, token: Option<Seq<char>>) -> Seq<
    (Seq<char>, Seq<char>),
> {
    let common = seq![
        ("User-Agent"@, error::USER_AGENT@),
        ("X-Channel"@, "OPPO"@),
        ("X-AppID"@, APP_ID@),
        ("EX-ClientId"@, clientid),
        ("Country-Region"@, "zh-Hans_US"@),
        ("Accept-Language"@, "zh-Hans_US"@),
        ("Accept"@, "*/*"@),
    ];
    match token {
        Some(token) => common.push(("Authorization"@, trace::bearer(token))),
        None => common,
    }
}

/// The headers of a request to the shield service.
pub open spec fn shield_headers() -> Seq<(Seq<char>, Seq<char>)> {
    seq![
        ("User-Agent"@, error::USER_AGENT@),
        ("X-Channel"@, "OPPO"@),
        ("Country-Region"@, "CN"@),
        ("Accept"@, "*/*"@),
    ]
}

/// A request with a JSON body.
pub open spec fn json_request(
    method: Seq<char>,
    url: Seq<char>,
    headers: Seq<(Seq<char>, Seq<char>)>,
    body: Tree,
) -> RequestView {
    RequestView {
        method,
        url,
        headers: headers.push(json_content()),
        body: Some(json::json_compact(body)),
    }
}

/// Whether `r` is what a response without a payload comes to.
pub open spec fn is_plain_outcome(
    r: TracedResult<()>,
    ex: Exchange,
    what: &'static str,
) -> bool {
    if trace::is_success(ex.status) {
        r matches Ok(done) && done.calls@ == seq![ex.log]
    } else {
        trace::is_status_error(r, ex, what)
    }
}

/// Whether `r` is what an `/authorization` exchange comes to: tokens, or the
/// new-device alert.
pub open spec fn is_auth_outcome(
    r: TracedResult<LoginOutcome>,
    ex: Exchange,
    what: &'static str,
    alert: Result<NewDeviceAlert, JsonError>,
    tokens: Result<AuthResponse, JsonError>,
) -> bool {
    if ex.status == 202 {
        trace::is_parsed(
            r,
            ex,
            match alert {
                Ok(a) => Ok(LoginOutcome::NewDevice(a)),
                Err(e) => Err(e),
            },
        )
    } else {
        trace::is_expected_json(
            r,
            ex,
            what,
            match tokens {
                Ok(t) => Ok(LoginOutcome::Tokens(t)),
                Err(e) => Err(e),
            },
        )
    }
}

/// Thin wrapper over the Oray auth HTTP endpoints.
pub struct AuthApi {
    pub api_base: String,
    pub shield_base: String,
}

impl AuthApi {
    /// For the API base (e.g. `https://api-std.sunlogin.oray.com`).
    pub fn new(api_base: &str) -> (r: Self)
        ensures
            r.api_base@ == text::trim_end_char(api_base@, '/'),
            r.shield_base@ == SHIELD_BASE@,
    {
        AuthApi {
            api_base: text::without_trailing(api_base, '/'),
            shield_base: SHIELD_BASE.to_owned(),
        }
    }

    /// Override the shield base URL used to send login SMS codes.
    pub fn shield_base(self, base: &str) -> (r: Self)
        ensures
            r.api_base == self.api_base,
            r.shield_base@ == text::trim_end_char(base@, '/'),
    {
        AuthApi {
            api_base: self.api_base,
            shield_base: text::without_trailing(base, '/'),
        }
    }

    /// One request, with a `Content-Type` when a body is present.
    fn request(
        headers: Vec<(String, String)>,
        method: &'static str,
        url: String,
        body: Option<String>,
    ) -> (r: Request)
        ensures
            r@ == (RequestView {
                method: method@,
                url: url@,
                headers: if body is Some {
                    trace::headers_view(headers@).push(json_content())
                } else {
                    trace::headers_view(headers@)
                },
                body: text::opt_view(body),
            }),
    {
        let mut headers = headers;
        if body.is_some() {
            trace::add_header(&mut headers, "Content-Type", "application/json; charset=utf-8");
        }
        Request { method, url, headers, body }
    }

    /// A request to the authentication service.
    fn send(
        clientid: &str,
        method: &'static str,
        url: String,
        token: Option<&str>,
        body: String,
    ) -> (r: Request)
        ensures
            r@ == (RequestView {
                method: method@,
                url: url@,
                headers: auth_headers(
                    clientid@,
                    match token {
                        Some(t) => Some(t@),
                        None => None,
                    },
                ).push(json_content()),
                body: Some(body@),
            }),
    {
        let mut headers: Vec<(String, String)> = Vec::new();
        trace::add_header(&mut headers, "User-Agent", error::USER_AGENT);
        trace::add_header(&mut headers, "X-Channel", "OPPO");
        trace::add_header(&mut headers, "X-AppID", APP_ID);
        trace::add_header(&mut headers, "EX-ClientId", clientid);
        trace::add_header(&mut headers, "Country-Region", "zh-Hans_US");
        trace::add_header(&mut headers, "Accept-Language", "zh-Hans_US");
        trace::add_header(&mut headers, "Accept", "*/*");
        if let Some(tok) = token {
            trace::add_header(&mut headers, "Authorization", trace::bearer_value(tok).as_str());
        }
        proof {
            let shown = match token {
                Some(t) => Some(t@),
                None => None,
            };
            assert(trace::headers_view(headers@) =~= auth_headers(clientid@, shown));
        }
        AuthApi::request(headers, method, url, Some(body))
    }

    /// A request to the shield service, which receives no app headers.
    fn send_shield(method: &'static str, url: String, body: String) -> (r: Request)
        ensures
            r@ == (RequestView {
                method: method@,
                url: url@,
                headers: shield_headers().push(json_content()),
                body: Some(body@),
            }),
    {
        let mut headers: Vec<(String, String)> = Vec::new();
        trace::add_header(&mut headers, "User-Agent", error::USER_AGENT);
        trace::add_header(&mut headers, "X-Channel", "OPPO");
        trace::add_header(&mut headers, "Country-Region", "CN");
        trace::add_header(&mut headers, "Accept", "*/*");
        proof {
            assert(trace::headers_view(headers@) =~= shield_headers());
        }
        AuthApi::request(headers, method, url, Some(body))
    }

    /// The URL of an endpoint under the API base.
    fn endpoint(&self, path: &str) -> (r: String)
        ensures
            r@ == self.api_base@ + path@,
    {
        let mut url = self.api_base.clone();
        url.append(path);
        url
    }

    /// The request that authenticates with `password` already md5-hashed (hex,
    /// lowercase).
    pub fn login(&self, clientid: &str, account: &str, password_md5: &str) -> (r: Request)
        ensures
            r@ == json_request(
                "POST"@,
                self.api_base@ + "/authorization"@,
                auth_headers(clientid@, None),
                login_tree(account@, password_md5@),
            ),
    {
        let mut f: Vec<(String, Json)> = Vec::new();
        json::put(&mut f, "type", json::json_str(ACCOUNT_TYPE));
        json::put(&mut f, "account", json::json_str(account));
        json::put(&mut f, "password", json::json_str(password_md5));
        json::put(&mut f, "ismd5", Json::Bool(true));
        json::put(&mut f, "oaid", json::json_str(""));
        json::put(&mut f, "getui", json::json_str(""));
        json::put(&mut f, "umeng", json::json_str(""));
        AuthApi::send(
            clientid,
            "POST",
            self.endpoint("/authorization"),
            None,
            Json::Object(f).compact(),
        )
    }

    /// The request that asks the shield service for the SMS login code of
    /// `mobile`, at a time in seconds.
    pub fn send_login_code_at(&self, mobile: &str, captcha_token: &str, timestamp: i64) -> (r:
        Request)
        ensures
            r@ == json_request(
                "POST"@,
                self.shield_base@ + SECCODE_MOBILE_PATH@,
                shield_headers(),
                send_login_code_tree(mobile@, timestamp as int, captcha_token@),
            ),
    {
        let body = send_login_code_body(mobile, timestamp, captcha_token);
        let mut url = self.shield_base.clone();
        url.append(SECCODE_MOBILE_PATH);
        AuthApi::send_shield("POST", url, body)
    }

    /// The request that asks the shield service for the SMS login code of
    /// `mobile` now. `captcha_token` is the captcha result for scene
    /// [`CAPTCHA_SCENE`].
    pub fn send_login_code(&self, mobile: &str, captcha_token: &str) -> (r: Request)
        ensures
            exists|t: i64|
                times::in_calendar(t as int) && r@ == json_request(
                    "POST"@,
                    self.shield_base@ + SECCODE_MOBILE_PATH@,
                    shield_headers(),
                    #[trigger] send_login_code_tree(mobile@, t as int, captcha_token@),
                ),
    {
        self.send_login_code_at(mobile, captcha_token, times::now())
    }

    /// The request that exchanges an SMS login code for tokens.
    pub fn login_with_code(&self, clientid: &str, account: &str, code: &str) -> (r: Request)
        ensures
            r@ == json_request(
                "POST"@,
                self.api_base@ + "/authorization"@,
                auth_headers(clientid@, None),
                login_with_code_tree(account@, code@),
            ),
    {
        AuthApi::send(
            clientid,
            "POST",
            self.endpoint("/authorization"),
            None,
            login_with_code_body(account, code),
        )
    }

    /// The request for an SMS verification code that registers the client as
    /// a trusted device, at a time in milliseconds.
    pub fn sendcode_at(&self, clientid: &str, account: &str, millis: i64) -> (r: Request)
        ensures
            r@ == json_request(
                "POST"@,
                self.api_base@ + "/login-terminals/sendcode"@,
                auth_headers(clientid@, None),
                sendcode_tree(account@, millis as int),
            ),
    {
        let mut t = String::new();
        text::push_dec_int(&mut t, millis);
        proof {
            assert(t@ =~= text::dec_int(millis as int));
        }
        let mut input = account.to_owned();
        input.append("mobile");
        input.append(t.as_str());
        input.append(CHECKSUM_SALT);
        let checksum = md5_hex(input.as_str());
        let mut f: Vec<(String, Json)> = Vec::new();
        json::put(&mut f, "account", json::json_str(account));
        json::put(&mut f, "method", json::json_str("mobile"));
        json::put(&mut f, "t", Json::Str(t));
        json::put(&mut f, "checksum", Json::Str(checksum));
        AuthApi::send(
            clientid,
            "POST",
            self.endpoint("/login-terminals/sendcode"),
            None,
            Json::Object(f).compact(),
        )
    }

    /// The request for an SMS verification code that registers the client as
    /// a trusted device, now.
    pub fn sendcode(&self, clientid: &str, account: &str) -> (r: Request)
        ensures
            exists|t: i64|
                times::millis_in_calendar(t as int) && r@ == json_request(
                    "POST"@,
                    self.api_base@ + "/login-terminals/sendcode"@,
                    auth_headers(clientid@, None),
                    #[trigger] sendcode_tree(account@, t as int),
                ),
    {
        self.sendcode_at(clientid, account, times::now_millis())
    }

    /// The request that submits the SMS verification code, registering the
    /// client id as trusted.
    pub fn checkcode(&self, clientid: &str, account: &str, code: &str, terminal_name: &str) -> (r:
        Request)
        ensures
            r@ == json_request(
                "PUT"@,
                self.api_base@ + "/login-terminals/checkcode"@,
                auth_headers(clientid@, None),
                checkcode_tree(account@, code@, terminal_name@),
            ),
    {
        let mut f: Vec<(String, Json)> = Vec::new();
        json::put(&mut f, "terminal_name", json::json_str(terminal_name));
        json::put(&mut f, "account", json::json_str(account));
        json::put(&mut f, "method", json::json_str("mobile"));
        json::put(&mut f, "code", json::json_str(code));
        json::put(&mut f, "memo", json::json_str(""));
        AuthApi::send(
            clientid,
            "PUT",
            self.endpoint("/login-terminals/checkcode"),
            None,
            Json::Object(f).compact(),
        )
    }

    /// The request that exchanges a refresh token (and access token) for
    /// fresh tokens.
    pub fn refresh(&self, clientid: &str, access_token: &str, refresh_token: &str) -> (r: Request)
        ensures
            r@ == json_request(
                "POST"@,
                self.api_base@ + "/authorize/refreshing"@,
                auth_headers(clientid@, Some(access_token@)),
                refresh_tree(refresh_token@),
            ),
    {
        let mut f: Vec<(String, Json)> = Vec::new();
        json::put(&mut f, "refresh_token", json::json_str(refresh_token));
        AuthApi::send(
            clientid,
            "POST",
            self.endpoint("/authorize/refreshing"),
            Some(access_token),
            Json::Object(f).compact(),
        )
    }

    /// Checks a response that should be `2xx` with no payload.
    pub fn expect_ok(ex: Exchange, what: &'static str) -> (r: TracedResult<()>)
        ensures
            is_plain_outcome(r, ex, what),
    {
        match trace::expect_2xx(ex, what) {
            Ok(done) => Ok(Traced { data: (), calls: done.0 }),
            Err(e) => Err(e),
        }
    }

    /// Turns an `/authorization` exchange into tokens (2xx) or the new-device
    /// alert (202); every other status is an error. `alert` and `tokens` are
    /// what parsing the body as the one and as the other gave.
    pub fn auth_outcome(
        ex: Exchange,
        what: &'static str,
        alert: Result<NewDeviceAlert, JsonError>,
        tokens: Result<AuthResponse, JsonError>,
    ) -> (r: TracedResult<LoginOutcome>)
        ensures
            is_auth_outcome(r, ex, what, alert, tokens),
    {
        if ex.status == 202 {
            let parsed = match alert {
                Ok(a) => Ok(LoginOutcome::NewDevice(a)),
                Err(e) => Err(e),
            };
            trace::expect_json(ex, what, parsed)
        } else {
            let parsed = match tokens {
                Ok(t) => Ok(LoginOutcome::Tokens(t)),
                Err(e) => Err(e),
            };
            trace::expect_json(ex, what, parsed)
        }
    }

    /// What the answer to a shield send-code request comes to.
    pub fn send_login_code_outcome(ex: Exchange, sent: Result<SendCodeResponse, JsonError>) -> (r:
        TracedResult<SendCodeResponse>)
        ensures
            trace::is_expected_json(r, ex, "send sms code", sent),
    {
        trace::expect_json(ex, "send sms code", sent)
    }

    /// What the answer to a refresh request comes to.
    pub fn refresh_outcome(ex: Exchange, tokens: Result<AuthResponse, JsonError>) -> (r:
        TracedResult<AuthResponse>)
        ensures
            trace::is_expected_json(r, ex, "refresh", tokens),
    {
        trace::expect_json(ex, "refresh", tokens)
    }
}

// ---------------------------------------------------------------------- laws

/// An explicit `refresh_expires` decides alone: neither the TTL nor the clock
/// matters.
pub proof fn explicit_expiry_decides(ts: i64, ttl: Option<u64>, now: int)
    ensures
        refresh_deadline(RefreshExpires::Timestamp(ts), ttl, now) == ts,
{
}

/// Without an explicit expiry, and with a TTL of ten years at most, the
/// deadline moves with the clock.
pub proof fn relative_expiry_follows_the_clock(ttl: Option<u64>, now: int, later: int)
    requires
        ttl matches Some(t) ==> t <= TEN_YEARS,
    ensures
        refresh_deadline(RefreshExpires::Unknown, ttl, now + later) == refresh_deadline(
            RefreshExpires::Unknown,
            ttl,
            now,
        ) + later,
{
}

/// Hexadecimal text has two digits per byte, all of them in lower case.
pub proof fn hex_text_shape(bytes: Seq<u8>)
    ensures
        hex_text(bytes).len() == 2 * bytes.len(),
        forall|i: int| 0 <= i < hex_text(bytes).len() ==> hex_digit(#[trigger] hex_text(bytes)[i]),
    decreases bytes.len(),
{
    if bytes.len() > 0 {
        hex_text_shape(bytes.drop_last());
    }
}

/// A code is sent and checked for one and the same account: the account, the
/// code and the terminal name stand in the checkcode request each under its
/// own name, and the sendcode request that went before names that account and
/// that method too.
pub proof fn codes_are_checked_for_their_account(
    account: Seq<char>,
    code: Seq<char>,
    terminal_name: Seq<char>,
    millis: int,
)
    ensures
        json::member(checkcode_tree(account, code, terminal_name), "account"@) == Some(
            Tree::Str(account),
        ),
        json::member(checkcode_tree(account, code, terminal_name), "code"@) == Some(
            Tree::Str(code),
        ),
        json::member(checkcode_tree(account, code, terminal_name), "terminal_name"@) == Some(
            Tree::Str(terminal_name),
        ),
        json::member(checkcode_tree(account, code, terminal_name), "method"@) == Some(
            Tree::Str("mobile"@),
        ),
        json::member(checkcode_tree(account, code, terminal_name), "memo"@) == Some(
            Tree::Str(""@),
        ),
        json::member(sendcode_tree(account, millis), "account"@) == json::member(
            checkcode_tree(account, code, terminal_name),
            "account"@,
        ),
        json::member(sendcode_tree(account, millis), "method"@) == json::member(
            checkcode_tree(account, code, terminal_name),
            "method"@,
        ),
{
    reveal_strlit("terminal_name");
    reveal_strlit("account");
    reveal_strlit("method");
    reveal_strlit("code");
    reveal_strlit("memo");
    reveal_strlit("t");
    reveal_strlit("checksum");
    assert("terminal_name"@.len() == 13 && "account"@.len() == 7 && "method"@.len() == 6
        && "code"@.len() == 4 && "memo"@.len() == 4 && "t"@.len() == 1 && "checksum"@.len() == 8);
    assert("code"@[0] == 'c' && "memo"@[0] == 'm');
}

/// The sendcode request carries its time and the digest of account, method,
/// time and salt, in that order.
pub proof fn sent_codes_are_signed(account: Seq<char>, millis: int)
    ensures
        json::member(sendcode_tree(account, millis), "t"@) == Some(
            Tree::Str(text::dec_int(millis)),
        ),
        json::member(sendcode_tree(account, millis), "checksum"@) == Some(
            Tree::Str(md5_text(account + "mobile"@ + text::dec_int(millis) + CHECKSUM_SALT@)),
        ),
{
    reveal_strlit("account");
    reveal_strlit("method");
    reveal_strlit("t");
    reveal_strlit("checksum");
    assert("account"@.len() == 7 && "method"@.len() == 6 && "t"@.len() == 1
        && "checksum"@.len() == 8);
}

/// A password login names the account and the digest of its password, and
/// says that it is a digest.
pub proof fn logins_name_their_account(account: Seq<char>, password_md5: Seq<char>)
    ensures
        json::member(login_tree(account, password_md5), "type"@) == Some(Tree::Str(ACCOUNT_TYPE@)),
        json::member(login_tree(account, password_md5), "account"@) == Some(Tree::Str(account)),
        json::member(login_tree(account, password_md5), "password"@) == Some(
            Tree::Str(password_md5),
        ),
        json::member(login_tree(account, password_md5), "ismd5"@) == Some(Tree::Bool(true)),
        json::member(login_tree(account, password_md5), "oaid"@) == Some(Tree::Str(""@)),
        json::member(login_tree(account, password_md5), "getui"@) == Some(Tree::Str(""@)),
        json::member(login_tree(account, password_md5), "umeng"@) == Some(Tree::Str(""@)),
{
    reveal_strlit("type");
    reveal_strlit("account");
    reveal_strlit("password");
    reveal_strlit("ismd5");
    reveal_strlit("oaid");
    reveal_strlit("getui");
    reveal_strlit("umeng");
    assert("type"@.len() == 4 && "account"@.len() == 7 && "password"@.len() == 8
        && "ismd5"@.len() == 5 && "oaid"@.len() == 4 && "getui"@.len() == 5
        && "umeng"@.len() == 5);
    assert("type"@[0] == 't' && "oaid"@[0] == 'o' && "ismd5"@[0] == 'i' && "getui"@[0] == 'g'
        && "umeng"@[0] == 'u');
}

/// A login by code carries the code and the account that the code was sent
/// to, under the plan that it was asked for.
#[verifier::rlimit(40)]
pub proof fn code_logins_follow_the_sent_code(
    mobile: Seq<char>,
    code: Seq<char>,
    timestamp: int,
    captcha_token: Seq<char>,
)
    ensures
        json::member(login_with_code_tree(mobile, code), "account"@) == Some(Tree::Str(mobile)),
        json::member(login_with_code_tree(mobile, code), "account"@) == json::member(
            send_login_code_tree(mobile, timestamp, captcha_token),
            "target"@,
        ),
        json::member(login_with_code_tree(mobile, code), "code-type"@) == json::member(
            send_login_code_tree(mobile, timestamp, captcha_token),
            "plan_alias"@,
        ),
        json::member(login_with_code_tree(mobile, code), "code"@) == Some(Tree::Str(code)),
        json::member(login_with_code_tree(mobile, code), "type"@) == Some(
            Tree::Str("securecode"@),
        ),
        json::member(login_with_code_tree(mobile, code), "medium"@) == Some(Tree::Str("sms"@)),
        json::member(login_with_code_tree(mobile, code), "code-type"@) == Some(
            Tree::Str(LOGIN_CODE_PLAN@),
        ),
{
    reveal_strlit("type");
    reveal_strlit("account");
    reveal_strlit("code");
    reveal_strlit("medium");
    reveal_strlit("code-type");
    reveal_strlit("oaid");
    reveal_strlit("getui");
    reveal_strlit("umeng");
    reveal_strlit("target");
    reveal_strlit("plan_alias");
    reveal_strlit("length");
    reveal_strlit("send_voice_confirm");
    reveal_strlit("brand_id");
    reveal_strlit("timestamp");
    reveal_strlit("checksum");
    reveal_strlit("aliyun_captcha_response");
    reveal_strlit("aliyun_captcha_sceneid");
    assert("type"@.len() == 4 && "account"@.len() == 7 && "code"@.len() == 4
        && "medium"@.len() == 6 && "code-type"@.len() == 9 && "oaid"@.len() == 4
        && "getui"@.len() == 5 && "umeng"@.len() == 5 && "target"@.len() == 6
        && "plan_alias"@.len() == 10 && "length"@.len() == 6
        && "send_voice_confirm"@.len() == 18 && "brand_id"@.len() == 8
        && "timestamp"@.len() == 9 && "checksum"@.len() == 8
        && "aliyun_captcha_response"@.len() == 23 && "aliyun_captcha_sceneid"@.len() == 22);
    assert("type"@[0] == 't' && "code"@[0] == 'c' && "oaid"@[0] == 'o' && "medium"@[0] == 'm'
        && "target"@[0] == 't' && "length"@[0] == 'l' && "code-type"@[0] == 'c'
        && "timestamp"@[0] == 't' && "getui"@[0] == 'g' && "umeng"@[0] == 'u'
        && "brand_id"@[0] == 'b' && "checksum"@[0] == 'c');
}

/// The request for a login code carries the number, the captcha result, the
/// time, and the digest of plan, number, path and time, in that order.
pub proof fn login_codes_are_signed(mobile: Seq<char>, timestamp: int, captcha_token: Seq<char>)
    ensures
        json::member(send_login_code_tree(mobile, timestamp, captcha_token), "target"@) == Some(
            Tree::Str(mobile),
        ),
        json::member(send_login_code_tree(mobile, timestamp, captcha_token), "timestamp"@) == Some(
            json::int_tree(timestamp),
        ),
        json::member(
            send_login_code_tree(mobile, timestamp, captcha_token),
            "aliyun_captcha_response"@,
        ) == Some(Tree::Str(captcha_token)),
        json::member(
            send_login_code_tree(mobile, timestamp, captcha_token),
            "aliyun_captcha_sceneid"@,
        ) == Some(Tree::Str(CAPTCHA_SCENE@)),
        json::member(send_login_code_tree(mobile, timestamp, captcha_token), "checksum"@) == Some(
            Tree::Str(
                md5_text(
                    LOGIN_CODE_PLAN@ + mobile + SECCODE_MOBILE_PATH@ + text::dec_int(timestamp),
                ),
            ),
        ),
        json::member(send_login_code_tree(mobile, timestamp, captcha_token), "length"@) == Some(
            json::int_tree(6),
        ),
        json::member(
            send_login_code_tree(mobile, timestamp, captcha_token),
            "send_voice_confirm"@,
        ) == Some(json::int_tree(3)),
        json::member(send_login_code_tree(mobile, timestamp, captcha_token), "brand_id"@) == Some(
            json::int_tree(3),
        ),
{
    reveal_strlit("target");
    reveal_strlit("plan_alias");
    reveal_strlit("length");
    reveal_strlit("send_voice_confirm");
    reveal_strlit("brand_id");
    reveal_strlit("timestamp");
    reveal_strlit("checksum");
    reveal_strlit("aliyun_captcha_response");
    reveal_strlit("aliyun_captcha_sceneid");
    assert("target"@.len() == 6 && "plan_alias"@.len() == 10 && "length"@.len() == 6
        && "send_voice_confirm"@.len() == 18 && "brand_id"@.len() == 8
        && "timestamp"@.len() == 9 && "checksum"@.len() == 8
        && "aliyun_captcha_response"@.len() == 23 && "aliyun_captcha_sceneid"@.len() == 22);
    assert("target"@[0] == 't' && "length"@[0] == 'l' && "brand_id"@[0] == 'b'
        && "checksum"@[0] == 'c');
}

/// A refresh hands over the refresh token that it is given, and nothing else.
pub proof fn refreshes_hand_over_the_refresh_token(refresh_token: Seq<char>)
    ensures
        json::member(refresh_tree(refresh_token), "refresh_token"@) == Some(
            Tree::Str(refresh_token),
        ),
        forall|name: Seq<char>|
            name != "refresh_token"@ ==> #[trigger] json::member(refresh_tree(refresh_token), name)
                is None,
{
}

/// Every request to the authentication service names its client, and carries
/// an access token exactly where one is given.
pub proof fn requests_name_their_client(clientid: Seq<char>, token: Seq<char>)
    ensures
        auth_headers(clientid, None).contains(("EX-ClientId"@, clientid)),
        auth_headers(clientid, Some(token)).contains(("EX-ClientId"@, clientid)),
        auth_headers(clientid, Some(token)).contains(("Authorization"@, "Bearer "@ + token)),
        forall|i: int|
            0 <= i < auth_headers(clientid, None).len() ==> (#[trigger] auth_headers(
                clientid,
                None,
            )[i]).0 != "Authorization"@,
        forall|i: int|
            0 <= i < shield_headers().len() ==> (#[trigger] shield_headers()[i]).0
                != "EX-ClientId"@ && shield_headers()[i].0 != "Authorization"@,
{
    reveal_strlit("User-Agent");
    reveal_strlit("X-Channel");
    reveal_strlit("X-AppID");
    reveal_strlit("EX-ClientId");
    reveal_strlit("Country-Region");
    reveal_strlit("Accept-Language");
    reveal_strlit("Accept");
    reveal_strlit("Authorization");
    assert("User-Agent"@.len() == 10 && "X-Channel"@.len() == 9 && "X-AppID"@.len() == 7
        && "EX-ClientId"@.len() == 11 && "Country-Region"@.len() == 14
        && "Accept-Language"@.len() == 15 && "Accept"@.len() == 6
        && "Authorization"@.len() == 13);
    let plain = auth_headers(clientid, None);
    assert(plain[3] == ("EX-ClientId"@, clientid));
    let signed = auth_headers(clientid, Some(token));
    assert(signed[3] == ("EX-ClientId"@, clientid));
    assert(signed[7] == ("Authorization"@, "Bearer "@ + token));
}

/// A request with a JSON body goes to the endpoint that it is made for, with
/// the headers that it is given, the content type behind them, and the whole
/// document as its body.
pub proof fn json_requests_carry_their_document(
    method: Seq<char>,
    url: Seq<char>,
    headers: Seq<(Seq<char>, Seq<char>)>,
    body: Tree,
)
    ensures
        json_request(method, url, headers, body).method == method,
        json_request(method, url, headers, body).url == url,
        json_request(method, url, headers, body).body == Some(json::json_compact(body)),
        json_request(method, url, headers, body).headers.drop_last() == headers,
        json_request(method, url, headers, body).headers.last() == (
            "Content-Type"@,
            "application/json; charset=utf-8"@,
        ),
{
    assert(json_request(method, url, headers, body).headers.drop_last() =~= headers);
}

/// A TTL of ten years at most counts from now, a longer one is the deadline
/// itself, and without either a refresh token is good for thirty days.
pub proof fn lifetimes_count_from_now(ttl: u64, now: int)
    ensures
        ttl <= 315_360_000 ==> refresh_deadline(RefreshExpires::Unknown, Some(ttl), now) - now
            == ttl,
        315_360_000 < ttl <= i64::MAX ==> refresh_deadline(RefreshExpires::Unknown, Some(ttl), now)
            == ttl,
        refresh_deadline(RefreshExpires::Unknown, None, now) - now == 30 * 24 * 3600,
{
}

/// The status 202 is a new device, any other success is a login with the
/// tokens that were read, and everything else is an error.
pub proof fn accepted_logins_may_be_new_devices(
    r: TracedResult<LoginOutcome>,
    ex: Exchange,
    what: &'static str,
    alert: Result<NewDeviceAlert, JsonError>,
    tokens: Result<AuthResponse, JsonError>,
)
    requires
        is_auth_outcome(r, ex, what, alert, tokens),
    ensures
        ex.status == 202 ==> (r is Ok <==> alert is Ok),
        ex.status != 202 ==> (r is Ok <==> 200 <= ex.status < 300 && tokens is Ok),
        r matches Ok(done) ==> (done.data is NewDevice <==> ex.status == 202),
        r matches Ok(done) ==> (done.data matches LoginOutcome::NewDevice(a) ==> alert == Ok::<
            NewDeviceAlert,
            JsonError,
        >(a)),
        r matches Ok(done) ==> (done.data matches LoginOutcome::Tokens(t) ==> tokens == Ok::<
            AuthResponse,
            JsonError,
        >(t)),
        r matches Ok(done) ==> done.calls@ == seq![ex.log],
        r matches Err(e) ==> e.calls@ == seq![ex.log],
{
}

/// A response without a payload is a success by its status alone.
pub proof fn plain_outcomes_go_by_the_status(
    r: TracedResult<()>,
    ex: Exchange,
    what: &'static str,
)
    requires
        is_plain_outcome(r, ex, what),
    ensures
        r is Ok <==> 200 <= ex.status < 300,
        r matches Ok(done) ==> done.calls@ == seq![ex.log],
        r matches Err(e) ==> e.calls@ == seq![ex.log] && e.error == (error::Error::HttpStatus {
            what,
            status: ex.status,
            body: ex.text,
        }),
{
}

/// An expiry may be written as a number or as text, and means the same; what
/// is no integer is unknown.
pub proof fn expiries_are_numbers_or_texts(n: int)
    requires
        i64::MIN <= n <= i64::MAX,
    ensures
        expires_of(json::int_tree(n)) == Some(n),
        expires_of(Tree::Str(text::dec_int(n))) == Some(n),
        expires_of(Tree::Null) is None,
{
    text::signed_numbers_are_read_back(n);
}

/// Requests to the authentication service come from the app, in one language;
/// those to the shield service carry no app headers.
pub proof fn requests_come_from_the_app(clientid: Seq<char>, token: Option<Seq<char>>)
    ensures
        auth_headers(clientid, token).take(7) == seq![
            ("User-Agent"@, error::USER_AGENT@),
            ("X-Channel"@, "OPPO"@),
            ("X-AppID"@, "kNUC97u86Zr7mt9xeZVl"@),
            ("EX-ClientId"@, clientid),
            ("Country-Region"@, "zh-Hans_US"@),
            ("Accept-Language"@, "zh-Hans_US"@),
            ("Accept"@, "*/*"@),
        ],
        auth_headers(clientid, token).len() == (if token is Some {
            8int
        } else {
            7
        }),
        shield_headers() == seq![
            ("User-Agent"@, error::USER_AGENT@),
            ("X-Channel"@, "OPPO"@),
            ("Country-Region"@, "CN"@),
            ("Accept"@, "*/*"@),
        ],
{
    assert(auth_headers(clientid, token).take(7) =~= auth_headers(clientid, None));
}

/// A login by code leaves the identifiers of a phone empty, as a password
/// login does.
pub proof fn logins_have_no_phone_identifiers(
    account: Seq<char>,
    code: Seq<char>,
    password_md5: Seq<char>,
)
    ensures
        json::member(login_with_code_tree(account, code), "oaid"@) == json::member(
            login_tree(account, password_md5),
            "oaid"@,
        ),
        json::member(login_with_code_tree(account, code), "getui"@) == json::member(
            login_tree(account, password_md5),
            "getui"@,
        ),
        json::member(login_with_code_tree(account, code), "umeng"@) == json::member(
            login_tree(account, password_md5),
            "umeng"@,
        ),
        json::member(login_with_code_tree(account, code), "umeng"@) == Some(Tree::Str(""@)),
{
    reveal_strlit("type");
    reveal_strlit("account");
    reveal_strlit("code");
    reveal_strlit("medium");
    reveal_strlit("code-type");
    reveal_strlit("oaid");
    reveal_strlit("getui");
    reveal_strlit("umeng");
    reveal_strlit("password");
    reveal_strlit("ismd5");
    assert("type"@.len() == 4 && "account"@.len() == 7 && "code"@.len() == 4
        && "medium"@.len() == 6 && "code-type"@.len() == 9 && "oaid"@.len() == 4
        && "getui"@.len() == 5 && "umeng"@.len() == 5 && "password"@.len() == 8
        && "ismd5"@.len() == 5);
    assert("type"@[0] == 't' && "code"@[0] == 'c' && "oaid"@[0] == 'o' && "getui"@[0] == 'g'
        && "umeng"@[0] == 'u' && "ismd5"@[0] == 'i');
}

} // verus!
