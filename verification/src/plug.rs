//! The smart-plug endpoints: requests, and what their responses mean.
//!
//! Stateless: callers own the access token and plug identity, and perform the
//! requests.

use crate::error;
use crate::error::{Error, Result};
use crate::json;
use crate::json::{Json, Tree};
use crate::logs::StatusLogsData;
use crate::text;
use crate::trace;
use crate::trace::{Exchange, Request, RequestView, Traced, TracedError, TracedResult};
use crate::url;
use serde_json::Error as JsonError;
use vstd::prelude::*;
use vstd::string::*;

verus! {

broadcast use vstd::seq_lib::group_seq_properties;

// ----------------------------------------------------------------------- types

/// One outlet of a plug.
#[derive(Debug, PartialEq, Eq, Structural)]
pub struct PlugStatus {
    pub index: i32,
    pub status: i32,
    pub action: i32,
}

/// Result of a plug state query. `result == 0` means success.
#[derive(Debug)]
pub struct PlugStatusResp {
    pub result: i32,
    pub response: Option<Vec<PlugStatus>>,
    pub message: Option<String>,
    pub led: Option<u32>,
    pub def_st: Option<u32>,
}

/// Generic acknowledgement; some endpoints also return `timer_id`.
#[derive(Debug)]
pub struct SetResp {
    pub result: i32,
    pub message: Option<String>,
    pub timer_id: Option<u64>,
}

/// Firmware version info.
#[derive(Debug)]
pub struct PlugVersionResp {
    pub result: i32,
    pub message: Option<String>,
    pub version: Option<String>,
    pub version_num: Option<u32>,
}

/// WiFi info.
#[derive(Debug)]
pub struct PlugWifiResp {
    pub result: i32,
    pub message: Option<String>,
    pub ip: Option<String>,
    pub mask: Option<String>,
    pub gw: Option<String>,
    pub ssid: Option<String>,
}

/// Capability list.
#[derive(Debug)]
pub struct FuncListResp {
    pub result: i32,
    pub message: Option<String>,
    pub func_list: std::collections::HashMap<String, u32>,
}

/// One timer entry as it is listed, or accepted by add and set.
#[derive(Debug, Clone, Copy, PartialEq, Eq, Structural)]
pub struct PlugTimer {
    pub timer_id: Option<u64>,
    pub time: Option<u64>,
    pub action: Option<u8>,
    pub repeat: Option<u8>,
    pub enabled: Option<u8>,
}

impl Default for PlugTimer {
    fn default() -> (r: Self)
        ensures
            r == (PlugTimer {
                timer_id: None,
                time: None,
                action: None,
                repeat: None,
                enabled: None,
            }),
    {
        PlugTimer { timer_id: None, time: None, action: None, repeat: None, enabled: None }
    }
}

/// The timers of one outlet.
#[derive(Debug)]
pub struct TimerListResp {
    pub result: i32,
    pub message: Option<String>,
    pub timer: Vec<PlugTimer>,
}

/// The countdown of one outlet.
#[derive(Debug)]
pub struct CntdownResp {
    pub result: i32,
    pub message: Option<String>,
    pub index: Option<u32>,
    pub action: Option<u8>,
    pub count: Option<u64>,
    pub remain: Option<u64>,
}

/// Wrapper of the `/smart-plug/*` JSON endpoints.
#[derive(Debug)]
pub struct SlResp<T> {
    pub code: i32,
    pub message: Option<String>,
    pub data: Option<T>,
}

/// An answer that carries a result code.
pub trait Ack {
    /// The result code; 0 is success.
    spec fn code(&self) -> int;

    /// What the answer says of it.
    spec fn note(&self) -> Option<Seq<char>>;

    /// The result code.
    fn result_code(&self) -> (r: i32)
        ensures
            r == self.code(),
    ;

    /// What the answer says of it.
    fn result_note(&self) -> (r: Option<&String>)
        ensures
            match r {
                Some(s) => self.note() == Some(s@),
                None => self.note() is None,
            },
    ;
}

/// A borrowed text that may be absent.
fn borrowed(s: &Option<String>) -> (r: Option<&String>)
    ensures
        match r {
            Some(t) => text::opt_view(*s) == Some(t@),
            None => text::opt_view(*s) is None,
        },
{
    match s {
        Some(t) => Some(t),
        None => None,
    }
}

impl Ack for PlugStatusResp {
    open spec fn code(&self) -> int {
        self.result as int
    }

    open spec fn note(&self) -> Option<Seq<char>> {
        text::opt_view(self.message)
    }

    fn result_code(&self) -> (r: i32) {
        self.result
    }

    fn result_note(&self) -> (r: Option<&String>) {
        borrowed(&self.message)
    }
}

impl Ack for SetResp {
    open spec fn code(&self) -> int {
        self.result as int
    }

    open spec fn note(&self) -> Option<Seq<char>> {
        text::opt_view(self.message)
    }

    fn result_code(&self) -> (r: i32) {
        self.result
    }

    fn result_note(&self) -> (r: Option<&String>) {
        borrowed(&self.message)
    }
}

impl Ack for PlugVersionResp {
    open spec fn code(&self) -> int {
        self.result as int
    }

    open spec fn note(&self) -> Option<Seq<char>> {
        text::opt_view(self.message)
    }

    fn result_code(&self) -> (r: i32) {
        self.result
    }

    fn result_note(&self) -> (r: Option<&String>) {
        borrowed(&self.message)
    }
}

impl Ack for PlugWifiResp {
    open spec fn code(&self) -> int {
        self.result as int
    }

    open spec fn note(&self) -> Option<Seq<char>> {
        text::opt_view(self.message)
    }

    fn result_code(&self) -> (r: i32) {
        self.result
    }

    fn result_note(&self) -> (r: Option<&String>) {
        borrowed(&self.message)
    }
}

impl Ack for FuncListResp {
    open spec fn code(&self) -> int {
        self.result as int
    }

    open spec fn note(&self) -> Option<Seq<char>> {
        text::opt_view(self.message)
    }

    fn result_code(&self) -> (r: i32) {
        self.result
    }

    fn result_note(&self) -> (r: Option<&String>) {
        borrowed(&self.message)
    }
}

impl Ack for TimerListResp {
    open spec fn code(&self) -> int {
        self.result as int
    }

    open spec fn note(&self) -> Option<Seq<char>> {
        text::opt_view(self.message)
    }

    fn result_code(&self) -> (r: i32) {
        self.result
    }

    fn result_note(&self) -> (r: Option<&String>) {
        borrowed(&self.message)
    }
}

impl Ack for CntdownResp {
    open spec fn code(&self) -> int {
        self.result as int
    }

    open spec fn note(&self) -> Option<Seq<char>> {
        text::opt_view(self.message)
    }

    fn result_code(&self) -> (r: i32) {
        self.result
    }

    fn result_note(&self) -> (r: Option<&String>) {
        borrowed(&self.message)
    }
}

// --------------------------------------------------------------------- results

/// How a result code is reported.
pub open spec fn result_text(what: Seq<char>, code: int, message: Option<Seq<char>>) -> Seq<char> {
    what + " failed (code="@ + text::dec_int(code) + ") "@ + match message {
        Some(m) => m,
        None => ""@,
    }
}

/// The error of an answer whose result code is no success.
pub fn result_err(what: &str, code: i64, message: Option<&String>) -> (r: Error)
    ensures
        error::is_message(
            r,
            result_text(
                what@,
                code as int,
                match message {
                    Some(m) => Some(m@),
                    None => None,
                },
            ),
        ),
{
    let mut s = what.to_owned();
    s.append(" failed (code=");
    text::push_dec_int(&mut s, code);
    s.append(") ");
    match message {
        Some(m) => {
            s.append(m.as_str());
        },
        None => {
            s.append("");
        },
    }
    Error::from_message(s)
}

/// Whether a result code is a success. Stopping a countdown that is not
/// running counts as one.
pub open spec fn is_done(what: Seq<char>, result: int) -> bool {
    result == 0 || (what == "plug_cntdown_del"@ && result == 11)
}

/// Checks the result code of an answer.
pub fn check_result(what: &'static str, result: i32, message: Option<&String>) -> (r: Result<()>)
    ensures
        if is_done(what@, result as int) {
            r is Ok
        } else {
            r matches Err(e) && error::is_message(
                e,
                result_text(
                    what@,
                    result as int,
                    match message {
                        Some(m) => Some(m@),
                        None => None,
                    },
                ),
            )
        },
{
    if result == 0 || (text::same(what, "plug_cntdown_del") && result == 11) {
        Ok(())
    } else {
        Err(result_err(what, result as i64, message))
    }
}

/// Whether `r` is what the answer to a plug request comes to, given what
/// parsing its body gave.
pub open spec fn is_answer<T: Ack>(
    r: TracedResult<T>,
    ex: Exchange,
    what: Seq<char>,
    parsed: std::result::Result<T, JsonError>,
) -> bool {
    if !trace::is_success(ex.status) {
        trace::is_status_error(r, ex, "plug request")
    } else {
        match parsed {
            Err(_) => trace::is_parsed(r, ex, parsed),
            Ok(data) => if is_done(what, data.code()) {
                trace::is_parsed(r, ex, parsed)
            } else {
                r matches Err(e) && error::is_message(
                    e.error,
                    result_text(what, data.code(), data.note()),
                ) && e.calls@ == seq![ex.log]
            },
        }
    }
}

/// What the answer to the plug request `what` comes to, given what parsing
/// its body gave.
pub fn answer<T: Ack>(
    ex: Exchange,
    what: &'static str,
    parsed: std::result::Result<T, JsonError>,
) -> (r: TracedResult<T>)
    ensures
        is_answer(r, ex, what@, parsed),
{
    match trace::expect_json(ex, "plug request", parsed) {
        Ok(done) => {
            let checked = check_result(what, done.data.result_code(), done.data.result_note());
            match checked {
                Ok(_) => Ok(done),
                Err(error) => Err(TracedError { error, calls: done.calls }),
            }
        },
        Err(e) => Err(e),
    }
}

/// Whether `r` is what the answer to a status-log request comes to, given what
/// parsing its body gave.
pub open spec fn is_logs_answer(
    r: TracedResult<StatusLogsData>,
    ex: Exchange,
    parsed: std::result::Result<SlResp<StatusLogsData>, JsonError>,
) -> bool {
    if !trace::is_success(ex.status) {
        trace::is_status_error(r, ex, "plug request")
    } else {
        match parsed {
            Err(source) => r matches Err(e) && error::is_bad_body(e.error, ex.text, source)
                && e.calls@ == seq![ex.log],
            Ok(resp) => if resp.code != 0 {
                r matches Err(e) && error::is_message(
                    e.error,
                    result_text(
                        "get-status-logs"@,
                        resp.code as int,
                        text::opt_view(resp.message),
                    ),
                ) && e.calls@ == seq![ex.log]
            } else {
                match resp.data {
                    Some(data) => r matches Ok(done) && done.data == data && done.calls@ == seq![
                        ex.log,
                    ],
                    None => r matches Err(e) && e.error is Api && e.error->Api_0@
                        == "get-status-logs returned no data"@ && e.calls@ == seq![ex.log],
                }
            },
        }
    }
}

/// Whether `r` is what the answer to a rename request comes to, given what
/// parsing its body gave.
pub open spec fn is_rename_answer<T>(
    r: TracedResult<()>,
    ex: Exchange,
    parsed: std::result::Result<SlResp<T>, JsonError>,
) -> bool {
    if !trace::is_success(ex.status) {
        trace::is_status_error(r, ex, "plug request")
    } else {
        match parsed {
            Err(source) => r matches Err(e) && error::is_bad_body(e.error, ex.text, source)
                && e.calls@ == seq![ex.log],
            Ok(resp) => if resp.code != 0 {
                r matches Err(e) && error::is_message(
                    e.error,
                    result_text("rename"@, resp.code as int, text::opt_view(resp.message)),
                ) && e.calls@ == seq![ex.log]
            } else {
                r matches Ok(done) && done.calls@ == seq![ex.log]
            },
        }
    }
}

// -------------------------------------------------------------------- requests

/// A switch as a parameter.
pub open spec fn flag(on: bool) -> Seq<char> {
    if on {
        "1"@
    } else {
        "0"@
    }
}

/// A switch as a parameter.
fn flag_text(on: bool) -> (r: &'static str)
    ensures
        r@ == flag(on),
{
    if on {
        "1"
    } else {
        "0"
    }
}

/// The URL of a plug request.
pub open spec fn plug_query(slapi_base: Seq<char>, pairs: Seq<(Seq<char>, Seq<char>)>) ->
    std::result::Result<Seq<char>, Seq<char>> {
    url::query_url_by(url::normal_url(slapi_base + "/plug"@), pairs, "slapi"@)
}

/// Builds a `GET /plug?...` URL from query pairs. Values are percent-encoded.
pub fn plug_url(slapi_base: &str, params: &Vec<(&str, &str)>) -> (r: Result<String>)
    ensures
        url::is_url(r, plug_query(slapi_base@, url::pairs_view(params@))),
{
    let mut base = slapi_base.to_owned();
    base.append("/plug");
    url::query_url(base.as_str(), params, "slapi")
}

/// Whether `r` is a plug request, or the error of a bad base.
pub open spec fn is_plug_request(
    r: Result<Request>,
    slapi_base: Seq<char>,
    token: Seq<char>,
    pairs: Seq<(Seq<char>, Seq<char>)>,
) -> bool {
    match plug_query(slapi_base, pairs) {
        Ok(url) => r matches Ok(req) && req@ == (RequestView {
            method: "GET"@,
            url,
            headers: trace::api_headers_view(token),
            body: None,
        }),
        Err(m) => r matches Err(Error::Api(s)) && s@ == m,
    }
}

/// A form posted to a `/smart-plug/*` endpoint.
pub open spec fn form_request(
    url: Seq<char>,
    token: Seq<char>,
    pairs: Seq<(Seq<char>, Seq<char>)>,
) -> RequestView {
    RequestView {
        method: "POST"@,
        url,
        headers: trace::api_headers_view(token).push(
            ("Content-Type"@, "application/x-www-form-urlencoded"@),
        ),
        body: Some(url::pairs_text(pairs)),
    }
}

/// The parameters that ask for the firmware version.
pub open spec fn version_params(sn: Seq<char>) -> Seq<(Seq<char>, Seq<char>)> {
    seq![("sn"@, sn), ("_api"@, "get_plug_version"@)]
}

/// The parameters that ask for WiFi info.
pub open spec fn wifi_params(sn: Seq<char>) -> Seq<(Seq<char>, Seq<char>)> {
    seq![("sn"@, sn), ("_api"@, "get_plug_wifi"@)]
}

/// The parameters that ask for the supported feature set.
pub open spec fn func_list_params(sn: Seq<char>) -> Seq<(Seq<char>, Seq<char>)> {
    seq![("sn"@, sn), ("_api"@, "get_func_list"@)]
}

/// The document of a timer that is added.
pub open spec fn timer_tree(timer: PlugTimer) -> Tree {
    Tree::Object(
        map![
            "time"@ => json::int_tree(match timer.time { Some(t) => t as int, None => 0 }),
            "action"@ => json::int_tree(match timer.action { Some(a) => a as int, None => 1 }),
            "repeat"@ => json::int_tree(match timer.repeat { Some(d) => d as int, None => 0 }),
            "enabled"@ => json::int_tree(match timer.enabled { Some(e) => e as int, None => 1 }),
        ],
    )
}

/// Thin wrapper over the Oray smart-plug HTTP endpoints.
pub struct PlugApi {
    pub slapi_base: String,
}

impl PlugApi {
    /// For the SLAPI base (e.g. `https://slapi.oray.net`).
    pub fn new(slapi_base: &str) -> (r: Self)
        ensures
            r.slapi_base@ == text::trim_end_char(slapi_base@, '/'),
    {
        PlugApi { slapi_base: text::without_trailing(slapi_base, '/') }
    }

    /// A plug request with these parameters.
    fn send_checked(&self, token: &str, params: &Vec<(&str, &str)>) -> (r: Result<Request>)
        ensures
            is_plug_request(r, self.slapi_base@, token@, url::pairs_view(params@)),
    {
        match plug_url(self.slapi_base.as_str(), params) {
            Ok(url) => Ok(
                Request { method: "GET", url, headers: trace::api_headers(token), body: None },
            ),
            Err(e) => Err(e),
        }
    }

    /// A form posted to an endpoint.
    fn post_form_checked(&self, token: &str, path: &str, form: &Vec<(&str, &str)>) -> (r: Request)
        ensures
            r@ == form_request(self.slapi_base@ + path@, token@, url::pairs_view(form@)),
    {
        let mut url = self.slapi_base.clone();
        url.append(path);
        let mut headers = trace::api_headers(token);
        trace::add_header(&mut headers, "Content-Type", "application/x-www-form-urlencoded");
        Request { method: "POST", url, headers, body: Some(url::form_body(form)) }
    }

    /// Query the current status of one outlet (`index`, 0 is the master).
    pub fn get_status(&self, token: &str, sn: &str, index: usize) -> (r: Result<Request>)
        ensures
            is_plug_request(
                r,
                self.slapi_base@,
                token@,
                seq![
                    ("sn"@, sn@),
                    ("_api"@, "get_plug_status"@),
                    ("index"@, text::dec(index as nat)),
                ],
            ),
    {
        let index = text::dec_text(index as u64);
        let params: Vec<(&str, &str)> = vec![
            ("sn", sn),
            ("_api", "get_plug_status"),
            ("index", index.as_str()),
        ];
        proof {
            assert(url::pairs_view(params@) =~= seq![
                ("sn"@, sn@),
                ("_api"@, "get_plug_status"@),
                ("index"@, index@),
            ]);
        }
        self.send_checked(token, &params)
    }

    /// Turn an outlet on or off. `index` 0 is the master switch.
    pub fn set_status(&self, token: &str, sn: &str, index: usize, on: bool) -> (r: Result<Request>)
        ensures
            is_plug_request(
                r,
                self.slapi_base@,
                token@,
                seq![
                    ("sn"@, sn@),
                    ("index"@, text::dec(index as nat)),
                    ("status"@, flag(on)),
                    ("_api"@, "set_plug_status"@),
                ],
            ),
    {
        let index_text = text::dec_text(index as u64);
        let params: Vec<(&str, &str)> = vec![
            ("sn", sn),
            ("index", index_text.as_str()),
            ("status", flag_text(on)),
            ("_api", "set_plug_status"),
        ];
        proof {
            assert(url::pairs_view(params@) =~= seq![
                ("sn"@, sn@),
                ("index"@, index_text@),
                ("status"@, flag(on)),
                ("_api"@, "set_plug_status"@),
            ]);
        }
        self.send_checked(token, &params)
    }

    /// Query the firmware version.
    pub fn get_version(&self, token: &str, sn: &str) -> (r: Result<Request>)
        ensures
            is_plug_request(r, self.slapi_base@, token@, version_params(sn@)),
    {
        let params: Vec<(&str, &str)> = vec![
            ("sn", sn),
            ("_api", "get_plug_version"),
        ];
        proof {
            assert(url::pairs_view(params@) =~= seq![
                ("sn"@, sn@),
                ("_api"@, "get_plug_version"@),
            ]);
        }
        self.send_checked(token, &params)
    }

    /// Query WiFi info.
    pub fn get_wifi(&self, token: &str, sn: &str) -> (r: Result<Request>)
        ensures
            is_plug_request(r, self.slapi_base@, token@, wifi_params(sn@)),
    {
        let params: Vec<(&str, &str)> = vec![
            ("sn", sn),
            ("_api", "get_plug_wifi"),
        ];
        proof {
            assert(url::pairs_view(params@) =~= seq![
                ("sn"@, sn@),
                ("_api"@, "get_plug_wifi"@),
            ]);
        }
        self.send_checked(token, &params)
    }

    /// Query the supported feature set.
    pub fn get_func_list(&self, token: &str, sn: &str) -> (r: Result<Request>)
        ensures
            is_plug_request(r, self.slapi_base@, token@, func_list_params(sn@)),
    {
        let params: Vec<(&str, &str)> = vec![
            ("sn", sn),
            ("_api", "get_func_list"),
        ];
        proof {
            assert(url::pairs_view(params@) =~= seq![
                ("sn"@, sn@),
                ("_api"@, "get_func_list"@),
            ]);
        }
        self.send_checked(token, &params)
    }

    /// List the timers configured for one outlet.
    pub fn timer_list(&self, token: &str, sn: &str, index: usize) -> (r: Result<Request>)
        ensures
            is_plug_request(
                r,
                self.slapi_base@,
                token@,
                seq![
                    ("sn"@, sn@),
                    ("_api"@, "plug_timer_get"@),
                    ("index"@, text::dec(index as nat)),
                ],
            ),
    {
        let index_text = text::dec_text(index as u64);
        let params: Vec<(&str, &str)> = vec![
            ("sn", sn),
            ("_api", "plug_timer_get"),
            ("index", index_text.as_str()),
        ];
        proof {
            assert(url::pairs_view(params@) =~= seq![
                ("sn"@, sn@),
                ("_api"@, "plug_timer_get"@),
                ("index"@, index_text@),
            ]);
        }
        self.send_checked(token, &params)
    }

    /// Enable or disable a timer, preserving its other settings: `action`,
    /// `repeat` and `time` are passed through.
    pub fn timer_set(&self, token: &str, sn: &str, index: usize, timer_id: u64, enabled: bool, action: u8, repeat: u8, time: u64) -> (r: Result<Request>)
        ensures
            is_plug_request(
                r,
                self.slapi_base@,
                token@,
                seq![
                    ("sn"@, sn@),
                    ("timer_id"@, text::dec(timer_id as nat)),
                    ("enabled"@, flag(enabled)),
                    ("action"@, text::dec(action as nat)),
                    ("repeat"@, text::dec(repeat as nat)),
                    ("index"@, text::dec(index as nat)),
                    ("timer"@, text::dec(time as nat)),
                    ("_api"@, "plug_timer_set"@),
                ],
            ),
    {
        let timer_id_text = text::dec_text(timer_id as u64);
        let action_text = text::dec_text(action as u64);
        let repeat_text = text::dec_text(repeat as u64);
        let index_text = text::dec_text(index as u64);
        let time_text = text::dec_text(time as u64);
        let params: Vec<(&str, &str)> = vec![
            ("sn", sn),
            ("timer_id", timer_id_text.as_str()),
            ("enabled", flag_text(enabled)),
            ("action", action_text.as_str()),
            ("repeat", repeat_text.as_str()),
            ("index", index_text.as_str()),
            ("timer", time_text.as_str()),
            ("_api", "plug_timer_set"),
        ];
        proof {
            assert(url::pairs_view(params@) =~= seq![
                ("sn"@, sn@),
                ("timer_id"@, timer_id_text@),
                ("enabled"@, flag(enabled)),
                ("action"@, action_text@),
                ("repeat"@, repeat_text@),
                ("index"@, index_text@),
                ("timer"@, time_text@),
                ("_api"@, "plug_timer_set"@),
            ]);
        }
        self.send_checked(token, &params)
    }

    /// Delete a timer. `repeat` and `time` identify it alongside `timer_id`.
    pub fn timer_del(&self, token: &str, sn: &str, index: usize, timer_id: u64, repeat: u8, time: u64) -> (r: Result<Request>)
        ensures
            is_plug_request(
                r,
                self.slapi_base@,
                token@,
                seq![
                    ("sn"@, sn@),
                    ("timer_id"@, text::dec(timer_id as nat)),
                    ("repeat"@, text::dec(repeat as nat)),
                    ("index"@, text::dec(index as nat)),
                    ("timer"@, text::dec(time as nat)),
                    ("_api"@, "plug_timer_del"@),
                ],
            ),
    {
        let timer_id_text = text::dec_text(timer_id as u64);
        let repeat_text = text::dec_text(repeat as u64);
        let index_text = text::dec_text(index as u64);
        let time_text = text::dec_text(time as u64);
        let params: Vec<(&str, &str)> = vec![
            ("sn", sn),
            ("timer_id", timer_id_text.as_str()),
            ("repeat", repeat_text.as_str()),
            ("index", index_text.as_str()),
            ("timer", time_text.as_str()),
            ("_api", "plug_timer_del"),
        ];
        proof {
            assert(url::pairs_view(params@) =~= seq![
                ("sn"@, sn@),
                ("timer_id"@, timer_id_text@),
                ("repeat"@, repeat_text@),
                ("index"@, index_text@),
                ("timer"@, time_text@),
                ("_api"@, "plug_timer_del"@),
            ]);
        }
        self.send_checked(token, &params)
    }

    /// Query the running countdown for one outlet.
    pub fn cntdown_get(&self, token: &str, sn: &str, index: usize) -> (r: Result<Request>)
        ensures
            is_plug_request(
                r,
                self.slapi_base@,
                token@,
                seq![
                    ("sn"@, sn@),
                    ("_api"@, "plug_cntdown_get"@),
                    ("index"@, text::dec(index as nat)),
                ],
            ),
    {
        let index_text = text::dec_text(index as u64);
        let params: Vec<(&str, &str)> = vec![
            ("sn", sn),
            ("_api", "plug_cntdown_get"),
            ("index", index_text.as_str()),
        ];
        proof {
            assert(url::pairs_view(params@) =~= seq![
                ("sn"@, sn@),
                ("_api"@, "plug_cntdown_get"@),
                ("index"@, index_text@),
            ]);
        }
        self.send_checked(token, &params)
    }

    /// Start a countdown that flips the outlet after `count` seconds to
    /// `action` (0 is off, 1 is on).
    pub fn cntdown_start(&self, token: &str, sn: &str, index: usize, action: u8, count: u64) -> (r: Result<Request>)
        ensures
            is_plug_request(
                r,
                self.slapi_base@,
                token@,
                seq![
                    ("sn"@, sn@),
                    ("_api"@, "plug_cntdown_add"@),
                    ("action"@, text::dec(action as nat)),
                    ("count"@, text::dec(count as nat)),
                    ("index"@, text::dec(index as nat)),
                ],
            ),
    {
        let action_text = text::dec_text(action as u64);
        let count_text = text::dec_text(count as u64);
        let index_text = text::dec_text(index as u64);
        let params: Vec<(&str, &str)> = vec![
            ("sn", sn),
            ("_api", "plug_cntdown_add"),
            ("action", action_text.as_str()),
            ("count", count_text.as_str()),
            ("index", index_text.as_str()),
        ];
        proof {
            assert(url::pairs_view(params@) =~= seq![
                ("sn"@, sn@),
                ("_api"@, "plug_cntdown_add"@),
                ("action"@, action_text@),
                ("count"@, count_text@),
                ("index"@, index_text@),
            ]);
        }
        self.send_checked(token, &params)
    }

    /// Stop any running countdown for one outlet.
    pub fn cntdown_stop(&self, token: &str, sn: &str, index: usize) -> (r: Result<Request>)
        ensures
            is_plug_request(
                r,
                self.slapi_base@,
                token@,
                seq![
                    ("sn"@, sn@),
                    ("_api"@, "plug_cntdown_del"@),
                    ("index"@, text::dec(index as nat)),
                ],
            ),
    {
        let index_text = text::dec_text(index as u64);
        let params: Vec<(&str, &str)> = vec![
            ("sn", sn),
            ("_api", "plug_cntdown_del"),
            ("index", index_text.as_str()),
        ];
        proof {
            assert(url::pairs_view(params@) =~= seq![
                ("sn"@, sn@),
                ("_api"@, "plug_cntdown_del"@),
                ("index"@, index_text@),
            ]);
        }
        self.send_checked(token, &params)
    }

    /// Turn the LED indicator on or off.
    pub fn set_led(&self, token: &str, sn: &str, enabled: bool) -> (r: Result<Request>)
        ensures
            is_plug_request(
                r,
                self.slapi_base@,
                token@,
                seq![
                    ("sn"@, sn@),
                    ("_api"@, "set_plug_led"@),
                    ("enabled"@, flag(enabled)),
                ],
            ),
    {
        let params: Vec<(&str, &str)> = vec![
            ("sn", sn),
            ("_api", "set_plug_led"),
            ("enabled", flag_text(enabled)),
        ];
        proof {
            assert(url::pairs_view(params@) =~= seq![
                ("sn"@, sn@),
                ("_api"@, "set_plug_led"@),
                ("enabled"@, flag(enabled)),
            ]);
        }
        self.send_checked(token, &params)
    }

    /// Set the outlet state after a power loss.
    pub fn set_dfltstat(&self, token: &str, sn: &str, default: u32) -> (r: Result<Request>)
        ensures
            is_plug_request(
                r,
                self.slapi_base@,
                token@,
                seq![
                    ("sn"@, sn@),
                    ("_api"@, "set_plug_dfltstat"@),
                    ("default"@, text::dec(default as nat)),
                ],
            ),
    {
        let default_text = text::dec_text(default as u64);
        let params: Vec<(&str, &str)> = vec![
            ("sn", sn),
            ("_api", "set_plug_dfltstat"),
            ("default", default_text.as_str()),
        ];
        proof {
            assert(url::pairs_view(params@) =~= seq![
                ("sn"@, sn@),
                ("_api"@, "set_plug_dfltstat"@),
                ("default"@, default_text@),
            ]);
        }
        self.send_checked(token, &params)
    }

    /// Add a timer.
    pub fn timer_add(&self, token: &str, sn: &str, index: usize, timer: &PlugTimer) -> (r: Result<
        Request,
    >)
        ensures
            is_plug_request(
                r,
                self.slapi_base@,
                token@,
                seq![
                    ("sn"@, sn@),
                    ("_api"@, "plug_timer_add"@),
                    ("index"@, text::dec(index as nat)),
                    ("timer"@, json::json_compact(timer_tree(*timer))),
                ],
            ),
    {
        let mut f: Vec<(String, Json)> = Vec::new();
        json::put(&mut f, "time", Json::UInt(timer.time.unwrap_or(0)));
        json::put(&mut f, "action", Json::UInt(timer.action.unwrap_or(1) as u64));
        json::put(&mut f, "repeat", Json::UInt(timer.repeat.unwrap_or(0) as u64));
        json::put(&mut f, "enabled", Json::UInt(timer.enabled.unwrap_or(1) as u64));
        let timer_text = Json::Object(f).compact();
        let index_text = text::dec_text(index as u64);
        let params: Vec<(&str, &str)> = vec![
            ("sn", sn),
            ("_api", "plug_timer_add"),
            ("index", index_text.as_str()),
            ("timer", timer_text.as_str()),
        ];
        proof {
            assert(url::pairs_view(params@) =~= seq![
                ("sn"@, sn@),
                ("_api"@, "plug_timer_add"@),
                ("index"@, index_text@),
                ("timer"@, timer_text@),
            ]);
        }
        self.send_checked(token, &params)
    }

    /// Fetch a page of status-change logs.
    pub fn status_logs(&self, token: &str, sn: &str, page: u32) -> (r: Request)
        ensures
            r@ == form_request(
                self.slapi_base@ + "/smart-plug/get-status-logs"@,
                token@,
                seq![("sn"@, sn@), ("page"@, text::dec(page as nat)), ("_format"@, "json"@)],
            ),
    {
        let page_text = text::dec_text(page as u64);
        let form: Vec<(&str, &str)> = vec![
            ("sn", sn),
            ("page", page_text.as_str()),
            ("_format", "json"),
        ];
        proof {
            assert(url::pairs_view(form@) =~= seq![
                ("sn"@, sn@),
                ("page"@, page_text@),
                ("_format"@, "json"@),
            ]);
        }
        self.post_form_checked(token, "/smart-plug/get-status-logs", &form)
    }

    /// What the answer to a status-log request comes to, given what parsing
    /// its body gave.
    pub fn status_logs_answer(
        ex: Exchange,
        parsed: std::result::Result<SlResp<StatusLogsData>, JsonError>,
    ) -> (r: TracedResult<StatusLogsData>)
        ensures
            is_logs_answer(r, ex, parsed),
    {
        match trace::expect_json(ex, "plug request", parsed) {
            Ok(done) => {
                let calls = done.calls;
                let resp = done.data;
                if resp.code != 0 {
                    let error = result_err(
                        "get-status-logs",
                        resp.code as i64,
                        borrowed(&resp.message),
                    );
                    return Err(TracedError { error, calls });
                }
                match resp.data {
                    Some(data) => Ok(Traced { data, calls }),
                    None => Err(
                        TracedError {
                            error: Error::Api("get-status-logs returned no data".to_owned()),
                            calls,
                        },
                    ),
                }
            },
            Err(e) => Err(e),
        }
    }

    /// Rename a plug and update its memo (`description`). The endpoint always
    /// updates both, so the current value has to be supplied for the one that
    /// stays.
    pub fn rename_device(&self, token: &str, sn: &str, name: &str, description: &str) -> (r:
        Request)
        ensures
            r@ == form_request(
                self.slapi_base@ + "/smart-plug/rename"@,
                token@,
                seq![
                    ("sn"@, sn@),
                    ("name"@, name@),
                    ("description"@, description@),
                    ("_format"@, "json"@),
                ],
            ),
    {
        let form: Vec<(&str, &str)> = vec![
            ("sn", sn),
            ("name", name),
            ("description", description),
            ("_format", "json"),
        ];
        proof {
            assert(url::pairs_view(form@) =~= seq![
                ("sn"@, sn@),
                ("name"@, name@),
                ("description"@, description@),
                ("_format"@, "json"@),
            ]);
        }
        self.post_form_checked(token, "/smart-plug/rename", &form)
    }

    /// What the answer to a rename request comes to, given what parsing its
    /// body gave: only the wrapper's code counts.
    pub fn rename_answer<T>(ex: Exchange, parsed: std::result::Result<SlResp<T>, JsonError>) -> (r:
        TracedResult<()>)
        ensures
            is_rename_answer(r, ex, parsed),
    {
        match trace::expect_json(ex, "plug request", parsed) {
            Ok(done) => {
                let calls = done.calls;
                if done.data.code != 0 {
                    let error = result_err(
                        "rename",
                        done.data.code as i64,
                        borrowed(&done.data.message),
                    );
                    return Err(TracedError { error, calls });
                }
                Ok(Traced { data: (), calls })
            },
            Err(e) => Err(e),
        }
    }
}

// ---------------------------------------------------------------------- laws

/// A result code of 1010 is an expired token, whatever else the answer says,
/// as long as the request is named in ASCII.
pub proof fn result_1010_is_token_expired(what: Seq<char>, message: Option<Seq<char>>)
    requires
        forall|i: int| 0 <= i < what.len() ==> text::ascii(#[trigger] what[i]),
    ensures
        error::token_expired(result_text(what, 1010, message)),
{
    error::code_1010_is_token_expired(
        what,
        match message {
            Some(m) => m,
            None => ""@,
        },
    );
    reveal_with_fuel(text::dec, 5);
    reveal_strlit("1010");
    assert(text::dec(1010) =~= "1010"@);
}

/// Renaming and setting a memo go out as one form that carries both: the two
/// differ in nothing else.
pub proof fn rename_form_carries_both(
    url: Seq<char>,
    token: Seq<char>,
    sn: Seq<char>,
    name: Seq<char>,
    description: Seq<char>,
)
    ensures
        form_request(
            url,
            token,
            seq![
                ("sn"@, sn),
                ("name"@, name),
                ("description"@, description),
                ("_format"@, "json"@),
            ],
        ).body == Some(
            url::pair_text(("sn"@, sn)) + "&"@ + url::pair_text(("name"@, name)) + "&"@
                + url::pair_text(("description"@, description)) + "&"@ + url::pair_text(
                ("_format"@, "json"@),
            ),
        ),
{
    let p = seq![
        ("sn"@, sn),
        ("name"@, name),
        ("description"@, description),
        ("_format"@, "json"@),
    ];
    reveal_with_fuel(url::pairs_text, 5);
    assert(p.drop_last().drop_last().drop_last()[0] == p[0]);
    assert(p.drop_last().drop_last().last() == p[1]);
    assert(p.drop_last().last() == p[2]);
}

/// A plug request asks `/plug` of its base with a GET, and a form is posted to
/// its endpoint as it is, both in the name of the token.
pub proof fn plug_requests_are_authorized(
    req: Request,
    slapi_base: Seq<char>,
    url: Seq<char>,
    token: Seq<char>,
    pairs: Seq<(Seq<char>, Seq<char>)>,
)
    requires
        is_plug_request(Ok(req), slapi_base, token, pairs),
    ensures
        url::normal_url(slapi_base + "/plug"@) is Ok,
        req@.method == "GET"@,
        req@.body is None,
        req@.url == url::with_query(
            url::normal_url(slapi_base + "/plug"@)->Ok_0,
            url::pairs_text(pairs),
        ),
        req@.headers.contains(("Authorization"@, "Bearer "@ + token)),
        form_request(url, token, pairs).method == "POST"@,
        form_request(url, token, pairs).url == url,
        form_request(url, token, pairs).body == Some(url::pairs_text(pairs)),
        form_request(url, token, pairs).headers.contains(("Authorization"@, "Bearer "@ + token)),
        form_request(url, token, pairs).headers.last() == (
            "Content-Type"@,
            "application/x-www-form-urlencoded"@,
        ),
{
    assert(req@.headers[0] == ("Authorization"@, "Bearer "@ + token));
    assert(form_request(url, token, pairs).headers[0] == ("Authorization"@, "Bearer "@ + token));
}

/// A timer that is added is sent with every setting that it has, each under
/// its own name.
pub proof fn added_timers_are_sent_whole(timer: PlugTimer)
    ensures
        timer.time matches Some(t) ==> json::member(timer_tree(timer), "time"@) == Some(
            json::int_tree(t as int),
        ),
        timer.action matches Some(a) ==> json::member(timer_tree(timer), "action"@) == Some(
            json::int_tree(a as int),
        ),
        timer.repeat matches Some(d) ==> json::member(timer_tree(timer), "repeat"@) == Some(
            json::int_tree(d as int),
        ),
        timer.enabled matches Some(e) ==> json::member(timer_tree(timer), "enabled"@) == Some(
            json::int_tree(e as int),
        ),
{
    reveal_strlit("time");
    reveal_strlit("action");
    reveal_strlit("repeat");
    reveal_strlit("enabled");
    assert("time"@.len() == 4 && "action"@.len() == 6 && "repeat"@.len() == 6
        && "enabled"@.len() == 7);
    assert("action"@[0] == 'a' && "repeat"@[0] == 'r');
}

/// A timer that leaves settings out switches on, is enabled, and fires once
/// at the start of the day.
pub proof fn bare_timers_switch_on(timer: PlugTimer)
    requires
        timer.time is None,
        timer.action is None,
        timer.repeat is None,
        timer.enabled is None,
    ensures
        json::member(timer_tree(timer), "time"@) == Some(json::int_tree(0)),
        json::member(timer_tree(timer), "action"@) == Some(json::int_tree(1)),
        json::member(timer_tree(timer), "repeat"@) == Some(json::int_tree(0)),
        json::member(timer_tree(timer), "enabled"@) == Some(json::int_tree(1)),
{
    reveal_strlit("time");
    reveal_strlit("action");
    reveal_strlit("repeat");
    reveal_strlit("enabled");
    assert("time"@.len() == 4 && "action"@.len() == 6 && "repeat"@.len() == 6
        && "enabled"@.len() == 7);
    assert("action"@[0] == 'a' && "repeat"@[0] == 'r');
}

/// A result code other than 0 is a failure; that there was no countdown to
/// stop is none.
pub proof fn other_results_are_failures(what: Seq<char>, result: int)
    ensures
        is_done(what, 0),
        is_done("plug_cntdown_del"@, 11),
        what != "plug_cntdown_del"@ ==> (is_done(what, result) <==> result == 0),
        is_done("plug_cntdown_del"@, result) ==> result == 0 || result == 11,
{
}

/// A failure says which request failed, with which code, and what the plug
/// says of it.
pub proof fn failures_say_why(what: Seq<char>, code: int, message: Seq<char>)
    ensures
        result_text(what, code, Some(message)) == what + " failed (code="@ + text::dec_int(code)
            + ") "@ + message,
        result_text(what, code, None) == what + " failed (code="@ + text::dec_int(code) + ") "@,
{
    reveal_strlit("");
    assert(result_text(what, code, None) =~= what + " failed (code="@ + text::dec_int(code)
        + ") "@);
}

/// An answer counts exactly where the status is a success, the body could be
/// read, and the plug reports success; then it is handed on as it was read.
pub proof fn answers_are_handed_on<T: Ack>(
    r: TracedResult<T>,
    ex: Exchange,
    what: Seq<char>,
    parsed: std::result::Result<T, JsonError>,
)
    requires
        is_answer(r, ex, what, parsed),
    ensures
        r is Ok <==> 200 <= ex.status < 300 && parsed is Ok && is_done(what, parsed->Ok_0.code()),
        r matches Ok(done) ==> Ok::<T, JsonError>(done.data) == parsed && done.calls@ == seq![
            ex.log,
        ],
        r matches Err(e) ==> e.calls@ == seq![ex.log],
{
}

/// A page of the log counts exactly where the status is a success, the body
/// could be read, its code is 0, and it holds a page; then it is that page.
pub proof fn log_pages_are_handed_on(
    r: TracedResult<StatusLogsData>,
    ex: Exchange,
    parsed: std::result::Result<SlResp<StatusLogsData>, JsonError>,
)
    requires
        is_logs_answer(r, ex, parsed),
    ensures
        r is Ok <==> 200 <= ex.status < 300 && parsed is Ok && parsed->Ok_0.code == 0
            && parsed->Ok_0.data is Some,
        r matches Ok(done) ==> Some(done.data) == parsed->Ok_0.data && done.calls@ == seq![ex.log],
        r matches Err(e) ==> e.calls@ == seq![ex.log],
{
}

/// A rename went through exactly where the status is a success, the body
/// could be read, and its code is 0.
pub proof fn renames_are_checked<T>(
    r: TracedResult<()>,
    ex: Exchange,
    parsed: std::result::Result<SlResp<T>, JsonError>,
)
    requires
        is_rename_answer(r, ex, parsed),
    ensures
        r is Ok <==> 200 <= ex.status < 300 && parsed is Ok && parsed->Ok_0.code == 0,
        r matches Ok(done) ==> done.calls@ == seq![ex.log],
        r matches Err(e) ==> e.calls@ == seq![ex.log],
{
}

/// The three questions about a plug itself name the plug, and each asks for
/// its own answer.
pub proof fn plug_questions_are_told_apart(sn: Seq<char>)
    ensures
        url::carries(version_params(sn), "sn"@, sn),
        url::carries(version_params(sn), "_api"@, "get_plug_version"@),
        url::carries(wifi_params(sn), "sn"@, sn),
        url::carries(wifi_params(sn), "_api"@, "get_plug_wifi"@),
        url::carries(func_list_params(sn), "sn"@, sn),
        url::carries(func_list_params(sn), "_api"@, "get_func_list"@),
{
    reveal_strlit("sn");
    reveal_strlit("_api");
    assert("sn"@.len() == 2 && "_api"@.len() == 4);
    assert(version_params(sn)[0] == ("sn"@, sn) && wifi_params(sn)[0] == ("sn"@, sn)
        && func_list_params(sn)[0] == ("sn"@, sn));
    assert(version_params(sn)[1] == ("_api"@, "get_plug_version"@));
    assert(wifi_params(sn)[1] == ("_api"@, "get_plug_wifi"@));
    assert(func_list_params(sn)[1] == ("_api"@, "get_func_list"@));
}

/// An answer that reports a failure is an error with the request, the code and
/// the note of that answer, and a status that is no success is reported as it
/// came.
pub proof fn failed_answers_say_why<T: Ack>(
    r: TracedResult<T>,
    ex: Exchange,
    what: Seq<char>,
    parsed: std::result::Result<T, JsonError>,
)
    requires
        is_answer(r, ex, what, parsed),
    ensures
        200 <= ex.status < 300 && parsed is Ok && !is_done(what, parsed->Ok_0.code()) ==> (
        r matches Err(e) && error::is_message(
            e.error,
            result_text(what, parsed->Ok_0.code(), parsed->Ok_0.note()),
        )),
        !(200 <= ex.status < 300) ==> (r matches Err(e) && e.error == (Error::HttpStatus {
            what: "plug request",
            status: ex.status,
            body: ex.text,
        })),
        200 <= ex.status < 300 && parsed is Err ==> (r matches Err(e) && error::is_bad_body(
            e.error,
            ex.text,
            parsed->Err_0,
        )),
{
}

/// The two form endpoints report a failure under their own names.
pub proof fn failed_forms_say_why<T>(
    logs: TracedResult<StatusLogsData>,
    renamed: TracedResult<()>,
    ex: Exchange,
    page: SlResp<StatusLogsData>,
    answer: SlResp<T>,
)
    requires
        200 <= ex.status < 300,
        page.code != 0,
        answer.code != 0,
        is_logs_answer(logs, ex, Ok(page)),
        is_rename_answer::<T>(renamed, ex, Ok(answer)),
    ensures
        logs matches Err(e) && error::is_message(
            e.error,
            result_text("get-status-logs"@, page.code as int, text::opt_view(page.message)),
        ),
        renamed matches Err(e) && error::is_message(
            e.error,
            result_text("rename"@, answer.code as int, text::opt_view(answer.message)),
        ),
{
}

/// Every kind of answer reports its own result code and message.
pub proof fn answers_report_their_result(
    status: PlugStatusResp,
    set: SetResp,
    version: PlugVersionResp,
    wifi: PlugWifiResp,
    funcs: FuncListResp,
    timers: TimerListResp,
    countdown: CntdownResp,
)
    ensures
        status.code() == status.result && status.note() == text::opt_view(status.message),
        set.code() == set.result && set.note() == text::opt_view(set.message),
        version.code() == version.result && version.note() == text::opt_view(version.message),
        wifi.code() == wifi.result && wifi.note() == text::opt_view(wifi.message),
        funcs.code() == funcs.result && funcs.note() == text::opt_view(funcs.message),
        timers.code() == timers.result && timers.note() == text::opt_view(timers.message),
        countdown.code() == countdown.result && countdown.note() == text::opt_view(
            countdown.message,
        ),
{
}

} // verus!
