//! Request and response traces, returned by every API call.
//!
//! Each HTTP exchange is captured as a [`RequestLog`] and returned together
//! with the parsed data ([`Traced`]) or with the error ([`TracedError`]). The
//! caller decides how to show a trace, and whether to mask its sensitive
//! values with [`RequestLog::redacted`] first.

use crate::error;
use crate::error::{Error, Result};
use crate::json;
use crate::json::{Json, Tree};
use crate::text;
use serde_json::Error as JsonError;
use vstd::prelude::*;
use vstd::string::*;

verus! {

broadcast use vstd::seq_lib::group_seq_properties;

// ------------------------------------------------------------------- headers

/// The names and values of `headers`.
pub open spec fn headers_view(headers: Seq<(String, String)>) -> Seq<(Seq<char>, Seq<char>)> {
    headers.map_values(|h: (String, String)| (h.0@, h.1@))
}

/// Appends a header.
pub fn add_header(headers: &mut Vec<(String, String)>, name: &str, value: &str)
    ensures
        headers_view(final(headers)@) == headers_view(old(headers)@).push((name@, value@)),
{
    let ghost before = headers@;
    headers.push((name.to_owned(), value.to_owned()));
    proof {
        assert(headers_view(headers@) =~= headers_view(before).push((name@, value@)));
    }
}

/// The value of the `Authorization` header that carries `token`.
pub open spec fn bearer(token: Seq<char>) -> Seq<char> {
    "Bearer "@ + token
}

/// The value of the `Authorization` header that carries `token`.
pub fn bearer_value(token: &str) -> (r: String)
    ensures
        r@ == bearer(token@),
{
    let mut s = "Bearer ".to_owned();
    s.append(token);
    s
}

/// The headers that the api-std endpoints receive.
pub open spec fn api_headers_view(token: Seq<char>) -> Seq<(Seq<char>, Seq<char>)> {
    seq![
        ("Authorization"@, bearer(token)),
        ("Accept"@, "application/json"@),
        ("User-Agent"@, error::USER_AGENT@),
        ("X-Channel"@, "OPPO"@),
        ("Country-Region"@, "CN"@),
    ]
}

/// The headers shared by the api-std and plug endpoints, carrying `token`.
pub fn api_headers(token: &str) -> (r: Vec<(String, String)>)
    ensures
        headers_view(r@) == api_headers_view(token@),
{
    let mut headers: Vec<(String, String)> = Vec::new();
    add_header(&mut headers, "Authorization", bearer_value(token).as_str());
    add_header(&mut headers, "Accept", "application/json");
    add_header(&mut headers, "User-Agent", error::USER_AGENT);
    add_header(&mut headers, "X-Channel", "OPPO");
    add_header(&mut headers, "Country-Region", "CN");
    proof {
        assert(headers_view(headers@) =~= api_headers_view(token@));
    }
    headers
}

// ---------------------------------------------------------------- exchanges

/// A fully specified HTTP exchange about to be executed.
pub struct Request {
    pub method: &'static str,
    pub url: String,
    pub headers: Vec<(String, String)>,
    pub body: Option<String>,
}

/// What a [`Request`] asks for.
pub struct RequestView {
    pub method: Seq<char>,
    pub url: Seq<char>,
    pub headers: Seq<(Seq<char>, Seq<char>)>,
    pub body: Option<Seq<char>>,
}

impl View for Request {
    type V = RequestView;

    open spec fn view(&self) -> RequestView {
        RequestView {
            method: self.method@,
            url: self.url@,
            headers: headers_view(self.headers@),
            body: text::opt_view(self.body),
        }
    }
}

/// One captured HTTP exchange. Values are captured raw.
#[derive(Debug)]
pub struct RequestLog {
    /// HTTP method.
    pub method: String,
    /// Full request URL, including any query string.
    pub url: String,
    /// Request headers exactly as sent, in order.
    pub request_headers: Vec<(String, String)>,
    /// Serialized request body, when the request carried one.
    pub request_body: Option<String>,
    /// Response HTTP status; `None` when no response was received.
    pub status: Option<u16>,
    /// Full response body.
    pub response_body: String,
}

/// What a [`RequestLog`] records.
pub struct LogView {
    pub request: RequestView,
    pub status: Option<u16>,
    pub response_body: Seq<char>,
}

impl View for RequestLog {
    type V = LogView;

    open spec fn view(&self) -> LogView {
        LogView {
            request: RequestView {
                method: self.method@,
                url: self.url@,
                headers: headers_view(self.request_headers@),
                body: text::opt_view(self.request_body),
            },
            status: self.status,
            response_body: self.response_body@,
        }
    }
}

impl Clone for RequestLog {
    fn clone(&self) -> (r: Self)
        ensures
            r@ == self@,
    {
        let mut request_headers: Vec<(String, String)> = Vec::new();
        let mut i: usize = 0;
        while i < self.request_headers.len()
            invariant
                i <= self.request_headers@.len(),
                request_headers@ == self.request_headers@.take(i as int),
            decreases self.request_headers.len() - i,
        {
            request_headers.push(
                (self.request_headers[i].0.clone(), self.request_headers[i].1.clone()),
            );
            i = i + 1;
        }
        proof {
            assert(request_headers@ =~= self.request_headers@);
        }
        RequestLog {
            method: self.method.clone(),
            url: self.url.clone(),
            request_headers,
            request_body: match &self.request_body {
                Some(body) => Some(body.clone()),
                None => None,
            },
            status: self.status,
            response_body: self.response_body.clone(),
        }
    }
}

/// The records in `calls`.
pub open spec fn calls_view(calls: Seq<RequestLog>) -> Seq<LogView> {
    calls.map_values(|c: RequestLog| c@)
}

/// Outcome of one executed request that produced a response body.
pub struct Exchange {
    pub log: RequestLog,
    pub status: u16,
    pub text: String,
}

impl Exchange {
    /// Whether the log tells the same as the exchange.
    pub open spec fn well_formed(&self) -> bool {
        self.log.status == Some(self.status) && self.log.response_body@ == self.text@
    }
}

/// What became of a request that was handed to the transport.
pub enum Transport {
    /// No response came back; what the transport reported.
    NoResponse(String),
    /// A response with this status came back, but its body could not be read;
    /// what the transport reported.
    BrokenBody(u16, String),
    /// A response came back.
    Response(u16, String),
}

/// Parsed result of an API operation plus the exchanges that produced it, in
/// order and complete.
#[derive(Debug)]
pub struct Traced<T> {
    pub data: T,
    pub calls: Vec<RequestLog>,
}

impl<T> std::ops::Deref for Traced<T> {
    type Target = T;

    fn deref(&self) -> (r: &T)
        ensures
            *r == self.data,
    {
        &self.data
    }
}

impl<T> std::ops::DerefMut for Traced<T> {
    fn deref_mut(&mut self) -> (r: &mut T)
        ensures
            *r == old(self).data,
            *final(self) == (Traced { data: *final(r), calls: old(self).calls }),
    {
        &mut self.data
    }
}

/// An [`Error`] from the protocol layer together with the exchanges that led
/// to it.
#[derive(Debug)]
pub struct TracedError {
    pub error: Error,
    pub calls: Vec<RequestLog>,
}

impl TracedError {
    /// Whether the server reported an expired access token.
    pub fn is_token_expired(&self) -> (r: bool)
        ensures
            r == (self.error is TokenExpired),
    {
        match &self.error {
            Error::TokenExpired(_) => true,
            _ => false,
        }
    }

    /// How the error is shown to a person.
    pub fn message(&self) -> (r: String)
        ensures
            r@ == self.error.text(),
    {
        self.error.message()
    }
}

impl std::ops::Deref for TracedError {
    type Target = Error;

    fn deref(&self) -> (r: &Error)
        ensures
            *r == self.error,
    {
        &self.error
    }
}

/// Result of the API surface: data and errors both carry the exchanges.
pub type TracedResult<T> = std::result::Result<Traced<T>, TracedError>;

/// Transport-level result: an executed exchange or a traced error.
pub type RawResult<T> = std::result::Result<T, TracedError>;

/// An error that no exchange led to.
pub fn untraced(error: Error) -> (r: TracedError)
    ensures
        r.error == error,
        r.calls@.len() == 0,
{
    TracedError { error, calls: Vec::new() }
}

/// One exchange, as the list of an operation that made no other.
fn only(log: RequestLog) -> (r: Vec<RequestLog>)
    ensures
        r@ == seq![log],
{
    let mut calls: Vec<RequestLog> = Vec::new();
    calls.push(log);
    proof {
        assert(calls@ =~= seq![log]);
    }
    calls
}

/// The record of a request whose response never came through.
pub open spec fn partial_log(req: RequestView, status: Option<u16>) -> LogView {
    LogView { request: req, status, response_body: seq![] }
}

/// Whether `r` captures what became of a request.
pub open spec fn is_captured(r: RawResult<Exchange>, req: RequestView, outcome: Transport) -> bool {
    match outcome {
        Transport::Response(status, body) => r matches Ok(ex) && ex.status == status && ex.text
            == body && ex.log@ == (LogView {
            request: req,
            status: Some(status),
            response_body: body@,
        }) && ex.well_formed(),
        Transport::NoResponse(message) => r matches Err(e) && e.error == Error::Http(message)
            && calls_view(e.calls@) == seq![partial_log(req, None)],
        Transport::BrokenBody(status, message) => r matches Err(e) && e.error == Error::Http(
            message,
        ) && calls_view(e.calls@) == seq![partial_log(req, Some(status))],
    }
}

/// Captures what became of a request.
///
/// A response of any status is an exchange: callers look at
/// [`Exchange::status`] themselves.
pub fn execute(req: Request, outcome: Transport) -> (r: RawResult<Exchange>)
    ensures
        is_captured(r, req@, outcome),
{
    let mut log = RequestLog {
        method: req.method.to_owned(),
        url: req.url,
        request_headers: req.headers,
        request_body: req.body,
        status: None,
        response_body: String::new(),
    };
    match outcome {
        Transport::NoResponse(message) => {
            let calls = only(log);
            proof {
                assert(calls_view(calls@) =~= seq![partial_log(req@, None)]);
            }
            Err(TracedError { error: Error::Http(message), calls })
        },
        Transport::BrokenBody(status, message) => {
            log.status = Some(status);
            let calls = only(log);
            proof {
                assert(calls_view(calls@) =~= seq![partial_log(req@, Some(status))]);
            }
            Err(TracedError { error: Error::Http(message), calls })
        },
        Transport::Response(status, text) => {
            log.status = Some(status);
            log.response_body = text.clone();
            Ok(Exchange { log, status, text })
        },
    }
}

/// Whether `status` is a success.
pub open spec fn is_success(status: u16) -> bool {
    200 <= status < 300
}

/// The body of an exchange that succeeded, with its trace; the error of one
/// that did not.
pub fn expect_2xx(ex: Exchange, what: &'static str) -> (r: RawResult<(Vec<RequestLog>, String)>)
    ensures
        if is_success(ex.status) {
            r matches Ok(done) && done.0@ == seq![ex.log] && done.1 == ex.text
        } else {
            r matches Err(e) && e.error == (Error::HttpStatus {
                what,
                status: ex.status,
                body: ex.text,
            }) && e.calls@ == seq![ex.log]
        },
{
    let calls = only(ex.log);
    if 200 <= ex.status && ex.status < 300 {
        Ok((calls, ex.text))
    } else {
        Err(
            TracedError {
                error: Error::HttpStatus { what, status: ex.status, body: ex.text },
                calls,
            },
        )
    }
}

/// What [`finish`] makes of a parsed result.
pub open spec fn finished<T>(r: TracedResult<T>, calls: Seq<RequestLog>, parsed: Result<T>) -> bool {
    match parsed {
        Ok(data) => r matches Ok(done) && done.data == data && done.calls@ == calls,
        Err(error) => r matches Err(e) && e.error == error && e.calls@ == calls,
    }
}

/// Wraps a parsed or checked result with the exchanges that produced it.
pub fn finish<T>(calls: Vec<RequestLog>, parsed: Result<T>) -> (r: TracedResult<T>)
    ensures
        finished(r, calls@, parsed),
{
    match parsed {
        Ok(data) => Ok(Traced { data, calls }),
        Err(error) => Err(TracedError { error, calls }),
    }
}

/// Whether `r` is the error of an exchange with an unwelcome status.
pub open spec fn is_status_error<T>(
    r: std::result::Result<T, TracedError>,
    ex: Exchange,
    what: &'static str,
) -> bool {
    r matches Err(e) && e.error == (Error::HttpStatus { what, status: ex.status, body: ex.text })
        && e.calls@ == seq![ex.log]
}

/// Whether `r` is the value or the error that parsing the body of an exchange
/// came to.
pub open spec fn is_parsed<T>(
    r: TracedResult<T>,
    ex: Exchange,
    parsed: std::result::Result<T, JsonError>,
) -> bool {
    match parsed {
        Ok(data) => r matches Ok(done) && done.data == data && done.calls@ == seq![ex.log],
        Err(source) => r matches Err(e) && error::is_bad_body(e.error, ex.text, source)
            && e.calls@ == seq![ex.log],
    }
}

/// Whether `r` is what an exchange that should succeed with a body comes to.
pub open spec fn is_expected_json<T>(
    r: TracedResult<T>,
    ex: Exchange,
    what: &'static str,
    parsed: std::result::Result<T, JsonError>,
) -> bool {
    if is_success(ex.status) {
        is_parsed(r, ex, parsed)
    } else {
        is_status_error(r, ex, what)
    }
}

/// What an exchange that should succeed with a body comes to, given what
/// parsing its body gave.
pub fn expect_json<T>(
    ex: Exchange,
    what: &'static str,
    parsed: std::result::Result<T, JsonError>,
) -> (r: TracedResult<T>)
    ensures
        is_expected_json(r, ex, what, parsed),
{
    match expect_2xx(ex, what) {
        Ok(done) => finish(done.0, error::checked_body(done.1, parsed)),
        Err(e) => Err(e),
    }
}

// ------------------------------------------------------------------- masking

/// Whether a member of that name holds a value that must not be shown.
pub open spec fn is_sensitive(key: Seq<char>) -> bool {
    let k = text::ascii_lower(key);
    ||| text::contains(k, "token"@)
    ||| text::contains(k, "password"@)
    ||| text::contains(k, "passwd"@)
    ||| text::contains(k, "checksum"@)
    ||| text::contains(k, "authorization"@)
    ||| text::contains(k, "cookie"@)
    ||| text::contains(k, "secret"@)
    ||| text::contains(k, "api_key"@)
    ||| text::contains(k, "apikey"@)
    ||| text::contains(k, "key"@)
}

/// Whether a member of that name holds a value that must not be shown.
pub fn sensitive_key(key: &str) -> (r: bool)
    ensures
        r == is_sensitive(key@),
{
    let lower = text::to_ascii_lower(key);
    let k = text::chars_of(lower.as_str());
    text::has(&k, "token") || text::has(&k, "password") || text::has(&k, "passwd") || text::has(
        &k,
        "checksum",
    ) || text::has(&k, "authorization") || text::has(&k, "cookie") || text::has(&k, "secret")
        || text::has(&k, "api_key") || text::has(&k, "apikey") || text::has(&k, "key")
}

/// At most the first `n` characters of `s`.
pub open spec fn first(s: Seq<char>, n: int) -> Seq<char> {
    if s.len() <= n {
        s
    } else {
        s.take(n)
    }
}

/// At most the first `n` characters of `s`.
pub fn first_chars(s: &str, n: usize) -> (r: String)
    ensures
        r@ == first(s@, n as int),
{
    let v = text::chars_of(s);
    let to: usize = if v.len() <= n { v.len() } else { n };
    let r = text::part_of(&v, 0, to);
    proof {
        assert(r@ =~= first(s@, n as int));
    }
    r
}

/// A sensitive value as it is shown.
pub open spec fn masked_str(s: Seq<char>) -> Seq<char> {
    first(s, 4) + "***"@
}

/// A sensitive value as it is shown: four characters of it at most.
pub fn mask_str(s: &str) -> (r: String)
    ensures
        r@ == masked_str(s@),
{
    let mut r = first_chars(s, 4);
    r.append("***");
    r
}

/// The value of an `Authorization` header as it is shown.
pub open spec fn masked_authorization(s: Seq<char>) -> Seq<char> {
    match text::strip_prefix(s, "Bearer "@) {
        Some(rest) => "Bearer "@ + first(rest, 6) + "***"@,
        None => masked_str(s),
    }
}

/// The value of an `Authorization` header as it is shown: the scheme, and six
/// characters of the token at most.
pub fn mask_authorization(s: &str) -> (r: String)
    ensures
        r@ == masked_authorization(s@),
{
    match text::without_prefix(s, "Bearer ") {
        Some(rest) => {
            let mut r = "Bearer ".to_owned();
            r.append(first_chars(rest.as_str(), 6).as_str());
            r.append("***");
            r
        },
        None => mask_str(s),
    }
}

/// A document with the texts under sensitive names masked, at every depth.
pub open spec fn masked(tree: Tree) -> Tree
    decreases tree,
{
    match tree {
        Tree::Object(m) => Tree::Object(
            Map::new(
                |k: Seq<char>| m.contains_key(k),
                |k: Seq<char>|
                    if m.dom().finite() && m.contains_key(k) {
                        if is_sensitive(k) && m[k] is Str {
                            Tree::Str(masked_str(m[k]->Str_0))
                        } else {
                            masked(m[k])
                        }
                    } else {
                        Tree::Null
                    },
            ),
        ),
        Tree::Array(items) => Tree::Array(
            Seq::new(
                items.len(),
                |i: int|
                    if 0 <= i < items.len() {
                        masked(items[i])
                    } else {
                        Tree::Null
                    },
            ),
        ),
        _ => tree,
    }
}

/// One member of a masked object.
pub open spec fn masked_member(name: Seq<char>, value: Tree) -> Tree {
    if is_sensitive(name) && value is Str {
        Tree::Str(masked_str(value->Str_0))
    } else {
        masked(value)
    }
}

/// A masked object with one more member.
proof fn masked_insert(m: Map<Seq<char>, Tree>, name: Seq<char>, value: Tree)
    requires
        m.dom().finite(),
    ensures
        masked(Tree::Object(m.insert(name, value))) == Tree::Object(
            masked(Tree::Object(m))->Object_0.insert(name, masked_member(name, value)),
        ),
{
    let a = masked(Tree::Object(m.insert(name, value)))->Object_0;
    let b = masked(Tree::Object(m))->Object_0.insert(name, masked_member(name, value));
    assert(a.dom() =~= b.dom());
    assert forall|k: Seq<char>| a.contains_key(k) implies a[k] == b[k] by {
        if k != name {
            assert(m.contains_key(k));
        }
    }
    assert(a =~= b);
}

/// A copy of `value` with the texts under sensitive names masked, at every
/// depth.
pub fn mask_value(value: &Json) -> (r: Json)
    ensures
        r@ == masked(value@),
    decreases value,
{
    match value {
        Json::Null => Json::Null,
        Json::Bool(b) => Json::Bool(*b),
        Json::Int(i) => Json::Int(*i),
        Json::UInt(u) => Json::UInt(*u),
        Json::Num(n) => Json::Num(json::copy_number(n)),
        Json::Str(s) => Json::Str(s.clone()),
        Json::Array(items) => {
            let mut out: Vec<Json> = Vec::new();
            let mut i: usize = 0;
            while i < items.len()
                invariant
                    i <= items@.len(),
                    value == Json::Array(*items),
                    out@.len() == i,
                    forall|j: int| 0 <= j < i ==> (#[trigger] out@[j])@ == masked(items@[j]@),
                decreases items.len() - i,
            {
                proof {
                    assert(decreases_to!(*value => (*value)->Array_0@[i as int]));
                }
                out.push(mask_value(&items[i]));
                i = i + 1;
            }
            proof {
                json::items_tree_at(items@);
                json::items_tree_at(out@);
                assert(json::items_tree(out@) =~= masked(value@)->Array_0);
            }
            Json::Array(out)
        },
        Json::Object(fields) => {
            let mut out: Vec<(String, Json)> = Vec::new();
            let mut i: usize = 0;
            proof {
                assert(masked(Tree::Object(Map::empty()))->Object_0 =~= Map::empty());
            }
            while i < fields.len()
                invariant
                    i <= fields@.len(),
                    value == Json::Object(*fields),
                    Tree::Object(json::fields_tree(out@)) == masked(
                        Tree::Object(json::fields_tree(fields@.take(i as int))),
                    ),
                decreases fields.len() - i,
            {
                let ghost before = out@;
                let name = fields[i].0.clone();
                let shown = if sensitive_key(name.as_str()) {
                    match &fields[i].1 {
                        Json::Str(s) => Json::Str(mask_str(s.as_str())),
                        other => {
                            proof {
                                assert(decreases_to!(*value => (*value)->Object_0@[i as int].1));
                            }
                            mask_value(other)
                        },
                    }
                } else {
                    proof {
                        assert(decreases_to!(*value => (*value)->Object_0@[i as int].1));
                    }
                    mask_value(&fields[i].1)
                };
                proof {
                    assert(shown@ == masked_member(name@, fields@[i as int].1@));
                    json::fields_finite(fields@.take(i as int));
                    masked_insert(
                        json::fields_tree(fields@.take(i as int)),
                        name@,
                        fields@[i as int].1@,
                    );
                    assert(fields@.take(i + 1).drop_last() =~= fields@.take(i as int));
                }
                out.push((name, shown));
                proof {
                    assert(out@.drop_last() =~= before);
                }
                i = i + 1;
            }
            proof {
                assert(fields@.take(fields@.len() as int) =~= fields@);
            }
            Json::Object(out)
        },
    }
}

/// A body as it is shown, given the document that it is read as and that
/// document's masked form written out.
pub open spec fn masked_body_by(
    body: Seq<char>,
    read: Option<Tree>,
    written: Option<Seq<char>>,
) -> Seq<char> {
    match (read, written) {
        (Some(_), Some(shown)) => shown,
        _ => body,
    }
}

/// A body as it is shown.
pub open spec fn masked_body(body: Seq<char>) -> Seq<char> {
    let read = json::json_parse(body);
    masked_body_by(
        body,
        read,
        match read {
            Some(tree) => json::json_pretty(masked(tree)),
            None => None,
        },
    )
}

/// A body as it is shown: JSON with its sensitive texts masked, anything else
/// verbatim.
pub fn mask_body(body: &str) -> (r: String)
    ensures
        r@ == masked_body(body@),
{
    match Json::parse(body) {
        Some(value) => match mask_value(&value).pretty() {
            Some(shown) => shown,
            None => body.to_owned(),
        },
        None => body.to_owned(),
    }
}

/// The headers of a request as they are shown.
pub open spec fn masked_headers(headers: Seq<(Seq<char>, Seq<char>)>) -> Seq<
    (Seq<char>, Seq<char>),
> {
    headers.map_values(
        |h: (Seq<char>, Seq<char>)|
            if text::same_ignoring_case(h.0, "authorization"@) {
                (h.0, masked_authorization(h.1))
            } else {
                h
            },
    )
}

/// A record as it is shown.
pub open spec fn redacted_log(log: LogView) -> LogView {
    LogView {
        request: RequestView {
            method: log.request.method,
            url: log.request.url,
            headers: masked_headers(log.request.headers),
            body: match log.request.body {
                Some(body) => Some(masked_body(body)),
                None => None,
            },
        },
        status: log.status,
        response_body: masked_body(log.response_body),
    }
}

impl RequestLog {
    /// A copy safe for display or logging: the `Authorization` value is
    /// shortened, and JSON bodies have the texts under sensitive keys masked.
    /// Bodies that are no JSON are kept verbatim.
    pub fn redacted(&self) -> (r: RequestLog)
        ensures
            r@ == redacted_log(self@),
    {
        let mut headers: Vec<(String, String)> = Vec::new();
        let mut i: usize = 0;
        while i < self.request_headers.len()
            invariant
                i <= self.request_headers@.len(),
                headers_view(headers@) == masked_headers(
                    headers_view(self.request_headers@).take(i as int),
                ),
            decreases self.request_headers.len() - i,
        {
            let name = self.request_headers[i].0.as_str();
            let value = self.request_headers[i].1.as_str();
            proof {
                let all = headers_view(self.request_headers@);
                assert(all.take(i + 1) =~= all.take(i as int).push((name@, value@)));
                assert(masked_headers(all.take(i + 1)) =~= masked_headers(all.take(i as int)).push(
                    masked_headers(all)[i as int],
                ));
            }
            if text::equal_ignoring_case(name, "authorization") {
                add_header(&mut headers, name, mask_authorization(value).as_str());
            } else {
                add_header(&mut headers, name, value);
            }
            i = i + 1;
        }
        proof {
            let all = headers_view(self.request_headers@);
            assert(all.take(all.len() as int) =~= all);
        }
        RequestLog {
            method: self.method.clone(),
            url: self.url.clone(),
            request_headers: headers,
            request_body: match &self.request_body {
                Some(body) => Some(mask_body(body.as_str())),
                None => None,
            },
            status: self.status,
            response_body: mask_body(self.response_body.as_str()),
        }
    }
}

// ---------------------------------------------------------------------- laws

/// A masked text shows four characters at most: texts that agree on those
/// look the same.
pub proof fn mask_shows_four_characters(a: Seq<char>, b: Seq<char>)
    requires
        first(a, 4) == first(b, 4),
    ensures
        masked_str(a) == masked_str(b),
{
}

/// A masked `Authorization` value shows six characters of the token at most:
/// tokens that agree on those look the same.
pub proof fn authorization_shows_six_characters(a: Seq<char>, b: Seq<char>)
    requires
        first(a, 6) == first(b, 6),
    ensures
        masked_authorization(bearer(a)) == masked_authorization(bearer(b)),
{
    reveal_strlit("Bearer ");
    assert(bearer(a).subrange(0, 7) =~= "Bearer "@);
    assert(bearer(b).subrange(0, 7) =~= "Bearer "@);
    assert(bearer(a).skip(7) =~= a);
    assert(bearer(b).skip(7) =~= b);
}

/// A masked object shows the first four characters of a text under a
/// sensitive name, and no more: replacing the text by another one that begins
/// alike leaves the masked object as it was.
pub proof fn masking_hides_sensitive_members(
    m: Map<Seq<char>, Tree>,
    name: Seq<char>,
    a: Seq<char>,
    b: Seq<char>,
)
    requires
        m.dom().finite(),
        is_sensitive(name),
        first(a, 4) == first(b, 4),
    ensures
        masked(Tree::Object(m.insert(name, Tree::Str(a)))) == masked(
            Tree::Object(m.insert(name, Tree::Str(b))),
        ),
{
    masked_insert(m, name, Tree::Str(a));
    masked_insert(m, name, Tree::Str(b));
}

/// Masking reaches every depth: what two documents show alike, they show
/// alike as a member of an object and as an item of an array.
pub proof fn masking_reaches_inside(
    m: Map<Seq<char>, Tree>,
    name: Seq<char>,
    items: Seq<Tree>,
    at: int,
    a: Tree,
    b: Tree,
)
    requires
        m.dom().finite(),
        0 <= at < items.len(),
        masked(a) == masked(b),
    ensures
        masked(Tree::Object(m.insert(name, a))) == masked(Tree::Object(m.insert(name, b))),
        masked(Tree::Array(items.update(at, a))) == masked(Tree::Array(items.update(at, b))),
{
    masked_insert(m, name, a);
    masked_insert(m, name, b);
    assert(masked(Tree::Array(items.update(at, a)))->Array_0 =~= masked(
        Tree::Array(items.update(at, b)),
    )->Array_0);
}

/// A body that is no JSON is shown as it is.
pub proof fn other_bodies_are_kept(body: Seq<char>)
    requires
        json::json_parse(body) is None,
    ensures
        masked_body(body) == body,
{
}

/// Every exchange is recorded with the request as it went out, what became of
/// it, and the body that came back; a request without a response is recorded
/// too, with the status where one came.
pub proof fn exchanges_are_recorded(r: RawResult<Exchange>, req: RequestView, outcome: Transport)
    requires
        is_captured(r, req, outcome),
    ensures
        r is Ok <==> outcome is Response,
        r matches Ok(ex) ==> ex.log@.request == req && ex.log@.status == Some(ex.status)
            && ex.log@.response_body == ex.text@,
        outcome matches Transport::Response(status, body) ==> (r matches Ok(ex) && ex.status
            == status && ex.text == body),
        r matches Err(e) ==> e.calls@.len() == 1 && e.calls@[0]@.request == req
            && e.calls@[0]@.response_body.len() == 0 && e.error is Http,
        outcome matches Transport::NoResponse(m) ==> (r matches Err(e) && e.error->Http_0 == m
            && e.calls@[0]@.status is None),
        outcome matches Transport::BrokenBody(status, m) ==> (r matches Err(e) && e.error->Http_0
            == m && e.calls@[0]@.status == Some(status)),
{
    if let Err(e) = r {
        assert(calls_view(e.calls@).len() == 1);
        assert(calls_view(e.calls@)[0] == e.calls@[0]@);
    }
}

/// The statuses from 200 to 299 are successes, and no others.
pub proof fn successes_are_2xx(status: u16)
    ensures
        is_success(status) <==> status / 100 == 2,
{
}

/// An answer counts exactly where its status is a success and its body could
/// be read, and is handed on as it was read; a status that is none is reported
/// as it came, before the body is looked at. Either way the exchange is kept.
pub proof fn answers_need_success_and_a_body<T>(
    r: TracedResult<T>,
    ex: Exchange,
    what: &'static str,
    parsed: std::result::Result<T, JsonError>,
)
    requires
        is_expected_json(r, ex, what, parsed),
    ensures
        r is Ok <==> 200 <= ex.status < 300 && parsed is Ok,
        r matches Ok(done) ==> parsed == Ok::<T, JsonError>(done.data) && done.calls@ == seq![
            ex.log,
        ],
        r matches Err(e) ==> e.calls@ == seq![ex.log],
        !(200 <= ex.status < 300) ==> (r matches Err(e) && e.error == (Error::HttpStatus {
            what,
            status: ex.status,
            body: ex.text,
        })),
{
}

/// Requests to the API go out in the name of the token, and of no other.
pub proof fn api_requests_carry_the_token(token: Seq<char>)
    ensures
        api_headers_view(token).contains(("Authorization"@, "Bearer "@ + token)),
        api_headers_view(token).contains(("Accept"@, "application/json"@)),
        forall|i: int|
            0 <= i < api_headers_view(token).len() && (#[trigger] api_headers_view(token)[i]).0
                == "Authorization"@ ==> api_headers_view(token)[i].1 == "Bearer "@ + token,
{
    reveal_strlit("Authorization");
    reveal_strlit("Accept");
    reveal_strlit("User-Agent");
    reveal_strlit("X-Channel");
    reveal_strlit("Country-Region");
    assert("Authorization"@.len() == 13 && "Accept"@.len() == 6 && "User-Agent"@.len() == 10
        && "X-Channel"@.len() == 9 && "Country-Region"@.len() == 14);
    let h = api_headers_view(token);
    assert(h[0] == ("Authorization"@, "Bearer "@ + token));
    assert(h[1] == ("Accept"@, "application/json"@));
}

/// A masked text shows its first four characters and three stars, and a short
/// one shows itself and the stars.
pub proof fn masks_show_the_start(s: Seq<char>)
    ensures
        s.len() >= 4 ==> masked_str(s) == s.take(4) + "***"@,
        s.len() < 4 ==> masked_str(s) == s + "***"@,
{
    if s.len() == 4 {
        assert(s.take(4) =~= s);
    }
}

/// A masked `Authorization` value keeps its scheme, and six characters of the
/// token at most.
pub proof fn authorization_keeps_its_scheme(token: Seq<char>)
    ensures
        token.len() >= 6 ==> masked_authorization("Bearer "@ + token) == "Bearer "@ + token.take(6)
            + "***"@,
        token.len() < 6 ==> masked_authorization("Bearer "@ + token) == "Bearer "@ + token + "***"@,
{
    reveal_strlit("Bearer ");
    let s = "Bearer "@ + token;
    assert(s.subrange(0, 7) =~= "Bearer "@);
    assert(s.skip(7) =~= token);
    if token.len() == 6 {
        assert(token.take(6) =~= token);
    }
}

/// A name is sensitive, in any case, where it speaks of a token, a password, a
/// checksum, an authorization, a cookie, a secret or a key.
pub proof fn secrets_have_sensitive_names(key: Seq<char>)
    ensures
        is_sensitive(key) == is_sensitive(text::ascii_lower(key)),
        text::contains(text::ascii_lower(key), "token"@) ==> is_sensitive(key),
        text::contains(text::ascii_lower(key), "password"@) ==> is_sensitive(key),
        text::contains(text::ascii_lower(key), "passwd"@) ==> is_sensitive(key),
        text::contains(text::ascii_lower(key), "checksum"@) ==> is_sensitive(key),
        text::contains(text::ascii_lower(key), "authorization"@) ==> is_sensitive(key),
        text::contains(text::ascii_lower(key), "cookie"@) ==> is_sensitive(key),
        text::contains(text::ascii_lower(key), "secret"@) ==> is_sensitive(key),
        text::contains(text::ascii_lower(key), "key"@) ==> is_sensitive(key),
{
    text::lower_case_is_final(key);
}

/// Masking keeps every name of an object, masks the texts under sensitive
/// names, and leaves every other text, number and truth value as it is.
pub proof fn masking_keeps_the_rest(m: Map<Seq<char>, Tree>, name: Seq<char>, s: Seq<char>)
    requires
        m.dom().finite(),
        m.contains_key(name),
    ensures
        masked(Tree::Object(m)) is Object,
        masked(Tree::Object(m))->Object_0.dom() == m.dom(),
        m[name] == Tree::Str(s) && is_sensitive(name) ==> masked(Tree::Object(m))->Object_0[name]
            == Tree::Str(masked_str(s)),
        m[name] == Tree::Str(s) && !is_sensitive(name) ==> masked(Tree::Object(m))->Object_0[name]
            == Tree::Str(s),
        m[name] is Num || m[name] is Bool || m[name] is Null ==> masked(
            Tree::Object(m),
        )->Object_0[name] == m[name],
{
    reveal_with_fuel(masked, 2);
    assert(masked(Tree::Object(m))->Object_0.dom() =~= m.dom());
}

/// A record that is shown differs from what was captured in the value of its
/// `Authorization` header and in its bodies alone.
pub proof fn redaction_keeps_the_rest(log: LogView, at: int)
    requires
        0 <= at < log.request.headers.len(),
    ensures
        redacted_log(log).request.method == log.request.method,
        redacted_log(log).request.url == log.request.url,
        redacted_log(log).status == log.status,
        redacted_log(log).request.headers.len() == log.request.headers.len(),
        redacted_log(log).request.headers[at].0 == log.request.headers[at].0,
        !text::same_ignoring_case(log.request.headers[at].0, "authorization"@) ==> redacted_log(
            log,
        ).request.headers[at] == log.request.headers[at],
        redacted_log(log).request.body is Some <==> log.request.body is Some,
        log.request.body matches Some(b) ==> json::json_parse(b) is None ==> redacted_log(
            log,
        ).request.body == Some(b),
        json::json_parse(log.response_body) is None ==> redacted_log(log).response_body
            == log.response_body,
{
}

/// A record that is shown hides the access token: two records that differ in
/// nothing but the token of their `Authorization` header, behind its first six
/// characters, look the same.
pub proof fn redaction_hides_the_token(
    log: LogView,
    at: int,
    name: Seq<char>,
    a: Seq<char>,
    b: Seq<char>,
)
    requires
        0 <= at < log.request.headers.len(),
        text::same_ignoring_case(name, "authorization"@),
        first(a, 6) == first(b, 6),
    ensures
        redacted_log(
            LogView {
                request: RequestView {
                    headers: log.request.headers.update(at, (name, "Bearer "@ + a)),
                    ..log.request
                },
                ..log
            },
        ) == redacted_log(
            LogView {
                request: RequestView {
                    headers: log.request.headers.update(at, (name, "Bearer "@ + b)),
                    ..log.request
                },
                ..log
            },
        ),
{
    authorization_shows_six_characters(a, b);
    let x = log.request.headers.update(at, (name, "Bearer "@ + a));
    let y = log.request.headers.update(at, (name, "Bearer "@ + b));
    assert(masked_headers(x) =~= masked_headers(y));
}

/// A body that is a document is shown as the masked document, or as it is
/// where that cannot be written.
pub proof fn bodies_are_shown_masked(body: Seq<char>, tree: Tree)
    requires
        json::json_parse(body) == Some(tree),
    ensures
        json::json_pretty(masked(tree)) matches Some(shown) ==> masked_body(body) == shown,
        json::json_pretty(masked(tree)) is None ==> masked_body(body) == body,
{
}

/// Requests to the API come from the app, for one region, and ask for JSON.
pub proof fn api_requests_come_from_the_app(token: Seq<char>)
    ensures
        api_headers_view(token).skip(1) == seq![
            ("Accept"@, "application/json"@),
            ("User-Agent"@, error::USER_AGENT@),
            ("X-Channel"@, "OPPO"@),
            ("Country-Region"@, "CN"@),
        ],
{
    assert(api_headers_view(token).skip(1) =~= seq![
        ("Accept"@, "application/json"@),
        ("User-Agent"@, error::USER_AGENT@),
        ("X-Channel"@, "OPPO"@),
        ("Country-Region"@, "CN"@),
    ]);
}

/// A result that was checked keeps its data or its error, and the exchanges.
pub proof fn checked_results_keep_their_exchanges<T>(
    r: TracedResult<T>,
    calls: Seq<RequestLog>,
    parsed: Result<T>,
)
    requires
        finished(r, calls, parsed),
    ensures
        r is Ok <==> parsed is Ok,
        r matches Ok(done) ==> parsed == Ok::<T, Error>(done.data) && done.calls@ == calls,
        r matches Err(e) ==> parsed == Err::<T, Error>(e.error) && e.calls@ == calls,
{
}

/// Masking an array masks each of its items, in their order.
pub proof fn arrays_are_masked_item_by_item(items: Seq<Tree>, at: int)
    requires
        0 <= at < items.len(),
    ensures
        masked(Tree::Array(items)) is Array,
        masked(Tree::Array(items))->Array_0.len() == items.len(),
        masked(Tree::Array(items))->Array_0[at] == masked(items[at]),
{
}

} // verus!
