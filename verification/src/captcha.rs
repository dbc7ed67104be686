//! Browser handshake for the slider captcha, without its sockets.
//!
//! A loopback page runs the captcha widget in the user's browser and posts
//! the solved token back. This module decodes the requests, decides what each
//! is answered with, and writes the answers. A plain POST skips the browser's
//! cross-origin checks, so a token is accepted from the page's own origin
//! only; a request without an `Origin` header is still accepted.

use crate::json;
use crate::json::{Json, Tree};
use crate::text;
use vstd::prelude::*;
use vstd::string::*;
use vstd::utf8::*;

verus! {

broadcast use vstd::seq_lib::group_seq_properties;

/// The captcha page; `{{MOBILE}}` is replaced with the masked number.
pub const PAGE: &'static str = "<!doctype html>
<html lang=\"zh-CN\">
<head>
<meta charset=\"utf-8\">
<title>oray-tools</title>
<script>window.AliyunCaptchaConfig = { region: \"cn\", prefix: \"16ck57\" };</script>
<script src=\"https://o.alicdn.com/captcha-frontend/aliyunCaptcha/AliyunCaptcha.js\"></script>
</head>
<body>
<p>Solve the slider to request the SMS login code for {{MOBILE}}.</p>
<div id=\"captcha-element\"></div>
<button id=\"captcha-button\">Verify</button>
<p id=\"result\"></p>
<script>
function deliver(captchaVerifyParam) {
  var raw = typeof captchaVerifyParam === \"string\" ? captchaVerifyParam : JSON.stringify(captchaVerifyParam);
  return fetch(\"/token\", {
    method: \"POST\",
    headers: { \"Content-Type\": \"application/json\" },
    body: JSON.stringify({ captchaVerifyParam: captchaVerifyParam, raw: raw })
  }).then(function (r) {
    document.getElementById(\"result\").textContent = r.ok ? \"Done. You can close this page.\" : \"Failed. Reload this page.\";
    return { captchaResult: r.ok, bizResult: r.ok };
  });
}
window.initAliyunCaptcha({
  SceneId: \"1sdsal45\",
  mode: \"popup\",
  element: \"#captcha-element\",
  button: \"#captcha-button\",
  captchaVerifyCallback: deliver,
  onBizResultCallback: function () {},
  getInstance: function () {},
  slideStyle: { width: 360, height: 40 },
  language: \"cn\"
});
</script>
</body>
</html>
";

/// Cap on the request head.
pub const MAX_HEAD: usize = 16384;

/// Cap on the captcha POST body.
pub const MAX_BODY: usize = 65536;

/// How long to wait for the user to solve the captcha, in seconds.
pub const DEFAULT_TIMEOUT: u64 = 300;

/// The kind of a page.
pub const HTML: &'static str = "text/html; charset=utf-8";

/// The kind of a short answer.
pub const PLAIN: &'static str = "text/plain; charset=utf-8";

/// A decoded loopback HTTP request.
#[derive(Debug)]
pub struct Request {
    pub method: String,
    pub path: String,
    pub body: Vec<u8>,
    /// Value of the `Origin` header, when the client sent one.
    pub origin: Option<String>,
}

/// What a [`Request`] asks for.
pub struct RequestView {
    pub method: Seq<char>,
    pub path: Seq<char>,
    pub body: Seq<u8>,
    pub origin: Option<Seq<char>>,
}

impl View for Request {
    type V = RequestView;

    open spec fn view(&self) -> RequestView {
        RequestView {
            method: self.method@,
            path: self.path@,
            body: self.body@,
            origin: text::opt_view(self.origin),
        }
    }
}

/// What a request is answered with.
pub enum Routed {
    /// Status, content type and body.
    Respond(u16, &'static str, String),
    /// Hand this captcha token on, and answer with [`delivered`].
    Forward(String),
}

/// What a request is answered with.
pub enum RoutedView {
    Respond(u16, Seq<char>, Seq<char>),
    Forward(Seq<char>),
}

impl View for Routed {
    type V = RoutedView;

    open spec fn view(&self) -> RoutedView {
        match self {
            Routed::Respond(status, kind, body) => RoutedView::Respond(*status, kind@, body@),
            Routed::Forward(token) => RoutedView::Forward(token@),
        }
    }
}

// --------------------------------------------------------------------- the page

/// `c` as HTML text.
pub open spec fn escaped_char(c: char) -> Seq<char> {
    if c == '&' {
        "&amp;"@
    } else if c == '<' {
        "&lt;"@
    } else if c == '>' {
        "&gt;"@
    } else if c == '"' {
        "&quot;"@
    } else {
        seq![c]
    }
}

/// `s` as HTML text.
pub open spec fn escaped(s: Seq<char>) -> Seq<char>
    decreases s.len(),
{
    if s.len() == 0 {
        seq![]
    } else {
        escaped(s.drop_last()) + escaped_char(s.last())
    }
}

/// Minimal HTML escaping for the page.
pub fn escape(s: &str) -> (r: String)
    ensures
        r@ == escaped(s@),
{
    let v = text::chars_of(s);
    let mut out = String::new();
    let mut i: usize = 0;
    while i < v.len()
        invariant
            i <= v@.len(),
            out@ == escaped(v@.take(i as int)),
        decreases v.len() - i,
    {
        proof {
            assert(v@.take(i + 1).drop_last() =~= v@.take(i as int));
        }
        let c = v[i];
        if c == '&' {
            out.append("&amp;");
        } else if c == '<' {
            out.append("&lt;");
        } else if c == '>' {
            out.append("&gt;");
        } else if c == '"' {
            out.append("&quot;");
        } else {
            out.push(c);
            proof {
                assert(out@ =~= escaped(v@.take(i as int)) + seq![c]);
            }
        }
        i = i + 1;
    }
    proof {
        assert(v@.take(v@.len() as int) =~= v@);
    }
    out
}

/// `s` with every `pat` in it replaced, from the left.
pub open spec fn replaced(s: Seq<char>, pat: Seq<char>, with: Seq<char>) -> Seq<char>
    decreases s.len(),
{
    match text::index_from(s, pat, 0) {
        Some(i) => if pat.len() > 0 && 0 <= i && i + pat.len() <= s.len() {
            s.take(i) + with + replaced(s.skip(i + pat.len()), pat, with)
        } else {
            s
        },
        None => s,
    }
}

/// `str::replace` of a pattern that is not empty.
pub fn replace_all(s: &str, pat: &str, with: &str) -> (r: String)
    requires
        pat@.len() > 0,
    ensures
        r@ == replaced(s@, pat@, with@),
{
    let v = text::chars_of(s);
    let p = text::chars_of(pat);
    let n = v.len();
    let mut out = String::new();
    let mut from: usize = 0;
    proof {
        assert(v@.skip(0) =~= v@);
        assert(out@ + replaced(v@, pat@, with@) =~= replaced(v@, pat@, with@));
    }
    loop
        invariant
            from <= n,
            n == v@.len(),
            v@ == s@,
            p@ == pat@,
            p@.len() > 0,
            out@ + replaced(v@.skip(from as int), pat@, with@) == replaced(s@, pat@, with@),
        decreases n - from,
    {
        let rest = text::part_of(&v, from, n);
        let w = text::chars_of(rest.as_str());
        proof {
            assert(w@ =~= v@.skip(from as int));
            text::index_from_is_first(w@, pat@, 0);
        }
        match text::find_from(&w, &p, 0) {
            Some(i) => {
                let ghost before = out@;
                let head = text::part_of(&w, 0, i);
                out.append(head.as_str());
                out.append(with);
                proof {
                    assert(head@ =~= w@.take(i as int));
                    assert(w@.skip(i + pat@.len()) =~= v@.skip(from + i + pat@.len()));
                    let tail = replaced(v@.skip(from + i + pat@.len()), pat@, with@);
                    assert(before + (w@.take(i as int) + with@ + tail) =~= (before + w@.take(
                        i as int,
                    ) + with@) + tail);
                }
                from = from + i + p.len();
            },
            None => {
                out.append(rest.as_str());
                return out;
            },
        }
    }
}

// --------------------------------------------------------------------- routing

/// The text under a name, where there is one and it is not empty.
pub open spec fn text_under(tree: Tree, name: Seq<char>) -> Option<Seq<char>> {
    match json::member(tree, name) {
        Some(v) => match json::tree_str(v) {
            Some(s) => if s.len() > 0 {
                Some(s)
            } else {
                None
            },
            None => None,
        },
        None => None,
    }
}

/// The captcha token in a posted document.
pub open spec fn captcha_of(tree: Tree) -> Option<Seq<char>> {
    match text_under(tree, "captchaVerifyParam"@) {
        Some(t) => Some(t),
        None => text_under(tree, "raw"@),
    }
}

/// The text under a name, where there is one and it is not empty.
fn find_text(value: &Json, name: &str) -> (r: Option<String>)
    ensures
        text::opt_view(r) == text_under(value@, name@),
{
    match value.get(name) {
        Some(v) => match v.as_text() {
            Some(s) => if text::is_empty(s) {
                None
            } else {
                Some(s.clone())
            },
            None => None,
        },
        None => None,
    }
}

/// The captcha token in a posted document: under `captchaVerifyParam`, else
/// under `raw`.
pub fn captcha_token(value: &Json) -> (r: Option<String>)
    ensures
        text::opt_view(r) == captcha_of(value@),
{
    match find_text(value, "captchaVerifyParam") {
        Some(t) => Some(t),
        None => find_text(value, "raw"),
    }
}

/// What a request is answered with, given the document that its body is read
/// as.
pub open spec fn routed_by(
    req: RequestView,
    mobile: Seq<char>,
    origin: Seq<char>,
    posted: Option<Tree>,
) -> RoutedView {
    if req.method == "GET"@ && (req.path == "/"@ || req.path == "/index.html"@) {
        RoutedView::Respond(200, HTML@, replaced(PAGE@, "{{MOBILE}}"@, escaped(mobile)))
    } else if req.method == "POST"@ && req.path == "/token"@ {
        if req.origin is Some && req.origin->Some_0 != origin {
            RoutedView::Respond(403, PLAIN@, "forbidden origin"@)
        } else {
            match posted {
                Some(tree) => match captcha_of(tree) {
                    Some(t) => RoutedView::Forward(t),
                    None => RoutedView::Respond(400, PLAIN@, "missing captcha"@),
                },
                None => RoutedView::Respond(400, PLAIN@, "missing captcha"@),
            }
        }
    } else {
        RoutedView::Respond(404, PLAIN@, "not found"@)
    }
}

/// What a request is answered with. `origin` is the origin that this server
/// is reachable under; a token posted from anywhere else is refused before
/// its body is looked at.
pub fn route(req: &Request, mobile: &str, origin: &str) -> (r: Routed)
    ensures
        r@ == routed_by(req@, mobile@, origin@, json::json_parse_bytes(req.body@)),
{
    let method = req.method.as_str();
    let path = req.path.as_str();
    if text::same(method, "GET") && (text::same(path, "/") || text::same(path, "/index.html")) {
        proof {
            reveal_strlit("{{MOBILE}}");
        }
        return Routed::Respond(
            200,
            HTML,
            replace_all(PAGE, "{{MOBILE}}", escape(mobile).as_str()),
        );
    }
    if text::same(method, "POST") && text::same(path, "/token") {
        if let Some(actual) = &req.origin {
            if !text::same(actual.as_str(), origin) {
                return Routed::Respond(403, PLAIN, "forbidden origin".to_owned());
            }
        }
        let captcha = match Json::parse_bytes(&req.body) {
            Some(value) => captcha_token(&value),
            None => None,
        };
        match captcha {
            Some(t) => Routed::Forward(t),
            None => Routed::Respond(400, PLAIN, "missing captcha".to_owned()),
        }
    } else {
        Routed::Respond(404, PLAIN, "not found".to_owned())
    }
}

/// The answer to a forwarded token.
pub open spec fn delivery(accepted: bool) -> RoutedView {
    if accepted {
        RoutedView::Respond(200, PLAIN@, "ok"@)
    } else {
        RoutedView::Respond(410, PLAIN@, "already received"@)
    }
}

/// The answer to a forwarded token: whether someone still waited for it.
pub fn delivered(accepted: bool) -> (r: (u16, &'static str, String))
    ensures
        RoutedView::Respond(r.0, r.1@, r.2@) == delivery(accepted),
{
    if accepted {
        (200, PLAIN, "ok".to_owned())
    } else {
        (410, PLAIN, "already received".to_owned())
    }
}

// -------------------------------------------------------------------- responses

/// The reason phrase of a status.
pub open spec fn reason_of(status: u16) -> Seq<char> {
    if status == 200 {
        "OK"@
    } else if status == 400 {
        "Bad Request"@
    } else if status == 403 {
        "Forbidden"@
    } else if status == 404 {
        "Not Found"@
    } else if status == 410 {
        "Gone"@
    } else {
        "Error"@
    }
}

/// A whole response.
pub open spec fn response_text(status: u16, content_type: Seq<char>, body: Seq<char>) -> Seq<char> {
    "HTTP/1.1 "@ + text::dec(status as nat) + " "@ + reason_of(status) + "\r\nContent-Type: "@
        + content_type + "\r\nContent-Length: "@ + text::dec(encode_utf8(body).len())
        + "\r\nConnection: close\r\n\r\n"@ + body
}

/// The reason phrase of a status.
fn reason(status: u16) -> (r: &'static str)
    ensures
        r@ == reason_of(status),
{
    if status == 200 {
        "OK"
    } else if status == 400 {
        "Bad Request"
    } else if status == 403 {
        "Forbidden"
    } else if status == 404 {
        "Not Found"
    } else if status == 410 {
        "Gone"
    } else {
        "Error"
    }
}

/// A whole response: its head and its body.
pub fn respond(status: u16, content_type: &str, body: &str) -> (r: String)
    ensures
        r@ == response_text(status, content_type@, body@),
{
    let mut s = "HTTP/1.1 ".to_owned();
    text::push_dec(&mut s, status as u64);
    s.append(" ");
    s.append(reason(status));
    s.append("\r\nContent-Type: ");
    s.append(content_type);
    s.append("\r\nContent-Length: ");
    text::push_dec(&mut s, body.as_bytes().len() as u64);
    s.append("\r\nConnection: close\r\n\r\n");
    s.append(body);
    s
}

// ------------------------------------------------------------- reading requests

/// Whether the blank line that ends a request head stands in `buf` at `i`.
pub open spec fn ends_head_at(buf: Seq<u8>, i: int) -> bool {
    0 <= i && i + 4 <= buf.len() && buf[i] == 13 && buf[i + 1] == 10 && buf[i + 2] == 13 && buf[i
        + 3] == 10
}

/// The offset just past the first blank line at `from` or later.
pub open spec fn head_end_from(buf: Seq<u8>, from: int) -> Option<int>
    decreases buf.len() - from,
{
    if from < 0 || from + 4 > buf.len() {
        None
    } else if ends_head_at(buf, from) {
        Some(from + 4)
    } else {
        head_end_from(buf, from + 1)
    }
}

/// Offset just past the `\r\n\r\n` terminator, if present.
pub fn find_head_end(buf: &Vec<u8>) -> (r: Option<usize>)
    ensures
        match r {
            Some(end) => head_end_from(buf@, 0) == Some(end as int) && end <= buf@.len(),
            None => head_end_from(buf@, 0) is None,
        },
{
    let n = buf.len();
    let mut i: usize = 0;
    while i < n && n - i >= 4
        invariant
            i <= n,
            n == buf@.len(),
            head_end_from(buf@, 0) == head_end_from(buf@, i as int),
        decreases n - i,
    {
        if buf[i] == 13 && buf[i + 1] == 10 && buf[i + 2] == 13 && buf[i + 3] == 10 {
            return Some(i + 4);
        }
        i = i + 1;
    }
    None
}

/// Bytes as text, with a replacement character for what is no UTF-8.
pub uninterp spec fn lossy_text(bytes: Seq<u8>) -> Seq<char>;

/// `String::from_utf8_lossy`. Claimed: the text depends on the bytes alone,
/// and is what they encode where they are UTF-8.
#[verifier::external_body]
fn text_of_bytes(bytes: &Vec<u8>) -> (r: String)
    ensures
        r@ == lossy_text(bytes@),
        valid_utf8(bytes@) ==> r@ == decode_utf8(bytes@),
{
    String::from_utf8_lossy(bytes).to_string()
}

/// The lines of `s`, which `\r\n` separates.
pub open spec fn lines_of(s: Seq<char>) -> Seq<Seq<char>>
    decreases s.len(),
{
    match text::index_from(s, "\r\n"@, 0) {
        Some(i) => if 0 <= i && i + 2 <= s.len() {
            seq![s.take(i)] + lines_of(s.skip(i + 2))
        } else {
            seq![s]
        },
        None => seq![s],
    }
}

/// The characters of `s` up to the first white space.
pub open spec fn word(s: Seq<char>) -> Seq<char>
    decreases s.len(),
{
    if s.len() == 0 || text::white_space(s[0]) {
        seq![]
    } else {
        seq![s[0]] + word(s.drop_first())
    }
}

/// The first word of `s`.
pub open spec fn first_word(s: Seq<char>) -> Seq<char> {
    word(text::trim_start(s))
}

/// The second word of `s`.
pub open spec fn second_word(s: Seq<char>) -> Seq<char> {
    let t = text::trim_start(s);
    first_word(t.skip(word(t).len() as int))
}

/// The body length that a `Content-Length` value asks for.
pub open spec fn length_of(value: Seq<char>) -> int {
    match text::parse_u64(text::trim(value)) {
        Some(n) => if n > usize::MAX {
            0
        } else if n > MAX_BODY {
            MAX_BODY as int
        } else {
            n as int
        },
        None => 0,
    }
}

/// What header lines say: the body length and the origin; later lines win.
pub open spec fn headers_say(lines: Seq<Seq<char>>) -> (int, Option<Seq<char>>)
    decreases lines.len(),
{
    if lines.len() == 0 {
        (0, None)
    } else {
        let before = headers_say(lines.drop_last());
        match text::split_once(lines.last(), ":"@) {
            Some(field) => if text::same_ignoring_case(field.0, "content-length"@) {
                (length_of(field.1), before.1)
            } else if text::same_ignoring_case(field.0, "origin"@) && text::trim(field.1).len()
                > 0 {
                (before.0, Some(text::trim(field.1)))
            } else {
                before
            },
            None => before,
        }
    }
}

/// A request head.
pub struct Head {
    pub method: String,
    pub path: String,
    pub content_length: usize,
    pub origin: Option<String>,
}

/// What a request head says.
pub struct HeadView {
    pub method: Seq<char>,
    pub path: Seq<char>,
    pub content_length: int,
    pub origin: Option<Seq<char>>,
}

impl View for Head {
    type V = HeadView;

    open spec fn view(&self) -> HeadView {
        HeadView {
            method: self.method@,
            path: self.path@,
            content_length: self.content_length as int,
            origin: text::opt_view(self.origin),
        }
    }
}

/// What a request head says.
pub open spec fn head_of(head: Seq<char>) -> HeadView {
    let lines = lines_of(head);
    let said = headers_say(lines.drop_first());
    HeadView {
        method: first_word(lines[0]),
        path: second_word(lines[0]),
        content_length: said.0,
        origin: said.1,
    }
}

/// A word runs to the first white space.
proof fn word_runs_to(s: Seq<char>, k: int)
    requires
        0 <= k <= s.len(),
        forall|i: int| 0 <= i < k ==> !text::white_space(#[trigger] s[i]),
        k < s.len() ==> text::white_space(s[k]),
    ensures
        word(s) == s.take(k),
    decreases k,
{
    if k > 0 {
        let rest = s.drop_first();
        word_runs_to(rest, k - 1);
        assert(seq![s[0]] + rest.take(k - 1) =~= s.take(k));
    }
}

/// The place just behind the word that starts at `from`.
fn word_end(v: &Vec<char>, from: usize) -> (to: usize)
    requires
        from <= v@.len(),
    ensures
        from <= to <= v@.len(),
        word(v@.skip(from as int)) == v@.subrange(from as int, to as int),
{
    let mut to: usize = from;
    while to < v.len() && !v[to].is_whitespace()
        invariant
            from <= to <= v@.len(),
            forall|j: int| from <= j < to ==> !text::white_space(#[trigger] v@[j]),
        decreases v.len() - to,
    {
        to = to + 1;
    }
    proof {
        word_runs_to(v@.skip(from as int), to - from);
        assert(v@.skip(from as int).take(to - from) =~= v@.subrange(from as int, to as int));
    }
    to
}

/// The first two words of a line.
fn two_words(line: &str) -> (r: (String, String))
    ensures
        r.0@ == first_word(line@),
        r.1@ == second_word(line@),
{
    let v = text::chars_of(line);
    proof {
        assert(v@.skip(0) =~= v@);
    }
    let from = text::skip_white_space(&v, 0);
    let to = word_end(&v, from);
    let first = text::part_of(&v, from, to);
    let from2 = text::skip_white_space(&v, to);
    let to2 = word_end(&v, from2);
    let second = text::part_of(&v, from2, to2);
    proof {
        assert(v@.skip(from as int).skip(to - from) =~= v@.skip(to as int));
    }
    (first, second)
}

/// The lines of `s`, which `\r\n` separates.
fn split_lines(s: &str) -> (r: Vec<String>)
    ensures
        text::lines_view(r@) == lines_of(s@),
        r@.len() > 0,
{
    let v = text::chars_of(s);
    let n = v.len();
    let p = text::chars_of("\r\n");
    let mut out: Vec<String> = Vec::new();
    let mut from: usize = 0;
    proof {
        reveal_strlit("\r\n");
        assert(v@.skip(0) =~= v@);
        assert(text::lines_view(out@) + lines_of(v@) =~= lines_of(v@));
    }
    loop
        invariant
            from <= n,
            n == v@.len(),
            v@ == s@,
            p@ == "\r\n"@,
            p@.len() == 2,
            text::lines_view(out@) + lines_of(v@.skip(from as int)) == lines_of(s@),
        decreases n - from,
    {
        let rest = text::part_of(&v, from, n);
        let w = text::chars_of(rest.as_str());
        proof {
            assert(w@ =~= v@.skip(from as int));
            text::index_from_is_first(w@, p@, 0);
        }
        match text::find_from(&w, &p, 0) {
            Some(i) => {
                let line = text::part_of(&w, 0, i);
                let ghost before = text::lines_view(out@);
                proof {
                    assert(line@ =~= w@.take(i as int));
                    assert(w@.skip(i + 2) =~= v@.skip(from + i + 2));
                    let tail = lines_of(v@.skip(from + i + 2));
                    assert(before + (seq![line@] + tail) =~= before.push(line@) + tail);
                }
                text::add_line(&mut out, line);
                from = from + i + 2;
            },
            None => {
                let ghost before = text::lines_view(out@);
                proof {
                    assert(before + seq![rest@] =~= before.push(rest@));
                }
                text::add_line(&mut out, rest);
                return out;
            },
        }
    }
}

/// What a request head says: method, path, and the headers that matter.
pub fn parse_head(head: &str) -> (r: Head)
    ensures
        r@ == head_of(head@),
        r.content_length <= MAX_BODY,
{
    let lines = split_lines(head);
    let ghost all = text::lines_view(lines@);
    let words = two_words(lines[0].as_str());
    let mut content_length: usize = 0;
    let mut origin: Option<String> = None;
    let mut i: usize = 1;
    proof {
        assert(all.drop_first().take(0).len() == 0);
    }
    while i < lines.len()
        invariant
            1 <= i <= lines@.len(),
            all == text::lines_view(lines@),
            content_length <= MAX_BODY,
            headers_say(all.drop_first().take(i - 1)) == (
                content_length as int,
                text::opt_view(origin),
            ),
        decreases lines.len() - i,
    {
        proof {
            let rest = all.drop_first();
            assert(rest.take(i as int).drop_last() =~= rest.take(i - 1));
            assert(rest.take(i as int).last() == lines@[i as int]@);
        }
        if let Some(field) = text::split_at_first(lines[i].as_str(), ":") {
            if text::equal_ignoring_case(field.0.as_str(), "content-length") {
                let value = text::trimmed(field.1.as_str());
                content_length = match text::to_u64(value.as_str()) {
                    Some(n) => if n > usize::MAX as u64 {
                        0
                    } else if n > MAX_BODY as u64 {
                        MAX_BODY
                    } else {
                        n as usize
                    },
                    None => 0,
                };
            } else if text::equal_ignoring_case(field.0.as_str(), "origin") {
                let value = text::trimmed(field.1.as_str());
                if !text::is_empty(&value) {
                    origin = Some(value);
                }
            }
        }
        i = i + 1;
    }
    proof {
        assert(all.drop_first().take(all.len() - 1) =~= all.drop_first());
    }
    Head { method: words.0, path: words.1, content_length, origin }
}

/// What came of reading from a connection.
pub enum Chunk {
    /// Some bytes.
    Bytes(Vec<u8>),
    /// The peer closed its side.
    Ended,
    /// Nothing came in time.
    Idle,
    /// The peer reset the connection.
    Reset,
    /// Reading failed otherwise.
    Failed,
}

/// How far a request has been read.
pub enum Reading {
    /// The head is not complete yet.
    Head(Vec<u8>),
    /// The head, and what of the body there is so far.
    Body(Head, Vec<u8>),
}

/// How far a request has been read.
pub enum ReadingView {
    Head(Seq<u8>),
    Body(HeadView, Seq<u8>),
}

impl View for Reading {
    type V = ReadingView;

    open spec fn view(&self) -> ReadingView {
        match self {
            Reading::Head(buf) => ReadingView::Head(buf@),
            Reading::Body(head, body) => ReadingView::Body(head@, body@),
        }
    }
}

/// What reading a request comes to.
pub enum Progress {
    /// Read on.
    More(Reading),
    /// The peer hung up without a complete head.
    Nothing,
    /// The request.
    Complete(Request),
    /// The head is too large.
    TooLarge,
    /// Reading failed.
    Broken,
}

/// What reading a request comes to.
pub enum ProgressView {
    More(ReadingView),
    Nothing,
    Complete(RequestView),
    TooLarge,
    Broken,
}

impl View for Progress {
    type V = ProgressView;

    open spec fn view(&self) -> ProgressView {
        match self {
            Progress::More(reading) => ProgressView::More(reading@),
            Progress::Nothing => ProgressView::Nothing,
            Progress::Complete(req) => ProgressView::Complete(req@),
            Progress::TooLarge => ProgressView::TooLarge,
            Progress::Broken => ProgressView::Broken,
        }
    }
}

/// A request with as much of its body as its head asks for.
pub open spec fn request_of(head: HeadView, body: Seq<u8>) -> RequestView {
    RequestView {
        method: head.method,
        path: head.path,
        body: if body.len() > head.content_length {
            body.take(head.content_length)
        } else {
            body
        },
        origin: head.origin,
    }
}

/// What a head and a body so far come to.
pub open spec fn with_body(head: HeadView, body: Seq<u8>) -> ProgressView {
    if body.len() < head.content_length {
        ProgressView::More(ReadingView::Body(head, body))
    } else {
        ProgressView::Complete(request_of(head, body))
    }
}

/// What the bytes that were received come to.
pub open spec fn received(buf: Seq<u8>) -> ProgressView {
    match head_end_from(buf, 0) {
        Some(end) => with_body(head_of(lossy_text(buf.take(end))), buf.skip(end)),
        None => if buf.len() > MAX_HEAD {
            ProgressView::TooLarge
        } else {
            ProgressView::More(ReadingView::Head(buf))
        },
    }
}

/// What comes after one more read.
pub open spec fn read_next(reading: ReadingView, chunk: Chunk) -> ProgressView {
    match (reading, chunk) {
        (ReadingView::Head(buf), Chunk::Bytes(more)) => received(buf + more@),
        (ReadingView::Head(_), Chunk::Failed) => ProgressView::Broken,
        (ReadingView::Head(_), _) => ProgressView::Nothing,
        (ReadingView::Body(head, body), Chunk::Bytes(more)) => with_body(head, body + more@),
        (ReadingView::Body(head, body), Chunk::Ended) => ProgressView::Complete(
            request_of(head, body),
        ),
        (ReadingView::Body(head, body), Chunk::Idle) => ProgressView::Complete(
            request_of(head, body),
        ),
        (ReadingView::Body(_, _), _) => ProgressView::Broken,
    }
}

/// `buf[from..to]`.
fn bytes_between(buf: &Vec<u8>, from: usize, to: usize) -> (r: Vec<u8>)
    requires
        from <= to <= buf@.len(),
    ensures
        r@ == buf@.subrange(from as int, to as int),
{
    let mut r: Vec<u8> = Vec::new();
    let mut i: usize = from;
    while i < to
        invariant
            from <= i <= to <= buf@.len(),
            r@ == buf@.subrange(from as int, i as int),
        decreases to - i,
    {
        r.push(buf[i]);
        i = i + 1;
    }
    r
}

/// A request with as much of its body as its head asks for.
fn finish_request(head: Head, body: Vec<u8>) -> (r: Request)
    ensures
        r@ == request_of(head@, body@),
{
    let mut body = body;
    let ghost all = body@;
    if body.len() > head.content_length {
        body.truncate(head.content_length);
        proof {
            assert(body@ =~= all.take(head.content_length as int));
        }
    }
    Request { method: head.method, path: head.path, body, origin: head.origin }
}

/// What a head and a body so far come to.
fn settle_body(head: Head, body: Vec<u8>) -> (r: Progress)
    ensures
        r@ == with_body(head@, body@),
{
    if body.len() < head.content_length {
        Progress::More(Reading::Body(head, body))
    } else {
        Progress::Complete(finish_request(head, body))
    }
}

impl Reading {
    /// Nothing was read yet.
    pub fn start() -> (r: Reading)
        ensures
            r@ == ReadingView::Head(seq![]),
    {
        let buf: Vec<u8> = Vec::new();
        proof {
            assert(buf@ =~= seq![]);
        }
        Reading::Head(buf)
    }

    /// What comes after one more read: the request as soon as it is there.
    /// The peer may end a body early; a head that it never completes is no
    /// request.
    pub fn read_request(self, chunk: Chunk) -> (r: Progress)
        ensures
            r@ == read_next(self@, chunk),
    {
        match self {
            Reading::Head(buf) => match chunk {
                Chunk::Bytes(more) => {
                    let mut buf = buf;
                    let mut more = more;
                    let ghost joined = buf@ + more@;
                    buf.append(&mut more);
                    proof {
                        assert(buf@ =~= joined);
                    }
                    match find_head_end(&buf) {
                        Some(end) => {
                            let raw = bytes_between(&buf, 0, end);
                            let body = bytes_between(&buf, end, buf.len());
                            proof {
                                assert(raw@ =~= joined.take(end as int));
                                assert(body@ =~= joined.skip(end as int));
                            }
                            let head = parse_head(text_of_bytes(&raw).as_str());
                            settle_body(head, body)
                        },
                        None => if buf.len() > MAX_HEAD {
                            Progress::TooLarge
                        } else {
                            Progress::More(Reading::Head(buf))
                        },
                    }
                },
                Chunk::Failed => Progress::Broken,
                _ => Progress::Nothing,
            },
            Reading::Body(head, body) => match chunk {
                Chunk::Bytes(more) => {
                    let mut body = body;
                    let mut more = more;
                    let ghost joined = body@ + more@;
                    body.append(&mut more);
                    proof {
                        assert(body@ =~= joined);
                    }
                    settle_body(head, body)
                },
                Chunk::Ended => Progress::Complete(finish_request(head, body)),
                Chunk::Idle => Progress::Complete(finish_request(head, body)),
                _ => Progress::Broken,
            },
        }
    }
}

// ---------------------------------------------------------------------- laws

/// A token that is posted from another origin is refused, whatever it is, and
/// never handed on.
pub proof fn foreign_origins_are_refused(
    req: RequestView,
    mobile: Seq<char>,
    origin: Seq<char>,
    posted: Option<Tree>,
)
    requires
        req.origin is Some,
        req.origin->Some_0 != origin,
    ensures
        !(routed_by(req, mobile, origin, posted) is Forward),
        req.method == "POST"@ && req.path == "/token"@ ==> routed_by(req, mobile, origin, posted)
            == RoutedView::Respond(403, PLAIN@, "forbidden origin"@),
{
    reveal_strlit("GET");
    reveal_strlit("POST");
    assert("GET"@[0] != "POST"@[0]);
}

/// Only a post to `/token` can hand a token on, and what it hands on is not
/// empty.
pub proof fn only_token_posts_deliver(
    req: RequestView,
    mobile: Seq<char>,
    origin: Seq<char>,
    posted: Option<Tree>,
)
    requires
        routed_by(req, mobile, origin, posted) is Forward,
    ensures
        req.method == "POST"@,
        req.path == "/token"@,
        routed_by(req, mobile, origin, posted)->Forward_0.len() > 0,
{
}

/// Escaped text holds no character that markup is made of.
pub proof fn escaped_text_has_no_markup(s: Seq<char>)
    ensures
        forall|i: int|
            0 <= i < escaped(s).len() ==> #[trigger] escaped(s)[i] != '<' && escaped(s)[i] != '>'
                && escaped(s)[i] != '"',
    decreases s.len(),
{
    if s.len() > 0 {
        let init = escaped(s.drop_last());
        let last = escaped_char(s.last());
        escaped_text_has_no_markup(s.drop_last());
        reveal_strlit("&amp;");
        reveal_strlit("&lt;");
        reveal_strlit("&gt;");
        reveal_strlit("&quot;");
        assert forall|i: int| 0 <= i < escaped(s).len() implies #[trigger] escaped(s)[i] != '<'
            && escaped(s)[i] != '>' && escaped(s)[i] != '"' by {
            if i < init.len() {
                assert(escaped(s)[i] == init[i]);
            } else {
                assert(escaped(s)[i] == last[i - init.len()]);
            }
        }
    }
}

/// The end of a head does not move when more bytes come in behind it.
proof fn head_end_is_final(a: Seq<u8>, b: Seq<u8>, from: int)
    requires
        0 <= from,
        head_end_from(a, from) is Some,
    ensures
        head_end_from(a + b, from) == head_end_from(a, from),
        from + 4 <= head_end_from(a, from)->Some_0 <= a.len(),
    decreases a.len() - from,
{
    assert(ends_head_at(a, from) == ends_head_at(a + b, from));
    if !ends_head_at(a, from) {
        head_end_is_final(a, b, from + 1);
    }
}

/// How a request is cut into chunks makes no difference: while there is more
/// to read, reading `b` after `a` comes to what reading both at once would.
pub proof fn chunks_do_not_matter(a: Seq<u8>, b: Vec<u8>)
    requires
        received(a) is More,
    ensures
        read_next(received(a)->More_0, Chunk::Bytes(b)) == received(a + b@),
{
    match head_end_from(a, 0) {
        Some(end) => {
            head_end_is_final(a, b@, 0);
            assert((a + b@).take(end) =~= a.take(end));
            assert((a + b@).skip(end) =~= a.skip(end) + b@);
        },
        None => {},
    }
}

/// A request never carries more of a body than its head asks for, and never
/// more than [`MAX_BODY`] bytes.
pub proof fn bodies_are_capped(head: HeadView, body: Seq<u8>)
    requires
        0 <= head.content_length <= MAX_BODY,
    ensures
        request_of(head, body).body.len() <= head.content_length,
        request_of(head, body).body.len() <= MAX_BODY,
{
}

/// A token that is posted to `/token` from this server's own origin, or
/// without one, is handed on as it was posted.
pub proof fn posted_tokens_are_handed_on(
    req: RequestView,
    mobile: Seq<char>,
    origin: Seq<char>,
    tree: Tree,
    token: Seq<char>,
)
    requires
        req.method == "POST"@,
        req.path == "/token"@,
        req.origin matches Some(from) ==> from == origin,
        captcha_of(tree) == Some(token),
    ensures
        routed_by(req, mobile, origin, Some(tree)) == RoutedView::Forward(token),
{
    reveal_strlit("GET");
    reveal_strlit("POST");
    assert("GET"@.len() == 3 && "POST"@.len() == 4);
}

/// The token of a posted document stands under `captchaVerifyParam`, else
/// under `raw`; an empty one counts as none.
pub proof fn tokens_stand_under_their_name(tree: Tree, token: Seq<char>)
    requires
        token.len() > 0,
    ensures
        json::member(tree, "captchaVerifyParam"@) == Some(Tree::Str(token)) ==> captcha_of(tree)
            == Some(token),
        (json::member(tree, "captchaVerifyParam"@) is None || json::member(
            tree,
            "captchaVerifyParam"@,
        ) == Some(Tree::Str(Seq::empty()))) && json::member(tree, "raw"@) == Some(Tree::Str(token))
            ==> captcha_of(tree) == Some(token),
        captcha_of(tree) matches Some(t) ==> t.len() > 0,
{
}

/// Everything but the page and the token post is answered with what is wrong:
/// a post without a token with 400, and anything else with 404.
pub proof fn other_requests_are_refused(
    req: RequestView,
    mobile: Seq<char>,
    origin: Seq<char>,
    posted: Option<Tree>,
)
    ensures
        req.method == "POST"@ && req.path == "/token"@ && req.origin is None && (
        posted matches Some(tree) ==> captcha_of(tree) is None) ==> (routed_by(
            req,
            mobile,
            origin,
            posted,
        ) matches RoutedView::Respond(status, kind, body) && status == 400 && kind == PLAIN@ && body
            == "missing captcha"@),
        req.method != "GET"@ && req.method != "POST"@ ==> (routed_by(
            req,
            mobile,
            origin,
            posted,
        ) matches RoutedView::Respond(status, kind, body) && status == 404),
        req.path != "/"@ && req.path != "/index.html"@ && req.path != "/token"@ ==> (routed_by(
            req,
            mobile,
            origin,
            posted,
        ) matches RoutedView::Respond(status, kind, body) && status == 404 && body == "not found"@),
{
    reveal_strlit("GET");
    reveal_strlit("POST");
    assert("GET"@.len() == 3 && "POST"@.len() == 4);
}

/// The page is served at both of its addresses, as HTML, and alike; it shows
/// the number with its markup escaped.
pub proof fn the_page_is_served(
    req: RequestView,
    other: RequestView,
    mobile: Seq<char>,
    origin: Seq<char>,
    posted: Option<Tree>,
)
    requires
        req.method == "GET"@,
        req.path == "/"@,
        other.method == "GET"@,
        other.path == "/index.html"@,
    ensures
        routed_by(req, mobile, origin, posted) matches RoutedView::Respond(status, kind, body)
            && status == 200 && kind == HTML@ && body == replaced(
            PAGE@,
            "{{MOBILE}}"@,
            escaped(mobile),
        ),
        routed_by(other, mobile, origin, None) == routed_by(req, mobile, origin, posted),
{
}

/// Text without a character of markup is shown as it is, and each character of
/// markup as its own name.
pub proof fn plain_text_is_not_escaped(s: Seq<char>, c: char)
    ensures
        escaped(s.push(c)) == escaped(s) + escaped_char(c),
        c != '&' && c != '<' && c != '>' && c != '"' ==> escaped(s.push(c)) == escaped(s).push(c),
        escaped_char('&') == "&amp;"@,
        escaped_char('<') == "&lt;"@,
        escaped_char('>') == "&gt;"@,
        escaped_char('"') == "&quot;"@,
{
    assert(s.push(c).drop_last() =~= s);
    if c != '&' && c != '<' && c != '>' && c != '"' {
        assert(escaped(s.push(c)) =~= escaped(s).push(c));
    }
}

/// A response says its status and the reason for it, the type and the length
/// of its body, and then is its body.
#[verifier::rlimit(40)]
pub proof fn responses_end_with_their_body(status: u16, content_type: Seq<char>, body: Seq<char>)
    ensures
        response_text(status, content_type, body).skip(
            response_text(status, content_type, body).len() - body.len(),
        ) == body,
        text::contains(
            response_text(status, content_type, body),
            "\r\nContent-Type: "@ + content_type + "\r\nContent-Length: "@ + text::dec(
                encode_utf8(body).len(),
            ) + "\r\n"@,
        ),
        response_text(200, content_type, body) == "HTTP/1.1 200 OK\r\nContent-Type: "@
            + content_type + "\r\nContent-Length: "@ + text::dec(encode_utf8(body).len())
            + "\r\nConnection: close\r\n\r\n"@ + body,
{
    let r = response_text(status, content_type, body);
    assert(r.skip(r.len() - body.len()) =~= body);
    reveal_strlit("\r\n");
    reveal_strlit("\r\nConnection: close\r\n\r\n");
    let start = "HTTP/1.1 "@ + text::dec(status as nat) + " "@ + reason_of(status);
    let part = "\r\nContent-Type: "@ + content_type + "\r\nContent-Length: "@ + text::dec(
        encode_utf8(body).len(),
    );
    let pat = part + "\r\n"@;
    let at = start.len() as int;
    assert(r =~= start + part + "\r\nConnection: close\r\n\r\n"@ + body);
    assert(r.subrange(at, at + pat.len()) =~= pat);
    assert(text::occurs_at(r, pat, at));
    reveal_with_fuel(text::dec, 4);
    reveal_strlit("HTTP/1.1 ");
    reveal_strlit(" ");
    reveal_strlit("OK");
    reveal_strlit("\r\nContent-Type: ");
    reveal_strlit("HTTP/1.1 200 OK\r\nContent-Type: ");
    assert(text::dec(200) =~= seq!['2', '0', '0']);
    assert("HTTP/1.1 200 OK\r\nContent-Type: "@ =~= "HTTP/1.1 "@ + text::dec(200) + " "@ + "OK"@
        + "\r\nContent-Type: "@);
    assert(response_text(200, content_type, body) =~= "HTTP/1.1 200 OK\r\nContent-Type: "@
        + content_type + "\r\nContent-Length: "@ + text::dec(encode_utf8(body).len())
        + "\r\nConnection: close\r\n\r\n"@ + body);
}

/// The first line of a request is its method, its path and its version, with a
/// space between them.
pub proof fn request_lines_are_split(method: Seq<char>, path: Seq<char>, version: Seq<char>)
    requires
        method.len() > 0,
        path.len() > 0,
        forall|i: int| 0 <= i < method.len() ==> !text::white_space(#[trigger] method[i]),
        forall|i: int| 0 <= i < path.len() ==> !text::white_space(#[trigger] path[i]),
    ensures
        first_word(method + seq![' '] + path + seq![' '] + version) == method,
        second_word(method + seq![' '] + path + seq![' '] + version) == path,
{
    let line = method + seq![' '] + path + seq![' '] + version;
    let n = method.len() as int;
    assert(line[0] == method[0]);
    assert(text::trim_start(line) == line);
    assert forall|i: int| 0 <= i < n implies !text::white_space(#[trigger] line[i]) by {
        assert(line[i] == method[i]);
    }
    assert(line[n] == ' ');
    word_runs_to(line, n);
    assert(line.take(n) =~= method);
    let rest = line.skip(n);
    let tail = path + seq![' '] + version;
    assert(rest =~= seq![' '] + tail);
    assert(rest.drop_first() =~= tail);
    assert(tail[0] == path[0]);
    assert(text::trim_start(rest) == text::trim_start(tail));
    assert(text::trim_start(tail) == tail);
    let k = path.len() as int;
    assert forall|i: int| 0 <= i < k implies !text::white_space(#[trigger] tail[i]) by {
        assert(tail[i] == path[i]);
    }
    assert(tail[k] == ' ');
    word_runs_to(tail, k);
    assert(tail.take(k) =~= path);
}

/// A header is told by its name, in any case: a `Content-Length` line sets the
/// length of the body and an `Origin` line the origin, each leaves the other,
/// and the later of two wins.
pub proof fn headers_are_told_by_name(lines: Seq<Seq<char>>, name: Seq<char>, value: Seq<char>)
    requires
        forall|i: int| 0 <= i < name.len() ==> name[i] != ':',
    ensures
        text::same_ignoring_case(name, "content-length"@) ==> headers_say(
            lines.push(name + ":"@ + value),
        ) == (length_of(value), headers_say(lines).1),
        text::same_ignoring_case(name, "origin"@) && text::trim(value).len() > 0 ==> headers_say(
            lines.push(name + ":"@ + value),
        ) == (headers_say(lines).0, Some(text::trim(value))),
        !text::same_ignoring_case(name, "content-length"@) && !text::same_ignoring_case(
            name,
            "origin"@,
        ) ==> headers_say(lines.push(name + ":"@ + value)) == headers_say(lines),
{
    reveal_strlit(":");
    assert(":"@ =~= seq![':']);
    text::splits_at_the_separator(name, ':', value);
    let line = name + ":"@ + value;
    assert(lines.push(line).drop_last() =~= lines);
    reveal_strlit("content-length");
    reveal_strlit("origin");
    if text::same_ignoring_case(name, "origin"@) {
        assert(text::ascii_lower(name).len() == 6);
        assert(text::ascii_lower("content-length"@).len() == 14);
    }
}

/// The length of a body is the number that the header writes, up to the most
/// that is read; what is no number asks for none.
pub proof fn lengths_are_capped(value: Seq<char>)
    ensures
        text::parse_u64(text::trim(value)) matches Some(n) ==> n <= MAX_BODY ==> length_of(value)
            == n,
        text::parse_u64(text::trim(value)) matches Some(n) ==> MAX_BODY < n <= usize::MAX
            ==> length_of(value) == MAX_BODY,
        text::parse_u64(text::trim(value)) is None ==> length_of(value) == 0,
        0 <= length_of(value) <= MAX_BODY,
{
}

/// A request keeps what its head says, and the body from its start on: all of
/// it where it is no longer than the head asks for.
pub proof fn requests_keep_their_head(head: HeadView, body: Seq<u8>)
    requires
        0 <= head.content_length,
    ensures
        request_of(head, body).method == head.method,
        request_of(head, body).path == head.path,
        request_of(head, body).origin == head.origin,
        request_of(head, body).body.is_prefix_of(body),
        body.len() <= head.content_length ==> request_of(head, body).body == body,
        body.len() > head.content_length ==> request_of(head, body).body.len()
            == head.content_length,
{
}

/// A request is complete as soon as its whole body is there, and not before,
/// unless the peer ends or stops sending.
pub proof fn requests_wait_for_their_body(head: HeadView, body: Seq<u8>)
    ensures
        with_body(head, body) is More <==> body.len() < head.content_length,
        with_body(head, body) is More ==> with_body(head, body) == ProgressView::More(
            ReadingView::Body(head, body),
        ),
        with_body(head, body) is Complete ==> with_body(head, body) == ProgressView::Complete(
            request_of(head, body),
        ),
        read_next(ReadingView::Body(head, body), Chunk::Ended) == ProgressView::Complete(
            request_of(head, body),
        ),
        read_next(ReadingView::Body(head, body), Chunk::Idle) == ProgressView::Complete(
            request_of(head, body),
        ),
        read_next(ReadingView::Body(head, body), Chunk::Failed) == ProgressView::Broken,
{
}

/// A head that never ends is refused once it is too large, and a peer that
/// hangs up before its head ends asked for nothing.
pub proof fn endless_heads_are_refused(buf: Seq<u8>)
    requires
        head_end_from(buf, 0) is None,
    ensures
        received(buf) is TooLarge <==> buf.len() > MAX_HEAD,
        buf.len() <= MAX_HEAD ==> received(buf) == ProgressView::More(ReadingView::Head(buf)),
        read_next(ReadingView::Head(buf), Chunk::Ended) == ProgressView::Nothing,
        read_next(ReadingView::Head(buf), Chunk::Idle) == ProgressView::Nothing,
        read_next(ReadingView::Head(buf), Chunk::Failed) == ProgressView::Broken,
{
}

/// Replacing leaves a text without the pattern as it is, and puts the new text
/// where the pattern stands.
pub proof fn patterns_are_replaced_where_they_stand(
    before: Seq<char>,
    pat: Seq<char>,
    after: Seq<char>,
    with: Seq<char>,
)
    requires
        pat.len() > 0,
        text::index_from(before + pat + after, pat, 0) == Some(before.len() as int),
    ensures
        replaced(before + pat + after, pat, with) == before + with + replaced(after, pat, with),
        text::index_from(after, pat, 0) is None ==> replaced(before + pat + after, pat, with)
            == before + with + after,
{
    let s = before + pat + after;
    assert(s.take(before.len() as int) =~= before);
    assert(s.skip(before.len() as int + pat.len()) =~= after);
}

/// A forwarded token is answered with success exactly where someone still
/// waited for it.
pub proof fn late_tokens_are_gone(accepted: bool)
    ensures
        delivery(accepted) matches RoutedView::Respond(status, kind, body) && (status == 200
            <==> accepted) && (status == 410 <==> !accepted) && kind == PLAIN@,
        delivery(true) == RoutedView::Respond(200, PLAIN@, "ok"@),
        delivery(false) == RoutedView::Respond(410, PLAIN@, "already received"@),
{
}

/// Every status that is answered with has its own reason.
pub proof fn statuses_have_their_reason()
    ensures
        reason_of(200) == "OK"@,
        reason_of(400) == "Bad Request"@,
        reason_of(403) == "Forbidden"@,
        reason_of(404) == "Not Found"@,
        reason_of(410) == "Gone"@,
{
}

/// A head ends just behind its first blank line.
pub proof fn heads_end_at_the_blank_line(buf: Seq<u8>, from: int)
    requires
        0 <= from,
    ensures
        match head_end_from(buf, from) {
            Some(end) => from + 4 <= end <= buf.len() && buf.subrange(end - 4, end) == seq![
                13u8,
                10u8,
                13u8,
                10u8,
            ] && forall|i: int| from <= i < end - 4 ==> !#[trigger] ends_head_at(buf, i),
            None => forall|i: int| from <= i ==> !#[trigger] ends_head_at(buf, i),
        },
    decreases buf.len() - from,
{
    if from + 4 <= buf.len() {
        if ends_head_at(buf, from) {
            assert(buf.subrange(from, from + 4) =~= seq![13u8, 10u8, 13u8, 10u8]);
        } else {
            heads_end_at_the_blank_line(buf, from + 1);
        }
    }
}

/// A head is cut into lines at each line end, and its first line is the
/// request: what stands before the first line end is the method and the path,
/// and the lines behind it are the headers.
pub proof fn heads_are_cut_into_lines(line: Seq<char>, rest: Seq<char>)
    requires
        text::index_from(line + "\r\n"@ + rest, "\r\n"@, 0) == Some(line.len() as int),
    ensures
        lines_of(line + "\r\n"@ + rest) == seq![line] + lines_of(rest),
        head_of(line + "\r\n"@ + rest).method == first_word(line),
        head_of(line + "\r\n"@ + rest).path == second_word(line),
        head_of(line + "\r\n"@ + rest).content_length == headers_say(lines_of(rest)).0,
        head_of(line + "\r\n"@ + rest).origin == headers_say(lines_of(rest)).1,
{
    reveal_strlit("\r\n");
    let head = line + "\r\n"@ + rest;
    assert(head.take(line.len() as int) =~= line);
    assert(head.skip(line.len() as int + 2) =~= rest);
    assert(lines_of(head).drop_first() =~= lines_of(rest));
}

/// Without header lines there is no body and no origin.
pub proof fn bare_heads_ask_for_nothing()
    ensures
        headers_say(Seq::empty()) == (0int, None::<Seq<char>>),
{
}

} // verus!
