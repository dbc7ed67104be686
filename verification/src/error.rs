//! Errors of the protocol layer, and the recognition of an expired token.

use crate::text;
use serde_json::Error as JsonError;
use vstd::prelude::*;
use vstd::string::*;

verus! {

/// `serde_json::Error`: why a body is no JSON; carried along, never read.
#[verifier::external_type_specification]
#[verifier::external_body]
pub struct ExJsonError(JsonError);

/// User-Agent accepted by the api-std endpoints (they reject unknown formats).
pub const USER_AGENT: &'static str = "SLCC/15.5.8.83635 (Android)";

/// Errors returned by the protocol layer.
#[derive(Debug)]
pub enum Error {
    /// The transport failed (connect, timeout, TLS...); what it reported.
    Http(String),
    /// The endpoint returned a non-success HTTP status.
    HttpStatus { what: &'static str, status: u16, body: String },
    /// The endpoint returned a success status but an unparseable body.
    BadBody { body: String, source: JsonError },
    /// The endpoint rejected the request (business `result != 0`).
    Api(String),
    /// The server rejected the request because the access token has expired.
    TokenExpired(String),
}

/// Result of an operation of the protocol layer.
pub type Result<T> = std::result::Result<T, Error>;

// ------------------------------------------------- expired-token recognition

/// Whether `rest` begins with the number 1010, standing alone.
pub open spec fn is_1010(rest: Seq<char>) -> bool {
    &&& rest.len() >= 4
    &&& rest.take(4) == "1010"@
    &&& rest.len() == 4 || !text::alphanumeric(rest[4])
}

/// Whether `marker` stands in `s` at `pos`, not as the tail of a longer word,
/// and the number 1010 follows it after optional white space.
pub open spec fn marks_1010_at(s: Seq<char>, marker: Seq<char>, pos: int) -> bool {
    &&& text::occurs_at(s, marker, pos)
    &&& pos == 0 || !text::alphanumeric(s[pos - 1])
    &&& is_1010(text::trim_start(s.skip(pos + marker.len())))
}

/// Whether `marker` introduces the number 1010 anywhere in `s`.
pub open spec fn marks_1010(s: Seq<char>, marker: Seq<char>) -> bool {
    exists|pos: int| marks_1010_at(s, marker, pos)
}

/// The shapes in which a message, in lower case, reports an expired token.
pub open spec fn reports_expiry(lower: Seq<char>) -> bool {
    ||| text::contains(lower, "token_expired"@)
    ||| text::contains(lower, "<code>1010</code>"@)
    ||| marks_1010(lower, "code="@)
    ||| marks_1010(lower, "code\":"@)
    ||| marks_1010(lower, "oray api error "@)
}

/// Whether a server message reports an expired token, in any case.
pub open spec fn token_expired(desc: Seq<char>) -> bool {
    reports_expiry(text::lowercase(desc))
}

/// True when `lower` contains `marker` on a proper left boundary (start of
/// the message, or after a character that is not alphanumeric) and then
/// optional white space, the exact digits `1010` and a right boundary.
pub fn marker_is_1010(lower: &Vec<char>, marker: &str) -> (r: bool)
    ensures
        r == marks_1010(lower@, marker@),
{
    let m = text::chars_of(marker);
    let digits = text::chars_of("1010");
    let n = lower.len();
    let mut from: usize = 0;
    loop
        invariant
            from <= n,
            n == lower@.len(),
            m@ == marker@,
            digits@ == "1010"@,
            forall|p: int| 0 <= p < from ==> !marks_1010_at(lower@, marker@, p),
        decreases n + 1 - from,
    {
        proof {
            text::index_from_is_first(lower@, marker@, from as int);
        }
        match text::find_from(lower, &m, from) {
            None => {
                return false;
            },
            Some(pos) => {
                let left_ok = pos == 0 || !lower[pos - 1].is_alphanumeric();
                let rest = text::skip_white_space(lower, pos + m.len());
                proof {
                    reveal_strlit("1010");
                    let tail = text::trim_start(lower@.skip(pos + marker@.len()));
                    assert(tail == lower@.skip(rest as int));
                    if tail.len() >= 4 {
                        assert(tail.take(4) =~= lower@.subrange(rest as int, rest + 4));
                    }
                }
                if left_ok && text::stands_at(lower, &digits, rest) && (n - rest == 4
                    || !lower[rest + 4].is_alphanumeric()) {
                    proof {
                        assert(marks_1010_at(lower@, marker@, pos as int));
                    }
                    return true;
                }
                proof {
                    assert(!marks_1010_at(lower@, marker@, pos as int));
                }
                if pos == n {
                    proof {
                        assert(forall|p: int|
                            p > n ==> !#[trigger] marks_1010_at(lower@, marker@, p));
                    }
                    return false;
                }
                from = pos + 1;
            },
        }
    }
}

/// Whether `desc` is one of the exact token-expired shapes that
/// [`Error::from_message`] lists.
pub fn is_token_expired_message(desc: &str) -> (r: bool)
    ensures
        r == token_expired(desc@),
{
    let lowered = desc.to_lowercase();
    let lower = text::chars_of(lowered.as_str());
    text::has(&lower, "token_expired") || text::has(&lower, "<code>1010</code>") || marker_is_1010(
        &lower,
        "code=",
    ) || marker_is_1010(&lower, "code\":") || marker_is_1010(&lower, "oray api error ")
}

// ------------------------------------------------------- XML error documents

/// Whether `c` may stand before the document: white space, or the byte-order
/// mark.
pub open spec fn leads_document(c: char) -> bool {
    text::white_space(c) || c == '\u{feff}'
}

/// `s` from its first character on that belongs to the document.
pub open spec fn document_of(s: Seq<char>) -> Seq<char>
    decreases s.len(),
{
    if s.len() > 0 && leads_document(s[0]) {
        document_of(s.drop_first())
    } else {
        s
    }
}

/// Whether `doc` starts as an XML prolog or as a `response` element, in any
/// case.
pub open spec fn is_error_document(doc: Seq<char>) -> bool {
    ||| doc.len() >= 5 && text::same_ignoring_case(doc.take(5), "<?xml"@)
    ||| doc.len() >= 9 && text::same_ignoring_case(doc.take(9), "<response"@)
}

/// The trimmed text between the first `open` and the first `close` after it.
pub open spec fn element(doc: Seq<char>, open: Seq<char>, close: Seq<char>) -> Option<Seq<char>> {
    match text::split_once(doc, open) {
        Some(at_open) => match text::split_once(at_open.1, close) {
            Some(at_close) => Some(text::trim(at_close.0)),
            None => None,
        },
        None => None,
    }
}

/// How a code and a message of an error document are shown.
pub open spec fn xml_report(code: Option<Seq<char>>, message: Option<Seq<char>>) -> Seq<char> {
    match (code, message) {
        (Some(code), Some(message)) => "Oray API error "@ + code + ": "@ + message,
        (Some(code), None) => "Oray API error "@ + code,
        (None, Some(message)) => "Oray API error: "@ + message,
        (None, None) => "Oray API error (unparseable XML response)"@,
    }
}

/// The code of an error document.
pub open spec fn xml_code(body: Seq<char>) -> Option<Seq<char>> {
    element(document_of(body), "<code>"@, "</code>"@)
}

/// The message of an error document.
pub open spec fn xml_message(body: Seq<char>) -> Option<Seq<char>> {
    element(document_of(body), "<message>"@, "</message>"@)
}

/// The report of an error document; `None` when `body` is no such document.
pub open spec fn xml_error(body: Seq<char>) -> Option<Seq<char>> {
    if is_error_document(document_of(body)) {
        Some(xml_report(xml_code(body), xml_message(body)))
    } else {
        None
    }
}

/// The trimmed text between the first `open` and the first `close` after it.
fn element_text(doc: &str, open: &str, close: &str) -> (r: Option<String>)
    ensures
        text::opt_view(r) == element(doc@, open@, close@),
{
    match text::split_at_first(doc, open) {
        Some(at_open) => match text::split_at_first(at_open.1.as_str(), close) {
            Some(at_close) => Some(text::trimmed(at_close.0.as_str())),
            None => None,
        },
        None => None,
    }
}

/// Render an Oray XML error document as `"Oray API error <code>: <message>"`.
/// Returns `None` when `body` is not such a document.
///
/// A flat text scan, not an XML parser: only plain `<code>` and `<message>`
/// elements without attributes are recognized, the prolog or the root element
/// (in any case) is what tells a document apart, and leading white space or a byte-order
/// mark is passed over.
pub fn oray_xml_error(body: &str) -> (r: Option<String>)
    ensures
        text::opt_view(r) == xml_error(body@),
{
    let v = text::chars_of(body);
    let n = v.len();
    let mut from: usize = 0;
    proof {
        assert(v@.skip(0) =~= v@);
    }
    while from < n && (v[from].is_whitespace() || v[from] == '\u{feff}')
        invariant
            from <= n,
            n == v@.len(),
            document_of(v@.skip(from as int)) == document_of(v@),
        decreases n - from,
    {
        proof {
            assert(v@.skip(from as int).drop_first() =~= v@.skip(from + 1));
        }
        from = from + 1;
    }
    let doc = text::part_of(&v, from, n);
    proof {
        assert(doc@ =~= v@.skip(from as int));
        assert(doc@ == document_of(body@));
    }
    let mut prolog = false;
    if n - from >= 5 {
        let head = text::part_of(&v, from, from + 5);
        proof {
            assert(head@ =~= doc@.take(5));
        }
        prolog = text::equal_ignoring_case(head.as_str(), "<?xml");
    }
    let mut root = false;
    if n - from >= 9 {
        let head = text::part_of(&v, from, from + 9);
        proof {
            assert(head@ =~= doc@.take(9));
        }
        root = text::equal_ignoring_case(head.as_str(), "<response");
    }
    if !prolog && !root {
        return None;
    }
    let code = element_text(doc.as_str(), "<code>", "</code>");
    let message = element_text(doc.as_str(), "<message>", "</message>");
    let report = match (code, message) {
        (Some(code), Some(message)) => {
            let mut s = "Oray API error ".to_owned();
            s.append(code.as_str());
            s.append(": ");
            s.append(message.as_str());
            s
        },
        (Some(code), None) => {
            let mut s = "Oray API error ".to_owned();
            s.append(code.as_str());
            s
        },
        (None, Some(message)) => {
            let mut s = "Oray API error: ".to_owned();
            s.append(message.as_str());
            s
        },
        (None, None) => "Oray API error (unparseable XML response)".to_owned(),
    };
    Some(report)
}

// -------------------------------------------------------------------- errors

/// Whether `e` wraps the server-side message `desc`.
pub open spec fn is_message(e: Error, desc: Seq<char>) -> bool {
    if token_expired(desc) {
        e matches Error::TokenExpired(m) && m@ == desc
    } else {
        e matches Error::Api(m) && m@ == desc
    }
}

/// Whether `e` reports a body that could not be parsed.
pub open spec fn is_bad_body(e: Error, body: String, source: JsonError) -> bool {
    match xml_error(body@) {
        Some(desc) => is_message(e, desc),
        None => e == (Error::BadBody { body, source }),
    }
}

/// Whether `r` is what a body and its parsing come to.
pub open spec fn is_checked_body<T>(
    r: Result<T>,
    body: String,
    parsed: std::result::Result<T, JsonError>,
) -> bool {
    match parsed {
        Ok(value) => r == Ok::<T, Error>(value),
        Err(source) => r matches Err(e) && is_bad_body(e, body, source),
    }
}

/// What a body and its parsing come to: the value, or an error that tells an
/// error document of the server from a body that makes no sense.
pub fn checked_body<T>(body: String, parsed: std::result::Result<T, JsonError>) -> (r: Result<T>)
    ensures
        is_checked_body(r, body, parsed),
{
    match parsed {
        Ok(value) => Ok(value),
        Err(source) => Err(Error::bad_body(body, source)),
    }
}

impl Error {
    /// How the error is shown to a person.
    pub open spec fn text(&self) -> Seq<char> {
        match self {
            Error::Http(message) => "network error: "@ + message@,
            Error::HttpStatus { what, status, body } => what@ + " failed (HTTP "@ + text::dec(
                *status as nat,
            ) + "): "@ + body@,
            Error::BadBody { body, source } => "unexpected response body: "@ + body@,
            Error::Api(message) => message@,
            Error::TokenExpired(message) => "access token expired: "@ + message@,
        }
    }

    /// How the error is shown to a person.
    pub fn message(&self) -> (r: String)
        ensures
            r@ == self.text(),
    {
        match self {
            Error::Http(message) => {
                let mut s = "network error: ".to_owned();
                s.append(message.as_str());
                s
            },
            Error::HttpStatus { what, status, body } => {
                let mut s = (*what).to_owned();
                s.append(" failed (HTTP ");
                text::push_dec(&mut s, *status as u64);
                s.append("): ");
                s.append(body.as_str());
                s
            },
            Error::BadBody { body, source: _ } => {
                let mut s = "unexpected response body: ".to_owned();
                s.append(body.as_str());
                s
            },
            Error::Api(message) => message.clone(),
            Error::TokenExpired(message) => {
                let mut s = "access token expired: ".to_owned();
                s.append(message.as_str());
                s
            },
        }
    }

    /// Wrap a server-side message, recognizing Oray's token-expired responses
    /// as [`Error::TokenExpired`] and classifying everything else as
    /// [`Error::Api`].
    ///
    /// Recognition is exact; the shapes, in any case, are:
    ///
    /// * `token_expired`, the literal message,
    /// * the XML fragment `<code>1010</code>`,
    /// * the rendering of [`oray_xml_error`], `Oray API error 1010: ...`,
    /// * JSON `"code":1010` and `"code": 1010`,
    /// * `code=1010`.
    ///
    /// The last three have to start and end on a boundary, so that neither
    /// `{"errorCode":1010}` nor `code=10100` matches.
    pub fn from_message(desc: String) -> (r: Error)
        ensures
            r == (if token_expired(desc@) {
                Error::TokenExpired(desc)
            } else {
                Error::Api(desc)
            }),
    {
        if is_token_expired_message(desc.as_str()) {
            Error::TokenExpired(desc)
        } else {
            Error::Api(desc)
        }
    }

    /// Build a `BadBody` error, but recognize Oray's XML error responses
    /// (e.g. `TOKEN_EXPIRED`) and surface their code and message instead.
    pub fn bad_body(body: String, source: JsonError) -> (r: Error)
        ensures
            is_bad_body(r, body, source),
    {
        match oray_xml_error(body.as_str()) {
            Some(desc) => Error::from_message(desc),
            None => Error::BadBody { body, source },
        }
    }
}

// ---------------------------------------------------------------------- laws

/// The ASCII run of a text covers every ASCII text that it begins with.
proof fn ascii_run_covers(a: Seq<char>, b: Seq<char>)
    requires
        forall|i: int| 0 <= i < a.len() ==> text::ascii(#[trigger] a[i]),
    ensures
        a.len() <= text::ascii_run(a + b) <= (a + b).len(),
    decreases a.len(),
{
    if a.len() == 0 {
        assert(a + b =~= b);
        ascii_run_bounded(b);
    } else {
        assert((a + b).drop_first() =~= a.drop_first() + b);
        ascii_run_covers(a.drop_first(), b);
    }
}

/// The ASCII run of a text is no longer than the text.
proof fn ascii_run_bounded(s: Seq<char>)
    ensures
        text::ascii_run(s) <= s.len(),
    decreases s.len(),
{
    if s.len() > 0 {
        ascii_run_bounded(s.drop_first());
    }
}

/// The lower-case form of a text begins with that of every ASCII text that
/// the text begins with.
proof fn lowercase_of_ascii_start(a: Seq<char>, b: Seq<char>)
    requires
        forall|i: int| 0 <= i < a.len() ==> text::ascii(#[trigger] a[i]),
    ensures
        text::lowercase(a + b).len() >= a.len(),
        text::lowercase(a + b).take(a.len() as int) == text::ascii_lower(a),
{
    ascii_run_covers(a, b);
    let s = a + b;
    let n = text::ascii_run(s) as int;
    if n == s.len() {
        assert(text::lowercase(s).take(a.len() as int) =~= text::ascii_lower(a));
    } else {
        assert(text::lowercase(s) == text::ascii_lower(s.take(n)) + text::lowercase_tail(s));
        assert(text::lowercase(s).take(a.len() as int) =~= text::ascii_lower(a));
    }
}

/// An error document with the code 1010 is an expired token, whatever its
/// message says: the report that [`oray_xml_error`] makes of it is one of the
/// shapes that [`Error::from_message`] recognizes.
pub proof fn xml_code_1010_is_token_expired(body: Seq<char>)
    requires
        is_error_document(document_of(body)),
        xml_code(body) == Some("1010"@),
    ensures
        xml_error(body) matches Some(desc) && token_expired(desc),
{
    reveal_strlit("1010");
    reveal_strlit("Oray API error ");
    reveal_strlit("oray api error ");
    reveal_strlit(": ");
    let head = "Oray API error "@ + "1010"@;
    let marker = "oray api error "@;
    let desc = xml_report(Some("1010"@), xml_message(body));
    match xml_message(body) {
        Some(message) => {
            let a = head + ": "@;
            assert(desc == a + message);
            lowercase_of_ascii_start(a, message);
            let lower = text::lowercase(desc);
            assert(lower.take(21) == text::ascii_lower(a));
            assert forall|i: int| 0 <= i < 21 implies #[trigger] lower[i] == text::ascii_lower_char(a[i]) by {
                assert(lower.take(21)[i] == lower[i]);
            }
            assert(lower.subrange(0, 15) =~= marker);
            let rest = lower.skip(15);
            assert(rest[0] == '1');
            assert(text::trim_start(rest) == rest);
            assert(rest.take(4) =~= "1010"@);
            assert(rest[4] == ':');
            assert(marks_1010_at(lower, marker, 0));
        },
        None => {
            let none: Seq<char> = seq![];
            assert(desc =~= head + none);
            lowercase_of_ascii_start(head, none);
            let lower = text::lowercase(desc);
            ascii_run_covers(head, none);
            assert(lower =~= text::ascii_lower(head)) by {
                assert(head + none =~= head);
            }
            assert(lower.subrange(0, 15) =~= marker);
            let rest = lower.skip(15);
            assert(rest[0] == '1');
            assert(text::trim_start(rest) == rest);
            assert(rest.take(4) =~= "1010"@);
            assert(marks_1010_at(lower, marker, 0));
        },
    }
}

/// A report that carries `(code=1010)` behind a text in ASCII is an expired
/// token, whatever follows.
pub proof fn code_1010_is_token_expired(what: Seq<char>, rest: Seq<char>)
    requires
        forall|i: int| 0 <= i < what.len() ==> text::ascii(#[trigger] what[i]),
    ensures
        token_expired(what + " failed (code="@ + "1010"@ + ") "@ + rest),
{
    reveal_strlit("1010");
    reveal_strlit(" failed (code=");
    reveal_strlit(") ");
    reveal_strlit("code=");
    let a = what + " failed (code="@ + "1010"@ + ") "@;
    let desc = a + rest;
    let n = what.len() as int;
    assert forall|i: int| 0 <= i < a.len() implies text::ascii(#[trigger] a[i]) by {
        if i < n {
            assert(a[i] == what[i]);
        } else {
            assert(a[i] == (" failed (code="@ + "1010"@ + ") "@)[i - n]);
        }
    }
    lowercase_of_ascii_start(a, rest);
    let lower = text::lowercase(desc);
    assert(a.len() == n + 20);
    assert forall|i: int| n <= i < n + 20 implies #[trigger] lower[i] == text::ascii_lower_char(
        (" failed (code="@ + "1010"@ + ") "@)[i - n],
    ) by {
        assert(lower.take(n + 20)[i] == lower[i]);
        assert(a[i] == (" failed (code="@ + "1010"@ + ") "@)[i - n]);
    }
    assert(lower.subrange(n + 9, n + 14) =~= "code="@);
    let tail = lower.skip(n + 14);
    assert(tail[0] == '1');
    assert(text::trim_start(tail) == tail);
    assert(tail.take(4) =~= "1010"@);
    assert(tail[4] == ')');
    assert(lower[n + 8] == '(');
    assert(marks_1010_at(lower, "code="@, n + 9));
}

/// A server message is kept as it is, and tells an expired token from any
/// other refusal.
pub proof fn messages_are_kept(e: Error, desc: Seq<char>)
    requires
        is_message(e, desc),
    ensures
        e is TokenExpired <==> token_expired(desc),
        e is Api <==> !token_expired(desc),
        e matches Error::Api(m) ==> m@ == desc && e.text() == desc,
        e matches Error::TokenExpired(m) ==> m@ == desc && e.text() == "access token expired: "@
            + desc,
{
}

/// A body that could not be read is reported whole, unless it is an error
/// document of the server: then its own message is, and one with the code 1010
/// is an expired token.
pub proof fn unreadable_bodies_are_told_apart(e: Error, body: String, source: JsonError)
    requires
        is_bad_body(e, body, source),
    ensures
        e is BadBody <==> !is_error_document(document_of(body@)),
        e is BadBody ==> e.text() == "unexpected response body: "@ + body@,
        is_error_document(document_of(body@)) && xml_code(body@) == Some("1010"@) ==> e
            is TokenExpired,
{
    if is_error_document(document_of(body@)) && xml_code(body@) == Some("1010"@) {
        xml_code_1010_is_token_expired(body@);
    }
}

/// The code and the message of an error document both stand in its report, the
/// code first.
pub proof fn xml_reports_hold_code_and_message(code: Seq<char>, message: Seq<char>)
    ensures
        xml_report(Some(code), Some(message)) == xml_report(Some(code), None) + ": "@ + message,
        xml_report(Some(code), None) == "Oray API error "@ + code,
        xml_report(None, Some(message)) == "Oray API error: "@ + message,
{
}

/// An element is what stands between its tags, without the space around it.
pub proof fn elements_stand_between_their_tags(
    before: Seq<char>,
    open: Seq<char>,
    inner: Seq<char>,
    close: Seq<char>,
    after: Seq<char>,
)
    requires
        text::index_from(before + open + (inner + close + after), open, 0) == Some(
            before.len() as int,
        ),
        text::index_from(inner + close + after, close, 0) == Some(inner.len() as int),
    ensures
        element(before + open + (inner + close + after), open, close) == Some(text::trim(inner)),
{
    let rest = inner + close + after;
    let doc = before + open + rest;
    assert(doc.skip(before.len() as int + open.len()) =~= rest);
    assert(rest.take(inner.len() as int) =~= inner);
}

/// White space and byte-order marks in front of a document make no difference.
pub proof fn leading_marks_make_no_difference(c: char, body: Seq<char>)
    requires
        leads_document(c),
    ensures
        document_of(seq![c] + body) == document_of(body),
        xml_error(seq![c] + body) == xml_error(body),
{
    assert((seq![c] + body).drop_first() =~= body);
}

/// A number that only begins with 1010 is another number.
pub proof fn longer_numbers_are_others(rest: Seq<char>)
    requires
        rest.len() > 4,
        text::alphanumeric(rest[4]),
    ensures
        !is_1010(rest),
{
}

/// The four digits alone, or with anything behind them that is no part of a
/// number or a word, are 1010.
pub proof fn the_number_stands_alone(rest: Seq<char>)
    requires
        rest.len() == 0 || !text::alphanumeric(rest[0]),
    ensures
        is_1010("1010"@ + rest),
{
    reveal_strlit("1010");
    let s = "1010"@ + rest;
    assert(s.take(4) =~= "1010"@);
    if rest.len() > 0 {
        assert(s[4] == rest[0]);
    }
}

/// Messages tell the kinds of failure apart, and hold what was reported.
pub proof fn failures_hold_what_was_reported(
    message: String,
    what: &'static str,
    status: u16,
    body: String,
)
    ensures
        Error::Http(message).text() == "network error: "@ + message@,
        (Error::HttpStatus { what, status, body }).text() == what@ + " failed (HTTP "@ + text::dec(
            status as nat,
        ) + "): "@ + body@,
{
}

/// A message in which one of the plain shapes stands, in any case, is an
/// expired token, and so is one in which a marker introduces the number 1010.
pub proof fn expiry_has_several_shapes(desc: Seq<char>)
    ensures
        text::contains(text::lowercase(desc), "token_expired"@) ==> token_expired(desc),
        text::contains(text::lowercase(desc), "<code>1010</code>"@) ==> token_expired(desc),
        marks_1010(text::lowercase(desc), "code="@) ==> token_expired(desc),
        marks_1010(text::lowercase(desc), "code\":"@) ==> token_expired(desc),
        marks_1010(text::lowercase(desc), "oray api error "@) ==> token_expired(desc),
{
}

/// A marker that is the tail of a longer word introduces nothing there.
pub proof fn markers_start_a_word(s: Seq<char>, marker: Seq<char>, pos: int)
    requires
        0 < pos <= s.len(),
        text::alphanumeric(s[pos - 1]),
    ensures
        !marks_1010_at(s, marker, pos),
{
}

/// An error document is told by how it starts, in any case: with an XML
/// prolog, or with its root element.
pub proof fn documents_are_told_by_their_start(start: Seq<char>, rest: Seq<char>)
    ensures
        text::same_ignoring_case(start, "<?xml"@) ==> is_error_document(start + rest),
        text::same_ignoring_case(start, "<response"@) ==> is_error_document(start + rest),
        !is_error_document(Seq::empty()),
        start.len() > 0 && text::ascii_lower_char(start[0]) != '<' ==> !is_error_document(start),
{
    reveal_strlit("<?xml");
    reveal_strlit("<response");
    let doc = start + rest;
    if text::same_ignoring_case(start, "<?xml"@) {
        assert(text::ascii_lower(start).len() == 5);
        assert(doc.take(5) =~= start);
    }
    if text::same_ignoring_case(start, "<response"@) {
        assert(text::ascii_lower(start).len() == 9);
        assert(doc.take(9) =~= start);
    }
    if start.len() > 0 && text::ascii_lower_char(start[0]) != '<' {
        assert(text::ascii_lower("<?xml"@)[0] == '<');
        assert(text::ascii_lower("<response"@)[0] == '<');
        if start.len() >= 5 {
            assert(text::ascii_lower(start.take(5))[0] == text::ascii_lower_char(start[0]));
        }
        if start.len() >= 9 {
            assert(text::ascii_lower(start.take(9))[0] == text::ascii_lower_char(start[0]));
        }
    }
}

/// A body that could be read is handed on as it was read, and one that could
/// not is an error.
pub proof fn read_bodies_are_handed_on<T>(
    r: Result<T>,
    body: String,
    parsed: std::result::Result<T, JsonError>,
)
    requires
        is_checked_body(r, body, parsed),
    ensures
        r is Ok <==> parsed is Ok,
        r matches Ok(value) ==> parsed == Ok::<T, JsonError>(value),
        r matches Err(e) ==> is_bad_body(e, body, parsed->Err_0),
{
}

} // verus!
