//! What is shown: traces for `--verbose`, errors and JSON.

use crate::json;
use crate::json::{Json, Tree};
use crate::text;
use crate::trace;
use crate::trace::{LogView, RequestLog, TracedResult};
use vstd::prelude::*;
use vstd::string::*;

verus! {

broadcast use vstd::seq_lib::group_seq_properties;

/// How traces are shown.
#[derive(Debug, Clone, Copy, PartialEq, Eq, Structural)]
pub struct Output {
    /// Whether request and response traces are shown at all.
    pub verbose: bool,
    /// Whether they are shown unmasked.
    pub raw_trace: bool,
}

impl Default for Output {
    fn default() -> (r: Self)
        ensures
            r == (Output { verbose: false, raw_trace: false }),
    {
        Output { verbose: false, raw_trace: false }
    }
}

impl Output {
    /// Turns the traces on or off.
    pub fn set_verbose(&mut self, enabled: bool)
        ensures
            *final(self) == (Output { verbose: enabled, ..*old(self) }),
    {
        self.verbose = enabled;
    }

    /// Whether traces are shown.
    pub fn verbose(&self) -> (r: bool)
        ensures
            r == self.verbose,
    {
        self.verbose
    }

    /// Turns masking off or on.
    pub fn set_raw_trace(&mut self, enabled: bool)
        ensures
            *final(self) == (Output { raw_trace: enabled, ..*old(self) }),
    {
        self.raw_trace = enabled;
    }

    /// Whether traces are shown unmasked.
    pub fn raw_trace(&self) -> (r: bool)
        ensures
            r == self.raw_trace,
    {
        self.raw_trace
    }
}

/// What a command that changed something reports, in either format.
pub struct Report {
    /// With `--json`.
    pub json: Json,
    /// Without.
    pub line: String,
}

/// A line, where there is reason for it.
pub open spec fn line_if(shown: bool, label: Seq<char>, value: Seq<char>) -> Seq<Seq<char>> {
    if shown {
        seq![label + value]
    } else {
        seq![]
    }
}

/// Appends a line, where there is reason for it.
pub fn put_line_if(lines: &mut Vec<String>, shown: bool, label: &str, value: &str)
    ensures
        text::lines_view(final(lines)@) == text::lines_view(old(lines)@) + line_if(
            shown,
            label@,
            value@,
        ),
{
    let ghost before = text::lines_view(lines@);
    if shown {
        let mut s = label.to_owned();
        s.append(value);
        proof {
            assert(before + line_if(shown, label@, value@) =~= before.push(s@));
        }
        text::add_line(lines, s);
    } else {
        proof {
            assert(before + line_if(shown, label@, value@) =~= before);
        }
    }
}

// ----------------------------------------------------------------------- bodies

/// How many bytes of a body are shown.
pub const DISPLAY_BYTES: usize = 4096;

/// How many leading characters of `s` fit into `n` bytes.
pub open spec fn chars_in(s: Seq<char>, n: int) -> int
    decreases s.len(),
{
    if s.len() == 0 || text::char_bytes(s[0]) > n {
        0
    } else {
        1 + chars_in(s.drop_first(), n - text::char_bytes(s[0]))
    }
}

/// A body as it is shown: trimmed, and cut to the characters that fit into
/// [`DISPLAY_BYTES`] bytes.
pub open spec fn shown_body(body: Seq<char>) -> Seq<char> {
    let b = text::trim(body);
    if text::utf8_len(b) <= DISPLAY_BYTES {
        b
    } else {
        b.take(chars_in(b, DISPLAY_BYTES as int)) + "…"@
    }
}

/// A text is at least as long as its start.
proof fn utf8_len_grows(s: Seq<char>, k: int)
    requires
        0 <= k <= s.len(),
    ensures
        text::utf8_len(s.take(k)) <= text::utf8_len(s),
    decreases s.len(),
{
    if k == s.len() {
        assert(s.take(k) =~= s);
    } else {
        utf8_len_grows(s.drop_last(), k);
        assert(s.drop_last().take(k) =~= s.take(k));
    }
}

/// Truncates a body for display, between two characters.
pub fn display_body(body: &str) -> (r: String)
    ensures
        r@ == shown_body(body@),
{
    let b = text::trimmed(body);
    let v = text::chars_of(b.as_str());
    let n = v.len();
    let mut i: usize = 0;
    let mut used: usize = 0;
    proof {
        assert(v@.skip(0) =~= v@);
        assert(v@.take(0).len() == 0);
    }
    while i < n && used + text::char_len(v[i]) <= DISPLAY_BYTES
        invariant
            i <= n,
            n == v@.len(),
            used <= DISPLAY_BYTES,
            used == text::utf8_len(v@.take(i as int)),
            chars_in(v@, DISPLAY_BYTES as int) == i + chars_in(
                v@.skip(i as int),
                DISPLAY_BYTES - used,
            ),
        decreases n - i,
    {
        proof {
            assert(v@.skip(i as int)[0] == v@[i as int]);
            assert(v@.skip(i as int).drop_first() =~= v@.skip(i + 1));
            assert(v@.take(i + 1).drop_last() =~= v@.take(i as int));
        }
        used = used + text::char_len(v[i]);
        i = i + 1;
    }
    if i == n {
        proof {
            assert(v@.take(i as int) =~= v@);
        }
        return b;
    }
    proof {
        assert(v@.take(i + 1).drop_last() =~= v@.take(i as int));
        utf8_len_grows(v@, i + 1);
        assert(v@.skip(i as int)[0] == v@[i as int]);
    }
    let mut s = text::part_of(&v, 0, i);
    proof {
        assert(s@ =~= v@.take(i as int));
    }
    s.append("…");
    s
}

// ----------------------------------------------------------------------- traces

/// The line of one header.
pub open spec fn header_line(h: (Seq<char>, Seq<char>)) -> Seq<char> {
    "[DEBUG] "@ + h.0 + ": "@ + h.1
}

/// The lines of a record, its bodies given as they are shown.
pub open spec fn log_lines_by(
    log: LogView,
    request_body: Option<Seq<char>>,
    response_body: Seq<char>,
) -> Seq<Seq<char>> {
    let head = seq!["[DEBUG] "@ + log.request.method + " "@ + log.request.url]
        + log.request.headers.map_values(|h: (Seq<char>, Seq<char>)| header_line(h));
    let sent = match request_body {
        Some(b) => head.push("[DEBUG] Request body: "@ + b),
        None => head,
    };
    let status = sent.push(
        match log.status {
            Some(s) => "[DEBUG] Response: "@ + text::dec(s as nat),
            None => "[DEBUG] Response: <no response>"@,
        },
    );
    if log.response_body.len() > 0 {
        status.push("[DEBUG] Body: "@ + response_body)
    } else {
        status
    }
}

/// The lines of a record.
pub open spec fn log_lines(log: LogView) -> Seq<Seq<char>> {
    log_lines_by(
        log,
        match log.request.body {
            Some(body) => Some(shown_body(body)),
            None => None,
        },
        shown_body(log.response_body),
    )
}

/// The lines of a record.
pub fn request_log_lines(call: &RequestLog) -> (r: Vec<String>)
    ensures
        text::lines_view(r@) == log_lines(call@),
{
    let mut lines: Vec<String> = Vec::new();
    let mut s = "[DEBUG] ".to_owned();
    s.append(call.method.as_str());
    s.append(" ");
    s.append(call.url.as_str());
    text::add_line(&mut lines, s);
    let ghost head = text::lines_view(lines@);
    let ghost headers = call@.request.headers;
    proof {
        assert(head =~= seq!["[DEBUG] "@ + call.method@ + " "@ + call.url@]);
    }
    let mut i: usize = 0;
    while i < call.request_headers.len()
        invariant
            i <= call.request_headers@.len(),
            headers == trace::headers_view(call.request_headers@),
            text::lines_view(lines@) == head + headers.take(i as int).map_values(
                |h: (Seq<char>, Seq<char>)| header_line(h),
            ),
        decreases call.request_headers.len() - i,
    {
        let mut s = "[DEBUG] ".to_owned();
        s.append(call.request_headers[i].0.as_str());
        s.append(": ");
        s.append(call.request_headers[i].1.as_str());
        proof {
            let f = |h: (Seq<char>, Seq<char>)| header_line(h);
            assert(headers.take(i + 1) =~= headers.take(i as int).push(headers[i as int]));
            assert(head + headers.take(i + 1).map_values(f) =~= (head + headers.take(
                i as int,
            ).map_values(f)).push(s@));
        }
        text::add_line(&mut lines, s);
        i = i + 1;
    }
    proof {
        assert(headers.take(headers.len() as int) =~= headers);
    }
    if let Some(body) = &call.request_body {
        let mut s = "[DEBUG] Request body: ".to_owned();
        s.append(display_body(body.as_str()).as_str());
        text::add_line(&mut lines, s);
    }
    match call.status {
        Some(status) => {
            let mut s = "[DEBUG] Response: ".to_owned();
            text::push_dec(&mut s, status as u64);
            text::add_line(&mut lines, s);
        },
        None => {
            text::add_line(&mut lines, "[DEBUG] Response: <no response>".to_owned());
        },
    }
    if !text::is_empty(&call.response_body) {
        let mut s = "[DEBUG] Body: ".to_owned();
        s.append(display_body(call.response_body.as_str()).as_str());
        text::add_line(&mut lines, s);
    }
    lines
}

/// A record as it is shown under these settings.
pub open spec fn shown_log(out: Output, log: LogView) -> LogView {
    if out.raw_trace {
        log
    } else {
        trace::redacted_log(log)
    }
}

/// The lines of some records.
pub open spec fn trace_lines(out: Output, calls: Seq<LogView>) -> Seq<Seq<char>>
    decreases calls.len(),
{
    if calls.len() == 0 {
        seq![]
    } else {
        trace_lines(out, calls.drop_last()) + log_lines(shown_log(out, calls.last()))
    }
}

/// The lines that show captured exchanges under these settings.
pub open spec fn emitted_lines(out: Output, calls: Seq<LogView>) -> Seq<Seq<char>> {
    if out.verbose {
        trace_lines(out, calls)
    } else {
        seq![]
    }
}

/// Appends lines.
fn extend_lines(lines: &mut Vec<String>, more: Vec<String>)
    ensures
        text::lines_view(final(lines)@) == text::lines_view(old(lines)@) + text::lines_view(more@),
{
    let mut more = more;
    let ghost before = lines@;
    let ghost added = more@;
    lines.append(&mut more);
    proof {
        assert(lines@ =~= before + added);
        assert(text::lines_view(before + added) =~= text::lines_view(before) + text::lines_view(
            added,
        ));
    }
}

impl Output {
    /// The lines that show captured exchanges: none unless `verbose` is set,
    /// masked unless `raw_trace` is.
    pub fn emit_traces(&self, calls: &Vec<RequestLog>) -> (r: Vec<String>)
        ensures
            text::lines_view(r@) == emitted_lines(*self, trace::calls_view(calls@)),
    {
        let mut lines: Vec<String> = Vec::new();
        proof {
            assert(text::lines_view(lines@) =~= seq![]);
        }
        if !self.verbose {
            return lines;
        }
        let ghost all = trace::calls_view(calls@);
        let mut i: usize = 0;
        while i < calls.len()
            invariant
                i <= calls@.len(),
                all == trace::calls_view(calls@),
                self.verbose,
                text::lines_view(lines@) == trace_lines(*self, all.take(i as int)),
            decreases calls.len() - i,
        {
            let shown = if self.raw_trace {
                request_log_lines(&calls[i])
            } else {
                request_log_lines(&calls[i].redacted())
            };
            proof {
                assert(all.take(i + 1).drop_last() =~= all.take(i as int));
                assert(all.take(i + 1).last() == calls@[i as int]@);
            }
            extend_lines(&mut lines, shown);
            i = i + 1;
        }
        proof {
            assert(all.take(all.len() as int) =~= all);
        }
        lines
    }
}

// ----------------------------------------------------------------------- results

/// Whether `out` is the data of a traced result with the exchanges to show, or
/// the message of its error behind a label.
pub open spec fn is_traced<T>(
    out: (Result<T, String>, Vec<RequestLog>),
    label: Seq<char>,
    r: TracedResult<T>,
) -> bool {
    match r {
        Ok(done) => out.0 == Ok::<T, String>(done.data) && out.1 == done.calls,
        Err(e) => (out.0 matches Err(m) && m@ == label + ": "@ + e.error.text()) && out.1
            == e.calls,
    }
}

/// The data of a traced result with the exchanges to show, or the message of
/// its error behind a label.
pub fn traced<T>(label: &str, r: TracedResult<T>) -> (out: (Result<T, String>, Vec<RequestLog>))
    ensures
        is_traced(out, label@, r),
{
    match r {
        Ok(done) => (Ok(done.data), done.calls),
        Err(e) => {
            let mut m = label.to_owned();
            m.append(": ");
            m.append(e.error.message().as_str());
            (Err(m), e.calls)
        },
    }
}

/// The JSON text that a command prints.
pub open spec fn printed_json(json: bool, tree: Tree) -> Option<Seq<char>> {
    if json {
        json::json_pretty(tree)
    } else {
        None
    }
}

/// The JSON text that a command prints: none unless `json` is set.
pub fn emit_json(json: bool, value: &Json) -> (r: Option<String>)
    ensures
        text::opt_view(r) == printed_json(json, value@),
{
    if json {
        value.pretty()
    } else {
        None
    }
}

// ---------------------------------------------------------------------- laws

/// A body that fits is shown whole, but for the white space around it.
pub proof fn short_bodies_are_shown_whole(body: Seq<char>)
    requires
        text::utf8_len(text::trim(body)) <= DISPLAY_BYTES,
    ensures
        shown_body(body) == text::trim(body),
{
}

/// As many characters are counted as fit: they take `n` bytes at most, and
/// one more would take too many.
proof fn chars_in_fit(s: Seq<char>, n: int)
    requires
        0 <= n,
    ensures
        0 <= chars_in(s, n) <= s.len(),
        text::utf8_len(s.take(chars_in(s, n))) <= n,
        chars_in(s, n) < s.len() ==> text::utf8_len(s.take(chars_in(s, n) + 1)) > n,
    decreases s.len(),
{
    reveal_with_fuel(text::utf8_len, 2);
    if s.len() > 0 {
        assert(seq![s[0]].drop_last().len() == 0);
    }
    if s.len() == 0 || text::char_bytes(s[0]) > n {
        assert(s.take(0).len() == 0);
        if s.len() > 0 {
            assert(s.take(1) =~= seq![s[0]]);
        }
    } else {
        let rest = s.drop_first();
        let k = chars_in(rest, n - text::char_bytes(s[0]));
        chars_in_fit(rest, n - text::char_bytes(s[0]));
        utf8_len_of_concat(seq![s[0]], rest.take(k));
        assert(s.take(k + 1) =~= seq![s[0]] + rest.take(k));
        if k < rest.len() {
            utf8_len_of_concat(seq![s[0]], rest.take(k + 1));
            assert(s.take(k + 2) =~= seq![s[0]] + rest.take(k + 1));
        }
    }
}

/// A body that does not fit is cut between two characters: what is shown of it
/// takes [`DISPLAY_BYTES`] bytes at most, and one more character would not
/// fit.
pub proof fn cut_bodies_show_the_limit(body: Seq<char>)
    requires
        text::utf8_len(text::trim(body)) > DISPLAY_BYTES,
    ensures
        exists|k: int|
            0 <= k < text::trim(body).len() && shown_body(body) == #[trigger] text::trim(body).take(
                k,
            ) + "…"@ && text::utf8_len(text::trim(body).take(k)) <= DISPLAY_BYTES
                < text::utf8_len(text::trim(body).take(k + 1)),
{
    let b = text::trim(body);
    let k = chars_in(b, DISPLAY_BYTES as int);
    chars_in_fit(b, DISPLAY_BYTES as int);
    if k == b.len() {
        assert(b.take(k) =~= b);
    }
    assert(shown_body(body) == b.take(k) + "…"@);
}

/// The length of two texts together.
proof fn utf8_len_of_concat(a: Seq<char>, b: Seq<char>)
    ensures
        text::utf8_len(a + b) == text::utf8_len(a) + text::utf8_len(b),
    decreases b.len(),
{
    if b.len() == 0 {
        assert(a + b =~= a);
    } else {
        utf8_len_of_concat(a, b.drop_last());
        assert((a + b).drop_last() =~= a + b.drop_last());
    }
}

/// Traces are shown only where they were asked for, one exchange after the
/// other in their order, and unmasked only where that was asked for.
pub proof fn traces_are_masked_unless_raw(out: Output, calls: Seq<LogView>, next: LogView)
    ensures
        !out.verbose ==> emitted_lines(out, calls).len() == 0,
        emitted_lines(out, Seq::empty()).len() == 0,
        out.verbose && out.raw_trace ==> emitted_lines(out, calls.push(next)) == emitted_lines(
            out,
            calls,
        ) + log_lines(next),
        out.verbose && !out.raw_trace ==> emitted_lines(out, calls.push(next)) == emitted_lines(
            out,
            calls,
        ) + log_lines(trace::redacted_log(next)),
{
    assert(calls.push(next).drop_last() =~= calls);
}

/// The lines of an exchange show what was asked of whom, every header, the
/// body that was sent where there is one, the status that came back or that
/// none did, and the body that came back where there is one.
#[verifier::rlimit(40)]
pub proof fn exchanges_are_shown_whole(log: LogView, at: int)
    requires
        0 <= at < log.request.headers.len(),
    ensures
        ({
            let lines = log_lines(log);
            let n = log.request.headers.len() as int;
            let sent: int = if log.request.body is Some {
                1
            } else {
                0
            };
            &&& lines[0] == "[DEBUG] "@ + log.request.method + " "@ + log.request.url
            &&& lines[1 + at] == "[DEBUG] "@ + log.request.headers[at].0 + ": "@
                + log.request.headers[at].1
            &&& log.request.body matches Some(b) ==> lines[1 + n] == "[DEBUG] Request body: "@
                + shown_body(b)
            &&& log.status matches Some(s) ==> lines[1 + n + sent] == "[DEBUG] Response: "@
                + text::dec(s as nat)
            &&& log.status is None ==> lines[1 + n + sent] == "[DEBUG] Response: <no response>"@
            &&& log.response_body.len() > 0 ==> lines.len() == n + sent + 3 && lines.last()
                == "[DEBUG] Body: "@ + shown_body(log.response_body)
            &&& log.response_body.len() == 0 ==> lines.len() == n + sent + 2
        }),
{
}

/// A result hands its data on, and a failure its message behind the label; the
/// exchanges go with either.
pub proof fn results_keep_their_exchanges<T>(
    out: (Result<T, String>, Vec<RequestLog>),
    label: Seq<char>,
    r: TracedResult<T>,
)
    requires
        is_traced(out, label, r),
    ensures
        out.0 is Ok <==> r is Ok,
        r matches Ok(done) ==> out.0 == Ok::<T, String>(done.data) && out.1 == done.calls,
        r matches Err(e) ==> (out.0 matches Err(m) && m@ == label + ": "@ + e.error.text()) && out.1
            == e.calls,
{
}

/// A document is printed only where one was asked for, and then it is the
/// whole document.
pub proof fn documents_are_printed_on_demand(tree: Tree)
    ensures
        printed_json(false, tree) is None,
        printed_json(true, tree) == json::json_pretty(tree),
{
}

} // verus!
