//! Interactive input: what is asked, what is accepted, what is asked again.
//!
//! Nothing here reads a terminal. A [`Session`] holds the lines that were
//! typed and collects what is shown; a question that finds no line left is
//! left waiting, and is put again, from the start of the session, once there
//! is one more.

use crate::mobile;
use crate::text;
use crate::times;
use vstd::prelude::*;
use vstd::string::*;

verus! {

broadcast use vstd::seq_lib::group_seq_properties;

/// The lines that a person typed and what was shown to them.
pub struct Session {
    /// The lines that were typed and not looked at yet, as they were read.
    pub lines: Vec<String>,
    /// Whether the input has ended: no further line will come.
    pub closed: bool,
    /// What was shown so far.
    pub out: String,
}

/// What a [`Session`] holds.
pub struct SessionView {
    pub lines: Seq<Seq<char>>,
    pub closed: bool,
    pub out: Seq<char>,
}

impl View for Session {
    type V = SessionView;

    open spec fn view(&self) -> SessionView {
        SessionView {
            lines: text::lines_view(self.lines@),
            closed: self.closed,
            out: self.out@,
        }
    }
}

/// What a question came to.
pub enum Asked<T> {
    /// An answer.
    Value(T),
    /// There will be none; why.
    Failed(String),
    /// One more line is needed; whether it has to be typed unseen.
    Waiting(bool),
}

/// What a question came to.
pub enum AskEnd<T> {
    Value(T),
    Failed(Seq<char>),
    Waiting(bool),
}

/// What a question for a text came to.
pub open spec fn text_end(a: Asked<String>) -> AskEnd<Seq<char>> {
    match a {
        Asked::Value(s) => AskEnd::Value(s@),
        Asked::Failed(m) => AskEnd::Failed(m@),
        Asked::Waiting(secret) => AskEnd::Waiting(secret),
    }
}

/// What a question for a place in a menu came to.
pub open spec fn index_end(a: Asked<usize>) -> AskEnd<int> {
    match a {
        Asked::Value(i) => AskEnd::Value(i as int),
        Asked::Failed(m) => AskEnd::Failed(m@),
        Asked::Waiting(secret) => AskEnd::Waiting(secret),
    }
}

impl SessionView {
    /// The session after something was shown.
    pub open spec fn show(self, s: Seq<char>) -> SessionView {
        SessionView { lines: self.lines, closed: self.closed, out: self.out + s }
    }

    /// The session after its next line was looked at.
    pub open spec fn advance(self) -> SessionView {
        SessionView { lines: self.lines.drop_first(), closed: self.closed, out: self.out }
    }
}

/// Where an input is cut after each of its line ends.
pub open spec fn input_lines(s: Seq<char>) -> Seq<Seq<char>>
    decreases s.len(),
{
    if s.len() == 0 {
        seq![]
    } else {
        match text::index_from(s, "\n"@, 0) {
            Some(i) => if 0 <= i < s.len() {
                seq![s.take(i + 1)] + input_lines(s.skip(i + 1))
            } else {
                seq![s]
            },
            None => seq![s],
        }
    }
}

impl Session {
    /// A session with nothing typed and nothing shown.
    pub fn new() -> (r: Session)
        ensures
            r@ == (SessionView { lines: seq![], closed: false, out: seq![] }),
    {
        let r = Session { lines: Vec::new(), closed: false, out: String::new() };
        proof {
            assert(text::lines_view(r.lines@) =~= seq![]);
        }
        r
    }

    /// A session over a whole input, which ends there.
    pub fn over(input: &str) -> (r: Session)
        ensures
            r@ == (SessionView { lines: input_lines(input@), closed: true, out: seq![] }),
    {
        let v = text::chars_of(input);
        let n = v.len();
        let p = text::chars_of("\n");
        let mut lines: Vec<String> = Vec::new();
        let mut from: usize = 0;
        proof {
            reveal_strlit("\n");
            assert(v@.skip(0) =~= v@);
            assert(text::lines_view(lines@) + input_lines(v@) =~= input_lines(v@));
        }
        while from < n
            invariant
                from <= n,
                n == v@.len(),
                v@ == input@,
                p@ == "\n"@,
                p@.len() == 1,
                text::lines_view(lines@) + input_lines(v@.skip(from as int)) == input_lines(input@),
            decreases n - from,
        {
            let rest = text::part_of(&v, from, n);
            let w = text::chars_of(rest.as_str());
            proof {
                assert(w@ =~= v@.skip(from as int));
                text::index_from_is_first(w@, p@, 0);
            }
            let len: usize = match text::find_from(&w, &p, 0) {
                Some(i) => i + 1,
                None => w.len(),
            };
            let line = text::part_of(&w, 0, len);
            let ghost before = text::lines_view(lines@);
            proof {
                assert(line@ =~= w@.take(len as int));
                assert(w@.skip(len as int) =~= v@.skip(from + len));
                assert(w@.take(w@.len() as int) =~= w@);
                let tail = input_lines(v@.skip(from + len));
                if text::index_from(w@, p@, 0) is None {
                    assert(seq![w@] + tail =~= seq![w@]);
                }
                assert(before + (seq![line@] + tail) =~= before.push(line@) + tail);
            }
            text::add_line(&mut lines, line);
            from = from + len;
        }
        proof {
            assert(text::lines_view(lines@) + Seq::<Seq<char>>::empty() =~= text::lines_view(
                lines@,
            ));
        }
        Session { lines, closed: true, out: String::new() }
    }

    /// Adds a line that was typed.
    pub fn typed(&mut self, line: String)
        ensures
            final(self)@ == (SessionView { lines: old(self)@.lines.push(line@), ..old(self)@ }),
    {
        text::add_line(&mut self.lines, line);
    }

    /// Notes that no further line will come.
    pub fn close(&mut self)
        ensures
            final(self)@ == (SessionView { closed: true, ..old(self)@ }),
    {
        self.closed = true;
    }

    /// Shows something.
    fn show(&mut self, s: &str)
        ensures
            final(self)@ == old(self)@.show(s@),
    {
        self.out.append(s);
    }

    /// Takes the next line.
    fn next_line(&mut self) -> (r: Option<String>)
        ensures
            match r {
                Some(line) => old(self)@.lines.len() > 0 && line@ == old(self)@.lines[0]
                    && final(self)@ == old(self)@.advance(),
                None => old(self)@.lines.len() == 0 && final(self)@ == old(self)@,
            },
    {
        if self.lines.len() == 0 {
            return None;
        }
        let ghost before = self.lines@;
        let line = self.lines.remove(0);
        proof {
            assert(text::lines_view(self.lines@) =~= text::lines_view(before).drop_first());
        }
        Some(line)
    }
}

// ---------------------------------------------------------------------- questions

/// How a question is put.
pub open spec fn prompt_text(label: Seq<char>, default: Option<Seq<char>>) -> Seq<char> {
    match default {
        Some(d) => label + " ["@ + d + "]: "@,
        None => label + ": "@,
    }
}

/// How it is reported that the input ended before a value.
pub open spec fn no_input(label: Seq<char>) -> Seq<char> {
    "no input for `"@ + label
        + "` (stdin ended); pass the values as command-line arguments instead, see `oray-tools auth --help`"@
}

/// What a question without a line left comes to.
pub open spec fn without_line<T>(s: SessionView, failure: Seq<char>, secret: bool) -> (
    AskEnd<T>,
    SessionView,
) {
    if s.closed {
        (AskEnd::Failed(failure), s)
    } else {
        (AskEnd::Waiting(secret), s)
    }
}

/// What a question comes to, and the session after it.
pub open spec fn asked(s: SessionView, label: Seq<char>, default: Option<Seq<char>>) -> (
    AskEnd<Seq<char>>,
    SessionView,
)
    decreases s.lines.len(),
{
    let shown = s.show(prompt_text(label, default));
    if s.lines.len() == 0 {
        without_line(shown, no_input(label), false)
    } else if text::trim(s.lines[0]).len() > 0 {
        (AskEnd::Value(text::trim(s.lines[0])), shown.advance())
    } else {
        match default {
            Some(d) => (AskEnd::Value(d), shown.advance()),
            None => asked(shown.advance(), label, default),
        }
    }
}

/// The report that the input ended before a value.
fn no_input_text(label: &str) -> (r: String)
    ensures
        r@ == no_input(label@),
{
    let mut m = "no input for `".to_owned();
    m.append(label);
    m.append(
        "` (stdin ended); pass the values as command-line arguments instead, see `oray-tools auth --help`",
    );
    m
}

/// Reads one line, showing `label` (plus `default` in brackets).
///
/// A non-empty line is returned trimmed. An empty line yields `default` when
/// one is given, and is asked again otherwise. The end of the input is an
/// error.
pub fn ask_from(io: &mut Session, label: &str, default: Option<&str>) -> (r: Asked<String>)
    ensures
        (text_end(r), final(io)@) == asked(old(io)@, label@, text::opt_str_view(default)),
{
    let mut prompt = label.to_owned();
    match default {
        Some(d) => {
            prompt.append(" [");
            prompt.append(d);
            prompt.append("]: ");
        },
        None => {
            prompt.append(": ");
        },
    }
    loop
        invariant
            prompt@ == prompt_text(label@, text::opt_str_view(default)),
            asked(old(io)@, label@, text::opt_str_view(default)) == asked(
                io@,
                label@,
                text::opt_str_view(default),
            ),
        decreases io@.lines.len(),
    {
        io.show(prompt.as_str());
        match io.next_line() {
            None => {
                if io.closed {
                    return Asked::Failed(no_input_text(label));
                }
                return Asked::Waiting(false);
            },
            Some(line) => {
                let value = text::trimmed(line.as_str());
                if !text::is_empty(&value) {
                    return Asked::Value(value);
                }
                if let Some(d) = default {
                    return Asked::Value(d.to_owned());
                }
            },
        }
    }
}

/// Reads a required, non-empty value (asks again on an empty line).
pub fn ask(io: &mut Session, label: &str, default: Option<&str>) -> (r: Asked<String>)
    ensures
        (text_end(r), final(io)@) == asked(old(io)@, label@, text::opt_str_view(default)),
{
    ask_from(io, label, default)
}

/// `s` without the line ends at its end.
pub open spec fn without_line_end(s: Seq<char>) -> Seq<char>
    decreases s.len(),
{
    if s.len() > 0 && (s.last() == '\n' || s.last() == '\r') {
        without_line_end(s.drop_last())
    } else {
        s
    }
}

/// What a question for a secret comes to, and the session after it.
pub open spec fn asked_secret(s: SessionView, label: Seq<char>) -> (AskEnd<Seq<char>>, SessionView) {
    let shown = s.show(prompt_text(label, None));
    if s.lines.len() == 0 {
        without_line(shown, no_input(label), true)
    } else {
        let value = without_line_end(s.lines[0]);
        if value.len() > 0 {
            (AskEnd::Value(value), shown.advance())
        } else {
            (AskEnd::Failed("no "@ + label + " entered"@), shown.advance())
        }
    }
}

/// Reads a line that is typed unseen. Only the line end is removed: a
/// password may contain spaces.
pub fn ask_secret(io: &mut Session, label: &str) -> (r: Asked<String>)
    ensures
        (text_end(r), final(io)@) == asked_secret(old(io)@, label@),
{
    let mut prompt = label.to_owned();
    prompt.append(": ");
    io.show(prompt.as_str());
    match io.next_line() {
        None => {
            if io.closed {
                return Asked::Failed(no_input_text(label));
            }
            Asked::Waiting(true)
        },
        Some(line) => {
            let v = text::chars_of(line.as_str());
            let mut to: usize = v.len();
            proof {
                assert(v@.take(v@.len() as int) =~= v@);
            }
            while to > 0 && (v[to - 1] == '\n' || v[to - 1] == '\r')
                invariant
                    to <= v@.len(),
                    without_line_end(v@.take(to as int)) == without_line_end(v@),
                decreases to,
            {
                proof {
                    assert(v@.take(to as int).drop_last() =~= v@.take(to - 1));
                }
                to = to - 1;
            }
            let value = text::part_of(&v, 0, to);
            proof {
                assert(value@ =~= v@.take(to as int));
            }
            if text::is_empty(&value) {
                let mut m = "no ".to_owned();
                m.append(label);
                m.append(" entered");
                return Asked::Failed(m);
            }
            Asked::Value(value)
        },
    }
}

// -------------------------------------------------------------------------- menus

/// The lines of the first `n` options of a menu.
pub open spec fn menu_lines(options: Seq<Seq<char>>, n: nat) -> Seq<char>
    decreases n,
{
    if n == 0 {
        seq![]
    } else {
        menu_lines(options, (n - 1) as nat) + "  "@ + text::dec(n) + ") "@ + options[n - 1] + "\n"@
    }
}

/// What choosing one of `count` options comes to, and the session after it.
pub open spec fn choosing(s: SessionView, label: Seq<char>, count: int) -> (AskEnd<int>, SessionView)
    decreases s.lines.len(),
{
    let shown = s.show("Choose 1-"@).show(text::dec(count as nat)).show(": "@);
    if s.lines.len() == 0 {
        without_line(
            shown,
            "no choice for `"@ + label
                + "` (stdin ended); pass the values as arguments instead"@,
            false,
        )
    } else {
        match text::parse_u64(text::trim(s.lines[0])) {
            Some(n) if 1 <= n <= count => (AskEnd::Value(n - 1), shown.advance()),
            _ => choosing(
                shown.advance().show("please enter a number between 1 and "@).show(
                    text::dec(count as nat),
                ).show("\n"@),
                label,
                count,
            ),
        }
    }
}

/// What a menu comes to, and the session after it.
pub open spec fn chosen(s: SessionView, label: Seq<char>, options: Seq<Seq<char>>) -> (
    AskEnd<int>,
    SessionView,
) {
    choosing(
        s.show(label).show(":\n"@).show(menu_lines(options, options.len())),
        label,
        options.len() as int,
    )
}

/// The texts in `options`.
pub open spec fn options_view(options: Seq<&str>) -> Seq<Seq<char>> {
    options.map_values(|o: &str| o@)
}

/// Presents a numbered menu and returns the chosen index (from 0). Anything
/// that is not a number inside the menu is rejected with a hint and asked
/// again; the end of the input is an error.
pub fn choose_from(io: &mut Session, label: &str, options: &Vec<&str>) -> (r: Asked<usize>)
    requires
        options@.len() > 0,
    ensures
        (index_end(r), final(io)@) == chosen(old(io)@, label@, options_view(options@)),
{
    let count = options.len();
    let ghost view = options_view(options@);
    io.show(label);
    io.show(":\n");
    let mut menu = String::new();
    let mut i: usize = 0;
    while i < count
        invariant
            i <= count,
            count == options@.len(),
            view == options_view(options@),
            menu@ == menu_lines(view, i as nat),
        decreases count - i,
    {
        menu.append("  ");
        text::push_dec(&mut menu, (i as u64) + 1);
        menu.append(") ");
        menu.append(options[i]);
        menu.append("\n");
        i = i + 1;
    }
    io.show(menu.as_str());
    let n = text::dec_text(count as u64);
    loop
        invariant
            count == options@.len(),
            n@ == text::dec(count as nat),
            chosen(old(io)@, label@, options_view(options@)) == choosing(io@, label@, count as int),
        decreases io@.lines.len(),
    {
        io.show("Choose 1-");
        io.show(n.as_str());
        io.show(": ");
        match io.next_line() {
            None => {
                if io.closed {
                    let mut m = "no choice for `".to_owned();
                    m.append(label);
                    m.append("` (stdin ended); pass the values as arguments instead");
                    return Asked::Failed(m);
                }
                return Asked::Waiting(false);
            },
            Some(line) => {
                let value = text::trimmed(line.as_str());
                if let Some(k) = text::to_u64(value.as_str()) {
                    if 1 <= k && k <= count as u64 {
                        return Asked::Value((k - 1) as usize);
                    }
                }
                io.show("please enter a number between 1 and ");
                io.show(n.as_str());
                io.show("\n");
            },
        }
    }
}

// ------------------------------------------------------------- missing arguments

/// What is accepted as the value of an argument.
#[derive(Debug, Clone, Copy, PartialEq, Eq, Structural)]
pub enum Kind {
    /// Any text that is not empty.
    Text,
    /// Any text that is not empty, typed unseen.
    Secret,
    /// A mobile number.
    Mobile,
    /// On or off.
    OnOff,
    /// A local clock time.
    ClockTime,
    /// A number up to this one.
    Number(u64),
}

/// How a value that is not accepted is reported.
pub open spec fn complaint(kind: Kind, value: Seq<char>) -> Option<Seq<char>> {
    match kind {
        Kind::Text => None,
        Kind::Secret => None,
        Kind::Mobile => if mobile::is_mobile(value) {
            None
        } else {
            Some(mobile::not_mobile(value))
        },
        Kind::OnOff => match times::on_off(value) {
            Some(_) => None,
            None => Some("expected on or off, got '"@ + text::ascii_lower(value) + "'"@),
        },
        Kind::ClockTime => match times::local_time_of(value) {
            Some(_) => None,
            None => Some(
                "use a local clock time like 19:25, or minutes of the day 0-1439 (e.g. 480 = 08:00), got '"@
                    + value + "'"@,
            ),
        },
        Kind::Number(max) => match text::parse_u64(value) {
            Some(n) if n <= max => None,
            _ => Some("expected a number, got '"@ + value + "'"@),
        },
    }
}

/// How a value that is not accepted is reported; nothing of one that is.
pub fn check_value(kind: Kind, value: &str) -> (r: Option<String>)
    ensures
        text::opt_view(r) == complaint(kind, value@),
{
    match kind {
        Kind::Text => None,
        Kind::Secret => None,
        Kind::Mobile => match mobile::check_mobile(value) {
            Ok(_) => None,
            Err(m) => Some(m),
        },
        Kind::OnOff => match times::parse_on_off(value) {
            Ok(_) => None,
            Err(m) => Some(m),
        },
        Kind::ClockTime => match times::parse_local_time(value) {
            Some(_) => None,
            None => {
                let mut m = "use a local clock time like 19:25, or minutes of the day 0-1439 (e.g. 480 = 08:00), got '".to_owned();
                m.append(value);
                m.append("'");
                Some(m)
            },
        },
        Kind::Number(max) => {
            if let Some(n) = text::to_u64(value) {
                if n <= max {
                    return None;
                }
            }
            let mut m = "expected a number, got '".to_owned();
            m.append(value);
            m.append("'");
            Some(m)
        },
    }
}

/// An argument that the command line left out.
pub struct Question {
    /// How usage texts name it.
    pub name: &'static str,
    /// How it is asked for.
    pub label: &'static str,
    pub kind: Kind,
    /// The value that an empty line stands for.
    pub default: Option<String>,
}

/// What a [`Question`] asks.
pub struct QuestionView {
    pub name: Seq<char>,
    pub label: Seq<char>,
    pub kind: Kind,
    pub default: Option<Seq<char>>,
}

impl View for Question {
    type V = QuestionView;

    open spec fn view(&self) -> QuestionView {
        QuestionView {
            name: self.name@,
            label: self.label@,
            kind: self.kind,
            default: text::opt_view(self.default),
        }
    }
}

/// The questions in `qs`.
pub open spec fn questions_view(qs: Seq<Question>) -> Seq<QuestionView> {
    qs.map_values(|q: Question| q@)
}

/// What one question comes to, and the session after it: a value that is not
/// accepted is reported and asked for again.
pub open spec fn answered(s: SessionView, q: QuestionView) -> (AskEnd<Seq<char>>, SessionView)
    decreases s.lines.len(),
{
    if q.kind is Secret {
        asked_secret(s, q.label)
    } else {
        let a = asked(s, q.label, q.default);
        match a.0 {
            AskEnd::Value(v) => match complaint(q.kind, v) {
                None => a,
                Some(m) => if a.1.lines.len() < s.lines.len() {
                    answered(a.1.show(m).show("\n"@), q)
                } else {
                    a
                },
            },
            _ => a,
        }
    }
}

/// An answer takes a line.
proof fn asked_takes_a_line(s: SessionView, label: Seq<char>, default: Option<Seq<char>>)
    ensures
        asked(s, label, default).0 is Value ==> asked(s, label, default).1.lines.len()
            < s.lines.len(),
        asked(s, label, default).1.lines.len() <= s.lines.len(),
    decreases s.lines.len(),
{
    if s.lines.len() > 0 && text::trim(s.lines[0]).len() == 0 && default is None {
        asked_takes_a_line(
            s.show(prompt_text(label, default)).advance(),
            label,
            default,
        );
    }
}

/// Puts one question until its value is accepted.
pub fn answer(io: &mut Session, q: &Question) -> (r: Asked<String>)
    ensures
        (text_end(r), final(io)@) == answered(old(io)@, q@),
{
    if let Kind::Secret = q.kind {
        return ask_secret(io, q.label);
    }
    loop
        invariant
            !(q.kind is Secret),
            answered(old(io)@, q@) == answered(io@, q@),
        decreases io@.lines.len(),
    {
        let default = match &q.default {
            Some(d) => Some(d.as_str()),
            None => None,
        };
        proof {
            asked_takes_a_line(io@, q.label@, text::opt_str_view(default));
        }
        match ask(io, q.label, default) {
            Asked::Value(v) => match check_value(q.kind, v.as_str()) {
                None => {
                    return Asked::Value(v);
                },
                Some(m) => {
                    io.show(m.as_str());
                    io.show("\n");
                },
            },
            Asked::Failed(m) => {
                return Asked::Failed(m);
            },
            Asked::Waiting(secret) => {
                return Asked::Waiting(secret);
            },
        }
    }
}

/// What a run of questions comes to, after `n` of them were answered with
/// `values`.
pub open spec fn all_answered(
    s: SessionView,
    qs: Seq<QuestionView>,
    values: Seq<Seq<char>>,
) -> (AskEnd<Seq<Seq<char>>>, SessionView)
    decreases qs.len(),
{
    if qs.len() == 0 {
        (AskEnd::Value(values), s)
    } else {
        let a = answered(s, qs[0]);
        match a.0 {
            AskEnd::Value(v) => all_answered(a.1, qs.drop_first(), values.push(v)),
            AskEnd::Failed(m) => (AskEnd::Failed(m), a.1),
            AskEnd::Waiting(secret) => (AskEnd::Waiting(secret), a.1),
        }
    }
}

/// What a question for several texts came to.
pub open spec fn texts_end(a: Asked<Vec<String>>) -> AskEnd<Seq<Seq<char>>> {
    match a {
        Asked::Value(v) => AskEnd::Value(text::lines_view(v@)),
        Asked::Failed(m) => AskEnd::Failed(m@),
        Asked::Waiting(secret) => AskEnd::Waiting(secret),
    }
}

/// The names of some questions, with commas between them.
pub open spec fn names_text(qs: Seq<QuestionView>) -> Seq<char>
    decreases qs.len(),
{
    if qs.len() == 0 {
        seq![]
    } else if qs.len() == 1 {
        qs[0].name
    } else {
        names_text(qs.drop_last()) + ", "@ + qs.last().name
    }
}

/// How it is reported that nobody is there to be asked.
pub open spec fn no_terminal(qs: Seq<QuestionView>, example: Seq<char>) -> Seq<char> {
    "--interactive needs a terminal to ask for "@ + names_text(qs) + "; run `"@ + example
        + "` instead"@
}

/// Fails where something has to be asked and nobody is there: the report
/// names what is missing and the command that supplies it.
pub fn require_terminal(qs: &Vec<Question>, example: &str, is_terminal: bool) -> (r: Result<
    (),
    String,
>)
    ensures
        is_terminal || qs@.len() == 0 ==> r is Ok,
        !is_terminal && qs@.len() > 0 ==> (r matches Err(m) && m@ == no_terminal(
            questions_view(qs@),
            example@,
        )),
{
    if is_terminal || qs.len() == 0 {
        return Ok(());
    }
    let ghost all = questions_view(qs@);
    let mut names = String::new();
    let mut i: usize = 0;
    while i < qs.len()
        invariant
            i <= qs@.len(),
            all == questions_view(qs@),
            names@ == names_text(all.take(i as int)),
        decreases qs.len() - i,
    {
        proof {
            assert(all.take(i + 1).drop_last() =~= all.take(i as int));
            assert(all.take(i + 1).last() == all[i as int]);
        }
        if i > 0 {
            names.append(", ");
        }
        names.append(qs[i].name);
        proof {
            if i == 0 {
                assert(names@ =~= all[0].name);
            }
        }
        i = i + 1;
    }
    proof {
        assert(all.take(all.len() as int) =~= all);
    }
    let mut m = "--interactive needs a terminal to ask for ".to_owned();
    m.append(names.as_str());
    m.append("; run `");
    m.append(example);
    m.append("` instead");
    Err(m)
}

/// What asking for missing arguments comes to, and the session after it.
pub open spec fn filled(
    s: SessionView,
    qs: Seq<QuestionView>,
    example: Seq<char>,
    is_terminal: bool,
) -> (AskEnd<Seq<Seq<char>>>, SessionView) {
    if !is_terminal && qs.len() > 0 {
        (AskEnd::Failed(no_terminal(qs, example)), s)
    } else {
        all_answered(s, qs, seq![])
    }
}

/// Asks for missing arguments, one after the other. Without a terminal it
/// fails at once, before anything is shown.
pub fn fill_arguments(
    io: &mut Session,
    qs: &Vec<Question>,
    example: &str,
    is_terminal: bool,
) -> (r: Asked<Vec<String>>)
    ensures
        (texts_end(r), final(io)@) == filled(
            old(io)@,
            questions_view(qs@),
            example@,
            is_terminal,
        ),
        r matches Asked::Value(values) ==> values@.len() == qs@.len(),
{
    if let Err(m) = require_terminal(qs, example, is_terminal) {
        return Asked::Failed(m);
    }
    let ghost all = questions_view(qs@);
    let mut values: Vec<String> = Vec::new();
    let mut i: usize = 0;
    proof {
        assert(all.skip(0) =~= all);
        assert(text::lines_view(values@) =~= seq![]);
    }
    while i < qs.len()
        invariant
            i <= qs@.len(),
            text::lines_view(values@).len() == i,
            is_terminal || qs@.len() == 0,
            all == questions_view(qs@),
            all_answered(old(io)@, all, seq![]) == all_answered(
                io@,
                all.skip(i as int),
                text::lines_view(values@),
            ),
        decreases qs.len() - i,
    {
        proof {
            assert(all.skip(i as int)[0] == qs@[i as int]@);
            assert(all.skip(i as int).drop_first() =~= all.skip(i + 1));
        }
        match answer(io, &qs[i]) {
            Asked::Value(v) => {
                text::add_line(&mut values, v);
            },
            Asked::Failed(m) => {
                return Asked::Failed(m);
            },
            Asked::Waiting(secret) => {
                return Asked::Waiting(secret);
            },
        }
        i = i + 1;
    }
    Asked::Value(values)
}

/// The value of an argument, given or typed.
pub open spec fn given_or_typed(given: Option<Seq<char>>, typed: Seq<Seq<char>>) -> Option<
    Seq<char>,
> {
    match given {
        Some(v) => Some(v),
        None => if typed.len() > 0 {
            Some(typed[0])
        } else {
            None
        },
    }
}

/// The number of an argument, given or typed.
pub open spec fn number_or_typed(given: Option<int>, typed: Seq<Seq<char>>) -> Option<int> {
    match given {
        Some(n) => Some(n),
        None => if typed.len() > 0 {
            match text::parse_u64(typed[0]) {
                Some(n) => Some(n as int),
                None => None,
            }
        } else {
            None
        },
    }
}

/// The values that are left after one argument was filled in.
pub open spec fn typed_after(given: bool, typed: Seq<Seq<char>>) -> Seq<Seq<char>> {
    if given || typed.len() == 0 {
        typed
    } else {
        typed.drop_first()
    }
}

/// Takes the first of the typed values.
fn take_first(typed: &mut Vec<String>) -> (r: Option<String>)
    ensures
        match r {
            Some(v) => text::lines_view(old(typed)@).len() > 0 && v@ == text::lines_view(
                old(typed)@,
            )[0] && text::lines_view(final(typed)@) == text::lines_view(old(typed)@).drop_first(),
            None => text::lines_view(old(typed)@).len() == 0 && *final(typed) == *old(typed),
        },
{
    if typed.len() == 0 {
        return None;
    }
    let ghost before = typed@;
    let v = typed.remove(0);
    proof {
        assert(text::lines_view(typed@) =~= text::lines_view(before).drop_first());
    }
    Some(v)
}

/// The value of an argument: the one given, else the next one typed.
pub fn take_text(given: Option<String>, typed: &mut Vec<String>) -> (r: Option<String>)
    ensures
        text::opt_view(r) == given_or_typed(
            text::opt_view(given),
            text::lines_view(old(typed)@),
        ),
        text::lines_view(final(typed)@) == typed_after(
            given is Some,
            text::lines_view(old(typed)@),
        ),
{
    match given {
        Some(v) => Some(v),
        None => take_first(typed),
    }
}

/// The view of an optional number.
pub open spec fn opt_number(n: Option<u64>) -> Option<int> {
    match n {
        Some(n) => Some(n as int),
        None => None,
    }
}

/// The number of an argument: the one given, else the next one typed.
pub fn take_number(given: Option<u64>, typed: &mut Vec<String>) -> (r: Option<u64>)
    ensures
        opt_number(r) == number_or_typed(opt_number(given), text::lines_view(old(typed)@)),
        text::lines_view(final(typed)@) == typed_after(
            given is Some,
            text::lines_view(old(typed)@),
        ),
{
    match given {
        Some(n) => Some(n),
        None => match take_first(typed) {
            Some(v) => text::to_u64(v.as_str()),
            None => None,
        },
    }
}

/// A question for a text.
pub open spec fn text_question(name: Seq<char>, label: Seq<char>) -> QuestionView {
    QuestionView { name, label, kind: Kind::Text, default: None }
}

/// A question for a text.
pub fn ask_for_text(qs: &mut Vec<Question>, name: &'static str, label: &'static str)
    ensures
        questions_view(final(qs)@) == questions_view(old(qs)@).push(
            (QuestionView { name: name@, label: label@, kind: Kind::Text, default: None }),
        ),
{
    ask_for(qs, name, label, Kind::Text, None);
}

/// A question.
pub fn ask_for(
    qs: &mut Vec<Question>,
    name: &'static str,
    label: &'static str,
    kind: Kind,
    default: Option<String>,
)
    ensures
        questions_view(final(qs)@) == questions_view(old(qs)@).push(
            (QuestionView { name: name@, label: label@, kind, default: text::opt_view(default) }),
        ),
{
    let ghost before = qs@;
    qs.push(Question { name, label, kind, default });
    proof {
        assert(questions_view(qs@) =~= questions_view(before).push(qs@[before.len() as int]@));
    }
}

// ---------------------------------------------------------------------- laws

/// A value that was asked for is accepted: unless it is a secret, there is no
/// complaint about it.
pub proof fn answers_are_accepted(s: SessionView, q: QuestionView)
    requires
        !(q.kind is Secret),
    ensures
        answered(s, q).0 matches AskEnd::Value(v) ==> complaint(q.kind, v) is None,
    decreases s.lines.len(),
{
    asked_takes_a_line(s, q.label, q.default);
    let a = asked(s, q.label, q.default);
    if let AskEnd::Value(v) = a.0 {
        if let Some(m) = complaint(q.kind, v) {
            answers_are_accepted(a.1.show(m).show("\n"@), q);
        }
    }
}

/// A question never fails for good while more can be typed: on an input that
/// has not ended it is answered or left waiting.
pub proof fn open_input_never_fails(s: SessionView, label: Seq<char>, default: Option<Seq<char>>)
    requires
        !s.closed,
    ensures
        !(asked(s, label, default).0 is Failed),
    decreases s.lines.len(),
{
    if s.lines.len() > 0 && text::trim(s.lines[0]).len() == 0 && default is None {
        open_input_never_fails(s.show(prompt_text(label, default)).advance(), label, default);
    }
}

/// The end of the input is an error and never a hang: on an input that has
/// ended a question is never left waiting.
pub proof fn ended_input_never_waits(s: SessionView, label: Seq<char>, default: Option<Seq<char>>)
    requires
        s.closed,
    ensures
        !(asked(s, label, default).0 is Waiting),
    decreases s.lines.len(),
{
    if s.lines.len() > 0 && text::trim(s.lines[0]).len() == 0 && default is None {
        ended_input_never_waits(s.show(prompt_text(label, default)).advance(), label, default);
    }
}

/// The session with more lines behind those that were typed, or with its input
/// ended.
pub open spec fn typed_on(s: SessionView, more: Seq<Seq<char>>, closed: bool) -> SessionView {
    SessionView { lines: s.lines + more, closed, out: s.out }
}

/// What a question shows is added to what was shown before.
proof fn asked_shows_more(s: SessionView, label: Seq<char>, default: Option<Seq<char>>)
    ensures
        s.out.is_prefix_of(asked(s, label, default).1.out),
    decreases s.lines.len(),
{
    let shown = s.show(prompt_text(label, default));
    if s.lines.len() > 0 && text::trim(s.lines[0]).len() == 0 && default is None {
        asked_shows_more(shown.advance(), label, default);
    }
}

/// A question that is put again with more lines: an answer stays, and what was
/// shown while it was left waiting is shown again first.
pub proof fn questions_are_replayed(
    s: SessionView,
    label: Seq<char>,
    default: Option<Seq<char>>,
    more: Seq<Seq<char>>,
    closed: bool,
)
    requires
        !s.closed,
    ensures
        asked(s, label, default).0 is Waiting ==> asked(s, label, default).1.out.is_prefix_of(
            asked(typed_on(s, more, closed), label, default).1.out,
        ),
        asked(s, label, default).0 is Value ==> asked(typed_on(s, more, closed), label, default)
            == (
            asked(s, label, default).0,
            typed_on(asked(s, label, default).1, more, closed),
        ),
        !asked(s, label, default).1.closed,
    decreases s.lines.len(),
{
    let t = typed_on(s, more, closed);
    let shown = s.show(prompt_text(label, default));
    let shown_on = t.show(prompt_text(label, default));
    if s.lines.len() == 0 {
        if t.lines.len() > 0 && text::trim(t.lines[0]).len() == 0 && default is None {
            asked_shows_more(shown_on.advance(), label, default);
        }
    } else {
        assert(t.lines[0] == s.lines[0]);
        assert(t.lines.drop_first() =~= s.lines.drop_first() + more);
        assert(shown_on.advance() == typed_on(shown.advance(), more, closed));
        if text::trim(s.lines[0]).len() == 0 && default is None {
            questions_are_replayed(shown.advance(), label, default, more, closed);
        }
    }
}

/// What a question with its complaints shows is added to what was shown before.
proof fn answered_shows_more(s: SessionView, q: QuestionView)
    ensures
        s.out.is_prefix_of(answered(s, q).1.out),
    decreases s.lines.len(),
{
    if !(q.kind is Secret) {
        asked_shows_more(s, q.label, q.default);
        asked_takes_a_line(s, q.label, q.default);
        let a = asked(s, q.label, q.default);
        if let AskEnd::Value(v) = a.0 {
            if let Some(m) = complaint(q.kind, v) {
                answered_shows_more(a.1.show(m).show("\n"@), q);
            }
        }
    }
}

/// A question with its complaints that is put again with more lines.
proof fn answers_are_replayed(s: SessionView, q: QuestionView, more: Seq<Seq<char>>, closed: bool)
    requires
        !s.closed,
    ensures
        answered(s, q).0 is Waiting ==> answered(s, q).1.out.is_prefix_of(
            answered(typed_on(s, more, closed), q).1.out,
        ),
        !(answered(s, q).0 is Waiting) ==> answered(typed_on(s, more, closed), q) == (
            answered(s, q).0,
            typed_on(answered(s, q).1, more, closed),
        ),
        !answered(s, q).1.closed,
    decreases s.lines.len(),
{
    let t = typed_on(s, more, closed);
    if q.kind is Secret {
        if s.lines.len() > 0 {
            assert(t.lines[0] == s.lines[0]);
            assert(t.lines.drop_first() =~= s.lines.drop_first() + more);
        }
    } else {
        let a = asked(s, q.label, q.default);
        let b = asked(t, q.label, q.default);
        questions_are_replayed(s, q.label, q.default, more, closed);
        open_input_never_fails(s, q.label, q.default);
        asked_takes_a_line(s, q.label, q.default);
        asked_takes_a_line(t, q.label, q.default);
        match a.0 {
            AskEnd::Value(v) => {
                if let Some(m) = complaint(q.kind, v) {
                    let next = a.1.show(m).show("\n"@);
                    answers_are_replayed(next, q, more, closed);
                    assert(b.1.show(m).show("\n"@) == typed_on(next, more, closed));
                }
            },
            _ => {
                if let AskEnd::Value(v) = b.0 {
                    if let Some(m) = complaint(q.kind, v) {
                        answered_shows_more(b.1.show(m).show("\n"@), q);
                    }
                }
            },
        }
    }
}

/// What a run of questions shows is added to what was shown before.
proof fn all_answered_shows_more(s: SessionView, qs: Seq<QuestionView>, values: Seq<Seq<char>>)
    ensures
        s.out.is_prefix_of(all_answered(s, qs, values).1.out),
    decreases qs.len(),
{
    if qs.len() > 0 {
        answered_shows_more(s, qs[0]);
        let a = answered(s, qs[0]);
        if let AskEnd::Value(v) = a.0 {
            all_answered_shows_more(a.1, qs.drop_first(), values.push(v));
        }
    }
}

/// A run of questions that is put again with more lines.
proof fn all_answers_are_replayed(
    s: SessionView,
    qs: Seq<QuestionView>,
    values: Seq<Seq<char>>,
    more: Seq<Seq<char>>,
    closed: bool,
)
    requires
        !s.closed,
        all_answered(s, qs, values).0 is Waiting,
    ensures
        all_answered(s, qs, values).1.out.is_prefix_of(
            all_answered(typed_on(s, more, closed), qs, values).1.out,
        ),
    decreases qs.len(),
{
    let a = answered(s, qs[0]);
    let b = answered(typed_on(s, more, closed), qs[0]);
    answers_are_replayed(s, qs[0], more, closed);
    match a.0 {
        AskEnd::Value(v) => {
            all_answers_are_replayed(a.1, qs.drop_first(), values.push(v), more, closed);
        },
        _ => {
            if let AskEnd::Value(v) = b.0 {
                all_answered_shows_more(b.1, qs.drop_first(), values.push(v));
            }
        },
    }
}

/// A conversation can be put again from its start with every line that was
/// typed: what was shown while it was left waiting is shown again first, so
/// only the rest is new.
pub proof fn conversations_are_replayed(
    s: SessionView,
    qs: Seq<QuestionView>,
    example: Seq<char>,
    is_terminal: bool,
    more: Seq<Seq<char>>,
    closed: bool,
)
    requires
        !s.closed,
        filled(s, qs, example, is_terminal).0 is Waiting,
    ensures
        filled(s, qs, example, is_terminal).1.out.is_prefix_of(
            filled(typed_on(s, more, closed), qs, example, is_terminal).1.out,
        ),
{
    all_answers_are_replayed(s, qs, seq![], more, closed);
}

/// An answer is the line that was typed, without the space around it; one line
/// is taken, and the question that was put is shown, with its default.
pub proof fn answers_are_the_typed_line(s: SessionView, label: Seq<char>, default: Option<Seq<char>>)
    requires
        s.lines.len() > 0,
        text::trim(s.lines[0]).len() > 0,
    ensures
        asked(s, label, default).0 == AskEnd::Value(text::trim(s.lines[0])),
        asked(s, label, default).1.lines == s.lines.drop_first(),
        default is None ==> asked(s, label, default).1.out == s.out + (label + ": "@),
        default matches Some(d) ==> asked(s, label, default).1.out == s.out + (label + " ["@ + d
            + "]: "@),
{
}

/// An empty line is the default where there is one, and is asked again where
/// there is none.
pub proof fn empty_lines_take_the_default(s: SessionView, label: Seq<char>, d: Seq<char>)
    requires
        s.lines.len() > 0,
        text::trim(s.lines[0]).len() == 0,
    ensures
        asked(s, label, Some(d)).0 == AskEnd::Value(d),
        asked(s, label, Some(d)).1.lines == s.lines.drop_first(),
        s.lines.len() > 1 && text::trim(s.lines[1]).len() > 0 ==> asked(s, label, None).0
            == AskEnd::Value(text::trim(s.lines[1])),
        s.lines.len() == 1 && !s.closed ==> asked(s, label, None).0 == AskEnd::<Seq<char>>::Waiting(
            false,
        ),
{
    reveal_with_fuel(asked, 3);
}

/// A secret is the whole line but for its end, spaces and all, and an empty one
/// is refused.
pub proof fn secrets_are_taken_whole(s: SessionView, label: Seq<char>, secret: Seq<char>)
    requires
        s.lines.len() > 0,
        s.lines[0] == secret + "\n"@ || s.lines[0] == secret + "\r\n"@,
    ensures
        secret.len() > 0 && secret.last() != '\n' && secret.last() != '\r' ==> asked_secret(s, label).0
            == AskEnd::Value(secret),
        secret.len() == 0 ==> asked_secret(s, label).0 == AskEnd::<Seq<char>>::Failed(
            "no "@ + label + " entered"@,
        ),
        asked_secret(s, label).1.lines == s.lines.drop_first(),
{
    reveal_strlit("\n");
    reveal_strlit("\r\n");
    reveal_with_fuel(without_line_end, 4);
    let line = s.lines[0];
    if line =~= secret + "\n"@ {
        assert(line.drop_last() =~= secret);
    } else {
        assert(line.drop_last() =~= secret + "\r"@) by {
            reveal_strlit("\r");
        }
        assert(line.drop_last().drop_last() =~= secret);
    }
}

/// A secret that was not typed yet is waited for unseen, anything else in
/// plain sight.
pub proof fn secrets_are_typed_unseen(s: SessionView, label: Seq<char>, default: Option<Seq<char>>)
    requires
        s.lines.len() == 0,
        !s.closed,
    ensures
        asked_secret(s, label).0 == AskEnd::<Seq<char>>::Waiting(true),
        asked(s, label, default).0 == AskEnd::<Seq<char>>::Waiting(false),
{
}

/// The end of the input is reported with what was asked for.
pub proof fn ended_inputs_are_reported(s: SessionView, label: Seq<char>, default: Option<Seq<char>>)
    requires
        s.lines.len() == 0,
        s.closed,
    ensures
        asked(s, label, default).0 is Failed,
        asked_secret(s, label).0 == asked(s, label, default).0,
        text::contains(asked(s, label, default).0->Failed_0, "`"@ + label + "`"@),
{
    reveal_strlit("`");
    reveal_strlit("no input for `");
    reveal_strlit(
        "` (stdin ended); pass the values as command-line arguments instead, see `oray-tools auth --help`",
    );
    let m = no_input(label);
    let pat = "`"@ + label + "`"@;
    assert(m.subrange(13, 13int + pat.len()) =~= pat);
    assert(text::occurs_at(m, pat, 13));
}

/// The option that is chosen is the one that the menu shows under the number
/// that was typed.
pub proof fn menus_choose_the_shown_option(
    s: SessionView,
    label: Seq<char>,
    options: Seq<Seq<char>>,
    n: nat,
)
    requires
        s.lines.len() > 0,
        text::parse_u64(text::trim(s.lines[0])) == Some(n),
        1 <= n <= options.len(),
    ensures
        chosen(s, label, options).0 == AskEnd::Value(n - 1),
        chosen(s, label, options).1.lines == s.lines.drop_first(),
        menu_lines(options, n) == menu_lines(options, (n - 1) as nat) + "  "@ + text::dec(n)
            + ") "@ + options[n - 1] + "\n"@,
{
}

/// A number outside the menu is no choice.
pub proof fn menus_refuse_other_numbers(s: SessionView, label: Seq<char>, options: Seq<Seq<char>>)
    requires
        s.lines.len() == 1,
        !s.closed,
        match text::parse_u64(text::trim(s.lines[0])) {
            Some(n) => n == 0 || n > options.len(),
            None => true,
        },
    ensures
        chosen(s, label, options).0 == AskEnd::<int>::Waiting(false),
{
    reveal_with_fuel(choosing, 3);
}

/// Questions are answered one by one in their order: there is a value for each
/// of them, each is accepted, and none is moved.
pub proof fn questions_are_answered_in_order(
    s: SessionView,
    qs: Seq<QuestionView>,
    values: Seq<Seq<char>>,
)
    ensures
        all_answered(s, qs, values).0 matches AskEnd::Value(all) ==> {
            &&& all.len() == values.len() + qs.len()
            &&& all.take(values.len() as int) == values
            &&& forall|i: int|
                #![trigger qs[i]]
                0 <= i < qs.len() && !(qs[i].kind is Secret) ==> complaint(
                    qs[i].kind,
                    all[values.len() + i],
                ) is None
        },
    decreases qs.len(),
{
    if qs.len() == 0 {
        assert(values.take(values.len() as int) =~= values);
    } else {
        let a = answered(s, qs[0]);
        if let AskEnd::Value(v) = a.0 {
            let rest = qs.drop_first();
            questions_are_answered_in_order(a.1, rest, values.push(v));
            if !(qs[0].kind is Secret) {
                answers_are_accepted(s, qs[0]);
            }
            if let AskEnd::Value(all) = all_answered(s, qs, values).0 {
                let n = values.len() as int;
                assert(all.take(n + 1) == values.push(v));
                assert(all[n] == all.take(n + 1)[n]);
                assert(all.take(n) =~= values) by {
                    assert forall|k: int| 0 <= k < n implies all[k] == values[k] by {
                        assert(all.take(n + 1)[k] == all[k]);
                    }
                }
                assert forall|i: int|
                    #![trigger qs[i]]
                    0 <= i < qs.len() && !(qs[i].kind is Secret) implies complaint(
                    qs[i].kind,
                    all[values.len() + i],
                ) is None by {
                    if i > 0 {
                        assert(rest[i - 1] == qs[i]);
                    }
                }
            }
        }
    }
}

/// Without a terminal nothing is asked: where something is missing it fails at
/// once and shows nothing, and where nothing is missing nobody is needed.
pub proof fn nobody_is_asked_without_a_terminal(
    s: SessionView,
    qs: Seq<QuestionView>,
    example: Seq<char>,
    is_terminal: bool,
)
    ensures
        qs.len() > 0 ==> filled(s, qs, example, false).0 is Failed && filled(
            s,
            qs,
            example,
            false,
        ).1 == s,
        qs.len() == 0 ==> filled(s, qs, example, is_terminal) == (
            AskEnd::<Seq<Seq<char>>>::Value(seq![]),
            s,
        ),
{
}

/// The report that nobody is there to be asked names the command that leaves
/// nothing out, and one missing argument by its name.
pub proof fn missing_terminals_are_reported(q: QuestionView, example: Seq<char>)
    ensures
        no_terminal(seq![q], example) == "--interactive needs a terminal to ask for "@ + q.name
            + "; run `"@ + example + "` instead"@,
{
}

/// Names are listed in the order of their questions.
pub proof fn names_are_listed_in_order(qs: Seq<QuestionView>, q: QuestionView)
    requires
        qs.len() > 0,
    ensures
        names_text(qs.push(q)) == names_text(qs) + ", "@ + q.name,
{
    assert(qs.push(q).drop_last() =~= qs);
}

/// A number is accepted exactly up to the largest that is.
pub proof fn numbers_are_accepted_in_range(max: u64, value: Seq<char>)
    ensures
        complaint(Kind::Number(max), value) is None <==> (text::parse_u64(value) matches Some(n)
            && n <= max),
        complaint(Kind::Text, value) is None,
{
}

/// An input is cut behind each of its line ends.
pub proof fn inputs_are_cut_into_lines(line: Seq<char>, rest: Seq<char>)
    requires
        forall|i: int| 0 <= i < line.len() ==> line[i] != '\n',
    ensures
        input_lines(line + "\n"@ + rest) == seq![line + "\n"@] + input_lines(rest),
        line.len() > 0 ==> input_lines(line) == seq![line],
        input_lines(Seq::empty()).len() == 0,
{
    reveal_strlit("\n");
    assert("\n"@ =~= seq!['\n']);
    let s = line + "\n"@ + rest;
    text::splits_at_the_separator(line, '\n', rest);
    text::index_from_is_first(s, "\n"@, 0);
    text::index_from_is_first(line, "\n"@, 0);
    let n = line.len() as int;
    assert(text::occurs_at(s, "\n"@, n)) by {
        assert(s.subrange(n, n + 1) =~= "\n"@);
    }
    assert forall|j: int| 0 <= j < n implies !text::occurs_at(s, "\n"@, j) by {
        assert(s.subrange(j, j + 1)[0] == line[j]);
    }
    assert(text::index_from(s, "\n"@, 0) == Some(n));
    assert(s.take(n + 1) =~= line + "\n"@);
    assert(s.skip(n + 1) =~= rest);
}

} // verus!
