//! Character-level text: searching, trimming, case, decimal numbers.
//!
//! Texts are reasoned about as sequences of characters. The few functions of
//! `std` that rest on the Unicode tables are declared here with what they
//! promise; everything else is written out and proved.

use vstd::prelude::*;

verus! {

broadcast use vstd::seq_lib::group_seq_properties;

// ---------------------------------------------------------------- characters

/// Whether `c` is in the ASCII range.
pub open spec fn ascii(c: char) -> bool {
    c as u32 <= 0x7f
}

/// Whether `c` is one of `0` to `9`.
pub open spec fn ascii_digit(c: char) -> bool {
    '0' <= c <= '9'
}

/// Whether `c` is an ASCII letter or digit.
pub open spec fn ascii_alphanumeric(c: char) -> bool {
    ascii_digit(c) || 'a' <= c <= 'z' || 'A' <= c <= 'Z'
}

/// The Unicode `White_Space` property.
pub open spec fn white_space(c: char) -> bool {
    let u = c as u32;
    ||| 0x09 <= u <= 0x0d
    ||| u == 0x20
    ||| u == 0x85
    ||| u == 0xa0
    ||| u == 0x1680
    ||| 0x2000 <= u <= 0x200a
    ||| u == 0x2028
    ||| u == 0x2029
    ||| u == 0x202f
    ||| u == 0x205f
    ||| u == 0x3000
}

/// `char::is_whitespace`: the Unicode `White_Space` property.
pub assume_specification[ char::is_whitespace ](c: char) -> (b: bool)
    ensures
        b == white_space(c),
;

/// Whether a character outside ASCII is alphanumeric in the Unicode tables.
pub uninterp spec fn unicode_alphanumeric(c: char) -> bool;

/// Whether `c` is alphanumeric, given the answer of the Unicode tables for
/// the characters outside ASCII.
pub open spec fn alphanumeric_by(c: char, beyond: bool) -> bool {
    if ascii(c) {
        ascii_alphanumeric(c)
    } else {
        beyond
    }
}

/// Whether `c` is alphanumeric.
pub open spec fn alphanumeric(c: char) -> bool {
    alphanumeric_by(c, unicode_alphanumeric(c))
}

/// `char::is_alphanumeric`: in ASCII the letters and digits; beyond it, what
/// the Unicode tables say.
pub assume_specification[ char::is_alphanumeric ](c: char) -> (b: bool)
    ensures
        b == alphanumeric_by(c, unicode_alphanumeric(c)),
;

/// The lower-case form of an ASCII capital, any other character unchanged.
pub open spec fn ascii_lower_char(c: char) -> char {
    if 'A' <= c <= 'Z' {
        (c as u32 + 32) as char
    } else {
        c
    }
}

/// [`ascii_lower_char`] at every place.
pub open spec fn ascii_lower(s: Seq<char>) -> Seq<char> {
    s.map_values(|c: char| ascii_lower_char(c))
}

/// The lower-case form of one character, within ASCII.
pub fn lower_char(c: char) -> (r: char)
    ensures
        r == ascii_lower_char(c),
{
    if 'A' <= c && c <= 'Z' {
        let b: u8 = (c as u8) + 32u8;
        b as char
    } else {
        c
    }
}

// --------------------------------------------------------------- lower case

/// How many characters of `s` stand before its first one outside ASCII.
pub open spec fn ascii_run(s: Seq<char>) -> nat
    decreases s.len(),
{
    if s.len() == 0 || !ascii(s[0]) {
        0
    } else {
        1 + ascii_run(s.drop_first())
    }
}

/// What `str::to_lowercase` gives of a text that is not all ASCII, after the
/// part that stems from its leading ASCII run.
pub uninterp spec fn lowercase_tail(s: Seq<char>) -> Seq<char>;

/// The lower-case form of `s`, given what comes of the part from its first
/// character outside ASCII on.
pub open spec fn lowercase_by(s: Seq<char>, tail: Seq<char>) -> Seq<char> {
    if ascii_run(s) == s.len() {
        ascii_lower(s)
    } else {
        ascii_lower(s.take(ascii_run(s) as int)) + tail
    }
}

/// The lower-case form of `s`.
pub open spec fn lowercase(s: Seq<char>) -> Seq<char> {
    lowercase_by(s, lowercase_tail(s))
}

/// `str::to_lowercase`: ASCII characters are mapped one by one, whatever
/// stands around them; from the first character outside ASCII on, the result
/// is that of the Unicode tables and is left unstated.
pub assume_specification[ str::to_lowercase ](s: &str) -> (r: String)
    ensures
        r@ == lowercase_by(s@, lowercase_tail(s@)),
;

// ------------------------------------------------------- strings and vectors

/// `String::push`: the character is appended at the end.
pub assume_specification[ String::push ](s: &mut String, c: char)
    ensures
        final(s)@ == old(s)@.push(c),
;

/// The view of an optional text.
pub open spec fn opt_view(s: Option<String>) -> Option<Seq<char>> {
    match s {
        Some(s) => Some(s@),
        None => None,
    }
}

/// The view of an optional borrowed text.
pub open spec fn opt_str_view(s: Option<&str>) -> Option<Seq<char>> {
    match s {
        Some(s) => Some(s@),
        None => None,
    }
}

/// The texts in `lines`.
pub open spec fn lines_view(lines: Seq<String>) -> Seq<Seq<char>> {
    lines.map_values(|s: String| s@)
}

/// Appends a line.
pub fn add_line(lines: &mut Vec<String>, line: String)
    ensures
        lines_view(final(lines)@) == lines_view(old(lines)@).push(line@),
{
    let ghost before = lines@;
    lines.push(line);
    proof {
        assert(lines_view(lines@) =~= lines_view(before).push(line@));
    }
}

/// How many bytes a character takes in UTF-8.
pub open spec fn char_bytes(c: char) -> nat {
    let u = c as u32;
    if u < 0x80 {
        1
    } else if u < 0x800 {
        2
    } else if u < 0x10000 {
        3
    } else {
        4
    }
}

/// How many bytes a text takes in UTF-8.
pub open spec fn utf8_len(s: Seq<char>) -> nat
    decreases s.len(),
{
    if s.len() == 0 {
        0
    } else {
        utf8_len(s.drop_last()) + char_bytes(s.last())
    }
}

/// How many bytes a character takes in UTF-8.
pub fn char_len(c: char) -> (r: usize)
    ensures
        r == char_bytes(c),
{
    let u = c as u32;
    if u < 0x80 {
        1
    } else if u < 0x800 {
        2
    } else if u < 0x10000 {
        3
    } else {
        4
    }
}

/// The characters of `s`, in order.
pub fn chars_of(s: &str) -> (v: Vec<char>)
    ensures
        v@ == s@,
{
    let mut v: Vec<char> = Vec::new();
    for c in it: s.chars()
        invariant
            it.seq() == s@,
            v@ == s@.take(it.index()),
    {
        v.push(c);
    }
    proof {
        assert(s@.take(s@.len() as int) == s@);
    }
    v
}

/// The text made of `v[from..to]`.
pub fn part_of(v: &Vec<char>, from: usize, to: usize) -> (s: String)
    requires
        from <= to <= v@.len(),
    ensures
        s@ == v@.subrange(from as int, to as int),
{
    let mut s: String = String::new();
    let mut i: usize = from;
    while i < to
        invariant
            from <= i <= to <= v@.len(),
            s@ == v@.subrange(from as int, i as int),
        decreases to - i,
    {
        s.push(v[i]);
        i = i + 1;
    }
    s
}

/// Whether a text is empty.
pub fn is_empty(s: &String) -> (r: bool)
    ensures
        r == (s@.len() == 0),
{
    let empty = String::new();
    let r = *s == empty;
    proof {
        if s@.len() == 0 {
            assert(s@ =~= empty@);
        }
    }
    r
}

/// Whether two texts are equal.
pub fn same(a: &str, b: &str) -> (r: bool)
    ensures
        r == (a@ == b@),
{
    a.to_owned() == b.to_owned()
}

/// Whether two texts are equal but for the case of ASCII letters.
pub open spec fn same_ignoring_case(a: Seq<char>, b: Seq<char>) -> bool {
    ascii_lower(a) == ascii_lower(b)
}

/// The text with its ASCII capitals in lower case.
pub fn to_ascii_lower(s: &str) -> (r: String)
    ensures
        r@ == ascii_lower(s@),
{
    let mut r: String = String::new();
    for c in it: s.chars()
        invariant
            it.seq() == s@,
            r@ == ascii_lower(s@.take(it.index())),
    {
        r.push(lower_char(c));
        proof {
            assert(s@.take(it.index() + 1) == s@.take(it.index()).push(c));
        }
    }
    proof {
        assert(s@.take(s@.len() as int) == s@);
    }
    r
}

/// `str::eq_ignore_ascii_case`.
pub fn equal_ignoring_case(a: &str, b: &str) -> (r: bool)
    ensures
        r == same_ignoring_case(a@, b@),
{
    to_ascii_lower(a) == to_ascii_lower(b)
}

// ----------------------------------------------------------------- searching

/// Whether `pat` stands in `s` at `i`.
pub open spec fn occurs_at(s: Seq<char>, pat: Seq<char>, i: int) -> bool {
    0 <= i <= s.len() - pat.len() && s.subrange(i, i + pat.len()) == pat
}

/// Whether `pat` stands anywhere in `s`.
pub open spec fn contains(s: Seq<char>, pat: Seq<char>) -> bool {
    exists|i: int| occurs_at(s, pat, i)
}

/// Where `pat` stands first in `s`, at `from` or later.
pub open spec fn index_from(s: Seq<char>, pat: Seq<char>, from: int) -> Option<int>
    decreases s.len() + 1 - from,
{
    if from < 0 || from + pat.len() > s.len() {
        None
    } else if occurs_at(s, pat, from) {
        Some(from)
    } else {
        index_from(s, pat, from + 1)
    }
}

/// [`index_from`] finds the first place, and misses none.
pub proof fn index_from_is_first(s: Seq<char>, pat: Seq<char>, from: int)
    requires
        0 <= from,
    ensures
        match index_from(s, pat, from) {
            Some(i) => from <= i && occurs_at(s, pat, i) && forall|j: int|
                from <= j < i ==> !occurs_at(s, pat, j),
            None => forall|j: int| from <= j ==> !occurs_at(s, pat, j),
        },
    decreases s.len() + 1 - from,
{
    if from + pat.len() <= s.len() && !occurs_at(s, pat, from) {
        index_from_is_first(s, pat, from + 1);
    }
}

/// Whether `pat` stands in `s` at `i`.
pub fn stands_at(s: &Vec<char>, pat: &Vec<char>, i: usize) -> (r: bool)
    ensures
        r == occurs_at(s@, pat@, i as int),
{
    if s.len() < pat.len() || i > s.len() - pat.len() {
        return false;
    }
    let n = s.len();
    let mut k: usize = 0;
    while k < pat.len()
        invariant
            k <= pat@.len(),
            n == s@.len(),
            i + pat@.len() <= n,
            forall|j: int| 0 <= j < k ==> s@[i + j] == pat@[j],
        decreases pat.len() - k,
    {
        if s[i + k] != pat[k] {
            proof {
                assert(s@.subrange(i as int, i + pat@.len())[k as int] != pat@[k as int]);
            }
            return false;
        }
        k = k + 1;
    }
    proof {
        assert(s@.subrange(i as int, i + pat@.len()) =~= pat@);
    }
    true
}

/// Where `pat` stands first in `s`, at `from` or later.
pub fn find_from(s: &Vec<char>, pat: &Vec<char>, from: usize) -> (r: Option<usize>)
    requires
        from <= s@.len(),
    ensures
        match r {
            Some(i) => index_from(s@, pat@, from as int) == Some(i as int) && i + pat@.len()
                <= s@.len(),
            None => index_from(s@, pat@, from as int) is None,
        },
{
    let mut i: usize = from;
    while i <= s.len() && pat.len() <= s.len() - i
        invariant
            from <= i <= s@.len(),
            index_from(s@, pat@, from as int) == index_from(s@, pat@, i as int),
        decreases s.len() + 1 - i,
    {
        if stands_at(s, pat, i) {
            return Some(i);
        }
        if i == s.len() {
            proof {
                assert(pat@.len() == 0);
                assert(s@.subrange(i as int, i as int) =~= pat@);
            }
            return None;
        }
        i = i + 1;
    }
    None
}

/// Whether `pat` stands anywhere in `s`.
pub fn has(s: &Vec<char>, pat: &str) -> (r: bool)
    ensures
        r == contains(s@, pat@),
{
    let p = chars_of(pat);
    proof {
        index_from_is_first(s@, pat@, 0);
    }
    find_from(s, &p, 0).is_some()
}

/// What stands before and after the first `pat` in `s`.
pub open spec fn split_once(s: Seq<char>, pat: Seq<char>) -> Option<(Seq<char>, Seq<char>)> {
    match index_from(s, pat, 0) {
        Some(i) => Some((s.take(i), s.skip(i + pat.len()))),
        None => None,
    }
}

/// What stands before and after the first `pat` in `s`.
pub fn split_at_first(s: &str, pat: &str) -> (r: Option<(String, String)>)
    ensures
        match r {
            Some(halves) => split_once(s@, pat@) == Some((halves.0@, halves.1@)),
            None => split_once(s@, pat@) is None,
        },
{
    let v = chars_of(s);
    let p = chars_of(pat);
    let n = v.len();
    match find_from(&v, &p, 0) {
        Some(i) => {
            let before = part_of(&v, 0, i);
            let after = part_of(&v, i + p.len(), n);
            proof {
                assert(before@ =~= s@.take(i as int));
                assert(after@ =~= s@.skip(i + pat@.len()));
            }
            Some((before, after))
        },
        None => None,
    }
}

/// Whether `s` begins with `pat`.
pub open spec fn starts_with(s: Seq<char>, pat: Seq<char>) -> bool {
    occurs_at(s, pat, 0)
}

/// What follows `pat` at the start of `s`.
pub open spec fn strip_prefix(s: Seq<char>, pat: Seq<char>) -> Option<Seq<char>> {
    if starts_with(s, pat) {
        Some(s.skip(pat.len() as int))
    } else {
        None
    }
}

/// What follows `pat` at the start of `s`.
pub fn without_prefix(s: &str, pat: &str) -> (r: Option<String>)
    ensures
        match r {
            Some(rest) => strip_prefix(s@, pat@) == Some(rest@),
            None => strip_prefix(s@, pat@) is None,
        },
{
    let v = chars_of(s);
    let p = chars_of(pat);
    if stands_at(&v, &p, 0) {
        let rest = part_of(&v, p.len(), v.len());
        proof {
            assert(rest@ =~= s@.skip(pat@.len() as int));
        }
        Some(rest)
    } else {
        None
    }
}

/// What precedes `pat` at the end of `s`.
pub open spec fn strip_suffix(s: Seq<char>, pat: Seq<char>) -> Option<Seq<char>> {
    if occurs_at(s, pat, s.len() - pat.len()) {
        Some(s.take(s.len() - pat.len()))
    } else {
        None
    }
}

/// What precedes `pat` at the end of `s`.
pub fn without_suffix(s: &str, pat: &str) -> (r: Option<String>)
    ensures
        match r {
            Some(rest) => strip_suffix(s@, pat@) == Some(rest@),
            None => strip_suffix(s@, pat@) is None,
        },
{
    let v = chars_of(s);
    let p = chars_of(pat);
    if p.len() <= v.len() && stands_at(&v, &p, v.len() - p.len()) {
        let rest = part_of(&v, 0, v.len() - p.len());
        proof {
            assert(rest@ =~= s@.take(s@.len() - pat@.len()));
        }
        Some(rest)
    } else {
        None
    }
}

// ------------------------------------------------------------------- quoting

/// What `{:?}` writes for a text: quoted, with escapes.
pub uninterp spec fn debug_text(s: Seq<char>) -> Seq<char>;

/// `format!("{:?}", s)` of std: the text in quotes, with some characters
/// escaped. The result is named, and not described.
#[verifier::external_body]
pub(crate) fn quoted(s: &str) -> (r: String)
    ensures
        r@ == debug_text(s@),
{
    format!("{:?}", s)
}

// ------------------------------------------------------------------ trimming

/// `s` without the white space in front.
pub open spec fn trim_start(s: Seq<char>) -> Seq<char>
    decreases s.len(),
{
    if s.len() > 0 && white_space(s[0]) {
        trim_start(s.drop_first())
    } else {
        s
    }
}

/// `s` without the white space at its end.
pub open spec fn trim_end(s: Seq<char>) -> Seq<char>
    decreases s.len(),
{
    if s.len() > 0 && white_space(s.last()) {
        trim_end(s.drop_last())
    } else {
        s
    }
}

/// `s` without the white space around it.
pub open spec fn trim(s: Seq<char>) -> Seq<char> {
    trim_end(trim_start(s))
}

/// Trimming once is enough: what is left neither starts nor ends with white
/// space.
pub proof fn trim_is_final(s: Seq<char>)
    ensures
        trim(trim(s)) == trim(s),
        trim(s).len() > 0 ==> !white_space(trim(s)[0]) && !white_space(trim(s).last()),
{
    let a = trim_start(s);
    trim_start_starts(s);
    trim_end_ends(a);
    let t = trim_end(a);
    if t.len() > 0 {
        assert(t[0] == a[0]);
        assert(trim_start(t) == t);
        assert(trim_end(t) == t);
    }
}

/// What is left at the start is no white space.
proof fn trim_start_starts(s: Seq<char>)
    ensures
        trim_start(s).len() > 0 ==> !white_space(trim_start(s)[0]),
    decreases s.len(),
{
    if s.len() > 0 && white_space(s[0]) {
        trim_start_starts(s.drop_first());
    }
}

/// What is left at the end is no white space, and nothing else went.
proof fn trim_end_ends(s: Seq<char>)
    ensures
        trim_end(s).len() > 0 ==> !white_space(trim_end(s).last()),
        trim_end(s).len() <= s.len(),
        trim_end(s) == s.take(trim_end(s).len() as int),
    decreases s.len(),
{
    if s.len() > 0 && white_space(s.last()) {
        trim_end_ends(s.drop_last());
        assert(s.drop_last().take(trim_end(s).len() as int) =~= s.take(trim_end(s).len() as int));
    } else {
        assert(s.take(s.len() as int) =~= s);
    }
}

/// The place of the first character of `v`, at `from` or later, that is no
/// white space.
pub fn skip_white_space(v: &Vec<char>, from: usize) -> (i: usize)
    requires
        from <= v@.len(),
    ensures
        from <= i <= v@.len(),
        v@.skip(i as int) == trim_start(v@.skip(from as int)),
        i < v@.len() ==> !white_space(v@[i as int]),
{
    let mut i: usize = from;
    while i < v.len() && v[i].is_whitespace()
        invariant
            from <= i <= v@.len(),
            trim_start(v@.skip(i as int)) == trim_start(v@.skip(from as int)),
        decreases v.len() - i,
    {
        proof {
            assert(v@.skip(i as int).drop_first() =~= v@.skip(i + 1));
        }
        i = i + 1;
    }
    i
}

/// The place behind the last character of `v`, at `from` or later, that is no
/// white space; `from` where there is none.
fn end_of_text(v: &Vec<char>, from: usize) -> (to: usize)
    requires
        from <= v@.len(),
    ensures
        from <= to <= v@.len(),
        v@.subrange(from as int, to as int) == trim_end(v@.skip(from as int)),
{
    let mut to: usize = v.len();
    proof {
        assert(v@.subrange(from as int, v@.len() as int) =~= v@.skip(from as int));
    }
    while to > from && v[to - 1].is_whitespace()
        invariant
            from <= to <= v@.len(),
            trim_end(v@.subrange(from as int, to as int)) == trim_end(v@.skip(from as int)),
        decreases to,
    {
        proof {
            assert(v@.subrange(from as int, to as int).drop_last() =~= v@.subrange(
                from as int,
                to - 1,
            ));
        }
        to = to - 1;
    }
    to
}

/// `str::trim`.
pub fn trimmed(s: &str) -> (r: String)
    ensures
        r@ == trim(s@),
{
    let v = chars_of(s);
    let from = skip_white_space(&v, 0);
    proof {
        assert(v@.skip(0) =~= s@);
    }
    let to = end_of_text(&v, from);
    part_of(&v, from, to)
}

/// `s` without the `c`s at its end.
pub open spec fn trim_end_char(s: Seq<char>, c: char) -> Seq<char>
    decreases s.len(),
{
    if s.len() > 0 && s.last() == c {
        trim_end_char(s.drop_last(), c)
    } else {
        s
    }
}

/// `str::trim_end_matches` with one character.
pub fn without_trailing(s: &str, c: char) -> (r: String)
    ensures
        r@ == trim_end_char(s@, c),
{
    let v = chars_of(s);
    let mut to: usize = v.len();
    proof {
        assert(v@.take(v@.len() as int) =~= v@);
    }
    while to > 0 && v[to - 1] == c
        invariant
            to <= v@.len(),
            trim_end_char(v@.take(to as int), c) == trim_end_char(v@, c),
        decreases to,
    {
        proof {
            assert(v@.take(to as int).drop_last() =~= v@.take(to - 1));
        }
        to = to - 1;
    }
    let r = part_of(&v, 0, to);
    proof {
        assert(r@ =~= v@.take(to as int));
    }
    r
}

// ------------------------------------------------------------------- numbers

/// The character of one decimal digit.
pub open spec fn digit_char(d: nat) -> char {
    (48 + d) as char
}

/// `n` in decimal.
pub open spec fn dec(n: nat) -> Seq<char>
    decreases n,
{
    if n < 10 {
        seq![digit_char(n)]
    } else {
        dec(n / 10).push(digit_char(n % 10))
    }
}

/// `n` in decimal, with a minus sign where it is negative.
pub open spec fn dec_int(n: int) -> Seq<char> {
    if n < 0 {
        seq!['-'] + dec((-n) as nat)
    } else {
        dec(n as nat)
    }
}

/// `n` in decimal, with a leading zero where it has one digit.
pub open spec fn dec2(n: nat) -> Seq<char> {
    if n < 10 {
        seq!['0'] + dec(n)
    } else {
        dec(n)
    }
}

/// Appends `n` in decimal.
pub fn push_dec(out: &mut String, n: u64)
    ensures
        final(out)@ == old(out)@ + dec(n as nat),
    decreases n,
{
    if n >= 10 {
        push_dec(out, n / 10);
    }
    let d: u8 = (n % 10) as u8;
    out.push((48u8 + d) as char);
}

/// Appends `n` in decimal.
pub fn push_dec_int(out: &mut String, n: i64)
    ensures
        final(out)@ == old(out)@ + dec_int(n as int),
{
    if n < 0 {
        out.push('-');
        let m: u64 = (-(n + 1)) as u64;
        push_dec(out, m + 1);
    } else {
        push_dec(out, n as u64);
    }
}

/// Appends `n` in decimal, with at least two digits.
pub fn push_dec2(out: &mut String, n: u64)
    ensures
        final(out)@ == old(out)@ + dec2(n as nat),
{
    if n < 10 {
        out.push('0');
    }
    push_dec(out, n);
}

/// `n` in decimal.
pub fn dec_text(n: u64) -> (r: String)
    ensures
        r@ == dec(n as nat),
{
    let mut s = String::new();
    push_dec(&mut s, n);
    proof {
        assert(s@ =~= dec(n as nat));
    }
    s
}

/// Whether `s` is made of decimal digits only.
pub open spec fn all_digits(s: Seq<char>) -> bool {
    forall|i: int| 0 <= i < s.len() ==> ascii_digit(#[trigger] s[i])
}

/// The number that the digits `s` write.
pub open spec fn digits_value(s: Seq<char>) -> nat
    decreases s.len(),
{
    if s.len() == 0 {
        0
    } else {
        10 * digits_value(s.drop_last()) + (s.last() as u32 - 48) as nat
    }
}

/// The number that `s` writes with digits alone.
pub open spec fn unsigned_value(s: Seq<char>) -> Option<nat> {
    if s.len() > 0 && all_digits(s) {
        Some(digits_value(s))
    } else {
        None
    }
}

/// The digits of a number that may carry a sign.
pub open spec fn magnitude(s: Seq<char>) -> Seq<char> {
    if s.len() > 0 && (s[0] == '+' || s[0] == '-') {
        s.drop_first()
    } else {
        s
    }
}

/// The number that `s` writes, sign included.
pub open spec fn signed_value(s: Seq<char>) -> Option<int> {
    match unsigned_value(magnitude(s)) {
        Some(n) => Some(if s.len() > 0 && s[0] == '-' { -n } else { n as int }),
        None => None,
    }
}

/// What `str::parse::<i64>` accepts: an optional sign, then digits, in range.
pub open spec fn parse_i64(s: Seq<char>) -> Option<int> {
    match signed_value(s) {
        Some(n) => if i64::MIN <= n <= i64::MAX { Some(n) } else { None },
        None => None,
    }
}

/// What `str::parse::<u64>` accepts: an optional plus, then digits, in range.
pub open spec fn parse_u64(s: Seq<char>) -> Option<nat> {
    match unsigned_value(if s.len() > 0 && s[0] == '+' { s.drop_first() } else { s }) {
        Some(n) => if n <= u64::MAX { Some(n) } else { None },
        None => None,
    }
}

/// More digits never write a smaller number.
proof fn digits_value_grows(s: Seq<char>, i: int)
    requires
        0 <= i <= s.len(),
        all_digits(s),
    ensures
        digits_value(s.take(i)) <= digits_value(s),
    decreases s.len(),
{
    if i == s.len() {
        assert(s.take(i) =~= s);
    } else {
        digits_value_grows(s.drop_last(), i);
        assert(s.drop_last().take(i) =~= s.take(i));
    }
}

/// The number that `v[from..]` writes with digits alone, where it fits `u64`.
pub fn digits_from(v: &Vec<char>, from: usize) -> (r: Option<u64>)
    requires
        from <= v@.len(),
    ensures
        match r {
            Some(n) => unsigned_value(v@.skip(from as int)) == Some(n as nat),
            None => match unsigned_value(v@.skip(from as int)) {
                Some(n) => n > u64::MAX,
                None => true,
            },
        },
{
    let ghost s = v@.skip(from as int);
    if from == v.len() {
        return None;
    }
    // A wrong digit decides over a number that is too large, so it is looked
    // for first.
    let mut k: usize = from;
    while k < v.len()
        invariant
            from <= k <= v@.len(),
            s == v@.skip(from as int),
            forall|j: int| 0 <= j < k - from ==> ascii_digit(#[trigger] s[j]),
        decreases v.len() - k,
    {
        if !('0' <= v[k] && v[k] <= '9') {
            proof {
                assert(s[k - from] == v@[k as int]);
            }
            return None;
        }
        k = k + 1;
    }
    let mut n: u64 = 0;
    let mut i: usize = from;
    while i < v.len()
        invariant
            from <= i <= v@.len(),
            s == v@.skip(from as int),
            all_digits(s),
            s.len() > 0,
            n == digits_value(s.take(i - from)),
        decreases v.len() - i,
    {
        let d: u64 = (v[i] as u32 - 48) as u64;
        proof {
            assert(s.take(i - from + 1).drop_last() =~= s.take(i - from));
            assert(s[i - from] == v@[i as int]);
            digits_value_grows(s, i - from + 1);
        }
        if n > (u64::MAX - d) / 10 {
            return None;
        }
        n = n * 10 + d;
        i = i + 1;
    }
    proof {
        assert(s.take(s.len() as int) =~= s);
    }
    Some(n)
}

/// `str::parse::<i64>`.
pub fn to_i64(s: &str) -> (r: Option<i64>)
    ensures
        match r {
            Some(n) => parse_i64(s@) == Some(n as int),
            None => parse_i64(s@) is None,
        },
{
    let v = chars_of(s);
    if v.len() == 0 {
        return None;
    }
    let neg = v[0] == '-';
    let from: usize = if neg || v[0] == '+' { 1 } else { 0 };
    proof {
        assert(v@.skip(from as int) =~= magnitude(s@));
    }
    match digits_from(&v, from) {
        Some(n) => {
            if neg {
                if n <= 9223372036854775807 {
                    Some(-(n as i64))
                } else if n == 9223372036854775808 {
                    Some(i64::MIN)
                } else {
                    None
                }
            } else if n <= 9223372036854775807 {
                Some(n as i64)
            } else {
                None
            }
        },
        None => None,
    }
}

/// `str::parse::<u64>`.
pub fn to_u64(s: &str) -> (r: Option<u64>)
    ensures
        match r {
            Some(n) => parse_u64(s@) == Some(n as nat),
            None => parse_u64(s@) is None,
        },
{
    let v = chars_of(s);
    let from: usize = if v.len() > 0 && v[0] == '+' { 1 } else { 0 };
    proof {
        assert(v@.skip(from as int) =~= (if s@.len() > 0 && s@[0] == '+' {
            s@.drop_first()
        } else {
            s@
        }));
    }
    digits_from(&v, from)
}

// ---------------------------------------------------------------------- laws

/// A number that is written in decimal is made of digits, without a leading
/// zero, and is read back.
pub proof fn numbers_are_read_back(n: nat)
    ensures
        dec(n).len() > 0,
        all_digits(dec(n)),
        digits_value(dec(n)) == n,
        unsigned_value(dec(n)) == Some(n),
        n <= u64::MAX ==> parse_u64(dec(n)) == Some(n),
        n >= 10 ==> dec(n)[0] != '0',
        n < 10 ==> dec(n).len() == 1,
    decreases n,
{
    if n < 10 {
        assert(dec(n).drop_last().len() == 0);
        reveal_with_fuel(digits_value, 2);
    } else {
        numbers_are_read_back(n / 10);
        assert(dec(n).drop_last() =~= dec(n / 10));
        assert(dec(n).last() as u32 == 48 + n % 10);
        if n / 10 < 10 {
            assert(dec(n / 10)[0] == digit_char(n / 10));
        }
    }
}

/// A number that may be negative is read back too.
pub proof fn signed_numbers_are_read_back(n: int)
    requires
        i64::MIN <= n <= i64::MAX,
    ensures
        parse_i64(dec_int(n)) == Some(n),
{
    if n < 0 {
        numbers_are_read_back((-n) as nat);
        assert(dec_int(n).drop_first() =~= dec((-n) as nat));
    } else {
        numbers_are_read_back(n as nat);
    }
}

/// A number of two digits keeps them, and one of a single digit gets a zero in
/// front; either is read back.
pub proof fn padded_numbers_are_read_back(n: nat)
    requires
        n < 100,
    ensures
        dec2(n).len() == 2,
        unsigned_value(dec2(n)) == Some(n),
{
    numbers_are_read_back(n);
    reveal_with_fuel(dec, 3);
    reveal_with_fuel(digits_value, 4);
    let s = dec2(n);
    assert(s.len() == 2);
    assert(s.drop_last().drop_last() =~= seq![]);
    assert(s[0] as u32 == 48 + n / 10);
    assert(s[1] as u32 == 48 + n % 10);
    assert(digits_value(s) == n);
}

/// A text is split at the first place where the separator stands.
pub proof fn splits_at_the_separator(a: Seq<char>, c: char, b: Seq<char>)
    requires
        forall|i: int| 0 <= i < a.len() ==> a[i] != c,
    ensures
        split_once(a + seq![c] + b, seq![c]) == Some((a, b)),
        split_once(a, seq![c]) is None,
{
    let s = a + seq![c] + b;
    let n = a.len() as int;
    index_from_is_first(s, seq![c], 0);
    assert(s.subrange(n, n + 1) =~= seq![c]);
    assert(occurs_at(s, seq![c], n));
    assert forall|j: int| 0 <= j < n implies !occurs_at(s, seq![c], j) by {
        assert(s.subrange(j, j + 1)[0] == a[j]);
        assert(seq![c][0] == c);
    }
    assert(index_from(s, seq![c], 0) == Some(n));
    assert(s.take(n) =~= a);
    assert(s.skip(n + 1) =~= b);
    index_from_is_first(a, seq![c], 0);
    assert forall|j: int| 0 <= j implies !occurs_at(a, seq![c], j) by {
        if occurs_at(a, seq![c], j) {
            assert(a.subrange(j, j + 1)[0] == a[j]);
            assert(seq![c][0] == c);
        }
    }
}

/// A text without space around it stays as it is when it is trimmed, and space
/// around it makes no difference.
pub proof fn trimming_removes_just_the_space(s: Seq<char>)
    requires
        s.len() > 0,
        !white_space(s[0]),
        !white_space(s.last()),
    ensures
        trim(s) == s,
        trim(seq![' '] + s) == s,
        trim(s.push(' ')) == s,
        trim(s.push('\n')) == s,
{
    assert((seq![' '] + s).drop_first() =~= s);
    assert(trim_start(seq![' '] + s) == trim_start(s));
    assert(s.push(' ').drop_last() =~= s);
    assert(s.push('\n').drop_last() =~= s);
    assert(trim_end(s.push(' ')) == trim_end(s));
    assert(trim_end(s.push('\n')) == trim_end(s));
}

/// Case makes no difference twice: a text in lower case stays as it is.
pub proof fn lower_case_is_final(s: Seq<char>)
    ensures
        ascii_lower(ascii_lower(s)) == ascii_lower(s),
        same_ignoring_case(s, ascii_lower(s)),
{
    assert(ascii_lower(ascii_lower(s)) =~= ascii_lower(s));
}

} // verus!
