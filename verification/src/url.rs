//! Request URLs: query strings in `application/x-www-form-urlencoded`.
//!
//! Whether a base URL is one, and how it is written in its normal form, is
//! for the outside `url` crate to say; it appends the query too. Every name
//! and value is encoded, so that no value can start another parameter.

use crate::error::{Error, Result};
use crate::text;
use vstd::prelude::*;
use vstd::string::*;
use vstd::utf8::*;

verus! {

broadcast use vstd::seq_lib::group_seq_properties;

// -------------------------------------------------------------------- encoding

/// Whether a byte stands for itself.
pub open spec fn kept(b: u8) -> bool {
    ||| 0x30 <= b <= 0x39
    ||| 0x41 <= b <= 0x5a
    ||| 0x61 <= b <= 0x7a
    ||| b == 0x2a
    ||| b == 0x2d
    ||| b == 0x2e
    ||| b == 0x5f
}

/// The hexadecimal digit of a number below 16, in upper case.
pub open spec fn upper_hex(n: int) -> char {
    if n < 10 {
        (48 + n) as char
    } else {
        (55 + n) as char
    }
}

/// One byte in form encoding.
pub open spec fn form_byte(b: u8) -> Seq<char> {
    if kept(b) {
        seq![b as char]
    } else if b == 0x20 {
        seq!['+']
    } else {
        seq!['%', upper_hex(b as int / 16), upper_hex(b as int % 16)]
    }
}

/// Bytes in form encoding.
pub open spec fn form_bytes(bytes: Seq<u8>) -> Seq<char>
    decreases bytes.len(),
{
    if bytes.len() == 0 {
        seq![]
    } else {
        form_bytes(bytes.drop_last()) + form_byte(bytes.last())
    }
}

/// A text in form encoding.
pub open spec fn form_text(s: Seq<char>) -> Seq<char> {
    form_bytes(encode_utf8(s))
}

/// One parameter in form encoding.
pub open spec fn pair_text(pair: (Seq<char>, Seq<char>)) -> Seq<char> {
    form_text(pair.0) + "="@ + form_text(pair.1)
}

/// Parameters in form encoding.
pub open spec fn pairs_text(pairs: Seq<(Seq<char>, Seq<char>)>) -> Seq<char>
    decreases pairs.len(),
{
    if pairs.len() == 0 {
        seq![]
    } else if pairs.len() == 1 {
        pair_text(pairs[0])
    } else {
        pairs_text(pairs.drop_last()) + "&"@ + pair_text(pairs.last())
    }
}

/// The hexadecimal digit of a number below 16, in upper case.
fn hex_upper(n: u8) -> (c: char)
    requires
        n < 16,
    ensures
        c == upper_hex(n as int),
{
    if n < 10 {
        (48u8 + n) as char
    } else {
        (55u8 + n) as char
    }
}

/// Appends a text in form encoding.
fn push_form(out: &mut String, s: &str)
    ensures
        final(out)@ == old(out)@ + form_text(s@),
{
    let bytes = s.as_bytes();
    let mut i: usize = 0;
    proof {
        assert(bytes@ == encode_utf8(s@));
        assert(form_bytes(bytes@.take(0)) =~= seq![]);
    }
    while i < bytes.len()
        invariant
            i <= bytes@.len(),
            out@ == old(out)@ + form_bytes(bytes@.take(i as int)),
        decreases bytes.len() - i,
    {
        let b: u8 = bytes[i];
        proof {
            assert(bytes@.take(i + 1).drop_last() =~= bytes@.take(i as int));
        }
        if (0x30 <= b && b <= 0x39) || (0x41 <= b && b <= 0x5a) || (0x61 <= b && b <= 0x7a) || b
            == 0x2a || b == 0x2d || b == 0x2e || b == 0x5f {
            out.push(b as char);
        } else if b == 0x20 {
            out.push('+');
        } else {
            out.push('%');
            out.push(hex_upper(b / 16));
            out.push(hex_upper(b % 16));
        }
        proof {
            assert(out@ =~= old(out)@ + (form_bytes(bytes@.take(i as int)) + form_byte(b)));
        }
        i = i + 1;
    }
    proof {
        assert(bytes@.take(bytes@.len() as int) =~= bytes@);
    }
}

/// The names and values of `pairs`.
pub open spec fn pairs_view(pairs: Seq<(&str, &str)>) -> Seq<(Seq<char>, Seq<char>)> {
    pairs.map_values(|p: (&str, &str)| (p.0@, p.1@))
}

/// Parameters in form encoding: the body of a form, or a query.
pub fn form_body(pairs: &Vec<(&str, &str)>) -> (r: String)
    ensures
        r@ == pairs_text(pairs_view(pairs@)),
{
    let mut out = String::new();
    let mut i: usize = 0;
    while i < pairs.len()
        invariant
            i <= pairs@.len(),
            out@ == pairs_text(pairs_view(pairs@).take(i as int)),
        decreases pairs.len() - i,
    {
        proof {
            let all = pairs_view(pairs@);
            assert(all.take(i + 1).drop_last() =~= all.take(i as int));
            assert(all.take(i + 1).last() == all[i as int]);
        }
        let ghost before = out@;
        if i > 0 {
            out.append("&");
        }
        push_form(&mut out, pairs[i].0);
        out.append("=");
        push_form(&mut out, pairs[i].1);
        proof {
            let pair = pairs_view(pairs@)[i as int];
            if i == 0 {
                assert(out@ =~= pair_text(pair));
            } else {
                assert(out@ =~= before + "&"@ + pair_text(pair));
            }
        }
        i = i + 1;
    }
    proof {
        let all = pairs_view(pairs@);
        assert(all.take(all.len() as int) =~= all);
    }
    out
}

// ------------------------------------------------------------------------ URLs

/// A URL in its normal form, or why `base` is none.
pub uninterp spec fn normal_url(base: Seq<char>) -> std::result::Result<Seq<char>, Seq<char>>;

/// Where the fragment of a URL starts; its end where it has none.
pub open spec fn fragment_start(url: Seq<char>) -> int {
    match text::index_from(url, "#"@, 0) {
        Some(i) => i,
        None => url.len() as int,
    }
}

/// What stands between a URL and the parameters that are added to it.
pub open spec fn query_joint(main: Seq<char>, query: Seq<char>) -> Seq<char> {
    match text::index_from(main, "?"@, 0) {
        None => "?"@,
        Some(i) => if i + 1 == main.len() || query.len() == 0 {
            ""@
        } else {
            "&"@
        },
    }
}

/// A URL with a query appended to the one that it may have.
pub open spec fn with_query(url: Seq<char>, query: Seq<char>) -> Seq<char> {
    let at = fragment_start(url);
    url.take(at) + query_joint(url.take(at), query) + query + url.skip(at)
}

/// `Url::parse`, `query_pairs_mut` with `extend_pairs`, and `to_string` of the
/// URL or of the error. Claimed: whether the base is a URL, its normal form,
/// and the error depend on the base alone; the parameters are appended in form
/// encoding to the query that the URL may have, before its fragment.
#[verifier::external_body]
fn extend_query(base: &str, pairs: &Vec<(&str, &str)>) -> (r: std::result::Result<String, String>)
    ensures
        match r {
            Ok(url) => normal_url(base@) is Ok && url@ == with_query(
                normal_url(base@)->Ok_0,
                pairs_text(pairs_view(pairs@)),
            ),
            Err(m) => normal_url(base@) == Err::<Seq<char>, Seq<char>>(m@),
        },
{
    match reqwest::Url::parse(base) {
        Ok(mut url) => {
            url.query_pairs_mut().extend_pairs(pairs);
            Ok(url.to_string())
        },
        Err(e) => Err(e.to_string()),
    }
}

/// What building a request URL comes to, given what its base is read as.
pub open spec fn query_url_by(
    normal: std::result::Result<Seq<char>, Seq<char>>,
    pairs: Seq<(Seq<char>, Seq<char>)>,
    what: Seq<char>,
) -> std::result::Result<Seq<char>, Seq<char>> {
    match normal {
        Ok(url) => Ok(with_query(url, pairs_text(pairs))),
        Err(m) => Err("invalid "@ + what + " base: "@ + m),
    }
}

/// Whether `r` is a URL, or the error that reports a bad base.
pub open spec fn is_url(
    r: Result<String>,
    expected: std::result::Result<Seq<char>, Seq<char>>,
) -> bool {
    match expected {
        Ok(url) => r matches Ok(s) && s@ == url,
        Err(m) => r matches Err(Error::Api(s)) && s@ == m,
    }
}

/// A request URL: `base` with `pairs` as its query. An error names the kind
/// of base that is wrong (`what`).
pub fn query_url(base: &str, pairs: &Vec<(&str, &str)>, what: &str) -> (r: Result<String>)
    ensures
        is_url(r, query_url_by(normal_url(base@), pairs_view(pairs@), what@)),
{
    match extend_query(base, pairs) {
        Ok(url) => Ok(url),
        Err(e) => {
            let mut m = "invalid ".to_owned();
            m.append(what);
            m.append(" base: ");
            m.append(e.as_str());
            Err(Error::Api(m))
        },
    }
}

// ---------------------------------------------------------------------- laws

/// Whether `c` can stand in an encoded name or value.
pub open spec fn form_char(c: char) -> bool {
    text::ascii_alphanumeric(c) || c == '*' || c == '-' || c == '.' || c == '_' || c == '+' || c
        == '%'
}

/// What form encoding writes holds no separator.
proof fn form_bytes_chars(bytes: Seq<u8>)
    ensures
        forall|i: int|
            0 <= i < form_bytes(bytes).len() ==> form_char(#[trigger] form_bytes(bytes)[i]),
    decreases bytes.len(),
{
    if bytes.len() > 0 {
        let init = form_bytes(bytes.drop_last());
        let last = form_byte(bytes.last());
        form_bytes_chars(bytes.drop_last());
        assert forall|i: int| 0 <= i < last.len() implies form_char(#[trigger] last[i]) by {
            assert(last.len() == 1 || last.len() == 3);
        }
        assert forall|i: int| 0 <= i < form_bytes(bytes).len() implies form_char(
            #[trigger] form_bytes(bytes)[i],
        ) by {
            if i < init.len() {
                assert(form_bytes(bytes)[i] == init[i]);
            } else {
                assert(form_bytes(bytes)[i] == last[i - init.len()]);
            }
        }
    }
}

/// No value can start another parameter, end the query or break the URL: an
/// encoded text is made of letters, digits and `*-._+%` alone, so it holds no
/// `&`, `=`, `#`, `?` or space.
pub proof fn values_cannot_inject(s: Seq<char>)
    ensures
        forall|i: int| 0 <= i < form_text(s).len() ==> form_char(#[trigger] form_text(s)[i]),
        forall|i: int|
            0 <= i < form_text(s).len() ==> #[trigger] form_text(s)[i] != '&' && form_text(s)[i]
                != '=' && form_text(s)[i] != '#' && form_text(s)[i] != '?' && form_text(s)[i]
                != ' ',
{
    form_bytes_chars(encode_utf8(s));
}

/// The value of a hexadecimal digit.
pub open spec fn hex_value(c: char) -> int {
    if '0' <= c <= '9' {
        c as int - 48
    } else {
        c as int - 55
    }
}

/// The bytes that a text in form encoding stands for.
pub open spec fn form_decoded(s: Seq<char>) -> Seq<u8>
    decreases s.len(),
{
    if s.len() == 0 {
        seq![]
    } else if s[0] == '%' && s.len() >= 3 {
        seq![(16 * hex_value(s[1]) + hex_value(s[2])) as u8] + form_decoded(s.skip(3))
    } else if s[0] == '+' {
        seq![0x20u8] + form_decoded(s.skip(1))
    } else {
        seq![s[0] as u8] + form_decoded(s.skip(1))
    }
}

/// Decoding one encoded byte, with more text behind it.
proof fn byte_is_read_back(b: u8, rest: Seq<char>)
    ensures
        form_decoded(form_byte(b) + rest) == seq![b] + form_decoded(rest),
{
    let s = form_byte(b) + rest;
    if kept(b) {
        assert(s.skip(1) =~= rest);
    } else if b == 0x20 {
        assert(s.skip(1) =~= rest);
    } else {
        assert(s.skip(3) =~= rest);
        assert(16 * hex_value(s[1]) + hex_value(s[2]) == b);
    }
}

/// Decoding encoded bytes, with more text behind them.
proof fn bytes_are_read_back(bytes: Seq<u8>, rest: Seq<char>)
    ensures
        form_decoded(form_bytes(bytes) + rest) == bytes + form_decoded(rest),
    decreases bytes.len(),
{
    if bytes.len() == 0 {
        assert(form_bytes(bytes) + rest =~= rest);
        assert(bytes + form_decoded(rest) =~= form_decoded(rest));
    } else {
        let init = bytes.drop_last();
        let b = bytes.last();
        assert(form_bytes(bytes) + rest =~= form_bytes(init) + (form_byte(b) + rest));
        bytes_are_read_back(init, form_byte(b) + rest);
        byte_is_read_back(b, rest);
        assert(init + (seq![b] + form_decoded(rest)) =~= bytes + form_decoded(rest));
    }
}

/// What the server decodes is what was encoded: form decoding gives back the
/// UTF-8 bytes of the text.
pub proof fn values_are_read_back(s: Seq<char>)
    ensures
        form_decoded(form_text(s)) == encode_utf8(s),
{
    let none: Seq<char> = seq![];
    bytes_are_read_back(encode_utf8(s), none);
    assert(form_text(s) + none =~= form_text(s));
    assert(encode_utf8(s) + form_decoded(none) =~= encode_utf8(s));
}

/// Whether parameters hold one of that name, with that value and no other.
pub open spec fn carries(
    pairs: Seq<(Seq<char>, Seq<char>)>,
    name: Seq<char>,
    value: Seq<char>,
) -> bool {
    &&& pairs.contains((name, value))
    &&& forall|i: int|
        0 <= i < pairs.len() && (#[trigger] pairs[i]).0 == name ==> pairs[i].1 == value
}

/// Every parameter stands in the query, as its name, `=` and its value, each
/// encoded.
pub proof fn queries_hold_every_parameter(pairs: Seq<(Seq<char>, Seq<char>)>, at: int)
    requires
        0 <= at < pairs.len(),
    ensures
        text::contains(
            pairs_text(pairs),
            form_text(pairs[at].0) + "="@ + form_text(pairs[at].1),
        ),
    decreases pairs.len(),
{
    let shown = pair_text(pairs[at]);
    let all = pairs_text(pairs);
    if pairs.len() == 1 {
        assert(all.subrange(0, shown.len() as int) =~= shown);
        assert(text::occurs_at(all, shown, 0));
    } else if at == pairs.len() - 1 {
        let n = all.len() - shown.len();
        assert(all.subrange(n, n + shown.len()) =~= shown);
        assert(text::occurs_at(all, shown, n));
    } else {
        let rest = pairs.drop_last();
        queries_hold_every_parameter(rest, at);
        let p = choose|p: int| text::occurs_at(pairs_text(rest), shown, p);
        assert(all.subrange(p, p + shown.len()) =~= pairs_text(rest).subrange(p, p + shown.len()));
        assert(text::occurs_at(all, shown, p));
    }
}

/// A URL without a query and a fragment gets its query behind a question
/// mark, and is otherwise left as it is.
pub proof fn plain_urls_get_their_query(url: Seq<char>, query: Seq<char>)
    requires
        text::index_from(url, "#"@, 0) is None,
        text::index_from(url, "?"@, 0) is None,
    ensures
        with_query(url, query) == url + "?"@ + query,
{
    let none: Seq<char> = seq![];
    assert(url.take(url.len() as int) =~= url);
    assert(url.skip(url.len() as int) =~= none);
    assert(with_query(url, query) =~= url + "?"@ + query);
}

/// A query keeps what stands before and behind it in the URL.
pub proof fn queries_keep_the_url(url: Seq<char>, query: Seq<char>)
    ensures
        with_query(url, query).take(fragment_start(url)) == url.take(fragment_start(url)),
        with_query(url, query).skip(
            with_query(url, query).len() - (url.len() - fragment_start(url)),
        ) == url.skip(fragment_start(url)),
{
    let w = with_query(url, query);
    let at = fragment_start(url);
    text::index_from_is_first(url, "#"@, 0);
    assert(w.take(at) =~= url.take(at));
    assert(w.skip(w.len() - (url.len() - at)) =~= url.skip(at));
}

/// A base that is no URL is reported as such, with what is wrong with it.
pub proof fn bad_bases_are_reported(
    m: Seq<char>,
    pairs: Seq<(Seq<char>, Seq<char>)>,
    what: Seq<char>,
    r: Result<String>,
)
    requires
        is_url(r, query_url_by(Err(m), pairs, what)),
    ensures
        r is Err,
        r->Err_0 is Api,
        r->Err_0->Api_0@ == "invalid "@ + what + " base: "@ + m,
{
}

/// A URL that has a query already keeps it, and the new parameters follow
/// behind an ampersand.
pub proof fn queries_are_extended(url: Seq<char>, query: Seq<char>, at: int)
    requires
        text::index_from(url, "#"@, 0) is None,
        text::index_from(url, "?"@, 0) == Some(at),
        at + 1 < url.len(),
        query.len() > 0,
    ensures
        with_query(url, query) == url + "&"@ + query,
{
    let none: Seq<char> = seq![];
    assert(url.take(url.len() as int) =~= url);
    assert(url.skip(url.len() as int) =~= none);
    assert(with_query(url, query) =~= url + "&"@ + query);
}

/// A space is a plus, letters and digits stay, and every other byte is a
/// percent sign with two digits.
pub proof fn bytes_are_encoded_one_by_one(b: u8)
    ensures
        b == 0x20 ==> form_byte(b) == seq!['+'],
        0x30 <= b <= 0x39 || 0x41 <= b <= 0x5a || 0x61 <= b <= 0x7a ==> form_byte(b) == seq![
            b as char,
        ],
        form_byte(b).len() == 1 || form_byte(b).len() == 3 && form_byte(b)[0] == '%',
{
}

} // verus!
