//! Mobile numbers: what counts as one, and how one is shown.

use crate::text;
use vstd::prelude::*;
use vstd::string::*;

verus! {

broadcast use vstd::seq_lib::group_seq_properties;

/// The digits of a number, without the leading `+` of an international one.
pub open spec fn digits_of(mobile: Seq<char>) -> Seq<char> {
    match text::strip_prefix(mobile, "+"@) {
        Some(rest) => rest,
        None => mobile,
    }
}

/// Whether a text is a plausible mobile number: 6 to 15 digits, behind a `+`
/// or not.
pub open spec fn is_mobile(mobile: Seq<char>) -> bool {
    6 <= digits_of(mobile).len() <= 15 && text::all_digits(digits_of(mobile))
}

/// How a text that is no mobile number is reported.
pub open spec fn not_mobile(mobile: Seq<char>) -> Seq<char> {
    "expected a mobile number like 12345678901, got '"@ + mobile + "'"@
}

/// A login target for the SMS flow: digits (an optional leading `+` for
/// international numbers, which does not count), 6 to 15 of them.
pub fn check_mobile(mobile: &str) -> (r: Result<(), String>)
    ensures
        is_mobile(mobile@) ==> r is Ok,
        !is_mobile(mobile@) ==> (r matches Err(m) && m@ == not_mobile(mobile@)),
{
    let digits = match text::without_prefix(mobile, "+") {
        Some(rest) => rest,
        None => mobile.to_owned(),
    };
    let v = text::chars_of(digits.as_str());
    let mut plausible = 6 <= v.len() && v.len() <= 15;
    let mut i: usize = 0;
    while i < v.len() && plausible
        invariant
            i <= v@.len(),
            v@ == digits_of(mobile@),
            plausible ==> 6 <= v@.len() <= 15 && forall|j: int|
                0 <= j < i ==> text::ascii_digit(#[trigger] v@[j]),
            !plausible ==> !is_mobile(mobile@),
        decreases v.len() - i,
    {
        if !('0' <= v[i] && v[i] <= '9') {
            proof {
                assert(!text::ascii_digit(digits_of(mobile@)[i as int]));
            }
            plausible = false;
        }
        i = i + 1;
    }
    if plausible {
        Ok(())
    } else {
        let mut m = "expected a mobile number like 12345678901, got '".to_owned();
        m.append(mobile);
        m.append("'");
        Err(m)
    }
}

/// `n` stars.
pub open spec fn stars(n: nat) -> Seq<char> {
    Seq::new(n, |i: int| '*')
}

/// A mobile number as it is shown.
pub open spec fn masked_mobile(mobile: Seq<char>) -> Seq<char> {
    if mobile.len() >= 7 {
        mobile.take(3) + "****"@ + mobile.skip(mobile.len() - 4)
    } else if mobile.len() == 0 {
        stars(1)
    } else {
        stars(mobile.len())
    }
}

/// `123****8901`: recognizable, but not usable to harvest the number.
pub fn mask_mobile(mobile: &str) -> (r: String)
    ensures
        r@ == masked_mobile(mobile@),
{
    let v = text::chars_of(mobile);
    let n = v.len();
    if n >= 7 {
        let mut s = text::part_of(&v, 0, 3);
        let tail = text::part_of(&v, n - 4, n);
        proof {
            assert(s@ =~= mobile@.take(3));
            assert(tail@ =~= mobile@.skip(mobile@.len() - 4));
        }
        s.append("****");
        s.append(tail.as_str());
        s
    } else {
        let count: usize = if n == 0 {
            1
        } else {
            n
        };
        let mut s = String::new();
        let mut i: usize = 0;
        while i < count
            invariant
                i <= count,
                s@ == stars(i as nat),
            decreases count - i,
        {
            s.push('*');
            proof {
                assert(s@ =~= stars((i + 1) as nat));
            }
            i = i + 1;
        }
        s
    }
}

// ---------------------------------------------------------------------- laws

/// A masked number shows the first three and the last four characters, and no
/// others: numbers of seven characters or more that agree on those look the
/// same, whatever their length.
pub proof fn mask_hides_the_middle(a: Seq<char>, b: Seq<char>)
    requires
        a.len() >= 7,
        b.len() >= 7,
        a.take(3) == b.take(3),
        a.skip(a.len() - 4) == b.skip(b.len() - 4),
    ensures
        masked_mobile(a) == masked_mobile(b),
{
}

/// A short number shows nothing but its length.
pub proof fn short_numbers_are_hidden(a: Seq<char>)
    requires
        a.len() < 7,
    ensures
        forall|i: int| 0 <= i < masked_mobile(a).len() ==> #[trigger] masked_mobile(a)[i] == '*',
{
}

/// A number is 6 to 15 digits and nothing else; a plus in front of them makes
/// no difference.
pub proof fn numbers_are_digits(digits: Seq<char>)
    requires
        digits.len() > 0,
        digits[0] != '+',
    ensures
        is_mobile(digits) <==> 6 <= digits.len() <= 15 && text::all_digits(digits),
        is_mobile(seq!['+'] + digits) <==> is_mobile(digits),
{
    reveal_strlit("+");
    let plus = seq!['+'] + digits;
    assert(plus.subrange(0, 1) =~= "+"@);
    assert(plus.skip(1) =~= digits);
    assert(digits.subrange(0, 1)[0] == digits[0]);
    assert("+"@[0] == '+');
}

/// A masked number of seven characters or more keeps its first three and its
/// last four, with four stars between them.
pub proof fn masks_keep_both_ends(mobile: Seq<char>)
    requires
        mobile.len() >= 7,
    ensures
        masked_mobile(mobile).len() == 11,
        masked_mobile(mobile).take(3) == mobile.take(3),
        masked_mobile(mobile).skip(7) == mobile.skip(mobile.len() - 4),
        forall|i: int| 3 <= i < 7 ==> #[trigger] masked_mobile(mobile)[i] == '*',
{
    reveal_strlit("****");
    let m = masked_mobile(mobile);
    assert(m.take(3) =~= mobile.take(3));
    assert(m.skip(7) =~= mobile.skip(mobile.len() - 4));
}

/// A short number is as many stars as it has characters, and one at least.
pub proof fn short_masks_keep_the_length(mobile: Seq<char>)
    requires
        mobile.len() < 7,
    ensures
        mobile.len() > 0 ==> masked_mobile(mobile).len() == mobile.len(),
        mobile.len() == 0 ==> masked_mobile(mobile).len() == 1,
{
}

} // verus!
