//! Small operations on text.

use vstd::prelude::*;
use vstd::string::*;

verus! {

/// Whether two strings hold the same characters.
pub fn same_text(a: &str, b: &str) -> (same: bool)
    ensures
        same == (a@ == b@),
{
    broadcast use vstd::utf8::encode_utf8_decode_utf8;

    let left: &[u8] = a.as_bytes();
    let right: &[u8] = b.as_bytes();
    assert(vstd::utf8::decode_utf8(left@) == a@);
    assert(vstd::utf8::decode_utf8(right@) == b@);
    if left.len() != right.len() {
        return false;
    }
    let mut i: usize = 0;
    while i < left.len()
        invariant
            i <= left.len(),
            left.len() == right.len(),
            left@ == vstd::utf8::encode_utf8(a@),
            right@ == vstd::utf8::encode_utf8(b@),
            forall|k: int| 0 <= k < i ==> left[k] == right[k],
        decreases left.len() - i,
    {
        if left[i] != right[i] {
            return false;
        }
        i += 1;
    }
    assert(left@ =~= right@);
    true
}

/// The characters of a text that may be missing.
pub open spec fn opt_text(text: Option<String>) -> Option<Seq<char>> {
    match text {
        Some(text) => Some(text@),
        None => None,
    }
}

/// Whether two texts are both missing, or both there with the same characters.
pub fn same_opt_text(a: &Option<String>, b: &Option<String>) -> (same: bool)
    ensures
        same == (opt_text(*a) == opt_text(*b)),
{
    match (a, b) {
        (None, None) => true,
        (Some(a), Some(b)) => same_text(a.as_str(), b.as_str()),
        _ => false,
    }
}

/// Whether a text begins with another.
pub fn begins_with(text: &str, start: &str) -> (r: bool)
    ensures
        r == start@.is_prefix_of(text@),
{
    let n: usize = start.unicode_len();
    if text.unicode_len() < n {
        return false;
    }
    let mut i: usize = 0;
    while i < n
        invariant
            i <= n,
            n == start@.len(),
            n <= text@.len(),
            forall|k: int| 0 <= k < i ==> text@[k] == start@[k],
        decreases n - i,
    {
        if text.get_char(i) != start.get_char(i) {
            assert(text@.subrange(0, n as int)[i as int] != start@[i as int]);
            return false;
        }
        i += 1;
    }
    assert(text@.subrange(0, n as int) =~= start@);
    true
}

/// A text from its first character other than a given one.
pub open spec fn without_leading(text: Seq<char>, c: char) -> Seq<char>
    decreases text.len(),
{
    if text.len() > 0 && text[0] == c {
        without_leading(text.drop_first(), c)
    } else {
        text
    }
}

/// The part of a text from its first character other than a given one.
pub fn trim_leading(text: &str, c: char) -> (rest: &str)
    ensures
        rest@ == without_leading(text@, c),
{
    let n: usize = text.unicode_len();
    let mut i: usize = 0;
    assert(text@.skip(0) =~= text@);
    while i < n && text.get_char(i) == c
        invariant
            i <= n,
            n == text@.len(),
            without_leading(text@.skip(i as int), c) == without_leading(text@, c),
        decreases n - i,
    {
        assert(text@.skip(i as int).drop_first() =~= text@.skip(i + 1));
        i += 1;
    }
    assert(text@.skip(i as int) =~= text@.subrange(i as int, n as int));
    text.substring_char(i, n)
}

/// A decimal digit.
pub open spec fn digit(n: nat) -> char {
    ('0' as nat + n) as char
}

/// A number in decimal, without leading zeros.
pub open spec fn decimal(n: nat) -> Seq<char>
    decreases n,
{
    if n < 10 {
        seq![digit(n)]
    } else {
        decimal(n / 10).push(digit(n % 10))
    }
}

/// A number in decimal, with a sign where it is negative.
pub open spec fn signed_decimal(n: int) -> Seq<char> {
    if n < 0 {
        seq!['-'] + decimal((-n) as nat)
    } else {
        decimal(n as nat)
    }
}

fn digit_text(n: u64) -> (text: &'static str)
    requires
        n < 10,
    ensures
        text@ == seq![digit(n as nat)],
{
    proof {
        reveal_strlit("0");
        reveal_strlit("1");
        reveal_strlit("2");
        reveal_strlit("3");
        reveal_strlit("4");
        reveal_strlit("5");
        reveal_strlit("6");
        reveal_strlit("7");
        reveal_strlit("8");
        reveal_strlit("9");
    }
    let text: &'static str = match n {
        0 => "0",
        1 => "1",
        2 => "2",
        3 => "3",
        4 => "4",
        5 => "5",
        6 => "6",
        7 => "7",
        8 => "8",
        _ => "9",
    };
    assert(text@ =~= seq![digit(n as nat)]);
    text
}

/// A number in decimal.
pub fn decimal_text(n: u64) -> (text: String)
    ensures
        text@ == decimal(n as nat),
    decreases n,
{
    if n < 10 {
        digit_text(n).to_owned()
    } else {
        let mut text: String = decimal_text(n / 10);
        text.append(digit_text(n % 10));
        assert(text@ =~= decimal(n as nat));
        text
    }
}

/// A number in decimal, with a sign where it is negative.
pub fn signed_decimal_text(n: i64) -> (text: String)
    ensures
        text@ == signed_decimal(n as int),
{
    if n >= 0 {
        decimal_text(n as u64)
    } else {
        proof {
            reveal_strlit("-");
        }
        let mut text: String = "-".to_owned();
        let magnitude: u64 = (-(n + 1)) as u64 + 1;
        text.append(decimal_text(magnitude).as_str());
        assert(text@ =~= signed_decimal(n as int));
        text
    }
}

/// A text followed by another.
pub fn join(start: &str, end: &str) -> (text: String)
    ensures
        text@ == start@ + end@,
{
    let mut text: String = start.to_owned();
    text.append(end);
    text
}

/// The digits of a number, and what they stand for.
proof fn lemma_decimal(n: nat)
    ensures
        crate::trusted::plain_digits(decimal(n)),
        n > 0 ==> decimal(n)[0] != '0',
        crate::trusted::number_of(decimal(n)) == n,
    decreases n,
{
    let last = (n % 10) as nat;
    assert('0' as nat + last <= '9' as nat);
    if n < 10 {
        assert(decimal(n).drop_last() =~= Seq::empty());
        assert(crate::trusted::number_of(Seq::empty()) == 0);
    } else {
        lemma_decimal(n / 10);
        assert(decimal(n).drop_last() =~= decimal(n / 10));
        assert(decimal(n)[0] == decimal(n / 10)[0]);
    }
}

/// A number that was written in decimal is read back from it.
pub proof fn decimal_is_read_back(n: u32)
    ensures
        crate::trusted::json_u32(decimal(n as nat)) == Some(n),
{
    lemma_decimal(n as nat);
    let digits = decimal(n as nat);
    assert('0' <= digits[0] <= '9');
    assert('0' <= digits[digits.len() - 1] <= '9');
    assert(crate::trusted::trimmed(digits) == digits);
}

/// The decimal of a number has plain digits, and these stand for that number.
pub proof fn decimal_has_its_value(n: nat)
    ensures
        crate::trusted::plain_digits(decimal(n)),
        crate::trusted::number_of(decimal(n)) == n,
        signed_decimal(n as int) == decimal(n),
        n > 0 ==> signed_decimal(-n) == seq!['-'] + decimal(n),
{
    lemma_decimal(n);
}

/// What is left of a text without its leading characters follows nothing but these, and does
/// not begin with one.
pub proof fn only_leading_characters_are_dropped(text: Seq<char>, c: char)
    ensures
        ({
            let rest = without_leading(text, c);
            let dropped = text.len() - rest.len();
            &&& 0 <= dropped
            &&& rest == text.skip(dropped)
            &&& forall|i: int| 0 <= i < dropped ==> text[i] == c
            &&& rest.len() > 0 ==> rest[0] != c
        }),
    decreases text.len(),
{
    if text.len() > 0 && text[0] == c {
        let tail = text.drop_first();
        only_leading_characters_are_dropped(tail, c);
        let rest = without_leading(text, c);
        let dropped = text.len() - rest.len();
        assert(text.skip(dropped) =~= tail.skip(dropped - 1));
        assert forall|i: int| 0 <= i < dropped implies text[i] == c by {
            if i > 0 {
                assert(tail[i - 1] == text[i]);
            }
        }
    } else {
        assert(text.skip(0) =~= text);
    }
}

/// Texts that may be missing are compared as they are: both missing, or both there with the
/// same characters.
pub proof fn missing_texts_are_compared(a: Option<String>, b: Option<String>)
    ensures
        opt_text(a) == opt_text(b) <==> match (a, b) {
            (None, None) => true,
            (Some(a), Some(b)) => a@ == b@,
            _ => false,
        },
{
}

} // verus!
