//! Numbers, amounts and times as text.

use crate::clock::LocalTime;
use vstd::prelude::*;
use vstd::string::StringExecFns;
use vstd::string::StrSliceExecFns;

verus! {

/// The character of one decimal digit.
pub open spec fn digit_char(d: nat) -> char
    recommends
        d < 10,
{
    seq!['0', '1', '2', '3', '4', '5', '6', '7', '8', '9'][d as int]
}

/// A natural number in decimal, without leading zeros.
pub open spec fn decimal(n: nat) -> Seq<char>
    decreases n,
{
    if n < 10 {
        seq![digit_char(n)]
    } else {
        decimal(n / 10).push(digit_char(n % 10))
    }
}

/// `count` zeros in a row.
pub open spec fn zeros(count: nat) -> Seq<char> {
    Seq::new(count, |i: int| '0')
}

/// A natural number in decimal, filled with zeros on the left up to `width`
/// characters. A number that needs more keeps all its digits.
pub open spec fn padded(n: nat, width: nat) -> Seq<char> {
    let digits = decimal(n);
    if digits.len() >= width {
        digits
    } else {
        zeros((width - digits.len()) as nat) + digits
    }
}

/// The size of an integer, without its sign.
pub open spec fn magnitude(v: int) -> nat {
    if v < 0 {
        (-v) as nat
    } else {
        v as nat
    }
}

/// An integer in decimal, with a minus sign in front if it is negative.
pub open spec fn signed_decimal(v: int, width: nat) -> Seq<char> {
    if v < 0 {
        seq!['-'] + padded(magnitude(v), width)
    } else {
        padded(magnitude(v), width)
    }
}

/// An amount given in hundredths, with two places after the point: `1444`
/// reads `14.44`, `-5` reads `-0.05`.
pub open spec fn amount_text(hundredths: int) -> Seq<char> {
    let size = magnitude(hundredths);
    let sign = if hundredths < 0 {
        seq!['-']
    } else {
        Seq::<char>::empty()
    };
    sign + decimal(size / 100) + seq!['.'] + padded(size % 100, 2)
}

/// A clock reading as `YYYY-MM-DD HH:MM:SS`.
pub open spec fn timestamp_text(t: LocalTime) -> Seq<char> {
    signed_decimal(t.date.year as int, 4) + seq!['-'] + padded(t.date.month as nat, 2) + seq!['-']
        + padded(t.date.day as nat, 2) + seq![' '] + padded(t.hour as nat, 2) + seq![':'] + padded(
        t.minute as nat,
        2,
    ) + seq![':'] + padded(t.second as nat, 2)
}

/// The characters of each text in a list.
pub open spec fn text_views(texts: Seq<String>) -> Seq<Seq<char>> {
    texts.map_values(|t: String| t@)
}

/// The characters of each name and value in a list of pairs.
pub open spec fn pair_views(pairs: Seq<(String, String)>) -> Seq<(Seq<char>, Seq<char>)> {
    pairs.map_values(|p: (String, String)| (p.0@, p.1@))
}

/// Whether `text` ends with `suffix`.
pub open spec fn ends_with(text: Seq<char>, suffix: Seq<char>) -> bool {
    suffix.len() <= text.len() && text.subrange(text.len() - suffix.len(), text.len() as int)
        == suffix
}

/// The characters of a text, one by one.
pub fn chars_of(text: &str) -> (chars: Vec<char>)
    ensures
        chars@ == text@,
{
    let len = text.unicode_len();
    let mut chars: Vec<char> = Vec::new();
    let mut i: usize = 0;
    while i < len
        invariant
            len == text@.len(),
            i <= len,
            chars@ == text@.take(i as int),
        decreases len - i,
    {
        chars.push(text.get_char(i));
        i = i + 1;
    }
    chars
}

/// Decides whether two texts hold the same characters.
pub fn same_chars(left: &Vec<char>, right: &Vec<char>) -> (same: bool)
    ensures
        same == (left@ == right@),
{
    if left.len() != right.len() {
        return false;
    }
    let mut i: usize = 0;
    while i < left.len()
        invariant
            left.len() == right.len(),
            i <= left.len(),
            left@.take(i as int) == right@.take(i as int),
        decreases left.len() - i,
    {
        if left[i] != right[i] {
            return false;
        }
        i = i + 1;
    }
    assert(left@ =~= left@.take(left.len() as int));
    assert(right@ =~= right@.take(right.len() as int));
    true
}

/// Decides whether `text` ends with `suffix`.
pub fn has_suffix(text: &Vec<char>, suffix: &Vec<char>) -> (found: bool)
    ensures
        found == ends_with(text@, suffix@),
{
    if suffix.len() > text.len() {
        return false;
    }
    let start = text.len() - suffix.len();
    let ghost tail = text@.subrange(start as int, text.len() as int);
    let mut i: usize = 0;
    while i < suffix.len()
        invariant
            start + suffix.len() == text.len(),
            tail == text@.subrange(start as int, text.len() as int),
            i <= suffix.len(),
            tail.take(i as int) == suffix@.take(i as int),
        decreases suffix.len() - i,
    {
        if text[start + i] != suffix[i] {
            return false;
        }
        i = i + 1;
    }
    assert(tail =~= tail.take(suffix.len() as int));
    assert(suffix@ =~= suffix@.take(suffix.len() as int));
    true
}

/// The text of one decimal digit.
fn digit_str(d: u64) -> (s: &'static str)
    requires
        d < 10,
    ensures
        s@ == seq![digit_char(d as nat)],
{
    proof {
        reveal_strlit("0");
        reveal_strlit("1");
        reveal_strlit("2");
        reveal_strlit("3");
        reveal_strlit("4");
        reveal_strlit("5");
        reveal_strlit("6");
        reveal_strlit("7");
        reveal_strlit("8");
        reveal_strlit("9");
    }
    let s = if d == 0 {
        "0"
    } else if d == 1 {
        "1"
    } else if d == 2 {
        "2"
    } else if d == 3 {
        "3"
    } else if d == 4 {
        "4"
    } else if d == 5 {
        "5"
    } else if d == 6 {
        "6"
    } else if d == 7 {
        "7"
    } else if d == 8 {
        "8"
    } else {
        "9"
    };
    s
}

/// Appends `n` in decimal.
pub fn push_decimal(out: &mut String, n: u64)
    ensures
        final(out)@ == old(out)@ + decimal(n as nat),
    decreases n,
{
    if n >= 10 {
        push_decimal(out, n / 10);
    }
    out.append(digit_str(n % 10));
}

/// `n` in decimal.
pub fn decimal_string(n: u64) -> (s: String)
    ensures
        s@ == decimal(n as nat),
{
    let mut s = String::new();
    push_decimal(&mut s, n);
    s
}

/// Appends `n` in decimal, filled with zeros up to `width` characters.
pub fn push_padded(out: &mut String, n: u64, width: usize)
    ensures
        final(out)@ == old(out)@ + padded(n as nat, width as nat),
{
    let digits = decimal_string(n);
    let len = digits.as_str().unicode_len();
    let mut filled: usize = len;
    while filled < width
        invariant
            len == digits@.len(),
            len <= filled,
            filled <= width || filled == len,
            out@ == old(out)@ + zeros((filled - len) as nat),
        decreases width - filled,
    {
        out.append("0");
        proof {
            reveal_strlit("0");
        }
        filled = filled + 1;
    }
    out.append(digits.as_str());
}

/// The size of `v`, which always fits the unsigned type.
pub fn magnitude_of(v: i64) -> (size: u64)
    ensures
        size == magnitude(v as int),
{
    if v < 0 {
        let up: i64 = v + 1;
        let flipped: i64 = -up;
        flipped as u64 + 1
    } else {
        v as u64
    }
}

/// Appends `v` in decimal, its digits filled with zeros up to `width`.
pub fn push_signed(out: &mut String, v: i64, width: usize)
    ensures
        final(out)@ == old(out)@ + signed_decimal(v as int, width as nat),
{
    if v < 0 {
        out.append("-");
    }
    push_padded(out, magnitude_of(v), width);
    proof {
        reveal_strlit("-");
    }
}

/// Appends an amount given in hundredths, with two places after the point.
pub fn push_amount(out: &mut String, hundredths: i64)
    ensures
        final(out)@ == old(out)@ + amount_text(hundredths as int),
{
    let size = magnitude_of(hundredths);
    if hundredths < 0 {
        out.append("-");
    }
    push_decimal(out, size / 100);
    out.append(".");
    push_padded(out, size % 100, 2);
    proof {
        reveal_strlit("-");
        reveal_strlit(".");
    }
}

/// Appends a clock reading as `YYYY-MM-DD HH:MM:SS`.
pub fn push_timestamp(out: &mut String, t: &LocalTime)
    ensures
        final(out)@ == old(out)@ + timestamp_text(*t),
{
    push_signed(out, t.date.year as i64, 4);
    out.append("-");
    push_padded(out, t.date.month as u64, 2);
    out.append("-");
    push_padded(out, t.date.day as u64, 2);
    out.append(" ");
    push_padded(out, t.hour as u64, 2);
    out.append(":");
    push_padded(out, t.minute as u64, 2);
    out.append(":");
    push_padded(out, t.second as u64, 2);
    proof {
        reveal_strlit("-");
        reveal_strlit(" ");
        reveal_strlit(":");
    }
}

} // verus!
