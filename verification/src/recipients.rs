//! The list of mail recipients: addresses separated by commas, with blanks
//! around them that do not count.

use crate::text::{chars_of, text_views};
use vstd::prelude::*;
use vstd::string::StrSliceExecFns;
use vstd::string::StringExecFns;

verus! {

/// A blank, a tab or a line break.
pub open spec fn is_blank(c: char) -> bool {
    c == ' ' || c == '\t' || c == '\n' || c == '\r'
}

/// A text without the blanks at its start.
pub open spec fn trim_start(text: Seq<char>) -> Seq<char>
    decreases text.len(),
{
    if text.len() > 0 && is_blank(text[0]) {
        trim_start(text.skip(1))
    } else {
        text
    }
}

/// A text without the blanks at its end.
pub open spec fn trim_end(text: Seq<char>) -> Seq<char>
    decreases text.len(),
{
    if text.len() > 0 && is_blank(text.last()) {
        trim_end(text.drop_last())
    } else {
        text
    }
}

/// A text without the blanks at either end.
pub open spec fn trimmed(text: Seq<char>) -> Seq<char> {
    trim_end(trim_start(text))
}

/// The number of characters before the first comma, or the length of the
/// text if it has none.
pub open spec fn field_len(text: Seq<char>) -> nat
    decreases text.len(),
{
    if text.len() == 0 || text[0] == ',' {
        0
    } else {
        1 + field_len(text.skip(1))
    }
}

/// The recipients in a list: what stands between the commas, trimmed, in
/// order, without the entries that are empty.
pub open spec fn recipients(list: Seq<char>) -> Seq<Seq<char>>
    decreases list.len(),
{
    let n = field_len(list);
    let first = trimmed(list.take(n as int));
    let rest = if n < list.len() {
        recipients(list.skip(n as int + 1))
    } else {
        Seq::<Seq<char>>::empty()
    };
    if first.len() > 0 {
        seq![first] + rest
    } else {
        rest
    }
}

/// A stretch without a comma that ends at a comma or at the end of the text
/// is the first field.
proof fn lemma_field_len_is(text: Seq<char>, n: int)
    requires
        0 <= n <= text.len(),
        forall|k: int| 0 <= k < n ==> text[k] != ',',
        n < text.len() ==> text[n] == ',',
    ensures
        field_len(text) == n,
    decreases text.len(),
{
    if n > 0 {
        lemma_field_len_is(text.skip(1), n - 1);
    }
}

/// Skipping blanks at the start does not change what trimming leaves.
proof fn lemma_trim_start_skips(text: Seq<char>, k: int)
    requires
        0 <= k <= text.len(),
        forall|i: int| 0 <= i < k ==> is_blank(text[i]),
    ensures
        trim_start(text) == trim_start(text.skip(k)),
    decreases k,
{
    if k == 0 {
        assert(text.skip(0) =~= text);
    } else {
        lemma_trim_start_skips(text.skip(1), k - 1);
        assert(text.skip(1).skip(k - 1) =~= text.skip(k));
    }
}

/// Dropping blanks at the end does not change what trimming leaves.
proof fn lemma_trim_end_drops(text: Seq<char>, m: int)
    requires
        0 <= m <= text.len(),
        forall|i: int| m <= i < text.len() ==> is_blank(text[i]),
    ensures
        trim_end(text) == trim_end(text.take(m)),
    decreases text.len() - m,
{
    if m == text.len() {
        assert(text.take(m) =~= text);
    } else {
        lemma_trim_end_drops(text.drop_last(), m);
        assert(text.drop_last().take(m) =~= text.take(m));
    }
}

/// Reads the recipients out of a list.
pub fn parse_recipients(list: &str) -> (found: Vec<String>)
    ensures
        text_views(found@) == recipients(list@),
{
    let chars = chars_of(list);
    let len = chars.len();
    let mut found: Vec<String> = Vec::new();
    let mut pos: usize = 0;
    let mut done = false;
    proof {
        assert(list@.skip(0) =~= list@);
    }
    while !done
        invariant
            chars@ == list@,
            len == chars.len(),
            pos <= len,
            !done ==> recipients(list@) == text_views(found@) + recipients(list@.skip(pos as int)),
            done ==> recipients(list@) == text_views(found@),
        decreases (if done { 0int } else { 1int }) + len - pos,
    {
        let ghost rest = list@.skip(pos as int);
        let mut end: usize = pos;
        while end < len && chars[end] != ','
            invariant
                chars@ == list@,
                len == chars.len(),
                pos <= end <= len,
                forall|k: int| pos <= k < end ==> list@[k] != ',',
            decreases len - end,
        {
            end = end + 1;
        }
        let mut start: usize = pos;
        while start < end && is_blank_char(chars[start])
            invariant
                chars@ == list@,
                len == chars.len(),
                pos <= start <= end <= len,
                forall|k: int| pos <= k < start ==> is_blank(list@[k]),
            decreases end - start,
        {
            start = start + 1;
        }
        let mut stop: usize = end;
        while stop > start && is_blank_char(chars[stop - 1])
            invariant
                chars@ == list@,
                len == chars.len(),
                start <= stop <= end <= len,
                forall|k: int| stop <= k < end ==> is_blank(list@[k]),
            decreases stop - start,
        {
            stop = stop - 1;
        }
        proof {
            let n = end - pos;
            lemma_field_len_is(rest, n);
            let field = rest.take(n);
            lemma_trim_start_skips(field, start - pos);
            let front = field.skip(start - pos);
            lemma_trim_end_drops(front, stop - start);
            assert(trimmed(field) == list@.subrange(start as int, stop as int));
            if end < len {
                assert(rest.skip(n + 1) =~= list@.skip(end + 1));
            }
        }
        if stop > start {
            let entry = String::from_str(list.substring_char(start, stop));
            found.push(entry);
        }
        if end < len {
            pos = end + 1;
        } else {
            pos = len;
            done = true;
        }
    }
    found
}

/// Decides whether a character is a blank, a tab or a line break.
pub fn is_blank_char(c: char) -> (blank: bool)
    ensures
        blank == is_blank(c),
{
    c == ' ' || c == '\t' || c == '\n' || c == '\r'
}

} // verus!
