//! Deletion confirmation gate: the re-entered text must name the key again.

use vstd::prelude::*;
use vstd::string::StrSliceExecFns;

verus! {

/// The characters that trimming removes: those with the Unicode property
/// `White_Space`.
pub open spec fn is_white_space(c: char) -> bool {
    let code = c as u32;
    ||| 0x09 <= code <= 0x0d
    ||| code == 0x20
    ||| code == 0x85
    ||| code == 0xa0
    ||| code == 0x1680
    ||| 0x2000 <= code <= 0x200a
    ||| code == 0x2028
    ||| code == 0x2029
    ||| code == 0x202f
    ||| code == 0x205f
    ||| code == 0x3000
}

/// `text` without its leading white space.
pub open spec fn trim_start(text: Seq<char>) -> Seq<char>
    decreases text.len(),
{
    if text.len() > 0 && is_white_space(text.first()) {
        trim_start(text.drop_first())
    } else {
        text
    }
}

/// `text` without its trailing white space.
pub open spec fn trim_end(text: Seq<char>) -> Seq<char>
    decreases text.len(),
{
    if text.len() > 0 && is_white_space(text.last()) {
        trim_end(text.drop_last())
    } else {
        text
    }
}

/// `text` without leading and trailing white space.
pub open spec fn trimmed(text: Seq<char>) -> Seq<char> {
    trim_end(trim_start(text))
}

/// Whether re-entered text confirms the deletion of `name`: trimmed, it is not
/// empty and equals the name character for character.
pub open spec fn confirms(name: Seq<char>, input: Seq<char>) -> bool {
    trimmed(input).len() > 0 && trimmed(input) == name
}

/// Decides whether a character has the property `White_Space`.
pub fn has_white_space_property(c: char) -> (white: bool)
    ensures
        white == is_white_space(c),
{
    let code: u32 = c as u32;
    (0x09 <= code && code <= 0x0d) || code == 0x20 || code == 0x85 || code == 0xa0 || code
        == 0x1680 || (0x2000 <= code && code <= 0x200a) || code == 0x2028 || code == 0x2029
        || code == 0x202f || code == 0x205f || code == 0x3000
}

/// Leading white space ends at `k`: trimming the start drops exactly `k` characters.
pub proof fn lemma_trim_start_at(text: Seq<char>, k: int)
    requires
        0 <= k <= text.len(),
        forall|i: int| 0 <= i < k ==> is_white_space(text[i]),
        k == text.len() || !is_white_space(text[k]),
    ensures
        trim_start(text) == text.skip(k),
    decreases k,
{
    if k > 0 {
        lemma_trim_start_at(text.drop_first(), k - 1);
    }
}

/// Trailing white space starts at `k`: trimming the end keeps exactly `k` characters.
pub proof fn lemma_trim_end_at(text: Seq<char>, k: int)
    requires
        0 <= k <= text.len(),
        forall|i: int| k <= i < text.len() ==> is_white_space(text[i]),
        k == 0 || !is_white_space(text[k - 1]),
    ensures
        trim_end(text) == text.take(k),
    decreases text.len() - k,
{
    if k < text.len() {
        lemma_trim_end_at(text.drop_last(), k);
    }
}

/// `text` without leading and trailing white space.
pub fn trim(text: &str) -> (kept: &str)
    ensures
        kept@ == trimmed(text@),
{
    // The counters below stay within the number of characters, which fits.
    let len = text.unicode_len();
    let mut start: usize = 0;
    let mut end: usize = 0;
    let mut idx: usize = 0;
    for c in it: text.chars()
        invariant
            it.seq() == text@,
            len == text@.len(),
            idx == it.index(),
            start <= end <= idx,
            forall|i: int| 0 <= i < start ==> is_white_space(text@[i]),
            forall|i: int| end <= i < idx ==> is_white_space(text@[i]),
            start == end ==> start == idx,
            start < end ==> !is_white_space(text@[start as int]) && !is_white_space(
                text@[end - 1],
            ),
    {
        if has_white_space_property(c) {
            if start == end {
                start = idx + 1;
                end = idx + 1;
            }
        } else {
            end = idx + 1;
        }
        idx = idx + 1;
    }
    proof {
        lemma_trim_start_at(text@, start as int);
        lemma_trim_end_at(text@.skip(start as int), end - start);
    }
    text.substring_char(start, end)
}

/// Decides whether the re-entered `input` confirms the deletion of `name`.
/// Empty or blank input, as after a closed input stream, never confirms.
pub fn confirmation_matches(name: &str, input: &str) -> (confirmed: bool)
    ensures
        confirmed == confirms(name@, input@),
{
    let kept = trim(input);
    if kept.is_empty() {
        false
    } else {
        kept.to_owned() == name.to_owned()
    }
}

} // verus!
