//! Bringing text to lower case, trimming it, and searching one text in
//! another.

use vstd::prelude::*;

verus! {

/// `text` in lower case, as `str::to_lowercase` gives it: every character
/// replaced by its Unicode lower-case mapping.
pub uninterp spec fn lowercase_of(text: Seq<char>) -> Seq<char>;

/// True of the characters that count as white space: the characters with
/// the Unicode property `White_Space`.
pub open spec fn is_white_space(c: char) -> bool {
    let code = c as u32;
    (0x09 <= code <= 0x0D) || code == 0x20 || code == 0x85 || code == 0xA0 || code == 0x1680 || (
    0x2000 <= code <= 0x200A) || code == 0x2028 || code == 0x2029 || code == 0x202F || code
        == 0x205F || code == 0x3000
}

/// How many of the first `n` characters of `text`, counted from its start,
/// are an unbroken run of white space.
pub open spec fn leading_space(text: Seq<char>, n: int) -> int
    decreases n,
{
    if n <= 0 {
        0
    } else if leading_space(text, n - 1) == n - 1 && is_white_space(text[n - 1]) {
        n
    } else {
        leading_space(text, n - 1)
    }
}

/// Where the last character of `text[from..to]` that is no white space ends:
/// `from` when there is none.
pub open spec fn solid_end(text: Seq<char>, from: int, to: int) -> int
    decreases to - from,
{
    if to <= from {
        from
    } else if is_white_space(text[to - 1]) {
        solid_end(text, from, to - 1)
    } else {
        to
    }
}

/// `text` without the white space at its start and at its end.
pub open spec fn trimmed_of(text: Seq<char>) -> Seq<char> {
    let start = leading_space(text, text.len() as int);
    text.subrange(start, solid_end(text, start, text.len() as int))
}

/// True when `needle` stands somewhere in `hay` as a run of consecutive
/// characters.
pub open spec fn occurs_in(needle: Seq<char>, hay: Seq<char>) -> bool {
    exists|i: int| #[trigger] occurs_at(needle, hay, i)
}

/// Calls `str::to_lowercase`; the contract names the result
/// [`lowercase_of`].
#[verifier::external_body]
pub(crate) fn to_lowercase(text: &str) -> (r: String)
    ensures
        r@ == lowercase_of(text@),
{
    text.to_lowercase()
}

/// The characters of a text, one by one.
pub fn chars_of(text: &str) -> (chars: Vec<char>)
    ensures
        chars@ == text@,
{
    let mut chars: Vec<char> = Vec::new();
    for c in it: text.chars()
        invariant
            chars@ == it.seq().take(it.index() as int),
            it.seq() == text@,
    {
        chars.push(c);
        assert(chars@ =~= it.seq().take(it.index() + 1));
    }
    assert(chars@ =~= text@);
    chars
}

/// Whether `c` counts as white space.
pub fn is_whitespace(c: char) -> (r: bool)
    ensures
        r == is_white_space(c),
{
    let code: u32 = c as u32;
    (0x09 <= code && code <= 0x0D) || code == 0x20 || code == 0x85 || code == 0xA0 || code
        == 0x1680 || (0x2000 <= code && code <= 0x200A) || code == 0x2028 || code == 0x2029
        || code == 0x202F || code == 0x205F || code == 0x3000
}

/// `text` without the white space at its start and at its end.
pub fn trim(text: &str) -> (r: &str)
    ensures
        r@ == trimmed_of(text@),
{
    let chars = chars_of(text);
    let len: usize = chars.len();
    let mut start: usize = 0;
    while start < len && is_whitespace(chars[start])
        invariant
            start <= len,
            len == chars.len(),
            leading_space(chars@, start as int) == start,
        decreases len - start,
    {
        start = start + 1;
    }
    proof {
        lemma_leading_space_stops(chars@, start as int, len as int);
    }
    let mut end: usize = len;
    while end > start && is_whitespace(chars[end - 1])
        invariant
            start <= end <= len,
            len == chars.len(),
            solid_end(chars@, start as int, len as int) == solid_end(
                chars@,
                start as int,
                end as int,
            ),
        decreases end,
    {
        end = end - 1;
    }
    text.substring_char(start, end)
}

/// A run of leading white space that has come to its end stays at its end.
proof fn lemma_leading_space_stops(text: Seq<char>, stop: int, n: int)
    requires
        0 <= stop <= n <= text.len(),
        leading_space(text, stop) == stop,
        stop < text.len() ==> !is_white_space(text[stop]),
    ensures
        leading_space(text, n) == stop,
    decreases n - stop,
{
    if n > stop {
        lemma_leading_space_stops(text, stop, n - 1);
    }
}

/// True when `needle` stands in `hay` from place `at` on.
pub open spec fn occurs_at(needle: Seq<char>, hay: Seq<char>, at: int) -> bool {
    0 <= at && at + needle.len() <= hay.len() && hay.subrange(at, at + needle.len()) == needle
}

/// Whether `needle` stands in `hay` from place `at` on.
fn stands_at(hay: &Vec<char>, needle: &Vec<char>, at: usize) -> (r: bool)
    requires
        at + needle.len() <= hay.len(),
    ensures
        r == occurs_at(needle@, hay@, at as int),
{
    let mut k: usize = 0;
    while k < needle.len()
        invariant
            k <= needle.len(),
            at + needle.len() <= hay.len(),
            forall|j: int| 0 <= j < k ==> hay@[at + j] == needle@[j],
        decreases needle.len() - k,
    {
        if hay[at + k] != needle[k] {
            assert(hay@.subrange(at as int, at + needle.len())[k as int] != needle@[k as int]);
            return false;
        }
        k = k + 1;
    }
    assert(hay@.subrange(at as int, at + needle.len()) =~= needle@);
    true
}

/// Whether `needle` occurs somewhere in `hay`.
pub fn contains(hay: &str, needle: &str) -> (r: bool)
    ensures
        r == occurs_in(needle@, hay@),
{
    let hay_chars = chars_of(hay);
    let needle_chars = chars_of(needle);
    if needle_chars.len() == 0 {
        assert(occurs_at(needle@, hay@, 0)) by {
            assert(hay@.subrange(0, 0) =~= needle@);
        }
        return true;
    }
    if needle_chars.len() > hay_chars.len() {
        return false;
    }
    let last: usize = hay_chars.len() - needle_chars.len();
    let mut at: usize = 0;
    while at <= last
        invariant
            at <= last + 1,
            last == hay_chars.len() - needle_chars.len(),
            0 < needle_chars.len() <= hay_chars.len(),
            hay_chars@ == hay@,
            needle_chars@ == needle@,
            forall|i: int| 0 <= i < at ==> !occurs_at(needle@, hay@, i),
        decreases last + 1 - at,
    {
        if stands_at(&hay_chars, &needle_chars, at) {
            assert(occurs_at(needle@, hay@, at as int));
            return true;
        }
        at = at + 1;
    }
    false
}

} // verus!
