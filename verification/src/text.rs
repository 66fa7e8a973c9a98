//! Character-level helpers shared by the request parser and the bootstrapper.

use vstd::prelude::*;
use vstd::slice::slice_subrange;

verus! {

/// Characters with the Unicode property `White_Space`.
pub open spec fn is_whitespace(c: char) -> bool {
    let code = c as u32;
    ||| 0x09 <= code <= 0x0D
    ||| code == 0x20
    ||| code == 0x85
    ||| code == 0xA0
    ||| code == 0x1680
    ||| 0x2000 <= code <= 0x200A
    ||| code == 0x2028
    ||| code == 0x2029
    ||| code == 0x202F
    ||| code == 0x205F
    ||| code == 0x3000
}

/// Whether `needle` occurs in `hay` starting at position `at`.
pub open spec fn occurs_at(hay: Seq<char>, needle: Seq<char>, at: int) -> bool {
    &&& 0 <= at
    &&& at + needle.len() <= hay.len()
    &&& hay.subrange(at, at + needle.len()) == needle
}

/// Whether `needle` occurs somewhere in `hay`.
pub open spec fn contains_text(hay: Seq<char>, needle: Seq<char>) -> bool {
    exists|at: int| occurs_at(hay, needle, at)
}

/// The characters of `s`, in order.
pub fn chars_of(s: &str) -> (chars: Vec<char>)
    ensures
        chars@ == s@,
{
    let mut chars: Vec<char> = Vec::new();
    for c in it: s.chars()
        invariant
            it.seq() == s@,
            chars@ == it.seq().subrange(0, it.index()),
    {
        chars.push(c);
    }
    chars
}

/// Tells whether `c` is white space.
pub fn is_whitespace_char(c: char) -> (b: bool)
    ensures
        b == is_whitespace(c),
{
    let code: u32 = c as u32;
    (0x09 <= code && code <= 0x0D) || code == 0x20 || code == 0x85 || code == 0xA0 || code
        == 0x1680 || (0x2000 <= code && code <= 0x200A) || code == 0x2028 || code == 0x2029 || code
        == 0x202F || code == 0x205F || code == 0x3000
}

/// Tells whether two character slices hold the same text.
pub fn same_text(a: &[char], b: &[char]) -> (same: bool)
    ensures
        same == (a@ == b@),
{
    if a.len() != b.len() {
        return false;
    }
    let mut i: usize = 0;
    while i < a.len()
        invariant
            a.len() == b.len(),
            i <= a.len(),
            a@.subrange(0, i as int) == b@.subrange(0, i as int),
        decreases a.len() - i,
    {
        if a[i] != b[i] {
            return false;
        }
        assert(a@.subrange(0, i + 1) == a@.subrange(0, i as int).push(a@[i as int]));
        assert(b@.subrange(0, i + 1) == b@.subrange(0, i as int).push(b@[i as int]));
        i += 1;
    }
    assert(a@ == a@.subrange(0, i as int));
    assert(b@ == b@.subrange(0, i as int));
    true
}

/// Tells whether `text` begins with `prefix`.
pub fn has_prefix(text: &[char], prefix: &[char]) -> (found: bool)
    ensures
        found == prefix@.is_prefix_of(text@),
{
    if prefix.len() > text.len() {
        return false;
    }
    let mut i: usize = 0;
    while i < prefix.len()
        invariant
            prefix.len() <= text.len(),
            i <= prefix.len(),
            text@.subrange(0, i as int) == prefix@.subrange(0, i as int),
        decreases prefix.len() - i,
    {
        if text[i] != prefix[i] {
            assert(text@.subrange(0, prefix.len() as int)[i as int] != prefix@[i as int]);
            return false;
        }
        assert(text@.subrange(0, i + 1) == text@.subrange(0, i as int).push(text@[i as int]));
        assert(prefix@.subrange(0, i + 1) == prefix@.subrange(0, i as int).push(
            prefix@[i as int],
        ));
        i += 1;
    }
    assert(prefix@ == prefix@.subrange(0, i as int));
    true
}

/// Tells whether `needle` occurs somewhere in `hay`.
pub fn find_text(hay: &[char], needle: &[char]) -> (found: bool)
    ensures
        found == contains_text(hay@, needle@),
{
    if needle.len() > hay.len() {
        return false;
    }
    let last: usize = hay.len() - needle.len();
    let mut at: usize = 0;
    while at <= last
        invariant
            last == hay.len() - needle.len(),
            at <= last + 1,
            forall|before: int| 0 <= before < at ==> !occurs_at(hay@, needle@, before),
        decreases last + 1 - at,
    {
        let rest = slice_subrange(hay, at, hay.len());
        if has_prefix(rest, needle) {
            assert(rest@.subrange(0, needle.len() as int) == hay@.subrange(
                at as int,
                at + needle.len(),
            ));
            assert(occurs_at(hay@, needle@, at as int));
            return true;
        }
        assert(!occurs_at(hay@, needle@, at as int)) by {
            if occurs_at(hay@, needle@, at as int) {
                assert(rest@.subrange(0, needle.len() as int) == hay@.subrange(
                    at as int,
                    at + needle.len(),
                ));
            }
        }
        at += 1;
    }
    false
}

} // verus!
