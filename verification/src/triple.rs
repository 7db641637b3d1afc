//! The parts of a target triple, as far as the compiler probe depends on them.

use vstd::prelude::*;
use vstd::string::*;
use crate::text::{chars_of, contains, spec_contains};

verus! {

/// The place of the first hyphen of `s` at or after `from`, or the length of `s` where there
/// is none.
pub open spec fn spec_next_dash(s: Seq<char>, from: int) -> int
    decreases s.len() - from,
{
    if from < 0 || from >= s.len() {
        s.len() as int
    } else if s[from] == '-' {
        from
    } else {
        spec_next_dash(s, from + 1)
    }
}

/// Whether the characters of `s` from `from` up to `to` spell `word`.
pub open spec fn spec_range_is(s: Seq<char>, from: int, to: int, word: Seq<char>) -> bool {
    0 <= from <= to <= s.len() && s.subrange(from, to) == word
}

/// Whether `os` is a system of Apple that the compiler probe knows.
pub open spec fn spec_apple_system(os: Seq<char>) -> bool {
    os == "darwin"@ || os == "macos"@ || os == "ios"@ || os == "tvos"@ || os == "watchos"@ || os
        == "visionos"@
}

/// Whether the triple has the shape of a target of Apple that the compiler probe knows: its
/// second part is `apple` and its third part names a system of Apple.
pub open spec fn spec_apple_shape(target: Seq<char>) -> bool {
    let first = spec_next_dash(target, 0);
    let second = spec_next_dash(target, first + 1);
    let third = spec_next_dash(target, second + 1);
    first < target.len() && second < target.len() && target.subrange(first + 1, second)
        == "apple"@ && spec_apple_system(target.subrange(second + 1, third))
}

/// Whether the compiler probe can take the target. The probe treats a target as one of Apple
/// where its vendor is `apple` or its environment is `macabi`, and then knows no other systems
/// than those of Apple. So a triple that holds `apple` or `macabi` anywhere is taken only in
/// the shape of [`spec_apple_shape`]. An empty triple is not taken.
pub open spec fn spec_probe_takes(target: Seq<char>) -> bool {
    target.len() > 0 && (spec_apple_shape(target) || (!spec_contains(target, "apple"@)
        && !spec_contains(target, "macabi"@)))
}

/// The place of the first hyphen of `chars` at or after `from`, or their number where there
/// is none.
pub fn next_dash(chars: &Vec<char>, from: usize) -> (r: usize)
    ensures
        r == spec_next_dash(chars@, from as int),
        from <= chars.len() ==> from <= r <= chars.len(),
{
    let n: usize = chars.len();
    if from >= n {
        return n;
    }
    let mut i: usize = from;
    while i < n
        invariant
            from <= i <= n,
            n == chars.len(),
            spec_next_dash(chars@, from as int) == spec_next_dash(chars@, i as int),
        decreases n - i,
    {
        if chars[i] == '-' {
            return i;
        }
        i = i + 1;
    }
    n
}

/// Whether the characters of `chars` from `from` up to `to` spell `word`.
pub fn range_is(chars: &Vec<char>, from: usize, to: usize, word: &str) -> (r: bool)
    ensures
        r == spec_range_is(chars@, from as int, to as int, word@),
{
    if from > to || to > chars.len() {
        return false;
    }
    let spelled = chars_of(word);
    if spelled.len() != to - from {
        assert(chars@.subrange(from as int, to as int).len() != word@.len());
        return false;
    }
    let mut i: usize = 0;
    while i < spelled.len()
        invariant
            i <= spelled.len(),
            spelled@ == word@,
            spelled.len() == to - from,
            to <= chars.len(),
            forall|k: int| 0 <= k < i ==> chars@[from + k] == spelled@[k],
        decreases spelled.len() - i,
    {
        if chars[from + i] != spelled[i] {
            assert(chars@.subrange(from as int, to as int)[i as int] == chars@[from + i]);
            return false;
        }
        i = i + 1;
    }
    assert(chars@.subrange(from as int, to as int) =~= word@);
    true
}

/// Whether the triple has the shape of a target of Apple that the compiler probe knows.
pub fn apple_shape(target: &str) -> (r: bool)
    ensures
        r == spec_apple_shape(target@),
{
    let chars = chars_of(target);
    let n: usize = chars.len();
    let first = next_dash(&chars, 0);
    if first >= n {
        return false;
    }
    let second = next_dash(&chars, first + 1);
    if second >= n {
        return false;
    }
    if !range_is(&chars, first + 1, second, "apple") {
        return false;
    }
    let third = next_dash(&chars, second + 1);
    range_is(&chars, second + 1, third, "darwin") || range_is(&chars, second + 1, third, "macos")
        || range_is(&chars, second + 1, third, "ios") || range_is(&chars, second + 1, third, "tvos")
        || range_is(&chars, second + 1, third, "watchos") || range_is(
        &chars,
        second + 1,
        third,
        "visionos",
    )
}

/// Whether the compiler probe can take the target `target`.
pub fn probe_takes(target: &str) -> (r: bool)
    ensures
        r == spec_probe_takes(target@),
{
    if target.unicode_len() == 0 {
        return false;
    }
    apple_shape(target) || (!contains(target, "apple") && !contains(target, "macabi"))
}

} // verus!
