//! Small verified operations on text, stated over sequences of characters.

use vstd::prelude::*;
use vstd::string::*;

verus! {

/// `needle` stands in `s` at position `i`.
pub open spec fn spec_occurs_at(s: Seq<char>, needle: Seq<char>, i: int) -> bool {
    0 <= i && i + needle.len() <= s.len() && s.subrange(i, i + needle.len()) == needle
}

/// `needle` stands somewhere in `s`.
pub open spec fn spec_contains(s: Seq<char>, needle: Seq<char>) -> bool {
    exists|i: int| spec_occurs_at(s, needle, i)
}

/// `suffix` is the tail of `s`.
pub open spec fn spec_ends_with(s: Seq<char>, suffix: Seq<char>) -> bool {
    spec_occurs_at(s, suffix, s.len() - suffix.len())
}

/// `s` without its last `n` characters (all of `s` is dropped when it is shorter).
pub open spec fn spec_without_tail(s: Seq<char>, n: nat) -> Seq<char> {
    if n <= s.len() {
        s.subrange(0, s.len() - n)
    } else {
        Seq::empty()
    }
}

/// The words of `words`, with `sep` between each two neighbours.
pub open spec fn spec_join(words: Seq<Seq<char>>, sep: Seq<char>) -> Seq<char>
    decreases words.len(),
{
    if words.len() == 0 {
        Seq::empty()
    } else if words.len() == 1 {
        words[0]
    } else {
        spec_join(words.drop_last(), sep) + sep + words.last()
    }
}

/// The characters of each text of `texts`.
pub open spec fn spec_texts(texts: Seq<String>) -> Seq<Seq<char>> {
    Seq::new(texts.len(), |i: int| texts[i]@)
}

/// The characters of `s`, one element each.
pub fn chars_of(s: &str) -> (v: Vec<char>)
    ensures
        v@ == s@,
{
    let n: usize = s.unicode_len();
    let mut v: Vec<char> = Vec::new();
    let mut i: usize = 0;
    while i < n
        invariant
            i <= n,
            n == s@.len(),
            v@ == s@.subrange(0, i as int),
        decreases n - i,
    {
        v.push(s.get_char(i));
        assert(v@ =~= s@.subrange(0, i + 1));
        i = i + 1;
    }
    assert(s@.subrange(0, n as int) =~= s@);
    v
}

fn chars_occur_at(s: &Vec<char>, needle: &Vec<char>, i: usize) -> (r: bool)
    requires
        i + needle.len() <= s.len(),
    ensures
        r == spec_occurs_at(s@, needle@, i as int),
{
    let n: usize = needle.len();
    let mut j: usize = 0;
    while j < n
        invariant
            j <= n,
            n == needle.len(),
            i + n <= s.len(),
            forall|k: int| 0 <= k < j ==> s@[i + k] == needle@[k],
        decreases n - j,
    {
        if s[i + j] != needle[j] {
            assert(s@.subrange(i as int, i + n)[j as int] == s@[i + j]);
            return false;
        }
        j = j + 1;
    }
    assert(s@.subrange(i as int, i + n) =~= needle@);
    true
}

/// Whether the two texts hold the same characters.
pub fn same_text(a: &str, b: &str) -> (r: bool)
    ensures
        r == (a@ == b@),
{
    let x = chars_of(a);
    let y = chars_of(b);
    if x.len() != y.len() {
        return false;
    }
    let r = chars_occur_at(&x, &y, 0);
    assert(x@.subrange(0, y@.len() as int) =~= x@);
    r
}

/// Whether `s` ends in `suffix`.
pub fn ends_with(s: &str, suffix: &str) -> (r: bool)
    ensures
        r == spec_ends_with(s@, suffix@),
{
    let x = chars_of(s);
    let y = chars_of(suffix);
    if y.len() > x.len() {
        return false;
    }
    chars_occur_at(&x, &y, x.len() - y.len())
}

/// Whether `needle` stands somewhere in `s`.
pub fn contains(s: &str, needle: &str) -> (r: bool)
    ensures
        r == spec_contains(s@, needle@),
{
    let x = chars_of(s);
    let y = chars_of(needle);
    if y.len() > x.len() {
        return false;
    }
    let last: usize = x.len() - y.len();
    let mut i: usize = 0;
    while i < last
        invariant
            i <= last,
            last + y.len() == x.len(),
            x@ == s@,
            y@ == needle@,
            forall|k: int| 0 <= k < i ==> !spec_occurs_at(x@, y@, k),
        decreases last - i,
    {
        if chars_occur_at(&x, &y, i) {
            return true;
        }
        i = i + 1;
    }
    chars_occur_at(&x, &y, last)
}

/// `s` without its last `n` characters.
pub fn without_tail(s: &str, n: usize) -> (r: String)
    ensures
        r@ == spec_without_tail(s@, n as nat),
{
    let len: usize = s.unicode_len();
    if n <= len {
        s.substring_char(0, len - n).to_owned()
    } else {
        String::new()
    }
}

/// `a` followed by `b`.
pub fn chain(a: &str, b: &str) -> (r: String)
    ensures
        r@ == a@ + b@,
{
    let mut r = a.to_owned();
    r.append(b);
    r
}

/// `a`, `b` and `c` in a row.
pub fn chain3(a: &str, b: &str, c: &str) -> (r: String)
    ensures
        r@ == a@ + b@ + c@,
{
    let mut r = a.to_owned();
    r.append(b);
    r.append(c);
    r
}

/// A copy of `texts`.
pub fn copy_texts(texts: &Vec<String>) -> (r: Vec<String>)
    ensures
        r@ == texts@,
{
    let mut r: Vec<String> = Vec::new();
    let mut i: usize = 0;
    while i < texts.len()
        invariant
            i <= texts.len(),
            r@ == texts@.subrange(0, i as int),
        decreases texts.len() - i,
    {
        r.push(texts[i].clone());
        assert(r@ =~= texts@.subrange(0, i + 1));
        i = i + 1;
    }
    assert(texts@.subrange(0, texts@.len() as int) =~= texts@);
    r
}

/// Pushing a text onto a list pushes its characters onto the list's characters.
pub proof fn lemma_texts_push(texts: Seq<String>, last: String)
    ensures
        spec_texts(texts.push(last)) == spec_texts(texts).push(last@),
{
    assert(spec_texts(texts.push(last)) =~= spec_texts(texts).push(last@));
}

/// The words of `words` in a row, with `sep` between each two neighbours.
pub fn join(words: &Vec<String>, sep: &str) -> (r: String)
    ensures
        r@ == spec_join(spec_texts(words@), sep@),
{
    let mut r = String::new();
    let mut i: usize = 0;
    while i < words.len()
        invariant
            i <= words.len(),
            r@ == spec_join(spec_texts(words@).subrange(0, i as int), sep@),
        decreases words.len() - i,
    {
        let ghost before = spec_texts(words@).subrange(0, i as int);
        let ghost after = spec_texts(words@).subrange(0, i + 1);
        assert(after.drop_last() =~= before);
        assert(after.last() == words@[i as int]@);
        if i > 0 {
            r.append(sep);
        }
        r.append(words[i].as_str());
        assert(r@ == spec_join(after, sep@)) by {
            if i == 0 {
                assert(before.len() == 0);
                assert(Seq::<char>::empty() + words@[0]@ =~= words@[0]@);
            }
        }
        i = i + 1;
    }
    assert(spec_texts(words@).subrange(0, words@.len() as int) =~= spec_texts(words@));
    r
}

} // verus!
