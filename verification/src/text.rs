//! Character-level helpers on lines of text: the characters of a string,
//! and the search for one text inside another.

use vstd::prelude::*;

verus! {

/// `needle` stands in `hay` at position `at`.
pub open spec fn occurs_at(hay: Seq<char>, needle: Seq<char>, at: int) -> bool {
    &&& 0 <= at
    &&& at + needle.len() <= hay.len()
    &&& hay.subrange(at, at + needle.len()) == needle
}

/// `needle` stands somewhere in `hay`.
pub open spec fn contains_text(hay: Seq<char>, needle: Seq<char>) -> bool {
    exists|at: int| occurs_at(hay, needle, at)
}

/// Each of `texts` stands somewhere in `hay`.
pub open spec fn all_within(hay: Seq<char>, texts: Seq<Seq<char>>) -> bool {
    forall|i: int| 0 <= i < texts.len() ==> contains_text(hay, #[trigger] texts[i])
}

/// Position `at` decides that `a` comes before `b` in lexicographic order:
/// up to there the two agree, and there `a` ends while `b` goes on, or `a`
/// has the smaller character.
pub open spec fn decides_order_at(a: Seq<char>, b: Seq<char>, at: int) -> bool {
    &&& 0 <= at <= a.len()
    &&& at < b.len()
    &&& forall|i: int| 0 <= i < at ==> a[i] == b[i]
    &&& at < a.len() ==> (a[at] as u32) < (b[at] as u32)
}

/// `a` comes strictly before `b` in the lexicographic order of strings.
pub open spec fn precedes(a: Seq<char>, b: Seq<char>) -> bool {
    exists|at: int| decides_order_at(a, b, at)
}

/// The lexicographic order is transitive.
pub proof fn lemma_precedes_is_transitive(a: Seq<char>, b: Seq<char>, c: Seq<char>)
    requires
        precedes(a, b),
        precedes(b, c),
    ensures
        precedes(a, c),
{
    let k1 = choose|at: int| decides_order_at(a, b, at);
    let k2 = choose|at: int| decides_order_at(b, c, at);
    if k1 <= k2 {
        assert(decides_order_at(a, c, k1));
    } else {
        assert(decides_order_at(a, c, k2));
    }
}

/// Whether a character has Unicode's White_Space property, as
/// `char::is_whitespace` reports it.
pub uninterp spec fn char_is_whitespace(c: char) -> bool;

/// Whether a character has Unicode's Uppercase property, as
/// `char::is_uppercase` reports it.
pub uninterp spec fn char_is_uppercase(c: char) -> bool;

/// Whether a character is a control code: Unicode's general category Cc,
/// which is U+0000 to U+001F and U+007F to U+009F.
pub open spec fn char_is_control(c: char) -> bool {
    c as u32 <= 0x1f || 0x7f <= c as u32 <= 0x9f
}

/// Calls `char::is_whitespace`. Trusted: the result is the White_Space
/// property of the character, which this library names and does not define.
#[verifier::external_body]
pub(crate) fn is_whitespace(c: char) -> (r: bool)
    ensures
        r == char_is_whitespace(c),
{
    c.is_whitespace()
}

/// Calls `char::is_uppercase`. Trusted: the result is the Uppercase property
/// of the character, which this library names and does not define.
#[verifier::external_body]
pub(crate) fn is_uppercase(c: char) -> (r: bool)
    ensures
        r == char_is_uppercase(c),
{
    c.is_uppercase()
}

/// Whether a character is a control code.
pub fn is_control(c: char) -> (r: bool)
    ensures
        r == char_is_control(c),
{
    c <= '\u{1f}' || ('\u{7f}' <= c && c <= '\u{9f}')
}

/// The characters of a string, in order.
pub fn chars_of(s: &str) -> (r: Vec<char>)
    ensures
        r@ == s@,
{
    let mut r: Vec<char> = Vec::new();
    for c in it: s.chars()
        invariant
            it.seq() == s@,
            r@ == s@.take(it.index() as int),
    {
        r.push(c);
    }
    r
}

/// Whether `needle` stands in `hay` at position `at`.
pub fn matches_at(hay: &Vec<char>, needle: &Vec<char>, at: usize) -> (r: bool)
    ensures
        r == occurs_at(hay@, needle@, at as int),
{
    if needle.len() > hay.len() || at > hay.len() - needle.len() {
        return false;
    }
    let mut k: usize = 0;
    while k < needle.len()
        invariant
            k <= needle.len(),
            at + needle.len() <= hay.len(),
            forall|j: int| 0 <= j < k ==> hay@[at + j] == needle@[j],
        decreases needle.len() - k,
    {
        if hay[at + k] != needle[k] {
            assert(hay@.subrange(at as int, at + needle.len())[k as int] == hay@[at + k]);
            return false;
        }
        k += 1;
    }
    assert(hay@.subrange(at as int, at + needle.len()) =~= needle@);
    true
}

/// Whether `needle` stands somewhere in `hay`.
pub fn contains(hay: &Vec<char>, needle: &Vec<char>) -> (r: bool)
    ensures
        r == contains_text(hay@, needle@),
{
    if needle.len() > hay.len() {
        return false;
    }
    let last: usize = hay.len() - needle.len();
    let mut at: usize = 0;
    loop
        invariant
            at <= last,
            last == hay.len() - needle.len(),
            forall|j: int| 0 <= j < at ==> !occurs_at(hay@, needle@, j),
        decreases last - at,
    {
        if matches_at(hay, needle, at) {
            return true;
        }
        if at == last {
            return false;
        }
        at += 1;
    }
}

/// Whether the text `needle` stands somewhere in the characters `hay`.
pub fn contains_str(hay: &Vec<char>, needle: &str) -> (r: bool)
    ensures
        r == contains_text(hay@, needle@),
{
    let n = chars_of(needle);
    contains(hay, &n)
}

} // verus!
