//! Character-level helpers shared by the parsers: whitespace, searching and
//! trimming, stated over sequences of characters.

use vstd::prelude::*;
use vstd::std_specs::iter::IteratorSpec;

verus! {

/// Whether `c` has the Unicode property `White_Space`.
pub open spec fn is_space(c: char) -> bool {
    ||| '\u{9}' <= c <= '\u{d}'
    ||| c == ' '
    ||| c == '\u{85}'
    ||| c == '\u{a0}'
    ||| c == '\u{1680}'
    ||| '\u{2000}' <= c <= '\u{200a}'
    ||| c == '\u{2028}'
    ||| c == '\u{2029}'
    ||| c == '\u{202f}'
    ||| c == '\u{205f}'
    ||| c == '\u{3000}'
}

/// Tests a character for the Unicode property `White_Space`.
pub fn is_whitespace(c: char) -> (space: bool)
    ensures
        space == is_space(c),
{
    ('\u{9}' <= c && c <= '\u{d}') || c == ' ' || c == '\u{85}' || c == '\u{a0}' || c == '\u{1680}'
        || ('\u{2000}' <= c && c <= '\u{200a}') || c == '\u{2028}' || c == '\u{2029}' || c
        == '\u{202f}' || c == '\u{205f}' || c == '\u{3000}'
}

/// The characters of `text`, in order.
pub fn chars_of(text: &str) -> (chars: Vec<char>)
    ensures
        chars@ == text@,
{
    broadcast use vstd::string::group_string_axioms;

    let mut chars: Vec<char> = Vec::new();
    let mut rest = text.chars();
    loop
        invariant
            chars@ + rest.remaining() == text@,
            rest.decrease() is Some,
        decreases rest.decrease()->0,
    {
        let ghost before = rest.remaining();
        match rest.next() {
            Some(c) => {
                assert(chars@.push(c) + before.drop_first() =~= chars@ + before);
                chars.push(c);
            },
            None => {
                assert(chars@ =~= text@);
                return chars;
            },
        }
    }
}

/// `String::push` of the standard library appends one character to the end
/// of the string and leaves what was there in place.
pub assume_specification[ String::push ](text: &mut String, ch: char)
    ensures
        final(text)@ == old(text)@.push(ch),
;

/// The characters of `chars` from index `from` up to, not including, `to`,
/// as an owned string.
pub fn string_of(chars: &Vec<char>, from: usize, to: usize) -> (text: String)
    requires
        from <= to <= chars@.len(),
    ensures
        text@ == chars@.subrange(from as int, to as int),
{
    let mut text = String::new();
    let mut at: usize = from;
    while at < to
        invariant
            from <= at <= to <= chars@.len(),
            text@ == chars@.subrange(from as int, at as int),
        decreases to - at,
    {
        assert(chars@.subrange(from as int, at as int).push(chars@[at as int])
            =~= chars@.subrange(from as int, at + 1));
        text.push(chars[at]);
        at += 1;
    }
    text
}

/// The index of the first occurrence of `c` in `s`, or the length of `s`
/// when `c` does not occur.
pub open spec fn position_of(s: Seq<char>, c: char) -> int
    decreases s.len(),
{
    if s.len() == 0 || s[0] == c {
        0
    } else {
        1 + position_of(s.drop_first(), c)
    }
}

/// `position_of` is the one index below which `c` does not occur and at
/// which either `c` stands or the sequence ends.
pub proof fn lemma_position_of(s: Seq<char>, c: char, n: int)
    requires
        0 <= n <= s.len(),
        forall|k: int| 0 <= k < n ==> s[k] != c,
        n == s.len() || s[n] == c,
    ensures
        position_of(s, c) == n,
    decreases s.len(),
{
    if n > 0 {
        let rest = s.drop_first();
        assert forall|k: int| 0 <= k < n - 1 implies rest[k] != c by {
            assert(rest[k] == s[k + 1]);
        }
        lemma_position_of(rest, c, n - 1);
    }
}

/// `position_of` stays within the sequence, finds `c` when it stops short
/// of the end, and passes over no occurrence of `c`.
pub proof fn lemma_position_of_bounds(s: Seq<char>, c: char)
    ensures
        0 <= position_of(s, c) <= s.len(),
        position_of(s, c) < s.len() ==> s[position_of(s, c)] == c,
        forall|k: int| 0 <= k < position_of(s, c) ==> s[k] != c,
        position_of(s, c) == s.len() <==> !s.contains(c),
    decreases s.len(),
{
    if s.len() == 0 || s[0] == c {
        if s.len() > 0 {
            assert(s.contains(c));
        }
    } else {
        let rest = s.drop_first();
        lemma_position_of_bounds(rest, c);
        let n = position_of(rest, c);
        assert forall|k: int| 0 <= k < n + 1 implies s[k] != c by {
            if k > 0 {
                assert(rest[k - 1] == s[k]);
            }
        }
        if n < rest.len() {
            assert(rest[n] == s[n + 1]);
            assert(s.contains(c));
        } else {
            if s.contains(c) {
                let i = choose|i: int| 0 <= i < s.len() && s[i] == c;
                assert(rest[i - 1] == s[i]);
                assert(rest.contains(c));
            }
        }
    }
}

/// Finds the first occurrence of `c` in `chars[from..to]`; the result is an
/// index into `chars`, and is `to` when `c` does not occur there.
pub fn find_char(chars: &Vec<char>, from: usize, to: usize, c: char) -> (at: usize)
    requires
        from <= to <= chars@.len(),
    ensures
        from <= at <= to,
        at - from == position_of(chars@.subrange(from as int, to as int), c),
{
    let mut at: usize = from;
    while at < to && chars[at] != c
        invariant
            from <= at <= to <= chars@.len(),
            forall|k: int| from <= k < at ==> chars@[k] != c,
        decreases to - at,
    {
        at += 1;
    }
    proof {
        lemma_position_of(chars@.subrange(from as int, to as int), c, at - from);
    }
    at
}

/// `s` without its leading whitespace.
pub open spec fn trim_start(s: Seq<char>) -> Seq<char>
    decreases s.len(),
{
    if s.len() > 0 && is_space(s[0]) {
        trim_start(s.drop_first())
    } else {
        s
    }
}

/// `s` without its trailing whitespace.
pub open spec fn trim_end(s: Seq<char>) -> Seq<char>
    decreases s.len(),
{
    if s.len() > 0 && is_space(s.last()) {
        trim_end(s.drop_last())
    } else {
        s
    }
}

/// `s` without leading and trailing whitespace.
pub open spec fn trim(s: Seq<char>) -> Seq<char> {
    trim_end(trim_start(s))
}

/// Trimming only takes characters away: whatever occurs in `trim(s)` occurs
/// in `s`, and what is left neither starts nor ends with whitespace.
pub proof fn lemma_trim(s: Seq<char>)
    ensures
        forall|c: char| trim(s).contains(c) ==> s.contains(c),
        trim(s).len() <= s.len(),
        trim(s).len() > 0 ==> !is_space(trim(s)[0]) && !is_space(trim(s).last()),
{
    lemma_trim_start(s);
    lemma_trim_end(trim_start(s));
}

proof fn lemma_trim_start(s: Seq<char>)
    ensures
        forall|c: char| trim_start(s).contains(c) ==> s.contains(c),
        trim_start(s).len() <= s.len(),
        trim_start(s).len() > 0 ==> !is_space(trim_start(s)[0]),
    decreases s.len(),
{
    if s.len() > 0 && is_space(s[0]) {
        let rest = s.drop_first();
        lemma_trim_start(rest);
        assert(trim_start(s) == trim_start(rest));
        assert forall|c: char| trim_start(s).contains(c) implies s.contains(c) by {
            assert(rest.contains(c));
            let i = choose|i: int| 0 <= i < rest.len() && rest[i] == c;
            assert(s[i + 1] == c);
        }
    }
}

proof fn lemma_trim_end(s: Seq<char>)
    ensures
        forall|c: char| trim_end(s).contains(c) ==> s.contains(c),
        trim_end(s).len() <= s.len(),
        trim_end(s).len() > 0 ==> trim_end(s)[0] == s[0] && !is_space(trim_end(s).last()),
    decreases s.len(),
{
    if s.len() > 0 && is_space(s.last()) {
        let rest = s.drop_last();
        lemma_trim_end(rest);
        assert(trim_end(s) == trim_end(rest));
        assert forall|c: char| trim_end(s).contains(c) implies s.contains(c) by {
            assert(rest.contains(c));
            let i = choose|i: int| 0 <= i < rest.len() && rest[i] == c;
            assert(s[i] == c);
        }
        if trim_end(s).len() > 0 {
            assert(rest.len() > 0);
            assert(rest[0] == s[0]);
        }
    }
}

/// Trims `chars[from..to]`: returns the bounds, as indices into `chars`, of
/// what is left once leading and trailing whitespace is taken away.
pub fn trim_bounds(chars: &Vec<char>, from: usize, to: usize) -> (bounds: (usize, usize))
    requires
        from <= to <= chars@.len(),
    ensures
        from <= bounds.0 <= bounds.1 <= to,
        chars@.subrange(bounds.0 as int, bounds.1 as int) == trim(
            chars@.subrange(from as int, to as int),
        ),
        chars@.subrange(bounds.0 as int, to as int) == trim_start(
            chars@.subrange(from as int, to as int),
        ),
{
    let mut low: usize = from;
    while low < to && is_whitespace(chars[low])
        invariant
            from <= low <= to <= chars@.len(),
            trim_start(chars@.subrange(from as int, to as int)) == trim_start(
                chars@.subrange(low as int, to as int),
            ),
        decreases to - low,
    {
        assert(chars@.subrange(low as int, to as int).drop_first() =~= chars@.subrange(
            low + 1,
            to as int,
        ));
        low += 1;
    }
    let mut high: usize = to;
    while low < high && is_whitespace(chars[high - 1])
        invariant
            low <= high <= to <= chars@.len(),
            trim_end(chars@.subrange(low as int, to as int)) == trim_end(
                chars@.subrange(low as int, high as int),
            ),
        decreases high - low,
    {
        assert(chars@.subrange(low as int, high as int).drop_last() =~= chars@.subrange(
            low as int,
            high - 1,
        ));
        high -= 1;
    }
    (low, high)
}

} // verus!
