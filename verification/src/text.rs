//! Character-wise operations on names: comparing, matching a literal at either
//! end, and trimming.

use vstd::prelude::*;

verus! {

/// What `char::is_numeric` answers for `c`: whether `c` belongs to one of
/// Unicode's general categories for numbers.
pub uninterp spec fn is_numeric(c: char) -> bool;

/// Whether `c` is one of the ten ASCII digits.
pub open spec fn is_ascii_digit(c: char) -> bool {
    '0' <= c && c <= '9'
}

/// Whether `c` is a numeral: within ASCII one of the ten digits, beyond ASCII
/// whatever Unicode counts among its numbers.
pub open spec fn is_numeral(c: char) -> bool {
    if c <= '\x7f' {
        is_ascii_digit(c)
    } else {
        is_numeric(c)
    }
}

/// `s` without the numerals that it ends in.
pub open spec fn without_trailing_numerals(s: Seq<char>) -> Seq<char>
    decreases s.len(),
{
    if s.len() > 0 && is_numeral(s.last()) {
        without_trailing_numerals(s.drop_last())
    } else {
        s
    }
}

/// `s` without the numerals that it starts with.
pub open spec fn without_leading_numerals(s: Seq<char>) -> Seq<char>
    decreases s.len(),
{
    if s.len() > 0 && is_numeral(s.first()) {
        without_leading_numerals(s.drop_first())
    } else {
        s
    }
}

/// `s` without the run of the character `c` that it ends in.
pub open spec fn without_trailing(s: Seq<char>, c: char) -> Seq<char>
    decreases s.len(),
{
    if s.len() > 0 && s.last() == c {
        without_trailing(s.drop_last(), c)
    } else {
        s
    }
}

/// `s` without `prefix` at its front; `s` itself where it does not start with `prefix`.
pub open spec fn without_prefix(s: Seq<char>, prefix: Seq<char>) -> Seq<char> {
    if prefix.is_prefix_of(s) {
        s.skip(prefix.len() as int)
    } else {
        s
    }
}

/// `s` without `suffix` at its end; `s` itself where it does not end in `suffix`.
pub open spec fn without_suffix(s: Seq<char>, suffix: Seq<char>) -> Seq<char> {
    if suffix.is_suffix_of(s) {
        s.take(s.len() - suffix.len())
    } else {
        s
    }
}

/// `char::is_numeric` of std: whether `c` belongs to one of Unicode's general
/// categories for numbers (Nd, Nl, No). The answer depends on `c` alone and is
/// named `is_numeric`. The one thing claimed of it beyond the name: of the
/// ASCII characters, the ten digits are the only ones in those categories.
#[verifier::external_body]
fn char_is_numeric(c: char) -> (numeric: bool)
    ensures
        numeric == is_numeric(c),
        numeric == is_numeral(c),
{
    c.is_numeric()
}

/// The characters of `text`, one by one.
pub fn chars_of(text: &str) -> (chars: Vec<char>)
    ensures
        chars@ == text@,
{
    let mut chars: Vec<char> = Vec::new();
    for c in it: text.chars()
        invariant
            it.seq() == text@,
            chars@ == text@.take(it.index() as int),
    {
        chars.push(c);
        assert(text@.take(it.index() + 1) =~= text@.take(it.index() as int).push(c));
    }
    assert(text@.take(text@.len() as int) =~= text@);
    chars
}

/// Whether two texts hold the same characters.
pub fn same_text(a: &str, b: &str) -> (same: bool)
    ensures
        same == (a@ == b@),
{
    let a_chars = chars_of(a);
    let b_chars = chars_of(b);
    let n = a_chars.len();
    if b_chars.len() != n {
        return false;
    }
    let mut i: usize = 0;
    while i < n
        invariant
            a_chars@ == a@,
            b_chars@ == b@,
            n == a_chars.len(),
            n == b_chars.len(),
            i <= n,
            a_chars@.take(i as int) == b_chars@.take(i as int),
        decreases n - i,
    {
        if a_chars[i] != b_chars[i] {
            return false;
        }
        assert(a_chars@.take(i + 1) == a_chars@.take(i as int).push(a_chars@[i as int]));
        assert(b_chars@.take(i + 1) == b_chars@.take(i as int).push(b_chars@[i as int]));
        i += 1;
    }
    assert(a_chars@ == a_chars@.take(n as int));
    assert(b_chars@ == b_chars@.take(n as int));
    true
}

/// Whether `s` starts with `prefix`.
pub fn starts_with(s: &str, prefix: &str) -> (found: bool)
    ensures
        found == prefix@.is_prefix_of(s@),
{
    let text = chars_of(s);
    let wanted = chars_of(prefix);
    let m = wanted.len();
    if m > text.len() {
        return false;
    }
    let mut i: usize = 0;
    while i < m
        invariant
            text@ == s@,
            wanted@ == prefix@,
            m == wanted.len(),
            m <= text.len(),
            i <= m,
            text@.take(i as int) == wanted@.take(i as int),
        decreases m - i,
    {
        if text[i] != wanted[i] {
            assert(text@.subrange(0, m as int)[i as int] != wanted@[i as int]);
            return false;
        }
        assert(text@.take(i + 1) == text@.take(i as int).push(text@[i as int]));
        assert(wanted@.take(i + 1) == wanted@.take(i as int).push(wanted@[i as int]));
        i += 1;
    }
    assert(wanted@ == wanted@.take(m as int));
    true
}

/// Whether `s` ends in `suffix`.
pub fn ends_with(s: &str, suffix: &str) -> (found: bool)
    ensures
        found == suffix@.is_suffix_of(s@),
{
    let text = chars_of(s);
    let wanted = chars_of(suffix);
    let n = text.len();
    let m = wanted.len();
    if m > n {
        return false;
    }
    let shift = n - m;
    let mut i: usize = 0;
    while i < m
        invariant
            text@ == s@,
            wanted@ == suffix@,
            n == text.len(),
            m == wanted.len(),
            m <= n,
            shift == n - m,
            i <= m,
            text@.subrange(shift as int, shift + i) == wanted@.take(i as int),
        decreases m - i,
    {
        if text[shift + i] != wanted[i] {
            assert(text@.subrange(shift as int, n as int)[i as int] != wanted@[i as int]);
            return false;
        }
        assert(text@.subrange(shift as int, shift + i + 1) == text@.subrange(
            shift as int,
            shift + i,
        ).push(text@[shift + i]));
        assert(wanted@.take(i + 1) == wanted@.take(i as int).push(wanted@[i as int]));
        i += 1;
    }
    assert(wanted@ == wanted@.take(m as int));
    true
}

/// Removes `prefix` from the front of `s`, once, where `s` starts with it.
pub fn strip_prefix<'a>(s: &'a str, prefix: &str) -> (rest: &'a str)
    ensures
        rest@ == without_prefix(s@, prefix@),
{
    if starts_with(s, prefix) {
        s.substring_char(prefix.unicode_len(), s.unicode_len())
    } else {
        s
    }
}

/// Removes `suffix` from the end of `s`, once, where `s` ends in it.
pub fn strip_suffix<'a>(s: &'a str, suffix: &str) -> (rest: &'a str)
    ensures
        rest@ == without_suffix(s@, suffix@),
{
    if ends_with(s, suffix) {
        s.substring_char(0, s.unicode_len() - suffix.unicode_len())
    } else {
        s
    }
}

/// Removes the numerals that `s` ends in.
pub fn trim_trailing_numerals(s: &str) -> (rest: &str)
    ensures
        rest@ == without_trailing_numerals(s@),
{
    let text = chars_of(s);
    let mut end = text.len();
    assert(s@.take(end as int) == s@);
    while end > 0 && char_is_numeric(text[end - 1])
        invariant
            text@ == s@,
            end <= s@.len(),
            without_trailing_numerals(s@) == without_trailing_numerals(s@.take(end as int)),
        decreases end,
    {
        assert(s@.take(end as int).drop_last() == s@.take(end - 1));
        end -= 1;
    }
    s.substring_char(0, end)
}

/// Removes the numerals that `s` starts with.
pub fn trim_leading_numerals(s: &str) -> (rest: &str)
    ensures
        rest@ == without_leading_numerals(s@),
{
    let text = chars_of(s);
    let n = text.len();
    let mut start: usize = 0;
    assert(s@.skip(0) == s@);
    while start < n && char_is_numeric(text[start])
        invariant
            text@ == s@,
            n == s@.len(),
            start <= n,
            without_leading_numerals(s@) == without_leading_numerals(s@.skip(start as int)),
        decreases n - start,
    {
        assert(s@.skip(start as int).drop_first() == s@.skip(start + 1));
        start += 1;
    }
    s.substring_char(start, n)
}

/// Removes the run of the character `c` that `s` ends in.
pub fn trim_trailing(s: &str, c: char) -> (rest: &str)
    ensures
        rest@ == without_trailing(s@, c),
{
    let text = chars_of(s);
    let mut end = text.len();
    assert(s@.take(end as int) == s@);
    while end > 0 && text[end - 1] == c
        invariant
            text@ == s@,
            end <= s@.len(),
            without_trailing(s@, c) == without_trailing(s@.take(end as int), c),
        decreases end,
    {
        assert(s@.take(end as int).drop_last() == s@.take(end - 1));
        end -= 1;
    }
    s.substring_char(0, end)
}

/// What taking the trailing numerals off leaves: a front part of `s` that ends
/// in no numeral, after which `s` holds numerals only.
pub proof fn lemma_without_trailing_numerals(s: Seq<char>)
    ensures
        without_trailing_numerals(s).is_prefix_of(s),
        without_trailing_numerals(s).len() > 0 ==> !is_numeral(without_trailing_numerals(s).last()),
        forall|i: int| without_trailing_numerals(s).len() <= i < s.len() ==> is_numeral(s[i]),
    decreases s.len(),
{
    if s.len() > 0 && is_numeral(s.last()) {
        let front = s.drop_last();
        lemma_without_trailing_numerals(front);
        assert forall|i: int| without_trailing_numerals(s).len() <= i < s.len() implies is_numeral(
            s[i],
        ) by {
            if i < front.len() {
                assert(s[i] == front[i]);
            }
        }
    }
}

/// What taking the leading numerals off leaves: an end part of `s` that starts
/// with no numeral, before which `s` holds numerals only.
pub proof fn lemma_without_leading_numerals(s: Seq<char>)
    ensures
        without_leading_numerals(s).is_suffix_of(s),
        without_leading_numerals(s).len() > 0 ==> !is_numeral(without_leading_numerals(s).first()),
        forall|i: int| 0 <= i < s.len() - without_leading_numerals(s).len() ==> is_numeral(s[i]),
    decreases s.len(),
{
    if s.len() > 0 && is_numeral(s.first()) {
        let rest = s.drop_first();
        lemma_without_leading_numerals(rest);
        let kept = without_leading_numerals(rest);
        assert(kept =~= s.skip(s.len() - kept.len()));
        assert forall|i: int| 0 <= i < s.len() - kept.len() implies is_numeral(s[i]) by {
            if i > 0 {
                assert(s[i] == rest[i - 1]);
            }
        }
    } else {
        assert(s =~= s.skip(0));
    }
}

/// What taking a trailing run of `c` off leaves: a front part of `s` that does
/// not end in `c`, after which `s` holds `c` only.
pub proof fn lemma_without_trailing(s: Seq<char>, c: char)
    ensures
        without_trailing(s, c).is_prefix_of(s),
        without_trailing(s, c).len() > 0 ==> without_trailing(s, c).last() != c,
        forall|i: int| without_trailing(s, c).len() <= i < s.len() ==> s[i] == c,
    decreases s.len(),
{
    if s.len() > 0 && s.last() == c {
        let front = s.drop_last();
        lemma_without_trailing(front, c);
        assert forall|i: int| without_trailing(s, c).len() <= i < s.len() implies s[i] == c by {
            if i < front.len() {
                assert(s[i] == front[i]);
            }
        }
    }
}

/// Numerals written after a text that ends in none are taken off whole.
pub proof fn lemma_trailing_numerals_taken_off(s: Seq<char>, numerals: Seq<char>)
    requires
        s.len() > 0 ==> !is_numeral(s.last()),
        forall|i: int| 0 <= i < numerals.len() ==> is_numeral(numerals[i]),
    ensures
        without_trailing_numerals(s + numerals) == s,
    decreases numerals.len(),
{
    if numerals.len() == 0 {
        assert(s + numerals =~= s);
    } else {
        assert((s + numerals).drop_last() =~= s + numerals.drop_last());
        lemma_trailing_numerals_taken_off(s, numerals.drop_last());
    }
}

} // verus!
