//! Text primitives: comparison, white space, splitting a line into words.

use vstd::prelude::*;
use vstd::string::*;

verus! {

/// `str`'s `==` from std: two string slices are equal exactly when they hold
/// the same characters.
pub assume_specification[ <str as PartialEq>::eq ](a: &str, b: &str) -> (r: bool)
    ensures
        r == (a@ == b@),
;

/// Whether `a` and `b` hold the same characters.
pub fn same_text(a: &str, b: &str) -> (r: bool)
    ensures
        r == (a@ == b@),
{
    a.eq(b)
}

/// The code points with the Unicode property `White_Space`.
pub open spec fn is_space(c: char) -> bool {
    let u = c as u32;
    ||| 0x09 <= u <= 0x0D
    ||| u == 0x20
    ||| u == 0x85
    ||| u == 0xA0
    ||| u == 0x1680
    ||| 0x2000 <= u <= 0x200A
    ||| u == 0x2028
    ||| u == 0x2029
    ||| u == 0x202F
    ||| u == 0x205F
    ||| u == 0x3000
}

pub fn char_is_space(c: char) -> (r: bool)
    ensures
        r == is_space(c),
{
    let u: u32 = c as u32;
    (0x09 <= u && u <= 0x0D) || u == 0x20 || u == 0x85 || u == 0xA0 || u == 0x1680 || (0x2000 <= u
        && u <= 0x200A) || u == 0x2028 || u == 0x2029 || u == 0x202F || u == 0x205F || u == 0x3000
}

/// Length of the longest prefix of `s` that holds no white space.
pub open spec fn word_len(s: Seq<char>) -> nat
    decreases s.len(),
{
    if s.len() == 0 || is_space(s[0]) {
        0
    } else {
        1 + word_len(s.drop_first())
    }
}

pub proof fn lemma_word_len_bound(s: Seq<char>)
    ensures
        word_len(s) <= s.len(),
        s.len() > 0 && !is_space(s[0]) ==> word_len(s) >= 1,
    decreases s.len(),
{
    if s.len() > 0 && !is_space(s[0]) {
        lemma_word_len_bound(s.drop_first());
    }
}

/// The words of `s`: its maximal runs of characters that are not white space,
/// from left to right.
pub open spec fn words(s: Seq<char>) -> Seq<Seq<char>>
    decreases s.len(),
{
    if s.len() == 0 {
        Seq::empty()
    } else if is_space(s[0]) {
        words(s.drop_first())
    } else {
        let n = word_len(s) as int;
        proof {
            lemma_word_len_bound(s);
        }
        seq![s.take(n)] + words(s.skip(n))
    }
}

/// A run of `n` characters without white space that ends at white space or at
/// the end of `s` is the first word of `s`.
pub proof fn lemma_word_len_run(s: Seq<char>, n: int)
    requires
        0 <= n <= s.len(),
        forall|k: int| 0 <= k < n ==> !is_space(#[trigger] s[k]),
        n == s.len() || is_space(s[n]),
    ensures
        word_len(s) == n,
    decreases n,
{
    if n > 0 {
        let t = s.drop_first();
        assert forall|k: int| 0 <= k < n - 1 implies !is_space(#[trigger] t[k]) by {
            assert(t[k] == s[k + 1]);
        }
        lemma_word_len_run(t, n - 1);
    }
}

/// Splits `text` at white space, as `str::split_whitespace` does.
pub fn split_words(text: &str) -> (out: Vec<String>)
    ensures
        out.deep_view() == words(text@),
{
    let n = text.unicode_len();
    let mut out: Vec<String> = Vec::new();
    let mut i: usize = 0;
    assert(text@.skip(0) =~= text@);
    assert(out.deep_view() =~= Seq::<Seq<char>>::empty());
    while i < n
        invariant
            n == text@.len(),
            i <= n,
            words(text@) == out.deep_view() + words(text@.skip(i as int)),
        decreases n - i,
    {
        let ghost rest = text@.skip(i as int);
        let c = text.get_char(i);
        assert(rest[0] == c);
        if char_is_space(c) {
            assert(rest.drop_first() =~= text@.skip(i + 1));
            i = i + 1;
        } else {
            let start = i;
            let mut j: usize = i + 1;
            while j < n && !char_is_space(text.get_char(j))
                invariant
                    n == text@.len(),
                    start < j <= n,
                    forall|k: int| start <= k < j ==> !is_space(#[trigger] text@[k]),
                decreases n - j,
            {
                j = j + 1;
            }
            proof {
                assert forall|k: int| 0 <= k < j - start implies !is_space(#[trigger] rest[k]) by {
                    assert(rest[k] == text@[start + k]);
                }
                lemma_word_len_run(rest, j - start);
                assert(rest.take(j - start) =~= text@.subrange(start as int, j as int));
                assert(rest.skip(j - start) =~= text@.skip(j as int));
            }
            let word = text.substring_char(start, j);
            let ghost before = out.deep_view();
            out.push(word.to_owned());
            assert(out.deep_view() =~= before.push(word@));
            assert(before + (seq![word@] + words(text@.skip(j as int))) =~= before.push(word@)
                + words(text@.skip(j as int)));
            i = j;
        }
    }
    assert(text@.skip(n as int) =~= Seq::<char>::empty());
    assert(out.deep_view() + Seq::<Seq<char>>::empty() =~= out.deep_view());
    out
}

/// `s` followed by as many spaces as it takes to fill `width` characters.
pub open spec fn padded(s: Seq<char>, width: nat) -> Seq<char> {
    if s.len() >= width {
        s
    } else {
        s + Seq::new((width - s.len()) as nat, |i: int| ' ')
    }
}

/// Fills `text` with spaces on the right up to `width` characters.
pub fn pad_right(text: &str, width: usize) -> (r: String)
    ensures
        r@ == padded(text@, width as nat),
{
    let n = text.unicode_len();
    let mut r = text.to_owned();
    let mut k: usize = n;
    assert(r@ =~= text@ + Seq::new(0, |i: int| ' '));
    while k < width
        invariant
            n == text@.len(),
            n <= k,
            k <= width || k == n,
            r@ == text@ + Seq::new((k - n) as nat, |i: int| ' '),
        decreases width - k,
    {
        r.append(" ");
        proof {
            reveal_strlit(" ");
            assert(r@ =~= text@ + Seq::new((k + 1 - n) as nat, |i: int| ' '));
        }
        k = k + 1;
    }
    assert(n >= width ==> r@ =~= text@);
    r
}

/// Whether `s` ends with `suffix`.
pub open spec fn ends_with(s: Seq<char>, suffix: Seq<char>) -> bool {
    s.len() >= suffix.len() && s.skip(s.len() - suffix.len()) == suffix
}

/// `text` without `suffix` at its end; `None` where it does not end with it.
pub fn strip_suffix(text: &str, suffix: &str) -> (r: Option<String>)
    ensures
        ends_with(text@, suffix@) ==> r.is_some() && r.unwrap()@ == text@.take(
            text@.len() - suffix@.len(),
        ),
        !ends_with(text@, suffix@) ==> r.is_none(),
{
    let n = text.unicode_len();
    let m = suffix.unicode_len();
    if m > n {
        return None;
    }
    let base = n - m;
    let ghost tail = text@.skip(base as int);
    let mut k: usize = 0;
    while k < m
        invariant
            n == text@.len(),
            m == suffix@.len(),
            base == n - m,
            k <= m,
            tail == text@.skip(base as int),
            forall|i: int| 0 <= i < k ==> tail[i] == suffix@[i],
        decreases m - k,
    {
        let a = text.get_char(base + k);
        let b = suffix.get_char(k);
        assert(tail[k as int] == a);
        if a != b {
            return None;
        }
        k = k + 1;
    }
    assert(tail =~= suffix@);
    let stem = text.substring_char(0, base);
    assert(stem@ =~= text@.take(base as int));
    Some(stem.to_owned())
}

/// The characters of `text`.
pub fn chars_of(text: &str) -> (r: Vec<char>)
    ensures
        r@ == text@,
{
    let n = text.unicode_len();
    let mut r: Vec<char> = Vec::new();
    let mut i: usize = 0;
    while i < n
        invariant
            n == text@.len(),
            i <= n,
            r@ == text@.take(i as int),
        decreases n - i,
    {
        r.push(text.get_char(i));
        assert(r@ =~= text@.take(i + 1));
        i = i + 1;
    }
    assert(text@.take(n as int) =~= text@);
    r
}

/// Whether `s` begins with `prefix`.
pub open spec fn starts_with(s: Seq<char>, prefix: Seq<char>) -> bool {
    s.len() >= prefix.len() && s.take(prefix.len() as int) == prefix
}

/// Whether `pattern` stands in `s` at the position `i`.
pub open spec fn occurs_at(s: Seq<char>, pattern: Seq<char>, i: int) -> bool {
    0 <= i && i + pattern.len() <= s.len() && s.subrange(i, i + pattern.len()) == pattern
}

/// The first position from `from` on at which `pattern` stands in `s`.
pub open spec fn first_occurrence(s: Seq<char>, pattern: Seq<char>, from: int) -> Option<int>
    decreases s.len() + 1 - from,
{
    if from < 0 || from + pattern.len() > s.len() {
        None
    } else if occurs_at(s, pattern, from) {
        Some(from)
    } else {
        first_occurrence(s, pattern, from + 1)
    }
}

/// Whether `pattern` stands in `s` at the position `i`.
fn matches_at(s: &Vec<char>, pattern: &Vec<char>, i: usize) -> (r: bool)
    requires
        i + pattern.len() <= s.len(),
    ensures
        r == occurs_at(s@, pattern@, i as int),
{
    let ghost window = s@.subrange(i as int, i + pattern.len());
    let mut k: usize = 0;
    while k < pattern.len()
        invariant
            k <= pattern.len(),
            i + pattern.len() <= s.len(),
            window == s@.subrange(i as int, i + pattern.len()),
            forall|j: int| 0 <= j < k ==> window[j] == pattern@[j],
        decreases pattern.len() - k,
    {
        assert(window[k as int] == s@[i + k]);
        if s[i + k] != pattern[k] {
            return false;
        }
        k = k + 1;
    }
    assert(window =~= pattern@);
    true
}

/// Whether `text` begins with `prefix`.
pub fn begins_with(text: &str, prefix: &str) -> (r: bool)
    ensures
        r == starts_with(text@, prefix@),
{
    let s = chars_of(text);
    let p = chars_of(prefix);
    if p.len() > s.len() {
        return false;
    }
    assert(s@.take(p.len() as int) =~= s@.subrange(0, 0 + p.len()));
    matches_at(&s, &p, 0)
}

/// The first position at which `pattern` stands in `text`.
pub fn find(text: &str, pattern: &str) -> (r: Option<usize>)
    ensures
        match r {
            Some(i) => first_occurrence(text@, pattern@, 0) == Some(i as int) && i <= text@.len(),
            None => first_occurrence(text@, pattern@, 0) is None,
        },
{
    let s = chars_of(text);
    let p = chars_of(pattern);
    if p.len() > s.len() {
        return None;
    }
    let last = s.len() - p.len();
    let mut i: usize = 0;
    loop
        invariant
            s@ == text@,
            p@ == pattern@,
            last == s.len() - p.len(),
            i <= last,
            first_occurrence(s@, p@, 0) == first_occurrence(s@, p@, i as int),
        decreases last - i,
    {
        if matches_at(&s, &p, i) {
            return Some(i);
        }
        if i == last {
            assert(first_occurrence(s@, p@, last + 1) is None);
            return None;
        }
        i = i + 1;
    }
}

} // verus!
