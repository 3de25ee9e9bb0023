//! Text as sequences of characters: ASCII whitespace, trimming, and the
//! removal of a fixed prefix or suffix.

use vstd::prelude::*;
use vstd::string::StrSliceExecFns;

verus! {

/// Space, horizontal tab, line feed, form feed and carriage return.
pub open spec fn is_ascii_whitespace(c: char) -> bool {
    c == ' ' || c == '\t' || c == '\n' || c == '\x0C' || c == '\r'
}

/// `s` without its leading ASCII whitespace.
pub open spec fn trim_start(s: Seq<char>) -> Seq<char>
    decreases s.len(),
{
    if s.len() > 0 && is_ascii_whitespace(s.first()) {
        trim_start(s.drop_first())
    } else {
        s
    }
}

/// `s` without its trailing ASCII whitespace.
pub open spec fn trim_end(s: Seq<char>) -> Seq<char>
    decreases s.len(),
{
    if s.len() > 0 && is_ascii_whitespace(s.last()) {
        trim_end(s.drop_last())
    } else {
        s
    }
}

/// `s` without ASCII whitespace at either end.
pub open spec fn trimmed(s: Seq<char>) -> Seq<char> {
    trim_end(trim_start(s))
}

/// Every character of `s` is ASCII whitespace.
pub open spec fn is_blank(s: Seq<char>) -> bool {
    forall|i: int| 0 <= i < s.len() ==> is_ascii_whitespace(#[trigger] s[i])
}

/// `s` neither begins nor ends with ASCII whitespace.
pub open spec fn is_trimmed(s: Seq<char>) -> bool {
    s.len() > 0 ==> !is_ascii_whitespace(s.first()) && !is_ascii_whitespace(s.last())
}

/// `middle` with `lead` before it and `trail` after it.
pub open spec fn framed(lead: Seq<char>, middle: Seq<char>, trail: Seq<char>) -> Seq<char> {
    lead + middle + trail
}

/// `s` without `prefix` at its start; `s` itself where it does not start so.
pub open spec fn without_prefix(s: Seq<char>, prefix: Seq<char>) -> Seq<char> {
    if prefix.is_prefix_of(s) {
        s.skip(prefix.len() as int)
    } else {
        s
    }
}

/// `s` without `suffix` at its end; `s` itself where it does not end so.
pub open spec fn without_suffix(s: Seq<char>, suffix: Seq<char>) -> Seq<char> {
    if suffix.is_suffix_of(s) {
        s.take(s.len() - suffix.len())
    } else {
        s
    }
}

/// Dropping `i` leading whitespace characters does not change what
/// `trim_start` gives.
pub proof fn lemma_trim_start_skips_blank(s: Seq<char>, i: int)
    requires
        0 <= i <= s.len(),
        is_blank(s.take(i)),
    ensures
        trim_start(s) == trim_start(s.skip(i)),
    decreases i,
{
    if i == 0 {
        assert(s.skip(0) =~= s);
    } else {
        assert(s.take(i)[0] == s[0]);
        assert forall|k: int| 0 <= k < i - 1 implies is_ascii_whitespace(
            #[trigger] s.drop_first().take(i - 1)[k],
        ) by {
            assert(s.drop_first().take(i - 1)[k] == s.take(i)[k + 1]);
        }
        lemma_trim_start_skips_blank(s.drop_first(), i - 1);
        assert(s.drop_first().skip(i - 1) =~= s.skip(i));
    }
}

/// Dropping trailing whitespace characters, down to length `j`, does not
/// change what `trim_end` gives.
pub proof fn lemma_trim_end_takes_blank(s: Seq<char>, j: int)
    requires
        0 <= j <= s.len(),
        is_blank(s.skip(j)),
    ensures
        trim_end(s) == trim_end(s.take(j)),
    decreases s.len() - j,
{
    if j == s.len() {
        assert(s.take(j) =~= s);
    } else {
        assert(s.skip(j)[s.len() - j - 1] == s.last());
        assert forall|k: int| 0 <= k < s.len() - 1 - j implies is_ascii_whitespace(
            #[trigger] s.drop_last().skip(j)[k],
        ) by {
            assert(s.drop_last().skip(j)[k] == s.skip(j)[k]);
        }
        lemma_trim_end_takes_blank(s.drop_last(), j);
        assert(s.drop_last().take(j) =~= s.take(j));
    }
}

/// Trimming peels a blank run off each end and leaves a trimmed middle.
pub proof fn lemma_trimmed_is_middle(lead: Seq<char>, middle: Seq<char>, trail: Seq<char>)
    requires
        is_blank(lead),
        is_blank(trail),
        is_trimmed(middle),
    ensures
        trimmed(lead + middle + trail) == middle,
{
    let s = lead + middle + trail;
    lemma_trim_start_skips_blank(s, lead.len() as int);
    let rest = s.skip(lead.len() as int);
    if middle.len() == 0 {
        lemma_trim_start_skips_blank(rest, rest.len() as int);
    } else {
        lemma_trim_end_takes_blank(rest, middle.len() as int);
    }
}

/// Whatever is trimmed is its own middle, between the blank runs that
/// trimming removes.
pub proof fn lemma_trimmed_frames(s: Seq<char>)
    ensures
        exists|lead: Seq<char>, trail: Seq<char>|
            is_blank(lead) && is_blank(trail) && s == #[trigger] framed(lead, trimmed(s), trail),
{
    lemma_trim_start_shape(s);
    let rest = trim_start(s);
    lemma_trim_end_shape(rest);
    let lead = s.take(s.len() - rest.len());
    let trail = rest.skip(trimmed(s).len() as int);
    assert(s =~= framed(lead, trimmed(s), trail));
}

/// What trimming gives is trimmed, and trimming it again changes nothing.
pub proof fn lemma_trimmed_is_trimmed(s: Seq<char>)
    ensures
        is_trimmed(trimmed(s)),
        trimmed(trimmed(s)) == trimmed(s),
{
    lemma_trim_start_shape(s);
    lemma_trim_end_shape(trim_start(s));
    lemma_trimmed_is_middle(Seq::<char>::empty(), trimmed(s), Seq::<char>::empty());
}

/// `trim_start` gives a suffix of `s` that does not begin with whitespace.
pub proof fn lemma_trim_start_shape(s: Seq<char>)
    ensures
        trim_start(s).len() <= s.len(),
        trim_start(s) == s.skip(s.len() - trim_start(s).len()),
        is_blank(s.take(s.len() - trim_start(s).len())),
        trim_start(s).len() > 0 ==> !is_ascii_whitespace(trim_start(s).first()),
    decreases s.len(),
{
    if s.len() > 0 && is_ascii_whitespace(s.first()) {
        let r = s.drop_first();
        lemma_trim_start_shape(r);
        let k = r.len() - trim_start(r).len();
        assert forall|i: int| 0 <= i < k + 1 implies is_ascii_whitespace(
            #[trigger] s.take(k + 1)[i],
        ) by {
            if i > 0 {
                assert(s.take(k + 1)[i] == r.take(k)[i - 1]);
            }
        }
    }
}

/// `trim_end` gives a prefix of `s` that does not end with whitespace.
pub proof fn lemma_trim_end_shape(s: Seq<char>)
    ensures
        trim_end(s).len() <= s.len(),
        trim_end(s) == s.take(trim_end(s).len() as int),
        is_blank(s.skip(trim_end(s).len() as int)),
        trim_end(s).len() > 0 ==> !is_ascii_whitespace(trim_end(s).last()),
    decreases s.len(),
{
    if s.len() > 0 && is_ascii_whitespace(s.last()) {
        let r = s.drop_last();
        lemma_trim_end_shape(r);
        let k = trim_end(r).len() as int;
        assert forall|i: int| 0 <= i < s.len() - k implies is_ascii_whitespace(
            #[trigger] s.skip(k)[i],
        ) by {
            if i < s.len() - k - 1 {
                assert(s.skip(k)[i] == r.skip(k)[i]);
            }
        }
    }
}

/// Whether `c` is ASCII whitespace.
pub fn char_is_ascii_whitespace(c: char) -> (b: bool)
    ensures
        b == is_ascii_whitespace(c),
{
    c == ' ' || c == '\t' || c == '\n' || c == '\x0C' || c == '\r'
}

/// The part of `s` that is left when ASCII whitespace is removed from both
/// ends.
pub fn trim_ascii<'a>(s: &'a str) -> (t: &'a str)
    ensures
        t@ == trimmed(s@),
{
    let n: usize = s.unicode_len();
    let mut i: usize = 0;
    while i < n && char_is_ascii_whitespace(s.get_char(i))
        invariant
            n == s@.len(),
            i <= n,
            is_blank(s@.take(i as int)),
        decreases n - i,
    {
        assert forall|k: int| 0 <= k < i + 1 implies is_ascii_whitespace(
            #[trigger] s@.take(i + 1)[k],
        ) by {
            assert(k < i ==> is_ascii_whitespace(s@.take(i as int)[k]));
        }
        i = i + 1;
    }
    proof {
        lemma_trim_start_skips_blank(s@, i as int);
    }
    let ghost rest = s@.skip(i as int);
    let mut j: usize = n;
    while j > i && char_is_ascii_whitespace(s.get_char(j - 1))
        invariant
            n == s@.len(),
            i <= j <= n,
            rest == s@.skip(i as int),
            is_blank(rest.skip(j - i)),
        decreases j,
    {
        assert forall|k: int| 0 <= k < n - (j - 1) implies is_ascii_whitespace(
            #[trigger] rest.skip(j - 1 - i)[k],
        ) by {
            if k > 0 {
                assert(rest.skip(j - 1 - i)[k] == rest.skip(j - i)[k - 1]);
            }
        }
        j = j - 1;
    }
    proof {
        lemma_trim_end_takes_blank(rest, j - i);
    }
    s.substring_char(i, j)
}

/// Whether `s` begins with `prefix`.
pub fn starts_with(s: &str, prefix: &str) -> (b: bool)
    ensures
        b == prefix@.is_prefix_of(s@),
{
    let n: usize = s.unicode_len();
    let m: usize = prefix.unicode_len();
    if m > n {
        return false;
    }
    let mut k: usize = 0;
    while k < m
        invariant
            n == s@.len(),
            m == prefix@.len(),
            m <= n,
            k <= m,
            forall|x: int| 0 <= x < k ==> s@[x] == prefix@[x],
        decreases m - k,
    {
        if s.get_char(k) != prefix.get_char(k) {
            return false;
        }
        k = k + 1;
    }
    true
}

/// Whether `s` ends with `suffix`.
pub fn ends_with(s: &str, suffix: &str) -> (b: bool)
    ensures
        b == suffix@.is_suffix_of(s@),
{
    let n: usize = s.unicode_len();
    let m: usize = suffix.unicode_len();
    if m > n {
        return false;
    }
    let base: usize = n - m;
    let mut k: usize = 0;
    while k < m
        invariant
            n == s@.len(),
            m == suffix@.len(),
            m <= n,
            base == n - m,
            k <= m,
            forall|x: int| 0 <= x < k ==> s@[base + x] == suffix@[x],
        decreases m - k,
    {
        if s.get_char(base + k) != suffix.get_char(k) {
            return false;
        }
        k = k + 1;
    }
    true
}

/// `s` without `prefix` at its start, or `s` itself where it does not start
/// with `prefix`.
pub fn strip_prefix<'a>(s: &'a str, prefix: &str) -> (t: &'a str)
    ensures
        t@ == without_prefix(s@, prefix@),
{
    if starts_with(s, prefix) {
        s.substring_char(prefix.unicode_len(), s.unicode_len())
    } else {
        s
    }
}

/// `s` without `suffix` at its end, or `s` itself where it does not end with
/// `suffix`.
pub fn strip_suffix<'a>(s: &'a str, suffix: &str) -> (t: &'a str)
    ensures
        t@ == without_suffix(s@, suffix@),
{
    if ends_with(s, suffix) {
        s.substring_char(0, s.unicode_len() - suffix.unicode_len())
    } else {
        s
    }
}

/// Whether `a` and `b` hold the same characters.
pub fn same_text(a: &str, b: &str) -> (same: bool)
    ensures
        same == (a@ == b@),
{
    let n: usize = a.unicode_len();
    if n != b.unicode_len() {
        return false;
    }
    let whole: bool = starts_with(a, b);
    proof {
        if whole {
            assert(a@.subrange(0, n as int) =~= a@);
        }
    }
    whole
}

} // verus!
