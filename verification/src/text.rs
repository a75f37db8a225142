//! Character-level helpers over the view of `str` (a `Seq<char>`).

use vstd::prelude::*;

verus! {

broadcast use vstd::string::group_string_axioms;

/// Unicode `White_Space`: the characters that `char::is_whitespace` accepts,
/// and so the ones that `str::trim` removes.
pub open spec fn is_white_space(c: char) -> bool {
    let u = c as u32;
    ||| 0x09 <= u <= 0x0d
    ||| u == 0x20
    ||| u == 0x85
    ||| u == 0xa0
    ||| u == 0x1680
    ||| 0x2000 <= u <= 0x200a
    ||| u == 0x2028
    ||| u == 0x2029
    ||| u == 0x202f
    ||| u == 0x205f
    ||| u == 0x3000
}

/// `s` without its leading white space.
pub open spec fn trim_start(s: Seq<char>) -> Seq<char>
    decreases s.len(),
{
    if s.len() > 0 && is_white_space(s[0]) {
        trim_start(s.drop_first())
    } else {
        s
    }
}

/// `s` without its trailing white space.
pub open spec fn trim_end(s: Seq<char>) -> Seq<char>
    decreases s.len(),
{
    if s.len() > 0 && is_white_space(s.last()) {
        trim_end(s.drop_last())
    } else {
        s
    }
}

/// `s` without white space at either end, as `str::trim` gives it.
pub open spec fn trim(s: Seq<char>) -> Seq<char> {
    trim_end(trim_start(s))
}

/// The code point of `c` with `A`..`Z` mapped to `a`..`z` and every other
/// character kept.
pub open spec fn ascii_lower(c: char) -> int {
    let u = c as u32;
    if 0x41 <= u <= 0x5a {
        u + 32
    } else {
        u as int
    }
}

/// `a` equals `lower` once its ASCII capitals are made small.
/// Among characters outside ASCII only the Kelvin sign U+212A (to `k`) and
/// U+0130 (to `i` and a combining dot) lowercase to ASCII letters, so for a
/// `lower` made of small ASCII letters other than `k` and `i` (such as
/// `safetensors`, `wav`, `wave`) this is the same as `a.to_lowercase() == lower`.
pub open spec fn eq_ignore_ascii_case(a: Seq<char>, lower: Seq<char>) -> bool {
    &&& a.len() == lower.len()
    &&& forall|i: int| 0 <= i < a.len() ==> ascii_lower(#[trigger] a[i]) == lower[i] as u32
}

proof fn lemma_trim_start_shape(s: Seq<char>)
    ensures
        trim_start(s).len() == 0 || !is_white_space(trim_start(s)[0]),
    decreases s.len(),
{
    if s.len() > 0 && is_white_space(s[0]) {
        lemma_trim_start_shape(s.drop_first());
    }
}

proof fn lemma_trim_end_shape(s: Seq<char>)
    ensures
        trim_end(s).len() <= s.len(),
        trim_end(s) == s.subrange(0, trim_end(s).len() as int),
        trim_end(s).len() == 0 || !is_white_space(trim_end(s).last()),
    decreases s.len(),
{
    if s.len() > 0 && is_white_space(s.last()) {
        lemma_trim_end_shape(s.drop_last());
        let t = trim_end(s.drop_last());
        assert(s.drop_last().subrange(0, t.len() as int) =~= s.subrange(0, t.len() as int));
    } else {
        assert(s.subrange(0, s.len() as int) =~= s);
    }
}

/// Trimming twice trims no more than trimming once.
pub proof fn lemma_trim_idempotent(s: Seq<char>)
    ensures
        trim(trim(s)) == trim(s),
{
    let u = trim_start(s);
    let w = trim_end(u);
    lemma_trim_start_shape(s);
    lemma_trim_end_shape(u);
    if w.len() > 0 {
        assert(w[0] == u[0]);
    }
    assert(trim_start(w) == w);
    lemma_trim_end_shape(w);
    assert(trim_end(w) == w);
}

/// The characters of `s`, in order.
pub fn chars_of(s: &str) -> (v: Vec<char>)
    ensures
        v@ == s@,
{
    let mut v: Vec<char> = Vec::new();
    for c in it: s.chars()
        invariant
            it.seq() == s@,
            v@ == it.seq().take(it.index() as int),
    {
        v.push(c);
    }
    v
}

/// Whether `c` is white space in the sense of `is_white_space`.
pub fn is_white_space_char(c: char) -> (r: bool)
    ensures
        r == is_white_space(c),
{
    let u = c as u32;
    (0x09 <= u && u <= 0x0d) || u == 0x20 || u == 0x85 || u == 0xa0 || u == 0x1680 || (0x2000 <= u
        && u <= 0x200a) || u == 0x2028 || u == 0x2029 || u == 0x202f || u == 0x205f || u == 0x3000
}

proof fn lemma_trim_start_skip(s: Seq<char>, i: int)
    requires
        0 <= i < s.len(),
        is_white_space(s[i]),
    ensures
        trim_start(s.subrange(i, s.len() as int)) == trim_start(s.subrange(i + 1, s.len() as int)),
{
    assert(s.subrange(i, s.len() as int).drop_first() =~= s.subrange(i + 1, s.len() as int));
}

proof fn lemma_trim_end_skip(s: Seq<char>, j: int)
    requires
        0 < j <= s.len(),
        is_white_space(s[j - 1]),
    ensures
        trim_end(s.subrange(0, j)) == trim_end(s.subrange(0, j - 1)),
{
    assert(s.subrange(0, j).drop_last() =~= s.subrange(0, j - 1));
}

/// `s` without white space at either end.
pub fn trim_str(s: &str) -> (r: &str)
    ensures
        r@ == trim(s@),
{
    let v = chars_of(s);
    let n = v.len();
    let mut a: usize = 0;
    assert(v@.subrange(0, n as int) =~= v@);
    while a < n && is_white_space_char(v[a])
        invariant
            a <= n,
            n == v@.len(),
            trim_start(v@) == trim_start(v@.subrange(a as int, n as int)),
        decreases n - a,
    {
        proof {
            lemma_trim_start_skip(v@, a as int);
        }
        a = a + 1;
    }
    let ghost t = v@.subrange(a as int, n as int);
    assert(trim_start(v@) == t) by {
        if a < n {
            assert(!is_white_space(t[0]));
        }
    }
    let mut b: usize = n;
    assert(t.subrange(0, (b - a) as int) =~= t);
    while b > a && is_white_space_char(v[b - 1])
        invariant
            a <= b <= n,
            n == v@.len(),
            t == v@.subrange(a as int, n as int),
            trim_end(t) == trim_end(t.subrange(0, (b - a) as int)),
        decreases b - a,
    {
        proof {
            assert(t[(b - a) - 1] == v@[b - 1]);
            lemma_trim_end_skip(t, (b - a) as int);
        }
        b = b - 1;
    }
    proof {
        let u = t.subrange(0, (b - a) as int);
        if b > a {
            assert(u.last() == v@[b - 1]);
        }
        assert(u =~= v@.subrange(a as int, b as int));
    }
    s.substring_char(a, b)
}

/// Whether `a` and `b` hold the same characters.
pub fn chars_eq(a: &[char], b: &[char]) -> (r: bool)
    ensures
        r == (a@ == b@),
{
    if a.len() != b.len() {
        return false;
    }
    let mut i: usize = 0;
    while i < a.len()
        invariant
            i <= a.len(),
            a.len() == b.len(),
            forall|j: int| 0 <= j < i ==> a@[j] == b@[j],
        decreases a.len() - i,
    {
        if a[i] != b[i] {
            return false;
        }
        i = i + 1;
    }
    assert(a@ =~= b@);
    true
}

/// Whether `a`, with its ASCII capitals made small, equals `lower`.
pub fn chars_eq_ignore_ascii_case(a: &[char], lower: &[char]) -> (r: bool)
    ensures
        r == eq_ignore_ascii_case(a@, lower@),
{
    if a.len() != lower.len() {
        return false;
    }
    let mut i: usize = 0;
    while i < a.len()
        invariant
            i <= a.len(),
            a.len() == lower.len(),
            forall|j: int| 0 <= j < i ==> ascii_lower(#[trigger] a@[j]) == lower@[j] as u32,
        decreases a.len() - i,
    {
        let c = a[i] as u32;
        let d = lower[i] as u32;
        let same = if 0x41 <= c && c <= 0x5a {
            c + 32 == d
        } else {
            c == d
        };
        assert(same == (ascii_lower(a@[i as int]) == lower@[i as int] as u32));
        if !same {
            return false;
        }
        i = i + 1;
    }
    true
}

/// Whether `s` begins with `prefix`.
pub fn chars_start_with(s: &[char], prefix: &[char]) -> (r: bool)
    ensures
        r == prefix@.is_prefix_of(s@),
{
    if prefix.len() > s.len() {
        return false;
    }
    let mut i: usize = 0;
    while i < prefix.len()
        invariant
            i <= prefix.len() <= s.len(),
            forall|j: int| 0 <= j < i ==> prefix@[j] == s@[j],
        decreases prefix.len() - i,
    {
        if prefix[i] != s[i] {
            return false;
        }
        i = i + 1;
    }
    true
}

} // verus!
