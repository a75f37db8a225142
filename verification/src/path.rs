//! Unix path arithmetic on character sequences, as `std::path` performs it.

use vstd::prelude::*;
use crate::text::chars_of;

verus! {

broadcast use vstd::string::group_string_axioms;

/// The largest `k < e` with `s[k] == c`, or `-1` if there is none.
pub open spec fn last_index_before(s: Seq<char>, c: char, e: int) -> int
    decreases e,
{
    if e <= 0 {
        -1
    } else if s[e - 1] == c {
        e - 1
    } else {
        last_index_before(s, c, e - 1)
    }
}

pub proof fn lemma_last_index_before_bounds(s: Seq<char>, c: char, e: int)
    ensures
        -1 <= last_index_before(s, c, e),
        e > 0 ==> last_index_before(s, c, e) < e,
        last_index_before(s, c, e) >= 0 ==> s[last_index_before(s, c, e)] == c,
    decreases e,
{
    if e > 0 && s[e - 1] != c {
        lemma_last_index_before_bounds(s, c, e - 1);
    }
}

/// Last index search on a prefix only looks at that prefix.
proof fn lemma_last_index_before_found(s: Seq<char>, c: char, e: int, k: int)
    requires
        0 <= k <= e <= s.len(),
        forall|j: int| k <= j < e ==> s[j] != c,
        k == 0 || s[k - 1] == c,
    ensures
        last_index_before(s, c, e) == k - 1,
    decreases e,
{
    if e > k {
        lemma_last_index_before_found(s, c, e - 1, k);
    }
}

/// `rel` appended to `base` as `Path::join` does it on Unix: an absolute
/// `rel` replaces `base`; otherwise a `/` is put between the two unless
/// `base` is empty or already ends in `/`.
pub open spec fn join(base: Seq<char>, rel: Seq<char>) -> Seq<char> {
    if rel.len() > 0 && rel[0] == '/' {
        rel
    } else if base.len() > 0 && base.last() != '/' {
        base + seq!['/'] + rel
    } else {
        base + rel
    }
}

/// The last component of `s` as `Path::file_name` gives it on Unix: trailing
/// `/` and `.` components are passed over, a last component `..` or a path
/// with no normal component has no file name.
pub open spec fn file_name(s: Seq<char>) -> Option<Seq<char>>
    decreases s.len(),
{
    if s.len() == 0 {
        None
    } else if s.last() == '/' {
        file_name(s.drop_last())
    } else {
        let k = last_index_before(s, '/', s.len() as int) + 1;
        let piece = s.subrange(k, s.len() as int);
        if piece == seq!['.'] {
            proof {
                lemma_last_index_before_bounds(s, '/', s.len() as int);
            }
            file_name(s.subrange(0, k))
        } else if piece == seq!['.', '.'] {
            None
        } else {
            Some(piece)
        }
    }
}

/// The extension of a file name as `Path::extension` gives it: what follows
/// the last `.`, unless there is no `.` or the only one opens the name.
pub open spec fn extension(name: Seq<char>) -> Option<Seq<char>> {
    let k = last_index_before(name, '.', name.len() as int);
    if k <= 0 {
        None
    } else {
        Some(name.subrange(k + 1, name.len() as int))
    }
}

/// The extension of the file that path `s` names, if any.
pub open spec fn path_extension(s: Seq<char>) -> Option<Seq<char>> {
    match file_name(s) {
        Some(name) => extension(name),
        None => None,
    }
}

/// The characters `v[a..b]` as a vector of their own.
pub fn sub_chars(v: &Vec<char>, a: usize, b: usize) -> (r: Vec<char>)
    requires
        a <= b <= v.len(),
    ensures
        r@ == v@.subrange(a as int, b as int),
{
    let mut r: Vec<char> = Vec::new();
    let mut i = a;
    while i < b
        invariant
            a <= i <= b <= v.len(),
            r@ == v@.subrange(a as int, i as int),
        decreases b - i,
    {
        r.push(v[i]);
        i = i + 1;
        assert(r@ =~= v@.subrange(a as int, i as int));
    }
    r
}

/// Where the file name of path `v` lies in it, if the path has one.
pub fn file_name_range(v: &Vec<char>) -> (r: Option<(usize, usize)>)
    ensures
        match r {
            None => file_name(v@) is None,
            Some((a, b)) => a <= b <= v.len() && file_name(v@) == Some(v@.subrange(a as int, b as int)),
        },
{
    let n = v.len();
    let mut e: usize = n;
    assert(v@.subrange(0, n as int) =~= v@);
    loop
        invariant
            e <= n,
            n == v.len(),
            file_name(v@) == file_name(v@.subrange(0, e as int)),
        decreases e,
    {
        let ghost t = v@.subrange(0, e as int);
        if e == 0 {
            return None;
        }
        if v[e - 1] == '/' {
            assert(t.drop_last() =~= v@.subrange(0, e - 1));
            e = e - 1;
            continue;
        }
        let mut k: usize = e;
        while k > 0 && v[k - 1] != '/'
            invariant
                k <= e <= n,
                n == v.len(),
                forall|j: int| k <= j < e ==> v@[j] != '/',
            decreases k,
        {
            k = k - 1;
        }
        proof {
            lemma_last_index_before_found(t, '/', e as int, k as int);
        }
        let ghost piece = t.subrange(k as int, e as int);
        assert(piece =~= v@.subrange(k as int, e as int));
        if e - k == 1 && v[k] == '.' {
            assert(piece =~= seq!['.']);
            assert(t.subrange(0, k as int) =~= v@.subrange(0, k as int));
            e = k;
            continue;
        }
        if e - k == 2 && v[k] == '.' && v[k + 1] == '.' {
            assert(piece =~= seq!['.', '.']);
            return None;
        }
        assert(piece != seq!['.']) by {
            if piece == seq!['.'] {
                assert(piece[0] == '.');
            }
        }
        assert(piece != seq!['.', '.']) by {
            if piece == seq!['.', '.'] {
                assert(piece[0] == '.' && piece[1] == '.');
            }
        }
        return Some((k, e));
    }
}

/// The extension of file name `name`, if any.
pub fn extension_chars(name: &Vec<char>) -> (r: Option<Vec<char>>)
    ensures
        match r {
            None => extension(name@) is None,
            Some(x) => extension(name@) == Some(x@),
        },
{
    let n = name.len();
    let mut k: usize = n;
    while k > 0 && name[k - 1] != '.'
        invariant
            k <= n,
            n == name.len(),
            forall|j: int| k <= j < n ==> name@[j] != '.',
        decreases k,
    {
        k = k - 1;
    }
    proof {
        lemma_last_index_before_found(name@, '.', n as int, k as int);
    }
    if k <= 1 {
        None
    } else {
        Some(sub_chars(name, k, n))
    }
}

/// The extension of the file that path `s` names, if any.
pub fn path_extension_chars(s: &str) -> (r: Option<Vec<char>>)
    ensures
        match r {
            None => path_extension(s@) is None,
            Some(x) => path_extension(s@) == Some(x@),
        },
{
    let v = chars_of(s);
    match file_name_range(&v) {
        None => None,
        Some((a, b)) => {
            let name = sub_chars(&v, a, b);
            extension_chars(&name)
        },
    }
}

/// `rel` joined onto `base` as `Path::new(base).join(rel)` does it on Unix.
pub fn join_path(base: &str, rel: &str) -> (r: String)
    ensures
        r@ == join(base@, rel@),
{
    proof {
        reveal_strlit("/");
    }
    let r = chars_of(rel);
    if r.len() > 0 && r[0] == '/' {
        return String::from_str(rel);
    }
    let b = chars_of(base);
    let mut out = String::from_str(base);
    if b.len() > 0 && b[b.len() - 1] != '/' {
        out.append("/");
    }
    out.append(rel);
    out
}

/// A path that `join` built ends with its relative part.
pub proof fn lemma_join_ends_with(base: Seq<char>, rel: Seq<char>)
    ensures
        rel.is_suffix_of(join(base, rel)),
{
    let j = join(base, rel);
    assert(j.subrange(j.len() - rel.len(), j.len() as int) =~= rel);
}

} // verus!
