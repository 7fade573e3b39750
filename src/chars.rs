//! Character sequences: prefixes, substrings and path joining.
use vstd::prelude::*;

verus! {

pub open spec fn has_prefix(s: Seq<char>, p: Seq<char>) -> bool {
    p.len() <= s.len() && s.subrange(0, p.len() as int) == p
}

pub open spec fn has_suffix(s: Seq<char>, p: Seq<char>) -> bool {
    p.len() <= s.len() && s.subrange(s.len() - p.len(), s.len() as int) == p
}

pub open spec fn occurs_at(s: Seq<char>, p: Seq<char>, i: int) -> bool {
    0 <= i && i + p.len() <= s.len() && s.subrange(i, i + p.len()) == p
}

pub open spec fn contains_seq(s: Seq<char>, p: Seq<char>) -> bool {
    exists|i: int| #[trigger] occurs_at(s, p, i)
}

/// `b` appended to the path `a`, with a separator between them unless `a`
/// is empty or already ends with one.
pub open spec fn join_path(a: Seq<char>, b: Seq<char>) -> Seq<char> {
    if a.len() > 0 && a.last() != '/' {
        a + seq!['/'] + b
    } else {
        a + b
    }
}

pub fn chars_of(s: &str) -> (r: Vec<char>)
    ensures
        r@ == s@,
{
    let n = s.unicode_len();
    let mut v: Vec<char> = Vec::new();
    let mut i: usize = 0;
    while i < n
        invariant
            n == s@.len(),
            i <= n,
            v@ == s@.subrange(0, i as int),
        decreases n - i,
    {
        v.push(s.get_char(i));
        i = i + 1;
        assert(v@ =~= s@.subrange(0, i as int));
    }
    assert(v@ =~= s@);
    v
}

pub fn matches_at(s: &Vec<char>, p: &Vec<char>, i: usize) -> (r: bool)
    ensures
        r == occurs_at(s@, p@, i as int),
{
    if i > s.len() || p.len() > s.len() - i {
        return false;
    }
    let mut k: usize = 0;
    while k < p.len()
        invariant
            i + p@.len() <= s@.len(),
            s@.len() <= usize::MAX,
            k <= p@.len(),
            s@.subrange(i as int, i + k) == p@.subrange(0, k as int),
        decreases p@.len() - k,
    {
        if s[i + k] != p[k] {
            assert(s@.subrange(i as int, i + p@.len())[k as int] != p@[k as int]);
            return false;
        }
        k = k + 1;
        assert(s@.subrange(i as int, i + k) =~= p@.subrange(0, k as int));
    }
    assert(p@.subrange(0, k as int) =~= p@);
    true
}

pub fn contains_chars(s: &Vec<char>, p: &Vec<char>) -> (r: bool)
    ensures
        r == contains_seq(s@, p@),
{
    let mut i: usize = 0;
    while i < s.len()
        invariant
            i <= s@.len(),
            forall|j: int| 0 <= j < i ==> !occurs_at(s@, p@, j),
        decreases s@.len() - i,
    {
        if matches_at(s, p, i) {
            return true;
        }
        i = i + 1;
    }
    if matches_at(s, p, i) {
        return true;
    }
    assert forall|j: int| !(#[trigger] occurs_at(s@, p@, j)) by {
        if 0 <= j <= i {
        }
    }
    false
}

pub fn str_contains(s: &str, p: &str) -> (r: bool)
    ensures
        r == contains_seq(s@, p@),
{
    contains_chars(&chars_of(s), &chars_of(p))
}

pub fn str_starts_with(s: &str, p: &str) -> (r: bool)
    ensures
        r == has_prefix(s@, p@),
{
    matches_at(&chars_of(s), &chars_of(p), 0)
}

pub fn str_ends_with(s: &str, p: &str) -> (r: bool)
    ensures
        r == has_suffix(s@, p@),
{
    let sv = chars_of(s);
    let pv = chars_of(p);
    if pv.len() > sv.len() {
        return false;
    }
    matches_at(&sv, &pv, sv.len() - pv.len())
}

pub fn join_path_str(a: &str, b: &str) -> (r: String)
    ensures
        r@ == join_path(a@, b@),
{
    let n = a.unicode_len();
    if n > 0 && a.get_char(n - 1) != '/' {
        proof {
            reveal_strlit("/");
        }
        String::from_str(a).concat("/").concat(b)
    } else {
        String::from_str(a).concat(b)
    }
}

pub fn str_equals(a: &str, b: &str) -> (r: bool)
    ensures
        r == (a@ == b@),
{
    let av = chars_of(a);
    let bv = chars_of(b);
    if av.len() != bv.len() {
        return false;
    }
    let r = matches_at(&av, &bv, 0);
    assert(av@ =~= av@.subrange(0, bv@.len() as int));
    r
}

/// The views of a sequence of strings.
pub open spec fn views(v: Seq<String>) -> Seq<Seq<char>> {
    v.map_values(|s: String| s@)
}

} // verus!
