//! Text operations on paths and header values, each with the meaning of the
//! `str` method it stands for written out over `Seq<char>`.

use vstd::prelude::*;

verus! {

/// `p` is a prefix of `s`.
pub open spec fn has_prefix(s: Seq<char>, p: Seq<char>) -> bool {
    p.len() <= s.len() && s.subrange(0, p.len() as int) == p
}

/// `p` occurs in `s` at position `i`.
pub open spec fn occurs_at(s: Seq<char>, p: Seq<char>, i: int) -> bool {
    0 <= i && i + p.len() <= s.len() && s.subrange(i, i + p.len()) == p
}

/// `p` occurs somewhere in `s` (the empty text occurs in every text).
pub open spec fn contains_text(s: Seq<char>, p: Seq<char>) -> bool {
    exists|i: int| occurs_at(s, p, i)
}

/// What `str::trim_start_matches(s, p)` leaves: every leading repetition of
/// `p` removed (nothing is removed when `p` is empty).
pub open spec fn trim_start(s: Seq<char>, p: Seq<char>) -> Seq<char>
    decreases s.len(),
{
    if p.len() > 0 && has_prefix(s, p) {
        trim_start(s.skip(p.len() as int), p)
    } else {
        s
    }
}

/// The position of the first `c` in `s` at or after `from`, or `s.len()`.
pub open spec fn find_char(s: Seq<char>, c: char, from: int) -> int
    decreases s.len() - from,
{
    if from < 0 || from >= s.len() {
        s.len() as int
    } else if s[from] == c {
        from
    } else {
        find_char(s, c, from + 1)
    }
}

/// The first two pieces of `s.split('/')`, when it has at least two.
pub open spec fn split_two(s: Seq<char>) -> Option<(Seq<char>, Seq<char>)> {
    let e0 = find_char(s, '/', 0);
    if e0 < s.len() {
        let e1 = find_char(s, '/', e0 + 1);
        Some((s.subrange(0, e0), s.subrange(e0 + 1, e1)))
    } else {
        None
    }
}

/// `c` does not occur in `s`.
pub open spec fn lacks_char(s: Seq<char>, c: char) -> bool {
    forall|i: int| 0 <= i < s.len() ==> s[i] != c
}

pub proof fn lemma_find_char_bounds(s: Seq<char>, c: char, from: int)
    requires
        0 <= from,
    ensures
        from <= find_char(s, c, from) <= s.len() || (from > s.len() && find_char(s, c, from)
            == s.len()),
        find_char(s, c, from) < s.len() ==> s[find_char(s, c, from)] == c,
        forall|k: int| from <= k < find_char(s, c, from) ==> s[k] != c,
    decreases s.len() - from,
{
    if from < s.len() && s[from] != c {
        lemma_find_char_bounds(s, c, from + 1);
    }
}

pub proof fn lemma_find_char_is(s: Seq<char>, c: char, from: int, e: int)
    requires
        0 <= from <= e <= s.len(),
        forall|j: int| from <= j < e ==> s[j] != c,
        e == s.len() || s[e] == c,
    ensures
        find_char(s, c, from) == e,
    decreases e - from,
{
    if from < e {
        lemma_find_char_is(s, c, from + 1, e);
    }
}

/// The characters of a text, one by one.
pub fn chars_of(s: &str) -> (v: Vec<char>)
    ensures
        v@ == s@,
{
    let n = s.unicode_len();
    let mut v: Vec<char> = Vec::new();
    let mut i: usize = 0;
    while i < n
        invariant
            n == s@.len(),
            i <= n,
            v@ == s@.subrange(0, i as int),
        decreases n - i,
    {
        let c = s.get_char(i);
        v.push(c);
        i = i + 1;
        assert(v@ =~= s@.subrange(0, i as int));
    }
    assert(v@ =~= s@);
    v
}

/// Whether `p` occurs in `s` at position `i`.
pub fn occurs_at_exec(s: &Vec<char>, p: &Vec<char>, i: usize) -> (r: bool)
    ensures
        r == occurs_at(s@, p@, i as int),
{
    if i > s.len() || p.len() > s.len() - i {
        return false;
    }
    let mut k: usize = 0;
    while k < p.len()
        invariant
            i + p.len() <= s.len(),
            k <= p.len(),
            forall|j: int| 0 <= j < k ==> s@[i + j] == p@[j],
        decreases p.len() - k,
    {
        if s[i + k] != p[k] {
            assert(s@.subrange(i as int, i + p.len())[k as int] != p@[k as int]);
            return false;
        }
        k = k + 1;
    }
    assert(s@.subrange(i as int, i + p.len()) =~= p@);
    true
}

/// `str::starts_with`.
pub fn starts_with(s: &str, p: &str) -> (r: bool)
    ensures
        r == has_prefix(s@, p@),
{
    let sv = chars_of(s);
    let pv = chars_of(p);
    occurs_at_exec(&sv, &pv, 0)
}

/// `str::contains` with a text pattern.
pub fn contains(s: &str, p: &str) -> (r: bool)
    ensures
        r == contains_text(s@, p@),
{
    let sv = chars_of(s);
    let pv = chars_of(p);
    if pv.len() > sv.len() {
        assert forall|i: int| !occurs_at(s@, p@, i) by {}
        return false;
    }
    let last = sv.len() - pv.len();
    let mut i: usize = 0;
    while i < last
        invariant
            sv@ == s@,
            pv@ == p@,
            last == sv.len() - pv.len(),
            i <= last,
            forall|j: int| 0 <= j < i ==> !occurs_at(s@, p@, j),
        decreases last - i,
    {
        if occurs_at_exec(&sv, &pv, i) {
            return true;
        }
        i = i + 1;
    }
    if occurs_at_exec(&sv, &pv, last) {
        return true;
    }
    assert forall|j: int| !occurs_at(s@, p@, j) by {
        if 0 <= j < i {
        }
    }
    false
}

/// Whether two texts are the same.
pub fn same_text(a: &str, b: &str) -> (r: bool)
    ensures
        r == (a@ == b@),
{
    let av = chars_of(a);
    let bv = chars_of(b);
    if av.len() != bv.len() {
        return false;
    }
    let r = occurs_at_exec(&av, &bv, 0);
    proof {
        if r {
            assert(a@ =~= a@.subrange(0, b@.len() as int));
        } else {
            assert(a@.subrange(0, b@.len() as int) =~= a@);
        }
    }
    r
}

proof fn lemma_skip_skip(s: Seq<char>, i: int, k: int)
    requires
        0 <= i,
        0 <= k,
        i + k <= s.len(),
    ensures
        s.skip(i).skip(k) == s.skip(i + k),
{
    assert(s.skip(i).skip(k) =~= s.skip(i + k));
}

/// `str::trim_start_matches` with a text pattern.
pub fn trim_start_matches(s: &str, p: &str) -> (r: String)
    ensures
        r@ == trim_start(s@, p@),
{
    let sv = chars_of(s);
    let pv = chars_of(p);
    let n = sv.len();
    let mut i: usize = 0;
    assert(s@.skip(0) =~= s@);
    while pv.len() > 0 && occurs_at_exec(&sv, &pv, i)
        invariant
            sv@ == s@,
            pv@ == p@,
            n == s@.len(),
            i <= n,
            trim_start(s@, p@) == trim_start(s@.skip(i as int), p@),
        decreases n - i,
    {
        proof {
            assert(s@.skip(i as int).subrange(0, p@.len() as int) =~= s@.subrange(
                i as int,
                i + p@.len(),
            ));
            lemma_skip_skip(s@, i as int, p@.len() as int);
        }
        i = i + pv.len();
    }
    proof {
        if p@.len() > 0 {
            if has_prefix(s@.skip(i as int), p@) {
                assert(s@.skip(i as int).subrange(0, p@.len() as int) =~= s@.subrange(
                    i as int,
                    i + p@.len(),
                ));
            }
        }
    }
    let rest = s.substring_char(i, n);
    assert(rest@ =~= s@.skip(i as int));
    String::from_str(rest)
}

/// The position of the first `c` at or after `from`, or the length.
fn find_char_exec(s: &Vec<char>, c: char, from: usize) -> (r: usize)
    requires
        from <= s.len(),
    ensures
        r == find_char(s@, c, from as int),
{
    let mut k = from;
    while k < s.len() && s[k] != c
        invariant
            from <= k <= s.len(),
            find_char(s@, c, from as int) == find_char(s@, c, k as int),
        decreases s.len() - k,
    {
        k = k + 1;
    }
    k
}

/// The first two pieces of `s.split('/')`, or `None` when `s` holds no `/`.
pub fn split_two_exec(s: &str) -> (r: Option<(String, String)>)
    ensures
        r matches Some(pair) ==> split_two(s@) == Some((pair.0@, pair.1@)),
        r is None ==> split_two(s@) is None,
{
    let sv = chars_of(s);
    let e0 = find_char_exec(&sv, '/', 0);
    if e0 < sv.len() {
        let e1 = find_char_exec(&sv, '/', e0 + 1);
        proof {
            lemma_find_char_bounds(s@, '/', e0 + 1);
        }
        let a = String::from_str(s.substring_char(0, e0));
        let b = String::from_str(s.substring_char(e0 + 1, e1));
        Some((a, b))
    } else {
        None
    }
}

} // verus!
