//! Searching within character sequences.

use vstd::prelude::*;

verus! {

/// `p` occurs in `t` at position `i`.
pub open spec fn matches_at(t: Seq<char>, p: Seq<char>, i: int) -> bool {
    0 <= i && i + p.len() <= t.len() && t.subrange(i, i + p.len()) == p
}

/// The first position at or after `i` where `p` occurs in `t`.
pub open spec fn find_from(t: Seq<char>, p: Seq<char>, i: nat) -> Option<nat>
    decreases t.len() + 1 - i,
{
    if i + p.len() > t.len() {
        None
    } else if matches_at(t, p, i as int) {
        Some(i)
    } else {
        find_from(t, p, i + 1)
    }
}

/// The part of `t` after the last `c`; all of `t` when it holds no `c`.
pub open spec fn after_last(t: Seq<char>, c: char) -> Seq<char>
    decreases t.len(),
{
    if t.len() == 0 {
        t
    } else if t.last() == c {
        Seq::empty()
    } else {
        after_last(t.drop_last(), c).push(t.last())
    }
}

/// The part of `t` before the first `c`; all of `t` when it holds no `c`.
pub open spec fn before_first(t: Seq<char>, c: char) -> Seq<char> {
    match find_from(t, seq![c], 0) {
        Some(i) => t.subrange(0, i as int),
        None => t,
    }
}

/// Whether `p` occurs in `s` at position `i`.
pub fn occurs_at(s: &str, p: &str, i: usize) -> (r: bool)
    ensures
        r == matches_at(s@, p@, i as int),
{
    let n = s.unicode_len();
    let m = p.unicode_len();
    if i > n || m > n - i {
        return false;
    }
    let mut k: usize = 0;
    while k < m
        invariant
            i + m <= n,
            n == s@.len(),
            m == p@.len(),
            k <= m,
            forall|j: int| 0 <= j < k ==> s@[i + j] == p@[j],
        decreases m - k,
    {
        if s.get_char(i + k) != p.get_char(k) {
            assert(s@.subrange(i as int, i + m)[k as int] != p@[k as int]);
            return false;
        }
        k = k + 1;
    }
    assert(s@.subrange(i as int, i + m) =~= p@);
    true
}

proof fn lemma_find_skip(t: Seq<char>, p: Seq<char>, i: nat, j: nat)
    requires
        i <= j,
        forall|k: int| i <= k < j ==> !matches_at(t, p, k),
    ensures
        j + p.len() <= t.len() ==> find_from(t, p, i) == find_from(t, p, j),
    decreases j - i,
{
    if i < j {
        lemma_find_skip(t, p, i + 1, j);
        assert(!matches_at(t, p, i as int));
    }
}

/// The first position where `p` occurs in `s`.
pub fn find(s: &str, p: &str) -> (r: Option<usize>)
    ensures
        r matches Some(i) ==> find_from(s@, p@, 0) == Some(i as nat) && matches_at(s@, p@, i as int),
        r is None ==> find_from(s@, p@, 0) is None,
{
    let n = s.unicode_len();
    let m = p.unicode_len();
    if m > n {
        return None;
    }
    if m == 0 {
        assert(s@.subrange(0, 0) =~= p@);
        return Some(0);
    }
    let mut i: usize = 0;
    while i <= n - m
        invariant
            n == s@.len(),
            m == p@.len(),
            1 <= m <= n,
            i <= n - m + 1,
            forall|k: int| 0 <= k < i ==> !matches_at(s@, p@, k),
        decreases n - m + 1 - i,
    {
        if occurs_at(s, p, i) {
            proof {
                lemma_find_skip(s@, p@, 0, i as nat);
            }
            return Some(i);
        }
        i = i + 1;
    }
    proof {
        lemma_find_skip(s@, p@, 0, (n - m) as nat);
        assert(!matches_at(s@, p@, (n - m) as int));
        assert(find_from(s@, p@, (n - m + 1) as nat) is None);
    }
    None
}

/// The part of `s` after its last `c`; all of `s` when it holds no `c`.
pub fn last_segment(s: &str, c: char) -> (r: &str)
    ensures
        r@ == after_last(s@, c),
{
    let n = s.unicode_len();
    let mut start: usize = 0;
    let mut i: usize = 0;
    while i < n
        invariant
            n == s@.len(),
            start <= i <= n,
            after_last(s@.subrange(0, i as int), c) == s@.subrange(start as int, i as int),
        decreases n - i,
    {
        proof {
            assert(s@.subrange(0, i as int + 1).drop_last() =~= s@.subrange(0, i as int));
        }
        if s.get_char(i) == c {
            start = i + 1;
        }
        i = i + 1;
        assert(after_last(s@.subrange(0, i as int), c) =~= s@.subrange(start as int, i as int));
    }
    assert(s@.subrange(0, n as int) =~= s@);
    s.substring_char(start, n)
}

/// The part of `s` before its first `c`; all of `s` when it holds no `c`.
pub fn first_segment(s: &str, c: char) -> (r: &str)
    ensures
        r@ == before_first(s@, c),
{
    let cs = crate::text::char_text(c);
    match find(s, cs.as_str()) {
        Some(i) => s.substring_char(0, i),
        None => s,
    }
}

} // verus!
