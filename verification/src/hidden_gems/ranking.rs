//! Stable ranking by score: the top entries of a list of scores, highest
//! first, ties kept in list order.
use vstd::prelude::*;

verus! {

/// Entry `i` ranks before entry `j`: a higher score, or an equal score and
/// an earlier position.
pub open spec fn ranks_before(s: Seq<int>, i: int, j: int) -> bool {
    s[i] > s[j] || (s[i] == s[j] && i < j)
}

/// Entry `j` may follow `prev` in the ranking.
pub open spec fn after(s: Seq<int>, prev: Option<int>, j: int) -> bool {
    match prev {
        Some(p) => ranks_before(s, p, j),
        None => true,
    }
}

/// `b` is the best-ranked entry among those that may follow `prev`.
pub open spec fn is_next(s: Seq<int>, prev: Option<int>, b: int) -> bool {
    &&& 0 <= b < s.len()
    &&& after(s, prev, b)
    &&& forall|j: int| 0 <= j < s.len() && after(s, prev, j) && j != b ==> ranks_before(s, b, j)
}

/// The entry that follows `prev` in the ranking, if any.
pub open spec fn next_ranked(s: Seq<int>, prev: Option<int>) -> Option<int> {
    if exists|b: int| is_next(s, prev, b) {
        Some(choose|b: int| is_next(s, prev, b))
    } else {
        None
    }
}

/// The positions of the first `m` entries of the ranking of `s`, in
/// ranking order (fewer when `s` has fewer entries).
pub open spec fn top_ranked(s: Seq<int>, m: nat) -> Seq<int>
    decreases m,
{
    if m == 0 {
        Seq::empty()
    } else {
        let p = top_ranked(s, (m - 1) as nat);
        let prev = if p.len() == 0 {
            None
        } else {
            Some(p.last())
        };
        match next_ranked(s, prev) {
            Some(b) => p.push(b),
            None => p,
        }
    }
}

/// The scores as integers.
pub open spec fn as_ints(v: Seq<u128>) -> Seq<int> {
    v.map_values(|x: u128| x as int)
}

proof fn lemma_next_unique(s: Seq<int>, prev: Option<int>, b: int)
    requires
        is_next(s, prev, b),
    ensures
        next_ranked(s, prev) == Some(b),
{
    let c = choose|c: int| is_next(s, prev, c);
    if c != b {
        assert(ranks_before(s, b, c));
        assert(ranks_before(s, c, b));
    }
}

/// The positions of the `m` best-ranked entries of `scores`, in ranking
/// order.
pub fn rank_top(scores: &Vec<u128>, m: usize) -> (r: Vec<usize>)
    ensures
        r@.map_values(|i: usize| i as int) == top_ranked(as_ints(scores@), m as nat),
{
    let ghost s = as_ints(scores@);
    let mut r: Vec<usize> = Vec::new();
    let mut k: usize = 0;
    let mut done = false;
    while k < m
        invariant
            s == as_ints(scores@),
            k <= m,
            forall|j: int| 0 <= j < r@.len() ==> r@[j] < scores@.len(),
            r@.map_values(|i: usize| i as int) == top_ranked(s, k as nat),
            done ==> next_ranked(s, if r@.len() == 0 { None } else { Some(r@.last() as int) }) is None,
        decreases m - k,
    {
        let ghost prev: Option<int> = if r@.len() == 0 { None } else { Some(r@.last() as int) };
        let ghost before = r@.map_values(|i: usize| i as int);
        assert(before.len() == r@.len());
        if r.len() > 0 {
            assert(before.last() == r@.last() as int);
        }
        let mut best: Option<usize> = None;
        if !done {
            let mut i: usize = 0;
            while i < scores.len()
                invariant
                    s == as_ints(scores@),
                    i <= scores@.len(),
                    forall|j: int| 0 <= j < r@.len() ==> r@[j] < scores@.len(),
                    prev == (if r@.len() == 0 { None } else { Some(r@.last() as int) }),
                    match best {
                        Some(b) => {
                            &&& b < i
                            &&& after(s, prev, b as int)
                            &&& forall|j: int| 0 <= j < i && after(s, prev, j) && j != b ==> ranks_before(s, b as int, j)
                        },
                        None => forall|j: int| 0 <= j < i ==> !after(s, prev, j),
                    },
                decreases scores@.len() - i,
            {
                let follows = if r.len() == 0 {
                    true
                } else {
                    let p = r[r.len() - 1];
                    scores[p] > scores[i] || (scores[p] == scores[i] && p < i)
                };
                if follows {
                    match best {
                        None => {
                            best = Some(i);
                        },
                        Some(b) => {
                            if scores[i] > scores[b] {
                                best = Some(i);
                            }
                        },
                    }
                }
                i = i + 1;
            }
        }
        match best {
            Some(b) => {
                proof {
                    lemma_next_unique(s, prev, b as int);
                }
                r.push(b);
                assert(r@.map_values(|i: usize| i as int) =~= before.push(b as int));
            },
            None => {
                proof {
                    if !done {
                        assert(!exists|b: int| is_next(s, prev, b));
                    }
                }
                done = true;
            },
        }
        k = k + 1;
    }
    r
}


/// Ranking is transitive.
proof fn lemma_ranks_before_transitive(s: Seq<int>, a: int, b: int, c: int)
    requires
        ranks_before(s, a, b),
        ranks_before(s, b, c),
    ensures
        ranks_before(s, a, c),
{
}

/// When some entry may follow `prev`, a best one does.
proof fn lemma_next_exists(s: Seq<int>, prev: Option<int>, j: int)
    requires
        0 <= j < s.len(),
        after(s, prev, j),
    ensures
        next_ranked(s, prev) is Some,
{
    let b = best_upto(s, prev, s.len() as int);
    assert(is_next(s, prev, b));
}

/// The best entry that may follow `prev` among the first `n`, when one may.
proof fn best_upto(s: Seq<int>, prev: Option<int>, n: int) -> (b: int)
    requires
        0 <= n <= s.len(),
        exists|j: int| 0 <= j < n && after(s, prev, j),
    ensures
        0 <= b < n,
        after(s, prev, b),
        forall|j: int| 0 <= j < n && after(s, prev, j) && j != b ==> ranks_before(s, b, j),
    decreases n,
{
    if exists|j: int| 0 <= j < n - 1 && after(s, prev, j) {
        let c = best_upto(s, prev, n - 1);
        if after(s, prev, n - 1) && s[n - 1] > s[c] {
            assert forall|j: int| 0 <= j < n && after(s, prev, j) && j != n - 1 implies ranks_before(
                s,
                n - 1,
                j,
            ) by {
                if j != c {
                    lemma_ranks_before_transitive(s, n - 1, c, j);
                }
            }
            n - 1
        } else {
            c
        }
    } else {
        n - 1
    }
}

/// What the ranking gives: at most `m` positions, each a position of `s`,
/// strictly in ranking order (a higher score first, ties in list order);
/// every position left out ranks after the last one taken, and fewer than
/// `m` are taken only when none is left out.
pub proof fn lemma_top_ranked(s: Seq<int>, m: nat)
    ensures
        top_ranked(s, m).len() <= m,
        forall|k: int| 0 <= k < top_ranked(s, m).len() ==> 0 <= #[trigger] top_ranked(s, m)[k] < s.len(),
        forall|k: int, k2: int|
            0 <= k < k2 < top_ranked(s, m).len() ==> ranks_before(
                s,
                #[trigger] top_ranked(s, m)[k],
                #[trigger] top_ranked(s, m)[k2],
            ),
        forall|j: int|
            0 <= j < s.len() && !top_ranked(s, m).contains(j) ==> top_ranked(s, m).len() == m && (m > 0
                ==> ranks_before(s, top_ranked(s, m).last(), j)),
    decreases m,
{
    if m > 0 {
        lemma_top_ranked(s, (m - 1) as nat);
        let p = top_ranked(s, (m - 1) as nat);
        let prev = if p.len() == 0 { None } else { Some(p.last()) };
        let t = top_ranked(s, m);
        // No position already taken may follow the last one.
        assert forall|k: int| 0 <= k < p.len() implies !after(s, prev, #[trigger] p[k]) by {
            if k < p.len() - 1 {
                assert(ranks_before(s, p[k], p[p.len() - 1]));
            }
        }
        // Every position left out may follow the last one.
        assert forall|j: int| 0 <= j < s.len() && !p.contains(j) implies after(s, prev, j) by {
            if p.len() > 0 {
                assert(ranks_before(s, p.last(), j));
            }
        }
        match next_ranked(s, prev) {
            Some(b) => {
                assert(is_next(s, prev, choose|c: int| is_next(s, prev, c)));
                assert(is_next(s, prev, b));
                assert(t == p.push(b));
                if p.contains(b) {
                    let k = choose|k: int| 0 <= k < p.len() && p[k] == b;
                    assert(!after(s, prev, p[k]));
                }
                if p.len() < m - 1 {
                    assert(p.contains(b));
                }
                assert forall|k: int, k2: int| 0 <= k < k2 < t.len() implies ranks_before(
                    s,
                    #[trigger] t[k],
                    #[trigger] t[k2],
                ) by {
                    if k2 == t.len() - 1 {
                        assert(t[k2] == b);
                        if k < p.len() - 1 {
                            assert(ranks_before(s, p[k], p.last()));
                            lemma_ranks_before_transitive(s, p[k], p.last(), b);
                        }
                    } else {
                        assert(t[k] == p[k] && t[k2] == p[k2]);
                    }
                }
                assert forall|j: int| 0 <= j < s.len() && !t.contains(j) implies t.len() == m && (m > 0
                    ==> ranks_before(s, t.last(), j)) by {
                    if p.contains(j) {
                        let k = choose|k: int| 0 <= k < p.len() && p[k] == j;
                        assert(t[k] == j);
                    }
                    assert(j != b) by {
                        assert(t[t.len() - 1] == b);
                    }
                    assert(after(s, prev, j));
                }
            },
            None => {
                assert(t == p);
                assert forall|j: int| 0 <= j < s.len() && !t.contains(j) implies t.len() == m && (m > 0
                    ==> ranks_before(s, t.last(), j)) by {
                    assert(after(s, prev, j));
                    lemma_next_exists(s, prev, j);
                }
            },
        }
    }
}

} // verus!
