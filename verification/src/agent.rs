//! The advisor agent's output: prioritized recommendations.
use vstd::prelude::*;

verus! {

/// One recommended action the agent surfaces, with priority and risk-gate status.
#[derive(Clone, Debug, PartialEq)]
pub struct Recommendation {
    /// "rebalance" | "harvest" | "concentration" | "cash-drag"
    pub kind: String,
    /// 1 (highest) .. 5
    pub priority: u8,
    pub detail: String,
    /// a concrete action exists that clears the risk gate
    pub admissible: bool,
}

/// The agent's review of an account.
#[derive(Clone, Debug, PartialEq)]
pub struct AdvisorReview {
    pub account_type: String,
    pub recommendations: Vec<Recommendation>,
}

/// The recommendations of priority `p`, in their original order.
pub open spec fn with_priority(s: Seq<Recommendation>, p: int) -> Seq<Recommendation> {
    s.filter(|r: Recommendation| r.priority as int == p)
}

/// The recommendations of priority at least `p`, in their original order.
pub open spec fn from_priority(s: Seq<Recommendation>, p: int) -> Seq<Recommendation> {
    s.filter(|r: Recommendation| r.priority as int >= p)
}

/// The groups of priorities `0 .. n`, lowest first, each group in original order.
pub open spec fn grouped_below(s: Seq<Recommendation>, n: int) -> Seq<Recommendation>
    decreases n,
{
    if n <= 0 {
        Seq::empty()
    } else {
        grouped_below(s, n - 1) + with_priority(s, n - 1)
    }
}

/// A stable sort by priority: the recommendations grouped by ascending priority, each group
/// in its original order.
pub open spec fn by_priority(s: Seq<Recommendation>) -> Seq<Recommendation> {
    grouped_below(s, 256)
}

proof fn lemma_split_filters(s: Seq<Recommendation>, p: int)
    ensures
        from_priority(s, p).filter(|r: Recommendation| r.priority as int == p) == with_priority(s, p),
        from_priority(s, p).filter(|r: Recommendation| r.priority as int != p) == from_priority(
            s,
            p + 1,
        ),
    decreases s.len(),
{
    let ge = |r: Recommendation| r.priority as int >= p;
    let eq = |r: Recommendation| r.priority as int == p;
    let ne = |r: Recommendation| r.priority as int != p;
    let gt = |r: Recommendation| r.priority as int >= p + 1;
    if s.len() == 0 {
        reveal(Seq::filter);
        assert(from_priority(s, p) =~= Seq::<Recommendation>::empty());
        assert(from_priority(s, p).filter(eq) =~= Seq::<Recommendation>::empty());
        assert(from_priority(s, p).filter(ne) =~= Seq::<Recommendation>::empty());
        assert(with_priority(s, p) =~= Seq::<Recommendation>::empty());
        assert(from_priority(s, p + 1) =~= Seq::<Recommendation>::empty());
    } else {
        let init = s.drop_last();
        let x = s.last();
        lemma_split_filters(init, p);
        assert(s =~= init.push(x));
        init.lemma_filter_push(x, ge);
        init.lemma_filter_push(x, eq);
        init.lemma_filter_push(x, gt);
        init.filter(ge).lemma_filter_push(x, eq);
        init.filter(ge).lemma_filter_push(x, ne);
    }
}

proof fn lemma_from_zero(s: Seq<Recommendation>)
    ensures
        from_priority(s, 0) == s,
    decreases s.len(),
{
    if s.len() == 0 {
        reveal(Seq::filter);
        assert(from_priority(s, 0) =~= s);
    } else {
        lemma_from_zero(s.drop_last());
        assert(s =~= s.drop_last().push(s.last()));
        s.drop_last().lemma_filter_push(s.last(), |r: Recommendation| r.priority as int >= 0);
    }
}

/// Stable sort by priority (lowest number = highest priority first).
pub fn sort_by_priority(recs: Vec<Recommendation>) -> (out: Vec<Recommendation>)
    ensures
        out@ == by_priority(recs@),
{
    let ghost input = recs@;
    let mut rest = recs;
    let mut out: Vec<Recommendation> = Vec::new();
    let mut p: u16 = 0;
    proof {
        lemma_from_zero(input);
    }
    assert(out@ =~= grouped_below(input, 0));
    while p < 256
        invariant
            p <= 256,
            out@ == grouped_below(input, p as int),
            rest@ == from_priority(input, p as int),
        decreases 256 - p,
    {
        let ghost rest0 = rest@;
        let ghost out0 = out@;
        let ghost eq = |r: Recommendation| r.priority as int == p as int;
        let ghost ne = |r: Recommendation| r.priority as int != p as int;
        let mut next: Vec<Recommendation> = Vec::new();
        let ghost mut k: int = 0;
        while rest.len() > 0
            invariant
                0 <= k <= rest0.len(),
                rest@ == rest0.skip(k),
                eq == (|r: Recommendation| r.priority as int == p as int),
                ne == (|r: Recommendation| r.priority as int != p as int),
                out@ == out0 + rest0.take(k).filter(eq),
                next@ == rest0.take(k).filter(ne),
            decreases rest@.len(),
        {
            let ghost before = rest@;
            let r = rest.remove(0);
            assert(rest0.take(k + 1) =~= rest0.take(k).push(r));
            proof {
                rest0.take(k).lemma_filter_push(r, eq);
                rest0.take(k).lemma_filter_push(r, ne);
            }
            if r.priority as u16 == p {
                out.push(r);
            } else {
                next.push(r);
            }
            assert(rest@ =~= rest0.skip(k + 1));
            proof {
                k = k + 1;
            }
        }
        assert(rest0.take(k) =~= rest0);
        proof {
            lemma_split_filters(input, p as int);
        }
        rest = next;
        p = p + 1;
    }
    out
}

proof fn lemma_filter_complement_len(t: Seq<Recommendation>, p: int)
    ensures
        t.filter(|r: Recommendation| r.priority as int == p).len() + t.filter(
            |r: Recommendation| r.priority as int != p,
        ).len() == t.len(),
    decreases t.len(),
{
    let eq = |r: Recommendation| r.priority as int == p;
    let ne = |r: Recommendation| r.priority as int != p;
    if t.len() == 0 {
        reveal(Seq::filter);
    } else {
        lemma_filter_complement_len(t.drop_last(), p);
        assert(t =~= t.drop_last().push(t.last()));
        t.drop_last().lemma_filter_push(t.last(), eq);
        t.drop_last().lemma_filter_push(t.last(), ne);
    }
}

proof fn lemma_grouped_props(s: Seq<Recommendation>, n: int)
    requires
        0 <= n,
    ensures
        grouped_below(s, n).len() + from_priority(s, n).len() == s.len(),
        forall|i: int| 0 <= i < grouped_below(s, n).len() ==> (#[trigger] grouped_below(s, n)[i]).priority < n,
        forall|i: int, j: int|
            0 <= i < j < grouped_below(s, n).len() ==> (#[trigger] grouped_below(s, n)[i]).priority
                <= (#[trigger] grouped_below(s, n)[j]).priority,
    decreases n,
{
    if n == 0 {
        lemma_from_zero(s);
    } else {
        lemma_grouped_props(s, n - 1);
        lemma_split_filters(s, n - 1);
        lemma_filter_complement_len(from_priority(s, n - 1), n - 1);
        let g = grouped_below(s, n - 1);
        let w = with_priority(s, n - 1);
        let eq = |r: Recommendation| r.priority as int == n - 1;
        assert(grouped_below(s, n) == g + w);
        assert forall|k: int| 0 <= k < w.len() implies (#[trigger] w[k]).priority == n - 1 by {
            s.lemma_filter_pred(eq, k);
        }
        assert forall|i: int| 0 <= i < grouped_below(s, n).len() implies (#[trigger] grouped_below(
            s,
            n,
        )[i]).priority < n by {
            if i >= g.len() {
                assert(grouped_below(s, n)[i] == w[i - g.len()]);
            } else {
                assert(grouped_below(s, n)[i] == g[i]);
            }
        }
        assert forall|i: int, j: int| 0 <= i < j < grouped_below(s, n).len() implies (
        #[trigger] grouped_below(s, n)[i]).priority <= (#[trigger] grouped_below(s, n)[j]).priority by {
            if j < g.len() {
                assert(grouped_below(s, n)[i] == g[i] && grouped_below(s, n)[j] == g[j]);
            } else if i < g.len() {
                assert(grouped_below(s, n)[i] == g[i] && grouped_below(s, n)[j] == w[j - g.len()]);
            } else {
                assert(grouped_below(s, n)[i] == w[i - g.len()] && grouped_below(s, n)[j] == w[j
                    - g.len()]);
            }
        }
    }
}

/// Sorting by priority loses nothing and orders: the result has every recommendation
/// (as many as were given) and its priorities never decrease.
pub proof fn lemma_by_priority_sorted_and_complete(s: Seq<Recommendation>)
    ensures
        by_priority(s).len() == s.len(),
        forall|i: int, j: int|
            0 <= i < j < by_priority(s).len() ==> (#[trigger] by_priority(s)[i]).priority
                <= (#[trigger] by_priority(s)[j]).priority,
{
    lemma_grouped_props(s, 256);
    let ge = |r: Recommendation| r.priority as int >= 256;
    if from_priority(s, 256).len() > 0 {
        s.lemma_filter_pred(ge, 0);
    }
}

} // verus!
