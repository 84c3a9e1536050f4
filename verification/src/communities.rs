//! The strategist-model marketplace: free-text search over the published models.
use vstd::prelude::*;

use crate::text::{
    contains_str, contains_text, has_substring, lemma_lex_order, lex_lt, str_eq, str_lt, strs,
    to_lowercase, to_uppercase, trim, trim_spec, unicode_lowercase, unicode_uppercase,
};

verus! {

/// The text of a marketplace model that search reads.
#[derive(Clone, Debug, PartialEq)]
pub struct ModelListing {
    pub name: String,
    pub sub_advisor: String,
    pub category: String,
}

/// The normalised query: trimmed, then lowercased.
pub open spec fn search_query(query: Seq<char>) -> Seq<char> {
    unicode_lowercase(trim_spec(query))
}

/// A listing matches a (normalised, non-empty) query when its lowercased name,
/// sub-advisor or category contains it.
pub open spec fn listing_matches(m: ModelListing, q: Seq<char>) -> bool {
    has_substring(unicode_lowercase(m.name@), q) || has_substring(
        unicode_lowercase(m.sub_advisor@),
        q,
    ) || has_substring(unicode_lowercase(m.category@), q)
}

/// The positions of the listings a normalised query selects, in marketplace order: all of
/// them for an empty query.
pub open spec fn search_spec(ms: Seq<ModelListing>, q: Seq<char>) -> Seq<nat>
    decreases ms.len(),
{
    if ms.len() == 0 {
        Seq::empty()
    } else {
        let r = search_spec(ms.drop_last(), q);
        if q.len() == 0 || listing_matches(ms.last(), q) {
            r.push((ms.len() - 1) as nat)
        } else {
            r
        }
    }
}

/// What search selects, stated listing by listing: a position is selected exactly when it
/// is a position of the marketplace and the query is empty or occurs in the lowercased name,
/// sub-advisor or category of the listing there; the positions come out in increasing order.
pub proof fn lemma_search_selects(ms: Seq<ModelListing>, q: Seq<char>)
    ensures
        forall|k: nat| #[trigger] search_spec(ms, q).contains(k) ==> k < ms.len(),
        forall|k: nat|
            k < ms.len() ==> (#[trigger] search_spec(ms, q).contains(k) <==> (q.len() == 0
                || has_substring(unicode_lowercase(ms[k as int].name@), q) || has_substring(
                unicode_lowercase(ms[k as int].sub_advisor@),
                q,
            ) || has_substring(unicode_lowercase(ms[k as int].category@), q))),
        forall|a: int, b: int|
            0 <= a < b < search_spec(ms, q).len() ==> search_spec(ms, q)[a] < search_spec(ms, q)[b],
    decreases ms.len(),
{
    if ms.len() > 0 {
        let p = ms.drop_last();
        let r = search_spec(p, q);
        let n = (ms.len() - 1) as nat;
        lemma_search_selects(p, q);
        let hit = q.len() == 0 || listing_matches(ms.last(), q);
        if hit {
            assert(search_spec(ms, q) == r.push(n));
        } else {
            assert(search_spec(ms, q) == r);
        }
        assert forall|k: nat| #[trigger] search_spec(ms, q).contains(k) implies k < ms.len() by {
            if hit {
                let j = choose|j: int| 0 <= j < r.push(n).len() && r.push(n)[j] == k;
                if j < r.len() {
                    assert(r.contains(k));
                }
            }
        }
        assert forall|k: nat| k < ms.len() implies (#[trigger] search_spec(ms, q).contains(k) <==> (
        q.len() == 0 || has_substring(unicode_lowercase(ms[k as int].name@), q) || has_substring(
            unicode_lowercase(ms[k as int].sub_advisor@),
            q,
        ) || has_substring(unicode_lowercase(ms[k as int].category@), q))) by {
            if k < n {
                assert(p[k as int] == ms[k as int]);
                if hit {
                    if r.push(n).contains(k) {
                        let j = choose|j: int| 0 <= j < r.push(n).len() && r.push(n)[j] == k;
                        assert(j < r.len());
                        assert(r.contains(k));
                    }
                    if r.contains(k) {
                        let j = choose|j: int| 0 <= j < r.len() && r[j] == k;
                        assert(r.push(n)[j] == k);
                    }
                }
            } else {
                assert(ms.last() == ms[k as int]);
                assert(!r.contains(k));
                if hit {
                    assert(r.push(n)[r.len() as int] == k);
                }
            }
        }
        if hit {
            assert forall|a: int, b: int|
                0 <= a < b < r.push(n).len() implies r.push(n)[a] < r.push(n)[b] by {
                if b == r.len() {
                    assert(r.contains(r[a]));
                }
            }
        }
    }
}

/// Filter marketplace models by a free-text query over name, sub-advisor and category,
/// case-insensitively; returns the positions of the matching models, in order.
pub fn search(models: &[ModelListing], query: &str) -> (found: Vec<usize>)
    ensures
        found@.map_values(|i: usize| i as nat) == search_spec(models@, search_query(query@)),
        forall|k: int| 0 <= k < found@.len() ==> found@[k] < models@.len(),
        forall|k: int|
            0 <= k < models@.len() ==> (#[trigger] found@.contains(k as usize) <==> ({
                let q = search_query(query@);
                q.len() == 0 || has_substring(unicode_lowercase(models@[k].name@), q)
                    || has_substring(unicode_lowercase(models@[k].sub_advisor@), q)
                    || has_substring(unicode_lowercase(models@[k].category@), q)
            })),
{
    let q = to_lowercase(trim(query));
    let ghost qs = search_query(query@);
    assert(q@ == qs);
    let empty = q.unicode_len() == 0;
    let mut found: Vec<usize> = Vec::new();
    let mut i: usize = 0;
    assert(models@.take(0) =~= Seq::<ModelListing>::empty());
    while i < models.len()
        invariant
            i <= models@.len(),
            q@ == qs,
            empty == (qs.len() == 0),
            found@.map_values(|k: usize| k as nat) == search_spec(models@.take(i as int), qs),
        decreases models@.len() - i,
    {
        let m = &models[i];
        assert(models@.take(i + 1).drop_last() =~= models@.take(i as int));
        assert(models@.take(i + 1).last() == *m);
        let hit = empty || contains_str(to_lowercase(m.name.as_str()).as_str(), q.as_str())
            || contains_str(to_lowercase(m.sub_advisor.as_str()).as_str(), q.as_str())
            || contains_str(to_lowercase(m.category.as_str()).as_str(), q.as_str());
        if hit {
            let ghost before = found@;
            found.push(i);
            assert(found@.map_values(|k: usize| k as nat) =~= before.map_values(
                |k: usize| k as nat,
            ).push(i as nat));
        }
        i = i + 1;
    }
    assert(models@.take(i as int) =~= models@);
    proof {
        let sel = found@.map_values(|k: usize| k as nat);
        lemma_search_selects(models@, qs);
        assert forall|k: int| 0 <= k < found@.len() implies found@[k] < models@.len() by {
            assert(sel[k] == found@[k] as nat);
            assert(sel.contains(sel[k]));
        }
        assert forall|k: int| 0 <= k < models@.len() implies (#[trigger] found@.contains(
            k as usize,
        ) <==> sel.contains(k as nat)) by {
            if found@.contains(k as usize) {
                let j = choose|j: int| 0 <= j < found@.len() && found@[j] == k as usize;
                assert(sel[j] == k as nat);
            }
            if sel.contains(k as nat) {
                let j = choose|j: int| 0 <= j < sel.len() && sel[j] == k as nat;
                assert(found@[j] == k as usize);
            }
        }
    }
    found
}

/// Every element sorts strictly before every later one (so none repeats).
pub open spec fn strictly_sorted(s: Seq<Seq<char>>) -> bool {
    forall|i: int, j: int| 0 <= i < j < s.len() ==> lex_lt(#[trigger] s[i], #[trigger] s[j])
}

/// The uppercased tickers of a model's holdings.
pub open spec fn upper_tickers(ts: Seq<String>) -> Seq<Seq<char>> {
    ts.map_values(|t: String| unicode_uppercase(t@))
}

/// A text is among a model's uppercased tickers exactly when it is the uppercasing of one of
/// the model's tickers.
pub proof fn lemma_upper_tickers(ts: Seq<String>, t: Seq<char>)
    ensures
        upper_tickers(ts).contains(t) <==> exists|i: int|
            0 <= i < ts.len() && #[trigger] unicode_uppercase(ts[i]@) == t,
{
    if upper_tickers(ts).contains(t) {
        let i = choose|i: int| 0 <= i < upper_tickers(ts).len() && upper_tickers(ts)[i] == t;
        assert(unicode_uppercase(ts[i]@) == t);
    }
    if exists|i: int| 0 <= i < ts.len() && #[trigger] unicode_uppercase(ts[i]@) == t {
        let i = choose|i: int| 0 <= i < ts.len() && #[trigger] unicode_uppercase(ts[i]@) == t;
        assert(upper_tickers(ts)[i] == t);
    }
}

/// Insert `x` into a strictly sorted list unless it is already there.
fn insert_sorted(v: &mut Vec<String>, x: String)
    requires
        strictly_sorted(strs(old(v)@)),
    ensures
        strictly_sorted(strs(final(v)@)),
        forall|t: Seq<char>| #[trigger]
            strs(final(v)@).contains(t) <==> strs(old(v)@).contains(t) || t == x@,
{
    let ghost s = strs(v@);
    let mut k: usize = 0;
    while k < v.len() && str_lt(v[k].as_str(), x.as_str())
        invariant
            k <= v@.len(),
            s == strs(v@),
            forall|i: int| 0 <= i < k ==> lex_lt(#[trigger] s[i], x@),
        decreases v@.len() - k,
    {
        assert(s[k as int] == v@[k as int]@);
        k = k + 1;
    }
    if k < v.len() {
        assert(s[k as int] == v@[k as int]@);
        if str_eq(v[k].as_str(), x.as_str()) {
            assert(s.contains(x@));
            return;
        }
        proof {
            lemma_lex_order(s[k as int], x@, x@);
        }
        assert(lex_lt(x@, s[k as int]));
    }
    let ghost xv = x@;
    v.insert(k, x);
    let ghost n = strs(v@);
    assert(n =~= s.take(k as int).push(xv) + s.skip(k as int));
    assert forall|i: int, j: int| 0 <= i < j < n.len() implies lex_lt(
        #[trigger] n[i],
        #[trigger] n[j],
    ) by {
        if j < k {
            assert(n[i] == s[i] && n[j] == s[j]);
        } else if j == k {
            assert(n[i] == s[i]);
        } else if i == k {
            assert(n[j] == s[j - 1]);
            if j - 1 > k {
                assert(lex_lt(s[k as int], s[j - 1]));
                lemma_lex_order(xv, s[k as int], s[j - 1]);
            }
        } else if i < k {
            assert(n[i] == s[i] && n[j] == s[j - 1]);
            if j - 1 >= k {
                assert(lex_lt(s[i], xv));
                if j - 1 == k {
                    lemma_lex_order(s[i], xv, s[k as int]);
                } else {
                    assert(lex_lt(s[k as int], s[j - 1]));
                    lemma_lex_order(xv, s[k as int], s[j - 1]);
                    lemma_lex_order(s[i], xv, s[j - 1]);
                }
            }
        } else {
            assert(n[i] == s[i - 1] && n[j] == s[j - 1]);
        }
    }
    assert forall|t: Seq<char>| #[trigger] n.contains(t) <==> s.contains(t) || t == xv by {
        if n.contains(t) {
            let q = choose|q: int| 0 <= q < n.len() && n[q] == t;
            if q < k {
                assert(s[q] == t);
            } else if q > k {
                assert(s[q - 1] == t);
            }
        }
        if s.contains(t) {
            let q = choose|q: int| 0 <= q < s.len() && s[q] == t;
            if q < k {
                assert(n[q] == t);
            } else {
                assert(n[q + 1] == t);
            }
        }
        if t == xv {
            assert(n[k as int] == t);
        }
    }
}

/// The distinct uppercased tickers, sorted.
fn ticker_keys(ts: &[String]) -> (keys: Vec<String>)
    ensures
        strictly_sorted(strs(keys@)),
        forall|t: Seq<char>| #[trigger] strs(keys@).contains(t) <==> upper_tickers(ts@).contains(t),
{
    let mut keys: Vec<String> = Vec::new();
    let mut i: usize = 0;
    while i < ts.len()
        invariant
            i <= ts@.len(),
            strictly_sorted(strs(keys@)),
            forall|t: Seq<char>| #[trigger]
                strs(keys@).contains(t) <==> upper_tickers(ts@).take(i as int).contains(t),
        decreases ts@.len() - i,
    {
        let u = to_uppercase(ts[i].as_str());
        let ghost uv = u@;
        let ghost before = upper_tickers(ts@).take(i as int);
        assert(upper_tickers(ts@).take(i + 1) =~= before.push(uv));
        insert_sorted(&mut keys, u);
        assert forall|t: Seq<char>| #[trigger] strs(keys@).contains(t) <==> before.push(uv).contains(t) by {
            if before.push(uv).contains(t) && t != uv {
                let q = choose|q: int| 0 <= q < before.push(uv).len() && before.push(uv)[q] == t;
                assert(before[q] == t);
            }
            if before.contains(t) {
                let q = choose|q: int| 0 <= q < before.len() && before[q] == t;
                assert(before.push(uv)[q] == t);
            }
            if t == uv {
                assert(before.push(uv)[before.len() as int] == t);
            }
        }
        i = i + 1;
    }
    assert(upper_tickers(ts@).take(i as int) =~= upper_tickers(ts@));
    keys
}

/// The keys of `a` that `b` lacks, in order.
fn keys_missing_from(a: &Vec<String>, b: &Vec<String>) -> (out: Vec<String>)
    requires
        strictly_sorted(strs(a@)),
    ensures
        strictly_sorted(strs(out@)),
        forall|t: Seq<char>| #[trigger]
            strs(out@).contains(t) <==> strs(a@).contains(t) && !strs(b@).contains(t),
{
    let ghost sa = strs(a@);
    let mut out: Vec<String> = Vec::new();
    let mut i: usize = 0;
    while i < a.len()
        invariant
            i <= a@.len(),
            sa == strs(a@),
            strictly_sorted(sa),
            strictly_sorted(strs(out@)),
            forall|p: int, q: int|
                0 <= p < strs(out@).len() && i <= q < sa.len() ==> lex_lt(
                    #[trigger] strs(out@)[p],
                    #[trigger] sa[q],
                ),
            forall|t: Seq<char>| #[trigger]
                strs(out@).contains(t) <==> sa.take(i as int).contains(t) && !strs(b@).contains(t),
        decreases a@.len() - i,
    {
        let ghost before = strs(out@);
        let ghost x = sa[i as int];
        let ghost cur = sa.take(i as int);
        let ghost nxt = sa.take(i + 1);
        assert(a@[i as int]@ == x);
        assert(nxt =~= cur.push(x));
        if !contains_text(b, a[i].as_str()) {
            out.push(a[i].clone());
            assert(strs(out@) =~= before.push(x));
            assert forall|t: Seq<char>| #[trigger] strs(out@).contains(t) <==> nxt.contains(t)
                && !strs(b@).contains(t) by {
                if strs(out@).contains(t) && t != x {
                    let q = choose|q: int| 0 <= q < strs(out@).len() && strs(out@)[q] == t;
                    assert(before[q] == t);
                }
                if nxt.contains(t) && t != x {
                    let q = choose|q: int| 0 <= q < nxt.len() && nxt[q] == t;
                    assert(cur[q] == t);
                }
                if before.contains(t) {
                    let q = choose|q: int| 0 <= q < before.len() && before[q] == t;
                    assert(strs(out@)[q] == t);
                }
                if t == x {
                    assert(strs(out@)[before.len() as int] == t);
                    assert(nxt[i as int] == t);
                }
            }
        } else {
            assert forall|t: Seq<char>| #[trigger] strs(out@).contains(t) <==> nxt.contains(t)
                && !strs(b@).contains(t) by {
                if nxt.contains(t) && t != x {
                    let q = choose|q: int| 0 <= q < nxt.len() && nxt[q] == t;
                    assert(cur[q] == t);
                }
                if cur.contains(t) {
                    let q = choose|q: int| 0 <= q < cur.len() && cur[q] == t;
                    assert(nxt[q] == t);
                }
            }
        }
        i = i + 1;
    }
    assert(sa.take(i as int) =~= sa);
    out
}

/// The tickers (uppercased, distinct, sorted) each of two models holds that the other
/// does not.
pub fn unique_tickers(a: &[String], b: &[String]) -> (r: (Vec<String>, Vec<String>))
    ensures
        strictly_sorted(strs(r.0@)),
        strictly_sorted(strs(r.1@)),
        forall|t: Seq<char>| #[trigger]
            strs(r.0@).contains(t) <==> upper_tickers(a@).contains(t) && !upper_tickers(b@).contains(t),
        forall|t: Seq<char>| #[trigger]
            strs(r.1@).contains(t) <==> upper_tickers(b@).contains(t) && !upper_tickers(a@).contains(t),
{
    let ka = ticker_keys(a);
    let kb = ticker_keys(b);
    let ua = keys_missing_from(&ka, &kb);
    let ub = keys_missing_from(&kb, &ka);
    (ua, ub)
}

} // verus!
