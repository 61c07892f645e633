//! Listing a key/value map in ascending key order, as a `BTreeMap` walks
//! its entries.

use vstd::prelude::*;
use crate::properties::{Properties, keys_of};

verus! {

/// Lexicographic order of character sequences by code point (the order of
/// `String`, since UTF-8 preserves code point order).
pub open spec fn seq_lt(a: Seq<char>, b: Seq<char>) -> bool
    decreases a.len(),
{
    if a.len() == 0 {
        b.len() > 0
    } else if b.len() == 0 {
        false
    } else if (a[0] as int) < (b[0] as int) {
        true
    } else if (a[0] as int) > (b[0] as int) {
        false
    } else {
        seq_lt(a.drop_first(), b.drop_first())
    }
}

/// `seq_lt` is irreflexive.
pub proof fn lemma_lt_irreflexive(a: Seq<char>)
    ensures
        !seq_lt(a, a),
    decreases a.len(),
{
    if a.len() > 0 {
        lemma_lt_irreflexive(a.drop_first());
    }
}

/// `seq_lt` is asymmetric.
pub proof fn lemma_lt_asymmetric(a: Seq<char>, b: Seq<char>)
    ensures
        !(seq_lt(a, b) && seq_lt(b, a)),
    decreases a.len(),
{
    if a.len() > 0 && b.len() > 0 && (a[0] as int) == (b[0] as int) {
        lemma_lt_asymmetric(a.drop_first(), b.drop_first());
    }
}

/// `seq_lt` is transitive.
pub proof fn lemma_lt_transitive(a: Seq<char>, b: Seq<char>, c: Seq<char>)
    requires
        seq_lt(a, b),
        seq_lt(b, c),
    ensures
        seq_lt(a, c),
    decreases a.len(),
{
    if a.len() > 0 && b.len() > 0 && c.len() > 0 && (a[0] as int) == (b[0] as int) && (b[0] as int)
        == (c[0] as int) {
        lemma_lt_transitive(a.drop_first(), b.drop_first(), c.drop_first());
    }
}

/// Distinct sequences are ordered one way or the other.
pub proof fn lemma_lt_total(a: Seq<char>, b: Seq<char>)
    requires
        a != b,
    ensures
        seq_lt(a, b) || seq_lt(b, a),
    decreases a.len(),
{
    if a.len() > 0 && b.len() > 0 && (a[0] as int) == (b[0] as int) {
        assert(a[0] == b[0]);
        if a.drop_first() == b.drop_first() {
            assert(a =~= seq![a[0]] + a.drop_first());
            assert(b =~= seq![b[0]] + b.drop_first());
        }
        lemma_lt_total(a.drop_first(), b.drop_first());
    } else if a.len() == 0 && b.len() == 0 {
        assert(a =~= b);
    }
}

/// `s` lists the entries of `m` in strictly ascending key order.
pub open spec fn is_sorted_listing(s: Seq<(Seq<char>, Seq<char>)>, m: Map<Seq<char>, Seq<char>>) -> bool {
    &&& forall|i: int, j: int| 0 <= i < j < s.len() ==> seq_lt(#[trigger] s[i].0, #[trigger] s[j].0)
    &&& forall|i: int| 0 <= i < s.len() ==> m.contains_key(#[trigger] s[i].0) && m[s[i].0] == s[i].1
    &&& forall|k: Seq<char>| m.contains_key(k) ==> exists|i: int| 0 <= i < s.len() && #[trigger] s[i].0 == k
}

/// The entries of `m` in ascending key order.
pub open spec fn spec_sorted_entries(m: Map<Seq<char>, Seq<char>>) -> Seq<(Seq<char>, Seq<char>)> {
    choose|s: Seq<(Seq<char>, Seq<char>)>| is_sorted_listing(s, m)
}

/// There is at most one sorted listing of a map.
pub proof fn lemma_sorted_listing_unique(
    s1: Seq<(Seq<char>, Seq<char>)>,
    s2: Seq<(Seq<char>, Seq<char>)>,
    m: Map<Seq<char>, Seq<char>>,
)
    requires
        is_sorted_listing(s1, m),
        is_sorted_listing(s2, m),
    ensures
        s1 == s2,
    decreases s1.len(),
{
    if s1.len() == 0 {
        if s2.len() > 0 {
            assert(m.contains_key(s2[0].0));
        }
        assert(s1 =~= s2);
    } else if s2.len() == 0 {
        assert(m.contains_key(s1[0].0));
    } else {
        let k1 = s1[0].0;
        let k2 = s2[0].0;
        if k1 != k2 {
            // both are the least key of m
            assert(m.contains_key(k2));
            let i = choose|i: int| 0 <= i < s1.len() && s1[i].0 == k2;
            assert(m.contains_key(k1));
            let j = choose|j: int| 0 <= j < s2.len() && s2[j].0 == k1;
            assert(i != 0);
            assert(j != 0);
            assert(seq_lt(s1[0].0, s1[i].0));
            assert(seq_lt(s2[0].0, s2[j].0));
            lemma_lt_asymmetric(k1, k2);
        }
        let m2 = m.remove(k1);
        let t1 = s1.drop_first();
        let t2 = s2.drop_first();
        assert forall|i: int| 0 <= i < t1.len() implies m2.contains_key(#[trigger] t1[i].0) && m2[t1[i].0]
            == t1[i].1 by {
            assert(seq_lt(s1[0].0, s1[i + 1].0));
            lemma_lt_irreflexive(k1);
        }
        assert forall|i: int| 0 <= i < t2.len() implies m2.contains_key(#[trigger] t2[i].0) && m2[t2[i].0]
            == t2[i].1 by {
            assert(seq_lt(s2[0].0, s2[i + 1].0));
            lemma_lt_irreflexive(k1);
        }
        assert forall|k: Seq<char>| m2.contains_key(k) implies exists|i: int|
            0 <= i < t1.len() && #[trigger] t1[i].0 == k by {
            let i = choose|i: int| 0 <= i < s1.len() && s1[i].0 == k;
            assert(t1[i - 1].0 == k);
        }
        assert forall|k: Seq<char>| m2.contains_key(k) implies exists|i: int|
            0 <= i < t2.len() && #[trigger] t2[i].0 == k by {
            let i = choose|i: int| 0 <= i < s2.len() && s2[i].0 == k;
            assert(t2[i - 1].0 == k);
        }
        assert forall|i: int, j: int| 0 <= i < j < t1.len() implies seq_lt(#[trigger] t1[i].0, #[trigger] t1[j].0) by {
            assert(seq_lt(s1[i + 1].0, s1[j + 1].0));
        }
        assert forall|i: int, j: int| 0 <= i < j < t2.len() implies seq_lt(#[trigger] t2[i].0, #[trigger] t2[j].0) by {
            assert(seq_lt(s2[i + 1].0, s2[j + 1].0));
        }
        lemma_sorted_listing_unique(t1, t2, m2);
        assert(s1 =~= seq![s1[0]] + t1);
        assert(s2 =~= seq![s2[0]] + t2);
    }
}

/// `a < b` on code points.
fn string_lt(a: &String, b: &String) -> (r: bool)
    ensures
        r == seq_lt(a@, b@),
{
    let av = crate::text::chars_of(a.as_str());
    let bv = crate::text::chars_of(b.as_str());
    let mut i: usize = 0;
    assert(a@.skip(0) =~= a@);
    assert(b@.skip(0) =~= b@);
    while i < av.len() && i < bv.len() && av[i] == bv[i]
        invariant
            i <= av@.len(),
            i <= bv@.len(),
            av@ == a@,
            bv@ == b@,
            seq_lt(a@, b@) == seq_lt(a@.skip(i as int), b@.skip(i as int)),
        decreases av@.len() - i,
    {
        assert(a@.skip(i as int).drop_first() =~= a@.skip(i + 1));
        assert(b@.skip(i as int).drop_first() =~= b@.skip(i + 1));
        i = i + 1;
    }
    if i == av.len() {
        i < bv.len()
    } else if i == bv.len() {
        false
    } else {
        av[i] < bv[i]
    }
}

/// The views of a list of string pairs.
pub open spec fn views_of_pairs(v: Seq<(String, String)>) -> Seq<(Seq<char>, Seq<char>)> {
    v.map_values(|p: (String, String)| (p.0@, p.1@))
}

/// The pairs of `props` in ascending key order.
pub fn sorted_pairs(props: &Properties) -> (r: Vec<(String, String)>)
    requires
        props.wf(),
    ensures
        views_of_pairs(r@) == spec_sorted_entries(props@),
{
    let entries = props.entries();
    let ghost m = props@;
    let ghost ks = keys_of(entries@);
    let mut out: Vec<(String, String)> = Vec::new();
    let mut i: usize = 0;
    while i < entries.len()
        invariant
            i <= entries@.len(),
            ks == keys_of(entries@),
            ks.no_duplicates(),
            m.dom() == ks.to_set(),
            forall|t: int| 0 <= t < entries@.len() ==> #[trigger] m[entries@[t].0@] == entries@[t].1@,
            is_sorted_listing(views_of_pairs(out@), m.restrict(ks.take(i as int).to_set())),
        decreases entries@.len() - i,
    {
        let key = entries[i].0.clone();
        let value = entries[i].1.clone();
        let ghost before = views_of_pairs(out@);
        let ghost mi = m.restrict(ks.take(i as int).to_set());
        let mut p: usize = 0;
        while p < out.len() && string_lt(&out[p].0, &key)
            invariant
                p <= out@.len(),
                before == views_of_pairs(out@),
                forall|t: int| 0 <= t < p ==> seq_lt(#[trigger] before[t].0, key@),
            decreases out@.len() - p,
        {
            p = p + 1;
        }
        proof {
            // the new key is not yet listed
            assert(!ks.take(i as int).contains(ks[i as int]));
            assert(key@ == ks[i as int]);
            if p < before.len() {
                assert(!seq_lt(before[p as int].0, key@));
                assert(before[p as int].0 != key@) by {
                    assert(mi.contains_key(before[p as int].0));
                }
                lemma_lt_total(before[p as int].0, key@);
            }
        }
        out.insert(p, (key, value));
        proof {
            let after = views_of_pairs(out@);
            let mi2 = m.restrict(ks.take(i + 1).to_set());
            assert(ks.take(i + 1) =~= ks.take(i as int).push(ks[i as int]));
            ks.take(i as int).lemma_push_to_set_commute(ks[i as int]);
            assert(after =~= before.insert(p as int, (key@, value@)));
            assert forall|a: int, b: int| 0 <= a < b < after.len() implies seq_lt(#[trigger] after[a].0, #[trigger] after[b].0) by {
                if a < p && b == p {
                } else if a == p && b > p {
                    if b - 1 > p {
                        lemma_lt_transitive(key@, before[p as int].0, before[b - 1].0);
                    }
                } else if a < p && b > p {
                } else {
                }
            }
            assert forall|k: Seq<char>| mi2.contains_key(k) implies exists|t: int|
                0 <= t < after.len() && #[trigger] after[t].0 == k by {
                if k == key@ {
                    assert(after[p as int].0 == k);
                } else {
                    assert(mi.contains_key(k));
                    let t = choose|t: int| 0 <= t < before.len() && before[t].0 == k;
                    if t < p {
                        assert(after[t].0 == k);
                    } else {
                        assert(after[t + 1].0 == k);
                    }
                }
            }
        }
        i = i + 1;
    }
    proof {
        assert(ks.take(entries@.len() as int) =~= ks);
        assert(m.restrict(ks.to_set()) =~= m);
        lemma_sorted_listing_unique(views_of_pairs(out@), spec_sorted_entries(m), m);
    }
    out
}

} // verus!
