//! The list of elector nodes: node ids mapped to their public keys, kept in
//! key order, and its wire encoding.

use vstd::prelude::*;
use std::collections::BTreeMap;
use vstd::std_specs::iter::IteratorSpec;
use vstd::std_specs::cmp::OrdSpec;
use crate::encoding::{enc_u64, enc_bytes, write_u64, write_bytes};

verus! {

broadcast use vstd::std_specs::btree::group_btree_axioms;

/// The map of elector ids to public key bytes.
pub type ElectorMap = BTreeMap<u64, Vec<u8>>;

/// `s` lists the entries of `m` once each, keys strictly increasing.
pub open spec fn lists_in_key_order(s: Seq<(u64, Seq<u8>)>, m: Map<u64, Seq<u8>>) -> bool {
    &&& forall|i: int, j: int| 0 <= i < j < s.len() ==> (#[trigger] s[i]).0 < (#[trigger] s[j]).0
    &&& forall|i: int| 0 <= i < s.len() ==> m.contains_key((#[trigger] s[i]).0) && m[s[i].0] == s[i].1
    &&& forall|k: u64| #[trigger] m.contains_key(k) ==> exists|i: int| 0 <= i < s.len() && s[i].0 == k
}

/// The entries of `m` in increasing key order.
pub open spec fn entries_in_key_order(m: Map<u64, Seq<u8>>) -> Seq<(u64, Seq<u8>)> {
    choose|s: Seq<(u64, Seq<u8>)>| lists_in_key_order(s, m)
}

/// Key and length-prefixed value of each entry, one after the other.
pub open spec fn enc_entries(s: Seq<(u64, Seq<u8>)>) -> Seq<u8>
    decreases s.len(),
{
    if s.len() == 0 {
        Seq::empty()
    } else {
        enc_entries(s.drop_last()) + enc_u64(s.last().0) + enc_bytes(s.last().1)
    }
}

/// A map: its number of entries, then its entries in key order.
pub open spec fn enc_electors(m: Map<u64, Seq<u8>>) -> Seq<u8> {
    enc_u64(m.len() as u64) + enc_entries(entries_in_key_order(m))
}

/// The elector map seen as key to key bytes.
pub open spec fn elector_view(m: &ElectorMap) -> Map<u64, Seq<u8>> {
    m@.map_values(|v: Vec<u8>| v@)
}

/// Keys and value views of a run of map entries.
pub open spec fn entry_views(s: Seq<(&u64, &Vec<u8>)>) -> Seq<(u64, Seq<u8>)> {
    s.map_values(|kv: (&u64, &Vec<u8>)| (*kv.0, kv.1@))
}

/// Two key-ordered listings of one map are the same sequence.
pub proof fn lemma_key_order_unique(s1: Seq<(u64, Seq<u8>)>, s2: Seq<(u64, Seq<u8>)>, m: Map<u64, Seq<u8>>)
    requires
        lists_in_key_order(s1, m),
        lists_in_key_order(s2, m),
    ensures
        s1 == s2,
    decreases s1.len(),
{
    if s1.len() == 0 {
        if s2.len() > 0 {
            assert(m.contains_key(s2[0].0));
        }
        assert(s1 =~= s2);
    } else {
        assert(m.contains_key(s1[0].0));
        if s2.len() == 0 {
            assert(false);
        }
        let k1 = s1[0].0;
        let k2 = s2[0].0;
        assert(m.contains_key(k2));
        let i2 = choose|i: int| 0 <= i < s1.len() && s1[i].0 == k2;
        let i1 = choose|i: int| 0 <= i < s2.len() && s2[i].0 == k1;
        if i2 > 0 {
            assert(s1[0].0 < s1[i2].0);
        }
        if i1 > 0 {
            assert(s2[0].0 < s2[i1].0);
        }
        assert(k1 == k2);
        let m2 = m.remove(k1);
        let t1 = s1.drop_first();
        let t2 = s2.drop_first();
        assert forall|k: u64| #[trigger] m2.contains_key(k) implies exists|i: int| 0 <= i < t1.len() && t1[i].0 == k by {
            let i = choose|i: int| 0 <= i < s1.len() && s1[i].0 == k;
            assert(i != 0);
            assert(t1[i - 1].0 == k);
        }
        assert forall|k: u64| #[trigger] m2.contains_key(k) implies exists|i: int| 0 <= i < t2.len() && t2[i].0 == k by {
            let i = choose|i: int| 0 <= i < s2.len() && s2[i].0 == k;
            assert(i != 0);
            assert(t2[i - 1].0 == k);
        }
        assert forall|i: int| 0 <= i < t1.len() implies m2.contains_key((#[trigger] t1[i]).0) && m2[t1[i].0] == t1[i].1 by {
            assert(s1[0].0 < s1[i + 1].0);
        }
        assert forall|i: int| 0 <= i < t2.len() implies m2.contains_key((#[trigger] t2[i]).0) && m2[t2[i].0] == t2[i].1 by {
            assert(s2[0].0 < s2[i + 1].0);
        }
        assert forall|i: int, j: int| 0 <= i < j < t1.len() implies (#[trigger] t1[i]).0 < (#[trigger] t1[j]).0 by {
            assert(s1[i + 1].0 < s1[j + 1].0);
        }
        assert forall|i: int, j: int| 0 <= i < j < t2.len() implies (#[trigger] t2[i]).0 < (#[trigger] t2[j]).0 by {
            assert(s2[i + 1].0 < s2[j + 1].0);
        }
        lemma_key_order_unique(t1, t2, m2);
        assert(s1[0] == s2[0]);
        assert(s1 =~= seq![s1[0]] + t1);
        assert(s2 =~= seq![s2[0]] + t2);
    }
}

/// Every finite map has a listing of its entries in key order.
pub proof fn lemma_finite_map_has_key_order(m: Map<u64, Seq<u8>>)
    requires
        m.dom().finite(),
    ensures
        lists_in_key_order(entries_in_key_order(m), m),
    decreases m.len(),
{
    if m.len() == 0 {
        m.dom().lemma_len0_is_empty();
        let s = Seq::<(u64, Seq<u8>)>::empty();
        assert forall|k: u64| #[trigger] m.contains_key(k) implies exists|i: int| 0 <= i < s.len() && s[i].0 == k by {
            assert(m.dom().contains(k));
        }
        assert(lists_in_key_order(s, m));
    } else {
        let r = |a: u64, b: u64| a <= b;
        assert(vstd::relations::total_ordering(r));
        m.dom().find_unique_maximal_ensures(r);
        let k = m.dom().find_unique_maximal(r);
        let m2 = m.remove(k);
        assert(m2.dom() =~= m.dom().remove(k));
        lemma_finite_map_has_key_order(m2);
        let s2 = entries_in_key_order(m2);
        let s = s2.push((k, m[k]));
        assert forall|i: int| 0 <= i < s2.len() implies (#[trigger] s2[i]).0 < k by {
            let x = s2[i].0;
            assert(m2.contains_key(x));
            assert(m.dom().contains(x));
            assert(x != k);
            if r(k, x) {
                assert(r(x, k));
            }
        }
        assert forall|i: int, j: int| 0 <= i < j < s.len() implies (#[trigger] s[i]).0 < (#[trigger] s[j]).0 by {
            if j == s.len() - 1 {
                assert(s[i] == s2[i]);
            } else {
                assert(s[i] == s2[i] && s[j] == s2[j]);
            }
        }
        assert forall|i: int| 0 <= i < s.len() implies m.contains_key((#[trigger] s[i]).0) && m[s[i].0] == s[i].1 by {
            if i < s2.len() {
                assert(s[i] == s2[i]);
                assert(m2.contains_key(s2[i].0));
            }
        }
        assert forall|x: u64| #[trigger] m.contains_key(x) implies exists|i: int| 0 <= i < s.len() && s[i].0 == x by {
            if x == k {
                assert(s[s.len() - 1].0 == x);
            } else {
                assert(m2.contains_key(x));
                let i = choose|i: int| 0 <= i < s2.len() && s2[i].0 == x;
                assert(s[i] == s2[i]);
            }
        }
        assert(lists_in_key_order(s, m));
    }
}

/// The keys that the map's iterator yields are strictly increasing.
proof fn lemma_iterated_keys_increase(s: Seq<(&u64, &Vec<u8>)>)
    requires
        vstd::std_specs::btree::increasing_seq(s.map_values(|kv: (&u64, &Vec<u8>)| *kv.0)),
    ensures
        forall|i: int, j: int| 0 <= i < j < s.len() ==> *(#[trigger] s[i]).0 < *(#[trigger] s[j]).0,
{
    broadcast use vstd::laws_cmp::group_laws_cmp, vstd::std_specs::btree::axiom_increasing_seq_meaning;
    let ks = s.map_values(|kv: (&u64, &Vec<u8>)| *kv.0);
    assert forall|i: int, j: int| 0 <= i < j < s.len() implies *(#[trigger] s[i]).0 < *(#[trigger] s[j]).0 by {
        assert(ks[i].cmp_spec(&ks[j]) is Less);
    }
}

/// Maps keyed by `u64` iterate in key order.
pub proof fn lemma_u64_keys_ordered()
    ensures
        vstd::std_specs::btree::key_obeys_cmp_spec::<u64>(),
        vstd::laws_cmp::obeys_cmp::<u64>(),
{
    broadcast use vstd::laws_cmp::group_laws_cmp, vstd::std_specs::btree::axiom_key_obeys_cmp_spec_meaning;
}

/// What the map's iterator yields lists the map in key order.
proof fn lemma_iteration_lists_map(m: &ElectorMap, s: Seq<(&u64, &Vec<u8>)>)
    requires
        s == vstd::std_specs::btree::spec_btree_map_iter(m).remaining(),
        vstd::std_specs::btree::increasing_seq(s.map_values(|kv: (&u64, &Vec<u8>)| *kv.0)),
    ensures
        lists_in_key_order(entry_views(s), elector_view(m)),
        entries_in_key_order(elector_view(m)) == entry_views(s),
{
    lemma_iterated_keys_increase(s);
    let e = entry_views(s);
    let mv = elector_view(m);
    assert forall|k: u64| #[trigger] mv.contains_key(k) implies exists|i: int| 0 <= i < e.len() && e[i].0 == k by {
        assert(m@.contains_key(k));
        assert(s.contains((&k, &m@[k])));
        let i = choose|i: int| 0 <= i < s.len() && s[i] == (&k, &m@[k]);
        assert(e[i].0 == k);
    }
    assert forall|i: int| 0 <= i < e.len() implies mv.contains_key((#[trigger] e[i]).0) && mv[e[i].0] == e[i].1 by {
        assert(m@.contains_key(*s[i].0));
    }
    assert(lists_in_key_order(e, mv));
    lemma_key_order_unique(entries_in_key_order(mv), e, mv);
}

/// Appends the encoding of the elector map.
pub fn write_electors(out: &mut Vec<u8>, m: &ElectorMap)
    ensures
        final(out)@ == old(out)@ + enc_electors(elector_view(m)),
{
    proof {
        lemma_u64_keys_ordered();
    }
    write_u64(out, m.len() as u64);
    let ghost start = out@;
    let iter = m.iter();
    let ghost s0 = iter.remaining();
    for (k, v) in it: iter
        invariant
            out@ == start + enc_entries(entry_views(it.seq().subrange(0, it.index()))),
            it.seq() == s0,
    {
        let ghost i = it.index();
        assert(it.seq()[i] == (k, v));
        assert(entry_views(it.seq().subrange(0, i + 1)).drop_last() =~= entry_views(it.seq().subrange(0, i)));
        write_u64(out, *k);
        write_bytes(out, v.as_slice());
    }
    proof {
        lemma_iteration_lists_map(m, s0);
        assert(s0.subrange(0, s0.len() as int) =~= s0);
        assert(elector_view(m).dom() =~= m@.dom());
    }
}

/// The keys of the elector map, in increasing order.
pub open spec fn key_order_ids(m: Map<u64, Seq<u8>>) -> Seq<u64> {
    entries_in_key_order(m).map_values(|e: (u64, Seq<u8>)| e.0)
}

/// The elector ids of the map, in increasing order.
pub fn elector_ids(m: &ElectorMap) -> (ids: Vec<u64>)
    ensures
        ids@ == key_order_ids(elector_view(m)),
{
    proof {
        lemma_u64_keys_ordered();
    }
    let mut ids: Vec<u64> = Vec::new();
    let iter = m.iter();
    let ghost s0 = iter.remaining();
    for (k, v) in it: iter
        invariant
            ids@ == entry_views(it.seq().subrange(0, it.index())).map_values(|e: (u64, Seq<u8>)| e.0),
            it.seq() == s0,
    {
        let ghost i = it.index();
        assert(it.seq()[i] == (k, v));
        ids.push(*k);
        assert(ids@ =~= entry_views(it.seq().subrange(0, i + 1)).map_values(|e: (u64, Seq<u8>)| e.0));
    }
    proof {
        lemma_iteration_lists_map(m, s0);
        assert(s0.subrange(0, s0.len() as int) =~= s0);
    }
    ids
}

} // verus!
