//! Reading the wire format back: each `rd_*` spec function says what is
//! read at a position of a byte string and where reading ends, the `read_*`
//! functions do it, and the lemmas show that reading an encoding gives back
//! what was encoded.

use vstd::prelude::*;
use std::collections::BTreeMap;
use vstd::bytes::*;
use vstd::utf8::{valid_utf8, decode_utf8, encode_utf8};
use vstd::slice::slice_subrange;
use crate::encoding::{enc_u32, enc_u64, enc_u128, enc_bytes, enc_str, append_bytes};
use crate::text::string_from_utf8;
use crate::crypto::{ed25519_public_key_accepted, public_key_accepted};
use crate::electors::{ElectorMap, elector_view, lemma_u64_keys_ordered, enc_entries, enc_electors, entries_in_key_order, lists_in_key_order, lemma_finite_map_has_key_order};

verus! {

broadcast use vstd::utf8::encode_utf8_valid_utf8, vstd::utf8::encode_utf8_decode_utf8;

/// `b` holds `e` from position `p` on.
pub open spec fn at(b: Seq<u8>, p: int, e: Seq<u8>) -> bool {
    &&& 0 <= p
    &&& p + e.len() <= b.len()
    &&& b.subrange(p, p + e.len()) == e
}

/// Whether what a reader gave agrees with what the spec reads.
pub open spec fn read_as<T: View>(r: Option<(T, usize)>, s: Option<(T::V, int)>) -> bool {
    match r {
        Some((x, q)) => s == Some((x@, q as int)),
        None => s is None,
    }
}

/// A little-endian `u64` at `p`.
pub open spec fn rd_u64(b: Seq<u8>, p: int) -> Option<(u64, int)> {
    if 0 <= p && p + 8 <= b.len() {
        Some((spec_u64_from_le_bytes(b.subrange(p, p + 8)), p + 8))
    } else {
        None
    }
}

/// A little-endian `u32` at `p`.
pub open spec fn rd_u32(b: Seq<u8>, p: int) -> Option<(u32, int)> {
    if 0 <= p && p + 4 <= b.len() {
        Some((spec_u32_from_le_bytes(b.subrange(p, p + 4)), p + 4))
    } else {
        None
    }
}

/// A little-endian `u128` at `p`.
pub open spec fn rd_u128(b: Seq<u8>, p: int) -> Option<(u128, int)> {
    if 0 <= p && p + 16 <= b.len() {
        Some((spec_u128_from_le_bytes(b.subrange(p, p + 16)), p + 16))
    } else {
        None
    }
}

/// A length-prefixed byte string at `p`.
pub open spec fn rd_bytes(b: Seq<u8>, p: int) -> Option<(Seq<u8>, int)> {
    match rd_u64(b, p) {
        Some((n, q)) => if q + n <= b.len() {
            Some((b.subrange(q, q + n), q + n))
        } else {
            None
        },
        None => None,
    }
}

/// A length-prefixed UTF-8 text at `p`.
pub open spec fn rd_str(b: Seq<u8>, p: int) -> Option<(Seq<char>, int)> {
    match rd_bytes(b, p) {
        Some((t, q)) => if valid_utf8(t) {
            Some((decode_utf8(t), q))
        } else {
            None
        },
        None => None,
    }
}

/// The key and value of a map entry at `p`; the value must be an accepted
/// public key.
pub open spec fn rd_entry(b: Seq<u8>, p: int) -> Option<((u64, Seq<u8>), int)> {
    match rd_u64(b, p) {
        Some((k, q)) => match rd_bytes(b, q) {
            Some((v, r)) => if ed25519_public_key_accepted(v) {
                Some(((k, v), r))
            } else {
                None
            },
            None => None,
        },
        None => None,
    }
}

/// `n` map entries one after the other from `p`.
pub open spec fn rd_entries(b: Seq<u8>, p: int, n: nat) -> Option<(Seq<(u64, Seq<u8>)>, int)>
    decreases n,
{
    if n == 0 {
        Some((Seq::empty(), p))
    } else {
        match rd_entries(b, p, (n - 1) as nat) {
            Some((s, q)) => match rd_entry(b, q) {
                Some((e, r)) => Some((s.push(e), r)),
                None => None,
            },
            None => None,
        }
    }
}

/// The map that inserting the entries in order builds; a later entry wins.
pub open spec fn map_of(s: Seq<(u64, Seq<u8>)>) -> Map<u64, Seq<u8>>
    decreases s.len(),
{
    if s.len() == 0 {
        Map::empty()
    } else {
        map_of(s.drop_last()).insert(s.last().0, s.last().1)
    }
}

/// A map at `p`: its number of entries, then the entries.
pub open spec fn rd_electors(b: Seq<u8>, p: int) -> Option<(Map<u64, Seq<u8>>, int)> {
    match rd_u64(b, p) {
        Some((n, q)) => match rd_entries(b, q, n as nat) {
            Some((s, r)) => Some((map_of(s), r)),
            None => None,
        },
        None => None,
    }
}

/// Reads a `u64` at `p`.
pub fn read_u64(b: &[u8], p: usize) -> (r: Option<(u64, usize)>)
    ensures
        read_as(r, rd_u64(b@, p as int)),
{
    if p <= b.len() && b.len() - p >= 8 {
        Some((u64_from_le_bytes(slice_subrange(b, p, p + 8)), p + 8))
    } else {
        None
    }
}

/// Reads a `u32` at `p`.
pub fn read_u32(b: &[u8], p: usize) -> (r: Option<(u32, usize)>)
    ensures
        read_as(r, rd_u32(b@, p as int)),
{
    if p <= b.len() && b.len() - p >= 4 {
        Some((u32_from_le_bytes(slice_subrange(b, p, p + 4)), p + 4))
    } else {
        None
    }
}

/// Reads a `u128` at `p`.
pub fn read_u128(b: &[u8], p: usize) -> (r: Option<(u128, usize)>)
    ensures
        read_as(r, rd_u128(b@, p as int)),
{
    if p <= b.len() && b.len() - p >= 16 {
        Some((u128_from_le_bytes(slice_subrange(b, p, p + 16)), p + 16))
    } else {
        None
    }
}

/// Reads a length-prefixed byte string at `p`.
pub fn read_bytes(b: &[u8], p: usize) -> (r: Option<(Vec<u8>, usize)>)
    ensures
        read_as(r, rd_bytes(b@, p as int)),
{
    let (n, q) = match read_u64(b, p) {
        Some(x) => x,
        None => {
            return None;
        },
    };
    let room: usize = b.len() - q;
    if n > room as u64 {
        return None;
    }
    let end: usize = q + n as usize;
    let mut v: Vec<u8> = Vec::new();
    append_bytes(&mut v, slice_subrange(b, q, end));
    Some((v, end))
}

/// Reads a length-prefixed UTF-8 text at `p`.
pub fn read_str(b: &[u8], p: usize) -> (r: Option<(String, usize)>)
    ensures
        read_as(r, rd_str(b@, p as int)),
{
    let (t, q) = match read_bytes(b, p) {
        Some(x) => x,
        None => {
            return None;
        },
    };
    match string_from_utf8(t) {
        Some(s) => Some((s, q)),
        None => None,
    }
}

proof fn lemma_rd_entries_stops(b: Seq<u8>, p: int, k: nat, n: nat)
    requires
        k <= n,
        rd_entries(b, p, k) is None,
    ensures
        rd_entries(b, p, n) is None,
    decreases n - k,
{
    if k < n {
        lemma_rd_entries_stops(b, p, k, (n - 1) as nat);
    }
}

/// Reads a map at `p`: its number of entries, then each key and public key.
pub fn read_electors(b: &[u8], p: usize) -> (r: Option<(ElectorMap, usize)>)
    ensures
        match r {
            Some((m, q)) => rd_electors(b@, p as int) == Some((elector_view(&m), q as int)),
            None => rd_electors(b@, p as int) is None,
        },
{
    proof {
        lemma_u64_keys_ordered();
    }
    let (n, q0) = match read_u64(b, p) {
        Some(x) => x,
        None => {
            return None;
        },
    };
    let mut m: ElectorMap = BTreeMap::new();
    let mut q: usize = q0;
    let mut i: u64 = 0;
    let ghost mut s: Seq<(u64, Seq<u8>)> = Seq::empty();
    assert(elector_view(&m) =~= map_of(s));
    while i < n
        invariant
            i <= n,
            rd_u64(b@, p as int) == Some((n, q0 as int)),
            rd_entries(b@, q0 as int, i as nat) == Some((s, q as int)),
            elector_view(&m) == map_of(s),
        decreases n - i,
    {
        let (k, q1) = match read_u64(b, q) {
            Some(x) => x,
            None => {
                proof {
                    lemma_rd_entries_stops(b@, q0 as int, (i + 1) as nat, n as nat);
                }
                return None;
            },
        };
        let (v, q2) = match read_bytes(b, q1) {
            Some(x) => x,
            None => {
                proof {
                    lemma_rd_entries_stops(b@, q0 as int, (i + 1) as nat, n as nat);
                }
                return None;
            },
        };
        if !public_key_accepted(v.as_slice()) {
            proof {
                lemma_rd_entries_stops(b@, q0 as int, (i + 1) as nat, n as nat);
            }
            return None;
        }
        let ghost vv = v@;
        let ghost before = elector_view(&m);
        let ghost s0 = s;
        proof {
            lemma_u64_keys_ordered();
        }
        m.insert(k, v);
        proof {
            s = s.push((k, vv));
            assert(s.drop_last() =~= s0);
            assert(map_of(s) == map_of(s0).insert(k, vv));
            assert(elector_view(&m) =~= before.insert(k, vv));
        }
        q = q2;
        i = i + 1;
    }
    Some((m, q))
}

// ---------------------------------------------------------------------------
// Reading an encoding gives back what was encoded.

pub proof fn lemma_at_split(b: Seq<u8>, p: int, x: Seq<u8>, y: Seq<u8>)
    requires
        at(b, p, x + y),
    ensures
        at(b, p, x),
        at(b, p + x.len(), y),
{
    let w = b.subrange(p, p + (x + y).len());
    assert(w == x + y);
    assert(b.subrange(p, p + x.len()) =~= w.subrange(0, x.len() as int));
    assert(w.subrange(0, x.len() as int) =~= x);
    assert(b.subrange(p + x.len(), p + x.len() + y.len()) =~= w.subrange(x.len() as int, w.len() as int));
    assert(w.subrange(x.len() as int, w.len() as int) =~= y);
}

/// A `u64` reads back from its encoding.
pub proof fn lemma_rd_u64(b: Seq<u8>, p: int, x: u64)
    requires
        at(b, p, enc_u64(x)),
    ensures
        rd_u64(b, p) == Some((x, p + 8)),
{
    lemma_auto_spec_u64_to_from_le_bytes();
}

/// A `u32` reads back from its encoding.
pub proof fn lemma_rd_u32(b: Seq<u8>, p: int, x: u32)
    requires
        at(b, p, enc_u32(x)),
    ensures
        rd_u32(b, p) == Some((x, p + 4)),
{
    lemma_auto_spec_u32_to_from_le_bytes();
}

/// A `u128` reads back from its encoding.
pub proof fn lemma_rd_u128(b: Seq<u8>, p: int, x: u128)
    requires
        at(b, p, enc_u128(x)),
    ensures
        rd_u128(b, p) == Some((x, p + 16)),
{
    lemma_auto_spec_u128_to_from_le_bytes();
}

/// A byte string reads back from its encoding.
pub proof fn lemma_rd_bytes(b: Seq<u8>, p: int, x: Seq<u8>)
    requires
        at(b, p, enc_bytes(x)),
        x.len() <= u64::MAX,
    ensures
        rd_bytes(b, p) == Some((x, p + enc_bytes(x).len())),
        enc_bytes(x).len() == 8 + x.len(),
{
    lemma_auto_spec_u64_to_from_le_bytes();
    lemma_at_split(b, p, enc_u64(x.len() as u64), x);
    lemma_rd_u64(b, p, x.len() as u64);
}

/// A text reads back from its encoding.
pub proof fn lemma_rd_str(b: Seq<u8>, p: int, s: Seq<char>)
    requires
        at(b, p, enc_str(s)),
        encode_utf8(s).len() <= u64::MAX,
    ensures
        rd_str(b, p) == Some((s, p + enc_str(s).len())),
{
    lemma_rd_bytes(b, p, encode_utf8(s));
}

/// A key-ordered listing of a map has one entry per key, and inserting its
/// entries in order builds the map back.
pub proof fn lemma_listing_builds_map(s: Seq<(u64, Seq<u8>)>, m: Map<u64, Seq<u8>>)
    requires
        lists_in_key_order(s, m),
    ensures
        m.dom().finite(),
        m.len() == s.len(),
        map_of(s) == m,
    decreases s.len(),
{
    if s.len() == 0 {
        assert forall|k: u64| !m.contains_key(k) by {
            if m.contains_key(k) {
                let i = choose|i: int| 0 <= i < s.len() && s[i].0 == k;
            }
        }
        assert(m.dom() =~= Set::<u64>::empty());
        assert(m =~= Map::<u64, Seq<u8>>::empty());
    } else {
        let k = s.last().0;
        let v = s.last().1;
        let s2 = s.drop_last();
        let m2 = m.remove(k);
        assert forall|i: int| 0 <= i < s2.len() implies m2.contains_key((#[trigger] s2[i]).0) && m2[s2[i].0] == s2[i].1 by {
            assert(s[i] == s2[i]);
            assert(s[i].0 < s[s.len() - 1].0);
        }
        assert forall|x: u64| #[trigger] m2.contains_key(x) implies exists|i: int| 0 <= i < s2.len() && s2[i].0 == x by {
            let i = choose|i: int| 0 <= i < s.len() && s[i].0 == x;
            assert(i != s.len() - 1);
            assert(s2[i] == s[i]);
        }
        assert forall|i: int, j: int| 0 <= i < j < s2.len() implies (#[trigger] s2[i]).0 < (#[trigger] s2[j]).0 by {
            assert(s2[i] == s[i] && s2[j] == s[j]);
        }
        assert(lists_in_key_order(s2, m2));
        lemma_listing_builds_map(s2, m2);
        assert(m.contains_key(k));
        assert(m.dom() =~= m2.dom().insert(k));
        assert(map_of(s) =~= m);
    }
}

/// Entries read back from their encoding.
pub proof fn lemma_rd_entries(b: Seq<u8>, p: int, s: Seq<(u64, Seq<u8>)>)
    requires
        at(b, p, enc_entries(s)),
        forall|i: int| 0 <= i < s.len() ==> ed25519_public_key_accepted((#[trigger] s[i]).1) && s[i].1.len() <= u64::MAX,
    ensures
        rd_entries(b, p, s.len()) == Some((s, p + enc_entries(s).len())),
    decreases s.len(),
{
    if s.len() > 0 {
        let s2 = s.drop_last();
        let (k, v) = s.last();
        let a = enc_entries(s2);
        assert(enc_entries(s) == a + enc_u64(k) + enc_bytes(v));
        lemma_at_split(b, p, a + enc_u64(k), enc_bytes(v));
        lemma_at_split(b, p, a, enc_u64(k));
        assert forall|i: int| 0 <= i < s2.len() implies ed25519_public_key_accepted((#[trigger] s2[i]).1) && s2[i].1.len() <= u64::MAX by {
            assert(s2[i] == s[i]);
        }
        lemma_rd_entries(b, p, s2);
        assert(ed25519_public_key_accepted(s[s.len() - 1].1));
        lemma_rd_u64(b, p + a.len(), k);
        lemma_auto_spec_u64_to_from_le_bytes();
        lemma_rd_bytes(b, p + a.len() + 8, v);
        assert(s2.push((k, v)) =~= s);
    }
}

/// Every value of the map is an accepted public key of a length a `u64` holds.
pub open spec fn keys_well_formed(m: Map<u64, Seq<u8>>) -> bool {
    forall|k: u64| #[trigger] m.contains_key(k) ==> ed25519_public_key_accepted(m[k]) && m[k].len() <= u64::MAX
}

/// A finite map reads back from its encoding.
pub proof fn lemma_rd_electors(b: Seq<u8>, p: int, m: Map<u64, Seq<u8>>)
    requires
        at(b, p, enc_electors(m)),
        m.dom().finite(),
        m.len() <= u64::MAX,
        keys_well_formed(m),
    ensures
        rd_electors(b, p) == Some((m, p + enc_electors(m).len())),
{
    lemma_finite_map_has_key_order(m);
    let s = entries_in_key_order(m);
    lemma_listing_builds_map(s, m);
    lemma_at_split(b, p, enc_u64(m.len() as u64), enc_entries(s));
    lemma_rd_u64(b, p, m.len() as u64);
    lemma_auto_spec_u64_to_from_le_bytes();
    assert forall|i: int| 0 <= i < s.len() implies ed25519_public_key_accepted((#[trigger] s[i]).1) && s[i].1.len() <= u64::MAX by {
        assert(m.contains_key(s[i].0));
    }
    lemma_rd_entries(b, p + 8, s);
}

} // verus!
