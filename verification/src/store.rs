//! Blocks looked up by their hash.

use vstd::prelude::*;
use crate::block::{Block, BlockView, block_hash};

verus! {

/// A set of blocks, each stored under its own hash.  The entries are kept
/// in a list with distinct keys: vstd's specifications of `HashMap` and
/// `BTreeMap` give no lookup facts for `String` keys, so a map keyed by the
/// hash text could not carry these contracts.
pub struct BlockStore {
    entries: Vec<(String, Block)>,
}

/// Keys of the entries at positions `i` and `j` differ when `i != j`.
pub open spec fn keys_distinct(s: Seq<(Seq<char>, BlockView)>) -> bool {
    forall|i: int, j: int| 0 <= i < s.len() && 0 <= j < s.len() && i != j ==> (#[trigger] s[i]).0 != (#[trigger] s[j]).0
}

/// The map that a list of distinct-key entries stands for.
pub open spec fn entries_map(s: Seq<(Seq<char>, BlockView)>) -> Map<Seq<char>, BlockView>
    decreases s.len(),
{
    if s.len() == 0 {
        Map::empty()
    } else {
        entries_map(s.drop_last()).insert(s.last().0, s.last().1)
    }
}

impl BlockStore {
    /// The entries as key and block views.
    pub closed spec fn entry_views(&self) -> Seq<(Seq<char>, BlockView)> {
        self.entries@.map_values(|e: (String, Block)| (e.0@, e.1@))
    }

    #[verifier::type_invariant]
    closed spec fn inv(&self) -> bool {
        &&& keys_distinct(self.entry_views())
        &&& forall|i: int| 0 <= i < self.entries@.len() ==> (#[trigger] self.entries@[i]).0@ == block_hash(self.entries@[i].1@)
    }
}

impl View for BlockStore {
    type V = Map<Seq<char>, BlockView>;

    closed spec fn view(&self) -> Map<Seq<char>, BlockView> {
        entries_map(self.entry_views())
    }
}

proof fn lemma_entries_map_lookup(s: Seq<(Seq<char>, BlockView)>, k: Seq<char>)
    requires
        keys_distinct(s),
    ensures
        entries_map(s).contains_key(k) <==> exists|i: int| 0 <= i < s.len() && (#[trigger] s[i]).0 == k,
        forall|i: int| 0 <= i < s.len() && (#[trigger] s[i]).0 == k ==> entries_map(s)[k] == s[i].1,
    decreases s.len(),
{
    if s.len() > 0 {
        let t = s.drop_last();
        assert forall|i: int, j: int| 0 <= i < t.len() && 0 <= j < t.len() && i != j implies (#[trigger] t[i]).0 != (#[trigger] t[j]).0 by {
            assert(s[i] == t[i] && s[j] == t[j]);
        }
        lemma_entries_map_lookup(t, k);
        if entries_map(s).contains_key(k) && s.last().0 != k {
            let i = choose|i: int| 0 <= i < t.len() && (#[trigger] t[i]).0 == k;
            assert(s[i] == t[i]);
        }
        if exists|i: int| 0 <= i < s.len() && (#[trigger] s[i]).0 == k {
            let i = choose|i: int| 0 <= i < s.len() && (#[trigger] s[i]).0 == k;
            if i < s.len() - 1 {
                assert(t[i] == s[i]);
            }
        }
        assert forall|i: int| 0 <= i < s.len() && (#[trigger] s[i]).0 == k implies entries_map(s)[k] == s[i].1 by {
            if i < s.len() - 1 {
                assert(t[i] == s[i]);
                assert(s.last().0 != k);
            }
        }
    }
}

/// Removing the entry at `idx` removes its key from the map.
proof fn lemma_entries_map_remove(s: Seq<(Seq<char>, BlockView)>, idx: int)
    requires
        keys_distinct(s),
        0 <= idx < s.len(),
    ensures
        keys_distinct(s.remove(idx)),
        entries_map(s.remove(idx)) == entries_map(s).remove(s[idx].0),
{
    let r = s.remove(idx);
    let k0 = s[idx].0;
    assert forall|i: int, j: int| 0 <= i < r.len() && 0 <= j < r.len() && i != j implies (#[trigger] r[i]).0 != (#[trigger] r[j]).0 by {
        let si = if i < idx { i } else { i + 1 };
        let sj = if j < idx { j } else { j + 1 };
        assert(r[i] == s[si] && r[j] == s[sj]);
    }
    assert forall|k: Seq<char>| #[trigger] entries_map(r).contains_key(k) == entries_map(s).remove(k0).contains_key(k) by {
        lemma_entries_map_lookup(r, k);
        lemma_entries_map_lookup(s, k);
        if entries_map(r).contains_key(k) {
            let i = choose|i: int| 0 <= i < r.len() && (#[trigger] r[i]).0 == k;
            let si = if i < idx { i } else { i + 1 };
            assert(r[i] == s[si]);
        }
        if entries_map(s).remove(k0).contains_key(k) {
            let i = choose|i: int| 0 <= i < s.len() && (#[trigger] s[i]).0 == k;
            assert(i != idx);
            let ri = if i < idx { i } else { i - 1 };
            assert(r[ri] == s[i]);
        }
    }
    assert forall|k: Seq<char>| #[trigger] entries_map(r).contains_key(k) implies entries_map(r)[k] == entries_map(s).remove(k0)[k] by {
        lemma_entries_map_lookup(r, k);
        lemma_entries_map_lookup(s, k);
        let i = choose|i: int| 0 <= i < r.len() && (#[trigger] r[i]).0 == k;
        let si = if i < idx { i } else { i + 1 };
        assert(r[i] == s[si]);
    }
    assert(entries_map(r) =~= entries_map(s).remove(k0));
}

impl BlockStore {
    /// An empty store.
    pub fn new() -> (s: BlockStore)
        ensures
            s@ == Map::<Seq<char>, BlockView>::empty(),
    {
        let s = BlockStore { entries: Vec::new() };
        assert(s.entry_views() =~= Seq::empty());
        s
    }

    fn position(&self, key: &String) -> (p: Option<usize>)
        ensures
            match p {
                Some(i) => i < self.entries@.len() && self.entry_views()[i as int].0 == key@,
                None => forall|i: int| 0 <= i < self.entries@.len() ==> (#[trigger] self.entry_views()[i]).0 != key@,
            },
    {
        let mut i: usize = 0;
        while i < self.entries.len()
            invariant
                i <= self.entries@.len(),
                forall|j: int| 0 <= j < i ==> (#[trigger] self.entry_views()[j]).0 != key@,
            decreases self.entries@.len() - i,
        {
            if self.entries[i].0 == *key {
                return Some(i);
            }
            i = i + 1;
        }
        None
    }

    /// Whether a block is stored under `key`.
    pub fn contains_key(&self, key: &String) -> (found: bool)
        ensures
            found == self@.contains_key(key@),
    {
        proof {
            use_type_invariant(self);
            lemma_entries_map_lookup(self.entry_views(), key@);
        }
        self.position(key).is_some()
    }

    /// The block stored under `key`, if any; a stored block's hash is its key.
    pub fn get(&self, key: &String) -> (b: Option<&Block>)
        ensures
            match b {
                Some(b) => self@.contains_key(key@) && self@[key@] == b@ && block_hash(b@) == key@,
                None => !self@.contains_key(key@),
            },
    {
        proof {
            use_type_invariant(self);
            lemma_entries_map_lookup(self.entry_views(), key@);
        }
        match self.position(key) {
            Some(i) => {
                proof {
                    assert(self.entry_views()[i as int] == (self.entries@[i as int].0@, self.entries@[i as int].1@));
                }
                Some(&self.entries[i].1)
            },
            None => None,
        }
    }

    /// Stores `block` under its hash and hands back the block that was stored
    /// there before, if any.
    pub fn insert_block(&mut self, block: Block) -> (previous: Option<Block>)
        ensures
            final(self)@ == old(self)@.insert(block_hash(block@), block@),
            match previous {
                Some(p) => old(self)@.contains_key(block_hash(block@)) && p@ == old(self)@[block_hash(block@)],
                None => !old(self)@.contains_key(block_hash(block@)),
            },
    {
        proof {
            use_type_invariant(&*self);
        }
        let key = block.hash();
        let previous = self.remove(&key);
        proof {
            use_type_invariant(&*self);
        }
        let ghost before = self.entry_views();
        let ghost before_entries = self.entries@;
        let ghost h = block_hash(block@);
        let ghost bv = block@;
        let mut entries: Vec<(String, Block)> = Vec::new();
        std::mem::swap(&mut entries, &mut self.entries);
        entries.push((key, block));
        proof {
            let ev = entries@.map_values(|e: (String, Block)| (e.0@, e.1@));
            assert(ev =~= before.push((h, bv)));
            lemma_entries_map_lookup(before, h);
            assert forall|i: int, j: int| 0 <= i < ev.len() && 0 <= j < ev.len() && i != j
                implies (#[trigger] ev[i]).0 != (#[trigger] ev[j]).0 by {
                if i < before.len() && j < before.len() {
                    assert(ev[i] == before[i] && ev[j] == before[j]);
                } else if i < before.len() {
                    assert(ev[i] == before[i]);
                } else {
                    assert(ev[j] == before[j]);
                }
            }
            assert forall|j: int| 0 <= j < entries@.len() implies (#[trigger] entries@[j]).0@ == block_hash(entries@[j].1@) by {
                if j < before_entries.len() {
                    assert(entries@[j] == before_entries[j]);
                }
            }
        }
        self.entries = entries;
        proof {
            assert(self.entry_views() =~= before.push((h, bv)));
            assert(before.push((h, bv)).drop_last() =~= before);
            assert(self@ == entries_map(before).insert(h, bv));
            assert(old(self)@.insert(h, bv) =~= old(self)@.remove(h).insert(h, bv));
        }
        previous
    }

    /// Takes the block stored under `key` out of the store.
    pub fn remove(&mut self, key: &String) -> (removed: Option<Block>)
        ensures
            final(self)@ == old(self)@.remove(key@),
            match removed {
                Some(b) => old(self)@.contains_key(key@) && b@ == old(self)@[key@],
                None => !old(self)@.contains_key(key@),
            },
    {
        proof {
            use_type_invariant(&*self);
            lemma_entries_map_lookup(self.entry_views(), key@);
        }
        match self.position(key) {
            Some(i) => {
                let ghost before = self.entry_views();
                let mut entries: Vec<(String, Block)> = Vec::new();
                std::mem::swap(&mut entries, &mut self.entries);
                let (_, b) = entries.remove(i);
                proof {
                    assert(entries@.map_values(|e: (String, Block)| (e.0@, e.1@)) =~= before.remove(i as int));
                    lemma_entries_map_remove(before, i as int);
                    assert forall|j: int| 0 <= j < entries@.len() implies (#[trigger] entries@[j]).0@ == block_hash(entries@[j].1@) by {
                        let oj = if j < i { j } else { j + 1 };
                        assert(entries@[j] == old(self).entries@[oj]);
                    }
                }
                self.entries = entries;
                proof {
                    assert(self.entry_views() =~= before.remove(i as int));
                    lemma_entries_map_remove(before, i as int);
                }
                Some(b)
            },
            None => {
                proof {
                    assert(old(self)@.remove(key@) =~= old(self)@);
                }
                None
            },
        }
    }
}

} // verus!
