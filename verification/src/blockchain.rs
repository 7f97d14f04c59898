//! The chain of committed blocks and the queue of blocks that wait for a commit.

use vstd::prelude::*;
use crate::block::{Block, BlockView, block_hash};
use crate::store::BlockStore;

verus! {

/// What a blockchain holds: the committed blocks in order, every block that
/// was ever added to the chain by hash, and the blocks waiting for a commit
/// by hash.
pub struct ChainView {
    pub blocks: Seq<BlockView>,
    pub known: Map<Seq<char>, BlockView>,
    pub uncommitted: Map<Seq<char>, BlockView>,
}

/// The chain of committed blocks, with the queue of proposed blocks that
/// wait for a commit.
pub struct Blockchain {
    pub blocks: Vec<Block>,
    pub block_hash_map: BlockStore,
    pub uncommited_block_queue: BlockStore,
}

/// The views of a run of blocks.
pub open spec fn block_views(blocks: Seq<Block>) -> Seq<BlockView> {
    blocks.map_values(|b: Block| b@)
}

impl View for Blockchain {
    type V = ChainView;

    open spec fn view(&self) -> ChainView {
        ChainView {
            blocks: block_views(self.blocks@),
            known: self.block_hash_map@,
            uncommitted: self.uncommited_block_queue@,
        }
    }
}

/// The chain after `add_block(b)`: `b` goes last and is known by its hash.
pub open spec fn spec_add_block(c: ChainView, b: BlockView) -> ChainView {
    ChainView { blocks: c.blocks.push(b), known: c.known.insert(block_hash(b), b), ..c }
}

/// The last block of the chain, if any.
pub open spec fn spec_chain_head(c: ChainView) -> Option<BlockView> {
    if c.blocks.len() == 0 {
        None
    } else {
        Some(c.blocks.last())
    }
}

/// The chain without its last block.
pub open spec fn spec_remove_head(c: ChainView) -> ChainView {
    ChainView { blocks: c.blocks.drop_last(), ..c }
}

/// Whether `b` may follow the head: it names the head's hash as its
/// previous hash, or the chain is empty.
pub open spec fn spec_extends_head(c: ChainView, b: BlockView) -> bool {
    match spec_chain_head(c) {
        Some(head) => b.header.prev_block_hash == block_hash(head),
        None => true,
    }
}

/// The first block of `blocks` whose id is `id`.
pub open spec fn first_with_id(blocks: Seq<BlockView>, id: u64) -> Option<BlockView>
    decreases blocks.len(),
{
    if blocks.len() == 0 {
        None
    } else if blocks[0].header.block_id == id {
        Some(blocks[0])
    } else {
        first_with_id(blocks.drop_first(), id)
    }
}

/// What `find_block(id, hash)` finds: the first committed block with that
/// id, or else the waiting block with that hash.
pub open spec fn spec_find_block(c: ChainView, id: u64, hash: Seq<char>) -> Option<BlockView> {
    match first_with_id(c.blocks, id) {
        Some(b) => Some(b),
        None => if c.uncommitted.contains_key(hash) {
            Some(c.uncommitted[hash])
        } else {
            None
        },
    }
}

/// Whether a block with this hash was added to the chain or waits for a commit.
pub open spec fn spec_is_known(c: ChainView, hash: Seq<char>) -> bool {
    c.known.contains_key(hash) || c.uncommitted.contains_key(hash)
}

/// The chain after the waiting block with this hash is taken out.
pub open spec fn spec_remove_uncommitted(c: ChainView, hash: Seq<char>) -> ChainView {
    ChainView { uncommitted: c.uncommitted.remove(hash), ..c }
}

/// The chain after `b` joins the waiting blocks under its hash.
pub open spec fn spec_add_uncommitted(c: ChainView, b: BlockView) -> ChainView {
    ChainView { uncommitted: c.uncommitted.insert(block_hash(b), b), ..c }
}

/// The waiting block stored under `hash`, if any.
pub open spec fn spec_uncommitted_get(c: ChainView, hash: Seq<char>) -> Option<BlockView> {
    if c.uncommitted.contains_key(hash) {
        Some(c.uncommitted[hash])
    } else {
        None
    }
}

proof fn lemma_first_with_id_found(blocks: Seq<BlockView>, id: u64, i: int)
    requires
        0 <= i < blocks.len(),
        blocks[i].header.block_id == id,
        forall|j: int| 0 <= j < i ==> (#[trigger] blocks[j]).header.block_id != id,
    ensures
        first_with_id(blocks, id) == Some(blocks[i]),
    decreases i,
{
    if i > 0 {
        let t = blocks.drop_first();
        assert forall|j: int| 0 <= j < i - 1 implies (#[trigger] t[j]).header.block_id != id by {
            assert(t[j] == blocks[j + 1]);
        }
        lemma_first_with_id_found(t, id, i - 1);
    }
}

proof fn lemma_first_with_id_none(blocks: Seq<BlockView>, id: u64)
    requires
        forall|j: int| 0 <= j < blocks.len() ==> (#[trigger] blocks[j]).header.block_id != id,
    ensures
        first_with_id(blocks, id) is None,
    decreases blocks.len(),
{
    if blocks.len() > 0 {
        let t = blocks.drop_first();
        assert forall|j: int| 0 <= j < t.len() implies (#[trigger] t[j]).header.block_id != id by {
            assert(t[j] == blocks[j + 1]);
        }
        lemma_first_with_id_none(t, id);
    }
}

impl Blockchain {
    /// An empty chain with no waiting blocks.
    pub fn new() -> (c: Blockchain)
        ensures
            c@.blocks == Seq::<BlockView>::empty(),
            c@.known == Map::<Seq<char>, BlockView>::empty(),
            c@.uncommitted == Map::<Seq<char>, BlockView>::empty(),
    {
        let c = Blockchain {
            blocks: Vec::new(),
            block_hash_map: BlockStore::new(),
            uncommited_block_queue: BlockStore::new(),
        };
        assert(c@.blocks =~= Seq::<BlockView>::empty());
        c
    }

    /// Appends `block` to the chain and records it by its hash.
    pub fn add_block(&mut self, block: Block)
        ensures
            final(self)@ == spec_add_block(old(self)@, block@),
    {
        let copy = block.duplicate();
        self.blocks.push(copy);
        let _ = self.block_hash_map.insert_block(block);
        assert(block_views(self.blocks@) =~= block_views(old(self).blocks@).push(block@));
    }

    /// Whether `block` names the hash of the chain's last block as its
    /// previous hash; any block extends an empty chain.
    pub fn block_extends_chain_head(&self, block: &Block) -> (extends: bool)
        ensures
            extends == spec_extends_head(self@, block@),
    {
        match self.get_chain_head() {
            Some(head_block) => block.header.prev_block_hash == head_block.hash(),
            None => true,
        }
    }

    /// A copy of the chain's last block, if any.
    pub fn get_chain_head(&self) -> (head: Option<Block>)
        ensures
            match head {
                Some(h) => spec_chain_head(self@) == Some(h@),
                None => spec_chain_head(self@) is None,
            },
    {
        let n = self.blocks.len();
        if n == 0 {
            None
        } else {
            Some(self.blocks[n - 1].duplicate())
        }
    }

    /// Drops the chain's last block; the record of its hash stays.
    pub fn remove_head(&mut self)
        requires
            old(self)@.blocks.len() > 0,
        ensures
            final(self)@ == spec_remove_head(old(self)@),
    {
        let n = self.blocks.len();
        let _ = self.blocks.remove(n - 1);
        assert(block_views(self.blocks@) =~= block_views(old(self).blocks@).drop_last());
    }

    /// The first committed block with id `block_id`, or else the waiting
    /// block with hash `block_hash`.
    pub fn find_block(&self, block_id: u64, block_hash: String) -> (found: Option<Block>)
        ensures
            match found {
                Some(b) => spec_find_block(self@, block_id, block_hash@) == Some(b@),
                None => spec_find_block(self@, block_id, block_hash@) is None,
            },
    {
        let mut i: usize = 0;
        while i < self.blocks.len()
            invariant
                i <= self.blocks@.len(),
                forall|j: int| 0 <= j < i ==> (#[trigger] self.blocks@[j]).header.block_id != block_id,
            decreases self.blocks@.len() - i,
        {
            if self.blocks[i].header.block_id == block_id {
                proof {
                    let bv = block_views(self.blocks@);
                    assert forall|j: int| 0 <= j < i implies (#[trigger] bv[j]).header.block_id != block_id by {
                        assert(bv[j] == self.blocks@[j]@);
                    }
                    lemma_first_with_id_found(bv, block_id, i as int);
                }
                return Some(self.blocks[i].duplicate());
            }
            i = i + 1;
        }
        proof {
            let bv = block_views(self.blocks@);
            assert forall|j: int| 0 <= j < bv.len() implies (#[trigger] bv[j]).header.block_id != block_id by {
                assert(bv[j] == self.blocks@[j]@);
            }
            lemma_first_with_id_none(bv, block_id);
        }
        match self.uncommited_block_queue.get(&block_hash) {
            Some(b) => Some(b.duplicate()),
            None => None,
        }
    }

    /// Whether a block with this hash was added to the chain or waits for a commit.
    pub fn is_known_block(&self, block_hash: &String) -> (known: bool)
        ensures
            known == spec_is_known(self@, block_hash@),
    {
        self.block_hash_map.contains_key(block_hash) || self.uncommited_block_queue.contains_key(block_hash)
    }

    /// Takes the waiting block with this hash out of the queue.
    pub fn remove_from_uncommitted_block_que(&mut self, block_hash: &String) -> (removed: Option<Block>)
        ensures
            final(self)@ == spec_remove_uncommitted(old(self)@, block_hash@),
            match removed {
                Some(b) => spec_uncommitted_get(old(self)@, block_hash@) == Some(b@),
                None => spec_uncommitted_get(old(self)@, block_hash@) is None,
            },
    {
        self.uncommited_block_queue.remove(block_hash)
    }

    /// Puts `block` in the queue under its hash; hands back the block that
    /// was there under that hash before, if any.
    pub fn add_to_uncommitted_block_que(&mut self, block: Block) -> (previous: Option<Block>)
        ensures
            final(self)@ == spec_add_uncommitted(old(self)@, block@),
            match previous {
                Some(p) => spec_uncommitted_get(old(self)@, block_hash(block@)) == Some(p@),
                None => spec_uncommitted_get(old(self)@, block_hash(block@)) is None,
            },
    {
        self.uncommited_block_queue.insert_block(block)
    }

    /// Whether a block with this hash waits for a commit.
    pub fn is_uncommitted(&self, block_hash: &String) -> (waiting: bool)
        ensures
            waiting == self@.uncommitted.contains_key(block_hash@),
    {
        self.uncommited_block_queue.contains_key(block_hash)
    }
}

/// After a block is added, it is the chain's head.
pub proof fn law_added_block_is_head(c: ChainView, b: BlockView)
    ensures
        spec_chain_head(spec_add_block(c, b)) == Some(b),
{
}

/// Removing the head right after adding a block gives back the earlier list of blocks.
pub proof fn law_remove_head_undoes_add(c: ChainView, b: BlockView)
    ensures
        spec_remove_head(spec_add_block(c, b)).blocks == c.blocks,
{
    assert(c.blocks.push(b).drop_last() =~= c.blocks);
}

/// A block added to the chain is known by its hash, also after it is removed as head.
pub proof fn law_added_block_is_known(c: ChainView, b: BlockView)
    ensures
        spec_is_known(spec_add_block(c, b), block_hash(b)),
        spec_is_known(spec_remove_head(spec_add_block(c, b)), block_hash(b)),
{
}

/// A block put in the queue is read back under its hash, and taking it out
/// leaves the queue as it was without that hash.
pub proof fn law_uncommitted_read_back(c: ChainView, b: BlockView)
    ensures
        spec_uncommitted_get(spec_add_uncommitted(c, b), block_hash(b)) == Some(b),
        spec_is_known(spec_add_uncommitted(c, b), block_hash(b)),
        spec_remove_uncommitted(spec_add_uncommitted(c, b), block_hash(b)).uncommitted
            == c.uncommitted.remove(block_hash(b)),
{
    assert(c.uncommitted.insert(block_hash(b), b).remove(block_hash(b)) =~= c.uncommitted.remove(block_hash(b)));
}

/// A block that names the hash of the block just added as its previous hash extends the chain.
pub proof fn law_successor_extends_head(c: ChainView, b: BlockView, next: BlockView)
    requires
        next.header.prev_block_hash == block_hash(b),
    ensures
        spec_extends_head(spec_add_block(c, b), next),
{
}

/// A block added under an id that no committed block has is what `find_block` finds by that id.
pub proof fn law_find_added_block(c: ChainView, b: BlockView, hash: Seq<char>)
    requires
        forall|i: int| 0 <= i < c.blocks.len() ==> (#[trigger] c.blocks[i]).header.block_id != b.header.block_id,
    ensures
        spec_find_block(spec_add_block(c, b), b.header.block_id, hash) == Some(b),
{
    let s = c.blocks.push(b);
    assert forall|j: int| 0 <= j < c.blocks.len() implies (#[trigger] s[j]).header.block_id != b.header.block_id by {
        assert(s[j] == c.blocks[j]);
    }
    lemma_first_with_id_found(s, b.header.block_id, c.blocks.len() as int);
}

/// A call that changes a chain: `add_block`, `remove_head`,
/// `add_to_uncommitted_block_que` or `remove_from_uncommitted_block_que`.
pub enum ChainOp {
    AddBlock(BlockView),
    RemoveHead,
    AddUncommitted(BlockView),
    RemoveUncommitted(Seq<char>),
}

/// The chain after one call, as the call's contract gives it.
pub open spec fn spec_apply_op(c: ChainView, op: ChainOp) -> ChainView {
    match op {
        ChainOp::AddBlock(b) => spec_add_block(c, b),
        ChainOp::RemoveHead => spec_remove_head(c),
        ChainOp::AddUncommitted(b) => spec_add_uncommitted(c, b),
        ChainOp::RemoveUncommitted(h) => spec_remove_uncommitted(c, h),
    }
}

/// The chain after a run of calls, in order.
pub open spec fn spec_apply_ops(c: ChainView, ops: Seq<ChainOp>) -> ChainView
    decreases ops.len(),
{
    if ops.len() == 0 {
        c
    } else {
        spec_apply_op(spec_apply_ops(c, ops.drop_last()), ops.last())
    }
}

/// The chain that `Blockchain::new` makes.
pub open spec fn empty_chain() -> ChainView {
    ChainView {
        blocks: Seq::empty(),
        known: Map::empty(),
        uncommitted: Map::empty(),
    }
}

/// Whether the call adds to the chain a block with hash `h`.
pub open spec fn adds_block_with_hash(op: ChainOp, h: Seq<char>) -> bool {
    op matches ChainOp::AddBlock(b) && block_hash(b) == h
}

proof fn lemma_known_history(ops: Seq<ChainOp>, h: Seq<char>)
    ensures
        spec_apply_ops(empty_chain(), ops).known.contains_key(h)
            <==> exists|i: int| 0 <= i < ops.len() && #[trigger] adds_block_with_hash(ops[i], h),
    decreases ops.len(),
{
    if ops.len() > 0 {
        let prefix = ops.drop_last();
        lemma_known_history(prefix, h);
        let c = spec_apply_ops(empty_chain(), prefix);
        assert(spec_apply_ops(empty_chain(), ops) == spec_apply_op(c, ops.last()));
        let last = ops.len() - 1;
        assert(ops[last] == ops.last());
        if adds_block_with_hash(ops.last(), h) {
            assert(adds_block_with_hash(ops[last], h));
        }
        match ops.last() {
            ChainOp::AddBlock(b) => {
                assert(spec_apply_op(c, ops.last()).known == c.known.insert(block_hash(b), b));
            },
            _ => {
                assert(spec_apply_op(c, ops.last()).known == c.known);
                assert(!adds_block_with_hash(ops.last(), h));
            },
        }
        if exists|i: int| 0 <= i < prefix.len() && #[trigger] adds_block_with_hash(prefix[i], h) {
            let i = choose|i: int| 0 <= i < prefix.len() && #[trigger] adds_block_with_hash(prefix[i], h);
            assert(ops[i] == prefix[i]);
        }
        if exists|i: int| 0 <= i < ops.len() && #[trigger] adds_block_with_hash(ops[i], h) {
            let i = choose|i: int| 0 <= i < ops.len() && #[trigger] adds_block_with_hash(ops[i], h);
            if i < ops.len() - 1 {
                assert(prefix[i] == ops[i]);
            }
        }
    }
}

/// On a chain that `Blockchain::new` made, after any run of calls, a hash is
/// known exactly when some call added a block with that hash to the chain,
/// or a block with that hash waits in the queue: a block once added to the
/// chain stays known, also after it is removed as head.
pub proof fn law_known_history(ops: Seq<ChainOp>, h: Seq<char>)
    ensures
        spec_is_known(spec_apply_ops(empty_chain(), ops), h) <==> (
        (exists|i: int| 0 <= i < ops.len() && #[trigger] adds_block_with_hash(ops[i], h))
            || spec_apply_ops(empty_chain(), ops).uncommitted.contains_key(h)),
{
    lemma_known_history(ops, h);
}

} // verus!
