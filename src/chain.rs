//! Blocks of transactions and the append-only chain that holds them.
use crate::tx::Transaction;
use vstd::prelude::*;

verus! {

/// A block: its identity hash, a sequence number, and its transactions.
pub struct Block {
    pub hash: String,
    pub id: u128,
    pub transactions: Vec<Transaction>,
}

impl Block {
    /// An empty block with the given hash and id.
    pub fn new(hash: String, id: u128) -> (r: Block)
        ensures
            r.hash == hash,
            r.id == id,
            r.transactions@.len() == 0,
    {
        Block { hash, id, transactions: Vec::new() }
    }

    /// Appends a transaction to the block.
    pub fn add_transaction(&mut self, tx: Transaction)
        ensures
            final(self).hash == old(self).hash,
            final(self).id == old(self).id,
            final(self).transactions@ == old(self).transactions@.push(tx),
    {
        self.transactions.push(tx);
    }
}

/// The chain: blocks in the order they were appended; a block's height is
/// its position.
pub struct BlockChain {
    pub blocks: Vec<Block>,
}

/// Whether no block before position `k` of `blocks` carries `hash`.
pub open spec fn no_hash_before(blocks: Seq<Block>, hash: Seq<char>, k: int) -> bool {
    forall|j: int| 0 <= j < k ==> (#[trigger] blocks[j]).hash@ != hash
}

impl BlockChain {
    /// A chain with no blocks.
    pub fn new() -> (r: BlockChain)
        ensures
            r.blocks@.len() == 0,
    {
        BlockChain { blocks: Vec::new() }
    }

    /// Appends `block` at the next height.
    pub fn add_block(&mut self, block: Block)
        ensures
            final(self).blocks@ == old(self).blocks@.push(block),
    {
        self.blocks.push(block);
    }

    /// The block at `height`, or `None` where the chain is not that long.
    pub fn get_block(&self, height: usize) -> (r: Option<&Block>)
        ensures
            match r {
                Some(b) => height < self.blocks@.len() && *b == self.blocks@[height as int],
                None => height >= self.blocks@.len(),
            },
    {
        if height < self.blocks.len() {
            Some(&self.blocks[height])
        } else {
            None
        }
    }

    /// The first block, in order of appending, whose hash is `hash`, or `None`
    /// where no block carries it.
    pub fn get_block_by_hash(&self, hash: &str) -> (r: Option<&Block>)
        ensures
            match r {
                Some(b) => exists|k: int|
                    0 <= k < self.blocks@.len() && self.blocks@[k].hash@ == hash@ && *b
                        == self.blocks@[k] && no_hash_before(self.blocks@, hash@, k),
                None => no_hash_before(self.blocks@, hash@, self.blocks@.len() as int),
            },
    {
        let target: String = hash.to_owned();
        let mut i: usize = 0;
        while i < self.blocks.len()
            invariant
                i <= self.blocks@.len(),
                target@ == hash@,
                no_hash_before(self.blocks@, hash@, i as int),
            decreases self.blocks@.len() - i,
        {
            if self.blocks[i].hash == target {
                return Some(&self.blocks[i]);
            }
            i = i + 1;
        }
        None
    }
}

/// Appending a block keeps every earlier height and puts the new block at the
/// height equal to the former block count.
pub proof fn lemma_append_heights(before: Seq<Block>, block: Block)
    ensures
        before.push(block).len() == before.len() + 1,
        before.push(block)[before.len() as int] == block,
        forall|k: int| 0 <= k < before.len() ==> #[trigger] before.push(block)[k] == before[k],
{
}

} // verus!
