//! A read-only view of validated chain state, answering point queries.

use vstd::prelude::*;
use crate::types::{Block, BlockHeader, HashValue, Transaction};

verus! {

/// The first block of `s` whose number is `n`.
pub open spec fn block_with_number(s: Seq<Block>, n: u64) -> Option<Block>
    decreases s.len(),
{
    if s.len() == 0 {
        None
    } else if s[0].header.number == n {
        Some(s[0])
    } else {
        block_with_number(s.drop_first(), n)
    }
}

/// The first block of `s` whose identifier is `h`.
pub open spec fn block_with_hash(s: Seq<Block>, h: HashValue) -> Option<Block>
    decreases s.len(),
{
    if s.len() == 0 {
        None
    } else if s[0].header.id == h {
        Some(s[0])
    } else {
        block_with_hash(s.drop_first(), h)
    }
}

/// The header of a block that may be absent.
pub open spec fn header_of(b: Option<Block>) -> Option<BlockHeader> {
    match b {
        Some(b) => Some(b.header),
        None => None,
    }
}

/// The head of the chain: its last block.
pub open spec fn head_of(s: Seq<Block>) -> Option<Block> {
    if s.len() == 0 {
        None
    } else {
        Some(s.last())
    }
}

/// A block found by number has that number.
pub proof fn lemma_block_with_number_matches(s: Seq<Block>, n: u64)
    ensures
        block_with_number(s, n) matches Some(b) ==> b.header.number == n,
    decreases s.len(),
{
    if s.len() > 0 && s[0].header.number != n {
        lemma_block_with_number_matches(s.drop_first(), n);
    }
}

/// The blocks a node has validated, oldest first; the last one is the head.
pub struct ChainSnapshot {
    blocks: Vec<Block>,
}

impl View for ChainSnapshot {
    type V = Seq<Block>;

    closed spec fn view(&self) -> Seq<Block> {
        self.blocks@
    }
}

/// A copy of a sequence of transactions.
fn copy_transactions(v: &Vec<Transaction>) -> (r: Vec<Transaction>)
    ensures
        r@ == v@,
{
    let mut r: Vec<Transaction> = Vec::new();
    let mut i: usize = 0;
    while i < v.len()
        invariant
            i <= v.len(),
            r@ == v@.take(i as int),
        decreases v.len() - i,
    {
        r.push(v[i]);
        i += 1;
        proof {
            assert(r@ =~= v@.take(i as int));
        }
    }
    proof {
        assert(v@.take(v@.len() as int) =~= v@);
    }
    r
}

impl ChainSnapshot {
    pub fn new(blocks: Vec<Block>) -> (r: ChainSnapshot)
        ensures
            r@ == blocks@,
    {
        ChainSnapshot { blocks }
    }

    /// Number of blocks held.
    pub fn len(&self) -> (r: usize)
        ensures
            r == self@.len(),
    {
        self.blocks.len()
    }

    /// Appends a block as the new head.
    pub fn push(&mut self, b: Block)
        ensures
            final(self)@ == old(self)@.push(b),
    {
        self.blocks.push(b);
    }

    /// Position of the first block with number `n`.
    fn index_of_number(&self, n: u64) -> (r: Option<usize>)
        ensures
            match r {
                Some(i) => i < self@.len() && block_with_number(self@, n) == Some(self@[i as int]),
                None => block_with_number(self@, n) is None,
            },
    {
        let len = self.blocks.len();
        let mut i: usize = 0;
        proof {
            assert(self@.subrange(0, len as int) =~= self@);
        }
        while i < len
            invariant
                i <= len,
                len == self@.len(),
                block_with_number(self@, n) == block_with_number(self@.subrange(i as int, len as int), n),
            decreases len - i,
        {
            proof {
                assert(self@.subrange(i as int, len as int).drop_first()
                    =~= self@.subrange(i + 1, len as int));
            }
            if self.blocks[i].header.number == n {
                return Some(i);
            }
            i += 1;
        }
        None
    }

    /// Position of the first block with identifier `h`.
    fn index_of_hash(&self, h: HashValue) -> (r: Option<usize>)
        ensures
            match r {
                Some(i) => i < self@.len() && block_with_hash(self@, h) == Some(self@[i as int]),
                None => block_with_hash(self@, h) is None,
            },
    {
        let len = self.blocks.len();
        let mut i: usize = 0;
        proof {
            assert(self@.subrange(0, len as int) =~= self@);
        }
        while i < len
            invariant
                i <= len,
                len == self@.len(),
                block_with_hash(self@, h) == block_with_hash(self@.subrange(i as int, len as int), h),
            decreases len - i,
        {
            proof {
                assert(self@.subrange(i as int, len as int).drop_first()
                    =~= self@.subrange(i + 1, len as int));
            }
            if self.blocks[i].header.id == h {
                return Some(i);
            }
            i += 1;
        }
        None
    }

    /// The head block, if the chain holds any block.
    pub fn head_block(&self) -> (r: Option<Block>)
        ensures
            match r {
                Some(b) => head_of(self@) matches Some(h) && b.header == h.header
                    && b.transactions@ == h.transactions@,
                None => head_of(self@) is None,
            },
    {
        let len = self.blocks.len();
        if len == 0 {
            None
        } else {
            let b = &self.blocks[len - 1];
            Some(Block { header: b.header, transactions: copy_transactions(&b.transactions) })
        }
    }

    /// The header of the block with number `n`.
    pub fn header_by_number(&self, n: u64) -> (r: Option<BlockHeader>)
        ensures
            r == header_of(block_with_number(self@, n)),
    {
        match self.index_of_number(n) {
            Some(i) => Some(self.blocks[i].header),
            None => None,
        }
    }

    /// The header of the block with identifier `h`.
    pub fn header_by_hash(&self, h: HashValue) -> (r: Option<BlockHeader>)
        ensures
            r == header_of(block_with_hash(self@, h)),
    {
        match self.index_of_hash(h) {
            Some(i) => Some(self.blocks[i].header),
            None => None,
        }
    }

    /// The transactions of the block with identifier `h`.
    pub fn transactions_by_hash(&self, h: HashValue) -> (r: Option<Vec<Transaction>>)
        ensures
            match r {
                Some(t) => block_with_hash(self@, h) matches Some(b) && t@ == b.transactions@,
                None => block_with_hash(self@, h) is None,
            },
    {
        match self.index_of_hash(h) {
            Some(i) => Some(copy_transactions(&self.blocks[i].transactions)),
            None => None,
        }
    }
}

} // verus!
