//! Query logic that turns sync requests into response payloads.

use vstd::prelude::*;
use crate::chain::{
    block_with_hash, block_with_number, head_of, lemma_block_with_number_matches, ChainSnapshot,
};
use crate::types::{
    BatchBodyMsg, BatchHashByNumberMsg, BatchHeaderMsg, Block, BlockBody, GetDataByHashMsg,
    GetHashByNumberMsg, HashValue, HashWithBlockHeader, HashWithNumber, LatestStateMsg,
    SyncError, Transaction,
};

verus! {

/// The announcement of the head of chain `s`.
pub open spec fn latest_state_of(s: Seq<Block>) -> Result<LatestStateMsg, SyncError> {
    match head_of(s) {
        Some(b) => Ok(LatestStateMsg { hash_header: HashWithBlockHeader { hash: b.header.id, header: b.header } }),
        None => Err(SyncError::HeadUnavailable),
    }
}

/// The entries for numbers `ns` against chain `s`, in order; the first number
/// without a block fails the whole batch.
pub open spec fn hashes_by_number(s: Seq<Block>, ns: Seq<u64>) -> Result<Seq<HashWithNumber>, SyncError>
    decreases ns.len(),
{
    if ns.len() == 0 {
        Ok(Seq::empty())
    } else {
        match hashes_by_number(s, ns.drop_last()) {
            Err(e) => Err(e),
            Ok(prev) => match block_with_number(s, ns.last()) {
                Some(b) => Ok(prev.push(HashWithNumber { number: b.header.number, hash: b.header.id })),
                None => Err(SyncError::BlockNumberNotFound(ns.last())),
            },
        }
    }
}

/// The headers for hashes `hs` against chain `s`, in order; the first hash
/// without a block fails the whole batch.
pub open spec fn headers_by_hash(s: Seq<Block>, hs: Seq<HashValue>) -> Result<Seq<HashWithBlockHeader>, SyncError>
    decreases hs.len(),
{
    if hs.len() == 0 {
        Ok(Seq::empty())
    } else {
        match headers_by_hash(s, hs.drop_last()) {
            Err(e) => Err(e),
            Ok(prev) => match block_with_hash(s, hs.last()) {
                Some(b) => Ok(prev.push(HashWithBlockHeader { hash: hs.last(), header: b.header })),
                None => Err(SyncError::BlockHashNotFound(hs.last())),
            },
        }
    }
}

/// The transactions of the block with hash `h`, empty when there is none.
pub open spec fn body_of(s: Seq<Block>, h: HashValue) -> Seq<Transaction> {
    match block_with_hash(s, h) {
        Some(b) => b.transactions@,
        None => Seq::empty(),
    }
}

/// `bodies` answers hashes `hs` against chain `s` position for position.
pub open spec fn bodies_answer(s: Seq<Block>, hs: Seq<HashValue>, bodies: Seq<BlockBody>) -> bool {
    &&& bodies.len() == hs.len()
    &&& forall|i: int| 0 <= i < hs.len() ==> (#[trigger] bodies[i]).hash == hs[i]
        && bodies[i].transactions@ == body_of(s, hs[i])
}

/// A failure on a prefix of the numbers is the failure of the whole batch.
proof fn lemma_number_prefix_error(s: Seq<Block>, ns: Seq<u64>, k: int)
    requires
        0 <= k <= ns.len(),
        hashes_by_number(s, ns.take(k)) is Err,
    ensures
        hashes_by_number(s, ns) == hashes_by_number(s, ns.take(k)),
    decreases ns.len(),
{
    if k == ns.len() {
        assert(ns.take(k) =~= ns);
    } else {
        assert(ns.drop_last().take(k) =~= ns.take(k));
        lemma_number_prefix_error(s, ns.drop_last(), k);
    }
}

/// A failure on a prefix of the hashes is the failure of the whole batch.
proof fn lemma_hash_prefix_error(s: Seq<Block>, hs: Seq<HashValue>, k: int)
    requires
        0 <= k <= hs.len(),
        headers_by_hash(s, hs.take(k)) is Err,
    ensures
        headers_by_hash(s, hs) == headers_by_hash(s, hs.take(k)),
    decreases hs.len(),
{
    if k == hs.len() {
        assert(hs.take(k) =~= hs);
    } else {
        assert(hs.drop_last().take(k) =~= hs.take(k));
        lemma_hash_prefix_error(s, hs.drop_last(), k);
    }
}

/// When the chain has a block for every number asked for, resolving the
/// numbers succeeds with one entry per number, in the order asked, each
/// holding that number and the identifier of its block.
pub proof fn lemma_hashes_by_number_in_order(s: Seq<Block>, ns: Seq<u64>)
    requires
        forall|i: int| 0 <= i < ns.len() ==> (#[trigger] block_with_number(s, ns[i])) is Some,
    ensures
        hashes_by_number(s, ns) matches Ok(out) && out.len() == ns.len()
            && forall|i: int| 0 <= i < ns.len() ==> (#[trigger] out[i]).number == ns[i]
                && out[i].hash == block_with_number(s, ns[i])->Some_0.header.id,
    decreases ns.len(),
{
    if ns.len() > 0 {
        let init = ns.drop_last();
        assert forall|i: int| 0 <= i < init.len() implies (#[trigger] block_with_number(s, init[i])) is Some by {
            assert(init[i] == ns[i]);
        }
        lemma_hashes_by_number_in_order(s, init);
        assert(block_with_number(s, ns[ns.len() - 1]) is Some);
        lemma_block_with_number_matches(s, ns.last());
        let out = hashes_by_number(s, ns)->Ok_0;
        assert forall|i: int| 0 <= i < ns.len() implies (#[trigger] out[i]).number == ns[i]
            && out[i].hash == block_with_number(s, ns[i])->Some_0.header.id by {
            if i < init.len() {
                assert(init[i] == ns[i]);
            }
        }
    }
}

/// When some number has no block, resolving the numbers fails as a batch.
pub proof fn lemma_missing_number_fails_batch(s: Seq<Block>, ns: Seq<u64>, i: int)
    requires
        0 <= i < ns.len(),
        block_with_number(s, ns[i]) is None,
    ensures
        hashes_by_number(s, ns) is Err,
    decreases ns.len(),
{
    if i < ns.len() - 1 {
        assert(ns.drop_last()[i] == ns[i]);
        lemma_missing_number_fails_batch(s, ns.drop_last(), i);
    }
}

/// When some hash has no block, resolving headers fails as a batch.
pub proof fn lemma_missing_hash_fails_headers(s: Seq<Block>, hs: Seq<HashValue>, i: int)
    requires
        0 <= i < hs.len(),
        block_with_hash(s, hs[i]) is None,
    ensures
        headers_by_hash(s, hs) is Err,
    decreases hs.len(),
{
    if i < hs.len() - 1 {
        assert(hs.drop_last()[i] == hs[i]);
        lemma_missing_hash_fails_headers(s, hs.drop_last(), i);
    }
}

/// Answers sync requests from a read-only chain.
pub struct Processor {
    chain_reader: ChainSnapshot,
}

impl View for Processor {
    type V = Seq<Block>;

    closed spec fn view(&self) -> Seq<Block> {
        self.chain_reader@
    }
}

impl Processor {
    pub fn new(chain_reader: ChainSnapshot) -> (r: Processor)
        ensures
            r@ == chain_reader@,
    {
        Processor { chain_reader }
    }

    /// The current head block; fails when the chain holds none.
    pub fn head_block(&self) -> (r: Result<Block, SyncError>)
        ensures
            match r {
                Ok(b) => head_of(self@) matches Some(h) && b.header == h.header
                    && b.transactions@ == h.transactions@,
                Err(e) => head_of(self@) is None && e == SyncError::HeadUnavailable,
            },
    {
        match self.chain_reader.head_block() {
            Some(b) => Ok(b),
            None => Err(SyncError::HeadUnavailable),
        }
    }

    /// The announcement of the current head: its header under its identifier.
    pub fn send_latest_state_msg(&self) -> (r: Result<LatestStateMsg, SyncError>)
        ensures
            r == latest_state_of(self@),
    {
        let head = self.head_block()?;
        Ok(LatestStateMsg { hash_header: HashWithBlockHeader { hash: head.header.id, header: head.header } })
    }

    /// The identifiers of the blocks at the numbers asked for, tagged with
    /// `req_id`; fails if any number has no block.
    pub fn handle_get_hash_by_number_msg(&self, req_id: HashValue, msg: &GetHashByNumberMsg) -> (r: Result<BatchHashByNumberMsg, SyncError>)
        ensures
            match r {
                Ok(b) => b.id == req_id && hashes_by_number(self@, msg.numbers@) == Ok::<Seq<HashWithNumber>, SyncError>(b.hashs@),
                Err(e) => hashes_by_number(self@, msg.numbers@) == Err::<Seq<HashWithNumber>, SyncError>(e),
            },
    {
        let ns = &msg.numbers;
        let mut hashs: Vec<HashWithNumber> = Vec::new();
        let mut i: usize = 0;
        proof {
            assert(ns@.take(0) =~= Seq::<u64>::empty());
        }
        while i < ns.len()
            invariant
                i <= ns.len(),
                ns@ == msg.numbers@,
                hashes_by_number(self@, ns@.take(i as int)) == Ok::<Seq<HashWithNumber>, SyncError>(hashs@),
            decreases ns.len() - i,
        {
            let n = ns[i];
            proof {
                assert(ns@.take(i + 1).drop_last() =~= ns@.take(i as int));
            }
            match self.chain_reader.header_by_number(n) {
                Some(h) => {
                    hashs.push(HashWithNumber { number: h.number, hash: h.id });
                },
                None => {
                    proof {
                        assert(ns@.take(i + 1).last() == n);
                        assert(hashes_by_number(self@, ns@.take(i + 1))
                            == Err::<Seq<HashWithNumber>, SyncError>(SyncError::BlockNumberNotFound(n)));
                        lemma_number_prefix_error(self@, ns@, i + 1);
                    }
                    return Err(SyncError::BlockNumberNotFound(n));
                },
            }
            i += 1;
        }
        proof {
            assert(ns@.take(ns@.len() as int) =~= ns@);
        }
        Ok(BatchHashByNumberMsg { id: req_id, hashs })
    }

    /// The headers of the blocks asked for; fails if any hash has no block.
    pub fn handle_get_header_by_hash_msg(&self, msg: &GetDataByHashMsg) -> (r: Result<BatchHeaderMsg, SyncError>)
        ensures
            match r {
                Ok(b) => headers_by_hash(self@, msg.hashs@) == Ok::<Seq<HashWithBlockHeader>, SyncError>(b.headers@),
                Err(e) => headers_by_hash(self@, msg.hashs@) == Err::<Seq<HashWithBlockHeader>, SyncError>(e),
            },
    {
        let hs = &msg.hashs;
        let mut headers: Vec<HashWithBlockHeader> = Vec::new();
        let mut i: usize = 0;
        proof {
            assert(hs@.take(0) =~= Seq::<HashValue>::empty());
        }
        while i < hs.len()
            invariant
                i <= hs.len(),
                hs@ == msg.hashs@,
                headers_by_hash(self@, hs@.take(i as int)) == Ok::<Seq<HashWithBlockHeader>, SyncError>(headers@),
            decreases hs.len() - i,
        {
            let h = hs[i];
            proof {
                assert(hs@.take(i + 1).drop_last() =~= hs@.take(i as int));
            }
            match self.chain_reader.header_by_hash(h) {
                Some(header) => {
                    headers.push(HashWithBlockHeader { hash: h, header });
                },
                None => {
                    proof {
                        assert(hs@.take(i + 1).last() == h);
                        assert(headers_by_hash(self@, hs@.take(i + 1))
                            == Err::<Seq<HashWithBlockHeader>, SyncError>(SyncError::BlockHashNotFound(h)));
                        lemma_hash_prefix_error(self@, hs@, i + 1);
                    }
                    return Err(SyncError::BlockHashNotFound(h));
                },
            }
            i += 1;
        }
        proof {
            assert(hs@.take(hs@.len() as int) =~= hs@);
        }
        Ok(BatchHeaderMsg { headers })
    }

    /// The bodies of the blocks asked for, one per hash in order; a hash
    /// without a block gets an empty body.
    pub fn handle_get_body_by_hash_msg(&self, msg: &GetDataByHashMsg) -> (r: BatchBodyMsg)
        ensures
            bodies_answer(self@, msg.hashs@, r.bodies@),
    {
        let hs = &msg.hashs;
        let mut bodies: Vec<BlockBody> = Vec::new();
        let mut i: usize = 0;
        while i < hs.len()
            invariant
                i <= hs.len(),
                hs@ == msg.hashs@,
                bodies@.len() == i,
                forall|j: int| 0 <= j < i ==> (#[trigger] bodies@[j]).hash == hs@[j]
                    && bodies@[j].transactions@ == body_of(self@, hs@[j]),
            decreases hs.len() - i,
        {
            let h = hs[i];
            let transactions = match self.chain_reader.transactions_by_hash(h) {
                Some(t) => t,
                None => Vec::new(),
            };
            bodies.push(BlockBody { hash: h, transactions });
            i += 1;
        }
        BatchBodyMsg { bodies }
    }
}

} // verus!
