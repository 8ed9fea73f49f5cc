//! The content-addressable block store, modelled in memory.
//!
//! Every write produces a new, immutable block whose `previous` field points
//! at the slot's prior block, forming a singly-linked version chain that
//! ends at an empty `previous`. A content identifier (cid) handed out by
//! this store is the decimal numeral of the block's position, so resolving
//! one is exact, and chains provably terminate: a block can only link to an
//! earlier block.
use vstd::prelude::*;
use crate::decimal::{all_digits, dec_rep, dec_val, lemma_dec_rep_val, parse_dec, spec_parse_dec, u64_to_dec};
use crate::storage_impl::Storage;
use crate::transaction::TransactionSubset;

verus! {

/// One immutable content block.
#[derive(Debug)]
pub struct Block {
    pub timestamp: u64,
    pub content: String,
    /// The cid of the prior block of the chain, or empty at a chain root.
    pub previous: String,
    /// The transaction context recorded with the write.
    pub transaction: TransactionSubset,
}

impl Clone for Block {
    fn clone(&self) -> (r: Self)
        ensures
            r == *self,
    {
        Block {
            timestamp: self.timestamp,
            content: self.content.clone(),
            previous: self.previous.clone(),
            transaction: self.transaction.clone(),
        }
    }
}

/// Is `cid` an identifier this store has handed out: a decimal numeral
/// denoting a position under the store's length?
pub open spec fn cid_valid(blocks: Seq<Block>, cid: Seq<char>) -> bool {
    cid.len() > 0 && all_digits(cid) && dec_val(cid) < blocks.len()
}

/// The position a cid denotes.
pub open spec fn cid_index(cid: Seq<char>) -> int {
    dec_val(cid) as int
}

pub struct BlockStore {
    pub blocks: Vec<Block>,
}

/// The chain of blocks reached from `cid` by following `previous` links,
/// most recent first. Empty when `cid` does not resolve; a link that does
/// not point strictly backward ends the chain (the store's well-formedness
/// rules such links out).
pub open spec fn spec_chain(blocks: Seq<Block>, cid: Seq<char>) -> Seq<Block>
    decreases (if cid_valid(blocks, cid) {
        dec_val(cid) + 1
    } else {
        0
    }),
{
    if cid_valid(blocks, cid) {
        let b = blocks[cid_index(cid)];
        if b.previous@.len() == 0 {
            seq![b]
        } else if cid_valid(blocks, b.previous@) && dec_val(b.previous@) < dec_val(cid) {
            seq![b] + spec_chain(blocks, b.previous@)
        } else {
            seq![b]
        }
    } else {
        Seq::<Block>::empty()
    }
}

impl BlockStore {
    /// Every block's `previous` link is either empty or the cid of an
    /// earlier block: chains always run back to a root.
    pub open spec fn wf(&self) -> bool {
        forall|i: int|
            0 <= i < self.blocks@.len() ==> {
                let p = (#[trigger] self.blocks@[i]).previous@;
                p.len() == 0 || (p.len() > 0 && all_digits(p) && dec_val(p) < i)
            }
    }

    /// What a cid resolves to.
    pub open spec fn spec_get(&self, cid: Seq<char>) -> Option<Block> {
        if cid_valid(self.blocks@, cid) {
            Some(self.blocks@[cid_index(cid)])
        } else {
            None
        }
    }

    /// A fresh, empty store.
    pub fn new() -> (s: Self)
        ensures
            s.wf(),
            s.blocks@ =~= Seq::<Block>::empty(),
    {
        BlockStore { blocks: Vec::new() }
    }

    /// Store a new block whose `previous` links to an existing block (or is
    /// empty, opening a fresh chain); hand its cid back. Every cid handed
    /// out before still resolves to the block it did.
    pub fn put_block(
        &mut self,
        content: String,
        previous: String,
        transaction: TransactionSubset,
        timestamp: u64,
    ) -> (r: String)
        requires
            old(self).wf(),
            previous@.len() == 0 || cid_valid(old(self).blocks@, previous@),
        ensures
            final(self).wf(),
            r@ == dec_rep(old(self).blocks@.len() as nat),
            final(self).blocks@ =~= old(self).blocks@.push(
                Block { timestamp, content, previous, transaction },
            ),
            cid_valid(final(self).blocks@, r@),
            final(self).spec_get(r@) == Some(Block { timestamp, content, previous, transaction }),
            forall|c: Seq<char>|
                cid_valid(old(self).blocks@, c) ==> final(self).spec_get(c) == old(self).spec_get(
                    c,
                ),
    {
        let idx: u64 = self.blocks.len() as u64;
        let cid = u64_to_dec(idx);
        proof {
            lemma_dec_rep_val(idx as nat);
        }
        let block = Block { timestamp, content, previous, transaction };
        self.blocks.push(block);
        cid
    }

    /// Resolve a cid to its block.
    pub fn get_block(&self, cid: &str) -> (r: Option<Block>)
        ensures
            r == self.spec_get(cid@),
    {
        let n = self.blocks.len();
        match parse_dec(cid) {
            Some(idx) => {
                proof {
                    assert(spec_parse_dec(cid@) == Some(idx));
                    assert(cid@.len() > 0 && all_digits(cid@) && dec_val(cid@) == idx as nat);
                }
                if idx < n as u64 {
                    proof {
                        assert(cid_valid(self.blocks@, cid@));
                        assert(cid_index(cid@) == idx as int);
                    }
                    Some(self.blocks[idx as usize].clone())
                } else {
                    proof {
                        assert(!cid_valid(self.blocks@, cid@));
                    }
                    None
                }
            },
            None => {
                proof {
                    if cid@.len() > 0 && all_digits(cid@) {
                        assert(dec_val(cid@) > u64::MAX);
                        assert(self.blocks@.len() <= usize::MAX);
                        assert(!cid_valid(self.blocks@, cid@));
                    }
                }
                None
            },
        }
    }

    /// Walk the version chain from `cid` back to its root, most recent
    /// block first. The store's well-formedness makes the walk terminate:
    /// each link points strictly backward.
    pub fn get_chain(&self, cid: &str) -> (r: Vec<Block>)
        requires
            self.wf(),
            cid_valid(self.blocks@, cid@),
        ensures
            r@ =~= spec_chain(self.blocks@, cid@),
    {
        let mut out: Vec<Block> = Vec::new();
        let mut cur: String = cid.to_owned();
        let mut active = true;
        while active
            invariant
                self.wf(),
                active ==> cid_valid(self.blocks@, cur@),
                active ==> out@ + spec_chain(self.blocks@, cur@) =~= spec_chain(
                    self.blocks@,
                    cid@,
                ),
                !active ==> out@ =~= spec_chain(self.blocks@, cid@),
            decreases (if active {
                dec_val(cur@) + 1
            } else {
                0
            }),
        {
            let b = self.get_block(cur.as_str()).unwrap();
            let prev = b.previous.clone();
            proof {
                let idx = cid_index(cur@);
                assert(b == self.blocks@[idx]);
                assert(self.blocks@[idx].previous@.len() == 0 || (all_digits(
                    self.blocks@[idx].previous@,
                ) && dec_val(self.blocks@[idx].previous@) < idx));
                if b.previous@.len() == 0 {
                    assert(spec_chain(self.blocks@, cur@) =~= seq![b]);
                } else {
                    assert(cid_valid(self.blocks@, b.previous@));
                    assert(dec_val(b.previous@) < dec_val(cur@));
                    assert(spec_chain(self.blocks@, cur@) =~= seq![b] + spec_chain(
                        self.blocks@,
                        b.previous@,
                    ));
                }
            }
            let ghost out0 = out@;
            let ghost cur0 = cur@;
            let ghost bb = b;
            out.push(b);
            proof {
                assert(out@ =~= out0 + seq![bb]);
            }
            if prev.as_str().is_empty() {
                active = false;
                proof {
                    assert(spec_chain(self.blocks@, cur0) =~= seq![bb]);
                    assert(out@ =~= spec_chain(self.blocks@, cid@));
                }
            } else {
                cur = prev;
                proof {
                    assert((out0 + seq![bb]) + spec_chain(self.blocks@, cur@) =~= out0 + (
                    seq![bb] + spec_chain(self.blocks@, cur@)));
                    assert(out@ + spec_chain(self.blocks@, cur@) =~= spec_chain(
                        self.blocks@,
                        cid@,
                    ));
                }
            }
        }
        out
    }
}

/// Appending a block never changes what the chains reached from existing
/// cids look like.
pub proof fn lemma_chain_push(blocks: Seq<Block>, b: Block, cid: Seq<char>)
    requires
        cid_valid(blocks, cid),
    ensures
        spec_chain(blocks.push(b), cid) =~= spec_chain(blocks, cid),
    decreases dec_val(cid),
{
    let old_b = blocks[cid_index(cid)];
    assert(blocks.push(b)[cid_index(cid)] == old_b);
    if old_b.previous@.len() > 0 && cid_valid(blocks, old_b.previous@) && dec_val(old_b.previous@)
        < dec_val(cid) {
        lemma_chain_push(blocks, b, old_b.previous@);
    }
}

/// The index store and the content store are consistent when every slot's
/// pointer resolves in the content store.
pub open spec fn stores_consistent(s: Storage, b: BlockStore) -> bool {
    forall|i: int|
        0 <= i < s.metadatas@.len() ==> cid_valid(
            b.blocks@,
            (#[trigger] s.metadatas@[i]).cid@,
        )
}

} // verus!
