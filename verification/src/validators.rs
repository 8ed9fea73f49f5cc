//! Finalization handlers: consume the outcome of the out-of-band
//! computation over a pending transaction, commit the method-specific
//! artifact (content block plus index update), and flip the transaction to
//! its final status.
//!
//! The status flip is not atomic with the content or index write: between
//! the two, a stored block exists with no confirmed transaction. That
//! window is accepted, not hidden.
use vstd::prelude::*;
use crate::block::{cid_valid, cid_index, lemma_chain_push, spec_chain, BlockStore, stores_consistent};
use crate::cron::{spec_find_cron_by_triple, Cron};
use crate::data_types::{parse_clone_payload, parse_cron_payload, spec_parse_clone, spec_parse_cron};
use crate::decimal::{dec_rep, dec_val, lemma_dec_rep_val};
use crate::defaults::{
    CRON_ACTION_CREATE, CRON_ACTION_UPDATE, CRON_ACTION_UPDATE_STATUS, CRON_STATUS_ENABLE,
    STATUS_FAILED, STATUS_SUCCESS,
};
use crate::error::ServiceError;
use crate::meta_contract::MetaContract;
use crate::meta_contract_impl::spec_find_meta_contract;
use crate::metadatas::{FinalMetadata, Metadata};
use crate::metadatas_impl::{
    lemma_find_metadata_by_owner_props, lemma_find_metadata_props, metadata_key_matches,
    spec_find_metadata, spec_find_metadata_by_owner, spec_with_cid,
};
use crate::storage_impl::Storage;
use crate::strutil::string_eq_str;
use crate::transaction::{Transaction, TransactionSubset};
use crate::transactions_impl::{spec_find_transaction, spec_with_status};

verus! {

/// The transactions table after a status flip: the rows bearing the hash
/// carry the new status and error text, every other row is untouched.
pub open spec fn tx_status_flipped(
    pre: Seq<Transaction>,
    post: Seq<Transaction>,
    hash: Seq<char>,
    status: i64,
    error_text: Seq<char>,
) -> bool {
    &&& post.len() == pre.len()
    &&& forall|i: int|
        0 <= i < pre.len() && (#[trigger] pre[i]).hash@ != hash ==> post[i] == pre[i]
    &&& forall|i: int|
        0 <= i < pre.len() && (#[trigger] pre[i]).hash@ == hash ==> post[i] == spec_with_status(
            pre[i],
            status,
            post[i].error_text,
        ) && post[i].error_text@ == error_text
}

/// Flip a transaction's status, described table-pointwise.
fn flip_status(storage: &mut Storage, hash: String, status: i64, error_text: String) -> (r: Result<
    (),
    ServiceError,
>)
    ensures
        tx_status_flipped(
            old(storage).transactions@,
            final(storage).transactions@,
            hash@,
            status,
            error_text@,
        ),
        r is Ok <==> spec_find_transaction(old(storage).transactions@, hash@) is Some,
        old(storage).transactions_wf() ==> final(storage).transactions_wf(),
        final(storage).metadatas@ == old(storage).metadatas@,
        final(storage).meta_contracts@ == old(storage).meta_contracts@,
        final(storage).crons@ == old(storage).crons@,
        final(storage).cron_txs@ == old(storage).cron_txs@,
        final(storage).transaction_receipts@ == old(storage).transaction_receipts@,
{
    let ghost pre = storage.transactions@;
    let r = storage.update_transaction_status(hash, status, error_text);
    proof {
        assert forall|i: int| 0 <= i < pre.len() && (#[trigger] pre[i]).hash@ != hash@ implies
            storage.transactions@[i] == pre[i] by {}
        assert forall|i: int| 0 <= i < pre.len() && (#[trigger] pre[i]).hash@ == hash@ implies
            storage.transactions@[i] == spec_with_status(
                pre[i],
                status,
                storage.transactions@[i].error_text,
            ) && storage.transactions@[i].error_text@ == error_text@ by {}
    }
    r
}

/// Finalize a contract transaction: push its bytecode to the content store
/// and bind the contract row under the content-derived program id, then
/// flip the transaction to success. A missing transaction is surfaced as an
/// error and nothing changes. An already-bound program id keeps its row:
/// contracts are immutable once bound.
pub fn validate_meta_contract(
    storage: &mut Storage,
    blocks: &mut BlockStore,
    transaction_hash: String,
) -> (r: Result<(), ServiceError>)
    requires
        old(storage).wf(),
        old(blocks).wf(),
        stores_consistent(*old(storage), *old(blocks)),
    ensures
        final(storage).wf(),
        final(blocks).wf(),
        stores_consistent(*final(storage), *final(blocks)),
        match spec_find_transaction(old(storage).transactions@, transaction_hash@) {
            None => r matches Err(e) && e is RecordNotFound && *final(storage) == *old(storage)
                && *final(blocks) == *old(blocks),
            Some(t) => r is Ok && {
                &&& final(blocks).blocks@.len() == old(blocks).blocks@.len() + 1
                &&& final(blocks).blocks@ == old(blocks).blocks@.push(
                    final(blocks).blocks@.last(),
                )
                &&& {
                    let b = final(blocks).blocks@.last();
                    &&& b.content == t.data
                    &&& b.previous@ == Seq::<char>::empty()
                    &&& b.timestamp == t.timestamp
                    &&& b.transaction.hash == t.hash
                    &&& b.transaction.meta_contract_id == t.program_id
                    &&& b.transaction.method == t.method
                    &&& b.transaction.value@ == Seq::<char>::empty()
                }
                &&& (spec_find_meta_contract(old(storage).meta_contracts@, t.program_id@) is Some
                    ==> final(storage).meta_contracts@ == old(storage).meta_contracts@)
                &&& (spec_find_meta_contract(old(storage).meta_contracts@, t.program_id@) is None
                    ==> {
                    &&& final(storage).meta_contracts@.len() == old(
                        storage,
                    ).meta_contracts@.len() + 1
                    &&& final(storage).meta_contracts@ == old(storage).meta_contracts@.push(
                        final(storage).meta_contracts@.last(),
                    )
                    &&& {
                        let c = final(storage).meta_contracts@.last();
                        &&& c.program_id == t.program_id
                        &&& c.public_key == t.public_key
                        &&& c.cid@ == dec_rep(old(blocks).blocks@.len() as nat)
                    }
                })
                &&& tx_status_flipped(
                    old(storage).transactions@,
                    final(storage).transactions@,
                    transaction_hash@,
                    STATUS_SUCCESS,
                    Seq::<char>::empty(),
                )
                &&& final(storage).metadatas@ == old(storage).metadatas@
                &&& final(storage).crons@ == old(storage).crons@
                &&& final(storage).cron_txs@ == old(storage).cron_txs@
                &&& final(storage).transaction_receipts@ == old(storage).transaction_receipts@
            },
        },
{
    let found = storage.get_transaction(transaction_hash.clone());
    match found {
        Err(e) => Err(e),
        Ok(transaction) => {
            let subset = TransactionSubset {
                hash: transaction.hash.clone(),
                timestamp: transaction.timestamp,
                meta_contract_id: transaction.program_id.clone(),
                method: transaction.method.clone(),
                value: String::new(),
            };
            let cid = blocks.put_block(
                transaction.data.clone(),
                String::new(),
                subset,
                transaction.timestamp,
            );
            let meta_contract = MetaContract {
                program_id: transaction.program_id.clone(),
                public_key: transaction.public_key.clone(),
                cid,
            };
            let _ = storage.write_meta_contract(meta_contract);
            let _ = flip_status(storage, transaction_hash, STATUS_SUCCESS, String::new());
            proof {
                assert forall|i: int| 0 <= i < storage.metadatas@.len() implies cid_valid(
                    blocks.blocks@,
                    (#[trigger] storage.metadatas@[i]).cid@,
                ) by {}
            }
            Ok(())
        },
    }
}

/// One delivered metadata item committed against the stores: a new content
/// block is written, and the slot named by (the transaction's data key, the
/// item's program id, public key, alias, version) either moves its pointer
/// to it — the block's `previous` then being the slot's pointer from just
/// before — or is created pointing at it, the block then being a chain
/// root.
pub open spec fn commit_item_rel(
    pre_s: Storage,
    pre_b: BlockStore,
    post_s: Storage,
    post_b: BlockStore,
    tx: Transaction,
    meta_contract_id: Seq<char>,
    item: FinalMetadata,
) -> bool {
    let slot = spec_find_metadata(
        pre_s.metadatas@,
        tx.data_key@,
        item.program_id@,
        item.public_key@,
        item.alias@,
        item.version@,
    );
    let newcid = dec_rep(pre_b.blocks@.len() as nat);
    &&& post_b.blocks@.len() == pre_b.blocks@.len() + 1
    &&& post_b.blocks@ == pre_b.blocks@.push(post_b.blocks@.last())
    &&& {
        let b = post_b.blocks@.last();
        &&& b.content == item.content
        &&& b.timestamp == tx.timestamp
        &&& b.transaction.hash == tx.hash
        &&& b.transaction.meta_contract_id@ == meta_contract_id
        &&& b.transaction.method == tx.method
        &&& b.transaction.value@ == Seq::<char>::empty()
        &&& match slot {
            Some(m) => b.previous == m.cid,
            None => b.previous@.len() == 0,
        }
    }
    &&& match slot {
        Some(m) => {
            &&& post_s.metadatas@.len() == pre_s.metadatas@.len()
            &&& forall|i: int|
                0 <= i < pre_s.metadatas@.len() && !metadata_key_matches(
                    #[trigger] pre_s.metadatas@[i],
                    tx.data_key@,
                    item.program_id@,
                    item.public_key@,
                    item.alias@,
                    item.version@,
                ) ==> post_s.metadatas@[i] == pre_s.metadatas@[i]
            &&& forall|i: int|
                0 <= i < pre_s.metadatas@.len() && metadata_key_matches(
                    #[trigger] pre_s.metadatas@[i],
                    tx.data_key@,
                    item.program_id@,
                    item.public_key@,
                    item.alias@,
                    item.version@,
                ) ==> post_s.metadatas@[i] == spec_with_cid(
                    pre_s.metadatas@[i],
                    post_s.metadatas@[i].cid,
                ) && post_s.metadatas@[i].cid@ == newcid
        },
        None => {
            &&& post_s.metadatas@.len() == pre_s.metadatas@.len() + 1
            &&& post_s.metadatas@ == pre_s.metadatas@.push(post_s.metadatas@.last())
            &&& {
                let m = post_s.metadatas@.last();
                &&& m.data_key == tx.data_key
                &&& m.program_id == item.program_id
                &&& m.alias == item.alias
                &&& m.public_key == item.public_key
                &&& m.version == item.version
                &&& m.cid@ == newcid
                &&& m.loose == false
            }
        },
    }
    &&& post_s.transactions@ == pre_s.transactions@
    &&& post_s.meta_contracts@ == pre_s.meta_contracts@
    &&& post_s.crons@ == pre_s.crons@
    &&& post_s.cron_txs@ == pre_s.cron_txs@
    &&& post_s.transaction_receipts@ == pre_s.transaction_receipts@
}

/// Law: committing a metadata item grows the slot's version chain by
/// exactly one block. A fresh slot's chain has length one (its block is a
/// chain root); an updated slot's new head links to the head from just
/// before, so the chain's length counts the slot's successful updates.
pub proof fn lemma_commit_item_chain_growth(
    pre_s: Storage,
    pre_b: BlockStore,
    post_s: Storage,
    post_b: BlockStore,
    tx: Transaction,
    meta_contract_id: Seq<char>,
    item: FinalMetadata,
)
    requires
        pre_b.wf(),
        stores_consistent(pre_s, pre_b),
        commit_item_rel(pre_s, pre_b, post_s, post_b, tx, meta_contract_id, item),
    ensures
        ({
            let slot = spec_find_metadata(
                pre_s.metadatas@,
                tx.data_key@,
                item.program_id@,
                item.public_key@,
                item.alias@,
                item.version@,
            );
            let newcid = dec_rep(pre_b.blocks@.len() as nat);
            match slot {
                Some(m) => spec_chain(post_b.blocks@, newcid).len() == spec_chain(
                    pre_b.blocks@,
                    m.cid@,
                ).len() + 1,
                None => spec_chain(post_b.blocks@, newcid).len() == 1,
            }
        }),
{
    let slot = spec_find_metadata(
        pre_s.metadatas@,
        tx.data_key@,
        item.program_id@,
        item.public_key@,
        item.alias@,
        item.version@,
    );
    let n = pre_b.blocks@.len();
    let newcid = dec_rep(n as nat);
    lemma_dec_rep_val(n as nat);
    let b = post_b.blocks@.last();
    assert(cid_valid(post_b.blocks@, newcid));
    assert(post_b.blocks@[cid_index(newcid)] == b);
    match slot {
        Some(m) => {
            lemma_find_metadata_props(
                pre_s.metadatas@,
                tx.data_key@,
                item.program_id@,
                item.public_key@,
                item.alias@,
                item.version@,
            );
            assert(cid_valid(pre_b.blocks@, m.cid@));
            assert(b.previous@ == m.cid@);
            assert(dec_val(m.cid@) < n);
            assert(spec_chain(post_b.blocks@, newcid) =~= seq![b] + spec_chain(
                post_b.blocks@,
                m.cid@,
            ));
            lemma_chain_push(pre_b.blocks@, b, m.cid@);
        },
        None => {
            assert(b.previous@.len() == 0);
            assert(spec_chain(post_b.blocks@, newcid) =~= seq![b]);
        },
    }
}

/// Law: after a commit, looking the slot up yields a pointer that resolves
/// to the freshly written block, which carries the delivered content; a
/// fresh slot's block has an empty `previous` (a chain root), an updated
/// slot's block links to the pointer the slot held just before.
pub proof fn lemma_commit_head_resolves(
    pre_s: Storage,
    pre_b: BlockStore,
    post_s: Storage,
    post_b: BlockStore,
    tx: Transaction,
    meta_contract_id: Seq<char>,
    item: FinalMetadata,
)
    requires
        pre_s.metadatas_wf(),
        commit_item_rel(pre_s, pre_b, post_s, post_b, tx, meta_contract_id, item),
    ensures
        ({
            let slot = spec_find_metadata(
                pre_s.metadatas@,
                tx.data_key@,
                item.program_id@,
                item.public_key@,
                item.alias@,
                item.version@,
            );
            let newcid = dec_rep(pre_b.blocks@.len() as nat);
            match spec_find_metadata(
                post_s.metadatas@,
                tx.data_key@,
                item.program_id@,
                item.public_key@,
                item.alias@,
                item.version@,
            ) {
                Some(m2) => m2.cid@ == newcid && match post_b.spec_get(newcid) {
                    Some(b) => b.content == item.content && (match slot {
                        Some(m) => b.previous == m.cid,
                        None => b.previous@.len() == 0,
                    }),
                    None => false,
                },
                None => false,
            }
        }),
{
    let dk = tx.data_key@;
    let pid = item.program_id@;
    let pk = item.public_key@;
    let al = item.alias@;
    let ver = item.version@;
    let slot = spec_find_metadata(pre_s.metadatas@, dk, pid, pk, al, ver);
    let n = pre_b.blocks@.len();
    let newcid = dec_rep(n as nat);
    lemma_dec_rep_val(n as nat);
    assert(cid_valid(post_b.blocks@, newcid));
    assert(post_b.spec_get(newcid) == Some(post_b.blocks@.last()));
    match slot {
        Some(m) => {
            lemma_find_metadata_props(pre_s.metadatas@, dk, pid, pk, al, ver);
            let w = choose|w: int|
                0 <= w < pre_s.metadatas@.len() && (#[trigger] pre_s.metadatas@[w]) == m
                    && metadata_key_matches(pre_s.metadatas@[w], dk, pid, pk, al, ver);
            assert(metadata_key_matches(post_s.metadatas@[w], dk, pid, pk, al, ver));
            lemma_find_metadata_props(post_s.metadatas@, dk, pid, pk, al, ver);
            match spec_find_metadata(post_s.metadatas@, dk, pid, pk, al, ver) {
                Some(m2) => {
                    let w2 = choose|w2: int|
                        0 <= w2 < post_s.metadatas@.len() && (#[trigger] post_s.metadatas@[w2])
                            == m2 && metadata_key_matches(post_s.metadatas@[w2], dk, pid, pk, al, ver);
                    // Any row of the new table matching the key is an
                    // updated old row: an untouched row matching the key
                    // would have matched before, and slots are unique.
                    assert(metadata_key_matches(pre_s.metadatas@[w2], dk, pid, pk, al, ver)) by {
                        if !metadata_key_matches(pre_s.metadatas@[w2], dk, pid, pk, al, ver) {
                            assert(post_s.metadatas@[w2] == pre_s.metadatas@[w2]);
                        }
                    }
                    assert(m2.cid@ == newcid);
                },
                None => {
                    assert(false);
                },
            }
        },
        None => {
            lemma_find_metadata_props(pre_s.metadatas@, dk, pid, pk, al, ver);
            let last = post_s.metadatas@.last();
            assert(metadata_key_matches(last, dk, pid, pk, al, ver));
            crate::metadatas_impl::lemma_find_metadata_push(
                pre_s.metadatas@,
                last,
                dk,
                pid,
                pk,
                al,
                ver,
            );
            assert(spec_find_metadata(post_s.metadatas@, dk, pid, pk, al, ver) == Some(last));
        },
    }
}

/// The delivered items committed one after the other, each against the
/// stores the one before left behind.
pub open spec fn commit_items_rel(
    pre_s: Storage,
    pre_b: BlockStore,
    post_s: Storage,
    post_b: BlockStore,
    tx: Transaction,
    meta_contract_id: Seq<char>,
    items: Seq<FinalMetadata>,
) -> bool
    decreases items.len(),
{
    if items.len() == 0 {
        post_s == pre_s && post_b == pre_b
    } else {
        exists|mid_s: Storage, mid_b: BlockStore|
            #[trigger] commit_item_rel(pre_s, pre_b, mid_s, mid_b, tx, meta_contract_id, items[0])
                && commit_items_rel(
                mid_s,
                mid_b,
                post_s,
                post_b,
                tx,
                meta_contract_id,
                items.drop_first(),
            )
    }
}

/// Committing one more item extends the relation at its tail.
pub proof fn lemma_commit_items_snoc(
    pre_s: Storage,
    pre_b: BlockStore,
    mid_s: Storage,
    mid_b: BlockStore,
    post_s: Storage,
    post_b: BlockStore,
    tx: Transaction,
    meta_contract_id: Seq<char>,
    items: Seq<FinalMetadata>,
    item: FinalMetadata,
)
    requires
        commit_items_rel(pre_s, pre_b, mid_s, mid_b, tx, meta_contract_id, items),
        commit_item_rel(mid_s, mid_b, post_s, post_b, tx, meta_contract_id, item),
    ensures
        commit_items_rel(pre_s, pre_b, post_s, post_b, tx, meta_contract_id, items.push(item)),
    decreases items.len(),
{
    if items.len() == 0 {
        assert(mid_s == pre_s && mid_b == pre_b);
        assert(items.push(item)[0] == item);
        assert(items.push(item).drop_first() =~= Seq::<FinalMetadata>::empty());
        assert(commit_items_rel(
            post_s,
            post_b,
            post_s,
            post_b,
            tx,
            meta_contract_id,
            Seq::<FinalMetadata>::empty(),
        ));
        assert(commit_item_rel(pre_s, pre_b, post_s, post_b, tx, meta_contract_id, items.push(item)[0]));
    } else {
        let (m_s, m_b) = choose|m_s: Storage, m_b: BlockStore|
            #[trigger] commit_item_rel(pre_s, pre_b, m_s, m_b, tx, meta_contract_id, items[0])
                && commit_items_rel(
                m_s,
                m_b,
                mid_s,
                mid_b,
                tx,
                meta_contract_id,
                items.drop_first(),
            );
        lemma_commit_items_snoc(
            m_s,
            m_b,
            mid_s,
            mid_b,
            post_s,
            post_b,
            tx,
            meta_contract_id,
            items.drop_first(),
            item,
        );
        assert(items.push(item).drop_first() =~= items.drop_first().push(item));
        assert(items.push(item)[0] == items[0]);
        assert(commit_item_rel(pre_s, pre_b, m_s, m_b, tx, meta_contract_id, items.push(item)[0]));
    }
}

/// Commit one delivered item: write the content block and move or create
/// the slot.
fn commit_final_metadata(
    storage: &mut Storage,
    blocks: &mut BlockStore,
    tx: &Transaction,
    meta_contract_id: &str,
    item: FinalMetadata,
)
    requires
        old(storage).wf(),
        old(blocks).wf(),
        stores_consistent(*old(storage), *old(blocks)),
    ensures
        final(storage).wf(),
        final(blocks).wf(),
        stores_consistent(*final(storage), *final(blocks)),
        commit_item_rel(
            *old(storage),
            *old(blocks),
            *final(storage),
            *final(blocks),
            *tx,
            meta_contract_id@,
            item,
        ),
{
    let found = storage.get_owner_metadata(
        tx.data_key.clone(),
        item.program_id.clone(),
        item.public_key.clone(),
        item.alias.clone(),
        item.version.clone(),
    );
    let subset = TransactionSubset {
        hash: tx.hash.clone(),
        timestamp: tx.timestamp,
        meta_contract_id: meta_contract_id.to_owned(),
        method: tx.method.clone(),
        value: String::new(),
    };
    match found {
        Ok(metadata) => {
            proof {
                lemma_find_metadata_props(
                    storage.metadatas@,
                    tx.data_key@,
                    item.program_id@,
                    item.public_key@,
                    item.alias@,
                    item.version@,
                );
            }
            let cid = blocks.put_block(
                item.content.clone(),
                metadata.cid,
                subset,
                tx.timestamp,
            );
            let _ = storage.update_cid(
                tx.data_key.clone(),
                item.program_id,
                item.alias,
                item.public_key,
                cid,
                item.version,
            );
            proof {
                assert forall|i: int| 0 <= i < storage.metadatas@.len() implies cid_valid(
                    blocks.blocks@,
                    (#[trigger] storage.metadatas@[i]).cid@,
                ) by {}
            }
        },
        Err(_) => {
            let cid = blocks.put_block(item.content.clone(), String::new(), subset, tx.timestamp);
            let metadata = Metadata::new(
                tx.data_key.clone(),
                item.program_id,
                item.alias,
                cid,
                item.public_key,
                item.version,
                false,
            );
            let _ = storage.write_metadata(metadata);
            proof {
                assert forall|i: int| 0 <= i < storage.metadatas@.len() implies cid_valid(
                    blocks.blocks@,
                    (#[trigger] storage.metadatas@[i]).cid@,
                ) by {}
            }
        },
    }
}

/// Finalize a metadata transaction. When the off-ledger computation
/// reported failure, the transaction flips to failed with the supplied (or
/// a default) message; otherwise each delivered item is committed in order
/// and the transaction flips to success. A missing transaction is surfaced
/// as an error and nothing changes.
pub fn validate_metadata(
    storage: &mut Storage,
    blocks: &mut BlockStore,
    transaction_hash: String,
    meta_contract_id: String,
    on_metacontract_result: bool,
    metadatas: Vec<FinalMetadata>,
    final_error_msg: String,
) -> (r: Result<(), ServiceError>)
    requires
        old(storage).wf(),
        old(blocks).wf(),
        stores_consistent(*old(storage), *old(blocks)),
    ensures
        final(storage).wf(),
        final(blocks).wf(),
        stores_consistent(*final(storage), *final(blocks)),
        match spec_find_transaction(old(storage).transactions@, transaction_hash@) {
            None => r matches Err(e) && e is RecordNotFound && *final(storage) == *old(storage)
                && *final(blocks) == *old(blocks),
            Some(t) => r is Ok && (if !on_metacontract_result {
                &&& *final(blocks) == *old(blocks)
                &&& final(storage).metadatas@ == old(storage).metadatas@
                &&& final(storage).meta_contracts@ == old(storage).meta_contracts@
                &&& final(storage).crons@ == old(storage).crons@
                &&& final(storage).cron_txs@ == old(storage).cron_txs@
                &&& final(storage).transaction_receipts@ == old(storage).transaction_receipts@
                &&& tx_status_flipped(
                    old(storage).transactions@,
                    final(storage).transactions@,
                    transaction_hash@,
                    STATUS_FAILED,
                    if final_error_msg@.len() == 0 {
                        "Metadata not updateable"@
                    } else {
                        final_error_msg@
                    },
                )
            } else {
                exists|mid: Storage|
                    {
                        &&& #[trigger] commit_items_rel(
                            *old(storage),
                            *old(blocks),
                            mid,
                            *final(blocks),
                            t,
                            meta_contract_id@,
                            metadatas@,
                        )
                        &&& final(storage).metadatas@ == mid.metadatas@
                        &&& final(storage).meta_contracts@ == mid.meta_contracts@
                        &&& final(storage).crons@ == mid.crons@
                        &&& final(storage).cron_txs@ == mid.cron_txs@
                        &&& final(storage).transaction_receipts@ == mid.transaction_receipts@
                        &&& tx_status_flipped(
                            mid.transactions@,
                            final(storage).transactions@,
                            transaction_hash@,
                            STATUS_SUCCESS,
                            Seq::<char>::empty(),
                        )
                    }
            }),
        },
{
    let found = storage.get_transaction(transaction_hash.clone());
    match found {
        Err(e) => Err(e),
        Ok(transaction) => {
            if !on_metacontract_result {
                let msg = if final_error_msg.as_str().is_empty() {
                    String::from_str("Metadata not updateable")
                } else {
                    final_error_msg
                };
                let _ = flip_status(storage, transaction_hash, STATUS_FAILED, msg);
                Ok(())
            } else {
                let ghost pre_s = *storage;
                let ghost pre_b = *blocks;
                let ghost all = metadatas@;
                let ghost spec_tx = transaction;
                let mut items = metadatas;
                proof {
                    assert(all.take(0) =~= Seq::<FinalMetadata>::empty());
                    assert(items@ =~= all.skip(0));
                }
                while items.len() > 0
                    invariant
                        storage.wf(),
                        blocks.wf(),
                        stores_consistent(*storage, *blocks),
                        transaction == spec_tx,
                        items@.len() <= all.len(),
                        items@ =~= all.skip(all.len() - items@.len()),
                        spec_find_transaction(storage.transactions@, spec_tx.hash@)
                            == spec_find_transaction(pre_s.transactions@, spec_tx.hash@),
                        storage.transactions@ == pre_s.transactions@,
                        commit_items_rel(
                            pre_s,
                            pre_b,
                            *storage,
                            *blocks,
                            spec_tx,
                            meta_contract_id@,
                            all.take(all.len() - items@.len()),
                        ),
                    decreases items@.len(),
                {
                    let ghost k = all.len() - items@.len();
                    let ghost mid_s = *storage;
                    let ghost mid_b = *blocks;
                    let item = items.remove(0);
                    proof {
                        assert(item == all[k]);
                    }
                    commit_final_metadata(
                        storage,
                        blocks,
                        &transaction,
                        meta_contract_id.as_str(),
                        item,
                    );
                    proof {
                        lemma_commit_items_snoc(
                            pre_s,
                            pre_b,
                            mid_s,
                            mid_b,
                            *storage,
                            *blocks,
                            spec_tx,
                            meta_contract_id@,
                            all.take(k),
                            all[k],
                        );
                        assert(all.take(k + 1) =~= all.take(k).push(all[k]));
                        assert(items@ =~= all.skip(k + 1));
                    }
                }
                proof {
                    assert(all.take(all.len() as int) =~= all);
                }
                let _ = flip_status(storage, transaction_hash, STATUS_SUCCESS, String::new());
                Ok(())
            }
        },
    }
}

/// One scheduled-delivery item committed: where no slot yet bears the
/// (data key, public key, alias) triple, a root block is written and a new
/// slot points at it; an existing slot is left alone.
pub open spec fn cron_item_rel(
    pre_s: Storage,
    pre_b: BlockStore,
    post_s: Storage,
    post_b: BlockStore,
    data_key: Seq<char>,
    item: FinalMetadata,
) -> bool {
    match spec_find_metadata_by_owner(pre_s.metadatas@, data_key, item.public_key@, item.alias@) {
        Some(_) => post_s == pre_s && post_b == pre_b,
        None => {
            let newcid = dec_rep(pre_b.blocks@.len() as nat);
            &&& post_b.blocks@.len() == pre_b.blocks@.len() + 1
            &&& post_b.blocks@ == pre_b.blocks@.push(post_b.blocks@.last())
            &&& {
                let b = post_b.blocks@.last();
                &&& b.content == item.content
                &&& b.previous@.len() == 0
                &&& b.timestamp == 0
                &&& b.transaction.hash@ == Seq::<char>::empty()
                &&& b.transaction.meta_contract_id@ == Seq::<char>::empty()
                &&& b.transaction.method@ == Seq::<char>::empty()
                &&& b.transaction.value@ == Seq::<char>::empty()
            }
            &&& post_s.metadatas@.len() == pre_s.metadatas@.len() + 1
            &&& post_s.metadatas@ == pre_s.metadatas@.push(post_s.metadatas@.last())
            &&& {
                let m = post_s.metadatas@.last();
                &&& m.data_key@ == data_key
                &&& m.program_id == item.program_id
                &&& m.alias == item.alias
                &&& m.public_key == item.public_key
                &&& m.version == item.version
                &&& m.cid@ == newcid
                &&& m.loose == false
            }
            &&& post_s.transactions@ == pre_s.transactions@
            &&& post_s.meta_contracts@ == pre_s.meta_contracts@
            &&& post_s.crons@ == pre_s.crons@
            &&& post_s.cron_txs@ == pre_s.cron_txs@
            &&& post_s.transaction_receipts@ == pre_s.transaction_receipts@
        },
    }
}

/// The scheduled-delivery items committed one after the other.
pub open spec fn cron_items_rel(
    pre_s: Storage,
    pre_b: BlockStore,
    post_s: Storage,
    post_b: BlockStore,
    data_key: Seq<char>,
    items: Seq<FinalMetadata>,
) -> bool
    decreases items.len(),
{
    if items.len() == 0 {
        post_s == pre_s && post_b == pre_b
    } else {
        exists|mid_s: Storage, mid_b: BlockStore|
            #[trigger] cron_item_rel(pre_s, pre_b, mid_s, mid_b, data_key, items[0])
                && cron_items_rel(mid_s, mid_b, post_s, post_b, data_key, items.drop_first())
    }
}

/// Committing one more scheduled item extends the relation at its tail.
pub proof fn lemma_cron_items_snoc(
    pre_s: Storage,
    pre_b: BlockStore,
    mid_s: Storage,
    mid_b: BlockStore,
    post_s: Storage,
    post_b: BlockStore,
    data_key: Seq<char>,
    items: Seq<FinalMetadata>,
    item: FinalMetadata,
)
    requires
        cron_items_rel(pre_s, pre_b, mid_s, mid_b, data_key, items),
        cron_item_rel(mid_s, mid_b, post_s, post_b, data_key, item),
    ensures
        cron_items_rel(pre_s, pre_b, post_s, post_b, data_key, items.push(item)),
    decreases items.len(),
{
    if items.len() == 0 {
        assert(mid_s == pre_s && mid_b == pre_b);
        assert(items.push(item)[0] == item);
        assert(items.push(item).drop_first() =~= Seq::<FinalMetadata>::empty());
        assert(cron_items_rel(
            post_s,
            post_b,
            post_s,
            post_b,
            data_key,
            Seq::<FinalMetadata>::empty(),
        ));
        assert(cron_item_rel(pre_s, pre_b, post_s, post_b, data_key, items.push(item)[0]));
    } else {
        let (m_s, m_b) = choose|m_s: Storage, m_b: BlockStore|
            #[trigger] cron_item_rel(pre_s, pre_b, m_s, m_b, data_key, items[0])
                && cron_items_rel(m_s, m_b, mid_s, mid_b, data_key, items.drop_first());
        lemma_cron_items_snoc(
            m_s,
            m_b,
            mid_s,
            mid_b,
            post_s,
            post_b,
            data_key,
            items.drop_first(),
            item,
        );
        assert(items.push(item).drop_first() =~= items.drop_first().push(item));
        assert(items.push(item)[0] == items[0]);
        assert(cron_item_rel(pre_s, pre_b, m_s, m_b, data_key, items.push(item)[0]));
    }
}

/// Commit one scheduled-delivery item.
fn commit_cron_metadata(storage: &mut Storage, blocks: &mut BlockStore, data_key: &str, item: FinalMetadata)
    requires
        old(storage).wf(),
        old(blocks).wf(),
        stores_consistent(*old(storage), *old(blocks)),
    ensures
        final(storage).wf(),
        final(blocks).wf(),
        stores_consistent(*final(storage), *final(blocks)),
        cron_item_rel(
            *old(storage),
            *old(blocks),
            *final(storage),
            *final(blocks),
            data_key@,
            item,
        ),
{
    let found = storage.get_owner_metadata_by_datakey_and_alias(
        data_key.to_owned(),
        item.public_key.clone(),
        item.alias.clone(),
    );
    match found {
        Ok(_) => {},
        Err(_) => {
            proof {
                lemma_find_metadata_by_owner_props(
                    storage.metadatas@,
                    data_key@,
                    item.public_key@,
                    item.alias@,
                );
                // No slot bears even the owner triple, so none bears the
                // full five-field key either.
                lemma_find_metadata_props(
                    storage.metadatas@,
                    data_key@,
                    item.program_id@,
                    item.public_key@,
                    item.alias@,
                    item.version@,
                );
                assert(spec_find_metadata(
                    storage.metadatas@,
                    data_key@,
                    item.program_id@,
                    item.public_key@,
                    item.alias@,
                    item.version@,
                ) is None);
            }
            let subset = TransactionSubset {
                hash: String::new(),
                timestamp: 0,
                meta_contract_id: String::new(),
                method: String::new(),
                value: String::new(),
            };
            let cid = blocks.put_block(item.content.clone(), String::new(), subset, 0);
            let metadata = Metadata::new(
                data_key.to_owned(),
                item.program_id,
                item.alias,
                cid,
                item.public_key,
                item.version,
                false,
            );
            let _ = storage.write_metadata(metadata);
            proof {
                assert forall|i: int| 0 <= i < storage.metadatas@.len() implies cid_valid(
                    blocks.blocks@,
                    (#[trigger] storage.metadatas@[i]).cid@,
                ) by {}
            }
        },
    }
}

/// Finalize a scheduled metadata delivery: each delivered item whose slot
/// does not yet exist gets a fresh root block and slot; existing slots are
/// left alone. No transaction is involved.
pub fn validate_metadata_cron(
    storage: &mut Storage,
    blocks: &mut BlockStore,
    data_key: String,
    on_metacontract_result: bool,
    metadatas: Vec<FinalMetadata>,
)
    requires
        old(storage).wf(),
        old(blocks).wf(),
        stores_consistent(*old(storage), *old(blocks)),
    ensures
        final(storage).wf(),
        final(blocks).wf(),
        stores_consistent(*final(storage), *final(blocks)),
        !on_metacontract_result ==> *final(storage) == *old(storage) && *final(blocks) == *old(
            blocks,
        ),
        on_metacontract_result ==> cron_items_rel(
            *old(storage),
            *old(blocks),
            *final(storage),
            *final(blocks),
            data_key@,
            metadatas@,
        ),
{
    if on_metacontract_result {
        let ghost pre_s = *storage;
        let ghost pre_b = *blocks;
        let ghost all = metadatas@;
        let mut items = metadatas;
        proof {
            assert(all.take(0) =~= Seq::<FinalMetadata>::empty());
            assert(items@ =~= all.skip(0));
        }
        while items.len() > 0
            invariant
                storage.wf(),
                blocks.wf(),
                stores_consistent(*storage, *blocks),
                items@.len() <= all.len(),
                items@ =~= all.skip(all.len() - items@.len()),
                cron_items_rel(
                    pre_s,
                    pre_b,
                    *storage,
                    *blocks,
                    data_key@,
                    all.take(all.len() - items@.len()),
                ),
            decreases items@.len(),
        {
            let ghost k = all.len() - items@.len();
            let ghost mid_s = *storage;
            let ghost mid_b = *blocks;
            let item = items.remove(0);
            proof {
                assert(item == all[k]);
            }
            commit_cron_metadata(storage, blocks, data_key.as_str(), item);
            proof {
                lemma_cron_items_snoc(
                    pre_s,
                    pre_b,
                    mid_s,
                    mid_b,
                    *storage,
                    *blocks,
                    data_key@,
                    all.take(k),
                    all[k],
                );
                assert(all.take(k + 1) =~= all.take(k).push(all[k]));
                assert(items@ =~= all.skip(k + 1));
            }
        }
        proof {
            assert(all.take(all.len() as int) =~= all);
        }
    }
}

/// Finalize a clone transaction: fetch the origin slot's head block,
/// re-wrap its content as a fresh chain root for the destination slot, and
/// flip the transaction to success; a reported failure, an unreadable
/// payload or a missing origin flips it to failed. A missing transaction is
/// surfaced as an error and nothing changes.
pub fn validate_clone(
    storage: &mut Storage,
    blocks: &mut BlockStore,
    transaction_hash: String,
    meta_contract_id: String,
    on_metacontract_result: bool,
    data: String,
    final_error_msg: String,
) -> (r: Result<(), ServiceError>)
    requires
        old(storage).wf(),
        old(blocks).wf(),
        stores_consistent(*old(storage), *old(blocks)),
    ensures
        final(storage).wf(),
        final(blocks).wf(),
        stores_consistent(*final(storage), *final(blocks)),
        final(storage).meta_contracts@ == old(storage).meta_contracts@,
        final(storage).crons@ == old(storage).crons@,
        final(storage).cron_txs@ == old(storage).cron_txs@,
        final(storage).transaction_receipts@ == old(storage).transaction_receipts@,
        match spec_find_transaction(old(storage).transactions@, transaction_hash@) {
            None => r matches Err(e) && e is RecordNotFound && *final(storage) == *old(storage)
                && *final(blocks) == *old(blocks),
            Some(t) => r is Ok && (if !on_metacontract_result {
                &&& *final(blocks) == *old(blocks)
                &&& final(storage).metadatas@ == old(storage).metadatas@
                &&& tx_status_flipped(
                    old(storage).transactions@,
                    final(storage).transactions@,
                    transaction_hash@,
                    STATUS_FAILED,
                    if final_error_msg@.len() == 0 {
                        "Metadata not forkable"@
                    } else {
                        final_error_msg@
                    },
                )
            } else {
                match spec_parse_clone(data@) {
                    None => {
                        &&& *final(blocks) == *old(blocks)
                        &&& final(storage).metadatas@ == old(storage).metadatas@
                        &&& tx_status_flipped(
                            old(storage).transactions@,
                            final(storage).transactions@,
                            transaction_hash@,
                            STATUS_FAILED,
                            "invalid data format for method type: "@ + t.method@,
                        )
                    },
                    Some(f) => match spec_find_metadata_by_owner(
                        old(storage).metadatas@,
                        f.origin_data_key,
                        f.origin_public_key,
                        f.origin_alias,
                    ) {
                        None => {
                            &&& *final(blocks) == *old(blocks)
                            &&& final(storage).metadatas@ == old(storage).metadatas@
                            &&& tx_status_flipped(
                                old(storage).transactions@,
                                final(storage).transactions@,
                                transaction_hash@,
                                STATUS_FAILED,
                                "record not found: "@ + "No record found"@,
                            )
                        },
                        Some(origin) => {
                            let src = old(blocks).spec_get(origin.cid@);
                            let newcid = dec_rep(old(blocks).blocks@.len() as nat);
                            &&& src is Some
                            &&& final(blocks).blocks@.len() == old(blocks).blocks@.len() + 1
                            &&& final(blocks).blocks@ == old(blocks).blocks@.push(
                                final(blocks).blocks@.last(),
                            )
                            &&& {
                                let b = final(blocks).blocks@.last();
                                &&& b.content == src->Some_0.content
                                &&& b.previous@.len() == 0
                                &&& b.timestamp == t.timestamp
                                &&& b.transaction.hash == t.hash
                                &&& b.transaction.meta_contract_id == meta_contract_id
                                &&& b.transaction.method == t.method
                                &&& b.transaction.value@ == data@
                            }
                            &&& (spec_find_metadata(
                                old(storage).metadatas@,
                                t.data_key@,
                                origin.program_id@,
                                origin.public_key@,
                                origin.alias@,
                                origin.version@,
                            ) is Some ==> final(storage).metadatas@ == old(storage).metadatas@)
                            &&& (spec_find_metadata(
                                old(storage).metadatas@,
                                t.data_key@,
                                origin.program_id@,
                                origin.public_key@,
                                origin.alias@,
                                origin.version@,
                            ) is None ==> {
                                &&& final(storage).metadatas@.len() == old(
                                    storage,
                                ).metadatas@.len() + 1
                                &&& final(storage).metadatas@ == old(storage).metadatas@.push(
                                    final(storage).metadatas@.last(),
                                )
                                &&& {
                                    let m = final(storage).metadatas@.last();
                                    &&& m.data_key == t.data_key
                                    &&& m.program_id == origin.program_id
                                    &&& m.alias == origin.alias
                                    &&& m.public_key == origin.public_key
                                    &&& m.version == origin.version
                                    &&& m.cid@ == newcid
                                    &&& m.loose == false
                                }
                            })
                            &&& tx_status_flipped(
                                old(storage).transactions@,
                                final(storage).transactions@,
                                transaction_hash@,
                                STATUS_SUCCESS,
                                Seq::<char>::empty(),
                            )
                        },
                    },
                }
            }),
        },
{
    let found = storage.get_transaction(transaction_hash.clone());
    match found {
        Err(e) => Err(e),
        Ok(transaction) => {
            if !on_metacontract_result {
                let msg = if final_error_msg.as_str().is_empty() {
                    String::from_str("Metadata not forkable")
                } else {
                    final_error_msg
                };
                let _ = flip_status(storage, transaction_hash, STATUS_FAILED, msg);
                return Ok(());
            }
            match parse_clone_payload(data.as_str()) {
                None => {
                    let e = ServiceError::InvalidDataFormatForMethodType(
                        transaction.method.clone(),
                    );
                    let _ = flip_status(storage, transaction_hash, STATUS_FAILED, e.text());
                    Ok(())
                },
                Some(data_clone) => {
                    let origin = storage.get_owner_metadata_by_datakey_and_alias(
                        data_clone.origin_data_key.clone(),
                        data_clone.origin_public_key.clone(),
                        data_clone.origin_alias.clone(),
                    );
                    match origin {
                        Err(e) => {
                            let _ = flip_status(
                                storage,
                                transaction_hash,
                                STATUS_FAILED,
                                e.text(),
                            );
                            Ok(())
                        },
                        Ok(origin_metadata) => {
                            proof {
                                lemma_find_metadata_by_owner_props(
                                    storage.metadatas@,
                                    data_clone.origin_data_key@,
                                    data_clone.origin_public_key@,
                                    data_clone.origin_alias@,
                                );
                            }
                            let src_block = blocks.get_block(origin_metadata.cid.as_str()).unwrap();
                            let subset = TransactionSubset {
                                hash: transaction.hash.clone(),
                                timestamp: transaction.timestamp,
                                meta_contract_id,
                                method: transaction.method.clone(),
                                value: data,
                            };
                            let cid = blocks.put_block(
                                src_block.content,
                                String::new(),
                                subset,
                                transaction.timestamp,
                            );
                            let metadata = Metadata::new(
                                transaction.data_key.clone(),
                                origin_metadata.program_id,
                                origin_metadata.alias,
                                cid,
                                origin_metadata.public_key,
                                origin_metadata.version,
                                false,
                            );
                            let _ = storage.write_metadata(metadata);
                            let _ = flip_status(
                                storage,
                                transaction_hash,
                                STATUS_SUCCESS,
                                String::new(),
                            );
                            proof {
                                assert forall|i: int|
                                    0 <= i < storage.metadatas@.len() implies cid_valid(
                                    blocks.blocks@,
                                    (#[trigger] storage.metadatas@[i]).cid@,
                                ) by {}
                            }
                            Ok(())
                        },
                    }
                },
            }
        },
    }
}

/// Finalize a cron transaction: apply a create, update or status-toggle
/// action to the cron table, enforcing ownership of the scheduling unit
/// before a mutation, then flip the transaction. A missing transaction is
/// surfaced as an error and nothing changes.
pub fn validate_cron(storage: &mut Storage, transaction_hash: String, data: String) -> (r: Result<
    (),
    ServiceError,
>)
    requires
        old(storage).wf(),
    ensures
        final(storage).wf(),
        final(storage).metadatas@ == old(storage).metadatas@,
        final(storage).meta_contracts@ == old(storage).meta_contracts@,
        final(storage).cron_txs@ == old(storage).cron_txs@,
        final(storage).transaction_receipts@ == old(storage).transaction_receipts@,
        match spec_find_transaction(old(storage).transactions@, transaction_hash@) {
            None => r matches Err(e) && e is RecordNotFound && *final(storage) == *old(storage),
            Some(t) => r is Ok && match spec_parse_cron(data@) {
                None => final(storage).crons@ == old(storage).crons@ && tx_status_flipped(
                    old(storage).transactions@,
                    final(storage).transactions@,
                    transaction_hash@,
                    STATUS_FAILED,
                    "invalid data format for method type: "@ + t.method@,
                ),
                Some(f) => match spec_find_cron_by_triple(
                    old(storage).crons@,
                    f.address,
                    f.chain,
                    f.topic,
                ) {
                    Some(row) => {
                        if t.public_key@ != row.public_key@ {
                            final(storage).crons@ == old(storage).crons@ && tx_status_flipped(
                                old(storage).transactions@,
                                final(storage).transactions@,
                                transaction_hash@,
                                STATUS_FAILED,
                                "invalid owner: "@ + t.public_key@,
                            )
                        } else if f.hash.len() == 0 {
                            final(storage).crons@ == old(storage).crons@ && tx_status_flipped(
                                old(storage).transactions@,
                                final(storage).transactions@,
                                transaction_hash@,
                                STATUS_FAILED,
                                "invalid cron hash: "@ + f.hash,
                            )
                        } else if f.action == CRON_ACTION_UPDATE@ {
                            &&& final(storage).crons@.len() == old(storage).crons@.len()
                            &&& forall|i: int|
                                0 <= i < old(storage).crons@.len() && (#[trigger] old(
                                    storage,
                                ).crons@[i]).hash@ != f.hash ==> final(storage).crons@[i] == old(
                                    storage,
                                ).crons@[i]
                            &&& forall|i: int|
                                0 <= i < old(storage).crons@.len() && (#[trigger] old(
                                    storage,
                                ).crons@[i]).hash@ == f.hash ==> {
                                    let c0 = old(storage).crons@[i];
                                    let c1 = final(storage).crons@[i];
                                    &&& c1.hash == c0.hash
                                    &&& c1.address == c0.address
                                    &&& c1.chain == c0.chain
                                    &&& c1.topic == c0.topic
                                    &&& c1.public_key == c0.public_key
                                    &&& c1.epoch == c0.epoch
                                    &&& c1.token_type@ == f.token_type
                                    &&& c1.token_key@ == f.token_key
                                    &&& c1.meta_contract_id@ == f.meta_contract_id
                                    &&& c1.node_url@ == f.node_url
                                    &&& c1.status == f.status
                                }
                            &&& tx_status_flipped(
                                old(storage).transactions@,
                                final(storage).transactions@,
                                transaction_hash@,
                                STATUS_SUCCESS,
                                Seq::<char>::empty(),
                            )
                        } else if f.action == CRON_ACTION_UPDATE_STATUS@ {
                            &&& final(storage).crons@.len() == old(storage).crons@.len()
                            &&& forall|i: int|
                                0 <= i < old(storage).crons@.len() && (#[trigger] old(
                                    storage,
                                ).crons@[i]).hash@ != f.hash ==> final(storage).crons@[i] == old(
                                    storage,
                                ).crons@[i]
                            &&& forall|i: int|
                                0 <= i < old(storage).crons@.len() && (#[trigger] old(
                                    storage,
                                ).crons@[i]).hash@ == f.hash ==> final(storage).crons@[i]
                                    == crate::cron::spec_cron_with_status(
                                    old(storage).crons@[i],
                                    f.status as i64,
                                )
                            &&& tx_status_flipped(
                                old(storage).transactions@,
                                final(storage).transactions@,
                                transaction_hash@,
                                STATUS_SUCCESS,
                                Seq::<char>::empty(),
                            )
                        } else {
                            final(storage).crons@ == old(storage).crons@ && tx_status_flipped(
                                old(storage).transactions@,
                                final(storage).transactions@,
                                transaction_hash@,
                                STATUS_FAILED,
                                "invalid cron action"@,
                            )
                        }
                    },
                    None => {
                        if f.action == CRON_ACTION_CREATE@ {
                            &&& final(storage).crons@.len() == old(storage).crons@.len() + 1
                            &&& final(storage).crons@ == old(storage).crons@.push(
                                final(storage).crons@.last(),
                            )
                            &&& {
                                let c = final(storage).crons@.last();
                                &&& c.address@ == f.address
                                &&& c.chain@ == f.chain
                                &&& c.topic@ == f.topic
                                &&& c.token_type@ == f.token_type
                                &&& c.token_key@ == f.token_key
                                &&& c.meta_contract_id@ == f.meta_contract_id
                                &&& c.node_url@ == f.node_url
                                &&& c.public_key == t.public_key
                                &&& c.status == CRON_STATUS_ENABLE
                                &&& c.epoch == 0
                                &&& c.wf()
                            }
                            &&& tx_status_flipped(
                                old(storage).transactions@,
                                final(storage).transactions@,
                                transaction_hash@,
                                STATUS_SUCCESS,
                                Seq::<char>::empty(),
                            )
                        } else {
                            final(storage).crons@ == old(storage).crons@ && tx_status_flipped(
                                old(storage).transactions@,
                                final(storage).transactions@,
                                transaction_hash@,
                                STATUS_FAILED,
                                "invalid cron action"@,
                            )
                        }
                    },
                },
            },
        },
{
    let found = storage.get_transaction(transaction_hash.clone());
    match found {
        Err(e) => Err(e),
        Ok(transaction) => {
            match parse_cron_payload(data.as_str()) {
                None => {
                    let e = ServiceError::InvalidDataFormatForMethodType(
                        transaction.method.clone(),
                    );
                    let _ = flip_status(storage, transaction_hash, STATUS_FAILED, e.text());
                    Ok(())
                },
                Some(serde_cron) => {
                    let existing = storage.search_cron(
                        serde_cron.address.clone(),
                        serde_cron.chain.clone(),
                        serde_cron.topic.clone(),
                    );
                    let cron = Cron::new(
                        serde_cron.token_key,
                        serde_cron.address,
                        serde_cron.topic,
                        serde_cron.token_type,
                        serde_cron.chain,
                        serde_cron.status,
                        serde_cron.meta_contract_id,
                        serde_cron.node_url,
                        transaction.public_key.clone(),
                    );
                    match existing {
                        Ok(row) => {
                            if !string_eq_str(&transaction.public_key, row.public_key.as_str()) {
                                let e = ServiceError::InvalidOwner(transaction.public_key.clone());
                                let _ = flip_status(
                                    storage,
                                    transaction_hash,
                                    STATUS_FAILED,
                                    e.text(),
                                );
                            } else if serde_cron.hash.as_str().is_empty() {
                                let mut msg = String::from_str("invalid cron hash: ");
                                msg.append(serde_cron.hash.as_str());
                                let _ = flip_status(
                                    storage,
                                    transaction_hash,
                                    STATUS_FAILED,
                                    msg,
                                );
                            } else if string_eq_str(&serde_cron.action, CRON_ACTION_UPDATE) {
                                let _ = storage.update_cron(serde_cron.hash, cron);
                                let _ = flip_status(
                                    storage,
                                    transaction_hash,
                                    STATUS_SUCCESS,
                                    String::new(),
                                );
                            } else if string_eq_str(&serde_cron.action, CRON_ACTION_UPDATE_STATUS) {
                                let _ = storage.update_cron_status(
                                    serde_cron.hash,
                                    serde_cron.status,
                                );
                                let _ = flip_status(
                                    storage,
                                    transaction_hash,
                                    STATUS_SUCCESS,
                                    String::new(),
                                );
                            } else {
                                let _ = flip_status(
                                    storage,
                                    transaction_hash,
                                    STATUS_FAILED,
                                    String::from_str("invalid cron action"),
                                );
                            }
                            Ok(())
                        },
                        Err(_) => {
                            if string_eq_str(&serde_cron.action, CRON_ACTION_CREATE) {
                                let _ = storage.write_cron(cron);
                                let _ = flip_status(
                                    storage,
                                    transaction_hash,
                                    STATUS_SUCCESS,
                                    String::new(),
                                );
                            } else {
                                let _ = flip_status(
                                    storage,
                                    transaction_hash,
                                    STATUS_FAILED,
                                    String::from_str("invalid cron action"),
                                );
                            }
                            Ok(())
                        },
                    }
                },
            }
        },
    }
}

} // verus!
