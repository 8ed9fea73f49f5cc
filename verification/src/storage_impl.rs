//! The secondary index store, modelled as in-memory tables.
//!
//! The ledger's five logical tables (plus transaction receipts) live here as
//! vectors of typed rows. Each table's well-formedness captures what the
//! relational store enforced with primary keys: record identities are
//! pairwise distinct, and content-derived hashes match their fields.
use vstd::prelude::*;
use crate::cron::Cron;
use crate::cron_tx::CronTx;
use crate::defaults::STATUS_FAILED;
use crate::meta_contract::MetaContract;
use crate::metadatas::Metadata;
use crate::transaction::{Transaction, TransactionReceipt};

verus! {

pub struct Storage {
    pub transactions: Vec<Transaction>,
    pub metadatas: Vec<Metadata>,
    pub meta_contracts: Vec<MetaContract>,
    pub crons: Vec<Cron>,
    pub cron_txs: Vec<CronTx>,
    pub transaction_receipts: Vec<TransactionReceipt>,
}

/// One decoded row of a query result.
#[derive(Debug)]
pub enum Row {
    MetaContract(MetaContract),
    Metadata(Metadata),
    Transaction(Transaction),
    TransactionReceipt(TransactionReceipt),
    Cron(Cron),
    CronTx(CronTx),
}

/// The shape of a raw query result before per-table decoding.
#[derive(Debug)]
pub struct RQLiteResult {
    pub last_insert_id: Option<i64>,
    pub rows_affected: Option<i64>,
    pub error: Option<String>,
    pub rows: Option<Vec<Row>>,
}

/// Does this firing record belong to the given
/// (tx_hash, address, chain, topic) key?
pub open spec fn cron_tx_key_matches(
    t: CronTx,
    tx_hash: Seq<char>,
    address: Seq<char>,
    chain: Seq<char>,
    topic: Seq<char>,
) -> bool {
    t.tx_hash@ == tx_hash && t.address@ == address && t.chain@ == chain && t.topic@ == topic
}

impl Storage {
    /// Transaction hashes are pairwise distinct (the table's primary key).
    pub open spec fn transactions_wf(&self) -> bool {
        forall|i: int, j: int|
            0 <= i < j < self.transactions@.len()
                ==> self.transactions@[i].hash@ != self.transactions@[j].hash@
    }

    /// Every slot's hash is derived from its identifying fields, and no two
    /// slots share the five identifying fields (the slot's key).
    pub open spec fn metadatas_wf(&self) -> bool {
        (forall|i: int| 0 <= i < self.metadatas@.len() ==> (#[trigger] self.metadatas@[i]).wf())
            && (forall|i: int, j: int|
            0 <= i < j < self.metadatas@.len()
                ==> !(self.metadatas@[i].data_key@ == self.metadatas@[j].data_key@
                && self.metadatas@[i].program_id@ == self.metadatas@[j].program_id@
                && self.metadatas@[i].public_key@ == self.metadatas@[j].public_key@
                && self.metadatas@[i].alias@ == self.metadatas@[j].alias@
                && self.metadatas@[i].version@ == self.metadatas@[j].version@))
    }

    /// Program ids are pairwise distinct (the table's primary key).
    pub open spec fn meta_contracts_wf(&self) -> bool {
        forall|i: int, j: int|
            0 <= i < j < self.meta_contracts@.len()
                ==> self.meta_contracts@[i].program_id@ != self.meta_contracts@[j].program_id@
    }

    /// Every cron's hash is derived from its scheduling unit, and no two
    /// crons share a scheduling unit (address, chain, topic).
    pub open spec fn crons_wf(&self) -> bool {
        (forall|i: int| 0 <= i < self.crons@.len() ==> (#[trigger] self.crons@[i]).wf())
            && (forall|i: int, j: int|
            0 <= i < j < self.crons@.len()
                ==> !(self.crons@[i].address@ == self.crons@[j].address@
                && self.crons@[i].chain@ == self.crons@[j].chain@
                && self.crons@[i].topic@ == self.crons@[j].topic@))
    }

    /// At most one non-failed firing exists per
    /// (tx_hash, address, chain, topic); failed firings may pile up.
    pub open spec fn cron_txs_wf(&self) -> bool {
        forall|i: int, j: int|
            0 <= i < j < self.cron_txs@.len() && self.cron_txs@[i].status != STATUS_FAILED
                && self.cron_txs@[j].status != STATUS_FAILED
                ==> !cron_tx_key_matches(
                self.cron_txs@[j],
                self.cron_txs@[i].tx_hash@,
                self.cron_txs@[i].address@,
                self.cron_txs@[i].chain@,
                self.cron_txs@[i].topic@,
            )
    }

    /// Receipt hashes are pairwise distinct (the table's primary key).
    pub open spec fn transaction_receipts_wf(&self) -> bool {
        forall|i: int, j: int|
            0 <= i < j < self.transaction_receipts@.len()
                ==> self.transaction_receipts@[i].hash@
                != self.transaction_receipts@[j].hash@
    }

    pub open spec fn wf(&self) -> bool {
        self.transactions_wf() && self.metadatas_wf() && self.meta_contracts_wf()
            && self.crons_wf() && self.cron_txs_wf() && self.transaction_receipts_wf()
    }
}

/// A fresh store with all tables empty.
pub fn get_storage() -> (s: Storage)
    ensures
        s.wf(),
        s.transactions@ =~= Seq::<Transaction>::empty(),
        s.metadatas@ =~= Seq::<Metadata>::empty(),
        s.meta_contracts@ =~= Seq::<MetaContract>::empty(),
        s.crons@ =~= Seq::<Cron>::empty(),
        s.cron_txs@ =~= Seq::<CronTx>::empty(),
        s.transaction_receipts@ =~= Seq::<TransactionReceipt>::empty(),
{
    Storage {
        transactions: Vec::new(),
        metadatas: Vec::new(),
        meta_contracts: Vec::new(),
        crons: Vec::new(),
        cron_txs: Vec::new(),
        transaction_receipts: Vec::new(),
    }
}

} // verus!
