//! The transactions table: durable admission records and their status flips.
use vstd::prelude::*;
use crate::defaults::{STATUS_PENDING, STATUS_SUCCESS};
use crate::error::ServiceError;
use crate::storage_impl::{RQLiteResult, Row, Storage};
use crate::transaction::Transaction;

verus! {

/// The first transaction whose hash matches, scanning forward.
pub open spec fn spec_find_transaction(txs: Seq<Transaction>, hash: Seq<char>) -> Option<
    Transaction,
>
    decreases txs.len(),
{
    if txs.len() == 0 {
        None
    } else if txs[0].hash@ == hash {
        Some(txs[0])
    } else {
        spec_find_transaction(txs.drop_first(), hash)
    }
}

/// What the finder's outcome says of the table: a found transaction is in
/// the table and bears the hash; an empty outcome means no row bears it.
pub proof fn lemma_find_transaction_props(txs: Seq<Transaction>, hash: Seq<char>)
    ensures
        match spec_find_transaction(txs, hash) {
            Some(t) => exists|i: int|
                0 <= i < txs.len() && (#[trigger] txs[i]) == t && txs[i].hash@ == hash,
            None => forall|i: int| 0 <= i < txs.len() ==> (#[trigger] txs[i]).hash@ != hash,
        },
    decreases txs.len(),
{
    if txs.len() > 0 && txs[0].hash@ != hash {
        lemma_find_transaction_props(txs.drop_first(), hash);
        match spec_find_transaction(txs.drop_first(), hash) {
            Some(t) => {
                let j = choose|j: int|
                    0 <= j < txs.drop_first().len() && (#[trigger] txs.drop_first()[j]) == t
                        && txs.drop_first()[j].hash@ == hash;
                assert(txs[j + 1] == txs.drop_first()[j]);
            },
            None => {
                assert forall|i: int| 0 <= i < txs.len() implies (#[trigger] txs[i]).hash@
                    != hash by {
                    if i > 0 {
                        assert(txs.drop_first()[i - 1] == txs[i]);
                        assert(txs.drop_first()[i - 1].hash@ != hash);
                    }
                }
            },
        }
    }
}

/// The finder comes back empty exactly when no row bears the hash.
pub proof fn lemma_find_transaction_none(txs: Seq<Transaction>, hash: Seq<char>)
    ensures
        (spec_find_transaction(txs, hash) is None) <==> (forall|i: int|
            0 <= i < txs.len() ==> (#[trigger] txs[i]).hash@ != hash),
{
    lemma_find_transaction_props(txs, hash);
}

/// Appending a row with a fresh hash leaves every other lookup unchanged and
/// makes the new row findable.
pub proof fn lemma_find_transaction_push(txs: Seq<Transaction>, t: Transaction, hash: Seq<char>)
    ensures
        spec_find_transaction(txs, hash) is Some ==> spec_find_transaction(txs.push(t), hash)
            == spec_find_transaction(txs, hash),
        spec_find_transaction(txs, hash) is None && t.hash@ == hash
            ==> spec_find_transaction(txs.push(t), hash) == Some(t),
        spec_find_transaction(txs, hash) is None && t.hash@ != hash
            ==> spec_find_transaction(txs.push(t), hash) is None,
    decreases txs.len(),
{
    if txs.len() == 0 {
        assert(txs.push(t)[0] == t);
        assert(txs.push(t).drop_first() =~= Seq::<Transaction>::empty());
        assert(spec_find_transaction(Seq::<Transaction>::empty(), hash) is None);
    } else {
        lemma_find_transaction_push(txs.drop_first(), t, hash);
        assert(txs.push(t)[0] == txs[0]);
        assert(txs.push(t).drop_first() =~= txs.drop_first().push(t));
        assert(spec_find_transaction(txs.push(t), hash) == (if txs[0].hash@ == hash {
            Some(txs[0])
        } else {
            spec_find_transaction(txs.drop_first().push(t), hash)
        }));
        assert(spec_find_transaction(txs, hash) == (if txs[0].hash@ == hash {
            Some(txs[0])
        } else {
            spec_find_transaction(txs.drop_first(), hash)
        }));
    }
}

impl Storage {
    /// The in-memory table always exists; creation is kept for interface
    /// parity and changes nothing.
    pub fn create_transactions_table(&self) {
    }

    /// Record an admitted transaction. The hash is the table's primary key:
    /// a second write under an existing hash leaves the table as it is, as
    /// the relational store's rejected insert did.
    pub fn write_transaction(&mut self, transaction: Transaction) -> (r: Result<
        String,
        ServiceError,
    >)
        ensures
            r matches Ok(h) && h@ == transaction.hash@,
            spec_find_transaction(old(self).transactions@, transaction.hash@) is Some
                ==> final(self).transactions@ == old(self).transactions@,
            spec_find_transaction(old(self).transactions@, transaction.hash@) is None
                ==> final(self).transactions@ =~= old(self).transactions@.push(transaction),
            old(self).transactions_wf() ==> final(self).transactions_wf(),
            final(self).metadatas@ == old(self).metadatas@,
            final(self).meta_contracts@ == old(self).meta_contracts@,
            final(self).crons@ == old(self).crons@,
            final(self).cron_txs@ == old(self).cron_txs@,
            final(self).transaction_receipts@ == old(self).transaction_receipts@,
    {
        let found = self.find_transaction_index(transaction.hash.as_str());
        let hash = transaction.hash.clone();
        match found {
            Some(_) => Ok(hash),
            None => {
                proof {
                    lemma_find_transaction_none(self.transactions@, transaction.hash@);
                }
                self.transactions.push(transaction);
                Ok(hash)
            },
        }
    }

    /// The index of the first transaction bearing the hash, if any.
    fn find_transaction_index(&self, hash: &str) -> (r: Option<usize>)
        ensures
            r matches Some(i) ==> i < self.transactions@.len()
                && self.transactions@[i as int].hash@ == hash@ && spec_find_transaction(
                self.transactions@,
                hash@,
            ) == Some(self.transactions@[i as int]),
            r is None ==> spec_find_transaction(self.transactions@, hash@) is None,
    {
        let n = self.transactions.len();
        let mut i: usize = 0;
        proof {
            assert(self.transactions@.skip(0) =~= self.transactions@);
        }
        while i < n
            invariant
                n == self.transactions@.len(),
                i <= n,
                spec_find_transaction(self.transactions@, hash@) == spec_find_transaction(
                    self.transactions@.skip(i as int),
                    hash@,
                ),
            decreases n - i,
        {
            proof {
                let sub = self.transactions@.skip(i as int);
                assert(sub[0] == self.transactions@[i as int]);
                assert(sub.drop_first() =~= self.transactions@.skip(i + 1));
            }
            if crate::strutil::string_eq_str(&self.transactions[i].hash, hash) {
                return Some(i);
            }
            i += 1;
        }
        proof {
            assert(self.transactions@.skip(n as int) =~= Seq::<Transaction>::empty());
        }
        None
    }

    /// Look a transaction up by its hash.
    pub fn get_transaction(&self, hash: String) -> (r: Result<Transaction, ServiceError>)
        ensures
            match spec_find_transaction(self.transactions@, hash@) {
                Some(t) => r matches Ok(rt) && rt == t,
                None => r matches Err(e) && e matches ServiceError::RecordNotFound(m)
                    && m@ == "No record found"@,
            },
    {
        match self.find_transaction_index(hash.as_str()) {
            Some(i) => Ok(self.transactions[i].clone()),
            None => Err(ServiceError::RecordNotFound(String::from_str("No record found"))),
        }
    }

    /// Flip a transaction's status and error text in place; the one later
    /// mutation a record sees after admission.
    pub fn update_transaction_status(
        &mut self,
        hash: String,
        status: i64,
        error_text: String,
    ) -> (r: Result<(), ServiceError>)
        ensures
            final(self).transactions@ =~= spec_update_transaction_status(
                old(self).transactions@,
                hash@,
                status,
                error_text,
            ),
            r is Ok <==> spec_find_transaction(old(self).transactions@, hash@) is Some,
            r matches Err(e) ==> e matches ServiceError::RecordNotFound(m) && m@
                == "No record found"@,
            old(self).transactions_wf() ==> final(self).transactions_wf(),
            final(self).metadatas@ == old(self).metadatas@,
            final(self).meta_contracts@ == old(self).meta_contracts@,
            final(self).crons@ == old(self).crons@,
            final(self).cron_txs@ == old(self).cron_txs@,
            final(self).transaction_receipts@ == old(self).transaction_receipts@,
    {
        let ghost snap = *self;
        let ghost txs0 = self.transactions@;
        let n = self.transactions.len();
        let mut i: usize = 0;
        let mut updated = false;
        while i < n
            invariant
                n == self.transactions@.len(),
                i <= n,
                self.transactions@.len() == txs0.len(),
                self.metadatas@ == snap.metadatas@,
                self.meta_contracts@ == snap.meta_contracts@,
                self.crons@ == snap.crons@,
                self.cron_txs@ == snap.cron_txs@,
                self.transaction_receipts@ == snap.transaction_receipts@,
                forall|j: int| i <= j < n ==> self.transactions@[j] == txs0[j],
                forall|j: int|
                    0 <= j < i ==> self.transactions@[j] == (if txs0[j].hash@ == hash@ {
                        spec_with_status(txs0[j], status, error_text)
                    } else {
                        txs0[j]
                    }),
                updated <==> exists|j: int| 0 <= j < i && (#[trigger] txs0[j]).hash@ == hash@,
            decreases n - i,
        {
            if crate::strutil::string_eq_str(&self.transactions[i].hash, hash.as_str()) {
                self.transactions[i].status = status;
                self.transactions[i].error_text = error_text.clone();
                proof {
                    assert(self.transactions@[i as int] == spec_with_status(
                        txs0[i as int],
                        status,
                        error_text,
                    ));
                }
                updated = true;
            }
            i += 1;
        }
        proof {
            lemma_find_transaction_none(txs0, hash@);
        }
        if updated {
            Ok(())
        } else {
            Err(ServiceError::RecordNotFound(String::from_str("No record found")))
        }
    }

    /// Admitted transactions still waiting for finalization.
    pub fn get_pending_transactions(&self) -> (r: Result<Vec<Transaction>, ServiceError>)
        ensures
            r matches Ok(v) && v@ =~= self.transactions@.filter(
                |t: Transaction| t.status == STATUS_PENDING,
            ),
    {
        let mut out: Vec<Transaction> = Vec::new();
        let n = self.transactions.len();
        let mut i: usize = 0;
        while i < n
            invariant
                n == self.transactions@.len(),
                i <= n,
                out@ =~= self.transactions@.take(i as int).filter(
                    |t: Transaction| t.status == STATUS_PENDING,
                ),
            decreases n - i,
        {
            proof {
                broadcast use Seq::lemma_filter_push;

                assert(self.transactions@.take(i + 1) =~= self.transactions@.take(i as int).push(
                    self.transactions@[i as int],
                ));
            }
            if self.transactions[i].status == STATUS_PENDING {
                out.push(self.transactions[i].clone());
            }
            i += 1;
        }
        proof {
            assert(self.transactions@.take(n as int) =~= self.transactions@);
        }
        Ok(out)
    }

    /// Finalized transactions whose timestamps fall inside [from, to].
    pub fn get_success_transactions(&self, from: i64, to: i64) -> (r: Result<
        Vec<Transaction>,
        ServiceError,
    >)
        ensures
            r matches Ok(v) && v@ =~= self.transactions@.filter(
                |t: Transaction| t.status == STATUS_SUCCESS && from <= t.timestamp && t.timestamp
                    <= to,
            ),
    {
        let mut out: Vec<Transaction> = Vec::new();
        let n = self.transactions.len();
        let mut i: usize = 0;
        while i < n
            invariant
                n == self.transactions@.len(),
                i <= n,
                out@ =~= self.transactions@.take(i as int).filter(
                    |t: Transaction| t.status == STATUS_SUCCESS && from <= t.timestamp
                        && t.timestamp <= to,
                ),
            decreases n - i,
        {
            proof {
                broadcast use Seq::lemma_filter_push;

                assert(self.transactions@.take(i + 1) =~= self.transactions@.take(i as int).push(
                    self.transactions@[i as int],
                ));
            }
            let t = &self.transactions[i];
            if t.status == STATUS_SUCCESS && from as i128 <= t.timestamp as i128 && t.timestamp
                as i128 <= to as i128 {
                out.push(self.transactions[i].clone());
            }
            i += 1;
        }
        proof {
            assert(self.transactions@.take(n as int) =~= self.transactions@);
        }
        Ok(out)
    }
}

/// A row with its status and error text replaced.
pub open spec fn spec_with_status(t: Transaction, status: i64, error_text: String) -> Transaction {
    Transaction { status, error_text, ..t }
}

/// The table after a status flip: the matching row updated, the rest as they
/// were.
pub open spec fn spec_update_transaction_status(
    txs: Seq<Transaction>,
    hash: Seq<char>,
    status: i64,
    error_text: String,
) -> Seq<Transaction> {
    txs.map(
        |i: int, t: Transaction|
            if t.hash@ == hash {
                spec_with_status(t, status, error_text)
            } else {
                t
            },
    )
}

/// Is this row a transaction row?
pub open spec fn row_is_transaction(r: Row) -> bool {
    r is Transaction
}

/// Decode a raw query result into transaction rows; any row of another
/// shape is an internal error.
pub fn read(result: RQLiteResult) -> (r: Result<Vec<Transaction>, ServiceError>)
    requires
        result.rows is Some,
    ensures
        r matches Ok(v) ==> {
            &&& v@.len() == result.rows->Some_0@.len()
            &&& forall|i: int|
                0 <= i < v@.len() ==> result.rows->Some_0@[i] == Row::Transaction(v@[i])
        },
        r is Ok <==> (forall|i: int|
            0 <= i < result.rows->Some_0@.len() ==> row_is_transaction(
                #[trigger] result.rows->Some_0@[i],
            )),
        r matches Err(e) ==> e is InternalError,
{
    let rows: &Vec<Row> = result.rows.as_ref().unwrap();
    let mut txs: Vec<Transaction> = Vec::new();
    let n = rows.len();
    let mut i: usize = 0;
    while i < n
        invariant
            result.rows is Some,
            rows@ == result.rows->Some_0@,
            n == rows@.len(),
            i <= n,
            txs@.len() == i,
            forall|j: int| 0 <= j < i ==> rows@[j] == Row::Transaction(txs@[j]),
            forall|j: int| 0 <= j < i ==> row_is_transaction(#[trigger] rows@[j]),
        decreases n - i,
    {
        match &rows[i] {
            Row::Transaction(t) => {
                txs.push(t.clone());
            },
            _ => {
                proof {
                    assert(result.rows->Some_0@ == rows@);
                    assert(!row_is_transaction(result.rows->Some_0@[i as int]));
                }
                return Err(
                    ServiceError::InternalError(
                        String::from_str("Invalid data format: transactions"),
                    ),
                );
            },
        }
        i += 1;
    }
    Ok(txs)
}

} // verus!
