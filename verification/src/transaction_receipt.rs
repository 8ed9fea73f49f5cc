//! Transaction receipts: one record per executed transaction.
use vstd::prelude::*;
use crate::error::ServiceError;
use crate::storage_impl::{RQLiteResult, Row, Storage};
use crate::transaction::TransactionReceipt;

verus! {

/// The first receipt whose hash matches, scanning forward.
pub open spec fn spec_find_receipt(rs: Seq<TransactionReceipt>, hash: Seq<char>) -> Option<
    TransactionReceipt,
>
    decreases rs.len(),
{
    if rs.len() == 0 {
        None
    } else if rs[0].hash@ == hash {
        Some(rs[0])
    } else {
        spec_find_receipt(rs.drop_first(), hash)
    }
}

/// What the finder's outcome says of the table.
pub proof fn lemma_find_receipt_props(rs: Seq<TransactionReceipt>, hash: Seq<char>)
    ensures
        match spec_find_receipt(rs, hash) {
            Some(t) => exists|i: int|
                0 <= i < rs.len() && (#[trigger] rs[i]) == t && rs[i].hash@ == hash,
            None => forall|i: int| 0 <= i < rs.len() ==> (#[trigger] rs[i]).hash@ != hash,
        },
    decreases rs.len(),
{
    if rs.len() > 0 && rs[0].hash@ != hash {
        lemma_find_receipt_props(rs.drop_first(), hash);
        match spec_find_receipt(rs.drop_first(), hash) {
            Some(t) => {
                let j = choose|j: int|
                    0 <= j < rs.drop_first().len() && (#[trigger] rs.drop_first()[j]) == t
                        && rs.drop_first()[j].hash@ == hash;
                assert(rs[j + 1] == rs.drop_first()[j]);
            },
            None => {
                assert forall|i: int| 0 <= i < rs.len() implies (#[trigger] rs[i]).hash@ != hash by {
                    if i > 0 {
                        assert(rs.drop_first()[i - 1] == rs[i]);
                        assert(rs.drop_first()[i - 1].hash@ != hash);
                    }
                }
            },
        }
    }
}

impl Storage {
    /// The in-memory table always exists; creation is kept for interface
    /// parity and changes nothing.
    pub fn create_transaction_receipt_table(&self) {
    }

    /// Record a receipt. The hash is the table's primary key: a second
    /// write under an existing hash leaves the table as it is.
    pub fn write_transaction_receipt(&mut self, receipt: TransactionReceipt) -> (r: Result<
        String,
        ServiceError,
    >)
        ensures
            r matches Ok(h) && h@ == receipt.hash@,
            spec_find_receipt(old(self).transaction_receipts@, receipt.hash@) is Some
                ==> final(self).transaction_receipts@ == old(self).transaction_receipts@,
            spec_find_receipt(old(self).transaction_receipts@, receipt.hash@) is None
                ==> final(self).transaction_receipts@ =~= old(self).transaction_receipts@.push(receipt),
            old(self).transaction_receipts_wf() ==> final(self).transaction_receipts_wf(),
            final(self).transactions@ == old(self).transactions@,
            final(self).metadatas@ == old(self).metadatas@,
            final(self).meta_contracts@ == old(self).meta_contracts@,
            final(self).crons@ == old(self).crons@,
            final(self).cron_txs@ == old(self).cron_txs@,
    {
        let hash = receipt.hash.clone();
        match self.find_receipt_index(receipt.hash.as_str()) {
            Some(_) => Ok(hash),
            None => {
                proof {
                    lemma_find_receipt_props(self.transaction_receipts@, receipt.hash@);
                }
                self.transaction_receipts.push(receipt);
                Ok(hash)
            },
        }
    }

    /// The index of the first receipt bearing the hash, if any.
    fn find_receipt_index(&self, hash: &str) -> (r: Option<usize>)
        ensures
            r matches Some(i) ==> i < self.transaction_receipts@.len()
                && self.transaction_receipts@[i as int].hash@ == hash@ && spec_find_receipt(
                self.transaction_receipts@,
                hash@,
            ) == Some(self.transaction_receipts@[i as int]),
            r is None ==> spec_find_receipt(self.transaction_receipts@, hash@) is None,
    {
        let n = self.transaction_receipts.len();
        let mut i: usize = 0;
        proof {
            assert(self.transaction_receipts@.skip(0) =~= self.transaction_receipts@);
        }
        while i < n
            invariant
                n == self.transaction_receipts@.len(),
                i <= n,
                spec_find_receipt(self.transaction_receipts@, hash@) == spec_find_receipt(
                    self.transaction_receipts@.skip(i as int),
                    hash@,
                ),
            decreases n - i,
        {
            proof {
                let sub = self.transaction_receipts@.skip(i as int);
                assert(sub[0] == self.transaction_receipts@[i as int]);
                assert(sub.drop_first() =~= self.transaction_receipts@.skip(i + 1));
            }
            if crate::strutil::string_eq_str(&self.transaction_receipts[i].hash, hash) {
                return Some(i);
            }
            i += 1;
        }
        proof {
            assert(self.transaction_receipts@.skip(n as int) =~= Seq::<
                TransactionReceipt,
            >::empty());
        }
        None
    }

    /// Look a receipt up by its hash.
    pub fn get_transaction_receipt(&self, hash: String) -> (r: Result<
        TransactionReceipt,
        ServiceError,
    >)
        ensures
            match spec_find_receipt(self.transaction_receipts@, hash@) {
                Some(t) => r matches Ok(rt) && rt == t,
                None => r matches Err(e) && e matches ServiceError::RecordNotFound(msg) && msg@
                    == "No record found"@,
            },
    {
        match self.find_receipt_index(hash.as_str()) {
            Some(i) => Ok(self.transaction_receipts[i].clone()),
            None => Err(ServiceError::RecordNotFound(String::from_str("No record found"))),
        }
    }
}

/// Is this row a receipt row?
pub open spec fn row_is_receipt(r: Row) -> bool {
    r is TransactionReceipt
}

/// Decode a raw query result into receipt rows; any row of another shape is
/// an internal error.
pub fn read(result: RQLiteResult) -> (r: Result<Vec<TransactionReceipt>, ServiceError>)
    requires
        result.rows is Some,
    ensures
        r matches Ok(v) ==> {
            &&& v@.len() == result.rows->Some_0@.len()
            &&& forall|i: int|
                0 <= i < v@.len() ==> result.rows->Some_0@[i] == Row::TransactionReceipt(v@[i])
        },
        r is Ok <==> (forall|i: int|
            0 <= i < result.rows->Some_0@.len() ==> row_is_receipt(
                #[trigger] result.rows->Some_0@[i],
            )),
        r matches Err(e) ==> e is InternalError,
{
    let rows: &Vec<Row> = result.rows.as_ref().unwrap();
    let mut receipts: Vec<TransactionReceipt> = Vec::new();
    let n = rows.len();
    let mut i: usize = 0;
    while i < n
        invariant
            result.rows is Some,
            rows@ == result.rows->Some_0@,
            n == rows@.len(),
            i <= n,
            receipts@.len() == i,
            forall|j: int| 0 <= j < i ==> rows@[j] == Row::TransactionReceipt(receipts@[j]),
            forall|j: int| 0 <= j < i ==> row_is_receipt(#[trigger] rows@[j]),
        decreases n - i,
    {
        match &rows[i] {
            Row::TransactionReceipt(t) => {
                receipts.push(t.clone());
            },
            _ => {
                proof {
                    assert(!row_is_receipt(result.rows->Some_0@[i as int]));
                }
                return Err(
                    ServiceError::InternalError(
                        String::from_str("Invalid data format: transaction_receipt"),
                    ),
                );
            },
        }
        i += 1;
    }
    Ok(receipts)
}

} // verus!
