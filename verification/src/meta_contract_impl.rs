//! The meta contracts table: one immutable row per program id.
use vstd::prelude::*;
use crate::error::ServiceError;
use crate::meta_contract::MetaContract;
use crate::storage_impl::{RQLiteResult, Row, Storage};

verus! {

/// The first contract whose program id matches, scanning forward.
pub open spec fn spec_find_meta_contract(mcs: Seq<MetaContract>, program_id: Seq<char>) -> Option<
    MetaContract,
>
    decreases mcs.len(),
{
    if mcs.len() == 0 {
        None
    } else if mcs[0].program_id@ == program_id {
        Some(mcs[0])
    } else {
        spec_find_meta_contract(mcs.drop_first(), program_id)
    }
}

/// What the finder's outcome says of the table.
pub proof fn lemma_find_meta_contract_props(mcs: Seq<MetaContract>, program_id: Seq<char>)
    ensures
        match spec_find_meta_contract(mcs, program_id) {
            Some(c) => exists|i: int|
                0 <= i < mcs.len() && (#[trigger] mcs[i]) == c && mcs[i].program_id@ == program_id,
            None => forall|i: int|
                0 <= i < mcs.len() ==> (#[trigger] mcs[i]).program_id@ != program_id,
        },
    decreases mcs.len(),
{
    if mcs.len() > 0 && mcs[0].program_id@ != program_id {
        lemma_find_meta_contract_props(mcs.drop_first(), program_id);
        match spec_find_meta_contract(mcs.drop_first(), program_id) {
            Some(c) => {
                let j = choose|j: int|
                    0 <= j < mcs.drop_first().len() && (#[trigger] mcs.drop_first()[j]) == c
                        && mcs.drop_first()[j].program_id@ == program_id;
                assert(mcs[j + 1] == mcs.drop_first()[j]);
            },
            None => {
                assert forall|i: int| 0 <= i < mcs.len() implies (#[trigger] mcs[i]).program_id@
                    != program_id by {
                    if i > 0 {
                        assert(mcs.drop_first()[i - 1] == mcs[i]);
                        assert(mcs.drop_first()[i - 1].program_id@ != program_id);
                    }
                }
            },
        }
    }
}

impl Storage {
    /// The in-memory table always exists; creation is kept for interface
    /// parity and changes nothing.
    pub fn create_meta_contract_table(&self) {
    }

    /// Record a bound contract. The program id is the table's primary key:
    /// a second write under an existing program id leaves the table as it
    /// is, keeping the row immutable.
    pub fn write_meta_contract(&mut self, contract: MetaContract) -> (r: Result<(), ServiceError>)
        ensures
            r is Ok,
            spec_find_meta_contract(old(self).meta_contracts@, contract.program_id@) is Some
                ==> final(self).meta_contracts@ == old(self).meta_contracts@,
            spec_find_meta_contract(old(self).meta_contracts@, contract.program_id@) is None
                ==> final(self).meta_contracts@ =~= old(self).meta_contracts@.push(contract),
            old(self).meta_contracts_wf() ==> final(self).meta_contracts_wf(),
            final(self).transactions@ == old(self).transactions@,
            final(self).metadatas@ == old(self).metadatas@,
            final(self).crons@ == old(self).crons@,
            final(self).cron_txs@ == old(self).cron_txs@,
            final(self).transaction_receipts@ == old(self).transaction_receipts@,
    {
        match self.find_meta_contract_index(contract.program_id.as_str()) {
            Some(_) => Ok(()),
            None => {
                proof {
                    lemma_find_meta_contract_props(self.meta_contracts@, contract.program_id@);
                }
                self.meta_contracts.push(contract);
                Ok(())
            },
        }
    }

    /// The index of the first contract bearing the program id, if any.
    fn find_meta_contract_index(&self, program_id: &str) -> (r: Option<usize>)
        ensures
            r matches Some(i) ==> i < self.meta_contracts@.len()
                && self.meta_contracts@[i as int].program_id@ == program_id@
                && spec_find_meta_contract(self.meta_contracts@, program_id@) == Some(
                self.meta_contracts@[i as int],
            ),
            r is None ==> spec_find_meta_contract(self.meta_contracts@, program_id@) is None,
    {
        let n = self.meta_contracts.len();
        let mut i: usize = 0;
        proof {
            assert(self.meta_contracts@.skip(0) =~= self.meta_contracts@);
        }
        while i < n
            invariant
                n == self.meta_contracts@.len(),
                i <= n,
                spec_find_meta_contract(self.meta_contracts@, program_id@)
                    == spec_find_meta_contract(self.meta_contracts@.skip(i as int), program_id@),
            decreases n - i,
        {
            proof {
                let sub = self.meta_contracts@.skip(i as int);
                assert(sub[0] == self.meta_contracts@[i as int]);
                assert(sub.drop_first() =~= self.meta_contracts@.skip(i + 1));
            }
            if crate::strutil::string_eq_str(&self.meta_contracts[i].program_id, program_id) {
                return Some(i);
            }
            i += 1;
        }
        proof {
            assert(self.meta_contracts@.skip(n as int) =~= Seq::<MetaContract>::empty());
        }
        None
    }

    /// Look a contract up by its program id.
    pub fn get_meta_contract_by_id(&self, program_id: String) -> (r: Result<
        MetaContract,
        ServiceError,
    >)
        ensures
            match spec_find_meta_contract(self.meta_contracts@, program_id@) {
                Some(c) => r matches Ok(rc) && rc == c,
                None => r matches Err(e) && e matches ServiceError::RecordNotFound(msg) && msg@
                    == "No record found"@,
            },
    {
        match self.find_meta_contract_index(program_id.as_str()) {
            Some(i) => Ok(self.meta_contracts[i].clone()),
            None => Err(ServiceError::RecordNotFound(String::from_str("No record found"))),
        }
    }

    /// Look a contract up; the id handed in is the program id under which
    /// the contract was bound.
    pub fn get_meta_contract(&self, program_id: String) -> (r: Result<MetaContract, ServiceError>)
        ensures
            match spec_find_meta_contract(self.meta_contracts@, program_id@) {
                Some(c) => r matches Ok(rc) && rc == c,
                None => r matches Err(e) && e matches ServiceError::RecordNotFound(msg) && msg@
                    == "No record found"@,
            },
    {
        self.get_meta_contract_by_id(program_id)
    }
}

/// Is this row a meta contract row?
pub open spec fn row_is_meta_contract(r: Row) -> bool {
    r is MetaContract
}

/// Decode a raw query result into meta contract rows; any row of another
/// shape is an internal error.
pub fn read(result: RQLiteResult) -> (r: Result<Vec<MetaContract>, ServiceError>)
    requires
        result.rows is Some,
    ensures
        r matches Ok(v) ==> {
            &&& v@.len() == result.rows->Some_0@.len()
            &&& forall|i: int|
                0 <= i < v@.len() ==> result.rows->Some_0@[i] == Row::MetaContract(v@[i])
        },
        r is Ok <==> (forall|i: int|
            0 <= i < result.rows->Some_0@.len() ==> row_is_meta_contract(
                #[trigger] result.rows->Some_0@[i],
            )),
        r matches Err(e) ==> e is InternalError,
{
    let rows: &Vec<Row> = result.rows.as_ref().unwrap();
    let mut mcs: Vec<MetaContract> = Vec::new();
    let n = rows.len();
    let mut i: usize = 0;
    while i < n
        invariant
            result.rows is Some,
            rows@ == result.rows->Some_0@,
            n == rows@.len(),
            i <= n,
            mcs@.len() == i,
            forall|j: int| 0 <= j < i ==> rows@[j] == Row::MetaContract(mcs@[j]),
            forall|j: int| 0 <= j < i ==> row_is_meta_contract(#[trigger] rows@[j]),
        decreases n - i,
    {
        match &rows[i] {
            Row::MetaContract(c) => {
                mcs.push(c.clone());
            },
            _ => {
                proof {
                    assert(!row_is_meta_contract(result.rows->Some_0@[i as int]));
                }
                return Err(
                    ServiceError::InternalError(
                        String::from_str("Invalid data format: metacontracts"),
                    ),
                );
            },
        }
        i += 1;
    }
    Ok(mcs)
}

} // verus!
