//! Meta contracts: one immutable row per program id, created on the first
//! successful finalization of a contract transaction.
use vstd::prelude::*;

verus! {

#[derive(Debug)]
pub struct MetaContract {
    pub program_id: String,
    pub public_key: String,
    pub cid: String,
}

impl Clone for MetaContract {
    fn clone(&self) -> (r: Self)
        ensures
            r == *self,
    {
        MetaContract {
            program_id: self.program_id.clone(),
            public_key: self.public_key.clone(),
            cid: self.cid.clone(),
        }
    }
}

} // verus!
