//! Results handed back to callers of the exposed surface.
use vstd::prelude::*;
use crate::cron_tx::CronTx;

verus! {

/// What `publish` hands back: the transaction hash to poll, whatever the
/// validation outcome was.
#[derive(Debug)]
pub struct FdbResult {
    pub transaction_hash: String,
}

impl Clone for FdbResult {
    fn clone(&self) -> (r: Self)
        ensures
            r == *self,
    {
        FdbResult { transaction_hash: self.transaction_hash.clone() }
    }
}

/// What `send_cron_tx` hands back: the firing on record for the key.
#[derive(Debug)]
pub struct FdbCronTxResult {
    pub success: bool,
    pub err_msg: String,
    pub cron_tx: CronTx,
}

} // verus!
