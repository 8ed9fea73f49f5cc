//! Shared constants: transaction methods, record statuses, cron actions and
//! the supported public-key encryption schemes.
use vstd::prelude::*;

verus! {

// Transaction status
pub const STATUS_PENDING: i64 = 0;
pub const STATUS_SUCCESS: i64 = 1;
pub const STATUS_FAILED: i64 = 2;

// Cron status
pub const CRON_STATUS_ENABLE: i64 = 1;
pub const CRON_STATUS_DISABLE: i64 = 0;

// Cron actions
pub const CRON_ACTION_CREATE: &'static str = "create";
pub const CRON_ACTION_UPDATE: &'static str = "update";
pub const CRON_ACTION_UPDATE_STATUS: &'static str = "update_status";

// Methods
pub const METHOD_CONTRACT: &'static str = "contract";
pub const METHOD_METADATA: &'static str = "metadata";
pub const METHOD_CLONE: &'static str = "clone";
pub const METHOD_CRON: &'static str = "cron";

// Encryption schemes
pub const ENCRYPTION_TYPE_SECP256K1: &'static str = "secp256k1";
pub const ENCRYPTION_TYPE_ED25519: &'static str = "ed25519";

/// The four method names are pairwise distinct, so a request selects
/// exactly one admission branch.
pub proof fn lemma_methods_distinct()
    ensures
        METHOD_CONTRACT@ != METHOD_METADATA@,
        METHOD_CONTRACT@ != METHOD_CLONE@,
        METHOD_CONTRACT@ != METHOD_CRON@,
        METHOD_METADATA@ != METHOD_CLONE@,
        METHOD_METADATA@ != METHOD_CRON@,
        METHOD_CLONE@ != METHOD_CRON@,
{
    broadcast use vstd::string::group_string_axioms;

    reveal_strlit("contract");
    reveal_strlit("metadata");
    reveal_strlit("clone");
    reveal_strlit("cron");
    assert(METHOD_CONTRACT@.len() == 8);
    assert(METHOD_METADATA@.len() == 8);
    assert(METHOD_CLONE@.len() == 5);
    assert(METHOD_CRON@.len() == 4);
    assert(METHOD_CONTRACT@[0] == 'c');
    assert(METHOD_METADATA@[0] == 'm');
}

} // verus!
