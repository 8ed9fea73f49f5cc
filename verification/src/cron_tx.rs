//! Cron firings: one record per execution of a cron against a source chain
//! transaction. At most one non-failed firing exists per
//! (tx_hash, address, chain, topic); a failed firing may be retried.
use vstd::prelude::*;
use crate::defaults::STATUS_FAILED;
use crate::error::ServiceError;
use crate::storage_impl::{cron_tx_key_matches, RQLiteResult, Row, Storage};

verus! {

#[derive(Debug)]
pub struct CronTx {
    pub address: String,
    pub topic: String,
    pub token_type: String,
    pub chain: String,
    pub meta_contract_id: String,
    pub timestamp: u64,
    pub tx_block_number: u64,
    pub tx_hash: String,
    pub status: i64,
    pub data: String,
    pub error_text: String,
    pub token_id: String,
    pub data_key: String,
    pub token_key: String,
}

impl Clone for CronTx {
    fn clone(&self) -> (r: Self)
        ensures
            r == *self,
    {
        CronTx {
            address: self.address.clone(),
            topic: self.topic.clone(),
            token_type: self.token_type.clone(),
            chain: self.chain.clone(),
            meta_contract_id: self.meta_contract_id.clone(),
            timestamp: self.timestamp,
            tx_block_number: self.tx_block_number,
            tx_hash: self.tx_hash.clone(),
            status: self.status,
            data: self.data.clone(),
            error_text: self.error_text.clone(),
            token_id: self.token_id.clone(),
            data_key: self.data_key.clone(),
            token_key: self.token_key.clone(),
        }
    }
}

impl Default for CronTx {
    fn default() -> (r: Self)
        ensures
            r.address@ == Seq::<char>::empty(),
            r.topic@ == Seq::<char>::empty(),
            r.token_type@ == Seq::<char>::empty(),
            r.chain@ == Seq::<char>::empty(),
            r.meta_contract_id@ == Seq::<char>::empty(),
            r.timestamp == 0,
            r.tx_block_number == 0,
            r.tx_hash@ == Seq::<char>::empty(),
            r.status == 0,
            r.data@ == Seq::<char>::empty(),
            r.error_text@ == Seq::<char>::empty(),
            r.token_id@ == Seq::<char>::empty(),
            r.data_key@ == Seq::<char>::empty(),
            r.token_key@ == Seq::<char>::empty(),
    {
        CronTx {
            address: String::new(),
            topic: String::new(),
            token_type: String::new(),
            chain: String::new(),
            meta_contract_id: String::new(),
            timestamp: 0,
            tx_block_number: 0,
            tx_hash: String::new(),
            status: 0,
            data: String::new(),
            error_text: String::new(),
            token_id: String::new(),
            data_key: String::new(),
            token_key: String::new(),
        }
    }
}

impl CronTx {
    pub fn new(
        address: String,
        topic: String,
        token_type: String,
        chain: String,
        meta_contract_id: String,
        timestamp: u64,
        tx_block_number: u64,
        tx_hash: String,
        status: i64,
        data: String,
        error_text: String,
        token_id: String,
        data_key: String,
        token_key: String,
    ) -> (r: Self)
        ensures
            r.address == address,
            r.topic == topic,
            r.token_type == token_type,
            r.chain == chain,
            r.meta_contract_id == meta_contract_id,
            r.timestamp == timestamp,
            r.tx_block_number == tx_block_number,
            r.tx_hash == tx_hash,
            r.status == status,
            r.data == data,
            r.error_text == error_text,
            r.token_id == token_id,
            r.data_key == data_key,
            r.token_key == token_key,
    {
        CronTx {
            address,
            topic,
            token_type,
            chain,
            meta_contract_id,
            timestamp,
            tx_block_number,
            tx_hash,
            status,
            data,
            error_text,
            token_id,
            data_key,
            token_key,
        }
    }
}

/// The first firing with the given (tx_hash, address, chain, topic) key,
/// scanning forward.
pub open spec fn spec_find_cron_tx(
    txs: Seq<CronTx>,
    tx_hash: Seq<char>,
    address: Seq<char>,
    chain: Seq<char>,
    topic: Seq<char>,
) -> Option<CronTx>
    decreases txs.len(),
{
    if txs.len() == 0 {
        None
    } else if cron_tx_key_matches(txs[0], tx_hash, address, chain, topic) {
        Some(txs[0])
    } else {
        spec_find_cron_tx(txs.drop_first(), tx_hash, address, chain, topic)
    }
}

/// What the finder's outcome says of the table.
pub proof fn lemma_find_cron_tx_props(
    txs: Seq<CronTx>,
    tx_hash: Seq<char>,
    address: Seq<char>,
    chain: Seq<char>,
    topic: Seq<char>,
)
    ensures
        match spec_find_cron_tx(txs, tx_hash, address, chain, topic) {
            Some(t) => exists|i: int|
                0 <= i < txs.len() && (#[trigger] txs[i]) == t && cron_tx_key_matches(
                    txs[i],
                    tx_hash,
                    address,
                    chain,
                    topic,
                ),
            None => forall|i: int|
                0 <= i < txs.len() ==> !cron_tx_key_matches(
                    #[trigger] txs[i],
                    tx_hash,
                    address,
                    chain,
                    topic,
                ),
        },
    decreases txs.len(),
{
    if txs.len() > 0 && !cron_tx_key_matches(txs[0], tx_hash, address, chain, topic) {
        lemma_find_cron_tx_props(txs.drop_first(), tx_hash, address, chain, topic);
        match spec_find_cron_tx(txs.drop_first(), tx_hash, address, chain, topic) {
            Some(t) => {
                let j = choose|j: int|
                    0 <= j < txs.drop_first().len() && (#[trigger] txs.drop_first()[j]) == t
                        && cron_tx_key_matches(txs.drop_first()[j], tx_hash, address, chain, topic);
                assert(txs[j + 1] == txs.drop_first()[j]);
            },
            None => {
                assert forall|i: int| 0 <= i < txs.len() implies !cron_tx_key_matches(
                    #[trigger] txs[i],
                    tx_hash,
                    address,
                    chain,
                    topic,
                ) by {
                    if i > 0 {
                        assert(txs.drop_first()[i - 1] == txs[i]);
                        assert(!cron_tx_key_matches(
                            txs.drop_first()[i - 1],
                            tx_hash,
                            address,
                            chain,
                            topic,
                        ));
                    }
                }
            },
        }
    }
}

/// The first non-failed firing with the given key, scanning forward. This
/// is the idempotency check: such a firing blocks a second one.
pub open spec fn spec_find_live_cron_tx(
    txs: Seq<CronTx>,
    tx_hash: Seq<char>,
    address: Seq<char>,
    chain: Seq<char>,
    topic: Seq<char>,
) -> Option<CronTx>
    decreases txs.len(),
{
    if txs.len() == 0 {
        None
    } else if txs[0].status != STATUS_FAILED && cron_tx_key_matches(
        txs[0],
        tx_hash,
        address,
        chain,
        topic,
    ) {
        Some(txs[0])
    } else {
        spec_find_live_cron_tx(txs.drop_first(), tx_hash, address, chain, topic)
    }
}

/// What the live finder's outcome says of the table.
pub proof fn lemma_find_live_cron_tx_props(
    txs: Seq<CronTx>,
    tx_hash: Seq<char>,
    address: Seq<char>,
    chain: Seq<char>,
    topic: Seq<char>,
)
    ensures
        match spec_find_live_cron_tx(txs, tx_hash, address, chain, topic) {
            Some(t) => exists|i: int|
                0 <= i < txs.len() && (#[trigger] txs[i]) == t && txs[i].status != STATUS_FAILED
                    && cron_tx_key_matches(txs[i], tx_hash, address, chain, topic),
            None => forall|i: int|
                0 <= i < txs.len() ==> !((#[trigger] txs[i]).status != STATUS_FAILED
                    && cron_tx_key_matches(txs[i], tx_hash, address, chain, topic)),
        },
    decreases txs.len(),
{
    if txs.len() > 0 && !(txs[0].status != STATUS_FAILED && cron_tx_key_matches(
        txs[0],
        tx_hash,
        address,
        chain,
        topic,
    )) {
        lemma_find_live_cron_tx_props(txs.drop_first(), tx_hash, address, chain, topic);
        match spec_find_live_cron_tx(txs.drop_first(), tx_hash, address, chain, topic) {
            Some(t) => {
                let j = choose|j: int|
                    0 <= j < txs.drop_first().len() && (#[trigger] txs.drop_first()[j]) == t
                        && txs.drop_first()[j].status != STATUS_FAILED && cron_tx_key_matches(
                        txs.drop_first()[j],
                        tx_hash,
                        address,
                        chain,
                        topic,
                    );
                assert(txs[j + 1] == txs.drop_first()[j]);
            },
            None => {
                assert forall|i: int| 0 <= i < txs.len() implies !((#[trigger] txs[i]).status
                    != STATUS_FAILED && cron_tx_key_matches(
                    txs[i],
                    tx_hash,
                    address,
                    chain,
                    topic,
                )) by {
                    if i > 0 {
                        assert(txs.drop_first()[i - 1] == txs[i]);
                        assert(!(txs.drop_first()[i - 1].status != STATUS_FAILED
                            && cron_tx_key_matches(
                            txs.drop_first()[i - 1],
                            tx_hash,
                            address,
                            chain,
                            topic,
                        )));
                    }
                }
            },
        }
    }
}

impl Storage {
    /// The in-memory table always exists; creation is kept for interface
    /// parity and changes nothing.
    pub fn create_cron_tx_table(&self) {
    }

    /// The non-failed firing for a key, if one is on record.
    pub fn find_live_cron_tx(
        &self,
        tx_hash: String,
        address: String,
        chain: String,
        topic: String,
    ) -> (r: Option<CronTx>)
        ensures
            match spec_find_live_cron_tx(self.cron_txs@, tx_hash@, address@, chain@, topic@) {
                Some(t) => r matches Some(rt) && rt == t,
                None => r is None,
            },
    {
        let n = self.cron_txs.len();
        let mut i: usize = 0;
        proof {
            assert(self.cron_txs@.skip(0) =~= self.cron_txs@);
        }
        while i < n
            invariant
                n == self.cron_txs@.len(),
                i <= n,
                spec_find_live_cron_tx(self.cron_txs@, tx_hash@, address@, chain@, topic@)
                    == spec_find_live_cron_tx(
                    self.cron_txs@.skip(i as int),
                    tx_hash@,
                    address@,
                    chain@,
                    topic@,
                ),
            decreases n - i,
        {
            proof {
                let sub = self.cron_txs@.skip(i as int);
                assert(sub[0] == self.cron_txs@[i as int]);
                assert(sub.drop_first() =~= self.cron_txs@.skip(i + 1));
            }
            let row = &self.cron_txs[i];
            let matches = row.status != STATUS_FAILED
                && crate::strutil::string_eq_str(&row.tx_hash, tx_hash.as_str())
                && crate::strutil::string_eq_str(&row.address, address.as_str())
                && crate::strutil::string_eq_str(&row.chain, chain.as_str())
                && crate::strutil::string_eq_str(&row.topic, topic.as_str());
            if matches {
                return Some(self.cron_txs[i].clone());
            }
            i += 1;
        }
        proof {
            assert(self.cron_txs@.skip(n as int) =~= Seq::<CronTx>::empty());
        }
        None
    }

    /// Record a firing. A non-failed firing may only be written when no
    /// other non-failed firing holds its key, which keeps firings
    /// idempotent; callers check first.
    pub fn write_cron_tx(&mut self, cron_tx: CronTx) -> (r: Result<(), ServiceError>)
        requires
            cron_tx.status != STATUS_FAILED ==> forall|i: int|
                0 <= i < old(self).cron_txs@.len() && (#[trigger] old(self).cron_txs@[i]).status
                    != STATUS_FAILED ==> !cron_tx_key_matches(
                    old(self).cron_txs@[i],
                    cron_tx.tx_hash@,
                    cron_tx.address@,
                    cron_tx.chain@,
                    cron_tx.topic@,
                ),
        ensures
            r is Ok,
            final(self).cron_txs@ =~= old(self).cron_txs@.push(cron_tx),
            old(self).cron_txs_wf() ==> final(self).cron_txs_wf(),
            final(self).transactions@ == old(self).transactions@,
            final(self).metadatas@ == old(self).metadatas@,
            final(self).meta_contracts@ == old(self).meta_contracts@,
            final(self).crons@ == old(self).crons@,
            final(self).transaction_receipts@ == old(self).transaction_receipts@,
    {
        self.cron_txs.push(cron_tx);
        Ok(())
    }

    /// Look the firing for a (tx_hash, address, chain, topic) key up.
    pub fn get_cron_tx_by_tx_hash(
        &self,
        tx_hash: String,
        address: String,
        chain: String,
        topic: String,
    ) -> (r: Result<CronTx, ServiceError>)
        ensures
            match spec_find_cron_tx(self.cron_txs@, tx_hash@, address@, chain@, topic@) {
                Some(t) => r matches Ok(rt) && rt == t,
                None => r matches Err(e) && e matches ServiceError::RecordNotFound(msg) && msg@
                    == "No record found"@,
            },
    {
        let n = self.cron_txs.len();
        let mut i: usize = 0;
        proof {
            assert(self.cron_txs@.skip(0) =~= self.cron_txs@);
        }
        while i < n
            invariant
                n == self.cron_txs@.len(),
                i <= n,
                spec_find_cron_tx(self.cron_txs@, tx_hash@, address@, chain@, topic@)
                    == spec_find_cron_tx(
                    self.cron_txs@.skip(i as int),
                    tx_hash@,
                    address@,
                    chain@,
                    topic@,
                ),
            decreases n - i,
        {
            proof {
                let sub = self.cron_txs@.skip(i as int);
                assert(sub[0] == self.cron_txs@[i as int]);
                assert(sub.drop_first() =~= self.cron_txs@.skip(i + 1));
            }
            let matches = crate::strutil::string_eq_str(&self.cron_txs[i].tx_hash, tx_hash.as_str())
                && crate::strutil::string_eq_str(&self.cron_txs[i].address, address.as_str())
                && crate::strutil::string_eq_str(&self.cron_txs[i].chain, chain.as_str())
                && crate::strutil::string_eq_str(&self.cron_txs[i].topic, topic.as_str());
            if matches {
                return Ok(self.cron_txs[i].clone());
            }
            i += 1;
        }
        proof {
            assert(self.cron_txs@.skip(n as int) =~= Seq::<CronTx>::empty());
        }
        Err(ServiceError::RecordNotFound(String::from_str("No record found")))
    }

    /// Every firing on record.
    pub fn get_all_cron_txs(&self) -> (r: Result<Vec<CronTx>, ServiceError>)
        ensures
            r matches Ok(v) && v@ =~= self.cron_txs@,
    {
        let mut out: Vec<CronTx> = Vec::new();
        let n = self.cron_txs.len();
        let mut i: usize = 0;
        while i < n
            invariant
                n == self.cron_txs@.len(),
                i <= n,
                out@ =~= self.cron_txs@.take(i as int),
            decreases n - i,
        {
            proof {
                assert(self.cron_txs@.take(i + 1) =~= self.cron_txs@.take(i as int).push(
                    self.cron_txs@[i as int],
                ));
            }
            out.push(self.cron_txs[i].clone());
            i += 1;
        }
        proof {
            assert(self.cron_txs@.take(n as int) =~= self.cron_txs@);
        }
        Ok(out)
    }

    /// Every firing of a scheduling unit (address, chain, topic).
    pub fn search_cron_tx(&self, address: String, chain: String, topic: String) -> (r: Result<
        Vec<CronTx>,
        ServiceError,
    >)
        ensures
            r matches Ok(v) && v@ =~= self.cron_txs@.filter(
                |t: CronTx| t.address@ == address@ && t.chain@ == chain@ && t.topic@ == topic@,
            ),
    {
        let mut out: Vec<CronTx> = Vec::new();
        let n = self.cron_txs.len();
        let mut i: usize = 0;
        while i < n
            invariant
                n == self.cron_txs@.len(),
                i <= n,
                out@ =~= self.cron_txs@.take(i as int).filter(
                    |t: CronTx| t.address@ == address@ && t.chain@ == chain@ && t.topic@ == topic@,
                ),
            decreases n - i,
        {
            proof {
                broadcast use Seq::lemma_filter_push;

                assert(self.cron_txs@.take(i + 1) =~= self.cron_txs@.take(i as int).push(
                    self.cron_txs@[i as int],
                ));
            }
            let matches = crate::strutil::string_eq_str(&self.cron_txs[i].address, address.as_str())
                && crate::strutil::string_eq_str(&self.cron_txs[i].chain, chain.as_str())
                && crate::strutil::string_eq_str(&self.cron_txs[i].topic, topic.as_str());
            if matches {
                out.push(self.cron_txs[i].clone());
            }
            i += 1;
        }
        proof {
            assert(self.cron_txs@.take(n as int) =~= self.cron_txs@);
        }
        Ok(out)
    }

    /// The firing of a scheduling unit with the highest block number.
    pub fn get_cron_tx_latest_block(&self, address: String, chain: String, topic: String) -> (r:
        Result<CronTx, ServiceError>)
        ensures
            r matches Ok(t) ==> {
                &&& exists|i: int|
                    0 <= i < self.cron_txs@.len() && (#[trigger] self.cron_txs@[i]) == t
                &&& t.address@ == address@ && t.chain@ == chain@ && t.topic@ == topic@
                &&& forall|i: int|
                    0 <= i < self.cron_txs@.len() && (#[trigger] self.cron_txs@[i]).address@
                        == address@ && self.cron_txs@[i].chain@ == chain@
                        && self.cron_txs@[i].topic@ == topic@
                        ==> self.cron_txs@[i].tx_block_number <= t.tx_block_number
            },
            r is Err <==> (forall|i: int|
                0 <= i < self.cron_txs@.len() ==> !((#[trigger] self.cron_txs@[i]).address@
                    == address@ && self.cron_txs@[i].chain@ == chain@ && self.cron_txs@[i].topic@
                    == topic@)),
            r matches Err(e) ==> e matches ServiceError::RecordNotFound(msg) && msg@
                == "No record found"@,
    {
        let n = self.cron_txs.len();
        let mut i: usize = 0;
        let mut best: Option<usize> = None;
        while i < n
            invariant
                n == self.cron_txs@.len(),
                i <= n,
                best matches Some(b) ==> b < i && self.cron_txs@[b as int].address@ == address@
                    && self.cron_txs@[b as int].chain@ == chain@
                    && self.cron_txs@[b as int].topic@ == topic@,
                best matches Some(b) ==> forall|j: int|
                    0 <= j < i && (#[trigger] self.cron_txs@[j]).address@ == address@
                        && self.cron_txs@[j].chain@ == chain@ && self.cron_txs@[j].topic@
                        == topic@ ==> self.cron_txs@[j].tx_block_number
                        <= self.cron_txs@[b as int].tx_block_number,
                best is None ==> forall|j: int|
                    0 <= j < i ==> !((#[trigger] self.cron_txs@[j]).address@ == address@
                        && self.cron_txs@[j].chain@ == chain@ && self.cron_txs@[j].topic@
                        == topic@),
            decreases n - i,
        {
            let matches = crate::strutil::string_eq_str(&self.cron_txs[i].address, address.as_str())
                && crate::strutil::string_eq_str(&self.cron_txs[i].chain, chain.as_str())
                && crate::strutil::string_eq_str(&self.cron_txs[i].topic, topic.as_str());
            if matches {
                match best {
                    None => {
                        best = Some(i);
                    },
                    Some(b) => {
                        if self.cron_txs[b].tx_block_number < self.cron_txs[i].tx_block_number {
                            best = Some(i);
                        }
                    },
                }
            }
            i += 1;
        }
        match best {
            Some(b) => Ok(self.cron_txs[b].clone()),
            None => Err(ServiceError::RecordNotFound(String::from_str("No record found"))),
        }
    }
}

/// Is this row a cron firing row?
pub open spec fn row_is_cron_tx(r: Row) -> bool {
    r is CronTx
}

/// Decode a raw query result into cron firing rows; any row of another
/// shape is an internal error.
pub fn read(result: RQLiteResult) -> (r: Result<Vec<CronTx>, ServiceError>)
    requires
        result.rows is Some,
    ensures
        r matches Ok(v) ==> {
            &&& v@.len() == result.rows->Some_0@.len()
            &&& forall|i: int| 0 <= i < v@.len() ==> result.rows->Some_0@[i] == Row::CronTx(v@[i])
        },
        r is Ok <==> (forall|i: int|
            0 <= i < result.rows->Some_0@.len() ==> row_is_cron_tx(
                #[trigger] result.rows->Some_0@[i],
            )),
        r matches Err(e) ==> e is InternalError,
{
    let rows: &Vec<Row> = result.rows.as_ref().unwrap();
    let mut txs: Vec<CronTx> = Vec::new();
    let n = rows.len();
    let mut i: usize = 0;
    while i < n
        invariant
            result.rows is Some,
            rows@ == result.rows->Some_0@,
            n == rows@.len(),
            i <= n,
            txs@.len() == i,
            forall|j: int| 0 <= j < i ==> rows@[j] == Row::CronTx(txs@[j]),
            forall|j: int| 0 <= j < i ==> row_is_cron_tx(#[trigger] rows@[j]),
        decreases n - i,
    {
        match &rows[i] {
            Row::CronTx(t) => {
                txs.push(t.clone());
            },
            _ => {
                proof {
                    assert(!row_is_cron_tx(result.rows->Some_0@[i as int]));
                }
                return Err(
                    ServiceError::InternalError(String::from_str("Invalid data format: cron_tx")),
                );
            },
        }
        i += 1;
    }
    Ok(txs)
}

} // verus!
