//! Cron definitions: one scheduling unit per (address, chain, topic),
//! with token metadata and an enable/disable status.
use vstd::prelude::*;
use crate::defaults::{CRON_STATUS_DISABLE, CRON_STATUS_ENABLE};
use crate::error::ServiceError;
use crate::hashing::{digest_of, hasher};
use crate::storage_impl::{RQLiteResult, Row, Storage};

verus! {

#[derive(Debug)]
pub struct Cron {
    pub hash: String,
    pub address: String,
    pub chain: String,
    pub topic: String,
    pub token_type: String,
    pub token_key: String,
    pub meta_contract_id: String,
    pub node_url: String,
    pub public_key: String,
    pub status: i64,
    pub epoch: i64,
}

impl Clone for Cron {
    fn clone(&self) -> (r: Self)
        ensures
            r == *self,
    {
        Cron {
            hash: self.hash.clone(),
            address: self.address.clone(),
            chain: self.chain.clone(),
            topic: self.topic.clone(),
            token_type: self.token_type.clone(),
            token_key: self.token_key.clone(),
            meta_contract_id: self.meta_contract_id.clone(),
            node_url: self.node_url.clone(),
            public_key: self.public_key.clone(),
            status: self.status,
            epoch: self.epoch,
        }
    }
}

/// The digest input for a cron's identity: its scheduling unit.
pub open spec fn cron_hash_preimage(
    address: Seq<char>,
    chain: Seq<char>,
    topic: Seq<char>,
) -> Seq<char> {
    address + chain + topic
}

pub open spec fn spec_cron_hash(address: Seq<char>, chain: Seq<char>, topic: Seq<char>) -> Seq<
    char,
> {
    digest_of(cron_hash_preimage(address, chain, topic))
}

impl Cron {
    /// A cron is well-formed when its hash is the digest of its scheduling
    /// unit (address, chain, topic).
    pub open spec fn wf(&self) -> bool {
        self.hash@ == spec_cron_hash(self.address@, self.chain@, self.topic@)
    }

    pub fn new(
        token_key: String,
        address: String,
        topic: String,
        token_type: String,
        chain: String,
        status: i64,
        meta_contract_id: String,
        node_url: String,
        public_key: String,
    ) -> (r: Self)
        ensures
            r.wf(),
            r.address == address,
            r.chain == chain,
            r.topic == topic,
            r.token_type == token_type,
            r.token_key == token_key,
            r.meta_contract_id == meta_contract_id,
            r.node_url == node_url,
            r.public_key == public_key,
            r.status == status,
            r.epoch == 0,
    {
        let hash = Self::generate_hash(address.as_str(), chain.as_str(), topic.as_str());
        Cron {
            hash,
            address,
            chain,
            topic,
            token_type,
            token_key,
            meta_contract_id,
            node_url,
            public_key,
            status,
            epoch: 0,
        }
    }

    /// The content-derived cron identity.
    pub fn generate_hash(address: &str, chain: &str, topic: &str) -> (r: String)
        ensures
            r@ == spec_cron_hash(address@, chain@, topic@),
    {
        let mut s = String::new();
        s.append(address);
        s.append(chain);
        s.append(topic);
        proof {
            assert(s@ =~= cron_hash_preimage(address@, chain@, topic@));
        }
        hasher(s)
    }
}

/// The first cron whose hash matches, scanning forward.
pub open spec fn spec_find_cron_by_hash(crons: Seq<Cron>, hash: Seq<char>) -> Option<Cron>
    decreases crons.len(),
{
    if crons.len() == 0 {
        None
    } else if crons[0].hash@ == hash {
        Some(crons[0])
    } else {
        spec_find_cron_by_hash(crons.drop_first(), hash)
    }
}

/// Does this cron bear the given scheduling unit?
pub open spec fn cron_triple_matches(
    c: Cron,
    address: Seq<char>,
    chain: Seq<char>,
    topic: Seq<char>,
) -> bool {
    c.address@ == address && c.chain@ == chain && c.topic@ == topic
}

/// The first cron with the given scheduling unit, scanning forward.
pub open spec fn spec_find_cron_by_triple(
    crons: Seq<Cron>,
    address: Seq<char>,
    chain: Seq<char>,
    topic: Seq<char>,
) -> Option<Cron>
    decreases crons.len(),
{
    if crons.len() == 0 {
        None
    } else if cron_triple_matches(crons[0], address, chain, topic) {
        Some(crons[0])
    } else {
        spec_find_cron_by_triple(crons.drop_first(), address, chain, topic)
    }
}

/// What the hash finder's outcome says of the table.
pub proof fn lemma_find_cron_by_hash_props(crons: Seq<Cron>, hash: Seq<char>)
    ensures
        match spec_find_cron_by_hash(crons, hash) {
            Some(c) => exists|i: int|
                0 <= i < crons.len() && (#[trigger] crons[i]) == c && crons[i].hash@ == hash,
            None => forall|i: int| 0 <= i < crons.len() ==> (#[trigger] crons[i]).hash@ != hash,
        },
    decreases crons.len(),
{
    if crons.len() > 0 && crons[0].hash@ != hash {
        lemma_find_cron_by_hash_props(crons.drop_first(), hash);
        match spec_find_cron_by_hash(crons.drop_first(), hash) {
            Some(c) => {
                let j = choose|j: int|
                    0 <= j < crons.drop_first().len() && (#[trigger] crons.drop_first()[j]) == c
                        && crons.drop_first()[j].hash@ == hash;
                assert(crons[j + 1] == crons.drop_first()[j]);
            },
            None => {
                assert forall|i: int| 0 <= i < crons.len() implies (#[trigger] crons[i]).hash@
                    != hash by {
                    if i > 0 {
                        assert(crons.drop_first()[i - 1] == crons[i]);
                        assert(crons.drop_first()[i - 1].hash@ != hash);
                    }
                }
            },
        }
    }
}

/// What the scheduling-unit finder's outcome says of the table.
pub proof fn lemma_find_cron_by_triple_props(
    crons: Seq<Cron>,
    address: Seq<char>,
    chain: Seq<char>,
    topic: Seq<char>,
)
    ensures
        match spec_find_cron_by_triple(crons, address, chain, topic) {
            Some(c) => exists|i: int|
                0 <= i < crons.len() && (#[trigger] crons[i]) == c && cron_triple_matches(
                    crons[i],
                    address,
                    chain,
                    topic,
                ),
            None => forall|i: int|
                0 <= i < crons.len() ==> !cron_triple_matches(
                    #[trigger] crons[i],
                    address,
                    chain,
                    topic,
                ),
        },
    decreases crons.len(),
{
    if crons.len() > 0 && !cron_triple_matches(crons[0], address, chain, topic) {
        lemma_find_cron_by_triple_props(crons.drop_first(), address, chain, topic);
        match spec_find_cron_by_triple(crons.drop_first(), address, chain, topic) {
            Some(c) => {
                let j = choose|j: int|
                    0 <= j < crons.drop_first().len() && (#[trigger] crons.drop_first()[j]) == c
                        && cron_triple_matches(crons.drop_first()[j], address, chain, topic);
                assert(crons[j + 1] == crons.drop_first()[j]);
            },
            None => {
                assert forall|i: int| 0 <= i < crons.len() implies !cron_triple_matches(
                    #[trigger] crons[i],
                    address,
                    chain,
                    topic,
                ) by {
                    if i > 0 {
                        assert(crons.drop_first()[i - 1] == crons[i]);
                        assert(!cron_triple_matches(crons.drop_first()[i - 1], address, chain, topic));
                    }
                }
            },
        }
    }
}

/// A cron with its status replaced.
pub open spec fn spec_cron_with_status(c: Cron, status: i64) -> Cron {
    Cron { status, ..c }
}

/// The table after a status change for every cron bound to the program.
pub open spec fn spec_set_cron_status_by_program(
    crons: Seq<Cron>,
    program_id: Seq<char>,
    status: i64,
) -> Seq<Cron> {
    crons.map(
        |i: int, c: Cron|
            if c.meta_contract_id@ == program_id {
                spec_cron_with_status(c, status)
            } else {
                c
            },
    )
}

/// A cron with its definition fields replaced; the scheduling unit, hash,
/// owner and epoch stay as they were, so the identity is kept.
pub open spec fn spec_cron_with_definition(c: Cron, d: Cron) -> Cron {
    Cron {
        token_type: d.token_type,
        token_key: d.token_key,
        meta_contract_id: d.meta_contract_id,
        node_url: d.node_url,
        status: d.status,
        ..c
    }
}

impl Storage {
    /// The in-memory table always exists; creation is kept for interface
    /// parity and changes nothing.
    pub fn create_cron_table(&self) {
    }

    /// Record a cron definition, enabled. The scheduling unit (address,
    /// chain, topic) is the cron's key: a second write under an existing
    /// unit leaves the table as it is.
    pub fn write_cron(&mut self, cron: Cron) -> (r: Result<(), ServiceError>)
        requires
            cron.wf(),
        ensures
            r is Ok,
            spec_find_cron_by_triple(
                old(self).crons@,
                cron.address@,
                cron.chain@,
                cron.topic@,
            ) is Some ==> final(self).crons@ == old(self).crons@,
            spec_find_cron_by_triple(
                old(self).crons@,
                cron.address@,
                cron.chain@,
                cron.topic@,
            ) is None ==> final(self).crons@ =~= old(self).crons@.push(
                spec_cron_with_status(cron, CRON_STATUS_ENABLE),
            ),
            old(self).crons_wf() ==> final(self).crons_wf(),
            final(self).transactions@ == old(self).transactions@,
            final(self).metadatas@ == old(self).metadatas@,
            final(self).meta_contracts@ == old(self).meta_contracts@,
            final(self).cron_txs@ == old(self).cron_txs@,
            final(self).transaction_receipts@ == old(self).transaction_receipts@,
    {
        let found = self.search_cron(cron.address.clone(), cron.chain.clone(), cron.topic.clone());
        match found {
            Ok(_) => Ok(()),
            Err(_) => {
                proof {
                    lemma_find_cron_by_triple_props(
                        self.crons@,
                        cron.address@,
                        cron.chain@,
                        cron.topic@,
                    );
                }
                let row = Cron { status: CRON_STATUS_ENABLE, ..cron };
                self.crons.push(row);
                Ok(())
            },
        }
    }

    /// The index of the first cron bearing the hash, if any.
    fn find_cron_index_by_hash(&self, hash: &str) -> (r: Option<usize>)
        ensures
            r matches Some(i) ==> i < self.crons@.len() && self.crons@[i as int].hash@ == hash@
                && spec_find_cron_by_hash(self.crons@, hash@) == Some(self.crons@[i as int]),
            r is None ==> spec_find_cron_by_hash(self.crons@, hash@) is None,
    {
        let n = self.crons.len();
        let mut i: usize = 0;
        proof {
            assert(self.crons@.skip(0) =~= self.crons@);
        }
        while i < n
            invariant
                n == self.crons@.len(),
                i <= n,
                spec_find_cron_by_hash(self.crons@, hash@) == spec_find_cron_by_hash(
                    self.crons@.skip(i as int),
                    hash@,
                ),
            decreases n - i,
        {
            proof {
                let sub = self.crons@.skip(i as int);
                assert(sub[0] == self.crons@[i as int]);
                assert(sub.drop_first() =~= self.crons@.skip(i + 1));
            }
            if crate::strutil::string_eq_str(&self.crons[i].hash, hash) {
                return Some(i);
            }
            i += 1;
        }
        proof {
            assert(self.crons@.skip(n as int) =~= Seq::<Cron>::empty());
        }
        None
    }

    /// Disable every cron bound to the program.
    pub fn cron_disable(&mut self, program_id: String) -> (r: Result<(), ServiceError>)
        ensures
            r is Ok,
            final(self).crons@ =~= spec_set_cron_status_by_program(
                old(self).crons@,
                program_id@,
                CRON_STATUS_DISABLE,
            ),
            old(self).crons_wf() ==> final(self).crons_wf(),
            final(self).transactions@ == old(self).transactions@,
            final(self).metadatas@ == old(self).metadatas@,
            final(self).meta_contracts@ == old(self).meta_contracts@,
            final(self).cron_txs@ == old(self).cron_txs@,
            final(self).transaction_receipts@ == old(self).transaction_receipts@,
    {
        self.set_cron_status_by_program(program_id, CRON_STATUS_DISABLE)
    }

    /// Enable every cron bound to the program.
    pub fn cron_enable(&mut self, program_id: String) -> (r: Result<(), ServiceError>)
        ensures
            r is Ok,
            final(self).crons@ =~= spec_set_cron_status_by_program(
                old(self).crons@,
                program_id@,
                CRON_STATUS_ENABLE,
            ),
            old(self).crons_wf() ==> final(self).crons_wf(),
            final(self).transactions@ == old(self).transactions@,
            final(self).metadatas@ == old(self).metadatas@,
            final(self).meta_contracts@ == old(self).meta_contracts@,
            final(self).cron_txs@ == old(self).cron_txs@,
            final(self).transaction_receipts@ == old(self).transaction_receipts@,
    {
        self.set_cron_status_by_program(program_id, CRON_STATUS_ENABLE)
    }

    fn set_cron_status_by_program(&mut self, program_id: String, status: i64) -> (r: Result<
        (),
        ServiceError,
    >)
        ensures
            r is Ok,
            final(self).crons@ =~= spec_set_cron_status_by_program(
                old(self).crons@,
                program_id@,
                status,
            ),
            old(self).crons_wf() ==> final(self).crons_wf(),
            final(self).transactions@ == old(self).transactions@,
            final(self).metadatas@ == old(self).metadatas@,
            final(self).meta_contracts@ == old(self).meta_contracts@,
            final(self).cron_txs@ == old(self).cron_txs@,
            final(self).transaction_receipts@ == old(self).transaction_receipts@,
    {
        let ghost snap = *self;
        let ghost crons0 = self.crons@;
        let n = self.crons.len();
        let mut i: usize = 0;
        while i < n
            invariant
                n == self.crons@.len(),
                i <= n,
                self.crons@.len() == crons0.len(),
                self.transactions@ == snap.transactions@,
                self.metadatas@ == snap.metadatas@,
                self.meta_contracts@ == snap.meta_contracts@,
                self.cron_txs@ == snap.cron_txs@,
                self.transaction_receipts@ == snap.transaction_receipts@,
                forall|j: int| i <= j < n ==> self.crons@[j] == crons0[j],
                forall|j: int|
                    0 <= j < i ==> self.crons@[j] == (if crons0[j].meta_contract_id@
                        == program_id@ {
                        spec_cron_with_status(crons0[j], status)
                    } else {
                        crons0[j]
                    }),
            decreases n - i,
        {
            if crate::strutil::string_eq_str(&self.crons[i].meta_contract_id, program_id.as_str()) {
                self.crons[i].status = status;
                proof {
                    assert(self.crons@[i as int] == spec_cron_with_status(crons0[i as int], status));
                }
            }
            i += 1;
        }
        proof {
            assert forall|j: int| 0 <= j < crons0.len() && crons0[j].wf() implies (
            #[trigger] self.crons@[j]).wf() by {}
        }
        Ok(())
    }

    /// The first cron bound to the program, if any.
    pub fn get_cron_by_program_id(&self, program_id: String) -> (r: Result<Cron, ServiceError>)
        ensures
            r matches Ok(c) ==> exists|i: int|
                0 <= i < self.crons@.len() && (#[trigger] self.crons@[i]) == c
                    && c.meta_contract_id@ == program_id@,
            r is Err <==> (forall|i: int|
                0 <= i < self.crons@.len() ==> (#[trigger] self.crons@[i]).meta_contract_id@
                    != program_id@),
            r matches Err(e) ==> e matches ServiceError::RecordNotFound(msg) && msg@
                == "No record found"@,
    {
        let n = self.crons.len();
        let mut i: usize = 0;
        while i < n
            invariant
                n == self.crons@.len(),
                i <= n,
                forall|j: int|
                    0 <= j < i ==> (#[trigger] self.crons@[j]).meta_contract_id@ != program_id@,
            decreases n - i,
        {
            if crate::strutil::string_eq_str(&self.crons[i].meta_contract_id, program_id.as_str()) {
                return Ok(self.crons[i].clone());
            }
            i += 1;
        }
        Err(ServiceError::RecordNotFound(String::from_str("No record found")))
    }

    /// Look a cron up by its hash.
    pub fn get_cron_by_hash(&self, hash: String) -> (r: Result<Cron, ServiceError>)
        ensures
            match spec_find_cron_by_hash(self.crons@, hash@) {
                Some(c) => r matches Ok(rc) && rc == c,
                None => r matches Err(e) && e matches ServiceError::RecordNotFound(msg) && msg@
                    == "No record found"@,
            },
    {
        match self.find_cron_index_by_hash(hash.as_str()) {
            Some(i) => Ok(self.crons[i].clone()),
            None => Err(ServiceError::RecordNotFound(String::from_str("No record found"))),
        }
    }

    /// Look a cron up by its scheduling unit (address, chain, topic).
    pub fn search_cron(&self, address: String, chain: String, topic: String) -> (r: Result<
        Cron,
        ServiceError,
    >)
        ensures
            match spec_find_cron_by_triple(self.crons@, address@, chain@, topic@) {
                Some(c) => r matches Ok(rc) && rc == c,
                None => r matches Err(e) && e matches ServiceError::RecordNotFound(msg) && msg@
                    == "No record found"@,
            },
    {
        let n = self.crons.len();
        let mut i: usize = 0;
        proof {
            assert(self.crons@.skip(0) =~= self.crons@);
        }
        while i < n
            invariant
                n == self.crons@.len(),
                i <= n,
                spec_find_cron_by_triple(self.crons@, address@, chain@, topic@)
                    == spec_find_cron_by_triple(
                    self.crons@.skip(i as int),
                    address@,
                    chain@,
                    topic@,
                ),
            decreases n - i,
        {
            proof {
                let sub = self.crons@.skip(i as int);
                assert(sub[0] == self.crons@[i as int]);
                assert(sub.drop_first() =~= self.crons@.skip(i + 1));
            }
            let matches = crate::strutil::string_eq_str(&self.crons[i].address, address.as_str())
                && crate::strutil::string_eq_str(&self.crons[i].chain, chain.as_str())
                && crate::strutil::string_eq_str(&self.crons[i].topic, topic.as_str());
            if matches {
                return Ok(self.crons[i].clone());
            }
            i += 1;
        }
        proof {
            assert(self.crons@.skip(n as int) =~= Seq::<Cron>::empty());
        }
        Err(ServiceError::RecordNotFound(String::from_str("No record found")))
    }

    /// Replace the definition of the cron bearing the hash; its scheduling
    /// unit, owner and hash stay as they were.
    pub fn update_cron(&mut self, hash: String, cron: Cron) -> (r: Result<(), ServiceError>)
        ensures
            final(self).crons@ =~= old(self).crons@.map(
                |i: int, c: Cron|
                    if c.hash@ == hash@ {
                        spec_cron_with_definition(c, cron)
                    } else {
                        c
                    },
            ),
            r is Ok <==> spec_find_cron_by_hash(old(self).crons@, hash@) is Some,
            r matches Err(e) ==> e matches ServiceError::RecordNotFound(msg) && msg@
                == "No record found"@,
            old(self).crons_wf() ==> final(self).crons_wf(),
            final(self).transactions@ == old(self).transactions@,
            final(self).metadatas@ == old(self).metadatas@,
            final(self).meta_contracts@ == old(self).meta_contracts@,
            final(self).cron_txs@ == old(self).cron_txs@,
            final(self).transaction_receipts@ == old(self).transaction_receipts@,
    {
        let ghost snap = *self;
        let ghost crons0 = self.crons@;
        let n = self.crons.len();
        let mut i: usize = 0;
        let mut updated = false;
        while i < n
            invariant
                n == self.crons@.len(),
                i <= n,
                self.crons@.len() == crons0.len(),
                self.transactions@ == snap.transactions@,
                self.metadatas@ == snap.metadatas@,
                self.meta_contracts@ == snap.meta_contracts@,
                self.cron_txs@ == snap.cron_txs@,
                self.transaction_receipts@ == snap.transaction_receipts@,
                forall|j: int| i <= j < n ==> self.crons@[j] == crons0[j],
                forall|j: int|
                    0 <= j < i ==> self.crons@[j] == (if crons0[j].hash@ == hash@ {
                        spec_cron_with_definition(crons0[j], cron)
                    } else {
                        crons0[j]
                    }),
                updated <==> exists|j: int| 0 <= j < i && (#[trigger] crons0[j]).hash@ == hash@,
            decreases n - i,
        {
            if crate::strutil::string_eq_str(&self.crons[i].hash, hash.as_str()) {
                self.crons[i].token_type = cron.token_type.clone();
                self.crons[i].token_key = cron.token_key.clone();
                self.crons[i].meta_contract_id = cron.meta_contract_id.clone();
                self.crons[i].node_url = cron.node_url.clone();
                self.crons[i].status = cron.status;
                proof {
                    assert(self.crons@[i as int] == spec_cron_with_definition(
                        crons0[i as int],
                        cron,
                    ));
                }
                updated = true;
            }
            i += 1;
        }
        proof {
            lemma_find_cron_by_hash_props(crons0, hash@);
            assert forall|j: int| 0 <= j < crons0.len() && crons0[j].wf() implies (
            #[trigger] self.crons@[j]).wf() by {}
        }
        if updated {
            Ok(())
        } else {
            Err(ServiceError::RecordNotFound(String::from_str("No record found")))
        }
    }

    /// Set the status of the cron bearing the hash.
    pub fn update_cron_status(&mut self, hash: String, status: i64) -> (r: Result<
        (),
        ServiceError,
    >)
        ensures
            final(self).crons@ =~= old(self).crons@.map(
                |i: int, c: Cron|
                    if c.hash@ == hash@ {
                        spec_cron_with_status(c, status)
                    } else {
                        c
                    },
            ),
            r is Ok <==> spec_find_cron_by_hash(old(self).crons@, hash@) is Some,
            r matches Err(e) ==> e matches ServiceError::RecordNotFound(msg) && msg@
                == "No record found"@,
            old(self).crons_wf() ==> final(self).crons_wf(),
            final(self).transactions@ == old(self).transactions@,
            final(self).metadatas@ == old(self).metadatas@,
            final(self).meta_contracts@ == old(self).meta_contracts@,
            final(self).cron_txs@ == old(self).cron_txs@,
            final(self).transaction_receipts@ == old(self).transaction_receipts@,
    {
        let ghost snap = *self;
        let ghost crons0 = self.crons@;
        let n = self.crons.len();
        let mut i: usize = 0;
        let mut updated = false;
        while i < n
            invariant
                n == self.crons@.len(),
                i <= n,
                self.crons@.len() == crons0.len(),
                self.transactions@ == snap.transactions@,
                self.metadatas@ == snap.metadatas@,
                self.meta_contracts@ == snap.meta_contracts@,
                self.cron_txs@ == snap.cron_txs@,
                self.transaction_receipts@ == snap.transaction_receipts@,
                forall|j: int| i <= j < n ==> self.crons@[j] == crons0[j],
                forall|j: int|
                    0 <= j < i ==> self.crons@[j] == (if crons0[j].hash@ == hash@ {
                        spec_cron_with_status(crons0[j], status)
                    } else {
                        crons0[j]
                    }),
                updated <==> exists|j: int| 0 <= j < i && (#[trigger] crons0[j]).hash@ == hash@,
            decreases n - i,
        {
            if crate::strutil::string_eq_str(&self.crons[i].hash, hash.as_str()) {
                self.crons[i].status = status;
                proof {
                    assert(self.crons@[i as int] == spec_cron_with_status(crons0[i as int], status));
                }
                updated = true;
            }
            i += 1;
        }
        proof {
            lemma_find_cron_by_hash_props(crons0, hash@);
            assert forall|j: int| 0 <= j < crons0.len() && crons0[j].wf() implies (
            #[trigger] self.crons@[j]).wf() by {}
        }
        if updated {
            Ok(())
        } else {
            Err(ServiceError::RecordNotFound(String::from_str("No record found")))
        }
    }

    /// Every enabled cron.
    pub fn get_enabled_crons(&self) -> (r: Result<Vec<Cron>, ServiceError>)
        ensures
            r matches Ok(v) && v@ =~= self.crons@.filter(|c: Cron| c.status == CRON_STATUS_ENABLE),
    {
        let mut out: Vec<Cron> = Vec::new();
        let n = self.crons.len();
        let mut i: usize = 0;
        while i < n
            invariant
                n == self.crons@.len(),
                i <= n,
                out@ =~= self.crons@.take(i as int).filter(
                    |c: Cron| c.status == CRON_STATUS_ENABLE,
                ),
            decreases n - i,
        {
            proof {
                broadcast use Seq::lemma_filter_push;

                assert(self.crons@.take(i + 1) =~= self.crons@.take(i as int).push(
                    self.crons@[i as int],
                ));
            }
            if self.crons[i].status == CRON_STATUS_ENABLE {
                out.push(self.crons[i].clone());
            }
            i += 1;
        }
        proof {
            assert(self.crons@.take(n as int) =~= self.crons@);
        }
        Ok(out)
    }

    /// Every cron, whatever its status.
    pub fn get_all_crons(&self) -> (r: Result<Vec<Cron>, ServiceError>)
        ensures
            r matches Ok(v) && v@ =~= self.crons@,
    {
        let mut out: Vec<Cron> = Vec::new();
        let n = self.crons.len();
        let mut i: usize = 0;
        while i < n
            invariant
                n == self.crons@.len(),
                i <= n,
                out@ =~= self.crons@.take(i as int),
            decreases n - i,
        {
            proof {
                assert(self.crons@.take(i + 1) =~= self.crons@.take(i as int).push(
                    self.crons@[i as int],
                ));
            }
            out.push(self.crons[i].clone());
            i += 1;
        }
        proof {
            assert(self.crons@.take(n as int) =~= self.crons@);
        }
        Ok(out)
    }
}

/// Is this row a cron row?
pub open spec fn row_is_cron(r: Row) -> bool {
    r is Cron
}

/// Decode a raw query result into cron rows; any row of another shape is an
/// internal error.
pub fn read(result: RQLiteResult) -> (r: Result<Vec<Cron>, ServiceError>)
    requires
        result.rows is Some,
    ensures
        r matches Ok(v) ==> {
            &&& v@.len() == result.rows->Some_0@.len()
            &&& forall|i: int| 0 <= i < v@.len() ==> result.rows->Some_0@[i] == Row::Cron(v@[i])
        },
        r is Ok <==> (forall|i: int|
            0 <= i < result.rows->Some_0@.len() ==> row_is_cron(#[trigger] result.rows->Some_0@[i])),
        r matches Err(e) ==> e is InternalError,
{
    let rows: &Vec<Row> = result.rows.as_ref().unwrap();
    let mut crons: Vec<Cron> = Vec::new();
    let n = rows.len();
    let mut i: usize = 0;
    while i < n
        invariant
            result.rows is Some,
            rows@ == result.rows->Some_0@,
            n == rows@.len(),
            i <= n,
            crons@.len() == i,
            forall|j: int| 0 <= j < i ==> rows@[j] == Row::Cron(crons@[j]),
            forall|j: int| 0 <= j < i ==> row_is_cron(#[trigger] rows@[j]),
        decreases n - i,
    {
        match &rows[i] {
            Row::Cron(c) => {
                crons.push(c.clone());
            },
            _ => {
                proof {
                    assert(!row_is_cron(result.rows->Some_0@[i as int]));
                }
                return Err(
                    ServiceError::InternalError(String::from_str("Invalid data format: cron")),
                );
            },
        }
        i += 1;
    }
    Ok(crons)
}

} // verus!
