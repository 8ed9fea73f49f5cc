//! Transactions: one record per admitted request.
//!
//! A transaction's hash is derived from its content (the timestamp is left
//! out), so identical logical requests collapse to the same identity.
use vstd::prelude::*;
use crate::defaults::STATUS_PENDING;
use crate::hashing::{digest_of, hasher};

verus! {

#[derive(Debug)]
pub struct Transaction {
    pub hash: String,
    pub method: String,
    pub program_id: String,
    pub data_key: String,
    pub data: String,
    pub public_key: String,
    pub alias: String,
    pub timestamp: u64,
    pub version: String,
    pub mcdata: String,
    pub status: i64,
    pub error_text: String,
}

impl Clone for Transaction {
    fn clone(&self) -> (r: Self)
        ensures
            r == *self,
    {
        Transaction {
            hash: self.hash.clone(),
            method: self.method.clone(),
            program_id: self.program_id.clone(),
            data_key: self.data_key.clone(),
            data: self.data.clone(),
            public_key: self.public_key.clone(),
            alias: self.alias.clone(),
            timestamp: self.timestamp,
            version: self.version.clone(),
            mcdata: self.mcdata.clone(),
            status: self.status,
            error_text: self.error_text.clone(),
        }
    }
}

#[derive(Debug)]
pub struct TransactionRequest {
    pub data_key: String,
    pub program_id: String,
    pub alias: String,
    pub public_key: String,
    pub signature: String,
    pub data: String,
    pub method: String,
    pub version: String,
    pub mcdata: String,
}

/// The part of a transaction that is recorded inside a content block.
#[derive(Debug)]
pub struct TransactionSubset {
    pub hash: String,
    pub timestamp: u64,
    pub meta_contract_id: String,
    pub method: String,
    pub value: String,
}

impl Clone for TransactionSubset {
    fn clone(&self) -> (r: Self)
        ensures
            r == *self,
    {
        TransactionSubset {
            hash: self.hash.clone(),
            timestamp: self.timestamp,
            meta_contract_id: self.meta_contract_id.clone(),
            method: self.method.clone(),
            value: self.value.clone(),
        }
    }
}

#[derive(Debug)]
pub struct TransactionQuery {
    pub column: String,
    pub query: String,
    pub op: String,
}

#[derive(Debug)]
pub struct TransactionOrdering {
    pub column: String,
    pub sort: String,
}

#[derive(Debug)]
pub struct TransactionReceipt {
    pub hash: String,
    pub program_id: String,
    pub status: i64,
    pub timestamp: u64,
    pub error_text: String,
    pub data: String,
}

impl Clone for TransactionReceipt {
    fn clone(&self) -> (r: Self)
        ensures
            r == *self,
    {
        TransactionReceipt {
            hash: self.hash.clone(),
            program_id: self.program_id.clone(),
            status: self.status,
            timestamp: self.timestamp,
            error_text: self.error_text.clone(),
            data: self.data.clone(),
        }
    }
}

/// The digest input for a transaction's identity: every content field, in a
/// fixed order, with the prior content marker last; the timestamp is not
/// part of it.
pub open spec fn tx_hash_preimage(
    program_id: Seq<char>,
    data_key: Seq<char>,
    data: Seq<char>,
    public_key: Seq<char>,
    alias: Seq<char>,
    method: Seq<char>,
    version: Seq<char>,
    mcdata: Seq<char>,
    previous_content: Seq<char>,
) -> Seq<char> {
    program_id + data_key + data + public_key + alias + method + version + mcdata
        + previous_content
}

pub open spec fn spec_transaction_hash(
    program_id: Seq<char>,
    data_key: Seq<char>,
    data: Seq<char>,
    public_key: Seq<char>,
    alias: Seq<char>,
    method: Seq<char>,
    version: Seq<char>,
    mcdata: Seq<char>,
    previous_content: Seq<char>,
) -> Seq<char> {
    digest_of(
        tx_hash_preimage(
            program_id,
            data_key,
            data,
            public_key,
            alias,
            method,
            version,
            mcdata,
            previous_content,
        ),
    )
}

impl Transaction {
    pub fn new(
        program_id: String,
        from_peer_id: String,
        host_id: String,
        data_key: String,
        data: String,
        public_key: String,
        alias: String,
        timestamp: u64,
        method: String,
        version: String,
        mcdata: String,
        previous_data: String,
    ) -> (r: Self)
        ensures
            r.hash@ == spec_transaction_hash(
                program_id@,
                data_key@,
                data@,
                public_key@,
                alias@,
                method@,
                version@,
                mcdata@,
                previous_data@,
            ),
            r.program_id == program_id,
            r.data_key == data_key,
            r.data == data,
            r.public_key == public_key,
            r.alias == alias,
            r.timestamp == timestamp,
            r.method == method,
            r.version == version,
            r.mcdata == mcdata,
            r.status == STATUS_PENDING,
            r.error_text@ == Seq::<char>::empty(),
    {
        let hash = Self::generate_hash(
            program_id.as_str(),
            data_key.as_str(),
            data.as_str(),
            public_key.as_str(),
            alias.as_str(),
            method.as_str(),
            version.as_str(),
            mcdata.as_str(),
            previous_data.as_str(),
        );

        Transaction {
            hash,
            method,
            program_id,
            data_key,
            data,
            public_key,
            alias,
            timestamp,
            version,
            mcdata,
            status: STATUS_PENDING,
            error_text: String::new(),
        }
    }

    /// The content-derived transaction identity: the digest of the request
    /// fields plus the prior content marker. Replay of the same content gives
    /// the same hash; the timestamp is not hashed.
    pub fn generate_hash(
        program_id: &str,
        data_key: &str,
        data: &str,
        public_key: &str,
        alias: &str,
        method: &str,
        version: &str,
        mcdata: &str,
        previous_content: &str,
    ) -> (r: String)
        ensures
            r@ == spec_transaction_hash(
                program_id@,
                data_key@,
                data@,
                public_key@,
                alias@,
                method@,
                version@,
                mcdata@,
                previous_content@,
            ),
    {
        let mut s = String::new();
        s.append(program_id);
        s.append(data_key);
        s.append(data);
        s.append(public_key);
        s.append(alias);
        s.append(method);
        s.append(version);
        s.append(mcdata);
        s.append(previous_content);
        proof {
            assert(s@ =~= tx_hash_preimage(
                program_id@,
                data_key@,
                data@,
                public_key@,
                alias@,
                method@,
                version@,
                mcdata@,
                previous_content@,
            ));
        }
        hasher(s)
    }
}

} // verus!
