//! Metadata slots: one row per (data key, program id, public key, alias,
//! version) tuple, holding a mutable pointer to the latest content block.
use vstd::prelude::*;
use crate::hashing::{digest_of, hasher};

verus! {

#[derive(Debug)]
pub struct Metadata {
    pub hash: String,
    pub data_key: String,
    pub program_id: String,
    pub alias: String,
    pub cid: String,
    pub version: String,
    pub public_key: String,
    pub loose: bool,
}

impl Clone for Metadata {
    fn clone(&self) -> (r: Self)
        ensures
            r == *self,
    {
        Metadata {
            hash: self.hash.clone(),
            data_key: self.data_key.clone(),
            program_id: self.program_id.clone(),
            alias: self.alias.clone(),
            cid: self.cid.clone(),
            version: self.version.clone(),
            public_key: self.public_key.clone(),
            loose: self.loose,
        }
    }
}

/// The digest input for a slot's identity: the five identifying fields, in a
/// fixed order. The pointer (`cid`) and the `loose` flag are not part of it.
pub open spec fn meta_hash_preimage(
    data_key: Seq<char>,
    program_id: Seq<char>,
    alias: Seq<char>,
    public_key: Seq<char>,
    version: Seq<char>,
) -> Seq<char> {
    data_key + program_id + alias + public_key + version
}

pub open spec fn spec_metadata_hash(
    data_key: Seq<char>,
    program_id: Seq<char>,
    alias: Seq<char>,
    public_key: Seq<char>,
    version: Seq<char>,
) -> Seq<char> {
    digest_of(meta_hash_preimage(data_key, program_id, alias, public_key, version))
}

impl Metadata {
    /// A slot is well-formed when its hash is the digest of its five
    /// identifying fields.
    pub open spec fn wf(&self) -> bool {
        self.hash@ == spec_metadata_hash(
            self.data_key@,
            self.program_id@,
            self.alias@,
            self.public_key@,
            self.version@,
        )
    }

    pub fn new(
        data_key: String,
        program_id: String,
        alias: String,
        cid: String,
        public_key: String,
        version: String,
        loose: bool,
    ) -> (r: Self)
        ensures
            r.wf(),
            r.data_key == data_key,
            r.program_id == program_id,
            r.alias == alias,
            r.cid == cid,
            r.public_key == public_key,
            r.version == version,
            r.loose == loose,
    {
        let hash = Self::generate_hash(
            data_key.as_str(),
            program_id.as_str(),
            alias.as_str(),
            public_key.as_str(),
            version.as_str(),
        );

        Metadata {
            hash,
            data_key,
            program_id,
            alias,
            cid,
            public_key,
            version,
            loose,
        }
    }

    /// The content-derived slot identity.
    pub fn generate_hash(
        data_key: &str,
        program_id: &str,
        alias: &str,
        public_key: &str,
        version: &str,
    ) -> (r: String)
        ensures
            r@ == spec_metadata_hash(data_key@, program_id@, alias@, public_key@, version@),
    {
        let mut s = String::new();
        s.append(data_key);
        s.append(program_id);
        s.append(alias);
        s.append(public_key);
        s.append(version);
        proof {
            assert(s@ =~= meta_hash_preimage(data_key@, program_id@, alias@, public_key@, version@));
        }
        hasher(s)
    }
}

/// One delivered metadata item handed to finalization.
#[derive(Debug)]
pub struct FinalMetadata {
    pub public_key: String,
    pub program_id: String,
    pub alias: String,
    pub content: String,
    pub version: String,
}

impl Clone for FinalMetadata {
    fn clone(&self) -> (r: Self)
        ensures
            r == *self,
    {
        FinalMetadata {
            public_key: self.public_key.clone(),
            program_id: self.program_id.clone(),
            alias: self.alias.clone(),
            content: self.content.clone(),
            version: self.version.clone(),
        }
    }
}

#[derive(Debug)]
pub struct MetadataQuery {
    pub column: String,
    pub query: String,
    pub op: String,
}

#[derive(Debug)]
pub struct MetadataOrdering {
    pub column: String,
    pub sort: String,
}

} // verus!
