//! Payload descriptors carried inside a request's `data` field as JSON:
//! the clone descriptor and the cron descriptor, with their trusted parsers.
use vstd::prelude::*;
use serde_json::Value;

verus! {

/// The origin slot a clone request points at.
#[derive(Debug)]
pub struct DataTypeClone {
    pub origin_data_key: String,
    pub origin_program_id: String,
    pub origin_public_key: String,
    pub origin_alias: String,
    pub origin_version: String,
}

impl Clone for DataTypeClone {
    fn clone(&self) -> (r: Self)
        ensures
            r == *self,
    {
        DataTypeClone {
            origin_data_key: self.origin_data_key.clone(),
            origin_program_id: self.origin_program_id.clone(),
            origin_public_key: self.origin_public_key.clone(),
            origin_alias: self.origin_alias.clone(),
            origin_version: self.origin_version.clone(),
        }
    }
}

/// The fields of a parsed clone payload, at the specification level.
pub ghost struct CloneFields {
    pub origin_data_key: Seq<char>,
    pub origin_program_id: Seq<char>,
    pub origin_public_key: Seq<char>,
    pub origin_alias: Seq<char>,
    pub origin_version: Seq<char>,
}

/// What parsing a clone payload yields: a function of the input characters
/// alone. `None` stands for a payload that is not a JSON object carrying all
/// five origin fields as strings.
pub uninterp spec fn spec_parse_clone(s: Seq<char>) -> Option<CloneFields>;

/// Relies on serde_json's `from_str::<Value>` and `Value::{get, as_str}`:
/// reads the five origin fields of a JSON clone descriptor; every field must
/// be present as a string, else `None`.
#[verifier::external_body]
pub fn parse_clone_payload(data: &str) -> (r: Option<DataTypeClone>)
    ensures
        r is Some <==> spec_parse_clone(data@) is Some,
        r matches Some(c) ==> spec_parse_clone(data@) matches Some(f)
            && c.origin_data_key@ == f.origin_data_key
            && c.origin_program_id@ == f.origin_program_id
            && c.origin_public_key@ == f.origin_public_key
            && c.origin_alias@ == f.origin_alias
            && c.origin_version@ == f.origin_version,
{
    let v: Value = serde_json::from_str(data).ok()?;
    Some(DataTypeClone {
        origin_data_key: v.get("origin_data_key")?.as_str()?.to_string(),
        origin_program_id: v.get("origin_program_id")?.as_str()?.to_string(),
        origin_public_key: v.get("origin_public_key")?.as_str()?.to_string(),
        origin_alias: v.get("origin_alias")?.as_str()?.to_string(),
        origin_version: v.get("origin_version")?.as_str()?.to_string(),
    })
}

/// A parsed cron payload: the action to take and the cron's fields.
#[derive(Debug)]
pub struct SerdeCron {
    pub action: String,
    pub address: String,
    pub chain: String,
    pub topic: String,
    pub token_type: String,
    pub token_key: String,
    pub hash: String,
    pub meta_contract_id: String,
    pub node_url: String,
    pub status: i64,
}

impl Clone for SerdeCron {
    fn clone(&self) -> (r: Self)
        ensures
            r == *self,
    {
        SerdeCron {
            action: self.action.clone(),
            address: self.address.clone(),
            chain: self.chain.clone(),
            topic: self.topic.clone(),
            token_type: self.token_type.clone(),
            token_key: self.token_key.clone(),
            hash: self.hash.clone(),
            meta_contract_id: self.meta_contract_id.clone(),
            node_url: self.node_url.clone(),
            status: self.status,
        }
    }
}

/// The fields of a parsed cron payload, at the specification level.
pub ghost struct CronFields {
    pub action: Seq<char>,
    pub address: Seq<char>,
    pub chain: Seq<char>,
    pub topic: Seq<char>,
    pub token_type: Seq<char>,
    pub token_key: Seq<char>,
    pub hash: Seq<char>,
    pub meta_contract_id: Seq<char>,
    pub node_url: Seq<char>,
    pub status: int,
}

/// What parsing a cron payload yields: a function of the input characters
/// alone. `None` stands for a payload that is not a JSON object carrying all
/// nine string fields and an integer `status`.
pub uninterp spec fn spec_parse_cron(s: Seq<char>) -> Option<CronFields>;

/// Relies on serde_json's `from_str::<Value>` and `Value::{get, as_str,
/// as_i64}`: reads the fields of a JSON cron descriptor; every field must be
/// present with its type, else `None`.
#[verifier::external_body]
pub fn parse_cron_payload(data: &str) -> (r: Option<SerdeCron>)
    ensures
        r is Some <==> spec_parse_cron(data@) is Some,
        r matches Some(c) ==> spec_parse_cron(data@) matches Some(f)
            && c.action@ == f.action
            && c.address@ == f.address
            && c.chain@ == f.chain
            && c.topic@ == f.topic
            && c.token_type@ == f.token_type
            && c.token_key@ == f.token_key
            && c.hash@ == f.hash
            && c.meta_contract_id@ == f.meta_contract_id
            && c.node_url@ == f.node_url
            && c.status == f.status,
{
    let v: Value = serde_json::from_str(data).ok()?;
    Some(SerdeCron {
        action: v.get("action")?.as_str()?.to_string(),
        address: v.get("address")?.as_str()?.to_string(),
        chain: v.get("chain")?.as_str()?.to_string(),
        topic: v.get("topic")?.as_str()?.to_string(),
        token_type: v.get("token_type")?.as_str()?.to_string(),
        token_key: v.get("token_key")?.as_str()?.to_string(),
        hash: v.get("hash")?.as_str()?.to_string(),
        meta_contract_id: v.get("meta_contract_id")?.as_str()?.to_string(),
        node_url: v.get("node_url")?.as_str()?.to_string(),
        status: v.get("status")?.as_i64()?,
    })
}

} // verus!
