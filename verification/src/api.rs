//! The exposed ledger surface: the admission pipeline and batching.
//!
//! Admission validates an incoming request in a fixed order — method,
//! public-key scheme, method-specific check, signature — stopping at the
//! first failure, and always records a transaction: pending on success,
//! failed with the error's text otherwise. The caller learns the outcome by
//! reading the transaction back under the returned hash.
//!
//! The crypto verifier and the clock are host capabilities: the classified
//! scheme (`enc_type`, empty when the key is unclassifiable), the signature
//! verdict over the raw `data` payload (`signature_valid`) and the
//! server-assigned `timestamp` arrive as arguments.
use vstd::prelude::*;
use crate::block::{spec_chain, stores_consistent, Block, BlockStore};
use crate::cron::{spec_find_cron_by_hash, spec_find_cron_by_triple};
use crate::cron_tx::{spec_find_live_cron_tx, CronTx};
use crate::data_types::{parse_clone_payload, parse_cron_payload, spec_parse_clone, spec_parse_cron};
use crate::defaults::{
    CRON_ACTION_CREATE, CRON_STATUS_DISABLE, CRON_STATUS_ENABLE, ENCRYPTION_TYPE_ED25519,
    ENCRYPTION_TYPE_SECP256K1, METHOD_CLONE, METHOD_CONTRACT, METHOD_CRON, METHOD_METADATA,
    STATUS_FAILED, STATUS_PENDING, STATUS_SUCCESS,
};
use crate::error::ServiceError;
use crate::hashing::{digest_of, hash_pair, hasher};
use crate::meta_contract_impl::spec_find_meta_contract;
use crate::metadatas_impl::spec_find_metadata;
use crate::result::{FdbCronTxResult, FdbResult};
use crate::storage_impl::Storage;
use crate::strutil::string_eq_str;
use crate::transaction::{spec_transaction_hash, Transaction, TransactionRequest};
use crate::transactions_impl::spec_find_transaction;

verus! {

/// Is the method one the ledger accepts?
pub open spec fn spec_valid_method(method: Seq<char>) -> bool {
    method == METHOD_CONTRACT@ || method == METHOD_METADATA@ || method == METHOD_CLONE@
        || method == METHOD_CRON@
}

/// Is the classified public-key scheme one of the supported ones?
pub open spec fn spec_supported_enc(enc_type: Seq<char>) -> bool {
    enc_type == ENCRYPTION_TYPE_SECP256K1@ || enc_type == ENCRYPTION_TYPE_ED25519@
}

/// Did the method and scheme checks pass, so that the method-specific stage
/// runs at all?
pub open spec fn spec_prior_checks_pass(method: Seq<char>, enc_type: Seq<char>) -> bool {
    spec_valid_method(method) && enc_type.len() > 0 && spec_supported_enc(enc_type)
}

/// The text of the method-specific admission error, if any, once method and
/// scheme have passed.
pub open spec fn spec_method_error_text(
    s: Storage,
    data_key: Seq<char>,
    method: Seq<char>,
    alias: Seq<char>,
    public_key: Seq<char>,
    program_id: Seq<char>,
    data: Seq<char>,
    version: Seq<char>,
) -> Option<Seq<char>> {
    if method == METHOD_METADATA@ {
        if program_id.len() == 0 {
            Some("no program id"@)
        } else {
            None
        }
    } else if method == METHOD_CONTRACT@ {
        let pid = digest_of(data + public_key);
        if spec_find_meta_contract(s.meta_contracts@, pid) is Some {
            Some("record found: "@ + pid)
        } else {
            None
        }
    } else if method == METHOD_CLONE@ {
        match spec_parse_clone(data) {
            None => Some("invalid data format for method type: "@ + method),
            Some(f) => {
                if spec_find_metadata(
                    s.metadatas@,
                    f.origin_data_key,
                    f.origin_program_id,
                    f.origin_public_key,
                    f.origin_alias,
                    f.origin_version,
                ) is None {
                    Some("record not found: "@ + "No record found"@)
                } else if spec_find_metadata(
                    s.metadatas@,
                    data_key,
                    f.origin_program_id,
                    f.origin_public_key,
                    f.origin_alias,
                    f.origin_version,
                ) is Some {
                    Some("record found: "@ + data_key)
                } else {
                    None
                }
            },
        }
    } else {
        match spec_parse_cron(data) {
            None => Some("invalid data format for method type: "@ + method),
            Some(f) => {
                if f.action == CRON_ACTION_CREATE@ {
                    if f.address.len() == 0 || f.chain.len() == 0 || f.topic.len() == 0
                        || f.token_type.len() == 0 {
                        Some("invalid data format for method type: "@ + method)
                    } else if spec_find_cron_by_triple(
                        s.crons@,
                        f.address,
                        f.chain,
                        f.topic,
                    ) is Some {
                        Some("record found: "@ + (f.address + " "@ + f.chain + " "@ + f.topic))
                    } else {
                        None
                    }
                } else {
                    if f.hash.len() == 0 || (f.status != CRON_STATUS_ENABLE as int && f.status
                        != CRON_STATUS_DISABLE as int) {
                        Some("invalid data format for method type: "@ + method)
                    } else if spec_find_cron_by_hash(s.crons@, f.hash) is None {
                        Some("record not found: "@ + "No record found"@)
                    } else {
                        None
                    }
                }
            },
        }
    }
}

/// The error text admission records, if any: the checks run in order and the
/// first failure wins.
pub open spec fn spec_publish_error_text(
    s: Storage,
    data_key: Seq<char>,
    method: Seq<char>,
    alias: Seq<char>,
    public_key: Seq<char>,
    program_id: Seq<char>,
    data: Seq<char>,
    version: Seq<char>,
    enc_type: Seq<char>,
    signature_valid: bool,
) -> Option<Seq<char>> {
    if !spec_valid_method(method) {
        Some("invalid method: "@ + method)
    } else if enc_type.len() == 0 {
        Some("invalid encryption: "@ + public_key)
    } else if !spec_supported_enc(enc_type) {
        Some("not supported encryption type: "@ + enc_type)
    } else {
        match spec_method_error_text(
            s,
            data_key,
            method,
            alias,
            public_key,
            program_id,
            data,
            version,
        ) {
            Some(t) => Some(t),
            None => if !signature_valid {
                Some("invalid signature: "@ + ("not owner of data_key: "@ + public_key))
            } else {
                None
            },
        }
    }
}

/// The program id the transaction records: content-derived for a contract
/// (so the identity cannot be spoofed), the caller's otherwise.
pub open spec fn spec_publish_program_id(
    method: Seq<char>,
    program_id: Seq<char>,
    data: Seq<char>,
    public_key: Seq<char>,
    enc_type: Seq<char>,
) -> Seq<char> {
    if spec_prior_checks_pass(method, enc_type) && method == METHOD_CONTRACT@ {
        digest_of(data + public_key)
    } else {
        program_id
    }
}

/// The prior-content marker folded into the transaction hash: the slot's
/// current pointer for a metadata update, the derived program id for a
/// contract, empty otherwise.
pub open spec fn spec_publish_marker(
    s: Storage,
    data_key: Seq<char>,
    method: Seq<char>,
    alias: Seq<char>,
    public_key: Seq<char>,
    program_id: Seq<char>,
    data: Seq<char>,
    version: Seq<char>,
    enc_type: Seq<char>,
) -> Seq<char> {
    if spec_prior_checks_pass(method, enc_type) {
        if method == METHOD_CONTRACT@ {
            digest_of(data + public_key)
        } else if method == METHOD_METADATA@ && program_id.len() > 0 {
            match spec_find_metadata(s.metadatas@, data_key, program_id, public_key, alias, version) {
                Some(m) => m.cid@,
                None => Seq::<char>::empty(),
            }
        } else {
            Seq::<char>::empty()
        }
    } else {
        Seq::<char>::empty()
    }
}

/// The hash under which admission records the transaction. Identical
/// logical requests give the same hash; the timestamp is not part of it.
pub open spec fn spec_publish_hash(
    s: Storage,
    data_key: Seq<char>,
    method: Seq<char>,
    alias: Seq<char>,
    public_key: Seq<char>,
    program_id: Seq<char>,
    data: Seq<char>,
    version: Seq<char>,
    mcdata: Seq<char>,
    enc_type: Seq<char>,
) -> Seq<char> {
    spec_transaction_hash(
        spec_publish_program_id(method, program_id, data, public_key, enc_type),
        data_key,
        data,
        public_key,
        alias,
        method,
        digest_of(version),
        mcdata,
        spec_publish_marker(
            s,
            data_key,
            method,
            alias,
            public_key,
            program_id,
            data,
            version,
            enc_type,
        ),
    )
}

/// Everything admission does, as a relation between the store before and
/// after: the returned hash, the untouched tables, and — under a fresh
/// hash — the one appended transaction with every field pinned. A request
/// whose hash is already on record leaves the table as it was.
pub open spec fn publish_rel(
    pre: Storage,
    post: Storage,
    r: FdbResult,
    data_key: Seq<char>,
    method: Seq<char>,
    alias: Seq<char>,
    public_key: Seq<char>,
    program_id: Seq<char>,
    data: Seq<char>,
    version: Seq<char>,
    mcdata: Seq<char>,
    enc_type: Seq<char>,
    signature_valid: bool,
    timestamp: u64,
) -> bool {
    let perr = spec_publish_error_text(
        pre,
        data_key,
        method,
        alias,
        public_key,
        program_id,
        data,
        version,
        enc_type,
        signature_valid,
    );
    let pid = spec_publish_program_id(method, program_id, data, public_key, enc_type);
    let h = spec_publish_hash(
        pre,
        data_key,
        method,
        alias,
        public_key,
        program_id,
        data,
        version,
        mcdata,
        enc_type,
    );
    &&& r.transaction_hash@ == h
    &&& post.metadatas@ == pre.metadatas@
    &&& post.meta_contracts@ == pre.meta_contracts@
    &&& post.crons@ == pre.crons@
    &&& post.cron_txs@ == pre.cron_txs@
    &&& post.transaction_receipts@ == pre.transaction_receipts@
    &&& (spec_find_transaction(pre.transactions@, h) is Some ==> post.transactions@
        == pre.transactions@)
    &&& (spec_find_transaction(pre.transactions@, h) is None ==> {
        &&& post.transactions@.len() == pre.transactions@.len() + 1
        &&& post.transactions@ == pre.transactions@.push(post.transactions@.last())
        &&& {
            let t = post.transactions@.last();
            &&& t.hash@ == h
            &&& t.method@ == method
            &&& t.program_id@ == pid
            &&& t.data_key@ == data_key
            &&& t.data@ == data
            &&& t.public_key@ == public_key
            &&& t.alias@ == alias
            &&& t.timestamp == timestamp
            &&& t.version@ == digest_of(version)
            &&& t.mcdata@ == mcdata
            &&& t.status == (if perr is Some {
                STATUS_FAILED
            } else {
                STATUS_PENDING
            })
            &&& t.error_text@ == (match perr {
                Some(m) => m,
                None => Seq::<char>::empty(),
            })
        }
    })
}

/// Admit a request: validate it and durably record a transaction, pending
/// or failed, under a content-derived hash that is returned either way.
/// The raw `signature` is carried for interface parity; the host verifier's
/// verdict over it arrives as `signature_valid`.
#[verifier::rlimit(100)]
pub fn publish(
    storage: &mut Storage,
    data_key: String,
    method: String,
    alias: String,
    public_key: String,
    program_id: String,
    signature: String,
    data: String,
    version: String,
    mcdata: String,
    enc_type: String,
    signature_valid: bool,
    timestamp: u64,
) -> (r: FdbResult)
    requires
        old(storage).wf(),
    ensures
        final(storage).wf(),
        publish_rel(
            *old(storage),
            *final(storage),
            r,
            data_key@,
            method@,
            alias@,
            public_key@,
            program_id@,
            data@,
            version@,
            mcdata@,
            enc_type@,
            signature_valid,
            timestamp,
        ),
{
    proof {
        crate::defaults::lemma_methods_distinct();
    }
    let ghost pre = *storage;
    let ghost caller_pid = program_id@;
    let mut program_id = program_id;
    let mut error: Option<ServiceError> = None;
    let mut content = String::new();

    // The method must be a known one.
    let method_ok = string_eq_str(&method, METHOD_CONTRACT) || string_eq_str(
        &method,
        METHOD_METADATA,
    ) || string_eq_str(&method, METHOD_CLONE) || string_eq_str(&method, METHOD_CRON);
    if !method_ok {
        error = Some(ServiceError::InvalidMethod(method.clone()));
    }

    // The public key's scheme must be classifiable and supported.
    if error.is_none() {
        if enc_type.as_str().is_empty() {
            error = Some(ServiceError::InvalidEncryption(public_key.clone()));
        } else if !(string_eq_str(&enc_type, ENCRYPTION_TYPE_SECP256K1) || string_eq_str(
            &enc_type,
            ENCRYPTION_TYPE_ED25519,
        )) {
            error = Some(ServiceError::NotSupportedEncryptionType(enc_type.clone()));
        }
    }

    // The method-specific semantic check.
    if error.is_none() {
        if string_eq_str(&method, METHOD_METADATA) {
            if program_id.as_str().is_empty() {
                error = Some(ServiceError::NoProgramId);
            } else {
                let found = storage.get_owner_metadata(
                    data_key.clone(),
                    program_id.clone(),
                    public_key.clone(),
                    alias.clone(),
                    version.clone(),
                );
                match found {
                    Ok(metadata) => {
                        proof {
                            // The slot's owner is part of its identity, so
                            // what was found is owned by the caller's key.
                            crate::metadatas_impl::lemma_find_metadata_props(
                                storage.metadatas@,
                                data_key@,
                                program_id@,
                                public_key@,
                                alias@,
                                version@,
                            );
                        }
                        if !string_eq_str(&metadata.public_key, public_key.as_str()) {
                            error = Some(ServiceError::InvalidOwner(public_key.clone()));
                        }
                        content = metadata.cid;
                    },
                    Err(_) => {
                        // A fresh slot: nothing prior to point at.
                    },
                }
            }
        } else if string_eq_str(&method, METHOD_CONTRACT) {
            // The program id is recomputed from the content, overriding the
            // caller's, so contract identity cannot be spoofed.
            program_id = hash_pair(data.as_str(), public_key.as_str());
            let found = storage.get_meta_contract(program_id.clone());
            match found {
                Ok(_) => {
                    error = Some(ServiceError::RecordFound(program_id.clone()));
                },
                Err(_) => {},
            }
            content = program_id.clone();
        } else if string_eq_str(&method, METHOD_CLONE) {
            match parse_clone_payload(data.as_str()) {
                Some(dc) => {
                    let origin = storage.get_owner_metadata(
                        dc.origin_data_key.clone(),
                        dc.origin_program_id.clone(),
                        dc.origin_public_key.clone(),
                        dc.origin_alias.clone(),
                        dc.origin_version.clone(),
                    );
                    match origin {
                        Ok(_) => {},
                        Err(e) => {
                            error = Some(e);
                        },
                    }
                    if error.is_none() {
                        let destination = storage.get_owner_metadata(
                            data_key.clone(),
                            dc.origin_program_id.clone(),
                            dc.origin_public_key.clone(),
                            dc.origin_alias.clone(),
                            dc.origin_version.clone(),
                        );
                        match destination {
                            Ok(_) => {
                                error = Some(ServiceError::RecordFound(data_key.clone()));
                            },
                            Err(_) => {},
                        }
                    }
                },
                None => {
                    error = Some(ServiceError::InvalidDataFormatForMethodType(method.clone()));
                },
            }
        } else {
            match parse_cron_payload(data.as_str()) {
                Some(sc) => {
                    if string_eq_str(&sc.action, CRON_ACTION_CREATE) {
                        if sc.address.as_str().is_empty() || sc.chain.as_str().is_empty()
                            || sc.topic.as_str().is_empty() || sc.token_type.as_str().is_empty() {
                            error = Some(
                                ServiceError::InvalidDataFormatForMethodType(method.clone()),
                            );
                        } else {
                            let found = storage.search_cron(
                                sc.address.clone(),
                                sc.chain.clone(),
                                sc.topic.clone(),
                            );
                            match found {
                                Ok(_) => {
                                    let mut key = sc.address.clone();
                                    key.append(" ");
                                    key.append(sc.chain.as_str());
                                    key.append(" ");
                                    key.append(sc.topic.as_str());
                                    error = Some(ServiceError::RecordFound(key));
                                },
                                Err(_) => {},
                            }
                        }
                    } else {
                        if sc.hash.as_str().is_empty() || (sc.status != CRON_STATUS_ENABLE
                            && sc.status != CRON_STATUS_DISABLE) {
                            error = Some(
                                ServiceError::InvalidDataFormatForMethodType(method.clone()),
                            );
                        } else {
                            let found = storage.get_cron_by_hash(sc.hash.clone());
                            match found {
                                Ok(_) => {},
                                Err(e) => {
                                    error = Some(e);
                                },
                            }
                        }
                    }
                },
                None => {
                    error = Some(ServiceError::InvalidDataFormatForMethodType(method.clone()));
                },
            }
        }
    }

    // The signature must verify over the raw data payload.
    if error.is_none() {
        if !signature_valid {
            let mut msg = String::from_str("not owner of data_key: ");
            msg.append(public_key.as_str());
            error = Some(ServiceError::InvalidSignature(msg));
        }
    }

    proof {
        assert(program_id@ == spec_publish_program_id(
            method@,
            caller_pid,
            data@,
            public_key@,
            enc_type@,
        ));
        assert(content@ == spec_publish_marker(
            pre,
            data_key@,
            method@,
            alias@,
            public_key@,
            caller_pid,
            data@,
            version@,
            enc_type@,
        ));
        assert(match error {
            None => spec_publish_error_text(
                pre,
                data_key@,
                method@,
                alias@,
                public_key@,
                caller_pid,
                data@,
                version@,
                enc_type@,
                signature_valid,
            ) is None,
            Some(e) => spec_publish_error_text(
                pre,
                data_key@,
                method@,
                alias@,
                public_key@,
                caller_pid,
                data@,
                version@,
                enc_type@,
                signature_valid,
            ) == Some(e.spec_text()),
        });
    }

    let version_hashed = hasher(version);
    let mut transaction = Transaction::new(
        program_id,
        String::new(),
        String::new(),
        data_key,
        data,
        public_key,
        alias,
        timestamp,
        method,
        version_hashed,
        mcdata,
        content,
    );

    match error {
        Some(e) => {
            transaction.error_text = e.text();
            transaction.status = STATUS_FAILED;
        },
        None => {},
    }

    let _ = storage.write_transaction(transaction.clone());

    FdbResult { transaction_hash: transaction.hash }
}

/// Run a closure; the classic wrapper the exposed calls go through.
pub fn wrapped_try<F, T>(func: F) -> (r: T) where F: FnOnce() -> T
    requires
        func.requires(()),
    ensures
        func.ensures((), r),
{
    func()
}

/// The crypto verifier's verdict on one request: the classified scheme of
/// its public key (empty when unclassifiable) and whether the signature
/// verifies over the raw data payload.
#[derive(Debug)]
pub struct CryptoVerdict {
    pub enc_type: String,
    pub signature_valid: bool,
}

/// `publish_rel` over a whole request record and its verdict.
pub open spec fn publish_req_rel(
    pre: Storage,
    post: Storage,
    r: FdbResult,
    req: TransactionRequest,
    verdict: CryptoVerdict,
    timestamp: u64,
) -> bool {
    publish_rel(
        pre,
        post,
        r,
        req.data_key@,
        req.method@,
        req.alias@,
        req.public_key@,
        req.program_id@,
        req.data@,
        req.version@,
        req.mcdata@,
        verdict.enc_type@,
        verdict.signature_valid,
        timestamp,
    )
}

/// A batch admits its requests one after the other, each against the store
/// the one before left behind, with one result per request and no
/// atomicity across the batch.
pub open spec fn batch_rel(
    pre: Storage,
    post: Storage,
    reqs: Seq<TransactionRequest>,
    verdicts: Seq<CryptoVerdict>,
    timestamp: u64,
    results: Seq<FdbResult>,
) -> bool
    decreases reqs.len(),
{
    if reqs.len() == 0 {
        post == pre && results.len() == 0
    } else {
        &&& results.len() == reqs.len()
        &&& exists|mid: Storage|
            #[trigger] publish_req_rel(pre, mid, results[0], reqs[0], verdicts[0], timestamp)
                && batch_rel(
                mid,
                post,
                reqs.drop_first(),
                verdicts.drop_first(),
                timestamp,
                results.drop_first(),
            )
    }
}

/// Admitting one more request extends the batch relation at its tail.
pub proof fn lemma_batch_rel_snoc(
    pre: Storage,
    mid: Storage,
    post: Storage,
    reqs: Seq<TransactionRequest>,
    verdicts: Seq<CryptoVerdict>,
    timestamp: u64,
    results: Seq<FdbResult>,
    req: TransactionRequest,
    verdict: CryptoVerdict,
    r: FdbResult,
)
    requires
        reqs.len() == verdicts.len(),
        batch_rel(pre, mid, reqs, verdicts, timestamp, results),
        publish_req_rel(mid, post, r, req, verdict, timestamp),
    ensures
        batch_rel(
            pre,
            post,
            reqs.push(req),
            verdicts.push(verdict),
            timestamp,
            results.push(r),
        ),
    decreases reqs.len(),
{
    if reqs.len() == 0 {
        assert(mid == pre);
        assert(verdicts =~= Seq::<CryptoVerdict>::empty());
        assert(results =~= Seq::<FdbResult>::empty());
        assert(reqs.push(req)[0] == req);
        assert(verdicts.push(verdict)[0] == verdict);
        assert(results.push(r)[0] == r);
        assert(reqs.push(req).drop_first() =~= Seq::<TransactionRequest>::empty());
        assert(verdicts.push(verdict).drop_first() =~= Seq::<CryptoVerdict>::empty());
        assert(results.push(r).drop_first() =~= Seq::<FdbResult>::empty());
        assert(batch_rel(
            post,
            post,
            Seq::<TransactionRequest>::empty(),
            Seq::<CryptoVerdict>::empty(),
            timestamp,
            Seq::<FdbResult>::empty(),
        ));
        assert(publish_req_rel(pre, post, results.push(r)[0], reqs.push(req)[0], verdicts.push(verdict)[0], timestamp));
    } else {
        let m = choose|m: Storage|
            #[trigger] publish_req_rel(pre, m, results[0], reqs[0], verdicts[0], timestamp)
                && batch_rel(
                m,
                mid,
                reqs.drop_first(),
                verdicts.drop_first(),
                timestamp,
                results.drop_first(),
            );
        lemma_batch_rel_snoc(
            m,
            mid,
            post,
            reqs.drop_first(),
            verdicts.drop_first(),
            timestamp,
            results.drop_first(),
            req,
            verdict,
            r,
        );
        assert(reqs.push(req).drop_first() =~= reqs.drop_first().push(req));
        assert(verdicts.push(verdict).drop_first() =~= verdicts.drop_first().push(verdict));
        assert(results.push(r).drop_first() =~= results.drop_first().push(r));
        assert(reqs.push(req)[0] == reqs[0]);
        assert(verdicts.push(verdict)[0] == verdicts[0]);
        assert(results.push(r)[0] == results[0]);
        assert(publish_req_rel(pre, m, results.push(r)[0], reqs.push(req)[0], verdicts.push(verdict)[0], timestamp));
    }
}

/// Admit an ordered list of requests, one after the other, collecting one
/// result per request. There is no atomicity across the batch: partial
/// failure leaves the earlier records in place.
pub fn send_batch_transaction(
    storage: &mut Storage,
    txs: Vec<TransactionRequest>,
    verdicts: Vec<CryptoVerdict>,
    timestamp: u64,
) -> (results: Vec<FdbResult>)
    requires
        old(storage).wf(),
        txs@.len() == verdicts@.len(),
    ensures
        final(storage).wf(),
        batch_rel(*old(storage), *final(storage), txs@, verdicts@, timestamp, results@),
{
    let ghost pre = *storage;
    let ghost all = txs@;
    let ghost allv = verdicts@;
    let mut txs = txs;
    let mut verdicts = verdicts;
    let mut results: Vec<FdbResult> = Vec::new();
    proof {
        assert(all.take(0) =~= Seq::<TransactionRequest>::empty());
        assert(allv.take(0) =~= Seq::<CryptoVerdict>::empty());
        assert(txs@ =~= all.skip(0));
        assert(verdicts@ =~= allv.skip(0));
    }
    while txs.len() > 0
        invariant
            storage.wf(),
            txs@.len() == verdicts@.len(),
            results@.len() + txs@.len() == all.len(),
            all.len() == allv.len(),
            txs@ =~= all.skip(results@.len() as int),
            verdicts@ =~= allv.skip(results@.len() as int),
            batch_rel(
                pre,
                *storage,
                all.take(results@.len() as int),
                allv.take(results@.len() as int),
                timestamp,
                results@,
            ),
        decreases txs@.len(),
    {
        let ghost k = results@.len() as int;
        let req = txs.remove(0);
        let verdict = verdicts.remove(0);
        let ghost mid = *storage;
        let ghost results0 = results@;
        proof {
            assert(req == all[k]);
            assert(verdict == allv[k]);
        }
        let r = publish(
            storage,
            req.data_key,
            req.method,
            req.alias,
            req.public_key,
            req.program_id,
            req.signature,
            req.data,
            req.version,
            req.mcdata,
            verdict.enc_type,
            verdict.signature_valid,
            timestamp,
        );
        results.push(r);
        proof {
            lemma_batch_rel_snoc(
                pre,
                mid,
                *storage,
                all.take(k),
                allv.take(k),
                timestamp,
                results0,
                all[k],
                allv[k],
                results@.last(),
            );
            assert(all.take(k + 1) =~= all.take(k).push(all[k]));
            assert(allv.take(k + 1) =~= allv.take(k).push(allv[k]));
            assert(results@ =~= results0.push(results@.last()));
            assert(txs@ =~= all.skip(k + 1));
            assert(verdicts@ =~= allv.skip(k + 1));
        }
    }
    proof {
        assert(all.take(all.len() as int) =~= all);
        assert(allv.take(allv.len() as int) =~= allv);
    }
    results
}

/// Law: reading the hash that admission returned yields the one admitted
/// record, and its fields match the request — the program id and prior
/// marker as admission derived them, the version digested — with only the
/// timestamp server-assigned and the status reflecting validation.
pub proof fn lemma_publish_round_trip(
    pre: Storage,
    post: Storage,
    r: FdbResult,
    data_key: Seq<char>,
    method: Seq<char>,
    alias: Seq<char>,
    public_key: Seq<char>,
    program_id: Seq<char>,
    data: Seq<char>,
    version: Seq<char>,
    mcdata: Seq<char>,
    enc_type: Seq<char>,
    signature_valid: bool,
    timestamp: u64,
)
    requires
        publish_rel(
            pre,
            post,
            r,
            data_key,
            method,
            alias,
            public_key,
            program_id,
            data,
            version,
            mcdata,
            enc_type,
            signature_valid,
            timestamp,
        ),
        spec_find_transaction(
            pre.transactions@,
            spec_publish_hash(
                pre,
                data_key,
                method,
                alias,
                public_key,
                program_id,
                data,
                version,
                mcdata,
                enc_type,
            ),
        ) is None,
    ensures
        ({
            let h = spec_publish_hash(
                pre,
                data_key,
                method,
                alias,
                public_key,
                program_id,
                data,
                version,
                mcdata,
                enc_type,
            );
            match spec_find_transaction(post.transactions@, h) {
                Some(t) => {
                    &&& r.transaction_hash@ == h
                    &&& t.hash@ == h
                    &&& t.data_key@ == data_key
                    &&& t.method@ == method
                    &&& t.alias@ == alias
                    &&& t.public_key@ == public_key
                    &&& t.data@ == data
                    &&& t.mcdata@ == mcdata
                    &&& t.version@ == digest_of(version)
                    &&& t.program_id@ == spec_publish_program_id(
                        method,
                        program_id,
                        data,
                        public_key,
                        enc_type,
                    )
                    &&& t.timestamp == timestamp
                },
                None => false,
            }
        }),
{
    let h = spec_publish_hash(
        pre,
        data_key,
        method,
        alias,
        public_key,
        program_id,
        data,
        version,
        mcdata,
        enc_type,
    );
    let t = post.transactions@.last();
    crate::transactions_impl::lemma_find_transaction_push(pre.transactions@, t, h);
    assert(post.transactions@ == pre.transactions@.push(t));
}

/// Record one idempotent firing of a cron against a source chain
/// transaction. A missing cron is tolerated as a no-op; a non-failed firing
/// already on record for (tx_hash, address, chain, topic) blocks a second
/// one and is handed back instead; a failed firing may be retried.
pub fn send_cron_tx(
    storage: &mut Storage,
    hash: String,
    data_key: String,
    data: String,
    tx_block_number: u64,
    tx_hash: String,
    token_id: String,
    timestamp: u64,
) -> (r: FdbCronTxResult)
    requires
        old(storage).wf(),
    ensures
        final(storage).wf(),
        r.success,
        r.err_msg@ == Seq::<char>::empty(),
        final(storage).transactions@ == old(storage).transactions@,
        final(storage).metadatas@ == old(storage).metadatas@,
        final(storage).meta_contracts@ == old(storage).meta_contracts@,
        final(storage).crons@ == old(storage).crons@,
        final(storage).transaction_receipts@ == old(storage).transaction_receipts@,
        match spec_find_cron_by_hash(old(storage).crons@, hash@) {
            None => final(storage).cron_txs@ == old(storage).cron_txs@
                && r.cron_tx.tx_hash@ == Seq::<char>::empty(),
            Some(c) => match spec_find_live_cron_tx(
                old(storage).cron_txs@,
                tx_hash@,
                c.address@,
                c.chain@,
                c.topic@,
            ) {
                Some(t) => final(storage).cron_txs@ == old(storage).cron_txs@ && r.cron_tx == t,
                None => {
                    &&& final(storage).cron_txs@.len() == old(storage).cron_txs@.len() + 1
                    &&& final(storage).cron_txs@ == old(storage).cron_txs@.push(
                        final(storage).cron_txs@.last(),
                    )
                    &&& {
                        let t = final(storage).cron_txs@.last();
                        &&& t.address == c.address
                        &&& t.topic == c.topic
                        &&& t.token_type == c.token_type
                        &&& t.chain == c.chain
                        &&& t.meta_contract_id == c.meta_contract_id
                        &&& t.timestamp == timestamp
                        &&& t.tx_block_number == tx_block_number
                        &&& t.tx_hash@ == tx_hash@
                        &&& t.status == STATUS_SUCCESS
                        &&& t.data@ == data@
                        &&& t.error_text@ == Seq::<char>::empty()
                        &&& t.token_id@ == token_id@
                        &&& t.data_key@ == data_key@
                        &&& t.token_key == c.token_key
                    }
                    &&& r.cron_tx == final(storage).cron_txs@.last()
                },
            },
        },
{
    let cron = storage.get_cron_by_hash(hash);
    match cron {
        Err(_) => FdbCronTxResult {
            success: true,
            err_msg: String::new(),
            cron_tx: CronTx::default(),
        },
        Ok(cron_data) => {
            let live = storage.find_live_cron_tx(
                tx_hash.clone(),
                cron_data.address.clone(),
                cron_data.chain.clone(),
                cron_data.topic.clone(),
            );
            match live {
                Some(t) => FdbCronTxResult { success: true, err_msg: String::new(), cron_tx: t },
                None => {
                    proof {
                        crate::cron_tx::lemma_find_live_cron_tx_props(
                            storage.cron_txs@,
                            tx_hash@,
                            cron_data.address@,
                            cron_data.chain@,
                            cron_data.topic@,
                        );
                    }
                    let cron_tx = CronTx::new(
                        cron_data.address,
                        cron_data.topic,
                        cron_data.token_type,
                        cron_data.chain,
                        cron_data.meta_contract_id,
                        timestamp,
                        tx_block_number,
                        tx_hash,
                        STATUS_SUCCESS,
                        data,
                        String::new(),
                        token_id,
                        data_key,
                        cron_data.token_key,
                    );
                    let _ = storage.write_cron_tx(cron_tx.clone());
                    FdbCronTxResult { success: true, err_msg: String::new(), cron_tx }
                },
            }
        },
    }
}

/// Resolve a slot and walk its version chain back to the root, most recent
/// block first. The sequence's length is the number of successful updates
/// the slot has seen.
pub fn get_metadata_with_history(
    storage: &Storage,
    blocks: &BlockStore,
    data_key: String,
    program_id: String,
    public_key: String,
    alias: String,
    version: String,
) -> (r: Result<Vec<Block>, ServiceError>)
    requires
        blocks.wf(),
        stores_consistent(*storage, *blocks),
    ensures
        match spec_find_metadata(
            storage.metadatas@,
            data_key@,
            program_id@,
            public_key@,
            alias@,
            version@,
        ) {
            Some(m) => r matches Ok(v) && v@ =~= spec_chain(blocks.blocks@, m.cid@),
            None => r matches Err(e) && e matches ServiceError::RecordNotFound(msg) && msg@
                == "No record found"@,
        },
{
    let found = storage.get_owner_metadata(
        data_key.clone(),
        program_id.clone(),
        public_key.clone(),
        alias.clone(),
        version.clone(),
    );
    match found {
        Ok(metadata) => {
            proof {
                crate::metadatas_impl::lemma_find_metadata_props(
                    storage.metadatas@,
                    data_key@,
                    program_id@,
                    public_key@,
                    alias@,
                    version@,
                );
            }
            Ok(blocks.get_chain(metadata.cid.as_str()))
        },
        Err(e) => Err(e),
    }
}

} // verus!
