use metaledger::api::{
    get_metadata_with_history, publish, send_batch_transaction, send_cron_tx, CryptoVerdict,
};
use metaledger::block::BlockStore;
use metaledger::cron_tx::CronTx;
use metaledger::defaults::{
    CRON_STATUS_ENABLE, STATUS_FAILED, STATUS_PENDING, STATUS_SUCCESS,
};
use metaledger::metadatas::FinalMetadata;
use metaledger::storage_impl::{get_storage, Storage};
use metaledger::transaction::TransactionRequest;
use metaledger::validators::{
    validate_clone, validate_cron, validate_meta_contract, validate_metadata,
    validate_metadata_cron,
};

fn s(x: &str) -> String {
    x.to_string()
}

const SECP: &str = "secp256k1";
const ED: &str = "ed25519";

/// Admit a request with a classified scheme and a positive signature
/// verdict, as the host crypto service would deliver for a well-signed
/// request.
fn publish_ok(
    st: &mut Storage,
    data_key: &str,
    method: &str,
    alias: &str,
    public_key: &str,
    program_id: &str,
    data: &str,
    version: &str,
    enc: &str,
    timestamp: u64,
) -> String {
    let r = publish(
        st,
        s(data_key),
        s(method),
        s(alias),
        s(public_key),
        s(program_id),
        s("sig"),
        s(data),
        s(version),
        s(""),
        s(enc),
        true,
        timestamp,
    );
    r.transaction_hash
}

#[test]
fn invalid_method_is_recorded_failed() {
    let mut st = get_storage();
    let h = publish_ok(&mut st, "k", "bogus", "a", "pk", "p", "d", "v", SECP, 1);
    let t = st.get_transaction(h).unwrap();
    assert_eq!(t.status, STATUS_FAILED);
    assert_eq!(t.error_text, "invalid method: bogus");
}

#[test]
fn unclassifiable_key_is_recorded_failed() {
    let mut st = get_storage();
    let h = publish_ok(&mut st, "k", "metadata", "a", "pk", "p", "d", "v", "", 1);
    let t = st.get_transaction(h).unwrap();
    assert_eq!(t.status, STATUS_FAILED);
    assert_eq!(t.error_text, "invalid encryption: pk");
}

#[test]
fn unsupported_scheme_is_recorded_failed() {
    let mut st = get_storage();
    let h = publish_ok(&mut st, "k", "metadata", "a", "pk", "p", "d", "v", "rsa", 1);
    let t = st.get_transaction(h).unwrap();
    assert_eq!(t.status, STATUS_FAILED);
    assert_eq!(t.error_text, "not supported encryption type: rsa");
}

#[test]
fn metadata_without_program_id_is_rejected() {
    let mut st = get_storage();
    let h = publish_ok(&mut st, "k", "metadata", "a", "pk", "", "d", "v", ED, 1);
    let t = st.get_transaction(h).unwrap();
    assert_eq!(t.status, STATUS_FAILED);
    assert_eq!(t.error_text, "no program id");
}

// Tampering with `data` flips the host's signature verdict; admission must
// then record an invalid-signature failure, under either supported scheme.
#[test]
fn tampered_data_fails_signature_check_for_both_schemes() {
    for enc in [SECP, ED] {
        let mut st = get_storage();
        let r = publish(
            &mut st,
            s("k"),
            s("metadata"),
            s("a"),
            s("pk"),
            s("p"),
            s("sig-over-original-data"),
            s("tampered data"),
            s("v"),
            s(""),
            s(enc),
            false,
            1,
        );
        let t = st.get_transaction(r.transaction_hash).unwrap();
        assert_eq!(t.status, STATUS_FAILED);
        assert_eq!(t.error_text, "invalid signature: not owner of data_key: pk");
    }
}

#[test]
fn publish_round_trip_returns_the_request_fields() {
    let mut st = get_storage();
    let h = publish_ok(&mut st, "k1", "metadata", "al", "pk", "prog", "payload", "v1", SECP, 42);
    let t = st.get_transaction(h.clone()).unwrap();
    assert_eq!(t.hash, h);
    assert_eq!(t.data_key, "k1");
    assert_eq!(t.method, "metadata");
    assert_eq!(t.alias, "al");
    assert_eq!(t.public_key, "pk");
    assert_eq!(t.program_id, "prog");
    assert_eq!(t.data, "payload");
    assert_eq!(t.timestamp, 42);
    assert_eq!(t.status, STATUS_PENDING);
    // The version is stored as its digest.
    assert_ne!(t.version, "v1");
    assert_eq!(t.version, metaledger::hashing::hasher(s("v1")));
}

#[test]
fn duplicate_contract_is_rejected_and_program_id_is_deterministic() {
    let mut st = get_storage();
    let mut bs = BlockStore::new();
    let h1 = publish_ok(&mut st, "k", "contract", "a", "pk", "ignored", "bytecode", "v", ED, 1);
    let t1 = st.get_transaction(h1.clone()).unwrap();
    assert_eq!(t1.status, STATUS_PENDING);
    // The program id is derived from (data, public_key), not the caller's.
    assert_ne!(t1.program_id, "ignored");
    validate_meta_contract(&mut st, &mut bs, h1.clone()).unwrap();
    assert_eq!(st.get_transaction(h1.clone()).unwrap().status, STATUS_SUCCESS);
    let bound = st.get_meta_contract_by_id(t1.program_id.clone()).unwrap();
    assert_eq!(bound.public_key, "pk");

    // The same (data, public_key) under another alias derives the same
    // program id and is rejected as already recorded.
    let h2 = publish_ok(&mut st, "k", "contract", "b", "pk", "", "bytecode", "v", ED, 2);
    assert_ne!(h1, h2);
    let t2 = st.get_transaction(h2).unwrap();
    assert_eq!(t2.program_id, t1.program_id);
    assert_eq!(t2.status, STATUS_FAILED);
    assert_eq!(t2.error_text, format!("record found: {}", t1.program_id));
}

#[test]
fn metadata_scenario_fresh_slot_then_update() {
    let mut st = get_storage();
    let mut bs = BlockStore::new();

    // Publish and finalize a first value for the slot.
    let h1 = publish_ok(&mut st, "k1", "metadata", "a", "PK", "prog", "hello", "v1", SECP, 1);
    assert_eq!(st.get_transaction(h1.clone()).unwrap().status, STATUS_PENDING);
    let items = vec![FinalMetadata {
        public_key: s("PK"),
        program_id: s("prog"),
        alias: s("a"),
        content: s("hello"),
        version: s("v1"),
    }];
    validate_metadata(&mut st, &mut bs, h1.clone(), s("mc"), true, items, s("")).unwrap();
    assert_eq!(st.get_transaction(h1).unwrap().status, STATUS_SUCCESS);

    // The slot resolves to a root block holding the content.
    let slot = st
        .get_owner_metadata(s("k1"), s("prog"), s("PK"), s("a"), s("v1"))
        .unwrap();
    let block = bs.get_block(&slot.cid).unwrap();
    assert_eq!(block.content, "hello");
    assert_eq!(block.previous, "");
    let history = get_metadata_with_history(&st, &bs, s("k1"), s("prog"), s("PK"), s("a"), s("v1"))
        .unwrap();
    assert_eq!(history.len(), 1);

    // A second update chains to the first: the new head's previous is the
    // slot's pointer from before, and the history grows by one.
    let old_cid = slot.cid.clone();
    let h2 = publish_ok(&mut st, "k1", "metadata", "a", "PK", "prog", "hello2", "v1", SECP, 2);
    let items2 = vec![FinalMetadata {
        public_key: s("PK"),
        program_id: s("prog"),
        alias: s("a"),
        content: s("hello2"),
        version: s("v1"),
    }];
    validate_metadata(&mut st, &mut bs, h2, s("mc"), true, items2, s("")).unwrap();
    let slot2 = st
        .get_owner_metadata(s("k1"), s("prog"), s("PK"), s("a"), s("v1"))
        .unwrap();
    assert_ne!(slot2.cid, old_cid);
    let head = bs.get_block(&slot2.cid).unwrap();
    assert_eq!(head.content, "hello2");
    assert_eq!(head.previous, old_cid);
    let history2 =
        get_metadata_with_history(&st, &bs, s("k1"), s("prog"), s("PK"), s("a"), s("v1")).unwrap();
    assert_eq!(history2.len(), 2);
    assert_eq!(history2[0].content, "hello2");
    assert_eq!(history2[1].content, "hello");
}

#[test]
fn metadata_failure_outcome_records_the_message() {
    let mut st = get_storage();
    let mut bs = BlockStore::new();
    let h = publish_ok(&mut st, "k", "metadata", "a", "pk", "p", "d", "v", SECP, 1);
    validate_metadata(&mut st, &mut bs, h.clone(), s("mc"), false, vec![], s("it broke"))
        .unwrap();
    let t = st.get_transaction(h).unwrap();
    assert_eq!(t.status, STATUS_FAILED);
    assert_eq!(t.error_text, "it broke");

    let h2 = publish_ok(&mut st, "k2", "metadata", "a", "pk", "p", "d", "v", SECP, 1);
    validate_metadata(&mut st, &mut bs, h2.clone(), s("mc"), false, vec![], s("")).unwrap();
    assert_eq!(st.get_transaction(h2).unwrap().error_text, "Metadata not updateable");

    assert!(validate_metadata(&mut st, &mut bs, s("missing"), s("mc"), true, vec![], s(""))
        .is_err());
}

#[test]
fn metadata_cron_creates_missing_slots_only() {
    let mut st = get_storage();
    let mut bs = BlockStore::new();
    let item = FinalMetadata {
        public_key: s("pk"),
        program_id: s("p"),
        alias: s("a"),
        content: s("c1"),
        version: s("v"),
    };
    validate_metadata_cron(&mut st, &mut bs, s("k"), true, vec![item.clone()]);
    let slot = st
        .get_owner_metadata_by_datakey_and_alias(s("k"), s("pk"), s("a"))
        .unwrap();
    assert_eq!(bs.get_block(&slot.cid).unwrap().content, "c1");
    // Delivering again leaves the existing slot alone.
    let item2 = FinalMetadata { content: s("c2"), ..item };
    validate_metadata_cron(&mut st, &mut bs, s("k"), true, vec![item2]);
    let slot2 = st
        .get_owner_metadata_by_datakey_and_alias(s("k"), s("pk"), s("a"))
        .unwrap();
    assert_eq!(bs.get_block(&slot2.cid).unwrap().content, "c1");
}

fn clone_payload() -> String {
    String::from(
        "{\"origin_data_key\":\"k1\",\"origin_program_id\":\"prog\",\"origin_public_key\":\"PK\",\"origin_alias\":\"a\",\"origin_version\":\"v1\"}",
    )
}

#[test]
fn clone_scenario_forks_a_fresh_chain_root() {
    let mut st = get_storage();
    let mut bs = BlockStore::new();
    // Set the origin slot up.
    let h1 = publish_ok(&mut st, "k1", "metadata", "a", "PK", "prog", "hello", "v1", SECP, 1);
    let items = vec![FinalMetadata {
        public_key: s("PK"),
        program_id: s("prog"),
        alias: s("a"),
        content: s("hello"),
        version: s("v1"),
    }];
    validate_metadata(&mut st, &mut bs, h1, s("mc"), true, items, s("")).unwrap();

    // Admit the clone of the origin under a new data key.
    let h2 = publish_ok(&mut st, "k2", "clone", "a", "PK", "", clone_payload().as_str(), "v1", SECP, 2);
    assert_eq!(st.get_transaction(h2.clone()).unwrap().status, STATUS_PENDING);
    validate_clone(&mut st, &mut bs, h2.clone(), s("mc"), true, clone_payload(), s("")).unwrap();
    assert_eq!(st.get_transaction(h2).unwrap().status, STATUS_SUCCESS);
    let slot = st
        .get_owner_metadata(s("k2"), s("prog"), s("PK"), s("a"), s("v1"))
        .unwrap();
    let head = bs.get_block(&slot.cid).unwrap();
    // The clone re-wraps the origin's content as a fresh root.
    assert_eq!(head.content, "hello");
    assert_eq!(head.previous, "");
}

#[test]
fn clone_of_missing_origin_is_rejected_at_admission() {
    let mut st = get_storage();
    let h = publish_ok(&mut st, "k2", "clone", "a", "PK", "", clone_payload().as_str(), "v1", SECP, 1);
    let t = st.get_transaction(h).unwrap();
    assert_eq!(t.status, STATUS_FAILED);
    assert_eq!(t.error_text, "record not found: No record found");
}

#[test]
fn clone_with_a_bad_payload_is_rejected() {
    let mut st = get_storage();
    let h = publish_ok(&mut st, "k2", "clone", "a", "PK", "", "not json", "v1", SECP, 1);
    let t = st.get_transaction(h).unwrap();
    assert_eq!(t.status, STATUS_FAILED);
    assert_eq!(t.error_text, "invalid data format for method type: clone");
}

fn cron_payload(action: &str, hash: &str, status: i64) -> String {
    format!(
        "{{\"action\":\"{}\",\"address\":\"addr\",\"chain\":\"eth\",\"topic\":\"transfer\",\"token_type\":\"erc721\",\"token_key\":\"tk\",\"hash\":\"{}\",\"meta_contract_id\":\"mc\",\"node_url\":\"u\",\"status\":{}}}",
        action, hash, status
    )
}

#[test]
fn cron_create_and_update_flow() {
    let mut st = get_storage();
    // Create.
    let h1 = publish_ok(
        &mut st, "k", "cron", "a", "pk", "p", cron_payload("create", "", 1).as_str(), "v", ED, 1,
    );
    assert_eq!(st.get_transaction(h1.clone()).unwrap().status, STATUS_PENDING);
    validate_cron(&mut st, h1.clone(), cron_payload("create", "", 1)).unwrap();
    assert_eq!(st.get_transaction(h1).unwrap().status, STATUS_SUCCESS);
    let cron = st.search_cron(s("addr"), s("eth"), s("transfer")).unwrap();
    assert_eq!(cron.status, CRON_STATUS_ENABLE);
    assert_eq!(cron.public_key, "pk");

    // A duplicate create for the same unit is rejected at admission.
    let h2 = publish_ok(
        &mut st, "k", "cron", "b", "pk", "p", cron_payload("create", "", 1).as_str(), "v", ED, 2,
    );
    let t2 = st.get_transaction(h2).unwrap();
    assert_eq!(t2.status, STATUS_FAILED);
    assert_eq!(t2.error_text, "record found: addr eth transfer");

    // Toggle the status off through an update action.
    let payload = cron_payload("update_status", cron.hash.as_str(), 0);
    let h3 = publish_ok(&mut st, "k", "cron", "c", "pk", "p", payload.as_str(), "v", ED, 3);
    assert_eq!(st.get_transaction(h3.clone()).unwrap().status, STATUS_PENDING);
    validate_cron(&mut st, h3, payload).unwrap();
    assert_eq!(st.get_cron_by_hash(cron.hash.clone()).unwrap().status, 0);

    // Another owner may not touch the unit.
    let payload2 = cron_payload("update_status", cron.hash.as_str(), 1);
    let h4 = publish_ok(&mut st, "k", "cron", "d", "pk2", "p", payload2.as_str(), "v", ED, 4);
    validate_cron(&mut st, h4.clone(), payload2).unwrap();
    let t4 = st.get_transaction(h4).unwrap();
    assert_eq!(t4.status, STATUS_FAILED);
    assert_eq!(t4.error_text, "invalid owner: pk2");
}

#[test]
fn cron_with_a_bad_payload_is_rejected() {
    let mut st = get_storage();
    let h = publish_ok(&mut st, "k", "cron", "a", "pk", "p", "{}", "v", ED, 1);
    let t = st.get_transaction(h).unwrap();
    assert_eq!(t.status, STATUS_FAILED);
    assert_eq!(t.error_text, "invalid data format for method type: cron");
}

#[test]
fn cron_firing_is_idempotent() {
    let mut st = get_storage();
    let h = publish_ok(
        &mut st, "k", "cron", "a", "pk", "p", cron_payload("create", "", 1).as_str(), "v", ED, 1,
    );
    validate_cron(&mut st, h, cron_payload("create", "", 1)).unwrap();
    let cron = st.search_cron(s("addr"), s("eth"), s("transfer")).unwrap();

    // Two firings for the same source transaction leave exactly one row.
    let r1 = send_cron_tx(&mut st, cron.hash.clone(), s("k"), s("d1"), 10, s("tx1"), s("tok"), 100);
    assert!(r1.success);
    assert_eq!(r1.cron_tx.status, STATUS_SUCCESS);
    assert_eq!(st.get_all_cron_txs().unwrap().len(), 1);
    let r2 = send_cron_tx(&mut st, cron.hash.clone(), s("k"), s("d2"), 11, s("tx1"), s("tok"), 200);
    assert!(r2.success);
    assert_eq!(st.get_all_cron_txs().unwrap().len(), 1);
    // The firing handed back is the one on record.
    assert_eq!(r2.cron_tx.data, "d1");
    assert_eq!(r2.cron_tx.tx_block_number, 10);

    // A missing cron is a no-op.
    let r3 = send_cron_tx(&mut st, s("nohash"), s("k"), s("d"), 12, s("tx9"), s("tok"), 300);
    assert!(r3.success);
    assert_eq!(st.get_all_cron_txs().unwrap().len(), 1);
}

#[test]
fn failed_firing_is_retried_with_one_success_row() {
    let mut st = get_storage();
    let h = publish_ok(
        &mut st, "k", "cron", "a", "pk", "p", cron_payload("create", "", 1).as_str(), "v", ED, 1,
    );
    validate_cron(&mut st, h, cron_payload("create", "", 1)).unwrap();
    let cron = st.search_cron(s("addr"), s("eth"), s("transfer")).unwrap();

    // A failed firing is on record for the key.
    let failed = CronTx::new(
        s("addr"), s("transfer"), s("erc721"), s("eth"), s("mc"), 50, 10, s("tx1"),
        STATUS_FAILED, s(""), s("boom"), s(""), s("k"), s("tk"),
    );
    st.write_cron_tx(failed).unwrap();

    let r = send_cron_tx(&mut st, cron.hash.clone(), s("k"), s("d"), 10, s("tx1"), s("tok"), 100);
    assert!(r.success);
    assert_eq!(r.cron_tx.status, STATUS_SUCCESS);
    let all = st.get_all_cron_txs().unwrap();
    assert_eq!(all.len(), 2);
    let successes: Vec<_> = all.iter().filter(|t| t.status == STATUS_SUCCESS).collect();
    assert_eq!(successes.len(), 1);
}

#[test]
fn batch_admission_collects_one_result_per_request() {
    let mut st = get_storage();
    let reqs = vec![
        TransactionRequest {
            data_key: s("k1"),
            program_id: s("p"),
            alias: s("a"),
            public_key: s("pk"),
            signature: s("sig"),
            data: s("d1"),
            method: s("metadata"),
            version: s("v"),
            mcdata: s(""),
        },
        TransactionRequest {
            data_key: s("k2"),
            program_id: s("p"),
            alias: s("a"),
            public_key: s("pk"),
            signature: s("sig"),
            data: s("d2"),
            method: s("bogus"),
            version: s("v"),
            mcdata: s(""),
        },
    ];
    let verdicts = vec![
        CryptoVerdict { enc_type: s(SECP), signature_valid: true },
        CryptoVerdict { enc_type: s(SECP), signature_valid: true },
    ];
    let results = send_batch_transaction(&mut st, reqs, verdicts, 7);
    assert_eq!(results.len(), 2);
    assert_eq!(st.get_transaction(results[0].transaction_hash.clone()).unwrap().status, STATUS_PENDING);
    assert_eq!(st.get_transaction(results[1].transaction_hash.clone()).unwrap().status, STATUS_FAILED);
}

#[test]
fn cron_update_replaces_the_definition_but_not_the_unit() {
    let mut st = get_storage();
    let h = publish_ok(
        &mut st, "k", "cron", "a", "pk", "p", cron_payload("create", "", 1).as_str(), "v", ED, 1,
    );
    validate_cron(&mut st, h, cron_payload("create", "", 1)).unwrap();
    let cron = st.search_cron(s("addr"), s("eth"), s("transfer")).unwrap();
    assert_eq!(cron.token_type, "erc721");

    let payload = format!(
        "{{\"action\":\"update\",\"address\":\"addr\",\"chain\":\"eth\",\"topic\":\"transfer\",\"token_type\":\"erc20\",\"token_key\":\"tk2\",\"hash\":\"{}\",\"meta_contract_id\":\"mc2\",\"node_url\":\"u2\",\"status\":1}}",
        cron.hash
    );
    let h2 = publish_ok(&mut st, "k", "cron", "b", "pk", "p", payload.as_str(), "v", ED, 2);
    validate_cron(&mut st, h2.clone(), payload).unwrap();
    assert_eq!(st.get_transaction(h2).unwrap().status, STATUS_SUCCESS);
    let updated = st.get_cron_by_hash(cron.hash.clone()).unwrap();
    // The definition moved; the scheduling unit, owner and hash did not.
    assert_eq!(updated.token_type, "erc20");
    assert_eq!(updated.token_key, "tk2");
    assert_eq!(updated.meta_contract_id, "mc2");
    assert_eq!(updated.address, "addr");
    assert_eq!(updated.public_key, "pk");
    assert_eq!(updated.hash, cron.hash);
}
