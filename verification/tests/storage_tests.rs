use metaledger::block::BlockStore;
use metaledger::cron::Cron;
use metaledger::cron_tx::CronTx;
use metaledger::defaults::{
    CRON_STATUS_DISABLE, CRON_STATUS_ENABLE, STATUS_FAILED, STATUS_PENDING, STATUS_SUCCESS,
};
use metaledger::error::ServiceError;
use metaledger::hashing::hasher;
use metaledger::metadatas::Metadata;
use metaledger::meta_contract::MetaContract;
use metaledger::storage_impl::{get_storage, RQLiteResult, Row};
use metaledger::transaction::{Transaction, TransactionSubset};

fn s(x: &str) -> String {
    x.to_string()
}

#[test]
fn hasher_is_deterministic_and_changes_its_input() {
    let a = hasher(s("hello"));
    let b = hasher(s("hello"));
    let c = hasher(s("hello!"));
    assert_eq!(a, b);
    assert_ne!(a, c);
    assert_ne!(a, "hello");
    assert!(a.len() > 0);
}

#[test]
fn error_texts_carry_their_kind() {
    assert_eq!(
        ServiceError::InvalidMethod(s("bogus")).text(),
        "invalid method: bogus"
    );
    assert_eq!(
        ServiceError::RecordNotFound(s("No record found")).text(),
        "record not found: No record found"
    );
    assert_eq!(ServiceError::NoProgramId.text(), "no program id");
}

#[test]
fn transaction_identity_ignores_timestamp() {
    let t1 = Transaction::new(
        s("pid"), s(""), s(""), s("k"), s("d"), s("pk"), s("a"), 1, s("metadata"), s("v"),
        s("m"), s(""),
    );
    let t2 = Transaction::new(
        s("pid"), s(""), s(""), s("k"), s("d"), s("pk"), s("a"), 999, s("metadata"), s("v"),
        s("m"), s(""),
    );
    assert_eq!(t1.hash, t2.hash);
    assert_eq!(t1.status, STATUS_PENDING);
    let t3 = Transaction::new(
        s("pid"), s(""), s(""), s("k"), s("d2"), s("pk"), s("a"), 1, s("metadata"), s("v"),
        s("m"), s(""),
    );
    assert_ne!(t1.hash, t3.hash);
}

#[test]
fn write_transaction_keeps_the_first_record() {
    let mut st = get_storage();
    let t1 = Transaction::new(
        s("p"), s(""), s(""), s("k"), s("d"), s("pk"), s("a"), 5, s("metadata"), s("v"), s(""),
        s(""),
    );
    let hash = t1.hash.clone();
    st.write_transaction(t1).unwrap();
    let mut t2 = Transaction::new(
        s("p"), s(""), s(""), s("k"), s("d"), s("pk"), s("a"), 6, s("metadata"), s("v"), s(""),
        s(""),
    );
    t2.status = STATUS_FAILED;
    st.write_transaction(t2).unwrap();
    let read_back = st.get_transaction(hash).unwrap();
    assert_eq!(read_back.timestamp, 5);
    assert_eq!(read_back.status, STATUS_PENDING);
}

#[test]
fn update_transaction_status_flips_in_place() {
    let mut st = get_storage();
    let t = Transaction::new(
        s("p"), s(""), s(""), s("k"), s("d"), s("pk"), s("a"), 5, s("metadata"), s("v"), s(""),
        s(""),
    );
    let hash = t.hash.clone();
    st.write_transaction(t).unwrap();
    st.update_transaction_status(hash.clone(), STATUS_SUCCESS, s(""))
        .unwrap();
    assert_eq!(st.get_transaction(hash).unwrap().status, STATUS_SUCCESS);
    assert!(st
        .update_transaction_status(s("missing"), STATUS_FAILED, s(""))
        .is_err());
}

#[test]
fn pending_and_success_filters() {
    let mut st = get_storage();
    let t1 = Transaction::new(
        s("p"), s(""), s(""), s("k1"), s("d"), s("pk"), s("a"), 10, s("metadata"), s("v"),
        s(""), s(""),
    );
    let h1 = t1.hash.clone();
    let t2 = Transaction::new(
        s("p"), s(""), s(""), s("k2"), s("d"), s("pk"), s("a"), 20, s("metadata"), s("v"),
        s(""), s(""),
    );
    st.write_transaction(t1).unwrap();
    st.write_transaction(t2).unwrap();
    assert_eq!(st.get_pending_transactions().unwrap().len(), 2);
    st.update_transaction_status(h1, STATUS_SUCCESS, s("")).unwrap();
    assert_eq!(st.get_pending_transactions().unwrap().len(), 1);
    let succ = st.get_success_transactions(0, 100).unwrap();
    assert_eq!(succ.len(), 1);
    assert_eq!(succ[0].data_key, "k1");
    assert_eq!(st.get_success_transactions(11, 100).unwrap().len(), 0);
}

#[test]
fn metadata_slot_is_keyed_by_its_five_fields() {
    let mut st = get_storage();
    let m = Metadata::new(s("k"), s("p"), s("a"), s("0"), s("pk"), s("v"), false);
    st.write_metadata(m).unwrap();
    // A second write under the same key is dropped.
    let m2 = Metadata::new(s("k"), s("p"), s("a"), s("9"), s("pk"), s("v"), false);
    st.write_metadata(m2).unwrap();
    let got = st
        .get_owner_metadata(s("k"), s("p"), s("pk"), s("a"), s("v"))
        .unwrap();
    assert_eq!(got.cid, "0");
    // A different alias is a different slot.
    let m3 = Metadata::new(s("k"), s("p"), s("b"), s("1"), s("pk"), s("v"), false);
    st.write_metadata(m3).unwrap();
    assert_eq!(st.get_metadata_by_datakey_and_version(s("k"), s("v")).unwrap().len(), 2);
    assert!(st
        .get_owner_metadata(s("k"), s("p"), s("pk"), s("c"), s("v"))
        .is_err());
}

#[test]
fn update_cid_moves_the_pointer() {
    let mut st = get_storage();
    let m = Metadata::new(s("k"), s("p"), s("a"), s("0"), s("pk"), s("v"), false);
    st.write_metadata(m).unwrap();
    st.update_cid(s("k"), s("p"), s("a"), s("pk"), s("5"), s("v"))
        .unwrap();
    let got = st
        .get_owner_metadata(s("k"), s("p"), s("pk"), s("a"), s("v"))
        .unwrap();
    assert_eq!(got.cid, "5");
}

#[test]
fn meta_contract_rows_are_immutable() {
    let mut st = get_storage();
    st.write_meta_contract(MetaContract {
        program_id: s("p1"),
        public_key: s("pk1"),
        cid: s("0"),
    })
    .unwrap();
    st.write_meta_contract(MetaContract {
        program_id: s("p1"),
        public_key: s("pk2"),
        cid: s("1"),
    })
    .unwrap();
    let got = st.get_meta_contract_by_id(s("p1")).unwrap();
    assert_eq!(got.public_key, "pk1");
    assert_eq!(got.cid, "0");
    assert!(st.get_meta_contract(s("p2")).is_err());
}

#[test]
fn cron_rows_are_keyed_by_their_scheduling_unit() {
    let mut st = get_storage();
    let c = Cron::new(
        s("tk"), s("addr"), s("topic"), s("erc721"), s("eth"), CRON_STATUS_DISABLE, s("mc"),
        s("url"), s("pk"),
    );
    let hash = c.hash.clone();
    st.write_cron(c).unwrap();
    // Writes force the enabled status.
    assert_eq!(st.get_cron_by_hash(hash.clone()).unwrap().status, CRON_STATUS_ENABLE);
    // A second write under the same unit is dropped.
    let c2 = Cron::new(
        s("tk2"), s("addr"), s("topic"), s("erc20"), s("eth"), CRON_STATUS_ENABLE, s("mc2"),
        s("url"), s("pk2"),
    );
    st.write_cron(c2).unwrap();
    assert_eq!(st.get_all_crons().unwrap().len(), 1);
    assert_eq!(st.search_cron(s("addr"), s("eth"), s("topic")).unwrap().token_key, "tk");
    // Status toggles.
    st.update_cron_status(hash.clone(), CRON_STATUS_DISABLE).unwrap();
    assert_eq!(st.get_enabled_crons().unwrap().len(), 0);
    st.update_cron_status(hash.clone(), CRON_STATUS_ENABLE).unwrap();
    assert_eq!(st.get_enabled_crons().unwrap().len(), 1);
    // Enable and disable by bound program.
    st.cron_disable(s("mc")).unwrap();
    assert_eq!(st.get_cron_by_program_id(s("mc")).unwrap().status, CRON_STATUS_DISABLE);
    st.cron_enable(s("mc")).unwrap();
    assert_eq!(st.get_cron_by_program_id(s("mc")).unwrap().status, CRON_STATUS_ENABLE);
}

#[test]
fn cron_tx_latest_block_takes_the_maximum() {
    let mut st = get_storage();
    for (block, status) in [(5u64, STATUS_SUCCESS), (9, STATUS_FAILED), (7, STATUS_FAILED)] {
        let tx = CronTx::new(
            s("addr"), s("topic"), s("t"), s("eth"), s("mc"), 0, block,
            format!("tx{}", block), status, s(""), s(""), s(""), s("k"), s("tk"),
        );
        st.write_cron_tx(tx).unwrap();
    }
    let latest = st.get_cron_tx_latest_block(s("addr"), s("eth"), s("topic")).unwrap();
    assert_eq!(latest.tx_block_number, 9);
    assert_eq!(st.search_cron_tx(s("addr"), s("eth"), s("topic")).unwrap().len(), 3);
    assert_eq!(st.get_all_cron_txs().unwrap().len(), 3);
    assert!(st.get_cron_tx_latest_block(s("other"), s("eth"), s("topic")).is_err());
    let one = st
        .get_cron_tx_by_tx_hash(s("tx5"), s("addr"), s("eth"), s("topic"))
        .unwrap();
    assert_eq!(one.tx_block_number, 5);
}

#[test]
fn row_decoders_accept_their_shape_only() {
    let m = Metadata::new(s("k"), s("p"), s("a"), s("0"), s("pk"), s("v"), false);
    let result = RQLiteResult {
        last_insert_id: None,
        rows_affected: Some(1),
        error: None,
        rows: Some(vec![Row::Metadata(m)]),
    };
    let decoded = metaledger::metadatas_impl::read(result).unwrap();
    assert_eq!(decoded.len(), 1);
    assert_eq!(decoded[0].data_key, "k");

    let mixed = RQLiteResult {
        last_insert_id: None,
        rows_affected: None,
        error: None,
        rows: Some(vec![Row::MetaContract(MetaContract {
            program_id: s("p"),
            public_key: s("pk"),
            cid: s("0"),
        })]),
    };
    assert!(metaledger::metadatas_impl::read(mixed).is_err());
}

#[test]
fn block_store_resolves_and_walks_chains() {
    let mut bs = BlockStore::new();
    let subset = TransactionSubset {
        hash: s("h"),
        timestamp: 0,
        meta_contract_id: s("mc"),
        method: s("metadata"),
        value: s(""),
    };
    let c0 = bs.put_block(s("one"), s(""), subset.clone(), 1);
    assert_eq!(c0, "0");
    let c1 = bs.put_block(s("two"), c0.clone(), subset.clone(), 2);
    assert_eq!(c1, "1");
    let b1 = bs.get_block(&c1).unwrap();
    assert_eq!(b1.content, "two");
    assert_eq!(b1.previous, "0");
    assert!(bs.get_block("9").is_none());
    assert!(bs.get_block("x").is_none());
    let chain = bs.get_chain(&c1);
    assert_eq!(chain.len(), 2);
    assert_eq!(chain[0].content, "two");
    assert_eq!(chain[1].content, "one");
    assert_eq!(chain[1].previous, "");
}

#[test]
fn transaction_receipts_are_keyed_by_hash() {
    let mut st = get_storage();
    let r1 = metaledger::transaction::TransactionReceipt {
        hash: s("h1"),
        program_id: s("p"),
        status: STATUS_SUCCESS,
        timestamp: 9,
        error_text: s(""),
        data: s("out"),
    };
    assert_eq!(st.write_transaction_receipt(r1).unwrap(), "h1");
    // A second write under the same hash is dropped.
    let r2 = metaledger::transaction::TransactionReceipt {
        hash: s("h1"),
        program_id: s("p2"),
        status: STATUS_FAILED,
        timestamp: 10,
        error_text: s("boom"),
        data: s(""),
    };
    st.write_transaction_receipt(r2).unwrap();
    let got = st.get_transaction_receipt(s("h1")).unwrap();
    assert_eq!(got.program_id, "p");
    assert_eq!(got.status, STATUS_SUCCESS);
    assert!(st.get_transaction_receipt(s("h2")).is_err());
}

#[test]
fn wrapped_try_runs_its_closure() {
    let v = metaledger::api::wrapped_try(|| 41 + 1);
    assert_eq!(v, 42);
}
