//! A decentralized metadata and transaction ledger.
//!
//! Clients submit signed state-change requests that the admission pipeline
//! validates and durably records as transactions under content-derived
//! hashes; an out-of-band computation later confirms them, and the
//! finalization handlers commit the result — a content block in the
//! content-addressable store plus an index update — flipping each
//! transaction to its final status. Metadata lives in slots whose pointer
//! always names the head of a singly-linked, content-addressed version
//! chain; a cron subsystem layers idempotent scheduled firings on top of
//! the same ledger.
//!
//! The relational index and the content store are modelled in memory with
//! exact contracts; the host crypto verifier and the wall clock stay
//! outside, their verdicts and readings handed in as arguments.
pub mod defaults;
pub mod error;
pub mod strutil;
pub mod decimal;
pub mod hashing;
pub mod transaction;
pub mod metadatas;
pub mod meta_contract;
pub mod cron;
pub mod cron_tx;
pub mod data_types;
pub mod storage_impl;
pub mod transactions_impl;
pub mod metadatas_impl;
pub mod meta_contract_impl;
pub mod transaction_receipt;
pub mod block;
pub mod result;
pub mod api;
pub mod validators;
