//! The GPANG network ledger: token accounting, gas metering, zero-proof
//! checks, smart-contract and custom-token records, task proofs and rewards.
pub mod table;
pub mod types;
pub mod text;
pub mod statement;
pub mod zero_proof;
pub mod arith;
pub mod ledger;
pub mod transfers;
pub mod tokens;
pub mod contracts;
pub mod tasks;
pub mod execution;
pub mod rewards;
pub mod chat;
pub mod consensus;
pub mod registry;
pub mod supply;
pub mod laws;
pub mod genesis;
pub mod summary;
pub mod parse;
pub mod payer;
pub mod requests;
