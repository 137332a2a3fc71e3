//! A client's side of a token ledger: what to put into a transaction for an
//! operation on a mint or a token account, and in which order.
//!
//! The library computes; it does not talk to the network. A `Token` handle
//! names a mint and its token program. Its operations give the instructions
//! of a transaction, `construct_tx` puts a memo before them and a compute
//! budget behind them and says who signs, and the operations on confidential
//! balances lay out the transactions that carry a transfer's proofs into
//! context accounts. What is read from the ledger comes in as plain values,
//! and what is to be sent goes out as plain values.
//!
//! Instructions are encoded, accounts decoded, and proofs made by the
//! ledger's own crates. Each such call stands in a small function whose
//! contract says what is taken on trust; everything around it is proved.
pub mod account;
pub mod basic;
pub mod blockhash;
pub mod confidential;
pub mod confidential_ops;
pub mod confidential_settings;
pub mod encode;
pub mod error;
pub mod extensions;
pub mod holding;
pub mod instruction;
pub mod metadata;
pub mod mint;
pub mod optional_keys;
pub mod programs;
pub mod proof_generation;
pub mod proofs;
pub mod pubkey;
pub mod signers;
pub mod split_proofs;
pub mod state;
pub mod token;
pub mod transfer;
