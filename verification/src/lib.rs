//! Anchoring of a BFT ledger into the Bitcoin blockchain: the protocol engine.
//!
//! The validators of the ledger share a multisignature wallet. At intervals
//! they build a Bitcoin transaction that commits to the ledger's height and
//! state digest, sign it input by input, and agree on which transaction is the
//! latest anchor that Bitcoin actually holds. This crate holds the rules of
//! that protocol; reading the network and the ledger's storage is left to the
//! caller.

pub mod primitives;
pub mod config;
pub mod wallet;
pub mod transactions;
pub mod service;
