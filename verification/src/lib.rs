//! Reference model of single-transaction validation for an account-based
//! rollup ledger.
//!
//! A transaction transfers an amount from a sender account to a recipient
//! account. Validating it means checking that the sender authorized the
//! transfer (a signature over sender id, recipient id and amount), that the
//! sender's balance suffices and the recipient's balance does not overflow,
//! and that both accounts are present in the ledger's Merkle tree both
//! before and after the transfer, against the tree root before and the root
//! after. The whole check is a single boolean predicate over the inputs;
//! every failure degrades to `false` rather than an abort, so predicates for
//! several transactions can be combined before being enforced.
//!
//! The concrete digest and signature primitives are consumed as opaque
//! capabilities: SHA-256 for the tree hashes and Ed25519 for signature
//! verification, each behind a single trusted boundary whose result is only
//! named, never restated.

pub mod account;
pub mod ledger;
pub mod transaction;
