//! Light-client proofs of inclusion for the IOTA ledger.
//!
//! A [`Proof`] shows that a quorum of a committee certified a checkpoint and,
//! with transaction evidence, that the checkpoint lists a transaction which
//! emitted given events and wrote given objects. [`verify_proof`] checks it with
//! nothing but the committee. Committees are either trusted or reached from a
//! trusted one by a [`walk::CommitteeWalk`], which authenticates every epoch
//! transition on the way.
//!
//! The modules, from the ground up:
//!
//! - [`bytes`], [`views`], [`text`]: byte strings, views and numerals,
//! - [`sdk`]: what the IOTA SDK computes on encoded chain data,
//! - [`committee`], [`checkpoint`], [`transaction`], [`object`]: chain data,
//! - [`proofs`]: the proof model and its verifier,
//! - [`response`]: chain data and proofs from what a node serves,
//! - [`walk`]: from a trusted committee to that of a later epoch,
//! - [`error`], [`cli`]: what the user is told,
//! - [`laws`]: what holds of proofs and walks as a whole,
//! - [`guarantees`]: what each verdict and each decoded value is, down to the names
//!   of what the SDK computes,
//! - [`operations`]: what each call does, from its arguments to its result.

pub mod bytes;
pub mod checkpoint;
pub mod cli;
pub mod committee;
pub mod error;
pub mod guarantees;
pub mod laws;
pub mod object;
pub mod operations;
pub mod proofs;
pub mod response;
pub mod sdk;
pub mod text;
pub mod transaction;
pub mod views;
pub mod walk;

pub use proofs::{verify_proof, Proof, ProofTargets, TransactionProof};
