//! Core of a juror-consensus engine for deciding fraud cases on chain.
//!
//! A registry of validators supplies jurors; a case moves from `Open`
//! through juror selection and voting to a terminal decision. Votes may be
//! cast publicly, through hash commitments revealed later, or through a
//! threshold-MPC aggregation path. The modules here hold the data model,
//! the state machine, and proofs of its central properties.

pub mod errors;
pub mod types;
pub mod sha256;
pub mod state;
pub mod lifecycle;
pub mod selection;
pub mod zk;
pub mod private_vote;
pub mod merkle;
pub mod light_compression;
pub mod evidence;
pub mod mpc;
pub mod confidential;
pub mod groth16;
