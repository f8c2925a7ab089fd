//! A policy engine that decides whether a subject may take part in a gated
//! action, against allow-lists and block-lists kept either as per-subject
//! records or as a sparse Merkle root.
pub mod accounts;
pub mod address;
pub mod error;
pub mod hook;
pub mod instructions;
pub mod laws;
pub mod codec;
pub mod digest;
pub mod merkle;
pub mod state;
