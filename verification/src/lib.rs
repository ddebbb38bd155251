//! Transaction submission and confirmation engine for a remote ledger.
//!
//! The crate normalizes every lower-level failure into a closed error
//! taxonomy, abstracts the remote ledger behind a small RPC capability,
//! and drives an unsigned transaction through blockhash stamping,
//! external signing, submission, and bounded polling to one terminal
//! outcome.

pub mod error;
pub mod types;
pub mod codec;
pub mod rpc;
pub mod poller;
pub mod submit;
pub mod wallet;
