//! The decisions of a driver that runs verifier contracts through their
//! workflows on a ledger: how a contract call is encoded, how often a
//! submission is attempted, which event of a confirmed transaction a step
//! needs and what record it holds, and what each workflow submits next.
//!
//! The library computes on plain values. Signing, submitting, waiting and
//! reading the clock are left to the program that uses it.

pub mod config;
pub mod decimal;
pub mod encoding;
pub mod payload;
pub mod projection;
pub mod register_continuous_memory_page;
pub mod retry;
pub mod transaction;
pub mod u256;
pub mod verify_fri;
pub mod verify_merkle;
pub mod verify_proof_and_register;
pub mod workflow;
