//! A declarative memoization policy engine.
//!
//! Given a function and a small set of configuration options, the engine
//! defines a cache-backed variant of that function with exact semantics for
//! cache selection, key derivation, concurrency policy, success-only storage
//! of fallible results, and cache priming.
//!
//! The crate is organised around the call-time state machine
//! `CheckingCache -> Computing -> Storing -> Returning`.  The computation
//! itself is the caller's: the engine exposes the read step ([`engine::MemoCache::lookup`]),
//! the classify-and-store step ([`engine::MemoCache::finish`]) and the priming
//! step ([`engine::MemoCache::prime`]), each with a contract that pins down the
//! returned outcome and the new cache contents.

pub mod config;
pub mod engine;
pub mod key;
pub mod laws;
pub mod outcome;
pub mod single;
pub mod store;
