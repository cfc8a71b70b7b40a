//! Verified protocol core of a multi-tenant JavaScript worker runtime.
//!
//! The crate holds the bookkeeping and decision logic of an isolate thread
//! pool and of a per-app execution context. Engine calls, threads, channels
//! and timers are performed by the embedding program; every decision about
//! what to do next is taken here and carries a proved contract.

pub mod clients;
pub mod context;
pub mod ctx;
pub mod isolate;
pub mod native;
pub mod pool;
pub mod worker;
