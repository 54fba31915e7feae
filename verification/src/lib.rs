//! A verified engagement ledger for a live-chat audience.
//!
//! Every chat message a viewer sends is folded into a per-viewer record of
//! cumulative watch time and an in-app currency. The crate holds the rules of
//! that bookkeeping, an in-memory table of viewers with a composable query
//! over it, and the request handlers of the lookup service built on both.

pub mod sequences;
pub mod time;
pub mod user;
pub mod accrual;
pub mod store;
pub mod ingest;
pub mod query;
pub mod directory;
pub mod service;
pub mod subscription;
