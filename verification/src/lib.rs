//! A gateway between loosely typed callers and an embedded relational store.
//!
//! The crate holds the decisions of the gateway: how a dynamically typed
//! value becomes a statement binding, how a result cell of unknown type
//! becomes a dynamically typed value again, when a statement may run at all,
//! and how a batch of statements moves through its transaction. The store
//! itself is driven by the caller, who reports each outcome back.

pub mod batch;
pub mod binary64;
pub mod codec;
pub mod error;
pub mod statement;
pub mod store;
pub mod value;
