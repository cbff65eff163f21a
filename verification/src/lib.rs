//! Typed client bindings for a blockchain node's JSON-RPC interface.
//!
//! Each binding fixes a node method name together with the exact ordered
//! positional parameter list, and the data-transfer types mirror the node's
//! JSON shapes field for field.  Requests are built and responses decoded
//! over an explicit JSON tree, so the wire layout of every call is stated
//! in the contracts and checked.

pub mod account;
pub mod bindings;
pub mod blockchain;
pub mod common;
pub mod envelope;
pub mod governance;
pub mod hex;
pub mod interop;
pub mod loan;
pub mod mining;
pub mod poolpair;
pub mod queryable;
pub mod token;
pub mod value;
pub mod vault;
