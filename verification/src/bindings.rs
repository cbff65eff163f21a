//! One request builder per node method, grouped by domain.
//!
//! Each builder fixes the method name and the exact ordered positional
//! argument list; an absent optional argument stands as an explicit null
//! in its slot.  Typed response decoders accompany the bindings whose
//! results the library models.

pub mod account;
pub mod blockchain;
pub mod governance;
pub mod loan;
pub mod masternode;
pub mod mining;
pub mod misc;
pub mod net;
pub mod poolpair;
pub mod rawtx;
pub mod server;
pub mod spv;
pub mod token;
pub mod vault;
pub mod wallet;
