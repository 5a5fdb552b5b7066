//! Typed client-side model of a ledger node's JSON-RPC interface.
//!
//! The crate maps typed request parameters to JSON-RPC request envelopes and
//! JSON-RPC replies to typed responses. Every mapping is stated as a
//! specification function over a mathematical model of JSON values, and the
//! executable code is proved against it.

#![allow(non_snake_case)]

pub mod account;
pub mod account_info;
pub mod account_tx;
pub mod balance;
pub mod codec;
pub mod decimal;
pub mod integer;
pub mod json;
pub mod ledger;
pub mod ledger_index;
pub mod params;
pub mod rpc;
pub mod text;
