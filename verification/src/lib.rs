//! Verified conversions between the two trace schemas of an Ethereum node
//! middleware: the schema of the `ethers` client library and the schema of the
//! `reth` node. Both schemas are modelled here by plain data types; the
//! conversions between them are proved against exact specifications, and the
//! round trips between the two schemas are stated and proved as laws.
pub mod primitives;
pub mod convert;
pub mod diff;
pub mod action;
pub mod output;
pub mod transaction_trace;
pub mod vm_trace;
pub mod state_diff;
pub mod block_trace;
pub mod geth;
pub mod error;
