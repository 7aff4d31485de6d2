//! `proof_wire` — the byte-level contract shared by the exchange engine and
//! its clients: the action, event and query types, the ABCI event encoding,
//! the `ExecError` code table and the trigger-policy wire payloads.

pub mod abci_event;
pub mod bytes;
pub mod query;
pub mod render;
pub mod text;
pub mod triggers;
pub mod types;
