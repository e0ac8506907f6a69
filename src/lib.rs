//! Lifecycle management of ephemeral cloud game servers: a registry of server
//! records, the selection of spot-priced instances, the decisions around remote
//! maintenance scripts, and the orchestration of whole operations as state
//! machines whose outside work is carried out by the caller.

pub mod error;
pub mod local_storage;
pub mod protocol;
pub mod provision;
pub mod psm;
pub mod server_status;
