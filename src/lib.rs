//! Block synchronisation protocol of a blockchain node: the wire messages
//! exchanged with peers, the query logic that answers them from a read-only
//! view of the chain, and the dispatch decisions of the sync coordinator.

pub mod types;
pub mod chain;
pub mod process;
pub mod coordinator;
pub mod commands;
