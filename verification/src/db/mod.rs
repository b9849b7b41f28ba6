//! Access to the spaces of an environment: ordering, reading, querying,
//! mutation records and statistics.

pub mod env;
pub mod kv;
pub mod order;
pub mod parser;
pub mod query;
pub mod stats;
pub mod txn;
pub mod undo;
