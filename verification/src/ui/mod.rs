//! What the views show, as far as it is computed from plain values.

pub mod help;
pub mod preview;
pub mod query;
pub mod status;
