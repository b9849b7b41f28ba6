//! Snapshots of the statistics of an environment and of a space.

use vstd::prelude::*;

verus! {

/// The statistics of an environment at one moment.
#[derive(Debug, Clone)]
pub struct EnvStats {
    /// Size of the memory map, in bytes.
    pub map_size: usize,
    /// Number of the last page in use.
    pub last_page_number: usize,
    /// Number of the last committed transaction.
    pub last_txn_id: usize,
    /// The most readers the environment admits.
    pub max_readers: u32,
    /// The readers in use.
    pub num_readers: u32,
}

/// The statistics of a space at one moment.
#[derive(Debug, Clone)]
pub struct DbStats {
    /// Size of a page, in bytes.
    pub page_size: u32,
    /// Depth of the tree.
    pub depth: u32,
    /// Number of inner pages.
    pub branch_pages: usize,
    /// Number of leaf pages.
    pub leaf_pages: usize,
    /// Number of overflow pages.
    pub overflow_pages: usize,
    /// Number of entries.
    pub entries: usize,
}

} // verus!
