//! Decoding of btrfs metadata records from the byte pages that the kernel's
//! tree-search and logical-address queries return.
//!
//! The crate holds the pure part of that work: readers for the little-endian
//! wire layout, one decoder per record kind, and the two paging cursors as
//! state machines. Issuing the queries themselves is left to the caller.

pub mod error;
pub mod info;
pub mod item;
pub mod le;
pub mod logical_ino;
pub mod paging;
pub mod raw;
pub mod tree_search;
pub mod wire;

pub use info::SubvolInfo;
pub use logical_ino::LogicalIno;
pub use tree_search::TreeSearch;
use vstd::prelude::*;

verus! {

/// Compression applied to the data of a file extent.
#[derive(Clone, Copy, Debug, PartialEq, Eq, PartialOrd, Ord, Hash)]
pub enum Compression {
    Uncompressed,
    Zlib,
    Lzo,
    Zstd,
}

/// A 128-bit identifier of a subvolume, as stored on disk.
#[derive(Clone, Copy, Debug, PartialEq, Eq, PartialOrd, Ord, Hash)]
pub struct Uuid(pub [u8; 16]);

} // verus!
