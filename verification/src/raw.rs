//! The fixed layouts that the kernel writes into a page.
//!
//! Each structure here mirrors one packed structure of the btrfs interface,
//! field for field, with its size in bytes. `spec_at` says what the structure
//! at an offset of a byte sequence holds; `read_at` computes it. All fields
//! are little-endian and none is aligned.

use crate::wire::{
    fits, le_block16, le_u16, le_u32, le_u64, le_u8, read_block16, read_u16, read_u32, read_u64,
    read_u8,
};
use vstd::prelude::*;

verus! {

/// The magic number shared by all btrfs ioctl requests.
pub const BTRFS_IOCTL_MAGIC: u8 = 0x94;

/// Request number of the tree search with a caller-sized buffer.
pub const TREE_SEARCH_V2_NR: u8 = 17;

/// Request number of the logical-address resolution.
pub const LOGICAL_INO_NR: u8 = 36;

/// Request number of the subvolume information probe.
pub const GET_SUBVOL_INFO_NR: u8 = 60;

/// Size of the buffer handed to a page request, in bytes.
pub const IOCTL_BUFF_SIZE: usize = 65536;

pub const SEARCH_HEADER_SIZE: usize = 32;

pub const DISK_KEY_SIZE: usize = 17;

pub const TIMESPEC_SIZE: usize = 12;

pub const INODE_ITEM_SIZE: usize = 160;

pub const INODE_REF_SIZE: usize = 10;

pub const ROOT_ITEM_SIZE: usize = 439;

pub const ROOT_REF_SIZE: usize = 18;

pub const DIR_ITEM_SIZE: usize = 30;

/// Size of the part of a file extent item that both of its shapes share.
pub const FILE_EXTENT_HEAD_SIZE: usize = 21;

pub const FILE_EXTENT_ITEM_SIZE: usize = 53;

pub const FREE_SPACE_HEADER_SIZE: usize = 41;

pub const BLOCK_GROUP_ITEM_SIZE: usize = 24;

/// The header that precedes every record of a tree-search page.
#[derive(Clone, Copy, Debug, PartialEq, Eq)]
pub struct SearchHeader {
    pub transid: u64,
    pub objectid: u64,
    pub offset: u64,
    pub type_: u32,
    pub len: u32,
}

/// A key as it is stored inside another item.
#[derive(Clone, Copy, Debug, PartialEq, Eq)]
pub struct RawDiskKey {
    pub objectid: u64,
    pub type_: u8,
    pub offset: u64,
}

/// A point in time: whole seconds and the nanoseconds beyond them.
#[derive(Clone, Copy, Debug, PartialEq, Eq)]
pub struct RawTimespec {
    pub sec: u64,
    pub nsec: u32,
}

#[derive(Clone, Copy, Debug, PartialEq, Eq)]
pub struct RawInodeItem {
    pub generation: u64,
    pub transid: u64,
    pub size: u64,
    pub nbytes: u64,
    pub block_group: u64,
    pub nlink: u32,
    pub uid: u32,
    pub gid: u32,
    pub mode: u32,
    pub rdev: u64,
    pub flags: u64,
    pub sequence: u64,
    pub atime: RawTimespec,
    pub ctime: RawTimespec,
    pub mtime: RawTimespec,
    pub otime: RawTimespec,
}

/// The fixed part of an inode back-reference; the name follows it.
#[derive(Clone, Copy, Debug, PartialEq, Eq)]
pub struct RawInodeRef {
    pub index: u64,
    pub name_len: u16,
}

#[derive(Clone, Copy, Debug, PartialEq, Eq)]
pub struct RawRootItem {
    pub inode: RawInodeItem,
    pub generation: u64,
    pub root_dirid: u64,
    pub bytenr: u64,
    pub byte_limit: u64,
    pub bytes_used: u64,
    pub last_snapshot: u64,
    pub flags: u64,
    pub refs: u32,
    pub drop_progress: RawDiskKey,
    pub drop_level: u8,
    pub level: u8,
    pub generation_v2: u64,
    pub uuid: [u8; 16],
    pub parent_uuid: [u8; 16],
    pub received_uuid: [u8; 16],
    pub ctransid: u64,
    pub otransid: u64,
    pub stransid: u64,
    pub rtransid: u64,
    pub ctime: RawTimespec,
    pub otime: RawTimespec,
    pub stime: RawTimespec,
    pub rtime: RawTimespec,
}

/// The fixed part of a root reference; the name follows it.
#[derive(Clone, Copy, Debug, PartialEq, Eq)]
pub struct RawRootRef {
    pub dirid: u64,
    pub sequence: u64,
    pub name_len: u16,
}

/// The fixed part of a directory entry; the name and then the value follow.
#[derive(Clone, Copy, Debug, PartialEq, Eq)]
pub struct RawDirItem {
    pub location: RawDiskKey,
    pub transid: u64,
    pub data_len: u16,
    pub name_len: u16,
    pub type_: u8,
}

/// The fields that every file extent item starts with.
#[derive(Clone, Copy, Debug, PartialEq, Eq)]
pub struct RawFileExtentHead {
    pub generation: u64,
    pub ram_bytes: u64,
    pub compression: u8,
    pub encryption: u8,
    pub other_encoding: u16,
    pub type_: u8,
}

/// A file extent item that refers to an extent on disk.
#[derive(Clone, Copy, Debug, PartialEq, Eq)]
pub struct RawFileExtentItem {
    pub head: RawFileExtentHead,
    pub disk_bytenr: u64,
    pub disk_num_bytes: u64,
    pub offset: u64,
    pub num_bytes: u64,
}

#[derive(Clone, Copy, Debug, PartialEq, Eq)]
pub struct RawFreeSpaceHeader {
    pub location: RawDiskKey,
    pub generation: u64,
    pub num_entries: u64,
    pub num_bitmaps: u64,
}

#[derive(Clone, Copy, Debug, PartialEq, Eq)]
pub struct RawBlockGroupItem {
    pub used: u64,
    pub chunk_objectid: u64,
    pub flags: u64,
}

impl SearchHeader {
    /// The header whose 32 bytes start at `at`.
    pub open spec fn spec_at(s: Seq<u8>, at: int) -> Self {
        SearchHeader {
            transid: le_u64(s, at),
            objectid: le_u64(s, at + 8),
            offset: le_u64(s, at + 16),
            type_: le_u32(s, at + 24),
            len: le_u32(s, at + 28),
        }
    }

    /// The header at the start of `buf`; `None` if `buf` is too short to hold
    /// one.
    pub fn parse(buf: &[u8]) -> (r: Option<Self>)
        ensures
            r == (if buf@.len() >= SEARCH_HEADER_SIZE {
                Some(Self::spec_at(buf@, 0))
            } else {
                None
            }),
    {
        if buf.len() >= SEARCH_HEADER_SIZE {
            Some(Self::read_at(buf, 0))
        } else {
            None
        }
    }

    /// Reads the structure that starts at `at`.
    pub(crate) fn read_at(buf: &[u8], at: usize) -> (r: Self)
        requires
            fits(buf@.len(), at as int, SEARCH_HEADER_SIZE as int),
        ensures
            r == Self::spec_at(buf@, at as int),
    {
        assert(buf@.len() == buf.len());
        SearchHeader {
            transid: read_u64(buf, at),
            objectid: read_u64(buf, at + 8),
            offset: read_u64(buf, at + 16),
            type_: read_u32(buf, at + 24),
            len: read_u32(buf, at + 28),
        }
    }
}

impl RawDiskKey {
    /// The key whose 17 bytes start at `at`.
    pub open spec fn spec_at(s: Seq<u8>, at: int) -> Self {
        RawDiskKey { objectid: le_u64(s, at), type_: le_u8(s, at + 8), offset: le_u64(s, at + 9) }
    }

    /// The key at the start of `buf`; `None` if `buf` is too short to hold
    /// one.
    pub fn parse(buf: &[u8]) -> (r: Option<Self>)
        ensures
            r == (if buf@.len() >= DISK_KEY_SIZE {
                Some(Self::spec_at(buf@, 0))
            } else {
                None
            }),
    {
        if buf.len() >= DISK_KEY_SIZE {
            Some(Self::read_at(buf, 0))
        } else {
            None
        }
    }

    /// Reads the structure that starts at `at`.
    pub(crate) fn read_at(buf: &[u8], at: usize) -> (r: Self)
        requires
            fits(buf@.len(), at as int, DISK_KEY_SIZE as int),
        ensures
            r == Self::spec_at(buf@, at as int),
    {
        assert(buf@.len() == buf.len());
        RawDiskKey {
            objectid: read_u64(buf, at),
            type_: read_u8(buf, at + 8),
            offset: read_u64(buf, at + 9),
        }
    }
}

impl RawTimespec {
    /// The time whose 12 bytes start at `at`.
    pub open spec fn spec_at(s: Seq<u8>, at: int) -> Self {
        RawTimespec { sec: le_u64(s, at), nsec: le_u32(s, at + 8) }
    }

    /// The time at the start of `buf`; `None` if `buf` is too short to hold
    /// one.
    pub fn parse(buf: &[u8]) -> (r: Option<Self>)
        ensures
            r == (if buf@.len() >= TIMESPEC_SIZE {
                Some(Self::spec_at(buf@, 0))
            } else {
                None
            }),
    {
        if buf.len() >= TIMESPEC_SIZE {
            Some(Self::read_at(buf, 0))
        } else {
            None
        }
    }

    /// Reads the structure that starts at `at`.
    pub(crate) fn read_at(buf: &[u8], at: usize) -> (r: Self)
        requires
            fits(buf@.len(), at as int, TIMESPEC_SIZE as int),
        ensures
            r == Self::spec_at(buf@, at as int),
    {
        assert(buf@.len() == buf.len());
        RawTimespec { sec: read_u64(buf, at), nsec: read_u32(buf, at + 8) }
    }
}

impl RawInodeItem {
    /// The inode item whose 160 bytes start at `at`. Four reserved words lie
    /// between `sequence` and the times.
    pub open spec fn spec_at(s: Seq<u8>, at: int) -> Self {
        RawInodeItem {
            generation: le_u64(s, at),
            transid: le_u64(s, at + 8),
            size: le_u64(s, at + 16),
            nbytes: le_u64(s, at + 24),
            block_group: le_u64(s, at + 32),
            nlink: le_u32(s, at + 40),
            uid: le_u32(s, at + 44),
            gid: le_u32(s, at + 48),
            mode: le_u32(s, at + 52),
            rdev: le_u64(s, at + 56),
            flags: le_u64(s, at + 64),
            sequence: le_u64(s, at + 72),
            atime: RawTimespec::spec_at(s, at + 112),
            ctime: RawTimespec::spec_at(s, at + 124),
            mtime: RawTimespec::spec_at(s, at + 136),
            otime: RawTimespec::spec_at(s, at + 148),
        }
    }

    /// The inode item at the start of `buf`; `None` if `buf` is too short to hold
    /// one.
    pub fn parse(buf: &[u8]) -> (r: Option<Self>)
        ensures
            r == (if buf@.len() >= INODE_ITEM_SIZE {
                Some(Self::spec_at(buf@, 0))
            } else {
                None
            }),
    {
        if buf.len() >= INODE_ITEM_SIZE {
            Some(Self::read_at(buf, 0))
        } else {
            None
        }
    }

    /// Reads the structure that starts at `at`.
    pub(crate) fn read_at(buf: &[u8], at: usize) -> (r: Self)
        requires
            fits(buf@.len(), at as int, INODE_ITEM_SIZE as int),
        ensures
            r == Self::spec_at(buf@, at as int),
    {
        assert(buf@.len() == buf.len());
        RawInodeItem {
            generation: read_u64(buf, at),
            transid: read_u64(buf, at + 8),
            size: read_u64(buf, at + 16),
            nbytes: read_u64(buf, at + 24),
            block_group: read_u64(buf, at + 32),
            nlink: read_u32(buf, at + 40),
            uid: read_u32(buf, at + 44),
            gid: read_u32(buf, at + 48),
            mode: read_u32(buf, at + 52),
            rdev: read_u64(buf, at + 56),
            flags: read_u64(buf, at + 64),
            sequence: read_u64(buf, at + 72),
            atime: RawTimespec::read_at(buf, at + 112),
            ctime: RawTimespec::read_at(buf, at + 124),
            mtime: RawTimespec::read_at(buf, at + 136),
            otime: RawTimespec::read_at(buf, at + 148),
        }
    }
}

impl RawInodeRef {
    /// The back-reference whose 10 fixed bytes start at `at`.
    pub open spec fn spec_at(s: Seq<u8>, at: int) -> Self {
        RawInodeRef { index: le_u64(s, at), name_len: le_u16(s, at + 8) }
    }

    /// The fixed part of a back-reference at the start of `buf`; `None` if `buf` is too short to hold
    /// one.
    pub fn parse(buf: &[u8]) -> (r: Option<Self>)
        ensures
            r == (if buf@.len() >= INODE_REF_SIZE {
                Some(Self::spec_at(buf@, 0))
            } else {
                None
            }),
    {
        if buf.len() >= INODE_REF_SIZE {
            Some(Self::read_at(buf, 0))
        } else {
            None
        }
    }

    /// Reads the structure that starts at `at`.
    pub(crate) fn read_at(buf: &[u8], at: usize) -> (r: Self)
        requires
            fits(buf@.len(), at as int, INODE_REF_SIZE as int),
        ensures
            r == Self::spec_at(buf@, at as int),
    {
        assert(buf@.len() == buf.len());
        RawInodeRef { index: read_u64(buf, at), name_len: read_u16(buf, at + 8) }
    }
}

impl RawRootItem {
    /// The root item whose 439 bytes start at `at`. Eight reserved words
    /// follow the last time.
    pub open spec fn spec_at(s: Seq<u8>, at: int) -> Self {
        RawRootItem {
            inode: RawInodeItem::spec_at(s, at),
            generation: le_u64(s, at + 160),
            root_dirid: le_u64(s, at + 168),
            bytenr: le_u64(s, at + 176),
            byte_limit: le_u64(s, at + 184),
            bytes_used: le_u64(s, at + 192),
            last_snapshot: le_u64(s, at + 200),
            flags: le_u64(s, at + 208),
            refs: le_u32(s, at + 216),
            drop_progress: RawDiskKey::spec_at(s, at + 220),
            drop_level: le_u8(s, at + 237),
            level: le_u8(s, at + 238),
            generation_v2: le_u64(s, at + 239),
            uuid: le_block16(s, at + 247),
            parent_uuid: le_block16(s, at + 263),
            received_uuid: le_block16(s, at + 279),
            ctransid: le_u64(s, at + 295),
            otransid: le_u64(s, at + 303),
            stransid: le_u64(s, at + 311),
            rtransid: le_u64(s, at + 319),
            ctime: RawTimespec::spec_at(s, at + 327),
            otime: RawTimespec::spec_at(s, at + 339),
            stime: RawTimespec::spec_at(s, at + 351),
            rtime: RawTimespec::spec_at(s, at + 363),
        }
    }

    /// The root item at the start of `buf`; `None` if `buf` is too short to hold
    /// one.
    pub fn parse(buf: &[u8]) -> (r: Option<Self>)
        ensures
            r == (if buf@.len() >= ROOT_ITEM_SIZE {
                Some(Self::spec_at(buf@, 0))
            } else {
                None
            }),
    {
        if buf.len() >= ROOT_ITEM_SIZE {
            Some(Self::read_at(buf, 0))
        } else {
            None
        }
    }

    /// Reads the structure that starts at `at`.
    pub(crate) fn read_at(buf: &[u8], at: usize) -> (r: Self)
        requires
            fits(buf@.len(), at as int, ROOT_ITEM_SIZE as int),
        ensures
            r == Self::spec_at(buf@, at as int),
    {
        assert(buf@.len() == buf.len());
        let uuid = read_block16(buf, at + 247);
        let parent_uuid = read_block16(buf, at + 263);
        let received_uuid = read_block16(buf, at + 279);
        RawRootItem {
            inode: RawInodeItem::read_at(buf, at),
            generation: read_u64(buf, at + 160),
            root_dirid: read_u64(buf, at + 168),
            bytenr: read_u64(buf, at + 176),
            byte_limit: read_u64(buf, at + 184),
            bytes_used: read_u64(buf, at + 192),
            last_snapshot: read_u64(buf, at + 200),
            flags: read_u64(buf, at + 208),
            refs: read_u32(buf, at + 216),
            drop_progress: RawDiskKey::read_at(buf, at + 220),
            drop_level: read_u8(buf, at + 237),
            level: read_u8(buf, at + 238),
            generation_v2: read_u64(buf, at + 239),
            uuid,
            parent_uuid,
            received_uuid,
            ctransid: read_u64(buf, at + 295),
            otransid: read_u64(buf, at + 303),
            stransid: read_u64(buf, at + 311),
            rtransid: read_u64(buf, at + 319),
            ctime: RawTimespec::read_at(buf, at + 327),
            otime: RawTimespec::read_at(buf, at + 339),
            stime: RawTimespec::read_at(buf, at + 351),
            rtime: RawTimespec::read_at(buf, at + 363),
        }
    }
}

impl RawRootRef {
    /// The root reference whose 18 fixed bytes start at `at`.
    pub open spec fn spec_at(s: Seq<u8>, at: int) -> Self {
        RawRootRef {
            dirid: le_u64(s, at),
            sequence: le_u64(s, at + 8),
            name_len: le_u16(s, at + 16),
        }
    }

    /// The fixed part of a root reference at the start of `buf`; `None` if `buf` is too short to hold
    /// one.
    pub fn parse(buf: &[u8]) -> (r: Option<Self>)
        ensures
            r == (if buf@.len() >= ROOT_REF_SIZE {
                Some(Self::spec_at(buf@, 0))
            } else {
                None
            }),
    {
        if buf.len() >= ROOT_REF_SIZE {
            Some(Self::read_at(buf, 0))
        } else {
            None
        }
    }

    /// Reads the structure that starts at `at`.
    pub(crate) fn read_at(buf: &[u8], at: usize) -> (r: Self)
        requires
            fits(buf@.len(), at as int, ROOT_REF_SIZE as int),
        ensures
            r == Self::spec_at(buf@, at as int),
    {
        assert(buf@.len() == buf.len());
        RawRootRef {
            dirid: read_u64(buf, at),
            sequence: read_u64(buf, at + 8),
            name_len: read_u16(buf, at + 16),
        }
    }
}

impl RawDirItem {
    /// The directory entry whose 30 fixed bytes start at `at`.
    pub open spec fn spec_at(s: Seq<u8>, at: int) -> Self {
        RawDirItem {
            location: RawDiskKey::spec_at(s, at),
            transid: le_u64(s, at + 17),
            data_len: le_u16(s, at + 25),
            name_len: le_u16(s, at + 27),
            type_: le_u8(s, at + 29),
        }
    }

    /// The fixed part of a directory entry at the start of `buf`; `None` if `buf` is too short to hold
    /// one.
    pub fn parse(buf: &[u8]) -> (r: Option<Self>)
        ensures
            r == (if buf@.len() >= DIR_ITEM_SIZE {
                Some(Self::spec_at(buf@, 0))
            } else {
                None
            }),
    {
        if buf.len() >= DIR_ITEM_SIZE {
            Some(Self::read_at(buf, 0))
        } else {
            None
        }
    }

    /// Reads the structure that starts at `at`.
    pub(crate) fn read_at(buf: &[u8], at: usize) -> (r: Self)
        requires
            fits(buf@.len(), at as int, DIR_ITEM_SIZE as int),
        ensures
            r == Self::spec_at(buf@, at as int),
    {
        assert(buf@.len() == buf.len());
        RawDirItem {
            location: RawDiskKey::read_at(buf, at),
            transid: read_u64(buf, at + 17),
            data_len: read_u16(buf, at + 25),
            name_len: read_u16(buf, at + 27),
            type_: read_u8(buf, at + 29),
        }
    }
}

impl RawFileExtentHead {
    /// The shared part of the file extent item whose bytes start at `at`.
    pub open spec fn spec_at(s: Seq<u8>, at: int) -> Self {
        RawFileExtentHead {
            generation: le_u64(s, at),
            ram_bytes: le_u64(s, at + 8),
            compression: le_u8(s, at + 16),
            encryption: le_u8(s, at + 17),
            other_encoding: le_u16(s, at + 18),
            type_: le_u8(s, at + 20),
        }
    }

    /// The shared part of a file extent item at the start of `buf`; `None` if `buf` is too short to hold
    /// one.
    pub fn parse(buf: &[u8]) -> (r: Option<Self>)
        ensures
            r == (if buf@.len() >= FILE_EXTENT_HEAD_SIZE {
                Some(Self::spec_at(buf@, 0))
            } else {
                None
            }),
    {
        if buf.len() >= FILE_EXTENT_HEAD_SIZE {
            Some(Self::read_at(buf, 0))
        } else {
            None
        }
    }

    /// Reads the structure that starts at `at`.
    pub(crate) fn read_at(buf: &[u8], at: usize) -> (r: Self)
        requires
            fits(buf@.len(), at as int, FILE_EXTENT_HEAD_SIZE as int),
        ensures
            r == Self::spec_at(buf@, at as int),
    {
        assert(buf@.len() == buf.len());
        RawFileExtentHead {
            generation: read_u64(buf, at),
            ram_bytes: read_u64(buf, at + 8),
            compression: read_u8(buf, at + 16),
            encryption: read_u8(buf, at + 17),
            other_encoding: read_u16(buf, at + 18),
            type_: read_u8(buf, at + 20),
        }
    }
}

impl RawFileExtentItem {
    /// The file extent item whose 53 bytes start at `at`.
    pub open spec fn spec_at(s: Seq<u8>, at: int) -> Self {
        RawFileExtentItem {
            head: RawFileExtentHead::spec_at(s, at),
            disk_bytenr: le_u64(s, at + 21),
            disk_num_bytes: le_u64(s, at + 29),
            offset: le_u64(s, at + 37),
            num_bytes: le_u64(s, at + 45),
        }
    }

    /// The file extent item at the start of `buf`; `None` if `buf` is too short to hold
    /// one.
    pub fn parse(buf: &[u8]) -> (r: Option<Self>)
        ensures
            r == (if buf@.len() >= FILE_EXTENT_ITEM_SIZE {
                Some(Self::spec_at(buf@, 0))
            } else {
                None
            }),
    {
        if buf.len() >= FILE_EXTENT_ITEM_SIZE {
            Some(Self::read_at(buf, 0))
        } else {
            None
        }
    }

    /// Reads the structure that starts at `at`.
    pub(crate) fn read_at(buf: &[u8], at: usize) -> (r: Self)
        requires
            fits(buf@.len(), at as int, FILE_EXTENT_ITEM_SIZE as int),
        ensures
            r == Self::spec_at(buf@, at as int),
    {
        assert(buf@.len() == buf.len());
        RawFileExtentItem {
            head: RawFileExtentHead::read_at(buf, at),
            disk_bytenr: read_u64(buf, at + 21),
            disk_num_bytes: read_u64(buf, at + 29),
            offset: read_u64(buf, at + 37),
            num_bytes: read_u64(buf, at + 45),
        }
    }
}

impl RawFreeSpaceHeader {
    /// The free-space header whose 41 bytes start at `at`.
    pub open spec fn spec_at(s: Seq<u8>, at: int) -> Self {
        RawFreeSpaceHeader {
            location: RawDiskKey::spec_at(s, at),
            generation: le_u64(s, at + 17),
            num_entries: le_u64(s, at + 25),
            num_bitmaps: le_u64(s, at + 33),
        }
    }

    /// The free-space header at the start of `buf`; `None` if `buf` is too short to hold
    /// one.
    pub fn parse(buf: &[u8]) -> (r: Option<Self>)
        ensures
            r == (if buf@.len() >= FREE_SPACE_HEADER_SIZE {
                Some(Self::spec_at(buf@, 0))
            } else {
                None
            }),
    {
        if buf.len() >= FREE_SPACE_HEADER_SIZE {
            Some(Self::read_at(buf, 0))
        } else {
            None
        }
    }

    /// Reads the structure that starts at `at`.
    pub(crate) fn read_at(buf: &[u8], at: usize) -> (r: Self)
        requires
            fits(buf@.len(), at as int, FREE_SPACE_HEADER_SIZE as int),
        ensures
            r == Self::spec_at(buf@, at as int),
    {
        assert(buf@.len() == buf.len());
        RawFreeSpaceHeader {
            location: RawDiskKey::read_at(buf, at),
            generation: read_u64(buf, at + 17),
            num_entries: read_u64(buf, at + 25),
            num_bitmaps: read_u64(buf, at + 33),
        }
    }
}

impl RawBlockGroupItem {
    /// The block group item whose 24 bytes start at `at`.
    pub open spec fn spec_at(s: Seq<u8>, at: int) -> Self {
        RawBlockGroupItem {
            used: le_u64(s, at),
            chunk_objectid: le_u64(s, at + 8),
            flags: le_u64(s, at + 16),
        }
    }

    /// The block group item at the start of `buf`; `None` if `buf` is too short to hold
    /// one.
    pub fn parse(buf: &[u8]) -> (r: Option<Self>)
        ensures
            r == (if buf@.len() >= BLOCK_GROUP_ITEM_SIZE {
                Some(Self::spec_at(buf@, 0))
            } else {
                None
            }),
    {
        if buf.len() >= BLOCK_GROUP_ITEM_SIZE {
            Some(Self::read_at(buf, 0))
        } else {
            None
        }
    }

    /// Reads the structure that starts at `at`.
    pub(crate) fn read_at(buf: &[u8], at: usize) -> (r: Self)
        requires
            fits(buf@.len(), at as int, BLOCK_GROUP_ITEM_SIZE as int),
        ensures
            r == Self::spec_at(buf@, at as int),
    {
        assert(buf@.len() == buf.len());
        RawBlockGroupItem {
            used: read_u64(buf, at),
            chunk_objectid: read_u64(buf, at + 8),
            flags: read_u64(buf, at + 16),
        }
    }
}

} // verus!
