//! The typed records, and the decoder of each from its wire structure.
//!
//! A decoder takes the fixed part of a record as a structure of `raw` and,
//! where the record has one, the trailing bytes. It returns a value that owns
//! all of its data. Fields with a closed vocabulary are mapped through
//! conversions that fail on any value outside of it.

use crate::error::Violation;
use crate::le;
use crate::error::view_result;
use crate::raw::{
    RawBlockGroupItem, RawDirItem, RawDiskKey, RawFileExtentHead, RawFileExtentItem,
    RawFreeSpaceHeader, RawInodeItem, RawInodeRef, RawRootItem, RawRootRef, RawTimespec,
    BLOCK_GROUP_ITEM_SIZE, DIR_ITEM_SIZE, FILE_EXTENT_HEAD_SIZE, FILE_EXTENT_ITEM_SIZE,
    FREE_SPACE_HEADER_SIZE, INODE_ITEM_SIZE, INODE_REF_SIZE, ROOT_ITEM_SIZE, ROOT_REF_SIZE,
};
use crate::wire::{copy_all, copy_range};
use vstd::slice::slice_subrange;
use crate::{Compression, Uuid};
use vstd::prelude::*;

verus! {

pub const BTRFS_FT_REG_FILE: u8 = 1;

pub const BTRFS_FT_DIR: u8 = 2;

pub const BTRFS_FT_CHRDEV: u8 = 3;

pub const BTRFS_FT_BLKDEV: u8 = 4;

pub const BTRFS_FT_FIFO: u8 = 5;

pub const BTRFS_FT_SOCK: u8 = 6;

pub const BTRFS_FT_SYMLINK: u8 = 7;

/// The file type that marks a directory entry as an extended attribute.
pub const BTRFS_FT_XATTR: u8 = 8;

pub const BTRFS_COMPRESS_NONE: u8 = 0;

pub const BTRFS_COMPRESS_ZLIB: u8 = 1;

pub const BTRFS_COMPRESS_LZO: u8 = 2;

pub const BTRFS_COMPRESS_ZSTD: u8 = 3;

pub const BTRFS_BLOCK_GROUP_DATA: u64 = 0x1;

pub const BTRFS_BLOCK_GROUP_SYSTEM: u64 = 0x2;

pub const BTRFS_BLOCK_GROUP_METADATA: u64 = 0x4;

pub const BTRFS_BLOCK_GROUP_RAID0: u64 = 0x8;

pub const BTRFS_BLOCK_GROUP_RAID1: u64 = 0x10;

pub const BTRFS_BLOCK_GROUP_DUP: u64 = 0x20;

pub const BTRFS_BLOCK_GROUP_RAID10: u64 = 0x40;

pub const BTRFS_BLOCK_GROUP_RAID5: u64 = 0x80;

pub const BTRFS_BLOCK_GROUP_RAID6: u64 = 0x100;

/// Every block group flag that has a meaning.
pub const BTRFS_BLOCK_GROUP_ALL: u64 = 0x1ff;

/// The flag of a root that marks its subvolume read-only.
pub const BTRFS_ROOT_SUBVOL_RDONLY: u64 = 1;

/// The number of nanoseconds in a second.
pub const NANOS_PER_SEC: u32 = 1_000_000_000;

/// A point in time: the whole seconds since the epoch, and the nanoseconds
/// beyond them, which are fewer than a second. Two values are equal exactly
/// when they are the same point in time.
#[derive(Clone, Copy, Debug, PartialEq, Eq, PartialOrd, Ord, Hash)]
pub struct Timestamp {
    secs: u64,
    nanos: u32,
}

#[derive(Clone, Copy, Debug, PartialEq, Eq, PartialOrd, Ord, Hash)]
pub struct Inode {
    pub generation: le::U64,
    pub transid: le::U64,
    pub size: le::U64,
    pub nbytes: le::U64,
    pub block_group: le::U64,
    pub nlink: le::U32,
    pub uid: le::U32,
    pub gid: le::U32,
    pub mode: le::U32,
    pub rdev: le::U64,
    pub sequence: le::U64,
    pub atime: Timestamp,
    pub ctime: Timestamp,
    pub mtime: Timestamp,
    pub otime: Timestamp,
}

#[derive(Clone, Debug, PartialEq, Eq, PartialOrd, Ord, Hash)]
pub struct InodeRef {
    pub index: le::U64,
    pub name: Vec<u8>,
}

#[derive(Clone, Copy, Debug, PartialEq, Eq, PartialOrd, Ord, Hash)]
pub struct DiskKey {
    pub objectid: le::U64,
    pub type_: u8,
    pub offset: le::U64,
}

#[derive(Clone, Copy, Debug, PartialEq, Eq, PartialOrd, Ord, Hash)]
pub struct Root {
    pub inode: Inode,
    pub generation: le::U64,
    pub root_dirid: le::U64,
    pub bytenr: le::U64,
    pub byte_limit: le::U64,
    pub bytes_used: le::U64,
    pub last_snapshot: le::U64,
    pub read_only: bool,
    pub refs: bool,
    pub btrfs_disk_key: DiskKey,
    pub level: u8,
    pub generation_v2: le::U64,
    pub uuid: Uuid,
    pub parent_uuid: Uuid,
    pub received_uuid: Uuid,
    pub ctransid: le::U64,
    pub otransid: le::U64,
    pub stransid: le::U64,
    pub rtransid: le::U64,
    pub ctime: Timestamp,
    pub otime: Timestamp,
    pub stime: Timestamp,
    pub rtime: Timestamp,
}

#[derive(Clone, Debug, PartialEq, Eq, PartialOrd, Ord, Hash)]
pub struct RootRef {
    pub dirid: le::U64,
    pub sequence: le::U64,
    pub name: Vec<u8>,
}

#[derive(Clone, Copy, Debug, PartialEq, Eq, PartialOrd, Ord, Hash)]
pub enum FileType {
    Reg,
    Dir,
    ChrDev,
    BlkDev,
    Fifo,
    Sock,
    Sym,
}

/// A directory entry found by the hash of its name.
#[derive(Clone, Debug, PartialEq, Eq, PartialOrd, Ord, Hash)]
pub enum DirItem {
    Xattr { location: DiskKey, transid: le::U64, name: Vec<u8>, value: Vec<u8> },
    File { location: DiskKey, transid: le::U64, name: Vec<u8>, type_: FileType },
}

/// A directory entry found by its position in the directory.
#[derive(Clone, Debug, PartialEq, Eq, PartialOrd, Ord, Hash)]
pub enum DirIndex {
    Xattr { location: DiskKey, transid: le::U64, name: Vec<u8>, value: Vec<u8> },
    File { location: DiskKey, transid: le::U64, name: Vec<u8>, type_: FileType },
}

#[derive(Clone, Copy, Debug, PartialEq, Eq, PartialOrd, Ord, Hash)]
pub struct FileExtentReg {
    pub generation: le::U64,
    pub ram_bytes: le::U64,
    pub compression: Compression,
    pub disk_bytenr: le::U64,
    pub disk_num_bytes: le::U64,
    pub offset: le::U64,
    pub num_bytes: le::U64,
}

#[derive(Clone, Debug, PartialEq, Eq, PartialOrd, Ord, Hash)]
pub struct FileExtentInline {
    pub generation: le::U64,
    pub ram_bytes: le::U64,
    pub compression: Compression,
    pub data: Vec<u8>,
}

#[derive(Clone, Copy, Debug, PartialEq, Eq, PartialOrd, Ord, Hash)]
pub struct FreeSpaceHeader {
    pub location: DiskKey,
    pub generation: le::U64,
    pub num_entries: le::U64,
    pub num_bitmaps: le::U64,
}

/// A set of block group flags in which only flags with a meaning are set.
#[derive(Clone, Copy, Debug, PartialEq, Eq, PartialOrd, Ord, Hash)]
pub struct BlockGroupFlag {
    bits: u64,
}

#[derive(Clone, Copy, Debug, PartialEq, Eq, PartialOrd, Ord, Hash)]
pub struct BlockGroup {
    pub used: le::U64,
    pub chunk_objectid: le::U64,
    pub flags: BlockGroupFlag,
}

/// What an `InodeRef` holds, with the name as a sequence.
pub struct InodeRefView {
    pub index: le::U64,
    pub name: Seq<u8>,
}

/// What a `RootRef` holds, with the name as a sequence.
pub struct RootRefView {
    pub dirid: le::U64,
    pub sequence: le::U64,
    pub name: Seq<u8>,
}

/// What a `DirItem` or a `DirIndex` holds, with its bytes as sequences.
pub enum DirEntryView {
    Xattr { location: DiskKey, transid: le::U64, name: Seq<u8>, value: Seq<u8> },
    File { location: DiskKey, transid: le::U64, name: Seq<u8>, type_: FileType },
}

/// What a `FileExtentInline` holds, with the data as a sequence.
pub struct FileExtentInlineView {
    pub generation: le::U64,
    pub ram_bytes: le::U64,
    pub compression: Compression,
    pub data: Seq<u8>,
}

impl View for InodeRef {
    type V = InodeRefView;

    open spec fn view(&self) -> InodeRefView {
        InodeRefView { index: self.index, name: self.name@ }
    }
}

impl View for RootRef {
    type V = RootRefView;

    open spec fn view(&self) -> RootRefView {
        RootRefView { dirid: self.dirid, sequence: self.sequence, name: self.name@ }
    }
}

impl View for DirItem {
    type V = DirEntryView;

    open spec fn view(&self) -> DirEntryView {
        match *self {
            DirItem::Xattr { location, transid, name, value } => DirEntryView::Xattr {
                location,
                transid,
                name: name@,
                value: value@,
            },
            DirItem::File { location, transid, name, type_ } => DirEntryView::File {
                location,
                transid,
                name: name@,
                type_,
            },
        }
    }
}

impl View for DirIndex {
    type V = DirEntryView;

    open spec fn view(&self) -> DirEntryView {
        match *self {
            DirIndex::Xattr { location, transid, name, value } => DirEntryView::Xattr {
                location,
                transid,
                name: name@,
                value: value@,
            },
            DirIndex::File { location, transid, name, type_ } => DirEntryView::File {
                location,
                transid,
                name: name@,
                type_,
            },
        }
    }
}

impl View for FileExtentInline {
    type V = FileExtentInlineView;

    open spec fn view(&self) -> FileExtentInlineView {
        FileExtentInlineView {
            generation: self.generation,
            ram_bytes: self.ram_bytes,
            compression: self.compression,
            data: self.data@,
        }
    }
}

impl View for BlockGroupFlag {
    type V = u64;

    /// The flags as bits.
    closed spec fn view(&self) -> u64 {
        self.bits
    }
}

impl Compression {
    /// The compression kind that the raw value `c` names, if it names one.
    pub open spec fn spec_from_raw(c: u8) -> Option<Compression> {
        if c == BTRFS_COMPRESS_NONE {
            Some(Compression::Uncompressed)
        } else if c == BTRFS_COMPRESS_ZLIB {
            Some(Compression::Zlib)
        } else if c == BTRFS_COMPRESS_LZO {
            Some(Compression::Lzo)
        } else if c == BTRFS_COMPRESS_ZSTD {
            Some(Compression::Zstd)
        } else {
            None
        }
    }

    /// Maps a raw compression kind; any value but the four known ones gives
    /// `None`.
    pub fn from_raw(c: u8) -> (r: Option<Compression>)
        ensures
            r == Self::spec_from_raw(c),
    {
        if c == BTRFS_COMPRESS_NONE {
            Some(Compression::Uncompressed)
        } else if c == BTRFS_COMPRESS_ZLIB {
            Some(Compression::Zlib)
        } else if c == BTRFS_COMPRESS_LZO {
            Some(Compression::Lzo)
        } else if c == BTRFS_COMPRESS_ZSTD {
            Some(Compression::Zstd)
        } else {
            None
        }
    }
}

impl FileType {
    /// The file type that the raw value `t` names, if it names one. The mark
    /// of an extended attribute names none.
    pub open spec fn spec_from_raw(t: u8) -> Option<FileType> {
        if t == BTRFS_FT_REG_FILE {
            Some(FileType::Reg)
        } else if t == BTRFS_FT_DIR {
            Some(FileType::Dir)
        } else if t == BTRFS_FT_CHRDEV {
            Some(FileType::ChrDev)
        } else if t == BTRFS_FT_BLKDEV {
            Some(FileType::BlkDev)
        } else if t == BTRFS_FT_FIFO {
            Some(FileType::Fifo)
        } else if t == BTRFS_FT_SOCK {
            Some(FileType::Sock)
        } else if t == BTRFS_FT_SYMLINK {
            Some(FileType::Sym)
        } else {
            None
        }
    }

    /// Maps a raw file type; any value outside the seven file types gives
    /// `None`.
    pub fn from_raw(t: u8) -> (r: Option<FileType>)
        ensures
            r == Self::spec_from_raw(t),
    {
        if t == BTRFS_FT_REG_FILE {
            Some(FileType::Reg)
        } else if t == BTRFS_FT_DIR {
            Some(FileType::Dir)
        } else if t == BTRFS_FT_CHRDEV {
            Some(FileType::ChrDev)
        } else if t == BTRFS_FT_BLKDEV {
            Some(FileType::BlkDev)
        } else if t == BTRFS_FT_FIFO {
            Some(FileType::Fifo)
        } else if t == BTRFS_FT_SOCK {
            Some(FileType::Sock)
        } else if t == BTRFS_FT_SYMLINK {
            Some(FileType::Sym)
        } else {
            None
        }
    }
}

impl Timestamp {
    #[verifier::type_invariant]
    spec fn inv(&self) -> bool {
        self.nanos < NANOS_PER_SEC
    }

    /// The whole seconds.
    pub closed spec fn spec_as_secs(self) -> u64 {
        self.secs
    }

    /// The nanoseconds beyond the whole seconds.
    pub closed spec fn spec_subsec_nanos(self) -> u32 {
        self.nanos
    }

    /// The time with exactly these seconds and nanoseconds.
    pub closed spec fn spec_of(secs: u64, nanos: u32) -> Timestamp
        recommends
            nanos < NANOS_PER_SEC,
    {
        Timestamp { secs, nanos }
    }

    /// Whether the seconds and nanoseconds of a stored pair add up to a time:
    /// whether the seconds, with the whole seconds among the nanoseconds
    /// carried into them, are still a 64-bit value.
    pub open spec fn spec_fits(secs: u64, nanos: u32) -> bool {
        secs + nanos / NANOS_PER_SEC <= u64::MAX
    }

    /// The time that lies `nanos` nanoseconds behind the second `secs`, where
    /// that is a time: the whole seconds among the nanoseconds are carried
    /// into the seconds.
    pub open spec fn spec_new(secs: u64, nanos: u32) -> Option<Timestamp> {
        if Self::spec_fits(secs, nanos) {
            Some(Self::spec_of((secs + nanos / NANOS_PER_SEC) as u64, nanos % NANOS_PER_SEC))
        } else {
            None
        }
    }

    /// The time that the raw pair `t` stores, or the violation that it is:
    /// a pair whose nanoseconds carry its seconds beyond the largest value.
    pub open spec fn spec_from_c_struct(t: RawTimespec) -> Result<Timestamp, Violation> {
        match Self::spec_new(t.sec, t.nsec) {
            Some(time) => Ok(time),
            None => Err(Violation::Time(t.sec, t.nsec)),
        }
    }

    /// Whether this is the time that the raw pair `t` stores.
    pub open spec fn spec_stores(self, t: RawTimespec) -> bool {
        &&& self.spec_as_secs() == t.sec + t.nsec / NANOS_PER_SEC
        &&& self.spec_subsec_nanos() == t.nsec % NANOS_PER_SEC
    }

    /// The time that lies `nanos` nanoseconds behind the second `secs`;
    /// `None` where the seconds would pass the largest value.
    pub fn new(secs: u64, nanos: u32) -> (r: Option<Timestamp>)
        ensures
            r == Self::spec_new(secs, nanos),
    {
        let carry: u64 = (nanos / NANOS_PER_SEC) as u64;
        if secs > u64::MAX - carry {
            None
        } else {
            Some(Timestamp { secs: secs + carry, nanos: nanos % NANOS_PER_SEC })
        }
    }

    /// Decodes the wire structure into the typed record.
    pub fn from_c_struct(t: RawTimespec) -> (r: Result<Timestamp, Violation>)
        ensures
            r == Self::spec_from_c_struct(t),
    {
        match Self::new(t.sec, t.nsec) {
            Some(time) => Ok(time),
            None => Err(Violation::Time(t.sec, t.nsec)),
        }
    }

    /// The whole seconds.
    #[verifier::when_used_as_spec(spec_as_secs)]
    pub fn as_secs(self) -> (r: u64)
        ensures
            r == self.spec_as_secs(),
    {
        self.secs
    }

    /// The nanoseconds beyond the whole seconds; fewer than a second.
    #[verifier::when_used_as_spec(spec_subsec_nanos)]
    pub fn subsec_nanos(self) -> (r: u32)
        ensures
            r == self.spec_subsec_nanos(),
            r < NANOS_PER_SEC,
    {
        proof {
            use_type_invariant(self);
        }
        self.nanos
    }
}

/// A time has the seconds and nanoseconds that it was made of.
pub broadcast proof fn lemma_time_parts(secs: u64, nanos: u32)
    ensures
        (#[trigger] Timestamp::spec_of(secs, nanos)).spec_as_secs() == secs,
        Timestamp::spec_of(secs, nanos).spec_subsec_nanos() == nanos,
{
}

/// A time is determined by its seconds and nanoseconds.
pub proof fn lemma_time_of_parts(a: Timestamp, b: Timestamp)
    requires
        a.spec_as_secs() == b.spec_as_secs(),
        a.spec_subsec_nanos() == b.spec_subsec_nanos(),
    ensures
        a == b,
{
}

/// A stored pair decodes to the time that it stores, with the whole seconds
/// among its nanoseconds carried into the seconds, and fails on nothing but
/// seconds that the carry takes beyond the largest value.
pub proof fn lemma_time_keeps_value(t: RawTimespec)
    ensures
        Timestamp::spec_from_c_struct(t) is Ok <==> Timestamp::spec_fits(t.sec, t.nsec),
        Timestamp::spec_from_c_struct(t) matches Ok(time) ==> time.spec_stores(t)
            && time.spec_subsec_nanos() < NANOS_PER_SEC,
        Timestamp::spec_from_c_struct(t) matches Err(v) ==> v == Violation::Time(t.sec, t.nsec),
        t.nsec < NANOS_PER_SEC ==> Timestamp::spec_from_c_struct(t) == Ok::<Timestamp, Violation>(
            Timestamp::spec_of(t.sec, t.nsec),
        ),
{
    broadcast use lemma_time_parts;
}

/// The four times that the raw pairs store, in turn, or the violation of the
/// first pair that stores none.
pub open spec fn spec_times(a: RawTimespec, b: RawTimespec, c: RawTimespec, d: RawTimespec) -> Result<
    (Timestamp, Timestamp, Timestamp, Timestamp),
    Violation,
> {
    match Timestamp::spec_from_c_struct(a) {
        Err(v) => Err(v),
        Ok(ta) => match Timestamp::spec_from_c_struct(b) {
            Err(v) => Err(v),
            Ok(tb) => match Timestamp::spec_from_c_struct(c) {
                Err(v) => Err(v),
                Ok(tc) => match Timestamp::spec_from_c_struct(d) {
                    Err(v) => Err(v),
                    Ok(td) => Ok((ta, tb, tc, td)),
                },
            },
        },
    }
}

/// Decodes the four times of a record.
pub fn times(a: RawTimespec, b: RawTimespec, c: RawTimespec, d: RawTimespec) -> (r: Result<
    (Timestamp, Timestamp, Timestamp, Timestamp),
    Violation,
>)
    ensures
        r == spec_times(a, b, c, d),
{
    let ta = match Timestamp::from_c_struct(a) {
        Ok(t) => t,
        Err(v) => {
            return Err(v);
        },
    };
    let tb = match Timestamp::from_c_struct(b) {
        Ok(t) => t,
        Err(v) => {
            return Err(v);
        },
    };
    let tc = match Timestamp::from_c_struct(c) {
        Ok(t) => t,
        Err(v) => {
            return Err(v);
        },
    };
    let td = match Timestamp::from_c_struct(d) {
        Ok(t) => t,
        Err(v) => {
            return Err(v);
        },
    };
    Ok((ta, tb, tc, td))
}

impl DiskKey {
    /// The key that the raw key `key` stores.
    pub open spec fn spec_from_c_struct(key: RawDiskKey) -> DiskKey {
        DiskKey {
            objectid: le::U64::spec_new(key.objectid),
            type_: key.type_,
            offset: le::U64::spec_new(key.offset),
        }
    }

    /// Decodes the wire structure into the typed record.
    pub fn from_c_struct(key: RawDiskKey) -> (r: DiskKey)
        ensures
            r == Self::spec_from_c_struct(key),
    {
        DiskKey {
            objectid: le::U64::new(key.objectid),
            type_: key.type_,
            offset: le::U64::new(key.offset),
        }
    }
}

impl Inode {
    /// The inode that the raw item `inode` stores, or the violation that it
    /// holds: a time that is none.
    pub open spec fn spec_from_c_struct(inode: RawInodeItem) -> Result<Inode, Violation> {
        match spec_times(inode.atime, inode.ctime, inode.mtime, inode.otime) {
            Err(v) => Err(v),
            Ok((atime, ctime, mtime, otime)) => Ok(
                Inode {
                    generation: le::U64::spec_new(inode.generation),
                    transid: le::U64::spec_new(inode.transid),
                    size: le::U64::spec_new(inode.size),
                    nbytes: le::U64::spec_new(inode.nbytes),
                    block_group: le::U64::spec_new(inode.block_group),
                    nlink: le::U32::spec_new(inode.nlink),
                    uid: le::U32::spec_new(inode.uid),
                    gid: le::U32::spec_new(inode.gid),
                    mode: le::U32::spec_new(inode.mode),
                    rdev: le::U64::spec_new(inode.rdev),
                    sequence: le::U64::spec_new(inode.sequence),
                    atime,
                    ctime,
                    mtime,
                    otime,
                },
            ),
        }
    }

    /// Decodes the wire structure into the typed record.
    pub fn from_c_struct(inode: RawInodeItem) -> (r: Result<Inode, Violation>)
        ensures
            r == Self::spec_from_c_struct(inode),
    {
        match times(inode.atime, inode.ctime, inode.mtime, inode.otime) {
            Err(v) => Err(v),
            Ok((atime, ctime, mtime, otime)) => Ok(
                Inode {
                    generation: le::U64::new(inode.generation),
                    transid: le::U64::new(inode.transid),
                    size: le::U64::new(inode.size),
                    nbytes: le::U64::new(inode.nbytes),
                    block_group: le::U64::new(inode.block_group),
                    nlink: le::U32::new(inode.nlink),
                    uid: le::U32::new(inode.uid),
                    gid: le::U32::new(inode.gid),
                    mode: le::U32::new(inode.mode),
                    rdev: le::U64::new(inode.rdev),
                    sequence: le::U64::new(inode.sequence),
                    atime,
                    ctime,
                    mtime,
                    otime,
                },
            ),
        }
    }

    /// The inode that the payload `p` of an inode item stores. A payload
    /// shorter than the item is a violation, and so is a pair in the item
    /// that stores no time.
    pub open spec fn spec_parse(p: Seq<u8>) -> Result<Inode, Violation> {
        if p.len() < INODE_ITEM_SIZE {
            Err(Violation::Truncated)
        } else {
            Self::spec_from_c_struct(RawInodeItem::spec_at(p, 0))
        }
    }

    /// Decodes the payload of a record of this kind.
    pub fn parse(payload: &[u8]) -> (r: Result<Inode, Violation>)
        ensures
            r == Self::spec_parse(payload@),
    {
        if payload.len() < INODE_ITEM_SIZE {
            return Err(Violation::Truncated);
        }
        Self::from_c_struct(RawInodeItem::read_at(payload, 0))
    }
}

impl InodeRef {
    /// The back-reference that the payload `p` stores: the fixed part, and
    /// after it the name with the length that the fixed part gives. A payload
    /// too short for either is a violation.
    pub open spec fn spec_parse(p: Seq<u8>) -> Result<InodeRefView, Violation> {
        if p.len() < INODE_REF_SIZE {
            Err(Violation::Truncated)
        } else {
            let fixed = RawInodeRef::spec_at(p, 0);
            if p.len() - INODE_REF_SIZE < fixed.name_len {
                Err(Violation::Truncated)
            } else {
                Ok(
                    Self::spec_from_c_struct(
                        fixed,
                        p.subrange(INODE_REF_SIZE as int, INODE_REF_SIZE + fixed.name_len),
                    ),
                )
            }
        }
    }

    /// Decodes the payload of a record of this kind.
    pub fn parse(payload: &[u8]) -> (r: Result<InodeRef, Violation>)
        ensures
            view_result(r) == Self::spec_parse(payload@),
    {
        if payload.len() < INODE_REF_SIZE {
            return Err(Violation::Truncated);
        }
        let fixed = RawInodeRef::read_at(payload, 0);
        let name_len: usize = fixed.name_len as usize;
        if payload.len() - INODE_REF_SIZE < name_len {
            return Err(Violation::Truncated);
        }
        let name = slice_subrange(payload, INODE_REF_SIZE, INODE_REF_SIZE + name_len);
        Ok(Self::from_c_struct(fixed, name))
    }

    /// The back-reference with the index of `inode_ref` and `data` as its
    /// name.
    pub open spec fn spec_from_c_struct(inode_ref: RawInodeRef, data: Seq<u8>) -> InodeRefView {
        InodeRefView { index: le::U64::spec_new(inode_ref.index), name: data }
    }

    /// Decodes the fixed part `inode_ref` together with the name `data`.
    pub fn from_c_struct(inode_ref: RawInodeRef, data: &[u8]) -> (r: InodeRef)
        ensures
            r@ == Self::spec_from_c_struct(inode_ref, data@),
    {
        InodeRef { index: le::U64::new(inode_ref.index), name: copy_all(data) }
    }
}

impl Root {
    /// The root that the raw item `root` stores, or the first violation that
    /// it holds: a time of its inode that is none, a reference count other
    /// than zero and one, or a time of its own that is none.
    ///
    /// The root is read-only where the low 32 bits of its flags are exactly
    /// the read-only flag.
    pub open spec fn spec_from_c_struct(root: RawRootItem) -> Result<Root, Violation> {
        match Inode::spec_from_c_struct(root.inode) {
            Err(v) => Err(v),
            Ok(inode) => if root.refs > 1 {
                Err(Violation::RootRefs(root.refs))
            } else {
                match spec_times(root.ctime, root.otime, root.stime, root.rtime) {
                    Err(v) => Err(v),
                    Ok((ctime, otime, stime, rtime)) => Ok(
                        Root {
                            inode,
                            generation: le::U64::spec_new(root.generation),
                            root_dirid: le::U64::spec_new(root.root_dirid),
                            bytenr: le::U64::spec_new(root.bytenr),
                            byte_limit: le::U64::spec_new(root.byte_limit),
                            bytes_used: le::U64::spec_new(root.bytes_used),
                            last_snapshot: le::U64::spec_new(root.last_snapshot),
                            read_only: root.flags % 0x1_0000_0000 == BTRFS_ROOT_SUBVOL_RDONLY,
                            refs: root.refs == 1,
                            btrfs_disk_key: DiskKey::spec_from_c_struct(root.drop_progress),
                            level: root.level,
                            generation_v2: le::U64::spec_new(root.generation_v2),
                            uuid: Uuid(root.uuid),
                            parent_uuid: Uuid(root.parent_uuid),
                            received_uuid: Uuid(root.received_uuid),
                            ctransid: le::U64::spec_new(root.ctransid),
                            otransid: le::U64::spec_new(root.otransid),
                            stransid: le::U64::spec_new(root.stransid),
                            rtransid: le::U64::spec_new(root.rtransid),
                            ctime,
                            otime,
                            stime,
                            rtime,
                        },
                    ),
                }
            },
        }
    }

    /// Decodes the wire structure into the typed record.
    pub fn from_c_struct(root: RawRootItem) -> (r: Result<Root, Violation>)
        ensures
            r == Self::spec_from_c_struct(root),
    {
        let inode = match Inode::from_c_struct(root.inode) {
            Ok(inode) => inode,
            Err(v) => {
                return Err(v);
            },
        };
        if root.refs > 1 {
            return Err(Violation::RootRefs(root.refs));
        }
        match times(root.ctime, root.otime, root.stime, root.rtime) {
            Err(v) => Err(v),
            Ok((ctime, otime, stime, rtime)) => Ok(
                Root {
                    inode,
                    generation: le::U64::new(root.generation),
                    root_dirid: le::U64::new(root.root_dirid),
                    bytenr: le::U64::new(root.bytenr),
                    byte_limit: le::U64::new(root.byte_limit),
                    bytes_used: le::U64::new(root.bytes_used),
                    last_snapshot: le::U64::new(root.last_snapshot),
                    read_only: root.flags % 0x1_0000_0000 == BTRFS_ROOT_SUBVOL_RDONLY,
                    refs: root.refs == 1,
                    btrfs_disk_key: DiskKey::from_c_struct(root.drop_progress),
                    level: root.level,
                    generation_v2: le::U64::new(root.generation_v2),
                    uuid: Uuid(root.uuid),
                    parent_uuid: Uuid(root.parent_uuid),
                    received_uuid: Uuid(root.received_uuid),
                    ctransid: le::U64::new(root.ctransid),
                    otransid: le::U64::new(root.otransid),
                    stransid: le::U64::new(root.stransid),
                    rtransid: le::U64::new(root.rtransid),
                    ctime,
                    otime,
                    stime,
                    rtime,
                },
            ),
        }
    }

    /// The root that the payload `p` of a root item stores. A payload shorter
    /// than the item is a violation.
    pub open spec fn spec_parse(p: Seq<u8>) -> Result<Root, Violation> {
        if p.len() < ROOT_ITEM_SIZE {
            Err(Violation::Truncated)
        } else {
            Self::spec_from_c_struct(RawRootItem::spec_at(p, 0))
        }
    }

    /// Decodes the payload of a record of this kind.
    pub fn parse(payload: &[u8]) -> (r: Result<Root, Violation>)
        ensures
            r == Self::spec_parse(payload@),
    {
        if payload.len() < ROOT_ITEM_SIZE {
            return Err(Violation::Truncated);
        }
        Self::from_c_struct(RawRootItem::read_at(payload, 0))
    }
}

impl RootRef {
    /// The root reference that the payload `p` stores: the fixed part, and
    /// after it the name with the length that the fixed part gives. A payload
    /// too short for either is a violation.
    pub open spec fn spec_parse(p: Seq<u8>) -> Result<RootRefView, Violation> {
        if p.len() < ROOT_REF_SIZE {
            Err(Violation::Truncated)
        } else {
            let fixed = RawRootRef::spec_at(p, 0);
            if p.len() - ROOT_REF_SIZE < fixed.name_len {
                Err(Violation::Truncated)
            } else {
                Ok(
                    Self::spec_from_c_struct(
                        fixed,
                        p.subrange(ROOT_REF_SIZE as int, ROOT_REF_SIZE + fixed.name_len),
                    ),
                )
            }
        }
    }

    /// Decodes the payload of a record of this kind.
    pub fn parse(payload: &[u8]) -> (r: Result<RootRef, Violation>)
        ensures
            view_result(r) == Self::spec_parse(payload@),
    {
        if payload.len() < ROOT_REF_SIZE {
            return Err(Violation::Truncated);
        }
        let fixed = RawRootRef::read_at(payload, 0);
        let name_len: usize = fixed.name_len as usize;
        if payload.len() - ROOT_REF_SIZE < name_len {
            return Err(Violation::Truncated);
        }
        let name = slice_subrange(payload, ROOT_REF_SIZE, ROOT_REF_SIZE + name_len);
        Ok(Self::from_c_struct(fixed, name))
    }

    /// The root reference with the fields of `root_ref` and `data` as its
    /// name.
    pub open spec fn spec_from_c_struct(root_ref: RawRootRef, data: Seq<u8>) -> RootRefView {
        RootRefView {
            dirid: le::U64::spec_new(root_ref.dirid),
            sequence: le::U64::spec_new(root_ref.sequence),
            name: data,
        }
    }

    /// Decodes the fixed part `root_ref` together with the name `data`.
    pub fn from_c_struct(root_ref: RawRootRef, data: &[u8]) -> (r: RootRef)
        ensures
            r@ == Self::spec_from_c_struct(root_ref, data@),
    {
        RootRef {
            dirid: le::U64::new(root_ref.dirid),
            sequence: le::U64::new(root_ref.sequence),
            name: copy_all(data),
        }
    }
}

/// The directory entry that the fixed part `dir` and the trailing bytes
/// `data` store, or the violation that they hold.
///
/// The mark of an extended attribute gives the attribute shape: the first
/// `name_len` bytes of `data` are the name, the rest is the value; a name
/// longer than `data` is a violation. A file type gives the file shape, whose
/// name is all of `data`. Any other type is a violation.
pub open spec fn spec_dir_entry(dir: RawDirItem, data: Seq<u8>) -> Result<DirEntryView, Violation> {
    if dir.type_ == BTRFS_FT_XATTR {
        if dir.name_len > data.len() {
            Err(Violation::Truncated)
        } else {
            Ok(
                DirEntryView::Xattr {
                    location: DiskKey::spec_from_c_struct(dir.location),
                    transid: le::U64::spec_new(dir.transid),
                    name: data.subrange(0, dir.name_len as int),
                    value: data.subrange(dir.name_len as int, data.len() as int),
                },
            )
        }
    } else {
        match FileType::spec_from_raw(dir.type_) {
            None => Err(Violation::FileType(dir.type_)),
            Some(t) => Ok(
                DirEntryView::File {
                    location: DiskKey::spec_from_c_struct(dir.location),
                    transid: le::U64::spec_new(dir.transid),
                    name: data,
                    type_: t,
                },
            ),
        }
    }
}

/// The number of trailing bytes that belong to a directory entry with the
/// fixed part `dir`: the name, and for an extended attribute the value too.
pub open spec fn spec_dir_trailing(dir: RawDirItem) -> int {
    if dir.type_ == BTRFS_FT_XATTR {
        dir.name_len + dir.data_len
    } else {
        dir.name_len as int
    }
}

/// The directory entry that the payload `p` stores: the fixed part, and after
/// it the trailing bytes that belong to the entry. A payload too short for
/// either is a violation.
pub open spec fn spec_parse_dir_entry(p: Seq<u8>) -> Result<DirEntryView, Violation> {
    if p.len() < DIR_ITEM_SIZE {
        Err(Violation::Truncated)
    } else {
        let fixed = RawDirItem::spec_at(p, 0);
        if p.len() - DIR_ITEM_SIZE < spec_dir_trailing(fixed) {
            Err(Violation::Truncated)
        } else {
            spec_dir_entry(
                fixed,
                p.subrange(DIR_ITEM_SIZE as int, DIR_ITEM_SIZE + spec_dir_trailing(fixed)),
            )
        }
    }
}

/// The number of trailing bytes that belong to a directory entry.
fn dir_trailing(dir: RawDirItem) -> (r: usize)
    ensures
        r == spec_dir_trailing(dir),
{
    if dir.type_ == BTRFS_FT_XATTR {
        dir.name_len as usize + dir.data_len as usize
    } else {
        dir.name_len as usize
    }
}

impl DirItem {
    /// Decodes the payload of a record of this kind.
    pub fn parse(payload: &[u8]) -> (r: Result<DirItem, Violation>)
        ensures
            view_result(r) == spec_parse_dir_entry(payload@),
    {
        if payload.len() < DIR_ITEM_SIZE {
            return Err(Violation::Truncated);
        }
        let fixed = RawDirItem::read_at(payload, 0);
        let trailing: usize = dir_trailing(fixed);
        if payload.len() - DIR_ITEM_SIZE < trailing {
            return Err(Violation::Truncated);
        }
        Self::from_c_struct(fixed, slice_subrange(payload, DIR_ITEM_SIZE, DIR_ITEM_SIZE + trailing))
    }

    /// Decodes the fixed part `dir` together with the trailing bytes `data`:
    /// the name of a file, or the name and then the value of an extended
    /// attribute.
    pub fn from_c_struct(dir: RawDirItem, data: &[u8]) -> (r: Result<DirItem, Violation>)
        ensures
            view_result(r) == spec_dir_entry(dir, data@),
    {
        let name_len: usize = dir.name_len as usize;
        if dir.type_ == BTRFS_FT_XATTR {
            if name_len > data.len() {
                return Err(Violation::Truncated);
            }
            Ok(
                DirItem::Xattr {
                    location: DiskKey::from_c_struct(dir.location),
                    transid: le::U64::new(dir.transid),
                    name: copy_range(data, 0, name_len),
                    value: copy_range(data, name_len, data.len()),
                },
            )
        } else {
            match FileType::from_raw(dir.type_) {
                None => Err(Violation::FileType(dir.type_)),
                Some(t) => Ok(
                    DirItem::File {
                        location: DiskKey::from_c_struct(dir.location),
                        transid: le::U64::new(dir.transid),
                        name: copy_all(data),
                        type_: t,
                    },
                ),
            }
        }
    }
}

impl DirIndex {
    /// Decodes the payload of a record of this kind.
    pub fn parse(payload: &[u8]) -> (r: Result<DirIndex, Violation>)
        ensures
            view_result(r) == spec_parse_dir_entry(payload@),
    {
        if payload.len() < DIR_ITEM_SIZE {
            return Err(Violation::Truncated);
        }
        let fixed = RawDirItem::read_at(payload, 0);
        let trailing: usize = dir_trailing(fixed);
        if payload.len() - DIR_ITEM_SIZE < trailing {
            return Err(Violation::Truncated);
        }
        Self::from_c_struct(fixed, slice_subrange(payload, DIR_ITEM_SIZE, DIR_ITEM_SIZE + trailing))
    }

    /// Decodes the fixed part `dir` together with the trailing bytes `data`:
    /// the name of a file, or the name and then the value of an extended
    /// attribute.
    pub fn from_c_struct(dir: RawDirItem, data: &[u8]) -> (r: Result<DirIndex, Violation>)
        ensures
            view_result(r) == spec_dir_entry(dir, data@),
    {
        let name_len: usize = dir.name_len as usize;
        if dir.type_ == BTRFS_FT_XATTR {
            if name_len > data.len() {
                return Err(Violation::Truncated);
            }
            Ok(
                DirIndex::Xattr {
                    location: DiskKey::from_c_struct(dir.location),
                    transid: le::U64::new(dir.transid),
                    name: copy_range(data, 0, name_len),
                    value: copy_range(data, name_len, data.len()),
                },
            )
        } else {
            match FileType::from_raw(dir.type_) {
                None => Err(Violation::FileType(dir.type_)),
                Some(t) => Ok(
                    DirIndex::File {
                        location: DiskKey::from_c_struct(dir.location),
                        transid: le::U64::new(dir.transid),
                        name: copy_all(data),
                        type_: t,
                    },
                ),
            }
        }
    }
}

impl FileExtentReg {
    /// The extent that the payload `p` of an out-of-line file extent item
    /// stores. A payload shorter than the item is a violation.
    pub open spec fn spec_parse(p: Seq<u8>) -> Result<FileExtentReg, Violation> {
        if p.len() < FILE_EXTENT_ITEM_SIZE {
            Err(Violation::Truncated)
        } else {
            Self::spec_from_c_struct(RawFileExtentItem::spec_at(p, 0))
        }
    }

    /// Decodes the payload of a record of this kind.
    pub fn parse(payload: &[u8]) -> (r: Result<FileExtentReg, Violation>)
        ensures
            r == Self::spec_parse(payload@),
    {
        if payload.len() < FILE_EXTENT_ITEM_SIZE {
            return Err(Violation::Truncated);
        }
        Self::from_c_struct(RawFileExtentItem::read_at(payload, 0))
    }

    /// The extent that the raw item `item` stores, or the violation that it
    /// holds: an unknown compression kind.
    pub open spec fn spec_from_c_struct(item: RawFileExtentItem) -> Result<
        FileExtentReg,
        Violation,
    > {
        match Compression::spec_from_raw(item.head.compression) {
            None => Err(Violation::Compression(item.head.compression)),
            Some(c) => Ok(
                FileExtentReg {
                    generation: le::U64::spec_new(item.head.generation),
                    ram_bytes: le::U64::spec_new(item.head.ram_bytes),
                    compression: c,
                    disk_bytenr: le::U64::spec_new(item.disk_bytenr),
                    disk_num_bytes: le::U64::spec_new(item.disk_num_bytes),
                    offset: le::U64::spec_new(item.offset),
                    num_bytes: le::U64::spec_new(item.num_bytes),
                },
            ),
        }
    }

    /// Decodes the wire structure into the typed record.
    pub fn from_c_struct(item: RawFileExtentItem) -> (r: Result<FileExtentReg, Violation>)
        ensures
            r == Self::spec_from_c_struct(item),
    {
        match Compression::from_raw(item.head.compression) {
            None => Err(Violation::Compression(item.head.compression)),
            Some(c) => Ok(
                FileExtentReg {
                    generation: le::U64::new(item.head.generation),
                    ram_bytes: le::U64::new(item.head.ram_bytes),
                    compression: c,
                    disk_bytenr: le::U64::new(item.disk_bytenr),
                    disk_num_bytes: le::U64::new(item.disk_num_bytes),
                    offset: le::U64::new(item.offset),
                    num_bytes: le::U64::new(item.num_bytes),
                },
            ),
        }
    }
}

impl FileExtentInline {
    /// The inline extent that the payload `p` stores: the part that all file
    /// extent items share, and after it the data, which runs to the end of
    /// the payload. The fields that locate an extent on disk are absent. A
    /// payload shorter than the shared part is a violation.
    pub open spec fn spec_parse(p: Seq<u8>) -> Result<FileExtentInlineView, Violation> {
        if p.len() < FILE_EXTENT_HEAD_SIZE {
            Err(Violation::Truncated)
        } else {
            Self::spec_from_c_struct_and_data(
                RawFileExtentHead::spec_at(p, 0),
                p.subrange(FILE_EXTENT_HEAD_SIZE as int, p.len() as int),
            )
        }
    }

    /// Decodes the payload of a record of this kind.
    pub fn parse(payload: &[u8]) -> (r: Result<FileExtentInline, Violation>)
        ensures
            view_result(r) == Self::spec_parse(payload@),
    {
        if payload.len() < FILE_EXTENT_HEAD_SIZE {
            return Err(Violation::Truncated);
        }
        let head = RawFileExtentHead::read_at(payload, 0);
        Self::from_c_struct_and_data(
            head,
            slice_subrange(payload, FILE_EXTENT_HEAD_SIZE, payload.len()),
        )
    }

    /// The inline extent with the fields of `head` and `data` as its bytes,
    /// or the violation that `head` holds: an unknown compression kind.
    pub open spec fn spec_from_c_struct_and_data(head: RawFileExtentHead, data: Seq<u8>) -> Result<
        FileExtentInlineView,
        Violation,
    > {
        match Compression::spec_from_raw(head.compression) {
            None => Err(Violation::Compression(head.compression)),
            Some(c) => Ok(
                FileExtentInlineView {
                    generation: le::U64::spec_new(head.generation),
                    ram_bytes: le::U64::spec_new(head.ram_bytes),
                    compression: c,
                    data,
                },
            ),
        }
    }

    /// Decodes the shared part of a file extent item together with the
    /// inline data that follows it.
    pub fn from_c_struct_and_data(head: RawFileExtentHead, data: &[u8]) -> (r: Result<
        FileExtentInline,
        Violation,
    >)
        ensures
            view_result(r) == Self::spec_from_c_struct_and_data(head, data@),
    {
        match Compression::from_raw(head.compression) {
            None => Err(Violation::Compression(head.compression)),
            Some(c) => Ok(
                FileExtentInline {
                    generation: le::U64::new(head.generation),
                    ram_bytes: le::U64::new(head.ram_bytes),
                    compression: c,
                    data: copy_all(data),
                },
            ),
        }
    }
}

impl FreeSpaceHeader {
    /// The header that the payload `p` of a free-space header item stores. A
    /// payload shorter than the item is a violation.
    pub open spec fn spec_parse(p: Seq<u8>) -> Result<FreeSpaceHeader, Violation> {
        if p.len() < FREE_SPACE_HEADER_SIZE {
            Err(Violation::Truncated)
        } else {
            Ok(Self::spec_from_c_struct(RawFreeSpaceHeader::spec_at(p, 0)))
        }
    }

    /// Decodes the payload of a record of this kind.
    pub fn parse(payload: &[u8]) -> (r: Result<FreeSpaceHeader, Violation>)
        ensures
            r == Self::spec_parse(payload@),
    {
        if payload.len() < FREE_SPACE_HEADER_SIZE {
            return Err(Violation::Truncated);
        }
        Ok(Self::from_c_struct(RawFreeSpaceHeader::read_at(payload, 0)))
    }

    /// The header that the raw structure `header` stores.
    pub open spec fn spec_from_c_struct(header: RawFreeSpaceHeader) -> FreeSpaceHeader {
        FreeSpaceHeader {
            location: DiskKey::spec_from_c_struct(header.location),
            generation: le::U64::spec_new(header.generation),
            num_entries: le::U64::spec_new(header.num_entries),
            num_bitmaps: le::U64::spec_new(header.num_bitmaps),
        }
    }

    /// Decodes the wire structure into the typed record.
    pub fn from_c_struct(free_space_header: RawFreeSpaceHeader) -> (r: FreeSpaceHeader)
        ensures
            r == Self::spec_from_c_struct(free_space_header),
    {
        FreeSpaceHeader {
            location: DiskKey::from_c_struct(free_space_header.location),
            generation: le::U64::new(free_space_header.generation),
            num_entries: le::U64::new(free_space_header.num_entries),
            num_bitmaps: le::U64::new(free_space_header.num_bitmaps),
        }
    }
}

impl BlockGroupFlag {
    #[verifier::type_invariant]
    spec fn inv(&self) -> bool {
        Self::known(self.bits)
    }

    /// Whether no bit of `bits` lies outside the flags with a meaning.
    pub open spec fn known(bits: u64) -> bool {
        bits & !BTRFS_BLOCK_GROUP_ALL == 0
    }

    /// The flag set with exactly the bits `bits`.
    pub closed spec fn spec_of(bits: u64) -> BlockGroupFlag {
        BlockGroupFlag { bits }
    }

    /// The flag set with the bits `bits`; `None` if one of them has no
    /// meaning.
    pub fn from_bits(bits: u64) -> (r: Option<BlockGroupFlag>)
        ensures
            r == (if Self::known(bits) {
                Some(Self::spec_of(bits))
            } else {
                None
            }),
    {
        if bits & !BTRFS_BLOCK_GROUP_ALL == 0 {
            Some(BlockGroupFlag { bits })
        } else {
            None
        }
    }

    /// The flags as bits. Each of them has a meaning.
    pub fn bits(self) -> (r: u64)
        ensures
            r == self@,
            Self::known(r),
    {
        proof {
            use_type_invariant(self);
        }
        self.bits
    }

    /// Whether every flag of `mask` is set.
    pub fn contains(self, mask: u64) -> (r: bool)
        ensures
            r == (self@ & mask == mask),
    {
        self.bits & mask == mask
    }
}

/// The bits of a flag set are the bits it was made of.
pub broadcast proof fn lemma_flag_bits(bits: u64)
    ensures
        (#[trigger] BlockGroupFlag::spec_of(bits))@ == bits,
{
}

/// A flag set is determined by its bits.
pub broadcast proof fn lemma_flag_of_bits(f: BlockGroupFlag)
    ensures
        BlockGroupFlag::spec_of(#[trigger] f@) == f,
{
}

impl BlockGroup {
    /// The block group that the payload `p` of a block group item stores. A
    /// payload shorter than the item is a violation.
    pub open spec fn spec_parse(p: Seq<u8>) -> Result<BlockGroup, Violation> {
        if p.len() < BLOCK_GROUP_ITEM_SIZE {
            Err(Violation::Truncated)
        } else {
            Self::spec_from_c_struct(RawBlockGroupItem::spec_at(p, 0))
        }
    }

    /// Decodes the payload of a record of this kind.
    pub fn parse(payload: &[u8]) -> (r: Result<BlockGroup, Violation>)
        ensures
            r == Self::spec_parse(payload@),
    {
        if payload.len() < BLOCK_GROUP_ITEM_SIZE {
            return Err(Violation::Truncated);
        }
        Self::from_c_struct(RawBlockGroupItem::read_at(payload, 0))
    }

    /// The block group that the raw item `block_group` stores, or the
    /// violation that it holds: a flag bit without a meaning.
    pub open spec fn spec_from_c_struct(block_group: RawBlockGroupItem) -> Result<
        BlockGroup,
        Violation,
    > {
        if BlockGroupFlag::known(block_group.flags) {
            Ok(
                BlockGroup {
                    used: le::U64::spec_new(block_group.used),
                    chunk_objectid: le::U64::spec_new(block_group.chunk_objectid),
                    flags: BlockGroupFlag::spec_of(block_group.flags),
                },
            )
        } else {
            Err(Violation::BlockGroupFlags(block_group.flags))
        }
    }

    /// Decodes the wire structure into the typed record.
    pub fn from_c_struct(block_group: RawBlockGroupItem) -> (r: Result<BlockGroup, Violation>)
        ensures
            r == Self::spec_from_c_struct(block_group),
    {
        match BlockGroupFlag::from_bits(block_group.flags) {
            None => Err(Violation::BlockGroupFlags(block_group.flags)),
            Some(flags) => Ok(
                BlockGroup {
                    used: le::U64::new(block_group.used),
                    chunk_objectid: le::U64::new(block_group.chunk_objectid),
                    flags,
                },
            ),
        }
    }
}

/// Whether each of the four raw pairs stores a time.
pub open spec fn spec_times_fit(a: RawTimespec, b: RawTimespec, c: RawTimespec, d: RawTimespec) -> bool {
    &&& Timestamp::spec_fits(a.sec, a.nsec)
    &&& Timestamp::spec_fits(b.sec, b.nsec)
    &&& Timestamp::spec_fits(c.sec, c.nsec)
    &&& Timestamp::spec_fits(d.sec, d.nsec)
}

/// Four raw pairs decode exactly when each of them stores a time, and then
/// to those four times in turn.
pub proof fn lemma_times_keep_values(a: RawTimespec, b: RawTimespec, c: RawTimespec, d: RawTimespec)
    ensures
        spec_times(a, b, c, d) is Ok <==> spec_times_fit(a, b, c, d),
        spec_times(a, b, c, d) matches Ok(t) ==> t.0.spec_stores(a) && t.1.spec_stores(b)
            && t.2.spec_stores(c) && t.3.spec_stores(d),
        spec_times(a, b, c, d) is Err ==> spec_times(a, b, c, d)->Err_0 is Time,
{
    lemma_time_keeps_value(a);
    lemma_time_keeps_value(b);
    lemma_time_keeps_value(c);
    lemma_time_keeps_value(d);
}

/// Decoding an inode keeps every value of the wire structure that the
/// record has a field for; each time is the one that its pair stores, with
/// the whole seconds among the nanoseconds carried into the seconds. It
/// fails on nothing but a pair that stores no time.
pub proof fn lemma_inode_keeps_values(raw: RawInodeItem)
    ensures
        Inode::spec_from_c_struct(raw) is Ok <==> spec_times_fit(
            raw.atime,
            raw.ctime,
            raw.mtime,
            raw.otime,
        ),
        Inode::spec_from_c_struct(raw) matches Ok(inode) ==> {
            &&& inode.generation@ == raw.generation
            &&& inode.transid@ == raw.transid
            &&& inode.size@ == raw.size
            &&& inode.nbytes@ == raw.nbytes
            &&& inode.block_group@ == raw.block_group
            &&& inode.nlink@ == raw.nlink
            &&& inode.uid@ == raw.uid
            &&& inode.gid@ == raw.gid
            &&& inode.mode@ == raw.mode
            &&& inode.rdev@ == raw.rdev
            &&& inode.sequence@ == raw.sequence
            &&& inode.atime.spec_stores(raw.atime)
            &&& inode.ctime.spec_stores(raw.ctime)
            &&& inode.mtime.spec_stores(raw.mtime)
            &&& inode.otime.spec_stores(raw.otime)
        },
{
    broadcast use crate::le::group_le;

    lemma_times_keep_values(raw.atime, raw.ctime, raw.mtime, raw.otime);
}

/// Decoding a root keeps every value of the wire structure that the record
/// has a field for, the three identifiers each in its own field, and fails
/// on nothing but a reference count beyond one and a pair that stores no
/// time.
pub proof fn lemma_root_keeps_values(raw: RawRootItem)
    ensures
        Root::spec_from_c_struct(raw) is Ok <==> raw.refs <= 1 && Inode::spec_from_c_struct(
            raw.inode,
        ) is Ok && spec_times_fit(raw.ctime, raw.otime, raw.stime, raw.rtime),
        Inode::spec_from_c_struct(raw.inode) is Ok && raw.refs > 1 ==> Root::spec_from_c_struct(raw)
            == Err::<Root, Violation>(Violation::RootRefs(raw.refs)),
        Root::spec_from_c_struct(raw) matches Ok(root) ==> {
            &&& Ok::<Inode, Violation>(root.inode) == Inode::spec_from_c_struct(raw.inode)
            &&& root.generation@ == raw.generation
            &&& root.root_dirid@ == raw.root_dirid
            &&& root.bytenr@ == raw.bytenr
            &&& root.byte_limit@ == raw.byte_limit
            &&& root.bytes_used@ == raw.bytes_used
            &&& root.last_snapshot@ == raw.last_snapshot
            &&& root.refs == (raw.refs == 1)
            &&& root.btrfs_disk_key.objectid@ == raw.drop_progress.objectid
            &&& root.btrfs_disk_key.type_ == raw.drop_progress.type_
            &&& root.btrfs_disk_key.offset@ == raw.drop_progress.offset
            &&& root.level == raw.level
            &&& root.generation_v2@ == raw.generation_v2
            &&& root.uuid.0 == raw.uuid
            &&& root.parent_uuid.0 == raw.parent_uuid
            &&& root.received_uuid.0 == raw.received_uuid
            &&& root.ctransid@ == raw.ctransid
            &&& root.otransid@ == raw.otransid
            &&& root.stransid@ == raw.stransid
            &&& root.rtransid@ == raw.rtransid
            &&& root.ctime.spec_stores(raw.ctime)
            &&& root.otime.spec_stores(raw.otime)
            &&& root.stime.spec_stores(raw.stime)
            &&& root.rtime.spec_stores(raw.rtime)
        },
{
    broadcast use crate::le::group_le;

    lemma_times_keep_values(raw.ctime, raw.otime, raw.stime, raw.rtime);
}

/// Decoding a back-reference or a root reference keeps the values of the
/// fixed part and has the trailing bytes as its name, byte for byte.
pub proof fn lemma_refs_keep_values(inode_ref: RawInodeRef, root_ref: RawRootRef, data: Seq<u8>)
    ensures
        InodeRef::spec_from_c_struct(inode_ref, data).index@ == inode_ref.index,
        InodeRef::spec_from_c_struct(inode_ref, data).name == data,
        RootRef::spec_from_c_struct(root_ref, data).dirid@ == root_ref.dirid,
        RootRef::spec_from_c_struct(root_ref, data).sequence@ == root_ref.sequence,
        RootRef::spec_from_c_struct(root_ref, data).name == data,
{
    broadcast use crate::le::group_le;
}

/// Decoding a directory entry gives its bytes back, byte for byte: where
/// the type is the mark of an extended attribute and the trailing bytes are
/// a name of the stated length followed by a value, the name and the value;
/// where the type is a file type, the trailing bytes as the name.
pub proof fn lemma_dir_entry_keeps_values(dir: RawDirItem, name: Seq<u8>, value: Seq<u8>)
    ensures
        dir.type_ == BTRFS_FT_XATTR && dir.name_len == name.len() ==> spec_dir_entry(
            dir,
            name + value,
        ) == Ok::<DirEntryView, Violation>(
            DirEntryView::Xattr {
                location: DiskKey::spec_from_c_struct(dir.location),
                transid: le::U64::spec_new(dir.transid),
                name,
                value,
            },
        ),
        FileType::spec_from_raw(dir.type_) matches Some(t) ==> spec_dir_entry(dir, name)
            == Ok::<DirEntryView, Violation>(
            DirEntryView::File {
                location: DiskKey::spec_from_c_struct(dir.location),
                transid: le::U64::spec_new(dir.transid),
                name,
                type_: t,
            },
        ),
        le::U64::spec_new(dir.transid)@ == dir.transid,
        DiskKey::spec_from_c_struct(dir.location).objectid@ == dir.location.objectid,
        DiskKey::spec_from_c_struct(dir.location).type_ == dir.location.type_,
        DiskKey::spec_from_c_struct(dir.location).offset@ == dir.location.offset,
{
    broadcast use crate::le::group_le;

    if dir.name_len == name.len() {
        let data = name + value;
        assert(data.subrange(0, dir.name_len as int) =~= name);
        assert(data.subrange(dir.name_len as int, data.len() as int) =~= value);
    }
}

/// Decoding a file extent keeps the values of the wire structure; an inline
/// extent has the trailing bytes as its data, byte for byte.
pub proof fn lemma_extents_keep_values(item: RawFileExtentItem, data: Seq<u8>)
    ensures
        FileExtentReg::spec_from_c_struct(item) matches Ok(x) ==> {
            &&& x.generation@ == item.head.generation
            &&& x.ram_bytes@ == item.head.ram_bytes
            &&& Some(x.compression) == Compression::spec_from_raw(item.head.compression)
            &&& x.disk_bytenr@ == item.disk_bytenr
            &&& x.disk_num_bytes@ == item.disk_num_bytes
            &&& x.offset@ == item.offset
            &&& x.num_bytes@ == item.num_bytes
        },
        FileExtentInline::spec_from_c_struct_and_data(item.head, data) matches Ok(x) ==> {
            &&& x.generation@ == item.head.generation
            &&& x.ram_bytes@ == item.head.ram_bytes
            &&& Some(x.compression) == Compression::spec_from_raw(item.head.compression)
            &&& x.data == data
        },
{
    broadcast use crate::le::group_le;
}

/// Decoding a free-space header or a block group keeps the values of the
/// wire structure.
pub proof fn lemma_accounting_keeps_values(header: RawFreeSpaceHeader, group: RawBlockGroupItem)
    ensures
        ({
            let h = FreeSpaceHeader::spec_from_c_struct(header);
            &&& h.location == DiskKey::spec_from_c_struct(header.location)
            &&& h.generation@ == header.generation
            &&& h.num_entries@ == header.num_entries
            &&& h.num_bitmaps@ == header.num_bitmaps
        }),
        BlockGroup::spec_from_c_struct(group) matches Ok(g) ==> {
            &&& g.used@ == group.used
            &&& g.chunk_objectid@ == group.chunk_objectid
            &&& g.flags@ == group.flags
        },
{
    broadcast use crate::le::group_le;
    broadcast use lemma_flag_bits;
}

/// A value outside a closed vocabulary is never mapped to a member of it:
/// the conversions give `None`, and the decoders give the violation that
/// names the value.
pub proof fn lemma_out_of_vocabulary_is_rejected(
    dir: RawDirItem,
    data: Seq<u8>,
    item: RawFileExtentItem,
    group: RawBlockGroupItem,
)
    ensures
        Compression::spec_from_raw(item.head.compression) is Some <==> item.head.compression
            <= BTRFS_COMPRESS_ZSTD,
        FileType::spec_from_raw(dir.type_) is Some <==> BTRFS_FT_REG_FILE <= dir.type_
            <= BTRFS_FT_SYMLINK,
        dir.type_ == 0 || dir.type_ > BTRFS_FT_XATTR ==> spec_dir_entry(dir, data) == Err::<
            DirEntryView,
            Violation,
        >(Violation::FileType(dir.type_)),
        item.head.compression > BTRFS_COMPRESS_ZSTD ==> FileExtentReg::spec_from_c_struct(item)
            == Err::<FileExtentReg, Violation>(Violation::Compression(item.head.compression)),
        item.head.compression > BTRFS_COMPRESS_ZSTD
            ==> FileExtentInline::spec_from_c_struct_and_data(item.head, data) == Err::<
            FileExtentInlineView,
            Violation,
        >(Violation::Compression(item.head.compression)),
        !BlockGroupFlag::known(group.flags) ==> BlockGroup::spec_from_c_struct(group) == Err::<
            BlockGroup,
            Violation,
        >(Violation::BlockGroupFlags(group.flags)),
        BlockGroupFlag::known(group.flags) <==> group.flags <= BTRFS_BLOCK_GROUP_ALL,
{
    let flags = group.flags;
    assert((flags & !0x1ffu64 == 0) <==> flags <= 0x1ffu64) by (bit_vector);
}

} // verus!
