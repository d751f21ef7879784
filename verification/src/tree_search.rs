//! The tree-search cursor and the kinds of record it meets.
//!
//! A search is a sequence of page requests. The cursor does not issue them:
//! a pull either yields the next record of the page at hand, or asks the
//! caller to issue a request and to hand the reply to `resume`. After each
//! record the lower bounds of the search move past it, so that the next
//! request continues behind the last record that was handed out.

use crate::error::{view_result, Error, Violation};
use crate::item::{
    spec_parse_dir_entry, BlockGroup, DirEntryView, DirIndex, DirItem, FileExtentInline,
    FileExtentInlineView, FileExtentReg, FreeSpaceHeader, Inode, InodeRef, InodeRefView, Root,
    RootRef, RootRefView,
};
use crate::raw::{
    RawFileExtentHead, SearchHeader, FILE_EXTENT_HEAD_SIZE, IOCTL_BUFF_SIZE, SEARCH_HEADER_SIZE,
};
use crate::wire::zeroed;
use core::ops::Range;
use nix::errno::Errno;
use vstd::prelude::*;
use vstd::slice::slice_subrange;

verus! {

/// The kinds of record that a tree can hold. Each has a numeric tag, and the
/// tags order the kinds.
#[derive(Clone, Copy, Debug, PartialEq, Eq, Structural)]
pub enum KeyType {
    /// The header of a cached free-space map; it has the tag zero.
    BtrfsFreeSpaceHeaderKey,
    BtrfsInodeItemKey,
    BtrfsInodeRefKey,
    BtrfsInodeExtrefKey,
    BtrfsXattrItemKey,
    BtrfsVerityDescItemKey,
    BtrfsVerityMerkleItemKey,
    BtrfsOrphanItemKey,
    BtrfsDirLogItemKey,
    BtrfsDirLogIndexKey,
    BtrfsDirItemKey,
    BtrfsDirIndexKey,
    BtrfsExtentDataKey,
    BtrfsCsumItemKey,
    BtrfsExtentCsumKey,
    BtrfsRootItemKey,
    BtrfsRootBackrefKey,
    BtrfsRootRefKey,
    BtrfsExtentItemKey,
    BtrfsMetadataItemKey,
    BtrfsTreeBlockRefKey,
    BtrfsExtentDataRefKey,
    BtrfsExtentRefV0Key,
    BtrfsSharedBlockRefKey,
    BtrfsSharedDataRefKey,
    BtrfsBlockGroupItemKey,
    BtrfsFreeSpaceInfoKey,
    BtrfsFreeSpaceExtentKey,
    BtrfsFreeSpaceBitmapKey,
    BtrfsDevExtentKey,
    BtrfsDevItemKey,
    BtrfsChunkItemKey,
    BtrfsQgroupStatusKey,
    BtrfsQgroupInfoKey,
    BtrfsQgroupLimitKey,
    BtrfsQgroupRelationKey,
    BtrfsTemporaryItemKey,
    BtrfsPersistentItemKey,
    BtrfsDevReplaceKey,
    BtrfsUuidKeySubvol,
    BtrfsUuidKeyReceivedSubvol,
    BtrfsStringItemKey,
}

impl KeyType {
    /// The numeric tag of the kind.
    pub open spec fn spec_tag(self) -> u32 {
        match self {
            KeyType::BtrfsFreeSpaceHeaderKey => 0,
            KeyType::BtrfsInodeItemKey => 1,
            KeyType::BtrfsInodeRefKey => 12,
            KeyType::BtrfsInodeExtrefKey => 13,
            KeyType::BtrfsXattrItemKey => 24,
            KeyType::BtrfsVerityDescItemKey => 36,
            KeyType::BtrfsVerityMerkleItemKey => 37,
            KeyType::BtrfsOrphanItemKey => 48,
            KeyType::BtrfsDirLogItemKey => 60,
            KeyType::BtrfsDirLogIndexKey => 72,
            KeyType::BtrfsDirItemKey => 84,
            KeyType::BtrfsDirIndexKey => 96,
            KeyType::BtrfsExtentDataKey => 108,
            KeyType::BtrfsCsumItemKey => 120,
            KeyType::BtrfsExtentCsumKey => 128,
            KeyType::BtrfsRootItemKey => 132,
            KeyType::BtrfsRootBackrefKey => 144,
            KeyType::BtrfsRootRefKey => 156,
            KeyType::BtrfsExtentItemKey => 168,
            KeyType::BtrfsMetadataItemKey => 169,
            KeyType::BtrfsTreeBlockRefKey => 176,
            KeyType::BtrfsExtentDataRefKey => 178,
            KeyType::BtrfsExtentRefV0Key => 180,
            KeyType::BtrfsSharedBlockRefKey => 182,
            KeyType::BtrfsSharedDataRefKey => 184,
            KeyType::BtrfsBlockGroupItemKey => 192,
            KeyType::BtrfsFreeSpaceInfoKey => 198,
            KeyType::BtrfsFreeSpaceExtentKey => 199,
            KeyType::BtrfsFreeSpaceBitmapKey => 200,
            KeyType::BtrfsDevExtentKey => 204,
            KeyType::BtrfsDevItemKey => 216,
            KeyType::BtrfsChunkItemKey => 228,
            KeyType::BtrfsQgroupStatusKey => 240,
            KeyType::BtrfsQgroupInfoKey => 242,
            KeyType::BtrfsQgroupLimitKey => 244,
            KeyType::BtrfsQgroupRelationKey => 246,
            KeyType::BtrfsTemporaryItemKey => 248,
            KeyType::BtrfsPersistentItemKey => 249,
            KeyType::BtrfsDevReplaceKey => 250,
            KeyType::BtrfsUuidKeySubvol => 251,
            KeyType::BtrfsUuidKeyReceivedSubvol => 252,
            KeyType::BtrfsStringItemKey => 253,
        }
    }

    /// The kind with the tag `value`, if there is one.
    pub open spec fn spec_from_tag(value: u32) -> Option<KeyType> {
        if value == 0 {
            Some(KeyType::BtrfsFreeSpaceHeaderKey)
        } else if value == 1 {
            Some(KeyType::BtrfsInodeItemKey)
        } else if value == 12 {
            Some(KeyType::BtrfsInodeRefKey)
        } else if value == 13 {
            Some(KeyType::BtrfsInodeExtrefKey)
        } else if value == 24 {
            Some(KeyType::BtrfsXattrItemKey)
        } else if value == 36 {
            Some(KeyType::BtrfsVerityDescItemKey)
        } else if value == 37 {
            Some(KeyType::BtrfsVerityMerkleItemKey)
        } else if value == 48 {
            Some(KeyType::BtrfsOrphanItemKey)
        } else if value == 60 {
            Some(KeyType::BtrfsDirLogItemKey)
        } else if value == 72 {
            Some(KeyType::BtrfsDirLogIndexKey)
        } else if value == 84 {
            Some(KeyType::BtrfsDirItemKey)
        } else if value == 96 {
            Some(KeyType::BtrfsDirIndexKey)
        } else if value == 108 {
            Some(KeyType::BtrfsExtentDataKey)
        } else if value == 120 {
            Some(KeyType::BtrfsCsumItemKey)
        } else if value == 128 {
            Some(KeyType::BtrfsExtentCsumKey)
        } else if value == 132 {
            Some(KeyType::BtrfsRootItemKey)
        } else if value == 144 {
            Some(KeyType::BtrfsRootBackrefKey)
        } else if value == 156 {
            Some(KeyType::BtrfsRootRefKey)
        } else if value == 168 {
            Some(KeyType::BtrfsExtentItemKey)
        } else if value == 169 {
            Some(KeyType::BtrfsMetadataItemKey)
        } else if value == 176 {
            Some(KeyType::BtrfsTreeBlockRefKey)
        } else if value == 178 {
            Some(KeyType::BtrfsExtentDataRefKey)
        } else if value == 180 {
            Some(KeyType::BtrfsExtentRefV0Key)
        } else if value == 182 {
            Some(KeyType::BtrfsSharedBlockRefKey)
        } else if value == 184 {
            Some(KeyType::BtrfsSharedDataRefKey)
        } else if value == 192 {
            Some(KeyType::BtrfsBlockGroupItemKey)
        } else if value == 198 {
            Some(KeyType::BtrfsFreeSpaceInfoKey)
        } else if value == 199 {
            Some(KeyType::BtrfsFreeSpaceExtentKey)
        } else if value == 200 {
            Some(KeyType::BtrfsFreeSpaceBitmapKey)
        } else if value == 204 {
            Some(KeyType::BtrfsDevExtentKey)
        } else if value == 216 {
            Some(KeyType::BtrfsDevItemKey)
        } else if value == 228 {
            Some(KeyType::BtrfsChunkItemKey)
        } else if value == 240 {
            Some(KeyType::BtrfsQgroupStatusKey)
        } else if value == 242 {
            Some(KeyType::BtrfsQgroupInfoKey)
        } else if value == 244 {
            Some(KeyType::BtrfsQgroupLimitKey)
        } else if value == 246 {
            Some(KeyType::BtrfsQgroupRelationKey)
        } else if value == 248 {
            Some(KeyType::BtrfsTemporaryItemKey)
        } else if value == 249 {
            Some(KeyType::BtrfsPersistentItemKey)
        } else if value == 250 {
            Some(KeyType::BtrfsDevReplaceKey)
        } else if value == 251 {
            Some(KeyType::BtrfsUuidKeySubvol)
        } else if value == 252 {
            Some(KeyType::BtrfsUuidKeyReceivedSubvol)
        } else if value == 253 {
            Some(KeyType::BtrfsStringItemKey)
        } else {
            None
        }
    }

    /// The numeric tag of the kind.
    #[verifier::when_used_as_spec(spec_tag)]
    pub fn tag(self) -> (r: u32)
        ensures
            r == self.spec_tag(),
            r <= 253,
    {
        match self {
            KeyType::BtrfsFreeSpaceHeaderKey => 0,
            KeyType::BtrfsInodeItemKey => 1,
            KeyType::BtrfsInodeRefKey => 12,
            KeyType::BtrfsInodeExtrefKey => 13,
            KeyType::BtrfsXattrItemKey => 24,
            KeyType::BtrfsVerityDescItemKey => 36,
            KeyType::BtrfsVerityMerkleItemKey => 37,
            KeyType::BtrfsOrphanItemKey => 48,
            KeyType::BtrfsDirLogItemKey => 60,
            KeyType::BtrfsDirLogIndexKey => 72,
            KeyType::BtrfsDirItemKey => 84,
            KeyType::BtrfsDirIndexKey => 96,
            KeyType::BtrfsExtentDataKey => 108,
            KeyType::BtrfsCsumItemKey => 120,
            KeyType::BtrfsExtentCsumKey => 128,
            KeyType::BtrfsRootItemKey => 132,
            KeyType::BtrfsRootBackrefKey => 144,
            KeyType::BtrfsRootRefKey => 156,
            KeyType::BtrfsExtentItemKey => 168,
            KeyType::BtrfsMetadataItemKey => 169,
            KeyType::BtrfsTreeBlockRefKey => 176,
            KeyType::BtrfsExtentDataRefKey => 178,
            KeyType::BtrfsExtentRefV0Key => 180,
            KeyType::BtrfsSharedBlockRefKey => 182,
            KeyType::BtrfsSharedDataRefKey => 184,
            KeyType::BtrfsBlockGroupItemKey => 192,
            KeyType::BtrfsFreeSpaceInfoKey => 198,
            KeyType::BtrfsFreeSpaceExtentKey => 199,
            KeyType::BtrfsFreeSpaceBitmapKey => 200,
            KeyType::BtrfsDevExtentKey => 204,
            KeyType::BtrfsDevItemKey => 216,
            KeyType::BtrfsChunkItemKey => 228,
            KeyType::BtrfsQgroupStatusKey => 240,
            KeyType::BtrfsQgroupInfoKey => 242,
            KeyType::BtrfsQgroupLimitKey => 244,
            KeyType::BtrfsQgroupRelationKey => 246,
            KeyType::BtrfsTemporaryItemKey => 248,
            KeyType::BtrfsPersistentItemKey => 249,
            KeyType::BtrfsDevReplaceKey => 250,
            KeyType::BtrfsUuidKeySubvol => 251,
            KeyType::BtrfsUuidKeyReceivedSubvol => 252,
            KeyType::BtrfsStringItemKey => 253,
        }
    }
}

impl TryFrom<u32> for KeyType {
    type Error = ();

    /// The kind with the tag `value`; an error for a value that is no tag.
    fn try_from(value: u32) -> (r: Result<KeyType, ()>) {
        if value == 0 {
            Ok(KeyType::BtrfsFreeSpaceHeaderKey)
        } else if value == 1 {
            Ok(KeyType::BtrfsInodeItemKey)
        } else if value == 12 {
            Ok(KeyType::BtrfsInodeRefKey)
        } else if value == 13 {
            Ok(KeyType::BtrfsInodeExtrefKey)
        } else if value == 24 {
            Ok(KeyType::BtrfsXattrItemKey)
        } else if value == 36 {
            Ok(KeyType::BtrfsVerityDescItemKey)
        } else if value == 37 {
            Ok(KeyType::BtrfsVerityMerkleItemKey)
        } else if value == 48 {
            Ok(KeyType::BtrfsOrphanItemKey)
        } else if value == 60 {
            Ok(KeyType::BtrfsDirLogItemKey)
        } else if value == 72 {
            Ok(KeyType::BtrfsDirLogIndexKey)
        } else if value == 84 {
            Ok(KeyType::BtrfsDirItemKey)
        } else if value == 96 {
            Ok(KeyType::BtrfsDirIndexKey)
        } else if value == 108 {
            Ok(KeyType::BtrfsExtentDataKey)
        } else if value == 120 {
            Ok(KeyType::BtrfsCsumItemKey)
        } else if value == 128 {
            Ok(KeyType::BtrfsExtentCsumKey)
        } else if value == 132 {
            Ok(KeyType::BtrfsRootItemKey)
        } else if value == 144 {
            Ok(KeyType::BtrfsRootBackrefKey)
        } else if value == 156 {
            Ok(KeyType::BtrfsRootRefKey)
        } else if value == 168 {
            Ok(KeyType::BtrfsExtentItemKey)
        } else if value == 169 {
            Ok(KeyType::BtrfsMetadataItemKey)
        } else if value == 176 {
            Ok(KeyType::BtrfsTreeBlockRefKey)
        } else if value == 178 {
            Ok(KeyType::BtrfsExtentDataRefKey)
        } else if value == 180 {
            Ok(KeyType::BtrfsExtentRefV0Key)
        } else if value == 182 {
            Ok(KeyType::BtrfsSharedBlockRefKey)
        } else if value == 184 {
            Ok(KeyType::BtrfsSharedDataRefKey)
        } else if value == 192 {
            Ok(KeyType::BtrfsBlockGroupItemKey)
        } else if value == 198 {
            Ok(KeyType::BtrfsFreeSpaceInfoKey)
        } else if value == 199 {
            Ok(KeyType::BtrfsFreeSpaceExtentKey)
        } else if value == 200 {
            Ok(KeyType::BtrfsFreeSpaceBitmapKey)
        } else if value == 204 {
            Ok(KeyType::BtrfsDevExtentKey)
        } else if value == 216 {
            Ok(KeyType::BtrfsDevItemKey)
        } else if value == 228 {
            Ok(KeyType::BtrfsChunkItemKey)
        } else if value == 240 {
            Ok(KeyType::BtrfsQgroupStatusKey)
        } else if value == 242 {
            Ok(KeyType::BtrfsQgroupInfoKey)
        } else if value == 244 {
            Ok(KeyType::BtrfsQgroupLimitKey)
        } else if value == 246 {
            Ok(KeyType::BtrfsQgroupRelationKey)
        } else if value == 248 {
            Ok(KeyType::BtrfsTemporaryItemKey)
        } else if value == 249 {
            Ok(KeyType::BtrfsPersistentItemKey)
        } else if value == 250 {
            Ok(KeyType::BtrfsDevReplaceKey)
        } else if value == 251 {
            Ok(KeyType::BtrfsUuidKeySubvol)
        } else if value == 252 {
            Ok(KeyType::BtrfsUuidKeyReceivedSubvol)
        } else if value == 253 {
            Ok(KeyType::BtrfsStringItemKey)
        } else {
            Err(())
        }
    }
}

impl vstd::std_specs::convert::TryFromSpecImpl<u32> for KeyType {
    /// `try_from` returns what `try_from_spec` says.
    open spec fn obeys_try_from_spec() -> bool {
        true
    }

    /// What `try_from` returns: the kind with the tag `value`, or an error
    /// where `value` is no tag.
    open spec fn try_from_spec(value: u32) -> Result<KeyType, ()> {
        match KeyType::spec_from_tag(value) {
            Some(k) => Ok(k),
            None => Err(()),
        }
    }
}

/// A tag names the kind that carries it, and no value but a tag names a kind.
pub proof fn lemma_tag_round_trip(kind: KeyType, value: u32)
    ensures
        KeyType::spec_from_tag(kind.spec_tag()) == Some(kind),
        KeyType::spec_from_tag(value) matches Some(k) ==> k.spec_tag() == value,
{
}

pub const BTRFS_ROOT_TREE_OBJECTID: u64 = 1;

pub const BTRFS_EXTENT_TREE_OBJECTID: u64 = 2;

pub const BTRFS_CHUNK_TREE_OBJECTID: u64 = 3;

pub const BTRFS_DEV_TREE_OBJECTID: u64 = 4;

pub const BTRFS_FS_TREE_OBJECTID: u64 = 5;

pub const BTRFS_ROOT_TREE_DIR_OBJECTID: u64 = 6;

pub const BTRFS_CSUM_TREE_OBJECTID: u64 = 7;

pub const BTRFS_QUOTA_TREE_OBJECTID: u64 = 8;

pub const BTRFS_UUID_TREE_OBJECTID: u64 = 9;

pub const BTRFS_FREE_SPACE_TREE_OBJECTID: u64 = 10;

pub const BTRFS_BLOCK_GROUP_TREE_OBJECTID: u64 = 11;

pub const BTRFS_FILE_EXTENT_INLINE: u8 = 0;

pub const BTRFS_FILE_EXTENT_REG: u8 = 1;

pub const BTRFS_FILE_EXTENT_PREALLOC: u8 = 2;

/// The tree that a search runs in.
#[derive(Clone, Copy, Debug, PartialEq, Eq)]
pub enum Tree {
    /// The tree of the subvolume that the handle of the search lies in.
    Auto,
    Root,
    Extent,
    Chunk,
    Dev,
    Fs,
    Dir,
    Csum,
    Quota,
    Uuid,
    FreeSpace,
    BlockGroup,
    /// The tree of the subvolume with this id.
    Subvol(u64),
}

impl Tree {
    /// The identifier by which a page request names the tree.
    pub open spec fn spec_into_u64(self) -> u64 {
        match self {
            Tree::Auto => 0,
            Tree::Root => BTRFS_ROOT_TREE_OBJECTID,
            Tree::Extent => BTRFS_EXTENT_TREE_OBJECTID,
            Tree::Fs => BTRFS_FS_TREE_OBJECTID,
            Tree::Chunk => BTRFS_CHUNK_TREE_OBJECTID,
            Tree::Dev => BTRFS_DEV_TREE_OBJECTID,
            Tree::Dir => BTRFS_ROOT_TREE_DIR_OBJECTID,
            Tree::Csum => BTRFS_CSUM_TREE_OBJECTID,
            Tree::Quota => BTRFS_QUOTA_TREE_OBJECTID,
            Tree::Uuid => BTRFS_UUID_TREE_OBJECTID,
            Tree::FreeSpace => BTRFS_FREE_SPACE_TREE_OBJECTID,
            Tree::BlockGroup => BTRFS_BLOCK_GROUP_TREE_OBJECTID,
            Tree::Subvol(i) => i,
        }
    }

    /// The identifier by which a page request names the tree.
    #[verifier::when_used_as_spec(spec_into_u64)]
    pub fn into_u64(self) -> (r: u64)
        ensures
            r == self.spec_into_u64(),
    {
        match self {
            Tree::Auto => 0,
            Tree::Root => BTRFS_ROOT_TREE_OBJECTID,
            Tree::Extent => BTRFS_EXTENT_TREE_OBJECTID,
            Tree::Fs => BTRFS_FS_TREE_OBJECTID,
            Tree::Chunk => BTRFS_CHUNK_TREE_OBJECTID,
            Tree::Dev => BTRFS_DEV_TREE_OBJECTID,
            Tree::Dir => BTRFS_ROOT_TREE_DIR_OBJECTID,
            Tree::Csum => BTRFS_CSUM_TREE_OBJECTID,
            Tree::Quota => BTRFS_QUOTA_TREE_OBJECTID,
            Tree::Uuid => BTRFS_UUID_TREE_OBJECTID,
            Tree::FreeSpace => BTRFS_FREE_SPACE_TREE_OBJECTID,
            Tree::BlockGroup => BTRFS_BLOCK_GROUP_TREE_OBJECTID,
            Tree::Subvol(i) => i,
        }
    }
}

/// The position of a record within its tree.
#[derive(Clone, Copy, Debug, PartialEq, Eq)]
pub struct Key {
    pub objectid: u64,
    pub type_: KeyType,
    pub offset: u64,
}

impl Key {
    /// Whether `self` comes before `other` in a tree: keys are ordered by
    /// object id, then by the tag of the kind, then by offset.
    pub open spec fn spec_precedes(self, other: Key) -> bool {
        self.objectid < other.objectid || (self.objectid == other.objectid && (
        self.type_.spec_tag() < other.type_.spec_tag() || (self.type_.spec_tag()
            == other.type_.spec_tag() && self.offset < other.offset)))
    }

    /// Whether `self` comes before `other` in a tree.
    pub fn precedes(&self, other: &Key) -> (r: bool)
        ensures
            r == self.spec_precedes(*other),
    {
        let mine: u32 = self.type_.tag();
        let theirs: u32 = other.type_.tag();
        self.objectid < other.objectid || (self.objectid == other.objectid && (mine < theirs || (
        mine == theirs && self.offset < other.offset)))
    }
}

/// The order of keys is a strict total order: no key comes before itself,
/// the order is transitive, and of two different keys one comes before the
/// other.
pub proof fn lemma_key_order(a: Key, b: Key, c: Key)
    ensures
        !a.spec_precedes(a),
        a.spec_precedes(b) && b.spec_precedes(c) ==> a.spec_precedes(c),
        a.spec_precedes(b) ==> !b.spec_precedes(a),
        a != b ==> a.spec_precedes(b) || b.spec_precedes(a),
{
    lemma_tag_round_trip(a.type_, 0);
    lemma_tag_round_trip(b.type_, 0);
}

/// A decoded record.
#[derive(Clone, Debug, PartialEq, Eq)]
pub enum Item {
    Root(Root),
    RootRef(RootRef),
    RootBackRef(RootRef),
    FileExtentReg(FileExtentReg),
    FileExtentInline(FileExtentInline),
    DirItem(DirItem),
    DirIndex(DirIndex),
    Inode(Inode),
    InodeRef(InodeRef),
    FreeSpaceHeader(FreeSpaceHeader),
    BlockGroup(BlockGroup),
}

/// What an `Item` holds, with all bytes as sequences.
pub enum ItemView {
    Root(Root),
    RootRef(RootRefView),
    RootBackRef(RootRefView),
    FileExtentReg(FileExtentReg),
    FileExtentInline(FileExtentInlineView),
    DirItem(DirEntryView),
    DirIndex(DirEntryView),
    Inode(Inode),
    InodeRef(InodeRefView),
    FreeSpaceHeader(FreeSpaceHeader),
    BlockGroup(BlockGroup),
}

impl View for Item {
    type V = ItemView;

    open spec fn view(&self) -> ItemView {
        match *self {
            Item::Root(x) => ItemView::Root(x),
            Item::RootRef(x) => ItemView::RootRef(x@),
            Item::RootBackRef(x) => ItemView::RootBackRef(x@),
            Item::FileExtentReg(x) => ItemView::FileExtentReg(x),
            Item::FileExtentInline(x) => ItemView::FileExtentInline(x@),
            Item::DirItem(x) => ItemView::DirItem(x@),
            Item::DirIndex(x) => ItemView::DirIndex(x@),
            Item::Inode(x) => ItemView::Inode(x),
            Item::InodeRef(x) => ItemView::InodeRef(x@),
            Item::FreeSpaceHeader(x) => ItemView::FreeSpaceHeader(x),
            Item::BlockGroup(x) => ItemView::BlockGroup(x),
        }
    }
}

/// The record that the payload `p` of a file extent item stores, or the
/// violation that it holds.
///
/// The extent type, which lies in the part that both shapes share, decides:
/// regular and preallocated extents have the out-of-line shape, inline
/// extents the inline shape, and any other type is a violation.
pub open spec fn spec_decode_extent(p: Seq<u8>) -> Result<ItemView, Violation> {
    if p.len() < FILE_EXTENT_HEAD_SIZE {
        Err(Violation::Truncated)
    } else {
        let t = RawFileExtentHead::spec_at(p, 0).type_;
        if t == BTRFS_FILE_EXTENT_REG || t == BTRFS_FILE_EXTENT_PREALLOC {
            match FileExtentReg::spec_parse(p) {
                Ok(x) => Ok(ItemView::FileExtentReg(x)),
                Err(v) => Err(v),
            }
        } else if t == BTRFS_FILE_EXTENT_INLINE {
            match FileExtentInline::spec_parse(p) {
                Ok(x) => Ok(ItemView::FileExtentInline(x)),
                Err(v) => Err(v),
            }
        } else {
            Err(Violation::ExtentType(t))
        }
    }
}

/// An extent type outside the three known ones is never decoded: whatever
/// else the payload holds, the decoder gives the violation that names the
/// type.
pub proof fn lemma_unknown_extent_type_is_rejected(p: Seq<u8>)
    requires
        p.len() >= FILE_EXTENT_HEAD_SIZE,
        RawFileExtentHead::spec_at(p, 0).type_ > BTRFS_FILE_EXTENT_PREALLOC,
    ensures
        spec_decode_extent(p) == Err::<ItemView, Violation>(
            Violation::ExtentType(RawFileExtentHead::spec_at(p, 0).type_),
        ),
        spec_decode_item(KeyType::BtrfsExtentDataKey, p) == Err::<ItemView, Error>(
            Error::Schema(Violation::ExtentType(RawFileExtentHead::spec_at(p, 0).type_)),
        ),
{
    reveal(spec_decode_known);
}

/// The record of kind `kind` that the payload `p` stores or the violation
/// that it holds; `None` for a kind without a decoder.
///
/// The definition is kept from the prover until it is revealed, since it
/// unfolds into every record layout.
#[verifier::opaque]
pub open spec fn spec_decode_known(kind: KeyType, p: Seq<u8>) -> Option<
    Result<ItemView, Violation>,
> {
    match kind {
        KeyType::BtrfsInodeItemKey => Some(
            match Inode::spec_parse(p) {
                Ok(x) => Ok(ItemView::Inode(x)),
                Err(v) => Err(v),
            },
        ),
        KeyType::BtrfsInodeRefKey => Some(
            match InodeRef::spec_parse(p) {
                Ok(x) => Ok(ItemView::InodeRef(x)),
                Err(v) => Err(v),
            },
        ),
        KeyType::BtrfsDirItemKey => Some(
            match spec_parse_dir_entry(p) {
                Ok(x) => Ok(ItemView::DirItem(x)),
                Err(v) => Err(v),
            },
        ),
        KeyType::BtrfsDirIndexKey => Some(
            match spec_parse_dir_entry(p) {
                Ok(x) => Ok(ItemView::DirIndex(x)),
                Err(v) => Err(v),
            },
        ),
        KeyType::BtrfsExtentDataKey => Some(spec_decode_extent(p)),
        KeyType::BtrfsRootItemKey => Some(
            match Root::spec_parse(p) {
                Ok(x) => Ok(ItemView::Root(x)),
                Err(v) => Err(v),
            },
        ),
        KeyType::BtrfsRootBackrefKey => Some(
            match RootRef::spec_parse(p) {
                Ok(x) => Ok(ItemView::RootBackRef(x)),
                Err(v) => Err(v),
            },
        ),
        KeyType::BtrfsRootRefKey => Some(
            match RootRef::spec_parse(p) {
                Ok(x) => Ok(ItemView::RootRef(x)),
                Err(v) => Err(v),
            },
        ),
        KeyType::BtrfsBlockGroupItemKey => Some(
            match BlockGroup::spec_parse(p) {
                Ok(x) => Ok(ItemView::BlockGroup(x)),
                Err(v) => Err(v),
            },
        ),
        KeyType::BtrfsFreeSpaceHeaderKey => Some(
            match FreeSpaceHeader::spec_parse(p) {
                Ok(x) => Ok(ItemView::FreeSpaceHeader(x)),
                Err(v) => Err(v),
            },
        ),
        _ => None,
    }
}

/// The record of kind `kind` that the payload `p` stores, or the reason why
/// there is none: the kind has no decoder, or the payload holds a violation.
pub open spec fn spec_decode_item(kind: KeyType, p: Seq<u8>) -> Result<ItemView, Error> {
    match spec_decode_known(kind, p) {
        None => Err(Error::Unsupported(kind)),
        Some(Ok(item)) => Ok(item),
        Some(Err(v)) => Err(Error::Schema(v)),
    }
}

/// Decodes the payload of a file extent item into the shape that its extent
/// type calls for.
pub fn decode_extent(payload: &[u8]) -> (r: Result<Item, Violation>)
    ensures
        view_result(r) == spec_decode_extent(payload@),
{
    if payload.len() < FILE_EXTENT_HEAD_SIZE {
        return Err(Violation::Truncated);
    }
    let t: u8 = RawFileExtentHead::read_at(payload, 0).type_;
    if t == BTRFS_FILE_EXTENT_REG || t == BTRFS_FILE_EXTENT_PREALLOC {
        match FileExtentReg::parse(payload) {
            Ok(x) => Ok(Item::FileExtentReg(x)),
            Err(v) => Err(v),
        }
    } else if t == BTRFS_FILE_EXTENT_INLINE {
        match FileExtentInline::parse(payload) {
            Ok(x) => Ok(Item::FileExtentInline(x)),
            Err(v) => Err(v),
        }
    } else {
        Err(Violation::ExtentType(t))
    }
}

/// Decodes the payload of a record of kind `kind`.
pub fn decode_item(kind: KeyType, payload: &[u8]) -> (r: Result<Item, Error>)
    ensures
        view_result(r) == spec_decode_item(kind, payload@),
{
    reveal(spec_decode_known);
    let known: Result<Item, Violation> = match kind {
        KeyType::BtrfsInodeItemKey => match Inode::parse(payload) {
            Ok(x) => Ok(Item::Inode(x)),
            Err(v) => Err(v),
        },
        KeyType::BtrfsInodeRefKey => match InodeRef::parse(payload) {
            Ok(x) => Ok(Item::InodeRef(x)),
            Err(v) => Err(v),
        },
        KeyType::BtrfsDirItemKey => match DirItem::parse(payload) {
            Ok(x) => Ok(Item::DirItem(x)),
            Err(v) => Err(v),
        },
        KeyType::BtrfsDirIndexKey => match DirIndex::parse(payload) {
            Ok(x) => Ok(Item::DirIndex(x)),
            Err(v) => Err(v),
        },
        KeyType::BtrfsExtentDataKey => decode_extent(payload),
        KeyType::BtrfsRootItemKey => match Root::parse(payload) {
            Ok(x) => Ok(Item::Root(x)),
            Err(v) => Err(v),
        },
        KeyType::BtrfsRootBackrefKey => match RootRef::parse(payload) {
            Ok(x) => Ok(Item::RootBackRef(x)),
            Err(v) => Err(v),
        },
        KeyType::BtrfsRootRefKey => match RootRef::parse(payload) {
            Ok(x) => Ok(Item::RootRef(x)),
            Err(v) => Err(v),
        },
        KeyType::BtrfsBlockGroupItemKey => match BlockGroup::parse(payload) {
            Ok(x) => Ok(Item::BlockGroup(x)),
            Err(v) => Err(v),
        },
        KeyType::BtrfsFreeSpaceHeaderKey => match FreeSpaceHeader::parse(payload) {
            Ok(x) => Ok(Item::FreeSpaceHeader(x)),
            Err(v) => Err(v),
        },
        _ => {
            return Err(Error::Unsupported(kind));
        },
    };
    match known {
        Ok(item) => Ok(item),
        Err(v) => Err(Error::Schema(v)),
    }
}

/// The descriptor of a page request: the tree, the four ranges that a record
/// must lie in, and the number of records asked for.
#[derive(Clone, Copy, Debug, PartialEq, Eq)]
pub struct SearchKey {
    pub tree_id: u64,
    pub min_objectid: u64,
    pub max_objectid: u64,
    pub min_offset: u64,
    pub max_offset: u64,
    pub min_transid: u64,
    pub max_transid: u64,
    pub min_type: u32,
    pub max_type: u32,
    pub nr_items: u32,
}

/// A page request: the descriptor, and the size in bytes of the buffer that
/// the request is to fill.
#[derive(Clone, Copy, Debug, PartialEq, Eq)]
pub struct SearchRequest {
    pub key: SearchKey,
    pub buf_size: u64,
}

/// What a search keeps between page requests: the descriptor, the size of the
/// buffer that a request is to fill, and the buffer, which holds the page at
/// hand.
#[derive(Clone, Debug)]
pub struct TreeSearchArgs {
    key: SearchKey,
    size: u64,
    buffer: Vec<u8>,
}

/// What a `TreeSearchArgs` holds, with the page as a sequence.
pub struct TreeSearchArgsView {
    pub key: SearchKey,
    pub size: u64,
    pub buffer: Seq<u8>,
}

impl View for TreeSearchArgs {
    type V = TreeSearchArgsView;

    closed spec fn view(&self) -> TreeSearchArgsView {
        TreeSearchArgsView { key: self.key, size: self.size, buffer: self.buffer@ }
    }
}

impl TreeSearchArgs {
    /// The arguments of a search in the tree `tree_id` for records whose
    /// object id, offset, transaction id and kind lie in the given ranges,
    /// with `items` as the record count of the descriptor. The buffer has
    /// the size that a page request is to fill, and holds zeros.
    pub fn new(
        tree_id: u64,
        objectids: Range<u64>,
        offsets: Range<u64>,
        transids: Range<u64>,
        types: Range<u32>,
        items: u32,
    ) -> (r: Self)
        ensures
            r@ == (TreeSearchArgsView {
                key: SearchKey {
                    tree_id,
                    min_objectid: objectids.start,
                    max_objectid: objectids.end,
                    min_offset: offsets.start,
                    max_offset: offsets.end,
                    min_transid: transids.start,
                    max_transid: transids.end,
                    min_type: types.start,
                    max_type: types.end,
                    nr_items: items,
                },
                size: IOCTL_BUFF_SIZE as u64,
                buffer: Seq::new(IOCTL_BUFF_SIZE as nat, |i: int| 0u8),
            }),
    {
        let key = SearchKey {
            tree_id,
            min_objectid: objectids.start,
            max_objectid: objectids.end,
            min_offset: offsets.start,
            max_offset: offsets.end,
            min_transid: transids.start,
            max_transid: transids.end,
            min_type: types.start,
            max_type: types.end,
            nr_items: items,
        };
        TreeSearchArgs { key, size: IOCTL_BUFF_SIZE as u64, buffer: zeroed(IOCTL_BUFF_SIZE) }
    }

    /// The descriptor.
    pub fn key(&self) -> (r: SearchKey)
        ensures
            r == self@.key,
    {
        self.key
    }

    /// The size of the buffer that a page request is to fill.
    pub fn size(&self) -> (r: u64)
        ensures
            r == self@.size,
    {
        self.size
    }

    /// The buffer: zeros at first, then the page at hand.
    pub fn buffer(&self) -> (r: &[u8])
        ensures
            r@ == self@.buffer,
    {
        self.buffer.as_slice()
    }
}

/// The reply to a page request that succeeded: the number of records that the
/// page holds, and its bytes.
#[derive(Clone, Debug, PartialEq, Eq)]
pub struct Page {
    pub nr_items: u32,
    pub buffer: Vec<u8>,
}

/// What a `Page` holds, with its bytes as a sequence.
pub struct PageView {
    pub nr_items: u32,
    pub buffer: Seq<u8>,
}

impl View for Page {
    type V = PageView;

    open spec fn view(&self) -> PageView {
        PageView { nr_items: self.nr_items, buffer: self.buffer@ }
    }
}

/// Where a search stands.
#[derive(Clone, Copy, Debug, PartialEq, Eq)]
pub enum Phase {
    /// No record is at hand; the next pull asks for a page.
    Idle,
    /// A page was asked for and the reply is awaited.
    Querying,
    /// The page at hand holds records that were not handed out yet.
    Draining,
    /// A page request found nothing: the search is over.
    Exhausted,
}

/// What a pull gives.
#[derive(Clone, Debug, PartialEq, Eq)]
pub enum Step {
    /// The caller is to issue this page request and to hand the reply to
    /// `resume`.
    Query(SearchRequest),
    /// The next record and its key.
    Record(Key, Item),
    /// The search is over.
    End,
    /// No record could be produced.
    Failed(Error),
}

/// What a `Step` holds, with the record as its view.
pub enum StepView {
    Query(SearchRequest),
    Record(Key, ItemView),
    End,
    Failed(Error),
}

impl View for Step {
    type V = StepView;

    open spec fn view(&self) -> StepView {
        match *self {
            Step::Query(k) => StepView::Query(k),
            Step::Record(k, i) => StepView::Record(k, i@),
            Step::End => StepView::End,
            Step::Failed(e) => StepView::Failed(e),
        }
    }
}

/// One record of a page: its key, what it decodes to, and the bytes that it
/// takes in the page, header included.
pub struct RecordView {
    pub key: Key,
    pub item: ItemView,
    pub len: int,
}

/// The record that starts at `bp` in the page `buf`, or the reason why there
/// is none.
///
/// A record is a header, which gives the key and the length of the payload,
/// and then the payload. The checks come in this order: the header lies
/// inside the page; its tag names a kind; the payload lies inside the page;
/// the payload decodes.
pub open spec fn spec_record_at(buf: Seq<u8>, bp: int) -> Result<RecordView, Error> {
    if buf.len() - bp < SEARCH_HEADER_SIZE {
        Err(Error::Schema(Violation::Truncated))
    } else {
        let header = SearchHeader::spec_at(buf, bp);
        match KeyType::spec_from_tag(header.type_) {
            None => Err(Error::Schema(Violation::Kind(header.type_))),
            Some(kind) => if buf.len() - bp - SEARCH_HEADER_SIZE < header.len {
                Err(Error::Schema(Violation::Truncated))
            } else {
                match spec_decode_item(
                    kind,
                    buf.subrange(
                        bp + SEARCH_HEADER_SIZE,
                        bp + SEARCH_HEADER_SIZE + header.len,
                    ),
                ) {
                    Err(e) => Err(e),
                    Ok(item) => Ok(
                        RecordView {
                            key: Key {
                                objectid: header.objectid,
                                type_: kind,
                                offset: header.offset,
                            },
                            item,
                            len: SEARCH_HEADER_SIZE + header.len,
                        },
                    ),
                }
            },
        }
    }
}

/// The value after `x`, or `x` itself where there is none.
pub open spec fn spec_past(x: u64) -> u64 {
    if x < u64::MAX {
        (x + 1) as u64
    } else {
        x
    }
}

/// The state of a search as a mathematical value: the descriptor with its
/// current lower bounds and the number of records left in the page, the size
/// of the buffer that a request is to fill, the page, the position of the
/// next record in it, and the phase.
pub struct Cursor {
    pub key: SearchKey,
    pub size: u64,
    pub buffer: Seq<u8>,
    pub bp: int,
    pub phase: Phase,
}

impl Cursor {
    /// What holds of every cursor: the position lies inside the page, and
    /// while the cursor drains a page, records are left in it.
    pub open spec fn wf(self) -> bool {
        &&& 0 <= self.bp <= self.buffer.len()
        &&& self.phase == Phase::Draining ==> self.key.nr_items > 0
    }

    /// The header of the record at the position, while the cursor drains a
    /// page that holds a whole header there.
    pub open spec fn spec_header(self) -> Option<SearchHeader> {
        if self.phase == Phase::Draining && self.buffer.len() - self.bp >= SEARCH_HEADER_SIZE {
            Some(SearchHeader::spec_at(self.buffer, self.bp))
        } else {
            None
        }
    }

    /// The next page request: the current bounds, asking for as many
    /// records as a page can hold, and the size of the buffer.
    pub open spec fn spec_request(self) -> SearchRequest {
        SearchRequest {
            key: SearchKey { nr_items: u32::MAX, ..self.key },
            buf_size: self.size,
        }
    }

    /// The cursor after it handed out `rec`.
    ///
    /// The position moves behind the record, one record less is left, and
    /// each lower bound moves past the value that the record has there. When
    /// the page is drained the cursor is idle again; but if the object id or
    /// the offset of its last record is the largest there is, nothing can
    /// lie behind that record, and the search is over.
    pub open spec fn spec_advance(self, rec: RecordView) -> Cursor {
        let left: u32 = if self.key.nr_items > 0 {
            (self.key.nr_items - 1) as u32
        } else {
            0
        };
        Cursor {
            key: SearchKey {
                min_objectid: spec_past(rec.key.objectid),
                min_offset: spec_past(rec.key.offset),
                min_type: (rec.key.type_.spec_tag() + 1) as u32,
                nr_items: left,
                ..self.key
            },
            size: self.size,
            buffer: self.buffer,
            bp: self.bp + rec.len,
            phase: if left > 0 {
                Phase::Draining
            } else if rec.key.objectid == u64::MAX || rec.key.offset == u64::MAX {
                Phase::Exhausted
            } else {
                Phase::Idle
            },
        }
    }

    /// One step of draining: the record at the position is handed out and
    /// the cursor advances; if that record does not decode, the step fails
    /// and the cursor stays as it is.
    pub open spec fn spec_drain(self) -> (Cursor, StepView) {
        match spec_record_at(self.buffer, self.bp) {
            Err(e) => (self, StepView::Failed(e)),
            Ok(rec) => (self.spec_advance(rec), StepView::Record(rec.key, rec.item)),
        }
    }

    /// What a pull does, by phase: an idle cursor asks for a page and awaits
    /// the reply; one that awaits a reply asks again; a draining one hands
    /// out a record; an exhausted one reports the end.
    pub open spec fn spec_pull(self) -> (Cursor, StepView) {
        match self.phase {
            Phase::Idle => (
                Cursor { phase: Phase::Querying, ..self },
                StepView::Query(self.spec_request()),
            ),
            Phase::Querying => (self, StepView::Query(self.spec_request())),
            Phase::Draining => self.spec_drain(),
            Phase::Exhausted => (self, StepView::End),
        }
    }

    /// What the reply to a page request does to a cursor that awaits one.
    ///
    /// A failed request is reported and leaves the cursor as it was before it
    /// asked. A page without records ends the search. Any other page becomes
    /// the page at hand, and its first record is handed out. A cursor that
    /// awaits no reply drops the reply and does what a pull does.
    pub open spec fn spec_resume(self, reply: Result<PageView, Errno>) -> (Cursor, StepView) {
        if self.phase != Phase::Querying {
            self.spec_pull()
        } else {
            match reply {
                Err(e) => (Cursor { phase: Phase::Idle, ..self }, StepView::Failed(Error::Call(e))),
                Ok(page) => if page.nr_items == 0 {
                    (Cursor { phase: Phase::Exhausted, ..self }, StepView::End)
                } else {
                    (Cursor {
                        key: SearchKey { nr_items: page.nr_items, ..self.key },
                        size: self.size,
                        buffer: page.buffer,
                        bp: 0,
                        phase: Phase::Draining,
                    }).spec_drain()
                },
            }
        }
    }
}

/// A search through one tree.
#[derive(Debug)]
pub struct TreeSearch {
    args: TreeSearchArgs,
    bp: usize,
    phase: Phase,
}

impl View for TreeSearch {
    type V = Cursor;

    closed spec fn view(&self) -> Cursor {
        Cursor {
            key: self.args.key,
            size: self.args.size,
            buffer: self.args.buffer@,
            bp: self.bp as int,
            phase: self.phase,
        }
    }
}

impl TreeSearch {
    #[verifier::type_invariant]
    spec fn inv(&self) -> bool {
        self@.wf()
    }

    /// A search in `tree` for the records whose object id, offset,
    /// transaction id and kind lie in the given ranges. It is idle, and its
    /// buffer has the size that a page request is to fill and holds zeros.
    pub fn new(
        tree: Tree,
        objectids: Range<u64>,
        offsets: Range<u64>,
        transids: Range<u64>,
        types: Range<u32>,
    ) -> (r: Self)
        ensures
            r@ == (Cursor {
                key: SearchKey {
                    tree_id: tree.spec_into_u64(),
                    min_objectid: objectids.start,
                    max_objectid: objectids.end,
                    min_offset: offsets.start,
                    max_offset: offsets.end,
                    min_transid: transids.start,
                    max_transid: transids.end,
                    min_type: types.start,
                    max_type: types.end,
                    nr_items: 0,
                },
                size: IOCTL_BUFF_SIZE as u64,
                buffer: Seq::new(IOCTL_BUFF_SIZE as nat, |i: int| 0u8),
                bp: 0,
                phase: Phase::Idle,
            }),
            r@.wf(),
    {
        let args = TreeSearchArgs::new(tree.into_u64(), objectids, offsets, transids, types, 0);
        TreeSearch { args, bp: 0, phase: Phase::Idle }
    }

    /// The phase that the search is in.
    pub fn phase(&self) -> (r: Phase)
        ensures
            r == self@.phase,
    {
        self.phase
    }

    /// The descriptor with the current lower bounds; its record count says
    /// how many records are left in the page at hand.
    pub fn key(&self) -> (r: SearchKey)
        ensures
            r == self@.key,
    {
        self.args.key
    }

    /// The size in bytes of the buffer that a page request is to fill.
    pub fn size(&self) -> (r: u64)
        ensures
            r == self@.size,
    {
        self.args.size
    }

    /// The header of the record at hand: of the record that the next pull
    /// decodes. There is none unless the search drains a page, nor where the
    /// page ends before the header does.
    ///
    /// After a pull has failed on a record, its header tells where the record
    /// lies in the tree, so that a new search can begin behind it.
    pub fn header(&self) -> (r: Option<SearchHeader>)
        ensures
            r == self@.spec_header(),
    {
        proof {
            use_type_invariant(self);
        }
        match self.phase {
            Phase::Draining => if self.args.buffer.len() - self.bp >= SEARCH_HEADER_SIZE {
                Some(SearchHeader::read_at(self.args.buffer.as_slice(), self.bp))
            } else {
                None
            },
            _ => None,
        }
    }

    /// The next page request.
    fn request(&self) -> (r: SearchRequest)
        ensures
            r == self@.spec_request(),
    {
        let key = self.args.key;
        SearchRequest {
            key: SearchKey {
                tree_id: key.tree_id,
                min_objectid: key.min_objectid,
                max_objectid: key.max_objectid,
                min_offset: key.min_offset,
                max_offset: key.max_offset,
                min_transid: key.min_transid,
                max_transid: key.max_transid,
                min_type: key.min_type,
                max_type: key.max_type,
                nr_items: u32::MAX,
            },
            buf_size: self.args.size,
        }
    }

    /// Hands out the record at the position.
    fn drain(&mut self) -> (step: Step)
        requires
            old(self)@.phase == Phase::Draining,
        ensures
            (final(self)@, step@) == old(self)@.spec_drain(),
    {
        proof {
            use_type_invariant(&*self);
        }
        let (key, item, len) = match record_at(self.args.buffer.as_slice(), self.bp) {
            Ok(found) => found,
            Err(e) => {
                return Step::Failed(e);
            },
        };
        assert(self.args.buffer@.len() == self.args.buffer.len());
        let left: u32 = self.args.key.nr_items - 1;
        self.bp = self.bp + len;
        self.args.key.min_objectid = past(key.objectid);
        self.args.key.min_offset = past(key.offset);
        self.args.key.min_type = key.type_.tag() + 1;
        if left == 0 {
            if key.objectid == u64::MAX || key.offset == u64::MAX {
                self.phase = Phase::Exhausted;
            } else {
                self.phase = Phase::Idle;
            }
        }
        self.args.key.nr_items = left;
        Step::Record(key, item)
    }

    /// Asks the search for its next record.
    ///
    /// The step is a record while the page at hand holds one; `Query` when a
    /// page must be fetched first, after which `resume` goes on; `End` once a
    /// request found nothing; `Failed` when the record at hand does not
    /// decode, in which case the search is left as it was.
    pub fn pull(&mut self) -> (step: Step)
        ensures
            (final(self)@, step@) == old(self)@.spec_pull(),
            final(self)@.wf(),
    {
        proof {
            use_type_invariant(&*self);
        }
        let step = match self.phase {
            Phase::Idle => {
                self.phase = Phase::Querying;
                Step::Query(self.request())
            },
            Phase::Querying => Step::Query(self.request()),
            Phase::Draining => self.drain(),
            Phase::Exhausted => Step::End,
        };
        proof {
            use_type_invariant(&*self);
        }
        step
    }

    /// Hands the search the reply to the page request that it asked for.
    ///
    /// A failed request gives `Failed` with the code of the failure, and the
    /// search is idle as before. A page without records gives `End`. Any
    /// other page is taken over and its first record is the step.
    pub fn resume(&mut self, reply: Result<Page, Errno>) -> (step: Step)
        ensures
            (final(self)@, step@) == old(self)@.spec_resume(view_result(reply)),
            final(self)@.wf(),
    {
        proof {
            use_type_invariant(&*self);
        }
        let step = match self.phase {
            Phase::Querying => match reply {
                Err(e) => {
                    self.phase = Phase::Idle;
                    Step::Failed(Error::Call(e))
                },
                Ok(page) => {
                    if page.nr_items == 0 {
                        self.phase = Phase::Exhausted;
                        Step::End
                    } else {
                        self.bp = 0;
                        self.args.buffer = page.buffer;
                        self.args.key.nr_items = page.nr_items;
                        self.phase = Phase::Draining;
                        self.drain()
                    }
                },
            },
            _ => self.pull(),
        };
        proof {
            use_type_invariant(&*self);
        }
        step
    }
}

/// Reads the record that starts at `bp` in the page `buf`: its key, what it
/// decodes to, and the bytes that it takes, header included.
pub fn record_at(buf: &[u8], bp: usize) -> (r: Result<(Key, Item, usize), Error>)
    ensures
        match spec_record_at(buf@, bp as int) {
            Err(e) => r matches Err(x) && x == e,
            Ok(rec) => r matches Ok((key, item, len)) && key == rec.key && item@ == rec.item && len
                == rec.len && bp + len <= buf@.len(),
        },
{
    let total: usize = buf.len();
    if total < bp || total - bp < SEARCH_HEADER_SIZE {
        return Err(Error::Schema(Violation::Truncated));
    }
    let header = SearchHeader::read_at(buf, bp);
    let kind = match KeyType::try_from(header.type_) {
        Ok(kind) => kind,
        Err(_) => {
            return Err(Error::Schema(Violation::Kind(header.type_)));
        },
    };
    let len: usize = header.len as usize;
    if total - bp - SEARCH_HEADER_SIZE < len {
        return Err(Error::Schema(Violation::Truncated));
    }
    let payload = slice_subrange(buf, bp + SEARCH_HEADER_SIZE, bp + SEARCH_HEADER_SIZE + len);
    match decode_item(kind, payload) {
        Ok(item) => Ok(
            (
                Key { objectid: header.objectid, type_: kind, offset: header.offset },
                item,
                SEARCH_HEADER_SIZE + len,
            ),
        ),
        Err(e) => Err(e),
    }
}

/// The value after `x`, or `x` itself where there is none.
fn past(x: u64) -> (r: u64)
    ensures
        r == spec_past(x),
{
    if x < u64::MAX {
        x + 1
    } else {
        x
    }
}

} // verus!
