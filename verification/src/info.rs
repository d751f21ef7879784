//! What a subvolume says of itself, and how to tell that a directory is the
//! root of one.

use crate::error::{view_result, Violation};
use crate::item::{spec_times, times, Timestamp};
use crate::raw::RawTimespec;
use crate::wire::copy_range;
use crate::Uuid;
use vstd::prelude::*;

verus! {

/// The file system type that a btrfs volume reports.
pub const BTRFS_SUPER_MAGIC: i64 = 0x9123_683e;

/// The inode number of the root directory of every subvolume.
pub const BTRFS_FIRST_FREE_OBJECTID: u64 = 256;

/// The bits of a file mode that hold the file type.
pub const S_IFMT: u32 = 0o170000;

/// The file type of a directory within a file mode.
pub const S_IFDIR: u32 = 0o040000;

/// The answer of the subvolume probe as the kernel fills it in. The name is
/// the whole name field: the name itself ends before the first zero byte.
#[derive(Clone, Debug)]
pub struct RawSubvolInfo {
    pub treeid: u64,
    pub name: Vec<u8>,
    pub parent_id: u64,
    pub dirid: u64,
    pub generation: u64,
    pub flags: u64,
    pub uuid: [u8; 16],
    pub parent_uuid: [u8; 16],
    pub received_uuid: [u8; 16],
    pub ctransid: u64,
    pub otransid: u64,
    pub stransid: u64,
    pub rtransid: u64,
    pub ctime: RawTimespec,
    pub otime: RawTimespec,
    pub stime: RawTimespec,
    pub rtime: RawTimespec,
}

/// The identity of a subvolume.
#[derive(Clone, Debug, PartialEq, Eq)]
pub struct SubvolInfo {
    pub tree_id: u64,
    pub name: Vec<u8>,
    pub parent_id: u64,
    pub dirid: u64,
    pub generation: u64,
    pub flags: u64,
    pub uuid: Uuid,
    pub parent_uuid: Uuid,
    pub received_uuid: Uuid,
    pub ctransid: u64,
    pub otransid: u64,
    pub stransid: u64,
    pub rtransid: u64,
    pub ctime: Timestamp,
    pub otime: Timestamp,
    pub stime: Timestamp,
    pub rtime: Timestamp,
}

/// What a `RawSubvolInfo` holds, with the name field as a sequence.
pub struct RawSubvolInfoView {
    pub treeid: u64,
    pub name: Seq<u8>,
    pub parent_id: u64,
    pub dirid: u64,
    pub generation: u64,
    pub flags: u64,
    pub uuid: [u8; 16],
    pub parent_uuid: [u8; 16],
    pub received_uuid: [u8; 16],
    pub ctransid: u64,
    pub otransid: u64,
    pub stransid: u64,
    pub rtransid: u64,
    pub ctime: RawTimespec,
    pub otime: RawTimespec,
    pub stime: RawTimespec,
    pub rtime: RawTimespec,
}

/// What a `SubvolInfo` holds, with the name as a sequence.
pub struct SubvolInfoView {
    pub tree_id: u64,
    pub name: Seq<u8>,
    pub parent_id: u64,
    pub dirid: u64,
    pub generation: u64,
    pub flags: u64,
    pub uuid: Uuid,
    pub parent_uuid: Uuid,
    pub received_uuid: Uuid,
    pub ctransid: u64,
    pub otransid: u64,
    pub stransid: u64,
    pub rtransid: u64,
    pub ctime: Timestamp,
    pub otime: Timestamp,
    pub stime: Timestamp,
    pub rtime: Timestamp,
}

impl View for RawSubvolInfo {
    type V = RawSubvolInfoView;

    open spec fn view(&self) -> RawSubvolInfoView {
        RawSubvolInfoView {
            treeid: self.treeid,
            name: self.name@,
            parent_id: self.parent_id,
            dirid: self.dirid,
            generation: self.generation,
            flags: self.flags,
            uuid: self.uuid,
            parent_uuid: self.parent_uuid,
            received_uuid: self.received_uuid,
            ctransid: self.ctransid,
            otransid: self.otransid,
            stransid: self.stransid,
            rtransid: self.rtransid,
            ctime: self.ctime,
            otime: self.otime,
            stime: self.stime,
            rtime: self.rtime,
        }
    }
}

impl View for SubvolInfo {
    type V = SubvolInfoView;

    open spec fn view(&self) -> SubvolInfoView {
        SubvolInfoView {
            tree_id: self.tree_id,
            name: self.name@,
            parent_id: self.parent_id,
            dirid: self.dirid,
            generation: self.generation,
            flags: self.flags,
            uuid: self.uuid,
            parent_uuid: self.parent_uuid,
            received_uuid: self.received_uuid,
            ctransid: self.ctransid,
            otransid: self.otransid,
            stransid: self.stransid,
            rtransid: self.rtransid,
            ctime: self.ctime,
            otime: self.otime,
            stime: self.stime,
            rtime: self.rtime,
        }
    }
}

/// The position of the first zero byte of `s` at or behind `from`, or the
/// length of `s` if there is none.
pub open spec fn spec_c_len(s: Seq<u8>, from: int) -> int
    decreases s.len() - from,
{
    if from < 0 || from >= s.len() || s[from] == 0 {
        from
    } else {
        spec_c_len(s, from + 1)
    }
}

/// The string that the field `s` holds: its bytes before the first zero
/// byte, all of them if there is none.
pub open spec fn spec_c_str(s: Seq<u8>) -> Seq<u8> {
    s.subrange(0, spec_c_len(s, 0))
}

/// The string of a field ends inside the field, holds no zero byte, and a
/// zero byte follows it unless it fills the field.
pub proof fn lemma_c_len(s: Seq<u8>, from: int)
    requires
        0 <= from <= s.len(),
    ensures
        from <= spec_c_len(s, from) <= s.len(),
        forall|i: int| from <= i < spec_c_len(s, from) ==> s[i] != 0,
        spec_c_len(s, from) < s.len() ==> s[spec_c_len(s, from)] == 0,
    decreases s.len() - from,
{
    if from < s.len() && s[from] != 0 {
        lemma_c_len(s, from + 1);
    }
}

/// Copies the string that the field `field` holds.
pub fn c_str(field: &[u8]) -> (r: Vec<u8>)
    ensures
        r@ == spec_c_str(field@),
{
    let mut end: usize = 0;
    while end < field.len() && field[end] != 0
        invariant
            end <= field@.len(),
            spec_c_len(field@, 0) == spec_c_len(field@, end as int),
        decreases field@.len() - end,
    {
        end += 1;
    }
    copy_range(field, 0, end)
}

impl SubvolInfo {
    /// The identity that the answer `info` of the probe holds, or the
    /// violation that it holds: a time that is none.
    pub open spec fn spec_from_c_struct(info: RawSubvolInfoView) -> Result<
        SubvolInfoView,
        Violation,
    > {
        match spec_times(info.ctime, info.otime, info.stime, info.rtime) {
            Err(v) => Err(v),
            Ok((ctime, otime, stime, rtime)) => Ok(
                SubvolInfoView {
                    tree_id: info.treeid,
                    name: spec_c_str(info.name),
                    parent_id: info.parent_id,
                    dirid: info.dirid,
                    generation: info.generation,
                    flags: info.flags,
                    uuid: Uuid(info.uuid),
                    parent_uuid: Uuid(info.parent_uuid),
                    received_uuid: Uuid(info.received_uuid),
                    ctransid: info.ctransid,
                    otransid: info.otransid,
                    stransid: info.stransid,
                    rtransid: info.rtransid,
                    ctime,
                    otime,
                    stime,
                    rtime,
                },
            ),
        }
    }

    /// Decodes the answer of the probe: the name is cut at its first zero
    /// byte, each time is taken from its pair, everything else is taken as
    /// it is.
    pub fn from_c_struct(info: &RawSubvolInfo) -> (r: Result<SubvolInfo, Violation>)
        ensures
            view_result(r) == Self::spec_from_c_struct(info@),
    {
        match times(info.ctime, info.otime, info.stime, info.rtime) {
            Err(v) => Err(v),
            Ok((ctime, otime, stime, rtime)) => Ok(
                SubvolInfo {
                    tree_id: info.treeid,
                    name: c_str(info.name.as_slice()),
                    parent_id: info.parent_id,
                    dirid: info.dirid,
                    generation: info.generation,
                    flags: info.flags,
                    uuid: Uuid(info.uuid),
                    parent_uuid: Uuid(info.parent_uuid),
                    received_uuid: Uuid(info.received_uuid),
                    ctransid: info.ctransid,
                    otransid: info.otransid,
                    stransid: info.stransid,
                    rtransid: info.rtransid,
                    ctime,
                    otime,
                    stime,
                    rtime,
                },
            ),
        }
    }
}

/// Whether a file with the inode number `ino` and the mode `mode`, on a
/// file system of type `fs_type`, is the root of a subvolume: a directory
/// with the first free object id on a btrfs volume.
pub open spec fn spec_is_subvol(fs_type: i64, ino: u64, mode: u32) -> bool {
    fs_type == BTRFS_SUPER_MAGIC && ino == BTRFS_FIRST_FREE_OBJECTID && mode & S_IFMT == S_IFDIR
}

/// Tells from what `fstatfs` and `fstat` said of a file whether it is the
/// root of a subvolume.
pub fn is_subvol(fs_type: i64, ino: u64, mode: u32) -> (r: bool)
    ensures
        r == spec_is_subvol(fs_type, ino, mode),
{
    fs_type == BTRFS_SUPER_MAGIC && ino == BTRFS_FIRST_FREE_OBJECTID && mode & S_IFMT == S_IFDIR
}

} // verus!
