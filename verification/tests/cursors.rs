// The wrappers for little-endian integers, the resolution of physical
// addresses, and the subvolume probes.

use btrfs_inspect::error::{Error, Violation};
use btrfs_inspect::info::{c_str, is_subvol, RawSubvolInfo};
use btrfs_inspect::item::Timestamp;
use btrfs_inspect::le::{U16, U32, U64};
use btrfs_inspect::logical_ino::{Container, InoRequest, InoStep};
use btrfs_inspect::raw::RawTimespec;
use btrfs_inspect::tree_search::Phase;
use btrfs_inspect::{LogicalIno, SubvolInfo, Uuid};
use nix::errno::Errno;

fn container(elem_cnt: u32, buff: Vec<u64>) -> Container {
    Container { bytes_left: 0, bytes_missing: 0, elem_cnt, elem_missed: 0, buff }
}

#[test]
fn wrappers_give_back_what_went_in() {
    for x in [0u64, 1, 0xff, 0x0102_0304_0506_0708, 0x8000_0000_0000_0000, u64::MAX] {
        assert_eq!(U64::new(x).get(), x);
    }
    for x in [0u32, 1, 0x0102_0304, 0x8000_0000, u32::MAX] {
        assert_eq!(U32::new(x).get(), x);
    }
    for x in 0..=u16::MAX {
        assert_eq!(U16::new(x).get(), x);
    }
}

#[test]
fn wrappers_compare_as_their_values() {
    assert_eq!(U64::new(5), U64::new(5));
    assert_ne!(U64::new(5), U64::new(6));
    assert!(U64::new(0x0100) > U64::new(0x00ff));
    assert!(U32::new(1) < U32::new(0x0100_0000));
    assert!(U16::new(0x0100) > U16::new(0x00ff));
}

#[test]
fn resolution_starts_idle() {
    let ino = LogicalIno::new(0x1000);
    assert_eq!(ino.phase(), Phase::Idle);
    assert_eq!(ino.elem_missed(), 0);
    assert_eq!(ino.bytes_missing(), 0);
}

#[test]
fn resolution_asks_with_the_address() {
    let mut ino = LogicalIno::new(0x1234_5000);
    let expected = InoStep::Query(InoRequest { logical: 0x1234_5000, size: 65536, flags: 0 });
    assert_eq!(ino.pull(), expected);
    assert_eq!(ino.phase(), Phase::Querying);
    assert_eq!(ino.pull(), expected);
}

#[test]
fn resolution_hands_out_triples_in_order() {
    let mut ino = LogicalIno::new(7);
    ino.pull();
    let page = container(2, vec![257, 0, 5, 258, 4096, 256]);
    assert_eq!(ino.resume(Ok(page)), InoStep::Triple(257, 0, 5));
    assert_eq!(ino.phase(), Phase::Draining);
    assert_eq!(ino.pull(), InoStep::Triple(258, 4096, 256));
    assert_eq!(ino.phase(), Phase::Idle);
}

#[test]
fn resolution_asks_again_when_a_page_is_drained() {
    let mut ino = LogicalIno::new(7);
    let asked = ino.pull();
    assert_eq!(ino.resume(Ok(container(1, vec![1, 2, 3]))), InoStep::Triple(1, 2, 3));
    assert_eq!(ino.pull(), asked);
    assert_eq!(ino.resume(Ok(container(1, vec![4, 5, 6]))), InoStep::Triple(4, 5, 6));
    assert_eq!(ino.pull(), asked);
    assert_eq!(ino.resume(Ok(container(0, Vec::new()))), InoStep::End);
    assert_eq!(ino.phase(), Phase::Exhausted);
    assert_eq!(ino.pull(), InoStep::End);
    assert_eq!(ino.resume(Ok(container(1, vec![7, 8, 9]))), InoStep::End);
}

#[test]
fn resolution_without_references_ends_after_one_request() {
    let mut ino = LogicalIno::new(7);
    assert!(matches!(ino.pull(), InoStep::Query(_)));
    assert_eq!(ino.resume(Ok(Container::default())), InoStep::End);
    assert_eq!(ino.pull(), InoStep::End);
}

#[test]
fn resolution_ignores_values_behind_the_counted_elements() {
    let mut ino = LogicalIno::new(7);
    ino.pull();
    assert_eq!(ino.resume(Ok(container(1, vec![1, 2, 3, 4, 5, 6]))), InoStep::Triple(1, 2, 3));
    assert_eq!(ino.phase(), Phase::Idle);
}

#[test]
fn resolution_reports_what_was_missed() {
    let mut ino = LogicalIno::new(7);
    ino.pull();
    let page = Container {
        bytes_left: 0,
        bytes_missing: 48,
        elem_cnt: 1,
        elem_missed: 6,
        buff: vec![1, 2, 3],
    };
    assert_eq!(ino.resume(Ok(page)), InoStep::Triple(1, 2, 3));
    // the counts are there to be read; the cursor goes on as ever
    assert_eq!(ino.elem_missed(), 6);
    assert_eq!(ino.bytes_missing(), 48);
    assert!(matches!(ino.pull(), InoStep::Query(_)));
    let empty = Container { elem_missed: 2, ..Container::default() };
    assert_eq!(ino.resume(Ok(empty)), InoStep::End);
    assert_eq!(ino.elem_missed(), 2);
}

#[test]
fn resolution_failed_request_changes_nothing() {
    let mut ino = LogicalIno::new(7);
    let asked = ino.pull();
    assert_eq!(ino.resume(Err(Errno::EACCES)), InoStep::Failed(Error::Call(Errno::EACCES)));
    assert_eq!(ino.phase(), Phase::Idle);
    assert_eq!(ino.pull(), asked);
    assert_eq!(ino.resume(Ok(container(1, vec![1, 2, 3]))), InoStep::Triple(1, 2, 3));
}

#[test]
fn resolution_array_shorter_than_its_count_is_a_violation() {
    let mut ino = LogicalIno::new(7);
    ino.pull();
    let failed = InoStep::Failed(Error::Schema(Violation::Truncated));
    assert_eq!(ino.resume(Ok(container(2, vec![1, 2, 3, 4, 5]))), InoStep::Triple(1, 2, 3));
    assert_eq!(ino.pull(), failed);
    assert_eq!(ino.phase(), Phase::Draining);
    assert_eq!(ino.pull(), failed);
    let mut short = LogicalIno::new(7);
    short.pull();
    assert_eq!(short.resume(Ok(container(1, vec![1, 2]))), failed);
}

#[test]
fn resolution_drops_a_reply_that_was_not_asked_for() {
    let mut ino = LogicalIno::new(7);
    assert!(matches!(ino.resume(Ok(container(1, vec![1, 2, 3]))), InoStep::Query(_)));
    ino.resume(Ok(container(2, vec![1, 2, 3, 4, 5, 6])));
    assert_eq!(ino.resume(Ok(container(1, vec![7, 8, 9]))), InoStep::Triple(4, 5, 6));
}

#[test]
fn default_container_is_a_full_array_of_zeros() {
    let c = Container::default();
    assert_eq!(c.bytes_left, 0);
    assert_eq!(c.bytes_missing, 0);
    assert_eq!(c.elem_cnt, 0);
    assert_eq!(c.elem_missed, 0);
    assert_eq!(c.buff.len(), 65536);
    assert!(c.buff.iter().all(|v| *v == 0));
    assert_eq!(c.buff, vec![0u64; 65536]);
}

fn raw_info(name: &[u8]) -> RawSubvolInfo {
    RawSubvolInfo {
        treeid: 257,
        name: name.to_vec(),
        parent_id: 5,
        dirid: 256,
        generation: 9,
        flags: 1,
        uuid: [1; 16],
        parent_uuid: [2; 16],
        received_uuid: [3; 16],
        ctransid: 11,
        otransid: 12,
        stransid: 13,
        rtransid: 14,
        ctime: RawTimespec { sec: 21, nsec: 1 },
        otime: RawTimespec { sec: 22, nsec: 2 },
        stime: RawTimespec { sec: 23, nsec: 3 },
        rtime: RawTimespec { sec: 24, nsec: 4 },
    }
}

#[test]
fn subvol_info_round_trip() {
    let mut field = b"snapshots".to_vec();
    field.resize(256, 0);
    let info = SubvolInfo::from_c_struct(&raw_info(&field));
    assert_eq!(
        info,
        Ok(SubvolInfo {
            tree_id: 257,
            name: b"snapshots".to_vec(),
            parent_id: 5,
            dirid: 256,
            generation: 9,
            flags: 1,
            uuid: Uuid([1; 16]),
            parent_uuid: Uuid([2; 16]),
            received_uuid: Uuid([3; 16]),
            ctransid: 11,
            otransid: 12,
            stransid: 13,
            rtransid: 14,
            ctime: Timestamp::new(21, 1).unwrap(),
            otime: Timestamp::new(22, 2).unwrap(),
            stime: Timestamp::new(23, 3).unwrap(),
            rtime: Timestamp::new(24, 4).unwrap(),
        })
    );
}

#[test]
fn name_ends_before_the_first_zero_byte() {
    assert_eq!(c_str(b"abc\0def\0"), b"abc".to_vec());
    assert_eq!(c_str(b"\0abc"), Vec::<u8>::new());
    assert_eq!(c_str(b""), Vec::<u8>::new());
    // a field without a zero byte is a name that fills it
    assert_eq!(c_str(b"full"), b"full".to_vec());
    assert_eq!(SubvolInfo::from_c_struct(&raw_info(b"a\0b")).unwrap().name, b"a".to_vec());
    assert_eq!(SubvolInfo::from_c_struct(&raw_info(b"")).unwrap().name, Vec::<u8>::new());
}

#[test]
fn subvol_info_times_carry_or_are_rejected() {
    let mut raw = raw_info(b"x");
    raw.stime = RawTimespec { sec: 100, nsec: 1_500_000_000 };
    let info = SubvolInfo::from_c_struct(&raw).unwrap();
    assert_eq!((info.stime.as_secs(), info.stime.subsec_nanos()), (101, 500_000_000));
    raw.rtime = RawTimespec { sec: u64::MAX, nsec: 1_000_000_000 };
    assert_eq!(
        SubvolInfo::from_c_struct(&raw),
        Err(Violation::Time(u64::MAX, 1_000_000_000))
    );
}

#[test]
fn subvolume_root_is_a_btrfs_directory_with_the_first_free_id() {
    let magic = 0x9123_683e;
    assert!(is_subvol(magic, 256, 0o040755));
    assert!(is_subvol(magic, 256, 0o040000));
    // another inode
    assert!(!is_subvol(magic, 257, 0o040755));
    assert!(!is_subvol(magic, 2, 0o040755));
    // not a directory
    assert!(!is_subvol(magic, 256, 0o100644));
    assert!(!is_subvol(magic, 256, 0o120777));
    assert!(!is_subvol(magic, 256, 0o060000));
    // another file system
    assert!(!is_subvol(0xef53, 256, 0o040755));
    assert!(!is_subvol(0, 256, 0o040755));
}
