// The tree-search cursor: paging, order, the end of a search, and the ways
// in which a pull fails.

use btrfs_inspect::error::{Error, Violation};
use btrfs_inspect::item::{DirItem, FileType, Inode};
use btrfs_inspect::raw::{SearchHeader, IOCTL_BUFF_SIZE};
use btrfs_inspect::tree_search::{
    record_at, Item, Key, KeyType, Page, Phase, SearchKey, SearchRequest, Step, Tree, TreeSearch,
    TreeSearchArgs,
};
use nix::errno::Errno;

fn put16(out: &mut Vec<u8>, v: u16) {
    out.extend_from_slice(&v.to_le_bytes());
}

fn put32(out: &mut Vec<u8>, v: u32) {
    out.extend_from_slice(&v.to_le_bytes());
}

fn put64(out: &mut Vec<u8>, v: u64) {
    out.extend_from_slice(&v.to_le_bytes());
}

// One record of a fixture: where it lies in the tree, and its payload.
#[derive(Clone, Debug)]
struct Rec {
    objectid: u64,
    type_: u32,
    offset: u64,
    payload: Vec<u8>,
}

impl Rec {
    fn bytes(&self) -> Vec<u8> {
        let mut out = Vec::new();
        put64(&mut out, 9); // transid
        put64(&mut out, self.objectid);
        put64(&mut out, self.offset);
        put32(&mut out, self.type_);
        put32(&mut out, self.payload.len() as u32);
        out.extend_from_slice(&self.payload);
        out
    }
}

fn dir_payload(inode: u64, name: &[u8]) -> Vec<u8> {
    let mut out = Vec::new();
    put64(&mut out, inode); // location.objectid
    out.push(1); // location.type
    put64(&mut out, 0); // location.offset
    put64(&mut out, 7); // transid
    put16(&mut out, 0); // data_len
    put16(&mut out, name.len() as u16);
    out.push(1); // regular file
    out.extend_from_slice(name);
    out
}

fn dir_rec(objectid: u64, offset: u64, name: &[u8]) -> Rec {
    Rec { objectid, type_: 84, offset, payload: dir_payload(objectid + 1000, name) }
}

fn inode_rec(objectid: u64, size: u64) -> Rec {
    let mut payload = vec![0u8; 160];
    payload[16..24].copy_from_slice(&size.to_le_bytes());
    Rec { objectid, type_: 1, offset: 0, payload }
}

fn page_of(recs: &[Rec]) -> Page {
    let mut buffer = Vec::new();
    for r in recs {
        buffer.extend_from_slice(&r.bytes());
    }
    Page { nr_items: recs.len() as u32, buffer }
}

fn empty_page() -> Page {
    Page { nr_items: 0, buffer: Vec::new() }
}

fn whole_tree() -> TreeSearch {
    TreeSearch::new(Tree::Fs, 0..u64::MAX, 0..u64::MAX, 0..u64::MAX, 0..u32::MAX)
}

// Answers a request as a volume with the records `fixture` would: with the
// first records, at most `cap` of them, none of whose key components lies
// before the lower bound of its range.
fn answer(fixture: &[Rec], key: &SearchKey, cap: usize) -> Page {
    let hits: Vec<Rec> = fixture
        .iter()
        .filter(|r| {
            r.objectid >= key.min_objectid && r.offset >= key.min_offset && r.type_ >= key.min_type
        })
        .take(cap)
        .cloned()
        .collect();
    page_of(&hits)
}

// Pulls the search to its end against `fixture`. Gives what was handed out
// and the number of page requests.
fn run(search: &mut TreeSearch, fixture: &[Rec], cap: usize) -> (Vec<(Key, Item)>, usize) {
    let mut out = Vec::new();
    let mut requests = 0;
    loop {
        let mut step = search.pull();
        if let Step::Query(request) = step {
            requests += 1;
            assert_eq!(request.buf_size, 65536);
            step = search.resume(Ok(answer(fixture, &request.key, cap)));
        }
        match step {
            Step::Record(key, item) => out.push((key, item)),
            Step::End => return (out, requests),
            other => panic!("{:?}", other),
        }
    }
}

fn name_of(item: &Item) -> Vec<u8> {
    match item {
        Item::DirItem(DirItem::File { name, .. }) => name.clone(),
        other => panic!("{:?}", other),
    }
}

// Each key component ascends from record to record, so that every record
// lies behind all lower bounds once the record before it was handed out.
fn fixture() -> Vec<Rec> {
    vec![
        inode_rec(256, 10),
        Rec { objectid: 257, type_: 12, offset: 3, payload: {
            let mut p = Vec::new();
            put64(&mut p, 2);
            put16(&mut p, 1);
            p.push(b'a');
            p
        } },
        dir_rec(258, 100, b"alpha"),
        Rec { objectid: 259, type_: 96, offset: 200, payload: dir_payload(5, b"gamma") },
        Rec { objectid: 260, type_: 108, offset: 300, payload: {
            let mut p = vec![0u8; 21];
            p.extend_from_slice(b"inline");
            p
        } },
        Rec { objectid: 261, type_: 156, offset: 400, payload: {
            let mut p = Vec::new();
            put64(&mut p, 256);
            put64(&mut p, 8);
            put16(&mut p, 4);
            p.extend_from_slice(b"snap");
            p
        } },
        Rec { objectid: 262, type_: 192, offset: 500, payload: vec![0u8; 24] },
    ]
}

#[test]
fn new_search_is_idle_with_the_given_ranges() {
    let search = TreeSearch::new(Tree::Subvol(300), 1..2, 3..4, 5..6, 7..8);
    assert_eq!(search.phase(), Phase::Idle);
    assert_eq!(
        search.key(),
        SearchKey {
            tree_id: 300,
            min_objectid: 1,
            max_objectid: 2,
            min_offset: 3,
            max_offset: 4,
            min_transid: 5,
            max_transid: 6,
            min_type: 7,
            max_type: 8,
            nr_items: 0,
        }
    );
    assert_eq!(search.header(), None);
    assert_eq!(search.size(), 65536);
}

#[test]
fn args_hold_the_ranges_and_the_buffer_size() {
    let args = TreeSearchArgs::new(5, 10..20, 30..40, 50..60, 70..80, 9);
    assert_eq!(
        args.key(),
        SearchKey {
            tree_id: 5,
            min_objectid: 10,
            max_objectid: 20,
            min_offset: 30,
            max_offset: 40,
            min_transid: 50,
            max_transid: 60,
            min_type: 70,
            max_type: 80,
            nr_items: 9,
        }
    );
    assert_eq!(args.size(), 65536);
    assert_eq!(args.size(), IOCTL_BUFF_SIZE as u64);
    // the buffer has the size that is asked for, and holds zeros
    assert_eq!(args.buffer().len() as u64, args.size());
    assert!(args.buffer().iter().all(|b| *b == 0));
    assert_eq!(args.buffer(), &[0u8; 65536][..]);
}

#[test]
fn first_pull_asks_for_as_many_records_as_fit() {
    let mut search = TreeSearch::new(Tree::Root, 1..2, 3..4, 5..6, 7..8);
    let expected = SearchKey {
        tree_id: 1,
        min_objectid: 1,
        max_objectid: 2,
        min_offset: 3,
        max_offset: 4,
        min_transid: 5,
        max_transid: 6,
        min_type: 7,
        max_type: 8,
        nr_items: u32::MAX,
    };
    let request = SearchRequest { key: expected, buf_size: 65536 };
    assert_eq!(search.pull(), Step::Query(request));
    assert_eq!(search.phase(), Phase::Querying);
    // pulling again before the reply came asks again and changes nothing
    assert_eq!(search.pull(), Step::Query(request));
    assert_eq!(search.phase(), Phase::Querying);
}

#[test]
fn empty_search_ends_after_one_request() {
    let mut search = whole_tree();
    let (records, requests) = run(&mut search, &[], 100);
    assert!(records.is_empty());
    assert_eq!(requests, 1);
    assert_eq!(search.phase(), Phase::Exhausted);
    // the end is final: no pull asks for a page again
    for _ in 0..3 {
        assert_eq!(search.pull(), Step::End);
    }
    assert_eq!(search.resume(Ok(page_of(&fixture()))), Step::End);
}

#[test]
fn range_that_matches_nothing_ends_after_one_request() {
    let mut search = TreeSearch::new(Tree::Fs, 0..u64::MAX, 12345..12345, 0..u64::MAX, 0..255);
    let all = fixture();
    let none: Vec<Rec> = all.iter().filter(|r| r.offset == 12345).cloned().collect();
    let (records, requests) = run(&mut search, &none, 100);
    assert!(records.is_empty());
    assert_eq!(requests, 1);
}

#[test]
fn directory_listing() {
    let recs = [dir_rec(256, 10, b"one"), dir_rec(257, 20, b"two"), dir_rec(258, 30, b"three")];
    let mut search = whole_tree();
    let mut requests = 0;
    let mut names = Vec::new();
    let mut offsets = Vec::new();
    for _ in 0..3 {
        let mut step = search.pull();
        if let Step::Query(_) = step {
            requests += 1;
            step = search.resume(Ok(page_of(&recs)));
        }
        match step {
            Step::Record(key, item) => {
                assert_eq!(key.type_, KeyType::BtrfsDirItemKey);
                offsets.push(key.offset);
                names.push(name_of(&item));
            }
            other => panic!("{:?}", other),
        }
    }
    assert_eq!(requests, 1);
    assert_eq!(names, vec![b"one".to_vec(), b"two".to_vec(), b"three".to_vec()]);
    assert_eq!(offsets, vec![10, 20, 30]);
    // the fourth pull asks once more, finds nothing, and the search is over
    let step = search.pull();
    let key = match step {
        Step::Query(request) => request.key,
        other => panic!("{:?}", other),
    };
    assert_eq!(key.min_objectid, 259);
    assert_eq!(key.min_offset, 31);
    assert_eq!(key.min_type, 85);
    assert_eq!(search.resume(Ok(empty_page())), Step::End);
    assert_eq!(search.pull(), Step::End);
}

#[test]
fn records_carry_key_and_item() {
    let mut search = whole_tree();
    assert!(matches!(search.pull(), Step::Query(_)));
    let step = search.resume(Ok(page_of(&[inode_rec(256, 4096)])));
    match step {
        Step::Record(key, Item::Inode(inode)) => {
            assert_eq!(
                key,
                Key { objectid: 256, type_: KeyType::BtrfsInodeItemKey, offset: 0 }
            );
            assert_eq!(inode.size.get(), 4096);
            assert_eq!(inode, Inode::parse(&inode_rec(256, 4096).payload).unwrap());
        }
        other => panic!("{:?}", other),
    }
    assert_eq!(search.phase(), Phase::Idle);
}

#[test]
fn lower_bounds_move_past_each_record() {
    let mut search = TreeSearch::new(Tree::Fs, 5..900, 6..901, 7..902, 0..255);
    assert!(matches!(search.pull(), Step::Query(_)));
    let recs = [dir_rec(300, 40, b"a"), dir_rec(301, 50, b"b")];
    assert!(matches!(search.resume(Ok(page_of(&recs))), Step::Record(..)));
    assert_eq!(search.phase(), Phase::Draining);
    let key = search.key();
    assert_eq!(key.min_objectid, 301);
    assert_eq!(key.min_offset, 41);
    assert_eq!(key.min_type, 85);
    assert_eq!(key.nr_items, 1);
    // the rest of the descriptor stays
    assert_eq!(key.tree_id, 5);
    assert_eq!(key.max_objectid, 900);
    assert_eq!(key.max_offset, 901);
    assert_eq!(key.min_transid, 7);
    assert_eq!(key.max_transid, 902);
    assert_eq!(key.max_type, 255);
    assert!(matches!(search.pull(), Step::Record(..)));
    let key = search.key();
    assert_eq!(key.min_objectid, 302);
    assert_eq!(key.min_offset, 51);
    assert_eq!(key.nr_items, 0);
    assert_eq!(search.phase(), Phase::Idle);
}

#[test]
fn keys_ascend() {
    let mut search = whole_tree();
    let (records, _) = run(&mut search, &fixture(), 3);
    assert_eq!(records.len(), 7);
    for pair in records.windows(2) {
        assert!(pair[0].0.precedes(&pair[1].0));
        assert!(!pair[1].0.precedes(&pair[0].0));
    }
    for i in 0..records.len() {
        for j in i + 1..records.len() {
            assert!(records[i].0.precedes(&records[j].0));
        }
    }
}

#[test]
fn keys_ascend_across_failed_requests_and_records_that_do_not_decode() {
    let all = fixture();
    let mut search = whole_tree();
    let mut keys: Vec<Key> = Vec::new();
    let mut failures = 0;
    let mut turn = 0;
    // every second request fails; the page after the second record ends in
    // a record of a kind that is not decoded
    loop {
        let mut step = search.pull();
        if let Step::Query(request) = step {
            turn += 1;
            step = if turn % 2 == 0 {
                search.resume(Err(Errno::EINTR))
            } else {
                search.resume(Ok(answer(&all, &request.key, 2)))
            };
        }
        match step {
            Step::Record(key, _) => keys.push(key),
            Step::Failed(Error::Call(Errno::EINTR)) => failures += 1,
            Step::End => break,
            other => panic!("{:?}", other),
        }
    }
    assert_eq!(keys.len(), all.len());
    assert!(failures >= 3);
    for pair in keys.windows(2) {
        assert!(pair[0].precedes(&pair[1]));
    }
    // a record that does not decode stops the page; what came before it is
    // in order, and nothing comes after it
    let bad = Rec { objectid: 500, type_: 228, offset: 600, payload: vec![0; 4] };
    let page = page_of(&[all[0].clone(), all[1].clone(), bad, all[2].clone()]);
    let mut search = whole_tree();
    search.pull();
    let first = search.resume(Ok(page));
    let second = search.pull();
    match (first, second) {
        (Step::Record(a, _), Step::Record(b, _)) => assert!(a.precedes(&b)),
        other => panic!("{:?}", other),
    }
    for _ in 0..3 {
        assert_eq!(search.pull(), Step::Failed(Error::Unsupported(KeyType::BtrfsChunkItemKey)));
    }
}

#[test]
fn key_order_is_objectid_then_kind_then_offset() {
    let key = |objectid, type_, offset| Key { objectid, type_, offset };
    let inode = KeyType::BtrfsInodeItemKey;
    let dir = KeyType::BtrfsDirItemKey;
    assert!(key(1, dir, 9).precedes(&key(2, inode, 0)));
    assert!(!key(2, inode, 0).precedes(&key(1, dir, 9)));
    assert!(key(1, inode, 9).precedes(&key(1, dir, 0)));
    assert!(!key(1, dir, 0).precedes(&key(1, inode, 9)));
    assert!(key(1, dir, 0).precedes(&key(1, dir, 1)));
    assert!(!key(1, dir, 1).precedes(&key(1, dir, 0)));
    assert!(!key(1, dir, 1).precedes(&key(1, dir, 1)));
    // kinds are ordered by their tags, not by their place in the list
    assert!(key(1, KeyType::BtrfsFreeSpaceHeaderKey, 5).precedes(&key(1, inode, 0)));
    assert!(key(1, KeyType::BtrfsUuidKeyReceivedSubvol, 5)
        .precedes(&key(1, KeyType::BtrfsStringItemKey, 0)));
}

#[test]
fn paging_is_transparent() {
    let all = fixture();
    let mut whole = whole_tree();
    let (single, requests) = run(&mut whole, &all, usize::MAX);
    assert_eq!(requests, 2);
    assert_eq!(single.len(), all.len());
    for cap in 1..=all.len() + 1 {
        let mut search = whole_tree();
        let (paged, requests) = run(&mut search, &all, cap);
        assert_eq!(paged, single, "cap {}", cap);
        let pages = (all.len() + cap - 1) / cap;
        // a last page that is full is followed by a request that finds nothing
        assert_eq!(requests, pages + 1, "cap {}", cap);
    }
}

#[test]
fn pages_of_one_two_and_many_records_give_the_same_records() {
    let all = fixture();
    let mut one = whole_tree();
    let mut two = whole_tree();
    let mut many = whole_tree();
    let by_one = run(&mut one, &all, 1);
    let by_two = run(&mut two, &all, 2);
    let at_once = run(&mut many, &all, 1000);
    assert_eq!(by_one.0, at_once.0);
    assert_eq!(by_two.0, at_once.0);
    assert_eq!(by_one.1, 8);
    assert_eq!(by_two.1, 5);
    assert_eq!(at_once.1, 2);
    let kinds: Vec<KeyType> = at_once.0.iter().map(|(k, _)| k.type_).collect();
    assert_eq!(
        kinds,
        vec![
            KeyType::BtrfsInodeItemKey,
            KeyType::BtrfsInodeRefKey,
            KeyType::BtrfsDirItemKey,
            KeyType::BtrfsDirIndexKey,
            KeyType::BtrfsExtentDataKey,
            KeyType::BtrfsRootRefKey,
            KeyType::BtrfsBlockGroupItemKey,
        ]
    );
}

#[test]
fn records_of_a_page_come_in_the_order_of_the_page() {
    // the cursor does not sort: it hands out what lies in the page, in place
    let recs = [dir_rec(300, 5, b"late"), dir_rec(200, 9, b"early")];
    let mut search = whole_tree();
    search.pull();
    let first = search.resume(Ok(page_of(&recs)));
    let second = search.pull();
    match (first, second) {
        (Step::Record(a, x), Step::Record(b, y)) => {
            assert_eq!(a.objectid, 300);
            assert_eq!(name_of(&x), b"late".to_vec());
            assert_eq!(b.objectid, 200);
            assert_eq!(name_of(&y), b"early".to_vec());
        }
        other => panic!("{:?}", other),
    }
}

#[test]
fn failed_request_leaves_the_search_as_it_was() {
    let mut search = TreeSearch::new(Tree::Fs, 1..2, 3..4, 5..6, 7..8);
    let before = search.key();
    let asked = search.pull();
    assert_eq!(search.resume(Err(Errno::EINTR)), Step::Failed(Error::Call(Errno::EINTR)));
    assert_eq!(search.phase(), Phase::Idle);
    assert_eq!(search.key(), before);
    // the caller may try again, and is asked for the same page
    assert_eq!(search.pull(), asked);
    assert_eq!(search.resume(Err(Errno::EPERM)), Step::Failed(Error::Call(Errno::EPERM)));
    assert_eq!(search.pull(), asked);
    assert!(matches!(search.resume(Ok(page_of(&[inode_rec(1, 1)]))), Step::Record(..)));
}

#[test]
fn failed_request_between_pages_keeps_the_position() {
    let mut search = whole_tree();
    search.pull();
    search.resume(Ok(page_of(&[dir_rec(256, 10, b"x")])));
    let asked = search.pull();
    assert_eq!(search.resume(Err(Errno::ENOTTY)), Step::Failed(Error::Call(Errno::ENOTTY)));
    assert_eq!(search.pull(), asked);
    match asked {
        Step::Query(request) => assert_eq!(request.key.min_objectid, 257),
        other => panic!("{:?}", other),
    }
}

#[test]
fn reply_that_was_not_asked_for_is_dropped() {
    let mut search = whole_tree();
    // idle: the reply is dropped and the search asks for a page
    assert!(matches!(search.resume(Ok(page_of(&fixture()))), Step::Query(_)));
    let recs = [dir_rec(256, 10, b"one"), dir_rec(257, 20, b"two")];
    search.resume(Ok(page_of(&recs)));
    // draining: the page at hand is drained first
    match search.resume(Ok(page_of(&fixture()))) {
        Step::Record(key, item) => {
            assert_eq!(key.objectid, 257);
            assert_eq!(name_of(&item), b"two".to_vec());
        }
        other => panic!("{:?}", other),
    }
    assert_eq!(search.phase(), Phase::Idle);
}

#[test]
fn unknown_kind_tag_is_a_violation() {
    for tag in [2u32, 11, 85, 254, 255, 256, 0x1_0000, u32::MAX] {
        let rec = Rec { objectid: 1, type_: tag, offset: 2, payload: vec![0; 8] };
        let mut search = whole_tree();
        search.pull();
        assert_eq!(
            search.resume(Ok(page_of(&[rec]))),
            Step::Failed(Error::Schema(Violation::Kind(tag)))
        );
    }
}

#[test]
fn unsupported_kind_is_no_violation() {
    let rec = Rec { objectid: 1, type_: 228, offset: 2, payload: vec![0; 80] };
    let mut search = whole_tree();
    search.pull();
    assert_eq!(
        search.resume(Ok(page_of(&[rec]))),
        Step::Failed(Error::Unsupported(KeyType::BtrfsChunkItemKey))
    );
}

#[test]
fn failed_record_stays_at_hand() {
    let bad = Rec { objectid: 700, type_: 216, offset: 33, payload: vec![0; 5] };
    let recs = [dir_rec(256, 10, b"ok"), bad, dir_rec(900, 90, b"behind")];
    let mut search = whole_tree();
    search.pull();
    assert!(matches!(search.resume(Ok(page_of(&recs))), Step::Record(..)));
    let key = search.key();
    let failed = Step::Failed(Error::Unsupported(KeyType::BtrfsDevItemKey));
    assert_eq!(search.pull(), failed);
    // nothing moved: the same record fails again
    assert_eq!(search.key(), key);
    assert_eq!(search.phase(), Phase::Draining);
    assert_eq!(search.pull(), failed);
    // its header says where a new search can begin
    assert_eq!(
        search.header(),
        Some(SearchHeader { transid: 9, objectid: 700, offset: 33, type_: 216, len: 5 })
    );
}

#[test]
fn header_of_the_record_at_hand() {
    let recs = [dir_rec(256, 10, b"one"), dir_rec(257, 20, b"two")];
    let mut search = whole_tree();
    assert_eq!(search.header(), None);
    search.pull();
    assert_eq!(search.header(), None);
    search.resume(Ok(page_of(&recs)));
    let len = dir_payload(0, b"two").len() as u32;
    assert_eq!(
        search.header(),
        Some(SearchHeader { transid: 9, objectid: 257, offset: 20, type_: 84, len })
    );
    search.pull();
    assert_eq!(search.header(), None);
}

#[test]
fn page_that_ends_inside_a_header_is_a_violation() {
    let mut page = page_of(&[dir_rec(256, 10, b"one")]);
    page.buffer.truncate(31);
    let mut search = whole_tree();
    search.pull();
    assert_eq!(search.resume(Ok(page)), Step::Failed(Error::Schema(Violation::Truncated)));
    assert_eq!(search.header(), None);
}

#[test]
fn page_that_ends_inside_a_payload_is_a_violation() {
    let mut page = page_of(&[dir_rec(256, 10, b"one")]);
    let cut = page.buffer.len() - 1;
    page.buffer.truncate(cut);
    let mut search = whole_tree();
    search.pull();
    assert_eq!(search.resume(Ok(page)), Step::Failed(Error::Schema(Violation::Truncated)));
}

#[test]
fn page_that_claims_more_records_than_it_holds_is_a_violation() {
    let mut page = page_of(&[dir_rec(256, 10, b"one")]);
    page.nr_items = 2;
    let mut search = whole_tree();
    search.pull();
    assert!(matches!(search.resume(Ok(page)), Step::Record(..)));
    assert_eq!(search.pull(), Step::Failed(Error::Schema(Violation::Truncated)));
}

#[test]
fn payload_length_beyond_the_page_does_not_wrap() {
    let mut buffer = Vec::new();
    put64(&mut buffer, 0);
    put64(&mut buffer, 1);
    put64(&mut buffer, 2);
    put32(&mut buffer, 1);
    put32(&mut buffer, u32::MAX);
    buffer.extend_from_slice(&[0u8; 200]);
    let mut search = whole_tree();
    search.pull();
    assert_eq!(
        search.resume(Ok(Page { nr_items: 1, buffer })),
        Step::Failed(Error::Schema(Violation::Truncated))
    );
}

#[test]
fn violation_inside_a_record_is_reported() {
    let mut payload = dir_payload(1, b"n");
    payload[29] = 77; // file type
    let rec = Rec { objectid: 256, type_: 96, offset: 1, payload };
    let mut search = whole_tree();
    search.pull();
    assert_eq!(
        search.resume(Ok(page_of(&[rec]))),
        Step::Failed(Error::Schema(Violation::FileType(77)))
    );
}

#[test]
fn nothing_lies_behind_the_largest_object_id() {
    let recs = [dir_rec(u64::MAX - 1, 10, b"a"), dir_rec(u64::MAX, 20, b"b")];
    let mut search = whole_tree();
    search.pull();
    assert!(matches!(search.resume(Ok(page_of(&recs))), Step::Record(..)));
    assert_eq!(search.key().min_objectid, u64::MAX);
    assert_eq!(search.phase(), Phase::Draining);
    assert!(matches!(search.pull(), Step::Record(..)));
    // the search is over without another request
    assert_eq!(search.phase(), Phase::Exhausted);
    assert_eq!(search.key().min_objectid, u64::MAX);
    assert_eq!(search.key().min_offset, 21);
    assert_eq!(search.pull(), Step::End);
}

#[test]
fn nothing_lies_behind_the_largest_offset() {
    let mut search = whole_tree();
    search.pull();
    assert!(matches!(
        search.resume(Ok(page_of(&[dir_rec(256, u64::MAX, b"a")]))),
        Step::Record(..)
    ));
    assert_eq!(search.phase(), Phase::Exhausted);
    assert_eq!(search.key().min_offset, u64::MAX);
    assert_eq!(search.key().min_objectid, 257);
    assert_eq!(search.pull(), Step::End);
}

#[test]
fn largest_object_id_inside_a_page_does_not_end_it() {
    let recs = [dir_rec(u64::MAX, 10, b"a"), dir_rec(5, 20, b"b")];
    let mut search = whole_tree();
    search.pull();
    assert!(matches!(search.resume(Ok(page_of(&recs))), Step::Record(..)));
    assert_eq!(search.phase(), Phase::Draining);
    assert!(matches!(search.pull(), Step::Record(..)));
    assert_eq!(search.phase(), Phase::Idle);
    assert_eq!(search.key().min_objectid, 6);
}

#[test]
fn record_at_reads_one_record() {
    let recs = [dir_rec(256, 10, b"one"), inode_rec(257, 5)];
    let page = page_of(&recs);
    let first_len = recs[0].bytes().len();
    match record_at(&page.buffer, 0) {
        Ok((key, item, len)) => {
            assert_eq!(key, Key { objectid: 256, type_: KeyType::BtrfsDirItemKey, offset: 10 });
            assert_eq!(name_of(&item), b"one".to_vec());
            assert_eq!(len, first_len);
        }
        other => panic!("{:?}", other),
    }
    match record_at(&page.buffer, first_len) {
        Ok((key, Item::Inode(inode), len)) => {
            assert_eq!(key.objectid, 257);
            assert_eq!(inode.size.get(), 5);
            assert_eq!(len, 32 + 160);
        }
        other => panic!("{:?}", other),
    }
    let end = page.buffer.len();
    assert_eq!(record_at(&page.buffer, end), Err(Error::Schema(Violation::Truncated)));
    assert_eq!(record_at(&page.buffer, end + 1), Err(Error::Schema(Violation::Truncated)));
    assert_eq!(record_at(&page.buffer, usize::MAX), Err(Error::Schema(Violation::Truncated)));
}

#[test]
fn dir_entry_in_a_page_keeps_its_file_type() {
    let mut search = whole_tree();
    search.pull();
    match search.resume(Ok(page_of(&[dir_rec(256, 1, b"f")]))) {
        Step::Record(_, Item::DirItem(DirItem::File { type_, location, transid, .. })) => {
            assert_eq!(type_, FileType::Reg);
            assert_eq!(location.objectid.get(), 1256);
            assert_eq!(transid.get(), 7);
        }
        other => panic!("{:?}", other),
    }
}

#[test]
fn key_types_have_their_tags() {
    let table = [
        (0u32, KeyType::BtrfsFreeSpaceHeaderKey),
        (1, KeyType::BtrfsInodeItemKey),
        (12, KeyType::BtrfsInodeRefKey),
        (13, KeyType::BtrfsInodeExtrefKey),
        (24, KeyType::BtrfsXattrItemKey),
        (36, KeyType::BtrfsVerityDescItemKey),
        (37, KeyType::BtrfsVerityMerkleItemKey),
        (48, KeyType::BtrfsOrphanItemKey),
        (60, KeyType::BtrfsDirLogItemKey),
        (72, KeyType::BtrfsDirLogIndexKey),
        (84, KeyType::BtrfsDirItemKey),
        (96, KeyType::BtrfsDirIndexKey),
        (108, KeyType::BtrfsExtentDataKey),
        (120, KeyType::BtrfsCsumItemKey),
        (128, KeyType::BtrfsExtentCsumKey),
        (132, KeyType::BtrfsRootItemKey),
        (144, KeyType::BtrfsRootBackrefKey),
        (156, KeyType::BtrfsRootRefKey),
        (168, KeyType::BtrfsExtentItemKey),
        (169, KeyType::BtrfsMetadataItemKey),
        (176, KeyType::BtrfsTreeBlockRefKey),
        (178, KeyType::BtrfsExtentDataRefKey),
        (180, KeyType::BtrfsExtentRefV0Key),
        (182, KeyType::BtrfsSharedBlockRefKey),
        (184, KeyType::BtrfsSharedDataRefKey),
        (192, KeyType::BtrfsBlockGroupItemKey),
        (198, KeyType::BtrfsFreeSpaceInfoKey),
        (199, KeyType::BtrfsFreeSpaceExtentKey),
        (200, KeyType::BtrfsFreeSpaceBitmapKey),
        (204, KeyType::BtrfsDevExtentKey),
        (216, KeyType::BtrfsDevItemKey),
        (228, KeyType::BtrfsChunkItemKey),
        (240, KeyType::BtrfsQgroupStatusKey),
        (242, KeyType::BtrfsQgroupInfoKey),
        (244, KeyType::BtrfsQgroupLimitKey),
        (246, KeyType::BtrfsQgroupRelationKey),
        (248, KeyType::BtrfsTemporaryItemKey),
        (249, KeyType::BtrfsPersistentItemKey),
        (250, KeyType::BtrfsDevReplaceKey),
        (251, KeyType::BtrfsUuidKeySubvol),
        (252, KeyType::BtrfsUuidKeyReceivedSubvol),
        (253, KeyType::BtrfsStringItemKey),
    ];
    for (tag, kind) in table {
        assert_eq!(KeyType::try_from(tag), Ok(kind));
        assert_eq!(kind.tag(), tag);
    }
    let mut tags = 0;
    for value in 0u32..=300 {
        match KeyType::try_from(value) {
            Ok(kind) => {
                tags += 1;
                assert_eq!(kind.tag(), value);
            }
            Err(()) => assert!(table.iter().all(|(tag, _)| *tag != value)),
        }
    }
    assert_eq!(tags, table.len());
    assert_eq!(KeyType::try_from(u32::MAX), Err(()));
}

#[test]
fn trees_have_their_identifiers() {
    assert_eq!(Tree::Auto.into_u64(), 0);
    assert_eq!(Tree::Root.into_u64(), 1);
    assert_eq!(Tree::Extent.into_u64(), 2);
    assert_eq!(Tree::Chunk.into_u64(), 3);
    assert_eq!(Tree::Dev.into_u64(), 4);
    assert_eq!(Tree::Fs.into_u64(), 5);
    assert_eq!(Tree::Dir.into_u64(), 6);
    assert_eq!(Tree::Csum.into_u64(), 7);
    assert_eq!(Tree::Quota.into_u64(), 8);
    assert_eq!(Tree::Uuid.into_u64(), 9);
    assert_eq!(Tree::FreeSpace.into_u64(), 10);
    assert_eq!(Tree::BlockGroup.into_u64(), 11);
    assert_eq!(Tree::Subvol(256).into_u64(), 256);
    assert_eq!(Tree::Subvol(u64::MAX).into_u64(), u64::MAX);
}
