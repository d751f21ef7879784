//! Whole searches: what a caller sees who pulls until the search ends.
//!
//! A search is driven by pulling, issuing each page request that a pull asks
//! for, and handing the reply to the cursor. `spec_run` is that loop as a
//! mathematical function of the cursor and of the replies that the requests
//! get. The lemmas of this module say how its result relates to the records
//! that the pages hold.

use crate::error::Error;
use crate::raw::{SearchHeader, SEARCH_HEADER_SIZE};
use crate::tree_search::{
    lemma_key_order, spec_past, spec_record_at, Cursor, ItemView, Key, PageView, Phase, SearchKey,
    StepView,
};
use nix::errno::Errno;
use vstd::prelude::*;

verus! {

/// What a caller has seen when a run stops: the records in the order in which
/// they were handed out, the number of page requests that were issued and
/// answered, and the step that stopped the run. There is no such step when
/// the run stopped for want of a reply.
pub struct Trace {
    pub records: Seq<(Key, ItemView)>,
    pub requests: nat,
    pub end: Option<StepView>,
}

impl Trace {
    /// The trace of a run that stopped with `step` before any record.
    pub open spec fn spec_stopped(step: Option<StepView>, requests: nat) -> Trace {
        Trace { records: Seq::empty(), requests, end: step }
    }

    /// This trace with one record before it, after `requests` more requests.
    pub open spec fn spec_led_by(self, key: Key, item: ItemView, requests: nat) -> Trace {
        Trace {
            records: seq![(key, item)] + self.records,
            requests: self.requests + requests,
            end: self.end,
        }
    }
}

/// The run of the cursor `c` against the replies `replies`: the cursor is
/// pulled until a step is no record or a reply is wanted and none is left.
/// Each page request is answered by the next reply.
pub open spec fn spec_run(c: Cursor, replies: Seq<Result<PageView, Errno>>) -> Trace
    decreases replies.len(), c.key.nr_items,
{
    match c.phase {
        Phase::Exhausted => Trace::spec_stopped(Some(StepView::End), 0),
        Phase::Draining => {
            let (next, step) = c.spec_drain();
            match step {
                StepView::Record(key, item) => if next.key.nr_items < c.key.nr_items {
                    spec_run(next, replies).spec_led_by(key, item, 0)
                } else {
                    Trace::spec_stopped(Some(step), 0)
                },
                _ => Trace::spec_stopped(Some(step), 0),
            }
        },
        _ => if replies.len() == 0 {
            Trace::spec_stopped(None, 0)
        } else {
            let (next, step) = c.spec_pull().0.spec_resume(replies[0]);
            match step {
                StepView::Record(key, item) => spec_run(next, replies.drop_first()).spec_led_by(
                    key,
                    item,
                    1,
                ),
                _ => Trace::spec_stopped(Some(step), 1),
            }
        },
    }
}

/// Whether `n` records lie back to back in `buf` from `bp` on, each of which
/// decodes.
pub open spec fn spec_page_ok(buf: Seq<u8>, bp: int, n: nat) -> bool
    decreases n,
{
    n == 0 || match spec_record_at(buf, bp) {
        Ok(rec) => spec_page_ok(buf, bp + rec.len, (n - 1) as nat),
        Err(_) => false,
    }
}

/// The first `n` records that lie back to back in `buf` from `bp` on, up to
/// the first that does not decode.
pub open spec fn spec_page_records(buf: Seq<u8>, bp: int, n: nat) -> Seq<(Key, ItemView)>
    decreases n,
{
    if n == 0 {
        Seq::empty()
    } else {
        match spec_record_at(buf, bp) {
            Ok(rec) => seq![(rec.key, rec.item)] + spec_page_records(
                buf,
                bp + rec.len,
                (n - 1) as nat,
            ),
            Err(_) => Seq::empty(),
        }
    }
}

/// The position behind the first `n` records that lie in `buf` from `bp` on.
pub open spec fn spec_page_end(buf: Seq<u8>, bp: int, n: nat) -> int
    decreases n,
{
    if n == 0 {
        bp
    } else {
        match spec_record_at(buf, bp) {
            Ok(rec) => spec_page_end(buf, bp + rec.len, (n - 1) as nat),
            Err(_) => bp,
        }
    }
}

/// The cursor `c` once it has handed out every record of the page at hand
/// that decodes.
pub open spec fn spec_drained(c: Cursor) -> Cursor
    decreases c.key.nr_items,
{
    if c.phase == Phase::Draining {
        let (next, step) = c.spec_drain();
        if step is Record && next.key.nr_items < c.key.nr_items {
            spec_drained(next)
        } else {
            c
        }
    } else {
        c
    }
}

/// A search whose first page request finds nothing ends at once: the run
/// hands out no record, has issued exactly one request, and from then on
/// every pull reports the end without asking for a page.
pub proof fn lemma_empty_search_ends(
    c: Cursor,
    page: PageView,
    rest: Seq<Result<PageView, Errno>>,
)
    requires
        c.phase == Phase::Idle,
        page.nr_items == 0,
    ensures
        spec_run(c, seq![Ok(page)] + rest) == Trace::spec_stopped(Some(StepView::End), 1),
        c.spec_pull().1 == StepView::Query(c.spec_request()),
        ({
            let done = c.spec_pull().0.spec_resume(Ok(page)).0;
            &&& done.phase == Phase::Exhausted
            &&& done.key == c.key
            &&& done.spec_pull() == (done, StepView::End)
        }),
{
    let replies = seq![Ok::<PageView, Errno>(page)] + rest;
    assert(replies[0] == Ok::<PageView, Errno>(page));
}

/// A page request that fails changes nothing: the cursor is as it was
/// before it asked, and asks for the same page when it is pulled again.
pub proof fn lemma_failed_request_changes_nothing(c: Cursor, e: Errno)
    requires
        c.phase == Phase::Idle,
    ensures
        c.spec_pull().0.spec_resume(Err(e)) == (c, StepView::Failed(Error::Call(e))),
        c.spec_pull().0.spec_resume(Err(e)).0.spec_pull().1 == c.spec_pull().1,
{
}

/// The descriptor `key` with its lower bounds moved past `last`, and no
/// record left.
pub open spec fn spec_key_past(key: SearchKey, last: Key) -> SearchKey {
    SearchKey {
        min_objectid: spec_past(last.objectid),
        min_offset: spec_past(last.offset),
        min_type: (last.type_.spec_tag() + 1) as u32,
        nr_items: 0,
        ..key
    }
}

/// Whether nothing can lie behind `last`: its object id or its offset is the
/// largest there is.
pub open spec fn spec_at_end(last: Key) -> bool {
    last.objectid == u64::MAX || last.offset == u64::MAX
}

/// A page is drained in the order in which its records lie in it, without
/// a gap and without a repetition: a run from a cursor that has `n` records
/// left, all of which decode, hands out exactly those `n` records and then
/// goes on as the run from the drained cursor does. The drained cursor has
/// its lower bounds past the last record of the page; it is idle, or
/// exhausted where nothing can lie behind that record.
pub proof fn lemma_drain_page(c: Cursor, replies: Seq<Result<PageView, Errno>>)
    requires
        c.wf(),
        c.phase == Phase::Draining,
        spec_page_ok(c.buffer, c.bp, c.key.nr_items as nat),
    ensures
        ({
            let n = c.key.nr_items as nat;
            let d = spec_drained(c);
            let recs = spec_page_records(c.buffer, c.bp, n);
            let after = spec_run(d, replies);
            &&& spec_run(c, replies) == Trace {
                records: recs + after.records,
                requests: after.requests,
                end: after.end,
            }
            &&& recs.len() == n
            &&& d.wf()
            &&& d.buffer == c.buffer
            &&& d.bp == spec_page_end(c.buffer, c.bp, n)
            &&& d.key == spec_key_past(c.key, recs.last().0)
            &&& d.phase == if spec_at_end(recs.last().0) {
                Phase::Exhausted
            } else {
                Phase::Idle
            }
        }),
    decreases c.key.nr_items,
{
    let n = c.key.nr_items as nat;
    let rec = spec_record_at(c.buffer, c.bp)->Ok_0;
    let next = c.spec_advance(rec);
    let recs = spec_page_records(c.buffer, c.bp, n);
    let head = seq![(rec.key, rec.item)];
    assert(c.spec_drain() == (next, StepView::Record(rec.key, rec.item)));
    assert(next.wf());
    assert(spec_page_end(c.buffer, c.bp, n) == spec_page_end(
        c.buffer,
        c.bp + rec.len,
        (n - 1) as nat,
    ));
    if next.phase == Phase::Draining {
        lemma_drain_page(next, replies);
        let tail = spec_page_records(next.buffer, next.bp, next.key.nr_items as nat);
        let after = spec_run(spec_drained(next), replies);
        assert(recs == head + tail);
        assert(recs.last() == tail.last());
        assert(head + (tail + after.records) =~= (head + tail) + after.records);
    } else {
        assert(n == 1);
        let tail = spec_page_records(next.buffer, next.bp, 0);
        assert(tail =~= Seq::empty());
        assert(recs =~= head);
        assert(spec_drained(next) == next);
        let after = spec_run(next, replies);
        assert(head + after.records =~= recs + after.records);
    }
}

/// The replies of page requests that succeed with the pages `ps` in turn,
/// followed by the replies `tail`.
pub open spec fn spec_replies(ps: Seq<PageView>, tail: Seq<Result<PageView, Errno>>) -> Seq<
    Result<PageView, Errno>,
> {
    ps.map_values(|p: PageView| Ok::<PageView, Errno>(p)) + tail
}

/// The cursor `c` with `page` taken over as the page at hand.
pub open spec fn spec_loaded(c: Cursor, page: PageView) -> Cursor {
    Cursor {
        key: SearchKey { nr_items: page.nr_items, ..c.key },
        size: c.size,
        buffer: page.buffer,
        bp: 0,
        phase: Phase::Draining,
    }
}

/// Whether `page` holds at least one record and as many records as it says,
/// each of which decodes.
pub open spec fn spec_sound(page: PageView) -> bool {
    page.nr_items > 0 && spec_page_ok(page.buffer, 0, page.nr_items as nat)
}

/// The records that `page` holds, in the order in which they lie in it.
pub open spec fn spec_records_of(page: PageView) -> Seq<(Key, ItemView)> {
    spec_page_records(page.buffer, 0, page.nr_items as nat)
}

/// The records that the pages `ps` hold, page after page.
pub open spec fn spec_all_records(ps: Seq<PageView>) -> Seq<(Key, ItemView)>
    decreases ps.len(),
{
    if ps.len() == 0 {
        Seq::empty()
    } else {
        spec_records_of(ps[0]) + spec_all_records(ps.drop_first())
    }
}

/// A reply with a sound page makes a waiting cursor take the page over: the
/// run goes on as the run of the loaded cursor does, one request later.
pub proof fn lemma_fetch_page(c: Cursor, page: PageView, rest: Seq<Result<PageView, Errno>>)
    requires
        c.phase == Phase::Idle || c.phase == Phase::Querying,
        spec_sound(page),
    ensures
        ({
            let t = spec_run(spec_loaded(c, page), rest);
            spec_run(c, seq![Ok(page)] + rest) == Trace { requests: t.requests + 1, ..t }
        }),
{
    let replies = seq![Ok::<PageView, Errno>(page)] + rest;
    assert(replies[0] == Ok::<PageView, Errno>(page));
    assert(replies.drop_first() =~= rest);
    let loaded = spec_loaded(c, page);
    assert(c.spec_pull().0.spec_resume(replies[0]) == loaded.spec_drain());
}

/// The run of a whole search: pages are fetched and drained one after the
/// other until a request finds nothing.
///
/// Where every page is sound and something can lie behind the last record of
/// every page but the last, the run hands out the records of all pages, in
/// the order of the pages and within each page in the order in which they
/// lie there, and then ends.
pub proof fn lemma_run_pages(c: Cursor, ps: Seq<PageView>, last: PageView)
    requires
        c.wf(),
        c.phase == Phase::Idle,
        last.nr_items == 0,
        forall|i: int| 0 <= i < ps.len() ==> spec_sound(#[trigger] ps[i]),
        forall|i: int|
            0 <= i < ps.len() - 1 ==> !spec_at_end(spec_records_of(#[trigger] ps[i]).last().0),
    ensures
        spec_run(c, spec_replies(ps, seq![Ok(last)])).records == spec_all_records(ps),
        spec_run(c, spec_replies(ps, seq![Ok(last)])).end == Some(StepView::End),
    decreases ps.len(),
{
    let tail = seq![Ok::<PageView, Errno>(last)];
    let replies = spec_replies(ps, tail);
    if ps.len() == 0 {
        assert(replies =~= tail + Seq::empty());
        lemma_empty_search_ends(c, last, Seq::empty());
    } else {
        let rest = ps.drop_first();
        let rest_replies = spec_replies(rest, tail);
        assert(replies =~= seq![Ok::<PageView, Errno>(ps[0])] + rest_replies);
        let loaded = spec_loaded(c, ps[0]);
        lemma_fetch_page(c, ps[0], rest_replies);
        lemma_drain_page(loaded, rest_replies);
        let d = spec_drained(loaded);
        assert forall|i: int| 0 <= i < rest.len() implies spec_sound(#[trigger] rest[i]) by {
            assert(rest[i] == ps[i + 1]);
        }
        assert forall|i: int| 0 <= i < rest.len() - 1 implies !spec_at_end(
            spec_records_of(#[trigger] rest[i]).last().0,
        ) by {
            assert(rest[i] == ps[i + 1]);
        }
        if rest.len() == 0 {
            assert(rest_replies =~= tail + Seq::empty());
            assert(spec_all_records(rest) =~= Seq::empty());
            if d.phase == Phase::Idle {
                lemma_empty_search_ends(d, last, Seq::empty());
            }
            assert(spec_records_of(ps[0]) + Seq::empty() =~= spec_records_of(ps[0]));
        } else {
            assert(!spec_at_end(spec_records_of(ps[0]).last().0));
            lemma_run_pages(d, rest, last);
        }
    }
}

/// A record that lies inside a page is the same record when more bytes
/// follow the page.
pub proof fn lemma_record_prefix(a: Seq<u8>, b: Seq<u8>, bp: int)
    requires
        0 <= bp,
        spec_record_at(a, bp) is Ok,
    ensures
        spec_record_at(a + b, bp) == spec_record_at(a, bp),
{
    let header = SearchHeader::spec_at(a, bp);
    assert(SearchHeader::spec_at(a + b, bp) == header);
    let from = bp + SEARCH_HEADER_SIZE;
    let to = bp + SEARCH_HEADER_SIZE + header.len;
    assert((a + b).subrange(from, to) =~= a.subrange(from, to));
}

/// A record of a page is the same record when the page follows other bytes,
/// at the position moved by the length of those bytes.
pub proof fn lemma_record_shift(a: Seq<u8>, b: Seq<u8>, q: int)
    requires
        0 <= q,
    ensures
        spec_record_at(a + b, a.len() + q) == spec_record_at(b, q),
{
    if b.len() - q >= SEARCH_HEADER_SIZE {
        let header = SearchHeader::spec_at(b, q);
        assert(SearchHeader::spec_at(a + b, a.len() + q) == header);
        if b.len() - q - SEARCH_HEADER_SIZE >= header.len {
            let from = q + SEARCH_HEADER_SIZE;
            let to = q + SEARCH_HEADER_SIZE + header.len;
            assert((a + b).subrange(a.len() + from, a.len() + to) =~= b.subrange(from, to));
        }
    }
}

/// The records of a page are the same records when the page follows other
/// bytes.
pub proof fn lemma_records_shift(a: Seq<u8>, b: Seq<u8>, q: int, m: nat)
    requires
        0 <= q,
    ensures
        spec_page_ok(a + b, a.len() + q, m) == spec_page_ok(b, q, m),
        spec_page_records(a + b, a.len() + q, m) == spec_page_records(b, q, m),
        spec_page_end(a + b, a.len() + q, m) == a.len() + spec_page_end(b, q, m),
    decreases m,
{
    if m > 0 {
        lemma_record_shift(a, b, q);
        match spec_record_at(b, q) {
            Ok(rec) => {
                lemma_records_shift(a, b, q + rec.len, (m - 1) as nat);
            },
            Err(_) => {},
        }
    }
}

/// Where `n` records from `bp` on fill the bytes `a` to their end, the
/// records of `a` followed by `b` are those `n` records and then the records
/// of `b`.
pub proof fn lemma_records_concat(a: Seq<u8>, b: Seq<u8>, bp: int, n: nat, m: nat)
    requires
        0 <= bp,
        spec_page_ok(a, bp, n),
        spec_page_end(a, bp, n) == a.len(),
    ensures
        spec_page_ok(a + b, bp, n + m) == spec_page_ok(b, 0, m),
        spec_page_records(a + b, bp, n + m) == spec_page_records(a, bp, n) + spec_page_records(
            b,
            0,
            m,
        ),
        spec_page_end(a + b, bp, n + m) == a.len() + spec_page_end(b, 0, m),
    decreases n,
{
    if n == 0 {
        lemma_records_shift(a, b, 0, m);
        assert(Seq::<(Key, ItemView)>::empty() + spec_page_records(b, 0, m) =~= spec_page_records(
            b,
            0,
            m,
        ));
    } else {
        lemma_record_prefix(a, b, bp);
        let rec = spec_record_at(a, bp)->Ok_0;
        lemma_records_concat(a, b, bp + rec.len, (n - 1) as nat, m);
        let head = seq![(rec.key, rec.item)];
        let mid = spec_page_records(a, bp + rec.len, (n - 1) as nat);
        let tail = spec_page_records(b, 0, m);
        assert((n + m - 1) as nat == (n - 1) as nat + m);
        assert(head + (mid + tail) =~= (head + mid) + tail);
    }
}

/// Whether `page` is sound and its records fill its bytes to their end.
pub open spec fn spec_exact(page: PageView) -> bool {
    spec_sound(page) && spec_page_end(page.buffer, 0, page.nr_items as nat) == page.buffer.len()
}

/// The number of records that the pages `ps` hold together.
pub open spec fn spec_count(ps: Seq<PageView>) -> nat
    decreases ps.len(),
{
    if ps.len() == 0 {
        0
    } else {
        ps[0].nr_items as nat + spec_count(ps.drop_first())
    }
}

/// The bytes of the pages `ps`, page after page.
pub open spec fn spec_joined_bytes(ps: Seq<PageView>) -> Seq<u8>
    decreases ps.len(),
{
    if ps.len() == 0 {
        Seq::empty()
    } else {
        ps[0].buffer + spec_joined_bytes(ps.drop_first())
    }
}

/// The one page that holds the records of all the pages `ps`.
pub open spec fn spec_joined(ps: Seq<PageView>) -> PageView {
    PageView { nr_items: spec_count(ps) as u32, buffer: spec_joined_bytes(ps) }
}

/// The bytes of exact pages, laid end to end, hold the records of all the
/// pages and nothing else.
pub proof fn lemma_joined(ps: Seq<PageView>)
    requires
        forall|i: int| 0 <= i < ps.len() ==> spec_exact(#[trigger] ps[i]),
    ensures
        spec_page_ok(spec_joined_bytes(ps), 0, spec_count(ps)),
        spec_page_records(spec_joined_bytes(ps), 0, spec_count(ps)) == spec_all_records(ps),
        spec_page_end(spec_joined_bytes(ps), 0, spec_count(ps)) == spec_joined_bytes(ps).len(),
        ps.len() > 0 ==> spec_count(ps) > 0,
    decreases ps.len(),
{
    if ps.len() > 0 {
        let rest = ps.drop_first();
        assert forall|i: int| 0 <= i < rest.len() implies spec_exact(#[trigger] rest[i]) by {
            assert(rest[i] == ps[i + 1]);
        }
        lemma_joined(rest);
        assert(spec_exact(ps[0]));
        lemma_records_concat(
            ps[0].buffer,
            spec_joined_bytes(rest),
            0,
            ps[0].nr_items as nat,
            spec_count(rest),
        );
    }
}

/// Paging is transparent: a search hands out the same records in the same
/// order whether they come in several pages or all in one.
///
/// The pages are exact, so that their bytes can be laid end to end, and
/// together hold no more records than one page can count. Something can lie
/// behind the last record of every page but the last; a search stops at a
/// page after whose last record nothing can lie.
pub proof fn lemma_paging_is_transparent(c: Cursor, ps: Seq<PageView>, last: PageView)
    requires
        c.wf(),
        c.phase == Phase::Idle,
        last.nr_items == 0,
        ps.len() > 0,
        spec_count(ps) <= u32::MAX,
        forall|i: int| 0 <= i < ps.len() ==> spec_exact(#[trigger] ps[i]),
        forall|i: int|
            0 <= i < ps.len() - 1 ==> !spec_at_end(spec_records_of(#[trigger] ps[i]).last().0),
    ensures
        spec_run(c, spec_replies(ps, seq![Ok(last)])).records == spec_run(
            c,
            seq![Ok(spec_joined(ps)), Ok(last)],
        ).records,
        spec_run(c, spec_replies(ps, seq![Ok(last)])).records == spec_all_records(ps),
        spec_run(c, spec_replies(ps, seq![Ok(last)])).end == Some(StepView::End),
        spec_run(c, seq![Ok(spec_joined(ps)), Ok(last)]).end == Some(StepView::End),
{
    lemma_run_pages(c, ps, last);
    lemma_joined(ps);
    let joined = spec_joined(ps);
    let one = seq![joined];
    assert(spec_sound(joined));
    assert(spec_replies(one, seq![Ok(last)]) =~= seq![
        Ok::<PageView, Errno>(joined),
        Ok::<PageView, Errno>(last),
    ]);
    lemma_run_pages(c, one, last);
    assert(spec_all_records(one.drop_first()) =~= Seq::empty());
    assert(spec_all_records(one) =~= spec_records_of(joined));
}

/// Whether the keys of `recs` are strictly ascending in the order of keys.
pub open spec fn spec_ascending(recs: Seq<(Key, ItemView)>) -> bool {
    forall|i: int, j: int|
        0 <= i < j < recs.len() ==> (#[trigger] recs[i]).0.spec_precedes((#[trigger] recs[j]).0)
}

/// Whether `k` lies at or behind every lower bound of the descriptor `key`.
pub open spec fn spec_not_before(key: SearchKey, k: Key) -> bool {
    &&& key.min_objectid <= k.objectid
    &&& key.min_offset <= k.offset
    &&& key.min_type <= k.type_.spec_tag()
}

/// Whether the pages `ps` are what requests can be answered with, one after
/// the other, when the first request has the descriptor `key`: each page is
/// sound, its records are in ascending order and lie at or behind the lower
/// bounds of the request that fetched it. The descriptor of the request for
/// the next page has its lower bounds past the last record of the page.
pub open spec fn spec_honest(key: SearchKey, ps: Seq<PageView>) -> bool
    decreases ps.len(),
{
    ps.len() == 0 || {
        let recs = spec_records_of(ps[0]);
        &&& spec_sound(ps[0])
        &&& spec_ascending(recs)
        &&& forall|i: int| 0 <= i < recs.len() ==> spec_not_before(key, (#[trigger] recs[i]).0)
        &&& spec_honest(spec_key_past(key, recs.last().0), ps.drop_first())
    }
}

/// The keys that a search hands out are strictly ascending.
///
/// This holds of every search whose page requests are answered honestly:
/// with pages whose records are in ascending order and respect the lower
/// bounds of the request. Within a page the cursor keeps the order of the
/// page; from page to page the order holds because each request has its
/// lower bounds past the last record handed out. No record that is handed
/// out lies before the lower bound on object ids that the search began with.
pub proof fn lemma_keys_ascend(c: Cursor, ps: Seq<PageView>, last: PageView)
    requires
        c.wf(),
        c.phase == Phase::Idle,
        last.nr_items == 0,
        spec_honest(c.key, ps),
    ensures
        spec_ascending(spec_run(c, spec_replies(ps, seq![Ok(last)])).records),
        forall|i: int|
            0 <= i < spec_run(c, spec_replies(ps, seq![Ok(last)])).records.len()
                ==> c.key.min_objectid <= (#[trigger] spec_run(
                c,
                spec_replies(ps, seq![Ok(last)]),
            ).records[i]).0.objectid,
    decreases ps.len(),
{
    let tail = seq![Ok::<PageView, Errno>(last)];
    let replies = spec_replies(ps, tail);
    if ps.len() == 0 {
        assert(replies =~= tail + Seq::empty());
        lemma_empty_search_ends(c, last, Seq::empty());
    } else {
        let rest = ps.drop_first();
        let rest_replies = spec_replies(rest, tail);
        assert(replies =~= seq![Ok::<PageView, Errno>(ps[0])] + rest_replies);
        let loaded = spec_loaded(c, ps[0]);
        lemma_fetch_page(c, ps[0], rest_replies);
        lemma_drain_page(loaded, rest_replies);
        let d = spec_drained(loaded);
        let recs = spec_records_of(ps[0]);
        let end = recs.last().0;
        let after = spec_run(d, rest_replies).records;
        let all = spec_run(c, replies).records;
        assert(all == recs + after);
        assert(d.key == spec_key_past(c.key, end));
        assert forall|i: int| 0 <= i < recs.len() implies (#[trigger] recs[i]).0.objectid
            <= end.objectid by {
            if i < recs.len() - 1 {
                assert(recs[i].0.spec_precedes(recs[recs.len() - 1].0));
            }
        }
        if d.phase == Phase::Idle {
            lemma_keys_ascend(d, rest, last);
            assert forall|i: int, j: int| 0 <= i < j < all.len() implies (#[trigger] all[i]).0.spec_precedes(
                (#[trigger] all[j]).0,
            ) by {
                if j < recs.len() {
                    assert(all[i] == recs[i] && all[j] == recs[j]);
                } else if i >= recs.len() {
                    assert(all[i] == after[i - recs.len()] && all[j] == after[j - recs.len()]);
                } else {
                    assert(all[i] == recs[i] && all[j] == after[j - recs.len()]);
                    assert(recs[i].0.objectid <= end.objectid);
                    assert(d.key.min_objectid <= after[j - recs.len()].0.objectid);
                }
            }
            assert forall|i: int| 0 <= i < all.len() implies c.key.min_objectid <= (
            #[trigger] all[i]).0.objectid by {
                if i < recs.len() {
                    assert(all[i] == recs[i]);
                    assert(spec_not_before(c.key, recs[i].0));
                } else {
                    assert(all[i] == after[i - recs.len()]);
                    assert(spec_not_before(c.key, recs[recs.len() - 1].0));
                }
            }
        } else {
            assert(after =~= Seq::empty());
            assert(all =~= recs);
            assert forall|i: int| 0 <= i < all.len() implies c.key.min_objectid <= (
            #[trigger] all[i]).0.objectid by {
                assert(spec_not_before(c.key, recs[i].0));
            }
        }
    }
}

/// One pull as a caller makes it: the cursor is pulled and, where it asks for
/// a page and a reply is left, is handed the next reply. Gives the cursor and
/// the replies afterwards, and the step that the caller sees.
pub open spec fn spec_next(c: Cursor, replies: Seq<Result<PageView, Errno>>) -> (
    Cursor,
    Seq<Result<PageView, Errno>>,
    StepView,
) {
    let (asked, step) = c.spec_pull();
    if step is Query && replies.len() > 0 {
        let (next, answer) = asked.spec_resume(replies[0]);
        (next, replies.drop_first(), answer)
    } else {
        (asked, replies, step)
    }
}

/// The steps that a caller sees who pulls `n` times, whatever the steps are:
/// unlike a run, a session goes on after a step that failed.
pub open spec fn spec_session(c: Cursor, replies: Seq<Result<PageView, Errno>>, n: nat) -> Seq<
    StepView,
>
    decreases n,
{
    if n == 0 {
        Seq::empty()
    } else {
        let (next, rest, step) = spec_next(c, replies);
        seq![step] + spec_session(next, rest, (n - 1) as nat)
    }
}

/// Whether `page` answers a request with the descriptor `key` honestly: its
/// records, as far as they decode, are in ascending order and lie at or
/// behind the lower bounds of the request.
pub open spec fn spec_page_honest(key: SearchKey, page: PageView) -> bool {
    let recs = spec_records_of(page);
    &&& spec_ascending(recs)
    &&& forall|i: int| 0 <= i < recs.len() ==> spec_not_before(key, (#[trigger] recs[i]).0)
}

/// Whether every page that is handed to the cursor within `n` pulls answers
/// honestly the request that fetched it.
pub open spec fn spec_honest_session(
    c: Cursor,
    replies: Seq<Result<PageView, Errno>>,
    n: nat,
) -> bool
    decreases n,
{
    n == 0 || {
        let (next, rest, step) = spec_next(c, replies);
        &&& c.spec_pull().1 is Query && replies.len() > 0 ==> (replies[0] matches Ok(page)
            ==> spec_page_honest(c.spec_request().key, page))
        &&& spec_honest_session(next, rest, (n - 1) as nat)
    }
}

/// Whether the keys of the records among `steps` are strictly ascending.
pub open spec fn spec_steps_ascend(steps: Seq<StepView>) -> bool {
    forall|i: int, j: int|
        0 <= i < j < steps.len() ==> ((#[trigger] steps[i]) matches StepView::Record(a, _) ==> (
        (#[trigger] steps[j]) matches StepView::Record(b, _) ==> a.spec_precedes(b)))
}

/// Whether every record among `steps` comes behind `prev`.
pub open spec fn spec_steps_behind(prev: Option<Key>, steps: Seq<StepView>) -> bool {
    prev matches Some(p) ==> forall|j: int|
        0 <= j < steps.len() ==> ((#[trigger] steps[j]) matches StepView::Record(k, _)
            ==> p.spec_precedes(k))
}

/// Whether every record that the cursor `c` can still hand out, if its
/// requests are answered honestly, comes behind `prev`: the records left in
/// the page at hand are in ascending order and behind `prev`, and a cursor
/// that is to ask for a page has its lower bound on object ids past `prev`.
pub open spec fn spec_keeps_behind(c: Cursor, prev: Option<Key>) -> bool {
    &&& c.wf()
    &&& c.phase == Phase::Draining ==> {
        let recs = spec_page_records(c.buffer, c.bp, c.key.nr_items as nat);
        &&& spec_ascending(recs)
        &&& prev matches Some(p) ==> forall|i: int|
            0 <= i < recs.len() ==> p.spec_precedes((#[trigger] recs[i]).0)
    }
    &&& c.phase == Phase::Idle || c.phase == Phase::Querying ==> (prev matches Some(p)
        ==> p.objectid < c.key.min_objectid)
}

/// The record that a draining cursor hands out comes behind the last one,
/// and what the cursor can hand out afterwards comes behind that record.
pub proof fn lemma_drain_step_keeps_behind(c: Cursor, prev: Option<Key>)
    requires
        c.phase == Phase::Draining,
        spec_keeps_behind(c, prev),
    ensures
        ({
            let (next, step) = c.spec_drain();
            &&& step matches StepView::Record(k, _) ==> spec_keeps_behind(next, Some(k)) && (
            prev matches Some(p) ==> p.spec_precedes(k))
            &&& !(step is Record) ==> next == c
        }),
{
    let n = c.key.nr_items as nat;
    let recs = spec_page_records(c.buffer, c.bp, n);
    match spec_record_at(c.buffer, c.bp) {
        Ok(rec) => {
            let next = c.spec_advance(rec);
            let rest = spec_page_records(c.buffer, c.bp + rec.len, (n - 1) as nat);
            assert(recs == seq![(rec.key, rec.item)] + rest);
            assert(recs[0].0 == rec.key);
            assert forall|i: int| 0 <= i < rest.len() implies rec.key.spec_precedes(
                (#[trigger] rest[i]).0,
            ) by {
                assert(recs[i + 1] == rest[i]);
                assert(recs[0].0.spec_precedes(recs[i + 1].0));
            }
            assert forall|i: int, j: int| 0 <= i < j < rest.len() implies (
            #[trigger] rest[i]).0.spec_precedes((#[trigger] rest[j]).0) by {
                assert(recs[i + 1] == rest[i]);
                assert(recs[j + 1] == rest[j]);
            }
            assert(next.wf());
        },
        Err(_) => {},
    }
}

/// One pull keeps what is to come behind what was handed out.
pub proof fn lemma_next_keeps_behind(
    c: Cursor,
    replies: Seq<Result<PageView, Errno>>,
    prev: Option<Key>,
)
    requires
        spec_keeps_behind(c, prev),
        c.spec_pull().1 is Query && replies.len() > 0 ==> (replies[0] matches Ok(page)
            ==> spec_page_honest(c.spec_request().key, page)),
    ensures
        ({
            let (next, rest, step) = spec_next(c, replies);
            &&& step matches StepView::Record(k, _) ==> spec_keeps_behind(next, Some(k)) && (
            prev matches Some(p) ==> p.spec_precedes(k))
            &&& !(step is Record) ==> spec_keeps_behind(next, prev)
        }),
{
    if c.phase == Phase::Draining {
        lemma_drain_step_keeps_behind(c, prev);
    } else if c.phase != Phase::Exhausted && replies.len() > 0 {
        match replies[0] {
            Ok(page) => {
                if page.nr_items > 0 {
                    let loaded = spec_loaded(c.spec_pull().0, page);
                    let recs = spec_records_of(page);
                    assert(c.spec_pull().0.spec_resume(replies[0]) == loaded.spec_drain());
                    assert forall|i: int| 0 <= i < recs.len() && prev is Some implies prev->Some_0.spec_precedes(
                        (#[trigger] recs[i]).0,
                    ) by {
                        assert(spec_not_before(c.spec_request().key, recs[i].0));
                    }
                    assert(spec_keeps_behind(loaded, prev));
                    lemma_drain_step_keeps_behind(loaded, prev);
                }
            },
            Err(_) => {},
        }
    }
}

/// What a session hands out comes behind what was handed out before it, and
/// is in ascending order.
pub proof fn lemma_session_keeps_behind(
    c: Cursor,
    replies: Seq<Result<PageView, Errno>>,
    n: nat,
    prev: Option<Key>,
)
    requires
        spec_keeps_behind(c, prev),
        spec_honest_session(c, replies, n),
    ensures
        spec_steps_ascend(spec_session(c, replies, n)),
        spec_steps_behind(prev, spec_session(c, replies, n)),
    decreases n,
{
    if n > 0 {
        let (next, rest, step) = spec_next(c, replies);
        let later = spec_session(next, rest, (n - 1) as nat);
        let steps = spec_session(c, replies, n);
        assert(steps == seq![step] + later);
        lemma_next_keeps_behind(c, replies, prev);
        match step {
            StepView::Record(k, _) => {
                lemma_session_keeps_behind(next, rest, (n - 1) as nat, Some(k));
                assert forall|j: int|
                    0 <= j < steps.len() && prev is Some && (#[trigger] steps[j]) is Record implies prev->Some_0.spec_precedes(
                    steps[j]->Record_0,
                ) by {
                    if j > 0 {
                        assert(steps[j] == later[j - 1]);
                        lemma_key_order(prev->Some_0, k, later[j - 1]->Record_0);
                    }
                }
                assert forall|i: int, j: int|
                    0 <= i < j < steps.len() && (#[trigger] steps[i]) is Record && (
                    #[trigger] steps[j]) is Record implies steps[i]->Record_0.spec_precedes(
                    steps[j]->Record_0,
                ) by {
                    assert(steps[j] == later[j - 1]);
                    if i > 0 {
                        assert(steps[i] == later[i - 1]);
                    }
                }
            },
            _ => {
                lemma_session_keeps_behind(next, rest, (n - 1) as nat, prev);
                assert forall|j: int|
                    0 <= j < steps.len() && prev is Some && (#[trigger] steps[j]) is Record implies prev->Some_0.spec_precedes(
                    steps[j]->Record_0,
                ) by {
                    assert(steps[j] == later[j - 1]);
                }
                assert forall|i: int, j: int|
                    0 <= i < j < steps.len() && (#[trigger] steps[i]) is Record && (
                    #[trigger] steps[j]) is Record implies steps[i]->Record_0.spec_precedes(
                    steps[j]->Record_0,
                ) by {
                    assert(steps[j] == later[j - 1]);
                    assert(steps[i] == later[i - 1]);
                }
            },
        }
    }
}

/// The keys that a search hands out are strictly ascending, whatever else
/// happens in between: of two records that a caller is handed, the later
/// one comes behind the earlier one in the order of keys, so that no key is
/// handed out twice.
///
/// This holds of every number of pulls on a cursor that has no page at hand,
/// with requests that fail, pages that end the search and records that do
/// not decode among them, as long as every page that is handed to the cursor
/// answers its request honestly.
pub proof fn lemma_session_keys_ascend(
    c: Cursor,
    replies: Seq<Result<PageView, Errno>>,
    n: nat,
)
    requires
        c.wf(),
        c.phase != Phase::Draining,
        spec_honest_session(c, replies, n),
    ensures
        spec_steps_ascend(spec_session(c, replies, n)),
{
    lemma_session_keeps_behind(c, replies, n, None);
}

} // verus!
