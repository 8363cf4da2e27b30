use vstd::prelude::*;
use crate::streams::{list_view, page_size_of, HelixStream, StreamFilter, DEFAULT_PAGE_SIZE};

verus! {

/// Where the paging through one shard stands.
#[derive(PartialEq, Eq, Structural, Clone, Copy, Debug)]
pub enum PageState {
    /// No page has been asked for yet.
    Requesting,
    /// A full page came back with a cursor: the next page is to be asked for.
    Continuing,
    /// No further page is to be asked for.
    Done,
}

/// The state after a page of `count` records, for pages of `page_size`.
pub open spec fn next_state(page_size: int, count: int, cursor: Option<String>) -> PageState {
    if count == page_size && cursor is Some {
        PageState::Continuing
    } else {
        PageState::Done
    }
}

/// The cursor to resume from after a page of `count` records: the one the
/// service gave after a full page, none after a short one.
pub open spec fn next_after(page_size: int, count: int, cursor: Option<String>) -> Option<String> {
    if count == page_size {
        cursor
    } else {
        None
    }
}

/// Whether `kept` records at the head of `records` all reach `minimum`, and
/// the record after them, if any, does not.
pub open spec fn is_surviving_prefix(records: Seq<HelixStream>, minimum: int, kept: int) -> bool {
    &&& 0 <= kept <= records.len()
    &&& forall|i: int| 0 <= i < kept ==> #[trigger] records[i].viewer_count >= minimum
    &&& kept < records.len() ==> records[kept].viewer_count < minimum
}

/// The state and cursor that follow a page of `count` records.
pub fn page_transition(page_size: i64, count: usize, cursor: Option<String>) -> (r: (
    PageState,
    Option<String>,
))
    ensures
        r.0 == next_state(page_size as int, count as int, cursor),
        r.1 == next_after(page_size as int, count as int, cursor),
{
    if count as i128 == page_size as i128 {
        match cursor {
            Some(c) => (PageState::Continuing, Some(c)),
            None => (PageState::Done, None),
        }
    } else {
        (PageState::Done, None)
    }
}

/// How many records at the head of a page reach `minimum_viewers`: the
/// service sends them by decreasing viewer count, so the first record below it
/// and all that follow are left out.
pub fn surviving_count(records: &Vec<HelixStream>, minimum_viewers: u64) -> (kept: usize)
    ensures
        is_surviving_prefix(records@, minimum_viewers as int, kept as int),
{
    let mut i: usize = 0;
    while i < records.len()
        invariant
            i <= records@.len(),
            forall|j: int| 0 <= j < i ==> #[trigger] records@[j].viewer_count >= minimum_viewers as int,
        decreases records.len() - i,
    {
        if (records[i].viewer_count as i128) < minimum_viewers as i128 {
            return i;
        }
        i = i + 1;
    }
    i
}

/// The paging through one shard: the request to send next and its state.
pub struct ShardPager {
    pub filter: StreamFilter,
    pub state: PageState,
}

/// The filter `b` is `a` with `after` as its cursor.
pub open spec fn same_but_after(b: StreamFilter, a: StreamFilter, after: Option<String>) -> bool {
    &&& b.after == after
    &&& b.before == a.before
    &&& b.first == a.first
    &&& list_view(b.game_ids) == list_view(a.game_ids)
    &&& list_view(b.languages) == list_view(a.languages)
    &&& list_view(b.user_ids) == list_view(a.user_ids)
    &&& list_view(b.user_logins) == list_view(a.user_logins)
}

impl ShardPager {
    /// Starts paging through `shard` from its first page.
    pub fn new(shard: StreamFilter) -> (r: ShardPager)
        ensures
            r.state == PageState::Requesting,
            same_but_after(r.filter, shard, None),
    {
        let mut filter = shard;
        filter.after = None;
        ShardPager { filter, state: PageState::Requesting }
    }

    /// The page size asked of the service.
    pub fn page_size(&self) -> (r: i64)
        ensures
            r == page_size_of(self.filter),
    {
        match self.filter.first {
            Some(n) => n,
            None => DEFAULT_PAGE_SIZE,
        }
    }

    /// The request to send next, or `None` once paging is over.
    pub fn next_request(&self) -> (r: Option<StreamFilter>)
        ensures
            r is None <==> self.state == PageState::Done,
            r is Some ==> same_but_after(r->Some_0, self.filter, self.filter.after),
    {
        if self.state == PageState::Done {
            None
        } else {
            Some(self.filter.duplicate())
        }
    }

    /// Takes in a page of the answer: returns how many records at its head
    /// are kept, and moves to the next state. A short page ends the paging
    /// and drops the cursor; a full page goes on with the cursor given, if
    /// any. A record under `minimum_viewers` ends the paging too, and it and
    /// the records after it are dropped.
    pub fn on_page(&mut self, records: &Vec<HelixStream>, cursor: Option<String>, minimum_viewers: u64) -> (kept: usize)
        ensures
            is_surviving_prefix(records@, minimum_viewers as int, kept as int),
            same_but_after(
                final(self).filter,
                old(self).filter,
                next_after(page_size_of(old(self).filter), records@.len() as int, cursor),
            ),
            final(self).state == if kept < records@.len() {
                PageState::Done
            } else {
                next_state(page_size_of(old(self).filter), records@.len() as int, cursor)
            },
    {
        let (state, after) = page_transition(self.page_size(), records.len(), cursor);
        self.filter.after = after;
        let kept = surviving_count(records, minimum_viewers);
        self.state = if kept < records.len() { PageState::Done } else { state };
        kept
    }

    /// Ends the paging after a failed request.
    pub fn on_error(&mut self)
        ensures
            final(self).state == PageState::Done,
            same_but_after(final(self).filter, old(self).filter, old(self).filter.after),
    {
        self.state = PageState::Done;
    }
}

/// A short page ends the paging of its shard and drops the cursor, whether
/// or not the service sent one.
pub proof fn lemma_short_page_ends(page_size: int, count: int, cursor: Option<String>)
    requires
        0 <= count < page_size,
    ensures
        next_state(page_size, count, cursor) == PageState::Done,
        next_after(page_size, count, cursor) is None,
{
}

/// A full page goes on from the cursor that came with it, and ends the
/// paging when none came.
pub proof fn lemma_full_page(page_size: int, cursor: Option<String>)
    ensures
        cursor is Some ==> next_state(page_size, page_size, cursor) == PageState::Continuing,
        cursor is None ==> next_state(page_size, page_size, cursor) == PageState::Done,
        next_after(page_size, page_size, cursor) == cursor,
{
}

/// No record at or after the first one under the minimum viewer count is
/// kept.
pub proof fn lemma_early_stop(records: Seq<HelixStream>, minimum: int, kept: int, i: int)
    requires
        is_surviving_prefix(records, minimum, kept),
        0 <= i < records.len(),
        records[i].viewer_count < minimum,
    ensures
        kept <= i,
{
}

} // verus!
