use vstd::prelude::*;
use crate::pagination::{
    is_surviving_prefix, next_after, next_state, same_but_after, PageState, ShardPager,
};
use crate::streams::{page_size_of, HelixStream, StreamFilter};

verus! {

/// One tick of polling: the shards are paged through one after the other,
/// each until its paging is over.
pub struct TickRun {
    pub shards: Vec<StreamFilter>,
    pub current: usize,
    pub pager: ShardPager,
}

impl TickRun {
    /// The shard under way is `shards[current]`, paged by `pager`.
    pub open spec fn wf(&self) -> bool {
        &&& self.current <= self.shards@.len()
        &&& self.current < self.shards@.len() ==> same_but_after(
            self.pager.filter,
            self.shards@[self.current as int],
            self.pager.filter.after,
        )
    }

    /// Whether every shard has been paged through.
    pub open spec fn finished(&self) -> bool {
        self.current == self.shards@.len()
    }

    /// A tick over `shards`, starting at the first page of the first one.
    pub fn new(shards: Vec<StreamFilter>) -> (r: TickRun)
        ensures
            r.wf(),
            r.shards@ == shards@,
            r.current == 0,
            r.pager.state == PageState::Requesting,
            r.pager.filter.after is None,
    {
        let pager = if shards.len() > 0 {
            ShardPager::new(shards[0].duplicate())
        } else {
            ShardPager::new(StreamFilter::default())
        };
        TickRun { shards, current: 0, pager }
    }

    /// The request to send next: the next page of the shard under way, or
    /// the first page of the next shard once that one is over; `None` once
    /// every shard is over.
    pub fn next_request(&mut self) -> (r: Option<StreamFilter>)
        requires
            old(self).wf(),
        ensures
            final(self).wf(),
            final(self).shards@ == old(self).shards@,
            r is None <==> final(self).finished(),
            r is Some ==> final(self).pager.state != PageState::Done && same_but_after(
                r->Some_0,
                final(self).pager.filter,
                final(self).pager.filter.after,
            ),
            old(self).finished() ==> final(self).finished(),
            !old(self).finished() && old(self).pager.state != PageState::Done ==> final(self).current
                == old(self).current && final(self).pager == old(self).pager,
            !old(self).finished() && old(self).pager.state == PageState::Done ==> {
                &&& final(self).current == old(self).current + 1
                &&& !final(self).finished() ==> final(self).pager.state == PageState::Requesting
                    && final(self).pager.filter.after is None
            },
    {
        if self.current < self.shards.len() && self.pager.state == PageState::Done {
            self.current = self.current + 1;
            if self.current < self.shards.len() {
                self.pager = ShardPager::new(self.shards[self.current].duplicate());
            }
        }
        if self.current < self.shards.len() {
            self.pager.next_request()
        } else {
            None
        }
    }

    /// Takes in a page of the answer to the last request; see
    /// `ShardPager::on_page`.
    pub fn on_page(&mut self, records: &Vec<HelixStream>, cursor: Option<String>, minimum_viewers: u64) -> (kept: usize)
        requires
            old(self).wf(),
        ensures
            final(self).wf(),
            final(self).shards@ == old(self).shards@,
            final(self).current == old(self).current,
            is_surviving_prefix(records@, minimum_viewers as int, kept as int),
            same_but_after(
                final(self).pager.filter,
                old(self).pager.filter,
                next_after(page_size_of(old(self).pager.filter), records@.len() as int, cursor),
            ),
            final(self).pager.state == if kept < records@.len() {
                PageState::Done
            } else {
                next_state(page_size_of(old(self).pager.filter), records@.len() as int, cursor)
            },
    {
        self.pager.on_page(records, cursor, minimum_viewers)
    }

    /// Ends the shard under way after a failed request.
    pub fn on_error(&mut self)
        requires
            old(self).wf(),
        ensures
            final(self).wf(),
            final(self).shards@ == old(self).shards@,
            final(self).current == old(self).current,
            final(self).pager.state == PageState::Done,
            same_but_after(final(self).pager.filter, old(self).pager.filter, old(self).pager.filter.after),
    {
        self.pager.on_error();
    }
}

} // verus!
