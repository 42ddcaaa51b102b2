//! The bounded-concurrency fetch coordinator.
//!
//! Pages `1..=total` are launched in order, with at most [`MAX_IN_FLIGHT`]
//! fetches in flight at once; as one completes, the next queued page may be
//! admitted. The coordinator only decides; the caller performs the fetches
//! and reports each completion back.

use vstd::prelude::*;

verus! {

/// The concurrency ceiling: how many fetches may be in flight at once.
pub const MAX_IN_FLIGHT: usize = 8;

pub struct Coordinator {
    /// How many pages there are to fetch.
    pub total: usize,
    /// The next page number to launch, in `1..=total + 1`.
    pub next_page: usize,
    /// How many fetches are in flight right now.
    pub in_flight: usize,
    /// How many fetches have completed (with success or failure).
    pub completed: usize,
}

impl Coordinator {
    /// Every launched page was launched exactly once, in order, and the
    /// ceiling is respected.
    pub open spec fn wf(&self) -> bool {
        &&& self.total < usize::MAX
        &&& 1 <= self.next_page <= self.total + 1
        &&& self.in_flight <= MAX_IN_FLIGHT
        &&& self.completed + self.in_flight == self.next_page - 1
    }

    pub fn new(total: usize) -> (r: Coordinator)
        requires
            total < usize::MAX,
        ensures
            r.wf(),
            r.total == total,
            r.next_page == 1,
            r.in_flight == 0,
            r.completed == 0,
    {
        Coordinator { total, next_page: 1, in_flight: 0, completed: 0 }
    }

    /// Admits the next page if one is queued and a slot is free; otherwise
    /// changes nothing.
    pub fn try_launch(&mut self) -> (r: Option<usize>)
        requires
            old(self).wf(),
        ensures
            final(self).wf(),
            final(self).total == old(self).total,
            final(self).completed == old(self).completed,
            old(self).next_page <= old(self).total && old(self).in_flight < MAX_IN_FLIGHT ==> {
                &&& r == Some(old(self).next_page)
                &&& final(self).next_page == old(self).next_page + 1
                &&& final(self).in_flight == old(self).in_flight + 1
            },
            !(old(self).next_page <= old(self).total && old(self).in_flight < MAX_IN_FLIGHT) ==> {
                &&& r is None
                &&& *final(self) == *old(self)
            },
    {
        if self.next_page <= self.total && self.in_flight < MAX_IN_FLIGHT {
            let page = self.next_page;
            self.next_page = self.next_page + 1;
            self.in_flight = self.in_flight + 1;
            Some(page)
        } else {
            None
        }
    }

    /// Records that one in-flight fetch settled, with success or failure.
    pub fn complete_one(&mut self)
        requires
            old(self).wf(),
            old(self).in_flight > 0,
        ensures
            final(self).wf(),
            final(self).total == old(self).total,
            final(self).next_page == old(self).next_page,
            final(self).in_flight == old(self).in_flight - 1,
            final(self).completed == old(self).completed + 1,
    {
        self.in_flight = self.in_flight - 1;
        self.completed = self.completed + 1;
    }

    /// Whether every page has been attempted and has settled.
    pub fn finished(&self) -> (r: bool)
        requires
            self.wf(),
        ensures
            r == (self.completed == self.total && self.in_flight == 0),
    {
        self.completed == self.total && self.in_flight == 0
    }
}

/// Concurrency ceiling: a well-formed coordinator never admits more than
/// `MAX_IN_FLIGHT` simultaneous fetches, whatever order launches and
/// completions arrive in.
pub proof fn lemma_concurrency_ceiling(c: Coordinator)
    requires
        c.wf(),
    ensures
        c.in_flight <= MAX_IN_FLIGHT,
{
}

/// Once the queue is drained and no fetch is in flight, every one of the
/// `total` pages has been attempted exactly once.
pub proof fn lemma_all_attempted(c: Coordinator)
    requires
        c.wf(),
        c.next_page == c.total + 1,
        c.in_flight == 0,
    ensures
        c.completed == c.total,
{
}

} // verus!
