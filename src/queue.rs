//! The queue of URLs still to check. Each pop hands out the next URL; a
//! caller that shares the queue between workers holds it under one lock, so
//! the pops form a single sequence and no URL is handed out twice or lost.

use vstd::prelude::*;

verus! {

/// The URLs of a queue, as character sequences.
pub open spec fn views_of(urls: Seq<String>) -> Seq<Seq<char>> {
    urls.map_values(|u: String| u@)
}

pub struct WorkQueue {
    urls: Vec<String>,
    next: usize,
}

impl WorkQueue {
    pub closed spec fn wf(self) -> bool {
        self.next <= self.urls@.len()
    }

    /// Every URL the queue was made from, in order.
    pub closed spec fn items(self) -> Seq<Seq<char>> {
        views_of(self.urls@)
    }

    /// How many URLs have been handed out.
    pub closed spec fn taken_count(self) -> nat {
        self.next as nat
    }

    /// The URLs handed out so far, in the order they left.
    pub open spec fn taken(self) -> Seq<Seq<char>> {
        self.items().take(self.taken_count() as int)
    }

    /// The URLs still waiting, in the order they will leave.
    pub open spec fn pending(self) -> Seq<Seq<char>> {
        self.items().skip(self.taken_count() as int)
    }

    /// No more URLs are handed out than the queue holds.
    pub proof fn lemma_taken_within(self)
        requires
            self.wf(),
        ensures
            self.taken_count() <= self.items().len(),
    {
    }

    /// A queue holding `urls`, duplicates included, none handed out yet.
    pub fn new(urls: Vec<String>) -> (r: WorkQueue)
        ensures
            r.wf(),
            r.items() == views_of(urls@),
            r.taken_count() == 0,
    {
        WorkQueue { urls, next: 0 }
    }

    /// The number of URLs the queue was made from.
    pub fn len(&self) -> (r: usize)
        requires
            self.wf(),
        ensures
            r == self.items().len(),
    {
        self.urls.len()
    }

    /// The number of URLs handed out so far.
    pub fn taken_len(&self) -> (r: usize)
        ensures
            r == self.taken_count(),
    {
        self.next
    }

    /// Whether the URL at `index` is `url`.
    pub fn url_is(&self, index: usize, url: &String) -> (r: bool)
        requires
            self.wf(),
            index < self.items().len(),
        ensures
            r == (self.items()[index as int] == url@),
    {
        self.urls[index].eq(url)
    }

    /// Hands out the next URL, or `None` once every URL has been handed out.
    pub fn pop_next(&mut self) -> (r: Option<String>)
        requires
            old(self).wf(),
        ensures
            final(self).wf(),
            final(self).items() == old(self).items(),
            match r {
                None => {
                    &&& old(self).pending().len() == 0
                    &&& final(self).taken_count() == old(self).taken_count()
                },
                Some(u) => {
                    &&& old(self).pending().len() > 0
                    &&& u@ == old(self).pending()[0]
                    &&& final(self).taken_count() == old(self).taken_count() + 1
                    &&& final(self).taken() == old(self).taken().push(u@)
                    &&& final(self).pending() == old(self).pending().drop_first()
                },
            },
    {
        if self.next < self.urls.len() {
            let u = self.urls[self.next].clone();
            self.next = self.next + 1;
            assert(self.taken() =~= old(self).taken().push(u@));
            assert(self.pending() =~= old(self).pending().drop_first());
            Some(u)
        } else {
            None
        }
    }
}

/// What has been handed out and what waits make up the queue's URLs in
/// order, so once nothing waits every URL has left exactly once, in input
/// order, duplicates as separate items.
pub proof fn lemma_each_url_once(q: WorkQueue)
    requires
        q.wf(),
    ensures
        q.taken() + q.pending() == q.items(),
        q.pending().len() == 0 ==> q.taken() == q.items(),
{
    assert(q.taken() + q.pending() =~= q.items());
}

} // verus!
