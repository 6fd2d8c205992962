//! The shared state of a run: the work queue and one result slot per input
//! URL. Workers take a URL with a ticket, check it without holding the state,
//! and deliver the result under that ticket. A slot takes one result, and only
//! a result for its own URL, so a complete run holds exactly one result per
//! input URL.

use vstd::prelude::*;
use crate::queue::WorkQueue;
use crate::status::WebsiteStatus;

verus! {

/// The results held by `slots`, in slot order, empty slots skipped.
pub open spec fn delivered(slots: Seq<Option<WebsiteStatus>>) -> Seq<WebsiteStatus>
    decreases slots.len(),
{
    if slots.len() == 0 {
        Seq::empty()
    } else {
        let rest = delivered(slots.drop_last());
        match slots.last() {
            Some(r) => rest.push(r),
            None => rest,
        }
    }
}

pub struct Dispatch {
    queue: WorkQueue,
    slots: Vec<Option<WebsiteStatus>>,
}

impl Dispatch {
    pub closed spec fn wf(self) -> bool {
        &&& self.queue.wf()
        &&& self.slots@.len() == self.queue.items().len()
        &&& forall|i: int|
            0 <= i < self.slots@.len() && #[trigger] self.slots@[i] is Some ==> {
                &&& i < self.queue.taken_count()
                &&& self.slots@[i]->0.url@ == self.queue.items()[i]
            }
    }

    /// Every URL of the run, in input order.
    pub closed spec fn items(self) -> Seq<Seq<char>> {
        self.queue.items()
    }

    /// How many URLs have been taken; the tickets handed out are the indexes
    /// below this count.
    pub closed spec fn taken_count(self) -> nat {
        self.queue.taken_count()
    }

    /// The URLs not yet taken.
    pub open spec fn pending(self) -> Seq<Seq<char>> {
        self.items().skip(self.taken_count() as int)
    }

    /// No more URLs are taken than the run holds, and once nothing is pending
    /// every URL has been taken.
    pub proof fn lemma_taken_within(self)
        requires
            self.wf(),
        ensures
            self.taken_count() <= self.items().len(),
            self.pending().len() == self.items().len() - self.taken_count(),
            self.pending().len() == 0 ==> self.taken_count() == self.items().len(),
    {
        self.queue.lemma_taken_within();
    }

    /// The result slot of each input URL.
    pub closed spec fn slots(self) -> Seq<Option<WebsiteStatus>> {
        self.slots@
    }

    /// Every URL has its result.
    pub open spec fn complete(self) -> bool {
        forall|i: int| 0 <= i < self.slots().len() ==> #[trigger] self.slots()[i] is Some
    }

    /// Whether `result` may fill the slot of `ticket`: the ticket was handed
    /// out, its slot is empty and the result is for its URL.
    pub open spec fn accepts(self, ticket: int, result: WebsiteStatus) -> bool {
        &&& 0 <= ticket < self.taken_count()
        &&& self.slots()[ticket] is None
        &&& result.url@ == self.items()[ticket]
    }

    /// A run over `urls`, duplicates counted separately, with every slot empty.
    pub fn new(urls: Vec<String>) -> (r: Dispatch)
        ensures
            r.wf(),
            r.items() == crate::queue::views_of(urls@),
            r.taken_count() == 0,
            r.pending() == r.items(),
            r.slots().len() == urls@.len(),
            forall|i: int| 0 <= i < r.slots().len() ==> #[trigger] r.slots()[i] is None,
    {
        let n = urls.len();
        let queue = WorkQueue::new(urls);
        let mut slots: Vec<Option<WebsiteStatus>> = Vec::new();
        let mut i: usize = 0;
        while i < n
            invariant
                i <= n,
                slots@.len() == i,
                forall|j: int| 0 <= j < i ==> #[trigger] slots@[j] is None,
            decreases n - i,
        {
            slots.push(None);
            i = i + 1;
        }
        let r = Dispatch { queue, slots };
        assert(r.pending() =~= r.items());
        r
    }

    /// Takes the next URL with its ticket (its index in the input), or `None`
    /// once every URL has been taken.
    pub fn take(&mut self) -> (r: Option<(usize, String)>)
        requires
            old(self).wf(),
        ensures
            final(self).wf(),
            final(self).items() == old(self).items(),
            final(self).slots() == old(self).slots(),
            final(self).taken_count() <= final(self).items().len(),
            match r {
                None => {
                    &&& old(self).pending().len() == 0
                    &&& final(self).taken_count() == old(self).taken_count()
                },
                Some((ticket, u)) => {
                    &&& old(self).pending().len() > 0
                    &&& ticket == old(self).taken_count()
                    &&& u@ == old(self).items()[ticket as int]
                    &&& final(self).taken_count() == old(self).taken_count() + 1
                    &&& final(self).pending() == old(self).pending().drop_first()
                },
            },
    {
        let ticket = self.queue.taken_len();
        let ghost before = self.queue;
        proof {
            before.lemma_taken_within();
        }
        let r = self.queue.pop_next();
        match r {
            Some(u) => {
                assert(before.items()[ticket as int] == before.pending()[0]);
                Some((ticket, u))
            },
            None => None,
        }
    }

    /// Puts `result` in the slot of `ticket` when the slot accepts it (see
    /// [`Dispatch::accepts`]); otherwise leaves the run as it was. Returns
    /// whether the result was taken.
    pub fn deliver(&mut self, ticket: usize, result: WebsiteStatus) -> (r: bool)
        requires
            old(self).wf(),
        ensures
            final(self).wf(),
            r == old(self).accepts(ticket as int, result),
            final(self).items() == old(self).items(),
            final(self).taken_count() == old(self).taken_count(),
            final(self).pending() == old(self).pending(),
            final(self).slots() == if r {
                old(self).slots().update(ticket as int, Some(result))
            } else {
                old(self).slots()
            },
    {
        proof {
            self.queue.lemma_taken_within();
        }
        if ticket >= self.queue.taken_len() {
            return false;
        }
        if self.slots[ticket].is_some() {
            return false;
        }
        let same = self.queue.url_is(ticket, &result.url);
        if !same {
            return false;
        }
        self.slots.set(ticket, Some(result));
        true
    }

    /// Whether every URL has its result.
    pub fn is_complete(&self) -> (r: bool)
        requires
            self.wf(),
        ensures
            r == self.complete(),
    {
        let mut i: usize = 0;
        while i < self.slots.len()
            invariant
                i <= self.slots@.len(),
                forall|j: int| 0 <= j < i ==> #[trigger] self.slots@[j] is Some,
            decreases self.slots@.len() - i,
        {
            if self.slots[i].is_none() {
                return false;
            }
            i = i + 1;
        }
        true
    }

    /// The results delivered, in input order. On a complete run there is
    /// one for each input URL; after a worker was lost, the URLs it held have
    /// none.
    pub fn into_results(self) -> (r: Vec<WebsiteStatus>)
        requires
            self.wf(),
        ensures
            r@ == delivered(self.slots()),
    {
        let mut out: Vec<WebsiteStatus> = Vec::new();
        let mut slots = self.slots;
        let ghost all = slots@;
        let n = slots.len();
        let mut i: usize = 0;
        while i < n
            invariant
                i <= n,
                n == all.len(),
                slots@ == all.skip(i as int),
                out@ == delivered(all.take(i as int)),
            decreases n - i,
        {
            let x = slots.remove(0);
            assert(all.take(i + 1).drop_last() =~= all.take(i as int));
            assert(all.skip(i + 1) =~= all.skip(i as int).subrange(1, (n - i) as int));
            match x {
                Some(result) => out.push(result),
                None => {},
            }
            i = i + 1;
        }
        assert(all.take(n as int) =~= all);
        out
    }
}

proof fn lemma_delivered_full(slots: Seq<Option<WebsiteStatus>>)
    requires
        forall|i: int| 0 <= i < slots.len() ==> #[trigger] slots[i] is Some,
    ensures
        delivered(slots).len() == slots.len(),
        forall|i: int| 0 <= i < slots.len() ==> Some(#[trigger] delivered(slots)[i]) == slots[i],
    decreases slots.len(),
{
    if slots.len() > 0 {
        let rest = slots.drop_last();
        assert(forall|i: int| 0 <= i < rest.len() ==> #[trigger] rest[i] == slots[i]);
        lemma_delivered_full(rest);
        assert(slots.last() == slots[slots.len() - 1]);
    }
}

/// A run with nothing pending, in which every ticket handed out has had its
/// result delivered, is complete.
pub proof fn lemma_drained_run_is_complete(d: Dispatch)
    requires
        d.wf(),
        d.pending().len() == 0,
        forall|i: int| 0 <= i < d.taken_count() ==> #[trigger] d.slots()[i] is Some,
    ensures
        d.complete(),
{
    d.lemma_taken_within();
}

/// A complete run holds exactly one result per input URL, duplicates counted
/// separately: the `i`-th result returned is the one for the `i`-th input
/// URL, and nothing is left in the queue.
pub proof fn lemma_one_result_per_url(d: Dispatch)
    requires
        d.wf(),
        d.complete(),
    ensures
        delivered(d.slots()).len() == d.items().len(),
        forall|i: int|
            0 <= i < d.items().len() ==> (#[trigger] delivered(d.slots())[i]).url@ == d.items()[i],
        d.pending().len() == 0,
{
    lemma_delivered_full(d.slots());
    d.queue.lemma_taken_within();
    if d.slots@.len() > 0 {
        assert(d.slots@[d.slots@.len() - 1] is Some);
    }
    assert forall|i: int| 0 <= i < d.items().len() implies (#[trigger] delivered(
        d.slots(),
    )[i]).url@ == d.items()[i] by {
        assert(d.slots@[i] is Some);
    }
}

} // verus!
