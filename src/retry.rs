//! The retry policy for one URL: up to `max_retries + 1` attempts, stopping at
//! the first that completes, keeping the result of the last attempt made.
//!
//! The caller performs each attempt and hands its result to [`Retry::record`];
//! [`Retry::is_finished`] says whether another attempt is due.

use vstd::prelude::*;
use crate::status::WebsiteStatus;

verus! {

/// The abstract state of a retry sequence: the retry budget, the attempts
/// made so far and whether the last of them completed.
pub struct RetryView {
    pub max_retries: nat,
    pub attempts: nat,
    pub last_ok: bool,
}

/// The state before any attempt.
pub open spec fn initial(max_retries: nat) -> RetryView {
    RetryView { max_retries, attempts: 0, last_ok: false }
}

/// No further attempt is due: one completed, or the budget is spent.
pub open spec fn done(s: RetryView) -> bool {
    s.attempts > 0 && (s.last_ok || s.attempts == s.max_retries + 1)
}

/// The state after an attempt whose request completed iff `ok`; a finished
/// sequence takes no more attempts.
pub open spec fn step(s: RetryView, ok: bool) -> RetryView {
    if done(s) {
        s
    } else {
        RetryView { attempts: s.attempts + 1, last_ok: ok, ..s }
    }
}

/// The state reached from `s` when successive attempts complete as `outcomes`
/// says, until the sequence is finished or the outcomes run out.
pub open spec fn run(s: RetryView, outcomes: Seq<bool>) -> RetryView
    decreases outcomes.len(),
{
    if outcomes.len() == 0 || done(s) {
        s
    } else {
        run(step(s, outcomes[0]), outcomes.drop_first())
    }
}

/// The retry state of one URL.
pub struct Retry {
    max_retries: usize,
    retries_used: usize,
    last: Option<WebsiteStatus>,
}

impl Retry {
    pub closed spec fn wf(self) -> bool {
        &&& self.retries_used <= self.max_retries
        &&& self.last is None ==> self.retries_used == 0
    }

    pub closed spec fn spec_max_retries(self) -> nat {
        self.max_retries as nat
    }

    pub closed spec fn spec_last(self) -> Option<WebsiteStatus> {
        self.last
    }

    pub closed spec fn spec_attempts(self) -> nat {
        if self.last is None {
            0
        } else {
            self.retries_used as nat + 1
        }
    }

    pub open spec fn view(self) -> RetryView {
        RetryView {
            max_retries: self.spec_max_retries(),
            attempts: self.spec_attempts(),
            last_ok: self.spec_last() matches Some(r) && r.status is Ok,
        }
    }

    /// A sequence that will make at most `max_retries + 1` attempts.
    pub fn new(max_retries: usize) -> (r: Retry)
        ensures
            r.wf(),
            r.view() == initial(max_retries as nat),
            r.spec_last() is None,
    {
        Retry { max_retries, retries_used: 0, last: None }
    }

    /// Whether no further attempt is due.
    pub fn is_finished(&self) -> (r: bool)
        requires
            self.wf(),
        ensures
            r == done(self.view()),
    {
        match &self.last {
            None => false,
            Some(result) => result.status.is_ok() || self.retries_used == self.max_retries,
        }
    }

    /// Records the result of the attempt just made.
    pub fn record(&mut self, result: WebsiteStatus)
        requires
            old(self).wf(),
            !done(old(self).view()),
        ensures
            final(self).wf(),
            final(self).view() == step(old(self).view(), result.status is Ok),
            final(self).spec_last() == Some(result),
    {
        if self.last.is_some() {
            self.retries_used = self.retries_used + 1;
        }
        self.last = Some(result);
    }

    /// The result of the last attempt made, once the sequence is finished.
    pub fn into_result(self) -> (r: WebsiteStatus)
        requires
            self.wf(),
            done(self.view()),
        ensures
            self.spec_last() == Some(r),
    {
        self.last.unwrap()
    }
}

/// Along any run, the attempts never exceed `max_retries + 1`.
pub proof fn lemma_attempts_bounded(s: RetryView, outcomes: Seq<bool>)
    requires
        s.attempts <= s.max_retries + 1,
    ensures
        run(s, outcomes).attempts <= s.max_retries + 1,
        run(s, outcomes).max_retries == s.max_retries,
    decreases outcomes.len(),
{
    if outcomes.len() > 0 && !done(s) {
        lemma_attempts_bounded(step(s, outcomes[0]), outcomes.drop_first());
    }
}

proof fn lemma_all_fail_from(s: RetryView, outcomes: Seq<bool>)
    requires
        !done(s),
        s.attempts <= s.max_retries,
        s.attempts + outcomes.len() >= s.max_retries + 1,
        forall|i: int| 0 <= i < outcomes.len() ==> !outcomes[i],
    ensures
        run(s, outcomes).attempts == s.max_retries + 1,
        !run(s, outcomes).last_ok,
        done(run(s, outcomes)),
    decreases outcomes.len(),
{
    let t = step(s, outcomes[0]);
    let rest = outcomes.drop_first();
    assert(!outcomes[0]);
    assert(run(s, outcomes) == run(t, rest));
    if t.attempts == t.max_retries + 1 {
        assert(done(t));
        assert(run(t, rest) == t);
    } else {
        assert(forall|i: int| 0 <= i < rest.len() ==> !rest[i]) by {
            assert(forall|i: int| 0 <= i < rest.len() ==> rest[i] == outcomes[i + 1]);
        };
        lemma_all_fail_from(t, rest);
    }
}

/// When every attempt fails, exactly `max_retries + 1` attempts are made and
/// the sequence ends on a failure.
pub proof fn lemma_retry_bound(max_retries: nat, outcomes: Seq<bool>)
    requires
        outcomes.len() >= max_retries + 1,
        forall|i: int| 0 <= i < outcomes.len() ==> !outcomes[i],
    ensures
        run(initial(max_retries), outcomes).attempts == max_retries + 1,
        done(run(initial(max_retries), outcomes)),
        !run(initial(max_retries), outcomes).last_ok,
{
    lemma_all_fail_from(initial(max_retries), outcomes);
}

/// When the first attempt fails and the second completes, with at least one
/// retry allowed, exactly two attempts are made and the sequence ends on the
/// completed one.
pub proof fn lemma_early_success(max_retries: nat, outcomes: Seq<bool>)
    requires
        max_retries >= 1,
        outcomes.len() >= 2,
        !outcomes[0],
        outcomes[1],
    ensures
        run(initial(max_retries), outcomes).attempts == 2,
        run(initial(max_retries), outcomes).last_ok,
        done(run(initial(max_retries), outcomes)),
{
    let s1 = step(initial(max_retries), outcomes[0]);
    let r1 = outcomes.drop_first();
    assert(!done(initial(max_retries)));
    assert(run(initial(max_retries), outcomes) == run(s1, r1));
    assert(r1[0] == outcomes[1]);
    let s2 = step(s1, r1[0]);
    assert(!done(s1));
    assert(run(s1, r1) == run(s2, r1.drop_first()));
    assert(done(s2));
    assert(run(s2, r1.drop_first()) == s2);
}

} // verus!
