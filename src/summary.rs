//! Aggregate figures over the results of a run.

use vstd::prelude::*;
use crate::status::WebsiteStatus;

verus! {

/// The number of results whose request completed.
pub open spec fn successes_of(results: Seq<WebsiteStatus>) -> nat
    decreases results.len(),
{
    if results.len() == 0 {
        0
    } else {
        successes_of(results.drop_last()) + if results.last().status is Ok {
            1nat
        } else {
            0nat
        }
    }
}

/// The sum of the response times of the results, in nanoseconds.
pub open spec fn total_nanos(results: Seq<WebsiteStatus>) -> nat
    decreases results.len(),
{
    if results.len() == 0 {
        0
    } else {
        total_nanos(results.drop_last()) + results.last().response_time_nanos as nat
    }
}

/// The mean response time in nanoseconds, rounded down; zero when there are
/// no results.
pub open spec fn average_nanos(results: Seq<WebsiteStatus>) -> nat {
    if results.len() == 0 {
        0
    } else {
        total_nanos(results) / results.len()
    }
}

#[derive(Debug)]
pub struct Summary {
    pub total: usize,
    pub successes: usize,
    pub failures: usize,
    pub average_response_nanos: u64,
}

proof fn lemma_counts_bounded(results: Seq<WebsiteStatus>)
    ensures
        successes_of(results) <= results.len(),
        total_nanos(results) <= results.len() * 0xffff_ffff_ffff_ffff,
    decreases results.len(),
{
    if results.len() > 0 {
        lemma_counts_bounded(results.drop_last());
        assert(total_nanos(results) <= results.len() * 0xffff_ffff_ffff_ffff) by (nonlinear_arith)
            requires
                total_nanos(results) <= total_nanos(results.drop_last()) + 0xffff_ffff_ffff_ffff,
                total_nanos(results.drop_last()) <= results.drop_last().len() * 0xffff_ffff_ffff_ffff,
                results.drop_last().len() + 1 == results.len(),
        ;
    }
}

/// Counts the completed and failed checks and averages the response times.
pub fn summarize(results: &Vec<WebsiteStatus>) -> (r: Summary)
    ensures
        r.total == results@.len(),
        r.successes == successes_of(results@),
        r.failures == results@.len() - successes_of(results@),
        r.average_response_nanos == average_nanos(results@),
{
    let n = results.len();
    let mut successes: usize = 0;
    let mut sum: u128 = 0;
    let mut i: usize = 0;
    while i < n
        invariant
            n == results@.len(),
            i <= n,
            successes == successes_of(results@.take(i as int)),
            sum == total_nanos(results@.take(i as int)),
        decreases n - i,
    {
        let ghost prefix = results@.take(i + 1);
        assert(prefix.drop_last() =~= results@.take(i as int));
        proof {
            lemma_counts_bounded(prefix);
            assert(prefix.len() * 0xffff_ffff_ffff_ffff <= 0xffff_ffff_ffff_ffff_ffff_ffff_ffff_ffff)
                by (nonlinear_arith)
                requires
                    prefix.len() <= 0xffff_ffff_ffff_ffff,
            ;
        }
        if results[i].status.is_ok() {
            successes = successes + 1;
        }
        sum = sum + results[i].response_time_nanos as u128;
        i = i + 1;
    }
    assert(results@.take(n as int) =~= results@);
    proof {
        lemma_counts_bounded(results@);
    }
    let average: u64 = if n == 0 {
        0
    } else {
        proof {
            assert((sum as int) / (n as int) <= 0xffff_ffff_ffff_ffff) by (nonlinear_arith)
                requires
                    sum <= n * 0xffff_ffff_ffff_ffff,
                    n > 0,
            ;
        }
        (sum / (n as u128)) as u64
    };
    Summary { total: n, successes, failures: n - successes, average_response_nanos: average }
}

} // verus!
