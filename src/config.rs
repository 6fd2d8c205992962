//! The run's configuration and the preparation of its URL list.

use vstd::prelude::*;
use crate::queue::views_of;

verus! {

/// What `str::trim` makes of a sequence of characters.
pub uninterp spec fn trim_of(s: Seq<char>) -> Seq<char>;

/// Relies on `str::trim`: the line without leading and trailing whitespace.
#[verifier::external_body]
fn trimmed(s: &str) -> (r: &str)
    ensures
        r@ == trim_of(s@),
{
    s.trim()
}

/// The trimmed form of each line that is not blank, in order.
pub open spec fn url_lines_of(lines: Seq<Seq<char>>) -> Seq<Seq<char>>
    decreases lines.len(),
{
    if lines.len() == 0 {
        Seq::empty()
    } else {
        let rest = url_lines_of(lines.drop_last());
        if trim_of(lines.last()).len() > 0 {
            rest.push(trim_of(lines.last()))
        } else {
            rest
        }
    }
}

/// The URLs of a list of lines: each line trimmed, blank lines dropped.
pub fn url_lines(lines: &Vec<String>) -> (r: Vec<String>)
    ensures
        views_of(r@) == url_lines_of(views_of(lines@)),
{
    let mut out: Vec<String> = Vec::new();
    let n = lines.len();
    let mut i: usize = 0;
    while i < n
        invariant
            n == lines@.len(),
            i <= n,
            views_of(out@) == url_lines_of(views_of(lines@.take(i as int))),
        decreases n - i,
    {
        assert(views_of(lines@.take(i + 1)).drop_last() =~= views_of(lines@.take(i as int)));
        assert(views_of(lines@.take(i + 1)).last() == lines@[i as int]@);
        let t = trimmed(lines[i].as_str());
        if t.unicode_len() > 0 {
            let ghost before = out@;
            out.push(t.to_string());
            assert(views_of(out@) =~= views_of(before).push(t@));
        }
        i = i + 1;
    }
    assert(lines@.take(n as int) =~= lines@);
    out
}

pub const DEFAULT_WORKER_COUNT: usize = 4;

pub const DEFAULT_TIMEOUT_SECS: u64 = 5;

pub const DEFAULT_MAX_RETRIES: usize = 3;

/// The settings of a run, fixed for its whole length.
#[derive(Debug)]
pub struct Config {
    pub worker_count: usize,
    pub timeout_secs: u64,
    pub max_retries: usize,
}

impl Config {
    /// The configuration from the values given, each missing one taken from
    /// its default (4 workers, 5 seconds, 3 retries). A worker count of zero
    /// becomes one, so that a run always has a worker.
    pub fn from_options(
        worker_count: Option<usize>,
        timeout_secs: Option<u64>,
        max_retries: Option<usize>,
    ) -> (r: Config)
        ensures
            r.worker_count == match worker_count {
                Some(n) => if n == 0 {
                    1
                } else {
                    n
                },
                None => DEFAULT_WORKER_COUNT,
            },
            r.timeout_secs == match timeout_secs {
                Some(t) => t,
                None => DEFAULT_TIMEOUT_SECS,
            },
            r.max_retries == match max_retries {
                Some(m) => m,
                None => DEFAULT_MAX_RETRIES,
            },
            r.worker_count >= 1,
    {
        let workers = match worker_count {
            Some(n) => if n == 0 {
                1
            } else {
                n
            },
            None => DEFAULT_WORKER_COUNT,
        };
        let timeout = match timeout_secs {
            Some(t) => t,
            None => DEFAULT_TIMEOUT_SECS,
        };
        let retries = match max_retries {
            Some(m) => m,
            None => DEFAULT_MAX_RETRIES,
        };
        Config { worker_count: workers, timeout_secs: timeout, max_retries: retries }
    }
}

} // verus!
