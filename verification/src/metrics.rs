//! Process-wide request tallies: attempts, retries and permanent failures,
//! kept by the fetch client and read once at the end of a crawl run.

use vstd::prelude::*;

verus! {

/// Increment that saturates at the top of the counter's range, so a tally
/// can never overflow however long the run.
pub open spec fn sat_inc(n: u64) -> u64 {
    if n < u64::MAX {
        (n + 1) as u64
    } else {
        n
    }
}

/// Counters of the fetch client. They are only ever incremented while the
/// crawl runs and are sampled once at shutdown for the summary report.
#[derive(Debug, Clone, Copy, PartialEq, Eq, Structural)]
pub struct RequestMetrics {
    pub requests_attempted: u64,
    pub retries: u64,
    pub failed: u64,
}

impl RequestMetrics {
    /// Fresh tallies, all zero.
    pub fn new() -> (m: RequestMetrics)
        ensures
            m == (RequestMetrics { requests_attempted: 0, retries: 0, failed: 0 }),
    {
        RequestMetrics { requests_attempted: 0, retries: 0, failed: 0 }
    }

    /// Counts one more attempted request.
    pub fn bump_requests(&mut self)
        ensures
            *final(self) == (RequestMetrics {
                requests_attempted: sat_inc(old(self).requests_attempted),
                ..*old(self)
            }),
    {
        if self.requests_attempted < u64::MAX {
            self.requests_attempted = self.requests_attempted + 1;
        }
    }

    /// Counts one more retried attempt.
    pub fn bump_retries(&mut self)
        ensures
            *final(self) == (RequestMetrics { retries: sat_inc(old(self).retries), ..*old(self) }),
    {
        if self.retries < u64::MAX {
            self.retries = self.retries + 1;
        }
    }

    /// Counts one more permanently failed fetch.
    pub fn bump_failed(&mut self)
        ensures
            *final(self) == (RequestMetrics { failed: sat_inc(old(self).failed), ..*old(self) }),
    {
        if self.failed < u64::MAX {
            self.failed = self.failed + 1;
        }
    }

    /// Read-only snapshot for the end-of-run report: requests attempted,
    /// retries, permanent failures.
    pub fn summary(&self) -> (r: (u64, u64, u64))
        ensures
            r.0 == self.requests_attempted,
            r.1 == self.retries,
            r.2 == self.failed,
    {
        (self.requests_attempted, self.retries, self.failed)
    }
}

} // verus!
