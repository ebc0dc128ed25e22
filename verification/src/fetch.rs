//! Decision logic of the admission-controlled fetch client: per-request
//! retry accounting, metrics updates, and redirect-target construction.
//!
//! The surrounding program owns the HTTP transport and the timers. It opens
//! a request with [`start_fetch`], and for each attempt acquires the global
//! and host permits, calls [`FetchJob::begin_attempt`], performs the GET
//! with transport-level redirect following disabled, and reports what
//! happened: a failure goes to [`FetchJob::on_attempt_error`], which decides
//! between retrying and giving up; a redirect goes through
//! [`FetchJob::on_redirect_response`]; a readable body is the content
//! outcome.

use vstd::prelude::*;

use crate::metrics::RequestMetrics;
use crate::metrics::sat_inc;
use crate::urls::host_of;
use crate::urls::lemma_strip_query_shape;
use crate::urls::rebase_url;
use crate::urls::rebased;
use crate::urls::strip_query;
use crate::urls::strip_query_spec;
use crate::urls::uri_host;
use crate::urls::REBASE_LENGTH_LIMIT;

verus! {

/// What one successful HTTP exchange reports: page content, or the redirect
/// target the server pointed at (already re-based onto the request's scheme
/// and host, with the location's query string stripped).
#[derive(Debug, Clone, PartialEq, Eq)]
pub enum Response {
    Content(String),
    Redirect(String),
}

/// Terminal failures of the fetch client.
#[derive(Debug, Clone, Copy, PartialEq, Eq, Structural)]
pub enum FetchError {
    /// The URL did not parse, or parsed without a host.
    InvalidUrl,
    /// Transport kept failing (or the body stayed unreadable) until the
    /// retry budget ran out.
    FetchFailed,
}

/// Construction-time configuration of the fetch client, fixed for the whole
/// run: the two admission bounds, the retry budget, the two timeouts and
/// the fixed inter-retry delay, all in seconds where they are times.
#[derive(Debug, Clone, Copy, PartialEq, Eq, Structural)]
pub struct FetchConfig {
    pub global_cap: u64,
    pub per_host_cap: u64,
    pub max_retries: u64,
    pub timeout_secs: u64,
    pub connect_timeout_secs: u64,
    pub retry_delay_secs: u64,
}

impl FetchConfig {
    /// The configuration the crawler runs with: up to 80 outbound requests
    /// in flight, at most 10 per host, 3 extra attempts after the first,
    /// a 120 s call timeout, a 10 s connect timeout, 2 s between retries.
    pub fn new() -> (c: FetchConfig)
        ensures
            c == (FetchConfig {
                global_cap: 80,
                per_host_cap: 10,
                max_retries: 3,
                timeout_secs: 120,
                connect_timeout_secs: 10,
                retry_delay_secs: 2,
            }),
    {
        FetchConfig {
            global_cap: 80,
            per_host_cap: 10,
            max_retries: 3,
            timeout_secs: 120,
            connect_timeout_secs: 10,
            retry_delay_secs: 2,
        }
    }

    /// The configuration of the page-memoizing client: a smaller global
    /// pool, 3 requests per host, the same call timeout with a longer
    /// connect timeout, and a single attempt per page (its cache, not a
    /// retry loop, absorbs failures).
    pub fn cached() -> (c: FetchConfig)
        ensures
            c == (FetchConfig {
                global_cap: 50,
                per_host_cap: 3,
                max_retries: 0,
                timeout_secs: 120,
                connect_timeout_secs: 30,
                retry_delay_secs: 2,
            }),
    {
        FetchConfig {
            global_cap: 50,
            per_host_cap: 3,
            max_retries: 0,
            timeout_secs: 120,
            connect_timeout_secs: 30,
            retry_delay_secs: 2,
        }
    }
}

/// The state of one logical fetch: the request URL, its host (for the host
/// permit), how many attempts have been opened, and the retry budget.
#[derive(Debug, Clone)]
pub struct FetchJob {
    pub url: String,
    pub host: String,
    pub attempts: u64,
    pub max_retries: u64,
}

/// How an attempt went wrong: the transport failed (timeout, refused
/// connection, failed lookup), or the response arrived but its body could
/// not be read.
#[derive(Debug, Clone, Copy, PartialEq, Eq, Structural)]
pub enum AttemptError {
    Transport,
    BodyRead,
}

/// The decision after a failed attempt: try again after the fixed delay,
/// try again at once, or give up for good.
#[derive(Debug, Clone, Copy, PartialEq, Eq, Structural)]
pub enum FetchProgress {
    RetryAfterDelay,
    RetryNow,
    Failed,
}

/// Effect of opening one attempt: the attempt counter goes up, the request
/// tally goes up, and the retry tally goes up when it is not the first
/// attempt of this fetch.
pub open spec fn begin_spec(j: FetchJob, m: RequestMetrics) -> (FetchJob, RequestMetrics) {
    (
        FetchJob { url: j.url, host: j.host, attempts: (j.attempts + 1) as u64, max_retries: j.max_retries },
        RequestMetrics {
            requests_attempted: sat_inc(m.requests_attempted),
            retries: if j.attempts > 0 {
                sat_inc(m.retries)
            } else {
                m.retries
            },
            failed: m.failed,
        },
    )
}

/// Decision after a failed attempt: with the budget spent the fetch fails
/// for good and the failure tally goes up; otherwise the attempt is retried,
/// after the fixed delay for a transport error, at once for an unreadable
/// body.
pub open spec fn error_spec(j: FetchJob, m: RequestMetrics, k: AttemptError) -> (
    RequestMetrics,
    FetchProgress,
) {
    if j.attempts > j.max_retries {
        (
            RequestMetrics { requests_attempted: m.requests_attempted, retries: m.retries, failed: sat_inc(m.failed) },
            FetchProgress::Failed,
        )
    } else if k is Transport {
        (m, FetchProgress::RetryAfterDelay)
    } else {
        (m, FetchProgress::RetryNow)
    }
}

impl FetchJob {
    /// The attempt counter stays within one past the retry budget.
    pub open spec fn wf(self) -> bool {
        self.attempts <= self.max_retries + 1 && self.max_retries < u64::MAX
    }

    /// Opens the next attempt. The driver calls this once both permits are
    /// held, right before the GET goes out.
    pub fn begin_attempt(&mut self, m: &mut RequestMetrics)
        requires
            old(self).wf(),
            old(self).attempts <= old(self).max_retries,
        ensures
            (*final(self), *final(m)) == begin_spec(*old(self), *old(m)),
            final(self).wf(),
    {
        self.attempts = self.attempts + 1;
        m.bump_requests();
        if self.attempts > 1 {
            m.bump_retries();
        }
    }

    /// Takes the retry-or-fail decision after a failed attempt.
    pub fn on_attempt_error(&self, m: &mut RequestMetrics, kind: AttemptError) -> (r:
        FetchProgress)
        ensures
            (*final(m), r) == error_spec(*self, *old(m), kind),
            r is Failed <==> self.attempts > self.max_retries,
    {
        if self.attempts > self.max_retries {
            m.bump_failed();
            FetchProgress::Failed
        } else {
            match kind {
                AttemptError::Transport => FetchProgress::RetryAfterDelay,
                AttemptError::BodyRead => FetchProgress::RetryNow,
            }
        }
    }

    /// Turns the location header of a redirect response into the redirect
    /// outcome: the location's query string is stripped, the remaining path
    /// is put onto the request URL's scheme and host, and any query the
    /// request URL itself carried is stripped off the re-serialized target,
    /// so the target names scheme, host and path alone. This does not
    /// consume an attempt. Failure comes exactly when the request URL does
    /// not re-parse. The length bound is the URL re-serializer's machine
    /// limit.
    pub fn on_redirect_response(&self, location: &str) -> (r: Result<Response, FetchError>)
        requires
            self.url@.len() + location@.len() < REBASE_LENGTH_LIMIT,
        ensures
            match r {
                Ok(resp) => match resp {
                    Response::Redirect(u) => rebased(self.url@, strip_query_spec(location@))
                        matches Some(s) && u@ == strip_query_spec(s) && (forall|j: int|
                        0 <= j < u@.len() ==> u@[j] != '?'),
                    Response::Content(_) => false,
                },
                Err(e) => e == FetchError::InvalidUrl && rebased(
                    self.url@,
                    strip_query_spec(location@),
                ) is None,
            },
    {
        let p = strip_query(location);
        match rebase_url(self.url.as_str(), p.as_str()) {
            Some(u0) => {
                proof {
                    lemma_strip_query_shape(u0@);
                }
                Ok(Response::Redirect(strip_query(u0.as_str())))
            },
            None => Err(FetchError::InvalidUrl),
        }
    }
}

/// Opens a fetch for `url`: the host comes out of the URL, and a URL that
/// does not parse or has no host is refused at once, before any attempt.
pub fn start_fetch(url: &str, cfg: &FetchConfig) -> (r: Result<FetchJob, FetchError>)
    requires
        cfg.max_retries < u64::MAX,
    ensures
        match r {
            Ok(j) => host_of(url@) is Some && j.url@ == url@ && Some(j.host@) == host_of(url@)
                && j.attempts == 0 && j.max_retries == cfg.max_retries && j.wf(),
            Err(e) => e == FetchError::InvalidUrl && host_of(url@) is None,
        },
{
    match uri_host(url) {
        Some(h) => Ok(
            FetchJob { url: url.to_owned(), host: h, attempts: 0, max_retries: cfg.max_retries },
        ),
        None => Err(FetchError::InvalidUrl),
    }
}

/// One round of an attempt whose transport fails: open the attempt, then
/// take the transport-error decision.
pub open spec fn failing_round(j: FetchJob, m: RequestMetrics) -> (
    FetchJob,
    RequestMetrics,
    FetchProgress,
) {
    let (j1, m1) = begin_spec(j, m);
    let (m2, p) = error_spec(j1, m1, AttemptError::Transport);
    (j1, m2, p)
}

/// The job and metrics after `n` failing rounds.
pub open spec fn failing_run(j: FetchJob, m: RequestMetrics, n: nat) -> (FetchJob, RequestMetrics)
    decreases n,
{
    if n == 0 {
        (j, m)
    } else {
        let (j1, m1) = failing_run(j, m, (n - 1) as nat);
        let (j2, m2, p) = failing_round(j1, m1);
        (j2, m2)
    }
}

/// The decision the `i`-th failing round reports, rounds counted from 1.
pub open spec fn failing_progress(j: FetchJob, m: RequestMetrics, i: nat) -> FetchProgress {
    failing_round(failing_run(j, m, (i - 1) as nat).0, failing_run(j, m, (i - 1) as nat).1).2
}

/// Counts over a run of failing rounds that stays within the retry budget:
/// every round retries, and the tallies track the rounds exactly.
proof fn lemma_failing_run(j: FetchJob, m: RequestMetrics, n: nat)
    requires
        j.wf(),
        j.attempts + n <= j.max_retries,
        m.requests_attempted + n < u64::MAX,
        m.retries + n < u64::MAX,
    ensures
        failing_run(j, m, n).0.max_retries == j.max_retries,
        failing_run(j, m, n).0.attempts == j.attempts + n,
        failing_run(j, m, n).1.requests_attempted == m.requests_attempted + n,
        failing_run(j, m, n).1.retries == m.retries + if j.attempts == 0 && n > 0 {
            n - 1
        } else {
            n as int
        },
        failing_run(j, m, n).1.failed == m.failed,
        forall|i: nat|
            1 <= i <= n ==> #[trigger] failing_progress(j, m, i) is RetryAfterDelay,
    decreases n,
{
    if n > 0 {
        lemma_failing_run(j, m, (n - 1) as nat);
        assert(failing_progress(j, m, n) == failing_round(
            failing_run(j, m, (n - 1) as nat).0,
            failing_run(j, m, (n - 1) as nat).1,
        ).2);
    }
}

/// Retry bound law: a URL whose every attempt fails at transport level is
/// attempted exactly `1 + max_retries` times. No earlier round gives up, the
/// round after the last budgeted retry fails for good, and the metrics
/// record every attempt, every retry, and the one permanent failure.
pub proof fn lemma_retry_bound(j: FetchJob, m: RequestMetrics)
    requires
        j.wf(),
        j.attempts == 0,
        m.requests_attempted + j.max_retries + 1 < u64::MAX,
        m.retries + j.max_retries + 1 < u64::MAX,
        m.failed < u64::MAX,
    ensures
        forall|i: nat|
            1 <= i <= j.max_retries ==> #[trigger] failing_progress(j, m, i) is RetryAfterDelay,
        failing_progress(j, m, (j.max_retries + 1) as nat) is Failed,
        failing_run(j, m, (j.max_retries + 1) as nat).0.attempts == j.max_retries + 1,
        failing_run(j, m, (j.max_retries + 1) as nat).1.requests_attempted == m.requests_attempted
            + j.max_retries + 1,
        failing_run(j, m, (j.max_retries + 1) as nat).1.retries == m.retries + j.max_retries,
        failing_run(j, m, (j.max_retries + 1) as nat).1.failed == m.failed + 1,
{
    let n = j.max_retries as nat;
    lemma_failing_run(j, m, n);
    let (j1, m1) = failing_run(j, m, n);
    assert(failing_run(j, m, n + 1) == {
        let (j2, m2, p) = failing_round(j1, m1);
        (j2, m2)
    });
    assert(failing_progress(j, m, n + 1) == failing_round(j1, m1).2);
}

} // verus!
