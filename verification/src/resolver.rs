//! The address resolver: a single-flight, redirect-aware cache over the
//! fetch client.
//!
//! The resolver decides; the surrounding program fetches. A resolve opens
//! with [`AddressResolver::start`], which normalizes the URL, finds or
//! creates the cache entry and takes the single-flight decision: answer a
//! ready value, claim the entry and fetch, or wait behind the caller that
//! holds the claim. The driver then reports what its fetch and extraction
//! produced — content through [`AddressResolver::on_content`], a redirect
//! through [`AddressResolver::on_redirect`], a terminal fetch error through
//! [`AddressResolver::on_fetch_error`] — and a woken waiter re-checks with
//! [`AddressResolver::awake`].

use vstd::prelude::*;

use crate::cache::AddressCache;
use crate::cache::ClaimOutcome;
use crate::cache::Entry;
use crate::cache::EntryState;
use crate::cache::claim_kind;
use crate::cache::claim_post;
use crate::cache::ready_preserved;
use crate::cache::released;
use crate::fetch::FetchError;
use crate::urls::abs_url_of;
use crate::urls::build_abs_url;
use crate::urls::contains_human_marker;
use crate::urls::contains_seq;
use crate::urls::human_marker;
use crate::urls::is_local_of;

verus! {

/// Failures a resolve call can end in.
#[derive(Debug, Clone, Copy, PartialEq, Eq, Structural)]
pub enum ResolveError {
    /// The URL did not parse, or parsed without a host.
    InvalidUrl,
    /// The fetch client gave up after its retry budget.
    FetchFailed,
    /// A redirect chain led to a human-verification page; never retried.
    CaptchaPresented,
    /// The page arrived but the expected structure was absent.
    ExtractionFailed,
}

/// What the resolver asks its driver to do next.
#[derive(Debug, Clone, PartialEq, Eq)]
pub enum ResolveStep {
    /// The address is resolved; nothing is left to do.
    Done(String),
    /// Fetch the job's current URL; the job holds the entry's claim.
    Fetch,
    /// Fetch the job's current URL once more, after the fixed delay; the
    /// claim is kept while the extraction budget lasts.
    FetchRetry,
    /// Another caller is fetching this key: wait for it, then call `awake`.
    Wait,
    /// The resolve failed; the claim has been given back.
    Fail(ResolveError),
}

/// Fetch-plus-extract attempts allowed on one third-party page before the
/// absent structure is surfaced as a failure.
pub const EXTRACT_ATTEMPTS: u64 = 3;

/// One resolve in progress: the slots of the original and the current key,
/// the current URL, whether the original URL was site-relative (which picks
/// the extraction strategy), and how many extraction attempts the current
/// page has had.
#[derive(Debug, Clone)]
pub struct ResolveJob {
    pub orig: usize,
    pub cur: usize,
    pub url: String,
    pub is_local: bool,
    pub extract_attempts: u64,
}

/// Cache contents after a successful extraction of `v` on the current entry
/// of a chain that started at `orig`: the current entry resolves, and the
/// value is written through to the original key — unless that entry has
/// meanwhile resolved (its first value stays) or is claimed by another
/// caller (whose own resolve is left alone).
pub open spec fn content_post(c: Seq<Entry>, orig: int, cur: int, v: String) -> Seq<Entry> {
    let c1 = c.update(
        cur,
        Entry { key: c[cur].key, state: EntryState::Ready, claimed: false, value: v },
    );
    if orig == cur {
        c1
    } else if c1[orig].state is Ready || c1[orig].claimed {
        c1
    } else {
        c1.update(
            orig,
            Entry { key: c1[orig].key, state: EntryState::Ready, claimed: false, value: v },
        )
    }
}

/// The resolver: the address cache and the decisions over it.
#[derive(Debug)]
pub struct AddressResolver {
    pub cache: AddressCache,
}

impl AddressResolver {
    pub open spec fn wf(self) -> bool {
        self.cache.wf()
    }

    /// The job holds the claim on its current in-flight entry.
    pub open spec fn job_ok(self, job: ResolveJob) -> bool {
        &&& job.orig < self.cache@.len()
        &&& job.cur < self.cache@.len()
        &&& self.cache@[job.cur as int].claimed
        &&& self.cache@[job.cur as int].state is InFlight
        &&& job.extract_attempts < EXTRACT_ATTEMPTS
    }

    /// A waiting job: its slots are valid, no claim is held.
    pub open spec fn job_waiting(self, job: ResolveJob) -> bool {
        job.orig < self.cache@.len() && job.cur < self.cache@.len()
    }

    /// A fresh resolver with an empty cache.
    pub fn new() -> (r: AddressResolver)
        ensures
            r.wf(),
            r.cache@.len() == 0,
    {
        AddressResolver { cache: AddressCache::new() }
    }

    /// How many addresses (ready or in flight) the cache holds.
    pub fn total_addresses(&self) -> (n: usize)
        ensures
            n == self.cache@.len(),
    {
        self.cache.len()
    }

    /// Opens a resolve: normalizes the URL against the base, finds or
    /// creates the cache entry, and takes the single-flight decision on it.
    pub fn start(&mut self, base_url: &str, raw_url: &str) -> (r: (ResolveJob, ResolveStep))
        requires
            old(self).wf(),
        ensures
            final(self).wf(),
            ready_preserved(old(self).cache@, final(self).cache@),
            r.0.url@ == abs_url_of(base_url@, raw_url@),
            r.0.is_local == is_local_of(raw_url@),
            r.0.orig == r.0.cur,
            r.0.extract_attempts == 0,
            final(self).cache.key_at(abs_url_of(base_url@, raw_url@), r.0.cur as int),
            r.1 is Done || r.1 is Fetch || r.1 is Wait,
            r.1 is Fetch ==> final(self).job_ok(r.0),
            r.1 is Wait ==> final(self).job_waiting(r.0),
            r.1 is Done || r.1 is Wait ==> *final(self) == *old(self),
            old(self).cache.has_key(abs_url_of(base_url@, raw_url@)) ==> ({
                let e = old(self).cache.entry_for(abs_url_of(base_url@, raw_url@));
                &&& (r.1 is Done <==> claim_kind(e) is Done)
                &&& (r.1 is Fetch <==> claim_kind(e) is Fetch)
                &&& (r.1 is Wait <==> claim_kind(e) is Wait)
                &&& (r.1 matches ResolveStep::Done(v) ==> v@ == e.value@)
                &&& final(self).cache@ == old(self).cache@.update(r.0.cur as int, claim_post(e))
            }),
            !old(self).cache.has_key(abs_url_of(base_url@, raw_url@)) ==> r.1 is Fetch
                && r.0.cur == old(self).cache@.len() && final(self).cache@.len() == old(self).cache@.len() + 1 && final(self).cache@.subrange(0, old(self).cache@.len() as int)
                == old(self).cache@,
    {
        let ghost pre = *self;
        let (url, is_local) = build_abs_url(base_url, raw_url);
        let i = self.cache.get_or_insert(&url);
        let ghost mid = *self;
        let c = self.cache.try_claim(i);
        let job = ResolveJob { orig: i, cur: i, url, is_local, extract_attempts: 0 };
        proof {
            let k = abs_url_of(base_url@, raw_url@);
            if pre.cache.has_key(k) {
                let t = choose|t: int| pre.cache.key_at(k, t);
                pre.cache.lemma_key_slot_unique(k, t, i as int);
                assert(mid.cache@[i as int] == pre.cache.entry_for(k));
            } else {
                assert(claim_kind(mid.cache@[i as int]) is Fetch);
            }
        }
        match c {
            ClaimOutcome::Hit(v) => (job, ResolveStep::Done(v)),
            ClaimOutcome::Claimed => (job, ResolveStep::Fetch),
            ClaimOutcome::Busy => (job, ResolveStep::Wait),
        }
    }

    /// The double check: a woken waiter looks at its entry again and either
    /// takes the ready value, claims the entry (the earlier claimant failed
    /// or moved on without resolving it), or waits again.
    pub fn awake(&mut self, job: &ResolveJob) -> (r: ResolveStep)
        requires
            old(self).wf(),
            old(self).job_waiting(*job),
            job.extract_attempts < EXTRACT_ATTEMPTS,
        ensures
            final(self).wf(),
            ready_preserved(old(self).cache@, final(self).cache@),
            r is Done || r is Fetch || r is Wait,
            final(self).cache@ == old(self).cache@.update(
                job.cur as int,
                claim_post(old(self).cache@[job.cur as int]),
            ),
            ({
                let e = old(self).cache@[job.cur as int];
                &&& (r is Done <==> claim_kind(e) is Done)
                &&& (r is Fetch <==> claim_kind(e) is Fetch)
                &&& (r is Wait <==> claim_kind(e) is Wait)
                &&& (r matches ResolveStep::Done(v) ==> v@ == e.value@)
            }),
            r is Fetch ==> final(self).job_ok(*job),
            r is Done || r is Wait ==> *final(self) == *old(self),
    {
        let c = self.cache.try_claim(job.cur);
        match c {
            ClaimOutcome::Hit(v) => ResolveStep::Done(v),
            ClaimOutcome::Claimed => ResolveStep::Fetch,
            ClaimOutcome::Busy => ResolveStep::Wait,
        }
    }

    /// Takes the extraction result over fetched page content. A found
    /// address resolves the current entry and, when a redirect chain moved
    /// the resolve away from its original key, is written through to that
    /// key as well. A missing address is retried — fetch and extract again,
    /// after the fixed delay — while the extraction budget of a third-party
    /// page lasts; on a site-relative page it is surfaced at once, since
    /// that page is expected to be well-formed. On failure the entry is
    /// released in flight, not poisoned, so a later caller may try again.
    pub fn on_content(&mut self, job: &mut ResolveJob, extracted: Option<String>) -> (r:
        ResolveStep)
        requires
            old(self).wf(),
            old(self).job_ok(*old(job)),
        ensures
            final(self).wf(),
            ready_preserved(old(self).cache@, final(self).cache@),
            final(job).orig == old(job).orig,
            final(job).cur == old(job).cur,
            final(job).url == old(job).url,
            final(job).is_local == old(job).is_local,
            match extracted {
                Some(v) => r == ResolveStep::Done(v) && final(self).cache@ == content_post(
                    old(self).cache@,
                    old(job).orig as int,
                    old(job).cur as int,
                    v,
                ) && *final(job) == *old(job),
                None => ({
                    if old(job).is_local {
                        r == ResolveStep::Fail(ResolveError::ExtractionFailed) && final(self).cache@ == old(self).cache@.update(
                            old(job).cur as int,
                            released(old(self).cache@[old(job).cur as int]),
                        ) && *final(job) == *old(job)
                    } else if old(job).extract_attempts + 1 < EXTRACT_ATTEMPTS {
                        r == ResolveStep::FetchRetry && *final(self) == *old(self) && final(job).extract_attempts == old(job).extract_attempts + 1 && final(self).job_ok(
                            *final(job),
                        )
                    } else {
                        r == ResolveStep::Fail(ResolveError::ExtractionFailed) && final(self).cache@ == old(self).cache@.update(
                            old(job).cur as int,
                            released(old(self).cache@[old(job).cur as int]),
                        ) && *final(job) == *old(job)
                    }
                }),
            },
    {
        match extracted {
            Some(v) => {
                self.cache.finalize(job.cur, &v);
                if job.cur != job.orig {
                    self.cache.write_through(job.orig, &v);
                }
                ResolveStep::Done(v)
            },
            None => {
                if job.is_local {
                    self.cache.release(job.cur);
                    ResolveStep::Fail(ResolveError::ExtractionFailed)
                } else if job.extract_attempts + 1 < EXTRACT_ATTEMPTS {
                    job.extract_attempts = job.extract_attempts + 1;
                    ResolveStep::FetchRetry
                } else {
                    self.cache.release(job.cur);
                    ResolveStep::Fail(ResolveError::ExtractionFailed)
                }
            },
        }
    }

    /// Takes a redirect outcome. A target that carries the
    /// human-verification marker ends the resolve at once: the claim is
    /// given back, no entry is created for the target, and nothing further
    /// is fetched for this chain. Any other target becomes the new current
    /// key, looked up under the same single-flight decision as `start`.
    /// The chain has no explicit length cap: each hop is bounded by the
    /// fetch client's retry budget, and a driver may bound hops if a site
    /// misbehaves.
    pub fn on_redirect(&mut self, job: &mut ResolveJob, target: &String) -> (r: ResolveStep)
        requires
            old(self).wf(),
            old(self).job_ok(*old(job)),
        ensures
            final(self).wf(),
            ready_preserved(old(self).cache@, final(self).cache@),
            final(job).orig == old(job).orig,
            final(job).is_local == old(job).is_local,
            contains_seq(target@, human_marker()) ==> r == ResolveStep::Fail(
                ResolveError::CaptchaPresented,
            ) && final(self).cache@ == old(self).cache@.update(
                old(job).cur as int,
                released(old(self).cache@[old(job).cur as int]),
            ) && *final(job) == *old(job),
            !contains_seq(target@, human_marker()) ==> ({
                let c1 = old(self).cache@.update(
                    old(job).cur as int,
                    released(old(self).cache@[old(job).cur as int]),
                );
                &&& final(job).url@ == target@
                &&& final(job).cur < final(self).cache@.len()
                &&& final(job).extract_attempts == 0
                &&& final(self).cache@[final(job).cur as int].key@ == target@
                &&& (r is Done || r is Fetch || r is Wait)
                &&& (r is Fetch ==> final(self).job_ok(*final(job)))
                &&& (r is Done || r is Wait ==> final(self).cache@ == c1)
                &&& (r matches ResolveStep::Done(v) ==> ((final(job).cur as int) < c1.len()
                    && claim_kind(c1[final(job).cur as int]) is Done && v@ == c1[final(job).cur as int].value@))
                &&& (r is Wait ==> (final(job).cur as int) < c1.len() && claim_kind(
                    c1[final(job).cur as int],
                ) is Wait)
                &&& (final(self).cache@.len() == c1.len() || final(self).cache@.len() == c1.len()
                    + 1)
                &&& forall|x: int|
                    0 <= x < c1.len() && x != final(job).cur as int ==> final(self).cache@[x]
                        == c1[x]
            }),
    {
        if contains_human_marker(target.as_str()) {
            self.cache.release(job.cur);
            return ResolveStep::Fail(ResolveError::CaptchaPresented);
        }
        self.cache.release(job.cur);
        let ghost c1state = *self;
        let i = self.cache.get_or_insert(target);
        let ghost mid = *self;
        let c = self.cache.try_claim(i);
        job.cur = i;
        job.url = target.clone();
        job.extract_attempts = 0;
        proof {
            if c1state.cache.has_key(target@) {
                let t = choose|t: int| c1state.cache.key_at(target@, t);
                c1state.cache.lemma_key_slot_unique(target@, t, i as int);
                assert(mid.cache@[i as int] == c1state.cache@[i as int]);
            }
        }
        match c {
            ClaimOutcome::Hit(v) => ResolveStep::Done(v),
            ClaimOutcome::Claimed => ResolveStep::Fetch,
            ClaimOutcome::Busy => ResolveStep::Wait,
        }
    }

    /// A fetch that ended in a terminal error: the claim is given back —
    /// the entry stays in flight, not poisoned — and the error surfaces as
    /// the matching resolve failure.
    pub fn on_fetch_error(&mut self, job: &ResolveJob, err: FetchError) -> (r: ResolveStep)
        requires
            old(self).wf(),
            old(self).job_ok(*job),
        ensures
            final(self).wf(),
            ready_preserved(old(self).cache@, final(self).cache@),
            final(self).cache@ == old(self).cache@.update(
                job.cur as int,
                released(old(self).cache@[job.cur as int]),
            ),
            r == ResolveStep::Fail(
                if err is InvalidUrl {
                    ResolveError::InvalidUrl
                } else {
                    ResolveError::FetchFailed
                },
            ),
    {
        self.cache.release(job.cur);
        match err {
            FetchError::InvalidUrl => ResolveStep::Fail(ResolveError::InvalidUrl),
            FetchError::FetchFailed => ResolveStep::Fail(ResolveError::FetchFailed),
        }
    }
}

/// Redirect write-through law: when the chain from key A's entry was
/// redirected to key B's entry and B's page resolves to `v`, both entries
/// come out ready with `v`, and a later lookup of either answers the value
/// without any fetch.
pub proof fn lemma_redirect_write_through(c: Seq<Entry>, orig: int, cur: int, v: String)
    requires
        0 <= orig < c.len(),
        0 <= cur < c.len(),
        orig != cur,
        c[cur].claimed && c[cur].state is InFlight,
        !c[orig].claimed && c[orig].state is InFlight,
    ensures
        ({
            let c2 = content_post(c, orig, cur, v);
            &&& c2.len() == c.len()
            &&& c2[cur].state is Ready && c2[cur].value == v
            &&& c2[orig].state is Ready && c2[orig].value == v
            &&& claim_kind(c2[cur]) is Done && claim_kind(c2[orig]) is Done
        }),
{
}

} // verus!
