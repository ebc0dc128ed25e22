//! Admission control: counting permits that bound concurrent outbound
//! requests. One global pool bounds the total; one lazily created pool per
//! host bounds each upstream host. The global permit is always taken before
//! the host permit and given back when the host pool refuses, so the order
//! of acquisition is uniform everywhere and a single slow host cannot starve
//! the global capacity.

use vstd::prelude::*;

verus! {

/// A counting permit pool: `in_use` of `cap` permits are currently held.
#[derive(Debug, Clone, Copy, PartialEq, Eq, Structural)]
pub struct PermitCounter {
    pub cap: u64,
    pub in_use: u64,
}

impl PermitCounter {
    /// A pool never hands out more permits than its capacity.
    pub open spec fn wf(self) -> bool {
        self.in_use <= self.cap
    }

    /// A fresh pool with every permit free.
    pub fn new(cap: u64) -> (c: PermitCounter)
        ensures
            c == (PermitCounter { cap, in_use: 0 }),
    {
        PermitCounter { cap, in_use: 0 }
    }

    /// Takes a permit when one is free; refuses when the pool is exhausted,
    /// in which case the caller has to wait and nothing changes.
    pub fn try_acquire(&mut self) -> (r: bool)
        requires
            old(self).wf(),
        ensures
            final(self).wf(),
            final(self).cap == old(self).cap,
            r == (old(self).in_use < old(self).cap),
            final(self).in_use == if r {
                old(self).in_use + 1
            } else {
                old(self).in_use as int
            },
    {
        if self.in_use < self.cap {
            self.in_use = self.in_use + 1;
            true
        } else {
            false
        }
    }

    /// Gives a held permit back.
    pub fn release(&mut self)
        requires
            old(self).in_use > 0,
        ensures
            final(self).cap == old(self).cap,
            final(self).in_use == old(self).in_use - 1,
    {
        self.in_use = self.in_use - 1;
    }
}

/// The admission state of the fetch client: the global pool and the per-host
/// pools, created lazily on a host's first request and never removed.
#[derive(Debug)]
pub struct AdmissionControl {
    pub global: PermitCounter,
    pub per_host_cap: u64,
    pub host_names: Vec<String>,
    pub pools: Vec<PermitCounter>,
}

impl AdmissionControl {
    /// `h` is the host recorded at slot `i`.
    pub open spec fn host_at(self, h: Seq<char>, i: int) -> bool {
        0 <= i < self.host_names@.len() && self.host_names@[i]@ == h
    }

    /// A pool for host `h` exists.
    pub open spec fn has_host(self, h: Seq<char>) -> bool {
        exists|i: int| self.host_at(h, i)
    }

    /// Permits held for host `h`; a pool not yet created holds none.
    pub open spec fn pool_use(self, h: Seq<char>) -> int {
        if self.has_host(h) {
            self.pools@[choose|i: int| self.host_at(h, i)].in_use as int
        } else {
            0
        }
    }

    /// Well-formed admission state: one pool per recorded host, hosts
    /// distinct, every pool within its bound, every per-host bound uniform.
    pub open spec fn wf(self) -> bool {
        &&& self.global.wf()
        &&& self.pools@.len() == self.host_names@.len()
        &&& forall|i: int|
            0 <= i < self.pools@.len() ==> (#[trigger] self.pools@[i]).wf()
                && self.pools@[i].cap == self.per_host_cap
        &&& forall|i: int, j: int|
            0 <= i < j < self.host_names@.len() ==> (#[trigger] self.host_names@[i])@ != (
            #[trigger] self.host_names@[j])@
    }

    /// Two slots recording the same host are the same slot.
    proof fn lemma_host_slot_unique(self, h: Seq<char>, i: int, j: int)
        requires
            self.wf(),
            self.host_at(h, i),
            self.host_at(h, j),
        ensures
            i == j,
    {
    }

    /// Relates the pool tallies of two states that differ at most in `host`'s
    /// slot `i` and in a pool appended for `host` itself.
    proof fn lemma_pool_frame(pre: Self, post: Self, host: Seq<char>, i: int)
        requires
            pre.wf(),
            post.wf(),
            post.host_names@ == pre.host_names@ || (post.host_names@.len() == pre.host_names@.len()
                + 1 && post.host_names@.subrange(0, pre.host_names@.len() as int)
                == pre.host_names@ && post.host_names@[pre.host_names@.len() as int]@ == host),
            post.host_at(host, i),
            forall|j: int|
                0 <= j < pre.pools@.len() && j != i ==> post.pools@[j] == #[trigger] pre.pools@[j],
        ensures
            post.pool_use(host) == post.pools@[i].in_use,
            pre.has_host(host) ==> pre.host_at(host, i) && pre.pool_use(host)
                == pre.pools@[i].in_use,
            !pre.has_host(host) ==> i == pre.host_names@.len(),
            forall|h2: Seq<char>|
                h2 != host ==> #[trigger] post.pool_use(h2) == pre.pool_use(h2),
    {
        let prelen = pre.host_names@.len() as int;
        assert forall|j: int| 0 <= j < prelen implies post.host_names@[j]
            == pre.host_names@[j] by {
            if post.host_names@ != pre.host_names@ {
                assert(post.host_names@.subrange(0, prelen)[j] == post.host_names@[j]);
            }
        }
        let k = choose|k: int| post.host_at(host, k);
        post.lemma_host_slot_unique(host, k, i);
        if pre.has_host(host) {
            let kp = choose|k: int| pre.host_at(host, k);
            assert(post.host_at(host, kp));
            post.lemma_host_slot_unique(host, kp, i);
            assert(pre.host_at(host, i));
            let kq = choose|k: int| pre.host_at(host, k);
            pre.lemma_host_slot_unique(host, kq, i);
        } else {
            if 0 <= i < prelen {
                assert(pre.host_at(host, i));
            }
        }
        assert forall|h2: Seq<char>| h2 != host implies #[trigger] post.pool_use(h2)
            == pre.pool_use(h2) by {
            if pre.has_host(h2) {
                let k2 = choose|k: int| pre.host_at(h2, k);
                assert(post.host_at(h2, k2));
                let k3 = choose|k: int| post.host_at(h2, k);
                post.lemma_host_slot_unique(h2, k3, k2);
                post.lemma_host_slot_unique(host, i, i);
                if k2 == i {
                    assert(post.host_names@[i]@ == h2);
                } else {
                    assert(post.pools@[k2] == pre.pools@[k2]);
                }
            } else {
                if post.has_host(h2) {
                    let k2 = choose|k: int| post.host_at(h2, k);
                    if 0 <= k2 < prelen {
                        assert(pre.host_at(h2, k2));
                    } else {
                        assert(post.host_names@[k2]@ == host);
                    }
                }
            }
        }
    }

    /// Fresh admission state with the two configured bounds and no pools.
    pub fn new(global_cap: u64, per_host_cap: u64) -> (a: AdmissionControl)
        ensures
            a.wf(),
            a.global == (PermitCounter { cap: global_cap, in_use: 0 }),
            a.per_host_cap == per_host_cap,
            a.host_names@.len() == 0,
    {
        AdmissionControl {
            global: PermitCounter::new(global_cap),
            per_host_cap,
            host_names: Vec::new(),
            pools: Vec::new(),
        }
    }

    /// Slot of `host`'s pool, creating an empty pool on the host's first
    /// request.
    fn find_or_create(&mut self, host: &String) -> (i: usize)
        requires
            old(self).wf(),
        ensures
            final(self).wf(),
            final(self).host_at(host@, i as int),
            final(self).global == old(self).global,
            final(self).per_host_cap == old(self).per_host_cap,
            old(self).has_host(host@) ==> *final(self) == *old(self),
            !old(self).has_host(host@) ==> i == old(self).host_names@.len()
                && final(self).host_names@ == old(self).host_names@.push(*host)
                && final(self).pools@ == old(self).pools@.push(
                PermitCounter { cap: old(self).per_host_cap, in_use: 0 },
            ),
    {
        let n = self.host_names.len();
        let mut i: usize = 0;
        while i < n
            invariant
                0 <= i <= n,
                n == self.host_names@.len(),
                self.wf(),
                forall|j: int| 0 <= j < i ==> self.host_names@[j]@ != host@,
            decreases n - i,
        {
            if self.host_names[i].eq(host) {
                proof {
                    assert(self.host_at(host@, i as int));
                }
                return i;
            }
            i = i + 1;
        }
        self.host_names.push(host.clone());
        self.pools.push(PermitCounter::new(self.per_host_cap));
        proof {
            assert(self.host_at(host@, n as int));
            assert(forall|j: int|
                0 <= j < n ==> self.host_names@[j] == old(self).host_names@[j]);
        }
        n
    }

    /// Tries to admit one request to `host`: global permit first, then the
    /// host permit; if the host pool is exhausted the global permit is given
    /// back at once. Admission succeeds exactly when both pools have room.
    pub fn try_enter(&mut self, host: &String) -> (r: bool)
        requires
            old(self).wf(),
        ensures
            final(self).wf(),
            final(self).global.cap == old(self).global.cap,
            final(self).per_host_cap == old(self).per_host_cap,
            r == (old(self).global.in_use < old(self).global.cap && old(self).pool_use(host@)
                < old(self).per_host_cap),
            final(self).global.in_use == old(self).global.in_use + if r {
                1int
            } else {
                0int
            },
            final(self).pool_use(host@) == old(self).pool_use(host@) + if r {
                1int
            } else {
                0int
            },
            forall|h2: Seq<char>|
                h2 != host@ ==> #[trigger] final(self).pool_use(h2) == old(self).pool_use(h2),
    {
        let ghost pre = *self;
        if !self.global.try_acquire() {
            return false;
        }
        let ghost s1 = *self;
        proof {
            assert(s1.has_host(host@) == pre.has_host(host@)) by {
                if pre.has_host(host@) {
                    let k = choose|k: int| pre.host_at(host@, k);
                    assert(s1.host_at(host@, k));
                }
                if s1.has_host(host@) {
                    let k = choose|k: int| s1.host_at(host@, k);
                    assert(pre.host_at(host@, k));
                }
            }
        }
        let i = self.find_or_create(host);
        let ghost mid = *self;
        proof {
            if !pre.has_host(host@) {
                assert(mid.host_names@.subrange(0, pre.host_names@.len() as int)
                    =~= pre.host_names@);
            }
            Self::lemma_pool_frame(pre, mid, host@, i as int);
        }
        let mut pool = self.pools[i];
        let ok = pool.try_acquire();
        if ok {
            self.pools.set(i, pool);
            proof {
                assert(self.host_at(host@, i as int));
                assert forall|j: int|
                    0 <= j < self.pools@.len() implies (#[trigger] self.pools@[j]).wf()
                    && self.pools@[j].cap == self.per_host_cap by {
                    if j != i as int {
                        assert(self.pools@[j] == mid.pools@[j]);
                    }
                }
                if !pre.has_host(host@) {
                    assert(self.host_names@.subrange(0, pre.host_names@.len() as int)
                        =~= pre.host_names@);
                }
                Self::lemma_pool_frame(pre, *self, host@, i as int);
            }
            true
        } else {
            self.global.release();
            proof {
                assert(self.host_at(host@, i as int));
                if !pre.has_host(host@) {
                    assert(self.host_names@.subrange(0, pre.host_names@.len() as int)
                        =~= pre.host_names@);
                }
                Self::lemma_pool_frame(pre, *self, host@, i as int);
            }
            false
        }
    }

    /// Lets one admitted request to `host` out again: host permit back
    /// first, then the global permit.
    pub fn exit(&mut self, host: &String)
        requires
            old(self).wf(),
            old(self).pool_use(host@) > 0,
            old(self).global.in_use > 0,
        ensures
            final(self).wf(),
            final(self).global.cap == old(self).global.cap,
            final(self).per_host_cap == old(self).per_host_cap,
            final(self).global.in_use == old(self).global.in_use - 1,
            final(self).pool_use(host@) == old(self).pool_use(host@) - 1,
            forall|h2: Seq<char>|
                h2 != host@ ==> #[trigger] final(self).pool_use(h2) == old(self).pool_use(h2),
    {
        let ghost pre = *self;
        let i = self.find_or_create(host);
        proof {
            Self::lemma_pool_frame(pre, *self, host@, i as int);
        }
        let mut pool = self.pools[i];
        pool.release();
        self.pools.set(i, pool);
        self.global.release();
        proof {
            assert(self.host_at(host@, i as int));
            assert forall|j: int|
                0 <= j < self.pools@.len() implies (#[trigger] self.pools@[j]).wf()
                && self.pools@[j].cap == self.per_host_cap by {
                if j != i as int {
                    assert(self.pools@[j] == pre.pools@[j]);
                }
            }
            Self::lemma_pool_frame(pre, *self, host@, i as int);
        }
    }
}

/// Admission bound law: in any well-formed admission state, no host ever
/// holds more than the per-host bound of permits, and the process as a whole
/// never holds more than the global bound. Every operation above preserves
/// well-formedness, so the bound holds throughout a run.
pub proof fn lemma_admission_bound(a: AdmissionControl)
    requires
        a.wf(),
    ensures
        a.global.in_use <= a.global.cap,
        forall|h: Seq<char>| #[trigger] a.pool_use(h) <= a.per_host_cap,
{
    assert forall|h: Seq<char>| #[trigger] a.pool_use(h) <= a.per_host_cap by {
        if a.has_host(h) {
            let i = choose|i: int| a.host_at(h, i);
            assert(a.pools@[i].wf());
        }
    }
}

} // verus!
