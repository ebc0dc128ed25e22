//! The address cache: one entry per distinct normalized URL ever requested.
//! Entries are created in flight, move to ready exactly once, and are never
//! evicted for the life of a crawl run.
//!
//! Single flight is carried by a claim bit per entry: the one caller that
//! claims an in-flight entry performs the fetch; everyone else is told to
//! wait and re-checks when woken, so no two callers fetch the same key.

use vstd::prelude::*;

verus! {

/// State of one cache entry. An entry is created `InFlight` and moves to
/// `Ready` at most once; it never goes back.
#[derive(Debug, Clone, Copy, PartialEq, Eq, Structural)]
pub enum EntryState {
    InFlight,
    Ready,
}

/// One cache entry: the lookup key, its state, the resolved value (empty
/// while in flight), and whether some caller holds the fetch claim.
#[derive(Debug, Clone)]
pub struct Entry {
    pub key: String,
    pub state: EntryState,
    pub claimed: bool,
    pub value: String,
}

/// What a lookup of one entry decides.
#[derive(Debug, Clone, Copy, PartialEq, Eq, Structural)]
pub enum StepKind {
    Done,
    Fetch,
    Wait,
}

/// The lookup decision on one entry: a ready entry is a hit; an in-flight
/// entry whose claim is free is claimed for fetching; an entry someone else
/// is already fetching is waited on.
pub open spec fn claim_kind(e: Entry) -> StepKind {
    if e.state is Ready {
        StepKind::Done
    } else if e.claimed {
        StepKind::Wait
    } else {
        StepKind::Fetch
    }
}

/// The entry after a lookup: claimed when the decision was to fetch,
/// untouched otherwise.
pub open spec fn claim_post(e: Entry) -> Entry {
    if claim_kind(e) is Fetch {
        Entry { key: e.key, state: e.state, claimed: true, value: e.value }
    } else {
        e
    }
}

/// The entry with its claim given back.
pub open spec fn released(e: Entry) -> Entry {
    Entry { key: e.key, state: e.state, claimed: false, value: e.value }
}

/// The cache only ever moves entries toward `Ready`, never rewrites a ready
/// value, never changes a key, and never drops an entry.
pub open spec fn ready_preserved(pre: Seq<Entry>, post: Seq<Entry>) -> bool {
    &&& post.len() >= pre.len()
    &&& forall|i: int|
        0 <= i < pre.len() ==> (#[trigger] post[i]).key@ == pre[i].key@ && (pre[i].state is Ready
            ==> post[i].state is Ready && post[i].value@ == pre[i].value@)
}

/// Outcome of a lookup: a ready value, the claim to go fetch, or an order
/// to wait for the caller that holds the claim.
#[derive(Debug, Clone, PartialEq, Eq)]
pub enum ClaimOutcome {
    Hit(String),
    Claimed,
    Busy,
}

/// The cache itself. Slots are never removed, so a slot index stays a valid
/// handle to its entry for the life of the run.
#[derive(Debug)]
pub struct AddressCache {
    pub entries: Vec<Entry>,
}

impl View for AddressCache {
    type V = Seq<Entry>;

    open spec fn view(&self) -> Seq<Entry> {
        self.entries@
    }
}

impl AddressCache {
    /// `k` is the key recorded at slot `i`.
    pub open spec fn key_at(self, k: Seq<char>, i: int) -> bool {
        0 <= i < self@.len() && self@[i].key@ == k
    }

    /// An entry for key `k` exists.
    pub open spec fn has_key(self, k: Seq<char>) -> bool {
        exists|i: int| self.key_at(k, i)
    }

    /// The entry recorded for key `k`.
    pub open spec fn entry_for(self, k: Seq<char>) -> Entry
        recommends
            self.has_key(k),
    {
        self@[choose|i: int| self.key_at(k, i)]
    }

    /// Well-formed cache: all keys distinct, so a key names one entry.
    pub open spec fn wf(self) -> bool {
        forall|i: int, j: int|
            0 <= i < j < self@.len() ==> (#[trigger] self@[i]).key@ != (#[trigger] self@[j]).key@
    }

    /// Two slots recording the same key are the same slot.
    pub proof fn lemma_key_slot_unique(self, k: Seq<char>, i: int, j: int)
        requires
            self.wf(),
            self.key_at(k, i),
            self.key_at(k, j),
        ensures
            i == j,
    {
    }

    /// An empty cache.
    pub fn new() -> (c: AddressCache)
        ensures
            c@.len() == 0,
            c.wf(),
    {
        AddressCache { entries: Vec::new() }
    }

    /// How many addresses (entries) the cache holds.
    pub fn len(&self) -> (n: usize)
        ensures
            n == self@.len(),
    {
        self.entries.len()
    }

    /// The slot of `key`'s entry, inserting a fresh in-flight entry when the
    /// key was never requested before. Concurrent first-requesters must be
    /// serialized around this call so they observe the same slot.
    pub fn get_or_insert(&mut self, key: &String) -> (i: usize)
        requires
            old(self).wf(),
        ensures
            final(self).wf(),
            final(self).key_at(key@, i as int),
            ready_preserved(old(self)@, final(self)@),
            old(self).has_key(key@) ==> *final(self) == *old(self),
            !old(self).has_key(key@) ==> i == old(self)@.len()
                && final(self)@.len() == old(self)@.len() + 1
                && final(self)@.subrange(0, old(self)@.len() as int) == old(self)@
                && final(self)@[old(self)@.len() as int].key@ == key@
                && final(self)@[old(self)@.len() as int].state is InFlight
                && !final(self)@[old(self)@.len() as int].claimed
                && final(self)@[old(self)@.len() as int].value@ == Seq::<char>::empty(),
    {
        let n = self.entries.len();
        let mut i: usize = 0;
        while i < n
            invariant
                0 <= i <= n,
                n == self@.len(),
                self.wf(),
                forall|j: int| 0 <= j < i ==> (#[trigger] self@[j]).key@ != key@,
            decreases n - i,
        {
            if self.entries[i].key.eq(key) {
                proof {
                    assert(self.key_at(key@, i as int));
                }
                return i;
            }
            i = i + 1;
        }
        let fresh = Entry {
            key: key.clone(),
            state: EntryState::InFlight,
            claimed: false,
            value: String::new(),
        };
        self.entries.push(fresh);
        proof {
            assert(self.key_at(key@, n as int));
            assert(forall|j: int| 0 <= j < n ==> self@[j] == old(self)@[j]);
            assert(self@.subrange(0, n as int) =~= old(self)@);
            assert(self@[n as int].value@ =~= Seq::<char>::empty());
        }
        n
    }

    /// The double-checked lookup on one entry: hit on a ready value, claim
    /// a free in-flight entry, or wait behind the caller that holds the
    /// claim. A woken waiter calls this again on the same slot.
    pub fn try_claim(&mut self, i: usize) -> (r: ClaimOutcome)
        requires
            old(self).wf(),
            i < old(self)@.len(),
        ensures
            final(self).wf(),
            ready_preserved(old(self)@, final(self)@),
            final(self)@ == old(self)@.update(i as int, claim_post(old(self)@[i as int])),
            match r {
                ClaimOutcome::Hit(v) => claim_kind(old(self)@[i as int]) is Done && v@ == old(
                    self,
                )@[i as int].value@ && *final(self) == *old(self),
                ClaimOutcome::Claimed => claim_kind(old(self)@[i as int]) is Fetch,
                ClaimOutcome::Busy => claim_kind(old(self)@[i as int]) is Wait && *final(self)
                    == *old(self),
            },
    {
        proof {
            assert(old(self)@.update(i as int, old(self)@[i as int]) =~= old(self)@);
        }
        if self.entries[i].state == EntryState::Ready {
            ClaimOutcome::Hit(self.entries[i].value.clone())
        } else if self.entries[i].claimed {
            ClaimOutcome::Busy
        } else {
            let k = self.entries[i].key.clone();
            let v = self.entries[i].value.clone();
            self.entries.set(
                i,
                Entry { key: k, state: EntryState::InFlight, claimed: true, value: v },
            );
            proof {
                assert(self@[i as int].key == old(self)@[i as int].key);
                assert(self@ =~= old(self)@.update(i as int, claim_post(old(self)@[i as int])));
                assert forall|a: int, b: int|
                    0 <= a < b < self@.len() implies (#[trigger] self@[a]).key@ != (
                #[trigger] self@[b]).key@ by {
                    assert(old(self)@[a].key@ != old(self)@[b].key@);
                }
            }
            ClaimOutcome::Claimed
        }
    }

    /// Gives the claim on an in-flight entry back without resolving it, as
    /// when a fetch fails or a redirect moves the chain to another key. The
    /// entry stays in flight for a later caller to try again.
    pub fn release(&mut self, i: usize)
        requires
            old(self).wf(),
            i < old(self)@.len(),
            old(self)@[i as int].claimed,
            old(self)@[i as int].state is InFlight,
        ensures
            final(self).wf(),
            ready_preserved(old(self)@, final(self)@),
            final(self)@ == old(self)@.update(
                i as int,
                Entry {
                    key: old(self)@[i as int].key,
                    state: EntryState::InFlight,
                    claimed: false,
                    value: old(self)@[i as int].value,
                },
            ),
    {
        let k = self.entries[i].key.clone();
        let v = self.entries[i].value.clone();
        self.entries.set(i, Entry { key: k, state: EntryState::InFlight, claimed: false, value: v });
        proof {
            assert(final(self)@ =~= old(self)@.update(
                i as int,
                Entry {
                    key: old(self)@[i as int].key,
                    state: EntryState::InFlight,
                    claimed: false,
                    value: old(self)@[i as int].value,
                },
            ));
            assert forall|a: int, b: int|
                0 <= a < b < self@.len() implies (#[trigger] self@[a]).key@ != (
            #[trigger] self@[b]).key@ by {
                assert(old(self)@[a].key@ != old(self)@[b].key@);
            }
        }
    }

    /// Resolves the claimed entry `i`: writes the value and moves the entry
    /// to `Ready`, releasing the claim. This is the only transition into
    /// `Ready`, and `i` was claimed in flight, so no ready value is ever
    /// rewritten.
    pub fn finalize(&mut self, i: usize, value: &String)
        requires
            old(self).wf(),
            i < old(self)@.len(),
            old(self)@[i as int].claimed,
            old(self)@[i as int].state is InFlight,
        ensures
            final(self).wf(),
            ready_preserved(old(self)@, final(self)@),
            final(self)@ == old(self)@.update(
                i as int,
                Entry {
                    key: old(self)@[i as int].key,
                    state: EntryState::Ready,
                    claimed: false,
                    value: *value,
                },
            ),
    {
        let k = self.entries[i].key.clone();
        self.entries.set(
            i,
            Entry { key: k, state: EntryState::Ready, claimed: false, value: value.clone() },
        );
        proof {
            assert(final(self)@ =~= old(self)@.update(
                i as int,
                Entry {
                    key: old(self)@[i as int].key,
                    state: EntryState::Ready,
                    claimed: false,
                    value: *value,
                },
            ));
            assert forall|a: int, b: int|
                0 <= a < b < self@.len() implies (#[trigger] self@[a]).key@ != (
            #[trigger] self@[b]).key@ by {
                assert(old(self)@[a].key@ != old(self)@[b].key@);
            }
        }
    }

    /// Writes a resolved value through to the original key of a redirect
    /// chain, so later lookups by that key hit without a fetch. An entry
    /// that is already ready keeps its first value, and an entry some other
    /// caller is fetching is left to that caller; both make this a no-op.
    pub fn write_through(&mut self, i: usize, value: &String)
        requires
            old(self).wf(),
            i < old(self)@.len(),
        ensures
            final(self).wf(),
            ready_preserved(old(self)@, final(self)@),
            final(self)@ == if old(self)@[i as int].state is Ready || old(self)@[i as int].claimed {
                old(self)@
            } else {
                old(self)@.update(
                    i as int,
                    Entry {
                        key: old(self)@[i as int].key,
                        state: EntryState::Ready,
                        claimed: false,
                        value: *value,
                    },
                )
            },
            old(self)@[i as int].state is Ready ==> final(self)@ == old(self)@,
            (old(self)@[i as int].state is InFlight && !old(self)@[i as int].claimed)
                ==> final(self)@[i as int].state is Ready && final(self)@[i as int].value@
                == value@,
    {
        if self.entries[i].state == EntryState::Ready || self.entries[i].claimed {
            return ;
        }
        self.finalize_unclaimed(i, value);
    }

    /// Moves an unclaimed in-flight entry straight to `Ready`.
    fn finalize_unclaimed(&mut self, i: usize, value: &String)
        requires
            old(self).wf(),
            i < old(self)@.len(),
            !old(self)@[i as int].claimed,
            old(self)@[i as int].state is InFlight,
        ensures
            final(self).wf(),
            ready_preserved(old(self)@, final(self)@),
            final(self)@ == old(self)@.update(
                i as int,
                Entry {
                    key: old(self)@[i as int].key,
                    state: EntryState::Ready,
                    claimed: false,
                    value: *value,
                },
            ),
    {
        let k = self.entries[i].key.clone();
        self.entries.set(
            i,
            Entry { key: k, state: EntryState::Ready, claimed: false, value: value.clone() },
        );
        proof {
            assert(final(self)@ =~= old(self)@.update(
                i as int,
                Entry {
                    key: old(self)@[i as int].key,
                    state: EntryState::Ready,
                    claimed: false,
                    value: *value,
                },
            ));
            assert forall|a: int, b: int|
                0 <= a < b < self@.len() implies (#[trigger] self@[a]).key@ != (
            #[trigger] self@[b]).key@ by {
                assert(old(self)@[a].key@ != old(self)@[b].key@);
            }
        }
    }
}

/// Single-flight law: the lookup decision never lets two callers fetch one
/// entry. An entry someone is fetching only ever answers `Wait`, untouched;
/// a ready entry only ever answers `Done`, untouched; and the one lookup
/// that answers `Fetch` leaves the entry claimed, so every later lookup
/// answers `Wait` until the claim is resolved or released.
pub proof fn lemma_single_flight(e: Entry)
    ensures
        e.claimed && e.state is InFlight ==> claim_kind(e) is Wait && claim_post(e) == e,
        e.state is Ready ==> claim_kind(e) is Done && claim_post(e) == e,
        claim_kind(e) is Fetch ==> !e.claimed && e.state is InFlight && claim_post(e).claimed
            && claim_kind(claim_post(e)) is Wait,
{
}

/// Monotonic-state law: `ready_preserved` composes, so across any sequence
/// of cache operations an entry that is `Ready` stays `Ready` and keeps its
/// value. Every mutating operation above ensures `ready_preserved`.
pub proof fn lemma_ready_preserved_trans(a: Seq<Entry>, b: Seq<Entry>, c: Seq<Entry>)
    requires
        ready_preserved(a, b),
        ready_preserved(b, c),
    ensures
        ready_preserved(a, c),
{
}

} // verus!
