//! An allocation-accounting ledger for the native boundary.
//!
//! Every allocation the native side hands across the boundary — a device
//! handle, an enumerated node string, the array holding such strings — is
//! registered here under its address when ownership arrives and released
//! exactly once when it is given back. The ledger's contracts are what the
//! lifecycle proofs rest on: a balanced create/destroy pair, or a fully
//! drained enumeration, leaves the set of live allocations exactly as it
//! was.

use vstd::prelude::*;

verus! {

/// The set of native allocations currently owned across the boundary,
/// each identified by its (nonzero, therefore unique-while-live) address.
pub struct NativeArena {
    entries: Vec<usize>,
}

impl NativeArena {
    /// Well-formedness: addresses are listed at most once each and are
    /// never the null sentinel. `new` establishes it and every operation
    /// preserves it.
    pub closed spec fn inv(self) -> bool {
        &&& self.entries@.no_duplicates()
        &&& forall|i: int| 0 <= i < self.entries@.len() ==> self.entries@[i] != 0usize
    }

    /// The addresses of the live allocations.
    pub closed spec fn live_set(self) -> Set<usize> {
        self.entries@.to_set()
    }

    /// A ledger with nothing outstanding.
    pub fn new() -> (a: NativeArena)
        ensures
            a.inv(),
            a.live_set() == Set::<usize>::empty(),
    {
        let a = NativeArena { entries: Vec::new() };
        proof {
            assert(a.live_set() =~= Set::<usize>::empty());
        }
        a
    }

    /// Whether `addr` is currently registered as live.
    pub fn contains(&self, addr: usize) -> (b: bool)
        ensures
            b == self.live_set().contains(addr),
    {
        let mut i: usize = 0;
        while i < self.entries.len()
            invariant
                i <= self.entries@.len(),
                forall|j: int| 0 <= j < i ==> self.entries@[j] != addr,
            decreases self.entries@.len() - i,
        {
            if self.entries[i] == addr {
                return true;
            }
            i += 1;
        }
        assert(!self.entries@.contains(addr));
        false
    }

    /// How many native allocations are currently live.
    pub fn live_count(&self) -> (n: usize)
        requires
            self.inv(),
        ensures
            n == self.live_set().len(),
    {
        proof {
            self.entries@.unique_seq_to_set();
        }
        self.entries.len()
    }

    /// Records that ownership of the allocation at `addr` has arrived from
    /// the native side.
    pub fn register(&mut self, addr: usize)
        requires
            old(self).inv(),
            addr != 0,
            !old(self).live_set().contains(addr),
        ensures
            final(self).inv(),
            final(self).live_set() == old(self).live_set().insert(addr),
    {
        let ghost before = self.entries@;
        self.entries.push(addr);
        proof {
            assert(!before.contains(addr));
            assert forall|x: usize| self.entries@.contains(x) implies before.contains(x) || x
                == addr by {
                let j = choose|j: int|
                    0 <= j < self.entries@.len() && self.entries@[j] == x;
                if j < before.len() {
                    assert(before[j] == x);
                }
            }
            assert forall|x: usize| before.contains(x) implies self.entries@.contains(x) by {
                let j = choose|j: int| 0 <= j < before.len() && before[j] == x;
                assert(self.entries@[j] == x);
            }
            assert(self.entries@.contains(addr)) by {
                assert(self.entries@[before.len() as int] == addr);
            }
            assert(self.live_set() =~= old(self).live_set().insert(addr));
        }
    }

    /// Records that the allocation at `addr` has been given back to the
    /// native side. A released address is gone from the ledger, so no run
    /// of this crate's functions can release the same allocation twice.
    pub fn release(&mut self, addr: usize)
        requires
            old(self).inv(),
            old(self).live_set().contains(addr),
        ensures
            final(self).inv(),
            final(self).live_set() == old(self).live_set().remove(addr),
    {
        let ghost before = self.entries@;
        let mut i: usize = 0;
        assert(before.contains(addr));
        while i < self.entries.len()
            invariant
                self.entries@ == before,
                before == old(self).entries@,
                before.no_duplicates(),
                forall|k: int| 0 <= k < before.len() ==> before[k] != 0usize,
                i <= before.len(),
                forall|j: int| 0 <= j < i ==> before[j] != addr,
                before.contains(addr),
            decreases before.len() - i,
        {
            if self.entries[i] == addr {
                self.entries.remove(i);
                proof {
                    before.remove_ensures(i as int);
                    assert forall|x: usize| self.entries@.contains(x) implies before.contains(x)
                        && x != addr by {
                        let j = choose|j: int|
                            0 <= j < self.entries@.len() && self.entries@[j] == x;
                        if j < i {
                            assert(before[j] == x);
                        } else {
                            assert(before[j + 1] == x);
                        }
                        assert(before.no_duplicates());
                        if x == addr {
                            if j < i {
                                assert(before[j] == addr && before[i as int] == addr);
                            } else {
                                assert(before[j + 1] == addr && before[i as int] == addr);
                            }
                        }
                    }
                    assert forall|x: usize| before.contains(x) && x != addr implies self
                        .entries@.contains(x) by {
                        let j = choose|j: int| 0 <= j < before.len() && before[j] == x;
                        if j < i {
                            assert(self.entries@[j] == x);
                        } else {
                            assert(j != i);
                            assert(self.entries@[j - 1] == x);
                        }
                    }
                    assert forall|i1: int, j1: int|
                        0 <= i1 < j1 < self.entries@.len() implies self.entries@[i1] != self
                        .entries@[j1] by {
                        let a1: int = if i1 < i { i1 } else { i1 + 1 };
                        let b1: int = if j1 < i { j1 } else { j1 + 1 };
                        assert(self.entries@[i1] == before[a1]);
                        assert(self.entries@[j1] == before[b1]);
                    }
                    assert(self.entries@.no_duplicates());
                    assert forall|k: int| 0 <= k < self.entries@.len() implies self.entries@[k]
                        != 0usize by {
                        if k < i {
                            assert(self.entries@[k] == before[k]);
                        } else {
                            assert(self.entries@[k] == before[k + 1]);
                        }
                    }
                    assert(self.live_set() =~= old(self).live_set().remove(addr));
                }
                return;
            }
            i += 1;
        }
        proof {
            // The scan found no match, yet the precondition says one is
            // listed: this point is unreachable.
            assert(!before.contains(addr));
        }
    }
}

/// Law: a creation call that registered a fresh native handle, followed by
/// the destruction that released it, leaves the set of live native
/// allocations exactly as it was — the pair leaks nothing. The two sides of
/// the equation are the arena effects `InputtinoMouse::new` (and its three
/// siblings) and `destroy` state in their contracts.
pub proof fn lemma_create_then_destroy_is_leak_free(live: Set<usize>, addr: usize)
    requires
        !live.contains(addr),
    ensures
        live.insert(addr).remove(addr) == live,
{
    assert(live.insert(addr).remove(addr) =~= live);
}

/// Law: an enumeration that first takes ownership of a batch of fresh
/// native allocations and then releases every one of them returns the live
/// set to its start — a fully drained enumeration leaks nothing. The two
/// sides are the arena effects that `register_fetch` and `get_nodes` state
/// in their contracts.
pub proof fn lemma_enumeration_is_leak_free(live: Set<usize>, taken: Set<usize>)
    requires
        live.disjoint(taken),
    ensures
        live.union(taken).difference(taken) == live,
{
    assert(live.union(taken).difference(taken) =~= live);
}

} // verus!
