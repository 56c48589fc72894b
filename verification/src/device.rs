//! The lifecycle shape every device variant shares: completing a creation
//! call, draining an enumeration call, and destruction.
//!
//! The unverified shell makes the raw native calls and hands their results
//! back here as plain values: the returned address (`0` for the null
//! sentinel), the error channel's slot, and the enumerated strings together
//! with the addresses of the native allocations that carried them. This
//! module decides what each outcome means and accounts for every allocation
//! in the [`NativeArena`] ledger.

use vstd::prelude::*;
use crate::arena::NativeArena;
use crate::common::DeviceError;
use crate::common::ErrorSlot;
use crate::common::InputtinoDeviceDefinition;

verus! {

/// One live native device object: the address the native creation call
/// returned, owning the description whose buffers the native side may still
/// reference. The value is move-only and destruction consumes it, so a
/// destroyed handle cannot be used or destroyed again.
pub struct DeviceResource {
    addr: usize,
    definition: InputtinoDeviceDefinition,
}

/// One native string allocation handed over by an enumeration call: the
/// allocation's address and the text copied out of it.
pub struct NativeText {
    pub addr: usize,
    pub text: String,
}

/// What a successful native enumeration call handed over: the address of
/// the native array itself, and its entries in the order the native side
/// produced them.
pub struct NodeFetch {
    pub array_addr: usize,
    pub entries: Vec<NativeText>,
}

/// The addresses a fetch obliges the enumerator to release: each entry's,
/// in order, and the array's own last.
pub open spec fn fetch_addr_seq(f: NodeFetch) -> Seq<usize> {
    f.entries@.map_values(|e: NativeText| e.addr).push(f.array_addr)
}

/// A fetch is well formed when its addresses are pairwise distinct and
/// none is the null sentinel — true of any batch of live native
/// allocations.
pub open spec fn fetch_wf(f: NodeFetch) -> bool {
    &&& fetch_addr_seq(f).no_duplicates()
    &&& forall|i: int| 0 <= i < fetch_addr_seq(f).len() ==> fetch_addr_seq(f)[i] != 0usize
}

/// The texts a fetch carries, in order.
pub open spec fn fetch_texts(f: NodeFetch) -> Seq<Seq<char>> {
    f.entries@.map_values(|e: NativeText| e.text@)
}

/// The texts of an owned node list, in order.
pub open spec fn texts_of(nodes: Seq<String>) -> Seq<Seq<char>> {
    nodes.map_values(|s: String| s@)
}

proof fn lemma_push_to_set(s: Seq<usize>, x: usize)
    ensures
        s.push(x).to_set() == s.to_set().insert(x),
{
    assert forall|y: usize| s.push(x).to_set().contains(y) implies s.to_set().insert(
        x,
    ).contains(y) by {
        let j = choose|j: int| 0 <= j < s.push(x).len() && s.push(x)[j] == y;
        if j < s.len() {
            assert(s[j] == y);
        }
    }
    assert forall|y: usize| s.to_set().insert(x).contains(y) implies s.push(x).to_set().contains(
        y,
    ) by {
        if y == x {
            assert(s.push(x)[s.len() as int] == y);
        } else {
            let j = choose|j: int| 0 <= j < s.len() && s[j] == y;
            assert(s.push(x)[j] == y);
        }
    }
    assert(s.push(x).to_set() =~= s.to_set().insert(x));
}

/// Registers in the ledger every allocation a fetch handed over: each
/// entry's string and the array itself. The shell calls this right after a
/// non-null enumeration result, before the fetch is drained.
pub fn register_fetch(fetch: &NodeFetch, arena: &mut NativeArena)
    requires
        old(arena).inv(),
        fetch_wf(*fetch),
        old(arena).live_set().disjoint(fetch_addr_seq(*fetch).to_set()),
    ensures
        final(arena).inv(),
        final(arena).live_set() == old(arena).live_set().union(
            fetch_addr_seq(*fetch).to_set(),
        ),
{
    let ghost addrs = fetch_addr_seq(*fetch);
    let mut i: usize = 0;
    while i < fetch.entries.len()
        invariant
            arena.inv(),
            addrs == fetch_addr_seq(*fetch),
            addrs.no_duplicates(),
            forall|k: int| 0 <= k < addrs.len() ==> addrs[k] != 0usize,
            old(arena).live_set().disjoint(addrs.to_set()),
            i <= fetch.entries@.len(),
            arena.live_set() == old(arena).live_set().union(addrs.take(i as int).to_set()),
        decreases fetch.entries@.len() - i,
    {
        let a = fetch.entries[i].addr;
        proof {
            assert(addrs[i as int] == a);
            assert(addrs.contains(a));
            assert(addrs.to_set().contains(a));
            assert(!old(arena).live_set().contains(a));
            if addrs.take(i as int).contains(a) {
                let j = choose|j: int| 0 <= j < i && addrs.take(i as int)[j] == a;
                assert(addrs[j] == a);
            }
            assert(!addrs.take(i as int).to_set().contains(a));
        }
        arena.register(a);
        proof {
            lemma_push_to_set(addrs.take(i as int), a);
            assert(addrs.take(i as int).push(a) =~= addrs.take(i as int + 1));
            assert(arena.live_set() =~= old(arena).live_set().union(
                addrs.take(i as int + 1).to_set(),
            ));
        }
        i += 1;
    }
    let a = fetch.array_addr;
    proof {
        let n = fetch.entries@.len() as int;
        assert(addrs[n] == a);
        assert(addrs.contains(a));
        assert(!old(arena).live_set().contains(a));
        if addrs.take(n).contains(a) {
            let j = choose|j: int| 0 <= j < n && addrs.take(n)[j] == a;
            assert(addrs[j] == a);
        }
        assert(!addrs.take(n).to_set().contains(a));
    }
    arena.register(a);
    proof {
        let n = fetch.entries@.len() as int;
        lemma_push_to_set(addrs.take(n), a);
        assert(addrs.take(n).push(a) =~= addrs);
        assert(arena.live_set() =~= old(arena).live_set().union(addrs.to_set()));
    }
}

/// Turns what a native enumeration call returned into an owned node list.
///
/// `None` stands for the null array: the result is `EnumerationFailed` and
/// the ledger is untouched — no allocation is released. A present fetch is
/// drained all-or-nothing: the texts come back in the native order, and
/// every allocation the fetch carried — each entry, then the array — is
/// released exactly once.
pub fn collect_nodes(fetch: Option<NodeFetch>, arena: &mut NativeArena) -> (r: Result<
    Vec<String>,
    DeviceError,
>)
    requires
        old(arena).inv(),
        fetch matches Some(f) ==> fetch_wf(f) && fetch_addr_seq(f).to_set().subset_of(
            old(arena).live_set(),
        ),
    ensures
        final(arena).inv(),
        match fetch {
            None => r matches Err(e) && e == DeviceError::EnumerationFailed && *final(arena)
                == *old(arena),
            Some(f) => r matches Ok(nodes) && texts_of(nodes@) == fetch_texts(f)
                && final(arena).live_set() == old(arena).live_set().difference(
                fetch_addr_seq(f).to_set(),
            ),
        },
{
    let f = match fetch {
        None => { return Err(DeviceError::EnumerationFailed); },
        Some(f) => f,
    };
    let ghost addrs = fetch_addr_seq(f);
    let ghost texts = fetch_texts(f);
    let ghost orig = f.entries@;
    let NodeFetch { array_addr, entries } = f;
    let mut entries = entries;
    let mut out: Vec<String> = Vec::new();
    while entries.len() > 0
        invariant
            arena.inv(),
            addrs == orig.map_values(|e: NativeText| e.addr).push(array_addr),
            texts == orig.map_values(|e: NativeText| e.text@),
            addrs.no_duplicates(),
            addrs.to_set().subset_of(old(arena).live_set()),
            out@.len() + entries@.len() == orig.len(),
            entries@ == orig.skip(out@.len() as int),
            texts_of(out@) == texts.take(out@.len() as int),
            arena.live_set() == old(arena).live_set().difference(
                addrs.take(out@.len() as int).to_set(),
            ),
        decreases entries@.len(),
    {
        let ghost k = out@.len() as int;
        let e = entries.remove(0);
        proof {
            assert(e == orig[k]);
            assert(entries@ =~= orig.skip(k + 1));
            assert(addrs[k] == e.addr);
            assert(addrs.contains(e.addr));
            assert(addrs.to_set().contains(e.addr));
            if addrs.take(k).contains(e.addr) {
                let j = choose|j: int| 0 <= j < k && addrs.take(k)[j] == e.addr;
                assert(addrs[j] == e.addr);
            }
            assert(!addrs.take(k).to_set().contains(e.addr));
            assert(arena.live_set().contains(e.addr));
        }
        arena.release(e.addr);
        proof {
            lemma_push_to_set(addrs.take(k), e.addr);
            assert(addrs.take(k).push(e.addr) =~= addrs.take(k + 1));
            assert(arena.live_set() =~= old(arena).live_set().difference(
                addrs.take(k + 1).to_set(),
            ));
        }
        out.push(e.text);
        proof {
            assert(texts[k] == e.text@);
            assert(texts_of(out@) =~= texts.take(k + 1));
        }
    }
    let ghost n = orig.len() as int;
    proof {
        assert(out@.len() == n);
        assert(addrs[n] == array_addr);
        assert(addrs.contains(array_addr));
        assert(addrs.to_set().contains(array_addr));
        if addrs.take(n).contains(array_addr) {
            let j = choose|j: int| 0 <= j < n && addrs.take(n)[j] == array_addr;
            assert(addrs[j] == array_addr);
        }
        assert(!addrs.take(n).to_set().contains(array_addr));
        assert(arena.live_set().contains(array_addr));
    }
    arena.release(array_addr);
    proof {
        lemma_push_to_set(addrs.take(n), array_addr);
        assert(addrs.take(n).push(array_addr) =~= addrs);
        assert(arena.live_set() =~= old(arena).live_set().difference(addrs.to_set()));
        assert(texts_of(out@) =~= texts);
    }
    Ok(out)
}

impl DeviceResource {
    /// The native handle's address.
    pub closed spec fn spec_addr(self) -> usize {
        self.addr
    }

    /// The description the handle owns for its whole lifetime.
    pub closed spec fn spec_definition(self) -> InputtinoDeviceDefinition {
        self.definition
    }

    /// A live handle's address is never the null sentinel.
    #[verifier::type_invariant]
    closed spec fn wf(self) -> bool {
        self.addr != 0
    }

    /// Decides what a native creation call's outcome means, consuming the
    /// error channel's slot either way.
    ///
    /// A null result (`raw_addr == 0`) becomes `CreationFailed` carrying the
    /// channel's message — empty when the channel stayed silent — and
    /// nothing is registered: no partial resource is retained. A non-null
    /// result becomes a live handle owning `definition`, and the handle's
    /// allocation is registered in the ledger.
    pub fn from_creation(
        definition: InputtinoDeviceDefinition,
        raw_addr: usize,
        channel: ErrorSlot,
        arena: &mut NativeArena,
    ) -> (r: Result<DeviceResource, DeviceError>)
        requires
            old(arena).inv(),
            !old(arena).live_set().contains(raw_addr),
        ensures
            final(arena).inv(),
            match r {
                Ok(d) => {
                    &&& raw_addr != 0
                    &&& d.spec_addr() == raw_addr
                    &&& d.spec_definition() == definition
                    &&& final(arena).live_set() == old(arena).live_set().insert(raw_addr)
                },
                Err(e) => {
                    &&& raw_addr == 0
                    &&& *final(arena) == *old(arena)
                    &&& e matches DeviceError::CreationFailed(m) && m@ == channel.spec_text()
                },
            },
    {
        if raw_addr == 0 {
            Err(DeviceError::CreationFailed(channel.into_message()))
        } else {
            arena.register(raw_addr);
            Ok(DeviceResource { addr: raw_addr, definition })
        }
    }

    /// The handle's address, for the shell to pass to native control calls.
    pub fn addr(&self) -> (a: usize)
        ensures
            a == self.spec_addr(),
            a != 0,
    {
        proof {
            use_type_invariant(self);
        }
        self.addr
    }

    /// The description backing this handle.
    pub fn definition(&self) -> (d: &InputtinoDeviceDefinition)
        ensures
            d == self.spec_definition(),
    {
        &self.definition
    }

    /// Releases the handle's allocation from the ledger and consumes the
    /// handle, yielding the address the shell must pass to the native
    /// destruction call — the one place it can still be obtained, so the
    /// native side is told to destroy each handle at most once.
    pub fn destroy(self, arena: &mut NativeArena) -> (addr: usize)
        requires
            old(arena).inv(),
            old(arena).live_set().contains(self.spec_addr()),
        ensures
            final(arena).inv(),
            addr == self.spec_addr(),
            final(arena).live_set() == old(arena).live_set().remove(addr),
    {
        arena.release(self.addr);
        self.addr
    }
}

} // verus!
