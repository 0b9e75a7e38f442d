//! The ownership discipline of the generated handle, proved over a model
//! heap.
//!
//! A generated handle owns one heap allocation through a single pointer and
//! destroys it exactly once. The generated code itself lives outside this
//! library; this module states its ownership contract over a model: a heap
//! of allocations, each recording whether it is live and how many times its
//! teardown has run, and a handle that either owns its allocation or has
//! released it through the raw-pointer escape hatch.

use vstd::prelude::*;

verus! {

/// One model allocation: the representation value behind one handle.
#[derive(Clone, Copy, Debug, PartialEq, Eq, Structural)]
pub struct ModelAlloc {
    /// Whether the allocation is still live.
    pub live: bool,
    /// How many times the allocation's teardown has run: the wrapped
    /// value's destruction and the free of the allocation.
    pub drops: u32,
}

/// The model heap: one entry per allocation ever made, indexed by address.
pub struct ModelHeap {
    /// The allocations, in allocation order; an address is an index here.
    pub allocs: Vec<ModelAlloc>,
}

/// A model handle: the address it owns. Exclusive ownership is the
/// invariant the generated type provides by construction: it cannot be
/// duplicated, only moved, so at most one live handle ever points at an
/// address.
pub struct ModelHandle {
    /// The owned address.
    pub addr: usize,
}

/// A raw address released from a handle: what `into_raw` hands the caller,
/// who must hand it back to `from_raw` exactly once.
#[derive(Clone, Copy, Debug, PartialEq, Eq, Structural)]
pub struct RawAddr {
    /// The released address.
    pub addr: usize,
}

impl ModelHeap {
    /// An empty heap.
    pub fn new() -> (r: ModelHeap)
        ensures
            r.allocs@ == Seq::<ModelAlloc>::empty(),
    {
        ModelHeap { allocs: Vec::new() }
    }

    /// Whether an address is a live allocation that has never been torn
    /// down.
    pub open spec fn fresh_at(self, addr: usize) -> bool {
        &&& addr < self.allocs@.len()
        &&& self.allocs@[addr as int].live
        &&& self.allocs@[addr as int].drops == 0
    }

    /// The handle constructor's model: heap-allocates one representation
    /// instance and returns the owning handle; there is no failure path.
    pub fn new_handle(&mut self) -> (h: ModelHandle)
        ensures
            h.addr == old(self).allocs@.len(),
            final(self).allocs@ == old(self).allocs@.push(ModelAlloc { live: true, drops: 0 }),
            final(self).fresh_at(h.addr),
    {
        let addr = self.allocs.len();
        self.allocs.push(ModelAlloc { live: true, drops: 0 });
        ModelHandle { addr }
    }

    /// The handle destructor's model: invokes the table's teardown exactly
    /// once on the owned address, after which the pointer is never
    /// dereferenced again. Teardown requires a live allocation: with
    /// exclusive ownership that is an invariant, never a runtime test.
    pub fn drop_handle(&mut self, h: ModelHandle)
        requires
            old(self).fresh_at(h.addr),
        ensures
            final(self).allocs@ == old(self).allocs@.update(
                h.addr as int,
                ModelAlloc { live: false, drops: 1 },
            ),
            final(self).allocs@[h.addr as int].drops == 1,
            !final(self).allocs@[h.addr as int].live,
    {
        let entry = self.allocs[h.addr];
        self.allocs.set(h.addr, ModelAlloc { live: false, drops: (entry.drops + 1) as u32 });
    }
}

impl ModelHandle {
    /// `asRaw`'s model: the address without releasing ownership; the handle
    /// still tears its contents down normally afterwards.
    pub fn as_raw(&self) -> (r: RawAddr)
        ensures
            r.addr == self.addr,
    {
        RawAddr { addr: self.addr }
    }

    /// `intoRaw`'s model: releases ownership, suppressing the automatic
    /// teardown, and returns the address for the caller to manage.
    pub fn into_raw(self) -> (r: RawAddr)
        ensures
            r.addr == self.addr,
    {
        RawAddr { addr: self.addr }
    }

    /// `fromRaw`'s model: reconstructs the owning handle from a released
    /// address. The caller guarantees the address came from `intoRaw` (or
    /// an equivalent release) and was not already reclaimed; in the model
    /// that is the freshness requirement.
    pub fn from_raw(r: RawAddr) -> (h: ModelHandle)
        ensures
            h.addr == r.addr,
    {
        ModelHandle { addr: r.addr }
    }
}

/// Round-trip raw-pointer ownership: releasing a handle through `intoRaw`,
/// reconstructing it with `fromRaw` at the same address, and then letting
/// normal teardown run destroys the wrapped value and the allocation
/// exactly once — never zero times, never twice.
pub fn raw_round_trip_drops_once(heap: &mut ModelHeap, h: ModelHandle)
    requires
        old(heap).fresh_at(h.addr),
    ensures
        final(heap).allocs@[h.addr as int].drops == 1,
        !final(heap).allocs@[h.addr as int].live,
        final(heap).allocs@.len() == old(heap).allocs@.len(),
{
    let raw = h.into_raw();
    let h2 = ModelHandle::from_raw(raw);
    heap.drop_handle(h2);
}

/// Layout round trip: reconstructing a handle from the address `asRaw`
/// reports yields a handle observably equivalent to the original — it owns
/// the same address — because the handle's memory representation is exactly
/// that one pointer.
pub proof fn lemma_as_raw_round_trip(h: ModelHandle)
    ensures
        (ModelHandle { addr: (RawAddr { addr: h.addr }).addr }) == h,
{
}

/// Teardown is final: a second teardown of the same allocation is excluded
/// by its own requirement, because after one teardown the allocation is no
/// longer live, so the destruction count can never reach two.
pub proof fn lemma_no_double_drop(before: ModelHeap, after: ModelHeap, h: ModelHandle)
    requires
        before.fresh_at(h.addr),
        after.allocs@ == before.allocs@.update(h.addr as int, ModelAlloc { live: false, drops: 1 }),
    ensures
        !after.fresh_at(h.addr),
{
}

} // verus!
