//! Generation-checked handle table.
//!
//! Live resources (buffers, kernels) are owned by a `ResourceTable` and
//! referred to through opaque `Handle`s.  A slot that is vacated and later
//! reused keeps its index but moves to a higher generation, so a handle
//! kept from the earlier occupant can never resolve to the new one: stale
//! access is a checked error, never a silent hit on the wrong record.

use vstd::prelude::*;

verus! {

/// A handle into a `ResourceTable`: a slot index paired with the
/// generation the slot had when the record was inserted.  The handle
/// resolves only while the slot still carries that generation.
#[derive(Clone, Copy, PartialEq, Eq, Structural, Debug)]
pub struct Handle {
    pub index: usize,
    pub generation: u64,
}

/// One slot of a `ResourceTable`: the record, if the slot is occupied, and
/// the generation stamped into every handle that currently points here.
/// Vacating a slot bumps its generation, invalidating old handles.
pub struct Slot<T> {
    pub generation: u64,
    pub value: Option<T>,
}

/// Arena of generation-checked slots.  Insertion reuses a vacant slot when
/// one exists and appends a new slot otherwise; lookup fails unless both
/// the index and the generation of the handle match the slot.
pub struct ResourceTable<T> {
    pub slots: Vec<Slot<T>>,
}

impl<T> ResourceTable<T> {
    /// An occupied slot always sits strictly below the final generation,
    /// so vacating it can still bump the generation without overflow.
    pub open spec fn wf(self) -> bool {
        forall|i: int|
            0 <= i < self.slots@.len() && self.slots@[i].value is Some
                ==> self.slots@[i].generation < u64::MAX
    }

    /// Number of slots (occupied or vacant) the table holds.
    pub open spec fn len(self) -> nat {
        self.slots@.len()
    }

    /// A handle is valid exactly when its slot is in range, occupied, and
    /// still carries the handle's generation.
    pub open spec fn valid(self, h: Handle) -> bool {
        &&& h.index < self.slots@.len()
        &&& self.slots@[h.index as int].generation == h.generation
        &&& self.slots@[h.index as int].value is Some
    }

    /// The record a valid handle resolves to.
    pub open spec fn at(self, h: Handle) -> T
        recommends
            self.valid(h),
    {
        self.slots@[h.index as int].value.unwrap()
    }

    /// An empty table.
    pub fn new() -> (t: ResourceTable<T>)
        ensures
            t.wf(),
            t.len() == 0,
            forall|h: Handle| !t.valid(h),
    {
        ResourceTable { slots: Vec::new() }
    }

    /// Whether `h` currently resolves to a record.
    pub fn is_valid(&self, h: Handle) -> (r: bool)
        ensures
            r == self.valid(h),
    {
        if h.index < self.slots.len() {
            let slot = &self.slots[h.index];
            slot.generation == h.generation && slot.value.is_some()
        } else {
            false
        }
    }

    /// Resolve a handle; `None` when it is stale or out of range.
    pub fn get(&self, h: Handle) -> (r: Option<&T>)
        ensures
            r is Some <==> self.valid(h),
            r is Some ==> *r.unwrap() == self.at(h),
    {
        if h.index < self.slots.len() {
            let slot = &self.slots[h.index];
            if slot.generation == h.generation {
                match &slot.value {
                    Some(v) => Some(v),
                    None => None,
                }
            } else {
                None
            }
        } else {
            None
        }
    }

    /// Store a record, reusing a vacant slot (keeping that slot's bumped
    /// generation) or appending a fresh slot at generation zero, and hand
    /// back the only handle that resolves to it.
    pub fn insert(&mut self, value: T) -> (h: Handle)
        requires
            old(self).wf(),
        ensures
            final(self).wf(),
            final(self).valid(h),
            !old(self).valid(h),
            final(self).at(h) == value,
            h.index <= old(self).len(),
            old(self).len() <= final(self).len(),
            final(self).len() <= old(self).len() + 1,
            h.index < old(self).len() ==> final(self).len() == old(self).len()
                && old(self).slots@[h.index as int].value is None
                && h.generation == old(self).slots@[h.index as int].generation,
            h.index == old(self).len() ==> final(self).len() == old(self).len() + 1
                && h.generation == 0,
            forall|i: int|
                0 <= i < old(self).len() && i != h.index
                    ==> final(self).slots@[i] == old(self).slots@[i],
            forall|h2: Handle|
                old(self).valid(h2)
                    ==> final(self).valid(h2) && final(self).at(h2) == old(self).at(h2),
            forall|h2: Handle| h2 != h && final(self).valid(h2) ==> old(self).valid(h2),
    {
        let ghost pre = *self;
        let mut i: usize = 0;
        let n = self.slots.len();
        while i < n
            invariant
                *self == pre,
                pre == *old(self),
                pre.wf(),
                n == pre.slots@.len(),
                i <= n,
                forall|j: int|
                    0 <= j < i
                        ==> !(pre.slots@[j].value is None
                            && pre.slots@[j].generation < u64::MAX),
            decreases n - i,
        {
            let slot = &self.slots[i];
            if slot.value.is_none() && slot.generation < u64::MAX {
                let g = slot.generation;
                self.slots.set(i, Slot { generation: g, value: Some(value) });
                let h = Handle { index: i, generation: g };
                assert(forall|h2: Handle|
                    pre.valid(h2)
                        ==> final(self).valid(h2) && final(self).at(h2) == pre.at(h2));
                return h;
            }
            i = i + 1;
        }
        let idx = self.slots.len();
        self.slots.push(Slot { generation: 0, value: Some(value) });
        Handle { index: idx, generation: 0 }
    }

    /// Replace the record of a valid handle in place; the handle stays
    /// valid and no other slot is touched.  Returns whether `h` resolved.
    pub fn update(&mut self, h: Handle, value: T) -> (ok: bool)
        requires
            old(self).wf(),
        ensures
            final(self).wf(),
            ok == old(self).valid(h),
            !ok ==> *final(self) == *old(self),
            ok ==> final(self).valid(h) && final(self).at(h) == value,
            final(self).len() == old(self).len(),
            forall|i: int|
                0 <= i < old(self).len() && i != h.index
                    ==> final(self).slots@[i] == old(self).slots@[i],
            forall|h2: Handle| final(self).valid(h2) == old(self).valid(h2),
            forall|h2: Handle|
                h2 != h && old(self).valid(h2)
                    ==> final(self).at(h2) == old(self).at(h2),
    {
        if self.is_valid(h) {
            self.slots.set(h.index, Slot { generation: h.generation, value: Some(value) });
            true
        } else {
            false
        }
    }

    /// Vacate the slot of a valid handle, bumping its generation, and
    /// return ownership of the record.  The handle — and every other
    /// handle into that slot's past — stays invalid from here on.
    pub fn remove(&mut self, h: Handle) -> (r: Option<T>)
        requires
            old(self).wf(),
        ensures
            final(self).wf(),
            r is Some <==> old(self).valid(h),
            r is None ==> *final(self) == *old(self),
            r is Some ==> r.unwrap() == old(self).at(h),
            r is Some ==> final(self).slots@[h.index as int].value is None
                && final(self).slots@[h.index as int].generation == h.generation + 1,
            !final(self).valid(h),
            final(self).len() == old(self).len(),
            forall|i: int|
                0 <= i < old(self).len() && i != h.index
                    ==> final(self).slots@[i] == old(self).slots@[i],
            forall|h2: Handle|
                h2.index != h.index ==> final(self).valid(h2) == old(self).valid(h2),
            forall|h2: Handle|
                h2.index != h.index && old(self).valid(h2)
                    ==> final(self).at(h2) == old(self).at(h2),
            old(self).valid(h)
                ==> forall|h2: Handle| h2.index == h.index ==> !final(self).valid(h2),
    {
        if self.is_valid(h) {
            let slot = &mut self.slots[h.index];
            let taken = slot.value.take();
            slot.generation = slot.generation + 1;
            taken
        } else {
            None
        }
    }

    /// The handles of every occupied slot, in ascending slot order.  Used
    /// during teardown to walk the live resources; callers must not rely
    /// on the order staying stable across insert/remove cycles.
    pub fn live_handles(&self) -> (r: Vec<Handle>)
        ensures
            forall|j: int| 0 <= j < r@.len() ==> self.valid(#[trigger] r@[j]),
            forall|h: Handle| self.valid(h) ==> r@.contains(h),
            forall|j: int, k: int| 0 <= j < k < r@.len() ==> r@[j].index < r@[k].index,
    {
        let mut r: Vec<Handle> = Vec::new();
        let mut i: usize = 0;
        let n = self.slots.len();
        while i < n
            invariant
                i <= n,
                n == self.slots@.len(),
                forall|j: int| 0 <= j < r@.len() ==> self.valid(#[trigger] r@[j]),
                forall|j: int| 0 <= j < r@.len() ==> r@[j].index < i,
                forall|h: Handle| self.valid(h) && h.index < i ==> r@.contains(h),
                forall|j: int, k: int| 0 <= j < k < r@.len() ==> r@[j].index < r@[k].index,
            decreases n - i,
        {
            let slot = &self.slots[i];
            if slot.value.is_some() {
                let ghost r_pre = r@;
                r.push(Handle { index: i, generation: slot.generation });
                assert forall|h: Handle| self.valid(h) && h.index < i + 1 implies r@.contains(h) by {
                    if h.index < i {
                        assert(r_pre.contains(h));
                        let w = choose|w: int| 0 <= w < r_pre.len() && r_pre[w] == h;
                        assert(r@[w] == h);
                    } else {
                        assert(h == (Handle { index: i as usize, generation: self.slots@[i as int].generation }));
                        assert(r@[r@.len() - 1] == h);
                    }
                }
            }
            i = i + 1;
        }
        r
    }
}

/// Stale-handle rejection: once a record is removed, its handle never
/// resolves again — in particular not after the slot's index is reused by
/// a later insertion under a fresh generation.  `pre` is the table while
/// `h` was live, `mid` the table `remove(h)` leaves behind, and `post` any
/// table in which an insertion has reoccupied the same index with handle
/// `h2`, as the contracts of `remove` and `insert` describe them.
pub proof fn lemma_stale_handle_rejected<T>(
    pre: ResourceTable<T>,
    mid: ResourceTable<T>,
    post: ResourceTable<T>,
    h: Handle,
    h2: Handle,
)
    requires
        pre.valid(h),
        mid.slots@[h.index as int].value is None,
        mid.slots@[h.index as int].generation == h.generation + 1,
        post.valid(h2),
        h2.index == h.index,
        h2.generation == mid.slots@[h.index as int].generation,
        post.slots@[h2.index as int].generation == h2.generation,
    ensures
        h2 != h,
        !post.valid(h),
{
    assert(h2.generation == h.generation + 1);
}

} // verus!
