//! The callback registry: menu indices and the callbacks bound to them.

use vstd::prelude::*;
use std::collections::HashMap;

verus! {

/// What a registry holds, as a mathematical value.
///
/// `next` is the index that the next allocation hands out. `slots` maps an
/// index to its slot: `Some(callback)` while the callback is idle, `None`
/// while it is checked out, that is, while it runs.
pub ghost struct RegistryView<C> {
    pub next: u32,
    pub slots: Map<u32, Option<C>>,
}

impl<C> RegistryView<C> {
    /// The registry before any allocation.
    pub open spec fn empty() -> Self {
        RegistryView { next: 0, slots: Map::empty() }
    }

    /// Every index that has a slot was allocated earlier.
    pub open spec fn wf(self) -> bool {
        forall|idx: u32| self.slots.contains_key(idx) ==> idx < self.next
    }

    /// The callback that is idle at `idx`, if there is one.
    pub open spec fn callback(self, idx: u32) -> Option<C> {
        if self.slots.contains_key(idx) {
            self.slots[idx]
        } else {
            None
        }
    }

    /// `idx` has a slot, and the slot's callback is out.
    pub open spec fn is_checked_out(self, idx: u32) -> bool {
        self.slots.contains_key(idx) && self.slots[idx] is None
    }

    /// The registry after the next index was handed out without a slot.
    pub open spec fn allocate(self) -> Self {
        RegistryView { next: (self.next + 1) as u32, slots: self.slots }
    }

    /// The registry after `callback` was stored under the next index.
    pub open spec fn register(self, callback: C) -> Self {
        RegistryView {
            next: (self.next + 1) as u32,
            slots: self.slots.insert(self.next, Some(callback)),
        }
    }

    /// The registry with the slot at `idx` marked as checked out.
    pub open spec fn check_out(self, idx: u32) -> Self {
        RegistryView { next: self.next, slots: self.slots.insert(idx, None) }
    }

    /// The registry with `callback` idle at `idx`.
    pub open spec fn put_back(self, idx: u32, callback: C) -> Self {
        RegistryView { next: self.next, slots: self.slots.insert(idx, Some(callback)) }
    }
}

/// Allocates menu indices and keeps the callback of each.
///
/// Indices are handed out from 0 upwards, one at a time, and none is handed
/// out twice. A callback is moved out of its slot for the time of its own
/// invocation and moved back afterwards, so that the callback can be given
/// the owner of the registry to change.
pub struct Registry<C> {
    next: u32,
    slots: HashMap<u32, Option<C>>,
}

impl<C> View for Registry<C> {
    type V = RegistryView<C>;

    closed spec fn view(&self) -> RegistryView<C> {
        RegistryView { next: self.next, slots: self.slots@ }
    }
}

impl<C> Registry<C> {
    /// What holds of every registry: an index that has a slot was handed
    /// out, so it is below the next one.
    #[verifier::type_invariant]
    spec fn well_formed(self) -> bool {
        self@.wf()
    }

    /// Moves the table of slots out and leaves an empty one in its place.
    ///
    /// The table is changed outside the registry and then put in place
    /// again, so that the registry is well-formed at every step.
    fn lift_slots(&mut self) -> (slots: HashMap<u32, Option<C>>)
        ensures
            slots@ == old(self)@.slots,
            forall|idx: u32| slots@.contains_key(idx) ==> idx < old(self)@.next,
            final(self)@.next == old(self)@.next,
            final(self)@.slots == Map::<u32, Option<C>>::empty(),
    {
        proof {
            use_type_invariant(&*self);
        }
        let mut slots = HashMap::new();
        core::mem::swap(&mut self.slots, &mut slots);
        slots
    }

    /// Puts a table of slots in the place that `lift_slots` left empty, under
    /// a new next index.
    fn settle(&mut self, next: u32, slots: HashMap<u32, Option<C>>)
        requires
            old(self)@.slots == Map::<u32, Option<C>>::empty(),
            forall|idx: u32| slots@.contains_key(idx) ==> idx < next,
        ensures
            final(self)@.next == next,
            final(self)@.slots == slots@,
    {
        let mut slots = slots;
        self.next = next;
        core::mem::swap(&mut self.slots, &mut slots);
    }

    /// A registry that has allocated nothing.
    pub fn new() -> (registry: Self)
        ensures
            registry@ == RegistryView::<C>::empty(),
    {
        Registry { next: 0, slots: HashMap::new() }
    }

    /// The index that the next allocation hands out.
    pub fn next_index(&self) -> (next: u32)
        ensures
            next == self@.next,
            self@.wf(),
    {
        proof {
            use_type_invariant(self);
        }
        self.next
    }

    /// Hands out the next index without a slot, as a separator needs it.
    pub fn allocate(&mut self) -> (idx: u32)
        requires
            old(self)@.next < u32::MAX,
        ensures
            idx == old(self)@.next,
            final(self)@ == old(self)@.allocate(),
    {
        let idx = self.next;
        let slots = self.lift_slots();
        self.settle(idx + 1, slots);
        idx
    }

    /// Stores `callback` under the next index and returns that index.
    pub fn register(&mut self, callback: C) -> (idx: u32)
        requires
            old(self)@.next < u32::MAX,
        ensures
            idx == old(self)@.next,
            final(self)@ == old(self)@.register(callback),
    {
        broadcast use vstd::std_specs::hash::group_hash_axioms;

        let idx = self.next;
        let mut slots = self.lift_slots();
        slots.insert(idx, Some(callback));
        self.settle(idx + 1, slots);
        idx
    }

    /// Moves the callback at `idx` out of its slot and marks the slot as
    /// checked out. Without an idle callback at `idx` nothing changes.
    pub fn take(&mut self, idx: u32) -> (callback: Option<C>)
        ensures
            callback == old(self)@.callback(idx),
            callback is Some ==> final(self)@ == old(self)@.check_out(idx),
            callback is None ==> final(self)@ == old(self)@,
    {
        broadcast use vstd::std_specs::hash::group_hash_axioms;

        let next = self.next;
        let mut slots = self.lift_slots();
        let callback = match slots.remove(&idx) {
            Some(slot) => {
                slots.insert(idx, None);
                slot
            },
            None => None,
        };
        self.settle(next, slots);
        proof {
            // The two tables hold the same slots, so they are one table.
            assert(callback is Some ==> self@.slots =~= old(self)@.check_out(idx).slots);
            assert(callback is None ==> self@.slots =~= old(self)@.slots);
        }
        callback
    }

    /// Whether `idx` has a slot whose callback is out.
    pub fn is_checked_out(&self, idx: u32) -> (out: bool)
        ensures
            out == self@.is_checked_out(idx),
    {
        broadcast use vstd::std_specs::hash::group_hash_axioms;

        match self.slots.get(&idx) {
            Some(slot) => slot.is_none(),
            None => false,
        }
    }

    /// Moves `callback` back into the slot at `idx`, from which `take` took
    /// it.
    pub fn put_back(&mut self, idx: u32, callback: C)
        requires
            old(self)@.is_checked_out(idx),
        ensures
            final(self)@ == old(self)@.put_back(idx, callback),
    {
        broadcast use vstd::std_specs::hash::group_hash_axioms;

        let next = self.next;
        let mut slots = self.lift_slots();
        slots.insert(idx, Some(callback));
        self.settle(next, slots);
    }
}

} // verus!
