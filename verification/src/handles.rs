//! The opaque-handle registry and the object kinds it owns.
//!
//! Callers on the far side of the boundary never see an object's layout: a
//! handle is an address-sized, non-zero token referring to exactly one
//! internally owned object. A handle is valid from the moment its creating
//! operation succeeds until its destroying operation runs; handles are never
//! reused, and destroying a live handle twice, or using one after
//! destruction, is a caller contract violation that no operation checks.

use vstd::pervasive::unreached;
use vstd::prelude::*;

verus! {

/// A set of labels: `size` dimensions per entry, `count` entries.
#[derive(Clone, Copy, PartialEq, Eq, Structural, Debug)]
pub struct LabelSet {
    /// Number of dimensions of each entry.
    pub size: u64,
    /// Number of entries.
    pub count: u64,
}

/// A data block, owning the label sets that describe its rows and columns.
#[derive(Clone, Copy, PartialEq, Eq, Structural, Debug)]
pub struct Block {
    /// Labels of the block's rows (one entry per sample).
    pub samples: LabelSet,
    /// Labels of the block's columns (one entry per property).
    pub properties: LabelSet,
}

/// A tensor map: a set of keys and the blocks they index, all owned by the
/// map itself.
pub struct TensorMap {
    /// Labels keying the blocks.
    pub keys: LabelSet,
    /// The blocks, in key order.
    pub blocks: Vec<Block>,
}

/// Owns the live objects of one kind and hands out their handles. Handles
/// are never reused: a destroyed handle's slot stays empty for the life of
/// the registry.
pub struct Registry<T> {
    slots: Vec<Option<T>>,
}

impl<T> Registry<T> {
    /// A fresh handle can still be allocated (a machine limit, not a rule of
    /// the protocol).
    pub closed spec fn can_allocate(&self) -> bool {
        self.slots@.len() < usize::MAX
    }

    /// True when `handle` is live: creation succeeded and no destroying
    /// operation has run on it.
    pub closed spec fn contains(&self, handle: u64) -> bool {
        &&& 1 <= handle
        &&& handle as int <= self.slots@.len()
        &&& self.slots@[handle as int - 1] is Some
    }

    /// The object a live handle refers to.
    pub closed spec fn at(&self, handle: u64) -> T
        recommends
            self.contains(handle),
    {
        self.slots@[handle as int - 1]->0
    }

    /// A live handle is never the null token: the null handle can always be
    /// told apart from every handle a creating operation hands out, so
    /// destroying it is always the documented no-op.
    pub proof fn lemma_live_handle_not_null(&self, handle: u64)
        requires
            self.contains(handle),
        ensures
            handle != 0,
    {
    }

    /// True while a fresh handle can still be allocated.
    pub fn has_capacity(&self) -> (r: bool)
        ensures
            r == self.can_allocate(),
    {
        self.slots.len() < usize::MAX
    }

    /// An empty registry: no handle is live.
    pub fn new() -> (registry: Self)
        ensures
            forall|h: u64| !registry.contains(h),
            registry.can_allocate(),
    {
        Registry { slots: Vec::new() }
    }

    /// Takes ownership of `object` and returns its fresh, non-zero handle;
    /// every other handle keeps its state and its object.
    pub fn register(&mut self, object: T) -> (handle: u64)
        requires
            old(self).can_allocate(),
        ensures
            handle != 0,
            !old(self).contains(handle),
            final(self).contains(handle),
            final(self).at(handle) == object,
            forall|k: u64| k != handle ==> final(self).contains(k) == old(self).contains(k),
            forall|k: u64|
                k != handle && old(self).contains(k) ==> final(self).at(k) == old(self).at(k),
    {
        self.slots.push(Some(object));
        self.slots.len() as u64
    }

    /// Drops the object a live handle refers to and invalidates the handle;
    /// every other handle keeps its state and its object.
    pub fn remove(&mut self, handle: u64)
        requires
            old(self).contains(handle),
        ensures
            !final(self).contains(handle),
            forall|k: u64| k != handle ==> final(self).contains(k) == old(self).contains(k),
            forall|k: u64|
                k != handle && old(self).contains(k) ==> final(self).at(k) == old(self).at(k),
            final(self).can_allocate() == old(self).can_allocate(),
    {
        let length = self.slots.len();
        proof {
            assert(0 <= handle as int - 1 < length as int);
        }
        let index = (handle - 1) as usize;
        self.slots.set(index, None);
    }

    /// Borrows the object a live handle refers to.
    pub fn get(&self, handle: u64) -> (object: &T)
        requires
            self.contains(handle),
        ensures
            *object == self.at(handle),
    {
        let length = self.slots.len();
        proof {
            assert(0 <= handle as int - 1 < length as int);
        }
        let index = (handle - 1) as usize;
        match &self.slots[index] {
            Some(object) => object,
            None => unreached(),
        }
    }

    /// Replaces the object a live handle refers to, in place.
    pub fn replace(&mut self, handle: u64, object: T)
        requires
            old(self).contains(handle),
        ensures
            final(self).contains(handle),
            final(self).at(handle) == object,
            forall|k: u64| k != handle ==> final(self).contains(k) == old(self).contains(k),
            forall|k: u64|
                k != handle && old(self).contains(k) ==> final(self).at(k) == old(self).at(k),
            final(self).can_allocate() == old(self).can_allocate(),
    {
        let length = self.slots.len();
        proof {
            assert(0 <= handle as int - 1 < length as int);
        }
        let index = (handle - 1) as usize;
        self.slots.set(index, Some(object));
    }
}

impl<T: Copy> Registry<T> {
    /// Moves the object a live handle refers to out of the registry,
    /// invalidating the handle: ownership leaves the registry.
    pub fn take(&mut self, handle: u64) -> (object: T)
        requires
            old(self).contains(handle),
        ensures
            object == old(self).at(handle),
            !final(self).contains(handle),
            forall|k: u64| k != handle ==> final(self).contains(k) == old(self).contains(k),
            forall|k: u64|
                k != handle && old(self).contains(k) ==> final(self).at(k) == old(self).at(k),
            final(self).can_allocate() == old(self).can_allocate(),
    {
        let object = *self.get(handle);
        self.remove(handle);
        object
    }
}

} // verus!
