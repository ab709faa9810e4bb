//! Tables of owned values that a foreign caller refers to by opaque handles.
use vstd::prelude::*;

verus! {

/// The handle that refers to nothing. No table ever issues it.
pub const NULL_HANDLE: usize = 0;

/// An arena of values, each reached through the handle under which it was
/// stored. A handle is issued once: after its value has been taken out, the
/// handle stays dead for the rest of the table's life.
pub struct HandleTable<T> {
    slots: Vec<Option<T>>,
}

impl<T> View for HandleTable<T> {
    type V = Map<int, T>;

    /// The values that are alive, keyed by their handles.
    closed spec fn view(&self) -> Map<int, T> {
        Map::new(
            |h: int| 1 <= h <= self.slots@.len() && self.slots@[h - 1] is Some,
            |h: int| self.slots@[h - 1]->0,
        )
    }
}

impl<T> HandleTable<T> {
    /// How many handles the table has issued so far.
    pub closed spec fn issued(&self) -> nat {
        self.slots@.len()
    }

    /// Whether `handle` refers to a value that is alive.
    pub open spec fn is_live(&self, handle: usize) -> bool {
        self@.dom().contains(handle as int)
    }

    /// Whether `handle` was issued and the value it referred to has been
    /// taken out.
    pub open spec fn is_retired(&self, handle: usize) -> bool {
        1 <= handle <= self.issued() && !self.is_live(handle)
    }

    /// Every live handle is one of the handles issued so far, and none is null.
    pub proof fn lemma_live_handles_were_issued(&self)
        ensures
            forall|h: int| #[trigger] self@.dom().contains(h) ==> 1 <= h <= self.issued(),
            !self.is_live(NULL_HANDLE),
    {
    }

    /// Creates a table that has issued no handle.
    pub fn new() -> (table: Self)
        ensures
            table@ == Map::<int, T>::empty(),
            table.issued() == 0,
    {
        let table = HandleTable { slots: Vec::new() };
        assert(table@ =~= Map::<int, T>::empty());
        table
    }

    /// Stores `value` and returns the handle that now refers to it. The handle
    /// is the successor of the count of handles issued before, so it differs
    /// from every handle this table has ever returned.
    pub fn insert(&mut self, value: T) -> (handle: usize)
        ensures
            handle == old(self).issued() + 1,
            final(self).issued() == old(self).issued() + 1,
            final(self)@ == old(self)@.insert(handle as int, value),
            forall|h: usize| old(self).is_retired(h) ==> final(self).is_retired(h),
    {
        self.slots.push(Some(value));
        let handle = self.slots.len();
        assert(self@ =~= old(self)@.insert(handle as int, value));
        handle
    }

    /// Looks up the value that `handle` refers to.
    pub fn get(&self, handle: usize) -> (value: Option<&T>)
        ensures
            self.is_live(handle) ==> value == Some(&self@[handle as int]),
            !self.is_live(handle) ==> value is None,
    {
        if handle == 0 || handle > self.slots.len() {
            None
        } else {
            self.slots[handle - 1].as_ref()
        }
    }

    /// Takes the value that `handle` refers to out of the table. The handle is
    /// dead afterwards; a handle that is already dead yields `None` and leaves
    /// the table as it was.
    pub fn take(&mut self, handle: usize) -> (value: Option<T>)
        ensures
            old(self).is_live(handle) ==> value == Some(old(self)@[handle as int]),
            !old(self).is_live(handle) ==> value is None,
            final(self)@ == old(self)@.remove(handle as int),
            final(self).issued() == old(self).issued(),
            old(self).is_live(handle) ==> final(self).is_retired(handle),
            forall|h: usize| old(self).is_retired(h) ==> final(self).is_retired(h),
    {
        if handle == 0 || handle > self.slots.len() {
            assert(self@ =~= old(self)@.remove(handle as int));
            None
        } else {
            let value = self.slots[handle - 1].take();
            assert(self@ =~= old(self)@.remove(handle as int));
            value
        }
    }
}

} // verus!
