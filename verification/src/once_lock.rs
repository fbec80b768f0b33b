//! A cell that can be written at most once.

use vstd::prelude::*;
use crate::once::Once;
use vstd::std_specs::cmp::PartialEqSpec;

verus! {

/// A write-once cell: empty until a single successful write, after
/// which it hands out that one value, unless [`OnceLock::take`]
/// explicitly empties it again.
///
/// The embedded barrier decides everything: the slot holds a value
/// exactly when the barrier is complete, and the barrier's
/// exactly-once discipline is what keeps a second write out.
#[derive(Debug)]
pub struct OnceLock<T> {
    once: Once,
    value: Option<T>,
}

impl<T> View for OnceLock<T> {
    type V = Option<T>;

    /// The stored value, if any.
    closed spec fn view(&self) -> Option<T> {
        self.value
    }
}

impl<T> OnceLock<T> {
    /// The barrier and the slot agree: a value is present exactly when
    /// the barrier is complete, and the barrier is never left running.
    pub closed spec fn wf(&self) -> bool {
        &&& self.once.is_complete() <==> self.value is Some
        &&& !self.once.is_running()
    }

    /// What a write leaves stored: the first write wins, a later one
    /// changes nothing.
    pub open spec fn stored_after_set(pre: Option<T>, v: T) -> Option<T> {
        if pre is None {
            Some(v)
        } else {
            pre
        }
    }

    /// What a write reports: accepted on an empty cell, the value
    /// handed back untouched otherwise.
    pub open spec fn set_reply(pre: Option<T>, v: T) -> Result<(), T> {
        if pre is None {
            Ok(())
        } else {
            Err(v)
        }
    }

    /// What [`Self::take`] leaves stored: nothing.
    pub open spec fn stored_after_take(pre: Option<T>) -> Option<T> {
        None
    }

    /// What [`Self::take`] returns: whatever was stored.
    pub open spec fn take_reply(pre: Option<T>) -> Option<T> {
        pre
    }

    /// Creates a new, empty cell.
    pub fn new() -> (r: Self)
        ensures
            r.wf(),
            r@ is None,
    {
        OnceLock { once: Once::new(), value: None }
    }

    /// Whether the cell holds a value. Never waits.
    pub fn is_initialized(&self) -> (r: bool)
        requires
            self.wf(),
        ensures
            r == (self@ is Some),
    {
        self.once.is_completed()
    }

    /// The stored value, or nothing if the cell is empty. Never
    /// initializes the cell and never waits.
    pub fn get(&self) -> (r: Option<&T>)
        ensures
            r is Some <==> self@ is Some,
            r is Some ==> *r->Some_0 == self@->Some_0,
    {
        self.value.as_ref()
    }

    /// Write access to the stored value, or nothing if the cell is
    /// empty; the exclusive borrow of the cell makes this safe with no
    /// locking.
    pub fn get_mut(&mut self) -> (r: Option<&mut T>)
        ensures
            r is Some <==> old(self)@ is Some,
            r is None ==> *final(self) == *old(self),
            r is Some ==> *r->Some_0 == old(self)@->Some_0 && final(self)@ == Some(
                *final(r->Some_0),
            ) && final(self).wf() == old(self).wf(),
    {
        self.value.as_mut()
    }

    /// Runs the barrier's one-time action to store `f`'s result. Only
    /// a call that finds the cell empty consumes and runs `f`.
    fn initialize<F: FnOnce() -> T>(&mut self, f: F)
        requires
            old(self).wf(),
            old(self)@ is None,
            call_requires(f, ()),
        ensures
            final(self).wf(),
            final(self)@ is Some,
            call_ensures(f, (), final(self)@->Some_0),
    {
        self.once.begin();
        let v = f();
        self.value = Some(v);
        self.once.finish();
    }

    /// The stored value, initialized from `f` first if the cell is
    /// empty. Of all the initializers ever offered to a cell, exactly
    /// one runs: one offered while the cell was empty; the rest are
    /// dropped unused.
    pub fn get_or_init<F: FnOnce() -> T>(&mut self, f: F) -> (r: &T)
        requires
            old(self).wf(),
            old(self)@ is None ==> call_requires(f, ()),
        ensures
            final(self).wf(),
            final(self)@ is Some,
            *r == final(self)@->Some_0,
            old(self)@ is Some ==> final(self)@ == old(self)@,
            old(self)@ is None ==> call_ensures(f, (), final(self)@->Some_0),
    {
        if !self.is_initialized() {
            self.initialize(f);
        }
        match self.value.as_ref() {
            Some(v) => v,
            None => unreached(),
        }
    }

    /// Stores `data` if the cell is empty; otherwise refuses the
    /// write and hands `data` back. Never blocks.
    pub fn set(&mut self, data: T) -> (r: Result<(), T>)
        requires
            old(self).wf(),
        ensures
            final(self).wf(),
            r == Self::set_reply(old(self)@, data),
            final(self)@ == Self::stored_after_set(old(self)@, data),
    {
        if self.is_initialized() {
            return Err(data);
        }
        let store_data = (|| -> (r: T)
            ensures
                r == data,
            { data });
        self.initialize(store_data);
        Ok(())
    }

    /// Extracts the stored value, if any, resetting the cell to a
    /// fresh empty one; the only way an initialized cell can be
    /// written again.
    pub fn take(&mut self) -> (r: Option<T>)
        requires
            old(self).wf(),
        ensures
            final(self).wf(),
            r == Self::take_reply(old(self)@),
            final(self)@ == Self::stored_after_take(old(self)@),
    {
        if !self.is_initialized() {
            return None;
        }
        self.once = Once::new();
        self.value.take()
    }

    /// Consumes the cell and returns the stored value, if any.
    pub fn into_inner(self) -> (r: Option<T>)
        requires
            self.wf(),
        ensures
            r == self@,
    {
        let mut this = self;
        this.take()
    }
}

impl<T: Clone> Clone for OnceLock<T> {
    /// A fresh cell: empty if the source is empty, otherwise
    /// independently initialized with a clone of the stored value; the
    /// two cells share nothing afterwards.
    fn clone(&self) -> (r: Self)
        ensures
            r.wf(),
            r@ is Some <==> self@ is Some,
            self@ is Some ==> cloned::<T>(self@->Some_0, r@->Some_0),
    {
        let mut cell = Self::new();
        match self.get() {
            Some(data) => {
                let _ = cell.set(data.clone());
                cell
            },
            None => cell,
        }
    }
}

impl<T: PartialEq> PartialEq for OnceLock<T> {
    /// Cells compare by what [`Self::get`] yields: two empty cells are
    /// equal, two full cells compare their stored values, and a full
    /// cell never equals an empty one.
    fn eq(&self, other: &Self) -> (r: bool) {
        match (self.get(), other.get()) {
            (Some(a), Some(b)) => a == b,
            (None, None) => true,
            _ => false,
        }
    }
}

impl<T: PartialEq> vstd::std_specs::cmp::PartialEqSpecImpl for OnceLock<T> {
    open spec fn obeys_eq_spec() -> bool {
        T::obeys_eq_spec()
    }

    open spec fn eq_spec(&self, other: &Self) -> bool {
        match (self@, other@) {
            (Some(a), Some(b)) => a.eq_spec(&b),
            (None, None) => true,
            _ => false,
        }
    }
}

impl<T: Eq> Eq for OnceLock<T> {

}

impl<T> Default for OnceLock<T> {
    /// A fresh empty cell, the same as [`OnceLock::new`].
    fn default() -> (r: Self)
        ensures
            r.wf(),
            r@ is None,
    {
        OnceLock::new()
    }
}

/// First write wins: a write to an empty cell is accepted and stores
/// its value; a write to a full cell is refused, hands its value
/// back, and leaves the stored value unchanged. So whatever sequence
/// of writes a cell sees, the value stored is the one the single
/// accepted write carried.
pub proof fn lemma_first_write_wins<T>(pre: Option<T>, v: T)
    ensures
        pre is None ==> OnceLock::<T>::stored_after_set(pre, v) == Some(v)
            && OnceLock::<T>::set_reply(pre, v) == Ok::<(), T>(()),
        pre is Some ==> OnceLock::<T>::stored_after_set(pre, v) == pre && OnceLock::<T>::set_reply(
            pre,
            v,
        ) == Err::<(), T>(v),
{
}

/// Round trip: on an empty cell a write of `v` is accepted and stores
/// `v`; extraction then yields `v` and leaves the cell empty, so a
/// later write of `v2` is accepted again.
pub proof fn lemma_write_take_round_trip<T>(v: T, v2: T)
    ensures
        OnceLock::<T>::set_reply(Option::<T>::None, v) == Ok::<(), T>(()),
        OnceLock::<T>::stored_after_set(Option::<T>::None, v) == Some(v),
        OnceLock::<T>::take_reply(OnceLock::<T>::stored_after_set(Option::<T>::None, v)) == Some(v),
        OnceLock::<T>::stored_after_take(OnceLock::<T>::stored_after_set(Option::<T>::None, v))
            is None,
        OnceLock::<T>::set_reply(
            OnceLock::<T>::stored_after_take(OnceLock::<T>::stored_after_set(Option::<T>::None, v)),
            v2,
        ) == Ok::<(), T>(()),
{
}

} // verus!
