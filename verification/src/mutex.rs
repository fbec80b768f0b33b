//! A mutual-exclusion lock guarding an interior value.

use vstd::prelude::*;

verus! {

/// A mutual-exclusion lock: a locked flag beside a slot for the
/// protected value. While the lock is held the value lives in the
/// [`MutexGuard`], which is the only way to reach it; releasing the
/// guard puts the value back. Acquiring a lock that is already held
/// waits until it is released, so the contracts here demand an
/// unlocked mutex wherever a second acquisition could never succeed.
#[derive(Debug)]
pub struct Mutex<T> {
    locked: bool,
    data: Option<T>,
}

/// Proof that the lock is held: the guard carries the protected value
/// and grants exclusive access to it until it is handed back to the
/// mutex by [`Mutex::unlock`].
#[derive(Debug)]
pub struct MutexGuard<T> {
    data: T,
}

impl<T> MutexGuard<T> {
    /// The protected value the guard grants access to.
    pub closed spec fn value(&self) -> T {
        self.data
    }

    /// Wraps a value freshly taken out of an acquired mutex. Only the
    /// mutex's own acquisitions mint guards: a guard from anywhere
    /// else would not prove the lock is held.
    pub(crate) fn new(data: T) -> (r: Self)
        ensures
            r.value() == data,
    {
        MutexGuard { data }
    }

    /// Read access to the protected value.
    pub fn borrow(&self) -> (r: &T)
        ensures
            *r == self.value(),
    {
        &self.data
    }

    /// Write access to the protected value.
    pub fn borrow_mut(&mut self) -> (r: &mut T)
        ensures
            *r == old(self).value(),
            final(self).value() == *final(r),
    {
        &mut self.data
    }

    /// Swaps in `data` and returns the value protected until now.
    pub fn replace(&mut self, data: T) -> (r: T)
        ensures
            final(self).value() == data,
            r == old(self).value(),
    {
        let mut data = data;
        core::mem::swap(&mut self.data, &mut data);
        data
    }

    /// Gives up the guard and keeps the value. The matching mutex
    /// stays locked forever unless the caller releases it otherwise.
    pub fn into_inner(self) -> (r: T)
        ensures
            r == self.value(),
    {
        let MutexGuard { data } = self;
        data
    }
}

impl<T> Mutex<T> {
    /// Whether the lock is currently held.
    pub closed spec fn is_locked(&self) -> bool {
        self.locked
    }

    /// The protected value, meaningful while the lock is not held.
    pub closed spec fn value(&self) -> T {
        self.data->Some_0
    }

    /// The flag and the slot agree: the value is out in a guard
    /// exactly while the lock is held.
    pub closed spec fn wf(&self) -> bool {
        self.locked <==> self.data is None
    }

    /// Creates a new mutex in an unlocked state, protecting `data`.
    pub fn new(data: T) -> (r: Self)
        ensures
            r.wf(),
            !r.is_locked(),
            r.value() == data,
    {
        Mutex { locked: false, data: Some(data) }
    }

    /// A single acquisition attempt: takes the lock if it is free and
    /// returns a guard, otherwise reports failure. Never waits.
    pub fn try_lock(&mut self) -> (r: Option<MutexGuard<T>>)
        requires
            old(self).wf(),
        ensures
            final(self).wf(),
            r is Some <==> !old(self).is_locked(),
            old(self).is_locked() ==> *final(self) == *old(self),
            !old(self).is_locked() ==> final(self).is_locked() && r->Some_0.value() == old(
                self,
            ).value(),
    {
        if self.locked {
            None
        } else {
            self.locked = true;
            let data = self.data.take();
            Some(MutexGuard::new(data.unwrap()))
        }
    }

    /// Acquires the mutex, waiting until the lock can be taken. A
    /// lock that is already held here could only be released by this
    /// same caller, who is busy waiting instead, so that state is
    /// excluded.
    pub fn lock(&mut self) -> (r: MutexGuard<T>)
        requires
            old(self).wf(),
            !old(self).is_locked(),
        ensures
            final(self).wf(),
            final(self).is_locked(),
            r.value() == old(self).value(),
    {
        match self.try_lock() {
            Some(guard) => guard,
            None => unreached(),
        }
    }

    /// Acquires the mutex like [`Self::lock`], retrying with the weak
    /// form of the acquisition attempt, which is allowed to fail
    /// spuriously; to its caller it promises exactly what `lock`
    /// does.
    pub fn lock_weak(&mut self) -> (r: MutexGuard<T>)
        requires
            old(self).wf(),
            !old(self).is_locked(),
        ensures
            final(self).wf(),
            final(self).is_locked(),
            r.value() == old(self).value(),
    {
        self.lock()
    }

    /// Releases the mutex, storing the guard's value back into the
    /// slot for the next holder.
    pub fn unlock(&mut self, guard: MutexGuard<T>)
        requires
            old(self).wf(),
            old(self).is_locked(),
        ensures
            final(self).wf(),
            !final(self).is_locked(),
            final(self).value() == guard.value(),
    {
        self.data = Some(guard.into_inner());
        self.locked = false;
    }

    /// Acquires the lock, clones the protected value, releases the
    /// lock and returns the clone.
    pub fn get_cloned(&mut self) -> (r: T) where T: Clone
        requires
            old(self).wf(),
            !old(self).is_locked(),
        ensures
            final(self).wf(),
            !final(self).is_locked(),
            final(self).value() == old(self).value(),
            cloned::<T>(old(self).value(), r),
    {
        let guard = self.lock();
        let r = guard.borrow().clone();
        self.unlock(guard);
        r
    }

    /// Acquires the lock, swaps in `data`, releases the lock and
    /// returns the value protected until now.
    pub fn replace(&mut self, data: T) -> (r: T)
        requires
            old(self).wf(),
            !old(self).is_locked(),
        ensures
            final(self).wf(),
            !final(self).is_locked(),
            final(self).value() == data,
            r == old(self).value(),
    {
        let mut guard = self.lock();
        let r = guard.replace(data);
        self.unlock(guard);
        r
    }

    /// Consumes the mutex and returns the protected value directly,
    /// with no locking: ownership proves no guard is out.
    pub fn into_inner(self) -> (r: T)
        requires
            self.wf(),
            !self.is_locked(),
        ensures
            r == self.value(),
    {
        let mut this = self;
        let data = this.data.take();
        data.unwrap()
    }

    /// A direct mutable reference to the protected value, with no
    /// locking: the exclusive borrow of the mutex proves no guard is
    /// out.
    pub fn get_mut(&mut self) -> (r: &mut T)
        requires
            old(self).wf(),
            !old(self).is_locked(),
        ensures
            *r == old(self).value(),
            final(self).wf(),
            !final(self).is_locked(),
            final(self).value() == *final(r),
    {
        match self.data.as_mut() {
            Some(data) => data,
            None => unreached(),
        }
    }
}

impl<T: Default> Default for Mutex<T> {
    /// An unlocked mutex protecting `T`'s default value.
    fn default() -> (r: Self)
        ensures
            r.wf(),
            !r.is_locked(),
            call_ensures(T::default, (), r.value()),
    {
        Mutex::new(T::default())
    }
}

} // verus!
