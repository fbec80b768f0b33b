//! A value computed on first access by a supplied function.

use vstd::prelude::*;
use crate::once::Once;

verus! {

/// A lazily computed value: created with a zero-argument initializer,
/// which the first forcing access consumes to compute the value; every
/// later access finds the value already there.
///
/// The embedded barrier discriminates the storage: before it
/// completes, the cell holds the pending initializer; after, only the
/// computed value. The transition consumes the initializer, so it can
/// never run twice.
pub struct LazyLock<T, F> {
    once: Once,
    init: Option<F>,
    value: Option<T>,
}

impl<T, F> View for LazyLock<T, F> {
    type V = Option<T>;

    /// The computed value, if the cell has been forced.
    closed spec fn view(&self) -> Option<T> {
        self.value
    }
}

impl<T, F> LazyLock<T, F> {
    /// The pending initializer, meaningful while the cell is not yet
    /// forced.
    pub closed spec fn initializer(&self) -> F {
        self.init->Some_0
    }

    /// The barrier discriminates the storage: the value is there
    /// exactly when the barrier is complete, the initializer exactly
    /// while it is incomplete, and the barrier is never left running.
    pub closed spec fn wf(&self) -> bool {
        &&& self.once.is_complete() <==> self.value is Some
        &&& self.once.is_incomplete() <==> self.init is Some
        &&& !self.once.is_running()
    }

    /// The computed value, or nothing if the cell was never forced.
    /// Never computes anything and never waits.
    pub fn get(this: &Self) -> (r: Option<&T>)
        ensures
            r is Some <==> this@ is Some,
            r is Some ==> *r->Some_0 == this@->Some_0,
    {
        this.value.as_ref()
    }
}

impl<T, F: FnOnce() -> T> LazyLock<T, F> {
    /// Creates a new lazy value that will be computed by `f` on first
    /// forcing access.
    pub fn new(f: F) -> (r: Self)
        ensures
            r.wf(),
            r@ is None,
            r.initializer() == f,
    {
        LazyLock { once: Once::new(), init: Some(f), value: None }
    }

    /// The computed value, computing it first if no access has done so
    /// yet: the one forcing access consumes the stored initializer
    /// under the barrier's exactly-once discipline and stores its
    /// result where the initializer was.
    pub fn force(this: &mut Self) -> (r: &T)
        requires
            old(this).wf(),
            old(this)@ is None ==> call_requires(old(this).initializer(), ()),
        ensures
            final(this).wf(),
            final(this)@ is Some,
            *r == final(this)@->Some_0,
            old(this)@ is Some ==> final(this)@ == old(this)@,
            old(this)@ is None ==> call_ensures(
                old(this).initializer(),
                (),
                final(this)@->Some_0,
            ),
    {
        if !this.once.is_completed() {
            this.once.begin();
            let f = this.init.take();
            let v = f.unwrap()();
            this.value = Some(v);
            this.once.finish();
        }
        match this.value.as_ref() {
            Some(v) => v,
            None => unreached(),
        }
    }
}

} // verus!
