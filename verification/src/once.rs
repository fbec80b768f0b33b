//! A one-time initialization barrier.

use vstd::prelude::*;

verus! {

/// The three phases of a barrier's life: no initializer has begun,
/// the initializer is running, the initializer has finished.
#[derive(Clone, Copy, Debug, PartialEq, Eq, Structural)]
pub enum OnceState {
    Incomplete,
    Running,
    Complete,
}

/// How far a phase is along the barrier's lifecycle.
pub open spec fn once_rank(s: OnceState) -> int {
    match s {
        OnceState::Incomplete => 0,
        OnceState::Running => 1,
        OnceState::Complete => 2,
    }
}

/// The barrier's phase only ever advances, along
/// `Incomplete -> Running -> Complete`.
pub open spec fn once_le(a: OnceState, b: OnceState) -> bool {
    once_rank(a) <= once_rank(b)
}

/// Whether a call to [`Once::call_once`] runs its action: only a call
/// that finds the barrier untouched does.
pub open spec fn action_runs(pre: OnceState) -> bool {
    pre is Incomplete
}

/// The phase a call to [`Once::call_once`] leaves behind: always
/// `Complete`, whether this call ran the action or an earlier one did.
pub open spec fn phase_after_call(pre: OnceState) -> OnceState {
    OnceState::Complete
}

/// A one-time initialization barrier: an action guarded by it runs
/// exactly once, however many calls are made, and every later observer
/// finds the barrier complete.
///
/// If the action fails part way through, the barrier stays `Running`
/// forever and every other caller waits without end. That is a
/// deliberate consequence of the exactly-once guarantee, not a state
/// to recover from, so the contracts here exclude a `Running` barrier
/// outright.
#[derive(Debug)]
pub struct Once {
    state: OnceState,
}

impl Once {
    /// The current phase of the barrier.
    pub closed spec fn phase(&self) -> OnceState {
        self.state
    }

    /// No initializer has begun.
    pub open spec fn is_incomplete(&self) -> bool {
        self.phase() is Incomplete
    }

    /// An initializer began and never finished.
    pub open spec fn is_running(&self) -> bool {
        self.phase() is Running
    }

    /// The one initializer ran to completion.
    pub open spec fn is_complete(&self) -> bool {
        self.phase() is Complete
    }

    /// Creates a new barrier, with no initializer run yet.
    pub fn new() -> (r: Self)
        ensures
            r.is_incomplete(),
    {
        Once { state: OnceState::Incomplete }
    }

    /// Claims the right to run the one-time action: the step exactly
    /// one caller wins, moving the barrier from `Incomplete` to
    /// `Running`.
    pub(crate) fn begin(&mut self)
        requires
            old(self).is_incomplete(),
        ensures
            final(self).is_running(),
            once_le(old(self).phase(), final(self).phase()),
    {
        self.state = OnceState::Running;
    }

    /// Publishes completion: the step the winning caller takes after
    /// its action returns, moving the barrier from `Running` to
    /// `Complete`.
    pub(crate) fn finish(&mut self)
        requires
            old(self).is_running(),
        ensures
            final(self).is_complete(),
            once_le(old(self).phase(), final(self).phase()),
    {
        self.state = OnceState::Complete;
    }

    /// Runs `f` if no call has completed yet; otherwise returns at
    /// once without touching `f`.
    ///
    /// A barrier left `Running` by a failed action would make this
    /// call wait forever, so that phase is excluded.
    pub fn call_once<F: FnOnce()>(&mut self, f: F)
        requires
            !old(self).is_running(),
            action_runs(old(self).phase()) ==> call_requires(f, ()),
        ensures
            final(self).phase() == phase_after_call(old(self).phase()),
            final(self).is_complete(),
            once_le(old(self).phase(), final(self).phase()),
            action_runs(old(self).phase()) ==> call_ensures(f, (), ()),
            old(self).is_complete() ==> *final(self) == *old(self),
    {
        if self.is_completed() {
            return;
        }
        self.begin();
        f();
        self.finish();
    }

    /// Whether some call to [`Self::call_once`] has completed. Never
    /// waits.
    pub fn is_completed(&self) -> (r: bool)
        ensures
            r == self.is_complete(),
    {
        self.state == OnceState::Complete
    }
}

impl Default for Once {
    /// A fresh barrier, the same as [`Once::new`].
    fn default() -> (r: Self)
        ensures
            r.is_incomplete(),
    {
        Once::new()
    }
}

/// Completion is monotonic: once the barrier has been observed
/// complete, no permitted advance of its phase can make that
/// observation false again.
pub proof fn lemma_completion_monotonic(a: OnceState, b: OnceState)
    requires
        once_le(a, b),
        a is Complete,
    ensures
        b is Complete,
{
}

/// Exactly once: starting from any phase a call may start in, the
/// action runs only on the call that finds the barrier untouched, the
/// barrier is complete afterwards, and no later call ever runs its
/// action again.
pub proof fn lemma_exactly_once(pre: OnceState)
    requires
        !(pre is Running),
    ensures
        action_runs(pre) <==> pre is Incomplete,
        phase_after_call(pre) is Complete,
        !action_runs(phase_after_call(pre)),
        once_le(pre, phase_after_call(pre)),
{
}

} // verus!
