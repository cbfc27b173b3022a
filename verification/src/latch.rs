//! The process-wide initialization latch for the secure-memory facility.
//!
//! The facility's setup must run exactly once per process, even when many
//! threads allocate for the first time at once. This module holds the
//! latch's state machine and its guarantees; the runtime that drives it
//! (a one-time-initialization primitive and the facility's own setup call)
//! lives outside the verified crate and feeds the outcomes back in as plain
//! values.
use vstd::prelude::*;

use crate::AllocError;

verus! {

/// The state of the one-time facility setup. It moves from `Uninitialized`
/// through `Initializing` to exactly one of the terminal states `Ready` or
/// `Failed`, and never leaves a terminal state: every later observer sees
/// the same outcome.
#[derive(Clone, Copy, Debug, PartialEq, Eq, Structural)]
pub enum InitState {
    /// No caller has begun the facility setup yet.
    Uninitialized,
    /// One caller is running the facility setup; everyone else waits.
    Initializing,
    /// The setup succeeded; allocations may proceed.
    Ready,
    /// The setup failed; every allocation fails with [`AllocError`].
    Failed,
}

impl InitState {
    /// Whether the latch has settled: the setup has finished, successfully
    /// or not, and the state will never change again.
    pub open spec fn is_terminal(self) -> bool {
        self is Ready || self is Failed
    }

    /// What observing the latch does: from `Uninitialized` it moves to
    /// `Initializing` and tells the caller to run the setup; from any other
    /// state it changes nothing and the caller must not run the setup.
    pub open spec fn spec_begin(self) -> (InitState, bool) {
        if self is Uninitialized {
            (InitState::Initializing, true)
        } else {
            (self, false)
        }
    }

    /// What recording the setup's outcome does: the one caller that was told
    /// to run the setup moves the latch from `Initializing` to `Ready` on
    /// success and to `Failed` on failure; in any other state recording
    /// changes nothing.
    pub open spec fn spec_complete(self, success: bool) -> InitState {
        if self is Initializing {
            if success {
                InitState::Ready
            } else {
                InitState::Failed
            }
        } else {
            self
        }
    }

    /// Observes the latch on the way into an allocation: the returned flag
    /// says whether this caller must run the facility setup, and the
    /// returned state is the latch's next state.
    pub fn begin(self) -> (r: (InitState, bool))
        ensures
            r == self.spec_begin(),
    {
        match self {
            InitState::Uninitialized => (InitState::Initializing, true),
            _ => (self, false),
        }
    }

    /// Records the facility setup's outcome in the latch.
    pub fn complete(self, success: bool) -> (r: InitState)
        ensures
            r == self.spec_complete(success),
    {
        match self {
            InitState::Initializing => if success {
                InitState::Ready
            } else {
                InitState::Failed
            },
            _ => self,
        }
    }
}

/// A settled latch never moves again: once the setup has finished, every
/// later observer — whether it arrived during or after the setup — sees the
/// same terminal state, is never told to run the setup again, and no further
/// recording can change the outcome. This is what makes concurrent first use
/// consistent: all callers see success, or all see the same failure.
pub proof fn lemma_terminal_state_stable(s: InitState, success: bool)
    requires
        s.is_terminal(),
    ensures
        s.spec_begin() == (s, false),
        s.spec_complete(success) == s,
{
}

/// The facility setup runs at most once: observing the latch tells a caller
/// to run the setup only from the untouched state, and doing so claims the
/// latch, so no second caller can ever be told the same.
pub proof fn lemma_setup_runs_once(s: InitState)
    ensures
        s.spec_begin().1 ==> s is Uninitialized && s.spec_begin().0 is Initializing,
        !(s.spec_begin().0 is Uninitialized),
{
}

/// Maps the facility's own setup return code to this allocator's error
/// taxonomy: any non-negative code (first-time success, or an earlier call
/// already succeeded) means the facility is usable, any negative code means
/// every allocation must fail.
pub fn init_outcome(code: i32) -> (r: Result<(), AllocError>)
    ensures
        r is Ok <==> code >= 0,
{
    if code >= 0 {
        Ok(())
    } else {
        Err(AllocError)
    }
}

} // verus!
