//! The close-once lifecycle of an owned socket descriptor.
//!
//! A descriptor must be closed exactly once, when its last owner goes away.
//! The shell's owner type holds a guard and asks it, on destruction, whether
//! the close call is still owed; the guard's answer flips to no the moment
//! it is given, so no sequence of release calls ever orders a second close.

use vstd::prelude::*;

verus! {

/// Tracks whether an owned descriptor's one close has been ordered yet.
#[derive(Debug)]
pub struct CloseGuard {
    released: bool,
}

/// What one release does to the guard: a close is ordered if and only if
/// none was ordered before, and afterwards one always has been. The pair is
/// (close now, released afterwards).
pub open spec fn spec_release(released: bool) -> (bool, bool) {
    (!released, true)
}

impl CloseGuard {
    /// Whether the guard has already ordered the close.
    pub closed spec fn released(self) -> bool {
        self.released
    }

    /// A guard for a freshly owned descriptor: nothing released yet.
    pub fn new() -> (g: CloseGuard)
        ensures
            !g.released(),
    {
        CloseGuard { released: false }
    }

    /// Gives up the descriptor: returns whether the caller must close it
    /// now, which is the case exactly once over the guard's lifetime.
    pub fn release(&mut self) -> (close_now: bool)
        ensures
            close_now == spec_release(old(self).released()).0,
            final(self).released() == spec_release(old(self).released()).1,
    {
        let close_now = !self.released;
        self.released = true;
        close_now
    }
}

/// Close-once law: the first release of a fresh guard orders the close, and
/// a release after any earlier release never does — the close operation is
/// invoked exactly once however often the guard is asked.
pub proof fn lemma_close_exactly_once(released: bool)
    ensures
        spec_release(false).0,
        !spec_release(spec_release(released).1).0,
{
}

} // verus!
