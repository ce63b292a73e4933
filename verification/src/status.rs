//! The status of an initialization and the transitions it can make.

use vstd::prelude::*;

verus! {

/// How far the initialization has come. The three values are passed through
/// in the order in which they are written, and never backwards.
#[derive(Clone, Copy, Debug, PartialEq, Eq, Structural)]
pub enum ThreadStatus {
    /// Nobody has claimed the initialization yet.
    Uninitialized,
    /// One caller has claimed it and is at work.
    Pending,
    /// The initialization is complete. Nothing leads out of this status.
    Up,
}

impl ThreadStatus {
    /// The position of a status in the progression: 0, 1 or 2.
    pub open spec fn rank(self) -> nat {
        match self {
            ThreadStatus::Uninitialized => 0,
            ThreadStatus::Pending => 1,
            ThreadStatus::Up => 2,
        }
    }

    /// Whether a claim made in this status succeeds.
    pub open spec fn claimable(self) -> bool {
        self is Uninitialized
    }

    /// The status that a claim leaves behind: `Pending` where the claim
    /// succeeds, the status as it was where it does not.
    pub open spec fn after_claim(self) -> ThreadStatus {
        if self.claimable() {
            ThreadStatus::Pending
        } else {
            self
        }
    }

    /// The status that an announcement leaves behind, whatever came before.
    pub open spec fn after_announce(self) -> ThreadStatus {
        ThreadStatus::Up
    }

    /// The status in which every cell starts.
    pub fn initial() -> (status: ThreadStatus)
        ensures
            status == ThreadStatus::Uninitialized,
    {
        ThreadStatus::Uninitialized
    }

    /// Claims the initialization: the first claim moves the status to
    /// `Pending` and returns `true`; any other returns `false` and changes
    /// nothing.
    pub fn claim(&mut self) -> (won: bool)
        ensures
            won == old(self).claimable(),
            *final(self) == old(self).after_claim(),
            final(self).rank() >= old(self).rank(),
    {
        match *self {
            ThreadStatus::Uninitialized => {
                *self = ThreadStatus::Pending;
                true
            },
            _ => false,
        }
    }

    /// Announces that the initialization is complete.
    pub fn announce(&mut self)
        ensures
            *final(self) == old(self).after_announce(),
            final(self).rank() >= old(self).rank(),
    {
        *self = ThreadStatus::Up;
    }

    /// Whether the initialization is complete.
    pub fn is_up(&self) -> (up: bool)
        ensures
            up == (*self == ThreadStatus::Up),
    {
        match *self {
            ThreadStatus::Up => true,
            _ => false,
        }
    }
}

} // verus!
