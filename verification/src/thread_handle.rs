//! The handle that threads share, and the critical section behind it.

use crate::cell::created_with;
use crate::cell::held;
use crate::cell::load;
use crate::cell::lock;
use crate::cell::new_mutex;
use crate::cell::origin;
use crate::cell::park;
use crate::cell::share;
use crate::cell::store;
use crate::cell::Shared;
use crate::status::ThreadStatus;
use std::sync::Arc;
use std::sync::Condvar;
use std::sync::LockResult;
use std::sync::MutexGuard;
use std::sync::WaitTimeoutResult;
use vstd::prelude::*;

verus! {

/// How long a waiter sleeps before it looks at the status again, in
/// milliseconds.
pub const POLL_INTERVAL_MILLIS: u64 = 10;

/// The lock was poisoned: a thread panicked while it held it, so the status
/// behind it can no longer be trusted. No operation recovers from this.
#[derive(Clone, Copy, Debug, PartialEq, Eq, Structural)]
pub struct LockPoisoned;

/// A handle on one shared status cell. Copies made with `clone` are handles
/// on the same cell.
pub struct ThreadHandle {
    shared: Arc<Shared>,
}

/// The critical section of one cell: it exists while its owner holds the
/// lock, and its view is the status behind the lock. No section leaves this
/// file, so no thread ever asks for a lock that it holds.
pub(crate) struct Section<'a> {
    guard: MutexGuard<'a, ThreadStatus>,
    shared: &'a Shared,
}

impl<'a> View for Section<'a> {
    type V = ThreadStatus;

    closed spec fn view(&self) -> ThreadStatus {
        held(self.guard)
    }
}

impl<'a> Section<'a> {
    /// The guard is one of the mutex that stands beside the condition
    /// variable it will wait on.
    #[verifier::type_invariant]
    spec fn paired(self) -> bool {
        origin(self.guard) == self.shared.0
    }

    /// The cell that this is a critical section of.
    pub(crate) closed spec fn cell(self) -> Shared {
        *self.shared
    }

    /// What an attempt to take the lock of `shared` comes to: the critical
    /// section around the guard if the lock was given, `LockPoisoned` if it
    /// was not.
    pub(crate) fn of_lock(
        shared: &'a Shared,
        locked: LockResult<MutexGuard<'a, ThreadStatus>>,
    ) -> (result: Result<Section<'a>, LockPoisoned>)
        requires
            locked matches Ok(guard) ==> origin(guard) == shared.0,
        ensures
            match locked {
                Ok(guard) => {
                    &&& result matches Ok(section)
                    &&& section@ == held(guard)
                    &&& section.cell() == *shared
                },
                Err(_) => result == Err::<Section<'a>, LockPoisoned>(LockPoisoned),
            },
    {
        match locked {
            Ok(guard) => Ok(Section { guard, shared }),
            Err(_) => Err(LockPoisoned),
        }
    }

    /// Whether the initialization is complete.
    pub(crate) fn is_up(&self) -> (up: bool)
        ensures
            up == (self@ == ThreadStatus::Up),
    {
        load(&self.guard).is_up()
    }

    /// Claims the initialization. Returns `true`, and leaves `Pending`
    /// behind, if and only if the status was `Uninitialized`; otherwise the
    /// status stays as it was.
    pub(crate) fn claim(&mut self) -> (won: bool)
        ensures
            won == old(self)@.claimable(),
            final(self)@ == old(self)@.after_claim(),
            final(self)@.rank() >= old(self)@.rank(),
            final(self).cell() == old(self).cell(),
    {
        let mut status = load(&self.guard);
        let won = status.claim();
        if won {
            proof {
                use_type_invariant(&*self);
            }
            store(&mut self.guard, status);
        }
        won
    }

    /// Sets the status to `Up`, whatever it was, and wakes one waiter.
    pub(crate) fn announce(&mut self)
        ensures
            final(self)@ == old(self)@.after_announce(),
            final(self)@.rank() >= old(self)@.rank(),
            final(self).cell() == old(self).cell(),
    {
        let mut status = load(&self.guard);
        status.announce();
        proof {
            use_type_invariant(&*self);
        }
        store(&mut self.guard, status);
        self.shared.1.notify_one();
    }

    /// What a waiter hands over when it parks: the cell, the guard as it
    /// stands, with the status that the section found and nothing written to
    /// it, and the polling interval.
    pub(crate) fn for_park(self) -> (handed: (&'a Shared, MutexGuard<'a, ThreadStatus>, u64))
        ensures
            *handed.0 == self.cell(),
            held(handed.1) == self@,
            origin(handed.1) == handed.0.0,
            handed.2 == POLL_INTERVAL_MILLIS,
    {
        proof {
            use_type_invariant(&self);
        }
        (self.shared, self.guard, POLL_INTERVAL_MILLIS)
    }

    /// What a wait on the condition variable of `shared` comes to: the
    /// critical section around the guard that came back, with the status
    /// that the guard found, or `LockPoisoned` if the lock came back
    /// poisoned.
    pub(crate) fn of_park(
        shared: &'a Shared,
        parked: LockResult<(MutexGuard<'a, ThreadStatus>, WaitTimeoutResult)>,
    ) -> (result: Result<Section<'a>, LockPoisoned>)
        requires
            parked matches Ok(woken) ==> origin(woken.0) == shared.0,
        ensures
            match parked {
                Ok(woken) => {
                    &&& result matches Ok(section)
                    &&& section@ == held(woken.0)
                    &&& section.cell() == *shared
                },
                Err(_) => result == Err::<Section<'a>, LockPoisoned>(LockPoisoned),
            },
    {
        match parked {
            Ok(woken) => Ok(Section { guard: woken.0, shared }),
            Err(_) => Err(LockPoisoned),
        }
    }

    /// One round of waiting. Where the status is `Up` already, the section
    /// comes back as it is, at once. Otherwise the caller parks: it hands
    /// over what `for_park` says, gives the lock up and sleeps until woken
    /// or until the polling interval has passed. What the status is when
    /// the lock is taken again is for other threads to decide, and the
    /// caller has to look; `of_park` says what the answer comes to.
    pub(crate) fn await_up(self) -> (result: Result<Section<'a>, LockPoisoned>)
        ensures
            self@ == ThreadStatus::Up ==> result == Ok::<Section<'a>, LockPoisoned>(self),
            result matches Ok(section) ==> section.cell() == self.cell(),
    {
        if self.is_up() {
            return Ok(self);
        }
        let handed = self.for_park();
        Section::of_park(handed.0, park(handed.0, handed.1, handed.2))
    }

    /// A claim, given what entering gave: the error as it is; otherwise
    /// whether the status was `Uninitialized`, together with the section,
    /// in which the claim has then left `Pending` and in every other case
    /// the status that it found.
    pub(crate) fn claim_entered(entered: Result<Section<'a>, LockPoisoned>) -> (result: Result<
        (bool, Section<'a>),
        LockPoisoned,
    >)
        ensures
            match entered {
                Ok(section) => {
                    &&& result matches Ok(claimed)
                    &&& claimed.0 == section@.claimable()
                    &&& claimed.1@ == section@.after_claim()
                    &&& claimed.1@.rank() >= section@.rank()
                    &&& claimed.1.cell() == section.cell()
                },
                Err(poisoned) => result == Err::<(bool, Section<'a>), LockPoisoned>(poisoned),
            },
    {
        match entered {
            Ok(mut section) => {
                let won = section.claim();
                Ok((won, section))
            },
            Err(poisoned) => Err(poisoned),
        }
    }

    /// An announcement, given what entering gave: the error as it is;
    /// otherwise the section, in which the status is now `Up`, whatever it
    /// was, after one waiter has been woken.
    pub(crate) fn announce_entered(entered: Result<Section<'a>, LockPoisoned>) -> (result: Result<
        Section<'a>,
        LockPoisoned,
    >)
        ensures
            match entered {
                Ok(section) => {
                    &&& result matches Ok(announced)
                    &&& announced@ == ThreadStatus::Up
                    &&& announced@.rank() >= section@.rank()
                    &&& announced.cell() == section.cell()
                },
                Err(poisoned) => result == Err::<Section<'a>, LockPoisoned>(poisoned),
            },
    {
        match entered {
            Ok(mut section) => {
                section.announce();
                Ok(section)
            },
            Err(poisoned) => Err(poisoned),
        }
    }

    /// One round of waiting, given what entering gave: the error as it is;
    /// otherwise what `await_up` makes of the section.
    pub(crate) fn await_entered(entered: Result<Section<'a>, LockPoisoned>) -> (result: Result<
        Section<'a>,
        LockPoisoned,
    >)
        ensures
            match entered {
                Ok(section) => {
                    &&& section@ == ThreadStatus::Up ==> result == entered
                    &&& result matches Ok(after) ==> after.cell() == section.cell()
                },
                Err(_) => result == entered,
            },
    {
        match entered {
            Ok(section) => section.await_up(),
            Err(poisoned) => Err(poisoned),
        }
    }

    /// What a round of waiting reports, given what it ended with: the error
    /// as it is; otherwise whether the status is `Up`. It only looks: what
    /// it is given stays with the caller, as it was.
    pub(crate) fn report_up(waited: &Result<Section<'a>, LockPoisoned>) -> (result: Result<
        bool,
        LockPoisoned,
    >)
        ensures
            match *waited {
                Ok(section) => result == Ok::<bool, LockPoisoned>(section@ == ThreadStatus::Up),
                Err(poisoned) => result == Err::<bool, LockPoisoned>(poisoned),
            },
    {
        match waited {
            Ok(section) => Ok(section.is_up()),
            Err(poisoned) => Err(*poisoned),
        }
    }
}

impl ThreadHandle {
    /// The cell that this is a handle on. Two handles are handles on one
    /// cell, and see one status, exactly if this is the same for both.
    pub closed spec fn cell(self) -> Shared {
        *self.shared
    }

    /// The status that the cell of this handle was created with.
    pub closed spec fn created_as(self) -> ThreadStatus {
        created_with(self.shared.0)
    }

    /// A handle on a new cell, whose status is `Uninitialized`.
    pub fn new() -> (handle: Self)
        ensures
            handle.created_as() == ThreadStatus::Uninitialized,
    {
        ThreadHandle { shared: Arc::new((new_mutex(ThreadStatus::initial()), Condvar::new())) }
    }

    /// Takes the lock and enters the critical section of this handle's cell.
    /// Whether the lock is given or found poisoned is for the lock to say;
    /// `Section::of_lock` says what either answer comes to.
    fn enter(&self) -> (result: Result<Section<'_>, LockPoisoned>)
        ensures
            result matches Ok(section) ==> section.cell() == self.cell(),
    {
        let shared: &Shared = &self.shared;
        Section::of_lock(shared, lock(&shared.0))
    }

    /// Claims the initialization under the lock: `Ok(true)` if the cell was
    /// still `Uninitialized`, which this call has then made `Pending`, and
    /// `Ok(false)` if it was not, which is no error. What a claim finds is
    /// decided by the order in which the lock admits the callers, so of all
    /// the claims ever made on one cell at most one returns `Ok(true)`.
    pub fn thread_init(&self) -> (result: Result<bool, LockPoisoned>) {
        match Section::claim_entered(self.enter()) {
            Ok(claimed) => Ok(claimed.0),
            Err(poisoned) => Err(poisoned),
        }
    }

    /// Sets the status to `Up` under the lock, whatever it was, and wakes
    /// one waiter.
    pub fn notify_thread_up(&self) -> (result: Result<(), LockPoisoned>) {
        match Section::announce_entered(self.enter()) {
            Ok(_) => Ok(()),
            Err(poisoned) => Err(poisoned),
        }
    }

    /// One round of waiting for `Up`: takes the lock, returns `Ok(true)` at
    /// once if the status is `Up`, and otherwise sleeps for one polling
    /// interval at most, looks again and says what it saw. The status is
    /// never changed.
    ///
    /// A waiter repeats this until it returns `Ok(true)`. The repetition is
    /// left to the caller: it has no bound, since nobody may ever announce,
    /// so no measure shows that it ends.
    pub fn poll_thread_up(&self) -> (result: Result<bool, LockPoisoned>) {
        let waited = Section::await_entered(self.enter());
        Section::report_up(&waited)
    }
}

impl Clone for ThreadHandle {
    /// A second handle on the same cell.
    fn clone(&self) -> (copy: Self)
        ensures
            copy == *self,
            copy.cell() == self.cell(),
    {
        ThreadHandle { shared: share(&self.shared) }
    }
}

} // verus!
