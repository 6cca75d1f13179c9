//! The semaphore's atomic steps. Other threads change the word at any time,
//! so no proof here can know what a load or a read-modify-write returns: the
//! contracts say what holds whatever came back, and the decisions taken on
//! the values seen are the exact functions of `word` and the ones below.

use std::sync::atomic::{AtomicU64, Ordering};
use vstd::prelude::*;

use crate::word::{
    add_waiter, after_claim, after_take, claim_as_waiter, pack_word, permits, permits_of, take_permit,
    waiters, waiters_of, ONE_WAITER,
};

verus! {

/// Why an acquisition did not hand out a permit.
#[derive(Clone, Copy, Debug, PartialEq, Eq, Structural)]
pub enum WaitError {
    /// A signal disturbed the wait; the caller usually retries.
    Interrupted,
    /// A timed wait's deadline elapsed.
    TimedOut,
    /// No permit could be claimed without blocking.
    WouldBlock,
    /// The system failed in a way that has no kind of its own.
    Unknown,
}

/// What a waiter does next on its slow path.
#[derive(Clone, Copy, Debug, PartialEq, Eq, Structural)]
pub enum WaitStep {
    /// The permit was claimed and the waiter has left the waiter count.
    Acquired,
    /// No permit is available: park in the kernel until the permit half of
    /// the word stops being zero.
    Park,
    /// Another thread changed the word first: look again at this word.
    Retry(u64),
}

/// Whether a post that found `prev` in the word must wake a parked thread:
/// whether any waiter was registered.
pub open spec fn wakes(prev: u64) -> bool {
    waiters(prev) > 0
}

/// Computes `wakes`.
pub fn needs_wake(prev: u64) -> (r: bool)
    ensures
        r == wakes(prev),
{
    waiters_of(prev) > 0
}

/// The error that ends a slow path after a kernel park returned `outcome`:
/// an interruption, a timeout or a failure of no known kind; none for a wake,
/// a spurious return, or a park refused because the permit half was no longer
/// zero, after each of which the waiter looks at the word again.
pub open spec fn ending_error(outcome: Result<(), WaitError>) -> Option<WaitError> {
    match outcome {
        Err(WaitError::Interrupted) => Some(WaitError::Interrupted),
        Err(WaitError::TimedOut) => Some(WaitError::TimedOut),
        Err(WaitError::Unknown) => Some(WaitError::Unknown),
        _ => None,
    }
}

/// Computes `ending_error`.
pub fn park_error(outcome: Result<(), WaitError>) -> (r: Option<WaitError>)
    ensures
        r == ending_error(outcome),
{
    match outcome {
        Err(WaitError::Interrupted) => Some(WaitError::Interrupted),
        Err(WaitError::TimedOut) => Some(WaitError::TimedOut),
        Err(WaitError::Unknown) => Some(WaitError::Unknown),
        _ => None,
    }
}

/// A counting semaphore whose whole state is one packed atomic word.
pub struct Semaphore {
    data: AtomicU64,
}

impl Semaphore {
    /// A semaphore with `value` permits and no waiters.
    pub fn new(value: u32) -> (s: Semaphore) {
        Semaphore { data: AtomicU64::new(pack_word(0, value)) }
    }

    /// Claims a permit if one is available right now, with one load and at
    /// most one compare-and-swap: it never blocks and never retries, so it may
    /// report `WouldBlock` when it lost a race for a permit.
    pub fn try_wait(&self) -> (r: Result<(), WaitError>)
        ensures
            r is Ok || r == Err::<(), WaitError>(WaitError::WouldBlock),
    {
        self.try_claim(self.data.load(Ordering::Relaxed))
    }

    /// Tries once to take a permit from the word last seen as `d`: no permit
    /// on `d` gives `WouldBlock` with no change to the word; otherwise one
    /// compare-and-swap installs `after_take(d)`, and a word that moved in
    /// the meantime gives `WouldBlock` too.
    pub fn try_claim(&self, d: u64) -> (r: Result<(), WaitError>)
        ensures
            r is Ok || r == Err::<(), WaitError>(WaitError::WouldBlock),
            permits(d) == 0 ==> r == Err::<(), WaitError>(WaitError::WouldBlock),
            r is Ok ==> after_take(d) is Some,
    {
        match take_permit(d) {
            None => Err(WaitError::WouldBlock),
            Some(next) => match self.data.compare_exchange(d, next, Ordering::Acquire, Ordering::Relaxed) {
                Ok(_) => Ok(()),
                Err(_) => Err(WaitError::WouldBlock),
            },
        }
    }

    /// Adds one permit, with release ordering, and tells whether a parked
    /// thread has to be woken: whether the word held a waiter just before
    /// the permit was added.
    pub fn add_permit(&self) -> (wake: bool) {
        let prev = self.data.fetch_add(1, Ordering::Release);
        needs_wake(prev)
    }

    /// Registers the calling thread as a waiter and returns the word as it
    /// stood right after the registration.
    pub fn begin_wait(&self) -> (d: u64) {
        let prev = self.data.fetch_add(ONE_WAITER, Ordering::Relaxed);
        add_waiter(prev)
    }

    /// One step of the slow path of a registered waiter that last saw `d`.
    pub fn wait_step(&self, d: u64) -> (s: WaitStep)
        ensures
            s is Park <==> permits(d) == 0,
            s is Acquired ==> after_claim(d) is Some,
    {
        if permits_of(d) == 0 {
            return WaitStep::Park;
        }
        match claim_as_waiter(d) {
            None => WaitStep::Retry(self.data.load(Ordering::Relaxed)),
            Some(next) => match self.data.compare_exchange(d, next, Ordering::Acquire, Ordering::Relaxed) {
                Ok(_) => WaitStep::Acquired,
                Err(now) => WaitStep::Retry(now),
            },
        }
    }

    /// Takes the result of a kernel park. An interruption, a timeout or a
    /// failure of no known kind takes the waiter out of the waiter count and ends the wait with that error;
    /// any other result hands back a fresh look at the word.
    pub fn end_park(&self, outcome: Result<(), WaitError>) -> (r: Result<u64, WaitError>)
        ensures
            r is Err <==> ending_error(outcome) is Some,
            r is Err ==> r == Err::<u64, WaitError>(ending_error(outcome).unwrap()),
    {
        match park_error(outcome) {
            Some(e) => {
                self.data.fetch_sub(ONE_WAITER, Ordering::Relaxed);
                Err(e)
            },
            None => Ok(self.data.load(Ordering::Relaxed)),
        }
    }

    /// The atomic word itself, whose low half a kernel park or wake addresses.
    pub fn word(&self) -> (w: &AtomicU64) {
        &self.data
    }
}

} // verus!
