//! Polling a future from the game's update loop: a future is polled only
//! after it has been woken.
use vstd::prelude::*;

verus! {

/// Whether a pollable future has been woken since it was last polled.
#[derive(Debug, Clone, Copy, PartialEq, Eq)]
pub struct PollableWaker {
    pub awake: bool,
}

impl PollableWaker {
    /// A waker that is awake, so that the first poll happens.
    pub fn new() -> (r: Self)
        ensures
            r.awake,
    {
        PollableWaker { awake: true }
    }

    /// Marks the future as woken.
    pub fn wake(&mut self)
        ensures
            final(self).awake,
    {
        self.awake = true;
    }
}

/// One poll decision on a waker whose flag is `awake`: whether the future is
/// polled, and the flag afterwards.
pub open spec fn poll_step(awake: bool) -> (bool, bool) {
    if awake {
        (true, false)
    } else {
        (false, false)
    }
}

/// A future together with its wake state.
pub struct Pollable<F> {
    pub future: F,
    pub waker: PollableWaker,
}

impl<F> Pollable<F> {
    /// A pollable future, awake.
    pub fn new(future: F) -> (r: Self)
        ensures
            r.future == future,
            r.waker.awake,
    {
        Pollable { future, waker: PollableWaker::new() }
    }

    /// Decides whether to poll the future now: only when it was woken; a
    /// poll consumes the wake-up.
    pub fn begin_poll(&mut self) -> (poll_now: bool)
        ensures
            (poll_now, final(self).waker.awake) == poll_step(old(self).waker.awake),
            final(self).future == old(self).future,
    {
        if !self.waker.awake {
            return false;
        }
        self.waker.awake = false;
        true
    }
}

/// A future is polled at most once per wake-up: of two polls in a row, the
/// second does not poll; a wake-up between them makes it poll.
pub proof fn lemma_one_poll_per_wake(awake: bool)
    ensures
        !poll_step(poll_step(awake).1).0,
        poll_step(true).0,
{
}

/// The wake state of `block_on`: woken flag and the condition that wakes the
/// blocked thread.
#[derive(Debug, Clone, Copy, PartialEq, Eq)]
pub struct BlockOnWaker {
    pub awake: bool,
}

impl BlockOnWaker {
    /// A waker that is not awake.
    pub fn new() -> (r: Self)
        ensures
            !r.awake,
    {
        BlockOnWaker { awake: false }
    }

    /// Whether `block_on` keeps waiting after a pending poll: while the flag
    /// is not set. Waking only notifies the condition; it does not set the flag.
    pub fn keeps_waiting(&self) -> (r: bool)
        ensures
            r == !self.awake,
    {
        !self.awake
    }
}

} // verus!
