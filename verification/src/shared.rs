//! The decisions of the shared read-access protocol.
//!
//! A shielded value is exposed to any number of concurrent readers. A
//! single counter records the protocol state: bit 0 is a lock bit, and the
//! rest counts the readers, each of which adds two. A reader first sets the
//! lock bit and looks at the value that was there before; what it then does
//! depends on that value alone. The atomic operations and the busy wait are
//! carried out by the caller; this module decides.
use vstd::prelude::*;

verus! {

/// The number of readers recorded in a counter value.
pub open spec fn reader_count(state: int) -> int {
    state / 2
}

/// Whether the lock bit of a counter value is set.
pub open spec fn lock_held(state: int) -> bool {
    state % 2 == 1
}

/// The counter value after setting the lock bit (a `fetch_or(1)`).
pub open spec fn with_lock_bit(state: int) -> int {
    if state % 2 == 0 {
        state + 1
    } else {
        state
    }
}

/// The smallest counter value whose top bit is set.
pub open spec fn top_bit_value() -> int {
    usize::MAX / 2 + 1
}

/// What a new reader does, given the counter value it displaced when it set
/// the lock bit.
#[derive(Clone, Copy, Debug, PartialEq, Eq, Structural)]
pub enum AcquireStep {
    /// No reader was present: run the exposing action, then store
    /// `ACQUIRED_STATE` (one reader, lock bit clear).
    Acquire,
    /// Readers are present and the data is exposed: add one to the counter,
    /// which clears the lock bit just set and counts one more reader.
    Join,
    /// Another reader holds the lock bit: wait and try again.
    Wait,
    /// One more reader would reach the top bit of the counter.
    Exceeded,
}

/// What a leaving reader does, given the counter value it displaced when it
/// set the lock bit.
#[derive(Clone, Copy, Debug, PartialEq, Eq, Structural)]
pub enum ReleaseStep {
    /// This was the last reader: run the concealing action, then store zero.
    Release,
    /// The lock bit was clear: subtract three, removing the lock bit just
    /// set together with this reader.
    LeaveAcquired,
    /// Another reader holds the lock bit: subtract two, removing this reader
    /// only.
    LeaveLocked,
}

/// The counter value stored once the first reader has exposed the data.
pub const ACQUIRED_STATE: usize = 2;

/// The step a new reader takes after setting the lock bit over `prev`.
pub open spec fn acquire_decision(prev: int) -> AcquireStep {
    if prev == 0 {
        AcquireStep::Acquire
    } else if lock_held(prev) {
        AcquireStep::Wait
    } else if prev + 2 >= top_bit_value() {
        AcquireStep::Exceeded
    } else {
        AcquireStep::Join
    }
}

/// The step a leaving reader takes after setting the lock bit over `prev`.
pub open spec fn release_decision(prev: int) -> ReleaseStep {
    if prev == ACQUIRED_STATE {
        ReleaseStep::Release
    } else if lock_held(prev) {
        ReleaseStep::LeaveLocked
    } else {
        ReleaseStep::LeaveAcquired
    }
}

/// The amount a leaving reader subtracts from the counter, where it does
/// not release.
pub open spec fn decrement_of(step: ReleaseStep) -> int {
    match step {
        ReleaseStep::Release => 0,
        ReleaseStep::LeaveAcquired => 3,
        ReleaseStep::LeaveLocked => 2,
    }
}

/// Decide what a reader does after setting the lock bit over `prev`.
pub fn acquire_step(prev: usize) -> (step: AcquireStep)
    ensures
        step == acquire_decision(prev as int),
        step == AcquireStep::Acquire <==> prev == 0,
        step == AcquireStep::Wait <==> lock_held(prev as int),
        step == AcquireStep::Exceeded <==> (prev != 0 && !lock_held(prev as int) && prev + 2
            >= top_bit_value()),
        step == AcquireStep::Join <==> (prev != 0 && !lock_held(prev as int) && prev + 2
            < top_bit_value()),
{
    if prev == 0 {
        AcquireStep::Acquire
    } else if prev % 2 == 1 {
        AcquireStep::Wait
    } else if prev >= usize::MAX / 2 - 1 {
        AcquireStep::Exceeded
    } else {
        AcquireStep::Join
    }
}

/// Decide what a reader does when it leaves, after setting the lock bit over
/// `prev`.
pub fn release_step(prev: usize) -> (step: ReleaseStep)
    ensures
        step == release_decision(prev as int),
        step == ReleaseStep::Release <==> prev == ACQUIRED_STATE,
        step == ReleaseStep::LeaveAcquired <==> (prev != ACQUIRED_STATE && !lock_held(
            prev as int,
        )),
        step == ReleaseStep::LeaveLocked <==> lock_held(prev as int),
{
    if prev == ACQUIRED_STATE {
        ReleaseStep::Release
    } else if prev % 2 == 1 {
        ReleaseStep::LeaveLocked
    } else {
        ReleaseStep::LeaveAcquired
    }
}

/// The amount a leaving reader subtracts from the counter after setting the
/// lock bit, where it does not release.
pub fn release_decrement(step: ReleaseStep) -> (amount: usize)
    ensures
        amount == decrement_of(step),
{
    match step {
        ReleaseStep::Release => 0,
        ReleaseStep::LeaveAcquired => 3,
        ReleaseStep::LeaveLocked => 2,
    }
}

/// The counter value that a step of a new reader leaves, when no other
/// reader acts in between.
pub open spec fn state_after_acquire(prev: int, step: AcquireStep) -> int {
    match step {
        AcquireStep::Acquire => ACQUIRED_STATE as int,
        AcquireStep::Join => with_lock_bit(prev) + 1,
        AcquireStep::Wait => with_lock_bit(prev),
        AcquireStep::Exceeded => with_lock_bit(prev),
    }
}

/// The counter value that a leaving reader leaves, when no other reader acts
/// in between.
pub open spec fn state_after_release(prev: int, step: ReleaseStep) -> int {
    match step {
        ReleaseStep::Release => 0,
        _ => with_lock_bit(prev) - decrement_of(step),
    }
}

/// A reader that acquires or joins counts one more reader and leaves the
/// lock bit clear; a reader that waits, or that is refused, leaves the
/// counter as it found it.
pub proof fn law_acquire_counts_reader(prev: usize)
    ensures
        ({
            let step = acquire_decision(prev as int);
            let next = state_after_acquire(prev as int, step);
            &&& (step == AcquireStep::Acquire || step == AcquireStep::Join) ==> {
                &&& reader_count(next) == reader_count(prev as int) + 1
                &&& !lock_held(next)
            }
            &&& step == AcquireStep::Wait ==> next == prev
        }),
{
}

/// A leaving reader removes exactly one reader and leaves the lock bit as it
/// found it; the last reader returns the counter to zero.
pub proof fn law_release_removes_reader(prev: usize)
    requires
        reader_count(prev as int) >= 1,
    ensures
        ({
            let next = state_after_release(prev as int, release_decision(prev as int));
            &&& reader_count(next) == reader_count(prev as int) - 1
            &&& lock_held(next) == lock_held(prev as int)
        }),
{
}

/// Starting from an unused counter, one reader entering and then leaving
/// returns the counter to zero.
pub proof fn law_acquire_then_release()
    ensures
        ({
            let entered = state_after_acquire(0, acquire_decision(0));
            &&& entered == ACQUIRED_STATE
            &&& state_after_release(entered, release_decision(entered)) == 0
        }),
{
}

} // verus!
