use flex_alloc::shared::{
    acquire_step, release_decrement, release_step, AcquireStep, ReleaseStep, ACQUIRED_STATE,
};

#[test]
fn shared_first_reader_acquires() {
    assert_eq!(acquire_step(0), AcquireStep::Acquire);
    assert_eq!(ACQUIRED_STATE, 2);
}

#[test]
fn shared_later_readers_join() {
    assert_eq!(acquire_step(2), AcquireStep::Join);
    assert_eq!(acquire_step(8), AcquireStep::Join);
}

#[test]
fn shared_readers_wait_on_lock_bit() {
    assert_eq!(acquire_step(1), AcquireStep::Wait);
    assert_eq!(acquire_step(5), AcquireStep::Wait);
}

#[test]
fn shared_reader_limit() {
    let top = usize::MAX / 2 + 1;
    assert_eq!(acquire_step(top - 2), AcquireStep::Exceeded);
    assert_eq!(acquire_step(top - 4), AcquireStep::Join);
}

#[test]
fn shared_release_steps() {
    assert_eq!(release_step(2), ReleaseStep::Release);
    assert_eq!(release_step(6), ReleaseStep::LeaveAcquired);
    assert_eq!(release_step(7), ReleaseStep::LeaveLocked);
    assert_eq!(release_decrement(ReleaseStep::LeaveAcquired), 3);
    assert_eq!(release_decrement(ReleaseStep::LeaveLocked), 2);
    assert_eq!(release_decrement(ReleaseStep::Release), 0);
}

#[test]
fn shared_sequential_readers_return_to_zero() {
    // Three readers enter and leave one after another, with the counter
    // updated as the caller of the protocol does.
    let mut state: usize = 0;
    for _ in 0..3 {
        let prev = state;
        state |= 1;
        match acquire_step(prev) {
            AcquireStep::Acquire => state = ACQUIRED_STATE,
            AcquireStep::Join => state += 1,
            other => panic!("unexpected step {:?}", other),
        }
    }
    assert_eq!(state, 6);
    for _ in 0..3 {
        let prev = state;
        state |= 1;
        let step = release_step(prev);
        match step {
            ReleaseStep::Release => state = 0,
            _ => state -= release_decrement(step),
        }
    }
    assert_eq!(state, 0);
}
