use yield_once::pending_once;
use yield_once::PendingOnce;
use yield_once::PollResult;

#[test]
fn first_poll_suspends() {
    let mut a = pending_once();
    assert_eq!(a.poll(), PollResult::Pending);
}

#[test]
fn single_instance_lifecycle() {
    let mut a = pending_once();
    assert_eq!(a.poll(), PollResult::Pending);
    assert_eq!(a.poll(), PollResult::Ready(()));
    assert_eq!(a.poll(), PollResult::Ready(()));
}

#[test]
fn repeated_polling_never_suspends_again() {
    let mut a = pending_once();
    assert_eq!(a.poll(), PollResult::Pending);
    let mut i: u32 = 0;
    while i < 10 {
        assert_eq!(a.poll(), PollResult::Ready(()));
        i += 1;
    }
}

#[test]
fn poll_never_fails() {
    let mut a = pending_once();
    let mut i: u32 = 0;
    while i < 5 {
        let r = a.poll();
        assert!(matches!(r, PollResult::Pending | PollResult::Ready(())));
        i += 1;
    }
}

#[test]
fn two_instances_independent() {
    let mut a = pending_once();
    let mut b = pending_once();
    assert_eq!(a.poll(), PollResult::Pending);
    assert_eq!(b.poll(), PollResult::Pending);
    assert_eq!(a.poll(), PollResult::Ready(()));
    assert_eq!(b.poll(), PollResult::Ready(()));
}

// A minimal two-step suspendable routine: it yields once through the
// primitive, then produces a fixed value.
fn poll_routine(gate: &mut PendingOnce) -> Option<u64> {
    match gate.poll() {
        PollResult::Pending => None,
        PollResult::Ready(()) => Some(42),
    }
}

#[test]
fn two_step_routine_yields_once_then_returns_42() {
    let mut gate = pending_once();
    let mut suspend_count: u32 = 0;
    let value: u64;
    // A trivial single-task poll loop: on suspension, re-queue immediately.
    loop {
        match poll_routine(&mut gate) {
            None => {
                suspend_count += 1;
            }
            Some(v) => {
                value = v;
                break;
            }
        }
    }
    assert_eq!(suspend_count, 1);
    assert_eq!(value, 42);
}
