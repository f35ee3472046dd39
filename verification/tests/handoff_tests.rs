use lib::handoff::{started, PollStep, SharedState};

#[test]
fn first_poll_starts_and_registers_waker() {
    let mut s: SharedState<&str, u8> = SharedState::new();
    let mut invoked = false;
    assert!(matches!(s.poll(&mut invoked, "w1"), PollStep::Start));
    assert!(invoked);
    assert_eq!(s.waker, Some("w1"));
    assert_eq!(s.result, None);
}

#[test]
fn later_polls_never_start_again() {
    let mut s: SharedState<&str, u8> = SharedState::new();
    let mut invoked = false;
    s.poll(&mut invoked, "w1");
    for _ in 0..3 {
        assert!(matches!(s.poll(&mut invoked, "w2"), PollStep::Pending));
        assert!(invoked);
    }
}

#[test]
fn pending_poll_registers_latest_waker() {
    let mut s: SharedState<&str, u8> = SharedState::new();
    let mut invoked = false;
    s.poll(&mut invoked, "w1");
    assert!(matches!(s.poll(&mut invoked, "w2"), PollStep::Pending));
    assert_eq!(s.waker, Some("w2"));
    assert_eq!(s.deliver(9), Some("w2"));
}

#[test]
fn delivered_outcome_returned_once() {
    let mut s: SharedState<&str, u8> = SharedState::new();
    let mut invoked = false;
    s.poll(&mut invoked, "w1");
    assert_eq!(s.deliver(42), Some("w1"));
    assert_eq!(s.waker, None);
    assert_eq!(s.result, Some(42));
    assert!(matches!(s.poll(&mut invoked, "w2"), PollStep::Ready(42)));
    assert_eq!(s.result, None);
    assert!(matches!(s.poll(&mut invoked, "w3"), PollStep::Pending));
}

#[test]
fn ready_poll_does_not_register_its_waker() {
    let mut s: SharedState<&str, u8> = SharedState::new();
    let mut invoked = false;
    s.poll(&mut invoked, "w1");
    s.deliver(1);
    assert!(matches!(s.poll(&mut invoked, "w2"), PollStep::Ready(1)));
    assert_eq!(s.waker, None);
}

#[test]
fn callback_wakes_once() {
    let mut s: SharedState<&str, u8> = SharedState::new();
    let mut invoked = false;
    s.poll(&mut invoked, "w1");
    assert_eq!(s.deliver(1), Some("w1"));
    assert_eq!(s.deliver(2), None);
}

#[test]
fn callback_before_any_waker_wakes_nothing() {
    let mut s: SharedState<&str, u8> = SharedState::new();
    assert_eq!(s.deliver(5), None);
    assert_eq!(s.result, Some(5));
}

#[test]
fn accepted_start_stays_pending() {
    let step: PollStep<Result<u8, i32>> = started(Ok(()));
    assert!(matches!(step, PollStep::Pending));
}

#[test]
fn failed_start_completes_with_error() {
    let step: PollStep<Result<u8, i32>> = started(Err(-3));
    assert!(matches!(step, PollStep::Ready(Err(-3))));
}

#[test]
fn complete_run_from_fresh_state() {
    let mut s: SharedState<&str, Result<u8, i32>> = SharedState::new();
    let mut invoked = false;
    assert!(matches!(s.poll(&mut invoked, "w1"), PollStep::Start));
    assert!(matches!(started::<u8, i32>(Ok(())), PollStep::Pending));
    assert_eq!(s.deliver(Ok(8)), Some("w1"));
    assert!(matches!(s.poll(&mut invoked, "w2"), PollStep::Ready(Ok(8))));
}

#[test]
fn many_polls_start_once_and_complete_once() {
    let mut s: SharedState<u32, u8> = SharedState::new();
    let mut invoked = false;
    let mut starts = 0;
    let mut readies = 0;
    for i in 0..10u32 {
        if i == 4 {
            s.deliver(9);
        }
        match s.poll(&mut invoked, i) {
            PollStep::Start => starts += 1,
            PollStep::Ready(r) => {
                assert_eq!(r, 9);
                readies += 1;
            }
            PollStep::Pending => {}
        }
    }
    assert_eq!(starts, 1);
    assert_eq!(readies, 1);
}
