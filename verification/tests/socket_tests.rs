use lib::handoff::{PollStep, SharedState};
use lib::socket::{on_bound, Socket};

#[test]
fn bind_success_gives_socket_with_handle() {
    let r: Result<Socket, i32> = Socket::from_bind_outcome(Ok(0xabc));
    assert!(matches!(r, Ok(s) if s.handle() == 0xabc));
}

#[test]
fn bind_error_is_handed_on() {
    let r: Result<Socket, i32> = Socket::from_bind_outcome(Err(12));
    assert!(matches!(r, Err(12)));
}

#[test]
fn bind_callback_completes_pending_bind() {
    let mut shared: SharedState<u8, Result<Socket, i32>> = SharedState::new();
    let mut invoked = false;
    assert!(matches!(shared.poll(&mut invoked, 1), PollStep::Start));
    assert!(matches!(shared.poll(&mut invoked, 2), PollStep::Pending));
    assert_eq!(on_bound(&mut shared, Ok(77)), Some(2));
    assert!(matches!(shared.poll(&mut invoked, 3), PollStep::Ready(Ok(s)) if s.handle() == 77));
}
