use lib::handoff::{PollStep, SharedState};
use lib::message::{on_message, Message, MESSAGE_EVENT, MESSAGE_SYNC_POINT};

#[test]
fn kind_one_is_an_event() {
    let r: Result<Option<Message>, i32> = Message::from_callback(Ok(1), 0x1000);
    assert!(matches!(r, Ok(Some(Message::Event(e))) if e.handle() == 0x1000));
    assert_eq!(MESSAGE_EVENT, 1);
}

#[test]
fn kind_two_is_a_sync_point() {
    let r: Result<Option<Message>, i32> = Message::from_callback(Ok(2), 0x2000);
    assert!(matches!(r, Ok(Some(Message::SyncPoint(s))) if s.handle() == 0x2000));
    assert_eq!(MESSAGE_SYNC_POINT, 2);
}

#[test]
fn other_kinds_carry_no_message() {
    for kind in [0, 3, -1, i32::MAX, i32::MIN] {
        let r: Result<Option<Message>, i32> = Message::from_callback(Ok(kind), 0x3000);
        assert!(matches!(r, Ok(None)));
    }
}

#[test]
fn engine_error_is_handed_on() {
    let r: Result<Option<Message>, &str> = Message::from_callback(Err("engine stopped"), 0x1000);
    assert!(matches!(r, Err("engine stopped")));
}

#[test]
fn receive_callback_stores_message_and_wakes() {
    let mut shared: SharedState<u32, Result<Option<Message>, i32>> = SharedState::new();
    let mut invoked = false;
    assert!(matches!(shared.poll(&mut invoked, 7), PollStep::Start));
    let woken = on_message(&mut shared, Ok(2), 0x44);
    assert_eq!(woken, Some(7));
    assert!(shared.waker.is_none());
    let step = shared.poll(&mut invoked, 8);
    assert!(matches!(step, PollStep::Ready(Ok(Some(Message::SyncPoint(s)))) if s.handle() == 0x44));
    assert!(shared.result.is_none());
}

#[test]
fn receive_callback_with_error_completes_with_error() {
    let mut shared: SharedState<u32, Result<Option<Message>, i32>> = SharedState::new();
    let mut invoked = false;
    shared.poll(&mut invoked, 1);
    on_message(&mut shared, Err(-5), 0);
    assert!(matches!(shared.poll(&mut invoked, 2), PollStep::Ready(Err(-5))));
}
