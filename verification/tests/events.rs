use rustmade::events::{
    dispatch, pump_nonblocking, DispatchAction, RunningFlag, WindowMessage,
};

#[test]
fn pump_of_empty_queue_dispatches_nothing() {
    let mut flag = RunningFlag::new(true);
    let result = pump_nonblocking(&mut flag, &Vec::new());
    assert_eq!(result.processed, 0);
    assert!(result.actions.is_empty());
    assert!(flag.is_set());
}

#[test]
fn close_message_clears_the_running_flag() {
    let mut flag = RunningFlag::new(true);
    let messages = vec![WindowMessage::Key(65), WindowMessage::Close, WindowMessage::PaintRequest];
    let result = pump_nonblocking(&mut flag, &messages);
    assert_eq!(result.processed, 3);
    assert_eq!(
        result.actions,
        vec![DispatchAction::LogKey(65), DispatchAction::Handled, DispatchAction::Present]
    );
    assert!(!flag.is_set());
}

#[test]
fn destroy_message_clears_the_running_flag() {
    let mut flag = RunningFlag::new(true);
    let result = pump_nonblocking(&mut flag, &vec![WindowMessage::Destroy]);
    assert_eq!(result.processed, 1);
    assert!(!flag.is_set());
}

#[test]
fn each_message_kind_reaches_exactly_its_handler() {
    let mut flag = RunningFlag::new(true);
    assert_eq!(dispatch(&mut flag, &WindowMessage::Key(13)), DispatchAction::LogKey(13));
    assert!(flag.is_set());
    assert_eq!(dispatch(&mut flag, &WindowMessage::PointerButton), DispatchAction::LogPointer);
    assert!(flag.is_set());
    assert_eq!(dispatch(&mut flag, &WindowMessage::PaintRequest), DispatchAction::Present);
    assert!(flag.is_set());
    assert_eq!(dispatch(&mut flag, &WindowMessage::Other), DispatchAction::ForwardToSystem);
    assert!(flag.is_set());
    assert_eq!(dispatch(&mut flag, &WindowMessage::Close), DispatchAction::Handled);
    assert!(!flag.is_set());
}

#[test]
fn cleared_flag_stays_cleared_through_a_quiet_pump() {
    let mut flag = RunningFlag::new(true);
    flag.clear();
    let result = pump_nonblocking(&mut flag, &vec![WindowMessage::Key(1)]);
    assert_eq!(result.processed, 1);
    assert!(!flag.is_set());
}
