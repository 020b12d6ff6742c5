use rustmade::input::{
    translate_report, DevicePoller, GamepadState, RawDeviceReport, BUTTON_A, BUTTON_BACK,
    BUTTON_B, BUTTON_DPAD_DOWN, BUTTON_DPAD_LEFT, BUTTON_DPAD_RIGHT, BUTTON_DPAD_UP,
    BUTTON_LEFT_SHOULDER, BUTTON_LEFT_THUMB, BUTTON_RIGHT_SHOULDER, BUTTON_RIGHT_THUMB,
    BUTTON_START, BUTTON_X, BUTTON_Y,
};

fn report_with_buttons(buttons: u16) -> RawDeviceReport {
    RawDeviceReport {
        buttons,
        left_trigger: 0,
        right_trigger: 0,
        thumb_lx: 0,
        thumb_ly: 0,
        thumb_rx: 0,
        thumb_ry: 0,
    }
}

#[test]
fn dpad_up_and_left_trigger_scenario() {
    let mut report = report_with_buttons(BUTTON_DPAD_UP);
    report.left_trigger = 200;
    let state = translate_report(&report);
    assert!(state.buttons.up);
    assert!(!state.buttons.down);
    assert!(!state.buttons.left);
    assert!(!state.buttons.right);
    assert!(!state.buttons.start);
    assert!(!state.buttons.back);
    assert!(!state.buttons.l_thumb);
    assert!(!state.buttons.r_thumb);
    assert!(!state.buttons.l_shoulder);
    assert!(!state.buttons.r_shoulder);
    assert!(!state.buttons.a);
    assert!(!state.buttons.b);
    assert!(!state.buttons.x);
    assert!(!state.buttons.y);
    assert_eq!(state.triggers.l_trigger, 200);
    assert_eq!(state.triggers.r_trigger, 0);
    assert_eq!(state.sticks.l_stick_x, 0);
    assert_eq!(state.sticks.l_stick_y, 0);
    assert_eq!(state.sticks.r_stick_x, 0);
    assert_eq!(state.sticks.r_stick_y, 0);
}

#[test]
fn every_button_bit_maps_to_its_flag() {
    let cases: [(u16, fn(&GamepadState) -> bool); 14] = [
        (BUTTON_DPAD_UP, |s| s.buttons.up),
        (BUTTON_DPAD_DOWN, |s| s.buttons.down),
        (BUTTON_DPAD_LEFT, |s| s.buttons.left),
        (BUTTON_DPAD_RIGHT, |s| s.buttons.right),
        (BUTTON_START, |s| s.buttons.start),
        (BUTTON_BACK, |s| s.buttons.back),
        (BUTTON_LEFT_THUMB, |s| s.buttons.l_thumb),
        (BUTTON_RIGHT_THUMB, |s| s.buttons.r_thumb),
        (BUTTON_LEFT_SHOULDER, |s| s.buttons.l_shoulder),
        (BUTTON_RIGHT_SHOULDER, |s| s.buttons.r_shoulder),
        (BUTTON_A, |s| s.buttons.a),
        (BUTTON_B, |s| s.buttons.b),
        (BUTTON_X, |s| s.buttons.x),
        (BUTTON_Y, |s| s.buttons.y),
    ];
    for (bit, flag) in cases {
        let state = translate_report(&report_with_buttons(bit));
        assert!(flag(&state), "bit {bit:#06x} should set exactly its flag");
        for (other_bit, other_flag) in cases {
            if other_bit != bit {
                assert!(!other_flag(&state), "bit {bit:#06x} must not set {other_bit:#06x}");
            }
        }
    }
}

#[test]
fn triggers_and_sticks_pass_through_verbatim() {
    let report = RawDeviceReport {
        buttons: 0,
        left_trigger: 255,
        right_trigger: 1,
        thumb_lx: -32768,
        thumb_ly: 32767,
        thumb_rx: -1,
        thumb_ry: 12345,
    };
    let state = translate_report(&report);
    assert_eq!(state.triggers.l_trigger, 255);
    assert_eq!(state.triggers.r_trigger, 1);
    assert_eq!(state.sticks.l_stick_x, -32768);
    assert_eq!(state.sticks.l_stick_y, 32767);
    assert_eq!(state.sticks.r_stick_x, -1);
    assert_eq!(state.sticks.r_stick_y, 12345);
}

#[test]
fn poll_updates_only_connected_slots() {
    let mut poller = DevicePoller::new(3);
    let mut report0 = report_with_buttons(BUTTON_A);
    report0.left_trigger = 10;
    let report2 = report_with_buttons(BUTTON_B);
    poller.poll(&vec![Some(report0), None, Some(report2)]);
    assert!(poller.snapshot(0).buttons.a);
    assert_eq!(poller.snapshot(0).triggers.l_trigger, 10);
    assert_eq!(poller.snapshot(1), GamepadState::default());
    assert!(poller.snapshot(2).buttons.b);

    poller.poll(&vec![None, None, None]);
    assert!(poller.snapshot(0).buttons.a, "disconnected slot keeps its previous snapshot");
    assert_eq!(poller.snapshot(0).triggers.l_trigger, 10);
    assert_eq!(poller.snapshot(1), GamepadState::default());
    assert!(poller.snapshot(2).buttons.b);
}

#[test]
fn each_device_index_owns_its_slot() {
    let mut poller = DevicePoller::new(2);
    let first = report_with_buttons(BUTTON_X);
    let second = report_with_buttons(BUTTON_Y);
    poller.poll(&vec![Some(first), Some(second)]);
    assert!(poller.snapshot(0).buttons.x);
    assert!(!poller.snapshot(0).buttons.y, "a later device must not overwrite an earlier slot");
    assert!(poller.snapshot(1).buttons.y);
    assert!(!poller.snapshot(1).buttons.x);
}

#[test]
fn new_poller_slots_are_neutral() {
    let poller = DevicePoller::new(4);
    assert_eq!(poller.slot_count(), 4);
    for i in 0..4 {
        let s = poller.snapshot(i);
        assert_eq!(s, GamepadState::default());
        assert!(!s.buttons.up && !s.buttons.a);
        assert_eq!(s.triggers.l_trigger, 0);
        assert_eq!(s.sticks.l_stick_x, 0);
    }
}
