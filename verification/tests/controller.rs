use vexide_devices::competition::CompetitionMode;
use vexide_devices::controller::{
    ButtonState, Controller, ControllerConnection, ControllerError, ControllerId,
    ControllerReadings, JoystickState, MAX_LINES,
};

fn readings(a: i32, b: i32) -> ControllerReadings {
    ControllerReadings {
        axis1: 10,
        axis2: -20,
        axis3: 300,
        axis4: -5,
        button_a: a,
        button_b: b,
        button_x: 0,
        button_y: 0,
        button_up: 0,
        button_down: 0,
        button_left: 0,
        button_right: 0,
        button_l1: 1,
        button_l2: 0,
        button_r1: 0,
        button_r2: 0,
    }
}

#[test]
fn state_reports_button_edges_between_reads() {
    let mut c = Controller::new(ControllerId::Primary);
    let s1 = c
        .state(CompetitionMode::Driver, 1, readings(1, 0))
        .unwrap();
    assert!(s1.button_a.is_pressed());
    assert!(s1.button_a.is_now_pressed());
    assert!(s1.button_b.is_released());
    let s2 = c
        .state(CompetitionMode::Driver, 2, readings(1, 1))
        .unwrap();
    assert!(s2.button_a.is_pressed());
    assert!(!s2.button_a.is_now_pressed());
    assert!(s2.button_b.is_now_pressed());
    let s3 = c
        .state(CompetitionMode::Driver, 2, readings(0, 1))
        .unwrap();
    assert!(s3.button_a.is_now_released());
    assert!(!s3.button_b.is_now_released());
}

#[test]
fn state_reads_joysticks_as_low_bytes() {
    let mut c = Controller::new(ControllerId::Partner);
    let s = c.state(CompetitionMode::Driver, 1, readings(0, 0)).unwrap();
    assert_eq!(s.right_stick.x_raw(), 10);
    assert_eq!(s.right_stick.y_raw(), -20);
    assert_eq!(s.left_stick.y_raw(), 300i32 as i8);
    assert_eq!(s.left_stick.x_raw(), -5);
    // Only L1 is pressed: the front left trigger.
    assert!(s.front_left_trigger.is_pressed());
    assert!(!s.back_left_trigger.is_pressed());
    assert!(!s.front_right_trigger.is_pressed());
    assert!(!s.back_right_trigger.is_pressed());
}

#[test]
fn state_refused_outside_driver_control_or_offline() {
    let mut c = Controller::new(ControllerId::Primary);
    assert_eq!(
        c.state(CompetitionMode::Autonomous, 1, readings(1, 1)).err(),
        Some(ControllerError::CompetitionControl)
    );
    assert_eq!(
        c.state(CompetitionMode::Driver, 0, readings(1, 1)).err(),
        Some(ControllerError::Offline)
    );
    let s = c.state(CompetitionMode::Driver, 1, readings(1, 0)).unwrap();
    assert!(s.button_a.is_now_pressed());
}

#[test]
fn defaults_are_released_and_centered() {
    let b = ButtonState::default();
    assert!(b.is_released());
    assert!(!b.is_now_pressed());
    let j = JoystickState::default();
    assert_eq!((j.x_raw(), j.y_raw()), (0, 0));
}

#[test]
fn screen_text_writes_and_errors() {
    let mut c = Controller::new(ControllerId::Partner);
    let w = c.screen.set_text("hi", 0, 2, 1).unwrap();
    assert_eq!(w.controller, 1);
    assert_eq!((w.line, w.col), (1, 3));
    assert_eq!(w.text, b"hi".to_vec());
    assert_eq!(
        c.screen.set_text("hi", 0, 14, 1).err(),
        Some(ControllerError::InvalidLine)
    );
    assert_eq!(
        c.screen.set_text("a\0b", 1, 0, 1).err(),
        Some(ControllerError::NonTerminatingNul)
    );
    assert_eq!(
        c.screen.set_text("hi", 0, 0, 0).err(),
        Some(ControllerError::Offline)
    );
    let ws = c.screen.clear_screen(2).unwrap();
    assert_eq!(ws.len(), MAX_LINES);
    assert_eq!(ws[1].line, 2);
    assert!(ws[1].text.is_empty());
}

#[test]
fn rumble_writes_pattern_on_line_four() {
    let mut c = Controller::new(ControllerId::Primary);
    let w = c.rumble(".-", 1).unwrap();
    assert_eq!((w.controller, w.line, w.col), (0, 4, 1));
    assert_eq!(w.text, b".-".to_vec());
}

#[test]
fn battery_and_connection() {
    let c = Controller::new(ControllerId::Primary);
    assert_eq!(c.battery_capacity(1, 80), Ok(80));
    assert_eq!(c.battery_level(0, 80), Err(ControllerError::Offline));
    assert_eq!(c.connection(2), ControllerConnection::VexNet);
    assert_eq!(ControllerConnection::Tethered.into_raw(), 1);
    assert_eq!(c.id(), ControllerId::Primary);
}
