use core::time::Duration;

use vexide_devices::adi::addrled::AdiAddrLed;
use vexide_devices::adi::digital::{AdiDigitalIn, AdiDigitalOut, LogicLevel};
use vexide_devices::adi::encoder::AdiEncoder;
use vexide_devices::adi::gyroscope::{AdiGyroscope, CalibrationPoll, YawError, CALIBRATING_MAGIC};
use vexide_devices::adi::range_finder::AdiRangeFinder;
use vexide_devices::adi::solenoid::AdiSolenoid;
use vexide_devices::adi::ultrasonic::{AdiUltrasonic, UltrasonicError};
use vexide_devices::adi::{adi_port_name, AdiDeviceType, AdiPort, AdiValueWrite};
use vexide_devices::color::Color;
use vexide_devices::smart::PortError;

const ADI: u8 = 12;

#[test]
fn adi_port_indices_and_expander_checks() {
    let brain = AdiPort::new(3, None);
    assert_eq!((brain.index(), brain.expander_index()), (2, 21));
    assert_eq!(brain.validate_expander(ADI), Ok(()));
    assert_eq!(
        brain.validate_expander(0),
        Err(PortError::Disconnected { port: 22 })
    );
    let ext = AdiPort::new(8, Some(5));
    assert_eq!((ext.index(), ext.expander_index()), (7, 4));
    let cfg = ext.configure(AdiDeviceType::DigitalOut);
    assert_eq!((cfg.expander_index, cfg.index, cfg.config), (4, 7, AdiDeviceType::DigitalOut));
    assert_eq!(
        ext.checked_write(ADI, 9),
        Ok(AdiValueWrite { expander_index: 4, index: 7, value: 9 })
    );
    assert_eq!(ext.configured_type(ADI, 14), Ok(AdiDeviceType::Encoder));
    assert_eq!(adi_port_name(1), 'A');
    assert_eq!(adi_port_name(8), 'H');
}

#[test]
fn adi_device_type_codes_round_trip() {
    for raw in 0..=255u8 {
        assert_eq!(AdiDeviceType::from_raw(raw).into_raw(), raw);
    }
    assert_eq!(AdiDeviceType::from_raw(255), AdiDeviceType::Undefined);
    assert_eq!(AdiDeviceType::RangeFinder.into_raw(), 15);
}

#[test]
fn digital_out_toggles() {
    let (mut out, w) = AdiDigitalOut::with_initial_level(AdiPort::new(1, None), LogicLevel::High);
    assert_eq!(w.value, 1);
    assert_eq!(out.set_low(ADI).map(|w| w.value), Ok(0));
    assert_eq!(out.toggle(ADI, 0).map(|w| w.value), Ok(1));
    assert_eq!(out.level(ADI, 1), Ok(LogicLevel::High));
    let input = AdiDigitalIn::new(AdiPort::new(2, None));
    assert_eq!(input.is_high(ADI, 0), Ok(false));
    assert_eq!(LogicLevel::from_raw(5), LogicLevel::High);
    assert_eq!(LogicLevel::High.not(), LogicLevel::Low);
}

#[test]
fn solenoid_toggle_twice_returns_to_start() {
    let mut s = AdiSolenoid::new(AdiPort::new(4, None));
    assert!(s.is_closed());
    let (cfg, w) = s.toggle(ADI).unwrap();
    assert_eq!(cfg.config, AdiDeviceType::DigitalOut);
    assert_eq!(w.value, 1);
    assert!(s.is_open());
    assert!(s.toggle(0).is_err());
    assert!(s.is_open());
    s.toggle(ADI).unwrap();
    assert_eq!(s.level(), LogicLevel::Low);
}

#[test]
fn encoder_pairs_and_position() {
    let mut e: AdiEncoder<360> = AdiEncoder::new(AdiPort::new(2, None), AdiPort::new(1, None));
    assert_eq!(e.configuration().index, 0);
    assert_eq!(e.position(ADI, 42), Ok(42));
    assert_eq!(e.set_position(-7, ADI).map(|w| (w.index, w.value)), Ok((1, -7)));
    assert_eq!(e.reset_position(ADI).map(|w| w.value), Ok(0));
}

#[test]
fn range_finder_and_ultrasonic() {
    let r = AdiRangeFinder::new(AdiPort::new(5, None), AdiPort::new(6, None));
    assert_eq!(r.distance(ADI, -1), Ok(None));
    assert_eq!(r.distance(ADI, 120), Ok(Some(120)));
    // Ping on A, echo on B directly above it.
    let u = AdiUltrasonic::new((AdiPort::new(1, None), AdiPort::new(2, None))).unwrap();
    assert_eq!(u.distance(ADI, -1), Err(UltrasonicError::NoReading));
    assert_eq!(u.distance(ADI, 33), Ok(33));
    assert!(AdiUltrasonic::new((AdiPort::new(7, None), AdiPort::new(8, None))).is_ok());
    assert_eq!(
        AdiUltrasonic::new((AdiPort::new(2, None), AdiPort::new(1, None))).err(),
        Some(UltrasonicError::BadPingPort)
    );
    assert_eq!(
        AdiUltrasonic::new((AdiPort::new(3, None), AdiPort::new(2, None))).err(),
        Some(UltrasonicError::BadEchoPort)
    );
    assert_eq!(
        AdiUltrasonic::new((AdiPort::new(1, Some(3)), AdiPort::new(2, None))).err(),
        Some(UltrasonicError::ExpanderPortMismatch)
    );
}

#[test]
fn gyroscope_calibration_writes_duration_in_millis() {
    let mut g = AdiGyroscope::new(AdiPort::new(3, None));
    let mut cal = g.calibrate(Duration::from_millis(1500));
    assert_eq!(
        cal.poll(&g, ADI, 0),
        CalibrationPoll::Pending(Some(AdiValueWrite { expander_index: 21, index: 2, value: 1500 }))
    );
    assert_eq!(cal.poll(&g, ADI, 0), CalibrationPoll::Pending(None));
    assert_eq!(cal.poll(&g, ADI, CALIBRATING_MAGIC), CalibrationPoll::Pending(None));
    assert_eq!(cal.poll(&g, ADI, 17), CalibrationPoll::Ready(Ok(())));
    assert_eq!(g.yaw(ADI, CALIBRATING_MAGIC, 5), Err(YawError::StillCalibrating));
    assert_eq!(g.yaw(ADI, 0, 905), Ok(905));
}

#[test]
fn addressable_leds_buffer() {
    let mut strip: AdiAddrLed<4> = AdiAddrLed::new(AdiPort::new(7, None));
    let red = Color::new(255, 0, 0);
    let (n, w) = strip.set_buffer(&[red, red], ADI).unwrap();
    assert_eq!(n, 2);
    assert_eq!(w.buffer, vec![red.into_raw(), red.into_raw(), 0, 0]);
    let w = strip.set_pixel(3, red, ADI).unwrap();
    assert_eq!((w.offset, w.buffer.clone()), (3, vec![red.into_raw()]));
    let w = strip.set_all(red, ADI).unwrap();
    assert_eq!(w.buffer.len(), 4);
    assert!(strip.set_all(red, 0).is_err());
}
