use core::time::Duration;

use vexide_devices::smart::distance::{DistanceObjectError, DistanceSensor};
use vexide_devices::smart::electromagnet::Electromagnet;
use vexide_devices::smart::imu::{
    ImuCalibrationPoll, InertialError, InertialOrientation, InertialSensor, CALIBRATING,
};
use vexide_devices::smart::link::{LinkError, LinkType, RadioLink};
use vexide_devices::smart::motor::{
    BrakeMode, Direction, Gearset, Motor, MotorAction, MotorCommand, MotorControl, MotorError,
    MotorSetup, MotorType, DRIVER_OVER_CURRENT, OVER_CURRENT,
};
use vexide_devices::smart::optical::{
    integration_time_word, GestureDirection, GestureRecord, OpticalSensor,
};
use vexide_devices::smart::rotation::{computation_interval_word, RotationSensor};
use vexide_devices::smart::serial::{SerialError, SerialPort};
use vexide_devices::smart::{validate_port, PortError, SmartDeviceType, SmartPort};

const MOTOR: u8 = 2;
const ROTATION: u8 = 4;
const IMU: u8 = 6;
const DISTANCE: u8 = 7;
const OPTICAL: u8 = 16;

#[test]
fn smart_device_type_codes_round_trip() {
    for raw in 0..=255u8 {
        assert_eq!(SmartDeviceType::from_raw(raw).into_raw(), raw);
    }
    assert_eq!(SmartDeviceType::from_raw(29), SmartDeviceType::AiVision);
    assert_eq!(SmartDeviceType::from_raw(200), SmartDeviceType::Unknown(200));
}

#[test]
fn validate_port_reports_each_error() {
    assert_eq!(validate_port(3, SmartDeviceType::Motor, MOTOR), Ok(()));
    assert_eq!(
        validate_port(3, SmartDeviceType::Motor, 0),
        Err(PortError::Disconnected { port: 3 })
    );
    assert_eq!(
        validate_port(3, SmartDeviceType::Motor, IMU),
        Err(PortError::IncorrectDevice {
            expected: SmartDeviceType::Motor,
            actual: SmartDeviceType::Imu,
            port: 3
        })
    );
    let p = SmartPort::new(4);
    assert_eq!(p.index(), 3);
    assert_eq!(p.device_type(0), None);
    assert_eq!(p.timestamp(MOTOR, 1234), Some(1234));
    assert_eq!(p.timestamp(0, 1234), None);
}

#[test]
fn motor_new_gives_setup() {
    let (m, setup) = Motor::<f64, f64>::new(SmartPort::new(1), Gearset::Blue, Direction::Reverse, 0.0);
    assert_eq!(setup, MotorSetup { reverse: true, gearset: Gearset::Blue });
    assert_eq!(m.target(), MotorControl::Voltage(0.0));
    assert!(m.is_v5());
    let (e, setup) = Motor::<f64, f64>::new_exp(SmartPort::new(2), Direction::Forward, 0.0);
    assert_eq!(setup, MotorSetup { reverse: false, gearset: Gearset::Green });
    assert_eq!(e.motor_type(), MotorType::Exp);
}

#[test]
fn motor_targets_become_commands() {
    let (mut m, _) = Motor::<f64, f64>::new(SmartPort::new(1), Gearset::Red, Direction::Forward, 0.0);
    assert_eq!(
        m.brake(BrakeMode::Hold, MOTOR, 0),
        Ok(MotorCommand { brake_mode: BrakeMode::Hold, action: MotorAction::Velocity(0) })
    );
    assert_eq!(m.target(), MotorControl::Brake(BrakeMode::Hold));
    assert_eq!(
        m.set_velocity(150, MOTOR, 0),
        Ok(MotorCommand { brake_mode: BrakeMode::Coast, action: MotorAction::Velocity(150) })
    );
    assert_eq!(
        m.set_voltage(6.5, MOTOR, 0),
        Ok(MotorCommand { brake_mode: BrakeMode::Coast, action: MotorAction::Voltage(6.5) })
    );
    assert_eq!(
        m.set_position_target(1.5, 100, MOTOR, 2),
        Ok(MotorCommand {
            brake_mode: BrakeMode::Coast,
            action: MotorAction::AbsoluteTarget { position: 1.5, ticks_per_revolution: 300, velocity: 100 },
        })
    );
    assert_eq!(m.set_profiled_velocity(40, MOTOR), Ok(()));
    assert_eq!(m.target(), MotorControl::Position(1.5, 40));
}

#[test]
fn motor_failed_target_keeps_the_old_one() {
    let (mut m, _) = Motor::<f64, f64>::new(SmartPort::new(5), Gearset::Green, Direction::Forward, 0.0);
    assert_eq!(
        m.set_velocity(10, 0, 0),
        Err(MotorError::Port { source: PortError::Disconnected { port: 5 } })
    );
    assert_eq!(m.target(), MotorControl::Voltage(0.0));
}

#[test]
fn motor_gearsets() {
    let (mut m, _) = Motor::<f64, f64>::new(SmartPort::new(1), Gearset::Red, Direction::Forward, 0.0);
    assert_eq!(m.gearset(MOTOR, 1), Ok(Gearset::Green));
    assert_eq!(m.set_gearset(Gearset::Blue, MOTOR), Ok(()));
    let (mut e, _) = Motor::<f64, f64>::new_exp(SmartPort::new(2), Direction::Forward, 0.0);
    assert_eq!(e.gearset(0, 0), Ok(Gearset::Green));
    assert_eq!(e.set_gearset(Gearset::Blue, MOTOR), Err(MotorError::SetGearsetExp));
    assert_eq!(e.set_position(2.0, MOTOR, 0), Ok((2.0, 900)));
    assert_eq!(Gearset::Red.ticks_per_revolution(), 1800);
}

#[test]
fn motor_faults_and_direction() {
    let (mut m, _) = Motor::<f64, f64>::new(SmartPort::new(1), Gearset::Red, Direction::Forward, 0.0);
    assert_eq!(m.is_over_current(MOTOR, OVER_CURRENT), Ok(true));
    assert_eq!(m.is_driver_over_current(MOTOR, OVER_CURRENT), Ok(false));
    assert_eq!(m.is_driver_over_current(MOTOR, DRIVER_OVER_CURRENT), Ok(true));
    assert_eq!(m.faults(MOTOR, 0x0F).map(|f| f.bits()), Ok(0x0F));
    assert_eq!(m.set_direction(Direction::Reverse, MOTOR), Ok(true));
    assert_eq!(m.direction(MOTOR, true), Ok(Direction::Reverse));
    assert_eq!(m.raw_position(MOTOR, -50, 77), Ok((-50, 77)));
    assert_eq!(Direction::Forward.not(), Direction::Reverse);
}

#[test]
fn rotation_quarter_turn_reversed_back_to_zero() {
    let mut r = RotationSensor::new(SmartPort::new(3), Direction::Forward);
    assert_eq!(r.position(ROTATION, 9000), Ok(9000));
    assert_eq!(r.set_direction(Direction::Reverse, ROTATION, 9000), Ok(()));
    assert_eq!(r.position(ROTATION, 9000), Ok(9000));
    assert_eq!(r.position(ROTATION, 18000), Ok(0));
    assert_eq!(r.angle(ROTATION, 9000), Ok(27000));
    assert_eq!(r.velocity(ROTATION, 500), Ok(-500));
}

#[test]
fn rotation_set_position_and_interval() {
    let mut r = RotationSensor::new(SmartPort::new(3), Direction::Reverse);
    assert_eq!(r.set_position(100, ROTATION), Ok(-100));
    assert_eq!(r.set_position(10_000_000_000, ROTATION), Ok(i32::MIN));
    assert_eq!(r.reset_position(ROTATION), Ok(0));
    assert_eq!(r.set_direction(Direction::Reverse, 0, 0), Ok(()));
    assert_eq!(
        r.set_direction(Direction::Forward, 0, 0),
        Err(PortError::Disconnected { port: 3 })
    );
    assert_eq!(computation_interval_word(1), 5);
    assert_eq!(computation_interval_word(23), 20);
    assert_eq!(r.set_computation_interval(Duration::from_millis(12), ROTATION), Ok(10));
}

#[test]
fn optical_gestures_and_integration_time() {
    let mut o = OpticalSensor::new(SmartPort::new(6));
    let rec = GestureRecord { udata: 1, ddata: 2, ldata: 3, rdata: 4, gesture_type: 5, count: 6, time: 7 };
    let g = o.last_gesture(OPTICAL, 3, rec).unwrap().unwrap();
    assert_eq!(g.direction, GestureDirection::Left);
    assert_eq!((g.up, g.down, g.left, g.right, g.count, g.time), (1, 2, 3, 4, 6, 7));
    assert_eq!(o.last_gesture(OPTICAL, 0, rec), Ok(None));
    assert_eq!(integration_time_word(1), 3);
    assert_eq!(integration_time_word(1000), 712);
    assert_eq!(integration_time_word(50), 50);
    assert_eq!(o.set_integration_time(Duration::from_millis(900), OPTICAL), Ok(712));
    assert_eq!(GestureDirection::from_raw(4), Some(GestureDirection::Right));
}

#[test]
fn serial_reads_and_opening() {
    let mut fut = SerialPort::open(SmartPort::new(9), 115_200);
    assert_eq!(fut.poll_configure(), Some(115_200));
    assert_eq!(fut.poll_configure(), None);
    let fut = match fut.poll_ready(0) {
        Ok(_) => panic!("opened before the port reported serial"),
        Err(f) => f,
    };
    let mut serial = match fut.poll_ready(129) {
        Ok(s) => s,
        Err(_) => panic!("not opened"),
    };
    assert_eq!(serial.read_byte(-1), None);
    assert_eq!(serial.read_byte(0x141), Some(0x41));
    assert_eq!(serial.write_byte(-1), Err(SerialError::WriteFailed));
    assert_eq!(serial.unread_bytes(12), Ok(12));
    assert_eq!(serial.available_write_bytes(-1), Err(SerialError::ReadFailed));
}

#[test]
fn radio_link_open_request() {
    let (link, req) = RadioLink::open(SmartPort::new(10), "vex-link", LinkType::Manager);
    assert_eq!(req.id, b"vex-link".to_vec());
    assert_eq!(req.link_type, 1);
    assert!(req.own);
    assert_eq!(link.unread_bytes(-1), Err(LinkError::ReadFailed));
    assert_eq!(LinkType::Worker.into_raw(), 0);
}

#[test]
fn imu_status_and_calibration() {
    let imu = InertialSensor::new(SmartPort::new(7));
    assert_eq!(imu.is_calibrating(IMU, CALIBRATING), Ok(true));
    assert_eq!(imu.status(IMU, 0xFF).err(), Some(InertialError::BadStatus));
    assert_eq!(imu.validate(IMU, CALIBRATING), Err(InertialError::StillCalibrating));
    assert_eq!(imu.physical_orientation(IMU, 0b0110), Ok(InertialOrientation::XDown));
    let mut imu = imu;
    let mut cal = imu.calibrate();
    assert_eq!(cal.poll(&imu, IMU, 0b1000, 0), ImuCalibrationPoll::Pending { reset: true });
    assert_eq!(cal.poll(&imu, IMU, CALIBRATING, 10_000), ImuCalibrationPoll::Pending { reset: false });
    assert_eq!(cal.poll(&imu, IMU, 0b1000, 20_000), ImuCalibrationPoll::Ready(Ok(())));
}

#[test]
fn imu_calibration_times_out() {
    let mut imu = InertialSensor::new(SmartPort::new(7));
    let mut cal = imu.calibrate();
    assert_eq!(cal.poll(&imu, IMU, 0b1000, 0), ImuCalibrationPoll::Pending { reset: true });
    // One second exactly is still within the wait; a microsecond more is not.
    assert_eq!(cal.poll(&imu, IMU, 0b1000, 1_000_000), ImuCalibrationPoll::Pending { reset: false });
    assert_eq!(
        cal.poll(&imu, IMU, 0b1000, 1_000_001),
        ImuCalibrationPoll::Ready(Err(InertialError::CalibrationTimedOut))
    );
}

#[test]
fn distance_checks_status() {
    let d = DistanceSensor::new(SmartPort::new(8));
    assert_eq!(d.object_distance(DISTANCE, 0x82, 250), Ok(Some(250)));
    assert_eq!(d.object_distance(DISTANCE, 0x86, 9999), Ok(None));
    assert_eq!(d.validate(DISTANCE, 0), Err(DistanceObjectError::StillInitializing));
    assert_eq!(
        d.validate(DISTANCE, 0x11),
        Err(DistanceObjectError::BadStatusCode { code: 0x11 })
    );
}

#[test]
fn electromagnet_status() {
    let e = Electromagnet::new(SmartPort::new(11));
    assert_eq!(e.status(17, 3), Ok(3));
    assert_eq!(e.status(0, 3), Err(PortError::Disconnected { port: 11 }));
}

#[test]
fn rotation_set_position_reads_back() {
    for direction in [Direction::Forward, Direction::Reverse] {
        let mut r = RotationSensor::new(SmartPort::new(3), direction);
        let written = r.set_position(1234, ROTATION).unwrap();
        assert_eq!(r.position(ROTATION, written), Ok(1234));
        let written = r.set_position(-36_000, ROTATION).unwrap();
        assert_eq!(r.position(ROTATION, written), Ok(-36_000));
    }
}
