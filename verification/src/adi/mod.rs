//! Analog/Digital Interface (ADI) ports, also known as three-wire ports.
//!
//! Every ADI port sits either on the brain itself or on an ADI expander that
//! takes a Smart port. The brain's own ports are served by an internal
//! expander on Smart port 22.
//!
//! Reading a port means asking VEXos for the status of the expander's Smart
//! port and for the port's value; writing means handing VEXos a value. The
//! functions here take what was read as arguments and hand back what is to be
//! written, so that every decision in between is checked.

pub mod accelerometer;
pub mod addrled;
pub mod analog;
pub mod digital;
pub mod encoder;
pub mod gyroscope;
pub mod light_sensor;
pub mod line_tracker;
pub mod motor;
pub mod potentiometer;
pub mod pwm;
pub mod range_finder;
pub mod servo;
pub mod solenoid;
pub mod ultrasonic;

use crate::smart::{port_check, validate_port, PortError, SmartDeviceType};
use vstd::prelude::*;

verus! {

/// The Smart port number of the brain's internal ADI expander.
pub const INTERNAL_ADI_PORT_NUMBER: u8 = 22u8;

/// Common functionality of ADI (three-wire) devices.
pub trait AdiDevice<const N: usize> {
    /// The numbers of the ADI ports this device is registered to, starting
    /// from 1.
    fn port_numbers(&self) -> [u8; N];

    /// The Smart port number of the device's expander, or `None` when the
    /// device is plugged into the brain.
    fn expander_port_number(&self) -> Option<u8>;

    /// The kind of ADI device this is.
    fn device_type(&self) -> AdiDeviceType;
}

/// Represents an ADI (three-wire) port on a V5 Brain or on an ADI expander.
#[derive(Debug, PartialEq, Eq, Structural)]
pub struct AdiPort {
    number: u8,
    expander_number: Option<u8>,
}

impl View for AdiPort {
    type V = (u8, Option<u8>);

    /// A port is seen as its number and the Smart port of its expander.
    closed spec fn view(&self) -> (u8, Option<u8>) {
        (self.number, self.expander_number)
    }
}

/// The Smart port number that serves an ADI port on expander `expander`.
pub open spec fn expander_port_of(expander: Option<u8>) -> u8 {
    match expander {
        Some(n) => n,
        None => INTERNAL_ADI_PORT_NUMBER,
    }
}

/// Whether an ADI port's numbers can address hardware: the port number and the
/// expander's Smart port number both start from 1.
pub open spec fn valid_adi_port(p: (u8, Option<u8>)) -> bool {
    p.0 >= 1 && expander_port_of(p.1) >= 1
}

/// A request to configure an ADI port as a given kind of device.
#[derive(Debug, Clone, Copy, PartialEq, Eq, Structural)]
pub struct AdiConfigure {
    /// Zero-based index of the expander's Smart port.
    pub expander_index: u32,
    /// Zero-based index of the ADI port on its expander.
    pub index: u32,
    /// The configuration to apply.
    pub config: AdiDeviceType,
}

/// A request to write a raw value to an ADI port.
#[derive(Debug, Clone, Copy, PartialEq, Eq, Structural)]
pub struct AdiValueWrite {
    /// Zero-based index of the expander's Smart port.
    pub expander_index: u32,
    /// Zero-based index of the ADI port on its expander.
    pub index: u32,
    /// The raw value to write.
    pub value: i32,
}

/// The request that configures port `p` as `config`.
pub open spec fn configure_request(p: (u8, Option<u8>), config: AdiDeviceType) -> AdiConfigure {
    AdiConfigure {
        expander_index: (expander_port_of(p.1) - 1) as u32,
        index: (p.0 - 1) as u32,
        config,
    }
}

/// The request that writes `value` to port `p`.
pub open spec fn write_request(p: (u8, Option<u8>), value: i32) -> AdiValueWrite {
    AdiValueWrite {
        expander_index: (expander_port_of(p.1) - 1) as u32,
        index: (p.0 - 1) as u32,
        value,
    }
}

/// The check of port `p`'s expander, whose Smart port reports status `raw`.
pub open spec fn expander_check(p: (u8, Option<u8>), raw: u8) -> Result<(), PortError> {
    port_check(expander_port_of(p.1), SmartDeviceType::Adi, raw)
}

/// The outcome of writing `value` to port `p` when its expander reports `raw`.
pub open spec fn write_outcome(p: (u8, Option<u8>), raw: u8, value: i32) -> Result<AdiValueWrite, PortError> {
    match expander_check(p, raw) {
        Ok(()) => Ok(write_request(p, value)),
        Err(e) => Err(e),
    }
}

/// The outcome of reading `value` from port `p` when its expander reports
/// `raw`.
pub open spec fn read_outcome<T>(p: (u8, Option<u8>), raw: u8, value: T) -> Result<T, PortError> {
    match expander_check(p, raw) {
        Ok(()) => Ok(value),
        Err(e) => Err(e),
    }
}

impl AdiPort {
    /// Creates a handle to ADI port `number` (starting from 1) on the expander
    /// plugged into Smart port `expander_number`, or on the brain when `None`.
    ///
    /// Two handles to one port must not be used to build two devices; prefer
    /// taking ports from the peripherals.
    pub fn new(number: u8, expander_number: Option<u8>) -> (r: AdiPort)
        ensures
            r@ == (number, expander_number),
    {
        AdiPort { number, expander_number }
    }

    /// The port's number, starting from 1.
    pub fn number(&self) -> (r: u8)
        ensures
            r == self@.0,
    {
        self.number
    }

    /// The Smart port number of this port's expander, or `None` for a port on
    /// the brain.
    pub fn expander_number(&self) -> (r: Option<u8>)
        ensures
            r == self@.1,
    {
        self.expander_number
    }

    /// The port's zero-based index on its expander.
    pub fn index(&self) -> (r: u32)
        requires
            self@.0 >= 1,
        ensures
            r == self@.0 - 1,
    {
        (self.number - 1) as u32
    }

    /// The zero-based index of the Smart port that serves this port.
    pub fn expander_index(&self) -> (r: u32)
        requires
            expander_port_of(self@.1) >= 1,
        ensures
            r == expander_port_of(self@.1) - 1,
    {
        let n: u8 = match self.expander_number {
            Some(n) => n,
            None => INTERNAL_ADI_PORT_NUMBER,
        };
        (n - 1) as u32
    }

    /// Checks that an ADI expander is present on the Smart port that serves
    /// this port, given the status code VEXos reports for that Smart port.
    pub fn validate_expander(&self, raw: u8) -> (r: Result<(), PortError>)
        ensures
            r == expander_check(self@, raw),
    {
        let n: u8 = match self.expander_number {
            Some(n) => n,
            None => INTERNAL_ADI_PORT_NUMBER,
        };
        validate_port(n, SmartDeviceType::Adi, raw)
    }

    /// The request that configures this port as `config`.
    pub fn configure(&self, config: AdiDeviceType) -> (r: AdiConfigure)
        requires
            valid_adi_port(self@),
        ensures
            r == configure_request(self@, config),
    {
        AdiConfigure { expander_index: self.expander_index(), index: self.index(), config }
    }

    /// The request that writes `value` to this port.
    pub fn write(&self, value: i32) -> (r: AdiValueWrite)
        requires
            valid_adi_port(self@),
        ensures
            r == write_request(self@, value),
    {
        AdiValueWrite { expander_index: self.expander_index(), index: self.index(), value }
    }

    /// Checks the expander, given its status code `raw`, and on success gives
    /// the request that writes `value` to this port.
    pub fn checked_write(&self, raw: u8, value: i32) -> (r: Result<AdiValueWrite, PortError>)
        requires
            valid_adi_port(self@),
        ensures
            r == write_outcome(self@, raw, value),
    {
        match self.validate_expander(raw) {
            Ok(()) => Ok(self.write(value)),
            Err(e) => Err(e),
        }
    }

    /// The type of device this port is configured as, given the status code of
    /// the expander's Smart port and the configuration code VEXos reports for
    /// this port.
    pub fn configured_type(&self, raw_status: u8, raw_config: u8) -> (r: Result<AdiDeviceType, PortError>)
        ensures
            r == match expander_check(self@, raw_status) {
                Ok(()) => Ok(adi_type_of(raw_config)),
                Err(e) => Err(e),
            },
    {
        match self.validate_expander(raw_status) {
            Ok(()) => Ok(AdiDeviceType::from_raw(raw_config)),
            Err(e) => Err(e),
        }
    }
}

/// A kind of device that an ADI port can be configured as.
///
/// Known configuration codes map to their own variant; every other code is
/// kept as `Unknown(code)`.
#[derive(Debug, Clone, Copy, PartialEq, Eq, Structural)]
pub enum AdiDeviceType {
    /// Undefined device.
    Undefined,
    /// Generic digital input.
    DigitalIn,
    /// Generic digital output.
    DigitalOut,
    /// 12-bit generic analog input.
    AnalogIn,
    /// 8-bit generic PWM output.
    PwmOut,
    /// Limit switch or bumper switch.
    Switch,
    /// V2 bumper switch.
    SwitchV2,
    /// Cortex-era potentiometer.
    Potentiometer,
    /// V2 potentiometer.
    PotentiometerV2,
    /// Cortex-era yaw-rate gyroscope.
    Gyro,
    /// Cortex-era servo motor.
    Servo,
    /// Quadrature encoder.
    Encoder,
    /// Ultrasonic range finder.
    RangeFinder,
    /// Cortex-era line tracker.
    LineTracker,
    /// Cortex-era light sensor.
    LightSensor,
    /// Cortex-era three-axis accelerometer.
    Accelerometer,
    /// MC29 motor controller output.
    Motor,
    /// Slew-rate limited motor output.
    MotorSlew,
    /// Any other configuration code.
    Unknown(u8),
}

/// The ADI device type that a raw configuration code stands for.
pub open spec fn adi_type_of(raw: u8) -> AdiDeviceType {
    if raw == 255 {
        AdiDeviceType::Undefined
    } else if raw == 2 {
        AdiDeviceType::DigitalIn
    } else if raw == 3 {
        AdiDeviceType::DigitalOut
    } else if raw == 0 {
        AdiDeviceType::AnalogIn
    } else if raw == 1 {
        AdiDeviceType::PwmOut
    } else if raw == 6 {
        AdiDeviceType::Switch
    } else if raw == 4 {
        AdiDeviceType::SwitchV2
    } else if raw == 7 {
        AdiDeviceType::Potentiometer
    } else if raw == 5 {
        AdiDeviceType::PotentiometerV2
    } else if raw == 10 {
        AdiDeviceType::Gyro
    } else if raw == 12 {
        AdiDeviceType::Servo
    } else if raw == 14 {
        AdiDeviceType::Encoder
    } else if raw == 15 {
        AdiDeviceType::RangeFinder
    } else if raw == 8 {
        AdiDeviceType::LineTracker
    } else if raw == 9 {
        AdiDeviceType::LightSensor
    } else if raw == 11 {
        AdiDeviceType::Accelerometer
    } else if raw == 13 {
        AdiDeviceType::Motor
    } else if raw == 16 {
        AdiDeviceType::MotorSlew
    } else {
        AdiDeviceType::Unknown(raw)
    }
}

/// The raw configuration code of an ADI device type.
pub open spec fn adi_code_of(t: AdiDeviceType) -> u8 {
    match t {
        AdiDeviceType::Undefined => 255,
        AdiDeviceType::DigitalIn => 2,
        AdiDeviceType::DigitalOut => 3,
        AdiDeviceType::AnalogIn => 0,
        AdiDeviceType::PwmOut => 1,
        AdiDeviceType::Switch => 6,
        AdiDeviceType::SwitchV2 => 4,
        AdiDeviceType::Potentiometer => 7,
        AdiDeviceType::PotentiometerV2 => 5,
        AdiDeviceType::Gyro => 10,
        AdiDeviceType::Servo => 12,
        AdiDeviceType::Encoder => 14,
        AdiDeviceType::RangeFinder => 15,
        AdiDeviceType::LineTracker => 8,
        AdiDeviceType::LightSensor => 9,
        AdiDeviceType::Accelerometer => 11,
        AdiDeviceType::Motor => 13,
        AdiDeviceType::MotorSlew => 16,
        AdiDeviceType::Unknown(raw) => raw,
    }
}

impl AdiDeviceType {
    /// Decodes a raw ADI configuration code.
    pub fn from_raw(raw: u8) -> (r: AdiDeviceType)
        ensures
            r == adi_type_of(raw),
    {
        match raw {
            255 => AdiDeviceType::Undefined,
            2 => AdiDeviceType::DigitalIn,
            3 => AdiDeviceType::DigitalOut,
            0 => AdiDeviceType::AnalogIn,
            1 => AdiDeviceType::PwmOut,
            6 => AdiDeviceType::Switch,
            4 => AdiDeviceType::SwitchV2,
            7 => AdiDeviceType::Potentiometer,
            5 => AdiDeviceType::PotentiometerV2,
            10 => AdiDeviceType::Gyro,
            12 => AdiDeviceType::Servo,
            14 => AdiDeviceType::Encoder,
            15 => AdiDeviceType::RangeFinder,
            8 => AdiDeviceType::LineTracker,
            9 => AdiDeviceType::LightSensor,
            11 => AdiDeviceType::Accelerometer,
            13 => AdiDeviceType::Motor,
            16 => AdiDeviceType::MotorSlew,
            other => AdiDeviceType::Unknown(other),
        }
    }

    /// Encodes this device type as a raw ADI configuration code.
    pub fn into_raw(self) -> (r: u8)
        ensures
            r == adi_code_of(self),
    {
        match self {
            AdiDeviceType::Undefined => 255,
            AdiDeviceType::DigitalIn => 2,
            AdiDeviceType::DigitalOut => 3,
            AdiDeviceType::AnalogIn => 0,
            AdiDeviceType::PwmOut => 1,
            AdiDeviceType::Switch => 6,
            AdiDeviceType::SwitchV2 => 4,
            AdiDeviceType::Potentiometer => 7,
            AdiDeviceType::PotentiometerV2 => 5,
            AdiDeviceType::Gyro => 10,
            AdiDeviceType::Servo => 12,
            AdiDeviceType::Encoder => 14,
            AdiDeviceType::RangeFinder => 15,
            AdiDeviceType::LineTracker => 8,
            AdiDeviceType::LightSensor => 9,
            AdiDeviceType::Accelerometer => 11,
            AdiDeviceType::Motor => 13,
            AdiDeviceType::MotorSlew => 16,
            AdiDeviceType::Unknown(raw) => raw,
        }
    }
}

/// Encoding a decoded ADI configuration code gives the code back; decoding the
/// code of a known ADI device type gives the type back.
pub proof fn lemma_adi_code_roundtrip(raw: u8, t: AdiDeviceType)
    ensures
        adi_code_of(adi_type_of(raw)) == raw,
        !(t is Unknown) ==> adi_type_of(adi_code_of(t)) == t,
{
}

/// The letter of an ADI port, used in messages: `A` through `H` for ports 1
/// through 8 and `?` for any other number.
pub open spec fn adi_letter(port: u8) -> char {
    if port == 1 {
        'A'
    } else if port == 2 {
        'B'
    } else if port == 3 {
        'C'
    } else if port == 4 {
        'D'
    } else if port == 5 {
        'E'
    } else if port == 6 {
        'F'
    } else if port == 7 {
        'G'
    } else if port == 8 {
        'H'
    } else {
        '?'
    }
}

/// Returns the letter that names ADI port `port`.
pub fn adi_port_name(port: u8) -> (r: char)
    ensures
        r == adi_letter(port),
{
    match port {
        1 => 'A',
        2 => 'B',
        3 => 'C',
        4 => 'D',
        5 => 'E',
        6 => 'F',
        7 => 'G',
        8 => 'H',
        _ => '?',
    }
}

} // verus!
