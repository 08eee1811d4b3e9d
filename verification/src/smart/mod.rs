//! Smart ports and the device types that VEXos reports on them.

pub mod ai_vision;
pub mod distance;
pub mod electromagnet;
pub mod expander;
pub mod imu;
pub mod link;
pub mod motor;
pub mod optical;
pub mod rotation;
pub mod serial;
pub mod vision;

use core::time::Duration;

use vstd::prelude::*;

verus! {

/// The total number of whole milliseconds contained by a duration.
pub uninterp spec fn millis_of(duration: Duration) -> u128;

/// Returns the whole number of milliseconds in `duration`.
///
/// Calls `core::time::Duration::as_millis`, which returns the total number of
/// whole milliseconds the duration contains; the contract names that number
/// [`millis_of`] and says no more of it, since a `Duration` has no view here
/// to state it over.
#[verifier::external_body]
pub(crate) fn duration_millis(duration: Duration) -> (r: u128)
    ensures
        r == millis_of(duration),
{
    duration.as_millis()
}

/// A device type that VEXos can report on a Smart port.
///
/// Known device codes map to their own variant; every other code is kept as
/// `Unknown(code)`.
#[derive(Debug, Clone, Copy, PartialEq, Eq, Structural)]
pub enum SmartDeviceType {
    /// Smart Motor (V5 or EXP).
    Motor,
    /// Rotation sensor.
    Rotation,
    /// Inertial sensor.
    Imu,
    /// Distance sensor.
    Distance,
    /// Vision sensor.
    Vision,
    /// AI Vision sensor.
    AiVision,
    /// Workcell electromagnet.
    Electromagnet,
    /// CTE workcell light tower.
    LightTower,
    /// CTE workcell arm.
    Arm,
    /// Optical sensor.
    Optical,
    /// GPS sensor.
    Gps,
    /// Smart radio.
    Radio,
    /// ADI expander.
    Adi,
    /// Generic serial port.
    GenericSerial,
    /// Any other device code reported by VEXos.
    Unknown(u8),
}

/// The raw code VEXos reports for an empty Smart port.
pub const NO_SENSOR_CODE: u8 = 0u8;

/// The device type that a raw VEXos device code stands for.
pub open spec fn smart_type_of(raw: u8) -> SmartDeviceType {
    if raw == 2 {
        SmartDeviceType::Motor
    } else if raw == 4 {
        SmartDeviceType::Rotation
    } else if raw == 6 {
        SmartDeviceType::Imu
    } else if raw == 7 {
        SmartDeviceType::Distance
    } else if raw == 8 {
        SmartDeviceType::Radio
    } else if raw == 11 {
        SmartDeviceType::Vision
    } else if raw == 12 {
        SmartDeviceType::Adi
    } else if raw == 16 {
        SmartDeviceType::Optical
    } else if raw == 17 {
        SmartDeviceType::Electromagnet
    } else if raw == 20 {
        SmartDeviceType::Gps
    } else if raw == 27 {
        SmartDeviceType::LightTower
    } else if raw == 28 {
        SmartDeviceType::Arm
    } else if raw == 29 {
        SmartDeviceType::AiVision
    } else if raw == 129 {
        SmartDeviceType::GenericSerial
    } else {
        SmartDeviceType::Unknown(raw)
    }
}

/// The raw VEXos device code of a device type.
pub open spec fn smart_code_of(t: SmartDeviceType) -> u8 {
    match t {
        SmartDeviceType::Motor => 2,
        SmartDeviceType::Rotation => 4,
        SmartDeviceType::Imu => 6,
        SmartDeviceType::Distance => 7,
        SmartDeviceType::Radio => 8,
        SmartDeviceType::Vision => 11,
        SmartDeviceType::Adi => 12,
        SmartDeviceType::Optical => 16,
        SmartDeviceType::Electromagnet => 17,
        SmartDeviceType::Gps => 20,
        SmartDeviceType::LightTower => 27,
        SmartDeviceType::Arm => 28,
        SmartDeviceType::AiVision => 29,
        SmartDeviceType::GenericSerial => 129,
        SmartDeviceType::Unknown(raw) => raw,
    }
}

/// Whether a device type is the variant that its own code decodes to, i.e. it
/// is not an `Unknown` wrapped around the code of a known device.
pub open spec fn is_canonical_type(t: SmartDeviceType) -> bool {
    smart_type_of(smart_code_of(t)) == t
}

impl SmartDeviceType {
    /// Decodes a raw VEXos device code.
    pub fn from_raw(raw: u8) -> (r: SmartDeviceType)
        ensures
            r == smart_type_of(raw),
    {
        match raw {
            2 => SmartDeviceType::Motor,
            4 => SmartDeviceType::Rotation,
            6 => SmartDeviceType::Imu,
            7 => SmartDeviceType::Distance,
            8 => SmartDeviceType::Radio,
            11 => SmartDeviceType::Vision,
            12 => SmartDeviceType::Adi,
            16 => SmartDeviceType::Optical,
            17 => SmartDeviceType::Electromagnet,
            20 => SmartDeviceType::Gps,
            27 => SmartDeviceType::LightTower,
            28 => SmartDeviceType::Arm,
            29 => SmartDeviceType::AiVision,
            129 => SmartDeviceType::GenericSerial,
            other => SmartDeviceType::Unknown(other),
        }
    }

    /// Encodes this device type as a raw VEXos device code.
    pub fn into_raw(self) -> (r: u8)
        ensures
            r == smart_code_of(self),
    {
        match self {
            SmartDeviceType::Motor => 2,
            SmartDeviceType::Rotation => 4,
            SmartDeviceType::Imu => 6,
            SmartDeviceType::Distance => 7,
            SmartDeviceType::Radio => 8,
            SmartDeviceType::Vision => 11,
            SmartDeviceType::Adi => 12,
            SmartDeviceType::Optical => 16,
            SmartDeviceType::Electromagnet => 17,
            SmartDeviceType::Gps => 20,
            SmartDeviceType::LightTower => 27,
            SmartDeviceType::Arm => 28,
            SmartDeviceType::AiVision => 29,
            SmartDeviceType::GenericSerial => 129,
            SmartDeviceType::Unknown(raw) => raw,
        }
    }
}

/// Encoding a decoded device code gives the code back.
pub proof fn lemma_smart_code_roundtrip(raw: u8)
    ensures
        smart_code_of(smart_type_of(raw)) == raw,
{
}

/// Decoding the code of a canonical device type gives the type back, and every
/// decoded code is canonical.
pub proof fn lemma_smart_type_roundtrip(t: SmartDeviceType, raw: u8)
    ensures
        !(t is Unknown) ==> smart_type_of(smart_code_of(t)) == t,
        is_canonical_type(smart_type_of(raw)),
{
}

/// Errors that arise when the device on a Smart port is not the one expected.
#[derive(Debug, Clone, Copy, PartialEq, Eq, Structural)]
pub enum PortError {
    /// No device is plugged into the port.
    Disconnected {
        /// The port's number.
        port: u8,
    },
    /// A device of another type is plugged into the port.
    IncorrectDevice {
        /// The device type that was expected.
        expected: SmartDeviceType,
        /// The device type that was found.
        actual: SmartDeviceType,
        /// The port's number.
        port: u8,
    },
}

/// The device connected to a port whose status code is `raw`, if any.
pub open spec fn connected_type_of(raw: u8) -> Option<SmartDeviceType> {
    if raw == NO_SENSOR_CODE {
        None
    } else {
        Some(smart_type_of(raw))
    }
}

/// The outcome of checking that a device of type `expected` sits on port
/// `number`, whose status code is `raw`.
pub open spec fn port_check(number: u8, expected: SmartDeviceType, raw: u8) -> Result<(), PortError> {
    match connected_type_of(raw) {
        None => Err(PortError::Disconnected { port: number }),
        Some(actual) => if actual == expected {
            Ok(())
        } else {
            Err(PortError::IncorrectDevice { expected, actual, port: number })
        },
    }
}

/// Decodes a port status code into the connected device type, if any.
pub fn connected_type(raw: u8) -> (r: Option<SmartDeviceType>)
    ensures
        r == connected_type_of(raw),
{
    if raw == NO_SENSOR_CODE {
        None
    } else {
        Some(SmartDeviceType::from_raw(raw))
    }
}

/// Checks that a device of type `device_type` is connected to Smart port
/// `number`, given the status code `raw` that VEXos reports for that port.
pub fn validate_port(number: u8, device_type: SmartDeviceType, raw: u8) -> (r: Result<(), PortError>)
    ensures
        r == port_check(number, device_type, raw),
{
    match connected_type(raw) {
        None => Err(PortError::Disconnected { port: number }),
        Some(actual) => if actual == device_type {
            Ok(())
        } else {
            Err(PortError::IncorrectDevice { expected: device_type, actual, port: number })
        },
    }
}

/// Common functionality of Smart port devices.
pub trait SmartDevice {
    /// The number of the Smart port the device is plugged into, starting from
    /// 1.
    fn port_number(&self) -> u8;

    /// The type of the device.
    fn device_type(&self) -> SmartDeviceType;
}

/// A Smart port on a V5 Brain.
#[derive(Debug, PartialEq, Eq, Structural)]
pub struct SmartPort {
    number: u8,
}

impl View for SmartPort {
    type V = u8;

    /// A Smart port is seen as its number.
    closed spec fn view(&self) -> u8 {
        self.number
    }
}

impl SmartPort {
    /// Creates a handle to the Smart port numbered `number` (starting from 1).
    ///
    /// Two handles to one port must not be used to build two devices; prefer
    /// taking ports from the peripherals.
    pub fn new(number: u8) -> (r: SmartPort)
        ensures
            r@ == number,
    {
        SmartPort { number }
    }

    /// The port's number, starting from 1.
    pub fn number(&self) -> (r: u8)
        ensures
            r == self@,
    {
        self.number
    }

    /// The port's zero-based index.
    pub fn index(&self) -> (r: u32)
        requires
            self@ >= 1,
        ensures
            r == self@ - 1,
    {
        (self.number - 1) as u32
    }

    /// The type of device plugged into this port, given the status code that
    /// VEXos reports for it, or `None` when the port is empty.
    pub fn device_type(&self, raw: u8) -> (r: Option<SmartDeviceType>)
        ensures
            r == connected_type_of(raw),
    {
        connected_type(raw)
    }

    /// The time, in milliseconds, of the last packet the port's device sent,
    /// given the port's status code and the time VEXos reports; `None` when
    /// the port is empty.
    pub fn timestamp(&self, raw: u8, raw_timestamp: u32) -> (r: Option<u32>)
        ensures
            r == if connected_type_of(raw) is Some {
                Some(raw_timestamp)
            } else {
                None::<u32>
            },
    {
        if connected_type(raw).is_some() {
            Some(raw_timestamp)
        } else {
            None
        }
    }

    /// Checks that a device of type `device_type` is plugged into this port,
    /// given the status code that VEXos reports for it.
    pub fn validate_type(&self, device_type: SmartDeviceType, raw: u8) -> (r: Result<(), PortError>)
        ensures
            r == port_check(self@, device_type, raw),
    {
        validate_port(self.number, device_type, raw)
    }
}

} // verus!
