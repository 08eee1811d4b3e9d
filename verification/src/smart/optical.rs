//! Optical sensor: gestures, raw color readings and integration time.

use core::time::Duration;

use super::{duration_millis, millis_of, port_check, validate_port, PortError, SmartDevice, SmartDeviceType, SmartPort};
use vstd::prelude::*;

verus! {

/// The direction of a gesture seen by an optical sensor.
#[derive(Debug, Clone, Copy, PartialEq, Eq, Structural)]
pub enum GestureDirection {
    /// Upward gesture.
    Up,
    /// Downward gesture.
    Down,
    /// Leftward gesture.
    Left,
    /// Rightward gesture.
    Right,
}

/// The raw VEXos code of a gesture direction: 1 up, 2 down, 3 left, 4 right.
pub open spec fn gesture_code(d: GestureDirection) -> u8 {
    match d {
        GestureDirection::Up => 1,
        GestureDirection::Down => 2,
        GestureDirection::Left => 3,
        GestureDirection::Right => 4,
    }
}

impl GestureDirection {
    /// Decodes a raw gesture direction; any code other than 1 to 4 gives
    /// `None`.
    pub fn from_raw(raw: u8) -> (r: Option<GestureDirection>)
        ensures
            match r {
                Some(d) => gesture_code(d) == raw,
                None => raw < 1 || raw > 4,
            },
    {
        match raw {
            1 => Some(GestureDirection::Up),
            2 => Some(GestureDirection::Down),
            3 => Some(GestureDirection::Left),
            4 => Some(GestureDirection::Right),
            _ => None,
        }
    }

    /// The raw VEXos code of this direction.
    pub fn into_raw(self) -> (r: u8)
        ensures
            r == gesture_code(self),
    {
        match self {
            GestureDirection::Up => 1,
            GestureDirection::Down => 2,
            GestureDirection::Left => 3,
            GestureDirection::Right => 4,
        }
    }
}

/// The raw red, green, blue and clear readings of an optical sensor.
#[derive(Debug, Clone, Copy, PartialEq, Eq, Default, Structural)]
pub struct OpticalRaw {
    /// Red reading.
    pub red: u16,
    /// Green reading.
    pub green: u16,
    /// Blue reading.
    pub blue: u16,
    /// Clear reading.
    pub clear: u16,
}

/// The shortest integration time, in milliseconds.
pub const MIN_INTEGRATION_TIME_MS: u32 = 3u32;

/// The longest integration time, in milliseconds.
pub const MAX_INTEGRATION_TIME_MS: u32 = 712u32;

/// The interval, in milliseconds, at which gestures are updated.
pub const GESTURE_UPDATE_INTERVAL_MS: u32 = 50u32;

/// A gesture seen by the sensor.
#[derive(Debug, Clone, Copy, PartialEq, Eq, Structural)]
pub struct Gesture {
    /// The gesture's direction.
    pub direction: GestureDirection,
    /// The upward reading.
    pub up: u8,
    /// The downward reading.
    pub down: u8,
    /// The leftward reading.
    pub left: u8,
    /// The rightward reading.
    pub right: u8,
    /// The gesture's type.
    pub gesture_type: u8,
    /// The number of gestures seen.
    pub count: u16,
    /// When the gesture was seen, in milliseconds.
    pub time: u32,
}

/// A gesture as VEXos reports it.
#[derive(Debug, Clone, Copy, PartialEq, Eq, Default, Structural)]
pub struct GestureRecord {
    /// The upward reading.
    pub udata: u8,
    /// The downward reading.
    pub ddata: u8,
    /// The leftward reading.
    pub ldata: u8,
    /// The rightward reading.
    pub rdata: u8,
    /// The gesture's type.
    pub gesture_type: u8,
    /// The number of gestures seen.
    pub count: u16,
    /// When the gesture was seen, in milliseconds.
    pub time: u32,
}

/// The gesture direction code `code` stands for: 1 up, 2 down, 3 left,
/// 4 right; any other code means no gesture.
pub open spec fn gesture_direction_of(code: i32) -> Option<GestureDirection> {
    if code == 1 {
        Some(GestureDirection::Up)
    } else if code == 2 {
        Some(GestureDirection::Down)
    } else if code == 3 {
        Some(GestureDirection::Left)
    } else if code == 4 {
        Some(GestureDirection::Right)
    } else {
        None
    }
}

/// The gesture that direction code `code` and record `g` report, if any.
pub open spec fn gesture_of(code: i32, g: GestureRecord) -> Option<Gesture> {
    match gesture_direction_of(code) {
        Some(direction) => Some(
            Gesture {
                direction,
                up: g.udata,
                down: g.ddata,
                left: g.ldata,
                right: g.rdata,
                gesture_type: g.gesture_type,
                count: g.count,
                time: g.time,
            },
        ),
        None => None,
    }
}

/// The outcome of a request on the sensor on Smart port `port` whose status
/// code is `raw`, yielding `value` when the sensor is present.
pub open spec fn optical_outcome<T>(port: u8, raw: u8, value: T) -> Result<T, PortError> {
    match port_check(port, SmartDeviceType::Optical, raw) {
        Ok(()) => Ok(value),
        Err(e) => Err(e),
    }
}

/// The integration time word for a time of `ms` milliseconds: `ms` held
/// between the shortest and the longest integration time.
pub open spec fn integration_word(ms: u128) -> u32 {
    if ms < MIN_INTEGRATION_TIME_MS {
        MIN_INTEGRATION_TIME_MS
    } else if ms > MAX_INTEGRATION_TIME_MS {
        MAX_INTEGRATION_TIME_MS
    } else {
        ms as u32
    }
}

/// The integration time, in milliseconds, to write for a requested time of
/// `ms` milliseconds.
pub fn integration_time_word(ms: u128) -> (r: u32)
    ensures
        r == integration_word(ms),
        MIN_INTEGRATION_TIME_MS <= r <= MAX_INTEGRATION_TIME_MS,
{
    if ms < MIN_INTEGRATION_TIME_MS as u128 {
        MIN_INTEGRATION_TIME_MS
    } else if ms > MAX_INTEGRATION_TIME_MS as u128 {
        MAX_INTEGRATION_TIME_MS
    } else {
        ms as u32
    }
}

/// An optical sensor on a Smart port.
#[derive(Debug, PartialEq, Eq, Structural)]
pub struct OpticalSensor {
    port: SmartPort,
}

impl OpticalSensor {
    /// The Smart port the sensor is plugged into.
    pub closed spec fn port_spec(&self) -> u8 {
        self.port@
    }

    /// Creates a sensor on `port`.
    pub fn new(port: SmartPort) -> (r: OpticalSensor)
        ensures
            r.port_spec() == port@,
    {
        OpticalSensor { port }
    }

    /// The last gesture the sensor saw, given the status code of its Smart
    /// port, the direction code VEXos reports and the gesture record it
    /// fills; `None` when the code reports no gesture.
    pub fn last_gesture(&self, raw_status: u8, code: i32, record: GestureRecord) -> (r: Result<
        Option<Gesture>,
        PortError,
    >)
        ensures
            r == optical_outcome(self.port_spec(), raw_status, gesture_of(code, record)),
    {
        if let Err(e) = validate_port(self.port.number(), SmartDeviceType::Optical, raw_status) {
            return Err(e);
        }
        let direction = if code == 1 {
            GestureDirection::Up
        } else if code == 2 {
            GestureDirection::Down
        } else if code == 3 {
            GestureDirection::Left
        } else if code == 4 {
            GestureDirection::Right
        } else {
            return Ok(None);
        };
        Ok(
            Some(
                Gesture {
                    direction,
                    up: record.udata,
                    down: record.ddata,
                    left: record.ldata,
                    right: record.rdata,
                    gesture_type: record.gesture_type,
                    count: record.count,
                    time: record.time,
                },
            ),
        )
    }

    /// The raw color readings, given the status code of the sensor's Smart
    /// port and the readings VEXos reports.
    pub fn raw_color(&self, raw_status: u8, raw: OpticalRaw) -> (r: Result<OpticalRaw, PortError>)
        ensures
            r == optical_outcome(self.port_spec(), raw_status, raw),
    {
        match validate_port(self.port.number(), SmartDeviceType::Optical, raw_status) {
            Ok(()) => Ok(raw),
            Err(e) => Err(e),
        }
    }

    /// Sets the sensor's integration time, given the status code of its
    /// Smart port; on success gives the time, in milliseconds, to write (see
    /// [`integration_time_word`]).
    pub fn set_integration_time(&mut self, time: Duration, raw_status: u8) -> (r: Result<u32, PortError>)
        ensures
            *final(self) == *old(self),
            r == optical_outcome(old(self).port_spec(), raw_status, integration_word(millis_of(time))),
    {
        if let Err(e) = validate_port(self.port.number(), SmartDeviceType::Optical, raw_status) {
            return Err(e);
        }
        let ms = duration_millis(time);
        Ok(integration_time_word(ms))
    }

    /// The sensor's status word, given the status code of its Smart port and
    /// the status VEXos reports.
    pub fn status(&self, raw_status: u8, status: u32) -> (r: Result<u32, PortError>)
        ensures
            r == optical_outcome(self.port_spec(), raw_status, status),
    {
        match validate_port(self.port.number(), SmartDeviceType::Optical, raw_status) {
            Ok(()) => Ok(status),
            Err(e) => Err(e),
        }
    }
}

impl SmartDevice for OpticalSensor {
    fn port_number(&self) -> (r: u8)
        ensures
            r == self.port_spec(),
    {
        self.port.number()
    }

    fn device_type(&self) -> (r: SmartDeviceType)
        ensures
            r == SmartDeviceType::Optical,
    {
        SmartDeviceType::Optical
    }
}

} // verus!
