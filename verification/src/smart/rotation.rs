//! Rotation sensor: position and angle in centidegrees, with the sensor's
//! direction kept by the library rather than by VEXos.

use core::time::Duration;

use super::motor::Direction;
use super::{duration_millis, millis_of, port_check, validate_port, PortError, SmartDevice, SmartDeviceType, SmartPort};
use vstd::prelude::*;

verus! {

/// Ticks (centidegrees) per revolution of the rotation sensor.
pub const TICKS_PER_REVOLUTION: u32 = 36000u32;

/// The shortest interval, in milliseconds, at which the sensor computes.
pub const MIN_DATA_INTERVAL_MS: u32 = 5u32;

/// `v` held to the range of `i64`.
pub open spec fn clamp_i64(v: int) -> i64 {
    if v > i64::MAX {
        i64::MAX
    } else if v < i64::MIN {
        i64::MIN
    } else {
        v as i64
    }
}

/// `v` held to the range of `i32`.
pub open spec fn clamp_i32(v: int) -> i32 {
    if v > i32::MAX {
        i32::MAX
    } else if v < i32::MIN {
        i32::MIN
    } else {
        v as i32
    }
}

/// The position, in ticks, of a sensor counting in `direction` from offset
/// `offset`, whose raw position was `raw_offset` when that offset was taken
/// and is `raw` now: movement since then counts forward, or backward when
/// reversed. Held to the range of `i64`.
pub open spec fn position_of(direction: Direction, offset: i64, raw_offset: i32, raw: i32) -> i64 {
    let delta = raw - raw_offset;
    clamp_i64(
        offset + if direction == Direction::Reverse {
            -delta
        } else {
            delta
        },
    )
}

/// The outcome of a request on the sensor on Smart port `port` whose status
/// code is `raw`, yielding `value` when the sensor is present.
pub open spec fn rotation_outcome<T>(port: u8, raw: u8, value: T) -> Result<T, PortError> {
    match port_check(port, SmartDeviceType::Rotation, raw) {
        Ok(()) => Ok(value),
        Err(e) => Err(e),
    }
}

/// The computation interval word for an interval of `ms` milliseconds: at
/// least the minimum, taken as a `u32`, and rounded down to a multiple of 5.
pub open spec fn interval_word(ms: u128) -> u32 {
    let t = (if ms > MIN_DATA_INTERVAL_MS {
        ms
    } else {
        MIN_DATA_INTERVAL_MS as u128
    }) as u32;
    (t - t % 5) as u32
}

/// The interval word for a computation interval of `ms` milliseconds.
pub fn computation_interval_word(ms: u128) -> (r: u32)
    ensures
        r == interval_word(ms),
        r % 5 == 0,
{
    let big: u128 = if ms > MIN_DATA_INTERVAL_MS as u128 {
        ms
    } else {
        MIN_DATA_INTERVAL_MS as u128
    };
    let t: u32 = big as u32;
    t - t % 5
}

/// Changing direction does not move the position: right after the change the
/// sensor reports what it reported before; movement after the change counts
/// the other way, so turning a quarter, reversing, and turning the same
/// quarter again in the same physical direction brings the position back to
/// where it started.
pub proof fn lemma_direction_change(d: Direction, offset: i32, raw_offset: i32, raw: i32, later: i32)
    ensures
        ({
            let before = position_of(d, offset as i64, raw_offset, raw);
            let flipped = if d == Direction::Forward {
                Direction::Reverse
            } else {
                Direction::Forward
            };
            &&& position_of(flipped, before, raw, raw) == before
            &&& position_of(flipped, before, raw, later) == before - (position_of(d, 0, raw, later))
        }),
{
}

/// A set position reads back: once the position of a sensor counting in
/// `d` is set to `ticks`, the counted offsets start from zero, and a sensor
/// reporting the raw position that was written reports `ticks`. Positions
/// beyond the range of `i32`, where the raw position is held to that range,
/// are left out, and so is the most negative `i32` on a reversed sensor,
/// whose negation does not fit.
pub proof fn lemma_set_position_reads_back(d: Direction, ticks: i64)
    requires
        i32::MIN <= ticks <= i32::MAX,
        d == Direction::Reverse ==> ticks > i32::MIN,
    ensures
        position_of(
            d,
            0,
            0,
            clamp_i32(
                if d == Direction::Reverse {
                    -ticks
                } else {
                    ticks as int
                },
            ),
        ) == ticks,
{
}

/// A rotation sensor on a Smart port.
#[derive(Debug, PartialEq, Eq, Structural)]
pub struct RotationSensor {
    port: SmartPort,
    direction: Direction,
    direction_offset: i64,
    raw_direction_offset: i32,
}

impl RotationSensor {
    /// The Smart port the sensor is plugged into.
    pub closed spec fn port_spec(&self) -> u8 {
        self.port@
    }

    /// The direction the sensor counts as forward.
    pub closed spec fn direction_spec(&self) -> Direction {
        self.direction
    }

    /// The position, in ticks, counted up to the last change of direction.
    pub closed spec fn offset_spec(&self) -> i64 {
        self.direction_offset
    }

    /// The raw position at the last change of direction.
    pub closed spec fn raw_offset_spec(&self) -> i32 {
        self.raw_direction_offset
    }

    /// Creates a sensor on `port` counting in `direction`.
    pub fn new(port: SmartPort, direction: Direction) -> (r: RotationSensor)
        ensures
            r.port_spec() == port@,
            r.direction_spec() == direction,
            r.offset_spec() == 0,
            r.raw_offset_spec() == 0,
    {
        RotationSensor { port, direction, direction_offset: 0, raw_direction_offset: 0 }
    }

    /// Sets the sensor's position to `ticks`, given the status code of its
    /// Smart port; on success gives the raw position to write: `ticks`, or
    /// its negation when reversed, held to the range of `i32`. The counted
    /// offsets start again from zero.
    pub fn set_position(&mut self, ticks: i64, raw_status: u8) -> (r: Result<i32, PortError>)
        ensures
            final(self).port_spec() == old(self).port_spec(),
            final(self).direction_spec() == old(self).direction_spec(),
            r == rotation_outcome(
                old(self).port_spec(),
                raw_status,
                clamp_i32(
                    if old(self).direction_spec() == Direction::Reverse {
                        -ticks
                    } else {
                        ticks as int
                    },
                ),
            ),
            r is Ok ==> final(self).offset_spec() == 0 && final(self).raw_offset_spec() == 0,
            r is Err ==> *final(self) == *old(self),
    {
        if let Err(e) = validate_port(self.port.number(), SmartDeviceType::Rotation, raw_status) {
            return Err(e);
        }
        let v: i128 = if self.direction.is_reverse() {
            -(ticks as i128)
        } else {
            ticks as i128
        };
        let word: i32 = if v > i32::MAX as i128 {
            i32::MAX
        } else if v < i32::MIN as i128 {
            i32::MIN
        } else {
            v as i32
        };
        self.direction_offset = 0;
        self.raw_direction_offset = 0;
        Ok(word)
    }

    /// Resets the sensor's position to zero; see
    /// [`RotationSensor::set_position`].
    pub fn reset_position(&mut self, raw_status: u8) -> (r: Result<i32, PortError>)
        ensures
            final(self).port_spec() == old(self).port_spec(),
            final(self).direction_spec() == old(self).direction_spec(),
            r == rotation_outcome(old(self).port_spec(), raw_status, 0i32),
            r is Ok ==> final(self).offset_spec() == 0 && final(self).raw_offset_spec() == 0,
            r is Err ==> *final(self) == *old(self),
    {
        self.set_position(0, raw_status)
    }

    /// Changes the direction the sensor counts as forward, given the status
    /// code of its Smart port and the raw position VEXos reports. Movement
    /// already counted keeps its sign; only later movement counts the other
    /// way. Keeping the direction asks nothing of the port.
    pub fn set_direction(&mut self, new_direction: Direction, raw_status: u8, raw_position: i32) -> (r:
        Result<(), PortError>)
        ensures
            final(self).port_spec() == old(self).port_spec(),
            new_direction == old(self).direction_spec() ==> r is Ok && *final(self) == *old(self),
            new_direction != old(self).direction_spec() ==> r == rotation_outcome(
                old(self).port_spec(),
                raw_status,
                (),
            ),
            new_direction != old(self).direction_spec() && r is Ok ==> final(self).direction_spec()
                == new_direction && final(self).offset_spec() == position_of(
                old(self).direction_spec(),
                old(self).offset_spec(),
                old(self).raw_offset_spec(),
                raw_position,
            ) && final(self).raw_offset_spec() == raw_position,
            r is Err ==> *final(self) == *old(self),
    {
        if new_direction != self.direction {
            let p = match self.position(raw_status, raw_position) {
                Ok(p) => p,
                Err(e) => {
                    return Err(e);
                },
            };
            self.direction_offset = p;
            self.raw_direction_offset = raw_position;
            self.direction = new_direction;
        }
        Ok(())
    }

    /// Sets the interval at which the sensor computes, given the status code
    /// of its Smart port; on success gives the interval word to write (see
    /// [`computation_interval_word`]).
    pub fn set_computation_interval(&mut self, interval: Duration, raw_status: u8) -> (r: Result<
        u32,
        PortError,
    >)
        ensures
            *final(self) == *old(self),
            r == rotation_outcome(old(self).port_spec(), raw_status, interval_word(millis_of(interval))),
    {
        if let Err(e) = validate_port(self.port.number(), SmartDeviceType::Rotation, raw_status) {
            return Err(e);
        }
        let ms = duration_millis(interval);
        Ok(computation_interval_word(ms))
    }

    /// The direction the sensor counts as forward.
    pub fn direction(&self) -> (r: Direction)
        ensures
            r == self.direction_spec(),
    {
        self.direction
    }

    /// The sensor's position in ticks (centidegrees), given the status code
    /// of its Smart port and the raw position VEXos reports.
    pub fn position(&self, raw_status: u8, raw_position: i32) -> (r: Result<i64, PortError>)
        ensures
            r == rotation_outcome(
                self.port_spec(),
                raw_status,
                position_of(self.direction_spec(), self.offset_spec(), self.raw_offset_spec(), raw_position),
            ),
    {
        if let Err(e) = validate_port(self.port.number(), SmartDeviceType::Rotation, raw_status) {
            return Err(e);
        }
        let delta: i64 = raw_position as i64 - self.raw_direction_offset as i64;
        let signed: i64 = if self.direction.is_reverse() {
            -delta
        } else {
            delta
        };
        let sum: i128 = self.direction_offset as i128 + signed as i128;
        let p: i64 = if sum > i64::MAX as i128 {
            i64::MAX
        } else if sum < i64::MIN as i128 {
            i64::MIN
        } else {
            sum as i64
        };
        Ok(p)
    }

    /// The sensor's angle in ticks (centidegrees, 0 to 36000), given the
    /// status code of its Smart port and the raw angle VEXos reports; a
    /// reversed sensor measures the angle the other way round.
    pub fn angle(&self, raw_status: u8, raw_angle: i32) -> (r: Result<i32, PortError>)
        requires
            self.direction_spec() == Direction::Reverse ==> raw_angle >= TICKS_PER_REVOLUTION - i32::MAX,
        ensures
            r == rotation_outcome(
                self.port_spec(),
                raw_status,
                if self.direction_spec() == Direction::Reverse {
                    (TICKS_PER_REVOLUTION - raw_angle) as i32
                } else {
                    raw_angle
                },
            ),
    {
        if let Err(e) = validate_port(self.port.number(), SmartDeviceType::Rotation, raw_status) {
            return Err(e);
        }
        if self.direction.is_reverse() {
            Ok(36000i32 - raw_angle)
        } else {
            Ok(raw_angle)
        }
    }

    /// The sensor's velocity in ticks (centidegrees) per second, given the
    /// status code of its Smart port and the raw velocity VEXos reports;
    /// negated when reversed.
    pub fn velocity(&self, raw_status: u8, raw_velocity: i32) -> (r: Result<i32, PortError>)
        requires
            self.direction_spec() == Direction::Reverse ==> raw_velocity != i32::MIN,
        ensures
            r == rotation_outcome(
                self.port_spec(),
                raw_status,
                if self.direction_spec() == Direction::Reverse {
                    -raw_velocity as i32
                } else {
                    raw_velocity
                },
            ),
    {
        if let Err(e) = validate_port(self.port.number(), SmartDeviceType::Rotation, raw_status) {
            return Err(e);
        }
        if self.direction.is_reverse() {
            Ok(-raw_velocity)
        } else {
            Ok(raw_velocity)
        }
    }

    /// The sensor's status word, given the status code of its Smart port and
    /// the status VEXos reports.
    pub fn status(&self, raw_status: u8, status: u32) -> (r: Result<u32, PortError>)
        ensures
            r == rotation_outcome(self.port_spec(), raw_status, status),
    {
        match validate_port(self.port.number(), SmartDeviceType::Rotation, raw_status) {
            Ok(()) => Ok(status),
            Err(e) => Err(e),
        }
    }
}

impl SmartDevice for RotationSensor {
    fn port_number(&self) -> (r: u8)
        ensures
            r == self.port_spec(),
    {
        self.port.number()
    }

    fn device_type(&self) -> (r: SmartDeviceType)
        ensures
            r == SmartDeviceType::Rotation,
    {
        SmartDeviceType::Rotation
    }
}

} // verus!
