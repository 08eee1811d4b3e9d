//! Inertial sensor status bits, orientations and the calibration procedure.

use core::time::Duration;

use super::{duration_millis, millis_of, port_check, validate_port, PortError, SmartDevice, SmartDeviceType, SmartPort};
use crate::smart::rotation::{computation_interval_word, interval_word};
use vstd::prelude::*;

verus! {

/// The most time, in microseconds, to wait for calibration to start.
pub const CALIBRATION_START_TIMEOUT_US: u64 = 1_000_000u64;

/// The most time, in microseconds, to wait for calibration to end.
pub const CALIBRATION_END_TIMEOUT_US: u64 = 3_000_000u64;

/// The status word VEXos reports when the sensor fails to report its status.
pub const STATUS_ERROR: u32 = 0xFFu32;

/// The status bit set while the sensor calibrates.
pub const CALIBRATING: u32 = 0b00001u32;

/// The status bit set when the sensor calibrated itself.
pub const AUTO_CALIBRATED: u32 = 0b10000u32;

/// The physical orientation of an inertial sensor relative to gravity.
#[derive(Debug, Clone, Copy, PartialEq, Eq, Structural)]
pub enum InertialOrientation {
    /// Z axis up (VEX logo facing down).
    ZUp,
    /// Z axis down (VEX logo facing up).
    ZDown,
    /// X axis up.
    XUp,
    /// X axis down.
    XDown,
    /// Y axis up.
    YUp,
    /// Y axis down.
    YDown,
}

/// The orientation that the three status bits `v` (0 to 5) stand for.
pub open spec fn orientation_of(v: u32) -> InertialOrientation {
    if v == 0 {
        InertialOrientation::ZUp
    } else if v == 1 {
        InertialOrientation::ZDown
    } else if v == 2 {
        InertialOrientation::XUp
    } else if v == 3 {
        InertialOrientation::XDown
    } else if v == 4 {
        InertialOrientation::YUp
    } else {
        InertialOrientation::YDown
    }
}

/// The raw VEXos code of an orientation.
pub open spec fn orientation_code(o: InertialOrientation) -> u8 {
    match o {
        InertialOrientation::ZUp => 0x00,
        InertialOrientation::ZDown => 0x10,
        InertialOrientation::XUp => 0x20,
        InertialOrientation::XDown => 0x30,
        InertialOrientation::YUp => 0x40,
        InertialOrientation::YDown => 0x50,
    }
}

impl InertialOrientation {
    /// The raw VEXos code of this orientation.
    pub fn into_raw(self) -> (r: u8)
        ensures
            r == orientation_code(self),
    {
        match self {
            InertialOrientation::ZUp => 0x00,
            InertialOrientation::ZDown => 0x10,
            InertialOrientation::XUp => 0x20,
            InertialOrientation::XDown => 0x30,
            InertialOrientation::YUp => 0x40,
            InertialOrientation::YDown => 0x50,
        }
    }
}

/// The status bits reported by an inertial sensor.
#[derive(Debug, Clone, Copy, PartialEq, Eq, Structural)]
pub struct InertialStatus {
    bits: u32,
}

impl View for InertialStatus {
    type V = u32;

    /// A status is seen as its bits.
    closed spec fn view(&self) -> u32 {
        self.bits
    }
}

/// The orientation field of a status word: bits 1 to 3.
pub open spec fn orientation_field(bits: u32) -> u32 {
    (bits >> 1u32) & 7u32
}

impl InertialStatus {
    /// Keeps every bit of a raw status word.
    pub fn from_bits_retain(bits: u32) -> (r: InertialStatus)
        ensures
            r@ == bits,
    {
        InertialStatus { bits }
    }

    /// The raw status word.
    pub fn bits(&self) -> (r: u32)
        ensures
            r == self@,
    {
        self.bits
    }

    /// Whether every bit of `flags` is set.
    pub fn contains(&self, flags: u32) -> (r: bool)
        ensures
            r == (self@ & flags == flags),
    {
        self.bits & flags == flags
    }

    /// Whether no bit is set.
    pub fn is_empty(&self) -> (r: bool)
        ensures
            r == (self@ == 0),
    {
        self.bits == 0
    }

    /// The orientation the sensor was calibrated in, read from status bits 1
    /// to 3; the two field values that name no orientation, 6 and 7, are
    /// refused by `requires`.
    pub fn physical_orientation(&self) -> (r: InertialOrientation)
        requires
            orientation_field(self@) < 6,
        ensures
            r == orientation_of(orientation_field(self@)),
    {
        let v = (self.bits >> 1u32) & 7u32;
        if v == 0 {
            InertialOrientation::ZUp
        } else if v == 1 {
            InertialOrientation::ZDown
        } else if v == 2 {
            InertialOrientation::XUp
        } else if v == 3 {
            InertialOrientation::XDown
        } else if v == 4 {
            InertialOrientation::YUp
        } else {
            InertialOrientation::YDown
        }
    }
}

/// A waiting phase of an inertial sensor calibration.
#[derive(Debug, Clone, Copy, PartialEq, Eq, Structural)]
pub enum CalibrationPhase {
    /// Waiting for the sensor to report any status at all.
    Status,
    /// Waiting for the sensor to start calibrating.
    Start,
    /// Waiting for the sensor to finish calibrating.
    End,
}

/// Errors that can occur when using an inertial sensor.
#[derive(Debug, Clone, Copy, PartialEq, Eq, Structural)]
pub enum InertialError {
    /// The calibration took too long.
    CalibrationTimedOut,
    /// The sensor is still calibrating.
    StillCalibrating,
    /// The sensor failed to report its status.
    BadStatus,
    /// The sensor could not be reached.
    Port {
        /// The underlying port error.
        source: PortError,
    },
}

/// The status an inertial sensor on port `port` reports, given the port's
/// status code and the status bits VEXos reports: all bits set means the
/// sensor failed to report.
pub open spec fn imu_status(port: u8, raw_status: u8, bits: u32) -> Result<u32, InertialError> {
    match port_check(port, SmartDeviceType::Imu, raw_status) {
        Err(e) => Err(InertialError::Port { source: e }),
        Ok(()) => if bits == STATUS_ERROR {
            Err(InertialError::BadStatus)
        } else {
            Ok(bits)
        },
    }
}

/// Whether an inertial sensor can be read: it reports a status, and is not
/// calibrating.
pub open spec fn imu_ready(port: u8, raw_status: u8, bits: u32) -> Result<(), InertialError> {
    match imu_status(port, raw_status, bits) {
        Err(e) => Err(e),
        Ok(b) => if b & CALIBRATING == CALIBRATING {
            Err(InertialError::StillCalibrating)
        } else {
            Ok(())
        },
    }
}

/// An inertial sensor on a Smart port.
#[derive(Debug, PartialEq, Eq, Structural)]
pub struct InertialSensor {
    port: SmartPort,
}

impl InertialSensor {
    /// The Smart port the sensor is plugged into.
    pub closed spec fn port_spec(&self) -> u8 {
        self.port@
    }

    /// Creates an inertial sensor on `port`.
    pub fn new(port: SmartPort) -> (r: InertialSensor)
        ensures
            r.port_spec() == port@,
    {
        InertialSensor { port }
    }

    /// Starts a calibration, driven by polling the returned future.
    pub fn calibrate(&mut self) -> (r: InertialCalibrateFuture)
        ensures
            r.state_spec() == ImuCalibrationState::Calibrate,
            final(self).port_spec() == old(self).port_spec(),
    {
        InertialCalibrateFuture { state: ImuCalibrationState::Calibrate }
    }

    /// The sensor's status, given the status code of its Smart port and the
    /// status bits VEXos reports.
    pub fn status(&self, raw_status: u8, bits: u32) -> (r: Result<InertialStatus, InertialError>)
        ensures
            match r {
                Ok(st) => imu_status(self.port_spec(), raw_status, bits) == Ok::<u32, InertialError>(st@),
                Err(e) => imu_status(self.port_spec(), raw_status, bits) == Err::<u32, InertialError>(e),
            },
    {
        if let Err(e) = validate_port(self.port.number(), SmartDeviceType::Imu, raw_status) {
            return Err(InertialError::Port { source: e });
        }
        if bits == STATUS_ERROR {
            return Err(InertialError::BadStatus);
        }
        Ok(InertialStatus::from_bits_retain(bits))
    }

    /// Whether the sensor is calibrating, given the status code of its Smart
    /// port and the status bits VEXos reports.
    pub fn is_calibrating(&self, raw_status: u8, bits: u32) -> (r: Result<bool, InertialError>)
        ensures
            r == match imu_status(self.port_spec(), raw_status, bits) {
                Ok(b) => Ok(b & CALIBRATING == CALIBRATING),
                Err(e) => Err(e),
            },
    {
        match self.status(raw_status, bits) {
            Ok(st) => Ok(st.contains(CALIBRATING)),
            Err(e) => Err(e),
        }
    }

    /// Whether the sensor calibrated itself automatically, given the status
    /// code of its Smart port and the status bits VEXos reports.
    pub fn is_auto_calibrated(&self, raw_status: u8, bits: u32) -> (r: Result<bool, InertialError>)
        ensures
            r == match imu_status(self.port_spec(), raw_status, bits) {
                Ok(b) => Ok(b & AUTO_CALIBRATED == AUTO_CALIBRATED),
                Err(e) => Err(e),
            },
    {
        match self.status(raw_status, bits) {
            Ok(st) => Ok(st.contains(AUTO_CALIBRATED)),
            Err(e) => Err(e),
        }
    }

    /// The orientation the sensor was calibrated in, given the status code of
    /// its Smart port and the status bits VEXos reports.
    ///
    /// Status bits whose orientation field names no orientation (6 or 7) are
    /// refused by `requires`.
    pub fn physical_orientation(&self, raw_status: u8, bits: u32) -> (r: Result<InertialOrientation, InertialError>)
        requires
            imu_status(self.port_spec(), raw_status, bits) is Ok ==> orientation_field(bits) < 6,
        ensures
            r == match imu_status(self.port_spec(), raw_status, bits) {
                Ok(b) => Ok(orientation_of(orientation_field(b))),
                Err(e) => Err(e),
            },
    {
        match self.status(raw_status, bits) {
            Ok(st) => Ok(st.physical_orientation()),
            Err(e) => Err(e),
        }
    }

    /// Checks that the sensor can be read, given the status code of its
    /// Smart port and the status bits VEXos reports: it must report a status
    /// and must not be calibrating.
    pub fn validate(&self, raw_status: u8, bits: u32) -> (r: Result<(), InertialError>)
        ensures
            r == imu_ready(self.port_spec(), raw_status, bits),
    {
        match self.is_calibrating(raw_status, bits) {
            Ok(true) => Err(InertialError::StillCalibrating),
            Ok(false) => Ok(()),
            Err(e) => Err(e),
        }
    }

    /// Sets the interval at which the sensor reports data, given the status
    /// code of its Smart port and the status bits VEXos reports; on success
    /// gives the interval word to write (see
    /// [`computation_interval_word`]).
    pub fn set_data_interval(&mut self, interval: Duration, raw_status: u8, bits: u32) -> (r: Result<
        u32,
        InertialError,
    >)
        ensures
            *final(self) == *old(self),
            r == match imu_ready(old(self).port_spec(), raw_status, bits) {
                Ok(()) => Ok(interval_word(millis_of(interval))),
                Err(e) => Err(e),
            },
    {
        if let Err(e) = self.validate(raw_status, bits) {
            return Err(e);
        }
        let ms = duration_millis(interval);
        Ok(computation_interval_word(ms))
    }
}

impl SmartDevice for InertialSensor {
    fn port_number(&self) -> (r: u8)
        ensures
            r == self.port_spec(),
    {
        self.port.number()
    }

    fn device_type(&self) -> (r: SmartDeviceType)
        ensures
            r == SmartDeviceType::Imu,
    {
        SmartDeviceType::Imu
    }
}

/// The state of an inertial sensor calibration.
#[derive(Debug, Clone, Copy, PartialEq, Eq, Structural)]
pub enum ImuCalibrationState {
    /// The calibration has not been requested yet.
    Calibrate,
    /// Waiting, since the given time in microseconds, in the given phase.
    Waiting(u64, CalibrationPhase),
}

/// The result of one poll of an inertial sensor calibration.
#[derive(Debug, Clone, Copy, PartialEq, Eq)]
pub enum ImuCalibrationPoll {
    /// The calibration goes on; `reset` asks VEXos to start calibrating.
    Pending {
        /// Whether the sensor is to be asked to start calibrating now.
        reset: bool,
    },
    /// The calibration is over, successfully or not.
    Ready(Result<(), InertialError>),
}

/// How long a calibration may wait in a phase, in microseconds.
pub open spec fn phase_timeout(phase: CalibrationPhase) -> u64 {
    match phase {
        CalibrationPhase::Start | CalibrationPhase::Status => CALIBRATION_START_TIMEOUT_US,
        CalibrationPhase::End => CALIBRATION_END_TIMEOUT_US,
    }
}

/// The time elapsed from `since` to `now`, zero if `now` comes first.
pub open spec fn elapsed(since: u64, now: u64) -> u64 {
    if now >= since {
        (now - since) as u64
    } else {
        0
    }
}

/// One step of a calibration of the sensor on Smart port `port`: the new
/// state and the poll result, given the port's status code, the sensor's
/// status word and the time in microseconds.
pub open spec fn imu_calibration_step(
    state: ImuCalibrationState,
    port: u8,
    raw_status: u8,
    flags: u32,
    now: u64,
) -> (ImuCalibrationState, ImuCalibrationPoll) {
    match port_check(port, SmartDeviceType::Imu, raw_status) {
        Err(e) => (state, ImuCalibrationPoll::Ready(Err(InertialError::Port { source: e }))),
        Ok(()) => if flags == STATUS_ERROR {
            (state, ImuCalibrationPoll::Ready(Err(InertialError::BadStatus)))
        } else {
            let state = if flags == 0 {
                ImuCalibrationState::Waiting(now, CalibrationPhase::Status)
            } else {
                state
            };
            let calibrating = flags & CALIBRATING == CALIBRATING;
            match state {
                ImuCalibrationState::Calibrate => if calibrating {
                    (
                        ImuCalibrationState::Waiting(now, CalibrationPhase::End),
                        ImuCalibrationPoll::Pending { reset: false },
                    )
                } else {
                    (
                        ImuCalibrationState::Waiting(now, CalibrationPhase::Start),
                        ImuCalibrationPoll::Pending { reset: true },
                    )
                },
                ImuCalibrationState::Waiting(since, phase) => if elapsed(since, now) > phase_timeout(
                    phase,
                ) {
                    (state, ImuCalibrationPoll::Ready(Err(InertialError::CalibrationTimedOut)))
                } else if calibrating && phase == CalibrationPhase::Start {
                    (
                        ImuCalibrationState::Waiting(now, CalibrationPhase::End),
                        ImuCalibrationPoll::Pending { reset: false },
                    )
                } else if flags != 0 && phase == CalibrationPhase::Status {
                    (ImuCalibrationState::Calibrate, ImuCalibrationPoll::Pending { reset: false })
                } else if !calibrating && phase == CalibrationPhase::End {
                    (state, ImuCalibrationPoll::Ready(Ok(())))
                } else {
                    (state, ImuCalibrationPoll::Pending { reset: false })
                },
            }
        },
    }
}

/// An inertial sensor calibration in progress.
#[derive(Debug)]
pub struct InertialCalibrateFuture {
    state: ImuCalibrationState,
}

impl InertialCalibrateFuture {
    /// The calibration's current state.
    pub closed spec fn state_spec(&self) -> ImuCalibrationState {
        self.state
    }

    /// The calibration's current state.
    pub fn state(&self) -> (r: ImuCalibrationState)
        ensures
            r == self.state_spec(),
    {
        self.state
    }

    /// Advances the calibration of `imu`, given the status code of its Smart
    /// port, the status word the sensor reports and the time in microseconds.
    ///
    /// A missing sensor or a failed status report ends the calibration. A
    /// sensor that reports no status at all is waited for. A sensor that is
    /// already calibrating is waited for; otherwise it is asked to calibrate.
    /// Each wait gives up with a timeout after one second for the start and
    /// three seconds for the end of the calibration.
    pub fn poll(&mut self, imu: &InertialSensor, raw_status: u8, flags: u32, now: u64) -> (r:
        ImuCalibrationPoll)
        ensures
            (final(self).state_spec(), r) == imu_calibration_step(
                old(self).state_spec(),
                imu.port_spec(),
                raw_status,
                flags,
                now,
            ),
    {
        match validate_port(imu.port.number(), SmartDeviceType::Imu, raw_status) {
            Err(e) => ImuCalibrationPoll::Ready(Err(InertialError::Port { source: e })),
            Ok(()) => {
                if flags == STATUS_ERROR {
                    return ImuCalibrationPoll::Ready(Err(InertialError::BadStatus));
                }
                if flags == 0 {
                    self.state = ImuCalibrationState::Waiting(now, CalibrationPhase::Status);
                }
                let calibrating = flags & CALIBRATING == CALIBRATING;
                match self.state {
                    ImuCalibrationState::Calibrate => {
                        if calibrating {
                            self.state = ImuCalibrationState::Waiting(now, CalibrationPhase::End);
                            ImuCalibrationPoll::Pending { reset: false }
                        } else {
                            self.state = ImuCalibrationState::Waiting(now, CalibrationPhase::Start);
                            ImuCalibrationPoll::Pending { reset: true }
                        }
                    },
                    ImuCalibrationState::Waiting(since, phase) => {
                        let waited: u64 = if now >= since {
                            now - since
                        } else {
                            0
                        };
                        let timeout: u64 = match phase {
                            CalibrationPhase::Start | CalibrationPhase::Status => CALIBRATION_START_TIMEOUT_US,
                            CalibrationPhase::End => CALIBRATION_END_TIMEOUT_US,
                        };
                        if waited > timeout {
                            ImuCalibrationPoll::Ready(Err(InertialError::CalibrationTimedOut))
                        } else if calibrating && phase == CalibrationPhase::Start {
                            self.state = ImuCalibrationState::Waiting(now, CalibrationPhase::End);
                            ImuCalibrationPoll::Pending { reset: false }
                        } else if flags != 0 && phase == CalibrationPhase::Status {
                            self.state = ImuCalibrationState::Calibrate;
                            ImuCalibrationPoll::Pending { reset: false }
                        } else if !calibrating && phase == CalibrationPhase::End {
                            ImuCalibrationPoll::Ready(Ok(()))
                        } else {
                            ImuCalibrationPoll::Pending { reset: false }
                        }
                    },
                }
            },
        }
    }
}

/// A calibration only succeeds from its end phase, once the sensor reports
/// that it is no longer calibrating; and a wait that has lasted longer than
/// its phase allows (one second to start, three to end) ends the
/// calibration with a timeout, whatever the sensor reports, unless the
/// sensor is missing or reports nothing or a failure.
pub proof fn lemma_imu_success_needs_end(
    state: ImuCalibrationState,
    port: u8,
    raw_status: u8,
    flags: u32,
    now: u64,
)
    ensures
        imu_calibration_step(state, port, raw_status, flags, now).1 == ImuCalibrationPoll::Ready(
            Ok(()),
        ) ==> (state matches ImuCalibrationState::Waiting(_, CalibrationPhase::End) && flags
            & CALIBRATING != CALIBRATING && flags != 0),
        (state matches ImuCalibrationState::Waiting(since, phase) && elapsed(since, now)
            > phase_timeout(phase) && port_check(port, SmartDeviceType::Imu, raw_status) is Ok
            && flags != STATUS_ERROR && flags != 0) ==> imu_calibration_step(
            state,
            port,
            raw_status,
            flags,
            now,
        ).1 == ImuCalibrationPoll::Ready(Err(InertialError::CalibrationTimedOut)),
        phase_timeout(CalibrationPhase::Start) == 1_000_000,
        phase_timeout(CalibrationPhase::End) == 3_000_000,
{
}

} // verus!
