//! Cortex-era ADI yaw-rate gyroscope and its calibration.

use core::time::Duration;

use super::{
    configure_request, expander_check, read_outcome, valid_adi_port, write_request, AdiConfigure,
    AdiDevice, AdiDeviceType, AdiPort, AdiValueWrite,
};
use crate::smart::{duration_millis, millis_of, PortError};
use vstd::prelude::*;

verus! {

/// The value a gyroscope port reads while the gyroscope is calibrating.
pub const CALIBRATING_MAGIC: i32 = -0x8000i32;

/// Errors of reading a gyroscope's yaw.
#[derive(Debug, Clone, Copy, PartialEq, Eq, Structural)]
pub enum YawError {
    /// The gyroscope is still calibrating.
    StillCalibrating,
    /// The expander's port is not what it should be.
    Port {
        /// What is wrong with the port.
        source: PortError,
    },
}

/// A Cortex-era yaw-rate gyroscope.
#[derive(Debug, PartialEq, Eq, Structural)]
pub struct AdiGyroscope {
    port: AdiPort,
}

impl AdiGyroscope {
    /// The gyroscope is built on an addressable port.
    #[verifier::type_invariant]
    spec fn inv(self) -> bool {
        valid_adi_port(self.port@)
    }

    /// The port this gyroscope is plugged into.
    pub closed spec fn port_spec(&self) -> (u8, Option<u8>) {
        self.port@
    }

    /// Creates a gyroscope on `port`; the port is to be configured as given by
    /// [`AdiGyroscope::configuration`].
    pub fn new(port: AdiPort) -> (r: AdiGyroscope)
        requires
            valid_adi_port(port@),
        ensures
            r.port_spec() == port@,
    {
        AdiGyroscope { port }
    }

    /// The request that configures this gyroscope's port.
    pub fn configuration(&self) -> (r: AdiConfigure)
        ensures
            r == configure_request(self.port_spec(), AdiDeviceType::Gyro),
    {
        proof {
            use_type_invariant(self);
        }
        self.port.configure(AdiDeviceType::Gyro)
    }

    /// Whether the gyroscope is calibrating, given the status code of the
    /// expander's Smart port and the value VEXos reports.
    pub fn is_calibrating(&self, raw_status: u8, raw_value: i32) -> (r: Result<bool, PortError>)
        ensures
            r == read_outcome(self.port_spec(), raw_status, raw_value == CALIBRATING_MAGIC),
    {
        match self.port.validate_expander(raw_status) {
            Ok(()) => Ok(raw_value == CALIBRATING_MAGIC),
            Err(e) => Err(e),
        }
    }

    /// The gyroscope's yaw in tenths of a degree, given the status code of
    /// the expander's Smart port, the value VEXos reports when asked whether
    /// the gyroscope calibrates, and the value it reports next for the yaw.
    pub fn yaw(&self, raw_status: u8, calibration_value: i32, raw_value: i32) -> (r: Result<i32, YawError>)
        ensures
            r == match expander_check(self.port_spec(), raw_status) {
                Err(e) => Err(YawError::Port { source: e }),
                Ok(()) => if calibration_value == CALIBRATING_MAGIC {
                    Err(YawError::StillCalibrating)
                } else {
                    Ok(raw_value)
                },
            },
    {
        match self.is_calibrating(raw_status, calibration_value) {
            Err(e) => Err(YawError::Port { source: e }),
            Ok(true) => Err(YawError::StillCalibrating),
            Ok(false) => Ok(raw_value),
        }
    }

    /// Starts calibrating the gyroscope for `duration`; the calibration is
    /// driven by polling the returned [`CalibrateFuture`].
    pub fn calibrate(&mut self, duration: Duration) -> (r: CalibrateFuture)
        ensures
            r.state_spec() == (CalibrationState::Calibrate { calibration_millis: millis_of(duration) }),
            final(self).port_spec() == old(self).port_spec(),
    {
        let ms = duration_millis(duration);
        CalibrateFuture { state: CalibrationState::Calibrate { calibration_millis: ms } }
    }
}

impl AdiDevice<1> for AdiGyroscope {
    fn port_numbers(&self) -> (r: [u8; 1])
        ensures
            r@ == seq![self.port_spec().0],
    {
        [self.port.number()]
    }

    fn expander_port_number(&self) -> (r: Option<u8>)
        ensures
            r == self.port_spec().1,
    {
        self.port.expander_number()
    }

    fn device_type(&self) -> (r: AdiDeviceType)
        ensures
            r == AdiDeviceType::Gyro,
    {
        AdiDeviceType::Gyro
    }
}

/// The phase a gyroscope calibration is in.
#[derive(Debug, Clone, Copy, PartialEq, Eq, Structural)]
pub enum CalibrationState {
    /// The calibration request has not been sent yet.
    Calibrate {
        /// How long to calibrate, in milliseconds.
        calibration_millis: u128,
    },
    /// Waiting for the gyroscope to report that it is calibrating.
    WaitingStart,
    /// Waiting for the gyroscope to report that it is done calibrating.
    WaitingEnd,
}

/// The result of one poll of a calibration.
#[derive(Debug, Clone, Copy, PartialEq, Eq)]
pub enum CalibrationPoll {
    /// The calibration goes on; a write to perform may come with it.
    Pending(Option<AdiValueWrite>),
    /// The calibration is over, successfully or not.
    Ready(Result<(), PortError>),
}

/// A gyroscope calibration in progress, created by
/// [`AdiGyroscope::calibrate`].
#[derive(Debug)]
pub struct CalibrateFuture {
    state: CalibrationState,
}

/// One step of a calibration on port `p`: the new state and the poll result,
/// given the expander's status code and the value the port reports.
pub open spec fn calibration_step(
    state: CalibrationState,
    p: (u8, Option<u8>),
    raw_status: u8,
    raw_value: i32,
) -> (CalibrationState, CalibrationPoll) {
    match state {
        CalibrationState::Calibrate { calibration_millis } => match expander_check(p, raw_status) {
            Ok(()) => (
                CalibrationState::WaitingStart,
                CalibrationPoll::Pending(
                    Some(write_request(p, calibration_millis as i32)),
                ),
            ),
            Err(e) => (state, CalibrationPoll::Ready(Err(e))),
        },
        CalibrationState::WaitingStart => match expander_check(p, raw_status) {
            Err(e) => (state, CalibrationPoll::Ready(Err(e))),
            Ok(()) => if raw_value == CALIBRATING_MAGIC {
                (CalibrationState::WaitingEnd, CalibrationPoll::Pending(None))
            } else {
                (state, CalibrationPoll::Pending(None))
            },
        },
        CalibrationState::WaitingEnd => match expander_check(p, raw_status) {
            Err(e) => (state, CalibrationPoll::Ready(Err(e))),
            Ok(()) => if raw_value == CALIBRATING_MAGIC {
                (state, CalibrationPoll::Pending(None))
            } else {
                (state, CalibrationPoll::Ready(Ok(())))
            },
        },
    }
}

impl CalibrateFuture {
    /// The calibration's current phase.
    pub closed spec fn state_spec(&self) -> CalibrationState {
        self.state
    }

    /// The calibration's current phase.
    pub fn state(&self) -> (r: CalibrationState)
        ensures
            r == self.state_spec(),
    {
        self.state
    }

    /// Advances the calibration of `gyro`, given the status code of its
    /// expander's Smart port and the value VEXos reports for its port.
    ///
    /// First the calibration request is written; then the calibration waits
    /// for the port to read the calibrating value, and then for it to stop
    /// reading it. A missing expander ends the calibration with its error.
    pub fn poll(&mut self, gyro: &AdiGyroscope, raw_status: u8, raw_value: i32) -> (r: CalibrationPoll)
        ensures
            (final(self).state_spec(), r) == calibration_step(
                old(self).state_spec(),
                gyro.port_spec(),
                raw_status,
                raw_value,
            ),
    {
        proof {
            use_type_invariant(gyro);
        }
        match self.state {
            CalibrationState::Calibrate { calibration_millis } => match gyro.port.validate_expander(
                raw_status,
            ) {
                Ok(()) => {
                    let w = gyro.port.write(calibration_millis as i32);
                    self.state = CalibrationState::WaitingStart;
                    CalibrationPoll::Pending(Some(w))
                },
                Err(e) => CalibrationPoll::Ready(Err(e)),
            },
            CalibrationState::WaitingStart => match gyro.is_calibrating(raw_status, raw_value) {
                Err(e) => CalibrationPoll::Ready(Err(e)),
                Ok(true) => {
                    self.state = CalibrationState::WaitingEnd;
                    CalibrationPoll::Pending(None)
                },
                Ok(false) => CalibrationPoll::Pending(None),
            },
            CalibrationState::WaitingEnd => match gyro.is_calibrating(raw_status, raw_value) {
                Err(e) => CalibrationPoll::Ready(Err(e)),
                Ok(true) => CalibrationPoll::Pending(None),
                Ok(false) => CalibrationPoll::Ready(Ok(())),
            },
        }
    }
}

/// A calibration never finishes successfully before the gyroscope has been
/// seen calibrating: from the first two phases a poll is never a success.
pub proof fn lemma_calibration_needs_start(
    state: CalibrationState,
    p: (u8, Option<u8>),
    raw_status: u8,
    raw_value: i32,
)
    requires
        !(state is WaitingEnd),
    ensures
        calibration_step(state, p, raw_status, raw_value).1 != CalibrationPoll::Ready(Ok(())),
{
}

} // verus!
