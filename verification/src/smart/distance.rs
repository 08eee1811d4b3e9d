//! Distance sensor status checks.

use super::{port_check, validate_port, PortError, SmartDevice, SmartDeviceType, SmartPort};
use vstd::prelude::*;

verus! {

/// Errors that can occur when reading a distance sensor's object.
#[derive(Debug, Clone, Copy, PartialEq, Eq, Structural)]
pub enum DistanceObjectError {
    /// The sensor is still starting up.
    StillInitializing,
    /// The sensor reported an unexpected status code.
    BadStatusCode {
        /// The status code reported.
        code: u32,
    },
    /// The sensor could not be reached.
    Port {
        /// The underlying port error.
        source: PortError,
    },
}

/// The reading a distance sensor reports when it sees no object.
pub const NO_OBJECT_DISTANCE: u32 = 9999u32;

/// A distance sensor on a Smart port.
#[derive(Debug, PartialEq, Eq, Structural)]
pub struct DistanceSensor {
    port: SmartPort,
}

/// The outcome of checking that the sensor on port `port`, whose status code
/// is `raw_status` and which reports status word `status`, can measure.
pub open spec fn distance_check(port: u8, raw_status: u8, status: u32) -> Result<(), DistanceObjectError> {
    match port_check(port, SmartDeviceType::Distance, raw_status) {
        Err(e) => Err(DistanceObjectError::Port { source: e }),
        Ok(()) => if status == 0 {
            Err(DistanceObjectError::StillInitializing)
        } else if status == 0x82 || status == 0x86 {
            Ok(())
        } else {
            Err(DistanceObjectError::BadStatusCode { code: status })
        },
    }
}

impl DistanceSensor {
    /// The Smart port the sensor is plugged into.
    pub closed spec fn port_spec(&self) -> u8 {
        self.port@
    }

    /// Creates a distance sensor on `port`.
    pub fn new(port: SmartPort) -> (r: DistanceSensor)
        ensures
            r.port_spec() == port@,
    {
        DistanceSensor { port }
    }

    /// The sensor's status word, given the status code of its Smart port and
    /// the word the sensor reports.
    pub fn status(&self, raw_status: u8, status: u32) -> (r: Result<u32, PortError>)
        ensures
            r == match port_check(self.port_spec(), SmartDeviceType::Distance, raw_status) {
                Ok(()) => Ok(status),
                Err(e) => Err(e),
            },
    {
        match validate_port(self.port.number(), SmartDeviceType::Distance, raw_status) {
            Ok(()) => Ok(status),
            Err(e) => Err(e),
        }
    }

    /// Checks that the sensor can measure: it must be present and report
    /// status 0x82 or 0x86; status 0 means it is still starting up.
    pub fn validate(&self, raw_status: u8, status: u32) -> (r: Result<(), DistanceObjectError>)
        ensures
            r == distance_check(self.port_spec(), raw_status, status),
    {
        match self.status(raw_status, status) {
            Err(e) => Err(DistanceObjectError::Port { source: e }),
            Ok(code) => if code == 0 {
                Err(DistanceObjectError::StillInitializing)
            } else if code == 0x82 || code == 0x86 {
                Ok(())
            } else {
                Err(DistanceObjectError::BadStatusCode { code })
            },
        }
    }

    /// The measured distance in millimeters, or `None` when no object is in
    /// view, once the sensor checks out.
    pub fn object_distance(&self, raw_status: u8, status: u32, raw_distance: u32) -> (r: Result<
        Option<u32>,
        DistanceObjectError,
    >)
        ensures
            r == match distance_check(self.port_spec(), raw_status, status) {
                Err(e) => Err(e),
                Ok(()) => Ok(
                    if raw_distance == NO_OBJECT_DISTANCE {
                        None
                    } else {
                        Some(raw_distance)
                    },
                ),
            },
    {
        match self.validate(raw_status, status) {
            Err(e) => Err(e),
            Ok(()) => if raw_distance == NO_OBJECT_DISTANCE {
                Ok(None)
            } else {
                Ok(Some(raw_distance))
            },
        }
    }
}

impl SmartDevice for DistanceSensor {
    fn port_number(&self) -> (r: u8)
        ensures
            r == self.port_spec(),
    {
        self.port.number()
    }

    fn device_type(&self) -> (r: SmartDeviceType)
        ensures
            r == SmartDeviceType::Distance,
    {
        SmartDeviceType::Distance
    }
}

} // verus!
