//! The V5 workcell electromagnet.

use super::{port_check, validate_port, PortError, SmartDevice, SmartDeviceType, SmartPort};
use vstd::prelude::*;

verus! {

/// The longest time, in milliseconds, the electromagnet may be powered at
/// once.
pub const MAX_POWER_DURATION_MS: u64 = 2000u64;

/// An electromagnet on a Smart port.
#[derive(Debug, PartialEq, Eq, Structural)]
pub struct Electromagnet {
    port: SmartPort,
}

impl Electromagnet {
    /// The Smart port the electromagnet is plugged into.
    pub closed spec fn port_spec(&self) -> u8 {
        self.port@
    }

    /// Creates an electromagnet on `port`.
    pub fn new(port: SmartPort) -> (r: Electromagnet)
        ensures
            r.port_spec() == port@,
    {
        Electromagnet { port }
    }

    /// The electromagnet's status word, given the status code of its Smart
    /// port and the status VEXos reports.
    pub fn status(&self, raw_status: u8, status: u32) -> (r: Result<u32, PortError>)
        ensures
            r == match port_check(self.port_spec(), SmartDeviceType::Electromagnet, raw_status) {
                Ok(()) => Ok(status),
                Err(e) => Err(e),
            },
    {
        match validate_port(self.port.number(), SmartDeviceType::Electromagnet, raw_status) {
            Ok(()) => Ok(status),
            Err(e) => Err(e),
        }
    }
}

impl SmartDevice for Electromagnet {
    fn port_number(&self) -> (r: u8)
        ensures
            r == self.port_spec(),
    {
        self.port.number()
    }

    fn device_type(&self) -> (r: SmartDeviceType)
        ensures
            r == SmartDeviceType::Electromagnet,
    {
        SmartDeviceType::Electromagnet
    }
}

} // verus!
