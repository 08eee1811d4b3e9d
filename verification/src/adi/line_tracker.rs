//! Cortex-era ADI line tracker.

use super::{
    configure_request, read_outcome, valid_adi_port, write_outcome, AdiConfigure, AdiDevice,
    AdiDeviceType, AdiPort, AdiValueWrite,
};
use crate::smart::PortError;
use vstd::prelude::*;

verus! {

/// A Cortex-era line tracker; lower readings mean a more reflective surface.
#[derive(Debug, PartialEq, Eq, Structural)]
pub struct AdiLineTracker {
    port: AdiPort,
}

impl AdiLineTracker {
    /// The device is built on an addressable port.
    #[verifier::type_invariant]
    spec fn inv(self) -> bool {
        valid_adi_port(self.port@)
    }

    /// The port this device is plugged into.
    pub closed spec fn port_spec(&self) -> (u8, Option<u8>) {
        self.port@
    }

    /// Creates the device on `port`; the port is to be configured as given by
    /// [`AdiLineTracker::configuration`].
    pub fn new(port: AdiPort) -> (r: AdiLineTracker)
        requires
            valid_adi_port(port@),
        ensures
            r.port_spec() == port@,
    {
        AdiLineTracker { port }
    }

    /// The request that configures this device's port.
    pub fn configuration(&self) -> (r: AdiConfigure)
        ensures
            r == configure_request(self.port_spec(), AdiDeviceType::LineTracker),
    {
        proof {
            use_type_invariant(self);
        }
        self.port.configure(AdiDeviceType::LineTracker)
    }

    /// The raw reflectivity reading, from 0 to 4095, given the status code of the expander's Smart
    /// port and the value VEXos reports.
    pub fn raw_reflectivity(&self, raw_status: u8, raw_value: i32) -> (r: Result<u16, PortError>)
        ensures
            r == read_outcome(self.port_spec(), raw_status, raw_value as u16),
    {
        match self.port.validate_expander(raw_status) {
            Ok(()) => Ok(raw_value as u16),
            Err(e) => Err(e),
        }
    }
}

impl AdiDevice<1> for AdiLineTracker {
    fn port_numbers(&self) -> (r: [u8; 1])
        ensures
            r@ == seq![self.port_spec().0],
    {
        [self.port.number()]
    }

    fn expander_port_number(&self) -> (r: Option<u8>)
        ensures
            r == self.port_spec().1,
    {
        self.port.expander_number()
    }

    fn device_type(&self) -> (r: AdiDeviceType)
        ensures
            r == AdiDeviceType::LineTracker,
    {
        AdiDeviceType::LineTracker
    }
}

} // verus!
