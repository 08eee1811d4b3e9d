//! Generic ADI PWM output.

use super::{
    configure_request, read_outcome, valid_adi_port, write_outcome, AdiConfigure, AdiDevice,
    AdiDeviceType, AdiPort, AdiValueWrite,
};
use crate::smart::PortError;
use vstd::prelude::*;

verus! {

/// A generic 8-bit PWM output.
#[derive(Debug, PartialEq, Eq, Structural)]
pub struct AdiPwmOut {
    port: AdiPort,
}

impl AdiPwmOut {
    /// The device is built on an addressable port.
    #[verifier::type_invariant]
    spec fn inv(self) -> bool {
        valid_adi_port(self.port@)
    }

    /// The port this device is plugged into.
    pub closed spec fn port_spec(&self) -> (u8, Option<u8>) {
        self.port@
    }

    /// Creates the device on `port`; the port is to be configured as given by
    /// [`AdiPwmOut::configuration`].
    pub fn new(port: AdiPort) -> (r: AdiPwmOut)
        requires
            valid_adi_port(port@),
        ensures
            r.port_spec() == port@,
    {
        AdiPwmOut { port }
    }

    /// The request that configures this device's port.
    pub fn configuration(&self) -> (r: AdiConfigure)
        ensures
            r == configure_request(self.port_spec(), AdiDeviceType::PwmOut),
    {
        proof {
            use_type_invariant(self);
        }
        self.port.configure(AdiDeviceType::PwmOut)
    }

    /// Sets the port's 8-bit PWM output, given the status code of the
    /// expander's Smart port; on success gives the write to perform.
    pub fn set_output(&mut self, value: u8, raw_status: u8) -> (r: Result<AdiValueWrite, PortError>)
        ensures
            r == write_outcome(old(self).port_spec(), raw_status, value as i32),
            final(self).port_spec() == old(self).port_spec(),
    {
        proof {
            use_type_invariant(&*self);
        }
        self.port.checked_write(raw_status, value as i32)
    }
}

impl AdiDevice<1> for AdiPwmOut {
    fn port_numbers(&self) -> (r: [u8; 1])
        ensures
            r@ == seq![self.port_spec().0],
    {
        [self.port.number()]
    }

    fn expander_port_number(&self) -> (r: Option<u8>)
        ensures
            r == self.port_spec().1,
    {
        self.port.expander_number()
    }

    fn device_type(&self) -> (r: AdiDeviceType)
        ensures
            r == AdiDeviceType::PwmOut,
    {
        AdiDeviceType::PwmOut
    }
}

} // verus!
