//! Cortex-era ADI servo.

use super::{
    configure_request, read_outcome, valid_adi_port, write_outcome, AdiConfigure, AdiDevice,
    AdiDeviceType, AdiPort, AdiValueWrite,
};
use crate::smart::PortError;
use vstd::prelude::*;

verus! {

/// A Cortex-era servo motor.
#[derive(Debug, PartialEq, Eq, Structural)]
pub struct AdiServo {
    port: AdiPort,
}

impl AdiServo {
    /// The device is built on an addressable port.
    #[verifier::type_invariant]
    spec fn inv(self) -> bool {
        valid_adi_port(self.port@)
    }

    /// The port this device is plugged into.
    pub closed spec fn port_spec(&self) -> (u8, Option<u8>) {
        self.port@
    }

    /// Creates the device on `port`; the port is to be configured as given by
    /// [`AdiServo::configuration`].
    pub fn new(port: AdiPort) -> (r: AdiServo)
        requires
            valid_adi_port(port@),
        ensures
            r.port_spec() == port@,
    {
        AdiServo { port }
    }

    /// The request that configures this device's port.
    pub fn configuration(&self) -> (r: AdiConfigure)
        ensures
            r == configure_request(self.port_spec(), AdiDeviceType::Servo),
    {
        proof {
            use_type_invariant(self);
        }
        self.port.configure(AdiDeviceType::Servo)
    }

    /// Sets the servo's raw target, -127 to 127, given the status code of the
    /// expander's Smart port; on success gives the write to perform.
    pub fn set_raw_target(&mut self, pwm: i8, raw_status: u8) -> (r: Result<AdiValueWrite, PortError>)
        ensures
            r == write_outcome(old(self).port_spec(), raw_status, pwm as i32),
            final(self).port_spec() == old(self).port_spec(),
    {
        proof {
            use_type_invariant(&*self);
        }
        self.port.checked_write(raw_status, pwm as i32)
    }
}

impl AdiDevice<1> for AdiServo {
    fn port_numbers(&self) -> (r: [u8; 1])
        ensures
            r@ == seq![self.port_spec().0],
    {
        [self.port.number()]
    }

    fn expander_port_number(&self) -> (r: Option<u8>)
        ensures
            r == self.port_spec().1,
    {
        self.port.expander_number()
    }

    fn device_type(&self) -> (r: AdiDeviceType)
        ensures
            r == AdiDeviceType::Servo,
    {
        AdiDeviceType::Servo
    }
}

} // verus!
