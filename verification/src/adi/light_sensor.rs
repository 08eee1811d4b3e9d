//! Cortex-era ADI light sensor.

use super::{
    configure_request, read_outcome, valid_adi_port, write_outcome, AdiConfigure, AdiDevice,
    AdiDeviceType, AdiPort, AdiValueWrite,
};
use crate::smart::PortError;
use vstd::prelude::*;

verus! {

/// A Cortex-era light sensor; lower readings mean more light.
#[derive(Debug, PartialEq, Eq, Structural)]
pub struct AdiLightSensor {
    port: AdiPort,
}

impl AdiLightSensor {
    /// The device is built on an addressable port.
    #[verifier::type_invariant]
    spec fn inv(self) -> bool {
        valid_adi_port(self.port@)
    }

    /// The port this device is plugged into.
    pub closed spec fn port_spec(&self) -> (u8, Option<u8>) {
        self.port@
    }

    /// Creates the device on `port`; the port is to be configured as given by
    /// [`AdiLightSensor::configuration`].
    pub fn new(port: AdiPort) -> (r: AdiLightSensor)
        requires
            valid_adi_port(port@),
        ensures
            r.port_spec() == port@,
    {
        AdiLightSensor { port }
    }

    /// The request that configures this device's port.
    pub fn configuration(&self) -> (r: AdiConfigure)
        ensures
            r == configure_request(self.port_spec(), AdiDeviceType::LightSensor),
    {
        proof {
            use_type_invariant(self);
        }
        self.port.configure(AdiDeviceType::LightSensor)
    }

    /// The raw light reading, from 0 to 4095, given the status code of the expander's Smart
    /// port and the value VEXos reports.
    pub fn raw_brightness(&self, raw_status: u8, raw_value: i32) -> (r: Result<u16, PortError>)
        ensures
            r == read_outcome(self.port_spec(), raw_status, raw_value as u16),
    {
        match self.port.validate_expander(raw_status) {
            Ok(()) => Ok(raw_value as u16),
            Err(e) => Err(e),
        }
    }
}

impl AdiDevice<1> for AdiLightSensor {
    fn port_numbers(&self) -> (r: [u8; 1])
        ensures
            r@ == seq![self.port_spec().0],
    {
        [self.port.number()]
    }

    fn expander_port_number(&self) -> (r: Option<u8>)
        ensures
            r == self.port_spec().1,
    {
        self.port.expander_number()
    }

    fn device_type(&self) -> (r: AdiDeviceType)
        ensures
            r == AdiDeviceType::LightSensor,
    {
        AdiDeviceType::LightSensor
    }
}

} // verus!
