//! ADI accelerometer.
//!
//! A Cortex-era three-axis accelerometer reports one axis per ADI port as an
//! analog value.

use super::{
    configure_request, expander_check, valid_adi_port, AdiConfigure, AdiDevice, AdiDeviceType,
    AdiPort,
};
use crate::smart::PortError;
use vstd::prelude::*;

verus! {

/// A single axis of a Cortex-era accelerometer.
#[derive(Debug, PartialEq, Eq, Structural)]
pub struct AdiAccelerometer {
    sensitivity: Sensitivity,
    port: AdiPort,
}

/// The jumper setting of an accelerometer, which decides its range.
#[derive(Debug, Clone, Copy, PartialEq, Eq, Structural)]
pub enum Sensitivity {
    /// 0 to 2 g.
    Low,
    /// 0 to 6 g.
    High,
}

impl AdiAccelerometer {
    /// The accelerometer is built on an addressable port.
    #[verifier::type_invariant]
    spec fn inv(self) -> bool {
        valid_adi_port(self.port@)
    }

    /// The port this accelerometer is plugged into.
    pub closed spec fn port_spec(&self) -> (u8, Option<u8>) {
        self.port@
    }

    /// The sensitivity this accelerometer was created with.
    pub closed spec fn sensitivity_spec(&self) -> Sensitivity {
        self.sensitivity
    }

    /// Creates an accelerometer on `port` with the given jumper setting.
    ///
    /// The port is to be configured as an accelerometer; see
    /// [`AdiAccelerometer::configuration`].
    pub fn new(port: AdiPort, sensitivity: Sensitivity) -> (r: AdiAccelerometer)
        requires
            valid_adi_port(port@),
        ensures
            r.port_spec() == port@,
            r.sensitivity_spec() == sensitivity,
    {
        AdiAccelerometer { sensitivity, port }
    }

    /// The request that configures this accelerometer's port.
    pub fn configuration(&self) -> (r: AdiConfigure)
        ensures
            r == configure_request(self.port_spec(), AdiDeviceType::Accelerometer),
    {
        proof {
            use_type_invariant(self);
        }
        self.port.configure(AdiDeviceType::Accelerometer)
    }

    /// The jumper setting of this accelerometer.
    pub fn sensitivity(&self) -> (r: Sensitivity)
        ensures
            r == self.sensitivity_spec(),
    {
        self.sensitivity
    }

    /// The raw analog reading of this axis, from 0 to 4095, given the status
    /// code of the expander's Smart port and the value VEXos reports.
    pub fn raw_acceleration(&self, raw_status: u8, raw_value: i32) -> (r: Result<u16, PortError>)
        ensures
            r == match expander_check(self.port_spec(), raw_status) {
                Ok(()) => Ok(raw_value as u16),
                Err(e) => Err(e),
            },
    {
        match self.port.validate_expander(raw_status) {
            Ok(()) => Ok(raw_value as u16),
            Err(e) => Err(e),
        }
    }
}

impl AdiDevice<1> for AdiAccelerometer {
    fn port_numbers(&self) -> (r: [u8; 1])
        ensures
            r@ == seq![self.port_spec().0],
    {
        [self.port.number()]
    }

    fn expander_port_number(&self) -> (r: Option<u8>)
        ensures
            r == self.port_spec().1,
    {
        self.port.expander_number()
    }

    fn device_type(&self) -> (r: AdiDeviceType)
        ensures
            r == AdiDeviceType::Accelerometer,
    {
        AdiDeviceType::Accelerometer
    }
}

} // verus!
