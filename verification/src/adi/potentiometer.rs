//! ADI potentiometers, Cortex-era and V2.

use super::{
    configure_request, read_outcome, valid_adi_port, AdiConfigure, AdiDevice, AdiDeviceType,
    AdiPort,
};
use crate::smart::PortError;
use vstd::prelude::*;

verus! {

/// The kind of a potentiometer.
#[derive(Debug, Clone, Copy, PartialEq, Eq, Structural)]
pub enum PotentiometerType {
    /// A Cortex-era potentiometer, 250 degrees of travel.
    Legacy,
    /// A V2 potentiometer, 330 degrees of travel.
    V2,
}

/// The ADI configuration of a potentiometer of the given kind.
pub open spec fn potentiometer_config(t: PotentiometerType) -> AdiDeviceType {
    match t {
        PotentiometerType::Legacy => AdiDeviceType::Potentiometer,
        PotentiometerType::V2 => AdiDeviceType::PotentiometerV2,
    }
}

/// A potentiometer plugged into an ADI port.
#[derive(Debug, PartialEq, Eq, Structural)]
pub struct AdiPotentiometer {
    potentiometer_type: PotentiometerType,
    port: AdiPort,
}

impl AdiPotentiometer {
    /// The potentiometer is built on an addressable port.
    #[verifier::type_invariant]
    spec fn inv(self) -> bool {
        valid_adi_port(self.port@)
    }

    /// The port this potentiometer is plugged into.
    pub closed spec fn port_spec(&self) -> (u8, Option<u8>) {
        self.port@
    }

    /// The kind this potentiometer was created as.
    pub closed spec fn type_spec(&self) -> PotentiometerType {
        self.potentiometer_type
    }

    /// Creates a potentiometer of the given kind on `port`; the port is to be
    /// configured as given by [`AdiPotentiometer::configuration`].
    pub fn new(port: AdiPort, potentiometer_type: PotentiometerType) -> (r: AdiPotentiometer)
        requires
            valid_adi_port(port@),
        ensures
            r.port_spec() == port@,
            r.type_spec() == potentiometer_type,
    {
        AdiPotentiometer { potentiometer_type, port }
    }

    /// The request that configures this potentiometer's port.
    pub fn configuration(&self) -> (r: AdiConfigure)
        ensures
            r == configure_request(self.port_spec(), potentiometer_config(self.type_spec())),
    {
        proof {
            use_type_invariant(self);
        }
        let config = match self.potentiometer_type {
            PotentiometerType::Legacy => AdiDeviceType::Potentiometer,
            PotentiometerType::V2 => AdiDeviceType::PotentiometerV2,
        };
        self.port.configure(config)
    }

    /// The kind of this potentiometer.
    pub fn potentiometer_type(&self) -> (r: PotentiometerType)
        ensures
            r == self.type_spec(),
    {
        self.potentiometer_type
    }

    /// The raw analog reading of the potentiometer, given the status code of
    /// the expander's Smart port and the value VEXos reports.
    pub fn raw_angle(&self, raw_status: u8, raw_value: i32) -> (r: Result<i32, PortError>)
        ensures
            r == read_outcome(self.port_spec(), raw_status, raw_value),
    {
        match self.port.validate_expander(raw_status) {
            Ok(()) => Ok(raw_value),
            Err(e) => Err(e),
        }
    }
}

impl AdiDevice<1> for AdiPotentiometer {
    fn port_numbers(&self) -> (r: [u8; 1])
        ensures
            r@ == seq![self.port_spec().0],
    {
        [self.port.number()]
    }

    fn expander_port_number(&self) -> (r: Option<u8>)
        ensures
            r == self.port_spec().1,
    {
        self.port.expander_number()
    }

    fn device_type(&self) -> (r: AdiDeviceType)
        ensures
            r == potentiometer_config(self.type_spec()),
    {
        match self.potentiometer_type {
            PotentiometerType::Legacy => AdiDeviceType::Potentiometer,
            PotentiometerType::V2 => AdiDeviceType::PotentiometerV2,
        }
    }
}

} // verus!
