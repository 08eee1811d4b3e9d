//! Cortex-era ADI motor driven through an MC29 controller.

use super::{
    configure_request, read_outcome, valid_adi_port, write_outcome, AdiConfigure, AdiDevice,
    AdiDeviceType, AdiPort, AdiValueWrite,
};
use crate::smart::PortError;
use vstd::prelude::*;

verus! {

/// A legacy motor driven through an MC29 motor controller.
#[derive(Debug, PartialEq, Eq, Structural)]
pub struct AdiMotor {
    port: AdiPort,
    slew: bool,
}

/// The ADI configuration of a motor with or without slew-rate limiting.
pub open spec fn motor_config(slew: bool) -> AdiDeviceType {
    if slew {
        AdiDeviceType::MotorSlew
    } else {
        AdiDeviceType::Motor
    }
}

/// The output a motor port reports as `raw`: VEXos offsets it by 127, and the
/// difference is taken modulo 256 as a signed byte.
pub open spec fn motor_output_of(raw: i32) -> i8 {
    (raw - 127) as i8
}

impl AdiMotor {
    /// The motor is built on an addressable port.
    #[verifier::type_invariant]
    spec fn inv(self) -> bool {
        valid_adi_port(self.port@)
    }

    /// The port this motor is plugged into.
    pub closed spec fn port_spec(&self) -> (u8, Option<u8>) {
        self.port@
    }

    /// Whether this motor's output is slew-rate limited.
    pub closed spec fn slew_spec(&self) -> bool {
        self.slew
    }

    /// Creates a motor on `port`, with slew-rate limiting when `slew` is set;
    /// the port is to be configured as given by [`AdiMotor::configuration`].
    pub fn new(port: AdiPort, slew: bool) -> (r: AdiMotor)
        requires
            valid_adi_port(port@),
        ensures
            r.port_spec() == port@,
            r.slew_spec() == slew,
    {
        AdiMotor { port, slew }
    }

    /// The request that configures this motor's port.
    pub fn configuration(&self) -> (r: AdiConfigure)
        ensures
            r == configure_request(self.port_spec(), motor_config(self.slew_spec())),
    {
        proof {
            use_type_invariant(self);
        }
        let config = if self.slew {
            AdiDeviceType::MotorSlew
        } else {
            AdiDeviceType::Motor
        };
        self.port.configure(config)
    }

    /// Sets the motor's raw output, -127 to 127, given the status code of the
    /// expander's Smart port; on success gives the write to perform.
    pub fn set_raw_output(&mut self, pwm: i8, raw_status: u8) -> (r: Result<AdiValueWrite, PortError>)
        ensures
            r == write_outcome(old(self).port_spec(), raw_status, pwm as i32),
            final(self).port_spec() == old(self).port_spec(),
            final(self).slew_spec() == old(self).slew_spec(),
    {
        proof {
            use_type_invariant(&*self);
        }
        self.port.checked_write(raw_status, pwm as i32)
    }

    /// The motor's raw output, given the status code of the expander's Smart
    /// port and the value VEXos reports.
    pub fn raw_output(&self, raw_status: u8, raw_value: i32) -> (r: Result<i8, PortError>)
        ensures
            r == read_outcome(self.port_spec(), raw_status, motor_output_of(raw_value)),
    {
        match self.port.validate_expander(raw_status) {
            Ok(()) => {
                let shifted: i64 = raw_value as i64 - 127;
                Ok(shifted as i8)
            },
            Err(e) => Err(e),
        }
    }

    /// Stops the motor by setting its output to zero.
    pub fn stop(&mut self, raw_status: u8) -> (r: Result<AdiValueWrite, PortError>)
        ensures
            r == write_outcome(old(self).port_spec(), raw_status, 0),
            final(self).port_spec() == old(self).port_spec(),
            final(self).slew_spec() == old(self).slew_spec(),
    {
        self.set_raw_output(0, raw_status)
    }
}

impl AdiDevice<1> for AdiMotor {
    fn port_numbers(&self) -> (r: [u8; 1])
        ensures
            r@ == seq![self.port_spec().0],
    {
        [self.port.number()]
    }

    fn expander_port_number(&self) -> (r: Option<u8>)
        ensures
            r == self.port_spec().1,
    {
        self.port.expander_number()
    }

    fn device_type(&self) -> (r: AdiDeviceType)
        ensures
            r == motor_config(self.slew_spec()),
    {
        if self.slew {
            AdiDeviceType::MotorSlew
        } else {
            AdiDeviceType::Motor
        }
    }
}

} // verus!
