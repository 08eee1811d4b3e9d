//! ADI ultrasonic range finder.

use super::{
    configure_request, expander_port_of, read_outcome, valid_adi_port, AdiConfigure, AdiDevice,
    AdiDeviceType, AdiPort,
};
use crate::smart::PortError;
use vstd::prelude::*;

verus! {

/// Whether two ports can host a range finder: they share an expander, the
/// output port is odd-numbered (A, C, E, G) and the input port comes right
/// after it.
pub open spec fn range_finder_pair(output: (u8, Option<u8>), input: (u8, Option<u8>)) -> bool {
    &&& expander_port_of(output.1) == expander_port_of(input.1)
    &&& output.0 % 2 == 1
    &&& input.0 == output.0 + 1
}

/// The distance a range finder reports as `raw`: -1 means no echo was heard.
pub open spec fn distance_of(raw: i32) -> Option<u16> {
    if raw == -1 {
        None
    } else {
        Some(raw as u16)
    }
}

/// An ultrasonic range finder using an output (ping) port and an input (echo)
/// port.
#[derive(Debug, PartialEq, Eq, Structural)]
pub struct AdiRangeFinder {
    output_port: AdiPort,
    input_port: AdiPort,
}

impl AdiRangeFinder {
    /// The range finder sits on a valid pair of addressable ports.
    #[verifier::type_invariant]
    spec fn inv(self) -> bool {
        &&& valid_adi_port(self.output_port@)
        &&& valid_adi_port(self.input_port@)
        &&& range_finder_pair(self.output_port@, self.input_port@)
    }

    /// The output (ping) port.
    pub closed spec fn output_spec(&self) -> (u8, Option<u8>) {
        self.output_port@
    }

    /// The input (echo) port.
    pub closed spec fn input_spec(&self) -> (u8, Option<u8>) {
        self.input_port@
    }

    /// Creates a range finder on an output port and the input port right
    /// after it, on one expander; other port choices are refused by
    /// `requires`.
    pub fn new(output_port: AdiPort, input_port: AdiPort) -> (r: AdiRangeFinder)
        requires
            valid_adi_port(output_port@),
            valid_adi_port(input_port@),
            range_finder_pair(output_port@, input_port@),
        ensures
            r.output_spec() == output_port@,
            r.input_spec() == input_port@,
    {
        AdiRangeFinder { output_port, input_port }
    }

    /// The request that configures the range finder: its output port is
    /// configured as a range finder.
    pub fn configuration(&self) -> (r: AdiConfigure)
        ensures
            r == configure_request(self.output_spec(), AdiDeviceType::RangeFinder),
    {
        proof {
            use_type_invariant(self);
        }
        self.output_port.configure(AdiDeviceType::RangeFinder)
    }

    /// The measured distance in centimeters, or `None` when no echo was heard,
    /// given the status code of the expander's Smart port and the value VEXos
    /// reports.
    pub fn distance(&self, raw_status: u8, raw_value: i32) -> (r: Result<Option<u16>, PortError>)
        ensures
            r == read_outcome(self.output_spec(), raw_status, distance_of(raw_value)),
    {
        match self.output_port.validate_expander(raw_status) {
            Ok(()) => if raw_value == -1 {
                Ok(None)
            } else {
                Ok(Some(raw_value as u16))
            },
            Err(e) => Err(e),
        }
    }
}

impl AdiDevice<2> for AdiRangeFinder {
    fn port_numbers(&self) -> (r: [u8; 2])
        ensures
            r@ == seq![self.output_spec().0, self.input_spec().0],
    {
        [self.output_port.number(), self.input_port.number()]
    }

    fn expander_port_number(&self) -> (r: Option<u8>)
        ensures
            r == self.output_spec().1,
    {
        self.output_port.expander_number()
    }

    fn device_type(&self) -> (r: AdiDeviceType)
        ensures
            r == AdiDeviceType::RangeFinder,
    {
        AdiDeviceType::RangeFinder
    }
}

} // verus!
