//! ADI quadrature encoder.

use super::{
    configure_request, expander_port_of, read_outcome, valid_adi_port, write_outcome, AdiConfigure,
    AdiDevice, AdiDeviceType, AdiPort, AdiValueWrite,
};
use crate::smart::PortError;
use vstd::prelude::*;

verus! {

/// Whether two ADI ports can host one encoder (or one range finder's pair):
/// they share an expander and are the two ports of one adjacent pair, AB, CD,
/// EF or GH, in either order.
pub open spec fn encoder_pair(top: (u8, Option<u8>), bottom: (u8, Option<u8>)) -> bool {
    &&& expander_port_of(top.1) == expander_port_of(bottom.1)
    &&& if top.0 % 2 == 0 {
        bottom.0 == top.0 - 1
    } else {
        bottom.0 == top.0 + 1
    }
}

/// The port of a pair that is configured: the lower-numbered one.
pub open spec fn lower_port(top: (u8, Option<u8>), bottom: (u8, Option<u8>)) -> (u8, Option<u8>) {
    if top.0 < bottom.0 {
        top
    } else {
        bottom
    }
}

/// The configured port of a pair is the lower-numbered one, whichever order
/// the two are given in: its number is at most either's, and it is one of
/// the two.
pub proof fn lemma_lower_port(top: (u8, Option<u8>), bottom: (u8, Option<u8>))
    ensures
        lower_port(top, bottom).0 <= top.0,
        lower_port(top, bottom).0 <= bottom.0,
        lower_port(top, bottom) == top || lower_port(top, bottom) == bottom,
        lower_port(top, bottom) == lower_port(bottom, top) || top.0 == bottom.0,
{
}

/// A quadrature encoder counting `TICKS_PER_REVOLUTION` ticks per turn.
#[derive(Debug, PartialEq, Eq)]
pub struct AdiEncoder<const TICKS_PER_REVOLUTION: u32> {
    top_port: AdiPort,
    bottom_port: AdiPort,
}

/// An optical shaft encoder, with 360 ticks per revolution.
pub type AdiOpticalEncoder = AdiEncoder<360>;

impl<const TICKS_PER_REVOLUTION: u32> AdiEncoder<TICKS_PER_REVOLUTION> {
    /// The encoder sits on an adjacent pair of addressable ports.
    #[verifier::type_invariant]
    spec fn inv(self) -> bool {
        &&& valid_adi_port(self.top_port@)
        &&& valid_adi_port(self.bottom_port@)
        &&& encoder_pair(self.top_port@, self.bottom_port@)
    }

    /// The encoder's top port.
    pub closed spec fn top_spec(&self) -> (u8, Option<u8>) {
        self.top_port@
    }

    /// The encoder's bottom port.
    pub closed spec fn bottom_spec(&self) -> (u8, Option<u8>) {
        self.bottom_port@
    }

    /// Creates an encoder on two adjacent ports of one expander.
    ///
    /// Ports that are not one of the pairs AB, CD, EF, GH (in either order),
    /// or that belong to different expanders, are refused by `requires`.
    pub fn new(top_port: AdiPort, bottom_port: AdiPort) -> (r: Self)
        requires
            valid_adi_port(top_port@),
            valid_adi_port(bottom_port@),
            encoder_pair(top_port@, bottom_port@),
        ensures
            r.top_spec() == top_port@,
            r.bottom_spec() == bottom_port@,
    {
        AdiEncoder { top_port, bottom_port }
    }

    /// The request that configures the encoder: the lower-numbered of its two
    /// ports is configured as an encoder.
    pub fn configuration(&self) -> (r: AdiConfigure)
        ensures
            r == configure_request(
                lower_port(self.top_spec(), self.bottom_spec()),
                AdiDeviceType::Encoder,
            ),
            r.index < self.top_spec().0 && r.index < self.bottom_spec().0,
            r.index + 1 == self.top_spec().0 || r.index + 1 == self.bottom_spec().0,
            r.config == AdiDeviceType::Encoder,
    {
        proof {
            use_type_invariant(self);
        }
        if self.top_port.number() < self.bottom_port.number() {
            self.top_port.configure(AdiDeviceType::Encoder)
        } else {
            self.bottom_port.configure(AdiDeviceType::Encoder)
        }
    }

    /// The encoder's count in ticks, given the status code of the expander's
    /// Smart port and the value VEXos reports for the top port.
    pub fn position(&self, raw_status: u8, raw_value: i32) -> (r: Result<i32, PortError>)
        ensures
            r == read_outcome(self.top_spec(), raw_status, raw_value),
    {
        match self.top_port.validate_expander(raw_status) {
            Ok(()) => Ok(raw_value),
            Err(e) => Err(e),
        }
    }

    /// Sets the encoder's count to `ticks`, given the status code of the
    /// expander's Smart port; on success gives the write to perform.
    pub fn set_position(&self, ticks: i32, raw_status: u8) -> (r: Result<AdiValueWrite, PortError>)
        ensures
            r == write_outcome(self.top_spec(), raw_status, ticks),
    {
        proof {
            use_type_invariant(self);
        }
        self.top_port.checked_write(raw_status, ticks)
    }

    /// Sets the encoder's count back to zero, given the status code of the
    /// expander's Smart port; on success gives the write to perform.
    pub fn reset_position(&mut self, raw_status: u8) -> (r: Result<AdiValueWrite, PortError>)
        ensures
            r == write_outcome(old(self).top_spec(), raw_status, 0),
            final(self).top_spec() == old(self).top_spec(),
            final(self).bottom_spec() == old(self).bottom_spec(),
    {
        proof {
            use_type_invariant(&*self);
        }
        self.top_port.checked_write(raw_status, 0)
    }
}

impl<const TICKS_PER_REVOLUTION: u32> AdiDevice<2> for AdiEncoder<TICKS_PER_REVOLUTION> {
    fn port_numbers(&self) -> (r: [u8; 2])
        ensures
            r@ == seq![self.top_spec().0, self.bottom_spec().0],
    {
        [self.top_port.number(), self.bottom_port.number()]
    }

    fn expander_port_number(&self) -> (r: Option<u8>)
        ensures
            r == self.top_spec().1,
    {
        self.top_port.expander_number()
    }

    fn device_type(&self) -> (r: AdiDeviceType)
        ensures
            r == AdiDeviceType::Encoder,
    {
        AdiDeviceType::Encoder
    }
}

} // verus!
