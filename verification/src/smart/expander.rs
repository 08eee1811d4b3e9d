//! The ADI expander, which adds eight ADI ports through a Smart port.

use super::{SmartDevice, SmartDeviceType, SmartPort};
use crate::adi::AdiPort;
use vstd::prelude::*;

verus! {

/// An ADI expander: eight ADI ports served through one Smart port.
#[derive(Debug, PartialEq, Eq, Structural)]
pub struct AdiExpander {
    /// ADI port A on the expander.
    pub adi_a: AdiPort,
    /// ADI port B on the expander.
    pub adi_b: AdiPort,
    /// ADI port C on the expander.
    pub adi_c: AdiPort,
    /// ADI port D on the expander.
    pub adi_d: AdiPort,
    /// ADI port E on the expander.
    pub adi_e: AdiPort,
    /// ADI port F on the expander.
    pub adi_f: AdiPort,
    /// ADI port G on the expander.
    pub adi_g: AdiPort,
    /// ADI port H on the expander.
    pub adi_h: AdiPort,
    port: SmartPort,
}

impl AdiExpander {
    /// The Smart port the expander is plugged into.
    pub closed spec fn port_spec(&self) -> u8 {
        self.port@
    }

    /// The expander's eight ADI ports, A through H.
    pub closed spec fn adi_ports_spec(&self) -> Seq<(u8, Option<u8>)> {
        seq![
            self.adi_a@,
            self.adi_b@,
            self.adi_c@,
            self.adi_d@,
            self.adi_e@,
            self.adi_f@,
            self.adi_g@,
            self.adi_h@,
        ]
    }

    /// Creates an expander on `port`, whose ADI ports A through H are numbered
    /// 1 through 8 and served by `port`.
    pub fn new(port: SmartPort) -> (r: AdiExpander)
        ensures
            r.port_spec() == port@,
            r.adi_ports_spec() == Seq::new(8, |i: int| ((i + 1) as u8, Some(port@))),
    {
        let n = port.number();
        let r = AdiExpander {
            adi_a: AdiPort::new(1, Some(n)),
            adi_b: AdiPort::new(2, Some(n)),
            adi_c: AdiPort::new(3, Some(n)),
            adi_d: AdiPort::new(4, Some(n)),
            adi_e: AdiPort::new(5, Some(n)),
            adi_f: AdiPort::new(6, Some(n)),
            adi_g: AdiPort::new(7, Some(n)),
            adi_h: AdiPort::new(8, Some(n)),
            port,
        };
        assert(r.adi_ports_spec() =~= Seq::new(8, |i: int| ((i + 1) as u8, Some(port@))));
        r
    }

    /// Gives back the Smart port the expander was created on.
    pub fn into_port(self) -> (r: SmartPort)
        ensures
            r@ == self.port_spec(),
    {
        self.port
    }
}

impl SmartDevice for AdiExpander {
    fn port_number(&self) -> (r: u8)
        ensures
            r == self.port_spec(),
    {
        self.port.number()
    }

    fn device_type(&self) -> (r: SmartDeviceType)
        ensures
            r == SmartDeviceType::Adi,
    {
        SmartDeviceType::Adi
    }
}

} // verus!
