//! Pneumatic solenoid driven through a digital output.
//!
//! The solenoid remembers the level it was last set to, since reading it back
//! from the port is not reliable.

use super::{
    configure_request, expander_check, valid_adi_port, write_request, AdiConfigure, AdiDevice,
    AdiDeviceType, AdiPort, AdiValueWrite,
};
use super::digital::{flipped, level_value, LogicLevel};
use crate::smart::PortError;
use vstd::prelude::*;

verus! {

/// A pneumatic solenoid valve on a digital output.
#[derive(Debug, PartialEq, Eq, Structural)]
pub struct AdiSolenoid {
    port: AdiPort,
    level: LogicLevel,
}

/// What setting a solenoid on port `p` to `level` asks of VEXos when the
/// expander reports `raw`: reconfigure the port as a digital output, then
/// write the level.
pub open spec fn solenoid_outcome(p: (u8, Option<u8>), raw: u8, level: LogicLevel) -> Result<
    (AdiConfigure, AdiValueWrite),
    PortError,
> {
    match expander_check(p, raw) {
        Ok(()) => Ok(
            (
                configure_request(p, AdiDeviceType::DigitalOut),
                write_request(p, level_value(level)),
            ),
        ),
        Err(e) => Err(e),
    }
}

/// The level a solenoid on port `p`, last set to `current`, is left at after
/// being set to `requested` when the expander reports `raw`.
pub open spec fn level_after(p: (u8, Option<u8>), raw: u8, current: LogicLevel, requested: LogicLevel) -> LogicLevel {
    if expander_check(p, raw) is Ok {
        requested
    } else {
        current
    }
}

impl AdiSolenoid {
    /// The solenoid is built on an addressable port.
    #[verifier::type_invariant]
    spec fn inv(self) -> bool {
        valid_adi_port(self.port@)
    }

    /// The port this solenoid is plugged into.
    pub closed spec fn port_spec(&self) -> (u8, Option<u8>) {
        self.port@
    }

    /// The level this solenoid was last set to.
    pub closed spec fn level_spec(&self) -> LogicLevel {
        self.level
    }

    /// Creates a closed solenoid on `port`; the port is to be configured as
    /// given by [`AdiSolenoid::configuration`].
    pub fn new(port: AdiPort) -> (r: AdiSolenoid)
        requires
            valid_adi_port(port@),
        ensures
            r.port_spec() == port@,
            r.level_spec() == LogicLevel::Low,
    {
        AdiSolenoid { port, level: LogicLevel::Low }
    }

    /// The request that configures this solenoid's port.
    pub fn configuration(&self) -> (r: AdiConfigure)
        ensures
            r == configure_request(self.port_spec(), AdiDeviceType::DigitalOut),
    {
        proof {
            use_type_invariant(self);
        }
        self.port.configure(AdiDeviceType::DigitalOut)
    }

    /// Sets the solenoid to `level`, given the status code of the expander's
    /// Smart port. On success the level is remembered and the configuration
    /// and write to perform are given; on failure nothing changes.
    pub fn set_level(&mut self, level: LogicLevel, raw_status: u8) -> (r: Result<
        (AdiConfigure, AdiValueWrite),
        PortError,
    >)
        ensures
            r == solenoid_outcome(old(self).port_spec(), raw_status, level),
            final(self).port_spec() == old(self).port_spec(),
            final(self).level_spec() == level_after(
                old(self).port_spec(),
                raw_status,
                old(self).level_spec(),
                level,
            ),
    {
        proof {
            use_type_invariant(&*self);
        }
        match self.port.validate_expander(raw_status) {
            Ok(()) => {
                let c = self.port.configure(AdiDeviceType::DigitalOut);
                self.level = level;
                let w = self.port.write(level.raw());
                Ok((c, w))
            },
            Err(e) => Err(e),
        }
    }

    /// The level this solenoid was last set to.
    pub fn level(&self) -> (r: LogicLevel)
        ensures
            r == self.level_spec(),
    {
        self.level
    }

    /// Whether the solenoid is open (its level is high).
    pub fn is_open(&self) -> (r: bool)
        ensures
            r == (self.level_spec() == LogicLevel::High),
    {
        self.level.is_high()
    }

    /// Whether the solenoid is closed (its level is low).
    pub fn is_closed(&self) -> (r: bool)
        ensures
            r == (self.level_spec() == LogicLevel::Low),
    {
        self.level.is_low()
    }

    /// Opens the solenoid.
    pub fn open(&mut self, raw_status: u8) -> (r: Result<(AdiConfigure, AdiValueWrite), PortError>)
        ensures
            r == solenoid_outcome(old(self).port_spec(), raw_status, LogicLevel::High),
            final(self).port_spec() == old(self).port_spec(),
            final(self).level_spec() == level_after(
                old(self).port_spec(),
                raw_status,
                old(self).level_spec(),
                LogicLevel::High,
            ),
    {
        self.set_level(LogicLevel::High, raw_status)
    }

    /// Closes the solenoid.
    pub fn close(&mut self, raw_status: u8) -> (r: Result<(AdiConfigure, AdiValueWrite), PortError>)
        ensures
            r == solenoid_outcome(old(self).port_spec(), raw_status, LogicLevel::Low),
            final(self).port_spec() == old(self).port_spec(),
            final(self).level_spec() == level_after(
                old(self).port_spec(),
                raw_status,
                old(self).level_spec(),
                LogicLevel::Low,
            ),
    {
        self.set_level(LogicLevel::Low, raw_status)
    }

    /// Switches the solenoid to the level opposite to the one it was last set
    /// to.
    pub fn toggle(&mut self, raw_status: u8) -> (r: Result<(AdiConfigure, AdiValueWrite), PortError>)
        ensures
            r == solenoid_outcome(old(self).port_spec(), raw_status, flipped(old(self).level_spec())),
            final(self).port_spec() == old(self).port_spec(),
            final(self).level_spec() == level_after(
                old(self).port_spec(),
                raw_status,
                old(self).level_spec(),
                flipped(old(self).level_spec()),
            ),
    {
        let next = self.level.not();
        self.set_level(next, raw_status)
    }
}

/// Toggling a solenoid twice, with its expander present both times, leaves
/// it at the level it started at; a toggle whose expander check fails leaves
/// the level as it was.
pub proof fn lemma_solenoid_toggle_twice(p: (u8, Option<u8>), raw1: u8, raw2: u8, level: LogicLevel)
    ensures
        expander_check(p, raw1) is Ok && expander_check(p, raw2) is Ok ==> level_after(
            p,
            raw2,
            level_after(p, raw1, level, flipped(level)),
            flipped(level_after(p, raw1, level, flipped(level))),
        ) == level,
        expander_check(p, raw1) is Err ==> level_after(p, raw1, level, flipped(level)) == level,
{
}

impl AdiDevice<1> for AdiSolenoid {
    fn port_numbers(&self) -> (r: [u8; 1])
        ensures
            r@ == seq![self.port_spec().0],
    {
        [self.port.number()]
    }

    fn expander_port_number(&self) -> (r: Option<u8>)
        ensures
            r == self.port_spec().1,
    {
        self.port.expander_number()
    }

    fn device_type(&self) -> (r: AdiDeviceType)
        ensures
            r == AdiDeviceType::DigitalOut,
    {
        AdiDeviceType::DigitalOut
    }
}

} // verus!
