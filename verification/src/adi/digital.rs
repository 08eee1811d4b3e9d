//! Generic ADI digital input and output.

use super::{
    configure_request, read_outcome, valid_adi_port, write_outcome, write_request, AdiConfigure,
    AdiDevice, AdiDeviceType, AdiPort, AdiValueWrite,
};
use crate::smart::PortError;
use vstd::prelude::*;

verus! {

/// A logic level on a digital port.
#[derive(Debug, Clone, Copy, PartialEq, Eq, Structural)]
pub enum LogicLevel {
    /// A high (3.3V) signal.
    High,
    /// A low (0V) signal.
    Low,
}

/// The logic level that a raw port value stands for: any nonzero value is high.
pub open spec fn level_of(raw: i32) -> LogicLevel {
    if raw != 0 {
        LogicLevel::High
    } else {
        LogicLevel::Low
    }
}

/// The raw port value that drives a logic level: 1 for high, 0 for low.
pub open spec fn level_value(level: LogicLevel) -> i32 {
    match level {
        LogicLevel::High => 1,
        LogicLevel::Low => 0,
    }
}

/// The other logic level.
pub open spec fn flipped(level: LogicLevel) -> LogicLevel {
    match level {
        LogicLevel::High => LogicLevel::Low,
        LogicLevel::Low => LogicLevel::High,
    }
}

impl LogicLevel {
    /// Whether this level is high.
    pub fn is_high(&self) -> (r: bool)
        ensures
            r == (*self == LogicLevel::High),
    {
        match self {
            LogicLevel::High => true,
            LogicLevel::Low => false,
        }
    }

    /// Whether this level is low.
    pub fn is_low(&self) -> (r: bool)
        ensures
            r == (*self == LogicLevel::Low),
    {
        match self {
            LogicLevel::High => false,
            LogicLevel::Low => true,
        }
    }

    /// The opposite level.
    pub fn not(self) -> (r: LogicLevel)
        ensures
            r == flipped(self),
    {
        match self {
            LogicLevel::Low => LogicLevel::High,
            LogicLevel::High => LogicLevel::Low,
        }
    }

    /// Reads a raw port value: nonzero is high.
    pub fn from_raw(raw: i32) -> (r: LogicLevel)
        ensures
            r == level_of(raw),
    {
        if raw != 0 {
            LogicLevel::High
        } else {
            LogicLevel::Low
        }
    }

    /// The raw port value that drives this level.
    pub fn raw(self) -> (r: i32)
        ensures
            r == level_value(self),
    {
        match self {
            LogicLevel::High => 1,
            LogicLevel::Low => 0,
        }
    }
}

/// Flipping a level twice gives it back, and a level reads back as itself
/// once written.
pub proof fn lemma_logic_level_roundtrip(level: LogicLevel)
    ensures
        flipped(flipped(level)) == level,
        flipped(level) != level,
        level_of(level_value(level)) == level,
{
}

/// A generic digital input.
#[derive(Debug, PartialEq, Eq, Structural)]
pub struct AdiDigitalIn {
    port: AdiPort,
}

impl AdiDigitalIn {
    /// The device is built on an addressable port.
    #[verifier::type_invariant]
    spec fn inv(self) -> bool {
        valid_adi_port(self.port@)
    }

    /// The port this input is plugged into.
    pub closed spec fn port_spec(&self) -> (u8, Option<u8>) {
        self.port@
    }

    /// Creates a digital input on `port`; the port is to be configured as
    /// given by [`AdiDigitalIn::configuration`].
    pub fn new(port: AdiPort) -> (r: AdiDigitalIn)
        requires
            valid_adi_port(port@),
        ensures
            r.port_spec() == port@,
    {
        AdiDigitalIn { port }
    }

    /// The request that configures this input's port.
    pub fn configuration(&self) -> (r: AdiConfigure)
        ensures
            r == configure_request(self.port_spec(), AdiDeviceType::DigitalIn),
    {
        proof {
            use_type_invariant(self);
        }
        self.port.configure(AdiDeviceType::DigitalIn)
    }

    /// The level on the port, given the status code of the expander's Smart
    /// port and the value VEXos reports.
    pub fn level(&self, raw_status: u8, raw_value: i32) -> (r: Result<LogicLevel, PortError>)
        ensures
            r == read_outcome(self.port_spec(), raw_status, level_of(raw_value)),
    {
        match self.port.validate_expander(raw_status) {
            Ok(()) => Ok(LogicLevel::from_raw(raw_value)),
            Err(e) => Err(e),
        }
    }

    /// Whether the level on the port is high.
    pub fn is_high(&self, raw_status: u8, raw_value: i32) -> (r: Result<bool, PortError>)
        ensures
            r == read_outcome(self.port_spec(), raw_status, raw_value != 0),
    {
        match self.level(raw_status, raw_value) {
            Ok(level) => Ok(level.is_high()),
            Err(e) => Err(e),
        }
    }

    /// Whether the level on the port is low.
    pub fn is_low(&self, raw_status: u8, raw_value: i32) -> (r: Result<bool, PortError>)
        ensures
            r == read_outcome(self.port_spec(), raw_status, raw_value == 0),
    {
        match self.level(raw_status, raw_value) {
            Ok(level) => Ok(level.is_low()),
            Err(e) => Err(e),
        }
    }
}

impl AdiDevice<1> for AdiDigitalIn {
    fn port_numbers(&self) -> (r: [u8; 1])
        ensures
            r@ == seq![self.port_spec().0],
    {
        [self.port.number()]
    }

    fn expander_port_number(&self) -> (r: Option<u8>)
        ensures
            r == self.port_spec().1,
    {
        self.port.expander_number()
    }

    fn device_type(&self) -> (r: AdiDeviceType)
        ensures
            r == AdiDeviceType::DigitalIn,
    {
        AdiDeviceType::DigitalIn
    }
}

/// A generic digital output.
#[derive(Debug, PartialEq, Eq, Structural)]
pub struct AdiDigitalOut {
    port: AdiPort,
}

impl AdiDigitalOut {
    /// The device is built on an addressable port.
    #[verifier::type_invariant]
    spec fn inv(self) -> bool {
        valid_adi_port(self.port@)
    }

    /// The port this output is plugged into.
    pub closed spec fn port_spec(&self) -> (u8, Option<u8>) {
        self.port@
    }

    /// Creates a digital output on `port`; the port is to be configured as
    /// given by [`AdiDigitalOut::configuration`].
    pub fn new(port: AdiPort) -> (r: AdiDigitalOut)
        requires
            valid_adi_port(port@),
        ensures
            r.port_spec() == port@,
    {
        AdiDigitalOut { port }
    }

    /// Creates a digital output on `port` together with the write that drives
    /// it to `initial_level` once the port is configured.
    pub fn with_initial_level(port: AdiPort, initial_level: LogicLevel) -> (r: (
        AdiDigitalOut,
        AdiValueWrite,
    ))
        requires
            valid_adi_port(port@),
        ensures
            r.0.port_spec() == port@,
            r.1 == write_request(port@, level_value(initial_level)),
    {
        let w = port.write(initial_level.raw());
        (AdiDigitalOut { port }, w)
    }

    /// The request that configures this output's port.
    pub fn configuration(&self) -> (r: AdiConfigure)
        ensures
            r == configure_request(self.port_spec(), AdiDeviceType::DigitalOut),
    {
        proof {
            use_type_invariant(self);
        }
        self.port.configure(AdiDeviceType::DigitalOut)
    }

    /// Drives the port to `level`, given the status code of the expander's
    /// Smart port; on success gives the write to perform.
    pub fn set_level(&mut self, level: LogicLevel, raw_status: u8) -> (r: Result<
        AdiValueWrite,
        PortError,
    >)
        ensures
            r == write_outcome(old(self).port_spec(), raw_status, level_value(level)),
            final(self).port_spec() == old(self).port_spec(),
    {
        proof {
            use_type_invariant(&*self);
        }
        self.port.checked_write(raw_status, level.raw())
    }

    /// The level the port is driven to, given the status code of the
    /// expander's Smart port and the value VEXos reports.
    pub fn level(&self, raw_status: u8, raw_value: i32) -> (r: Result<LogicLevel, PortError>)
        ensures
            r == read_outcome(self.port_spec(), raw_status, level_of(raw_value)),
    {
        match self.port.validate_expander(raw_status) {
            Ok(()) => Ok(LogicLevel::from_raw(raw_value)),
            Err(e) => Err(e),
        }
    }

    /// Whether the port is driven high.
    pub fn is_high(&self, raw_status: u8, raw_value: i32) -> (r: Result<bool, PortError>)
        ensures
            r == read_outcome(self.port_spec(), raw_status, raw_value != 0),
    {
        match self.level(raw_status, raw_value) {
            Ok(level) => Ok(level.is_high()),
            Err(e) => Err(e),
        }
    }

    /// Whether the port is driven low.
    pub fn is_low(&self, raw_status: u8, raw_value: i32) -> (r: Result<bool, PortError>)
        ensures
            r == read_outcome(self.port_spec(), raw_status, raw_value == 0),
    {
        match self.level(raw_status, raw_value) {
            Ok(level) => Ok(level.is_low()),
            Err(e) => Err(e),
        }
    }

    /// Drives the port high.
    pub fn set_high(&mut self, raw_status: u8) -> (r: Result<AdiValueWrite, PortError>)
        ensures
            r == write_outcome(old(self).port_spec(), raw_status, 1),
            final(self).port_spec() == old(self).port_spec(),
    {
        self.set_level(LogicLevel::High, raw_status)
    }

    /// Drives the port low.
    pub fn set_low(&mut self, raw_status: u8) -> (r: Result<AdiValueWrite, PortError>)
        ensures
            r == write_outcome(old(self).port_spec(), raw_status, 0),
            final(self).port_spec() == old(self).port_spec(),
    {
        self.set_level(LogicLevel::Low, raw_status)
    }

    /// Drives the port to the level opposite to the one it reads, given the
    /// status code of the expander's Smart port and the value VEXos reports.
    pub fn toggle(&mut self, raw_status: u8, raw_value: i32) -> (r: Result<AdiValueWrite, PortError>)
        ensures
            r == write_outcome(
                old(self).port_spec(),
                raw_status,
                level_value(flipped(level_of(raw_value))),
            ),
            final(self).port_spec() == old(self).port_spec(),
    {
        match self.level(raw_status, raw_value) {
            Ok(level) => self.set_level(level.not(), raw_status),
            Err(e) => Err(e),
        }
    }
}

impl AdiDevice<1> for AdiDigitalOut {
    fn port_numbers(&self) -> (r: [u8; 1])
        ensures
            r@ == seq![self.port_spec().0],
    {
        [self.port.number()]
    }

    fn expander_port_number(&self) -> (r: Option<u8>)
        ensures
            r == self.port_spec().1,
    {
        self.port.expander_number()
    }

    fn device_type(&self) -> (r: AdiDeviceType)
        ensures
            r == AdiDeviceType::DigitalOut,
    {
        AdiDeviceType::DigitalOut
    }
}

} // verus!
