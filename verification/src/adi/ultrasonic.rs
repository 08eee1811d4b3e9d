//! ADI ultrasonic sensor addressed by a ping port and an echo port.

use super::{
    configure_request, expander_check, expander_port_of, valid_adi_port, AdiConfigure, AdiDevice,
    AdiDeviceType, AdiPort,
};
use crate::smart::PortError;
use vstd::prelude::*;

verus! {

/// Errors that can occur when using an ultrasonic sensor.
#[derive(Debug, Clone, Copy, PartialEq, Eq, Structural)]
pub enum UltrasonicError {
    /// No echo was heard.
    NoReading,
    /// The ping port is not an odd-numbered port (A, C, E, G).
    BadPingPort,
    /// The echo port is not directly above the ping port.
    BadEchoPort,
    /// The two ports belong to different expanders.
    ExpanderPortMismatch,
    /// The expander could not be reached.
    Port {
        /// The underlying port error.
        source: PortError,
    },
}

/// What creating an ultrasonic sensor on ports `ping` and `echo` gives.
pub open spec fn ultrasonic_check(ping: (u8, Option<u8>), echo: (u8, Option<u8>)) -> Result<
    (),
    UltrasonicError,
> {
    if expander_port_of(ping.1) != expander_port_of(echo.1) {
        Err(UltrasonicError::ExpanderPortMismatch)
    } else if ping.0 % 2 == 0 {
        Err(UltrasonicError::BadPingPort)
    } else if echo.0 != ping.0 + 1 {
        Err(UltrasonicError::BadEchoPort)
    } else {
        Ok(())
    }
}

/// What an ultrasonic sensor on `ping` reads when its expander reports
/// `raw_status` and the port reports `raw`.
pub open spec fn ultrasonic_reading(ping: (u8, Option<u8>), raw_status: u8, raw: i32) -> Result<
    u16,
    UltrasonicError,
> {
    match expander_check(ping, raw_status) {
        Err(e) => Err(UltrasonicError::Port { source: e }),
        Ok(()) => if raw == -1 {
            Err(UltrasonicError::NoReading)
        } else {
            Ok(raw as u16)
        },
    }
}

/// An ultrasonic distance sensor.
#[derive(Debug, PartialEq, Eq, Structural)]
pub struct AdiUltrasonic {
    port_ping: AdiPort,
    port_echo: AdiPort,
}

impl AdiUltrasonic {
    /// The sensor sits on a checked pair of addressable ports.
    #[verifier::type_invariant]
    spec fn inv(self) -> bool {
        &&& valid_adi_port(self.port_ping@)
        &&& valid_adi_port(self.port_echo@)
        &&& ultrasonic_check(self.port_ping@, self.port_echo@) is Ok
    }

    /// The ping port.
    pub closed spec fn ping_spec(&self) -> (u8, Option<u8>) {
        self.port_ping@
    }

    /// The echo port.
    pub closed spec fn echo_spec(&self) -> (u8, Option<u8>) {
        self.port_echo@
    }

    /// Creates an ultrasonic sensor on a `(ping, echo)` pair of ports.
    ///
    /// The ports must share an expander, the ping port must be odd-numbered
    /// (A, C, E, G) and the echo port must be the one directly above it;
    /// otherwise the matching error is returned.
    pub fn new(ports: (AdiPort, AdiPort)) -> (r: Result<AdiUltrasonic, UltrasonicError>)
        requires
            valid_adi_port(ports.0@),
            valid_adi_port(ports.1@),
        ensures
            match r {
                Ok(s) => ultrasonic_check(ports.0@, ports.1@) is Ok && s.ping_spec() == ports.0@
                    && s.echo_spec() == ports.1@,
                Err(e) => ultrasonic_check(ports.0@, ports.1@) == Err::<(), UltrasonicError>(e),
            },
    {
        let (port_ping, port_echo) = ports;
        if port_ping.expander_index() != port_echo.expander_index() {
            return Err(UltrasonicError::ExpanderPortMismatch);
        }
        let ping_number = port_ping.number();
        if ping_number % 2 == 0 {
            return Err(UltrasonicError::BadPingPort);
        }
        if port_echo.number() as u16 != ping_number as u16 + 1 {
            return Err(UltrasonicError::BadEchoPort);
        }
        Ok(AdiUltrasonic { port_ping, port_echo })
    }

    /// The request that configures the sensor: its ping port is configured as
    /// a range finder.
    pub fn configuration(&self) -> (r: AdiConfigure)
        ensures
            r == configure_request(self.ping_spec(), AdiDeviceType::RangeFinder),
    {
        proof {
            use_type_invariant(self);
        }
        self.port_ping.configure(AdiDeviceType::RangeFinder)
    }

    /// The measured distance, given the status code of the expander's Smart
    /// port and the value VEXos reports for the ping port.
    pub fn distance(&self, raw_status: u8, raw_value: i32) -> (r: Result<u16, UltrasonicError>)
        ensures
            r == ultrasonic_reading(self.ping_spec(), raw_status, raw_value),
    {
        match self.port_ping.validate_expander(raw_status) {
            Err(e) => Err(UltrasonicError::Port { source: e }),
            Ok(()) => if raw_value == -1 {
                Err(UltrasonicError::NoReading)
            } else {
                Ok(raw_value as u16)
            },
        }
    }
}

impl AdiDevice<2> for AdiUltrasonic {
    fn port_numbers(&self) -> (r: [u8; 2])
        ensures
            r@ == seq![self.ping_spec().0, self.echo_spec().0],
    {
        [self.port_ping.number(), self.port_echo.number()]
    }

    fn expander_port_number(&self) -> (r: Option<u8>)
        ensures
            r == self.ping_spec().1,
    {
        self.port_ping.expander_number()
    }

    fn device_type(&self) -> (r: AdiDeviceType)
        ensures
            r == AdiDeviceType::RangeFinder,
    {
        AdiDeviceType::RangeFinder
    }
}

} // verus!
