//! Generic serial ports: opening a port, and what the byte-level reads and
//! writes VEXos reports mean.

use super::{port_check, SmartDevice, SmartDeviceType, SmartPort};
use vstd::prelude::*;

verus! {

/// The fastest baud rate a generic serial port supports.
pub const MAX_BAUD_RATE: u32 = 921_600u32;

/// The size, in bytes, of a serial port's internal buffers.
pub const INTERNAL_BUFFER_SIZE: usize = 1024usize;

/// Errors that can occur when using a generic serial port.
#[derive(Debug, Clone, Copy, PartialEq, Eq, Structural)]
pub enum SerialError {
    /// An internal write error occurred.
    WriteFailed,
    /// An internal read error occurred.
    ReadFailed,
}

/// A Smart port used as a generic serial port.
#[derive(Debug, PartialEq, Eq, Structural)]
pub struct SerialPort {
    port: SmartPort,
}

/// The byte a character read reports: `None` for -1 (nothing to read), the
/// low byte otherwise.
pub open spec fn byte_of(raw: i32) -> Option<u8> {
    if raw == -1 {
        None
    } else {
        Some(raw as u8)
    }
}

/// A count VEXos reports: -1 is a failure, any other value the count.
pub open spec fn count_of(raw: i32) -> Result<usize, SerialError> {
    if raw == -1 {
        Err(SerialError::ReadFailed)
    } else {
        Ok(raw as usize)
    }
}

impl SerialPort {
    /// The Smart port the serial port uses.
    pub closed spec fn port_spec(&self) -> u8 {
        self.port@
    }

    /// Starts opening `port` as a generic serial port at `baud_rate`; the
    /// port is ready once the returned future completes.
    pub fn open(port: SmartPort, baud_rate: u32) -> (r: SerialPortOpenFuture)
        ensures
            r.port_spec() == port@,
            r.pending_baud_rate() == Some(baud_rate),
    {
        SerialPortOpenFuture { state: SerialPortOpenState::Configure { baud_rate }, serial: SerialPort { port } }
    }

    /// The byte a read took, given the result VEXos reports; `None` when
    /// there was nothing to read.
    pub fn read_byte(&mut self, raw: i32) -> (r: Option<u8>)
        ensures
            r == byte_of(raw),
            *final(self) == *old(self),
    {
        if raw == -1 {
            None
        } else {
            Some(raw as u8)
        }
    }

    /// The next byte to be read, given the result VEXos reports; `None` when
    /// there is nothing to read.
    pub fn peek_byte(&self, raw: i32) -> (r: Option<u8>)
        ensures
            r == byte_of(raw),
    {
        if raw == -1 {
            None
        } else {
            Some(raw as u8)
        }
    }

    /// The outcome of writing a byte, given the result VEXos reports.
    pub fn write_byte(&mut self, raw: i32) -> (r: Result<(), SerialError>)
        ensures
            r == if raw == -1 {
                Err(SerialError::WriteFailed)
            } else {
                Ok::<(), SerialError>(())
            },
            *final(self) == *old(self),
    {
        if raw == -1 {
            Err(SerialError::WriteFailed)
        } else {
            Ok(())
        }
    }

    /// The number of bytes waiting to be read, given the count VEXos
    /// reports.
    pub fn unread_bytes(&self, raw: i32) -> (r: Result<usize, SerialError>)
        ensures
            r == count_of(raw),
    {
        if raw == -1 {
            Err(SerialError::ReadFailed)
        } else {
            Ok(raw as usize)
        }
    }

    /// The number of bytes that can be written without blocking, given the
    /// count VEXos reports.
    pub fn available_write_bytes(&self, raw: i32) -> (r: Result<usize, SerialError>)
        ensures
            r == count_of(raw),
    {
        if raw == -1 {
            Err(SerialError::ReadFailed)
        } else {
            Ok(raw as usize)
        }
    }
}

impl SmartDevice for SerialPort {
    fn port_number(&self) -> (r: u8)
        ensures
            r == self.port_spec(),
    {
        self.port.number()
    }

    fn device_type(&self) -> (r: SmartDeviceType)
        ensures
            r == SmartDeviceType::GenericSerial,
    {
        SmartDeviceType::GenericSerial
    }
}

/// Where opening a serial port stands.
#[derive(Debug, Clone, Copy, PartialEq, Eq, Structural)]
enum SerialPortOpenState {
    /// Generic serial is still to be enabled at this baud rate.
    Configure { baud_rate: u32 },
    /// Waiting for the port to report a generic serial device.
    Waiting,
}

/// The opening of a serial port. Each poll first configures the port (the
/// first time only), then checks whether the port reports a generic serial
/// device.
#[derive(Debug, PartialEq, Eq, Structural)]
pub struct SerialPortOpenFuture {
    state: SerialPortOpenState,
    serial: SerialPort,
}

impl SerialPortOpenFuture {
    /// The Smart port being opened.
    pub closed spec fn port_spec(&self) -> u8 {
        self.serial.port_spec()
    }

    /// The baud rate still to be configured, if the port is not configured
    /// yet.
    pub closed spec fn pending_baud_rate(&self) -> Option<u32> {
        match self.state {
            SerialPortOpenState::Configure { baud_rate } => Some(baud_rate),
            SerialPortOpenState::Waiting => None,
        }
    }

    /// The first step of a poll: the baud rate at which generic serial is to
    /// be enabled, the first time only.
    pub fn poll_configure(&mut self) -> (r: Option<u32>)
        ensures
            r == old(self).pending_baud_rate(),
            final(self).pending_baud_rate() == None::<u32>,
            final(self).port_spec() == old(self).port_spec(),
    {
        match self.state {
            SerialPortOpenState::Configure { baud_rate } => {
                self.state = SerialPortOpenState::Waiting;
                Some(baud_rate)
            },
            SerialPortOpenState::Waiting => None,
        }
    }

    /// The second step of a poll, given the port's status code read after
    /// configuring: the open serial port when the port reports a generic
    /// serial device, or the future, to be polled again, otherwise.
    pub fn poll_ready(self, raw_status: u8) -> (r: Result<SerialPort, SerialPortOpenFuture>)
        ensures
            match r {
                Ok(s) => port_check(self.port_spec(), SmartDeviceType::GenericSerial, raw_status) is Ok
                    && s.port_spec() == self.port_spec(),
                Err(f) => port_check(self.port_spec(), SmartDeviceType::GenericSerial, raw_status) is Err
                    && f == self,
            },
    {
        match super::validate_port(self.serial.port.number(), SmartDeviceType::GenericSerial, raw_status) {
            Ok(()) => Ok(self.serial),
            Err(_) => Err(self),
        }
    }
}

} // verus!
