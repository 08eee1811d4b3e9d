//! VEXlink radios: opening a link, and what the counts VEXos reports mean.

use super::{SmartDevice, SmartDeviceType, SmartPort};
use vstd::prelude::*;
use vstd::string::StringSliceAdditionalSpecFns;

verus! {

/// The size, in bytes, of a radio's internal buffers.
pub const INTERNAL_BUFFER_SIZE: usize = 512usize;

/// The role of a radio in a link.
#[derive(Debug, Clone, Copy, PartialEq, Eq, Structural)]
pub enum LinkType {
    /// The radio manages the link.
    Manager,
    /// The radio works for a manager.
    Worker,
}

/// Errors that can occur when using a radio link.
#[derive(Debug, Clone, Copy, PartialEq, Eq, Structural)]
pub enum LinkError {
    /// The radio has not established a link.
    NotLinked,
    /// An internal write error occurred.
    WriteFailed,
    /// An internal read error occurred.
    ReadFailed,
}

impl LinkType {
    /// The raw VEXos code of this role: 0 for a worker, 1 for a manager.
    pub fn into_raw(self) -> (r: u8)
        ensures
            r == if self == LinkType::Manager {
                1u8
            } else {
                0u8
            },
    {
        match self {
            LinkType::Worker => 0,
            LinkType::Manager => 1,
        }
    }
}

/// What VEXos is asked to open a link: the link's id as bytes, the role's
/// code, and whether the link is the radio's own (always so here).
#[derive(Debug, Clone, PartialEq, Eq)]
pub struct LinkRequest {
    /// The link's id.
    pub id: Vec<u8>,
    /// The raw VEXos code of the radio's role.
    pub link_type: u8,
    /// Whether the link is the radio's own.
    pub own: bool,
}

/// A count VEXos reports: -1 is a failure, any other value the count.
pub open spec fn link_count_of(raw: i32) -> Result<usize, LinkError> {
    if raw == -1 {
        Err(LinkError::ReadFailed)
    } else {
        Ok(raw as usize)
    }
}

/// A VEXlink radio on a Smart port.
#[derive(Debug, PartialEq, Eq, Structural)]
pub struct RadioLink {
    port: SmartPort,
}

impl RadioLink {
    /// The Smart port the radio is plugged into.
    pub closed spec fn port_spec(&self) -> u8 {
        self.port@
    }

    /// Opens a link named `id` on `port` in role `link_type`, together with
    /// the request that asks VEXos to open it.
    ///
    /// An id holding a NUL byte is refused by `requires`.
    pub fn open(port: SmartPort, id: &str, link_type: LinkType) -> (r: (RadioLink, LinkRequest))
        requires
            forall|i: int| 0 <= i < id.spec_bytes().len() ==> id.spec_bytes()[i] != 0u8,
        ensures
            r.0.port_spec() == port@,
            r.1.link_type == if link_type == LinkType::Manager {
                1u8
            } else {
                0u8
            },
            r.1.own,
            r.1.id@ == id.spec_bytes(),
    {
        let bytes = id_bytes(id);
        (RadioLink { port }, LinkRequest { id: bytes, link_type: link_type.into_raw(), own: true })
    }

    /// The number of bytes waiting to be read, given the count VEXos
    /// reports.
    pub fn unread_bytes(&self, raw: i32) -> (r: Result<usize, LinkError>)
        ensures
            r == link_count_of(raw),
    {
        if raw == -1 {
            Err(LinkError::ReadFailed)
        } else {
            Ok(raw as usize)
        }
    }

    /// The number of bytes that can be written without blocking, given the
    /// count VEXos reports.
    pub fn available_write_bytes(&self, raw: i32) -> (r: Result<usize, LinkError>)
        ensures
            r == link_count_of(raw),
    {
        if raw == -1 {
            Err(LinkError::ReadFailed)
        } else {
            Ok(raw as usize)
        }
    }
}

/// The id's UTF-8 bytes.
fn id_bytes(id: &str) -> (r: Vec<u8>)
    ensures
        r@ == id.spec_bytes(),
{
    let bytes = id.as_bytes();
    let mut out: Vec<u8> = Vec::new();
    let mut i: usize = 0;
    while i < bytes.len()
        invariant
            i <= bytes@.len(),
            bytes@ == id.spec_bytes(),
            out@ == bytes@.take(i as int),
        decreases bytes@.len() - i,
    {
        out.push(bytes[i]);
        i = i + 1;
        assert(out@ =~= bytes@.take(i as int));
    }
    assert(bytes@.take(bytes@.len() as int) =~= bytes@);
    out
}

impl SmartDevice for RadioLink {
    fn port_number(&self) -> (r: u8)
        ensures
            r == self.port_spec(),
    {
        self.port.number()
    }

    fn device_type(&self) -> (r: SmartDeviceType)
        ensures
            r == SmartDeviceType::GenericSerial,
    {
        SmartDeviceType::GenericSerial
    }
}

} // verus!
