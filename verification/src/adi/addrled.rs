//! WS2812B addressable LED strips on an ADI port.

use super::{
    configure_request, expander_check, expander_port_of, valid_adi_port, AdiConfigure, AdiDevice,
    AdiDeviceType, AdiPort,
};
use crate::color::{color_word, Color};
use crate::smart::PortError;
use vstd::prelude::*;

verus! {

/// The most LEDs one strip can drive.
pub const MAX_LENGTH: usize = 64usize;

/// A request to write a run of raw colors to an LED strip, starting at
/// `offset`.
#[derive(Debug, Clone)]
pub struct AdiLedWrite {
    /// Zero-based index of the expander's Smart port.
    pub expander_index: u32,
    /// Zero-based index of the ADI port on its expander.
    pub index: u32,
    /// The raw colors, one word per LED.
    pub buffer: Vec<u32>,
    /// The index of the first LED written.
    pub offset: usize,
}

/// Whether `w` writes `buffer` from `offset` on port `p`.
pub open spec fn led_write_is(w: AdiLedWrite, p: (u8, Option<u8>), buffer: Seq<u32>, offset: usize) -> bool {
    &&& w.expander_index == expander_port_of(p.1) - 1
    &&& w.index == p.0 - 1
    &&& w.buffer@ == buffer
    &&& w.offset == offset
}

/// The `n`-LED buffer that holds the raw words of `colors`, as many as fit,
/// and zero after them.
pub open spec fn strip_buffer(colors: Seq<Color>, n: nat) -> Seq<u32> {
    Seq::new(n, |i: int| if i < colors.len() { color_word(colors[i]@) } else { 0u32 })
}

/// An addressable LED strip of `N` LEDs.
#[derive(Debug, PartialEq, Eq)]
pub struct AdiAddrLed<const N: usize> {
    port: AdiPort,
}

impl<const N: usize> AdiAddrLed<N> {
    /// The strip is built on an addressable port and has at most 64 LEDs.
    #[verifier::type_invariant]
    spec fn inv(self) -> bool {
        valid_adi_port(self.port@) && N <= MAX_LENGTH
    }

    /// The port this strip is plugged into.
    pub closed spec fn port_spec(&self) -> (u8, Option<u8>) {
        self.port@
    }

    /// Creates a strip of `N` LEDs on `port`; strips longer than 64 LEDs are
    /// refused by `requires`. The port is to be configured as given by
    /// [`AdiAddrLed::configuration`].
    pub fn new(port: AdiPort) -> (r: Self)
        requires
            valid_adi_port(port@),
            N <= MAX_LENGTH,
        ensures
            r.port_spec() == port@,
    {
        AdiAddrLed { port }
    }

    /// The request that configures the strip's port as a digital output.
    pub fn configuration(&self) -> (r: AdiConfigure)
        ensures
            r == configure_request(self.port_spec(), AdiDeviceType::DigitalOut),
    {
        proof {
            use_type_invariant(self);
        }
        self.port.configure(AdiDeviceType::DigitalOut)
    }

    /// Sets the strip's LEDs from `colors`, given the status code of the
    /// expander's Smart port.
    ///
    /// On success gives the number of LEDs set, which is the smaller of `N`
    /// and the number of colors, and the write of all `N` LEDs: the given
    /// colors first, then off.
    pub fn set_buffer(&mut self, colors: &[Color], raw_status: u8) -> (r: Result<
        (usize, AdiLedWrite),
        PortError,
    >)
        ensures
            final(self).port_spec() == old(self).port_spec(),
            match r {
                Ok((len, w)) => expander_check(old(self).port_spec(), raw_status) is Ok
                    && len == if colors@.len() < N { colors@.len() } else { N as nat }
                    && led_write_is(w, old(self).port_spec(), strip_buffer(colors@, N as nat), 0),
                Err(e) => expander_check(old(self).port_spec(), raw_status) == Err::<(), PortError>(e),
            },
    {
        proof {
            use_type_invariant(&*self);
        }
        match self.port.validate_expander(raw_status) {
            Err(e) => Err(e),
            Ok(()) => {
                let mut buffer: Vec<u32> = Vec::new();
                let mut i: usize = 0;
                while i < N
                    invariant
                        i <= N,
                        buffer@ == strip_buffer(colors@, N as nat).take(i as int),
                    decreases N - i,
                {
                    let word: u32 = if i < colors.len() {
                        colors[i].into_raw()
                    } else {
                        0
                    };
                    buffer.push(word);
                    i = i + 1;
                    assert(buffer@ =~= strip_buffer(colors@, N as nat).take(i as int));
                }
                assert(buffer@ =~= strip_buffer(colors@, N as nat));
                let len: usize = if colors.len() < N {
                    colors.len()
                } else {
                    N
                };
                Ok(
                    (
                        len,
                        AdiLedWrite {
                            expander_index: self.port.expander_index(),
                            index: self.port.index(),
                            buffer,
                            offset: 0,
                        },
                    ),
                )
            },
        }
    }

    /// Sets every LED of the strip to `color`, given the status code of the
    /// expander's Smart port; on success gives the write of all `N` LEDs.
    pub fn set_all(&mut self, color: Color, raw_status: u8) -> (r: Result<AdiLedWrite, PortError>)
        ensures
            final(self).port_spec() == old(self).port_spec(),
            match r {
                Ok(w) => expander_check(old(self).port_spec(), raw_status) is Ok && led_write_is(
                    w,
                    old(self).port_spec(),
                    Seq::new(N as nat, |i: int| color_word(color@)),
                    0,
                ),
                Err(e) => expander_check(old(self).port_spec(), raw_status) == Err::<(), PortError>(e),
            },
    {
        let mut colors: Vec<Color> = Vec::new();
        let mut i: usize = 0;
        while i < N
            invariant
                i <= N,
                colors@ == Seq::new(i as nat, |j: int| color),
            decreases N - i,
        {
            colors.push(color);
            i = i + 1;
            assert(colors@ =~= Seq::new(i as nat, |j: int| color));
        }
        match self.set_buffer(colors.as_slice(), raw_status) {
            Ok((_len, w)) => {
                assert(strip_buffer(colors@, N as nat) =~= Seq::new(
                    N as nat,
                    |i: int| color_word(color@),
                ));
                Ok(w)
            },
            Err(e) => Err(e),
        }
    }

    /// Sets the LED at `index` to `color`, given the status code of the
    /// expander's Smart port; an index past the strip is refused by
    /// `requires`. On success gives the write of that one LED.
    pub fn set_pixel(&mut self, index: usize, color: Color, raw_status: u8) -> (r: Result<
        AdiLedWrite,
        PortError,
    >)
        requires
            index < N,
        ensures
            final(self).port_spec() == old(self).port_spec(),
            match r {
                Ok(w) => expander_check(old(self).port_spec(), raw_status) is Ok && led_write_is(
                    w,
                    old(self).port_spec(),
                    seq![color_word(color@)],
                    index,
                ),
                Err(e) => expander_check(old(self).port_spec(), raw_status) == Err::<(), PortError>(e),
            },
    {
        proof {
            use_type_invariant(&*self);
        }
        match self.port.validate_expander(raw_status) {
            Err(e) => Err(e),
            Ok(()) => {
                let mut buffer: Vec<u32> = Vec::new();
                buffer.push(color.into_raw());
                Ok(
                    AdiLedWrite {
                        expander_index: self.port.expander_index(),
                        index: self.port.index(),
                        buffer,
                        offset: index,
                    },
                )
            },
        }
    }
}

impl<const N: usize> AdiDevice<1> for AdiAddrLed<N> {
    fn port_numbers(&self) -> (r: [u8; 1])
        ensures
            r@ == seq![self.port_spec().0],
    {
        [self.port.number()]
    }

    fn expander_port_number(&self) -> (r: Option<u8>)
        ensures
            r == self.port_spec().1,
    {
        self.port.expander_number()
    }

    fn device_type(&self) -> (r: AdiDeviceType)
        ensures
            r == AdiDeviceType::DigitalOut,
    {
        AdiDeviceType::DigitalOut
    }
}

} // verus!
