//! Singleton access to the brain's ports and devices.
//!
//! [`Peripherals`] hands out every port and device once. [`DynamicPeripherals`]
//! hands out ports by number at run time, each at most once.

use crate::adi::AdiPort;
use crate::controller::{Controller, ControllerId};
use crate::display::{Display, RenderMode};
use crate::smart::SmartPort;
use vstd::prelude::*;

verus! {

/// Every port and device of the brain, each once.
#[derive(Debug)]
pub struct Peripherals {
    /// The display.
    pub display: Display,
    /// The primary controller.
    pub primary_controller: Controller,
    /// The partner controller.
    pub partner_controller: Controller,
    /// Smart port 1.
    pub port_1: SmartPort,
    /// Smart port 2.
    pub port_2: SmartPort,
    /// Smart port 3.
    pub port_3: SmartPort,
    /// Smart port 4.
    pub port_4: SmartPort,
    /// Smart port 5.
    pub port_5: SmartPort,
    /// Smart port 6.
    pub port_6: SmartPort,
    /// Smart port 7.
    pub port_7: SmartPort,
    /// Smart port 8.
    pub port_8: SmartPort,
    /// Smart port 9.
    pub port_9: SmartPort,
    /// Smart port 10.
    pub port_10: SmartPort,
    /// Smart port 11.
    pub port_11: SmartPort,
    /// Smart port 12.
    pub port_12: SmartPort,
    /// Smart port 13.
    pub port_13: SmartPort,
    /// Smart port 14.
    pub port_14: SmartPort,
    /// Smart port 15.
    pub port_15: SmartPort,
    /// Smart port 16.
    pub port_16: SmartPort,
    /// Smart port 17.
    pub port_17: SmartPort,
    /// Smart port 18.
    pub port_18: SmartPort,
    /// Smart port 19.
    pub port_19: SmartPort,
    /// Smart port 20.
    pub port_20: SmartPort,
    /// Smart port 21.
    pub port_21: SmartPort,
    /// ADI port A on the brain.
    pub adi_a: AdiPort,
    /// ADI port B on the brain.
    pub adi_b: AdiPort,
    /// ADI port C on the brain.
    pub adi_c: AdiPort,
    /// ADI port D on the brain.
    pub adi_d: AdiPort,
    /// ADI port E on the brain.
    pub adi_e: AdiPort,
    /// ADI port F on the brain.
    pub adi_f: AdiPort,
    /// ADI port G on the brain.
    pub adi_g: AdiPort,
    /// ADI port H on the brain.
    pub adi_h: AdiPort,
}

/// Whether `p` holds every port and device under its own number: Smart
/// port `k` as `port_k`, ADI port A to H as `adi_a` to `adi_h` on the brain,
/// the two controllers under their ids, and a display with an empty console
/// at line 0, rendering immediately.
pub open spec fn numbered(p: Peripherals) -> bool {
    &&& p.display.pending_spec() == Seq::<u8>::empty()
    &&& p.display.current_line_spec() == 0
    &&& p.display.render_mode_spec() == RenderMode::Immediate
    &&& p.primary_controller.id_spec() == ControllerId::Primary
    &&& p.partner_controller.id_spec() == ControllerId::Partner
    &&& p.port_1@ == 1
    &&& p.port_2@ == 2
    &&& p.port_3@ == 3
    &&& p.port_4@ == 4
    &&& p.port_5@ == 5
    &&& p.port_6@ == 6
    &&& p.port_7@ == 7
    &&& p.port_8@ == 8
    &&& p.port_9@ == 9
    &&& p.port_10@ == 10
    &&& p.port_11@ == 11
    &&& p.port_12@ == 12
    &&& p.port_13@ == 13
    &&& p.port_14@ == 14
    &&& p.port_15@ == 15
    &&& p.port_16@ == 16
    &&& p.port_17@ == 17
    &&& p.port_18@ == 18
    &&& p.port_19@ == 19
    &&& p.port_20@ == 20
    &&& p.port_21@ == 21
    &&& p.adi_a@ == (1u8, None::<u8>)
    &&& p.adi_b@ == (2u8, None::<u8>)
    &&& p.adi_c@ == (3u8, None::<u8>)
    &&& p.adi_d@ == (4u8, None::<u8>)
    &&& p.adi_e@ == (5u8, None::<u8>)
    &&& p.adi_f@ == (6u8, None::<u8>)
    &&& p.adi_g@ == (7u8, None::<u8>)
    &&& p.adi_h@ == (8u8, None::<u8>)
}

impl Peripherals {
    /// Creates a handle to every port and device, each under its own number.
    ///
    /// Two such handles must not be made, nor one beside any other port or
    /// device; prefer [`Peripherals::take`].
    pub fn new() -> (r: Peripherals)
        ensures
            numbered(r),
    {
        Peripherals {
            display: Display::new(),
            primary_controller: Controller::new(ControllerId::Primary),
            partner_controller: Controller::new(ControllerId::Partner),
            port_1: SmartPort::new(1),
            port_2: SmartPort::new(2),
            port_3: SmartPort::new(3),
            port_4: SmartPort::new(4),
            port_5: SmartPort::new(5),
            port_6: SmartPort::new(6),
            port_7: SmartPort::new(7),
            port_8: SmartPort::new(8),
            port_9: SmartPort::new(9),
            port_10: SmartPort::new(10),
            port_11: SmartPort::new(11),
            port_12: SmartPort::new(12),
            port_13: SmartPort::new(13),
            port_14: SmartPort::new(14),
            port_15: SmartPort::new(15),
            port_16: SmartPort::new(16),
            port_17: SmartPort::new(17),
            port_18: SmartPort::new(18),
            port_19: SmartPort::new(19),
            port_20: SmartPort::new(20),
            port_21: SmartPort::new(21),
            adi_a: AdiPort::new(1, None),
            adi_b: AdiPort::new(2, None),
            adi_c: AdiPort::new(3, None),
            adi_d: AdiPort::new(4, None),
            adi_e: AdiPort::new(5, None),
            adi_f: AdiPort::new(6, None),
            adi_g: AdiPort::new(7, None),
            adi_h: AdiPort::new(8, None),
        }
    }

    /// Takes the peripherals, once: `taken` records whether they were taken
    /// before. The first call gives them and sets `taken`; every later call
    /// gives `None`.
    pub fn take(taken: &mut bool) -> (r: Option<Peripherals>)
        ensures
            *final(taken),
            r is Some <==> !*old(taken),
            match r {
                Some(p) => numbered(p),
                None => true,
            },
    {
        if *taken {
            None
        } else {
            *taken = true;
            Some(Peripherals::new())
        }
    }

    /// Takes the peripherals whether or not they were taken before, and
    /// records them as taken.
    ///
    /// Using devices from two such handles at once is a logic error; prefer
    /// [`Peripherals::take`].
    pub fn steal(taken: &mut bool) -> (r: Peripherals)
        ensures
            *final(taken),
            numbered(r),
    {
        *taken = true;
        Peripherals::new()
    }
}


/// Taking Smart port `n` (starting from 1) from the claims `v`: the new
/// claims, and whether the port was handed out.
pub open spec fn take_smart_step(v: (bool, Seq<bool>, Seq<bool>), n: u8) -> ((bool, Seq<bool>, Seq<bool>), bool) {
    if v.1[n - 1] {
        (v, false)
    } else {
        ((v.0, v.1.update(n - 1, true), v.2), true)
    }
}

/// Taking ADI port `n` (starting from 1) from the claims `v`.
pub open spec fn take_adi_step(v: (bool, Seq<bool>, Seq<bool>), n: u8) -> ((bool, Seq<bool>, Seq<bool>), bool) {
    if v.2[n - 1] {
        (v, false)
    } else {
        ((v.0, v.1, v.2.update(n - 1, true)), true)
    }
}

/// Taking the display from the claims `v`.
pub open spec fn take_display_step(v: (bool, Seq<bool>, Seq<bool>)) -> ((bool, Seq<bool>, Seq<bool>), bool) {
    if v.0 {
        (v, false)
    } else {
        ((true, v.1, v.2), true)
    }
}

/// Ports and devices handed out at run time, each at most once.
#[derive(Debug)]
pub struct DynamicPeripherals {
    display: bool,
    smart_ports: [bool; 21],
    adi_slots: [bool; 8],
}

impl View for DynamicPeripherals {
    type V = (bool, Seq<bool>, Seq<bool>);

    /// The claims: whether the display, each Smart port and each ADI port has
    /// been handed out.
    closed spec fn view(&self) -> (bool, Seq<bool>, Seq<bool>) {
        (self.display, self.smart_ports@, self.adi_slots@)
    }
}

/// The claims cover 21 Smart ports and 8 ADI ports.
pub open spec fn claims_sized(v: (bool, Seq<bool>, Seq<bool>)) -> bool {
    v.1.len() == 21 && v.2.len() == 8
}

/// Every set of run-time claims covers 21 Smart ports and 8 ADI ports.
pub proof fn lemma_claims_sized(d: &DynamicPeripherals)
    ensures
        claims_sized(d@),
{
}

impl DynamicPeripherals {
    /// Creates run-time claims from the peripherals, which it consumes, with
    /// nothing handed out.
    pub fn new(peripherals: Peripherals) -> (r: DynamicPeripherals)
        ensures
            r@ == (false, Seq::new(21, |i: int| false), Seq::new(8, |i: int| false)),
    {
        let r = DynamicPeripherals { display: false, smart_ports: [false; 21], adi_slots: [false; 8] };
        assert(r@.1 =~= Seq::new(21, |i: int| false));
        assert(r@.2 =~= Seq::new(8, |i: int| false));
        r
    }

    /// Hands out Smart port `port_number` unless it was handed out before.
    /// Numbers outside 1 to 21 are refused by `requires`.
    pub fn take_smart_port(&mut self, port_number: u8) -> (r: Option<SmartPort>)
        requires
            1 <= port_number <= 21,
        ensures
            claims_sized(old(self)@),
            claims_sized(final(self)@),
            (final(self)@, r is Some) == take_smart_step(old(self)@, port_number),
            match r {
                Some(p) => p@ == port_number,
                None => true,
            },
    {
        let port_index = (port_number - 1) as usize;
        if self.smart_ports[port_index] {
            return None;
        }
        self.smart_ports[port_index] = true;
        assert(self@.1 =~= old(self)@.1.update(port_number - 1, true));
        Some(SmartPort::new(port_number))
    }

    /// Hands out ADI port `port_number` on the brain unless it was handed out
    /// before. Numbers outside 1 to 8 are refused by `requires`.
    pub fn take_adi_port(&mut self, port_number: u8) -> (r: Option<AdiPort>)
        requires
            1 <= port_number <= 8,
        ensures
            claims_sized(old(self)@),
            claims_sized(final(self)@),
            (final(self)@, r is Some) == take_adi_step(old(self)@, port_number),
            match r {
                Some(p) => p@ == (port_number, None::<u8>),
                None => true,
            },
    {
        let slot = (port_number - 1) as usize;
        if self.adi_slots[slot] {
            return None;
        }
        self.adi_slots[slot] = true;
        assert(self@.2 =~= old(self)@.2.update(port_number - 1, true));
        Some(AdiPort::new(port_number, None))
    }

    /// Hands out the display unless it was handed out before.
    pub fn take_display(&mut self) -> (r: Option<Display>)
        ensures
            claims_sized(old(self)@),
            claims_sized(final(self)@),
            (final(self)@, r is Some) == take_display_step(old(self)@),
    {
        if self.display {
            return None;
        }
        self.display = true;
        Some(Display::new())
    }
}

/// A port is handed out at most once: once Smart port `n` has been handed
/// out, taking it again gives nothing and changes nothing, and taking one
/// port never changes the claim on another.
pub proof fn lemma_smart_port_taken_once(v: (bool, Seq<bool>, Seq<bool>), n: u8, m: u8)
    requires
        claims_sized(v),
        1 <= n <= 21,
        1 <= m <= 21,
        m != n,
    ensures
        take_smart_step(take_smart_step(v, n).0, n) == (take_smart_step(v, n).0, false),
        take_smart_step(v, n).0.1[m - 1] == v.1[m - 1],
        take_smart_step(v, n).0.2 == v.2,
{
}

/// An ADI port is handed out at most once, and taking one never changes the
/// claim on another or on any Smart port.
pub proof fn lemma_adi_port_taken_once(v: (bool, Seq<bool>, Seq<bool>), n: u8, m: u8)
    requires
        claims_sized(v),
        1 <= n <= 8,
        1 <= m <= 8,
        m != n,
    ensures
        take_adi_step(take_adi_step(v, n).0, n) == (take_adi_step(v, n).0, false),
        take_adi_step(v, n).0.2[m - 1] == v.2[m - 1],
        take_adi_step(v, n).0.1 == v.1,
{
}

/// The display is handed out at most once.
pub proof fn lemma_display_taken_once(v: (bool, Seq<bool>, Seq<bool>))
    ensures
        take_display_step(take_display_step(v).0) == (take_display_step(v).0, false),
{
}

} // verus!
