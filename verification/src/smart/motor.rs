//! Smart motors: their gearsets, directions and brake modes, the control a
//! motor is set to, and the commands that apply it.

use super::{port_check, validate_port, PortError, SmartDevice, SmartDeviceType, SmartPort};
use vstd::prelude::*;

verus! {

/// The direction a motor counts as forward.
#[derive(Debug, Clone, Copy, PartialEq, Eq, Structural)]
pub enum Direction {
    /// Rotates in the forward direction.
    Forward,
    /// Rotates in the reverse direction.
    Reverse,
}

impl Direction {
    /// Whether this is the forward direction.
    pub fn is_forward(&self) -> (r: bool)
        ensures
            r == (*self == Direction::Forward),
    {
        match self {
            Direction::Forward => true,
            Direction::Reverse => false,
        }
    }

    /// Whether this is the reverse direction.
    pub fn is_reverse(&self) -> (r: bool)
        ensures
            r == (*self == Direction::Reverse),
    {
        match self {
            Direction::Forward => false,
            Direction::Reverse => true,
        }
    }

    /// The opposite direction.
    pub fn not(self) -> (r: Direction)
        ensures
            r != self,
    {
        match self {
            Direction::Forward => Direction::Reverse,
            Direction::Reverse => Direction::Forward,
        }
    }
}

/// The kind of a Smart motor.
#[derive(Debug, Clone, Copy, PartialEq, Eq, Structural)]
pub enum MotorType {
    /// An EXP motor.
    Exp,
    /// A V5 motor.
    V5,
}

impl MotorType {
    /// Whether this is an EXP motor.
    pub fn is_exp(&self) -> (r: bool)
        ensures
            r == (*self == MotorType::Exp),
    {
        match self {
            MotorType::Exp => true,
            MotorType::V5 => false,
        }
    }

    /// Whether this is a V5 motor.
    pub fn is_v5(&self) -> (r: bool)
        ensures
            r == (*self == MotorType::V5),
    {
        match self {
            MotorType::Exp => false,
            MotorType::V5 => true,
        }
    }
}

/// How a motor behaves when it brakes.
#[derive(Debug, Clone, Copy, PartialEq, Eq, Structural)]
pub enum BrakeMode {
    /// The motor never brakes.
    Coast,
    /// The motor brakes regeneratively.
    Brake,
    /// The motor holds its position.
    Hold,
}

/// The raw VEXos code of a brake mode.
pub open spec fn brake_code(mode: BrakeMode) -> u8 {
    match mode {
        BrakeMode::Coast => 0,
        BrakeMode::Brake => 1,
        BrakeMode::Hold => 2,
    }
}

impl BrakeMode {
    /// Decodes a raw VEXos brake mode; codes other than 0, 1 and 2 are
    /// refused by `requires`.
    pub fn from_raw(raw: u8) -> (r: BrakeMode)
        requires
            raw < 3,
        ensures
            brake_code(r) == raw,
    {
        if raw == 0 {
            BrakeMode::Coast
        } else if raw == 1 {
            BrakeMode::Brake
        } else {
            BrakeMode::Hold
        }
    }

    /// The raw VEXos code of this brake mode.
    pub fn into_raw(self) -> (r: u8)
        ensures
            r == brake_code(self),
    {
        match self {
            BrakeMode::Coast => 0,
            BrakeMode::Brake => 1,
            BrakeMode::Hold => 2,
        }
    }
}

/// Encoder ticks per output revolution with the red (36:1) gearset.
pub const RED_TICKS_PER_REVOLUTION: u32 = 1800u32;

/// Encoder ticks per output revolution with the green (18:1) gearset.
pub const GREEN_TICKS_PER_REVOLUTION: u32 = 900u32;

/// Encoder ticks per output revolution with the blue (6:1) gearset.
pub const BLUE_TICKS_PER_REVOLUTION: u32 = 300u32;

/// The internal gearset of a Smart motor.
#[derive(Debug, Clone, Copy, PartialEq, Eq, Structural)]
pub enum Gearset {
    /// 36:1, 100 rpm.
    Red,
    /// 18:1, 200 rpm.
    Green,
    /// 6:1, 600 rpm.
    Blue,
}

/// The raw VEXos code of a gearset.
pub open spec fn gearset_code(g: Gearset) -> u8 {
    match g {
        Gearset::Red => 0,
        Gearset::Green => 1,
        Gearset::Blue => 2,
    }
}

/// The gearset that raw VEXos code `raw` (0, 1 or 2) stands for.
pub open spec fn gearset_of(raw: u8) -> Gearset {
    if raw == 0 {
        Gearset::Red
    } else if raw == 1 {
        Gearset::Green
    } else {
        Gearset::Blue
    }
}

/// Encoder ticks per output revolution with gearset `g`.
pub open spec fn gearset_ticks(g: Gearset) -> u32 {
    match g {
        Gearset::Red => RED_TICKS_PER_REVOLUTION,
        Gearset::Green => GREEN_TICKS_PER_REVOLUTION,
        Gearset::Blue => BLUE_TICKS_PER_REVOLUTION,
    }
}

impl Gearset {
    /// The number of encoder ticks per output revolution.
    pub fn ticks_per_revolution(&self) -> (r: u32)
        ensures
            r == gearset_ticks(*self),
    {
        match self {
            Gearset::Red => RED_TICKS_PER_REVOLUTION,
            Gearset::Green => GREEN_TICKS_PER_REVOLUTION,
            Gearset::Blue => BLUE_TICKS_PER_REVOLUTION,
        }
    }

    /// Decodes a raw VEXos gearset; codes other than 0, 1 and 2 are refused
    /// by `requires`.
    pub fn from_raw(raw: u8) -> (r: Gearset)
        requires
            raw < 3,
        ensures
            gearset_code(r) == raw,
            r == gearset_of(raw),
    {
        if raw == 0 {
            Gearset::Red
        } else if raw == 1 {
            Gearset::Green
        } else {
            Gearset::Blue
        }
    }

    /// The raw VEXos code of this gearset.
    pub fn into_raw(self) -> (r: u8)
        ensures
            r == gearset_code(self),
    {
        match self {
            Gearset::Red => 0,
            Gearset::Green => 1,
            Gearset::Blue => 2,
        }
    }
}

/// A faster gearset has fewer ticks per revolution, and the three tick counts
/// stand in the ratio of the gearsets, 36:18:6.
pub proof fn lemma_gearset_ticks()
    ensures
        gearset_ticks(Gearset::Red) == 2 * gearset_ticks(Gearset::Green),
        gearset_ticks(Gearset::Green) == 3 * gearset_ticks(Gearset::Blue),
        forall|g: Gearset| #[trigger] gearset_ticks(g) % 300 == 0,
{
}

/// Fault bit: the motor is over temperature.
pub const OVER_TEMPERATURE: u32 = 0x01u32;

/// Fault bit: the motor's H-bridge has a fault.
pub const DRIVER_FAULT: u32 = 0x02u32;

/// Fault bit: the motor is over current.
pub const OVER_CURRENT: u32 = 0x04u32;

/// Fault bit: the motor's H-bridge is over current.
pub const DRIVER_OVER_CURRENT: u32 = 0x08u32;

/// Status bit: the motor is busy.
pub const BUSY: u32 = 0x01u32;

/// The fault flags a motor reports.
#[derive(Debug, Clone, Copy, PartialEq, Eq, Structural)]
pub struct MotorFaults {
    bits: u32,
}

impl View for MotorFaults {
    type V = u32;

    /// Fault flags are seen as their bits.
    closed spec fn view(&self) -> u32 {
        self.bits
    }
}

impl MotorFaults {
    /// Keeps every bit of a raw fault word.
    pub fn from_bits_retain(bits: u32) -> (r: MotorFaults)
        ensures
            r@ == bits,
    {
        MotorFaults { bits }
    }

    /// The raw fault word.
    pub fn bits(&self) -> (r: u32)
        ensures
            r == self@,
    {
        self.bits
    }

    /// Whether every bit of `flag` is set.
    pub fn contains(&self, flag: u32) -> (r: bool)
        ensures
            r == (self@ & flag == flag),
    {
        self.bits & flag == flag
    }
}

/// The status flags a motor reports.
#[derive(Debug, Clone, Copy, PartialEq, Eq, Structural)]
pub struct MotorStatus {
    bits: u32,
}

impl View for MotorStatus {
    type V = u32;

    /// Status flags are seen as their bits.
    closed spec fn view(&self) -> u32 {
        self.bits
    }
}

impl MotorStatus {
    /// Keeps every bit of a raw status word.
    pub fn from_bits_retain(bits: u32) -> (r: MotorStatus)
        ensures
            r@ == bits,
    {
        MotorStatus { bits }
    }

    /// The raw status word.
    pub fn bits(&self) -> (r: u32)
        ensures
            r == self@,
    {
        self.bits
    }

    /// Whether every bit of `flag` is set.
    pub fn contains(&self, flag: u32) -> (r: bool)
        ensures
            r == (self@ & flag == flag),
    {
        self.bits & flag == flag
    }
}

/// Errors of a Smart motor.
#[derive(Debug, Clone, Copy, PartialEq, Eq, Structural)]
pub enum MotorError {
    /// The motor is busy.
    Busy,
    /// The motor is not on its port.
    Port {
        /// What is wrong with the port.
        source: PortError,
    },
    /// EXP motors have a fixed gearset, which cannot be set.
    SetGearsetExp,
}

/// What a motor is set to do. Voltages are given as `V` and positions as
/// `P`; this library only carries them to the command that applies them.
#[derive(Debug, Clone, Copy, PartialEq)]
pub enum MotorControl<V, P> {
    /// Brake in the given mode.
    Brake(BrakeMode),
    /// Apply a voltage.
    Voltage(V),
    /// Run at a velocity, in rpm.
    Velocity(i32),
    /// Move to a position at a velocity, in rpm.
    Position(P, i32),
}

/// The order that applies a control, after the motor's brake mode is set.
#[derive(Debug, Clone, Copy, PartialEq)]
pub enum MotorAction<V, P> {
    /// Velocity control at this many rpm.
    Velocity(i32),
    /// Apply this voltage.
    Voltage(V),
    /// Move to `position`, counted in ticks of `ticks_per_revolution` per
    /// turn, at `velocity` rpm.
    AbsoluteTarget {
        /// The position.
        position: P,
        /// The ticks per revolution of the motor's gearset.
        ticks_per_revolution: u32,
        /// The velocity, in rpm.
        velocity: i32,
    },
}

/// What VEXos is to be told to apply a control: a brake mode, then an
/// action.
#[derive(Debug, Clone, Copy, PartialEq)]
pub struct MotorCommand<V, P> {
    /// The brake mode to set.
    pub brake_mode: BrakeMode,
    /// The action that follows.
    pub action: MotorAction<V, P>,
}

/// The command that applies `target` on a motor with gearset `g`: braking is
/// velocity control at 0 rpm in the given brake mode; every other control
/// coasts.
pub open spec fn command_for<V, P>(target: MotorControl<V, P>, g: Gearset) -> MotorCommand<V, P> {
    match target {
        MotorControl::Brake(mode) => MotorCommand { brake_mode: mode, action: MotorAction::Velocity(0) },
        MotorControl::Velocity(rpm) => MotorCommand {
            brake_mode: BrakeMode::Coast,
            action: MotorAction::Velocity(rpm),
        },
        MotorControl::Voltage(v) => MotorCommand {
            brake_mode: BrakeMode::Coast,
            action: MotorAction::Voltage(v),
        },
        MotorControl::Position(p, velocity) => MotorCommand {
            brake_mode: BrakeMode::Coast,
            action: MotorAction::AbsoluteTarget {
                position: p,
                ticks_per_revolution: gearset_ticks(g),
                velocity,
            },
        },
    }
}

/// How a new motor's port is set up: counting in encoder ticks, reversed or
/// not, with a gearset.
#[derive(Debug, Clone, Copy, PartialEq, Eq, Structural)]
pub struct MotorSetup {
    /// Whether the motor runs reversed.
    pub reverse: bool,
    /// The gearset to set.
    pub gearset: Gearset,
}

/// The outcome of a request on the motor on Smart port `port` whose status
/// code is `raw`, yielding `value` when the motor is present.
pub open spec fn motor_outcome<T>(port: u8, raw: u8, value: T) -> Result<T, MotorError> {
    match port_check(port, SmartDeviceType::Motor, raw) {
        Ok(()) => Ok(value),
        Err(e) => Err(MotorError::Port { source: e }),
    }
}

/// The gearset of a motor of type `t` on port `port`, given the port's
/// status code and the gearset code VEXos reports: an EXP motor's is always
/// green, with no look at the port.
pub open spec fn motor_gearset(t: MotorType, port: u8, raw_status: u8, raw_gearset: u8) -> Result<
    Gearset,
    MotorError,
> {
    if t == MotorType::Exp {
        Ok(Gearset::Green)
    } else {
        motor_outcome(port, raw_status, gearset_of(raw_gearset))
    }
}

/// Whether VEXos's gearset report can be decoded when it is read: it is read
/// only for a V5 motor on its port, and must then be 0, 1 or 2.
pub open spec fn gearset_readable(t: MotorType, port: u8, raw_status: u8, raw_gearset: u8) -> bool {
    t == MotorType::V5 && port_check(port, SmartDeviceType::Motor, raw_status) is Ok ==> raw_gearset < 3
}

/// A Smart motor, V5 or EXP. Voltages are given as `V` and positions as `P`.
#[derive(Debug, PartialEq)]
pub struct Motor<V, P> {
    port: SmartPort,
    target: MotorControl<V, P>,
    motor_type: MotorType,
}

impl<V: Copy, P: Copy> Motor<V, P> {
    /// The Smart port the motor is plugged into.
    pub closed spec fn port_spec(&self) -> u8 {
        self.port@
    }

    /// The control the motor was last set to.
    pub closed spec fn target_spec(&self) -> MotorControl<V, P> {
        self.target
    }

    /// The kind of the motor.
    pub closed spec fn motor_type_spec(&self) -> MotorType {
        self.motor_type
    }

    fn new_with_type(port: SmartPort, gearset: Gearset, direction: Direction, motor_type: MotorType, zero: V) -> (r: (
        Motor<V, P>,
        MotorSetup,
    ))
        ensures
            r.0.port_spec() == port@,
            r.0.target_spec() == MotorControl::<V, P>::Voltage(zero),
            r.0.motor_type_spec() == motor_type,
            r.1 == (MotorSetup { reverse: direction == Direction::Reverse, gearset }),
    {
        let setup = MotorSetup { reverse: direction.is_reverse(), gearset };
        (Motor { port, target: MotorControl::Voltage(zero), motor_type }, setup)
    }

    /// Creates a V5 motor on `port` with `gearset`, spinning forward in
    /// `direction`, together with the setup its port is to be given. The
    /// motor starts under voltage control at `zero`, the voltage that stands
    /// for no voltage.
    pub fn new(port: SmartPort, gearset: Gearset, direction: Direction, zero: V) -> (r: (
        Motor<V, P>,
        MotorSetup,
    ))
        ensures
            r.0.port_spec() == port@,
            r.0.target_spec() == MotorControl::<V, P>::Voltage(zero),
            r.0.motor_type_spec() == MotorType::V5,
            r.1 == (MotorSetup { reverse: direction == Direction::Reverse, gearset }),
    {
        Self::new_with_type(port, gearset, direction, MotorType::V5, zero)
    }

    /// Creates an EXP motor on `port`, whose gearset is always green,
    /// together with the setup its port is to be given; it starts under
    /// voltage control at `zero`.
    pub fn new_exp(port: SmartPort, direction: Direction, zero: V) -> (r: (Motor<V, P>, MotorSetup))
        ensures
            r.0.port_spec() == port@,
            r.0.target_spec() == MotorControl::<V, P>::Voltage(zero),
            r.0.motor_type_spec() == MotorType::Exp,
            r.1 == (MotorSetup { reverse: direction == Direction::Reverse, gearset: Gearset::Green }),
    {
        Self::new_with_type(port, Gearset::Green, direction, MotorType::Exp, zero)
    }

    /// The motor's gearset, given the status code of its Smart port and the
    /// gearset code VEXos reports.
    pub fn gearset(&self, raw_status: u8, raw_gearset: u8) -> (r: Result<Gearset, MotorError>)
        requires
            gearset_readable(self.motor_type_spec(), self.port_spec(), raw_status, raw_gearset),
        ensures
            r == motor_gearset(self.motor_type_spec(), self.port_spec(), raw_status, raw_gearset),
    {
        if self.motor_type.is_exp() {
            return Ok(Gearset::Green);
        }
        match validate_port(self.port.number(), SmartDeviceType::Motor, raw_status) {
            Ok(()) => Ok(Gearset::from_raw(raw_gearset)),
            Err(e) => Err(MotorError::Port { source: e }),
        }
    }

    /// Sets the control the motor follows, given the status code of its Smart
    /// port and the gearset code VEXos reports; on success gives the command
    /// that applies it. When the gearset cannot be read, nothing changes.
    pub fn set_target(&mut self, target: MotorControl<V, P>, raw_status: u8, raw_gearset: u8) -> (r: Result<
        MotorCommand<V, P>,
        MotorError,
    >)
        requires
            gearset_readable(old(self).motor_type_spec(), old(self).port_spec(), raw_status, raw_gearset),
        ensures
            final(self).port_spec() == old(self).port_spec(),
            final(self).motor_type_spec() == old(self).motor_type_spec(),
            match motor_gearset(old(self).motor_type_spec(), old(self).port_spec(), raw_status, raw_gearset) {
                Ok(g) => r == Ok::<MotorCommand<V, P>, MotorError>(command_for(target, g))
                    && final(self).target_spec() == target,
                Err(e) => r == Err::<MotorCommand<V, P>, MotorError>(e) && final(self).target_spec()
                    == old(self).target_spec(),
            },
    {
        let gearset = match self.gearset(raw_status, raw_gearset) {
            Ok(g) => g,
            Err(e) => {
                return Err(e);
            },
        };
        self.target = target;
        let command = match target {
            MotorControl::Brake(mode) => MotorCommand { brake_mode: mode, action: MotorAction::Velocity(0) },
            MotorControl::Velocity(rpm) => MotorCommand {
                brake_mode: BrakeMode::Coast,
                action: MotorAction::Velocity(rpm),
            },
            MotorControl::Voltage(v) => MotorCommand {
                brake_mode: BrakeMode::Coast,
                action: MotorAction::Voltage(v),
            },
            MotorControl::Position(p, velocity) => MotorCommand {
                brake_mode: BrakeMode::Coast,
                action: MotorAction::AbsoluteTarget {
                    position: p,
                    ticks_per_revolution: gearset.ticks_per_revolution(),
                    velocity,
                },
            },
        };
        Ok(command)
    }

    /// Brakes the motor in `mode`; see [`Motor::set_target`].
    pub fn brake(&mut self, mode: BrakeMode, raw_status: u8, raw_gearset: u8) -> (r: Result<
        MotorCommand<V, P>,
        MotorError,
    >)
        requires
            gearset_readable(old(self).motor_type_spec(), old(self).port_spec(), raw_status, raw_gearset),
        ensures
            final(self).port_spec() == old(self).port_spec(),
            final(self).motor_type_spec() == old(self).motor_type_spec(),
            match motor_gearset(old(self).motor_type_spec(), old(self).port_spec(), raw_status, raw_gearset) {
                Ok(g) => r == Ok::<MotorCommand<V, P>, MotorError>(
                    command_for(MotorControl::<V, P>::Brake(mode), g),
                ) && final(self).target_spec() == MotorControl::<V, P>::Brake(mode),
                Err(e) => r == Err::<MotorCommand<V, P>, MotorError>(e) && final(self).target_spec()
                    == old(self).target_spec(),
            },
    {
        self.set_target(MotorControl::Brake(mode), raw_status, raw_gearset)
    }

    /// Runs the motor at `rpm`; see [`Motor::set_target`].
    pub fn set_velocity(&mut self, rpm: i32, raw_status: u8, raw_gearset: u8) -> (r: Result<
        MotorCommand<V, P>,
        MotorError,
    >)
        requires
            gearset_readable(old(self).motor_type_spec(), old(self).port_spec(), raw_status, raw_gearset),
        ensures
            final(self).port_spec() == old(self).port_spec(),
            final(self).motor_type_spec() == old(self).motor_type_spec(),
            match motor_gearset(old(self).motor_type_spec(), old(self).port_spec(), raw_status, raw_gearset) {
                Ok(g) => r == Ok::<MotorCommand<V, P>, MotorError>(
                    command_for(MotorControl::<V, P>::Velocity(rpm), g),
                ) && final(self).target_spec() == MotorControl::<V, P>::Velocity(rpm),
                Err(e) => r == Err::<MotorCommand<V, P>, MotorError>(e) && final(self).target_spec()
                    == old(self).target_spec(),
            },
    {
        self.set_target(MotorControl::Velocity(rpm), raw_status, raw_gearset)
    }

    /// Applies voltage `volts`; see [`Motor::set_target`].
    pub fn set_voltage(&mut self, volts: V, raw_status: u8, raw_gearset: u8) -> (r: Result<
        MotorCommand<V, P>,
        MotorError,
    >)
        requires
            gearset_readable(old(self).motor_type_spec(), old(self).port_spec(), raw_status, raw_gearset),
        ensures
            final(self).port_spec() == old(self).port_spec(),
            final(self).motor_type_spec() == old(self).motor_type_spec(),
            match motor_gearset(old(self).motor_type_spec(), old(self).port_spec(), raw_status, raw_gearset) {
                Ok(g) => r == Ok::<MotorCommand<V, P>, MotorError>(
                    command_for(MotorControl::<V, P>::Voltage(volts), g),
                ) && final(self).target_spec() == MotorControl::<V, P>::Voltage(volts),
                Err(e) => r == Err::<MotorCommand<V, P>, MotorError>(e) && final(self).target_spec()
                    == old(self).target_spec(),
            },
    {
        self.set_target(MotorControl::Voltage(volts), raw_status, raw_gearset)
    }

    /// Moves the motor to `position` at `velocity` rpm; see
    /// [`Motor::set_target`].
    pub fn set_position_target(&mut self, position: P, velocity: i32, raw_status: u8, raw_gearset: u8) -> (r:
        Result<MotorCommand<V, P>, MotorError>)
        requires
            gearset_readable(old(self).motor_type_spec(), old(self).port_spec(), raw_status, raw_gearset),
        ensures
            final(self).port_spec() == old(self).port_spec(),
            final(self).motor_type_spec() == old(self).motor_type_spec(),
            match motor_gearset(old(self).motor_type_spec(), old(self).port_spec(), raw_status, raw_gearset) {
                Ok(g) => r == Ok::<MotorCommand<V, P>, MotorError>(
                    command_for(MotorControl::<V, P>::Position(position, velocity), g),
                ) && final(self).target_spec() == MotorControl::<V, P>::Position(position, velocity),
                Err(e) => r == Err::<MotorCommand<V, P>, MotorError>(e) && final(self).target_spec()
                    == old(self).target_spec(),
            },
    {
        self.set_target(MotorControl::Position(position, velocity), raw_status, raw_gearset)
    }

    /// Changes the velocity of a position move under way to `velocity`,
    /// given the status code of the motor's Smart port; the new velocity is
    /// to be sent on success. A position target keeps its position and takes
    /// the new velocity; other targets are kept as they are.
    pub fn set_profiled_velocity(&mut self, velocity: i32, raw_status: u8) -> (r: Result<(), MotorError>)
        ensures
            final(self).port_spec() == old(self).port_spec(),
            final(self).motor_type_spec() == old(self).motor_type_spec(),
            r == motor_outcome(old(self).port_spec(), raw_status, ()),
            final(self).target_spec() == if r is Ok {
                match old(self).target_spec() {
                    MotorControl::Position(p, _) => MotorControl::Position(p, velocity),
                    t => t,
                }
            } else {
                old(self).target_spec()
            },
    {
        if let Err(e) = validate_port(self.port.number(), SmartDeviceType::Motor, raw_status) {
            return Err(MotorError::Port { source: e });
        }
        if let MotorControl::Position(position, _) = self.target {
            self.target = MotorControl::Position(position, velocity);
        }
        Ok(())
    }

    /// The control the motor was last set to.
    pub fn target(&self) -> (r: MotorControl<V, P>)
        ensures
            r == self.target_spec(),
    {
        self.target
    }

    /// Sets the gearset of a V5 motor, given the status code of its Smart
    /// port; on success `gearset` is to be sent. EXP motors refuse.
    pub fn set_gearset(&mut self, gearset: Gearset, raw_status: u8) -> (r: Result<(), MotorError>)
        ensures
            *final(self) == *old(self),
            r == if old(self).motor_type_spec() == MotorType::Exp {
                Err(MotorError::SetGearsetExp)
            } else {
                motor_outcome(old(self).port_spec(), raw_status, ())
            },
    {
        if !self.motor_type.is_v5() {
            return Err(MotorError::SetGearsetExp);
        }
        match validate_port(self.port.number(), SmartDeviceType::Motor, raw_status) {
            Ok(()) => Ok(()),
            Err(e) => Err(MotorError::Port { source: e }),
        }
    }

    /// The kind of the motor.
    pub fn motor_type(&self) -> (r: MotorType)
        ensures
            r == self.motor_type_spec(),
    {
        self.motor_type
    }

    /// Whether this is an EXP motor.
    pub fn is_exp(&self) -> (r: bool)
        ensures
            r == (self.motor_type_spec() == MotorType::Exp),
    {
        self.motor_type.is_exp()
    }

    /// Whether this is a V5 motor.
    pub fn is_v5(&self) -> (r: bool)
        ensures
            r == (self.motor_type_spec() == MotorType::V5),
    {
        self.motor_type.is_v5()
    }

    /// The motor's raw encoder position and the time it was measured, given
    /// the status code of its Smart port and what VEXos reports.
    pub fn raw_position(&self, raw_status: u8, raw_ticks: i32, raw_timestamp: u32) -> (r: Result<
        (i32, u32),
        MotorError,
    >)
        ensures
            r == motor_outcome(self.port_spec(), raw_status, (raw_ticks, raw_timestamp)),
    {
        match validate_port(self.port.number(), SmartDeviceType::Motor, raw_status) {
            Ok(()) => Ok((raw_ticks, raw_timestamp)),
            Err(e) => Err(MotorError::Port { source: e }),
        }
    }

    /// Resets the motor's position to zero, given the status code of its
    /// Smart port; the reset is to be sent on success.
    pub fn reset_position(&mut self, raw_status: u8) -> (r: Result<(), MotorError>)
        ensures
            *final(self) == *old(self),
            r == motor_outcome(old(self).port_spec(), raw_status, ()),
    {
        match validate_port(self.port.number(), SmartDeviceType::Motor, raw_status) {
            Ok(()) => Ok(()),
            Err(e) => Err(MotorError::Port { source: e }),
        }
    }

    /// Sets the motor's current position to `position`, given the status
    /// code of its Smart port and the gearset code VEXos reports; on success
    /// gives the position and the ticks per revolution it is to be counted
    /// in.
    pub fn set_position(&mut self, position: P, raw_status: u8, raw_gearset: u8) -> (r: Result<
        (P, u32),
        MotorError,
    >)
        requires
            gearset_readable(old(self).motor_type_spec(), old(self).port_spec(), raw_status, raw_gearset),
        ensures
            *final(self) == *old(self),
            r == match motor_gearset(old(self).motor_type_spec(), old(self).port_spec(), raw_status, raw_gearset) {
                Ok(g) => Ok((position, gearset_ticks(g))),
                Err(e) => Err(e),
            },
    {
        match self.gearset(raw_status, raw_gearset) {
            Ok(g) => Ok((position, g.ticks_per_revolution())),
            Err(e) => Err(e),
        }
    }

    /// The motor's status flags, given the status code of its Smart port and
    /// the flags VEXos reports.
    pub fn status(&self, raw_status: u8, raw_flags: u32) -> (r: Result<MotorStatus, MotorError>)
        ensures
            match r {
                Ok(s) => port_check(self.port_spec(), SmartDeviceType::Motor, raw_status) is Ok && s@ == raw_flags,
                Err(e) => motor_outcome(self.port_spec(), raw_status, ()) == Err::<(), MotorError>(e),
            },
    {
        match validate_port(self.port.number(), SmartDeviceType::Motor, raw_status) {
            Ok(()) => Ok(MotorStatus::from_bits_retain(raw_flags)),
            Err(e) => Err(MotorError::Port { source: e }),
        }
    }

    /// The motor's fault flags, given the status code of its Smart port and
    /// the faults VEXos reports.
    pub fn faults(&self, raw_status: u8, raw_faults: u32) -> (r: Result<MotorFaults, MotorError>)
        ensures
            match r {
                Ok(f) => port_check(self.port_spec(), SmartDeviceType::Motor, raw_status) is Ok && f@ == raw_faults,
                Err(e) => motor_outcome(self.port_spec(), raw_status, ()) == Err::<(), MotorError>(e),
            },
    {
        match validate_port(self.port.number(), SmartDeviceType::Motor, raw_status) {
            Ok(()) => Ok(MotorFaults::from_bits_retain(raw_faults)),
            Err(e) => Err(MotorError::Port { source: e }),
        }
    }

    /// Whether the motor is over temperature, given the status code of its
    /// Smart port and the faults VEXos reports.
    pub fn is_over_temperature(&self, raw_status: u8, raw_faults: u32) -> (r: Result<bool, MotorError>)
        ensures
            r == motor_outcome(self.port_spec(), raw_status, raw_faults & OVER_TEMPERATURE == OVER_TEMPERATURE),
    {
        match self.faults(raw_status, raw_faults) {
            Ok(f) => Ok(f.contains(OVER_TEMPERATURE)),
            Err(e) => Err(e),
        }
    }

    /// Whether the motor is over current, given the status code of its Smart
    /// port and the faults VEXos reports.
    pub fn is_over_current(&self, raw_status: u8, raw_faults: u32) -> (r: Result<bool, MotorError>)
        ensures
            r == motor_outcome(self.port_spec(), raw_status, raw_faults & OVER_CURRENT == OVER_CURRENT),
    {
        match self.faults(raw_status, raw_faults) {
            Ok(f) => Ok(f.contains(OVER_CURRENT)),
            Err(e) => Err(e),
        }
    }

    /// Whether the motor's H-bridge has a fault, given the status code of its
    /// Smart port and the faults VEXos reports.
    pub fn is_driver_fault(&self, raw_status: u8, raw_faults: u32) -> (r: Result<bool, MotorError>)
        ensures
            r == motor_outcome(self.port_spec(), raw_status, raw_faults & DRIVER_FAULT == DRIVER_FAULT),
    {
        match self.faults(raw_status, raw_faults) {
            Ok(f) => Ok(f.contains(DRIVER_FAULT)),
            Err(e) => Err(e),
        }
    }

    /// Whether the motor's H-bridge is over current, given the status code of
    /// its Smart port and the faults VEXos reports.
    pub fn is_driver_over_current(&self, raw_status: u8, raw_faults: u32) -> (r: Result<bool, MotorError>)
        ensures
            r == motor_outcome(
                self.port_spec(),
                raw_status,
                raw_faults & DRIVER_OVER_CURRENT == DRIVER_OVER_CURRENT,
            ),
    {
        match self.faults(raw_status, raw_faults) {
            Ok(f) => Ok(f.contains(DRIVER_OVER_CURRENT)),
            Err(e) => Err(e),
        }
    }

    /// Sets the direction the motor counts as forward, given the status code
    /// of its Smart port; on success the reverse flag, whether `direction` is
    /// reverse, is to be sent.
    pub fn set_direction(&mut self, direction: Direction, raw_status: u8) -> (r: Result<bool, MotorError>)
        ensures
            *final(self) == *old(self),
            r == motor_outcome(old(self).port_spec(), raw_status, direction == Direction::Reverse),
    {
        match validate_port(self.port.number(), SmartDeviceType::Motor, raw_status) {
            Ok(()) => Ok(direction.is_reverse()),
            Err(e) => Err(MotorError::Port { source: e }),
        }
    }

    /// The direction the motor counts as forward, given the status code of
    /// its Smart port and the reverse flag VEXos reports.
    pub fn direction(&self, raw_status: u8, raw_reverse: bool) -> (r: Result<Direction, MotorError>)
        ensures
            r == motor_outcome(
                self.port_spec(),
                raw_status,
                if raw_reverse {
                    Direction::Reverse
                } else {
                    Direction::Forward
                },
            ),
    {
        match validate_port(self.port.number(), SmartDeviceType::Motor, raw_status) {
            Ok(()) => Ok(
                if raw_reverse {
                    Direction::Reverse
                } else {
                    Direction::Forward
                },
            ),
            Err(e) => Err(MotorError::Port { source: e }),
        }
    }
}

impl<V: Copy, P: Copy> SmartDevice for Motor<V, P> {
    fn port_number(&self) -> (r: u8)
        ensures
            r == self.port_spec(),
    {
        self.port.number()
    }

    fn device_type(&self) -> (r: SmartDeviceType)
        ensures
            r == SmartDeviceType::Motor,
    {
        SmartDeviceType::Motor
    }
}

} // verus!
