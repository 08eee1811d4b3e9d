//! V5 controllers: button and joystick state, the controller screen, and
//! rumble.

use crate::competition::CompetitionMode;
use vstd::prelude::*;
use vstd::string::StringSliceAdditionalSpecFns;

verus! {

/// The state of a button, as of the last two reads.
#[derive(Debug, Clone, Copy, PartialEq, Eq, Structural)]
pub struct ButtonState {
    prev_is_pressed: bool,
    is_pressed: bool,
}

impl View for ButtonState {
    type V = (bool, bool);

    /// A button state is seen as (pressed at the previous read, pressed now).
    closed spec fn view(&self) -> (bool, bool) {
        (self.prev_is_pressed, self.is_pressed)
    }
}

impl ButtonState {
    /// Whether the button is pressed.
    pub fn is_pressed(&self) -> (r: bool)
        ensures
            r == self@.1,
    {
        self.is_pressed
    }

    /// Whether the button is released.
    pub fn is_released(&self) -> (r: bool)
        ensures
            r == !self@.1,
    {
        !self.is_pressed
    }

    /// Whether the button was pressed since the previous read.
    pub fn is_now_pressed(&self) -> (r: bool)
        ensures
            r == (!self@.0 && self@.1),
    {
        !self.prev_is_pressed && self.is_pressed
    }

    /// Whether the button was released since the previous read.
    pub fn is_now_released(&self) -> (r: bool)
        ensures
            r == (self@.0 && !self@.1),
    {
        self.prev_is_pressed && !self.is_pressed
    }
}

impl Default for ButtonState {
    /// A button that is not pressed and was not pressed.
    fn default() -> (r: ButtonState)
        ensures
            r@ == (false, false),
    {
        ButtonState { prev_is_pressed: false, is_pressed: false }
    }
}

/// The position of a joystick, each axis from -127 to 127.
#[derive(Debug, Clone, Copy, PartialEq, Eq, Structural)]
pub struct JoystickState {
    x_raw: i8,
    y_raw: i8,
}

impl View for JoystickState {
    type V = (i8, i8);

    /// A joystick state is seen as its raw (x, y) position.
    closed spec fn view(&self) -> (i8, i8) {
        (self.x_raw, self.y_raw)
    }
}

impl JoystickState {
    /// The raw horizontal position, from -127 to 127.
    pub fn x_raw(&self) -> (r: i8)
        ensures
            r == self@.0,
    {
        self.x_raw
    }

    /// The raw vertical position, from -127 to 127.
    pub fn y_raw(&self) -> (r: i8)
        ensures
            r == self@.1,
    {
        self.y_raw
    }
}

impl Default for JoystickState {
    /// A centered joystick.
    fn default() -> (r: JoystickState)
        ensures
            r@ == (0i8, 0i8),
    {
        JoystickState { x_raw: 0, y_raw: 0 }
    }
}

/// A snapshot of a controller's buttons and joysticks.
#[derive(Debug, Clone, Copy, PartialEq, Eq, Structural)]
pub struct ControllerState {
    /// Left joystick.
    pub left_stick: JoystickState,
    /// Right joystick.
    pub right_stick: JoystickState,
    /// Button A.
    pub button_a: ButtonState,
    /// Button B.
    pub button_b: ButtonState,
    /// Button X.
    pub button_x: ButtonState,
    /// Button Y.
    pub button_y: ButtonState,
    /// Button up.
    pub button_up: ButtonState,
    /// Button down.
    pub button_down: ButtonState,
    /// Button left.
    pub button_left: ButtonState,
    /// Button right.
    pub button_right: ButtonState,
    /// Front left trigger (L1).
    pub front_left_trigger: ButtonState,
    /// Back left trigger (L2).
    pub back_left_trigger: ButtonState,
    /// Front right trigger (R1).
    pub front_right_trigger: ButtonState,
    /// Back right trigger (R2).
    pub back_right_trigger: ButtonState,
}

/// The values VEXos reports for each channel of a controller.
#[derive(Debug, Clone, Copy, PartialEq, Eq, Structural)]
pub struct ControllerReadings {
    /// Right joystick, horizontal.
    pub axis1: i32,
    /// Right joystick, vertical.
    pub axis2: i32,
    /// Left joystick, vertical.
    pub axis3: i32,
    /// Left joystick, horizontal.
    pub axis4: i32,
    /// Button A.
    pub button_a: i32,
    /// Button B.
    pub button_b: i32,
    /// Button X.
    pub button_x: i32,
    /// Button Y.
    pub button_y: i32,
    /// Button up.
    pub button_up: i32,
    /// Button down.
    pub button_down: i32,
    /// Button left.
    pub button_left: i32,
    /// Button right.
    pub button_right: i32,
    /// Button L1.
    pub button_l1: i32,
    /// Button L2.
    pub button_l2: i32,
    /// Button R1.
    pub button_r1: i32,
    /// Button R2.
    pub button_r2: i32,
}

/// Whether each button was pressed at a read, in the order A, B, X, Y, up,
/// down, left, right, L1, L2, R1, R2.
#[derive(Debug, Clone, Copy, PartialEq, Eq, Structural)]
struct ButtonStates {
    a: bool,
    b: bool,
    x: bool,
    y: bool,
    up: bool,
    down: bool,
    left: bool,
    right: bool,
    front_left_trigger: bool,
    back_left_trigger: bool,
    front_right_trigger: bool,
    back_right_trigger: bool,
}

/// Which controller.
#[derive(Debug, Clone, Copy, PartialEq, Eq, Structural)]
pub enum ControllerId {
    /// The primary ("master") controller.
    Primary,
    /// The partner controller.
    Partner,
}

/// The raw VEXos code of a controller: 0 for primary, 1 for partner.
pub open spec fn controller_code(id: ControllerId) -> u8 {
    match id {
        ControllerId::Primary => 0,
        ControllerId::Partner => 1,
    }
}

impl ControllerId {
    /// The raw VEXos code of this controller.
    pub fn into_raw(self) -> (r: u8)
        ensures
            r == controller_code(self),
    {
        match self {
            ControllerId::Primary => 0,
            ControllerId::Partner => 1,
        }
    }
}

/// How a controller is connected to the brain.
#[derive(Debug, Clone, Copy, PartialEq, Eq, Structural)]
pub enum ControllerConnection {
    /// Not connected.
    Offline,
    /// Connected by a cable.
    Tethered,
    /// Connected over VEXnet.
    VexNet,
}

/// The raw VEXos code of a connection: 0 offline, 1 tethered, 2 VEXnet.
pub open spec fn connection_code(c: ControllerConnection) -> u8 {
    match c {
        ControllerConnection::Offline => 0,
        ControllerConnection::Tethered => 1,
        ControllerConnection::VexNet => 2,
    }
}

impl ControllerConnection {
    /// Decodes a raw connection code; codes above 2 are refused by
    /// `requires`.
    pub fn from_raw(raw: u8) -> (r: ControllerConnection)
        requires
            raw < 3,
        ensures
            connection_code(r) == raw,
    {
        if raw == 0 {
            ControllerConnection::Offline
        } else if raw == 1 {
            ControllerConnection::Tethered
        } else {
            ControllerConnection::VexNet
        }
    }

    /// The raw VEXos code of this connection.
    pub fn into_raw(self) -> (r: u8)
        ensures
            r == connection_code(self),
    {
        match self {
            ControllerConnection::Offline => 0,
            ControllerConnection::Tethered => 1,
            ControllerConnection::VexNet => 2,
        }
    }
}

/// Errors that can occur when using a controller.
#[derive(Debug, Clone, Copy, PartialEq, Eq, Structural)]
pub enum ControllerError {
    /// The controller is not connected.
    Offline,
    /// The text holds a NUL character.
    NonTerminatingNul,
    /// Competition control restricts access to the controller.
    CompetitionControl,
    /// The line or column is out of range.
    InvalidLine,
}

/// Checks that a controller is connected, given its raw connection code.
fn validate_connection(raw_connection: u8) -> (r: Result<(), ControllerError>)
    ensures
        r == if raw_connection == 0 {
            Err(ControllerError::Offline)
        } else {
            Ok(())
        },
{
    if raw_connection == 0 {
        return Err(ControllerError::Offline);
    }
    Ok(())
}

/// A request to show text on a controller's screen.
#[derive(Debug, Clone)]
pub struct ControllerTextWrite {
    /// The raw code of the controller.
    pub controller: u8,
    /// The line, starting from 1.
    pub line: u32,
    /// The column, starting from 1.
    pub col: u32,
    /// The text's bytes, without a terminator.
    pub text: Vec<u8>,
}

/// The outcome of showing text with bytes `text` at zero-based `line` and
/// `col` on controller `id`, whose raw connection code is `raw_connection`.
pub open spec fn text_outcome(
    id: ControllerId,
    raw_connection: u8,
    text: Seq<u8>,
    line: u8,
    col: u8,
    w: Result<ControllerTextWrite, ControllerError>,
) -> bool {
    if raw_connection == 0 {
        w == Err::<ControllerTextWrite, ControllerError>(ControllerError::Offline)
    } else if col >= 14 {
        w == Err::<ControllerTextWrite, ControllerError>(ControllerError::InvalidLine)
    } else if text.contains(0u8) {
        w == Err::<ControllerTextWrite, ControllerError>(ControllerError::NonTerminatingNul)
    } else {
        &&& w matches Ok(t)
        &&& t.controller == controller_code(id)
        &&& t.line == line + 1
        &&& t.col == col + 1
        &&& t.text@ == text
    }
}

/// The screen of a controller.
#[derive(Debug, PartialEq, Eq, Structural)]
pub struct ControllerScreen {
    id: ControllerId,
}

/// The number of characters that fit on a line of a controller screen.
pub const MAX_LINE_LENGTH: usize = 14usize;

/// The number of text lines on a controller screen.
pub const MAX_LINES: usize = 2usize;

impl ControllerScreen {
    /// The controller this screen belongs to.
    pub closed spec fn id_spec(&self) -> ControllerId {
        self.id
    }

    /// Shows `text` at zero-based `line` and `col`, given the controller's raw
    /// connection code; on success gives the write to perform.
    ///
    /// An offline controller gives [`ControllerError::Offline`], a column past
    /// the line gives [`ControllerError::InvalidLine`], and text holding a NUL
    /// character gives [`ControllerError::NonTerminatingNul`]. Line 255, whose
    /// one-based number does not fit a byte, is refused by `requires`.
    pub fn set_text(&mut self, text: &str, line: u8, col: u8, raw_connection: u8) -> (r: Result<
        ControllerTextWrite,
        ControllerError,
    >)
        requires
            line < 255,
        ensures
            final(self).id_spec() == old(self).id_spec(),
            text_outcome(old(self).id_spec(), raw_connection, text.spec_bytes(), line, col, r),
    {
        if let Err(e) = validate_connection(raw_connection) {
            return Err(e);
        }
        if col as usize >= MAX_LINE_LENGTH {
            return Err(ControllerError::InvalidLine);
        }
        let bytes = text.as_bytes();
        let mut out: Vec<u8> = Vec::new();
        let mut i: usize = 0;
        while i < bytes.len()
            invariant
                i <= bytes@.len(),
                bytes@ == text.spec_bytes(),
                raw_connection != 0,
                col < 14,
                out@ == bytes@.take(i as int),
                !out@.contains(0u8),
            decreases bytes@.len() - i,
        {
            if bytes[i] == 0 {
                assert(text.spec_bytes()[i as int] == 0u8);
                assert(text.spec_bytes().contains(0u8));
                return Err(ControllerError::NonTerminatingNul);
            }
            out.push(bytes[i]);
            i = i + 1;
            assert(out@ =~= bytes@.take(i as int));
        }
        assert(bytes@.take(i as int) =~= bytes@);
        Ok(
            ControllerTextWrite {
                controller: self.id.into_raw(),
                line: (line + 1) as u32,
                col: (col + 1) as u32,
                text: out,
            },
        )
    }

    /// Clears zero-based `line`, given the controller's raw connection code;
    /// on success gives the write to perform (an empty text at column 0).
    pub fn clear_line(&mut self, line: u8, raw_connection: u8) -> (r: Result<
        ControllerTextWrite,
        ControllerError,
    >)
        requires
            line < 255,
        ensures
            final(self).id_spec() == old(self).id_spec(),
            text_outcome(old(self).id_spec(), raw_connection, Seq::<u8>::empty(), line, 0, r),
    {
        let r = self.set_text("", line, 0, raw_connection);
        proof {
            reveal_strlit("");
        }
        assert("".spec_bytes() =~= Seq::<u8>::empty());
        r
    }

    /// Clears both lines, given the controller's raw connection code; on
    /// success gives the writes to perform, line 0 first.
    pub fn clear_screen(&mut self, raw_connection: u8) -> (r: Result<
        Vec<ControllerTextWrite>,
        ControllerError,
    >)
        ensures
            final(self).id_spec() == old(self).id_spec(),
            match r {
                Ok(ws) => raw_connection != 0 && ws@.len() == MAX_LINES && forall|i: int|
                    0 <= i < MAX_LINES ==> text_outcome(
                        old(self).id_spec(),
                        raw_connection,
                        Seq::<u8>::empty(),
                        i as u8,
                        0,
                        Ok::<ControllerTextWrite, ControllerError>(#[trigger] ws@[i]),
                    ),
                Err(e) => raw_connection == 0 && e == ControllerError::Offline,
            },
    {
        let mut writes: Vec<ControllerTextWrite> = Vec::new();
        let mut line: u8 = 0;
        while (line as usize) < MAX_LINES
            invariant
                line as usize <= MAX_LINES,
                self.id_spec() == old(self).id_spec(),
                writes@.len() == line,
                line > 0 ==> raw_connection != 0,
                forall|i: int|
                    0 <= i < line ==> text_outcome(
                        old(self).id_spec(),
                        raw_connection,
                        Seq::<u8>::empty(),
                        i as u8,
                        0,
                        Ok::<ControllerTextWrite, ControllerError>(#[trigger] writes@[i]),
                    ),
            decreases MAX_LINES - line as usize,
        {
            match self.clear_line(line, raw_connection) {
                Ok(w) => writes.push(w),
                Err(e) => {
                    return Err(e);
                },
            }
            line = line + 1;
        }
        Ok(writes)
    }
}

/// A V5 controller.
#[derive(Debug, PartialEq, Eq, Structural)]
pub struct Controller {
    id: ControllerId,
    prev_button_states: ButtonStates,
    /// The controller's screen.
    pub screen: ControllerScreen,
}

/// The joystick state for raw horizontal and vertical readings, each taken as
/// its low byte.
pub open spec fn stick(x: i32, y: i32) -> (i8, i8) {
    (x as i8, y as i8)
}

/// What [`Controller::state`] reports for readings `r`, given which buttons
/// were pressed at the previous read (in the order A, B, X, Y, up, down,
/// left, right, L1, L2, R1, R2).
pub open spec fn state_matches(s: ControllerState, prev: Seq<bool>, r: ControllerReadings) -> bool {
    &&& s.left_stick@ == stick(r.axis4, r.axis3)
    &&& s.right_stick@ == stick(r.axis1, r.axis2)
    &&& s.button_a@ == (prev[0], r.button_a != 0)
    &&& s.button_b@ == (prev[1], r.button_b != 0)
    &&& s.button_x@ == (prev[2], r.button_x != 0)
    &&& s.button_y@ == (prev[3], r.button_y != 0)
    &&& s.button_up@ == (prev[4], r.button_up != 0)
    &&& s.button_down@ == (prev[5], r.button_down != 0)
    &&& s.button_left@ == (prev[6], r.button_left != 0)
    &&& s.button_right@ == (prev[7], r.button_right != 0)
    &&& s.front_left_trigger@ == (prev[8], r.button_l1 != 0)
    &&& s.back_left_trigger@ == (prev[9], r.button_l2 != 0)
    &&& s.front_right_trigger@ == (prev[10], r.button_r1 != 0)
    &&& s.back_right_trigger@ == (prev[11], r.button_r2 != 0)
}

/// Which buttons readings `r` report pressed, in the order A, B, X, Y, up,
/// down, left, right, L1, L2, R1, R2.
pub open spec fn pressed_buttons(r: ControllerReadings) -> Seq<bool> {
    Seq::new(12, |i: int| reading_at(r, i) != 0)
}

/// The reading of the `i`-th button, in the order A, B, X, Y, up, down,
/// left, right, L1, L2, R1, R2.
pub open spec fn reading_at(r: ControllerReadings, i: int) -> i32 {
    if i == 0 {
        r.button_a
    } else if i == 1 {
        r.button_b
    } else if i == 2 {
        r.button_x
    } else if i == 3 {
        r.button_y
    } else if i == 4 {
        r.button_up
    } else if i == 5 {
        r.button_down
    } else if i == 6 {
        r.button_left
    } else if i == 7 {
        r.button_right
    } else if i == 8 {
        r.button_l1
    } else if i == 9 {
        r.button_l2
    } else if i == 10 {
        r.button_r1
    } else {
        r.button_r2
    }
}

/// The state of the `i`-th button in `s`, in the order A, B, X, Y, up, down,
/// left, right, L1, L2, R1, R2.
pub open spec fn button_view(s: ControllerState, i: int) -> (bool, bool) {
    if i == 0 {
        s.button_a@
    } else if i == 1 {
        s.button_b@
    } else if i == 2 {
        s.button_x@
    } else if i == 3 {
        s.button_y@
    } else if i == 4 {
        s.button_up@
    } else if i == 5 {
        s.button_down@
    } else if i == 6 {
        s.button_left@
    } else if i == 7 {
        s.button_right@
    } else if i == 8 {
        s.front_left_trigger@
    } else if i == 9 {
        s.back_left_trigger@
    } else if i == 10 {
        s.front_right_trigger@
    } else {
        s.back_right_trigger@
    }
}

/// A snapshot reports, for every button, whether it is pressed in the
/// readings it was made from; and a button pressed at one successful read
/// and still pressed at the next is not reported newly pressed at the next,
/// while one released in between is.
pub proof fn lemma_button_edges(
    s: ControllerState,
    first: ControllerReadings,
    second: ControllerReadings,
    i: int,
)
    requires
        0 <= i < 12,
        state_matches(s, pressed_buttons(first), second),
    ensures
        button_view(s, i).1 == (reading_at(second, i) != 0),
        button_view(s, i).0 == (reading_at(first, i) != 0),
        reading_at(first, i) != 0 ==> !(!button_view(s, i).0 && button_view(s, i).1),
        reading_at(first, i) == 0 && reading_at(second, i) != 0 ==> (!button_view(s, i).0
            && button_view(s, i).1),
{
    let p = pressed_buttons(first);
    assert(p[i] == (reading_at(first, i) != 0));
    if i == 0 {
        assert(button_view(s, 0) == (p[0], reading_at(second, 0) != 0));
    } else if i == 1 {
        assert(button_view(s, 1) == (p[1], reading_at(second, 1) != 0));
    } else if i == 2 {
        assert(button_view(s, 2) == (p[2], reading_at(second, 2) != 0));
    } else if i == 3 {
        assert(button_view(s, 3) == (p[3], reading_at(second, 3) != 0));
    } else if i == 4 {
        assert(button_view(s, 4) == (p[4], reading_at(second, 4) != 0));
    } else if i == 5 {
        assert(button_view(s, 5) == (p[5], reading_at(second, 5) != 0));
    } else if i == 6 {
        assert(button_view(s, 6) == (p[6], reading_at(second, 6) != 0));
    } else if i == 7 {
        assert(button_view(s, 7) == (p[7], reading_at(second, 7) != 0));
    } else if i == 8 {
        assert(button_view(s, 8) == (p[8], reading_at(second, 8) != 0));
    } else if i == 9 {
        assert(button_view(s, 9) == (p[9], reading_at(second, 9) != 0));
    } else if i == 10 {
        assert(button_view(s, 10) == (p[10], reading_at(second, 10) != 0));
    } else {
        assert(button_view(s, 11) == (p[11], reading_at(second, 11) != 0));
    }
}

/// Whether the `i`-th button is pressed in `p`, in the same order.
spec fn button_at(p: ButtonStates, i: int) -> bool {
    if i == 0 {
        p.a
    } else if i == 1 {
        p.b
    } else if i == 2 {
        p.x
    } else if i == 3 {
        p.y
    } else if i == 4 {
        p.up
    } else if i == 5 {
        p.down
    } else if i == 6 {
        p.left
    } else if i == 7 {
        p.right
    } else if i == 8 {
        p.front_left_trigger
    } else if i == 9 {
        p.back_left_trigger
    } else if i == 10 {
        p.front_right_trigger
    } else {
        p.back_right_trigger
    }
}

/// The buttons pressed in `p`, in the same order.
spec fn buttons_seq(p: ButtonStates) -> Seq<bool> {
    Seq::new(12, |i: int| button_at(p, i))
}

impl Controller {
    /// The controller's id.
    pub closed spec fn id_spec(&self) -> ControllerId {
        self.id
    }

    /// The controller whose screen this controller's screen is.
    pub closed spec fn screen_id_spec(&self) -> ControllerId {
        self.screen.id
    }

    /// Which buttons were pressed at the last successful read, in the order
    /// A, B, X, Y, up, down, left, right, L1, L2, R1, R2.
    pub closed spec fn prev_spec(&self) -> Seq<bool> {
        buttons_seq(self.prev_button_states)
    }

    /// Creates a handle to controller `id`, with no button seen pressed.
    ///
    /// Two handles to one controller must not be made; prefer taking it from
    /// the peripherals.
    pub fn new(id: ControllerId) -> (r: Controller)
        ensures
            r.id_spec() == id,
            r.screen_id_spec() == id,
            r.prev_spec() == Seq::new(12, |i: int| false),
    {
        let r = Controller {
            id,
            prev_button_states: ButtonStates {
                a: false,
                b: false,
                x: false,
                y: false,
                up: false,
                down: false,
                left: false,
                right: false,
                front_left_trigger: false,
                back_left_trigger: false,
                front_right_trigger: false,
                back_right_trigger: false,
            },
            screen: ControllerScreen { id },
        };
        assert(r.prev_spec() =~= Seq::new(12, |i: int| false));
        r
    }

    /// The controller's id.
    pub fn id(&self) -> (r: ControllerId)
        ensures
            r == self.id_spec(),
    {
        self.id
    }

    /// How the controller is connected, given the raw connection code VEXos
    /// reports (0 to 2; other codes are refused by `requires`).
    pub fn connection(&self, raw_connection: u8) -> (r: ControllerConnection)
        requires
            raw_connection < 3,
        ensures
            connection_code(r) == raw_connection,
    {
        ControllerConnection::from_raw(raw_connection)
    }

    /// The state of every button and joystick, given the competition mode, the
    /// controller's raw connection code and the values VEXos reports.
    ///
    /// Outside driver control this is [`ControllerError::CompetitionControl`];
    /// for an offline controller it is [`ControllerError::Offline`]. On
    /// success each button reports whether it was pressed at the previous
    /// successful read, and the buttons pressed now are remembered for the
    /// next one.
    #[verifier::rlimit(40)]
    pub fn state(&mut self, mode: CompetitionMode, raw_connection: u8, readings: ControllerReadings) -> (r:
        Result<ControllerState, ControllerError>)
        ensures
            final(self).id_spec() == old(self).id_spec(),
            final(self).screen_id_spec() == old(self).screen_id_spec(),
            match r {
                Ok(s) => mode == CompetitionMode::Driver && raw_connection != 0 && state_matches(
                    s,
                    old(self).prev_spec(),
                    readings,
                ) && final(self).prev_spec() == pressed_buttons(readings),
                Err(e) => final(self).prev_spec() == old(self).prev_spec() && e == if mode
                    != CompetitionMode::Driver {
                    ControllerError::CompetitionControl
                } else {
                    ControllerError::Offline
                } && (mode != CompetitionMode::Driver || raw_connection == 0),
            },
    {
        if mode != CompetitionMode::Driver {
            return Err(ControllerError::CompetitionControl);
        }
        if let Err(e) = validate_connection(raw_connection) {
            return Err(e);
        }
        let now = ButtonStates {
            a: readings.button_a != 0,
            b: readings.button_b != 0,
            x: readings.button_x != 0,
            y: readings.button_y != 0,
            up: readings.button_up != 0,
            down: readings.button_down != 0,
            left: readings.button_left != 0,
            right: readings.button_right != 0,
            front_left_trigger: readings.button_l1 != 0,
            back_left_trigger: readings.button_l2 != 0,
            front_right_trigger: readings.button_r1 != 0,
            back_right_trigger: readings.button_r2 != 0,
        };
        let prev = self.prev_button_states;
        self.prev_button_states = now;
        let s = Self::snapshot(now, prev, readings);
        assert(state_matches(s, buttons_seq(prev), readings));
        assert(buttons_seq(now) =~= pressed_buttons(readings));
        Ok(s)
    }

    /// The snapshot for buttons pressed now and at the previous read, with
    /// the joysticks read from `readings`.
    fn snapshot(now: ButtonStates, prev: ButtonStates, readings: ControllerReadings) -> (s: ControllerState)
        requires
            now.a == (readings.button_a != 0),
            now.b == (readings.button_b != 0),
            now.x == (readings.button_x != 0),
            now.y == (readings.button_y != 0),
            now.up == (readings.button_up != 0),
            now.down == (readings.button_down != 0),
            now.left == (readings.button_left != 0),
            now.right == (readings.button_right != 0),
            now.front_left_trigger == (readings.button_l1 != 0),
            now.back_left_trigger == (readings.button_l2 != 0),
            now.front_right_trigger == (readings.button_r1 != 0),
            now.back_right_trigger == (readings.button_r2 != 0),
        ensures
            s.left_stick@ == stick(readings.axis4, readings.axis3),
            s.button_a@ == (buttons_seq(prev)[0], readings.button_a != 0),
            s.button_b@ == (buttons_seq(prev)[1], readings.button_b != 0),
            s.right_stick@ == stick(readings.axis1, readings.axis2),
            s.button_x@ == (buttons_seq(prev)[2], readings.button_x != 0),
            s.button_y@ == (buttons_seq(prev)[3], readings.button_y != 0),
            s.button_up@ == (buttons_seq(prev)[4], readings.button_up != 0),
            s.button_down@ == (buttons_seq(prev)[5], readings.button_down != 0),
            s.button_left@ == (buttons_seq(prev)[6], readings.button_left != 0),
            s.button_right@ == (buttons_seq(prev)[7], readings.button_right != 0),
            s.front_left_trigger@ == (buttons_seq(prev)[8], readings.button_l1 != 0),
            s.back_left_trigger@ == (buttons_seq(prev)[9], readings.button_l2 != 0),
            s.front_right_trigger@ == (buttons_seq(prev)[10], readings.button_r1 != 0),
            s.back_right_trigger@ == (buttons_seq(prev)[11], readings.button_r2 != 0),
    {
        let ghost p = buttons_seq(prev);
        let s = ControllerState {
            left_stick: JoystickState { x_raw: readings.axis4 as i8, y_raw: readings.axis3 as i8 },
            right_stick: JoystickState { x_raw: readings.axis1 as i8, y_raw: readings.axis2 as i8 },
            button_a: ButtonState { is_pressed: now.a, prev_is_pressed: prev.a },
            button_b: ButtonState { is_pressed: now.b, prev_is_pressed: prev.b },
            button_x: ButtonState { is_pressed: now.x, prev_is_pressed: prev.x },
            button_y: ButtonState { is_pressed: now.y, prev_is_pressed: prev.y },
            button_up: ButtonState { is_pressed: now.up, prev_is_pressed: prev.up },
            button_down: ButtonState { is_pressed: now.down, prev_is_pressed: prev.down },
            button_left: ButtonState { is_pressed: now.left, prev_is_pressed: prev.left },
            button_right: ButtonState { is_pressed: now.right, prev_is_pressed: prev.right },
            front_left_trigger: ButtonState {
                is_pressed: now.front_left_trigger,
                prev_is_pressed: prev.front_left_trigger,
            },
            back_left_trigger: ButtonState {
                is_pressed: now.back_left_trigger,
                prev_is_pressed: prev.back_left_trigger,
            },
            front_right_trigger: ButtonState {
                is_pressed: now.front_right_trigger,
                prev_is_pressed: prev.front_right_trigger,
            },
            back_right_trigger: ButtonState {
                is_pressed: now.back_right_trigger,
                prev_is_pressed: prev.back_right_trigger,
            },
        };
        s
    }

    /// The controller's battery capacity, given its raw connection code and
    /// the value VEXos reports.
    pub fn battery_capacity(&self, raw_connection: u8, raw_value: i32) -> (r: Result<i32, ControllerError>)
        ensures
            r == if raw_connection == 0 {
                Err(ControllerError::Offline)
            } else {
                Ok(raw_value)
            },
    {
        match validate_connection(raw_connection) {
            Ok(()) => Ok(raw_value),
            Err(e) => Err(e),
        }
    }

    /// The controller's battery level, given its raw connection code and the
    /// value VEXos reports.
    pub fn battery_level(&self, raw_connection: u8, raw_value: i32) -> (r: Result<i32, ControllerError>)
        ensures
            r == if raw_connection == 0 {
                Err(ControllerError::Offline)
            } else {
                Ok(raw_value)
            },
    {
        match validate_connection(raw_connection) {
            Ok(()) => Ok(raw_value),
            Err(e) => Err(e),
        }
    }

    /// The controller's flags, given its raw connection code and the value
    /// VEXos reports.
    pub fn flags(&self, raw_connection: u8, raw_value: i32) -> (r: Result<i32, ControllerError>)
        ensures
            r == if raw_connection == 0 {
                Err(ControllerError::Offline)
            } else {
                Ok(raw_value)
            },
    {
        match validate_connection(raw_connection) {
            Ok(()) => Ok(raw_value),
            Err(e) => Err(e),
        }
    }

    /// Plays a rumble pattern (`.` short, `-` long, ` ` pause), given the
    /// controller's raw connection code; on success gives the write to
    /// perform, the pattern on line 3.
    pub fn rumble(&mut self, pattern: &str, raw_connection: u8) -> (r: Result<
        ControllerTextWrite,
        ControllerError,
    >)
        ensures
            final(self).id_spec() == old(self).id_spec(),
            final(self).prev_spec() == old(self).prev_spec(),
            final(self).screen_id_spec() == old(self).screen_id_spec(),
            text_outcome(old(self).screen_id_spec(), raw_connection, pattern.spec_bytes(), 3, 0, r),
    {
        self.screen.set_text(pattern, 3, 0, raw_connection)
    }
}

} // verus!
