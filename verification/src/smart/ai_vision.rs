//! AI Vision sensor: color codes, detection flags and the words written to
//! the sensor's mode register.

use super::{port_check, validate_port, PortError, SmartDevice, SmartDeviceType, SmartPort};
use crate::geometry::Point2;
use vstd::prelude::*;

verus! {

/// The mode-register bit that resets the sensor.
pub const RESET_FLAG: u32 = 0x4000_0000u32;

/// The mode-register bit that sets the AprilTag family.
pub const TAG_SET_FLAG: u32 = 0x2000_0000u32;

/// The mode-register bit that sets the detection flags.
pub const MODE_SET_FLAG: u32 = 0x0200_0000u32;

/// The mode-register bit that enables a test mode.
pub const TEST_MODE_FLAG: u32 = 0x0400_0000u32;

/// The mode-register bit that starts automatic white balance.
pub const AWB_START_FLAG: u32 = 0x0800_0000u32;

/// The AprilTag family the sensor looks for.
#[derive(Debug, Clone, Copy, PartialEq, Eq, Default, Structural)]
pub enum AprilTagFamily {
    /// Circle21h7.
    #[default]
    Circle21h7,
    /// Tag16h5.
    Tag16h5,
    /// Tag25h9.
    Tag25h9,
    /// Tag36h11.
    Tag36h11,
}

/// The raw code of an AprilTag family.
pub open spec fn family_code(f: AprilTagFamily) -> u8 {
    match f {
        AprilTagFamily::Circle21h7 => 0,
        AprilTagFamily::Tag16h5 => 1,
        AprilTagFamily::Tag25h9 => 2,
        AprilTagFamily::Tag36h11 => 3,
    }
}

impl AprilTagFamily {
    /// The raw code of this family.
    pub fn into_raw(self) -> (r: u8)
        ensures
            r == family_code(self),
    {
        match self {
            AprilTagFamily::Circle21h7 => 0,
            AprilTagFamily::Tag16h5 => 1,
            AprilTagFamily::Tag25h9 => 2,
            AprilTagFamily::Tag36h11 => 3,
        }
    }
}

/// Every bit that names an AI Vision flag.
pub const ALL_FLAGS: u8 = 0b1011_0111u8;

/// Flag: AprilTag detection is off.
pub const DISABLE_APRILTAG: u8 = 0b0000_0001u8;

/// Flag: color detection is off.
pub const DISABLE_COLOR: u8 = 0b0000_0010u8;

/// Flag: model detection is off.
pub const DISABLE_MODEL: u8 = 0b0000_0100u8;

/// Flag: colors are merged.
pub const COLOR_MERGE: u8 = 0b0001_0000u8;

/// Flag: the status overlay is off.
pub const DISABLE_STATUS_OVERLAY: u8 = 0b0010_0000u8;

/// Flag: the USB overlay is off.
pub const DISABLE_USB_OVERLAY: u8 = 0b1000_0000u8;

/// Detection mode bit: AprilTags.
pub const MODE_APRILTAG: u8 = 0b0000_0001u8;

/// Detection mode bit: colors.
pub const MODE_COLOR: u8 = 0b0000_0010u8;

/// Detection mode bit: models.
pub const MODE_MODEL: u8 = 0b0000_0100u8;

/// Detection mode bit: merged colors.
pub const MODE_COLOR_MERGE: u8 = 0b0001_0000u8;

/// The flag register of an AI Vision sensor.
#[derive(Debug, Clone, Copy, PartialEq, Eq, Structural)]
pub struct AiVisionFlags {
    bits: u8,
}

/// A set of detection modes to enable.
#[derive(Debug, Clone, Copy, PartialEq, Eq, Structural)]
pub struct AiVisionDetectionMode {
    bits: u8,
}

impl View for AiVisionFlags {
    type V = u8;

    /// Flags are seen as their bits.
    closed spec fn view(&self) -> u8 {
        self.bits
    }
}

impl View for AiVisionDetectionMode {
    type V = u8;

    /// A detection mode is seen as its bits.
    closed spec fn view(&self) -> u8 {
        self.bits
    }
}

/// The flag bits that enable exactly the detection modes `mode`: the mode's
/// bits, with color merging flipped, are read as flags (or the default flags
/// when they name unknown bits); detection flags are the complement of that,
/// and both overlay flags are cleared.
pub open spec fn flags_for_mode(mode: u8) -> u8 {
    let v = mode ^ MODE_COLOR_MERGE;
    let x = if v & !ALL_FLAGS == 0 { v } else { DISABLE_USB_OVERLAY };
    !x & (ALL_FLAGS & !(DISABLE_STATUS_OVERLAY | DISABLE_USB_OVERLAY))
}

impl AiVisionFlags {
    /// Keeps every bit of a raw flag byte.
    pub fn from_bits_retain(bits: u8) -> (r: AiVisionFlags)
        ensures
            r@ == bits,
    {
        AiVisionFlags { bits }
    }

    /// The raw flag byte.
    pub fn bits(&self) -> (r: u8)
        ensures
            r == self@,
    {
        self.bits
    }

    /// The flags that enable exactly the detection modes in `mode`.
    pub fn from_mode(mode: AiVisionDetectionMode) -> (r: AiVisionFlags)
        ensures
            r@ == flags_for_mode(mode@),
    {
        let v = mode.bits ^ MODE_COLOR_MERGE;
        let x = if v & !ALL_FLAGS == 0 {
            v
        } else {
            DISABLE_USB_OVERLAY
        };
        AiVisionFlags { bits: !x & (ALL_FLAGS & !(DISABLE_STATUS_OVERLAY | DISABLE_USB_OVERLAY)) }
    }
}

impl Default for AiVisionFlags {
    /// By default only the USB overlay is off.
    fn default() -> (r: AiVisionFlags)
        ensures
            r@ == DISABLE_USB_OVERLAY,
    {
        AiVisionFlags { bits: DISABLE_USB_OVERLAY }
    }
}

impl AiVisionDetectionMode {
    /// Keeps every bit of a raw mode byte.
    pub fn from_bits_retain(bits: u8) -> (r: AiVisionDetectionMode)
        ensures
            r@ == bits,
    {
        AiVisionDetectionMode { bits }
    }

    /// The raw mode byte.
    pub fn bits(&self) -> (r: u8)
        ensures
            r == self@,
    {
        self.bits
    }
}

/// A mode made of known mode bits gives the flags that disable exactly the
/// detections it leaves out, merge colors exactly when it asks to, and clear
/// both overlay flags.
pub proof fn lemma_flags_for_mode(mode: u8)
    requires
        mode & !(MODE_APRILTAG | MODE_COLOR | MODE_MODEL | MODE_COLOR_MERGE) == 0,
    ensures
        (flags_for_mode(mode) & DISABLE_APRILTAG != 0) == (mode & MODE_APRILTAG == 0),
        (flags_for_mode(mode) & DISABLE_COLOR != 0) == (mode & MODE_COLOR == 0),
        (flags_for_mode(mode) & DISABLE_MODEL != 0) == (mode & MODE_MODEL == 0),
        (flags_for_mode(mode) & COLOR_MERGE != 0) == (mode & MODE_COLOR_MERGE != 0),
        flags_for_mode(mode) & (DISABLE_STATUS_OVERLAY | DISABLE_USB_OVERLAY) == 0,
{
    let v = mode ^ 0b0001_0000u8;
    let f = flags_for_mode(mode);
    assert(v & !0b1011_0111u8 == 0) by (bit_vector)
        requires
            v == mode ^ 0b0001_0000u8,
            mode & !(1u8 | 2u8 | 4u8 | 16u8) == 0,
    ;
    assert(f == !v & (0b1011_0111u8 & !(0b0010_0000u8 | 0b1000_0000u8)));
    assert((f & 1u8 != 0) == (mode & 1u8 == 0) && (f & 2u8 != 0) == (mode & 2u8 == 0) && (f & 4u8
        != 0) == (mode & 4u8 == 0) && (f & 16u8 != 0) == (mode & 16u8 != 0) && f & (32u8 | 128u8)
        == 0) by (bit_vector)
        requires
            f == !v & (0b1011_0111u8 & !(0b0010_0000u8 | 0b1000_0000u8)),
            v == mode ^ 0b0001_0000u8,
    ;
}

/// The ids of the colors present in a sequence of optional color ids, in
/// order.
pub open spec fn present_ids(s: Seq<Option<u8>>) -> Seq<u8>
    decreases s.len(),
{
    if s.len() == 0 {
        Seq::empty()
    } else {
        let rest = present_ids(s.drop_last());
        match s.last() {
            Some(id) => rest.push(id),
            None => rest,
        }
    }
}

proof fn lemma_present_ids_push(s: Seq<Option<u8>>, o: Option<u8>)
    ensures
        present_ids(s.push(o)) == match o {
            Some(id) => present_ids(s).push(id),
            None => present_ids(s),
        },
{
    assert(s.push(o).drop_last() =~= s);
}

proof fn lemma_present_ids_len(s: Seq<Option<u8>>)
    ensures
        present_ids(s).len() <= s.len(),
    decreases s.len(),
{
    if s.len() > 0 {
        lemma_present_ids_len(s.drop_last());
    }
}

/// A color code: up to seven color ids detected together.
#[derive(Debug, Clone, Copy, PartialEq, Eq)]
pub struct AiVisionColorCode {
    ids: [Option<u8>; 7],
}

impl View for AiVisionColorCode {
    type V = Seq<Option<u8>>;

    /// A color code is seen as its seven optional color ids.
    closed spec fn view(&self) -> Seq<Option<u8>> {
        self.ids@
    }
}

impl AiVisionColorCode {
    /// Creates a color code from seven optional color ids.
    pub fn new(code: [Option<u8>; 7]) -> (r: AiVisionColorCode)
        ensures
            r@ == code@,
    {
        AiVisionColorCode { ids: code }
    }

    /// The ids of the colors in this code, in order, absent ones skipped.
    pub fn colors(&self) -> (r: Vec<u8>)
        ensures
            r@ == present_ids(self@),
    {
        let mut out: Vec<u8> = Vec::new();
        let mut i: usize = 0;
        while i < 7
            invariant
                i <= 7,
                self@.len() == 7,
                out@ == present_ids(self@.take(i as int)),
            decreases 7 - i,
        {
            proof {
                lemma_present_ids_push(self@.take(i as int), self@[i as int]);
                assert(self@.take(i as int).push(self@[i as int]) =~= self@.take(i + 1));
            }
            if let Some(id) = self.ids[i] {
                out.push(id);
            }
            i = i + 1;
        }
        assert(self@.take(7) =~= self@);
        out
    }
}

/// The color code holding the seven optional color ids `ids`.
pub closed spec fn code_from(ids: [Option<u8>; 7]) -> AiVisionColorCode {
    AiVisionColorCode { ids }
}

/// A color code made from seven optional ids is seen as those ids.
pub broadcast proof fn lemma_code_from(ids: [Option<u8>; 7])
    ensures
        #[trigger] code_from(ids)@ == ids@,
{
}

impl From<(u8,)> for AiVisionColorCode {
    /// A code of one color, in order.
    fn from(value: (u8,)) -> (r: AiVisionColorCode) {
        AiVisionColorCode { ids: [Some(value.0), None, None, None, None, None, None] }
    }
}

impl vstd::std_specs::convert::FromSpecImpl<(u8,)> for AiVisionColorCode {
    open spec fn obeys_from_spec() -> bool {
        true
    }

    open spec fn from_spec(value: (u8,)) -> AiVisionColorCode {
        code_from([Some(value.0), None, None, None, None, None, None])
    }
}

impl From<(u8, u8)> for AiVisionColorCode {
    /// A code of two colors, in order.
    fn from(value: (u8, u8)) -> (r: AiVisionColorCode) {
        AiVisionColorCode { ids: [Some(value.0), Some(value.1), None, None, None, None, None] }
    }
}

impl vstd::std_specs::convert::FromSpecImpl<(u8, u8)> for AiVisionColorCode {
    open spec fn obeys_from_spec() -> bool {
        true
    }

    open spec fn from_spec(value: (u8, u8)) -> AiVisionColorCode {
        code_from([Some(value.0), Some(value.1), None, None, None, None, None])
    }
}

impl From<(u8, u8, u8)> for AiVisionColorCode {
    /// A code of three colors, in order.
    fn from(value: (u8, u8, u8)) -> (r: AiVisionColorCode) {
        AiVisionColorCode { ids: [Some(value.0), Some(value.1), Some(value.2), None, None, None, None] }
    }
}

impl vstd::std_specs::convert::FromSpecImpl<(u8, u8, u8)> for AiVisionColorCode {
    open spec fn obeys_from_spec() -> bool {
        true
    }

    open spec fn from_spec(value: (u8, u8, u8)) -> AiVisionColorCode {
        code_from([Some(value.0), Some(value.1), Some(value.2), None, None, None, None])
    }
}

impl From<(u8, u8, u8, u8)> for AiVisionColorCode {
    /// A code of four colors, in order.
    fn from(value: (u8, u8, u8, u8)) -> (r: AiVisionColorCode) {
        AiVisionColorCode { ids: [Some(value.0), Some(value.1), Some(value.2), Some(value.3), None, None, None] }
    }
}

impl vstd::std_specs::convert::FromSpecImpl<(u8, u8, u8, u8)> for AiVisionColorCode {
    open spec fn obeys_from_spec() -> bool {
        true
    }

    open spec fn from_spec(value: (u8, u8, u8, u8)) -> AiVisionColorCode {
        code_from([Some(value.0), Some(value.1), Some(value.2), Some(value.3), None, None, None])
    }
}

impl From<(u8, u8, u8, u8, u8)> for AiVisionColorCode {
    /// A code of five colors, in order.
    fn from(value: (u8, u8, u8, u8, u8)) -> (r: AiVisionColorCode) {
        AiVisionColorCode { ids: [Some(value.0), Some(value.1), Some(value.2), Some(value.3), Some(value.4), None, None] }
    }
}

impl vstd::std_specs::convert::FromSpecImpl<(u8, u8, u8, u8, u8)> for AiVisionColorCode {
    open spec fn obeys_from_spec() -> bool {
        true
    }

    open spec fn from_spec(value: (u8, u8, u8, u8, u8)) -> AiVisionColorCode {
        code_from([Some(value.0), Some(value.1), Some(value.2), Some(value.3), Some(value.4), None, None])
    }
}

impl From<(u8, u8, u8, u8, u8, u8)> for AiVisionColorCode {
    /// A code of six colors, in order.
    fn from(value: (u8, u8, u8, u8, u8, u8)) -> (r: AiVisionColorCode) {
        AiVisionColorCode { ids: [Some(value.0), Some(value.1), Some(value.2), Some(value.3), Some(value.4), Some(value.5), None] }
    }
}

impl vstd::std_specs::convert::FromSpecImpl<(u8, u8, u8, u8, u8, u8)> for AiVisionColorCode {
    open spec fn obeys_from_spec() -> bool {
        true
    }

    open spec fn from_spec(value: (u8, u8, u8, u8, u8, u8)) -> AiVisionColorCode {
        code_from([Some(value.0), Some(value.1), Some(value.2), Some(value.3), Some(value.4), Some(value.5), None])
    }
}

impl From<(u8, u8, u8, u8, u8, u8, u8)> for AiVisionColorCode {
    /// A code of seven colors, in order.
    fn from(value: (u8, u8, u8, u8, u8, u8, u8)) -> (r: AiVisionColorCode) {
        AiVisionColorCode { ids: [Some(value.0), Some(value.1), Some(value.2), Some(value.3), Some(value.4), Some(value.5), Some(value.6)] }
    }
}

impl vstd::std_specs::convert::FromSpecImpl<(u8, u8, u8, u8, u8, u8, u8)> for AiVisionColorCode {
    open spec fn obeys_from_spec() -> bool {
        true
    }

    open spec fn from_spec(value: (u8, u8, u8, u8, u8, u8, u8)) -> AiVisionColorCode {
        code_from([Some(value.0), Some(value.1), Some(value.2), Some(value.3), Some(value.4), Some(value.5), Some(value.6)])
    }
}

impl From<[Option<u8>; 1]> for AiVisionColorCode {
    /// A code of the first 1 optional color id; the slots after are empty.
    fn from(value: [Option<u8>; 1]) -> (r: AiVisionColorCode) {
        AiVisionColorCode { ids: [value[0], None, None, None, None, None, None] }
    }
}

impl vstd::std_specs::convert::FromSpecImpl<[Option<u8>; 1]> for AiVisionColorCode {
    open spec fn obeys_from_spec() -> bool {
        true
    }

    open spec fn from_spec(value: [Option<u8>; 1]) -> AiVisionColorCode {
        code_from([value[0], None, None, None, None, None, None])
    }
}

impl From<[Option<u8>; 2]> for AiVisionColorCode {
    /// A code of the first 2 optional color ids; the slots after are empty.
    fn from(value: [Option<u8>; 2]) -> (r: AiVisionColorCode) {
        AiVisionColorCode { ids: [value[0], value[1], None, None, None, None, None] }
    }
}

impl vstd::std_specs::convert::FromSpecImpl<[Option<u8>; 2]> for AiVisionColorCode {
    open spec fn obeys_from_spec() -> bool {
        true
    }

    open spec fn from_spec(value: [Option<u8>; 2]) -> AiVisionColorCode {
        code_from([value[0], value[1], None, None, None, None, None])
    }
}

impl From<[Option<u8>; 3]> for AiVisionColorCode {
    /// A code of the first 3 optional color ids; the slots after are empty.
    fn from(value: [Option<u8>; 3]) -> (r: AiVisionColorCode) {
        AiVisionColorCode { ids: [value[0], value[1], value[2], None, None, None, None] }
    }
}

impl vstd::std_specs::convert::FromSpecImpl<[Option<u8>; 3]> for AiVisionColorCode {
    open spec fn obeys_from_spec() -> bool {
        true
    }

    open spec fn from_spec(value: [Option<u8>; 3]) -> AiVisionColorCode {
        code_from([value[0], value[1], value[2], None, None, None, None])
    }
}

impl From<[Option<u8>; 4]> for AiVisionColorCode {
    /// A code of the first 4 optional color ids; the slots after are empty.
    fn from(value: [Option<u8>; 4]) -> (r: AiVisionColorCode) {
        AiVisionColorCode { ids: [value[0], value[1], value[2], value[3], None, None, None] }
    }
}

impl vstd::std_specs::convert::FromSpecImpl<[Option<u8>; 4]> for AiVisionColorCode {
    open spec fn obeys_from_spec() -> bool {
        true
    }

    open spec fn from_spec(value: [Option<u8>; 4]) -> AiVisionColorCode {
        code_from([value[0], value[1], value[2], value[3], None, None, None])
    }
}

impl From<[Option<u8>; 5]> for AiVisionColorCode {
    /// A code of the first 5 optional color ids; the slots after are empty.
    fn from(value: [Option<u8>; 5]) -> (r: AiVisionColorCode) {
        AiVisionColorCode { ids: [value[0], value[1], value[2], value[3], value[4], None, None] }
    }
}

impl vstd::std_specs::convert::FromSpecImpl<[Option<u8>; 5]> for AiVisionColorCode {
    open spec fn obeys_from_spec() -> bool {
        true
    }

    open spec fn from_spec(value: [Option<u8>; 5]) -> AiVisionColorCode {
        code_from([value[0], value[1], value[2], value[3], value[4], None, None])
    }
}

impl From<[Option<u8>; 6]> for AiVisionColorCode {
    /// A code of the first 6 optional color ids; the slots after are empty.
    fn from(value: [Option<u8>; 6]) -> (r: AiVisionColorCode) {
        AiVisionColorCode { ids: [value[0], value[1], value[2], value[3], value[4], value[5], None] }
    }
}

impl vstd::std_specs::convert::FromSpecImpl<[Option<u8>; 6]> for AiVisionColorCode {
    open spec fn obeys_from_spec() -> bool {
        true
    }

    open spec fn from_spec(value: [Option<u8>; 6]) -> AiVisionColorCode {
        code_from([value[0], value[1], value[2], value[3], value[4], value[5], None])
    }
}

impl From<[Option<u8>; 7]> for AiVisionColorCode {
    /// A code of the first 7 optional color ids; the slots after are empty.
    fn from(value: [Option<u8>; 7]) -> (r: AiVisionColorCode) {
        AiVisionColorCode { ids: [value[0], value[1], value[2], value[3], value[4], value[5], value[6]] }
    }
}

impl vstd::std_specs::convert::FromSpecImpl<[Option<u8>; 7]> for AiVisionColorCode {
    open spec fn obeys_from_spec() -> bool {
        true
    }

    open spec fn from_spec(value: [Option<u8>; 7]) -> AiVisionColorCode {
        code_from([value[0], value[1], value[2], value[3], value[4], value[5], value[6]])
    }
}

impl From<[u8; 1]> for AiVisionColorCode {
    /// A code of one color, in order.
    fn from(value: [u8; 1]) -> (r: AiVisionColorCode) {
        AiVisionColorCode { ids: [Some(value[0]), None, None, None, None, None, None] }
    }
}

impl vstd::std_specs::convert::FromSpecImpl<[u8; 1]> for AiVisionColorCode {
    open spec fn obeys_from_spec() -> bool {
        true
    }

    open spec fn from_spec(value: [u8; 1]) -> AiVisionColorCode {
        code_from([Some(value[0]), None, None, None, None, None, None])
    }
}

impl From<[u8; 2]> for AiVisionColorCode {
    /// A code of two colors, in order.
    fn from(value: [u8; 2]) -> (r: AiVisionColorCode) {
        AiVisionColorCode { ids: [Some(value[0]), Some(value[1]), None, None, None, None, None] }
    }
}

impl vstd::std_specs::convert::FromSpecImpl<[u8; 2]> for AiVisionColorCode {
    open spec fn obeys_from_spec() -> bool {
        true
    }

    open spec fn from_spec(value: [u8; 2]) -> AiVisionColorCode {
        code_from([Some(value[0]), Some(value[1]), None, None, None, None, None])
    }
}

impl From<[u8; 3]> for AiVisionColorCode {
    /// A code of three colors, in order.
    fn from(value: [u8; 3]) -> (r: AiVisionColorCode) {
        AiVisionColorCode { ids: [Some(value[0]), Some(value[1]), Some(value[2]), None, None, None, None] }
    }
}

impl vstd::std_specs::convert::FromSpecImpl<[u8; 3]> for AiVisionColorCode {
    open spec fn obeys_from_spec() -> bool {
        true
    }

    open spec fn from_spec(value: [u8; 3]) -> AiVisionColorCode {
        code_from([Some(value[0]), Some(value[1]), Some(value[2]), None, None, None, None])
    }
}

impl From<[u8; 4]> for AiVisionColorCode {
    /// A code of four colors, in order.
    fn from(value: [u8; 4]) -> (r: AiVisionColorCode) {
        AiVisionColorCode { ids: [Some(value[0]), Some(value[1]), Some(value[2]), Some(value[3]), None, None, None] }
    }
}

impl vstd::std_specs::convert::FromSpecImpl<[u8; 4]> for AiVisionColorCode {
    open spec fn obeys_from_spec() -> bool {
        true
    }

    open spec fn from_spec(value: [u8; 4]) -> AiVisionColorCode {
        code_from([Some(value[0]), Some(value[1]), Some(value[2]), Some(value[3]), None, None, None])
    }
}

impl From<[u8; 5]> for AiVisionColorCode {
    /// A code of five colors, in order.
    fn from(value: [u8; 5]) -> (r: AiVisionColorCode) {
        AiVisionColorCode { ids: [Some(value[0]), Some(value[1]), Some(value[2]), Some(value[3]), Some(value[4]), None, None] }
    }
}

impl vstd::std_specs::convert::FromSpecImpl<[u8; 5]> for AiVisionColorCode {
    open spec fn obeys_from_spec() -> bool {
        true
    }

    open spec fn from_spec(value: [u8; 5]) -> AiVisionColorCode {
        code_from([Some(value[0]), Some(value[1]), Some(value[2]), Some(value[3]), Some(value[4]), None, None])
    }
}

impl From<[u8; 6]> for AiVisionColorCode {
    /// A code of six colors, in order.
    fn from(value: [u8; 6]) -> (r: AiVisionColorCode) {
        AiVisionColorCode { ids: [Some(value[0]), Some(value[1]), Some(value[2]), Some(value[3]), Some(value[4]), Some(value[5]), None] }
    }
}

impl vstd::std_specs::convert::FromSpecImpl<[u8; 6]> for AiVisionColorCode {
    open spec fn obeys_from_spec() -> bool {
        true
    }

    open spec fn from_spec(value: [u8; 6]) -> AiVisionColorCode {
        code_from([Some(value[0]), Some(value[1]), Some(value[2]), Some(value[3]), Some(value[4]), Some(value[5]), None])
    }
}

impl From<[u8; 7]> for AiVisionColorCode {
    /// A code of seven colors, in order.
    fn from(value: [u8; 7]) -> (r: AiVisionColorCode) {
        AiVisionColorCode { ids: [Some(value[0]), Some(value[1]), Some(value[2]), Some(value[3]), Some(value[4]), Some(value[5]), Some(value[6])] }
    }
}

impl vstd::std_specs::convert::FromSpecImpl<[u8; 7]> for AiVisionColorCode {
    open spec fn obeys_from_spec() -> bool {
        true
    }

    open spec fn from_spec(value: [u8; 7]) -> AiVisionColorCode {
        code_from([Some(value[0]), Some(value[1]), Some(value[2]), Some(value[3]), Some(value[4]), Some(value[5]), Some(value[6])])
    }
}

/// A color code record as VEXos stores it: the code's id, its number of
/// colors, and seven color slots.
#[derive(Debug, Clone, Copy, PartialEq, Eq)]
pub struct AiVisionCodeRecord {
    /// The code's id, 1 to 8.
    pub id: u8,
    /// The number of colors in the code.
    pub len: u8,
    /// The color ids, unused slots zero.
    pub colors: [i16; 7],
}

/// Whether `r` is the record that stores code `code` under `id`: the present
/// color ids first, then zeros.
pub open spec fn code_record_is(r: AiVisionCodeRecord, id: u8, code: Seq<Option<u8>>) -> bool {
    let ids = present_ids(code);
    &&& r.id == id
    &&& r.len == ids.len()
    &&& r.colors@.len() == 7
    &&& forall|i: int|
        0 <= i < 7 ==> #[trigger] r.colors@[i] == if i < ids.len() {
            ids[i] as i16
        } else {
            0i16
        }
}

/// The color ids a record holds: its first `len` slots as bytes, the rest
/// absent.
pub open spec fn record_code(r: AiVisionCodeRecord) -> Seq<Option<u8>> {
    Seq::new(7, |i: int| if i < r.len { Some(r.colors@[i] as u8) } else { None })
}

/// Whether every color id present in `code` is between 1 and 7.
pub open spec fn valid_color_ids(code: Seq<Option<u8>>) -> bool {
    forall|i: int| 0 <= i < code.len() ==> (#[trigger] code[i] matches Some(c) ==> 1 <= c <= 7)
}

proof fn lemma_present_ids_valid(s: Seq<Option<u8>>)
    requires
        valid_color_ids(s),
    ensures
        forall|j: int| 0 <= j < present_ids(s).len() ==> 1 <= #[trigger] present_ids(s)[j] <= 7,
    decreases s.len(),
{
    if s.len() > 0 {
        let t = s.drop_last();
        assert(valid_color_ids(t)) by {
            assert forall|i: int| 0 <= i < t.len() implies (#[trigger] t[i] matches Some(c) ==> 1
                <= c <= 7) by {
                assert(t[i] == s[i]);
            }
        }
        lemma_present_ids_valid(t);
        let last = s[s.len() - 1];
        assert(last matches Some(c) ==> 1 <= c <= 7);
        assert(s.last() == last);
        match last {
            Some(id) => {
                assert(present_ids(s) == present_ids(t).push(id));
                assert forall|j: int| 0 <= j < present_ids(s).len() implies 1 <= #[trigger] present_ids(
                    s,
                )[j] <= 7 by {
                    if j < present_ids(t).len() {
                        assert(present_ids(s)[j] == present_ids(t)[j]);
                    }
                }
            },
            None => {
                assert(present_ids(s) == present_ids(t));
            },
        }
    }
}

/// The optional ids that hold the ids `a` in their first slots and nothing
/// in the rest of `m` slots.
pub open spec fn padded_ids(a: Seq<u8>, m: nat) -> Seq<Option<u8>> {
    Seq::new(m, |i: int| if i < a.len() { Some(a[i]) } else { None })
}

proof fn lemma_present_ids_padded(a: Seq<u8>, m: nat)
    requires
        a.len() <= m,
    ensures
        present_ids(padded_ids(a, m)) == a,
    decreases m,
{
    let s = padded_ids(a, m);
    if m == 0 {
        assert(a =~= Seq::<u8>::empty());
    } else if a.len() == m {
        let b = a.drop_last();
        lemma_present_ids_padded(b, (m - 1) as nat);
        assert(s.drop_last() =~= padded_ids(b, (m - 1) as nat));
        assert(s.last() == Some(a.last()));
        assert(b.push(a.last()) =~= a);
    } else {
        lemma_present_ids_padded(a, (m - 1) as nat);
        assert(s.drop_last() =~= padded_ids(a, (m - 1) as nat));
    }
}

/// Reading back a stored color code: when VEXos hands back the record that
/// [`AiVisionSensor::set_color_code`] wrote, [`AiVisionSensor::color_code`]
/// gives a code with the same colors, in the same order.
pub proof fn lemma_color_code_roundtrip(id: u8, code: Seq<Option<u8>>, rec: AiVisionCodeRecord)
    requires
        code.len() == 7,
        valid_color_ids(code),
        code_record_is(rec, id, code),
    ensures
        present_ids(record_code(rec)) == present_ids(code),
{
    let ids = present_ids(code);
    lemma_present_ids_len(code);
    lemma_present_ids_valid(code);
    assert forall|i: int| 0 <= i < ids.len() implies (rec.colors@[i] as u8) == #[trigger] ids[i] by {
        let v = ids[i];
        assert(rec.colors@[i] == v as i16);
        assert(((v as i16) as u8) == v) by (bit_vector)
            requires
                1 <= v <= 7,
        ;
    }
    assert(record_code(rec) =~= padded_ids(ids, 7));
    lemma_present_ids_padded(ids, 7);
}

/// The kind of object VEXos reports, decoded from its type code.
#[derive(Debug, Clone, Copy, PartialEq, Eq, Structural)]
pub enum ObjectType {
    /// A code not listed below.
    Unknown,
    /// A color blob (code 1).
    Color,
    /// A color code (code 2).
    Code,
    /// An object found by a model (code 4).
    Model,
    /// An AprilTag (code 8).
    AprilTag,
    /// Every kind at once (code 63).
    All,
}

/// The object kind that type code `v` stands for.
pub open spec fn object_type_of(v: u8) -> ObjectType {
    if v == 1 {
        ObjectType::Color
    } else if v == 2 {
        ObjectType::Code
    } else if v == 4 {
        ObjectType::Model
    } else if v == 8 {
        ObjectType::AprilTag
    } else if v == 63 {
        ObjectType::All
    } else {
        ObjectType::Unknown
    }
}

impl From<u8> for ObjectType {
    /// Decodes an object type code.
    fn from(value: u8) -> (r: ObjectType) {
        if value == 1 {
            ObjectType::Color
        } else if value == 2 {
            ObjectType::Code
        } else if value == 4 {
            ObjectType::Model
        } else if value == 8 {
            ObjectType::AprilTag
        } else if value == 63 {
            ObjectType::All
        } else {
            ObjectType::Unknown
        }
    }
}

impl vstd::std_specs::convert::FromSpecImpl<u8> for ObjectType {
    open spec fn obeys_from_spec() -> bool {
        true
    }

    open spec fn from_spec(v: u8) -> ObjectType {
        object_type_of(v)
    }
}

/// An object the sensor detected; what it carries depends on how it was
/// detected.
#[derive(Debug, Clone, PartialEq)]
pub enum AiVisionObject {
    /// A blob of one color signature.
    Color {
        /// The signature's id.
        id: u8,
        /// The top left corner.
        position: Point2<u16>,
        /// The width.
        width: u16,
        /// The height.
        height: u16,
    },
    /// A group of colors matching a color code.
    Code {
        /// The code's id.
        id: u8,
        /// The top left corner.
        position: Point2<u16>,
        /// The width.
        width: u16,
        /// The height.
        height: u16,
        /// The angle of the code's colors, in tenths of a degree; not always
        /// reliable.
        angle: u16,
    },
    /// An AprilTag, by its four corners.
    AprilTag {
        /// The tag's id.
        id: u8,
        /// The top left corner.
        top_left: Point2<i16>,
        /// The top right corner.
        top_right: Point2<i16>,
        /// The bottom right corner.
        bottom_right: Point2<i16>,
        /// The bottom left corner.
        bottom_left: Point2<i16>,
    },
    /// An object found by an onboard model.
    Model {
        /// The object's id.
        id: u8,
        /// The name of the class the model put the object in.
        classification: String,
        /// The top left corner.
        position: Point2<u16>,
        /// The width.
        width: u16,
        /// The height.
        height: u16,
        /// The model's confidence.
        confidence: u16,
    },
}

/// An object as VEXos reports it: its id, its type code, and the eight
/// 16-bit words of its data. Color blobs, color codes and model objects use
/// the first five words (left, top, width, height, then the code's angle or
/// the model's score); AprilTags use all eight as signed corner coordinates
/// (x0, y0, x1, y1, x2, y2, x3, y3).
#[derive(Debug, Clone, Copy, PartialEq, Eq)]
pub struct AiVisionObjectRecord {
    /// The object's id.
    pub id: u8,
    /// The object's type code.
    pub kind: u8,
    /// The object's data words.
    pub data: [u16; 8],
}

/// Errors of the AI Vision sensor.
#[derive(Debug, Clone, Copy, PartialEq, Eq, Structural)]
pub enum AiVisionError {
    /// VEXos reported an object of no known kind.
    InvalidObject,
    /// The class name of a model object is not valid text.
    InvalidClassName,
    /// The sensor is not on its port.
    Port {
        /// What is wrong with the port.
        source: PortError,
    },
}

/// The object a record stands for, given the class name VEXos gave for its
/// id (`None` when that name was not valid text).
pub open spec fn object_outcome(r: AiVisionObjectRecord, name: Option<String>) -> Result<
    AiVisionObject,
    AiVisionError,
> {
    let d = r.data@;
    match object_type_of(r.kind) {
        ObjectType::Color => Ok(
            AiVisionObject::Color {
                id: r.id,
                position: Point2 { x: d[0], y: d[1] },
                width: d[2],
                height: d[3],
            },
        ),
        ObjectType::Code => Ok(
            AiVisionObject::Code {
                id: r.id,
                position: Point2 { x: d[0], y: d[1] },
                width: d[2],
                height: d[3],
                angle: d[4],
            },
        ),
        ObjectType::Model => match name {
            Some(n) => Ok(
                AiVisionObject::Model {
                    id: r.id,
                    classification: n,
                    position: Point2 { x: d[0], y: d[1] },
                    width: d[2],
                    height: d[3],
                    confidence: d[4],
                },
            ),
            None => Err(AiVisionError::InvalidClassName),
        },
        ObjectType::AprilTag => Ok(
            AiVisionObject::AprilTag {
                id: r.id,
                top_left: Point2 { x: d[0] as i16, y: d[1] as i16 },
                top_right: Point2 { x: d[2] as i16, y: d[3] as i16 },
                bottom_right: Point2 { x: d[4] as i16, y: d[5] as i16 },
                bottom_left: Point2 { x: d[6] as i16, y: d[7] as i16 },
            },
        ),
        _ => Err(AiVisionError::InvalidObject),
    }
}

/// How a record is decoded, by its type code: 1 is a color blob and 2 a
/// color code, both at (left, top) with a width and height, a code with its
/// angle too; 4 is a model object, which needs its class name and carries
/// its score as confidence; 8 is an AprilTag whose corners, top left, top
/// right, bottom right and bottom left, are the data words in pairs in that
/// order, read as signed; any other code stands for no object. The id is
/// always the record's.
pub proof fn lemma_record_decoding(r: AiVisionObjectRecord, name: Option<String>)
    ensures
        r.kind == 1 ==> object_outcome(r, name) == Ok::<AiVisionObject, AiVisionError>(
            AiVisionObject::Color {
                id: r.id,
                position: Point2 { x: r.data@[0], y: r.data@[1] },
                width: r.data@[2],
                height: r.data@[3],
            },
        ),
        r.kind == 2 ==> object_outcome(r, name) == Ok::<AiVisionObject, AiVisionError>(
            AiVisionObject::Code {
                id: r.id,
                position: Point2 { x: r.data@[0], y: r.data@[1] },
                width: r.data@[2],
                height: r.data@[3],
                angle: r.data@[4],
            },
        ),
        r.kind == 4 ==> object_outcome(r, name) == match name {
            Some(n) => Ok::<AiVisionObject, AiVisionError>(
                AiVisionObject::Model {
                    id: r.id,
                    classification: n,
                    position: Point2 { x: r.data@[0], y: r.data@[1] },
                    width: r.data@[2],
                    height: r.data@[3],
                    confidence: r.data@[4],
                },
            ),
            None => Err(AiVisionError::InvalidClassName),
        },
        r.kind == 8 ==> object_outcome(r, name) == Ok::<AiVisionObject, AiVisionError>(
            AiVisionObject::AprilTag {
                id: r.id,
                top_left: Point2 { x: r.data@[0] as i16, y: r.data@[1] as i16 },
                top_right: Point2 { x: r.data@[2] as i16, y: r.data@[3] as i16 },
                bottom_right: Point2 { x: r.data@[4] as i16, y: r.data@[5] as i16 },
                bottom_left: Point2 { x: r.data@[6] as i16, y: r.data@[7] as i16 },
            },
        ),
        r.kind != 1 && r.kind != 2 && r.kind != 4 && r.kind != 8 ==> object_outcome(r, name)
            == Err::<AiVisionObject, AiVisionError>(AiVisionError::InvalidObject),
        object_outcome(r, name) matches Ok(o) ==> match o {
            AiVisionObject::Color { id, .. } => id == r.id,
            AiVisionObject::Code { id, .. } => id == r.id,
            AiVisionObject::AprilTag { id, .. } => id == r.id,
            AiVisionObject::Model { id, .. } => id == r.id,
        },
{
}

/// The objects that records `rs` stand for, in order, given the class names
/// `names` VEXos gave for them; the first record that stands for no object
/// gives its error.
pub open spec fn objects_outcome(rs: Seq<AiVisionObjectRecord>, names: Seq<Option<String>>) -> Result<
    Seq<AiVisionObject>,
    AiVisionError,
>
    decreases rs.len(),
{
    if rs.len() == 0 {
        Ok(Seq::empty())
    } else {
        match objects_outcome(rs.drop_last(), names) {
            Err(e) => Err(e),
            Ok(v) => match object_outcome(rs.last(), names[rs.len() - 1]) {
                Ok(o) => Ok(v.push(o)),
                Err(e) => Err(e),
            },
        }
    }
}

/// The objects come out one per record, in the records' order: the `i`-th
/// object is what the `i`-th record decodes to, with the `i`-th class name.
pub proof fn lemma_objects_in_order(rs: Seq<AiVisionObjectRecord>, names: Seq<Option<String>>)
    ensures
        objects_outcome(rs, names) matches Ok(v) ==> v.len() == rs.len() && forall|i: int|
            0 <= i < rs.len() ==> object_outcome(#[trigger] rs[i], names[i]) == Ok::<
                AiVisionObject,
                AiVisionError,
            >(v[i]),
    decreases rs.len(),
{
    if rs.len() > 0 {
        let pre = rs.drop_last();
        lemma_objects_in_order(pre, names);
        if let Ok(v) = objects_outcome(rs, names) {
            let w = objects_outcome(pre, names)->Ok_0;
            assert forall|i: int| 0 <= i < rs.len() implies object_outcome(
                #[trigger] rs[i],
                names[i],
            ) == Ok::<AiVisionObject, AiVisionError>(v[i]) by {
                if i < pre.len() {
                    assert(rs[i] == pre[i]);
                    assert(v[i] == w[i]);
                }
            }
        }
    }
}

/// Whether VEXos is to be asked for the class name of a record's object:
/// only model objects carry one.
pub open spec fn needs_class_name_spec(r: AiVisionObjectRecord) -> bool {
    object_type_of(r.kind) == ObjectType::Model
}

impl AiVisionObjectRecord {
    /// Whether the class name of this record's object is needed.
    pub fn needs_class_name(&self) -> (b: bool)
        ensures
            b == needs_class_name_spec(*self),
    {
        let t = ObjectType::from(self.kind);
        match t {
            ObjectType::Model => true,
            _ => false,
        }
    }

    /// The object this record stands for, given the class name VEXos gave
    /// for it.
    pub fn to_object(&self, name: Option<String>) -> (r: Result<AiVisionObject, AiVisionError>)
        ensures
            r == object_outcome(*self, name),
    {
        let d = self.data;
        let t = ObjectType::from(self.kind);
        match t {
            ObjectType::Color => Ok(
                AiVisionObject::Color {
                    id: self.id,
                    position: Point2 { x: d[0], y: d[1] },
                    width: d[2],
                    height: d[3],
                },
            ),
            ObjectType::Code => Ok(
                AiVisionObject::Code {
                    id: self.id,
                    position: Point2 { x: d[0], y: d[1] },
                    width: d[2],
                    height: d[3],
                    angle: d[4],
                },
            ),
            ObjectType::Model => match name {
                Some(n) => Ok(
                    AiVisionObject::Model {
                        id: self.id,
                        classification: n,
                        position: Point2 { x: d[0], y: d[1] },
                        width: d[2],
                        height: d[3],
                        confidence: d[4],
                    },
                ),
                None => Err(AiVisionError::InvalidClassName),
            },
            ObjectType::AprilTag => Ok(
                AiVisionObject::AprilTag {
                    id: self.id,
                    top_left: Point2 { x: d[0] as i16, y: d[1] as i16 },
                    top_right: Point2 { x: d[2] as i16, y: d[3] as i16 },
                    bottom_right: Point2 { x: d[4] as i16, y: d[5] as i16 },
                    bottom_left: Point2 { x: d[6] as i16, y: d[7] as i16 },
                },
            ),
            _ => Err(AiVisionError::InvalidObject),
        }
    }
}

/// Once a prefix of the records yields an error, every longer prefix yields
/// the same error.
proof fn lemma_objects_outcome_err(
    rs: Seq<AiVisionObjectRecord>,
    names: Seq<Option<String>>,
    k: int,
    e: AiVisionError,
)
    requires
        0 <= k <= rs.len(),
        objects_outcome(rs.take(k), names) == Err::<Seq<AiVisionObject>, AiVisionError>(e),
    ensures
        objects_outcome(rs, names) == Err::<Seq<AiVisionObject>, AiVisionError>(e),
    decreases rs.len() - k,
{
    if k < rs.len() {
        assert(rs.take(k + 1).drop_last() =~= rs.take(k));
        lemma_objects_outcome_err(rs, names, k + 1, e);
    } else {
        assert(rs.take(k) =~= rs);
    }
}

/// An AI Vision sensor on a Smart port.
#[derive(Debug, PartialEq, Eq, Structural)]
pub struct AiVisionSensor {
    port: SmartPort,
}

/// The mode word that writes flags `flags` over a status word `status`.
pub open spec fn flags_mode_word(status: u32, flags: u8) -> u32 {
    ((status << 8u32) & !(0xffu32 << 8u32)) | ((flags as u32) << 8u32) | MODE_SET_FLAG
}

/// The mode word that writes `value` into byte 2 with `flag`, over a status
/// word `status`.
pub open spec fn byte2_mode_word(status: u32, value: u8, flag: u32) -> u32 {
    ((status << 8u32) & !(0xffu32 << 16u32)) | ((value as u32) << 16u32) | flag
}

/// The flags a status word reports: its lowest byte.
pub open spec fn status_flags(status: u32) -> u8 {
    (status & 0xff) as u8
}

/// The outcome of a request on the sensor on Smart port `port` whose status
/// code is `raw`, yielding `value` when the sensor is present.
pub open spec fn sensor_outcome<T>(port: u8, raw: u8, value: T) -> Result<T, AiVisionError> {
    match port_check(port, SmartDeviceType::AiVision, raw) {
        Ok(()) => Ok(value),
        Err(e) => Err(AiVisionError::Port { source: e }),
    }
}

impl AiVisionSensor {
    /// The Smart port the sensor is plugged into.
    pub closed spec fn port_spec(&self) -> u8 {
        self.port@
    }

    /// Creates a sensor on `port`, together with the mode word that resets it.
    pub fn new(port: SmartPort) -> (r: (AiVisionSensor, u32))
        ensures
            r.0.port_spec() == port@,
            r.1 == RESET_FLAG,
    {
        (AiVisionSensor { port }, RESET_FLAG)
    }

    /// Stores color code `code` under `id`, given the status code of the
    /// sensor's Smart port; on success gives the record to write.
    ///
    /// Ids outside 1 to 8, and color ids outside 1 to 7, are refused by
    /// `requires`.
    pub fn set_color_code(&mut self, id: u8, code: &AiVisionColorCode, raw_status: u8) -> (r: Result<
        AiVisionCodeRecord,
        AiVisionError,
    >)
        requires
            1 <= id <= 8,
            valid_color_ids(code@),
        ensures
            final(self).port_spec() == old(self).port_spec(),
            match r {
                Ok(rec) => port_check(old(self).port_spec(), SmartDeviceType::AiVision, raw_status)
                    is Ok && code_record_is(rec, id, code@),
                Err(e) => sensor_outcome(old(self).port_spec(), raw_status, ()) == Err::<(), AiVisionError>(e),
            },
    {
        if let Err(e) = validate_port(self.port.number(), SmartDeviceType::AiVision, raw_status) {
            return Err(AiVisionError::Port { source: e });
        }
        let mut ids: [u8; 7] = [0u8; 7];
        let mut n: usize = 0;
        let mut i: usize = 0;
        while i < 7
            invariant
                i <= 7,
                code@.len() == 7,
                ids@.len() == 7,
                n == present_ids(code@.take(i as int)).len(),
                n <= i,
                forall|j: int| 0 <= j < n ==> ids@[j] == present_ids(code@.take(i as int))[j],
                forall|j: int| n <= j < 7 ==> ids@[j] == 0u8,
            decreases 7 - i,
        {
            proof {
                lemma_present_ids_push(code@.take(i as int), code@[i as int]);
                assert(code@.take(i as int).push(code@[i as int]) =~= code@.take(i + 1));
            }
            if let Some(c) = code.ids[i] {
                ids[n] = c;
                n = n + 1;
            }
            i = i + 1;
        }
        assert(code@.take(7) =~= code@);
        proof {
            lemma_present_ids_valid(code@);
        }
        let mut len: u8 = 0;
        let mut k: usize = 0;
        while k < 7
            invariant
                k <= 7,
                ids@.len() == 7,
                n <= 7,
                len as int == if k < n { k as int } else { n as int },
                forall|j: int| 0 <= j < n ==> ids@[j] != 0u8,
                forall|j: int| n <= j < 7 ==> ids@[j] == 0u8,
            ensures
                len as int == n as int,
            decreases 7 - k,
        {
            if ids[k] != 0 {
                len = len + 1;
            } else {
                break ;
            }
            k = k + 1;
        }
        let rec = AiVisionCodeRecord {
            id,
            len,
            colors: [
                ids[0] as i16,
                ids[1] as i16,
                ids[2] as i16,
                ids[3] as i16,
                ids[4] as i16,
                ids[5] as i16,
                ids[6] as i16,
            ],
        };
        assert(rec.colors@.len() == 7);
        assert forall|i: int| 0 <= i < 7 implies #[trigger] rec.colors@[i] == if i < present_ids(
            code@,
        ).len() {
            present_ids(code@)[i] as i16
        } else {
            0i16
        } by {
            assert(rec.colors@[i] == ids@[i] as i16);
        }
        Ok(rec)
    }

    /// The color code stored under `id`, given the status code of the
    /// sensor's Smart port, whether VEXos could read the code, and the record
    /// it read; `None` when it could not.
    ///
    /// Ids outside 1 to 8, and records that claim more than seven colors, are
    /// refused by `requires`.
    pub fn color_code(&self, id: u8, raw_status: u8, read: bool, record: AiVisionCodeRecord) -> (r:
        Result<Option<AiVisionColorCode>, AiVisionError>)
        requires
            1 <= id <= 8,
            record.len <= 7,
        ensures
            match r {
                Ok(None) => port_check(self.port_spec(), SmartDeviceType::AiVision, raw_status) is Ok
                    && !read,
                Ok(Some(c)) => port_check(self.port_spec(), SmartDeviceType::AiVision, raw_status)
                    is Ok && read && c@ == record_code(record),
                Err(e) => sensor_outcome(self.port_spec(), raw_status, ()) == Err::<(), AiVisionError>(e),
            },
    {
        if let Err(e) = validate_port(self.port.number(), SmartDeviceType::AiVision, raw_status) {
            return Err(AiVisionError::Port { source: e });
        }
        if !read {
            return Ok(None);
        }
        let mut ids: [Option<u8>; 7] = [None; 7];
        let mut i: usize = 0;
        while i < record.len as usize
            invariant
                record.len <= 7,
                i <= record.len,
                ids@.len() == 7,
                record.colors@.len() == 7,
                forall|j: int| 0 <= j < i ==> ids@[j] == Some(record.colors@[j] as u8),
                forall|j: int| i <= j < 7 ==> ids@[j] == None::<u8>,
            decreases record.len - i,
        {
            ids[i] = Some(record.colors[i] as u8);
            i = i + 1;
        }
        let c = AiVisionColorCode { ids };
        assert(c@ =~= record_code(record));
        Ok(Some(c))
    }

    /// The number of objects the sensor detects, given the status code of
    /// its Smart port and the count VEXos reports.
    pub fn object_count(&self, raw_status: u8, raw_count: i32) -> (r: Result<u32, AiVisionError>)
        ensures
            r == match port_check(self.port_spec(), SmartDeviceType::AiVision, raw_status) {
                Ok(()) => Ok(raw_count as u32),
                Err(e) => Err(AiVisionError::Port { source: e }),
            },
    {
        match validate_port(self.port.number(), SmartDeviceType::AiVision, raw_status) {
            Ok(()) => Ok(raw_count as u32),
            Err(e) => Err(AiVisionError::Port { source: e }),
        }
    }

    /// Every object the sensor detects, given the status code of its Smart
    /// port, the records VEXos reports for them in order, and the class name
    /// VEXos gave for each record's id (`None` where that name is not valid
    /// text; ignored for objects other than model objects).
    ///
    /// Fails at the first record of no known kind, or the first model object
    /// whose class name is not valid text.
    pub fn objects(
        &self,
        raw_status: u8,
        records: &[AiVisionObjectRecord],
        class_names: &[Option<String>],
    ) -> (r: Result<Vec<AiVisionObject>, AiVisionError>)
        requires
            records@.len() == class_names@.len(),
        ensures
            match port_check(self.port_spec(), SmartDeviceType::AiVision, raw_status) {
                Err(e) => r == Err::<Vec<AiVisionObject>, AiVisionError>(
                    AiVisionError::Port { source: e },
                ),
                Ok(()) => match objects_outcome(records@, class_names@) {
                    Ok(v) => r matches Ok(objects) && objects@ == v,
                    Err(e) => r == Err::<Vec<AiVisionObject>, AiVisionError>(e),
                },
            },
    {
        if let Err(e) = validate_port(self.port.number(), SmartDeviceType::AiVision, raw_status) {
            return Err(AiVisionError::Port { source: e });
        }
        let mut objects: Vec<AiVisionObject> = Vec::new();
        let mut i: usize = 0;
        while i < records.len()
            invariant
                i <= records@.len(),
                records@.len() == class_names@.len(),
                port_check(self.port_spec(), SmartDeviceType::AiVision, raw_status) is Ok,
                objects_outcome(records@.take(i as int), class_names@) == Ok::<
                    Seq<AiVisionObject>,
                    AiVisionError,
                >(objects@),
            decreases records@.len() - i,
        {
            let name: Option<String> = match &class_names[i] {
                Some(n) => Some(n.clone()),
                None => None,
            };
            assert(name == class_names@[i as int]);
            let o = records[i].to_object(name);
            proof {
                assert(records@.take(i + 1).drop_last() =~= records@.take(i as int));
                assert(records@.take(i + 1).last() == records@[i as int]);
                assert(records@.take(i + 1).len() == i + 1);
            }
            match o {
                Ok(obj) => {
                    objects.push(obj);
                },
                Err(e) => {
                    proof {
                        lemma_objects_outcome_err(records@, class_names@, i as int + 1, e);
                    }
                    return Err(e);
                },
            }
            i = i + 1;
        }
        assert(records@.take(records@.len() as int) =~= records@);
        Ok(objects)
    }

    /// Every color code stored on the sensor, under ids 1 to 8 in order,
    /// given the status code of its Smart port, and for each id whether VEXos
    /// could read its code and the record it read.
    ///
    /// Records that claim more than seven colors are refused by `requires`.
    pub fn color_codes(&self, raw_status: u8, reads: [bool; 8], records: [AiVisionCodeRecord; 8]) -> (r:
        Result<[Option<AiVisionColorCode>; 8], AiVisionError>)
        requires
            forall|i: int| 0 <= i < 8 ==> (#[trigger] records@[i]).len <= 7,
        ensures
            match r {
                Ok(c) => port_check(self.port_spec(), SmartDeviceType::AiVision, raw_status) is Ok
                    && forall|i: int|
                    0 <= i < 8 ==> match #[trigger] c@[i] {
                        None => !reads@[i],
                        Some(code) => reads@[i] && code@ == record_code(records@[i]),
                    },
                Err(e) => sensor_outcome(self.port_spec(), raw_status, ()) == Err::<(), AiVisionError>(e),
            },
    {
        if let Err(e) = validate_port(self.port.number(), SmartDeviceType::AiVision, raw_status) {
            return Err(AiVisionError::Port { source: e });
        }
        let mut codes: [Option<AiVisionColorCode>; 8] = [None; 8];
        let mut i: usize = 0;
        while i < 8
            invariant
                i <= 8,
                codes@.len() == 8,
                port_check(self.port_spec(), SmartDeviceType::AiVision, raw_status) is Ok,
                forall|j: int| 0 <= j < 8 ==> (#[trigger] records@[j]).len <= 7,
                forall|j: int|
                    0 <= j < i ==> match #[trigger] codes@[j] {
                        None => !reads@[j],
                        Some(code) => reads@[j] && code@ == record_code(records@[j]),
                    },
            decreases 8 - i,
        {
            let id: u8 = (i + 1) as u8;
            let got = self.color_code(id, raw_status, reads[i], records[i]);
            match got {
                Ok(c) => {
                    codes[i] = c;
                },
                Err(e) => {
                    return Err(e);
                },
            }
            i = i + 1;
        }
        Ok(codes)
    }

    /// The sensor's flags, given the status code of its Smart port and the
    /// status word it reports.
    pub fn flags(&self, raw_status: u8, status: u32) -> (r: Result<AiVisionFlags, AiVisionError>)
        ensures
            match r {
                Ok(f) => sensor_outcome(self.port_spec(), raw_status, ()) is Ok && f@ == status_flags(
                    status,
                ),
                Err(e) => sensor_outcome(self.port_spec(), raw_status, ()) == Err::<(), AiVisionError>(e),
            },
    {
        match validate_port(self.port.number(), SmartDeviceType::AiVision, raw_status) {
            Ok(()) => Ok(AiVisionFlags { bits: (status & 0xff) as u8 }),
            Err(e) => Err(AiVisionError::Port { source: e }),
        }
    }

    /// Sets the sensor's flags, given the status code of its Smart port and
    /// the status word it reports; on success gives the mode word to write.
    pub fn set_flags(&mut self, flags: AiVisionFlags, raw_status: u8, status: u32) -> (r: Result<
        u32,
        AiVisionError,
    >)
        ensures
            final(self).port_spec() == old(self).port_spec(),
            r == sensor_outcome(old(self).port_spec(), raw_status, flags_mode_word(status, flags@)),
    {
        match validate_port(self.port.number(), SmartDeviceType::AiVision, raw_status) {
            Ok(()) => {
                let mut word: u32 = status << 8u32;
                word = word & !(0xffu32 << 8u32);
                word = word | ((flags.bits as u32) << 8u32) | MODE_SET_FLAG;
                Ok(word)
            },
            Err(e) => Err(AiVisionError::Port { source: e }),
        }
    }

    /// Enables exactly the detection modes in `mode`, keeping the sensor's
    /// overlay flags, given the status code of its Smart port and the status
    /// word it reports; on success gives the mode word to write.
    pub fn set_detection_mode(
        &mut self,
        mode: AiVisionDetectionMode,
        raw_status: u8,
        status: u32,
    ) -> (r: Result<u32, AiVisionError>)
        ensures
            final(self).port_spec() == old(self).port_spec(),
            r == sensor_outcome(
                old(self).port_spec(),
                raw_status,
                flags_mode_word(
                    status,
                    (status_flags(status) & (DISABLE_USB_OVERLAY | DISABLE_STATUS_OVERLAY))
                        | flags_for_mode(mode@),
                ),
            ),
    {
        match self.flags(raw_status, status) {
            Ok(current) => {
                let kept = current.bits & (DISABLE_USB_OVERLAY | DISABLE_STATUS_OVERLAY);
                let wanted = AiVisionFlags::from_mode(mode);
                self.set_flags(AiVisionFlags { bits: kept | wanted.bits }, raw_status, status)
            },
            Err(e) => Err(e),
        }
    }

    /// Starts automatic white balance, given the status code of the sensor's
    /// Smart port and the status word it reports; on success gives the mode
    /// word to write.
    pub fn start_awb(&mut self, raw_status: u8, status: u32) -> (r: Result<u32, AiVisionError>)
        ensures
            final(self).port_spec() == old(self).port_spec(),
            r == sensor_outcome(old(self).port_spec(), raw_status, byte2_mode_word(status, 4, AWB_START_FLAG)),
    {
        match validate_port(self.port.number(), SmartDeviceType::AiVision, raw_status) {
            Ok(()) => {
                let mut word: u32 = status << 8u32;
                word = word & !(0xffu32 << 16u32);
                word = word | (1u32 << 18u32) | AWB_START_FLAG;
                assert(1u32 << 18u32 == (4u8 as u32) << 16u32) by (bit_vector);
                Ok(word)
            },
            Err(e) => Err(AiVisionError::Port { source: e }),
        }
    }

    /// Enables test mode `test`, given the status code of the sensor's Smart
    /// port and the status word it reports; on success gives the mode word to
    /// write.
    pub fn enable_test(&mut self, test: u8, raw_status: u8, status: u32) -> (r: Result<u32, AiVisionError>)
        ensures
            final(self).port_spec() == old(self).port_spec(),
            r == sensor_outcome(old(self).port_spec(), raw_status, byte2_mode_word(status, test, TEST_MODE_FLAG)),
    {
        match validate_port(self.port.number(), SmartDeviceType::AiVision, raw_status) {
            Ok(()) => {
                let mut word: u32 = status << 8u32;
                word = word & !(0xffu32 << 16u32);
                word = word | ((test as u32) << 16u32) | TEST_MODE_FLAG;
                Ok(word)
            },
            Err(e) => Err(AiVisionError::Port { source: e }),
        }
    }

    /// Selects the AprilTag family to detect, given the status code of the
    /// sensor's Smart port and the status word it reports; on success gives
    /// the mode word to write.
    pub fn set_apriltag_family(&mut self, family: AprilTagFamily, raw_status: u8, status: u32) -> (r:
        Result<u32, AiVisionError>)
        ensures
            final(self).port_spec() == old(self).port_spec(),
            r == sensor_outcome(
                old(self).port_spec(),
                raw_status,
                byte2_mode_word(status, family_code(family), TAG_SET_FLAG),
            ),
    {
        match validate_port(self.port.number(), SmartDeviceType::AiVision, raw_status) {
            Ok(()) => {
                let mut word: u32 = status << 8u32;
                word = word & !(0xffu32 << 16u32);
                word = word | ((family.into_raw() as u32) << 16u32) | TAG_SET_FLAG;
                Ok(word)
            },
            Err(e) => Err(AiVisionError::Port { source: e }),
        }
    }
}

impl SmartDevice for AiVisionSensor {
    fn port_number(&self) -> (r: u8)
        ensures
            r == self.port_spec(),
    {
        self.port.number()
    }

    fn device_type(&self) -> (r: SmartDeviceType)
        ensures
            r == SmartDeviceType::AiVision,
    {
        SmartDeviceType::AiVision
    }
}

/// A mode word that sets flags carries the flags in its second byte and the
/// set-mode bit, and nothing in its lowest byte.
pub proof fn lemma_flags_mode_word(status: u32, flags: u8)
    ensures
        (flags_mode_word(status, flags) >> 8u32) & 0xff == flags as u32,
        flags_mode_word(status, flags) & MODE_SET_FLAG == MODE_SET_FLAG,
        flags_mode_word(status, flags) & 0xff == 0,
{
    let w = flags_mode_word(status, flags);
    let f = flags as u32;
    assert(f < 256);
    assert(w == ((status << 8u32) & !(0xffu32 << 8u32)) | (f << 8u32) | 0x0200_0000u32);
    assert((w >> 8u32) & 0xff == f && w & 0x0200_0000u32 == 0x0200_0000u32 && w & 0xff == 0)
        by (bit_vector)
        requires
            w == ((status << 8u32) & !(0xffu32 << 8u32)) | (f << 8u32) | 0x0200_0000u32,
            f < 256,
    ;
}

/// A mode word that writes byte 2 carries the value in its third byte and the
/// given flag bit, and nothing in its lowest byte.
pub proof fn lemma_byte2_mode_word(status: u32, value: u8, flag: u32)
    requires
        flag & 0x00ff_ffffu32 == 0,
    ensures
        (byte2_mode_word(status, value, flag) >> 16u32) & 0xff == value as u32 | ((flag >> 16u32)
            & 0xff),
        byte2_mode_word(status, value, flag) & flag == flag,
        byte2_mode_word(status, value, flag) & 0xff == 0,
{
    let w = byte2_mode_word(status, value, flag);
    let v = value as u32;
    assert(v < 256);
    assert(w == ((status << 8u32) & !(0xffu32 << 16u32)) | (v << 16u32) | flag);
    assert((w >> 16u32) & 0xff == v | ((flag >> 16u32) & 0xff) && w & flag == flag && w & 0xff == 0)
        by (bit_vector)
        requires
            w == ((status << 8u32) & !(0xffu32 << 16u32)) | (v << 16u32) | flag,
            v < 256,
            flag & 0x00ff_ffffu32 == 0,
    ;
}

} // verus!
