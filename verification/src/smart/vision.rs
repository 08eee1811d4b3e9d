//! Vision sensor: color signatures and codes, detected objects, and the
//! camera's modes.

use super::{port_check, validate_port, PortError, SmartDevice, SmartDeviceType, SmartPort};
use crate::color::Color;
use crate::geometry::Point2;
use vstd::prelude::*;

verus! {

/// A vision color code: two to five color signatures detected together.
///
/// Signature ids are three-bit numbers; an id of the code packs them into one
/// 15-bit word, three bits each, the first signature highest.
#[derive(Debug, Clone, Copy, PartialEq, Eq, Structural)]
pub struct VisionCode(pub u8, pub u8, pub Option<u8>, pub Option<u8>, pub Option<u8>);

/// An optional signature's id, zero when absent.
pub open spec fn sig_or_zero(o: Option<u8>) -> u8 {
    match o {
        Some(s) => s,
        None => 0,
    }
}

/// An optional signature read from a three-bit field: zero means absent.
pub open spec fn sig_from_field(v: u8) -> Option<u8> {
    if v == 0 {
        None
    } else {
        Some(v)
    }
}

/// The word that packs five signature ids, three bits each, the first
/// highest, as computed on 16 bits.
pub open spec fn pack_sigs(s0: u16, s1: u16, s2: u16, s3: u16, s4: u16) -> u16 {
    ((((((((s0 << 3u16) | s1) << 3u16) | s2) << 3u16) | s3) << 3u16) | s4)
}

/// The id of a vision code.
pub open spec fn code_id(c: VisionCode) -> u16 {
    pack_sigs(
        c.0 as u16,
        c.1 as u16,
        sig_or_zero(c.2) as u16,
        sig_or_zero(c.3) as u16,
        sig_or_zero(c.4) as u16,
    )
}

/// The three-bit field of `id` that starts at bit `shift`.
pub open spec fn id_field(id: u16, shift: u16) -> u8 {
    ((id >> shift) & 7u16) as u8
}

/// The vision code read from an id.
pub open spec fn code_of_id(id: u16) -> VisionCode {
    VisionCode(
        id_field(id, 12),
        id_field(id, 9),
        sig_from_field(id_field(id, 6)),
        sig_from_field(id_field(id, 3)),
        sig_from_field(id_field(id, 0)),
    )
}

/// Whether a vision code holds only three-bit signature ids and no optional
/// signature of id zero, so that its id keeps it whole.
pub open spec fn packable_code(c: VisionCode) -> bool {
    &&& c.0 <= 7
    &&& c.1 <= 7
    &&& (c.2 matches Some(s) ==> 1 <= s <= 7)
    &&& (c.3 matches Some(s) ==> 1 <= s <= 7)
    &&& (c.4 matches Some(s) ==> 1 <= s <= 7)
}

/// Whether code `c` holds signature `id`.
pub open spec fn code_contains(c: VisionCode, id: u8) -> bool {
    c.0 == id || c.1 == id || c.2 == Some(id) || c.3 == Some(id) || c.4 == Some(id)
}

impl VisionCode {
    /// Creates a code from two required and three optional signature ids.
    pub fn new(sig_1: u8, sig_2: u8, sig_3: Option<u8>, sig_4: Option<u8>, sig_5: Option<u8>) -> (r:
        VisionCode)
        ensures
            r == VisionCode(sig_1, sig_2, sig_3, sig_4, sig_5),
    {
        VisionCode(sig_1, sig_2, sig_3, sig_4, sig_5)
    }

    /// Reads a code from its id: five three-bit fields, the first signature
    /// highest; an optional field of zero is an absent signature.
    pub fn from_id(id: u16) -> (r: VisionCode)
        ensures
            r == code_of_id(id),
    {
        let f0 = ((id >> 12u16) & 7u16) as u8;
        let f1 = ((id >> 9u16) & 7u16) as u8;
        let f2 = ((id >> 6u16) & 7u16) as u8;
        let f3 = ((id >> 3u16) & 7u16) as u8;
        let f4 = (id & 7u16) as u8;
        assert(f4 == id_field(id, 0)) by (bit_vector)
            requires
                f4 == (id & 7u16) as u8,
        ;
        VisionCode(
            f0,
            f1,
            if f2 == 0 {
                None
            } else {
                Some(f2)
            },
            if f3 == 0 {
                None
            } else {
                Some(f3)
            },
            if f4 == 0 {
                None
            } else {
                Some(f4)
            },
        )
    }

    /// Whether this code holds signature `id`.
    pub fn contains_signature(&self, id: u8) -> (r: bool)
        ensures
            r == code_contains(*self, id),
    {
        if self.0 == id || self.1 == id {
            return true;
        }
        if let Some(s) = self.2 {
            if s == id {
                return true;
            }
        }
        if let Some(s) = self.3 {
            if s == id {
                return true;
            }
        }
        if let Some(s) = self.4 {
            if s == id {
                return true;
            }
        }
        false
    }

    /// The code's id: its signature ids packed three bits each, the first
    /// highest, absent signatures as zero.
    pub fn id(&self) -> (r: u16)
        ensures
            r == code_id(*self),
    {
        let s2: u8 = match self.2 {
            Some(s) => s,
            None => 0,
        };
        let s3: u8 = match self.3 {
            Some(s) => s,
            None => 0,
        };
        let s4: u8 = match self.4 {
            Some(s) => s,
            None => 0,
        };
        let mut id: u16 = 0;
        id = (id << 3u16) | (self.0 as u16);
        id = (id << 3u16) | (self.1 as u16);
        id = (id << 3u16) | (s2 as u16);
        id = (id << 3u16) | (s3 as u16);
        id = (id << 3u16) | (s4 as u16);
        let a = self.0 as u16;
        assert((0u16 << 3u16) | a == a) by (bit_vector);
        id
    }
}

proof fn lemma_pack_fields(x: u16)
    ensures
        pack_sigs(
            ((x >> 12u16) & 7u16),
            ((x >> 9u16) & 7u16),
            ((x >> 6u16) & 7u16),
            ((x >> 3u16) & 7u16),
            (x & 7u16),
        ) == x & 0x7fffu16,
{
    assert(((((((((((x >> 12u16) & 7u16) << 3u16) | ((x >> 9u16) & 7u16)) << 3u16) | ((x >> 6u16)
        & 7u16)) << 3u16) | ((x >> 3u16) & 7u16)) << 3u16) | (x & 7u16)) == x & 0x7fffu16)
        by (bit_vector);
}

proof fn lemma_fields_of_pack(s0: u16, s1: u16, s2: u16, s3: u16, s4: u16)
    requires
        s0 <= 7,
        s1 <= 7,
        s2 <= 7,
        s3 <= 7,
        s4 <= 7,
    ensures
        (pack_sigs(s0, s1, s2, s3, s4) >> 12u16) & 7u16 == s0,
        (pack_sigs(s0, s1, s2, s3, s4) >> 9u16) & 7u16 == s1,
        (pack_sigs(s0, s1, s2, s3, s4) >> 6u16) & 7u16 == s2,
        (pack_sigs(s0, s1, s2, s3, s4) >> 3u16) & 7u16 == s3,
        pack_sigs(s0, s1, s2, s3, s4) & 7u16 == s4,
{
    let p = pack_sigs(s0, s1, s2, s3, s4);
    assert(p == ((((((((s0 << 3u16) | s1) << 3u16) | s2) << 3u16) | s3) << 3u16) | s4));
    assert((p >> 12u16) & 7u16 == s0 && (p >> 9u16) & 7u16 == s1 && (p >> 6u16) & 7u16 == s2 && (p
        >> 3u16) & 7u16 == s3 && p & 7u16 == s4) by (bit_vector)
        requires
            p == ((((((((s0 << 3u16) | s1) << 3u16) | s2) << 3u16) | s3) << 3u16) | s4),
            s0 <= 7,
            s1 <= 7,
            s2 <= 7,
            s3 <= 7,
            s4 <= 7,
    ;
}

/// The id of the code read from any id keeps that id's low fifteen bits.
pub proof fn lemma_id_of_code_of_id(x: u16)
    ensures
        code_id(code_of_id(x)) == x & 0x7fffu16,
{
    lemma_pack_fields(x);
    let f = |s: u16| ((x >> s) & 7u16);
    assert forall|s: u16| #[trigger] f(s) <= 7 by {
        let y = (x >> s) & 7u16;
        assert(y <= 7) by (bit_vector)
            requires
                y == (x >> s) & 7u16,
        ;
    }
    assert(f(12) <= 7 && f(9) <= 7 && f(6) <= 7 && f(3) <= 7);
    let e = x & 7u16;
    assert(e <= 7) by (bit_vector)
        requires
            e == x & 7u16,
    ;
    assert(((x >> 0u16) & 7u16) == x & 7u16) by (bit_vector);
}

/// A packable code read back from its id is the same code.
pub proof fn lemma_code_of_id_of_code(c: VisionCode)
    requires
        packable_code(c),
    ensures
        code_of_id(code_id(c)) == c,
{
    let s0 = c.0 as u16;
    let s1 = c.1 as u16;
    let s2 = sig_or_zero(c.2) as u16;
    let s3 = sig_or_zero(c.3) as u16;
    let s4 = sig_or_zero(c.4) as u16;
    lemma_fields_of_pack(s0, s1, s2, s3, s4);
    let p = code_id(c);
    assert((p >> 0u16) & 7u16 == p & 7u16) by (bit_vector);
}

/// The detection mode of a vision sensor.
#[derive(Debug, Clone, Copy, PartialEq, Eq, Default, Structural)]
pub enum VisionMode {
    /// Color signatures and codes identify objects.
    #[default]
    ColorDetection,
    /// Lines are tracked.
    LineDetection,
    /// Both colors and lines are detected.
    MixedDetection,
    /// The sensor streams its camera over its own Wi-Fi network.
    Wifi,
    /// Unknown use.
    Test,
}

/// How a detected vision object was found.
#[derive(Debug, Clone, Copy, PartialEq, Eq, Structural)]
pub enum DetectionSource {
    /// A signature that is part of no code.
    Signature(u8),
    /// Signatures joined in a color code.
    Code(VisionCode),
    /// Line detection.
    Line,
}

/// The white balance mode of a vision sensor's camera.
#[derive(Debug, Clone, Copy, PartialEq, Eq, Default, Structural)]
pub enum WhiteBalance {
    /// Balance is adjusted continually.
    #[default]
    Auto,
    /// Balance is adjusted once, at power-on.
    StartupAuto,
    /// Balance is set by a color.
    Manual(Color),
}

/// The raw VEXos code of a white balance mode.
pub open spec fn white_balance_code(w: WhiteBalance) -> u8 {
    match w {
        WhiteBalance::Auto => 0,
        WhiteBalance::StartupAuto => 1,
        WhiteBalance::Manual(_) => 2,
    }
}

impl WhiteBalance {
    /// The raw VEXos code of this mode.
    pub fn raw_mode(&self) -> (r: u8)
        ensures
            r == white_balance_code(*self),
    {
        match self {
            WhiteBalance::Auto => 0,
            WhiteBalance::StartupAuto => 1,
            WhiteBalance::Manual(_) => 2,
        }
    }
}

/// The horizontal resolution of the camera, in pixels.
pub const HORIZONTAL_RESOLUTION: u16 = 316u16;

/// The vertical resolution of the camera, in pixels.
pub const VERTICAL_RESOLUTION: u16 = 212u16;

/// Block type of an object found by a single signature.
pub const BLOCK_NORMAL: u32 = 0u32;

/// Block type of an object found by a color code.
pub const BLOCK_COLOR_CODE: u32 = 1u32;

/// Block type of an object found by line detection.
pub const BLOCK_LINE: u32 = 2u32;

/// A color signature as VEXos stores it; the signature's range is given as
/// `R`.
#[derive(Debug, Clone, Copy, PartialEq)]
pub struct VisionSignatureRecord<R> {
    /// The signature's id.
    pub id: u8,
    /// The signature's flags.
    pub flags: u8,
    /// Two bytes, the first of which VEXos sets when the record was read.
    pub pad: [u8; 2],
    /// The range scale factor.
    pub range: R,
    /// Least U value.
    pub u_min: i32,
    /// Greatest U value.
    pub u_max: i32,
    /// Mean U value.
    pub u_mean: i32,
    /// Least V value.
    pub v_min: i32,
    /// Greatest V value.
    pub v_max: i32,
    /// Mean V value.
    pub v_mean: i32,
    /// A packed color.
    pub rgb: u32,
    /// Whether the signature is used alone or in a color code.
    pub signature_type: u32,
}

/// A color signature: (min, max, mean) thresholds on the U and V chroma of
/// the Y'UV color space, a range scale factor given as `R`, and flags.
#[derive(Debug, PartialEq)]
pub struct VisionSignature<R> {
    /// The (min, max, mean) values on the U axis.
    pub u_threshold: (i32, i32, i32),
    /// The (min, max, mean) values on the V axis.
    pub v_threshold: (i32, i32, i32),
    /// The range scale factor.
    pub range: R,
    /// The signature's flags.
    pub flags: u8,
}

impl<R: Copy> Clone for VisionSignature<R> {
    /// A copy of the signature.
    fn clone(&self) -> (r: VisionSignature<R>)
        ensures
            r == *self,
    {
        *self
    }
}

impl<R: Copy> Copy for VisionSignature<R> {

}

impl<R> VisionSignature<R> {
    /// Creates a signature with no flags.
    pub fn new(u_threshold: (i32, i32, i32), v_threshold: (i32, i32, i32), range: R) -> (r: VisionSignature<R>)
        ensures
            r == (VisionSignature { u_threshold, v_threshold, range, flags: 0 }),
    {
        VisionSignature { u_threshold, v_threshold, range, flags: 0 }
    }

    /// Creates a signature from the values the vision utility gives; the id
    /// and the signature type are not kept (the type follows from the codes
    /// registered on the sensor).
    pub fn from_utility(
        id: u8,
        u_min: i32,
        u_max: i32,
        u_mean: i32,
        v_min: i32,
        v_max: i32,
        v_mean: i32,
        range: R,
        signature_type: u32,
    ) -> (r: VisionSignature<R>)
        ensures
            r == (VisionSignature {
                u_threshold: (u_min, u_max, u_mean),
                v_threshold: (v_min, v_max, v_mean),
                range,
                flags: 0,
            }),
    {
        VisionSignature { u_threshold: (u_min, u_max, u_mean), v_threshold: (v_min, v_max, v_mean), range, flags: 0 }
    }
}

/// The signature a stored record holds.
pub open spec fn signature_of_record<R>(r: VisionSignatureRecord<R>) -> VisionSignature<R> {
    VisionSignature {
        u_threshold: (r.u_min, r.u_max, r.u_mean),
        v_threshold: (r.v_min, r.v_max, r.v_mean),
        range: r.range,
        flags: r.flags,
    }
}

/// The record that stores signature `s` under `id` with type `t`; flags,
/// padding and color are left zero.
pub open spec fn record_of_signature<R>(id: u8, s: VisionSignature<R>, t: u32) -> VisionSignatureRecord<R> {
    VisionSignatureRecord {
        id,
        flags: 0,
        pad: [0u8, 0u8],
        range: s.range,
        u_min: s.u_threshold.0,
        u_max: s.u_threshold.1,
        u_mean: s.u_threshold.2,
        v_min: s.v_threshold.0,
        v_max: s.v_threshold.1,
        v_mean: s.v_threshold.2,
        rgb: 0,
        signature_type: t,
    }
}

/// A stored signature reads back: the record that stores `s` gives back its
/// thresholds and range, with its flags cleared, as stored records carry
/// none.
pub proof fn lemma_signature_record_roundtrip<R>(id: u8, s: VisionSignature<R>, t: u32)
    ensures
        signature_of_record(record_of_signature(id, s, t)) == (VisionSignature { flags: 0, ..s }),
{
}

/// Whether some code in `codes` holds signature `id`.
pub open spec fn code_registered(codes: Seq<VisionCode>, id: u8) -> bool {
    exists|i: int| 0 <= i < codes.len() && code_contains(#[trigger] codes[i], id)
}

/// The outcome of reading a stored signature: nothing when VEXos could not
/// read it, a failure when the record's first padding byte is zero (the
/// sensor sent no data), the record otherwise.
pub open spec fn read_outcome<R>(read: bool, raw: VisionSignatureRecord<R>) -> Result<
    Option<VisionSignatureRecord<R>>,
    VisionSignatureError,
> {
    if !read {
        Ok(None)
    } else if raw.pad[0] == 0 {
        Err(VisionSignatureError::ReadingFailed)
    } else {
        Ok(Some(raw))
    }
}

/// The red, green, blue and brightness of a vision sensor color.
#[derive(Debug, Clone, Copy, PartialEq, Eq, Default, Structural)]
pub struct VisionRgb {
    /// Red.
    pub red: u8,
    /// Green.
    pub green: u8,
    /// Blue.
    pub blue: u8,
    /// Brightness.
    pub brightness: u8,
}

/// How the sensor's LED is driven.
#[derive(Debug, Clone, Copy, PartialEq, Eq, Default, Structural)]
pub enum LedMode {
    /// The LED shows the most prominent color detected.
    #[default]
    Auto,
    /// The LED shows a color, at a brightness in percent.
    Manual(Color, u8),
}

/// The raw VEXos code of a detection mode; Wi-Fi mode has none.
pub open spec fn vision_mode_code(m: VisionMode) -> Option<u8> {
    match m {
        VisionMode::ColorDetection => Some(0u8),
        VisionMode::MixedDetection => Some(1u8),
        VisionMode::LineDetection => Some(2u8),
        VisionMode::Test => Some(3u8),
        VisionMode::Wifi => None,
    }
}

/// The detection mode raw VEXos code `raw` (0 to 3) stands for.
pub open spec fn vision_mode_of(raw: u8) -> VisionMode {
    if raw == 0 {
        VisionMode::ColorDetection
    } else if raw == 1 {
        VisionMode::MixedDetection
    } else if raw == 2 {
        VisionMode::LineDetection
    } else {
        VisionMode::Test
    }
}

/// Errors of reading or writing signatures.
#[derive(Debug, Clone, Copy, PartialEq, Eq, Structural)]
pub enum VisionSignatureError {
    /// The sensor sent no signature data.
    ReadingFailed,
    /// The sensor is not on its port.
    Port {
        /// What is wrong with the port.
        source: PortError,
    },
}

/// Errors of reading detected objects.
#[derive(Debug, Clone, Copy, PartialEq, Eq, Structural)]
pub enum VisionObjectError {
    /// Objects cannot be read while the sensor streams over Wi-Fi.
    WifiMode,
    /// VEXos failed to report an object.
    InvalidObject,
    /// The sensor is not on its port.
    Port {
        /// What is wrong with the port.
        source: PortError,
    },
}

/// The outcome of a request on the sensor on Smart port `port` whose status
/// code is `raw`, yielding `value` when the sensor is present.
pub open spec fn vision_outcome<T>(port: u8, raw: u8, value: T) -> Result<T, PortError> {
    match port_check(port, SmartDeviceType::Vision, raw) {
        Ok(()) => Ok(value),
        Err(e) => Err(e),
    }
}

/// A one-element sequence for a present signature, empty for an absent one.
pub open spec fn opt_seq(o: Option<u8>) -> Seq<u8> {
    match o {
        Some(s) => seq![s],
        None => Seq::empty(),
    }
}

/// The signature ids of code `c`, in order: the two required ones, then the
/// optional ones that are present.
pub open spec fn code_signatures(c: VisionCode) -> Seq<u8> {
    seq![c.0, c.1] + opt_seq(c.2) + opt_seq(c.3) + opt_seq(c.4)
}

/// Whether a signature read can be retyped: VEXos read it and it carries
/// data.
pub open spec fn retypable<R>(read: bool, raw: VisionSignatureRecord<R>) -> bool {
    read && raw.pad[0] != 0
}

/// Record `raw` with its type set to `t`.
pub open spec fn with_type<R>(raw: VisionSignatureRecord<R>, t: u32) -> VisionSignatureRecord<R> {
    VisionSignatureRecord {
        id: raw.id,
        flags: raw.flags,
        pad: raw.pad,
        range: raw.range,
        u_min: raw.u_min,
        u_max: raw.u_max,
        u_mean: raw.u_mean,
        v_min: raw.v_min,
        v_max: raw.v_max,
        v_mean: raw.v_mean,
        rgb: raw.rgb,
        signature_type: t,
    }
}

/// An object as VEXos reports it.
#[derive(Debug, Clone, Copy, PartialEq, Eq, Default, Structural)]
pub struct VisionObjectRecord {
    /// The signature, or the code's id, that found the object.
    pub signature: u16,
    /// How the object was found: 0 by a signature, 1 by a code, 2 by line
    /// detection.
    pub block_type: u8,
    /// The left edge.
    pub xoffset: u16,
    /// The top edge.
    pub yoffset: u16,
    /// The width.
    pub width: u16,
    /// The height.
    pub height: u16,
    /// The angle of a code object, in tenths of a degree.
    pub angle: u16,
}

/// An object the sensor detected.
#[derive(Debug, Clone, Copy, PartialEq, Eq, Structural)]
pub struct VisionObject {
    /// How the object was found.
    pub source: DetectionSource,
    /// The width.
    pub width: u16,
    /// The height.
    pub height: u16,
    /// The top left corner.
    pub offset: Point2<u16>,
    /// The center.
    pub center: Point2<u16>,
    /// The angle of a code object, in tenths of a degree.
    pub angle: u16,
}

/// Whether a record stands for an object: a known block type, and a center
/// that fits in 16 bits.
pub open spec fn record_valid(r: VisionObjectRecord) -> bool {
    &&& r.block_type < 3
    &&& r.xoffset + r.width / 2 <= u16::MAX
    &&& r.yoffset + r.height / 2 <= u16::MAX
}

/// The object a valid record stands for.
pub open spec fn object_of_record(r: VisionObjectRecord) -> VisionObject {
    VisionObject {
        source: if r.block_type == 1 {
            DetectionSource::Code(code_of_id(r.signature))
        } else if r.block_type == 0 {
            DetectionSource::Signature(r.signature as u8)
        } else {
            DetectionSource::Line
        },
        width: r.width,
        height: r.height,
        offset: Point2 { x: r.xoffset, y: r.yoffset },
        center: Point2 { x: (r.xoffset + r.width / 2) as u16, y: (r.yoffset + r.height / 2) as u16 },
        angle: r.angle,
    }
}

/// An object decoded from a valid record keeps the record's size, top left
/// corner and angle; its center lies half its size right of and below that
/// corner; and it is found by the record's signature (block type 0), by the
/// color code whose id the record carries (block type 1), or by line
/// detection (block type 2).
pub proof fn lemma_object_of_record(r: VisionObjectRecord)
    requires
        record_valid(r),
    ensures
        object_of_record(r).width == r.width,
        object_of_record(r).height == r.height,
        object_of_record(r).offset == (Point2 { x: r.xoffset, y: r.yoffset }),
        object_of_record(r).angle == r.angle,
        object_of_record(r).center.x == object_of_record(r).offset.x + object_of_record(r).width / 2,
        object_of_record(r).center.y == object_of_record(r).offset.y + object_of_record(r).height
            / 2,
        r.block_type == 0 ==> object_of_record(r).source == DetectionSource::Signature(
            r.signature as u8,
        ),
        r.block_type == 1 ==> (object_of_record(r).source matches DetectionSource::Code(c) && code_id(
            c,
        ) == r.signature & 0x7fffu16),
        r.block_type == 2 ==> object_of_record(r).source == DetectionSource::Line,
{
    lemma_id_of_code_of_id(r.signature);
}

/// Whether an object is reported: objects found by a code only when that
/// code is registered.
pub open spec fn object_kept(codes: Seq<VisionCode>, o: VisionObject) -> bool {
    match o.source {
        DetectionSource::Code(c) => codes.contains(c),
        _ => true,
    }
}

/// Whether VEXos reported every object up to and including the `i`-th.
pub open spec fn reached(recs: Seq<(i32, VisionObjectRecord)>, i: int) -> bool {
    forall|j: int| 0 <= j <= i ==> (#[trigger] recs[j]).0 != 0
}

/// The objects reported for the results `recs` of VEXos's object reads (a
/// zero result is a failed read), with codes `codes` registered.
pub open spec fn objects_list(codes: Seq<VisionCode>, recs: Seq<(i32, VisionObjectRecord)>) -> Result<
    Seq<VisionObject>,
    VisionObjectError,
>
    decreases recs.len(),
{
    if recs.len() == 0 {
        Ok(Seq::empty())
    } else {
        match objects_list(codes, recs.drop_last()) {
            Err(e) => Err(e),
            Ok(v) => if recs.last().0 == 0 {
                Err(VisionObjectError::InvalidObject)
            } else {
                let o = object_of_record(recs.last().1);
                if object_kept(codes, o) {
                    Ok(v.push(o))
                } else {
                    Ok(v)
                }
            },
        }
    }
}

/// Objects found by a code are reported exactly when the code is registered:
/// once a code is added to the registered codes, objects found by it are
/// kept, while objects found by a code never registered are left out.
/// Objects found by a single signature or by line detection are always kept.
pub proof fn lemma_registered_code_objects(codes: Seq<VisionCode>, code: VisionCode, o: VisionObject)
    ensures
        o.source == DetectionSource::Code(code) ==> object_kept(codes.push(code), o),
        o.source == DetectionSource::Code(code) && !codes.contains(code) ==> !object_kept(codes, o),
        !(o.source is Code) ==> object_kept(codes, o),
{
    if o.source == DetectionSource::Code(code) {
        assert(codes.push(code)[codes.len() as int] == code);
    }
}

/// Every object reported is decoded from one of the records, read
/// successfully, and is one that is kept; no more objects come out than
/// records went in, and none is reported once a read failed.
pub proof fn lemma_objects_from_records(codes: Seq<VisionCode>, recs: Seq<(i32, VisionObjectRecord)>)
    ensures
        objects_list(codes, recs) matches Ok(v) ==> {
            &&& v.len() <= recs.len()
            &&& forall|j: int| 0 <= j < recs.len() ==> (#[trigger] recs[j]).0 != 0
            &&& forall|i: int|
                0 <= i < v.len() ==> object_kept(codes, #[trigger] v[i]) && exists|j: int|
                    0 <= j < recs.len() && v[i] == object_of_record(#[trigger] recs[j].1)
        },
    decreases recs.len(),
{
    if recs.len() > 0 {
        let pre = recs.drop_last();
        lemma_objects_from_records(codes, pre);
        if let Ok(v) = objects_list(codes, recs) {
            let w = objects_list(codes, pre)->Ok_0;
            let last = recs.len() - 1;
            assert forall|j: int| 0 <= j < recs.len() implies (#[trigger] recs[j]).0 != 0 by {
                if j < pre.len() {
                    assert(recs[j] == pre[j]);
                }
            }
            assert forall|i: int| 0 <= i < v.len() implies object_kept(codes, #[trigger] v[i])
                && exists|j: int| 0 <= j < recs.len() && v[i] == object_of_record(#[trigger] recs[j].1) by {
                if i < w.len() {
                    assert(v[i] == w[i]);
                    let j = choose|j: int| 0 <= j < pre.len() && w[i] == object_of_record(#[trigger] pre[j].1);
                    assert(recs[j] == pre[j]);
                } else {
                    assert(v[i] == object_of_record(recs[last].1));
                }
            }
        }
    }
}

proof fn lemma_objects_list_err(
    codes: Seq<VisionCode>,
    recs: Seq<(i32, VisionObjectRecord)>,
    k: int,
    e: VisionObjectError,
)
    requires
        0 <= k <= recs.len(),
        objects_list(codes, recs.take(k)) == Err::<Seq<VisionObject>, VisionObjectError>(e),
    ensures
        objects_list(codes, recs) == Err::<Seq<VisionObject>, VisionObjectError>(e),
    decreases recs.len() - k,
{
    if k < recs.len() {
        assert(recs.take(k + 1).drop_last() =~= recs.take(k));
        lemma_objects_list_err(codes, recs, k + 1, e);
    } else {
        assert(recs.take(k) =~= recs);
    }
}

/// A vision sensor on a Smart port, with the color codes registered on it.
#[derive(Debug, PartialEq, Eq)]
pub struct VisionSensor {
    port: SmartPort,
    codes: Vec<VisionCode>,
}

impl VisionSensor {
    /// The Smart port the sensor is plugged into.
    pub closed spec fn port_spec(&self) -> u8 {
        self.port@
    }

    /// The codes registered on the sensor, in order.
    pub closed spec fn codes_spec(&self) -> Seq<VisionCode> {
        self.codes@
    }

    /// Creates a sensor on `port` with no codes registered.
    pub fn new(port: SmartPort) -> (r: VisionSensor)
        ensures
            r.port_spec() == port@,
            r.codes_spec() == Seq::<VisionCode>::empty(),
    {
        VisionSensor { port, codes: Vec::new() }
    }

    /// Whether some registered code holds signature `id`.
    fn any_code_contains(&self, id: u8) -> (r: bool)
        ensures
            r == code_registered(self.codes_spec(), id),
    {
        let mut i: usize = 0;
        while i < self.codes.len()
            invariant
                i <= self.codes@.len(),
                forall|j: int| 0 <= j < i ==> !code_contains(#[trigger] self.codes@[j], id),
            decreases self.codes@.len() - i,
        {
            if self.codes[i].contains_signature(id) {
                return true;
            }
            i = i + 1;
        }
        false
    }

    /// Stores signature `signature` under `id`, given the status code of the
    /// sensor's Smart port; on success gives the record to write, typed as
    /// part of a color code when a registered code holds `id`.
    ///
    /// Ids outside 1 to 7 are refused by `requires`.
    pub fn set_signature<R: Copy>(&mut self, id: u8, signature: VisionSignature<R>, raw_status: u8) -> (r: Result<
        VisionSignatureRecord<R>,
        PortError,
    >)
        requires
            1 <= id <= 7,
        ensures
            *final(self) == *old(self),
            r == vision_outcome(
                old(self).port_spec(),
                raw_status,
                record_of_signature(
                    id,
                    signature,
                    if code_registered(old(self).codes_spec(), id) {
                        BLOCK_COLOR_CODE
                    } else {
                        BLOCK_NORMAL
                    },
                ),
            ),
    {
        if let Err(e) = validate_port(self.port.number(), SmartDeviceType::Vision, raw_status) {
            return Err(e);
        }
        let t: u32 = if self.any_code_contains(id) {
            BLOCK_COLOR_CODE
        } else {
            BLOCK_NORMAL
        };
        Ok(
            VisionSignatureRecord {
                id,
                flags: 0,
                pad: [0u8, 0u8],
                range: signature.range,
                u_min: signature.u_threshold.0,
                u_max: signature.u_threshold.1,
                u_mean: signature.u_threshold.2,
                v_min: signature.v_threshold.0,
                v_max: signature.v_threshold.1,
                v_mean: signature.v_threshold.2,
                rgb: 0,
                signature_type: t,
            },
        )
    }

    /// Checks a stored signature VEXos read: `read` tells whether it could,
    /// `raw` is the record.
    fn read_raw_signature<R: Copy>(&self, id: u8, read: bool, raw: VisionSignatureRecord<R>) -> (r: Result<
        Option<VisionSignatureRecord<R>>,
        VisionSignatureError,
    >)
        requires
            1 <= id <= 7,
        ensures
            r == read_outcome(read, raw),
    {
        if !read {
            return Ok(None);
        }
        if raw.pad[0] == 0 {
            return Err(VisionSignatureError::ReadingFailed);
        }
        Ok(Some(raw))
    }

    /// The signature stored under `id`, given the status code of the
    /// sensor's Smart port, whether VEXos could read it and the record it
    /// read.
    ///
    /// Ids outside 1 to 7 are refused by `requires`.
    pub fn signature<R: Copy>(&self, id: u8, raw_status: u8, read: bool, raw: VisionSignatureRecord<R>) -> (r:
        Result<Option<VisionSignature<R>>, VisionSignatureError>)
        requires
            1 <= id <= 7,
        ensures
            r == match port_check(self.port_spec(), SmartDeviceType::Vision, raw_status) {
                Err(e) => Err(VisionSignatureError::Port { source: e }),
                Ok(()) => match read_outcome(read, raw) {
                    Ok(Some(rec)) => Ok(Some(signature_of_record(rec))),
                    Ok(None) => Ok(None),
                    Err(e) => Err(e),
                },
            },
    {
        if let Err(e) = validate_port(self.port.number(), SmartDeviceType::Vision, raw_status) {
            return Err(VisionSignatureError::Port { source: e });
        }
        match self.read_raw_signature(id, read, raw) {
            Ok(Some(rec)) => Ok(
                Some(
                    VisionSignature {
                        u_threshold: (rec.u_min, rec.u_max, rec.u_mean),
                        v_threshold: (rec.v_min, rec.v_max, rec.v_mean),
                        range: rec.range,
                        flags: rec.flags,
                    },
                ),
            ),
            Ok(None) => Ok(None),
            Err(e) => Err(e),
        }
    }

    /// Every stored signature, under ids 1 to 7 in order, given the status
    /// code of the sensor's Smart port and, for each id, whether VEXos could
    /// read it and the record it read. The first failed reading fails the
    /// whole.
    pub fn signatures<R: Copy>(&self, raw_status: u8, reads: [bool; 7], raws: [VisionSignatureRecord<R>; 7]) -> (r:
        Result<[Option<VisionSignature<R>>; 7], VisionSignatureError>)
        ensures
            match port_check(self.port_spec(), SmartDeviceType::Vision, raw_status) {
                Err(e) => r == Err::<[Option<VisionSignature<R>>; 7], VisionSignatureError>(
                    VisionSignatureError::Port { source: e },
                ),
                Ok(()) => if exists|i: int| 0 <= i < 7 && #[trigger] read_outcome(reads@[i], raws@[i]) is Err {
                    r == Err::<[Option<VisionSignature<R>>; 7], VisionSignatureError>(
                        VisionSignatureError::ReadingFailed,
                    )
                } else {
                    r matches Ok(sigs) && forall|i: int|
                        0 <= i < 7 ==> #[trigger] sigs@[i] == if reads@[i] {
                            Some(signature_of_record(raws@[i]))
                        } else {
                            None::<VisionSignature<R>>
                        }
                },
            },
    {
        if let Err(e) = validate_port(self.port.number(), SmartDeviceType::Vision, raw_status) {
            return Err(VisionSignatureError::Port { source: e });
        }
        let mut sigs: [Option<VisionSignature<R>>; 7] = [None; 7];
        let mut i: usize = 0;
        while i < 7
            invariant
                i <= 7,
                sigs@.len() == 7,
                port_check(self.port_spec(), SmartDeviceType::Vision, raw_status) is Ok,
                forall|j: int| 0 <= j < i ==> #[trigger] read_outcome(reads@[j], raws@[j]) is Ok,
                forall|j: int|
                    0 <= j < i ==> #[trigger] sigs@[j] == if reads@[j] {
                        Some(signature_of_record(raws@[j]))
                    } else {
                        None::<VisionSignature<R>>
                    },
            decreases 7 - i,
        {
            let id: u8 = (i + 1) as u8;
            match self.signature(id, raw_status, reads[i], raws[i]) {
                Ok(s) => {
                    sigs[i] = s;
                },
                Err(e) => {
                    assert(read_outcome(reads@[i as int], raws@[i as int]) is Err);
                    return Err(e);
                },
            }
            i = i + 1;
        }
        Ok(sigs)
    }

    /// Registers color code `code`, given the status code of the sensor's
    /// Smart port and, for each of the code's signatures in order, whether
    /// VEXos could read it and the record it read. Each signature, in order,
    /// is retyped as part of a color code: the first element of the result
    /// gives the records to write back, in order. A signature that cannot be
    /// read stops the registration with [`VisionSignatureError::ReadingFailed`],
    /// the records before it still written; only a complete registration
    /// adds the code.
    ///
    /// Signature ids outside 1 to 7 are refused by `requires`.
    pub fn add_code<R: Copy>(
        &mut self,
        code: VisionCode,
        raw_status: u8,
        reads: &[(bool, VisionSignatureRecord<R>)],
    ) -> (r: (Vec<VisionSignatureRecord<R>>, Result<(), VisionSignatureError>))
        requires
            reads@.len() == code_signatures(code).len(),
            forall|k: int| 0 <= k < code_signatures(code).len() ==> 1 <= #[trigger] code_signatures(code)[k] <= 7,
        ensures
            final(self).port_spec() == old(self).port_spec(),
            match port_check(old(self).port_spec(), SmartDeviceType::Vision, raw_status) {
                Err(e) => r.0@.len() == 0 && r.1 == Err::<(), VisionSignatureError>(
                    VisionSignatureError::Port { source: e },
                ) && final(self).codes_spec() == old(self).codes_spec(),
                Ok(()) => {
                    &&& r.0@.len() <= reads@.len()
                    &&& forall|k: int|
                        0 <= k < r.0@.len() ==> retypable(reads@[k].0, reads@[k].1) && #[trigger] r.0@[k]
                            == with_type(reads@[k].1, BLOCK_COLOR_CODE)
                    &&& r.1 is Ok ==> r.0@.len() == reads@.len() && final(self).codes_spec()
                        == old(self).codes_spec().push(code)
                    &&& r.1 is Err ==> r.1 == Err::<(), VisionSignatureError>(
                        VisionSignatureError::ReadingFailed,
                    ) && r.0@.len() < reads@.len() && !retypable(
                        reads@[r.0@.len() as int].0,
                        reads@[r.0@.len() as int].1,
                    ) && final(self).codes_spec() == old(self).codes_spec()
                },
            },
    {
        let mut writes: Vec<VisionSignatureRecord<R>> = Vec::new();
        if let Err(e) = validate_port(self.port.number(), SmartDeviceType::Vision, raw_status) {
            return (writes, Err(VisionSignatureError::Port { source: e }));
        }
        let mut sigs: Vec<u8> = Vec::new();
        sigs.push(code.0);
        sigs.push(code.1);
        if let Some(s3) = code.2 {
            sigs.push(s3);
        }
        if let Some(s4) = code.3 {
            sigs.push(s4);
        }
        if let Some(s5) = code.4 {
            sigs.push(s5);
        }
        assert(sigs@ =~= code_signatures(code));
        let mut k: usize = 0;
        while k < reads.len()
            invariant
                k <= reads@.len(),
                reads@.len() == sigs@.len(),
                sigs@ == code_signatures(code),
                forall|j: int| 0 <= j < sigs@.len() ==> 1 <= #[trigger] sigs@[j] <= 7,
                writes@.len() == k,
                forall|j: int| 0 <= j < k ==> #[trigger] retypable(reads@[j].0, reads@[j].1),
                forall|j: int| 0 <= j < k ==> #[trigger] writes@[j] == with_type(reads@[j].1, BLOCK_COLOR_CODE),
                self.port_spec() == old(self).port_spec(),
                self.codes_spec() == old(self).codes_spec(),
                port_check(old(self).port_spec(), SmartDeviceType::Vision, raw_status) is Ok,
            decreases reads@.len() - k,
        {
            let (read, raw) = reads[k];
            assert(read == reads@[k as int].0 && raw == reads@[k as int].1);
            let got = self.read_raw_signature(sigs[k], read, raw);
            match got {
                Ok(Some(rec)) => {
                    let mut rec = rec;
                    rec.signature_type = BLOCK_COLOR_CODE;
                    assert(rec == with_type(raw, BLOCK_COLOR_CODE));
                    assert(retypable(reads@[k as int].0, reads@[k as int].1));
                    writes.push(rec);
                },
                _ => {
                    return (writes, Err(VisionSignatureError::ReadingFailed));
                },
            }
            k = k + 1;
        }
        self.codes.push(code);
        (writes, Ok(()))
    }

    /// Whether code `code` is registered.
    fn has_code(&self, code: VisionCode) -> (r: bool)
        ensures
            r == self.codes_spec().contains(code),
    {
        let mut i: usize = 0;
        while i < self.codes.len()
            invariant
                i <= self.codes@.len(),
                forall|j: int| 0 <= j < i ==> #[trigger] self.codes@[j] != code,
            decreases self.codes@.len() - i,
        {
            if self.codes[i] == code {
                assert(self.codes@[i as int] == code);
                return true;
            }
            i = i + 1;
        }
        false
    }

    /// The object a valid record stands for.
    fn object_from_record(r: VisionObjectRecord) -> (o: VisionObject)
        requires
            record_valid(r),
        ensures
            o == object_of_record(r),
    {
        let source = if r.block_type == 1 {
            DetectionSource::Code(VisionCode::from_id(r.signature))
        } else if r.block_type == 0 {
            DetectionSource::Signature(r.signature as u8)
        } else {
            DetectionSource::Line
        };
        VisionObject {
            source,
            width: r.width,
            height: r.height,
            offset: Point2 { x: r.xoffset, y: r.yoffset },
            center: Point2 { x: r.xoffset + r.width / 2, y: r.yoffset + r.height / 2 },
            angle: r.angle,
        }
    }

    /// The objects the sensor detects, given the status code of its Smart
    /// port, whether VEXos reports its Wi-Fi on, the mode code it reports,
    /// and, for each object in order, the result of reading it (zero for a
    /// failed read) and the record read. Objects found by a code that is not
    /// registered are left out.
    ///
    /// A mode code other than 0 to 3 read with Wi-Fi off, and a record that
    /// stands for no object (see [`record_valid`]) among those read before
    /// any failed read, are refused by `requires`.
    pub fn objects(
        &self,
        raw_status: u8,
        wifi: bool,
        raw_mode: u8,
        records: &[(i32, VisionObjectRecord)],
    ) -> (r: Result<Vec<VisionObject>, VisionObjectError>)
        requires
            port_check(self.port_spec(), SmartDeviceType::Vision, raw_status) is Ok && !wifi ==> raw_mode < 4,
            forall|i: int| 0 <= i < records@.len() && reached(records@, i) ==> record_valid(#[trigger] records@[i].1),
        ensures
            match port_check(self.port_spec(), SmartDeviceType::Vision, raw_status) {
                Err(e) => r == Err::<Vec<VisionObject>, VisionObjectError>(VisionObjectError::Port { source: e }),
                Ok(()) => if wifi {
                    r == Err::<Vec<VisionObject>, VisionObjectError>(VisionObjectError::WifiMode)
                } else {
                    match objects_list(self.codes_spec(), records@) {
                        Ok(v) => r matches Ok(objects) && objects@ == v,
                        Err(e) => r == Err::<Vec<VisionObject>, VisionObjectError>(e),
                    }
                },
            },
    {
        let mode = match self.mode(raw_status, wifi, raw_mode) {
            Ok(m) => m,
            Err(e) => {
                return Err(VisionObjectError::Port { source: e });
            },
        };
        if let VisionMode::Wifi = mode {
            return Err(VisionObjectError::WifiMode);
        }
        let mut objects: Vec<VisionObject> = Vec::new();
        let mut i: usize = 0;
        while i < records.len()
            invariant
                i <= records@.len(),
                !wifi,
                port_check(self.port_spec(), SmartDeviceType::Vision, raw_status) is Ok,
                forall|j: int| 0 <= j < i ==> (#[trigger] records@[j]).0 != 0,
                forall|j: int| 0 <= j < records@.len() && reached(records@, j) ==> record_valid(#[trigger] records@[j].1),
                objects_list(self.codes_spec(), records@.take(i as int)) == Ok::<
                    Seq<VisionObject>,
                    VisionObjectError,
                >(objects@),
            decreases records@.len() - i,
        {
            let (got, rec) = records[i];
            proof {
                assert(records@.take(i + 1).drop_last() =~= records@.take(i as int));
                assert(records@.take(i + 1).last() == records@[i as int]);
            }
            if got == 0 {
                proof {
                    lemma_objects_list_err(
                        self.codes_spec(),
                        records@,
                        i as int + 1,
                        VisionObjectError::InvalidObject,
                    );
                }
                return Err(VisionObjectError::InvalidObject);
            }
            assert(reached(records@, i as int));
            let object = Self::object_from_record(rec);
            let keep = match object.source {
                DetectionSource::Code(c) => self.has_code(c),
                _ => true,
            };
            if keep {
                objects.push(object);
            }
            i = i + 1;
        }
        assert(records@.take(records@.len() as int) =~= records@);
        Ok(objects)
    }

    /// The number of objects [`VisionSensor::objects`] reports, for the same
    /// readings.
    pub fn object_count(
        &self,
        raw_status: u8,
        wifi: bool,
        raw_mode: u8,
        records: &[(i32, VisionObjectRecord)],
    ) -> (r: Result<usize, VisionObjectError>)
        requires
            port_check(self.port_spec(), SmartDeviceType::Vision, raw_status) is Ok && !wifi ==> raw_mode < 4,
            forall|i: int| 0 <= i < records@.len() && reached(records@, i) ==> record_valid(#[trigger] records@[i].1),
        ensures
            match port_check(self.port_spec(), SmartDeviceType::Vision, raw_status) {
                Err(e) => r == Err::<usize, VisionObjectError>(VisionObjectError::Port { source: e }),
                Ok(()) => if wifi {
                    r == Err::<usize, VisionObjectError>(VisionObjectError::WifiMode)
                } else {
                    match objects_list(self.codes_spec(), records@) {
                        Ok(v) => r == Ok::<usize, VisionObjectError>(v.len() as usize),
                        Err(e) => r == Err::<usize, VisionObjectError>(e),
                    }
                },
            },
    {
        match self.objects(raw_status, wifi, raw_mode, records) {
            Ok(v) => Ok(v.len()),
            Err(e) => Err(e),
        }
    }

    /// The sensor's detection mode, given the status code of its Smart port,
    /// whether VEXos reports its Wi-Fi on, and the mode code it reports.
    ///
    /// A mode code other than 0 to 3, read when Wi-Fi is off, is refused by
    /// `requires`.
    pub fn mode(&self, raw_status: u8, wifi: bool, raw_mode: u8) -> (r: Result<VisionMode, PortError>)
        requires
            port_check(self.port_spec(), SmartDeviceType::Vision, raw_status) is Ok && !wifi ==> raw_mode < 4,
        ensures
            r == vision_outcome(
                self.port_spec(),
                raw_status,
                if wifi {
                    VisionMode::Wifi
                } else {
                    vision_mode_of(raw_mode)
                },
            ),
    {
        if let Err(e) = validate_port(self.port.number(), SmartDeviceType::Vision, raw_status) {
            return Err(e);
        }
        if wifi {
            return Ok(VisionMode::Wifi);
        }
        Ok(
            if raw_mode == 0 {
                VisionMode::ColorDetection
            } else if raw_mode == 1 {
                VisionMode::MixedDetection
            } else if raw_mode == 2 {
                VisionMode::LineDetection
            } else {
                VisionMode::Test
            },
        )
    }

    /// Sets the sensor's detection mode, given the status code of its Smart
    /// port; on success gives whether Wi-Fi is to be turned on, and the mode
    /// code to write next (none for Wi-Fi mode).
    pub fn set_mode(&mut self, mode: VisionMode, raw_status: u8) -> (r: Result<(bool, Option<u8>), PortError>)
        ensures
            *final(self) == *old(self),
            r == vision_outcome(old(self).port_spec(), raw_status, (mode == VisionMode::Wifi, vision_mode_code(mode))),
    {
        if let Err(e) = validate_port(self.port.number(), SmartDeviceType::Vision, raw_status) {
            return Err(e);
        }
        let code: Option<u8> = match mode {
            VisionMode::ColorDetection => Some(0u8),
            VisionMode::MixedDetection => Some(1u8),
            VisionMode::LineDetection => Some(2u8),
            VisionMode::Test => Some(3u8),
            VisionMode::Wifi => None,
        };
        let wifi = match mode {
            VisionMode::Wifi => true,
            _ => false,
        };
        Ok((wifi, code))
    }

    /// How the sensor's LED is driven, given the status code of its Smart
    /// port, the LED mode code VEXos reports and the LED color it reports.
    ///
    /// A mode code other than 0 (auto) and 1 (manual) is refused by
    /// `requires`.
    pub fn led_mode(&self, raw_status: u8, raw_mode: u8, raw_color: VisionRgb) -> (r: Result<LedMode, PortError>)
        requires
            port_check(self.port_spec(), SmartDeviceType::Vision, raw_status) is Ok ==> raw_mode < 2,
        ensures
            match r {
                Ok(m) => port_check(self.port_spec(), SmartDeviceType::Vision, raw_status) is Ok && match m {
                    LedMode::Auto => raw_mode == 0,
                    LedMode::Manual(c, b) => raw_mode == 1 && c@ == (raw_color.blue, raw_color.green, raw_color.red, 0u8)
                        && b == raw_color.brightness,
                },
                Err(e) => vision_outcome(self.port_spec(), raw_status, ()) == Err::<(), PortError>(e),
            },
    {
        if let Err(e) = validate_port(self.port.number(), SmartDeviceType::Vision, raw_status) {
            return Err(e);
        }
        if raw_mode == 0 {
            Ok(LedMode::Auto)
        } else {
            Ok(LedMode::Manual(Color::new(raw_color.red, raw_color.green, raw_color.blue), raw_color.brightness))
        }
    }

    /// Sets how the sensor's LED is driven, given the status code of its
    /// Smart port; on success gives the LED mode code to write and, in manual
    /// mode, the color and brightness to write next.
    pub fn set_led_mode(&mut self, mode: LedMode, raw_status: u8) -> (r: Result<(u8, Option<VisionRgb>), PortError>)
        ensures
            *final(self) == *old(self),
            r == vision_outcome(
                old(self).port_spec(),
                raw_status,
                match mode {
                    LedMode::Auto => (0u8, None::<VisionRgb>),
                    LedMode::Manual(c, b) => (
                        1u8,
                        Some(VisionRgb { red: c@.2, green: c@.1, blue: c@.0, brightness: b }),
                    ),
                },
            ),
    {
        if let Err(e) = validate_port(self.port.number(), SmartDeviceType::Vision, raw_status) {
            return Err(e);
        }
        match mode {
            LedMode::Auto => Ok((0u8, None)),
            LedMode::Manual(c, b) => Ok(
                (1u8, Some(VisionRgb { red: c.red(), green: c.green(), blue: c.blue(), brightness: b })),
            ),
        }
    }

    /// The camera's white balance, given the status code of the sensor's
    /// Smart port, the white balance mode code VEXos reports and the balance
    /// color it reports.
    ///
    /// A mode code other than 0 to 2 is refused by `requires`.
    pub fn white_balance(&self, raw_status: u8, raw_mode: u8, raw_color: VisionRgb) -> (r: Result<
        WhiteBalance,
        PortError,
    >)
        requires
            port_check(self.port_spec(), SmartDeviceType::Vision, raw_status) is Ok ==> raw_mode < 3,
        ensures
            match r {
                Ok(w) => port_check(self.port_spec(), SmartDeviceType::Vision, raw_status) is Ok
                    && white_balance_code(w) == raw_mode && (w matches WhiteBalance::Manual(c) ==> c@ == (
                    raw_color.blue,
                    raw_color.green,
                    raw_color.red,
                    0u8,
                )),
                Err(e) => vision_outcome(self.port_spec(), raw_status, ()) == Err::<(), PortError>(e),
            },
    {
        if let Err(e) = validate_port(self.port.number(), SmartDeviceType::Vision, raw_status) {
            return Err(e);
        }
        if raw_mode == 0 {
            Ok(WhiteBalance::Auto)
        } else if raw_mode == 1 {
            Ok(WhiteBalance::StartupAuto)
        } else {
            Ok(WhiteBalance::Manual(Color::new(raw_color.red, raw_color.green, raw_color.blue)))
        }
    }

    /// Sets the camera's white balance, given the status code of the sensor's
    /// Smart port; on success gives the mode code to write and, for a manual
    /// balance, the color to write next (at brightness 255).
    pub fn set_white_balance(&mut self, white_balance: WhiteBalance, raw_status: u8) -> (r: Result<
        (u8, Option<VisionRgb>),
        PortError,
    >)
        ensures
            *final(self) == *old(self),
            r == vision_outcome(
                old(self).port_spec(),
                raw_status,
                (
                    white_balance_code(white_balance),
                    match white_balance {
                        WhiteBalance::Manual(c) => Some(
                            VisionRgb { red: c@.2, green: c@.1, blue: c@.0, brightness: 255u8 },
                        ),
                        _ => None::<VisionRgb>,
                    },
                ),
            ),
    {
        if let Err(e) = validate_port(self.port.number(), SmartDeviceType::Vision, raw_status) {
            return Err(e);
        }
        let code = white_balance.raw_mode();
        match white_balance {
            WhiteBalance::Manual(c) => Ok(
                (code, Some(VisionRgb { red: c.red(), green: c.green(), blue: c.blue(), brightness: 255u8 })),
            ),
            _ => Ok((code, None)),
        }
    }
}

impl SmartDevice for VisionSensor {
    fn port_number(&self) -> (r: u8)
        ensures
            r == self.port_spec(),
    {
        self.port.number()
    }

    fn device_type(&self) -> (r: SmartDeviceType)
        ensures
            r == SmartDeviceType::Vision,
    {
        SmartDeviceType::Vision
    }
}

} // verus!
