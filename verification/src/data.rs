//! Data types for the GBA's MMIO and such.
//!
//! These data types can be used on any machine, not just the GBA: they hold
//! and take apart raw register values and touch no hardware.

pub mod display;
pub mod dma;
pub mod irq;
pub mod keypad;
pub mod sound;
pub mod timers;

pub use self::display::{
    BackgroundControl, BlendAlpha, BlendBrightness, BlendControl, Color, ColorSpecialEffect,
    DisplayControl, DisplayMode, DisplayStatus, FP_I_19_8, FP_I_7_8, Mosaic, WindowHorizontal,
    WindowIn, WindowOut, WindowVertical,
};
pub use self::dma::{DMAControl, DestAddressControl, SourceAddressControl, StartTiming};
pub use self::irq::{InterruptEnable, InterruptRequestFlags};
pub use self::keypad::{KeyControl, KeyInput};
pub use self::sound::{
    DMAMixer, DutyLenEnvelope, LengthEnvelope, NoiseFrequencyControl, NonDMASoundVolume,
    PulseDutyPattern, PulseFrequencyControl, SoundStatusMaster, Soundbias, StereoControl, Sweep,
    WaveFrequencyControl, WaveInitRAMControl, WaveLengthVolume, WaveVolume,
};
pub use self::timers::{TimerControl, TimerTickRate};

use crate::bits::{
    Field, extract16, fits16, flag16, get_bits16, get_flag16, insert16, layout_ok,
    lemma_layout_independent16, lemma_small_values_fit16, lemma_two_bit_field16, set_flag16,
    with_bits16, with_flag16,
};
use crate::register::{Register, Width};
use vstd::prelude::*;

verus! {

/// 0th part of an object's attributes.
///
/// * Bits 0-7: row-coordinate
/// * Bits 8-9: Rendering style: Normal, Affine, Disabled, Double Area Affine
/// * Bits 10-11: Object mode: Normal, SemiTransparent, Object Window
/// * Bit 12: Mosaic
/// * Bit 13: is 8bpp
/// * Bits 14-15: Object Shape: Square, Horizontal, Vertical
#[derive(Debug, Clone, Copy, PartialEq, Eq, Structural)]
pub struct OBJAttr0(u16);

impl View for OBJAttr0 {
    type V = u16;

    closed spec fn view(&self) -> u16 {
        self.0
    }
}

impl Default for OBJAttr0 {
    fn default() -> (out: Self)
        ensures
            out@ == 0,
    {
        OBJAttr0(0)
    }
}

impl Register for OBJAttr0 {
    open spec fn width() -> Width {
        Width::Half
    }

    open spec fn bits(self) -> u32 {
        self@ as u32
    }

    fn access_width() -> (width: Width) {
        Width::Half
    }

    fn to_bits(self) -> (bits: u32) {
        self.0 as u32
    }

    fn from_bits(bits: u32) -> (out: Self) {
        OBJAttr0(bits as u16)
    }

    proof fn lemma_bits_fit(self) {
    }

    proof fn lemma_bits_determine(self, other: Self) {
    }
}

impl OBJAttr0 {
    /// Where `row_coordinate` lies: bits 0 to 7.
    pub const ROW_COORDINATE: Field = (0, 7);

    /// Where `obj_rendering` lies: bits 8 to 9.
    pub const OBJ_RENDERING: Field = (8, 9);

    /// Where `obj_mode` lies: bits 10 to 11.
    pub const OBJ_MODE: Field = (10, 11);

    /// Where `mosaic` lies: bit 12.
    pub const MOSAIC: u32 = 12;

    /// Where `is_8bpp` lies: bit 13.
    pub const IS_8BPP: u32 = 13;

    /// Where `obj_shape` lies: bits 14 to 15.
    pub const OBJ_SHAPE: Field = (14, 15);

    /// The fields of the register, in the order of declaration.
    pub open spec fn layout() -> Seq<Field> {
        seq![
            Self::ROW_COORDINATE,
            Self::OBJ_RENDERING,
            Self::OBJ_MODE,
            (Self::MOSAIC, Self::MOSAIC),
            (Self::IS_8BPP, Self::IS_8BPP),
            Self::OBJ_SHAPE,
        ]
    }

    /// Every field lies inside the sixteen bits, and no two of them share a bit.
    pub proof fn lemma_layout()
        ensures
            layout_ok(Self::layout(), 16),
    {
    }

    /// Writing a value that fits to one of these fields makes the field read as
    /// that value and leaves every other of them as it was, whatever the
    /// register held.
    pub proof fn lemma_fields_independent(raw: u16, i: int, j: int, value: u16)
        requires
            0 <= i < Self::layout().len(),
            0 <= j < Self::layout().len(),
            fits16(value, Self::layout()[i]),
        ensures
            extract16(
                insert16(raw, Self::layout()[i], value),
                Self::layout()[j],
            ) == (if i == j {
                value
            } else {
                extract16(raw, Self::layout()[j])
            }),
    {
        Self::lemma_layout();
        lemma_layout_independent16(Self::layout(), i, j, raw, value);
    }

    /// The register value whose raw value is `raw`.
    pub closed spec fn of_raw(raw: u16) -> Self {
        OBJAttr0(raw)
    }

    /// Every raw value is the raw value of exactly one register value: wrapping
    /// `raw` and taking the raw value again gives `raw`, and wrapping the raw
    /// value of a register gives that register.
    pub proof fn lemma_raw_round_trip(raw: u16, reg: Self)
        ensures
            Self::of_raw(raw)@ == raw,
            Self::of_raw(reg@) == reg,
    {
    }

    /// The all-zero value.
    pub fn new() -> (out: Self)
        ensures
            out@ == 0,
    {
        OBJAttr0(0)
    }

    /// Wraps a raw value, such as one just read from hardware. Every raw value
    /// is a register value, and `to_raw` gives it back.
    pub fn from_raw(raw: u16) -> (out: Self)
        ensures
            out == Self::of_raw(raw),
            out@ == raw,
    {
        OBJAttr0(raw)
    }

    /// The raw value, as it is written to hardware.
    pub fn to_raw(self) -> (raw: u16)
        ensures
            raw == self@,
    {
        self.0
    }

    pub fn row_coordinate(self) -> (value: u16)
        ensures
            value == extract16(self@, Self::ROW_COORDINATE),
            fits16(value, Self::ROW_COORDINATE),
    {
        get_bits16(self.0, Self::ROW_COORDINATE)
    }

    pub fn with_row_coordinate(self, row_coordinate: u16) -> (out: Self)
        ensures
            out@ == insert16(self@, Self::ROW_COORDINATE, row_coordinate),
            fits16(row_coordinate, Self::ROW_COORDINATE)
                ==> extract16(out@, Self::ROW_COORDINATE) == row_coordinate,
    {
        OBJAttr0(with_bits16(self.0, Self::ROW_COORDINATE, row_coordinate))
    }

    pub fn obj_rendering(self) -> (tag: Option<ObjectRender>)
        ensures
            tag == ObjectRender::decode(extract16(self@, Self::OBJ_RENDERING)),
            tag is Some,
    {
        proof {
            lemma_two_bit_field16(self.0, Self::OBJ_RENDERING.0);
        }
        ObjectRender::from_raw(get_bits16(self.0, Self::OBJ_RENDERING))
    }

    pub fn with_obj_rendering(self, obj_rendering: ObjectRender) -> (out: Self)
        ensures
            out@ == insert16(self@, Self::OBJ_RENDERING, obj_rendering.raw()),
            ObjectRender::decode(extract16(out@, Self::OBJ_RENDERING)) == Some(obj_rendering),
    {
        proof {
            lemma_small_values_fit16(
                obj_rendering.raw(),
                Self::OBJ_RENDERING.0,
                Self::OBJ_RENDERING.1,
            );
        }
        OBJAttr0(with_bits16(self.0, Self::OBJ_RENDERING, obj_rendering.to_raw()))
    }

    pub fn obj_mode(self) -> (tag: Option<ObjectMode>)
        ensures
            tag == ObjectMode::decode(extract16(self@, Self::OBJ_MODE)),
    {
        ObjectMode::from_raw(get_bits16(self.0, Self::OBJ_MODE))
    }

    pub fn with_obj_mode(self, obj_mode: ObjectMode) -> (out: Self)
        ensures
            out@ == insert16(self@, Self::OBJ_MODE, obj_mode.raw()),
            ObjectMode::decode(extract16(out@, Self::OBJ_MODE)) == Some(obj_mode),
    {
        proof {
            lemma_small_values_fit16(obj_mode.raw(), Self::OBJ_MODE.0, Self::OBJ_MODE.1);
        }
        OBJAttr0(with_bits16(self.0, Self::OBJ_MODE, obj_mode.to_raw()))
    }

    pub fn mosaic(self) -> (on: bool)
        ensures
            on == flag16(self@, Self::MOSAIC),
    {
        get_flag16(self.0, Self::MOSAIC)
    }

    pub fn with_mosaic(self, bit: bool) -> (out: Self)
        ensures
            out@ == with_flag16(self@, Self::MOSAIC, bit),
            flag16(out@, Self::MOSAIC) == bit,
    {
        OBJAttr0(set_flag16(self.0, Self::MOSAIC, bit))
    }

    pub fn is_8bpp(self) -> (on: bool)
        ensures
            on == flag16(self@, Self::IS_8BPP),
    {
        get_flag16(self.0, Self::IS_8BPP)
    }

    pub fn with_is_8bpp(self, bit: bool) -> (out: Self)
        ensures
            out@ == with_flag16(self@, Self::IS_8BPP, bit),
            flag16(out@, Self::IS_8BPP) == bit,
    {
        OBJAttr0(set_flag16(self.0, Self::IS_8BPP, bit))
    }

    pub fn obj_shape(self) -> (tag: Option<ObjectShape>)
        ensures
            tag == ObjectShape::decode(extract16(self@, Self::OBJ_SHAPE)),
    {
        ObjectShape::from_raw(get_bits16(self.0, Self::OBJ_SHAPE))
    }

    pub fn with_obj_shape(self, obj_shape: ObjectShape) -> (out: Self)
        ensures
            out@ == insert16(self@, Self::OBJ_SHAPE, obj_shape.raw()),
            ObjectShape::decode(extract16(out@, Self::OBJ_SHAPE)) == Some(obj_shape),
    {
        proof {
            lemma_small_values_fit16(obj_shape.raw(), Self::OBJ_SHAPE.0, Self::OBJ_SHAPE.1);
        }
        OBJAttr0(with_bits16(self.0, Self::OBJ_SHAPE, obj_shape.to_raw()))
    }
}

/// What style of rendering for this object
#[derive(Debug, Clone, Copy, PartialEq, Eq, Structural)]
pub enum ObjectRender {
    /// Standard, non-affine rendering
    Normal,
    /// Affine rendering
    Affine,
    /// Object disabled (saves cycles for elsewhere!)
    Disabled,
    /// Affine with double render space (helps prevent clipping)
    DoubleAreaAffine,
}

impl ObjectRender {
    /// The integer that stands for this tag in a register.
    pub open spec fn raw(self) -> u16 {
        match self {
            ObjectRender::Normal => 0,
            ObjectRender::Affine => 1,
            ObjectRender::Disabled => 2,
            ObjectRender::DoubleAreaAffine => 3,
        }
    }

    /// The tag that `raw` stands for; `None` where it stands for none.
    pub open spec fn decode(raw: u16) -> Option<Self> {
        match raw {
            0 => Some(ObjectRender::Normal),
            1 => Some(ObjectRender::Affine),
            2 => Some(ObjectRender::Disabled),
            3 => Some(ObjectRender::DoubleAreaAffine),
            _ => None,
        }
    }

    /// Encodes the tag as the integer that stands for it.
    pub fn to_raw(self) -> (raw: u16)
        ensures
            raw == self.raw(),
    {
        match self {
            ObjectRender::Normal => 0,
            ObjectRender::Affine => 1,
            ObjectRender::Disabled => 2,
            ObjectRender::DoubleAreaAffine => 3,
        }
    }

    /// Decodes an integer. A value that is no tag's is reported, not replaced.
    pub fn from_raw(raw: u16) -> (tag: Option<Self>)
        ensures
            tag == Self::decode(raw),
    {
        match raw {
            0 => Some(ObjectRender::Normal),
            1 => Some(ObjectRender::Affine),
            2 => Some(ObjectRender::Disabled),
            3 => Some(ObjectRender::DoubleAreaAffine),
            _ => None,
        }
    }

    /// Encoding and decoding are inverse to each other on the declared tags,
    /// and nothing else decodes.
    pub proof fn lemma_tags_round_trip(tag: Self, raw: u16)
        ensures
            Self::decode(tag.raw()) == Some(tag),
            Self::decode(raw) == Some(tag) <==> tag.raw() == raw,
            Self::decode(raw) is None <==> raw > 3,
    {
    }
}

/// What mode to ues for the object.
#[derive(Debug, Clone, Copy, PartialEq, Eq, Structural)]
pub enum ObjectMode {
    /// Show the object normally
    Normal,
    /// The object becomes the "Alpha Blending 1st target" (see Alpha Blending)
    SemiTransparent,
    /// Use the object's non-transparent pixels as part of a mask for the object
    /// window (see Windows).
    OBJWindow,
}

impl ObjectMode {
    /// The integer that stands for this tag in a register.
    pub open spec fn raw(self) -> u16 {
        match self {
            ObjectMode::Normal => 0,
            ObjectMode::SemiTransparent => 1,
            ObjectMode::OBJWindow => 2,
        }
    }

    /// The tag that `raw` stands for; `None` where it stands for none.
    pub open spec fn decode(raw: u16) -> Option<Self> {
        match raw {
            0 => Some(ObjectMode::Normal),
            1 => Some(ObjectMode::SemiTransparent),
            2 => Some(ObjectMode::OBJWindow),
            _ => None,
        }
    }

    /// Encodes the tag as the integer that stands for it.
    pub fn to_raw(self) -> (raw: u16)
        ensures
            raw == self.raw(),
    {
        match self {
            ObjectMode::Normal => 0,
            ObjectMode::SemiTransparent => 1,
            ObjectMode::OBJWindow => 2,
        }
    }

    /// Decodes an integer. A value that is no tag's is reported, not replaced.
    pub fn from_raw(raw: u16) -> (tag: Option<Self>)
        ensures
            tag == Self::decode(raw),
    {
        match raw {
            0 => Some(ObjectMode::Normal),
            1 => Some(ObjectMode::SemiTransparent),
            2 => Some(ObjectMode::OBJWindow),
            _ => None,
        }
    }

    /// Encoding and decoding are inverse to each other on the declared tags,
    /// and nothing else decodes.
    pub proof fn lemma_tags_round_trip(tag: Self, raw: u16)
        ensures
            Self::decode(tag.raw()) == Some(tag),
            Self::decode(raw) == Some(tag) <==> tag.raw() == raw,
            Self::decode(raw) is None <==> raw > 2,
    {
    }
}

/// What shape the object's appearance should be.
///
/// The specifics also depend on the `ObjectSize` set.
#[derive(Debug, Clone, Copy, PartialEq, Eq, Structural)]
pub enum ObjectShape {
    /// Equal parts wide and tall
    Square,
    /// Wider than tall
    Horizontal,
    /// Taller than wide
    Vertical,
}

impl ObjectShape {
    /// The integer that stands for this tag in a register.
    pub open spec fn raw(self) -> u16 {
        match self {
            ObjectShape::Square => 0,
            ObjectShape::Horizontal => 1,
            ObjectShape::Vertical => 2,
        }
    }

    /// The tag that `raw` stands for; `None` where it stands for none.
    pub open spec fn decode(raw: u16) -> Option<Self> {
        match raw {
            0 => Some(ObjectShape::Square),
            1 => Some(ObjectShape::Horizontal),
            2 => Some(ObjectShape::Vertical),
            _ => None,
        }
    }

    /// Encodes the tag as the integer that stands for it.
    pub fn to_raw(self) -> (raw: u16)
        ensures
            raw == self.raw(),
    {
        match self {
            ObjectShape::Square => 0,
            ObjectShape::Horizontal => 1,
            ObjectShape::Vertical => 2,
        }
    }

    /// Decodes an integer. A value that is no tag's is reported, not replaced.
    pub fn from_raw(raw: u16) -> (tag: Option<Self>)
        ensures
            tag == Self::decode(raw),
    {
        match raw {
            0 => Some(ObjectShape::Square),
            1 => Some(ObjectShape::Horizontal),
            2 => Some(ObjectShape::Vertical),
            _ => None,
        }
    }

    /// Encoding and decoding are inverse to each other on the declared tags,
    /// and nothing else decodes.
    pub proof fn lemma_tags_round_trip(tag: Self, raw: u16)
        ensures
            Self::decode(tag.raw()) == Some(tag),
            Self::decode(raw) == Some(tag) <==> tag.raw() == raw,
            Self::decode(raw) is None <==> raw > 2,
    {
    }
}

/// 1st part of an object's attributes.
///
/// * Bits 0-8: column coordinate
/// * Bits 9-13:
///   * Normal render: Bit 12 holds hflip and 13 holds vflip.
///   * Affine render: The affine parameter selection.
/// * Bits 14-15: Object Size
#[derive(Debug, Clone, Copy, PartialEq, Eq, Structural)]
pub struct OBJAttr1(u16);

impl View for OBJAttr1 {
    type V = u16;

    closed spec fn view(&self) -> u16 {
        self.0
    }
}

impl Default for OBJAttr1 {
    fn default() -> (out: Self)
        ensures
            out@ == 0,
    {
        OBJAttr1(0)
    }
}

impl Register for OBJAttr1 {
    open spec fn width() -> Width {
        Width::Half
    }

    open spec fn bits(self) -> u32 {
        self@ as u32
    }

    fn access_width() -> (width: Width) {
        Width::Half
    }

    fn to_bits(self) -> (bits: u32) {
        self.0 as u32
    }

    fn from_bits(bits: u32) -> (out: Self) {
        OBJAttr1(bits as u16)
    }

    proof fn lemma_bits_fit(self) {
    }

    proof fn lemma_bits_determine(self, other: Self) {
    }
}

impl OBJAttr1 {
    /// Where `col_coordinate` lies: bits 0 to 8.
    pub const COL_COORDINATE: Field = (0, 8);

    /// Where `affine_index` lies: bits 9 to 13.
    pub const AFFINE_INDEX: Field = (9, 13);

    /// Where `hflip` lies: bit 12.
    pub const HFLIP: u32 = 12;

    /// Where `vflip` lies: bit 13.
    pub const VFLIP: u32 = 13;

    /// Where `obj_size` lies: bits 14 to 15.
    pub const OBJ_SIZE: Field = (14, 15);

    /// The bit ranges of the fields of an object in normal rendering: the
    /// column, the two flips and the size. The flips lie inside the range of
    /// the affine index, which such an object does not have.
    pub open spec fn layout_normal() -> Seq<Field> {
        seq![
            Self::COL_COORDINATE,
            (Self::HFLIP, Self::HFLIP),
            (Self::VFLIP, Self::VFLIP),
            Self::OBJ_SIZE,
        ]
    }

    /// The fields of an object in normal rendering lie inside the sixteen
    /// bits, and no two of them share a bit.
    pub proof fn lemma_layout_normal()
        ensures
            layout_ok(Self::layout_normal(), 16),
    {
    }

    /// Writing a value that fits to one of these fields makes the field read as
    /// that value and leaves every other of them as it was, whatever the
    /// register held.
    pub proof fn lemma_fields_independent_normal(raw: u16, i: int, j: int, value: u16)
        requires
            0 <= i < Self::layout_normal().len(),
            0 <= j < Self::layout_normal().len(),
            fits16(value, Self::layout_normal()[i]),
        ensures
            extract16(
                insert16(raw, Self::layout_normal()[i], value),
                Self::layout_normal()[j],
            ) == (if i == j {
                value
            } else {
                extract16(raw, Self::layout_normal()[j])
            }),
    {
        Self::lemma_layout_normal();
        lemma_layout_independent16(Self::layout_normal(), i, j, raw, value);
    }

    /// The bit ranges of the fields of an object in affine rendering: the
    /// column, the affine index and the size.
    pub open spec fn layout_affine() -> Seq<Field> {
        seq![Self::COL_COORDINATE, Self::AFFINE_INDEX, Self::OBJ_SIZE]
    }

    /// The fields of an object in affine rendering lie inside the sixteen
    /// bits, and no two of them share a bit.
    pub proof fn lemma_layout_affine()
        ensures
            layout_ok(Self::layout_affine(), 16),
    {
    }

    /// Writing a value that fits to one of these fields makes the field read as
    /// that value and leaves every other of them as it was, whatever the
    /// register held.
    pub proof fn lemma_fields_independent_affine(raw: u16, i: int, j: int, value: u16)
        requires
            0 <= i < Self::layout_affine().len(),
            0 <= j < Self::layout_affine().len(),
            fits16(value, Self::layout_affine()[i]),
        ensures
            extract16(
                insert16(raw, Self::layout_affine()[i], value),
                Self::layout_affine()[j],
            ) == (if i == j {
                value
            } else {
                extract16(raw, Self::layout_affine()[j])
            }),
    {
        Self::lemma_layout_affine();
        lemma_layout_independent16(Self::layout_affine(), i, j, raw, value);
    }

    /// The register value whose raw value is `raw`.
    pub closed spec fn of_raw(raw: u16) -> Self {
        OBJAttr1(raw)
    }

    /// Every raw value is the raw value of exactly one register value: wrapping
    /// `raw` and taking the raw value again gives `raw`, and wrapping the raw
    /// value of a register gives that register.
    pub proof fn lemma_raw_round_trip(raw: u16, reg: Self)
        ensures
            Self::of_raw(raw)@ == raw,
            Self::of_raw(reg@) == reg,
    {
    }

    /// The all-zero value.
    pub fn new() -> (out: Self)
        ensures
            out@ == 0,
    {
        OBJAttr1(0)
    }

    /// Wraps a raw value, such as one just read from hardware. Every raw value
    /// is a register value, and `to_raw` gives it back.
    pub fn from_raw(raw: u16) -> (out: Self)
        ensures
            out == Self::of_raw(raw),
            out@ == raw,
    {
        OBJAttr1(raw)
    }

    /// The raw value, as it is written to hardware.
    pub fn to_raw(self) -> (raw: u16)
        ensures
            raw == self@,
    {
        self.0
    }

    pub fn col_coordinate(self) -> (value: u16)
        ensures
            value == extract16(self@, Self::COL_COORDINATE),
            fits16(value, Self::COL_COORDINATE),
    {
        get_bits16(self.0, Self::COL_COORDINATE)
    }

    pub fn with_col_coordinate(self, col_coordinate: u16) -> (out: Self)
        ensures
            out@ == insert16(self@, Self::COL_COORDINATE, col_coordinate),
            fits16(col_coordinate, Self::COL_COORDINATE)
                ==> extract16(out@, Self::COL_COORDINATE) == col_coordinate,
    {
        OBJAttr1(with_bits16(self.0, Self::COL_COORDINATE, col_coordinate))
    }

    pub fn affine_index(self) -> (value: u16)
        ensures
            value == extract16(self@, Self::AFFINE_INDEX),
            fits16(value, Self::AFFINE_INDEX),
    {
        get_bits16(self.0, Self::AFFINE_INDEX)
    }

    pub fn with_affine_index(self, affine_index: u16) -> (out: Self)
        ensures
            out@ == insert16(self@, Self::AFFINE_INDEX, affine_index),
            fits16(affine_index, Self::AFFINE_INDEX)
                ==> extract16(out@, Self::AFFINE_INDEX) == affine_index,
    {
        OBJAttr1(with_bits16(self.0, Self::AFFINE_INDEX, affine_index))
    }

    pub fn hflip(self) -> (on: bool)
        ensures
            on == flag16(self@, Self::HFLIP),
    {
        get_flag16(self.0, Self::HFLIP)
    }

    pub fn with_hflip(self, bit: bool) -> (out: Self)
        ensures
            out@ == with_flag16(self@, Self::HFLIP, bit),
            flag16(out@, Self::HFLIP) == bit,
    {
        OBJAttr1(set_flag16(self.0, Self::HFLIP, bit))
    }

    pub fn vflip(self) -> (on: bool)
        ensures
            on == flag16(self@, Self::VFLIP),
    {
        get_flag16(self.0, Self::VFLIP)
    }

    pub fn with_vflip(self, bit: bool) -> (out: Self)
        ensures
            out@ == with_flag16(self@, Self::VFLIP, bit),
            flag16(out@, Self::VFLIP) == bit,
    {
        OBJAttr1(set_flag16(self.0, Self::VFLIP, bit))
    }

    pub fn obj_size(self) -> (tag: Option<ObjectSize>)
        ensures
            tag == ObjectSize::decode(extract16(self@, Self::OBJ_SIZE)),
            tag is Some,
    {
        proof {
            lemma_two_bit_field16(self.0, Self::OBJ_SIZE.0);
        }
        ObjectSize::from_raw(get_bits16(self.0, Self::OBJ_SIZE))
    }

    pub fn with_obj_size(self, obj_size: ObjectSize) -> (out: Self)
        ensures
            out@ == insert16(self@, Self::OBJ_SIZE, obj_size.raw()),
            ObjectSize::decode(extract16(out@, Self::OBJ_SIZE)) == Some(obj_size),
    {
        proof {
            lemma_small_values_fit16(obj_size.raw(), Self::OBJ_SIZE.0, Self::OBJ_SIZE.1);
        }
        OBJAttr1(with_bits16(self.0, Self::OBJ_SIZE, obj_size.to_raw()))
    }
}

/// The object's size.
///
/// Also depends on the `ObjectShape` set.
#[derive(Debug, Clone, Copy, PartialEq, Eq, Structural)]
pub enum ObjectSize {
    /// * Square: 8x8px
    /// * Horizontal: 16x8px
    /// * Vertical: 8x16px
    Zero,
    /// * Square: 16x16px
    /// * Horizontal: 32x8px
    /// * Vertical: 8x32px
    One,
    /// * Square: 32x32px
    /// * Horizontal: 32x16px
    /// * Vertical: 16x32px
    Two,
    /// * Square: 64x64px
    /// * Horizontal: 64x32px
    /// * Vertical: 32x64px
    Three,
}

impl ObjectSize {
    /// The integer that stands for this tag in a register.
    pub open spec fn raw(self) -> u16 {
        match self {
            ObjectSize::Zero => 0,
            ObjectSize::One => 1,
            ObjectSize::Two => 2,
            ObjectSize::Three => 3,
        }
    }

    /// The tag that `raw` stands for; `None` where it stands for none.
    pub open spec fn decode(raw: u16) -> Option<Self> {
        match raw {
            0 => Some(ObjectSize::Zero),
            1 => Some(ObjectSize::One),
            2 => Some(ObjectSize::Two),
            3 => Some(ObjectSize::Three),
            _ => None,
        }
    }

    /// Encodes the tag as the integer that stands for it.
    pub fn to_raw(self) -> (raw: u16)
        ensures
            raw == self.raw(),
    {
        match self {
            ObjectSize::Zero => 0,
            ObjectSize::One => 1,
            ObjectSize::Two => 2,
            ObjectSize::Three => 3,
        }
    }

    /// Decodes an integer. A value that is no tag's is reported, not replaced.
    pub fn from_raw(raw: u16) -> (tag: Option<Self>)
        ensures
            tag == Self::decode(raw),
    {
        match raw {
            0 => Some(ObjectSize::Zero),
            1 => Some(ObjectSize::One),
            2 => Some(ObjectSize::Two),
            3 => Some(ObjectSize::Three),
            _ => None,
        }
    }

    /// Encoding and decoding are inverse to each other on the declared tags,
    /// and nothing else decodes.
    pub proof fn lemma_tags_round_trip(tag: Self, raw: u16)
        ensures
            Self::decode(tag.raw()) == Some(tag),
            Self::decode(raw) == Some(tag) <==> tag.raw() == raw,
            Self::decode(raw) is None <==> raw > 3,
    {
    }
}

/// 2nd part of an object's attributes.
///
/// * Bits 0-9: Base Tile Index (tile offset from CBB4)
/// * Bits 10-11: Priority
/// * Bits 12-15: Palbank (if using 4bpp)
#[derive(Debug, Clone, Copy, PartialEq, Eq, Structural)]
pub struct OBJAttr2(u16);

impl View for OBJAttr2 {
    type V = u16;

    closed spec fn view(&self) -> u16 {
        self.0
    }
}

impl Default for OBJAttr2 {
    fn default() -> (out: Self)
        ensures
            out@ == 0,
    {
        OBJAttr2(0)
    }
}

impl Register for OBJAttr2 {
    open spec fn width() -> Width {
        Width::Half
    }

    open spec fn bits(self) -> u32 {
        self@ as u32
    }

    fn access_width() -> (width: Width) {
        Width::Half
    }

    fn to_bits(self) -> (bits: u32) {
        self.0 as u32
    }

    fn from_bits(bits: u32) -> (out: Self) {
        OBJAttr2(bits as u16)
    }

    proof fn lemma_bits_fit(self) {
    }

    proof fn lemma_bits_determine(self, other: Self) {
    }
}

impl OBJAttr2 {
    /// Where `tile_id` lies: bits 0 to 9.
    pub const TILE_ID: Field = (0, 9);

    /// Where `priority` lies: bits 10 to 11.
    pub const PRIORITY: Field = (10, 11);

    /// Where `palbank` lies: bits 12 to 15.
    pub const PALBANK: Field = (12, 15);

    /// The fields of the register, in the order of declaration.
    pub open spec fn layout() -> Seq<Field> {
        seq![Self::TILE_ID, Self::PRIORITY, Self::PALBANK]
    }

    /// Every field lies inside the sixteen bits, and no two of them share a bit.
    pub proof fn lemma_layout()
        ensures
            layout_ok(Self::layout(), 16),
    {
    }

    /// Writing a value that fits to one of these fields makes the field read as
    /// that value and leaves every other of them as it was, whatever the
    /// register held.
    pub proof fn lemma_fields_independent(raw: u16, i: int, j: int, value: u16)
        requires
            0 <= i < Self::layout().len(),
            0 <= j < Self::layout().len(),
            fits16(value, Self::layout()[i]),
        ensures
            extract16(
                insert16(raw, Self::layout()[i], value),
                Self::layout()[j],
            ) == (if i == j {
                value
            } else {
                extract16(raw, Self::layout()[j])
            }),
    {
        Self::lemma_layout();
        lemma_layout_independent16(Self::layout(), i, j, raw, value);
    }

    /// The register value whose raw value is `raw`.
    pub closed spec fn of_raw(raw: u16) -> Self {
        OBJAttr2(raw)
    }

    /// Every raw value is the raw value of exactly one register value: wrapping
    /// `raw` and taking the raw value again gives `raw`, and wrapping the raw
    /// value of a register gives that register.
    pub proof fn lemma_raw_round_trip(raw: u16, reg: Self)
        ensures
            Self::of_raw(raw)@ == raw,
            Self::of_raw(reg@) == reg,
    {
    }

    /// The all-zero value.
    pub fn new() -> (out: Self)
        ensures
            out@ == 0,
    {
        OBJAttr2(0)
    }

    /// Wraps a raw value, such as one just read from hardware. Every raw value
    /// is a register value, and `to_raw` gives it back.
    pub fn from_raw(raw: u16) -> (out: Self)
        ensures
            out == Self::of_raw(raw),
            out@ == raw,
    {
        OBJAttr2(raw)
    }

    /// The raw value, as it is written to hardware.
    pub fn to_raw(self) -> (raw: u16)
        ensures
            raw == self@,
    {
        self.0
    }

    pub fn tile_id(self) -> (value: u16)
        ensures
            value == extract16(self@, Self::TILE_ID),
            fits16(value, Self::TILE_ID),
    {
        get_bits16(self.0, Self::TILE_ID)
    }

    pub fn with_tile_id(self, tile_id: u16) -> (out: Self)
        ensures
            out@ == insert16(self@, Self::TILE_ID, tile_id),
            fits16(tile_id, Self::TILE_ID) ==> extract16(out@, Self::TILE_ID) == tile_id,
    {
        OBJAttr2(with_bits16(self.0, Self::TILE_ID, tile_id))
    }

    pub fn priority(self) -> (value: u16)
        ensures
            value == extract16(self@, Self::PRIORITY),
            fits16(value, Self::PRIORITY),
    {
        get_bits16(self.0, Self::PRIORITY)
    }

    pub fn with_priority(self, priority: u16) -> (out: Self)
        ensures
            out@ == insert16(self@, Self::PRIORITY, priority),
            fits16(priority, Self::PRIORITY) ==> extract16(out@, Self::PRIORITY) == priority,
    {
        OBJAttr2(with_bits16(self.0, Self::PRIORITY, priority))
    }

    pub fn palbank(self) -> (value: u16)
        ensures
            value == extract16(self@, Self::PALBANK),
            fits16(value, Self::PALBANK),
    {
        get_bits16(self.0, Self::PALBANK)
    }

    pub fn with_palbank(self, palbank: u16) -> (out: Self)
        ensures
            out@ == insert16(self@, Self::PALBANK, palbank),
            fits16(palbank, Self::PALBANK) ==> extract16(out@, Self::PALBANK) == palbank,
    {
        OBJAttr2(with_bits16(self.0, Self::PALBANK, palbank))
    }
}

} // verus!
