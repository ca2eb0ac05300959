//! Registers of the display hardware: control, status, backgrounds, windows and blending.

use crate::bits::{
    Field, extract16, fits16, flag16, get_bits16, get_flag16, insert16, layout_ok,
    lemma_layout_independent16, lemma_small_values_fit16, lemma_two_bit_field16, set_flag16,
    with_bits16, with_flag16,
};
use crate::register::{Register, Width};
use vstd::prelude::*;

verus! {

/// The six display modes available on the GBA.
#[derive(Debug, Clone, Copy, PartialEq, Eq, Structural)]
pub enum DisplayMode {
    /// * Affine: No
    /// * Layers: 0/1/2/3
    /// * Size(px): 256x256 to 512x512
    /// * Tiles: 1024
    /// * Palette Modes: 4bpp or 8bpp
    Mode0,
    /// * BG0 / BG1: As Mode0
    /// * BG2: As Mode2
    Mode1,
    /// * Affine: Yes
    /// * Layers: 2/3
    /// * Size(px): 128x128 to 1024x1024
    /// * Tiles: 256
    /// * Palette Modes: 8bpp
    Mode2,
    /// * Affine: Yes
    /// * Layers: 2
    /// * Size(px): 240x160 (1 page)
    /// * Bitmap
    /// * Full Color
    Mode3,
    /// * Affine: Yes
    /// * Layers: 2
    /// * Size(px): 240x160 (2 pages)
    /// * Bitmap
    /// * Palette Modes: 8bpp
    Mode4,
    /// * Affine: Yes
    /// * Layers: 2
    /// * Size(px): 160x128 (2 pages)
    /// * Bitmap
    /// * Full Color
    Mode5,
}

impl DisplayMode {
    /// The integer that stands for this tag in a register.
    pub open spec fn raw(self) -> u16 {
        match self {
            DisplayMode::Mode0 => 0,
            DisplayMode::Mode1 => 1,
            DisplayMode::Mode2 => 2,
            DisplayMode::Mode3 => 3,
            DisplayMode::Mode4 => 4,
            DisplayMode::Mode5 => 5,
        }
    }

    /// The tag that `raw` stands for; `None` where it stands for none.
    pub open spec fn decode(raw: u16) -> Option<Self> {
        match raw {
            0 => Some(DisplayMode::Mode0),
            1 => Some(DisplayMode::Mode1),
            2 => Some(DisplayMode::Mode2),
            3 => Some(DisplayMode::Mode3),
            4 => Some(DisplayMode::Mode4),
            5 => Some(DisplayMode::Mode5),
            _ => None,
        }
    }

    /// Encodes the tag as the integer that stands for it.
    pub fn to_raw(self) -> (raw: u16)
        ensures
            raw == self.raw(),
    {
        match self {
            DisplayMode::Mode0 => 0,
            DisplayMode::Mode1 => 1,
            DisplayMode::Mode2 => 2,
            DisplayMode::Mode3 => 3,
            DisplayMode::Mode4 => 4,
            DisplayMode::Mode5 => 5,
        }
    }

    /// Decodes an integer. A value that is no tag's is reported, not replaced.
    pub fn from_raw(raw: u16) -> (tag: Option<Self>)
        ensures
            tag == Self::decode(raw),
    {
        match raw {
            0 => Some(DisplayMode::Mode0),
            1 => Some(DisplayMode::Mode1),
            2 => Some(DisplayMode::Mode2),
            3 => Some(DisplayMode::Mode3),
            4 => Some(DisplayMode::Mode4),
            5 => Some(DisplayMode::Mode5),
            _ => None,
        }
    }

    /// Encoding and decoding are inverse to each other on the declared tags,
    /// and nothing else decodes.
    pub proof fn lemma_tags_round_trip(tag: Self, raw: u16)
        ensures
            Self::decode(tag.raw()) == Some(tag),
            Self::decode(raw) == Some(tag) <==> tag.raw() == raw,
            Self::decode(raw) is None <==> raw > 5,
    {
    }
}

/// Configuration for the display control register.
///
/// * 0-2: `DisplayMode`
/// * 3: CGB mode flag
/// * 4: Display frame 1 (Modes 4/5 only)
/// * 5: "hblank interval free", allows full access to OAM during hblank
/// * 6: Object tile memory 1-dimensional
/// * 7: Force vblank
/// * 8: Display bg0 layer
/// * 9: Display bg1 layer
/// * 10: Display bg2 layer
/// * 11: Display bg3 layer
/// * 12: Display objects layer
/// * 13: Window 0 display
/// * 14: Window 1 display
/// * 15: Object window
#[derive(Debug, Clone, Copy, PartialEq, Eq, Structural)]
pub struct DisplayControl(u16);

impl View for DisplayControl {
    type V = u16;

    closed spec fn view(&self) -> u16 {
        self.0
    }
}

impl Default for DisplayControl {
    fn default() -> (out: Self)
        ensures
            out@ == 0,
    {
        DisplayControl(0)
    }
}

impl Register for DisplayControl {
    open spec fn width() -> Width {
        Width::Half
    }

    open spec fn bits(self) -> u32 {
        self@ as u32
    }

    fn access_width() -> (width: Width) {
        Width::Half
    }

    fn to_bits(self) -> (bits: u32) {
        self.0 as u32
    }

    fn from_bits(bits: u32) -> (out: Self) {
        DisplayControl(bits as u16)
    }

    proof fn lemma_bits_fit(self) {
    }

    proof fn lemma_bits_determine(self, other: Self) {
    }
}

impl DisplayControl {
    /// Where `mode` lies: bits 0 to 2.
    pub const MODE: Field = (0, 2);

    /// Where `frame1` lies: bit 4.
    pub const FRAME1: u32 = 4;

    /// Where `hblank_interval_free` lies: bit 5.
    pub const HBLANK_INTERVAL_FREE: u32 = 5;

    /// Where `oam_memory_1d` lies: bit 6.
    pub const OAM_MEMORY_1D: u32 = 6;

    /// Where `force_vblank` lies: bit 7.
    pub const FORCE_VBLANK: u32 = 7;

    /// Where `bg0` lies: bit 8.
    pub const BG0: u32 = 8;

    /// Where `bg1` lies: bit 9.
    pub const BG1: u32 = 9;

    /// Where `bg2` lies: bit 10.
    pub const BG2: u32 = 10;

    /// Where `bg3` lies: bit 11.
    pub const BG3: u32 = 11;

    /// Where `obj` lies: bit 12.
    pub const OBJ: u32 = 12;

    /// Where `win0` lies: bit 13.
    pub const WIN0: u32 = 13;

    /// Where `win1` lies: bit 14.
    pub const WIN1: u32 = 14;

    /// Where `obj_window` lies: bit 15.
    pub const OBJ_WINDOW: u32 = 15;

    /// The fields of the register, in the order of declaration.
    pub open spec fn layout() -> Seq<Field> {
        seq![
            Self::MODE,
            (Self::FRAME1, Self::FRAME1),
            (Self::HBLANK_INTERVAL_FREE, Self::HBLANK_INTERVAL_FREE),
            (Self::OAM_MEMORY_1D, Self::OAM_MEMORY_1D),
            (Self::FORCE_VBLANK, Self::FORCE_VBLANK),
            (Self::BG0, Self::BG0),
            (Self::BG1, Self::BG1),
            (Self::BG2, Self::BG2),
            (Self::BG3, Self::BG3),
            (Self::OBJ, Self::OBJ),
            (Self::WIN0, Self::WIN0),
            (Self::WIN1, Self::WIN1),
            (Self::OBJ_WINDOW, Self::OBJ_WINDOW),
        ]
    }

    /// Every field lies inside the sixteen bits, and no two of them share a bit.
    pub proof fn lemma_layout()
        ensures
            layout_ok(Self::layout(), 16),
    {
    }

    /// Writing a value that fits to one of these fields makes the field read as
    /// that value and leaves every other of them as it was, whatever the
    /// register held.
    pub proof fn lemma_fields_independent(raw: u16, i: int, j: int, value: u16)
        requires
            0 <= i < Self::layout().len(),
            0 <= j < Self::layout().len(),
            fits16(value, Self::layout()[i]),
        ensures
            extract16(
                insert16(raw, Self::layout()[i], value),
                Self::layout()[j],
            ) == (if i == j {
                value
            } else {
                extract16(raw, Self::layout()[j])
            }),
    {
        Self::lemma_layout();
        lemma_layout_independent16(Self::layout(), i, j, raw, value);
    }

    /// The register value whose raw value is `raw`.
    pub closed spec fn of_raw(raw: u16) -> Self {
        DisplayControl(raw)
    }

    /// Every raw value is the raw value of exactly one register value: wrapping
    /// `raw` and taking the raw value again gives `raw`, and wrapping the raw
    /// value of a register gives that register.
    pub proof fn lemma_raw_round_trip(raw: u16, reg: Self)
        ensures
            Self::of_raw(raw)@ == raw,
            Self::of_raw(reg@) == reg,
    {
    }

    /// The all-zero value.
    pub fn new() -> (out: Self)
        ensures
            out@ == 0,
    {
        DisplayControl(0)
    }

    /// Wraps a raw value, such as one just read from hardware. Every raw value
    /// is a register value, and `to_raw` gives it back.
    pub fn from_raw(raw: u16) -> (out: Self)
        ensures
            out == Self::of_raw(raw),
            out@ == raw,
    {
        DisplayControl(raw)
    }

    /// The raw value, as it is written to hardware.
    pub fn to_raw(self) -> (raw: u16)
        ensures
            raw == self@,
    {
        self.0
    }

    pub fn mode(self) -> (tag: Option<DisplayMode>)
        ensures
            tag == DisplayMode::decode(extract16(self@, Self::MODE)),
    {
        DisplayMode::from_raw(get_bits16(self.0, Self::MODE))
    }

    pub fn with_mode(self, mode: DisplayMode) -> (out: Self)
        ensures
            out@ == insert16(self@, Self::MODE, mode.raw()),
            DisplayMode::decode(extract16(out@, Self::MODE)) == Some(mode),
    {
        proof {
            lemma_small_values_fit16(mode.raw(), Self::MODE.0, Self::MODE.1);
        }
        DisplayControl(with_bits16(self.0, Self::MODE, mode.to_raw()))
    }

    pub fn frame1(self) -> (on: bool)
        ensures
            on == flag16(self@, Self::FRAME1),
    {
        get_flag16(self.0, Self::FRAME1)
    }

    pub fn with_frame1(self, bit: bool) -> (out: Self)
        ensures
            out@ == with_flag16(self@, Self::FRAME1, bit),
            flag16(out@, Self::FRAME1) == bit,
    {
        DisplayControl(set_flag16(self.0, Self::FRAME1, bit))
    }

    pub fn hblank_interval_free(self) -> (on: bool)
        ensures
            on == flag16(self@, Self::HBLANK_INTERVAL_FREE),
    {
        get_flag16(self.0, Self::HBLANK_INTERVAL_FREE)
    }

    pub fn with_hblank_interval_free(self, bit: bool) -> (out: Self)
        ensures
            out@ == with_flag16(self@, Self::HBLANK_INTERVAL_FREE, bit),
            flag16(out@, Self::HBLANK_INTERVAL_FREE) == bit,
    {
        DisplayControl(set_flag16(self.0, Self::HBLANK_INTERVAL_FREE, bit))
    }

    pub fn oam_memory_1d(self) -> (on: bool)
        ensures
            on == flag16(self@, Self::OAM_MEMORY_1D),
    {
        get_flag16(self.0, Self::OAM_MEMORY_1D)
    }

    pub fn with_oam_memory_1d(self, bit: bool) -> (out: Self)
        ensures
            out@ == with_flag16(self@, Self::OAM_MEMORY_1D, bit),
            flag16(out@, Self::OAM_MEMORY_1D) == bit,
    {
        DisplayControl(set_flag16(self.0, Self::OAM_MEMORY_1D, bit))
    }

    pub fn force_vblank(self) -> (on: bool)
        ensures
            on == flag16(self@, Self::FORCE_VBLANK),
    {
        get_flag16(self.0, Self::FORCE_VBLANK)
    }

    pub fn with_force_vblank(self, bit: bool) -> (out: Self)
        ensures
            out@ == with_flag16(self@, Self::FORCE_VBLANK, bit),
            flag16(out@, Self::FORCE_VBLANK) == bit,
    {
        DisplayControl(set_flag16(self.0, Self::FORCE_VBLANK, bit))
    }

    pub fn bg0(self) -> (on: bool)
        ensures
            on == flag16(self@, Self::BG0),
    {
        get_flag16(self.0, Self::BG0)
    }

    pub fn with_bg0(self, bit: bool) -> (out: Self)
        ensures
            out@ == with_flag16(self@, Self::BG0, bit),
            flag16(out@, Self::BG0) == bit,
    {
        DisplayControl(set_flag16(self.0, Self::BG0, bit))
    }

    pub fn bg1(self) -> (on: bool)
        ensures
            on == flag16(self@, Self::BG1),
    {
        get_flag16(self.0, Self::BG1)
    }

    pub fn with_bg1(self, bit: bool) -> (out: Self)
        ensures
            out@ == with_flag16(self@, Self::BG1, bit),
            flag16(out@, Self::BG1) == bit,
    {
        DisplayControl(set_flag16(self.0, Self::BG1, bit))
    }

    pub fn bg2(self) -> (on: bool)
        ensures
            on == flag16(self@, Self::BG2),
    {
        get_flag16(self.0, Self::BG2)
    }

    pub fn with_bg2(self, bit: bool) -> (out: Self)
        ensures
            out@ == with_flag16(self@, Self::BG2, bit),
            flag16(out@, Self::BG2) == bit,
    {
        DisplayControl(set_flag16(self.0, Self::BG2, bit))
    }

    pub fn bg3(self) -> (on: bool)
        ensures
            on == flag16(self@, Self::BG3),
    {
        get_flag16(self.0, Self::BG3)
    }

    pub fn with_bg3(self, bit: bool) -> (out: Self)
        ensures
            out@ == with_flag16(self@, Self::BG3, bit),
            flag16(out@, Self::BG3) == bit,
    {
        DisplayControl(set_flag16(self.0, Self::BG3, bit))
    }

    pub fn obj(self) -> (on: bool)
        ensures
            on == flag16(self@, Self::OBJ),
    {
        get_flag16(self.0, Self::OBJ)
    }

    pub fn with_obj(self, bit: bool) -> (out: Self)
        ensures
            out@ == with_flag16(self@, Self::OBJ, bit),
            flag16(out@, Self::OBJ) == bit,
    {
        DisplayControl(set_flag16(self.0, Self::OBJ, bit))
    }

    pub fn win0(self) -> (on: bool)
        ensures
            on == flag16(self@, Self::WIN0),
    {
        get_flag16(self.0, Self::WIN0)
    }

    pub fn with_win0(self, bit: bool) -> (out: Self)
        ensures
            out@ == with_flag16(self@, Self::WIN0, bit),
            flag16(out@, Self::WIN0) == bit,
    {
        DisplayControl(set_flag16(self.0, Self::WIN0, bit))
    }

    pub fn win1(self) -> (on: bool)
        ensures
            on == flag16(self@, Self::WIN1),
    {
        get_flag16(self.0, Self::WIN1)
    }

    pub fn with_win1(self, bit: bool) -> (out: Self)
        ensures
            out@ == with_flag16(self@, Self::WIN1, bit),
            flag16(out@, Self::WIN1) == bit,
    {
        DisplayControl(set_flag16(self.0, Self::WIN1, bit))
    }

    pub fn obj_window(self) -> (on: bool)
        ensures
            on == flag16(self@, Self::OBJ_WINDOW),
    {
        get_flag16(self.0, Self::OBJ_WINDOW)
    }

    pub fn with_obj_window(self, bit: bool) -> (out: Self)
        ensures
            out@ == with_flag16(self@, Self::OBJ_WINDOW, bit),
            flag16(out@, Self::OBJ_WINDOW) == bit,
    {
        DisplayControl(set_flag16(self.0, Self::OBJ_WINDOW, bit))
    }
}

/// Display Status and interrupt settings.
///
/// * 0: currently in vblank (read only)
/// * 1: currently in hblank (read only)
/// * 2: vcounter matches current setting (read only)
/// * 3: vblank interrupt enable
/// * 4: hblank interrupt enable
/// * 5: vcounter interrupt enable
/// * 8-15: vcount setting.
///
/// "Although the drawing time is only 960 cycles (240*4), the H-Blank flag is
/// "0" for a total of 1006 cycles." -gbatek
#[derive(Debug, Clone, Copy, PartialEq, Eq, Structural)]
pub struct DisplayStatus(u16);

impl View for DisplayStatus {
    type V = u16;

    closed spec fn view(&self) -> u16 {
        self.0
    }
}

impl Default for DisplayStatus {
    fn default() -> (out: Self)
        ensures
            out@ == 0,
    {
        DisplayStatus(0)
    }
}

impl Register for DisplayStatus {
    open spec fn width() -> Width {
        Width::Half
    }

    open spec fn bits(self) -> u32 {
        self@ as u32
    }

    fn access_width() -> (width: Width) {
        Width::Half
    }

    fn to_bits(self) -> (bits: u32) {
        self.0 as u32
    }

    fn from_bits(bits: u32) -> (out: Self) {
        DisplayStatus(bits as u16)
    }

    proof fn lemma_bits_fit(self) {
    }

    proof fn lemma_bits_determine(self, other: Self) {
    }
}

impl DisplayStatus {
    /// Where `vblank_flag` lies: bit 0.
    pub const VBLANK_FLAG: u32 = 0;

    /// Where `hblank_flag` lies: bit 1.
    pub const HBLANK_FLAG: u32 = 1;

    /// Where `vcounter_flag` lies: bit 2.
    pub const VCOUNTER_FLAG: u32 = 2;

    /// Where `vblank_irq_enable` lies: bit 3.
    pub const VBLANK_IRQ_ENABLE: u32 = 3;

    /// Where `hblank_irq_enable` lies: bit 4.
    pub const HBLANK_IRQ_ENABLE: u32 = 4;

    /// Where `vcounter_irq_enable` lies: bit 5.
    pub const VCOUNTER_IRQ_ENABLE: u32 = 5;

    /// Where `vcount_setting` lies: bits 8 to 15.
    pub const VCOUNT_SETTING: Field = (8, 15);

    /// The fields of the register, in the order of declaration.
    pub open spec fn layout() -> Seq<Field> {
        seq![
            (Self::VBLANK_FLAG, Self::VBLANK_FLAG),
            (Self::HBLANK_FLAG, Self::HBLANK_FLAG),
            (Self::VCOUNTER_FLAG, Self::VCOUNTER_FLAG),
            (Self::VBLANK_IRQ_ENABLE, Self::VBLANK_IRQ_ENABLE),
            (Self::HBLANK_IRQ_ENABLE, Self::HBLANK_IRQ_ENABLE),
            (Self::VCOUNTER_IRQ_ENABLE, Self::VCOUNTER_IRQ_ENABLE),
            Self::VCOUNT_SETTING,
        ]
    }

    /// Every field lies inside the sixteen bits, and no two of them share a bit.
    pub proof fn lemma_layout()
        ensures
            layout_ok(Self::layout(), 16),
    {
    }

    /// Writing a value that fits to one of these fields makes the field read as
    /// that value and leaves every other of them as it was, whatever the
    /// register held.
    pub proof fn lemma_fields_independent(raw: u16, i: int, j: int, value: u16)
        requires
            0 <= i < Self::layout().len(),
            0 <= j < Self::layout().len(),
            fits16(value, Self::layout()[i]),
        ensures
            extract16(
                insert16(raw, Self::layout()[i], value),
                Self::layout()[j],
            ) == (if i == j {
                value
            } else {
                extract16(raw, Self::layout()[j])
            }),
    {
        Self::lemma_layout();
        lemma_layout_independent16(Self::layout(), i, j, raw, value);
    }

    /// The register value whose raw value is `raw`.
    pub closed spec fn of_raw(raw: u16) -> Self {
        DisplayStatus(raw)
    }

    /// Every raw value is the raw value of exactly one register value: wrapping
    /// `raw` and taking the raw value again gives `raw`, and wrapping the raw
    /// value of a register gives that register.
    pub proof fn lemma_raw_round_trip(raw: u16, reg: Self)
        ensures
            Self::of_raw(raw)@ == raw,
            Self::of_raw(reg@) == reg,
    {
    }

    /// The all-zero value.
    pub fn new() -> (out: Self)
        ensures
            out@ == 0,
    {
        DisplayStatus(0)
    }

    /// Wraps a raw value, such as one just read from hardware. Every raw value
    /// is a register value, and `to_raw` gives it back.
    pub fn from_raw(raw: u16) -> (out: Self)
        ensures
            out == Self::of_raw(raw),
            out@ == raw,
    {
        DisplayStatus(raw)
    }

    /// The raw value, as it is written to hardware.
    pub fn to_raw(self) -> (raw: u16)
        ensures
            raw == self@,
    {
        self.0
    }

    pub fn vblank_flag(self) -> (on: bool)
        ensures
            on == flag16(self@, Self::VBLANK_FLAG),
    {
        get_flag16(self.0, Self::VBLANK_FLAG)
    }

    pub fn with_vblank_flag(self, bit: bool) -> (out: Self)
        ensures
            out@ == with_flag16(self@, Self::VBLANK_FLAG, bit),
            flag16(out@, Self::VBLANK_FLAG) == bit,
    {
        DisplayStatus(set_flag16(self.0, Self::VBLANK_FLAG, bit))
    }

    pub fn hblank_flag(self) -> (on: bool)
        ensures
            on == flag16(self@, Self::HBLANK_FLAG),
    {
        get_flag16(self.0, Self::HBLANK_FLAG)
    }

    pub fn with_hblank_flag(self, bit: bool) -> (out: Self)
        ensures
            out@ == with_flag16(self@, Self::HBLANK_FLAG, bit),
            flag16(out@, Self::HBLANK_FLAG) == bit,
    {
        DisplayStatus(set_flag16(self.0, Self::HBLANK_FLAG, bit))
    }

    pub fn vcounter_flag(self) -> (on: bool)
        ensures
            on == flag16(self@, Self::VCOUNTER_FLAG),
    {
        get_flag16(self.0, Self::VCOUNTER_FLAG)
    }

    pub fn with_vcounter_flag(self, bit: bool) -> (out: Self)
        ensures
            out@ == with_flag16(self@, Self::VCOUNTER_FLAG, bit),
            flag16(out@, Self::VCOUNTER_FLAG) == bit,
    {
        DisplayStatus(set_flag16(self.0, Self::VCOUNTER_FLAG, bit))
    }

    pub fn vblank_irq_enable(self) -> (on: bool)
        ensures
            on == flag16(self@, Self::VBLANK_IRQ_ENABLE),
    {
        get_flag16(self.0, Self::VBLANK_IRQ_ENABLE)
    }

    pub fn with_vblank_irq_enable(self, bit: bool) -> (out: Self)
        ensures
            out@ == with_flag16(self@, Self::VBLANK_IRQ_ENABLE, bit),
            flag16(out@, Self::VBLANK_IRQ_ENABLE) == bit,
    {
        DisplayStatus(set_flag16(self.0, Self::VBLANK_IRQ_ENABLE, bit))
    }

    pub fn hblank_irq_enable(self) -> (on: bool)
        ensures
            on == flag16(self@, Self::HBLANK_IRQ_ENABLE),
    {
        get_flag16(self.0, Self::HBLANK_IRQ_ENABLE)
    }

    pub fn with_hblank_irq_enable(self, bit: bool) -> (out: Self)
        ensures
            out@ == with_flag16(self@, Self::HBLANK_IRQ_ENABLE, bit),
            flag16(out@, Self::HBLANK_IRQ_ENABLE) == bit,
    {
        DisplayStatus(set_flag16(self.0, Self::HBLANK_IRQ_ENABLE, bit))
    }

    pub fn vcounter_irq_enable(self) -> (on: bool)
        ensures
            on == flag16(self@, Self::VCOUNTER_IRQ_ENABLE),
    {
        get_flag16(self.0, Self::VCOUNTER_IRQ_ENABLE)
    }

    pub fn with_vcounter_irq_enable(self, bit: bool) -> (out: Self)
        ensures
            out@ == with_flag16(self@, Self::VCOUNTER_IRQ_ENABLE, bit),
            flag16(out@, Self::VCOUNTER_IRQ_ENABLE) == bit,
    {
        DisplayStatus(set_flag16(self.0, Self::VCOUNTER_IRQ_ENABLE, bit))
    }

    pub fn vcount_setting(self) -> (value: u16)
        ensures
            value == extract16(self@, Self::VCOUNT_SETTING),
            fits16(value, Self::VCOUNT_SETTING),
    {
        get_bits16(self.0, Self::VCOUNT_SETTING)
    }

    pub fn with_vcount_setting(self, vcount_setting: u16) -> (out: Self)
        ensures
            out@ == insert16(self@, Self::VCOUNT_SETTING, vcount_setting),
            fits16(vcount_setting, Self::VCOUNT_SETTING)
                ==> extract16(out@, Self::VCOUNT_SETTING) == vcount_setting,
    {
        DisplayStatus(with_bits16(self.0, Self::VCOUNT_SETTING, vcount_setting))
    }
}

/// Allows configuration of a background layer.
///
/// Bits 0-1: BG Priority (lower number is higher priority, like an index)
/// Bits 2-3: Character Base Block (0 through 3, 16k each)
/// Bit 6: Mosaic mode
/// Bit 7: is 8bpp
/// Bit 8-12: Screen Base Block (0 through 31, 2k each)
/// Bit 13: Display area overflow wraps (otherwise transparent, affine BG only)
/// Bit 14-15: Screen Size (details depend on Text/Affine mode)
#[derive(Debug, Clone, Copy, PartialEq, Eq, Structural)]
pub struct BackgroundControl(u16);

impl View for BackgroundControl {
    type V = u16;

    closed spec fn view(&self) -> u16 {
        self.0
    }
}

impl Default for BackgroundControl {
    fn default() -> (out: Self)
        ensures
            out@ == 0,
    {
        BackgroundControl(0)
    }
}

impl Register for BackgroundControl {
    open spec fn width() -> Width {
        Width::Half
    }

    open spec fn bits(self) -> u32 {
        self@ as u32
    }

    fn access_width() -> (width: Width) {
        Width::Half
    }

    fn to_bits(self) -> (bits: u32) {
        self.0 as u32
    }

    fn from_bits(bits: u32) -> (out: Self) {
        BackgroundControl(bits as u16)
    }

    proof fn lemma_bits_fit(self) {
    }

    proof fn lemma_bits_determine(self, other: Self) {
    }
}

impl BackgroundControl {
    /// Where `bg_priority` lies: bits 0 to 1.
    pub const BG_PRIORITY: Field = (0, 1);

    /// Where `char_base_block` lies: bits 2 to 3.
    pub const CHAR_BASE_BLOCK: Field = (2, 3);

    /// Where `mosaic` lies: bit 6.
    pub const MOSAIC: u32 = 6;

    /// Where `is_8bpp` lies: bit 7.
    pub const IS_8BPP: u32 = 7;

    /// Where `screen_base_block` lies: bits 8 to 12.
    pub const SCREEN_BASE_BLOCK: Field = (8, 12);

    /// Where `affine_display_overflow_wrapping` lies: bit 13.
    pub const AFFINE_DISPLAY_OVERFLOW_WRAPPING: u32 = 13;

    /// Where `size` lies: bits 14 to 15.
    pub const SIZE: Field = (14, 15);

    /// The fields of the register, in the order of declaration.
    pub open spec fn layout() -> Seq<Field> {
        seq![
            Self::BG_PRIORITY,
            Self::CHAR_BASE_BLOCK,
            (Self::MOSAIC, Self::MOSAIC),
            (Self::IS_8BPP, Self::IS_8BPP),
            Self::SCREEN_BASE_BLOCK,
            (Self::AFFINE_DISPLAY_OVERFLOW_WRAPPING, Self::AFFINE_DISPLAY_OVERFLOW_WRAPPING),
            Self::SIZE,
        ]
    }

    /// Every field lies inside the sixteen bits, and no two of them share a bit.
    pub proof fn lemma_layout()
        ensures
            layout_ok(Self::layout(), 16),
    {
    }

    /// Writing a value that fits to one of these fields makes the field read as
    /// that value and leaves every other of them as it was, whatever the
    /// register held.
    pub proof fn lemma_fields_independent(raw: u16, i: int, j: int, value: u16)
        requires
            0 <= i < Self::layout().len(),
            0 <= j < Self::layout().len(),
            fits16(value, Self::layout()[i]),
        ensures
            extract16(
                insert16(raw, Self::layout()[i], value),
                Self::layout()[j],
            ) == (if i == j {
                value
            } else {
                extract16(raw, Self::layout()[j])
            }),
    {
        Self::lemma_layout();
        lemma_layout_independent16(Self::layout(), i, j, raw, value);
    }

    /// The register value whose raw value is `raw`.
    pub closed spec fn of_raw(raw: u16) -> Self {
        BackgroundControl(raw)
    }

    /// Every raw value is the raw value of exactly one register value: wrapping
    /// `raw` and taking the raw value again gives `raw`, and wrapping the raw
    /// value of a register gives that register.
    pub proof fn lemma_raw_round_trip(raw: u16, reg: Self)
        ensures
            Self::of_raw(raw)@ == raw,
            Self::of_raw(reg@) == reg,
    {
    }

    /// The all-zero value.
    pub fn new() -> (out: Self)
        ensures
            out@ == 0,
    {
        BackgroundControl(0)
    }

    /// Wraps a raw value, such as one just read from hardware. Every raw value
    /// is a register value, and `to_raw` gives it back.
    pub fn from_raw(raw: u16) -> (out: Self)
        ensures
            out == Self::of_raw(raw),
            out@ == raw,
    {
        BackgroundControl(raw)
    }

    /// The raw value, as it is written to hardware.
    pub fn to_raw(self) -> (raw: u16)
        ensures
            raw == self@,
    {
        self.0
    }

    pub fn bg_priority(self) -> (value: u16)
        ensures
            value == extract16(self@, Self::BG_PRIORITY),
            fits16(value, Self::BG_PRIORITY),
    {
        get_bits16(self.0, Self::BG_PRIORITY)
    }

    pub fn with_bg_priority(self, bg_priority: u16) -> (out: Self)
        ensures
            out@ == insert16(self@, Self::BG_PRIORITY, bg_priority),
            fits16(bg_priority, Self::BG_PRIORITY)
                ==> extract16(out@, Self::BG_PRIORITY) == bg_priority,
    {
        BackgroundControl(with_bits16(self.0, Self::BG_PRIORITY, bg_priority))
    }

    pub fn char_base_block(self) -> (value: u16)
        ensures
            value == extract16(self@, Self::CHAR_BASE_BLOCK),
            fits16(value, Self::CHAR_BASE_BLOCK),
    {
        get_bits16(self.0, Self::CHAR_BASE_BLOCK)
    }

    pub fn with_char_base_block(self, char_base_block: u16) -> (out: Self)
        ensures
            out@ == insert16(self@, Self::CHAR_BASE_BLOCK, char_base_block),
            fits16(char_base_block, Self::CHAR_BASE_BLOCK)
                ==> extract16(out@, Self::CHAR_BASE_BLOCK) == char_base_block,
    {
        BackgroundControl(with_bits16(self.0, Self::CHAR_BASE_BLOCK, char_base_block))
    }

    pub fn mosaic(self) -> (on: bool)
        ensures
            on == flag16(self@, Self::MOSAIC),
    {
        get_flag16(self.0, Self::MOSAIC)
    }

    pub fn with_mosaic(self, bit: bool) -> (out: Self)
        ensures
            out@ == with_flag16(self@, Self::MOSAIC, bit),
            flag16(out@, Self::MOSAIC) == bit,
    {
        BackgroundControl(set_flag16(self.0, Self::MOSAIC, bit))
    }

    pub fn is_8bpp(self) -> (on: bool)
        ensures
            on == flag16(self@, Self::IS_8BPP),
    {
        get_flag16(self.0, Self::IS_8BPP)
    }

    pub fn with_is_8bpp(self, bit: bool) -> (out: Self)
        ensures
            out@ == with_flag16(self@, Self::IS_8BPP, bit),
            flag16(out@, Self::IS_8BPP) == bit,
    {
        BackgroundControl(set_flag16(self.0, Self::IS_8BPP, bit))
    }

    pub fn screen_base_block(self) -> (value: u16)
        ensures
            value == extract16(self@, Self::SCREEN_BASE_BLOCK),
            fits16(value, Self::SCREEN_BASE_BLOCK),
    {
        get_bits16(self.0, Self::SCREEN_BASE_BLOCK)
    }

    pub fn with_screen_base_block(self, screen_base_block: u16) -> (out: Self)
        ensures
            out@ == insert16(self@, Self::SCREEN_BASE_BLOCK, screen_base_block),
            fits16(screen_base_block, Self::SCREEN_BASE_BLOCK)
                ==> extract16(out@, Self::SCREEN_BASE_BLOCK) == screen_base_block,
    {
        BackgroundControl(with_bits16(self.0, Self::SCREEN_BASE_BLOCK, screen_base_block))
    }

    pub fn affine_display_overflow_wrapping(self) -> (on: bool)
        ensures
            on == flag16(self@, Self::AFFINE_DISPLAY_OVERFLOW_WRAPPING),
    {
        get_flag16(self.0, Self::AFFINE_DISPLAY_OVERFLOW_WRAPPING)
    }

    pub fn with_affine_display_overflow_wrapping(self, bit: bool) -> (out: Self)
        ensures
            out@ == with_flag16(self@, Self::AFFINE_DISPLAY_OVERFLOW_WRAPPING, bit),
            flag16(out@, Self::AFFINE_DISPLAY_OVERFLOW_WRAPPING) == bit,
    {
        BackgroundControl(set_flag16(self.0, Self::AFFINE_DISPLAY_OVERFLOW_WRAPPING, bit))
    }

    pub fn size(self) -> (value: u16)
        ensures
            value == extract16(self@, Self::SIZE),
            fits16(value, Self::SIZE),
    {
        get_bits16(self.0, Self::SIZE)
    }

    pub fn with_size(self, size: u16) -> (out: Self)
        ensures
            out@ == insert16(self@, Self::SIZE, size),
            fits16(size, Self::SIZE) ==> extract16(out@, Self::SIZE) == size,
    {
        BackgroundControl(with_bits16(self.0, Self::SIZE, size))
    }
}

/// Allows control of the Mosaic effect.
///
/// Values are the _increase_ for each top-left pixel to be duplicated in the
/// final result. If you want to duplicate some other pixel than the top-left,
/// you can offset the background or object by an appropriate amount.
///
/// 0) No effect (1+0)
/// 1) Each pixel becomes 2 pixels (1+1)
/// 2) Each pixel becomes 3 pixels (1+2)
/// 3) Each pixel becomes 4 pixels (1+3)
///
/// * Bits 0-3: BG mosaic horizontal increase
/// * Bits 4-7: BG mosaic vertical increase
/// * Bits 8-11: Object mosaic horizontal increase
/// * Bits 12-15: Object mosaic vertical increase
#[derive(Debug, Clone, Copy, PartialEq, Eq, Structural)]
pub struct Mosaic(u16);

impl View for Mosaic {
    type V = u16;

    closed spec fn view(&self) -> u16 {
        self.0
    }
}

impl Default for Mosaic {
    fn default() -> (out: Self)
        ensures
            out@ == 0,
    {
        Mosaic(0)
    }
}

impl Register for Mosaic {
    open spec fn width() -> Width {
        Width::Half
    }

    open spec fn bits(self) -> u32 {
        self@ as u32
    }

    fn access_width() -> (width: Width) {
        Width::Half
    }

    fn to_bits(self) -> (bits: u32) {
        self.0 as u32
    }

    fn from_bits(bits: u32) -> (out: Self) {
        Mosaic(bits as u16)
    }

    proof fn lemma_bits_fit(self) {
    }

    proof fn lemma_bits_determine(self, other: Self) {
    }
}

impl Mosaic {
    /// Where `bg_horizontal_inc` lies: bits 0 to 3.
    pub const BG_HORIZONTAL_INC: Field = (0, 3);

    /// Where `bg_vertical_inc` lies: bits 4 to 7.
    pub const BG_VERTICAL_INC: Field = (4, 7);

    /// Where `obj_horizontal_inc` lies: bits 8 to 11.
    pub const OBJ_HORIZONTAL_INC: Field = (8, 11);

    /// Where `obj_vertical_inc` lies: bits 12 to 15.
    pub const OBJ_VERTICAL_INC: Field = (12, 15);

    /// The fields of the register, in the order of declaration.
    pub open spec fn layout() -> Seq<Field> {
        seq![
            Self::BG_HORIZONTAL_INC,
            Self::BG_VERTICAL_INC,
            Self::OBJ_HORIZONTAL_INC,
            Self::OBJ_VERTICAL_INC,
        ]
    }

    /// Every field lies inside the sixteen bits, and no two of them share a bit.
    pub proof fn lemma_layout()
        ensures
            layout_ok(Self::layout(), 16),
    {
    }

    /// Writing a value that fits to one of these fields makes the field read as
    /// that value and leaves every other of them as it was, whatever the
    /// register held.
    pub proof fn lemma_fields_independent(raw: u16, i: int, j: int, value: u16)
        requires
            0 <= i < Self::layout().len(),
            0 <= j < Self::layout().len(),
            fits16(value, Self::layout()[i]),
        ensures
            extract16(
                insert16(raw, Self::layout()[i], value),
                Self::layout()[j],
            ) == (if i == j {
                value
            } else {
                extract16(raw, Self::layout()[j])
            }),
    {
        Self::lemma_layout();
        lemma_layout_independent16(Self::layout(), i, j, raw, value);
    }

    /// The register value whose raw value is `raw`.
    pub closed spec fn of_raw(raw: u16) -> Self {
        Mosaic(raw)
    }

    /// Every raw value is the raw value of exactly one register value: wrapping
    /// `raw` and taking the raw value again gives `raw`, and wrapping the raw
    /// value of a register gives that register.
    pub proof fn lemma_raw_round_trip(raw: u16, reg: Self)
        ensures
            Self::of_raw(raw)@ == raw,
            Self::of_raw(reg@) == reg,
    {
    }

    /// The all-zero value.
    pub fn new() -> (out: Self)
        ensures
            out@ == 0,
    {
        Mosaic(0)
    }

    /// Wraps a raw value, such as one just read from hardware. Every raw value
    /// is a register value, and `to_raw` gives it back.
    pub fn from_raw(raw: u16) -> (out: Self)
        ensures
            out == Self::of_raw(raw),
            out@ == raw,
    {
        Mosaic(raw)
    }

    /// The raw value, as it is written to hardware.
    pub fn to_raw(self) -> (raw: u16)
        ensures
            raw == self@,
    {
        self.0
    }

    pub fn bg_horizontal_inc(self) -> (value: u16)
        ensures
            value == extract16(self@, Self::BG_HORIZONTAL_INC),
            fits16(value, Self::BG_HORIZONTAL_INC),
    {
        get_bits16(self.0, Self::BG_HORIZONTAL_INC)
    }

    pub fn with_bg_horizontal_inc(self, bg_horizontal_inc: u16) -> (out: Self)
        ensures
            out@ == insert16(self@, Self::BG_HORIZONTAL_INC, bg_horizontal_inc),
            fits16(bg_horizontal_inc, Self::BG_HORIZONTAL_INC)
                ==> extract16(out@, Self::BG_HORIZONTAL_INC) == bg_horizontal_inc,
    {
        Mosaic(with_bits16(self.0, Self::BG_HORIZONTAL_INC, bg_horizontal_inc))
    }

    pub fn bg_vertical_inc(self) -> (value: u16)
        ensures
            value == extract16(self@, Self::BG_VERTICAL_INC),
            fits16(value, Self::BG_VERTICAL_INC),
    {
        get_bits16(self.0, Self::BG_VERTICAL_INC)
    }

    pub fn with_bg_vertical_inc(self, bg_vertical_inc: u16) -> (out: Self)
        ensures
            out@ == insert16(self@, Self::BG_VERTICAL_INC, bg_vertical_inc),
            fits16(bg_vertical_inc, Self::BG_VERTICAL_INC)
                ==> extract16(out@, Self::BG_VERTICAL_INC) == bg_vertical_inc,
    {
        Mosaic(with_bits16(self.0, Self::BG_VERTICAL_INC, bg_vertical_inc))
    }

    pub fn obj_horizontal_inc(self) -> (value: u16)
        ensures
            value == extract16(self@, Self::OBJ_HORIZONTAL_INC),
            fits16(value, Self::OBJ_HORIZONTAL_INC),
    {
        get_bits16(self.0, Self::OBJ_HORIZONTAL_INC)
    }

    pub fn with_obj_horizontal_inc(self, obj_horizontal_inc: u16) -> (out: Self)
        ensures
            out@ == insert16(self@, Self::OBJ_HORIZONTAL_INC, obj_horizontal_inc),
            fits16(obj_horizontal_inc, Self::OBJ_HORIZONTAL_INC)
                ==> extract16(out@, Self::OBJ_HORIZONTAL_INC) == obj_horizontal_inc,
    {
        Mosaic(with_bits16(self.0, Self::OBJ_HORIZONTAL_INC, obj_horizontal_inc))
    }

    pub fn obj_vertical_inc(self) -> (value: u16)
        ensures
            value == extract16(self@, Self::OBJ_VERTICAL_INC),
            fits16(value, Self::OBJ_VERTICAL_INC),
    {
        get_bits16(self.0, Self::OBJ_VERTICAL_INC)
    }

    pub fn with_obj_vertical_inc(self, obj_vertical_inc: u16) -> (out: Self)
        ensures
            out@ == insert16(self@, Self::OBJ_VERTICAL_INC, obj_vertical_inc),
            fits16(obj_vertical_inc, Self::OBJ_VERTICAL_INC)
                ==> extract16(out@, Self::OBJ_VERTICAL_INC) == obj_vertical_inc,
    {
        Mosaic(with_bits16(self.0, Self::OBJ_VERTICAL_INC, obj_vertical_inc))
    }
}

/// A two-byte fixed point value.
///
/// * Signed
/// * 7 integral bits
/// * 8 fractional bits (x/256)
#[allow(non_camel_case_types)]
#[derive(Debug, Clone, Copy, PartialEq, Eq, Structural)]
pub struct FP_I_7_8(pub i16);

impl View for FP_I_7_8 {
    type V = i16;

    open spec fn view(&self) -> i16 {
        self.0
    }
}

impl Default for FP_I_7_8 {
    fn default() -> (out: Self)
        ensures
            out@ == 0,
    {
        FP_I_7_8(0)
    }
}

impl Register for FP_I_7_8 {
    open spec fn width() -> Width {
        Width::Half
    }

    open spec fn bits(self) -> u32 {
        self@.bits()
    }

    fn access_width() -> (width: Width) {
        Width::Half
    }

    fn to_bits(self) -> (bits: u32) {
        self.0.to_bits()
    }

    fn from_bits(bits: u32) -> (out: Self) {
        FP_I_7_8(i16::from_bits(bits))
    }

    proof fn lemma_bits_fit(self) {
        self@.lemma_bits_fit();
    }

    proof fn lemma_bits_determine(self, other: Self) {
        self@.lemma_bits_determine(other@);
    }
}

impl FP_I_7_8 {
    /// The register value whose raw value is `raw`.
    pub open spec fn of_raw(raw: i16) -> Self {
        FP_I_7_8(raw)
    }

    /// Every raw value is the raw value of exactly one register value: wrapping
    /// `raw` and taking the raw value again gives `raw`, and wrapping the raw
    /// value of a register gives that register.
    pub proof fn lemma_raw_round_trip(raw: i16, reg: Self)
        ensures
            Self::of_raw(raw)@ == raw,
            Self::of_raw(reg@) == reg,
    {
    }

    /// The all-zero value.
    pub fn new() -> (out: Self)
        ensures
            out@ == 0,
    {
        FP_I_7_8(0)
    }

    /// Wraps a raw value, such as one just read from hardware. Every raw value
    /// is a register value, and `to_raw` gives it back.
    pub fn from_raw(raw: i16) -> (out: Self)
        ensures
            out == Self::of_raw(raw),
            out@ == raw,
    {
        FP_I_7_8(raw)
    }

    /// The raw value, as it is written to hardware.
    pub fn to_raw(self) -> (raw: i16)
        ensures
            raw == self@,
    {
        self.0
    }
}

/// A four-byte fixed point value.
///
/// * Signed
/// * 19 integral bits (bits above are ignored)
/// * 8 fractional bits (x/256)
#[allow(non_camel_case_types)]
#[derive(Debug, Clone, Copy, PartialEq, Eq, Structural)]
pub struct FP_I_19_8(pub i32);

impl View for FP_I_19_8 {
    type V = i32;

    open spec fn view(&self) -> i32 {
        self.0
    }
}

impl Default for FP_I_19_8 {
    fn default() -> (out: Self)
        ensures
            out@ == 0,
    {
        FP_I_19_8(0)
    }
}

impl Register for FP_I_19_8 {
    open spec fn width() -> Width {
        Width::Word
    }

    open spec fn bits(self) -> u32 {
        self@.bits()
    }

    fn access_width() -> (width: Width) {
        Width::Word
    }

    fn to_bits(self) -> (bits: u32) {
        self.0.to_bits()
    }

    fn from_bits(bits: u32) -> (out: Self) {
        FP_I_19_8(i32::from_bits(bits))
    }

    proof fn lemma_bits_fit(self) {
        self@.lemma_bits_fit();
    }

    proof fn lemma_bits_determine(self, other: Self) {
        self@.lemma_bits_determine(other@);
    }
}

impl FP_I_19_8 {
    /// The register value whose raw value is `raw`.
    pub open spec fn of_raw(raw: i32) -> Self {
        FP_I_19_8(raw)
    }

    /// Every raw value is the raw value of exactly one register value: wrapping
    /// `raw` and taking the raw value again gives `raw`, and wrapping the raw
    /// value of a register gives that register.
    pub proof fn lemma_raw_round_trip(raw: i32, reg: Self)
        ensures
            Self::of_raw(raw)@ == raw,
            Self::of_raw(reg@) == reg,
    {
    }

    /// The all-zero value.
    pub fn new() -> (out: Self)
        ensures
            out@ == 0,
    {
        FP_I_19_8(0)
    }

    /// Wraps a raw value, such as one just read from hardware. Every raw value
    /// is a register value, and `to_raw` gives it back.
    pub fn from_raw(raw: i32) -> (out: Self)
        ensures
            out == Self::of_raw(raw),
            out@ == raw,
    {
        FP_I_19_8(raw)
    }

    /// The raw value, as it is written to hardware.
    pub fn to_raw(self) -> (raw: i32)
        ensures
            raw == self@,
    {
        self.0
    }
}

/// Horizontal control for Window effect.
///
/// * x1: Leftmost window edge (8-bit)
/// * x2: Rightmost window edge +1 (8-bit)
#[derive(Debug, Clone, Copy, PartialEq, Eq, Structural)]
pub struct WindowHorizontal(u16);

impl View for WindowHorizontal {
    type V = u16;

    closed spec fn view(&self) -> u16 {
        self.0
    }
}

impl Default for WindowHorizontal {
    fn default() -> (out: Self)
        ensures
            out@ == 0,
    {
        WindowHorizontal(0)
    }
}

impl Register for WindowHorizontal {
    open spec fn width() -> Width {
        Width::Half
    }

    open spec fn bits(self) -> u32 {
        self@ as u32
    }

    fn access_width() -> (width: Width) {
        Width::Half
    }

    fn to_bits(self) -> (bits: u32) {
        self.0 as u32
    }

    fn from_bits(bits: u32) -> (out: Self) {
        WindowHorizontal(bits as u16)
    }

    proof fn lemma_bits_fit(self) {
    }

    proof fn lemma_bits_determine(self, other: Self) {
    }
}

impl WindowHorizontal {
    /// Where `x1` lies: bits 8 to 15.
    pub const X1: Field = (8, 15);

    /// Where `x2` lies: bits 0 to 7.
    pub const X2: Field = (0, 7);

    /// The fields of the register, in the order of declaration.
    pub open spec fn layout() -> Seq<Field> {
        seq![Self::X1, Self::X2]
    }

    /// Every field lies inside the sixteen bits, and no two of them share a bit.
    pub proof fn lemma_layout()
        ensures
            layout_ok(Self::layout(), 16),
    {
    }

    /// Writing a value that fits to one of these fields makes the field read as
    /// that value and leaves every other of them as it was, whatever the
    /// register held.
    pub proof fn lemma_fields_independent(raw: u16, i: int, j: int, value: u16)
        requires
            0 <= i < Self::layout().len(),
            0 <= j < Self::layout().len(),
            fits16(value, Self::layout()[i]),
        ensures
            extract16(
                insert16(raw, Self::layout()[i], value),
                Self::layout()[j],
            ) == (if i == j {
                value
            } else {
                extract16(raw, Self::layout()[j])
            }),
    {
        Self::lemma_layout();
        lemma_layout_independent16(Self::layout(), i, j, raw, value);
    }

    /// The register value whose raw value is `raw`.
    pub closed spec fn of_raw(raw: u16) -> Self {
        WindowHorizontal(raw)
    }

    /// Every raw value is the raw value of exactly one register value: wrapping
    /// `raw` and taking the raw value again gives `raw`, and wrapping the raw
    /// value of a register gives that register.
    pub proof fn lemma_raw_round_trip(raw: u16, reg: Self)
        ensures
            Self::of_raw(raw)@ == raw,
            Self::of_raw(reg@) == reg,
    {
    }

    /// The all-zero value.
    pub fn new() -> (out: Self)
        ensures
            out@ == 0,
    {
        WindowHorizontal(0)
    }

    /// Wraps a raw value, such as one just read from hardware. Every raw value
    /// is a register value, and `to_raw` gives it back.
    pub fn from_raw(raw: u16) -> (out: Self)
        ensures
            out == Self::of_raw(raw),
            out@ == raw,
    {
        WindowHorizontal(raw)
    }

    /// The raw value, as it is written to hardware.
    pub fn to_raw(self) -> (raw: u16)
        ensures
            raw == self@,
    {
        self.0
    }

    pub fn x1(self) -> (value: u16)
        ensures
            value == extract16(self@, Self::X1),
            fits16(value, Self::X1),
    {
        get_bits16(self.0, Self::X1)
    }

    pub fn with_x1(self, x1: u16) -> (out: Self)
        ensures
            out@ == insert16(self@, Self::X1, x1),
            fits16(x1, Self::X1) ==> extract16(out@, Self::X1) == x1,
    {
        WindowHorizontal(with_bits16(self.0, Self::X1, x1))
    }

    pub fn x2(self) -> (value: u16)
        ensures
            value == extract16(self@, Self::X2),
            fits16(value, Self::X2),
    {
        get_bits16(self.0, Self::X2)
    }

    pub fn with_x2(self, x2: u16) -> (out: Self)
        ensures
            out@ == insert16(self@, Self::X2, x2),
            fits16(x2, Self::X2) ==> extract16(out@, Self::X2) == x2,
    {
        WindowHorizontal(with_bits16(self.0, Self::X2, x2))
    }
}

/// Vertical control for Window effect.
///
/// * y1: Leftmost window edge (8-bit)
/// * y2: Rightmost window edge +1 (8-bit)
#[derive(Debug, Clone, Copy, PartialEq, Eq, Structural)]
pub struct WindowVertical(u16);

impl View for WindowVertical {
    type V = u16;

    closed spec fn view(&self) -> u16 {
        self.0
    }
}

impl Default for WindowVertical {
    fn default() -> (out: Self)
        ensures
            out@ == 0,
    {
        WindowVertical(0)
    }
}

impl Register for WindowVertical {
    open spec fn width() -> Width {
        Width::Half
    }

    open spec fn bits(self) -> u32 {
        self@ as u32
    }

    fn access_width() -> (width: Width) {
        Width::Half
    }

    fn to_bits(self) -> (bits: u32) {
        self.0 as u32
    }

    fn from_bits(bits: u32) -> (out: Self) {
        WindowVertical(bits as u16)
    }

    proof fn lemma_bits_fit(self) {
    }

    proof fn lemma_bits_determine(self, other: Self) {
    }
}

impl WindowVertical {
    /// Where `y1` lies: bits 8 to 15.
    pub const Y1: Field = (8, 15);

    /// Where `y2` lies: bits 0 to 7.
    pub const Y2: Field = (0, 7);

    /// The fields of the register, in the order of declaration.
    pub open spec fn layout() -> Seq<Field> {
        seq![Self::Y1, Self::Y2]
    }

    /// Every field lies inside the sixteen bits, and no two of them share a bit.
    pub proof fn lemma_layout()
        ensures
            layout_ok(Self::layout(), 16),
    {
    }

    /// Writing a value that fits to one of these fields makes the field read as
    /// that value and leaves every other of them as it was, whatever the
    /// register held.
    pub proof fn lemma_fields_independent(raw: u16, i: int, j: int, value: u16)
        requires
            0 <= i < Self::layout().len(),
            0 <= j < Self::layout().len(),
            fits16(value, Self::layout()[i]),
        ensures
            extract16(
                insert16(raw, Self::layout()[i], value),
                Self::layout()[j],
            ) == (if i == j {
                value
            } else {
                extract16(raw, Self::layout()[j])
            }),
    {
        Self::lemma_layout();
        lemma_layout_independent16(Self::layout(), i, j, raw, value);
    }

    /// The register value whose raw value is `raw`.
    pub closed spec fn of_raw(raw: u16) -> Self {
        WindowVertical(raw)
    }

    /// Every raw value is the raw value of exactly one register value: wrapping
    /// `raw` and taking the raw value again gives `raw`, and wrapping the raw
    /// value of a register gives that register.
    pub proof fn lemma_raw_round_trip(raw: u16, reg: Self)
        ensures
            Self::of_raw(raw)@ == raw,
            Self::of_raw(reg@) == reg,
    {
    }

    /// The all-zero value.
    pub fn new() -> (out: Self)
        ensures
            out@ == 0,
    {
        WindowVertical(0)
    }

    /// Wraps a raw value, such as one just read from hardware. Every raw value
    /// is a register value, and `to_raw` gives it back.
    pub fn from_raw(raw: u16) -> (out: Self)
        ensures
            out == Self::of_raw(raw),
            out@ == raw,
    {
        WindowVertical(raw)
    }

    /// The raw value, as it is written to hardware.
    pub fn to_raw(self) -> (raw: u16)
        ensures
            raw == self@,
    {
        self.0
    }

    pub fn y1(self) -> (value: u16)
        ensures
            value == extract16(self@, Self::Y1),
            fits16(value, Self::Y1),
    {
        get_bits16(self.0, Self::Y1)
    }

    pub fn with_y1(self, y1: u16) -> (out: Self)
        ensures
            out@ == insert16(self@, Self::Y1, y1),
            fits16(y1, Self::Y1) ==> extract16(out@, Self::Y1) == y1,
    {
        WindowVertical(with_bits16(self.0, Self::Y1, y1))
    }

    pub fn y2(self) -> (value: u16)
        ensures
            value == extract16(self@, Self::Y2),
            fits16(value, Self::Y2),
    {
        get_bits16(self.0, Self::Y2)
    }

    pub fn with_y2(self, y2: u16) -> (out: Self)
        ensures
            out@ == insert16(self@, Self::Y2, y2),
            fits16(y2, Self::Y2) ==> extract16(out@, Self::Y2) == y2,
    {
        WindowVertical(with_bits16(self.0, Self::Y2, y2))
    }
}

/// Controls the interior of windows 0 and 1.
///
/// * 0-3: Win0 BG0 through BG3 enable
/// * 4: Win0 OBJ enable
/// * 5: Win0 color special effect enable
/// * 8-11: Win0 BG0 through BG3 enable
/// * 12: Win0 OBJ enable
/// * 13: Win0 color special effect enable
#[derive(Debug, Clone, Copy, PartialEq, Eq, Structural)]
pub struct WindowIn(u16);

impl View for WindowIn {
    type V = u16;

    closed spec fn view(&self) -> u16 {
        self.0
    }
}

impl Default for WindowIn {
    fn default() -> (out: Self)
        ensures
            out@ == 0,
    {
        WindowIn(0)
    }
}

impl Register for WindowIn {
    open spec fn width() -> Width {
        Width::Half
    }

    open spec fn bits(self) -> u32 {
        self@ as u32
    }

    fn access_width() -> (width: Width) {
        Width::Half
    }

    fn to_bits(self) -> (bits: u32) {
        self.0 as u32
    }

    fn from_bits(bits: u32) -> (out: Self) {
        WindowIn(bits as u16)
    }

    proof fn lemma_bits_fit(self) {
    }

    proof fn lemma_bits_determine(self, other: Self) {
    }
}

impl WindowIn {
    /// Where `win0_bg0` lies: bit 0.
    pub const WIN0_BG0: u32 = 0;

    /// Where `win0_bg1` lies: bit 1.
    pub const WIN0_BG1: u32 = 1;

    /// Where `win0_bg2` lies: bit 2.
    pub const WIN0_BG2: u32 = 2;

    /// Where `win0_bg3` lies: bit 3.
    pub const WIN0_BG3: u32 = 3;

    /// Where `win0_obj` lies: bit 4.
    pub const WIN0_OBJ: u32 = 4;

    /// Where `win0_color_effect` lies: bit 5.
    pub const WIN0_COLOR_EFFECT: u32 = 5;

    /// Where `win1_bg0` lies: bit 8.
    pub const WIN1_BG0: u32 = 8;

    /// Where `win1_bg1` lies: bit 9.
    pub const WIN1_BG1: u32 = 9;

    /// Where `win1_bg2` lies: bit 10.
    pub const WIN1_BG2: u32 = 10;

    /// Where `win1_bg3` lies: bit 11.
    pub const WIN1_BG3: u32 = 11;

    /// Where `win1_obj` lies: bit 12.
    pub const WIN1_OBJ: u32 = 12;

    /// Where `win1_color_effect` lies: bit 13.
    pub const WIN1_COLOR_EFFECT: u32 = 13;

    /// The fields of the register, in the order of declaration.
    pub open spec fn layout() -> Seq<Field> {
        seq![
            (Self::WIN0_BG0, Self::WIN0_BG0),
            (Self::WIN0_BG1, Self::WIN0_BG1),
            (Self::WIN0_BG2, Self::WIN0_BG2),
            (Self::WIN0_BG3, Self::WIN0_BG3),
            (Self::WIN0_OBJ, Self::WIN0_OBJ),
            (Self::WIN0_COLOR_EFFECT, Self::WIN0_COLOR_EFFECT),
            (Self::WIN1_BG0, Self::WIN1_BG0),
            (Self::WIN1_BG1, Self::WIN1_BG1),
            (Self::WIN1_BG2, Self::WIN1_BG2),
            (Self::WIN1_BG3, Self::WIN1_BG3),
            (Self::WIN1_OBJ, Self::WIN1_OBJ),
            (Self::WIN1_COLOR_EFFECT, Self::WIN1_COLOR_EFFECT),
        ]
    }

    /// Every field lies inside the sixteen bits, and no two of them share a bit.
    pub proof fn lemma_layout()
        ensures
            layout_ok(Self::layout(), 16),
    {
    }

    /// Writing a value that fits to one of these fields makes the field read as
    /// that value and leaves every other of them as it was, whatever the
    /// register held.
    pub proof fn lemma_fields_independent(raw: u16, i: int, j: int, value: u16)
        requires
            0 <= i < Self::layout().len(),
            0 <= j < Self::layout().len(),
            fits16(value, Self::layout()[i]),
        ensures
            extract16(
                insert16(raw, Self::layout()[i], value),
                Self::layout()[j],
            ) == (if i == j {
                value
            } else {
                extract16(raw, Self::layout()[j])
            }),
    {
        Self::lemma_layout();
        lemma_layout_independent16(Self::layout(), i, j, raw, value);
    }

    /// The register value whose raw value is `raw`.
    pub closed spec fn of_raw(raw: u16) -> Self {
        WindowIn(raw)
    }

    /// Every raw value is the raw value of exactly one register value: wrapping
    /// `raw` and taking the raw value again gives `raw`, and wrapping the raw
    /// value of a register gives that register.
    pub proof fn lemma_raw_round_trip(raw: u16, reg: Self)
        ensures
            Self::of_raw(raw)@ == raw,
            Self::of_raw(reg@) == reg,
    {
    }

    /// The all-zero value.
    pub fn new() -> (out: Self)
        ensures
            out@ == 0,
    {
        WindowIn(0)
    }

    /// Wraps a raw value, such as one just read from hardware. Every raw value
    /// is a register value, and `to_raw` gives it back.
    pub fn from_raw(raw: u16) -> (out: Self)
        ensures
            out == Self::of_raw(raw),
            out@ == raw,
    {
        WindowIn(raw)
    }

    /// The raw value, as it is written to hardware.
    pub fn to_raw(self) -> (raw: u16)
        ensures
            raw == self@,
    {
        self.0
    }

    pub fn win0_bg0(self) -> (on: bool)
        ensures
            on == flag16(self@, Self::WIN0_BG0),
    {
        get_flag16(self.0, Self::WIN0_BG0)
    }

    pub fn with_win0_bg0(self, bit: bool) -> (out: Self)
        ensures
            out@ == with_flag16(self@, Self::WIN0_BG0, bit),
            flag16(out@, Self::WIN0_BG0) == bit,
    {
        WindowIn(set_flag16(self.0, Self::WIN0_BG0, bit))
    }

    pub fn win0_bg1(self) -> (on: bool)
        ensures
            on == flag16(self@, Self::WIN0_BG1),
    {
        get_flag16(self.0, Self::WIN0_BG1)
    }

    pub fn with_win0_bg1(self, bit: bool) -> (out: Self)
        ensures
            out@ == with_flag16(self@, Self::WIN0_BG1, bit),
            flag16(out@, Self::WIN0_BG1) == bit,
    {
        WindowIn(set_flag16(self.0, Self::WIN0_BG1, bit))
    }

    pub fn win0_bg2(self) -> (on: bool)
        ensures
            on == flag16(self@, Self::WIN0_BG2),
    {
        get_flag16(self.0, Self::WIN0_BG2)
    }

    pub fn with_win0_bg2(self, bit: bool) -> (out: Self)
        ensures
            out@ == with_flag16(self@, Self::WIN0_BG2, bit),
            flag16(out@, Self::WIN0_BG2) == bit,
    {
        WindowIn(set_flag16(self.0, Self::WIN0_BG2, bit))
    }

    pub fn win0_bg3(self) -> (on: bool)
        ensures
            on == flag16(self@, Self::WIN0_BG3),
    {
        get_flag16(self.0, Self::WIN0_BG3)
    }

    pub fn with_win0_bg3(self, bit: bool) -> (out: Self)
        ensures
            out@ == with_flag16(self@, Self::WIN0_BG3, bit),
            flag16(out@, Self::WIN0_BG3) == bit,
    {
        WindowIn(set_flag16(self.0, Self::WIN0_BG3, bit))
    }

    pub fn win0_obj(self) -> (on: bool)
        ensures
            on == flag16(self@, Self::WIN0_OBJ),
    {
        get_flag16(self.0, Self::WIN0_OBJ)
    }

    pub fn with_win0_obj(self, bit: bool) -> (out: Self)
        ensures
            out@ == with_flag16(self@, Self::WIN0_OBJ, bit),
            flag16(out@, Self::WIN0_OBJ) == bit,
    {
        WindowIn(set_flag16(self.0, Self::WIN0_OBJ, bit))
    }

    pub fn win0_color_effect(self) -> (on: bool)
        ensures
            on == flag16(self@, Self::WIN0_COLOR_EFFECT),
    {
        get_flag16(self.0, Self::WIN0_COLOR_EFFECT)
    }

    pub fn with_win0_color_effect(self, bit: bool) -> (out: Self)
        ensures
            out@ == with_flag16(self@, Self::WIN0_COLOR_EFFECT, bit),
            flag16(out@, Self::WIN0_COLOR_EFFECT) == bit,
    {
        WindowIn(set_flag16(self.0, Self::WIN0_COLOR_EFFECT, bit))
    }

    pub fn win1_bg0(self) -> (on: bool)
        ensures
            on == flag16(self@, Self::WIN1_BG0),
    {
        get_flag16(self.0, Self::WIN1_BG0)
    }

    pub fn with_win1_bg0(self, bit: bool) -> (out: Self)
        ensures
            out@ == with_flag16(self@, Self::WIN1_BG0, bit),
            flag16(out@, Self::WIN1_BG0) == bit,
    {
        WindowIn(set_flag16(self.0, Self::WIN1_BG0, bit))
    }

    pub fn win1_bg1(self) -> (on: bool)
        ensures
            on == flag16(self@, Self::WIN1_BG1),
    {
        get_flag16(self.0, Self::WIN1_BG1)
    }

    pub fn with_win1_bg1(self, bit: bool) -> (out: Self)
        ensures
            out@ == with_flag16(self@, Self::WIN1_BG1, bit),
            flag16(out@, Self::WIN1_BG1) == bit,
    {
        WindowIn(set_flag16(self.0, Self::WIN1_BG1, bit))
    }

    pub fn win1_bg2(self) -> (on: bool)
        ensures
            on == flag16(self@, Self::WIN1_BG2),
    {
        get_flag16(self.0, Self::WIN1_BG2)
    }

    pub fn with_win1_bg2(self, bit: bool) -> (out: Self)
        ensures
            out@ == with_flag16(self@, Self::WIN1_BG2, bit),
            flag16(out@, Self::WIN1_BG2) == bit,
    {
        WindowIn(set_flag16(self.0, Self::WIN1_BG2, bit))
    }

    pub fn win1_bg3(self) -> (on: bool)
        ensures
            on == flag16(self@, Self::WIN1_BG3),
    {
        get_flag16(self.0, Self::WIN1_BG3)
    }

    pub fn with_win1_bg3(self, bit: bool) -> (out: Self)
        ensures
            out@ == with_flag16(self@, Self::WIN1_BG3, bit),
            flag16(out@, Self::WIN1_BG3) == bit,
    {
        WindowIn(set_flag16(self.0, Self::WIN1_BG3, bit))
    }

    pub fn win1_obj(self) -> (on: bool)
        ensures
            on == flag16(self@, Self::WIN1_OBJ),
    {
        get_flag16(self.0, Self::WIN1_OBJ)
    }

    pub fn with_win1_obj(self, bit: bool) -> (out: Self)
        ensures
            out@ == with_flag16(self@, Self::WIN1_OBJ, bit),
            flag16(out@, Self::WIN1_OBJ) == bit,
    {
        WindowIn(set_flag16(self.0, Self::WIN1_OBJ, bit))
    }

    pub fn win1_color_effect(self) -> (on: bool)
        ensures
            on == flag16(self@, Self::WIN1_COLOR_EFFECT),
    {
        get_flag16(self.0, Self::WIN1_COLOR_EFFECT)
    }

    pub fn with_win1_color_effect(self, bit: bool) -> (out: Self)
        ensures
            out@ == with_flag16(self@, Self::WIN1_COLOR_EFFECT, bit),
            flag16(out@, Self::WIN1_COLOR_EFFECT) == bit,
    {
        WindowIn(set_flag16(self.0, Self::WIN1_COLOR_EFFECT, bit))
    }
}

/// Controls outside of the windows and the OBJ window.
///
/// * 0-3: Outside Window BG0 through BG3 enable
/// * 4: Outside Window OBJ enable
/// * 5: Outside Window color special effect enable
/// * 8-11: OBJ Window BG0 through BG3 enable
/// * 12: OBJ Window OBJ enable
/// * 13: OBJ Window color special effect enable
#[derive(Debug, Clone, Copy, PartialEq, Eq, Structural)]
pub struct WindowOut(u16);

impl View for WindowOut {
    type V = u16;

    closed spec fn view(&self) -> u16 {
        self.0
    }
}

impl Default for WindowOut {
    fn default() -> (out: Self)
        ensures
            out@ == 0,
    {
        WindowOut(0)
    }
}

impl Register for WindowOut {
    open spec fn width() -> Width {
        Width::Half
    }

    open spec fn bits(self) -> u32 {
        self@ as u32
    }

    fn access_width() -> (width: Width) {
        Width::Half
    }

    fn to_bits(self) -> (bits: u32) {
        self.0 as u32
    }

    fn from_bits(bits: u32) -> (out: Self) {
        WindowOut(bits as u16)
    }

    proof fn lemma_bits_fit(self) {
    }

    proof fn lemma_bits_determine(self, other: Self) {
    }
}

impl WindowOut {
    /// Where `outside_bg0` lies: bit 0.
    pub const OUTSIDE_BG0: u32 = 0;

    /// Where `outside_bg1` lies: bit 1.
    pub const OUTSIDE_BG1: u32 = 1;

    /// Where `outside_bg2` lies: bit 2.
    pub const OUTSIDE_BG2: u32 = 2;

    /// Where `outside_bg3` lies: bit 3.
    pub const OUTSIDE_BG3: u32 = 3;

    /// Where `outside_obj` lies: bit 4.
    pub const OUTSIDE_OBJ: u32 = 4;

    /// Where `outside_color_effect` lies: bit 5.
    pub const OUTSIDE_COLOR_EFFECT: u32 = 5;

    /// Where `win_obj_bg0` lies: bit 8.
    pub const WIN_OBJ_BG0: u32 = 8;

    /// Where `win_obj_bg1` lies: bit 9.
    pub const WIN_OBJ_BG1: u32 = 9;

    /// Where `win_obj_bg2` lies: bit 10.
    pub const WIN_OBJ_BG2: u32 = 10;

    /// Where `win_obj_bg3` lies: bit 11.
    pub const WIN_OBJ_BG3: u32 = 11;

    /// Where `win_obj_obj` lies: bit 12.
    pub const WIN_OBJ_OBJ: u32 = 12;

    /// Where `win_obj_color_effect` lies: bit 13.
    pub const WIN_OBJ_COLOR_EFFECT: u32 = 13;

    /// The fields of the register, in the order of declaration.
    pub open spec fn layout() -> Seq<Field> {
        seq![
            (Self::OUTSIDE_BG0, Self::OUTSIDE_BG0),
            (Self::OUTSIDE_BG1, Self::OUTSIDE_BG1),
            (Self::OUTSIDE_BG2, Self::OUTSIDE_BG2),
            (Self::OUTSIDE_BG3, Self::OUTSIDE_BG3),
            (Self::OUTSIDE_OBJ, Self::OUTSIDE_OBJ),
            (Self::OUTSIDE_COLOR_EFFECT, Self::OUTSIDE_COLOR_EFFECT),
            (Self::WIN_OBJ_BG0, Self::WIN_OBJ_BG0),
            (Self::WIN_OBJ_BG1, Self::WIN_OBJ_BG1),
            (Self::WIN_OBJ_BG2, Self::WIN_OBJ_BG2),
            (Self::WIN_OBJ_BG3, Self::WIN_OBJ_BG3),
            (Self::WIN_OBJ_OBJ, Self::WIN_OBJ_OBJ),
            (Self::WIN_OBJ_COLOR_EFFECT, Self::WIN_OBJ_COLOR_EFFECT),
        ]
    }

    /// Every field lies inside the sixteen bits, and no two of them share a bit.
    pub proof fn lemma_layout()
        ensures
            layout_ok(Self::layout(), 16),
    {
    }

    /// Writing a value that fits to one of these fields makes the field read as
    /// that value and leaves every other of them as it was, whatever the
    /// register held.
    pub proof fn lemma_fields_independent(raw: u16, i: int, j: int, value: u16)
        requires
            0 <= i < Self::layout().len(),
            0 <= j < Self::layout().len(),
            fits16(value, Self::layout()[i]),
        ensures
            extract16(
                insert16(raw, Self::layout()[i], value),
                Self::layout()[j],
            ) == (if i == j {
                value
            } else {
                extract16(raw, Self::layout()[j])
            }),
    {
        Self::lemma_layout();
        lemma_layout_independent16(Self::layout(), i, j, raw, value);
    }

    /// The register value whose raw value is `raw`.
    pub closed spec fn of_raw(raw: u16) -> Self {
        WindowOut(raw)
    }

    /// Every raw value is the raw value of exactly one register value: wrapping
    /// `raw` and taking the raw value again gives `raw`, and wrapping the raw
    /// value of a register gives that register.
    pub proof fn lemma_raw_round_trip(raw: u16, reg: Self)
        ensures
            Self::of_raw(raw)@ == raw,
            Self::of_raw(reg@) == reg,
    {
    }

    /// The all-zero value.
    pub fn new() -> (out: Self)
        ensures
            out@ == 0,
    {
        WindowOut(0)
    }

    /// Wraps a raw value, such as one just read from hardware. Every raw value
    /// is a register value, and `to_raw` gives it back.
    pub fn from_raw(raw: u16) -> (out: Self)
        ensures
            out == Self::of_raw(raw),
            out@ == raw,
    {
        WindowOut(raw)
    }

    /// The raw value, as it is written to hardware.
    pub fn to_raw(self) -> (raw: u16)
        ensures
            raw == self@,
    {
        self.0
    }

    pub fn outside_bg0(self) -> (on: bool)
        ensures
            on == flag16(self@, Self::OUTSIDE_BG0),
    {
        get_flag16(self.0, Self::OUTSIDE_BG0)
    }

    pub fn with_outside_bg0(self, bit: bool) -> (out: Self)
        ensures
            out@ == with_flag16(self@, Self::OUTSIDE_BG0, bit),
            flag16(out@, Self::OUTSIDE_BG0) == bit,
    {
        WindowOut(set_flag16(self.0, Self::OUTSIDE_BG0, bit))
    }

    pub fn outside_bg1(self) -> (on: bool)
        ensures
            on == flag16(self@, Self::OUTSIDE_BG1),
    {
        get_flag16(self.0, Self::OUTSIDE_BG1)
    }

    pub fn with_outside_bg1(self, bit: bool) -> (out: Self)
        ensures
            out@ == with_flag16(self@, Self::OUTSIDE_BG1, bit),
            flag16(out@, Self::OUTSIDE_BG1) == bit,
    {
        WindowOut(set_flag16(self.0, Self::OUTSIDE_BG1, bit))
    }

    pub fn outside_bg2(self) -> (on: bool)
        ensures
            on == flag16(self@, Self::OUTSIDE_BG2),
    {
        get_flag16(self.0, Self::OUTSIDE_BG2)
    }

    pub fn with_outside_bg2(self, bit: bool) -> (out: Self)
        ensures
            out@ == with_flag16(self@, Self::OUTSIDE_BG2, bit),
            flag16(out@, Self::OUTSIDE_BG2) == bit,
    {
        WindowOut(set_flag16(self.0, Self::OUTSIDE_BG2, bit))
    }

    pub fn outside_bg3(self) -> (on: bool)
        ensures
            on == flag16(self@, Self::OUTSIDE_BG3),
    {
        get_flag16(self.0, Self::OUTSIDE_BG3)
    }

    pub fn with_outside_bg3(self, bit: bool) -> (out: Self)
        ensures
            out@ == with_flag16(self@, Self::OUTSIDE_BG3, bit),
            flag16(out@, Self::OUTSIDE_BG3) == bit,
    {
        WindowOut(set_flag16(self.0, Self::OUTSIDE_BG3, bit))
    }

    pub fn outside_obj(self) -> (on: bool)
        ensures
            on == flag16(self@, Self::OUTSIDE_OBJ),
    {
        get_flag16(self.0, Self::OUTSIDE_OBJ)
    }

    pub fn with_outside_obj(self, bit: bool) -> (out: Self)
        ensures
            out@ == with_flag16(self@, Self::OUTSIDE_OBJ, bit),
            flag16(out@, Self::OUTSIDE_OBJ) == bit,
    {
        WindowOut(set_flag16(self.0, Self::OUTSIDE_OBJ, bit))
    }

    pub fn outside_color_effect(self) -> (on: bool)
        ensures
            on == flag16(self@, Self::OUTSIDE_COLOR_EFFECT),
    {
        get_flag16(self.0, Self::OUTSIDE_COLOR_EFFECT)
    }

    pub fn with_outside_color_effect(self, bit: bool) -> (out: Self)
        ensures
            out@ == with_flag16(self@, Self::OUTSIDE_COLOR_EFFECT, bit),
            flag16(out@, Self::OUTSIDE_COLOR_EFFECT) == bit,
    {
        WindowOut(set_flag16(self.0, Self::OUTSIDE_COLOR_EFFECT, bit))
    }

    pub fn win_obj_bg0(self) -> (on: bool)
        ensures
            on == flag16(self@, Self::WIN_OBJ_BG0),
    {
        get_flag16(self.0, Self::WIN_OBJ_BG0)
    }

    pub fn with_win_obj_bg0(self, bit: bool) -> (out: Self)
        ensures
            out@ == with_flag16(self@, Self::WIN_OBJ_BG0, bit),
            flag16(out@, Self::WIN_OBJ_BG0) == bit,
    {
        WindowOut(set_flag16(self.0, Self::WIN_OBJ_BG0, bit))
    }

    pub fn win_obj_bg1(self) -> (on: bool)
        ensures
            on == flag16(self@, Self::WIN_OBJ_BG1),
    {
        get_flag16(self.0, Self::WIN_OBJ_BG1)
    }

    pub fn with_win_obj_bg1(self, bit: bool) -> (out: Self)
        ensures
            out@ == with_flag16(self@, Self::WIN_OBJ_BG1, bit),
            flag16(out@, Self::WIN_OBJ_BG1) == bit,
    {
        WindowOut(set_flag16(self.0, Self::WIN_OBJ_BG1, bit))
    }

    pub fn win_obj_bg2(self) -> (on: bool)
        ensures
            on == flag16(self@, Self::WIN_OBJ_BG2),
    {
        get_flag16(self.0, Self::WIN_OBJ_BG2)
    }

    pub fn with_win_obj_bg2(self, bit: bool) -> (out: Self)
        ensures
            out@ == with_flag16(self@, Self::WIN_OBJ_BG2, bit),
            flag16(out@, Self::WIN_OBJ_BG2) == bit,
    {
        WindowOut(set_flag16(self.0, Self::WIN_OBJ_BG2, bit))
    }

    pub fn win_obj_bg3(self) -> (on: bool)
        ensures
            on == flag16(self@, Self::WIN_OBJ_BG3),
    {
        get_flag16(self.0, Self::WIN_OBJ_BG3)
    }

    pub fn with_win_obj_bg3(self, bit: bool) -> (out: Self)
        ensures
            out@ == with_flag16(self@, Self::WIN_OBJ_BG3, bit),
            flag16(out@, Self::WIN_OBJ_BG3) == bit,
    {
        WindowOut(set_flag16(self.0, Self::WIN_OBJ_BG3, bit))
    }

    pub fn win_obj_obj(self) -> (on: bool)
        ensures
            on == flag16(self@, Self::WIN_OBJ_OBJ),
    {
        get_flag16(self.0, Self::WIN_OBJ_OBJ)
    }

    pub fn with_win_obj_obj(self, bit: bool) -> (out: Self)
        ensures
            out@ == with_flag16(self@, Self::WIN_OBJ_OBJ, bit),
            flag16(out@, Self::WIN_OBJ_OBJ) == bit,
    {
        WindowOut(set_flag16(self.0, Self::WIN_OBJ_OBJ, bit))
    }

    pub fn win_obj_color_effect(self) -> (on: bool)
        ensures
            on == flag16(self@, Self::WIN_OBJ_COLOR_EFFECT),
    {
        get_flag16(self.0, Self::WIN_OBJ_COLOR_EFFECT)
    }

    pub fn with_win_obj_color_effect(self, bit: bool) -> (out: Self)
        ensures
            out@ == with_flag16(self@, Self::WIN_OBJ_COLOR_EFFECT, bit),
            flag16(out@, Self::WIN_OBJ_COLOR_EFFECT) == bit,
    {
        WindowOut(set_flag16(self.0, Self::WIN_OBJ_COLOR_EFFECT, bit))
    }
}

/// What color special effect to apply to selected pixels.
#[derive(Debug, Clone, Copy, PartialEq, Eq, Structural)]
pub enum ColorSpecialEffect {
    /// No color effect.
    NoEffect,
    /// 1st and 2nd targets mixed.
    AlphaBlend,
    /// 1st target moves toward white
    BrightnessIncrease,
    /// 2nd target moves toward black
    BrightnessDecrease,
}

impl ColorSpecialEffect {
    /// The integer that stands for this tag in a register.
    pub open spec fn raw(self) -> u16 {
        match self {
            ColorSpecialEffect::NoEffect => 0,
            ColorSpecialEffect::AlphaBlend => 1,
            ColorSpecialEffect::BrightnessIncrease => 2,
            ColorSpecialEffect::BrightnessDecrease => 3,
        }
    }

    /// The tag that `raw` stands for; `None` where it stands for none.
    pub open spec fn decode(raw: u16) -> Option<Self> {
        match raw {
            0 => Some(ColorSpecialEffect::NoEffect),
            1 => Some(ColorSpecialEffect::AlphaBlend),
            2 => Some(ColorSpecialEffect::BrightnessIncrease),
            3 => Some(ColorSpecialEffect::BrightnessDecrease),
            _ => None,
        }
    }

    /// Encodes the tag as the integer that stands for it.
    pub fn to_raw(self) -> (raw: u16)
        ensures
            raw == self.raw(),
    {
        match self {
            ColorSpecialEffect::NoEffect => 0,
            ColorSpecialEffect::AlphaBlend => 1,
            ColorSpecialEffect::BrightnessIncrease => 2,
            ColorSpecialEffect::BrightnessDecrease => 3,
        }
    }

    /// Decodes an integer. A value that is no tag's is reported, not replaced.
    pub fn from_raw(raw: u16) -> (tag: Option<Self>)
        ensures
            tag == Self::decode(raw),
    {
        match raw {
            0 => Some(ColorSpecialEffect::NoEffect),
            1 => Some(ColorSpecialEffect::AlphaBlend),
            2 => Some(ColorSpecialEffect::BrightnessIncrease),
            3 => Some(ColorSpecialEffect::BrightnessDecrease),
            _ => None,
        }
    }

    /// Encoding and decoding are inverse to each other on the declared tags,
    /// and nothing else decodes.
    pub proof fn lemma_tags_round_trip(tag: Self, raw: u16)
        ensures
            Self::decode(tag.raw()) == Some(tag),
            Self::decode(raw) == Some(tag) <==> tag.raw() == raw,
            Self::decode(raw) is None <==> raw > 3,
    {
    }
}

/// Controls the color special effect
///
/// * 0-5: 1st target pixel selections
/// * 6-7: color special effect
/// * 8-13: 2nd target pixel selections
///
/// "1st target" picks the top-most pixel among the selections, and then "2nd
/// target" will pick the pixel underneath that. The "2nd target" only matters
/// if you've selected the AlphaBlend effect.
///
/// For the names, note that BD = Backdrop (the color when nothing at all is
/// drawn from any background or object).
#[derive(Debug, Clone, Copy, PartialEq, Eq, Structural)]
pub struct BlendControl(u16);

impl View for BlendControl {
    type V = u16;

    closed spec fn view(&self) -> u16 {
        self.0
    }
}

impl Default for BlendControl {
    fn default() -> (out: Self)
        ensures
            out@ == 0,
    {
        BlendControl(0)
    }
}

impl Register for BlendControl {
    open spec fn width() -> Width {
        Width::Half
    }

    open spec fn bits(self) -> u32 {
        self@ as u32
    }

    fn access_width() -> (width: Width) {
        Width::Half
    }

    fn to_bits(self) -> (bits: u32) {
        self.0 as u32
    }

    fn from_bits(bits: u32) -> (out: Self) {
        BlendControl(bits as u16)
    }

    proof fn lemma_bits_fit(self) {
    }

    proof fn lemma_bits_determine(self, other: Self) {
    }
}

impl BlendControl {
    /// Where `bg0_1st_target` lies: bit 0.
    pub const BG0_1ST_TARGET: u32 = 0;

    /// Where `bg1_1st_target` lies: bit 1.
    pub const BG1_1ST_TARGET: u32 = 1;

    /// Where `bg2_1st_target` lies: bit 2.
    pub const BG2_1ST_TARGET: u32 = 2;

    /// Where `bg3_1st_target` lies: bit 3.
    pub const BG3_1ST_TARGET: u32 = 3;

    /// Where `obj_1st_target` lies: bit 4.
    pub const OBJ_1ST_TARGET: u32 = 4;

    /// Where `bd_1st_target` lies: bit 5.
    pub const BD_1ST_TARGET: u32 = 5;

    /// Where `color_special_effect` lies: bits 6 to 7.
    pub const COLOR_SPECIAL_EFFECT: Field = (6, 7);

    /// Where `bg0_2nd_target` lies: bit 8.
    pub const BG0_2ND_TARGET: u32 = 8;

    /// Where `bg1_2nd_target` lies: bit 9.
    pub const BG1_2ND_TARGET: u32 = 9;

    /// Where `bg2_2nd_target` lies: bit 10.
    pub const BG2_2ND_TARGET: u32 = 10;

    /// Where `bg3_2nd_target` lies: bit 11.
    pub const BG3_2ND_TARGET: u32 = 11;

    /// Where `obj_2nd_target` lies: bit 12.
    pub const OBJ_2ND_TARGET: u32 = 12;

    /// Where `bd_2nd_target` lies: bit 13.
    pub const BD_2ND_TARGET: u32 = 13;

    /// The fields of the register, in the order of declaration.
    pub open spec fn layout() -> Seq<Field> {
        seq![
            (Self::BG0_1ST_TARGET, Self::BG0_1ST_TARGET),
            (Self::BG1_1ST_TARGET, Self::BG1_1ST_TARGET),
            (Self::BG2_1ST_TARGET, Self::BG2_1ST_TARGET),
            (Self::BG3_1ST_TARGET, Self::BG3_1ST_TARGET),
            (Self::OBJ_1ST_TARGET, Self::OBJ_1ST_TARGET),
            (Self::BD_1ST_TARGET, Self::BD_1ST_TARGET),
            Self::COLOR_SPECIAL_EFFECT,
            (Self::BG0_2ND_TARGET, Self::BG0_2ND_TARGET),
            (Self::BG1_2ND_TARGET, Self::BG1_2ND_TARGET),
            (Self::BG2_2ND_TARGET, Self::BG2_2ND_TARGET),
            (Self::BG3_2ND_TARGET, Self::BG3_2ND_TARGET),
            (Self::OBJ_2ND_TARGET, Self::OBJ_2ND_TARGET),
            (Self::BD_2ND_TARGET, Self::BD_2ND_TARGET),
        ]
    }

    /// Every field lies inside the sixteen bits, and no two of them share a bit.
    pub proof fn lemma_layout()
        ensures
            layout_ok(Self::layout(), 16),
    {
    }

    /// Writing a value that fits to one of these fields makes the field read as
    /// that value and leaves every other of them as it was, whatever the
    /// register held.
    pub proof fn lemma_fields_independent(raw: u16, i: int, j: int, value: u16)
        requires
            0 <= i < Self::layout().len(),
            0 <= j < Self::layout().len(),
            fits16(value, Self::layout()[i]),
        ensures
            extract16(
                insert16(raw, Self::layout()[i], value),
                Self::layout()[j],
            ) == (if i == j {
                value
            } else {
                extract16(raw, Self::layout()[j])
            }),
    {
        Self::lemma_layout();
        lemma_layout_independent16(Self::layout(), i, j, raw, value);
    }

    /// The register value whose raw value is `raw`.
    pub closed spec fn of_raw(raw: u16) -> Self {
        BlendControl(raw)
    }

    /// Every raw value is the raw value of exactly one register value: wrapping
    /// `raw` and taking the raw value again gives `raw`, and wrapping the raw
    /// value of a register gives that register.
    pub proof fn lemma_raw_round_trip(raw: u16, reg: Self)
        ensures
            Self::of_raw(raw)@ == raw,
            Self::of_raw(reg@) == reg,
    {
    }

    /// The all-zero value.
    pub fn new() -> (out: Self)
        ensures
            out@ == 0,
    {
        BlendControl(0)
    }

    /// Wraps a raw value, such as one just read from hardware. Every raw value
    /// is a register value, and `to_raw` gives it back.
    pub fn from_raw(raw: u16) -> (out: Self)
        ensures
            out == Self::of_raw(raw),
            out@ == raw,
    {
        BlendControl(raw)
    }

    /// The raw value, as it is written to hardware.
    pub fn to_raw(self) -> (raw: u16)
        ensures
            raw == self@,
    {
        self.0
    }

    pub fn bg0_1st_target(self) -> (on: bool)
        ensures
            on == flag16(self@, Self::BG0_1ST_TARGET),
    {
        get_flag16(self.0, Self::BG0_1ST_TARGET)
    }

    pub fn with_bg0_1st_target(self, bit: bool) -> (out: Self)
        ensures
            out@ == with_flag16(self@, Self::BG0_1ST_TARGET, bit),
            flag16(out@, Self::BG0_1ST_TARGET) == bit,
    {
        BlendControl(set_flag16(self.0, Self::BG0_1ST_TARGET, bit))
    }

    pub fn bg1_1st_target(self) -> (on: bool)
        ensures
            on == flag16(self@, Self::BG1_1ST_TARGET),
    {
        get_flag16(self.0, Self::BG1_1ST_TARGET)
    }

    pub fn with_bg1_1st_target(self, bit: bool) -> (out: Self)
        ensures
            out@ == with_flag16(self@, Self::BG1_1ST_TARGET, bit),
            flag16(out@, Self::BG1_1ST_TARGET) == bit,
    {
        BlendControl(set_flag16(self.0, Self::BG1_1ST_TARGET, bit))
    }

    pub fn bg2_1st_target(self) -> (on: bool)
        ensures
            on == flag16(self@, Self::BG2_1ST_TARGET),
    {
        get_flag16(self.0, Self::BG2_1ST_TARGET)
    }

    pub fn with_bg2_1st_target(self, bit: bool) -> (out: Self)
        ensures
            out@ == with_flag16(self@, Self::BG2_1ST_TARGET, bit),
            flag16(out@, Self::BG2_1ST_TARGET) == bit,
    {
        BlendControl(set_flag16(self.0, Self::BG2_1ST_TARGET, bit))
    }

    pub fn bg3_1st_target(self) -> (on: bool)
        ensures
            on == flag16(self@, Self::BG3_1ST_TARGET),
    {
        get_flag16(self.0, Self::BG3_1ST_TARGET)
    }

    pub fn with_bg3_1st_target(self, bit: bool) -> (out: Self)
        ensures
            out@ == with_flag16(self@, Self::BG3_1ST_TARGET, bit),
            flag16(out@, Self::BG3_1ST_TARGET) == bit,
    {
        BlendControl(set_flag16(self.0, Self::BG3_1ST_TARGET, bit))
    }

    pub fn obj_1st_target(self) -> (on: bool)
        ensures
            on == flag16(self@, Self::OBJ_1ST_TARGET),
    {
        get_flag16(self.0, Self::OBJ_1ST_TARGET)
    }

    pub fn with_obj_1st_target(self, bit: bool) -> (out: Self)
        ensures
            out@ == with_flag16(self@, Self::OBJ_1ST_TARGET, bit),
            flag16(out@, Self::OBJ_1ST_TARGET) == bit,
    {
        BlendControl(set_flag16(self.0, Self::OBJ_1ST_TARGET, bit))
    }

    pub fn bd_1st_target(self) -> (on: bool)
        ensures
            on == flag16(self@, Self::BD_1ST_TARGET),
    {
        get_flag16(self.0, Self::BD_1ST_TARGET)
    }

    pub fn with_bd_1st_target(self, bit: bool) -> (out: Self)
        ensures
            out@ == with_flag16(self@, Self::BD_1ST_TARGET, bit),
            flag16(out@, Self::BD_1ST_TARGET) == bit,
    {
        BlendControl(set_flag16(self.0, Self::BD_1ST_TARGET, bit))
    }

    pub fn color_special_effect(self) -> (tag: Option<ColorSpecialEffect>)
        ensures
            tag == ColorSpecialEffect::decode(extract16(self@, Self::COLOR_SPECIAL_EFFECT)),
            tag is Some,
    {
        proof {
            lemma_two_bit_field16(self.0, Self::COLOR_SPECIAL_EFFECT.0);
        }
        ColorSpecialEffect::from_raw(get_bits16(self.0, Self::COLOR_SPECIAL_EFFECT))
    }

    pub fn with_color_special_effect(self, color_special_effect: ColorSpecialEffect) -> (out: Self)
        ensures
            out@ == insert16(self@, Self::COLOR_SPECIAL_EFFECT, color_special_effect.raw()),
            ColorSpecialEffect::decode(extract16(out@, Self::COLOR_SPECIAL_EFFECT))
                == Some(color_special_effect),
    {
        proof {
            lemma_small_values_fit16(
                color_special_effect.raw(),
                Self::COLOR_SPECIAL_EFFECT.0,
                Self::COLOR_SPECIAL_EFFECT.1,
            );
        }
        BlendControl(with_bits16(self.0, Self::COLOR_SPECIAL_EFFECT, color_special_effect.to_raw()))
    }

    pub fn bg0_2nd_target(self) -> (on: bool)
        ensures
            on == flag16(self@, Self::BG0_2ND_TARGET),
    {
        get_flag16(self.0, Self::BG0_2ND_TARGET)
    }

    pub fn with_bg0_2nd_target(self, bit: bool) -> (out: Self)
        ensures
            out@ == with_flag16(self@, Self::BG0_2ND_TARGET, bit),
            flag16(out@, Self::BG0_2ND_TARGET) == bit,
    {
        BlendControl(set_flag16(self.0, Self::BG0_2ND_TARGET, bit))
    }

    pub fn bg1_2nd_target(self) -> (on: bool)
        ensures
            on == flag16(self@, Self::BG1_2ND_TARGET),
    {
        get_flag16(self.0, Self::BG1_2ND_TARGET)
    }

    pub fn with_bg1_2nd_target(self, bit: bool) -> (out: Self)
        ensures
            out@ == with_flag16(self@, Self::BG1_2ND_TARGET, bit),
            flag16(out@, Self::BG1_2ND_TARGET) == bit,
    {
        BlendControl(set_flag16(self.0, Self::BG1_2ND_TARGET, bit))
    }

    pub fn bg2_2nd_target(self) -> (on: bool)
        ensures
            on == flag16(self@, Self::BG2_2ND_TARGET),
    {
        get_flag16(self.0, Self::BG2_2ND_TARGET)
    }

    pub fn with_bg2_2nd_target(self, bit: bool) -> (out: Self)
        ensures
            out@ == with_flag16(self@, Self::BG2_2ND_TARGET, bit),
            flag16(out@, Self::BG2_2ND_TARGET) == bit,
    {
        BlendControl(set_flag16(self.0, Self::BG2_2ND_TARGET, bit))
    }

    pub fn bg3_2nd_target(self) -> (on: bool)
        ensures
            on == flag16(self@, Self::BG3_2ND_TARGET),
    {
        get_flag16(self.0, Self::BG3_2ND_TARGET)
    }

    pub fn with_bg3_2nd_target(self, bit: bool) -> (out: Self)
        ensures
            out@ == with_flag16(self@, Self::BG3_2ND_TARGET, bit),
            flag16(out@, Self::BG3_2ND_TARGET) == bit,
    {
        BlendControl(set_flag16(self.0, Self::BG3_2ND_TARGET, bit))
    }

    pub fn obj_2nd_target(self) -> (on: bool)
        ensures
            on == flag16(self@, Self::OBJ_2ND_TARGET),
    {
        get_flag16(self.0, Self::OBJ_2ND_TARGET)
    }

    pub fn with_obj_2nd_target(self, bit: bool) -> (out: Self)
        ensures
            out@ == with_flag16(self@, Self::OBJ_2ND_TARGET, bit),
            flag16(out@, Self::OBJ_2ND_TARGET) == bit,
    {
        BlendControl(set_flag16(self.0, Self::OBJ_2ND_TARGET, bit))
    }

    pub fn bd_2nd_target(self) -> (on: bool)
        ensures
            on == flag16(self@, Self::BD_2ND_TARGET),
    {
        get_flag16(self.0, Self::BD_2ND_TARGET)
    }

    pub fn with_bd_2nd_target(self, bit: bool) -> (out: Self)
        ensures
            out@ == with_flag16(self@, Self::BD_2ND_TARGET, bit),
            flag16(out@, Self::BD_2ND_TARGET) == bit,
    {
        BlendControl(set_flag16(self.0, Self::BD_2ND_TARGET, bit))
    }
}

/// Controls alpha blend.
///
/// Both fields are x/16, but values above 16 are capped at 16/16.
///
/// For each color channel of an affected 1st target pixel with a valid 2nd
/// target pixel the final channel value is as follows:
///
/// * `I = min(31, I_1st * EVA + I_2nd * EVB)`
///
/// If the blend mode isn't set to `AlphaBlend`, or if the 1st target and 2nd
/// target combination isn't valid for this pixel location then this register
/// has no effect at all.
#[derive(Debug, Clone, Copy, PartialEq, Eq, Structural)]
pub struct BlendAlpha(u16);

impl View for BlendAlpha {
    type V = u16;

    closed spec fn view(&self) -> u16 {
        self.0
    }
}

impl Default for BlendAlpha {
    fn default() -> (out: Self)
        ensures
            out@ == 0,
    {
        BlendAlpha(0)
    }
}

impl Register for BlendAlpha {
    open spec fn width() -> Width {
        Width::Half
    }

    open spec fn bits(self) -> u32 {
        self@ as u32
    }

    fn access_width() -> (width: Width) {
        Width::Half
    }

    fn to_bits(self) -> (bits: u32) {
        self.0 as u32
    }

    fn from_bits(bits: u32) -> (out: Self) {
        BlendAlpha(bits as u16)
    }

    proof fn lemma_bits_fit(self) {
    }

    proof fn lemma_bits_determine(self, other: Self) {
    }
}

impl BlendAlpha {
    /// Where `eva_coefficient` lies: bits 0 to 4.
    pub const EVA_COEFFICIENT: Field = (0, 4);

    /// Where `evb_coefficient` lies: bits 8 to 12.
    pub const EVB_COEFFICIENT: Field = (8, 12);

    /// The fields of the register, in the order of declaration.
    pub open spec fn layout() -> Seq<Field> {
        seq![Self::EVA_COEFFICIENT, Self::EVB_COEFFICIENT]
    }

    /// Every field lies inside the sixteen bits, and no two of them share a bit.
    pub proof fn lemma_layout()
        ensures
            layout_ok(Self::layout(), 16),
    {
    }

    /// Writing a value that fits to one of these fields makes the field read as
    /// that value and leaves every other of them as it was, whatever the
    /// register held.
    pub proof fn lemma_fields_independent(raw: u16, i: int, j: int, value: u16)
        requires
            0 <= i < Self::layout().len(),
            0 <= j < Self::layout().len(),
            fits16(value, Self::layout()[i]),
        ensures
            extract16(
                insert16(raw, Self::layout()[i], value),
                Self::layout()[j],
            ) == (if i == j {
                value
            } else {
                extract16(raw, Self::layout()[j])
            }),
    {
        Self::lemma_layout();
        lemma_layout_independent16(Self::layout(), i, j, raw, value);
    }

    /// The register value whose raw value is `raw`.
    pub closed spec fn of_raw(raw: u16) -> Self {
        BlendAlpha(raw)
    }

    /// Every raw value is the raw value of exactly one register value: wrapping
    /// `raw` and taking the raw value again gives `raw`, and wrapping the raw
    /// value of a register gives that register.
    pub proof fn lemma_raw_round_trip(raw: u16, reg: Self)
        ensures
            Self::of_raw(raw)@ == raw,
            Self::of_raw(reg@) == reg,
    {
    }

    /// The all-zero value.
    pub fn new() -> (out: Self)
        ensures
            out@ == 0,
    {
        BlendAlpha(0)
    }

    /// Wraps a raw value, such as one just read from hardware. Every raw value
    /// is a register value, and `to_raw` gives it back.
    pub fn from_raw(raw: u16) -> (out: Self)
        ensures
            out == Self::of_raw(raw),
            out@ == raw,
    {
        BlendAlpha(raw)
    }

    /// The raw value, as it is written to hardware.
    pub fn to_raw(self) -> (raw: u16)
        ensures
            raw == self@,
    {
        self.0
    }

    pub fn eva_coefficient(self) -> (value: u16)
        ensures
            value == extract16(self@, Self::EVA_COEFFICIENT),
            fits16(value, Self::EVA_COEFFICIENT),
    {
        get_bits16(self.0, Self::EVA_COEFFICIENT)
    }

    pub fn with_eva_coefficient(self, eva_coefficient: u16) -> (out: Self)
        ensures
            out@ == insert16(self@, Self::EVA_COEFFICIENT, eva_coefficient),
            fits16(eva_coefficient, Self::EVA_COEFFICIENT)
                ==> extract16(out@, Self::EVA_COEFFICIENT) == eva_coefficient,
    {
        BlendAlpha(with_bits16(self.0, Self::EVA_COEFFICIENT, eva_coefficient))
    }

    pub fn evb_coefficient(self) -> (value: u16)
        ensures
            value == extract16(self@, Self::EVB_COEFFICIENT),
            fits16(value, Self::EVB_COEFFICIENT),
    {
        get_bits16(self.0, Self::EVB_COEFFICIENT)
    }

    pub fn with_evb_coefficient(self, evb_coefficient: u16) -> (out: Self)
        ensures
            out@ == insert16(self@, Self::EVB_COEFFICIENT, evb_coefficient),
            fits16(evb_coefficient, Self::EVB_COEFFICIENT)
                ==> extract16(out@, Self::EVB_COEFFICIENT) == evb_coefficient,
    {
        BlendAlpha(with_bits16(self.0, Self::EVB_COEFFICIENT, evb_coefficient))
    }
}

/// Controls brightness blend.
///
/// This is x/16, but values above 16 are capped at 16/16.
///
/// For each color channel of an affected 1st target pixel the final channel
/// value is as follows:
///
/// * **Increase:** `I = I_1st + (31 - I_1st) * EVY`
/// * **Decrease:** `I = I_1st - I_1st * EVY`
///
/// If the blend mode isn't set to `BrightnessIncrease` or
/// `BrightnessDecrease` this register has no effect at all.
#[derive(Debug, Clone, Copy, PartialEq, Eq, Structural)]
pub struct BlendBrightness(u16);

impl View for BlendBrightness {
    type V = u16;

    closed spec fn view(&self) -> u16 {
        self.0
    }
}

impl Default for BlendBrightness {
    fn default() -> (out: Self)
        ensures
            out@ == 0,
    {
        BlendBrightness(0)
    }
}

impl Register for BlendBrightness {
    open spec fn width() -> Width {
        Width::Half
    }

    open spec fn bits(self) -> u32 {
        self@ as u32
    }

    fn access_width() -> (width: Width) {
        Width::Half
    }

    fn to_bits(self) -> (bits: u32) {
        self.0 as u32
    }

    fn from_bits(bits: u32) -> (out: Self) {
        BlendBrightness(bits as u16)
    }

    proof fn lemma_bits_fit(self) {
    }

    proof fn lemma_bits_determine(self, other: Self) {
    }
}

impl BlendBrightness {
    /// Where `evy_coefficient` lies: bits 0 to 4.
    pub const EVY_COEFFICIENT: Field = (0, 4);

    /// The fields of the register, in the order of declaration.
    pub open spec fn layout() -> Seq<Field> {
        seq![Self::EVY_COEFFICIENT]
    }

    /// Every field lies inside the sixteen bits, and no two of them share a bit.
    pub proof fn lemma_layout()
        ensures
            layout_ok(Self::layout(), 16),
    {
    }

    /// Writing a value that fits to one of these fields makes the field read as
    /// that value and leaves every other of them as it was, whatever the
    /// register held.
    pub proof fn lemma_fields_independent(raw: u16, i: int, j: int, value: u16)
        requires
            0 <= i < Self::layout().len(),
            0 <= j < Self::layout().len(),
            fits16(value, Self::layout()[i]),
        ensures
            extract16(
                insert16(raw, Self::layout()[i], value),
                Self::layout()[j],
            ) == (if i == j {
                value
            } else {
                extract16(raw, Self::layout()[j])
            }),
    {
        Self::lemma_layout();
        lemma_layout_independent16(Self::layout(), i, j, raw, value);
    }

    /// The register value whose raw value is `raw`.
    pub closed spec fn of_raw(raw: u16) -> Self {
        BlendBrightness(raw)
    }

    /// Every raw value is the raw value of exactly one register value: wrapping
    /// `raw` and taking the raw value again gives `raw`, and wrapping the raw
    /// value of a register gives that register.
    pub proof fn lemma_raw_round_trip(raw: u16, reg: Self)
        ensures
            Self::of_raw(raw)@ == raw,
            Self::of_raw(reg@) == reg,
    {
    }

    /// The all-zero value.
    pub fn new() -> (out: Self)
        ensures
            out@ == 0,
    {
        BlendBrightness(0)
    }

    /// Wraps a raw value, such as one just read from hardware. Every raw value
    /// is a register value, and `to_raw` gives it back.
    pub fn from_raw(raw: u16) -> (out: Self)
        ensures
            out == Self::of_raw(raw),
            out@ == raw,
    {
        BlendBrightness(raw)
    }

    /// The raw value, as it is written to hardware.
    pub fn to_raw(self) -> (raw: u16)
        ensures
            raw == self@,
    {
        self.0
    }

    pub fn evy_coefficient(self) -> (value: u16)
        ensures
            value == extract16(self@, Self::EVY_COEFFICIENT),
            fits16(value, Self::EVY_COEFFICIENT),
    {
        get_bits16(self.0, Self::EVY_COEFFICIENT)
    }

    pub fn with_evy_coefficient(self, evy_coefficient: u16) -> (out: Self)
        ensures
            out@ == insert16(self@, Self::EVY_COEFFICIENT, evy_coefficient),
            fits16(evy_coefficient, Self::EVY_COEFFICIENT)
                ==> extract16(out@, Self::EVY_COEFFICIENT) == evy_coefficient,
    {
        BlendBrightness(with_bits16(self.0, Self::EVY_COEFFICIENT, evy_coefficient))
    }
}

/// Color values on the GBA.
#[derive(Debug, Clone, Copy, PartialEq, Eq, Structural)]
pub struct Color(pub u16);

impl View for Color {
    type V = u16;

    open spec fn view(&self) -> u16 {
        self.0
    }
}

impl Default for Color {
    fn default() -> (out: Self)
        ensures
            out@ == 0,
    {
        Color(0)
    }
}

impl Register for Color {
    open spec fn width() -> Width {
        Width::Half
    }

    open spec fn bits(self) -> u32 {
        self@ as u32
    }

    fn access_width() -> (width: Width) {
        Width::Half
    }

    fn to_bits(self) -> (bits: u32) {
        self.0 as u32
    }

    fn from_bits(bits: u32) -> (out: Self) {
        Color(bits as u16)
    }

    proof fn lemma_bits_fit(self) {
    }

    proof fn lemma_bits_determine(self, other: Self) {
    }
}

impl Color {
    /// Where `red` lies: bits 0 to 4.
    pub const RED: Field = (0, 4);

    /// Where `green` lies: bits 5 to 9.
    pub const GREEN: Field = (5, 9);

    /// Where `blue` lies: bits 10 to 14.
    pub const BLUE: Field = (10, 14);

    /// The fields of the register, in the order of declaration.
    pub open spec fn layout() -> Seq<Field> {
        seq![Self::RED, Self::GREEN, Self::BLUE]
    }

    /// Every field lies inside the sixteen bits, and no two of them share a bit.
    pub proof fn lemma_layout()
        ensures
            layout_ok(Self::layout(), 16),
    {
    }

    /// Writing a value that fits to one of these fields makes the field read as
    /// that value and leaves every other of them as it was, whatever the
    /// register held.
    pub proof fn lemma_fields_independent(raw: u16, i: int, j: int, value: u16)
        requires
            0 <= i < Self::layout().len(),
            0 <= j < Self::layout().len(),
            fits16(value, Self::layout()[i]),
        ensures
            extract16(
                insert16(raw, Self::layout()[i], value),
                Self::layout()[j],
            ) == (if i == j {
                value
            } else {
                extract16(raw, Self::layout()[j])
            }),
    {
        Self::lemma_layout();
        lemma_layout_independent16(Self::layout(), i, j, raw, value);
    }

    /// The register value whose raw value is `raw`.
    pub open spec fn of_raw(raw: u16) -> Self {
        Color(raw)
    }

    /// Every raw value is the raw value of exactly one register value: wrapping
    /// `raw` and taking the raw value again gives `raw`, and wrapping the raw
    /// value of a register gives that register.
    pub proof fn lemma_raw_round_trip(raw: u16, reg: Self)
        ensures
            Self::of_raw(raw)@ == raw,
            Self::of_raw(reg@) == reg,
    {
    }

    /// The all-zero value.
    pub fn new() -> (out: Self)
        ensures
            out@ == 0,
    {
        Color(0)
    }

    /// Wraps a raw value, such as one just read from hardware. Every raw value
    /// is a register value, and `to_raw` gives it back.
    pub fn from_raw(raw: u16) -> (out: Self)
        ensures
            out == Self::of_raw(raw),
            out@ == raw,
    {
        Color(raw)
    }

    /// The raw value, as it is written to hardware.
    pub fn to_raw(self) -> (raw: u16)
        ensures
            raw == self@,
    {
        self.0
    }

    pub fn red(self) -> (value: u16)
        ensures
            value == extract16(self@, Self::RED),
            fits16(value, Self::RED),
    {
        get_bits16(self.0, Self::RED)
    }

    pub fn with_red(self, red: u16) -> (out: Self)
        ensures
            out@ == insert16(self@, Self::RED, red),
            fits16(red, Self::RED) ==> extract16(out@, Self::RED) == red,
    {
        Color(with_bits16(self.0, Self::RED, red))
    }

    pub fn green(self) -> (value: u16)
        ensures
            value == extract16(self@, Self::GREEN),
            fits16(value, Self::GREEN),
    {
        get_bits16(self.0, Self::GREEN)
    }

    pub fn with_green(self, green: u16) -> (out: Self)
        ensures
            out@ == insert16(self@, Self::GREEN, green),
            fits16(green, Self::GREEN) ==> extract16(out@, Self::GREEN) == green,
    {
        Color(with_bits16(self.0, Self::GREEN, green))
    }

    pub fn blue(self) -> (value: u16)
        ensures
            value == extract16(self@, Self::BLUE),
            fits16(value, Self::BLUE),
    {
        get_bits16(self.0, Self::BLUE)
    }

    pub fn with_blue(self, blue: u16) -> (out: Self)
        ensures
            out@ == insert16(self@, Self::BLUE, blue),
            fits16(blue, Self::BLUE) ==> extract16(out@, Self::BLUE) == blue,
    {
        Color(with_bits16(self.0, Self::BLUE, blue))
    }
}

} // verus!
