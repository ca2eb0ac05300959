//! Registers of the DMA units.

use crate::bits::{
    Field, extract16, fits16, flag16, get_bits16, get_flag16, insert16, layout_ok,
    lemma_layout_independent16, lemma_small_values_fit16, lemma_two_bit_field16, set_flag16,
    with_bits16, with_flag16,
};
use crate::register::{Register, Width};
use vstd::prelude::*;

verus! {

/// Controls the change in DMA destination address
#[derive(Debug, Clone, Copy, PartialEq, Eq, Structural)]
pub enum DestAddressControl {
    Increment,
    Decrement,
    Fixed,
    IncrementReload,
}

impl DestAddressControl {
    /// The integer that stands for this tag in a register.
    pub open spec fn raw(self) -> u16 {
        match self {
            DestAddressControl::Increment => 0,
            DestAddressControl::Decrement => 1,
            DestAddressControl::Fixed => 2,
            DestAddressControl::IncrementReload => 3,
        }
    }

    /// The tag that `raw` stands for; `None` where it stands for none.
    pub open spec fn decode(raw: u16) -> Option<Self> {
        match raw {
            0 => Some(DestAddressControl::Increment),
            1 => Some(DestAddressControl::Decrement),
            2 => Some(DestAddressControl::Fixed),
            3 => Some(DestAddressControl::IncrementReload),
            _ => None,
        }
    }

    /// Encodes the tag as the integer that stands for it.
    pub fn to_raw(self) -> (raw: u16)
        ensures
            raw == self.raw(),
    {
        match self {
            DestAddressControl::Increment => 0,
            DestAddressControl::Decrement => 1,
            DestAddressControl::Fixed => 2,
            DestAddressControl::IncrementReload => 3,
        }
    }

    /// Decodes an integer. A value that is no tag's is reported, not replaced.
    pub fn from_raw(raw: u16) -> (tag: Option<Self>)
        ensures
            tag == Self::decode(raw),
    {
        match raw {
            0 => Some(DestAddressControl::Increment),
            1 => Some(DestAddressControl::Decrement),
            2 => Some(DestAddressControl::Fixed),
            3 => Some(DestAddressControl::IncrementReload),
            _ => None,
        }
    }

    /// Encoding and decoding are inverse to each other on the declared tags,
    /// and nothing else decodes.
    pub proof fn lemma_tags_round_trip(tag: Self, raw: u16)
        ensures
            Self::decode(tag.raw()) == Some(tag),
            Self::decode(raw) == Some(tag) <==> tag.raw() == raw,
            Self::decode(raw) is None <==> raw > 3,
    {
    }
}

/// Controls the change in DMA source address
#[derive(Debug, Clone, Copy, PartialEq, Eq, Structural)]
pub enum SourceAddressControl {
    Increment,
    Decrement,
    Fixed,
}

impl SourceAddressControl {
    /// The integer that stands for this tag in a register.
    pub open spec fn raw(self) -> u16 {
        match self {
            SourceAddressControl::Increment => 0,
            SourceAddressControl::Decrement => 1,
            SourceAddressControl::Fixed => 2,
        }
    }

    /// The tag that `raw` stands for; `None` where it stands for none.
    pub open spec fn decode(raw: u16) -> Option<Self> {
        match raw {
            0 => Some(SourceAddressControl::Increment),
            1 => Some(SourceAddressControl::Decrement),
            2 => Some(SourceAddressControl::Fixed),
            _ => None,
        }
    }

    /// Encodes the tag as the integer that stands for it.
    pub fn to_raw(self) -> (raw: u16)
        ensures
            raw == self.raw(),
    {
        match self {
            SourceAddressControl::Increment => 0,
            SourceAddressControl::Decrement => 1,
            SourceAddressControl::Fixed => 2,
        }
    }

    /// Decodes an integer. A value that is no tag's is reported, not replaced.
    pub fn from_raw(raw: u16) -> (tag: Option<Self>)
        ensures
            tag == Self::decode(raw),
    {
        match raw {
            0 => Some(SourceAddressControl::Increment),
            1 => Some(SourceAddressControl::Decrement),
            2 => Some(SourceAddressControl::Fixed),
            _ => None,
        }
    }

    /// Encoding and decoding are inverse to each other on the declared tags,
    /// and nothing else decodes.
    pub proof fn lemma_tags_round_trip(tag: Self, raw: u16)
        ensures
            Self::decode(tag.raw()) == Some(tag),
            Self::decode(raw) == Some(tag) <==> tag.raw() == raw,
            Self::decode(raw) is None <==> raw > 2,
    {
    }
}

/// Controls DMA starting time
#[derive(Debug, Clone, Copy, PartialEq, Eq, Structural)]
pub enum StartTiming {
    /// This actually takes 2 clock cycles
    Immediately,
    /// Trigger on VBlank
    VBlank,
    /// Trigger on HBlank
    HBlank,
    /// Varies by DMA unit:
    ///
    /// * 0: Prohibited
    /// * 1 or 2: Sound FIFO
    /// * 3: Video Capture
    Special,
}

impl StartTiming {
    /// The integer that stands for this tag in a register.
    pub open spec fn raw(self) -> u16 {
        match self {
            StartTiming::Immediately => 0,
            StartTiming::VBlank => 1,
            StartTiming::HBlank => 2,
            StartTiming::Special => 3,
        }
    }

    /// The tag that `raw` stands for; `None` where it stands for none.
    pub open spec fn decode(raw: u16) -> Option<Self> {
        match raw {
            0 => Some(StartTiming::Immediately),
            1 => Some(StartTiming::VBlank),
            2 => Some(StartTiming::HBlank),
            3 => Some(StartTiming::Special),
            _ => None,
        }
    }

    /// Encodes the tag as the integer that stands for it.
    pub fn to_raw(self) -> (raw: u16)
        ensures
            raw == self.raw(),
    {
        match self {
            StartTiming::Immediately => 0,
            StartTiming::VBlank => 1,
            StartTiming::HBlank => 2,
            StartTiming::Special => 3,
        }
    }

    /// Decodes an integer. A value that is no tag's is reported, not replaced.
    pub fn from_raw(raw: u16) -> (tag: Option<Self>)
        ensures
            tag == Self::decode(raw),
    {
        match raw {
            0 => Some(StartTiming::Immediately),
            1 => Some(StartTiming::VBlank),
            2 => Some(StartTiming::HBlank),
            3 => Some(StartTiming::Special),
            _ => None,
        }
    }

    /// Encoding and decoding are inverse to each other on the declared tags,
    /// and nothing else decodes.
    pub proof fn lemma_tags_round_trip(tag: Self, raw: u16)
        ensures
            Self::decode(tag.raw()) == Some(tag),
            Self::decode(raw) == Some(tag) <==> tag.raw() == raw,
            Self::decode(raw) is None <==> raw > 3,
    {
    }
}

/// Configures a DMA unit.
///
/// * 5-6: destination address control
/// * 7-8: source address control
/// * 9: DMA repeat
/// * 10: DMA transfer type
/// * 12-13: DMA start timing
/// * 14: Interrupt when DMA ends
/// * 15: DMA Enable
///
/// DRQ is only for special game pak units, and so it isn't supported by this
/// type.
#[derive(Debug, Clone, Copy, PartialEq, Eq, Structural)]
pub struct DMAControl(u16);

impl View for DMAControl {
    type V = u16;

    closed spec fn view(&self) -> u16 {
        self.0
    }
}

impl Default for DMAControl {
    fn default() -> (out: Self)
        ensures
            out@ == 0,
    {
        DMAControl(0)
    }
}

impl Register for DMAControl {
    open spec fn width() -> Width {
        Width::Half
    }

    open spec fn bits(self) -> u32 {
        self@ as u32
    }

    fn access_width() -> (width: Width) {
        Width::Half
    }

    fn to_bits(self) -> (bits: u32) {
        self.0 as u32
    }

    fn from_bits(bits: u32) -> (out: Self) {
        DMAControl(bits as u16)
    }

    proof fn lemma_bits_fit(self) {
    }

    proof fn lemma_bits_determine(self, other: Self) {
    }
}

impl DMAControl {
    /// Where `dest_address_ctrl` lies: bits 5 to 6.
    pub const DEST_ADDRESS_CTRL: Field = (5, 6);

    /// Where `src_address_ctrl` lies: bits 7 to 8.
    pub const SRC_ADDRESS_CTRL: Field = (7, 8);

    /// Where `dma_repeats` lies: bit 9.
    pub const DMA_REPEATS: u32 = 9;

    /// Where `dma_is_32bit` lies: bit 10.
    pub const DMA_IS_32BIT: u32 = 10;

    /// Where `dma_start_time` lies: bits 12 to 13.
    pub const DMA_START_TIME: Field = (12, 13);

    /// Where `irq_at_end` lies: bit 14.
    pub const IRQ_AT_END: u32 = 14;

    /// Where `dma_enable` lies: bit 15.
    pub const DMA_ENABLE: u32 = 15;

    /// The fields of the register, in the order of declaration.
    pub open spec fn layout() -> Seq<Field> {
        seq![
            Self::DEST_ADDRESS_CTRL,
            Self::SRC_ADDRESS_CTRL,
            (Self::DMA_REPEATS, Self::DMA_REPEATS),
            (Self::DMA_IS_32BIT, Self::DMA_IS_32BIT),
            Self::DMA_START_TIME,
            (Self::IRQ_AT_END, Self::IRQ_AT_END),
            (Self::DMA_ENABLE, Self::DMA_ENABLE),
        ]
    }

    /// Every field lies inside the sixteen bits, and no two of them share a bit.
    pub proof fn lemma_layout()
        ensures
            layout_ok(Self::layout(), 16),
    {
    }

    /// Writing a value that fits to one of these fields makes the field read as
    /// that value and leaves every other of them as it was, whatever the
    /// register held.
    pub proof fn lemma_fields_independent(raw: u16, i: int, j: int, value: u16)
        requires
            0 <= i < Self::layout().len(),
            0 <= j < Self::layout().len(),
            fits16(value, Self::layout()[i]),
        ensures
            extract16(
                insert16(raw, Self::layout()[i], value),
                Self::layout()[j],
            ) == (if i == j {
                value
            } else {
                extract16(raw, Self::layout()[j])
            }),
    {
        Self::lemma_layout();
        lemma_layout_independent16(Self::layout(), i, j, raw, value);
    }

    /// The register value whose raw value is `raw`.
    pub closed spec fn of_raw(raw: u16) -> Self {
        DMAControl(raw)
    }

    /// Every raw value is the raw value of exactly one register value: wrapping
    /// `raw` and taking the raw value again gives `raw`, and wrapping the raw
    /// value of a register gives that register.
    pub proof fn lemma_raw_round_trip(raw: u16, reg: Self)
        ensures
            Self::of_raw(raw)@ == raw,
            Self::of_raw(reg@) == reg,
    {
    }

    /// The all-zero value.
    pub fn new() -> (out: Self)
        ensures
            out@ == 0,
    {
        DMAControl(0)
    }

    /// Wraps a raw value, such as one just read from hardware. Every raw value
    /// is a register value, and `to_raw` gives it back.
    pub fn from_raw(raw: u16) -> (out: Self)
        ensures
            out == Self::of_raw(raw),
            out@ == raw,
    {
        DMAControl(raw)
    }

    /// The raw value, as it is written to hardware.
    pub fn to_raw(self) -> (raw: u16)
        ensures
            raw == self@,
    {
        self.0
    }

    pub fn dest_address_ctrl(self) -> (tag: Option<DestAddressControl>)
        ensures
            tag == DestAddressControl::decode(extract16(self@, Self::DEST_ADDRESS_CTRL)),
            tag is Some,
    {
        proof {
            lemma_two_bit_field16(self.0, Self::DEST_ADDRESS_CTRL.0);
        }
        DestAddressControl::from_raw(get_bits16(self.0, Self::DEST_ADDRESS_CTRL))
    }

    pub fn with_dest_address_ctrl(self, dest_address_ctrl: DestAddressControl) -> (out: Self)
        ensures
            out@ == insert16(self@, Self::DEST_ADDRESS_CTRL, dest_address_ctrl.raw()),
            DestAddressControl::decode(extract16(out@, Self::DEST_ADDRESS_CTRL))
                == Some(dest_address_ctrl),
    {
        proof {
            lemma_small_values_fit16(
                dest_address_ctrl.raw(),
                Self::DEST_ADDRESS_CTRL.0,
                Self::DEST_ADDRESS_CTRL.1,
            );
        }
        DMAControl(with_bits16(self.0, Self::DEST_ADDRESS_CTRL, dest_address_ctrl.to_raw()))
    }

    pub fn src_address_ctrl(self) -> (tag: Option<SourceAddressControl>)
        ensures
            tag == SourceAddressControl::decode(extract16(self@, Self::SRC_ADDRESS_CTRL)),
    {
        SourceAddressControl::from_raw(get_bits16(self.0, Self::SRC_ADDRESS_CTRL))
    }

    pub fn with_src_address_ctrl(self, src_address_ctrl: SourceAddressControl) -> (out: Self)
        ensures
            out@ == insert16(self@, Self::SRC_ADDRESS_CTRL, src_address_ctrl.raw()),
            SourceAddressControl::decode(extract16(out@, Self::SRC_ADDRESS_CTRL))
                == Some(src_address_ctrl),
    {
        proof {
            lemma_small_values_fit16(
                src_address_ctrl.raw(),
                Self::SRC_ADDRESS_CTRL.0,
                Self::SRC_ADDRESS_CTRL.1,
            );
        }
        DMAControl(with_bits16(self.0, Self::SRC_ADDRESS_CTRL, src_address_ctrl.to_raw()))
    }

    pub fn dma_repeats(self) -> (on: bool)
        ensures
            on == flag16(self@, Self::DMA_REPEATS),
    {
        get_flag16(self.0, Self::DMA_REPEATS)
    }

    pub fn with_dma_repeats(self, bit: bool) -> (out: Self)
        ensures
            out@ == with_flag16(self@, Self::DMA_REPEATS, bit),
            flag16(out@, Self::DMA_REPEATS) == bit,
    {
        DMAControl(set_flag16(self.0, Self::DMA_REPEATS, bit))
    }

    pub fn dma_is_32bit(self) -> (on: bool)
        ensures
            on == flag16(self@, Self::DMA_IS_32BIT),
    {
        get_flag16(self.0, Self::DMA_IS_32BIT)
    }

    pub fn with_dma_is_32bit(self, bit: bool) -> (out: Self)
        ensures
            out@ == with_flag16(self@, Self::DMA_IS_32BIT, bit),
            flag16(out@, Self::DMA_IS_32BIT) == bit,
    {
        DMAControl(set_flag16(self.0, Self::DMA_IS_32BIT, bit))
    }

    pub fn dma_start_time(self) -> (tag: Option<StartTiming>)
        ensures
            tag == StartTiming::decode(extract16(self@, Self::DMA_START_TIME)),
            tag is Some,
    {
        proof {
            lemma_two_bit_field16(self.0, Self::DMA_START_TIME.0);
        }
        StartTiming::from_raw(get_bits16(self.0, Self::DMA_START_TIME))
    }

    pub fn with_dma_start_time(self, dma_start_time: StartTiming) -> (out: Self)
        ensures
            out@ == insert16(self@, Self::DMA_START_TIME, dma_start_time.raw()),
            StartTiming::decode(extract16(out@, Self::DMA_START_TIME)) == Some(dma_start_time),
    {
        proof {
            lemma_small_values_fit16(
                dma_start_time.raw(),
                Self::DMA_START_TIME.0,
                Self::DMA_START_TIME.1,
            );
        }
        DMAControl(with_bits16(self.0, Self::DMA_START_TIME, dma_start_time.to_raw()))
    }

    pub fn irq_at_end(self) -> (on: bool)
        ensures
            on == flag16(self@, Self::IRQ_AT_END),
    {
        get_flag16(self.0, Self::IRQ_AT_END)
    }

    pub fn with_irq_at_end(self, bit: bool) -> (out: Self)
        ensures
            out@ == with_flag16(self@, Self::IRQ_AT_END, bit),
            flag16(out@, Self::IRQ_AT_END) == bit,
    {
        DMAControl(set_flag16(self.0, Self::IRQ_AT_END, bit))
    }

    pub fn dma_enable(self) -> (on: bool)
        ensures
            on == flag16(self@, Self::DMA_ENABLE),
    {
        get_flag16(self.0, Self::DMA_ENABLE)
    }

    pub fn with_dma_enable(self, bit: bool) -> (out: Self)
        ensures
            out@ == with_flag16(self@, Self::DMA_ENABLE, bit),
            flag16(out@, Self::DMA_ENABLE) == bit,
    {
        DMAControl(set_flag16(self.0, Self::DMA_ENABLE, bit))
    }
}

} // verus!
