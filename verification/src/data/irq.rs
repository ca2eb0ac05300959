//! Registers of the interrupt controller.

use crate::bits::{
    Field, extract16, fits16, flag16, get_flag16, insert16, layout_ok, lemma_layout_independent16,
    set_flag16, with_flag16,
};
use crate::register::{Register, Width};
use vstd::prelude::*;

verus! {

/// This controls what types of interrupts can fire.
///
/// Note that for each type of interrupt given here, there's also an interrupt
/// flag in that item's IO control registers. For example, there's a VBlank
/// interrupt flag here, and another VBlank interrupt flag in the
/// [DisplayStatus](DisplayStatus). The locations vary by interrupt category.
///
/// In any case, BOTH flags have to be set (as well as `IME`) for the
/// interrupt to _actually_ happen at the appropriate time.
///
/// * 0: VBlank
/// * 1: HBlank
/// * 2: VCounter Match
/// * 3: Timer 0 Overflow
/// * 4: Timer 1 Overflow
/// * 5: Timer 2 Overflow
/// * 6: Timer 3 Overflow
/// * 7: Serial Communication
/// * 8: DMA 0 Completed
/// * 9: DMA 1 Completed
/// * 10: DMA 2 Completed
/// * 11: DMA 3 Completed
/// * 12: Keypad
/// * 13: Game Pak
#[derive(Debug, Clone, Copy, PartialEq, Eq, Structural)]
pub struct InterruptEnable(u16);

impl View for InterruptEnable {
    type V = u16;

    closed spec fn view(&self) -> u16 {
        self.0
    }
}

impl Default for InterruptEnable {
    fn default() -> (out: Self)
        ensures
            out@ == 0,
    {
        InterruptEnable(0)
    }
}

impl Register for InterruptEnable {
    open spec fn width() -> Width {
        Width::Half
    }

    open spec fn bits(self) -> u32 {
        self@ as u32
    }

    fn access_width() -> (width: Width) {
        Width::Half
    }

    fn to_bits(self) -> (bits: u32) {
        self.0 as u32
    }

    fn from_bits(bits: u32) -> (out: Self) {
        InterruptEnable(bits as u16)
    }

    proof fn lemma_bits_fit(self) {
    }

    proof fn lemma_bits_determine(self, other: Self) {
    }
}

impl InterruptEnable {
    /// Where `vblank` lies: bit 0.
    pub const VBLANK: u32 = 0;

    /// Where `hblank` lies: bit 1.
    pub const HBLANK: u32 = 1;

    /// Where `vcounter` lies: bit 2.
    pub const VCOUNTER: u32 = 2;

    /// Where `timer0` lies: bit 3.
    pub const TIMER0: u32 = 3;

    /// Where `timer1` lies: bit 4.
    pub const TIMER1: u32 = 4;

    /// Where `timer2` lies: bit 5.
    pub const TIMER2: u32 = 5;

    /// Where `timer3` lies: bit 6.
    pub const TIMER3: u32 = 6;

    /// Where `serial` lies: bit 7.
    pub const SERIAL: u32 = 7;

    /// Where `dma0` lies: bit 8.
    pub const DMA0: u32 = 8;

    /// Where `dma1` lies: bit 9.
    pub const DMA1: u32 = 9;

    /// Where `dma2` lies: bit 10.
    pub const DMA2: u32 = 10;

    /// Where `dma3` lies: bit 11.
    pub const DMA3: u32 = 11;

    /// Where `keypad` lies: bit 12.
    pub const KEYPAD: u32 = 12;

    /// Where `game_pak` lies: bit 13.
    pub const GAME_PAK: u32 = 13;

    /// The fields of the register, in the order of declaration.
    pub open spec fn layout() -> Seq<Field> {
        seq![
            (Self::VBLANK, Self::VBLANK),
            (Self::HBLANK, Self::HBLANK),
            (Self::VCOUNTER, Self::VCOUNTER),
            (Self::TIMER0, Self::TIMER0),
            (Self::TIMER1, Self::TIMER1),
            (Self::TIMER2, Self::TIMER2),
            (Self::TIMER3, Self::TIMER3),
            (Self::SERIAL, Self::SERIAL),
            (Self::DMA0, Self::DMA0),
            (Self::DMA1, Self::DMA1),
            (Self::DMA2, Self::DMA2),
            (Self::DMA3, Self::DMA3),
            (Self::KEYPAD, Self::KEYPAD),
            (Self::GAME_PAK, Self::GAME_PAK),
        ]
    }

    /// Every field lies inside the sixteen bits, and no two of them share a bit.
    pub proof fn lemma_layout()
        ensures
            layout_ok(Self::layout(), 16),
    {
    }

    /// Writing a value that fits to one of these fields makes the field read as
    /// that value and leaves every other of them as it was, whatever the
    /// register held.
    pub proof fn lemma_fields_independent(raw: u16, i: int, j: int, value: u16)
        requires
            0 <= i < Self::layout().len(),
            0 <= j < Self::layout().len(),
            fits16(value, Self::layout()[i]),
        ensures
            extract16(
                insert16(raw, Self::layout()[i], value),
                Self::layout()[j],
            ) == (if i == j {
                value
            } else {
                extract16(raw, Self::layout()[j])
            }),
    {
        Self::lemma_layout();
        lemma_layout_independent16(Self::layout(), i, j, raw, value);
    }

    /// The register value whose raw value is `raw`.
    pub closed spec fn of_raw(raw: u16) -> Self {
        InterruptEnable(raw)
    }

    /// Every raw value is the raw value of exactly one register value: wrapping
    /// `raw` and taking the raw value again gives `raw`, and wrapping the raw
    /// value of a register gives that register.
    pub proof fn lemma_raw_round_trip(raw: u16, reg: Self)
        ensures
            Self::of_raw(raw)@ == raw,
            Self::of_raw(reg@) == reg,
    {
    }

    /// The all-zero value.
    pub fn new() -> (out: Self)
        ensures
            out@ == 0,
    {
        InterruptEnable(0)
    }

    /// Wraps a raw value, such as one just read from hardware. Every raw value
    /// is a register value, and `to_raw` gives it back.
    pub fn from_raw(raw: u16) -> (out: Self)
        ensures
            out == Self::of_raw(raw),
            out@ == raw,
    {
        InterruptEnable(raw)
    }

    /// The raw value, as it is written to hardware.
    pub fn to_raw(self) -> (raw: u16)
        ensures
            raw == self@,
    {
        self.0
    }

    pub fn vblank(self) -> (on: bool)
        ensures
            on == flag16(self@, Self::VBLANK),
    {
        get_flag16(self.0, Self::VBLANK)
    }

    pub fn with_vblank(self, bit: bool) -> (out: Self)
        ensures
            out@ == with_flag16(self@, Self::VBLANK, bit),
            flag16(out@, Self::VBLANK) == bit,
    {
        InterruptEnable(set_flag16(self.0, Self::VBLANK, bit))
    }

    pub fn hblank(self) -> (on: bool)
        ensures
            on == flag16(self@, Self::HBLANK),
    {
        get_flag16(self.0, Self::HBLANK)
    }

    pub fn with_hblank(self, bit: bool) -> (out: Self)
        ensures
            out@ == with_flag16(self@, Self::HBLANK, bit),
            flag16(out@, Self::HBLANK) == bit,
    {
        InterruptEnable(set_flag16(self.0, Self::HBLANK, bit))
    }

    pub fn vcounter(self) -> (on: bool)
        ensures
            on == flag16(self@, Self::VCOUNTER),
    {
        get_flag16(self.0, Self::VCOUNTER)
    }

    pub fn with_vcounter(self, bit: bool) -> (out: Self)
        ensures
            out@ == with_flag16(self@, Self::VCOUNTER, bit),
            flag16(out@, Self::VCOUNTER) == bit,
    {
        InterruptEnable(set_flag16(self.0, Self::VCOUNTER, bit))
    }

    pub fn timer0(self) -> (on: bool)
        ensures
            on == flag16(self@, Self::TIMER0),
    {
        get_flag16(self.0, Self::TIMER0)
    }

    pub fn with_timer0(self, bit: bool) -> (out: Self)
        ensures
            out@ == with_flag16(self@, Self::TIMER0, bit),
            flag16(out@, Self::TIMER0) == bit,
    {
        InterruptEnable(set_flag16(self.0, Self::TIMER0, bit))
    }

    pub fn timer1(self) -> (on: bool)
        ensures
            on == flag16(self@, Self::TIMER1),
    {
        get_flag16(self.0, Self::TIMER1)
    }

    pub fn with_timer1(self, bit: bool) -> (out: Self)
        ensures
            out@ == with_flag16(self@, Self::TIMER1, bit),
            flag16(out@, Self::TIMER1) == bit,
    {
        InterruptEnable(set_flag16(self.0, Self::TIMER1, bit))
    }

    pub fn timer2(self) -> (on: bool)
        ensures
            on == flag16(self@, Self::TIMER2),
    {
        get_flag16(self.0, Self::TIMER2)
    }

    pub fn with_timer2(self, bit: bool) -> (out: Self)
        ensures
            out@ == with_flag16(self@, Self::TIMER2, bit),
            flag16(out@, Self::TIMER2) == bit,
    {
        InterruptEnable(set_flag16(self.0, Self::TIMER2, bit))
    }

    pub fn timer3(self) -> (on: bool)
        ensures
            on == flag16(self@, Self::TIMER3),
    {
        get_flag16(self.0, Self::TIMER3)
    }

    pub fn with_timer3(self, bit: bool) -> (out: Self)
        ensures
            out@ == with_flag16(self@, Self::TIMER3, bit),
            flag16(out@, Self::TIMER3) == bit,
    {
        InterruptEnable(set_flag16(self.0, Self::TIMER3, bit))
    }

    pub fn serial(self) -> (on: bool)
        ensures
            on == flag16(self@, Self::SERIAL),
    {
        get_flag16(self.0, Self::SERIAL)
    }

    pub fn with_serial(self, bit: bool) -> (out: Self)
        ensures
            out@ == with_flag16(self@, Self::SERIAL, bit),
            flag16(out@, Self::SERIAL) == bit,
    {
        InterruptEnable(set_flag16(self.0, Self::SERIAL, bit))
    }

    pub fn dma0(self) -> (on: bool)
        ensures
            on == flag16(self@, Self::DMA0),
    {
        get_flag16(self.0, Self::DMA0)
    }

    pub fn with_dma0(self, bit: bool) -> (out: Self)
        ensures
            out@ == with_flag16(self@, Self::DMA0, bit),
            flag16(out@, Self::DMA0) == bit,
    {
        InterruptEnable(set_flag16(self.0, Self::DMA0, bit))
    }

    pub fn dma1(self) -> (on: bool)
        ensures
            on == flag16(self@, Self::DMA1),
    {
        get_flag16(self.0, Self::DMA1)
    }

    pub fn with_dma1(self, bit: bool) -> (out: Self)
        ensures
            out@ == with_flag16(self@, Self::DMA1, bit),
            flag16(out@, Self::DMA1) == bit,
    {
        InterruptEnable(set_flag16(self.0, Self::DMA1, bit))
    }

    pub fn dma2(self) -> (on: bool)
        ensures
            on == flag16(self@, Self::DMA2),
    {
        get_flag16(self.0, Self::DMA2)
    }

    pub fn with_dma2(self, bit: bool) -> (out: Self)
        ensures
            out@ == with_flag16(self@, Self::DMA2, bit),
            flag16(out@, Self::DMA2) == bit,
    {
        InterruptEnable(set_flag16(self.0, Self::DMA2, bit))
    }

    pub fn dma3(self) -> (on: bool)
        ensures
            on == flag16(self@, Self::DMA3),
    {
        get_flag16(self.0, Self::DMA3)
    }

    pub fn with_dma3(self, bit: bool) -> (out: Self)
        ensures
            out@ == with_flag16(self@, Self::DMA3, bit),
            flag16(out@, Self::DMA3) == bit,
    {
        InterruptEnable(set_flag16(self.0, Self::DMA3, bit))
    }

    pub fn keypad(self) -> (on: bool)
        ensures
            on == flag16(self@, Self::KEYPAD),
    {
        get_flag16(self.0, Self::KEYPAD)
    }

    pub fn with_keypad(self, bit: bool) -> (out: Self)
        ensures
            out@ == with_flag16(self@, Self::KEYPAD, bit),
            flag16(out@, Self::KEYPAD) == bit,
    {
        InterruptEnable(set_flag16(self.0, Self::KEYPAD, bit))
    }

    pub fn game_pak(self) -> (on: bool)
        ensures
            on == flag16(self@, Self::GAME_PAK),
    {
        get_flag16(self.0, Self::GAME_PAK)
    }

    pub fn with_game_pak(self, bit: bool) -> (out: Self)
        ensures
            out@ == with_flag16(self@, Self::GAME_PAK, bit),
            flag16(out@, Self::GAME_PAK) == bit,
    {
        InterruptEnable(set_flag16(self.0, Self::GAME_PAK, bit))
    }
}

/// Interrupt Requested Flags. GBATEK `IF` register.
///
/// This has the same bit layout as the [InterruptEnable](InterruptEnable)
/// type, but this type is used to either check what interrupts are pending
/// (`irq_pending`) or acknowledge an interrupt as processed
/// (`irq_acknowledge`).
///
/// It may seem strange, but to acknowledge an interrupt as having been
/// processed, you need to **set** that bit (and only that bit), even though
/// it's already an active bit.
///
/// The full story of how to do interrupt handling properly is beyond the
/// scope of this comment, but that's the basics.
#[derive(Debug, Clone, Copy, PartialEq, Eq, Structural)]
pub struct InterruptRequestFlags(u16);

impl View for InterruptRequestFlags {
    type V = u16;

    closed spec fn view(&self) -> u16 {
        self.0
    }
}

impl Default for InterruptRequestFlags {
    fn default() -> (out: Self)
        ensures
            out@ == 0,
    {
        InterruptRequestFlags(0)
    }
}

impl Register for InterruptRequestFlags {
    open spec fn width() -> Width {
        Width::Half
    }

    open spec fn bits(self) -> u32 {
        self@ as u32
    }

    fn access_width() -> (width: Width) {
        Width::Half
    }

    fn to_bits(self) -> (bits: u32) {
        self.0 as u32
    }

    fn from_bits(bits: u32) -> (out: Self) {
        InterruptRequestFlags(bits as u16)
    }

    proof fn lemma_bits_fit(self) {
    }

    proof fn lemma_bits_determine(self, other: Self) {
    }
}

impl InterruptRequestFlags {
    /// Where `vblank` lies: bit 0.
    pub const VBLANK: u32 = 0;

    /// Where `hblank` lies: bit 1.
    pub const HBLANK: u32 = 1;

    /// Where `vcounter` lies: bit 2.
    pub const VCOUNTER: u32 = 2;

    /// Where `timer0` lies: bit 3.
    pub const TIMER0: u32 = 3;

    /// Where `timer1` lies: bit 4.
    pub const TIMER1: u32 = 4;

    /// Where `timer2` lies: bit 5.
    pub const TIMER2: u32 = 5;

    /// Where `timer3` lies: bit 6.
    pub const TIMER3: u32 = 6;

    /// Where `serial` lies: bit 7.
    pub const SERIAL: u32 = 7;

    /// Where `dma0` lies: bit 8.
    pub const DMA0: u32 = 8;

    /// Where `dma1` lies: bit 9.
    pub const DMA1: u32 = 9;

    /// Where `dma2` lies: bit 10.
    pub const DMA2: u32 = 10;

    /// Where `dma3` lies: bit 11.
    pub const DMA3: u32 = 11;

    /// Where `keypad` lies: bit 12.
    pub const KEYPAD: u32 = 12;

    /// Where `game_pak` lies: bit 13.
    pub const GAME_PAK: u32 = 13;

    /// The fields of the register, in the order of declaration.
    pub open spec fn layout() -> Seq<Field> {
        seq![
            (Self::VBLANK, Self::VBLANK),
            (Self::HBLANK, Self::HBLANK),
            (Self::VCOUNTER, Self::VCOUNTER),
            (Self::TIMER0, Self::TIMER0),
            (Self::TIMER1, Self::TIMER1),
            (Self::TIMER2, Self::TIMER2),
            (Self::TIMER3, Self::TIMER3),
            (Self::SERIAL, Self::SERIAL),
            (Self::DMA0, Self::DMA0),
            (Self::DMA1, Self::DMA1),
            (Self::DMA2, Self::DMA2),
            (Self::DMA3, Self::DMA3),
            (Self::KEYPAD, Self::KEYPAD),
            (Self::GAME_PAK, Self::GAME_PAK),
        ]
    }

    /// Every field lies inside the sixteen bits, and no two of them share a bit.
    pub proof fn lemma_layout()
        ensures
            layout_ok(Self::layout(), 16),
    {
    }

    /// Writing a value that fits to one of these fields makes the field read as
    /// that value and leaves every other of them as it was, whatever the
    /// register held.
    pub proof fn lemma_fields_independent(raw: u16, i: int, j: int, value: u16)
        requires
            0 <= i < Self::layout().len(),
            0 <= j < Self::layout().len(),
            fits16(value, Self::layout()[i]),
        ensures
            extract16(
                insert16(raw, Self::layout()[i], value),
                Self::layout()[j],
            ) == (if i == j {
                value
            } else {
                extract16(raw, Self::layout()[j])
            }),
    {
        Self::lemma_layout();
        lemma_layout_independent16(Self::layout(), i, j, raw, value);
    }

    /// The register value whose raw value is `raw`.
    pub closed spec fn of_raw(raw: u16) -> Self {
        InterruptRequestFlags(raw)
    }

    /// Every raw value is the raw value of exactly one register value: wrapping
    /// `raw` and taking the raw value again gives `raw`, and wrapping the raw
    /// value of a register gives that register.
    pub proof fn lemma_raw_round_trip(raw: u16, reg: Self)
        ensures
            Self::of_raw(raw)@ == raw,
            Self::of_raw(reg@) == reg,
    {
    }

    /// The all-zero value.
    pub fn new() -> (out: Self)
        ensures
            out@ == 0,
    {
        InterruptRequestFlags(0)
    }

    /// Wraps a raw value, such as one just read from hardware. Every raw value
    /// is a register value, and `to_raw` gives it back.
    pub fn from_raw(raw: u16) -> (out: Self)
        ensures
            out == Self::of_raw(raw),
            out@ == raw,
    {
        InterruptRequestFlags(raw)
    }

    /// The raw value, as it is written to hardware.
    pub fn to_raw(self) -> (raw: u16)
        ensures
            raw == self@,
    {
        self.0
    }

    pub fn vblank(self) -> (on: bool)
        ensures
            on == flag16(self@, Self::VBLANK),
    {
        get_flag16(self.0, Self::VBLANK)
    }

    pub fn with_vblank(self, bit: bool) -> (out: Self)
        ensures
            out@ == with_flag16(self@, Self::VBLANK, bit),
            flag16(out@, Self::VBLANK) == bit,
    {
        InterruptRequestFlags(set_flag16(self.0, Self::VBLANK, bit))
    }

    pub fn hblank(self) -> (on: bool)
        ensures
            on == flag16(self@, Self::HBLANK),
    {
        get_flag16(self.0, Self::HBLANK)
    }

    pub fn with_hblank(self, bit: bool) -> (out: Self)
        ensures
            out@ == with_flag16(self@, Self::HBLANK, bit),
            flag16(out@, Self::HBLANK) == bit,
    {
        InterruptRequestFlags(set_flag16(self.0, Self::HBLANK, bit))
    }

    pub fn vcounter(self) -> (on: bool)
        ensures
            on == flag16(self@, Self::VCOUNTER),
    {
        get_flag16(self.0, Self::VCOUNTER)
    }

    pub fn with_vcounter(self, bit: bool) -> (out: Self)
        ensures
            out@ == with_flag16(self@, Self::VCOUNTER, bit),
            flag16(out@, Self::VCOUNTER) == bit,
    {
        InterruptRequestFlags(set_flag16(self.0, Self::VCOUNTER, bit))
    }

    pub fn timer0(self) -> (on: bool)
        ensures
            on == flag16(self@, Self::TIMER0),
    {
        get_flag16(self.0, Self::TIMER0)
    }

    pub fn with_timer0(self, bit: bool) -> (out: Self)
        ensures
            out@ == with_flag16(self@, Self::TIMER0, bit),
            flag16(out@, Self::TIMER0) == bit,
    {
        InterruptRequestFlags(set_flag16(self.0, Self::TIMER0, bit))
    }

    pub fn timer1(self) -> (on: bool)
        ensures
            on == flag16(self@, Self::TIMER1),
    {
        get_flag16(self.0, Self::TIMER1)
    }

    pub fn with_timer1(self, bit: bool) -> (out: Self)
        ensures
            out@ == with_flag16(self@, Self::TIMER1, bit),
            flag16(out@, Self::TIMER1) == bit,
    {
        InterruptRequestFlags(set_flag16(self.0, Self::TIMER1, bit))
    }

    pub fn timer2(self) -> (on: bool)
        ensures
            on == flag16(self@, Self::TIMER2),
    {
        get_flag16(self.0, Self::TIMER2)
    }

    pub fn with_timer2(self, bit: bool) -> (out: Self)
        ensures
            out@ == with_flag16(self@, Self::TIMER2, bit),
            flag16(out@, Self::TIMER2) == bit,
    {
        InterruptRequestFlags(set_flag16(self.0, Self::TIMER2, bit))
    }

    pub fn timer3(self) -> (on: bool)
        ensures
            on == flag16(self@, Self::TIMER3),
    {
        get_flag16(self.0, Self::TIMER3)
    }

    pub fn with_timer3(self, bit: bool) -> (out: Self)
        ensures
            out@ == with_flag16(self@, Self::TIMER3, bit),
            flag16(out@, Self::TIMER3) == bit,
    {
        InterruptRequestFlags(set_flag16(self.0, Self::TIMER3, bit))
    }

    pub fn serial(self) -> (on: bool)
        ensures
            on == flag16(self@, Self::SERIAL),
    {
        get_flag16(self.0, Self::SERIAL)
    }

    pub fn with_serial(self, bit: bool) -> (out: Self)
        ensures
            out@ == with_flag16(self@, Self::SERIAL, bit),
            flag16(out@, Self::SERIAL) == bit,
    {
        InterruptRequestFlags(set_flag16(self.0, Self::SERIAL, bit))
    }

    pub fn dma0(self) -> (on: bool)
        ensures
            on == flag16(self@, Self::DMA0),
    {
        get_flag16(self.0, Self::DMA0)
    }

    pub fn with_dma0(self, bit: bool) -> (out: Self)
        ensures
            out@ == with_flag16(self@, Self::DMA0, bit),
            flag16(out@, Self::DMA0) == bit,
    {
        InterruptRequestFlags(set_flag16(self.0, Self::DMA0, bit))
    }

    pub fn dma1(self) -> (on: bool)
        ensures
            on == flag16(self@, Self::DMA1),
    {
        get_flag16(self.0, Self::DMA1)
    }

    pub fn with_dma1(self, bit: bool) -> (out: Self)
        ensures
            out@ == with_flag16(self@, Self::DMA1, bit),
            flag16(out@, Self::DMA1) == bit,
    {
        InterruptRequestFlags(set_flag16(self.0, Self::DMA1, bit))
    }

    pub fn dma2(self) -> (on: bool)
        ensures
            on == flag16(self@, Self::DMA2),
    {
        get_flag16(self.0, Self::DMA2)
    }

    pub fn with_dma2(self, bit: bool) -> (out: Self)
        ensures
            out@ == with_flag16(self@, Self::DMA2, bit),
            flag16(out@, Self::DMA2) == bit,
    {
        InterruptRequestFlags(set_flag16(self.0, Self::DMA2, bit))
    }

    pub fn dma3(self) -> (on: bool)
        ensures
            on == flag16(self@, Self::DMA3),
    {
        get_flag16(self.0, Self::DMA3)
    }

    pub fn with_dma3(self, bit: bool) -> (out: Self)
        ensures
            out@ == with_flag16(self@, Self::DMA3, bit),
            flag16(out@, Self::DMA3) == bit,
    {
        InterruptRequestFlags(set_flag16(self.0, Self::DMA3, bit))
    }

    pub fn keypad(self) -> (on: bool)
        ensures
            on == flag16(self@, Self::KEYPAD),
    {
        get_flag16(self.0, Self::KEYPAD)
    }

    pub fn with_keypad(self, bit: bool) -> (out: Self)
        ensures
            out@ == with_flag16(self@, Self::KEYPAD, bit),
            flag16(out@, Self::KEYPAD) == bit,
    {
        InterruptRequestFlags(set_flag16(self.0, Self::KEYPAD, bit))
    }

    pub fn game_pak(self) -> (on: bool)
        ensures
            on == flag16(self@, Self::GAME_PAK),
    {
        get_flag16(self.0, Self::GAME_PAK)
    }

    pub fn with_game_pak(self, bit: bool) -> (out: Self)
        ensures
            out@ == with_flag16(self@, Self::GAME_PAK, bit),
            flag16(out@, Self::GAME_PAK) == bit,
    {
        InterruptRequestFlags(set_flag16(self.0, Self::GAME_PAK, bit))
    }
}

} // verus!
