//! Registers of the timer units.

use crate::bits::{
    Field, extract8, fits8, flag8, get_bits8, get_flag8, insert8, layout_ok,
    lemma_layout_independent8, lemma_small_values_fit8, lemma_two_bit_field8, set_flag8, with_bits8,
    with_flag8,
};
use crate::register::{Register, Width};
use vstd::prelude::*;

verus! {

/// How often a timer ticks.
#[derive(Debug, Clone, Copy, PartialEq, Eq, Structural)]
pub enum TimerTickRate {
    /// Once every CPU cycle
    CPU1,
    /// Once per 64 CPU cycles
    CPU64,
    /// Once per 256 CPU cycles
    CPU256,
    /// Once per 1,024 CPU cycles
    CPU1024,
}

impl TimerTickRate {
    /// The integer that stands for this tag in a register.
    pub open spec fn raw(self) -> u8 {
        match self {
            TimerTickRate::CPU1 => 0,
            TimerTickRate::CPU64 => 1,
            TimerTickRate::CPU256 => 2,
            TimerTickRate::CPU1024 => 3,
        }
    }

    /// The tag that `raw` stands for; `None` where it stands for none.
    pub open spec fn decode(raw: u8) -> Option<Self> {
        match raw {
            0 => Some(TimerTickRate::CPU1),
            1 => Some(TimerTickRate::CPU64),
            2 => Some(TimerTickRate::CPU256),
            3 => Some(TimerTickRate::CPU1024),
            _ => None,
        }
    }

    /// Encodes the tag as the integer that stands for it.
    pub fn to_raw(self) -> (raw: u8)
        ensures
            raw == self.raw(),
    {
        match self {
            TimerTickRate::CPU1 => 0,
            TimerTickRate::CPU64 => 1,
            TimerTickRate::CPU256 => 2,
            TimerTickRate::CPU1024 => 3,
        }
    }

    /// Decodes an integer. A value that is no tag's is reported, not replaced.
    pub fn from_raw(raw: u8) -> (tag: Option<Self>)
        ensures
            tag == Self::decode(raw),
    {
        match raw {
            0 => Some(TimerTickRate::CPU1),
            1 => Some(TimerTickRate::CPU64),
            2 => Some(TimerTickRate::CPU256),
            3 => Some(TimerTickRate::CPU1024),
            _ => None,
        }
    }

    /// Encoding and decoding are inverse to each other on the declared tags,
    /// and nothing else decodes.
    pub proof fn lemma_tags_round_trip(tag: Self, raw: u8)
        ensures
            Self::decode(tag.raw()) == Some(tag),
            Self::decode(raw) == Some(tag) <==> tag.raw() == raw,
            Self::decode(raw) is None <==> raw > 3,
    {
    }
}

/// Controls one of the four Timer units.
///
/// * 0-1: Tick however many CPU cycles
/// * 2: Instead of above, tick once per lower timer overflow (useless with
///   Timer0).
/// * 6: Interrupt when this timer overflows
/// * 7: Enable bit.
///
/// Each timer also has a "reload" (WO) and "counter" (RO). A timer's "reload"
/// value gets copied into the "counter" value every time that it overflows,
/// or any time that the enable bit goes from 0 to 1.
#[derive(Debug, Clone, Copy, PartialEq, Eq, Structural)]
pub struct TimerControl(u8);

impl View for TimerControl {
    type V = u8;

    closed spec fn view(&self) -> u8 {
        self.0
    }
}

impl Default for TimerControl {
    fn default() -> (out: Self)
        ensures
            out@ == 0,
    {
        TimerControl(0)
    }
}

impl Register for TimerControl {
    open spec fn width() -> Width {
        Width::Byte
    }

    open spec fn bits(self) -> u32 {
        self@ as u32
    }

    fn access_width() -> (width: Width) {
        Width::Byte
    }

    fn to_bits(self) -> (bits: u32) {
        self.0 as u32
    }

    fn from_bits(bits: u32) -> (out: Self) {
        TimerControl(bits as u8)
    }

    proof fn lemma_bits_fit(self) {
    }

    proof fn lemma_bits_determine(self, other: Self) {
    }
}

impl TimerControl {
    /// Where `tick_rate` lies: bits 0 to 1.
    pub const TICK_RATE: Field = (0, 1);

    /// Where `cascade` lies: bit 2.
    pub const CASCADE: u32 = 2;

    /// Where `overflow_irq` lies: bit 6.
    pub const OVERFLOW_IRQ: u32 = 6;

    /// Where `enabled` lies: bit 7.
    pub const ENABLED: u32 = 7;

    /// The fields of the register, in the order of declaration.
    pub open spec fn layout() -> Seq<Field> {
        seq![
            Self::TICK_RATE,
            (Self::CASCADE, Self::CASCADE),
            (Self::OVERFLOW_IRQ, Self::OVERFLOW_IRQ),
            (Self::ENABLED, Self::ENABLED),
        ]
    }

    /// Every field lies inside the eight bits, and no two of them share a bit.
    pub proof fn lemma_layout()
        ensures
            layout_ok(Self::layout(), 8),
    {
    }

    /// Writing a value that fits to one of these fields makes the field read as
    /// that value and leaves every other of them as it was, whatever the
    /// register held.
    pub proof fn lemma_fields_independent(raw: u8, i: int, j: int, value: u8)
        requires
            0 <= i < Self::layout().len(),
            0 <= j < Self::layout().len(),
            fits8(value, Self::layout()[i]),
        ensures
            extract8(
                insert8(raw, Self::layout()[i], value),
                Self::layout()[j],
            ) == (if i == j {
                value
            } else {
                extract8(raw, Self::layout()[j])
            }),
    {
        Self::lemma_layout();
        lemma_layout_independent8(Self::layout(), i, j, raw, value);
    }

    /// The register value whose raw value is `raw`.
    pub closed spec fn of_raw(raw: u8) -> Self {
        TimerControl(raw)
    }

    /// Every raw value is the raw value of exactly one register value: wrapping
    /// `raw` and taking the raw value again gives `raw`, and wrapping the raw
    /// value of a register gives that register.
    pub proof fn lemma_raw_round_trip(raw: u8, reg: Self)
        ensures
            Self::of_raw(raw)@ == raw,
            Self::of_raw(reg@) == reg,
    {
    }

    /// The all-zero value.
    pub fn new() -> (out: Self)
        ensures
            out@ == 0,
    {
        TimerControl(0)
    }

    /// Wraps a raw value, such as one just read from hardware. Every raw value
    /// is a register value, and `to_raw` gives it back.
    pub fn from_raw(raw: u8) -> (out: Self)
        ensures
            out == Self::of_raw(raw),
            out@ == raw,
    {
        TimerControl(raw)
    }

    /// The raw value, as it is written to hardware.
    pub fn to_raw(self) -> (raw: u8)
        ensures
            raw == self@,
    {
        self.0
    }

    pub fn tick_rate(self) -> (tag: Option<TimerTickRate>)
        ensures
            tag == TimerTickRate::decode(extract8(self@, Self::TICK_RATE)),
            tag is Some,
    {
        proof {
            lemma_two_bit_field8(self.0, Self::TICK_RATE.0);
        }
        TimerTickRate::from_raw(get_bits8(self.0, Self::TICK_RATE))
    }

    pub fn with_tick_rate(self, tick_rate: TimerTickRate) -> (out: Self)
        ensures
            out@ == insert8(self@, Self::TICK_RATE, tick_rate.raw()),
            TimerTickRate::decode(extract8(out@, Self::TICK_RATE)) == Some(tick_rate),
    {
        proof {
            lemma_small_values_fit8(tick_rate.raw(), Self::TICK_RATE.0, Self::TICK_RATE.1);
        }
        TimerControl(with_bits8(self.0, Self::TICK_RATE, tick_rate.to_raw()))
    }

    pub fn cascade(self) -> (on: bool)
        ensures
            on == flag8(self@, Self::CASCADE),
    {
        get_flag8(self.0, Self::CASCADE)
    }

    pub fn with_cascade(self, bit: bool) -> (out: Self)
        ensures
            out@ == with_flag8(self@, Self::CASCADE, bit),
            flag8(out@, Self::CASCADE) == bit,
    {
        TimerControl(set_flag8(self.0, Self::CASCADE, bit))
    }

    pub fn overflow_irq(self) -> (on: bool)
        ensures
            on == flag8(self@, Self::OVERFLOW_IRQ),
    {
        get_flag8(self.0, Self::OVERFLOW_IRQ)
    }

    pub fn with_overflow_irq(self, bit: bool) -> (out: Self)
        ensures
            out@ == with_flag8(self@, Self::OVERFLOW_IRQ, bit),
            flag8(out@, Self::OVERFLOW_IRQ) == bit,
    {
        TimerControl(set_flag8(self.0, Self::OVERFLOW_IRQ, bit))
    }

    pub fn enabled(self) -> (on: bool)
        ensures
            on == flag8(self@, Self::ENABLED),
    {
        get_flag8(self.0, Self::ENABLED)
    }

    pub fn with_enabled(self, bit: bool) -> (out: Self)
        ensures
            out@ == with_flag8(self@, Self::ENABLED, bit),
            flag8(out@, Self::ENABLED) == bit,
    {
        TimerControl(set_flag8(self.0, Self::ENABLED, bit))
    }
}

} // verus!
