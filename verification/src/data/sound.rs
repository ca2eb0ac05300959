//! Registers of the sound hardware: the four tone channels, the DMA mixer and the master controls.

use crate::bits::{
    Field, extract16, extract8, fits16, fits8, flag16, flag8, get_bits16, get_bits8, get_flag16,
    get_flag8, insert16, insert8, layout_ok, lemma_layout_independent16, lemma_layout_independent8,
    lemma_small_values_fit16, lemma_two_bit_field16, set_flag16, set_flag8, with_bits16, with_bits8,
    with_flag16, with_flag8,
};
use crate::register::{Register, Width};
use vstd::prelude::*;

verus! {

/// Controls the sweep effect (Pulse A only).
///
/// * 0-2: Shift number
/// * 3: Sweep is decreasing or increasing
/// * 4-6: Time per sweep. Units of `x/128` sec aka `x * 7.8` ms
///
/// If sweep is disabled by setting sweep time to 0, the sweep should also be
/// set to decreasing mode.
#[derive(Debug, Clone, Copy, PartialEq, Eq, Structural)]
pub struct Sweep(u8);

impl View for Sweep {
    type V = u8;

    closed spec fn view(&self) -> u8 {
        self.0
    }
}

impl Default for Sweep {
    fn default() -> (out: Self)
        ensures
            out@ == 0,
    {
        Sweep(0)
    }
}

impl Register for Sweep {
    open spec fn width() -> Width {
        Width::Byte
    }

    open spec fn bits(self) -> u32 {
        self@ as u32
    }

    fn access_width() -> (width: Width) {
        Width::Byte
    }

    fn to_bits(self) -> (bits: u32) {
        self.0 as u32
    }

    fn from_bits(bits: u32) -> (out: Self) {
        Sweep(bits as u8)
    }

    proof fn lemma_bits_fit(self) {
    }

    proof fn lemma_bits_determine(self, other: Self) {
    }
}

impl Sweep {
    /// Where `shift_num` lies: bits 0 to 2.
    pub const SHIFT_NUM: Field = (0, 2);

    /// Where `decreasing` lies: bit 3.
    pub const DECREASING: u32 = 3;

    /// Where `timer` lies: bits 4 to 6.
    pub const TIMER: Field = (4, 6);

    /// The fields of the register, in the order of declaration.
    pub open spec fn layout() -> Seq<Field> {
        seq![Self::SHIFT_NUM, (Self::DECREASING, Self::DECREASING), Self::TIMER]
    }

    /// Every field lies inside the eight bits, and no two of them share a bit.
    pub proof fn lemma_layout()
        ensures
            layout_ok(Self::layout(), 8),
    {
    }

    /// Writing a value that fits to one of these fields makes the field read as
    /// that value and leaves every other of them as it was, whatever the
    /// register held.
    pub proof fn lemma_fields_independent(raw: u8, i: int, j: int, value: u8)
        requires
            0 <= i < Self::layout().len(),
            0 <= j < Self::layout().len(),
            fits8(value, Self::layout()[i]),
        ensures
            extract8(
                insert8(raw, Self::layout()[i], value),
                Self::layout()[j],
            ) == (if i == j {
                value
            } else {
                extract8(raw, Self::layout()[j])
            }),
    {
        Self::lemma_layout();
        lemma_layout_independent8(Self::layout(), i, j, raw, value);
    }

    /// The register value whose raw value is `raw`.
    pub closed spec fn of_raw(raw: u8) -> Self {
        Sweep(raw)
    }

    /// Every raw value is the raw value of exactly one register value: wrapping
    /// `raw` and taking the raw value again gives `raw`, and wrapping the raw
    /// value of a register gives that register.
    pub proof fn lemma_raw_round_trip(raw: u8, reg: Self)
        ensures
            Self::of_raw(raw)@ == raw,
            Self::of_raw(reg@) == reg,
    {
    }

    /// The all-zero value.
    pub fn new() -> (out: Self)
        ensures
            out@ == 0,
    {
        Sweep(0)
    }

    /// Wraps a raw value, such as one just read from hardware. Every raw value
    /// is a register value, and `to_raw` gives it back.
    pub fn from_raw(raw: u8) -> (out: Self)
        ensures
            out == Self::of_raw(raw),
            out@ == raw,
    {
        Sweep(raw)
    }

    /// The raw value, as it is written to hardware.
    pub fn to_raw(self) -> (raw: u8)
        ensures
            raw == self@,
    {
        self.0
    }

    pub fn shift_num(self) -> (value: u8)
        ensures
            value == extract8(self@, Self::SHIFT_NUM),
            fits8(value, Self::SHIFT_NUM),
    {
        get_bits8(self.0, Self::SHIFT_NUM)
    }

    pub fn with_shift_num(self, shift_num: u8) -> (out: Self)
        ensures
            out@ == insert8(self@, Self::SHIFT_NUM, shift_num),
            fits8(shift_num, Self::SHIFT_NUM) ==> extract8(out@, Self::SHIFT_NUM) == shift_num,
    {
        Sweep(with_bits8(self.0, Self::SHIFT_NUM, shift_num))
    }

    pub fn decreasing(self) -> (on: bool)
        ensures
            on == flag8(self@, Self::DECREASING),
    {
        get_flag8(self.0, Self::DECREASING)
    }

    pub fn with_decreasing(self, bit: bool) -> (out: Self)
        ensures
            out@ == with_flag8(self@, Self::DECREASING, bit),
            flag8(out@, Self::DECREASING) == bit,
    {
        Sweep(set_flag8(self.0, Self::DECREASING, bit))
    }

    pub fn timer(self) -> (value: u8)
        ensures
            value == extract8(self@, Self::TIMER),
            fits8(value, Self::TIMER),
    {
        get_bits8(self.0, Self::TIMER)
    }

    pub fn with_timer(self, timer: u8) -> (out: Self)
        ensures
            out@ == insert8(self@, Self::TIMER, timer),
            fits8(timer, Self::TIMER) ==> extract8(out@, Self::TIMER) == timer,
    {
        Sweep(with_bits8(self.0, Self::TIMER, timer))
    }
}

/// How much of the pulse wave should be the "active" value.
#[derive(Debug, Clone, Copy, PartialEq, Eq, Structural)]
pub enum PulseDutyPattern {
    /// 1/8th (12.5%)
    Eighth,
    /// 1/4th (25%)
    Quarter,
    /// 1/2 (50%)
    Half,
    /// 3/4ths (75%). This sounds the same as the 25% mode.
    ThreeQuarters,
}

impl PulseDutyPattern {
    /// The integer that stands for this tag in a register.
    pub open spec fn raw(self) -> u16 {
        match self {
            PulseDutyPattern::Eighth => 0,
            PulseDutyPattern::Quarter => 1,
            PulseDutyPattern::Half => 2,
            PulseDutyPattern::ThreeQuarters => 3,
        }
    }

    /// The tag that `raw` stands for; `None` where it stands for none.
    pub open spec fn decode(raw: u16) -> Option<Self> {
        match raw {
            0 => Some(PulseDutyPattern::Eighth),
            1 => Some(PulseDutyPattern::Quarter),
            2 => Some(PulseDutyPattern::Half),
            3 => Some(PulseDutyPattern::ThreeQuarters),
            _ => None,
        }
    }

    /// Encodes the tag as the integer that stands for it.
    pub fn to_raw(self) -> (raw: u16)
        ensures
            raw == self.raw(),
    {
        match self {
            PulseDutyPattern::Eighth => 0,
            PulseDutyPattern::Quarter => 1,
            PulseDutyPattern::Half => 2,
            PulseDutyPattern::ThreeQuarters => 3,
        }
    }

    /// Decodes an integer. A value that is no tag's is reported, not replaced.
    pub fn from_raw(raw: u16) -> (tag: Option<Self>)
        ensures
            tag == Self::decode(raw),
    {
        match raw {
            0 => Some(PulseDutyPattern::Eighth),
            1 => Some(PulseDutyPattern::Quarter),
            2 => Some(PulseDutyPattern::Half),
            3 => Some(PulseDutyPattern::ThreeQuarters),
            _ => None,
        }
    }

    /// Encoding and decoding are inverse to each other on the declared tags,
    /// and nothing else decodes.
    pub proof fn lemma_tags_round_trip(tag: Self, raw: u16)
        ensures
            Self::decode(tag.raw()) == Some(tag),
            Self::decode(raw) == Some(tag) <==> tag.raw() == raw,
            Self::decode(raw) is None <==> raw > 3,
    {
    }
}

/// Combines the main pulse voice effects into a single setting.
///
/// * 0-5 (wo): Sound length, `(64-n)/256` seconds
/// * 6-7: Pulse Duty
/// * 8-10: Time per envelope step: `x/64` sec, or 0 for no envelope.
/// * 11: If the envelope is increasing or decreasing.
/// * 12-15: Initial envelope volume (0 = no sound)
#[derive(Debug, Clone, Copy, PartialEq, Eq, Structural)]
pub struct DutyLenEnvelope(u16);

impl View for DutyLenEnvelope {
    type V = u16;

    closed spec fn view(&self) -> u16 {
        self.0
    }
}

impl Default for DutyLenEnvelope {
    fn default() -> (out: Self)
        ensures
            out@ == 0,
    {
        DutyLenEnvelope(0)
    }
}

impl Register for DutyLenEnvelope {
    open spec fn width() -> Width {
        Width::Half
    }

    open spec fn bits(self) -> u32 {
        self@ as u32
    }

    fn access_width() -> (width: Width) {
        Width::Half
    }

    fn to_bits(self) -> (bits: u32) {
        self.0 as u32
    }

    fn from_bits(bits: u32) -> (out: Self) {
        DutyLenEnvelope(bits as u16)
    }

    proof fn lemma_bits_fit(self) {
    }

    proof fn lemma_bits_determine(self, other: Self) {
    }
}

impl DutyLenEnvelope {
    /// Where `length` lies: bits 0 to 5.
    pub const LENGTH: Field = (0, 5);

    /// Where `duty` lies: bits 6 to 7.
    pub const DUTY: Field = (6, 7);

    /// Where `envelope_time` lies: bits 8 to 10.
    pub const ENVELOPE_TIME: Field = (8, 10);

    /// Where `envelope_increasing` lies: bit 11.
    pub const ENVELOPE_INCREASING: u32 = 11;

    /// Where `initial_volume` lies: bits 12 to 15.
    pub const INITIAL_VOLUME: Field = (12, 15);

    /// The fields of the register, in the order of declaration.
    pub open spec fn layout() -> Seq<Field> {
        seq![
            Self::LENGTH,
            Self::DUTY,
            Self::ENVELOPE_TIME,
            (Self::ENVELOPE_INCREASING, Self::ENVELOPE_INCREASING),
            Self::INITIAL_VOLUME,
        ]
    }

    /// Every field lies inside the sixteen bits, and no two of them share a bit.
    pub proof fn lemma_layout()
        ensures
            layout_ok(Self::layout(), 16),
    {
    }

    /// Writing a value that fits to one of these fields makes the field read as
    /// that value and leaves every other of them as it was, whatever the
    /// register held.
    pub proof fn lemma_fields_independent(raw: u16, i: int, j: int, value: u16)
        requires
            0 <= i < Self::layout().len(),
            0 <= j < Self::layout().len(),
            fits16(value, Self::layout()[i]),
        ensures
            extract16(
                insert16(raw, Self::layout()[i], value),
                Self::layout()[j],
            ) == (if i == j {
                value
            } else {
                extract16(raw, Self::layout()[j])
            }),
    {
        Self::lemma_layout();
        lemma_layout_independent16(Self::layout(), i, j, raw, value);
    }

    /// The register value whose raw value is `raw`.
    pub closed spec fn of_raw(raw: u16) -> Self {
        DutyLenEnvelope(raw)
    }

    /// Every raw value is the raw value of exactly one register value: wrapping
    /// `raw` and taking the raw value again gives `raw`, and wrapping the raw
    /// value of a register gives that register.
    pub proof fn lemma_raw_round_trip(raw: u16, reg: Self)
        ensures
            Self::of_raw(raw)@ == raw,
            Self::of_raw(reg@) == reg,
    {
    }

    /// The all-zero value.
    pub fn new() -> (out: Self)
        ensures
            out@ == 0,
    {
        DutyLenEnvelope(0)
    }

    /// Wraps a raw value, such as one just read from hardware. Every raw value
    /// is a register value, and `to_raw` gives it back.
    pub fn from_raw(raw: u16) -> (out: Self)
        ensures
            out == Self::of_raw(raw),
            out@ == raw,
    {
        DutyLenEnvelope(raw)
    }

    /// The raw value, as it is written to hardware.
    pub fn to_raw(self) -> (raw: u16)
        ensures
            raw == self@,
    {
        self.0
    }

    pub fn length(self) -> (value: u16)
        ensures
            value == extract16(self@, Self::LENGTH),
            fits16(value, Self::LENGTH),
    {
        get_bits16(self.0, Self::LENGTH)
    }

    pub fn with_length(self, length: u16) -> (out: Self)
        ensures
            out@ == insert16(self@, Self::LENGTH, length),
            fits16(length, Self::LENGTH) ==> extract16(out@, Self::LENGTH) == length,
    {
        DutyLenEnvelope(with_bits16(self.0, Self::LENGTH, length))
    }

    pub fn duty(self) -> (tag: Option<PulseDutyPattern>)
        ensures
            tag == PulseDutyPattern::decode(extract16(self@, Self::DUTY)),
            tag is Some,
    {
        proof {
            lemma_two_bit_field16(self.0, Self::DUTY.0);
        }
        PulseDutyPattern::from_raw(get_bits16(self.0, Self::DUTY))
    }

    pub fn with_duty(self, duty: PulseDutyPattern) -> (out: Self)
        ensures
            out@ == insert16(self@, Self::DUTY, duty.raw()),
            PulseDutyPattern::decode(extract16(out@, Self::DUTY)) == Some(duty),
    {
        proof {
            lemma_small_values_fit16(duty.raw(), Self::DUTY.0, Self::DUTY.1);
        }
        DutyLenEnvelope(with_bits16(self.0, Self::DUTY, duty.to_raw()))
    }

    pub fn envelope_time(self) -> (value: u16)
        ensures
            value == extract16(self@, Self::ENVELOPE_TIME),
            fits16(value, Self::ENVELOPE_TIME),
    {
        get_bits16(self.0, Self::ENVELOPE_TIME)
    }

    pub fn with_envelope_time(self, envelope_time: u16) -> (out: Self)
        ensures
            out@ == insert16(self@, Self::ENVELOPE_TIME, envelope_time),
            fits16(envelope_time, Self::ENVELOPE_TIME)
                ==> extract16(out@, Self::ENVELOPE_TIME) == envelope_time,
    {
        DutyLenEnvelope(with_bits16(self.0, Self::ENVELOPE_TIME, envelope_time))
    }

    pub fn envelope_increasing(self) -> (on: bool)
        ensures
            on == flag16(self@, Self::ENVELOPE_INCREASING),
    {
        get_flag16(self.0, Self::ENVELOPE_INCREASING)
    }

    pub fn with_envelope_increasing(self, bit: bool) -> (out: Self)
        ensures
            out@ == with_flag16(self@, Self::ENVELOPE_INCREASING, bit),
            flag16(out@, Self::ENVELOPE_INCREASING) == bit,
    {
        DutyLenEnvelope(set_flag16(self.0, Self::ENVELOPE_INCREASING, bit))
    }

    pub fn initial_volume(self) -> (value: u16)
        ensures
            value == extract16(self@, Self::INITIAL_VOLUME),
            fits16(value, Self::INITIAL_VOLUME),
    {
        get_bits16(self.0, Self::INITIAL_VOLUME)
    }

    pub fn with_initial_volume(self, initial_volume: u16) -> (out: Self)
        ensures
            out@ == insert16(self@, Self::INITIAL_VOLUME, initial_volume),
            fits16(initial_volume, Self::INITIAL_VOLUME)
                ==> extract16(out@, Self::INITIAL_VOLUME) == initial_volume,
    {
        DutyLenEnvelope(with_bits16(self.0, Self::INITIAL_VOLUME, initial_volume))
    }
}

/// Frequency and master control settings
///
/// * 0-10 (wo): Frequency `131072/(2048-n)` Hz
/// * 14: Stop output when length expires
/// * 15 (wo): Initialize/restart this sound
#[derive(Debug, Clone, Copy, PartialEq, Eq, Structural)]
pub struct PulseFrequencyControl(u16);

impl View for PulseFrequencyControl {
    type V = u16;

    closed spec fn view(&self) -> u16 {
        self.0
    }
}

impl Default for PulseFrequencyControl {
    fn default() -> (out: Self)
        ensures
            out@ == 0,
    {
        PulseFrequencyControl(0)
    }
}

impl Register for PulseFrequencyControl {
    open spec fn width() -> Width {
        Width::Half
    }

    open spec fn bits(self) -> u32 {
        self@ as u32
    }

    fn access_width() -> (width: Width) {
        Width::Half
    }

    fn to_bits(self) -> (bits: u32) {
        self.0 as u32
    }

    fn from_bits(bits: u32) -> (out: Self) {
        PulseFrequencyControl(bits as u16)
    }

    proof fn lemma_bits_fit(self) {
    }

    proof fn lemma_bits_determine(self, other: Self) {
    }
}

impl PulseFrequencyControl {
    /// Where `frequency` lies: bits 0 to 10.
    pub const FREQUENCY: Field = (0, 10);

    /// Where `timeout_enabled` lies: bit 14.
    pub const TIMEOUT_ENABLED: u32 = 14;

    /// Where `init_restart` lies: bit 15.
    pub const INIT_RESTART: u32 = 15;

    /// The fields of the register, in the order of declaration.
    pub open spec fn layout() -> Seq<Field> {
        seq![
            Self::FREQUENCY,
            (Self::TIMEOUT_ENABLED, Self::TIMEOUT_ENABLED),
            (Self::INIT_RESTART, Self::INIT_RESTART),
        ]
    }

    /// Every field lies inside the sixteen bits, and no two of them share a bit.
    pub proof fn lemma_layout()
        ensures
            layout_ok(Self::layout(), 16),
    {
    }

    /// Writing a value that fits to one of these fields makes the field read as
    /// that value and leaves every other of them as it was, whatever the
    /// register held.
    pub proof fn lemma_fields_independent(raw: u16, i: int, j: int, value: u16)
        requires
            0 <= i < Self::layout().len(),
            0 <= j < Self::layout().len(),
            fits16(value, Self::layout()[i]),
        ensures
            extract16(
                insert16(raw, Self::layout()[i], value),
                Self::layout()[j],
            ) == (if i == j {
                value
            } else {
                extract16(raw, Self::layout()[j])
            }),
    {
        Self::lemma_layout();
        lemma_layout_independent16(Self::layout(), i, j, raw, value);
    }

    /// The register value whose raw value is `raw`.
    pub closed spec fn of_raw(raw: u16) -> Self {
        PulseFrequencyControl(raw)
    }

    /// Every raw value is the raw value of exactly one register value: wrapping
    /// `raw` and taking the raw value again gives `raw`, and wrapping the raw
    /// value of a register gives that register.
    pub proof fn lemma_raw_round_trip(raw: u16, reg: Self)
        ensures
            Self::of_raw(raw)@ == raw,
            Self::of_raw(reg@) == reg,
    {
    }

    /// The all-zero value.
    pub fn new() -> (out: Self)
        ensures
            out@ == 0,
    {
        PulseFrequencyControl(0)
    }

    /// Wraps a raw value, such as one just read from hardware. Every raw value
    /// is a register value, and `to_raw` gives it back.
    pub fn from_raw(raw: u16) -> (out: Self)
        ensures
            out == Self::of_raw(raw),
            out@ == raw,
    {
        PulseFrequencyControl(raw)
    }

    /// The raw value, as it is written to hardware.
    pub fn to_raw(self) -> (raw: u16)
        ensures
            raw == self@,
    {
        self.0
    }

    pub fn frequency(self) -> (value: u16)
        ensures
            value == extract16(self@, Self::FREQUENCY),
            fits16(value, Self::FREQUENCY),
    {
        get_bits16(self.0, Self::FREQUENCY)
    }

    pub fn with_frequency(self, frequency: u16) -> (out: Self)
        ensures
            out@ == insert16(self@, Self::FREQUENCY, frequency),
            fits16(frequency, Self::FREQUENCY) ==> extract16(out@, Self::FREQUENCY) == frequency,
    {
        PulseFrequencyControl(with_bits16(self.0, Self::FREQUENCY, frequency))
    }

    pub fn timeout_enabled(self) -> (on: bool)
        ensures
            on == flag16(self@, Self::TIMEOUT_ENABLED),
    {
        get_flag16(self.0, Self::TIMEOUT_ENABLED)
    }

    pub fn with_timeout_enabled(self, bit: bool) -> (out: Self)
        ensures
            out@ == with_flag16(self@, Self::TIMEOUT_ENABLED, bit),
            flag16(out@, Self::TIMEOUT_ENABLED) == bit,
    {
        PulseFrequencyControl(set_flag16(self.0, Self::TIMEOUT_ENABLED, bit))
    }

    pub fn init_restart(self) -> (on: bool)
        ensures
            on == flag16(self@, Self::INIT_RESTART),
    {
        get_flag16(self.0, Self::INIT_RESTART)
    }

    pub fn with_init_restart(self, bit: bool) -> (out: Self)
        ensures
            out@ == with_flag16(self@, Self::INIT_RESTART, bit),
            flag16(out@, Self::INIT_RESTART) == bit,
    {
        PulseFrequencyControl(set_flag16(self.0, Self::INIT_RESTART, bit))
    }
}

/// Controls how the Wave RAM is accessed, and if the sound plays at all.
///
/// * 5: true, playback runs through both banks as a 64 digit loop. false,
///   playback runs though just a single bank as a 32 digit loop.
/// * 6: true selects bank 1 for playback, false selects bank 0.
/// * 7: Wave sound is enabled.
#[derive(Debug, Clone, Copy, PartialEq, Eq, Structural)]
pub struct WaveInitRAMControl(u8);

impl View for WaveInitRAMControl {
    type V = u8;

    closed spec fn view(&self) -> u8 {
        self.0
    }
}

impl Default for WaveInitRAMControl {
    fn default() -> (out: Self)
        ensures
            out@ == 0,
    {
        WaveInitRAMControl(0)
    }
}

impl Register for WaveInitRAMControl {
    open spec fn width() -> Width {
        Width::Byte
    }

    open spec fn bits(self) -> u32 {
        self@ as u32
    }

    fn access_width() -> (width: Width) {
        Width::Byte
    }

    fn to_bits(self) -> (bits: u32) {
        self.0 as u32
    }

    fn from_bits(bits: u32) -> (out: Self) {
        WaveInitRAMControl(bits as u8)
    }

    proof fn lemma_bits_fit(self) {
    }

    proof fn lemma_bits_determine(self, other: Self) {
    }
}

impl WaveInitRAMControl {
    /// Where `use_both_banks` lies: bit 5.
    pub const USE_BOTH_BANKS: u32 = 5;

    /// Where `use_bank_1` lies: bit 6.
    pub const USE_BANK_1: u32 = 6;

    /// Where `playback` lies: bit 7.
    pub const PLAYBACK: u32 = 7;

    /// The fields of the register, in the order of declaration.
    pub open spec fn layout() -> Seq<Field> {
        seq![
            (Self::USE_BOTH_BANKS, Self::USE_BOTH_BANKS),
            (Self::USE_BANK_1, Self::USE_BANK_1),
            (Self::PLAYBACK, Self::PLAYBACK),
        ]
    }

    /// Every field lies inside the eight bits, and no two of them share a bit.
    pub proof fn lemma_layout()
        ensures
            layout_ok(Self::layout(), 8),
    {
    }

    /// Writing a value that fits to one of these fields makes the field read as
    /// that value and leaves every other of them as it was, whatever the
    /// register held.
    pub proof fn lemma_fields_independent(raw: u8, i: int, j: int, value: u8)
        requires
            0 <= i < Self::layout().len(),
            0 <= j < Self::layout().len(),
            fits8(value, Self::layout()[i]),
        ensures
            extract8(
                insert8(raw, Self::layout()[i], value),
                Self::layout()[j],
            ) == (if i == j {
                value
            } else {
                extract8(raw, Self::layout()[j])
            }),
    {
        Self::lemma_layout();
        lemma_layout_independent8(Self::layout(), i, j, raw, value);
    }

    /// The register value whose raw value is `raw`.
    pub closed spec fn of_raw(raw: u8) -> Self {
        WaveInitRAMControl(raw)
    }

    /// Every raw value is the raw value of exactly one register value: wrapping
    /// `raw` and taking the raw value again gives `raw`, and wrapping the raw
    /// value of a register gives that register.
    pub proof fn lemma_raw_round_trip(raw: u8, reg: Self)
        ensures
            Self::of_raw(raw)@ == raw,
            Self::of_raw(reg@) == reg,
    {
    }

    /// The all-zero value.
    pub fn new() -> (out: Self)
        ensures
            out@ == 0,
    {
        WaveInitRAMControl(0)
    }

    /// Wraps a raw value, such as one just read from hardware. Every raw value
    /// is a register value, and `to_raw` gives it back.
    pub fn from_raw(raw: u8) -> (out: Self)
        ensures
            out == Self::of_raw(raw),
            out@ == raw,
    {
        WaveInitRAMControl(raw)
    }

    /// The raw value, as it is written to hardware.
    pub fn to_raw(self) -> (raw: u8)
        ensures
            raw == self@,
    {
        self.0
    }

    pub fn use_both_banks(self) -> (on: bool)
        ensures
            on == flag8(self@, Self::USE_BOTH_BANKS),
    {
        get_flag8(self.0, Self::USE_BOTH_BANKS)
    }

    pub fn with_use_both_banks(self, bit: bool) -> (out: Self)
        ensures
            out@ == with_flag8(self@, Self::USE_BOTH_BANKS, bit),
            flag8(out@, Self::USE_BOTH_BANKS) == bit,
    {
        WaveInitRAMControl(set_flag8(self.0, Self::USE_BOTH_BANKS, bit))
    }

    pub fn use_bank_1(self) -> (on: bool)
        ensures
            on == flag8(self@, Self::USE_BANK_1),
    {
        get_flag8(self.0, Self::USE_BANK_1)
    }

    pub fn with_use_bank_1(self, bit: bool) -> (out: Self)
        ensures
            out@ == with_flag8(self@, Self::USE_BANK_1, bit),
            flag8(out@, Self::USE_BANK_1) == bit,
    {
        WaveInitRAMControl(set_flag8(self.0, Self::USE_BANK_1, bit))
    }

    pub fn playback(self) -> (on: bool)
        ensures
            on == flag8(self@, Self::PLAYBACK),
    {
        get_flag8(self.0, Self::PLAYBACK)
    }

    pub fn with_playback(self, bit: bool) -> (out: Self)
        ensures
            out@ == with_flag8(self@, Self::PLAYBACK, bit),
            flag8(out@, Self::PLAYBACK) == bit,
    {
        WaveInitRAMControl(set_flag8(self.0, Self::PLAYBACK, bit))
    }
}

/// How loudly the Wave output should play
#[derive(Debug, Clone, Copy, PartialEq, Eq, Structural)]
pub enum WaveVolume {
    /// No sound
    Zero,
    /// 100% sound
    Full,
    /// 50% sound
    Half,
    /// 25% sound
    Quarter,
}

impl WaveVolume {
    /// The integer that stands for this tag in a register.
    pub open spec fn raw(self) -> u16 {
        match self {
            WaveVolume::Zero => 0,
            WaveVolume::Full => 1,
            WaveVolume::Half => 2,
            WaveVolume::Quarter => 3,
        }
    }

    /// The tag that `raw` stands for; `None` where it stands for none.
    pub open spec fn decode(raw: u16) -> Option<Self> {
        match raw {
            0 => Some(WaveVolume::Zero),
            1 => Some(WaveVolume::Full),
            2 => Some(WaveVolume::Half),
            3 => Some(WaveVolume::Quarter),
            _ => None,
        }
    }

    /// Encodes the tag as the integer that stands for it.
    pub fn to_raw(self) -> (raw: u16)
        ensures
            raw == self.raw(),
    {
        match self {
            WaveVolume::Zero => 0,
            WaveVolume::Full => 1,
            WaveVolume::Half => 2,
            WaveVolume::Quarter => 3,
        }
    }

    /// Decodes an integer. A value that is no tag's is reported, not replaced.
    pub fn from_raw(raw: u16) -> (tag: Option<Self>)
        ensures
            tag == Self::decode(raw),
    {
        match raw {
            0 => Some(WaveVolume::Zero),
            1 => Some(WaveVolume::Full),
            2 => Some(WaveVolume::Half),
            3 => Some(WaveVolume::Quarter),
            _ => None,
        }
    }

    /// Encoding and decoding are inverse to each other on the declared tags,
    /// and nothing else decodes.
    pub proof fn lemma_tags_round_trip(tag: Self, raw: u16)
        ensures
            Self::decode(tag.raw()) == Some(tag),
            Self::decode(raw) == Some(tag) <==> tag.raw() == raw,
            Self::decode(raw) is None <==> raw > 3,
    {
    }
}

/// Length and Volume controls for the Wave output.
///
/// * 0-7 (wo): Sound Length: `(256-n)/256` seconds
/// * 13-14: Volume Mode
/// * 15: Override above and use 75%
#[derive(Debug, Clone, Copy, PartialEq, Eq, Structural)]
pub struct WaveLengthVolume(u16);

impl View for WaveLengthVolume {
    type V = u16;

    closed spec fn view(&self) -> u16 {
        self.0
    }
}

impl Default for WaveLengthVolume {
    fn default() -> (out: Self)
        ensures
            out@ == 0,
    {
        WaveLengthVolume(0)
    }
}

impl Register for WaveLengthVolume {
    open spec fn width() -> Width {
        Width::Half
    }

    open spec fn bits(self) -> u32 {
        self@ as u32
    }

    fn access_width() -> (width: Width) {
        Width::Half
    }

    fn to_bits(self) -> (bits: u32) {
        self.0 as u32
    }

    fn from_bits(bits: u32) -> (out: Self) {
        WaveLengthVolume(bits as u16)
    }

    proof fn lemma_bits_fit(self) {
    }

    proof fn lemma_bits_determine(self, other: Self) {
    }
}

impl WaveLengthVolume {
    /// Where `length` lies: bits 0 to 7.
    pub const LENGTH: Field = (0, 7);

    /// Where `volume` lies: bits 13 to 14.
    pub const VOLUME: Field = (13, 14);

    /// Where `override_75percent` lies: bit 15.
    pub const OVERRIDE_75PERCENT: u32 = 15;

    /// The fields of the register, in the order of declaration.
    pub open spec fn layout() -> Seq<Field> {
        seq![Self::LENGTH, Self::VOLUME, (Self::OVERRIDE_75PERCENT, Self::OVERRIDE_75PERCENT)]
    }

    /// Every field lies inside the sixteen bits, and no two of them share a bit.
    pub proof fn lemma_layout()
        ensures
            layout_ok(Self::layout(), 16),
    {
    }

    /// Writing a value that fits to one of these fields makes the field read as
    /// that value and leaves every other of them as it was, whatever the
    /// register held.
    pub proof fn lemma_fields_independent(raw: u16, i: int, j: int, value: u16)
        requires
            0 <= i < Self::layout().len(),
            0 <= j < Self::layout().len(),
            fits16(value, Self::layout()[i]),
        ensures
            extract16(
                insert16(raw, Self::layout()[i], value),
                Self::layout()[j],
            ) == (if i == j {
                value
            } else {
                extract16(raw, Self::layout()[j])
            }),
    {
        Self::lemma_layout();
        lemma_layout_independent16(Self::layout(), i, j, raw, value);
    }

    /// The register value whose raw value is `raw`.
    pub closed spec fn of_raw(raw: u16) -> Self {
        WaveLengthVolume(raw)
    }

    /// Every raw value is the raw value of exactly one register value: wrapping
    /// `raw` and taking the raw value again gives `raw`, and wrapping the raw
    /// value of a register gives that register.
    pub proof fn lemma_raw_round_trip(raw: u16, reg: Self)
        ensures
            Self::of_raw(raw)@ == raw,
            Self::of_raw(reg@) == reg,
    {
    }

    /// The all-zero value.
    pub fn new() -> (out: Self)
        ensures
            out@ == 0,
    {
        WaveLengthVolume(0)
    }

    /// Wraps a raw value, such as one just read from hardware. Every raw value
    /// is a register value, and `to_raw` gives it back.
    pub fn from_raw(raw: u16) -> (out: Self)
        ensures
            out == Self::of_raw(raw),
            out@ == raw,
    {
        WaveLengthVolume(raw)
    }

    /// The raw value, as it is written to hardware.
    pub fn to_raw(self) -> (raw: u16)
        ensures
            raw == self@,
    {
        self.0
    }

    pub fn length(self) -> (value: u16)
        ensures
            value == extract16(self@, Self::LENGTH),
            fits16(value, Self::LENGTH),
    {
        get_bits16(self.0, Self::LENGTH)
    }

    pub fn with_length(self, length: u16) -> (out: Self)
        ensures
            out@ == insert16(self@, Self::LENGTH, length),
            fits16(length, Self::LENGTH) ==> extract16(out@, Self::LENGTH) == length,
    {
        WaveLengthVolume(with_bits16(self.0, Self::LENGTH, length))
    }

    pub fn volume(self) -> (tag: Option<WaveVolume>)
        ensures
            tag == WaveVolume::decode(extract16(self@, Self::VOLUME)),
            tag is Some,
    {
        proof {
            lemma_two_bit_field16(self.0, Self::VOLUME.0);
        }
        WaveVolume::from_raw(get_bits16(self.0, Self::VOLUME))
    }

    pub fn with_volume(self, volume: WaveVolume) -> (out: Self)
        ensures
            out@ == insert16(self@, Self::VOLUME, volume.raw()),
            WaveVolume::decode(extract16(out@, Self::VOLUME)) == Some(volume),
    {
        proof {
            lemma_small_values_fit16(volume.raw(), Self::VOLUME.0, Self::VOLUME.1);
        }
        WaveLengthVolume(with_bits16(self.0, Self::VOLUME, volume.to_raw()))
    }

    pub fn override_75percent(self) -> (on: bool)
        ensures
            on == flag16(self@, Self::OVERRIDE_75PERCENT),
    {
        get_flag16(self.0, Self::OVERRIDE_75PERCENT)
    }

    pub fn with_override_75percent(self, bit: bool) -> (out: Self)
        ensures
            out@ == with_flag16(self@, Self::OVERRIDE_75PERCENT, bit),
            flag16(out@, Self::OVERRIDE_75PERCENT) == bit,
    {
        WaveLengthVolume(set_flag16(self.0, Self::OVERRIDE_75PERCENT, bit))
    }
}

/// Wave output frequency and master control settings.
///
/// * 0-10 (wo): Sample Rate `2097152/(2048-n)` Hz
/// * 14: Stop output when length expires
/// * 15 (wo): Initialize / restart the sound.
#[derive(Debug, Clone, Copy, PartialEq, Eq, Structural)]
pub struct WaveFrequencyControl(u16);

impl View for WaveFrequencyControl {
    type V = u16;

    closed spec fn view(&self) -> u16 {
        self.0
    }
}

impl Default for WaveFrequencyControl {
    fn default() -> (out: Self)
        ensures
            out@ == 0,
    {
        WaveFrequencyControl(0)
    }
}

impl Register for WaveFrequencyControl {
    open spec fn width() -> Width {
        Width::Half
    }

    open spec fn bits(self) -> u32 {
        self@ as u32
    }

    fn access_width() -> (width: Width) {
        Width::Half
    }

    fn to_bits(self) -> (bits: u32) {
        self.0 as u32
    }

    fn from_bits(bits: u32) -> (out: Self) {
        WaveFrequencyControl(bits as u16)
    }

    proof fn lemma_bits_fit(self) {
    }

    proof fn lemma_bits_determine(self, other: Self) {
    }
}

impl WaveFrequencyControl {
    /// Where `sample_rate` lies: bits 0 to 10.
    pub const SAMPLE_RATE: Field = (0, 10);

    /// Where `use_timeout` lies: bit 14.
    pub const USE_TIMEOUT: u32 = 14;

    /// Where `initialize` lies: bit 15.
    pub const INITIALIZE: u32 = 15;

    /// The fields of the register, in the order of declaration.
    pub open spec fn layout() -> Seq<Field> {
        seq![
            Self::SAMPLE_RATE,
            (Self::USE_TIMEOUT, Self::USE_TIMEOUT),
            (Self::INITIALIZE, Self::INITIALIZE),
        ]
    }

    /// Every field lies inside the sixteen bits, and no two of them share a bit.
    pub proof fn lemma_layout()
        ensures
            layout_ok(Self::layout(), 16),
    {
    }

    /// Writing a value that fits to one of these fields makes the field read as
    /// that value and leaves every other of them as it was, whatever the
    /// register held.
    pub proof fn lemma_fields_independent(raw: u16, i: int, j: int, value: u16)
        requires
            0 <= i < Self::layout().len(),
            0 <= j < Self::layout().len(),
            fits16(value, Self::layout()[i]),
        ensures
            extract16(
                insert16(raw, Self::layout()[i], value),
                Self::layout()[j],
            ) == (if i == j {
                value
            } else {
                extract16(raw, Self::layout()[j])
            }),
    {
        Self::lemma_layout();
        lemma_layout_independent16(Self::layout(), i, j, raw, value);
    }

    /// The register value whose raw value is `raw`.
    pub closed spec fn of_raw(raw: u16) -> Self {
        WaveFrequencyControl(raw)
    }

    /// Every raw value is the raw value of exactly one register value: wrapping
    /// `raw` and taking the raw value again gives `raw`, and wrapping the raw
    /// value of a register gives that register.
    pub proof fn lemma_raw_round_trip(raw: u16, reg: Self)
        ensures
            Self::of_raw(raw)@ == raw,
            Self::of_raw(reg@) == reg,
    {
    }

    /// The all-zero value.
    pub fn new() -> (out: Self)
        ensures
            out@ == 0,
    {
        WaveFrequencyControl(0)
    }

    /// Wraps a raw value, such as one just read from hardware. Every raw value
    /// is a register value, and `to_raw` gives it back.
    pub fn from_raw(raw: u16) -> (out: Self)
        ensures
            out == Self::of_raw(raw),
            out@ == raw,
    {
        WaveFrequencyControl(raw)
    }

    /// The raw value, as it is written to hardware.
    pub fn to_raw(self) -> (raw: u16)
        ensures
            raw == self@,
    {
        self.0
    }

    pub fn sample_rate(self) -> (value: u16)
        ensures
            value == extract16(self@, Self::SAMPLE_RATE),
            fits16(value, Self::SAMPLE_RATE),
    {
        get_bits16(self.0, Self::SAMPLE_RATE)
    }

    pub fn with_sample_rate(self, sample_rate: u16) -> (out: Self)
        ensures
            out@ == insert16(self@, Self::SAMPLE_RATE, sample_rate),
            fits16(sample_rate, Self::SAMPLE_RATE)
                ==> extract16(out@, Self::SAMPLE_RATE) == sample_rate,
    {
        WaveFrequencyControl(with_bits16(self.0, Self::SAMPLE_RATE, sample_rate))
    }

    pub fn use_timeout(self) -> (on: bool)
        ensures
            on == flag16(self@, Self::USE_TIMEOUT),
    {
        get_flag16(self.0, Self::USE_TIMEOUT)
    }

    pub fn with_use_timeout(self, bit: bool) -> (out: Self)
        ensures
            out@ == with_flag16(self@, Self::USE_TIMEOUT, bit),
            flag16(out@, Self::USE_TIMEOUT) == bit,
    {
        WaveFrequencyControl(set_flag16(self.0, Self::USE_TIMEOUT, bit))
    }

    pub fn initialize(self) -> (on: bool)
        ensures
            on == flag16(self@, Self::INITIALIZE),
    {
        get_flag16(self.0, Self::INITIALIZE)
    }

    pub fn with_initialize(self, bit: bool) -> (out: Self)
        ensures
            out@ == with_flag16(self@, Self::INITIALIZE, bit),
            flag16(out@, Self::INITIALIZE) == bit,
    {
        WaveFrequencyControl(set_flag16(self.0, Self::INITIALIZE, bit))
    }
}

/// Length and envelope controls for the Noise output
///
/// * 0-5 (wo): sound length `(64-n)/256` seconds
/// * 8-10: Envelope step time, `n/64` seconds, 0 for off.
/// * 11: Envelope increasing
/// * 12-15: Envelope initial volume
#[derive(Debug, Clone, Copy, PartialEq, Eq, Structural)]
pub struct LengthEnvelope(u16);

impl View for LengthEnvelope {
    type V = u16;

    closed spec fn view(&self) -> u16 {
        self.0
    }
}

impl Default for LengthEnvelope {
    fn default() -> (out: Self)
        ensures
            out@ == 0,
    {
        LengthEnvelope(0)
    }
}

impl Register for LengthEnvelope {
    open spec fn width() -> Width {
        Width::Half
    }

    open spec fn bits(self) -> u32 {
        self@ as u32
    }

    fn access_width() -> (width: Width) {
        Width::Half
    }

    fn to_bits(self) -> (bits: u32) {
        self.0 as u32
    }

    fn from_bits(bits: u32) -> (out: Self) {
        LengthEnvelope(bits as u16)
    }

    proof fn lemma_bits_fit(self) {
    }

    proof fn lemma_bits_determine(self, other: Self) {
    }
}

impl LengthEnvelope {
    /// Where `length` lies: bits 0 to 5.
    pub const LENGTH: Field = (0, 5);

    /// Where `step_time` lies: bits 8 to 10.
    pub const STEP_TIME: Field = (8, 10);

    /// Where `envelope_increasing` lies: bit 11.
    pub const ENVELOPE_INCREASING: u32 = 11;

    /// Where `initial_volume` lies: bits 12 to 15.
    pub const INITIAL_VOLUME: Field = (12, 15);

    /// The fields of the register, in the order of declaration.
    pub open spec fn layout() -> Seq<Field> {
        seq![
            Self::LENGTH,
            Self::STEP_TIME,
            (Self::ENVELOPE_INCREASING, Self::ENVELOPE_INCREASING),
            Self::INITIAL_VOLUME,
        ]
    }

    /// Every field lies inside the sixteen bits, and no two of them share a bit.
    pub proof fn lemma_layout()
        ensures
            layout_ok(Self::layout(), 16),
    {
    }

    /// Writing a value that fits to one of these fields makes the field read as
    /// that value and leaves every other of them as it was, whatever the
    /// register held.
    pub proof fn lemma_fields_independent(raw: u16, i: int, j: int, value: u16)
        requires
            0 <= i < Self::layout().len(),
            0 <= j < Self::layout().len(),
            fits16(value, Self::layout()[i]),
        ensures
            extract16(
                insert16(raw, Self::layout()[i], value),
                Self::layout()[j],
            ) == (if i == j {
                value
            } else {
                extract16(raw, Self::layout()[j])
            }),
    {
        Self::lemma_layout();
        lemma_layout_independent16(Self::layout(), i, j, raw, value);
    }

    /// The register value whose raw value is `raw`.
    pub closed spec fn of_raw(raw: u16) -> Self {
        LengthEnvelope(raw)
    }

    /// Every raw value is the raw value of exactly one register value: wrapping
    /// `raw` and taking the raw value again gives `raw`, and wrapping the raw
    /// value of a register gives that register.
    pub proof fn lemma_raw_round_trip(raw: u16, reg: Self)
        ensures
            Self::of_raw(raw)@ == raw,
            Self::of_raw(reg@) == reg,
    {
    }

    /// The all-zero value.
    pub fn new() -> (out: Self)
        ensures
            out@ == 0,
    {
        LengthEnvelope(0)
    }

    /// Wraps a raw value, such as one just read from hardware. Every raw value
    /// is a register value, and `to_raw` gives it back.
    pub fn from_raw(raw: u16) -> (out: Self)
        ensures
            out == Self::of_raw(raw),
            out@ == raw,
    {
        LengthEnvelope(raw)
    }

    /// The raw value, as it is written to hardware.
    pub fn to_raw(self) -> (raw: u16)
        ensures
            raw == self@,
    {
        self.0
    }

    pub fn length(self) -> (value: u16)
        ensures
            value == extract16(self@, Self::LENGTH),
            fits16(value, Self::LENGTH),
    {
        get_bits16(self.0, Self::LENGTH)
    }

    pub fn with_length(self, length: u16) -> (out: Self)
        ensures
            out@ == insert16(self@, Self::LENGTH, length),
            fits16(length, Self::LENGTH) ==> extract16(out@, Self::LENGTH) == length,
    {
        LengthEnvelope(with_bits16(self.0, Self::LENGTH, length))
    }

    pub fn step_time(self) -> (value: u16)
        ensures
            value == extract16(self@, Self::STEP_TIME),
            fits16(value, Self::STEP_TIME),
    {
        get_bits16(self.0, Self::STEP_TIME)
    }

    pub fn with_step_time(self, step_time: u16) -> (out: Self)
        ensures
            out@ == insert16(self@, Self::STEP_TIME, step_time),
            fits16(step_time, Self::STEP_TIME) ==> extract16(out@, Self::STEP_TIME) == step_time,
    {
        LengthEnvelope(with_bits16(self.0, Self::STEP_TIME, step_time))
    }

    pub fn envelope_increasing(self) -> (on: bool)
        ensures
            on == flag16(self@, Self::ENVELOPE_INCREASING),
    {
        get_flag16(self.0, Self::ENVELOPE_INCREASING)
    }

    pub fn with_envelope_increasing(self, bit: bool) -> (out: Self)
        ensures
            out@ == with_flag16(self@, Self::ENVELOPE_INCREASING, bit),
            flag16(out@, Self::ENVELOPE_INCREASING) == bit,
    {
        LengthEnvelope(set_flag16(self.0, Self::ENVELOPE_INCREASING, bit))
    }

    pub fn initial_volume(self) -> (value: u16)
        ensures
            value == extract16(self@, Self::INITIAL_VOLUME),
            fits16(value, Self::INITIAL_VOLUME),
    {
        get_bits16(self.0, Self::INITIAL_VOLUME)
    }

    pub fn with_initial_volume(self, initial_volume: u16) -> (out: Self)
        ensures
            out@ == insert16(self@, Self::INITIAL_VOLUME, initial_volume),
            fits16(initial_volume, Self::INITIAL_VOLUME)
                ==> extract16(out@, Self::INITIAL_VOLUME) == initial_volume,
    {
        LengthEnvelope(with_bits16(self.0, Self::INITIAL_VOLUME, initial_volume))
    }
}

/// Noise channel frequency and master control setting
///
/// Frequency is `524288 / r / 2^(s+1)` Hz. For r=0 assume r=0.5 instead.
///
/// * 0-2: divide ratio `r`
/// * 3: Use a 7-bit counter (true) or 15-bit counter (false)
/// * 4-7: shift clock frequency `s`
/// * 14: Stop output when length expires
/// * 15 (wo): Initialize / restart the sound.
#[derive(Debug, Clone, Copy, PartialEq, Eq, Structural)]
pub struct NoiseFrequencyControl(u16);

impl View for NoiseFrequencyControl {
    type V = u16;

    closed spec fn view(&self) -> u16 {
        self.0
    }
}

impl Default for NoiseFrequencyControl {
    fn default() -> (out: Self)
        ensures
            out@ == 0,
    {
        NoiseFrequencyControl(0)
    }
}

impl Register for NoiseFrequencyControl {
    open spec fn width() -> Width {
        Width::Half
    }

    open spec fn bits(self) -> u32 {
        self@ as u32
    }

    fn access_width() -> (width: Width) {
        Width::Half
    }

    fn to_bits(self) -> (bits: u32) {
        self.0 as u32
    }

    fn from_bits(bits: u32) -> (out: Self) {
        NoiseFrequencyControl(bits as u16)
    }

    proof fn lemma_bits_fit(self) {
    }

    proof fn lemma_bits_determine(self, other: Self) {
    }
}

impl NoiseFrequencyControl {
    /// Where `divide_ratio` lies: bits 0 to 2.
    pub const DIVIDE_RATIO: Field = (0, 2);

    /// Where `counter_is_7bit` lies: bit 3.
    pub const COUNTER_IS_7BIT: u32 = 3;

    /// Where `shift_clock_frequency` lies: bits 4 to 7.
    pub const SHIFT_CLOCK_FREQUENCY: Field = (4, 7);

    /// Where `length_flag` lies: bit 14.
    pub const LENGTH_FLAG: u32 = 14;

    /// Where `initialize` lies: bit 15.
    pub const INITIALIZE: u32 = 15;

    /// The fields of the register, in the order of declaration.
    pub open spec fn layout() -> Seq<Field> {
        seq![
            Self::DIVIDE_RATIO,
            (Self::COUNTER_IS_7BIT, Self::COUNTER_IS_7BIT),
            Self::SHIFT_CLOCK_FREQUENCY,
            (Self::LENGTH_FLAG, Self::LENGTH_FLAG),
            (Self::INITIALIZE, Self::INITIALIZE),
        ]
    }

    /// Every field lies inside the sixteen bits, and no two of them share a bit.
    pub proof fn lemma_layout()
        ensures
            layout_ok(Self::layout(), 16),
    {
    }

    /// Writing a value that fits to one of these fields makes the field read as
    /// that value and leaves every other of them as it was, whatever the
    /// register held.
    pub proof fn lemma_fields_independent(raw: u16, i: int, j: int, value: u16)
        requires
            0 <= i < Self::layout().len(),
            0 <= j < Self::layout().len(),
            fits16(value, Self::layout()[i]),
        ensures
            extract16(
                insert16(raw, Self::layout()[i], value),
                Self::layout()[j],
            ) == (if i == j {
                value
            } else {
                extract16(raw, Self::layout()[j])
            }),
    {
        Self::lemma_layout();
        lemma_layout_independent16(Self::layout(), i, j, raw, value);
    }

    /// The register value whose raw value is `raw`.
    pub closed spec fn of_raw(raw: u16) -> Self {
        NoiseFrequencyControl(raw)
    }

    /// Every raw value is the raw value of exactly one register value: wrapping
    /// `raw` and taking the raw value again gives `raw`, and wrapping the raw
    /// value of a register gives that register.
    pub proof fn lemma_raw_round_trip(raw: u16, reg: Self)
        ensures
            Self::of_raw(raw)@ == raw,
            Self::of_raw(reg@) == reg,
    {
    }

    /// The all-zero value.
    pub fn new() -> (out: Self)
        ensures
            out@ == 0,
    {
        NoiseFrequencyControl(0)
    }

    /// Wraps a raw value, such as one just read from hardware. Every raw value
    /// is a register value, and `to_raw` gives it back.
    pub fn from_raw(raw: u16) -> (out: Self)
        ensures
            out == Self::of_raw(raw),
            out@ == raw,
    {
        NoiseFrequencyControl(raw)
    }

    /// The raw value, as it is written to hardware.
    pub fn to_raw(self) -> (raw: u16)
        ensures
            raw == self@,
    {
        self.0
    }

    pub fn divide_ratio(self) -> (value: u16)
        ensures
            value == extract16(self@, Self::DIVIDE_RATIO),
            fits16(value, Self::DIVIDE_RATIO),
    {
        get_bits16(self.0, Self::DIVIDE_RATIO)
    }

    pub fn with_divide_ratio(self, divide_ratio: u16) -> (out: Self)
        ensures
            out@ == insert16(self@, Self::DIVIDE_RATIO, divide_ratio),
            fits16(divide_ratio, Self::DIVIDE_RATIO)
                ==> extract16(out@, Self::DIVIDE_RATIO) == divide_ratio,
    {
        NoiseFrequencyControl(with_bits16(self.0, Self::DIVIDE_RATIO, divide_ratio))
    }

    pub fn counter_is_7bit(self) -> (on: bool)
        ensures
            on == flag16(self@, Self::COUNTER_IS_7BIT),
    {
        get_flag16(self.0, Self::COUNTER_IS_7BIT)
    }

    pub fn with_counter_is_7bit(self, bit: bool) -> (out: Self)
        ensures
            out@ == with_flag16(self@, Self::COUNTER_IS_7BIT, bit),
            flag16(out@, Self::COUNTER_IS_7BIT) == bit,
    {
        NoiseFrequencyControl(set_flag16(self.0, Self::COUNTER_IS_7BIT, bit))
    }

    pub fn shift_clock_frequency(self) -> (value: u16)
        ensures
            value == extract16(self@, Self::SHIFT_CLOCK_FREQUENCY),
            fits16(value, Self::SHIFT_CLOCK_FREQUENCY),
    {
        get_bits16(self.0, Self::SHIFT_CLOCK_FREQUENCY)
    }

    pub fn with_shift_clock_frequency(self, shift_clock_frequency: u16) -> (out: Self)
        ensures
            out@ == insert16(self@, Self::SHIFT_CLOCK_FREQUENCY, shift_clock_frequency),
            fits16(shift_clock_frequency, Self::SHIFT_CLOCK_FREQUENCY)
                ==> extract16(out@, Self::SHIFT_CLOCK_FREQUENCY) == shift_clock_frequency,
    {
        NoiseFrequencyControl(
            with_bits16(self.0, Self::SHIFT_CLOCK_FREQUENCY, shift_clock_frequency),
        )
    }

    pub fn length_flag(self) -> (on: bool)
        ensures
            on == flag16(self@, Self::LENGTH_FLAG),
    {
        get_flag16(self.0, Self::LENGTH_FLAG)
    }

    pub fn with_length_flag(self, bit: bool) -> (out: Self)
        ensures
            out@ == with_flag16(self@, Self::LENGTH_FLAG, bit),
            flag16(out@, Self::LENGTH_FLAG) == bit,
    {
        NoiseFrequencyControl(set_flag16(self.0, Self::LENGTH_FLAG, bit))
    }

    pub fn initialize(self) -> (on: bool)
        ensures
            on == flag16(self@, Self::INITIALIZE),
    {
        get_flag16(self.0, Self::INITIALIZE)
    }

    pub fn with_initialize(self, bit: bool) -> (out: Self)
        ensures
            out@ == with_flag16(self@, Self::INITIALIZE, bit),
            flag16(out@, Self::INITIALIZE) == bit,
    {
        NoiseFrequencyControl(set_flag16(self.0, Self::INITIALIZE, bit))
    }
}

/// Allows setting of the `SOUNDBIAS` register.
///
/// * 1-9: Bias level, defaults to 0x100
/// * 14-15: Amplitude resolution: 9 bits _minus_ this value.
#[derive(Debug, Clone, Copy, PartialEq, Eq, Structural)]
pub struct Soundbias(u16);

impl View for Soundbias {
    type V = u16;

    closed spec fn view(&self) -> u16 {
        self.0
    }
}

impl Default for Soundbias {
    fn default() -> (out: Self)
        ensures
            out@ == 0,
    {
        Soundbias(0)
    }
}

impl Register for Soundbias {
    open spec fn width() -> Width {
        Width::Half
    }

    open spec fn bits(self) -> u32 {
        self@ as u32
    }

    fn access_width() -> (width: Width) {
        Width::Half
    }

    fn to_bits(self) -> (bits: u32) {
        self.0 as u32
    }

    fn from_bits(bits: u32) -> (out: Self) {
        Soundbias(bits as u16)
    }

    proof fn lemma_bits_fit(self) {
    }

    proof fn lemma_bits_determine(self, other: Self) {
    }
}

impl Soundbias {
    /// Where `bias_level` lies: bits 1 to 9.
    pub const BIAS_LEVEL: Field = (1, 9);

    /// Where `amplitude_resolution` lies: bits 14 to 15.
    pub const AMPLITUDE_RESOLUTION: Field = (14, 15);

    /// The fields of the register, in the order of declaration.
    pub open spec fn layout() -> Seq<Field> {
        seq![Self::BIAS_LEVEL, Self::AMPLITUDE_RESOLUTION]
    }

    /// Every field lies inside the sixteen bits, and no two of them share a bit.
    pub proof fn lemma_layout()
        ensures
            layout_ok(Self::layout(), 16),
    {
    }

    /// Writing a value that fits to one of these fields makes the field read as
    /// that value and leaves every other of them as it was, whatever the
    /// register held.
    pub proof fn lemma_fields_independent(raw: u16, i: int, j: int, value: u16)
        requires
            0 <= i < Self::layout().len(),
            0 <= j < Self::layout().len(),
            fits16(value, Self::layout()[i]),
        ensures
            extract16(
                insert16(raw, Self::layout()[i], value),
                Self::layout()[j],
            ) == (if i == j {
                value
            } else {
                extract16(raw, Self::layout()[j])
            }),
    {
        Self::lemma_layout();
        lemma_layout_independent16(Self::layout(), i, j, raw, value);
    }

    /// The register value whose raw value is `raw`.
    pub closed spec fn of_raw(raw: u16) -> Self {
        Soundbias(raw)
    }

    /// Every raw value is the raw value of exactly one register value: wrapping
    /// `raw` and taking the raw value again gives `raw`, and wrapping the raw
    /// value of a register gives that register.
    pub proof fn lemma_raw_round_trip(raw: u16, reg: Self)
        ensures
            Self::of_raw(raw)@ == raw,
            Self::of_raw(reg@) == reg,
    {
    }

    /// The all-zero value.
    pub fn new() -> (out: Self)
        ensures
            out@ == 0,
    {
        Soundbias(0)
    }

    /// Wraps a raw value, such as one just read from hardware. Every raw value
    /// is a register value, and `to_raw` gives it back.
    pub fn from_raw(raw: u16) -> (out: Self)
        ensures
            out == Self::of_raw(raw),
            out@ == raw,
    {
        Soundbias(raw)
    }

    /// The raw value, as it is written to hardware.
    pub fn to_raw(self) -> (raw: u16)
        ensures
            raw == self@,
    {
        self.0
    }

    pub fn bias_level(self) -> (value: u16)
        ensures
            value == extract16(self@, Self::BIAS_LEVEL),
            fits16(value, Self::BIAS_LEVEL),
    {
        get_bits16(self.0, Self::BIAS_LEVEL)
    }

    pub fn with_bias_level(self, bias_level: u16) -> (out: Self)
        ensures
            out@ == insert16(self@, Self::BIAS_LEVEL, bias_level),
            fits16(bias_level, Self::BIAS_LEVEL)
                ==> extract16(out@, Self::BIAS_LEVEL) == bias_level,
    {
        Soundbias(with_bits16(self.0, Self::BIAS_LEVEL, bias_level))
    }

    pub fn amplitude_resolution(self) -> (value: u16)
        ensures
            value == extract16(self@, Self::AMPLITUDE_RESOLUTION),
            fits16(value, Self::AMPLITUDE_RESOLUTION),
    {
        get_bits16(self.0, Self::AMPLITUDE_RESOLUTION)
    }

    pub fn with_amplitude_resolution(self, amplitude_resolution: u16) -> (out: Self)
        ensures
            out@ == insert16(self@, Self::AMPLITUDE_RESOLUTION, amplitude_resolution),
            fits16(amplitude_resolution, Self::AMPLITUDE_RESOLUTION)
                ==> extract16(out@, Self::AMPLITUDE_RESOLUTION) == amplitude_resolution,
    {
        Soundbias(with_bits16(self.0, Self::AMPLITUDE_RESOLUTION, amplitude_resolution))
    }
}

/// Controls left and right sound outputs.
///
/// * 0-2: Master Right Volume
/// * 4-6: Master Left Volume
/// * 8: Pulse A right
/// * 9: Pulse B right
/// * 10: Wave right
/// * 11: Noise right
/// * 12: Pulse A left
/// * 13: Pulse B left
/// * 14: Wave left
/// * 15: Noise left
#[derive(Debug, Clone, Copy, PartialEq, Eq, Structural)]
pub struct StereoControl(u16);

impl View for StereoControl {
    type V = u16;

    closed spec fn view(&self) -> u16 {
        self.0
    }
}

impl Default for StereoControl {
    fn default() -> (out: Self)
        ensures
            out@ == 0,
    {
        StereoControl(0)
    }
}

impl Register for StereoControl {
    open spec fn width() -> Width {
        Width::Half
    }

    open spec fn bits(self) -> u32 {
        self@ as u32
    }

    fn access_width() -> (width: Width) {
        Width::Half
    }

    fn to_bits(self) -> (bits: u32) {
        self.0 as u32
    }

    fn from_bits(bits: u32) -> (out: Self) {
        StereoControl(bits as u16)
    }

    proof fn lemma_bits_fit(self) {
    }

    proof fn lemma_bits_determine(self, other: Self) {
    }
}

impl StereoControl {
    /// Where `volume_right` lies: bits 0 to 2.
    pub const VOLUME_RIGHT: Field = (0, 2);

    /// Where `volume_left` lies: bits 4 to 6.
    pub const VOLUME_LEFT: Field = (4, 6);

    /// Where `pulse_a_right` lies: bit 8.
    pub const PULSE_A_RIGHT: u32 = 8;

    /// Where `pulse_b_right` lies: bit 9.
    pub const PULSE_B_RIGHT: u32 = 9;

    /// Where `wave_right` lies: bit 10.
    pub const WAVE_RIGHT: u32 = 10;

    /// Where `noise_right` lies: bit 11.
    pub const NOISE_RIGHT: u32 = 11;

    /// Where `pulse_a_left` lies: bit 12.
    pub const PULSE_A_LEFT: u32 = 12;

    /// Where `pulse_b_left` lies: bit 13.
    pub const PULSE_B_LEFT: u32 = 13;

    /// Where `wave_left` lies: bit 14.
    pub const WAVE_LEFT: u32 = 14;

    /// Where `noise_left` lies: bit 15.
    pub const NOISE_LEFT: u32 = 15;

    /// The fields of the register, in the order of declaration.
    pub open spec fn layout() -> Seq<Field> {
        seq![
            Self::VOLUME_RIGHT,
            Self::VOLUME_LEFT,
            (Self::PULSE_A_RIGHT, Self::PULSE_A_RIGHT),
            (Self::PULSE_B_RIGHT, Self::PULSE_B_RIGHT),
            (Self::WAVE_RIGHT, Self::WAVE_RIGHT),
            (Self::NOISE_RIGHT, Self::NOISE_RIGHT),
            (Self::PULSE_A_LEFT, Self::PULSE_A_LEFT),
            (Self::PULSE_B_LEFT, Self::PULSE_B_LEFT),
            (Self::WAVE_LEFT, Self::WAVE_LEFT),
            (Self::NOISE_LEFT, Self::NOISE_LEFT),
        ]
    }

    /// Every field lies inside the sixteen bits, and no two of them share a bit.
    pub proof fn lemma_layout()
        ensures
            layout_ok(Self::layout(), 16),
    {
    }

    /// Writing a value that fits to one of these fields makes the field read as
    /// that value and leaves every other of them as it was, whatever the
    /// register held.
    pub proof fn lemma_fields_independent(raw: u16, i: int, j: int, value: u16)
        requires
            0 <= i < Self::layout().len(),
            0 <= j < Self::layout().len(),
            fits16(value, Self::layout()[i]),
        ensures
            extract16(
                insert16(raw, Self::layout()[i], value),
                Self::layout()[j],
            ) == (if i == j {
                value
            } else {
                extract16(raw, Self::layout()[j])
            }),
    {
        Self::lemma_layout();
        lemma_layout_independent16(Self::layout(), i, j, raw, value);
    }

    /// The register value whose raw value is `raw`.
    pub closed spec fn of_raw(raw: u16) -> Self {
        StereoControl(raw)
    }

    /// Every raw value is the raw value of exactly one register value: wrapping
    /// `raw` and taking the raw value again gives `raw`, and wrapping the raw
    /// value of a register gives that register.
    pub proof fn lemma_raw_round_trip(raw: u16, reg: Self)
        ensures
            Self::of_raw(raw)@ == raw,
            Self::of_raw(reg@) == reg,
    {
    }

    /// The all-zero value.
    pub fn new() -> (out: Self)
        ensures
            out@ == 0,
    {
        StereoControl(0)
    }

    /// Wraps a raw value, such as one just read from hardware. Every raw value
    /// is a register value, and `to_raw` gives it back.
    pub fn from_raw(raw: u16) -> (out: Self)
        ensures
            out == Self::of_raw(raw),
            out@ == raw,
    {
        StereoControl(raw)
    }

    /// The raw value, as it is written to hardware.
    pub fn to_raw(self) -> (raw: u16)
        ensures
            raw == self@,
    {
        self.0
    }

    pub fn volume_right(self) -> (value: u16)
        ensures
            value == extract16(self@, Self::VOLUME_RIGHT),
            fits16(value, Self::VOLUME_RIGHT),
    {
        get_bits16(self.0, Self::VOLUME_RIGHT)
    }

    pub fn with_volume_right(self, volume_right: u16) -> (out: Self)
        ensures
            out@ == insert16(self@, Self::VOLUME_RIGHT, volume_right),
            fits16(volume_right, Self::VOLUME_RIGHT)
                ==> extract16(out@, Self::VOLUME_RIGHT) == volume_right,
    {
        StereoControl(with_bits16(self.0, Self::VOLUME_RIGHT, volume_right))
    }

    pub fn volume_left(self) -> (value: u16)
        ensures
            value == extract16(self@, Self::VOLUME_LEFT),
            fits16(value, Self::VOLUME_LEFT),
    {
        get_bits16(self.0, Self::VOLUME_LEFT)
    }

    pub fn with_volume_left(self, volume_left: u16) -> (out: Self)
        ensures
            out@ == insert16(self@, Self::VOLUME_LEFT, volume_left),
            fits16(volume_left, Self::VOLUME_LEFT)
                ==> extract16(out@, Self::VOLUME_LEFT) == volume_left,
    {
        StereoControl(with_bits16(self.0, Self::VOLUME_LEFT, volume_left))
    }

    pub fn pulse_a_right(self) -> (on: bool)
        ensures
            on == flag16(self@, Self::PULSE_A_RIGHT),
    {
        get_flag16(self.0, Self::PULSE_A_RIGHT)
    }

    pub fn with_pulse_a_right(self, bit: bool) -> (out: Self)
        ensures
            out@ == with_flag16(self@, Self::PULSE_A_RIGHT, bit),
            flag16(out@, Self::PULSE_A_RIGHT) == bit,
    {
        StereoControl(set_flag16(self.0, Self::PULSE_A_RIGHT, bit))
    }

    pub fn pulse_b_right(self) -> (on: bool)
        ensures
            on == flag16(self@, Self::PULSE_B_RIGHT),
    {
        get_flag16(self.0, Self::PULSE_B_RIGHT)
    }

    pub fn with_pulse_b_right(self, bit: bool) -> (out: Self)
        ensures
            out@ == with_flag16(self@, Self::PULSE_B_RIGHT, bit),
            flag16(out@, Self::PULSE_B_RIGHT) == bit,
    {
        StereoControl(set_flag16(self.0, Self::PULSE_B_RIGHT, bit))
    }

    pub fn wave_right(self) -> (on: bool)
        ensures
            on == flag16(self@, Self::WAVE_RIGHT),
    {
        get_flag16(self.0, Self::WAVE_RIGHT)
    }

    pub fn with_wave_right(self, bit: bool) -> (out: Self)
        ensures
            out@ == with_flag16(self@, Self::WAVE_RIGHT, bit),
            flag16(out@, Self::WAVE_RIGHT) == bit,
    {
        StereoControl(set_flag16(self.0, Self::WAVE_RIGHT, bit))
    }

    pub fn noise_right(self) -> (on: bool)
        ensures
            on == flag16(self@, Self::NOISE_RIGHT),
    {
        get_flag16(self.0, Self::NOISE_RIGHT)
    }

    pub fn with_noise_right(self, bit: bool) -> (out: Self)
        ensures
            out@ == with_flag16(self@, Self::NOISE_RIGHT, bit),
            flag16(out@, Self::NOISE_RIGHT) == bit,
    {
        StereoControl(set_flag16(self.0, Self::NOISE_RIGHT, bit))
    }

    pub fn pulse_a_left(self) -> (on: bool)
        ensures
            on == flag16(self@, Self::PULSE_A_LEFT),
    {
        get_flag16(self.0, Self::PULSE_A_LEFT)
    }

    pub fn with_pulse_a_left(self, bit: bool) -> (out: Self)
        ensures
            out@ == with_flag16(self@, Self::PULSE_A_LEFT, bit),
            flag16(out@, Self::PULSE_A_LEFT) == bit,
    {
        StereoControl(set_flag16(self.0, Self::PULSE_A_LEFT, bit))
    }

    pub fn pulse_b_left(self) -> (on: bool)
        ensures
            on == flag16(self@, Self::PULSE_B_LEFT),
    {
        get_flag16(self.0, Self::PULSE_B_LEFT)
    }

    pub fn with_pulse_b_left(self, bit: bool) -> (out: Self)
        ensures
            out@ == with_flag16(self@, Self::PULSE_B_LEFT, bit),
            flag16(out@, Self::PULSE_B_LEFT) == bit,
    {
        StereoControl(set_flag16(self.0, Self::PULSE_B_LEFT, bit))
    }

    pub fn wave_left(self) -> (on: bool)
        ensures
            on == flag16(self@, Self::WAVE_LEFT),
    {
        get_flag16(self.0, Self::WAVE_LEFT)
    }

    pub fn with_wave_left(self, bit: bool) -> (out: Self)
        ensures
            out@ == with_flag16(self@, Self::WAVE_LEFT, bit),
            flag16(out@, Self::WAVE_LEFT) == bit,
    {
        StereoControl(set_flag16(self.0, Self::WAVE_LEFT, bit))
    }

    pub fn noise_left(self) -> (on: bool)
        ensures
            on == flag16(self@, Self::NOISE_LEFT),
    {
        get_flag16(self.0, Self::NOISE_LEFT)
    }

    pub fn with_noise_left(self, bit: bool) -> (out: Self)
        ensures
            out@ == with_flag16(self@, Self::NOISE_LEFT, bit),
            flag16(out@, Self::NOISE_LEFT) == bit,
    {
        StereoControl(set_flag16(self.0, Self::NOISE_LEFT, bit))
    }
}

/// How loudly the non-DMA sound should play
#[derive(Debug, Clone, Copy, PartialEq, Eq, Structural)]
pub enum NonDMASoundVolume {
    /// 25% volume
    Quarter,
    /// 50% volume
    Half,
    /// 100% volume
    Full,
}

impl NonDMASoundVolume {
    /// The integer that stands for this tag in a register.
    pub open spec fn raw(self) -> u16 {
        match self {
            NonDMASoundVolume::Quarter => 0,
            NonDMASoundVolume::Half => 1,
            NonDMASoundVolume::Full => 2,
        }
    }

    /// The tag that `raw` stands for; `None` where it stands for none.
    pub open spec fn decode(raw: u16) -> Option<Self> {
        match raw {
            0 => Some(NonDMASoundVolume::Quarter),
            1 => Some(NonDMASoundVolume::Half),
            2 => Some(NonDMASoundVolume::Full),
            _ => None,
        }
    }

    /// Encodes the tag as the integer that stands for it.
    pub fn to_raw(self) -> (raw: u16)
        ensures
            raw == self.raw(),
    {
        match self {
            NonDMASoundVolume::Quarter => 0,
            NonDMASoundVolume::Half => 1,
            NonDMASoundVolume::Full => 2,
        }
    }

    /// Decodes an integer. A value that is no tag's is reported, not replaced.
    pub fn from_raw(raw: u16) -> (tag: Option<Self>)
        ensures
            tag == Self::decode(raw),
    {
        match raw {
            0 => Some(NonDMASoundVolume::Quarter),
            1 => Some(NonDMASoundVolume::Half),
            2 => Some(NonDMASoundVolume::Full),
            _ => None,
        }
    }

    /// Encoding and decoding are inverse to each other on the declared tags,
    /// and nothing else decodes.
    pub proof fn lemma_tags_round_trip(tag: Self, raw: u16)
        ensures
            Self::decode(tag.raw()) == Some(tag),
            Self::decode(raw) == Some(tag) <==> tag.raw() == raw,
            Self::decode(raw) is None <==> raw > 2,
    {
    }
}

/// Controls DMA Sound mixing.
///
/// * 0-1: non-dma sound level: quarter, half, or full.
/// * 2: DMA sound A full (true) or half (false)
/// * 3: DMA sound B full (true) or half (false)
/// * 8: DMA sound A enabled right
/// * 9: DMA sound A enabled left
/// * 10: DMA sound A timer 1 (true) or timer 0 (false)
/// * 11 (wo): Reset FIFO A
/// * 12: DMA sound B enabled right
/// * 13: DMA sound B enabled left
/// * 14: DMA sound B timer 1 (true) or timer 0 (false)
/// * 15 (wo): Reset FIFO B
#[derive(Debug, Clone, Copy, PartialEq, Eq, Structural)]
pub struct DMAMixer(u16);

impl View for DMAMixer {
    type V = u16;

    closed spec fn view(&self) -> u16 {
        self.0
    }
}

impl Default for DMAMixer {
    fn default() -> (out: Self)
        ensures
            out@ == 0,
    {
        DMAMixer(0)
    }
}

impl Register for DMAMixer {
    open spec fn width() -> Width {
        Width::Half
    }

    open spec fn bits(self) -> u32 {
        self@ as u32
    }

    fn access_width() -> (width: Width) {
        Width::Half
    }

    fn to_bits(self) -> (bits: u32) {
        self.0 as u32
    }

    fn from_bits(bits: u32) -> (out: Self) {
        DMAMixer(bits as u16)
    }

    proof fn lemma_bits_fit(self) {
    }

    proof fn lemma_bits_determine(self, other: Self) {
    }
}

impl DMAMixer {
    /// Where `non_dma_volume` lies: bits 0 to 1.
    pub const NON_DMA_VOLUME: Field = (0, 1);

    /// Where `dma_a_full` lies: bit 2.
    pub const DMA_A_FULL: u32 = 2;

    /// Where `dma_b_full` lies: bit 3.
    pub const DMA_B_FULL: u32 = 3;

    /// Where `dma_a_right` lies: bit 8.
    pub const DMA_A_RIGHT: u32 = 8;

    /// Where `dma_a_left` lies: bit 9.
    pub const DMA_A_LEFT: u32 = 9;

    /// Where `dma_a_timer1` lies: bit 10.
    pub const DMA_A_TIMER1: u32 = 10;

    /// Where `dma_a_reset_fifo` lies: bit 11.
    pub const DMA_A_RESET_FIFO: u32 = 11;

    /// Where `dma_b_right` lies: bit 12.
    pub const DMA_B_RIGHT: u32 = 12;

    /// Where `dma_b_left` lies: bit 13.
    pub const DMA_B_LEFT: u32 = 13;

    /// Where `dma_b_timer1` lies: bit 14.
    pub const DMA_B_TIMER1: u32 = 14;

    /// Where `dma_b_reset_fifo` lies: bit 15.
    pub const DMA_B_RESET_FIFO: u32 = 15;

    /// The fields of the register, in the order of declaration.
    pub open spec fn layout() -> Seq<Field> {
        seq![
            Self::NON_DMA_VOLUME,
            (Self::DMA_A_FULL, Self::DMA_A_FULL),
            (Self::DMA_B_FULL, Self::DMA_B_FULL),
            (Self::DMA_A_RIGHT, Self::DMA_A_RIGHT),
            (Self::DMA_A_LEFT, Self::DMA_A_LEFT),
            (Self::DMA_A_TIMER1, Self::DMA_A_TIMER1),
            (Self::DMA_A_RESET_FIFO, Self::DMA_A_RESET_FIFO),
            (Self::DMA_B_RIGHT, Self::DMA_B_RIGHT),
            (Self::DMA_B_LEFT, Self::DMA_B_LEFT),
            (Self::DMA_B_TIMER1, Self::DMA_B_TIMER1),
            (Self::DMA_B_RESET_FIFO, Self::DMA_B_RESET_FIFO),
        ]
    }

    /// Every field lies inside the sixteen bits, and no two of them share a bit.
    pub proof fn lemma_layout()
        ensures
            layout_ok(Self::layout(), 16),
    {
    }

    /// Writing a value that fits to one of these fields makes the field read as
    /// that value and leaves every other of them as it was, whatever the
    /// register held.
    pub proof fn lemma_fields_independent(raw: u16, i: int, j: int, value: u16)
        requires
            0 <= i < Self::layout().len(),
            0 <= j < Self::layout().len(),
            fits16(value, Self::layout()[i]),
        ensures
            extract16(
                insert16(raw, Self::layout()[i], value),
                Self::layout()[j],
            ) == (if i == j {
                value
            } else {
                extract16(raw, Self::layout()[j])
            }),
    {
        Self::lemma_layout();
        lemma_layout_independent16(Self::layout(), i, j, raw, value);
    }

    /// The register value whose raw value is `raw`.
    pub closed spec fn of_raw(raw: u16) -> Self {
        DMAMixer(raw)
    }

    /// Every raw value is the raw value of exactly one register value: wrapping
    /// `raw` and taking the raw value again gives `raw`, and wrapping the raw
    /// value of a register gives that register.
    pub proof fn lemma_raw_round_trip(raw: u16, reg: Self)
        ensures
            Self::of_raw(raw)@ == raw,
            Self::of_raw(reg@) == reg,
    {
    }

    /// The all-zero value.
    pub fn new() -> (out: Self)
        ensures
            out@ == 0,
    {
        DMAMixer(0)
    }

    /// Wraps a raw value, such as one just read from hardware. Every raw value
    /// is a register value, and `to_raw` gives it back.
    pub fn from_raw(raw: u16) -> (out: Self)
        ensures
            out == Self::of_raw(raw),
            out@ == raw,
    {
        DMAMixer(raw)
    }

    /// The raw value, as it is written to hardware.
    pub fn to_raw(self) -> (raw: u16)
        ensures
            raw == self@,
    {
        self.0
    }

    pub fn non_dma_volume(self) -> (tag: Option<NonDMASoundVolume>)
        ensures
            tag == NonDMASoundVolume::decode(extract16(self@, Self::NON_DMA_VOLUME)),
    {
        NonDMASoundVolume::from_raw(get_bits16(self.0, Self::NON_DMA_VOLUME))
    }

    pub fn with_non_dma_volume(self, non_dma_volume: NonDMASoundVolume) -> (out: Self)
        ensures
            out@ == insert16(self@, Self::NON_DMA_VOLUME, non_dma_volume.raw()),
            NonDMASoundVolume::decode(extract16(out@, Self::NON_DMA_VOLUME))
                == Some(non_dma_volume),
    {
        proof {
            lemma_small_values_fit16(
                non_dma_volume.raw(),
                Self::NON_DMA_VOLUME.0,
                Self::NON_DMA_VOLUME.1,
            );
        }
        DMAMixer(with_bits16(self.0, Self::NON_DMA_VOLUME, non_dma_volume.to_raw()))
    }

    pub fn dma_a_full(self) -> (on: bool)
        ensures
            on == flag16(self@, Self::DMA_A_FULL),
    {
        get_flag16(self.0, Self::DMA_A_FULL)
    }

    pub fn with_dma_a_full(self, bit: bool) -> (out: Self)
        ensures
            out@ == with_flag16(self@, Self::DMA_A_FULL, bit),
            flag16(out@, Self::DMA_A_FULL) == bit,
    {
        DMAMixer(set_flag16(self.0, Self::DMA_A_FULL, bit))
    }

    pub fn dma_b_full(self) -> (on: bool)
        ensures
            on == flag16(self@, Self::DMA_B_FULL),
    {
        get_flag16(self.0, Self::DMA_B_FULL)
    }

    pub fn with_dma_b_full(self, bit: bool) -> (out: Self)
        ensures
            out@ == with_flag16(self@, Self::DMA_B_FULL, bit),
            flag16(out@, Self::DMA_B_FULL) == bit,
    {
        DMAMixer(set_flag16(self.0, Self::DMA_B_FULL, bit))
    }

    pub fn dma_a_right(self) -> (on: bool)
        ensures
            on == flag16(self@, Self::DMA_A_RIGHT),
    {
        get_flag16(self.0, Self::DMA_A_RIGHT)
    }

    pub fn with_dma_a_right(self, bit: bool) -> (out: Self)
        ensures
            out@ == with_flag16(self@, Self::DMA_A_RIGHT, bit),
            flag16(out@, Self::DMA_A_RIGHT) == bit,
    {
        DMAMixer(set_flag16(self.0, Self::DMA_A_RIGHT, bit))
    }

    pub fn dma_a_left(self) -> (on: bool)
        ensures
            on == flag16(self@, Self::DMA_A_LEFT),
    {
        get_flag16(self.0, Self::DMA_A_LEFT)
    }

    pub fn with_dma_a_left(self, bit: bool) -> (out: Self)
        ensures
            out@ == with_flag16(self@, Self::DMA_A_LEFT, bit),
            flag16(out@, Self::DMA_A_LEFT) == bit,
    {
        DMAMixer(set_flag16(self.0, Self::DMA_A_LEFT, bit))
    }

    pub fn dma_a_timer1(self) -> (on: bool)
        ensures
            on == flag16(self@, Self::DMA_A_TIMER1),
    {
        get_flag16(self.0, Self::DMA_A_TIMER1)
    }

    pub fn with_dma_a_timer1(self, bit: bool) -> (out: Self)
        ensures
            out@ == with_flag16(self@, Self::DMA_A_TIMER1, bit),
            flag16(out@, Self::DMA_A_TIMER1) == bit,
    {
        DMAMixer(set_flag16(self.0, Self::DMA_A_TIMER1, bit))
    }

    pub fn dma_a_reset_fifo(self) -> (on: bool)
        ensures
            on == flag16(self@, Self::DMA_A_RESET_FIFO),
    {
        get_flag16(self.0, Self::DMA_A_RESET_FIFO)
    }

    pub fn with_dma_a_reset_fifo(self, bit: bool) -> (out: Self)
        ensures
            out@ == with_flag16(self@, Self::DMA_A_RESET_FIFO, bit),
            flag16(out@, Self::DMA_A_RESET_FIFO) == bit,
    {
        DMAMixer(set_flag16(self.0, Self::DMA_A_RESET_FIFO, bit))
    }

    pub fn dma_b_right(self) -> (on: bool)
        ensures
            on == flag16(self@, Self::DMA_B_RIGHT),
    {
        get_flag16(self.0, Self::DMA_B_RIGHT)
    }

    pub fn with_dma_b_right(self, bit: bool) -> (out: Self)
        ensures
            out@ == with_flag16(self@, Self::DMA_B_RIGHT, bit),
            flag16(out@, Self::DMA_B_RIGHT) == bit,
    {
        DMAMixer(set_flag16(self.0, Self::DMA_B_RIGHT, bit))
    }

    pub fn dma_b_left(self) -> (on: bool)
        ensures
            on == flag16(self@, Self::DMA_B_LEFT),
    {
        get_flag16(self.0, Self::DMA_B_LEFT)
    }

    pub fn with_dma_b_left(self, bit: bool) -> (out: Self)
        ensures
            out@ == with_flag16(self@, Self::DMA_B_LEFT, bit),
            flag16(out@, Self::DMA_B_LEFT) == bit,
    {
        DMAMixer(set_flag16(self.0, Self::DMA_B_LEFT, bit))
    }

    pub fn dma_b_timer1(self) -> (on: bool)
        ensures
            on == flag16(self@, Self::DMA_B_TIMER1),
    {
        get_flag16(self.0, Self::DMA_B_TIMER1)
    }

    pub fn with_dma_b_timer1(self, bit: bool) -> (out: Self)
        ensures
            out@ == with_flag16(self@, Self::DMA_B_TIMER1, bit),
            flag16(out@, Self::DMA_B_TIMER1) == bit,
    {
        DMAMixer(set_flag16(self.0, Self::DMA_B_TIMER1, bit))
    }

    pub fn dma_b_reset_fifo(self) -> (on: bool)
        ensures
            on == flag16(self@, Self::DMA_B_RESET_FIFO),
    {
        get_flag16(self.0, Self::DMA_B_RESET_FIFO)
    }

    pub fn with_dma_b_reset_fifo(self, bit: bool) -> (out: Self)
        ensures
            out@ == with_flag16(self@, Self::DMA_B_RESET_FIFO, bit),
            flag16(out@, Self::DMA_B_RESET_FIFO) == bit,
    {
        DMAMixer(set_flag16(self.0, Self::DMA_B_RESET_FIFO, bit))
    }
}

/// Allows setting of the `SOUND_STATUS_ENABLE` register.
///
/// The hardware keeps these bits:
///
/// * 0 (ro): Pulse A is active
/// * 1 (ro): Pulse B is active
/// * 2 (ro): Wave is active
/// * 3 (ro): Noise is active
/// * 7: sound master enable
///
/// The named fields of this type do not follow that list: they are the two
/// fields of `Soundbias`, at bits 1-9 and 14-15. Use the raw value for the bits
/// above.
#[derive(Debug, Clone, Copy, PartialEq, Eq, Structural)]
pub struct SoundStatusMaster(u16);

impl View for SoundStatusMaster {
    type V = u16;

    closed spec fn view(&self) -> u16 {
        self.0
    }
}

impl Default for SoundStatusMaster {
    fn default() -> (out: Self)
        ensures
            out@ == 0,
    {
        SoundStatusMaster(0)
    }
}

impl Register for SoundStatusMaster {
    open spec fn width() -> Width {
        Width::Half
    }

    open spec fn bits(self) -> u32 {
        self@ as u32
    }

    fn access_width() -> (width: Width) {
        Width::Half
    }

    fn to_bits(self) -> (bits: u32) {
        self.0 as u32
    }

    fn from_bits(bits: u32) -> (out: Self) {
        SoundStatusMaster(bits as u16)
    }

    proof fn lemma_bits_fit(self) {
    }

    proof fn lemma_bits_determine(self, other: Self) {
    }
}

impl SoundStatusMaster {
    /// Where `bias_level` lies: bits 1 to 9.
    pub const BIAS_LEVEL: Field = (1, 9);

    /// Where `amplitude_resolution` lies: bits 14 to 15.
    pub const AMPLITUDE_RESOLUTION: Field = (14, 15);

    /// The fields of the register, in the order of declaration.
    pub open spec fn layout() -> Seq<Field> {
        seq![Self::BIAS_LEVEL, Self::AMPLITUDE_RESOLUTION]
    }

    /// Every field lies inside the sixteen bits, and no two of them share a bit.
    pub proof fn lemma_layout()
        ensures
            layout_ok(Self::layout(), 16),
    {
    }

    /// Writing a value that fits to one of these fields makes the field read as
    /// that value and leaves every other of them as it was, whatever the
    /// register held.
    pub proof fn lemma_fields_independent(raw: u16, i: int, j: int, value: u16)
        requires
            0 <= i < Self::layout().len(),
            0 <= j < Self::layout().len(),
            fits16(value, Self::layout()[i]),
        ensures
            extract16(
                insert16(raw, Self::layout()[i], value),
                Self::layout()[j],
            ) == (if i == j {
                value
            } else {
                extract16(raw, Self::layout()[j])
            }),
    {
        Self::lemma_layout();
        lemma_layout_independent16(Self::layout(), i, j, raw, value);
    }

    /// The register value whose raw value is `raw`.
    pub closed spec fn of_raw(raw: u16) -> Self {
        SoundStatusMaster(raw)
    }

    /// Every raw value is the raw value of exactly one register value: wrapping
    /// `raw` and taking the raw value again gives `raw`, and wrapping the raw
    /// value of a register gives that register.
    pub proof fn lemma_raw_round_trip(raw: u16, reg: Self)
        ensures
            Self::of_raw(raw)@ == raw,
            Self::of_raw(reg@) == reg,
    {
    }

    /// The all-zero value.
    pub fn new() -> (out: Self)
        ensures
            out@ == 0,
    {
        SoundStatusMaster(0)
    }

    /// Wraps a raw value, such as one just read from hardware. Every raw value
    /// is a register value, and `to_raw` gives it back.
    pub fn from_raw(raw: u16) -> (out: Self)
        ensures
            out == Self::of_raw(raw),
            out@ == raw,
    {
        SoundStatusMaster(raw)
    }

    /// The raw value, as it is written to hardware.
    pub fn to_raw(self) -> (raw: u16)
        ensures
            raw == self@,
    {
        self.0
    }

    pub fn bias_level(self) -> (value: u16)
        ensures
            value == extract16(self@, Self::BIAS_LEVEL),
            fits16(value, Self::BIAS_LEVEL),
    {
        get_bits16(self.0, Self::BIAS_LEVEL)
    }

    pub fn with_bias_level(self, bias_level: u16) -> (out: Self)
        ensures
            out@ == insert16(self@, Self::BIAS_LEVEL, bias_level),
            fits16(bias_level, Self::BIAS_LEVEL)
                ==> extract16(out@, Self::BIAS_LEVEL) == bias_level,
    {
        SoundStatusMaster(with_bits16(self.0, Self::BIAS_LEVEL, bias_level))
    }

    pub fn amplitude_resolution(self) -> (value: u16)
        ensures
            value == extract16(self@, Self::AMPLITUDE_RESOLUTION),
            fits16(value, Self::AMPLITUDE_RESOLUTION),
    {
        get_bits16(self.0, Self::AMPLITUDE_RESOLUTION)
    }

    pub fn with_amplitude_resolution(self, amplitude_resolution: u16) -> (out: Self)
        ensures
            out@ == insert16(self@, Self::AMPLITUDE_RESOLUTION, amplitude_resolution),
            fits16(amplitude_resolution, Self::AMPLITUDE_RESOLUTION)
                ==> extract16(out@, Self::AMPLITUDE_RESOLUTION) == amplitude_resolution,
    {
        SoundStatusMaster(with_bits16(self.0, Self::AMPLITUDE_RESOLUTION, amplitude_resolution))
    }
}

} // verus!
