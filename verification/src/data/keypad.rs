//! Registers of the keypad.

use crate::bits::{
    Field, extract16, fits16, flag16, get_flag16, insert16, layout_ok, lemma_layout_independent16,
    set_flag16, with_flag16,
};
use crate::register::{Register, Width};
use vstd::prelude::*;

verus! {

/// This is the GBA's _native_ key reading value.
///
/// The term "native" here means "low-active". In other words, `false` ==
/// "pressed", and `true` is "released".
///
/// For "normal" style key data, where `false` == "released" and `true` ==
/// "pressed", XOR the lower 10 bits of the inner value with `0b11_1111_1111`.
///
/// The bits are as follows:
///
/// * 0: a
/// * 1: b
/// * 2: select
/// * 3: start
/// * 4: right
/// * 5: left
/// * 6: up
/// * 7: down
/// * 8: r
/// * 9: l
#[derive(Debug, Clone, Copy, PartialEq, Eq, Structural)]
pub struct KeyInput(pub u16);

impl View for KeyInput {
    type V = u16;

    open spec fn view(&self) -> u16 {
        self.0
    }
}

impl Default for KeyInput {
    fn default() -> (out: Self)
        ensures
            out@ == 0,
    {
        KeyInput(0)
    }
}

impl Register for KeyInput {
    open spec fn width() -> Width {
        Width::Half
    }

    open spec fn bits(self) -> u32 {
        self@ as u32
    }

    fn access_width() -> (width: Width) {
        Width::Half
    }

    fn to_bits(self) -> (bits: u32) {
        self.0 as u32
    }

    fn from_bits(bits: u32) -> (out: Self) {
        KeyInput(bits as u16)
    }

    proof fn lemma_bits_fit(self) {
    }

    proof fn lemma_bits_determine(self, other: Self) {
    }
}

impl KeyInput {
    /// Where `a_released` lies: bit 0.
    pub const A_RELEASED: u32 = 0;

    /// Where `b_released` lies: bit 1.
    pub const B_RELEASED: u32 = 1;

    /// Where `select_released` lies: bit 2.
    pub const SELECT_RELEASED: u32 = 2;

    /// Where `start_released` lies: bit 3.
    pub const START_RELEASED: u32 = 3;

    /// Where `right_released` lies: bit 4.
    pub const RIGHT_RELEASED: u32 = 4;

    /// Where `left_released` lies: bit 5.
    pub const LEFT_RELEASED: u32 = 5;

    /// Where `up_released` lies: bit 6.
    pub const UP_RELEASED: u32 = 6;

    /// Where `down_released` lies: bit 7.
    pub const DOWN_RELEASED: u32 = 7;

    /// Where `r_released` lies: bit 8.
    pub const R_RELEASED: u32 = 8;

    /// Where `l_released` lies: bit 9.
    pub const L_RELEASED: u32 = 9;

    /// The fields of the register, in the order of declaration.
    pub open spec fn layout() -> Seq<Field> {
        seq![
            (Self::A_RELEASED, Self::A_RELEASED),
            (Self::B_RELEASED, Self::B_RELEASED),
            (Self::SELECT_RELEASED, Self::SELECT_RELEASED),
            (Self::START_RELEASED, Self::START_RELEASED),
            (Self::RIGHT_RELEASED, Self::RIGHT_RELEASED),
            (Self::LEFT_RELEASED, Self::LEFT_RELEASED),
            (Self::UP_RELEASED, Self::UP_RELEASED),
            (Self::DOWN_RELEASED, Self::DOWN_RELEASED),
            (Self::R_RELEASED, Self::R_RELEASED),
            (Self::L_RELEASED, Self::L_RELEASED),
        ]
    }

    /// Every field lies inside the sixteen bits, and no two of them share a bit.
    pub proof fn lemma_layout()
        ensures
            layout_ok(Self::layout(), 16),
    {
    }

    /// Writing a value that fits to one of these fields makes the field read as
    /// that value and leaves every other of them as it was, whatever the
    /// register held.
    pub proof fn lemma_fields_independent(raw: u16, i: int, j: int, value: u16)
        requires
            0 <= i < Self::layout().len(),
            0 <= j < Self::layout().len(),
            fits16(value, Self::layout()[i]),
        ensures
            extract16(
                insert16(raw, Self::layout()[i], value),
                Self::layout()[j],
            ) == (if i == j {
                value
            } else {
                extract16(raw, Self::layout()[j])
            }),
    {
        Self::lemma_layout();
        lemma_layout_independent16(Self::layout(), i, j, raw, value);
    }

    /// The register value whose raw value is `raw`.
    pub open spec fn of_raw(raw: u16) -> Self {
        KeyInput(raw)
    }

    /// Every raw value is the raw value of exactly one register value: wrapping
    /// `raw` and taking the raw value again gives `raw`, and wrapping the raw
    /// value of a register gives that register.
    pub proof fn lemma_raw_round_trip(raw: u16, reg: Self)
        ensures
            Self::of_raw(raw)@ == raw,
            Self::of_raw(reg@) == reg,
    {
    }

    /// The all-zero value.
    pub fn new() -> (out: Self)
        ensures
            out@ == 0,
    {
        KeyInput(0)
    }

    /// Wraps a raw value, such as one just read from hardware. Every raw value
    /// is a register value, and `to_raw` gives it back.
    pub fn from_raw(raw: u16) -> (out: Self)
        ensures
            out == Self::of_raw(raw),
            out@ == raw,
    {
        KeyInput(raw)
    }

    /// The raw value, as it is written to hardware.
    pub fn to_raw(self) -> (raw: u16)
        ensures
            raw == self@,
    {
        self.0
    }

    pub fn a_released(self) -> (on: bool)
        ensures
            on == flag16(self@, Self::A_RELEASED),
    {
        get_flag16(self.0, Self::A_RELEASED)
    }

    pub fn with_a_released(self, bit: bool) -> (out: Self)
        ensures
            out@ == with_flag16(self@, Self::A_RELEASED, bit),
            flag16(out@, Self::A_RELEASED) == bit,
    {
        KeyInput(set_flag16(self.0, Self::A_RELEASED, bit))
    }

    pub fn b_released(self) -> (on: bool)
        ensures
            on == flag16(self@, Self::B_RELEASED),
    {
        get_flag16(self.0, Self::B_RELEASED)
    }

    pub fn with_b_released(self, bit: bool) -> (out: Self)
        ensures
            out@ == with_flag16(self@, Self::B_RELEASED, bit),
            flag16(out@, Self::B_RELEASED) == bit,
    {
        KeyInput(set_flag16(self.0, Self::B_RELEASED, bit))
    }

    pub fn select_released(self) -> (on: bool)
        ensures
            on == flag16(self@, Self::SELECT_RELEASED),
    {
        get_flag16(self.0, Self::SELECT_RELEASED)
    }

    pub fn with_select_released(self, bit: bool) -> (out: Self)
        ensures
            out@ == with_flag16(self@, Self::SELECT_RELEASED, bit),
            flag16(out@, Self::SELECT_RELEASED) == bit,
    {
        KeyInput(set_flag16(self.0, Self::SELECT_RELEASED, bit))
    }

    pub fn start_released(self) -> (on: bool)
        ensures
            on == flag16(self@, Self::START_RELEASED),
    {
        get_flag16(self.0, Self::START_RELEASED)
    }

    pub fn with_start_released(self, bit: bool) -> (out: Self)
        ensures
            out@ == with_flag16(self@, Self::START_RELEASED, bit),
            flag16(out@, Self::START_RELEASED) == bit,
    {
        KeyInput(set_flag16(self.0, Self::START_RELEASED, bit))
    }

    pub fn right_released(self) -> (on: bool)
        ensures
            on == flag16(self@, Self::RIGHT_RELEASED),
    {
        get_flag16(self.0, Self::RIGHT_RELEASED)
    }

    pub fn with_right_released(self, bit: bool) -> (out: Self)
        ensures
            out@ == with_flag16(self@, Self::RIGHT_RELEASED, bit),
            flag16(out@, Self::RIGHT_RELEASED) == bit,
    {
        KeyInput(set_flag16(self.0, Self::RIGHT_RELEASED, bit))
    }

    pub fn left_released(self) -> (on: bool)
        ensures
            on == flag16(self@, Self::LEFT_RELEASED),
    {
        get_flag16(self.0, Self::LEFT_RELEASED)
    }

    pub fn with_left_released(self, bit: bool) -> (out: Self)
        ensures
            out@ == with_flag16(self@, Self::LEFT_RELEASED, bit),
            flag16(out@, Self::LEFT_RELEASED) == bit,
    {
        KeyInput(set_flag16(self.0, Self::LEFT_RELEASED, bit))
    }

    pub fn up_released(self) -> (on: bool)
        ensures
            on == flag16(self@, Self::UP_RELEASED),
    {
        get_flag16(self.0, Self::UP_RELEASED)
    }

    pub fn with_up_released(self, bit: bool) -> (out: Self)
        ensures
            out@ == with_flag16(self@, Self::UP_RELEASED, bit),
            flag16(out@, Self::UP_RELEASED) == bit,
    {
        KeyInput(set_flag16(self.0, Self::UP_RELEASED, bit))
    }

    pub fn down_released(self) -> (on: bool)
        ensures
            on == flag16(self@, Self::DOWN_RELEASED),
    {
        get_flag16(self.0, Self::DOWN_RELEASED)
    }

    pub fn with_down_released(self, bit: bool) -> (out: Self)
        ensures
            out@ == with_flag16(self@, Self::DOWN_RELEASED, bit),
            flag16(out@, Self::DOWN_RELEASED) == bit,
    {
        KeyInput(set_flag16(self.0, Self::DOWN_RELEASED, bit))
    }

    pub fn r_released(self) -> (on: bool)
        ensures
            on == flag16(self@, Self::R_RELEASED),
    {
        get_flag16(self.0, Self::R_RELEASED)
    }

    pub fn with_r_released(self, bit: bool) -> (out: Self)
        ensures
            out@ == with_flag16(self@, Self::R_RELEASED, bit),
            flag16(out@, Self::R_RELEASED) == bit,
    {
        KeyInput(set_flag16(self.0, Self::R_RELEASED, bit))
    }

    pub fn l_released(self) -> (on: bool)
        ensures
            on == flag16(self@, Self::L_RELEASED),
    {
        get_flag16(self.0, Self::L_RELEASED)
    }

    pub fn with_l_released(self, bit: bool) -> (out: Self)
        ensures
            out@ == with_flag16(self@, Self::L_RELEASED, bit),
            flag16(out@, Self::L_RELEASED) == bit,
    {
        KeyInput(set_flag16(self.0, Self::L_RELEASED, bit))
    }
}

/// Affects when a key interrupt is triggered.
///
/// This is intended for bringing the GBA out of the very-low-power mode, not
/// for general input.
///
/// * There's one bit per button, matching the bits of the
///   [KeyInput](KeyInput) type.
/// * 14: Key interrupts enabled
/// * 15: `true` if all selected keys must be pressed to trigger the interrupt
///   (Logical AND), `false` if any selected key can be pressed to trigger the
///   interrupt (Logical OR).
#[derive(Debug, Clone, Copy, PartialEq, Eq, Structural)]
pub struct KeyControl(u16);

impl View for KeyControl {
    type V = u16;

    closed spec fn view(&self) -> u16 {
        self.0
    }
}

impl Default for KeyControl {
    fn default() -> (out: Self)
        ensures
            out@ == 0,
    {
        KeyControl(0)
    }
}

impl Register for KeyControl {
    open spec fn width() -> Width {
        Width::Half
    }

    open spec fn bits(self) -> u32 {
        self@ as u32
    }

    fn access_width() -> (width: Width) {
        Width::Half
    }

    fn to_bits(self) -> (bits: u32) {
        self.0 as u32
    }

    fn from_bits(bits: u32) -> (out: Self) {
        KeyControl(bits as u16)
    }

    proof fn lemma_bits_fit(self) {
    }

    proof fn lemma_bits_determine(self, other: Self) {
    }
}

impl KeyControl {
    /// Where `a` lies: bit 0.
    pub const A: u32 = 0;

    /// Where `b` lies: bit 1.
    pub const B: u32 = 1;

    /// Where `select` lies: bit 2.
    pub const SELECT: u32 = 2;

    /// Where `start` lies: bit 3.
    pub const START: u32 = 3;

    /// Where `right` lies: bit 4.
    pub const RIGHT: u32 = 4;

    /// Where `left` lies: bit 5.
    pub const LEFT: u32 = 5;

    /// Where `up` lies: bit 6.
    pub const UP: u32 = 6;

    /// Where `down` lies: bit 7.
    pub const DOWN: u32 = 7;

    /// Where `r` lies: bit 8.
    pub const R: u32 = 8;

    /// Where `l` lies: bit 9.
    pub const L: u32 = 9;

    /// Where `irq_enabled` lies: bit 14.
    pub const IRQ_ENABLED: u32 = 14;

    /// Where `require_all_selected_keys` lies: bit 15.
    pub const REQUIRE_ALL_SELECTED_KEYS: u32 = 15;

    /// The fields of the register, in the order of declaration.
    pub open spec fn layout() -> Seq<Field> {
        seq![
            (Self::A, Self::A),
            (Self::B, Self::B),
            (Self::SELECT, Self::SELECT),
            (Self::START, Self::START),
            (Self::RIGHT, Self::RIGHT),
            (Self::LEFT, Self::LEFT),
            (Self::UP, Self::UP),
            (Self::DOWN, Self::DOWN),
            (Self::R, Self::R),
            (Self::L, Self::L),
            (Self::IRQ_ENABLED, Self::IRQ_ENABLED),
            (Self::REQUIRE_ALL_SELECTED_KEYS, Self::REQUIRE_ALL_SELECTED_KEYS),
        ]
    }

    /// Every field lies inside the sixteen bits, and no two of them share a bit.
    pub proof fn lemma_layout()
        ensures
            layout_ok(Self::layout(), 16),
    {
    }

    /// Writing a value that fits to one of these fields makes the field read as
    /// that value and leaves every other of them as it was, whatever the
    /// register held.
    pub proof fn lemma_fields_independent(raw: u16, i: int, j: int, value: u16)
        requires
            0 <= i < Self::layout().len(),
            0 <= j < Self::layout().len(),
            fits16(value, Self::layout()[i]),
        ensures
            extract16(
                insert16(raw, Self::layout()[i], value),
                Self::layout()[j],
            ) == (if i == j {
                value
            } else {
                extract16(raw, Self::layout()[j])
            }),
    {
        Self::lemma_layout();
        lemma_layout_independent16(Self::layout(), i, j, raw, value);
    }

    /// The register value whose raw value is `raw`.
    pub closed spec fn of_raw(raw: u16) -> Self {
        KeyControl(raw)
    }

    /// Every raw value is the raw value of exactly one register value: wrapping
    /// `raw` and taking the raw value again gives `raw`, and wrapping the raw
    /// value of a register gives that register.
    pub proof fn lemma_raw_round_trip(raw: u16, reg: Self)
        ensures
            Self::of_raw(raw)@ == raw,
            Self::of_raw(reg@) == reg,
    {
    }

    /// The all-zero value.
    pub fn new() -> (out: Self)
        ensures
            out@ == 0,
    {
        KeyControl(0)
    }

    /// Wraps a raw value, such as one just read from hardware. Every raw value
    /// is a register value, and `to_raw` gives it back.
    pub fn from_raw(raw: u16) -> (out: Self)
        ensures
            out == Self::of_raw(raw),
            out@ == raw,
    {
        KeyControl(raw)
    }

    /// The raw value, as it is written to hardware.
    pub fn to_raw(self) -> (raw: u16)
        ensures
            raw == self@,
    {
        self.0
    }

    pub fn a(self) -> (on: bool)
        ensures
            on == flag16(self@, Self::A),
    {
        get_flag16(self.0, Self::A)
    }

    pub fn with_a(self, bit: bool) -> (out: Self)
        ensures
            out@ == with_flag16(self@, Self::A, bit),
            flag16(out@, Self::A) == bit,
    {
        KeyControl(set_flag16(self.0, Self::A, bit))
    }

    pub fn b(self) -> (on: bool)
        ensures
            on == flag16(self@, Self::B),
    {
        get_flag16(self.0, Self::B)
    }

    pub fn with_b(self, bit: bool) -> (out: Self)
        ensures
            out@ == with_flag16(self@, Self::B, bit),
            flag16(out@, Self::B) == bit,
    {
        KeyControl(set_flag16(self.0, Self::B, bit))
    }

    pub fn select(self) -> (on: bool)
        ensures
            on == flag16(self@, Self::SELECT),
    {
        get_flag16(self.0, Self::SELECT)
    }

    pub fn with_select(self, bit: bool) -> (out: Self)
        ensures
            out@ == with_flag16(self@, Self::SELECT, bit),
            flag16(out@, Self::SELECT) == bit,
    {
        KeyControl(set_flag16(self.0, Self::SELECT, bit))
    }

    pub fn start(self) -> (on: bool)
        ensures
            on == flag16(self@, Self::START),
    {
        get_flag16(self.0, Self::START)
    }

    pub fn with_start(self, bit: bool) -> (out: Self)
        ensures
            out@ == with_flag16(self@, Self::START, bit),
            flag16(out@, Self::START) == bit,
    {
        KeyControl(set_flag16(self.0, Self::START, bit))
    }

    pub fn right(self) -> (on: bool)
        ensures
            on == flag16(self@, Self::RIGHT),
    {
        get_flag16(self.0, Self::RIGHT)
    }

    pub fn with_right(self, bit: bool) -> (out: Self)
        ensures
            out@ == with_flag16(self@, Self::RIGHT, bit),
            flag16(out@, Self::RIGHT) == bit,
    {
        KeyControl(set_flag16(self.0, Self::RIGHT, bit))
    }

    pub fn left(self) -> (on: bool)
        ensures
            on == flag16(self@, Self::LEFT),
    {
        get_flag16(self.0, Self::LEFT)
    }

    pub fn with_left(self, bit: bool) -> (out: Self)
        ensures
            out@ == with_flag16(self@, Self::LEFT, bit),
            flag16(out@, Self::LEFT) == bit,
    {
        KeyControl(set_flag16(self.0, Self::LEFT, bit))
    }

    pub fn up(self) -> (on: bool)
        ensures
            on == flag16(self@, Self::UP),
    {
        get_flag16(self.0, Self::UP)
    }

    pub fn with_up(self, bit: bool) -> (out: Self)
        ensures
            out@ == with_flag16(self@, Self::UP, bit),
            flag16(out@, Self::UP) == bit,
    {
        KeyControl(set_flag16(self.0, Self::UP, bit))
    }

    pub fn down(self) -> (on: bool)
        ensures
            on == flag16(self@, Self::DOWN),
    {
        get_flag16(self.0, Self::DOWN)
    }

    pub fn with_down(self, bit: bool) -> (out: Self)
        ensures
            out@ == with_flag16(self@, Self::DOWN, bit),
            flag16(out@, Self::DOWN) == bit,
    {
        KeyControl(set_flag16(self.0, Self::DOWN, bit))
    }

    pub fn r(self) -> (on: bool)
        ensures
            on == flag16(self@, Self::R),
    {
        get_flag16(self.0, Self::R)
    }

    pub fn with_r(self, bit: bool) -> (out: Self)
        ensures
            out@ == with_flag16(self@, Self::R, bit),
            flag16(out@, Self::R) == bit,
    {
        KeyControl(set_flag16(self.0, Self::R, bit))
    }

    pub fn l(self) -> (on: bool)
        ensures
            on == flag16(self@, Self::L),
    {
        get_flag16(self.0, Self::L)
    }

    pub fn with_l(self, bit: bool) -> (out: Self)
        ensures
            out@ == with_flag16(self@, Self::L, bit),
            flag16(out@, Self::L) == bit,
    {
        KeyControl(set_flag16(self.0, Self::L, bit))
    }

    pub fn irq_enabled(self) -> (on: bool)
        ensures
            on == flag16(self@, Self::IRQ_ENABLED),
    {
        get_flag16(self.0, Self::IRQ_ENABLED)
    }

    pub fn with_irq_enabled(self, bit: bool) -> (out: Self)
        ensures
            out@ == with_flag16(self@, Self::IRQ_ENABLED, bit),
            flag16(out@, Self::IRQ_ENABLED) == bit,
    {
        KeyControl(set_flag16(self.0, Self::IRQ_ENABLED, bit))
    }

    pub fn require_all_selected_keys(self) -> (on: bool)
        ensures
            on == flag16(self@, Self::REQUIRE_ALL_SELECTED_KEYS),
    {
        get_flag16(self.0, Self::REQUIRE_ALL_SELECTED_KEYS)
    }

    pub fn with_require_all_selected_keys(self, bit: bool) -> (out: Self)
        ensures
            out@ == with_flag16(self@, Self::REQUIRE_ALL_SELECTED_KEYS, bit),
            flag16(out@, Self::REQUIRE_ALL_SELECTED_KEYS) == bit,
    {
        KeyControl(set_flag16(self.0, Self::REQUIRE_ALL_SELECTED_KEYS, bit))
    }
}

} // verus!
