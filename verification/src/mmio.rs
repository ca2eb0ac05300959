//! The addresses of the GBA's Memory Mapped IO (MMIO).
//!
//! Each function names one register of the hardware: where it is, what it
//! stores, and whether it may be read, written or both. Declaring a location
//! is harmless on any machine. Carrying out an access that a location yields
//! is meaningful only on a GBA, where the address is mapped to hardware of the
//! declared shape; anywhere else it is undefined behaviour.

pub mod dma;
pub mod irq;
pub mod keypad;
pub mod lcd;
pub mod sound;
pub mod timers;

pub use self::dma::{
    dma0_control, dma0_count, dma0_dest, dma0_source, dma1_control, dma1_count, dma1_dest,
    dma1_source, dma2_control, dma2_count, dma2_dest, dma2_source, dma3_control, dma3_count,
    dma3_dest, dma3_source, set_dma0_control, set_dma1_control, set_dma2_control, set_dma3_control,
};
pub use self::irq::{
    IME_ADDRESS, disable_interrupts, enable_interrupts, ie, interrupt_master_read,
    interrupts_are_enabled, irq_acknowledge, irq_pending,
};
pub use self::keypad::{keycnt, keyinput};
pub use self::lcd::{
    bg0cnt, bg0hofs, bg0vofs, bg1cnt, bg1hofs, bg1vofs, bg2cnt, bg2hofs, bg2pa, bg2pb, bg2pc, bg2pd,
    bg2vofs, bg2x, bg2y, bg3cnt, bg3hofs, bg3pa, bg3pb, bg3pc, bg3pd, bg3vofs, bg3x, bg3y, bldalpha,
    bldcnt, bldy, dispcnt, dispstat, mosaic, vcount, win0h, win0v, win1h, win1v, winin, winout,
};
pub use self::sound::{
    dma_mixer, fifo_a, fifo_b, noise_frequency, noise_length_envelope, pulse_a_effects,
    pulse_a_freq_ctrl, pulse_a_sweep, pulse_b_effects, pulse_b_freq_ctrl, sound_status_enable,
    soundbias, stereo_control, wave_freq_ctrl, wave_init_ram_ctrl, wave_length_volume, wave_ram,
};
pub use self::timers::{
    timer0_control, timer0_counter, timer0_reload, timer1_control, timer1_counter, timer1_reload,
    timer2_control, timer2_counter, timer2_reload, timer3_control, timer3_counter, timer3_reload,
};

use crate::data::{Color, OBJAttr0, OBJAttr1, OBJAttr2};
use crate::location::{Block, Series};
use vstd::prelude::*;

verus! {

/// Background colors.
///
/// The 0th slot of this is the "backdrop" color, which is displayed in a pixel
/// if nothing else displays in a pixel.
pub fn palram_bg() -> (block: Block<Color>)
    ensures
        block.base() == 0x500_0000,
        block.slots() == 256,
{
    Block::new(0x500_0000, 256)
}

/// Object colors.
pub fn palram_obj() -> (block: Block<Color>)
    ensures
        block.base() == 0x500_0200,
        block.slots() == 256,
{
    Block::new(0x500_0200, 256)
}

/// OBJ Attribute 0 data series.
pub fn obg_attrs_0() -> (series: Series<OBJAttr0>)
    ensures
        series.base() == 0x700_0000,
        series.slots() == 128,
        series.stride() == 8,
{
    Series::new(0x700_0000, 128, 8)
}

/// OBJ Attribute 1 data series.
pub fn obg_attrs_1() -> (series: Series<OBJAttr1>)
    ensures
        series.base() == 0x700_0002,
        series.slots() == 128,
        series.stride() == 8,
{
    Series::new(0x700_0002, 128, 8)
}

/// OBJ Attribute 2 data series.
pub fn obg_attrs_2() -> (series: Series<OBJAttr2>)
    ensures
        series.base() == 0x700_0004,
        series.slots() == 128,
        series.stride() == 8,
{
    Series::new(0x700_0004, 128, 8)
}

/// Affine Parameter A data series.
pub fn affine_params_a() -> (series: Series<i16>)
    ensures
        series.base() == 0x700_0006,
        series.slots() == 32,
        series.stride() == 32,
{
    Series::new(0x700_0006, 32, 32)
}

/// Affine Parameter B data series.
pub fn affine_params_b() -> (series: Series<i16>)
    ensures
        series.base() == 0x700_000E,
        series.slots() == 32,
        series.stride() == 32,
{
    Series::new(0x700_000E, 32, 32)
}

/// Affine Parameter C data series.
pub fn affine_params_c() -> (series: Series<i16>)
    ensures
        series.base() == 0x700_0016,
        series.slots() == 32,
        series.stride() == 32,
{
    Series::new(0x700_0016, 32, 32)
}

/// Affine Parameter D data series.
pub fn affine_params_d() -> (series: Series<i16>)
    ensures
        series.base() == 0x700_001E,
        series.slots() == 32,
        series.stride() == 32,
{
    Series::new(0x700_001E, 32, 32)
}

/// The start of VRAM.
///
/// Depending on what display mode is currently set there's different ways that
/// your program should interpret the VRAM space. Accordingly, we give the raw
/// value as just being a `usize`. Specific video mode types then wrap this as
/// being the correct thing.
pub const VRAM_BASE_USIZE: usize = 0x600_0000;

/// If a mode has more than one page, add this much to the base value to get the
/// page 1 address.
pub const PAGE1_OFFSET: usize = 0xA000;

} // verus!
