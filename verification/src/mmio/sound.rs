//! Locations of the sound registers.

use crate::data::{
    DMAMixer, DutyLenEnvelope, LengthEnvelope, NoiseFrequencyControl, PulseFrequencyControl,
    SoundStatusMaster, Soundbias, StereoControl, Sweep, WaveFrequencyControl, WaveInitRAMControl,
    WaveLengthVolume,
};
use crate::location::{Block, ReadWrite, WriteOnly};
use vstd::prelude::*;

verus! {

/// Pulse A: Sweep. GBATEK `SOUND1CNT_L`
pub fn pulse_a_sweep() -> (loc: ReadWrite<Sweep>)
    ensures
        loc.address() == 0x400_0060,
{
    ReadWrite::new(0x400_0060)
}

/// Pulse A: Duty, Length, and Envelope. GBATEK `SOUND1CNT_H`
pub fn pulse_a_effects() -> (loc: ReadWrite<DutyLenEnvelope>)
    ensures
        loc.address() == 0x400_0062,
{
    ReadWrite::new(0x400_0062)
}

/// Pulse A: Frequency and Master Control. GBATEK `SOUND1CNT_X`
pub fn pulse_a_freq_ctrl() -> (loc: ReadWrite<PulseFrequencyControl>)
    ensures
        loc.address() == 0x400_0064,
{
    ReadWrite::new(0x400_0064)
}

/// Pulse B: Duty, Length, and Envelope. GBATEK `SOUND2CNT_L`
pub fn pulse_b_effects() -> (loc: ReadWrite<DutyLenEnvelope>)
    ensures
        loc.address() == 0x400_0068,
{
    ReadWrite::new(0x400_0068)
}

/// Pulse B: Frequency and Master Control. GBATEK `SOUND2CNT_H`
pub fn pulse_b_freq_ctrl() -> (loc: ReadWrite<PulseFrequencyControl>)
    ensures
        loc.address() == 0x400_006C,
{
    ReadWrite::new(0x400_006C)
}

/// Wave: Initialization and RAM control. GBATEK `SOUND3CNT_L`
pub fn wave_init_ram_ctrl() -> (loc: ReadWrite<WaveInitRAMControl>)
    ensures
        loc.address() == 0x400_0070,
{
    ReadWrite::new(0x400_0070)
}

/// Wave: Length and Volume. GBATEK `SOUND3CNT_H`
pub fn wave_length_volume() -> (loc: ReadWrite<WaveLengthVolume>)
    ensures
        loc.address() == 0x400_0072,
{
    ReadWrite::new(0x400_0072)
}

/// Wave: Frequency and Master Control. GBATEK `SOUND3CNT_X`
pub fn wave_freq_ctrl() -> (loc: ReadWrite<WaveFrequencyControl>)
    ensures
        loc.address() == 0x400_0074,
{
    ReadWrite::new(0x400_0074)
}

/// Noise: Length and Envelope. GBATEK `SOUND4CNT_L`
pub fn noise_length_envelope() -> (loc: ReadWrite<LengthEnvelope>)
    ensures
        loc.address() == 0x400_0078,
{
    ReadWrite::new(0x400_0078)
}

/// Noise: Frequency and Master Control. GBATEK `SOUND4CNT_H`
pub fn noise_frequency() -> (loc: ReadWrite<NoiseFrequencyControl>)
    ensures
        loc.address() == 0x400_007C,
{
    ReadWrite::new(0x400_007C)
}

/// Stereo Controls. GBATEK `SOUNDCNT_L`.
pub fn stereo_control() -> (loc: ReadWrite<StereoControl>)
    ensures
        loc.address() == 0x400_0080,
{
    ReadWrite::new(0x400_0080)
}

/// Controls DMA sound mixing. GBATEK `SOUNDCNT_H`.
pub fn dma_mixer() -> (loc: ReadWrite<DMAMixer>)
    ensures
        loc.address() == 0x400_0082,
{
    ReadWrite::new(0x400_0082)
}

/// Sound status and sound master enable.
///
/// If sound is not enabled via this register, most sound registers are reset
/// (if active) and unaccessible. The exceptions are `dma_mixer` and `soundbias`.
pub fn sound_status_enable() -> (loc: ReadWrite<SoundStatusMaster>)
    ensures
        loc.address() == 0x400_0084,
{
    ReadWrite::new(0x400_0084)
}

/// Controls final sound output. You can usually leave this at default.
pub fn soundbias() -> (loc: ReadWrite<Soundbias>)
    ensures
        loc.address() == 0x400_0088,
{
    ReadWrite::new(0x400_0088)
}

/// The programmer-accessible wave ram data.
///
/// Note that there are two wave ram banks. At any given moment one of them is
/// set for use as playback, and the other one will be accessible here. The
/// playback bank is played by playing 4 bits as a single sample and then
/// rotating the entire 128 bits of wave ram to put the next sample in place.
/// Thus, when updating the wave ram you generally have to re-write all of the
/// memory even if you only want a small change, because the loop will have been
/// shifted around by some unknown amount.
pub fn wave_ram() -> (block: Block<u16>)
    ensures
        block.base() == 0x400_0090,
        block.slots() == 8,
{
    Block::new(0x400_0090, 8)
}

/// Input for DMA Sound Channel A.
///
/// This allows you to input 4 bytes at a time into DMA Sound A. There is an
/// internal buffer of 32 bytes. Each byte is a single sound sample (`i8`).
///
/// Please see GBATEK for a full explanation of the (somewhat complicated)
/// process of using the DMA sound outputs.
///
/// The four signed 8-bit samples are written as one 32-bit word, the first
/// sample in the low byte.
pub fn fifo_a() -> (loc: WriteOnly<u32>)
    ensures
        loc.address() == 0x400_00A0,
{
    WriteOnly::new(0x400_00A0)
}

/// Input for DMA Sound Channel B.
///
/// As `fifo_a`, but for DMA Sound B
///
/// The four signed 8-bit samples are written as one 32-bit word, the first
/// sample in the low byte.
pub fn fifo_b() -> (loc: WriteOnly<u32>)
    ensures
        loc.address() == 0x400_00A4,
{
    WriteOnly::new(0x400_00A4)
}

} // verus!
