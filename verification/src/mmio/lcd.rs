//! Locations of the display registers.

use crate::data::{
    BackgroundControl, BlendAlpha, BlendBrightness, BlendControl, DisplayControl, DisplayStatus,
    FP_I_19_8, FP_I_7_8, Mosaic, WindowHorizontal, WindowIn, WindowOut, WindowVertical,
};
use crate::location::{ReadOnly, ReadWrite, WriteOnly};
use vstd::prelude::*;

verus! {

/// The core display control register.
///
/// Sets the visual mode as well as which layers to display.
pub fn dispcnt() -> (loc: ReadWrite<DisplayControl>)
    ensures
        loc.address() == 0x400_0000,
{
    ReadWrite::new(0x400_0000)
}

/// Display status and interrupt control register.
///
/// This is only partly read/write, some fields are read only, see the setting
/// type for more info.
pub fn dispstat() -> (loc: ReadWrite<DisplayStatus>)
    ensures
        loc.address() == 0x400_0004,
{
    ReadWrite::new(0x400_0004)
}

/// The current scanline being processed.
///
/// 160 and above are virtual scanlines used during VBlank.
pub fn vcount() -> (loc: ReadOnly<u16>)
    ensures
        loc.address() == 0x400_0006,
{
    ReadOnly::new(0x400_0006)
}

/// Configuration for BG0
pub fn bg0cnt() -> (loc: ReadWrite<BackgroundControl>)
    ensures
        loc.address() == 0x400_0008,
{
    ReadWrite::new(0x400_0008)
}

/// Configuration for BG1
pub fn bg1cnt() -> (loc: ReadWrite<BackgroundControl>)
    ensures
        loc.address() == 0x400_000A,
{
    ReadWrite::new(0x400_000A)
}

/// Configuration for BG2
pub fn bg2cnt() -> (loc: ReadWrite<BackgroundControl>)
    ensures
        loc.address() == 0x400_000C,
{
    ReadWrite::new(0x400_000C)
}

/// Configuration for BG3
pub fn bg3cnt() -> (loc: ReadWrite<BackgroundControl>)
    ensures
        loc.address() == 0x400_000E,
{
    ReadWrite::new(0x400_000E)
}

/// Leftmost visible BG0 pixel (9-bits, tiled mode only).
pub fn bg0hofs() -> (loc: WriteOnly<u16>)
    ensures
        loc.address() == 0x400_0010,
{
    WriteOnly::new(0x400_0010)
}

/// Topmost visible BG0 pixel (9-bits, tiled mode only).
pub fn bg0vofs() -> (loc: WriteOnly<u16>)
    ensures
        loc.address() == 0x400_0012,
{
    WriteOnly::new(0x400_0012)
}

/// Leftmost visible BG1 pixel (9-bits, tiled mode only).
pub fn bg1hofs() -> (loc: WriteOnly<u16>)
    ensures
        loc.address() == 0x400_0014,
{
    WriteOnly::new(0x400_0014)
}

/// Topmost visible BG1 pixel (9-bits, tiled mode only).
pub fn bg1vofs() -> (loc: WriteOnly<u16>)
    ensures
        loc.address() == 0x400_0016,
{
    WriteOnly::new(0x400_0016)
}

/// Leftmost visible BG2 pixel (9-bits, tiled mode only).
pub fn bg2hofs() -> (loc: WriteOnly<u16>)
    ensures
        loc.address() == 0x400_0018,
{
    WriteOnly::new(0x400_0018)
}

/// Topmost visible BG2 pixel (9-bits, tiled mode only).
pub fn bg2vofs() -> (loc: WriteOnly<u16>)
    ensures
        loc.address() == 0x400_001A,
{
    WriteOnly::new(0x400_001A)
}

/// Leftmost visible BG3 pixel (9-bits, tiled mode only).
pub fn bg3hofs() -> (loc: WriteOnly<u16>)
    ensures
        loc.address() == 0x400_001C,
{
    WriteOnly::new(0x400_001C)
}

/// Topmost visible BG3 pixel (9-bits, tiled mode only).
pub fn bg3vofs() -> (loc: WriteOnly<u16>)
    ensures
        loc.address() == 0x400_001E,
{
    WriteOnly::new(0x400_001E)
}

/// BG2 Affine Parameter A
pub fn bg2pa() -> (loc: WriteOnly<FP_I_7_8>)
    ensures
        loc.address() == 0x400_0020,
{
    WriteOnly::new(0x400_0020)
}

/// BG2 Affine Parameter B
pub fn bg2pb() -> (loc: WriteOnly<FP_I_7_8>)
    ensures
        loc.address() == 0x400_0022,
{
    WriteOnly::new(0x400_0022)
}

/// BG2 Affine Parameter C
pub fn bg2pc() -> (loc: WriteOnly<FP_I_7_8>)
    ensures
        loc.address() == 0x400_0024,
{
    WriteOnly::new(0x400_0024)
}

/// BG2 Affine Parameter D
pub fn bg2pd() -> (loc: WriteOnly<FP_I_7_8>)
    ensures
        loc.address() == 0x400_0026,
{
    WriteOnly::new(0x400_0026)
}

/// BG2 Reference X coordinate
pub fn bg2x() -> (loc: WriteOnly<FP_I_19_8>)
    ensures
        loc.address() == 0x400_0028,
{
    WriteOnly::new(0x400_0028)
}

/// BG2 Reference Y coordinate
pub fn bg2y() -> (loc: WriteOnly<FP_I_19_8>)
    ensures
        loc.address() == 0x400_002C,
{
    WriteOnly::new(0x400_002C)
}

/// BG3 Affine Parameter A
pub fn bg3pa() -> (loc: WriteOnly<FP_I_7_8>)
    ensures
        loc.address() == 0x400_0030,
{
    WriteOnly::new(0x400_0030)
}

/// BG3 Affine Parameter B
pub fn bg3pb() -> (loc: WriteOnly<FP_I_7_8>)
    ensures
        loc.address() == 0x400_0032,
{
    WriteOnly::new(0x400_0032)
}

/// BG3 Affine Parameter C
pub fn bg3pc() -> (loc: WriteOnly<FP_I_7_8>)
    ensures
        loc.address() == 0x400_0034,
{
    WriteOnly::new(0x400_0034)
}

/// BG3 Affine Parameter D
pub fn bg3pd() -> (loc: WriteOnly<FP_I_7_8>)
    ensures
        loc.address() == 0x400_0036,
{
    WriteOnly::new(0x400_0036)
}

/// BG3 Reference X coordinate
pub fn bg3x() -> (loc: WriteOnly<FP_I_19_8>)
    ensures
        loc.address() == 0x400_0038,
{
    WriteOnly::new(0x400_0038)
}

/// BG3 Reference Y coordinate
pub fn bg3y() -> (loc: WriteOnly<FP_I_19_8>)
    ensures
        loc.address() == 0x400_003C,
{
    WriteOnly::new(0x400_003C)
}

/// Horizontal position of Win0
pub fn win0h() -> (loc: WriteOnly<WindowHorizontal>)
    ensures
        loc.address() == 0x400_0040,
{
    WriteOnly::new(0x400_0040)
}

/// Horizontal position of Win1
pub fn win1h() -> (loc: WriteOnly<WindowHorizontal>)
    ensures
        loc.address() == 0x400_0042,
{
    WriteOnly::new(0x400_0042)
}

/// Vertical position of Win0
pub fn win0v() -> (loc: WriteOnly<WindowVertical>)
    ensures
        loc.address() == 0x400_0044,
{
    WriteOnly::new(0x400_0044)
}

/// Vertical position of Win1
pub fn win1v() -> (loc: WriteOnly<WindowVertical>)
    ensures
        loc.address() == 0x400_0046,
{
    WriteOnly::new(0x400_0046)
}

/// Controls the appearance inside of Window0 and Window1
pub fn winin() -> (loc: ReadWrite<WindowIn>)
    ensures
        loc.address() == 0x400_0048,
{
    ReadWrite::new(0x400_0048)
}

/// Controls the appearance Outside of Windows and of the OBJ Window
pub fn winout() -> (loc: ReadWrite<WindowOut>)
    ensures
        loc.address() == 0x400_004A,
{
    ReadWrite::new(0x400_004A)
}

/// Allows control of the mosaic effect.
pub fn mosaic() -> (loc: WriteOnly<Mosaic>)
    ensures
        loc.address() == 0x400_004C,
{
    WriteOnly::new(0x400_004C)
}

/// Overall configuration of color blending (see also `bldalpha` and `bldy`)
pub fn bldcnt() -> (loc: ReadWrite<BlendControl>)
    ensures
        loc.address() == 0x400_0050,
{
    ReadWrite::new(0x400_0050)
}

/// Configures alpha blending.
pub fn bldalpha() -> (loc: ReadWrite<BlendAlpha>)
    ensures
        loc.address() == 0x400_0052,
{
    ReadWrite::new(0x400_0052)
}

/// Configures brightness blending.
pub fn bldy() -> (loc: WriteOnly<BlendBrightness>)
    ensures
        loc.address() == 0x400_0054,
{
    WriteOnly::new(0x400_0054)
}

} // verus!
