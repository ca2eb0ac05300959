//! Locations of the DMA registers, and the writes that start a transfer.

use crate::data::DMAControl;
use crate::location::{Access, ReadOnly, ReadWrite, WriteOnly};
use crate::register::Width;
use vstd::prelude::*;

verus! {

/// Only uses the least significant 27 bits of the address
///
/// The register holds an address, written as its 32-bit value.
pub fn dma0_source() -> (loc: WriteOnly<u32>)
    ensures
        loc.address() == 0x4_000_0B0,
{
    WriteOnly::new(0x4_000_0B0)
}

/// Only uses the least significant 27 bits of the address
///
/// The register holds an address, written as its 32-bit value.
pub fn dma0_dest() -> (loc: WriteOnly<u32>)
    ensures
        loc.address() == 0x4_000_0B4,
{
    WriteOnly::new(0x4_000_0B4)
}

/// How many _units_ to transfer (either 16-bit or 32-bit). 0 instead indicates 0x4000.
pub fn dma0_count() -> (loc: WriteOnly<u16>)
    ensures
        loc.address() == 0x4_000_0B8,
{
    WriteOnly::new(0x4_000_0B8)
}

/// Reads the DMA0 control register (always safe to read).
pub fn dma0_control() -> (loc: ReadOnly<DMAControl>)
    ensures
        loc.address() == 0x4_000_0BA,
{
    ReadOnly::new(0x4_000_0BA)
}

/// The access that writes `ctrl` to the DMA0 control register.
///
/// Carrying the access out starts or changes a DMA transfer. That is sound only
/// if all of the DMA rules outlined in
/// [GBATEK](https://problemkaputt.de/gbatek.htm#gbadmatransfers) are followed
/// and the transfer alters no memory that a shared reference, a unique
/// reference or a const pointer currently points to.
pub fn set_dma0_control(ctrl: DMAControl) -> (access: Access)
    ensures
        access == (Access::Write {
            address: 0x4_000_0BA,
            width: Width::Half,
            bits: ctrl@ as u32,
        }),
{
    ReadWrite::new(dma0_control().to_usize()).write(ctrl)
}

/// Only uses the least significant 28 bits of the address
///
/// The register holds an address, written as its 32-bit value.
pub fn dma1_source() -> (loc: WriteOnly<u32>)
    ensures
        loc.address() == 0x4_000_0BC,
{
    WriteOnly::new(0x4_000_0BC)
}

/// Only uses the least significant 28 bits of the address
///
/// The register holds an address, written as its 32-bit value.
pub fn dma1_dest() -> (loc: WriteOnly<u32>)
    ensures
        loc.address() == 0x4_000_0C0,
{
    WriteOnly::new(0x4_000_0C0)
}

/// How many _units_ to transfer (either 16-bit or 32-bit). 0 instead indicates 0x1_0000.
pub fn dma1_count() -> (loc: WriteOnly<u16>)
    ensures
        loc.address() == 0x4_000_0C4,
{
    WriteOnly::new(0x4_000_0C4)
}

/// Reads the DMA1 control register (always safe to read).
pub fn dma1_control() -> (loc: ReadWrite<DMAControl>)
    ensures
        loc.address() == 0x4_000_0C6,
{
    ReadWrite::new(0x4_000_0C6)
}

/// The access that writes `ctrl` to the DMA1 control register.
///
/// Carrying it out is sound under the conditions given at `set_dma0_control`.
pub fn set_dma1_control(ctrl: DMAControl) -> (access: Access)
    ensures
        access == (Access::Write {
            address: 0x4_000_0C6,
            width: Width::Half,
            bits: ctrl@ as u32,
        }),
{
    ReadWrite::new(dma1_control().to_usize()).write(ctrl)
}

/// Only uses the least significant 28 bits of the address
///
/// The register holds an address, written as its 32-bit value.
pub fn dma2_source() -> (loc: WriteOnly<u32>)
    ensures
        loc.address() == 0x4_000_0C8,
{
    WriteOnly::new(0x4_000_0C8)
}

/// Only uses the least significant 28 bits of the address
///
/// The register holds an address, written as its 32-bit value.
pub fn dma2_dest() -> (loc: WriteOnly<u32>)
    ensures
        loc.address() == 0x4_000_0CC,
{
    WriteOnly::new(0x4_000_0CC)
}

/// How many _units_ to transfer (either 16-bit or 32-bit). 0 instead indicates 0x1_0000.
pub fn dma2_count() -> (loc: WriteOnly<u16>)
    ensures
        loc.address() == 0x4_000_0D0,
{
    WriteOnly::new(0x4_000_0D0)
}

/// Reads the DMA2 control register (always safe to read).
pub fn dma2_control() -> (loc: ReadWrite<DMAControl>)
    ensures
        loc.address() == 0x4_000_0D2,
{
    ReadWrite::new(0x4_000_0D2)
}

/// The access that writes `ctrl` to the DMA2 control register.
///
/// Carrying it out is sound under the conditions given at `set_dma0_control`.
pub fn set_dma2_control(ctrl: DMAControl) -> (access: Access)
    ensures
        access == (Access::Write {
            address: 0x4_000_0D2,
            width: Width::Half,
            bits: ctrl@ as u32,
        }),
{
    ReadWrite::new(dma2_control().to_usize()).write(ctrl)
}

/// Only uses the least significant 28 bits of the address
///
/// The register holds an address, written as its 32-bit value.
pub fn dma3_source() -> (loc: WriteOnly<u32>)
    ensures
        loc.address() == 0x4_000_0D4,
{
    WriteOnly::new(0x4_000_0D4)
}

/// Only uses the least significant 28 bits of the address
///
/// The register holds an address, written as its 32-bit value.
pub fn dma3_dest() -> (loc: WriteOnly<u32>)
    ensures
        loc.address() == 0x4_000_0D8,
{
    WriteOnly::new(0x4_000_0D8)
}

/// How many _units_ to transfer (either 16-bit or 32-bit). 0 instead indicates 0x1_0000.
pub fn dma3_count() -> (loc: WriteOnly<u16>)
    ensures
        loc.address() == 0x4_000_0DC,
{
    WriteOnly::new(0x4_000_0DC)
}

/// Reads the DMA3 control register (always safe to read).
pub fn dma3_control() -> (loc: ReadWrite<DMAControl>)
    ensures
        loc.address() == 0x4_000_0DE,
{
    ReadWrite::new(0x4_000_0DE)
}

/// The access that writes `ctrl` to the DMA3 control register.
///
/// Carrying it out is sound under the conditions given at `set_dma0_control`.
pub fn set_dma3_control(ctrl: DMAControl) -> (access: Access)
    ensures
        access == (Access::Write {
            address: 0x4_000_0DE,
            width: Width::Half,
            bits: ctrl@ as u32,
        }),
{
    ReadWrite::new(dma3_control().to_usize()).write(ctrl)
}

} // verus!
