//! Locations of the interrupt registers, and the master switch.

use crate::bits::{flag8, get_flag8};
use crate::data::{InterruptEnable, InterruptRequestFlags};
use crate::location::{Access, ReadOnly, ReadWrite, WriteOnly};
use crate::register::Width;
use vstd::prelude::*;

verus! {

/// The address value of the `IME` register, the master switch of all interrupts.
pub const IME_ADDRESS: usize = 0x4_000_208;

/// The `IME` register. It stays private: see `enable_interrupts`.
fn ime() -> (loc: ReadWrite<u8>)
    ensures
        loc.address() == IME_ADDRESS,
{
    ReadWrite::new(IME_ADDRESS)
}

/// Interrupt Enable, see the type for info.
pub fn ie() -> (loc: ReadWrite<InterruptEnable>)
    ensures
        loc.address() == 0x4_000_200,
{
    ReadWrite::new(0x4_000_200)
}

/// Check to see what interrupts are pending. Part of GBATEK `IF`.
pub fn irq_pending() -> (loc: ReadOnly<InterruptRequestFlags>)
    ensures
        loc.address() == 0x4_000_200,
{
    ReadOnly::new(0x4_000_200)
}

/// Acknowledge an interrupt as processed. Part of GBATEK `IF`.
pub fn irq_acknowledge() -> (loc: WriteOnly<InterruptRequestFlags>)
    ensures
        loc.address() == 0x4_000_200,
{
    WriteOnly::new(0x4_000_200)
}

/// The access that lets interrupts fire at all. GBATEK `IME`
///
/// Computing the access is harmless. Carrying it out hands control to the
/// interrupt handler whenever an interrupt fires, so it is sound only in a
/// program linked with a handler that keeps to the assumptions Rust makes
/// about the memory it works with.
pub fn enable_interrupts() -> (access: Access)
    ensures
        access == (Access::Write { address: IME_ADDRESS, width: Width::Byte, bits: 1 }),
{
    ime().write(1)
}

/// The access that prevents all interrupts from firing.
///
/// It is always safe to turn interrupts off.
pub fn disable_interrupts() -> (access: Access)
    ensures
        access == (Access::Write { address: IME_ADDRESS, width: Width::Byte, bits: 0 }),
{
    ime().write(0)
}

/// The access that reads the `IME` register, whose result
/// [`interrupts_are_enabled`] takes.
pub fn interrupt_master_read() -> (access: Access)
    ensures
        access == (Access::Read { address: IME_ADDRESS, width: Width::Byte }),
{
    ime().read()
}

/// Whether interrupts are enabled, given the value `ime` read from the `IME`
/// register: bit 0 decides, the other bits are not looked at.
pub fn interrupts_are_enabled(ime: u8) -> (enabled: bool)
    ensures
        enabled == flag8(ime, 0),
{
    get_flag8(ime, 0)
}

} // verus!
