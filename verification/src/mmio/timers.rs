//! Locations of the timer registers.

use crate::data::TimerControl;
use crate::location::{ReadOnly, ReadWrite, WriteOnly};
use vstd::prelude::*;

verus! {

/// Value that Timer0 will for reloads. Part of GBATEK `TM0CNT_L`.
pub fn timer0_reload() -> (loc: WriteOnly<u16>)
    ensures
        loc.address() == 0x4_000_100,
{
    WriteOnly::new(0x4_000_100)
}

/// Value that Timer1 will for reloads. Part of GBATEK `TM1CNT_L`.
pub fn timer1_reload() -> (loc: WriteOnly<u16>)
    ensures
        loc.address() == 0x4_000_104,
{
    WriteOnly::new(0x4_000_104)
}

/// Value that Timer2 will for reloads. Part of GBATEK `TM2CNT_L`.
pub fn timer2_reload() -> (loc: WriteOnly<u16>)
    ensures
        loc.address() == 0x4_000_108,
{
    WriteOnly::new(0x4_000_108)
}

/// Value that Timer3 will for reloads. Part of GBATEK `TM3CNT_L`.
pub fn timer3_reload() -> (loc: WriteOnly<u16>)
    ensures
        loc.address() == 0x4_000_10C,
{
    WriteOnly::new(0x4_000_10C)
}

/// Current value of Timer0's counter. Part of GBATEK `TM0CNT_L`.
pub fn timer0_counter() -> (loc: ReadOnly<u16>)
    ensures
        loc.address() == 0x4_000_100,
{
    ReadOnly::new(0x4_000_100)
}

/// Current value of Timer1's counter. Part of GBATEK `TM1CNT_L`.
pub fn timer1_counter() -> (loc: ReadOnly<u16>)
    ensures
        loc.address() == 0x4_000_104,
{
    ReadOnly::new(0x4_000_104)
}

/// Current value of Timer2's counter. Part of GBATEK `TM2CNT_L`.
pub fn timer2_counter() -> (loc: ReadOnly<u16>)
    ensures
        loc.address() == 0x4_000_108,
{
    ReadOnly::new(0x4_000_108)
}

/// Current value of Timer3's counter. Part of GBATEK `TM3CNT_L`.
pub fn timer3_counter() -> (loc: ReadOnly<u16>)
    ensures
        loc.address() == 0x4_000_10C,
{
    ReadOnly::new(0x4_000_10C)
}

/// Controls the actions of Timer0. GBATEK `TM0CNT_H`.
pub fn timer0_control() -> (loc: ReadWrite<TimerControl>)
    ensures
        loc.address() == 0x4_000_102,
{
    ReadWrite::new(0x4_000_102)
}

/// Controls the actions of Timer1. GBATEK `TM1CNT_H`.
pub fn timer1_control() -> (loc: ReadWrite<TimerControl>)
    ensures
        loc.address() == 0x4_000_106,
{
    ReadWrite::new(0x4_000_106)
}

/// Controls the actions of Timer2. GBATEK `TM2CNT_H`.
pub fn timer2_control() -> (loc: ReadWrite<TimerControl>)
    ensures
        loc.address() == 0x4_000_10A,
{
    ReadWrite::new(0x4_000_10A)
}

/// Controls the actions of Timer3. GBATEK `TM3CNT_H`.
pub fn timer3_control() -> (loc: ReadWrite<TimerControl>)
    ensures
        loc.address() == 0x4_000_10E,
{
    ReadWrite::new(0x4_000_10E)
}

} // verus!
