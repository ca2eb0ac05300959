//! Locations of the keypad registers.

use crate::data::{KeyControl, KeyInput};
use crate::location::{ReadOnly, ReadWrite};
use vstd::prelude::*;

verus! {

/// Reads the low-active key values (see [KeyInput](crate::data::KeyInput)).
pub fn keyinput() -> (loc: ReadOnly<KeyInput>)
    ensures
        loc.address() == 0x4_000_130,
{
    ReadOnly::new(0x4_000_130)
}

/// Key interrupt control.
pub fn keycnt() -> (loc: ReadWrite<KeyControl>)
    ensures
        loc.address() == 0x4_000_130,
{
    ReadWrite::new(0x4_000_130)
}

} // verus!
