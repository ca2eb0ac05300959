//! Typed memory-mapped locations.
//!
//! A location pairs an address with the type stored there and with what may be
//! done to it: read, written, or both. The three kinds are three types, and each
//! offers only the accesses that its kind permits, so reading a write-only
//! location or writing a read-only one cannot be written down at all.
//!
//! Nothing here touches memory. A location describes the volatile access to
//! make as an [`Access`] value; whoever holds the hardware carries it out, one
//! access per value, in program order, and hands the pattern read to
//! [`Register::from_bits`].

use crate::register::{Register, Width};
use std::marker::PhantomData;
use vstd::prelude::*;

verus! {

/// One volatile access to memory, to be carried out as it stands.
#[derive(Debug, Clone, Copy, PartialEq, Eq, Structural)]
pub enum Access {
    /// Read `width` bytes at `address`.
    Read { address: usize, width: Width },
    /// Write the low `width` bytes of `bits` at `address`.
    Write { address: usize, width: Width, bits: u32 },
}

/// A location that can be read and written.
#[derive(Debug, PartialEq, Eq)]
pub struct ReadWrite<T: Register> {
    address: usize,
    marker: PhantomData<T>,
}

/// A location that can only be read.
#[derive(Debug, PartialEq, Eq)]
pub struct ReadOnly<T: Register> {
    address: usize,
    marker: PhantomData<T>,
}

/// A location that can only be written.
#[derive(Debug, PartialEq, Eq)]
pub struct WriteOnly<T: Register> {
    address: usize,
    marker: PhantomData<T>,
}

impl<T: Register> Clone for ReadWrite<T> {
    fn clone(&self) -> (out: Self)
        ensures
            out == *self,
    {
        ReadWrite { address: self.address, marker: PhantomData }
    }
}

impl<T: Register> Copy for ReadWrite<T> {
}

impl<T: Register> ReadWrite<T> {
    /// The address of the location.
    pub closed spec fn address(self) -> usize {
        self.address
    }

    /// Declares the location at `address`. Declaring is always harmless, whatever
    /// the address; only carrying out an access asks that the hardware be there.
    pub fn new(address: usize) -> (loc: Self)
        ensures
            loc.address() == address,
    {
        ReadWrite { address, marker: PhantomData }
    }

    /// The address of the location.
    pub fn to_usize(&self) -> (address: usize)
        ensures
            address == self.address(),
    {
        self.address
    }

    /// The access that reads the current value.
    pub fn read(&self) -> (access: Access)
        ensures
            access == (Access::Read { address: self.address(), width: T::width() }),
    {
        Access::Read { address: self.address, width: T::access_width() }
    }

    /// The access that writes `value`.
    pub fn write(&self, value: T) -> (access: Access)
        ensures
            access == (Access::Write {
                address: self.address(),
                width: T::width(),
                bits: value.bits(),
            }),
    {
        Access::Write { address: self.address, width: T::access_width(), bits: value.to_bits() }
    }
}

impl<T: Register> Clone for ReadOnly<T> {
    fn clone(&self) -> (out: Self)
        ensures
            out == *self,
    {
        ReadOnly { address: self.address, marker: PhantomData }
    }
}

impl<T: Register> Copy for ReadOnly<T> {
}

impl<T: Register> ReadOnly<T> {
    /// The address of the location.
    pub closed spec fn address(self) -> usize {
        self.address
    }

    /// Declares the location at `address`.
    pub fn new(address: usize) -> (loc: Self)
        ensures
            loc.address() == address,
    {
        ReadOnly { address, marker: PhantomData }
    }

    /// The address of the location.
    pub fn to_usize(&self) -> (address: usize)
        ensures
            address == self.address(),
    {
        self.address
    }

    /// The access that reads the current value. A read-only location yields
    /// no other access.
    pub fn read(&self) -> (access: Access)
        ensures
            access == (Access::Read { address: self.address(), width: T::width() }),
    {
        Access::Read { address: self.address, width: T::access_width() }
    }
}

impl<T: Register> Clone for WriteOnly<T> {
    fn clone(&self) -> (out: Self)
        ensures
            out == *self,
    {
        WriteOnly { address: self.address, marker: PhantomData }
    }
}

impl<T: Register> Copy for WriteOnly<T> {
}

impl<T: Register> WriteOnly<T> {
    /// The address of the location.
    pub closed spec fn address(self) -> usize {
        self.address
    }

    /// Declares the location at `address`.
    pub fn new(address: usize) -> (loc: Self)
        ensures
            loc.address() == address,
    {
        WriteOnly { address, marker: PhantomData }
    }

    /// The address of the location.
    pub fn to_usize(&self) -> (address: usize)
        ensures
            address == self.address(),
    {
        self.address
    }

    /// The access that writes `value`. A write-only location yields no other
    /// access.
    pub fn write(&self, value: T) -> (access: Access)
        ensures
            access == (Access::Write {
                address: self.address(),
                width: T::width(),
                bits: value.bits(),
            }),
    {
        Access::Write { address: self.address, width: T::access_width(), bits: value.to_bits() }
    }
}

/// A run of `slots` read-write locations of one type, one directly after the
/// other, the first at `base`.
#[derive(Debug, PartialEq, Eq)]
pub struct Block<T: Register> {
    base: usize,
    slots: usize,
    marker: PhantomData<T>,
}

/// A run of `slots` read-write locations of one type, `stride` bytes from one
/// to the next, the first at `base`.
#[derive(Debug, PartialEq, Eq)]
pub struct Series<T: Register> {
    base: usize,
    slots: usize,
    stride: usize,
    marker: PhantomData<T>,
}

/// The address of slot `slot` in a run that starts at `base` and advances by
/// `stride` bytes.
pub open spec fn slot_address(base: usize, stride: nat, slot: nat) -> int {
    base + slot * stride
}

impl<T: Register> Clone for Block<T> {
    fn clone(&self) -> (out: Self)
        ensures
            out == *self,
    {
        proof {
            use_type_invariant(self);
        }
        Block { base: self.base, slots: self.slots, marker: PhantomData }
    }
}

impl<T: Register> Copy for Block<T> {
}

impl<T: Register> Block<T> {
    /// The address of the first slot.
    pub closed spec fn base(self) -> usize {
        self.base
    }

    /// The number of slots.
    pub closed spec fn slots(self) -> usize {
        self.slots
    }

    #[verifier::type_invariant]
    spec fn inv(self) -> bool {
        slot_address(self.base, T::width().byte_count(), self.slots as nat) <= usize::MAX
    }

    /// Declares the block of `slots` values that starts at `base`. The whole
    /// block must lie inside the address space.
    pub fn new(base: usize, slots: usize) -> (block: Self)
        requires
            slot_address(base, T::width().byte_count(), slots as nat) <= usize::MAX,
        ensures
            block.base() == base,
            block.slots() == slots,
    {
        Block { base, slots, marker: PhantomData }
    }

    /// The number of slots.
    pub fn len(&self) -> (slots: usize)
        ensures
            slots == self.slots(),
    {
        self.slots
    }

    /// The location of slot `slot`, or `None` when the block has no such slot.
    pub fn get(&self, slot: usize) -> (loc: Option<ReadWrite<T>>)
        ensures
            loc is Some <==> slot < self.slots(),
            loc is Some ==> loc->0.address() == slot_address(
                self.base(),
                T::width().byte_count(),
                slot as nat,
            ),
    {
        proof {
            use_type_invariant(self);
        }
        if slot < self.slots {
            let size: usize = T::access_width().bytes();
            assert(slot * size <= self.slots * size) by (nonlinear_arith)
                requires
                    slot < self.slots,
                    0 <= size,
            ;
            Some(ReadWrite::new(self.base + slot * size))
        } else {
            None
        }
    }
}

impl<T: Register> Clone for Series<T> {
    fn clone(&self) -> (out: Self)
        ensures
            out == *self,
    {
        proof {
            use_type_invariant(self);
        }
        Series {
            base: self.base,
            slots: self.slots,
            stride: self.stride,
            marker: PhantomData,
        }
    }
}

impl<T: Register> Copy for Series<T> {
}

impl<T: Register> Series<T> {
    /// The address of the first slot.
    pub closed spec fn base(self) -> usize {
        self.base
    }

    /// The number of slots.
    pub closed spec fn slots(self) -> usize {
        self.slots
    }

    /// The distance in bytes from one slot to the next.
    pub closed spec fn stride(self) -> usize {
        self.stride
    }

    #[verifier::type_invariant]
    spec fn inv(self) -> bool {
        slot_address(self.base, self.stride as nat, self.slots as nat) <= usize::MAX
    }

    /// Declares the series of `slots` values, `stride` bytes apart, that
    /// starts at `base`. The whole series must lie inside the address space.
    pub fn new(base: usize, slots: usize, stride: usize) -> (series: Self)
        requires
            slot_address(base, stride as nat, slots as nat) <= usize::MAX,
        ensures
            series.base() == base,
            series.slots() == slots,
            series.stride() == stride,
    {
        Series { base, slots, stride, marker: PhantomData }
    }

    /// The number of slots.
    pub fn len(&self) -> (slots: usize)
        ensures
            slots == self.slots(),
    {
        self.slots
    }

    /// The location of slot `slot`, or `None` when the series has no such slot.
    pub fn get(&self, slot: usize) -> (loc: Option<ReadWrite<T>>)
        ensures
            loc is Some <==> slot < self.slots(),
            loc is Some ==> loc->0.address() == slot_address(
                self.base(),
                self.stride() as nat,
                slot as nat,
            ),
    {
        proof {
            use_type_invariant(self);
        }
        if slot < self.slots {
            let stride: usize = self.stride;
            assert(slot * stride <= self.slots * stride) by (nonlinear_arith)
                requires
                    slot < self.slots,
                    0 <= stride,
            ;
            Some(ReadWrite::new(self.base + slot * stride))
        } else {
            None
        }
    }
}

} // verus!
