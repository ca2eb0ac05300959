//! The bare bones hardware abstraction layer for the GBA.
//!
//! A hardware register is a fixed-width integer whose bit ranges carry
//! independent, named meanings: flags, small numbers, and tags from a closed
//! set. This crate gives each register a type of its own, with a getter and a
//! setter per field, and each memory-mapped location a type that says what is
//! stored there and whether it may be read, written or both.
//!
//! * [`bits`] reads and writes a bit range of a raw integer, and proves what
//!   every field accessor relies on: a field reads back what was written to it,
//!   and writing it changes no bit outside its range.
//! * [`data`] holds the register types and the tag sets of their fields.
//! * [`register`] converts a value to and from the bit pattern that memory
//!   holds for it.
//! * [`location`] holds the typed locations. They touch no memory: a location
//!   yields a description of the volatile access to make.
//! * [`mmio`] lists the locations of the GBA's registers.

pub mod bits;
pub mod data;
pub mod location;
pub mod mmio;
pub mod register;
