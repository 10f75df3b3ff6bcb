//! A processor interpreter and memory map for an 8-bit handheld console.
//!
//! `cpu` holds the register file, the cycle clock and the instruction
//! handlers; `mmu` decodes the 16-bit address space onto its backing stores;
//! `gpu` owns video memory; `alu` holds the flag bits and the arithmetic
//! that the handlers are specified against.
use vstd::prelude::*;

pub mod alu;
pub mod cpu;
pub mod gpu;
pub mod mmu;

verus! {

/// An 8-bit value as it travels on the data bus.
pub struct Byte(pub u8);

/// A 16-bit location in the address space.
pub struct Address(pub u16);

/// A 16-bit value, as held by a register pair.
pub struct Word(pub u16);

} // verus!
