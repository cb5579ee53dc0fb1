//! A cycle-level simulator of a 16-bit educational computer: a fixed
//! instruction set over a 65536-word memory, an 8-register file with
//! N/Z/P condition codes, and an explicit micro-sequenced control unit.
//!
//! The two entry points are `Instruction::decode_bits`, which turns a raw
//! 16-bit word into a validated instruction or a decode error, and
//! `Lrc3Cpu::step`, which advances the machine by exactly one micro-cycle.

pub mod bits;
pub mod cpu;
pub mod datapath;
pub mod decode;
pub mod isa;
pub mod memory;
pub mod registers;

use vstd::prelude::*;

verus! {

} // verus!
