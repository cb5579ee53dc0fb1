//! The 65536-word, word-addressed memory. Every 16-bit address is valid,
//! so reads and writes are total.

use vstd::prelude::*;

use crate::registers::RegisterContents;

verus! {

/// The number of addressable words: one per 16-bit address.
pub const MEMORY_WORDS: usize = 0x10000;

/// The conventional program load point.
pub const LOAD_POINT: u16 = 0x3000;

/// The non-zero sentinel word seeded at the load point at construction,
/// standing in for a pre-populated device or status value.
pub const LOAD_SENTINEL: u16 = 0xfe00;

/// What a fresh memory holds: zero everywhere but the load point.
pub open spec fn spec_initial_memory() -> Seq<u16> {
    Seq::new(MEMORY_WORDS as nat, |i: int| if i == LOAD_POINT as int { LOAD_SENTINEL } else { 0u16 })
}

/// A 65536-entry word array.
pub struct Memory {
    cells: Vec<u16>,
}

impl Memory {
    /// The memory's contents, one word per address.
    pub closed spec fn view(self) -> Seq<u16> {
        self.cells@
    }

    /// The memory always covers the full 16-bit address space.
    pub open spec fn wf(self) -> bool {
        self@.len() == MEMORY_WORDS
    }

    /// A fresh memory: all zero, except the sentinel at the load point.
    pub fn new() -> (r: Self)
        ensures
            r.wf(),
            r@ =~= spec_initial_memory(),
    {
        let mut cells: Vec<u16> = Vec::new();
        let mut i: usize = 0;
        while i < MEMORY_WORDS
            invariant
                i <= MEMORY_WORDS,
                cells@.len() == i,
                forall|k: int| 0 <= k < i ==> cells@[k] == 0u16,
            decreases MEMORY_WORDS - i,
        {
            cells.push(0u16);
            i = i + 1;
        }
        cells[LOAD_POINT as usize] = LOAD_SENTINEL;
        let r = Memory { cells };
        assert(r@ =~= spec_initial_memory());
        r
    }

    /// The word at `address`; total over all 65536 addresses.
    pub fn read(&self, address: u16) -> (r: RegisterContents)
        requires
            self.wf(),
        ensures
            r.0 == self@[address as int],
    {
        RegisterContents(self.cells[address as usize])
    }

    /// Store `value` at `address`; total over all 65536 addresses.
    pub fn write(&mut self, address: u16, value: RegisterContents)
        requires
            old(self).wf(),
        ensures
            final(self).wf(),
            final(self)@ =~= old(self)@.update(address as int, value.0),
    {
        self.cells[address as usize] = value.0;
    }
}

} // verus!
