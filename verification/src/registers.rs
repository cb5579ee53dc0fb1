//! Register names, 16-bit register contents with modulo-2^16 arithmetic,
//! single registers, and the register file with its N/Z/P condition codes.

use vstd::prelude::*;

use crate::bits::{bit_mask, sext16, spec_sext16, zext16};

verus! {

/// Every addressable register of the machine: eight general-purpose
/// registers and the four special registers of the datapath.
#[derive(Debug, Copy, Clone, PartialEq, Eq, Structural)]
pub enum RegisterName {
    R0,
    R1,
    R2,
    R3,
    R4,
    R5,
    R6,
    R7,
    PC,
    IR,
    MDR,
    MAR,
}

/// A 16-bit machine word. All arithmetic on it is modulo 2^16.
#[derive(Debug, Clone, Copy, PartialEq, Eq, Structural)]
pub struct RegisterContents(pub u16);

/// `a + b` modulo 2^16.
pub open spec fn add16(a: u16, b: u16) -> u16 {
    if a + b > 0xffff {
        (a + b - 0x10000) as u16
    } else {
        (a + b) as u16
    }
}

impl RegisterContents {
    /// The word a register holds at machine reset.
    pub fn init() -> (r: Self)
        ensures
            r.0 == 0,
    {
        Self::new(0)
    }

    pub fn new(data: u16) -> (r: Self)
        ensures
            r.0 == data,
    {
        Self(data)
    }

    /// Wraparound addition: the sum modulo 2^16, never a panic.
    pub fn plus(self, other: Self) -> (r: Self)
        ensures
            r.0 == add16(self.0, other.0),
    {
        Self(self.0.wrapping_add(other.0))
    }

    /// Bitwise AND with another word.
    pub fn and(self, other: Self) -> (r: Self)
        ensures
            r.0 == self.0 & other.0,
    {
        Self(self.0 & other.0)
    }

    /// Bitwise complement.
    pub fn complement(self) -> (r: Self)
        ensures
            r.0 == !self.0,
    {
        Self(!self.0)
    }

    /// The word masked to the bit range `[lsb, msb]`, in natural position.
    pub fn zext(self, lsb: usize, msb: usize) -> (r: Self)
        requires
            lsb <= msb < 16,
        ensures
            r.0 == self.0 & bit_mask(lsb, msb),
    {
        Self::new(zext16(self.0, lsb, msb))
    }

    /// The word sign-extended from bit position `msb`.
    pub fn sext(self, msb: usize) -> (r: Self)
        requires
            1 <= msb <= 14,
        ensures
            r.0 == spec_sext16(self.0, msb),
    {
        Self(sext16(self.0, msb))
    }
}

/// The dense file index of a general-purpose register name.
pub open spec fn spec_index_of(name: RegisterName) -> int {
    match name {
        RegisterName::R0 => 0,
        RegisterName::R1 => 1,
        RegisterName::R2 => 2,
        RegisterName::R3 => 3,
        RegisterName::R4 => 4,
        RegisterName::R5 => 5,
        RegisterName::R6 => 6,
        RegisterName::R7 => 7,
        _ => 8,
    }
}

/// The general-purpose register name selected by the low three bits.
pub open spec fn spec_reg_from_bits(bits: u16) -> RegisterName {
    if bits & 0x7 == 0 {
        RegisterName::R0
    } else if bits & 0x7 == 1 {
        RegisterName::R1
    } else if bits & 0x7 == 2 {
        RegisterName::R2
    } else if bits & 0x7 == 3 {
        RegisterName::R3
    } else if bits & 0x7 == 4 {
        RegisterName::R4
    } else if bits & 0x7 == 5 {
        RegisterName::R5
    } else if bits & 0x7 == 6 {
        RegisterName::R6
    } else {
        RegisterName::R7
    }
}

impl RegisterName {
    /// Whether the name addresses a slot of the register file.
    pub open spec fn is_general_purpose(self) -> bool {
        spec_index_of(self) < 8
    }

    /// The file slot of a general-purpose register. Special registers
    /// have no file index and may not be asked for one.
    pub fn index(&self) -> (r: usize)
        requires
            self.is_general_purpose(),
        ensures
            r == spec_index_of(*self),
    {
        match self {
            Self::R0 => 0,
            Self::R1 => 1,
            Self::R2 => 2,
            Self::R3 => 3,
            Self::R4 => 4,
            Self::R5 => 5,
            Self::R6 => 6,
            Self::R7 => 7,
            _ => unreached(),
        }
    }

    /// The general-purpose register selected by the low three bits of an
    /// instruction field.
    pub fn from_bits(bits: u16) -> (r: Self)
        ensures
            r == spec_reg_from_bits(bits),
            r.is_general_purpose(),
    {
        match bits & 0x7 {
            0 => Self::R0,
            1 => Self::R1,
            2 => Self::R2,
            3 => Self::R3,
            4 => Self::R4,
            5 => Self::R5,
            6 => Self::R6,
            _ => Self::R7,
        }
    }
}

/// One register: its current word and the name it answers to.
#[derive(Debug, Clone, Copy, PartialEq, Eq, Structural)]
pub struct Register {
    pub content: RegisterContents,
    pub id: RegisterName,
}

impl Register {
    pub fn new(content: RegisterContents, id: RegisterName) -> (r: Self)
        ensures
            r.content == content,
            r.id == id,
    {
        Self { content, id }
    }

    pub fn zeroed(id: RegisterName) -> (r: Self)
        ensures
            r.content.0 == 0,
            r.id == id,
    {
        Self { content: RegisterContents::init(), id }
    }

    /// An instruction register holding the given raw word.
    pub fn ir_from_bits(bits: u16) -> (r: Self)
        ensures
            r.content.0 == bits,
            r.id == RegisterName::IR,
    {
        Self::new(RegisterContents::new(bits), RegisterName::IR)
    }
}

/// The eight general-purpose registers plus the three condition codes.
/// After any condition-code-setting write exactly one of N/Z/P is true.
#[derive(Debug, PartialEq, Eq)]
pub struct Regfile {
    pub registers: Vec<Register>,
    pub n: bool,
    pub z: bool,
    pub p: bool,
}

/// The condition codes a flag-setting write leaves behind for `value`:
/// N for a negative two's-complement word, Z for zero, P for positive.
pub open spec fn spec_flags_of(value: u16) -> (bool, bool, bool) {
    (value >= 0x8000, value == 0, 0 < value < 0x8000)
}

/// Exactly one of the three condition codes is set.
pub open spec fn exactly_one_condition_code(n: bool, z: bool, p: bool) -> bool {
    (if n {
        1int
    } else {
        0
    }) + (if z {
        1int
    } else {
        0
    }) + (if p {
        1int
    } else {
        0
    }) == 1
}

impl Regfile {
    /// The words of the eight file slots, in index order.
    pub open spec fn regs(self) -> Seq<u16> {
        self.registers@.map_values(|r: Register| r.content.0)
    }

    /// The file always holds exactly eight registers, each aware of its
    /// own name.
    pub open spec fn wf(self) -> bool {
        &&& self.registers@.len() == 8
        &&& forall|i: int|
            0 <= i < 8 ==> spec_index_of(#[trigger] self.registers@[i].id) == i
    }

    pub fn contents_of(&self, reg: RegisterName) -> (r: RegisterContents)
        requires
            self.wf(),
            reg.is_general_purpose(),
        ensures
            r.0 == self.regs()[spec_index_of(reg)],
    {
        self.registers[reg.index()].content
    }

    pub fn set_contents_of(&mut self, reg: RegisterName, data: RegisterContents)
        requires
            old(self).wf(),
            reg.is_general_purpose(),
        ensures
            final(self).wf(),
            final(self).regs() =~= old(self).regs().update(spec_index_of(reg), data.0),
            final(self).n == old(self).n,
            final(self).z == old(self).z,
            final(self).p == old(self).p,
    {
        let i = reg.index();
        self.registers[i] = Register::new(data, reg);
        assert(self.regs() =~= old(self).regs().update(spec_index_of(reg), data.0));
    }

    /// Record the sign class of a freshly written word in the condition
    /// codes: exactly one of N/Z/P becomes true.
    pub fn set_flags_from(&mut self, value: RegisterContents)
        ensures
            final(self).registers == old(self).registers,
            (final(self).n, final(self).z, final(self).p) == spec_flags_of(value.0),
    {
        self.n = value.0 >= 0x8000;
        self.z = value.0 == 0;
        self.p = value.0 > 0 && value.0 < 0x8000;
    }

    /// A fresh file: every register zero, no condition code set.
    pub fn new() -> (r: Self)
        ensures
            r.wf(),
            r.regs() =~= Seq::new(8, |i: int| 0u16),
            !r.n && !r.z && !r.p,
    {
        let mut registers: Vec<Register> = Vec::new();
        registers.push(Register::zeroed(RegisterName::R0));
        registers.push(Register::zeroed(RegisterName::R1));
        registers.push(Register::zeroed(RegisterName::R2));
        registers.push(Register::zeroed(RegisterName::R3));
        registers.push(Register::zeroed(RegisterName::R4));
        registers.push(Register::zeroed(RegisterName::R5));
        registers.push(Register::zeroed(RegisterName::R6));
        registers.push(Register::zeroed(RegisterName::R7));
        let r = Regfile { registers, n: false, z: false, p: false };
        assert(r.regs() =~= Seq::new(8, |i: int| 0u16));
        r
    }
}

} // verus!
