//! The instruction set: operand field types (immediates and offsets,
//! stored already sign-extended to 16 bits), the tagged `Instruction`
//! union with one variant per opcode, and the decode error types.

use vstd::prelude::*;

use crate::bits::{bit_mask, mask_out, sext16, spec_field, spec_sext16, width_mask};
use crate::registers::{RegisterContents, RegisterName};

verus! {

/// A 9-bit PC-relative offset, sign-extended from bit 8 at construction.
#[derive(Debug, Clone, Copy, PartialEq, Eq, Structural)]
pub struct PcOffset9(pub u16);

impl PcOffset9 {
    pub open spec fn spec_new(bits: u16) -> PcOffset9 {
        PcOffset9(spec_sext16(bits & 0x1ff, 8))
    }

    pub fn new(bits: u16) -> (r: Self)
        ensures
            r == Self::spec_new(bits),
    {
        Self(sext16(bits & 0x1ff, 8))
    }

    /// The raw 9-bit field, with the sign extension stripped again.
    pub fn masked(&self) -> (r: u16)
        ensures
            r == self.0 & 0x1ff,
    {
        self.0 & 0x1ff
    }
}

/// An 11-bit PC-relative offset, sign-extended from bit 10 at construction.
#[derive(Debug, Clone, Copy, PartialEq, Eq, Structural)]
pub struct PcOffset11(pub u16);

impl PcOffset11 {
    pub open spec fn spec_new(bits: u16) -> PcOffset11 {
        PcOffset11(spec_sext16(bits & 0x7ff, 10))
    }

    pub fn new(bits: u16) -> (r: Self)
        ensures
            r == Self::spec_new(bits),
    {
        Self(sext16(bits & 0x7ff, 10))
    }

    /// The raw 11-bit field, with the sign extension stripped again.
    pub fn masked(&self) -> (r: u16)
        ensures
            r == self.0 & 0x7ff,
    {
        self.0 & 0x7ff
    }
}

/// A 5-bit signed immediate, sign-extended from bit 4 at construction.
#[derive(Debug, Clone, Copy, PartialEq, Eq, Structural)]
pub struct Imm5(pub u16);

/// The decimal digit `d` as a character sequence.
pub open spec fn spec_digit(d: int) -> Seq<char>
    recommends
        0 <= d <= 9,
{
    if d == 0 {
        "0"@
    } else if d == 1 {
        "1"@
    } else if d == 2 {
        "2"@
    } else if d == 3 {
        "3"@
    } else if d == 4 {
        "4"@
    } else if d == 5 {
        "5"@
    } else if d == 6 {
        "6"@
    } else if d == 7 {
        "7"@
    } else if d == 8 {
        "8"@
    } else {
        "9"@
    }
}

/// The decimal rendering of a small magnitude (at most 16).
pub open spec fn spec_decimal(n: int) -> Seq<char>
    recommends
        0 <= n <= 16,
{
    if n < 10 {
        spec_digit(n)
    } else {
        "1"@ + spec_digit(n - 10)
    }
}

/// The decimal digit `d`, as text.
fn digit_str(d: u16) -> (r: &'static str)
    requires
        d <= 9,
    ensures
        r@ == spec_digit(d as int),
{
    match d {
        0 => "0",
        1 => "1",
        2 => "2",
        3 => "3",
        4 => "4",
        5 => "5",
        6 => "6",
        7 => "7",
        8 => "8",
        _ => "9",
    }
}

impl Imm5 {
    pub open spec fn spec_new(bits: u16) -> Imm5 {
        Imm5(spec_sext16(bits & 0x1f, 4))
    }

    /// A sign-extended 5-bit field: small positive, or near the top of
    /// the 16-bit range.
    pub open spec fn wf(self) -> bool {
        self.0 < 0x10 || self.0 >= 0xfff0
    }

    pub fn new(bits: u16) -> (r: Self)
        ensures
            r == Self::spec_new(bits),
            r.wf(),
    {
        let value = sext16(bits & 0x1f, 4);
        assert(spec_sext16(bits & 0x1f, 4) < 0x10 || spec_sext16(bits & 0x1f, 4) >= 0xfff0)
            by (bit_vector);
        Self(value)
    }

    /// The assembly rendering of the immediate: `#` then its signed
    /// decimal value.
    pub open spec fn spec_display(self) -> Seq<char> {
        if self.0 < 0x8000 {
            "#"@ + spec_decimal(self.0 as int)
        } else {
            "#"@ + "-"@ + spec_decimal(0x10000 - self.0)
        }
    }

    /// Render the immediate as `#` followed by its signed decimal value.
    pub fn display_string(&self) -> (r: String)
        requires
            self.wf(),
        ensures
            r@ == self.spec_display(),
    {
        let mut s = String::from_str("#");
        let magnitude: u16 = if self.0 >= 0xfff0 {
            s.append("-");
            (0xffff - self.0) + 1
        } else {
            self.0
        };
        if magnitude >= 10 {
            s.append("1");
            s.append(digit_str(magnitude - 10));
        } else {
            s.append(digit_str(magnitude));
        }
        assert(s@ =~= self.spec_display());
        s
    }
}

/// A 6-bit signed offset, sign-extended from bit 5 at construction.
#[derive(Debug, Clone, Copy, PartialEq, Eq, Structural)]
pub struct Offset6(pub u16);

impl Offset6 {
    pub open spec fn spec_new(bits: u16) -> Offset6 {
        Offset6(spec_sext16(bits & 0x3f, 5))
    }

    pub fn new(bits: u16) -> (r: Self)
        ensures
            r == Self::spec_new(bits),
    {
        Self(sext16(bits & 0x3f, 5))
    }

    /// The raw 6-bit field, with the sign extension stripped again.
    pub fn masked(&self) -> (r: u16)
        ensures
            r == self.0 & 0x3f,
    {
        self.0 & 0x3f
    }
}

/// An 8-bit unsigned trap vector.
#[derive(Debug, Clone, Copy, PartialEq, Eq, Structural)]
pub struct TrapVect(pub u16);

/// One of the three branch polarity request bits of a BR encoding.
#[derive(Debug, Clone, Copy, PartialEq, Eq, Structural)]
pub struct BranchFlag(pub bool);

/// Operands of the two-source-register arithmetic forms (ADD, AND).
#[derive(Debug, Clone, Copy, PartialEq, Eq, Structural)]
pub struct TwoSourceArithArgs {
    pub dr: RegisterName,
    pub sr1: RegisterName,
    pub sr2: RegisterName,
}

/// Operands of the one-source arithmetic form (NOT).
#[derive(Debug, Clone, Copy, PartialEq, Eq, Structural)]
pub struct OneSourceArithArgs {
    pub dr: RegisterName,
    pub sr: RegisterName,
}

/// Operands of the immediate arithmetic forms (ADD, AND with imm5).
#[derive(Debug, Clone, Copy, PartialEq, Eq, Structural)]
pub struct ImmedArithArgs {
    pub dr: RegisterName,
    pub sr1: RegisterName,
    pub imm5: Imm5,
}

/// Operands of BR: three polarity requests and a 9-bit offset.
#[derive(Debug, Clone, Copy, PartialEq, Eq, Structural)]
pub struct BranchArgs {
    pub n: BranchFlag,
    pub z: BranchFlag,
    pub p: BranchFlag,
    pub pcoffset9: PcOffset9,
}

/// Operands of the base-register jumps (JMP, JSRR).
#[derive(Debug, Clone, Copy, PartialEq, Eq, Structural)]
pub struct BaseRArgs {
    pub base_r: RegisterName,
}

/// Operand of TRAP: the 8-bit vector.
#[derive(Debug, Clone, Copy, PartialEq, Eq, Structural)]
pub struct TrapArgs {
    pub trapvect8: TrapVect,
}

/// Operand of JSR: the 11-bit PC-relative offset.
#[derive(Debug, Clone, Copy, PartialEq, Eq, Structural)]
pub struct JsrArgs {
    pub pcoffset11: PcOffset11,
}

/// Operands of LD.
#[derive(Debug, Clone, Copy, PartialEq, Eq, Structural)]
pub struct LdArgs {
    pub dr: RegisterName,
    pub pcoffset9: PcOffset9,
}

/// Operands of LDI.
#[derive(Debug, Clone, Copy, PartialEq, Eq, Structural)]
pub struct LdiArgs {
    pub dr: RegisterName,
    pub pcoffset9: PcOffset9,
}

/// Operands of LEA.
#[derive(Debug, Clone, Copy, PartialEq, Eq, Structural)]
pub struct LeaArgs {
    pub dr: RegisterName,
    pub pcoffset9: PcOffset9,
}

/// Operands of LDR.
#[derive(Debug, Clone, Copy, PartialEq, Eq, Structural)]
pub struct LdrArgs {
    pub dr: RegisterName,
    pub base_r: RegisterName,
    pub offset6: Offset6,
}

/// Operands of STR.
#[derive(Debug, Clone, Copy, PartialEq, Eq, Structural)]
pub struct StrArgs {
    pub sr: RegisterName,
    pub base_r: RegisterName,
    pub offset6: Offset6,
}

/// Operands of ST.
#[derive(Debug, Clone, Copy, PartialEq, Eq, Structural)]
pub struct StArgs {
    pub sr: RegisterName,
    pub offset9: PcOffset9,
}

/// Operands of STI.
#[derive(Debug, Clone, Copy, PartialEq, Eq, Structural)]
pub struct StiArgs {
    pub sr: RegisterName,
    pub offset9: PcOffset9,
}

/// A decoded instruction: one variant per opcode, operand fields already
/// extracted and sign- or zero-extended to full words.
#[derive(Debug, Clone, Copy, PartialEq, Eq, Structural)]
pub enum Instruction {
    Add(TwoSourceArithArgs),
    Addi(ImmedArithArgs),
    And(TwoSourceArithArgs),
    Andi(ImmedArithArgs),
    Br(BranchArgs),
    Jmp(BaseRArgs),
    Jsr(JsrArgs),
    Jsrr(BaseRArgs),
    Ld(LdArgs),
    Ldi(LdiArgs),
    Ldr(LdrArgs),
    Lea(LeaArgs),
    Not(OneSourceArithArgs),
    Rti(),
    St(StArgs),
    Sti(StiArgs),
    Str(StrArgs),
    Trap(TrapArgs),
}

/// A reserved bit range of an otherwise recognised encoding did not hold
/// its fixed value. Records the range, the value the architecture fixes
/// there, and the value actually found.
#[derive(Debug, Clone, Copy, PartialEq, Eq)]
pub struct OpcodeAssumptionsViolation {
    pub msb: usize,
    pub lsb: usize,
    pub width: usize,
    pub mask: u16,
    pub expected: RegisterContents,
    pub actual: RegisterContents,
    pub opcode: &'static str,
}

impl OpcodeAssumptionsViolation {
    /// The violation record for raw word `actual`, whose field
    /// `[lsb, msb]` should have held `expected`.
    pub open spec fn spec_new(
        lsb: usize,
        msb: usize,
        expected: u16,
        actual: u16,
        opcode_name: &'static str,
    ) -> OpcodeAssumptionsViolation
        recommends
            lsb <= msb < 16,
    {
        OpcodeAssumptionsViolation {
            msb,
            lsb,
            width: (msb - lsb + 1) as usize,
            mask: bit_mask(lsb, msb),
            expected: RegisterContents(expected),
            actual: RegisterContents(spec_field(actual, lsb, msb)),
            opcode: opcode_name,
        }
    }

    pub fn new(
        lsb: usize,
        msb: usize,
        expected: u16,
        actual: u16,
        opcode_name: &'static str,
    ) -> (r: Self)
        requires
            lsb <= msb < 16,
        ensures
            r == Self::spec_new(lsb, msb, expected, actual, opcode_name),
    {
        let (width, mask) = width_mask(lsb, msb);
        Self {
            msb,
            lsb,
            width,
            mask,
            expected: RegisterContents::new(expected),
            actual: RegisterContents::new(mask_out(actual, lsb, msb)),
            opcode: opcode_name,
        }
    }
}

/// The opcode nibble selects no assigned instruction.
#[derive(Debug, Clone, Copy, PartialEq, Eq)]
pub struct UnknownOpcodeArgs {
    pub opcode: u16,
    pub bits: u16,
}

/// Everything decoding can report: an internal programming error, a
/// reserved-bit violation in a recognised opcode, or an unassigned opcode.
#[derive(Debug, Clone, Copy, PartialEq, Eq)]
pub enum Lrc3Error {
    ProgrammingError(),
    IllegalOpcode(OpcodeAssumptionsViolation),
    UnknownOpcode(UnknownOpcodeArgs),
}

} // verus!
