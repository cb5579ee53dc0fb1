//! The instruction decoder: a total, pure map from a raw 16-bit word to a
//! validated `Instruction` or to the first violated bit-range constraint.

use vstd::prelude::*;

use crate::bits::{mask_out, spec_field};
use crate::isa::{
    BaseRArgs, BranchArgs, BranchFlag, Imm5, ImmedArithArgs, Instruction, JsrArgs, LdArgs, LdiArgs,
    LdrArgs, LeaArgs, Lrc3Error, Offset6, OneSourceArithArgs, OpcodeAssumptionsViolation,
    PcOffset9, PcOffset11, StArgs, StiArgs, StrArgs, TrapArgs, TrapVect, TwoSourceArithArgs,
    UnknownOpcodeArgs,
};
use crate::registers::{Register, RegisterName, spec_reg_from_bits};

verus! {

/// What decoding yields for every one of the 65536 possible words.
///
/// The opcode nibble `w[12:15]` selects the encoding. The two overloaded
/// nibbles (ADD/AND and JSR/JSRR) are split on their discriminating bit
/// before any reserved-bit validation, so a malformed immediate-mode ADD
/// is reported as an ADD violation, never misread as register mode.
/// The nibble 0b1101, and 0b1000 with anything beyond RTI's no-operand
/// form, select no assigned instruction.
pub open spec fn spec_decode(w: u16) -> Result<Instruction, Lrc3Error> {
    let opcode = spec_field(w, 12, 15);
    let reg9to11 = spec_reg_from_bits(w >> 9);
    let reg6to8 = spec_reg_from_bits(w >> 6);
    let reg0to2 = spec_reg_from_bits(w);
    if opcode == 0b0001 {
        if spec_field(w, 5, 5) == 1 {
            Ok(Instruction::Addi(ImmedArithArgs {
                dr: reg9to11,
                sr1: reg6to8,
                imm5: Imm5::spec_new(w),
            }))
        } else if spec_field(w, 3, 4) != 0 {
            Err(Lrc3Error::IllegalOpcode(OpcodeAssumptionsViolation::spec_new(3, 4, 0, w, "ADD")))
        } else {
            Ok(Instruction::Add(TwoSourceArithArgs { dr: reg9to11, sr1: reg6to8, sr2: reg0to2 }))
        }
    } else if opcode == 0b0101 {
        if spec_field(w, 5, 5) == 1 {
            Ok(Instruction::Andi(ImmedArithArgs {
                dr: reg9to11,
                sr1: reg6to8,
                imm5: Imm5::spec_new(w),
            }))
        } else if spec_field(w, 3, 4) != 0 {
            Err(Lrc3Error::IllegalOpcode(OpcodeAssumptionsViolation::spec_new(3, 4, 0, w, "AND")))
        } else {
            Ok(Instruction::And(TwoSourceArithArgs { dr: reg9to11, sr1: reg6to8, sr2: reg0to2 }))
        }
    } else if opcode == 0b0000 {
        Ok(Instruction::Br(BranchArgs {
            n: BranchFlag(spec_field(w, 11, 11) == 1),
            z: BranchFlag(spec_field(w, 10, 10) == 1),
            p: BranchFlag(spec_field(w, 9, 9) == 1),
            pcoffset9: PcOffset9::spec_new(w),
        }))
    } else if opcode == 0b1100 {
        if spec_field(w, 0, 5) != 0 {
            Err(Lrc3Error::IllegalOpcode(OpcodeAssumptionsViolation::spec_new(0, 5, 0, w, "JMP")))
        } else if spec_field(w, 9, 11) != 0 {
            Err(Lrc3Error::IllegalOpcode(OpcodeAssumptionsViolation::spec_new(9, 11, 0, w, "JMP")))
        } else {
            Ok(Instruction::Jmp(BaseRArgs { base_r: reg6to8 }))
        }
    } else if opcode == 0b0100 {
        if spec_field(w, 11, 11) == 1 {
            Ok(Instruction::Jsr(JsrArgs { pcoffset11: PcOffset11::spec_new(w) }))
        } else if spec_field(w, 0, 5) != 0 {
            Err(Lrc3Error::IllegalOpcode(OpcodeAssumptionsViolation::spec_new(0, 5, 0, w, "JSRR")))
        } else if spec_field(w, 9, 10) != 0 {
            Err(Lrc3Error::IllegalOpcode(OpcodeAssumptionsViolation::spec_new(9, 10, 0, w, "JSRR")))
        } else {
            Ok(Instruction::Jsrr(BaseRArgs { base_r: reg6to8 }))
        }
    } else if opcode == 0b0010 {
        Ok(Instruction::Ld(LdArgs { dr: reg9to11, pcoffset9: PcOffset9::spec_new(w) }))
    } else if opcode == 0b1010 {
        Ok(Instruction::Ldi(LdiArgs { dr: reg9to11, pcoffset9: PcOffset9::spec_new(w) }))
    } else if opcode == 0b0110 {
        Ok(Instruction::Ldr(LdrArgs {
            dr: reg9to11,
            base_r: reg6to8,
            offset6: Offset6::spec_new(w),
        }))
    } else if opcode == 0b1110 {
        Ok(Instruction::Lea(LeaArgs { dr: reg9to11, pcoffset9: PcOffset9::spec_new(w) }))
    } else if opcode == 0b1001 {
        if spec_field(w, 0, 5) != 0b111111 {
            Err(Lrc3Error::IllegalOpcode(
                OpcodeAssumptionsViolation::spec_new(0, 5, 0b111111, w, "NOT"),
            ))
        } else {
            Ok(Instruction::Not(OneSourceArithArgs { dr: reg9to11, sr: reg6to8 }))
        }
    } else if opcode == 0b0011 {
        Ok(Instruction::St(StArgs { sr: reg9to11, offset9: PcOffset9::spec_new(w) }))
    } else if opcode == 0b1011 {
        Ok(Instruction::Sti(StiArgs { sr: reg9to11, offset9: PcOffset9::spec_new(w) }))
    } else if opcode == 0b0111 {
        Ok(Instruction::Str(StrArgs {
            sr: reg9to11,
            base_r: reg6to8,
            offset6: Offset6::spec_new(w),
        }))
    } else if opcode == 0b1111 {
        if spec_field(w, 8, 11) != 0 {
            Err(Lrc3Error::IllegalOpcode(OpcodeAssumptionsViolation::spec_new(8, 11, 0, w, "TRAP")))
        } else {
            Ok(Instruction::Trap(TrapArgs { trapvect8: TrapVect(w & 0xff) }))
        }
    } else if opcode == 0b1000 {
        if spec_field(w, 0, 11) == 0 {
            Ok(Instruction::Rti())
        } else {
            Err(Lrc3Error::UnknownOpcode(UnknownOpcodeArgs { opcode, bits: w }))
        }
    } else {
        Err(Lrc3Error::UnknownOpcode(UnknownOpcodeArgs { opcode, bits: w }))
    }
}

impl Instruction {
    /// Decode one raw word. Total: every input yields either a validated
    /// instruction or a specific, deterministic error, never a panic.
    pub fn decode_bits(bits: u16) -> (r: Result<Self, Lrc3Error>)
        ensures
            r == spec_decode(bits),
    {
        let opcode = mask_out(bits, 12, 15);

        let reg9to11 = RegisterName::from_bits(bits >> 9);
        let reg6to8 = RegisterName::from_bits(bits >> 6);
        let reg0to2 = RegisterName::from_bits(bits);

        match opcode {
            // ADD / ADDi: dr; sr1; mode bit 5; then sr2 (bits [3,4]
            // reserved zero) or imm5.
            0b0001 => {
                if mask_out(bits, 5, 5) == 1 {
                    Ok(Instruction::Addi(ImmedArithArgs {
                        dr: reg9to11,
                        sr1: reg6to8,
                        imm5: Imm5::new(bits),
                    }))
                } else if mask_out(bits, 3, 4) != 0 {
                    Err(Lrc3Error::IllegalOpcode(OpcodeAssumptionsViolation::new(
                        3, 4, 0, bits, "ADD",
                    )))
                } else {
                    Ok(Instruction::Add(TwoSourceArithArgs {
                        dr: reg9to11,
                        sr1: reg6to8,
                        sr2: reg0to2,
                    }))
                }
            },
            // AND / ANDi: the same two shapes as ADD / ADDi.
            0b0101 => {
                if mask_out(bits, 5, 5) == 1 {
                    Ok(Instruction::Andi(ImmedArithArgs {
                        dr: reg9to11,
                        sr1: reg6to8,
                        imm5: Imm5::new(bits),
                    }))
                } else if mask_out(bits, 3, 4) != 0 {
                    Err(Lrc3Error::IllegalOpcode(OpcodeAssumptionsViolation::new(
                        3, 4, 0, bits, "AND",
                    )))
                } else {
                    Ok(Instruction::And(TwoSourceArithArgs {
                        dr: reg9to11,
                        sr1: reg6to8,
                        sr2: reg0to2,
                    }))
                }
            },
            // BR: n; z; p; pcoffset9.
            0b0000 => Ok(Instruction::Br(BranchArgs {
                n: BranchFlag(mask_out(bits, 11, 11) == 1),
                z: BranchFlag(mask_out(bits, 10, 10) == 1),
                p: BranchFlag(mask_out(bits, 9, 9) == 1),
                pcoffset9: PcOffset9::new(bits),
            })),
            // JMP: bits [9,11] and [0,5] reserved zero; baser in [6,8].
            0b1100 => {
                if mask_out(bits, 0, 5) != 0 {
                    Err(Lrc3Error::IllegalOpcode(OpcodeAssumptionsViolation::new(
                        0, 5, 0, bits, "JMP",
                    )))
                } else if mask_out(bits, 9, 11) != 0 {
                    Err(Lrc3Error::IllegalOpcode(OpcodeAssumptionsViolation::new(
                        9, 11, 0, bits, "JMP",
                    )))
                } else {
                    Ok(Instruction::Jmp(BaseRArgs { base_r: reg6to8 }))
                }
            },
            // JSR / JSRR: bit 11 selects PC-relative (pcoffset11) or
            // register-indirect (baser, with [0,5] and [9,10] reserved).
            0b0100 => {
                if mask_out(bits, 11, 11) == 1 {
                    Ok(Instruction::Jsr(JsrArgs { pcoffset11: PcOffset11::new(bits) }))
                } else if mask_out(bits, 0, 5) != 0 {
                    Err(Lrc3Error::IllegalOpcode(OpcodeAssumptionsViolation::new(
                        0, 5, 0, bits, "JSRR",
                    )))
                } else if mask_out(bits, 9, 10) != 0 {
                    Err(Lrc3Error::IllegalOpcode(OpcodeAssumptionsViolation::new(
                        9, 10, 0, bits, "JSRR",
                    )))
                } else {
                    Ok(Instruction::Jsrr(BaseRArgs { base_r: reg6to8 }))
                }
            },
            // LD: dr; pcoffset9.
            0b0010 => Ok(Instruction::Ld(LdArgs { dr: reg9to11, pcoffset9: PcOffset9::new(bits) })),
            // LDI: dr; pcoffset9.
            0b1010 => Ok(Instruction::Ldi(LdiArgs {
                dr: reg9to11,
                pcoffset9: PcOffset9::new(bits),
            })),
            // LDR: dr; baser; offset6.
            0b0110 => Ok(Instruction::Ldr(LdrArgs {
                dr: reg9to11,
                base_r: reg6to8,
                offset6: Offset6::new(bits),
            })),
            // LEA: dr; pcoffset9.
            0b1110 => Ok(Instruction::Lea(LeaArgs {
                dr: reg9to11,
                pcoffset9: PcOffset9::new(bits),
            })),
            // NOT: dr; sr; bits [0,5] fixed to all ones.
            0b1001 => {
                if mask_out(bits, 0, 5) != 0b111111 {
                    Err(Lrc3Error::IllegalOpcode(OpcodeAssumptionsViolation::new(
                        0, 5, 0b111111, bits, "NOT",
                    )))
                } else {
                    Ok(Instruction::Not(OneSourceArithArgs { dr: reg9to11, sr: reg6to8 }))
                }
            },
            // ST: sr; pcoffset9.
            0b0011 => Ok(Instruction::St(StArgs { sr: reg9to11, offset9: PcOffset9::new(bits) })),
            // STI: sr; pcoffset9.
            0b1011 => Ok(Instruction::Sti(StiArgs { sr: reg9to11, offset9: PcOffset9::new(bits) })),
            // STR: sr; baser; offset6.
            0b0111 => Ok(Instruction::Str(StrArgs {
                sr: reg9to11,
                base_r: reg6to8,
                offset6: Offset6::new(bits),
            })),
            // TRAP: bits [8,11] reserved zero; trapvect8 in [0,7].
            0b1111 => {
                if mask_out(bits, 8, 11) != 0 {
                    Err(Lrc3Error::IllegalOpcode(OpcodeAssumptionsViolation::new(
                        8, 11, 0, bits, "TRAP",
                    )))
                } else {
                    Ok(Instruction::Trap(TrapArgs { trapvect8: TrapVect(bits & 0xff) }))
                }
            },
            // RTI: no operands; anything beyond the bare nibble is
            // unassigned.
            0b1000 => {
                if mask_out(bits, 0, 11) == 0 {
                    Ok(Instruction::Rti())
                } else {
                    Err(Lrc3Error::UnknownOpcode(UnknownOpcodeArgs { opcode, bits }))
                }
            },
            // The remaining nibble selects no assigned instruction.
            _ => Err(Lrc3Error::UnknownOpcode(UnknownOpcodeArgs { opcode, bits })),
        }
    }

    /// Decode the word held by the instruction register. Only the IR may
    /// be decoded, and only when it holds a valid encoding.
    pub fn decode_ir(ir: &Register) -> (r: Self)
        requires
            ir.id == RegisterName::IR,
            spec_decode(ir.content.0) is Ok,
        ensures
            Ok::<Instruction, Lrc3Error>(r) == spec_decode(ir.content.0),
    {
        match Self::decode_bits(ir.content.0) {
            Ok(instruction) => instruction,
            Err(_) => unreached(),
        }
    }
}

/// Reserved-bit rejection for NOT: a word with the NOT opcode whose low
/// six bits are not all ones is decoded to exactly the violation naming
/// that field, its expected all-ones value, and the value found.
pub proof fn lemma_not_reserved_bits(w: u16)
    requires
        spec_field(w, 12, 15) == 0b1001,
        spec_field(w, 0, 5) != 0b111111,
    ensures
        spec_decode(w) == Err::<Instruction, Lrc3Error>(Lrc3Error::IllegalOpcode(
            OpcodeAssumptionsViolation::spec_new(0, 5, 0b111111, w, "NOT"),
        )),
{
}

} // verus!

