//! The datapath: the four special registers (PC, IR, MAR, MDR), the
//! register file, the control lines the sequencer asserts each cycle, and
//! the combinational logic that computes the value driven onto the shared
//! internal bus. The bus computation has no memory of past cycles: every
//! call is a fresh function of the registers and control lines alone.

use vstd::prelude::*;

use crate::bits::{mask_out, sext16, spec_sext16};
use crate::registers::{
    add16, Regfile, Register, RegisterContents, RegisterName, spec_index_of, spec_reg_from_bits,
};

verus! {

/// A gate select: whether a source drives the bus this cycle.
#[derive(Debug, Clone, Copy, PartialEq, Eq, Structural)]
pub struct GateFlag(pub bool);

/// A register load enable for the current cycle.
#[derive(Debug, Clone, Copy, PartialEq, Eq, Structural)]
pub struct LoadFlag(pub bool);

/// A one-bit multiplexer select.
#[derive(Debug, Clone, Copy, PartialEq, Eq, Structural)]
pub struct OneBitMux(pub bool);

/// A two-bit multiplexer select.
#[derive(Debug, Clone, Copy, PartialEq, Eq, Structural)]
pub struct TwoBitMux(pub u8);

/// File index of the register named by instruction bits `[9, 11]`
/// (DR, or SR for the store class).
pub open spec fn dr_index(w: u16) -> int {
    spec_index_of(spec_reg_from_bits(w >> 9))
}

/// File index of the register named by instruction bits `[6, 8]`
/// (SR1, or the base register).
pub open spec fn base_r_index(w: u16) -> int {
    spec_index_of(spec_reg_from_bits(w >> 6))
}

/// File index of the register named by instruction bits `[0, 2]` (SR2).
pub open spec fn sr2_index(w: u16) -> int {
    spec_index_of(spec_reg_from_bits(w))
}

/// The 9-bit PC-relative offset of instruction word `w`, sign-extended.
pub open spec fn off9_of(w: u16) -> u16 {
    spec_sext16(w & 0x1ff, 8)
}

/// The 11-bit PC-relative offset of instruction word `w`, sign-extended.
pub open spec fn off11_of(w: u16) -> u16 {
    spec_sext16(w & 0x7ff, 10)
}

/// The 6-bit base-relative offset of instruction word `w`, sign-extended.
pub open spec fn off6_of(w: u16) -> u16 {
    spec_sext16(w & 0x3f, 5)
}

/// The 5-bit immediate of instruction word `w`, sign-extended.
pub open spec fn imm5_of(w: u16) -> u16 {
    spec_sext16(w & 0x1f, 4)
}

/// ALU operation selects.
pub const ALUK_ADD: u8 = 0;

pub const ALUK_AND: u8 = 1;

pub const ALUK_NOT: u8 = 2;

/// Offset multiplexer selects: which sign-extended field of IR (or zero)
/// feeds the address adder.
pub const ADDR2_OFF11: u8 = 0;

pub const ADDR2_OFF9: u8 = 1;

pub const ADDR2_OFF6: u8 = 2;

pub const ADDR2_ZERO: u8 = 3;

/// The register file, the special registers, and the control lines
/// asserted for the current micro-cycle. The lines are rewritten by the
/// sequencer every cycle and carry no history.
#[derive(Debug)]
pub struct Datapath {
    pub regfile: Regfile,
    pub ld_pc: LoadFlag,
    pub ld_ir: LoadFlag,
    pub ld_mar: LoadFlag,
    pub ld_mdr: LoadFlag,
    pub ld_reg: LoadFlag,
    pub ld_cc: LoadFlag,
    pub gate_pc: GateFlag,
    pub gate_marmux: GateFlag,
    pub gate_alu: GateFlag,
    pub gate_mdr: GateFlag,
    pub pc_mux: TwoBitMux,
    pub addr1_mux: OneBitMux,
    pub addr2_mux: TwoBitMux,
    pub sr2_mux: OneBitMux,
    pub mar_mux: OneBitMux,
    pub aluk: TwoBitMux,
    pub mar: Register,
    pub ir: Register,
    pub mdr: Register,
    pub pc: Register,
}

impl Datapath {
    /// The register file is intact and every special register answers to
    /// its own name.
    pub open spec fn wf(self) -> bool {
        &&& self.regfile.wf()
        &&& self.pc.id == RegisterName::PC
        &&& self.ir.id == RegisterName::IR
        &&& self.mar.id == RegisterName::MAR
        &&& self.mdr.id == RegisterName::MDR
    }

    /// Exactly one bus-driving gate is asserted. Zero or several drivers
    /// is a control-logic programming error, never a runtime condition.
    pub open spec fn gates_one_hot(self) -> bool {
        (if self.gate_pc.0 {
            1int
        } else {
            0
        }) + (if self.gate_marmux.0 {
            1int
        } else {
            0
        }) + (if self.gate_alu.0 {
            1int
        } else {
            0
        }) + (if self.gate_mdr.0 {
            1int
        } else {
            0
        }) == 1
    }

    /// The base-address multiplexer: PC, or the base register IR names.
    pub open spec fn spec_mux_addr1(self) -> u16 {
        if self.addr1_mux.0 {
            self.pc.content.0
        } else {
            self.regfile.regs()[base_r_index(self.ir.content.0)]
        }
    }

    /// The offset multiplexer: one of IR's sign-extended offset fields,
    /// or zero.
    pub open spec fn spec_mux_addr2(self) -> u16 {
        if self.addr2_mux.0 == ADDR2_OFF11 {
            off11_of(self.ir.content.0)
        } else if self.addr2_mux.0 == ADDR2_OFF9 {
            off9_of(self.ir.content.0)
        } else if self.addr2_mux.0 == ADDR2_OFF6 {
            off6_of(self.ir.content.0)
        } else {
            0
        }
    }

    /// The address adder: base plus offset, modulo 2^16.
    pub open spec fn spec_addr_adder(self) -> u16 {
        add16(self.spec_mux_addr1(), self.spec_mux_addr2())
    }

    /// The ALU output: NOT of SR1, or SR1 combined with the second
    /// operand (SR2 or the immediate, by the SR2 multiplexer).
    pub open spec fn spec_alu(self) -> u16 {
        let w = self.ir.content.0;
        let a = self.regfile.regs()[base_r_index(w)];
        let b = if self.sr2_mux.0 {
            imm5_of(w)
        } else {
            self.regfile.regs()[sr2_index(w)]
        };
        if self.aluk.0 == ALUK_ADD {
            add16(a, b)
        } else if self.aluk.0 == ALUK_AND {
            a & b
        } else {
            !a
        }
    }

    /// The value on the shared bus: whichever gated source drives it.
    pub open spec fn spec_bus(self) -> u16 {
        if self.gate_pc.0 {
            self.pc.content.0
        } else if self.gate_marmux.0 {
            if self.mar_mux.0 {
                self.spec_addr_adder()
            } else {
                self.ir.content.0 & 0xff
            }
        } else if self.gate_alu.0 {
            self.spec_alu()
        } else {
            self.mdr.content.0
        }
    }

    /// A datapath at machine reset: PC holds the entry address, the other
    /// special registers are zero, the file is fresh, and no control line
    /// is asserted.
    pub fn new(starting_pc: RegisterContents) -> (r: Self)
        ensures
            r.wf(),
            r.regfile.regs() =~= Seq::new(8, |i: int| 0u16),
            !r.regfile.n && !r.regfile.z && !r.regfile.p,
            r.pc.content == starting_pc,
            r.ir.content.0 == 0 && r.mar.content.0 == 0 && r.mdr.content.0 == 0,
            !r.ld_pc.0 && !r.ld_ir.0 && !r.ld_mar.0 && !r.ld_mdr.0 && !r.ld_reg.0 && !r.ld_cc.0,
            !r.gate_pc.0 && !r.gate_marmux.0 && !r.gate_alu.0 && !r.gate_mdr.0,
            r.pc_mux.0 == 0 && r.addr2_mux.0 == 0 && r.aluk.0 == 0,
            !r.addr1_mux.0 && !r.sr2_mux.0 && !r.mar_mux.0,
    {
        Self {
            regfile: Regfile::new(),
            ld_pc: LoadFlag(false),
            ld_ir: LoadFlag(false),
            ld_mar: LoadFlag(false),
            ld_mdr: LoadFlag(false),
            ld_reg: LoadFlag(false),
            ld_cc: LoadFlag(false),
            gate_pc: GateFlag(false),
            gate_marmux: GateFlag(false),
            gate_alu: GateFlag(false),
            gate_mdr: GateFlag(false),
            pc_mux: TwoBitMux(0),
            addr1_mux: OneBitMux(false),
            addr2_mux: TwoBitMux(0),
            sr2_mux: OneBitMux(false),
            mar_mux: OneBitMux(false),
            aluk: TwoBitMux(0),
            mar: Register::zeroed(RegisterName::MAR),
            ir: Register::zeroed(RegisterName::IR),
            mdr: Register::zeroed(RegisterName::MDR),
            pc: Register::new(starting_pc, RegisterName::PC),
        }
    }

    /// Deassert every control line, leaving the registers and the file
    /// untouched. The sequencer starts each cycle from this clean slate.
    pub fn clear_lines(&mut self)
        ensures
            final(self).regfile == old(self).regfile,
            final(self).pc == old(self).pc,
            final(self).ir == old(self).ir,
            final(self).mar == old(self).mar,
            final(self).mdr == old(self).mdr,
            !final(self).ld_pc.0 && !final(self).ld_ir.0 && !final(self).ld_mar.0,
            !final(self).ld_mdr.0 && !final(self).ld_reg.0 && !final(self).ld_cc.0,
            !final(self).gate_pc.0 && !final(self).gate_marmux.0,
            !final(self).gate_alu.0 && !final(self).gate_mdr.0,
            final(self).pc_mux.0 == 0 && final(self).addr2_mux.0 == 0 && final(self).aluk.0 == 0,
            !final(self).addr1_mux.0 && !final(self).sr2_mux.0 && !final(self).mar_mux.0,
    {
        self.ld_pc = LoadFlag(false);
        self.ld_ir = LoadFlag(false);
        self.ld_mar = LoadFlag(false);
        self.ld_mdr = LoadFlag(false);
        self.ld_reg = LoadFlag(false);
        self.ld_cc = LoadFlag(false);
        self.gate_pc = GateFlag(false);
        self.gate_marmux = GateFlag(false);
        self.gate_alu = GateFlag(false);
        self.gate_mdr = GateFlag(false);
        self.pc_mux = TwoBitMux(0);
        self.addr1_mux = OneBitMux(false);
        self.addr2_mux = TwoBitMux(0);
        self.sr2_mux = OneBitMux(false);
        self.mar_mux = OneBitMux(false);
        self.aluk = TwoBitMux(0);
    }

    /// The base-address multiplexer output for this cycle.
    pub fn mux_addr1(&self) -> (r: RegisterContents)
        requires
            self.wf(),
        ensures
            r.0 == self.spec_mux_addr1(),
    {
        if self.addr1_mux.0 {
            self.pc.content
        } else {
            self.regfile.contents_of(RegisterName::from_bits(self.ir.content.0 >> 6))
        }
    }

    /// The offset multiplexer output for this cycle.
    pub fn mux_addr2(&self) -> (r: RegisterContents)
        requires
            self.addr2_mux.0 <= ADDR2_ZERO,
        ensures
            r.0 == self.spec_mux_addr2(),
    {
        if self.addr2_mux.0 == ADDR2_OFF11 {
            RegisterContents(sext16(self.ir.content.0 & 0x7ff, 10))
        } else if self.addr2_mux.0 == ADDR2_OFF9 {
            RegisterContents(sext16(self.ir.content.0 & 0x1ff, 8))
        } else if self.addr2_mux.0 == ADDR2_OFF6 {
            RegisterContents(sext16(self.ir.content.0 & 0x3f, 5))
        } else {
            RegisterContents::init()
        }
    }

    /// Base plus offset, as selected by the two address multiplexers.
    pub fn addr_adder(&self) -> (r: RegisterContents)
        requires
            self.wf(),
            self.addr2_mux.0 <= ADDR2_ZERO,
        ensures
            r.0 == self.spec_addr_adder(),
    {
        self.mux_addr1().plus(self.mux_addr2())
    }

    /// The ALU output for this cycle.
    pub fn alu(&self) -> (r: RegisterContents)
        requires
            self.wf(),
            self.aluk.0 <= ALUK_NOT,
        ensures
            r.0 == self.spec_alu(),
    {
        let a = self.regfile.contents_of(RegisterName::from_bits(self.ir.content.0 >> 6));
        let b = if self.sr2_mux.0 {
            RegisterContents(sext16(self.ir.content.0 & 0x1f, 4))
        } else {
            self.regfile.contents_of(RegisterName::from_bits(self.ir.content.0))
        };
        if self.aluk.0 == ALUK_ADD {
            a.plus(b)
        } else if self.aluk.0 == ALUK_AND {
            a.and(b)
        } else {
            a.complement()
        }
    }

    /// The value presently driven onto the bus. Exactly one gate must be
    /// asserted: an invalid control word is a programming error in the
    /// sequencer's table and is ruled out before it can occur.
    pub fn bus(&self) -> (r: RegisterContents)
        requires
            self.wf(),
            self.gates_one_hot(),
            self.gate_marmux.0 && self.mar_mux.0 ==> self.addr2_mux.0 <= ADDR2_ZERO,
            self.gate_alu.0 ==> self.aluk.0 <= ALUK_NOT,
        ensures
            r.0 == self.spec_bus(),
    {
        if self.gate_pc.0 {
            self.pc.content
        } else if self.gate_marmux.0 {
            if self.mar_mux.0 {
                self.addr_adder()
            } else {
                RegisterContents(self.ir.content.0 & 0xff)
            }
        } else if self.gate_alu.0 {
            self.alu()
        } else {
            self.mdr.content
        }
    }
}

} // verus!
