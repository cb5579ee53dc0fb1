//! The control finite-state machine: the micro-sequencer that realises
//! each decoded instruction as the classical fetch / decode / address /
//! memory / execute / writeback discipline, one micro-state per clock
//! cycle. `spec_step` is the complete mathematical transition table;
//! `Lrc3Cpu::step` advances the machine by exactly one micro-cycle and is
//! proved to follow that table.

use vstd::prelude::*;

use crate::bits::{mask_out, spec_field};
use crate::datapath::{
    base_r_index, dr_index, imm5_of, off11_of, off6_of, off9_of, sr2_index, Datapath, GateFlag,
    LoadFlag, OneBitMux, TwoBitMux, ADDR2_OFF11, ADDR2_OFF6, ADDR2_OFF9, ADDR2_ZERO, ALUK_ADD,
    ALUK_AND, ALUK_NOT,
};
use crate::decode::spec_decode;
use crate::isa::{Instruction, Lrc3Error};
use crate::memory::{spec_initial_memory, Memory, LOAD_POINT};
use crate::registers::{
    add16, exactly_one_condition_code, spec_flags_of, spec_index_of, RegisterContents, RegisterName,
};

verus! {

/// PC source selects: the incremented PC, the bus, or the address adder.
pub const PCMUX_INC: u8 = 0;

pub const PCMUX_BUS: u8 = 1;

pub const PCMUX_ADDER: u8 = 2;

/// One micro-state of the control sequencer: one architecturally distinct
/// step of some instruction's micro-sequence, or the fault state.
#[derive(Debug, Clone, Copy, PartialEq, Eq, Structural)]
pub enum Lrc3State {
    /// MAR takes the PC; taken first for every instruction.
    FetchMar,
    /// MDR takes memory at MAR, IR takes MDR, and PC is incremented.
    FetchIr,
    /// IR is decoded and the per-opcode micro-sequence is selected.
    Decode,
    /// ADD/AND/NOT, register or immediate form: the ALU result is written
    /// to DR and the condition codes are set.
    AluExec,
    /// BR: PC takes PC plus the 9-bit offset if a requested flag is set.
    BrExec,
    /// JMP: PC takes the base register.
    JmpExec,
    /// JSR: R7 takes the pre-jump PC, PC takes PC plus the 11-bit offset.
    JsrExec,
    /// JSRR: R7 takes the pre-jump PC, PC takes the base register.
    JsrrExec,
    LdMar,
    LdRead,
    LdWriteback,
    LdiMar,
    LdiReadPointer,
    LdiMarIndirect,
    LdiRead,
    LdiWriteback,
    LdrMar,
    LdrRead,
    LdrWriteback,
    /// LEA: DR takes the effective address itself; no flag update.
    LeaExec,
    StMar,
    StLoadMdr,
    StWrite,
    StiMar,
    StiReadPointer,
    StiMarIndirect,
    StiLoadMdr,
    StiWrite,
    StrMar,
    StrLoadMdr,
    StrWrite,
    TrapMar,
    TrapRead,
    TrapSetPc,
    /// The machine has stopped on a fault and stays here until reset.
    Fault,
}

/// Why the sequencer entered the fault state.
#[derive(Debug, Clone, Copy, PartialEq, Eq)]
pub enum CpuFault {
    /// The fetched word does not decode; the architecture specifies no
    /// recovery, so the caller is told rather than guessed for.
    Decode(Lrc3Error),
    /// RTI's privileged micro-sequence is outside functional simulation.
    UnsupportedRti,
}

/// Everything observable about the machine: the special registers, the
/// register file and condition codes, memory, the current micro-state,
/// and the last fault if any.
#[verifier::ext_equal]
pub ghost struct MachineView {
    pub pc: u16,
    pub ir: u16,
    pub mar: u16,
    pub mdr: u16,
    pub regs: Seq<u16>,
    pub n: bool,
    pub z: bool,
    pub p: bool,
    pub mem: Seq<u16>,
    pub state: Lrc3State,
    pub fault: Option<CpuFault>,
}

impl MachineView {
    /// Eight file slots and a word of memory for every 16-bit address.
    pub open spec fn wf(self) -> bool {
        &&& self.regs.len() == 8
        &&& self.mem.len() == 0x10000
    }
}

/// The micro-state a freshly decoded instruction starts its sequence in.
pub open spec fn spec_entry_state(instruction: Instruction) -> Lrc3State {
    match instruction {
        Instruction::Add(_) => Lrc3State::AluExec,
        Instruction::Addi(_) => Lrc3State::AluExec,
        Instruction::And(_) => Lrc3State::AluExec,
        Instruction::Andi(_) => Lrc3State::AluExec,
        Instruction::Br(_) => Lrc3State::BrExec,
        Instruction::Jmp(_) => Lrc3State::JmpExec,
        Instruction::Jsr(_) => Lrc3State::JsrExec,
        Instruction::Jsrr(_) => Lrc3State::JsrrExec,
        Instruction::Ld(_) => Lrc3State::LdMar,
        Instruction::Ldi(_) => Lrc3State::LdiMar,
        Instruction::Ldr(_) => Lrc3State::LdrMar,
        Instruction::Lea(_) => Lrc3State::LeaExec,
        Instruction::Not(_) => Lrc3State::AluExec,
        Instruction::Rti() => Lrc3State::Fault,
        Instruction::St(_) => Lrc3State::StMar,
        Instruction::Sti(_) => Lrc3State::StiMar,
        Instruction::Str(_) => Lrc3State::StrMar,
        Instruction::Trap(_) => Lrc3State::TrapMar,
    }
}

/// The ALU result the execute state of ADD/ADDI/AND/ANDI/NOT commits:
/// NOT complements SR1; the others combine SR1 with SR2 or the immediate,
/// as the mode bit selects, adding modulo 2^16 or AND-ing bitwise.
pub open spec fn spec_alu_result(v: MachineView) -> u16 {
    let w = v.ir;
    if spec_field(w, 12, 15) == 0b1001 {
        !v.regs[base_r_index(w)]
    } else {
        let a = v.regs[base_r_index(w)];
        let b = if spec_field(w, 5, 5) == 1 {
            imm5_of(w)
        } else {
            v.regs[sr2_index(w)]
        };
        if spec_field(w, 12, 15) == 0b0001 {
            add16(a, b)
        } else {
            a & b
        }
    }
}

/// Whether BR takes its branch: some requested polarity bit of the
/// instruction matches a currently set condition code.
pub open spec fn spec_branch_taken(v: MachineView) -> bool {
    ||| spec_field(v.ir, 11, 11) == 1 && v.n
    ||| spec_field(v.ir, 10, 10) == 1 && v.z
    ||| spec_field(v.ir, 9, 9) == 1 && v.p
}

/// The complete transition table of the sequencer: what one micro-cycle
/// does to the machine, for every micro-state.
pub open spec fn spec_step(v: MachineView) -> MachineView {
    match v.state {
        Lrc3State::FetchMar => MachineView { mar: v.pc, state: Lrc3State::FetchIr, ..v },
        Lrc3State::FetchIr => {
            let w = v.mem[v.mar as int];
            MachineView { mdr: w, ir: w, pc: add16(v.pc, 1), state: Lrc3State::Decode, ..v }
        },
        Lrc3State::Decode => match spec_decode(v.ir) {
            Ok(instruction) => {
                if instruction is Rti {
                    MachineView {
                        state: Lrc3State::Fault,
                        fault: Some(CpuFault::UnsupportedRti),
                        ..v
                    }
                } else {
                    MachineView { state: spec_entry_state(instruction), ..v }
                }
            },
            Err(e) => MachineView { state: Lrc3State::Fault, fault: Some(CpuFault::Decode(e)), ..v },
        },
        Lrc3State::AluExec => {
            let result = spec_alu_result(v);
            let flags = spec_flags_of(result);
            MachineView {
                regs: v.regs.update(dr_index(v.ir), result),
                n: flags.0,
                z: flags.1,
                p: flags.2,
                state: Lrc3State::FetchMar,
                ..v
            }
        },
        Lrc3State::BrExec => MachineView {
            pc: if spec_branch_taken(v) {
                add16(v.pc, off9_of(v.ir))
            } else {
                v.pc
            },
            state: Lrc3State::FetchMar,
            ..v
        },
        Lrc3State::JmpExec => MachineView {
            pc: v.regs[base_r_index(v.ir)],
            state: Lrc3State::FetchMar,
            ..v
        },
        Lrc3State::JsrExec => MachineView {
            regs: v.regs.update(7, v.pc),
            pc: add16(v.pc, off11_of(v.ir)),
            state: Lrc3State::FetchMar,
            ..v
        },
        Lrc3State::JsrrExec => MachineView {
            regs: v.regs.update(7, v.pc),
            pc: v.regs[base_r_index(v.ir)],
            state: Lrc3State::FetchMar,
            ..v
        },
        Lrc3State::LdMar => MachineView {
            mar: add16(v.pc, off9_of(v.ir)),
            state: Lrc3State::LdRead,
            ..v
        },
        Lrc3State::LdRead => MachineView {
            mdr: v.mem[v.mar as int],
            state: Lrc3State::LdWriteback,
            ..v
        },
        Lrc3State::LdWriteback => {
            let flags = spec_flags_of(v.mdr);
            MachineView {
                regs: v.regs.update(dr_index(v.ir), v.mdr),
                n: flags.0,
                z: flags.1,
                p: flags.2,
                state: Lrc3State::FetchMar,
                ..v
            }
        },
        Lrc3State::LdiMar => MachineView {
            mar: add16(v.pc, off9_of(v.ir)),
            state: Lrc3State::LdiReadPointer,
            ..v
        },
        Lrc3State::LdiReadPointer => MachineView {
            mdr: v.mem[v.mar as int],
            state: Lrc3State::LdiMarIndirect,
            ..v
        },
        Lrc3State::LdiMarIndirect => MachineView { mar: v.mdr, state: Lrc3State::LdiRead, ..v },
        Lrc3State::LdiRead => MachineView {
            mdr: v.mem[v.mar as int],
            state: Lrc3State::LdiWriteback,
            ..v
        },
        Lrc3State::LdiWriteback => {
            let flags = spec_flags_of(v.mdr);
            MachineView {
                regs: v.regs.update(dr_index(v.ir), v.mdr),
                n: flags.0,
                z: flags.1,
                p: flags.2,
                state: Lrc3State::FetchMar,
                ..v
            }
        },
        Lrc3State::LdrMar => MachineView {
            mar: add16(v.regs[base_r_index(v.ir)], off6_of(v.ir)),
            state: Lrc3State::LdrRead,
            ..v
        },
        Lrc3State::LdrRead => MachineView {
            mdr: v.mem[v.mar as int],
            state: Lrc3State::LdrWriteback,
            ..v
        },
        Lrc3State::LdrWriteback => {
            let flags = spec_flags_of(v.mdr);
            MachineView {
                regs: v.regs.update(dr_index(v.ir), v.mdr),
                n: flags.0,
                z: flags.1,
                p: flags.2,
                state: Lrc3State::FetchMar,
                ..v
            }
        },
        Lrc3State::LeaExec => MachineView {
            regs: v.regs.update(dr_index(v.ir), add16(v.pc, off9_of(v.ir))),
            state: Lrc3State::FetchMar,
            ..v
        },
        Lrc3State::StMar => MachineView {
            mar: add16(v.pc, off9_of(v.ir)),
            state: Lrc3State::StLoadMdr,
            ..v
        },
        Lrc3State::StLoadMdr => MachineView {
            mdr: v.regs[dr_index(v.ir)],
            state: Lrc3State::StWrite,
            ..v
        },
        Lrc3State::StWrite => MachineView {
            mem: v.mem.update(v.mar as int, v.mdr),
            state: Lrc3State::FetchMar,
            ..v
        },
        Lrc3State::StiMar => MachineView {
            mar: add16(v.pc, off9_of(v.ir)),
            state: Lrc3State::StiReadPointer,
            ..v
        },
        Lrc3State::StiReadPointer => MachineView {
            mdr: v.mem[v.mar as int],
            state: Lrc3State::StiMarIndirect,
            ..v
        },
        Lrc3State::StiMarIndirect => MachineView {
            mar: v.mdr,
            state: Lrc3State::StiLoadMdr,
            ..v
        },
        Lrc3State::StiLoadMdr => MachineView {
            mdr: v.regs[dr_index(v.ir)],
            state: Lrc3State::StiWrite,
            ..v
        },
        Lrc3State::StiWrite => MachineView {
            mem: v.mem.update(v.mar as int, v.mdr),
            state: Lrc3State::FetchMar,
            ..v
        },
        Lrc3State::StrMar => MachineView {
            mar: add16(v.regs[base_r_index(v.ir)], off6_of(v.ir)),
            state: Lrc3State::StrLoadMdr,
            ..v
        },
        Lrc3State::StrLoadMdr => MachineView {
            mdr: v.regs[dr_index(v.ir)],
            state: Lrc3State::StrWrite,
            ..v
        },
        Lrc3State::StrWrite => MachineView {
            mem: v.mem.update(v.mar as int, v.mdr),
            state: Lrc3State::FetchMar,
            ..v
        },
        Lrc3State::TrapMar => MachineView {
            mar: v.ir & 0xff,
            state: Lrc3State::TrapRead,
            ..v
        },
        Lrc3State::TrapRead => MachineView {
            mdr: v.mem[v.mar as int],
            state: Lrc3State::TrapSetPc,
            ..v
        },
        Lrc3State::TrapSetPc => MachineView { pc: v.mdr, state: Lrc3State::FetchMar, ..v },
        Lrc3State::Fault => v,
    }
}

/// What the machine looks like at reset: PC at the load point, micro-state
/// at the first fetch step, everything else clear, memory freshly seeded.
pub open spec fn spec_reset_machine() -> MachineView {
    MachineView {
        pc: LOAD_POINT,
        ir: 0,
        mar: 0,
        mdr: 0,
        regs: Seq::new(8, |i: int| 0u16),
        n: false,
        z: false,
        p: false,
        mem: spec_initial_memory(),
        state: Lrc3State::FetchMar,
        fault: None,
    }
}

/// The storage the sequencer owns: the datapath and the memory.
pub struct Lrc3CpuState {
    pub datapath: Datapath,
    pub memory: Memory,
}

impl Lrc3CpuState {
    pub fn new(starting_pc: RegisterContents) -> (r: Self)
        ensures
            r.datapath.wf(),
            r.memory.wf(),
            r.datapath.regfile.regs() =~= Seq::new(8, |i: int| 0u16),
            !r.datapath.regfile.n && !r.datapath.regfile.z && !r.datapath.regfile.p,
            r.datapath.pc.content == starting_pc,
            r.datapath.ir.content.0 == 0,
            r.datapath.mar.content.0 == 0,
            r.datapath.mdr.content.0 == 0,
            r.memory@ =~= spec_initial_memory(),
    {
        Self { datapath: Datapath::new(starting_pc), memory: Memory::new() }
    }
}

/// The machine: the current micro-state, the datapath and memory it owns,
/// and the last fault if one has occurred.
pub struct Lrc3Cpu {
    pub state: Lrc3State,
    pub data: Lrc3CpuState,
    pub fault: Option<CpuFault>,
}

impl View for Lrc3Cpu {
    type V = MachineView;

    open spec fn view(&self) -> MachineView {
        MachineView {
            pc: self.data.datapath.pc.content.0,
            ir: self.data.datapath.ir.content.0,
            mar: self.data.datapath.mar.content.0,
            mdr: self.data.datapath.mdr.content.0,
            regs: self.data.datapath.regfile.regs(),
            n: self.data.datapath.regfile.n,
            z: self.data.datapath.regfile.z,
            p: self.data.datapath.regfile.p,
            mem: self.data.memory@,
            state: self.state,
            fault: self.fault,
        }
    }
}

impl Lrc3Cpu {
    pub open spec fn wf(self) -> bool {
        &&& self.data.datapath.wf()
        &&& self.data.memory.wf()
    }

    /// A machine at reset: PC at the conventional load point, micro-state
    /// at the first fetch step.
    pub fn new() -> (r: Self)
        ensures
            r.wf(),
            r@ == spec_reset_machine(),
    {
        let r = Lrc3Cpu {
            state: Lrc3State::FetchMar,
            data: Lrc3CpuState::new(RegisterContents::new(LOAD_POINT)),
            fault: None,
        };
        assert(r@ =~= spec_reset_machine());
        r
    }

    /// The current micro-state.
    pub fn micro_state(&self) -> (r: Lrc3State)
        ensures
            r == self@.state,
    {
        self.state
    }

    /// The last fault, if the machine has stopped on one.
    pub fn last_fault(&self) -> (r: Option<CpuFault>)
        ensures
            r == self@.fault,
    {
        self.fault
    }

    /// The program counter.
    pub fn pc(&self) -> (r: u16)
        ensures
            r == self@.pc,
    {
        self.data.datapath.pc.content.0
    }

    /// The word a general-purpose register holds.
    pub fn register(&self, reg: RegisterName) -> (r: u16)
        requires
            self.wf(),
            reg.is_general_purpose(),
        ensures
            r == self@.regs[spec_index_of(reg)],
    {
        self.data.datapath.regfile.contents_of(reg).0
    }

    /// The three condition codes, as (N, Z, P).
    pub fn condition_codes(&self) -> (r: (bool, bool, bool))
        ensures
            r == (self@.n, self@.z, self@.p),
    {
        (self.data.datapath.regfile.n, self.data.datapath.regfile.z, self.data.datapath.regfile.p)
    }

    /// The word memory holds at `address`.
    pub fn read_memory(&self, address: u16) -> (r: u16)
        requires
            self.wf(),
        ensures
            r == self@.mem[address as int],
    {
        self.data.memory.read(address).0
    }

    /// Store a word into memory, as a program loader would.
    pub fn write_memory(&mut self, address: u16, value: u16)
        requires
            old(self).wf(),
        ensures
            final(self).wf(),
            final(self)@ == (MachineView { mem: old(self)@.mem.update(address as int, value), ..old(self)@ }),
    {
        self.data.memory.write(address, RegisterContents::new(value));
        assert(self@ =~= (MachineView { mem: old(self)@.mem.update(address as int, value), ..old(self)@ }));
    }

    /// Preload a general-purpose register, as a test harness or debugger
    /// would.
    pub fn set_register(&mut self, reg: RegisterName, value: u16)
        requires
            old(self).wf(),
            reg.is_general_purpose(),
        ensures
            final(self).wf(),
            final(self)@ == (MachineView {
                regs: old(self)@.regs.update(spec_index_of(reg), value),
                ..old(self)@
            }),
    {
        self.data.datapath.regfile.set_contents_of(reg, RegisterContents::new(value));
        assert(self@ =~= (MachineView {
            regs: old(self)@.regs.update(spec_index_of(reg), value),
            ..old(self)@
        }));
    }

    /// MAR takes the PC over the bus.
    fn step_fetch_mar(&mut self)
        requires
            old(self).wf(),
            old(self)@.state is FetchMar,
        ensures
            final(self).wf(),
            final(self)@ == spec_step(old(self)@),
    {
        self.data.datapath.clear_lines();
        self.data.datapath.gate_pc = GateFlag(true);
        self.data.datapath.ld_mar = LoadFlag(true);
        let value = self.data.datapath.bus();
        self.data.datapath.mar.content = value;
        self.state = Lrc3State::FetchIr;
        assert(self@ =~= spec_step(old(self)@));
    }

    /// MDR takes memory at MAR, IR takes MDR over the bus, and PC is
    /// incremented.
    fn step_fetch_ir(&mut self)
        requires
            old(self).wf(),
            old(self)@.state is FetchIr,
        ensures
            final(self).wf(),
            final(self)@ == spec_step(old(self)@),
    {
        self.data.datapath.clear_lines();
        self.data.datapath.ld_mdr = LoadFlag(true);
        let word = self.data.memory.read(self.data.datapath.mar.content.0);
        self.data.datapath.mdr.content = word;
        self.data.datapath.gate_mdr = GateFlag(true);
        self.data.datapath.ld_ir = LoadFlag(true);
        self.data.datapath.ld_pc = LoadFlag(true);
        self.data.datapath.pc_mux = TwoBitMux(PCMUX_INC);
        let value = self.data.datapath.bus();
        self.data.datapath.ir.content = value;
        let pc = self.data.datapath.pc.content;
        self.data.datapath.pc.content = pc.plus(RegisterContents::new(1));
        self.state = Lrc3State::Decode;
        assert(self@ =~= spec_step(old(self)@));
    }

    /// IR is decoded and the per-opcode micro-sequence selected; a word
    /// that does not decode, or RTI, stops the machine in the fault state.
    fn step_decode(&mut self)
        requires
            old(self).wf(),
            old(self)@.state is Decode,
        ensures
            final(self).wf(),
            final(self)@ == spec_step(old(self)@),
    {
        self.data.datapath.clear_lines();
        match Instruction::decode_bits(self.data.datapath.ir.content.0) {
            Err(e) => {
                self.fault = Some(CpuFault::Decode(e));
                self.state = Lrc3State::Fault;
            },
            Ok(instruction) => match instruction {
                Instruction::Rti() => {
                    self.fault = Some(CpuFault::UnsupportedRti);
                    self.state = Lrc3State::Fault;
                },
                Instruction::Add(_) | Instruction::Addi(_) | Instruction::And(_)
                    | Instruction::Andi(_) | Instruction::Not(_) => {
                    self.state = Lrc3State::AluExec;
                },
                Instruction::Br(_) => {
                    self.state = Lrc3State::BrExec;
                },
                Instruction::Jmp(_) => {
                    self.state = Lrc3State::JmpExec;
                },
                Instruction::Jsr(_) => {
                    self.state = Lrc3State::JsrExec;
                },
                Instruction::Jsrr(_) => {
                    self.state = Lrc3State::JsrrExec;
                },
                Instruction::Ld(_) => {
                    self.state = Lrc3State::LdMar;
                },
                Instruction::Ldi(_) => {
                    self.state = Lrc3State::LdiMar;
                },
                Instruction::Ldr(_) => {
                    self.state = Lrc3State::LdrMar;
                },
                Instruction::Lea(_) => {
                    self.state = Lrc3State::LeaExec;
                },
                Instruction::St(_) => {
                    self.state = Lrc3State::StMar;
                },
                Instruction::Sti(_) => {
                    self.state = Lrc3State::StiMar;
                },
                Instruction::Str(_) => {
                    self.state = Lrc3State::StrMar;
                },
                Instruction::Trap(_) => {
                    self.state = Lrc3State::TrapMar;
                },
            },
        }
        assert(self@ =~= spec_step(old(self)@));
    }

    /// The single execute state of the ALU class: DR takes the ALU output
    /// and the condition codes are set from it.
    fn step_alu_exec(&mut self)
        requires
            old(self).wf(),
            old(self)@.state is AluExec,
        ensures
            final(self).wf(),
            final(self)@ == spec_step(old(self)@),
    {
        let w = self.data.datapath.ir.content.0;
        self.data.datapath.clear_lines();
        self.data.datapath.gate_alu = GateFlag(true);
        self.data.datapath.ld_reg = LoadFlag(true);
        self.data.datapath.ld_cc = LoadFlag(true);
        let opcode = mask_out(w, 12, 15);
        self.data.datapath.aluk = TwoBitMux(
            if opcode == 0b1001 {
                ALUK_NOT
            } else if opcode == 0b0001 {
                ALUK_ADD
            } else {
                ALUK_AND
            },
        );
        self.data.datapath.sr2_mux = OneBitMux(mask_out(w, 5, 5) == 1);
        let result = self.data.datapath.bus();
        self.data.datapath.regfile.set_contents_of(RegisterName::from_bits(w >> 9), result);
        self.data.datapath.regfile.set_flags_from(result);
        self.state = Lrc3State::FetchMar;
        assert(self@ =~= spec_step(old(self)@));
    }

    /// BR: PC takes the address adder's output when a requested polarity
    /// matches a set condition code, else stays.
    fn step_branch(&mut self)
        requires
            old(self).wf(),
            old(self)@.state is BrExec,
        ensures
            final(self).wf(),
            final(self)@ == spec_step(old(self)@),
    {
        let w = self.data.datapath.ir.content.0;
        self.data.datapath.clear_lines();
        let taken = (mask_out(w, 11, 11) == 1 && self.data.datapath.regfile.n) || (mask_out(
            w,
            10,
            10,
        ) == 1 && self.data.datapath.regfile.z) || (mask_out(w, 9, 9) == 1
            && self.data.datapath.regfile.p);
        if taken {
            self.data.datapath.addr1_mux = OneBitMux(true);
            self.data.datapath.addr2_mux = TwoBitMux(ADDR2_OFF9);
            self.data.datapath.pc_mux = TwoBitMux(PCMUX_ADDER);
            self.data.datapath.ld_pc = LoadFlag(true);
            let target = self.data.datapath.addr_adder();
            self.data.datapath.pc.content = target;
        }
        self.state = Lrc3State::FetchMar;
        assert(self@ =~= spec_step(old(self)@));
    }

    /// JMP: PC takes the base register through the address adder.
    fn step_jmp(&mut self)
        requires
            old(self).wf(),
            old(self)@.state is JmpExec,
        ensures
            final(self).wf(),
            final(self)@ == spec_step(old(self)@),
    {
        self.data.datapath.clear_lines();
        self.data.datapath.addr1_mux = OneBitMux(false);
        self.data.datapath.addr2_mux = TwoBitMux(ADDR2_ZERO);
        self.data.datapath.pc_mux = TwoBitMux(PCMUX_ADDER);
        self.data.datapath.ld_pc = LoadFlag(true);
        let target = self.data.datapath.addr_adder();
        self.data.datapath.pc.content = target;
        self.state = Lrc3State::FetchMar;
        assert(self@ =~= spec_step(old(self)@));
    }

    /// JSR: R7 takes the pre-jump PC off the bus while PC takes PC plus
    /// the 11-bit offset from the address adder, in the same micro-cycle.
    fn step_jsr(&mut self)
        requires
            old(self).wf(),
            old(self)@.state is JsrExec,
        ensures
            final(self).wf(),
            final(self)@ == spec_step(old(self)@),
    {
        self.data.datapath.clear_lines();
        self.data.datapath.addr1_mux = OneBitMux(true);
        self.data.datapath.addr2_mux = TwoBitMux(ADDR2_OFF11);
        self.data.datapath.pc_mux = TwoBitMux(PCMUX_ADDER);
        self.data.datapath.gate_pc = GateFlag(true);
        self.data.datapath.ld_reg = LoadFlag(true);
        self.data.datapath.ld_pc = LoadFlag(true);
        let target = self.data.datapath.addr_adder();
        let link = self.data.datapath.bus();
        self.data.datapath.regfile.set_contents_of(RegisterName::R7, link);
        self.data.datapath.pc.content = target;
        self.state = Lrc3State::FetchMar;
        assert(self@ =~= spec_step(old(self)@));
    }

    /// JSRR: as JSR, with the base register (read before R7 is written)
    /// as the jump target.
    fn step_jsrr(&mut self)
        requires
            old(self).wf(),
            old(self)@.state is JsrrExec,
        ensures
            final(self).wf(),
            final(self)@ == spec_step(old(self)@),
    {
        self.data.datapath.clear_lines();
        self.data.datapath.addr1_mux = OneBitMux(false);
        self.data.datapath.addr2_mux = TwoBitMux(ADDR2_ZERO);
        self.data.datapath.pc_mux = TwoBitMux(PCMUX_ADDER);
        self.data.datapath.gate_pc = GateFlag(true);
        self.data.datapath.ld_reg = LoadFlag(true);
        self.data.datapath.ld_pc = LoadFlag(true);
        let target = self.data.datapath.addr_adder();
        let link = self.data.datapath.bus();
        self.data.datapath.regfile.set_contents_of(RegisterName::R7, link);
        self.data.datapath.pc.content = target;
        self.state = Lrc3State::FetchMar;
        assert(self@ =~= spec_step(old(self)@));
    }

    /// MAR takes PC plus the 9-bit offset (LD, LDI, ST, STI).
    fn step_mar_pc_offset9(&mut self)
        requires
            old(self).wf(),
            old(self)@.state is LdMar || old(self)@.state is LdiMar || old(self)@.state is StMar
                || old(self)@.state is StiMar,
        ensures
            final(self).wf(),
            final(self)@ == spec_step(old(self)@),
    {
        self.data.datapath.clear_lines();
        self.data.datapath.addr1_mux = OneBitMux(true);
        self.data.datapath.addr2_mux = TwoBitMux(ADDR2_OFF9);
        self.data.datapath.mar_mux = OneBitMux(true);
        self.data.datapath.gate_marmux = GateFlag(true);
        self.data.datapath.ld_mar = LoadFlag(true);
        let address = self.data.datapath.bus();
        self.data.datapath.mar.content = address;
        self.state = match self.state {
            Lrc3State::LdMar => Lrc3State::LdRead,
            Lrc3State::LdiMar => Lrc3State::LdiReadPointer,
            Lrc3State::StMar => Lrc3State::StLoadMdr,
            _ => Lrc3State::StiReadPointer,
        };
        assert(self@ =~= spec_step(old(self)@));
    }

    /// MAR takes the base register plus the 6-bit offset (LDR, STR).
    fn step_mar_base_offset6(&mut self)
        requires
            old(self).wf(),
            old(self)@.state is LdrMar || old(self)@.state is StrMar,
        ensures
            final(self).wf(),
            final(self)@ == spec_step(old(self)@),
    {
        self.data.datapath.clear_lines();
        self.data.datapath.addr1_mux = OneBitMux(false);
        self.data.datapath.addr2_mux = TwoBitMux(ADDR2_OFF6);
        self.data.datapath.mar_mux = OneBitMux(true);
        self.data.datapath.gate_marmux = GateFlag(true);
        self.data.datapath.ld_mar = LoadFlag(true);
        let address = self.data.datapath.bus();
        self.data.datapath.mar.content = address;
        self.state = match self.state {
            Lrc3State::LdrMar => Lrc3State::LdrRead,
            _ => Lrc3State::StrLoadMdr,
        };
        assert(self@ =~= spec_step(old(self)@));
    }

    /// MDR takes memory at MAR: the one memory access of this cycle.
    fn step_memory_read(&mut self)
        requires
            old(self).wf(),
            old(self)@.state is LdRead || old(self)@.state is LdiReadPointer || old(self)@.state is LdiRead || old(self)@.state is LdrRead || old(self)@.state is StiReadPointer || old(self)@.state is TrapRead,
        ensures
            final(self).wf(),
            final(self)@ == spec_step(old(self)@),
    {
        self.data.datapath.clear_lines();
        self.data.datapath.ld_mdr = LoadFlag(true);
        let word = self.data.memory.read(self.data.datapath.mar.content.0);
        self.data.datapath.mdr.content = word;
        self.state = match self.state {
            Lrc3State::LdRead => Lrc3State::LdWriteback,
            Lrc3State::LdiReadPointer => Lrc3State::LdiMarIndirect,
            Lrc3State::LdiRead => Lrc3State::LdiWriteback,
            Lrc3State::LdrRead => Lrc3State::LdrWriteback,
            Lrc3State::StiReadPointer => Lrc3State::StiMarIndirect,
            _ => Lrc3State::TrapSetPc,
        };
        assert(self@ =~= spec_step(old(self)@));
    }

    /// MAR takes the pointer just fetched into MDR (LDI, STI).
    fn step_mar_indirect(&mut self)
        requires
            old(self).wf(),
            old(self)@.state is LdiMarIndirect || old(self)@.state is StiMarIndirect,
        ensures
            final(self).wf(),
            final(self)@ == spec_step(old(self)@),
    {
        self.data.datapath.clear_lines();
        self.data.datapath.gate_mdr = GateFlag(true);
        self.data.datapath.ld_mar = LoadFlag(true);
        let address = self.data.datapath.bus();
        self.data.datapath.mar.content = address;
        self.state = match self.state {
            Lrc3State::LdiMarIndirect => Lrc3State::LdiRead,
            _ => Lrc3State::StiLoadMdr,
        };
        assert(self@ =~= spec_step(old(self)@));
    }

    /// DR takes MDR off the bus and the condition codes are set: the
    /// writeback state of the load class.
    fn step_writeback(&mut self)
        requires
            old(self).wf(),
            old(self)@.state is LdWriteback || old(self)@.state is LdiWriteback || old(self)@.state is LdrWriteback,
        ensures
            final(self).wf(),
            final(self)@ == spec_step(old(self)@),
    {
        let w = self.data.datapath.ir.content.0;
        self.data.datapath.clear_lines();
        self.data.datapath.gate_mdr = GateFlag(true);
        self.data.datapath.ld_reg = LoadFlag(true);
        self.data.datapath.ld_cc = LoadFlag(true);
        let value = self.data.datapath.bus();
        self.data.datapath.regfile.set_contents_of(RegisterName::from_bits(w >> 9), value);
        self.data.datapath.regfile.set_flags_from(value);
        self.state = Lrc3State::FetchMar;
        assert(self@ =~= spec_step(old(self)@));
    }

    /// LEA: DR takes the effective address itself; the condition codes
    /// stay as they are.
    fn step_lea(&mut self)
        requires
            old(self).wf(),
            old(self)@.state is LeaExec,
        ensures
            final(self).wf(),
            final(self)@ == spec_step(old(self)@),
    {
        let w = self.data.datapath.ir.content.0;
        self.data.datapath.clear_lines();
        self.data.datapath.addr1_mux = OneBitMux(true);
        self.data.datapath.addr2_mux = TwoBitMux(ADDR2_OFF9);
        self.data.datapath.mar_mux = OneBitMux(true);
        self.data.datapath.gate_marmux = GateFlag(true);
        self.data.datapath.ld_reg = LoadFlag(true);
        let address = self.data.datapath.bus();
        self.data.datapath.regfile.set_contents_of(RegisterName::from_bits(w >> 9), address);
        self.state = Lrc3State::FetchMar;
        assert(self@ =~= spec_step(old(self)@));
    }

    /// MDR takes the source register (the store class).
    fn step_store_mdr(&mut self)
        requires
            old(self).wf(),
            old(self)@.state is StLoadMdr || old(self)@.state is StiLoadMdr || old(self)@.state is StrLoadMdr,
        ensures
            final(self).wf(),
            final(self)@ == spec_step(old(self)@),
    {
        let w = self.data.datapath.ir.content.0;
        self.data.datapath.clear_lines();
        self.data.datapath.ld_mdr = LoadFlag(true);
        let value = self.data.datapath.regfile.contents_of(RegisterName::from_bits(w >> 9));
        self.data.datapath.mdr.content = value;
        self.state = match self.state {
            Lrc3State::StLoadMdr => Lrc3State::StWrite,
            Lrc3State::StiLoadMdr => Lrc3State::StiWrite,
            _ => Lrc3State::StrWrite,
        };
        assert(self@ =~= spec_step(old(self)@));
    }

    /// Memory at MAR takes MDR: the one memory access of this cycle.
    fn step_store_write(&mut self)
        requires
            old(self).wf(),
            old(self)@.state is StWrite || old(self)@.state is StiWrite || old(self)@.state is StrWrite,
        ensures
            final(self).wf(),
            final(self)@ == spec_step(old(self)@),
    {
        self.data.datapath.clear_lines();
        let address = self.data.datapath.mar.content.0;
        let value = self.data.datapath.mdr.content;
        self.data.memory.write(address, value);
        self.state = Lrc3State::FetchMar;
        assert(self@ =~= spec_step(old(self)@));
    }

    /// TRAP: MAR takes the zero-extended 8-bit vector from IR.
    fn step_trap_mar(&mut self)
        requires
            old(self).wf(),
            old(self)@.state is TrapMar,
        ensures
            final(self).wf(),
            final(self)@ == spec_step(old(self)@),
    {
        self.data.datapath.clear_lines();
        self.data.datapath.gate_marmux = GateFlag(true);
        self.data.datapath.mar_mux = OneBitMux(false);
        self.data.datapath.ld_mar = LoadFlag(true);
        let address = self.data.datapath.bus();
        self.data.datapath.mar.content = address;
        self.state = Lrc3State::TrapRead;
        assert(self@ =~= spec_step(old(self)@));
    }

    /// TRAP: PC takes the vectored word just read into MDR.
    fn step_trap_set_pc(&mut self)
        requires
            old(self).wf(),
            old(self)@.state is TrapSetPc,
        ensures
            final(self).wf(),
            final(self)@ == spec_step(old(self)@),
    {
        self.data.datapath.clear_lines();
        self.data.datapath.gate_mdr = GateFlag(true);
        self.data.datapath.ld_pc = LoadFlag(true);
        self.data.datapath.pc_mux = TwoBitMux(PCMUX_BUS);
        let value = self.data.datapath.bus();
        self.data.datapath.pc.content = value;
        self.state = Lrc3State::FetchMar;
        assert(self@ =~= spec_step(old(self)@));
    }

    /// Advance the machine by exactly one micro-cycle: assert the control
    /// lines of the current micro-state, commit its loads, and move to
    /// the next micro-state, exactly as `spec_step` says. In the fault
    /// state the machine stays put until the caller resets it.
    pub fn step(&mut self)
        requires
            old(self).wf(),
        ensures
            final(self).wf(),
            final(self)@ == spec_step(old(self)@),
    {
        match self.state {
            Lrc3State::FetchMar => self.step_fetch_mar(),
            Lrc3State::FetchIr => self.step_fetch_ir(),
            Lrc3State::Decode => self.step_decode(),
            Lrc3State::AluExec => self.step_alu_exec(),
            Lrc3State::BrExec => self.step_branch(),
            Lrc3State::JmpExec => self.step_jmp(),
            Lrc3State::JsrExec => self.step_jsr(),
            Lrc3State::JsrrExec => self.step_jsrr(),
            Lrc3State::LdMar | Lrc3State::LdiMar | Lrc3State::StMar | Lrc3State::StiMar => {
                self.step_mar_pc_offset9()
            },
            Lrc3State::LdrMar | Lrc3State::StrMar => self.step_mar_base_offset6(),
            Lrc3State::LdRead | Lrc3State::LdiReadPointer | Lrc3State::LdiRead
                | Lrc3State::LdrRead | Lrc3State::StiReadPointer | Lrc3State::TrapRead => {
                self.step_memory_read()
            },
            Lrc3State::LdiMarIndirect | Lrc3State::StiMarIndirect => self.step_mar_indirect(),
            Lrc3State::LdWriteback | Lrc3State::LdiWriteback | Lrc3State::LdrWriteback => {
                self.step_writeback()
            },
            Lrc3State::LeaExec => self.step_lea(),
            Lrc3State::StLoadMdr | Lrc3State::StiLoadMdr | Lrc3State::StrLoadMdr => {
                self.step_store_mdr()
            },
            Lrc3State::StWrite | Lrc3State::StiWrite | Lrc3State::StrWrite => {
                self.step_store_write()
            },
            Lrc3State::TrapMar => self.step_trap_mar(),
            Lrc3State::TrapSetPc => self.step_trap_set_pc(),
            Lrc3State::Fault => {
                assert(self@ =~= spec_step(old(self)@));
            },
        }
    }
}

/// One micro-cycle keeps the machine well-formed, so every state reachable
/// from a well-formed machine is well-formed.
pub proof fn lemma_spec_step_preserves_wf(v: MachineView)
    requires
        v.wf(),
    ensures
        spec_step(v).wf(),
{
}

/// Condition-code invariant: after the writeback micro-state of any of
/// the flag-setting instruction classes (the ALU class ADD/ADDI/AND/ANDI/
/// NOT, and the load class LD/LDI/LDR), exactly one of N/Z/P is true.
pub proof fn lemma_condition_codes_after_writeback(v: MachineView)
    requires
        v.state is AluExec || v.state is LdWriteback || v.state is LdiWriteback
            || v.state is LdrWriteback,
    ensures
        exactly_one_condition_code(spec_step(v).n, spec_step(v).z, spec_step(v).p),
{
}

/// Fetch-execute, composed: from the first fetch micro-state, four
/// micro-cycles of a machine whose next word is a register-mode ADD leave
/// the PC incremented, the destination register holding the two sources'
/// sum modulo 2^16, the condition codes reflecting that sum's sign class,
/// and the sequencer back at fetch.
pub proof fn lemma_fetch_execute_add(v: MachineView)
    requires
        v.wf(),
        v.state is FetchMar,
        spec_field(v.mem[v.pc as int], 12, 15) == 0b0001,
        spec_field(v.mem[v.pc as int], 5, 5) == 0,
        spec_field(v.mem[v.pc as int], 3, 4) == 0,
    ensures
        ({
            let w = v.mem[v.pc as int];
            let sum = add16(v.regs[base_r_index(w)], v.regs[sr2_index(w)]);
            let r = spec_step(spec_step(spec_step(spec_step(v))));
            &&& r.pc == add16(v.pc, 1)
            &&& r.regs == v.regs.update(dr_index(w), sum)
            &&& (r.n, r.z, r.p) == spec_flags_of(sum)
            &&& r.state is FetchMar
        }),
{
}

/// Subroutine linkage: after the execute micro-state of JSR or JSRR, R7
/// holds the PC that was current immediately before the jump — the
/// address of the instruction following the call, since the PC was
/// already incremented at fetch.
pub proof fn lemma_subroutine_linkage(v: MachineView)
    requires
        v.wf(),
        v.state is JsrExec || v.state is JsrrExec,
    ensures
        spec_step(v).regs[7] == v.pc,
{
}

} // verus!

