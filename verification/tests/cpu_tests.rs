use lrc3::cpu::{CpuFault, Lrc3Cpu, Lrc3State};
use lrc3::isa::Lrc3Error;
use lrc3::memory::Memory;
use lrc3::registers::{Regfile, RegisterContents, RegisterName};

fn run(cpu: &mut Lrc3Cpu, cycles: usize) {
    let mut i = 0;
    while i < cycles {
        cpu.step();
        i += 1;
    }
}

// Fetch (2 cycles) and decode (1 cycle) precede every instruction's own
// micro-sequence.
const FETCH_DECODE: usize = 3;

#[test]
fn machine_resets_to_the_load_point() {
    let cpu = Lrc3Cpu::new();
    assert_eq!(cpu.pc(), 0x3000);
    assert_eq!(cpu.micro_state(), Lrc3State::FetchMar);
    assert_eq!(cpu.last_fault(), None);
    assert_eq!(cpu.condition_codes(), (false, false, false));
    for r in [
        RegisterName::R0,
        RegisterName::R1,
        RegisterName::R2,
        RegisterName::R3,
        RegisterName::R4,
        RegisterName::R5,
        RegisterName::R6,
        RegisterName::R7,
    ] {
        assert_eq!(cpu.register(r), 0);
    }
    // Memory starts zeroed but for the sentinel at the load point.
    assert_eq!(cpu.read_memory(0x3000), 0xfe00);
    assert_eq!(cpu.read_memory(0x2fff), 0);
    assert_eq!(cpu.read_memory(0xffff), 0);
    assert_eq!(cpu.read_memory(0), 0);
}

#[test]
fn memory_new_seeds_the_sentinel() {
    let memory = Memory::new();
    assert_eq!(memory.read(0x3000), RegisterContents(0xfe00));
    assert_eq!(memory.read(0x2fff), RegisterContents(0));
    assert_eq!(memory.read(0xffff), RegisterContents(0));
}

#[test]
fn memory_write_then_read_any_address() {
    let mut memory = Memory::new();
    memory.write(0xffff, RegisterContents(0xbeef));
    memory.write(0, RegisterContents(0x1234));
    assert_eq!(memory.read(0xffff), RegisterContents(0xbeef));
    assert_eq!(memory.read(0), RegisterContents(0x1234));
}

#[test]
fn regfile_set_and_get() {
    let mut regfile = Regfile::new();
    regfile.set_contents_of(RegisterName::R5, RegisterContents(0x1234));
    assert_eq!(regfile.contents_of(RegisterName::R5), RegisterContents(0x1234));
    assert_eq!(regfile.contents_of(RegisterName::R0), RegisterContents(0));
    regfile.set_flags_from(RegisterContents(0x8000));
    assert_eq!((regfile.n, regfile.z, regfile.p), (true, false, false));
    regfile.set_flags_from(RegisterContents(0));
    assert_eq!((regfile.n, regfile.z, regfile.p), (false, true, false));
    regfile.set_flags_from(RegisterContents(1));
    assert_eq!((regfile.n, regfile.z, regfile.p), (false, false, true));
}

#[test]
fn fetch_execute_add_updates_pc_register_and_flags() {
    // The full fetch-execute scenario: PC = 0x3000, memory[0x3000] holds
    // ADD R5, R1 -> R3.
    let mut cpu = Lrc3Cpu::new();
    cpu.write_memory(0x3000, 0b0001_011_101_0_00_001);
    cpu.set_register(RegisterName::R5, 5);
    cpu.set_register(RegisterName::R1, 7);
    run(&mut cpu, FETCH_DECODE + 1);
    assert_eq!(cpu.pc(), 0x3001);
    assert_eq!(cpu.register(RegisterName::R3), 12);
    assert_eq!(cpu.condition_codes(), (false, false, true));
    assert_eq!(cpu.micro_state(), Lrc3State::FetchMar);
    assert_eq!(cpu.last_fault(), None);
}

#[test]
fn add_wraps_modulo_two_to_the_sixteenth() {
    let mut cpu = Lrc3Cpu::new();
    cpu.write_memory(0x3000, 0b0001_011_101_0_00_001);
    cpu.set_register(RegisterName::R5, 0x8000);
    cpu.set_register(RegisterName::R1, 0x8000);
    run(&mut cpu, FETCH_DECODE + 1);
    assert_eq!(cpu.register(RegisterName::R3), 0);
    // A zero result sets exactly the Z code.
    assert_eq!(cpu.condition_codes(), (false, true, false));
}

#[test]
fn add_negative_result_sets_n() {
    let mut cpu = Lrc3Cpu::new();
    cpu.write_memory(0x3000, 0b0001_011_101_0_00_001);
    cpu.set_register(RegisterName::R5, 0x8000);
    cpu.set_register(RegisterName::R1, 1);
    run(&mut cpu, FETCH_DECODE + 1);
    assert_eq!(cpu.register(RegisterName::R3), 0x8001);
    assert_eq!(cpu.condition_codes(), (true, false, false));
}

#[test]
fn addi_applies_the_signed_immediate() {
    // ADD R3, R5, #-7 (imm5 pattern 11001).
    let mut cpu = Lrc3Cpu::new();
    cpu.write_memory(0x3000, 0b0001_011_101_1_11001);
    cpu.set_register(RegisterName::R5, 10);
    run(&mut cpu, FETCH_DECODE + 1);
    assert_eq!(cpu.register(RegisterName::R3), 3);
    assert_eq!(cpu.condition_codes(), (false, false, true));
}

#[test]
fn andi_masks_the_source() {
    // AND R1, R2, #0b01010.
    let mut cpu = Lrc3Cpu::new();
    cpu.write_memory(0x3000, 0b0101_001_010_1_01010);
    cpu.set_register(RegisterName::R2, 0b1100);
    run(&mut cpu, FETCH_DECODE + 1);
    assert_eq!(cpu.register(RegisterName::R1), 0b1000);
    assert_eq!(cpu.condition_codes(), (false, false, true));
}

#[test]
fn not_complements_and_sets_flags() {
    // NOT R3, R5.
    let mut cpu = Lrc3Cpu::new();
    cpu.write_memory(0x3000, 0b1001_011_101_111111);
    cpu.set_register(RegisterName::R5, 0x00ff);
    run(&mut cpu, FETCH_DECODE + 1);
    assert_eq!(cpu.register(RegisterName::R3), 0xff00);
    assert_eq!(cpu.condition_codes(), (true, false, false));
}

#[test]
fn ld_reads_pc_relative_and_sets_exactly_one_flag() {
    // LD R4, #16: loads memory[0x3001 + 16].
    let mut cpu = Lrc3Cpu::new();
    cpu.write_memory(0x3000, 0b0010_100_000010000);
    cpu.write_memory(0x3011, 0xfe00);
    run(&mut cpu, FETCH_DECODE + 3);
    assert_eq!(cpu.register(RegisterName::R4), 0xfe00);
    let (n, z, p) = cpu.condition_codes();
    assert_eq!((n, z, p), (true, false, false));
    assert_eq!(u8::from(n) + u8::from(z) + u8::from(p), 1);
    assert_eq!(cpu.pc(), 0x3001);
}

#[test]
fn ldi_reads_through_the_pointer() {
    // LDI R4, #16: memory[0x3011] holds a pointer to 0x4000.
    let mut cpu = Lrc3Cpu::new();
    cpu.write_memory(0x3000, 0b1010_100_000010000);
    cpu.write_memory(0x3011, 0x4000);
    cpu.write_memory(0x4000, 0x0042);
    run(&mut cpu, FETCH_DECODE + 5);
    assert_eq!(cpu.register(RegisterName::R4), 0x0042);
    assert_eq!(cpu.condition_codes(), (false, false, true));
}

#[test]
fn ldr_reads_base_relative_with_negative_offset() {
    // LDR R4, R2, #-9 (offset6 pattern 110111).
    let mut cpu = Lrc3Cpu::new();
    cpu.write_memory(0x3000, 0b0110_100_010_110111);
    cpu.set_register(RegisterName::R2, 0x5009);
    cpu.write_memory(0x5000, 0x0007);
    run(&mut cpu, FETCH_DECODE + 3);
    assert_eq!(cpu.register(RegisterName::R4), 0x0007);
    assert_eq!(cpu.condition_codes(), (false, false, true));
}

#[test]
fn lea_writes_the_address_and_leaves_flags_alone() {
    // LEA R4, #16 after an instruction is fetched leaves PC+16 in R4.
    let mut cpu = Lrc3Cpu::new();
    cpu.write_memory(0x3000, 0b1110_100_000010000);
    run(&mut cpu, FETCH_DECODE + 1);
    assert_eq!(cpu.register(RegisterName::R4), 0x3011);
    // LEA never touches the condition codes; they are still clear.
    assert_eq!(cpu.condition_codes(), (false, false, false));
}

#[test]
fn st_writes_pc_relative() {
    // ST R4, #1: stores R4 at 0x3002.
    let mut cpu = Lrc3Cpu::new();
    cpu.write_memory(0x3000, 0b0011_100_000000001);
    cpu.set_register(RegisterName::R4, 0xabcd);
    run(&mut cpu, FETCH_DECODE + 3);
    assert_eq!(cpu.read_memory(0x3002), 0xabcd);
    // Stores never touch the condition codes.
    assert_eq!(cpu.condition_codes(), (false, false, false));
}

#[test]
fn sti_writes_through_the_pointer() {
    // STI R4, #2: memory[0x3003] points at 0x4100.
    let mut cpu = Lrc3Cpu::new();
    cpu.write_memory(0x3000, 0b1011_100_000000010);
    cpu.write_memory(0x3003, 0x4100);
    cpu.set_register(RegisterName::R4, 0x5555);
    run(&mut cpu, FETCH_DECODE + 5);
    assert_eq!(cpu.read_memory(0x4100), 0x5555);
}

#[test]
fn str_writes_base_relative() {
    // STR R4, R2, #1.
    let mut cpu = Lrc3Cpu::new();
    cpu.write_memory(0x3000, 0b0111_100_010_000001);
    cpu.set_register(RegisterName::R2, 0x6000);
    cpu.set_register(RegisterName::R4, 0x0042);
    run(&mut cpu, FETCH_DECODE + 3);
    assert_eq!(cpu.read_memory(0x6001), 0x0042);
}

#[test]
fn br_taken_and_not_taken() {
    // First set Z via AND R0, R0, #0, then BRz #-3.
    let mut cpu = Lrc3Cpu::new();
    cpu.write_memory(0x3000, 0b0101_000_000_1_00000);
    cpu.write_memory(0x3001, 0b0000_010_111111101);
    run(&mut cpu, FETCH_DECODE + 1);
    assert_eq!(cpu.condition_codes(), (false, true, false));
    run(&mut cpu, FETCH_DECODE + 1);
    // Taken: PC = 0x3002 - 3 = 0x2fff.
    assert_eq!(cpu.pc(), 0x2fff);

    // Not taken: BRn with Z set falls through.
    let mut cpu2 = Lrc3Cpu::new();
    cpu2.write_memory(0x3000, 0b0101_000_000_1_00000);
    cpu2.write_memory(0x3001, 0b0000_100_111111101);
    run(&mut cpu2, 2 * (FETCH_DECODE + 1));
    assert_eq!(cpu2.pc(), 0x3002);
}

#[test]
fn jmp_takes_the_base_register_and_pc_wraps_at_fetch() {
    // JMP R2 with R2 = 0xffff, then one more fetch wraps PC to 0.
    let mut cpu = Lrc3Cpu::new();
    cpu.write_memory(0x3000, 0b1100_000_010_000000);
    cpu.set_register(RegisterName::R2, 0xffff);
    run(&mut cpu, FETCH_DECODE + 1);
    assert_eq!(cpu.pc(), 0xffff);
    run(&mut cpu, 2);
    assert_eq!(cpu.pc(), 0x0000);
}

#[test]
fn jsr_links_r7_to_the_following_instruction() {
    // JSR #-4: R7 takes 0x3001, PC takes 0x2ffd.
    let mut cpu = Lrc3Cpu::new();
    cpu.write_memory(0x3000, 0b0100_1_11111111100);
    run(&mut cpu, FETCH_DECODE + 1);
    assert_eq!(cpu.register(RegisterName::R7), 0x3001);
    assert_eq!(cpu.pc(), 0x2ffd);
}

#[test]
fn jsrr_links_r7_and_jumps_to_the_base_register() {
    // JSRR R6 with R6 = 0x4000.
    let mut cpu = Lrc3Cpu::new();
    cpu.write_memory(0x3000, 0b0100_0_00_110_000000);
    cpu.set_register(RegisterName::R6, 0x4000);
    run(&mut cpu, FETCH_DECODE + 1);
    assert_eq!(cpu.register(RegisterName::R7), 0x3001);
    assert_eq!(cpu.pc(), 0x4000);
}

#[test]
fn jsrr_through_r7_jumps_to_the_old_r7() {
    // JSRR R7: the jump target is R7's value before the linkage write.
    let mut cpu = Lrc3Cpu::new();
    cpu.write_memory(0x3000, 0b0100_0_00_111_000000);
    cpu.set_register(RegisterName::R7, 0x5000);
    run(&mut cpu, FETCH_DECODE + 1);
    assert_eq!(cpu.register(RegisterName::R7), 0x3001);
    assert_eq!(cpu.pc(), 0x5000);
}

#[test]
fn trap_vectors_through_low_memory_without_linkage() {
    // TRAP x25 with vector table entry 0x25 -> 0x1234.
    let mut cpu = Lrc3Cpu::new();
    cpu.write_memory(0x3000, 0b1111_0000_00100101);
    cpu.write_memory(0x0025, 0x1234);
    cpu.set_register(RegisterName::R7, 0x7777);
    run(&mut cpu, FETCH_DECODE + 3);
    assert_eq!(cpu.pc(), 0x1234);
    // TRAP clobbers no linkage register.
    assert_eq!(cpu.register(RegisterName::R7), 0x7777);
}

#[test]
fn a_word_that_does_not_decode_faults_the_machine() {
    // The sentinel 0xfe00 at the load point is a TRAP-shaped word whose
    // reserved bits [8,11] are set, so fetching it faults the machine.
    let mut cpu = Lrc3Cpu::new();
    run(&mut cpu, FETCH_DECODE);
    assert_eq!(cpu.micro_state(), Lrc3State::Fault);
    match cpu.last_fault() {
        Some(CpuFault::Decode(Lrc3Error::IllegalOpcode(v))) => {
            assert_eq!((v.lsb, v.msb), (8, 11));
            assert_eq!(v.opcode, "TRAP");
        }
        other => panic!("expected a decode fault, got {:?}", other),
    }
    // A faulted machine stays put.
    let pc = cpu.pc();
    run(&mut cpu, 5);
    assert_eq!(cpu.micro_state(), Lrc3State::Fault);
    assert_eq!(cpu.pc(), pc);
}

#[test]
fn an_unknown_opcode_faults_the_machine() {
    let mut cpu = Lrc3Cpu::new();
    cpu.write_memory(0x3000, 0xD000);
    run(&mut cpu, FETCH_DECODE);
    assert_eq!(cpu.micro_state(), Lrc3State::Fault);
    assert!(matches!(
        cpu.last_fault(),
        Some(CpuFault::Decode(Lrc3Error::UnknownOpcode(_)))
    ));
}

#[test]
fn rti_is_unsupported_and_faults_the_machine() {
    let mut cpu = Lrc3Cpu::new();
    cpu.write_memory(0x3000, 0x8000);
    run(&mut cpu, FETCH_DECODE);
    assert_eq!(cpu.micro_state(), Lrc3State::Fault);
    assert_eq!(cpu.last_fault(), Some(CpuFault::UnsupportedRti));
}

#[test]
fn every_flag_setting_class_leaves_exactly_one_code_set() {
    // Condition-code invariant, exercised across LD, LDR, LDI, ADD, AND,
    // ADDI, ANDI and NOT with results of all three sign classes.
    let programs: [(u16, &[(u16, u16)], &[(RegisterName, u16)], usize); 8] = [
        // LD R4, #16 reading a negative word.
        (0b0010_100_000010000, &[(0x3011, 0x8001)], &[], 3),
        // LDR R4, R2, #1 reading zero.
        (0b0110_100_010_000001, &[], &[(RegisterName::R2, 0x5000)], 3),
        // LDI R4, #16 through a pointer, reading a positive word.
        (0b1010_100_000010000, &[(0x3011, 0x4000), (0x4000, 3)], &[], 5),
        // ADD R3, R5, R1.
        (0b0001_011_101_0_00_001, &[], &[(RegisterName::R5, 1), (RegisterName::R1, 2)], 1),
        // ADDI R3, R5, #-1.
        (0b0001_011_101_1_11111, &[], &[(RegisterName::R5, 1)], 1),
        // AND R3, R5, R1.
        (0b0101_011_101_0_00_001, &[], &[(RegisterName::R5, 0xffff), (RegisterName::R1, 0x8000)], 1),
        // ANDI R3, R5, #0.
        (0b0101_011_101_1_00000, &[], &[(RegisterName::R5, 0xffff)], 1),
        // NOT R3, R5.
        (0b1001_011_101_111111, &[], &[(RegisterName::R5, 0)], 1),
    ];
    for (word, stores, regs, cycles) in programs {
        let mut cpu = Lrc3Cpu::new();
        cpu.write_memory(0x3000, word);
        for (address, value) in stores {
            cpu.write_memory(*address, *value);
        }
        for (reg, value) in regs {
            cpu.set_register(*reg, *value);
        }
        run(&mut cpu, FETCH_DECODE + cycles);
        let (n, z, p) = cpu.condition_codes();
        assert_eq!(u8::from(n) + u8::from(z) + u8::from(p), 1, "word {:#06x}", word);
        assert_eq!(cpu.micro_state(), Lrc3State::FetchMar);
    }
}
