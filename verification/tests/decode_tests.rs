use lrc3::isa::{
    BaseRArgs, BranchArgs, BranchFlag, Imm5, ImmedArithArgs, Instruction, JsrArgs, LdArgs,
    LdrArgs, Lrc3Error, Offset6, OneSourceArithArgs, PcOffset9, PcOffset11, StArgs, TrapArgs,
    TrapVect, TwoSourceArithArgs,
};
use lrc3::registers::{Register, RegisterContents, RegisterName};

#[test]
fn decode_is_total_and_deterministic() {
    // Round-trip over the whole input space: every one of the 65536
    // possible words decodes, without a panic, to Ok or to one of the two
    // specific error variants, and a second decode agrees with the first.
    for bits in u16::MIN..=u16::MAX {
        let first = Instruction::decode_bits(bits);
        let second = Instruction::decode_bits(bits);
        assert_eq!(first, second);
        match first {
            Ok(_) => {}
            Err(Lrc3Error::IllegalOpcode(v)) => {
                assert!(v.lsb <= v.msb && v.msb < 16);
            }
            Err(Lrc3Error::UnknownOpcode(u)) => {
                assert_eq!(u.bits, bits);
                assert!(u.opcode == 0b1101 || u.opcode == 0b1000);
            }
            Err(Lrc3Error::ProgrammingError()) => {
                panic!("decode never reports an internal error");
            }
        }
    }
}

#[test]
fn decode_valid_add_register_mode() {
    let decoded = Instruction::decode_bits(0b0001_011_101_0_00_001).unwrap();
    assert_eq!(
        decoded,
        Instruction::Add(TwoSourceArithArgs {
            dr: RegisterName::R3,
            sr1: RegisterName::R5,
            sr2: RegisterName::R1,
        })
    );
}

#[test]
fn decode_valid_add_immediate_mode() {
    // imm5 bit pattern 11001 is -7 once sign-extended from bit 4.
    let decoded = Instruction::decode_bits(0b0001_011_101_1_11001).unwrap();
    assert_eq!(
        decoded,
        Instruction::Addi(ImmedArithArgs {
            dr: RegisterName::R3,
            sr1: RegisterName::R5,
            imm5: Imm5(0xfff9),
        })
    );
    if let Instruction::Addi(args) = decoded {
        assert_eq!(args.imm5.0 as i16, -7);
    }
}

#[test]
fn decode_rejects_add_with_reserved_bits_set() {
    // ADD register mode with bits [3,4] nonzero.
    let err = Instruction::decode_bits(0b0001_011_101_0_01_001).unwrap_err();
    match err {
        Lrc3Error::IllegalOpcode(v) => {
            assert_eq!(v.lsb, 3);
            assert_eq!(v.msb, 4);
            assert_eq!(v.expected, RegisterContents(0));
            assert_eq!(v.actual, RegisterContents(0b01));
            assert_eq!(v.opcode, "ADD");
            assert_eq!(v.width, 2);
            assert_eq!(v.mask, 0b11000);
        }
        other => panic!("expected an illegal-opcode report, got {:?}", other),
    }
}

#[test]
fn decode_rejects_not_with_wrong_low_bits() {
    // NOT requires bits [0,5] == 0b111111; here they hold 0b111011.
    let err = Instruction::decode_bits(0b1001_011_101_111011).unwrap_err();
    match err {
        Lrc3Error::IllegalOpcode(v) => {
            assert_eq!(v.lsb, 0);
            assert_eq!(v.msb, 5);
            assert_eq!(v.expected, RegisterContents(0b111111));
            assert_eq!(v.actual, RegisterContents(0b111011));
            assert_eq!(v.opcode, "NOT");
        }
        other => panic!("expected an illegal-opcode report, got {:?}", other),
    }
}

#[test]
fn decode_valid_not() {
    let decoded = Instruction::decode_bits(0b1001_011_101_111111).unwrap();
    assert_eq!(
        decoded,
        Instruction::Not(OneSourceArithArgs { dr: RegisterName::R3, sr: RegisterName::R5 })
    );
}

#[test]
fn decode_valid_and_both_modes() {
    let reg = Instruction::decode_bits(0b0101_001_010_0_00_011).unwrap();
    assert_eq!(
        reg,
        Instruction::And(TwoSourceArithArgs {
            dr: RegisterName::R1,
            sr1: RegisterName::R2,
            sr2: RegisterName::R3,
        })
    );
    let imm = Instruction::decode_bits(0b0101_001_010_1_00000).unwrap();
    assert_eq!(
        imm,
        Instruction::Andi(ImmedArithArgs {
            dr: RegisterName::R1,
            sr1: RegisterName::R2,
            imm5: Imm5(0),
        })
    );
}

#[test]
fn decode_rejects_and_with_reserved_bits_set() {
    let err = Instruction::decode_bits(0b0101_001_010_0_10_011).unwrap_err();
    match err {
        Lrc3Error::IllegalOpcode(v) => {
            assert_eq!((v.lsb, v.msb), (3, 4));
            assert_eq!(v.actual, RegisterContents(0b10));
            assert_eq!(v.opcode, "AND");
        }
        other => panic!("expected an illegal-opcode report, got {:?}", other),
    }
}

#[test]
fn decode_branch_keeps_polarity_bits_and_offset() {
    let decoded = Instruction::decode_bits(0b0000_101_110010001).unwrap();
    assert_eq!(
        decoded,
        Instruction::Br(BranchArgs {
            n: BranchFlag(true),
            z: BranchFlag(false),
            p: BranchFlag(true),
            pcoffset9: PcOffset9(0b1111111110010001),
        })
    );
}

#[test]
fn decode_jmp_and_its_reserved_bits() {
    let decoded = Instruction::decode_bits(0b1100_000_010_000000).unwrap();
    assert_eq!(decoded, Instruction::Jmp(BaseRArgs { base_r: RegisterName::R2 }));

    let low = Instruction::decode_bits(0b1100_000_010_000100).unwrap_err();
    match low {
        Lrc3Error::IllegalOpcode(v) => {
            assert_eq!((v.lsb, v.msb), (0, 5));
            assert_eq!(v.opcode, "JMP");
        }
        other => panic!("expected an illegal-opcode report, got {:?}", other),
    }
    let high = Instruction::decode_bits(0b1100_010_010_000000).unwrap_err();
    match high {
        Lrc3Error::IllegalOpcode(v) => {
            assert_eq!((v.lsb, v.msb), (9, 11));
            assert_eq!(v.actual, RegisterContents(0b010));
            assert_eq!(v.opcode, "JMP");
        }
        other => panic!("expected an illegal-opcode report, got {:?}", other),
    }
}

#[test]
fn decode_jsr_and_jsrr() {
    let jsr = Instruction::decode_bits(0b0100_1_11111111100).unwrap();
    assert_eq!(jsr, Instruction::Jsr(JsrArgs { pcoffset11: PcOffset11(0xfffc) }));

    let jsrr = Instruction::decode_bits(0b0100_0_00_110_000000).unwrap();
    assert_eq!(jsrr, Instruction::Jsrr(BaseRArgs { base_r: RegisterName::R6 }));

    let bad_low = Instruction::decode_bits(0b0100_0_00_110_000001).unwrap_err();
    match bad_low {
        Lrc3Error::IllegalOpcode(v) => {
            assert_eq!((v.lsb, v.msb), (0, 5));
            assert_eq!(v.opcode, "JSRR");
        }
        other => panic!("expected an illegal-opcode report, got {:?}", other),
    }
    let bad_high = Instruction::decode_bits(0b0100_0_01_110_000000).unwrap_err();
    match bad_high {
        Lrc3Error::IllegalOpcode(v) => {
            assert_eq!((v.lsb, v.msb), (9, 10));
            assert_eq!(v.opcode, "JSRR");
        }
        other => panic!("expected an illegal-opcode report, got {:?}", other),
    }
}

#[test]
fn decode_load_and_store_class() {
    let ld = Instruction::decode_bits(0b0010_100_000010000).unwrap();
    assert_eq!(
        ld,
        Instruction::Ld(LdArgs { dr: RegisterName::R4, pcoffset9: PcOffset9(0b10000) })
    );

    let ldr = Instruction::decode_bits(0b0110_100_010_110111).unwrap();
    assert_eq!(
        ldr,
        Instruction::Ldr(LdrArgs {
            dr: RegisterName::R4,
            base_r: RegisterName::R2,
            offset6: Offset6(0xfff7),
        })
    );

    let st = Instruction::decode_bits(0b0011_100_000000001).unwrap();
    assert_eq!(st, Instruction::St(StArgs { sr: RegisterName::R4, offset9: PcOffset9(1) }));

    assert!(matches!(
        Instruction::decode_bits(0b1010_100_000010000).unwrap(),
        Instruction::Ldi(_)
    ));
    assert!(matches!(
        Instruction::decode_bits(0b1011_100_000010000).unwrap(),
        Instruction::Sti(_)
    ));
    assert!(matches!(
        Instruction::decode_bits(0b0111_100_010_110111).unwrap(),
        Instruction::Str(_)
    ));
    assert!(matches!(
        Instruction::decode_bits(0b1110_100_000010000).unwrap(),
        Instruction::Lea(_)
    ));
}

#[test]
fn decode_trap_and_its_reserved_bits() {
    let trap = Instruction::decode_bits(0b1111_0000_00100101).unwrap();
    assert_eq!(trap, Instruction::Trap(TrapArgs { trapvect8: TrapVect(0x25) }));

    let err = Instruction::decode_bits(0b1111_0100_00100101).unwrap_err();
    match err {
        Lrc3Error::IllegalOpcode(v) => {
            assert_eq!((v.lsb, v.msb), (8, 11));
            assert_eq!(v.opcode, "TRAP");
        }
        other => panic!("expected an illegal-opcode report, got {:?}", other),
    }
}

#[test]
fn decode_rti_and_the_unassigned_nibbles() {
    assert_eq!(Instruction::decode_bits(0x8000).unwrap(), Instruction::Rti());

    match Instruction::decode_bits(0x8001).unwrap_err() {
        Lrc3Error::UnknownOpcode(u) => {
            assert_eq!(u.opcode, 0b1000);
            assert_eq!(u.bits, 0x8001);
        }
        other => panic!("expected an unknown-opcode report, got {:?}", other),
    }
    match Instruction::decode_bits(0xD123).unwrap_err() {
        Lrc3Error::UnknownOpcode(u) => {
            assert_eq!(u.opcode, 0b1101);
            assert_eq!(u.bits, 0xD123);
        }
        other => panic!("expected an unknown-opcode report, got {:?}", other),
    }
}

#[test]
fn decode_ir_accepts_only_the_instruction_register() {
    let ir = Register::ir_from_bits(0b0001_011_101_0_00_001);
    let decoded = Instruction::decode_ir(&ir);
    assert_eq!(
        decoded,
        Instruction::Add(TwoSourceArithArgs {
            dr: RegisterName::R3,
            sr1: RegisterName::R5,
            sr2: RegisterName::R1,
        })
    );
}

#[test]
fn offsets_mask_back_to_their_raw_fields() {
    assert_eq!(PcOffset9::new(0b110010001).masked(), 0b110010001);
    assert_eq!(PcOffset9::new(0b110010001).0, 0b1111111110010001);
    assert_eq!(PcOffset11::new(0b11111111100).masked(), 0b11111111100);
    assert_eq!(Offset6::new(0b110111).masked(), 0b110111);
    assert_eq!(Offset6::new(0b110111).0 as i16, -9);
}
