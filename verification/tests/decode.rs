use emu8080::decode::{decode, operand_len, Instruction};

#[test]
fn every_byte_is_an_opcode() {
    for op in 0..=255u8 {
        assert_ne!(decode(op), Instruction::Invalid, "opcode {:#x}", op);
    }
}

#[test]
fn fixed_encodings_come_before_field_encodings() {
    assert_eq!(decode(0x07), Instruction::Rlc);
    assert_eq!(decode(0x0F), Instruction::Rrc);
    assert_eq!(decode(0x17), Instruction::Ral);
    assert_eq!(decode(0x1F), Instruction::Rar);
    assert_eq!(decode(0x22), Instruction::Shld);
    assert_eq!(decode(0x27), Instruction::Daa);
    assert_eq!(decode(0x2A), Instruction::Lhld);
    assert_eq!(decode(0x2F), Instruction::Cma);
    assert_eq!(decode(0x32), Instruction::Sta);
    assert_eq!(decode(0x37), Instruction::Stc);
    assert_eq!(decode(0x3A), Instruction::Lda);
    assert_eq!(decode(0x3F), Instruction::Cmc);
    assert_eq!(decode(0x76), Instruction::Hlt);
    assert_eq!(decode(0xC9), Instruction::Ret);
    assert_eq!(decode(0xE9), Instruction::Pchl);
    assert_eq!(decode(0xF9), Instruction::Sphl);
    assert_eq!(decode(0xC3), Instruction::Jmp);
    assert_eq!(decode(0xD3), Instruction::Out);
    assert_eq!(decode(0xDB), Instruction::In);
    assert_eq!(decode(0xE3), Instruction::Xthl);
    assert_eq!(decode(0xEB), Instruction::Xchg);
    assert_eq!(decode(0xF3), Instruction::Di);
    assert_eq!(decode(0xFB), Instruction::Ei);
    assert_eq!(decode(0xCD), Instruction::Call);
}

#[test]
fn alternate_encodings_are_accepted() {
    for op in [0x00u8, 0x08, 0x10, 0x18, 0x20, 0x28, 0x30, 0x38] {
        assert_eq!(decode(op), Instruction::Nop);
    }
    assert_eq!(decode(0xCB), Instruction::Jmp);
    assert_eq!(decode(0xD9), Instruction::Ret);
    for op in [0xDDu8, 0xED, 0xFD] {
        assert_eq!(decode(op), Instruction::Call);
    }
}

#[test]
fn fields_are_taken_from_the_opcode() {
    assert_eq!(decode(0x01), Instruction::Lxi { rp: 0 });
    assert_eq!(decode(0x31), Instruction::Lxi { rp: 3 });
    assert_eq!(decode(0x02), Instruction::Stax { rp: 0 });
    assert_eq!(decode(0x12), Instruction::Stax { rp: 1 });
    assert_eq!(decode(0x0A), Instruction::Ldax { rp: 0 });
    assert_eq!(decode(0x1A), Instruction::Ldax { rp: 1 });
    assert_eq!(decode(0x23), Instruction::Inx { rp: 2 });
    assert_eq!(decode(0x3B), Instruction::Dcx { rp: 3 });
    assert_eq!(decode(0x19), Instruction::Dad { rp: 1 });
    assert_eq!(decode(0x34), Instruction::Inr { ddd: 6 });
    assert_eq!(decode(0x3D), Instruction::Dcr { ddd: 7 });
    assert_eq!(decode(0x0E), Instruction::Mvi { ddd: 1 });
    assert_eq!(decode(0x41), Instruction::Mov { ddd: 0, sss: 1 });
    assert_eq!(decode(0x77), Instruction::Mov { ddd: 6, sss: 7 });
    assert_eq!(decode(0x7E), Instruction::Mov { ddd: 7, sss: 6 });
    assert_eq!(decode(0x80), Instruction::Alu { alu: 0, sss: 0 });
    assert_eq!(decode(0xBE), Instruction::Alu { alu: 7, sss: 6 });
    assert_eq!(decode(0xC0), Instruction::Rcc { cc: 0 });
    assert_eq!(decode(0xF8), Instruction::Rcc { cc: 7 });
    assert_eq!(decode(0xC1), Instruction::Pop { rp: 0 });
    assert_eq!(decode(0xF1), Instruction::Pop { rp: 3 });
    assert_eq!(decode(0xDA), Instruction::Jcc { cc: 3 });
    assert_eq!(decode(0xE4), Instruction::Ccc { cc: 4 });
    assert_eq!(decode(0xF5), Instruction::Push { rp: 3 });
    assert_eq!(decode(0xE6), Instruction::AluImm { alu: 4 });
    assert_eq!(decode(0xCF), Instruction::Rst { n: 1 });
    assert_eq!(decode(0xFF), Instruction::Rst { n: 7 });
}

#[test]
fn operand_lengths() {
    let mut one = 0;
    let mut two = 0;
    for op in 0..=255u8 {
        match operand_len(decode(op)) {
            0 => {},
            1 => one += 1,
            2 => two += 1,
            n => panic!("length {}", n),
        }
    }
    assert_eq!(one, 8 + 8 + 2);
    assert_eq!(two, 4 + 4 + 2 + 8 + 4 + 8);
    assert_eq!(operand_len(Instruction::Mvi { ddd: 0 }), 1);
    assert_eq!(operand_len(Instruction::Lxi { rp: 0 }), 2);
    assert_eq!(operand_len(Instruction::Invalid), 0);
    assert_eq!(operand_len(Instruction::Rst { n: 3 }), 0);
}
