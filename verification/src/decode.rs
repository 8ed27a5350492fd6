//! Instruction decoding: from an opcode byte to the instruction it stands
//! for. Fixed encodings are recognised first, then the encodings with
//! register, condition or operation fields.

use vstd::prelude::*;

verus! {

/// The instructions of the processor. Field values are the raw bit fields of
/// the opcode: `rp` selects a register pair, `ddd` and `sss` a register,
/// `cc` a condition, `alu` an accumulator operation, `n` a restart vector.
#[derive(Clone, Copy, Debug, PartialEq, Eq, Structural)]
pub enum Instruction {
    Rlc,
    Rrc,
    Ral,
    Rar,
    Shld,
    Daa,
    Lhld,
    Cma,
    Sta,
    Stc,
    Lda,
    Cmc,
    Hlt,
    Jmp,
    Ret,
    Call,
    Out,
    In,
    Xthl,
    Pchl,
    Xchg,
    Di,
    Sphl,
    Ei,
    Nop,
    Lxi { rp: u8 },
    Stax { rp: u8 },
    Inx { rp: u8 },
    Inr { ddd: u8 },
    Dcr { ddd: u8 },
    Mvi { ddd: u8 },
    Dad { rp: u8 },
    Ldax { rp: u8 },
    Dcx { rp: u8 },
    Mov { ddd: u8, sss: u8 },
    Alu { alu: u8, sss: u8 },
    Rcc { cc: u8 },
    Pop { rp: u8 },
    Jcc { cc: u8 },
    Ccc { cc: u8 },
    Push { rp: u8 },
    AluImm { alu: u8 },
    Rst { n: u8 },
    /// A byte that matches no encoding.
    Invalid,
}

/// The register-pair field of an opcode.
pub open spec fn rp_field(op: u8) -> u8 {
    (op >> 4) & 0x3
}

/// The destination-register field of an opcode; it also carries the
/// condition code, the accumulator operation and the restart vector.
pub open spec fn ddd_field(op: u8) -> u8 {
    (op >> 3) & 0x7
}

/// The source-register field of an opcode.
pub open spec fn sss_field(op: u8) -> u8 {
    op & 0x7
}

/// The instruction that an opcode byte encodes.
pub open spec fn instruction_of(op: u8) -> Instruction {
    if op == 0x07 {
        Instruction::Rlc
    } else if op == 0x0F {
        Instruction::Rrc
    } else if op == 0x17 {
        Instruction::Ral
    } else if op == 0x1F {
        Instruction::Rar
    } else if op == 0x22 {
        Instruction::Shld
    } else if op == 0x27 {
        Instruction::Daa
    } else if op == 0x2A {
        Instruction::Lhld
    } else if op == 0x2F {
        Instruction::Cma
    } else if op == 0x32 {
        Instruction::Sta
    } else if op == 0x37 {
        Instruction::Stc
    } else if op == 0x3A {
        Instruction::Lda
    } else if op == 0x3F {
        Instruction::Cmc
    } else if op == 0x76 {
        Instruction::Hlt
    } else if op == 0xC3 || op == 0xCB {
        Instruction::Jmp
    } else if op == 0xC9 || op == 0xD9 {
        Instruction::Ret
    } else if op == 0xCD || op == 0xDD || op == 0xED || op == 0xFD {
        Instruction::Call
    } else if op == 0xD3 {
        Instruction::Out
    } else if op == 0xDB {
        Instruction::In
    } else if op == 0xE3 {
        Instruction::Xthl
    } else if op == 0xE9 {
        Instruction::Pchl
    } else if op == 0xEB {
        Instruction::Xchg
    } else if op == 0xF3 {
        Instruction::Di
    } else if op == 0xF9 {
        Instruction::Sphl
    } else if op == 0xFB {
        Instruction::Ei
    } else if op & 0xCF == 0x00 || op & 0xCF == 0x08 {
        Instruction::Nop
    } else if op & 0xCF == 0x01 {
        Instruction::Lxi { rp: rp_field(op) }
    } else if op & 0xCF == 0x02 {
        Instruction::Stax { rp: rp_field(op) }
    } else if op & 0xCF == 0x03 {
        Instruction::Inx { rp: rp_field(op) }
    } else if op & 0xC7 == 0x04 {
        Instruction::Inr { ddd: ddd_field(op) }
    } else if op & 0xC7 == 0x05 {
        Instruction::Dcr { ddd: ddd_field(op) }
    } else if op & 0xC7 == 0x06 {
        Instruction::Mvi { ddd: ddd_field(op) }
    } else if op & 0xCF == 0x09 {
        Instruction::Dad { rp: rp_field(op) }
    } else if op & 0xCF == 0x0A {
        Instruction::Ldax { rp: rp_field(op) }
    } else if op & 0xCF == 0x0B {
        Instruction::Dcx { rp: rp_field(op) }
    } else if op & 0xC0 == 0x40 {
        Instruction::Mov { ddd: ddd_field(op), sss: sss_field(op) }
    } else if op & 0xC0 == 0x80 {
        Instruction::Alu { alu: ddd_field(op), sss: sss_field(op) }
    } else if op & 0xC7 == 0xC0 {
        Instruction::Rcc { cc: ddd_field(op) }
    } else if op & 0xCF == 0xC1 {
        Instruction::Pop { rp: rp_field(op) }
    } else if op & 0xC7 == 0xC2 {
        Instruction::Jcc { cc: ddd_field(op) }
    } else if op & 0xC7 == 0xC4 {
        Instruction::Ccc { cc: ddd_field(op) }
    } else if op & 0xCF == 0xC5 {
        Instruction::Push { rp: rp_field(op) }
    } else if op & 0xC7 == 0xC6 {
        Instruction::AluImm { alu: ddd_field(op) }
    } else if op & 0xC7 == 0xC7 {
        Instruction::Rst { n: ddd_field(op) }
    } else {
        Instruction::Invalid
    }
}

/// How many operand bytes follow the opcode of an instruction.
pub open spec fn operand_count(ins: Instruction) -> nat {
    match ins {
        Instruction::Shld
        | Instruction::Lhld
        | Instruction::Sta
        | Instruction::Lda
        | Instruction::Jmp
        | Instruction::Call
        | Instruction::Lxi { .. }
        | Instruction::Jcc { .. }
        | Instruction::Ccc { .. } => 2,
        Instruction::Out | Instruction::In | Instruction::Mvi { .. } | Instruction::AluImm { .. } => 1,
        _ => 0,
    }
}

/// How many operand bytes follow the opcode of an instruction.
pub fn operand_len(ins: Instruction) -> (n: usize)
    ensures
        n == operand_count(ins),
{
    match ins {
        Instruction::Shld
        | Instruction::Lhld
        | Instruction::Sta
        | Instruction::Lda
        | Instruction::Jmp
        | Instruction::Call
        | Instruction::Lxi { .. }
        | Instruction::Jcc { .. }
        | Instruction::Ccc { .. } => 2,
        Instruction::Out | Instruction::In | Instruction::Mvi { .. } | Instruction::AluImm { .. } => 1,
        _ => 0,
    }
}

/// The fields of the instruction stay within the width of their bit fields,
/// and a store or load through a register pair names BC or DE.
pub open spec fn fields_in_range(ins: Instruction) -> bool {
    match ins {
        Instruction::Lxi { rp }
        | Instruction::Inx { rp }
        | Instruction::Dad { rp }
        | Instruction::Dcx { rp }
        | Instruction::Pop { rp }
        | Instruction::Push { rp } => rp < 4,
        Instruction::Stax { rp } | Instruction::Ldax { rp } => rp < 2,
        Instruction::Inr { ddd } | Instruction::Dcr { ddd } | Instruction::Mvi { ddd } => ddd < 8,
        Instruction::Mov { ddd, sss } => ddd < 8 && sss < 8 && !(ddd == 6 && sss == 6),
        Instruction::Alu { alu, sss } => alu < 8 && sss < 8,
        Instruction::Rcc { cc } | Instruction::Jcc { cc } | Instruction::Ccc { cc } => cc < 8,
        Instruction::AluImm { alu } => alu < 8,
        Instruction::Rst { n } => n < 8,
        _ => true,
    }
}

proof fn lemma_patterns_cover(op: u8)
    by (bit_vector)
    ensures
        op & 0xC0 == 0x40 || op & 0xC0 == 0x80 || op & 0xCF == 0x00 || op & 0xCF == 0x08 || op
            & 0xCF == 0x01 || op & 0xCF == 0x09 || op & 0xCF == 0x02 || op & 0xCF == 0x0A || op
            == 0x22 || op == 0x2A || op == 0x32 || op == 0x3A || op & 0xCF == 0x03 || op & 0xCF
            == 0x0B || op & 0xC7 == 0x04 || op & 0xC7 == 0x05 || op & 0xC7 == 0x06 || op == 0x07
            || op == 0x0F || op == 0x17 || op == 0x1F || op == 0x27 || op == 0x2F || op == 0x37
            || op == 0x3F || op & 0xC7 == 0xC0 || op & 0xCF == 0xC1 || op == 0xC9 || op == 0xD9
            || op == 0xE9 || op == 0xF9 || op & 0xC7 == 0xC2 || op == 0xC3 || op == 0xCB || op
            == 0xD3 || op == 0xDB || op == 0xE3 || op == 0xEB || op == 0xF3 || op == 0xFB || op
            & 0xC7 == 0xC4 || op & 0xCF == 0xC5 || op == 0xCD || op == 0xDD || op == 0xED || op
            == 0xFD || op & 0xC7 == 0xC6 || op & 0xC7 == 0xC7,
{
}

proof fn lemma_field_ranges(op: u8)
    by (bit_vector)
    ensures
        (op >> 4) & 0x3 < 4,
        (op >> 3) & 0x7 < 8,
        op & 0x7 < 8,
        op & 0xCF == 0x02 && op != 0x22 && op != 0x32 ==> (op >> 4) & 0x3 < 2,
        op & 0xCF == 0x0A && op != 0x2A && op != 0x3A ==> (op >> 4) & 0x3 < 2,
        op & 0xC0 == 0x40 && op != 0x76 ==> !((op >> 3) & 0x7 == 6 && op & 0x7 == 6),
{
}

/// Every byte is the opcode of an instruction, and the fields of that
/// instruction are in range.
pub proof fn lemma_decode_total(op: u8)
    ensures
        instruction_of(op) != Instruction::Invalid,
        fields_in_range(instruction_of(op)),
{
    lemma_patterns_cover(op);
    lemma_field_ranges(op);
}

/// Decodes an opcode byte.
pub fn decode(op: u8) -> (ins: Instruction)
    ensures
        ins == instruction_of(op),
        ins != Instruction::Invalid,
        fields_in_range(ins),
{
    proof {
        lemma_decode_total(op);
    }
    let rp: u8 = (op >> 4) & 0x3;
    let ddd: u8 = (op >> 3) & 0x7;
    let sss: u8 = op & 0x7;
    if op == 0x07 {
        Instruction::Rlc
    } else if op == 0x0F {
        Instruction::Rrc
    } else if op == 0x17 {
        Instruction::Ral
    } else if op == 0x1F {
        Instruction::Rar
    } else if op == 0x22 {
        Instruction::Shld
    } else if op == 0x27 {
        Instruction::Daa
    } else if op == 0x2A {
        Instruction::Lhld
    } else if op == 0x2F {
        Instruction::Cma
    } else if op == 0x32 {
        Instruction::Sta
    } else if op == 0x37 {
        Instruction::Stc
    } else if op == 0x3A {
        Instruction::Lda
    } else if op == 0x3F {
        Instruction::Cmc
    } else if op == 0x76 {
        Instruction::Hlt
    } else if op == 0xC3 || op == 0xCB {
        Instruction::Jmp
    } else if op == 0xC9 || op == 0xD9 {
        Instruction::Ret
    } else if op == 0xCD || op == 0xDD || op == 0xED || op == 0xFD {
        Instruction::Call
    } else if op == 0xD3 {
        Instruction::Out
    } else if op == 0xDB {
        Instruction::In
    } else if op == 0xE3 {
        Instruction::Xthl
    } else if op == 0xE9 {
        Instruction::Pchl
    } else if op == 0xEB {
        Instruction::Xchg
    } else if op == 0xF3 {
        Instruction::Di
    } else if op == 0xF9 {
        Instruction::Sphl
    } else if op == 0xFB {
        Instruction::Ei
    } else if op & 0xCF == 0x00 || op & 0xCF == 0x08 {
        Instruction::Nop
    } else if op & 0xCF == 0x01 {
        Instruction::Lxi { rp }
    } else if op & 0xCF == 0x02 {
        Instruction::Stax { rp }
    } else if op & 0xCF == 0x03 {
        Instruction::Inx { rp }
    } else if op & 0xC7 == 0x04 {
        Instruction::Inr { ddd }
    } else if op & 0xC7 == 0x05 {
        Instruction::Dcr { ddd }
    } else if op & 0xC7 == 0x06 {
        Instruction::Mvi { ddd }
    } else if op & 0xCF == 0x09 {
        Instruction::Dad { rp }
    } else if op & 0xCF == 0x0A {
        Instruction::Ldax { rp }
    } else if op & 0xCF == 0x0B {
        Instruction::Dcx { rp }
    } else if op & 0xC0 == 0x40 {
        Instruction::Mov { ddd, sss }
    } else if op & 0xC0 == 0x80 {
        Instruction::Alu { alu: ddd, sss }
    } else if op & 0xC7 == 0xC0 {
        Instruction::Rcc { cc: ddd }
    } else if op & 0xCF == 0xC1 {
        Instruction::Pop { rp }
    } else if op & 0xC7 == 0xC2 {
        Instruction::Jcc { cc: ddd }
    } else if op & 0xC7 == 0xC4 {
        Instruction::Ccc { cc: ddd }
    } else if op & 0xCF == 0xC5 {
        Instruction::Push { rp }
    } else if op & 0xC7 == 0xC6 {
        Instruction::AluImm { alu: ddd }
    } else if op & 0xC7 == 0xC7 {
        Instruction::Rst { n: ddd }
    } else {
        Instruction::Invalid
    }
}

} // verus!
