//! A disassembler over a byte buffer. It walks the bytes as the processor
//! would fetch them and gives one line of text per instruction: the address
//! in hex, the mnemonic, and the operand bytes as two hex digits each, in the
//! order in which they stand in the buffer.

use vstd::prelude::*;
use vstd::string::*;
use crate::decode::{
    decode, instruction_of, lemma_decode_total, operand_count, operand_len, Instruction,
};

verus! {

/// The text of one hex digit.
pub open spec fn hex_digit(d: int) -> Seq<char> {
    if d == 0 {
        "0"@
    } else if d == 1 {
        "1"@
    } else if d == 2 {
        "2"@
    } else if d == 3 {
        "3"@
    } else if d == 4 {
        "4"@
    } else if d == 5 {
        "5"@
    } else if d == 6 {
        "6"@
    } else if d == 7 {
        "7"@
    } else if d == 8 {
        "8"@
    } else if d == 9 {
        "9"@
    } else if d == 10 {
        "a"@
    } else if d == 11 {
        "b"@
    } else if d == 12 {
        "c"@
    } else if d == 13 {
        "d"@
    } else if d == 14 {
        "e"@
    } else {
        "f"@
    }
}

/// A byte as two hex digits.
pub open spec fn hex2(b: u8) -> Seq<char> {
    hex_digit(b as int / 16) + hex_digit(b as int % 16)
}

/// A number in hex, without leading zeros.
pub open spec fn hex(n: nat) -> Seq<char>
    decreases n,
{
    if n < 16 {
        hex_digit(n as int)
    } else {
        hex(n / 16) + hex_digit(n as int % 16)
    }
}

/// A number in binary, without leading zeros.
pub open spec fn binary(n: nat) -> Seq<char>
    decreases n,
{
    if n < 2 {
        hex_digit(n as int)
    } else {
        binary(n / 2) + hex_digit(n as int % 2)
    }
}

/// The name of the register selected by a three-bit field.
pub open spec fn register_text(r: u8) -> Seq<char> {
    if r == 0 {
        "B"@
    } else if r == 1 {
        "C"@
    } else if r == 2 {
        "D"@
    } else if r == 3 {
        "E"@
    } else if r == 4 {
        "H"@
    } else if r == 5 {
        "L"@
    } else if r == 6 {
        "M"@
    } else if r == 7 {
        "A"@
    } else {
        "?"@
    }
}

/// The name of the register pair selected by a two-bit field, for data
/// movement.
pub open spec fn pair_text(rp: u8) -> Seq<char> {
    if rp == 0 {
        "BC"@
    } else if rp == 1 {
        "DE"@
    } else if rp == 2 {
        "HL"@
    } else if rp == 3 {
        "SP"@
    } else {
        "?"@
    }
}

/// The name of the register pair selected by a two-bit field, for stack
/// operations.
pub open spec fn stack_pair_text(rp: u8) -> Seq<char> {
    if rp == 3 {
        "PSW"@
    } else {
        pair_text(rp)
    }
}

/// The name of the condition selected by a three-bit code.
pub open spec fn condition_text(cc: u8) -> Seq<char> {
    if cc == 0 {
        "NZ"@
    } else if cc == 1 {
        "Z"@
    } else if cc == 2 {
        "NC"@
    } else if cc == 3 {
        "C"@
    } else if cc == 4 {
        "PO"@
    } else if cc == 5 {
        "PE"@
    } else if cc == 6 {
        "P"@
    } else if cc == 7 {
        "M"@
    } else {
        "?"@
    }
}

/// The mnemonic of the accumulator operation on a register.
pub open spec fn alu_text(alu: u8) -> Seq<char> {
    if alu == 0 {
        "ADD"@
    } else if alu == 1 {
        "ADC"@
    } else if alu == 2 {
        "SUB"@
    } else if alu == 3 {
        "SBB"@
    } else if alu == 4 {
        "ANA"@
    } else if alu == 5 {
        "XRA"@
    } else if alu == 6 {
        "ORA"@
    } else if alu == 7 {
        "CMP"@
    } else {
        "?"@
    }
}

/// The mnemonic of the accumulator operation on an immediate byte.
pub open spec fn alu_immediate_text(alu: u8) -> Seq<char> {
    if alu == 0 {
        "ADI"@
    } else if alu == 1 {
        "ACI"@
    } else if alu == 2 {
        "SUI"@
    } else if alu == 3 {
        "SBI"@
    } else if alu == 4 {
        "ANI"@
    } else if alu == 5 {
        "XRI"@
    } else if alu == 6 {
        "ORI"@
    } else if alu == 7 {
        "CPI"@
    } else {
        "?"@
    }
}

/// The mnemonic of an instruction with its register, pair, condition or
/// vector, but without operand bytes.
pub open spec fn mnemonic(ins: Instruction) -> Seq<char> {
    match ins {
        Instruction::Rlc => "RLC"@,
        Instruction::Rrc => "RRC"@,
        Instruction::Ral => "RAL"@,
        Instruction::Rar => "RAR"@,
        Instruction::Shld => "SHLD"@,
        Instruction::Daa => "DAA"@,
        Instruction::Lhld => "LHLD"@,
        Instruction::Cma => "CMA"@,
        Instruction::Sta => "STA"@,
        Instruction::Stc => "STC"@,
        Instruction::Lda => "LDA"@,
        Instruction::Cmc => "CMC"@,
        Instruction::Hlt => "HLT"@,
        Instruction::Jmp => "JMP"@,
        Instruction::Ret => "RET"@,
        Instruction::Call => "CALL"@,
        Instruction::Out => "OUT"@,
        Instruction::In => "IN"@,
        Instruction::Xthl => "XTHL"@,
        Instruction::Pchl => "PCHL"@,
        Instruction::Xchg => "XCHG"@,
        Instruction::Di => "DI"@,
        Instruction::Sphl => "SPHL"@,
        Instruction::Ei => "EI"@,
        Instruction::Nop => "NOP"@,
        Instruction::Lxi { rp } => "LXI "@ + pair_text(rp),
        Instruction::Stax { rp } => "STAX "@ + pair_text(rp),
        Instruction::Inx { rp } => "INX "@ + pair_text(rp),
        Instruction::Inr { ddd } => "INR "@ + register_text(ddd),
        Instruction::Dcr { ddd } => "DCR "@ + register_text(ddd),
        Instruction::Mvi { ddd } => "MVI "@ + register_text(ddd),
        Instruction::Dad { rp } => "DAD "@ + pair_text(rp),
        Instruction::Ldax { rp } => "LDAX "@ + pair_text(rp),
        Instruction::Dcx { rp } => "DCX "@ + pair_text(rp),
        Instruction::Mov { ddd, sss } => "MOV "@ + register_text(ddd) + ","@ + register_text(sss),
        Instruction::Alu { alu, sss } => alu_text(alu) + " "@ + register_text(sss),
        Instruction::Rcc { cc } => "R"@ + condition_text(cc),
        Instruction::Pop { rp } => "POP "@ + stack_pair_text(rp),
        Instruction::Jcc { cc } => "J"@ + condition_text(cc),
        Instruction::Ccc { cc } => "C"@ + condition_text(cc),
        Instruction::Push { rp } => "PUSH "@ + stack_pair_text(rp),
        Instruction::AluImm { alu } => alu_immediate_text(alu),
        Instruction::Rst { n } => "RST "@ + hex_digit(n as int),
        Instruction::Invalid => "invalid opcode:"@,
    }
}

/// The text of the operand bytes that follow a mnemonic. A two-byte operand
/// is marked with `$`. Bytes that the buffer no longer holds are left out.
pub open spec fn operand_text(count: nat, operands: Seq<u8>) -> Seq<char> {
    if operands.len() == 0 {
        Seq::empty()
    } else if count == 2 {
        if operands.len() >= 2 {
            " $"@ + hex2(operands[0]) + " "@ + hex2(operands[1])
        } else {
            " $"@ + hex2(operands[0])
        }
    } else {
        " "@ + hex2(operands[0])
    }
}

/// What follows the words `invalid opcode:` for a byte that is no opcode:
/// the byte in binary and in hex.
pub open spec fn invalid_text(op: u8) -> Seq<char> {
    " 0b"@ + binary(op as nat) + " 0x"@ + hex(op as nat)
}

/// The text of the instruction with opcode `op` and the given operand
/// bytes.
pub open spec fn instruction_text(op: u8, operands: Seq<u8>) -> Seq<char> {
    let ins = instruction_of(op);
    if ins == Instruction::Invalid {
        mnemonic(ins) + invalid_text(op)
    } else {
        mnemonic(ins) + operand_text(operand_count(ins), operands)
    }
}

/// Where the instruction at `at` ends: after its operand bytes, or at the
/// end of the buffer where that comes first.
pub open spec fn next_cursor(buffer: Seq<u8>, at: int) -> int {
    let end = at + 1 + operand_count(instruction_of(buffer[at]));
    if end <= buffer.len() {
        end
    } else {
        buffer.len() as int
    }
}

/// The line for the instruction at `at`.
pub open spec fn line_at(buffer: Seq<u8>, at: int) -> Seq<char> {
    hex(at as nat) + " "@ + instruction_text(
        buffer[at],
        buffer.subrange(at + 1, next_cursor(buffer, at)),
    )
}

/// The lines for all instructions from `at` to the end of the buffer.
pub open spec fn lines_from(buffer: Seq<u8>, at: int) -> Seq<Seq<char>>
    decreases buffer.len() - at,
{
    if 0 <= at < buffer.len() {
        seq![line_at(buffer, at)] + lines_from(buffer, next_cursor(buffer, at))
    } else {
        Seq::empty()
    }
}

/// No line reports an invalid opcode: every byte that the processor can
/// fetch is disassembled as the instruction that the processor would execute,
/// and the cursor moves on by at least the opcode.
pub proof fn lemma_line_is_an_instruction(buffer: Seq<u8>, at: int)
    requires
        0 <= at < buffer.len(),
    ensures
        instruction_of(buffer[at]) != Instruction::Invalid,
        line_at(buffer, at) == hex(at as nat) + " "@ + (mnemonic(instruction_of(buffer[at]))
            + operand_text(
            operand_count(instruction_of(buffer[at])),
            buffer.subrange(at + 1, next_cursor(buffer, at)),
        )),
        at < next_cursor(buffer, at) <= buffer.len(),
        next_cursor(buffer, at) <= at + 3,
{
    lemma_decode_total(buffer[at]);
}

fn hex_digit_str(d: u8) -> (text: &'static str)
    requires
        d < 16,
    ensures
        text@ == hex_digit(d as int),
{
    match d {
        0 => "0",
        1 => "1",
        2 => "2",
        3 => "3",
        4 => "4",
        5 => "5",
        6 => "6",
        7 => "7",
        8 => "8",
        9 => "9",
        10 => "a",
        11 => "b",
        12 => "c",
        13 => "d",
        14 => "e",
        _ => "f",
    }
}

fn push_hex2(out: &mut String, b: u8)
    ensures
        final(out)@ == old(out)@ + hex2(b),
{
    out.append(hex_digit_str(b / 16));
    out.append(hex_digit_str(b % 16));
}

fn push_hex(out: &mut String, n: usize)
    ensures
        final(out)@ == old(out)@ + hex(n as nat),
    decreases n,
{
    if n >= 16 {
        push_hex(out, n / 16);
    }
    out.append(hex_digit_str((n % 16) as u8));
}

fn push_binary(out: &mut String, n: usize)
    ensures
        final(out)@ == old(out)@ + binary(n as nat),
    decreases n,
{
    if n >= 2 {
        push_binary(out, n / 2);
    }
    out.append(hex_digit_str((n % 2) as u8));
}

fn register_name(r: u8) -> (text: &'static str)
    ensures
        text@ == register_text(r),
{
    match r {
        0 => "B",
        1 => "C",
        2 => "D",
        3 => "E",
        4 => "H",
        5 => "L",
        6 => "M",
        7 => "A",
        _ => "?",
    }
}

fn pair_name(rp: u8) -> (text: &'static str)
    ensures
        text@ == pair_text(rp),
{
    match rp {
        0 => "BC",
        1 => "DE",
        2 => "HL",
        3 => "SP",
        _ => "?",
    }
}

fn stack_pair_name(rp: u8) -> (text: &'static str)
    ensures
        text@ == stack_pair_text(rp),
{
    if rp == 3 {
        "PSW"
    } else {
        pair_name(rp)
    }
}

fn condition_name(cc: u8) -> (text: &'static str)
    ensures
        text@ == condition_text(cc),
{
    match cc {
        0 => "NZ",
        1 => "Z",
        2 => "NC",
        3 => "C",
        4 => "PO",
        5 => "PE",
        6 => "P",
        7 => "M",
        _ => "?",
    }
}

fn alu_name(alu: u8) -> (text: &'static str)
    ensures
        text@ == alu_text(alu),
{
    match alu {
        0 => "ADD",
        1 => "ADC",
        2 => "SUB",
        3 => "SBB",
        4 => "ANA",
        5 => "XRA",
        6 => "ORA",
        7 => "CMP",
        _ => "?",
    }
}

fn alu_immediate_name(alu: u8) -> (text: &'static str)
    ensures
        text@ == alu_immediate_text(alu),
{
    match alu {
        0 => "ADI",
        1 => "ACI",
        2 => "SUI",
        3 => "SBI",
        4 => "ANI",
        5 => "XRI",
        6 => "ORI",
        7 => "CPI",
        _ => "?",
    }
}

/// Appends a word and a name to the text.
fn push_pair(out: &mut String, word: &str, name: &str)
    ensures
        final(out)@ == old(out)@ + (word@ + name@),
{
    out.append(word);
    out.append(name);
}

fn push_mnemonic(out: &mut String, ins: Instruction)
    requires
        match ins {
            Instruction::Rst { n } => n < 16,
            _ => true,
        },
    ensures
        final(out)@ == old(out)@ + mnemonic(ins),
{
    match ins {
        Instruction::Rlc => out.append("RLC"),
        Instruction::Rrc => out.append("RRC"),
        Instruction::Ral => out.append("RAL"),
        Instruction::Rar => out.append("RAR"),
        Instruction::Shld => out.append("SHLD"),
        Instruction::Daa => out.append("DAA"),
        Instruction::Lhld => out.append("LHLD"),
        Instruction::Cma => out.append("CMA"),
        Instruction::Sta => out.append("STA"),
        Instruction::Stc => out.append("STC"),
        Instruction::Lda => out.append("LDA"),
        Instruction::Cmc => out.append("CMC"),
        Instruction::Hlt => out.append("HLT"),
        Instruction::Jmp => out.append("JMP"),
        Instruction::Ret => out.append("RET"),
        Instruction::Call => out.append("CALL"),
        Instruction::Out => out.append("OUT"),
        Instruction::In => out.append("IN"),
        Instruction::Xthl => out.append("XTHL"),
        Instruction::Pchl => out.append("PCHL"),
        Instruction::Xchg => out.append("XCHG"),
        Instruction::Di => out.append("DI"),
        Instruction::Sphl => out.append("SPHL"),
        Instruction::Ei => out.append("EI"),
        Instruction::Nop => out.append("NOP"),
        Instruction::Lxi { rp } => push_pair(out, "LXI ", pair_name(rp)),
        Instruction::Stax { rp } => push_pair(out, "STAX ", pair_name(rp)),
        Instruction::Inx { rp } => push_pair(out, "INX ", pair_name(rp)),
        Instruction::Inr { ddd } => push_pair(out, "INR ", register_name(ddd)),
        Instruction::Dcr { ddd } => push_pair(out, "DCR ", register_name(ddd)),
        Instruction::Mvi { ddd } => push_pair(out, "MVI ", register_name(ddd)),
        Instruction::Dad { rp } => push_pair(out, "DAD ", pair_name(rp)),
        Instruction::Ldax { rp } => push_pair(out, "LDAX ", pair_name(rp)),
        Instruction::Dcx { rp } => push_pair(out, "DCX ", pair_name(rp)),
        Instruction::Mov { ddd, sss } => {
            let ghost start = out@;
            out.append("MOV ");
            out.append(register_name(ddd));
            out.append(",");
            out.append(register_name(sss));
            assert(out@ =~= start + ("MOV "@ + register_text(ddd) + ","@ + register_text(sss)));
        },
        Instruction::Alu { alu, sss } => {
            let ghost start = out@;
            out.append(alu_name(alu));
            out.append(" ");
            out.append(register_name(sss));
            assert(out@ =~= start + (alu_text(alu) + " "@ + register_text(sss)));
        },
        Instruction::Rcc { cc } => push_pair(out, "R", condition_name(cc)),
        Instruction::Pop { rp } => push_pair(out, "POP ", stack_pair_name(rp)),
        Instruction::Jcc { cc } => push_pair(out, "J", condition_name(cc)),
        Instruction::Ccc { cc } => push_pair(out, "C", condition_name(cc)),
        Instruction::Push { rp } => push_pair(out, "PUSH ", stack_pair_name(rp)),
        Instruction::AluImm { alu } => out.append(alu_immediate_name(alu)),
        Instruction::Rst { n } => push_pair(out, "RST ", hex_digit_str(n)),
        Instruction::Invalid => out.append("invalid opcode:"),
    }
}

fn push_operands(out: &mut String, count: usize, buffer: &Vec<u8>, from: usize, to: usize)
    requires
        from <= to <= buffer@.len(),
        to - from <= count <= 2,
    ensures
        final(out)@ == old(out)@ + operand_text(
            count as nat,
            buffer@.subrange(from as int, to as int),
        ),
{
    let ghost start = out@;
    let ghost operands = buffer@.subrange(from as int, to as int);
    if from < to {
        if count == 2 {
            out.append(" $");
            push_hex2(out, buffer[from]);
            if from + 1 < to {
                out.append(" ");
                push_hex2(out, buffer[from + 1]);
                assert(out@ =~= start + (" $"@ + hex2(operands[0]) + " "@ + hex2(operands[1])));
            } else {
                assert(out@ =~= start + (" $"@ + hex2(operands[0])));
            }
        } else {
            out.append(" ");
            push_hex2(out, buffer[from]);
            assert(out@ =~= start + (" "@ + hex2(operands[0])));
        }
    } else {
        assert(out@ =~= start + Seq::<char>::empty());
    }
}

/// A byte buffer and a read cursor.
pub struct Disassembler {
    buffer: Vec<u8>,
    index: usize,
}

impl Disassembler {
    /// The bytes being disassembled.
    pub closed spec fn buffer(&self) -> Seq<u8> {
        self.buffer@
    }

    /// The position of the next instruction.
    pub closed spec fn cursor(&self) -> int {
        self.index as int
    }

    /// A disassembler with an empty buffer.
    pub fn new() -> (d: Disassembler)
        ensures
            d.buffer() == Seq::<u8>::empty(),
            d.cursor() == 0,
    {
        Disassembler { buffer: Vec::new(), index: 0 }
    }

    /// Replaces the buffer. The cursor stays where it is.
    pub fn load(&mut self, data: Vec<u8>)
        ensures
            final(self).buffer() == data@,
            final(self).cursor() == old(self).cursor(),
    {
        self.buffer = data;
    }

    /// Whether the cursor has reached the end of the buffer.
    pub fn is_done(&self) -> (done: bool)
        ensures
            done == !(self.cursor() < self.buffer().len()),
    {
        self.index >= self.buffer.len()
    }

    /// The line for the instruction at the cursor. The cursor moves past the
    /// instruction and its operand bytes.
    pub fn dump(&mut self) -> (line: String)
        requires
            old(self).cursor() < old(self).buffer().len(),
        ensures
            line@ == line_at(old(self).buffer(), old(self).cursor()),
            final(self).cursor() == next_cursor(old(self).buffer(), old(self).cursor()),
            final(self).cursor() > old(self).cursor(),
            final(self).cursor() <= old(self).buffer().len(),
            final(self).buffer() == old(self).buffer(),
    {
        let at: usize = self.index;
        let opcode: u8 = self.buffer[at];
        let ins = decode(opcode);
        let count: usize = operand_len(ins);
        let len: usize = self.buffer.len();
        let end: usize = if count <= len - at - 1 {
            at + 1 + count
        } else {
            len
        };
        let mut line = String::new();
        push_hex(&mut line, at);
        line.append(" ");
        push_mnemonic(&mut line, ins);
        let ghost head = line@;
        match ins {
            Instruction::Invalid => {
                line.append(" 0b");
                push_binary(&mut line, opcode as usize);
                line.append(" 0x");
                push_hex(&mut line, opcode as usize);
                assert(line@ =~= head + invalid_text(opcode));
            },
            _ => {
                push_operands(&mut line, count, &self.buffer, at + 1, end);
            },
        }
        assert(line@ =~= line_at(self.buffer@, at as int));
        self.index = end;
        line
    }

    /// The lines for all instructions from the cursor to the end of the
    /// buffer, in order. The cursor ends at the end of the buffer.
    pub fn dump_all(&mut self) -> (lines: Vec<String>)
        ensures
            lines.deep_view() == lines_from(old(self).buffer(), old(self).cursor()),
            final(self).buffer() == old(self).buffer(),
            final(self).cursor() == if old(self).cursor() < old(self).buffer().len() {
                old(self).buffer().len() as int
            } else {
                old(self).cursor()
            },
    {
        let mut lines: Vec<String> = Vec::new();
        while self.index < self.buffer.len()
            invariant
                self.buffer@ == old(self).buffer@,
                old(self).index <= self.index,
                old(self).index < old(self).buffer@.len() ==> self.index <= self.buffer@.len(),
                old(self).index >= old(self).buffer@.len() ==> self.index == old(self).index,
                lines.deep_view() + lines_from(self.buffer@, self.index as int) == lines_from(
                    old(self).buffer@,
                    old(self).index as int,
                ),
            decreases self.buffer@.len() - self.index,
        {
            let ghost before = lines.deep_view();
            let ghost at = self.index as int;
            let line = self.dump();
            lines.push(line);
            assert(lines.deep_view() =~= before + seq![line_at(self.buffer@, at)]);
            assert(lines.deep_view() + lines_from(self.buffer@, self.index as int) =~= before
                + lines_from(self.buffer@, at));
        }
        assert(lines.deep_view() =~= lines.deep_view() + Seq::<Seq<char>>::empty());
        lines
    }
}

} // verus!
