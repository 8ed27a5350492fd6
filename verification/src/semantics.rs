//! What each instruction does to the processor's state and how many clock
//! cycles it is charged. Every function here takes the state as it is once
//! the opcode has been fetched: the program counter points at the first
//! operand byte, or at the next instruction where there is no operand.

use vstd::prelude::*;
use crate::alu::{
    alu_flags, alu_result, complement, condition_holds, daa_flags, daa_result, dcr_flags, diff8,
    inr_flags, ral_result, rar_result, rlc_result, rrc_result, sum8, wrap16,
};
use crate::decode::{instruction_of, Instruction};
use crate::flags::Flags;
use crate::state::CpuState;

verus! {

pub open spec fn lxi(s: CpuState, rp: u8) -> CpuState {
    s.with_pair(rp, s.operand16()).skip(2)
}

pub open spec fn stax(s: CpuState, rp: u8) -> CpuState {
    if rp == 0 {
        s.write(s.bc(), s.a)
    } else if rp == 1 {
        s.write(s.de(), s.a)
    } else {
        s
    }
}

pub open spec fn ldax(s: CpuState, rp: u8) -> CpuState {
    if rp == 0 {
        s.with_a(s.read(s.bc()))
    } else if rp == 1 {
        s.with_a(s.read(s.de()))
    } else {
        s
    }
}

pub open spec fn inx(s: CpuState, rp: u8) -> CpuState {
    s.with_pair(rp, wrap16(s.pair(rp) + 1))
}

pub open spec fn dcx(s: CpuState, rp: u8) -> CpuState {
    s.with_pair(rp, wrap16(s.pair(rp) - 1))
}

/// Increment of a register: the carry is not affected.
pub open spec fn inr(s: CpuState, ddd: u8) -> CpuState {
    let x = s.reg(ddd);
    s.with_flags(inr_flags(s.flags, x)).with_reg(ddd, sum8(x, 1, 0))
}

/// Decrement of a register: the carry is not affected.
pub open spec fn dcr(s: CpuState, ddd: u8) -> CpuState {
    let x = s.reg(ddd);
    s.with_flags(dcr_flags(s.flags, x)).with_reg(ddd, diff8(x, 1, 0))
}

pub open spec fn mvi(s: CpuState, ddd: u8) -> CpuState {
    s.skip(1).with_reg(ddd, s.operand8())
}

/// Sixteen-bit addition into HL: only the carry is affected.
pub open spec fn dad(s: CpuState, rp: u8) -> CpuState {
    let sum = s.hl() + s.pair(rp);
    s.with_flags(Flags { carry: sum > 0xFFFF, ..s.flags }).with_hl(wrap16(sum))
}

pub open spec fn rlc(s: CpuState) -> CpuState {
    s.with_flags(Flags { carry: s.a & 0x80 != 0, ..s.flags }).with_a(rlc_result(s.a))
}

pub open spec fn rrc(s: CpuState) -> CpuState {
    s.with_flags(Flags { carry: s.a & 0x01 != 0, ..s.flags }).with_a(rrc_result(s.a))
}

pub open spec fn ral(s: CpuState) -> CpuState {
    s.with_flags(Flags { carry: s.a & 0x80 != 0, ..s.flags }).with_a(
        ral_result(s.a, s.flags.carry),
    )
}

pub open spec fn rar(s: CpuState) -> CpuState {
    s.with_flags(Flags { carry: s.a & 0x01 != 0, ..s.flags }).with_a(
        rar_result(s.a, s.flags.carry),
    )
}

/// Stores L at the operand address and H at the address after it.
pub open spec fn shld(s: CpuState) -> CpuState {
    s.write_word(s.operand16(), s.hl()).skip(2)
}

/// Loads L from the operand address and H from the address after it.
pub open spec fn lhld(s: CpuState) -> CpuState {
    s.with_hl(s.read_word(s.operand16())).skip(2)
}

pub open spec fn daa(s: CpuState) -> CpuState {
    s.with_flags(daa_flags(s.flags, s.a)).with_a(daa_result(s.flags, s.a))
}

pub open spec fn cma(s: CpuState) -> CpuState {
    s.with_a(complement(s.a))
}

pub open spec fn sta(s: CpuState) -> CpuState {
    s.write(s.operand16(), s.a).skip(2)
}

pub open spec fn lda(s: CpuState) -> CpuState {
    s.with_a(s.read(s.operand16())).skip(2)
}

pub open spec fn stc(s: CpuState) -> CpuState {
    s.with_flags(Flags { carry: true, ..s.flags })
}

pub open spec fn cmc(s: CpuState) -> CpuState {
    s.with_flags(Flags { carry: !s.flags.carry, ..s.flags })
}

pub open spec fn mov(s: CpuState, ddd: u8, sss: u8) -> CpuState {
    s.with_reg(ddd, s.reg(sss))
}

/// Halting steps the program counter back onto the opcode, so that the next
/// fetch repeats it.
pub open spec fn hlt(s: CpuState) -> CpuState {
    s.skip(-1)
}

/// An accumulator operation with the operand `x`.
pub open spec fn alu_with(s: CpuState, alu: u8, x: u8) -> CpuState {
    s.with_flags(alu_flags(s.flags, alu, s.a, x)).with_a(alu_result(s.flags, alu, s.a, x))
}

pub open spec fn aluop1(s: CpuState, alu: u8, sss: u8) -> CpuState {
    alu_with(s, alu, s.reg(sss))
}

pub open spec fn aluop2(s: CpuState, alu: u8) -> CpuState {
    alu_with(s, alu, s.operand8()).skip(1)
}

/// Pops the return address into the program counter.
pub open spec fn ret(s: CpuState) -> CpuState {
    s.jump(s.stack_top()).drop_word()
}

pub open spec fn rcc(s: CpuState, cc: u8) -> CpuState {
    if condition_holds(s.flags, cc) {
        ret(s)
    } else {
        s
    }
}

pub open spec fn pop(s: CpuState, rp: u8) -> CpuState {
    if rp < 4 {
        s.with_stack_pair(rp, s.stack_top()).drop_word()
    } else {
        s
    }
}

pub open spec fn push(s: CpuState, rp: u8) -> CpuState {
    if rp < 4 {
        s.push_word(s.stack_pair(rp))
    } else {
        CpuState { sp: wrap16(s.sp - 2), ..s }
    }
}

pub open spec fn jmp(s: CpuState) -> CpuState {
    s.jump(s.operand16())
}

/// A conditional jump consumes its operand whether it is taken or not.
pub open spec fn jcc(s: CpuState, cc: u8) -> CpuState {
    if condition_holds(s.flags, cc) {
        jmp(s)
    } else {
        s.skip(2)
    }
}

/// Pushes the address of the instruction after the operand, then jumps.
pub open spec fn call(s: CpuState) -> CpuState {
    s.push_word(wrap16(s.pc + 2)).jump(s.operand16())
}

/// A conditional call consumes its operand whether it is taken or not.
pub open spec fn ccc(s: CpuState, cc: u8) -> CpuState {
    if condition_holds(s.flags, cc) {
        call(s)
    } else {
        s.skip(2)
    }
}

/// A one-byte call to the fixed vector `8 * n`.
pub open spec fn rst(s: CpuState, n: u8) -> CpuState {
    s.push_word(s.pc).jump(wrap16(8 * n))
}

pub open spec fn out_port(s: CpuState) -> CpuState {
    (CpuState { output: s.output.push((s.operand8(), s.a)), ..s }).skip(1)
}

pub open spec fn in_port(s: CpuState) -> CpuState {
    s.with_a(s.input[s.operand8() as int]).skip(1)
}

/// Exchanges HL with the word on top of the stack.
pub open spec fn xthl(s: CpuState) -> CpuState {
    s.write_word(s.sp, s.hl()).with_hl(s.stack_top())
}

pub open spec fn pchl(s: CpuState) -> CpuState {
    s.jump(s.hl())
}

pub open spec fn sphl(s: CpuState) -> CpuState {
    CpuState { sp: s.hl(), ..s }
}

pub open spec fn xchg(s: CpuState) -> CpuState {
    s.with_hl(s.de()).with_de(s.hl())
}

pub open spec fn di(s: CpuState) -> CpuState {
    CpuState { interrupts_enabled: false, ..s }
}

pub open spec fn ei(s: CpuState) -> CpuState {
    CpuState { interrupts_enabled: true, ..s }
}

/// The state after an instruction has been executed.
#[verifier::opaque]
pub open spec fn execute(s: CpuState, ins: Instruction) -> CpuState {
    match ins {
        Instruction::Rlc => rlc(s),
        Instruction::Rrc => rrc(s),
        Instruction::Ral => ral(s),
        Instruction::Rar => rar(s),
        Instruction::Shld => shld(s),
        Instruction::Daa => daa(s),
        Instruction::Lhld => lhld(s),
        Instruction::Cma => cma(s),
        Instruction::Sta => sta(s),
        Instruction::Stc => stc(s),
        Instruction::Lda => lda(s),
        Instruction::Cmc => cmc(s),
        Instruction::Hlt => hlt(s),
        Instruction::Jmp => jmp(s),
        Instruction::Ret => ret(s),
        Instruction::Call => call(s),
        Instruction::Out => out_port(s),
        Instruction::In => in_port(s),
        Instruction::Xthl => xthl(s),
        Instruction::Pchl => pchl(s),
        Instruction::Xchg => xchg(s),
        Instruction::Di => di(s),
        Instruction::Sphl => sphl(s),
        Instruction::Ei => ei(s),
        Instruction::Nop => s,
        Instruction::Lxi { rp } => lxi(s, rp),
        Instruction::Stax { rp } => stax(s, rp),
        Instruction::Inx { rp } => inx(s, rp),
        Instruction::Inr { ddd } => inr(s, ddd),
        Instruction::Dcr { ddd } => dcr(s, ddd),
        Instruction::Mvi { ddd } => mvi(s, ddd),
        Instruction::Dad { rp } => dad(s, rp),
        Instruction::Ldax { rp } => ldax(s, rp),
        Instruction::Dcx { rp } => dcx(s, rp),
        Instruction::Mov { ddd, sss } => mov(s, ddd, sss),
        Instruction::Alu { alu, sss } => aluop1(s, alu, sss),
        Instruction::Rcc { cc } => rcc(s, cc),
        Instruction::Pop { rp } => pop(s, rp),
        Instruction::Jcc { cc } => jcc(s, cc),
        Instruction::Ccc { cc } => ccc(s, cc),
        Instruction::Push { rp } => push(s, rp),
        Instruction::AluImm { alu } => aluop2(s, alu),
        Instruction::Rst { n } => rst(s, n),
        Instruction::Invalid => s,
    }
}

/// The most that a single instruction is charged.
pub const MAX_INSTRUCTION_TICKS: usize = 18;

/// The clock cycles charged for an instruction executed in state `s`. An
/// access through the memory operand costs extra, and so does a conditional
/// call or return that is taken. An unrecognised byte is charged nothing.
#[verifier::opaque]
pub open spec fn cycles(s: CpuState, ins: Instruction) -> nat {
    match ins {
        Instruction::Nop => 4,
        Instruction::Lxi { .. } => 10,
        Instruction::Stax { .. } | Instruction::Ldax { .. } => 7,
        Instruction::Inx { .. } | Instruction::Dcx { .. } => 5,
        Instruction::Inr { ddd } | Instruction::Dcr { ddd } => if ddd == 6 {
            10
        } else {
            5
        },
        Instruction::Mvi { ddd } => if ddd == 6 {
            10
        } else {
            7
        },
        Instruction::Dad { .. } => 10,
        Instruction::Mov { ddd, sss } => 5 + (if sss == 6 {
            2nat
        } else {
            0nat
        }) + (if ddd == 6 {
            2nat
        } else {
            0nat
        }),
        Instruction::Alu { sss, .. } => if sss == 6 {
            7
        } else {
            4
        },
        Instruction::AluImm { .. } => 7,
        Instruction::Rlc | Instruction::Rrc | Instruction::Ral | Instruction::Rar => 4,
        Instruction::Shld | Instruction::Lhld => 16,
        Instruction::Daa | Instruction::Cma | Instruction::Stc | Instruction::Cmc => 4,
        Instruction::Sta | Instruction::Lda => 13,
        Instruction::Hlt => 7,
        Instruction::Jmp | Instruction::Jcc { .. } => 10,
        Instruction::Call => 17,
        Instruction::Ccc { cc } => if condition_holds(s.flags, cc) {
            17
        } else {
            11
        },
        Instruction::Ret => 10,
        Instruction::Rcc { cc } => if condition_holds(s.flags, cc) {
            11
        } else {
            5
        },
        Instruction::Out | Instruction::In => 10,
        Instruction::Xthl => 18,
        Instruction::Pchl => 5,
        Instruction::Xchg => 4,
        Instruction::Di | Instruction::Ei => 4,
        Instruction::Sphl => 5,
        Instruction::Rst { .. } => 11,
        Instruction::Push { .. } => 11,
        Instruction::Pop { .. } => 10,
        Instruction::Invalid => 0,
    }
}

/// No instruction is charged more than `MAX_INSTRUCTION_TICKS`.
pub proof fn lemma_cycles_bounded(s: CpuState, ins: Instruction)
    ensures
        cycles(s, ins) <= MAX_INSTRUCTION_TICKS,
{
    reveal(cycles);
}

/// Executing an instruction keeps memory and input latches at their size.
pub proof fn lemma_execute_wf(s: CpuState, ins: Instruction)
    requires
        s.wf(),
    ensures
        execute(s, ins).wf(),
{
    reveal(execute);
    match ins {
        Instruction::Rlc => {},
        Instruction::Rrc => {},
        Instruction::Ral => {},
        Instruction::Rar => {},
        Instruction::Shld => {},
        Instruction::Daa => {},
        Instruction::Lhld => {},
        Instruction::Cma => {},
        Instruction::Sta => {},
        Instruction::Stc => {},
        Instruction::Lda => {},
        Instruction::Cmc => {},
        Instruction::Hlt => {},
        Instruction::Jmp => {},
        Instruction::Ret => {},
        Instruction::Call => {},
        Instruction::Out => {},
        Instruction::In => {},
        Instruction::Xthl => {},
        Instruction::Pchl => {},
        Instruction::Xchg => {},
        Instruction::Di => {},
        Instruction::Sphl => {},
        Instruction::Ei => {},
        Instruction::Nop => {},
        Instruction::Lxi { rp } => {},
        Instruction::Stax { rp } => {},
        Instruction::Inx { rp } => {},
        Instruction::Inr { ddd } => {},
        Instruction::Dcr { ddd } => {},
        Instruction::Mvi { ddd } => {},
        Instruction::Dad { rp } => {},
        Instruction::Ldax { rp } => {},
        Instruction::Dcx { rp } => {},
        Instruction::Mov { ddd, sss } => {},
        Instruction::Alu { alu, sss } => {},
        Instruction::Rcc { cc } => {},
        Instruction::Pop { rp } => {},
        Instruction::Jcc { cc } => {},
        Instruction::Ccc { cc } => {},
        Instruction::Push { rp } => {},
        Instruction::AluImm { alu } => {},
        Instruction::Rst { n } => {},
        Instruction::Invalid => {},
    }
}

/// No instruction touches the cycle counter, the input latches, the queue
/// of pending interrupts or the trap switch; output is only ever appended.
pub proof fn lemma_execute_frame(s: CpuState, ins: Instruction)
    ensures
        execute(s, ins).total_ticks == s.total_ticks,
        execute(s, ins).input == s.input,
        execute(s, ins).pending == s.pending,
        execute(s, ins).cpm_trap == s.cpm_trap,
        s.output.is_prefix_of(execute(s, ins).output),
{
    reveal(execute);
    match ins {
        Instruction::Rlc => {},
        Instruction::Rrc => {},
        Instruction::Ral => {},
        Instruction::Rar => {},
        Instruction::Shld => {},
        Instruction::Daa => {},
        Instruction::Lhld => {},
        Instruction::Cma => {},
        Instruction::Sta => {},
        Instruction::Stc => {},
        Instruction::Lda => {},
        Instruction::Cmc => {},
        Instruction::Hlt => {},
        Instruction::Jmp => {},
        Instruction::Ret => {},
        Instruction::Call => {},
        Instruction::Out => {},
        Instruction::In => {},
        Instruction::Xthl => {},
        Instruction::Pchl => {},
        Instruction::Xchg => {},
        Instruction::Di => {},
        Instruction::Sphl => {},
        Instruction::Ei => {},
        Instruction::Nop => {},
        Instruction::Lxi { rp } => {},
        Instruction::Stax { rp } => {},
        Instruction::Inx { rp } => {},
        Instruction::Inr { ddd } => {},
        Instruction::Dcr { ddd } => {},
        Instruction::Mvi { ddd } => {},
        Instruction::Dad { rp } => {},
        Instruction::Ldax { rp } => {},
        Instruction::Dcx { rp } => {},
        Instruction::Mov { ddd, sss } => {},
        Instruction::Alu { alu, sss } => {},
        Instruction::Rcc { cc } => {},
        Instruction::Pop { rp } => {},
        Instruction::Jcc { cc } => {},
        Instruction::Ccc { cc } => {},
        Instruction::Push { rp } => {},
        Instruction::AluImm { alu } => {},
        Instruction::Rst { n } => {},
        Instruction::Invalid => {},
    }
}

/// The bytes of memory from `start` up to the first `$`, which is left
/// out. Addresses wrap modulo 2^16, and at most `limit` bytes are taken.
pub open spec fn dollar_string(mem: Seq<u8>, start: u16, limit: nat) -> Seq<u8>
    decreases limit,
{
    if limit == 0 || mem[start as int] == 0x24 {
        Seq::empty()
    } else {
        seq![mem[start as int]] + dollar_string(mem, wrap16(start + 1), (limit - 1) as nat)
    }
}

/// What a CP/M system call writes to the console: function 9 (selected by
/// register C) the `$`-terminated string at DE, function 2 the character in
/// E, any other function nothing.
pub open spec fn bdos_output(s: CpuState) -> Seq<u8> {
    if s.c == 9 {
        dollar_string(s.mem, s.de(), s.mem.len())
    } else if s.c == 2 {
        seq![s.e]
    } else {
        Seq::empty()
    }
}

/// Whether the next step serves a CP/M system call.
pub open spec fn trap_taken(s: CpuState) -> bool {
    s.cpm_trap && s.pc == 5
}

/// The bytes that the next step writes to the console.
pub open spec fn console_output(s: CpuState) -> Seq<u8> {
    if trap_taken(s) {
        bdos_output(s)
    } else {
        Seq::empty()
    }
}

/// The state in which the next opcode is fetched: where a system call is
/// served, the processor has returned from it.
pub open spec fn after_trap(s: CpuState) -> CpuState {
    if trap_taken(s) {
        ret(s)
    } else {
        s
    }
}

/// The instruction that the next step fetches.
pub open spec fn fetched(s: CpuState) -> Instruction {
    instruction_of(after_trap(s).operand8())
}

/// The clock cycles charged for the next step.
pub open spec fn step_ticks(s: CpuState) -> nat {
    (if trap_taken(s) {
        cycles(s, Instruction::Ret)
    } else {
        0
    }) + cycles(after_trap(s).skip(1), fetched(s))
}

/// The state after one instruction has been fetched and executed.
pub open spec fn step(s: CpuState) -> CpuState {
    execute(after_trap(s).skip(1), fetched(s)).charge(step_ticks(s))
}

/// Whether an interrupt is served: interrupts are enabled and an opcode is
/// pending.
pub open spec fn interrupt_due(s: CpuState) -> bool {
    s.interrupts_enabled && s.pending.len() > 0
}

/// The state in which the interrupt's opcode is executed: interrupts are
/// disabled and the opcode has left the queue.
pub open spec fn acknowledged(s: CpuState) -> CpuState {
    CpuState { interrupts_enabled: false, pending: s.pending.drop_last(), ..s }
}

/// The clock cycles charged for serving an interrupt, 0 where none is due.
pub open spec fn interrupt_ticks(s: CpuState) -> nat {
    if interrupt_due(s) {
        cycles(acknowledged(s), instruction_of(s.pending.last()))
    } else {
        0
    }
}

/// The state after at most one pending interrupt has been served. The
/// opcode pushed last is executed; the program counter is not advanced
/// before it.
pub open spec fn serve_interrupt(s: CpuState) -> CpuState {
    if interrupt_due(s) {
        execute(acknowledged(s), instruction_of(s.pending.last())).charge(interrupt_ticks(s))
    } else {
        s
    }
}

/// The state after one turn of the emulation loop.
pub open spec fn cycle(s: CpuState) -> CpuState {
    serve_interrupt(step(s))
}

} // verus!
