//! Laws of the instruction set that hold in every state, proved from the
//! definitions of the instructions.

use vstd::prelude::*;
use crate::alu::{
    alu_result, condition_holds, count_ones, daa_flags, daa_result, dcr_flags, diff8, inr_flags, sum8, wrap16,
};
use crate::decode::{instruction_of, operand_count, Instruction};
use crate::flags::{lemma_unpack_pack, pack, well_formed};
use crate::semantics::{
    acknowledged, after_trap, alu_with, call, cycle, execute, fetched, interrupt_ticks,
    lemma_execute_frame, lemma_execute_wf, pop, push, serve_interrupt, step, step_ticks,
};
use crate::state::{
    lemma_pair_write_after_read, lemma_stack_pair_read_after_write, lemma_word_bytes, CpuState,
};

verus! {

/// Whatever the processor does, the byte of its condition register has bit 1
/// set and bits 3 and 5 clear.
pub proof fn lemma_flag_layout(s: CpuState)
    ensures
        well_formed(pack(s.flags)),
        pack(s.flags) & 0x02 == 0x02,
        pack(s.flags) & 0x08 == 0,
        pack(s.flags) & 0x20 == 0,
{
    lemma_unpack_pack(s.flags);
    let f = pack(s.flags);
    assert(f & 0x02 == 0x02 && f & 0x08 == 0 && f & 0x20 == 0) by (bit_vector)
        requires
            f & 0x2A == 0x02,
    ;
}

/// The two bytes below the stack pointer, which a push overwrites.
pub open spec fn in_stack_slot(s: CpuState, addr: int) -> bool {
    addr == wrap16(s.sp - 2) || addr == wrap16(s.sp - 1)
}

/// A push of a register pair followed at once by a pop of the same pair
/// restores the pair, the stack pointer and every other register, and
/// changes no memory outside the two bytes of the stack slot.
pub proof fn lemma_push_pop(s: CpuState, rp: u8)
    requires
        s.wf(),
        rp < 4,
    ensures
        ({
            let t = execute(execute(s, Instruction::Push { rp }), Instruction::Pop { rp });
            &&& t == CpuState { mem: t.mem, ..s }
            &&& t.stack_pair(rp) == s.stack_pair(rp)
            &&& t.mem.len() == s.mem.len()
            &&& forall|addr: int|
                0 <= addr < s.mem.len() && !in_stack_slot(s, addr) ==> t.mem[addr] == s.mem[addr]
        }),
{
    reveal(execute);
    lemma_unpack_pack(s.flags);
    let v = s.stack_pair(rp);
    let p = push(s, rp);
    lemma_word_bytes(v);
    assert(p.stack_top() == v);
    let t = pop(p, rp);
    assert(t.sp == s.sp);
    lemma_stack_pair_read_after_write(p, rp, v);
    lemma_pair_write_after_read(s, rp);
}

/// A call followed by a return comes back to the instruction after the
/// call, provided that in between the stack pointer has been restored and
/// the return address on the stack was left alone.
pub proof fn lemma_call_ret(s: CpuState, t: CpuState)
    requires
        s.wf(),
        t.wf(),
        t.sp == call(s).sp,
        t.stack_top() == call(s).stack_top(),
    ensures
        execute(s, Instruction::Call) == call(s),
        execute(t, Instruction::Ret).pc == wrap16(s.pc + 2),
        execute(t, Instruction::Ret).sp == s.sp,
{
    reveal(execute);
    lemma_word_bytes(wrap16(s.pc + 2));
}

/// After a subtraction or a comparison of `x` with the accumulator, the
/// carry is set exactly when `x` exceeded the accumulator and the zero
/// condition exactly when the two were equal. A comparison leaves the
/// accumulator as it was.
pub proof fn lemma_sub_cmp_flags(s: CpuState, alu: u8, x: u8)
    requires
        alu == 2 || alu == 7,
    ensures
        alu_with(s, alu, x).flags.carry == (x > s.a),
        alu_with(s, alu, x).flags.zero == (s.a == x),
        alu == 2 ==> alu_with(s, alu, x).a == diff8(s.a, x, 0),
        alu == 7 ==> alu_with(s, alu, x).a == s.a,
{
}

/// The byte from which an accumulator operation takes sign, zero and
/// parity: the new accumulator, or for a comparison the difference that is
/// thrown away.
pub open spec fn alu_outcome(s: CpuState, alu: u8, x: u8) -> u8 {
    if alu == 7 {
        diff8(s.a, x, 0)
    } else {
        alu_result(s.flags, alu, s.a, x)
    }
}

/// Every instruction that sets the parity condition sets it exactly when its
/// result has an even number of set bits.
pub proof fn lemma_parity(s: CpuState, alu: u8, x: u8)
    requires
        alu < 8,
    ensures
        alu_with(s, alu, x).flags.parity <==> count_ones(alu_outcome(s, alu, x)) % 2 == 0,
        inr_flags(s.flags, x).parity <==> count_ones(sum8(x, 1, 0)) % 2 == 0,
        dcr_flags(s.flags, x).parity <==> count_ones(diff8(x, 1, 0)) % 2 == 0,
        daa_flags(s.flags, s.a).parity <==> count_ones(daa_result(s.flags, s.a)) % 2 == 0,
{
}

/// Whether an instruction may set the program counter to something other
/// than the address after its operand: jumps, calls, returns, restarts and
/// the halt.
pub open spec fn transfers_control(ins: Instruction) -> bool {
    match ins {
        Instruction::Jmp
        | Instruction::Jcc { .. }
        | Instruction::Call
        | Instruction::Ccc { .. }
        | Instruction::Ret
        | Instruction::Rcc { .. }
        | Instruction::Rst { .. }
        | Instruction::Pchl
        | Instruction::Hlt => true,
        _ => false,
    }
}

/// An instruction that does not transfer control leaves the program counter
/// just past its operand bytes, so the processor walks a program as the
/// disassembler does.
pub proof fn lemma_falls_through(s: CpuState, ins: Instruction)
    requires
        !transfers_control(ins),
    ensures
        execute(s, ins).pc == wrap16(s.pc + operand_count(ins)),
{
    reveal(execute);
    match ins {
        Instruction::Rlc => {},
        Instruction::Rrc => {},
        Instruction::Ral => {},
        Instruction::Rar => {},
        Instruction::Shld => {},
        Instruction::Daa => {},
        Instruction::Lhld => {},
        Instruction::Cma => {},
        Instruction::Sta => {},
        Instruction::Stc => {},
        Instruction::Lda => {},
        Instruction::Cmc => {},
        Instruction::Out => {},
        Instruction::In => {},
        Instruction::Xthl => {},
        Instruction::Xchg => {},
        Instruction::Di => {},
        Instruction::Sphl => {},
        Instruction::Ei => {},
        Instruction::Nop => {},
        Instruction::Lxi { rp } => {},
        Instruction::Stax { rp } => {},
        Instruction::Inx { rp } => {},
        Instruction::Inr { ddd } => {},
        Instruction::Dcr { ddd } => {},
        Instruction::Mvi { ddd } => {},
        Instruction::Dad { rp } => {},
        Instruction::Ldax { rp } => {},
        Instruction::Dcx { rp } => {},
        Instruction::Mov { ddd, sss } => {},
        Instruction::Alu { alu, sss } => {},
        Instruction::Pop { rp } => {},
        Instruction::Push { rp } => {},
        Instruction::AluImm { alu } => {},
        _ => {},
    }
}

/// A conditional jump or call that is not taken, and a conditional return
/// that is not taken, only move past the operand.
pub proof fn lemma_branch_not_taken(s: CpuState, cc: u8)
    requires
        !condition_holds(s.flags, cc),
    ensures
        execute(s, Instruction::Jcc { cc }) == s.skip(2),
        execute(s, Instruction::Ccc { cc }) == s.skip(2),
        execute(s, Instruction::Rcc { cc }) == s,
{
    reveal(execute);
}

/// A step charges the cycle counter exactly what it reports.
pub proof fn lemma_step_charge(s: CpuState)
    ensures
        step(s).total_ticks == s.total_ticks + step_ticks(s),
        serve_interrupt(s).total_ticks == s.total_ticks + interrupt_ticks(s),
        cycle(s).total_ticks == s.total_ticks + step_ticks(s) + interrupt_ticks(step(s)),
{
    lemma_execute_frame(after_trap(s).skip(1), fetched(s));
    lemma_execute_frame(
        acknowledged(s),
        instruction_of(s.pending.last()),
    );
    let t = step(s);
    lemma_execute_frame(
        acknowledged(t),
        instruction_of(t.pending.last()),
    );
}

/// The state after `n` turns of the emulation loop.
pub open spec fn run(s: CpuState, n: nat) -> CpuState
    decreases n,
{
    if n == 0 {
        s
    } else {
        cycle(run(s, (n - 1) as nat))
    }
}

/// The clock cycles charged in `n` turns of the emulation loop: the sum of
/// what each instruction and each served interrupt is charged.
pub open spec fn charged(s: CpuState, n: nat) -> nat
    decreases n,
{
    if n == 0 {
        0
    } else {
        let before = run(s, (n - 1) as nat);
        charged(s, (n - 1) as nat) + step_ticks(before) + interrupt_ticks(step(before))
    }
}

/// The cycle counter equals its initial value plus the sum of the charges
/// of the instructions executed, and it never goes down.
pub proof fn lemma_total_ticks(s: CpuState, m: nat, n: nat)
    requires
        m <= n,
    ensures
        run(s, n).total_ticks == s.total_ticks + charged(s, n),
        run(s, m).total_ticks <= run(s, n).total_ticks,
    decreases n,
{
    if n > 0 {
        lemma_step_charge(run(s, (n - 1) as nat));
        if m < n {
            lemma_total_ticks(s, m, (n - 1) as nat);
        } else {
            lemma_total_ticks(s, (n - 1) as nat, (n - 1) as nat);
        }
    }
}

/// Running the processor keeps memory and input latches at their size.
pub proof fn lemma_cycle_wf(s: CpuState)
    requires
        s.wf(),
    ensures
        step(s).wf(),
        serve_interrupt(s).wf(),
        cycle(s).wf(),
{
    lemma_execute_wf(after_trap(s).skip(1), fetched(s));
    lemma_execute_wf(
        acknowledged(s),
        instruction_of(s.pending.last()),
    );
    let t = step(s);
    lemma_execute_wf(
        acknowledged(t),
        instruction_of(t.pending.last()),
    );
}

} // verus!
