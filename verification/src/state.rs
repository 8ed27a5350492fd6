//! The processor's state as a mathematical value, and the ways in which
//! instructions read and change it.

use vstd::prelude::*;
use crate::alu::{high_byte, low_byte, word, wrap16};
use crate::flags::{pack, unpack, Flags};

verus! {

/// Size of the flat address space.
pub const MEMORY_SIZE: usize = 65536;

/// Number of input ports.
pub const PORT_COUNT: usize = 256;

/// Everything the processor holds between two instructions.
#[verifier::ext_equal]
pub struct CpuState {
    pub a: u8,
    pub flags: Flags,
    pub b: u8,
    pub c: u8,
    pub d: u8,
    pub e: u8,
    pub h: u8,
    pub l: u8,
    pub pc: u16,
    pub sp: u16,
    /// The 64 KiB of memory, indexed by address.
    pub mem: Seq<u8>,
    pub interrupts_enabled: bool,
    /// Opcodes waiting to be injected as interrupts; the last one is served
    /// first.
    pub pending: Seq<u8>,
    /// The `(port, value)` pairs written by `OUT`, oldest first.
    pub output: Seq<(u8, u8)>,
    /// The byte latched on each input port.
    pub input: Seq<u8>,
    /// Clock cycles charged since reset.
    pub total_ticks: nat,
    /// Whether a fetch at address 5 is served as a CP/M system call.
    pub cpm_trap: bool,
}

impl CpuState {
    /// Memory and input latches have their full size.
    pub open spec fn wf(self) -> bool {
        self.mem.len() == MEMORY_SIZE && self.input.len() == PORT_COUNT
    }

    pub open spec fn bc(self) -> u16 {
        word(self.c, self.b)
    }

    pub open spec fn de(self) -> u16 {
        word(self.e, self.d)
    }

    pub open spec fn hl(self) -> u16 {
        word(self.l, self.h)
    }

    /// The program status word: accumulator in the high byte, the condition
    /// register in the low byte.
    pub open spec fn psw(self) -> u16 {
        word(pack(self.flags), self.a)
    }

    pub open spec fn with_bc(self, v: u16) -> CpuState {
        CpuState { b: high_byte(v), c: low_byte(v), ..self }
    }

    pub open spec fn with_de(self, v: u16) -> CpuState {
        CpuState { d: high_byte(v), e: low_byte(v), ..self }
    }

    pub open spec fn with_hl(self, v: u16) -> CpuState {
        CpuState { h: high_byte(v), l: low_byte(v), ..self }
    }

    /// Loading the status word keeps only the condition bits of its low byte.
    pub open spec fn with_psw(self, v: u16) -> CpuState {
        CpuState { a: high_byte(v), flags: unpack(low_byte(v)), ..self }
    }

    /// The byte at an address.
    pub open spec fn read(self, addr: u16) -> u8 {
        self.mem[addr as int]
    }

    /// The state with one byte of memory replaced.
    pub open spec fn write(self, addr: u16, v: u8) -> CpuState {
        CpuState { mem: self.mem.update(addr as int, v), ..self }
    }

    /// The little-endian word at an address; the high byte comes from the
    /// next address, modulo 2^16.
    pub open spec fn read_word(self, addr: u16) -> u16 {
        word(self.read(addr), self.read(wrap16(addr + 1)))
    }

    /// The state with a little-endian word stored at an address.
    pub open spec fn write_word(self, addr: u16, v: u16) -> CpuState {
        self.write(addr, low_byte(v)).write(wrap16(addr + 1), high_byte(v))
    }

    /// The register selected by a three-bit field: B, C, D, E, H, L, the
    /// memory byte at HL, A.
    pub open spec fn reg(self, num: u8) -> u8 {
        if num == 0 {
            self.b
        } else if num == 1 {
            self.c
        } else if num == 2 {
            self.d
        } else if num == 3 {
            self.e
        } else if num == 4 {
            self.h
        } else if num == 5 {
            self.l
        } else if num == 6 {
            self.read(self.hl())
        } else if num == 7 {
            self.a
        } else {
            0
        }
    }

    pub open spec fn with_reg(self, num: u8, v: u8) -> CpuState {
        if num == 0 {
            CpuState { b: v, ..self }
        } else if num == 1 {
            CpuState { c: v, ..self }
        } else if num == 2 {
            CpuState { d: v, ..self }
        } else if num == 3 {
            CpuState { e: v, ..self }
        } else if num == 4 {
            CpuState { h: v, ..self }
        } else if num == 5 {
            CpuState { l: v, ..self }
        } else if num == 6 {
            self.write(self.hl(), v)
        } else if num == 7 {
            CpuState { a: v, ..self }
        } else {
            self
        }
    }

    /// The register pair selected by a two-bit field for data movement:
    /// BC, DE, HL, SP.
    pub open spec fn pair(self, rp: u8) -> u16 {
        if rp == 0 {
            self.bc()
        } else if rp == 1 {
            self.de()
        } else if rp == 2 {
            self.hl()
        } else if rp == 3 {
            self.sp
        } else {
            0
        }
    }

    pub open spec fn with_pair(self, rp: u8, v: u16) -> CpuState {
        if rp == 0 {
            self.with_bc(v)
        } else if rp == 1 {
            self.with_de(v)
        } else if rp == 2 {
            self.with_hl(v)
        } else if rp == 3 {
            CpuState { sp: v, ..self }
        } else {
            self
        }
    }

    /// The register pair selected by a two-bit field for stack operations:
    /// BC, DE, HL, PSW.
    pub open spec fn stack_pair(self, rp: u8) -> u16 {
        if rp == 3 {
            self.psw()
        } else {
            self.pair(rp)
        }
    }

    pub open spec fn with_stack_pair(self, rp: u8, v: u16) -> CpuState {
        if rp == 3 {
            self.with_psw(v)
        } else {
            self.with_pair(rp, v)
        }
    }

    /// The byte that follows the opcode.
    pub open spec fn operand8(self) -> u8 {
        self.read(self.pc)
    }

    /// The little-endian word that follows the opcode.
    pub open spec fn operand16(self) -> u16 {
        self.read_word(self.pc)
    }

    /// The state with the program counter moved on by `n`, modulo 2^16.
    pub open spec fn skip(self, n: int) -> CpuState {
        CpuState { pc: wrap16(self.pc + n), ..self }
    }

    pub open spec fn jump(self, target: u16) -> CpuState {
        CpuState { pc: target, ..self }
    }

    /// The word on top of the stack.
    pub open spec fn stack_top(self) -> u16 {
        self.read_word(self.sp)
    }

    /// The state after a word has been pushed: the stack pointer goes down by
    /// two, the low byte lies at the new stack pointer and the high byte above
    /// it.
    pub open spec fn push_word(self, v: u16) -> CpuState {
        let sp = wrap16(self.sp - 2);
        (CpuState { sp: sp, ..self }).write_word(sp, v)
    }

    /// The state after the word on top of the stack has been dropped.
    pub open spec fn drop_word(self) -> CpuState {
        CpuState { sp: wrap16(self.sp + 2), ..self }
    }

    pub open spec fn with_flags(self, flags: Flags) -> CpuState {
        CpuState { flags: flags, ..self }
    }

    pub open spec fn with_a(self, a: u8) -> CpuState {
        CpuState { a: a, ..self }
    }

    pub open spec fn charge(self, ticks: nat) -> CpuState {
        CpuState { total_ticks: self.total_ticks + ticks, ..self }
    }
}

/// The two bytes of a word put together give the word back.
pub proof fn lemma_word_bytes(v: u16)
    ensures
        word(low_byte(v), high_byte(v)) == v,
{
}

/// A word made of two bytes has those bytes.
pub proof fn lemma_bytes_word(lo: u8, hi: u8)
    ensures
        low_byte(word(lo, hi)) == lo,
        high_byte(word(lo, hi)) == hi,
{
}

/// Reading a data-movement register pair after writing it returns what was
/// written.
pub proof fn lemma_pair_read_after_write(s: CpuState, rp: u8, v: u16)
    requires
        rp < 4,
    ensures
        s.with_pair(rp, v).pair(rp) == v,
{
}

/// Reading a stack register pair after writing it returns what was written;
/// for the status word, the low byte comes back in the register's layout.
pub proof fn lemma_stack_pair_read_after_write(s: CpuState, rp: u8, v: u16)
    requires
        rp < 4,
    ensures
        rp < 3 ==> s.with_stack_pair(rp, v).stack_pair(rp) == v,
        rp == 3 ==> s.with_stack_pair(rp, v).stack_pair(rp) == word(
            crate::flags::sanitized(low_byte(v)),
            high_byte(v),
        ),
{
    crate::flags::lemma_pack_unpack(low_byte(v));
}

/// Writing a register pair with the value it holds changes nothing.
pub proof fn lemma_pair_write_after_read(s: CpuState, rp: u8)
    requires
        rp < 4,
    ensures
        s.with_pair(rp, s.pair(rp)) == s,
        s.with_stack_pair(rp, s.stack_pair(rp)) == s,
{
    crate::flags::lemma_unpack_pack(s.flags);
}

} // verus!
