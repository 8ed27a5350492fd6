//! The processor: registers, memory, port latches and interrupt queue, and
//! the fetch, decode and execute engine that drives them.

use vstd::prelude::*;
use crate::alu::{
    add_flags, complement, condition_holds, diff8, lemma_complement, lemma_nibbles,
    lemma_wrapping, ones_below, sub_flags, sum8, with_szp,
};
use crate::decode::{decode, instruction_of, Instruction};
use crate::flags::{
    assign_bit, bit_is_set, lemma_pack_unpack, pack, sanitize, unpack, well_formed, Flags,
    AUX_BIT, CARRY_BIT, INITIAL_FLAGS, PARITY_BIT, SIGN_BIT, ZERO_BIT,
};
use crate::semantics;
use crate::semantics::{cycles, execute, MAX_INSTRUCTION_TICKS};
use crate::state::{CpuState, MEMORY_SIZE, PORT_COUNT};

verus! {

/// Address at which a program image is loaded.
pub const PROGRAM_START_ADDRESS: usize = 0x0;

/// Address of the first byte of video memory.
pub const VIDEO_START: usize = 0x2400;

/// Size of the video memory in bytes: 256 by 224 pixels, eight to a byte.
pub const VIDEO_SIZE: usize = 7168;

/// The byte that ends a string handed to the CP/M console.
pub const STRING_END: u8 = 0x24;

/// The most that one call of `step` is charged: a return from a served
/// system call and the instruction after it.
pub const MAX_STEP_TICKS: usize = 28;

/// The most that one call of `cycle` is charged: a step and an interrupt.
pub const MAX_CYCLE_TICKS: usize = 46;

/// What one call of `step` did besides changing the processor.
pub struct StepReport {
    /// Clock cycles charged.
    pub ticks: usize,
    /// Bytes that a served system call wrote to the console.
    pub console: Vec<u8>,
}

/// What one call of `cycle` did besides changing the processor.
pub struct CycleReport {
    /// Clock cycles charged for the fetched instruction, and for the return
    /// from a served system call.
    pub ticks: usize,
    /// Clock cycles charged for a served interrupt, 0 where none was served.
    pub interrupt_ticks: usize,
    /// Bytes that a served system call wrote to the console.
    pub console: Vec<u8>,
}

/// The boundary between the processor and the devices on its ports.
pub trait IOHandler {
    /// The byte that a device presents on an input port.
    fn input(&mut self, port: u8) -> u8;

    /// Hands a byte written to an output port to the device behind it.
    fn output(&mut self, port: u8, value: u8);
}

/// The eight-bit registers: the accumulator, the condition register and
/// the six general registers.
#[allow(non_snake_case)]
pub struct Registers {
    A: u8,
    Flags: u8,
    B: u8,
    C: u8,
    D: u8,
    E: u8,
    H: u8,
    L: u8,
}

impl Registers {
    /// The condition register always has its fixed bits: bit 1 set, bits 3
    /// and 5 clear.
    #[verifier::type_invariant]
    pub closed spec fn inv(&self) -> bool {
        well_formed(self.Flags)
    }

    /// The general registers and the accumulator, in the order
    /// A, B, C, D, E, H, L.
    pub closed spec fn values(&self) -> Seq<u8> {
        seq![self.A, self.B, self.C, self.D, self.E, self.H, self.L]
    }

    /// The byte in the condition register.
    pub closed spec fn flag_byte(&self) -> u8 {
        self.Flags
    }

    /// All registers cleared; the condition register holds only its fixed
    /// bit.
    pub fn new() -> (r: Registers)
        ensures
            r.values() == seq![0u8, 0u8, 0u8, 0u8, 0u8, 0u8, 0u8],
            r.flag_byte() == INITIAL_FLAGS,
    {
        assert(0x02u8 & 0x2A == 0x02) by (bit_vector);
        Registers { A: 0, Flags: 0b00000010, B: 0, C: 0, D: 0, E: 0, H: 0, L: 0 }
    }
}

/// The processor with its memory and the queues through which the host
/// talks to it.
#[allow(non_snake_case)]
pub struct Intel8080 {
    /// The flat 64 KiB address space.
    pub memory: [u8; 65536],
    /// Program counter.
    pub PC: u16,
    registers: Registers,
    /// Clock cycles charged since reset.
    pub total_ticks: usize,
    SP: u16,
    /// The `(port, value)` pairs written by `OUT`, oldest first.
    pub oport: Vec<(u8, u8)>,
    /// The byte latched on each input port.
    pub iport: [u8; 256],
    pub interrupt_enabled: bool,
    /// Opcodes waiting to be injected as interrupts; the last one pushed is
    /// served first.
    pub interrupt_data: Vec<u8>,
    /// Whether a fetch at address 5 is served as a CP/M system call.
    pub cpm_trap: bool,
}

impl View for Intel8080 {
    type V = CpuState;

    closed spec fn view(&self) -> CpuState {
        CpuState {
            a: self.registers.A,
            flags: unpack(self.registers.Flags),
            b: self.registers.B,
            c: self.registers.C,
            d: self.registers.D,
            e: self.registers.E,
            h: self.registers.H,
            l: self.registers.L,
            pc: self.PC,
            sp: self.SP,
            mem: self.memory@,
            interrupts_enabled: self.interrupt_enabled,
            pending: self.interrupt_data@,
            output: self.oport@,
            input: self.iport@,
            total_ticks: self.total_ticks as nat,
            cpm_trap: self.cpm_trap,
        }
    }
}

/// The state of a processor after reset, with an empty memory.
pub open spec fn reset_state() -> CpuState {
    CpuState {
        a: 0,
        flags: unpack(INITIAL_FLAGS),
        b: 0,
        c: 0,
        d: 0,
        e: 0,
        h: 0,
        l: 0,
        pc: 0,
        sp: 0,
        mem: Seq::new(MEMORY_SIZE as nat, |i: int| 0u8),
        interrupts_enabled: true,
        pending: Seq::empty(),
        output: Seq::empty(),
        input: Seq::new(PORT_COUNT as nat, |i: int| 0u8),
        total_ticks: 0,
        cpm_trap: false,
    }
}

/// Memory after a program image has been copied to its start.
pub open spec fn loaded(mem: Seq<u8>, data: Seq<u8>) -> Seq<u8> {
    Seq::new(mem.len(), |i: int| if i < data.len() { data[i] } else { mem[i] })
}

impl Intel8080 {
    /// The byte in the condition register.
    pub closed spec fn flag_byte(&self) -> u8 {
        self.registers.Flags
    }

    /// Memory and input latches of a processor always have their full size.
    pub proof fn lemma_view_wf(&self)
        ensures
            self@.wf(),
    {
    }

    /// A processor after reset: registers, memory and port latches cleared,
    /// interrupts enabled, nothing queued, the CP/M trap switched off.
    pub fn new() -> (cpu: Intel8080)
        ensures
            cpu@ == reset_state(),
            cpu.flag_byte() == INITIAL_FLAGS,
    {
        let cpu = Intel8080 {
            memory: [0;65536],
            PC: PROGRAM_START_ADDRESS as u16,
            registers: Registers::new(),
            total_ticks: 0,
            SP: 0,
            oport: Vec::new(),
            iport: [0;256],
            interrupt_enabled: true,
            interrupt_data: Vec::new(),
            cpm_trap: false,
        };
        assert(cpu@.mem =~= reset_state().mem);
        assert(cpu@.input =~= reset_state().input);
        cpu
    }

    /// Copies a program image to the start of memory.
    pub fn load_program(&mut self, data: Vec<u8>)
        requires
            data@.len() <= MEMORY_SIZE,
        ensures
            final(self)@ == (CpuState { mem: loaded(old(self)@.mem, data@), ..old(self)@ }),
            final(self).flag_byte() == old(self).flag_byte(),
    {
        let mut n: usize = 0;
        while n < data.len()
            invariant
                n <= data@.len() <= MEMORY_SIZE,
                self.memory@.len() == MEMORY_SIZE,
                forall|i: int| 0 <= i < n ==> self.memory@[i] == data@[i],
                forall|i: int| n <= i < MEMORY_SIZE ==> self.memory@[i] == old(self).memory@[i],
                self.PC == old(self).PC,
                self.SP == old(self).SP,
                self.registers == old(self).registers,
                self.total_ticks == old(self).total_ticks,
                self.oport == old(self).oport,
                self.iport == old(self).iport,
                self.interrupt_enabled == old(self).interrupt_enabled,
                self.interrupt_data == old(self).interrupt_data,
                self.cpm_trap == old(self).cpm_trap,
            decreases data@.len() - n,
        {
            self.memory[n] = data[n];
            n += 1;
        }
        assert(self@.mem =~= loaded(old(self)@.mem, data@));
    }

    /// The byte in the condition register. It always has the register's
    /// layout, and it is the packed form of the conditions.
    pub fn flags(&self) -> (f: u8)
        ensures
            f == self.flag_byte(),
            f == pack(self@.flags),
            well_formed(f),
    {
        proof {
            use_type_invariant(&self.registers);
            lemma_pack_unpack(self.registers.Flags);
        }
        self.registers.Flags
    }

    /// Checks the fixed bits of the condition register: bit 1 must read 1,
    /// bits 3 and 5 must read 0. No instruction ever breaks this.
    pub fn check_flags(&self) -> (ok: bool)
        ensures
            ok == (self.flag_byte() & 0x20 == 0 && self.flag_byte() & 0x08 == 0
                && self.flag_byte() & 0x02 == 0x02),
            ok == well_formed(self.flag_byte()),
            ok,
    {
        proof {
            use_type_invariant(&self.registers);
        }
        let flags = self.registers.Flags;
        assert(flags & 0x20 == 0 && flags & 0x08 == 0 && flags & 0x02 == 0x02) by (bit_vector)
            requires
                flags & 0x2A == 0x02,
        ;
        flags & 0x20 == 0 && flags & 0x08 == 0 && flags & 0x02 == 0x02
    }

    /// The memory operand: the byte at the address in HL.
    pub fn get_m(&self) -> (v: u8)
        ensures
            v == self@.read(self@.hl()),
    {
        let address: usize = (self.registers.H as usize) * 256 + (self.registers.L as usize);
        self.memory[address]
    }

    fn write_m(&mut self, value: u8)
        ensures
            final(self)@ == old(self)@.write(old(self)@.hl(), value),
    {
        let address: usize = (self.registers.H as usize) * 256 + (self.registers.L as usize);
        self.memory[address] = value;
    }

    /// The byte at an address.
    pub fn read_memory(&self, address: u16) -> (v: u8)
        ensures
            v == self@.read(address),
    {
        self.memory[address as usize]
    }

    fn write_memory(&mut self, address: u16, value: u8)
        ensures
            final(self)@ == old(self)@.write(address, value),
    {
        self.memory[address as usize] = value;
    }

    fn get_s(&self) -> (r: bool)
        ensures
            r == self@.flags.sign,
    {
        bit_is_set(self.registers.Flags, SIGN_BIT)
    }

    fn get_z(&self) -> (r: bool)
        ensures
            r == self@.flags.zero,
    {
        bit_is_set(self.registers.Flags, ZERO_BIT)
    }

    fn get_a(&self) -> (r: bool)
        ensures
            r == self@.flags.aux,
    {
        bit_is_set(self.registers.Flags, AUX_BIT)
    }

    fn get_p(&self) -> (r: bool)
        ensures
            r == self@.flags.parity,
    {
        bit_is_set(self.registers.Flags, PARITY_BIT)
    }

    fn get_c(&self) -> (r: bool)
        ensures
            r == self@.flags.carry,
    {
        bit_is_set(self.registers.Flags, CARRY_BIT)
    }

    fn write_s(&mut self, val: bool)
        ensures
            final(self)@ == old(self)@.with_flags(Flags { sign: val, ..old(self)@.flags }),
    {
        proof {
            use_type_invariant(&self.registers);
        }
        self.registers.Flags = assign_bit(self.registers.Flags, SIGN_BIT, val);
    }

    fn write_z(&mut self, val: bool)
        ensures
            final(self)@ == old(self)@.with_flags(Flags { zero: val, ..old(self)@.flags }),
    {
        proof {
            use_type_invariant(&self.registers);
        }
        self.registers.Flags = assign_bit(self.registers.Flags, ZERO_BIT, val);
    }

    fn write_a(&mut self, val: bool)
        ensures
            final(self)@ == old(self)@.with_flags(Flags { aux: val, ..old(self)@.flags }),
    {
        proof {
            use_type_invariant(&self.registers);
        }
        self.registers.Flags = assign_bit(self.registers.Flags, AUX_BIT, val);
    }

    fn write_p(&mut self, val: bool)
        ensures
            final(self)@ == old(self)@.with_flags(Flags { parity: val, ..old(self)@.flags }),
    {
        proof {
            use_type_invariant(&self.registers);
        }
        self.registers.Flags = assign_bit(self.registers.Flags, PARITY_BIT, val);
    }

    fn write_c(&mut self, val: bool)
        ensures
            final(self)@ == old(self)@.with_flags(Flags { carry: val, ..old(self)@.flags }),
    {
        proof {
            use_type_invariant(&self.registers);
        }
        self.registers.Flags = assign_bit(self.registers.Flags, CARRY_BIT, val);
    }

    /// Sets sign, zero and parity from a result.
    fn set_szp(&mut self, result: u8)
        ensures
            final(self)@ == old(self)@.with_flags(with_szp(old(self)@.flags, result)),
    {
        self.write_s(result & 0x80 != 0);
        self.write_z(result == 0);
        let mut parity: bool = true;
        let mut n: u8 = 0;
        while n < 8
            invariant
                n <= 8,
                parity == (ones_below(result, n) % 2 == 0),
            decreases 8 - n,
        {
            if ((result >> n) & 0x01) == 1 {
                parity = !parity;
            }
            n += 1;
        }
        self.write_p(parity);
    }

    /// Adds three operands, the third being a carry-in, and sets all five
    /// conditions from the addition.
    fn add_3_szapc(&mut self, i1: u8, i2: u8, i3: u8) -> (result: u8)
        requires
            i3 <= 1,
        ensures
            result == sum8(i1, i2, i3 as int),
            final(self)@ == old(self)@.with_flags(add_flags(old(self)@.flags, i1, i2, i3 as int)),
    {
        let result = i1.wrapping_add(i2).wrapping_add(i3);
        self.set_szp(result);
        proof {
            lemma_nibbles(i1);
            lemma_nibbles(i2);
        }
        let ac_result: u8 = (i1 & 0x0F) + (i2 & 0x0F) + i3;
        self.write_a(ac_result > 0x0F);
        self.write_c((i1 as u16) + (i2 as u16) + (i3 as u16) > 0xFF);
        result
    }

    /// Adds two operands and sets sign, zero, auxiliary carry and parity;
    /// the carry is left alone.
    fn add_szap(&mut self, i1: u8, i2: u8) -> (result: u8)
        ensures
            result == sum8(i1, i2, 0),
            final(self)@ == old(self)@.with_flags(
                Flags { carry: old(self)@.flags.carry, ..add_flags(old(self)@.flags, i1, i2, 0) },
            ),
    {
        let result = i1.wrapping_add(i2);
        self.set_szp(result);
        proof {
            lemma_nibbles(i1);
            lemma_nibbles(i2);
        }
        let ac_result: u8 = (i1 & 0x0F) + (i2 & 0x0F);
        self.write_a(ac_result > 0x0F);
        result
    }

    /// Adds two operands and sets all five conditions.
    fn add_szapc(&mut self, i1: u8, i2: u8) -> (result: u8)
        ensures
            result == sum8(i1, i2, 0),
            final(self)@ == old(self)@.with_flags(add_flags(old(self)@.flags, i1, i2, 0)),
    {
        let result = self.add_szap(i1, i2);
        self.set_c_add(i1, i2);
        result
    }

    /// Subtracts `i2` from `i1` by adding its complement and one, and sets
    /// sign, zero, auxiliary carry and parity; the carry is left alone.
    fn sub_szap(&mut self, i1: u8, i2: u8) -> (result: u8)
        ensures
            result == diff8(i1, i2, 0),
            final(self)@ == old(self)@.with_flags(
                Flags { carry: old(self)@.flags.carry, ..sub_flags(old(self)@.flags, i1, i2, 0) },
            ),
    {
        proof {
            lemma_complement(i2);
        }
        let carry = self.get_c();
        let result = self.add_3_szapc(i1, !i2, 1);
        self.write_c(carry);
        result
    }

    /// Subtracts `i2` from `i1` and sets all five conditions; the carry is
    /// the borrow.
    fn sub_szapc(&mut self, i1: u8, i2: u8) -> (result: u8)
        ensures
            result == diff8(i1, i2, 0),
            final(self)@ == old(self)@.with_flags(sub_flags(old(self)@.flags, i1, i2, 0)),
    {
        let result = self.sub_szap(i1, i2);
        self.set_c_sub(i1, i2);
        result
    }

    /// Sets the carry as an addition of the two operands leaves it.
    fn set_c_add(&mut self, i1: u8, i2: u8)
        ensures
            final(self)@ == old(self)@.with_flags(
                Flags { carry: i1 + i2 > 0xFF, ..old(self)@.flags },
            ),
    {
        self.write_c((i1 as u16) + (i2 as u16) > 0xFF);
    }

    /// Sets the carry as a subtraction of `i2` from `i1` leaves it: set when
    /// a borrow occurred.
    fn set_c_sub(&mut self, i1: u8, i2: u8)
        ensures
            final(self)@ == old(self)@.with_flags(Flags { carry: i2 > i1, ..old(self)@.flags }),
    {
        self.write_c(i2 > i1);
    }

    /// The register selected by a three-bit field: B, C, D, E, H, L, the
    /// memory operand, A.
    pub fn get_register(&self, num: u8) -> (v: u8)
        ensures
            v == self@.reg(num),
    {
        match num {
            0 => self.registers.B,
            1 => self.registers.C,
            2 => self.registers.D,
            3 => self.registers.E,
            4 => self.registers.H,
            5 => self.registers.L,
            6 => self.get_m(),
            7 => self.registers.A,
            _ => 0,
        }
    }

    fn write_register(&mut self, num: u8, val: u8)
        ensures
            final(self)@ == old(self)@.with_reg(num, val),
    {
        proof {
            use_type_invariant(&self.registers);
        }
        match num {
            0 => self.registers.B = val,
            1 => self.registers.C = val,
            2 => self.registers.D = val,
            3 => self.registers.E = val,
            4 => self.registers.H = val,
            5 => self.registers.L = val,
            6 => self.write_m(val),
            7 => self.registers.A = val,
            _ => {},
        }
    }

    pub fn get_bc(&self) -> (v: u16)
        ensures
            v == self@.bc(),
    {
        (self.registers.B as u16) * 256 + (self.registers.C as u16)
    }

    pub fn get_de(&self) -> (v: u16)
        ensures
            v == self@.de(),
    {
        (self.registers.D as u16) * 256 + (self.registers.E as u16)
    }

    pub fn get_hl(&self) -> (v: u16)
        ensures
            v == self@.hl(),
    {
        (self.registers.H as u16) * 256 + (self.registers.L as u16)
    }

    /// The program status word: accumulator in the high byte, condition
    /// register in the low byte.
    pub fn get_psw(&self) -> (v: u16)
        ensures
            v == self@.psw(),
    {
        let f = self.flags();
        (self.registers.A as u16) * 256 + (f as u16)
    }

    pub fn get_sp(&self) -> (v: u16)
        ensures
            v == self@.sp,
    {
        self.SP
    }

    pub fn get_pc(&self) -> (v: u16)
        ensures
            v == self@.pc,
    {
        self.PC
    }

    fn write_bc(&mut self, val: u16)
        ensures
            final(self)@ == old(self)@.with_bc(val),
    {
        self.write_register(0, (val / 256) as u8);
        self.write_register(1, (val % 256) as u8);
    }

    fn write_de(&mut self, val: u16)
        ensures
            final(self)@ == old(self)@.with_de(val),
    {
        self.write_register(2, (val / 256) as u8);
        self.write_register(3, (val % 256) as u8);
    }

    fn write_hl(&mut self, val: u16)
        ensures
            final(self)@ == old(self)@.with_hl(val),
    {
        self.write_register(4, (val / 256) as u8);
        self.write_register(5, (val % 256) as u8);
    }

    fn write_sp(&mut self, val: u16)
        ensures
            final(self)@ == (CpuState { sp: val, ..old(self)@ }),
    {
        self.SP = val;
    }

    /// The register pair selected by a two-bit field: BC, DE, HL, SP.
    fn get_pair(&self, rp: u8) -> (v: u16)
        ensures
            v == self@.pair(rp),
    {
        match rp {
            0 => self.get_bc(),
            1 => self.get_de(),
            2 => self.get_hl(),
            3 => self.get_sp(),
            _ => 0,
        }
    }

    fn write_pair(&mut self, rp: u8, val: u16)
        ensures
            final(self)@ == old(self)@.with_pair(rp, val),
    {
        match rp {
            0 => self.write_bc(val),
            1 => self.write_de(val),
            2 => self.write_hl(val),
            3 => self.write_sp(val),
            _ => {},
        }
    }

    /// Reads the byte at the program counter and moves the program counter
    /// past it.
    fn read_next_byte(&mut self) -> (val: u8)
        ensures
            val == old(self)@.operand8(),
            final(self)@ == old(self)@.skip(1),
    {
        let val = self.memory[self.PC as usize];
        proof {
            lemma_wrapping(self.PC, 1);
        }
        self.PC = self.PC.wrapping_add(1);
        val
    }

    /// Reads the little-endian word at the program counter and moves the
    /// program counter past it.
    fn read_next_word(&mut self) -> (val: u16)
        ensures
            val == old(self)@.operand16(),
            final(self)@ == old(self)@.skip(2),
    {
        let lo = self.read_next_byte();
        let hi = self.read_next_byte();
        (hi as u16) * 256 + (lo as u16)
    }

    /// The little-endian word at an address.
    fn read_word(&self, address: u16) -> (val: u16)
        ensures
            val == self@.read_word(address),
    {
        proof {
            lemma_wrapping(address, 1);
        }
        let lo = self.memory[address as usize];
        let hi = self.memory[address.wrapping_add(1) as usize];
        (hi as u16) * 256 + (lo as u16)
    }

    fn write_word(&mut self, address: u16, val: u16)
        ensures
            final(self)@ == old(self)@.write_word(address, val),
    {
        proof {
            lemma_wrapping(address, 1);
        }
        self.memory[address as usize] = (val % 256) as u8;
        self.memory[address.wrapping_add(1) as usize] = (val / 256) as u8;
    }

    /// Pushes a word: the stack pointer goes down by two, then the low byte
    /// is stored at the stack pointer and the high byte above it.
    fn push_word(&mut self, val: u16)
        ensures
            final(self)@ == old(self)@.push_word(val),
    {
        proof {
            lemma_wrapping(self.SP, 2);
        }
        self.SP = self.SP.wrapping_sub(2);
        self.write_word(self.SP, val);
    }

    /// Pops a word: the bytes are read before the stack pointer goes up by
    /// two.
    fn pop_word(&mut self) -> (val: u16)
        ensures
            val == old(self)@.stack_top(),
            final(self)@ == old(self)@.drop_word(),
    {
        let val = self.read_word(self.SP);
        proof {
            lemma_wrapping(self.SP, 2);
        }
        self.SP = self.SP.wrapping_add(2);
        val
    }

    /// Whether the condition selected by a three-bit code holds:
    /// NZ, Z, NC, C, PO, PE, P, M.
    fn condition(&self, cc: u8) -> (r: bool)
        ensures
            r == condition_holds(self@.flags, cc),
    {
        match cc {
            0 => !self.get_z(),
            1 => self.get_z(),
            2 => !self.get_c(),
            3 => self.get_c(),
            4 => !self.get_p(),
            5 => self.get_p(),
            6 => !self.get_s(),
            7 => self.get_s(),
            _ => false,
        }
    }

    fn nop(&mut self) -> (cost: usize)
        ensures
            final(self)@ == old(self)@,
            cost == cycles(old(self)@, Instruction::Nop),
    {
        proof {
            reveal(cycles);
        }
        4
    }

    fn lxi(&mut self, rp: u8) -> (cost: usize)
        ensures
            final(self)@ == semantics::lxi(old(self)@, rp),
            cost == cycles(old(self)@, Instruction::Lxi { rp }),
    {
        proof {
            reveal(cycles);
        }
        let data = self.read_next_word();
        self.write_pair(rp, data);
        10
    }

    fn stax(&mut self, rp: u8) -> (cost: usize)
        ensures
            final(self)@ == semantics::stax(old(self)@, rp),
            cost == cycles(old(self)@, Instruction::Stax { rp }),
    {
        proof {
            reveal(cycles);
        }
        match rp {
            0 => {
                let address = self.get_bc();
                self.write_memory(address, self.registers.A);
            },
            1 => {
                let address = self.get_de();
                self.write_memory(address, self.registers.A);
            },
            _ => {},
        }
        7
    }

    fn inx(&mut self, rp: u8) -> (cost: usize)
        ensures
            final(self)@ == semantics::inx(old(self)@, rp),
            cost == cycles(old(self)@, Instruction::Inx { rp }),
    {
        proof {
            reveal(cycles);
        }
        let value = self.get_pair(rp);
        proof {
            lemma_wrapping(value, 1);
        }
        self.write_pair(rp, value.wrapping_add(1));
        5
    }

    fn inr(&mut self, ddd: u8) -> (cost: usize)
        ensures
            final(self)@ == semantics::inr(old(self)@, ddd),
            cost == cycles(old(self)@, Instruction::Inr { ddd }),
    {
        proof {
            reveal(cycles);
        }
        let value = self.get_register(ddd);
        let sum = self.add_szap(value, 1);
        self.write_register(ddd, sum);
        if ddd == 6 {
            10
        } else {
            5
        }
    }

    fn dcr(&mut self, ddd: u8) -> (cost: usize)
        ensures
            final(self)@ == semantics::dcr(old(self)@, ddd),
            cost == cycles(old(self)@, Instruction::Dcr { ddd }),
    {
        proof {
            reveal(cycles);
        }
        let value = self.get_register(ddd);
        let diff = self.sub_szap(value, 1);
        self.write_register(ddd, diff);
        if ddd == 6 {
            10
        } else {
            5
        }
    }

    fn mvi(&mut self, ddd: u8) -> (cost: usize)
        ensures
            final(self)@ == semantics::mvi(old(self)@, ddd),
            cost == cycles(old(self)@, Instruction::Mvi { ddd }),
    {
        proof {
            reveal(cycles);
        }
        let data = self.read_next_byte();
        self.write_register(ddd, data);
        if ddd == 6 {
            10
        } else {
            7
        }
    }

    fn dad(&mut self, rp: u8) -> (cost: usize)
        ensures
            final(self)@ == semantics::dad(old(self)@, rp),
            cost == cycles(old(self)@, Instruction::Dad { rp }),
    {
        proof {
            reveal(cycles);
        }
        let hl = self.get_hl();
        let value = self.get_pair(rp);
        proof {
            lemma_wrapping(hl, value);
        }
        let result = hl.wrapping_add(value);
        self.write_c(result < hl);
        self.write_hl(result);
        10
    }

    fn ldax(&mut self, rp: u8) -> (cost: usize)
        ensures
            final(self)@ == semantics::ldax(old(self)@, rp),
            cost == cycles(old(self)@, Instruction::Ldax { rp }),
    {
        proof {
            reveal(cycles);
        }
        match rp {
            0 => {
                let value = self.read_memory(self.get_bc());
                self.write_register(7, value);
            },
            1 => {
                let value = self.read_memory(self.get_de());
                self.write_register(7, value);
            },
            _ => {},
        }
        7
    }

    fn dcx(&mut self, rp: u8) -> (cost: usize)
        ensures
            final(self)@ == semantics::dcx(old(self)@, rp),
            cost == cycles(old(self)@, Instruction::Dcx { rp }),
    {
        proof {
            reveal(cycles);
        }
        let value = self.get_pair(rp);
        proof {
            lemma_wrapping(value, 1);
        }
        self.write_pair(rp, value.wrapping_sub(1));
        5
    }

    fn rlc(&mut self) -> (cost: usize)
        ensures
            final(self)@ == semantics::rlc(old(self)@),
            cost == cycles(old(self)@, Instruction::Rlc),
    {
        proof {
            reveal(cycles);
        }
        let a = self.registers.A;
        self.write_c(a & 0x80 != 0);
        self.write_register(7, (a << 1) | (a >> 7));
        4
    }

    fn rrc(&mut self) -> (cost: usize)
        ensures
            final(self)@ == semantics::rrc(old(self)@),
            cost == cycles(old(self)@, Instruction::Rrc),
    {
        proof {
            reveal(cycles);
        }
        let a = self.registers.A;
        self.write_c(a & 0x01 != 0);
        self.write_register(7, (a >> 1) | ((a & 1) << 7));
        4
    }

    fn ral(&mut self) -> (cost: usize)
        ensures
            final(self)@ == semantics::ral(old(self)@),
            cost == cycles(old(self)@, Instruction::Ral),
    {
        proof {
            reveal(cycles);
        }
        let a = self.registers.A;
        let carry: u8 = if self.get_c() {
            1
        } else {
            0
        };
        self.write_c(a & 0x80 != 0);
        self.write_register(7, (a << 1) | carry);
        4
    }

    fn rar(&mut self) -> (cost: usize)
        ensures
            final(self)@ == semantics::rar(old(self)@),
            cost == cycles(old(self)@, Instruction::Rar),
    {
        proof {
            reveal(cycles);
        }
        let a = self.registers.A;
        let carry: u8 = if self.get_c() {
            0x80
        } else {
            0
        };
        self.write_c(a & 0x01 != 0);
        self.write_register(7, (a >> 1) | carry);
        4
    }

    fn shld(&mut self) -> (cost: usize)
        ensures
            final(self)@ == semantics::shld(old(self)@),
            cost == cycles(old(self)@, Instruction::Shld),
    {
        proof {
            reveal(cycles);
        }
        let address = self.read_next_word();
        self.write_word(address, self.get_hl());
        16
    }

    fn daa(&mut self) -> (cost: usize)
        ensures
            final(self)@ == semantics::daa(old(self)@),
            cost == cycles(old(self)@, Instruction::Daa),
    {
        proof {
            reveal(cycles);
        }
        let a = self.registers.A;
        proof {
            lemma_nibbles(a);
        }
        let msb: u8 = a >> 4;
        let lsb: u8 = a & 0x0F;
        let mut add: u8 = 0;
        if lsb > 9 || self.get_a() {
            add = 6;
        }
        if msb > 9 || self.get_c() || (msb >= 9 && lsb > 9) {
            add += 0x60;
            self.write_c(true);
        }
        let result = self.add_szap(a, add);
        self.write_register(7, result);
        4
    }

    fn lhld(&mut self) -> (cost: usize)
        ensures
            final(self)@ == semantics::lhld(old(self)@),
            cost == cycles(old(self)@, Instruction::Lhld),
    {
        proof {
            reveal(cycles);
        }
        let address = self.read_next_word();
        let value = self.read_word(address);
        self.write_hl(value);
        16
    }

    fn cma(&mut self) -> (cost: usize)
        ensures
            final(self)@ == semantics::cma(old(self)@),
            cost == cycles(old(self)@, Instruction::Cma),
    {
        proof {
            reveal(cycles);
        }
        let a = self.registers.A;
        proof {
            lemma_complement(a);
        }
        self.write_register(7, !a);
        4
    }

    fn sta(&mut self) -> (cost: usize)
        ensures
            final(self)@ == semantics::sta(old(self)@),
            cost == cycles(old(self)@, Instruction::Sta),
    {
        proof {
            reveal(cycles);
        }
        let address = self.read_next_word();
        self.write_memory(address, self.registers.A);
        13
    }

    fn stc(&mut self) -> (cost: usize)
        ensures
            final(self)@ == semantics::stc(old(self)@),
            cost == cycles(old(self)@, Instruction::Stc),
    {
        proof {
            reveal(cycles);
        }
        self.write_c(true);
        4
    }

    fn lda(&mut self) -> (cost: usize)
        ensures
            final(self)@ == semantics::lda(old(self)@),
            cost == cycles(old(self)@, Instruction::Lda),
    {
        proof {
            reveal(cycles);
        }
        let address = self.read_next_word();
        let value = self.read_memory(address);
        self.write_register(7, value);
        13
    }

    fn cmc(&mut self) -> (cost: usize)
        ensures
            final(self)@ == semantics::cmc(old(self)@),
            cost == cycles(old(self)@, Instruction::Cmc),
    {
        proof {
            reveal(cycles);
        }
        let carry = self.get_c();
        self.write_c(!carry);
        4
    }

    fn mov(&mut self, ddd: u8, sss: u8) -> (cost: usize)
        ensures
            final(self)@ == semantics::mov(old(self)@, ddd, sss),
            cost == cycles(old(self)@, Instruction::Mov { ddd, sss }),
    {
        proof {
            reveal(cycles);
        }
        let mut cost: usize = 5;
        let value = self.get_register(sss);
        if sss == 6 {
            cost += 2;
        }
        self.write_register(ddd, value);
        if ddd == 6 {
            cost += 2;
        }
        cost
    }

    fn hlt(&mut self) -> (cost: usize)
        ensures
            final(self)@ == semantics::hlt(old(self)@),
            cost == cycles(old(self)@, Instruction::Hlt),
    {
        proof {
            reveal(cycles);
        }
        proof {
            lemma_wrapping(self.PC, 1);
        }
        self.PC = self.PC.wrapping_sub(1);
        7
    }

    /// Applies the accumulator operation selected by a three-bit code to the
    /// accumulator and an operand:
    /// ADD, ADC, SUB, SBB, ANA, XRA, ORA, CMP.
    fn alu_with(&mut self, alu: u8, operand: u8)
        ensures
            final(self)@ == semantics::alu_with(old(self)@, alu, operand),
    {
        let a_val: u8 = self.registers.A;
        proof {
            lemma_complement(operand);
        }
        match alu {
            0 => {
                let result = self.add_szapc(a_val, operand);
                self.write_register(7, result);
            },
            1 => {
                let carry: u8 = if self.get_c() {
                    1
                } else {
                    0
                };
                let result = self.add_3_szapc(a_val, operand, carry);
                self.write_register(7, result);
            },
            2 => {
                let result = self.sub_szapc(a_val, operand);
                self.write_register(7, result);
            },
            3 => {
                let carry: u8 = if self.get_c() {
                    1
                } else {
                    0
                };
                let result = self.add_3_szapc(a_val, !operand, 1 - carry);
                self.write_c(operand as u16 + carry as u16 > a_val as u16);
                self.write_register(7, result);
            },
            4 => {
                self.set_szp(a_val & operand);
                self.write_c(false);
                self.write_a((a_val | operand) & 0x08 != 0);
                self.write_register(7, a_val & operand);
            },
            5 => {
                self.set_szp(a_val ^ operand);
                self.write_c(false);
                self.write_a(false);
                self.write_register(7, a_val ^ operand);
            },
            6 => {
                self.set_szp(a_val | operand);
                self.write_c(false);
                self.write_a(false);
                self.write_register(7, a_val | operand);
            },
            7 => {
                let _ = self.sub_szapc(a_val, operand);
            },
            _ => {},
        }
    }

    fn aluop1(&mut self, alu: u8, sss: u8) -> (cost: usize)
        ensures
            final(self)@ == semantics::aluop1(old(self)@, alu, sss),
            cost == cycles(old(self)@, Instruction::Alu { alu, sss }),
    {
        proof {
            reveal(cycles);
        }
        let operand = self.get_register(sss);
        self.alu_with(alu, operand);
        if sss == 6 {
            7
        } else {
            4
        }
    }

    fn aluop2(&mut self, alu: u8) -> (cost: usize)
        ensures
            final(self)@ == semantics::aluop2(old(self)@, alu),
            cost == cycles(old(self)@, Instruction::AluImm { alu }),
    {
        proof {
            reveal(cycles);
        }
        let operand = self.read_next_byte();
        self.alu_with(alu, operand);
        7
    }

    fn ret(&mut self) -> (cost: usize)
        ensures
            final(self)@ == semantics::ret(old(self)@),
            cost == cycles(old(self)@, Instruction::Ret),
            cost == 10,
    {
        proof {
            reveal(cycles);
        }
        let address = self.pop_word();
        self.PC = address;
        10
    }

    fn rcc(&mut self, cc: u8) -> (cost: usize)
        ensures
            final(self)@ == semantics::rcc(old(self)@, cc),
            cost == cycles(old(self)@, Instruction::Rcc { cc }),
    {
        proof {
            reveal(cycles);
        }
        if self.condition(cc) {
            let address = self.pop_word();
            self.PC = address;
            11
        } else {
            5
        }
    }

    fn pop(&mut self, rp: u8) -> (cost: usize)
        ensures
            final(self)@ == semantics::pop(old(self)@, rp),
            cost == cycles(old(self)@, Instruction::Pop { rp }),
    {
        proof {
            reveal(cycles);
        }
        if rp < 3 {
            let value = self.pop_word();
            self.write_pair(rp, value);
        } else if rp == 3 {
            let value = self.pop_word();
            proof {
                use_type_invariant(&self.registers);
            }
            self.registers.A = (value / 256) as u8;
            self.registers.Flags = sanitize((value % 256) as u8);
        }
        10
    }

    fn jmp(&mut self) -> (cost: usize)
        ensures
            final(self)@ == semantics::jmp(old(self)@),
            cost == cycles(old(self)@, Instruction::Jmp),
    {
        proof {
            reveal(cycles);
        }
        let address = self.read_next_word();
        self.PC = address;
        10
    }

    fn jcc(&mut self, cc: u8) -> (cost: usize)
        ensures
            final(self)@ == semantics::jcc(old(self)@, cc),
            cost == cycles(old(self)@, Instruction::Jcc { cc }),
    {
        proof {
            reveal(cycles);
        }
        let address = self.read_next_word();
        if self.condition(cc) {
            self.PC = address;
        }
        10
    }

    fn call(&mut self) -> (cost: usize)
        ensures
            final(self)@ == semantics::call(old(self)@),
            cost == cycles(old(self)@, Instruction::Call),
    {
        proof {
            reveal(cycles);
        }
        let address = self.read_next_word();
        self.push_word(self.PC);
        self.PC = address;
        17
    }

    fn ccc(&mut self, cc: u8) -> (cost: usize)
        ensures
            final(self)@ == semantics::ccc(old(self)@, cc),
            cost == cycles(old(self)@, Instruction::Ccc { cc }),
    {
        proof {
            reveal(cycles);
        }
        let address = self.read_next_word();
        if self.condition(cc) {
            self.push_word(self.PC);
            self.PC = address;
            17
        } else {
            11
        }
    }

    fn push(&mut self, rp: u8) -> (cost: usize)
        ensures
            final(self)@ == semantics::push(old(self)@, rp),
            cost == cycles(old(self)@, Instruction::Push { rp }),
    {
        proof {
            reveal(cycles);
        }
        if rp < 3 {
            self.push_word(self.get_pair(rp));
        } else if rp == 3 {
            self.push_word(self.get_psw());
        } else {
            proof {
                lemma_wrapping(self.SP, 2);
            }
            self.SP = self.SP.wrapping_sub(2);
        }
        11
    }

    fn rst(&mut self, n: u8) -> (cost: usize)
        ensures
            final(self)@ == semantics::rst(old(self)@, n),
            cost == cycles(old(self)@, Instruction::Rst { n }),
    {
        proof {
            reveal(cycles);
        }
        self.push_word(self.PC);
        self.PC = (n as u16) * 8;
        11
    }

    fn out_port(&mut self) -> (cost: usize)
        ensures
            final(self)@ == semantics::out_port(old(self)@),
            cost == cycles(old(self)@, Instruction::Out),
    {
        proof {
            reveal(cycles);
        }
        let port = self.read_next_byte();
        self.oport.push((port, self.registers.A));
        10
    }

    fn in_port(&mut self) -> (cost: usize)
        ensures
            final(self)@ == semantics::in_port(old(self)@),
            cost == cycles(old(self)@, Instruction::In),
    {
        proof {
            reveal(cycles);
        }
        let port = self.read_next_byte();
        let value = self.iport[port as usize];
        self.write_register(7, value);
        10
    }

    fn xthl(&mut self) -> (cost: usize)
        ensures
            final(self)@ == semantics::xthl(old(self)@),
            cost == cycles(old(self)@, Instruction::Xthl),
    {
        proof {
            reveal(cycles);
        }
        let hl = self.get_hl();
        let top = self.read_word(self.SP);
        self.write_word(self.SP, hl);
        self.write_hl(top);
        18
    }

    fn pchl(&mut self) -> (cost: usize)
        ensures
            final(self)@ == semantics::pchl(old(self)@),
            cost == cycles(old(self)@, Instruction::Pchl),
    {
        proof {
            reveal(cycles);
        }
        self.PC = self.get_hl();
        5
    }

    fn xchg(&mut self) -> (cost: usize)
        ensures
            final(self)@ == semantics::xchg(old(self)@),
            cost == cycles(old(self)@, Instruction::Xchg),
    {
        proof {
            reveal(cycles);
        }
        let hl = self.get_hl();
        let de = self.get_de();
        self.write_hl(de);
        self.write_de(hl);
        4
    }

    fn di(&mut self) -> (cost: usize)
        ensures
            final(self)@ == semantics::di(old(self)@),
            cost == cycles(old(self)@, Instruction::Di),
    {
        proof {
            reveal(cycles);
        }
        self.interrupt_enabled = false;
        4
    }

    fn sphl(&mut self) -> (cost: usize)
        ensures
            final(self)@ == semantics::sphl(old(self)@),
            cost == cycles(old(self)@, Instruction::Sphl),
    {
        proof {
            reveal(cycles);
        }
        self.SP = self.get_hl();
        5
    }

    fn ei(&mut self) -> (cost: usize)
        ensures
            final(self)@ == semantics::ei(old(self)@),
            cost == cycles(old(self)@, Instruction::Ei),
    {
        proof {
            reveal(cycles);
        }
        self.interrupt_enabled = true;
        4
    }

    /// Decodes an opcode and executes the instruction. The program counter
    /// must already point past the opcode. Returns the clock cycles that the
    /// instruction is charged.
    pub fn decode_execute(&mut self, opcode: u8) -> (cost: usize)
        ensures
            final(self)@ == execute(old(self)@, instruction_of(opcode)),
            cost == cycles(old(self)@, instruction_of(opcode)),
            cost <= MAX_INSTRUCTION_TICKS,
            final(self)@.total_ticks == old(self)@.total_ticks,
            well_formed(final(self).flag_byte()),
    {
        proof {
            reveal(execute);
            reveal(cycles);
        }
        let cost = match decode(opcode) {
            Instruction::Rlc => self.rlc(),
            Instruction::Rrc => self.rrc(),
            Instruction::Ral => self.ral(),
            Instruction::Rar => self.rar(),
            Instruction::Shld => self.shld(),
            Instruction::Daa => self.daa(),
            Instruction::Lhld => self.lhld(),
            Instruction::Cma => self.cma(),
            Instruction::Sta => self.sta(),
            Instruction::Stc => self.stc(),
            Instruction::Lda => self.lda(),
            Instruction::Cmc => self.cmc(),
            Instruction::Hlt => self.hlt(),
            Instruction::Jmp => self.jmp(),
            Instruction::Ret => self.ret(),
            Instruction::Call => self.call(),
            Instruction::Out => self.out_port(),
            Instruction::In => self.in_port(),
            Instruction::Xthl => self.xthl(),
            Instruction::Pchl => self.pchl(),
            Instruction::Xchg => self.xchg(),
            Instruction::Di => self.di(),
            Instruction::Sphl => self.sphl(),
            Instruction::Ei => self.ei(),
            Instruction::Nop => self.nop(),
            Instruction::Lxi { rp } => self.lxi(rp),
            Instruction::Stax { rp } => self.stax(rp),
            Instruction::Inx { rp } => self.inx(rp),
            Instruction::Inr { ddd } => self.inr(ddd),
            Instruction::Dcr { ddd } => self.dcr(ddd),
            Instruction::Mvi { ddd } => self.mvi(ddd),
            Instruction::Dad { rp } => self.dad(rp),
            Instruction::Ldax { rp } => self.ldax(rp),
            Instruction::Dcx { rp } => self.dcx(rp),
            Instruction::Mov { ddd, sss } => self.mov(ddd, sss),
            Instruction::Alu { alu, sss } => self.aluop1(alu, sss),
            Instruction::Rcc { cc } => self.rcc(cc),
            Instruction::Pop { rp } => self.pop(rp),
            Instruction::Jcc { cc } => self.jcc(cc),
            Instruction::Ccc { cc } => self.ccc(cc),
            Instruction::Push { rp } => self.push(rp),
            Instruction::AluImm { alu } => self.aluop2(alu),
            Instruction::Rst { n } => self.rst(n),
            Instruction::Invalid => 0,
        };
        proof {
            use_type_invariant(&self.registers);
        }
        cost
    }

    /// The bytes that a CP/M system call writes to the console: function 9
    /// prints the string at DE up to its `$`, function 2 prints the character
    /// in E, any other function prints nothing.
    fn bdos_output(&self) -> (out: Vec<u8>)
        ensures
            out@ == semantics::bdos_output(self@),
    {
        let mut out: Vec<u8> = Vec::new();
        if self.registers.C == 9 {
            let start = self.get_de();
            let mut addr = start;
            let mut remaining: usize = MEMORY_SIZE;
            while remaining > 0 && self.memory[addr as usize] != STRING_END
                invariant
                    remaining <= MEMORY_SIZE,
                    out@ + semantics::dollar_string(self.memory@, addr, remaining as nat)
                        == semantics::dollar_string(self.memory@, start, MEMORY_SIZE as nat),
                decreases remaining,
            {
                out.push(self.memory[addr as usize]);
                proof {
                    lemma_wrapping(addr, 1);
                }
                addr = addr.wrapping_add(1);
                remaining -= 1;
            }
        } else if self.registers.C == 2 {
            out.push(self.registers.E);
        }
        out
    }

    /// Fetches and executes one instruction. Where the CP/M trap is switched
    /// on and the program counter stands at address 5, the system call is
    /// served first and the processor returns from it before the fetch.
    pub fn step(&mut self) -> (report: StepReport)
        requires
            old(self)@.total_ticks + MAX_STEP_TICKS <= usize::MAX,
        ensures
            final(self)@ == semantics::step(old(self)@),
            report.ticks == semantics::step_ticks(old(self)@),
            report.ticks <= MAX_STEP_TICKS,
            report.console@ == semantics::console_output(old(self)@),
            final(self)@.total_ticks == old(self)@.total_ticks + report.ticks,
            well_formed(final(self).flag_byte()),
    {
        let mut ticks: usize = 0;
        let mut console: Vec<u8> = Vec::new();
        if self.cpm_trap && self.PC == 5 {
            console = self.bdos_output();
            ticks = self.ret();
        }
        let opcode = self.fetch();
        let cost = self.decode_execute(opcode);
        ticks = ticks + cost;
        self.total_ticks = self.total_ticks + ticks;
        StepReport { ticks, console }
    }

    /// Serves one pending interrupt, if interrupts are enabled and one is
    /// pending: interrupts are disabled, the opcode pushed last is taken from
    /// the queue and executed without moving the program counter. Returns
    /// the clock cycles charged, 0 where nothing was served.
    pub fn serve_interrupt(&mut self) -> (ticks: usize)
        requires
            old(self)@.total_ticks + MAX_INSTRUCTION_TICKS <= usize::MAX,
        ensures
            final(self)@ == semantics::serve_interrupt(old(self)@),
            ticks == semantics::interrupt_ticks(old(self)@),
            ticks <= MAX_INSTRUCTION_TICKS,
            final(self)@.total_ticks == old(self)@.total_ticks + ticks,
            well_formed(final(self).flag_byte()),
    {
        proof {
            use_type_invariant(&self.registers);
        }
        match self.interrupt_data.pop() {
            Some(opcode) => {
                if self.interrupt_enabled {
                    self.interrupt_enabled = false;
                    let ticks = self.decode_execute(opcode);
                    self.total_ticks = self.total_ticks + ticks;
                    ticks
                } else {
                    self.interrupt_data.push(opcode);
                    assert(self.interrupt_data@ =~= old(self).interrupt_data@);
                    0
                }
            },
            None => 0,
        }
    }

    /// One turn of the emulation loop: executes the instruction at the
    /// program counter, then serves at most one pending interrupt.
    pub fn cycle(&mut self) -> (report: CycleReport)
        requires
            old(self)@.total_ticks + MAX_CYCLE_TICKS <= usize::MAX,
        ensures
            final(self)@ == semantics::cycle(old(self)@),
            report.ticks == semantics::step_ticks(old(self)@),
            report.interrupt_ticks == semantics::interrupt_ticks(semantics::step(old(self)@)),
            report.console@ == semantics::console_output(old(self)@),
            final(self)@.total_ticks == old(self)@.total_ticks + report.ticks
                + report.interrupt_ticks,
            final(self)@.total_ticks >= old(self)@.total_ticks,
            well_formed(final(self).flag_byte()),
    {
        let step = self.step();
        let interrupt_ticks = self.serve_interrupt();
        CycleReport { ticks: step.ticks, interrupt_ticks, console: step.console }
    }

    /// Reads the opcode at the program counter and moves the program counter
    /// past it.
    fn fetch(&mut self) -> (opcode: u8)
        ensures
            opcode == old(self)@.operand8(),
            final(self)@ == old(self)@.skip(1),
    {
        self.read_next_byte()
    }

    /// Clock cycles charged since reset.
    pub fn elapsed_ticks(&self) -> (ticks: usize)
        ensures
            ticks == self@.total_ticks,
    {
        self.total_ticks
    }

    /// Whether interrupts are enabled.
    pub fn interrupts_enabled(&self) -> (enabled: bool)
        ensures
            enabled == self@.interrupts_enabled,
    {
        self.interrupt_enabled
    }

    /// Switches the CP/M system call trap on or off.
    pub fn set_cpm_trap(&mut self, on: bool)
        ensures
            final(self)@ == (CpuState { cpm_trap: on, ..old(self)@ }),
            final(self).flag_byte() == old(self).flag_byte(),
    {
        self.cpm_trap = on;
    }

    /// Queues an opcode to be executed as an interrupt.
    pub fn request_interrupt(&mut self, opcode: u8)
        ensures
            final(self)@ == (CpuState { pending: old(self)@.pending.push(opcode), ..old(self)@ }),
            final(self).flag_byte() == old(self).flag_byte(),
    {
        self.interrupt_data.push(opcode);
    }

    /// Latches a byte on an input port.
    pub fn set_input(&mut self, port: u8, value: u8)
        ensures
            final(self)@ == (CpuState {
                input: old(self)@.input.update(port as int, value),
                ..old(self)@
            }),
            final(self).flag_byte() == old(self).flag_byte(),
    {
        self.iport[port as usize] = value;
    }

    /// Takes the most recent write to an output port off the queue.
    pub fn take_output(&mut self) -> (out: Option<(u8, u8)>)
        ensures
            old(self)@.output.len() == 0 ==> out.is_none() && final(self)@ == old(self)@,
            old(self)@.output.len() > 0 ==> out == Some(old(self)@.output.last()) && final(self)@
                == (CpuState { output: old(self)@.output.drop_last(), ..old(self)@ }),
            final(self).flag_byte() == old(self).flag_byte(),
    {
        let out = self.oport.pop();
        assert(old(self)@.output.len() == 0 ==> self.oport@ =~= old(self).oport@);
        out
    }

    /// Stores a byte in memory.
    pub fn poke(&mut self, address: u16, value: u8)
        ensures
            final(self)@ == old(self)@.write(address, value),
            final(self).flag_byte() == old(self).flag_byte(),
    {
        self.memory[address as usize] = value;
    }

    /// A copy of the video memory, the bytes from `VIDEO_START` up to
    /// `VIDEO_START + VIDEO_SIZE`.
    pub fn video_memory(&self) -> (frame: [u8; 7168])
        ensures
            frame@ == self@.mem.subrange(VIDEO_START as int, VIDEO_START + VIDEO_SIZE),
    {
        let mut frame: [u8; 7168] = [0;7168];
        let mut i: usize = 0;
        while i < VIDEO_SIZE
            invariant
                i <= VIDEO_SIZE,
                forall|k: int| 0 <= k < i ==> frame@[k] == self.memory@[VIDEO_START + k],
            decreases VIDEO_SIZE - i,
        {
            frame[i] = self.memory[VIDEO_START + i];
            i += 1;
        }
        assert(frame@ =~= self@.mem.subrange(VIDEO_START as int, VIDEO_START + VIDEO_SIZE));
        frame
    }
}

} // verus!
