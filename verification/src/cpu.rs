//! The executable engine: register file, status register, 64KB memory, and
//! the fetch-decode-execute dispatcher. Every operation is proved to compute
//! the corresponding function of the machine model in [`crate::machine`].

use vstd::prelude::*;

use crate::flags::{flag_if, CpuFlags, BREAK, BREAK2, CARRY, NEGATIVE, OVERFLOW, ZERO};
use crate::isa::{
    decode, lemma_decode_modes, needs_operand, operand_length, AddressingMode, Mnemonic, OpInfo,
    StepOutcome,
};
use crate::machine::{
    add_to_a, asl_value, halted_within, halts, instr_adc, instr_and, instr_asl, instr_asl_a,
    instr_bit, instr_branch, instr_clc, instr_compare, instr_dec_mem, instr_dex, instr_effect,
    instr_inc_mem, instr_inx, instr_lda, instr_ldx, instr_ldy, instr_lsr_a, instr_ora, instr_php,
    instr_rol, instr_rol_a, instr_sec, instr_sta, instr_tax, instr_txa, loaded_mem, operand_addr,
    read16, read8, reset_state, rol_value, run_n, stack_pop16, stack_pop8, stack_push16,
    stack_push8, start_of_run, state_wf, step_outcome, step_state, write16, zn_update_state,
    CpuState, LOAD_BASE, MEM_SIZE, RESET_VECTOR, STACK, STACK_RESET, STATUS_RESET,
};

verus! {

/// The CPU: accumulator, index registers, stack pointer, program counter,
/// status flags, and the flat 64KB memory it exclusively owns. Its view is
/// the mathematical [`CpuState`].
pub struct CPU {
    pub register_a: u8,
    pub status: CpuFlags,
    pub register_x: u8,
    pub register_y: u8,
    pub stack_pointer: u8,
    pub program_counter: u16,
    memory: Vec<u8>,
}

impl View for CPU {
    type V = CpuState;

    closed spec fn view(&self) -> CpuState {
        CpuState {
            a: self.register_a,
            x: self.register_x,
            y: self.register_y,
            sp: self.stack_pointer,
            status: self.status@,
            pc: self.program_counter,
            mem: self.memory@,
        }
    }
}

impl CPU {
    /// Well-formedness: the memory covers the full 16-bit address space.
    pub open spec fn wf(&self) -> bool {
        state_wf(self@)
    }

    /// A powered-on CPU: registers zero, stack pointer at its reset value,
    /// status preset, memory zero-filled.
    pub fn new() -> (r: Self)
        ensures
            r.wf(),
            r@ == (CpuState {
                a: 0,
                x: 0,
                y: 0,
                sp: STACK_RESET,
                status: STATUS_RESET,
                pc: 0,
                mem: Seq::new(MEM_SIZE as nat, |i: int| 0u8),
            }),
    {
        let memory = vec![0u8; MEM_SIZE];
        proof {
            assert(memory@ =~= Seq::new(MEM_SIZE as nat, |i: int| 0u8));
        }
        CPU {
            register_a: 0,
            status: CpuFlags::from_bits_truncate(STATUS_RESET),
            program_counter: 0,
            register_x: 0,
            register_y: 0,
            stack_pointer: STACK_RESET,
            memory,
        }
    }

    /// The byte stored at `addr`; no side effect.
    pub fn mem_read(&self, addr: u16) -> (r: u8)
        requires
            self.wf(),
        ensures
            r == read8(self@.mem, addr),
    {
        self.memory[addr as usize]
    }

    /// Stores `data` at `addr`.
    pub fn mem_write(&mut self, addr: u16, data: u8)
        requires
            old(self).wf(),
        ensures
            final(self).wf(),
            final(self)@ == (CpuState {
                mem: old(self)@.mem.update(addr as int, data),
                ..old(self)@
            }),
    {
        self.memory[addr as usize] = data;
    }

    /// The 16-bit little-endian value at `pos`: low byte there, high byte at
    /// the following address, wrapping around the top of the address space.
    fn mem_read_u16(&self, pos: u16) -> (r: u16)
        requires
            self.wf(),
        ensures
            r == read16(self@.mem, pos),
    {
        let lo = self.mem_read(pos) as u16;
        let hi = self.mem_read(pos.wrapping_add(1)) as u16;
        (hi << 8) | lo
    }

    /// Stores the 16-bit value `data` split little-endian at `pos`.
    fn mem_write_u16(&mut self, pos: u16, data: u16)
        requires
            old(self).wf(),
        ensures
            final(self).wf(),
            final(self)@ == (CpuState {
                mem: write16(old(self)@.mem, pos, data),
                ..old(self)@
            }),
    {
        let hi = (data >> 8) as u8;
        let lo = (data & 0xff) as u8;
        self.mem_write(pos, lo);
        self.mem_write(pos.wrapping_add(1), hi);
    }

    /// Re-zeros the accumulator and register X, restores status and stack
    /// pointer to their power-on values, and reloads the program counter from
    /// the reset vector. Memory and register Y are untouched.
    pub fn reset(&mut self)
        requires
            old(self).wf(),
        ensures
            final(self).wf(),
            final(self)@ == reset_state(old(self)@),
    {
        self.register_a = 0;
        self.register_x = 0;
        self.status = CpuFlags::from_bits_truncate(STATUS_RESET);
        self.stack_pointer = STACK_RESET;
        self.program_counter = self.mem_read_u16(RESET_VECTOR);
    }

    /// Copies the program image verbatim to the canonical base address and
    /// writes that base address, little-endian, into the reset vector.
    pub fn load(&mut self, program: Vec<u8>)
        requires
            old(self).wf(),
            program@.len() <= MEM_SIZE - LOAD_BASE,
        ensures
            final(self).wf(),
            final(self)@ == (CpuState {
                mem: loaded_mem(old(self)@.mem, program@),
                ..old(self)@
            }),
    {
        let ghost mem0 = self@.mem;
        let mut i: usize = 0;
        while i < program.len()
            invariant
                self.wf(),
                i <= program@.len(),
                program@.len() <= MEM_SIZE - LOAD_BASE,
                self@ == (CpuState { mem: self@.mem, ..old(self)@ }),
                self@.mem.len() == mem0.len(),
                forall|j: int|
                    0 <= j < MEM_SIZE ==> self@.mem[j] == (if LOAD_BASE <= j < LOAD_BASE + i {
                        program@[j - LOAD_BASE]
                    } else {
                        mem0[j]
                    }),
            decreases program@.len() - i,
        {
            self.mem_write(LOAD_BASE + (i as u16), program[i]);
            i = i + 1;
        }
        self.mem_write_u16(RESET_VECTOR, LOAD_BASE);
        proof {
            assert(self@.mem =~= loaded_mem(mem0, program@));
        }
    }

    /// Pushes one byte: writes at `STACK + sp`, then decrements the stack
    /// pointer, wrapping within the page.
    fn stack_push(&mut self, data: u8)
        requires
            old(self).wf(),
        ensures
            final(self).wf(),
            final(self)@ == stack_push8(old(self)@, data),
    {
        self.mem_write(STACK.wrapping_add(self.stack_pointer as u16), data);
        self.stack_pointer = self.stack_pointer.wrapping_sub(1);
    }

    /// Pushes a 16-bit value: high byte first, then low byte.
    fn stack_push_u16(&mut self, data: u16)
        requires
            old(self).wf(),
        ensures
            final(self).wf(),
            final(self)@ == stack_push16(old(self)@, data),
    {
        let hi = (data >> 8) as u8;
        let lo = (data & 0xff) as u8;
        self.stack_push(hi);
        self.stack_push(lo);
    }

    /// Pops one byte: increments the stack pointer, wrapping, then reads at
    /// `STACK + sp`.
    fn stack_pop(&mut self) -> (r: u8)
        requires
            old(self).wf(),
        ensures
            final(self).wf(),
            final(self)@ == stack_pop8(old(self)@).0,
            r == stack_pop8(old(self)@).1,
    {
        self.stack_pointer = self.stack_pointer.wrapping_add(1);
        self.mem_read(STACK.wrapping_add(self.stack_pointer as u16))
    }

    /// Pops a 16-bit value: low byte first, then high byte, recombined.
    fn stack_pop_u16(&mut self) -> (r: u16)
        requires
            old(self).wf(),
        ensures
            final(self).wf(),
            final(self)@ == stack_pop16(old(self)@).0,
            r == stack_pop16(old(self)@).1,
    {
        let lo = self.stack_pop() as u16;
        let hi = self.stack_pop() as u16;
        (hi << 8) | lo
    }

    /// Resolves an addressing mode to the effective address of the memory
    /// operand, with the program counter pointing at the first operand byte.
    /// The mode that declares no operand must not be resolved.
    fn get_operand_address(&self, mode: &AddressingMode) -> (addr: u16)
        requires
            self.wf(),
            !(*mode is NoneAddressing),
        ensures
            addr == operand_addr(self@, *mode),
    {
        match mode {
            AddressingMode::Immediate => self.program_counter,
            AddressingMode::ZeroPage => self.mem_read(self.program_counter) as u16,
            AddressingMode::Absolute => self.mem_read_u16(self.program_counter),
            AddressingMode::ZeroPage_X => {
                let pos = self.mem_read(self.program_counter);
                pos.wrapping_add(self.register_x) as u16
            },
            AddressingMode::ZeroPage_Y => {
                let pos = self.mem_read(self.program_counter);
                pos.wrapping_add(self.register_y) as u16
            },
            AddressingMode::Absolute_X => {
                let base = self.mem_read_u16(self.program_counter);
                base.wrapping_add(self.register_x as u16)
            },
            AddressingMode::Absolute_Y => {
                let base = self.mem_read_u16(self.program_counter);
                base.wrapping_add(self.register_y as u16)
            },
            AddressingMode::Indirect_X => {
                let base = self.mem_read(self.program_counter);
                let ptr = base.wrapping_add(self.register_x);
                let lo = self.mem_read(ptr as u16);
                let hi = self.mem_read(ptr.wrapping_add(1) as u16);
                ((hi as u16) << 8) | (lo as u16)
            },
            AddressingMode::Indirect_Y => {
                let base = self.mem_read(self.program_counter);
                let lo = self.mem_read(base as u16);
                let hi = self.mem_read(base.wrapping_add(1) as u16);
                let deref_base = ((hi as u16) << 8) | (lo as u16);
                deref_base.wrapping_add(self.register_y as u16)
            },
            AddressingMode::NoneAddressing => 0,
        }
    }

    /// Applies the shared zero/negative rule to the status register: Zero set
    /// iff `register` is zero, Negative set iff its bit 7 is set.
    fn update_status_flag(&mut self, register: u8)
        requires
            old(self).wf(),
        ensures
            final(self).wf(),
            final(self)@ == zn_update_state(old(self)@, register),
    {
        if register == 0 {
            self.status.insert(ZERO);
        } else {
            self.status.remove(ZERO);
        }
        if register & 0x80 != 0 {
            self.status.insert(NEGATIVE);
        } else {
            self.status.remove(NEGATIVE);
        }
    }

    /// Writes the accumulator and applies the shared rule to the new value.
    fn set_register_a(&mut self, value: u8)
        requires
            old(self).wf(),
        ensures
            final(self).wf(),
            final(self)@ == (CpuState {
                a: value,
                ..zn_update_state(old(self)@, value)
            }),
    {
        self.register_a = value;
        self.update_status_flag(self.register_a);
    }

    /// Load into the accumulator.
    fn lda(&mut self, mode: &AddressingMode)
        requires
            old(self).wf(),
            !(*mode is NoneAddressing),
        ensures
            final(self).wf(),
            final(self)@ == instr_lda(old(self)@, *mode),
    {
        let addr = self.get_operand_address(mode);
        let value = self.mem_read(addr);
        self.register_a = value;
        self.update_status_flag(self.register_a);
    }

    /// Load into register X.
    fn ldx(&mut self, mode: &AddressingMode)
        requires
            old(self).wf(),
            !(*mode is NoneAddressing),
        ensures
            final(self).wf(),
            final(self)@ == instr_ldx(old(self)@, *mode),
    {
        let addr = self.get_operand_address(mode);
        let value = self.mem_read(addr);
        self.register_x = value;
        self.update_status_flag(self.register_x);
    }

    /// Load into register Y.
    fn ldy(&mut self, mode: &AddressingMode)
        requires
            old(self).wf(),
            !(*mode is NoneAddressing),
        ensures
            final(self).wf(),
            final(self)@ == instr_ldy(old(self)@, *mode),
    {
        let addr = self.get_operand_address(mode);
        let value = self.mem_read(addr);
        self.register_y = value;
        self.update_status_flag(self.register_y);
    }

    /// Transfer the accumulator to register X.
    fn tax(&mut self)
        requires
            old(self).wf(),
        ensures
            final(self).wf(),
            final(self)@ == instr_tax(old(self)@),
    {
        self.register_x = self.register_a;
        self.update_status_flag(self.register_x);
    }

    /// Transfer register X to the accumulator.
    fn txa(&mut self)
        requires
            old(self).wf(),
        ensures
            final(self).wf(),
            final(self)@ == instr_txa(old(self)@),
    {
        self.set_register_a(self.register_x);
    }

    /// Branch: when the condition holds, jump by the sign-extended offset
    /// byte relative to the address after it; otherwise step past the offset
    /// byte.
    fn branch(&mut self, condition: bool)
        requires
            old(self).wf(),
        ensures
            final(self).wf(),
            final(self)@ == instr_branch(old(self)@, condition),
    {
        if condition {
            let jump = self.mem_read(self.program_counter);
            let offset: u16 = if jump >= 0x80 {
                (jump as u16) | 0xff00
            } else {
                jump as u16
            };
            self.program_counter = self.program_counter.wrapping_add(1).wrapping_add(offset);
        } else {
            self.program_counter = self.program_counter.wrapping_add(1);
        }
    }

    /// Arithmetic shift left of the accumulator.
    fn asl_accumulator(&mut self)
        requires
            old(self).wf(),
        ensures
            final(self).wf(),
            final(self)@ == instr_asl_a(old(self)@),
    {
        let value = self.register_a;
        let carry = value & 0x80 != 0;
        self.status.set(CARRY, carry);
        self.set_register_a(value << 1);
    }

    /// Arithmetic shift left of the byte at the resolved address, written
    /// back; the shifted value is also returned.
    fn asl(&mut self, mode: &AddressingMode) -> (r: u8)
        requires
            old(self).wf(),
            !(*mode is NoneAddressing),
        ensures
            final(self).wf(),
            final(self)@ == instr_asl(old(self)@, *mode),
            r == asl_value(
                old(self)@.status,
                read8(old(self)@.mem, operand_addr(old(self)@, *mode)),
            ).0,
    {
        let addr = self.get_operand_address(mode);
        let value = self.mem_read(addr);
        let carry = value & 0x80 != 0;
        self.status.set(CARRY, carry);
        let shifted = value << 1;
        self.mem_write(addr, shifted);
        self.update_status_flag(shifted);
        shifted
    }

    /// Logical shift right of the accumulator; Carry takes the pre-shift high
    /// bit, the same test the left shift uses.
    fn lsr_accumulator(&mut self)
        requires
            old(self).wf(),
        ensures
            final(self).wf(),
            final(self)@ == instr_lsr_a(old(self)@),
    {
        let value = self.register_a;
        let carry = value & 0x80 != 0;
        self.status.set(CARRY, carry);
        self.set_register_a(value / 2);
    }

    /// Push flags: a copy of the status byte with both break bits forced set;
    /// the live status register is unmodified.
    fn php(&mut self)
        requires
            old(self).wf(),
        ensures
            final(self).wf(),
            final(self)@ == instr_php(old(self)@),
    {
        let mut flags = self.status;
        flags.insert(BREAK);
        flags.insert(BREAK2);
        self.stack_push(flags.bits());
    }

    /// Increment register X, wrapping.
    fn inx(&mut self)
        requires
            old(self).wf(),
        ensures
            final(self).wf(),
            final(self)@ == instr_inx(old(self)@),
    {
        self.register_x = self.register_x.wrapping_add(1);
        self.update_status_flag(self.register_x);
    }

    /// Decrement register X, wrapping.
    fn dex(&mut self)
        requires
            old(self).wf(),
        ensures
            final(self).wf(),
            final(self)@ == instr_dex(old(self)@),
    {
        self.register_x = self.register_x.wrapping_sub(1);
        self.update_status_flag(self.register_x);
    }

    /// Add with carry into the accumulator: widened sum, Carry from the
    /// carry-out, Overflow from the sign bits, truncated result under the
    /// shared rule.
    fn add_to_register_a(&mut self, data: u8)
        requires
            old(self).wf(),
        ensures
            final(self).wf(),
            final(self)@ == add_to_a(old(self)@, data),
    {
        let carry_in: u16 = if self.status.contains(CARRY) {
            1
        } else {
            0
        };
        let sum: u16 = self.register_a as u16 + data as u16 + carry_in;
        let carry = sum > 255;
        self.status.set(CARRY, carry);
        let result = (sum % 256) as u8;
        let overflow = (data ^ result) & (result ^ self.register_a) & 0x80 != 0;
        self.status.set(OVERFLOW, overflow);
        self.set_register_a(result);
    }

    /// Add with carry on the operand the mode resolves to.
    fn adc(&mut self, mode: &AddressingMode)
        requires
            old(self).wf(),
            !(*mode is NoneAddressing),
        ensures
            final(self).wf(),
            final(self)@ == instr_adc(old(self)@, *mode),
    {
        let addr = self.get_operand_address(mode);
        let value = self.mem_read(addr);
        self.add_to_register_a(value);
    }

    /// Bitwise AND into the accumulator, Zero set directly from the result on
    /// its own inline path before the shared rule runs.
    fn bitwise_and(&mut self, data: u8)
        requires
            old(self).wf(),
        ensures
            final(self).wf(),
            final(self)@ == (CpuState {
                a: old(self)@.a & data,
                ..zn_update_state(
                    CpuState {
                        status: flag_if(
                            old(self)@.status,
                            ZERO,
                            old(self)@.a & data == 0,
                        ),
                        ..old(self)@
                    },
                    old(self)@.a & data,
                )
            }),
    {
        let value = self.register_a & data;
        let zero: bool = value == 0;
        self.status.set(ZERO, zero);
        self.set_register_a(value);
    }

    /// Bitwise AND with the operand the mode resolves to.
    fn and(&mut self, mode: &AddressingMode)
        requires
            old(self).wf(),
            !(*mode is NoneAddressing),
        ensures
            final(self).wf(),
            final(self)@ == instr_and(old(self)@, *mode),
    {
        let addr = self.get_operand_address(mode);
        let value = self.mem_read(addr);
        self.bitwise_and(value);
    }

    /// Set the carry flag.
    fn sec(&mut self)
        requires
            old(self).wf(),
        ensures
            final(self).wf(),
            final(self)@ == instr_sec(old(self)@),
    {
        self.status.insert(CARRY);
    }

    /// Clear the carry flag.
    fn clc(&mut self)
        requires
            old(self).wf(),
        ensures
            final(self).wf(),
            final(self)@ == instr_clc(old(self)@),
    {
        self.status.remove(CARRY);
    }

    /// Rotate left of the accumulator: old Carry into bit 0, Carry from the
    /// pre-shift high bit, the shared rule on the pre-shift value.
    fn rol_accumulator(&mut self)
        requires
            old(self).wf(),
        ensures
            final(self).wf(),
            final(self)@ == instr_rol_a(old(self)@),
    {
        let value = self.register_a;
        let carry: u8 = if self.status.contains(CARRY) {
            1
        } else {
            0
        };
        let new_carry = value & 0x80 != 0;
        let shifted = (value << 1) | carry;
        self.status.set(CARRY, new_carry);
        self.register_a = shifted;
        self.update_status_flag(value);
    }

    /// Rotate left of the byte at the resolved address, written back; the
    /// rotated value is also returned.
    fn rol(&mut self, mode: &AddressingMode) -> (r: u8)
        requires
            old(self).wf(),
            !(*mode is NoneAddressing),
        ensures
            final(self).wf(),
            final(self)@ == instr_rol(old(self)@, *mode),
            r == rol_value(
                old(self)@.status,
                read8(old(self)@.mem, operand_addr(old(self)@, *mode)),
            ).0,
    {
        let addr = self.get_operand_address(mode);
        let value = self.mem_read(addr);
        let carry: u8 = if self.status.contains(CARRY) {
            1
        } else {
            0
        };
        let new_carry = value & 0x80 != 0;
        let shifted = (value << 1) | carry;
        self.status.set(CARRY, new_carry);
        self.mem_write(addr, shifted);
        self.update_status_flag(value);
        shifted
    }

    /// Store the accumulator at the resolved address; no flag effect.
    fn sta(&mut self, mode: &AddressingMode)
        requires
            old(self).wf(),
            !(*mode is NoneAddressing),
        ensures
            final(self).wf(),
            final(self)@ == instr_sta(old(self)@, *mode),
    {
        let addr = self.get_operand_address(mode);
        self.mem_write(addr, self.register_a);
    }

    /// Bit test: Zero from the masked accumulator (set when the mask is not
    /// zero), Overflow and Negative copied from bits 6 and 7 of the operand.
    fn bit(&mut self, mode: &AddressingMode)
        requires
            old(self).wf(),
            !(*mode is NoneAddressing),
        ensures
            final(self).wf(),
            final(self)@ == instr_bit(old(self)@, *mode),
    {
        let addr = self.get_operand_address(mode);
        let value = self.mem_read(addr);
        let result = self.register_a & value;
        self.status.set(ZERO, result != 0);
        self.status.set(OVERFLOW, value & 0x40 != 0);
        self.status.set(NEGATIVE, value & 0x80 != 0);
    }

    /// Compare: Carry set when the operand is at most the compared register,
    /// the shared rule on the register less one.
    fn compare(&mut self, mode: &AddressingMode, compare_with: u8)
        requires
            old(self).wf(),
            !(*mode is NoneAddressing),
        ensures
            final(self).wf(),
            final(self)@ == instr_compare(old(self)@, *mode, compare_with),
    {
        let addr = self.get_operand_address(mode);
        let value = self.mem_read(addr);
        self.status.set(CARRY, value <= compare_with);
        self.update_status_flag(compare_with.wrapping_sub(1));
    }

    /// Increment the byte at the resolved address, wrapping.
    fn inc_mem(&mut self, mode: &AddressingMode)
        requires
            old(self).wf(),
            !(*mode is NoneAddressing),
        ensures
            final(self).wf(),
            final(self)@ == instr_inc_mem(old(self)@, *mode),
    {
        let addr = self.get_operand_address(mode);
        let value = self.mem_read(addr).wrapping_add(1);
        self.mem_write(addr, value);
        self.update_status_flag(value);
    }

    /// Decrement the byte at the resolved address, wrapping.
    fn dec_mem(&mut self, mode: &AddressingMode)
        requires
            old(self).wf(),
            !(*mode is NoneAddressing),
        ensures
            final(self).wf(),
            final(self)@ == instr_dec_mem(old(self)@, *mode),
    {
        let addr = self.get_operand_address(mode);
        let value = self.mem_read(addr).wrapping_sub(1);
        self.mem_write(addr, value);
        self.update_status_flag(value);
    }

    /// Bitwise inclusive OR into the accumulator.
    fn ora(&mut self, mode: &AddressingMode)
        requires
            old(self).wf(),
            !(*mode is NoneAddressing),
        ensures
            final(self).wf(),
            final(self)@ == instr_ora(old(self)@, *mode),
    {
        let addr = self.get_operand_address(mode);
        let value = self.mem_read(addr);
        self.set_register_a(value | self.register_a);
    }

    /// Invokes the handler of one decoded instruction, with the program
    /// counter already pointing at the first operand byte. The dispatcher's
    /// own program-counter advancement happens in [`CPU::step`].
    fn exec_instr(&mut self, info: OpInfo)
        requires
            old(self).wf(),
            !(info.mnemonic is Halt),
            needs_operand(info.mnemonic) ==> !(info.mode is NoneAddressing),
        ensures
            final(self).wf(),
            final(self)@ == instr_effect(old(self)@, info.mnemonic, info.mode),
    {
        match info.mnemonic {
            Mnemonic::Lda => self.lda(&info.mode),
            Mnemonic::Ldx => self.ldx(&info.mode),
            Mnemonic::Ldy => self.ldy(&info.mode),
            Mnemonic::Sta => self.sta(&info.mode),
            Mnemonic::Adc => self.adc(&info.mode),
            Mnemonic::And => self.and(&info.mode),
            Mnemonic::Ora => self.ora(&info.mode),
            Mnemonic::Bit => self.bit(&info.mode),
            Mnemonic::AslA => self.asl_accumulator(),
            Mnemonic::Asl => {
                let _ = self.asl(&info.mode);
            },
            Mnemonic::LsrA => self.lsr_accumulator(),
            Mnemonic::RolA => self.rol_accumulator(),
            Mnemonic::Rol => {
                let _ = self.rol(&info.mode);
            },
            Mnemonic::IncMem => self.inc_mem(&info.mode),
            Mnemonic::DecMem => self.dec_mem(&info.mode),
            Mnemonic::Inx => self.inx(),
            Mnemonic::Dex => self.dex(),
            Mnemonic::Tax => self.tax(),
            Mnemonic::Txa => self.txa(),
            Mnemonic::CmpA => {
                let compare_with = self.register_a;
                self.compare(&info.mode, compare_with);
            },
            Mnemonic::CmpX => {
                let compare_with = self.register_x;
                self.compare(&info.mode, compare_with);
            },
            Mnemonic::Bpl => {
                let condition = !self.status.contains(NEGATIVE);
                self.branch(condition);
            },
            Mnemonic::Bne => {
                let condition = !self.status.contains(ZERO);
                self.branch(condition);
            },
            Mnemonic::Bcs => {
                let condition = self.status.contains(CARRY);
                self.branch(condition);
            },
            Mnemonic::Beq => {
                let condition = self.status.contains(ZERO);
                self.branch(condition);
            },
            Mnemonic::Jmp => {
                let address = self.mem_read_u16(self.program_counter);
                self.program_counter = address;
            },
            Mnemonic::Jsr => {
                self.stack_push_u16(self.program_counter.wrapping_add(1));
                let target = self.mem_read_u16(self.program_counter);
                self.program_counter = target;
            },
            Mnemonic::Rts => {
                let address = self.stack_pop_u16();
                self.program_counter = address.wrapping_add(1);
            },
            Mnemonic::Php => self.php(),
            Mnemonic::Sec => self.sec(),
            Mnemonic::Clc => self.clc(),
            Mnemonic::Nop => {},
            Mnemonic::Halt => {
                assert(false);
            },
        }
    }

    /// One fetch-decode-execute step: fetches the opcode at the program
    /// counter, steps past it, looks the byte up in the dispatch table, runs
    /// the handler, and — unless the handler owns the program counter —
    /// advances it by the mode's operand length. Reports whether the machine
    /// is still running, executed the halt opcode, or met a byte absent from
    /// the table.
    pub fn step(&mut self) -> (r: StepOutcome)
        requires
            old(self).wf(),
        ensures
            final(self).wf(),
            final(self)@ == step_state(old(self)@),
            r == step_outcome(old(self)@),
    {
        let opcode = self.mem_read(self.program_counter);
        self.program_counter = self.program_counter.wrapping_add(1);
        match decode(opcode) {
            None => StepOutcome::IllegalOpcode(opcode),
            Some(info) => {
                match info.mnemonic {
                    Mnemonic::Halt => StepOutcome::Halted,
                    _ => {
                        proof {
                            lemma_decode_modes(opcode);
                        }
                        self.exec_instr(info);
                        if !info.owns_pc {
                            let step = operand_length(&info.mode);
                            self.program_counter = self.program_counter.wrapping_add(step);
                        }
                        StepOutcome::Running
                    },
                }
            },
        }
    }

    /// The dispatch loop: steps until a step reports something other than
    /// `Running`, and returns that terminal outcome — the halt opcode, or an
    /// illegal instruction. The machine must be known to halt; a caller
    /// without that knowledge drives [`CPU::step`] under its own step budget.
    pub fn interpret(&mut self) -> (r: StepOutcome)
        requires
            old(self).wf(),
            halts(old(self)@),
        ensures
            final(self).wf(),
            exists|n: nat| halted_within(old(self)@, final(self)@, r, n),
    {
        let ghost start = self@;
        let ghost halt_index = choose|n: nat| !(#[trigger] step_outcome(run_n(start, n)) is Running);
        let ghost mut n: nat = 0;
        loop
            invariant
                self.wf(),
                start == old(self)@,
                self@ == run_n(start, n),
                n <= halt_index,
                !(step_outcome(run_n(start, halt_index)) is Running),
                forall|i: nat| i < n ==> #[trigger] step_outcome(run_n(start, i)) is Running,
            decreases halt_index - n,
        {
            let outcome = self.step();
            match outcome {
                StepOutcome::Running => {
                    proof {
                        n = n + 1;
                    }
                },
                _ => {
                    proof {
                        assert(halted_within(start, self@, outcome, n));
                    }
                    return outcome;
                },
            }
        }
    }

    /// Bounded execution built on the single-step primitive: runs at most
    /// `max_steps` steps. A terminal outcome within the budget is returned as
    /// [`CPU::interpret`] would return it; `Running` means the budget ran out
    /// first, with the machine left exactly `max_steps` steps along.
    pub fn run_for(&mut self, max_steps: usize) -> (r: StepOutcome)
        requires
            old(self).wf(),
        ensures
            final(self).wf(),
            r is Running ==> final(self)@ == run_n(old(self)@, max_steps as nat) && (forall|i: nat|
                i < max_steps ==> #[trigger] step_outcome(run_n(old(self)@, i)) is Running),
            !(r is Running) ==> exists|n: nat|
                n < max_steps && halted_within(old(self)@, final(self)@, r, n),
    {
        let ghost start = self@;
        let mut steps: usize = 0;
        while steps < max_steps
            invariant
                self.wf(),
                start == old(self)@,
                steps <= max_steps,
                self@ == run_n(start, steps as nat),
                forall|i: nat| i < steps ==> #[trigger] step_outcome(run_n(start, i)) is Running,
            decreases max_steps - steps,
        {
            let outcome = self.step();
            match outcome {
                StepOutcome::Running => {
                    steps = steps + 1;
                },
                _ => {
                    proof {
                        assert(halted_within(start, self@, outcome, steps as nat));
                    }
                    return outcome;
                },
            }
        }
        StepOutcome::Running
    }

    /// Loads the program image, resets, and runs the dispatch loop to its
    /// terminal outcome.
    pub fn load_and_run(&mut self, program: Vec<u8>) -> (r: StepOutcome)
        requires
            old(self).wf(),
            program@.len() <= MEM_SIZE - LOAD_BASE,
            halts(start_of_run(old(self)@, program@)),
        ensures
            final(self).wf(),
            exists|n: nat|
                halted_within(start_of_run(old(self)@, program@), final(self)@, r, n),
    {
        self.load(program);
        self.reset();
        self.interpret()
    }
}

} // verus!
