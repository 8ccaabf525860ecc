//! The machine model: a mathematical CPU state and a pure step function
//! giving the exact effect of every instruction of the implemented subset.
//! The executable engine in [`crate::cpu`] is proved to compute these
//! functions; the laws at the end of this module (determinism, the
//! subroutine-call round trip) are stated and proved against them.

use vstd::prelude::*;

use crate::flags::{flag_if, has_flag, zn_update, BREAK, BREAK2, CARRY, NEGATIVE, ZERO};
use crate::isa::{operand_len, spec_decode, AddressingMode, Mnemonic, StepOutcome};

verus! {

/// Size of the flat address space: exactly 16 bits wide.
pub const MEM_SIZE: usize = 0x10000;

/// Base address of the fixed stack page: push writes at `STACK + sp`.
pub const STACK: u16 = 0x1000;

/// Stack-pointer value at power-on and after reset.
pub const STACK_RESET: u8 = 0xfd;

/// Status byte at power-on and after reset: InterruptDisable and Break2.
pub const STATUS_RESET: u8 = 0x24;

/// Canonical base address at which a program image is loaded.
pub const LOAD_BASE: u16 = 0x0600;

/// Address of the little-endian reset vector; execution starts at the 16-bit
/// value stored there.
pub const RESET_VECTOR: u16 = 0xfffc;

/// The whole CPU state as mathematics: the register file, the status byte,
/// the program counter, and the 64KB memory.
pub ghost struct CpuState {
    pub a: u8,
    pub x: u8,
    pub y: u8,
    pub sp: u8,
    pub status: u8,
    pub pc: u16,
    pub mem: Seq<u8>,
}

/// A state is well formed when its memory covers the full address space.
pub open spec fn state_wf(s: CpuState) -> bool {
    s.mem.len() == MEM_SIZE
}

/// The byte stored at `addr`.
pub open spec fn read8(mem: Seq<u8>, addr: u16) -> u8 {
    mem[addr as int]
}

/// The 16-bit little-endian value at `addr`: low byte there, high byte at the
/// following address, which wraps around the top of the address space.
pub open spec fn read16(mem: Seq<u8>, addr: u16) -> u16 {
    ((read8(mem, addr.wrapping_add(1)) as u16) << 8) | (read8(mem, addr) as u16)
}

/// The memory with `data` stored at `addr`.
pub open spec fn write8(mem: Seq<u8>, addr: u16, data: u8) -> Seq<u8> {
    mem.update(addr as int, data)
}

/// The memory with the 16-bit value `data` split little-endian at `addr`.
pub open spec fn write16(mem: Seq<u8>, addr: u16, data: u16) -> Seq<u8> {
    write8(write8(mem, addr, (data & 0xff) as u8), addr.wrapping_add(1), (data >> 8) as u8)
}

/// A signed 8-bit branch offset widened to 16 bits.
pub open spec fn sign_extend(off: u8) -> u16 {
    if off >= 0x80 {
        (off as u16) | 0xff00
    } else {
        off as u16
    }
}

/// The effective address an addressing mode resolves to, with the program
/// counter pointing at the first operand byte. Zero-page indexing stays in
/// page zero; absolute indexing wraps around the 16-bit space; the two
/// indirect modes read their pointer from page zero, the pointer's second
/// byte wrapping within the page. `NoneAddressing` resolves to nothing; the
/// dispatcher never asks it to.
pub open spec fn operand_addr(s: CpuState, mode: AddressingMode) -> u16 {
    match mode {
        AddressingMode::Immediate => s.pc,
        AddressingMode::ZeroPage => read8(s.mem, s.pc) as u16,
        AddressingMode::ZeroPage_X => read8(s.mem, s.pc).wrapping_add(s.x) as u16,
        AddressingMode::ZeroPage_Y => read8(s.mem, s.pc).wrapping_add(s.y) as u16,
        AddressingMode::Absolute => read16(s.mem, s.pc),
        AddressingMode::Absolute_X => read16(s.mem, s.pc).wrapping_add(s.x as u16),
        AddressingMode::Absolute_Y => read16(s.mem, s.pc).wrapping_add(s.y as u16),
        AddressingMode::Indirect_X => {
            let ptr = read8(s.mem, s.pc).wrapping_add(s.x);
            ((read8(s.mem, ptr.wrapping_add(1) as u16) as u16) << 8) | (read8(s.mem, ptr as u16)
                as u16)
        },
        AddressingMode::Indirect_Y => {
            let base = read8(s.mem, s.pc);
            let deref_base = ((read8(s.mem, base.wrapping_add(1) as u16) as u16) << 8) | (read8(
                s.mem,
                base as u16,
            ) as u16);
            deref_base.wrapping_add(s.y as u16)
        },
        AddressingMode::NoneAddressing => 0,
    }
}

/// One byte pushed: written at `STACK + sp`, after which the stack pointer
/// decrements, wrapping within its page.
pub open spec fn stack_push8(s: CpuState, data: u8) -> CpuState {
    CpuState {
        mem: write8(s.mem, STACK.wrapping_add(s.sp as u16), data),
        sp: s.sp.wrapping_sub(1),
        ..s
    }
}

/// A 16-bit value pushed: high byte first, then low byte.
pub open spec fn stack_push16(s: CpuState, data: u16) -> CpuState {
    stack_push8(stack_push8(s, (data >> 8) as u8), (data & 0xff) as u8)
}

/// The stack pointer after one pop, and the byte read: the pointer first
/// increments (wrapping), then the byte at `STACK + sp` is read.
pub open spec fn stack_pop8(s: CpuState) -> (CpuState, u8) {
    let sp = s.sp.wrapping_add(1);
    (CpuState { sp, ..s }, read8(s.mem, STACK.wrapping_add(sp as u16)))
}

/// A 16-bit value popped: low byte first, then high byte, recombined.
pub open spec fn stack_pop16(s: CpuState) -> (CpuState, u16) {
    let (s1, lo) = stack_pop8(s);
    let (s2, hi) = stack_pop8(s1);
    (s2, ((hi as u16) << 8) | (lo as u16))
}

/// The shared zero/negative rule applied to a whole CPU state: only the
/// status byte moves.
pub open spec fn zn_update_state(s: CpuState, value: u8) -> CpuState {
    CpuState { status: zn_update(s.status, value), ..s }
}

/// Load: the byte at the resolved address, stored to the accumulator, with
/// the shared zero/negative rule applied to it.
pub open spec fn instr_lda(s: CpuState, mode: AddressingMode) -> CpuState {
    let value = read8(s.mem, operand_addr(s, mode));
    CpuState { a: value, status: zn_update(s.status, value), ..s }
}

/// Load into register X.
pub open spec fn instr_ldx(s: CpuState, mode: AddressingMode) -> CpuState {
    let value = read8(s.mem, operand_addr(s, mode));
    CpuState { x: value, status: zn_update(s.status, value), ..s }
}

/// Load into register Y.
pub open spec fn instr_ldy(s: CpuState, mode: AddressingMode) -> CpuState {
    let value = read8(s.mem, operand_addr(s, mode));
    CpuState { y: value, status: zn_update(s.status, value), ..s }
}

/// Store: the accumulator written to the resolved address; no flag effect.
pub open spec fn instr_sta(s: CpuState, mode: AddressingMode) -> CpuState {
    CpuState { mem: write8(s.mem, operand_addr(s, mode), s.a), ..s }
}

/// Transfer the accumulator to register X, applying the shared rule to it.
pub open spec fn instr_tax(s: CpuState) -> CpuState {
    CpuState { x: s.a, status: zn_update(s.status, s.a), ..s }
}

/// Transfer register X to the accumulator, applying the shared rule to it.
pub open spec fn instr_txa(s: CpuState) -> CpuState {
    CpuState { a: s.x, status: zn_update(s.status, s.x), ..s }
}

/// Add with carry: the sum of the accumulator, the operand and the carry-in,
/// computed widened. Carry reports the sum exceeding 255; Overflow compares
/// the sign bits of operand, truncated result, and the accumulator value from
/// before the overwrite; the truncated result lands in the accumulator under
/// the shared rule.
pub open spec fn add_to_a(s: CpuState, data: u8) -> CpuState {
    let sum = s.a + data + (if has_flag(s.status, CARRY) {
        1int
    } else {
        0int
    });
    let carry = sum > 255;
    let result = (sum % 256) as u8;
    let overflow = (data ^ result) & (result ^ s.a) & 0x80 != 0;
    let status = flag_if(flag_if(s.status, CARRY, carry), crate::flags::OVERFLOW, overflow);
    CpuState { a: result, status: zn_update(status, result), ..s }
}

/// Add with carry on the operand the mode resolves to.
pub open spec fn instr_adc(s: CpuState, mode: AddressingMode) -> CpuState {
    add_to_a(s, read8(s.mem, operand_addr(s, mode)))
}

/// Bitwise AND with the accumulator. Zero is set directly from the AND result
/// on its own inline path, then the shared rule runs on the same value — a
/// documented asymmetry with OR, kept as is.
pub open spec fn instr_and(s: CpuState, mode: AddressingMode) -> CpuState {
    let value = s.a & read8(s.mem, operand_addr(s, mode));
    let status = flag_if(s.status, ZERO, value == 0);
    CpuState { a: value, status: zn_update(status, value), ..s }
}

/// Bitwise inclusive OR with the accumulator, under the shared rule.
pub open spec fn instr_ora(s: CpuState, mode: AddressingMode) -> CpuState {
    let value = read8(s.mem, operand_addr(s, mode)) | s.a;
    CpuState { a: value, status: zn_update(s.status, value), ..s }
}

/// Arithmetic shift left of a single value: Carry takes the pre-shift high
/// bit, the result is the value doubled and truncated to 8 bits, and the
/// shared rule runs on the result.
pub open spec fn asl_value(status: u8, value: u8) -> (u8, u8) {
    let result = value << 1;
    (result, zn_update(flag_if(status, CARRY, value & 0x80 != 0), result))
}

/// Arithmetic shift left of the accumulator.
pub open spec fn instr_asl_a(s: CpuState) -> CpuState {
    let (result, status) = asl_value(s.status, s.a);
    CpuState { a: result, status, ..s }
}

/// Arithmetic shift left of the byte at the resolved address, written back.
pub open spec fn instr_asl(s: CpuState, mode: AddressingMode) -> CpuState {
    let addr = operand_addr(s, mode);
    let (result, status) = asl_value(s.status, read8(s.mem, addr));
    CpuState { mem: write8(s.mem, addr, result), status, ..s }
}

/// Logical shift right of the accumulator. Carry takes the pre-shift high
/// bit — the same test the left shift uses, a documented inconsistency with
/// canonical behavior, kept as is — and the halved value lands in the
/// accumulator under the shared rule.
pub open spec fn instr_lsr_a(s: CpuState) -> CpuState {
    let result = s.a / 2;
    let status = flag_if(s.status, CARRY, s.a & 0x80 != 0);
    CpuState { a: result, status: zn_update(status, result), ..s }
}

/// Rotate left of a single value: Carry takes the pre-shift high bit, the old
/// carry rotates into bit 0, and the shared rule runs on the pre-shift value
/// — a documented deviation from canonical behavior, kept as is.
pub open spec fn rol_value(status: u8, value: u8) -> (u8, u8) {
    let carry_in: u8 = if has_flag(status, CARRY) {
        1
    } else {
        0
    };
    let result = (value << 1) | carry_in;
    (result, zn_update(flag_if(status, CARRY, value & 0x80 != 0), value))
}

/// Rotate left of the accumulator.
pub open spec fn instr_rol_a(s: CpuState) -> CpuState {
    let (result, status) = rol_value(s.status, s.a);
    CpuState { a: result, status, ..s }
}

/// Rotate left of the byte at the resolved address, written back.
pub open spec fn instr_rol(s: CpuState, mode: AddressingMode) -> CpuState {
    let addr = operand_addr(s, mode);
    let (result, status) = rol_value(s.status, read8(s.mem, addr));
    CpuState { mem: write8(s.mem, addr, result), status, ..s }
}

/// Bit test: the accumulator masked with the operand decides Zero — set when
/// the masked value is not zero, a polarity deliberately inverted from
/// canonical behavior — while Overflow and Negative copy bits 6 and 7 of the
/// operand itself.
pub open spec fn instr_bit(s: CpuState, mode: AddressingMode) -> CpuState {
    let value = read8(s.mem, operand_addr(s, mode));
    let masked = s.a & value;
    let status = flag_if(
        flag_if(flag_if(s.status, ZERO, masked != 0), crate::flags::OVERFLOW, value & 0x40 != 0),
        NEGATIVE,
        value & 0x80 != 0,
    );
    CpuState { status, ..s }
}

/// Compare: Carry is set when the operand is at most the compared register,
/// and the shared rule runs on the register less one — not on the
/// subtraction result, a deliberate deviation from canonical flag
/// derivation.
pub open spec fn instr_compare(s: CpuState, mode: AddressingMode, compare_with: u8) -> CpuState {
    let value = read8(s.mem, operand_addr(s, mode));
    let status = flag_if(s.status, CARRY, value <= compare_with);
    CpuState { status: zn_update(status, compare_with.wrapping_sub(1)), ..s }
}

/// Increment of the byte at the resolved address, wrapping, under the shared
/// rule.
pub open spec fn instr_inc_mem(s: CpuState, mode: AddressingMode) -> CpuState {
    let addr = operand_addr(s, mode);
    let value = read8(s.mem, addr).wrapping_add(1);
    CpuState { mem: write8(s.mem, addr, value), status: zn_update(s.status, value), ..s }
}

/// Decrement of the byte at the resolved address, wrapping, under the shared
/// rule.
pub open spec fn instr_dec_mem(s: CpuState, mode: AddressingMode) -> CpuState {
    let addr = operand_addr(s, mode);
    let value = read8(s.mem, addr).wrapping_sub(1);
    CpuState { mem: write8(s.mem, addr, value), status: zn_update(s.status, value), ..s }
}

/// Increment of register X, wrapping, under the shared rule.
pub open spec fn instr_inx(s: CpuState) -> CpuState {
    let value = s.x.wrapping_add(1);
    CpuState { x: value, status: zn_update(s.status, value), ..s }
}

/// Decrement of register X, wrapping, under the shared rule.
pub open spec fn instr_dex(s: CpuState) -> CpuState {
    let value = s.x.wrapping_sub(1);
    CpuState { x: value, status: zn_update(s.status, value), ..s }
}

/// Branch: when the condition holds, the program counter becomes the address
/// after the offset byte plus the sign-extended offset, wrapping; when it
/// does not, the program counter merely steps past the offset byte.
pub open spec fn instr_branch(s: CpuState, condition: bool) -> CpuState {
    if condition {
        let jump = read8(s.mem, s.pc);
        CpuState { pc: s.pc.wrapping_add(1).wrapping_add(sign_extend(jump)), ..s }
    } else {
        CpuState { pc: s.pc.wrapping_add(1), ..s }
    }
}

/// Jump: the program counter becomes the absolute address at the operand
/// position; no flag effect.
pub open spec fn instr_jmp(s: CpuState) -> CpuState {
    CpuState { pc: read16(s.mem, s.pc), ..s }
}

/// Subroutine call: the address of the last byte of the 3-byte instruction is
/// pushed as a 16-bit value, then the program counter becomes the target
/// address — read after the pushes, which is observable when the operand
/// bytes sit in the stack page.
pub open spec fn instr_jsr(s: CpuState) -> CpuState {
    let s1 = stack_push16(s, s.pc.wrapping_add(1));
    CpuState { pc: read16(s1.mem, s1.pc), ..s1 }
}

/// Return from subroutine: a 16-bit value is popped and the program counter
/// becomes that value plus one, wrapping.
pub open spec fn instr_rts(s: CpuState) -> CpuState {
    let (s1, addr) = stack_pop16(s);
    CpuState { pc: addr.wrapping_add(1), ..s1 }
}

/// Push flags: a copy of the status byte with both break bits forced set is
/// pushed; the live status register is unmodified.
pub open spec fn instr_php(s: CpuState) -> CpuState {
    stack_push8(s, s.status | BREAK | BREAK2)
}

/// Set the carry flag.
pub open spec fn instr_sec(s: CpuState) -> CpuState {
    CpuState { status: s.status | CARRY, ..s }
}

/// Clear the carry flag.
pub open spec fn instr_clc(s: CpuState) -> CpuState {
    CpuState { status: s.status & !CARRY, ..s }
}

/// The effect of one decoded instruction, with the program counter already
/// pointing at the first operand byte. The dispatcher's own program-counter
/// advancement is not included here.
pub open spec fn instr_effect(s: CpuState, mnemonic: Mnemonic, mode: AddressingMode) -> CpuState {
    match mnemonic {
        Mnemonic::Lda => instr_lda(s, mode),
        Mnemonic::Ldx => instr_ldx(s, mode),
        Mnemonic::Ldy => instr_ldy(s, mode),
        Mnemonic::Sta => instr_sta(s, mode),
        Mnemonic::Adc => instr_adc(s, mode),
        Mnemonic::And => instr_and(s, mode),
        Mnemonic::Ora => instr_ora(s, mode),
        Mnemonic::Bit => instr_bit(s, mode),
        Mnemonic::AslA => instr_asl_a(s),
        Mnemonic::Asl => instr_asl(s, mode),
        Mnemonic::LsrA => instr_lsr_a(s),
        Mnemonic::RolA => instr_rol_a(s),
        Mnemonic::Rol => instr_rol(s, mode),
        Mnemonic::IncMem => instr_inc_mem(s, mode),
        Mnemonic::DecMem => instr_dec_mem(s, mode),
        Mnemonic::Inx => instr_inx(s),
        Mnemonic::Dex => instr_dex(s),
        Mnemonic::Tax => instr_tax(s),
        Mnemonic::Txa => instr_txa(s),
        Mnemonic::CmpA => instr_compare(s, mode, s.a),
        Mnemonic::CmpX => instr_compare(s, mode, s.x),
        Mnemonic::Bpl => instr_branch(s, !has_flag(s.status, NEGATIVE)),
        Mnemonic::Bne => instr_branch(s, !has_flag(s.status, ZERO)),
        Mnemonic::Bcs => instr_branch(s, has_flag(s.status, CARRY)),
        Mnemonic::Beq => instr_branch(s, has_flag(s.status, ZERO)),
        Mnemonic::Jmp => instr_jmp(s),
        Mnemonic::Jsr => instr_jsr(s),
        Mnemonic::Rts => instr_rts(s),
        Mnemonic::Php => instr_php(s),
        Mnemonic::Sec => instr_sec(s),
        Mnemonic::Clc => instr_clc(s),
        Mnemonic::Nop => s,
        Mnemonic::Halt => s,
    }
}

/// The state after one fetch-decode-execute step: the opcode at the program
/// counter is fetched (the counter stepping past it), the dispatch table is
/// consulted, the handler's effect is applied, and unless the handler owns
/// the program counter the dispatcher advances it by the mode's operand
/// length. On the halt opcode, and on a byte absent from the table, the state
/// changes by the fetch alone.
pub open spec fn step_state(s: CpuState) -> CpuState {
    let op = read8(s.mem, s.pc);
    let s1 = CpuState { pc: s.pc.wrapping_add(1), ..s };
    match spec_decode(op) {
        None => s1,
        Some(info) => {
            if info.mnemonic is Halt {
                s1
            } else {
                let s2 = instr_effect(s1, info.mnemonic, info.mode);
                if info.owns_pc {
                    s2
                } else {
                    CpuState { pc: s2.pc.wrapping_add(operand_len(info.mode)), ..s2 }
                }
            }
        },
    }
}

/// What one step at this state reports: still running, halted on the halt
/// opcode, or an illegal opcode absent from the dispatch table.
pub open spec fn step_outcome(s: CpuState) -> StepOutcome {
    match spec_decode(read8(s.mem, s.pc)) {
        None => StepOutcome::IllegalOpcode(read8(s.mem, s.pc)),
        Some(info) => if info.mnemonic is Halt {
            StepOutcome::Halted
        } else {
            StepOutcome::Running
        },
    }
}

/// The state after `n` fetch-decode-execute steps.
pub open spec fn run_n(s: CpuState, n: nat) -> CpuState
    decreases n,
{
    if n == 0 {
        s
    } else {
        step_state(run_n(s, (n - 1) as nat))
    }
}

/// The memory image after a program is loaded: the bytes copied verbatim from
/// the canonical base address on, and the base address written little-endian
/// into the reset vector.
pub open spec fn loaded_mem(mem: Seq<u8>, program: Seq<u8>) -> Seq<u8> {
    Seq::new(
        mem.len(),
        |i: int|
            if i == RESET_VECTOR {
                (LOAD_BASE & 0xff) as u8
            } else if i == RESET_VECTOR + 1 {
                (LOAD_BASE >> 8) as u8
            } else if LOAD_BASE <= i < LOAD_BASE + program.len() {
                program[i - LOAD_BASE]
            } else {
                mem[i]
            },
    )
}

/// The state after a reset: accumulator and register X re-zeroed, status and
/// stack pointer restored to their power-on values, the program counter
/// reloaded from the reset vector, memory and register Y untouched.
pub open spec fn reset_state(s: CpuState) -> CpuState {
    CpuState {
        a: 0,
        x: 0,
        status: STATUS_RESET,
        sp: STACK_RESET,
        pc: read16(s.mem, RESET_VECTOR),
        ..s
    }
}

/// The state from which a loaded program starts running: the image placed
/// into memory, then a reset.
pub open spec fn start_of_run(s: CpuState, program: Seq<u8>) -> CpuState {
    reset_state(CpuState { mem: loaded_mem(s.mem, program), ..s })
}

/// The machine, run from `s`, eventually reports something other than
/// `Running`: it reaches the halt opcode or an illegal byte, so the dispatch
/// loop returns. An unbounded run has no termination guarantee beyond this;
/// callers that cannot establish it can drive [`crate::cpu::CPU::step`]
/// themselves under a step budget.
pub open spec fn halts(s: CpuState) -> bool {
    exists|n: nat| !(#[trigger] step_outcome(run_n(s, n)) is Running)
}

/// The dispatch loop ran from `start`, took `n` steps that each reported
/// `Running`, stopped on the first step that did not — reporting `r` — and
/// left the machine in `end`, the state after all `n + 1` steps.
pub open spec fn halted_within(start: CpuState, end: CpuState, r: StepOutcome, n: nat) -> bool {
    &&& forall|i: nat| i < n ==> #[trigger] step_outcome(run_n(start, i)) is Running
    &&& !(r is Running)
    &&& r == step_outcome(run_n(start, n))
    &&& end == run_n(start, n + 1)
}

/// Determinism: the step relation is a function of the state alone, so the
/// index of the first non-running step is unique — two runs from the same
/// state stop after the same number of steps, with the same outcome, in the
/// same final state.
pub proof fn lemma_halt_index_unique(s: CpuState, n1: nat, n2: nat)
    requires
        forall|i: nat| i < n1 ==> #[trigger] step_outcome(run_n(s, i)) is Running,
        !(step_outcome(run_n(s, n1)) is Running),
        forall|i: nat| i < n2 ==> #[trigger] step_outcome(run_n(s, i)) is Running,
        !(step_outcome(run_n(s, n2)) is Running),
    ensures
        n1 == n2,
        step_outcome(run_n(s, n1)) == step_outcome(run_n(s, n2)),
        run_n(s, n1 + 1) == run_n(s, n2 + 1),
{
    if n1 < n2 {
        assert(step_outcome(run_n(s, n1)) is Running);
    }
    if n2 < n1 {
        assert(step_outcome(run_n(s, n2)) is Running);
    }
}

/// Determinism at the level of whole runs: two dispatch-loop runs from one
/// and the same start state — identical registers, flags, program counter,
/// and memory — report the same outcome after the same number of steps and
/// leave bit-identical final states. No clock, randomness, or outside input
/// enters the step relation.
pub proof fn lemma_run_deterministic(
    start: CpuState,
    end1: CpuState,
    end2: CpuState,
    r1: StepOutcome,
    r2: StepOutcome,
    n1: nat,
    n2: nat,
)
    requires
        halted_within(start, end1, r1, n1),
        halted_within(start, end2, r2, n2),
    ensures
        n1 == n2,
        r1 == r2,
        end1 == end2,
{
    lemma_halt_index_unique(start, n1, n2);
}

/// The subroutine-call round trip: with a subroutine-call opcode at the
/// program counter and a return opcode at the call's target, the two steps
/// leave the program counter at the instruction following the 3-byte call,
/// the stack pointer back at its value from before the call, and registers
/// and flags untouched.
pub proof fn lemma_jsr_rts_round_trip(s: CpuState)
    requires
        state_wf(s),
        read8(s.mem, s.pc) == 0x20u8,
        read8(step_state(s).mem, step_state(s).pc) == 0x60u8,
    ensures
        step_state(step_state(s)).pc == s.pc.wrapping_add(3),
        step_state(step_state(s)).sp == s.sp,
        step_state(step_state(s)).a == s.a,
        step_state(step_state(s)).x == s.x,
        step_state(step_state(s)).y == s.y,
        step_state(step_state(s)).status == s.status,
{
    let ret = s.pc.wrapping_add(1).wrapping_add(1);
    assert(((((ret >> 8) as u8) as u16) << 8) | (((ret & 0xff) as u8) as u16) == ret)
        by (bit_vector);
    let s1 = step_state(s);
    let hi_addr = STACK.wrapping_add(s.sp as u16);
    let lo_addr = STACK.wrapping_add(s.sp.wrapping_sub(1) as u16);
    assert(hi_addr != lo_addr);
    assert(s1.sp == s.sp.wrapping_sub(2));
    assert(read8(s1.mem, lo_addr) == (ret & 0xff) as u8);
    assert(read8(s1.mem, hi_addr) == (ret >> 8) as u8);
    let s2 = step_state(s1);
    assert(s1.sp.wrapping_add(1) == s.sp.wrapping_sub(1));
    assert(s1.sp.wrapping_add(2) == s.sp);
    assert(s2.pc == ret.wrapping_add(1));
    assert(ret.wrapping_add(1) == s.pc.wrapping_add(3));
}

} // verus!
