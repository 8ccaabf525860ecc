//! The instruction set: addressing modes, mnemonics, the dispatch table from
//! opcode byte to instruction descriptor, and the outcome type of a step.

use vstd::prelude::*;

verus! {

/// How an instruction names its memory operand. The program counter is
/// assumed to point at the first operand byte when a mode is resolved.
#[allow(non_camel_case_types)]
#[derive(Clone, Copy, Debug, PartialEq, Eq, Structural)]
pub enum AddressingMode {
    Immediate,
    ZeroPage,
    ZeroPage_X,
    ZeroPage_Y,
    Absolute,
    Absolute_X,
    Absolute_Y,
    Indirect_X,
    Indirect_Y,
    NoneAddressing,
}

/// The instructions of the implemented subset. `CmpA` and `CmpX` share one
/// comparison rule applied to the accumulator and to register X.
#[derive(Clone, Copy, Debug, PartialEq, Eq, Structural)]
pub enum Mnemonic {
    Lda,
    Ldx,
    Ldy,
    Sta,
    Adc,
    And,
    Ora,
    Bit,
    AslA,
    Asl,
    LsrA,
    RolA,
    Rol,
    IncMem,
    DecMem,
    Inx,
    Dex,
    Tax,
    Txa,
    CmpA,
    CmpX,
    Bpl,
    Bne,
    Bcs,
    Beq,
    Jmp,
    Jsr,
    Rts,
    Php,
    Sec,
    Clc,
    Nop,
    Halt,
}

/// One entry of the dispatch table: the instruction, its addressing mode, and
/// whether the handler writes the program counter itself. When `owns_pc` is
/// false the dispatcher advances the program counter by the mode's operand
/// length after the handler runs.
#[derive(Clone, Copy, Debug, PartialEq, Eq, Structural)]
pub struct OpInfo {
    pub mnemonic: Mnemonic,
    pub mode: AddressingMode,
    pub owns_pc: bool,
}

/// What one fetch-decode-execute step reported: the machine is still running,
/// it executed the halt opcode, the opcode byte is absent from the dispatch
/// table, or a handler demanded a memory operand from a mode that has none.
/// The last case cannot arise from the table as built; the variant exists so
/// hosting code has a typed name for it.
#[derive(Clone, Copy, Debug, PartialEq, Eq, Structural)]
pub enum StepOutcome {
    Running,
    Halted,
    IllegalOpcode(u8),
    InvalidAddressing,
}

/// Operand bytes that follow the opcode, per addressing mode: none for an
/// implied operand, one for the zero-page and indirect families and for an
/// immediate, two for the absolute family.
pub open spec fn operand_len(mode: AddressingMode) -> u16 {
    match mode {
        AddressingMode::Immediate => 1,
        AddressingMode::ZeroPage => 1,
        AddressingMode::ZeroPage_X => 1,
        AddressingMode::ZeroPage_Y => 1,
        AddressingMode::Absolute => 2,
        AddressingMode::Absolute_X => 2,
        AddressingMode::Absolute_Y => 2,
        AddressingMode::Indirect_X => 1,
        AddressingMode::Indirect_Y => 1,
        AddressingMode::NoneAddressing => 0,
    }
}

/// Executable twin of [`operand_len`].
pub fn operand_length(mode: &AddressingMode) -> (r: u16)
    ensures
        r == operand_len(*mode),
{
    match mode {
        AddressingMode::Immediate => 1,
        AddressingMode::ZeroPage => 1,
        AddressingMode::ZeroPage_X => 1,
        AddressingMode::ZeroPage_Y => 1,
        AddressingMode::Absolute => 2,
        AddressingMode::Absolute_X => 2,
        AddressingMode::Absolute_Y => 2,
        AddressingMode::Indirect_X => 1,
        AddressingMode::Indirect_Y => 1,
        AddressingMode::NoneAddressing => 0,
    }
}

/// A table entry for an instruction that leaves the program counter to the
/// dispatcher.
pub open spec fn entry(mnemonic: Mnemonic, mode: AddressingMode) -> Option<OpInfo> {
    Some(OpInfo { mnemonic, mode, owns_pc: false })
}

/// A table entry for an instruction that writes the program counter itself.
pub open spec fn entry_owns_pc(mnemonic: Mnemonic, mode: AddressingMode) -> Option<OpInfo> {
    Some(OpInfo { mnemonic, mode, owns_pc: true })
}

/// The dispatch table: the descriptor of each opcode byte of the implemented
/// subset, or `None` for a byte absent from the table.
pub open spec fn spec_decode(op: u8) -> Option<OpInfo> {
    match op {
        0x00u8 => entry(Mnemonic::Halt, AddressingMode::NoneAddressing),
        0xa9u8 => entry(Mnemonic::Lda, AddressingMode::Immediate),
        0xa5u8 => entry(Mnemonic::Lda, AddressingMode::ZeroPage),
        0xadu8 => entry(Mnemonic::Lda, AddressingMode::Absolute),
        0xb5u8 => entry(Mnemonic::Lda, AddressingMode::ZeroPage),
        0xa2u8 => entry(Mnemonic::Ldx, AddressingMode::Immediate),
        0xa6u8 => entry(Mnemonic::Ldx, AddressingMode::ZeroPage),
        0xa0u8 => entry(Mnemonic::Ldy, AddressingMode::Immediate),
        0x69u8 => entry(Mnemonic::Adc, AddressingMode::Immediate),
        0x65u8 => entry(Mnemonic::Adc, AddressingMode::ZeroPage),
        0x6du8 => entry(Mnemonic::Adc, AddressingMode::Absolute),
        0x29u8 => entry(Mnemonic::And, AddressingMode::Immediate),
        0x35u8 => entry(Mnemonic::And, AddressingMode::ZeroPage_X),
        0x25u8 => entry(Mnemonic::And, AddressingMode::ZeroPage),
        0x2du8 => entry(Mnemonic::And, AddressingMode::Absolute),
        0x0au8 => entry(Mnemonic::AslA, AddressingMode::NoneAddressing),
        0x06u8 => entry(Mnemonic::Asl, AddressingMode::ZeroPage),
        0x16u8 => entry(Mnemonic::Asl, AddressingMode::ZeroPage_X),
        0x0eu8 => entry(Mnemonic::Asl, AddressingMode::Absolute),
        0x1eu8 => entry(Mnemonic::Asl, AddressingMode::Absolute_X),
        0x09u8 => entry(Mnemonic::Ora, AddressingMode::Immediate),
        0x0du8 => entry(Mnemonic::Ora, AddressingMode::Absolute),
        0x15u8 => entry(Mnemonic::Ora, AddressingMode::ZeroPage_X),
        0x11u8 => entry(Mnemonic::Ora, AddressingMode::Indirect_Y),
        0x19u8 => entry(Mnemonic::Ora, AddressingMode::Absolute_Y),
        0x01u8 => entry(Mnemonic::Ora, AddressingMode::Indirect_X),
        0x24u8 => entry(Mnemonic::Bit, AddressingMode::ZeroPage),
        0x10u8 => entry_owns_pc(Mnemonic::Bpl, AddressingMode::Immediate),
        0xd0u8 => entry_owns_pc(Mnemonic::Bne, AddressingMode::Immediate),
        0xb0u8 => entry_owns_pc(Mnemonic::Bcs, AddressingMode::Immediate),
        0xf0u8 => entry_owns_pc(Mnemonic::Beq, AddressingMode::Immediate),
        0x85u8 => entry(Mnemonic::Sta, AddressingMode::ZeroPage),
        0x95u8 => entry(Mnemonic::Sta, AddressingMode::ZeroPage_X),
        0x81u8 => entry(Mnemonic::Sta, AddressingMode::Indirect_X),
        0x91u8 => entry(Mnemonic::Sta, AddressingMode::Indirect_Y),
        0xe6u8 => entry(Mnemonic::IncMem, AddressingMode::ZeroPage),
        0xfeu8 => entry(Mnemonic::IncMem, AddressingMode::Absolute_X),
        0xc6u8 => entry(Mnemonic::DecMem, AddressingMode::ZeroPage),
        0x2au8 => entry(Mnemonic::RolA, AddressingMode::NoneAddressing),
        0x26u8 => entry(Mnemonic::Rol, AddressingMode::ZeroPage),
        0x4au8 => entry(Mnemonic::LsrA, AddressingMode::NoneAddressing),
        0x4cu8 => entry_owns_pc(Mnemonic::Jmp, AddressingMode::Absolute),
        0x20u8 => entry_owns_pc(Mnemonic::Jsr, AddressingMode::Absolute),
        0x60u8 => entry_owns_pc(Mnemonic::Rts, AddressingMode::NoneAddressing),
        0xc9u8 => entry(Mnemonic::CmpA, AddressingMode::Immediate),
        0xc5u8 => entry(Mnemonic::CmpA, AddressingMode::ZeroPage),
        0xe4u8 => entry(Mnemonic::CmpX, AddressingMode::ZeroPage),
        0x08u8 => entry(Mnemonic::Php, AddressingMode::NoneAddressing),
        0x38u8 => entry(Mnemonic::Sec, AddressingMode::NoneAddressing),
        0xaau8 => entry(Mnemonic::Tax, AddressingMode::NoneAddressing),
        0x8au8 => entry(Mnemonic::Txa, AddressingMode::NoneAddressing),
        0xe8u8 => entry(Mnemonic::Inx, AddressingMode::NoneAddressing),
        0x18u8 => entry(Mnemonic::Clc, AddressingMode::NoneAddressing),
        0xeau8 => entry(Mnemonic::Nop, AddressingMode::NoneAddressing),
        0xcau8 => entry(Mnemonic::Dex, AddressingMode::NoneAddressing),
        _ => None,
    }
}

/// True when the instruction reads or writes a memory operand and therefore
/// resolves its addressing mode.
pub open spec fn needs_operand(mnemonic: Mnemonic) -> bool {
    match mnemonic {
        Mnemonic::Lda => true,
        Mnemonic::Ldx => true,
        Mnemonic::Ldy => true,
        Mnemonic::Sta => true,
        Mnemonic::Adc => true,
        Mnemonic::And => true,
        Mnemonic::Ora => true,
        Mnemonic::Bit => true,
        Mnemonic::Asl => true,
        Mnemonic::Rol => true,
        Mnemonic::IncMem => true,
        Mnemonic::DecMem => true,
        Mnemonic::CmpA => true,
        Mnemonic::CmpX => true,
        _ => false,
    }
}

/// Every table entry pairs an operand-reading instruction with a mode that
/// can be resolved: the fatal "no addressing" condition is unreachable from
/// the table as built.
pub proof fn lemma_decode_modes(op: u8)
    ensures
        spec_decode(op) matches Some(info) ==> (needs_operand(info.mnemonic) ==> !(info.mode
            is NoneAddressing)),
{
}

/// Executable twin of [`spec_decode`]: looks the opcode byte up in the
/// dispatch table.
pub fn decode(op: u8) -> (r: Option<OpInfo>)
    ensures
        r == spec_decode(op),
{
    match op {
        0x00u8 => Some(OpInfo { mnemonic: Mnemonic::Halt, mode: AddressingMode::NoneAddressing, owns_pc: false }),
        0xa9u8 => Some(OpInfo { mnemonic: Mnemonic::Lda, mode: AddressingMode::Immediate, owns_pc: false }),
        0xa5u8 => Some(OpInfo { mnemonic: Mnemonic::Lda, mode: AddressingMode::ZeroPage, owns_pc: false }),
        0xadu8 => Some(OpInfo { mnemonic: Mnemonic::Lda, mode: AddressingMode::Absolute, owns_pc: false }),
        0xb5u8 => Some(OpInfo { mnemonic: Mnemonic::Lda, mode: AddressingMode::ZeroPage, owns_pc: false }),
        0xa2u8 => Some(OpInfo { mnemonic: Mnemonic::Ldx, mode: AddressingMode::Immediate, owns_pc: false }),
        0xa6u8 => Some(OpInfo { mnemonic: Mnemonic::Ldx, mode: AddressingMode::ZeroPage, owns_pc: false }),
        0xa0u8 => Some(OpInfo { mnemonic: Mnemonic::Ldy, mode: AddressingMode::Immediate, owns_pc: false }),
        0x69u8 => Some(OpInfo { mnemonic: Mnemonic::Adc, mode: AddressingMode::Immediate, owns_pc: false }),
        0x65u8 => Some(OpInfo { mnemonic: Mnemonic::Adc, mode: AddressingMode::ZeroPage, owns_pc: false }),
        0x6du8 => Some(OpInfo { mnemonic: Mnemonic::Adc, mode: AddressingMode::Absolute, owns_pc: false }),
        0x29u8 => Some(OpInfo { mnemonic: Mnemonic::And, mode: AddressingMode::Immediate, owns_pc: false }),
        0x35u8 => Some(OpInfo { mnemonic: Mnemonic::And, mode: AddressingMode::ZeroPage_X, owns_pc: false }),
        0x25u8 => Some(OpInfo { mnemonic: Mnemonic::And, mode: AddressingMode::ZeroPage, owns_pc: false }),
        0x2du8 => Some(OpInfo { mnemonic: Mnemonic::And, mode: AddressingMode::Absolute, owns_pc: false }),
        0x0au8 => Some(OpInfo { mnemonic: Mnemonic::AslA, mode: AddressingMode::NoneAddressing, owns_pc: false }),
        0x06u8 => Some(OpInfo { mnemonic: Mnemonic::Asl, mode: AddressingMode::ZeroPage, owns_pc: false }),
        0x16u8 => Some(OpInfo { mnemonic: Mnemonic::Asl, mode: AddressingMode::ZeroPage_X, owns_pc: false }),
        0x0eu8 => Some(OpInfo { mnemonic: Mnemonic::Asl, mode: AddressingMode::Absolute, owns_pc: false }),
        0x1eu8 => Some(OpInfo { mnemonic: Mnemonic::Asl, mode: AddressingMode::Absolute_X, owns_pc: false }),
        0x09u8 => Some(OpInfo { mnemonic: Mnemonic::Ora, mode: AddressingMode::Immediate, owns_pc: false }),
        0x0du8 => Some(OpInfo { mnemonic: Mnemonic::Ora, mode: AddressingMode::Absolute, owns_pc: false }),
        0x15u8 => Some(OpInfo { mnemonic: Mnemonic::Ora, mode: AddressingMode::ZeroPage_X, owns_pc: false }),
        0x11u8 => Some(OpInfo { mnemonic: Mnemonic::Ora, mode: AddressingMode::Indirect_Y, owns_pc: false }),
        0x19u8 => Some(OpInfo { mnemonic: Mnemonic::Ora, mode: AddressingMode::Absolute_Y, owns_pc: false }),
        0x01u8 => Some(OpInfo { mnemonic: Mnemonic::Ora, mode: AddressingMode::Indirect_X, owns_pc: false }),
        0x24u8 => Some(OpInfo { mnemonic: Mnemonic::Bit, mode: AddressingMode::ZeroPage, owns_pc: false }),
        0x10u8 => Some(OpInfo { mnemonic: Mnemonic::Bpl, mode: AddressingMode::Immediate, owns_pc: true }),
        0xd0u8 => Some(OpInfo { mnemonic: Mnemonic::Bne, mode: AddressingMode::Immediate, owns_pc: true }),
        0xb0u8 => Some(OpInfo { mnemonic: Mnemonic::Bcs, mode: AddressingMode::Immediate, owns_pc: true }),
        0xf0u8 => Some(OpInfo { mnemonic: Mnemonic::Beq, mode: AddressingMode::Immediate, owns_pc: true }),
        0x85u8 => Some(OpInfo { mnemonic: Mnemonic::Sta, mode: AddressingMode::ZeroPage, owns_pc: false }),
        0x95u8 => Some(OpInfo { mnemonic: Mnemonic::Sta, mode: AddressingMode::ZeroPage_X, owns_pc: false }),
        0x81u8 => Some(OpInfo { mnemonic: Mnemonic::Sta, mode: AddressingMode::Indirect_X, owns_pc: false }),
        0x91u8 => Some(OpInfo { mnemonic: Mnemonic::Sta, mode: AddressingMode::Indirect_Y, owns_pc: false }),
        0xe6u8 => Some(OpInfo { mnemonic: Mnemonic::IncMem, mode: AddressingMode::ZeroPage, owns_pc: false }),
        0xfeu8 => Some(OpInfo { mnemonic: Mnemonic::IncMem, mode: AddressingMode::Absolute_X, owns_pc: false }),
        0xc6u8 => Some(OpInfo { mnemonic: Mnemonic::DecMem, mode: AddressingMode::ZeroPage, owns_pc: false }),
        0x2au8 => Some(OpInfo { mnemonic: Mnemonic::RolA, mode: AddressingMode::NoneAddressing, owns_pc: false }),
        0x26u8 => Some(OpInfo { mnemonic: Mnemonic::Rol, mode: AddressingMode::ZeroPage, owns_pc: false }),
        0x4au8 => Some(OpInfo { mnemonic: Mnemonic::LsrA, mode: AddressingMode::NoneAddressing, owns_pc: false }),
        0x4cu8 => Some(OpInfo { mnemonic: Mnemonic::Jmp, mode: AddressingMode::Absolute, owns_pc: true }),
        0x20u8 => Some(OpInfo { mnemonic: Mnemonic::Jsr, mode: AddressingMode::Absolute, owns_pc: true }),
        0x60u8 => Some(OpInfo { mnemonic: Mnemonic::Rts, mode: AddressingMode::NoneAddressing, owns_pc: true }),
        0xc9u8 => Some(OpInfo { mnemonic: Mnemonic::CmpA, mode: AddressingMode::Immediate, owns_pc: false }),
        0xc5u8 => Some(OpInfo { mnemonic: Mnemonic::CmpA, mode: AddressingMode::ZeroPage, owns_pc: false }),
        0xe4u8 => Some(OpInfo { mnemonic: Mnemonic::CmpX, mode: AddressingMode::ZeroPage, owns_pc: false }),
        0x08u8 => Some(OpInfo { mnemonic: Mnemonic::Php, mode: AddressingMode::NoneAddressing, owns_pc: false }),
        0x38u8 => Some(OpInfo { mnemonic: Mnemonic::Sec, mode: AddressingMode::NoneAddressing, owns_pc: false }),
        0xaau8 => Some(OpInfo { mnemonic: Mnemonic::Tax, mode: AddressingMode::NoneAddressing, owns_pc: false }),
        0x8au8 => Some(OpInfo { mnemonic: Mnemonic::Txa, mode: AddressingMode::NoneAddressing, owns_pc: false }),
        0xe8u8 => Some(OpInfo { mnemonic: Mnemonic::Inx, mode: AddressingMode::NoneAddressing, owns_pc: false }),
        0x18u8 => Some(OpInfo { mnemonic: Mnemonic::Clc, mode: AddressingMode::NoneAddressing, owns_pc: false }),
        0xeau8 => Some(OpInfo { mnemonic: Mnemonic::Nop, mode: AddressingMode::NoneAddressing, owns_pc: false }),
        0xcau8 => Some(OpInfo { mnemonic: Mnemonic::Dex, mode: AddressingMode::NoneAddressing, owns_pc: false }),
        _ => None,
    }
}

} // verus!
