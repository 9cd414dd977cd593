//! The instruction set: addressing modes, instructions, and the table that
//! decodes an opcode byte.
use vstd::prelude::*;

verus! {

/// How an instruction finds its operand.
#[allow(non_camel_case_types)]
#[derive(Debug, Clone, Copy, PartialEq, Eq, Structural)]
pub enum AddressingMode {
    Immediate,
    ZeroPage,
    ZeroPage_X,
    ZeroPage_Y,
    Absolute,
    Absolute_X,
    Absolute_Y,
    Indirect_X,
    Indirect_Y,
    Accumulator,
    NoneAddressing,
}

impl AddressingMode {
    /// The mode designates a memory address of its operand.
    pub open spec fn addresses_memory(self) -> bool {
        !(self is Accumulator) && !(self is NoneAddressing)
    }
}

/// The instructions the processor carries out.
#[derive(Debug, Clone, Copy, PartialEq, Eq, Structural)]
pub enum Instruction {
    Brk,
    Lda,
    Sta,
    Ldx,
    Stx,
    Ldy,
    Sty,
    Tax,
    Txa,
    Tay,
    Tya,
    Adc,
    Sbc,
    Inc,
    Dec,
    Inx,
    Dex,
    Iny,
    Dey,
    Asl,
    Lsr,
    Rol,
    Ror,
    And,
    Ora,
    Eor,
    Bit,
    Cmp,
    Cpx,
    Cpy,
    Bcc,
    Bcs,
    Beq,
    Bne,
    Bpl,
    Bmi,
    Bvc,
    Bvs,
    Jmp,
    Clc,
    Sec,
}

/// One row of the decoding table: the opcode byte, what it does, how many
/// bytes the whole instruction takes and how it addresses its operand.
#[derive(Debug, Clone, Copy, PartialEq, Eq, Structural)]
pub struct OpCode {
    pub code: u8,
    pub instruction: Instruction,
    pub bytes: u8,
    pub mode: AddressingMode,
}

impl OpCode {
    /// The row is consistent: an instruction that reads or writes memory has a
    /// mode that designates an address, a shift works on the accumulator or on
    /// memory, and the length is one to three bytes.
    pub open spec fn wf(self) -> bool {
        &&& 1 <= self.bytes <= 3
        &&& match self.instruction {
            Instruction::Lda | Instruction::Sta | Instruction::Ldx | Instruction::Stx
            | Instruction::Ldy | Instruction::Sty | Instruction::Adc | Instruction::Sbc
            | Instruction::Inc | Instruction::Dec | Instruction::And | Instruction::Ora
            | Instruction::Eor | Instruction::Bit | Instruction::Cmp | Instruction::Cpx
            | Instruction::Cpy => self.mode.addresses_memory(),
            Instruction::Asl | Instruction::Lsr | Instruction::Rol | Instruction::Ror => !(
            self.mode is NoneAddressing),
            Instruction::Jmp => !(self.mode is Accumulator),
            _ => true,
        }
    }
}

/// A row of the table.
pub open spec fn entry(code: u8, instruction: Instruction, bytes: u8, mode: AddressingMode) -> OpCode {
    OpCode { code, instruction, bytes, mode }
}

/// The decoding table: the row for each opcode this processor carries out, and
/// nothing for every other byte.
pub open spec fn opcode_spec(code: u8) -> Option<OpCode> {
    match code {
        0x00 => Some(entry(0x00, Instruction::Brk, 1, AddressingMode::NoneAddressing)),
        0x01 => Some(entry(0x01, Instruction::Ora, 2, AddressingMode::Indirect_X)),
        0x05 => Some(entry(0x05, Instruction::Ora, 2, AddressingMode::ZeroPage)),
        0x06 => Some(entry(0x06, Instruction::Asl, 2, AddressingMode::ZeroPage)),
        0x09 => Some(entry(0x09, Instruction::Ora, 2, AddressingMode::Immediate)),
        0x0A => Some(entry(0x0A, Instruction::Asl, 1, AddressingMode::Accumulator)),
        0x0D => Some(entry(0x0D, Instruction::Ora, 3, AddressingMode::Absolute)),
        0x0E => Some(entry(0x0E, Instruction::Asl, 3, AddressingMode::Absolute)),
        0x10 => Some(entry(0x10, Instruction::Bpl, 2, AddressingMode::NoneAddressing)),
        0x11 => Some(entry(0x11, Instruction::Ora, 2, AddressingMode::Indirect_Y)),
        0x15 => Some(entry(0x15, Instruction::Ora, 2, AddressingMode::ZeroPage_X)),
        0x16 => Some(entry(0x16, Instruction::Asl, 2, AddressingMode::ZeroPage_X)),
        0x18 => Some(entry(0x18, Instruction::Clc, 1, AddressingMode::NoneAddressing)),
        0x19 => Some(entry(0x19, Instruction::Ora, 3, AddressingMode::Absolute_Y)),
        0x1D => Some(entry(0x1D, Instruction::Ora, 3, AddressingMode::Absolute_X)),
        0x1E => Some(entry(0x1E, Instruction::Asl, 3, AddressingMode::Absolute_X)),
        0x21 => Some(entry(0x21, Instruction::And, 2, AddressingMode::Indirect_X)),
        0x24 => Some(entry(0x24, Instruction::Bit, 2, AddressingMode::ZeroPage)),
        0x25 => Some(entry(0x25, Instruction::And, 2, AddressingMode::ZeroPage)),
        0x26 => Some(entry(0x26, Instruction::Rol, 2, AddressingMode::ZeroPage)),
        0x29 => Some(entry(0x29, Instruction::And, 2, AddressingMode::Immediate)),
        0x2A => Some(entry(0x2A, Instruction::Rol, 1, AddressingMode::Accumulator)),
        0x2C => Some(entry(0x2C, Instruction::Bit, 3, AddressingMode::Absolute)),
        0x2D => Some(entry(0x2D, Instruction::And, 3, AddressingMode::Absolute)),
        0x2E => Some(entry(0x2E, Instruction::Rol, 3, AddressingMode::Absolute)),
        0x30 => Some(entry(0x30, Instruction::Bmi, 2, AddressingMode::NoneAddressing)),
        0x31 => Some(entry(0x31, Instruction::And, 2, AddressingMode::Indirect_Y)),
        0x35 => Some(entry(0x35, Instruction::And, 2, AddressingMode::ZeroPage_X)),
        0x36 => Some(entry(0x36, Instruction::Rol, 2, AddressingMode::ZeroPage_X)),
        0x38 => Some(entry(0x38, Instruction::Sec, 1, AddressingMode::NoneAddressing)),
        0x39 => Some(entry(0x39, Instruction::And, 3, AddressingMode::Absolute_Y)),
        0x3D => Some(entry(0x3D, Instruction::And, 3, AddressingMode::Absolute_X)),
        0x3E => Some(entry(0x3E, Instruction::Rol, 3, AddressingMode::Absolute_X)),
        0x41 => Some(entry(0x41, Instruction::Eor, 2, AddressingMode::Indirect_X)),
        0x45 => Some(entry(0x45, Instruction::Eor, 2, AddressingMode::ZeroPage)),
        0x46 => Some(entry(0x46, Instruction::Lsr, 2, AddressingMode::ZeroPage)),
        0x49 => Some(entry(0x49, Instruction::Eor, 2, AddressingMode::Immediate)),
        0x4A => Some(entry(0x4A, Instruction::Lsr, 1, AddressingMode::Accumulator)),
        0x4C => Some(entry(0x4C, Instruction::Jmp, 3, AddressingMode::Absolute)),
        0x4D => Some(entry(0x4D, Instruction::Eor, 3, AddressingMode::Absolute)),
        0x4E => Some(entry(0x4E, Instruction::Lsr, 3, AddressingMode::Absolute)),
        0x50 => Some(entry(0x50, Instruction::Bvc, 2, AddressingMode::NoneAddressing)),
        0x51 => Some(entry(0x51, Instruction::Eor, 2, AddressingMode::Indirect_Y)),
        0x55 => Some(entry(0x55, Instruction::Eor, 2, AddressingMode::ZeroPage_X)),
        0x56 => Some(entry(0x56, Instruction::Lsr, 2, AddressingMode::ZeroPage_X)),
        0x59 => Some(entry(0x59, Instruction::Eor, 3, AddressingMode::Absolute_Y)),
        0x5D => Some(entry(0x5D, Instruction::Eor, 3, AddressingMode::Absolute_X)),
        0x5E => Some(entry(0x5E, Instruction::Lsr, 3, AddressingMode::Absolute_X)),
        0x61 => Some(entry(0x61, Instruction::Adc, 2, AddressingMode::Indirect_X)),
        0x65 => Some(entry(0x65, Instruction::Adc, 2, AddressingMode::ZeroPage)),
        0x66 => Some(entry(0x66, Instruction::Ror, 2, AddressingMode::ZeroPage)),
        0x69 => Some(entry(0x69, Instruction::Adc, 2, AddressingMode::Immediate)),
        0x6A => Some(entry(0x6A, Instruction::Ror, 1, AddressingMode::Accumulator)),
        0x6C => Some(entry(0x6C, Instruction::Jmp, 3, AddressingMode::NoneAddressing)),
        0x6D => Some(entry(0x6D, Instruction::Adc, 3, AddressingMode::Absolute)),
        0x6E => Some(entry(0x6E, Instruction::Ror, 3, AddressingMode::Absolute)),
        0x70 => Some(entry(0x70, Instruction::Bvs, 2, AddressingMode::NoneAddressing)),
        0x71 => Some(entry(0x71, Instruction::Adc, 2, AddressingMode::Indirect_Y)),
        0x75 => Some(entry(0x75, Instruction::Adc, 2, AddressingMode::ZeroPage_X)),
        0x76 => Some(entry(0x76, Instruction::Ror, 2, AddressingMode::ZeroPage_X)),
        0x79 => Some(entry(0x79, Instruction::Adc, 3, AddressingMode::Absolute_Y)),
        0x7D => Some(entry(0x7D, Instruction::Adc, 3, AddressingMode::Absolute_X)),
        0x7E => Some(entry(0x7E, Instruction::Ror, 3, AddressingMode::Absolute_X)),
        0x81 => Some(entry(0x81, Instruction::Sta, 2, AddressingMode::Indirect_X)),
        0x84 => Some(entry(0x84, Instruction::Sty, 2, AddressingMode::ZeroPage)),
        0x85 => Some(entry(0x85, Instruction::Sta, 2, AddressingMode::ZeroPage)),
        0x86 => Some(entry(0x86, Instruction::Stx, 2, AddressingMode::ZeroPage)),
        0x88 => Some(entry(0x88, Instruction::Dey, 1, AddressingMode::NoneAddressing)),
        0x8A => Some(entry(0x8A, Instruction::Txa, 1, AddressingMode::NoneAddressing)),
        0x8C => Some(entry(0x8C, Instruction::Sty, 3, AddressingMode::Absolute)),
        0x8D => Some(entry(0x8D, Instruction::Sta, 3, AddressingMode::Absolute)),
        0x8E => Some(entry(0x8E, Instruction::Stx, 3, AddressingMode::Absolute)),
        0x90 => Some(entry(0x90, Instruction::Bcc, 2, AddressingMode::NoneAddressing)),
        0x91 => Some(entry(0x91, Instruction::Sta, 2, AddressingMode::Indirect_Y)),
        0x94 => Some(entry(0x94, Instruction::Sty, 2, AddressingMode::ZeroPage_X)),
        0x95 => Some(entry(0x95, Instruction::Sta, 2, AddressingMode::ZeroPage_X)),
        0x96 => Some(entry(0x96, Instruction::Stx, 2, AddressingMode::ZeroPage_Y)),
        0x98 => Some(entry(0x98, Instruction::Tya, 1, AddressingMode::NoneAddressing)),
        0x99 => Some(entry(0x99, Instruction::Sta, 3, AddressingMode::Absolute_Y)),
        0x9D => Some(entry(0x9D, Instruction::Sta, 3, AddressingMode::Absolute_X)),
        0xA0 => Some(entry(0xA0, Instruction::Ldy, 2, AddressingMode::Immediate)),
        0xA1 => Some(entry(0xA1, Instruction::Lda, 2, AddressingMode::Indirect_X)),
        0xA2 => Some(entry(0xA2, Instruction::Ldx, 2, AddressingMode::Immediate)),
        0xA4 => Some(entry(0xA4, Instruction::Ldy, 2, AddressingMode::ZeroPage)),
        0xA5 => Some(entry(0xA5, Instruction::Lda, 2, AddressingMode::ZeroPage)),
        0xA6 => Some(entry(0xA6, Instruction::Ldx, 2, AddressingMode::ZeroPage)),
        0xA8 => Some(entry(0xA8, Instruction::Tay, 1, AddressingMode::NoneAddressing)),
        0xA9 => Some(entry(0xA9, Instruction::Lda, 2, AddressingMode::Immediate)),
        0xAA => Some(entry(0xAA, Instruction::Tax, 1, AddressingMode::NoneAddressing)),
        0xAC => Some(entry(0xAC, Instruction::Ldy, 3, AddressingMode::Absolute)),
        0xAD => Some(entry(0xAD, Instruction::Lda, 3, AddressingMode::Absolute)),
        0xAE => Some(entry(0xAE, Instruction::Ldx, 3, AddressingMode::Absolute)),
        0xB0 => Some(entry(0xB0, Instruction::Bcs, 2, AddressingMode::NoneAddressing)),
        0xB1 => Some(entry(0xB1, Instruction::Lda, 2, AddressingMode::Indirect_Y)),
        0xB4 => Some(entry(0xB4, Instruction::Ldy, 2, AddressingMode::ZeroPage_X)),
        0xB5 => Some(entry(0xB5, Instruction::Lda, 2, AddressingMode::ZeroPage_X)),
        0xB6 => Some(entry(0xB6, Instruction::Ldx, 2, AddressingMode::ZeroPage_Y)),
        0xB9 => Some(entry(0xB9, Instruction::Lda, 3, AddressingMode::Absolute_Y)),
        0xBC => Some(entry(0xBC, Instruction::Ldy, 3, AddressingMode::Absolute_X)),
        0xBD => Some(entry(0xBD, Instruction::Lda, 3, AddressingMode::Absolute_X)),
        0xBE => Some(entry(0xBE, Instruction::Ldx, 3, AddressingMode::Absolute_Y)),
        0xC0 => Some(entry(0xC0, Instruction::Cpy, 2, AddressingMode::Immediate)),
        0xC1 => Some(entry(0xC1, Instruction::Cmp, 2, AddressingMode::Indirect_X)),
        0xC4 => Some(entry(0xC4, Instruction::Cpy, 2, AddressingMode::ZeroPage)),
        0xC5 => Some(entry(0xC5, Instruction::Cmp, 2, AddressingMode::ZeroPage)),
        0xC6 => Some(entry(0xC6, Instruction::Dec, 2, AddressingMode::ZeroPage)),
        0xC8 => Some(entry(0xC8, Instruction::Iny, 1, AddressingMode::NoneAddressing)),
        0xC9 => Some(entry(0xC9, Instruction::Cmp, 2, AddressingMode::Immediate)),
        0xCA => Some(entry(0xCA, Instruction::Dex, 1, AddressingMode::NoneAddressing)),
        0xCC => Some(entry(0xCC, Instruction::Cpy, 3, AddressingMode::Absolute)),
        0xCD => Some(entry(0xCD, Instruction::Cmp, 3, AddressingMode::Absolute)),
        0xCE => Some(entry(0xCE, Instruction::Dec, 3, AddressingMode::Absolute)),
        0xD0 => Some(entry(0xD0, Instruction::Bne, 2, AddressingMode::NoneAddressing)),
        0xD1 => Some(entry(0xD1, Instruction::Cmp, 2, AddressingMode::Indirect_Y)),
        0xD5 => Some(entry(0xD5, Instruction::Cmp, 2, AddressingMode::ZeroPage_X)),
        0xD6 => Some(entry(0xD6, Instruction::Dec, 2, AddressingMode::ZeroPage_X)),
        0xD9 => Some(entry(0xD9, Instruction::Cmp, 3, AddressingMode::Absolute_Y)),
        0xDD => Some(entry(0xDD, Instruction::Cmp, 3, AddressingMode::Absolute_X)),
        0xDE => Some(entry(0xDE, Instruction::Dec, 3, AddressingMode::Absolute_X)),
        0xE0 => Some(entry(0xE0, Instruction::Cpx, 2, AddressingMode::Immediate)),
        0xE1 => Some(entry(0xE1, Instruction::Sbc, 2, AddressingMode::Indirect_X)),
        0xE4 => Some(entry(0xE4, Instruction::Cpx, 2, AddressingMode::ZeroPage)),
        0xE5 => Some(entry(0xE5, Instruction::Sbc, 2, AddressingMode::ZeroPage)),
        0xE6 => Some(entry(0xE6, Instruction::Inc, 2, AddressingMode::ZeroPage)),
        0xE8 => Some(entry(0xE8, Instruction::Inx, 1, AddressingMode::NoneAddressing)),
        0xE9 => Some(entry(0xE9, Instruction::Sbc, 2, AddressingMode::Immediate)),
        0xEC => Some(entry(0xEC, Instruction::Cpx, 3, AddressingMode::Absolute)),
        0xED => Some(entry(0xED, Instruction::Sbc, 3, AddressingMode::Absolute)),
        0xEE => Some(entry(0xEE, Instruction::Inc, 3, AddressingMode::Absolute)),
        0xF0 => Some(entry(0xF0, Instruction::Beq, 2, AddressingMode::NoneAddressing)),
        0xF1 => Some(entry(0xF1, Instruction::Sbc, 2, AddressingMode::Indirect_Y)),
        0xF5 => Some(entry(0xF5, Instruction::Sbc, 2, AddressingMode::ZeroPage_X)),
        0xF6 => Some(entry(0xF6, Instruction::Inc, 2, AddressingMode::ZeroPage_X)),
        0xF9 => Some(entry(0xF9, Instruction::Sbc, 3, AddressingMode::Absolute_Y)),
        0xFD => Some(entry(0xFD, Instruction::Sbc, 3, AddressingMode::Absolute_X)),
        0xFE => Some(entry(0xFE, Instruction::Inc, 3, AddressingMode::Absolute_X)),
        _ => None,
    }
}

/// Looks an opcode byte up in the decoding table.
pub fn decode(code: u8) -> (r: Option<OpCode>)
    ensures
        r == opcode_spec(code),
        r matches Some(op) ==> op.wf() && op.code == code,
{
    match code {
        0x00 => Some(OpCode { code: 0x00, instruction: Instruction::Brk, bytes: 1, mode: AddressingMode::NoneAddressing }),
        0x01 => Some(OpCode { code: 0x01, instruction: Instruction::Ora, bytes: 2, mode: AddressingMode::Indirect_X }),
        0x05 => Some(OpCode { code: 0x05, instruction: Instruction::Ora, bytes: 2, mode: AddressingMode::ZeroPage }),
        0x06 => Some(OpCode { code: 0x06, instruction: Instruction::Asl, bytes: 2, mode: AddressingMode::ZeroPage }),
        0x09 => Some(OpCode { code: 0x09, instruction: Instruction::Ora, bytes: 2, mode: AddressingMode::Immediate }),
        0x0A => Some(OpCode { code: 0x0A, instruction: Instruction::Asl, bytes: 1, mode: AddressingMode::Accumulator }),
        0x0D => Some(OpCode { code: 0x0D, instruction: Instruction::Ora, bytes: 3, mode: AddressingMode::Absolute }),
        0x0E => Some(OpCode { code: 0x0E, instruction: Instruction::Asl, bytes: 3, mode: AddressingMode::Absolute }),
        0x10 => Some(OpCode { code: 0x10, instruction: Instruction::Bpl, bytes: 2, mode: AddressingMode::NoneAddressing }),
        0x11 => Some(OpCode { code: 0x11, instruction: Instruction::Ora, bytes: 2, mode: AddressingMode::Indirect_Y }),
        0x15 => Some(OpCode { code: 0x15, instruction: Instruction::Ora, bytes: 2, mode: AddressingMode::ZeroPage_X }),
        0x16 => Some(OpCode { code: 0x16, instruction: Instruction::Asl, bytes: 2, mode: AddressingMode::ZeroPage_X }),
        0x18 => Some(OpCode { code: 0x18, instruction: Instruction::Clc, bytes: 1, mode: AddressingMode::NoneAddressing }),
        0x19 => Some(OpCode { code: 0x19, instruction: Instruction::Ora, bytes: 3, mode: AddressingMode::Absolute_Y }),
        0x1D => Some(OpCode { code: 0x1D, instruction: Instruction::Ora, bytes: 3, mode: AddressingMode::Absolute_X }),
        0x1E => Some(OpCode { code: 0x1E, instruction: Instruction::Asl, bytes: 3, mode: AddressingMode::Absolute_X }),
        0x21 => Some(OpCode { code: 0x21, instruction: Instruction::And, bytes: 2, mode: AddressingMode::Indirect_X }),
        0x24 => Some(OpCode { code: 0x24, instruction: Instruction::Bit, bytes: 2, mode: AddressingMode::ZeroPage }),
        0x25 => Some(OpCode { code: 0x25, instruction: Instruction::And, bytes: 2, mode: AddressingMode::ZeroPage }),
        0x26 => Some(OpCode { code: 0x26, instruction: Instruction::Rol, bytes: 2, mode: AddressingMode::ZeroPage }),
        0x29 => Some(OpCode { code: 0x29, instruction: Instruction::And, bytes: 2, mode: AddressingMode::Immediate }),
        0x2A => Some(OpCode { code: 0x2A, instruction: Instruction::Rol, bytes: 1, mode: AddressingMode::Accumulator }),
        0x2C => Some(OpCode { code: 0x2C, instruction: Instruction::Bit, bytes: 3, mode: AddressingMode::Absolute }),
        0x2D => Some(OpCode { code: 0x2D, instruction: Instruction::And, bytes: 3, mode: AddressingMode::Absolute }),
        0x2E => Some(OpCode { code: 0x2E, instruction: Instruction::Rol, bytes: 3, mode: AddressingMode::Absolute }),
        0x30 => Some(OpCode { code: 0x30, instruction: Instruction::Bmi, bytes: 2, mode: AddressingMode::NoneAddressing }),
        0x31 => Some(OpCode { code: 0x31, instruction: Instruction::And, bytes: 2, mode: AddressingMode::Indirect_Y }),
        0x35 => Some(OpCode { code: 0x35, instruction: Instruction::And, bytes: 2, mode: AddressingMode::ZeroPage_X }),
        0x36 => Some(OpCode { code: 0x36, instruction: Instruction::Rol, bytes: 2, mode: AddressingMode::ZeroPage_X }),
        0x38 => Some(OpCode { code: 0x38, instruction: Instruction::Sec, bytes: 1, mode: AddressingMode::NoneAddressing }),
        0x39 => Some(OpCode { code: 0x39, instruction: Instruction::And, bytes: 3, mode: AddressingMode::Absolute_Y }),
        0x3D => Some(OpCode { code: 0x3D, instruction: Instruction::And, bytes: 3, mode: AddressingMode::Absolute_X }),
        0x3E => Some(OpCode { code: 0x3E, instruction: Instruction::Rol, bytes: 3, mode: AddressingMode::Absolute_X }),
        0x41 => Some(OpCode { code: 0x41, instruction: Instruction::Eor, bytes: 2, mode: AddressingMode::Indirect_X }),
        0x45 => Some(OpCode { code: 0x45, instruction: Instruction::Eor, bytes: 2, mode: AddressingMode::ZeroPage }),
        0x46 => Some(OpCode { code: 0x46, instruction: Instruction::Lsr, bytes: 2, mode: AddressingMode::ZeroPage }),
        0x49 => Some(OpCode { code: 0x49, instruction: Instruction::Eor, bytes: 2, mode: AddressingMode::Immediate }),
        0x4A => Some(OpCode { code: 0x4A, instruction: Instruction::Lsr, bytes: 1, mode: AddressingMode::Accumulator }),
        0x4C => Some(OpCode { code: 0x4C, instruction: Instruction::Jmp, bytes: 3, mode: AddressingMode::Absolute }),
        0x4D => Some(OpCode { code: 0x4D, instruction: Instruction::Eor, bytes: 3, mode: AddressingMode::Absolute }),
        0x4E => Some(OpCode { code: 0x4E, instruction: Instruction::Lsr, bytes: 3, mode: AddressingMode::Absolute }),
        0x50 => Some(OpCode { code: 0x50, instruction: Instruction::Bvc, bytes: 2, mode: AddressingMode::NoneAddressing }),
        0x51 => Some(OpCode { code: 0x51, instruction: Instruction::Eor, bytes: 2, mode: AddressingMode::Indirect_Y }),
        0x55 => Some(OpCode { code: 0x55, instruction: Instruction::Eor, bytes: 2, mode: AddressingMode::ZeroPage_X }),
        0x56 => Some(OpCode { code: 0x56, instruction: Instruction::Lsr, bytes: 2, mode: AddressingMode::ZeroPage_X }),
        0x59 => Some(OpCode { code: 0x59, instruction: Instruction::Eor, bytes: 3, mode: AddressingMode::Absolute_Y }),
        0x5D => Some(OpCode { code: 0x5D, instruction: Instruction::Eor, bytes: 3, mode: AddressingMode::Absolute_X }),
        0x5E => Some(OpCode { code: 0x5E, instruction: Instruction::Lsr, bytes: 3, mode: AddressingMode::Absolute_X }),
        0x61 => Some(OpCode { code: 0x61, instruction: Instruction::Adc, bytes: 2, mode: AddressingMode::Indirect_X }),
        0x65 => Some(OpCode { code: 0x65, instruction: Instruction::Adc, bytes: 2, mode: AddressingMode::ZeroPage }),
        0x66 => Some(OpCode { code: 0x66, instruction: Instruction::Ror, bytes: 2, mode: AddressingMode::ZeroPage }),
        0x69 => Some(OpCode { code: 0x69, instruction: Instruction::Adc, bytes: 2, mode: AddressingMode::Immediate }),
        0x6A => Some(OpCode { code: 0x6A, instruction: Instruction::Ror, bytes: 1, mode: AddressingMode::Accumulator }),
        0x6C => Some(OpCode { code: 0x6C, instruction: Instruction::Jmp, bytes: 3, mode: AddressingMode::NoneAddressing }),
        0x6D => Some(OpCode { code: 0x6D, instruction: Instruction::Adc, bytes: 3, mode: AddressingMode::Absolute }),
        0x6E => Some(OpCode { code: 0x6E, instruction: Instruction::Ror, bytes: 3, mode: AddressingMode::Absolute }),
        0x70 => Some(OpCode { code: 0x70, instruction: Instruction::Bvs, bytes: 2, mode: AddressingMode::NoneAddressing }),
        0x71 => Some(OpCode { code: 0x71, instruction: Instruction::Adc, bytes: 2, mode: AddressingMode::Indirect_Y }),
        0x75 => Some(OpCode { code: 0x75, instruction: Instruction::Adc, bytes: 2, mode: AddressingMode::ZeroPage_X }),
        0x76 => Some(OpCode { code: 0x76, instruction: Instruction::Ror, bytes: 2, mode: AddressingMode::ZeroPage_X }),
        0x79 => Some(OpCode { code: 0x79, instruction: Instruction::Adc, bytes: 3, mode: AddressingMode::Absolute_Y }),
        0x7D => Some(OpCode { code: 0x7D, instruction: Instruction::Adc, bytes: 3, mode: AddressingMode::Absolute_X }),
        0x7E => Some(OpCode { code: 0x7E, instruction: Instruction::Ror, bytes: 3, mode: AddressingMode::Absolute_X }),
        0x81 => Some(OpCode { code: 0x81, instruction: Instruction::Sta, bytes: 2, mode: AddressingMode::Indirect_X }),
        0x84 => Some(OpCode { code: 0x84, instruction: Instruction::Sty, bytes: 2, mode: AddressingMode::ZeroPage }),
        0x85 => Some(OpCode { code: 0x85, instruction: Instruction::Sta, bytes: 2, mode: AddressingMode::ZeroPage }),
        0x86 => Some(OpCode { code: 0x86, instruction: Instruction::Stx, bytes: 2, mode: AddressingMode::ZeroPage }),
        0x88 => Some(OpCode { code: 0x88, instruction: Instruction::Dey, bytes: 1, mode: AddressingMode::NoneAddressing }),
        0x8A => Some(OpCode { code: 0x8A, instruction: Instruction::Txa, bytes: 1, mode: AddressingMode::NoneAddressing }),
        0x8C => Some(OpCode { code: 0x8C, instruction: Instruction::Sty, bytes: 3, mode: AddressingMode::Absolute }),
        0x8D => Some(OpCode { code: 0x8D, instruction: Instruction::Sta, bytes: 3, mode: AddressingMode::Absolute }),
        0x8E => Some(OpCode { code: 0x8E, instruction: Instruction::Stx, bytes: 3, mode: AddressingMode::Absolute }),
        0x90 => Some(OpCode { code: 0x90, instruction: Instruction::Bcc, bytes: 2, mode: AddressingMode::NoneAddressing }),
        0x91 => Some(OpCode { code: 0x91, instruction: Instruction::Sta, bytes: 2, mode: AddressingMode::Indirect_Y }),
        0x94 => Some(OpCode { code: 0x94, instruction: Instruction::Sty, bytes: 2, mode: AddressingMode::ZeroPage_X }),
        0x95 => Some(OpCode { code: 0x95, instruction: Instruction::Sta, bytes: 2, mode: AddressingMode::ZeroPage_X }),
        0x96 => Some(OpCode { code: 0x96, instruction: Instruction::Stx, bytes: 2, mode: AddressingMode::ZeroPage_Y }),
        0x98 => Some(OpCode { code: 0x98, instruction: Instruction::Tya, bytes: 1, mode: AddressingMode::NoneAddressing }),
        0x99 => Some(OpCode { code: 0x99, instruction: Instruction::Sta, bytes: 3, mode: AddressingMode::Absolute_Y }),
        0x9D => Some(OpCode { code: 0x9D, instruction: Instruction::Sta, bytes: 3, mode: AddressingMode::Absolute_X }),
        0xA0 => Some(OpCode { code: 0xA0, instruction: Instruction::Ldy, bytes: 2, mode: AddressingMode::Immediate }),
        0xA1 => Some(OpCode { code: 0xA1, instruction: Instruction::Lda, bytes: 2, mode: AddressingMode::Indirect_X }),
        0xA2 => Some(OpCode { code: 0xA2, instruction: Instruction::Ldx, bytes: 2, mode: AddressingMode::Immediate }),
        0xA4 => Some(OpCode { code: 0xA4, instruction: Instruction::Ldy, bytes: 2, mode: AddressingMode::ZeroPage }),
        0xA5 => Some(OpCode { code: 0xA5, instruction: Instruction::Lda, bytes: 2, mode: AddressingMode::ZeroPage }),
        0xA6 => Some(OpCode { code: 0xA6, instruction: Instruction::Ldx, bytes: 2, mode: AddressingMode::ZeroPage }),
        0xA8 => Some(OpCode { code: 0xA8, instruction: Instruction::Tay, bytes: 1, mode: AddressingMode::NoneAddressing }),
        0xA9 => Some(OpCode { code: 0xA9, instruction: Instruction::Lda, bytes: 2, mode: AddressingMode::Immediate }),
        0xAA => Some(OpCode { code: 0xAA, instruction: Instruction::Tax, bytes: 1, mode: AddressingMode::NoneAddressing }),
        0xAC => Some(OpCode { code: 0xAC, instruction: Instruction::Ldy, bytes: 3, mode: AddressingMode::Absolute }),
        0xAD => Some(OpCode { code: 0xAD, instruction: Instruction::Lda, bytes: 3, mode: AddressingMode::Absolute }),
        0xAE => Some(OpCode { code: 0xAE, instruction: Instruction::Ldx, bytes: 3, mode: AddressingMode::Absolute }),
        0xB0 => Some(OpCode { code: 0xB0, instruction: Instruction::Bcs, bytes: 2, mode: AddressingMode::NoneAddressing }),
        0xB1 => Some(OpCode { code: 0xB1, instruction: Instruction::Lda, bytes: 2, mode: AddressingMode::Indirect_Y }),
        0xB4 => Some(OpCode { code: 0xB4, instruction: Instruction::Ldy, bytes: 2, mode: AddressingMode::ZeroPage_X }),
        0xB5 => Some(OpCode { code: 0xB5, instruction: Instruction::Lda, bytes: 2, mode: AddressingMode::ZeroPage_X }),
        0xB6 => Some(OpCode { code: 0xB6, instruction: Instruction::Ldx, bytes: 2, mode: AddressingMode::ZeroPage_Y }),
        0xB9 => Some(OpCode { code: 0xB9, instruction: Instruction::Lda, bytes: 3, mode: AddressingMode::Absolute_Y }),
        0xBC => Some(OpCode { code: 0xBC, instruction: Instruction::Ldy, bytes: 3, mode: AddressingMode::Absolute_X }),
        0xBD => Some(OpCode { code: 0xBD, instruction: Instruction::Lda, bytes: 3, mode: AddressingMode::Absolute_X }),
        0xBE => Some(OpCode { code: 0xBE, instruction: Instruction::Ldx, bytes: 3, mode: AddressingMode::Absolute_Y }),
        0xC0 => Some(OpCode { code: 0xC0, instruction: Instruction::Cpy, bytes: 2, mode: AddressingMode::Immediate }),
        0xC1 => Some(OpCode { code: 0xC1, instruction: Instruction::Cmp, bytes: 2, mode: AddressingMode::Indirect_X }),
        0xC4 => Some(OpCode { code: 0xC4, instruction: Instruction::Cpy, bytes: 2, mode: AddressingMode::ZeroPage }),
        0xC5 => Some(OpCode { code: 0xC5, instruction: Instruction::Cmp, bytes: 2, mode: AddressingMode::ZeroPage }),
        0xC6 => Some(OpCode { code: 0xC6, instruction: Instruction::Dec, bytes: 2, mode: AddressingMode::ZeroPage }),
        0xC8 => Some(OpCode { code: 0xC8, instruction: Instruction::Iny, bytes: 1, mode: AddressingMode::NoneAddressing }),
        0xC9 => Some(OpCode { code: 0xC9, instruction: Instruction::Cmp, bytes: 2, mode: AddressingMode::Immediate }),
        0xCA => Some(OpCode { code: 0xCA, instruction: Instruction::Dex, bytes: 1, mode: AddressingMode::NoneAddressing }),
        0xCC => Some(OpCode { code: 0xCC, instruction: Instruction::Cpy, bytes: 3, mode: AddressingMode::Absolute }),
        0xCD => Some(OpCode { code: 0xCD, instruction: Instruction::Cmp, bytes: 3, mode: AddressingMode::Absolute }),
        0xCE => Some(OpCode { code: 0xCE, instruction: Instruction::Dec, bytes: 3, mode: AddressingMode::Absolute }),
        0xD0 => Some(OpCode { code: 0xD0, instruction: Instruction::Bne, bytes: 2, mode: AddressingMode::NoneAddressing }),
        0xD1 => Some(OpCode { code: 0xD1, instruction: Instruction::Cmp, bytes: 2, mode: AddressingMode::Indirect_Y }),
        0xD5 => Some(OpCode { code: 0xD5, instruction: Instruction::Cmp, bytes: 2, mode: AddressingMode::ZeroPage_X }),
        0xD6 => Some(OpCode { code: 0xD6, instruction: Instruction::Dec, bytes: 2, mode: AddressingMode::ZeroPage_X }),
        0xD9 => Some(OpCode { code: 0xD9, instruction: Instruction::Cmp, bytes: 3, mode: AddressingMode::Absolute_Y }),
        0xDD => Some(OpCode { code: 0xDD, instruction: Instruction::Cmp, bytes: 3, mode: AddressingMode::Absolute_X }),
        0xDE => Some(OpCode { code: 0xDE, instruction: Instruction::Dec, bytes: 3, mode: AddressingMode::Absolute_X }),
        0xE0 => Some(OpCode { code: 0xE0, instruction: Instruction::Cpx, bytes: 2, mode: AddressingMode::Immediate }),
        0xE1 => Some(OpCode { code: 0xE1, instruction: Instruction::Sbc, bytes: 2, mode: AddressingMode::Indirect_X }),
        0xE4 => Some(OpCode { code: 0xE4, instruction: Instruction::Cpx, bytes: 2, mode: AddressingMode::ZeroPage }),
        0xE5 => Some(OpCode { code: 0xE5, instruction: Instruction::Sbc, bytes: 2, mode: AddressingMode::ZeroPage }),
        0xE6 => Some(OpCode { code: 0xE6, instruction: Instruction::Inc, bytes: 2, mode: AddressingMode::ZeroPage }),
        0xE8 => Some(OpCode { code: 0xE8, instruction: Instruction::Inx, bytes: 1, mode: AddressingMode::NoneAddressing }),
        0xE9 => Some(OpCode { code: 0xE9, instruction: Instruction::Sbc, bytes: 2, mode: AddressingMode::Immediate }),
        0xEC => Some(OpCode { code: 0xEC, instruction: Instruction::Cpx, bytes: 3, mode: AddressingMode::Absolute }),
        0xED => Some(OpCode { code: 0xED, instruction: Instruction::Sbc, bytes: 3, mode: AddressingMode::Absolute }),
        0xEE => Some(OpCode { code: 0xEE, instruction: Instruction::Inc, bytes: 3, mode: AddressingMode::Absolute }),
        0xF0 => Some(OpCode { code: 0xF0, instruction: Instruction::Beq, bytes: 2, mode: AddressingMode::NoneAddressing }),
        0xF1 => Some(OpCode { code: 0xF1, instruction: Instruction::Sbc, bytes: 2, mode: AddressingMode::Indirect_Y }),
        0xF5 => Some(OpCode { code: 0xF5, instruction: Instruction::Sbc, bytes: 2, mode: AddressingMode::ZeroPage_X }),
        0xF6 => Some(OpCode { code: 0xF6, instruction: Instruction::Inc, bytes: 2, mode: AddressingMode::ZeroPage_X }),
        0xF9 => Some(OpCode { code: 0xF9, instruction: Instruction::Sbc, bytes: 3, mode: AddressingMode::Absolute_Y }),
        0xFD => Some(OpCode { code: 0xFD, instruction: Instruction::Sbc, bytes: 3, mode: AddressingMode::Absolute_X }),
        0xFE => Some(OpCode { code: 0xFE, instruction: Instruction::Inc, bytes: 3, mode: AddressingMode::Absolute_X }),
        _ => None,
    }
}

} // verus!
