//! What each instruction does to the machine, what one fetch-decode-execute
//! step does, and what running a program until `BRK` gives.
use vstd::prelude::*;
use crate::opcodes::{AddressingMode, Instruction, OpCode, opcode_spec};
use crate::state::{
    CpuState, CARRY, NEGATIVE, OVERFLOW, ZERO, carry_value, flag, is_negative, signed, with_flag, with_zn,
    word,
};

verus! {

/// A byte plus a byte, modulo 256.
pub open spec fn add8(a: u8, b: int) -> u8 {
    ((a as int + b) % 256) as u8
}

/// A word plus a byte offset, modulo 65536.
pub open spec fn add16(a: u16, b: int) -> u16 {
    ((a as int + b) % 0x10000) as u16
}

/// The sum that the adder forms for `ADC` and `SBC`.
pub open spec fn adder_sum(a: u8, m: u8, status: u8) -> int {
    a as int + m as int + carry_value(status)
}

/// The overflow rule of the adder: both inputs have a sign different from the
/// result's.
pub open spec fn adder_overflow(a: u8, m: u8, r: u8) -> bool {
    is_negative(a) != is_negative(r) && is_negative(m) != is_negative(r)
}

/// Where a branch taken at program counter `pc` (pointing at its offset byte)
/// goes.
pub open spec fn branch_target(pc: u16, offset: u8) -> u16 {
    add16(pc, signed(offset) + 1)
}

impl CpuState {
    /// The address of the operand for a memory addressing mode, the program
    /// counter pointing at the first operand byte.
    pub open spec fn operand_address(self, mode: AddressingMode) -> u16 {
        let pc = self.pc;
        match mode {
            AddressingMode::Immediate => pc,
            AddressingMode::ZeroPage => self.read(pc) as u16,
            AddressingMode::Absolute => self.read_u16(pc),
            AddressingMode::ZeroPage_X => add8(self.read(pc), self.x as int) as u16,
            AddressingMode::ZeroPage_Y => add8(self.read(pc), self.y as int) as u16,
            AddressingMode::Absolute_X => add16(self.read_u16(pc), self.x as int),
            AddressingMode::Absolute_Y => add16(self.read_u16(pc), self.y as int),
            AddressingMode::Indirect_X => {
                let ptr = add8(self.read(pc), self.x as int);
                word(self.read(ptr as u16), self.read(add8(ptr, 1) as u16))
            },
            AddressingMode::Indirect_Y => {
                let base = self.read(pc);
                add16(word(self.read(base as u16), self.read(add8(base, 1) as u16)), self.y as int)
            },
            _ => pc,
        }
    }

    /// The operand byte for a memory addressing mode.
    pub open spec fn operand(self, mode: AddressingMode) -> u8 {
        self.read(self.operand_address(mode))
    }

    /// The byte a shift works on: the accumulator, or the operand in memory.
    pub open spec fn shift_source(self, mode: AddressingMode) -> u8 {
        if mode is Accumulator {
            self.a
        } else {
            self.operand(mode)
        }
    }

    /// The state with a shift's result put back where it came from.
    pub open spec fn shift_store(self, mode: AddressingMode, r: u8) -> CpuState {
        if mode is Accumulator {
            CpuState { a: r, ..self }
        } else {
            self.write(self.operand_address(mode), r)
        }
    }

    /// The state with the status byte replaced.
    pub open spec fn with_status(self, status: u8) -> CpuState {
        CpuState { status, ..self }
    }

    /// `LDA`: the operand into A.
    pub open spec fn lda(self, mode: AddressingMode) -> CpuState {
        let v = self.operand(mode);
        CpuState { a: v, status: with_zn(self.status, v), ..self }
    }

    /// `LDX`: the operand into X.
    pub open spec fn ldx(self, mode: AddressingMode) -> CpuState {
        let v = self.operand(mode);
        CpuState { x: v, status: with_zn(self.status, v), ..self }
    }

    /// `LDY`: the operand into Y.
    pub open spec fn ldy(self, mode: AddressingMode) -> CpuState {
        let v = self.operand(mode);
        CpuState { y: v, status: with_zn(self.status, v), ..self }
    }

    /// `STA`, `STX`, `STY`: a register into the operand's address.
    pub open spec fn store(self, mode: AddressingMode, v: u8) -> CpuState {
        self.write(self.operand_address(mode), v)
    }

    /// `TAX`.
    pub open spec fn tax(self) -> CpuState {
        CpuState { x: self.a, status: with_zn(self.status, self.a), ..self }
    }

    /// `TXA`.
    pub open spec fn txa(self) -> CpuState {
        CpuState { a: self.x, status: with_zn(self.status, self.x), ..self }
    }

    /// `TAY`.
    pub open spec fn tay(self) -> CpuState {
        CpuState { y: self.a, status: with_zn(self.status, self.a), ..self }
    }

    /// `TYA`.
    pub open spec fn tya(self) -> CpuState {
        CpuState { a: self.y, status: with_zn(self.status, self.y), ..self }
    }

    /// `INX` (`d == 1`) and `DEX` (`d == -1`).
    pub open spec fn step_x(self, d: int) -> CpuState {
        let r = add8(self.x, d + 256);
        CpuState { x: r, status: with_zn(self.status, r), ..self }
    }

    /// `INY` (`d == 1`) and `DEY` (`d == -1`).
    pub open spec fn step_y(self, d: int) -> CpuState {
        let r = add8(self.y, d + 256);
        CpuState { y: r, status: with_zn(self.status, r), ..self }
    }

    /// `INC` (`d == 1`) and `DEC` (`d == -1`) on the operand in memory.
    pub open spec fn step_memory(self, mode: AddressingMode, d: int) -> CpuState {
        let r = add8(self.operand(mode), d + 256);
        self.store(mode, r).with_status(with_zn(self.status, r))
    }

    /// The adder of `ADC` and `SBC`: A + m + carry into A, with carry,
    /// overflow, zero and negative set from the sum.
    pub open spec fn add_with_carry(self, m: u8) -> CpuState {
        let sum = adder_sum(self.a, m, self.status);
        let r = (sum % 256) as u8;
        let status = with_flag(
            with_flag(self.status, CARRY, sum > 255),
            OVERFLOW,
            adder_overflow(self.a, m, r),
        );
        CpuState { a: r, status: with_zn(status, r), ..self }
    }

    /// `ADC`.
    pub open spec fn adc(self, mode: AddressingMode) -> CpuState {
        self.add_with_carry(self.operand(mode))
    }

    /// `SBC`: the adder fed with the complement of the operand.
    pub open spec fn sbc(self, mode: AddressingMode) -> CpuState {
        self.add_with_carry((255 - self.operand(mode)) as u8)
    }

    /// `ASL`: shift left, bit 7 into carry.
    pub open spec fn asl(self, mode: AddressingMode) -> CpuState {
        let v = self.shift_source(mode);
        let r = add8(v, v as int);
        self.shift_store(mode, r).with_status(with_zn(with_flag(self.status, CARRY, v >= 128), r))
    }

    /// `LSR`: shift right, bit 0 into carry.
    pub open spec fn lsr(self, mode: AddressingMode) -> CpuState {
        let v = self.shift_source(mode);
        let r = v / 2;
        self.shift_store(mode, r).with_status(with_zn(with_flag(self.status, CARRY, v % 2 == 1), r))
    }

    /// `ROL`: shift left, the old carry into bit 0, bit 7 into carry.
    pub open spec fn rol(self, mode: AddressingMode) -> CpuState {
        let v = self.shift_source(mode);
        let r = add8(v, v as int + carry_value(self.status));
        self.shift_store(mode, r).with_status(with_zn(with_flag(self.status, CARRY, v >= 128), r))
    }

    /// `ROR`: shift right, the old carry into bit 7, bit 0 into carry.
    pub open spec fn ror(self, mode: AddressingMode) -> CpuState {
        let v = self.shift_source(mode);
        let r = (v / 2 + 128 * carry_value(self.status)) as u8;
        self.shift_store(mode, r).with_status(with_zn(with_flag(self.status, CARRY, v % 2 == 1), r))
    }

    /// `AND`.
    pub open spec fn and(self, mode: AddressingMode) -> CpuState {
        let r = self.a & self.operand(mode);
        CpuState { a: r, status: with_zn(self.status, r), ..self }
    }

    /// `ORA`.
    pub open spec fn ora(self, mode: AddressingMode) -> CpuState {
        let r = self.a | self.operand(mode);
        CpuState { a: r, status: with_zn(self.status, r), ..self }
    }

    /// `EOR`.
    pub open spec fn eor(self, mode: AddressingMode) -> CpuState {
        let r = self.a ^ self.operand(mode);
        CpuState { a: r, status: with_zn(self.status, r), ..self }
    }

    /// `BIT`: zero from A AND the operand, negative and overflow from bits 7
    /// and 6 of the operand.
    pub open spec fn bit(self, mode: AddressingMode) -> CpuState {
        let m = self.operand(mode);
        let status = with_flag(
            with_flag(with_flag(self.status, ZERO, self.a & m == 0), NEGATIVE, is_negative(m)),
            OVERFLOW,
            m & OVERFLOW != 0,
        );
        self.with_status(status)
    }

    /// `CMP`, `CPX`, `CPY`: carry when the register is at least the operand,
    /// zero and negative from their difference.
    pub open spec fn compare(self, mode: AddressingMode, reg: u8) -> CpuState {
        let m = self.operand(mode);
        let r = add8(reg, 256 - m);
        self.with_status(with_zn(with_flag(self.status, CARRY, reg >= m), r))
    }

    /// A conditional branch: when `taken`, the program counter moves by the
    /// signed offset byte it points at, counted from the byte after it.
    pub open spec fn branch(self, taken: bool) -> CpuState {
        if taken {
            CpuState { pc: branch_target(self.pc, self.read(self.pc)), ..self }
        } else {
            self
        }
    }

    /// The address that the indirect `JMP` reads its target from for the high
    /// byte: the byte after the pointer within the same page.
    pub open spec fn indirect_high(ptr: u16) -> u16 {
        (ptr as int - ptr as int % 256 + (ptr as int % 256 + 1) % 256) as u16
    }

    /// `JMP`: absolute, or indirect through a pointer whose high byte is read
    /// from the same page as its low byte.
    pub open spec fn jmp(self, mode: AddressingMode) -> CpuState {
        if mode is NoneAddressing {
            let ptr = self.read_u16(self.pc);
            CpuState { pc: word(self.read(ptr), self.read(Self::indirect_high(ptr))), ..self }
        } else {
            CpuState { pc: self.operand_address(mode), ..self }
        }
    }

    /// What an instruction other than `BRK` does, the program counter pointing
    /// at its first operand byte.
    pub open spec fn execute(self, op: OpCode) -> CpuState {
        let mode = op.mode;
        match op.instruction {
            Instruction::Brk => self,
            Instruction::Lda => self.lda(mode),
            Instruction::Sta => self.store(mode, self.a),
            Instruction::Ldx => self.ldx(mode),
            Instruction::Stx => self.store(mode, self.x),
            Instruction::Ldy => self.ldy(mode),
            Instruction::Sty => self.store(mode, self.y),
            Instruction::Tax => self.tax(),
            Instruction::Txa => self.txa(),
            Instruction::Tay => self.tay(),
            Instruction::Tya => self.tya(),
            Instruction::Adc => self.adc(mode),
            Instruction::Sbc => self.sbc(mode),
            Instruction::Inc => self.step_memory(mode, 1),
            Instruction::Dec => self.step_memory(mode, -1),
            Instruction::Inx => self.step_x(1),
            Instruction::Dex => self.step_x(-1),
            Instruction::Iny => self.step_y(1),
            Instruction::Dey => self.step_y(-1),
            Instruction::Asl => self.asl(mode),
            Instruction::Lsr => self.lsr(mode),
            Instruction::Rol => self.rol(mode),
            Instruction::Ror => self.ror(mode),
            Instruction::And => self.and(mode),
            Instruction::Ora => self.ora(mode),
            Instruction::Eor => self.eor(mode),
            Instruction::Bit => self.bit(mode),
            Instruction::Cmp => self.compare(mode, self.a),
            Instruction::Cpx => self.compare(mode, self.x),
            Instruction::Cpy => self.compare(mode, self.y),
            Instruction::Bcc => self.branch(!flag(self.status, CARRY)),
            Instruction::Bcs => self.branch(flag(self.status, CARRY)),
            Instruction::Beq => self.branch(flag(self.status, ZERO)),
            Instruction::Bne => self.branch(!flag(self.status, ZERO)),
            Instruction::Bpl => self.branch(!flag(self.status, NEGATIVE)),
            Instruction::Bmi => self.branch(flag(self.status, NEGATIVE)),
            Instruction::Bvc => self.branch(!flag(self.status, OVERFLOW)),
            Instruction::Bvs => self.branch(flag(self.status, OVERFLOW)),
            Instruction::Jmp => self.jmp(mode),
            Instruction::Clc => self.with_status(with_flag(self.status, CARRY, false)),
            Instruction::Sec => self.with_status(with_flag(self.status, CARRY, true)),
        }
    }
}

/// What one fetch-decode-execute step leads to.
pub enum StepOutcome {
    /// The instruction was carried out; the machine goes on from this state.
    Continue(CpuState),
    /// `BRK` was fetched; the machine stops in this state.
    Halted(CpuState),
    /// The step cannot be carried out (the program counter would pass 0xFFFF,
    /// or the opcode is not one this processor carries out); the machine stops
    /// in this state.
    Fault(CpuState),
}

/// One step: fetch the opcode at the program counter and move past it; stop on
/// `BRK`; otherwise carry the instruction out and, when it left the program
/// counter where it was, move past its operand bytes.
pub open spec fn step_spec(s: CpuState) -> StepOutcome {
    if s.pc == 0xFFFF {
        StepOutcome::Fault(s)
    } else {
        match opcode_spec(s.read(s.pc)) {
            None => StepOutcome::Fault(s),
            Some(op) => {
                let fetched = CpuState { pc: (s.pc + 1) as u16, ..s };
                if op.instruction is Brk {
                    StepOutcome::Halted(fetched)
                } else {
                    let done = fetched.execute(op);
                    if done.pc != fetched.pc {
                        StepOutcome::Continue(done)
                    } else if fetched.pc + op.bytes - 1 > 0xFFFF {
                        StepOutcome::Fault(done)
                    } else {
                        StepOutcome::Continue(CpuState { pc: (fetched.pc + op.bytes - 1) as u16, ..done })
                    }
                }
            },
        }
    }
}

/// Where a run stands after a number of steps.
pub enum RunOutcome {
    /// `BRK` was reached, in this state.
    Halted(CpuState),
    /// A step could not be carried out, in this state.
    Faulted(CpuState),
    /// Neither yet; the machine is in this state.
    Running(CpuState),
}

/// The run from `s` after at most `n` steps; it stops early at `BRK` or at a
/// step that cannot be carried out.
pub open spec fn run_steps(s: CpuState, n: nat) -> RunOutcome
    decreases n,
{
    if n == 0 {
        RunOutcome::Running(s)
    } else {
        match step_spec(s) {
            StepOutcome::Halted(t) => RunOutcome::Halted(t),
            StepOutcome::Fault(t) => RunOutcome::Faulted(t),
            StepOutcome::Continue(t) => run_steps(t, (n - 1) as nat),
        }
    }
}

/// The run from `s` reaches `BRK` and stops in `t`.
pub open spec fn halts_in(s: CpuState, t: CpuState) -> bool {
    exists|n: nat| run_steps(s, n) == RunOutcome::Halted(t)
}

/// The run from `s` reaches `BRK`, every step before it carried out.
pub open spec fn halts(s: CpuState) -> bool {
    exists|n: nat| run_steps(s, n) is Halted
}

} // verus!
