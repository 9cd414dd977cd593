//! The executable processor, proved against the model of `state` and the
//! instruction meanings of `semantics`.
use vstd::prelude::*;
use crate::bits::{
    lemma_bit7, lemma_byte_bit0, lemma_byte_bit7, lemma_carry_bit, lemma_join_bytes, lemma_low_byte,
    lemma_masks, lemma_not_byte, lemma_page_parts, lemma_shift_left, lemma_shift_right,
    lemma_signed_byte, lemma_split_word, lemma_stack_page,
};
use crate::opcodes::{AddressingMode, Instruction, OpCode, decode};
use crate::semantics::{RunOutcome, StepOutcome, halts, halts_in, run_steps, step_spec};
use crate::state::{
    CpuState, CARRY, NEGATIVE, OVERFLOW, ZERO, initial_state, placed, with_flag,
    with_zn, zeroed_memory,
};

verus! {

/*
                    7  bit  0
                    ---- ----
                    NV1B DIZC
                    |||| ||||
                    |||| |||+- Carry
                    |||| ||+-- Zero
                    |||| |+--- Interrupt Disable
                    |||| +---- Decimal
                    |||+------ (No CPU effect; see: the B flag)
                    ||+------- (No CPU effect; always pushed as 1)
                    |+-------- Overflow
                    +--------- Negative
*/

/// The processor: its registers and 64 KiB of memory.
pub struct CPU {
    pub register_a: u8,
    pub register_x: u8,
    pub register_y: u8,
    pub stack_pointer: u8,
    pub status: u8,
    pub program_counter: u16,
    memory: [u8; 0x10000],
}

/// What one call of `step` did.
#[derive(Debug, Clone, Copy, PartialEq, Eq, Structural)]
pub enum StepResult {
    /// An instruction was carried out.
    Continue,
    /// `BRK` was fetched.
    Halted,
    /// The step could not be carried out.
    Fault,
}

/// How a run bounded by a number of steps ended.
#[derive(Debug, Clone, Copy, PartialEq, Eq, Structural)]
pub enum RunResult {
    /// `BRK` was reached.
    Halted,
    /// A step could not be carried out.
    Faulted,
    /// The step limit was reached first.
    Running,
}

impl View for CPU {
    type V = CpuState;

    closed spec fn view(&self) -> CpuState {
        CpuState {
            a: self.register_a,
            x: self.register_x,
            y: self.register_y,
            sp: self.stack_pointer,
            status: self.status,
            pc: self.program_counter,
            mem: self.memory@,
        }
    }
}

impl CPU {
    /// A processor with every register zero but the stack pointer (0xFF) and
    /// every byte of memory zero.
    pub fn new() -> (c: Self)
        ensures
            c@ == initial_state(),
    {
        let c = CPU {
            register_a: 0,
            register_x: 0,
            register_y: 0,
            stack_pointer: 0xFF,
            status: 0,
            program_counter: 0,
            memory: [0; 0x10000],
        };
        assert(c.memory@ =~= zeroed_memory());
        c
    }

    /// The byte at `addr`.
    pub fn mem_read(&self, addr: u16) -> (r: u8)
        ensures
            r == self@.read(addr),
    {
        self.memory[addr as usize]
    }

    /// The little-endian word at `pos` and the byte after it.
    pub fn mem_read_u16(&self, pos: u16) -> (r: u16)
        ensures
            r == self@.read_u16(pos),
    {
        let lo = self.mem_read(pos) as u16;
        let hi = self.mem_read(pos.wrapping_add(1)) as u16;
        proof {
            lemma_join_bytes(lo as u8, hi as u8);
        }
        (hi << 8u16) | (lo as u16)
    }

    /// Stores `data` little-endian at `pos` and the byte after it.
    pub fn mem_write_u16(&mut self, pos: u16, data: u16)
        ensures
            final(self)@ == old(self)@.write_u16(pos, data),
    {
        let hi = (data >> 8u16) as u8;
        let lo = (data & 0xffu16) as u8;
        proof {
            lemma_split_word(data);
        }
        self.mem_write(pos, lo);
        self.mem_write(pos.wrapping_add(1), hi);
    }

    /// Stores `data` at `addr`.
    pub fn mem_write(&mut self, addr: u16, data: u8)
        ensures
            final(self)@ == old(self)@.write(addr, data),
    {
        self.memory[addr as usize] = data;
    }

    /// The address in page one that the stack pointer designates.
    pub fn get_stack_addr(&self) -> (r: u16)
        ensures
            r == self@.stack_addr(),
    {
        proof {
            lemma_stack_page(self.stack_pointer);
        }
        0x0100u16 | (self.stack_pointer as u16)
    }

    /// Pushes a byte on the stack.
    pub fn stack_push(&mut self, data: u8)
        ensures
            final(self)@ == old(self)@.push(data),
    {
        let addr = self.get_stack_addr();
        self.mem_write(addr, data);
        self.stack_pointer = self.stack_pointer.wrapping_sub(1);
    }

    /// Pops a byte from the stack.
    pub fn stack_pop(&mut self) -> (r: u8)
        ensures
            r == old(self)@.popped(),
            final(self)@ == old(self)@.pop_state(),
    {
        self.stack_pointer = self.stack_pointer.wrapping_add(1);
        let addr = self.get_stack_addr();
        self.mem_read(addr)
    }

    /// Clears A, X, Y and the status, puts the stack pointer at 0xFF and takes
    /// the program counter from the reset vector at 0xFFFC.
    pub fn reset(&mut self)
        ensures
            final(self)@ == old(self)@.reset(),
    {
        self.register_a = 0;
        self.register_x = 0;
        self.register_y = 0;
        self.stack_pointer = 0xFF;
        self.status = 0;
        self.program_counter = self.mem_read_u16(0xFFFC);
    }

    /// Copies `program` to 0x8000 and points the reset vector at it. A program
    /// longer than 0x8000 bytes does not fit.
    pub fn load(&mut self, program: Vec<u8>)
        requires
            program.len() <= 0x8000,
        ensures
            final(self)@ == old(self)@.load(program@),
    {
        let n = program.len();
        let mut i: usize = 0;
        while i < n
            invariant
                n == program.len(),
                n <= 0x8000,
                i <= n,
                self.memory@.len() == 0x10000,
                self.register_a == old(self).register_a,
                self.register_x == old(self).register_x,
                self.register_y == old(self).register_y,
                self.stack_pointer == old(self).stack_pointer,
                self.status == old(self).status,
                self.program_counter == old(self).program_counter,
                forall|j: int|
                    0 <= j < 0x10000 ==> #[trigger] self.memory@[j] == (if 0x8000 <= j < 0x8000
                        + i {
                        program@[j - 0x8000]
                    } else {
                        old(self).memory@[j]
                    }),
            decreases n - i,
        {
            self.memory[0x8000 + i] = program[i];
            i += 1;
        }
        assert(self.memory@ =~= placed(old(self)@.mem, program@));
        self.mem_write_u16(0xFFFC, 0x8000);
    }

    /// Loads `program`, resets, and runs until `BRK`.
    pub fn load_and_run(&mut self, program: Vec<u8>)
        requires
            program.len() <= 0x8000,
            halts(old(self)@.load(program@).reset()),
        ensures
            halts_in(old(self)@.load(program@).reset(), final(self)@),
    {
        self.load(program);
        self.reset();
        self.run();
    }

    /// Runs from the current state until `BRK`; the program must reach it.
    pub fn run(&mut self)
        requires
            halts(old(self)@),
        ensures
            halts_in(old(self)@, final(self)@),
    {
        let ghost n: nat = choose|n: nat| run_steps(self@, n) is Halted;
        let ghost fin: CpuState = run_steps(self@, n)->Halted_0;
        let ghost mut fuel: nat = n;
        loop
            invariant
                run_steps(self@, fuel) == RunOutcome::Halted(fin),
                run_steps(old(self)@, n) == RunOutcome::Halted(fin),
            decreases fuel,
        {
            let ghost pre = self@;
            let r = self.step();
            match r {
                StepResult::Halted => {
                    assert(run_steps(old(self)@, n) == RunOutcome::Halted(self@));
                    return ;
                },
                StepResult::Fault => {
                    assert(run_steps(pre, fuel) is Faulted);
                    return ;
                },
                StepResult::Continue => {
                    proof {
                        fuel = (fuel - 1) as nat;
                    }
                },
            }
        }
    }

    /// Runs at most `max_steps` steps, stopping early at `BRK` or at a step
    /// that cannot be carried out.
    pub fn run_with_limit(&mut self, max_steps: u64) -> (r: RunResult)
        ensures
            match run_steps(old(self)@, max_steps as nat) {
                RunOutcome::Halted(t) => r == RunResult::Halted && final(self)@ == t,
                RunOutcome::Faulted(t) => r == RunResult::Faulted && final(self)@ == t,
                RunOutcome::Running(t) => r == RunResult::Running && final(self)@ == t,
            },
    {
        let mut i: u64 = 0;
        while i < max_steps
            invariant
                i <= max_steps,
                run_steps(old(self)@, max_steps as nat) == run_steps(self@, (max_steps - i) as nat),
            decreases max_steps - i,
        {
            let r = self.step();
            match r {
                StepResult::Halted => {
                    return RunResult::Halted;
                },
                StepResult::Fault => {
                    return RunResult::Faulted;
                },
                StepResult::Continue => {},
            }
            i += 1;
        }
        RunResult::Running
    }

    /// One fetch-decode-execute step.
    pub fn step(&mut self) -> (r: StepResult)
        ensures
            match step_spec(old(self)@) {
                StepOutcome::Continue(t) => r == StepResult::Continue && final(self)@ == t,
                StepOutcome::Halted(t) => r == StepResult::Halted && final(self)@ == t,
                StepOutcome::Fault(t) => r == StepResult::Fault && final(self)@ == t,
            },
    {
        if self.program_counter == 0xFFFF {
            return StepResult::Fault;
        }
        let loaded_code = self.mem_read(self.program_counter);
        let opcode = match decode(loaded_code) {
            Some(op) => op,
            None => {
                return StepResult::Fault;
            },
        };
        self.program_counter += 1;
        let program_counter_state = self.program_counter;
        if let Instruction::Brk = opcode.instruction {
            return StepResult::Halted;
        }
        self.execute(&opcode);
        if program_counter_state == self.program_counter {
            let advance = (opcode.bytes - 1) as u16;
            if program_counter_state > 0xFFFF - advance {
                return StepResult::Fault;
            }
            self.program_counter += advance;
        }
        StepResult::Continue
    }
}

impl CPU {
    /// Carries out a decoded instruction other than `BRK`, the program counter
    /// pointing at its first operand byte.
    fn execute(&mut self, op: &OpCode)
        requires
            op.wf(),
            !(op.instruction is Brk),
        ensures
            final(self)@ == old(self)@.execute(*op),
    {
        match op.instruction {
            Instruction::Lda | Instruction::Sta | Instruction::Ldx | Instruction::Stx | Instruction::Ldy | Instruction::Sty | Instruction::Tax | Instruction::Txa | Instruction::Tay | Instruction::Tya => self.execute_transfer(op),
            Instruction::Adc | Instruction::Sbc | Instruction::Inc | Instruction::Dec | Instruction::Inx | Instruction::Dex | Instruction::Iny | Instruction::Dey => self.execute_arithmetic(op),
            Instruction::Asl | Instruction::Lsr | Instruction::Rol | Instruction::Ror | Instruction::And | Instruction::Ora | Instruction::Eor | Instruction::Bit => self.execute_bitwise(op),
            Instruction::Cmp | Instruction::Cpx | Instruction::Cpy | Instruction::Bcc | Instruction::Bcs | Instruction::Beq | Instruction::Bne | Instruction::Bpl | Instruction::Bmi | Instruction::Bvc | Instruction::Bvs | Instruction::Jmp | Instruction::Clc | Instruction::Sec => self.execute_control(op),
            Instruction::Brk => {},
        }
    }

    /// Carries out the loads, stores and transfers.
    fn execute_transfer(&mut self, op: &OpCode)
        requires
            op.wf(),
            op.instruction is Lda || op.instruction is Sta || op.instruction is Ldx || op.instruction is Stx || op.instruction is Ldy || op.instruction is Sty || op.instruction is Tax || op.instruction is Txa || op.instruction is Tay || op.instruction is Tya,
        ensures
            final(self)@ == old(self)@.execute(*op),
    {
        let mode = &op.mode;
        match op.instruction {
            Instruction::Lda => self.lda(mode),
            Instruction::Sta => self.sta(mode),
            Instruction::Ldx => self.ldx(mode),
            Instruction::Stx => self.stx(mode),
            Instruction::Ldy => self.ldy(mode),
            Instruction::Sty => self.sty(mode),
            Instruction::Tax => self.tax(),
            Instruction::Txa => self.txa(),
            Instruction::Tay => self.tay(),
            Instruction::Tya => self.tya(),
            _ => {},
        }
    }

    /// Carries out the arithmetic.
    fn execute_arithmetic(&mut self, op: &OpCode)
        requires
            op.wf(),
            op.instruction is Adc || op.instruction is Sbc || op.instruction is Inc || op.instruction is Dec || op.instruction is Inx || op.instruction is Dex || op.instruction is Iny || op.instruction is Dey,
        ensures
            final(self)@ == old(self)@.execute(*op),
    {
        let mode = &op.mode;
        match op.instruction {
            Instruction::Adc => self.adc(mode),
            Instruction::Sbc => self.sbc(mode),
            Instruction::Inc => self.inc(mode),
            Instruction::Dec => self.dec(mode),
            Instruction::Inx => self.inx(),
            Instruction::Dex => self.dex(),
            Instruction::Iny => self.iny(),
            Instruction::Dey => self.dey(),
            _ => {},
        }
    }

    /// Carries out the shifts and bitwise operations.
    fn execute_bitwise(&mut self, op: &OpCode)
        requires
            op.wf(),
            op.instruction is Asl || op.instruction is Lsr || op.instruction is Rol || op.instruction is Ror || op.instruction is And || op.instruction is Ora || op.instruction is Eor || op.instruction is Bit,
        ensures
            final(self)@ == old(self)@.execute(*op),
    {
        let mode = &op.mode;
        match op.instruction {
            Instruction::Asl => self.asl(mode),
            Instruction::Lsr => self.lsr(mode),
            Instruction::Rol => self.rol(mode),
            Instruction::Ror => self.ror(mode),
            Instruction::And => self.and(mode),
            Instruction::Ora => self.ora(mode),
            Instruction::Eor => self.eor(mode),
            Instruction::Bit => self.bit(mode),
            _ => {},
        }
    }

    /// Carries out the comparisons, branches, jumps and flag instructions.
    fn execute_control(&mut self, op: &OpCode)
        requires
            op.wf(),
            op.instruction is Cmp || op.instruction is Cpx || op.instruction is Cpy || op.instruction is Bcc || op.instruction is Bcs || op.instruction is Beq || op.instruction is Bne || op.instruction is Bpl || op.instruction is Bmi || op.instruction is Bvc || op.instruction is Bvs || op.instruction is Jmp || op.instruction is Clc || op.instruction is Sec,
        ensures
            final(self)@ == old(self)@.execute(*op),
    {
        let mode = &op.mode;
        match op.instruction {
            Instruction::Cmp => self.cmp(mode),
            Instruction::Cpx => self.cpx(mode),
            Instruction::Cpy => self.cpy(mode),
            Instruction::Bcc => self.bcc(),
            Instruction::Bcs => self.bcs(),
            Instruction::Beq => self.beq(),
            Instruction::Bne => self.bne(),
            Instruction::Bpl => self.bpl(),
            Instruction::Bmi => self.bmi(),
            Instruction::Bvc => self.bvc(),
            Instruction::Bvs => self.bvs(),
            Instruction::Jmp => self.jmp(mode),
            Instruction::Clc => self.clc(),
            Instruction::Sec => self.sec(),
            _ => {},
        }
    }

    /// The address of the operand, the program counter pointing at the first
    /// operand byte.
    fn get_operand_address(&self, mode: &AddressingMode) -> (r: u16)
        requires
            mode.addresses_memory(),
        ensures
            r == self@.operand_address(*mode),
    {
        match mode {
            AddressingMode::Immediate => self.program_counter,
            AddressingMode::ZeroPage => self.mem_read(self.program_counter) as u16,
            AddressingMode::Absolute => self.mem_read_u16(self.program_counter),
            AddressingMode::ZeroPage_X => {
                let pos = self.mem_read(self.program_counter);
                let addr = pos.wrapping_add(self.register_x) as u16;
                addr
            },
            AddressingMode::ZeroPage_Y => {
                let pos = self.mem_read(self.program_counter);
                let addr = pos.wrapping_add(self.register_y) as u16;
                addr
            },
            AddressingMode::Absolute_X => {
                let base = self.mem_read_u16(self.program_counter);
                let addr = base.wrapping_add(self.register_x as u16);
                addr
            },
            AddressingMode::Absolute_Y => {
                let base = self.mem_read_u16(self.program_counter);
                let addr = base.wrapping_add(self.register_y as u16);
                addr
            },
            AddressingMode::Indirect_X => {
                let base: u8 = self.mem_read(self.program_counter);
                let ptr: u8 = base.wrapping_add(self.register_x);
                let lo = self.mem_read(ptr as u16);
                let hi: u8 = self.mem_read(ptr.wrapping_add(1) as u16);
                proof {
                    lemma_join_bytes(lo, hi);
                }
                (hi as u16) << 8u16 | (lo as u16)
            },
            AddressingMode::Indirect_Y => {
                let base = self.mem_read(self.program_counter);
                let lo = self.mem_read(base as u16);
                let hi = self.mem_read(base.wrapping_add(1) as u16);
                proof {
                    lemma_join_bytes(lo, hi);
                }
                let deref_base = (hi as u16) << 8u16 | (lo as u16);
                let deref = deref_base.wrapping_add(self.register_y as u16);
                deref
            },
            AddressingMode::NoneAddressing | AddressingMode::Accumulator => self.program_counter,
        }
    }

    fn lda(&mut self, mode: &AddressingMode)
        requires
            mode.addresses_memory(),
        ensures
            final(self)@ == old(self)@.lda(*mode),
    {
        let addr = self.get_operand_address(mode);
        let value = self.mem_read(addr);
        self.register_a = value;
        self.update_zero_and_negative_flags(self.register_a);
    }

    fn sta(&mut self, mode: &AddressingMode)
        requires
            mode.addresses_memory(),
        ensures
            final(self)@ == old(self)@.store(*mode, old(self).register_a),
    {
        let addr = self.get_operand_address(mode);
        self.mem_write(addr, self.register_a);
    }

    fn ldx(&mut self, mode: &AddressingMode)
        requires
            mode.addresses_memory(),
        ensures
            final(self)@ == old(self)@.ldx(*mode),
    {
        let addr = self.get_operand_address(mode);
        self.register_x = self.mem_read(addr);
        self.update_zero_and_negative_flags(self.register_x);
    }

    fn stx(&mut self, mode: &AddressingMode)
        requires
            mode.addresses_memory(),
        ensures
            final(self)@ == old(self)@.store(*mode, old(self).register_x),
    {
        let addr = self.get_operand_address(mode);
        self.mem_write(addr, self.register_x);
    }

    fn ldy(&mut self, mode: &AddressingMode)
        requires
            mode.addresses_memory(),
        ensures
            final(self)@ == old(self)@.ldy(*mode),
    {
        let addr = self.get_operand_address(mode);
        self.register_y = self.mem_read(addr);
        self.update_zero_and_negative_flags(self.register_y);
    }

    fn sty(&mut self, mode: &AddressingMode)
        requires
            mode.addresses_memory(),
        ensures
            final(self)@ == old(self)@.store(*mode, old(self).register_y),
    {
        let addr = self.get_operand_address(mode);
        self.mem_write(addr, self.register_y);
    }

    fn tax(&mut self)
        ensures
            final(self)@ == old(self)@.tax(),
    {
        self.register_x = self.register_a;
        self.update_zero_and_negative_flags(self.register_x);
    }

    fn txa(&mut self)
        ensures
            final(self)@ == old(self)@.txa(),
    {
        self.register_a = self.register_x;
        self.update_zero_and_negative_flags(self.register_a);
    }

    fn tay(&mut self)
        ensures
            final(self)@ == old(self)@.tay(),
    {
        self.register_y = self.register_a;
        self.update_zero_and_negative_flags(self.register_y);
    }

    fn tya(&mut self)
        ensures
            final(self)@ == old(self)@.tya(),
    {
        self.register_a = self.register_y;
        self.update_zero_and_negative_flags(self.register_a);
    }

    fn inx(&mut self)
        ensures
            final(self)@ == old(self)@.step_x(1),
    {
        self.register_x = self.register_x.wrapping_add(1);
        self.update_zero_and_negative_flags(self.register_x);
    }

    fn dex(&mut self)
        ensures
            final(self)@ == old(self)@.step_x(-1),
    {
        self.register_x = self.register_x.wrapping_sub(1);
        self.update_zero_and_negative_flags(self.register_x);
    }

    fn iny(&mut self)
        ensures
            final(self)@ == old(self)@.step_y(1),
    {
        self.register_y = self.register_y.wrapping_add(1);
        self.update_zero_and_negative_flags(self.register_y);
    }

    fn dey(&mut self)
        ensures
            final(self)@ == old(self)@.step_y(-1),
    {
        self.register_y = self.register_y.wrapping_sub(1);
        self.update_zero_and_negative_flags(self.register_y);
    }

    fn adc(&mut self, mode: &AddressingMode)
        requires
            mode.addresses_memory(),
        ensures
            final(self)@ == old(self)@.adc(*mode),
    {
        let addr = self.get_operand_address(mode);
        let value: u16 = self.mem_read(addr) as u16;
        proof {
            lemma_carry_bit(self.status);
        }
        let addition: u16 = (self.register_a as u16).wrapping_add(value).wrapping_add(
            (self.status & 0b0000_0001) as u16,
        );
        self.update_carry_flag(addition > 255);
        self.update_overflow_flag(addition, value);
        proof {
            lemma_low_byte(addition);
        }
        self.register_a = addition as u8;
        self.update_zero_and_negative_flags(self.register_a);
    }

    fn sbc(&mut self, mode: &AddressingMode)
        requires
            mode.addresses_memory(),
        ensures
            final(self)@ == old(self)@.sbc(*mode),
    {
        let addr = self.get_operand_address(mode);
        let m = self.mem_read(addr);
        proof {
            lemma_not_byte(m);
            lemma_carry_bit(self.status);
        }
        let value: u16 = (!m) as u16;
        let addition: u16 = (self.register_a as u16).wrapping_add(value).wrapping_add(
            (self.status & 0b0000_0001) as u16,
        );
        self.update_carry_flag(addition > 255);
        self.update_overflow_flag(addition, value);
        proof {
            lemma_low_byte(addition);
        }
        self.register_a = addition as u8;
        self.update_zero_and_negative_flags(self.register_a);
    }

    fn inc(&mut self, mode: &AddressingMode)
        requires
            mode.addresses_memory(),
        ensures
            final(self)@ == old(self)@.step_memory(*mode, 1),
    {
        let addr = self.get_operand_address(mode);
        let value = self.mem_read(addr);
        let result = value.wrapping_add(1);
        self.mem_write(addr, result);
        self.update_zero_and_negative_flags(result);
    }

    fn dec(&mut self, mode: &AddressingMode)
        requires
            mode.addresses_memory(),
        ensures
            final(self)@ == old(self)@.step_memory(*mode, -1),
    {
        let addr = self.get_operand_address(mode);
        let value = self.mem_read(addr);
        let result = value.wrapping_sub(1);
        self.mem_write(addr, result);
        self.update_zero_and_negative_flags(result);
    }

    fn asl(&mut self, mode: &AddressingMode)
        requires
            !(*mode is NoneAddressing),
        ensures
            final(self)@ == old(self)@.asl(*mode),
    {
        match mode {
            AddressingMode::Accumulator => {
                let value: u16 = self.register_a as u16;
                proof {
                    lemma_shift_left(self.register_a, 0);
                }
                let shifted: u16 = value << 1u16;
                self.update_carry_flag(shifted > 255);
                proof {
                    lemma_low_byte(shifted);
                }
                self.register_a = shifted as u8;
                self.update_zero_and_negative_flags(self.register_a as u8);
            },
            _ => {
                let addr = self.get_operand_address(mode);
                let byte = self.mem_read(addr);
                let value: u16 = byte as u16;
                proof {
                    lemma_shift_left(byte, 0);
                }
                let shifted: u16 = value << 1u16;
                self.update_carry_flag(shifted > 255);
                proof {
                    lemma_low_byte(shifted);
                }
                self.mem_write(addr, shifted as u8);
                self.update_zero_and_negative_flags(shifted as u8);
            },
        }
    }

    fn lsr(&mut self, mode: &AddressingMode)
        requires
            !(*mode is NoneAddressing),
        ensures
            final(self)@ == old(self)@.lsr(*mode),
    {
        match mode {
            AddressingMode::Accumulator => {
                let value: u8 = self.register_a;
                proof {
                    lemma_byte_bit0(value);
                    lemma_shift_right(value, 0);
                }
                self.update_carry_flag(value & 0b0000_0001 == 1);
                let shifted: u8 = value >> 1u8;
                self.register_a = shifted;
                self.update_zero_and_negative_flags(self.register_a);
            },
            _ => {
                let addr = self.get_operand_address(mode);
                let value: u8 = self.mem_read(addr);
                proof {
                    lemma_byte_bit0(value);
                    lemma_shift_right(value, 0);
                }
                self.update_carry_flag(value & 0b0000_0001 == 1);
                let shifted: u8 = value >> 1u8;
                self.mem_write(addr, shifted);
                self.update_zero_and_negative_flags(shifted);
            },
        }
    }

    fn rol(&mut self, mode: &AddressingMode)
        requires
            !(*mode is NoneAddressing),
        ensures
            final(self)@ == old(self)@.rol(*mode),
    {
        let old_carry = self.status & 0b0000_0001;
        proof {
            lemma_carry_bit(self.status);
        }
        match mode {
            AddressingMode::Accumulator => {
                let value: u16 = self.register_a as u16;
                proof {
                    lemma_shift_left(self.register_a, old_carry);
                }
                let shifted = value << 1u16 | old_carry as u16;
                self.update_carry_flag(shifted > 255);
                proof {
                    lemma_low_byte(shifted);
                }
                self.register_a = shifted as u8;
                self.update_zero_and_negative_flags(self.register_a);
            },
            _ => {
                let addr = self.get_operand_address(mode);
                let byte = self.mem_read(addr);
                let value: u16 = byte as u16;
                proof {
                    lemma_shift_left(byte, old_carry);
                }
                let shifted = value << 1u16 | old_carry as u16;
                self.update_carry_flag(shifted > 255);
                proof {
                    lemma_low_byte(shifted);
                }
                self.mem_write(addr, shifted as u8);
                self.update_zero_and_negative_flags(shifted as u8);
            },
        }
    }

    fn ror(&mut self, mode: &AddressingMode)
        requires
            !(*mode is NoneAddressing),
        ensures
            final(self)@ == old(self)@.ror(*mode),
    {
        let carry = self.status & 0b0000_0001;
        proof {
            lemma_carry_bit(self.status);
            lemma_shift_right(0, carry);
        }
        let old_carry = carry << 7u8;
        match mode {
            AddressingMode::Accumulator => {
                let value = self.register_a;
                proof {
                    lemma_byte_bit0(value);
                    lemma_shift_right(value, carry);
                }
                self.update_carry_flag(value & 0b0000_0001 == 1);
                let shifted: u8 = value >> 1u8 | old_carry;
                self.register_a = shifted;
                self.update_zero_and_negative_flags(shifted);
            },
            _ => {
                let addr = self.get_operand_address(mode);
                let value = self.mem_read(addr);
                proof {
                    lemma_byte_bit0(value);
                    lemma_shift_right(value, carry);
                }
                self.update_carry_flag(value & 0b0000_0001 == 1);
                let shifted: u8 = value >> 1u8 | old_carry;
                self.mem_write(addr, shifted);
                self.update_zero_and_negative_flags(shifted);
            },
        }
    }

    fn and(&mut self, mode: &AddressingMode)
        requires
            mode.addresses_memory(),
        ensures
            final(self)@ == old(self)@.and(*mode),
    {
        let addr = self.get_operand_address(mode);
        let value = self.mem_read(addr);
        self.register_a = self.register_a & value;
        self.update_zero_and_negative_flags(self.register_a);
    }

    fn ora(&mut self, mode: &AddressingMode)
        requires
            mode.addresses_memory(),
        ensures
            final(self)@ == old(self)@.ora(*mode),
    {
        let addr = self.get_operand_address(mode);
        let value = self.mem_read(addr);
        self.register_a = self.register_a | value;
        self.update_zero_and_negative_flags(self.register_a);
    }

    fn eor(&mut self, mode: &AddressingMode)
        requires
            mode.addresses_memory(),
        ensures
            final(self)@ == old(self)@.eor(*mode),
    {
        let addr = self.get_operand_address(mode);
        let value = self.mem_read(addr);
        self.register_a = self.register_a ^ value;
        self.update_zero_and_negative_flags(self.register_a);
    }

    fn bit(&mut self, mode: &AddressingMode)
        requires
            mode.addresses_memory(),
        ensures
            final(self)@ == old(self)@.bit(*mode),
    {
        let addr = self.get_operand_address(mode);
        let value = self.mem_read(addr);
        proof {
            lemma_masks();
            lemma_byte_bit7(value);
        }
        if self.register_a & value == 0 {
            self.status = self.status | 0b0000_0010;
        } else {
            self.status = self.status & 0b1111_1101;
        }
        if value & 0b1000_0000 != 0 {
            self.status = self.status | 0b1000_0000;
        } else {
            self.status = self.status & 0b0111_1111;
        }
        if value & 0b0100_0000 != 0 {
            self.status = self.status | 0b0100_0000;
        } else {
            self.status = self.status & 0b1011_1111;
        }
    }

    fn cmp(&mut self, mode: &AddressingMode)
        requires
            mode.addresses_memory(),
        ensures
            final(self)@ == old(self)@.compare(*mode, old(self).register_a),
    {
        let addr = self.get_operand_address(mode);
        let value = self.mem_read(addr);
        self.update_carry_flag(self.register_a >= value);
        let result = self.register_a.wrapping_sub(value);
        self.update_zero_flag(result);
        self.update_negative_flag(result);
    }

    fn cpx(&mut self, mode: &AddressingMode)
        requires
            mode.addresses_memory(),
        ensures
            final(self)@ == old(self)@.compare(*mode, old(self).register_x),
    {
        let addr = self.get_operand_address(mode);
        let value = self.mem_read(addr);
        self.update_carry_flag(self.register_x >= value);
        let result = self.register_x.wrapping_sub(value);
        self.update_zero_flag(result);
        self.update_negative_flag(result);
    }

    fn cpy(&mut self, mode: &AddressingMode)
        requires
            mode.addresses_memory(),
        ensures
            final(self)@ == old(self)@.compare(*mode, old(self).register_y),
    {
        let addr = self.get_operand_address(mode);
        let value = self.mem_read(addr);
        self.update_carry_flag(self.register_y >= value);
        let result = self.register_y.wrapping_sub(value);
        self.update_zero_flag(result);
        self.update_negative_flag(result);
    }

    /// Moves the program counter by the signed offset byte it points at,
    /// counted from the byte after it, when `taken`.
    fn branch_if(&mut self, taken: bool)
        ensures
            final(self)@ == old(self)@.branch(taken),
    {
        let byte = self.mem_read(self.program_counter);
        proof {
            lemma_signed_byte(byte);
        }
        let offset: i8 = byte as i8;
        if taken {
            self.program_counter = self.program_counter.wrapping_add_signed(offset as i16).wrapping_add(
                1,
            );
        }
    }

    fn bcc(&mut self)
        ensures
            final(self)@ == old(self)@.branch(old(self).status & CARRY == 0),
    {
        self.branch_if((self.status & 0b0000_0001) == 0);
    }

    fn bcs(&mut self)
        ensures
            final(self)@ == old(self)@.branch(old(self).status & CARRY != 0),
    {
        self.branch_if((self.status & 0b0000_0001) != 0);
    }

    fn beq(&mut self)
        ensures
            final(self)@ == old(self)@.branch(old(self).status & ZERO != 0),
    {
        self.branch_if((self.status & 0b0000_0010) != 0);
    }

    fn bne(&mut self)
        ensures
            final(self)@ == old(self)@.branch(old(self).status & ZERO == 0),
    {
        self.branch_if((self.status & 0b0000_0010) == 0);
    }

    fn bpl(&mut self)
        ensures
            final(self)@ == old(self)@.branch(old(self).status & NEGATIVE == 0),
    {
        self.branch_if((self.status & 0b1000_0000) == 0);
    }

    fn bmi(&mut self)
        ensures
            final(self)@ == old(self)@.branch(old(self).status & NEGATIVE != 0),
    {
        self.branch_if((self.status & 0b1000_0000) != 0);
    }

    fn bvc(&mut self)
        ensures
            final(self)@ == old(self)@.branch(old(self).status & OVERFLOW == 0),
    {
        self.branch_if((self.status & 0b0100_0000) == 0);
    }

    fn bvs(&mut self)
        ensures
            final(self)@ == old(self)@.branch(old(self).status & OVERFLOW != 0),
    {
        self.branch_if((self.status & 0b0100_0000) != 0);
    }

    fn jmp(&mut self, mode: &AddressingMode)
        requires
            !(*mode is Accumulator),
        ensures
            final(self)@ == old(self)@.jmp(*mode),
    {
        match mode {
            AddressingMode::NoneAddressing => {
                // indirect, with the 6502's page wrap of the pointer's high byte
                let ptr = self.mem_read_u16(self.program_counter);
                proof {
                    lemma_page_parts(ptr);
                }
                let addr = if ptr & 0x00FF == 0x00FF {
                    let lo = self.mem_read(ptr);
                    let hi = self.mem_read(ptr & 0xFF00);
                    proof {
                        lemma_join_bytes(lo, hi);
                    }
                    (hi as u16) << 8u16 | lo as u16
                } else {
                    self.mem_read_u16(ptr)
                };
                self.program_counter = addr;
            },
            _ => {
                let addr = self.get_operand_address(mode);
                self.program_counter = addr;
            },
        }
    }

    fn clc(&mut self)
        ensures
            final(self)@ == old(self)@.with_status(with_flag(old(self).status, CARRY, false)),
    {
        proof {
            lemma_masks();
        }
        self.status = self.status & 0b1111_1110;
    }

    fn sec(&mut self)
        ensures
            final(self)@ == old(self)@.with_status(with_flag(old(self).status, CARRY, true)),
    {
        self.status = self.status | 0b0000_0001;
    }

    fn update_zero_and_negative_flags(&mut self, result: u8)
        ensures
            final(self)@ == old(self)@.with_status(with_zn(old(self).status, result)),
    {
        self.update_zero_flag(result);
        self.update_negative_flag(result);
    }

    fn update_zero_flag(&mut self, result: u8)
        ensures
            final(self)@ == old(self)@.with_status(with_flag(old(self).status, ZERO, result == 0)),
    {
        proof {
            lemma_masks();
        }
        if result == 0 {
            self.status = self.status | 0b0000_0010;
        } else {
            self.status = self.status & 0b1111_1101;
        }
    }

    fn update_negative_flag(&mut self, result: u8)
        ensures
            final(self)@ == old(self)@.with_status(
                with_flag(old(self).status, NEGATIVE, result >= 0x80),
            ),
    {
        proof {
            lemma_masks();
            lemma_byte_bit7(result);
        }
        if result & 0b1000_0000 != 0 {
            self.status = self.status | 0b1000_0000;
        } else {
            self.status = self.status & 0b0111_1111;
        }
    }

    fn update_carry_flag(&mut self, result: bool)
        ensures
            final(self)@ == old(self)@.with_status(with_flag(old(self).status, CARRY, result)),
    {
        proof {
            lemma_masks();
        }
        if result {
            self.status = self.status | 0b0000_0001;
        } else {
            self.status = self.status & 0b1111_1110;
        }
    }

    /// Sets overflow when bit 7 of the result differs from bit 7 of both A and
    /// `value`.
    fn update_overflow_flag(&mut self, result: u16, value: u16)
        ensures
            final(self)@ == old(self)@.with_status(
                with_flag(
                    old(self).status,
                    OVERFLOW,
                    (old(self).register_a >= 128) != (result % 256 >= 128) && (value % 256 >= 128)
                        != (result % 256 >= 128),
                ),
            ),
    {
        proof {
            lemma_masks();
            lemma_bit7(result);
            lemma_bit7(value);
            lemma_bit7(self.register_a as u16);
        }
        let bit7_a: u16 = (self.register_a as u16) & 0b1000_0000;
        let bit7_value: u16 = value & 0b1000_0000;
        let bit7_result: u16 = result & 0b1000_0000;
        if (bit7_a != bit7_result) && (bit7_value != bit7_result) {
            self.status = self.status | 0b0100_0000
        } else {
            self.status = self.status & 0b1011_1111
        }
    }
}

} // verus!
