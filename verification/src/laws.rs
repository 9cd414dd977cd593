//! Properties of the instruction set as a whole, each proved from the
//! meanings in `semantics` and the model in `state`.
use vstd::prelude::*;
use crate::bus::{BusState, bus_read, bus_write};
use crate::opcodes::{AddressingMode, Instruction, opcode_spec};
use crate::semantics::{
    RunOutcome, StepOutcome, add16, add8, adder_overflow, halts_in, run_steps, step_spec,
};
use crate::state::{
    CpuState, CARRY, NEGATIVE, OVERFLOW, ZERO, PROGRAM_START, carry_value, flag, signed,
    with_flag, with_zn, word,
};

verus! {

/// The four single-bit masks of the status register that the processor sets.
pub open spec fn is_status_mask(m: u8) -> bool {
    m == CARRY || m == ZERO || m == OVERFLOW || m == NEGATIVE
}

/// Setting a status flag sets exactly that flag: afterwards it reads as
/// requested, and every other flag reads as before.
pub proof fn law_with_flag(status: u8, mask: u8, on: bool, other: u8)
    requires
        is_status_mask(mask),
        is_status_mask(other),
    ensures
        flag(with_flag(status, mask, on), mask) == on,
        other != mask ==> flag(with_flag(status, mask, on), other) == flag(status, other),
{
    assert(flag(with_flag(status, mask, on), mask) == on) by (bit_vector)
        requires
            mask == 1u8 || mask == 2u8 || mask == 64u8 || mask == 128u8,
    ;
    assert(other != mask ==> flag(with_flag(status, mask, on), other) == flag(status, other))
        by (bit_vector)
        requires
            mask == 1u8 || mask == 2u8 || mask == 64u8 || mask == 128u8,
            other == 1u8 || other == 2u8 || other == 64u8 || other == 128u8,
    ;
}

/// After a result is recorded, the zero flag says whether it is zero, the
/// negative flag whether its bit 7 is set, and carry and overflow are kept.
pub proof fn law_zero_negative(status: u8, result: u8)
    ensures
        flag(with_zn(status, result), ZERO) == (result == 0),
        flag(with_zn(status, result), NEGATIVE) == (result >= 0x80),
        flag(with_zn(status, result), CARRY) == flag(status, CARRY),
        flag(with_zn(status, result), OVERFLOW) == flag(status, OVERFLOW),
{
    let s1 = with_flag(status, ZERO, result == 0);
    law_with_flag(status, ZERO, result == 0, CARRY);
    law_with_flag(status, ZERO, result == 0, OVERFLOW);
    law_with_flag(status, ZERO, result == 0, ZERO);
    law_with_flag(s1, NEGATIVE, result >= 0x80, ZERO);
    law_with_flag(s1, NEGATIVE, result >= 0x80, CARRY);
    law_with_flag(s1, NEGATIVE, result >= 0x80, OVERFLOW);
}

/// A byte stored in memory is read back, and no other byte changes.
pub proof fn law_read_after_write(s: CpuState, addr: u16, value: u8, other: u16)
    requires
        s.wf(),
    ensures
        s.write(addr, value).read(addr) == value,
        other != addr ==> s.write(addr, value).read(other) == s.read(other),
        s.write(addr, value).wf(),
{
}

/// A 16-bit word stored little-endian is read back whole.
pub proof fn law_word_read_after_write(s: CpuState, pos: u16, data: u16)
    requires
        s.wf(),
    ensures
        s.write_u16(pos, data).read_u16(pos) == data,
{
}

/// A byte pushed on the stack is the byte that the next pop gives back, and the
/// pop returns the stack pointer to where it was.
pub proof fn law_push_then_pop(s: CpuState, data: u8)
    requires
        s.wf(),
    ensures
        s.push(data).popped() == data,
        s.push(data).pop_state().sp == s.sp,
{
}

/// After loading a program and resetting, the registers are cleared, the stack
/// pointer is 0xFF, execution starts at 0x8000 and the program's bytes stand
/// from 0x8000 on (but for the two bytes of the reset vector, which a program of
/// more than 0x7FFC bytes would reach).
pub proof fn law_load_then_reset(s: CpuState, program: Seq<u8>, i: int)
    requires
        s.wf(),
        program.len() <= 0x8000,
    ensures
        s.load(program).reset().pc == PROGRAM_START,
        s.load(program).reset().a == 0,
        s.load(program).reset().x == 0,
        s.load(program).reset().y == 0,
        s.load(program).reset().status == 0,
        s.load(program).reset().sp == 0xFF,
        0 <= i < program.len() && PROGRAM_START + i < 0xFFFC ==> s.load(program).reset().read(
            (PROGRAM_START + i) as u16,
        ) == program[i],
{
}

/// `ADC` adds the operand and the carry to A modulo 256; carry tells whether
/// the unsigned sum passed 255, overflow whether the signed sum left
/// -128..=127; nothing but A and the status changes.
pub proof fn law_adc(s: CpuState, mode: AddressingMode)
    requires
        s.wf(),
    ensures
        ({
            let m = s.operand(mode);
            let c = carry_value(s.status);
            let t = s.adc(mode);
            &&& t.a == (s.a + m + c) % 256
            &&& flag(t.status, CARRY) == (s.a + m + c > 255)
            &&& flag(t.status, OVERFLOW) == !(-128 <= signed(s.a) + signed(m) + c <= 127)
            &&& flag(t.status, ZERO) == (t.a == 0)
            &&& flag(t.status, NEGATIVE) == (t.a >= 0x80)
            &&& t.x == s.x && t.y == s.y && t.sp == s.sp && t.pc == s.pc && t.mem == s.mem
        }),
{
    let m = s.operand(mode);
    let c = carry_value(s.status);
    let sum = s.a + m + c;
    let r = (sum % 256) as u8;
    let st1 = with_flag(s.status, CARRY, sum > 255);
    let st2 = with_flag(st1, OVERFLOW, adder_overflow(s.a, m, r));
    law_with_flag(s.status, CARRY, sum > 255, CARRY);
    law_with_flag(st1, OVERFLOW, adder_overflow(s.a, m, r), CARRY);
    law_with_flag(st1, OVERFLOW, adder_overflow(s.a, m, r), OVERFLOW);
    law_zero_negative(st2, r);
}

/// `SBC` subtracts the operand and the borrow (the clear carry) from A modulo
/// 256; carry tells that no borrow was needed, overflow that the signed
/// difference left -128..=127; nothing but A and the status changes.
pub proof fn law_sbc(s: CpuState, mode: AddressingMode)
    requires
        s.wf(),
    ensures
        ({
            let m = s.operand(mode);
            let c = carry_value(s.status);
            let t = s.sbc(mode);
            &&& t.a == (s.a - m - (1 - c) + 256) % 256
            &&& flag(t.status, CARRY) == (s.a >= m + (1 - c))
            &&& flag(t.status, OVERFLOW) == !(-128 <= signed(s.a) - signed(m) - (1 - c) <= 127)
            &&& flag(t.status, ZERO) == (t.a == 0)
            &&& flag(t.status, NEGATIVE) == (t.a >= 0x80)
            &&& t.x == s.x && t.y == s.y && t.sp == s.sp && t.pc == s.pc && t.mem == s.mem
        }),
{
    let m = s.operand(mode);
    let n = (255 - m) as u8;
    let c = carry_value(s.status);
    let sum = s.a + n + c;
    let r = (sum % 256) as u8;
    let st1 = with_flag(s.status, CARRY, sum > 255);
    let st2 = with_flag(st1, OVERFLOW, adder_overflow(s.a, n, r));
    law_with_flag(s.status, CARRY, sum > 255, CARRY);
    law_with_flag(st1, OVERFLOW, adder_overflow(s.a, n, r), CARRY);
    law_with_flag(st1, OVERFLOW, adder_overflow(s.a, n, r), OVERFLOW);
    law_zero_negative(st2, r);
    assert(signed(n) == -signed(m) - 1);
}

/// `CMP`, `CPX`, `CPY` set carry when the register is at least the operand,
/// zero when they are equal, negative from bit 7 of their difference, and
/// change nothing else than the status.
pub proof fn law_compare(s: CpuState, mode: AddressingMode, reg: u8)
    requires
        s.wf(),
    ensures
        ({
            let m = s.operand(mode);
            let t = s.compare(mode, reg);
            &&& flag(t.status, CARRY) == (reg >= m)
            &&& flag(t.status, ZERO) == (reg == m)
            &&& flag(t.status, NEGATIVE) == ((reg - m + 256) % 256 >= 0x80)
            &&& flag(t.status, OVERFLOW) == flag(s.status, OVERFLOW)
            &&& t.a == s.a && t.x == s.x && t.y == s.y && t.sp == s.sp && t.pc == s.pc && t.mem
                == s.mem
        }),
{
    let m = s.operand(mode);
    let r = add8(reg, 256 - m);
    let st1 = with_flag(s.status, CARRY, reg >= m);
    law_with_flag(s.status, CARRY, reg >= m, CARRY);
    law_with_flag(s.status, CARRY, reg >= m, OVERFLOW);
    law_zero_negative(st1, r);
}

/// Rotating A left and then right gives back A and the carry flag.
pub proof fn law_rol_then_ror(s: CpuState)
    ensures
        s.rol(AddressingMode::Accumulator).ror(AddressingMode::Accumulator).a == s.a,
        flag(s.rol(AddressingMode::Accumulator).ror(AddressingMode::Accumulator).status, CARRY)
            == flag(s.status, CARRY),
{
    let t = s.rol(AddressingMode::Accumulator);
    let c = carry_value(s.status);
    let st1 = with_flag(s.status, CARRY, s.a >= 128);
    law_with_flag(s.status, CARRY, s.a >= 128, CARRY);
    law_zero_negative(st1, t.a);
    let st2 = with_flag(t.status, CARRY, t.a % 2 == 1);
    law_with_flag(t.status, CARRY, t.a % 2 == 1, CARRY);
    law_zero_negative(st2, s.a);
}

/// Rotating A right and then left gives back A and the carry flag.
pub proof fn law_ror_then_rol(s: CpuState)
    ensures
        s.ror(AddressingMode::Accumulator).rol(AddressingMode::Accumulator).a == s.a,
        flag(s.ror(AddressingMode::Accumulator).rol(AddressingMode::Accumulator).status, CARRY)
            == flag(s.status, CARRY),
{
    let t = s.ror(AddressingMode::Accumulator);
    let st1 = with_flag(s.status, CARRY, s.a % 2 == 1);
    law_with_flag(s.status, CARRY, s.a % 2 == 1, CARRY);
    law_zero_negative(st1, t.a);
    let st2 = with_flag(t.status, CARRY, t.a >= 128);
    law_with_flag(t.status, CARRY, t.a >= 128, CARRY);
    law_zero_negative(st2, s.a);
}

/// `LSR` never sets the negative flag.
pub proof fn law_lsr_clears_negative(s: CpuState, mode: AddressingMode)
    requires
        s.wf(),
    ensures
        !flag(s.lsr(mode).status, NEGATIVE),
{
    let v = s.shift_source(mode);
    let st1 = with_flag(s.status, CARRY, v % 2 == 1);
    law_zero_negative(st1, v / 2);
}

/// `EOR` with the same operand twice gives A back.
pub proof fn law_eor_twice(s: CpuState, mode: AddressingMode)
    requires
        s.wf(),
    ensures
        s.eor(mode).eor(mode).a == s.a,
{
    let m = s.operand(mode);
    assert(s.eor(mode).operand(mode) == m);
    let a = s.a;
    assert((a ^ m) ^ m == a) by (bit_vector);
}

/// Incrementing X and then decrementing it gives X back, and so for Y.
pub proof fn law_increment_then_decrement(s: CpuState)
    ensures
        s.step_x(1).step_x(-1).x == s.x,
        s.step_y(1).step_y(-1).y == s.y,
        s.step_x(-1).step_x(1).x == s.x,
        s.step_y(-1).step_y(1).y == s.y,
{
}

/// The condition, taken from the status flags, under which each branch
/// instruction is taken.
pub open spec fn branch_condition(ins: Instruction, status: u8) -> Option<bool> {
    match ins {
        Instruction::Bcc => Some(!flag(status, CARRY)),
        Instruction::Bcs => Some(flag(status, CARRY)),
        Instruction::Beq => Some(flag(status, ZERO)),
        Instruction::Bne => Some(!flag(status, ZERO)),
        Instruction::Bpl => Some(!flag(status, NEGATIVE)),
        Instruction::Bmi => Some(flag(status, NEGATIVE)),
        Instruction::Bvc => Some(!flag(status, OVERFLOW)),
        Instruction::Bvs => Some(flag(status, OVERFLOW)),
        _ => None,
    }
}

/// A branch instruction continues at the instruction after it, or, when its
/// condition holds, at that address moved by its signed offset; nothing else
/// changes. An offset of -1 (byte 0xFF) would land on the address the step
/// started from plus one, which the step takes for an unmoved program counter:
/// it passes over the offset byte, to the instruction after the branch.
pub proof fn law_branch_step(s: CpuState)
    requires
        s.wf(),
        s.pc < 0xFFFE,
        opcode_spec(s.read(s.pc)) matches Some(op) && branch_condition(op.instruction, s.status)
            is Some,
    ensures
        ({
            let op = opcode_spec(s.read(s.pc))->Some_0;
            let next = (s.pc + 2) as u16;
            let target = add16(next, signed(s.read((s.pc + 1) as u16)));
            step_spec(s) == StepOutcome::Continue(
                CpuState {
                    pc: if branch_condition(op.instruction, s.status)->Some_0 && s.read(
                        (s.pc + 1) as u16,
                    ) != 0xFF {
                        target
                    } else {
                        next
                    },
                    ..s
                },
            )
        }),
{
}

/// The indirect `JMP` takes the high byte of its target from the byte after
/// the pointer within the pointer's page: a pointer at the end of a page wraps
/// to the start of the same page. (A target equal to the address after the
/// opcode byte is taken for an unmoved program counter, and the step passes on
/// to the byte after the instruction.)
pub proof fn law_jmp_indirect(s: CpuState)
    requires
        s.wf(),
        s.pc < 0xFFFD,
        s.read(s.pc) == 0x6C,
    ensures
        ({
            let ptr = s.read_u16((s.pc + 1) as u16);
            let hi_addr = if ptr % 256 == 255 {
                (ptr - 255) as u16
            } else {
                (ptr + 1) as u16
            };
            let target = word(s.read(ptr), s.read(hi_addr));
            step_spec(s) == StepOutcome::Continue(
                CpuState { pc: if target == s.pc + 1 { (s.pc + 3) as u16 } else { target }, ..s },
            )
        }),
{
}

/// Once a run has reached `BRK`, running it for more steps gives the same
/// result.
pub proof fn law_halted_run_stays(s: CpuState, n: nat, k: nat)
    requires
        run_steps(s, n) is Halted,
    ensures
        run_steps(s, n + k) == run_steps(s, n),
    decreases n,
{
    if n > 0 {
        match step_spec(s) {
            StepOutcome::Continue(t) => {
                law_halted_run_stays(t, (n - 1) as nat, k);
                assert((n + k - 1) as nat == (n - 1) as nat + k);
            },
            _ => {},
        }
    }
}

/// A run that reaches `BRK` stops in one state only: the result of `run` is
/// determined by the state it starts from.
pub proof fn law_run_deterministic(s: CpuState, t1: CpuState, t2: CpuState)
    requires
        halts_in(s, t1),
        halts_in(s, t2),
    ensures
        t1 == t2,
{
    let n1 = choose|n: nat| run_steps(s, n) == RunOutcome::Halted(t1);
    let n2 = choose|n: nat| run_steps(s, n) == RunOutcome::Halted(t2);
    if n1 <= n2 {
        law_halted_run_stays(s, n1, (n2 - n1) as nat);
    } else {
        law_halted_run_stays(s, n2, (n1 - n2) as nat);
    }
}

/// The work RAM is mirrored: an address of the RAM region and the same address
/// 0x800 higher read the same byte.
pub proof fn law_bus_mirror(b: BusState, addr: u16)
    requires
        b.wf(),
        addr <= 0x17FF,
    ensures
        bus_read(b, addr) == bus_read(b, (addr + 0x800) as u16),
{
}

/// A byte written to the RAM region is read back at that address and at each
/// of its mirrors.
pub proof fn law_bus_read_after_write(b: BusState, addr: u16, data: u8, mirror: u16)
    requires
        b.wf(),
        addr <= 0x1FFF,
        mirror <= 0x1FFF,
        mirror % 0x800 == addr % 0x800,
    ensures
        bus_read(bus_write(b, addr, data), mirror) == data,
{
}

/// The instructions that never move the program counter themselves: all but
/// `BRK`, the branches and `JMP`.
pub open spec fn falls_through(ins: Instruction) -> bool {
    !(ins is Brk) && !(ins is Jmp) && branch_condition(ins, 0) is None
}

/// An instruction that does not move the program counter itself is followed by
/// the instruction right after its operand bytes.
pub proof fn law_step_advances(s: CpuState)
    requires
        s.wf(),
        opcode_spec(s.read(s.pc)) matches Some(op) && falls_through(op.instruction) && s.pc
            + op.bytes <= 0xFFFF,
    ensures
        step_spec(s) matches StepOutcome::Continue(t) && t.pc == s.pc + opcode_spec(
            s.read(s.pc),
        )->Some_0.bytes,
{
}

/// Only the stores, `INC`, `DEC` and the shifts of a memory operand write
/// memory; every other instruction leaves all of it as it was.
pub proof fn law_memory_untouched(s: CpuState)
    requires
        s.wf(),
        opcode_spec(s.read(s.pc)) matches Some(op) && !(op.instruction is Sta) && !(
        op.instruction is Stx) && !(op.instruction is Sty) && !(op.instruction is Inc) && !(
        op.instruction is Dec) && !(op.instruction is Asl) && !(op.instruction is Lsr) && !(
        op.instruction is Rol) && !(op.instruction is Ror),
    ensures
        match step_spec(s) {
            StepOutcome::Continue(t) => t.mem == s.mem,
            StepOutcome::Halted(t) => t.mem == s.mem,
            StepOutcome::Fault(t) => t.mem == s.mem,
        },
{
}

/// Outside the RAM region the bus has nothing mapped yet: a read gives the low
/// byte of the address and a write changes nothing.
pub proof fn law_bus_unmapped(b: BusState, addr: u16, data: u8)
    requires
        addr > 0x1FFF,
    ensures
        bus_read(b, addr) == addr % 256,
        bus_write(b, addr, data) == b,
{
}

/// A run of no steps stays where it is; a run of one more step stops where the
/// first step halts or faults, and otherwise is the shorter run from where the
/// first step led.
pub proof fn law_run_unfolds(s: CpuState, n: nat)
    ensures
        run_steps(s, 0) == RunOutcome::Running(s),
        run_steps(s, n + 1) == match step_spec(s) {
            StepOutcome::Halted(t) => RunOutcome::Halted(t),
            StepOutcome::Fault(t) => RunOutcome::Faulted(t),
            StepOutcome::Continue(t) => run_steps(t, n),
        },
{
}

} // verus!
