//! What each instruction does, stated over plain arithmetic and single bits of
//! its inputs: for every decoded instruction, the state that `execute` gives is
//! related to the state it started from without going through the
//! instruction's own definition.
use vstd::prelude::*;
use crate::laws::law_compare;
use crate::opcodes::{AddressingMode, Instruction, OpCode, opcode_spec};
use crate::semantics::{StepOutcome, step_spec};
use crate::state::{CpuState, CARRY, NEGATIVE, OVERFLOW, ZERO, flag, with_flag, with_zn};

verus! {

/// Bit `i` (0 is the lowest) of a byte.
pub open spec fn bit(v: u8, i: u8) -> bool {
    (v >> i) & 1u8 == 1u8
}

/// The carry flag as 0 or 1, read directly from bit 0 of the status byte.
pub open spec fn carry_in(status: u8) -> int {
    if status % 2 == 1 {
        1
    } else {
        0
    }
}

/// Everything but the status byte, A and memory is as before.
pub open spec fn keeps_x_y_sp_pc(s: CpuState, t: CpuState) -> bool {
    t.x == s.x && t.y == s.y && t.sp == s.sp && t.pc == s.pc
}

/// The status after a result is recorded: zero and negative describe the
/// result; every other bit is kept.
pub proof fn law_status_after_result(status: u8, r: u8)
    ensures
        flag(with_zn(status, r), ZERO) == (r == 0),
        flag(with_zn(status, r), NEGATIVE) == (r >= 128),
        with_zn(status, r) & 0b0111_1101u8 == status & 0b0111_1101u8,
{
    assert({
        &&& flag(with_zn(status, r), ZERO) == (r == 0)
        &&& flag(with_zn(status, r), NEGATIVE) == (r >= 128)
        &&& with_zn(status, r) & 0b0111_1101u8 == status & 0b0111_1101u8
    }) by (bit_vector);
}

/// The status after a carry and a result are recorded: carry, zero and
/// negative as given; every other bit is kept.
pub proof fn law_status_after_carry_and_result(status: u8, c: bool, r: u8)
    ensures
        flag(with_zn(with_flag(status, CARRY, c), r), CARRY) == c,
        flag(with_zn(with_flag(status, CARRY, c), r), ZERO) == (r == 0),
        flag(with_zn(with_flag(status, CARRY, c), r), NEGATIVE) == (r >= 128),
        with_zn(with_flag(status, CARRY, c), r) & 0b0111_1100u8 == status & 0b0111_1100u8,
{
    assert({
        &&& flag(with_zn(with_flag(status, CARRY, c), r), CARRY) == c
        &&& flag(with_zn(with_flag(status, CARRY, c), r), ZERO) == (r == 0)
        &&& flag(with_zn(with_flag(status, CARRY, c), r), NEGATIVE) == (r >= 128)
        &&& with_zn(with_flag(status, CARRY, c), r) & 0b0111_1100u8 == status & 0b0111_1100u8
    }) by (bit_vector);
}

/// The carry flag read as a bit is the carry as a number.
proof fn lemma_carry_in(status: u8)
    ensures
        flag(status, CARRY) == (status % 2 == 1),
        crate::state::carry_value(status) == carry_in(status),
{
    assert(flag(status, CARRY) == (status % 2 == 1)) by (bit_vector);
}

/// Where each addressing mode finds its operand, the program counter pointing
/// at the first operand byte: the byte itself (immediate); a zero-page byte,
/// indexed within page zero; a little-endian address, indexed modulo 0x10000;
/// a little-endian pointer in page zero (the two bytes wrap within page zero)
/// at the indexed byte (`(zp,X)`), or at the byte and then indexed by Y with the
/// carry going into the high byte (`(zp),Y`).
pub proof fn law_operand_address(s: CpuState)
    requires
        s.wf(),
    ensures
        ({
            let pc = s.pc as int;
            let b0 = s.read(s.pc) as int;
            let b1 = s.read(((pc + 1) % 0x10000) as u16) as int;
            let absolute = b0 + 256 * b1;
            let zx = (b0 + s.x) % 256;
            let ptr_x = s.read(zx as u16) + 256 * s.read(((zx + 1) % 256) as u16);
            let ptr = s.read(b0 as u16) + 256 * s.read(((b0 + 1) % 256) as u16);
            &&& s.operand_address(AddressingMode::Immediate) == pc
            &&& s.operand_address(AddressingMode::ZeroPage) == b0
            &&& s.operand_address(AddressingMode::ZeroPage_X) == (b0 + s.x) % 256
            &&& s.operand_address(AddressingMode::ZeroPage_Y) == (b0 + s.y) % 256
            &&& s.operand_address(AddressingMode::Absolute) == absolute
            &&& s.operand_address(AddressingMode::Absolute_X) == (absolute + s.x) % 0x10000
            &&& s.operand_address(AddressingMode::Absolute_Y) == (absolute + s.y) % 0x10000
            &&& s.operand_address(AddressingMode::Indirect_X) == ptr_x
            &&& s.operand_address(AddressingMode::Indirect_Y) == (ptr + s.y) % 0x10000
        }),
{
}

/// `LDA`, `LDX`, `LDY` put the operand byte in their register, set zero when
/// it is 0 and negative when its bit 7 is set, and change nothing else.
pub proof fn law_load(s: CpuState, op: OpCode)
    requires
        s.wf(),
        op.wf(),
        op.instruction is Lda || op.instruction is Ldx || op.instruction is Ldy,
    ensures
        ({
            let m = s.read(s.operand_address(op.mode));
            let t = s.execute(op);
            &&& t.a == (if op.instruction is Lda { m } else { s.a })
            &&& t.x == (if op.instruction is Ldx { m } else { s.x })
            &&& t.y == (if op.instruction is Ldy { m } else { s.y })
            &&& flag(t.status, ZERO) == (m == 0)
            &&& flag(t.status, NEGATIVE) == (m >= 128)
            &&& t.status & 0b0111_1101u8 == s.status & 0b0111_1101u8
            &&& t.sp == s.sp && t.pc == s.pc && t.mem == s.mem
        }),
{
    law_status_after_result(s.status, s.read(s.operand_address(op.mode)));
}

/// `STA`, `STX`, `STY` write their register to the operand address and change
/// nothing else, the status included.
pub proof fn law_store(s: CpuState, op: OpCode)
    requires
        s.wf(),
        op.wf(),
        op.instruction is Sta || op.instruction is Stx || op.instruction is Sty,
    ensures
        ({
            let reg = if op.instruction is Sta {
                s.a
            } else if op.instruction is Stx {
                s.x
            } else {
                s.y
            };
            let t = s.execute(op);
            &&& t.mem == s.mem.update(s.operand_address(op.mode) as int, reg)
            &&& t.a == s.a && t.status == s.status && keeps_x_y_sp_pc(s, t)
        }),
{
}

/// `TAX`, `TXA`, `TAY`, `TYA` copy one register into another, set zero and
/// negative from the copied byte, and change nothing else.
pub proof fn law_transfer(s: CpuState, op: OpCode)
    requires
        s.wf(),
        op.instruction is Tax || op.instruction is Txa || op.instruction is Tay
            || op.instruction is Tya,
    ensures
        ({
            let v = if op.instruction is Tax || op.instruction is Tay {
                s.a
            } else if op.instruction is Txa {
                s.x
            } else {
                s.y
            };
            let t = s.execute(op);
            &&& t.a == (if op.instruction is Txa || op.instruction is Tya { v } else { s.a })
            &&& t.x == (if op.instruction is Tax { v } else { s.x })
            &&& t.y == (if op.instruction is Tay { v } else { s.y })
            &&& flag(t.status, ZERO) == (v == 0)
            &&& flag(t.status, NEGATIVE) == (v >= 128)
            &&& t.status & 0b0111_1101u8 == s.status & 0b0111_1101u8
            &&& t.sp == s.sp && t.pc == s.pc && t.mem == s.mem
        }),
{
    let v = if op.instruction is Tax || op.instruction is Tay {
        s.a
    } else if op.instruction is Txa {
        s.x
    } else {
        s.y
    };
    law_status_after_result(s.status, v);
}

/// `INC` and `DEC` store the operand byte plus or minus one (wrapping) back at
/// its address, set zero exactly when the stored byte is 0 and negative
/// exactly when its bit 7 is set, and change nothing else. In particular `DEC`
/// sets zero exactly when the byte was 1, and `INC` exactly when it was 0xFF.
pub proof fn law_increment_memory(s: CpuState, op: OpCode)
    requires
        s.wf(),
        op.wf(),
        op.instruction is Inc || op.instruction is Dec,
    ensures
        ({
            let addr = s.operand_address(op.mode);
            let v = s.read(addr);
            let t = s.execute(op);
            let r = t.read(addr);
            &&& r as int == (if op.instruction is Inc { (v + 1) % 256 } else { (v + 255) % 256 })
            &&& t.mem == s.mem.update(addr as int, r)
            &&& flag(t.status, ZERO) == (r == 0)
            &&& flag(t.status, ZERO) == (if op.instruction is Inc { v == 0xFF } else { v == 1 })
            &&& flag(t.status, NEGATIVE) == (r >= 128)
            &&& t.status & 0b0111_1101u8 == s.status & 0b0111_1101u8
            &&& t.a == s.a && keeps_x_y_sp_pc(s, t)
        }),
{
    let addr = s.operand_address(op.mode);
    let v = s.read(addr);
    let r = if op.instruction is Inc {
        ((v + 1) % 256) as u8
    } else {
        ((v + 255) % 256) as u8
    };
    law_status_after_result(s.status, r);
    assert(s.execute(op).mem == s.mem.update(addr as int, r));
}

/// `INX`, `DEX`, `INY`, `DEY` add or subtract one (wrapping) to X or Y, set
/// zero and negative from the new value, and change nothing else.
pub proof fn law_increment_register(s: CpuState, op: OpCode)
    requires
        s.wf(),
        op.instruction is Inx || op.instruction is Dex || op.instruction is Iny
            || op.instruction is Dey,
    ensures
        ({
            let t = s.execute(op);
            let r = if op.instruction is Inx || op.instruction is Dex {
                t.x
            } else {
                t.y
            };
            &&& t.x as int == (if op.instruction is Inx {
                (s.x + 1) % 256
            } else if op.instruction is Dex {
                (s.x + 255) % 256
            } else {
                s.x as int
            })
            &&& t.y as int == (if op.instruction is Iny {
                (s.y + 1) % 256
            } else if op.instruction is Dey {
                (s.y + 255) % 256
            } else {
                s.y as int
            })
            &&& flag(t.status, ZERO) == (r == 0)
            &&& flag(t.status, NEGATIVE) == (r >= 128)
            &&& t.status & 0b0111_1101u8 == s.status & 0b0111_1101u8
            &&& t.a == s.a && t.sp == s.sp && t.pc == s.pc && t.mem == s.mem
        }),
{
    let t = s.execute(op);
    let r = if op.instruction is Inx || op.instruction is Dex {
        t.x
    } else {
        t.y
    };
    law_status_after_result(s.status, r);
}

/// `ORA`: a bit of the new A is set exactly when it is set in the old A or in
/// the operand; so an operand equal to A leaves A as it was. Zero is set
/// exactly when both are 0, negative when either has bit 7 set; nothing else
/// changes.
pub proof fn law_ora(s: CpuState, op: OpCode)
    requires
        s.wf(),
        op.wf(),
        op.instruction is Ora,
    ensures
        ({
            let m = s.read(s.operand_address(op.mode));
            let t = s.execute(op);
            &&& forall|i: u8| i < 8 ==> bit(t.a, i) == (bit(s.a, i) || bit(m, i))
            &&& m == s.a ==> t.a == s.a
            &&& m == 0 ==> t.a == s.a
            &&& flag(t.status, ZERO) == (s.a == 0 && m == 0)
            &&& flag(t.status, NEGATIVE) == (s.a >= 128 || m >= 128)
            &&& t.status & 0b0111_1101u8 == s.status & 0b0111_1101u8
            &&& keeps_x_y_sp_pc(s, t) && t.mem == s.mem
        }),
{
    let m = s.read(s.operand_address(op.mode));
    let a = s.a;
    let r = a | m;
    law_status_after_result(s.status, r);
    assert forall|i: u8| i < 8 implies bit(r, i) == (bit(a, i) || bit(m, i)) by {
        assert(i < 8 ==> (((a | m) >> i) & 1u8 == 1u8) == (((a >> i) & 1u8 == 1u8) || ((m >> i)
            & 1u8 == 1u8))) by (bit_vector);
    }
    assert({
        &&& (a | a) == a
        &&& (a | 0) == a
        &&& ((a | m) == 0) == (a == 0 && m == 0)
        &&& ((a | m) >= 128) == (a >= 128 || m >= 128)
    }) by (bit_vector);
}

/// `AND`: a bit of the new A is set exactly when it is set in both the old A
/// and the operand; so an operand equal to A leaves A as it was. Zero tells
/// that the new A is 0, negative that both had bit 7 set; nothing else changes.
pub proof fn law_and(s: CpuState, op: OpCode)
    requires
        s.wf(),
        op.wf(),
        op.instruction is And,
    ensures
        ({
            let m = s.read(s.operand_address(op.mode));
            let t = s.execute(op);
            &&& forall|i: u8| i < 8 ==> bit(t.a, i) == (bit(s.a, i) && bit(m, i))
            &&& m == s.a ==> t.a == s.a
            &&& m == 0xFF ==> t.a == s.a
            &&& flag(t.status, ZERO) == (t.a == 0)
            &&& flag(t.status, NEGATIVE) == (s.a >= 128 && m >= 128)
            &&& t.status & 0b0111_1101u8 == s.status & 0b0111_1101u8
            &&& keeps_x_y_sp_pc(s, t) && t.mem == s.mem
        }),
{
    let m = s.read(s.operand_address(op.mode));
    let a = s.a;
    let r = a & m;
    law_status_after_result(s.status, r);
    assert forall|i: u8| i < 8 implies bit(r, i) == (bit(a, i) && bit(m, i)) by {
        assert(i < 8 ==> (((a & m) >> i) & 1u8 == 1u8) == (((a >> i) & 1u8 == 1u8) && ((m >> i)
            & 1u8 == 1u8))) by (bit_vector);
    }
    assert({
        &&& (a & a) == a
        &&& (a & 0xFF) == a
        &&& ((a & m) >= 128) == (a >= 128 && m >= 128)
    }) by (bit_vector);
}

/// `EOR`: a bit of the new A is set exactly when it is set in one of the old A
/// and the operand but not both; so an operand equal to A clears A. Zero is set
/// exactly when A equalled the operand, negative when their bits 7 differ;
/// nothing else changes.
pub proof fn law_eor(s: CpuState, op: OpCode)
    requires
        s.wf(),
        op.wf(),
        op.instruction is Eor,
    ensures
        ({
            let m = s.read(s.operand_address(op.mode));
            let t = s.execute(op);
            &&& forall|i: u8| i < 8 ==> bit(t.a, i) == (bit(s.a, i) != bit(m, i))
            &&& m == 0 ==> t.a == s.a
            &&& flag(t.status, ZERO) == (s.a == m)
            &&& flag(t.status, NEGATIVE) == ((s.a >= 128) != (m >= 128))
            &&& t.status & 0b0111_1101u8 == s.status & 0b0111_1101u8
            &&& keeps_x_y_sp_pc(s, t) && t.mem == s.mem
        }),
{
    let m = s.read(s.operand_address(op.mode));
    let a = s.a;
    let r = a ^ m;
    law_status_after_result(s.status, r);
    assert forall|i: u8| i < 8 implies bit(r, i) == (bit(a, i) != bit(m, i)) by {
        assert(i < 8 ==> (((a ^ m) >> i) & 1u8 == 1u8) == (((a >> i) & 1u8 == 1u8) != ((m >> i)
            & 1u8 == 1u8))) by (bit_vector);
    }
    assert({
        &&& (a ^ 0) == a
        &&& ((a ^ m) == 0) == (a == m)
        &&& ((a ^ m) >= 128) == ((a >= 128) != (m >= 128))
    }) by (bit_vector);
}

/// `BIT`: zero tells that A and the operand share no set bit, negative copies
/// bit 7 and overflow bit 6 of the operand; A, memory and every other flag are
/// kept.
pub proof fn law_bit(s: CpuState, op: OpCode)
    requires
        s.wf(),
        op.wf(),
        op.instruction is Bit,
    ensures
        ({
            let m = s.read(s.operand_address(op.mode));
            let t = s.execute(op);
            &&& flag(t.status, ZERO) == (forall|i: u8| i < 8 ==> !(bit(s.a, i) && bit(m, i)))
            &&& flag(t.status, NEGATIVE) == (m >= 128)
            &&& flag(t.status, OVERFLOW) == (m % 128 >= 64)
            &&& t.status & 0b0011_1101u8 == s.status & 0b0011_1101u8
            &&& t.a == s.a && keeps_x_y_sp_pc(s, t) && t.mem == s.mem
        }),
{
    let m = s.read(s.operand_address(op.mode));
    let a = s.a;
    let st = s.status;
    let z = a & m == 0;
    let n = m >= 128;
    let v = m & 0b0100_0000u8 != 0;
    let t = s.execute(op);
    assert(t.status == with_flag(with_flag(with_flag(st, ZERO, z), NEGATIVE, n), OVERFLOW, v));
    assert({
        let f = with_flag(with_flag(with_flag(st, ZERO, z), NEGATIVE, n), OVERFLOW, v);
        &&& flag(f, ZERO) == z
        &&& flag(f, NEGATIVE) == n
        &&& flag(f, OVERFLOW) == v
        &&& f & 0b0011_1101u8 == st & 0b0011_1101u8
        &&& (m & 0b0100_0000u8 != 0) == (m % 128 >= 64)
    }) by (bit_vector)
        requires
            z == (a & m == 0),
            n == (m >= 128),
            v == (m & 0b0100_0000u8 != 0),
    ;
    assert forall|i: u8| i < 8 && z implies !(bit(a, i) && bit(m, i)) by {
        assert(i < 8 && (a & m) == 0 ==> !(((a >> i) & 1u8 == 1u8) && ((m >> i) & 1u8 == 1u8)))
            by (bit_vector);
    }
    if !z {
        assert(exists|i: u8| i < 8 && bit(a, i) && bit(m, i)) by {
            assert((a & m) != 0 ==> (((a >> 0u8) & 1u8 == 1u8) && ((m >> 0u8) & 1u8 == 1u8)) || ((
            (a >> 1u8) & 1u8 == 1u8) && ((m >> 1u8) & 1u8 == 1u8)) || (((a >> 2u8) & 1u8 == 1u8)
                && ((m >> 2u8) & 1u8 == 1u8)) || (((a >> 3u8) & 1u8 == 1u8) && ((m >> 3u8) & 1u8
                == 1u8)) || (((a >> 4u8) & 1u8 == 1u8) && ((m >> 4u8) & 1u8 == 1u8)) || (((a
                >> 5u8) & 1u8 == 1u8) && ((m >> 5u8) & 1u8 == 1u8)) || (((a >> 6u8) & 1u8 == 1u8)
                && ((m >> 6u8) & 1u8 == 1u8)) || (((a >> 7u8) & 1u8 == 1u8) && ((m >> 7u8) & 1u8
                == 1u8))) by (bit_vector);
            if bit(a, 0) && bit(m, 0) {
            } else if bit(a, 1) && bit(m, 1) {
            } else if bit(a, 2) && bit(m, 2) {
            } else if bit(a, 3) && bit(m, 3) {
            } else if bit(a, 4) && bit(m, 4) {
            } else if bit(a, 5) && bit(m, 5) {
            } else if bit(a, 6) && bit(m, 6) {
            } else {
                assert(bit(a, 7) && bit(m, 7));
            }
        }
    }
}

/// The byte a shift works on, read directly: A, or the byte at the operand
/// address.
pub open spec fn shift_input(s: CpuState, mode: AddressingMode) -> u8 {
    if mode is Accumulator {
        s.a
    } else {
        s.read(s.operand_address(mode))
    }
}

/// The shift's result `r` went where its input came from, and nothing else but
/// the status moved.
pub open spec fn shift_output_is(s: CpuState, mode: AddressingMode, t: CpuState, r: u8) -> bool {
    &&& mode is Accumulator ==> t.a == r && t.mem == s.mem
    &&& !(mode is Accumulator) ==> t.a == s.a && t.mem == s.mem.update(
        s.operand_address(mode) as int,
        r,
    )
    &&& keeps_x_y_sp_pc(s, t)
}

/// `ASL`: the result is twice the input modulo 256, whatever the incoming
/// carry, so its bit 0 is always clear; the carry becomes bit 7 of the input,
/// zero and negative describe the result, other flags are kept.
pub proof fn law_asl(s: CpuState, op: OpCode)
    requires
        s.wf(),
        op.wf(),
        op.instruction is Asl,
    ensures
        ({
            let v = shift_input(s, op.mode);
            let r = ((2 * v) % 256) as u8;
            let t = s.execute(op);
            &&& shift_output_is(s, op.mode, t, r)
            &&& !bit(r, 0)
            &&& flag(t.status, CARRY) == (v >= 128)
            &&& flag(t.status, ZERO) == (r == 0)
            &&& flag(t.status, NEGATIVE) == (v % 128 >= 64)
            &&& t.status & 0b0111_1100u8 == s.status & 0b0111_1100u8
        }),
{
    let v = shift_input(s, op.mode);
    let r = ((2 * v) % 256) as u8;
    law_status_after_carry_and_result(s.status, v >= 128, r);
    assert(!bit(r, 0)) by (bit_vector)
        requires
            r as int == (2 * v) % 256,
    ;
}

/// `LSR`: the result is half the input, rounded down; the carry becomes bit 0
/// of the input, zero tells that the input was 0 or 1, negative is always
/// cleared, other flags are kept.
pub proof fn law_lsr(s: CpuState, op: OpCode)
    requires
        s.wf(),
        op.wf(),
        op.instruction is Lsr,
    ensures
        ({
            let v = shift_input(s, op.mode);
            let r = (v / 2) as u8;
            let t = s.execute(op);
            &&& shift_output_is(s, op.mode, t, r)
            &&& flag(t.status, CARRY) == (v % 2 == 1)
            &&& flag(t.status, ZERO) == (v < 2)
            &&& !flag(t.status, NEGATIVE)
            &&& t.status & 0b0111_1100u8 == s.status & 0b0111_1100u8
        }),
{
    let v = shift_input(s, op.mode);
    law_status_after_carry_and_result(s.status, v % 2 == 1, (v / 2) as u8);
}

/// `ROL`: the result is twice the input plus the incoming carry, modulo 256;
/// the carry becomes bit 7 of the input, zero and negative describe the
/// result, other flags are kept.
pub proof fn law_rol(s: CpuState, op: OpCode)
    requires
        s.wf(),
        op.wf(),
        op.instruction is Rol,
    ensures
        ({
            let v = shift_input(s, op.mode);
            let r = ((2 * v + carry_in(s.status)) % 256) as u8;
            let t = s.execute(op);
            &&& shift_output_is(s, op.mode, t, r)
            &&& bit(r, 0) == (s.status % 2 == 1)
            &&& flag(t.status, CARRY) == (v >= 128)
            &&& flag(t.status, ZERO) == (r == 0)
            &&& flag(t.status, NEGATIVE) == (v % 128 >= 64)
            &&& t.status & 0b0111_1100u8 == s.status & 0b0111_1100u8
        }),
{
    let v = shift_input(s, op.mode);
    let c = carry_in(s.status);
    let r = ((2 * v + c) % 256) as u8;
    lemma_carry_in(s.status);
    law_status_after_carry_and_result(s.status, v >= 128, r);
    let st = s.status;
    assert(r == (2 * v + st % 2) % 256);
    assert(bit(r, 0) == (st % 2 == 1)) by (bit_vector)
        requires
            r == (2 * v + st % 2) % 256,
    ;
}

/// `ROR`: the result is half the input, rounded down, plus 128 when the
/// incoming carry was set; the carry becomes bit 0 of the input, negative the
/// incoming carry, zero tells that the result is 0; other flags are kept.
pub proof fn law_ror(s: CpuState, op: OpCode)
    requires
        s.wf(),
        op.wf(),
        op.instruction is Ror,
    ensures
        ({
            let v = shift_input(s, op.mode);
            let r = (v / 2 + 128 * carry_in(s.status)) as u8;
            let t = s.execute(op);
            &&& shift_output_is(s, op.mode, t, r)
            &&& flag(t.status, CARRY) == (v % 2 == 1)
            &&& flag(t.status, ZERO) == (r == 0)
            &&& flag(t.status, NEGATIVE) == (s.status % 2 == 1)
            &&& t.status & 0b0111_1100u8 == s.status & 0b0111_1100u8
        }),
{
    let v = shift_input(s, op.mode);
    let r = (v / 2 + 128 * carry_in(s.status)) as u8;
    lemma_carry_in(s.status);
    law_status_after_carry_and_result(s.status, v % 2 == 1, r);
}

/// `CMP`, `CPX`, `CPY` compare A, X or Y in that order with the operand: carry
/// when the register is at least the operand, zero when they are equal,
/// negative from bit 7 of their difference modulo 256; registers and memory
/// are kept, and so is every flag but these three.
pub proof fn law_compare_instruction(s: CpuState, op: OpCode)
    requires
        s.wf(),
        op.wf(),
        op.instruction is Cmp || op.instruction is Cpx || op.instruction is Cpy,
    ensures
        ({
            let reg = if op.instruction is Cmp {
                s.a
            } else if op.instruction is Cpx {
                s.x
            } else {
                s.y
            };
            let m = s.read(s.operand_address(op.mode));
            let t = s.execute(op);
            &&& flag(t.status, CARRY) == (reg >= m)
            &&& flag(t.status, ZERO) == (reg == m)
            &&& flag(t.status, NEGATIVE) == ((reg - m + 256) % 256 >= 128)
            &&& t.status & 0b0111_1100u8 == s.status & 0b0111_1100u8
            &&& t.a == s.a && keeps_x_y_sp_pc(s, t) && t.mem == s.mem
        }),
{
    let reg = if op.instruction is Cmp {
        s.a
    } else if op.instruction is Cpx {
        s.x
    } else {
        s.y
    };
    let m = s.read(s.operand_address(op.mode));
    law_compare(s, op.mode, reg);
    law_status_after_carry_and_result(s.status, reg >= m, ((reg - m + 256) % 256) as u8);
}

/// `ADC` and `SBC`: A becomes A plus the operand plus the carry (for `SBC`,
/// minus the operand minus the borrow) modulo 256; carry tells that the
/// unsigned sum passed 255 (for `SBC`, that nothing was borrowed), overflow
/// that the signed result left -128..=127; registers other than A and memory
/// are kept.
pub proof fn law_add_subtract(s: CpuState, op: OpCode)
    requires
        s.wf(),
        op.wf(),
        op.instruction is Adc || op.instruction is Sbc,
    ensures
        ({
            let m = s.read(s.operand_address(op.mode));
            let c = carry_in(s.status);
            let sa = if s.a < 128 { s.a as int } else { s.a - 256 };
            let sm = if m < 128 { m as int } else { m - 256 };
            let t = s.execute(op);
            &&& op.instruction is Adc ==> {
                &&& t.a == (s.a + m + c) % 256
                &&& flag(t.status, CARRY) == (s.a + m + c > 255)
                &&& flag(t.status, OVERFLOW) == !(-128 <= sa + sm + c <= 127)
            }
            &&& op.instruction is Sbc ==> {
                &&& t.a == (s.a - m - (1 - c) + 256) % 256
                &&& flag(t.status, CARRY) == (s.a >= m + 1 - c)
                &&& flag(t.status, OVERFLOW) == !(-128 <= sa - sm - (1 - c) <= 127)
            }
            &&& flag(t.status, ZERO) == (t.a == 0)
            &&& flag(t.status, NEGATIVE) == (t.a >= 128)
            &&& keeps_x_y_sp_pc(s, t) && t.mem == s.mem
        }),
{
    lemma_carry_in(s.status);
    if op.instruction is Adc {
        crate::laws::law_adc(s, op.mode);
    } else {
        crate::laws::law_sbc(s, op.mode);
    }
}

/// `CLC` clears and `SEC` sets the carry; every other status bit, every
/// register and memory are kept.
pub proof fn law_carry_instructions(s: CpuState, op: OpCode)
    requires
        op.instruction is Clc || op.instruction is Sec,
    ensures
        ({
            let t = s.execute(op);
            &&& flag(t.status, CARRY) == (op.instruction is Sec)
            &&& t.status & 0b1111_1110u8 == s.status & 0b1111_1110u8
            &&& t.a == s.a && keeps_x_y_sp_pc(s, t) && t.mem == s.mem
        }),
{
    let st = s.status;
    assert({
        &&& flag(with_flag(st, CARRY, true), CARRY)
        &&& !flag(with_flag(st, CARRY, false), CARRY)
        &&& with_flag(st, CARRY, true) & 0b1111_1110u8 == st & 0b1111_1110u8
        &&& with_flag(st, CARRY, false) & 0b1111_1110u8 == st & 0b1111_1110u8
    }) by (bit_vector);
}

/// Opcodes whose low two bits are 01 encode the eight accumulator operations
/// in bits 7..5 (`ORA AND EOR ADC STA LDA CMP SBC`).
pub open spec fn group_one_instruction(c: u8) -> Instruction {
    let aaa = c / 32;
    if aaa == 0 {
        Instruction::Ora
    } else if aaa == 1 {
        Instruction::And
    } else if aaa == 2 {
        Instruction::Eor
    } else if aaa == 3 {
        Instruction::Adc
    } else if aaa == 4 {
        Instruction::Sta
    } else if aaa == 5 {
        Instruction::Lda
    } else if aaa == 6 {
        Instruction::Cmp
    } else {
        Instruction::Sbc
    }
}

/// ... and their addressing mode in bits 4..2 (`(zp,X) zp #imm abs (zp),Y zp,X
/// abs,Y abs,X`).
pub open spec fn group_one_mode(c: u8) -> AddressingMode {
    let bbb = (c / 4) % 8;
    if bbb == 0 {
        AddressingMode::Indirect_X
    } else if bbb == 1 {
        AddressingMode::ZeroPage
    } else if bbb == 2 {
        AddressingMode::Immediate
    } else if bbb == 3 {
        AddressingMode::Absolute
    } else if bbb == 4 {
        AddressingMode::Indirect_Y
    } else if bbb == 5 {
        AddressingMode::ZeroPage_X
    } else if bbb == 6 {
        AddressingMode::Absolute_Y
    } else {
        AddressingMode::Absolute_X
    }
}

/// How many operand bytes follow the opcode of an instruction.
pub open spec fn operand_bytes(op: OpCode) -> int {
    match op.mode {
        AddressingMode::Absolute | AddressingMode::Absolute_X | AddressingMode::Absolute_Y => 2,
        AddressingMode::Accumulator => 0,
        AddressingMode::NoneAddressing => if op.instruction is Jmp {
            2
        } else if crate::laws::branch_condition(op.instruction, 0) is Some {
            1
        } else {
            0
        },
        _ => 1,
    }
}

/// Every opcode of the table with low bits 01 decodes as its bit fields say,
/// and all of them are in the table but `STA #imm` (0x89), which does not
/// exist.
pub proof fn law_group_one_encoding(c: u8)
    requires
        c % 4 == 1,
        c != 0x89,
    ensures
        opcode_spec(c) matches Some(op) && op.code == c && op.instruction
            == group_one_instruction(c) && op.mode == group_one_mode(c),
{
}

/// Every opcode of the table takes one byte for itself and then the operand
/// bytes its mode needs (a branch one offset byte, `JMP` a two-byte address).
pub proof fn law_instruction_length(c: u8)
    ensures
        opcode_spec(c) matches Some(op) ==> op.code == c && op.bytes == 1 + operand_bytes(op),
{
}

/// The shifts (low bits 10, bits 7..5 `ASL ROL LSR ROR`, then `DEC INC` at 6
/// and 7) take their mode from bits 4..2: zero page, accumulator (shifts
/// only), absolute, zero page indexed by X, absolute indexed by X.
pub proof fn law_group_two_encoding(c: u8)
    requires
        c % 4 == 2,
        c / 32 < 4 || c / 32 >= 6,
        (c / 4) % 8 == 1 || (c / 4) % 8 == 3 || (c / 4) % 8 == 5 || (c / 4) % 8 == 7 || ((c
            / 4) % 8 == 2 && c / 32 < 4),
    ensures
        opcode_spec(c) matches Some(op) && op.instruction == (if c / 32 == 0 {
            Instruction::Asl
        } else if c / 32 == 1 {
            Instruction::Rol
        } else if c / 32 == 2 {
            Instruction::Lsr
        } else if c / 32 == 3 {
            Instruction::Ror
        } else if c / 32 == 6 {
            Instruction::Dec
        } else {
            Instruction::Inc
        }) && op.mode == (if (c / 4) % 8 == 1 {
            AddressingMode::ZeroPage
        } else if (c / 4) % 8 == 2 {
            AddressingMode::Accumulator
        } else if (c / 4) % 8 == 3 {
            AddressingMode::Absolute
        } else if (c / 4) % 8 == 5 {
            AddressingMode::ZeroPage_X
        } else {
            AddressingMode::Absolute_X
        }),
{
}

/// A 16-bit word is kept little-endian: the low byte at the address, the high
/// byte at the next address (wrapping from 0xFFFF to 0); writing one touches
/// those two bytes only.
pub proof fn law_word_layout(s: CpuState, pos: u16, data: u16, other: u16)
    requires
        s.wf(),
    ensures
        s.read_u16(pos) == s.read(pos) + 256 * s.read(((pos + 1) % 0x10000) as u16),
        s.write_u16(pos, data).read(pos) == data % 256,
        s.write_u16(pos, data).read(((pos + 1) % 0x10000) as u16) == data / 256,
        other != pos && other != (pos + 1) % 0x10000 ==> s.write_u16(pos, data).read(other)
            == s.read(other),
{
}

/// The stack lives in page one: a push stores at 0x100 plus the stack pointer
/// and then lowers the pointer by one (0 wraps to 0xFF); a pop raises the
/// pointer by one (0xFF wraps to 0) and gives the byte at 0x100 plus the new
/// pointer. Neither touches any register but the stack pointer.
pub proof fn law_stack(s: CpuState, data: u8)
    requires
        s.wf(),
    ensures
        s.push(data).mem == s.mem.update(0x100 + s.sp, data),
        s.push(data).sp == (s.sp + 255) % 256,
        s.pop_state().sp == (s.sp + 1) % 256,
        s.popped() == s.mem[0x100 + (s.sp + 1) % 256],
        s.pop_state().mem == s.mem,
        s.push(data).a == s.a && s.push(data).x == s.x && s.push(data).y == s.y
            && s.push(data).status == s.status && s.push(data).pc == s.pc,
        s.pop_state().a == s.a && s.pop_state().x == s.x && s.pop_state().y == s.y
            && s.pop_state().status == s.status && s.pop_state().pc == s.pc,
{
}

/// `reset` clears A, X, Y and the status, sets the stack pointer to 0xFF,
/// takes the program counter little-endian from 0xFFFC and 0xFFFD, and leaves
/// memory alone.
pub proof fn law_reset(s: CpuState)
    requires
        s.wf(),
    ensures
        s.reset().pc == s.read(0xFFFC) + 256 * s.read(0xFFFD),
        s.reset().a == 0 && s.reset().x == 0 && s.reset().y == 0 && s.reset().status == 0,
        s.reset().sp == 0xFF,
        s.reset().mem == s.mem,
{
}

/// `load` copies the program to 0x8000 on, writes 0x8000 little-endian into
/// the reset vector, and leaves every other byte and every register alone.
pub proof fn law_load_program(s: CpuState, program: Seq<u8>, i: int)
    requires
        s.wf(),
        program.len() <= 0x8000,
        0 <= i < 0x10000,
    ensures
        s.load(program).mem.len() == 0x10000,
        s.load(program).mem[0xFFFC] == 0x00,
        s.load(program).mem[0xFFFD] == 0x80,
        i != 0xFFFC && i != 0xFFFD ==> s.load(program).mem[i] == (if 0x8000 <= i < 0x8000
            + program.len() {
            program[i - 0x8000]
        } else {
            s.mem[i]
        }),
        s.load(program).a == s.a && s.load(program).x == s.x && s.load(program).y == s.y
            && s.load(program).sp == s.sp && s.load(program).status == s.status
            && s.load(program).pc == s.pc,
{
}

/// `BRK` (0x00) stops the run with the program counter just past it and
/// everything else as it was.
pub proof fn law_brk(s: CpuState)
    requires
        s.wf(),
        s.pc < 0xFFFF,
        s.read(s.pc) == 0x00,
    ensures
        step_spec(s) == StepOutcome::Halted(CpuState { pc: (s.pc + 1) as u16, ..s }),
{
}

/// An opcode byte that is not in the table stops the run where it stands.
pub proof fn law_unknown_opcode(s: CpuState)
    requires
        s.wf(),
        opcode_spec(s.read(s.pc)) is None,
    ensures
        step_spec(s) == StepOutcome::Fault(s),
{
}

/// The absolute `JMP` (0x4C) continues at the little-endian address that
/// follows it; everything else is kept. (A target equal to the address after
/// the opcode byte is taken for an unmoved program counter, and the step
/// passes on to the byte after the instruction.)
pub proof fn law_jmp_absolute(s: CpuState)
    requires
        s.wf(),
        s.pc < 0xFFFD,
        s.read(s.pc) == 0x4C,
    ensures
        ({
            let target = s.read((s.pc + 1) as u16) + 256 * s.read((s.pc + 2) as u16);
            step_spec(s) == StepOutcome::Continue(
                CpuState {
                    pc: if target == s.pc + 1 {
                        (s.pc + 3) as u16
                    } else {
                        target as u16
                    },
                    ..s
                },
            )
        }),
{
}

} // verus!
