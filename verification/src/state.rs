//! The mathematical model of the processor: registers, the status byte and a
//! 64 KiB memory seen as a sequence of bytes.
use vstd::prelude::*;

verus! {

/// Bit 0 of the status register: carry.
pub const CARRY: u8 = 0b0000_0001;

/// Bit 1 of the status register: zero.
pub const ZERO: u8 = 0b0000_0010;

/// Bit 6 of the status register: overflow.
pub const OVERFLOW: u8 = 0b0100_0000;

/// Bit 7 of the status register: negative.
pub const NEGATIVE: u8 = 0b1000_0000;

/// Number of addressable bytes.
pub const MEMORY_SIZE: usize = 0x10000;

/// Address of the little-endian reset vector.
pub const RESET_VECTOR: u16 = 0xFFFC;

/// Address at which `load` places a program.
pub const PROGRAM_START: u16 = 0x8000;

/// The processor as a value: the six registers and the whole memory.
pub struct CpuState {
    pub a: u8,
    pub x: u8,
    pub y: u8,
    pub sp: u8,
    pub status: u8,
    pub pc: u16,
    pub mem: Seq<u8>,
}

/// `status` with the bits of `mask` set when `on` holds and cleared otherwise.
pub open spec fn with_flag(status: u8, mask: u8, on: bool) -> u8 {
    if on {
        status | mask
    } else {
        status & !mask
    }
}

/// Whether any bit of `mask` is set in `status`.
pub open spec fn flag(status: u8, mask: u8) -> bool {
    status & mask != 0
}

/// Whether a byte is negative when read as a two's complement number.
pub open spec fn is_negative(v: u8) -> bool {
    v >= 0x80
}

/// `status` after the zero and negative flags are set from `result`.
pub open spec fn with_zn(status: u8, result: u8) -> u8 {
    with_flag(with_flag(status, ZERO, result == 0), NEGATIVE, is_negative(result))
}

/// The carry flag as the number 0 or 1.
pub open spec fn carry_value(status: u8) -> int {
    if flag(status, CARRY) {
        1
    } else {
        0
    }
}

/// The 16-bit value made of a low and a high byte.
pub open spec fn word(lo: u8, hi: u8) -> u16 {
    (hi as int * 256 + lo as int) as u16
}

/// The address that follows `addr`, wrapping from 0xFFFF to 0x0000.
pub open spec fn next_addr(addr: u16) -> u16 {
    ((addr as int + 1) % 0x10000) as u16
}

/// A byte read as a two's complement number.
pub open spec fn signed(v: u8) -> int {
    if v < 0x80 {
        v as int
    } else {
        v as int - 256
    }
}

/// The memory of a freshly built processor: every byte zero.
pub open spec fn zeroed_memory() -> Seq<u8> {
    Seq::new(MEMORY_SIZE as nat, |i: int| 0u8)
}

impl CpuState {
    /// The memory covers the whole 16-bit address space.
    pub open spec fn wf(self) -> bool {
        self.mem.len() == MEMORY_SIZE
    }

    /// The byte at `addr`.
    pub open spec fn read(self, addr: u16) -> u8 {
        self.mem[addr as int]
    }

    /// The state with `value` stored at `addr`.
    pub open spec fn write(self, addr: u16, value: u8) -> CpuState {
        CpuState { mem: self.mem.update(addr as int, value), ..self }
    }

    /// The little-endian word at `pos` and the byte after it (wrapping).
    pub open spec fn read_u16(self, pos: u16) -> u16 {
        word(self.read(pos), self.read(next_addr(pos)))
    }

    /// The state with `data` stored little-endian at `pos` and the byte after it.
    pub open spec fn write_u16(self, pos: u16, data: u16) -> CpuState {
        self.write(pos, (data % 256) as u8).write(next_addr(pos), (data / 256) as u8)
    }

    /// The address in page one that the stack pointer designates.
    pub open spec fn stack_addr(self) -> u16 {
        (0x0100 + self.sp as int) as u16
    }

    /// The state after pushing `data`: stored at the stack address, then the
    /// stack pointer moves down (wrapping).
    pub open spec fn push(self, data: u8) -> CpuState {
        CpuState { sp: ((self.sp as int - 1 + 256) % 256) as u8, ..self.write(self.stack_addr(), data) }
    }

    /// The state after popping: the stack pointer moves up (wrapping).
    pub open spec fn pop_state(self) -> CpuState {
        CpuState { sp: ((self.sp as int + 1) % 256) as u8, ..self }
    }

    /// The byte that a pop gives back: the one at the raised stack address.
    pub open spec fn popped(self) -> u8 {
        self.pop_state().read(self.pop_state().stack_addr())
    }

    /// The state after `reset`: registers cleared, stack pointer at 0xFF and the
    /// program counter taken from the reset vector.
    pub open spec fn reset(self) -> CpuState {
        CpuState {
            a: 0,
            x: 0,
            y: 0,
            sp: 0xFF,
            status: 0,
            pc: self.read_u16(RESET_VECTOR),
            mem: self.mem,
        }
    }

    /// The state after `load`: the program copied to 0x8000 and the reset
    /// vector pointed at it.
    pub open spec fn load(self, program: Seq<u8>) -> CpuState {
        CpuState { mem: placed(self.mem, program), ..self }.write_u16(RESET_VECTOR, PROGRAM_START)
    }
}

/// `mem` with `program` copied from 0x8000 on.
pub open spec fn placed(mem: Seq<u8>, program: Seq<u8>) -> Seq<u8> {
    Seq::new(
        mem.len(),
        |i: int|
            if PROGRAM_START <= i < PROGRAM_START + program.len() {
                program[i - PROGRAM_START]
            } else {
                mem[i]
            },
    )
}

/// The state of a freshly built processor.
pub open spec fn initial_state() -> CpuState {
    CpuState { a: 0, x: 0, y: 0, sp: 0xFF, status: 0, pc: 0, mem: zeroed_memory() }
}

} // verus!
