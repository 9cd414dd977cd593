//! The beginning of the NES memory bus: 2 KiB of work RAM mirrored over
//! 0x0000..=0x1FFF, and the eight PPU registers, which are not mapped yet.
use vstd::prelude::*;

verus! {

/// First address of the work RAM region.
pub const VRAM_START: u16 = 0x0000;

/// Last address of the work RAM region (with its mirrors).
pub const VRAM_END: u16 = 0x1FFF;

/// First address of the PPU register region.
pub const PPU_REGISTERS_START: u16 = 0x2000;

/// Last address of the PPU register region (with its mirrors).
pub const PPU_REGISTERS_END: u16 = 0x3FFF;

/// Reading and writing bytes by 16-bit address.
pub trait Mem {
    fn mem_read(&self, addr: u16) -> u8;

    fn mem_write(&mut self, addr: u16, data: u8);
}

/// The bus: work RAM and the PPU registers.
pub struct Bus {
    cpu_vram: [u8; 2048],
    ppu_registers: [u8; 8],
}

/// The bus as a value.
pub struct BusState {
    pub vram: Seq<u8>,
    pub ppu_registers: Seq<u8>,
}

impl View for Bus {
    type V = BusState;

    closed spec fn view(&self) -> BusState {
        BusState { vram: self.cpu_vram@, ppu_registers: self.ppu_registers@ }
    }
}

/// The work RAM byte that an address of the RAM region designates: the low
/// eleven bits select it, so each byte appears four times.
pub open spec fn vram_index(addr: u16) -> int {
    addr as int % 0x800
}

/// What a read of `addr` gives: the mirrored RAM byte in the RAM region, and
/// elsewhere the low byte of the address itself.
pub open spec fn bus_read(b: BusState, addr: u16) -> u8 {
    if addr <= VRAM_END {
        b.vram[vram_index(addr)]
    } else {
        (addr as int % 256) as u8
    }
}

/// The bus after a write of `data` to `addr`: the mirrored RAM byte in the RAM
/// region; other regions are not mapped and keep their contents.
pub open spec fn bus_write(b: BusState, addr: u16, data: u8) -> BusState {
    if addr <= VRAM_END {
        BusState { vram: b.vram.update(vram_index(addr), data), ..b }
    } else {
        b
    }
}

impl BusState {
    /// The RAM has 2048 bytes and there are eight PPU registers.
    pub open spec fn wf(self) -> bool {
        self.vram.len() == 0x800 && self.ppu_registers.len() == 8
    }
}

impl Bus {
    /// A bus with all RAM and every PPU register zero.
    pub fn new() -> (b: Self)
        ensures
            b@.vram == Seq::new(0x800, |i: int| 0u8),
            b@.ppu_registers == Seq::new(8, |i: int| 0u8),
            b@.wf(),
    {
        let b = Bus { cpu_vram: [0; 2048], ppu_registers: [0; 8] };
        assert(b.cpu_vram@ =~= Seq::new(0x800, |i: int| 0u8));
        assert(b.ppu_registers@ =~= Seq::new(8, |i: int| 0u8));
        b
    }
}

impl Mem for Bus {
    fn mem_read(&self, addr: u16) -> (r: u8)
        ensures
            r == bus_read(self@, addr),
    {
        if addr <= VRAM_END {
            let mirrored_addr = addr & 0b0000_0111_1111_1111;
            assert(addr & 0b0000_0111_1111_1111u16 == addr % 0x800) by (bit_vector);
            self.cpu_vram[mirrored_addr as usize]
        } else {
            assert(addr as u8 == addr % 256) by (bit_vector);
            addr as u8
        }
    }

    fn mem_write(&mut self, addr: u16, data: u8)
        ensures
            final(self)@ == bus_write(old(self)@, addr, data),
    {
        if addr <= VRAM_END {
            let mirrored_addr = addr & 0b0000_0111_1111_1111;
            assert(addr & 0b0000_0111_1111_1111u16 == addr % 0x800) by (bit_vector);
            self.cpu_vram[mirrored_addr as usize] = data;
        }
    }
}

} // verus!
