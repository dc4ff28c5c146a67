//! The picture processor as the bus sees it: a register window, video
//! memory, and the sprite table that DMA fills.

use vstd::prelude::*;
use crate::cartridge::CartridgeNes;
use crate::cartridge::CartridgeState;
use crate::mapper::Mapper;

verus! {

/// Number of registers in the window; the window repeats every this many
/// addresses.
pub const PPU_REG_COUNT: usize = 8;

/// Size of the picture processor's own video memory.
pub const VRAM_LENGTH: usize = 0x800;

/// Size of the sprite table.
pub const OAM_LENGTH: usize = 256;

/// Size of the picture processor's address space; addresses repeat beyond it.
pub const PPU_SPACE: usize = 0x4000;

/// First picture-processor address that is not cartridge pattern memory.
pub const PATTERN_END: usize = 0x2000;

pub struct PpuBus {
    /// The register window, one latch per register.
    pub registers: [u8; 8],
    /// Video memory inside the console.
    pub vram: [u8; 0x800],
    /// The sprite table.
    pub oam: [u8; 256],
}

/// What the picture processor holds, mathematically: three byte sequences of
/// lengths 8, 0x800 and 256.
pub struct PpuState {
    pub registers: Seq<u8>,
    pub vram: Seq<u8>,
    pub oam: Seq<u8>,
}

/// Whether a picture-processor address falls into cartridge pattern memory.
pub open spec fn is_pattern(addr: usize) -> bool {
    addr % PPU_SPACE < PATTERN_END
}

impl PpuState {
    /// The sequences have the lengths of the arrays they stand for.
    pub open spec fn wf(self) -> bool {
        &&& self.registers.len() == PPU_REG_COUNT
        &&& self.vram.len() == VRAM_LENGTH
        &&& self.oam.len() == OAM_LENGTH
    }

    /// The state at power-on: every byte zero.
    pub open spec fn power_on() -> Self {
        PpuState {
            registers: Seq::new(PPU_REG_COUNT as nat, |i: int| 0u8),
            vram: Seq::new(VRAM_LENGTH as nat, |i: int| 0u8),
            oam: Seq::new(OAM_LENGTH as nat, |i: int| 0u8),
        }
    }

    /// The byte that a processor read of register address `addr` returns.
    pub open spec fn reg_value(self, addr: usize) -> u8 {
        self.registers[(addr % PPU_REG_COUNT) as int]
    }

    /// The state after a processor write of `byte` to register address `addr`.
    pub open spec fn after_reg_write(self, addr: usize, byte: u8) -> Self {
        PpuState { registers: self.registers.update((addr % PPU_REG_COUNT) as int, byte), ..self }
    }

    /// The byte that a picture-memory read of `addr` returns.
    pub open spec fn read_value<M: Mapper>(self, addr: usize, cartridge: CartridgeState<M>) -> u8 {
        if is_pattern(addr) {
            cartridge.ppu_read_value((addr % PPU_SPACE) as usize)
        } else {
            self.vram[(addr % VRAM_LENGTH) as int]
        }
    }

    /// The state after a picture-memory write of `byte` to `addr`.
    pub open spec fn after_write(self, addr: usize, byte: u8) -> Self {
        if is_pattern(addr) {
            self
        } else {
            PpuState { vram: self.vram.update((addr % VRAM_LENGTH) as int, byte), ..self }
        }
    }
}

/// The cartridge after a picture-memory read of `addr`.
pub open spec fn cartridge_after_ppu_read<M: Mapper>(
    cartridge: CartridgeState<M>,
    addr: usize,
) -> CartridgeState<M> {
    if is_pattern(addr) {
        cartridge.after_ppu_read((addr % PPU_SPACE) as usize)
    } else {
        cartridge
    }
}

/// The cartridge after a picture-memory write of `byte` to `addr`.
pub open spec fn cartridge_after_ppu_write<M: Mapper>(
    cartridge: CartridgeState<M>,
    addr: usize,
    byte: u8,
) -> CartridgeState<M> {
    if is_pattern(addr) {
        cartridge.after_ppu_write((addr % PPU_SPACE) as usize, byte)
    } else {
        cartridge
    }
}

impl View for PpuBus {
    type V = PpuState;

    open spec fn view(&self) -> PpuState {
        PpuState { registers: self.registers@, vram: self.vram@, oam: self.oam@ }
    }
}

impl PpuBus {
    pub fn new() -> (ppu: Self)
        ensures
            ppu@ == PpuState::power_on(),
    {
        let ppu = PpuBus { registers: [0; 8], vram: [0; 0x800], oam: [0; 256] };
        assert(ppu@.registers =~= PpuState::power_on().registers);
        assert(ppu@.vram =~= PpuState::power_on().vram);
        assert(ppu@.oam =~= PpuState::power_on().oam);
        ppu
    }

    /// Reads a register through the window, which repeats every 8 addresses.
    /// The cartridge is lent for the call and left as it was.
    pub fn cpu_read_reg<M: Mapper>(&mut self, addr: usize, cartridge: &mut CartridgeNes<M>) -> (byte:
        u8)
        ensures
            byte == old(self)@.reg_value(addr),
            final(self)@ == old(self)@,
            final(cartridge)@ == old(cartridge)@,
    {
        self.registers[addr % PPU_REG_COUNT]
    }

    /// Writes a register through the window, which repeats every 8
    /// addresses. The cartridge is lent for the call and left as it was.
    pub fn cpu_write_reg<M: Mapper>(
        &mut self,
        addr: usize,
        byte: u8,
        cartridge: &mut CartridgeNes<M>,
    )
        ensures
            final(self)@ == old(self)@.after_reg_write(addr, byte),
            final(cartridge)@ == old(cartridge)@,
    {
        self.registers[addr % PPU_REG_COUNT] = byte;
    }

    /// Reads picture memory: pattern memory comes from the cartridge, the
    /// rest from video memory, which repeats every 0x800 addresses.
    pub fn ppu_read<M: Mapper>(&mut self, addr: usize, cartridge: &mut CartridgeNes<M>) -> (byte: u8)
        ensures
            byte == old(self)@.read_value(addr, old(cartridge)@),
            final(self)@ == old(self)@,
            final(cartridge)@ == cartridge_after_ppu_read(old(cartridge)@, addr),
    {
        let folded: usize = addr % PPU_SPACE;
        if folded < PATTERN_END {
            cartridge.ppu_read(folded)
        } else {
            self.vram[addr % VRAM_LENGTH]
        }
    }

    /// Writes picture memory: pattern memory goes to the cartridge, the rest
    /// to video memory, which repeats every 0x800 addresses.
    pub fn ppu_write<M: Mapper>(&mut self, addr: usize, byte: u8, cartridge: &mut CartridgeNes<M>)
        ensures
            final(self)@ == old(self)@.after_write(addr, byte),
            final(cartridge)@ == cartridge_after_ppu_write(old(cartridge)@, addr, byte),
    {
        let folded: usize = addr % PPU_SPACE;
        if folded < PATTERN_END {
            cartridge.ppu_write(folded, byte);
        } else {
            self.vram[addr % VRAM_LENGTH] = byte;
        }
    }
}

} // verus!
