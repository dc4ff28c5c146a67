//! The cartridge: program and character storage behind a mapper.

use vstd::prelude::*;
use crate::mapper::Mapper;

verus! {

/// A cartridge holds its storage and the board logic that addresses it.
pub struct CartridgeNes<M: Mapper> {
    /// Program storage, reached from the processor's address space.
    pub prg: Vec<u8>,
    /// Character storage, reached from the picture processor's address space.
    pub chr: Vec<u8>,
    /// The board's address translation.
    pub mapper: M,
}

/// What a cartridge is, mathematically: two byte sequences and a mapper state.
pub struct CartridgeState<M> {
    pub prg: Seq<u8>,
    pub chr: Seq<u8>,
    pub mapper: M,
}

/// The byte of `storage` at `offset`, or 0 where the offset lies beyond it.
pub open spec fn byte_at(storage: Seq<u8>, offset: usize) -> u8 {
    if offset < storage.len() {
        storage[offset as int]
    } else {
        0
    }
}

/// `storage` with `byte` at `offset`, or unchanged where the offset lies
/// beyond it.
pub open spec fn with_byte_at(storage: Seq<u8>, offset: usize, byte: u8) -> Seq<u8> {
    if offset < storage.len() {
        storage.update(offset as int, byte)
    } else {
        storage
    }
}

impl<M: Mapper> CartridgeState<M> {
    /// The byte that a processor read of `addr` returns.
    pub open spec fn cpu_read_value(self, addr: usize) -> u8 {
        byte_at(self.prg, self.mapper.cpu_read_offset(addr))
    }

    /// The cartridge after a processor read of `addr`.
    pub open spec fn after_cpu_read(self, addr: usize) -> Self {
        CartridgeState { mapper: self.mapper.after_cpu_read(addr), ..self }
    }

    /// The cartridge after a processor write of `byte` to `addr`.
    pub open spec fn after_cpu_write(self, addr: usize, byte: u8) -> Self {
        CartridgeState {
            prg: with_byte_at(self.prg, self.mapper.cpu_write_offset(addr, byte), byte),
            mapper: self.mapper.after_cpu_write(addr, byte),
            ..self
        }
    }

    /// The byte that a picture-processor read of `addr` returns.
    pub open spec fn ppu_read_value(self, addr: usize) -> u8 {
        byte_at(self.chr, self.mapper.ppu_read_offset(addr))
    }

    /// The cartridge after a picture-processor read of `addr`.
    pub open spec fn after_ppu_read(self, addr: usize) -> Self {
        CartridgeState { mapper: self.mapper.after_ppu_read(addr), ..self }
    }

    /// The cartridge after a picture-processor write of `byte` to `addr`.
    pub open spec fn after_ppu_write(self, addr: usize, byte: u8) -> Self {
        CartridgeState {
            chr: with_byte_at(self.chr, self.mapper.ppu_write_offset(addr, byte), byte),
            mapper: self.mapper.after_ppu_write(addr, byte),
            ..self
        }
    }
}

impl<M: Mapper> View for CartridgeNes<M> {
    type V = CartridgeState<M>;

    open spec fn view(&self) -> CartridgeState<M> {
        CartridgeState { prg: self.prg@, chr: self.chr@, mapper: self.mapper }
    }
}

impl<M: Mapper> CartridgeNes<M> {
    pub fn new(prg: Vec<u8>, chr: Vec<u8>, mapper: M) -> (cartridge: Self)
        ensures
            cartridge@ == (CartridgeState { prg: prg@, chr: chr@, mapper }),
    {
        CartridgeNes { prg, chr, mapper }
    }

    /// Reads the byte that the mapper's translation of `addr` points at; an
    /// offset beyond program storage reads as 0.
    pub fn cpu_read(&mut self, addr: usize) -> (byte: u8)
        ensures
            byte == old(self)@.cpu_read_value(addr),
            final(self)@ == old(self)@.after_cpu_read(addr),
    {
        let offset = self.mapper.mapped_cpu_read(addr);
        if offset < self.prg.len() {
            self.prg[offset]
        } else {
            0
        }
    }

    /// Lets the mapper see the write, then stores `byte` where its
    /// translation points; an offset beyond program storage stores nothing.
    pub fn cpu_write(&mut self, addr: usize, byte: u8)
        ensures
            final(self)@ == old(self)@.after_cpu_write(addr, byte),
    {
        let offset = self.mapper.mapped_cpu_write(addr, byte);
        if offset < self.prg.len() {
            self.prg.set(offset, byte);
        }
    }

    /// Reads the byte of character storage that the mapper's translation of
    /// `addr` points at; an offset beyond it reads as 0.
    pub fn ppu_read(&mut self, addr: usize) -> (byte: u8)
        ensures
            byte == old(self)@.ppu_read_value(addr),
            final(self)@ == old(self)@.after_ppu_read(addr),
    {
        let offset = self.mapper.mapped_ppu_read(addr);
        if offset < self.chr.len() {
            self.chr[offset]
        } else {
            0
        }
    }

    /// Lets the mapper see the write, then stores `byte` where its
    /// translation points; an offset beyond character storage stores nothing.
    pub fn ppu_write(&mut self, addr: usize, byte: u8)
        ensures
            final(self)@ == old(self)@.after_ppu_write(addr, byte),
    {
        let offset = self.mapper.mapped_ppu_write(addr, byte);
        if offset < self.chr.len() {
            self.chr.set(offset, byte);
        }
    }
}

} // verus!
