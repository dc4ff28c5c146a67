//! The fixed board: no bank registers, plain modulo translation.

use vstd::prelude::*;
use crate::mapper::Mapper;

verus! {

/// A board without bank switching. A logical address is reduced modulo the
/// size of the storage it addresses; a size of zero leaves it as it is.
#[derive(Clone, Copy, Debug)]
pub struct Mapper0 {
    /// Size of program storage in bytes.
    pub prg_len: usize,
    /// Size of character storage in bytes.
    pub chr_len: usize,
}

/// `addr` reduced modulo `len`, or `addr` itself where `len` is zero.
pub open spec fn fold_into(addr: usize, len: usize) -> usize {
    if len == 0 {
        addr
    } else {
        (addr % len) as usize
    }
}

fn fold(addr: usize, len: usize) -> (offset: usize)
    ensures
        offset == fold_into(addr, len),
{
    if len == 0 {
        addr
    } else {
        addr % len
    }
}

impl Mapper0 {
    pub fn new(prg_len: usize, chr_len: usize) -> (mapper: Self)
        ensures
            mapper.prg_len == prg_len,
            mapper.chr_len == chr_len,
    {
        Mapper0 { prg_len, chr_len }
    }
}

impl Mapper for Mapper0 {
    open spec fn cpu_read_offset(&self, addr: usize) -> usize {
        fold_into(addr, self.prg_len)
    }

    open spec fn after_cpu_read(&self, addr: usize) -> Self {
        *self
    }

    open spec fn cpu_write_offset(&self, addr: usize, byte: u8) -> usize {
        fold_into(addr, self.prg_len)
    }

    open spec fn after_cpu_write(&self, addr: usize, byte: u8) -> Self {
        *self
    }

    open spec fn ppu_read_offset(&self, addr: usize) -> usize {
        fold_into(addr, self.chr_len)
    }

    open spec fn after_ppu_read(&self, addr: usize) -> Self {
        *self
    }

    open spec fn ppu_write_offset(&self, addr: usize, byte: u8) -> usize {
        fold_into(addr, self.chr_len)
    }

    open spec fn after_ppu_write(&self, addr: usize, byte: u8) -> Self {
        *self
    }

    fn mapped_cpu_read(&mut self, addr: usize) -> (offset: usize) {
        fold(addr, self.prg_len)
    }

    fn mapped_cpu_write(&mut self, addr: usize, byte: u8) -> (offset: usize) {
        fold(addr, self.prg_len)
    }

    fn mapped_ppu_read(&mut self, addr: usize) -> (offset: usize) {
        fold(addr, self.chr_len)
    }

    fn mapped_ppu_write(&mut self, addr: usize, byte: u8) -> (offset: usize) {
        fold(addr, self.chr_len)
    }
}

/// A fixed board's translation is the same before and after any write, in
/// either address space.
pub proof fn lemma_fixed_translation_survives_writes(
    mapper: Mapper0,
    write_addr: usize,
    byte: u8,
    addr: usize,
)
    ensures
        mapper.after_cpu_write(write_addr, byte).cpu_read_offset(addr) == mapper.cpu_read_offset(
            addr,
        ),
        mapper.after_cpu_write(write_addr, byte).ppu_read_offset(addr) == mapper.ppu_read_offset(
            addr,
        ),
        mapper.after_ppu_write(write_addr, byte).cpu_read_offset(addr) == mapper.cpu_read_offset(
            addr,
        ),
        mapper.after_ppu_write(write_addr, byte).ppu_read_offset(addr) == mapper.ppu_read_offset(
            addr,
        ),
        mapper.after_cpu_write(write_addr, byte) == mapper,
        mapper.after_ppu_write(write_addr, byte) == mapper,
{
}

} // verus!
