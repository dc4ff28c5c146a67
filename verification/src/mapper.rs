//! The address-translation capability that every cartridge board provides.

use vstd::prelude::*;

pub mod mapper0;
pub mod mapper2;

pub use self::mapper0::Mapper0;
pub use self::mapper2::Mapper2;

verus! {

/// Translates logical addresses into offsets into cartridge storage.
///
/// Each of the four directions has a pair of specification functions: the
/// offset that the translation yields in a given mapper state, and the mapper
/// state that the access leaves behind. A board that switches banks changes
/// its state in the write directions; a fixed board never changes.
pub trait Mapper: Sized {
    /// Offset into program storage for a processor read of `addr`.
    spec fn cpu_read_offset(&self, addr: usize) -> usize;

    /// Mapper state after a processor read of `addr`.
    spec fn after_cpu_read(&self, addr: usize) -> Self;

    /// Offset into program storage for a processor write of `byte` to `addr`.
    spec fn cpu_write_offset(&self, addr: usize, byte: u8) -> usize;

    /// Mapper state after a processor write of `byte` to `addr`.
    spec fn after_cpu_write(&self, addr: usize, byte: u8) -> Self;

    /// Offset into character storage for a picture-processor read of `addr`.
    spec fn ppu_read_offset(&self, addr: usize) -> usize;

    /// Mapper state after a picture-processor read of `addr`.
    spec fn after_ppu_read(&self, addr: usize) -> Self;

    /// Offset into character storage for a picture-processor write of `byte`
    /// to `addr`.
    spec fn ppu_write_offset(&self, addr: usize, byte: u8) -> usize;

    /// Mapper state after a picture-processor write of `byte` to `addr`.
    spec fn after_ppu_write(&self, addr: usize, byte: u8) -> Self;

    fn mapped_cpu_read(&mut self, addr: usize) -> (offset: usize)
        ensures
            offset == old(self).cpu_read_offset(addr),
            *final(self) == old(self).after_cpu_read(addr),
    ;

    fn mapped_cpu_write(&mut self, addr: usize, byte: u8) -> (offset: usize)
        ensures
            offset == old(self).cpu_write_offset(addr, byte),
            *final(self) == old(self).after_cpu_write(addr, byte),
    ;

    fn mapped_ppu_read(&mut self, addr: usize) -> (offset: usize)
        ensures
            offset == old(self).ppu_read_offset(addr),
            *final(self) == old(self).after_ppu_read(addr),
    ;

    fn mapped_ppu_write(&mut self, addr: usize, byte: u8) -> (offset: usize)
        ensures
            offset == old(self).ppu_write_offset(addr, byte),
            *final(self) == old(self).after_ppu_write(addr, byte),
    ;
}

} // verus!
