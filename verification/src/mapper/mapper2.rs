//! A bank-switching board: one bank register, written through the
//! processor's address space.

use vstd::prelude::*;
use crate::mapper::Mapper;

verus! {

/// Size of one bank of program storage.
pub const BANK_LENGTH: usize = 0x4000;

/// First address whose writes select a bank.
pub const BANK_SELECT_START: usize = 0x8000;

/// First address of the window that always shows the last bank.
pub const FIXED_WINDOW_START: usize = 0xC000;

/// A board whose program storage is cut into banks of 0x4000 bytes.
/// Addresses below 0xC000 show the selected bank, addresses from 0xC000 up
/// show the last bank. A write to any address from 0x8000 up selects the
/// bank that the written byte names. Character storage is not banked.
#[derive(Clone, Copy, Debug)]
pub struct Mapper2 {
    /// The bank selected now.
    pub bank: u8,
    /// The bank that the fixed window shows.
    pub last_bank: u8,
}

/// The offset at which `addr` falls in bank number `bank`.
pub open spec fn bank_offset(bank: u8, addr: usize) -> usize {
    (bank * BANK_LENGTH + addr % BANK_LENGTH) as usize
}

fn offset_in_bank(bank: u8, addr: usize) -> (offset: usize)
    ensures
        offset == bank_offset(bank, addr),
{
    bank as usize * BANK_LENGTH + addr % BANK_LENGTH
}

impl Mapper2 {
    /// A board with `banks` banks and bank 0 selected; with no banks at
    /// all, the fixed window shows bank 0 too.
    pub fn new(banks: u8) -> (mapper: Self)
        ensures
            mapper.bank == 0,
            mapper.last_bank == if banks == 0 {
                0
            } else {
                banks - 1
            },
    {
        Mapper2 {
            bank: 0,
            last_bank: if banks == 0 {
                0
            } else {
                banks - 1
            },
        }
    }

    /// The offset that `addr` translates to while bank `bank` is selected.
    pub open spec fn translate(&self, bank: u8, addr: usize) -> usize {
        if addr >= FIXED_WINDOW_START {
            bank_offset(self.last_bank, addr)
        } else {
            bank_offset(bank, addr)
        }
    }

    fn translated(&self, addr: usize) -> (offset: usize)
        ensures
            offset == self.translate(self.bank, addr),
    {
        if addr >= FIXED_WINDOW_START {
            offset_in_bank(self.last_bank, addr)
        } else {
            offset_in_bank(self.bank, addr)
        }
    }
}

impl Mapper for Mapper2 {
    open spec fn cpu_read_offset(&self, addr: usize) -> usize {
        self.translate(self.bank, addr)
    }

    open spec fn after_cpu_read(&self, addr: usize) -> Self {
        *self
    }

    open spec fn cpu_write_offset(&self, addr: usize, byte: u8) -> usize {
        self.translate(self.bank, addr)
    }

    open spec fn after_cpu_write(&self, addr: usize, byte: u8) -> Self {
        if addr >= BANK_SELECT_START {
            Mapper2 { bank: byte, ..*self }
        } else {
            *self
        }
    }

    open spec fn ppu_read_offset(&self, addr: usize) -> usize {
        addr
    }

    open spec fn after_ppu_read(&self, addr: usize) -> Self {
        *self
    }

    open spec fn ppu_write_offset(&self, addr: usize, byte: u8) -> usize {
        addr
    }

    open spec fn after_ppu_write(&self, addr: usize, byte: u8) -> Self {
        *self
    }

    fn mapped_cpu_read(&mut self, addr: usize) -> (offset: usize) {
        self.translated(addr)
    }

    fn mapped_cpu_write(&mut self, addr: usize, byte: u8) -> (offset: usize) {
        let offset = self.translated(addr);
        if addr >= BANK_SELECT_START {
            self.bank = byte;
        }
        offset
    }

    fn mapped_ppu_read(&mut self, addr: usize) -> (offset: usize) {
        addr
    }

    fn mapped_ppu_write(&mut self, addr: usize, byte: u8) -> (offset: usize) {
        addr
    }
}

/// A write of a new bank number to a bank-select address moves the
/// translation of every address below the fixed window into that bank, so
/// the offset differs from the one before the write; the fixed window's
/// translation stays as it was.
pub proof fn lemma_bank_select_moves_translation(
    mapper: Mapper2,
    select_addr: usize,
    byte: u8,
    addr: usize,
)
    requires
        select_addr >= BANK_SELECT_START,
    ensures
        addr < FIXED_WINDOW_START ==> mapper.after_cpu_write(select_addr, byte).cpu_read_offset(
            addr,
        ) == bank_offset(byte, addr),
        addr < FIXED_WINDOW_START && byte != mapper.bank ==> mapper.after_cpu_write(
            select_addr,
            byte,
        ).cpu_read_offset(addr) != mapper.cpu_read_offset(addr),
        addr >= FIXED_WINDOW_START ==> mapper.after_cpu_write(select_addr, byte).cpu_read_offset(
            addr,
        ) == mapper.cpu_read_offset(addr),
{
}

} // verus!
