//! The system bus: address decoding over the processor's 16-bit space, the
//! joypad shift registers and the sprite-DMA controller.

use vstd::prelude::*;
use crate::cartridge::CartridgeNes;
use crate::cartridge::CartridgeState;
use crate::mapper::Mapper;
use crate::ppu::PpuBus;
use crate::ppu::PpuState;
use crate::ppu::cartridge_after_ppu_read;
use crate::ppu::cartridge_after_ppu_write;

verus! {

/// Last address of the processor's address space.
pub const ADDRESS_MAX: usize = 0xFFFF;

/// Last address of the work-RAM range.
pub const CPU_RAM_END: usize = 0x1FFF;

/// Last address of the picture processor's register window.
pub const PPU_REG_END: usize = 0x3FFF;

/// First address of the I/O scratch window.
pub const IO_REG_START: usize = 0x4000;

/// Last address of the I/O scratch window.
pub const IO_REG_END: usize = 0x401F;

/// The DMA trigger register.
pub const DMA_REG_ADDR: usize = 0x4014;

/// The first joypad's register.
pub const JOYPAD1_REG: usize = 0x4016;

/// The second joypad's register.
pub const JOYPAD2_REG: usize = 0x4017;

/// Size of work RAM; the work-RAM range repeats every this many addresses.
pub const CPU_RAM_LENGTH: usize = 0x800;

/// Size of the I/O scratch window.
pub const IO_REG_LENGTH: usize = 0x20;

/// The device that an address of the processor's space belongs to.
#[derive(Clone, Copy, Debug, PartialEq, Eq, Structural)]
pub enum Region {
    WorkRam,
    PpuRegisters,
    DmaTrigger,
    Joypad,
    IoScratch,
    Cartridge,
}

/// The device that `addr` belongs to. The ranges are tried in this order,
/// so the DMA trigger and the joypad registers are cut out of the I/O scratch
/// window that surrounds them.
pub open spec fn region_of(addr: usize) -> Region {
    if addr <= CPU_RAM_END {
        Region::WorkRam
    } else if addr <= PPU_REG_END {
        Region::PpuRegisters
    } else if addr == DMA_REG_ADDR {
        Region::DmaTrigger
    } else if addr == JOYPAD1_REG || addr == JOYPAD2_REG {
        Region::Joypad
    } else if addr <= IO_REG_END {
        Region::IoScratch
    } else {
        Region::Cartridge
    }
}

/// Decodes an address into the one device that handles it.
pub fn decode(addr: usize) -> (region: Region)
    requires
        addr <= ADDRESS_MAX,
    ensures
        region == region_of(addr),
{
    if addr <= CPU_RAM_END {
        Region::WorkRam
    } else if addr <= PPU_REG_END {
        Region::PpuRegisters
    } else if addr == DMA_REG_ADDR {
        Region::DmaTrigger
    } else if addr == JOYPAD1_REG || addr == JOYPAD2_REG {
        Region::Joypad
    } else if addr <= IO_REG_END {
        Region::IoScratch
    } else {
        Region::Cartridge
    }
}

/// Every address up to 0xFFFF belongs to exactly one device, and the devices'
/// ranges are the documented ones.
pub proof fn lemma_regions_partition(addr: usize)
    requires
        addr <= ADDRESS_MAX,
    ensures
        region_of(addr) == Region::WorkRam <==> addr <= 0x1FFF,
        region_of(addr) == Region::PpuRegisters <==> 0x2000 <= addr <= 0x3FFF,
        region_of(addr) == Region::DmaTrigger <==> addr == 0x4014,
        region_of(addr) == Region::Joypad <==> (addr == 0x4016 || addr == 0x4017),
        region_of(addr) == Region::IoScratch <==> (0x4000 <= addr <= 0x401F && addr != 0x4014
            && addr != 0x4016 && addr != 0x4017),
        region_of(addr) == Region::Cartridge <==> 0x4020 <= addr <= 0xFFFF,
{
}

/// The sprite-DMA controller's registers.
pub struct DmaState {
    /// High byte of the addresses that the transfer reads.
    pub source_page: u8,
    /// Low byte of the next address to read, and the next sprite-table slot.
    pub cursor: u8,
    /// The byte read last and not yet written.
    pub latched_byte: u8,
    /// Whether a transfer is armed or running.
    pub transferring: bool,
    /// Whether the transfer still waits for an odd tick to start on.
    pub alignment_pending: bool,
}

/// What the bus holds, mathematically.
pub struct BusState<M> {
    /// Work RAM, 0x800 bytes.
    pub ram: Seq<u8>,
    /// The I/O scratch window, 0x20 bytes.
    pub io: Seq<u8>,
    /// The two joypad shift registers.
    pub joypad_registers: Seq<u8>,
    /// The two joypad button snapshots.
    pub joypad_state: Seq<u8>,
    pub dma: DmaState,
    pub ppu: PpuState,
    pub cartridge: CartridgeState<M>,
}

/// The bit that a joypad read shifts out: 1 where the top bit is set.
pub open spec fn top_bit(register: u8) -> u8 {
    if register >= 0x80 {
        1
    } else {
        0
    }
}

/// A shift register after one read: every bit moved up by one, the top bit
/// gone, a zero at the bottom.
pub open spec fn shifted_left(register: u8) -> u8 {
    ((register * 2) % 256) as u8
}

/// Which of the two joypads an address in the joypad range selects.
pub open spec fn joypad_index(addr: usize) -> int {
    (addr % 2) as int
}

/// The address that DMA reads for a page and a cursor.
pub open spec fn dma_source(page: u8, cursor: u8) -> usize {
    (page * 256 + cursor) as usize
}

impl<M: Mapper> BusState<M> {
    /// The sequences have the lengths of the arrays they stand for.
    pub open spec fn wf(self) -> bool {
        &&& self.ram.len() == CPU_RAM_LENGTH
        &&& self.io.len() == IO_REG_LENGTH
        &&& self.joypad_registers.len() == 2
        &&& self.joypad_state.len() == 2
        &&& self.ppu.wf()
    }

    /// The state at power-on around a given cartridge: all memory zero, the
    /// DMA controller idle.
    pub open spec fn power_on(cartridge: CartridgeState<M>) -> Self {
        BusState {
            ram: Seq::new(CPU_RAM_LENGTH as nat, |i: int| 0u8),
            io: Seq::new(IO_REG_LENGTH as nat, |i: int| 0u8),
            joypad_registers: Seq::new(2, |i: int| 0u8),
            joypad_state: Seq::new(2, |i: int| 0u8),
            dma: DmaState {
                source_page: 0,
                cursor: 0,
                latched_byte: 0,
                transferring: false,
                alignment_pending: true,
            },
            ppu: PpuState::power_on(),
            cartridge,
        }
    }

    /// The byte that a processor read of `addr` returns.
    pub open spec fn read_value(self, addr: usize) -> u8 {
        match region_of(addr) {
            Region::WorkRam => self.ram[(addr % CPU_RAM_LENGTH) as int],
            Region::PpuRegisters => self.ppu.reg_value(addr),
            Region::DmaTrigger => 0,
            Region::Joypad => top_bit(self.joypad_registers[joypad_index(addr)]),
            Region::IoScratch => self.io[addr - IO_REG_START],
            Region::Cartridge => self.cartridge.cpu_read_value(addr),
        }
    }

    /// The state after a processor read of `addr`: a joypad read shifts that
    /// joypad's register, a cartridge read lets the mapper see it, any other
    /// read changes nothing.
    pub open spec fn after_read(self, addr: usize) -> Self {
        match region_of(addr) {
            Region::Joypad => BusState {
                joypad_registers: self.joypad_registers.update(
                    joypad_index(addr),
                    shifted_left(self.joypad_registers[joypad_index(addr)]),
                ),
                ..self
            },
            Region::Cartridge => BusState {
                cartridge: self.cartridge.after_cpu_read(addr),
                ..self
            },
            _ => self,
        }
    }

    /// The state after a processor write of `byte` to `addr`. Exactly one
    /// device changes: the work-RAM cell, the picture processor's register,
    /// the DMA controller (page latched, cursor reset, transfer armed), the
    /// joypad's shift register (snapshot latched), the scratch cell, or the
    /// cartridge.
    pub open spec fn after_write(self, addr: usize, byte: u8) -> Self {
        match region_of(addr) {
            Region::WorkRam => BusState {
                ram: self.ram.update((addr % CPU_RAM_LENGTH) as int, byte),
                ..self
            },
            Region::PpuRegisters => BusState {
                ppu: self.ppu.after_reg_write(addr, byte),
                ..self
            },
            Region::DmaTrigger => BusState {
                dma: DmaState { source_page: byte, cursor: 0, transferring: true, ..self.dma },
                ..self
            },
            Region::Joypad => BusState {
                joypad_registers: self.joypad_registers.update(
                    joypad_index(addr),
                    self.joypad_state[joypad_index(addr)],
                ),
                ..self
            },
            Region::IoScratch => BusState {
                io: self.io.update(addr - IO_REG_START, byte),
                ..self
            },
            Region::Cartridge => BusState {
                cartridge: self.cartridge.after_cpu_write(addr, byte),
                ..self
            },
        }
    }

    /// The state after one clock tick of the DMA controller, on a tick of
    /// odd or even parity.
    ///
    /// Idle, nothing happens. Armed, an even tick is spent waiting and an odd
    /// tick starts the transfer. Transferring, an even tick reads the byte at
    /// the cursor of the source page through the bus and latches it; an odd
    /// tick stores the latched byte into the sprite table at the cursor and
    /// advances the cursor, and the transfer ends when the cursor wraps to 0.
    pub open spec fn after_dma_tick(self, odd: bool) -> Self {
        if !self.dma.transferring {
            self
        } else if self.dma.alignment_pending {
            if odd {
                BusState { dma: DmaState { alignment_pending: false, ..self.dma }, ..self }
            } else {
                self
            }
        } else if !odd {
            let source = dma_source(self.dma.source_page, self.dma.cursor);
            BusState {
                dma: DmaState { latched_byte: self.read_value(source), ..self.dma },
                ..self.after_read(source)
            }
        } else {
            let last = self.dma.cursor == 255;
            BusState {
                ppu: PpuState {
                    oam: self.ppu.oam.update(self.dma.cursor as int, self.dma.latched_byte),
                    ..self.ppu
                },
                dma: DmaState {
                    cursor: if last {
                        0
                    } else {
                        (self.dma.cursor + 1) as u8
                    },
                    transferring: !last,
                    alignment_pending: last,
                    ..self.dma
                },
                ..self
            }
        }
    }

    /// The state after a picture-memory read of `addr`.
    pub open spec fn after_ppu_read(self, addr: usize) -> Self {
        BusState { cartridge: cartridge_after_ppu_read(self.cartridge, addr), ..self }
    }

    /// The state after a picture-memory write of `byte` to `addr`.
    pub open spec fn after_ppu_write(self, addr: usize, byte: u8) -> Self {
        BusState {
            ppu: self.ppu.after_write(addr, byte),
            cartridge: cartridge_after_ppu_write(self.cartridge, addr, byte),
            ..self
        }
    }

    /// The state after the host reports the first joypad's buttons.
    pub open spec fn after_joypad_update(self, buttons: u8) -> Self {
        BusState { joypad_state: self.joypad_state.update(0, buttons), ..self }
    }

    /// The state after `data` is copied to the start of work RAM.
    pub open spec fn after_load(self, data: Seq<u8>) -> Self {
        BusState {
            ram: data + self.ram.subrange(data.len() as int, CPU_RAM_LENGTH as int),
            ..self
        }
    }
}

/// Work RAM is mirrored: a byte written at a work-RAM address is read back
/// at that address and at every address a multiple of 0x800 above it in the
/// work-RAM range, reading there changes nothing, and the addresses are
/// interchangeable for reads and for writes in every state.
pub proof fn lemma_ram_mirroring<M: Mapper>(s: BusState<M>, addr: usize, byte: u8, k: nat)
    requires
        s.wf(),
        addr + 0x800 * k <= CPU_RAM_END,
    ensures
        ({
            let mirror = (addr + 0x800 * k) as usize;
            let written = s.after_write(addr, byte);
            &&& written.read_value(addr) == byte
            &&& written.read_value(mirror) == byte
            &&& written.after_read(addr) == written
            &&& written.after_read(mirror) == written
            &&& s.read_value(mirror) == s.read_value(addr)
            &&& s.after_write(mirror, byte) == written
        }),
{
    let mirror = (addr + 0x800 * k) as usize;
    assert(mirror % CPU_RAM_LENGTH == addr % CPU_RAM_LENGTH);
}

/// The bus. It owns the cartridge, the picture processor, work RAM, the
/// I/O scratch window, the joypad registers and the DMA controller, and lends
/// the cartridge out only for the length of one access.
pub struct Bus<M: Mapper> {
    cartridge: CartridgeNes<M>,
    cpu_ram: [u8; 0x800],
    /// The picture processor, whose sprite table DMA fills.
    pub ppu_bus: PpuBus,
    joypad_registers: [u8; 2],
    joypad_state: [u8; 2],
    dma_page: u8,
    dma_addr: u8,
    dma_data: u8,
    /// Whether a transfer is armed or running.
    pub dma_transferring: bool,
    false_dma: bool,
    io_registers: [u8; 0x20],
}

impl<M: Mapper> View for Bus<M> {
    type V = BusState<M>;

    closed spec fn view(&self) -> BusState<M> {
        BusState {
            ram: self.cpu_ram@,
            io: self.io_registers@,
            joypad_registers: self.joypad_registers@,
            joypad_state: self.joypad_state@,
            dma: DmaState {
                source_page: self.dma_page,
                cursor: self.dma_addr,
                latched_byte: self.dma_data,
                transferring: self.dma_transferring,
                alignment_pending: self.false_dma,
            },
            ppu: self.ppu_bus@,
            cartridge: self.cartridge@,
        }
    }
}

impl<M: Mapper> Bus<M> {
    /// A bus at power-on around `cartridge`.
    pub fn new(cartridge: CartridgeNes<M>) -> (bus: Self)
        ensures
            bus@ == BusState::power_on(cartridge@),
    {
        let bus = Bus {
            cartridge,
            cpu_ram: [0; 0x800],
            ppu_bus: PpuBus::new(),
            joypad_registers: [0; 2],
            joypad_state: [0; 2],
            dma_page: 0,
            dma_addr: 0,
            dma_data: 0,
            dma_transferring: false,
            false_dma: true,
            io_registers: [0; 0x20],
        };
        proof {
            let start = BusState::power_on(cartridge@);
            assert(bus@.ram =~= start.ram);
            assert(bus@.io =~= start.io);
            assert(bus@.joypad_registers =~= start.joypad_registers);
            assert(bus@.joypad_state =~= start.joypad_state);
        }
        bus
    }

    /// The model of a bus always has the lengths of the bus's arrays.
    pub proof fn lemma_view_wf(&self)
        ensures
            self@.wf(),
    {
    }

    /// Whether a transfer is armed or running. The processor stands still
    /// while it is.
    pub fn transferring(&self) -> (active: bool)
        ensures
            active == self@.dma.transferring,
    {
        self.dma_transferring
    }

    /// The picture processor, to look at its registers, video memory and
    /// sprite table.
    pub fn ppu(&self) -> (ppu: &PpuBus)
        ensures
            ppu@ == self@.ppu,
    {
        &self.ppu_bus
    }

    /// A processor read: routes `addr` to its device and returns the byte.
    pub fn cpu_read(&mut self, addr: usize) -> (byte: u8)
        requires
            addr <= ADDRESS_MAX,
        ensures
            byte == old(self)@.read_value(addr),
            final(self)@ == old(self)@.after_read(addr),
    {
        match decode(addr) {
            Region::WorkRam => self.cpu_ram[addr % CPU_RAM_LENGTH],
            Region::PpuRegisters => self.ppu_bus.cpu_read_reg(addr, &mut self.cartridge),
            Region::DmaTrigger => 0,
            Region::Joypad => {
                let index: usize = addr & 0x01;
                assert(index == addr % 2) by (bit_vector)
                    requires
                        index == addr & 0x01,
                ;
                let register: u8 = self.joypad_registers[index];
                let high: u8 = register & 0b1000_0000;
                let shifted: u8 = register << 1;
                assert(high != 0 <==> register >= 0x80) by (bit_vector)
                    requires
                        high == register & 0b1000_0000,
                ;
                assert(shifted == (register * 2) % 256) by (bit_vector)
                    requires
                        shifted == register << 1,
                ;
                self.joypad_registers[index] = shifted;
                proof {
                    assert(self@.joypad_registers =~= old(self)@.after_read(
                        addr,
                    ).joypad_registers);
                }
                if high != 0 {
                    1
                } else {
                    0
                }
            },
            Region::IoScratch => self.io_registers[addr - IO_REG_START],
            Region::Cartridge => self.cartridge.cpu_read(addr),
        }
    }

    /// A processor write: routes `addr` to its device and hands it `byte`.
    pub fn cpu_write(&mut self, addr: usize, byte: u8)
        requires
            addr <= ADDRESS_MAX,
        ensures
            final(self)@ == old(self)@.after_write(addr, byte),
    {
        match decode(addr) {
            Region::WorkRam => {
                self.cpu_ram[addr % CPU_RAM_LENGTH] = byte;
            },
            Region::PpuRegisters => {
                self.ppu_bus.cpu_write_reg(addr, byte, &mut self.cartridge);
            },
            Region::DmaTrigger => {
                self.dma_page = byte;
                self.dma_addr = 0x00;
                self.dma_transferring = true;
            },
            Region::Joypad => {
                let index: usize = addr & 0x01;
                assert(index == addr % 2) by (bit_vector)
                    requires
                        index == addr & 0x01,
                ;
                self.joypad_registers[index] = self.joypad_state[index];
            },
            Region::IoScratch => {
                self.io_registers[addr - IO_REG_START] = byte;
            },
            Region::Cartridge => {
                self.cartridge.cpu_write(addr, byte);
            },
        }
    }

    /// One clock tick of the DMA controller; only the parity of
    /// `system_cycles` matters.
    pub fn dma_clock(&mut self, system_cycles: u32)
        ensures
            final(self)@ == old(self)@.after_dma_tick(system_cycles % 2 == 1),
    {
        let low: u32 = system_cycles & 0x01;
        assert(low != 0 <==> system_cycles % 2 == 1) by (bit_vector)
            requires
                low == system_cycles & 0x01,
        ;
        if !self.dma_transferring {
            return ;
        }
        if self.false_dma {
            if low != 0 {
                self.false_dma = false;
            }
        } else if low == 0 {
            let page: usize = self.dma_page as usize;
            let cursor: usize = self.dma_addr as usize;
            let data_addr: usize = page << 8 | cursor;
            assert(data_addr == page * 256 + cursor) by (bit_vector)
                requires
                    data_addr == page << 8 | cursor,
                    page < 256,
                    cursor < 256,
            ;
            self.dma_data = self.cpu_read(data_addr);
        } else {
            self.ppu_bus.oam[self.dma_addr as usize] = self.dma_data;
            self.dma_addr = self.dma_addr.wrapping_add(1);
            if self.dma_addr == 0x00 {
                self.dma_transferring = false;
                self.false_dma = true;
            }
        }
    }

    /// A picture-memory read, brokered to the picture processor and the
    /// cartridge.
    pub fn ppu_read(&mut self, addr: usize) -> (byte: u8)
        ensures
            byte == old(self)@.ppu.read_value(addr, old(self)@.cartridge),
            final(self)@ == old(self)@.after_ppu_read(addr),
    {
        self.ppu_bus.ppu_read(addr, &mut self.cartridge)
    }

    /// A picture-memory write, brokered to the picture processor and the
    /// cartridge.
    pub fn ppu_write(&mut self, addr: usize, byte: u8)
        ensures
            final(self)@ == old(self)@.after_ppu_write(addr, byte),
    {
        self.ppu_bus.ppu_write(addr, byte, &mut self.cartridge);
    }

    /// Records the first joypad's buttons for the next latch. The second
    /// joypad has no input: its snapshot stays as it is.
    pub fn update_joypad_state(&mut self, joypad_state: u8)
        ensures
            final(self)@ == old(self)@.after_joypad_update(joypad_state),
    {
        self.joypad_state[0] = joypad_state;
    }

    /// Copies `data` to the start of work RAM.
    pub fn load_ram(&mut self, data: &[u8])
        requires
            data@.len() <= CPU_RAM_LENGTH,
        ensures
            final(self)@ == old(self)@.after_load(data@),
    {
        let mut i: usize = 0;
        while i < data.len()
            invariant
                i <= data@.len() <= CPU_RAM_LENGTH,
                self.cpu_ram@ =~= data@.subrange(0, i as int) + old(self).cpu_ram@.subrange(
                    i as int,
                    CPU_RAM_LENGTH as int,
                ),
                self.cartridge == old(self).cartridge,
                self.ppu_bus == old(self).ppu_bus,
                self.joypad_registers == old(self).joypad_registers,
                self.joypad_state == old(self).joypad_state,
                self.dma_page == old(self).dma_page,
                self.dma_addr == old(self).dma_addr,
                self.dma_data == old(self).dma_data,
                self.dma_transferring == old(self).dma_transferring,
                self.false_dma == old(self).false_dma,
                self.io_registers == old(self).io_registers,
            decreases data@.len() - i,
        {
            self.cpu_ram[i] = data[i];
            i += 1;
        }
        proof {
            assert(data@.subrange(0, i as int) =~= data@);
        }
    }
}

} // verus!
