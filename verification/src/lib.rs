//! Memory bus and sprite-DMA core of an 8-bit console emulator.
//!
//! The [`Bus`] decodes every processor access into work RAM, the picture
//! processor's register window, the I/O scratch window, the DMA trigger,
//! the joypad shift registers or the cartridge, and steps the sprite DMA
//! controller one clock tick at a time.

pub mod mapper;
pub mod cartridge;
pub mod ppu;
pub mod bus;
pub mod dma;
pub mod joypad;

pub use crate::bus::Bus;
pub use crate::cartridge::CartridgeNes;
pub use crate::mapper::Mapper;
pub use crate::mapper::Mapper0;
pub use crate::mapper::Mapper2;
pub use crate::ppu::PpuBus;

