use nes_bus::bus::decode;
use nes_bus::bus::Region;
use nes_bus::bus::DMA_REG_ADDR;
use nes_bus::Bus;
use nes_bus::CartridgeNes;
use nes_bus::Mapper0;

fn pattern(seed: u8) -> Vec<u8> {
    let mut v = Vec::new();
    for i in 0..256usize {
        v.push((i as u8).wrapping_mul(7).wrapping_add(seed));
    }
    v
}

fn fixed_bus() -> Bus<Mapper0> {
    let mut prg = vec![0u8; 0x8000];
    for i in 0..prg.len() {
        prg[i] = (i % 251) as u8;
    }
    let chr = vec![0u8; 0x2000];
    Bus::new(CartridgeNes::new(prg, chr, Mapper0::new(0x8000, 0x2000)))
}

fn fill_page(bus: &mut Bus<Mapper0>, page: usize, bytes: &[u8]) {
    for i in 0..256usize {
        bus.cpu_write(page * 256 + i, bytes[i]);
    }
}

fn run_to_idle(bus: &mut Bus<Mapper0>, first_cycle: u32) -> u32 {
    let mut cycle = first_cycle;
    let mut ticks = 0u32;
    while bus.dma_transferring {
        bus.dma_clock(cycle);
        cycle = cycle.wrapping_add(1);
        ticks += 1;
        assert!(ticks < 10_000);
    }
    ticks
}

#[test]
fn power_on_state_is_zero_and_idle() {
    let mut bus = fixed_bus();
    assert!(!bus.dma_transferring);
    for addr in (0..0x2000usize).step_by(97) {
        assert_eq!(bus.cpu_read(addr), 0);
    }
    for addr in 0x4000..0x4020usize {
        assert_eq!(bus.cpu_read(addr), 0);
    }
    assert_eq!(bus.ppu_bus.oam, [0u8; 256]);
}

#[test]
fn decode_names_each_range() {
    assert_eq!(decode(0x0000), Region::WorkRam);
    assert_eq!(decode(0x1FFF), Region::WorkRam);
    assert_eq!(decode(0x2000), Region::PpuRegisters);
    assert_eq!(decode(0x3FFF), Region::PpuRegisters);
    assert_eq!(decode(0x4000), Region::IoScratch);
    assert_eq!(decode(0x4013), Region::IoScratch);
    assert_eq!(decode(0x4014), Region::DmaTrigger);
    assert_eq!(decode(0x4015), Region::IoScratch);
    assert_eq!(decode(0x4016), Region::Joypad);
    assert_eq!(decode(0x4017), Region::Joypad);
    assert_eq!(decode(0x4018), Region::IoScratch);
    assert_eq!(decode(0x401F), Region::IoScratch);
    assert_eq!(decode(0x4020), Region::Cartridge);
    assert_eq!(decode(0xFFFF), Region::Cartridge);
}

#[test]
fn work_ram_is_mirrored_every_0x800() {
    let mut bus = fixed_bus();
    bus.cpu_write(0x0005, 0xAB);
    assert_eq!(bus.cpu_read(0x0005), 0xAB);
    assert_eq!(bus.cpu_read(0x0805), 0xAB);
    assert_eq!(bus.cpu_read(0x1005), 0xAB);
    assert_eq!(bus.cpu_read(0x1805), 0xAB);
    assert_eq!(bus.cpu_read(0x0006), 0x00);
    bus.cpu_write(0x1FFF, 0x5C);
    assert_eq!(bus.cpu_read(0x07FF), 0x5C);
    assert_eq!(bus.cpu_read(0x0FFF), 0x5C);
}

#[test]
fn every_address_resolves() {
    let mut bus = fixed_bus();
    for addr in 0..=0xFFFFusize {
        bus.cpu_write(addr, (addr & 0xFF) as u8);
        let _ = bus.cpu_read(addr);
    }
    assert_eq!(bus.cpu_read(0x07FF), 0xFF);
}

#[test]
fn io_scratch_keeps_bytes() {
    let mut bus = fixed_bus();
    bus.cpu_write(0x4000, 0x11);
    bus.cpu_write(0x4015, 0x22);
    bus.cpu_write(0x401F, 0x33);
    assert_eq!(bus.cpu_read(0x4000), 0x11);
    assert_eq!(bus.cpu_read(0x4015), 0x22);
    assert_eq!(bus.cpu_read(0x401F), 0x33);
    assert_eq!(bus.cpu_read(0x4001), 0x00);
    assert!(!bus.dma_transferring);
}

#[test]
fn dma_trigger_reads_zero_and_arms() {
    let mut bus = fixed_bus();
    bus.cpu_write(DMA_REG_ADDR, 0x7E);
    assert!(bus.dma_transferring);
    assert_eq!(bus.cpu_read(DMA_REG_ADDR), 0);
    assert!(bus.dma_transferring);
}

#[test]
fn ppu_register_window_repeats_every_8() {
    let mut bus = fixed_bus();
    bus.cpu_write(0x2003, 0x44);
    assert_eq!(bus.cpu_read(0x2003), 0x44);
    assert_eq!(bus.cpu_read(0x200B), 0x44);
    assert_eq!(bus.cpu_read(0x3FFB), 0x44);
    assert_eq!(bus.cpu_read(0x2004), 0x00);
    assert_eq!(bus.ppu_bus.registers[3], 0x44);
}

#[test]
fn cartridge_window_goes_through_the_mapper() {
    let mut bus = fixed_bus();
    assert_eq!(bus.cpu_read(0x8000), 0);
    assert_eq!(bus.cpu_read(0x8001), 1);
    assert_eq!(bus.cpu_read(0xFFFF), (0x7FFF % 251) as u8);
    assert_eq!(bus.cpu_read(0x4020), (0x4020 % 251) as u8);
    bus.cpu_write(0x8010, 0xEE);
    assert_eq!(bus.cpu_read(0x8010), 0xEE);
    assert_eq!(bus.cpu_read(0x0010), 0x00);
}

#[test]
fn cartridge_offset_beyond_storage_reads_zero() {
    let prg = vec![9u8; 0x10];
    let mut bus = Bus::new(CartridgeNes::new(prg, Vec::new(), Mapper0::new(0, 0)));
    assert_eq!(bus.cpu_read(0x8000), 0);
    bus.cpu_write(0x8000, 5);
    assert_eq!(bus.cpu_read(0x8000), 0);
    assert_eq!(bus.ppu_read(0x0000), 0);
}

#[test]
fn picture_memory_is_split_between_cartridge_and_vram() {
    let mut bus = fixed_bus();
    bus.ppu_write(0x0010, 0x21);
    assert_eq!(bus.ppu_read(0x0010), 0x21);
    assert_eq!(bus.ppu_read(0x4010), 0x21);
    bus.ppu_write(0x2005, 0x99);
    assert_eq!(bus.ppu_read(0x2005), 0x99);
    assert_eq!(bus.ppu_read(0x2805), 0x99);
    assert_eq!(bus.ppu_bus.vram[5], 0x99);
    assert_eq!(bus.ppu_read(0x0005), 0x00);
}

#[test]
fn load_ram_copies_to_the_start() {
    let mut bus = fixed_bus();
    bus.cpu_write(0x0002, 0x77);
    bus.cpu_write(0x0003, 0x88);
    bus.load_ram(&[1, 2, 3]);
    assert_eq!(bus.cpu_read(0x0000), 1);
    assert_eq!(bus.cpu_read(0x0001), 2);
    assert_eq!(bus.cpu_read(0x0002), 3);
    assert_eq!(bus.cpu_read(0x0003), 0x88);
    bus.load_ram(&[]);
    assert_eq!(bus.cpu_read(0x0000), 1);
    let full = vec![0x5Au8; 0x800];
    bus.load_ram(&full);
    assert_eq!(bus.cpu_read(0x07FF), 0x5A);
    assert_eq!(bus.cpu_read(0x0000), 0x5A);
}

#[test]
fn joypad_shifts_out_high_bit_first() {
    let mut bus = fixed_bus();
    bus.update_joypad_state(0b1011_0001);
    bus.cpu_write(0x4016, 0);
    let mut bits = Vec::new();
    for _ in 0..8 {
        bits.push(bus.cpu_read(0x4016));
    }
    assert_eq!(bits, vec![1, 0, 1, 1, 0, 0, 0, 1]);
    assert_eq!(bus.cpu_read(0x4016), 0);
}

#[test]
fn joypad_read_before_latch_is_zero() {
    let mut bus = fixed_bus();
    bus.update_joypad_state(0xFF);
    assert_eq!(bus.cpu_read(0x4016), 0);
}

#[test]
fn second_joypad_has_no_input() {
    let mut bus = fixed_bus();
    bus.update_joypad_state(0xFF);
    bus.cpu_write(0x4017, 0);
    for _ in 0..8 {
        assert_eq!(bus.cpu_read(0x4017), 0);
    }
    bus.cpu_write(0x4016, 0);
    assert_eq!(bus.cpu_read(0x4017), 0);
    assert_eq!(bus.cpu_read(0x4016), 1);
}

#[test]
fn joypad_latch_restarts_the_shift() {
    let mut bus = fixed_bus();
    bus.update_joypad_state(0b1000_0000);
    bus.cpu_write(0x4016, 1);
    assert_eq!(bus.cpu_read(0x4016), 1);
    assert_eq!(bus.cpu_read(0x4016), 0);
    bus.cpu_write(0x4016, 1);
    assert_eq!(bus.cpu_read(0x4016), 1);
}

#[test]
fn dma_copies_a_page_byte_for_byte() {
    let mut bus = fixed_bus();
    let bytes = pattern(3);
    fill_page(&mut bus, 2, &bytes);
    bus.cpu_write(DMA_REG_ADDR, 2);
    let mut cycle = 1u32;
    let mut ticks = 0;
    while ticks < 513 {
        assert!(bus.dma_transferring);
        bus.dma_clock(cycle);
        cycle += 1;
        ticks += 1;
    }
    assert!(!bus.dma_transferring);
    assert_eq!(bus.ppu_bus.oam.to_vec(), bytes);
    for i in 0..256usize {
        assert_eq!(bus.cpu_read(0x0200 + i), bytes[i]);
    }
}

#[test]
fn dma_reads_mirrored_pages() {
    let mut bus = fixed_bus();
    let bytes = pattern(40);
    fill_page(&mut bus, 1, &bytes);
    bus.cpu_write(DMA_REG_ADDR, 0x19);
    run_to_idle(&mut bus, 1);
    assert_eq!(bus.ppu_bus.oam.to_vec(), bytes);
}

#[test]
fn dma_reads_the_cartridge_through_the_bus() {
    let mut bus = fixed_bus();
    bus.cpu_write(DMA_REG_ADDR, 0x80);
    let ticks = run_to_idle(&mut bus, 1);
    assert_eq!(ticks, 513);
    for i in 0..256usize {
        assert_eq!(bus.ppu_bus.oam[i], (i % 251) as u8);
    }
}

#[test]
fn dma_on_even_tick_waits_one_more() {
    let bytes = pattern(9);
    let mut odd = fixed_bus();
    fill_page(&mut odd, 3, &bytes);
    odd.cpu_write(DMA_REG_ADDR, 3);
    assert_eq!(run_to_idle(&mut odd, 7), 513);
    let mut even = fixed_bus();
    fill_page(&mut even, 3, &bytes);
    even.cpu_write(DMA_REG_ADDR, 3);
    assert_eq!(run_to_idle(&mut even, 8), 514);
    assert_eq!(odd.ppu_bus.oam, even.ppu_bus.oam);
    assert_eq!(even.ppu_bus.oam.to_vec(), bytes);
}

#[test]
fn dma_first_store_lands_after_alignment() {
    let mut bus = fixed_bus();
    bus.cpu_write(0x0300, 0xC1);
    bus.cpu_write(DMA_REG_ADDR, 3);
    bus.dma_clock(10);
    bus.dma_clock(11);
    bus.dma_clock(12);
    assert_eq!(bus.ppu_bus.oam[0], 0);
    bus.dma_clock(13);
    assert_eq!(bus.ppu_bus.oam[0], 0xC1);
    assert!(bus.dma_transferring);
}

#[test]
fn dma_clock_parity_survives_counter_wrap() {
    let mut bus = fixed_bus();
    let bytes = pattern(77);
    fill_page(&mut bus, 4, &bytes);
    bus.cpu_write(DMA_REG_ADDR, 4);
    assert_eq!(run_to_idle(&mut bus, 0xFFFF_FF01), 513);
    assert_eq!(bus.ppu_bus.oam.to_vec(), bytes);
}

#[test]
fn dma_retrigger_restarts_from_new_page() {
    let mut bus = fixed_bus();
    let first = pattern(1);
    let second = pattern(200);
    fill_page(&mut bus, 2, &first);
    fill_page(&mut bus, 5, &second);
    bus.cpu_write(DMA_REG_ADDR, 2);
    let mut cycle = 1u32;
    for _ in 0..101 {
        bus.dma_clock(cycle);
        cycle += 1;
    }
    assert_eq!(cycle % 2, 0);
    assert_eq!(bus.ppu_bus.oam[49], first[49]);
    assert_eq!(bus.ppu_bus.oam[50], 0);
    bus.cpu_write(DMA_REG_ADDR, 5);
    assert!(bus.dma_transferring);
    let ticks = run_to_idle(&mut bus, cycle);
    assert_eq!(ticks, 512);
    assert_eq!(bus.ppu_bus.oam.to_vec(), second);
}

#[test]
fn dma_clock_while_idle_does_nothing() {
    let mut bus = fixed_bus();
    bus.cpu_write(0x0000, 0x42);
    for cycle in 0..1100u32 {
        bus.dma_clock(cycle);
    }
    assert!(!bus.dma_transferring);
    assert_eq!(bus.ppu_bus.oam, [0u8; 256]);
    bus.cpu_write(DMA_REG_ADDR, 0);
    assert_eq!(run_to_idle(&mut bus, 0), 514);
    assert_eq!(bus.ppu_bus.oam[0], 0x42);
}

#[test]
fn dma_can_run_twice() {
    let mut bus = fixed_bus();
    let first = pattern(11);
    let second = pattern(12);
    fill_page(&mut bus, 0, &first);
    fill_page(&mut bus, 7, &second);
    bus.cpu_write(DMA_REG_ADDR, 0);
    assert_eq!(run_to_idle(&mut bus, 1), 513);
    assert_eq!(bus.ppu_bus.oam.to_vec(), first);
    bus.cpu_write(DMA_REG_ADDR, 7);
    assert_eq!(run_to_idle(&mut bus, 514), 514);
    assert_eq!(bus.ppu_bus.oam.to_vec(), second);
}

#[test]
fn accessors_show_flag_and_sprite_table() {
    let mut bus = fixed_bus();
    assert!(!bus.transferring());
    bus.cpu_write(0x0100, 0x3D);
    bus.cpu_write(DMA_REG_ADDR, 1);
    assert!(bus.transferring());
    bus.dma_clock(1);
    bus.dma_clock(2);
    bus.dma_clock(3);
    assert_eq!(bus.ppu().oam[0], 0x3D);
    assert_eq!(bus.ppu().oam[1], 0x00);
    bus.cpu_write(0x2001, 0x1E);
    assert_eq!(bus.ppu().registers[1], 0x1E);
    run_to_idle(&mut bus, 4);
    assert!(!bus.transferring());
}

#[test]
fn joypad_shifts_out_every_snapshot_high_bit_first() {
    let mut bus = fixed_bus();
    for snapshot in 0..=255u8 {
        bus.update_joypad_state(snapshot);
        bus.cpu_write(0x4016, 0);
        for k in 0..8u32 {
            assert_eq!(bus.cpu_read(0x4016), (snapshot >> (7 - k)) & 1);
        }
        assert_eq!(bus.cpu_read(0x4016), 0);
    }
}

#[test]
fn dma_retrigger_on_a_store_tick_keeps_the_latched_byte() {
    let mut bus = fixed_bus();
    let first = pattern(1);
    let second = pattern(200);
    fill_page(&mut bus, 2, &first);
    fill_page(&mut bus, 5, &second);
    bus.cpu_write(DMA_REG_ADDR, 2);
    bus.dma_clock(1);
    bus.dma_clock(2);
    bus.cpu_write(DMA_REG_ADDR, 5);
    bus.dma_clock(3);
    assert_eq!(bus.ppu_bus.oam[0], first[0]);
    let ticks = run_to_idle(&mut bus, 4);
    assert_eq!(ticks, 510);
    assert_eq!(bus.ppu_bus.oam[1..], second[1..]);
}
