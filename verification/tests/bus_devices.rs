use gbemu::bus::{Bus, MapEntry, MemoryMap, Ram, Region};
use gbemu::cartridge::{Cartridge, MBC1};
use gbemu::fault::Fault;
use gbemu::mapper::Mapper;

/// A ROM image whose first byte of every 16 KiB bank is the bank index,
/// so a read through the switchable window identifies the active bank.
fn banked_rom(banks: usize) -> Vec<u8> {
    let mut rom = vec![0u8; banks * 0x4000];
    for bank in 0..banks {
        rom[bank * 0x4000] = bank as u8;
    }
    rom
}

#[test]
fn bank_select_quirk_values() {
    // 0x62 banks cover every alias the quirk can select.
    let mut mbc = MBC1::new(banked_rom(0x62));
    for (written, bank) in [
        (0x00u8, 0x01u8),
        (0x20, 0x21),
        (0x40, 0x41),
        (0x60, 0x61),
        (0x05, 0x05),
    ] {
        mbc.select_rom_bank(written);
        assert_eq!(mbc.read_rom(0x4000), bank);
    }
}

#[test]
fn bank_select_through_bus_write() {
    let cartridge = Cartridge::load(banked_rom(0x22));
    let mut bus = Bus::new(cartridge);
    // Fresh cartridges start on bank 1.
    assert_eq!(bus.read(0x4000), Ok(0x01));
    // A write into the bank-select control region switches the window.
    assert_eq!(bus.write(0x3000, 0x20), Ok(()));
    assert_eq!(bus.read(0x4000), Ok(0x21));
    assert_eq!(bus.write(0x2000, 0x02), Ok(()));
    assert_eq!(bus.read(0x4000), Ok(0x02));
}

#[test]
fn cartridge_reads_bank_zero_fixed_and_tolerates_short_images() {
    let mut rom = banked_rom(3);
    rom[0x0123] = 0xAB;
    let cartridge = Cartridge::load(rom);
    let bus = Bus::new(cartridge);
    // The low window always reads bank 0.
    assert_eq!(bus.read(0x0000), Ok(0x00));
    assert_eq!(bus.read(0x0123), Ok(0xAB));
    // Reads past the end of the image return 0 instead of failing.
    let short = Cartridge::load(vec![0x77; 0x100]);
    let short_bus = Bus::new(short);
    assert_eq!(short_bus.read(0x00FF), Ok(0x77));
    assert_eq!(short_bus.read(0x0100), Ok(0x00));
    assert_eq!(short_bus.read(0x5000), Ok(0x00));
}

#[test]
fn cartridge_write_outside_control_region_is_fatal() {
    let cartridge = Cartridge::load(banked_rom(2));
    let mut bus = Bus::new(cartridge);
    assert_eq!(bus.write(0x0000, 1), Err(Fault::UnimplementedWrite(0x0000)));
    assert_eq!(bus.write(0x4100, 1), Err(Fault::UnimplementedWrite(0x4100)));
}

#[test]
fn work_ram_mirroring_both_directions() {
    let mut bus = Bus::new(Cartridge::load(banked_rom(2)));
    assert_eq!(bus.write(0xC010, 0x5A), Ok(()));
    assert_eq!(bus.read(0xE010), Ok(0x5A));
    assert_eq!(bus.read(0xC010), Ok(0x5A));
    assert_eq!(bus.write(0xE020, 0xA5), Ok(()));
    assert_eq!(bus.read(0xC020), Ok(0xA5));
    assert_eq!(bus.read(0xE020), Ok(0xA5));
}

#[test]
fn unknown_region_read_returns_zero_and_does_not_halt() {
    let bus = Bus::new(Cartridge::load(banked_rom(2)));
    // 0xFEA0 belongs to no modeled peripheral: the catch-all placeholder
    // row serves it with the filler byte.
    assert_eq!(bus.read(0xFEA0), Ok(0));
    assert_eq!(bus.read(0xFF40), Ok(0));
}

#[test]
fn unmapped_address_on_malformed_map_is_fatal() {
    // A deliberately malformed map without the catch-all row: reading an
    // address with no matching range at all is the fatal mapping error.
    let map = MemoryMap::new(vec![MapEntry {
        start: 0xC000,
        end: 0xDFFF,
        region: Region::WorkRam,
    }]);
    let bus = Bus::new(Cartridge::load(banked_rom(2)));
    assert_eq!(bus.read(0xC000), Ok(0x11));
    let malformed = Bus::with_map(Cartridge::load(banked_rom(2)), map);
    assert_eq!(malformed.read(0xC000), Ok(0x11));
    assert_eq!(malformed.read(0xFEA0), Err(Fault::InvalidAddress(0xFEA0)));
    assert_eq!(malformed.read(0x0000), Err(Fault::InvalidAddress(0x0000)));
}

#[test]
fn memory_map_resolves_first_match() {
    let map = MemoryMap::standard();
    assert_eq!(map.resolve(0x0000), Some(Region::Cartridge));
    assert_eq!(map.resolve(0x9ABC), Some(Region::VideoRam));
    assert_eq!(map.resolve(0xC123), Some(Region::WorkRam));
    assert_eq!(map.resolve(0xE123), Some(Region::WorkRamMirror));
    assert_eq!(map.resolve(0xFF01), Some(Region::Serial));
    assert_eq!(map.resolve(0xFF44), Some(Region::VideoLine));
    assert_eq!(map.resolve(0xFF80), Some(Region::HighRam));
    assert_eq!(map.resolve(0xFFFF), Some(Region::InterruptEnable));
    assert_eq!(map.resolve(0xA000), Some(Region::Placeholder));
    assert_eq!(map.resolve(0xFE00), Some(Region::Placeholder));
}

#[test]
fn serial_stub_logs_emitted_bytes() {
    let mut bus = Bus::new(Cartridge::load(banked_rom(2)));
    assert_eq!(bus.write(0xFF01, b'H'), Ok(()));
    assert_eq!(bus.read(0xFF01), Ok(b'H'));
    assert_eq!(bus.write(0xFF02, 0x81), Ok(()));
    assert_eq!(bus.write(0xFF01, b'i'), Ok(()));
    assert_eq!(bus.write(0xFF02, 0x81), Ok(()));
    assert_eq!(bus.serial_emitted().as_slice(), b"Hi");
    // The control register has no modeled read side: fatal on a true
    // read, 0 on a peek.
    assert_eq!(bus.read(0xFF02), Err(Fault::UnimplementedRead(0xFF02)));
    assert_eq!(bus.peek(0xFF02), Ok(0));
}

#[test]
fn video_line_register_stub_values() {
    let bus = Bus::new(Cartridge::load(banked_rom(2)));
    assert_eq!(bus.read(0xFF44), Ok(0x94));
    assert_eq!(bus.peek(0xFF44), Ok(0x99));
}

#[test]
fn video_ram_and_high_ram_round_trip() {
    let mut bus = Bus::new(Cartridge::load(banked_rom(2)));
    assert_eq!(bus.write(0x8000, 0x3C), Ok(()));
    assert_eq!(bus.read(0x8000), Ok(0x3C));
    assert_eq!(bus.write(0x9FFF, 0xC3), Ok(()));
    assert_eq!(bus.read(0x9FFF), Ok(0xC3));
    // High RAM boots with the fill pattern and takes writes.
    assert_eq!(bus.read(0xFF80), Ok(0x11));
    assert_eq!(bus.write(0xFFFE, 0x42), Ok(()));
    assert_eq!(bus.read(0xFFFE), Ok(0x42));
    // The interrupt-enable register holds its byte.
    assert_eq!(bus.read(0xFFFF), Ok(0));
    assert_eq!(bus.write(0xFFFF, 0x1F), Ok(()));
    assert_eq!(bus.read(0xFFFF), Ok(0x1F));
}

#[test]
fn ram_boots_filled_with_pattern() {
    let _ = Ram::new(16);
    let bus = Bus::new(Cartridge::load(banked_rom(2)));
    assert_eq!(bus.read(0xC000), Ok(0x11));
    assert_eq!(bus.read(0xDFFF), Ok(0x11));
    // Video RAM boots zeroed.
    assert_eq!(bus.read(0x88BC), Ok(0));
}

#[test]
fn flat_mapper_reads_and_writes() {
    let mut mapper = Mapper::Rom;
    let rom = vec![0x12u8; 0x100];
    let mut ram = vec![0u8; 8192 + 0x7F];
    assert_eq!(mapper.peek_u8(&rom, &ram, 0x0040), 0x12);
    // Past the end of the image the flat mapper reads 0xFF.
    assert_eq!(mapper.read_u8(&rom, &ram, 0x0100), 0xFF);
    // Work RAM round trip at its offset.
    mapper.write_u8(&mut ram, 0xC010, 0x77);
    assert_eq!(mapper.read_u8(&rom, &ram, 0xC010), 0x77);
    assert_eq!(ram[0x10], 0x77);
    // High RAM lands after work RAM in the combined buffer.
    mapper.write_u8(&mut ram, 0xFF81, 0x55);
    assert_eq!(mapper.read_u8(&rom, &ram, 0xFF81), 0x55);
    assert_eq!(ram[8192 + 1], 0x55);
    // The I/O window reads 0 and ignores writes.
    assert_eq!(mapper.read_u8(&rom, &ram, 0xFF00), 0);
    mapper.write_u8(&mut ram, 0xFF00, 0x99);
    assert_eq!(mapper.read_u8(&rom, &ram, 0xFF00), 0);
    // ROM ignores writes under the flat scheme.
    mapper.write_u8(&mut ram, 0x0040, 0x00);
    assert_eq!(mapper.read_u8(&rom, &ram, 0x0040), 0x12);
}
