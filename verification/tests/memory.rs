use sm83::memory::{region_of, MemoryBus, Region};

#[test]
fn every_address_has_its_region() {
    assert_eq!(region_of(0x0000), Region::RomBank0);
    assert_eq!(region_of(0x3FFF), Region::RomBank0);
    assert_eq!(region_of(0x4000), Region::RomBankN);
    assert_eq!(region_of(0x7FFF), Region::RomBankN);
    assert_eq!(region_of(0x8000), Region::VideoRam);
    assert_eq!(region_of(0x9FFF), Region::VideoRam);
    assert_eq!(region_of(0xA000), Region::ExternalRam);
    assert_eq!(region_of(0xBFFF), Region::ExternalRam);
    assert_eq!(region_of(0xC000), Region::WorkRam);
    assert_eq!(region_of(0xDFFF), Region::WorkRam);
    assert_eq!(region_of(0xE000), Region::EchoRam);
    assert_eq!(region_of(0xFDFF), Region::EchoRam);
    assert_eq!(region_of(0xFE00), Region::ObjectMemory);
    assert_eq!(region_of(0xFE9F), Region::ObjectMemory);
    assert_eq!(region_of(0xFEA0), Region::Unusable);
    assert_eq!(region_of(0xFEFF), Region::Unusable);
    assert_eq!(region_of(0xFF00), Region::IoRegisters);
    assert_eq!(region_of(0xFF7F), Region::IoRegisters);
    assert_eq!(region_of(0xFF80), Region::HighRam);
    assert_eq!(region_of(0xFFFE), Region::HighRam);
    assert_eq!(region_of(0xFFFF), Region::InterruptEnable);
}

#[test]
fn a_new_bus_reads_zero_outside_the_gap() {
    let bus = MemoryBus::new();
    assert!(!bus.has_cartridge());
    for address in 0..=0xFFFFu16 {
        let expected = if region_of(address) == Region::Unusable { 0xFF } else { 0x00 };
        assert_eq!(bus.read(address), expected);
    }
}

#[test]
fn every_plain_region_reads_back_a_write() {
    for address in [
        0x0000u16, 0x0100, 0x3FFF, 0x4000, 0x7FFF, 0x8000, 0x9FFF, 0xA000, 0xBFFF, 0xC000,
        0xDFFF, 0xFE00, 0xFE9F, 0xFF00, 0xFF7F, 0xFF80, 0xFFFE, 0xFFFF,
    ] {
        let mut bus = MemoryBus::new();
        bus.write(address, 0x42);
        assert_eq!(bus.read(address), 0x42);
        assert_ne!(bus.read(address.wrapping_add(1)), 0x42);
    }
}

#[test]
fn a_write_to_work_ram_shows_in_the_echo() {
    let mut bus = MemoryBus::new();
    bus.write(0xC010, 0x77);
    assert_eq!(bus.read(0xE010), 0x77);
    assert_eq!(bus.read(0xC010), 0x77);
}

#[test]
fn a_write_to_the_echo_shows_in_work_ram() {
    let mut bus = MemoryBus::new();
    bus.write(0xE010, 0x99);
    assert_eq!(bus.read(0xC010), 0x99);
    assert_eq!(bus.read(0xE010), 0x99);
}

#[test]
fn the_echo_mirrors_its_whole_range() {
    let mut bus = MemoryBus::new();
    for address in 0xC000..=0xDDFFu16 {
        bus.write(address, (address % 251) as u8);
    }
    for address in 0xC000..=0xDDFFu16 {
        assert_eq!(bus.read(address + 0x2000), (address % 251) as u8);
    }
    bus.write(0xFDFF, 0xEE);
    assert_eq!(bus.read(0xDDFF), 0xEE);
    bus.write(0xE000, 0xDD);
    assert_eq!(bus.read(0xC000), 0xDD);
}

#[test]
fn the_top_of_work_ram_has_no_echo() {
    let mut bus = MemoryBus::new();
    bus.write(0xDE00, 0x55);
    assert_eq!(bus.read(0xDE00), 0x55);
    assert_eq!(bus.read(0xFE00), 0x00);
}

#[test]
fn the_gap_reads_0xff_and_ignores_writes() {
    let mut bus = MemoryBus::new();
    for address in 0xFEA0..=0xFEFFu16 {
        assert_eq!(bus.read(address), 0xFF);
        bus.write(address, 0x12);
        assert_eq!(bus.read(address), 0xFF);
    }
    assert_eq!(bus.read(0xFE9F), 0x00);
    assert_eq!(bus.read(0xFF00), 0x00);
}

#[test]
fn an_inserted_cartridge_shows_in_the_rom_window() {
    let mut rom = vec![0u8; 0x8000];
    for (offset, byte) in rom.iter_mut().enumerate() {
        *byte = (offset % 253) as u8;
    }
    let mut bus = MemoryBus::new();
    bus.write(0x8000, 0x21);
    bus.insert_cartridge(&rom);
    assert!(bus.has_cartridge());
    for address in 0..0x8000usize {
        assert_eq!(bus.read(address as u16), (address % 253) as u8);
    }
    assert_eq!(bus.read(0x8000), 0x21);
}

#[test]
fn an_inserted_cartridge_is_read_only() {
    let rom = vec![0x3Cu8; 0x8000];
    let mut bus = MemoryBus::new();
    bus.insert_cartridge(&rom);
    bus.write(0x0000, 0x01);
    bus.write(0x0100, 0x02);
    bus.write(0x4000, 0x03);
    bus.write(0x7FFF, 0x04);
    assert_eq!(bus.read(0x0000), 0x3C);
    assert_eq!(bus.read(0x0100), 0x3C);
    assert_eq!(bus.read(0x4000), 0x3C);
    assert_eq!(bus.read(0x7FFF), 0x3C);
    bus.write(0x8000, 0x05);
    assert_eq!(bus.read(0x8000), 0x05);
}
