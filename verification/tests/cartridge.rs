use sm83::cartridge::{
    header_checksum, load, mapper_kind, ram_bank_count, title_length, Cartridge, CartridgeError,
    MapperKind,
};
use sm83::memory::MemoryBus;
use sm83::processor::Processor;

fn checksum_of(image: &[u8]) -> u8 {
    let mut sum: u8 = 0;
    for offset in 0x0134..=0x014C {
        sum = sum.wrapping_sub(image[offset].wrapping_add(1));
    }
    sum
}

fn image_with(title: &[u8], cartridge_type: u8, rom_size: u8, ram_size: u8) -> Vec<u8> {
    let mut image = vec![0u8; 0x8000];
    for (offset, byte) in image.iter_mut().enumerate() {
        *byte = (offset % 247) as u8;
    }
    for offset in 0x0134..0x0150 {
        image[offset] = 0;
    }
    image[0x0134..0x0134 + title.len()].copy_from_slice(title);
    image[0x0147] = cartridge_type;
    image[0x0148] = rom_size;
    image[0x0149] = ram_size;
    image[0x014D] = checksum_of(&image);
    image
}

#[test]
fn header_checksum_of_an_empty_header() {
    let image = vec![0u8; 0x8000];
    assert_eq!(header_checksum(&image), 0xE7);
}

#[test]
fn header_checksum_takes_each_byte_and_one_more() {
    let mut image = vec![0u8; 0x0150];
    image[0x0134] = 0x01;
    assert_eq!(header_checksum(&image), 0xE6);
    image[0x014C] = 0xFF;
    assert_eq!(header_checksum(&image), 0xE7);
    image[0x0133] = 0x55;
    image[0x014D] = 0x55;
    assert_eq!(header_checksum(&image), 0xE7);
    let image = image_with(b"TETRIS", 0x00, 0x00, 0x00);
    assert_eq!(header_checksum(&image), checksum_of(&image));
}

#[test]
fn title_length_counts_the_text() {
    assert_eq!(title_length(&image_with(b"TETRIS", 0, 0, 0)), Some(6));
    assert_eq!(title_length(&image_with(b"", 0, 0, 0)), Some(0));
    assert_eq!(title_length(&image_with(b"FIFTEEN LETTERS", 0, 0, 0)), Some(15));
    assert_eq!(title_length(&image_with(b"A B~", 0, 0, 0)), Some(4));
}

#[test]
fn title_length_refuses_what_is_no_text() {
    assert_eq!(title_length(&image_with(b"\x01", 0, 0, 0)), None);
    assert_eq!(title_length(&image_with(b"AB\x1FCD", 0, 0, 0)), None);
    assert_eq!(title_length(&image_with(b"AB\x7F", 0, 0, 0)), None);
    assert_eq!(title_length(&image_with(b"AB\xC3\xA9", 0, 0, 0)), None);
    assert_eq!(title_length(&image_with(b"AB\x00CD", 0, 0, 0)), None);
    let mut late = [0u8; 15];
    late[14] = b'Z';
    assert_eq!(title_length(&image_with(&late, 0, 0, 0)), None);
}

#[test]
fn mapper_kind_knows_the_cartridge_types() {
    assert_eq!(mapper_kind(0x00), Some(MapperKind::RomOnly));
    for code in [0x01, 0x02, 0x03] {
        assert_eq!(mapper_kind(code), Some(MapperKind::Mbc1));
    }
    for code in [0x05, 0x06] {
        assert_eq!(mapper_kind(code), Some(MapperKind::Mbc2));
    }
    for code in [0x08, 0x09] {
        assert_eq!(mapper_kind(code), Some(MapperKind::RomRam));
    }
    for code in [0x0B, 0x0C, 0x0D] {
        assert_eq!(mapper_kind(code), Some(MapperKind::Mmm01));
    }
    for code in [0x0F, 0x10, 0x11, 0x12, 0x13] {
        assert_eq!(mapper_kind(code), Some(MapperKind::Mbc3));
    }
    for code in [0x19, 0x1A, 0x1B, 0x1C, 0x1D, 0x1E] {
        assert_eq!(mapper_kind(code), Some(MapperKind::Mbc5));
    }
    assert_eq!(mapper_kind(0x20), Some(MapperKind::Mbc6));
    assert_eq!(mapper_kind(0x22), Some(MapperKind::Mbc7));
    assert_eq!(mapper_kind(0xFC), Some(MapperKind::PocketCamera));
    assert_eq!(mapper_kind(0xFD), Some(MapperKind::BandaiTama5));
    assert_eq!(mapper_kind(0xFE), Some(MapperKind::HuC3));
    assert_eq!(mapper_kind(0xFF), Some(MapperKind::HuC1));
}

#[test]
fn mapper_kind_knows_no_other_code() {
    let known = (0..=255u8).filter(|code| mapper_kind(*code).is_some()).count();
    assert_eq!(known, 28);
    for code in [0x04, 0x07, 0x0A, 0x0E, 0x14, 0x18, 0x1F, 0x21, 0x23, 0x80, 0xFB] {
        assert_eq!(mapper_kind(code), None);
    }
}

#[test]
fn ram_bank_count_follows_the_table() {
    assert_eq!(ram_bank_count(0x00), Some(0));
    assert_eq!(ram_bank_count(0x01), Some(0));
    assert_eq!(ram_bank_count(0x02), Some(1));
    assert_eq!(ram_bank_count(0x03), Some(4));
    assert_eq!(ram_bank_count(0x04), Some(16));
    assert_eq!(ram_bank_count(0x05), Some(8));
    for code in 0x06..=0xFFu8 {
        assert_eq!(ram_bank_count(code), None);
    }
}

#[test]
fn a_new_cartridge_is_zeroed() {
    let cartridge = Cartridge::new(2, 1);
    assert_eq!(cartridge.rom_banks(), 2);
    assert_eq!(cartridge.ram_banks(), 1);
    assert!(cartridge.title().is_empty());
    assert_eq!(cartridge.cartridge_type(), 0);
    assert_eq!(cartridge.rom_size_code(), 0);
    assert_eq!(cartridge.ram_size_code(), 0);
    assert_eq!(cartridge.header_checksum(), 0);
    assert_eq!(cartridge.read_rom(0, 0), Some(0));
    assert_eq!(cartridge.read_rom(1, 0x3FFF), Some(0));
    assert_eq!(cartridge.read_rom(2, 0), None);
    assert_eq!(cartridge.read_rom(0, 0x4000), None);
    assert_eq!(cartridge.read_ram(0, 0x1FFF), Some(0));
    assert_eq!(cartridge.read_ram(1, 0), None);
    assert_eq!(cartridge.read_ram(0, 0x2000), None);
}

#[test]
fn the_smallest_cartridge_has_no_ram() {
    let mut cartridge = Cartridge::new(2, 0);
    assert_eq!(cartridge.rom_banks(), 2);
    assert_eq!(cartridge.ram_banks(), 0);
    assert_eq!(cartridge.read_rom(1, 0x3FFF), Some(0));
    assert_eq!(cartridge.read_ram(0, 0), None);
    assert!(!cartridge.write_ram(0, 0, 0x11));
}

#[test]
fn the_largest_cartridge_has_every_bank() {
    let cartridge = Cartridge::new(512, 16);
    assert_eq!(cartridge.rom_banks(), 512);
    assert_eq!(cartridge.ram_banks(), 16);
    assert_eq!(cartridge.read_rom(511, 0x3FFF), Some(0));
    assert_eq!(cartridge.read_rom(512, 0), None);
    assert_eq!(cartridge.read_ram(15, 0x1FFF), Some(0));
    assert_eq!(cartridge.read_ram(16, 0), None);
}

#[test]
fn cartridge_ram_keeps_what_is_written() {
    let mut cartridge = Cartridge::new(2, 4);
    assert!(cartridge.write_ram(3, 0x0123, 0xAB));
    assert_eq!(cartridge.read_ram(3, 0x0123), Some(0xAB));
    assert_eq!(cartridge.read_ram(2, 0x0123), Some(0x00));
    assert_eq!(cartridge.read_ram(3, 0x0122), Some(0x00));
    assert!(!cartridge.write_ram(4, 0, 0xCD));
    assert!(!cartridge.write_ram(0, 0x2000, 0xCD));
    assert_eq!(cartridge.read_ram(0, 0), Some(0x00));
}

#[test]
fn from_bytes_keeps_the_header_and_the_rom() {
    let image = image_with(b"TETRIS", 0x00, 0x00, 0x03);
    let cartridge = Cartridge::from_bytes(&image).unwrap();
    assert_eq!(cartridge.title().as_slice(), b"TETRIS");
    assert_eq!(cartridge.cartridge_type(), 0x00);
    assert_eq!(cartridge.rom_size_code(), 0x00);
    assert_eq!(cartridge.ram_size_code(), 0x03);
    assert_eq!(cartridge.header_checksum(), checksum_of(&image));
    assert_eq!(cartridge.rom_banks(), 2);
    assert_eq!(cartridge.ram_banks(), 4);
    assert_eq!(cartridge.read_rom(0, 0x0100), Some(image[0x0100]));
    assert_eq!(cartridge.read_rom(1, 0x0000), Some(image[0x4000]));
    assert_eq!(cartridge.read_rom(1, 0x3FFF), Some(image[0x7FFF]));
    assert_eq!(cartridge.read_ram(3, 0x1FFF), Some(0));
    assert_eq!(cartridge.read_ram(4, 0), None);
}

#[test]
fn load_maps_the_rom_onto_the_bus() {
    let image = image_with(b"", 0x00, 0x00, 0x00);
    assert_eq!(image.len(), 0x8000);
    let mut cpu = Processor::new();
    let cartridge = cpu.load_cartridge(&image).unwrap();
    assert_eq!(cartridge.rom_banks(), 2);
    assert_eq!(cartridge.ram_banks(), 0);
    assert_eq!(cpu.read_memory(0x0100), image[0x0100]);
    for address in 0..0x8000usize {
        assert_eq!(cpu.read_memory(address as u16), image[address]);
    }
    assert_eq!(cpu.read_memory(0x8000), 0);
}

#[test]
fn load_takes_the_first_two_banks_of_a_longer_image() {
    let mut image = image_with(b"LONG", 0x00, 0x01, 0x02);
    image.extend_from_slice(&[0xEE; 0x8000]);
    let mut bus = MemoryBus::new();
    let cartridge = load(&mut bus, &image).unwrap();
    assert_eq!(cartridge.title().as_slice(), b"LONG");
    assert_eq!(cartridge.rom_size_code(), 0x01);
    assert_eq!(cartridge.rom_banks(), 2);
    assert_eq!(cartridge.ram_banks(), 1);
    assert!(bus.has_cartridge());
    assert_eq!(bus.read(0x7FFF), image[0x7FFF]);
    assert_eq!(bus.read(0x8000), 0);
}

#[test]
fn load_makes_the_rom_read_only() {
    let image = image_with(b"LOCK", 0x00, 0x00, 0x00);
    let mut cpu = Processor::new();
    cpu.write_memory(0x0100, 0x99);
    assert_eq!(cpu.read_memory(0x0100), 0x99);
    assert!(cpu.load_cartridge(&image).is_ok());
    cpu.write_memory(0x0100, 0x99);
    assert_eq!(cpu.read_memory(0x0100), image[0x0100]);
}

#[test]
fn a_checksum_mismatch_is_a_corrupt_cartridge() {
    let mut image = image_with(b"TETRIS", 0x00, 0x00, 0x00);
    image[0x014D] = image[0x014D].wrapping_add(1);
    let mut cpu = Processor::new();
    cpu.write_memory(0x0100, 0x5A);
    cpu.write_memory(0xC000, 0xA5);
    assert_eq!(cpu.load_cartridge(&image).err(), Some(CartridgeError::CorruptCartridge));
    assert_eq!(cpu.read_memory(0x0100), 0x5A);
    assert_eq!(cpu.read_memory(0xC000), 0xA5);
    cpu.write_memory(0x0100, 0x5B);
    assert_eq!(cpu.read_memory(0x0100), 0x5B);
    for address in 0..=0xFFFFu16 {
        let expected = match address {
            0x0100 => 0x5B,
            0xC000 | 0xE000 => 0xA5,
            0xFEA0..=0xFEFF => 0xFF,
            _ => 0x00,
        };
        assert_eq!(cpu.read_memory(address), expected);
    }
}

#[test]
fn a_checksum_mismatch_wins_over_a_bad_type() {
    let mut image = image_with(b"TETRIS", 0x04, 0x00, 0x77);
    image[0x014D] ^= 0x80;
    assert_eq!(Cartridge::from_bytes(&image).err(), Some(CartridgeError::CorruptCartridge));
}

#[test]
fn a_title_that_is_no_text_is_a_corrupt_cartridge() {
    let image = image_with(b"BAD\x07", 0x00, 0x00, 0x00);
    assert_eq!(Cartridge::from_bytes(&image).err(), Some(CartridgeError::CorruptCartridge));
}

#[test]
fn a_short_image_is_an_io_failure() {
    let image = image_with(b"TETRIS", 0x00, 0x00, 0x00);
    assert_eq!(
        Cartridge::from_bytes(&image[..0x7FFF]).err(),
        Some(CartridgeError::IoFailure)
    );
    assert_eq!(Cartridge::from_bytes(&[]).err(), Some(CartridgeError::IoFailure));
    let mut bus = MemoryBus::new();
    assert_eq!(load(&mut bus, &image[..0x0150]).err(), Some(CartridgeError::IoFailure));
    assert!(!bus.has_cartridge());
}

#[test]
fn an_unknown_cartridge_type_is_invalid() {
    for code in [0x04u8, 0x07, 0x0A, 0x21, 0x80] {
        let image = image_with(b"TETRIS", code, 0x00, 0x00);
        assert_eq!(
            Cartridge::from_bytes(&image).err(),
            Some(CartridgeError::InvalidCartridgeType)
        );
    }
}

#[test]
fn a_known_mapper_is_unsupported() {
    for code in [0x01u8, 0x03, 0x05, 0x08, 0x09, 0x0B, 0x13, 0x19, 0x20, 0x22, 0xFC, 0xFF] {
        let image = image_with(b"TETRIS", code, 0x00, 0x00);
        let mut bus = MemoryBus::new();
        assert_eq!(load(&mut bus, &image).err(), Some(CartridgeError::UnsupportedMapper));
        assert!(!bus.has_cartridge());
        assert_eq!(bus.read(0x0100), 0);
    }
}

#[test]
fn a_known_mapper_is_unsupported_whatever_the_ram_size() {
    let image = image_with(b"TETRIS", 0x01, 0x00, 0x77);
    assert_eq!(Cartridge::from_bytes(&image).err(), Some(CartridgeError::UnsupportedMapper));
}

#[test]
fn an_unknown_ram_size_is_invalid() {
    for code in [0x06u8, 0x07, 0x80, 0xFF] {
        let image = image_with(b"TETRIS", 0x00, 0x00, code);
        assert_eq!(
            Cartridge::from_bytes(&image).err(),
            Some(CartridgeError::InvalidCartridgeType)
        );
    }
}

#[test]
fn the_rom_size_code_is_kept_and_not_judged() {
    let image = image_with(b"TETRIS", 0x00, 0x52, 0x00);
    let cartridge = Cartridge::from_bytes(&image).unwrap();
    assert_eq!(cartridge.rom_size_code(), 0x52);
    assert_eq!(cartridge.rom_banks(), 2);
}
