//! The cartridge: its header, the checks that an image must pass, and the
//! loader that maps an accepted image onto the memory bus.

use vstd::prelude::*;
use vstd::slice::{slice_subrange, slice_to_vec};
use crate::memory::MemoryBus;

verus! {

/// The size of one ROM bank.
pub const ROM_BANK_SIZE: usize = 0x4000;

/// The size of one RAM bank.
pub const RAM_BANK_SIZE: usize = 0x2000;

/// The least number of bytes in a cartridge image: two ROM banks.
pub const MINIMUM_IMAGE: usize = 0x8000;

/// The number of ROM banks of a cartridge without a mapper.
pub const PLAIN_ROM_BANKS: usize = 2;

/// Where the title field starts.
pub const TITLE_START: usize = 0x134;

/// Where the title field ends: the first offset after it.
pub const TITLE_END: usize = 0x143;

/// The offset of the cartridge-type byte.
pub const CARTRIDGE_TYPE_AT: usize = 0x147;

/// The offset of the ROM-size code.
pub const ROM_SIZE_AT: usize = 0x148;

/// The offset of the RAM-size code.
pub const RAM_SIZE_AT: usize = 0x149;

/// The first offset that the header checksum covers.
pub const CHECKSUM_FIRST: usize = 0x134;

/// The number of bytes that the header checksum covers: up to 0x14C.
pub const CHECKSUM_SPAN: usize = 25;

/// The offset of the stored header checksum.
pub const CHECKSUM_AT: usize = 0x14D;

/// Why an image was not accepted.
#[derive(Clone, Copy, Debug, PartialEq, Eq, Structural)]
pub enum CartridgeError {
    /// The bytes of the cartridge are not there: the image is shorter than
    /// two ROM banks.
    IoFailure,
    /// The header does not hold up: the title is no text, or the checksum
    /// does not match.
    CorruptCartridge,
    /// The cartridge-type byte or the RAM-size code is not a known code.
    InvalidCartridgeType,
    /// The cartridge has a mapper, and this core has none.
    UnsupportedMapper,
}

/// The family of memory-bank controller that a cartridge-type byte names.
#[derive(Clone, Copy, Debug, PartialEq, Eq, Structural)]
pub enum MapperKind {
    RomOnly,
    Mbc1,
    Mbc2,
    RomRam,
    Mmm01,
    Mbc3,
    Mbc5,
    Mbc6,
    Mbc7,
    PocketCamera,
    BandaiTama5,
    HuC3,
    HuC1,
}

/// The mapper that a cartridge-type byte names, if the code is known.
pub open spec fn mapper_of(code: u8) -> Option<MapperKind> {
    if code == 0x00 {
        Some(MapperKind::RomOnly)
    } else if 0x01 <= code <= 0x03 {
        Some(MapperKind::Mbc1)
    } else if 0x05 <= code <= 0x06 {
        Some(MapperKind::Mbc2)
    } else if 0x08 <= code <= 0x09 {
        Some(MapperKind::RomRam)
    } else if 0x0B <= code <= 0x0D {
        Some(MapperKind::Mmm01)
    } else if 0x0F <= code <= 0x13 {
        Some(MapperKind::Mbc3)
    } else if 0x19 <= code <= 0x1E {
        Some(MapperKind::Mbc5)
    } else if code == 0x20 {
        Some(MapperKind::Mbc6)
    } else if code == 0x22 {
        Some(MapperKind::Mbc7)
    } else if code == 0xFC {
        Some(MapperKind::PocketCamera)
    } else if code == 0xFD {
        Some(MapperKind::BandaiTama5)
    } else if code == 0xFE {
        Some(MapperKind::HuC3)
    } else if code == 0xFF {
        Some(MapperKind::HuC1)
    } else {
        None
    }
}

/// The number of RAM banks that a RAM-size code declares, if the code is
/// known.
pub open spec fn ram_banks_of(code: u8) -> Option<usize> {
    if code == 0x00 || code == 0x01 {
        Some(0)
    } else if code == 0x02 {
        Some(1)
    } else if code == 0x03 {
        Some(4)
    } else if code == 0x04 {
        Some(16)
    } else if code == 0x05 {
        Some(8)
    } else {
        None
    }
}

/// The rolling checksum of the `count` bytes of `bytes` from `first` on:
/// it starts at zero, and each byte takes itself and one more off it, in
/// 8-bit arithmetic.
pub open spec fn rolling_checksum(bytes: Seq<u8>, first: int, count: nat) -> u8
    decreases count,
{
    if count == 0 {
        0
    } else {
        ((rolling_checksum(bytes, first, (count - 1) as nat) - bytes[first + count - 1] - 1)
            % 256) as u8
    }
}

/// The checksum that the header of `image` adds up to.
pub open spec fn header_checksum_of(image: Seq<u8>) -> u8 {
    rolling_checksum(image, CHECKSUM_FIRST as int, CHECKSUM_SPAN as nat)
}

/// The title field of `image`.
pub open spec fn title_field(image: Seq<u8>) -> Seq<u8> {
    image.subrange(TITLE_START as int, TITLE_END as int)
}

/// Whether a byte of a title is a printable character.
pub open spec fn is_printable(byte: u8) -> bool {
    0x20 <= byte <= 0x7E
}

/// Whether `field` is a title of `length` characters: that many printable
/// bytes, and zero bytes from there to the end.
pub open spec fn is_title(field: Seq<u8>, length: int) -> bool {
    &&& 0 <= length <= field.len()
    &&& forall|i: int| 0 <= i < length ==> is_printable(#[trigger] field[i])
    &&& forall|i: int| length <= i < field.len() ==> #[trigger] field[i] == 0
}

/// Whether `field` is printable text padded with zero bytes.
pub open spec fn has_title(field: Seq<u8>) -> bool {
    exists|length: int| is_title(field, length)
}

/// The text of a title field, without its padding.
pub open spec fn title_of(field: Seq<u8>) -> Seq<u8> {
    field.take(choose|length: int| is_title(field, length))
}

/// What a cartridge holds.
pub struct CartridgeContents {
    /// The title, without its padding.
    pub title: Seq<u8>,
    pub cartridge_type: u8,
    pub rom_size_code: u8,
    pub ram_size_code: u8,
    pub header_checksum: u8,
    pub rom_banks: nat,
    pub ram_banks: nat,
    /// The ROM banks, one after the other.
    pub rom: Seq<u8>,
    /// The RAM banks, one after the other.
    pub ram: Seq<u8>,
}

impl CartridgeContents {
    /// The bank counts are in range and each bank has its bytes.
    pub open spec fn wf(self) -> bool {
        &&& 2 <= self.rom_banks <= 512
        &&& self.ram_banks <= 16
        &&& self.rom.len() == self.rom_banks * ROM_BANK_SIZE
        &&& self.ram.len() == self.ram_banks * RAM_BANK_SIZE
    }

    /// A cartridge with no title, zeroed codes and zeroed banks.
    pub open spec fn zeroed(rom_banks: nat, ram_banks: nat) -> CartridgeContents {
        CartridgeContents {
            title: Seq::empty(),
            cartridge_type: 0,
            rom_size_code: 0,
            ram_size_code: 0,
            header_checksum: 0,
            rom_banks,
            ram_banks,
            rom: Seq::new(rom_banks * ROM_BANK_SIZE as nat, |i: int| 0u8),
            ram: Seq::new(ram_banks * RAM_BANK_SIZE as nat, |i: int| 0u8),
        }
    }

    /// The byte at `offset` of ROM bank `bank`, where there is one.
    pub open spec fn rom_byte(self, bank: nat, offset: nat) -> Option<u8> {
        if bank < self.rom_banks && offset < ROM_BANK_SIZE {
            Some(self.rom[bank * ROM_BANK_SIZE + offset])
        } else {
            None
        }
    }

    /// The byte at `offset` of RAM bank `bank`, where there is one.
    pub open spec fn ram_byte(self, bank: nat, offset: nat) -> Option<u8> {
        if bank < self.ram_banks && offset < RAM_BANK_SIZE {
            Some(self.ram[bank * RAM_BANK_SIZE + offset])
        } else {
            None
        }
    }

    /// The cartridge after `value` was written to `offset` of RAM bank
    /// `bank`; a write outside the RAM changes nothing.
    pub open spec fn with_ram_byte(self, bank: nat, offset: nat, value: u8) -> CartridgeContents {
        if bank < self.ram_banks && offset < RAM_BANK_SIZE {
            CartridgeContents { ram: self.ram.update(bank * RAM_BANK_SIZE + offset, value), ..self }
        } else {
            self
        }
    }
}

/// What the loader makes of an image: the cartridge, or the first check
/// that the image fails. The checks run in this order: the image has its
/// two ROM banks; the title is text and the header checksum matches; the
/// cartridge type is known; it is ROM only; the RAM size is known.
pub open spec fn load_outcome(image: Seq<u8>) -> Result<CartridgeContents, CartridgeError> {
    if image.len() < MINIMUM_IMAGE {
        Err(CartridgeError::IoFailure)
    } else if !has_title(title_field(image)) || header_checksum_of(image)
        != image[CHECKSUM_AT as int] {
        Err(CartridgeError::CorruptCartridge)
    } else {
        match mapper_of(image[CARTRIDGE_TYPE_AT as int]) {
            None => Err(CartridgeError::InvalidCartridgeType),
            Some(MapperKind::RomOnly) => match ram_banks_of(image[RAM_SIZE_AT as int]) {
                None => Err(CartridgeError::InvalidCartridgeType),
                Some(ram_banks) => Ok(
                    CartridgeContents {
                        title: title_of(title_field(image)),
                        cartridge_type: image[CARTRIDGE_TYPE_AT as int],
                        rom_size_code: image[ROM_SIZE_AT as int],
                        ram_size_code: image[RAM_SIZE_AT as int],
                        header_checksum: image[CHECKSUM_AT as int],
                        rom_banks: PLAIN_ROM_BANKS as nat,
                        ram_banks: ram_banks as nat,
                        rom: image.take(MINIMUM_IMAGE as int),
                        ram: Seq::new(ram_banks as nat * RAM_BANK_SIZE as nat, |i: int| 0u8),
                    },
                ),
            },
            Some(_) => Err(CartridgeError::UnsupportedMapper),
        }
    }
}

/// The mapper that a cartridge-type byte names, if the code is known.
pub fn mapper_kind(code: u8) -> (kind: Option<MapperKind>)
    ensures
        kind == mapper_of(code),
{
    match code {
        0x00 => Some(MapperKind::RomOnly),
        0x01 | 0x02 | 0x03 => Some(MapperKind::Mbc1),
        0x05 | 0x06 => Some(MapperKind::Mbc2),
        0x08 | 0x09 => Some(MapperKind::RomRam),
        0x0B | 0x0C | 0x0D => Some(MapperKind::Mmm01),
        0x0F | 0x10 | 0x11 | 0x12 | 0x13 => Some(MapperKind::Mbc3),
        0x19 | 0x1A | 0x1B | 0x1C | 0x1D | 0x1E => Some(MapperKind::Mbc5),
        0x20 => Some(MapperKind::Mbc6),
        0x22 => Some(MapperKind::Mbc7),
        0xFC => Some(MapperKind::PocketCamera),
        0xFD => Some(MapperKind::BandaiTama5),
        0xFE => Some(MapperKind::HuC3),
        0xFF => Some(MapperKind::HuC1),
        _ => None,
    }
}

/// The number of RAM banks that a RAM-size code declares, if the code is
/// known.
pub fn ram_bank_count(code: u8) -> (banks: Option<usize>)
    ensures
        banks == ram_banks_of(code),
{
    match code {
        0x00 | 0x01 => Some(0),
        0x02 => Some(1),
        0x03 => Some(4),
        0x04 => Some(16),
        0x05 => Some(8),
        _ => None,
    }
}

/// Adds up the header checksum of an image.
pub fn header_checksum(image: &[u8]) -> (checksum: u8)
    requires
        image@.len() >= CHECKSUM_FIRST + CHECKSUM_SPAN,
    ensures
        checksum == header_checksum_of(image@),
{
    let mut checksum: u8 = 0;
    let mut count: usize = 0;
    while count < CHECKSUM_SPAN
        invariant
            count <= CHECKSUM_SPAN,
            image@.len() >= CHECKSUM_FIRST + CHECKSUM_SPAN,
            checksum == rolling_checksum(image@, CHECKSUM_FIRST as int, count as nat),
        decreases CHECKSUM_SPAN - count,
    {
        checksum = checksum.wrapping_sub(image[CHECKSUM_FIRST + count]).wrapping_sub(1);
        count = count + 1;
    }
    checksum
}

/// Measures the title of an image: the length of its text, or `None` where
/// the title field is no text padded with zero bytes.
pub fn title_length(image: &[u8]) -> (length: Option<usize>)
    requires
        image@.len() >= TITLE_END,
    ensures
        length is Some <==> has_title(title_field(image@)),
        length matches Some(n) ==> is_title(title_field(image@), n as int),
{
    let ghost field = title_field(image@);
    let mut length: usize = 0;
    while length < TITLE_END - TITLE_START && image[TITLE_START + length] != 0
        invariant
            length <= TITLE_END - TITLE_START,
            image@.len() >= TITLE_END,
            field == title_field(image@),
            forall|i: int| 0 <= i < length ==> is_printable(#[trigger] field[i]),
        decreases TITLE_END - TITLE_START - length,
    {
        let byte = image[TITLE_START + length];
        if byte < 0x20 || byte > 0x7E {
            proof {
                lemma_no_title(field, length as int);
            }
            return None;
        }
        length = length + 1;
    }
    assert(length < TITLE_END - TITLE_START ==> field[length as int] == 0);
    let mut at: usize = length;
    while at < TITLE_END - TITLE_START
        invariant
            length <= at <= TITLE_END - TITLE_START,
            image@.len() >= TITLE_END,
            field == title_field(image@),
            length < TITLE_END - TITLE_START ==> field[length as int] == 0,
            forall|i: int| 0 <= i < length ==> is_printable(#[trigger] field[i]),
            forall|i: int| length <= i < at ==> #[trigger] field[i] == 0,
        decreases TITLE_END - TITLE_START - at,
    {
        if image[TITLE_START + at] != 0 {
            proof {
                assert(field[at as int] != 0);
                assert(0 <= length < at && field[length as int] == 0);
                lemma_no_title(field, at as int);
            }
            return None;
        }
        at = at + 1;
    }
    assert(is_title(field, length as int));
    Some(length)
}

/// A field with a byte that is neither printable nor zero, or with a byte
/// other than zero after a zero byte, has no title.
proof fn lemma_no_title(field: Seq<u8>, at: int)
    requires
        0 <= at < field.len(),
        field[at] != 0,
        !is_printable(field[at]) || exists|before: int| 0 <= before < at && field[before] == 0,
    ensures
        !has_title(field),
{
    assert forall|length: int| !is_title(field, length) by {
        if is_title(field, length) {
            if !is_printable(field[at]) {
                assert(length <= at);
            } else {
                let before = choose|before: int| 0 <= before < at && field[before] == 0;
                assert(!is_printable(field[before]));
                assert(length <= before);
            }
        }
    }
}

/// A title field has one length only.
pub proof fn lemma_title_length_is_unique(field: Seq<u8>, first: int, second: int)
    requires
        is_title(field, first),
        is_title(field, second),
    ensures
        first == second,
{
    if first < second {
        assert(is_printable(field[first]));
    } else if second < first {
        assert(is_printable(field[second]));
    }
}

/// A place in a bank lies within the banks: with `bank` below `banks` and
/// `offset` below `size`, the place `bank * size + offset` is below
/// `banks * size`.
proof fn lemma_place_is_in_range(bank: usize, offset: usize, banks: usize, size: usize)
    requires
        bank < banks,
        offset < size,
    ensures
        bank * size + offset < banks * size,
{
    assert((bank + 1) * size <= banks * size) by (nonlinear_arith)
        requires
            bank + 1 <= banks,
    ;
    assert((bank + 1) * size == bank * size + size) by (nonlinear_arith);
}

/// A cartridge: header metadata, ROM banks that never change, and RAM banks.
pub struct Cartridge {
    title: Vec<u8>,
    cartridge_type: u8,
    rom_size_code: u8,
    ram_size_code: u8,
    header_checksum: u8,
    rom_banks: usize,
    ram_banks: usize,
    rom: Vec<u8>,
    ram: Vec<u8>,
}

impl View for Cartridge {
    type V = CartridgeContents;

    closed spec fn view(&self) -> CartridgeContents {
        CartridgeContents {
            title: self.title@,
            cartridge_type: self.cartridge_type,
            rom_size_code: self.rom_size_code,
            ram_size_code: self.ram_size_code,
            header_checksum: self.header_checksum,
            rom_banks: self.rom_banks as nat,
            ram_banks: self.ram_banks as nat,
            rom: self.rom@,
            ram: self.ram@,
        }
    }
}

impl Cartridge {
    #[verifier::type_invariant]
    spec fn well_formed(self) -> bool {
        self@.wf()
    }

    /// A cartridge of `rom_banks` ROM banks and `ram_banks` RAM banks, all
    /// zeroed, with no title.
    pub fn new(rom_banks: usize, ram_banks: usize) -> (cartridge: Cartridge)
        requires
            2 <= rom_banks <= 512,
            ram_banks <= 16,
        ensures
            cartridge@ == CartridgeContents::zeroed(rom_banks as nat, ram_banks as nat),
            cartridge@.wf(),
    {
        let rom: Vec<u8> = vec![0u8; rom_banks * ROM_BANK_SIZE];
        let ram: Vec<u8> = vec![0u8; ram_banks * RAM_BANK_SIZE];
        let cartridge = Cartridge {
            title: Vec::new(),
            cartridge_type: 0,
            rom_size_code: 0,
            ram_size_code: 0,
            header_checksum: 0,
            rom_banks,
            ram_banks,
            rom,
            ram,
        };
        proof {
            let zeroed = CartridgeContents::zeroed(rom_banks as nat, ram_banks as nat);
            assert(cartridge@.title =~= zeroed.title);
            assert(cartridge@.rom =~= zeroed.rom);
            assert(cartridge@.ram =~= zeroed.ram);
        }
        cartridge
    }

    /// Reads a cartridge out of an image: checks the header and keeps the
    /// metadata and the two ROM banks. The memory bus is not involved.
    pub fn from_bytes(image: &[u8]) -> (result: Result<Cartridge, CartridgeError>)
        ensures
            result is Ok <==> load_outcome(image@) is Ok,
            match result {
                Ok(cartridge) => cartridge@ == load_outcome(image@)->Ok_0 && cartridge@.wf(),
                Err(error) => error == load_outcome(image@)->Err_0,
            },
    {
        if image.len() < MINIMUM_IMAGE {
            return Err(CartridgeError::IoFailure);
        }
        let length = match title_length(image) {
            Some(length) => length,
            None => {
                return Err(CartridgeError::CorruptCartridge);
            },
        };
        if header_checksum(image) != image[CHECKSUM_AT] {
            return Err(CartridgeError::CorruptCartridge);
        }
        match mapper_kind(image[CARTRIDGE_TYPE_AT]) {
            None => {
                return Err(CartridgeError::InvalidCartridgeType);
            },
            Some(MapperKind::RomOnly) => {},
            Some(_) => {
                return Err(CartridgeError::UnsupportedMapper);
            },
        }
        let ram_banks = match ram_bank_count(image[RAM_SIZE_AT]) {
            Some(banks) => banks,
            None => {
                return Err(CartridgeError::InvalidCartridgeType);
            },
        };
        let title = slice_to_vec(slice_subrange(image, TITLE_START, TITLE_START + length));
        let rom = slice_to_vec(slice_subrange(image, 0, MINIMUM_IMAGE));
        let ram: Vec<u8> = vec![0u8; ram_banks * RAM_BANK_SIZE];
        let cartridge = Cartridge {
            title,
            cartridge_type: image[CARTRIDGE_TYPE_AT],
            rom_size_code: image[ROM_SIZE_AT],
            ram_size_code: image[RAM_SIZE_AT],
            header_checksum: image[CHECKSUM_AT],
            rom_banks: PLAIN_ROM_BANKS,
            ram_banks,
            rom,
            ram,
        };
        proof {
            let field = title_field(image@);
            let chosen = choose|n: int| is_title(field, n);
            lemma_title_length_is_unique(field, length as int, chosen);
            let expected = load_outcome(image@)->Ok_0;
            assert(cartridge@.title =~= expected.title);
            assert(cartridge@.rom =~= expected.rom);
            assert(cartridge@.ram =~= expected.ram);
        }
        Ok(cartridge)
    }

    /// The title, without its padding.
    pub fn title(&self) -> (title: &Vec<u8>)
        ensures
            title@ == self@.title,
    {
        &self.title
    }

    /// The cartridge-type byte of the header.
    pub fn cartridge_type(&self) -> (code: u8)
        ensures
            code == self@.cartridge_type,
    {
        self.cartridge_type
    }

    /// The ROM-size code of the header.
    pub fn rom_size_code(&self) -> (code: u8)
        ensures
            code == self@.rom_size_code,
    {
        self.rom_size_code
    }

    /// The RAM-size code of the header.
    pub fn ram_size_code(&self) -> (code: u8)
        ensures
            code == self@.ram_size_code,
    {
        self.ram_size_code
    }

    /// The header checksum as the header stores it.
    pub fn header_checksum(&self) -> (checksum: u8)
        ensures
            checksum == self@.header_checksum,
    {
        self.header_checksum
    }

    /// The number of ROM banks.
    pub fn rom_banks(&self) -> (banks: usize)
        ensures
            banks == self@.rom_banks,
            2 <= banks <= 512,
    {
        proof {
            use_type_invariant(self);
        }
        self.rom_banks
    }

    /// The number of RAM banks.
    pub fn ram_banks(&self) -> (banks: usize)
        ensures
            banks == self@.ram_banks,
            banks <= 16,
    {
        proof {
            use_type_invariant(self);
        }
        self.ram_banks
    }

    /// Reads the byte at `offset` of ROM bank `bank`; `None` outside the ROM.
    pub fn read_rom(&self, bank: usize, offset: usize) -> (byte: Option<u8>)
        ensures
            byte == self@.rom_byte(bank as nat, offset as nat),
    {
        proof {
            use_type_invariant(self);
        }
        if bank < self.rom_banks && offset < ROM_BANK_SIZE {
            assert(bank * ROM_BANK_SIZE + offset < self.rom_banks * ROM_BANK_SIZE) by {
                lemma_place_is_in_range(bank, offset, self.rom_banks, ROM_BANK_SIZE);
            }
            Some(self.rom[bank * ROM_BANK_SIZE + offset])
        } else {
            None
        }
    }

    /// Reads the byte at `offset` of RAM bank `bank`; `None` outside the RAM.
    pub fn read_ram(&self, bank: usize, offset: usize) -> (byte: Option<u8>)
        ensures
            byte == self@.ram_byte(bank as nat, offset as nat),
    {
        proof {
            use_type_invariant(self);
        }
        if bank < self.ram_banks && offset < RAM_BANK_SIZE {
            assert(bank * RAM_BANK_SIZE + offset < self.ram_banks * RAM_BANK_SIZE) by {
                lemma_place_is_in_range(bank, offset, self.ram_banks, RAM_BANK_SIZE);
            }
            Some(self.ram[bank * RAM_BANK_SIZE + offset])
        } else {
            None
        }
    }

    /// Writes `value` to `offset` of RAM bank `bank` and tells whether the
    /// place exists; a write outside the RAM changes nothing.
    pub fn write_ram(&mut self, bank: usize, offset: usize, value: u8) -> (stored: bool)
        ensures
            final(self)@ == old(self)@.with_ram_byte(bank as nat, offset as nat, value),
            stored <==> bank < old(self)@.ram_banks && offset < RAM_BANK_SIZE,
    {
        proof {
            use_type_invariant(&*self);
        }
        if bank < self.ram_banks && offset < RAM_BANK_SIZE {
            assert(bank * RAM_BANK_SIZE + offset < self.ram_banks * RAM_BANK_SIZE) by {
                lemma_place_is_in_range(bank, offset, self.ram_banks, RAM_BANK_SIZE);
            }
            self.ram[bank * RAM_BANK_SIZE + offset] = value;
            true
        } else {
            false
        }
    }
}

/// Loads a cartridge image: checks it, and where it is accepted maps its
/// ROM onto the bus. An image that is not accepted leaves the bus untouched.
pub fn load(bus: &mut MemoryBus, image: &[u8]) -> (result: Result<Cartridge, CartridgeError>)
    ensures
        result is Ok <==> load_outcome(image@) is Ok,
        match result {
            Ok(cartridge) => {
                &&& cartridge@ == load_outcome(image@)->Ok_0
                &&& cartridge@.wf()
                &&& final(bus)@ == old(bus)@.with_rom(image@)
            },
            Err(error) => {
                &&& error == load_outcome(image@)->Err_0
                &&& final(bus)@ == old(bus)@
            },
        },
        image@.len() >= MINIMUM_IMAGE && header_checksum_of(image@) != image@[CHECKSUM_AT as int]
            ==> result is Err && result->Err_0 == CartridgeError::CorruptCartridge && final(bus)@
            == old(bus)@,
{
    match Cartridge::from_bytes(image) {
        Ok(cartridge) => {
            bus.insert_cartridge(image);
            Ok(cartridge)
        },
        Err(error) => Err(error),
    }
}

/// An image of full length whose header checksum does not match is corrupt,
/// whatever else it holds.
pub proof fn lemma_checksum_mismatch_is_corrupt(image: Seq<u8>)
    requires
        image.len() >= MINIMUM_IMAGE,
        header_checksum_of(image) != image[CHECKSUM_AT as int],
    ensures
        load_outcome(image) is Err,
        load_outcome(image)->Err_0 == CartridgeError::CorruptCartridge,
{
}

/// Every cartridge that the loader accepts is ROM only, has its two ROM
/// banks and bank counts in range.
pub proof fn lemma_accepted_is_well_formed(image: Seq<u8>)
    requires
        load_outcome(image) is Ok,
    ensures
        load_outcome(image)->Ok_0.wf(),
        mapper_of(load_outcome(image)->Ok_0.cartridge_type) == Some(MapperKind::RomOnly),
        load_outcome(image)->Ok_0.header_checksum == header_checksum_of(image),
{
}

} // verus!
