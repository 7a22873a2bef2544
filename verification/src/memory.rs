//! The memory bus: one 64 KiB address space, split into fixed regions with
//! their own rules for reads and writes.

use vstd::prelude::*;

verus! {

/// The number of addresses on the bus.
pub const ADDRESS_SPACE: usize = 0x1_0000;

/// The number of bytes of cartridge ROM that the bus shows: two banks.
pub const ROM_WINDOW: usize = 0x8000;

/// The distance from a working RAM address up to its echo.
pub const ECHO_OFFSET: u16 = 0x2000;

/// The byte that the unusable gap reads as.
pub const OPEN_BUS: u8 = 0xFF;

/// The region that owns an address.
#[derive(Clone, Copy, Debug, PartialEq, Eq, Structural)]
pub enum Region {
    /// 0x0000..=0x3FFF: cartridge ROM, bank 0.
    RomBank0,
    /// 0x4000..=0x7FFF: cartridge ROM, the switchable bank.
    RomBankN,
    /// 0x8000..=0x9FFF: video RAM.
    VideoRam,
    /// 0xA000..=0xBFFF: cartridge RAM.
    ExternalRam,
    /// 0xC000..=0xDFFF: working RAM.
    WorkRam,
    /// 0xE000..=0xFDFF: the echo of working RAM.
    EchoRam,
    /// 0xFE00..=0xFE9F: object memory.
    ObjectMemory,
    /// 0xFEA0..=0xFEFF: not usable.
    Unusable,
    /// 0xFF00..=0xFF7F: I/O registers.
    IoRegisters,
    /// 0xFF80..=0xFFFE: high RAM.
    HighRam,
    /// 0xFFFF: the interrupt-enable register.
    InterruptEnable,
}

impl Region {
    /// The region that owns `address`.
    pub open spec fn of(address: u16) -> Region {
        if address <= 0x3FFF {
            Region::RomBank0
        } else if address <= 0x7FFF {
            Region::RomBankN
        } else if address <= 0x9FFF {
            Region::VideoRam
        } else if address <= 0xBFFF {
            Region::ExternalRam
        } else if address <= 0xDFFF {
            Region::WorkRam
        } else if address <= 0xFDFF {
            Region::EchoRam
        } else if address <= 0xFE9F {
            Region::ObjectMemory
        } else if address <= 0xFEFF {
            Region::Unusable
        } else if address <= 0xFF7F {
            Region::IoRegisters
        } else if address <= 0xFFFE {
            Region::HighRam
        } else {
            Region::InterruptEnable
        }
    }

    /// Whether the region is cartridge ROM.
    pub open spec fn is_rom(self) -> bool {
        self == Region::RomBank0 || self == Region::RomBankN
    }
}

/// The region that owns `address`.
pub fn region_of(address: u16) -> (region: Region)
    ensures
        region == Region::of(address),
{
    if address <= 0x3FFF {
        Region::RomBank0
    } else if address <= 0x7FFF {
        Region::RomBankN
    } else if address <= 0x9FFF {
        Region::VideoRam
    } else if address <= 0xBFFF {
        Region::ExternalRam
    } else if address <= 0xDFFF {
        Region::WorkRam
    } else if address <= 0xFDFF {
        Region::EchoRam
    } else if address <= 0xFE9F {
        Region::ObjectMemory
    } else if address <= 0xFEFF {
        Region::Unusable
    } else if address <= 0xFF7F {
        Region::IoRegisters
    } else if address <= 0xFFFE {
        Region::HighRam
    } else {
        Region::InterruptEnable
    }
}

/// The address whose storage answers for `address`: an echo address stands
/// for the working RAM address below it, every other address for itself.
pub open spec fn home(address: u16) -> u16 {
    if Region::of(address) == Region::EchoRam {
        (address - ECHO_OFFSET) as u16
    } else {
        address
    }
}

/// What the bus holds: the byte that each address reads as, and whether a
/// cartridge is inserted.
pub struct Memory {
    pub cells: Seq<u8>,
    pub cartridge_inserted: bool,
}

impl Memory {
    /// Every address has a byte, the echo shows working RAM and the unusable
    /// gap shows the open-bus byte.
    pub open spec fn wf(self) -> bool {
        &&& self.cells.len() == ADDRESS_SPACE
        &&& forall|address: u16| #[trigger]
            self.cells[address as int] == if Region::of(address) == Region::Unusable {
                OPEN_BUS
            } else {
                self.cells[home(address) as int]
            }
    }

    /// A bus with no cartridge and every cell at zero.
    pub open spec fn blank() -> Memory {
        Memory {
            cells: Seq::new(
                ADDRESS_SPACE as nat,
                |address: int|
                    if Region::of(address as u16) == Region::Unusable {
                        OPEN_BUS
                    } else {
                        0u8
                    },
            ),
            cartridge_inserted: false,
        }
    }

    /// The byte that `address` reads as.
    pub open spec fn read(self, address: u16) -> u8 {
        self.cells[address as int]
    }

    /// Whether a write to `address` is stored: the unusable gap ignores
    /// writes, and so does cartridge ROM once a cartridge is inserted.
    pub open spec fn accepts_write(self, address: u16) -> bool {
        &&& Region::of(address) != Region::Unusable
        &&& !(self.cartridge_inserted && Region::of(address).is_rom())
    }

    /// The bus after a write of `value` to `address`: where the write is
    /// stored, every address with the same home reads `value` and every
    /// other address reads what it did.
    pub open spec fn write(self, address: u16, value: u8) -> Memory {
        if self.accepts_write(address) {
            Memory {
                cells: Seq::new(
                    ADDRESS_SPACE as nat,
                    |other: int|
                        if home(other as u16) == home(address) {
                            value
                        } else {
                            self.cells[other]
                        },
                ),
                cartridge_inserted: self.cartridge_inserted,
            }
        } else {
            self
        }
    }

    /// The bus after a cartridge whose ROM starts with `rom` was inserted:
    /// the ROM window shows the first two banks of `rom`, the rest of the
    /// bus is as it was.
    pub open spec fn with_rom(self, rom: Seq<u8>) -> Memory {
        Memory {
            cells: Seq::new(
                ADDRESS_SPACE as nat,
                |address: int|
                    if address < ROM_WINDOW {
                        rom[address]
                    } else {
                        self.cells[address]
                    },
            ),
            cartridge_inserted: true,
        }
    }
}

/// The memory bus.
///
/// Until a cartridge is inserted the ROM window is plain storage; from then
/// on it is read-only.
pub struct MemoryBus {
    cells: Box<[u8; 0x1_0000]>,
    cartridge_inserted: bool,
}

impl View for MemoryBus {
    type V = Memory;

    closed spec fn view(&self) -> Memory {
        Memory {
            cells: Seq::new(
                ADDRESS_SPACE as nat,
                |address: int|
                    if Region::of(address as u16) == Region::Unusable {
                        OPEN_BUS
                    } else {
                        self.cells@[home(address as u16) as int]
                    },
            ),
            cartridge_inserted: self.cartridge_inserted,
        }
    }
}

impl MemoryBus {
    /// A bus with no cartridge and every cell at zero.
    pub fn new() -> (bus: MemoryBus)
        ensures
            bus@ == Memory::blank(),
    {
        let bus = MemoryBus { cells: Box::new([0u8; 0x1_0000]), cartridge_inserted: false };
        assert(bus@.cells =~= Memory::blank().cells);
        bus
    }

    /// Reads the byte at `address`.
    pub fn read(&self, address: u16) -> (value: u8)
        ensures
            value == self@.read(address),
    {
        match region_of(address) {
            Region::Unusable => OPEN_BUS,
            Region::EchoRam => self.cells[(address - ECHO_OFFSET) as usize],
            _ => self.cells[address as usize],
        }
    }

    /// Writes `value` to `address`, unless the address ignores writes.
    pub fn write(&mut self, address: u16, value: u8)
        ensures
            final(self)@ == old(self)@.write(address, value),
    {
        let region = region_of(address);
        match region {
            Region::Unusable => {},
            Region::RomBank0 | Region::RomBankN => {
                if !self.cartridge_inserted {
                    self.cells[address as usize] = value;
                }
            },
            Region::EchoRam => {
                self.cells[(address - ECHO_OFFSET) as usize] = value;
            },
            _ => {
                self.cells[address as usize] = value;
            },
        }
        assert(self@.cells =~= old(self)@.write(address, value).cells);
    }

    /// Whether a cartridge is inserted.
    pub fn has_cartridge(&self) -> (inserted: bool)
        ensures
            inserted == self@.cartridge_inserted,
    {
        self.cartridge_inserted
    }

    /// Inserts a cartridge: maps the first two banks of its ROM into the ROM
    /// window, which is read-only from now on.
    pub fn insert_cartridge(&mut self, rom: &[u8])
        requires
            rom@.len() >= ROM_WINDOW,
        ensures
            final(self)@ == old(self)@.with_rom(rom@),
    {
        let mut address: usize = 0;
        while address < ROM_WINDOW
            invariant
                address <= ROM_WINDOW,
                rom@.len() >= ROM_WINDOW,
                self.cartridge_inserted == old(self).cartridge_inserted,
                forall|i: int| 0 <= i < address ==> self.cells@[i] == rom@[i],
                forall|i: int|
                    address <= i < ADDRESS_SPACE ==> self.cells@[i] == old(self).cells@[i],
            decreases ROM_WINDOW - address,
        {
            self.cells[address] = rom[address];
            address = address + 1;
        }
        self.cartridge_inserted = true;
        assert(self@.cells =~= old(self)@.with_rom(rom@).cells);
    }
}

/// What a bus holds is well formed.
pub proof fn lemma_bus_is_well_formed(bus: MemoryBus)
    ensures
        bus@.wf(),
{
}

/// A write keeps the bus well formed.
pub proof fn lemma_write_keeps_well_formed(memory: Memory, address: u16, value: u8)
    requires
        memory.wf(),
    ensures
        memory.write(address, value).wf(),
{
    let after = memory.write(address, value);
    assert forall|other: u16| #[trigger]
        after.cells[other as int] == if Region::of(other) == Region::Unusable {
            OPEN_BUS
        } else {
            after.cells[home(other) as int]
        } by {
        let _ = memory.cells[other as int];
    }
}

/// A write that is stored reads back; one that is ignored changes nothing.
pub proof fn lemma_read_after_write(memory: Memory, address: u16, value: u8)
    ensures
        memory.accepts_write(address) ==> memory.write(address, value).read(address) == value,
        !memory.accepts_write(address) ==> memory.write(address, value) == memory,
{
}

/// The unusable gap reads as the open-bus byte, whatever was written.
pub proof fn lemma_unusable_reads_open_bus(memory: Memory, address: u16)
    requires
        memory.wf(),
        Region::of(address) == Region::Unusable,
    ensures
        memory.read(address) == OPEN_BUS,
        forall|target: u16, value: u8| #[trigger]
            memory.write(target, value).read(address) == OPEN_BUS,
{
    let _ = memory.cells[address as int];
}

/// A write leaves every address with another home as it was.
pub proof fn lemma_write_leaves_others(memory: Memory, address: u16, value: u8, other: u16)
    requires
        home(other) != home(address),
    ensures
        memory.write(address, value).read(other) == memory.read(other),
{
}

/// Working RAM and its echo are one storage: a byte written to a working
/// RAM address that has an echo reads back `ECHO_OFFSET` above it, and a
/// byte written to the echo reads back in working RAM.
pub proof fn lemma_echo_aliases_work_ram(memory: Memory, address: u16, value: u8)
    requires
        0xC000 <= address <= 0xDDFF,
    ensures
        memory.write(address, value).read((address + ECHO_OFFSET) as u16) == value,
        memory.write((address + ECHO_OFFSET) as u16, value).read(address) == value,
{
}

/// After a cartridge was inserted the ROM window shows its ROM byte for
/// byte, and the rest of the bus is as it was.
pub proof fn lemma_rom_window_shows_rom(memory: Memory, rom: Seq<u8>, address: u16)
    ensures
        address < ROM_WINDOW ==> memory.with_rom(rom).read(address) == rom[address as int],
        address >= ROM_WINDOW ==> memory.with_rom(rom).read(address) == memory.read(address),
        memory.wf() ==> memory.with_rom(rom).wf(),
{
    if memory.wf() {
        let after = memory.with_rom(rom);
        assert forall|other: u16| #[trigger]
            after.cells[other as int] == if Region::of(other) == Region::Unusable {
                OPEN_BUS
            } else {
                after.cells[home(other) as int]
            } by {
            let _ = memory.cells[other as int];
        }
    }
}

/// A cartridge makes the ROM window read-only: after it was inserted, a
/// write to cartridge ROM changes nothing.
pub proof fn lemma_inserted_rom_is_read_only(memory: Memory, rom: Seq<u8>, address: u16, value: u8)
    requires
        Region::of(address).is_rom(),
    ensures
        memory.with_rom(rom).write(address, value) == memory.with_rom(rom),
{
}

} // verus!
