//! The cartridge: ROM, battery-backed RAM and the bank controller that maps
//! them into the lower part of the address space.

use vstd::prelude::*;

verus! {

/// Size of one ROM bank.
pub const ROM_BANK_SIZE: usize = 0x4000;

/// Size of one bank of cartridge RAM.
pub const RAM_BANK_SIZE: usize = 0x2000;

/// What a read returns where nothing is mapped.
pub const OPEN_BUS: u8 = 0xFF;

/// The value that, written to the enable range, switches cartridge RAM on.
pub const RAM_ENABLE: u8 = 0x0A;

/// Offset of the three header bytes that identify the supported image.
pub const HEADER_COLOR_FLAG: usize = 0x143;

pub const HEADER_CARTRIDGE_TYPE: usize = 0x147;

pub const HEADER_RAM_SIZE: usize = 0x149;

/// The mathematical content of a cartridge.
pub struct CartridgeModel {
    pub rom: Seq<u8>,
    pub ram: Seq<u8>,
    pub ram_enabled: bool,
    pub advanced: bool,
    pub rom_bank: nat,
    pub ram_bank: nat,
}

impl CartridgeModel {
    pub open spec fn rom_banks(self) -> nat {
        self.rom.len() / 0x4000
    }

    pub open spec fn ram_banks(self) -> nat {
        self.ram.len() / 0x2000
    }

    /// ROM is two or more whole banks, RAM is any number of whole banks, and
    /// both bank indices select a bank that exists.
    pub open spec fn wf(self) -> bool {
        &&& self.rom.len() >= 0x8000
        &&& self.rom.len() % 0x4000 == 0
        &&& self.ram.len() % 0x2000 == 0
        &&& self.rom_bank < self.rom_banks()
        &&& (self.ram_bank < self.ram_banks() || self.ram_bank == 0)
    }

    /// The RAM bank that the window shows: the selected one in advanced
    /// mode, the first one in simple mode.
    pub open spec fn mapped_ram_bank(self) -> nat {
        if self.advanced { self.ram_bank } else { 0 }
    }

    /// Whether reads and writes in the RAM window reach storage.
    pub open spec fn ram_active(self) -> bool {
        self.ram_enabled && self.ram.len() > 0
    }

    /// Index into `rom` that `addr` (below 0x8000) resolves to.
    pub open spec fn rom_index(self, addr: u16) -> int {
        if addr < 0x4000 {
            addr as int
        } else {
            self.rom_bank * 0x4000 + (addr - 0x4000)
        }
    }

    /// Index into `ram` that `addr` (in 0xA000..0xC000) resolves to.
    pub open spec fn ram_index(self, addr: u16) -> int {
        self.mapped_ram_bank() * 0x2000 + (addr - 0xA000)
    }

    pub open spec fn read_rom(self, addr: u16) -> u8
        recommends
            addr < 0x8000,
    {
        self.rom[self.rom_index(addr)]
    }

    pub open spec fn read_ram(self, addr: u16) -> u8
        recommends
            0xA000 <= addr < 0xC000,
    {
        if self.ram_active() { self.ram[self.ram_index(addr)] } else { OPEN_BUS }
    }

    /// A write below 0x8000 reaches a register of the bank controller.
    pub open spec fn write_control(self, addr: u16, value: u8) -> CartridgeModel
        recommends
            addr < 0x8000,
    {
        if addr < 0x2000 {
            CartridgeModel { ram_enabled: value == RAM_ENABLE, ..self }
        } else if addr < 0x4000 {
            CartridgeModel { rom_bank: (value as nat) % self.rom_banks(), ..self }
        } else if addr < 0x6000 {
            CartridgeModel {
                ram_bank: if self.ram_banks() > 0 { (value as nat) % self.ram_banks() } else { 0 },
                ..self
            }
        } else {
            CartridgeModel { advanced: value % 2 == 1, ..self }
        }
    }

    pub open spec fn write_ram(self, addr: u16, value: u8) -> CartridgeModel
        recommends
            0xA000 <= addr < 0xC000,
    {
        if self.ram_active() {
            CartridgeModel { ram: self.ram.update(self.ram_index(addr), value), ..self }
        } else {
            self
        }
    }

    /// The cartridge with its RAM replaced as a whole.
    pub open spec fn with_ram(self, image: Seq<u8>) -> CartridgeModel {
        CartridgeModel { ram: image, ..self }
    }

    /// In a well-formed cartridge every ROM address resolves inside `rom`.
    pub proof fn lemma_rom_index_in_bounds(self, addr: u16)
        requires
            self.wf(),
            addr < 0x8000,
        ensures
            0 <= self.rom_index(addr) < self.rom.len(),
    {
        if addr >= 0x4000 {
            assert((self.rom_bank + 1) * 0x4000 <= self.rom_banks() * 0x4000) by (nonlinear_arith)
                requires
                    self.rom_bank < self.rom_banks(),
            ;
        }
    }

    /// With RAM active every address of the window resolves inside `ram`.
    pub proof fn lemma_ram_index_in_bounds(self, addr: u16)
        requires
            self.wf(),
            self.ram_active(),
            0xA000 <= addr < 0xC000,
        ensures
            0 <= self.ram_index(addr) < self.ram.len(),
    {
        assert(self.ram_banks() >= 1);
        assert(self.mapped_ram_bank() < self.ram_banks());
        assert((self.mapped_ram_bank() + 1) * 0x2000 <= self.ram_banks() * 0x2000)
            by (nonlinear_arith)
            requires
                self.mapped_ram_bank() < self.ram_banks(),
        ;
    }

    /// Writes keep a cartridge well-formed.
    pub proof fn lemma_write_control_wf(self, addr: u16, value: u8)
        requires
            self.wf(),
            addr < 0x8000,
        ensures
            self.write_control(addr, value).wf(),
    {
    }
}

/// Why an image was not accepted as a cartridge.
#[derive(Clone, Copy, Debug, PartialEq, Eq, Structural)]
pub enum CartridgeError {
    /// The image is shorter than two banks or not a whole number of banks.
    BadRomSize,
    /// The byte at 0x143 is not 0x80.
    BadColorFlag,
    /// The byte at 0x147 is not 0x1B.
    BadCartridgeType,
    /// The byte at 0x149 is not 0x03.
    BadRamSize,
}

/// Whether `rom` can be cut into two or more whole banks.
pub open spec fn rom_size_ok(rom: Seq<u8>) -> bool {
    rom.len() >= 0x8000 && rom.len() % 0x4000 == 0
}

/// The first reason, in the order of the checks, why `rom` is refused.
pub open spec fn image_fault(rom: Seq<u8>) -> Option<CartridgeError> {
    if !rom_size_ok(rom) {
        Some(CartridgeError::BadRomSize)
    } else if rom[0x143] != 0x80 {
        Some(CartridgeError::BadColorFlag)
    } else if rom[0x147] != 0x1B {
        Some(CartridgeError::BadCartridgeType)
    } else if rom[0x149] != 0x03 {
        Some(CartridgeError::BadRamSize)
    } else {
        None
    }
}

/// A cartridge with a bank controller and four banks of battery-backed RAM.
pub struct Mbc5 {
    rom: Vec<u8>,
    ram: Vec<u8>,
    ram_enabled: bool,
    advanced: bool,
    rom_bank: usize,
    ram_bank: usize,
}

impl View for Mbc5 {
    type V = CartridgeModel;

    closed spec fn view(&self) -> CartridgeModel {
        CartridgeModel {
            rom: self.rom@,
            ram: self.ram@,
            ram_enabled: self.ram_enabled,
            advanced: self.advanced,
            rom_bank: self.rom_bank as nat,
            ram_bank: self.ram_bank as nat,
        }
    }
}

impl Mbc5 {
    /// Checks the size of the image and its three header bytes.
    pub fn validate(rom: &Vec<u8>) -> (out: Result<(), CartridgeError>)
        ensures
            out == match image_fault(rom@) {
                Some(e) => Err::<(), CartridgeError>(e),
                None => Ok(()),
            },
    {
        if rom.len() < 0x8000 || rom.len() % ROM_BANK_SIZE != 0 {
            Err(CartridgeError::BadRomSize)
        } else if rom[HEADER_COLOR_FLAG] != 0x80 {
            Err(CartridgeError::BadColorFlag)
        } else if rom[HEADER_CARTRIDGE_TYPE] != 0x1B {
            Err(CartridgeError::BadCartridgeType)
        } else if rom[HEADER_RAM_SIZE] != 0x03 {
            Err(CartridgeError::BadRamSize)
        } else {
            Ok(())
        }
    }

    /// Builds the cartridge for an image that `validate` accepts: RAM is
    /// four zeroed banks and switched off, the mode is simple, ROM bank 1
    /// and RAM bank 0 are selected.
    pub fn new(rom: Vec<u8>) -> (out: Result<Mbc5, CartridgeError>)
        ensures
            match image_fault(rom@) {
                Some(e) => out == Err::<Mbc5, CartridgeError>(e),
                None => out matches Ok(c) && c@ == (CartridgeModel {
                    rom: rom@,
                    ram: Seq::new(0x8000, |i: int| 0u8),
                    ram_enabled: false,
                    advanced: false,
                    rom_bank: 1,
                    ram_bank: 0,
                }) && c@.wf(),
            },
    {
        match Mbc5::validate(&rom) {
            Err(e) => Err(e),
            Ok(()) => {
                let ram = zeroed(4 * RAM_BANK_SIZE);
                assert(ram@ =~= Seq::new(0x8000, |i: int| 0u8));
                Ok(Mbc5 { rom, ram, ram_enabled: false, advanced: false, rom_bank: 1, ram_bank: 0 })
            },
        }
    }

    /// Reads through the ROM windows.
    pub fn read_rom(&self, addr: u16) -> (out: u8)
        requires
            self@.wf(),
            addr < 0x8000,
        ensures
            out == self@.read_rom(addr),
    {
        proof {
            self@.lemma_rom_index_in_bounds(addr);
        }
        if addr < 0x4000 {
            self.rom[addr as usize]
        } else {
            let limit: usize = self.rom.len();
            assert(self.rom_bank * 0x4000 + (addr - 0x4000) < limit);
            self.rom[self.rom_bank * 0x4000 + (addr as usize - 0x4000)]
        }
    }

    /// Reads through the RAM window.
    pub fn read_ram(&self, addr: u16) -> (out: u8)
        requires
            self@.wf(),
            0xA000 <= addr < 0xC000,
        ensures
            out == self@.read_ram(addr),
    {
        if self.ram_enabled && self.ram.len() > 0 {
            proof {
                self@.lemma_ram_index_in_bounds(addr);
            }
            let bank: usize = if self.advanced { self.ram_bank } else { 0 };
            self.ram[bank * 0x2000 + (addr as usize - 0xA000)]
        } else {
            OPEN_BUS
        }
    }

    /// Writes a register of the bank controller.
    pub fn write_control(&mut self, addr: u16, value: u8)
        requires
            old(self)@.wf(),
            addr < 0x8000,
        ensures
            final(self)@ == old(self)@.write_control(addr, value),
            final(self)@.wf(),
    {
        if addr < 0x2000 {
            self.ram_enabled = value == RAM_ENABLE;
        } else if addr < 0x4000 {
            self.rom_bank = value as usize % (self.rom.len() / ROM_BANK_SIZE);
        } else if addr < 0x6000 {
            let banks: usize = self.ram.len() / RAM_BANK_SIZE;
            self.ram_bank = if banks > 0 { value as usize % banks } else { 0 };
        } else {
            self.advanced = value % 2 == 1;
        }
    }

    /// Writes through the RAM window.
    pub fn write_ram(&mut self, addr: u16, value: u8)
        requires
            old(self)@.wf(),
            0xA000 <= addr < 0xC000,
        ensures
            final(self)@ == old(self)@.write_ram(addr, value),
            final(self)@.wf(),
    {
        if self.ram_enabled && self.ram.len() > 0 {
            proof {
                self@.lemma_ram_index_in_bounds(addr);
            }
            let bank: usize = if self.advanced { self.ram_bank } else { 0 };
            self.ram.set(bank * 0x2000 + (addr as usize - 0xA000), value);
        }
    }

    /// Replaces the whole of cartridge RAM by `image` if it has the size of
    /// that RAM, and changes nothing otherwise.
    pub fn replace_ram(&mut self, image: Vec<u8>) -> (done: bool)
        requires
            old(self)@.wf(),
        ensures
            done == (image@.len() == old(self)@.ram.len()),
            done ==> final(self)@ == old(self)@.with_ram(image@),
            !done ==> final(self)@ == old(self)@,
            final(self)@.wf(),
    {
        if image.len() == self.ram.len() {
            self.ram = image;
            true
        } else {
            false
        }
    }

    /// A copy of the whole of cartridge RAM.
    pub fn dump_ram(&self) -> (out: Vec<u8>)
        ensures
            out@ == self@.ram,
    {
        copy_bytes(&self.ram)
    }
}

/// A vector of `len` zero bytes.
pub fn zeroed(len: usize) -> (out: Vec<u8>)
    ensures
        out@.len() == len,
        forall|i: int| 0 <= i < len ==> out@[i] == 0,
{
    let mut out: Vec<u8> = Vec::new();
    let mut i: usize = 0;
    while i < len
        invariant
            i <= len,
            out@.len() == i,
            forall|j: int| 0 <= j < i ==> out@[j] == 0,
        decreases len - i,
    {
        out.push(0);
        i += 1;
    }
    out
}

/// A vector with the bytes of `src`.
pub fn copy_bytes(src: &Vec<u8>) -> (out: Vec<u8>)
    ensures
        out@ == src@,
{
    let mut out: Vec<u8> = Vec::new();
    let mut i: usize = 0;
    while i < src.len()
        invariant
            i <= src.len(),
            out@ == src@.take(i as int),
        decreases src.len() - i,
    {
        out.push(src[i]);
        assert(src@.take(i as int).push(src@[i as int]) =~= src@.take(i + 1));
        i += 1;
    }
    assert(src@.take(src@.len() as int) =~= src@);
    out
}

} // verus!
