//! The memory map: one flat 16-bit address space over the cartridge and the
//! console's own memories.

use vstd::prelude::*;
use crate::mbc5::{CartridgeError, CartridgeModel, Mbc5, image_fault, zeroed, OPEN_BUS, RAM_ENABLE};

verus! {

/// The windows of the address space. They are disjoint and cover it.
#[derive(Clone, Copy, Debug, PartialEq, Eq, Structural)]
pub enum Region {
    /// 0x0000..0x8000: ROM on reads, bank-controller registers on writes.
    Rom,
    /// 0x8000..0xA000
    VideoRam,
    /// 0xA000..0xC000: the banked cartridge RAM.
    ExternalRam,
    /// 0xC000..0xE000
    WorkRam,
    /// 0xFE00..0xFEA0
    Oam,
    /// 0xFF00..0xFF80
    Io,
    /// 0xFF80..0xFFFF
    HighRam,
    /// 0xFFFF
    InterruptEnable,
    /// 0xE000..0xFE00 and 0xFEA0..0xFF00: nothing is mapped.
    Unmapped,
}

/// The window that `addr` lies in.
pub open spec fn region_of(addr: u16) -> Region {
    if addr < 0x8000 {
        Region::Rom
    } else if addr < 0xA000 {
        Region::VideoRam
    } else if addr < 0xC000 {
        Region::ExternalRam
    } else if addr < 0xE000 {
        Region::WorkRam
    } else if addr < 0xFE00 {
        Region::Unmapped
    } else if addr < 0xFEA0 {
        Region::Oam
    } else if addr < 0xFF00 {
        Region::Unmapped
    } else if addr < 0xFF80 {
        Region::Io
    } else if addr < 0xFFFF {
        Region::HighRam
    } else {
        Region::InterruptEnable
    }
}

/// The mathematical content of the memory subsystem.
pub struct MemoryModel {
    pub cart: CartridgeModel,
    pub vram: Seq<u8>,
    pub wram: Seq<u8>,
    pub oam: Seq<u8>,
    pub io: Seq<u8>,
    pub hram: Seq<u8>,
    pub ie: u8,
}

impl MemoryModel {
    pub open spec fn wf(self) -> bool {
        &&& self.cart.wf()
        &&& self.vram.len() == 0x2000
        &&& self.wram.len() == 0x2000
        &&& self.oam.len() == 0xA0
        &&& self.io.len() == 0x80
        &&& self.hram.len() == 0x7F
    }

    /// The byte that a read of `addr` returns.
    pub open spec fn read(self, addr: u16) -> u8 {
        match region_of(addr) {
            Region::Rom => self.cart.read_rom(addr),
            Region::VideoRam => self.vram[addr - 0x8000],
            Region::ExternalRam => self.cart.read_ram(addr),
            Region::WorkRam => self.wram[addr - 0xC000],
            Region::Oam => self.oam[addr - 0xFE00],
            Region::Io => self.io[addr - 0xFF00],
            Region::HighRam => self.hram[addr - 0xFF80],
            Region::InterruptEnable => self.ie,
            Region::Unmapped => OPEN_BUS,
        }
    }

    /// The memory after a write of `value` to `addr`.
    pub open spec fn write(self, addr: u16, value: u8) -> MemoryModel {
        match region_of(addr) {
            Region::Rom => MemoryModel { cart: self.cart.write_control(addr, value), ..self },
            Region::VideoRam => MemoryModel {
                vram: self.vram.update(addr - 0x8000, value),
                ..self
            },
            Region::ExternalRam => MemoryModel { cart: self.cart.write_ram(addr, value), ..self },
            Region::WorkRam => MemoryModel {
                wram: self.wram.update(addr - 0xC000, value),
                ..self
            },
            Region::Oam => MemoryModel { oam: self.oam.update(addr - 0xFE00, value), ..self },
            Region::Io => MemoryModel { io: self.io.update(addr - 0xFF00, value), ..self },
            Region::HighRam => MemoryModel {
                hram: self.hram.update(addr - 0xFF80, value),
                ..self
            },
            Region::InterruptEnable => MemoryModel { ie: value, ..self },
            Region::Unmapped => self,
        }
    }

    /// Whether a write to `addr` is stored and can be read back there.
    pub open spec fn writable(self, addr: u16) -> bool {
        match region_of(addr) {
            Region::Rom => false,
            Region::ExternalRam => self.cart.ram_active(),
            Region::Unmapped => false,
            _ => true,
        }
    }

    /// The 16-bit word at `addr`, low byte first. The address of the high
    /// byte wraps around at the end of the address space.
    pub open spec fn read_word(self, addr: u16) -> u16 {
        (self.read(addr) as int + 256 * (self.read(next_addr(addr)) as int)) as u16
    }

    /// The memory after a write of the word `value` at `addr`, low byte
    /// first.
    pub open spec fn write_word(self, addr: u16, value: u16) -> MemoryModel {
        self.write(addr, (value % 256) as u8).write(next_addr(addr), (value / 256) as u8)
    }

    /// The memory with cartridge RAM replaced as a whole.
    pub open spec fn with_ram(self, image: Seq<u8>) -> MemoryModel {
        MemoryModel { cart: self.cart.with_ram(image), ..self }
    }

    /// The memory of a new session over the image `rom`: the cartridge with
    /// four zeroed banks of RAM, switched off, in simple mode with ROM bank
    /// 1 and RAM bank 0 selected, and every byte of the console's own
    /// memories zero.
    pub open spec fn initial(rom: Seq<u8>) -> MemoryModel {
        MemoryModel {
            cart: CartridgeModel {
                rom,
                ram: Seq::new(0x8000, |i: int| 0u8),
                ram_enabled: false,
                advanced: false,
                rom_bank: 1,
                ram_bank: 0,
            },
            vram: Seq::new(0x2000, |i: int| 0u8),
            wram: Seq::new(0x2000, |i: int| 0u8),
            oam: Seq::new(0xA0, |i: int| 0u8),
            io: Seq::new(0x80, |i: int| 0u8),
            hram: Seq::new(0x7F, |i: int| 0u8),
            ie: 0,
        }
    }

    /// Writes keep the memory well-formed.
    pub proof fn lemma_write_wf(self, addr: u16, value: u8)
        requires
            self.wf(),
        ensures
            self.write(addr, value).wf(),
    {
    }

    /// A byte written to a writable address is read back from it.
    pub proof fn lemma_read_after_write(self, addr: u16, value: u8)
        requires
            self.wf(),
            self.writable(addr),
        ensures
            self.write(addr, value).read(addr) == value,
    {
        if region_of(addr) == Region::ExternalRam {
            self.cart.lemma_ram_index_in_bounds(addr);
        }
    }

    /// A write outside the bank-controller registers changes what is read
    /// at its own address and nowhere else.
    pub proof fn lemma_write_is_local(self, addr: u16, value: u8, other: u16)
        requires
            self.wf(),
            addr >= 0x8000,
            other != addr,
        ensures
            self.write(addr, value).read(other) == self.read(other),
    {
        if region_of(addr) == Region::ExternalRam && self.cart.ram_active() {
            self.cart.lemma_ram_index_in_bounds(addr);
            if region_of(other) == Region::ExternalRam {
                self.cart.lemma_ram_index_in_bounds(other);
            }
        }
    }

    /// A write to one window leaves every other window as it was. The one
    /// exception is in the nature of the bank controller: a write to its
    /// registers changes what the cartridge windows show.
    pub proof fn lemma_regions_isolated(self, addr: u16, value: u8, other: u16)
        requires
            self.wf(),
            region_of(other) != region_of(addr),
            !(region_of(addr) == Region::Rom && region_of(other) == Region::ExternalRam),
        ensures
            self.write(addr, value).read(other) == self.read(other),
    {
        if addr >= 0x8000 {
            self.lemma_write_is_local(addr, value, other);
        }
    }

    /// Once the enabling value has been written to the enable range, a byte
    /// written in the cartridge-RAM window is read back from it.
    pub proof fn lemma_enabled_ram_stores(self, enable: u16, addr: u16, value: u8)
        requires
            self.wf(),
            self.cart.ram.len() > 0,
            enable < 0x2000,
            0xA000 <= addr < 0xC000,
        ensures
            self.write(enable, RAM_ENABLE).write(addr, value).read(addr) == value,
    {
        let on = self.write(enable, RAM_ENABLE);
        on.lemma_read_after_write(addr, value);
    }

    /// After any other value has been written to the enable range, the
    /// cartridge-RAM window is inert: reads give the open-bus value and
    /// writes change nothing.
    pub proof fn lemma_disabled_ram_is_inert(self, enable: u16, key: u8, addr: u16, value: u8)
        requires
            self.wf(),
            enable < 0x2000,
            key != RAM_ENABLE,
            0xA000 <= addr < 0xC000,
        ensures
            self.write(enable, key).read(addr) == OPEN_BUS,
            self.write(enable, key).write(addr, value) == self.write(enable, key),
    {
    }

    /// Replacing cartridge RAM leaves ROM, the bank-controller registers
    /// and every window but the cartridge-RAM one as they were.
    pub proof fn lemma_replace_ram_is_a_splice(self, image: Seq<u8>, addr: u16)
        requires
            self.wf(),
            image.len() == self.cart.ram.len(),
            region_of(addr) != Region::ExternalRam,
        ensures
            self.with_ram(image).wf(),
            self.with_ram(image).read(addr) == self.read(addr),
            self.with_ram(image).cart.rom == self.cart.rom,
            self.with_ram(image).cart.ram_enabled == self.cart.ram_enabled,
            self.with_ram(image).cart.advanced == self.cart.advanced,
            self.with_ram(image).cart.rom_bank == self.cart.rom_bank,
            self.with_ram(image).cart.ram_bank == self.cart.ram_bank,
    {
    }
}

/// The address after `addr`, wrapping around at the end of the space.
pub open spec fn next_addr(addr: u16) -> u16 {
    if addr == 0xFFFF { 0 } else { (addr + 1) as u16 }
}

/// The memory subsystem.
pub struct Mmu {
    cart: Mbc5,
    vram: Vec<u8>,
    wram: Vec<u8>,
    oam: Vec<u8>,
    io: Vec<u8>,
    hram: Vec<u8>,
    ie: u8,
}

impl View for Mmu {
    type V = MemoryModel;

    closed spec fn view(&self) -> MemoryModel {
        MemoryModel {
            cart: self.cart@,
            vram: self.vram@,
            wram: self.wram@,
            oam: self.oam@,
            io: self.io@,
            hram: self.hram@,
            ie: self.ie,
        }
    }
}

impl Mmu {
    /// A memory over the cartridge built from `rom`, with every byte of the
    /// console's own memories zero. Fails on an image that is not the
    /// supported one.
    pub fn new(rom: Vec<u8>) -> (out: Result<Mmu, CartridgeError>)
        ensures
            match image_fault(rom@) {
                Some(e) => out == Err::<Mmu, CartridgeError>(e),
                None => out matches Ok(m) && m@ == MemoryModel::initial(rom@) && m@.wf(),
            },
    {
        match Mbc5::new(rom) {
            Err(e) => Err(e),
            Ok(cart) => {
                let vram = zeroed(0x2000);
                let wram = zeroed(0x2000);
                let oam = zeroed(0xA0);
                let io = zeroed(0x80);
                let hram = zeroed(0x7F);
                assert(vram@ =~= Seq::new(0x2000, |i: int| 0u8));
                assert(wram@ =~= Seq::new(0x2000, |i: int| 0u8));
                assert(oam@ =~= Seq::new(0xA0, |i: int| 0u8));
                assert(io@ =~= Seq::new(0x80, |i: int| 0u8));
                assert(hram@ =~= Seq::new(0x7F, |i: int| 0u8));
                Ok(Mmu { cart, vram, wram, oam, io, hram, ie: 0 })
            },
        }
    }

    /// Reads the byte at `addr`. Every address can be read.
    pub fn read_byte(&self, addr: u16) -> (out: u8)
        requires
            self@.wf(),
        ensures
            out == self@.read(addr),
    {
        if addr < 0x8000 {
            self.cart.read_rom(addr)
        } else if addr < 0xA000 {
            self.vram[(addr - 0x8000) as usize]
        } else if addr < 0xC000 {
            self.cart.read_ram(addr)
        } else if addr < 0xE000 {
            self.wram[(addr - 0xC000) as usize]
        } else if addr < 0xFE00 {
            OPEN_BUS
        } else if addr < 0xFEA0 {
            self.oam[(addr - 0xFE00) as usize]
        } else if addr < 0xFF00 {
            OPEN_BUS
        } else if addr < 0xFF80 {
            self.io[(addr - 0xFF00) as usize]
        } else if addr < 0xFFFF {
            self.hram[(addr - 0xFF80) as usize]
        } else {
            self.ie
        }
    }

    /// Writes `value` to `addr`. Every address can be written; what is
    /// written where nothing is mapped is discarded.
    pub fn write_byte(&mut self, addr: u16, value: u8)
        requires
            old(self)@.wf(),
        ensures
            final(self)@ == old(self)@.write(addr, value),
            final(self)@.wf(),
    {
        if addr < 0x8000 {
            self.cart.write_control(addr, value);
        } else if addr < 0xA000 {
            self.vram.set((addr - 0x8000) as usize, value);
        } else if addr < 0xC000 {
            self.cart.write_ram(addr, value);
        } else if addr < 0xE000 {
            self.wram.set((addr - 0xC000) as usize, value);
        } else if addr < 0xFE00 {
        } else if addr < 0xFEA0 {
            self.oam.set((addr - 0xFE00) as usize, value);
        } else if addr < 0xFF00 {
        } else if addr < 0xFF80 {
            self.io.set((addr - 0xFF00) as usize, value);
        } else if addr < 0xFFFF {
            self.hram.set((addr - 0xFF80) as usize, value);
        } else {
            self.ie = value;
        }
    }

    /// Reads the word at `addr`, low byte first.
    pub fn read_word(&self, addr: u16) -> (out: u16)
        requires
            self@.wf(),
        ensures
            out == self@.read_word(addr),
    {
        let low: u8 = self.read_byte(addr);
        let high: u8 = self.read_byte(addr.wrapping_add(1));
        low as u16 + 256 * (high as u16)
    }

    /// Writes the word `value` at `addr`, low byte first.
    pub fn write_word(&mut self, addr: u16, value: u16)
        requires
            old(self)@.wf(),
        ensures
            final(self)@ == old(self)@.write_word(addr, value),
            final(self)@.wf(),
    {
        self.write_byte(addr, (value % 256) as u8);
        self.write_byte(addr.wrapping_add(1), (value / 256) as u8);
    }

    /// Replaces the whole of cartridge RAM by `image` if it has the size of
    /// that RAM, and changes nothing otherwise. ROM, the bank-controller
    /// registers and the console's own memories stay as they are.
    pub fn replace_ram(&mut self, image: Vec<u8>) -> (done: bool)
        requires
            old(self)@.wf(),
        ensures
            done == (image@.len() == old(self)@.cart.ram.len()),
            done ==> final(self)@ == old(self)@.with_ram(image@),
            !done ==> final(self)@ == old(self)@,
            final(self)@.wf(),
    {
        self.cart.replace_ram(image)
    }

    /// A copy of the whole of cartridge RAM, as `replace_ram` takes it.
    pub fn dump_ram(&self) -> (out: Vec<u8>)
        ensures
            out@ == self@.cart.ram,
    {
        self.cart.dump_ram()
    }
}

} // verus!
