use vstd::prelude::*;

use crate::rom::Rom;

verus! {

/// NROM (mapper 0): one 16 KiB bank mirrored over both halves of the
/// window, or two banks side by side.
pub struct Nrom {
    prg_rom: Vec<Vec<u8>>,
}

/// UNROM (mapper 2): a switchable 16 KiB bank in the lower half of the
/// window, the last bank fixed in the upper half. Any write to the
/// window selects a bank.
pub struct Unrom {
    rom: Rom,
    active_bank: usize,
}

impl Nrom {
    pub closed spec fn banks(self) -> Seq<Vec<u8>> {
        self.prg_rom@
    }

    pub open spec fn wf(self) -> bool {
        &&& 1 <= self.banks().len() <= 2
        &&& forall|i: int|
            0 <= i < self.banks().len() ==> (#[trigger] self.banks()[i])@.len() == 16384
    }

    /// The byte the cartridge drives for a window address: with one
    /// bank the two halves mirror it, with two each half has its own.
    pub open spec fn spec_read(self, addr: u16) -> u8 {
        let off = addr - 0x8000;
        let bank = if self.banks().len() == 1 {
            0int
        } else {
            off / 0x4000
        };
        if 0 <= bank < self.banks().len() && off % 0x4000 < self.banks()[bank]@.len() {
            self.banks()[bank]@[off % 0x4000]
        } else {
            0u8
        }
    }

    pub fn new(prg_rom: Vec<Vec<u8>>) -> (r: Nrom)
        ensures
            r.banks() == prg_rom@,
    {
        Nrom { prg_rom }
    }

    fn read(&self, addr: u16) -> (r: u8)
        requires
            addr >= 0x8000,
        ensures
            r == self.spec_read(addr),
    {
        let off = (addr - 0x8000) as usize;
        let bank: usize = if self.prg_rom.len() == 1 {
            0
        } else {
            off / 0x4000
        };
        if bank < self.prg_rom.len() && off % 0x4000 < self.prg_rom[bank].len() {
            self.prg_rom[bank][off % 0x4000]
        } else {
            0
        }
    }
}

impl Unrom {
    pub closed spec fn rom(self) -> Rom {
        self.rom
    }

    pub closed spec fn active_bank(self) -> int {
        self.active_bank as int
    }

    pub open spec fn wf(self) -> bool {
        &&& self.rom().wf()
        &&& self.rom().prg_rom@.len() >= 1
        &&& self.active_bank() < self.rom().prg_rom@.len()
    }

    /// The byte the cartridge drives: the selected bank below 0xc000,
    /// the last bank above.
    pub open spec fn spec_read(self, addr: u16) -> u8 {
        let banks = self.rom().prg_rom@;
        if addr < 0xc000 {
            let off = addr - 0x8000;
            if self.active_bank() < banks.len() && off < banks[self.active_bank()]@.len() {
                banks[self.active_bank()]@[off]
            } else {
                0u8
            }
        } else {
            let off = addr - 0xc000;
            if banks.len() >= 1 && off < banks[banks.len() - 1]@.len() {
                banks[banks.len() - 1]@[off]
            } else {
                0u8
            }
        }
    }

    pub fn new(rom: Rom) -> (r: Unrom)
        ensures
            r.rom() == rom,
            r.active_bank() == 0,
    {
        Unrom { rom, active_bank: 0 }
    }

    fn read(&self, addr: u16) -> (r: u8)
        requires
            addr >= 0x8000,
        ensures
            r == self.spec_read(addr),
    {
        if addr < 0xc000 {
            let off = (addr - 0x8000) as usize;
            if self.active_bank < self.rom.prg_rom.len() && off < self.rom.prg_rom[self.active_bank].len() {
                self.rom.prg_rom[self.active_bank][off]
            } else {
                0
            }
        } else {
            let off = (addr - 0xc000) as usize;
            let count = self.rom.prg_rom.len();
            if count >= 1 && off < self.rom.prg_rom[count - 1].len() {
                self.rom.prg_rom[count - 1][off]
            } else {
                0
            }
        }
    }

    fn write(&mut self, value: u8)
        ensures
            final(self).rom() == old(self).rom(),
            old(self).rom().prg_rom@.len() > 0 ==> final(self).active_bank() == (
            value as int) % (old(self).rom().prg_rom@.len() as int),
            old(self).rom().prg_rom@.len() == 0 ==> final(self).active_bank() == old(
                self,
            ).active_bank(),
    {
        let count = self.rom.prg_rom.len();
        if count > 0 {
            self.active_bank = (value as usize) % count;
        }
    }
}

/// The cartridge hardware behind the CPU window `0x8000..0xffff`: reads
/// come from program ROM as the mapper lays it out, writes are
/// mapper-defined side effects and never change the ROM itself.
pub enum Mapper {
    Nrom(Nrom),
    Unrom(Unrom),
}

impl Mapper {
    pub open spec fn wf(self) -> bool {
        match self {
            Mapper::Nrom(m) => m.wf(),
            Mapper::Unrom(m) => m.wf(),
        }
    }

    pub open spec fn spec_read(self, addr: u16) -> u8 {
        match self {
            Mapper::Nrom(m) => m.spec_read(addr),
            Mapper::Unrom(m) => m.spec_read(addr),
        }
    }

    pub fn read(&self, addr: u16) -> (r: u8)
        requires
            addr >= 0x8000,
        ensures
            r == self.spec_read(addr),
    {
        match self {
            Mapper::Nrom(m) => m.read(addr),
            Mapper::Unrom(m) => m.read(addr),
        }
    }

    /// A write into the cartridge window: NROM ignores it, UNROM
    /// selects the bank named by the value modulo the bank count.
    pub fn write(&mut self, addr: u16, value: u8)
        ensures
            old(self).wf() ==> final(self).wf(),
            *old(self) matches Mapper::Nrom(_) ==> *final(self) == *old(self),
            *old(self) matches Mapper::Unrom(m) ==> *final(self) matches Mapper::Unrom(m2)
                && m2.rom() == m.rom() && (m.rom().prg_rom@.len() > 0 ==> m2.active_bank() == (
            value as int) % (m.rom().prg_rom@.len() as int)),
    {
        match self {
            Mapper::Nrom(_) => {},
            Mapper::Unrom(m) => m.write(value),
        }
    }
}

} // verus!
