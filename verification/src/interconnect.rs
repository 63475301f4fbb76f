use vstd::prelude::*;

use crate::joypad::Joypad;
use crate::mapper::{Mapper, Nrom, Unrom};
use crate::ppu::{ppu_register_read, ppu_register_written, Ppu};
use crate::rom::Rom;
use crate::vram::Vram;

verus! {

/// The low byte of a 16-bit word as it is stored on the bus.
pub open spec fn word_lo(value: u16) -> u8 {
    (value & 0xff) as u8
}

/// The high byte of a 16-bit word as it is stored on the bus.
pub open spec fn word_hi(value: u16) -> u8 {
    (value >> 8) as u8
}

/// The address one past `addr`, wrapping around the 16-bit bus.
pub open spec fn addr_next(addr: u16) -> u16 {
    if addr == 0xffff {
        0u16
    } else {
        (addr + 1) as u16
    }
}

/// The memory model of a bus stays fixed across operations: which
/// addresses behave as plain memory, which of those store writes, and
/// which addresses share a cell, never change.
pub open spec fn cells_stable<I: Interconnect>(pre: I, post: I) -> bool {
    &&& forall|a: u16| #![trigger pre.plain(a)] #![trigger post.plain(a)] post.plain(a)
        == pre.plain(a)
    &&& forall|a: u16| #![trigger pre.writable(a)] #![trigger post.writable(a)] post.writable(a)
        == pre.writable(a)
    &&& forall|a: u16, b: u16|
        #![trigger pre.same_cell(a, b)]
        #![trigger post.same_cell(a, b)]
        post.same_cell(a, b) == pre.same_cell(a, b)
}

/// A bus operation that leaves every plain memory cell as it was.
pub open spec fn mem_preserved<I: Interconnect>(pre: I, post: I) -> bool {
    &&& cells_stable(pre, post)
    &&& forall|a: u16|
        #![trigger pre.mem_at(a)]
        #![trigger post.mem_at(a)]
        pre.plain(a) ==> post.mem_at(a) == pre.mem_at(a)
}

/// A bus operation that stores one byte: the written cell (and every
/// address sharing it) holds the byte if the address stores writes, and
/// every other plain cell is untouched.
pub open spec fn mem_updated<I: Interconnect>(pre: I, post: I, addr: u16, value: u8) -> bool {
    &&& cells_stable(pre, post)
    &&& pre.writable(addr) ==> post.mem_at(addr) == value
    &&& pre.writable(addr) ==> forall|a: u16|
        #![trigger pre.mem_at(a)]
        #![trigger post.mem_at(a)]
        pre.plain(a) && pre.same_cell(a, addr) ==> post.mem_at(a) == value
    &&& forall|a: u16|
        #![trigger pre.mem_at(a)]
        #![trigger post.mem_at(a)]
        pre.plain(a) && !pre.same_cell(a, addr) ==> post.mem_at(a) == pre.mem_at(a)
}

/// A bus operation that stores one byte into each of two distinct
/// cells.
pub open spec fn mem_updated_pair<I: Interconnect>(
    pre: I,
    post: I,
    a1: u16,
    v1: u8,
    a2: u16,
    v2: u8,
) -> bool {
    &&& cells_stable(pre, post)
    &&& pre.plain(a1) && pre.plain(a2) && pre.writable(a1) && pre.writable(a2)
        && !pre.same_cell(a1, a2) ==> post.mem_at(a1) == v1 && post.mem_at(a2) == v2
    &&& forall|a: u16|
        #![trigger pre.mem_at(a)]
        #![trigger post.mem_at(a)]
        pre.plain(a) && !pre.same_cell(a, a1) && !pre.same_cell(a, a2) ==> post.mem_at(a)
            == pre.mem_at(a)
}

/// The CPU's window onto the rest of the machine. An implementation maps
/// each 16-bit address to RAM, ROM, or a device register.
///
/// The spec side models the addresses that behave as memory: `plain`
/// addresses read back a stable byte, `writable` addresses additionally
/// store what is written, and `same_cell` tells which addresses share
/// storage (mirrored RAM). Device registers are none of these, and the
/// contracts promise nothing about the bytes they exchange beyond the
/// plain-memory frame.
pub trait Interconnect: Sized {
    /// Addresses whose reads return a stable cell, undisturbed by
    /// operations on other cells.
    spec fn plain(&self, addr: u16) -> bool;

    /// Addresses whose cell stores the byte written to it.
    spec fn writable(&self, addr: u16) -> bool;

    /// Addresses that name the same storage cell (mirrors).
    spec fn same_cell(&self, a: u16, b: u16) -> bool;

    /// The byte a plain address currently holds.
    spec fn mem_at(&self, addr: u16) -> u8;

    /// Read the 16-bit little-endian word at `addr`, high byte from the
    /// following address (wrapping at the top of the address space).
    fn read_double(&mut self, addr: u16) -> (r: u16)
        ensures
            forall|a: u16|
                #![trigger old(self).plain(a)]
                #![trigger final(self).plain(a)]
                final(self).plain(a) == old(self).plain(a),
            forall|a: u16|
                #![trigger old(self).writable(a)]
                #![trigger final(self).writable(a)]
                final(self).writable(a) == old(self).writable(a),
            forall|a: u16, b: u16|
                #![trigger old(self).same_cell(a, b)]
                #![trigger final(self).same_cell(a, b)]
                final(self).same_cell(a, b) == old(self).same_cell(a, b),
            forall|a: u16|
                #![trigger old(self).mem_at(a)]
                #![trigger final(self).mem_at(a)]
                old(self).plain(a) ==> final(self).mem_at(a) == old(self).mem_at(a),
            old(self).plain(addr) && old(self).plain(addr_next(addr)) ==> r == old(self).mem_at(
                addr,
            ) + 0x100 * old(self).mem_at(addr_next(addr)),
    ;

    /// Read the byte at `addr`.
    fn read_word(&mut self, addr: u16) -> (r: u8)
        ensures
            forall|a: u16|
                #![trigger old(self).plain(a)]
                #![trigger final(self).plain(a)]
                final(self).plain(a) == old(self).plain(a),
            forall|a: u16|
                #![trigger old(self).writable(a)]
                #![trigger final(self).writable(a)]
                final(self).writable(a) == old(self).writable(a),
            forall|a: u16, b: u16|
                #![trigger old(self).same_cell(a, b)]
                #![trigger final(self).same_cell(a, b)]
                final(self).same_cell(a, b) == old(self).same_cell(a, b),
            forall|a: u16|
                #![trigger old(self).mem_at(a)]
                #![trigger final(self).mem_at(a)]
                old(self).plain(a) ==> final(self).mem_at(a) == old(self).mem_at(a),
            old(self).plain(addr) ==> r == old(self).mem_at(addr),
    ;

    /// Write one byte to `addr`.
    fn write_word(&mut self, addr: u16, value: u8)
        ensures
            forall|a: u16|
                #![trigger old(self).plain(a)]
                #![trigger final(self).plain(a)]
                final(self).plain(a) == old(self).plain(a),
            forall|a: u16|
                #![trigger old(self).writable(a)]
                #![trigger final(self).writable(a)]
                final(self).writable(a) == old(self).writable(a),
            forall|a: u16, b: u16|
                #![trigger old(self).same_cell(a, b)]
                #![trigger final(self).same_cell(a, b)]
                final(self).same_cell(a, b) == old(self).same_cell(a, b),
            old(self).writable(addr) ==> final(self).mem_at(addr) == value,
            old(self).writable(addr) ==> forall|a: u16|
                #![trigger old(self).mem_at(a)]
                #![trigger final(self).mem_at(a)]
                old(self).plain(a) && old(self).same_cell(a, addr) ==> final(self).mem_at(a)
                    == value,
            forall|a: u16|
                #![trigger old(self).mem_at(a)]
                #![trigger final(self).mem_at(a)]
                old(self).plain(a) && !old(self).same_cell(a, addr) ==> final(self).mem_at(a)
                    == old(self).mem_at(a),
    ;

    /// Write a 16-bit word little-endian at `addr` and the following
    /// address.
    fn write_double(&mut self, addr: u16, value: u16)
        ensures
            forall|a: u16|
                #![trigger old(self).plain(a)]
                #![trigger final(self).plain(a)]
                final(self).plain(a) == old(self).plain(a),
            forall|a: u16|
                #![trigger old(self).writable(a)]
                #![trigger final(self).writable(a)]
                final(self).writable(a) == old(self).writable(a),
            forall|a: u16, b: u16|
                #![trigger old(self).same_cell(a, b)]
                #![trigger final(self).same_cell(a, b)]
                final(self).same_cell(a, b) == old(self).same_cell(a, b),
            old(self).writable(addr) && old(self).writable(addr_next(addr)) && !old(self).same_cell(addr, addr_next(addr)) ==> {
                &&& final(self).mem_at(addr) == word_lo(value)
                &&& final(self).mem_at(addr_next(addr)) == word_hi(value)
            },
            forall|a: u16|
                #![trigger old(self).mem_at(a)]
                #![trigger final(self).mem_at(a)]
                old(self).plain(a) && !old(self).same_cell(a, addr) && !old(self).same_cell(
                    a,
                    addr_next(addr),
                ) ==> final(self).mem_at(a) == old(self).mem_at(a),
    ;
}

/// A bus that is nothing but memory: every address is its own one-byte
/// cell. It backs unit tests of the CPU, which need a flat 64 KiB space
/// with no devices in it.
pub struct FlatBus {
    mem: Vec<u8>,
}

impl FlatBus {
    pub fn new() -> (r: FlatBus)
        ensures
            forall|a: u16| #[trigger] r.plain(a),
            forall|a: u16| #[trigger] r.writable(a),
            forall|a: u16, b: u16| #[trigger] r.same_cell(a, b) == (a == b),
            forall|a: u16| #[trigger] r.mem_at(a) == 0,
    {
        let mut mem: Vec<u8> = Vec::new();
        let mut i: usize = 0;
        while i < 0x10000
            invariant
                mem@.len() == i,
                i <= 0x10000,
                forall|k: int| 0 <= k < i ==> mem@[k] == 0,
            decreases 0x10000 - i,
        {
            mem.push(0);
            i = i + 1;
        }
        FlatBus { mem }
    }
}

impl Interconnect for FlatBus {
    closed spec fn plain(&self, addr: u16) -> bool {
        (addr as int) < self.mem@.len()
    }

    closed spec fn writable(&self, addr: u16) -> bool {
        (addr as int) < self.mem@.len()
    }

    closed spec fn same_cell(&self, a: u16, b: u16) -> bool {
        a == b
    }

    closed spec fn mem_at(&self, addr: u16) -> u8 {
        if (addr as int) < self.mem@.len() {
            self.mem@[addr as int]
        } else {
            0u8
        }
    }

    fn read_double(&mut self, addr: u16) -> (r: u16) {
        let lo = self.read_word(addr);
        let hi = self.read_word(if addr == 0xffff {
            0
        } else {
            addr + 1
        });
        (lo as u16) + 0x100 * (hi as u16)
    }

    fn read_word(&mut self, addr: u16) -> (r: u8) {
        if (addr as usize) < self.mem.len() {
            self.mem[addr as usize]
        } else {
            0
        }
    }

    fn write_word(&mut self, addr: u16, value: u8) {
        if (addr as usize) < self.mem.len() {
            self.mem[addr as usize] = value;
        }
    }

    fn write_double(&mut self, addr: u16, value: u16) {
        self.write_word(addr, (value & 0xff) as u8);
        let next = if addr == 0xffff {
            0
        } else {
            addr + 1
        };
        self.write_word(next, (value >> 8) as u8);
    }
}

/// The machine's memory map: 2 KiB of work RAM mirrored through
/// `0x0000..0x1fff`, the PPU registers repeated every eight bytes
/// through `0x2000..0x3fff`, APU and control registers at
/// `0x4000..0x401f`, the expansion area, 8 KiB of program RAM at
/// `0x6000..0x7fff`, and the cartridge window above `0x8000`. One
/// latch models the open bus: every transfer updates it, and reads of
/// undriven locations return it.
pub struct MemoryMappingInterconnect {
    pub mapper: Mapper,
    pub ram: Vec<u8>,
    pub prg_ram: Vec<u8>,
    pub ppu: Ppu,
    pub joypad1: Joypad,
    pub joypad2: Joypad,
    pub last_bus_value: u8,
}

impl MemoryMappingInterconnect {
    pub open spec fn spec_mapper(&self) -> Mapper {
        self.mapper
    }

    /// The cartridges this machine can host: mapper 0 with its one or
    /// two fixed banks, or mapper 2 with any number of banks.
    pub open spec fn supported(rom: Rom) -> bool {
        &&& rom.wf()
        &&& rom.prg_rom@.len() >= 1
        &&& ((rom.mapper == 0 && rom.prg_rom@.len() <= 2) || rom.mapper == 2)
    }

    /// Whether this machine can host the cartridge.
    pub fn supports(rom: &Rom) -> (r: bool)
        ensures
            r == Self::supported(*rom),
    {
        if !(rom.mapper == 0 && rom.prg_rom.len() <= 2 || rom.mapper == 2) {
            return false;
        }
        if rom.prg_rom.len() < 1 {
            return false;
        }
        if rom.chr_rom.len() % 8192 != 0 {
            return false;
        }
        if rom.chr_rom.len() == 0 && rom.chr_ram_size < 8192 {
            return false;
        }
        let mut i: usize = 0;
        while i < rom.prg_rom.len()
            invariant
                i <= rom.prg_rom@.len(),
                forall|k: int| 0 <= k < i ==> (#[trigger] rom.prg_rom@[k])@.len() == 16384,
            decreases rom.prg_rom@.len() - i,
        {
            if rom.prg_rom[i].len() != 16384 {
                return false;
            }
            i = i + 1;
        }
        true
    }

    /// Assemble the machine around a parsed cartridge: the PPU gets the
    /// character data and mirroring, the mapper gets the program banks.
    pub fn new(rom: Rom) -> (r: MemoryMappingInterconnect)
        requires
            Self::supported(rom),
        ensures
            r.ppu.wf(),
            r.ppu.ctrl == 0 && r.ppu.mask == 0 && r.ppu.status == 0,
            r.ppu.cycle == 0 && r.ppu.scanline == 0,
            r.spec_mapper().wf(),
            r.last_bus_value == 0,
            forall|a: u16| #[trigger] r.plain(a) <==> (a < 0x2000 || 0x6000 <= a),
            forall|a: u16| #[trigger] r.writable(a) <==> (a < 0x2000 || (0x6000 <= a && a
                < 0x8000)),
            forall|a: u16| a < 0x2000 ==> #[trigger] r.mem_at(a) == 0,
            forall|a: u16| 0x6000 <= a && a < 0x8000 ==> #[trigger] r.mem_at(a) == 0,
            forall|a: u16| a >= 0x8000 ==> #[trigger] r.mem_at(a) == r.spec_mapper().spec_read(
                a,
            ),
            rom.mapper == 0 ==> (r.spec_mapper() matches Mapper::Nrom(m) && m.banks()
                == rom.prg_rom@),
            rom.mapper != 0 ==> (r.spec_mapper() matches Mapper::Unrom(m) && m.rom().prg_rom@
                == rom.prg_rom@ && m.active_bank() == 0),
    {
        let chr = clone_bytes(&rom.chr_rom);
        let chr_ram_size = rom.chr_ram_size;
        let mirroring = rom.mirroring;
        proof {
            assert(rom.chr_rom@.len() % 8192 == 0);
            assert(rom.chr_rom@.len() > 0 ==> rom.chr_rom@.len() >= 8192) by (nonlinear_arith)
                requires
                    rom.chr_rom@.len() % 8192 == 0,
            ;
        }
        let vram = Vram::with_cartridge(chr, chr_ram_size, mirroring);
        let mapper = if rom.mapper == 0 {
            Mapper::Nrom(Nrom::new(rom.prg_rom))
        } else {
            Mapper::Unrom(Unrom::new(rom))
        };

        MemoryMappingInterconnect {
            mapper,
            ram: filled_bytes(2048),
            prg_ram: filled_bytes(8192),
            ppu: Ppu::with_vram(vram),
            joypad1: Joypad::new(),
            joypad2: Joypad::new(),
            last_bus_value: 0,
        }
    }
    /// One byte read at `addr`, dispatched across the memory map: work
    /// RAM below 0x2000 (mirrored every 0x800 bytes), the PPU register
    /// file repeated every eight bytes through 0x2000..0x3fff, the APU
    /// status, the two controllers, open bus over the remaining control
    /// and expansion space, program RAM at 0x6000..0x7fff, and the
    /// cartridge above 0x8000. Every read refreshes the bus latch with
    /// the byte transferred.
    pub fn read_byte(&mut self, addr: u16) -> (r: u8)
        ensures
            final(self).last_bus_value == r,
            addr < 0x2000 ==> *final(self) == (MemoryMappingInterconnect {
                last_bus_value: r,
                ..*old(self)
            }) && r == (if (addr as int) % 0x800 < old(self).ram@.len() {
                old(self).ram@[(addr as int) % 0x800]
            } else {
                0u8
            }),
            0x2000 <= addr && addr < 0x4000 ==> {
                &&& final(self).ram == old(self).ram
                &&& final(self).prg_ram == old(self).prg_ram
                &&& final(self).mapper == old(self).mapper
                &&& final(self).joypad1 == old(self).joypad1
                &&& final(self).joypad2 == old(self).joypad2
                &&& ppu_register_read(
                    old(self).ppu,
                    final(self).ppu,
                    ((addr - 0x2000) % 8) as u16,
                    r,
                )
            },
            addr == 0x4015 ==> *final(self) == (MemoryMappingInterconnect {
                last_bus_value: r,
                ..*old(self)
            }) && r == old(self).last_bus_value & 0xf0,
            addr == 0x4016 ==> {
                &&& final(self).ram == old(self).ram
                &&& final(self).prg_ram == old(self).prg_ram
                &&& final(self).mapper == old(self).mapper
                &&& final(self).ppu == old(self).ppu
                &&& final(self).joypad2 == old(self).joypad2
                &&& final(self).joypad1.spec_state() == old(self).joypad1.spec_state()
                &&& final(self).joypad1.spec_strobe() == old(self).joypad1.spec_strobe()
                &&& r == (old(self).last_bus_value & 0xfe) | (
                if old(self).joypad1.spec_strobe() {
                    if old(self).joypad1.spec_state().a {
                        1u8
                    } else {
                        0u8
                    }
                } else {
                    old(self).joypad1.spec_shift() & 1
                })
            },
            addr == 0x4017 ==> {
                &&& final(self).ram == old(self).ram
                &&& final(self).prg_ram == old(self).prg_ram
                &&& final(self).mapper == old(self).mapper
                &&& final(self).ppu == old(self).ppu
                &&& final(self).joypad1 == old(self).joypad1
                &&& r == (old(self).last_bus_value & 0xfe) | (
                if old(self).joypad2.spec_strobe() {
                    if old(self).joypad2.spec_state().a {
                        1u8
                    } else {
                        0u8
                    }
                } else {
                    old(self).joypad2.spec_shift() & 1
                })
            },
            0x4000 <= addr && addr < 0x6000 && addr != 0x4015 && addr != 0x4016 && addr
                != 0x4017 ==> *final(self) == (MemoryMappingInterconnect {
                last_bus_value: r,
                ..*old(self)
            }) && r == old(self).last_bus_value,
            0x6000 <= addr && addr < 0x8000 ==> *final(self) == (MemoryMappingInterconnect {
                last_bus_value: r,
                ..*old(self)
            }) && r == (if addr - 0x6000 < old(self).prg_ram@.len() {
                old(self).prg_ram@[addr - 0x6000]
            } else {
                0u8
            }),
            addr >= 0x8000 ==> *final(self) == (MemoryMappingInterconnect {
                last_bus_value: r,
                ..*old(self)
            }) && r == old(self).mapper.spec_read(addr),
    {
        let value: u8 = if addr < 0x2000 {
            let i = (addr % 0x800) as usize;
            if i < self.ram.len() {
                self.ram[i]
            } else {
                0
            }
        } else if addr < 0x4000 {
            let reg = (addr - 0x2000) % 8;
            if reg == 2 {
                self.ppu.read_status()
            } else if reg == 4 {
                self.ppu.read_spr_ram_data()
            } else if reg == 7 {
                self.ppu.read_vram_data()
            } else {
                self.ppu.open_bus
            }
        } else if addr == 0x4015 {
            self.last_bus_value & 0xf0
        } else if addr == 0x4016 {
            (self.last_bus_value & 0xfe) | self.joypad1.read()
        } else if addr == 0x4017 {
            (self.last_bus_value & 0xfe) | self.joypad2.read()
        } else if addr < 0x6000 {
            self.last_bus_value
        } else if addr < 0x8000 {
            let i = (addr - 0x6000) as usize;
            if i < self.prg_ram.len() {
                self.prg_ram[i]
            } else {
                0
            }
        } else {
            self.mapper.read(addr)
        };
        self.last_bus_value = value;
        value
    }

    /// One byte written at `addr`, dispatched across the memory map:
    /// work RAM and program RAM store it, the PPU register file takes
    /// it per the register table, 0x4016 strobes the first controller,
    /// the remaining APU and expansion space swallows it, and the
    /// cartridge window hands it to the mapper as a bank select. A
    /// write never touches the regions it does not address, and every
    /// write leaves the byte on the bus latch.
    pub fn write_byte(&mut self, addr: u16, value: u8)
        ensures
            final(self).last_bus_value == value,
            addr < 0x2000 ==> {
                &&& final(self).ppu == old(self).ppu
                &&& final(self).joypad1 == old(self).joypad1
                &&& final(self).joypad2 == old(self).joypad2
                &&& final(self).mapper == old(self).mapper
                &&& final(self).prg_ram == old(self).prg_ram
                &&& final(self).ram@ == if (addr as int) % 0x800 < old(self).ram@.len() {
                    old(self).ram@.update((addr as int) % 0x800, value)
                } else {
                    old(self).ram@
                }
            },
            0x2000 <= addr && addr < 0x4000 ==> {
                &&& final(self).ram == old(self).ram
                &&& final(self).prg_ram == old(self).prg_ram
                &&& final(self).mapper == old(self).mapper
                &&& final(self).joypad1 == old(self).joypad1
                &&& final(self).joypad2 == old(self).joypad2
                &&& ppu_register_written(
                    old(self).ppu,
                    final(self).ppu,
                    ((addr - 0x2000) % 8) as u16,
                    value,
                )
            },
            addr == 0x4016 ==> {
                &&& final(self).ram == old(self).ram
                &&& final(self).prg_ram == old(self).prg_ram
                &&& final(self).mapper == old(self).mapper
                &&& final(self).ppu == old(self).ppu
                &&& final(self).joypad2 == old(self).joypad2
                &&& final(self).joypad1.spec_state() == old(self).joypad1.spec_state()
                &&& final(self).joypad1.spec_strobe() == (value & 1 != 0)
                &&& final(self).joypad1.spec_shift() == if value & 1 != 0 || old(self).joypad1.spec_strobe() {
                    crate::joypad::button_bits(old(self).joypad1.spec_state())
                } else {
                    old(self).joypad1.spec_shift()
                }
            },
            0x4000 <= addr && addr < 0x6000 && addr != 0x4016 && addr != 0x4014
                ==> *final(self) == (MemoryMappingInterconnect {
                last_bus_value: value,
                ..*old(self)
            }),
            addr == 0x4014 ==> {
                &&& final(self).ram == old(self).ram
                &&& final(self).prg_ram == old(self).prg_ram
                &&& final(self).mapper == old(self).mapper
                &&& (forall|k: int|
                    0 <= k < 256 ==> #[trigger] old(self).plain(
                        ((value as int) * 0x100 + k) as u16,
                    )) ==> {
                    &&& final(self).joypad1 == old(self).joypad1
                    &&& final(self).joypad2 == old(self).joypad2
                    &&& final(self).ppu.ctrl == old(self).ppu.ctrl
                    &&& final(self).ppu.mask == old(self).ppu.mask
                    &&& final(self).ppu.status == old(self).ppu.status
                    &&& final(self).ppu.scroll == old(self).ppu.scroll
                    &&& final(self).ppu.vram_addr == old(self).ppu.vram_addr
                    &&& final(self).ppu.tmp_vram_addr == old(self).ppu.tmp_vram_addr
                    &&& final(self).ppu.write_flag == old(self).ppu.write_flag
                    &&& final(self).ppu.buffered_read == old(self).ppu.buffered_read
                    &&& final(self).ppu.vram == old(self).ppu.vram
                    &&& final(self).ppu.screen == old(self).ppu.screen
                    &&& final(self).ppu.cycle == old(self).ppu.cycle
                    &&& final(self).ppu.scanline == old(self).ppu.scanline
                    &&& final(self).ppu.spr_ram@.len() == old(self).ppu.spr_ram@.len()
                    &&& final(self).ppu.spr_ram_addr == old(self).ppu.spr_ram_addr
                    &&& old(self).ppu.spr_ram@.len() == 256 ==> forall|k: int|
                        0 <= k < 256 ==> final(self).ppu.spr_ram@[(old(self).ppu.spr_ram_addr
                            + k) % 256] == #[trigger] old(self).mem_at(
                            ((value as int) * 0x100 + k) as u16,
                        )
                }
            },
            0x6000 <= addr && addr < 0x8000 ==> {
                &&& final(self).ppu == old(self).ppu
                &&& final(self).joypad1 == old(self).joypad1
                &&& final(self).joypad2 == old(self).joypad2
                &&& final(self).mapper == old(self).mapper
                &&& final(self).ram == old(self).ram
                &&& final(self).prg_ram@ == if addr - 0x6000 < old(self).prg_ram@.len() {
                    old(self).prg_ram@.update(addr - 0x6000, value)
                } else {
                    old(self).prg_ram@
                }
            },
            addr >= 0x8000 ==> {
                &&& final(self).ppu == old(self).ppu
                &&& final(self).joypad1 == old(self).joypad1
                &&& final(self).joypad2 == old(self).joypad2
                &&& final(self).ram == old(self).ram
                &&& final(self).prg_ram == old(self).prg_ram
                &&& (old(self).mapper.wf() ==> final(self).mapper.wf())
                &&& (old(self).mapper matches Mapper::Nrom(_) ==> final(self).mapper == old(self).mapper)
                &&& (old(self).mapper matches Mapper::Unrom(m) ==> final(self).mapper
                    matches Mapper::Unrom(m2) && m2.rom() == m.rom() && (m.rom().prg_rom@.len()
                    > 0 ==> m2.active_bank() == (value as int) % (m.rom().prg_rom@.len() as int)))
            },
    {
        if addr < 0x2000 {
            let i = (addr % 0x800) as usize;
            if i < self.ram.len() {
                self.ram[i] = value;
            }
        } else if addr < 0x4000 {
            let reg = (addr - 0x2000) % 8;
            if reg == 0 {
                self.ppu.write_ctrl(value);
            } else if reg == 1 {
                self.ppu.write_mask(value);
            } else if reg == 3 {
                self.ppu.write_spr_ram_addr(value);
            } else if reg == 4 {
                self.ppu.write_spr_ram_data(value);
            } else if reg == 5 {
                self.ppu.write_scroll(value);
            } else if reg == 6 {
                self.ppu.write_vram_addr(value);
            } else if reg == 7 {
                self.ppu.write_vram_data(value);
            } else {
                self.ppu.open_bus = value;
            }
        } else if addr == 0x4016 {
            self.joypad1.write_strobe(value);
        } else if addr == 0x4014 {
            // OAM DMA: the bus copies the named 256-byte page into
            // sprite memory through the OAM data port
            let page: u16 = (value as u16) * 0x100;
            let ghost pre = *self;
            let mut i: u16 = 0;
            while i < 256
                invariant
                    i <= 256,
                    page == (value as u16) * 0x100,
                    page <= 0xff00,
                    self.ram == pre.ram,
                    self.prg_ram == pre.prg_ram,
                    self.mapper == pre.mapper,
                    (forall|k: int|
                        0 <= k < 256 ==> #[trigger] pre.plain(((page as int) + k) as u16)) ==> {
                        &&& self.joypad1 == pre.joypad1
                        &&& self.joypad2 == pre.joypad2
                        &&& self.ppu.ctrl == pre.ppu.ctrl
                        &&& self.ppu.mask == pre.ppu.mask
                        &&& self.ppu.status == pre.ppu.status
                        &&& self.ppu.scroll == pre.ppu.scroll
                        &&& self.ppu.vram_addr == pre.ppu.vram_addr
                        &&& self.ppu.tmp_vram_addr == pre.ppu.tmp_vram_addr
                        &&& self.ppu.write_flag == pre.ppu.write_flag
                        &&& self.ppu.buffered_read == pre.ppu.buffered_read
                        &&& self.ppu.vram == pre.ppu.vram
                        &&& self.ppu.screen == pre.ppu.screen
                        &&& self.ppu.cycle == pre.ppu.cycle
                        &&& self.ppu.scanline == pre.ppu.scanline
                        &&& self.ppu.name_table_byte == pre.ppu.name_table_byte
                        &&& self.ppu.attribute_table_byte == pre.ppu.attribute_table_byte
                        &&& self.ppu.low_bg_tile_byte == pre.ppu.low_bg_tile_byte
                        &&& self.ppu.high_bg_tile_byte == pre.ppu.high_bg_tile_byte
                        &&& self.ppu.tile_data == pre.ppu.tile_data
                        &&& self.ppu.spr_ram@.len() == pre.ppu.spr_ram@.len()
                        &&& self.ppu.spr_ram_addr as int == (pre.ppu.spr_ram_addr + i) % 256
                        &&& pre.ppu.spr_ram@.len() == 256 ==> {
                            &&& forall|j: int|
                                0 <= j < i ==> self.ppu.spr_ram@[(pre.ppu.spr_ram_addr + j)
                                    % 256] == #[trigger] pre.mem_at(((page as int) + j) as u16)
                            &&& forall|j: int|
                                i <= j < 256 ==> self.ppu.spr_ram@[(pre.ppu.spr_ram_addr + j)
                                    % 256] == #[trigger] pre.ppu.spr_ram@[(pre.ppu.spr_ram_addr
                                    + j) % 256]
                        }
                    },
                decreases 256 - i,
            {
                proof {
                    if forall|k: int|
                        0 <= k < 256 ==> #[trigger] pre.plain(((page as int) + k) as u16) {
                        assert(pre.plain(((page as int) + i as int) as u16));
                    }
                }
                let b = self.read_byte(page + i);
                self.ppu.write_spr_ram_data(b);
                proof {
                    let oam0 = pre.ppu.spr_ram_addr as int;
                    assert forall|j: int| 0 <= j < 256 && j != i as int implies #[trigger] ((
                    oam0 + j) % 256) != (oam0 + i as int) % 256 by {
                        assert((oam0 + j) % 256 == (oam0 + i as int) % 256 ==> j == i as int)
                            by (nonlinear_arith)
                            requires
                                0 <= j < 256,
                                0 <= i < 256,
                                0 <= oam0 < 256,
                        ;
                    }
                    assert(((oam0 + i as int) % 256 + 1) % 256 == (oam0 + i as int + 1) % 256)
                        by (nonlinear_arith)
                        requires
                            0 <= oam0,
                            0 <= i,
                    ;
                }
                i = i + 1;
            }
            proof {
                assert((pre.ppu.spr_ram_addr as int + 256) % 256 == pre.ppu.spr_ram_addr as int)
                    by (nonlinear_arith)
                    requires
                        0 <= pre.ppu.spr_ram_addr < 256,
                ;
            }
        } else if addr < 0x6000 {
            // APU and expansion writes feed only the bus latch
        } else if addr < 0x8000 {
            let i = (addr - 0x6000) as usize;
            if i < self.prg_ram.len() {
                self.prg_ram[i] = value;
            }
        } else {
            self.mapper.write(addr, value);
        }
        self.last_bus_value = value;
    }
}

impl Interconnect for MemoryMappingInterconnect {
    open spec fn plain(&self, addr: u16) -> bool {
        ||| (addr < 0x2000 && (addr as int) % 0x800 < self.ram@.len())
        ||| (0x6000 <= addr && addr < 0x8000 && addr - 0x6000 < self.prg_ram@.len())
        ||| addr >= 0x8000
    }

    open spec fn writable(&self, addr: u16) -> bool {
        ||| (addr < 0x2000 && (addr as int) % 0x800 < self.ram@.len())
        ||| (0x6000 <= addr && addr < 0x8000 && addr - 0x6000 < self.prg_ram@.len())
    }

    open spec fn same_cell(&self, a: u16, b: u16) -> bool {
        ||| (a < 0x2000 && b < 0x2000 && (a as int) % 0x800 == (b as int) % 0x800)
        ||| (0x6000 <= a && a < 0x8000 && a == b)
        ||| (a >= 0x8000 && b >= 0x8000)
    }

    open spec fn mem_at(&self, addr: u16) -> u8 {
        if addr < 0x2000 {
            if (addr as int) % 0x800 < self.ram@.len() {
                self.ram@[(addr as int) % 0x800]
            } else {
                0u8
            }
        } else if 0x6000 <= addr && addr < 0x8000 {
            if addr - 0x6000 < self.prg_ram@.len() {
                self.prg_ram@[addr - 0x6000]
            } else {
                0u8
            }
        } else if addr >= 0x8000 {
            self.mapper.spec_read(addr)
        } else {
            0u8
        }
    }

    fn read_double(&mut self, addr: u16) -> (r: u16) {
        let lo = self.read_word(addr);
        let hi = self.read_word(if addr == 0xffff {
            0
        } else {
            addr + 1
        });
        (lo as u16) + 0x100 * (hi as u16)
    }

    fn read_word(&mut self, addr: u16) -> (r: u8) {
        self.read_byte(addr)
    }

    fn write_word(&mut self, addr: u16, value: u8) {
        self.write_byte(addr, value);
    }

    fn write_double(&mut self, addr: u16, value: u16) {
        self.write_word(addr, (value & 0xff) as u8);
        let next = if addr == 0xffff {
            0
        } else {
            addr + 1
        };
        self.write_word(next, (value >> 8) as u8);
    }
}

/// A copy of a byte vector.
fn clone_bytes(data: &Vec<u8>) -> (r: Vec<u8>)
    ensures
        r@ == data@,
{
    let mut out: Vec<u8> = Vec::new();
    let mut i: usize = 0;
    while i < data.len()
        invariant
            i <= data@.len(),
            out@.len() == i,
            forall|k: int| 0 <= k < i ==> out@[k] == data@[k],
        decreases data@.len() - i,
    {
        out.push(data[i]);
        i = i + 1;
    }
    proof {
        assert(out@ =~= data@);
    }
    out
}

/// A vector of `len` zero bytes.
fn filled_bytes(len: usize) -> (r: Vec<u8>)
    ensures
        r@.len() == len,
        forall|i: int| 0 <= i < len ==> r@[i] == 0u8,
{
    let mut out: Vec<u8> = Vec::new();
    let mut i: usize = 0;
    while i < len
        invariant
            i <= len,
            out@.len() == i,
            forall|k: int| 0 <= k < i ==> out@[k] == 0u8,
        decreases len - i,
    {
        out.push(0);
        i = i + 1;
    }
    out
}

} // verus!
