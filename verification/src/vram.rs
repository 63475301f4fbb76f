use vstd::prelude::*;

use crate::rom::Mirroring;

verus! {

/// The physical name-table that logical table `t` (0..3) maps to under
/// a mirroring mode.
pub open spec fn nt_table(m: Mirroring, t: int) -> int {
    match m {
        Mirroring::Horizontal => t / 2,
        Mirroring::Vertical => t % 2,
        Mirroring::FourScreen => t,
    }
}

/// The index into physical name-table storage for an address in
/// `0x2000..0x3eff` (taken modulo the 4 KiB logical window).
pub open spec fn nt_index(m: Mirroring, addr: int) -> int {
    let a = (addr - 0x2000) % 0x1000;
    nt_table(m, a / 0x400) * 0x400 + a % 0x400
}

/// The index into the 32-byte palette for an address in
/// `0x3f00..0x3fff`: the region repeats every 32 bytes, and entries
/// 0x10, 0x14, 0x18 and 0x1c alias their counterparts 16 below.
pub open spec fn palette_index(addr: int) -> int {
    let i = addr % 32;
    if i == 0x10 || i == 0x14 || i == 0x18 || i == 0x1c {
        i - 0x10
    } else {
        i
    }
}

/// The PPU's 16 KiB address space: pattern tables backed by character
/// ROM or RAM, two to four physical KiB name-tables behind a mirroring
/// mode, and 32 bytes of palette RAM with its aliased entries.
pub struct Vram {
    chr: Vec<u8>,
    chr_writable: bool,
    nametables: Vec<u8>,
    palette: Vec<u8>,
    mirroring: Mirroring,
}

impl Vram {
    pub closed spec fn chr(self) -> Seq<u8> {
        self.chr@
    }

    pub closed spec fn chr_writable(self) -> bool {
        self.chr_writable
    }

    pub closed spec fn nametables(self) -> Seq<u8> {
        self.nametables@
    }

    pub closed spec fn palette(self) -> Seq<u8> {
        self.palette@
    }

    pub closed spec fn mirroring(self) -> Mirroring {
        self.mirroring
    }

    /// Fixed storage shapes: at least one full pattern-table area, a
    /// four-table name-table area, and the 32-byte palette.
    pub open spec fn wf(self) -> bool {
        &&& self.chr().len() >= 0x2000
        &&& self.nametables().len() == 0x1000
        &&& self.palette().len() == 32
    }

    /// The byte at `addr`, after folding the address into `0..0x4000`.
    pub open spec fn spec_read(self, addr: u16) -> u8 {
        let a = (addr as int) % 0x4000;
        if a < 0x2000 {
            if a < self.chr().len() {
                self.chr()[a]
            } else {
                0u8
            }
        } else if a < 0x3f00 {
            if nt_index(self.mirroring(), a) < self.nametables().len() {
                self.nametables()[nt_index(self.mirroring(), a)]
            } else {
                0u8
            }
        } else {
            if palette_index(a) < self.palette().len() {
                self.palette()[palette_index(a)]
            } else {
                0u8
            }
        }
    }

    /// The pattern-table storage after a write of `value` to `addr`:
    /// such writes land only when the cartridge supplies character RAM.
    pub open spec fn chr_after(self, addr: u16, value: u8) -> Seq<u8> {
        let a = (addr as int) % 0x4000;
        if a < 0x2000 && self.chr_writable() && a < self.chr().len() {
            self.chr().update(a, value)
        } else {
            self.chr()
        }
    }

    /// The name-table storage after a write of `value` to `addr`.
    pub open spec fn nametables_after(self, addr: u16, value: u8) -> Seq<u8> {
        let a = (addr as int) % 0x4000;
        if 0x2000 <= a < 0x3f00 && nt_index(self.mirroring(), a) < self.nametables().len() {
            self.nametables().update(nt_index(self.mirroring(), a), value)
        } else {
            self.nametables()
        }
    }

    /// The palette storage after a write of `value` to `addr`.
    pub open spec fn palette_after(self, addr: u16, value: u8) -> Seq<u8> {
        let a = (addr as int) % 0x4000;
        if a >= 0x3f00 && palette_index(a) < self.palette().len() {
            self.palette().update(palette_index(a), value)
        } else {
            self.palette()
        }
    }

    /// An empty memory with 8 KiB of character RAM and horizontal
    /// mirroring, as a cartridge-less power-on state.
    pub fn new() -> (r: Vram)
        ensures
            r.wf(),
            r.chr() =~= Seq::new(0x2000nat, |i: int| 0u8),
            r.chr_writable(),
            r.nametables() =~= Seq::new(0x1000nat, |i: int| 0u8),
            r.palette() =~= Seq::new(32nat, |i: int| 0u8),
            r.mirroring() == Mirroring::Horizontal,
    {
        Vram {
            chr: zeroes(0x2000),
            chr_writable: true,
            nametables: zeroes(0x1000),
            palette: zeroes(32),
            mirroring: Mirroring::Horizontal,
        }
    }

    /// The memory a cartridge provides: its character ROM when it ships
    /// one, else zeroed character RAM of the declared size, under its
    /// mirroring mode.
    pub fn with_cartridge(chr_rom: Vec<u8>, chr_ram_size: usize, mirroring: Mirroring) -> (r:
        Vram)
        requires
            chr_rom@.len() > 0 ==> chr_rom@.len() >= 0x2000,
            chr_rom@.len() == 0 ==> chr_ram_size >= 0x2000,
        ensures
            r.wf(),
            chr_rom@.len() > 0 ==> r.chr() == chr_rom@ && !r.chr_writable(),
            chr_rom@.len() == 0 ==> r.chr() =~= Seq::new(chr_ram_size as nat, |i: int| 0u8)
                && r.chr_writable(),
            r.nametables() =~= Seq::new(0x1000nat, |i: int| 0u8),
            r.palette() =~= Seq::new(32nat, |i: int| 0u8),
            r.mirroring() == mirroring,
    {
        let writable = chr_rom.len() == 0;
        let chr = if chr_rom.len() == 0 {
            zeroes(chr_ram_size)
        } else {
            chr_rom
        };
        Vram {
            chr,
            chr_writable: writable,
            nametables: zeroes(0x1000),
            palette: zeroes(32),
            mirroring,
        }
    }

    pub fn read(&self, addr: u16) -> (r: u8)
        ensures
            r == self.spec_read(addr),
    {
        let a = addr % 0x4000;
        if a < 0x2000 {
            if (a as usize) < self.chr.len() {
                self.chr[a as usize]
            } else {
                0
            }
        } else if a < 0x3f00 {
            let idx = self.nt_index_exec(a);
            if idx < self.nametables.len() {
                self.nametables[idx]
            } else {
                0
            }
        } else {
            let idx = Self::palette_index_exec(a);
            if idx < self.palette.len() {
                self.palette[idx]
            } else {
                0
            }
        }
    }

    pub fn write(&mut self, addr: u16, value: u8)
        ensures
            final(self).mirroring() == old(self).mirroring(),
            final(self).chr_writable() == old(self).chr_writable(),
            final(self).chr() == old(self).chr_after(addr, value),
            final(self).nametables() == old(self).nametables_after(addr, value),
            final(self).palette() == old(self).palette_after(addr, value),
    {
        let a = addr % 0x4000;
        if a < 0x2000 {
            if self.chr_writable && (a as usize) < self.chr.len() {
                self.chr[a as usize] = value;
            }
        } else if a < 0x3f00 {
            let idx = self.nt_index_exec(a);
            if idx < self.nametables.len() {
                self.nametables[idx] = value;
            }
        } else {
            let idx = Self::palette_index_exec(a);
            if idx < self.palette.len() {
                self.palette[idx] = value;
            }
        }
    }

    fn nt_index_exec(&self, a: u16) -> (r: usize)
        requires
            0x2000 <= a < 0x3f00,
        ensures
            r == nt_index(self.mirroring(), a as int),
    {
        let off = (a - 0x2000) % 0x1000;
        let table = (off / 0x400) as usize;
        let within = (off % 0x400) as usize;
        let physical: usize = match self.mirroring {
            Mirroring::Horizontal => table / 2,
            Mirroring::Vertical => table % 2,
            Mirroring::FourScreen => table,
        };
        physical * 0x400 + within
    }

    fn palette_index_exec(a: u16) -> (r: usize)
        requires
            a >= 0x3f00,
        ensures
            r == palette_index(a as int),
    {
        let i = (a % 32) as usize;
        if i == 0x10 || i == 0x14 || i == 0x18 || i == 0x1c {
            i - 0x10
        } else {
            i
        }
    }
}

/// Palette mirroring: entry 0x3f10 shares its cell with 0x3f00, and
/// likewise 0x3f14 with 0x3f04, 0x3f18 with 0x3f08, and 0x3f1c with
/// 0x3f0c, so a byte written through the mirror is observable at the
/// base address.
pub proof fn lemma_palette_mirror(v: Vram, value: u8)
    requires
        v.wf(),
    ensures
        palette_index(0x3f10) == palette_index(0x3f00),
        palette_index(0x3f14) == palette_index(0x3f04),
        palette_index(0x3f18) == palette_index(0x3f08),
        palette_index(0x3f1c) == palette_index(0x3f0c),
        v.palette_after(0x3f10, value)[palette_index(0x3f00)] == value,
        v.palette_after(0x3f14, value)[palette_index(0x3f04)] == value,
        v.palette_after(0x3f18, value)[palette_index(0x3f08)] == value,
        v.palette_after(0x3f1c, value)[palette_index(0x3f0c)] == value,
{
}

/// Name-table mirroring: under horizontal mirroring the tables at
/// 0x2000 and 0x2400 share storage, as do 0x2800 and 0x2c00; under
/// vertical mirroring 0x2000 shares with 0x2800 and 0x2400 with
/// 0x2c00. A byte written through one window of a pair is observable
/// through the other.
pub proof fn lemma_nametable_mirror(v: Vram, off: int, value: u8)
    requires
        v.wf(),
        0 <= off < 0x400,
    ensures
        nt_index(Mirroring::Horizontal, 0x2000 + off) == nt_index(Mirroring::Horizontal, 0x2400 + off),
        nt_index(Mirroring::Horizontal, 0x2800 + off) == nt_index(Mirroring::Horizontal, 0x2c00 + off),
        nt_index(Mirroring::Vertical, 0x2000 + off) == nt_index(Mirroring::Vertical, 0x2800 + off),
        nt_index(Mirroring::Vertical, 0x2400 + off) == nt_index(Mirroring::Vertical, 0x2c00 + off),
        v.mirroring() == Mirroring::Horizontal ==> {
            &&& v.nametables_after((0x2000 + off) as u16, value)[nt_index(
                Mirroring::Horizontal,
                0x2400 + off,
            )] == value
            &&& v.nametables_after((0x2800 + off) as u16, value)[nt_index(
                Mirroring::Horizontal,
                0x2c00 + off,
            )] == value
        },
        v.mirroring() == Mirroring::Vertical ==> {
            &&& v.nametables_after((0x2000 + off) as u16, value)[nt_index(
                Mirroring::Vertical,
                0x2800 + off,
            )] == value
            &&& v.nametables_after((0x2400 + off) as u16, value)[nt_index(
                Mirroring::Vertical,
                0x2c00 + off,
            )] == value
        },
{
    assert((0x2000 + off) % 0x4000 == 0x2000 + off);
    assert((0x2400 + off) % 0x4000 == 0x2400 + off);
    assert((0x2800 + off) % 0x4000 == 0x2800 + off);
    assert((0x2c00 + off) % 0x4000 == 0x2c00 + off);
    assert(off % 0x1000 == off);
    assert((0x400 + off) % 0x1000 == 0x400 + off);
    assert((0x800 + off) % 0x1000 == 0x800 + off);
    assert((0xc00 + off) % 0x1000 == 0xc00 + off);
    assert(off / 0x400 == 0 && off % 0x400 == off);
    assert((0x400 + off) / 0x400 == 1 && (0x400 + off) % 0x400 == off);
    assert((0x800 + off) / 0x400 == 2 && (0x800 + off) % 0x400 == off);
    assert((0xc00 + off) / 0x400 == 3 && (0xc00 + off) % 0x400 == off);
}

/// A vector of `len` zero bytes.
fn zeroes(len: usize) -> (r: Vec<u8>)
    ensures
        r@ =~= Seq::new(len as nat, |i: int| 0u8),
{
    let mut out: Vec<u8> = Vec::new();
    let mut i: usize = 0;
    while i < len
        invariant
            i <= len,
            out@.len() == i,
            forall|k: int| 0 <= k < i ==> out@[k] == 0u8,
        decreases len - i,
    {
        out.push(0);
        i = i + 1;
    }
    out
}

} // verus!
