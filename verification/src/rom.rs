use vstd::prelude::*;

verus! {

/// How the two physical name-tables are laid over the four logical
/// ones, as the cartridge wires it.
#[derive(Debug, Clone, Copy, PartialEq, Eq, Structural)]
pub enum Mirroring {
    Horizontal,
    Vertical,
    FourScreen,
}

/// Why an iNES image was rejected.
#[derive(Debug, Clone, Copy, PartialEq, Eq, Structural)]
pub enum RomError {
    InvalidData,
}

/// A parsed cartridge: 16 KiB program banks, a flat character ROM
/// block, the mapper id, the name-table mirroring, and the size of
/// character RAM to provide when the cartridge ships no character ROM.
#[derive(Debug)]
pub struct Rom {
    pub prg_rom: Vec<Vec<u8>>,
    pub chr_rom: Vec<u8>,
    pub mapper: u8,
    pub mirroring: Mirroring,
    pub chr_ram_size: usize,
}

/// The image begins with the iNES magic "NES" followed by 0x1a.
pub open spec fn ines_magic_ok(d: Seq<u8>) -> bool {
    d.len() >= 16 && d[0] == 0x4eu8 && d[1] == 0x45u8 && d[2] == 0x53u8 && d[3] == 0x1au8
}

/// Some broken dumps carry the text "DiskDude!" in header bytes 7..16;
/// those bytes are then treated as zero.
pub open spec fn ines_diskdude(d: Seq<u8>) -> bool {
    &&& d.len() >= 16
    &&& d[7] == 0x44u8
    &&& d[8] == 0x69u8
    &&& d[9] == 0x73u8
    &&& d[10] == 0x6bu8
    &&& d[11] == 0x44u8
    &&& d[12] == 0x75u8
    &&& d[13] == 0x64u8
    &&& d[14] == 0x65u8
    &&& d[15] == 0x21u8
}

/// Header byte 7 after the DiskDude! repair.
pub open spec fn ines_header7(d: Seq<u8>) -> u8 {
    if ines_diskdude(d) {
        0u8
    } else {
        d[7]
    }
}

/// The mapper id: high nibble of header byte 6 below the high nibble of
/// header byte 7.
pub open spec fn ines_mapper(d: Seq<u8>) -> u8 {
    (d[6] >> 4) | (ines_header7(d) & 0xf0)
}

/// The name-table mirroring declared in header byte 6.
pub open spec fn ines_mirroring(d: Seq<u8>) -> Mirroring {
    if d[6] & 0x08 != 0 {
        Mirroring::FourScreen
    } else if d[6] & 0x01 != 0 {
        Mirroring::Vertical
    } else {
        Mirroring::Horizontal
    }
}

/// Whether a 512-byte trainer sits between the header and the program
/// banks.
pub open spec fn ines_has_trainer(d: Seq<u8>) -> bool {
    d[6] & 0x04 != 0
}

/// Where the program banks start in the image.
pub open spec fn ines_prg_start(d: Seq<u8>) -> int {
    if ines_has_trainer(d) {
        528int
    } else {
        16int
    }
}

/// A well-formed image: magic present and long enough for the declared
/// trainer, program banks and character ROM.
pub open spec fn ines_valid(d: Seq<u8>) -> bool {
    &&& ines_magic_ok(d)
    &&& d.len() >= ines_prg_start(d) + (d[4] as int) * 16384 + (d[5] as int) * 8192
}

/// Program bank `i` of the image.
pub open spec fn ines_prg_bank(d: Seq<u8>, i: int) -> Seq<u8> {
    d.subrange(ines_prg_start(d) + i * 16384, ines_prg_start(d) + (i + 1) * 16384)
}

/// The flat character ROM block of the image.
pub open spec fn ines_chr(d: Seq<u8>) -> Seq<u8> {
    let start = ines_prg_start(d) + (d[4] as int) * 16384;
    d.subrange(start, start + (d[5] as int) * 8192)
}

impl Rom {
    /// All program banks are full 16 KiB banks, and character ROM comes
    /// in whole 8 KiB units; character RAM substitutes only when there
    /// is no character ROM.
    pub open spec fn wf(self) -> bool {
        &&& forall|i: int|
            0 <= i < self.prg_rom@.len() ==> (#[trigger] self.prg_rom@[i])@.len() == 16384
        &&& self.chr_rom@.len() % 8192 == 0
        &&& self.chr_rom@.len() == 0 ==> self.chr_ram_size >= 8192
    }

    /// Parse an iNES image: check the magic, repair a "DiskDude!"
    /// header, skip a trainer when one is declared, and cut the program
    /// and character blocks out of the image. Rejected exactly when the
    /// magic is absent or the image is shorter than its header declares.
    pub fn load(data: &Vec<u8>) -> (r: Result<Rom, RomError>)
        ensures
            r is Ok <==> ines_valid(data@),
            r matches Ok(rom) ==> {
                &&& rom.wf()
                &&& rom.prg_rom@.len() == data@[4] as int
                &&& forall|i: int|
                    0 <= i < rom.prg_rom@.len() ==> (#[trigger] rom.prg_rom@[i])@
                        == ines_prg_bank(data@, i)
                &&& rom.chr_rom@ == ines_chr(data@)
                &&& rom.mapper == ines_mapper(data@)
                &&& rom.mirroring == ines_mirroring(data@)
                &&& rom.chr_ram_size == 8192
            },
    {
        if data.len() < 16 {
            return Err(RomError::InvalidData);
        }
        if !(data[0] == 0x4e && data[1] == 0x45 && data[2] == 0x53 && data[3] == 0x1a) {
            return Err(RomError::InvalidData);
        }

        let diskdude = data[7] == 0x44 && data[8] == 0x69 && data[9] == 0x73 && data[10] == 0x6b
            && data[11] == 0x44 && data[12] == 0x75 && data[13] == 0x64 && data[14] == 0x65
            && data[15] == 0x21;
        let header7: u8 = if diskdude {
            0
        } else {
            data[7]
        };

        let prg_count = data[4] as usize;
        let chr_count = data[5] as usize;
        let prg_start: usize = if data[6] & 0x04 != 0 {
            16 + 512
        } else {
            16
        };

        if data.len() < prg_start + prg_count * 16384 + chr_count * 8192 {
            return Err(RomError::InvalidData);
        }

        let mut prg_rom: Vec<Vec<u8>> = Vec::new();
        let mut i: usize = 0;
        while i < prg_count
            invariant
                i <= prg_count,
                prg_rom@.len() == i,
                prg_count == data@[4] as int,
                prg_start == ines_prg_start(data@),
                data@.len() >= prg_start + prg_count * 16384 + chr_count * 8192,
                forall|k: int|
                    0 <= k < i ==> (#[trigger] prg_rom@[k])@ == ines_prg_bank(data@, k),
            decreases prg_count - i,
        {
            let bank = copy_range(data, prg_start + i * 16384, 16384);
            proof {
                assert(bank@ == ines_prg_bank(data@, i as int));
            }
            prg_rom.push(bank);
            i = i + 1;
        }

        let chr_start = prg_start + prg_count * 16384;
        let chr_rom = copy_range(data, chr_start, chr_count * 8192);

        let mapper = (data[6] >> 4) | (header7 & 0xf0);
        let mirroring = if data[6] & 0x08 != 0 {
            Mirroring::FourScreen
        } else if data[6] & 0x01 != 0 {
            Mirroring::Vertical
        } else {
            Mirroring::Horizontal
        };

        proof {
            assert(chr_rom@.len() % 8192 == 0) by (nonlinear_arith)
                requires
                    chr_rom@.len() == chr_count * 8192,
            ;
        }

        Ok(
            Rom {
                prg_rom,
                chr_rom,
                mapper,
                mirroring,
                chr_ram_size: 8192,
            },
        )
    }
}

/// A copy of `len` bytes of `data` starting at `start`.
fn copy_range(data: &Vec<u8>, start: usize, len: usize) -> (r: Vec<u8>)
    requires
        start + len <= data@.len(),
    ensures
        r@ == data@.subrange(start as int, start as int + len as int),
{
    let n = data.len();
    let mut out: Vec<u8> = Vec::new();
    let mut i: usize = 0;
    while i < len
        invariant
            i <= len,
            start + len <= n,
            n == data@.len(),
            out@.len() == i,
            forall|k: int| 0 <= k < i ==> out@[k] == data@[start + k],
        decreases len - i,
    {
        out.push(data[start + i]);
        i = i + 1;
    }
    proof {
        assert(out@ =~= data@.subrange(start as int, start as int + len as int));
    }
    out
}

} // verus!
