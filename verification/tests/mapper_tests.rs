//! Cartridge address translation.

use nes_rs::mapper::{Mapper, Nrom, Unrom};
use nes_rs::rom::{Mirroring, Rom};

fn rom_with_banks(banks: Vec<Vec<u8>>, mapper: u8) -> Rom {
    Rom {
        prg_rom: banks,
        chr_rom: Vec::new(),
        mapper,
        mirroring: Mirroring::Horizontal,
        chr_ram_size: 8192,
    }
}

#[test]
fn nrom_mirrors_a_single_bank() {
    let mut bank = vec![0u8; 16384];
    bank[0x0123] = 0xaa;
    let mapper = Mapper::Nrom(Nrom::new(vec![bank]));

    assert_eq!(mapper.read(0x8123), 0xaa);
    assert_eq!(mapper.read(0xc123), 0xaa);
}

#[test]
fn nrom_maps_two_banks_side_by_side() {
    let mut low = vec![0u8; 16384];
    let mut high = vec![0u8; 16384];
    low[0] = 0x11;
    high[0] = 0x22;
    let mapper = Mapper::Nrom(Nrom::new(vec![low, high]));

    assert_eq!(mapper.read(0x8000), 0x11);
    assert_eq!(mapper.read(0xc000), 0x22);
}

#[test]
fn nrom_ignores_writes() {
    let mut bank = vec![0u8; 16384];
    bank[0] = 0x11;
    let mut mapper = Mapper::Nrom(Nrom::new(vec![bank]));

    mapper.write(0x8000, 0x99);
    assert_eq!(mapper.read(0x8000), 0x11);
}

#[test]
fn unrom_switches_the_low_bank_and_fixes_the_last() {
    let banks: Vec<Vec<u8>> = (0..3u8).map(|i| vec![i + 1; 16384]).collect();
    let mut mapper = Mapper::Unrom(Unrom::new(rom_with_banks(banks, 2)));

    assert_eq!(mapper.read(0x8000), 1);
    assert_eq!(mapper.read(0xc000), 3);

    mapper.write(0x8000, 1);
    assert_eq!(mapper.read(0x8000), 2);
    assert_eq!(mapper.read(0xc000), 3);

    // the select value wraps modulo the bank count
    mapper.write(0xffff, 4);
    assert_eq!(mapper.read(0x8000), 2);
}
