//! iNES image parsing.

use nes_rs::rom::{Mirroring, Rom, RomError};

fn image(prg_banks: usize, chr_banks: usize, flags6: u8, flags7: u8) -> Vec<u8> {
    let mut data = vec![
        0x4e, 0x45, 0x53, 0x1a, prg_banks as u8, chr_banks as u8, flags6, flags7, 0, 0, 0, 0, 0,
        0, 0, 0,
    ];
    if flags6 & 0x04 != 0 {
        data.extend(vec![0u8; 512]);
    }
    for bank in 0..prg_banks {
        data.extend(vec![bank as u8 + 1; 16384]);
    }
    for bank in 0..chr_banks {
        data.extend(vec![0x80 + bank as u8; 8192]);
    }
    data
}

#[test]
fn parses_a_plain_image() {
    let rom = Rom::load(&image(2, 1, 0x00, 0x00)).unwrap();
    assert_eq!(rom.prg_rom.len(), 2);
    assert_eq!(rom.prg_rom[0].len(), 16384);
    assert_eq!(rom.prg_rom[0][0], 1);
    assert_eq!(rom.prg_rom[1][0], 2);
    assert_eq!(rom.chr_rom.len(), 8192);
    assert_eq!(rom.chr_rom[0], 0x80);
    assert_eq!(rom.mapper, 0);
    assert_eq!(rom.mirroring, Mirroring::Horizontal);
}

#[test]
fn rejects_a_missing_magic() {
    let mut data = image(1, 0, 0, 0);
    data[0] = 0x4d;
    assert_eq!(Rom::load(&data).unwrap_err(), RomError::InvalidData);
}

#[test]
fn rejects_a_truncated_image() {
    let mut data = image(2, 1, 0, 0);
    data.truncate(data.len() - 1);
    assert_eq!(Rom::load(&data).unwrap_err(), RomError::InvalidData);
}

#[test]
fn extracts_the_mapper_id() {
    let rom = Rom::load(&image(1, 0, 0x20, 0x10)).unwrap();
    assert_eq!(rom.mapper, 0x12);
}

#[test]
fn zeroes_a_diskdude_header() {
    let mut data = image(1, 0, 0x20, 0x44);
    data[8..16].copy_from_slice(b"iskDude!");
    let rom = Rom::load(&data).unwrap();
    // the high nibble of header byte 7 is ignored
    assert_eq!(rom.mapper, 0x02);
}

#[test]
fn reads_mirroring_bits() {
    assert_eq!(Rom::load(&image(1, 0, 0x01, 0)).unwrap().mirroring, Mirroring::Vertical);
    assert_eq!(Rom::load(&image(1, 0, 0x08, 0)).unwrap().mirroring, Mirroring::FourScreen);
    assert_eq!(Rom::load(&image(1, 0, 0x09, 0)).unwrap().mirroring, Mirroring::FourScreen);
}

#[test]
fn skips_a_declared_trainer() {
    let rom = Rom::load(&image(1, 0, 0x04, 0)).unwrap();
    assert_eq!(rom.prg_rom[0][0], 1);
}

#[test]
fn provides_character_ram_when_no_chr_ships() {
    let rom = Rom::load(&image(1, 0, 0, 0)).unwrap();
    assert_eq!(rom.chr_rom.len(), 0);
    assert_eq!(rom.chr_ram_size, 8192);
}
