//! Mirroring behaviour of the PPU address space.

use nes_rs::rom::Mirroring;
use nes_rs::vram::Vram;

#[test]
fn palette_mirror_entries_alias_their_base() {
    let mut vram = Vram::new();

    vram.write(0x3f10, 0x11);
    vram.write(0x3f14, 0x22);
    vram.write(0x3f18, 0x33);
    vram.write(0x3f1c, 0x44);

    assert_eq!(vram.read(0x3f00), 0x11);
    assert_eq!(vram.read(0x3f04), 0x22);
    assert_eq!(vram.read(0x3f08), 0x33);
    assert_eq!(vram.read(0x3f0c), 0x44);

    // and the base entries are visible through the mirrors
    vram.write(0x3f00, 0x55);
    assert_eq!(vram.read(0x3f10), 0x55);
}

#[test]
fn palette_region_repeats_every_32_bytes() {
    let mut vram = Vram::new();
    vram.write(0x3f21, 0x66);
    assert_eq!(vram.read(0x3f01), 0x66);
    assert_eq!(vram.read(0x3fe1), 0x66);
}

#[test]
fn horizontal_mirroring_pairs_tables() {
    let mut vram = Vram::with_cartridge(Vec::new(), 8192, Mirroring::Horizontal);

    vram.write(0x2005, 0xab);
    assert_eq!(vram.read(0x2405), 0xab);

    vram.write(0x2807, 0xcd);
    assert_eq!(vram.read(0x2c07), 0xcd);

    // the two pairs stay distinct
    assert_eq!(vram.read(0x2007), 0x00);
}

#[test]
fn vertical_mirroring_pairs_tables() {
    let mut vram = Vram::with_cartridge(Vec::new(), 8192, Mirroring::Vertical);

    vram.write(0x2005, 0xab);
    assert_eq!(vram.read(0x2805), 0xab);

    vram.write(0x2407, 0xcd);
    assert_eq!(vram.read(0x2c07), 0xcd);

    assert_eq!(vram.read(0x2405), 0x00);
}

#[test]
fn name_table_region_mirrors_at_0x3000() {
    let mut vram = Vram::new();
    vram.write(0x2123, 0x77);
    assert_eq!(vram.read(0x3123), 0x77);
}

#[test]
fn character_ram_accepts_writes() {
    let mut vram = Vram::new();
    vram.write(0x0123, 0x99);
    assert_eq!(vram.read(0x0123), 0x99);
}

#[test]
fn character_rom_ignores_writes() {
    let mut chr = vec![0u8; 8192];
    chr[0x0123] = 0x42;
    let mut vram = Vram::with_cartridge(chr, 8192, Mirroring::Horizontal);

    vram.write(0x0123, 0x99);
    assert_eq!(vram.read(0x0123), 0x42);
}
