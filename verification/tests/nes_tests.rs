//! Whole-machine tests: the CPU running out of a cartridge through the
//! memory map, the frame loop, and the bus behaviours around them.

use nes_rs::interconnect::Interconnect;
use nes_rs::joypad::ButtonState;
use nes_rs::nes::Nes;
use nes_rs::rom::Rom;

fn idle_buttons() -> ButtonState {
    ButtonState {
        a: false,
        b: false,
        select: false,
        start: false,
        up: false,
        down: false,
        left: false,
        right: false,
    }
}

/// A one-bank NROM cartridge with `program` at 0xc000 and the reset
/// vector pointing there.
fn cartridge(program: &[u8]) -> Rom {
    let mut bank = vec![0u8; 16384];
    bank[..program.len()].copy_from_slice(program);
    // the single bank mirrors, so 0xfffc falls at offset 0x3ffc
    bank[0x3ffc] = 0x00;
    bank[0x3ffd] = 0xc0;
    let mut image = vec![0x4e, 0x45, 0x53, 0x1a, 1, 0, 0, 0, 0, 0, 0, 0, 0, 0, 0, 0];
    image.extend(bank);
    Rom::load(&image).unwrap()
}

#[test]
fn reset_loads_the_reset_vector() {
    let mut nes = Nes::new(cartridge(&[0xea]));
    nes.reset();
    assert_eq!(nes.cpu.pc, 0xc000);
}

#[test]
fn a_frame_runs_the_program() {
    // LDA #$01; ADC #$01; JMP $c004
    let mut nes = Nes::new(cartridge(&[0xa9, 0x01, 0x69, 0x01, 0x4c, 0x04, 0xc0]));
    nes.reset();

    nes.run_frame(idle_buttons());

    assert_eq!(nes.cpu.a, 0x02);
    // no operation flags; only the interrupt-disable bit from reset
    assert_eq!(nes.cpu.p, 0x04);
    // with rendering disabled the frame stays on the backdrop
    let frame = nes.screen();
    assert_eq!(frame.len(), 256 * 240);
    assert!(frame.iter().all(|&p| p == 0));
}

#[test]
fn oam_dma_copies_a_page_and_costs_512_cycles() {
    // LDA #$02; STA $4014
    let mut nes = Nes::new(cartridge(&[0xa9, 0x02, 0x8d, 0x14, 0x40]));
    nes.reset();
    for i in 0..256u16 {
        nes.interconnect.write_word(0x0200 + i, i as u8);
    }

    assert_eq!(nes.cpu.step(&mut nes.interconnect), 2);
    let cycles = nes.cpu.step(&mut nes.interconnect);

    assert_eq!(cycles, 4 + 512);
    assert_eq!(nes.interconnect.ppu.spr_ram[0], 0);
    assert_eq!(nes.interconnect.ppu.spr_ram[17], 17);
    assert_eq!(nes.interconnect.ppu.spr_ram[255], 255);
}

#[test]
fn work_ram_mirrors_every_0x800_bytes() {
    let mut nes = Nes::new(cartridge(&[0xea]));
    nes.interconnect.write_word(0x0005, 0xab);
    assert_eq!(nes.interconnect.read_word(0x0805), 0xab);
    assert_eq!(nes.interconnect.read_word(0x1805), 0xab);

    nes.interconnect.write_word(0x1fff, 0x12);
    assert_eq!(nes.interconnect.read_word(0x07ff), 0x12);
}

#[test]
fn program_ram_stores_bytes() {
    let mut nes = Nes::new(cartridge(&[0xea]));
    nes.interconnect.write_word(0x6123, 0x77);
    assert_eq!(nes.interconnect.read_word(0x6123), 0x77);
    // no mirroring within the 8 KiB window
    assert_eq!(nes.interconnect.read_word(0x7123), 0x00);
}

#[test]
fn undriven_reads_return_the_open_bus() {
    let mut nes = Nes::new(cartridge(&[0xea]));
    nes.interconnect.write_word(0x4020, 0x57);
    assert_eq!(nes.interconnect.read_word(0x5000), 0x57);
    // the APU status read drives only the upper nibble from the latch
    assert_eq!(nes.interconnect.read_word(0x4015), 0x50);
}

#[test]
fn ppu_registers_repeat_every_eight_bytes() {
    let mut nes = Nes::new(cartridge(&[0xea]));
    nes.interconnect.write_word(0x2000, 0x80);
    assert_eq!(nes.interconnect.ppu.ctrl, 0x80);
    nes.interconnect.write_word(0x2009, 0x1e);
    assert_eq!(nes.interconnect.ppu.mask, 0x1e);
}

#[test]
fn joypad_shifts_through_the_bus() {
    let mut nes = Nes::new(cartridge(&[0xea]));
    nes.interconnect.joypad1.set_state(ButtonState {
        a: true,
        b: false,
        select: true,
        start: false,
        up: false,
        down: false,
        left: false,
        right: false,
    });

    nes.interconnect.write_word(0x4016, 1);
    nes.interconnect.write_word(0x4016, 0);

    let expected = [1, 0, 1, 0, 0, 0, 0, 0];
    for &bit in &expected {
        assert_eq!(nes.interconnect.read_word(0x4016) & 1, bit);
    }
    assert_eq!(nes.interconnect.read_word(0x4016) & 1, 1);
}

#[test]
fn the_cpu_reads_the_cartridge_through_the_bus() {
    let mut nes = Nes::new(cartridge(&[0x12, 0x34]));
    assert_eq!(nes.interconnect.read_word(0xc000), 0x12);
    assert_eq!(nes.interconnect.read_word(0xc001), 0x34);
    // the single bank mirrors into the lower window
    assert_eq!(nes.interconnect.read_word(0x8000), 0x12);
}

#[test]
fn vblank_nmi_reaches_the_cpu() {
    // the main program enables the vblank NMI and spins; the NMI
    // handler at 0xc100 stores a marker into the zero page
    let mut bank = vec![0u8; 16384];
    let program: &[u8] = &[0xa9, 0x80, 0x8d, 0x00, 0x20, 0x4c, 0x05, 0xc0];
    bank[..program.len()].copy_from_slice(program);
    let handler: &[u8] = &[0xa9, 0x42, 0x85, 0x00, 0x4c, 0x04, 0xc1];
    bank[0x100..0x100 + handler.len()].copy_from_slice(handler);
    bank[0x3ffa] = 0x00; // NMI vector -> 0xc100
    bank[0x3ffb] = 0xc1;
    bank[0x3ffc] = 0x00; // reset vector -> 0xc000
    bank[0x3ffd] = 0xc0;
    let mut image = vec![0x4e, 0x45, 0x53, 0x1a, 1, 0, 0, 0, 0, 0, 0, 0, 0, 0, 0, 0];
    image.extend(bank);
    let rom = Rom::load(&image).unwrap();

    let mut nes = Nes::new(rom);
    nes.reset();
    nes.run_frame(idle_buttons());

    assert_eq!(nes.interconnect.read_word(0x0000), 0x42);
}
