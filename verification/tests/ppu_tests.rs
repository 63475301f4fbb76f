//! Register-level and timing tests of the picture processing unit.

use nes_rs::ppu::{Ppu, CTRL_INCR_FLAG, CTRL_NMI_FLAG, STATUS_VBLANK_FLAG};

#[test]
fn mod_test_write_ctrl() {
    let mut ppu = Ppu::new();

    ppu.write_ctrl(0xff);

    assert_eq!(ppu.ctrl, 0xff);
    assert_eq!(ppu.tmp_vram_addr, 0x0c00);
}

#[test]
fn mod_test_write_scroll() {
    let mut ppu = Ppu::new();

    ppu.write_scroll(0x7d);

    assert_eq!(ppu.scroll, 0x05);
    assert_eq!(ppu.tmp_vram_addr, 0x0f);
    assert!(ppu.write_flag);

    ppu.write_scroll(0x5e);

    assert_eq!(ppu.tmp_vram_addr, 0x616f);
    assert!(!ppu.write_flag);
}

#[test]
fn mod_test_writing_to_vram() {
    let mut ppu = Ppu::new();

    ppu.read_status();
    ppu.write_vram_addr(0x21);
    ppu.write_vram_addr(0x08);
    ppu.write_vram_data(0xff);
    ppu.write_vram_data(0xfe);

    assert_eq!(ppu.vram.read(0x2108), 0xff);
    assert_eq!(ppu.vram.read(0x2109), 0xfe);

    ppu.ctrl = ppu.ctrl | CTRL_INCR_FLAG;
    ppu.read_status();
    ppu.write_vram_addr(0x21);
    ppu.write_vram_addr(0x08);
    ppu.write_vram_data(0xaa);
    ppu.write_vram_data(0xab);

    assert_eq!(ppu.vram.read(0x2108), 0xaa);
    assert_eq!(ppu.vram.read(0x2108 + 32), 0xab);
}

#[test]
fn mod_test_writing_to_spr_ram() {
    let mut ppu = Ppu::new();

    ppu.write_spr_ram_addr(0x08);
    ppu.write_spr_ram_data(0xff);
    ppu.write_spr_ram_data(0xfe);

    assert_eq!(ppu.spr_ram[0x08 as usize], 0xff);
    assert_eq!(ppu.spr_ram[0x09 as usize], 0xfe);
}

#[test]
fn ppu_test_write_ctrl() {
    let mut ppu = Ppu::new();

    ppu.write_ctrl(0xff);

    assert_eq!(ppu.ctrl, 0xff);
    assert_eq!(ppu.tmp_vram_addr, 0x0c00);
}

#[test]
fn ppu_test_write_scroll() {
    let mut ppu = Ppu::new();

    ppu.write_scroll(0x7d);

    assert_eq!(ppu.scroll, 0x05);
    assert_eq!(ppu.tmp_vram_addr, 0x0f);
    assert!(ppu.write_flag);

    ppu.write_scroll(0x5e);

    assert_eq!(ppu.tmp_vram_addr, 0x616f);
    assert!(!ppu.write_flag);
}

#[test]
fn ppu_test_writing_to_vram() {
    let mut ppu = Ppu::new();

    ppu.read_status();
    ppu.write_vram_addr(0x21);
    ppu.write_vram_addr(0x08);
    ppu.write_vram_data(0xff);
    ppu.write_vram_data(0xfe);

    assert_eq!(ppu.vram.read(0x2108), 0xff);
    assert_eq!(ppu.vram.read(0x2109), 0xfe);

    ppu.ctrl = ppu.ctrl | CTRL_INCR_FLAG;
    ppu.read_status();
    ppu.write_vram_addr(0x21);
    ppu.write_vram_addr(0x08);
    ppu.write_vram_data(0xaa);
    ppu.write_vram_data(0xab);

    assert_eq!(ppu.vram.read(0x2108), 0xaa);
    assert_eq!(ppu.vram.read(0x2108 + 32), 0xab);
}

#[test]
fn ppu_test_writing_to_spr_ram() {
    let mut ppu = Ppu::new();

    ppu.write_spr_ram_addr(0x08);
    ppu.write_spr_ram_data(0xff);
    ppu.write_spr_ram_data(0xfe);

    assert_eq!(ppu.spr_ram[0x08 as usize], 0xff);
    assert_eq!(ppu.spr_ram[0x09 as usize], 0xfe);
}

#[test]
fn vblank_sets_after_exact_tick_count() {
    let mut ppu = Ppu::new();

    // one tick short of the blank: the flag is still down
    for _ in 0..(241 * 341) {
        ppu.step();
    }
    assert_eq!(ppu.status & STATUS_VBLANK_FLAG, 0);

    // the next tick lands on line 241 dot 1 and raises it
    ppu.step();
    assert_ne!(ppu.status & STATUS_VBLANK_FLAG, 0);
}

#[test]
fn frame_ends_exactly_once_per_frame() {
    let mut ppu = Ppu::new();

    let mut frames: u32 = 0;
    for _ in 0..(262 * 341) {
        if ppu.step().end_frame {
            frames += 1;
        }
    }
    assert_eq!(frames, 1);
    assert_eq!(ppu.scanline, 0);
    assert_eq!(ppu.cycle, 0);
    // the vblank flag went up and came back down within the frame
    assert_eq!(ppu.status & STATUS_VBLANK_FLAG, 0);
}

#[test]
fn vblank_raises_nmi_when_enabled() {
    let mut ppu = Ppu::new();
    ppu.write_ctrl(CTRL_NMI_FLAG);

    let mut saw_nmi = false;
    for _ in 0..(241 * 341 + 1) {
        if ppu.step().nmi {
            saw_nmi = true;
        }
    }
    assert!(saw_nmi);
}

#[test]
fn status_read_merges_open_bus_and_clears_vblank() {
    let mut ppu = Ppu::new();
    ppu.status = 0xe3;
    ppu.open_bus = 0x5f;

    let r = ppu.read_status();

    assert_eq!(r, (0xe3 & 0xe0) | (0x5f & 0x1f));
    assert_eq!(ppu.status, 0x63);
    assert!(!ppu.write_flag);
    assert_eq!(ppu.open_bus, r);
}

#[test]
fn buffered_read_lags_by_one_access() {
    let mut ppu = Ppu::new();

    ppu.read_status();
    ppu.write_vram_addr(0x21);
    ppu.write_vram_addr(0x00);
    ppu.write_vram_data(0x42);

    ppu.read_status();
    ppu.write_vram_addr(0x21);
    ppu.write_vram_addr(0x00);

    // the first read returns the stale buffer, the second the byte
    let stale = ppu.read_vram_data();
    let fresh = ppu.read_vram_data();
    assert_eq!(stale, 0);
    assert_eq!(fresh, 0x42);
}

#[test]
fn system_palette_entry_zero() {
    assert_eq!(nes_rs::ppu::system_palette_color(0), 0x757575);
    assert_eq!(nes_rs::ppu::system_palette_color(32), 0xffffff);
    assert_eq!(nes_rs::ppu::system_palette_color(64), 0x757575);
}

#[test]
fn odd_frames_skip_one_dot_when_rendering() {
    let mut ppu = Ppu::new();
    ppu.write_mask(0x08);

    // the first frame after power-on is even: full length
    let mut n: u32 = 0;
    loop {
        n += 1;
        if ppu.step().end_frame {
            break;
        }
    }
    assert_eq!(n, 262 * 341);

    // the next frame is odd: dot 340 of the pre-render line is skipped
    let mut n2: u32 = 0;
    loop {
        n2 += 1;
        if ppu.step().end_frame {
            break;
        }
    }
    assert_eq!(n2, 262 * 341 - 1);

    // with rendering off no dot is skipped
    ppu.write_mask(0);
    let mut n3: u32 = 0;
    loop {
        n3 += 1;
        if ppu.step().end_frame {
            break;
        }
    }
    assert_eq!(n3, 262 * 341);
}
