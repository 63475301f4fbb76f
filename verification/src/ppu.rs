use vstd::prelude::*;

use crate::vram::Vram;

verus! {

pub const CTRL_INCR_FLAG: u8 = 0x02;

pub const CTRL_BACKGROUND_FLAG: u8 = 0x10;

pub const CTRL_NMI_FLAG: u8 = 0x80;

pub const MASK_DISPLAY_BACKGROUND: u8 = 0x08;

pub const MASK_DISPLAY_SPRITES: u8 = 0x10;

pub const STATUS_VBLANK_FLAG: u8 = 0x80;

pub const PIXELS: usize = 256 * 240;

/// The 64-entry system palette: the RGB colour of each palette index,
/// taken modulo the table size.
pub open spec fn system_palette(idx: u8) -> u32 {
    match idx % 64 {
        0u8 => 0x757575u32,
        1u8 => 0x271b8fu32,
        2u8 => 0x0000abu32,
        3u8 => 0x47009fu32,
        4u8 => 0x8f0077u32,
        5u8 => 0xab0013u32,
        6u8 => 0xa70000u32,
        7u8 => 0x7f0b00u32,
        8u8 => 0x432f00u32,
        9u8 => 0x004700u32,
        10u8 => 0x005100u32,
        11u8 => 0x003f17u32,
        12u8 => 0x1b3f5fu32,
        13u8 => 0x000000u32,
        14u8 => 0x000000u32,
        15u8 => 0x000000u32,
        16u8 => 0xbcbcbcu32,
        17u8 => 0x0073efu32,
        18u8 => 0x233befu32,
        19u8 => 0x8300f3u32,
        20u8 => 0xbf00bfu32,
        21u8 => 0xe7005bu32,
        22u8 => 0xdb2b00u32,
        23u8 => 0xcb4f0fu32,
        24u8 => 0x8b7300u32,
        25u8 => 0x009700u32,
        26u8 => 0x00ab00u32,
        27u8 => 0x00933bu32,
        28u8 => 0x00838bu32,
        29u8 => 0x000000u32,
        30u8 => 0x000000u32,
        31u8 => 0x000000u32,
        32u8 => 0xffffffu32,
        33u8 => 0x3fbfffu32,
        34u8 => 0x5f97ffu32,
        35u8 => 0xa78bfdu32,
        36u8 => 0xf77bffu32,
        37u8 => 0xff77b7u32,
        38u8 => 0xff7763u32,
        39u8 => 0xff9b3bu32,
        40u8 => 0xf3bf3fu32,
        41u8 => 0x83d313u32,
        42u8 => 0x4fdf4bu32,
        43u8 => 0x58f898u32,
        44u8 => 0x00ebdbu32,
        45u8 => 0x000000u32,
        46u8 => 0x000000u32,
        47u8 => 0x000000u32,
        48u8 => 0xffffffu32,
        49u8 => 0xabe7ffu32,
        50u8 => 0xc7d7ffu32,
        51u8 => 0xd7cbffu32,
        52u8 => 0xffc7ffu32,
        53u8 => 0xffc7dbu32,
        54u8 => 0xffbfb3u32,
        55u8 => 0xffdbabu32,
        56u8 => 0xffe7a3u32,
        57u8 => 0xe3ffa3u32,
        58u8 => 0xabf3bfu32,
        59u8 => 0xb3ffcfu32,
        60u8 => 0x9ffff3u32,
        61u8 => 0x000000u32,
        62u8 => 0x000000u32,
        63u8 => 0x000000u32,
        _ => 0u32,
    }
}

/// The RGB colour of a palette index.
pub fn system_palette_color(idx: u8) -> (r: u32)
    ensures
        r == system_palette(idx),
{
    match idx % 64 {
        0u8 => 0x757575,
        1u8 => 0x271b8f,
        2u8 => 0x0000ab,
        3u8 => 0x47009f,
        4u8 => 0x8f0077,
        5u8 => 0xab0013,
        6u8 => 0xa70000,
        7u8 => 0x7f0b00,
        8u8 => 0x432f00,
        9u8 => 0x004700,
        10u8 => 0x005100,
        11u8 => 0x003f17,
        12u8 => 0x1b3f5f,
        13u8 => 0x000000,
        14u8 => 0x000000,
        15u8 => 0x000000,
        16u8 => 0xbcbcbc,
        17u8 => 0x0073ef,
        18u8 => 0x233bef,
        19u8 => 0x8300f3,
        20u8 => 0xbf00bf,
        21u8 => 0xe7005b,
        22u8 => 0xdb2b00,
        23u8 => 0xcb4f0f,
        24u8 => 0x8b7300,
        25u8 => 0x009700,
        26u8 => 0x00ab00,
        27u8 => 0x00933b,
        28u8 => 0x00838b,
        29u8 => 0x000000,
        30u8 => 0x000000,
        31u8 => 0x000000,
        32u8 => 0xffffff,
        33u8 => 0x3fbfff,
        34u8 => 0x5f97ff,
        35u8 => 0xa78bfd,
        36u8 => 0xf77bff,
        37u8 => 0xff77b7,
        38u8 => 0xff7763,
        39u8 => 0xff9b3b,
        40u8 => 0xf3bf3f,
        41u8 => 0x83d313,
        42u8 => 0x4fdf4b,
        43u8 => 0x58f898,
        44u8 => 0x00ebdb,
        45u8 => 0x000000,
        46u8 => 0x000000,
        47u8 => 0x000000,
        48u8 => 0xffffff,
        49u8 => 0xabe7ff,
        50u8 => 0xc7d7ff,
        51u8 => 0xd7cbff,
        52u8 => 0xffc7ff,
        53u8 => 0xffc7db,
        54u8 => 0xffbfb3,
        55u8 => 0xffdbab,
        56u8 => 0xffe7a3,
        57u8 => 0xe3ffa3,
        58u8 => 0xabf3bf,
        59u8 => 0xb3ffcf,
        60u8 => 0x9ffff3,
        61u8 => 0x000000,
        62u8 => 0x000000,
        63u8 => 0x000000,
        _ => 0,
    }
}

/// Whether the mask register has background or sprite rendering on.
pub open spec fn rendering_on(mask: u8) -> bool {
    mask & (MASK_DISPLAY_BACKGROUND | MASK_DISPLAY_SPRITES) != 0
}

/// The dot counter after one tick.
pub open spec fn next_cycle(c: u16) -> u16 {
    if c < 340 {
        (c + 1) as u16
    } else {
        0u16
    }
}

/// The scanline counter after one tick: line 261 is the pre-render
/// line, and the frame wraps from its last dot to line 0 dot 0.
pub open spec fn next_scanline(s: u16, c: u16) -> u16 {
    if c < 340 {
        s
    } else if s < 261 {
        (s + 1) as u16
    } else {
        0u16
    }
}

/// The skipped dot: on the pre-render line of an odd frame with
/// rendering on, dot 340 is left out and the frame wraps one dot
/// early.
pub open spec fn skip_dot(p: Ppu) -> bool {
    rendering_on(p.mask) && p.odd_frame && p.scanline == 261 && p.cycle == 339
}

/// The scanline the tick lands on, odd-frame skip included.
pub open spec fn tick_scanline(p: Ppu) -> u16 {
    if skip_dot(p) {
        0u16
    } else {
        next_scanline(p.scanline, p.cycle)
    }
}

/// The dot the tick lands on, odd-frame skip included.
pub open spec fn tick_cycle(p: Ppu) -> u16 {
    if skip_dot(p) {
        0u16
    } else {
        next_cycle(p.cycle)
    }
}

/// The dot at which the vertical blank starts.
pub open spec fn vblank_start(s: u16, c: u16) -> bool {
    s == 241 && c == 1
}

/// The dot at which the vertical blank ends, on the pre-render line.
pub open spec fn vblank_end(s: u16, c: u16) -> bool {
    s == 261 && c == 1
}

/// The status byte after the tick that lands on position `(s, c)`: the
/// vblank bit is raised at the start of the blank, and the three event
/// bits are dropped at its end.
pub open spec fn next_status(st: u8, s: u16, c: u16) -> u8 {
    if vblank_start(s, c) {
        st | STATUS_VBLANK_FLAG
    } else if vblank_end(s, c) {
        st & 0x1f
    } else {
        st
    }
}

/// The VRAM address step selected in the control register.
pub open spec fn vram_step(ctrl: u8) -> u16 {
    if ctrl & CTRL_INCR_FLAG == 0 {
        1u16
    } else {
        32u16
    }
}

/// The coarse-X increment of the scroll address: coarse X wraps from 31
/// to 0 and flips the horizontal name-table bit.
pub open spec fn incr_x(v: u16) -> u16 {
    if v & 0x001f == 31 {
        (v & !0x001fu16) ^ 0x0400
    } else {
        v.wrapping_add(1)
    }
}

/// The Y increment of the scroll address: fine Y carries into coarse Y,
/// and coarse Y wraps from 29 to 0 flipping the vertical name-table bit
/// (or from 31 to 0 without the flip).
pub open spec fn incr_y(v: u16) -> u16 {
    if v & 0x7000 != 0x7000 {
        v.wrapping_add(0x1000)
    } else {
        let v2 = v & !0x7000u16;
        let y = (v2 & 0x03e0) >> 5u16;
        if y == 29 {
            (v2 & !0x03e0u16) ^ 0x0800
        } else if y == 31 {
            v2 & !0x03e0u16
        } else {
            (v2 & !0x03e0u16) | ((y + 1) as u16) << 5u16
        }
    }
}

/// The VRAM address after a data-port access: during rendering the
/// hardware performs the coarse-X and Y increments; outside rendering
/// it steps by 1 or 32 as the control register selects.
pub open spec fn vram_addr_after_access(v: u16, ctrl: u8, mask: u8, scanline: u16) -> u16 {
    if rendering_on(mask) && (scanline < 240 || scanline == 261) {
        incr_y(incr_x(v)) & 0x7fff
    } else {
        v.wrapping_add(vram_step(ctrl)) & 0x7fff
    }
}


/// Pixel `i` (leftmost first) of a latched tile: the attribute bits over
/// bit `7 - i` of the high and low pattern bytes.
pub open spec fn tile_nibble(low: u8, high: u8, attr: u8, i: int) -> u8 {
    attr | (((high << (i as u8)) & 0x80) >> 6u8) | (((low << (i as u8)) & 0x80) >> 7u8)
}

/// The first `n` pixels of a latched tile packed as four-bit groups,
/// leftmost pixel in the highest group.
pub open spec fn tile_pixels(low: u8, high: u8, attr: u8, n: nat) -> u64
    decreases n,
{
    if n == 0 {
        0u64
    } else {
        (tile_pixels(low, high, attr, (n - 1) as nat) << 4u64) | (tile_nibble(
            low,
            high,
            attr,
            n - 1,
        ) as u64)
    }
}

/// A shift by nothing moves nothing.
proof fn lemma_shl_zero(x: u8)
    by (bit_vector)
    ensures
        x << 0u8 == x,
{
}

/// Shifting a byte one more place left lands where shifting by the sum
/// does.
proof fn lemma_shl_step(x: u8, i: u8)
    by (bit_vector)
    requires
        i < 7,
    ensures
        (x << i) << 1u8 == x << ((i + 1) as u8),
{
}

/// The scroll address after the background schedule of dot `(s, c)`:
/// coarse X steps at the end of each tile fetch, Y steps at dot 257,
/// the horizontal bits return from `t` after the Y step on visible
/// lines, and the vertical bits return from `t` during dots 280..304
/// of the pre-render line.
pub open spec fn render_vram_addr(v: u16, t: u16, s: u16, c: u16) -> u16 {
    if s < 240 {
        if (1 <= c <= 256) || (321 <= c <= 336) {
            if c % 8 == 0 {
                incr_x(v)
            } else {
                v
            }
        } else if c == 257 {
            (incr_y(v) & 0xfbe0) | (t & 0x041f)
        } else {
            v
        }
    } else if s == 261 {
        if (1 <= c <= 256) || (321 <= c <= 336) {
            if c % 8 == 0 {
                incr_x(v)
            } else {
                v
            }
        } else if c == 257 {
            incr_y(v)
        } else if 280 <= c <= 304 {
            (v & 0x841f) | (t & 0x7be0)
        } else {
            v
        }
    } else {
        v
    }
}

/// Every step of the scroll address keeps it inside its 15 bits.
proof fn lemma_scroll_addr_bounds(v: u16, t: u16)
    by (bit_vector)
    requires
        v <= 0x7fff,
    ensures
        incr_x(v) <= 0x7fff,
        incr_y(v) <= 0x7fff,
        incr_y(incr_x(v)) <= 0x7fff,
        ((incr_y(v) & 0xfbe0) | (t & 0x041f)) <= 0x7fff,
        ((v & 0x841f) | (t & 0x7be0)) <= 0x7fff,
{
}

/// What one PPU tick reports back to the machine.
pub struct CycleResult {
    pub end_frame: bool,
    pub nmi: bool,
}

impl CycleResult {
    fn new(end_frame: bool, nmi: bool) -> (r: CycleResult)
        ensures
            r.end_frame == end_frame,
            r.nmi == nmi,
    {
        CycleResult { end_frame, nmi }
    }
}

/// The picture processing unit: register file, scroll state, the
/// background fetch pipeline, sprite memory, video memory and the
/// finished frame.
pub struct Ppu {
    pub ctrl: u8,
    pub mask: u8,
    pub status: u8,
    pub spr_ram_addr: u8,
    pub scroll: u8,
    pub vram_addr: u16,
    pub tmp_vram_addr: u16,
    pub write_flag: bool,
    pub vram: Vram,
    pub spr_ram: Vec<u8>,
    pub screen: Vec<u32>,
    pub name_table_byte: u8,
    pub attribute_table_byte: u8,
    pub low_bg_tile_byte: u8,
    pub high_bg_tile_byte: u8,
    pub tile_data: u64,
    pub buffered_read: u8,
    pub open_bus: u8,
    pub odd_frame: bool,
    pub cycle: u16,
    pub scanline: u16,
}

/// The register file and memories a tick never touches.
pub open spec fn regs_unchanged(pre: Ppu, post: Ppu) -> bool {
    &&& post.ctrl == pre.ctrl
    &&& post.mask == pre.mask
    &&& post.status == pre.status
    &&& post.spr_ram_addr == pre.spr_ram_addr
    &&& post.scroll == pre.scroll
    &&& post.tmp_vram_addr == pre.tmp_vram_addr
    &&& post.write_flag == pre.write_flag
    &&& post.open_bus == pre.open_bus
    &&& post.spr_ram == pre.spr_ram
    &&& post.vram == pre.vram
    &&& post.odd_frame == pre.odd_frame
}

/// The fetch pipeline and frame state a register access never touches.
pub open spec fn pipeline_unchanged(pre: Ppu, post: Ppu) -> bool {
    &&& post.name_table_byte == pre.name_table_byte
    &&& post.attribute_table_byte == pre.attribute_table_byte
    &&& post.low_bg_tile_byte == pre.low_bg_tile_byte
    &&& post.high_bg_tile_byte == pre.high_bg_tile_byte
    &&& post.tile_data == pre.tile_data
    &&& post.cycle == pre.cycle
    &&& post.scanline == pre.scanline
    &&& post.screen == pre.screen
    &&& post.odd_frame == pre.odd_frame
}

/// The bit position that selects the current pixel's nibble out of the
/// background shift register, for a fine-X scroll value.
pub open spec fn pixel_shift(scroll: u8) -> u64 {
    (32 + (7 - (scroll & 7)) * 4) as u64
}

/// The palette address the background pipeline reads for the current
/// pixel.
pub open spec fn bg_palette_addr(p: Ppu) -> u16 {
    (((0x3f00u64 | (p.tile_data >> pixel_shift(p.scroll))) & 0xffff) as u16)
}

/// The colour the background pipeline emits for the current pixel.
pub open spec fn bg_pixel_color(p: Ppu) -> u32 {
    system_palette(p.vram.spec_read(bg_palette_addr(p)))
}

/// Where the current dot's pixel lands in the frame buffer.
pub open spec fn pixel_index(s: u16, c: u16) -> int {
    256 * s + c - 1
}

/// What a write of `value` to PPU register `reg` (0..7) does, exactly
/// as the register table specifies: the relation between the PPU before
/// and after the write.
pub open spec fn ppu_register_written(pre: Ppu, post: Ppu, reg: u16, value: u8) -> bool {
    if reg == 0 {
        post == (Ppu {
            ctrl: value,
            tmp_vram_addr: (pre.tmp_vram_addr & 0xf3ff) | (((value & 0x03) as u16) << 10u16),
            open_bus: value,
            ..pre
        })
    } else if reg == 1 {
        post == (Ppu { mask: value, open_bus: value, ..pre })
    } else if reg == 3 {
        post == (Ppu { spr_ram_addr: value, open_bus: value, ..pre })
    } else if reg == 4 {
        &&& pipeline_unchanged(pre, post)
        &&& post.vram == pre.vram
        &&& post.ctrl == pre.ctrl
        &&& post.mask == pre.mask
        &&& post.status == pre.status
        &&& post.scroll == pre.scroll
        &&& post.vram_addr == pre.vram_addr
        &&& post.tmp_vram_addr == pre.tmp_vram_addr
        &&& post.write_flag == pre.write_flag
        &&& post.buffered_read == pre.buffered_read
        &&& post.spr_ram@ == if (pre.spr_ram_addr as int) < pre.spr_ram@.len() {
            pre.spr_ram@.update(pre.spr_ram_addr as int, value)
        } else {
            pre.spr_ram@
        }
        &&& post.spr_ram_addr == pre.spr_ram_addr.wrapping_add(1)
        &&& post.open_bus == value
    } else if reg == 5 {
        if pre.write_flag {
            post == (Ppu {
                tmp_vram_addr: (pre.tmp_vram_addr & 0x0c1f) | (((value & 0x07) as u16) << 12u16)
                    | (((value & 0x38) as u16) << 2u16) | (((value & 0xc0) as u16) << 2u16),
                write_flag: false,
                open_bus: value,
                ..pre
            })
        } else {
            post == (Ppu {
                scroll: value & 0x07,
                tmp_vram_addr: (pre.tmp_vram_addr & 0xffe0) | ((value as u16) >> 3u16),
                write_flag: true,
                open_bus: value,
                ..pre
            })
        }
    } else if reg == 6 {
        if pre.write_flag {
            post == (Ppu {
                tmp_vram_addr: (pre.tmp_vram_addr & 0xff00) | (value as u16),
                vram_addr: (pre.tmp_vram_addr & 0xff00) | (value as u16),
                write_flag: false,
                open_bus: value,
                ..pre
            })
        } else {
            post == (Ppu {
                tmp_vram_addr: (pre.tmp_vram_addr & 0x80ff) | (((value & 0x3f) as u16) << 8u16),
                write_flag: true,
                open_bus: value,
                ..pre
            })
        }
    } else if reg == 7 {
        &&& pipeline_unchanged(pre, post)
        &&& post.spr_ram == pre.spr_ram
        &&& post.ctrl == pre.ctrl
        &&& post.mask == pre.mask
        &&& post.status == pre.status
        &&& post.spr_ram_addr == pre.spr_ram_addr
        &&& post.scroll == pre.scroll
        &&& post.tmp_vram_addr == pre.tmp_vram_addr
        &&& post.write_flag == pre.write_flag
        &&& post.buffered_read == pre.buffered_read
        &&& post.open_bus == value
        &&& post.vram.mirroring() == pre.vram.mirroring()
        &&& post.vram.chr_writable() == pre.vram.chr_writable()
        &&& post.vram.chr() == pre.vram.chr_after(pre.vram_addr, value)
        &&& post.vram.nametables() == pre.vram.nametables_after(pre.vram_addr, value)
        &&& post.vram.palette() == pre.vram.palette_after(pre.vram_addr, value)
        &&& post.vram_addr == vram_addr_after_access(
            pre.vram_addr,
            pre.ctrl,
            pre.mask,
            pre.scanline,
        )
    } else {
        post == (Ppu { open_bus: value, ..pre })
    }
}

/// What a read of PPU register `reg` (0..7) returns and does: status
/// and data reads have side effects, the write-only registers return
/// the PPU's open bus.
pub open spec fn ppu_register_read(pre: Ppu, post: Ppu, reg: u16, r: u8) -> bool {
    if reg == 2 {
        &&& r == (pre.status & 0xe0) | (pre.open_bus & 0x1f)
        &&& post == (Ppu {
            status: pre.status & 0x7f,
            write_flag: false,
            open_bus: (pre.status & 0xe0) | (pre.open_bus & 0x1f),
            ..pre
        })
    } else if reg == 4 {
        &&& r == if (pre.spr_ram_addr as int) < pre.spr_ram@.len() {
            pre.spr_ram@[pre.spr_ram_addr as int]
        } else {
            0u8
        }
        &&& post == (Ppu { open_bus: r, ..pre })
    } else if reg == 7 {
        &&& pipeline_unchanged(pre, post)
        &&& post.spr_ram == pre.spr_ram
        &&& post.vram == pre.vram
        &&& post.ctrl == pre.ctrl
        &&& post.mask == pre.mask
        &&& post.status == pre.status
        &&& post.spr_ram_addr == pre.spr_ram_addr
        &&& post.scroll == pre.scroll
        &&& post.tmp_vram_addr == pre.tmp_vram_addr
        &&& post.write_flag == pre.write_flag
        &&& post.vram_addr == vram_addr_after_access(
            pre.vram_addr,
            pre.ctrl,
            pre.mask,
            pre.scanline,
        )
        &&& (pre.vram_addr as int) % 0x4000 >= 0x3f00 ==> r == pre.vram.spec_read(pre.vram_addr)
            && post.buffered_read == pre.vram.spec_read(
            (((pre.vram_addr as int) % 0x4000) - 0x1000) as u16,
        )
        &&& (pre.vram_addr as int) % 0x4000 < 0x3f00 ==> r == pre.buffered_read
            && post.buffered_read == pre.vram.spec_read(pre.vram_addr)
        &&& post.open_bus == r
    } else {
        r == pre.open_bus && post == pre
    }
}

impl Ppu {
    /// Storage shapes and counter ranges that hold for the whole run.
    pub open spec fn wf(self) -> bool {
        &&& self.spr_ram@.len() == 256
        &&& self.screen@.len() == PIXELS
        &&& self.vram.wf()
        &&& self.cycle <= 340
        &&& self.scanline <= 261
    }

    pub fn new() -> (r: Ppu)
        ensures
            r.wf(),
            r.ctrl == 0 && r.mask == 0 && r.status == 0 && r.spr_ram_addr == 0 && r.scroll == 0,
            r.vram_addr == 0 && r.tmp_vram_addr == 0 && !r.write_flag,
            r.name_table_byte == 0 && r.attribute_table_byte == 0,
            r.low_bg_tile_byte == 0 && r.high_bg_tile_byte == 0,
            r.tile_data == 0 && r.buffered_read == 0 && r.open_bus == 0,
            !r.odd_frame,
            r.cycle == 0 && r.scanline == 0,
            forall|i: int| 0 <= i < 256 ==> r.spr_ram@[i] == 0,
            forall|i: int| 0 <= i < PIXELS ==> r.screen@[i] == 0,
            r.vram.chr_writable(),
            forall|i: int| 0 <= i < r.vram.nametables().len() ==> r.vram.nametables()[i] == 0,
            forall|i: int| 0 <= i < r.vram.palette().len() ==> r.vram.palette()[i] == 0,
    {
        Ppu {
            ctrl: 0,
            mask: 0,
            status: 0,
            spr_ram_addr: 0,
            scroll: 0,
            vram_addr: 0,
            tmp_vram_addr: 0,
            write_flag: false,
            vram: Vram::new(),
            spr_ram: zero_bytes(256),
            screen: zero_pixels(PIXELS),
            name_table_byte: 0,
            attribute_table_byte: 0,
            low_bg_tile_byte: 0,
            high_bg_tile_byte: 0,
            tile_data: 0,
            buffered_read: 0,
            open_bus: 0,
            odd_frame: false,
            cycle: 0,
            scanline: 0,
        }
    }

    /// Build the PPU around the video memory a cartridge provides.
    pub fn with_vram(vram: Vram) -> (r: Ppu)
        requires
            vram.wf(),
        ensures
            r.wf(),
            r.ctrl == 0 && r.mask == 0 && r.status == 0 && r.spr_ram_addr == 0 && r.scroll == 0,
            r.vram_addr == 0 && r.tmp_vram_addr == 0 && !r.write_flag,
            r.tile_data == 0 && r.buffered_read == 0 && r.open_bus == 0,
            !r.odd_frame,
            r.cycle == 0 && r.scanline == 0,
            r.vram == vram,
    {
        Ppu {
            ctrl: 0,
            mask: 0,
            status: 0,
            spr_ram_addr: 0,
            scroll: 0,
            vram_addr: 0,
            tmp_vram_addr: 0,
            write_flag: false,
            vram,
            spr_ram: zero_bytes(256),
            screen: zero_pixels(PIXELS),
            name_table_byte: 0,
            attribute_table_byte: 0,
            low_bg_tile_byte: 0,
            high_bg_tile_byte: 0,
            tile_data: 0,
            buffered_read: 0,
            open_bus: 0,
            odd_frame: false,
            cycle: 0,
            scanline: 0,
        }
    }

    /// A hardware reset: the scroll machinery, the fetch pipeline and
    /// the dot counters return to their power-on values; memories and
    /// registers keep their contents.
    pub fn reset(&mut self)
        ensures
            *final(self) == (Ppu {
                scroll: 0u8,
                vram_addr: 0u16,
                tmp_vram_addr: 0u16,
                write_flag: false,
                name_table_byte: 0u8,
                attribute_table_byte: 0u8,
                low_bg_tile_byte: 0u8,
                high_bg_tile_byte: 0u8,
                tile_data: 0u64,
                buffered_read: 0u8,
                cycle: 0u16,
                scanline: 0u16,
                ..*old(self)
            }),
    {
        self.scroll = 0;
        self.vram_addr = 0;
        self.tmp_vram_addr = 0;
        self.write_flag = false;
        self.name_table_byte = 0;
        self.attribute_table_byte = 0;
        self.low_bg_tile_byte = 0;
        self.high_bg_tile_byte = 0;
        self.tile_data = 0;
        self.buffered_read = 0;
        self.cycle = 0;
        self.scanline = 0;
    }

    /// Read the status register: the three event bits over the open-bus
    /// low bits; the read clears the vblank bit and resets the
    /// two-write toggle.
    pub fn read_status(&mut self) -> (r: u8)
        ensures
            r == (old(self).status & 0xe0) | (old(self).open_bus & 0x1f),
            pipeline_unchanged(*old(self), *final(self)),
            final(self).vram == old(self).vram,
            final(self).spr_ram == old(self).spr_ram,
            final(self).ctrl == old(self).ctrl,
            final(self).mask == old(self).mask,
            final(self).spr_ram_addr == old(self).spr_ram_addr,
            final(self).scroll == old(self).scroll,
            final(self).vram_addr == old(self).vram_addr,
            final(self).tmp_vram_addr == old(self).tmp_vram_addr,
            final(self).buffered_read == old(self).buffered_read,
            final(self).status == old(self).status & 0x7f,
            !final(self).write_flag,
            final(self).open_bus == r,
    {
        let status = (self.status & 0xe0) | (self.open_bus & 0x1f);
        self.status = self.status & 0x7f;
        self.write_flag = false;
        self.open_bus = status;
        status
    }

    /// Write the control register; its low two bits also land in the
    /// name-table bits of the temporary scroll address.
    pub fn write_ctrl(&mut self, value: u8)
        ensures
            pipeline_unchanged(*old(self), *final(self)),
            final(self).vram == old(self).vram,
            final(self).spr_ram == old(self).spr_ram,
            final(self).status == old(self).status,
            final(self).mask == old(self).mask,
            final(self).spr_ram_addr == old(self).spr_ram_addr,
            final(self).scroll == old(self).scroll,
            final(self).vram_addr == old(self).vram_addr,
            final(self).write_flag == old(self).write_flag,
            final(self).buffered_read == old(self).buffered_read,
            final(self).ctrl == value,
            final(self).tmp_vram_addr == (old(self).tmp_vram_addr & 0xf3ff) | (((value
                & 0x03) as u16) << 10u16),
            final(self).open_bus == value,
    {
        self.ctrl = value;
        self.tmp_vram_addr = (self.tmp_vram_addr & 0xf3ff) | (((value & 0x03) as u16) << 10u16);
        self.open_bus = value;
    }

    pub fn write_mask(&mut self, value: u8)
        ensures
            *final(self) == (Ppu { mask: value, open_bus: value, ..*old(self) }),
    {
        self.mask = value;
        self.open_bus = value;
    }

    pub fn write_spr_ram_addr(&mut self, value: u8)
        ensures
            *final(self) == (Ppu { spr_ram_addr: value, open_bus: value, ..*old(self) }),
    {
        self.spr_ram_addr = value;
        self.open_bus = value;
    }

    /// Write a byte of sprite memory at the sprite address, which then
    /// steps forward, wrapping modulo 256.
    pub fn write_spr_ram_data(&mut self, value: u8)
        ensures
            pipeline_unchanged(*old(self), *final(self)),
            final(self).vram == old(self).vram,
            final(self).ctrl == old(self).ctrl,
            final(self).mask == old(self).mask,
            final(self).status == old(self).status,
            final(self).scroll == old(self).scroll,
            final(self).vram_addr == old(self).vram_addr,
            final(self).tmp_vram_addr == old(self).tmp_vram_addr,
            final(self).write_flag == old(self).write_flag,
            final(self).buffered_read == old(self).buffered_read,
            final(self).spr_ram@ == if (old(self).spr_ram_addr as int) < old(self).spr_ram@.len() {
                old(self).spr_ram@.update(old(self).spr_ram_addr as int, value)
            } else {
                old(self).spr_ram@
            },
            final(self).spr_ram_addr == old(self).spr_ram_addr.wrapping_add(1),
            final(self).open_bus == value,
    {
        let idx = self.spr_ram_addr as usize;
        if idx < self.spr_ram.len() {
            self.spr_ram[idx] = value;
        }
        self.spr_ram_addr = self.spr_ram_addr.wrapping_add(1);
        self.open_bus = value;
    }

    /// Read a byte of sprite memory at the sprite address, without
    /// stepping the address.
    pub fn read_spr_ram_data(&mut self) -> (r: u8)
        ensures
            pipeline_unchanged(*old(self), *final(self)),
            final(self).vram == old(self).vram,
            final(self).spr_ram == old(self).spr_ram,
            final(self).ctrl == old(self).ctrl,
            final(self).mask == old(self).mask,
            final(self).status == old(self).status,
            final(self).spr_ram_addr == old(self).spr_ram_addr,
            final(self).scroll == old(self).scroll,
            final(self).vram_addr == old(self).vram_addr,
            final(self).tmp_vram_addr == old(self).tmp_vram_addr,
            final(self).write_flag == old(self).write_flag,
            final(self).buffered_read == old(self).buffered_read,
            r == if (old(self).spr_ram_addr as int) < old(self).spr_ram@.len() {
                old(self).spr_ram@[old(self).spr_ram_addr as int]
            } else {
                0u8
            },
            final(self).open_bus == r,
    {
        let idx = self.spr_ram_addr as usize;
        let value = if idx < self.spr_ram.len() {
            self.spr_ram[idx]
        } else {
            0
        };
        self.open_bus = value;
        value
    }

    /// First write: fine X and coarse X of the temporary scroll
    /// address. Second write: fine Y and coarse Y.
    pub fn write_scroll(&mut self, value: u8)
        ensures
            pipeline_unchanged(*old(self), *final(self)),
            final(self).vram == old(self).vram,
            final(self).spr_ram == old(self).spr_ram,
            final(self).ctrl == old(self).ctrl,
            final(self).mask == old(self).mask,
            final(self).status == old(self).status,
            final(self).spr_ram_addr == old(self).spr_ram_addr,
            final(self).vram_addr == old(self).vram_addr,
            final(self).buffered_read == old(self).buffered_read,
            final(self).write_flag == !old(self).write_flag,
            final(self).open_bus == value,
            old(self).write_flag ==> {
                &&& final(self).scroll == old(self).scroll
                &&& final(self).tmp_vram_addr == (old(self).tmp_vram_addr & 0x0c1f) | (((value
                    & 0x07) as u16) << 12u16) | (((value & 0x38) as u16) << 2u16) | (((value
                    & 0xc0) as u16) << 2u16)
            },
            !old(self).write_flag ==> {
                &&& final(self).scroll == value & 0x07
                &&& final(self).tmp_vram_addr == (old(self).tmp_vram_addr & 0xffe0) | ((
                value as u16) >> 3u16)
            },
    {
        if self.write_flag {
            self.tmp_vram_addr = (self.tmp_vram_addr & 0x0c1f) | (((value & 0x07) as u16)
                << 12u16) | (((value & 0x38) as u16) << 2u16) | (((value & 0xc0) as u16) << 2u16);
        } else {
            self.scroll = value & 0x07;
            self.tmp_vram_addr = (self.tmp_vram_addr & 0xffe0) | ((value as u16) >> 3u16);
        }
        self.write_flag = !self.write_flag;
        self.open_bus = value;
    }

    /// First write: the high six bits of the temporary address. Second
    /// write: the low byte, and the live address takes the whole value.
    pub fn write_vram_addr(&mut self, value: u8)
        ensures
            pipeline_unchanged(*old(self), *final(self)),
            final(self).vram == old(self).vram,
            final(self).spr_ram == old(self).spr_ram,
            final(self).ctrl == old(self).ctrl,
            final(self).mask == old(self).mask,
            final(self).status == old(self).status,
            final(self).spr_ram_addr == old(self).spr_ram_addr,
            final(self).scroll == old(self).scroll,
            final(self).buffered_read == old(self).buffered_read,
            final(self).write_flag == !old(self).write_flag,
            final(self).open_bus == value,
            old(self).write_flag ==> {
                &&& final(self).tmp_vram_addr == (old(self).tmp_vram_addr & 0xff00) | (
                value as u16)
                &&& final(self).vram_addr == final(self).tmp_vram_addr
            },
            !old(self).write_flag ==> {
                &&& final(self).tmp_vram_addr == (old(self).tmp_vram_addr & 0x80ff) | (((value
                    & 0x3f) as u16) << 8u16)
                &&& final(self).vram_addr == old(self).vram_addr
            },
    {
        if self.write_flag {
            self.tmp_vram_addr = (self.tmp_vram_addr & 0xff00) | (value as u16);
            self.vram_addr = self.tmp_vram_addr;
        } else {
            self.tmp_vram_addr = (self.tmp_vram_addr & 0x80ff) | (((value & 0x3f) as u16)
                << 8u16);
        }
        self.write_flag = !self.write_flag;
        self.open_bus = value;
    }

    /// Write the data port: the byte lands in video memory at the live
    /// address, which then steps as the control register (or the
    /// rendering quirk) dictates.
    pub fn write_vram_data(&mut self, value: u8)
        ensures
            final(self).name_table_byte == old(self).name_table_byte,
            final(self).attribute_table_byte == old(self).attribute_table_byte,
            final(self).low_bg_tile_byte == old(self).low_bg_tile_byte,
            final(self).high_bg_tile_byte == old(self).high_bg_tile_byte,
            final(self).tile_data == old(self).tile_data,
            final(self).cycle == old(self).cycle,
            final(self).scanline == old(self).scanline,
            final(self).odd_frame == old(self).odd_frame,
            final(self).screen == old(self).screen,
            final(self).spr_ram == old(self).spr_ram,
            final(self).ctrl == old(self).ctrl,
            final(self).mask == old(self).mask,
            final(self).status == old(self).status,
            final(self).spr_ram_addr == old(self).spr_ram_addr,
            final(self).scroll == old(self).scroll,
            final(self).tmp_vram_addr == old(self).tmp_vram_addr,
            final(self).write_flag == old(self).write_flag,
            final(self).buffered_read == old(self).buffered_read,
            final(self).open_bus == value,
            final(self).vram.mirroring() == old(self).vram.mirroring(),
            final(self).vram.chr_writable() == old(self).vram.chr_writable(),
            final(self).vram.chr() == old(self).vram.chr_after(old(self).vram_addr, value),
            final(self).vram.nametables() == old(self).vram.nametables_after(
                old(self).vram_addr,
                value,
            ),
            final(self).vram.palette() == old(self).vram.palette_after(
                old(self).vram_addr,
                value,
            ),
            final(self).vram_addr == vram_addr_after_access(
                old(self).vram_addr,
                old(self).ctrl,
                old(self).mask,
                old(self).scanline,
            ),
    {
        let addr = self.vram_addr;
        self.vram.write(addr, value);
        self.incr_vram_addr();
        self.open_bus = value;
    }

    /// Read the data port: ordinary video memory comes back through a
    /// one-read buffer, while palette entries come back directly as the
    /// buffer refills from the name-table mirror underneath.
    pub fn read_vram_data(&mut self) -> (r: u8)
        ensures
            final(self).name_table_byte == old(self).name_table_byte,
            final(self).attribute_table_byte == old(self).attribute_table_byte,
            final(self).low_bg_tile_byte == old(self).low_bg_tile_byte,
            final(self).high_bg_tile_byte == old(self).high_bg_tile_byte,
            final(self).tile_data == old(self).tile_data,
            final(self).cycle == old(self).cycle,
            final(self).scanline == old(self).scanline,
            final(self).odd_frame == old(self).odd_frame,
            final(self).screen == old(self).screen,
            final(self).spr_ram == old(self).spr_ram,
            final(self).ctrl == old(self).ctrl,
            final(self).mask == old(self).mask,
            final(self).status == old(self).status,
            final(self).spr_ram_addr == old(self).spr_ram_addr,
            final(self).scroll == old(self).scroll,
            final(self).tmp_vram_addr == old(self).tmp_vram_addr,
            final(self).write_flag == old(self).write_flag,
            final(self).vram == old(self).vram,
            final(self).vram_addr == vram_addr_after_access(
                old(self).vram_addr,
                old(self).ctrl,
                old(self).mask,
                old(self).scanline,
            ),
            (old(self).vram_addr as int) % 0x4000 >= 0x3f00 ==> {
                &&& r == old(self).vram.spec_read(old(self).vram_addr)
                &&& final(self).buffered_read == old(self).vram.spec_read(
                    (((old(self).vram_addr as int) % 0x4000) - 0x1000) as u16,
                )
            },
            (old(self).vram_addr as int) % 0x4000 < 0x3f00 ==> {
                &&& r == old(self).buffered_read
                &&& final(self).buffered_read == old(self).vram.spec_read(old(self).vram_addr)
            },
            final(self).open_bus == r,
    {
        let addr = self.vram_addr % 0x4000;
        let value = if addr >= 0x3f00 {
            let v = self.vram.read(addr);
            self.buffered_read = self.vram.read(addr - 0x1000);
            v
        } else {
            let v = self.buffered_read;
            self.buffered_read = self.vram.read(addr);
            v
        };
        self.incr_vram_addr();
        self.open_bus = value;
        value
    }

    fn incr_vram_addr(&mut self)
        ensures
            *final(self) == (Ppu {
                vram_addr: vram_addr_after_access(
                    old(self).vram_addr,
                    old(self).ctrl,
                    old(self).mask,
                    old(self).scanline,
                ),
                ..*old(self)
            }),
    {
        if self.rendering_enabled() && (self.scanline < 240 || self.scanline == 261) {
            let stepped = incr_x_value(self.vram_addr);
            self.vram_addr = incr_y_value(stepped) & 0x7fff;
        } else {
            let step: u16 = if self.ctrl & CTRL_INCR_FLAG == 0 {
                1
            } else {
                32
            };
            self.vram_addr = self.vram_addr.wrapping_add(step) & 0x7fff;
        }
    }

    fn rendering_enabled(&self) -> (r: bool)
        ensures
            r == rendering_on(self.mask),
    {
        self.mask & (MASK_DISPLAY_BACKGROUND | MASK_DISPLAY_SPRITES) != 0
    }

    /// One tick of the pixel clock. The dot counter advances first;
    /// the new dot then runs the background pipeline (when rendering is
    /// on), raises the vblank flag at the first dot of line 241 --
    /// reporting an NMI if the control register asks for one -- and
    /// clears the event flags at the first dot of the pre-render line.
    /// The frame is reported complete on the wrap to dot 0 of line 0.
    pub fn step(&mut self) -> (r: CycleResult)
        ensures
            final(self).cycle == tick_cycle(*old(self)),
            final(self).scanline == tick_scanline(*old(self)),
            final(self).status == next_status(
                old(self).status,
                tick_scanline(*old(self)),
                tick_cycle(*old(self)),
            ),
            final(self).odd_frame == if tick_cycle(*old(self)) == 0 && tick_scanline(*old(self))
                == 0 {
                !old(self).odd_frame
            } else {
                old(self).odd_frame
            },
            final(self).ctrl == old(self).ctrl,
            final(self).mask == old(self).mask,
            final(self).spr_ram_addr == old(self).spr_ram_addr,
            final(self).scroll == old(self).scroll,
            final(self).tmp_vram_addr == old(self).tmp_vram_addr,
            final(self).write_flag == old(self).write_flag,
            final(self).open_bus == old(self).open_bus,
            final(self).buffered_read == old(self).buffered_read,
            final(self).spr_ram == old(self).spr_ram,
            final(self).vram == old(self).vram,
            final(self).screen@.len() == old(self).screen@.len(),
            r.end_frame == (tick_cycle(*old(self)) == 0 && tick_scanline(*old(self)) == 0),
            r.nmi == (vblank_start(
                tick_scanline(*old(self)),
                tick_cycle(*old(self)),
            ) && old(self).ctrl & CTRL_NMI_FLAG != 0),
            !rendering_on(old(self).mask) ==> *final(self) == ticked(*old(self), 1),
            rendering_on(old(self).mask) ==> final(self).vram_addr == render_vram_addr(
                old(self).vram_addr,
                old(self).tmp_vram_addr,
                tick_scanline(*old(self)),
                tick_cycle(*old(self)),
            ),
            old(self).vram_addr <= 0x7fff ==> final(self).vram_addr <= 0x7fff,
            ({
                let s2 = tick_scanline(*old(self));
                let c2 = tick_cycle(*old(self));
                rendering_on(old(self).mask) && s2 < 240 && 1 <= c2 <= 256 ==> final(self).screen@
                    == if pixel_index(s2, c2) < old(self).screen@.len() {
                    old(self).screen@.update(pixel_index(s2, c2), bg_pixel_color(*old(self)))
                } else {
                    old(self).screen@
                }
            }),
            ({
                let s2 = tick_scanline(*old(self));
                let c2 = tick_cycle(*old(self));
                rendering_on(old(self).mask) && !(s2 < 240 && 1 <= c2 <= 256) ==> final(self).screen == old(self).screen
            }),
            !rendering_on(old(self).mask) ==> {
                &&& final(self).vram_addr == old(self).vram_addr
                &&& final(self).screen == old(self).screen
                &&& final(self).tile_data == old(self).tile_data
                &&& final(self).name_table_byte == old(self).name_table_byte
                &&& final(self).attribute_table_byte == old(self).attribute_table_byte
                &&& final(self).low_bg_tile_byte == old(self).low_bg_tile_byte
                &&& final(self).high_bg_tile_byte == old(self).high_bg_tile_byte
            },
    {
        let skip = self.rendering_enabled() && self.odd_frame && self.scanline == 261
            && self.cycle == 339;
        if skip {
            self.cycle = 0;
            self.scanline = 0;
        } else if self.cycle < 340 {
            self.cycle = self.cycle + 1;
        } else {
            self.cycle = 0;
            if self.scanline < 261 {
                self.scanline = self.scanline + 1;
            } else {
                self.scanline = 0;
            }
        }
        let end_frame = self.scanline == 0 && self.cycle == 0;
        if end_frame {
            self.odd_frame = !self.odd_frame;
        }
        let mut nmi = false;

        proof {
            if (*old(self)).vram_addr <= 0x7fff {
                lemma_scroll_addr_bounds((*old(self)).vram_addr, (*old(self)).tmp_vram_addr);
                lemma_scroll_addr_bounds(incr_x((*old(self)).vram_addr), (*old(self)).tmp_vram_addr);
            }
        }
        if self.rendering_enabled() {
            if self.scanline < 240 {
                self.process_render_scanline();
                self.process_fetch_scanline();
                if self.cycle == 257 {
                    self.vram_addr = (self.vram_addr & 0xfbe0) | (self.tmp_vram_addr & 0x041f);
                }
            } else if self.scanline == 261 {
                self.process_fetch_scanline();
                if self.cycle >= 280 && self.cycle <= 304 {
                    self.vram_addr = (self.vram_addr & 0x841f) | (self.tmp_vram_addr & 0x7be0);
                }
            }
        }

        if self.scanline == 261 && self.cycle == 1 {
            self.status = self.status & 0x1f;
        } else if self.scanline == 241 && self.cycle == 1 {
            self.status = self.status | STATUS_VBLANK_FLAG;
            if self.ctrl & CTRL_NMI_FLAG != 0 {
                nmi = true;
            }
        }

        proof {
            reveal_with_fuel(ticked, 2);
        }
        CycleResult::new(end_frame, nmi)
    }

    /// Emit the pixel of the current dot on a visible scanline: the
    /// fine-X-selected nibble of the shift register names a palette
    /// entry, whose colour lands in the frame buffer.
    fn process_render_scanline(&mut self)
        requires
            old(self).scanline < 240,
        ensures
            regs_unchanged(*old(self), *final(self)),
            final(self).vram_addr == old(self).vram_addr,
            final(self).name_table_byte == old(self).name_table_byte,
            final(self).attribute_table_byte == old(self).attribute_table_byte,
            final(self).low_bg_tile_byte == old(self).low_bg_tile_byte,
            final(self).high_bg_tile_byte == old(self).high_bg_tile_byte,
            final(self).tile_data == old(self).tile_data,
            final(self).buffered_read == old(self).buffered_read,
            final(self).cycle == old(self).cycle,
            final(self).scanline == old(self).scanline,
            final(self).odd_frame == old(self).odd_frame,
            (old(self).cycle < 1 || old(self).cycle > 256) ==> final(self).screen == old(self).screen,
            (1 <= old(self).cycle <= 256) ==> final(self).screen@ == if pixel_index(
                old(self).scanline,
                old(self).cycle,
            ) < old(self).screen@.len() {
                old(self).screen@.update(
                    pixel_index(old(self).scanline, old(self).cycle),
                    bg_pixel_color(*old(self)),
                )
            } else {
                old(self).screen@
            },
    {
        if self.cycle < 1 || self.cycle > 256 {
            return ;
        }

        let scroll = self.scroll;
        let fine_x = scroll & 7;
        proof {
            assert(scroll & 7 <= 7) by (bit_vector);
        }
        let shift: u64 = 32 + (7 - fine_x as u64) * 4;
        let pix: u64 = self.tile_data >> shift;
        proof {
            assert((0x3f00u64 | pix) & 0xffff < 0x10000) by (bit_vector);
        }
        let addr: u16 = ((0x3f00u64 | pix) & 0xffff) as u16;
        let palette_idx = self.vram.read(addr);
        let color = system_palette_color(palette_idx);
        let idx: usize = 256 * self.scanline as usize + self.cycle as usize - 1;
        if idx < self.screen.len() {
            self.screen[idx] = color;
        }
    }

    /// Run the background fetch schedule of the current dot: tile
    /// fetches over dots 1..256 and 321..336, and the Y increment of
    /// the scroll address at dot 257.
    fn process_fetch_scanline(&mut self)
        ensures
            final(self).ctrl == old(self).ctrl,
            final(self).mask == old(self).mask,
            final(self).status == old(self).status,
            final(self).spr_ram_addr == old(self).spr_ram_addr,
            final(self).scroll == old(self).scroll,
            final(self).tmp_vram_addr == old(self).tmp_vram_addr,
            final(self).write_flag == old(self).write_flag,
            final(self).open_bus == old(self).open_bus,
            final(self).spr_ram == old(self).spr_ram,
            final(self).vram == old(self).vram,
            final(self).screen == old(self).screen,
            final(self).buffered_read == old(self).buffered_read,
            final(self).cycle == old(self).cycle,
            final(self).scanline == old(self).scanline,
            final(self).odd_frame == old(self).odd_frame,
            old(self).cycle == 257 ==> *final(self) == (Ppu {
                vram_addr: incr_y(old(self).vram_addr),
                ..*old(self)
            }),
            (1 <= old(self).cycle <= 256 || 321 <= old(self).cycle <= 336) ==> final(self).vram_addr == (
            if old(self).cycle % 8 == 0 {
                incr_x(old(self).vram_addr)
            } else {
                old(self).vram_addr
            }),
            !(1 <= old(self).cycle <= 256) && !(321 <= old(self).cycle <= 336) && old(self).cycle
                != 257 ==> *final(self) == *old(self),
    {
        if (self.cycle >= 1 && self.cycle <= 256) || (self.cycle >= 321 && self.cycle <= 336) {
            self.fetch_bg_data();
        } else if self.cycle == 257 {
            self.vram_addr = incr_y_value(self.vram_addr);
        }
    }

    /// One dot of the eight-dot tile fetch: the shift register moves by
    /// a nibble, and the dot's slot fetches the name-table byte, the
    /// attribute bits, or one of the two pattern bytes, or loads the
    /// finished tile and steps coarse X.
    fn fetch_bg_data(&mut self)
        ensures
            final(self).ctrl == old(self).ctrl,
            final(self).mask == old(self).mask,
            final(self).status == old(self).status,
            final(self).spr_ram_addr == old(self).spr_ram_addr,
            final(self).scroll == old(self).scroll,
            final(self).tmp_vram_addr == old(self).tmp_vram_addr,
            final(self).write_flag == old(self).write_flag,
            final(self).open_bus == old(self).open_bus,
            final(self).spr_ram == old(self).spr_ram,
            final(self).vram == old(self).vram,
            final(self).screen == old(self).screen,
            final(self).buffered_read == old(self).buffered_read,
            final(self).cycle == old(self).cycle,
            final(self).scanline == old(self).scanline,
            final(self).odd_frame == old(self).odd_frame,
            ({
                let shifted = Ppu { tile_data: old(self).tile_data << 4u64, ..*old(self) };
                match old(self).cycle % 8 {
                    1u16 => *final(self) == (Ppu {
                        name_table_byte: old(self).vram.spec_read(
                            0x2000 | (old(self).vram_addr & 0x0fff),
                        ),
                        ..shifted
                    }),
                    3u16 => final(self).tile_data == shifted.tile_data
                        && final(self).vram_addr == old(self).vram_addr
                        && final(self).name_table_byte == old(self).name_table_byte
                        && final(self).low_bg_tile_byte == old(self).low_bg_tile_byte
                        && final(self).high_bg_tile_byte == old(self).high_bg_tile_byte,
                    5u16 => *final(self) == (Ppu {
                        low_bg_tile_byte: old(self).vram.spec_read(
                            (bg_pattern_base(old(self).ctrl) + (old(self).name_table_byte as u16)
                                * 16 + ((old(self).vram_addr >> 12u16) & 0x07)) as u16,
                        ),
                        ..shifted
                    }),
                    7u16 => *final(self) == (Ppu {
                        high_bg_tile_byte: old(self).vram.spec_read(
                            (bg_pattern_base(old(self).ctrl) + (old(self).name_table_byte as u16)
                                * 16 + ((old(self).vram_addr >> 12u16) & 0x07) + 8) as u16,
                        ),
                        ..shifted
                    }),
                    0u16 => final(self).vram_addr == incr_x(old(self).vram_addr)
                        && final(self).name_table_byte == old(self).name_table_byte
                        && final(self).attribute_table_byte == old(self).attribute_table_byte,
                    _ => *final(self) == shifted,
                }
            }),
    {
        self.tile_data = self.tile_data << 4u64;

        match self.cycle % 8 {
            1 => self.fetch_name_table_byte(),
            3 => self.fetch_attribute_table_byte(),
            5 => self.fetch_low_bg_tile_byte(),
            7 => self.fetch_high_bg_tile_byte(),
            0 => {
                self.push_tile_data();
                self.vram_addr = incr_x_value(self.vram_addr);
            },
            _ => {},
        }
    }

    fn fetch_name_table_byte(&mut self)
        ensures
            *final(self) == (Ppu {
                name_table_byte: old(self).vram.spec_read(
                    0x2000 | (old(self).vram_addr & 0x0fff),
                ),
                ..*old(self)
            }),
    {
        let addr = 0x2000 | (self.vram_addr & 0x0fff);
        self.name_table_byte = self.vram.read(addr);
    }

    fn fetch_attribute_table_byte(&mut self)
        ensures
            ({
                let v = old(self).vram_addr;
                let addr = 0x23c0 | (v & 0x0c00) | ((v >> 4u16) & 0x38) | ((v >> 2u16) & 0x07);
                let sh = ((v >> 4u16) & 0x04) | (v & 0x02);
                *final(self) == (Ppu {
                    attribute_table_byte: ((old(self).vram.spec_read(addr) >> sh) & 0x03) << 2u16,
                    ..*old(self)
                })
            }),
    {
        let v = self.vram_addr;
        let addr = 0x23c0 | (v & 0x0c00) | ((v >> 4u16) & 0x38) | ((v >> 2u16) & 0x07);
        let sh = ((v >> 4u16) & 0x04) | (v & 0x02);
        proof {
            assert(((v >> 4u16) & 0x04) | (v & 0x02) < 8) by (bit_vector);
        }
        self.attribute_table_byte = ((self.vram.read(addr) >> sh) & 0x03) << 2u16;
    }

    fn fetch_low_bg_tile_byte(&mut self)
        ensures
            ({
                let fine_y = (old(self).vram_addr >> 12u16) & 0x07;
                let tile = old(self).name_table_byte as u16;
                let addr = (bg_pattern_base(old(self).ctrl) + tile * 16 + fine_y) as u16;
                *final(self) == (Ppu {
                    low_bg_tile_byte: old(self).vram.spec_read(addr),
                    ..*old(self)
                })
            }),
    {
        let va = self.vram_addr;
        let fine_y = (va >> 12u16) & 0x07;
        proof {
            assert((va >> 12u16) & 0x07 <= 7) by (bit_vector);
        }
        let tile = self.name_table_byte as u16;
        let addr = self.background_pattern_table() + tile * 16 + fine_y;
        self.low_bg_tile_byte = self.vram.read(addr);
    }

    fn fetch_high_bg_tile_byte(&mut self)
        ensures
            ({
                let fine_y = (old(self).vram_addr >> 12u16) & 0x07;
                let tile = old(self).name_table_byte as u16;
                let addr = (bg_pattern_base(old(self).ctrl) + tile * 16 + fine_y + 8) as u16;
                *final(self) == (Ppu {
                    high_bg_tile_byte: old(self).vram.spec_read(addr),
                    ..*old(self)
                })
            }),
    {
        let va = self.vram_addr;
        let fine_y = (va >> 12u16) & 0x07;
        proof {
            assert((va >> 12u16) & 0x07 <= 7) by (bit_vector);
        }
        let tile = self.name_table_byte as u16;
        let addr = self.background_pattern_table() + tile * 16 + fine_y + 8;
        self.high_bg_tile_byte = self.vram.read(addr);
    }

    /// Load the latched tile into the low nibbles of the shift
    /// register: for each of the eight pixels, two pattern bits under
    /// the attribute bits.
    fn push_tile_data(&mut self)
        ensures
            final(self).ctrl == old(self).ctrl,
            final(self).mask == old(self).mask,
            final(self).status == old(self).status,
            final(self).spr_ram_addr == old(self).spr_ram_addr,
            final(self).scroll == old(self).scroll,
            final(self).vram_addr == old(self).vram_addr,
            final(self).tmp_vram_addr == old(self).tmp_vram_addr,
            final(self).write_flag == old(self).write_flag,
            final(self).open_bus == old(self).open_bus,
            final(self).spr_ram == old(self).spr_ram,
            final(self).vram == old(self).vram,
            final(self).screen == old(self).screen,
            final(self).buffered_read == old(self).buffered_read,
            final(self).cycle == old(self).cycle,
            final(self).scanline == old(self).scanline,
            final(self).odd_frame == old(self).odd_frame,
            final(self).name_table_byte == old(self).name_table_byte,
            final(self).attribute_table_byte == old(self).attribute_table_byte,
            final(self).tile_data == old(self).tile_data | tile_pixels(
                old(self).low_bg_tile_byte,
                old(self).high_bg_tile_byte,
                old(self).attribute_table_byte,
                8,
            ),
    {
        let low0 = self.low_bg_tile_byte;
        let high0 = self.high_bg_tile_byte;
        let attr = self.attribute_table_byte;
        let mut new_tile_data: u64 = 0;
        let mut i: usize = 0;
        proof {
            lemma_shl_zero(low0);
            lemma_shl_zero(high0);
        }
        while i < 8
            invariant
                i <= 8,
                self.ctrl == old(self).ctrl,
                self.mask == old(self).mask,
                self.status == old(self).status,
                self.spr_ram_addr == old(self).spr_ram_addr,
                self.scroll == old(self).scroll,
                self.vram_addr == old(self).vram_addr,
                self.tmp_vram_addr == old(self).tmp_vram_addr,
                self.write_flag == old(self).write_flag,
                self.open_bus == old(self).open_bus,
                self.spr_ram == old(self).spr_ram,
                self.vram == old(self).vram,
                self.screen == old(self).screen,
                self.buffered_read == old(self).buffered_read,
                self.cycle == old(self).cycle,
                self.scanline == old(self).scanline,
                self.odd_frame == old(self).odd_frame,
                self.name_table_byte == old(self).name_table_byte,
                self.attribute_table_byte == old(self).attribute_table_byte,
                self.tile_data == old(self).tile_data,
                low0 == old(self).low_bg_tile_byte,
                high0 == old(self).high_bg_tile_byte,
                attr == old(self).attribute_table_byte,
                i < 8 ==> self.low_bg_tile_byte == low0 << (i as u8),
                i < 8 ==> self.high_bg_tile_byte == high0 << (i as u8),
                new_tile_data == tile_pixels(low0, high0, attr, i as nat),
            decreases 8 - i,
        {
            let low_bit = (self.low_bg_tile_byte & 0x80) >> 7u8;
            let high_bit = (self.high_bg_tile_byte & 0x80) >> 6u8;
            proof {
                if i < 7 {
                    lemma_shl_step(low0, i as u8);
                    lemma_shl_step(high0, i as u8);
                }
            }
            self.low_bg_tile_byte = self.low_bg_tile_byte << 1u8;
            self.high_bg_tile_byte = self.high_bg_tile_byte << 1u8;
            new_tile_data = (new_tile_data << 4u64) | ((attr | high_bit | low_bit) as u64);
            i = i + 1;
        }
        self.tile_data = self.tile_data | new_tile_data;
    }

    fn background_pattern_table(&self) -> (r: u16)
        ensures
            r == bg_pattern_base(self.ctrl),
    {
        if self.ctrl & CTRL_BACKGROUND_FLAG == 0 {
            0
        } else {
            0x1000
        }
    }
}


/// The PPU after `n` ticks, at the level the tick contract pins down
/// with rendering disabled: each tick advances the dot counters and
/// plays the vertical-blank events of the dot it lands on.
pub open spec fn ticked(p: Ppu, n: nat) -> Ppu
    decreases n,
{
    if n == 0 {
        p
    } else {
        let q = ticked(p, (n - 1) as nat);
        Ppu {
            cycle: next_cycle(q.cycle),
            scanline: next_scanline(q.scanline, q.cycle),
            status: next_status(
                q.status,
                next_scanline(q.scanline, q.cycle),
                next_cycle(q.cycle),
            ),
            odd_frame: if next_cycle(q.cycle) == 0 && next_scanline(q.scanline, q.cycle) == 0 {
                !q.odd_frame
            } else {
                q.odd_frame
            },
            ..q
        }
    }
}

/// Raising the vblank bit leaves it readable, and dropping the event
/// bits leaves it clear.
proof fn lemma_vblank_bits(st: u8)
    by (bit_vector)
    ensures
        (st | 0x80u8) & 0x80u8 != 0,
        (st & 0x1fu8) & 0x80u8 == 0,
{
}

/// Vertical-blank timing from reset, with rendering disabled. After
/// `n` ticks the dot position is exactly `n` dots into the frame, so
/// the position first returns to dot 0 of line 0 -- the completion of
/// the frame -- at tick 262 * 341 and at no earlier tick. The vblank
/// flag is set exactly from tick 241 * 341 + 1, where the blank
/// starts, until tick 261 * 341 + 1, where the pre-render line clears
/// it.
pub proof fn lemma_vblank_timing(p: Ppu, n: nat)
    requires
        p.cycle == 0,
        p.scanline == 0,
        p.status & STATUS_VBLANK_FLAG == 0,
        n <= 262 * 341,
    ensures
        ticked(p, n).cycle <= 340,
        ticked(p, n).scanline <= 261,
        ticked(p, n).scanline * 341 + ticked(p, n).cycle == if n < 262 * 341 {
            n as int
        } else {
            0int
        },
        (ticked(p, n).status & STATUS_VBLANK_FLAG != 0) <==> (241 * 341 + 1 <= n < 261 * 341
            + 1),
    decreases n,
{
    if n > 0 {
        lemma_vblank_timing(p, (n - 1) as nat);
        let q = ticked(p, (n - 1) as nat);
        lemma_vblank_bits(q.status);
    }
}

/// The base address of the background pattern table the control
/// register selects.
pub open spec fn bg_pattern_base(ctrl: u8) -> u16 {
    if ctrl & CTRL_BACKGROUND_FLAG == 0 {
        0u16
    } else {
        0x1000u16
    }
}

/// The coarse-X increment as executable code.
fn incr_x_value(v: u16) -> (r: u16)
    ensures
        r == incr_x(v),
{
    if v & 0x001f == 31 {
        (v & !0x001f) ^ 0x0400
    } else {
        v.wrapping_add(1)
    }
}

/// The Y increment as executable code.
fn incr_y_value(v: u16) -> (r: u16)
    ensures
        r == incr_y(v),
{
    if v & 0x7000 != 0x7000 {
        v.wrapping_add(0x1000)
    } else {
        let v2 = v & !0x7000;
        let y = (v2 & 0x03e0) >> 5u16;
        if y == 29 {
            (v2 & !0x03e0) ^ 0x0800
        } else if y == 31 {
            v2 & !0x03e0
        } else {
            proof {
                assert((v2 & 0x03e0) >> 5u16 <= 31) by (bit_vector);
            }
            (v2 & !0x03e0) | ((y + 1) << 5u16)
        }
    }
}

/// A vector of `len` zero bytes.
fn zero_bytes(len: usize) -> (r: Vec<u8>)
    ensures
        r@.len() == len,
        forall|i: int| 0 <= i < len ==> r@[i] == 0u8,
{
    let mut out: Vec<u8> = Vec::new();
    let mut i: usize = 0;
    while i < len
        invariant
            i <= len,
            out@.len() == i,
            forall|k: int| 0 <= k < i ==> out@[k] == 0u8,
        decreases len - i,
    {
        out.push(0);
        i = i + 1;
    }
    out
}

/// A vector of `len` black pixels.
fn zero_pixels(len: usize) -> (r: Vec<u32>)
    ensures
        r@.len() == len,
        forall|i: int| 0 <= i < len ==> r@[i] == 0u32,
{
    let mut out: Vec<u32> = Vec::new();
    let mut i: usize = 0;
    while i < len
        invariant
            i <= len,
            out@.len() == i,
            forall|k: int| 0 <= k < i ==> out@[k] == 0u32,
        decreases len - i,
    {
        out.push(0);
        i = i + 1;
    }
    out
}

} // verus!
