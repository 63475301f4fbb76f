use vstd::prelude::*;

use crate::cpu::{flag_set, word16, Cpu, INTERUPT_DISABLE};
use crate::interconnect::{mem_preserved, Interconnect, MemoryMappingInterconnect};
use crate::joypad::ButtonState;
use crate::mapper::Mapper;
use crate::ppu::Ppu;
use crate::rom::Rom;

verus! {

/// How many dots remain until the PPU stands at dot 0 of line 0, the
/// boundary between frames; counters outside their ranges count as a
/// whole frame.
pub open spec fn frame_ticks_left(p: Ppu) -> int {
    if p.scanline > 261 {
        89343 + (if p.cycle > 340 {
            341int
        } else {
            341 - p.cycle
        })
    } else if p.cycle > 340 {
        89343int
    } else if p.cycle == 0 && p.scanline == 0 {
        0int
    } else {
        89342 - (p.scanline * 341 + p.cycle)
    }
}

/// The machine: the CPU coupled to the bus, driven frame by frame. The
/// CPU executes an instruction, then the PPU runs three dots per CPU
/// cycle; an NMI the PPU raises is delivered before the CPU's next
/// instruction, and a finished frame ends the loop.
pub struct Nes {
    pub interconnect: MemoryMappingInterconnect,
    pub cpu: Cpu,
}

impl Nes {
    pub fn new(rom: Rom) -> (r: Nes)
        requires
            MemoryMappingInterconnect::supported(rom),
        ensures
            r.cpu == (Cpu { a: 0u8, p: INTERUPT_DISABLE, pc: 0u16, sp: 0xfdu8, x: 0u8, y: 0u8 }),
            r.interconnect.ppu.wf(),
            r.interconnect.ppu.cycle == 0 && r.interconnect.ppu.scanline == 0,
            r.interconnect.ppu.status == 0 && r.interconnect.ppu.mask == 0,
            r.interconnect.spec_mapper().wf(),
            forall|a: u16| #[trigger] r.interconnect.plain(a) <==> (a < 0x2000 || 0x6000 <= a),
            forall|a: u16| #[trigger] r.interconnect.writable(a) <==> (a < 0x2000 || (0x6000 <= a
                && a < 0x8000)),
            forall|a: u16| a < 0x2000 ==> #[trigger] r.interconnect.mem_at(a) == 0,
            forall|a: u16| 0x6000 <= a && a < 0x8000 ==> #[trigger] r.interconnect.mem_at(a) == 0,
            forall|a: u16|
                a >= 0x8000 ==> #[trigger] r.interconnect.mem_at(a)
                    == r.interconnect.spec_mapper().spec_read(a),
            rom.mapper == 0 ==> (r.interconnect.spec_mapper() matches Mapper::Nrom(m) && m.banks()
                == rom.prg_rom@),
            rom.mapper != 0 ==> (r.interconnect.spec_mapper() matches Mapper::Unrom(m)
                && m.rom().prg_rom@ == rom.prg_rom@ && m.active_bank() == 0),
    {
        Nes { interconnect: MemoryMappingInterconnect::new(rom), cpu: Cpu::new() }
    }

    /// A machine reset: the program counter comes from the cartridge's
    /// reset vector, interrupts are disabled, and the PPU's rendering
    /// state returns to its power-on values. Plain memory keeps its
    /// contents.
    pub fn reset(&mut self)
        ensures
            final(self).cpu.a == old(self).cpu.a,
            final(self).cpu.x == old(self).cpu.x,
            final(self).cpu.y == old(self).cpu.y,
            final(self).cpu.sp == old(self).cpu.sp,
            final(self).cpu.p == flag_set(old(self).cpu.p, INTERUPT_DISABLE, true),
            final(self).cpu.pc == word16(
                old(self).interconnect.mem_at(0xfffc),
                old(self).interconnect.mem_at(0xfffd),
            ),
            mem_preserved(old(self).interconnect, final(self).interconnect),
            final(self).interconnect.ppu.cycle == 0,
            final(self).interconnect.ppu.scanline == 0,
            final(self).interconnect.ppu.vram_addr == 0,
            final(self).interconnect.ppu.tmp_vram_addr == 0,
            !final(self).interconnect.ppu.write_flag,
            final(self).interconnect.ppu.tile_data == 0,
    {
        self.cpu.reset(&mut self.interconnect);
        self.interconnect.ppu.reset();
    }

    /// Run the machine until the PPU completes a frame: stamp the
    /// buttons onto the first controller, then alternate CPU
    /// instructions with three PPU dots per CPU cycle, delivering an
    /// NMI to the CPU as soon as the PPU raises one, and stopping at
    /// the dot on which the frame wraps.
    ///
    /// A frame is 262 * 341 dots and every instruction advances the
    /// PPU by at least six of them, so the instruction budget that
    /// bounds the loop is never exhausted by a frame; if it ever were,
    /// the PPU still runs on alone to the frame boundary.
    pub fn run_frame(&mut self, joypad1_state: ButtonState)
        ensures
            final(self).interconnect.ppu.cycle == 0,
            final(self).interconnect.ppu.scanline == 0,
    {
        self.interconnect.joypad1.set_state(joypad1_state);

        let mut budget: u32 = 100000;
        while budget > 0
            decreases budget,
        {
            budget = budget - 1;
            let cycles = self.cpu.step(&mut self.interconnect);

            let mut i: u16 = 0;
            while i < cycles * 3
                invariant
                    cycles <= 519,
                decreases cycles * 3 - i,
            {
                let result = self.interconnect.ppu.step();

                if result.nmi {
                    self.cpu.nmi(&mut self.interconnect);
                }

                if result.end_frame {
                    return ;
                }
                i = i + 1;
            }
        }

        while !(self.interconnect.ppu.cycle == 0 && self.interconnect.ppu.scanline == 0)
            decreases frame_ticks_left(self.interconnect.ppu),
        {
            self.interconnect.ppu.step();
        }
    }

    /// The finished 256 x 240 frame, one `0x00RRGGBB` pixel per entry,
    /// row-major from the top-left corner.
    pub fn screen(&self) -> (r: &Vec<u32>)
        ensures
            r@ == self.interconnect.ppu.screen@,
    {
        &self.interconnect.ppu.screen
    }
}

} // verus!
