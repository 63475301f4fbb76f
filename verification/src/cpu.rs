use vstd::prelude::*;

use crate::instruction::{
    is_addr_mode, is_value_mode, instruction_cycles, lemma_decode_modes, operand_len, spec_decode,
    AddressingMode, Instruction, Op,
};
use crate::interconnect::{
    addr_next, cells_stable, mem_preserved, mem_updated, mem_updated_pair, word_hi, word_lo,
    Interconnect,
};

verus! {

pub const CARRY_FLAG: u8 = 0x01;

pub const ZERO_FLAG: u8 = 0x02;

pub const INTERUPT_DISABLE: u8 = 0x04;

pub const DECIMAL_MODE: u8 = 0x08;

pub const BREAK_COMMAND: u8 = 0x10;

pub const UNUSED_FLAG: u8 = 0x20;

pub const OVERFLOW_FLAG: u8 = 0x40;

pub const NEGATIVE_FLAG: u8 = 0x80;

pub const RESET_VECTOR: u16 = 0xfffc;

pub const BREAK_VECTOR: u16 = 0xfffe;

pub const NMI_VECTOR: u16 = 0xfffa;

pub const STACK_END: u16 = 0x100;

/// Whether a flag bit is set in a status byte.
pub open spec fn flag(p: u8, mask: u8) -> bool {
    p & mask != 0
}

/// The status byte with one flag forced on or off.
pub open spec fn flag_set(p: u8, mask: u8, on: bool) -> u8 {
    if on {
        p | mask
    } else {
        p & !mask
    }
}

/// The status byte after a result `v` lands in a register: Zero tracks
/// `v == 0`, Negative tracks bit 7 of `v`.
pub open spec fn with_zn(p: u8, v: u8) -> u8 {
    flag_set(flag_set(p, ZERO_FLAG, v == 0), NEGATIVE_FLAG, v & 0x80 != 0)
}

/// The carry flag read as the 0-or-1 summand of an addition.
pub open spec fn carry_in(p: u8) -> int {
    if flag(p, CARRY_FLAG) {
        1
    } else {
        0
    }
}

/// The carry flag read as the 0-or-1 borrow of a subtraction: a set
/// carry means no borrow.
pub open spec fn borrow_in(p: u8) -> int {
    if flag(p, CARRY_FLAG) {
        0
    } else {
        1
    }
}

/// The accumulator after add-with-carry.
pub open spec fn adc_result(a: u8, p: u8, v: u8) -> u8 {
    ((a + v + carry_in(p)) % 256) as u8
}

/// The status after add-with-carry: Zero and Negative from the result,
/// Overflow from the sign rule, Carry from unsigned overflow.
pub open spec fn adc_status(a: u8, p: u8, v: u8) -> u8 {
    let r = adc_result(a, p, v);
    flag_set(
        flag_set(with_zn(p, r), OVERFLOW_FLAG, (a ^ v) & 0x80 != 0x80 && (a ^ r) & 0x80 == 0x80),
        CARRY_FLAG,
        a + v + carry_in(p) > 255,
    )
}

/// The accumulator after subtract-with-borrow.
pub open spec fn sbc_result(a: u8, p: u8, v: u8) -> u8 {
    ((a + 256 - v - borrow_in(p)) % 256) as u8
}

/// The status after subtract-with-borrow: Carry is set exactly when no
/// borrow was needed.
pub open spec fn sbc_status(a: u8, p: u8, v: u8) -> u8 {
    let r = sbc_result(a, p, v);
    flag_set(
        flag_set(with_zn(p, r), OVERFLOW_FLAG, (a ^ v) & 0x80 == 0x80 && (a ^ r) & 0x80 == 0x80),
        CARRY_FLAG,
        a + 256 - v - borrow_in(p) > 255,
    )
}

/// The status after a compare of `a` against `b`: the flags of `a - b`
/// mod 256, with Carry meaning `a >= b`.
pub open spec fn compare_status(p: u8, a: u8, b: u8) -> u8 {
    flag_set(with_zn(p, a.wrapping_sub(b)), CARRY_FLAG, a >= b)
}

/// The status after a bit test of the accumulator against `v`.
pub open spec fn bit_status(p: u8, a: u8, v: u8) -> u8 {
    flag_set(
        flag_set(flag_set(p, ZERO_FLAG, a & v == 0), OVERFLOW_FLAG, v & 0x40 != 0),
        NEGATIVE_FLAG,
        v & 0x80 != 0,
    )
}

/// The value after an arithmetic shift left.
pub open spec fn asl_result(v: u8) -> u8 {
    v << 1
}

/// The status after an arithmetic shift left: Carry takes the shifted-out
/// bit 7.
pub open spec fn asl_status(p: u8, v: u8) -> u8 {
    with_zn(flag_set(p, CARRY_FLAG, v & 0x80 != 0), asl_result(v))
}

/// The value after a logical shift right.
pub open spec fn lsr_result(v: u8) -> u8 {
    v >> 1
}

/// The status after a logical shift right: Carry takes the shifted-out
/// bit 0.
pub open spec fn lsr_status(p: u8, v: u8) -> u8 {
    with_zn(flag_set(p, CARRY_FLAG, v & 0x01 != 0), lsr_result(v))
}

/// The value after a rotate left: the old carry enters at bit 0.
pub open spec fn rol_result(v: u8, p: u8) -> u8 {
    (v << 1) | (if flag(p, CARRY_FLAG) {
        1u8
    } else {
        0u8
    })
}

/// The status after a rotate left: Carry takes the old bit 7.
pub open spec fn rol_status(p: u8, v: u8) -> u8 {
    with_zn(flag_set(p, CARRY_FLAG, v & 0x80 != 0), rol_result(v, p))
}

/// The value after a rotate right: the old carry enters at bit 7.
pub open spec fn ror_result(v: u8, p: u8) -> u8 {
    (v >> 1) | (if flag(p, CARRY_FLAG) {
        0x80u8
    } else {
        0u8
    })
}

/// The status after a rotate right: Carry takes the old bit 0.
pub open spec fn ror_status(p: u8, v: u8) -> u8 {
    with_zn(flag_set(p, CARRY_FLAG, v & 0x01 != 0), ror_result(v, p))
}

/// A 16-bit word assembled from its little-endian bytes.
pub open spec fn word16(lo: u8, hi: u8) -> u16 {
    (lo + 0x100 * hi) as u16
}

/// The page-1 address a single stack byte for pointer `sp` lives at.
pub open spec fn stack_word_addr(sp: u8) -> u16 {
    (STACK_END + sp) as u16
}

/// The target of a relative branch: the post-operand program counter
/// plus the operand byte read as a signed offset.
pub open spec fn relative_target(pc: u16, off: u8) -> u16 {
    if off >= 0x80 {
        pc.wrapping_add(off as u16).wrapping_sub(0x100)
    } else {
        pc.wrapping_add(off as u16)
    }
}

/// The MOS 6502 CPU: accumulator, index registers, stack pointer,
/// program counter and packed status byte.
pub struct Cpu {
    pub a: u8,
    pub p: u8,
    pub pc: u16,
    pub sp: u8,
    pub x: u8,
    pub y: u8,
}

/// The implied-mode operations that touch only registers and flags.
pub open spec fn is_register_implied_op(op: Op) -> bool {
    match op {
        Op::Tax | Op::Tay | Op::Tsx | Op::Txa | Op::Tya | Op::Txs | Op::Dex | Op::Dey | Op::Inx
        | Op::Iny | Op::Clc | Op::Cld | Op::Cli | Op::Clv | Op::Sec | Op::Sed | Op::Sei
        | Op::Nop => true,
        _ => false,
    }
}

/// The CPU after one implied-mode register operation fetched at `c.pc`.
pub open spec fn implied_step(c: Cpu, op: Op) -> Cpu {
    let pc2 = c.pc.wrapping_add(1);
    match op {
        Op::Tax => Cpu { pc: pc2, x: c.a, p: with_zn(c.p, c.a), ..c },
        Op::Tay => Cpu { pc: pc2, y: c.a, p: with_zn(c.p, c.a), ..c },
        Op::Tsx => Cpu { pc: pc2, x: c.sp, p: with_zn(c.p, c.sp), ..c },
        Op::Txa => Cpu { pc: pc2, a: c.x, p: with_zn(c.p, c.x), ..c },
        Op::Tya => Cpu { pc: pc2, a: c.y, p: with_zn(c.p, c.y), ..c },
        Op::Txs => Cpu { pc: pc2, sp: c.x, ..c },
        Op::Dex => Cpu {
            pc: pc2,
            x: c.x.wrapping_sub(1),
            p: with_zn(c.p, c.x.wrapping_sub(1)),
            ..c
        },
        Op::Dey => Cpu {
            pc: pc2,
            y: c.y.wrapping_sub(1),
            p: with_zn(c.p, c.y.wrapping_sub(1)),
            ..c
        },
        Op::Inx => Cpu {
            pc: pc2,
            x: c.x.wrapping_add(1),
            p: with_zn(c.p, c.x.wrapping_add(1)),
            ..c
        },
        Op::Iny => Cpu {
            pc: pc2,
            y: c.y.wrapping_add(1),
            p: with_zn(c.p, c.y.wrapping_add(1)),
            ..c
        },
        Op::Clc => Cpu { pc: pc2, p: flag_set(c.p, CARRY_FLAG, false), ..c },
        Op::Cld => Cpu { pc: pc2, p: flag_set(c.p, DECIMAL_MODE, false), ..c },
        Op::Cli => Cpu { pc: pc2, p: flag_set(c.p, INTERUPT_DISABLE, false), ..c },
        Op::Clv => Cpu { pc: pc2, p: flag_set(c.p, OVERFLOW_FLAG, false), ..c },
        Op::Sec => Cpu { pc: pc2, p: flag_set(c.p, CARRY_FLAG, true), ..c },
        Op::Sed => Cpu { pc: pc2, p: flag_set(c.p, DECIMAL_MODE, true), ..c },
        Op::Sei => Cpu { pc: pc2, p: flag_set(c.p, INTERUPT_DISABLE, true), ..c },
        _ => Cpu { pc: pc2, ..c },
    }
}

/// The CPU after one operand-consuming operation on value `v`, with
/// the program counter moved to `pc_next`.
pub open spec fn value_op_step(c: Cpu, op: Op, v: u8, pc_next: u16) -> Cpu {
    match op {
        Op::Lda => Cpu { pc: pc_next, a: v, p: with_zn(c.p, v), ..c },
        Op::Ldx => Cpu { pc: pc_next, x: v, p: with_zn(c.p, v), ..c },
        Op::Ldy => Cpu { pc: pc_next, y: v, p: with_zn(c.p, v), ..c },
        Op::Adc => Cpu {
            pc: pc_next,
            a: adc_result(c.a, c.p, v),
            p: adc_status(c.a, c.p, v),
            ..c
        },
        Op::Sbc => Cpu {
            pc: pc_next,
            a: sbc_result(c.a, c.p, v),
            p: sbc_status(c.a, c.p, v),
            ..c
        },
        Op::And => Cpu { pc: pc_next, a: c.a & v, p: with_zn(c.p, c.a & v), ..c },
        Op::Ora => Cpu { pc: pc_next, a: c.a | v, p: with_zn(c.p, c.a | v), ..c },
        Op::Eor => Cpu { pc: pc_next, a: c.a ^ v, p: with_zn(c.p, c.a ^ v), ..c },
        Op::Cmp => Cpu { pc: pc_next, p: compare_status(c.p, c.a, v), ..c },
        Op::Cpx => Cpu { pc: pc_next, p: compare_status(c.p, c.x, v), ..c },
        Op::Cpy => Cpu { pc: pc_next, p: compare_status(c.p, c.y, v), ..c },
        Op::Bit => Cpu { pc: pc_next, p: bit_status(c.p, c.a, v), ..c },
        _ => Cpu { pc: pc_next, ..c },
    }
}

/// The CPU after one accumulator-mode shift or rotate.
pub open spec fn accumulator_step(c: Cpu, op: Op) -> Cpu {
    let pc2 = c.pc.wrapping_add(1);
    match op {
        Op::Asl => Cpu { pc: pc2, a: asl_result(c.a), p: asl_status(c.p, c.a), ..c },
        Op::Lsr => Cpu { pc: pc2, a: lsr_result(c.a), p: lsr_status(c.p, c.a), ..c },
        Op::Rol => Cpu { pc: pc2, a: rol_result(c.a, c.p), p: rol_status(c.p, c.a), ..c },
        Op::Ror => Cpu { pc: pc2, a: ror_result(c.a, c.p), p: ror_status(c.p, c.a), ..c },
        _ => Cpu { pc: pc2, ..c },
    }
}

/// Whether a branch operation is taken under status `p`.
pub open spec fn branch_taken(op: Op, p: u8) -> bool {
    match op {
        Op::Bcc => !flag(p, CARRY_FLAG),
        Op::Bcs => flag(p, CARRY_FLAG),
        Op::Beq => flag(p, ZERO_FLAG),
        Op::Bne => !flag(p, ZERO_FLAG),
        Op::Bmi => flag(p, NEGATIVE_FLAG),
        Op::Bpl => !flag(p, NEGATIVE_FLAG),
        Op::Bvs => flag(p, OVERFLOW_FLAG),
        Op::Bvc => !flag(p, OVERFLOW_FLAG),
        _ => false,
    }
}

/// The CPU after one relative branch whose operand byte is `off`.
pub open spec fn branch_step(c: Cpu, op: Op, off: u8) -> Cpu {
    let pc2 = c.pc.wrapping_add(2);
    Cpu {
        pc: if branch_taken(op, c.p) {
            relative_target(pc2, off)
        } else {
            pc2
        },
        ..c
    }
}

/// The modes whose effective address is a direct function of the
/// operand bytes and the index registers, with no further memory read.
pub open spec fn is_simple_mode(am: AddressingMode) -> bool {
    match am {
        AddressingMode::ZeroPage
        | AddressingMode::ZeroPageX
        | AddressingMode::ZeroPageY
        | AddressingMode::Absolute
        | AddressingMode::AbsoluteX
        | AddressingMode::AbsoluteY => true,
        _ => false,
    }
}

/// The effective address of a simple addressing mode whose operand
/// bytes sit at `pc` (and `pc + 1`).
pub open spec fn operand_addr<I: Interconnect>(ic: I, c: Cpu, pc: u16, am: AddressingMode) -> u16 {
    let lo = ic.mem_at(pc);
    let hi = ic.mem_at(pc.wrapping_add(1));
    match am {
        AddressingMode::ZeroPage => lo as u16,
        AddressingMode::ZeroPageX => lo.wrapping_add(c.x) as u16,
        AddressingMode::ZeroPageY => lo.wrapping_add(c.y) as u16,
        AddressingMode::Absolute => word16(lo, hi),
        AddressingMode::AbsoluteX => word16(lo, hi).wrapping_add(c.x as u16),
        AddressingMode::AbsoluteY => word16(lo, hi).wrapping_add(c.y as u16),
        _ => 0u16,
    }
}

/// Whether the operand bytes of a mode sit in plain memory at `pc`.
pub open spec fn operand_plain<I: Interconnect>(ic: I, pc: u16, am: AddressingMode) -> bool {
    ic.plain(pc) && (operand_len(am) == 2 ==> ic.plain(pc.wrapping_add(1)))
}

/// The operations that store a register.
pub open spec fn is_store_op(op: Op) -> bool {
    match op {
        Op::Sta | Op::Stx | Op::Sty => true,
        _ => false,
    }
}

/// The register a store operation writes.
pub open spec fn store_value(c: Cpu, op: Op) -> u8 {
    match op {
        Op::Sta => c.a,
        Op::Stx => c.x,
        _ => c.y,
    }
}

/// The operations that consume an operand byte.
pub open spec fn is_value_op(op: Op) -> bool {
    match op {
        Op::Adc | Op::And | Op::Bit | Op::Cmp | Op::Cpx | Op::Cpy | Op::Eor | Op::Lda | Op::Ldx
        | Op::Ldy | Op::Ora | Op::Sbc => true,
        _ => false,
    }
}

/// The read-modify-write operations.
pub open spec fn is_rmw_op(op: Op) -> bool {
    match op {
        Op::Asl | Op::Lsr | Op::Rol | Op::Ror | Op::Inc | Op::Dec => true,
        _ => false,
    }
}

/// The byte a read-modify-write operation stores back for operand `v`.
pub open spec fn rmw_result(op: Op, p: u8, v: u8) -> u8 {
    match op {
        Op::Asl => asl_result(v),
        Op::Lsr => lsr_result(v),
        Op::Rol => rol_result(v, p),
        Op::Ror => ror_result(v, p),
        Op::Inc => v.wrapping_add(1),
        _ => v.wrapping_sub(1),
    }
}

/// The status a read-modify-write operation leaves for operand `v`.
pub open spec fn rmw_status(op: Op, p: u8, v: u8) -> u8 {
    match op {
        Op::Asl => asl_status(p, v),
        Op::Lsr => lsr_status(p, v),
        Op::Rol => rol_status(p, v),
        Op::Ror => ror_status(p, v),
        Op::Inc => with_zn(p, v.wrapping_add(1)),
        _ => with_zn(p, v.wrapping_sub(1)),
    }
}


impl Cpu {
    /// The power-on state: registers clear, the stack pointer at 0xfd,
    /// and interrupts disabled.
    pub fn new() -> (r: Cpu)
        ensures
            r == (Cpu { a: 0u8, p: INTERUPT_DISABLE, pc: 0u16, sp: 0xfdu8, x: 0u8, y: 0u8 }),
            flag(r.p, INTERUPT_DISABLE),
    {
        proof {
            assert(INTERUPT_DISABLE & INTERUPT_DISABLE != 0u8) by (bit_vector);
        }
        Cpu { a: 0, p: INTERUPT_DISABLE, pc: 0, sp: 0xfd, x: 0, y: 0 }
    }

    fn carry_flag(&self) -> (r: bool)
        ensures
            r == flag(self.p, CARRY_FLAG),
    {
        self.p & CARRY_FLAG != 0
    }

    fn set_carry_flag(&mut self, value: bool)
        ensures
            *final(self) == (Cpu { p: flag_set(old(self).p, CARRY_FLAG, value), ..*old(self) }),
    {
        self.p = if value {
            self.p | CARRY_FLAG
        } else {
            self.p & !CARRY_FLAG
        };
    }

    fn zero_flag(&self) -> (r: bool)
        ensures
            r == flag(self.p, ZERO_FLAG),
    {
        self.p & ZERO_FLAG != 0
    }

    fn set_zero_flag(&mut self, value: bool)
        ensures
            *final(self) == (Cpu { p: flag_set(old(self).p, ZERO_FLAG, value), ..*old(self) }),
    {
        self.p = if value {
            self.p | ZERO_FLAG
        } else {
            self.p & !ZERO_FLAG
        };
    }

    fn interrupt_disable(&self) -> (r: bool)
        ensures
            r == flag(self.p, INTERUPT_DISABLE),
    {
        self.p & INTERUPT_DISABLE != 0
    }

    fn set_interrupt_disable(&mut self, value: bool)
        ensures
            *final(self) == (Cpu {
                p: flag_set(old(self).p, INTERUPT_DISABLE, value),
                ..*old(self)
            }),
    {
        self.p = if value {
            self.p | INTERUPT_DISABLE
        } else {
            self.p & !INTERUPT_DISABLE
        };
    }

    fn decimal_mode(&self) -> (r: bool)
        ensures
            r == flag(self.p, DECIMAL_MODE),
    {
        self.p & DECIMAL_MODE != 0
    }

    fn set_decimal_mode(&mut self, value: bool)
        ensures
            *final(self) == (Cpu { p: flag_set(old(self).p, DECIMAL_MODE, value), ..*old(self) }),
    {
        self.p = if value {
            self.p | DECIMAL_MODE
        } else {
            self.p & !DECIMAL_MODE
        };
    }

    fn break_command(&self) -> (r: bool)
        ensures
            r == flag(self.p, BREAK_COMMAND),
    {
        self.p & BREAK_COMMAND != 0
    }

    fn set_break_command(&mut self, value: bool)
        ensures
            *final(self) == (Cpu { p: flag_set(old(self).p, BREAK_COMMAND, value), ..*old(self) }),
    {
        self.p = if value {
            self.p | BREAK_COMMAND
        } else {
            self.p & !BREAK_COMMAND
        }
    }

    fn overflow_flag(&self) -> (r: bool)
        ensures
            r == flag(self.p, OVERFLOW_FLAG),
    {
        self.p & OVERFLOW_FLAG != 0
    }

    fn set_overflow_flag(&mut self, value: bool)
        ensures
            *final(self) == (Cpu { p: flag_set(old(self).p, OVERFLOW_FLAG, value), ..*old(self) }),
    {
        self.p = if value {
            self.p | OVERFLOW_FLAG
        } else {
            self.p & !OVERFLOW_FLAG
        };
    }

    fn negative_flag(&self) -> (r: bool)
        ensures
            r == flag(self.p, NEGATIVE_FLAG),
    {
        self.p & NEGATIVE_FLAG != 0
    }

    fn set_negative_flag(&mut self, value: bool)
        ensures
            *final(self) == (Cpu { p: flag_set(old(self).p, NEGATIVE_FLAG, value), ..*old(self) }),
    {
        self.p = if value {
            self.p | NEGATIVE_FLAG
        } else {
            self.p & !NEGATIVE_FLAG
        };
    }

    fn set_zn(&mut self, value: u8) -> (r: u8)
        ensures
            *final(self) == (Cpu { p: with_zn(old(self).p, value), ..*old(self) }),
            r == value,
    {
        self.set_zero_flag(value == 0);
        self.set_negative_flag(value & 0x80 != 0);
        value
    }

    pub fn compare(&mut self, a: u8, b: u8)
        ensures
            *final(self) == (Cpu { p: compare_status(old(self).p, a, b), ..*old(self) }),
    {
        self.set_zn(a.wrapping_sub(b));
        self.set_carry_flag(a >= b);
    }

    pub fn adc(&mut self, value: u8)
        ensures
            *final(self) == (Cpu {
                a: adc_result(old(self).a, old(self).p, value),
                p: adc_status(old(self).a, old(self).p, value),
                ..*old(self)
            }),
    {
        let a = self.a;
        let carry: u16 = if self.carry_flag() {
            1
        } else {
            0
        };
        let sum: u16 = a as u16 + value as u16 + carry;
        let result: u8 = (sum % 256) as u8;

        self.a = self.set_zn(result);
        self.set_overflow_flag((a ^ value) & 0x80 != 0x80 && (a ^ result) & 0x80 == 0x80);
        self.set_carry_flag(sum > 255);
    }

    pub fn sbc(&mut self, value: u8)
        ensures
            *final(self) == (Cpu {
                a: sbc_result(old(self).a, old(self).p, value),
                p: sbc_status(old(self).a, old(self).p, value),
                ..*old(self)
            }),
    {
        let a = self.a;
        let borrow: u16 = if self.carry_flag() {
            0
        } else {
            1
        };
        let total: u16 = a as u16 + 256 - value as u16 - borrow;
        let result: u8 = (total % 256) as u8;

        self.a = self.set_zn(result);
        self.set_overflow_flag((a ^ value) & 0x80 == 0x80 && (a ^ result) & 0x80 == 0x80);
        self.set_carry_flag(total > 255);
    }

    fn and(&mut self, value: u8)
        ensures
            *final(self) == (Cpu {
                a: old(self).a & value,
                p: with_zn(old(self).p, old(self).a & value),
                ..*old(self)
            }),
    {
        let a = self.a;
        self.a = self.set_zn(a & value);
    }

    fn eor(&mut self, value: u8)
        ensures
            *final(self) == (Cpu {
                a: old(self).a ^ value,
                p: with_zn(old(self).p, old(self).a ^ value),
                ..*old(self)
            }),
    {
        let a = self.a;
        self.a = self.set_zn(a ^ value);
    }

    fn ora(&mut self, value: u8)
        ensures
            *final(self) == (Cpu {
                a: old(self).a | value,
                p: with_zn(old(self).p, old(self).a | value),
                ..*old(self)
            }),
    {
        let a = self.a;
        self.a = self.set_zn(a | value);
    }

    fn bit(&mut self, value: u8)
        ensures
            *final(self) == (Cpu { p: bit_status(old(self).p, old(self).a, value), ..*old(self) }),
    {
        let a = self.a;
        self.set_zero_flag(a & value == 0);
        self.set_overflow_flag(value & 0x40 != 0);
        self.set_negative_flag(value & 0x80 != 0);
    }

    pub fn lda(&mut self, value: u8)
        ensures
            *final(self) == (Cpu { a: value, p: with_zn(old(self).p, value), ..*old(self) }),
    {
        self.a = self.set_zn(value);
    }

    fn ldx(&mut self, value: u8)
        ensures
            *final(self) == (Cpu { x: value, p: with_zn(old(self).p, value), ..*old(self) }),
    {
        self.x = self.set_zn(value);
    }

    fn ldy(&mut self, value: u8)
        ensures
            *final(self) == (Cpu { y: value, p: with_zn(old(self).p, value), ..*old(self) }),
    {
        self.y = self.set_zn(value);
    }

    fn cmp(&mut self, value: u8)
        ensures
            *final(self) == (Cpu {
                p: compare_status(old(self).p, old(self).a, value),
                ..*old(self)
            }),
    {
        let a = self.a;
        self.compare(a, value);
    }

    fn cpx(&mut self, value: u8)
        ensures
            *final(self) == (Cpu {
                p: compare_status(old(self).p, old(self).x, value),
                ..*old(self)
            }),
    {
        let x = self.x;
        self.compare(x, value);
    }

    fn cpy(&mut self, value: u8)
        ensures
            *final(self) == (Cpu {
                p: compare_status(old(self).p, old(self).y, value),
                ..*old(self)
            }),
    {
        let y = self.y;
        self.compare(y, value);
    }

    fn dex(&mut self)
        ensures
            *final(self) == (Cpu {
                x: old(self).x.wrapping_sub(1),
                p: with_zn(old(self).p, old(self).x.wrapping_sub(1)),
                ..*old(self)
            }),
    {
        let x = self.x.wrapping_sub(1);
        self.x = self.set_zn(x);
    }

    fn dey(&mut self)
        ensures
            *final(self) == (Cpu {
                y: old(self).y.wrapping_sub(1),
                p: with_zn(old(self).p, old(self).y.wrapping_sub(1)),
                ..*old(self)
            }),
    {
        let y = self.y.wrapping_sub(1);
        self.y = self.set_zn(y);
    }

    fn inx(&mut self)
        ensures
            *final(self) == (Cpu {
                x: old(self).x.wrapping_add(1),
                p: with_zn(old(self).p, old(self).x.wrapping_add(1)),
                ..*old(self)
            }),
    {
        let x = self.x.wrapping_add(1);
        self.x = self.set_zn(x);
    }

    fn iny(&mut self)
        ensures
            *final(self) == (Cpu {
                y: old(self).y.wrapping_add(1),
                p: with_zn(old(self).p, old(self).y.wrapping_add(1)),
                ..*old(self)
            }),
    {
        let y = self.y.wrapping_add(1);
        self.y = self.set_zn(y);
    }

    fn tax(&mut self)
        ensures
            *final(self) == (Cpu {
                x: old(self).a,
                p: with_zn(old(self).p, old(self).a),
                ..*old(self)
            }),
    {
        let a = self.a;
        self.x = self.set_zn(a);
    }

    fn tay(&mut self)
        ensures
            *final(self) == (Cpu {
                y: old(self).a,
                p: with_zn(old(self).p, old(self).a),
                ..*old(self)
            }),
    {
        let a = self.a;
        self.y = self.set_zn(a);
    }

    fn tsx(&mut self)
        ensures
            *final(self) == (Cpu {
                x: old(self).sp,
                p: with_zn(old(self).p, old(self).sp),
                ..*old(self)
            }),
    {
        let sp = self.sp;
        self.x = self.set_zn(sp);
    }

    fn txa(&mut self)
        ensures
            *final(self) == (Cpu {
                a: old(self).x,
                p: with_zn(old(self).p, old(self).x),
                ..*old(self)
            }),
    {
        let x = self.x;
        self.a = self.set_zn(x);
    }

    fn tya(&mut self)
        ensures
            *final(self) == (Cpu {
                a: old(self).y,
                p: with_zn(old(self).p, old(self).y),
                ..*old(self)
            }),
    {
        let y = self.y;
        self.a = self.set_zn(y);
    }

    fn txs(&mut self)
        ensures
            *final(self) == (Cpu { sp: old(self).x, ..*old(self) }),
    {
        self.sp = self.x;
    }

    fn clc(&mut self)
        ensures
            *final(self) == (Cpu { p: flag_set(old(self).p, CARRY_FLAG, false), ..*old(self) }),
    {
        self.set_carry_flag(false);
    }

    fn cld(&mut self)
        ensures
            *final(self) == (Cpu { p: flag_set(old(self).p, DECIMAL_MODE, false), ..*old(self) }),
    {
        self.set_decimal_mode(false);
    }

    fn cli(&mut self)
        ensures
            *final(self) == (Cpu {
                p: flag_set(old(self).p, INTERUPT_DISABLE, false),
                ..*old(self)
            }),
    {
        self.set_interrupt_disable(false);
    }

    fn clv(&mut self)
        ensures
            *final(self) == (Cpu { p: flag_set(old(self).p, OVERFLOW_FLAG, false), ..*old(self) }),
    {
        self.set_overflow_flag(false);
    }

    fn sec(&mut self)
        ensures
            *final(self) == (Cpu { p: flag_set(old(self).p, CARRY_FLAG, true), ..*old(self) }),
    {
        self.set_carry_flag(true);
    }

    fn sed(&mut self)
        ensures
            *final(self) == (Cpu { p: flag_set(old(self).p, DECIMAL_MODE, true), ..*old(self) }),
    {
        self.set_decimal_mode(true);
    }

    fn sei(&mut self)
        ensures
            *final(self) == (Cpu {
                p: flag_set(old(self).p, INTERUPT_DISABLE, true),
                ..*old(self)
            }),
    {
        self.set_interrupt_disable(true);
    }

    fn jmp(&mut self, addr: u16)
        ensures
            *final(self) == (Cpu { pc: addr, ..*old(self) }),
    {
        self.pc = addr;
    }

    fn bcc(&mut self, addr: u16)
        ensures
            *final(self) == (Cpu {
                pc: if !flag(old(self).p, CARRY_FLAG) {
                    addr
                } else {
                    old(self).pc
                },
                ..*old(self)
            }),
    {
        if !self.carry_flag() {
            self.pc = addr;
        }
    }

    fn bcs(&mut self, addr: u16)
        ensures
            *final(self) == (Cpu {
                pc: if flag(old(self).p, CARRY_FLAG) {
                    addr
                } else {
                    old(self).pc
                },
                ..*old(self)
            }),
    {
        if self.carry_flag() {
            self.pc = addr;
        }
    }

    fn beq(&mut self, addr: u16)
        ensures
            *final(self) == (Cpu {
                pc: if flag(old(self).p, ZERO_FLAG) {
                    addr
                } else {
                    old(self).pc
                },
                ..*old(self)
            }),
    {
        if self.zero_flag() {
            self.pc = addr;
        }
    }

    fn bne(&mut self, addr: u16)
        ensures
            *final(self) == (Cpu {
                pc: if !flag(old(self).p, ZERO_FLAG) {
                    addr
                } else {
                    old(self).pc
                },
                ..*old(self)
            }),
    {
        if !self.zero_flag() {
            self.pc = addr;
        }
    }

    fn bmi(&mut self, addr: u16)
        ensures
            *final(self) == (Cpu {
                pc: if flag(old(self).p, NEGATIVE_FLAG) {
                    addr
                } else {
                    old(self).pc
                },
                ..*old(self)
            }),
    {
        if self.negative_flag() {
            self.pc = addr;
        }
    }

    fn bpl(&mut self, addr: u16)
        ensures
            *final(self) == (Cpu {
                pc: if !flag(old(self).p, NEGATIVE_FLAG) {
                    addr
                } else {
                    old(self).pc
                },
                ..*old(self)
            }),
    {
        if !self.negative_flag() {
            self.pc = addr;
        }
    }

    fn bvc(&mut self, addr: u16)
        ensures
            *final(self) == (Cpu {
                pc: if !flag(old(self).p, OVERFLOW_FLAG) {
                    addr
                } else {
                    old(self).pc
                },
                ..*old(self)
            }),
    {
        if !self.overflow_flag() {
            self.pc = addr;
        }
    }

    fn bvs(&mut self, addr: u16)
        ensures
            *final(self) == (Cpu {
                pc: if flag(old(self).p, OVERFLOW_FLAG) {
                    addr
                } else {
                    old(self).pc
                },
                ..*old(self)
            }),
    {
        if self.overflow_flag() {
            self.pc = addr;
        }
    }

    fn arithmetic_shift_left(&mut self, value: u8) -> (r: u8)
        ensures
            *final(self) == (Cpu { p: asl_status(old(self).p, value), ..*old(self) }),
            r == asl_result(value),
    {
        self.set_carry_flag(value & 0x80 != 0);
        self.set_zn(value << 1)
    }

    fn logical_shift_right(&mut self, value: u8) -> (r: u8)
        ensures
            *final(self) == (Cpu { p: lsr_status(old(self).p, value), ..*old(self) }),
            r == lsr_result(value),
    {
        self.set_carry_flag(value & 0x01 != 0);
        self.set_zn(value >> 1)
    }

    fn rotate_left(&mut self, value: u8) -> (r: u8)
        ensures
            *final(self) == (Cpu { p: rol_status(old(self).p, value), ..*old(self) }),
            r == rol_result(value, old(self).p),
    {
        let carry_flag = self.carry_flag();
        self.set_carry_flag(value & 0x80 != 0);
        self.set_zn((value << 1) | (if carry_flag {
            1
        } else {
            0
        }))
    }

    fn rotate_right(&mut self, value: u8) -> (r: u8)
        ensures
            *final(self) == (Cpu { p: ror_status(old(self).p, value), ..*old(self) }),
            r == ror_result(value, old(self).p),
    {
        let carry_flag = self.carry_flag();
        self.set_carry_flag(value & 0x01 != 0);
        self.set_zn((value >> 1) | (if carry_flag {
            0x80
        } else {
            0
        }))
    }

    /// Load the program counter from the reset vector and disable
    /// interrupts, as the hardware reset line does.
    pub fn reset<I: Interconnect>(&mut self, interconnect: &mut I)
        ensures
            final(self).a == old(self).a,
            final(self).x == old(self).x,
            final(self).y == old(self).y,
            final(self).sp == old(self).sp,
            final(self).p == flag_set(old(self).p, INTERUPT_DISABLE, true),
            mem_preserved(*old(interconnect), *final(interconnect)),
            old(interconnect).plain(RESET_VECTOR) && old(interconnect).plain(0xfffd)
                ==> final(self).pc == word16(
                old(interconnect).mem_at(RESET_VECTOR),
                old(interconnect).mem_at(0xfffd),
            ),
    {
        self.pc = interconnect.read_double(RESET_VECTOR);
        self.set_interrupt_disable(true);
    }

    /// Deliver a non-maskable interrupt: push the program counter and
    /// the status byte, then jump through the NMI vector.
    pub fn nmi<I: Interconnect>(&mut self, interconnect: &mut I)
        ensures
            final(self).a == old(self).a,
            final(self).x == old(self).x,
            final(self).y == old(self).y,
            final(self).p == old(self).p,
            final(self).sp == old(self).sp.wrapping_sub(3),
            cells_stable(*old(interconnect), *final(interconnect)),
            old(interconnect).plain(NMI_VECTOR) && old(interconnect).plain(0xfffb) ==> final(self).pc == word16(
                old(interconnect).mem_at(NMI_VECTOR),
                old(interconnect).mem_at(0xfffb),
            ),
            ({
                let hi_a = stack_word_addr(old(self).sp);
                let lo_a = stack_word_addr(old(self).sp.wrapping_sub(1));
                let w = stack_word_addr(old(self).sp.wrapping_sub(2));
                old(interconnect).plain(hi_a) && old(interconnect).plain(lo_a)
                    && old(interconnect).plain(w) && old(interconnect).writable(hi_a)
                    && old(interconnect).writable(lo_a) && old(interconnect).writable(w)
                    && !old(interconnect).same_cell(hi_a, lo_a)
                    && !old(interconnect).same_cell(hi_a, w)
                    && !old(interconnect).same_cell(lo_a, w) ==> {
                    &&& final(interconnect).mem_at(hi_a) == word_hi(old(self).pc)
                    &&& final(interconnect).mem_at(lo_a) == word_lo(old(self).pc)
                    &&& final(interconnect).mem_at(w) == old(self).p
                }
            }),
    {
        let target = interconnect.read_double(NMI_VECTOR);
        let pc = self.pc;
        self.push_double(interconnect, pc);
        let p = self.p;
        self.push_word(interconnect, p);
        self.pc = target;
    }

    fn brk<I: Interconnect>(&mut self, interconnect: &mut I)
        ensures
            final(self).a == old(self).a,
            final(self).x == old(self).x,
            final(self).y == old(self).y,
            final(self).p == flag_set(old(self).p, INTERUPT_DISABLE, true),
            final(self).sp == old(self).sp.wrapping_sub(3),
            cells_stable(*old(interconnect), *final(interconnect)),
            old(interconnect).plain(BREAK_VECTOR) && old(interconnect).plain(0xffff) ==> final(self).pc == word16(
                old(interconnect).mem_at(BREAK_VECTOR),
                old(interconnect).mem_at(0xffff),
            ),
            ({
                let hi_a = stack_word_addr(old(self).sp);
                let lo_a = stack_word_addr(old(self).sp.wrapping_sub(1));
                let w = stack_word_addr(old(self).sp.wrapping_sub(2));
                old(interconnect).plain(hi_a) && old(interconnect).plain(lo_a)
                    && old(interconnect).plain(w) && old(interconnect).writable(hi_a)
                    && old(interconnect).writable(lo_a) && old(interconnect).writable(w)
                    && !old(interconnect).same_cell(hi_a, lo_a)
                    && !old(interconnect).same_cell(hi_a, w)
                    && !old(interconnect).same_cell(lo_a, w) ==> {
                    &&& final(interconnect).mem_at(hi_a) == word_hi(old(self).pc.wrapping_add(1))
                    &&& final(interconnect).mem_at(lo_a) == word_lo(old(self).pc.wrapping_add(1))
                    &&& final(interconnect).mem_at(w) == (old(self).p | BREAK_COMMAND
                        | UNUSED_FLAG)
                }
            }),
    {
        let target = interconnect.read_double(BREAK_VECTOR);
        let pc = self.pc.wrapping_add(1);
        self.push_double(interconnect, pc);
        let p = self.p | BREAK_COMMAND | UNUSED_FLAG;
        self.push_word(interconnect, p);
        self.set_interrupt_disable(true);
        self.pc = target;
    }

    fn jsr<I: Interconnect>(&mut self, interconnect: &mut I, addr: u16)
        ensures
            *final(self) == (Cpu {
                pc: addr,
                sp: old(self).sp.wrapping_sub(2),
                ..*old(self)
            }),
            mem_updated_pair(
                *old(interconnect),
                *final(interconnect),
                stack_word_addr(old(self).sp),
                word_hi(old(self).pc.wrapping_sub(1)),
                stack_word_addr(old(self).sp.wrapping_sub(1)),
                word_lo(old(self).pc.wrapping_sub(1)),
            ),
    {
        let return_addr = self.pc.wrapping_sub(1);
        self.push_double(interconnect, return_addr);
        self.pc = addr;
    }

    fn rts<I: Interconnect>(&mut self, interconnect: &mut I)
        ensures
            final(self).a == old(self).a,
            final(self).x == old(self).x,
            final(self).y == old(self).y,
            final(self).p == old(self).p,
            final(self).sp == old(self).sp.wrapping_add(2),
            mem_preserved(*old(interconnect), *final(interconnect)),
            ({
                let lo_a = stack_word_addr(old(self).sp.wrapping_add(1));
                let hi_a = stack_word_addr(old(self).sp.wrapping_add(2));
                old(interconnect).plain(lo_a) && old(interconnect).plain(hi_a) ==> final(self).pc
                    == word16(
                    old(interconnect).mem_at(lo_a),
                    old(interconnect).mem_at(hi_a),
                ).wrapping_add(1)
            }),
    {
        self.pc = self.pop_double(interconnect).wrapping_add(1);
    }

    fn rti<I: Interconnect>(&mut self, interconnect: &mut I)
        ensures
            final(self).a == old(self).a,
            final(self).x == old(self).x,
            final(self).y == old(self).y,
            final(self).sp == old(self).sp.wrapping_add(3),
            mem_preserved(*old(interconnect), *final(interconnect)),
            old(interconnect).plain(stack_word_addr(old(self).sp.wrapping_add(1)))
                ==> final(self).p == old(interconnect).mem_at(
                stack_word_addr(old(self).sp.wrapping_add(1)),
            ),
            ({
                let lo_a = stack_word_addr(old(self).sp.wrapping_add(2));
                let hi_a = stack_word_addr(old(self).sp.wrapping_add(3));
                old(interconnect).plain(lo_a) && old(interconnect).plain(hi_a) ==> final(self).pc
                    == word16(
                    old(interconnect).mem_at(lo_a),
                    old(interconnect).mem_at(hi_a),
                )
            }),
    {
        self.p = self.pop_word(interconnect);
        self.pc = self.pop_double(interconnect);
    }

    fn pha<I: Interconnect>(&mut self, interconnect: &mut I)
        ensures
            *final(self) == (Cpu { sp: old(self).sp.wrapping_sub(1), ..*old(self) }),
            mem_updated(
                *old(interconnect),
                *final(interconnect),
                stack_word_addr(old(self).sp),
                old(self).a,
            ),
    {
        let a = self.a;
        self.push_word(interconnect, a);
    }

    fn php<I: Interconnect>(&mut self, interconnect: &mut I)
        ensures
            *final(self) == (Cpu { sp: old(self).sp.wrapping_sub(1), ..*old(self) }),
            mem_updated(
                *old(interconnect),
                *final(interconnect),
                stack_word_addr(old(self).sp),
                old(self).p,
            ),
    {
        let p = self.p;
        self.push_word(interconnect, p);
    }

    fn pla<I: Interconnect>(&mut self, interconnect: &mut I)
        ensures
            final(self).x == old(self).x,
            final(self).y == old(self).y,
            final(self).pc == old(self).pc,
            final(self).sp == old(self).sp.wrapping_add(1),
            mem_preserved(*old(interconnect), *final(interconnect)),
            old(interconnect).plain(stack_word_addr(old(self).sp.wrapping_add(1))) ==> {
                let v = old(interconnect).mem_at(stack_word_addr(old(self).sp.wrapping_add(1)));
                final(self).a == v && final(self).p == with_zn(old(self).p, v)
            },
    {
        let a = self.pop_word(interconnect);
        self.a = self.set_zn(a);
    }

    fn plp<I: Interconnect>(&mut self, interconnect: &mut I)
        ensures
            final(self).a == old(self).a,
            final(self).x == old(self).x,
            final(self).y == old(self).y,
            final(self).pc == old(self).pc,
            final(self).sp == old(self).sp.wrapping_add(1),
            mem_preserved(*old(interconnect), *final(interconnect)),
            old(interconnect).plain(stack_word_addr(old(self).sp.wrapping_add(1)))
                ==> final(self).p == old(interconnect).mem_at(
                stack_word_addr(old(self).sp.wrapping_add(1)),
            ),
    {
        self.p = self.pop_word(interconnect);
    }

    fn dec<I: Interconnect>(&mut self, interconnect: &mut I, addr: u16)
        ensures
            final(self).a == old(self).a,
            final(self).x == old(self).x,
            final(self).y == old(self).y,
            final(self).sp == old(self).sp,
            final(self).pc == old(self).pc,
            cells_stable(*old(interconnect), *final(interconnect)),
            old(interconnect).plain(addr) ==> {
                let v = old(interconnect).mem_at(addr).wrapping_sub(1);
                final(self).p == with_zn(old(self).p, v) && mem_updated(
                    *old(interconnect),
                    *final(interconnect),
                    addr,
                    v,
                )
            },
    {
        let value = self.set_zn(interconnect.read_word(addr).wrapping_sub(1));
        interconnect.write_word(addr, value);
    }

    fn inc<I: Interconnect>(&mut self, interconnect: &mut I, addr: u16)
        ensures
            final(self).a == old(self).a,
            final(self).x == old(self).x,
            final(self).y == old(self).y,
            final(self).sp == old(self).sp,
            final(self).pc == old(self).pc,
            cells_stable(*old(interconnect), *final(interconnect)),
            old(interconnect).plain(addr) ==> {
                let v = old(interconnect).mem_at(addr).wrapping_add(1);
                final(self).p == with_zn(old(self).p, v) && mem_updated(
                    *old(interconnect),
                    *final(interconnect),
                    addr,
                    v,
                )
            },
    {
        let value = self.set_zn(interconnect.read_word(addr).wrapping_add(1));
        interconnect.write_word(addr, value);
    }

    fn sta<I: Interconnect>(&self, interconnect: &mut I, addr: u16) -> (dma: bool)
        ensures
            dma == (addr == 0x4014),
            mem_updated(*old(interconnect), *final(interconnect), addr, self.a),
    {
        self.write_word(interconnect, addr, self.a)
    }

    fn sty<I: Interconnect>(&self, interconnect: &mut I, addr: u16) -> (dma: bool)
        ensures
            dma == (addr == 0x4014),
            mem_updated(*old(interconnect), *final(interconnect), addr, self.y),
    {
        self.write_word(interconnect, addr, self.y)
    }

    fn stx<I: Interconnect>(&self, interconnect: &mut I, addr: u16) -> (dma: bool)
        ensures
            dma == (addr == 0x4014),
            mem_updated(*old(interconnect), *final(interconnect), addr, self.x),
    {
        self.write_word(interconnect, addr, self.x)
    }

    /// A store seen from the bus side: a write to the OAM DMA trigger
    /// makes the bus copy a whole 256-byte page into sprite memory, and
    /// the store reports that it did so the instruction can account the
    /// 512-cycle stall.
    fn write_word<I: Interconnect>(&self, interconnect: &mut I, addr: u16, value: u8) -> (dma:
        bool)
        ensures
            dma == (addr == 0x4014),
            mem_updated(*old(interconnect), *final(interconnect), addr, value),
    {
        interconnect.write_word(addr, value);
        addr == 0x4014
    }

    fn asl<I: Interconnect>(&mut self, interconnect: &mut I, am: AddressingMode)
        requires
            am == AddressingMode::Accumulator || is_addr_mode(am),
        ensures
            final(self).x == old(self).x,
            final(self).y == old(self).y,
            final(self).sp == old(self).sp,
            cells_stable(*old(interconnect), *final(interconnect)),
            am == AddressingMode::Accumulator ==> *final(self) == (Cpu {
                a: asl_result(old(self).a),
                p: asl_status(old(self).p, old(self).a),
                ..*old(self)
            }) && mem_preserved(*old(interconnect), *final(interconnect)),
            am != AddressingMode::Accumulator ==> final(self).a == old(self).a,
            ({
                let a = operand_addr(*old(interconnect), *old(self), old(self).pc, am);
                is_simple_mode(am) && operand_plain(*old(interconnect), old(self).pc, am) && old(
                    interconnect,
                ).plain(a) ==> {
                    let v = old(interconnect).mem_at(a);
                    &&& *final(self) == (Cpu {
                        pc: old(self).pc.wrapping_add(operand_len(am)),
                        p: asl_status(old(self).p, v),
                        ..*old(self)
                    })
                    &&& mem_updated(*old(interconnect), *final(interconnect), a, asl_result(v))
                }
            }),
    {
        match am {
            AddressingMode::Accumulator => {
                let a = self.a;
                self.a = self.arithmetic_shift_left(a);
            },
            _ => {
                let addr = self.addr_for(interconnect, am);
                let value = interconnect.read_word(addr);
                let result = self.arithmetic_shift_left(value);
                interconnect.write_word(addr, result);
            },
        }
    }

    fn lsr<I: Interconnect>(&mut self, interconnect: &mut I, am: AddressingMode)
        requires
            am == AddressingMode::Accumulator || is_addr_mode(am),
        ensures
            final(self).x == old(self).x,
            final(self).y == old(self).y,
            final(self).sp == old(self).sp,
            cells_stable(*old(interconnect), *final(interconnect)),
            am == AddressingMode::Accumulator ==> *final(self) == (Cpu {
                a: lsr_result(old(self).a),
                p: lsr_status(old(self).p, old(self).a),
                ..*old(self)
            }) && mem_preserved(*old(interconnect), *final(interconnect)),
            am != AddressingMode::Accumulator ==> final(self).a == old(self).a,
            ({
                let a = operand_addr(*old(interconnect), *old(self), old(self).pc, am);
                is_simple_mode(am) && operand_plain(*old(interconnect), old(self).pc, am) && old(
                    interconnect,
                ).plain(a) ==> {
                    let v = old(interconnect).mem_at(a);
                    &&& *final(self) == (Cpu {
                        pc: old(self).pc.wrapping_add(operand_len(am)),
                        p: lsr_status(old(self).p, v),
                        ..*old(self)
                    })
                    &&& mem_updated(*old(interconnect), *final(interconnect), a, lsr_result(v))
                }
            }),
    {
        match am {
            AddressingMode::Accumulator => {
                let a = self.a;
                self.a = self.logical_shift_right(a);
            },
            _ => {
                let addr = self.addr_for(interconnect, am);
                let value = interconnect.read_word(addr);
                let result = self.logical_shift_right(value);
                interconnect.write_word(addr, result);
            },
        }
    }

    fn rol<I: Interconnect>(&mut self, interconnect: &mut I, am: AddressingMode)
        requires
            am == AddressingMode::Accumulator || is_addr_mode(am),
        ensures
            final(self).x == old(self).x,
            final(self).y == old(self).y,
            final(self).sp == old(self).sp,
            cells_stable(*old(interconnect), *final(interconnect)),
            am == AddressingMode::Accumulator ==> *final(self) == (Cpu {
                a: rol_result(old(self).a, old(self).p),
                p: rol_status(old(self).p, old(self).a),
                ..*old(self)
            }) && mem_preserved(*old(interconnect), *final(interconnect)),
            am != AddressingMode::Accumulator ==> final(self).a == old(self).a,
            ({
                let a = operand_addr(*old(interconnect), *old(self), old(self).pc, am);
                is_simple_mode(am) && operand_plain(*old(interconnect), old(self).pc, am) && old(
                    interconnect,
                ).plain(a) ==> {
                    let v = old(interconnect).mem_at(a);
                    &&& *final(self) == (Cpu {
                        pc: old(self).pc.wrapping_add(operand_len(am)),
                        p: rol_status(old(self).p, v),
                        ..*old(self)
                    })
                    &&& mem_updated(*old(interconnect), *final(interconnect), a, rol_result(v, old(self).p))
                }
            }),
    {
        match am {
            AddressingMode::Accumulator => {
                let a = self.a;
                self.a = self.rotate_left(a);
            },
            _ => {
                let addr = self.addr_for(interconnect, am);
                let value = interconnect.read_word(addr);
                let result = self.rotate_left(value);
                interconnect.write_word(addr, result);
            },
        }
    }

    fn ror<I: Interconnect>(&mut self, interconnect: &mut I, am: AddressingMode)
        requires
            am == AddressingMode::Accumulator || is_addr_mode(am),
        ensures
            final(self).x == old(self).x,
            final(self).y == old(self).y,
            final(self).sp == old(self).sp,
            cells_stable(*old(interconnect), *final(interconnect)),
            am == AddressingMode::Accumulator ==> *final(self) == (Cpu {
                a: ror_result(old(self).a, old(self).p),
                p: ror_status(old(self).p, old(self).a),
                ..*old(self)
            }) && mem_preserved(*old(interconnect), *final(interconnect)),
            am != AddressingMode::Accumulator ==> final(self).a == old(self).a,
            ({
                let a = operand_addr(*old(interconnect), *old(self), old(self).pc, am);
                is_simple_mode(am) && operand_plain(*old(interconnect), old(self).pc, am) && old(
                    interconnect,
                ).plain(a) ==> {
                    let v = old(interconnect).mem_at(a);
                    &&& *final(self) == (Cpu {
                        pc: old(self).pc.wrapping_add(operand_len(am)),
                        p: ror_status(old(self).p, v),
                        ..*old(self)
                    })
                    &&& mem_updated(*old(interconnect), *final(interconnect), a, ror_result(v, old(self).p))
                }
            }),
    {
        match am {
            AddressingMode::Accumulator => {
                let a = self.a;
                self.a = self.rotate_right(a);
            },
            _ => {
                let addr = self.addr_for(interconnect, am);
                let value = interconnect.read_word(addr);
                let result = self.rotate_right(value);
                interconnect.write_word(addr, result);
            },
        }
    }

    /// Fetch the next instruction byte and advance the program counter.
    fn read_pc<I: Interconnect>(&mut self, interconnect: &mut I) -> (r: u8)
        ensures
            *final(self) == (Cpu { pc: old(self).pc.wrapping_add(1), ..*old(self) }),
            mem_preserved(*old(interconnect), *final(interconnect)),
            old(interconnect).plain(old(self).pc) ==> r == old(interconnect).mem_at(old(self).pc),
    {
        let value = interconnect.read_word(self.pc);
        self.pc = self.pc.wrapping_add(1);
        value
    }

    /// Fetch a little-endian 16-bit operand from the instruction stream.
    fn fetch_absolute<I: Interconnect>(&mut self, interconnect: &mut I) -> (r: u16)
        ensures
            *final(self) == (Cpu { pc: old(self).pc.wrapping_add(2), ..*old(self) }),
            mem_preserved(*old(interconnect), *final(interconnect)),
            old(interconnect).plain(old(self).pc) && old(interconnect).plain(
                old(self).pc.wrapping_add(1),
            ) ==> r == word16(
                old(interconnect).mem_at(old(self).pc),
                old(interconnect).mem_at(old(self).pc.wrapping_add(1)),
            ),
    {
        let lower = self.read_pc(interconnect);
        let higher = self.read_pc(interconnect);
        (higher as u16) * 0x100 + lower as u16
    }

    /// Resolve the operand byte of an instruction whose mode yields a
    /// value.
    fn value_for<I: Interconnect>(&mut self, interconnect: &mut I, am: AddressingMode) -> (r: u8)
        requires
            is_value_mode(am),
        ensures
            final(self).a == old(self).a,
            final(self).x == old(self).x,
            final(self).y == old(self).y,
            final(self).sp == old(self).sp,
            final(self).p == old(self).p,
            final(self).pc == old(self).pc.wrapping_add(operand_len(am)),
            mem_preserved(*old(interconnect), *final(interconnect)),
            am == AddressingMode::Immediate && old(interconnect).plain(old(self).pc)
                ==> r == old(interconnect).mem_at(old(self).pc),
            ({
                let a = operand_addr(*old(interconnect), *old(self), old(self).pc, am);
                is_simple_mode(am) && operand_plain(*old(interconnect), old(self).pc, am) && old(
                    interconnect,
                ).plain(a) ==> r == old(interconnect).mem_at(a)
            }),
    {
        match am {
            AddressingMode::Immediate => self.read_pc(interconnect),
            _ => {
                let addr = self.addr_for(interconnect, am);
                interconnect.read_word(addr)
            },
        }
    }

    /// Resolve the effective address of an instruction whose mode yields
    /// an address.
    fn addr_for<I: Interconnect>(&mut self, interconnect: &mut I, am: AddressingMode) -> (r: u16)
        requires
            is_addr_mode(am),
        ensures
            final(self).a == old(self).a,
            final(self).x == old(self).x,
            final(self).y == old(self).y,
            final(self).sp == old(self).sp,
            final(self).p == old(self).p,
            final(self).pc == old(self).pc.wrapping_add(operand_len(am)),
            mem_preserved(*old(interconnect), *final(interconnect)),
            is_simple_mode(am) && operand_plain(*old(interconnect), old(self).pc, am)
                ==> r == operand_addr(*old(interconnect), *old(self), old(self).pc, am),
            am == AddressingMode::Relative && old(interconnect).plain(old(self).pc) ==> r
                == relative_target(
                old(self).pc.wrapping_add(1),
                old(interconnect).mem_at(old(self).pc),
            ),
            ({
                let t = word16(
                    old(interconnect).mem_at(old(self).pc),
                    old(interconnect).mem_at(old(self).pc.wrapping_add(1)),
                );
                am == AddressingMode::Indirect && old(interconnect).plain(old(self).pc) && old(
                    interconnect,
                ).plain(old(self).pc.wrapping_add(1)) && old(interconnect).plain(t) && old(
                    interconnect,
                ).plain(addr_next(t)) ==> r == word16(
                    old(interconnect).mem_at(t),
                    old(interconnect).mem_at(addr_next(t)),
                )
            }),
            ({
                let base = old(interconnect).mem_at(old(self).pc).wrapping_add(old(self).x);
                am == AddressingMode::IndirectX && old(interconnect).plain(old(self).pc) && old(
                    interconnect,
                ).plain(base as u16) && old(interconnect).plain(base.wrapping_add(1) as u16)
                    ==> r == word16(
                    old(interconnect).mem_at(base as u16),
                    old(interconnect).mem_at(base.wrapping_add(1) as u16),
                )
            }),
            ({
                let zp = old(interconnect).mem_at(old(self).pc);
                am == AddressingMode::IndirectY && old(interconnect).plain(old(self).pc) && old(
                    interconnect,
                ).plain(zp as u16) && old(interconnect).plain(zp.wrapping_add(1) as u16) ==> r
                    == word16(
                    old(interconnect).mem_at(zp as u16),
                    old(interconnect).mem_at(zp.wrapping_add(1) as u16),
                ).wrapping_add(old(self).y as u16)
            }),
    {
        match am {
            AddressingMode::Absolute => self.fetch_absolute(interconnect),
            AddressingMode::Indirect => {
                let addr = self.fetch_absolute(interconnect);
                interconnect.read_double(addr)
            },
            AddressingMode::IndirectX => {
                let zero_page_addr = self.read_pc(interconnect);
                let base = zero_page_addr.wrapping_add(self.x);
                let lo = interconnect.read_word(base as u16);
                let hi = interconnect.read_word(base.wrapping_add(1) as u16);
                (lo as u16) + 0x100 * (hi as u16)
            },
            AddressingMode::IndirectY => {
                let zero_page_addr = self.read_pc(interconnect);
                let lo = interconnect.read_word(zero_page_addr as u16);
                let hi = interconnect.read_word(zero_page_addr.wrapping_add(1) as u16);
                ((lo as u16) + 0x100 * (hi as u16)).wrapping_add(self.y as u16)
            },
            AddressingMode::ZeroPage => self.read_pc(interconnect) as u16,
            AddressingMode::ZeroPageX => {
                let zero_page_addr = self.read_pc(interconnect);
                zero_page_addr.wrapping_add(self.x) as u16
            },
            AddressingMode::ZeroPageY => {
                let zero_page_addr = self.read_pc(interconnect);
                zero_page_addr.wrapping_add(self.y) as u16
            },
            AddressingMode::AbsoluteX => {
                let base = self.fetch_absolute(interconnect);
                base.wrapping_add(self.x as u16)
            },
            AddressingMode::AbsoluteY => {
                let base = self.fetch_absolute(interconnect);
                base.wrapping_add(self.y as u16)
            },
            AddressingMode::Relative => {
                let offset = self.read_pc(interconnect);
                if offset >= 0x80 {
                    self.pc.wrapping_add(offset as u16).wrapping_sub(0x100)
                } else {
                    self.pc.wrapping_add(offset as u16)
                }
            },
            _ => {
                proof {
                    assert(false);
                }
                0
            },
        }
    }

    fn push_word<I: Interconnect>(&mut self, interconnect: &mut I, value: u8)
        ensures
            *final(self) == (Cpu { sp: old(self).sp.wrapping_sub(1), ..*old(self) }),
            mem_updated(
                *old(interconnect),
                *final(interconnect),
                stack_word_addr(old(self).sp),
                value,
            ),
    {
        interconnect.write_word(STACK_END + self.sp as u16, value);
        self.sp = self.sp.wrapping_sub(1);
    }

    fn push_double<I: Interconnect>(&mut self, interconnect: &mut I, value: u16)
        ensures
            *final(self) == (Cpu { sp: old(self).sp.wrapping_sub(2), ..*old(self) }),
            mem_updated_pair(
                *old(interconnect),
                *final(interconnect),
                stack_word_addr(old(self).sp),
                word_hi(value),
                stack_word_addr(old(self).sp.wrapping_sub(1)),
                word_lo(value),
            ),
    {
        proof {
            assert(value >> 8u16 < 256 && value & 0xff < 256) by (bit_vector);
        }
        interconnect.write_word(STACK_END + self.sp as u16, (value >> 8u16) as u8);
        interconnect.write_word(STACK_END + self.sp.wrapping_sub(1) as u16, (value & 0xff) as u8);
        self.sp = self.sp.wrapping_sub(2);
    }

    fn pop_word<I: Interconnect>(&mut self, interconnect: &mut I) -> (r: u8)
        ensures
            *final(self) == (Cpu { sp: old(self).sp.wrapping_add(1), ..*old(self) }),
            mem_preserved(*old(interconnect), *final(interconnect)),
            old(interconnect).plain(stack_word_addr(old(self).sp.wrapping_add(1)))
                ==> r == old(interconnect).mem_at(stack_word_addr(old(self).sp.wrapping_add(1))),
    {
        self.sp = self.sp.wrapping_add(1);
        interconnect.read_word(STACK_END + self.sp as u16)
    }

    fn pop_double<I: Interconnect>(&mut self, interconnect: &mut I) -> (r: u16)
        ensures
            *final(self) == (Cpu { sp: old(self).sp.wrapping_add(2), ..*old(self) }),
            mem_preserved(*old(interconnect), *final(interconnect)),
            ({
                let lo_a = stack_word_addr(old(self).sp.wrapping_add(1));
                let hi_a = stack_word_addr(old(self).sp.wrapping_add(2));
                old(interconnect).plain(lo_a) && old(interconnect).plain(hi_a) ==> r == word16(
                    old(interconnect).mem_at(lo_a),
                    old(interconnect).mem_at(hi_a),
                )
            }),
    {
        let lo = interconnect.read_word(STACK_END + self.sp.wrapping_add(1) as u16);
        let hi = interconnect.read_word(STACK_END + self.sp.wrapping_add(2) as u16);
        self.sp = self.sp.wrapping_add(2);
        (lo as u16) + 0x100 * (hi as u16)
    }

    /// Fetch, decode and execute one instruction, and return its cost in
    /// cycles: the baseline cost of the opcode from the cycle table, plus
    /// 512 when the instruction triggered an OAM DMA transfer.
    #[verifier::rlimit(100)]
    #[verifier::spinoff_prover]
    pub fn step<I: Interconnect>(&mut self, interconnect: &mut I) -> (cycles: u16)
        ensures
            cells_stable(*old(interconnect), *final(interconnect)),
            2 <= cycles <= 519,
            old(interconnect).plain(old(self).pc) ==> {
                let i = spec_decode(old(interconnect).mem_at(old(self).pc));
                cycles == instruction_cycles(i) || cycles == instruction_cycles(i) + 512
            },
            ({
                let i = spec_decode(old(interconnect).mem_at(old(self).pc));
                old(interconnect).plain(old(self).pc) && i.1 == AddressingMode::Implicit
                    && is_register_implied_op(i.0) ==> *final(self) == implied_step(
                    *old(self),
                    i.0,
                ) && mem_preserved(*old(interconnect), *final(interconnect))
            }),
            ({
                let i = spec_decode(old(interconnect).mem_at(old(self).pc));
                old(interconnect).plain(old(self).pc) && i.1 == AddressingMode::Accumulator
                    ==> *final(self) == accumulator_step(*old(self), i.0) && mem_preserved(
                    *old(interconnect),
                    *final(interconnect),
                )
            }),
            ({
                let i = spec_decode(old(interconnect).mem_at(old(self).pc));
                let operand = old(interconnect).mem_at(old(self).pc.wrapping_add(1));
                old(interconnect).plain(old(self).pc) && old(interconnect).plain(
                    old(self).pc.wrapping_add(1),
                ) && i.1 == AddressingMode::Immediate ==> *final(self) == value_op_step(
                    *old(self),
                    i.0,
                    operand,
                    old(self).pc.wrapping_add(2),
                ) && mem_preserved(*old(interconnect), *final(interconnect))
            }),
            ({
                let i = spec_decode(old(interconnect).mem_at(old(self).pc));
                let operand = old(interconnect).mem_at(old(self).pc.wrapping_add(1));
                old(interconnect).plain(old(self).pc) && old(interconnect).plain(
                    old(self).pc.wrapping_add(1),
                ) && i.1 == AddressingMode::Relative ==> *final(self) == branch_step(
                    *old(self),
                    i.0,
                    operand,
                ) && mem_preserved(*old(interconnect), *final(interconnect))
            }),
            ({
                let i = spec_decode(old(interconnect).mem_at(old(self).pc));
                old(interconnect).plain(old(self).pc) && !is_store_op(i.0) ==> cycles
                    == instruction_cycles(i)
            }),
            ({
                let i = spec_decode(old(interconnect).mem_at(old(self).pc));
                let opc = old(self).pc.wrapping_add(1);
                let a = operand_addr(*old(interconnect), *old(self), opc, i.1);
                old(interconnect).plain(old(self).pc) && is_value_op(i.0) && is_simple_mode(i.1)
                    && operand_plain(*old(interconnect), opc, i.1) && old(interconnect).plain(a)
                    ==> *final(self) == value_op_step(
                    *old(self),
                    i.0,
                    old(interconnect).mem_at(a),
                    opc.wrapping_add(operand_len(i.1)),
                ) && mem_preserved(*old(interconnect), *final(interconnect))
            }),
            ({
                let i = spec_decode(old(interconnect).mem_at(old(self).pc));
                let opc = old(self).pc.wrapping_add(1);
                let a = operand_addr(*old(interconnect), *old(self), opc, i.1);
                old(interconnect).plain(old(self).pc) && is_store_op(i.0) && is_simple_mode(i.1)
                    && operand_plain(*old(interconnect), opc, i.1) ==> {
                    &&& *final(self) == (Cpu {
                        pc: opc.wrapping_add(operand_len(i.1)),
                        ..*old(self)
                    })
                    &&& a != 0x4014 ==> mem_updated(
                        *old(interconnect),
                        *final(interconnect),
                        a,
                        store_value(*old(self), i.0),
                    ) && cycles == instruction_cycles(i)
                    &&& a == 0x4014 ==> cycles == instruction_cycles(i) + 512
                }
            }),
            ({
                let i = spec_decode(old(interconnect).mem_at(old(self).pc));
                let opc = old(self).pc.wrapping_add(1);
                let a = operand_addr(*old(interconnect), *old(self), opc, i.1);
                old(interconnect).plain(old(self).pc) && is_rmw_op(i.0) && is_simple_mode(i.1)
                    && operand_plain(*old(interconnect), opc, i.1) && old(interconnect).plain(a)
                    ==> {
                    let v = old(interconnect).mem_at(a);
                    &&& *final(self) == (Cpu {
                        pc: opc.wrapping_add(operand_len(i.1)),
                        p: rmw_status(i.0, old(self).p, v),
                        ..*old(self)
                    })
                    &&& mem_updated(
                        *old(interconnect),
                        *final(interconnect),
                        a,
                        rmw_result(i.0, old(self).p, v),
                    )
                }
            }),
            ({
                let i = spec_decode(old(interconnect).mem_at(old(self).pc));
                let opc = old(self).pc.wrapping_add(1);
                let target = word16(
                    old(interconnect).mem_at(opc),
                    old(interconnect).mem_at(opc.wrapping_add(1)),
                );
                old(interconnect).plain(old(self).pc) && old(interconnect).plain(opc) && old(
                    interconnect,
                ).plain(opc.wrapping_add(1)) && i.1 == AddressingMode::Absolute ==> {
                    &&& i.0 == Op::Jmp ==> *final(self) == (Cpu { pc: target, ..*old(self) })
                        && mem_preserved(*old(interconnect), *final(interconnect))
                    &&& i.0 == Op::Jsr ==> *final(self) == (Cpu {
                        pc: target,
                        sp: old(self).sp.wrapping_sub(2),
                        ..*old(self)
                    }) && mem_updated_pair(
                        *old(interconnect),
                        *final(interconnect),
                        stack_word_addr(old(self).sp),
                        word_hi(old(self).pc.wrapping_add(2)),
                        stack_word_addr(old(self).sp.wrapping_sub(1)),
                        word_lo(old(self).pc.wrapping_add(2)),
                    )
                }
            }),
            ({
                let i = spec_decode(old(interconnect).mem_at(old(self).pc));
                let opc = old(self).pc.wrapping_add(1);
                let t = word16(
                    old(interconnect).mem_at(opc),
                    old(interconnect).mem_at(opc.wrapping_add(1)),
                );
                i.0 == Op::Jmp && i.1 == AddressingMode::Indirect && old(interconnect).plain(
                    old(self).pc,
                ) && old(interconnect).plain(opc) && old(interconnect).plain(
                    opc.wrapping_add(1),
                ) && old(interconnect).plain(t) && old(interconnect).plain(addr_next(t))
                    ==> *final(self) == (Cpu {
                    pc: word16(
                        old(interconnect).mem_at(t),
                        old(interconnect).mem_at(addr_next(t)),
                    ),
                    ..*old(self)
                }) && mem_preserved(*old(interconnect), *final(interconnect))
            }),
            ({
                let i = spec_decode(old(interconnect).mem_at(old(self).pc));
                let lo_a = stack_word_addr(old(self).sp.wrapping_add(1));
                let hi_a = stack_word_addr(old(self).sp.wrapping_add(2));
                i.0 == Op::Rts && old(interconnect).plain(old(self).pc) && old(
                    interconnect,
                ).plain(lo_a) && old(interconnect).plain(hi_a) ==> *final(self) == (Cpu {
                    pc: word16(
                        old(interconnect).mem_at(lo_a),
                        old(interconnect).mem_at(hi_a),
                    ).wrapping_add(1),
                    sp: old(self).sp.wrapping_add(2),
                    ..*old(self)
                }) && mem_preserved(*old(interconnect), *final(interconnect))
            }),
            ({
                let i = spec_decode(old(interconnect).mem_at(old(self).pc));
                let w = stack_word_addr(old(self).sp.wrapping_add(1));
                let lo_a = stack_word_addr(old(self).sp.wrapping_add(2));
                let hi_a = stack_word_addr(old(self).sp.wrapping_add(3));
                i.0 == Op::Rti && old(interconnect).plain(old(self).pc) && old(
                    interconnect,
                ).plain(w) && old(interconnect).plain(lo_a) && old(interconnect).plain(hi_a)
                    ==> *final(self) == (Cpu {
                    p: old(interconnect).mem_at(w),
                    pc: word16(
                        old(interconnect).mem_at(lo_a),
                        old(interconnect).mem_at(hi_a),
                    ),
                    sp: old(self).sp.wrapping_add(3),
                    ..*old(self)
                }) && mem_preserved(*old(interconnect), *final(interconnect))
            }),
            ({
                let i = spec_decode(old(interconnect).mem_at(old(self).pc));
                old(interconnect).plain(old(self).pc) && i.0 == Op::Pha ==> *final(self) == (Cpu {
                    pc: old(self).pc.wrapping_add(1),
                    sp: old(self).sp.wrapping_sub(1),
                    ..*old(self)
                }) && mem_updated(
                    *old(interconnect),
                    *final(interconnect),
                    stack_word_addr(old(self).sp),
                    old(self).a,
                )
            }),
            ({
                let i = spec_decode(old(interconnect).mem_at(old(self).pc));
                old(interconnect).plain(old(self).pc) && i.0 == Op::Php ==> *final(self) == (Cpu {
                    pc: old(self).pc.wrapping_add(1),
                    sp: old(self).sp.wrapping_sub(1),
                    ..*old(self)
                }) && mem_updated(
                    *old(interconnect),
                    *final(interconnect),
                    stack_word_addr(old(self).sp),
                    old(self).p,
                )
            }),
            ({
                let i = spec_decode(old(interconnect).mem_at(old(self).pc));
                let w = stack_word_addr(old(self).sp.wrapping_add(1));
                i.0 == Op::Pla && old(interconnect).plain(old(self).pc) && old(
                    interconnect,
                ).plain(w) ==> {
                    let v = old(interconnect).mem_at(w);
                    *final(self) == (Cpu {
                        a: v,
                        p: with_zn(old(self).p, v),
                        pc: old(self).pc.wrapping_add(1),
                        sp: old(self).sp.wrapping_add(1),
                        ..*old(self)
                    }) && mem_preserved(*old(interconnect), *final(interconnect))
                }
            }),
            ({
                let i = spec_decode(old(interconnect).mem_at(old(self).pc));
                let w = stack_word_addr(old(self).sp.wrapping_add(1));
                i.0 == Op::Plp && old(interconnect).plain(old(self).pc) && old(
                    interconnect,
                ).plain(w) ==> *final(self) == (Cpu {
                    p: old(interconnect).mem_at(w),
                    pc: old(self).pc.wrapping_add(1),
                    sp: old(self).sp.wrapping_add(1),
                    ..*old(self)
                }) && mem_preserved(*old(interconnect), *final(interconnect))
            }),
            ({
                let i = spec_decode(old(interconnect).mem_at(old(self).pc));
                old(interconnect).plain(old(self).pc) && i.0 == Op::Brk ==> {
                    &&& final(self).a == old(self).a
                    &&& final(self).x == old(self).x
                    &&& final(self).y == old(self).y
                    &&& final(self).p == flag_set(old(self).p, INTERUPT_DISABLE, true)
                    &&& final(self).sp == old(self).sp.wrapping_sub(3)
                    &&& old(interconnect).plain(BREAK_VECTOR) && old(interconnect).plain(0xffff)
                        ==> final(self).pc == word16(
                        old(interconnect).mem_at(BREAK_VECTOR),
                        old(interconnect).mem_at(0xffff),
                    )
                }
            }),
    {
        let opcode = self.read_pc(interconnect);
        let instr = Instruction::from_opcode(opcode);
        proof {
            lemma_decode_modes(opcode);
        }
        let base = instr.cycles();
        let Instruction(op, am) = instr;

        let mut dma_performed = false;

        match op {
            Op::Adc => {
                let value = self.value_for(interconnect, am);
                self.adc(value);
            },
            Op::And => {
                let value = self.value_for(interconnect, am);
                self.and(value);
            },
            Op::Asl => self.asl(interconnect, am),
            Op::Bcc => {
                let addr = self.addr_for(interconnect, am);
                self.bcc(addr);
            },
            Op::Bcs => {
                let addr = self.addr_for(interconnect, am);
                self.bcs(addr);
            },
            Op::Beq => {
                let addr = self.addr_for(interconnect, am);
                self.beq(addr);
            },
            Op::Bit => {
                let value = self.value_for(interconnect, am);
                self.bit(value);
            },
            Op::Bmi => {
                let addr = self.addr_for(interconnect, am);
                self.bmi(addr);
            },
            Op::Bne => {
                let addr = self.addr_for(interconnect, am);
                self.bne(addr);
            },
            Op::Bpl => {
                let addr = self.addr_for(interconnect, am);
                self.bpl(addr);
            },
            Op::Brk => self.brk(interconnect),
            Op::Bvc => {
                let addr = self.addr_for(interconnect, am);
                self.bvc(addr);
            },
            Op::Bvs => {
                let addr = self.addr_for(interconnect, am);
                self.bvs(addr);
            },
            Op::Clc => self.clc(),
            Op::Cld => self.cld(),
            Op::Cli => self.cli(),
            Op::Clv => self.clv(),
            Op::Cmp => {
                let value = self.value_for(interconnect, am);
                self.cmp(value);
            },
            Op::Cpx => {
                let value = self.value_for(interconnect, am);
                self.cpx(value);
            },
            Op::Cpy => {
                let value = self.value_for(interconnect, am);
                self.cpy(value);
            },
            Op::Dec => {
                let addr = self.addr_for(interconnect, am);
                self.dec(interconnect, addr);
            },
            Op::Dex => self.dex(),
            Op::Dey => self.dey(),
            Op::Eor => {
                let value = self.value_for(interconnect, am);
                self.eor(value);
            },
            Op::Inc => {
                let addr = self.addr_for(interconnect, am);
                self.inc(interconnect, addr);
            },
            Op::Inx => self.inx(),
            Op::Iny => self.iny(),
            Op::Jmp => {
                let addr = self.addr_for(interconnect, am);
                self.jmp(addr);
            },
            Op::Jsr => {
                let addr = self.addr_for(interconnect, am);
                self.jsr(interconnect, addr);
            },
            Op::Lda => {
                let value = self.value_for(interconnect, am);
                self.lda(value);
            },
            Op::Ldx => {
                let value = self.value_for(interconnect, am);
                self.ldx(value);
            },
            Op::Ldy => {
                let value = self.value_for(interconnect, am);
                self.ldy(value);
            },
            Op::Lsr => self.lsr(interconnect, am),
            Op::Nop => {},
            Op::Ora => {
                let value = self.value_for(interconnect, am);
                self.ora(value);
            },
            Op::Pha => self.pha(interconnect),
            Op::Php => self.php(interconnect),
            Op::Pla => self.pla(interconnect),
            Op::Plp => self.plp(interconnect),
            Op::Rol => self.rol(interconnect, am),
            Op::Ror => self.ror(interconnect, am),
            Op::Rti => self.rti(interconnect),
            Op::Rts => self.rts(interconnect),
            Op::Sbc => {
                let value = self.value_for(interconnect, am);
                self.sbc(value);
            },
            Op::Sec => self.sec(),
            Op::Sed => self.sed(),
            Op::Sei => self.sei(),
            Op::Sta => {
                let addr = self.addr_for(interconnect, am);
                dma_performed = self.sta(interconnect, addr);
            },
            Op::Stx => {
                let addr = self.addr_for(interconnect, am);
                dma_performed = self.stx(interconnect, addr);
            },
            Op::Sty => {
                let addr = self.addr_for(interconnect, am);
                dma_performed = self.sty(interconnect, addr);
            },
            Op::Tax => self.tax(),
            Op::Tay => self.tay(),
            Op::Tsx => self.tsx(),
            Op::Txa => self.txa(),
            Op::Tya => self.tya(),
            Op::Txs => self.txs(),
        }

        if dma_performed {
            512 + base
        } else {
            base
        }
    }
}

/// Forcing one flag and reading it back gives the forced value, for any
/// single nonzero mask.
pub proof fn lemma_flag_set_same(p: u8, mask: u8, on: bool)
    by (bit_vector)
    requires
        mask != 0,
    ensures
        flag(flag_set(p, mask, on), mask) == on,
{
}

/// Forcing one flag leaves every flag with a disjoint mask as it was.
pub proof fn lemma_flag_set_other(p: u8, m1: u8, m2: u8, on: bool)
    by (bit_vector)
    requires
        m1 & m2 == 0,
    ensures
        flag(flag_set(p, m1, on), m2) == flag(p, m2),
{
}

/// The flag masks name disjoint bits of the status byte.
pub proof fn lemma_flag_masks()
    by (bit_vector)
    ensures
        NEGATIVE_FLAG & ZERO_FLAG == 0,
        CARRY_FLAG & ZERO_FLAG == 0,
        CARRY_FLAG & NEGATIVE_FLAG == 0,
        OVERFLOW_FLAG & ZERO_FLAG == 0,
        OVERFLOW_FLAG & NEGATIVE_FLAG == 0,
        OVERFLOW_FLAG & CARRY_FLAG == 0,
{
}

/// After a load of `v` the Zero flag is set exactly when `v == 0`, and
/// the Negative flag exactly when `v >= 0x80`: the flags of any status
/// byte passed through `with_zn`.
pub proof fn lemma_load_flags(p: u8, v: u8)
    ensures
        flag(with_zn(p, v), ZERO_FLAG) == (v == 0),
        flag(with_zn(p, v), NEGATIVE_FLAG) == (v >= 0x80),
{
    lemma_flag_masks();
    lemma_flag_set_same(flag_set(p, ZERO_FLAG, v == 0), NEGATIVE_FLAG, v & 0x80 != 0);
    lemma_flag_set_other(flag_set(p, ZERO_FLAG, v == 0), NEGATIVE_FLAG, ZERO_FLAG, v & 0x80 != 0);
    lemma_flag_set_same(p, ZERO_FLAG, v == 0);
    assert((v & 0x80 != 0) == (v >= 0x80)) by (bit_vector);
}

/// After a compare of `a` against `b` the Carry flag is set exactly when
/// `a >= b` and the Zero flag exactly when `a == b`.
pub proof fn lemma_compare_flags(p: u8, a: u8, b: u8)
    ensures
        flag(compare_status(p, a, b), CARRY_FLAG) == (a >= b),
        flag(compare_status(p, a, b), ZERO_FLAG) == (a == b),
{
    let d = a.wrapping_sub(b);
    lemma_flag_masks();
    lemma_flag_set_same(with_zn(p, d), CARRY_FLAG, a >= b);
    lemma_flag_set_other(with_zn(p, d), CARRY_FLAG, ZERO_FLAG, a >= b);
    lemma_load_flags(p, d);
}

/// Pushing a 16-bit word and then popping one restores the stack
/// pointer and returns the pushed word: the pop reads back the very
/// two page-1 cells the push wrote, and reassembling their bytes gives
/// the word back.
pub proof fn lemma_push_pop_round_trip(sp: u8, x: u16)
    ensures
        sp.wrapping_sub(2).wrapping_add(2) == sp,
        stack_word_addr(sp.wrapping_sub(2).wrapping_add(1)) == stack_word_addr(
            sp.wrapping_sub(1),
        ),
        stack_word_addr(sp.wrapping_sub(2).wrapping_add(2)) == stack_word_addr(sp),
        word16(word_lo(x), word_hi(x)) == x,
{
    assert(word16(word_lo(x), word_hi(x)) == x) by (bit_vector);
}

/// Add-with-carry followed by subtract-with-borrow of the same operand
/// is the identity on the accumulator, provided the carry fed to the
/// subtraction is the complement of the carry fed to the addition (the
/// clear-carry-add, set-carry-subtract pairing).
pub proof fn lemma_adc_sbc_round_trip(a: u8, v: u8, p1: u8, p2: u8)
    requires
        flag(p2, CARRY_FLAG) == !flag(p1, CARRY_FLAG),
    ensures
        sbc_result(adc_result(a, p1, v), p2, v) == a,
{
    let c = carry_in(p1);
    let r1 = adc_result(a, p1, v);
    assert(borrow_in(p2) == c);
    if a + v + c > 255 {
        assert(r1 == a + v + c - 256);
        assert(r1 + 256 - v - c == a as int);
    } else {
        assert(r1 == a + v + c);
        assert(r1 + 256 - v - c == a + 256);
    }
}

} // verus!
