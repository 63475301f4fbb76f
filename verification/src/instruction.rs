use vstd::prelude::*;

verus! {

/// The thirteen addressing modes of the 6502.
#[derive(Debug, Clone, Copy, PartialEq, Eq, Structural)]
pub enum AddressingMode {
    Implicit,
    Accumulator,
    Immediate,
    ZeroPage,
    ZeroPageX,
    ZeroPageY,
    Relative,
    Absolute,
    AbsoluteX,
    AbsoluteY,
    Indirect,
    IndirectX,
    IndirectY,
}

/// The official operations of the 6502 instruction set.
#[derive(Debug, Clone, Copy, PartialEq, Eq, Structural)]
pub enum Op {
    Adc,
    And,
    Asl,
    Bcc,
    Bcs,
    Beq,
    Bit,
    Bmi,
    Bne,
    Bpl,
    Brk,
    Bvc,
    Bvs,
    Clc,
    Cld,
    Cli,
    Clv,
    Cmp,
    Cpx,
    Cpy,
    Dec,
    Dex,
    Dey,
    Eor,
    Inc,
    Inx,
    Iny,
    Jmp,
    Jsr,
    Lda,
    Ldx,
    Ldy,
    Lsr,
    Nop,
    Ora,
    Pha,
    Php,
    Pla,
    Plp,
    Rol,
    Ror,
    Rti,
    Rts,
    Sbc,
    Sec,
    Sed,
    Sei,
    Sta,
    Stx,
    Sty,
    Tax,
    Tay,
    Tsx,
    Txa,
    Txs,
    Tya,
}

/// A decoded instruction: an operation together with its addressing mode.
#[derive(Debug, Clone, Copy, PartialEq, Eq, Structural)]
pub struct Instruction(pub Op, pub AddressingMode);

/// The official opcode matrix. An opcode outside the official set decodes
/// to a NOP in implicit mode, so stepping over such a byte has no effect
/// beyond advancing the program counter.
pub open spec fn spec_decode(opcode: u8) -> Instruction {
    match opcode {
        0x00u8 => Instruction(Op::Brk, AddressingMode::Implicit),
        0x01u8 => Instruction(Op::Ora, AddressingMode::IndirectX),
        0x05u8 => Instruction(Op::Ora, AddressingMode::ZeroPage),
        0x06u8 => Instruction(Op::Asl, AddressingMode::ZeroPage),
        0x08u8 => Instruction(Op::Php, AddressingMode::Implicit),
        0x09u8 => Instruction(Op::Ora, AddressingMode::Immediate),
        0x0au8 => Instruction(Op::Asl, AddressingMode::Accumulator),
        0x0du8 => Instruction(Op::Ora, AddressingMode::Absolute),
        0x0eu8 => Instruction(Op::Asl, AddressingMode::Absolute),
        0x10u8 => Instruction(Op::Bpl, AddressingMode::Relative),
        0x11u8 => Instruction(Op::Ora, AddressingMode::IndirectY),
        0x15u8 => Instruction(Op::Ora, AddressingMode::ZeroPageX),
        0x16u8 => Instruction(Op::Asl, AddressingMode::ZeroPageX),
        0x18u8 => Instruction(Op::Clc, AddressingMode::Implicit),
        0x19u8 => Instruction(Op::Ora, AddressingMode::AbsoluteY),
        0x1du8 => Instruction(Op::Ora, AddressingMode::AbsoluteX),
        0x1eu8 => Instruction(Op::Asl, AddressingMode::AbsoluteX),
        0x20u8 => Instruction(Op::Jsr, AddressingMode::Absolute),
        0x21u8 => Instruction(Op::And, AddressingMode::IndirectX),
        0x24u8 => Instruction(Op::Bit, AddressingMode::ZeroPage),
        0x25u8 => Instruction(Op::And, AddressingMode::ZeroPage),
        0x26u8 => Instruction(Op::Rol, AddressingMode::ZeroPage),
        0x28u8 => Instruction(Op::Plp, AddressingMode::Implicit),
        0x29u8 => Instruction(Op::And, AddressingMode::Immediate),
        0x2au8 => Instruction(Op::Rol, AddressingMode::Accumulator),
        0x2cu8 => Instruction(Op::Bit, AddressingMode::Absolute),
        0x2du8 => Instruction(Op::And, AddressingMode::Absolute),
        0x2eu8 => Instruction(Op::Rol, AddressingMode::Absolute),
        0x30u8 => Instruction(Op::Bmi, AddressingMode::Relative),
        0x31u8 => Instruction(Op::And, AddressingMode::IndirectY),
        0x35u8 => Instruction(Op::And, AddressingMode::ZeroPageX),
        0x36u8 => Instruction(Op::Rol, AddressingMode::ZeroPageX),
        0x38u8 => Instruction(Op::Sec, AddressingMode::Implicit),
        0x39u8 => Instruction(Op::And, AddressingMode::AbsoluteY),
        0x3du8 => Instruction(Op::And, AddressingMode::AbsoluteX),
        0x3eu8 => Instruction(Op::Rol, AddressingMode::AbsoluteX),
        0x40u8 => Instruction(Op::Rti, AddressingMode::Implicit),
        0x41u8 => Instruction(Op::Eor, AddressingMode::IndirectX),
        0x45u8 => Instruction(Op::Eor, AddressingMode::ZeroPage),
        0x46u8 => Instruction(Op::Lsr, AddressingMode::ZeroPage),
        0x48u8 => Instruction(Op::Pha, AddressingMode::Implicit),
        0x49u8 => Instruction(Op::Eor, AddressingMode::Immediate),
        0x4au8 => Instruction(Op::Lsr, AddressingMode::Accumulator),
        0x4cu8 => Instruction(Op::Jmp, AddressingMode::Absolute),
        0x4du8 => Instruction(Op::Eor, AddressingMode::Absolute),
        0x4eu8 => Instruction(Op::Lsr, AddressingMode::Absolute),
        0x50u8 => Instruction(Op::Bvc, AddressingMode::Relative),
        0x51u8 => Instruction(Op::Eor, AddressingMode::IndirectY),
        0x55u8 => Instruction(Op::Eor, AddressingMode::ZeroPageX),
        0x56u8 => Instruction(Op::Lsr, AddressingMode::ZeroPageX),
        0x58u8 => Instruction(Op::Cli, AddressingMode::Implicit),
        0x59u8 => Instruction(Op::Eor, AddressingMode::AbsoluteY),
        0x5du8 => Instruction(Op::Eor, AddressingMode::AbsoluteX),
        0x5eu8 => Instruction(Op::Lsr, AddressingMode::AbsoluteX),
        0x60u8 => Instruction(Op::Rts, AddressingMode::Implicit),
        0x61u8 => Instruction(Op::Adc, AddressingMode::IndirectX),
        0x65u8 => Instruction(Op::Adc, AddressingMode::ZeroPage),
        0x66u8 => Instruction(Op::Ror, AddressingMode::ZeroPage),
        0x68u8 => Instruction(Op::Pla, AddressingMode::Implicit),
        0x69u8 => Instruction(Op::Adc, AddressingMode::Immediate),
        0x6au8 => Instruction(Op::Ror, AddressingMode::Accumulator),
        0x6cu8 => Instruction(Op::Jmp, AddressingMode::Indirect),
        0x6du8 => Instruction(Op::Adc, AddressingMode::Absolute),
        0x6eu8 => Instruction(Op::Ror, AddressingMode::Absolute),
        0x70u8 => Instruction(Op::Bvs, AddressingMode::Relative),
        0x71u8 => Instruction(Op::Adc, AddressingMode::IndirectY),
        0x75u8 => Instruction(Op::Adc, AddressingMode::ZeroPageX),
        0x76u8 => Instruction(Op::Ror, AddressingMode::ZeroPageX),
        0x78u8 => Instruction(Op::Sei, AddressingMode::Implicit),
        0x79u8 => Instruction(Op::Adc, AddressingMode::AbsoluteY),
        0x7du8 => Instruction(Op::Adc, AddressingMode::AbsoluteX),
        0x7eu8 => Instruction(Op::Ror, AddressingMode::AbsoluteX),
        0x81u8 => Instruction(Op::Sta, AddressingMode::IndirectX),
        0x84u8 => Instruction(Op::Sty, AddressingMode::ZeroPage),
        0x85u8 => Instruction(Op::Sta, AddressingMode::ZeroPage),
        0x86u8 => Instruction(Op::Stx, AddressingMode::ZeroPage),
        0x88u8 => Instruction(Op::Dey, AddressingMode::Implicit),
        0x8au8 => Instruction(Op::Txa, AddressingMode::Implicit),
        0x8cu8 => Instruction(Op::Sty, AddressingMode::Absolute),
        0x8du8 => Instruction(Op::Sta, AddressingMode::Absolute),
        0x8eu8 => Instruction(Op::Stx, AddressingMode::Absolute),
        0x90u8 => Instruction(Op::Bcc, AddressingMode::Relative),
        0x91u8 => Instruction(Op::Sta, AddressingMode::IndirectY),
        0x94u8 => Instruction(Op::Sty, AddressingMode::ZeroPageX),
        0x95u8 => Instruction(Op::Sta, AddressingMode::ZeroPageX),
        0x96u8 => Instruction(Op::Stx, AddressingMode::ZeroPageY),
        0x98u8 => Instruction(Op::Tya, AddressingMode::Implicit),
        0x99u8 => Instruction(Op::Sta, AddressingMode::AbsoluteY),
        0x9au8 => Instruction(Op::Txs, AddressingMode::Implicit),
        0x9du8 => Instruction(Op::Sta, AddressingMode::AbsoluteX),
        0xa0u8 => Instruction(Op::Ldy, AddressingMode::Immediate),
        0xa1u8 => Instruction(Op::Lda, AddressingMode::IndirectX),
        0xa2u8 => Instruction(Op::Ldx, AddressingMode::Immediate),
        0xa4u8 => Instruction(Op::Ldy, AddressingMode::ZeroPage),
        0xa5u8 => Instruction(Op::Lda, AddressingMode::ZeroPage),
        0xa6u8 => Instruction(Op::Ldx, AddressingMode::ZeroPage),
        0xa8u8 => Instruction(Op::Tay, AddressingMode::Implicit),
        0xa9u8 => Instruction(Op::Lda, AddressingMode::Immediate),
        0xaau8 => Instruction(Op::Tax, AddressingMode::Implicit),
        0xacu8 => Instruction(Op::Ldy, AddressingMode::Absolute),
        0xadu8 => Instruction(Op::Lda, AddressingMode::Absolute),
        0xaeu8 => Instruction(Op::Ldx, AddressingMode::Absolute),
        0xb0u8 => Instruction(Op::Bcs, AddressingMode::Relative),
        0xb1u8 => Instruction(Op::Lda, AddressingMode::IndirectY),
        0xb4u8 => Instruction(Op::Ldy, AddressingMode::ZeroPageX),
        0xb5u8 => Instruction(Op::Lda, AddressingMode::ZeroPageX),
        0xb6u8 => Instruction(Op::Ldx, AddressingMode::ZeroPageY),
        0xb8u8 => Instruction(Op::Clv, AddressingMode::Implicit),
        0xb9u8 => Instruction(Op::Lda, AddressingMode::AbsoluteY),
        0xbau8 => Instruction(Op::Tsx, AddressingMode::Implicit),
        0xbcu8 => Instruction(Op::Ldy, AddressingMode::AbsoluteX),
        0xbdu8 => Instruction(Op::Lda, AddressingMode::AbsoluteX),
        0xbeu8 => Instruction(Op::Ldx, AddressingMode::AbsoluteY),
        0xc0u8 => Instruction(Op::Cpy, AddressingMode::Immediate),
        0xc1u8 => Instruction(Op::Cmp, AddressingMode::IndirectX),
        0xc4u8 => Instruction(Op::Cpy, AddressingMode::ZeroPage),
        0xc5u8 => Instruction(Op::Cmp, AddressingMode::ZeroPage),
        0xc6u8 => Instruction(Op::Dec, AddressingMode::ZeroPage),
        0xc8u8 => Instruction(Op::Iny, AddressingMode::Implicit),
        0xc9u8 => Instruction(Op::Cmp, AddressingMode::Immediate),
        0xcau8 => Instruction(Op::Dex, AddressingMode::Implicit),
        0xccu8 => Instruction(Op::Cpy, AddressingMode::Absolute),
        0xcdu8 => Instruction(Op::Cmp, AddressingMode::Absolute),
        0xceu8 => Instruction(Op::Dec, AddressingMode::Absolute),
        0xd0u8 => Instruction(Op::Bne, AddressingMode::Relative),
        0xd1u8 => Instruction(Op::Cmp, AddressingMode::IndirectY),
        0xd5u8 => Instruction(Op::Cmp, AddressingMode::ZeroPageX),
        0xd6u8 => Instruction(Op::Dec, AddressingMode::ZeroPageX),
        0xd8u8 => Instruction(Op::Cld, AddressingMode::Implicit),
        0xd9u8 => Instruction(Op::Cmp, AddressingMode::AbsoluteY),
        0xddu8 => Instruction(Op::Cmp, AddressingMode::AbsoluteX),
        0xdeu8 => Instruction(Op::Dec, AddressingMode::AbsoluteX),
        0xe0u8 => Instruction(Op::Cpx, AddressingMode::Immediate),
        0xe1u8 => Instruction(Op::Sbc, AddressingMode::IndirectX),
        0xe4u8 => Instruction(Op::Cpx, AddressingMode::ZeroPage),
        0xe5u8 => Instruction(Op::Sbc, AddressingMode::ZeroPage),
        0xe6u8 => Instruction(Op::Inc, AddressingMode::ZeroPage),
        0xe8u8 => Instruction(Op::Inx, AddressingMode::Implicit),
        0xe9u8 => Instruction(Op::Sbc, AddressingMode::Immediate),
        0xeau8 => Instruction(Op::Nop, AddressingMode::Implicit),
        0xecu8 => Instruction(Op::Cpx, AddressingMode::Absolute),
        0xedu8 => Instruction(Op::Sbc, AddressingMode::Absolute),
        0xeeu8 => Instruction(Op::Inc, AddressingMode::Absolute),
        0xf0u8 => Instruction(Op::Beq, AddressingMode::Relative),
        0xf1u8 => Instruction(Op::Sbc, AddressingMode::IndirectY),
        0xf5u8 => Instruction(Op::Sbc, AddressingMode::ZeroPageX),
        0xf6u8 => Instruction(Op::Inc, AddressingMode::ZeroPageX),
        0xf8u8 => Instruction(Op::Sed, AddressingMode::Implicit),
        0xf9u8 => Instruction(Op::Sbc, AddressingMode::AbsoluteY),
        0xfdu8 => Instruction(Op::Sbc, AddressingMode::AbsoluteX),
        0xfeu8 => Instruction(Op::Inc, AddressingMode::AbsoluteX),
        _ => Instruction(Op::Nop, AddressingMode::Implicit),
    }
}

/// An opcode of the official matrix: one that the 6502 documents. Only
/// 0xea decodes to a NOP officially, so every other opcode whose
/// decoding is the NOP fallback is unofficial.
pub open spec fn is_official(opcode: u8) -> bool {
    opcode == 0xeau8 || spec_decode(opcode) != (Instruction(Op::Nop, AddressingMode::Implicit))
}

/// The inverse of the opcode matrix: the opcode that encodes a given
/// operation and addressing mode, or nothing when the pair is not in the
/// matrix.
pub open spec fn spec_encode(i: Instruction) -> Option<u8> {
    match i {
        Instruction(Op::Brk, AddressingMode::Implicit) => Some(0x00u8),
        Instruction(Op::Ora, AddressingMode::IndirectX) => Some(0x01u8),
        Instruction(Op::Ora, AddressingMode::ZeroPage) => Some(0x05u8),
        Instruction(Op::Asl, AddressingMode::ZeroPage) => Some(0x06u8),
        Instruction(Op::Php, AddressingMode::Implicit) => Some(0x08u8),
        Instruction(Op::Ora, AddressingMode::Immediate) => Some(0x09u8),
        Instruction(Op::Asl, AddressingMode::Accumulator) => Some(0x0au8),
        Instruction(Op::Ora, AddressingMode::Absolute) => Some(0x0du8),
        Instruction(Op::Asl, AddressingMode::Absolute) => Some(0x0eu8),
        Instruction(Op::Bpl, AddressingMode::Relative) => Some(0x10u8),
        Instruction(Op::Ora, AddressingMode::IndirectY) => Some(0x11u8),
        Instruction(Op::Ora, AddressingMode::ZeroPageX) => Some(0x15u8),
        Instruction(Op::Asl, AddressingMode::ZeroPageX) => Some(0x16u8),
        Instruction(Op::Clc, AddressingMode::Implicit) => Some(0x18u8),
        Instruction(Op::Ora, AddressingMode::AbsoluteY) => Some(0x19u8),
        Instruction(Op::Ora, AddressingMode::AbsoluteX) => Some(0x1du8),
        Instruction(Op::Asl, AddressingMode::AbsoluteX) => Some(0x1eu8),
        Instruction(Op::Jsr, AddressingMode::Absolute) => Some(0x20u8),
        Instruction(Op::And, AddressingMode::IndirectX) => Some(0x21u8),
        Instruction(Op::Bit, AddressingMode::ZeroPage) => Some(0x24u8),
        Instruction(Op::And, AddressingMode::ZeroPage) => Some(0x25u8),
        Instruction(Op::Rol, AddressingMode::ZeroPage) => Some(0x26u8),
        Instruction(Op::Plp, AddressingMode::Implicit) => Some(0x28u8),
        Instruction(Op::And, AddressingMode::Immediate) => Some(0x29u8),
        Instruction(Op::Rol, AddressingMode::Accumulator) => Some(0x2au8),
        Instruction(Op::Bit, AddressingMode::Absolute) => Some(0x2cu8),
        Instruction(Op::And, AddressingMode::Absolute) => Some(0x2du8),
        Instruction(Op::Rol, AddressingMode::Absolute) => Some(0x2eu8),
        Instruction(Op::Bmi, AddressingMode::Relative) => Some(0x30u8),
        Instruction(Op::And, AddressingMode::IndirectY) => Some(0x31u8),
        Instruction(Op::And, AddressingMode::ZeroPageX) => Some(0x35u8),
        Instruction(Op::Rol, AddressingMode::ZeroPageX) => Some(0x36u8),
        Instruction(Op::Sec, AddressingMode::Implicit) => Some(0x38u8),
        Instruction(Op::And, AddressingMode::AbsoluteY) => Some(0x39u8),
        Instruction(Op::And, AddressingMode::AbsoluteX) => Some(0x3du8),
        Instruction(Op::Rol, AddressingMode::AbsoluteX) => Some(0x3eu8),
        Instruction(Op::Rti, AddressingMode::Implicit) => Some(0x40u8),
        Instruction(Op::Eor, AddressingMode::IndirectX) => Some(0x41u8),
        Instruction(Op::Eor, AddressingMode::ZeroPage) => Some(0x45u8),
        Instruction(Op::Lsr, AddressingMode::ZeroPage) => Some(0x46u8),
        Instruction(Op::Pha, AddressingMode::Implicit) => Some(0x48u8),
        Instruction(Op::Eor, AddressingMode::Immediate) => Some(0x49u8),
        Instruction(Op::Lsr, AddressingMode::Accumulator) => Some(0x4au8),
        Instruction(Op::Jmp, AddressingMode::Absolute) => Some(0x4cu8),
        Instruction(Op::Eor, AddressingMode::Absolute) => Some(0x4du8),
        Instruction(Op::Lsr, AddressingMode::Absolute) => Some(0x4eu8),
        Instruction(Op::Bvc, AddressingMode::Relative) => Some(0x50u8),
        Instruction(Op::Eor, AddressingMode::IndirectY) => Some(0x51u8),
        Instruction(Op::Eor, AddressingMode::ZeroPageX) => Some(0x55u8),
        Instruction(Op::Lsr, AddressingMode::ZeroPageX) => Some(0x56u8),
        Instruction(Op::Cli, AddressingMode::Implicit) => Some(0x58u8),
        Instruction(Op::Eor, AddressingMode::AbsoluteY) => Some(0x59u8),
        Instruction(Op::Eor, AddressingMode::AbsoluteX) => Some(0x5du8),
        Instruction(Op::Lsr, AddressingMode::AbsoluteX) => Some(0x5eu8),
        Instruction(Op::Rts, AddressingMode::Implicit) => Some(0x60u8),
        Instruction(Op::Adc, AddressingMode::IndirectX) => Some(0x61u8),
        Instruction(Op::Adc, AddressingMode::ZeroPage) => Some(0x65u8),
        Instruction(Op::Ror, AddressingMode::ZeroPage) => Some(0x66u8),
        Instruction(Op::Pla, AddressingMode::Implicit) => Some(0x68u8),
        Instruction(Op::Adc, AddressingMode::Immediate) => Some(0x69u8),
        Instruction(Op::Ror, AddressingMode::Accumulator) => Some(0x6au8),
        Instruction(Op::Jmp, AddressingMode::Indirect) => Some(0x6cu8),
        Instruction(Op::Adc, AddressingMode::Absolute) => Some(0x6du8),
        Instruction(Op::Ror, AddressingMode::Absolute) => Some(0x6eu8),
        Instruction(Op::Bvs, AddressingMode::Relative) => Some(0x70u8),
        Instruction(Op::Adc, AddressingMode::IndirectY) => Some(0x71u8),
        Instruction(Op::Adc, AddressingMode::ZeroPageX) => Some(0x75u8),
        Instruction(Op::Ror, AddressingMode::ZeroPageX) => Some(0x76u8),
        Instruction(Op::Sei, AddressingMode::Implicit) => Some(0x78u8),
        Instruction(Op::Adc, AddressingMode::AbsoluteY) => Some(0x79u8),
        Instruction(Op::Adc, AddressingMode::AbsoluteX) => Some(0x7du8),
        Instruction(Op::Ror, AddressingMode::AbsoluteX) => Some(0x7eu8),
        Instruction(Op::Sta, AddressingMode::IndirectX) => Some(0x81u8),
        Instruction(Op::Sty, AddressingMode::ZeroPage) => Some(0x84u8),
        Instruction(Op::Sta, AddressingMode::ZeroPage) => Some(0x85u8),
        Instruction(Op::Stx, AddressingMode::ZeroPage) => Some(0x86u8),
        Instruction(Op::Dey, AddressingMode::Implicit) => Some(0x88u8),
        Instruction(Op::Txa, AddressingMode::Implicit) => Some(0x8au8),
        Instruction(Op::Sty, AddressingMode::Absolute) => Some(0x8cu8),
        Instruction(Op::Sta, AddressingMode::Absolute) => Some(0x8du8),
        Instruction(Op::Stx, AddressingMode::Absolute) => Some(0x8eu8),
        Instruction(Op::Bcc, AddressingMode::Relative) => Some(0x90u8),
        Instruction(Op::Sta, AddressingMode::IndirectY) => Some(0x91u8),
        Instruction(Op::Sty, AddressingMode::ZeroPageX) => Some(0x94u8),
        Instruction(Op::Sta, AddressingMode::ZeroPageX) => Some(0x95u8),
        Instruction(Op::Stx, AddressingMode::ZeroPageY) => Some(0x96u8),
        Instruction(Op::Tya, AddressingMode::Implicit) => Some(0x98u8),
        Instruction(Op::Sta, AddressingMode::AbsoluteY) => Some(0x99u8),
        Instruction(Op::Txs, AddressingMode::Implicit) => Some(0x9au8),
        Instruction(Op::Sta, AddressingMode::AbsoluteX) => Some(0x9du8),
        Instruction(Op::Ldy, AddressingMode::Immediate) => Some(0xa0u8),
        Instruction(Op::Lda, AddressingMode::IndirectX) => Some(0xa1u8),
        Instruction(Op::Ldx, AddressingMode::Immediate) => Some(0xa2u8),
        Instruction(Op::Ldy, AddressingMode::ZeroPage) => Some(0xa4u8),
        Instruction(Op::Lda, AddressingMode::ZeroPage) => Some(0xa5u8),
        Instruction(Op::Ldx, AddressingMode::ZeroPage) => Some(0xa6u8),
        Instruction(Op::Tay, AddressingMode::Implicit) => Some(0xa8u8),
        Instruction(Op::Lda, AddressingMode::Immediate) => Some(0xa9u8),
        Instruction(Op::Tax, AddressingMode::Implicit) => Some(0xaau8),
        Instruction(Op::Ldy, AddressingMode::Absolute) => Some(0xacu8),
        Instruction(Op::Lda, AddressingMode::Absolute) => Some(0xadu8),
        Instruction(Op::Ldx, AddressingMode::Absolute) => Some(0xaeu8),
        Instruction(Op::Bcs, AddressingMode::Relative) => Some(0xb0u8),
        Instruction(Op::Lda, AddressingMode::IndirectY) => Some(0xb1u8),
        Instruction(Op::Ldy, AddressingMode::ZeroPageX) => Some(0xb4u8),
        Instruction(Op::Lda, AddressingMode::ZeroPageX) => Some(0xb5u8),
        Instruction(Op::Ldx, AddressingMode::ZeroPageY) => Some(0xb6u8),
        Instruction(Op::Clv, AddressingMode::Implicit) => Some(0xb8u8),
        Instruction(Op::Lda, AddressingMode::AbsoluteY) => Some(0xb9u8),
        Instruction(Op::Tsx, AddressingMode::Implicit) => Some(0xbau8),
        Instruction(Op::Ldy, AddressingMode::AbsoluteX) => Some(0xbcu8),
        Instruction(Op::Lda, AddressingMode::AbsoluteX) => Some(0xbdu8),
        Instruction(Op::Ldx, AddressingMode::AbsoluteY) => Some(0xbeu8),
        Instruction(Op::Cpy, AddressingMode::Immediate) => Some(0xc0u8),
        Instruction(Op::Cmp, AddressingMode::IndirectX) => Some(0xc1u8),
        Instruction(Op::Cpy, AddressingMode::ZeroPage) => Some(0xc4u8),
        Instruction(Op::Cmp, AddressingMode::ZeroPage) => Some(0xc5u8),
        Instruction(Op::Dec, AddressingMode::ZeroPage) => Some(0xc6u8),
        Instruction(Op::Iny, AddressingMode::Implicit) => Some(0xc8u8),
        Instruction(Op::Cmp, AddressingMode::Immediate) => Some(0xc9u8),
        Instruction(Op::Dex, AddressingMode::Implicit) => Some(0xcau8),
        Instruction(Op::Cpy, AddressingMode::Absolute) => Some(0xccu8),
        Instruction(Op::Cmp, AddressingMode::Absolute) => Some(0xcdu8),
        Instruction(Op::Dec, AddressingMode::Absolute) => Some(0xceu8),
        Instruction(Op::Bne, AddressingMode::Relative) => Some(0xd0u8),
        Instruction(Op::Cmp, AddressingMode::IndirectY) => Some(0xd1u8),
        Instruction(Op::Cmp, AddressingMode::ZeroPageX) => Some(0xd5u8),
        Instruction(Op::Dec, AddressingMode::ZeroPageX) => Some(0xd6u8),
        Instruction(Op::Cld, AddressingMode::Implicit) => Some(0xd8u8),
        Instruction(Op::Cmp, AddressingMode::AbsoluteY) => Some(0xd9u8),
        Instruction(Op::Cmp, AddressingMode::AbsoluteX) => Some(0xddu8),
        Instruction(Op::Dec, AddressingMode::AbsoluteX) => Some(0xdeu8),
        Instruction(Op::Cpx, AddressingMode::Immediate) => Some(0xe0u8),
        Instruction(Op::Sbc, AddressingMode::IndirectX) => Some(0xe1u8),
        Instruction(Op::Cpx, AddressingMode::ZeroPage) => Some(0xe4u8),
        Instruction(Op::Sbc, AddressingMode::ZeroPage) => Some(0xe5u8),
        Instruction(Op::Inc, AddressingMode::ZeroPage) => Some(0xe6u8),
        Instruction(Op::Inx, AddressingMode::Implicit) => Some(0xe8u8),
        Instruction(Op::Sbc, AddressingMode::Immediate) => Some(0xe9u8),
        Instruction(Op::Nop, AddressingMode::Implicit) => Some(0xeau8),
        Instruction(Op::Cpx, AddressingMode::Absolute) => Some(0xecu8),
        Instruction(Op::Sbc, AddressingMode::Absolute) => Some(0xedu8),
        Instruction(Op::Inc, AddressingMode::Absolute) => Some(0xeeu8),
        Instruction(Op::Beq, AddressingMode::Relative) => Some(0xf0u8),
        Instruction(Op::Sbc, AddressingMode::IndirectY) => Some(0xf1u8),
        Instruction(Op::Sbc, AddressingMode::ZeroPageX) => Some(0xf5u8),
        Instruction(Op::Inc, AddressingMode::ZeroPageX) => Some(0xf6u8),
        Instruction(Op::Sed, AddressingMode::Implicit) => Some(0xf8u8),
        Instruction(Op::Sbc, AddressingMode::AbsoluteY) => Some(0xf9u8),
        Instruction(Op::Sbc, AddressingMode::AbsoluteX) => Some(0xfdu8),
        Instruction(Op::Inc, AddressingMode::AbsoluteX) => Some(0xfeu8),
        _ => None,
    }
}

impl Instruction {
    pub fn from_opcode(opcode: u8) -> (r: Instruction)
        ensures
            r == spec_decode(opcode),
    {
        match opcode {
            0x00u8 => Instruction(Op::Brk, AddressingMode::Implicit),
            0x01u8 => Instruction(Op::Ora, AddressingMode::IndirectX),
            0x05u8 => Instruction(Op::Ora, AddressingMode::ZeroPage),
            0x06u8 => Instruction(Op::Asl, AddressingMode::ZeroPage),
            0x08u8 => Instruction(Op::Php, AddressingMode::Implicit),
            0x09u8 => Instruction(Op::Ora, AddressingMode::Immediate),
            0x0au8 => Instruction(Op::Asl, AddressingMode::Accumulator),
            0x0du8 => Instruction(Op::Ora, AddressingMode::Absolute),
            0x0eu8 => Instruction(Op::Asl, AddressingMode::Absolute),
            0x10u8 => Instruction(Op::Bpl, AddressingMode::Relative),
            0x11u8 => Instruction(Op::Ora, AddressingMode::IndirectY),
            0x15u8 => Instruction(Op::Ora, AddressingMode::ZeroPageX),
            0x16u8 => Instruction(Op::Asl, AddressingMode::ZeroPageX),
            0x18u8 => Instruction(Op::Clc, AddressingMode::Implicit),
            0x19u8 => Instruction(Op::Ora, AddressingMode::AbsoluteY),
            0x1du8 => Instruction(Op::Ora, AddressingMode::AbsoluteX),
            0x1eu8 => Instruction(Op::Asl, AddressingMode::AbsoluteX),
            0x20u8 => Instruction(Op::Jsr, AddressingMode::Absolute),
            0x21u8 => Instruction(Op::And, AddressingMode::IndirectX),
            0x24u8 => Instruction(Op::Bit, AddressingMode::ZeroPage),
            0x25u8 => Instruction(Op::And, AddressingMode::ZeroPage),
            0x26u8 => Instruction(Op::Rol, AddressingMode::ZeroPage),
            0x28u8 => Instruction(Op::Plp, AddressingMode::Implicit),
            0x29u8 => Instruction(Op::And, AddressingMode::Immediate),
            0x2au8 => Instruction(Op::Rol, AddressingMode::Accumulator),
            0x2cu8 => Instruction(Op::Bit, AddressingMode::Absolute),
            0x2du8 => Instruction(Op::And, AddressingMode::Absolute),
            0x2eu8 => Instruction(Op::Rol, AddressingMode::Absolute),
            0x30u8 => Instruction(Op::Bmi, AddressingMode::Relative),
            0x31u8 => Instruction(Op::And, AddressingMode::IndirectY),
            0x35u8 => Instruction(Op::And, AddressingMode::ZeroPageX),
            0x36u8 => Instruction(Op::Rol, AddressingMode::ZeroPageX),
            0x38u8 => Instruction(Op::Sec, AddressingMode::Implicit),
            0x39u8 => Instruction(Op::And, AddressingMode::AbsoluteY),
            0x3du8 => Instruction(Op::And, AddressingMode::AbsoluteX),
            0x3eu8 => Instruction(Op::Rol, AddressingMode::AbsoluteX),
            0x40u8 => Instruction(Op::Rti, AddressingMode::Implicit),
            0x41u8 => Instruction(Op::Eor, AddressingMode::IndirectX),
            0x45u8 => Instruction(Op::Eor, AddressingMode::ZeroPage),
            0x46u8 => Instruction(Op::Lsr, AddressingMode::ZeroPage),
            0x48u8 => Instruction(Op::Pha, AddressingMode::Implicit),
            0x49u8 => Instruction(Op::Eor, AddressingMode::Immediate),
            0x4au8 => Instruction(Op::Lsr, AddressingMode::Accumulator),
            0x4cu8 => Instruction(Op::Jmp, AddressingMode::Absolute),
            0x4du8 => Instruction(Op::Eor, AddressingMode::Absolute),
            0x4eu8 => Instruction(Op::Lsr, AddressingMode::Absolute),
            0x50u8 => Instruction(Op::Bvc, AddressingMode::Relative),
            0x51u8 => Instruction(Op::Eor, AddressingMode::IndirectY),
            0x55u8 => Instruction(Op::Eor, AddressingMode::ZeroPageX),
            0x56u8 => Instruction(Op::Lsr, AddressingMode::ZeroPageX),
            0x58u8 => Instruction(Op::Cli, AddressingMode::Implicit),
            0x59u8 => Instruction(Op::Eor, AddressingMode::AbsoluteY),
            0x5du8 => Instruction(Op::Eor, AddressingMode::AbsoluteX),
            0x5eu8 => Instruction(Op::Lsr, AddressingMode::AbsoluteX),
            0x60u8 => Instruction(Op::Rts, AddressingMode::Implicit),
            0x61u8 => Instruction(Op::Adc, AddressingMode::IndirectX),
            0x65u8 => Instruction(Op::Adc, AddressingMode::ZeroPage),
            0x66u8 => Instruction(Op::Ror, AddressingMode::ZeroPage),
            0x68u8 => Instruction(Op::Pla, AddressingMode::Implicit),
            0x69u8 => Instruction(Op::Adc, AddressingMode::Immediate),
            0x6au8 => Instruction(Op::Ror, AddressingMode::Accumulator),
            0x6cu8 => Instruction(Op::Jmp, AddressingMode::Indirect),
            0x6du8 => Instruction(Op::Adc, AddressingMode::Absolute),
            0x6eu8 => Instruction(Op::Ror, AddressingMode::Absolute),
            0x70u8 => Instruction(Op::Bvs, AddressingMode::Relative),
            0x71u8 => Instruction(Op::Adc, AddressingMode::IndirectY),
            0x75u8 => Instruction(Op::Adc, AddressingMode::ZeroPageX),
            0x76u8 => Instruction(Op::Ror, AddressingMode::ZeroPageX),
            0x78u8 => Instruction(Op::Sei, AddressingMode::Implicit),
            0x79u8 => Instruction(Op::Adc, AddressingMode::AbsoluteY),
            0x7du8 => Instruction(Op::Adc, AddressingMode::AbsoluteX),
            0x7eu8 => Instruction(Op::Ror, AddressingMode::AbsoluteX),
            0x81u8 => Instruction(Op::Sta, AddressingMode::IndirectX),
            0x84u8 => Instruction(Op::Sty, AddressingMode::ZeroPage),
            0x85u8 => Instruction(Op::Sta, AddressingMode::ZeroPage),
            0x86u8 => Instruction(Op::Stx, AddressingMode::ZeroPage),
            0x88u8 => Instruction(Op::Dey, AddressingMode::Implicit),
            0x8au8 => Instruction(Op::Txa, AddressingMode::Implicit),
            0x8cu8 => Instruction(Op::Sty, AddressingMode::Absolute),
            0x8du8 => Instruction(Op::Sta, AddressingMode::Absolute),
            0x8eu8 => Instruction(Op::Stx, AddressingMode::Absolute),
            0x90u8 => Instruction(Op::Bcc, AddressingMode::Relative),
            0x91u8 => Instruction(Op::Sta, AddressingMode::IndirectY),
            0x94u8 => Instruction(Op::Sty, AddressingMode::ZeroPageX),
            0x95u8 => Instruction(Op::Sta, AddressingMode::ZeroPageX),
            0x96u8 => Instruction(Op::Stx, AddressingMode::ZeroPageY),
            0x98u8 => Instruction(Op::Tya, AddressingMode::Implicit),
            0x99u8 => Instruction(Op::Sta, AddressingMode::AbsoluteY),
            0x9au8 => Instruction(Op::Txs, AddressingMode::Implicit),
            0x9du8 => Instruction(Op::Sta, AddressingMode::AbsoluteX),
            0xa0u8 => Instruction(Op::Ldy, AddressingMode::Immediate),
            0xa1u8 => Instruction(Op::Lda, AddressingMode::IndirectX),
            0xa2u8 => Instruction(Op::Ldx, AddressingMode::Immediate),
            0xa4u8 => Instruction(Op::Ldy, AddressingMode::ZeroPage),
            0xa5u8 => Instruction(Op::Lda, AddressingMode::ZeroPage),
            0xa6u8 => Instruction(Op::Ldx, AddressingMode::ZeroPage),
            0xa8u8 => Instruction(Op::Tay, AddressingMode::Implicit),
            0xa9u8 => Instruction(Op::Lda, AddressingMode::Immediate),
            0xaau8 => Instruction(Op::Tax, AddressingMode::Implicit),
            0xacu8 => Instruction(Op::Ldy, AddressingMode::Absolute),
            0xadu8 => Instruction(Op::Lda, AddressingMode::Absolute),
            0xaeu8 => Instruction(Op::Ldx, AddressingMode::Absolute),
            0xb0u8 => Instruction(Op::Bcs, AddressingMode::Relative),
            0xb1u8 => Instruction(Op::Lda, AddressingMode::IndirectY),
            0xb4u8 => Instruction(Op::Ldy, AddressingMode::ZeroPageX),
            0xb5u8 => Instruction(Op::Lda, AddressingMode::ZeroPageX),
            0xb6u8 => Instruction(Op::Ldx, AddressingMode::ZeroPageY),
            0xb8u8 => Instruction(Op::Clv, AddressingMode::Implicit),
            0xb9u8 => Instruction(Op::Lda, AddressingMode::AbsoluteY),
            0xbau8 => Instruction(Op::Tsx, AddressingMode::Implicit),
            0xbcu8 => Instruction(Op::Ldy, AddressingMode::AbsoluteX),
            0xbdu8 => Instruction(Op::Lda, AddressingMode::AbsoluteX),
            0xbeu8 => Instruction(Op::Ldx, AddressingMode::AbsoluteY),
            0xc0u8 => Instruction(Op::Cpy, AddressingMode::Immediate),
            0xc1u8 => Instruction(Op::Cmp, AddressingMode::IndirectX),
            0xc4u8 => Instruction(Op::Cpy, AddressingMode::ZeroPage),
            0xc5u8 => Instruction(Op::Cmp, AddressingMode::ZeroPage),
            0xc6u8 => Instruction(Op::Dec, AddressingMode::ZeroPage),
            0xc8u8 => Instruction(Op::Iny, AddressingMode::Implicit),
            0xc9u8 => Instruction(Op::Cmp, AddressingMode::Immediate),
            0xcau8 => Instruction(Op::Dex, AddressingMode::Implicit),
            0xccu8 => Instruction(Op::Cpy, AddressingMode::Absolute),
            0xcdu8 => Instruction(Op::Cmp, AddressingMode::Absolute),
            0xceu8 => Instruction(Op::Dec, AddressingMode::Absolute),
            0xd0u8 => Instruction(Op::Bne, AddressingMode::Relative),
            0xd1u8 => Instruction(Op::Cmp, AddressingMode::IndirectY),
            0xd5u8 => Instruction(Op::Cmp, AddressingMode::ZeroPageX),
            0xd6u8 => Instruction(Op::Dec, AddressingMode::ZeroPageX),
            0xd8u8 => Instruction(Op::Cld, AddressingMode::Implicit),
            0xd9u8 => Instruction(Op::Cmp, AddressingMode::AbsoluteY),
            0xddu8 => Instruction(Op::Cmp, AddressingMode::AbsoluteX),
            0xdeu8 => Instruction(Op::Dec, AddressingMode::AbsoluteX),
            0xe0u8 => Instruction(Op::Cpx, AddressingMode::Immediate),
            0xe1u8 => Instruction(Op::Sbc, AddressingMode::IndirectX),
            0xe4u8 => Instruction(Op::Cpx, AddressingMode::ZeroPage),
            0xe5u8 => Instruction(Op::Sbc, AddressingMode::ZeroPage),
            0xe6u8 => Instruction(Op::Inc, AddressingMode::ZeroPage),
            0xe8u8 => Instruction(Op::Inx, AddressingMode::Implicit),
            0xe9u8 => Instruction(Op::Sbc, AddressingMode::Immediate),
            0xeau8 => Instruction(Op::Nop, AddressingMode::Implicit),
            0xecu8 => Instruction(Op::Cpx, AddressingMode::Absolute),
            0xedu8 => Instruction(Op::Sbc, AddressingMode::Absolute),
            0xeeu8 => Instruction(Op::Inc, AddressingMode::Absolute),
            0xf0u8 => Instruction(Op::Beq, AddressingMode::Relative),
            0xf1u8 => Instruction(Op::Sbc, AddressingMode::IndirectY),
            0xf5u8 => Instruction(Op::Sbc, AddressingMode::ZeroPageX),
            0xf6u8 => Instruction(Op::Inc, AddressingMode::ZeroPageX),
            0xf8u8 => Instruction(Op::Sed, AddressingMode::Implicit),
            0xf9u8 => Instruction(Op::Sbc, AddressingMode::AbsoluteY),
            0xfdu8 => Instruction(Op::Sbc, AddressingMode::AbsoluteX),
            0xfeu8 => Instruction(Op::Inc, AddressingMode::AbsoluteX),
            _ => Instruction(Op::Nop, AddressingMode::Implicit),
        }
    }
}

/// Modes that resolve to an operand byte.
pub open spec fn is_value_mode(am: AddressingMode) -> bool {
    match am {
        AddressingMode::Immediate
        | AddressingMode::Absolute
        | AddressingMode::AbsoluteX
        | AddressingMode::AbsoluteY
        | AddressingMode::ZeroPage
        | AddressingMode::ZeroPageX
        | AddressingMode::ZeroPageY
        | AddressingMode::Indirect
        | AddressingMode::IndirectX
        | AddressingMode::IndirectY => true,
        _ => false,
    }
}

/// Modes that resolve to an effective address.
pub open spec fn is_addr_mode(am: AddressingMode) -> bool {
    match am {
        AddressingMode::Absolute
        | AddressingMode::AbsoluteX
        | AddressingMode::AbsoluteY
        | AddressingMode::ZeroPage
        | AddressingMode::ZeroPageX
        | AddressingMode::ZeroPageY
        | AddressingMode::Relative
        | AddressingMode::Indirect
        | AddressingMode::IndirectX
        | AddressingMode::IndirectY => true,
        _ => false,
    }
}

/// How many operand bytes a mode takes from the instruction stream.
pub open spec fn operand_len(am: AddressingMode) -> u16 {
    match am {
        AddressingMode::Absolute
        | AddressingMode::AbsoluteX
        | AddressingMode::AbsoluteY
        | AddressingMode::Indirect => 2,
        AddressingMode::Implicit | AddressingMode::Accumulator => 0,
        _ => 1,
    }
}

/// Each operation only ever decodes together with modes its executor can
/// resolve: operand-reading operations with value modes, address-taking
/// operations with address modes, and shifts with the accumulator mode
/// or an address mode.
pub open spec fn decode_modes_ok(i: Instruction) -> bool {
    match i {
        Instruction(op, am) => match op {
            Op::Adc
            | Op::And
            | Op::Bit
            | Op::Cmp
            | Op::Cpx
            | Op::Cpy
            | Op::Eor
            | Op::Lda
            | Op::Ldx
            | Op::Ldy
            | Op::Ora
            | Op::Sbc => is_value_mode(am),
            Op::Bcc
            | Op::Bcs
            | Op::Beq
            | Op::Bmi
            | Op::Bne
            | Op::Bpl
            | Op::Bvc
            | Op::Bvs
            | Op::Jmp
            | Op::Dec
            | Op::Inc
            | Op::Sta
            | Op::Stx
            | Op::Sty => is_addr_mode(am),
            Op::Jsr => am == AddressingMode::Absolute,
            Op::Asl | Op::Lsr | Op::Rol | Op::Ror => am == AddressingMode::Accumulator
                || is_addr_mode(am),
            _ => true,
        },
    }
}

/// Whatever byte is decoded, the operation comes with a mode its
/// executor can resolve.
#[verifier::rlimit(100)]
pub proof fn lemma_decode_modes(opcode: u8)
    ensures
        decode_modes_ok(spec_decode(opcode)),
{
}

/// The baseline cycle cost of an instruction, as the 256-entry hardware
/// table gives it for every official opcode: a function of the operation
/// and its addressing mode.
pub open spec fn instruction_cycles(i: Instruction) -> u16 {
    match i {
        Instruction(op, am) => match op {
            Op::Brk => 7,
            Op::Jsr | Op::Rti | Op::Rts => 6,
            Op::Jmp => if am == AddressingMode::Indirect {
                5
            } else {
                3
            },
            Op::Pha | Op::Php => 3,
            Op::Pla | Op::Plp => 4,
            Op::Bcc | Op::Bcs | Op::Beq | Op::Bmi | Op::Bne | Op::Bpl | Op::Bvc | Op::Bvs => 2,
            Op::Asl | Op::Dec | Op::Inc | Op::Lsr | Op::Rol | Op::Ror => match am {
                AddressingMode::ZeroPage => 5,
                AddressingMode::ZeroPageX => 6,
                AddressingMode::Absolute => 6,
                AddressingMode::AbsoluteX => 7,
                _ => 2,
            },
            Op::Sta | Op::Stx | Op::Sty => match am {
                AddressingMode::ZeroPage => 3,
                AddressingMode::ZeroPageX | AddressingMode::ZeroPageY => 4,
                AddressingMode::Absolute => 4,
                AddressingMode::AbsoluteX | AddressingMode::AbsoluteY => 5,
                AddressingMode::IndirectX | AddressingMode::IndirectY => 6,
                _ => 2,
            },
            _ => match am {
                AddressingMode::ZeroPage => 3,
                AddressingMode::ZeroPageX | AddressingMode::ZeroPageY => 4,
                AddressingMode::Absolute | AddressingMode::AbsoluteX | AddressingMode::AbsoluteY
                    => 4,
                AddressingMode::IndirectX => 6,
                AddressingMode::IndirectY => 5,
                _ => 2,
            },
        },
    }
}

impl Instruction {
    /// The baseline cycle cost of this instruction.
    pub fn cycles(&self) -> (r: u16)
        ensures
            r == instruction_cycles(*self),
            2 <= r <= 7,
    {
        match self.0 {
            Op::Brk => 7,
            Op::Jsr | Op::Rti | Op::Rts => 6,
            Op::Jmp => match self.1 {
                AddressingMode::Indirect => 5,
                _ => 3,
            },
            Op::Pha | Op::Php => 3,
            Op::Pla | Op::Plp => 4,
            Op::Bcc | Op::Bcs | Op::Beq | Op::Bmi | Op::Bne | Op::Bpl | Op::Bvc | Op::Bvs => 2,
            Op::Asl | Op::Dec | Op::Inc | Op::Lsr | Op::Rol | Op::Ror => match self.1 {
                AddressingMode::ZeroPage => 5,
                AddressingMode::ZeroPageX => 6,
                AddressingMode::Absolute => 6,
                AddressingMode::AbsoluteX => 7,
                _ => 2,
            },
            Op::Sta | Op::Stx | Op::Sty => match self.1 {
                AddressingMode::ZeroPage => 3,
                AddressingMode::ZeroPageX | AddressingMode::ZeroPageY => 4,
                AddressingMode::Absolute => 4,
                AddressingMode::AbsoluteX | AddressingMode::AbsoluteY => 5,
                AddressingMode::IndirectX | AddressingMode::IndirectY => 6,
                _ => 2,
            },
            _ => match self.1 {
                AddressingMode::ZeroPage => 3,
                AddressingMode::ZeroPageX | AddressingMode::ZeroPageY => 4,
                AddressingMode::Absolute | AddressingMode::AbsoluteX | AddressingMode::AbsoluteY
                    => 4,
                AddressingMode::IndirectX => 6,
                AddressingMode::IndirectY => 5,
                _ => 2,
            },
        }
    }
}

/// Every official opcode is recovered from its decoding: the matrix loses
/// nothing.
#[verifier::rlimit(100)]
pub proof fn lemma_encode_decode(opcode: u8)
    requires
        is_official(opcode),
    ensures
        spec_encode(spec_decode(opcode)) == Some(opcode),
{
}

/// Decoding is injective on the official matrix: two official opcodes
/// with the same operation and addressing mode are the same opcode.
pub proof fn lemma_decode_injective(o1: u8, o2: u8)
    requires
        is_official(o1),
        is_official(o2),
        spec_decode(o1) == spec_decode(o2),
    ensures
        o1 == o2,
{
    lemma_encode_decode(o1);
    lemma_encode_decode(o2);
}

} // verus!
