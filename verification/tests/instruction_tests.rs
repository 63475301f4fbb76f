//! Decode-table tests: totality, injectivity over the official matrix,
//! and the per-opcode baseline cycle costs.

use nes_rs::cpu::{Cpu, RESET_VECTOR};
use nes_rs::instruction::{AddressingMode, Instruction, Op};
use nes_rs::interconnect::{FlatBus, Interconnect};

fn is_official(opcode: u8) -> bool {
    opcode == 0xea
        || !matches!(
            Instruction::from_opcode(opcode),
            Instruction(Op::Nop, AddressingMode::Implicit)
        )
}

#[test]
fn decoding_is_total() {
    let mut official: u32 = 0;
    for opcode in 0..=255u8 {
        let _ = Instruction::from_opcode(opcode);
        if is_official(opcode) {
            official += 1;
        }
    }
    assert_eq!(official, 151);
}

#[test]
fn decoding_is_injective_on_the_official_matrix() {
    let mut seen: Vec<Instruction> = Vec::new();
    for opcode in 0..=255u8 {
        if is_official(opcode) {
            let decoded = Instruction::from_opcode(opcode);
            assert!(!seen.contains(&decoded), "duplicate decoding for {:02x}", opcode);
            seen.push(decoded);
        }
    }
}

#[test]
fn decodes_known_opcodes() {
    assert_eq!(
        Instruction::from_opcode(0xa9),
        Instruction(Op::Lda, AddressingMode::Immediate)
    );
    assert_eq!(
        Instruction::from_opcode(0x6c),
        Instruction(Op::Jmp, AddressingMode::Indirect)
    );
    assert_eq!(
        Instruction::from_opcode(0x91),
        Instruction(Op::Sta, AddressingMode::IndirectY)
    );
}

#[test]
fn cycle_costs_match_the_hardware_table() {
    let table: [u16; 256] = [
        7, 6, 2, 8, 3, 3, 5, 5, 3, 2, 2, 2, 4, 4, 6, 6, 2, 5, 2, 8, 4, 4, 6, 6, 2, 4, 2, 7, 4, 4,
        7, 7, 6, 6, 2, 8, 3, 3, 5, 5, 4, 2, 2, 2, 4, 4, 6, 6, 2, 5, 2, 8, 4, 4, 6, 6, 2, 4, 2, 7,
        4, 4, 7, 7, 6, 6, 2, 8, 3, 3, 5, 5, 3, 2, 2, 2, 3, 4, 6, 6, 2, 5, 2, 8, 4, 4, 6, 6, 2, 4,
        2, 7, 4, 4, 7, 7, 6, 6, 2, 8, 3, 3, 5, 5, 4, 2, 2, 2, 5, 4, 6, 6, 2, 5, 2, 8, 4, 4, 6, 6,
        2, 4, 2, 7, 4, 4, 7, 7, 2, 6, 2, 6, 3, 3, 3, 3, 2, 2, 2, 2, 4, 4, 4, 4, 2, 6, 2, 6, 4, 4,
        4, 4, 2, 5, 2, 5, 5, 5, 5, 5, 2, 6, 2, 6, 3, 3, 3, 3, 2, 2, 2, 2, 4, 4, 4, 4, 2, 5, 2, 5,
        4, 4, 4, 4, 2, 4, 2, 4, 4, 4, 4, 4, 2, 6, 2, 8, 3, 3, 5, 5, 2, 2, 2, 2, 4, 4, 6, 6, 2, 5,
        2, 8, 4, 4, 6, 6, 2, 4, 2, 7, 4, 4, 7, 7, 2, 6, 3, 8, 3, 3, 5, 5, 2, 2, 2, 2, 4, 4, 6, 6,
        2, 5, 2, 8, 4, 4, 6, 6, 2, 4, 2, 7, 4, 4, 7, 7,
    ];
    for opcode in 0..=255u8 {
        if is_official(opcode) {
            assert_eq!(
                Instruction::from_opcode(opcode).cycles(),
                table[opcode as usize],
                "cycle count for {:02x}",
                opcode
            );
        }
    }
}

#[test]
fn stepping_any_single_opcode_rom_does_not_panic() {
    for opcode in 0..=255u8 {
        let mut interconnect = FlatBus::new();
        for addr in 0..=0xffffu32 {
            interconnect.write_word(addr as u16, opcode);
        }
        interconnect.write_double(RESET_VECTOR, 0xc000);
        let mut cpu = Cpu::new();
        cpu.reset(&mut interconnect);
        for _ in 0..32 {
            cpu.step(&mut interconnect);
        }
    }
}
