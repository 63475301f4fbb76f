//! The instruction-level test programs: each runs a few instructions
//! from the reset address on a flat memory bus and checks registers,
//! flags and memory afterwards.

use nes_rs::cpu::{
    Cpu, BREAK_COMMAND, BREAK_VECTOR, CARRY_FLAG, DECIMAL_MODE, INTERUPT_DISABLE, NEGATIVE_FLAG,
    OVERFLOW_FLAG, RESET_VECTOR, STACK_END, UNUSED_FLAG, ZERO_FLAG,
};
use nes_rs::interconnect::{FlatBus, Interconnect};

const RESET_ADDR: u16 = 0xc000;
const BREAK_ADDR: u16 = 0xd000;

fn run_prg(prg: Vec<Vec<u8>>) -> (FlatBus, Cpu) {
    let mut interconnect = FlatBus::new();
    let mut cpu = Cpu::new();

    interconnect.write_double(RESET_VECTOR, RESET_ADDR);
    interconnect.write_double(BREAK_VECTOR, BREAK_ADDR);

    let mut offset: u16 = 0;
    for cmd in &prg {
        for &value in cmd {
            interconnect.write_word(RESET_ADDR + offset, value);
            offset += 1;
        }
    }
    cpu.reset(&mut interconnect);

    for _ in &prg {
        cpu.step(&mut interconnect);
    }

    (interconnect, cpu)
}



#[test]
fn mod_test_adc() {
    {
        let (mut interconnect, cpu) = run_prg(vec![
            vec![0xa9, 0x01] /* LDA #$01 */,
            vec![0x69, 0x01] /* ADC #$01 */,
        ]);
        let _ = &mut interconnect;
        assert_eq!(cpu.a, 2);
        assert_eq!(cpu.p, INTERUPT_DISABLE);
    }
    {
        let (mut interconnect, cpu) = run_prg(vec![
            vec![0xa9, 0x01] /* LDA #$01 */,
            vec![0x69, 0xff] /* ADC #$ff */,
        ]);
        let _ = &mut interconnect;
        assert_eq!(cpu.a, 0);
        assert_eq!(cpu.p, CARRY_FLAG + ZERO_FLAG + INTERUPT_DISABLE);
    }
    {
        let (mut interconnect, cpu) = run_prg(vec![
            vec![0xa9, 0x7f] /* LDA #$7f */,
            vec![0x69, 0x01] /* ADC #$01 */,
        ]);
        let _ = &mut interconnect;
        assert_eq!(cpu.a, 0x80);
        assert_eq!(cpu.p, OVERFLOW_FLAG + NEGATIVE_FLAG + INTERUPT_DISABLE);
    }
    {
        let (mut interconnect, cpu) = run_prg(vec![
            vec![0xa9, 0x80] /* LDA #$80 */,
            vec![0x69, 0xff] /* ADC #$ff */,
        ]);
        let _ = &mut interconnect;
        assert_eq!(cpu.a, 0x7f);
        assert_eq!(cpu.p, CARRY_FLAG + OVERFLOW_FLAG + INTERUPT_DISABLE);
    }
    {
        let (mut interconnect, cpu) = run_prg(vec![
            vec![0x38],
            /* SEC */ vec![0xa9, 0x00],
            /* LDA #$00 */ vec![0x69, 0x00] /* ADC #$00 */,
        ]);
        let _ = &mut interconnect;
        assert_eq!(cpu.a, 1);
        assert_eq!(cpu.p, INTERUPT_DISABLE);
    }
}

#[test]
fn mod_test_and() {
    {
        let (mut interconnect, cpu) = run_prg(vec![
            vec![0xa9, 0x01] /* LDA #$01 */,
            vec![0x29, 0x01] /* AND #$01 */,
        ]);
        let _ = &mut interconnect;
        assert_eq!(cpu.a, 1);
        assert_eq!(cpu.p, INTERUPT_DISABLE);
    }
    {
        let (mut interconnect, cpu) = run_prg(vec![
            vec![0xa9, 0x01] /* LDA #$01 */,
            vec![0x29, 0x00] /* AND #$00 */,
        ]);
        let _ = &mut interconnect;
        assert_eq!(cpu.a, 0);
        assert_eq!(cpu.p, ZERO_FLAG + INTERUPT_DISABLE);
    }
    {
        let (mut interconnect, cpu) = run_prg(vec![
            vec![0xa9, 0x80] /* LDA #$80 */,
            vec![0x29, 0x80] /* AND #$80 */,
        ]);
        let _ = &mut interconnect;
        assert_eq!(cpu.a, 0x80);
        assert_eq!(cpu.p, NEGATIVE_FLAG + INTERUPT_DISABLE);
    }
}

#[test]
fn mod_test_asl() {
    {
        let (mut interconnect, cpu) = run_prg(vec![vec![0x0e, 0x03, 0xc0, 0x04]]);
        let _ = &mut interconnect;
        assert_eq!(interconnect.read_word(0xc003), 8);
        assert_eq!(cpu.p, INTERUPT_DISABLE);
    }
    {
        let (mut interconnect, cpu) = run_prg(vec![vec![0x0e, 0x03, 0xc0, 0x40]]);
        let _ = &mut interconnect;
        assert_eq!(interconnect.read_word(0xc003), 0x80);
        assert_eq!(cpu.p, NEGATIVE_FLAG + INTERUPT_DISABLE);
    }
    {
        let (mut interconnect, cpu) = run_prg(vec![vec![0x0e, 0x03, 0xc0, 0x80]]);
        let _ = &mut interconnect;
        assert_eq!(interconnect.read_word(0xc003), 0);
        assert_eq!(cpu.p, CARRY_FLAG + ZERO_FLAG + INTERUPT_DISABLE);
    }
}

#[test]
fn mod_test_bcc() {
    {
        let (mut interconnect, cpu) = run_prg(vec![
            vec![0x18] /* CLC */,
            vec![0x90, 0x04] /* BCC *+4 */,
        ]);
        let _ = &mut interconnect;
        assert_eq!(cpu.pc, RESET_ADDR + 7);
    }
    {
        let (mut interconnect, cpu) = run_prg(vec![
            vec![0x38] /* SEC */,
            vec![0x90, 0x04] /* BCC *+4 */,
        ]);
        let _ = &mut interconnect;
        assert_eq!(cpu.pc, RESET_ADDR + 3);
    }
}

#[test]
fn mod_test_bcs() {
    {
        let (mut interconnect, cpu) = run_prg(vec![
            vec![0x38] /* SEC */,
            vec![0xb0, 0x04] /* BCS *+4 */,
        ]);
        let _ = &mut interconnect;
        assert_eq!(cpu.pc, RESET_ADDR + 7);
    }
    {
        let (mut interconnect, cpu) = run_prg(vec![
            vec![0x18] /* CLC */,
            vec![0xb0, 0x04] /* BCS *+4 */,
        ]);
        let _ = &mut interconnect;
        assert_eq!(cpu.pc, RESET_ADDR + 3);
    }
}

#[test]
fn mod_test_beq() {
    {
        let (mut interconnect, cpu) = run_prg(vec![
            vec![0xa2, 0x01],
            /* LDX #$01 */ vec![0xe0, 0x01],
            /* CPX #$01 */ vec![0xf0, 0x04] /* BEQ *+4 */,
        ]);
        let _ = &mut interconnect;
        assert_eq!(cpu.pc, RESET_ADDR + 10);
    }
    {
        let (mut interconnect, cpu) = run_prg(vec![
            vec![0xa2, 0x00],
            /* LDX #$00 */ vec![0xe0, 0x01],
            /* CPX #$01 */ vec![0xf0, 0x04] /* BEQ *+4 */,
        ]);
        let _ = &mut interconnect;
        assert_eq!(cpu.pc, RESET_ADDR + 6);
    }
}

#[test]
fn mod_test_bit() {
    {
        let (mut interconnect, cpu) = run_prg(vec![
            vec![0xa9, 0x0f],
            /* LDA #$0f */ vec![0x2c, 0x05, 0xc0, 0x0f] /* BIT $c005 */,
        ]);
        let _ = &mut interconnect;
        assert_eq!(cpu.p, INTERUPT_DISABLE);
    }
    {
        let (mut interconnect, cpu) = run_prg(vec![
            vec![0xa9, 0x0f],
            /* LDA #$0f */ vec![0x2c, 0x05, 0xc0, 0xf0] /* BIT $c005 */,
        ]);
        let _ = &mut interconnect;
        assert_eq!(cpu.p, ZERO_FLAG + OVERFLOW_FLAG + NEGATIVE_FLAG + INTERUPT_DISABLE);
    }
}

#[test]
fn mod_test_bmi() {
    {
        let (mut interconnect, cpu) = run_prg(vec![
            vec![0xa9, 0x80] /* LDA #$80 */,
            vec![0x30, 0x04] /* BMI *+4 */,
        ]);
        let _ = &mut interconnect;
        assert_eq!(cpu.pc, RESET_ADDR + 8);
    }
    {
        let (mut interconnect, cpu) = run_prg(vec![
            vec![0xa9, 0x01] /* LDA #$01 */,
            vec![0x30, 0x04] /* BMI *+4 */,
        ]);
        let _ = &mut interconnect;
        assert_eq!(cpu.pc, RESET_ADDR + 4);
    }
}

#[test]
fn mod_test_bne() {
    {
        let (mut interconnect, cpu) = run_prg(vec![
            vec![0xa2, 0x00],
            /* LDX #$00 */ vec![0xe0, 0x01],
            /* CPX #$01 */ vec![0xd0, 0x04] /* BNE *+4 */,
        ]);
        let _ = &mut interconnect;
        assert_eq!(cpu.pc, RESET_ADDR + 10);
    }
    {
        let (mut interconnect, cpu) = run_prg(vec![
            vec![0xa2, 0x01],
            /* LDX #$01 */ vec![0xe0, 0x01],
            /* CPX #$01 */ vec![0xd0, 0x04] /* BNE *+4 */,
        ]);
        let _ = &mut interconnect;
        assert_eq!(cpu.pc, RESET_ADDR + 6);
    }
}

#[test]
fn mod_test_bpl() {
    {
        let (mut interconnect, cpu) = run_prg(vec![
            vec![0xa9, 0x01] /* LDA #$01 */,
            vec![0x10, 0x04] /* BPL *+4 */,
        ]);
        let _ = &mut interconnect;
        assert_eq!(cpu.pc, RESET_ADDR + 8);
    }
    {
        let (mut interconnect, cpu) = run_prg(vec![
            vec![0xa9, 0x80] /* LDA #$80 */,
            vec![0x10, 0x04] /* BPL *+4 */,
        ]);
        let _ = &mut interconnect;
        assert_eq!(cpu.pc, RESET_ADDR + 4);
    }
    {
        let (mut interconnect, cpu) = run_prg(vec![
            vec![0xa9, 0x01] /* LDA #$01 */,
            vec![0x10, 0xfc] /* BPL *-4 */,
        ]);
        let _ = &mut interconnect;
        assert_eq!(cpu.pc, RESET_ADDR);
    }
}

#[test]
fn mod_test_brk() {
    {
        let (mut interconnect, cpu) = run_prg(vec![vec![0xa2, 0xff], // LDX #$ff
                                                   vec![0x9a], // TXS
                                                   vec![0x00] /* BRK */]);
        assert_eq!(cpu.pc, BREAK_ADDR);
        assert_eq!(cpu.p, NEGATIVE_FLAG + INTERUPT_DISABLE);
        assert_eq!(interconnect.read_double(STACK_END + 0xfe), RESET_ADDR + 5);
        assert_eq!(
            interconnect.read_word(STACK_END + 0xfd),
            NEGATIVE_FLAG + INTERUPT_DISABLE + BREAK_COMMAND + UNUSED_FLAG
        );
    }
}

#[test]
fn mod_test_bvc() {
    {
        let (mut interconnect, cpu) = run_prg(vec![vec![0x50, 0x04] /* BVC *+4 */]);
        let _ = &mut interconnect;
        assert_eq!(cpu.pc, RESET_ADDR + 6);
    }
    {
        let (mut interconnect, cpu) = run_prg(vec![
            vec![0xa9, 0x80],
            /* LDA #$80 */ vec![0x69, 0xff],
            /* ADC #$ff */ vec![0x50, 0x04] /* BVC *+4 */,
        ]);
        let _ = &mut interconnect;
        assert_eq!(cpu.pc, RESET_ADDR + 6);
    }
}

#[test]
fn mod_test_bvs() {
    {
        let (mut interconnect, cpu) = run_prg(vec![vec![0x70, 0x04] /* BVS *+4 */]);
        let _ = &mut interconnect;
        assert_eq!(cpu.pc, RESET_ADDR + 2);
    }
    {
        let (mut interconnect, cpu) = run_prg(vec![
            vec![0xa9, 0x80],
            /* LDA #$80 */ vec![0x69, 0xff],
            /* ADC #$ff */ vec![0x70, 0x04] /* BVS *+4 */,
        ]);
        let _ = &mut interconnect;
        assert_eq!(cpu.pc, RESET_ADDR + 10);
    }
}

#[test]
fn mod_test_clc() {
    {
        let (mut interconnect, cpu) = run_prg(vec![vec![0x38] /* SEC */, vec![0x18] /* CLC */]);
        let _ = &mut interconnect;
        assert_eq!(cpu.p, INTERUPT_DISABLE);
    }
}

#[test]
fn mod_test_cld() {
    {
        let (mut interconnect, cpu) = run_prg(vec![vec![0xf8] /* SED */, vec![0xd8] /* CLD */]);
        let _ = &mut interconnect;
        assert_eq!(cpu.p, INTERUPT_DISABLE);
    }
}

#[test]
fn mod_test_cli() {
    {
        let (mut interconnect, cpu) = run_prg(vec![vec![0x78] /* SEI */, vec![0x58] /* CLI */]);
        let _ = &mut interconnect;
        assert_eq!(cpu.p, 0);
    }
}

#[test]
fn mod_test_clv() {
    {
        let (mut interconnect, cpu) = run_prg(vec![
            vec![0xa9, 0x80],
            /* LDA #$80 */ vec![0x69, 0xff],
            /* ADC #$ff */ vec![0xb8] /* CLV */,
        ]);
        let _ = &mut interconnect;
        assert_eq!(cpu.p, CARRY_FLAG + INTERUPT_DISABLE);
    }
}

#[test]
fn mod_test_cmp() {
    {
        let (mut interconnect, cpu) = run_prg(vec![
            vec![0xa9, 0x01] /* LDA #$01 */,
            vec![0xc9, 0x00] /* CMP #$00 */,
        ]);
        let _ = &mut interconnect;
        assert_eq!(cpu.p, CARRY_FLAG + INTERUPT_DISABLE);
    }
    {
        let (mut interconnect, cpu) = run_prg(vec![
            vec![0xa9, 0x01] /* LDA #$01 */,
            vec![0xc9, 0x01] /* CMP #$01 */,
        ]);
        let _ = &mut interconnect;
        assert_eq!(cpu.p, CARRY_FLAG + ZERO_FLAG + INTERUPT_DISABLE);
    }
    {
        let (mut interconnect, cpu) = run_prg(vec![
            vec![0xa9, 0x01] /* LDA #$01 */,
            vec![0xc9, 0x02] /* CMP #$02 */,
        ]);
        let _ = &mut interconnect;
        assert_eq!(cpu.p, NEGATIVE_FLAG + INTERUPT_DISABLE);
    }
}

#[test]
fn mod_test_cpx() {
    {
        let (mut interconnect, cpu) = run_prg(vec![
            vec![0xa2, 0x01] /* LDX #$01 */,
            vec![0xe0, 0x00] /* CPX #$00 */,
        ]);
        let _ = &mut interconnect;
        assert_eq!(cpu.p, CARRY_FLAG + INTERUPT_DISABLE);
    }
    {
        let (mut interconnect, cpu) = run_prg(vec![
            vec![0xa2, 0x01] /* LDX #$01 */,
            vec![0xe0, 0x01] /* CPX #$01 */,
        ]);
        let _ = &mut interconnect;
        assert_eq!(cpu.p, ZERO_FLAG + CARRY_FLAG + INTERUPT_DISABLE);
    }
    {
        let (mut interconnect, cpu) = run_prg(vec![
            vec![0xa2, 0x00] /* LDX #$00 */,
            vec![0xe0, 0x01] /* CPX #$01 */,
        ]);
        let _ = &mut interconnect;
        assert_eq!(cpu.p, NEGATIVE_FLAG + INTERUPT_DISABLE);
    }
}

#[test]
fn mod_test_cpy() {
    {
        let (mut interconnect, cpu) = run_prg(vec![
            vec![0xa0, 0x01] /* LDY #$01 */,
            vec![0xc0, 0x00] /* CPY #$00 */,
        ]);
        let _ = &mut interconnect;
        assert_eq!(cpu.p, CARRY_FLAG + INTERUPT_DISABLE);
    }
    {
        let (mut interconnect, cpu) = run_prg(vec![
            vec![0xa0, 0x01] /* LDY #$01 */,
            vec![0xc0, 0x01] /* CPY #$01 */,
        ]);
        let _ = &mut interconnect;
        assert_eq!(cpu.p, ZERO_FLAG + CARRY_FLAG + INTERUPT_DISABLE);
    }
    {
        let (mut interconnect, cpu) = run_prg(vec![
            vec![0xa0, 0x00] /* LDY #$00 */,
            vec![0xc0, 0x01] /* CPY #$01 */,
        ]);
        let _ = &mut interconnect;
        assert_eq!(cpu.p, NEGATIVE_FLAG + INTERUPT_DISABLE);
    }
}

#[test]
fn mod_test_dec() {
    {
        let (mut interconnect, cpu) = run_prg(vec![
            vec![0xa9, 0x02],
            /* LDA #$02 */ vec![0x8d, 0x00, 0x20],
            /* STA $2000 */ vec![0xce, 0x00, 0x20],
        ]);
        let _ = &mut interconnect;
        assert_eq!(interconnect.read_word(0x2000), 1);
        assert_eq!(cpu.p, INTERUPT_DISABLE);
    }
    {
        let (mut interconnect, cpu) = run_prg(vec![
            vec![0xa9, 0x00],
            /* LDA #$00 */ vec![0x8d, 0x00, 0x20],
            /* STA $2000 */ vec![0xce, 0x00, 0x20],
        ]);
        let _ = &mut interconnect;
        assert_eq!(interconnect.read_word(0x2000), 0xff);
        assert_eq!(cpu.p, NEGATIVE_FLAG + INTERUPT_DISABLE);
    }
    {
        let (mut interconnect, cpu) = run_prg(vec![
            vec![0xa9, 0x80],
            /* LDA #$80 */ vec![0x8d, 0x00, 0x20],
            /* STA $2000 */ vec![0xce, 0x00, 0x20],
        ]);
        let _ = &mut interconnect;
        assert_eq!(interconnect.read_word(0x2000), 0x7f);
        assert_eq!(cpu.p, INTERUPT_DISABLE);
    }
    {
        let (mut interconnect, cpu) = run_prg(vec![
            vec![0xa9, 0x01],
            /* LDA #$01 */ vec![0x8d, 0x00, 0x20],
            /* STA $2000 */ vec![0xce, 0x00, 0x20],
        ]);
        let _ = &mut interconnect;
        assert_eq!(interconnect.read_word(0x2000), 0);
        assert_eq!(cpu.p, ZERO_FLAG + INTERUPT_DISABLE);
    }
}

#[test]
fn mod_test_dex() {
    {
        let (mut interconnect, cpu) = run_prg(vec![
            vec![0xa2, 0x02] /* LDX #$02 */,
            vec![0xca],
        ]);
        let _ = &mut interconnect;
        assert_eq!(cpu.x, 1);
        assert_eq!(cpu.p, INTERUPT_DISABLE);
    }
    {
        let (mut interconnect, cpu) = run_prg(vec![
            vec![0xa2, 0x00] /* LDX #$00 */,
            vec![0xca],
        ]);
        let _ = &mut interconnect;
        assert_eq!(cpu.x, 0xff);
        assert_eq!(cpu.p, NEGATIVE_FLAG + INTERUPT_DISABLE);
    }
    {
        let (mut interconnect, cpu) = run_prg(vec![
            vec![0xa2, 0x80] /* LDX #$80 */,
            vec![0xca],
        ]);
        let _ = &mut interconnect;
        assert_eq!(cpu.x, 0x7f);
        assert_eq!(cpu.p, INTERUPT_DISABLE);
    }
    {
        let (mut interconnect, cpu) = run_prg(vec![
            vec![0xa2, 0x01] /* LDX #$01 */,
            vec![0xca],
        ]);
        let _ = &mut interconnect;
        assert_eq!(cpu.x, 0);
        assert_eq!(cpu.p, ZERO_FLAG + INTERUPT_DISABLE);
    }
}

#[test]
fn mod_test_dey() {
    {
        let (mut interconnect, cpu) = run_prg(vec![
            vec![0xa0, 0x02] /* LDY #$02 */,
            vec![0x88],
        ]);
        let _ = &mut interconnect;
        assert_eq!(cpu.y, 1);
        assert_eq!(cpu.p, INTERUPT_DISABLE);
    }
    {
        let (mut interconnect, cpu) = run_prg(vec![
            vec![0xa0, 0x00] /* LDY #$00 */,
            vec![0x88],
        ]);
        let _ = &mut interconnect;
        assert_eq!(cpu.y, 0xff);
        assert_eq!(cpu.p, NEGATIVE_FLAG + INTERUPT_DISABLE);
    }
    {
        let (mut interconnect, cpu) = run_prg(vec![
            vec![0xa0, 0x80] /* LDY #$80 */,
            vec![0x88],
        ]);
        let _ = &mut interconnect;
        assert_eq!(cpu.y, 0x7f);
        assert_eq!(cpu.p, INTERUPT_DISABLE);
    }
    {
        let (mut interconnect, cpu) = run_prg(vec![
            vec![0xa0, 0x01] /* LDY #$01 */,
            vec![0x88],
        ]);
        let _ = &mut interconnect;
        assert_eq!(cpu.y, 0);
        assert_eq!(cpu.p, ZERO_FLAG + INTERUPT_DISABLE);
    }
}

#[test]
fn mod_test_eor() {
    {
        let (mut interconnect, cpu) = run_prg(vec![
            vec![0xa9, 0xcc] /* LDA #$cc */,
            vec![0x49, 0xaa] /* EOR #$aa */,
        ]);
        let _ = &mut interconnect;
        assert_eq!(cpu.a, 0x66);
        assert_eq!(cpu.p, INTERUPT_DISABLE);
    }
    {
        let (mut interconnect, cpu) = run_prg(vec![
            vec![0xa9, 0x80] /* LDA #$80 */,
            vec![0x49, 0x00] /* EOR #$00 */,
        ]);
        let _ = &mut interconnect;
        assert_eq!(cpu.a, 0x80);
        assert_eq!(cpu.p, NEGATIVE_FLAG + INTERUPT_DISABLE);
    }
    {
        let (mut interconnect, cpu) = run_prg(vec![
            vec![0xa9, 0xff] /* LDA #$ff */,
            vec![0x49, 0xff] /* EOR #$ff */,
        ]);
        let _ = &mut interconnect;
        assert_eq!(cpu.a, 0);
        assert_eq!(cpu.p, ZERO_FLAG + INTERUPT_DISABLE);
    }
}

#[test]
fn mod_test_inc() {
    {
        let (mut interconnect, cpu) = run_prg(vec![
            vec![0xa9, 0x01],
            /* LDA #$01 */ vec![0x8d, 0x00, 0x20],
            /* STA $2000 */ vec![0xee, 0x00, 0x20],
        ]);
        let _ = &mut interconnect;
        assert_eq!(interconnect.read_word(0x2000), 2);
        assert_eq!(cpu.p, INTERUPT_DISABLE);
    }
    {
        let (mut interconnect, cpu) = run_prg(vec![
            vec![0xa9, 0x7f],
            /* LDA #$7f */ vec![0x8d, 0x00, 0x20],
            /* STA $2000 */ vec![0xee, 0x00, 0x20],
        ]);
        let _ = &mut interconnect;
        assert_eq!(interconnect.read_word(0x2000), 0x80);
        assert_eq!(cpu.p, NEGATIVE_FLAG + INTERUPT_DISABLE);
    }
    {
        let (mut interconnect, cpu) = run_prg(vec![
            vec![0xa9, 0xff],
            /* LDA #$ff */ vec![0x8d, 0x00, 0x20],
            /* STA $2000 */ vec![0xee, 0x00, 0x20],
        ]);
        let _ = &mut interconnect;
        assert_eq!(interconnect.read_word(0x2000), 0);
        assert_eq!(cpu.p, ZERO_FLAG + INTERUPT_DISABLE);
    }
}

#[test]
fn mod_test_inx() {
    {
        let (mut interconnect, cpu) = run_prg(vec![
            vec![0xa2, 0x01] /* LDX #$01 */,
            vec![0xe8],
        ]);
        let _ = &mut interconnect;
        assert_eq!(cpu.x, 2);
        assert_eq!(cpu.p, INTERUPT_DISABLE);
    }
    {
        let (mut interconnect, cpu) = run_prg(vec![
            vec![0xa2, 0x7f] /* LDX #$7f */,
            vec![0xe8],
        ]);
        let _ = &mut interconnect;
        assert_eq!(cpu.x, 0x80);
        assert_eq!(cpu.p, NEGATIVE_FLAG + INTERUPT_DISABLE);
    }
    {
        let (mut interconnect, cpu) = run_prg(vec![
            vec![0xa2, 0xff] /* LDX #$ff */,
            vec![0xe8],
        ]);
        let _ = &mut interconnect;
        assert_eq!(cpu.x, 0);
        assert_eq!(cpu.p, ZERO_FLAG + INTERUPT_DISABLE);
    }
}

#[test]
fn mod_test_iny() {
    {
        let (mut interconnect, cpu) = run_prg(vec![
            vec![0xa0, 0x01] /* LDY #$01 */,
            vec![0xc8],
        ]);
        let _ = &mut interconnect;
        assert_eq!(cpu.y, 2);
        assert_eq!(cpu.p, INTERUPT_DISABLE);
    }
    {
        let (mut interconnect, cpu) = run_prg(vec![
            vec![0xa0, 0x7f] /* LDY #$7f */,
            vec![0xc8],
        ]);
        let _ = &mut interconnect;
        assert_eq!(cpu.y, 0x80);
        assert_eq!(cpu.p, NEGATIVE_FLAG + INTERUPT_DISABLE);
    }
    {
        let (mut interconnect, cpu) = run_prg(vec![
            vec![0xa0, 0xff] /* LDY #$ff */,
            vec![0xc8],
        ]);
        let _ = &mut interconnect;
        assert_eq!(cpu.y, 0);
        assert_eq!(cpu.p, ZERO_FLAG + INTERUPT_DISABLE);
    }
}

#[test]
fn mod_test_jmp() {
    {
        let (mut interconnect, cpu) = run_prg(vec![vec![0x4c, 0x00, 0x20] /* JMP $2000 */]);
        let _ = &mut interconnect;
        assert_eq!(cpu.pc, 0x2000);
    }
}

#[test]
fn mod_test_jsr() {
    {
        let (mut interconnect, cpu) = run_prg(vec![
            vec![0xa2, 0xff],
            /* LDX #$ff */ vec![0x9a],
            /* TXS */ vec![0x20, 0x00, 0x20] /* JSR $2000 */,
        ]);
        let _ = &mut interconnect;
        assert_eq!(cpu.pc, 0x2000);
        assert_eq!(cpu.sp, 0xfd);
        assert_eq!(interconnect.read_double(STACK_END + 0xfe), RESET_ADDR + 5);
    }
}

#[test]
fn mod_test_lda() {
    {
        let (mut interconnect, cpu) = run_prg(vec![vec![0xa9, 0x01] /* LDA #$01 */]);
        let _ = &mut interconnect;
        assert_eq!(cpu.a, 1);
        assert_eq!(cpu.p, INTERUPT_DISABLE);
    }
    {
        let (mut interconnect, cpu) = run_prg(vec![vec![0xa9, 0x00] /* LDA #$00 */]);
        let _ = &mut interconnect;
        assert_eq!(cpu.a, 0x00);
        assert_eq!(cpu.p, ZERO_FLAG + INTERUPT_DISABLE);
    }
    {
        let (mut interconnect, cpu) = run_prg(vec![vec![0xa9, 0x80] /* LDA #$80 */]);
        let _ = &mut interconnect;
        assert_eq!(cpu.a, 0x80);
        assert_eq!(cpu.p, NEGATIVE_FLAG + INTERUPT_DISABLE);
    }
}

#[test]
fn mod_test_ldx() {
    {
        let (mut interconnect, cpu) = run_prg(vec![vec![0xa2, 0x01] /* LDX #$01 */]);
        let _ = &mut interconnect;
        assert_eq!(cpu.x, 1);
        assert_eq!(cpu.p, INTERUPT_DISABLE);
    }
    {
        let (mut interconnect, cpu) = run_prg(vec![vec![0xa2, 0x00] /* LDX #$00 */]);
        let _ = &mut interconnect;
        assert_eq!(cpu.x, 0x00);
        assert_eq!(cpu.p, ZERO_FLAG + INTERUPT_DISABLE);
    }
    {
        let (mut interconnect, cpu) = run_prg(vec![vec![0xa2, 0x80] /* LDX #$80 */]);
        let _ = &mut interconnect;
        assert_eq!(cpu.x, 0x80);
        assert_eq!(cpu.p, NEGATIVE_FLAG + INTERUPT_DISABLE);
    }
}

#[test]
fn mod_test_ldy() {
    {
        let (mut interconnect, cpu) = run_prg(vec![vec![0xa0, 0x01] /* LDY #$01 */]);
        let _ = &mut interconnect;
        assert_eq!(cpu.y, 1);
        assert_eq!(cpu.p, INTERUPT_DISABLE);
    }
    {
        let (mut interconnect, cpu) = run_prg(vec![vec![0xa0, 0x00] /* LDY #$00 */]);
        let _ = &mut interconnect;
        assert_eq!(cpu.y, 0x00);
        assert_eq!(cpu.p, ZERO_FLAG + INTERUPT_DISABLE);
    }
    {
        let (mut interconnect, cpu) = run_prg(vec![vec![0xa0, 0x80] /* LDY #$80 */]);
        let _ = &mut interconnect;
        assert_eq!(cpu.y, 0x80);
        assert_eq!(cpu.p, NEGATIVE_FLAG + INTERUPT_DISABLE);
    }
}

#[test]
fn mod_test_lsr() {
    {
        let (mut interconnect, cpu) = run_prg(vec![
            vec![0xa9, 0x02] /* LDA #$02 */,
            vec![0x4a] /* LSR A */,
        ]);
        let _ = &mut interconnect;
        assert_eq!(cpu.a, 1);
        assert_eq!(cpu.p, INTERUPT_DISABLE);
    }
    {
        let (mut interconnect, cpu) = run_prg(vec![
            vec![0xa9, 0x03] /* LDA #$03 */,
            vec![0x4a] /* LSR A */,
        ]);
        let _ = &mut interconnect;
        assert_eq!(cpu.a, 1);
        assert_eq!(cpu.p, CARRY_FLAG + INTERUPT_DISABLE);
    }
    {
        let (mut interconnect, cpu) = run_prg(vec![
            vec![0xa9, 0x01] /* LDA #$01 */,
            vec![0x4a] /* LSR A */,
        ]);
        let _ = &mut interconnect;
        assert_eq!(cpu.a, 0);
        assert_eq!(cpu.p, ZERO_FLAG + CARRY_FLAG + INTERUPT_DISABLE);
    }
}

#[test]
fn mod_test_nop() {
    {
        let (mut interconnect, cpu) = run_prg(vec![vec![0xea] /* NOP */]);
        let _ = &mut interconnect;
        assert_eq!(cpu.pc, RESET_ADDR + 1);
    }
}

#[test]
fn mod_test_ora() {
    {
        let (mut interconnect, cpu) = run_prg(vec![
            vec![0xa9, 0x02] /* LDA #$02 */,
            vec![0x09, 0x01] /* ORA #$01 */,
        ]);
        let _ = &mut interconnect;
        assert_eq!(cpu.a, 3);
        assert_eq!(cpu.p, INTERUPT_DISABLE);
    }
    {
        let (mut interconnect, cpu) = run_prg(vec![
            vec![0xa9, 0xf0] /* LDA #$f0 */,
            vec![0x09, 0x0f] /* ORA #$0f */,
        ]);
        let _ = &mut interconnect;
        assert_eq!(cpu.a, 0xff);
        assert_eq!(cpu.p, NEGATIVE_FLAG + INTERUPT_DISABLE);
    }
    {
        let (mut interconnect, cpu) = run_prg(vec![
            vec![0xa9, 0x00] /* LDA #$00 */,
            vec![0x09, 0x00] /* ORA #$00 */,
        ]);
        let _ = &mut interconnect;
        assert_eq!(cpu.a, 0);
        assert_eq!(cpu.p, ZERO_FLAG + INTERUPT_DISABLE);
    }
}

#[test]
fn mod_test_pha() {
    {
        let (mut interconnect, cpu) = run_prg(vec![
            vec![0xa9, 0xff] /* LDA #$ff */,
            vec![0x48] /* PHA */,
        ]);
        let _ = &mut interconnect;
        assert_eq!(interconnect.read_word(STACK_END + cpu.sp as u16 + 1), 0xff);
    }
}

#[test]
fn mod_test_php() {
    {
        let (mut interconnect, cpu) = run_prg(vec![
            vec![0xa9, 0xff] /* LDA #$ff */,
            vec![0x08] /* PHP */,
        ]);
        let _ = &mut interconnect;
        assert_eq!(
            interconnect.read_word(STACK_END + cpu.sp as u16 + 1),
            NEGATIVE_FLAG + INTERUPT_DISABLE
        );
    }
}

#[test]
fn mod_test_pla() {
    {
        let (mut interconnect, cpu) = run_prg(vec![
            vec![0xa9, 0xff],
            /* LDA #$ff */ vec![0x48],
            /* PHA */ vec![0xa9, 0x00],
            /* LDA #$00 */ vec![0x68] /* PLA */,
        ]);
        let _ = &mut interconnect;
        assert_eq!(cpu.a, 0xff);
        assert_eq!(cpu.p, NEGATIVE_FLAG + INTERUPT_DISABLE);
    }
}

#[test]
fn mod_test_plp() {
    {
        let (mut interconnect, cpu) = run_prg(vec![
            vec![0xa9, 0xff],
            /* LDA #$ff */ vec![0x08],
            /* PHP */ vec![0xa9, 0x00],
            /* LDA #$00 */ vec![0x28] /* PLP */,
        ]);
        let _ = &mut interconnect;
        assert_eq!(cpu.p, NEGATIVE_FLAG + INTERUPT_DISABLE);
    }
}

#[test]
fn mod_test_rol() {
    {
        let (mut interconnect, cpu) = run_prg(vec![
            vec![0xa9, 0x01] /* LDA #$01 */,
            vec![0x2a] /* ROL A */,
        ]);
        let _ = &mut interconnect;
        assert_eq!(cpu.a, 2);
        assert_eq!(cpu.p, INTERUPT_DISABLE);
    }
    {
        let (mut interconnect, cpu) = run_prg(vec![
            vec![0x38],
            /* SEC */ vec![0xa9, 0x01],
            /* LDA #$01 */ vec![0x2a] /* ROL A */,
        ]);
        let _ = &mut interconnect;
        assert_eq!(cpu.a, 3);
        assert_eq!(cpu.p, INTERUPT_DISABLE);
    }
    {
        let (mut interconnect, cpu) = run_prg(vec![
            vec![0xa9, 0x80] /* LDA #$80 */,
            vec![0x2a] /* ROL A */,
        ]);
        let _ = &mut interconnect;
        assert_eq!(cpu.a, 0);
        assert_eq!(cpu.p, ZERO_FLAG + CARRY_FLAG + INTERUPT_DISABLE);
    }
}

#[test]
fn mod_test_ror() {
    {
        let (mut interconnect, cpu) = run_prg(vec![
            vec![0xa9, 0x04] /* LDA #$04 */,
            vec![0x6a] /* ROR A */,
        ]);
        let _ = &mut interconnect;
        assert_eq!(cpu.a, 2);
        assert_eq!(cpu.p, INTERUPT_DISABLE);
    }
    {
        let (mut interconnect, cpu) = run_prg(vec![
            vec![0xa9, 0x01] /* LDA #$01 */,
            vec![0x6a] /* ROR A */,
        ]);
        let _ = &mut interconnect;
        assert_eq!(cpu.a, 0);
        assert_eq!(cpu.p, CARRY_FLAG + ZERO_FLAG + INTERUPT_DISABLE);
    }
    {
        let (mut interconnect, cpu) = run_prg(vec![
            vec![0x38],
            /* SEC */ vec![0xa9, 0x01],
            /* LDA #$01 */ vec![0x6a] /* ROR A */,
        ]);
        let _ = &mut interconnect;
        assert_eq!(cpu.a, 0x80);
        assert_eq!(cpu.p, CARRY_FLAG + NEGATIVE_FLAG + INTERUPT_DISABLE);
    }
}

#[test]
fn mod_test_rti() {
    let break_addr: u16 = RESET_ADDR + 13;
    let l_break_vector = BREAK_VECTOR as u8;
    let h_break_vector = (BREAK_VECTOR >> 8) as u8;

    {
        let (_, cpu) = run_prg(vec![vec![0xa9, break_addr as u8], // LDA #$xx,
                                    vec![0x8d, l_break_vector, h_break_vector], // STA $xxxx,
                                    vec![0xa9, (break_addr >> 8) as u8], // LDA #$xx,
                                    vec![0x8d, l_break_vector + 1, h_break_vector], // STA $xx,
                                    vec![0xa9, 0x00], // LDA #$00
                                    vec![0x00], // BRK
                                    vec![0xa9, 0x01], // LDA #$01
                                    vec![0x40] /* RTI */]);
        assert_eq!(cpu.p, ZERO_FLAG + BREAK_COMMAND + UNUSED_FLAG + INTERUPT_DISABLE);
        assert_eq!(cpu.pc, 0xc00e);
    }
}

#[test]
fn mod_test_rts() {
    {
        let (mut interconnect, cpu) = run_prg(vec![
            vec![0xa2, 0xff],
            /* LDX #$ff */ vec![0x9a],
            /* TXS */ vec![0x20, 0x0a, 0xc0, 0x00, 0x00, 0x00, 0x00],
            /* JSR $c00a */ vec![0x60],
        ]);
        let _ = &mut interconnect;
        assert_eq!(cpu.pc, 0xc006);
        assert_eq!(cpu.sp, 0xff);
    }
}

#[test]
fn mod_test_sbc() {
    {
        let (_, cpu) = run_prg(vec![
            vec![0xa9, 0x03] /* LDA #$03 */,
            vec![0xe9, 0x01] /* SBC #$01 */,
        ]);
        assert_eq!(cpu.a, 1);
        assert_eq!(cpu.p, CARRY_FLAG + INTERUPT_DISABLE);
    }
    {
        let (_, cpu) = run_prg(vec![
            vec![0xa9, 0x02] /* LDA #$02 */,
            vec![0xe9, 0x01] /* SBC #$01 */,
        ]);
        assert_eq!(cpu.a, 0);
        assert_eq!(cpu.p, ZERO_FLAG + CARRY_FLAG + INTERUPT_DISABLE);
    }
    {
        let (_, cpu) = run_prg(vec![vec![0x38], // SEC
                                    vec![0xa9, 0x02], // LDA #$02
                                    vec![0xe9, 0x01] /* SBC #$01 */]);
        assert_eq!(cpu.a, 1);
        assert_eq!(cpu.p, CARRY_FLAG + INTERUPT_DISABLE);
    }
    {
        let (_, cpu) = run_prg(vec![vec![0x38], // SEC
                                    vec![0xa9, 0x00], // LDA #$00
                                    vec![0xe9, 0x01] /* SBC #$01 */]);
        assert_eq!(cpu.a, 0xff);
        assert_eq!(cpu.p, NEGATIVE_FLAG + INTERUPT_DISABLE);
    }
    {
        let (_, cpu) = run_prg(vec![vec![0x38], // SEC
                                    vec![0xa9, 0x80], // LDA #$80
                                    vec![0xe9, 0x01] /* SBC #$01 */]);
        assert_eq!(cpu.a, 0x7f);
        assert_eq!(cpu.p, OVERFLOW_FLAG + CARRY_FLAG + INTERUPT_DISABLE);
    }
    {
        let (_, cpu) = run_prg(vec![vec![0x38], // SEC
                                    vec![0xa9, 0x7f], // LDA #$7f
                                    vec![0xe9, 0xff] /* SBC #$ff */]);
        assert_eq!(cpu.a, 0x80);
        assert_eq!(cpu.p, NEGATIVE_FLAG + OVERFLOW_FLAG + INTERUPT_DISABLE);
    }
}

#[test]
fn mod_test_sec() {
    {
        let (mut interconnect, cpu) = run_prg(vec![vec![0x38] /* SEC */]);
        let _ = &mut interconnect;
        assert_eq!(cpu.p, CARRY_FLAG + INTERUPT_DISABLE);
    }
}

#[test]
fn mod_test_sed() {
    {
        let (mut interconnect, cpu) = run_prg(vec![vec![0xf8] /* SED */]);
        let _ = &mut interconnect;
        assert_eq!(cpu.p, DECIMAL_MODE + INTERUPT_DISABLE);
    }
}

#[test]
fn mod_test_sei() {
    {
        let (mut interconnect, cpu) = run_prg(vec![vec![0x78] /* SEI */]);
        let _ = &mut interconnect;
        assert_eq!(cpu.p, INTERUPT_DISABLE);
    }
}

#[test]
fn mod_test_sta() {
    {
        let (mut interconnect, cpu) = run_prg(vec![
            vec![0xa9, 0x01],
            /* LDA #$01 */ vec![0x8d, 0x00, 0x20] /* STA $2000 */,
        ]);
        let _ = &mut interconnect;
        assert_eq!(interconnect.read_word(0x2000), 1);
    }
}

#[test]
fn mod_test_stx() {
    {
        let (mut interconnect, cpu) = run_prg(vec![
            vec![0xa2, 0x01],
            /* LDX #$01 */ vec![0x8e, 0x00, 0x20] /* STX $2000 */,
        ]);
        let _ = &mut interconnect;
        assert_eq!(interconnect.read_word(0x2000), 1);
    }
}

#[test]
fn mod_test_sty() {
    {
        let (mut interconnect, cpu) = run_prg(vec![
            vec![0xa0, 0x01],
            /* LDY #$01 */ vec![0x8c, 0x00, 0x20] /* STY $2000 */,
        ]);
        let _ = &mut interconnect;
        assert_eq!(interconnect.read_word(0x2000), 1);
    }
}

#[test]
fn mod_test_tax() {
    {
        let (mut interconnect, cpu) = run_prg(vec![
            vec![0xa9, 0x01] /* LDA #$01 */,
            vec![0xaa] /* TAX */,
        ]);
        let _ = &mut interconnect;
        assert_eq!(cpu.x, 1);
        assert_eq!(cpu.p, INTERUPT_DISABLE);
    }
    {
        let (mut interconnect, cpu) = run_prg(vec![
            vec![0xa9, 0x80] /* LDA #$80 */,
            vec![0xaa] /* TAX */,
        ]);
        let _ = &mut interconnect;
        assert_eq!(cpu.x, 0x80);
        assert_eq!(cpu.p, NEGATIVE_FLAG + INTERUPT_DISABLE);
    }
    {
        let (mut interconnect, cpu) = run_prg(vec![
            vec![0xa9, 0x00] /* LDA #$00 */,
            vec![0xaa] /* TAX */,
        ]);
        let _ = &mut interconnect;
        assert_eq!(cpu.x, 0x00);
        assert_eq!(cpu.p, ZERO_FLAG + INTERUPT_DISABLE);
    }
}

#[test]
fn mod_test_tay() {
    {
        let (mut interconnect, cpu) = run_prg(vec![
            vec![0xa9, 0x01] /* LDA #$01 */,
            vec![0xa8] /* TAY */,
        ]);
        let _ = &mut interconnect;
        assert_eq!(cpu.y, 1);
        assert_eq!(cpu.p, INTERUPT_DISABLE);
    }
    {
        let (mut interconnect, cpu) = run_prg(vec![
            vec![0xa9, 0x80] /* LDA #$80 */,
            vec![0xa8] /* TAY */,
        ]);
        let _ = &mut interconnect;
        assert_eq!(cpu.y, 0x80);
        assert_eq!(cpu.p, NEGATIVE_FLAG + INTERUPT_DISABLE);
    }
    {
        let (mut interconnect, cpu) = run_prg(vec![
            vec![0xa9, 0x00] /* LDA #$00 */,
            vec![0xa8] /* TAY */,
        ]);
        let _ = &mut interconnect;
        assert_eq!(cpu.y, 0x00);
        assert_eq!(cpu.p, ZERO_FLAG + INTERUPT_DISABLE);
    }
}

#[test]
fn mod_test_tsx() {
    {
        let (mut interconnect, cpu) = run_prg(vec![vec![0xba]]);
        let _ = &mut interconnect;
        assert_eq!(cpu.x, 0xfd);
        assert_eq!(cpu.p, NEGATIVE_FLAG + INTERUPT_DISABLE);
    }
}

#[test]
fn mod_test_txa() {
    {
        let (mut interconnect, cpu) = run_prg(vec![
            vec![0xa2, 0x01] /* LDX #$01 */,
            vec![0x8a] /* TXA */,
        ]);
        let _ = &mut interconnect;
        assert_eq!(cpu.a, 1);
        assert_eq!(cpu.p, INTERUPT_DISABLE);
    }
    {
        let (mut interconnect, cpu) = run_prg(vec![
            vec![0xa2, 0x00] /* LDX #$00 */,
            vec![0x8a] /* TXA */,
        ]);
        let _ = &mut interconnect;
        assert_eq!(cpu.a, 0);
        assert_eq!(cpu.p, ZERO_FLAG + INTERUPT_DISABLE);
    }
    {
        let (mut interconnect, cpu) = run_prg(vec![
            vec![0xa2, 0x80] /* LDX #$80 */,
            vec![0x8a] /* TXA */,
        ]);
        let _ = &mut interconnect;
        assert_eq!(cpu.a, 0x80);
        assert_eq!(cpu.p, NEGATIVE_FLAG + INTERUPT_DISABLE);
    }
}

#[test]
fn mod_test_txs() {
    {
        let (mut interconnect, cpu) = run_prg(vec![
            vec![0xa2, 0x01] /* LDX #$01 */,
            vec![0x9a] /* TXS */,
        ]);
        let _ = &mut interconnect;
        assert_eq!(cpu.sp, 1);
        assert_eq!(cpu.p, INTERUPT_DISABLE);
    }
    {
        let (mut interconnect, cpu) = run_prg(vec![
            vec![0xa2, 0x00] /* LDX #$00 */,
            vec![0x9a] /* TXS */,
        ]);
        let _ = &mut interconnect;
        assert_eq!(cpu.sp, 0);
        assert_eq!(cpu.p, ZERO_FLAG + INTERUPT_DISABLE);
    }
    {
        let (mut interconnect, cpu) = run_prg(vec![
            vec![0xa2, 0x80] /* LDX #$80 */,
            vec![0x9a] /* TXS */,
        ]);
        let _ = &mut interconnect;
        assert_eq!(cpu.sp, 0x80);
        assert_eq!(cpu.p, NEGATIVE_FLAG + INTERUPT_DISABLE);
    }
}

#[test]
fn mod_test_tya() {
    {
        let (mut interconnect, cpu) = run_prg(vec![
            vec![0xa0, 0x01] /* LDY #$01 */,
            vec![0x98] /* TYA */,
        ]);
        let _ = &mut interconnect;
        assert_eq!(cpu.a, 1);
        assert_eq!(cpu.p, INTERUPT_DISABLE);
    }
    {
        let (mut interconnect, cpu) = run_prg(vec![
            vec![0xa0, 0x00] /* LDY #$00 */,
            vec![0x98] /* TYA */,
        ]);
        let _ = &mut interconnect;
        assert_eq!(cpu.a, 0);
        assert_eq!(cpu.p, ZERO_FLAG + INTERUPT_DISABLE);
    }
    {
        let (mut interconnect, cpu) = run_prg(vec![
            vec![0xa0, 0x80] /* LDY #$80 */,
            vec![0x98] /* TYA */,
        ]);
        let _ = &mut interconnect;
        assert_eq!(cpu.a, 0x80);
        assert_eq!(cpu.p, NEGATIVE_FLAG + INTERUPT_DISABLE);
    }
}

#[test]
fn cpu_test_adc() {
    {
        let (mut interconnect, cpu) = run_prg(vec![
            vec![0x18],
            /* CLC */ vec![0xa9, 0x01],
            /* LDA #$01 */ vec![0x69, 0x01] /* ADX #$01 */,
        ]);
        let _ = &mut interconnect;
        assert_eq!(cpu.a, 2);
        assert_eq!(cpu.p, INTERUPT_DISABLE);
    }
    {
        let (mut interconnect, cpu) = run_prg(vec![
            vec![0x18],
            /* CLC */ vec![0xa9, 0x01],
            /* LDA #$01 */ vec![0x69, 0xff] /* ADX #$ff */,
        ]);
        let _ = &mut interconnect;
        assert_eq!(cpu.a, 0);
        assert_eq!(cpu.p, CARRY_FLAG + ZERO_FLAG + INTERUPT_DISABLE);
    }
    {
        let (mut interconnect, cpu) = run_prg(vec![
            vec![0x18],
            /* CLC */ vec![0xa9, 0x7f],
            /* LDA #$7f */ vec![0x69, 0x01] /* ADX #$01 */,
        ]);
        let _ = &mut interconnect;
        assert_eq!(cpu.a, 0x80);
        assert_eq!(cpu.p, OVERFLOW_FLAG + NEGATIVE_FLAG + INTERUPT_DISABLE);
    }
    {
        let (mut interconnect, cpu) = run_prg(vec![
            vec![0x18],
            /* CLC */ vec![0xa9, 0x80],
            /* LDA #$80 */ vec![0x69, 0xff] /* ADX #$ff */,
        ]);
        let _ = &mut interconnect;
        assert_eq!(cpu.a, 0x7f);
        assert_eq!(cpu.p, CARRY_FLAG + OVERFLOW_FLAG + INTERUPT_DISABLE);
    }
    {
        let (mut interconnect, cpu) = run_prg(vec![
            vec![0x38],
            /* SEC */ vec![0xa9, 0x00],
            /* LDA #$00 */ vec![0x69, 0x00] /* ADX #$00 */,
        ]);
        let _ = &mut interconnect;
        assert_eq!(cpu.a, 1);
        assert_eq!(cpu.p, INTERUPT_DISABLE);
    }
}

#[test]
fn cpu_test_and() {
    {
        let (mut interconnect, cpu) = run_prg(vec![
            vec![0xa9, 0x01] /* LDA #$01 */,
            vec![0x29, 0x01] /* AND #$01 */,
        ]);
        let _ = &mut interconnect;
        assert_eq!(cpu.a, 1);
        assert_eq!(cpu.p, INTERUPT_DISABLE);
    }
    {
        let (mut interconnect, cpu) = run_prg(vec![
            vec![0xa9, 0x01] /* LDA #$01 */,
            vec![0x29, 0x00] /* AND #$00 */,
        ]);
        let _ = &mut interconnect;
        assert_eq!(cpu.a, 0);
        assert_eq!(cpu.p, ZERO_FLAG + INTERUPT_DISABLE);
    }
    {
        let (mut interconnect, cpu) = run_prg(vec![
            vec![0xa9, 0x80] /* LDA #$80 */,
            vec![0x29, 0x80] /* AND #$80 */,
        ]);
        let _ = &mut interconnect;
        assert_eq!(cpu.a, 0x80);
        assert_eq!(cpu.p, NEGATIVE_FLAG + INTERUPT_DISABLE);
    }
}

#[test]
fn cpu_test_asl() {
    {
        let (mut interconnect, cpu) = run_prg(vec![vec![0x0e, 0x03, 0xc0, 0x04]]);
        let _ = &mut interconnect;
        assert_eq!(interconnect.read_word(0xc003), 8);
        assert_eq!(cpu.p, INTERUPT_DISABLE);
    }
    {
        let (mut interconnect, cpu) = run_prg(vec![vec![0x0e, 0x03, 0xc0, 0x40]]);
        let _ = &mut interconnect;
        assert_eq!(interconnect.read_word(0xc003), 0x80);
        assert_eq!(cpu.p, NEGATIVE_FLAG + INTERUPT_DISABLE);
    }
    {
        let (mut interconnect, cpu) = run_prg(vec![vec![0x0e, 0x03, 0xc0, 0x80]]);
        let _ = &mut interconnect;
        assert_eq!(interconnect.read_word(0xc003), 0);
        assert_eq!(cpu.p, CARRY_FLAG + ZERO_FLAG + INTERUPT_DISABLE);
    }
}

#[test]
fn cpu_test_beq() {
    {
        let (mut interconnect, cpu) = run_prg(vec![
            vec![0xa2, 0x01],
            /* LDX #$01 */ vec![0xe0, 0x01],
            /* CPX #$01 */ vec![0xf0, 0x04] /* BEQ *+4 */,
        ]);
        let _ = &mut interconnect;
        assert_eq!(cpu.pc, RESET_ADDR + 10);
    }
    {
        let (mut interconnect, cpu) = run_prg(vec![
            vec![0xa2, 0x00],
            /* LDX #$00 */ vec![0xe0, 0x01],
            /* CPX #$01 */ vec![0xf0, 0x04] /* BEQ *+4 */,
        ]);
        let _ = &mut interconnect;
        assert_eq!(cpu.pc, RESET_ADDR + 6);
    }
}

#[test]
fn cpu_test_bpl() {
    {
        let (mut interconnect, cpu) = run_prg(vec![
            vec![0xa9, 0x01] /* LDA #$01 */,
            vec![0x10, 0x04] /* BPL *+4 */,
        ]);
        let _ = &mut interconnect;
        assert_eq!(cpu.pc, RESET_ADDR + 8);
    }
    {
        let (mut interconnect, cpu) = run_prg(vec![
            vec![0xa9, 0x80] /* LDA #$80 */,
            vec![0x10, 0x04] /* BPL *+4 */,
        ]);
        let _ = &mut interconnect;
        assert_eq!(cpu.pc, RESET_ADDR + 4);
    }
}

#[test]
fn cpu_test_cpx() {
    {
        let (mut interconnect, cpu) = run_prg(vec![
            vec![0xa2, 0x01] /* LDX #$01 */,
            vec![0xe0, 0x00] /* CPX #$00 */,
        ]);
        let _ = &mut interconnect;
        assert_eq!(cpu.p, CARRY_FLAG + INTERUPT_DISABLE);
    }
    {
        let (mut interconnect, cpu) = run_prg(vec![
            vec![0xa2, 0x01] /* LDX #$01 */,
            vec![0xe0, 0x01] /* CPX #$01 */,
        ]);
        let _ = &mut interconnect;
        assert_eq!(cpu.p, ZERO_FLAG + CARRY_FLAG + INTERUPT_DISABLE);
    }
    {
        let (mut interconnect, cpu) = run_prg(vec![
            vec![0xa2, 0x00] /* LDX #$00 */,
            vec![0xe0, 0x01] /* CPX #$01 */,
        ]);
        let _ = &mut interconnect;
        assert_eq!(cpu.p, NEGATIVE_FLAG + INTERUPT_DISABLE);
    }
}

#[test]
fn cpu_test_dey() {
    {
        let (mut interconnect, cpu) = run_prg(vec![
            vec![0xa0, 0x02] /* LDY #$02 */,
            vec![0x88],
        ]);
        let _ = &mut interconnect;
        assert_eq!(cpu.y, 1);
        assert_eq!(cpu.p, INTERUPT_DISABLE);
    }
    {
        let (mut interconnect, cpu) = run_prg(vec![
            vec![0xa0, 0x00] /* LDY #$00 */,
            vec![0x88],
        ]);
        let _ = &mut interconnect;
        assert_eq!(cpu.y, 0xff);
        assert_eq!(cpu.p, NEGATIVE_FLAG + INTERUPT_DISABLE);
    }
    {
        let (mut interconnect, cpu) = run_prg(vec![
            vec![0xa0, 0x80] /* LDY #$80 */,
            vec![0x88],
        ]);
        let _ = &mut interconnect;
        assert_eq!(cpu.y, 0x7f);
        assert_eq!(cpu.p, INTERUPT_DISABLE);
    }
    {
        let (mut interconnect, cpu) = run_prg(vec![
            vec![0xa0, 0x01] /* LDY #$01 */,
            vec![0x88],
        ]);
        let _ = &mut interconnect;
        assert_eq!(cpu.y, 0);
        assert_eq!(cpu.p, ZERO_FLAG + INTERUPT_DISABLE);
    }
}

#[test]
fn cpu_test_inc() {
    {
        let (mut interconnect, cpu) = run_prg(vec![
            vec![0xa9, 0x01],
            /* LDA #$01 */ vec![0x8d, 0x00, 0x20],
            /* STA $2000 */ vec![0xee, 0x00, 0x20],
        ]);
        let _ = &mut interconnect;
        assert_eq!(interconnect.read_word(0x2000), 2);
        assert_eq!(cpu.p, INTERUPT_DISABLE);
    }
    {
        let (mut interconnect, cpu) = run_prg(vec![
            vec![0xa9, 0x7f],
            /* LDA #$7f */ vec![0x8d, 0x00, 0x20],
            /* STA $2000 */ vec![0xee, 0x00, 0x20],
        ]);
        let _ = &mut interconnect;
        assert_eq!(interconnect.read_word(0x2000), 0x80);
        assert_eq!(cpu.p, NEGATIVE_FLAG + INTERUPT_DISABLE);
    }
    {
        let (mut interconnect, cpu) = run_prg(vec![
            vec![0xa9, 0xff],
            /* LDA #$ff */ vec![0x8d, 0x00, 0x20],
            /* STA $2000 */ vec![0xee, 0x00, 0x20],
        ]);
        let _ = &mut interconnect;
        assert_eq!(interconnect.read_word(0x2000), 0);
        assert_eq!(cpu.p, ZERO_FLAG + INTERUPT_DISABLE);
    }
}

#[test]
fn cpu_test_inx() {
    {
        let (mut interconnect, cpu) = run_prg(vec![
            vec![0xa2, 0x01] /* LDX #$01 */,
            vec![0xe8],
        ]);
        let _ = &mut interconnect;
        assert_eq!(cpu.x, 2);
        assert_eq!(cpu.p, INTERUPT_DISABLE);
    }
    {
        let (mut interconnect, cpu) = run_prg(vec![
            vec![0xa2, 0x7f] /* LDX #$7f */,
            vec![0xe8],
        ]);
        let _ = &mut interconnect;
        assert_eq!(cpu.x, 0x80);
        assert_eq!(cpu.p, NEGATIVE_FLAG + INTERUPT_DISABLE);
    }
    {
        let (mut interconnect, cpu) = run_prg(vec![
            vec![0xa2, 0xff] /* LDX #$ff */,
            vec![0xe8],
        ]);
        let _ = &mut interconnect;
        assert_eq!(cpu.x, 0);
        assert_eq!(cpu.p, ZERO_FLAG + INTERUPT_DISABLE);
    }
}

#[test]
fn cpu_test_jmp() {
    {
        let (mut interconnect, cpu) = run_prg(vec![vec![0x4c, 0x00, 0x20] /* JMP $2000 */]);
        let _ = &mut interconnect;
        assert_eq!(cpu.pc, 0x2000);
    }
}

#[test]
fn cpu_test_jsr() {
    {
        let (mut interconnect, cpu) = run_prg(vec![
            vec![0xa2, 0xff],
            /* LDX #$ff */ vec![0x9a],
            /* TXS */ vec![0x20, 0x00, 0x20] /* JSR $2000 */,
        ]);
        let _ = &mut interconnect;
        assert_eq!(cpu.pc, 0x2000);
        assert_eq!(cpu.sp, 0xfd);
        assert_eq!(interconnect.read_double(STACK_END + 0xfe), RESET_ADDR + 5);
    }
}

#[test]
fn cpu_test_lda() {
    {
        let (mut interconnect, cpu) = run_prg(vec![vec![0xa9, 0x01] /* LDA #$01 */]);
        let _ = &mut interconnect;
        assert_eq!(cpu.a, 1);
        assert_eq!(cpu.p, INTERUPT_DISABLE);
    }
    {
        let (mut interconnect, cpu) = run_prg(vec![vec![0xa9, 0x00] /* LDA #$00 */]);
        let _ = &mut interconnect;
        assert_eq!(cpu.a, 0x00);
        assert_eq!(cpu.p, ZERO_FLAG + INTERUPT_DISABLE);
    }
    {
        let (mut interconnect, cpu) = run_prg(vec![vec![0xa9, 0x80] /* LDA #$80 */]);
        let _ = &mut interconnect;
        assert_eq!(cpu.a, 0x80);
        assert_eq!(cpu.p, NEGATIVE_FLAG + INTERUPT_DISABLE);
    }
}

#[test]
fn cpu_test_ldx() {
    {
        let (mut interconnect, cpu) = run_prg(vec![vec![0xa2, 0x01] /* LDX #$01 */]);
        let _ = &mut interconnect;
        assert_eq!(cpu.x, 1);
        assert_eq!(cpu.p, INTERUPT_DISABLE);
    }
    {
        let (mut interconnect, cpu) = run_prg(vec![vec![0xa2, 0x00] /* LDX #$00 */]);
        let _ = &mut interconnect;
        assert_eq!(cpu.x, 0x00);
        assert_eq!(cpu.p, ZERO_FLAG + INTERUPT_DISABLE);
    }
    {
        let (mut interconnect, cpu) = run_prg(vec![vec![0xa2, 0x80] /* LDX #$80 */]);
        let _ = &mut interconnect;
        assert_eq!(cpu.x, 0x80);
        assert_eq!(cpu.p, NEGATIVE_FLAG + INTERUPT_DISABLE);
    }
}

#[test]
fn cpu_test_rts() {
    {
        let (mut interconnect, cpu) = run_prg(vec![
            vec![0xa2, 0xff],
            /* LDX #$ff */ vec![0x9a],
            /* TXS */ vec![0x20, 0x0a, 0xc0, 0x00, 0x00, 0x00, 0x00],
            /* JSR $c00a */ vec![0x60],
        ]);
        let _ = &mut interconnect;
        assert_eq!(cpu.pc, 0xc006);
        assert_eq!(cpu.sp, 0xff);
    }
}

#[test]
fn cpu_test_sei() {
    {
        let (mut interconnect, cpu) = run_prg(vec![vec![0x78] /* SEI */]);
        let _ = &mut interconnect;
        assert_eq!(cpu.p, INTERUPT_DISABLE);
    }
}

#[test]
fn cpu_test_sta() {
    {
        let (mut interconnect, cpu) = run_prg(vec![
            vec![0xa9, 0x01],
            /* LDA #$01 */ vec![0x8d, 0x00, 0x20] /* STA $2000 */,
        ]);
        let _ = &mut interconnect;
        assert_eq!(interconnect.read_word(0x2000), 1);
    }
}

#[test]
fn cpu_test_sty() {
    {
        let (mut interconnect, cpu) = run_prg(vec![
            vec![0xa0, 0x01],
            /* LDY #$01 */ vec![0x8c, 0x00, 0x20] /* STY $2000 */,
        ]);
        let _ = &mut interconnect;
        assert_eq!(interconnect.read_word(0x2000), 1);
    }
}

#[test]
fn cpu_test_txs() {
    {
        let (mut interconnect, cpu) = run_prg(vec![
            vec![0xa2, 0x01] /* LDX #$01 */,
            vec![0x9a] /* TXS */,
        ]);
        let _ = &mut interconnect;
        assert_eq!(cpu.sp, 1);
        assert_eq!(cpu.p, INTERUPT_DISABLE);
    }
    {
        let (mut interconnect, cpu) = run_prg(vec![
            vec![0xa2, 0x00] /* LDX #$00 */,
            vec![0x9a] /* TXS */,
        ]);
        let _ = &mut interconnect;
        assert_eq!(cpu.sp, 0);
        assert_eq!(cpu.p, ZERO_FLAG + INTERUPT_DISABLE);
    }
    {
        let (mut interconnect, cpu) = run_prg(vec![
            vec![0xa2, 0x80] /* LDX #$80 */,
            vec![0x9a] /* TXS */,
        ]);
        let _ = &mut interconnect;
        assert_eq!(cpu.sp, 0x80);
        assert_eq!(cpu.p, NEGATIVE_FLAG + INTERUPT_DISABLE);
    }
}

#[test]
fn adc_then_sbc_with_matched_carry_restores_a() {
    // CLC; LDA #$37; ADC #$29; SEC; SBC #$29
    let (_, cpu) = run_prg(vec![
        vec![0x18],
        vec![0xa9, 0x37],
        vec![0x69, 0x29],
        vec![0x38],
        vec![0xe9, 0x29],
    ]);
    assert_eq!(cpu.a, 0x37);

    // the same round trip across an unsigned overflow
    let (_, cpu) = run_prg(vec![
        vec![0x18],
        vec![0xa9, 0xf0],
        vec![0x69, 0x20],
        vec![0x38],
        vec![0xe9, 0x20],
    ]);
    assert_eq!(cpu.a, 0xf0);
}

#[test]
fn stack_round_trip_leaves_sp_unchanged() {
    // LDA #$5a; PHA; LDA #$00; PLA
    let (_, cpu) = run_prg(vec![
        vec![0xa9, 0x5a],
        vec![0x48],
        vec![0xa9, 0x00],
        vec![0x68],
    ]);
    assert_eq!(cpu.a, 0x5a);
    assert_eq!(cpu.sp, 0xfd);

    // JSR pushes a 16-bit word that RTS pops back, leaving SP as it was
    let (_, cpu) = run_prg(vec![
        vec![0x20, 0x06, 0xc0, 0x00, 0x00, 0x00],
        vec![0x60],
    ]);
    assert_eq!(cpu.pc, RESET_ADDR + 3);
    assert_eq!(cpu.sp, 0xfd);
}

#[test]
fn indirect_pointers_wrap_inside_page_zero() {
    let mut interconnect = FlatBus::new();
    let mut cpu = Cpu::new();
    interconnect.write_double(RESET_VECTOR, RESET_ADDR);

    // a pointer whose low byte sits at 0x00ff wraps: its high byte
    // comes from 0x0000, not 0x0100
    interconnect.write_word(0x00ff, 0x34);
    interconnect.write_word(0x0000, 0x12);
    interconnect.write_word(0x0100, 0x77);
    interconnect.write_word(0x1235, 0x5a);

    // LDY #$01; LDA ($ff),Y
    let prg = [0xa0, 0x01, 0xb1, 0xff];
    for (k, &b) in prg.iter().enumerate() {
        interconnect.write_word(RESET_ADDR + k as u16, b);
    }
    cpu.reset(&mut interconnect);
    cpu.step(&mut interconnect);
    cpu.step(&mut interconnect);

    assert_eq!(cpu.a, 0x5a);
}
