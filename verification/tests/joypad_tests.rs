//! Latch-and-shift behaviour of the controller.

use nes_rs::joypad::{ButtonState, Joypad};

fn buttons(a: bool, b: bool, select: bool, start: bool, up: bool, down: bool, left: bool, right: bool) -> ButtonState {
    ButtonState { a, b, select, start, up, down, left, right }
}

#[test]
fn test_strobe_high_reads_a() {
    let mut joypad = Joypad::new();
    joypad.set_state(buttons(true, true, false, false, false, false, false, false));

    joypad.write_strobe(1);
    assert_eq!(joypad.read(), 1);
    assert_eq!(joypad.read(), 1);
}

#[test]
fn test_shift_sequence_after_strobe() {
    let mut joypad = Joypad::new();
    joypad.set_state(buttons(true, false, true, false, true, false, true, false));

    joypad.write_strobe(1);
    joypad.write_strobe(0);

    let expected = [1, 0, 1, 0, 1, 0, 1, 0];
    for &bit in &expected {
        assert_eq!(joypad.read(), bit);
    }
}

#[test]
fn serial_reads_end_in_fill_bit() {
    let mut joypad = Joypad::new();
    joypad.set_state(buttons(true, false, true, false, false, false, false, false));

    joypad.write_strobe(1);
    joypad.write_strobe(0);

    let expected = [1, 0, 1, 0, 0, 0, 0, 0];
    for &bit in &expected {
        assert_eq!(joypad.read(), bit);
    }
    // the ninth read shifts in the fill bit
    assert_eq!(joypad.read(), 1);
}
