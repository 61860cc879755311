use chip8::chip8::Chip8;
use chip8::emulator::Signal;
use chip8::instruction::Instruction;

fn exec(sys: &mut Chip8, word: u16) -> Signal {
    sys.exec_instruction(Instruction::from(word)).unwrap()
}

fn lit(sys: &Chip8) -> Vec<(usize, usize)> {
    let frame = sys.transmit_frame();
    assert_eq!(frame.len(), 2048);
    let mut on = Vec::new();
    for y in 0..32 {
        for x in 0..64 {
            if frame[y * 64 + x] {
                on.push((x, y));
            }
        }
    }
    on
}

#[test]
fn draws_the_digit_zero() {
    let mut sys = Chip8::new();
    exec(&mut sys, 0xA000);
    assert_eq!(exec(&mut sys, 0xD015), Signal::RefreshDisplay);
    assert_eq!(
        lit(&sys),
        [
            (0, 0), (1, 0), (2, 0), (3, 0),
            (0, 1), (3, 1),
            (0, 2), (3, 2),
            (0, 3), (3, 3),
            (0, 4), (1, 4), (2, 4), (3, 4),
        ]
    );
    assert_eq!(sys.v_reg()[0xF], 0);
    assert_eq!(sys.pc(), 0x204);
    assert_eq!(sys.i_reg(), 0);
}

#[test]
fn draws_most_significant_bit_leftmost() {
    let mut sys = Chip8::new();
    sys.load_rom(&[0b1000_0001, 0b0100_0000, 0b0000_0010]).unwrap();
    exec(&mut sys, 0xA200);
    exec(&mut sys, 0x600A);
    exec(&mut sys, 0x6114);
    exec(&mut sys, 0xD013);
    assert_eq!(lit(&sys), [(10, 20), (17, 20), (11, 21), (16, 22)]);
}

#[test]
fn drawing_wraps_on_both_axes() {
    let mut sys = Chip8::new();
    sys.load_rom(&[0xFF, 0x81]).unwrap();
    exec(&mut sys, 0xA200);
    exec(&mut sys, 0x603C);
    exec(&mut sys, 0x611F);
    exec(&mut sys, 0xD012);
    assert_eq!(
        lit(&sys),
        [
            (3, 0), (60, 0),
            (0, 31), (1, 31), (2, 31), (3, 31), (60, 31), (61, 31), (62, 31), (63, 31),
        ]
    );
}

#[test]
fn coordinates_wrap_before_drawing() {
    let mut sys = Chip8::new();
    sys.load_rom(&[0x80]).unwrap();
    exec(&mut sys, 0xA200);
    exec(&mut sys, 0x60FF);
    exec(&mut sys, 0x61FF);
    exec(&mut sys, 0xD011);
    assert_eq!(lit(&sys), [(63, 31)]);
    exec(&mut sys, 0x6040);
    exec(&mut sys, 0x6120);
    exec(&mut sys, 0xD011);
    assert_eq!(lit(&sys), [(0, 0), (63, 31)]);
}

#[test]
fn drawing_twice_restores_the_frame() {
    let mut sys = Chip8::new();
    exec(&mut sys, 0x6005);
    exec(&mut sys, 0x6107);
    exec(&mut sys, 0xA00A);
    exec(&mut sys, 0xD015);
    let before = sys.transmit_frame();
    assert_eq!(sys.v_reg()[0xF], 0);
    exec(&mut sys, 0x623B);
    exec(&mut sys, 0x631E);
    exec(&mut sys, 0xA032);
    assert_eq!(exec(&mut sys, 0xD235), Signal::RefreshDisplay);
    assert_ne!(sys.transmit_frame(), before);
    assert_eq!(sys.v_reg()[0xF], 0);
    assert_eq!(exec(&mut sys, 0xD235), Signal::RefreshDisplay);
    assert_eq!(sys.transmit_frame(), before);
    assert_eq!(sys.v_reg()[0xF], 1);
}

#[test]
fn overlapping_sprites_collide() {
    let mut sys = Chip8::new();
    sys.load_rom(&[0xF0, 0x0F, 0x3C]).unwrap();
    exec(&mut sys, 0xA200);
    exec(&mut sys, 0xD001);
    exec(&mut sys, 0xA201);
    exec(&mut sys, 0xD001);
    assert_eq!(sys.v_reg()[0xF], 0);
    assert_eq!(lit(&sys).len(), 8);
    exec(&mut sys, 0xA202);
    exec(&mut sys, 0xD001);
    assert_eq!(sys.v_reg()[0xF], 1);
    assert_eq!(lit(&sys), [(0, 0), (1, 0), (6, 0), (7, 0)]);
}

#[test]
fn second_drawing_on_lit_pixels_does_not_collide() {
    let mut sys = Chip8::new();
    sys.load_rom(&[0xFF, 0x18]).unwrap();
    exec(&mut sys, 0xA200);
    exec(&mut sys, 0xD001);
    exec(&mut sys, 0xA201);
    exec(&mut sys, 0xD001);
    assert_eq!(sys.v_reg()[0xF], 1);
    exec(&mut sys, 0xD001);
    assert_eq!(sys.v_reg()[0xF], 0);
    assert_eq!(lit(&sys).len(), 8);
}

#[test]
fn empty_sprites_draw_nothing() {
    let mut sys = Chip8::new();
    exec(&mut sys, 0xA000);
    exec(&mut sys, 0x6F01);
    assert_eq!(exec(&mut sys, 0xD000), Signal::RefreshDisplay);
    assert!(lit(&sys).is_empty());
    assert_eq!(sys.v_reg()[0xF], 0);
    exec(&mut sys, 0xA100);
    exec(&mut sys, 0x6F01);
    assert_eq!(exec(&mut sys, 0xD00F), Signal::RefreshDisplay);
    assert!(lit(&sys).is_empty());
    assert_eq!(sys.v_reg()[0xF], 0);
}

#[test]
fn drawing_at_vf_reads_the_place_before_the_flag() {
    let mut sys = Chip8::new();
    sys.load_rom(&[0x80]).unwrap();
    exec(&mut sys, 0xA200);
    exec(&mut sys, 0x6F09);
    exec(&mut sys, 0xDFF1);
    assert_eq!(lit(&sys), [(9, 9)]);
    assert_eq!(sys.v_reg()[0xF], 0);
}

#[test]
fn clear_blanks_the_frame() {
    let mut sys = Chip8::new();
    exec(&mut sys, 0xA000);
    exec(&mut sys, 0xD015);
    exec(&mut sys, 0x6120);
    exec(&mut sys, 0xD105);
    assert_eq!(lit(&sys).len(), 28);
    assert_eq!(exec(&mut sys, 0x00E0), Signal::RefreshDisplay);
    let frame = sys.transmit_frame();
    assert_eq!(frame, vec![false; 2048]);
    assert_eq!(sys.pc(), 0x20A);
}

#[test]
fn frame_persists_across_other_instructions() {
    let mut sys = Chip8::new();
    exec(&mut sys, 0xA005);
    exec(&mut sys, 0xD005);
    let frame = sys.transmit_frame();
    exec(&mut sys, 0x6A33);
    exec(&mut sys, 0x8AA4);
    exec(&mut sys, 0xFA1E);
    sys.tick_timers();
    assert_eq!(sys.transmit_frame(), frame);
}
