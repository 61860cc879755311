use chip8::instruction::Instruction;

#[test]
fn decodes_the_four_nibbles() {
    let instr = Instruction::from(0xD12Fu16);
    assert_eq!(instr.get_o(), 0xD);
    assert_eq!(instr.get_x(), 0x1);
    assert_eq!(instr.get_y(), 0x2);
    assert_eq!(instr.get_n(), 0xF);
}

#[test]
fn decodes_the_composed_operands() {
    let instr = Instruction::from(0xABCDu16);
    assert_eq!(instr.get_nn(), 0xCD);
    assert_eq!(instr.get_nnn(), 0xBCD);
    assert_eq!(u16::from(instr), 0xABCD);
}

#[test]
fn every_word_decodes() {
    for word in 0..=u16::MAX {
        let instr = Instruction::from(word);
        let o = instr.get_o() as u16;
        let x = instr.get_x() as u16;
        let y = instr.get_y() as u16;
        let n = instr.get_n() as u16;
        assert!(o < 16 && x < 16 && y < 16 && n < 16);
        assert_eq!(o << 12 | x << 8 | y << 4 | n, word);
        assert_eq!(instr.get_nn() as u16, y << 4 | n);
        assert_eq!(instr.get_nnn(), x << 8 | y << 4 | n);
        assert_eq!(u16::from(instr), word);
    }
}

#[test]
fn bytes_are_low_byte_first() {
    let instr = Instruction::from_bytes([0x34, 0x12]);
    assert_eq!(u16::from(instr), 0x1234);
    assert_eq!(instr.into_bytes(), [0x34, 0x12]);
    assert_eq!(Instruction::from(0x00E0u16).into_bytes(), [0xE0, 0x00]);
}

#[test]
fn extreme_words() {
    let zero = Instruction::from(0x0000u16);
    assert_eq!((zero.get_o(), zero.get_x(), zero.get_y(), zero.get_n()), (0, 0, 0, 0));
    assert_eq!((zero.get_nn(), zero.get_nnn()), (0, 0));
    let ones = Instruction::from(0xFFFFu16);
    assert_eq!((ones.get_o(), ones.get_x(), ones.get_y(), ones.get_n()), (0xF, 0xF, 0xF, 0xF));
    assert_eq!((ones.get_nn(), ones.get_nnn()), (0xFF, 0xFFF));
}
