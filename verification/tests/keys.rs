use chip8::chip8::Chip8;
use chip8::driver::{input_signal, keymap, InputMsg, KEY_DOWN, KEY_UP};
use chip8::emulator::Signal;
use chip8::instruction::Instruction;
use chip8::semantics::Fault;

fn exec(sys: &mut Chip8, word: u16) -> Result<Signal, Fault> {
    sys.exec_instruction(Instruction::from(word))
}

fn keys(down: &[usize]) -> InputMsg {
    let mut msg = [KEY_UP; 16];
    for key in down {
        msg[*key] = KEY_DOWN;
    }
    msg
}

#[test]
fn skip_if_key_down() {
    let mut sys = Chip8::new();
    sys.receive_input(Some(keys(&[0x7])));
    exec(&mut sys, 0x6307).unwrap();
    assert_eq!(exec(&mut sys, 0xE39E), Ok(Signal::Idle));
    assert_eq!(sys.pc(), 0x206);
    exec(&mut sys, 0x6308).unwrap();
    assert_eq!(exec(&mut sys, 0xE39E), Ok(Signal::Idle));
    assert_eq!(sys.pc(), 0x20A);
}

#[test]
fn skip_if_key_up() {
    let mut sys = Chip8::new();
    sys.receive_input(Some(keys(&[0x0, 0xF])));
    exec(&mut sys, 0x630F).unwrap();
    assert_eq!(exec(&mut sys, 0xE3A1), Ok(Signal::Idle));
    assert_eq!(sys.pc(), 0x204);
    exec(&mut sys, 0x630E).unwrap();
    assert_eq!(exec(&mut sys, 0xE3A1), Ok(Signal::Idle));
    assert_eq!(sys.pc(), 0x20A);
}

#[test]
fn key_that_the_pad_lacks_is_a_fault() {
    let mut sys = Chip8::new();
    sys.receive_input(Some(keys(&[0x0])));
    exec(&mut sys, 0x6010).unwrap();
    assert_eq!(exec(&mut sys, 0xE09E), Err(Fault::Key));
    assert_eq!(exec(&mut sys, 0xE0A1), Err(Fault::Key));
    exec(&mut sys, 0x60FF).unwrap();
    assert_eq!(exec(&mut sys, 0xE09E), Err(Fault::Key));
    assert_eq!(sys.pc(), 0x204);
}

#[test]
fn new_key_states_replace_the_old() {
    let mut sys = Chip8::new();
    sys.receive_input(Some(keys(&[0x1, 0x2])));
    sys.receive_input(Some(keys(&[0x2, 0x3])));
    for (key, skipped) in [(1u16, false), (2, true), (3, true), (4, false)] {
        exec(&mut sys, 0x1200).unwrap();
        exec(&mut sys, 0x6000 | key).unwrap();
        exec(&mut sys, 0xE09E).unwrap();
        assert_eq!(sys.pc(), if skipped { 0x206 } else { 0x204 });
    }
}

#[test]
fn no_key_states_leave_the_old() {
    let mut sys = Chip8::new();
    sys.receive_input(Some(keys(&[0xB])));
    sys.receive_input(None);
    exec(&mut sys, 0x600B).unwrap();
    exec(&mut sys, 0xE09E).unwrap();
    assert_eq!(sys.pc(), 0x206);
    sys.receive_input(Some(keys(&[])));
    exec(&mut sys, 0xE09E).unwrap();
    assert_eq!(sys.pc(), 0x208);
}

#[test]
fn wait_for_key_blocks_until_a_key_is_down() {
    let mut sys = Chip8::new();
    exec(&mut sys, 0x65EE).unwrap();
    for _ in 0..100 {
        assert_eq!(exec(&mut sys, 0xF50A), Ok(Signal::Idle));
        assert_eq!(sys.pc(), 0x202);
        assert_eq!(sys.v_reg()[5], 0xEE);
    }
    sys.receive_input(Some(keys(&[0xC])));
    assert_eq!(exec(&mut sys, 0xF50A), Ok(Signal::Idle));
    assert_eq!(sys.pc(), 0x204);
    assert_eq!(sys.v_reg()[5], 0xC);
}

#[test]
fn wait_for_key_finds_a_key_wherever_it_starts() {
    for key in 0..16usize {
        for start in 0..40usize {
            let mut sys = Chip8::new();
            sys.receive_input(Some(keys(&[key])));
            assert_eq!(sys.exec_with(Instruction::from(0xF20Au16), 0, start), Ok(Signal::Idle));
            assert_eq!(sys.v_reg()[2] as usize, key);
            assert_eq!(sys.pc(), 0x202);
        }
    }
}

#[test]
fn wait_for_key_takes_the_first_key_from_its_start() {
    let mut sys = Chip8::new();
    sys.receive_input(Some(keys(&[0x3, 0x9])));
    for (start, found) in [(0, 3), (3, 3), (4, 9), (9, 9), (10, 3), (15, 3), (16, 3)] {
        assert_eq!(sys.exec_with(Instruction::from(0xF00Au16), 0, start), Ok(Signal::Idle));
        assert_eq!(sys.v_reg()[0], found, "start {}", start);
    }
}

#[test]
fn wait_for_key_takes_one_of_the_keys_down() {
    let mut sys = Chip8::new();
    sys.receive_input(Some(keys(&[0x1, 0xE])));
    let mut seen = [false; 16];
    for _ in 0..400 {
        exec(&mut sys, 0x1200).unwrap();
        exec(&mut sys, 0xF40A).unwrap();
        assert_eq!(sys.pc(), 0x202);
        seen[sys.v_reg()[4] as usize] = true;
    }
    for key in 0..16 {
        assert_eq!(seen[key], key == 0x1 || key == 0xE);
    }
}

#[test]
fn wait_for_key_without_keys_ignores_its_start() {
    let mut sys = Chip8::new();
    for start in 0..20 {
        assert_eq!(sys.exec_with(Instruction::from(0xF00Au16), 0, start), Ok(Signal::Idle));
        assert_eq!(sys.pc(), 0x200);
    }
}

#[test]
fn keyboard_is_laid_out_as_the_pad() {
    let rows: [[(u8, u8); 4]; 4] = [
        [(b'1', 0x1), (b'2', 0x2), (b'3', 0x3), (b'4', 0xC)],
        [(b'q', 0x4), (b'w', 0x5), (b'e', 0x6), (b'r', 0xD)],
        [(b'a', 0x7), (b's', 0x8), (b'd', 0x9), (b'f', 0xE)],
        [(b'z', 0xA), (b'x', 0x0), (b'c', 0xB), (b'v', 0xF)],
    ];
    for row in rows {
        for (typed, key) in row {
            assert_eq!(keymap(typed), Some(key));
        }
    }
}

#[test]
fn other_characters_are_no_keys() {
    let mut keys = 0;
    for typed in 0..=u8::MAX {
        if keymap(typed).is_some() {
            keys += 1;
        }
    }
    assert_eq!(keys, 16);
    for typed in [b'0', b'5', b'Q', b'A', b' ', 0x03, 0x1B, 0x00, 0xFF] {
        assert_eq!(keymap(typed), None);
    }
}

#[test]
fn changed_keys_are_new_inputs() {
    assert_eq!(input_signal(&keys(&[]), &keys(&[])), Signal::Idle);
    assert_eq!(input_signal(&keys(&[3, 7]), &keys(&[7, 3])), Signal::Idle);
    assert_eq!(input_signal(&keys(&[]), &keys(&[0])), Signal::NewInputs);
    assert_eq!(input_signal(&keys(&[0xF]), &keys(&[])), Signal::NewInputs);
    assert_eq!(input_signal(&keys(&[1, 2]), &keys(&[1, 3])), Signal::NewInputs);
    for key in 0..16 {
        assert_eq!(input_signal(&keys(&[key]), &keys(&[])), Signal::NewInputs);
        assert_eq!(input_signal(&keys(&[key]), &keys(&[key])), Signal::Idle);
    }
}
