use std::cell::RefCell;
use std::rc::Rc;

use chip8::driver::{
    AudioDevice, AudioInfo, DisplayDevice, DisplayInfo, InputDevice, InputInfo, InputMsg,
    NullDevice, KEY_DOWN, KEY_UP, PX_OFF, PX_ON,
};
use chip8::emulator::{
    valid_clock_speed, Emulator, Report, Signal, DEFAULT_CLOCK_FREQ, MAX_CLOCK_FREQ,
    MIN_CLOCK_FREQ, TIMER_PERIOD_MS,
};
use chip8::io_controller::{Audio, Display, Input};
use chip8::semantics::Fault;

const QUIET: Report = Report { exit: false, refresh: false, tone: None };

#[derive(Default)]
struct Log {
    polls: u32,
    frames: Vec<Vec<bool>>,
    shown: u32,
    tones: Vec<bool>,
    played: u32,
}

struct Keyboard {
    script: Vec<(Signal, Option<InputMsg>)>,
    last: Option<InputMsg>,
    log: Rc<RefCell<Log>>,
}

impl InputDevice for Keyboard {
    fn kind(&self) -> InputInfo {
        InputInfo::Termion
    }

    fn device_info(&self) -> InputInfo {
        InputInfo::Termion
    }

    fn handle_inputs(&mut self) -> Signal {
        self.log.borrow_mut().polls += 1;
        if self.script.is_empty() {
            return Signal::Idle;
        }
        let (signal, keys) = self.script.remove(0);
        self.last = keys;
        signal
    }

    fn send_inputs(&self) -> Option<InputMsg> {
        self.last
    }
}

struct Screen {
    log: Rc<RefCell<Log>>,
}

impl DisplayDevice for Screen {
    fn kind(&self) -> DisplayInfo {
        DisplayInfo::Minifb
    }

    fn device_info(&self) -> DisplayInfo {
        DisplayInfo::Minifb
    }

    fn receive_frame(&mut self, frame: &[bool]) {
        self.log.borrow_mut().frames.push(frame.to_vec());
    }

    fn drive_display(&mut self) {
        self.log.borrow_mut().shown += 1;
    }
}

struct Beeper {
    log: Rc<RefCell<Log>>,
}

impl AudioDevice for Beeper {
    fn kind(&self) -> AudioInfo {
        AudioInfo::Rodio
    }

    fn device_info(&self) -> AudioInfo {
        AudioInfo::Rodio
    }

    fn receive_signal(&mut self, data: bool) {
        self.log.borrow_mut().tones.push(data);
    }

    fn play_sound(&mut self) {
        self.log.borrow_mut().played += 1;
    }
}

fn rig(
    script: Vec<(Signal, Option<InputMsg>)>,
) -> (Emulator<Keyboard, Screen, Beeper>, Rc<RefCell<Log>>) {
    let log = Rc::new(RefCell::new(Log::default()));
    let emu = Emulator::with_peripherals(
        Keyboard { script, last: None, log: log.clone() },
        Screen { log: log.clone() },
        Beeper { log: log.clone() },
    );
    (emu, log)
}

fn rom(words: &[u16]) -> Vec<u8> {
    words.iter().flat_map(|word| word.to_be_bytes()).collect()
}

#[test]
fn runs_without_peripherals() {
    let mut emu =
        Emulator::with_peripherals(NullDevice::Input, NullDevice::Display, NullDevice::Audio);
    assert_eq!(emu.load_program(&rom(&[0x6005, 0x7005, 0x8014, 0x00E0, 0x1208])), Ok(()));
    assert_eq!(emu.cycle(1), Ok(QUIET));
    assert_eq!(emu.cycle(2), Ok(QUIET));
    assert_eq!(emu.cycle(3), Ok(QUIET));
    assert_eq!(emu.cycle(4), Ok(Report { exit: false, refresh: true, tone: None }));
    for ms in 5..100 {
        assert_eq!(emu.cycle(ms), Ok(QUIET));
    }
    assert_eq!(emu.system().v_reg()[0], 10);
    assert_eq!(emu.system().v_reg()[0xF], 0);
    assert_eq!(emu.system().pc(), 0x208);
}

#[test]
fn null_device_does_nothing() {
    let mut input = NullDevice::Input;
    assert_eq!(InputDevice::device_info(&input), InputInfo::Null);
    assert_eq!(input.handle_inputs(), Signal::Idle);
    assert_eq!(input.send_inputs(), None);
    assert_eq!(input, NullDevice::Input);
    let mut display = NullDevice::Display;
    assert_eq!(DisplayDevice::device_info(&display), DisplayInfo::Null);
    display.receive_frame(&[PX_ON, PX_OFF]);
    display.drive_display();
    assert_eq!(display, NullDevice::Display);
    let mut audio = NullDevice::Audio;
    assert_eq!(AudioDevice::device_info(&audio), AudioInfo::Null);
    audio.receive_signal(true);
    audio.play_sound();
    assert_eq!(audio, NullDevice::Audio);
}

#[test]
fn controllers_drive_their_devices() {
    let log = Rc::new(RefCell::new(Log::default()));
    let _input = Input::init(Keyboard { script: Vec::new(), last: None, log: log.clone() });
    let mut display = Display::init(Screen { log: log.clone() });
    let mut audio = Audio::init(Beeper { log: log.clone() });
    display.output();
    audio.output();
    audio.output();
    assert_eq!(log.borrow().shown, 1);
    assert_eq!(log.borrow().played, 2);
    assert_eq!(log.borrow().polls, 0);
    let mut null = Audio::init(NullDevice::Audio);
    null.output();
}

#[test]
fn new_emulator_runs_at_the_default_rate() {
    let (emu, _) = rig(Vec::new());
    assert_eq!(DEFAULT_CLOCK_FREQ, 600);
    assert_eq!(emu.clock_speed(), 600);
    assert_eq!(emu.cycle_nanos(), 1_666_666);
    assert_eq!(emu.system().pc(), 0x200);
}

#[test]
fn clock_speed_within_bounds() {
    let (mut emu, _) = rig(Vec::new());
    assert_eq!((MIN_CLOCK_FREQ, MAX_CLOCK_FREQ), (1, 2000));
    assert!(emu.set_clock_speed(1));
    assert_eq!(emu.cycle_nanos(), 1_000_000_000);
    assert!(emu.set_clock_speed(2000));
    assert_eq!(emu.cycle_nanos(), 500_000);
    assert!(!emu.set_clock_speed(0));
    assert!(!emu.set_clock_speed(2001));
    assert!(!emu.set_clock_speed(u32::MAX));
    assert_eq!(emu.clock_speed(), 2000);
    assert!(emu.set_clock_speed(720));
    assert_eq!(emu.cycle_nanos(), 1_388_888);
}

#[test]
fn clock_speeds_that_can_be_set() {
    assert!(!valid_clock_speed(0));
    assert!(valid_clock_speed(1));
    assert!(valid_clock_speed(600));
    assert!(valid_clock_speed(2000));
    assert!(!valid_clock_speed(2001));
}

#[test]
fn sleep_is_the_rest_of_the_cycle() {
    let (mut emu, _) = rig(Vec::new());
    assert!(emu.set_clock_speed(1000));
    assert_eq!(emu.idle_nanos(0), 1_000_000);
    assert_eq!(emu.idle_nanos(250_000), 750_000);
    assert_eq!(emu.idle_nanos(999_999), 1);
    assert_eq!(emu.idle_nanos(1_000_000), 0);
    assert_eq!(emu.idle_nanos(1_000_001), 0);
    assert_eq!(emu.idle_nanos(u64::MAX), 0);
}

#[test]
fn load_program_checks_the_size() {
    let (mut emu, _) = rig(Vec::new());
    assert_eq!(emu.load_program(&vec![0xFF; 3585]), Err(Fault::RomTooLarge));
    assert_eq!(emu.system().memory()[0x200], 0);
    assert_eq!(emu.load_program(&vec![0xFF; 3584]), Ok(()));
    assert_eq!(emu.system().memory()[0x200], 0xFF);
    assert_eq!(emu.system().memory()[0xFFF], 0xFF);
}

#[test]
fn exit_ends_the_cycle_before_the_instruction() {
    let (mut emu, log) = rig(vec![(Signal::Idle, None), (Signal::ProgramExit, None)]);
    emu.load_program(&rom(&[0x6011, 0x6122])).unwrap();
    assert_eq!(emu.cycle(0), Ok(QUIET));
    assert_eq!(emu.cycle(16), Ok(Report { exit: true, refresh: false, tone: None }));
    assert_eq!(emu.system().pc(), 0x202);
    assert_eq!(emu.system().v_reg()[1], 0);
    assert_eq!(log.borrow().polls, 2);
}

#[test]
fn new_inputs_reach_the_machine() {
    let mut down = [KEY_UP; 16];
    down[0xA] = KEY_DOWN;
    let (mut emu, _) = rig(vec![
        (Signal::Idle, Some(down)),
        (Signal::Idle, None),
        (Signal::NewInputs, Some(down)),
        (Signal::NewInputs, None),
        (Signal::NewInputs, Some([KEY_UP; 16])),
    ]);
    emu.load_program(&rom(&[0xF30A, 0xF40A, 0xF50A, 0x1206])).unwrap();
    assert_eq!(emu.cycle(1), Ok(QUIET));
    assert_eq!(emu.cycle(2), Ok(QUIET));
    assert_eq!(emu.system().pc(), 0x200);
    assert_eq!(emu.cycle(3), Ok(QUIET));
    assert_eq!(emu.system().pc(), 0x202);
    assert_eq!(emu.system().v_reg()[3], 0xA);
    assert_eq!(emu.cycle(4), Ok(QUIET));
    assert_eq!(emu.system().pc(), 0x204);
    assert_eq!(emu.system().v_reg()[4], 0xA);
    assert_eq!(emu.cycle(5), Ok(QUIET));
    assert_eq!(emu.cycle(6), Ok(QUIET));
    assert_eq!(emu.system().pc(), 0x204);
    assert_eq!(emu.system().v_reg()[5], 0);
}

#[test]
fn frames_go_to_the_display() {
    let (mut emu, log) = rig(Vec::new());
    emu.load_program(&rom(&[0xA000, 0xD005, 0x6001, 0x00E0, 0x1208])).unwrap();
    assert_eq!(emu.cycle(1), Ok(QUIET));
    assert!(log.borrow().frames.is_empty());
    assert_eq!(emu.cycle(2), Ok(Report { exit: false, refresh: true, tone: None }));
    assert_eq!(log.borrow().frames.len(), 1);
    assert_eq!(log.borrow().shown, 1);
    assert_eq!(log.borrow().frames[0].len(), 2048);
    assert_eq!(log.borrow().frames[0].iter().filter(|px| **px).count(), 14);
    assert_eq!(log.borrow().frames[0], emu.system().transmit_frame());
    assert_eq!(emu.cycle(3), Ok(QUIET));
    assert_eq!(emu.cycle(4), Ok(Report { exit: false, refresh: true, tone: None }));
    assert_eq!(emu.cycle(5), Ok(QUIET));
    assert_eq!(log.borrow().frames.len(), 2);
    assert_eq!(log.borrow().shown, 2);
    assert_eq!(log.borrow().frames[1], vec![false; 2048]);
    assert!(log.borrow().tones.is_empty());
}

#[test]
fn timers_tick_once_in_a_period() {
    let (mut emu, _) = rig(Vec::new());
    emu.load_program(&rom(&[0x6005, 0xF015, 0x1204])).unwrap();
    assert_eq!(TIMER_PERIOD_MS, 16);
    assert_eq!(emu.cycle(1), Ok(QUIET));
    assert_eq!(emu.cycle(2), Ok(QUIET));
    assert_eq!(emu.system().delay_timer(), 5);
    let mut ms = 3;
    for period in 1..=5u64 {
        while ms <= period * 16 {
            assert_eq!(emu.cycle(ms), Ok(QUIET));
            ms += 1;
        }
        assert_eq!(emu.system().delay_timer(), 5 - period as u8);
    }
    while ms <= 200 {
        assert_eq!(emu.cycle(ms), Ok(QUIET));
        ms += 1;
    }
    assert_eq!(emu.system().delay_timer(), 0);
}

#[test]
fn timers_tick_at_sixty_hertz_at_any_rate() {
    for cycles_in_a_ms in [1u64, 2, 3, 7] {
        let (mut emu, _) = rig(Vec::new());
        emu.load_program(&rom(&[0x6005, 0xF015, 0x1204])).unwrap();
        for tick in 0..(80 * cycles_in_a_ms) + 1 {
            let ms = 1 + tick / cycles_in_a_ms;
            if ms > 80 {
                break;
            }
            assert_eq!(emu.cycle(ms), Ok(QUIET));
            let ticks = if ms >= 16 { ms / 16 } else { 0 };
            let after_set = tick >= 1;
            if after_set {
                assert_eq!(emu.system().delay_timer() as u64, 5 - ticks.min(5));
            }
        }
        assert_eq!(emu.system().delay_timer(), 0);
    }
}

#[test]
fn no_tick_without_a_gap() {
    let (mut emu, _) = rig(Vec::new());
    emu.load_program(&rom(&[0x6009, 0xF015, 0x1204])).unwrap();
    for ms in [0u64, 16, 32, 48, 64] {
        assert_eq!(emu.cycle(ms), Ok(QUIET));
    }
    assert_eq!(emu.system().delay_timer(), 9);
    assert_eq!(emu.cycle(65), Ok(QUIET));
    assert_eq!(emu.cycle(80), Ok(QUIET));
    assert_eq!(emu.cycle(80), Ok(QUIET));
    assert_eq!(emu.cycle(96), Ok(QUIET));
    assert_eq!(emu.system().delay_timer(), 8);
}

#[test]
fn tone_goes_on_and_off() {
    let (mut emu, log) = rig(Vec::new());
    emu.load_program(&rom(&[0x6003, 0xF018, 0x1204])).unwrap();
    assert_eq!(emu.cycle(1), Ok(QUIET));
    assert_eq!(emu.cycle(2), Ok(QUIET));
    assert_eq!(emu.cycle(16), Ok(Report { exit: false, refresh: false, tone: Some(true) }));
    assert_eq!(emu.cycle(17), Ok(QUIET));
    assert_eq!(emu.cycle(32), Ok(Report { exit: false, refresh: false, tone: Some(true) }));
    assert_eq!(emu.cycle(33), Ok(QUIET));
    assert_eq!(emu.cycle(48), Ok(Report { exit: false, refresh: false, tone: Some(false) }));
    assert_eq!(emu.cycle(49), Ok(QUIET));
    assert_eq!(emu.cycle(64), Ok(QUIET));
    assert_eq!(log.borrow().tones, [true, true, false]);
    assert_eq!(log.borrow().played, 3);
    assert!(log.borrow().frames.is_empty());
    assert_eq!(emu.system().sound_timer(), 0);
}

#[test]
fn faults_stop_the_cycle() {
    let (mut emu, log) = rig(Vec::new());
    emu.load_program(&rom(&[0x00EE])).unwrap();
    assert_eq!(emu.cycle(1), Err(Fault::StackUnderflow));
    assert_eq!(emu.system().pc(), 0x200);
    let (mut emu, _) = rig(Vec::new());
    emu.load_program(&rom(&[0x1100])).unwrap();
    assert_eq!(emu.cycle(1), Ok(QUIET));
    assert_eq!(emu.cycle(2), Err(Fault::ProgramCounter));
    let (mut emu, _) = rig(Vec::new());
    emu.load_program(&rom(&[0xFFFF])).unwrap();
    assert_eq!(emu.cycle(1), Err(Fault::UnknownInstruction));
    assert_eq!(log.borrow().polls, 1);
}

#[test]
fn turn_with_is_deterministic() {
    let mut down = [KEY_UP; 16];
    down[0x2] = KEY_DOWN;
    down[0xD] = KEY_DOWN;
    let (mut emu, log) = rig(Vec::new());
    emu.load_program(&rom(&[0xC1FF, 0xF20A, 0x00E0, 0x1206])).unwrap();
    assert_eq!(emu.turn_with(Signal::Idle, None, 1, 0x5A, 0), Ok(QUIET));
    assert_eq!(emu.system().v_reg()[1], 0x5A);
    assert_eq!(emu.turn_with(Signal::Idle, Some(down), 2, 0, 0), Ok(QUIET));
    assert_eq!(emu.system().pc(), 0x202);
    assert_eq!(emu.turn_with(Signal::NewInputs, Some(down), 3, 0, 5), Ok(QUIET));
    assert_eq!(emu.system().v_reg()[2], 0xD);
    assert_eq!(
        emu.turn_with(Signal::Idle, None, 4, 0, 0),
        Ok(Report { exit: false, refresh: true, tone: None })
    );
    assert_eq!(
        emu.turn_with(Signal::ProgramExit, None, 5, 0, 0),
        Ok(Report { exit: true, refresh: false, tone: None })
    );
    assert_eq!(emu.system().pc(), 0x206);
    assert_eq!(log.borrow().polls, 0);
    assert!(log.borrow().frames.is_empty());
}
