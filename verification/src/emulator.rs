//! The host side of the machine: the loop that polls the input device, runs
//! one instruction, ticks the timers sixty times a second and hands frames and
//! the tone to the output devices.
//!
//! The loop itself belongs to the program that owns the clock. Each time
//! round it calls [`Emulator::cycle`] with the milliseconds that have passed
//! since it started, and then sleeps for [`Emulator::idle_nanos`]. What a
//! cycle does to the machine is [`turn_spec`].
use vstd::prelude::*;
use crate::chip8::Chip8;
use crate::driver::{AudioDevice, DisplayDevice, InputDevice, InputMsg};
use crate::instruction::Instruction;
use crate::semantics::{
    audible, can_fetch, exec_spec, fetched_word, follows, initial_state, loaded, ticked, Fault,
    State, NUM_KEYS, ROM_MAX, TIMER_FREQ,
};

verus! {

/// What a step of the machine or a poll of a peripheral reports to the host
/// loop.
#[derive(Clone, Copy, Debug, PartialEq, Eq, Structural)]
pub enum Signal {
    /// Nothing new.
    Idle,
    /// The user asked to leave.
    ProgramExit,
    /// The key states have changed.
    NewInputs,
    /// The frame has changed.
    RefreshDisplay,
    /// A tone is due.
    SoundAudio,
}

/// Instructions in a second, unless another rate is set.
pub const DEFAULT_CLOCK_FREQ: u32 = 600;

/// The lowest rate that can be set, in instructions in a second.
pub const MIN_CLOCK_FREQ: u32 = 1;

/// The highest rate that can be set, in instructions in a second.
pub const MAX_CLOCK_FREQ: u32 = 2000;

/// Milliseconds from one tick of the timers to the next: a sixtieth of a
/// second, in whole milliseconds.
pub const TIMER_PERIOD_MS: u64 = 1000 / TIMER_FREQ;

/// Nanoseconds in a second.
pub const NANOS_PER_SEC: u64 = 1_000_000_000;

/// What one cycle asks of the host loop and has handed to the peripherals.
#[derive(Clone, Copy, Debug, PartialEq, Eq)]
pub struct Report {
    /// The user asked to leave: the loop ends.
    pub exit: bool,
    /// The frame has changed and goes to the display.
    pub refresh: bool,
    /// The state of the tone that goes to the audio device, if any does.
    pub tone: Option<bool>,
}

/// The host, as mathematics: the machine and what the loop remembers from
/// one cycle to the next.
pub struct Host {
    /// The machine.
    pub system: State,
    /// Instructions in a second.
    pub clock_rate: u32,
    /// Whether a tick of the timers is pending: set in a millisecond that is
    /// not on a timer period, used up in one that is.
    pub tick_next: bool,
    /// Whether the tone was on after the last tick.
    pub tone: bool,
}

/// The host after a cycle, and what the cycle reports: the fault where the
/// machine has stopped.
pub struct Turn {
    /// The host after the cycle.
    pub host: Host,
    /// The report, or the fault.
    pub result: Result<Report, Fault>,
}

impl Host {
    /// The machine is well formed and the rate within its bounds.
    pub open spec fn wf(self) -> bool {
        self.system.wf() && clock_rate_ok(self.clock_rate)
    }
}

/// Whether a rate can be set.
pub open spec fn clock_rate_ok(freq: u32) -> bool {
    MIN_CLOCK_FREQ <= freq <= MAX_CLOCK_FREQ
}

/// Whether a rate, in instructions in a second, can be set: see
/// [`clock_rate_ok`].
pub fn valid_clock_speed(freq: u32) -> (valid: bool)
    ensures
        valid == clock_rate_ok(freq),
{
    MIN_CLOCK_FREQ <= freq && freq <= MAX_CLOCK_FREQ
}

/// The host as it is built.
pub open spec fn initial_host() -> Host {
    Host { system: initial_state(), clock_rate: DEFAULT_CLOCK_FREQ, tick_next: false, tone: false }
}

/// Whether the timers tick in a cycle that starts `elapsed_ms` milliseconds
/// after the loop did: on a timer period, if a tick is pending.
pub open spec fn timer_due(tick_next: bool, elapsed_ms: u64) -> bool {
    elapsed_ms % TIMER_PERIOD_MS == 0 && tick_next
}

/// The machine after the input device's report: the key states are taken
/// where the device says that they are new and hands some over.
pub open spec fn delivered(s: State, event: Signal, keys: Option<Seq<bool>>) -> State {
    match keys {
        Some(k) if event == Signal::NewInputs => State { keys: k, ..s },
        _ => s,
    }
}

/// The host after the machine has run an instruction and come to `s`, with
/// `signal` raised, in a cycle that started at `elapsed_ms`: the timers tick
/// if they are due, and the tone goes to the audio device after a tick, if it
/// is on or has just gone off.
pub open spec fn settled(h: Host, s: State, signal: Signal, elapsed_ms: u64) -> Turn {
    let due = timer_due(h.tick_next, elapsed_ms);
    let system = if due { ticked(s) } else { s };
    Turn {
        host: Host {
            system,
            tick_next: elapsed_ms % TIMER_PERIOD_MS != 0,
            tone: if due { audible(system) } else { h.tone },
            ..h
        },
        result: Ok(
            Report {
                exit: false,
                refresh: signal == Signal::RefreshDisplay,
                tone: if due && (audible(system) || h.tone) { Some(audible(system)) } else { None },
            },
        ),
    }
}

/// One cycle of the host loop.
///
/// `event` and `keys` are what the input device reports, `elapsed_ms` the
/// milliseconds since the loop started, `rnd` and `start` what the
/// instruction takes for random. On `ProgramExit` nothing runs. Otherwise new
/// key states are taken, the instruction at the program counter is fetched
/// and executed, and the timers tick if they are due. A fault stops the cycle
/// where it arises.
pub open spec fn turn_spec(
    h: Host,
    event: Signal,
    keys: Option<Seq<bool>>,
    elapsed_ms: u64,
    rnd: u8,
    start: int,
) -> Turn {
    let s = delivered(h.system, event, keys);
    if event == Signal::ProgramExit {
        Turn { host: h, result: Ok(Report { exit: true, refresh: false, tone: None }) }
    } else if !can_fetch(s) {
        Turn { host: Host { system: s, ..h }, result: Err(Fault::ProgramCounter) }
    } else {
        match exec_spec(s, fetched_word(s), rnd, start) {
            Ok((next, signal)) => settled(h, next, signal, elapsed_ms),
            Err(fault) => Turn { host: Host { system: s, ..h }, result: Err(fault) },
        }
    }
}

/// The nanoseconds of one cycle at the given rate.
pub open spec fn cycle_nanos_spec(clock_rate: u32) -> u64 {
    NANOS_PER_SEC / (clock_rate as u64)
}

/// The nanoseconds to sleep after a cycle that took `spent` nanoseconds: the
/// rest of the cycle's time, and nothing where the cycle took longer.
pub open spec fn idle_nanos_spec(clock_rate: u32, spent: u64) -> u64 {
    if spent >= cycle_nanos_spec(clock_rate) {
        0
    } else {
        (cycle_nanos_spec(clock_rate) - spent) as u64
    }
}

/// The view of a key message, if there is one.
pub open spec fn keys_view(keys: Option<InputMsg>) -> Option<Seq<bool>> {
    match keys {
        Some(k) => Some(k@),
        None => None,
    }
}

/// The frame that goes to the display after a cycle with the result `res`,
/// if one does: the machine's frame `frame`, where the report says that it
/// has changed.
pub open spec fn frame_out(res: Result<Report, Fault>, frame: Seq<bool>) -> Option<Seq<bool>> {
    match res {
        Ok(report) => if report.refresh { Some(frame) } else { None },
        Err(_) => None,
    }
}

/// The state of the tone that goes to the audio device after a cycle with the
/// result `res`, if one does.
pub open spec fn tone_out(res: Result<Report, Fault>) -> Option<bool> {
    match res {
        Ok(report) => report.tone,
        Err(_) => None,
    }
}

/// Whether the display device `before` has come to be `after` by taking the
/// frame `pixels` and showing it.
pub open spec fn shown_frame<D: DisplayDevice>(before: D, pixels: Seq<bool>, after: D) -> bool {
    exists|mid: D| #[trigger] before.framed(pixels, &mid) && mid.driven(&after)
}

/// Whether the display device `before` has come to be `after` by what the
/// cycle hands to it: a frame to take and to show, or nothing.
pub open spec fn shown<D: DisplayDevice>(before: D, frame: Option<Seq<bool>>, after: D) -> bool {
    match frame {
        Some(pixels) => shown_frame(before, pixels, after),
        None => after == before,
    }
}

/// Whether the audio device `before` has come to be `after` by taking the
/// state `on` of the tone and playing it.
pub open spec fn sounded_tone<A: AudioDevice>(before: A, on: bool, after: A) -> bool {
    exists|mid: A| #[trigger] before.signalled(on, &mid) && mid.played(&after)
}

/// Whether the audio device `before` has come to be `after` by what the
/// cycle hands to it: a state of the tone to take and to play, or nothing.
pub open spec fn sounded<A: AudioDevice>(before: A, tone: Option<bool>, after: A) -> bool {
    match tone {
        Some(on) => sounded_tone(before, on, after),
        None => after == before,
    }
}

/// A CHIP-8 emulator: the machine, its three peripherals, and the rate at
/// which it runs. Its view is the [`Host`].
pub struct Emulator<I: InputDevice, D: DisplayDevice, A: AudioDevice> {
    // The system being emulated
    system: Chip8,
    // Instructions in a second: an upper bound on how fast the system runs
    clock_rate: u32,
    // Whether a tick of the timers is pending
    tick_next: bool,
    // Whether the tone was on after the last tick
    tone: bool,
    // --- Peripherals ---
    input: I,
    display: D,
    audio: A,
}

impl<I: InputDevice, D: DisplayDevice, A: AudioDevice> View for Emulator<I, D, A> {
    type V = Host;

    closed spec fn view(&self) -> Host {
        Host {
            system: self.system@,
            clock_rate: self.clock_rate,
            tick_next: self.tick_next,
            tone: self.tone,
        }
    }
}

impl<I: InputDevice, D: DisplayDevice, A: AudioDevice> Emulator<I, D, A> {
    /// The input device.
    pub closed spec fn input(&self) -> I {
        self.input
    }

    /// The display device.
    pub closed spec fn display(&self) -> D {
        self.display
    }

    /// The audio device.
    pub closed spec fn audio(&self) -> A {
        self.audio
    }

    /// An emulator with a new machine, the default rate and the given
    /// peripherals.
    pub fn with_peripherals(input: I, display: D, audio: A) -> (emu: Self)
        ensures
            emu@ == initial_host(),
            emu@.wf(),
            emu.input() == input,
            emu.display() == display,
            emu.audio() == audio,
    {
        Emulator {
            system: Chip8::new(),
            clock_rate: DEFAULT_CLOCK_FREQ,
            tick_next: false,
            tone: false,
            input,
            display,
            audio,
        }
    }

    /// Sets the rate, in instructions in a second, if it is within
    /// `MIN_CLOCK_FREQ` and `MAX_CLOCK_FREQ`; says whether it was.
    pub fn set_clock_speed(&mut self, freq: u32) -> (accepted: bool)
        ensures
            old(self)@.wf() ==> final(self)@.wf(),
            accepted == clock_rate_ok(freq),
            accepted ==> final(self)@ == (Host { clock_rate: freq, ..old(self)@ }),
            !accepted ==> final(self)@ == old(self)@,
            final(self).input() == old(self).input(),
            final(self).display() == old(self).display(),
            final(self).audio() == old(self).audio(),
    {
        if !valid_clock_speed(freq) {
            return false;
        }
        self.clock_rate = freq;
        true
    }

    /// Loads a program into the machine. A program that does not fit is
    /// refused, and the machine stays as it was.
    pub fn load_program(&mut self, rom: &[u8]) -> (res: Result<(), Fault>)
        ensures
            old(self)@.wf() ==> final(self)@.wf(),
            rom@.len() <= ROM_MAX ==> res == Ok::<(), Fault>(()) && final(self)@ == (Host {
                system: loaded(old(self)@.system, rom@),
                ..old(self)@
            }),
            rom@.len() > ROM_MAX ==> res == Err::<(), Fault>(Fault::RomTooLarge) && final(self)@
                == old(self)@,
            final(self).input() == old(self).input(),
            final(self).display() == old(self).display(),
            final(self).audio() == old(self).audio(),
    {
        self.system.load_rom(rom)
    }

    /// The machine.
    pub fn system(&self) -> (system: &Chip8)
        ensures
            system@ == self@.system,
    {
        &self.system
    }

    /// The rate, in instructions in a second.
    pub fn clock_speed(&self) -> (freq: u32)
        ensures
            freq == self@.clock_rate,
    {
        self.clock_rate
    }

    /// The nanoseconds of one cycle at the rate that is set.
    pub fn cycle_nanos(&self) -> (nanos: u64)
        requires
            self@.wf(),
        ensures
            nanos == cycle_nanos_spec(self@.clock_rate),
    {
        NANOS_PER_SEC / (self.clock_rate as u64)
    }

    /// The nanoseconds to sleep after a cycle that took `spent`
    /// nanoseconds, so that the machine runs no faster than its rate.
    pub fn idle_nanos(&self, spent: u64) -> (nanos: u64)
        requires
            self@.wf(),
        ensures
            nanos == idle_nanos_spec(self@.clock_rate, spent),
    {
        let budget: u64 = self.cycle_nanos();
        if spent >= budget {
            0
        } else {
            budget - spent
        }
    }

    /// Takes the key states where the input device says that they are new.
    fn deliver(&mut self, event: Signal, keys: Option<InputMsg>)
        requires
            old(self)@.wf(),
        ensures
            final(self)@.wf(),
            final(self)@ == (Host {
                system: delivered(old(self)@.system, event, keys_view(keys)),
                ..old(self)@
            }),
            final(self).input() == old(self).input(),
            final(self).display() == old(self).display(),
            final(self).audio() == old(self).audio(),
    {
        if event == Signal::NewInputs {
            self.system.receive_input(keys);
        }
    }

    /// After an instruction: ticks the timers if they are due, and makes the
    /// report.
    #[verifier::rlimit(50)]
    fn settle(&mut self, signal: Signal, elapsed_ms: u64) -> (report: Report)
        requires
            old(self)@.wf(),
        ensures
            final(self)@.wf(),
            (Turn { host: final(self)@, result: Ok(report) }) == settled(
                old(self)@,
                old(self)@.system,
                signal,
                elapsed_ms,
            ),
            final(self).input() == old(self).input(),
            final(self).display() == old(self).display(),
            final(self).audio() == old(self).audio(),
    {
        let was_on: bool = self.tone;
        let mut tone: Option<bool> = None;
        // The elapsed time falls into periods of 16 ms; the timers tick in a
        // cycle that starts on a period. `tick_next` keeps them from ticking
        // more than once in that millisecond, in which several cycles may
        // start if the rate is high.
        if elapsed_ms % TIMER_PERIOD_MS == 0 {
            if self.tick_next {
                let sound: Signal = self.system.tick_timers();
                let on: bool = sound == Signal::SoundAudio;
                if on || was_on {
                    tone = Some(on);
                }
                self.tone = on;
                self.tick_next = false;
            }
        } else {
            self.tick_next = true;
        }
        Report { exit: false, refresh: signal == Signal::RefreshDisplay, tone }
    }

    /// One cycle of the host loop on what the input device has reported, with
    /// `rnd` and `start` for what the instruction takes for random: see
    /// [`turn_spec`]. The peripherals are not touched.
    #[verifier::rlimit(50)]
    pub fn turn_with(
        &mut self,
        event: Signal,
        keys: Option<InputMsg>,
        elapsed_ms: u64,
        rnd: u8,
        start: usize,
    ) -> (res: Result<Report, Fault>)
        requires
            old(self)@.wf(),
        ensures
            final(self)@.wf(),
            (Turn { host: final(self)@, result: res }) == turn_spec(
                old(self)@,
                event,
                keys_view(keys),
                elapsed_ms,
                rnd,
                start as int,
            ),
            final(self).input() == old(self).input(),
            final(self).display() == old(self).display(),
            final(self).audio() == old(self).audio(),
    {
        if event == Signal::ProgramExit {
            return Ok(Report { exit: true, refresh: false, tone: None });
        }
        self.deliver(event, keys);
        let instr: Instruction = match self.system.fetch_instruction() {
            Ok(instr) => instr,
            Err(fault) => {
                return Err(fault);
            },
        };
        match self.system.exec_with(instr, rnd, start) {
            Ok(signal) => Ok(self.settle(signal, elapsed_ms)),
            Err(fault) => Err(fault),
        }
    }

    /// Polls the input device, and asks it for its key states if it reports
    /// new ones.
    fn poll(&mut self) -> (polled: (Signal, Option<InputMsg>))
        ensures
            final(self)@ == old(self)@,
            old(self).input().polled(polled.0, &final(self).input()),
            if polled.0 == Signal::NewInputs {
                final(self).input().sends(polled.1)
            } else {
                polled.1.is_none()
            },
            final(self).input().kind() == old(self).input().kind(),
            final(self).display() == old(self).display(),
            final(self).audio() == old(self).audio(),
    {
        let event: Signal = self.input.handle_inputs();
        let keys: Option<InputMsg> = if event == Signal::NewInputs {
            self.input.send_inputs()
        } else {
            None
        };
        (event, keys)
    }

    /// One cycle of the host loop on what the input device has reported: as
    /// [`Emulator::turn_with`], with the random values drawn from the random
    /// number generator.
    #[verifier::rlimit(50)]
    fn turn(&mut self, event: Signal, keys: Option<InputMsg>, elapsed_ms: u64) -> (res: Result<
        Report,
        Fault,
    >)
        requires
            old(self)@.wf(),
        ensures
            final(self)@.wf(),
            exists|rnd: u8, start: int|
                0 <= start < NUM_KEYS && (Turn { host: final(self)@, result: res })
                    == #[trigger] turn_spec(
                    old(self)@,
                    event,
                    keys_view(keys),
                    elapsed_ms,
                    rnd,
                    start,
                ),
            final(self).input() == old(self).input(),
            final(self).display() == old(self).display(),
            final(self).audio() == old(self).audio(),
    {
        let ghost before = self@;
        if event == Signal::ProgramExit {
            assert((Turn { host: self@, result: Ok(Report { exit: true, refresh: false, tone: None }) })
                == turn_spec(before, event, keys_view(keys), elapsed_ms, 0, 0));
            return Ok(Report { exit: true, refresh: false, tone: None });
        }
        self.deliver(event, keys);
        let ghost polled = self@;
        let instr: Instruction = match self.system.fetch_instruction() {
            Ok(instr) => instr,
            Err(fault) => {
                assert((Turn { host: self@, result: Err(fault) }) == turn_spec(
                    before,
                    event,
                    keys_view(keys),
                    elapsed_ms,
                    0,
                    0,
                ));
                return Err(fault);
            },
        };
        let exec: Result<Signal, Fault> = self.system.exec_instruction(instr);
        let ghost ran = self@;
        let ghost (rnd, start) = choose|rnd: u8, start: int|
            0 <= start < NUM_KEYS && follows(
                polled.system,
                #[trigger] exec_spec(polled.system, instr@, rnd, start),
                ran.system,
                exec,
            );
        match exec {
            Ok(signal) => {
                let report: Report = self.settle(signal, elapsed_ms);
                assert((Turn { host: self@, result: Ok(report) }) == turn_spec(
                    before,
                    event,
                    keys_view(keys),
                    elapsed_ms,
                    rnd,
                    start,
                ));
                Ok(report)
            },
            Err(fault) => {
                assert((Turn { host: self@, result: Err(fault) }) == turn_spec(
                    before,
                    event,
                    keys_view(keys),
                    elapsed_ms,
                    rnd,
                    start,
                ));
                Err(fault)
            },
        }
    }

    /// Hands the machine's frame to the display and the tone to the audio
    /// device, where the report says so.
    fn present(&mut self, report: Report)
        requires
            old(self)@.wf(),
        ensures
            final(self)@ == old(self)@,
            final(self).input() == old(self).input(),
            shown(
                old(self).display(),
                frame_out(Ok(report), old(self)@.system.display),
                final(self).display(),
            ),
            sounded(old(self).audio(), tone_out(Ok(report)), final(self).audio()),
            final(self).display().kind() == old(self).display().kind(),
            final(self).audio().kind() == old(self).audio().kind(),
    {
        // --- Display
        if report.refresh {
            let frame: Vec<bool> = self.system.transmit_frame();
            self.display.receive_frame(frame.as_slice());
            let ghost framed = self.display;
            self.display.drive_display();
            assert(old(self).display().framed(old(self)@.system.display, &framed)
                && framed.driven(&self.display));
        }
        // --- Audio
        if let Some(on) = report.tone {
            self.audio.receive_signal(on);
            let ghost signalled = self.audio;
            self.audio.play_sound();
            assert(old(self).audio().signalled(on, &signalled) && signalled.played(&self.audio));
        }
    }

    /// One cycle of the host loop: polls the input device, runs one
    /// instruction, ticks the timers if they are due, and hands the frame to
    /// the display and the tone to the audio device where the report says so.
    ///
    /// The input device is polled once, and asked for its key states if it
    /// reports new ones. The host goes as [`turn_spec`] says for what the
    /// device has reported and for the random values drawn. The display gets
    /// the machine's frame if the report says that it has changed, and the
    /// audio device the tone that the report names; after a fault they get
    /// nothing.
    pub fn cycle(&mut self, elapsed_ms: u64) -> (res: Result<Report, Fault>)
        requires
            old(self)@.wf(),
        ensures
            final(self)@.wf(),
            exists|event: Signal, keys: Option<InputMsg>, rnd: u8, start: int|
                {
                    &&& 0 <= start < NUM_KEYS
                    &&& old(self).input().polled(event, &final(self).input())
                    &&& if event == Signal::NewInputs {
                        final(self).input().sends(keys)
                    } else {
                        keys.is_none()
                    }
                    &&& (Turn { host: final(self)@, result: res }) == #[trigger] turn_spec(
                        old(self)@,
                        event,
                        keys_view(keys),
                        elapsed_ms,
                        rnd,
                        start,
                    )
                },
            shown(
                old(self).display(),
                frame_out(res, final(self)@.system.display),
                final(self).display(),
            ),
            sounded(old(self).audio(), tone_out(res), final(self).audio()),
            final(self).input().kind() == old(self).input().kind(),
            final(self).display().kind() == old(self).display().kind(),
            final(self).audio().kind() == old(self).audio().kind(),
    {
        let (event, keys) = self.poll();
        match self.turn(event, keys, elapsed_ms) {
            Ok(report) => {
                self.present(report);
                Ok(report)
            },
            Err(fault) => Err(fault),
        }
    }
}

} // verus!
