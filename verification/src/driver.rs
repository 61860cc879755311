//! The peripherals of the machine, as the host loop sees them: a source of
//! key states, a sink for frames and a sink for the tone. A concrete device
//! implements the trait of each part that it plays; [`NullDevice`] plays any
//! of them and does nothing.
use vstd::prelude::*;
use crate::emulator::Signal;
use crate::semantics::NUM_KEYS;

verus! {

/// The states of the 16 keys as an input device reports them: entry `k` is
/// [`KEY_DOWN`] while key `k` is down.
///
/// ```text
///    +---+---+---+---+
///    | 1 | 2 | 3 | C |
///    +---+---+---+---+
///    | 4 | 5 | 6 | D |
///    +---+---+---+---+
///    | 7 | 8 | 9 | E |
///    +---+---+---+---+
///    | A | 0 | B | F |
///    +---+---+---+---+
/// ```
pub type InputMsg = [bool; NUM_KEYS];

/// The state of a key that is not pressed.
pub const KEY_UP: bool = false;

/// The state of a key that is pressed.
pub const KEY_DOWN: bool = true;

/// A pixel that is off.
pub const PX_OFF: bool = false;

/// A pixel that is on.
pub const PX_ON: bool = true;

/// The key of the pad that a character typed on a keyboard stands for, if it
/// stands for one. The left of a QWERTY keyboard is laid out as the pad is:
///
/// ```text
///    Keyboard                   Pad
///    +---+---+---+---+          +---+---+---+---+
///    | 1 | 2 | 3 | 4 |          | 1 | 2 | 3 | C |
///    +---+---+---+---+          +---+---+---+---+
///    | Q | W | E | R |          | 4 | 5 | 6 | D |
///    +---+---+---+---+    =>    +---+---+---+---+
///    | A | S | D | F |          | 7 | 8 | 9 | E |
///    +---+---+---+---+          +---+---+---+---+
///    | Z | X | C | V |          | A | 0 | B | F |
///    +---+---+---+---+          +---+---+---+---+
/// ```
pub open spec fn keymap_spec(c: u8) -> Option<u8> {
    if c == 0x31 {
        Some(0x1u8)
    } else if c == 0x32 {
        Some(0x2u8)
    } else if c == 0x33 {
        Some(0x3u8)
    } else if c == 0x34 {
        Some(0xCu8)
    } else if c == 0x71 {
        Some(0x4u8)
    } else if c == 0x77 {
        Some(0x5u8)
    } else if c == 0x65 {
        Some(0x6u8)
    } else if c == 0x72 {
        Some(0xDu8)
    } else if c == 0x61 {
        Some(0x7u8)
    } else if c == 0x73 {
        Some(0x8u8)
    } else if c == 0x64 {
        Some(0x9u8)
    } else if c == 0x66 {
        Some(0xEu8)
    } else if c == 0x7A {
        Some(0xAu8)
    } else if c == 0x78 {
        Some(0x0u8)
    } else if c == 0x63 {
        Some(0xBu8)
    } else if c == 0x76 {
        Some(0xFu8)
    } else {
        None
    }
}

/// The key of the pad that the character `c`, in lower case, stands for: see
/// [`keymap_spec`].
pub fn keymap(c: u8) -> (key: Option<u8>)
    ensures
        key == keymap_spec(c),
        key.is_some() ==> key.unwrap() < NUM_KEYS,
{
    match c {
        // 1
        0x31 => Some(0x1),
        // 2
        0x32 => Some(0x2),
        // 3
        0x33 => Some(0x3),
        // 4
        0x34 => Some(0xC),
        // Q
        0x71 => Some(0x4),
        // W
        0x77 => Some(0x5),
        // E
        0x65 => Some(0x6),
        // R
        0x72 => Some(0xD),
        // A
        0x61 => Some(0x7),
        // S
        0x73 => Some(0x8),
        // D
        0x64 => Some(0x9),
        // F
        0x66 => Some(0xE),
        // Z
        0x7A => Some(0xA),
        // X
        0x78 => Some(0x0),
        // C
        0x63 => Some(0xB),
        // V
        0x76 => Some(0xF),
        _ => None,
    }
}

/// Every key of the pad has its character on the keyboard, and only one.
pub proof fn lemma_keymap_covers_pad(key: u8)
    requires
        key < NUM_KEYS,
    ensures
        exists|c: u8| keymap_spec(c) == Some(key),
        forall|c: u8, d: u8|
            keymap_spec(c) == Some(key) && keymap_spec(d) == Some(key) ==> c == d,
{
    let row: Seq<u8> = seq![
        0x78u8, 0x31, 0x32, 0x33, 0x71, 0x77, 0x65, 0x61, 0x73, 0x64, 0x7A, 0x63, 0x34, 0x72, 0x66,
        0x76,
    ];
    assert(keymap_spec(row[key as int]) == Some(key));
}

/// What a poll reports that has found the keys in the state `now` when they
/// were in the state `prev` at the poll before: `NewInputs` if any key has
/// changed, `Idle` if none has.
pub fn input_signal(prev: &InputMsg, now: &InputMsg) -> (signal: Signal)
    ensures
        signal == if prev@ == now@ { Signal::Idle } else { Signal::NewInputs },
{
    let mut k: usize = 0;
    while k < NUM_KEYS
        invariant
            k <= NUM_KEYS,
            forall|j: int| 0 <= j < k ==> prev@[j] == now@[j],
        decreases NUM_KEYS - k,
    {
        if prev[k] != now[k] {
            return Signal::NewInputs;
        }
        k += 1;
    }
    assert(prev@ =~= now@);
    Signal::Idle
}

/// The kinds of input device.
#[derive(Clone, Copy, Debug, PartialEq, Eq, Structural)]
pub enum InputInfo {
    /// A window on the desktop.
    Minifb,
    /// The terminal.
    Termion,
    /// No device.
    Null,
}

/// The kinds of display device.
#[derive(Clone, Copy, Debug, PartialEq, Eq, Structural)]
pub enum DisplayInfo {
    /// A window on the desktop.
    Minifb,
    /// The terminal.
    Termion,
    /// No device.
    Null,
}

/// The kinds of audio device.
#[derive(Clone, Copy, Debug, PartialEq, Eq, Structural)]
pub enum AudioInfo {
    /// The terminal's bell, rung through the terminal device.
    Termion,
    /// The host's audio output.
    Rodio,
    /// The terminal's bell, rung on standard output.
    AnsiTerm,
    /// No device.
    Null,
}

/// An input device: a keypad, a keyboard, a touch screen.
///
/// What a device does is its own affair. The relations [`polled`] and
/// [`sends`] stand for it in contracts: a device that says nothing of them
/// may do anything.
///
/// [`polled`]: InputDevice::polled
/// [`sends`]: InputDevice::sends
pub trait InputDevice {
    /// The kind of the device. It does not change while the device lives.
    spec fn kind(&self) -> InputInfo;

    /// Whether a poll of this device may report `signal` and leave the
    /// device as `after`.
    open spec fn polled(&self, signal: Signal, after: &Self) -> bool {
        true
    }

    /// Whether this device may hand over `msg` as its key states.
    open spec fn sends(&self, msg: Option<InputMsg>) -> bool {
        true
    }

    /// The kind of the device.
    fn device_info(&self) -> (info: InputInfo)
        ensures
            info == self.kind(),
    ;

    /// Looks for what has happened since the last call: `NewInputs` where
    /// the key states have changed, `ProgramExit` where the user wants to
    /// leave.
    fn handle_inputs(&mut self) -> (signal: Signal)
        ensures
            old(self).polled(signal, final(self)),
            final(self).kind() == old(self).kind(),
    ;

    /// The key states as they are now, or `None` where the device has none
    /// to give.
    fn send_inputs(&self) -> (msg: Option<InputMsg>)
        ensures
            self.sends(msg),
    ;
}

/// A display device: a window, a terminal, a screen.
///
/// The relations [`framed`] and [`driven`] stand in contracts for what the
/// device does: a device that says nothing of them may do anything.
///
/// [`framed`]: DisplayDevice::framed
/// [`driven`]: DisplayDevice::driven
pub trait DisplayDevice {
    /// The kind of the device. It does not change while the device lives.
    spec fn kind(&self) -> DisplayInfo;

    /// Whether this device is as `after` once it has taken `frame`.
    open spec fn framed(&self, frame: Seq<bool>, after: &Self) -> bool {
        true
    }

    /// Whether this device is as `after` once it has shown its frame.
    open spec fn driven(&self, after: &Self) -> bool {
        true
    }

    /// The kind of the device.
    fn device_info(&self) -> (info: DisplayInfo)
        ensures
            info == self.kind(),
    ;

    /// Takes the frame to show next: 2048 pixels, row by row.
    fn receive_frame(&mut self, frame: &[bool])
        ensures
            old(self).framed(frame@, final(self)),
            final(self).kind() == old(self).kind(),
    ;

    /// Shows the frame taken last.
    fn drive_display(&mut self)
        ensures
            old(self).driven(final(self)),
            final(self).kind() == old(self).kind(),
    ;
}

/// An audio device: a beeper, a sound card.
///
/// The relations [`signalled`] and [`played`] stand in contracts for what
/// the device does: a device that says nothing of them may do anything.
///
/// [`signalled`]: AudioDevice::signalled
/// [`played`]: AudioDevice::played
pub trait AudioDevice {
    /// The kind of the device. It does not change while the device lives.
    spec fn kind(&self) -> AudioInfo;

    /// Whether this device is as `after` once it has taken the state `data`
    /// of the tone.
    open spec fn signalled(&self, data: bool, after: &Self) -> bool {
        true
    }

    /// Whether this device is as `after` once it has played its tone.
    open spec fn played(&self, after: &Self) -> bool {
        true
    }

    /// The kind of the device.
    fn device_info(&self) -> (info: AudioInfo)
        ensures
            info == self.kind(),
    ;

    /// Takes the state of the tone: on or off.
    fn receive_signal(&mut self, data: bool)
        ensures
            old(self).signalled(data, final(self)),
            final(self).kind() == old(self).kind(),
    ;

    /// Makes the tone heard, or silent, as taken last.
    fn play_sound(&mut self)
        ensures
            old(self).played(final(self)),
            final(self).kind() == old(self).kind(),
    ;
}

/// The device that is not there. It reports no input and drops what it is
/// given.
#[derive(Clone, Copy, Debug, PartialEq, Eq, Structural)]
pub enum NullDevice {
    /// In the place of an input device.
    Input,
    /// In the place of a display device.
    Display,
    /// In the place of an audio device.
    Audio,
}

impl InputDevice for NullDevice {
    open spec fn kind(&self) -> InputInfo {
        InputInfo::Null
    }

    open spec fn polled(&self, signal: Signal, after: &Self) -> bool {
        signal == Signal::Idle && *after == *self
    }

    open spec fn sends(&self, msg: Option<InputMsg>) -> bool {
        msg.is_none()
    }

    fn device_info(&self) -> (info: InputInfo) {
        InputInfo::Null
    }

    fn handle_inputs(&mut self) -> (signal: Signal) {
        Signal::Idle
    }

    fn send_inputs(&self) -> (msg: Option<InputMsg>) {
        None
    }
}

impl DisplayDevice for NullDevice {
    open spec fn kind(&self) -> DisplayInfo {
        DisplayInfo::Null
    }

    open spec fn framed(&self, frame: Seq<bool>, after: &Self) -> bool {
        *after == *self
    }

    open spec fn driven(&self, after: &Self) -> bool {
        *after == *self
    }

    fn device_info(&self) -> (info: DisplayInfo) {
        DisplayInfo::Null
    }

    fn receive_frame(&mut self, frame: &[bool]) {
    }

    fn drive_display(&mut self) {
    }
}

impl AudioDevice for NullDevice {
    open spec fn kind(&self) -> AudioInfo {
        AudioInfo::Null
    }

    open spec fn signalled(&self, data: bool, after: &Self) -> bool {
        *after == *self
    }

    open spec fn played(&self, after: &Self) -> bool {
        *after == *self
    }

    fn device_info(&self) -> (info: AudioInfo) {
        AudioInfo::Null
    }

    fn receive_signal(&mut self, data: bool) {
    }

    fn play_sound(&mut self) {
    }
}

} // verus!
