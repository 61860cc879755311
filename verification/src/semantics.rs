//! What the machine is and what each instruction does to it, as mathematics.
//!
//! [`State`] is the machine seen from outside: memory, registers, stack,
//! frame, keys and timers as sequences and integers. [`exec_spec`] gives, for
//! a state and an instruction word, the state that follows and the signal that
//! is raised, or the fault that stops the machine. The executable machine in
//! [`crate::chip8`] is proved to do exactly this.
use vstd::prelude::*;
use vstd::arithmetic::power2::pow2;
use crate::chip8::FONT_SPRITES;
use crate::emulator::Signal;
use crate::instruction::{word_n, word_nn, word_nnn, word_o, word_x, word_y};

verus! {

/// Bytes of memory.
pub const RAM_SIZE: usize = 4096;

/// Where the font sprites start.
pub const FONT_START: u16 = 0x000;

/// Where a program is loaded, and where the program counter starts.
pub const ROM_START: u16 = 0x200;

/// The last address of memory.
pub const ROM_END: u16 = 0xFFF;

/// The longest program that fits between `ROM_START` and `ROM_END`.
pub const ROM_MAX: usize = 0xFFF - 0x200 + 1;

/// Return addresses that the call stack holds before it takes to the heap.
pub const STACK_SIZE: usize = 12;

/// General registers, `V0` to `VF`.
pub const NUM_DATA_REGS: usize = 16;

/// Bytes from one instruction to the next.
pub const PC_STEP: u16 = 2;

/// Rows, and so bytes, of one font sprite.
pub const FONT_PX_HEIGHT: usize = 5;

/// Bytes of the font: a sprite for each of the 16 hexadecimal digits.
pub const FONT_SIZE: usize = FONT_PX_HEIGHT * 16;

/// Pixels in a row of the frame.
pub const DISPLAY_WIDTH: usize = 64;

/// Rows of the frame.
pub const DISPLAY_HEIGHT: usize = 32;

/// Pixels of the frame.
pub const DISPLAY_SIZE: usize = DISPLAY_WIDTH * DISPLAY_HEIGHT;

/// Keys of the pad.
pub const NUM_KEYS: usize = 16;

/// Ticks of the two timers in a second.
pub const TIMER_FREQ: u64 = 60;

/// Why the machine refuses a program or stops running one.
#[derive(Clone, Copy, Debug, PartialEq, Eq, Structural)]
pub enum Fault {
    /// The program is longer than the memory from `ROM_START` on.
    RomTooLarge,
    /// The program counter has left the program's memory, or cannot advance.
    ProgramCounter,
    /// A return with no call before it.
    StackUnderflow,
    /// The word names no instruction.
    UnknownInstruction,
    /// An instruction reaches past the end of memory.
    Address,
    /// An instruction asks for a key that the pad does not have.
    Key,
}

/// The machine, as mathematics.
pub struct State {
    /// The 4096 bytes of memory.
    pub memory: Seq<u8>,
    /// The program counter.
    pub pc: u16,
    /// The return addresses, oldest first.
    pub stack: Seq<u16>,
    /// The address register `I`.
    pub i: u16,
    /// The 16 general registers.
    pub v: Seq<u8>,
    /// The 2048 pixels, row by row: pixel `(x, y)` is at `y * 64 + x`.
    pub display: Seq<bool>,
    /// The 16 keys: `true` is down.
    pub keys: Seq<bool>,
    /// The delay timer.
    pub delay: u8,
    /// The sound timer: a tone sounds while it is not zero.
    pub sound: u8,
}

/// A step's result: the next state with the signal raised, or the fault.
pub type Outcome = Result<(State, Signal), Fault>;

impl State {
    /// Every part has its fixed size.
    pub open spec fn wf(self) -> bool {
        &&& self.memory.len() == RAM_SIZE
        &&& self.v.len() == NUM_DATA_REGS
        &&& self.display.len() == DISPLAY_SIZE
        &&& self.keys.len() == NUM_KEYS
    }
}

/// The 80 bytes of the font, sprite after sprite.
pub open spec fn font_data() -> Seq<u8> {
    Seq::new(
        FONT_SIZE as nat,
        |a: int| FONT_SPRITES[a / FONT_PX_HEIGHT as int][a % FONT_PX_HEIGHT as int],
    )
}

/// A frame with every pixel off.
pub open spec fn blank_display() -> Seq<bool> {
    Seq::new(DISPLAY_SIZE as nat, |p: int| false)
}

/// The machine as it is built: the font at the bottom of memory, the program
/// counter at `ROM_START`, everything else zero, off or empty.
pub open spec fn initial_state() -> State {
    State {
        memory: Seq::new(
            RAM_SIZE as nat,
            |a: int| if a < FONT_SIZE { font_data()[a] } else { 0u8 },
        ),
        pc: ROM_START,
        stack: Seq::empty(),
        i: 0,
        v: Seq::new(NUM_DATA_REGS as nat, |r: int| 0u8),
        display: blank_display(),
        keys: Seq::new(NUM_KEYS as nat, |k: int| false),
        delay: 0,
        sound: 0,
    }
}

/// The state with `rom` copied into memory from `ROM_START` on.
pub open spec fn loaded(s: State, rom: Seq<u8>) -> State {
    State {
        memory: Seq::new(
            RAM_SIZE as nat,
            |a: int| if ROM_START <= a < ROM_START + rom.len() { rom[a - ROM_START] } else { s.memory[a] },
        ),
        ..s
    }
}

/// Whether an instruction can be read at the program counter: two bytes
/// within the program's memory.
pub open spec fn can_fetch(s: State) -> bool {
    ROM_START <= s.pc < ROM_END
}

/// The word at the program counter, high byte first.
pub open spec fn fetched_word(s: State) -> u16 {
    (s.memory[s.pc as int] * 0x100 + s.memory[s.pc + 1]) as u16
}

/// The state after one tick of the timers: each goes down by one, and stays
/// at zero.
pub open spec fn ticked(s: State) -> State {
    State {
        delay: if s.delay > 0 { (s.delay - 1) as u8 } else { 0 },
        sound: if s.sound > 0 { (s.sound - 1) as u8 } else { 0 },
        ..s
    }
}

/// The state after `n` ticks of the timers.
pub open spec fn ticked_times(s: State, n: nat) -> State
    decreases n,
{
    if n == 0 {
        s
    } else {
        ticked(ticked_times(s, (n - 1) as nat))
    }
}

/// Whether a tone sounds.
pub open spec fn audible(s: State) -> bool {
    s.sound > 0
}

/// 1 for `true`, 0 for `false`: what goes into `VF`.
pub open spec fn flag(b: bool) -> u8 {
    if b { 1 } else { 0 }
}

/// The low 8 bits of an integer.
pub open spec fn wrap8(i: int) -> u8 {
    (i % 0x100) as u8
}

/// The state with register `x` set to `value`.
pub open spec fn with_reg(s: State, x: int, value: u8) -> State {
    State { v: s.v.update(x, value), ..s }
}

/// The state with register `x` set to `value`, and then `VF` to `f`.
pub open spec fn with_reg_flag(s: State, x: int, value: u8, f: u8) -> State {
    State { v: s.v.update(x, value).update(0xF, f), ..s }
}

/// `8xy6`: `VF` takes the lowest bit of `Vx`, then `Vx` is halved.
pub open spec fn shift_right_spec(s: State, x: int) -> Outcome {
    let v = s.v.update(0xF, s.v[x] % 2);
    proceed(State { v: v.update(x, v[x] / 2), ..s })
}

/// `8xyE`: `VF` takes the highest bit of `Vx`, then `Vx` is doubled, and
/// wraps.
pub open spec fn shift_left_spec(s: State, x: int) -> Outcome {
    let v = s.v.update(0xF, s.v[x] / 0x80);
    proceed(State { v: v.update(x, wrap8(v[x] * 2)), ..s })
}

/// The program counter moves on by `by` bytes and `signal` is raised; a
/// fault where the counter cannot hold the new address.
pub open spec fn advance(s: State, by: int, signal: Signal) -> Outcome {
    if s.pc + by > u16::MAX {
        Err(Fault::ProgramCounter)
    } else {
        Ok((State { pc: (s.pc + by) as u16, ..s }, signal))
    }
}

/// The program counter moves to the next instruction.
pub open spec fn proceed(s: State) -> Outcome {
    advance(s, PC_STEP as int, Signal::Idle)
}

/// The program counter moves past the next instruction if `cond` holds, to
/// it otherwise.
pub open spec fn skip_when(s: State, cond: bool) -> Outcome {
    advance(s, if cond { 2 * PC_STEP } else { PC_STEP as int }, Signal::Idle)
}

/// `00E0`: every pixel goes off.
pub open spec fn clear_spec(s: State) -> Outcome {
    advance(State { display: blank_display(), ..s }, PC_STEP as int, Signal::RefreshDisplay)
}

/// `1nnn`: the program goes on at `nnn`.
pub open spec fn jump_spec(s: State, nnn: u16) -> Outcome {
    Ok((State { pc: nnn, ..s }, Signal::Idle))
}

/// `2nnn`: the program counter goes on the stack, and the program goes on at
/// `nnn`.
pub open spec fn call_spec(s: State, nnn: u16) -> Outcome {
    Ok((State { pc: nnn, stack: s.stack.push(s.pc), ..s }, Signal::Idle))
}

/// `Bnnn`: the program goes on at `nnn` plus `V0`.
pub open spec fn jump_offset_spec(s: State, nnn: u16) -> Outcome {
    Ok((State { pc: (nnn + s.v[0]) as u16, ..s }, Signal::Idle))
}

/// `0nnn`: clears the frame, returns from a call, or does nothing.
pub open spec fn system_spec(s: State, x: int, y: int, n: u8) -> Outcome {
    if x == 0x0 && y == 0xE && n == 0x0 {
        clear_spec(s)
    } else if x == 0x0 && y == 0xE && n == 0xE {
        return_spec(s)
    } else {
        proceed(s)
    }
}

/// `00EE`: the program counter becomes the last return address, which leaves
/// the stack.
pub open spec fn return_spec(s: State) -> Outcome {
    if s.stack.len() == 0 {
        Err(Fault::StackUnderflow)
    } else {
        Ok((State { pc: s.stack.last(), stack: s.stack.drop_last(), ..s }, Signal::Idle))
    }
}

/// `8xyn`: the operations on two registers. Sums and differences wrap; those
/// that set `VF` write the result first and the flag last, but the two
/// shifts, which write the flag first and then shift `Vx`.
pub open spec fn alu_spec(s: State, x: int, y: int, n: u8) -> Outcome {
    let vx = s.v[x];
    let vy = s.v[y];
    if n == 0x0 {
        proceed(with_reg(s, x, vy))
    } else if n == 0x1 {
        proceed(with_reg(s, x, vx | vy))
    } else if n == 0x2 {
        proceed(with_reg(s, x, vx & vy))
    } else if n == 0x3 {
        proceed(with_reg(s, x, vx ^ vy))
    } else if n == 0x4 {
        proceed(with_reg_flag(s, x, wrap8(vx + vy), flag(vx + vy > 0xFF)))
    } else if n == 0x5 {
        proceed(with_reg_flag(s, x, wrap8(vx - vy), flag(vx >= vy)))
    } else if n == 0x6 {
        shift_right_spec(s, x)
    } else if n == 0x7 {
        proceed(with_reg_flag(s, x, wrap8(vy - vx), flag(vy >= vx)))
    } else if n == 0xE {
        shift_left_spec(s, x)
    } else {
        Err(Fault::UnknownInstruction)
    }
}

/// Whether bit `dx` of `byte` is set, counting from the most significant bit:
/// the order in which a row of a sprite is laid out from left to right.
pub open spec fn msb_bit(byte: u8, dx: int) -> bool {
    (byte as int / pow2((7 - dx) as nat) as int) % 2 == 1
}

/// The column of the sprite that falls on pixel `p` when the sprite's left
/// edge is at column `left` of the frame. Columns wrap at the frame's width.
pub open spec fn sprite_col(left: int, p: int) -> int {
    (p % 64 - left) % 64
}

/// The row of the sprite that falls on pixel `p` when the sprite's top edge
/// is at row `top` of the frame. Rows wrap at the frame's height.
pub open spec fn sprite_row(top: int, p: int) -> int {
    (p / 64 - top) % 32
}

/// Whether the sprite of `n` rows at `I`, drawn with its top left corner at
/// `(Vx, Vy)`, has a set bit on pixel `p`.
pub open spec fn sprite_covers(s: State, x: int, y: int, n: int, p: int) -> bool {
    let dx = sprite_col(s.v[x] as int, p);
    let dy = sprite_row(s.v[y] as int, p);
    dx < 8 && dy < n && msb_bit(s.memory[s.i + dy], dx)
}

/// The frame after the sprite is drawn: each pixel under a set bit of the
/// sprite is flipped.
pub open spec fn drawn(s: State, x: int, y: int, n: int) -> Seq<bool> {
    Seq::new(DISPLAY_SIZE as nat, |p: int| s.display[p] != sprite_covers(s, x, y, n, p))
}

/// Whether drawing the sprite turns a pixel off: a set bit of the sprite on a
/// pixel that is on.
pub open spec fn collides(s: State, x: int, y: int, n: int) -> bool {
    exists|p: int| 0 <= p < DISPLAY_SIZE && s.display[p] && sprite_covers(s, x, y, n, p)
}

/// `Dxyn`: the sprite is drawn and `VF` says whether it collided.
pub open spec fn draw_spec(s: State, x: int, y: int, n: int) -> Outcome {
    if s.i + n > RAM_SIZE {
        Err(Fault::Address)
    } else {
        advance(
            State {
                display: drawn(s, x, y, n),
                v: s.v.update(0xF, flag(collides(s, x, y, n))),
                ..s
            },
            PC_STEP as int,
            Signal::RefreshDisplay,
        )
    }
}

/// `Ex9E` and `ExA1`: skip if the key that `Vx` names is down, or up.
pub open spec fn key_skip_spec(s: State, x: int, nn: u8) -> Outcome {
    if nn != 0x9E && nn != 0xA1 {
        Err(Fault::UnknownInstruction)
    } else if s.v[x] >= NUM_KEYS {
        Err(Fault::Key)
    } else {
        skip_when(s, s.keys[s.v[x] as int] == (nn == 0x9E))
    }
}

/// Whether any key is down.
pub open spec fn any_key_down(keys: Seq<bool>) -> bool {
    exists|k: int| 0 <= k < keys.len() && keys[k]
}

/// The first key at or after `from` that is down; the number of keys if there
/// is none.
pub open spec fn next_key_down(keys: Seq<bool>, from: int) -> int
    decreases keys.len() - from,
{
    if from < 0 || from >= keys.len() {
        keys.len() as int
    } else if keys[from] {
        from
    } else {
        next_key_down(keys, from + 1)
    }
}

/// The key that a wait for a key finds: the first one down at or after
/// `start`, or else the first one down at all.
pub open spec fn found_key(keys: Seq<bool>, start: int) -> int {
    if next_key_down(keys, start) < keys.len() {
        next_key_down(keys, start)
    } else {
        next_key_down(keys, 0)
    }
}

/// `Fx0A`: with no key down nothing changes, so that the instruction runs
/// again; with a key down `Vx` takes its index and the program moves on.
pub open spec fn wait_key_spec(s: State, x: int, start: int) -> Outcome {
    if any_key_down(s.keys) {
        proceed(with_reg(s, x, found_key(s.keys, start) as u8))
    } else {
        Ok((s, Signal::Idle))
    }
}

/// `Fx33`: the hundreds, tens and ones of `Vx` go to memory at `I`, `I + 1`
/// and `I + 2`.
pub open spec fn bcd_spec(s: State, x: int) -> Outcome {
    let vx = s.v[x];
    if s.i + 2 >= RAM_SIZE {
        Err(Fault::Address)
    } else {
        proceed(
            State {
                memory: s.memory.update(s.i as int, vx / 100).update(s.i + 1, (vx / 10) % 10).update(
                    s.i + 2,
                    vx % 10,
                ),
                ..s
            },
        )
    }
}

/// `Fx55`: `V0` to `Vx` go to memory from `I` on. `I` stays.
pub open spec fn store_spec(s: State, x: int) -> Outcome {
    if s.i + x >= RAM_SIZE {
        Err(Fault::Address)
    } else {
        proceed(
            State {
                memory: Seq::new(
                    RAM_SIZE as nat,
                    |a: int| if s.i <= a <= s.i + x { s.v[a - s.i] } else { s.memory[a] },
                ),
                ..s
            },
        )
    }
}

/// `Fx65`: `V0` to `Vx` are read from memory from `I` on. `I` stays.
pub open spec fn load_spec(s: State, x: int) -> Outcome {
    if s.i + x >= RAM_SIZE {
        Err(Fault::Address)
    } else {
        proceed(
            State {
                v: Seq::new(
                    NUM_DATA_REGS as nat,
                    |r: int| if r <= x { s.memory[s.i + r] } else { s.v[r] },
                ),
                ..s
            },
        )
    }
}

/// `Fxnn`: timers, the wait for a key, and the operations on `I`.
pub open spec fn misc_spec(s: State, x: int, nn: u8, start: int) -> Outcome {
    let vx = s.v[x];
    if nn == 0x07 {
        proceed(with_reg(s, x, s.delay))
    } else if nn == 0x0A {
        wait_key_spec(s, x, start)
    } else if nn == 0x15 {
        proceed(State { delay: vx, ..s })
    } else if nn == 0x18 {
        proceed(State { sound: vx, ..s })
    } else if nn == 0x1E {
        proceed(State { i: ((s.i + vx) % 0x10000) as u16, ..s })
    } else if nn == 0x29 {
        proceed(State { i: (FONT_START + vx * FONT_PX_HEIGHT) as u16, ..s })
    } else if nn == 0x33 {
        bcd_spec(s, x)
    } else if nn == 0x55 {
        store_spec(s, x)
    } else if nn == 0x65 {
        load_spec(s, x)
    } else {
        Err(Fault::UnknownInstruction)
    }
}

/// Whether the state `post` and the result `res` are what `outcome` asks
/// for after the state `pre`: the next state and its signal, or the fault with
/// the state as it was.
pub open spec fn follows(pre: State, outcome: Outcome, post: State, res: Result<Signal, Fault>) -> bool {
    match outcome {
        Ok((next, signal)) => post == next && res == Ok::<Signal, Fault>(signal),
        Err(fault) => post == pre && res == Err::<Signal, Fault>(fault),
    }
}

/// What the instruction word `w` does to the state `s`.
///
/// `rnd` is the byte that `Cxnn` takes for random, and `start` the key at
/// which `Fx0A` starts to look for a key that is down; no other instruction
/// reads them. A fault leaves the state as it was.
pub open spec fn exec_spec(s: State, w: u16, rnd: u8, start: int) -> Outcome {
    let o = word_o(w);
    let x = word_x(w) as int;
    let y = word_y(w) as int;
    let n = word_n(w);
    let nn = word_nn(w);
    let nnn = word_nnn(w);
    if o == 0x0 {
        system_spec(s, x, y, n)
    } else if o == 0x1 {
        jump_spec(s, nnn)
    } else if o == 0x2 {
        call_spec(s, nnn)
    } else if o == 0x3 {
        skip_when(s, s.v[x] == nn)
    } else if o == 0x4 {
        skip_when(s, s.v[x] != nn)
    } else if o == 0x5 {
        if n == 0 {
            skip_when(s, s.v[x] == s.v[y])
        } else {
            Err(Fault::UnknownInstruction)
        }
    } else if o == 0x6 {
        proceed(with_reg(s, x, nn))
    } else if o == 0x7 {
        proceed(with_reg(s, x, wrap8(s.v[x] + nn)))
    } else if o == 0x8 {
        alu_spec(s, x, y, n)
    } else if o == 0x9 {
        if n == 0 {
            skip_when(s, s.v[x] != s.v[y])
        } else {
            Err(Fault::UnknownInstruction)
        }
    } else if o == 0xA {
        proceed(State { i: nnn, ..s })
    } else if o == 0xB {
        jump_offset_spec(s, nnn)
    } else if o == 0xC {
        proceed(with_reg(s, x, rnd & nn))
    } else if o == 0xD {
        draw_spec(s, x, y, n as int)
    } else if o == 0xE {
        key_skip_spec(s, x, nn)
    } else {
        misc_spec(s, x, nn, start)
    }
}

} // verus!
