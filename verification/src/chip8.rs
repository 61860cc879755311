//! The virtual machine: its state, and the operations that load a program,
//! fetch and execute instructions, tick the timers and exchange signals with
//! the peripherals.
//!
//! ```text
//!    +-----------------------------------+= 0xFFF (4095) end of memory
//!    |           0x200 to 0xFFF          |
//!    |          program and data         |
//!    +-----------------------------------+= 0x200 (512) start of programs
//!    |           0x000 to 0x1FF          |
//!    |     reserved for the interpreter  |
//!    + - - - - - - - - - - - - - - - - - += 0x050 (80) end of the font
//!    |         font, '0' to 'F'          |
//!    +-----------------------------------+= 0x000 (0) start of memory
//! ```
use vstd::prelude::*;
use crate::display::{
    byte_bit, frame_bits, frame_blank, frame_fill, frame_get, frame_set, FrameBuffer,
};
use crate::drawing::{
    collides_upto, drawn_upto, lemma_draw_end, lemma_draw_row_end, lemma_draw_start,
    lemma_draw_step,
};
use crate::driver::InputMsg;
use crate::emulator::Signal;
use crate::instruction::{lemma_operands_compose, Instruction};
use crate::keypad::{key_bits, keys_blank, keys_get, keys_set, KeyPad};
use crate::random::{random_below, random_byte};
use crate::semantics::{
    advance, alu_spec, any_key_down, audible, bcd_spec, blank_display, call_spec, can_fetch,
    clear_spec, draw_spec, exec_spec, fetched_word, flag, follows, font_data, found_key,
    initial_state, jump_offset_spec, jump_spec, key_skip_spec, load_spec, loaded, misc_spec,
    next_key_down, proceed, return_spec, shift_left_spec, shift_right_spec, skip_when,
    store_spec, system_spec, ticked, wait_key_spec, with_reg, with_reg_flag, wrap8, Fault, State,
    DISPLAY_HEIGHT, DISPLAY_SIZE, DISPLAY_WIDTH, FONT_PX_HEIGHT, FONT_SIZE, FONT_START,
    NUM_DATA_REGS, NUM_KEYS, PC_STEP, RAM_SIZE, ROM_END, ROM_MAX, ROM_START,
};
use crate::stack::{stack_entries, stack_len, stack_new, stack_pop, stack_push, CallStack};

verus! {

/// The font: a sprite of five rows for each hexadecimal digit, four pixels
/// wide, in the high bits of each byte.
pub const FONT_SPRITES: [[u8; 5]; 16] = [
    [0xF0, 0x90, 0x90, 0x90, 0xF0],  // 0
    [0x20, 0x60, 0x20, 0x20, 0x70],  // 1
    [0xF0, 0x10, 0xF0, 0x80, 0xF0],  // 2
    [0xF0, 0x10, 0xF0, 0x10, 0xF0],  // 3
    [0x90, 0x90, 0xF0, 0x10, 0x10],  // 4
    [0xF0, 0x80, 0xF0, 0x10, 0xF0],  // 5
    [0xF0, 0x80, 0xF0, 0x90, 0xF0],  // 6
    [0xF0, 0x10, 0x20, 0x40, 0x40],  // 7
    [0xF0, 0x90, 0xF0, 0x90, 0xF0],  // 8
    [0xF0, 0x90, 0xF0, 0x10, 0xF0],  // 9
    [0xF0, 0x90, 0xF0, 0x90, 0x90],  // A
    [0xE0, 0x90, 0xE0, 0x90, 0xE0],  // B
    [0xF0, 0x80, 0x80, 0x80, 0xF0],  // C
    [0xE0, 0x90, 0x90, 0x90, 0xE0],  // D
    [0xF0, 0x80, 0xF0, 0x80, 0xF0],  // E
    [0xF0, 0x80, 0xF0, 0x80, 0x80],  // F
];

/// The sum of two bytes modulo 256, and 1 if it was over 255, else 0.
fn sum_with_carry(a: u8, b: u8) -> (res: (u8, u8))
    ensures
        res.0 == wrap8(a + b),
        res.1 == flag(a + b > 0xFF),
{
    let carry: bool = b > 0xFF - a;
    (a.wrapping_add(b), if carry { 1 } else { 0 })
}

/// The difference of two bytes modulo 256, and 1 if nothing was borrowed,
/// else 0.
fn diff_with_no_borrow(a: u8, b: u8) -> (res: (u8, u8))
    ensures
        res.0 == wrap8(a - b),
        res.1 == flag(a >= b),
{
    let borrow: bool = a < b;
    (a.wrapping_sub(b), if borrow { 0 } else { 1 })
}

/// The virtual machine. Its view is the [`State`] that it is in.
pub struct Chip8 {
    memory: [u8; RAM_SIZE],
    pc: u16,
    stack: CallStack,
    i_reg: u16,
    v_reg: [u8; NUM_DATA_REGS],
    display_bus: FrameBuffer,
    input_bus: KeyPad,
    delay_timer: u8,
    sound_timer: u8,
}

impl View for Chip8 {
    type V = State;

    closed spec fn view(&self) -> State {
        State {
            memory: self.memory@,
            pc: self.pc,
            stack: stack_entries(self.stack),
            i: self.i_reg,
            v: self.v_reg@,
            display: frame_bits(self.display_bus),
            keys: key_bits(self.input_bus),
            delay: self.delay_timer,
            sound: self.sound_timer,
        }
    }
}

impl Chip8 {
    /// A machine with the font loaded and nothing else: see
    /// [`initial_state`].
    pub fn new() -> (sys: Self)
        ensures
            sys@ == initial_state(),
            sys@.wf(),
    {
        let mut sys = Chip8 {
            memory: [0; RAM_SIZE],
            pc: ROM_START,
            stack: stack_new(),
            i_reg: 0,
            v_reg: [0; NUM_DATA_REGS],
            display_bus: frame_blank(),
            input_bus: keys_blank(),
            delay_timer: 0,
            sound_timer: 0,
        };
        sys.load_fonts();
        assert(sys@.memory =~= initial_state().memory);
        assert(sys@.v =~= initial_state().v);
        sys
    }

    /// Copies the font to the bottom of memory.
    fn load_fonts(&mut self)
        requires
            old(self)@.wf(),
        ensures
            final(self)@.wf(),
            forall|a: int| 0 <= a < FONT_SIZE ==> final(self)@.memory[a] == font_data()[a],
            forall|a: int|
                FONT_SIZE <= a < RAM_SIZE ==> final(self)@.memory[a] == old(self)@.memory[a],
            final(self)@ == (State { memory: final(self)@.memory, ..old(self)@ }),
    {
        let start: usize = FONT_START as usize;
        let mut i: usize = 0;
        while i < FONT_SIZE
            invariant
                i <= FONT_SIZE,
                start == FONT_START,
                self@.wf(),
                forall|a: int| 0 <= a < i ==> self@.memory[a] == font_data()[a],
                forall|a: int| i <= a < RAM_SIZE ==> self@.memory[a] == old(self)@.memory[a],
                self@ == (State { memory: self@.memory, ..old(self)@ }),
            decreases FONT_SIZE - i,
        {
            self.memory[start + i] = FONT_SPRITES[i / FONT_PX_HEIGHT][i % FONT_PX_HEIGHT];
            i += 1;
        }
    }

    /// Copies a program into memory from `ROM_START` on. A program that does
    /// not fit is refused, and memory stays as it was.
    pub fn load_rom(&mut self, data: &[u8]) -> (res: Result<(), Fault>)
        ensures
            old(self)@.wf() ==> final(self)@.wf(),
            data@.len() <= ROM_MAX ==> res == Ok::<(), Fault>(()) && final(self)@ == loaded(
                old(self)@,
                data@,
            ),
            data@.len() > ROM_MAX ==> res == Err::<(), Fault>(Fault::RomTooLarge) && final(self)@
                == old(self)@,
    {
        let rom_size: usize = data.len();
        if rom_size > ROM_MAX {
            return Err(Fault::RomTooLarge);
        }
        let start: usize = ROM_START as usize;
        let mut k: usize = 0;
        while k < rom_size
            invariant
                k <= rom_size,
                rom_size == data@.len(),
                rom_size <= ROM_MAX,
                start == ROM_START,
                forall|a: int| start <= a < start + k ==> self@.memory[a] == data@[a - start],
                forall|a: int|
                    0 <= a < RAM_SIZE && !(start <= a < start + k) ==> self@.memory[a] == old(
                        self,
                    )@.memory[a],
                self@ == (State { memory: self@.memory, ..old(self)@ }),
            decreases rom_size - k,
        {
            self.memory[start + k] = data[k];
            k += 1;
        }
        assert(self@.memory =~= loaded(old(self)@, data@).memory);
        Ok(())
    }

    /// Moves both timers one tick towards zero, and says whether a tone
    /// sounds after it.
    pub fn tick_timers(&mut self) -> (signal: Signal)
        ensures
            old(self)@.wf() ==> final(self)@.wf(),
            final(self)@ == ticked(old(self)@),
            signal == if audible(final(self)@) { Signal::SoundAudio } else { Signal::Idle },
    {
        if self.delay_timer > 0 {
            self.delay_timer -= 1;
        }
        if self.sound_timer > 0 {
            self.sound_timer -= 1;
        }
        if self.sound_timer > 0 {
            Signal::SoundAudio
        } else {
            Signal::Idle
        }
    }

    /// Reads the instruction at the program counter, high byte first. The
    /// counter must leave room for two bytes within the program's memory.
    pub fn fetch_instruction(&self) -> (res: Result<Instruction, Fault>)
        ensures
            can_fetch(self@) ==> res.is_ok() && res.unwrap()@ == fetched_word(self@),
            !can_fetch(self@) ==> res == Err::<Instruction, Fault>(Fault::ProgramCounter),
    {
        if self.pc < ROM_START || self.pc >= ROM_END {
            return Err(Fault::ProgramCounter);
        }
        let hb: u8 = self.memory[self.pc as usize];
        let lb: u8 = self.memory[(self.pc + 1) as usize];
        Ok(Instruction::from_bytes([lb, hb]))
    }

    /// Takes the key states that a peripheral reports. With `None` the keys
    /// stay as they are.
    pub fn receive_input(&mut self, msg: Option<InputMsg>)
        requires
            old(self)@.wf(),
        ensures
            final(self)@.wf(),
            final(self)@ == (match msg {
                Some(input) => (State { keys: input@, ..old(self)@ }),
                None => old(self)@,
            }),
    {
        if let Some(input) = msg {
            let mut k: usize = 0;
            while k < NUM_KEYS
                invariant
                    k <= NUM_KEYS,
                    self@.wf(),
                    forall|j: int| 0 <= j < k ==> self@.keys[j] == input@[j],
                    self@ == (State { keys: self@.keys, ..old(self)@ }),
                decreases NUM_KEYS - k,
            {
                keys_set(&mut self.input_bus, k, input[k]);
                k += 1;
            }
            assert(self@.keys =~= input@);
        }
    }

    /// Whether a tone sounds.
    pub fn transmit_audio(&self) -> (tone: bool)
        ensures
            tone == audible(self@),
    {
        self.sound_timer > 0
    }

    /// The frame: 2048 pixels, row by row.
    pub fn transmit_frame(&self) -> (frame: Vec<bool>)
        requires
            self@.wf(),
        ensures
            frame@ == self@.display,
    {
        let mut frame: Vec<bool> = Vec::with_capacity(DISPLAY_SIZE);
        let mut p: usize = 0;
        while p < DISPLAY_SIZE
            invariant
                p <= DISPLAY_SIZE,
                self@.wf(),
                frame@.len() == p,
                forall|q: int| 0 <= q < p ==> frame@[q] == self@.display[q],
            decreases DISPLAY_SIZE - p,
        {
            frame.push(frame_get(&self.display_bus, p));
            p += 1;
        }
        assert(frame@ =~= self@.display);
        frame
    }

    /// Whether the program counter can move on by `by` bytes.
    fn has_room(&self, by: u16) -> (room: bool)
        requires
            by <= 2 * PC_STEP,
        ensures
            room == (self@.pc + by <= u16::MAX),
    {
        self.pc <= u16::MAX - by
    }

    /// Moves the program counter on by `by` bytes and raises `signal`.
    fn advance(&mut self, by: u16, signal: Signal) -> (res: Result<Signal, Fault>)
        requires
            old(self)@.wf(),
            by <= 2 * PC_STEP,
        ensures
            final(self)@.wf(),
            follows(old(self)@, advance(old(self)@, by as int, signal), final(self)@, res),
    {
        if !self.has_room(by) {
            return Err(Fault::ProgramCounter);
        }
        self.pc += by;
        Ok(signal)
    }

    /// Skips the next instruction if `cond` holds.
    fn skip_when(&mut self, cond: bool) -> (res: Result<Signal, Fault>)
        requires
            old(self)@.wf(),
        ensures
            final(self)@.wf(),
            follows(old(self)@, skip_when(old(self)@, cond), final(self)@, res),
    {
        if cond {
            self.advance(2 * PC_STEP, Signal::Idle)
        } else {
            self.advance(PC_STEP, Signal::Idle)
        }
    }

    /// Sets `Vx` and moves on.
    fn set_reg(&mut self, x: u8, value: u8) -> (res: Result<Signal, Fault>)
        requires
            old(self)@.wf(),
            x < NUM_DATA_REGS,
        ensures
            final(self)@.wf(),
            follows(old(self)@, proceed(with_reg(old(self)@, x as int, value)), final(self)@, res),
    {
        if !self.has_room(PC_STEP) {
            return Err(Fault::ProgramCounter);
        }
        self.v_reg[x as usize] = value;
        self.pc += PC_STEP;
        Ok(Signal::Idle)
    }

    /// Sets `Vx`, then `VF`, and moves on.
    fn set_reg_flag(&mut self, x: u8, value: u8, f: u8) -> (res: Result<Signal, Fault>)
        requires
            old(self)@.wf(),
            x < NUM_DATA_REGS,
        ensures
            final(self)@.wf(),
            follows(
                old(self)@,
                proceed(with_reg_flag(old(self)@, x as int, value, f)),
                final(self)@,
                res,
            ),
    {
        if !self.has_room(PC_STEP) {
            return Err(Fault::ProgramCounter);
        }
        self.v_reg[x as usize] = value;
        self.v_reg[0xF] = f;
        self.pc += PC_STEP;
        Ok(Signal::Idle)
    }

    /// `00E0`: clears the frame.
    fn clear(&mut self) -> (res: Result<Signal, Fault>)
        requires
            old(self)@.wf(),
        ensures
            final(self)@.wf(),
            follows(old(self)@, clear_spec(old(self)@), final(self)@, res),
    {
        if !self.has_room(PC_STEP) {
            return Err(Fault::ProgramCounter);
        }
        frame_fill(&mut self.display_bus, false);
        self.pc += PC_STEP;
        assert(self@.display =~= blank_display());
        Ok(Signal::RefreshDisplay)
    }

    /// `0nnn`: clears the frame, returns from a call, or does nothing.
    fn system(&mut self, x: u8, y: u8, n: u8) -> (res: Result<Signal, Fault>)
        requires
            old(self)@.wf(),
        ensures
            final(self)@.wf(),
            follows(old(self)@, system_spec(old(self)@, x as int, y as int, n), final(self)@, res),
    {
        match (x, y, n) {
            // 00E0 - CLRS
            (0x0, 0xE, 0x0) => self.clear(),
            // 00EE - RET
            (0x0, 0xE, 0xE) => self.ret(),
            // 0NNN - SYSC addr (ignored by modern interpreters)
            (_, _, _) => self.advance(PC_STEP, Signal::Idle),
        }
    }

    /// `1nnn`: jumps to `addr`.
    fn jump(&mut self, addr: u16) -> (res: Result<Signal, Fault>)
        requires
            old(self)@.wf(),
        ensures
            final(self)@.wf(),
            follows(old(self)@, jump_spec(old(self)@, addr), final(self)@, res),
    {
        self.pc = addr;
        Ok(Signal::Idle)
    }

    /// `2nnn`: calls the subroutine at `addr`.
    fn call(&mut self, addr: u16) -> (res: Result<Signal, Fault>)
        requires
            old(self)@.wf(),
        ensures
            final(self)@.wf(),
            follows(old(self)@, call_spec(old(self)@, addr), final(self)@, res),
    {
        stack_push(&mut self.stack, self.pc);
        self.pc = addr;
        Ok(Signal::Idle)
    }

    /// `Annn`: sets `I` to `addr`.
    fn set_index(&mut self, addr: u16) -> (res: Result<Signal, Fault>)
        requires
            old(self)@.wf(),
        ensures
            final(self)@.wf(),
            follows(old(self)@, proceed(State { i: addr, ..old(self)@ }), final(self)@, res),
    {
        if !self.has_room(PC_STEP) {
            return Err(Fault::ProgramCounter);
        }
        self.i_reg = addr;
        self.pc += PC_STEP;
        Ok(Signal::Idle)
    }

    /// `Bnnn`: jumps to `addr` plus `V0`.
    fn jump_offset(&mut self, addr: u16) -> (res: Result<Signal, Fault>)
        requires
            old(self)@.wf(),
            addr < 0x1000,
        ensures
            final(self)@.wf(),
            follows(old(self)@, jump_offset_spec(old(self)@, addr), final(self)@, res),
    {
        self.pc = addr + (self.v_reg[0x0] as u16);
        Ok(Signal::Idle)
    }

    /// `00EE`: returns to the address on top of the stack.
    fn ret(&mut self) -> (res: Result<Signal, Fault>)
        requires
            old(self)@.wf(),
        ensures
            final(self)@.wf(),
            follows(old(self)@, return_spec(old(self)@), final(self)@, res),
    {
        match stack_pop(&mut self.stack) {
            Some(ret_addr) => {
                self.pc = ret_addr;
                Ok(Signal::Idle)
            },
            None => Err(Fault::StackUnderflow),
        }
    }

    /// `8xy6`: puts the lowest bit of `Vx` into `VF`, then shifts `Vx` right.
    fn shift_right(&mut self, x: u8) -> (res: Result<Signal, Fault>)
        requires
            old(self)@.wf(),
            x < NUM_DATA_REGS,
        ensures
            final(self)@.wf(),
            follows(old(self)@, shift_right_spec(old(self)@, x as int), final(self)@, res),
    {
        if !self.has_room(PC_STEP) {
            return Err(Fault::ProgramCounter);
        }
        let vx: u8 = self.v_reg[x as usize];
        assert(vx & 0x1 == vx % 2) by (bit_vector);
        self.v_reg[0xF] = vx & 0x1;
        let b: u8 = self.v_reg[x as usize];
        assert(b >> 1 == b / 2) by (bit_vector);
        self.v_reg[x as usize] = b >> 1;
        self.pc += PC_STEP;
        Ok(Signal::Idle)
    }

    /// `8xyE`: puts the highest bit of `Vx` into `VF`, then shifts `Vx` left.
    fn shift_left(&mut self, x: u8) -> (res: Result<Signal, Fault>)
        requires
            old(self)@.wf(),
            x < NUM_DATA_REGS,
        ensures
            final(self)@.wf(),
            follows(old(self)@, shift_left_spec(old(self)@, x as int), final(self)@, res),
    {
        if !self.has_room(PC_STEP) {
            return Err(Fault::ProgramCounter);
        }
        let vx: u8 = self.v_reg[x as usize];
        assert((vx >> 7) & 0x1 == vx / 0x80) by (bit_vector);
        self.v_reg[0xF] = (vx >> 7) & 0x1;
        let b: u8 = self.v_reg[x as usize];
        assert(b << 1 == (b * 2) % 0x100) by (bit_vector);
        self.v_reg[x as usize] = b << 1;
        self.pc += PC_STEP;
        Ok(Signal::Idle)
    }

    /// `8xyn`: the operations on two registers.
    #[verifier::rlimit(50)]
    fn alu(&mut self, x: u8, y: u8, n: u8) -> (res: Result<Signal, Fault>)
        requires
            old(self)@.wf(),
            x < NUM_DATA_REGS,
            y < NUM_DATA_REGS,
        ensures
            final(self)@.wf(),
            follows(old(self)@, alu_spec(old(self)@, x as int, y as int, n), final(self)@, res),
    {
        let vx: u8 = self.v_reg[x as usize];
        let vy: u8 = self.v_reg[y as usize];
        match n {
            // 8XY0 - LD Vx, Vy
            0x0 => self.set_reg(x, vy),
            // 8XY1 - OR Vx, Vy
            0x1 => self.set_reg(x, vx | vy),
            // 8XY2 - AND Vx, Vy
            0x2 => self.set_reg(x, vx & vy),
            // 8XY3 - XOR Vx, Vy
            0x3 => self.set_reg(x, vx ^ vy),
            // 8XY4 - ADD Vx, Vy; set VF
            0x4 => {
                let (sum, carry) = sum_with_carry(vx, vy);
                self.set_reg_flag(x, sum, carry)
            },
            // 8XY5 - SUB Vx, Vy; set VF
            0x5 => {
                let (diff, no_borrow) = diff_with_no_borrow(vx, vy);
                self.set_reg_flag(x, diff, no_borrow)
            },
            // 8XY6 - SHR Vx; set VF
            0x6 => self.shift_right(x),
            // 8XY7 - SUBN Vx, Vy; set VF
            0x7 => {
                let (diff, no_borrow) = diff_with_no_borrow(vy, vx);
                self.set_reg_flag(x, diff, no_borrow)
            },
            // 8XYE - SHL Vx; set VF
            0xE => self.shift_left(x),
            _ => Err(Fault::UnknownInstruction),
        }
    }

    /// `Ex9E` and `ExA1`: skips on the state of the key that `Vx` names.
    fn key_skip(&mut self, x: u8, nn: u8) -> (res: Result<Signal, Fault>)
        requires
            old(self)@.wf(),
            x < NUM_DATA_REGS,
        ensures
            final(self)@.wf(),
            follows(old(self)@, key_skip_spec(old(self)@, x as int, nn), final(self)@, res),
    {
        if nn != 0x9E && nn != 0xA1 {
            return Err(Fault::UnknownInstruction);
        }
        let key: usize = self.v_reg[x as usize] as usize;
        if key >= NUM_KEYS {
            return Err(Fault::Key);
        }
        let key_down: bool = keys_get(&self.input_bus, key);
        self.skip_when(key_down == (nn == 0x9E))
    }

    /// The key that a wait for a key finds when it starts to look at
    /// `start`, if any key is down.
    fn find_key(&self, start: usize) -> (found: Option<u8>)
        requires
            self@.wf(),
        ensures
            any_key_down(self@.keys) ==> found == Some(found_key(self@.keys, start as int) as u8),
            !any_key_down(self@.keys) ==> found.is_none(),
            found.is_some() ==> found.unwrap() < NUM_KEYS,
    {
        let ghost keys = self@.keys;
        let mut k: usize = start;
        while k < NUM_KEYS
            invariant
                start <= k,
                self@.wf(),
                keys == self@.keys,
                next_key_down(keys, start as int) == next_key_down(keys, k as int),
            decreases NUM_KEYS - k,
        {
            if keys_get(&self.input_bus, k) {
                assert(keys[k as int]);
                return Some(k as u8);
            }
            k += 1;
        }
        assert(next_key_down(keys, k as int) == NUM_KEYS);
        let mut k: usize = 0;
        while k < NUM_KEYS
            invariant
                k <= NUM_KEYS,
                self@.wf(),
                keys == self@.keys,
                next_key_down(keys, start as int) == NUM_KEYS,
                next_key_down(keys, 0) == next_key_down(keys, k as int),
                forall|j: int| 0 <= j < k ==> !keys[j],
            decreases NUM_KEYS - k,
        {
            if keys_get(&self.input_bus, k) {
                assert(keys[k as int]);
                return Some(k as u8);
            }
            k += 1;
        }
        None
    }

    /// `Fx0A`: takes the index of a key that is down into `Vx` and moves on,
    /// or changes nothing while no key is down.
    fn wait_key(&mut self, x: u8, start: usize) -> (res: Result<Signal, Fault>)
        requires
            old(self)@.wf(),
            x < NUM_DATA_REGS,
        ensures
            final(self)@.wf(),
            follows(
                old(self)@,
                wait_key_spec(old(self)@, x as int, start as int),
                final(self)@,
                res,
            ),
    {
        match self.find_key(start) {
            Some(k_idx) => self.set_reg(x, k_idx),
            // No key is down: the same instruction runs again in the next cycle.
            None => Ok(Signal::Idle),
        }
    }

    /// `Fx33`: writes the three decimal digits of `Vx` to memory at `I`.
    fn bcd(&mut self, x: u8) -> (res: Result<Signal, Fault>)
        requires
            old(self)@.wf(),
            x < NUM_DATA_REGS,
        ensures
            final(self)@.wf(),
            follows(old(self)@, bcd_spec(old(self)@, x as int), final(self)@, res),
    {
        let base: usize = self.i_reg as usize;
        if base + 2 >= RAM_SIZE {
            return Err(Fault::Address);
        }
        if !self.has_room(PC_STEP) {
            return Err(Fault::ProgramCounter);
        }
        let vx: u8 = self.v_reg[x as usize];
        self.memory[base] = vx / 100;
        self.memory[base + 1] = (vx / 10) % 10;
        self.memory[base + 2] = vx % 10;
        self.pc += PC_STEP;
        Ok(Signal::Idle)
    }

    /// `Fx55`: writes `V0` to `Vx` to memory from `I` on.
    fn store_regs(&mut self, x: u8) -> (res: Result<Signal, Fault>)
        requires
            old(self)@.wf(),
            x < NUM_DATA_REGS,
        ensures
            final(self)@.wf(),
            follows(old(self)@, store_spec(old(self)@, x as int), final(self)@, res),
    {
        let base: usize = self.i_reg as usize;
        if base + x as usize >= RAM_SIZE {
            return Err(Fault::Address);
        }
        if !self.has_room(PC_STEP) {
            return Err(Fault::ProgramCounter);
        }
        let mut offset: usize = 0;
        while offset <= x as usize
            invariant
                offset <= x + 1,
                x < NUM_DATA_REGS,
                base == old(self)@.i,
                base + x < RAM_SIZE,
                self@.wf(),
                self@ == (State { memory: self@.memory, ..old(self)@ }),
                forall|a: int|
                    base <= a < base + offset ==> self@.memory[a] == old(self)@.v[a - base],
                forall|a: int|
                    0 <= a < RAM_SIZE && !(base <= a < base + offset) ==> self@.memory[a] == old(
                        self,
                    )@.memory[a],
            decreases x + 1 - offset,
        {
            self.memory[base + offset] = self.v_reg[offset];
            offset += 1;
        }
        self.pc += PC_STEP;
        assert(self@.memory =~= store_spec(old(self)@, x as int).unwrap().0.memory);
        Ok(Signal::Idle)
    }

    /// `Fx65`: reads `V0` to `Vx` from memory from `I` on.
    fn load_regs(&mut self, x: u8) -> (res: Result<Signal, Fault>)
        requires
            old(self)@.wf(),
            x < NUM_DATA_REGS,
        ensures
            final(self)@.wf(),
            follows(old(self)@, load_spec(old(self)@, x as int), final(self)@, res),
    {
        let base: usize = self.i_reg as usize;
        if base + x as usize >= RAM_SIZE {
            return Err(Fault::Address);
        }
        if !self.has_room(PC_STEP) {
            return Err(Fault::ProgramCounter);
        }
        let mut offset: usize = 0;
        while offset <= x as usize
            invariant
                offset <= x + 1,
                x < NUM_DATA_REGS,
                base == old(self)@.i,
                base + x < RAM_SIZE,
                self@.wf(),
                self@ == (State { v: self@.v, ..old(self)@ }),
                forall|r: int| 0 <= r < offset ==> self@.v[r] == old(self)@.memory[base + r],
                forall|r: int| offset <= r < NUM_DATA_REGS ==> self@.v[r] == old(self)@.v[r],
            decreases x + 1 - offset,
        {
            self.v_reg[offset] = self.memory[base + offset];
            offset += 1;
        }
        self.pc += PC_STEP;
        assert(self@.v =~= load_spec(old(self)@, x as int).unwrap().0.v);
        Ok(Signal::Idle)
    }

    /// `Fxnn`: timers, the wait for a key, and the operations on `I`.
    #[verifier::rlimit(50)]
    fn misc(&mut self, x: u8, nn: u8, start: usize) -> (res: Result<Signal, Fault>)
        requires
            old(self)@.wf(),
            x < NUM_DATA_REGS,
        ensures
            final(self)@.wf(),
            follows(
                old(self)@,
                misc_spec(old(self)@, x as int, nn, start as int),
                final(self)@,
                res,
            ),
    {
        let vx: u8 = self.v_reg[x as usize];
        match nn {
            // FX07 - LD Vx, DT
            0x07 => {
                let dt: u8 = self.delay_timer;
                self.set_reg(x, dt)
            },
            // FX0A - LD Vx, K
            0x0A => self.wait_key(x, start),
            // FX15 - LD DT, Vx
            0x15 => {
                if !self.has_room(PC_STEP) {
                    return Err(Fault::ProgramCounter);
                }
                self.delay_timer = vx;
                self.pc += PC_STEP;
                Ok(Signal::Idle)
            },
            // FX18 - LD ST, Vx
            0x18 => {
                if !self.has_room(PC_STEP) {
                    return Err(Fault::ProgramCounter);
                }
                self.sound_timer = vx;
                self.pc += PC_STEP;
                Ok(Signal::Idle)
            },
            // FX1E - ADD I, Vx
            0x1E => {
                if !self.has_room(PC_STEP) {
                    return Err(Fault::ProgramCounter);
                }
                self.i_reg = self.i_reg.wrapping_add(vx as u16);
                self.pc += PC_STEP;
                Ok(Signal::Idle)
            },
            // FX29 - LEA I, F(Vx)
            0x29 => {
                if !self.has_room(PC_STEP) {
                    return Err(Fault::ProgramCounter);
                }
                // The sprite for the digit in Vx starts at FONT_START + Vx * bytes per sprite.
                self.i_reg = FONT_START + (vx as u16) * (FONT_PX_HEIGHT as u16);
                self.pc += PC_STEP;
                Ok(Signal::Idle)
            },
            // FX33 - LD [I], D2(Vx); [I + 1], D1(Vx); [I + 2], D0(Vx)
            0x33 => self.bcd(x),
            // FX55 - LD [I], V0 .. [I + x], Vx
            0x55 => self.store_regs(x),
            // FX65 - LD V0, [I] .. Vx, [I + x]
            0x65 => self.load_regs(x),
            _ => Err(Fault::UnknownInstruction),
        }
    }

    /// `Dxyn`: draws the sprite of `n` rows at `I` with its top left corner
    /// at `(Vx, Vy)`, and sets `VF` if a pixel went off.
    #[verifier::rlimit(50)]
    fn draw(&mut self, x: u8, y: u8, n: u8) -> (res: Result<Signal, Fault>)
        requires
            old(self)@.wf(),
            x < NUM_DATA_REGS,
            y < NUM_DATA_REGS,
            n < 0x10,
        ensures
            final(self)@.wf(),
            follows(
                old(self)@,
                draw_spec(old(self)@, x as int, y as int, n as int),
                final(self)@,
                res,
            ),
    {
        let base: usize = self.i_reg as usize;
        let rows: usize = n as usize;
        if base + rows > RAM_SIZE {
            return Err(Fault::Address);
        }
        if !self.has_room(PC_STEP) {
            return Err(Fault::ProgramCounter);
        }
        let left: usize = self.v_reg[x as usize] as usize;
        let top: usize = self.v_reg[y as usize] as usize;
        let ghost pre = self@;
        let ghost (xi, yi, ni) = (x as int, y as int, n as int);
        let mut hit: bool = false;
        let mut dy: usize = 0;
        proof {
            lemma_draw_start(pre, xi, yi, ni);
        }
        while dy < rows
            invariant
                dy <= rows == ni < 0x10,
                0 <= xi < 16,
                0 <= yi < 16,
                pre.wf(),
                base == pre.i,
                base + rows <= RAM_SIZE,
                left == pre.v[xi],
                top == pre.v[yi],
                self@ == (State { display: drawn_upto(pre, xi, yi, ni, dy as int, 0), ..pre }),
                hit == collides_upto(pre, xi, yi, ni, dy as int, 0),
            decreases rows - dy,
        {
            let byte: u8 = self.memory[base + dy];
            let row: usize = (top + dy) % DISPLAY_HEIGHT;
            let mut dx: usize = 0;
            while dx < 8
                invariant
                    dx <= 8,
                    dy < rows == ni < 0x10,
                    0 <= xi < 16,
                    0 <= yi < 16,
                    pre.wf(),
                    left == pre.v[xi],
                    top == pre.v[yi],
                    byte == pre.memory[pre.i + dy],
                    row == (top + dy) % 32,
                    self@ == (State {
                        display: drawn_upto(pre, xi, yi, ni, dy as int, dx as int),
                        ..pre
                    }),
                    hit == collides_upto(pre, xi, yi, ni, dy as int, dx as int),
                decreases 8 - dx,
            {
                proof {
                    lemma_draw_step(pre, xi, yi, ni, dy as int, dx as int);
                }
                let bit: bool = byte_bit(byte, dx);
                let col: usize = (left + dx) % DISPLAY_WIDTH;
                let idx: usize = row * DISPLAY_WIDTH + col;
                let display_bit: bool = frame_get(&self.display_bus, idx);
                // A pixel goes off where a set bit of the sprite meets a pixel that is on.
                if display_bit && bit {
                    hit = true;
                }
                frame_set(&mut self.display_bus, idx, display_bit != bit);
                dx += 1;
            }
            proof {
                lemma_draw_row_end(pre, xi, yi, ni, dy as int);
            }
            dy += 1;
        }
        proof {
            lemma_draw_end(pre, xi, yi, ni);
        }
        self.v_reg[0xF] = if hit { 1 } else { 0 };
        self.pc += PC_STEP;
        Ok(Signal::RefreshDisplay)
    }

    /// Executes one instruction, with `rnd` as the random byte of `Cxnn` and
    /// `start` as the key at which `Fx0A` starts to look for a key that is
    /// down. The state and the result are those of [`exec_spec`]; on a fault
    /// the machine stays as it was.
    #[verifier::rlimit(50)]
    pub fn exec_with(&mut self, instr: Instruction, rnd: u8, start: usize) -> (res: Result<
        Signal,
        Fault,
    >)
        requires
            old(self)@.wf(),
        ensures
            final(self)@.wf(),
            follows(
                old(self)@,
                exec_spec(old(self)@, instr@, rnd, start as int),
                final(self)@,
                res,
            ),
    {
        proof {
            lemma_operands_compose(instr@);
        }
        // Decode and execute the instruction
        match (instr.get_o(), instr.get_x(), instr.get_y(), instr.get_n()) {
            // 00E0 - CLRS, 00EE - RET, 0NNN - SYSC addr
            (0x0, x, y, n) => self.system(x, y, n),
            // 1NNN - JMP addr
            (0x1, _, _, _) => self.jump(instr.get_nnn()),
            // 2NNN - CALL addr
            (0x2, _, _, _) => self.call(instr.get_nnn()),
            // 3XNN - SKE Vx, byte
            (0x3, x, _, _) => {
                let cond: bool = self.v_reg[x as usize] == instr.get_nn();
                self.skip_when(cond)
            },
            // 4XNN - SKNE Vx, byte
            (0x4, x, _, _) => {
                let cond: bool = self.v_reg[x as usize] != instr.get_nn();
                self.skip_when(cond)
            },
            // 5XY0 - SKE Vx, Vy
            (0x5, x, y, 0x0) => {
                let cond: bool = self.v_reg[x as usize] == self.v_reg[y as usize];
                self.skip_when(cond)
            },
            // 6XNN - LD Vx, byte
            (0x6, x, _, _) => self.set_reg(x, instr.get_nn()),
            // 7XNN - ADD Vx, byte
            (0x7, x, _, _) => {
                let (sum, _) = sum_with_carry(self.v_reg[x as usize], instr.get_nn());
                self.set_reg(x, sum)
            },
            // 8XYN - register to register
            (0x8, x, y, n) => self.alu(x, y, n),
            // 9XY0 - SKNE Vx, Vy
            (0x9, x, y, 0x0) => {
                let cond: bool = self.v_reg[x as usize] != self.v_reg[y as usize];
                self.skip_when(cond)
            },
            // ANNN - LD I, addr
            (0xA, _, _, _) => self.set_index(instr.get_nnn()),
            // BNNN - JMP V0, addr
            (0xB, _, _, _) => self.jump_offset(instr.get_nnn()),
            // CXNN - RAND Vx, byte
            (0xC, x, _, _) => self.set_reg(x, rnd & instr.get_nn()),
            // DXYN - DRAW Vx, Vy, nibble; set VF
            (0xD, x, y, n) => self.draw(x, y, n),
            // EX9E - SKP Vx, EXA1 - SKNP Vx
            (0xE, x, _, _) => self.key_skip(x, instr.get_nn()),
            // FXNN - timers, keys and I
            (0xF, x, _, _) => self.misc(x, instr.get_nn(), start),
            (_, _, _, _) => Err(Fault::UnknownInstruction),
        }
    }

    /// Executes one instruction. `Cxnn` draws its random byte, and `Fx0A` the
    /// key at which it starts to look, from the random number generator; the
    /// state and the result are those of [`exec_spec`] for the values drawn.
    pub fn exec_instruction(&mut self, instr: Instruction) -> (res: Result<Signal, Fault>)
        requires
            old(self)@.wf(),
        ensures
            final(self)@.wf(),
            exists|rnd: u8, start: int|
                0 <= start < NUM_KEYS && follows(
                    old(self)@,
                    #[trigger] exec_spec(old(self)@, instr@, rnd, start),
                    final(self)@,
                    res,
                ),
    {
        let o: u8 = instr.get_o();
        if o == 0xC {
            let rnd: u8 = random_byte();
            self.exec_with(instr, rnd, 0)
        } else if o == 0xF && instr.get_nn() == 0x0A {
            // Start at a random key, so that no key has precedence over
            // another when both are down.
            let start: usize = random_below(NUM_KEYS);
            self.exec_with(instr, 0, start)
        } else {
            self.exec_with(instr, 0, 0)
        }
    }

    /// The program counter.
    pub fn pc(&self) -> (pc: u16)
        ensures
            pc == self@.pc,
    {
        self.pc
    }

    /// The address register `I`.
    pub fn i_reg(&self) -> (i: u16)
        ensures
            i == self@.i,
    {
        self.i_reg
    }

    /// The general registers `V0` to `VF`.
    pub fn v_reg(&self) -> (v: [u8; NUM_DATA_REGS])
        ensures
            v@ == self@.v,
    {
        self.v_reg
    }

    /// The memory.
    pub fn memory(&self) -> (memory: &[u8; RAM_SIZE])
        ensures
            memory@ == self@.memory,
    {
        &self.memory
    }

    /// The number of return addresses on the call stack.
    pub fn stack_depth(&self) -> (depth: usize)
        ensures
            depth == self@.stack.len(),
    {
        stack_len(&self.stack)
    }

    /// The delay timer.
    pub fn delay_timer(&self) -> (delay: u8)
        ensures
            delay == self@.delay,
    {
        self.delay_timer
    }

    /// The sound timer.
    pub fn sound_timer(&self) -> (sound: u8)
        ensures
            sound == self@.sound,
    {
        self.sound_timer
    }
}

} // verus!
