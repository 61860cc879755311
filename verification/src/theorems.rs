//! What follows from the semantics: facts about single instructions and about
//! runs of them, each proved from the definitions in [`crate::semantics`].
use vstd::prelude::*;
use crate::emulator::{
    cycle_nanos_spec, idle_nanos_spec, settled, timer_due, turn_spec, Host, Signal,
    TIMER_PERIOD_MS,
};
use crate::instruction::{lemma_operands_compose, word_n, word_nn, word_o, word_x, word_y};
use crate::semantics::{
    any_key_down, audible, collides, exec_spec, flag, found_key, next_key_down, sprite_covers,
    ticked, ticked_times, Fault, State, DISPLAY_SIZE, NUM_KEYS, PC_STEP,
};

verus! {

/// An instruction leaves every part of the machine at its size.
#[verifier::rlimit(50)]
pub proof fn lemma_exec_keeps_wf(s: State, w: u16, rnd: u8, start: int)
    requires
        s.wf(),
    ensures
        exec_spec(s, w, rnd, start) matches Ok((t, _)) ==> t.wf(),
{
    lemma_operands_compose(w);
    if word_o(w) == 0xF && word_nn(w) == 0x0A && any_key_down(s.keys) {
        lemma_found_key_is_down(s.keys, start);
    }
}

/// Only `Cxnn` and `Fx0A` read the random values: what any other
/// instruction does is decided by the machine's state alone.
#[verifier::rlimit(50)]
pub proof fn lemma_exec_is_deterministic(
    s: State,
    w: u16,
    rnd1: u8,
    start1: int,
    rnd2: u8,
    start2: int,
)
    requires
        word_o(w) != 0xC,
        !(word_o(w) == 0xF && word_nn(w) == 0x0A),
    ensures
        exec_spec(s, w, rnd1, start1) == exec_spec(s, w, rnd2, start2),
{
}

/// `7xnn` adds modulo 256 and touches no register but `Vx`: no flag is set.
/// It fails only where the program counter cannot advance.
#[verifier::rlimit(50)]
pub proof fn lemma_add_immediate_wraps(s: State, w: u16, rnd: u8, start: int)
    requires
        s.wf(),
        word_o(w) == 0x7,
    ensures
        match exec_spec(s, w, rnd, start) {
            Ok((t, signal)) => {
                &&& t.v[word_x(w) as int] == (s.v[word_x(w) as int] + word_nn(w)) % 0x100
                &&& forall|r: int| 0 <= r < 16 && r != word_x(w) ==> t.v[r] == s.v[r]
                &&& t == (State { v: t.v, pc: (s.pc + PC_STEP) as u16, ..s })
                &&& signal == Signal::Idle
            },
            Err(fault) => fault == Fault::ProgramCounter && s.pc + PC_STEP > u16::MAX,
        },
{
}

/// `8xy4` leaves 1 in `VF` if the sum of the two registers is over 255, and
/// 0 if it is not. Any other `Vx` takes the sum modulo 256.
#[verifier::rlimit(50)]
pub proof fn lemma_add_sets_carry(s: State, w: u16, rnd: u8, start: int)
    requires
        s.wf(),
        word_o(w) == 0x8,
        word_n(w) == 0x4,
    ensures
        match exec_spec(s, w, rnd, start) {
            Ok((t, signal)) => {
                let sum = s.v[word_x(w) as int] + s.v[word_y(w) as int];
                &&& t.v[0xF] == flag(sum > 0xFF)
                &&& word_x(w) != 0xF ==> t.v[word_x(w) as int] == sum % 0x100
                &&& forall|r: int|
                    0 <= r < 0xF && r != word_x(w) ==> t.v[r] == s.v[r]
            },
            Err(fault) => fault == Fault::ProgramCounter && s.pc + PC_STEP > u16::MAX,
        },
{
}

/// `8xy5` leaves 1 in `VF` if nothing was borrowed, that is if `Vx` was at
/// least `Vy`, and 0 if not. Any other `Vx` takes the difference modulo 256.
#[verifier::rlimit(50)]
pub proof fn lemma_sub_sets_no_borrow(s: State, w: u16, rnd: u8, start: int)
    requires
        s.wf(),
        word_o(w) == 0x8,
        word_n(w) == 0x5,
    ensures
        match exec_spec(s, w, rnd, start) {
            Ok((t, signal)) => {
                let vx = s.v[word_x(w) as int];
                let vy = s.v[word_y(w) as int];
                &&& t.v[0xF] == flag(vx >= vy)
                &&& word_x(w) != 0xF ==> t.v[word_x(w) as int] == (vx - vy) % 0x100
                &&& forall|r: int|
                    0 <= r < 0xF && r != word_x(w) ==> t.v[r] == s.v[r]
            },
            Err(fault) => fault == Fault::ProgramCounter && s.pc + PC_STEP > u16::MAX,
        },
{
}

/// After `00E0` the frame has 2048 pixels, all of them off, and the host is
/// told to show it.
pub proof fn lemma_clear_blanks_frame(s: State, rnd: u8, start: int)
    requires
        s.wf(),
    ensures
        match exec_spec(s, 0x00E0, rnd, start) {
            Ok((t, signal)) => {
                &&& t.display.len() == DISPLAY_SIZE
                &&& forall|p: int| 0 <= p < DISPLAY_SIZE ==> !t.display[p]
                &&& signal == Signal::RefreshDisplay
            },
            Err(fault) => fault == Fault::ProgramCounter && s.pc + PC_STEP > u16::MAX,
        },
{
}

/// Drawing a sprite a second time at the same place undoes the first
/// drawing: the frame is as it was. The second drawing leaves 1 in `VF` if
/// and only if the sprite has a set bit on a pixel that was off at first.
///
/// `t1` and `t2` are the states after the first and the second `Dxyn`. The
/// place is the same where the first drawing did not change `Vx` or `Vy`,
/// which it can only by writing `VF`.
#[verifier::rlimit(50)]
pub proof fn lemma_draw_twice_restores(
    s: State,
    w: u16,
    t1: State,
    t2: State,
    rnd1: u8,
    start1: int,
    rnd2: u8,
    start2: int,
)
    requires
        s.wf(),
        word_o(w) == 0xD,
        exec_spec(s, w, rnd1, start1) == Ok::<(State, Signal), Fault>(
            (t1, Signal::RefreshDisplay),
        ),
        exec_spec(t1, w, rnd2, start2) == Ok::<(State, Signal), Fault>(
            (t2, Signal::RefreshDisplay),
        ),
        t1.v[word_x(w) as int] == s.v[word_x(w) as int],
        t1.v[word_y(w) as int] == s.v[word_y(w) as int],
    ensures
        t2.display == s.display,
        t2.v[0xF] == flag(
            exists|p: int|
                0 <= p < DISPLAY_SIZE && !s.display[p] && sprite_covers(
                    s,
                    word_x(w) as int,
                    word_y(w) as int,
                    word_n(w) as int,
                    p,
                ),
        ),
{
    let x = word_x(w) as int;
    let y = word_y(w) as int;
    let n = word_n(w) as int;
    assert forall|p: int| 0 <= p < DISPLAY_SIZE implies sprite_covers(t1, x, y, n, p)
        == sprite_covers(s, x, y, n, p) by {}
    assert(t2.display =~= s.display);
    let fresh = exists|p: int| 0 <= p < DISPLAY_SIZE && !s.display[p] && sprite_covers(s, x, y, n, p);
    if collides(t1, x, y, n) {
        let p = choose|p: int| 0 <= p < DISPLAY_SIZE && t1.display[p] && sprite_covers(t1, x, y, n, p);
        assert(!s.display[p] && sprite_covers(s, x, y, n, p));
    }
    if fresh {
        let p = choose|p: int| 0 <= p < DISPLAY_SIZE && !s.display[p] && sprite_covers(s, x, y, n, p);
        assert(t1.display[p] && sprite_covers(t1, x, y, n, p));
    }
}

/// Where the keys are looked through from `from` on, the key found is down
/// and no key before it is; and a key is found if one from `from` on is
/// down.
pub proof fn lemma_next_key_down(keys: Seq<bool>, from: int)
    requires
        0 <= from <= keys.len(),
    ensures
        from <= next_key_down(keys, from) <= keys.len(),
        next_key_down(keys, from) < keys.len() ==> keys[next_key_down(keys, from)],
        forall|k: int| from <= k < next_key_down(keys, from) ==> !keys[k],
    decreases keys.len() - from,
{
    if from < keys.len() && !keys[from] {
        lemma_next_key_down(keys, from + 1);
    }
}

/// While any key is down, the key that a wait finds is a key that is down,
/// wherever the wait starts to look.
pub proof fn lemma_found_key_is_down(keys: Seq<bool>, start: int)
    requires
        any_key_down(keys),
    ensures
        0 <= found_key(keys, start) < keys.len(),
        keys[found_key(keys, start)],
{
    lemma_next_key_down(keys, 0);
    if 0 <= start <= keys.len() {
        lemma_next_key_down(keys, start);
    }
}

/// `Fx0A` with no key down changes nothing, the program counter included:
/// the same instruction runs again, as often as it is executed.
pub proof fn lemma_wait_key_blocks(s: State, w: u16, rnd: u8, start: int)
    requires
        s.wf(),
        word_o(w) == 0xF,
        word_nn(w) == 0x0A,
        !any_key_down(s.keys),
    ensures
        exec_spec(s, w, rnd, start) == Ok::<(State, Signal), Fault>((s, Signal::Idle)),
{
}

/// The outcome of executing the word `w` once for each entry of `draws`, one
/// after the other, each with its own random byte and starting key; a fault
/// ends the run.
pub open spec fn exec_repeatedly(s: State, w: u16, draws: Seq<(u8, int)>) -> Result<
    (State, Signal),
    Fault,
>
    decreases draws.len(),
{
    if draws.len() == 0 {
        Ok((s, Signal::Idle))
    } else {
        match exec_repeatedly(s, w, draws.drop_last()) {
            Ok((t, _)) => exec_spec(t, w, draws.last().0, draws.last().1),
            Err(fault) => Err(fault),
        }
    }
}

/// `Fx0A` with no key down can be executed any number of times: the machine
/// stays as it is, and so does the program counter.
pub proof fn lemma_wait_key_blocks_for_ever(s: State, w: u16, draws: Seq<(u8, int)>)
    requires
        s.wf(),
        word_o(w) == 0xF,
        word_nn(w) == 0x0A,
        !any_key_down(s.keys),
    ensures
        exec_repeatedly(s, w, draws) == Ok::<(State, Signal), Fault>((s, Signal::Idle)),
    decreases draws.len(),
{
    if draws.len() > 0 {
        lemma_wait_key_blocks_for_ever(s, w, draws.drop_last());
        lemma_wait_key_blocks(s, w, draws.last().0, draws.last().1);
    }
}

/// `Fx0A` with a key down moves the program counter on by one instruction
/// and leaves in `Vx` the index of a key that is down.
#[verifier::rlimit(50)]
pub proof fn lemma_wait_key_takes_key(s: State, w: u16, rnd: u8, start: int)
    requires
        s.wf(),
        word_o(w) == 0xF,
        word_nn(w) == 0x0A,
        any_key_down(s.keys),
    ensures
        match exec_spec(s, w, rnd, start) {
            Ok((t, signal)) => {
                &&& t.pc == s.pc + PC_STEP
                &&& t.v[word_x(w) as int] < NUM_KEYS
                &&& s.keys[t.v[word_x(w) as int] as int]
                &&& t == (State { pc: t.pc, v: t.v, ..s })
            },
            Err(fault) => fault == Fault::ProgramCounter && s.pc + PC_STEP > u16::MAX,
        },
{
    lemma_found_key_is_down(s.keys, start);
}

/// After `n` ticks each timer is `n` lower, or zero where it was under `n`:
/// it never goes below zero. Nothing else changes.
pub proof fn lemma_ticks_count_down(s: State, n: nat)
    ensures
        ticked_times(s, n).delay == if s.delay >= n { s.delay - n } else { 0 },
        ticked_times(s, n).sound == if s.sound >= n { s.sound - n } else { 0 },
        ticked_times(s, n) == (State {
            delay: ticked_times(s, n).delay,
            sound: ticked_times(s, n).sound,
            ..s
        }),
    decreases n,
{
    if n > 0 {
        lemma_ticks_count_down(s, (n - 1) as nat);
    }
}

/// A tone sounds after a tick exactly if the sound timer was over 1 before
/// it.
pub proof fn lemma_tone_after_tick(s: State)
    ensures
        audible(ticked(s)) <==> s.sound > 1,
{
}

/// The timers tick at most once in a millisecond: after a cycle that ran an
/// instruction, no tick is due in a cycle that starts in the same
/// millisecond, however many of them there are.
pub proof fn lemma_no_second_tick(
    h: Host,
    event: Signal,
    keys: Option<Seq<bool>>,
    elapsed_ms: u64,
    rnd: u8,
    start: int,
)
    requires
        turn_spec(h, event, keys, elapsed_ms, rnd, start).result.is_ok(),
        event != Signal::ProgramExit,
    ensures
        !timer_due(turn_spec(h, event, keys, elapsed_ms, rnd, start).host.tick_next, elapsed_ms),
{
}

/// A tick is due only on a timer period, and only after a cycle that started
/// off one: the cycle of the host loop ticks the timers once per period if
/// the loop runs at least twice in it.
pub proof fn lemma_tick_after_gap(
    h: Host,
    event: Signal,
    keys: Option<Seq<bool>>,
    elapsed_ms: u64,
    rnd: u8,
    start: int,
    later_ms: u64,
)
    requires
        turn_spec(h, event, keys, elapsed_ms, rnd, start).result.is_ok(),
        event != Signal::ProgramExit,
    ensures
        timer_due(turn_spec(h, event, keys, elapsed_ms, rnd, start).host.tick_next, later_ms) <==> (
        elapsed_ms % TIMER_PERIOD_MS != 0 && later_ms % TIMER_PERIOD_MS == 0),
{
}

/// A cycle moves each timer by what its instruction does to it and then by
/// at most one tick: the machine after the cycle is the machine after the
/// instruction, ticked if a tick was due.
pub proof fn lemma_cycle_ticks_once(h: Host, s: State, signal: Signal, elapsed_ms: u64)
    ensures
        settled(h, s, signal, elapsed_ms).host.system == if timer_due(h.tick_next, elapsed_ms) {
            ticked(s)
        } else {
            s
        },
{
}

/// The loop runs no faster than its rate: the time that a cycle took and the
/// time slept after it make up at least the cycle's time, and exactly that
/// where the cycle took no longer.
pub proof fn lemma_idle_fills_cycle(clock_rate: u32, spent: u64)
    ensures
        spent + idle_nanos_spec(clock_rate, spent) >= cycle_nanos_spec(clock_rate),
        spent <= cycle_nanos_spec(clock_rate) ==> spent + idle_nanos_spec(clock_rate, spent)
            == cycle_nanos_spec(clock_rate),
{
}

} // verus!
