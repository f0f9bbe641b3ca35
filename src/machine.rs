//! The machine as the contracts see it: its state, and what each
//! instruction and each step does to it.

use vstd::prelude::*;

use crate::interpreter::{
    InterpreterErr, KeyAwaitOp, MEM_SZ, REG_COUNT, RES_X, RES_Y, STACK_SZ, START_ADDR,
};
use crate::keycodes::KeyCodes;
use crate::opcode::{spec_decode, OpCode};
use crate::quirk_flags::{quirk_on, QuirkFlags};
use crate::timer::{set_to, ticked, TimerState};

verus! {

/// The whole state of the machine, as the contracts see it.
pub struct MachineState {
    pub quirks: QuirkFlags,
    pub key_press: Option<KeyCodes>,
    /// Rows of pixels, top first.
    pub display: Seq<Seq<u8>>,
    pub memory: Seq<u8>,
    pub pc: u16,
    pub v_regs: Seq<u8>,
    pub i_reg: u16,
    /// Return addresses, oldest first.
    pub stack: Seq<u16>,
    pub stack_capacity: nat,
    pub key_await: Option<KeyAwaitOp>,
    pub delay_timer: TimerState,
    pub sound_timer: TimerState,
    pub is_sound_playing: bool,
}

/// What an instruction does to the state: the state after it, and whether
/// it failed.
pub type Outcome = (MachineState, Result<(), InterpreterErr>);

/// The flag register.
pub open spec fn vf() -> int {
    0xF
}

/// The glyphs of the hexadecimal digits 0 to F, five bytes each.
pub open spec fn char_table() -> Seq<u8> {
    seq![
        0xF0, 0x90, 0x90, 0x90, 0xF0,
        0x20, 0x60, 0x20, 0x20, 0x70,
        0xF0, 0x10, 0xF0, 0x80, 0xF0,
        0xF0, 0x10, 0xF0, 0x10, 0xF0,
        0x90, 0x90, 0xF0, 0x10, 0x10,
        0xF0, 0x80, 0xF0, 0x10, 0xF0,
        0xF0, 0x80, 0xF0, 0x90, 0xF0,
        0xF0, 0x10, 0x20, 0x40, 0x40,
        0xF0, 0x90, 0xF0, 0x90, 0xF0,
        0xF0, 0x90, 0xF0, 0x10, 0xF0,
        0xF0, 0x90, 0xF0, 0x90, 0x90,
        0xE0, 0x90, 0xE0, 0x90, 0xE0,
        0xF0, 0x80, 0x80, 0x80, 0xF0,
        0xE0, 0x90, 0x90, 0x90, 0xE0,
        0xF0, 0x80, 0xF0, 0x80, 0xF0,
        0xF0, 0x80, 0xF0, 0x80, 0x80,
    ]
}

/// A display with every pixel off.
pub open spec fn blank_display() -> Seq<Seq<u8>> {
    Seq::new(RES_Y as nat, |y: int| Seq::new(RES_X as nat, |x: int| 0u8))
}

/// Memory right after loading `rom`: the glyphs at address 0, the program
/// at `START_ADDR`, zeros elsewhere.
pub open spec fn initial_memory(rom: Seq<u8>) -> Seq<u8> {
    Seq::new(
        MEM_SZ as nat,
        |a: int|
            if a < char_table().len() {
                char_table()[a]
            } else if START_ADDR <= a < START_ADDR + rom.len() {
                rom[a - START_ADDR]
            } else {
                0u8
            },
    )
}

/// The state of a machine just loaded with `rom`.
pub open spec fn initial_state(rom: Seq<u8>) -> MachineState {
    MachineState {
        quirks: QuirkFlags::spec_none(),
        key_press: None,
        display: blank_display(),
        memory: initial_memory(rom),
        pc: START_ADDR as u16,
        v_regs: Seq::new(REG_COUNT as nat, |r: int| 0u8),
        i_reg: 0,
        stack: Seq::empty(),
        stack_capacity: STACK_SZ as nat,
        key_await: None,
        delay_timer: set_to(0),
        sound_timer: set_to(0),
        is_sound_playing: false,
    }
}

/// `s` with register `r` set to `v`.
pub open spec fn set_reg(s: MachineState, r: int, v: u8) -> MachineState {
    MachineState { v_regs: s.v_regs.update(r, v), ..s }
}

/// `s` with the program counter moved past one more instruction when `cond`
/// holds.
pub open spec fn skip_if(s: MachineState, cond: bool) -> MachineState {
    if cond {
        MachineState { pc: ((s.pc + 2) % 0x10000) as u16, ..s }
    } else {
        s
    }
}

/// Register `r` of `s`.
pub open spec fn reg(s: MachineState, r: u8) -> u8 {
    s.v_regs[r as int]
}

/// Whether `r` names a register.
pub open spec fn valid_reg(r: u8) -> bool {
    r < REG_COUNT
}

/// Pixel `col` (0 is the leftmost) of the sprite row `bits`.
pub open spec fn sprite_bit(bits: u8, col: int) -> u8 {
    ((bits >> ((7 - col) as u8)) & 1) as u8
}

/// XOR-draws the first `k` pixels, row by row, of the sprite `rows` placed
/// at `(x, y)` onto display `d`, wrapping each pixel around the edges.
/// Returns the display and whether a drawn pixel turned a lit pixel off.
pub open spec fn draw_pixels(d: Seq<Seq<u8>>, x: u8, y: u8, rows: Seq<u8>, k: nat) -> (
    Seq<Seq<u8>>,
    bool,
)
    decreases k,
{
    if k == 0 {
        (d, false)
    } else {
        let prev = draw_pixels(d, x, y, rows, (k - 1) as nat);
        let row = (k - 1) / 8;
        let col = (k - 1) % 8;
        let px = (x + col) % (RES_X as int);
        let py = (y + row) % (RES_Y as int);
        let bit = sprite_bit(rows[row], col);
        let lit = prev.0[py][px];
        (prev.0.update(py, prev.0[py].update(px, lit ^ bit)), prev.1 || (lit == 1 && bit == 1))
    }
}

/// The sprite `rows` XOR-drawn at `(x, y)`.
pub open spec fn draw_sprite(d: Seq<Seq<u8>>, x: u8, y: u8, rows: Seq<u8>) -> (Seq<Seq<u8>>, bool) {
    draw_pixels(d, x, y, rows, 8 * rows.len())
}

/// The decimal digits of `v`: hundreds, tens, ones.
pub open spec fn bcd(v: u8) -> Seq<u8> {
    seq![v / 100, (v / 10) % 10, v % 10]
}

/// How many registers a bulk store or load starting at memory address `i`
/// and asked to reach register `x` gets through before its first fault.
pub open spec fn bulk_count(i: u16, x: u8) -> nat {
    let room = if i < MEM_SZ {
        (MEM_SZ - i) as nat
    } else {
        0
    };
    let want = (x + 1) as nat;
    if want <= room && want <= REG_COUNT {
        want
    } else if room <= REG_COUNT {
        room
    } else {
        REG_COUNT as nat
    }
}

/// `FX55`: stores `V0..=Vx` at `I`; a fault stops it after the registers
/// stored so far. With the switch on, `I` moves past the stored registers.
pub open spec fn store_regs(s: MachineState, x: u8, advance: bool) -> Outcome {
    let k = bulk_count(s.i_reg, x);
    let mem = Seq::new(
        MEM_SZ as nat,
        |a: int|
            if s.i_reg <= a < s.i_reg + k {
                s.v_regs[a - s.i_reg]
            } else {
                s.memory[a]
            },
    );
    let t = MachineState { memory: mem, ..s };
    if k == x + 1 {
        if advance {
            (MachineState { i_reg: (s.i_reg + x + 1) as u16, ..t }, Ok(()))
        } else {
            (t, Ok(()))
        }
    } else if k == REG_COUNT {
        (t, Err(InterpreterErr::InvalidRegister))
    } else {
        (t, Err(InterpreterErr::MemFault))
    }
}

/// `FX65`: loads `V0..=Vx` from `I`; a fault stops it after the registers
/// loaded so far. With the switch on, `I` moves past the loaded bytes.
pub open spec fn load_regs(s: MachineState, x: u8, advance: bool) -> Outcome {
    let k = bulk_count(s.i_reg, x);
    let regs = Seq::new(
        REG_COUNT as nat,
        |r: int|
            if r < k {
                s.memory[s.i_reg + r]
            } else {
                s.v_regs[r]
            },
    );
    let t = MachineState { v_regs: regs, ..s };
    if k == x + 1 {
        if advance {
            (MachineState { i_reg: (s.i_reg + x + 1) as u16, ..t }, Ok(()))
        } else {
            (t, Ok(()))
        }
    } else if s.i_reg + k >= MEM_SZ {
        (t, Err(InterpreterErr::MemFault))
    } else {
        (t, Err(InterpreterErr::InvalidRegister))
    }
}

/// The `n` bytes of memory at `I`: the rows of the sprite `DXYN` draws.
pub open spec fn sprite_rows(s: MachineState, n: u8) -> Seq<u8> {
    Seq::new(n as nat, |r: int| s.memory[s.i_reg + r])
}

/// `DXYN`: draws the `n` bytes at `I` as a sprite at `(Vx, Vy)` and sets
/// `VF` to whether a lit pixel was turned off.
pub open spec fn draw_op(s: MachineState, x: u8, y: u8, n: u8) -> Outcome {
    if !valid_reg(x) || !valid_reg(y) {
        (s, Err(InterpreterErr::InvalidRegister))
    } else if n > 0 && s.i_reg + n > MEM_SZ {
        (s, Err(InterpreterErr::MemFault))
    } else {
        let rows = sprite_rows(s, n);
        let drawn = draw_sprite(s.display, reg(s, x), reg(s, y), rows);
        let t = MachineState { display: drawn.0, ..s };
        (
            set_reg(
                t,
                vf(),
                if drawn.1 {
                    1
                } else {
                    0
                },
            ),
            Ok(()),
        )
    }
}

/// An instruction that reads register `x` and then leaves state `t`; an
/// out-of-range register fails it with nothing changed.
pub open spec fn with_reg(s: MachineState, x: u8, t: MachineState) -> Outcome {
    if valid_reg(x) {
        (t, Ok(()))
    } else {
        (s, Err(InterpreterErr::InvalidRegister))
    }
}

/// An instruction that reads registers `x` and `y` and then leaves state
/// `t`; an out-of-range register fails it with nothing changed.
pub open spec fn with_regs(s: MachineState, x: u8, y: u8, t: MachineState) -> Outcome {
    if valid_reg(x) && valid_reg(y) {
        (t, Ok(()))
    } else {
        (s, Err(InterpreterErr::InvalidRegister))
    }
}

/// `8XY6`: `VF` takes the low bit of the source, then `Vx` the source
/// shifted right. The source is `Vy` with the switch on, `Vx` without.
pub open spec fn shift_right(s: MachineState, x: u8, y: u8, from_y: bool) -> Outcome {
    let src = if from_y {
        y
    } else {
        x
    };
    let v = reg(s, src);
    with_regs(s, x, src, set_reg(set_reg(s, vf(), v & 1), x as int, v >> 1))
}

/// `8XYE`: `VF` takes the high bit of the source, then `Vx` the source
/// shifted left. The source is `Vy` with the switch on, `Vx` without.
pub open spec fn shift_left(s: MachineState, x: u8, y: u8, from_y: bool) -> Outcome {
    let src = if from_y {
        y
    } else {
        x
    };
    let v = reg(s, src);
    with_regs(s, x, src, set_reg(set_reg(s, vf(), v >> 7), x as int, ((v * 2) % 256) as u8))
}

/// `FX1E`: adds `Vx` to `I` modulo 2^16; with the switch on, `VF` tells
/// whether the sum overflowed.
pub open spec fn add_index(s: MachineState, x: u8, report: bool) -> Outcome {
    let sum = s.i_reg + reg(s, x);
    let t = MachineState { i_reg: (sum % 0x10000) as u16, ..s };
    with_reg(
        s,
        x,
        if report {
            set_reg(
                t,
                vf(),
                if sum >= 0x10000 {
                    1
                } else {
                    0
                },
            )
        } else {
            t
        },
    )
}

/// Whether the key pressed now is the one numbered `v`.
pub open spec fn key_is(s: MachineState, v: u8) -> bool {
    match s.key_press {
        Some(k) => k.spec_value() == v,
        None => false,
    }
}

/// Whether a key other than the one numbered `v` is pressed now.
pub open spec fn key_is_not(s: MachineState, v: u8) -> bool {
    match s.key_press {
        Some(k) => k.spec_value() != v,
        None => false,
    }
}

/// What executing `op`, fetched as word `instr`, does to state `s`, where
/// `rnd` is the byte the platform hands out if the instruction asks for one.
pub open spec fn exec_op(s: MachineState, instr: u16, op: OpCode, rnd: u8) -> Outcome {
    match op {
        OpCode::OpCode00e0() => (MachineState { display: blank_display(), ..s }, Ok(())),
        OpCode::OpCode00ee() => {
            if s.stack.len() > 0 {
                (MachineState { pc: s.stack.last(), stack: s.stack.drop_last(), ..s }, Ok(()))
            } else {
                (s, Err(InterpreterErr::CallStackEmpty))
            }
        },
        OpCode::OpCode1nnn(a) => (MachineState { pc: a, ..s }, Ok(())),
        OpCode::OpCode2nnn(a) => {
            if s.stack.len() < s.stack_capacity {
                (MachineState { pc: a, stack: s.stack.push(s.pc), ..s }, Ok(()))
            } else {
                (s, Err(InterpreterErr::CallStackOverflow))
            }
        },
        OpCode::OpCode3xnn(x, v) => with_reg(s, x, skip_if(s, reg(s, x) == v)),
        OpCode::OpCode4xnn(x, v) => with_reg(s, x, skip_if(s, reg(s, x) != v)),
        OpCode::OpCode5xy0(x, y) => with_regs(s, x, y, skip_if(s, reg(s, x) == reg(s, y))),
        OpCode::OpCode6xnn(x, v) => with_reg(s, x, set_reg(s, x as int, v)),
        OpCode::OpCode7xnn(x, v) => with_reg(
            s,
            x,
            set_reg(s, x as int, ((reg(s, x) + v) % 256) as u8),
        ),
        OpCode::OpCode8xy0(x, y) => with_regs(s, x, y, set_reg(s, x as int, reg(s, y))),
        OpCode::OpCode8xy1(x, y) => with_regs(s, x, y, set_reg(s, x as int, reg(s, x) | reg(s, y))),
        OpCode::OpCode8xy2(x, y) => with_regs(s, x, y, set_reg(s, x as int, reg(s, x) & reg(s, y))),
        OpCode::OpCode8xy3(x, y) => with_regs(s, x, y, set_reg(s, x as int, reg(s, x) ^ reg(s, y))),
        OpCode::OpCode8xy4(x, y) => {
            let sum = reg(s, x) + reg(s, y);
            with_regs(
                s,
                x,
                y,
                set_reg(
                    set_reg(s, x as int, (sum % 256) as u8),
                    vf(),
                    if sum > 255 {
                        1
                    } else {
                        0
                    },
                ),
            )
        },
        OpCode::OpCode8xy5(x, y) => {
            let (a, b) = (reg(s, x), reg(s, y));
            with_regs(
                s,
                x,
                y,
                set_reg(
                    set_reg(s, x as int, ((a - b + 256) % 256) as u8),
                    vf(),
                    if a >= b {
                        1
                    } else {
                        0
                    },
                ),
            )
        },
        OpCode::OpCode8xy6(x, y) => shift_right(s, x, y, quirk_on(s.quirks, 0x01)),
        OpCode::OpCode8xy7(x, y) => {
            let (a, b) = (reg(s, x), reg(s, y));
            with_regs(
                s,
                x,
                y,
                set_reg(
                    set_reg(
                        s,
                        vf(),
                        if b >= a {
                            1
                        } else {
                            0
                        },
                    ),
                    x as int,
                    ((b - a + 256) % 256) as u8,
                ),
            )
        },
        OpCode::OpCode8xye(x, y) => shift_left(s, x, y, quirk_on(s.quirks, 0x02)),
        OpCode::OpCode9xy0(x, y) => with_regs(s, x, y, skip_if(s, reg(s, x) != reg(s, y))),
        OpCode::OpCodeAnnn(a) => (MachineState { i_reg: a, ..s }, Ok(())),
        OpCode::OpCodeBnnn(a) => with_reg(
            s,
            0,
            MachineState { i_reg: ((a + reg(s, 0)) % 0x10000) as u16, ..s },
        ),
        OpCode::OpCodeCxnn(x, mask) => with_reg(s, x, set_reg(s, x as int, rnd & mask)),
        OpCode::OpCodeDxyn(x, y, n) => draw_op(s, x, y, n),
        OpCode::OpCodeEx9e(x) => with_reg(s, x, skip_if(s, key_is(s, reg(s, x)))),
        OpCode::OpCodeExa1(x) => with_reg(s, x, skip_if(s, key_is_not(s, reg(s, x)))),
        OpCode::OpCodeFx07(x) => {
            let t = ticked(s.delay_timer, 100);
            with_reg(s, x, set_reg(MachineState { delay_timer: t, ..s }, x as int, t.current_val))
        },
        OpCode::OpCodeFx0a(x) => (
            MachineState { key_await: Some(KeyAwaitOp { dest_v_reg: x }), ..s },
            Ok(()),
        ),
        OpCode::OpCodeFx15(x) => with_reg(
            s,
            x,
            MachineState { delay_timer: set_to(reg(s, x)), ..s },
        ),
        OpCode::OpCodeFx18(x) => with_reg(
            s,
            x,
            MachineState { sound_timer: set_to(reg(s, x)), is_sound_playing: true, ..s },
        ),
        OpCode::OpCodeFx1e(x) => add_index(s, x, quirk_on(s.quirks, 0x04)),
        OpCode::OpCodeFx29(x) => with_reg(
            s,
            x,
            MachineState { i_reg: (reg(s, x) * 5) as u16, ..s },
        ),
        OpCode::OpCodeFx33(x) => {
            if !valid_reg(x) {
                (s, Err(InterpreterErr::InvalidRegister))
            } else if s.i_reg + 2 >= MEM_SZ {
                (s, Err(InterpreterErr::MemFault))
            } else {
                let d = bcd(reg(s, x));
                (
                    MachineState {
                        memory: s.memory.update(s.i_reg as int, d[0]).update(
                            s.i_reg + 1,
                            d[1],
                        ).update(s.i_reg + 2, d[2]),
                        ..s
                    },
                    Ok(()),
                )
            }
        },
        OpCode::OpCodeFx55(x) => store_regs(s, x, quirk_on(s.quirks, 0x08)),
        OpCode::OpCodeFx65(x) => load_regs(s, x, quirk_on(s.quirks, 0x10)),
        OpCode::OpCodeInvalid() => (s, Err(InterpreterErr::InvalidOpcode(instr))),
    }
}

/// The sound timer after one call at `tick_rate`; the tone is switched off
/// when the timer has run down.
pub open spec fn sound_ticked(s: MachineState, tick_rate: u64) -> MachineState {
    let t = ticked(s.sound_timer, tick_rate);
    MachineState { sound_timer: t, is_sound_playing: s.is_sound_playing && t.current_val != 0, ..s }
}

/// Whether the tone is on and the sound timer runs out in the next call at
/// `tick_rate`: the step that tells the platform to stop the tone.
pub open spec fn tone_runs_out(s: MachineState, tick_rate: u64) -> bool {
    s.is_sound_playing && ticked(s.sound_timer, tick_rate).current_val == 0
}

/// The instruction word at `pc`, big-endian.
pub open spec fn word_at(s: MachineState, pc: int) -> u16 {
    (s.memory[pc] * 256 + s.memory[pc + 1]) as u16
}

/// Fetches the instruction at the program counter, moves the counter past
/// it and executes it. On success, says which word was executed.
pub open spec fn fetch_execute(s: MachineState, rnd: u8) -> (
    MachineState,
    Result<Option<u16>, InterpreterErr>,
) {
    if s.pc + 1 < MEM_SZ {
        let w = word_at(s, s.pc as int);
        let out = exec_op(MachineState { pc: (s.pc + 2) as u16, ..s }, w, spec_decode(w), rnd);
        (
            out.0,
            match out.1 {
                Ok(_) => Ok(Some(w)),
                Err(e) => Err(e),
            },
        )
    } else {
        (s, Err(InterpreterErr::MemFault))
    }
}

/// One step: the sound timer ticks; then, unless the machine waits for a
/// key that has not come, the awaited key (if any) is stored and the next
/// instruction runs. `Ok(None)` means the machine still waits;
/// `Ok(Some(w))` that word `w` was executed.
pub open spec fn step_spec(s: MachineState, tick_rate: u64, rnd: u8) -> (
    MachineState,
    Result<Option<u16>, InterpreterErr>,
) {
    let s1 = sound_ticked(s, tick_rate);
    match s1.key_await {
        None => fetch_execute(s1, rnd),
        Some(op) => match s1.key_press {
            None => (s1, Ok(None)),
            Some(k) => {
                if valid_reg(op.dest_v_reg) {
                    fetch_execute(
                        MachineState { key_await: None, ..set_reg(s1, op.dest_v_reg as int, k.spec_value()) },
                        rnd,
                    )
                } else {
                    (s1, Err(InterpreterErr::InvalidRegister))
                }
            },
        },
    }
}

/// A step that fetches a key-wait instruction `FX0A` moves the program
/// counter past it and makes the machine wait for a key to store in `Vx`;
/// nothing else changes but the sound timer.
pub proof fn lemma_key_wait_starts(s: MachineState, tick_rate: u64, rnd: u8, x: u8)
    requires
        s.key_await is None,
        s.pc + 1 < MEM_SZ,
        spec_decode(word_at(s, s.pc as int)) == OpCode::OpCodeFx0a(x),
    ensures
        step_spec(s, tick_rate, rnd) == (
            MachineState {
                pc: (s.pc + 2) as u16,
                key_await: Some(KeyAwaitOp { dest_v_reg: x }),
                ..sound_ticked(s, tick_rate)
            },
            Ok::<Option<u16>, InterpreterErr>(Some(word_at(s, s.pc as int))),
        ),
{
}

/// While the machine waits for a key and none is pressed, a step only ticks
/// the sound timer: the program counter, registers and memory stay as they
/// are, and no instruction runs.
pub proof fn lemma_key_wait_holds(s: MachineState, tick_rate: u64, rnd: u8)
    requires
        s.key_await is Some,
        s.key_press is None,
    ensures
        step_spec(s, tick_rate, rnd) == (
            sound_ticked(s, tick_rate),
            Ok::<Option<u16>, InterpreterErr>(None),
        ),
{
}

/// Once a key is pressed, the waiting machine stores its number in the
/// waiting register, ends the wait, and in the same step runs the
/// instruction that follows the key-wait, fetched at the unchanged program
/// counter.
pub proof fn lemma_key_wait_ends(s: MachineState, tick_rate: u64, rnd: u8, x: u8, k: KeyCodes)
    requires
        s.key_await == Some(KeyAwaitOp { dest_v_reg: x }),
        valid_reg(x),
        s.key_press == Some(k),
    ensures
        step_spec(s, tick_rate, rnd) == fetch_execute(
            MachineState {
                key_await: None,
                v_regs: s.v_regs.update(x as int, k.spec_value()),
                ..sound_ticked(s, tick_rate)
            },
            rnd,
        ),
{
}

} // verus!
