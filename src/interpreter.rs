use vstd::prelude::*;

use crate::callstack::{CallStack, CallStackErr};
use crate::keycodes::KeyCodes;
use crate::machine::{
    blank_display, char_table, draw_pixels, exec_op, initial_memory, initial_state,
    sound_ticked, step_spec, tone_runs_out, word_at, MachineState,
};
use crate::opcode::{decode, spec_decode, spec_mnemonic, DecodedInstruction, OpCode};
use crate::platform_adapter::PlatformAdapter;
use crate::quirk_flags::QuirkFlags;
use crate::timer::Timer;

verus! {

/// Width of the display in pixels.
pub const RES_X: usize = 64;

/// Height of the display in pixels.
pub const RES_Y: usize = 32;

/// Size of memory in bytes.
pub const MEM_SZ: usize = 4096;

/// Number of general registers; the last one doubles as the flag register.
pub const REG_COUNT: usize = 16;

/// Where programs are loaded and execution starts.
pub const START_ADDR: usize = 0x200;

/// How deep subroutine calls may nest.
pub const STACK_SZ: usize = 16;

/// A failure of one step of the machine.
#[derive(Debug, PartialEq, Eq, Structural, Clone, Copy)]
pub enum InterpreterErr {
    /// A return with no call to return from.
    CallStackEmpty,
    /// A call nested deeper than the call stack holds.
    CallStackOverflow,
    /// The word names no instruction.
    InvalidOpcode(u16),
    /// A register number of 16 or more.
    InvalidRegister,
    /// A memory address past the end of memory.
    MemFault,
    /// Kept for display coordinates out of range; drawing wraps, so no
    /// instruction fails with it.
    DisplayFault,
    /// Kept for a clock that runs backwards; timers count calls, so no
    /// instruction fails with it.
    NonMonotonicClockValue,
    /// The program does not fit in memory behind `START_ADDR`.
    RomTooLarge,
}

/// A pending wait for a key: the register that receives it.
#[derive(Copy, Clone, Debug, PartialEq, Eq, Structural)]
pub struct KeyAwaitOp {
    pub dest_v_reg: u8,
}

/// The interpreter failure that a call-stack failure stands for.
pub open spec fn stack_err_of(e: CallStackErr) -> InterpreterErr {
    match e {
        CallStackErr::StackOverflow => InterpreterErr::CallStackOverflow,
        CallStackErr::StackEmpty => InterpreterErr::CallStackEmpty,
    }
}

fn from_stack_err(stack_err: CallStackErr) -> (r: InterpreterErr)
    ensures
        r == stack_err_of(stack_err),
{
    match stack_err {
        CallStackErr::StackOverflow => InterpreterErr::CallStackOverflow,
        CallStackErr::StackEmpty => InterpreterErr::CallStackEmpty,
    }
}

/// The display as rows of pixels.
pub open spec fn display_view(d: [[u8; RES_X]; RES_Y]) -> Seq<Seq<u8>> {
    Seq::new(RES_Y as nat, |y: int| d@[y]@)
}

/// Whether `r` is what `step` returns for the outcome `o` of the step
/// model, on a machine with switches `q`.
pub open spec fn step_result_matches(
    o: Result<Option<u16>, InterpreterErr>,
    r: Result<DecodedInstruction, InterpreterErr>,
    q: QuirkFlags,
) -> bool {
    match o {
        Ok(None) => {
            &&& r is Ok
            &&& r->Ok_0.instr == 0
            &&& r->Ok_0.opcode == OpCode::OpCodeInvalid()
            &&& r->Ok_0.mnemonic@ == Seq::<char>::empty()
        },
        Ok(Some(w)) => {
            &&& r is Ok
            &&& r->Ok_0.instr == w
            &&& r->Ok_0.opcode == spec_decode(w)
            &&& r->Ok_0.mnemonic@ == spec_mnemonic(spec_decode(w), q)
        },
        Err(e) => r is Err && r->Err_0 == e,
    }
}

/// The machine: memory, registers, display, timers, call stack and the
/// platform it plays sound on and draws random bytes from.
pub struct Chip8Interpreter<T> where T: PlatformAdapter {
    pub quirks: QuirkFlags,
    pub key_press: Option<KeyCodes>,
    pub display_buffer: [[u8; RES_X]; RES_Y],
    pub memory: [u8; MEM_SZ],
    pub pc: u16,
    pub v_regs: [u8; REG_COUNT],
    pub i_reg: u16,
    pub stack: CallStack,
    pub key_await_dest_reg: Option<KeyAwaitOp>,
    pub delay_timer: Timer,
    pub sound_timer: Timer,
    pub is_sound_playing: bool,
    pub platform_adapter: T,
}

impl<T> View for Chip8Interpreter<T> where T: PlatformAdapter {
    type V = MachineState;

    open spec fn view(&self) -> MachineState {
        MachineState {
            quirks: self.quirks,
            key_press: self.key_press,
            display: display_view(self.display_buffer),
            memory: self.memory@,
            pc: self.pc,
            v_regs: self.v_regs@,
            i_reg: self.i_reg,
            stack: self.stack@,
            stack_capacity: self.stack.capacity(),
            key_await: self.key_await_dest_reg,
            delay_timer: self.delay_timer@,
            sound_timer: self.sound_timer@,
            is_sound_playing: self.is_sound_playing,
        }
    }
}

fn char_table_bytes() -> (r: [u8; 80])
    ensures
        r@ == char_table(),
{
    let r: [u8; 80] = [
        0xF0, 0x90, 0x90, 0x90, 0xF0,
        0x20, 0x60, 0x20, 0x20, 0x70,
        0xF0, 0x10, 0xF0, 0x80, 0xF0,
        0xF0, 0x10, 0xF0, 0x10, 0xF0,
        0x90, 0x90, 0xF0, 0x10, 0x10,
        0xF0, 0x80, 0xF0, 0x10, 0xF0,
        0xF0, 0x80, 0xF0, 0x90, 0xF0,
        0xF0, 0x10, 0x20, 0x40, 0x40,
        0xF0, 0x90, 0xF0, 0x90, 0xF0,
        0xF0, 0x90, 0xF0, 0x10, 0xF0,
        0xF0, 0x90, 0xF0, 0x90, 0x90,
        0xE0, 0x90, 0xE0, 0x90, 0xE0,
        0xF0, 0x80, 0x80, 0x80, 0xF0,
        0xE0, 0x90, 0x90, 0x90, 0xE0,
        0xF0, 0x80, 0xF0, 0x80, 0xF0,
        0xF0, 0x80, 0xF0, 0x80, 0x80,
    ];
    assert(r@ =~= char_table());
    r
}

impl<T> Chip8Interpreter<T> where T: PlatformAdapter {
    /// Loads `rom` at `START_ADDR` behind the glyph table. Fails with
    /// `RomTooLarge` when the program would reach the end of memory.
    pub fn new(platform_adapter: T, rom: Vec<u8>) -> (r: Result<Self, InterpreterErr>)
        ensures
            START_ADDR + rom@.len() >= MEM_SZ ==> r is Err && r->Err_0
                == InterpreterErr::RomTooLarge,
            START_ADDR + rom@.len() < MEM_SZ ==> {
                &&& r is Ok
                &&& r->Ok_0@ == initial_state(rom@)
                &&& r->Ok_0.platform_adapter == platform_adapter
            },
    {
        let rom_len = rom.len();
        if rom_len >= MEM_SZ - START_ADDR {
            return Err(InterpreterErr::RomTooLarge);
        }
        let mut memory = [0u8; MEM_SZ];
        let table = char_table_bytes();
        let mut i: usize = 0;
        while i < 80
            invariant
                i <= 80,
                table@ == char_table(),
                forall|a: int| 0 <= a < i ==> memory@[a] == char_table()[a],
                forall|a: int| i <= a < MEM_SZ ==> memory@[a] == 0,
            decreases 80 - i,
        {
            memory[i] = table[i];
            i = i + 1;
        }
        let mut j: usize = 0;
        while j < rom_len
            invariant
                j <= rom_len,
                rom_len == rom@.len(),
                START_ADDR + rom_len < MEM_SZ,
                forall|a: int| 0 <= a < 80 ==> memory@[a] == char_table()[a],
                forall|a: int| START_ADDR <= a < START_ADDR + j ==> memory@[a] == rom@[a - START_ADDR],
                forall|a: int|
                    80 <= a < MEM_SZ && !(START_ADDR <= a < START_ADDR + j) ==> memory@[a] == 0,
            decreases rom_len - j,
        {
            memory[START_ADDR + j] = rom[j];
            j = j + 1;
        }
        assert(memory@ =~= initial_memory(rom@));
        let interpreter = Chip8Interpreter {
            quirks: QuirkFlags::none(),
            key_press: None,
            display_buffer: [[0u8; RES_X]; RES_Y],
            memory,
            pc: START_ADDR as u16,
            v_regs: [0u8; REG_COUNT],
            i_reg: 0,
            stack: CallStack::new(STACK_SZ),
            key_await_dest_reg: None,
            delay_timer: Timer::new(),
            sound_timer: Timer::new(),
            is_sound_playing: false,
            platform_adapter,
        };
        assert(display_view(interpreter.display_buffer) =~= blank_display()) by {
            assert forall|y: int| 0 <= y < RES_Y implies display_view(interpreter.display_buffer)[y]
                =~= blank_display()[y] by {}
        }
        assert(interpreter.v_regs@ =~= Seq::new(REG_COUNT as nat, |r: int| 0u8));
        Ok(interpreter)
    }

    /// Runs one step: ticks the sound timer at `tick_rate` calls per second,
    /// then, unless the machine still waits for a key, stores the awaited
    /// key and fetches and executes the next instruction, which it returns.
    /// While the machine waits it returns the empty `DecodedInstruction`.
    pub fn step(&mut self, tick_rate: u64) -> (r: Result<DecodedInstruction, InterpreterErr>)
        ensures
            !tone_runs_out(old(self)@, tick_rate) && !((r is Ok) && (r->Ok_0.opcode is OpCodeFx18))
                ==> final(self).platform_adapter == old(self).platform_adapter,
            exists|rnd: u8|
                {
                    &&& (#[trigger] step_spec(old(self)@, tick_rate, rnd)).0 == final(self)@
                    &&& step_result_matches(
                        step_spec(old(self)@, tick_rate, rnd).1,
                        r,
                        old(self)@.quirks,
                    )
                },
    {
        let ghost s0 = self@;
        self.check_sound_timer(tick_rate);
        let waiting = self.is_awaiting_key_press();
        match waiting {
            Err(e) => {
                assert(step_spec(s0, tick_rate, 0).0 == self@);
                return Err(e);
            },
            Ok(true) => {
                let r = DecodedInstruction::new();
                assert(step_spec(s0, tick_rate, 0).0 == self@);
                return Ok(r);
            },
            Ok(false) => {},
        }
        let fetched = self.fetch_next_instruction();
        match fetched {
            Err(e) => {
                assert(step_spec(s0, tick_rate, 0).0 == self@);
                Err(e)
            },
            Ok(opcode) => {
                let random_val = self.random_for(&opcode.opcode);
                let res = self.execute_instruction_with(&opcode, random_val);
                assert(step_spec(s0, tick_rate, random_val).0 == self@);
                match res {
                    Ok(()) => Ok(opcode),
                    Err(err) => Err(err),
                }
            },
        }
    }

    /// Whether the machine still waits for a key. When a key has come for a
    /// pending wait, stores its number in the waiting register and ends the
    /// wait.
    fn is_awaiting_key_press(&mut self) -> (r: Result<bool, InterpreterErr>)
        ensures
            final(self).platform_adapter == old(self).platform_adapter,
            match old(self)@.key_await {
                None => r == Ok::<bool, InterpreterErr>(false) && final(self)@ == old(self)@,
                Some(op) => match old(self)@.key_press {
                    None => r == Ok::<bool, InterpreterErr>(true) && final(self)@ == old(self)@,
                    Some(k) => if op.dest_v_reg < REG_COUNT {
                        &&& r == Ok::<bool, InterpreterErr>(false)
                        &&& final(self)@ == (MachineState {
                            key_await: None,
                            v_regs: old(self)@.v_regs.update(op.dest_v_reg as int, k.spec_value()),
                            ..old(self)@
                        })
                    } else {
                        r == Err::<bool, InterpreterErr>(InterpreterErr::InvalidRegister)
                            && final(self)@ == old(self)@
                    },
                },
            },
    {
        match self.key_await_dest_reg {
            None => Ok(false),
            Some(key_await_op) => match self.key_press {
                None => Ok(true),
                Some(keycode) => {
                    self.write_v_reg(key_await_op.dest_v_reg, keycode.value())?;
                    self.key_await_dest_reg = None;
                    Ok(false)
                },
            },
        }
    }

    /// Reads the instruction word at the program counter, moves the counter
    /// past it and decodes it.
    pub fn fetch_next_instruction(&mut self) -> (r: Result<DecodedInstruction, InterpreterErr>)
        ensures
            final(self).platform_adapter == old(self).platform_adapter,
            old(self)@.pc + 1 < MEM_SZ ==> {
                let w = word_at(old(self)@, old(self)@.pc as int);
                &&& r is Ok
                &&& r->Ok_0.instr == w
                &&& r->Ok_0.opcode == spec_decode(w)
                &&& r->Ok_0.mnemonic@ == spec_mnemonic(spec_decode(w), old(self)@.quirks)
                &&& final(self)@ == (MachineState { pc: (old(self)@.pc + 2) as u16, ..old(self)@ })
            },
            old(self)@.pc + 1 >= MEM_SZ ==> {
                &&& r is Err
                &&& r->Err_0 == InterpreterErr::MemFault
                &&& final(self)@ == old(self)@
            },
    {
        let hi = self.mem_at(self.pc as usize)? as u16;
        let lo = self.mem_at(self.pc as usize + 1)? as u16;
        self.pc = self.pc + 2;
        assert((hi << 8) | lo == hi * 256 + lo) by (bit_vector)
            requires
                hi < 256,
                lo < 256,
        ;
        let instr = (hi << 8) | lo;
        Ok(decode(instr, self.quirks))
    }

    /// Executes one decoded instruction; the program counter must already
    /// point past it. Any random byte comes from the platform.
    pub fn execute_instruction(&mut self, decoded_instr: &DecodedInstruction) -> (r: Result<
        (),
        InterpreterErr,
    >)
        ensures
            !(decoded_instr.opcode is OpCodeFx18) ==> final(self).platform_adapter == old(
                self,
            ).platform_adapter,
            (r is Err) ==> final(self).platform_adapter == old(self).platform_adapter,
            exists|rnd: u8|
                #[trigger] exec_op(old(self)@, decoded_instr.instr, decoded_instr.opcode, rnd) == (
                    final(self)@,
                    r,
                ),
    {
        let random_val = self.random_for(&decoded_instr.opcode);
        let r = self.execute_instruction_with(decoded_instr, random_val);
        assert(exec_op(old(self)@, decoded_instr.instr, decoded_instr.opcode, random_val) == (
            self@,
            r,
        ));
        r
    }

    /// A byte from the platform for an instruction that asks for a random
    /// one; zero for the others.
    fn random_for(&self, opcode: &OpCode) -> u8 {
        match opcode {
            OpCode::OpCodeCxnn(_, _) => self.platform_adapter.get_random_val(),
            _ => 0,
        }
    }

    /// Executes one decoded instruction with `random_val` as the byte a
    /// random instruction draws; the program counter must already point
    /// past it.
    pub fn execute_instruction_with(&mut self, decoded_instr: &DecodedInstruction, random_val: u8) -> (r: Result<(), InterpreterErr>)
        ensures
            !(decoded_instr.opcode is OpCodeFx18) ==> final(self).platform_adapter == old(
                self,
            ).platform_adapter,
            (r is Err) ==> final(self).platform_adapter == old(self).platform_adapter,
            exec_op(old(self)@, decoded_instr.instr, decoded_instr.opcode, random_val) == (
                final(self)@,
                r,
            ),
    {
        match decoded_instr.opcode {
            OpCode::OpCode00e0() => self.execute_00e0(),
            OpCode::OpCode00ee() => self.execute_00ee(),
            OpCode::OpCode1nnn(addr) => self.execute_1nnn(addr),
            OpCode::OpCode2nnn(addr) => self.execute_2nnn(addr),
            OpCode::OpCode3xnn(vx_idx, val) => self.execute_3xnn(vx_idx, val),
            OpCode::OpCode4xnn(vx_idx, val) => self.execute_4xnn(vx_idx, val),
            OpCode::OpCode5xy0(vx_idx, vy_idx) => self.execute_5xy0(vx_idx, vy_idx),
            OpCode::OpCode6xnn(vx_idx, val) => self.execute_6xnn(vx_idx, val),
            OpCode::OpCode7xnn(vx_idx, val) => self.execute_7xnn(vx_idx, val),
            OpCode::OpCode8xy0(vx_idx, vy_idx) => self.execute_8xy0(vx_idx, vy_idx),
            OpCode::OpCode8xy1(vx_idx, vy_idx) => self.execute_8xy1(vx_idx, vy_idx),
            OpCode::OpCode8xy2(vx_idx, vy_idx) => self.execute_8xy2(vx_idx, vy_idx),
            OpCode::OpCode8xy3(vx_idx, vy_idx) => self.execute_8xy3(vx_idx, vy_idx),
            OpCode::OpCode8xy4(vx_idx, vy_idx) => self.execute_8xy4(vx_idx, vy_idx),
            OpCode::OpCode8xy5(vx_idx, vy_idx) => self.execute_8xy5(vx_idx, vy_idx),
            OpCode::OpCode8xy6(vx_idx, vy_idx) => {
                if self.quirks.contains(QuirkFlags::quirk_8xy6()) {
                    self.execute_8xy6_quirk_mode(vx_idx, vy_idx)
                } else {
                    self.execute_8xy6(vx_idx)
                }
            },
            OpCode::OpCode8xy7(vx_idx, vy_idx) => self.execute_8xy7(vx_idx, vy_idx),
            OpCode::OpCode8xye(vx_idx, vy_idx) => {
                if self.quirks.contains(QuirkFlags::quirk_8xye()) {
                    self.execute_8xye_quirk_mode(vx_idx, vy_idx)
                } else {
                    self.execute_8xye(vx_idx)
                }
            },
            OpCode::OpCode9xy0(vx_idx, vy_idx) => self.execute_9xy0(vx_idx, vy_idx),
            OpCode::OpCodeAnnn(addr) => self.execute_annn(addr),
            OpCode::OpCodeBnnn(addr) => self.execute_bnnn(addr),
            OpCode::OpCodeCxnn(vx_idx, mask) => self.execute_cxnn(vx_idx, mask, random_val),
            OpCode::OpCodeDxyn(vx_idx, vy_idx, count) => self.execute_dxyn(vx_idx, vy_idx, count),
            OpCode::OpCodeEx9e(vx_idx) => self.execute_ex9e(vx_idx),
            OpCode::OpCodeExa1(vx_idx) => self.execute_exa1(vx_idx),
            OpCode::OpCodeFx07(vx_idx) => self.execute_fx07(vx_idx),
            OpCode::OpCodeFx0a(vx_idx) => self.execute_fx0a(vx_idx),
            OpCode::OpCodeFx15(vx_idx) => self.execute_fx15(vx_idx),
            OpCode::OpCodeFx18(vx_idx) => self.execute_fx18(vx_idx),
            OpCode::OpCodeFx1e(vx_idx) => {
                if self.quirks.contains(QuirkFlags::quirk_fx1e()) {
                    self.execute_fx1e_quirk_mode(vx_idx)
                } else {
                    self.execute_fx1e(vx_idx)
                }
            },
            OpCode::OpCodeFx29(vx_idx) => self.execute_fx29(vx_idx),
            OpCode::OpCodeFx33(vx_idx) => self.execute_fx33(vx_idx),
            OpCode::OpCodeFx55(vx_idx) => {
                if self.quirks.contains(QuirkFlags::quirk_fx55()) {
                    self.execute_fx55_quirk_mode(vx_idx)
                } else {
                    self.execute_fx55(vx_idx)
                }
            },
            OpCode::OpCodeFx65(vx_idx) => {
                if self.quirks.contains(QuirkFlags::quirk_fx65()) {
                    self.execute_fx65_quirk_mode(vx_idx)
                } else {
                    self.execute_fx65(vx_idx)
                }
            },
            OpCode::OpCodeInvalid() => Err(InterpreterErr::InvalidOpcode(decoded_instr.instr)),
        }
    }

    fn mem_at(&self, addr: usize) -> (r: Result<u8, InterpreterErr>)
        ensures
            addr < MEM_SZ ==> r == Ok::<u8, InterpreterErr>(self.memory@[addr as int]),
            addr >= MEM_SZ ==> r == Err::<u8, InterpreterErr>(InterpreterErr::MemFault),
    {
        if addr >= MEM_SZ {
            return Err(InterpreterErr::MemFault);
        }
        Ok(self.memory[addr])
    }

    fn set_mem_at(&mut self, addr: usize, val: u8) -> (r: Result<(), InterpreterErr>)
        ensures
            final(self).platform_adapter == old(self).platform_adapter,
            addr < MEM_SZ ==> r == Ok::<(), InterpreterErr>(()),
            addr < MEM_SZ ==> final(self)@ == (MachineState {
                memory: old(self)@.memory.update(addr as int, val),
                ..old(self)@
            }),
            addr >= MEM_SZ ==> r == Err::<(), InterpreterErr>(InterpreterErr::MemFault)
                && final(self)@ == old(self)@,
    {
        if addr >= MEM_SZ {
            return Err(InterpreterErr::MemFault);
        }
        self.memory[addr] = val;
        Ok(())
    }

    /// The byte at `addr`, or `MemFault` past the end of memory.
    pub fn read_mem(&self, addr: u16) -> (r: Result<u8, InterpreterErr>)
        ensures
            addr < MEM_SZ ==> r == Ok::<u8, InterpreterErr>(self.memory@[addr as int]),
            addr >= MEM_SZ ==> r == Err::<u8, InterpreterErr>(InterpreterErr::MemFault),
    {
        self.mem_at(addr as usize)
    }

    /// Stores `val` at `addr`, or fails with `MemFault` past the end of
    /// memory and changes nothing.
    pub fn write_mem(&mut self, addr: u16, val: u8) -> (r: Result<(), InterpreterErr>)
        ensures
            final(self).platform_adapter == old(self).platform_adapter,
            addr < MEM_SZ ==> r == Ok::<(), InterpreterErr>(()),
            addr < MEM_SZ ==> final(self)@ == (MachineState {
                memory: old(self)@.memory.update(addr as int, val),
                ..old(self)@
            }),
            addr >= MEM_SZ ==> r == Err::<(), InterpreterErr>(InterpreterErr::MemFault)
                && final(self)@ == old(self)@,
    {
        self.set_mem_at(addr as usize, val)
    }

    /// Stores `val` in register `reg_idx`, or fails with `InvalidRegister`
    /// and changes nothing.
    pub fn write_v_reg(&mut self, reg_idx: u8, val: u8) -> (r: Result<(), InterpreterErr>)
        ensures
            final(self).platform_adapter == old(self).platform_adapter,
            reg_idx < REG_COUNT ==> r == Ok::<(), InterpreterErr>(()),
            reg_idx < REG_COUNT ==> final(self)@ == (MachineState {
                v_regs: old(self)@.v_regs.update(reg_idx as int, val),
                ..old(self)@
            }),
            reg_idx >= REG_COUNT ==> r == Err::<(), InterpreterErr>(InterpreterErr::InvalidRegister)
                && final(self)@ == old(self)@,
    {
        let idx = reg_idx as usize;
        if idx >= REG_COUNT {
            return Err(InterpreterErr::InvalidRegister);
        }
        self.v_regs[idx] = val;
        Ok(())
    }

    /// The value of register `reg_idx`, or `InvalidRegister`.
    pub fn read_v_reg(&self, reg_idx: u8) -> (r: Result<u8, InterpreterErr>)
        ensures
            reg_idx < REG_COUNT ==> r == Ok::<u8, InterpreterErr>(self.v_regs@[reg_idx as int]),
            reg_idx >= REG_COUNT ==> r == Err::<u8, InterpreterErr>(InterpreterErr::InvalidRegister),
    {
        let idx = reg_idx as usize;
        if idx >= REG_COUNT {
            return Err(InterpreterErr::InvalidRegister);
        }
        Ok(self.v_regs[idx])
    }

    /// XORs `val` into the pixel at `(x, y)`, wrapped around the edges, and
    /// says whether that turned a lit pixel off.
    fn draw(&mut self, x: usize, y: usize, val: u8) -> (r: bool)
        ensures
            final(self).platform_adapter == old(self).platform_adapter,
            ({
                let px = (x % RES_X) as int;
                let py = (y % RES_Y) as int;
                let d = old(self)@.display;
                &&& final(self)@ == (MachineState {
                    display: d.update(py, d[py].update(px, d[py][px] ^ val)),
                    ..old(self)@
                })
                &&& r == (d[py][px] == 1 && val == 1)
            }),
    {
        let ghost d = self@.display;
        let x_idx = x % RES_X;
        let y_idx = y % RES_Y;
        let mut row = self.display_buffer[y_idx];
        let original_val = row[x_idx];
        row[x_idx] = original_val ^ val;
        self.display_buffer[y_idx] = row;
        proof {
            let e = d.update(y_idx as int, d[y_idx as int].update(x_idx as int, original_val ^ val));
            assert forall|j: int| 0 <= j < RES_Y implies #[trigger] display_view(
                self.display_buffer,
            )[j] =~= e[j] by {}
            assert(display_view(self.display_buffer) =~= e);
        }
        val == original_val && val == 1
    }

    fn start_delay_timer(&mut self, start_val: u8)
        ensures
            final(self).platform_adapter == old(self).platform_adapter,
            final(self)@ == (MachineState { delay_timer: crate::timer::set_to(start_val), ..old(self)@ }),
    {
        self.delay_timer.set(start_val);
    }

    fn start_sound_timer(&mut self, start_val: u8)
        ensures
            final(self)@ == (MachineState {
                sound_timer: crate::timer::set_to(start_val),
                is_sound_playing: true,
                ..old(self)@
            }),
    {
        self.sound_timer.set(start_val);
        self.platform_adapter.play_sound();
        self.is_sound_playing = true;
    }

    fn check_sound_timer(&mut self, tick_rate: u64)
        ensures
            !tone_runs_out(old(self)@, tick_rate) ==> final(self).platform_adapter == old(
                self,
            ).platform_adapter,
            final(self)@ == sound_ticked(old(self)@, tick_rate),
    {
        let timer_val = self.sound_timer.tick(tick_rate);
        if timer_val == 0 && self.is_sound_playing {
            self.platform_adapter.pause_sound();
            self.is_sound_playing = false;
        }
    }

    fn execute_00ee(&mut self) -> (r: Result<(), InterpreterErr>)
        ensures
            final(self).platform_adapter == old(self).platform_adapter,
            exec_op(old(self)@, 0, OpCode::OpCode00ee(), 0) == (final(self)@, r),
    {
        match self.stack.pop() {
            Ok(addr) => {
                self.pc = addr;
                Ok(())
            },
            Err(e) => Err(from_stack_err(e)),
        }
    }

    fn execute_00e0(&mut self) -> (r: Result<(), InterpreterErr>)
        ensures
            final(self).platform_adapter == old(self).platform_adapter,
            exec_op(old(self)@, 0, OpCode::OpCode00e0(), 0) == (final(self)@, r),
    {
        self.display_buffer = [[0u8; RES_X]; RES_Y];
        assert(display_view(self.display_buffer) =~= blank_display()) by {
            assert forall|y: int| 0 <= y < RES_Y implies display_view(self.display_buffer)[y]
                =~= blank_display()[y] by {}
        }
        Ok(())
    }

    fn execute_1nnn(&mut self, addr: u16) -> (r: Result<(), InterpreterErr>)
        ensures
            final(self).platform_adapter == old(self).platform_adapter,
            exec_op(old(self)@, 0, OpCode::OpCode1nnn(addr), 0) == (final(self)@, r),
    {
        self.pc = addr;
        Ok(())
    }

    fn execute_2nnn(&mut self, addr: u16) -> (r: Result<(), InterpreterErr>)
        ensures
            final(self).platform_adapter == old(self).platform_adapter,
            exec_op(old(self)@, 0, OpCode::OpCode2nnn(addr), 0) == (final(self)@, r),
    {
        match self.stack.push(self.pc) {
            Ok(()) => {
                self.pc = addr;
                Ok(())
            },
            Err(e) => Err(from_stack_err(e)),
        }
    }

    fn execute_3xnn(&mut self, vx_idx: u8, val: u8) -> (r: Result<(), InterpreterErr>)
        ensures
            final(self).platform_adapter == old(self).platform_adapter,
            exec_op(old(self)@, 0, OpCode::OpCode3xnn(vx_idx, val), 0) == (final(self)@, r),
    {
        let vx_val = self.read_v_reg(vx_idx)?;
        if vx_val == val {
            self.pc = self.pc.wrapping_add(2);
        }
        Ok(())
    }

    fn execute_4xnn(&mut self, vx_idx: u8, val: u8) -> (r: Result<(), InterpreterErr>)
        ensures
            final(self).platform_adapter == old(self).platform_adapter,
            exec_op(old(self)@, 0, OpCode::OpCode4xnn(vx_idx, val), 0) == (final(self)@, r),
    {
        let vx_val = self.read_v_reg(vx_idx)?;
        if vx_val != val {
            self.pc = self.pc.wrapping_add(2);
        }
        Ok(())
    }

    fn execute_5xy0(&mut self, vx_idx: u8, vy_idx: u8) -> (r: Result<(), InterpreterErr>)
        ensures
            final(self).platform_adapter == old(self).platform_adapter,
            exec_op(old(self)@, 0, OpCode::OpCode5xy0(vx_idx, vy_idx), 0) == (final(self)@, r),
    {
        let vx_val = self.read_v_reg(vx_idx)?;
        let vy_val = self.read_v_reg(vy_idx)?;
        if vx_val == vy_val {
            self.pc = self.pc.wrapping_add(2);
        }
        Ok(())
    }

    fn execute_6xnn(&mut self, vx_idx: u8, val: u8) -> (r: Result<(), InterpreterErr>)
        ensures
            final(self).platform_adapter == old(self).platform_adapter,
            exec_op(old(self)@, 0, OpCode::OpCode6xnn(vx_idx, val), 0) == (final(self)@, r),
    {
        self.write_v_reg(vx_idx, val)
    }

    fn execute_7xnn(&mut self, vx_idx: u8, val: u8) -> (r: Result<(), InterpreterErr>)
        ensures
            final(self).platform_adapter == old(self).platform_adapter,
            exec_op(old(self)@, 0, OpCode::OpCode7xnn(vx_idx, val), 0) == (final(self)@, r),
    {
        let vx_val = self.read_v_reg(vx_idx)?;
        let result = ((vx_val as u16 + val as u16) % 256) as u8;
        self.write_v_reg(vx_idx, result)
    }

    fn execute_8xy0(&mut self, vx_idx: u8, vy_idx: u8) -> (r: Result<(), InterpreterErr>)
        ensures
            final(self).platform_adapter == old(self).platform_adapter,
            exec_op(old(self)@, 0, OpCode::OpCode8xy0(vx_idx, vy_idx), 0) == (final(self)@, r),
    {
        self.read_v_reg(vx_idx)?;
        let vy_val = self.read_v_reg(vy_idx)?;
        self.write_v_reg(vx_idx, vy_val)
    }

    fn execute_8xy1(&mut self, vx_idx: u8, vy_idx: u8) -> (r: Result<(), InterpreterErr>)
        ensures
            final(self).platform_adapter == old(self).platform_adapter,
            exec_op(old(self)@, 0, OpCode::OpCode8xy1(vx_idx, vy_idx), 0) == (final(self)@, r),
    {
        let vx_val = self.read_v_reg(vx_idx)?;
        let vy_val = self.read_v_reg(vy_idx)?;
        self.write_v_reg(vx_idx, vx_val | vy_val)
    }

    fn execute_8xy2(&mut self, vx_idx: u8, vy_idx: u8) -> (r: Result<(), InterpreterErr>)
        ensures
            final(self).platform_adapter == old(self).platform_adapter,
            exec_op(old(self)@, 0, OpCode::OpCode8xy2(vx_idx, vy_idx), 0) == (final(self)@, r),
    {
        let vx_val = self.read_v_reg(vx_idx)?;
        let vy_val = self.read_v_reg(vy_idx)?;
        self.write_v_reg(vx_idx, vx_val & vy_val)
    }

    fn execute_8xy3(&mut self, vx_idx: u8, vy_idx: u8) -> (r: Result<(), InterpreterErr>)
        ensures
            final(self).platform_adapter == old(self).platform_adapter,
            exec_op(old(self)@, 0, OpCode::OpCode8xy3(vx_idx, vy_idx), 0) == (final(self)@, r),
    {
        let vx_val = self.read_v_reg(vx_idx)?;
        let vy_val = self.read_v_reg(vy_idx)?;
        self.write_v_reg(vx_idx, vx_val ^ vy_val)
    }

    fn execute_8xy4(&mut self, vx_idx: u8, vy_idx: u8) -> (r: Result<(), InterpreterErr>)
        ensures
            final(self).platform_adapter == old(self).platform_adapter,
            exec_op(old(self)@, 0, OpCode::OpCode8xy4(vx_idx, vy_idx), 0) == (final(self)@, r),
    {
        let vx_val = self.read_v_reg(vx_idx)?;
        let vy_val = self.read_v_reg(vy_idx)?;
        let sum = vx_val as u16 + vy_val as u16;
        self.write_v_reg(vx_idx, (sum % 256) as u8)?;
        if sum <= 255 {
            self.write_v_reg(0x0F, 0x00)
        } else {
            self.write_v_reg(0x0F, 0x01)
        }
    }

    fn execute_8xy5(&mut self, vx_idx: u8, vy_idx: u8) -> (r: Result<(), InterpreterErr>)
        ensures
            final(self).platform_adapter == old(self).platform_adapter,
            exec_op(old(self)@, 0, OpCode::OpCode8xy5(vx_idx, vy_idx), 0) == (final(self)@, r),
    {
        let vx_val = self.read_v_reg(vx_idx)?;
        let vy_val = self.read_v_reg(vy_idx)?;
        let result = ((vx_val as u16 + 256 - vy_val as u16) % 256) as u8;
        self.write_v_reg(vx_idx, result)?;
        if vx_val < vy_val {
            self.write_v_reg(0x0F, 0x00)
        } else {
            self.write_v_reg(0x0F, 0x01)
        }
    }

    fn execute_8xy6(&mut self, vx_idx: u8) -> (r: Result<(), InterpreterErr>)
        ensures
            final(self).platform_adapter == old(self).platform_adapter,
            crate::machine::shift_right(old(self)@, vx_idx, 0, false) == (final(self)@, r),
    {
        let val = self.read_v_reg(vx_idx)?;
        self.write_v_reg(0x0F, 0x01 & val)?;
        assert(0x01 & val == val & 1) by (bit_vector);
        self.write_v_reg(vx_idx, val >> 1)
    }

    fn execute_8xy6_quirk_mode(&mut self, vx_idx: u8, vy_idx: u8) -> (r: Result<(), InterpreterErr>)
        ensures
            final(self).platform_adapter == old(self).platform_adapter,
            crate::machine::shift_right(old(self)@, vx_idx, vy_idx, true) == (final(self)@, r),
    {
        self.read_v_reg(vx_idx)?;
        let val = self.read_v_reg(vy_idx)?;
        self.write_v_reg(0x0F, 0x01 & val)?;
        assert(0x01 & val == val & 1) by (bit_vector);
        self.write_v_reg(vx_idx, val >> 1)
    }

    fn execute_8xy7(&mut self, vx_idx: u8, vy_idx: u8) -> (r: Result<(), InterpreterErr>)
        ensures
            final(self).platform_adapter == old(self).platform_adapter,
            exec_op(old(self)@, 0, OpCode::OpCode8xy7(vx_idx, vy_idx), 0) == (final(self)@, r),
    {
        let vx_val = self.read_v_reg(vx_idx)?;
        let vy_val = self.read_v_reg(vy_idx)?;
        let result = ((vy_val as u16 + 256 - vx_val as u16) % 256) as u8;
        if vy_val < vx_val {
            self.write_v_reg(0x0F, 0x00)?;
        } else {
            self.write_v_reg(0x0F, 0x01)?;
        }
        self.write_v_reg(vx_idx, result)
    }

    fn execute_8xye(&mut self, vx_idx: u8) -> (r: Result<(), InterpreterErr>)
        ensures
            final(self).platform_adapter == old(self).platform_adapter,
            crate::machine::shift_left(old(self)@, vx_idx, 0, false) == (final(self)@, r),
    {
        let val = self.read_v_reg(vx_idx)?;
        self.write_v_reg(0x0F, val >> 7)?;
        self.write_v_reg(vx_idx, ((val as u16 * 2) % 256) as u8)
    }

    fn execute_8xye_quirk_mode(&mut self, vx_idx: u8, vy_idx: u8) -> (r: Result<(), InterpreterErr>)
        ensures
            final(self).platform_adapter == old(self).platform_adapter,
            crate::machine::shift_left(old(self)@, vx_idx, vy_idx, true) == (final(self)@, r),
    {
        self.read_v_reg(vx_idx)?;
        let val = self.read_v_reg(vy_idx)?;
        self.write_v_reg(0x0F, val >> 7)?;
        self.write_v_reg(vx_idx, ((val as u16 * 2) % 256) as u8)
    }

    fn execute_9xy0(&mut self, vx_idx: u8, vy_idx: u8) -> (r: Result<(), InterpreterErr>)
        ensures
            final(self).platform_adapter == old(self).platform_adapter,
            exec_op(old(self)@, 0, OpCode::OpCode9xy0(vx_idx, vy_idx), 0) == (final(self)@, r),
    {
        let vx_val = self.read_v_reg(vx_idx)?;
        let vy_val = self.read_v_reg(vy_idx)?;
        if vx_val != vy_val {
            self.pc = self.pc.wrapping_add(2);
        }
        Ok(())
    }

    fn execute_annn(&mut self, addr: u16) -> (r: Result<(), InterpreterErr>)
        ensures
            final(self).platform_adapter == old(self).platform_adapter,
            exec_op(old(self)@, 0, OpCode::OpCodeAnnn(addr), 0) == (final(self)@, r),
    {
        self.i_reg = addr;
        Ok(())
    }

    fn execute_bnnn(&mut self, addr: u16) -> (r: Result<(), InterpreterErr>)
        ensures
            final(self).platform_adapter == old(self).platform_adapter,
            exec_op(old(self)@, 0, OpCode::OpCodeBnnn(addr), 0) == (final(self)@, r),
    {
        let v0_val = self.read_v_reg(0x00)? as u16;
        self.i_reg = addr.wrapping_add(v0_val);
        Ok(())
    }

    fn execute_cxnn(&mut self, vx_idx: u8, mask: u8, rand_val: u8) -> (r: Result<(), InterpreterErr>)
        ensures
            final(self).platform_adapter == old(self).platform_adapter,
            exec_op(old(self)@, 0, OpCode::OpCodeCxnn(vx_idx, mask), rand_val) == (final(self)@, r),
    {
        self.write_v_reg(vx_idx, rand_val & mask)
    }

    fn execute_dxyn(&mut self, vx_idx: u8, vy_idx: u8, count: u8) -> (r: Result<(), InterpreterErr>)
        ensures
            final(self).platform_adapter == old(self).platform_adapter,
            exec_op(old(self)@, 0, OpCode::OpCodeDxyn(vx_idx, vy_idx, count), 0) == (
                final(self)@,
                r,
            ),
    {
        let ghost s0 = self@;
        let x_start = self.read_v_reg(vx_idx)?;
        let y_start = self.read_v_reg(vy_idx)?;
        let addr = self.i_reg as usize;
        if count > 0 && addr + count as usize > MEM_SZ {
            return Err(InterpreterErr::MemFault);
        }
        let ghost rows = Seq::new(count as nat, |r: int| s0.memory[addr + r]);
        let mut did_toggle_pixel_off = false;
        let mut line: usize = 0;
        while line < count as usize
            invariant
                self.platform_adapter == old(self).platform_adapter,
                line <= count,
                count == 0 || addr + count <= MEM_SZ,
                rows == Seq::new(count as nat, |r: int| s0.memory[addr + r]),
                x_start == s0.v_regs[vx_idx as int],
                y_start == s0.v_regs[vy_idx as int],
                self@ == (MachineState {
                    display: draw_pixels(s0.display, x_start, y_start, rows, 8 * line as nat).0,
                    ..s0
                }),
                did_toggle_pixel_off == draw_pixels(
                    s0.display,
                    x_start,
                    y_start,
                    rows,
                    8 * line as nat,
                ).1,
            decreases count - line,
        {
            let sprite_data = self.memory[addr + line];
            let mut col: usize = 0;
            while col < 8
                invariant
                    self.platform_adapter == old(self).platform_adapter,
                    col <= 8,
                    line < count,
                    addr + count <= MEM_SZ,
                    sprite_data == rows[line as int],
                    self@ == (MachineState {
                        display: draw_pixels(
                            s0.display,
                            x_start,
                            y_start,
                            rows,
                            (8 * line + col) as nat,
                        ).0,
                        ..s0
                    }),
                    did_toggle_pixel_off == draw_pixels(
                        s0.display,
                        x_start,
                        y_start,
                        rows,
                        (8 * line + col) as nat,
                    ).1,
                decreases 8 - col,
            {
                let k = 8 * line + col;
                assert(k / 8 == line && k % 8 == col) by (nonlinear_arith)
                    requires
                        k == 8 * line + col,
                        col < 8,
                ;
                let bit = (sprite_data >> (7 - col as u8)) & 1;
                let hit = self.draw(x_start as usize + col, y_start as usize + line, bit);
                did_toggle_pixel_off = did_toggle_pixel_off || hit;
                col = col + 1;
            }
            line = line + 1;
        }
        if did_toggle_pixel_off {
            self.write_v_reg(0x0F, 0x01)
        } else {
            self.write_v_reg(0x0F, 0x00)
        }
    }

    fn execute_ex9e(&mut self, vx_idx: u8) -> (r: Result<(), InterpreterErr>)
        ensures
            final(self).platform_adapter == old(self).platform_adapter,
            exec_op(old(self)@, 0, OpCode::OpCodeEx9e(vx_idx), 0) == (final(self)@, r),
    {
        let vx_val = self.read_v_reg(vx_idx)?;
        match self.key_press {
            Some(keycode) => {
                if keycode.value() == vx_val {
                    self.pc = self.pc.wrapping_add(2);
                }
            },
            None => {},
        }
        Ok(())
    }

    fn execute_exa1(&mut self, vx_idx: u8) -> (r: Result<(), InterpreterErr>)
        ensures
            final(self).platform_adapter == old(self).platform_adapter,
            exec_op(old(self)@, 0, OpCode::OpCodeExa1(vx_idx), 0) == (final(self)@, r),
    {
        let vx_val = self.read_v_reg(vx_idx)?;
        match self.key_press {
            Some(keycode) => {
                if keycode.value() != vx_val {
                    self.pc = self.pc.wrapping_add(2);
                }
            },
            None => {},
        }
        Ok(())
    }

    fn execute_fx07(&mut self, vx_idx: u8) -> (r: Result<(), InterpreterErr>)
        ensures
            final(self).platform_adapter == old(self).platform_adapter,
            exec_op(old(self)@, 0, OpCode::OpCodeFx07(vx_idx), 0) == (final(self)@, r),
    {
        self.read_v_reg(vx_idx)?;
        let delay_value = self.delay_timer.tick(100);
        self.write_v_reg(vx_idx, delay_value)
    }

    fn execute_fx0a(&mut self, vx_idx: u8) -> (r: Result<(), InterpreterErr>)
        ensures
            final(self).platform_adapter == old(self).platform_adapter,
            exec_op(old(self)@, 0, OpCode::OpCodeFx0a(vx_idx), 0) == (final(self)@, r),
    {
        self.key_await_dest_reg = Some(KeyAwaitOp { dest_v_reg: vx_idx });
        Ok(())
    }

    fn execute_fx15(&mut self, vx_idx: u8) -> (r: Result<(), InterpreterErr>)
        ensures
            final(self).platform_adapter == old(self).platform_adapter,
            exec_op(old(self)@, 0, OpCode::OpCodeFx15(vx_idx), 0) == (final(self)@, r),
    {
        let val = self.read_v_reg(vx_idx)?;
        self.start_delay_timer(val);
        Ok(())
    }

    fn execute_fx18(&mut self, vx_idx: u8) -> (r: Result<(), InterpreterErr>)
        ensures
            (r is Err) ==> final(self).platform_adapter == old(self).platform_adapter,
            exec_op(old(self)@, 0, OpCode::OpCodeFx18(vx_idx), 0) == (final(self)@, r),
    {
        let val = self.read_v_reg(vx_idx)?;
        self.start_sound_timer(val);
        Ok(())
    }

    fn execute_fx1e(&mut self, vx_idx: u8) -> (r: Result<(), InterpreterErr>)
        ensures
            final(self).platform_adapter == old(self).platform_adapter,
            crate::machine::add_index(old(self)@, vx_idx, false) == (final(self)@, r),
    {
        let val = self.read_v_reg(vx_idx)?;
        self.i_reg = self.i_reg.wrapping_add(val as u16);
        Ok(())
    }

    fn execute_fx1e_quirk_mode(&mut self, vx_idx: u8) -> (r: Result<(), InterpreterErr>)
        ensures
            final(self).platform_adapter == old(self).platform_adapter,
            crate::machine::add_index(old(self)@, vx_idx, true) == (final(self)@, r),
    {
        let val = self.read_v_reg(vx_idx)?;
        let did_overflow = self.i_reg as u32 + val as u32 > 0xFFFF;
        self.i_reg = self.i_reg.wrapping_add(val as u16);
        if did_overflow {
            self.write_v_reg(0x0F, 0x01)
        } else {
            self.write_v_reg(0x0F, 0x00)
        }
    }

    fn execute_fx29(&mut self, vx_idx: u8) -> (r: Result<(), InterpreterErr>)
        ensures
            final(self).platform_adapter == old(self).platform_adapter,
            exec_op(old(self)@, 0, OpCode::OpCodeFx29(vx_idx), 0) == (final(self)@, r),
    {
        let val = self.read_v_reg(vx_idx)?;
        self.i_reg = val as u16 * 5;
        Ok(())
    }

    fn execute_fx33(&mut self, vx_idx: u8) -> (r: Result<(), InterpreterErr>)
        ensures
            final(self).platform_adapter == old(self).platform_adapter,
            exec_op(old(self)@, 0, OpCode::OpCodeFx33(vx_idx), 0) == (final(self)@, r),
    {
        let val = self.read_v_reg(vx_idx)?;
        let addr = self.i_reg as usize;
        if addr + 2 >= MEM_SZ {
            return Err(InterpreterErr::MemFault);
        }
        let hundreds_place = val / 100;
        let tens_place = (val / 10) % 10;
        let ones_place = val % 10;
        self.set_mem_at(addr, hundreds_place)?;
        self.set_mem_at(addr + 1, tens_place)?;
        self.set_mem_at(addr + 2, ones_place)
    }

    fn execute_fx55(&mut self, vx_idx: u8) -> (r: Result<(), InterpreterErr>)
        ensures
            final(self).platform_adapter == old(self).platform_adapter,
            crate::machine::store_regs(old(self)@, vx_idx, false) == (final(self)@, r),
    {
        let ghost s0 = self@;
        let ghost stored = crate::machine::store_regs(s0, vx_idx, false).0;
        let addr = self.i_reg as usize;
        let mut x: usize = 0;
        while x <= vx_idx as usize
            invariant
                self.platform_adapter == old(self).platform_adapter,
                x <= vx_idx + 1,
                x <= REG_COUNT,
                x == 0 || addr + x <= MEM_SZ,
                addr == s0.i_reg,
                stored == crate::machine::store_regs(s0, vx_idx, false).0,
                s0 == old(self)@,
                self@ == (MachineState { memory: self@.memory, ..s0 }),
                self@.memory.len() == MEM_SZ,
                forall|a: int|
                    0 <= a < MEM_SZ ==> #[trigger] self@.memory[a] == if addr <= a < addr + x {
                        s0.v_regs[a - addr]
                    } else {
                        s0.memory[a]
                    },
            decreases vx_idx + 1 - x,
        {
            if x >= REG_COUNT {
                assert(self@.memory =~= stored.memory);
                return Err(InterpreterErr::InvalidRegister);
            }
            if addr + x >= MEM_SZ {
                assert(self@.memory =~= stored.memory);
                return Err(InterpreterErr::MemFault);
            }
            let v_reg_val = self.v_regs[x];
            self.memory[addr + x] = v_reg_val;
            x = x + 1;
        }
        assert(self@.memory =~= stored.memory);
        Ok(())
    }

    fn execute_fx55_quirk_mode(&mut self, vx_idx: u8) -> (r: Result<(), InterpreterErr>)
        ensures
            final(self).platform_adapter == old(self).platform_adapter,
            crate::machine::store_regs(old(self)@, vx_idx, true) == (final(self)@, r),
    {
        self.execute_fx55(vx_idx)?;
        self.i_reg = self.i_reg + vx_idx as u16 + 1;
        Ok(())
    }

    fn execute_fx65(&mut self, vx_idx: u8) -> (r: Result<(), InterpreterErr>)
        ensures
            final(self).platform_adapter == old(self).platform_adapter,
            crate::machine::load_regs(old(self)@, vx_idx, false) == (final(self)@, r),
    {
        let ghost s0 = self@;
        let ghost loaded = crate::machine::load_regs(s0, vx_idx, false).0;
        let addr = self.i_reg as usize;
        let mut x: usize = 0;
        while x <= vx_idx as usize
            invariant
                self.platform_adapter == old(self).platform_adapter,
                x <= vx_idx + 1,
                x <= REG_COUNT,
                x == 0 || addr + x <= MEM_SZ,
                addr == s0.i_reg,
                loaded == crate::machine::load_regs(s0, vx_idx, false).0,
                s0 == old(self)@,
                self@ == (MachineState { v_regs: self@.v_regs, ..s0 }),
                self@.v_regs.len() == REG_COUNT,
                forall|r: int|
                    0 <= r < REG_COUNT ==> #[trigger] self@.v_regs[r] == if r < x {
                        s0.memory[addr + r]
                    } else {
                        s0.v_regs[r]
                    },
            decreases vx_idx + 1 - x,
        {
            if addr + x >= MEM_SZ {
                assert(self@.v_regs =~= loaded.v_regs);
                return Err(InterpreterErr::MemFault);
            }
            if x >= REG_COUNT {
                assert(self@.v_regs =~= loaded.v_regs);
                return Err(InterpreterErr::InvalidRegister);
            }
            let mem_val = self.memory[addr + x];
            self.v_regs[x] = mem_val;
            x = x + 1;
        }
        assert(self@.v_regs =~= loaded.v_regs);
        Ok(())
    }

    fn execute_fx65_quirk_mode(&mut self, vx_idx: u8) -> (r: Result<(), InterpreterErr>)
        ensures
            final(self).platform_adapter == old(self).platform_adapter,
            crate::machine::load_regs(old(self)@, vx_idx, true) == (final(self)@, r),
    {
        self.execute_fx65(vx_idx)?;
        self.i_reg = self.i_reg + vx_idx as u16 + 1;
        Ok(())
    }
}

} // verus!
