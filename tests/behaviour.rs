use chip8::callstack::{CallStack, CallStackErr};
use chip8::interpreter::{Chip8Interpreter, InterpreterErr, KeyAwaitOp, MEM_SZ, RES_X, RES_Y, START_ADDR};
use chip8::keycodes::KeyCodes;
use chip8::opcode::{decode, DecodedInstruction, OpCode};
use chip8::platform_adapter::PlatformAdapter;
use chip8::quirk_flags::QuirkFlags;
use chip8::timer::Timer;

struct FixedPlatform {
    random_val: u8,
    play_count: u32,
    pause_count: u32,
}

impl PlatformAdapter for FixedPlatform {
    fn play_sound(&mut self) {
        self.play_count += 1;
    }

    fn pause_sound(&mut self) {
        self.pause_count += 1;
    }

    fn get_random_val(&self) -> u8 {
        self.random_val
    }
}

fn machine_with(rom: Vec<u8>) -> Chip8Interpreter<FixedPlatform> {
    let platform = FixedPlatform { random_val: 0, play_count: 0, pause_count: 0 };
    match Chip8Interpreter::new(platform, rom) {
        Ok(m) => m,
        Err(_) => panic!("the program should fit"),
    }
}

fn run(m: &mut Chip8Interpreter<FixedPlatform>, word: u16) -> Result<(), InterpreterErr> {
    m.execute_instruction(&decode(word, m.quirks))
}

fn lit_pixels(m: &Chip8Interpreter<FixedPlatform>) -> usize {
    let mut n = 0;
    for y in 0..RES_Y {
        for x in 0..RES_X {
            if m.display_buffer[y][x] != 0 {
                n += 1;
            }
        }
    }
    n
}

#[test]
fn stack_pops_in_reverse_order_and_refuses_a_seventeenth_push() {
    let mut stack = CallStack::new(16);
    assert_eq!(Err(CallStackErr::StackEmpty), stack.pop());
    assert_eq!(None, stack.snapshot());
    for a in 0..16u16 {
        assert_eq!(Ok(()), stack.push(0x200 + a));
    }
    assert!(stack.is_full());
    assert_eq!(Err(CallStackErr::StackOverflow), stack.push(0x999));
    let expected: Vec<u16> = (0..16u16).map(|a| 0x200 + a).collect();
    assert_eq!(Some(expected), stack.snapshot());
    for a in (0..16u16).rev() {
        assert_eq!(Ok(0x200 + a), stack.pop());
    }
    assert!(stack.is_empty());
    assert_eq!(Err(CallStackErr::StackEmpty), stack.pop());
}

#[test]
fn stack_snapshot_keeps_push_order() {
    let mut stack = CallStack::new(4);
    stack.push(7).unwrap();
    stack.push(3).unwrap();
    stack.push(9).unwrap();
    assert_eq!(Some(vec![7, 3, 9]), stack.snapshot());
    assert_eq!(Ok(9), stack.pop());
    assert_eq!(Some(vec![7, 3]), stack.snapshot());
}

#[test]
fn timer_drains_in_exactly_three_hundred_sixty_calls_at_180() {
    let mut timer = Timer::new();
    timer.set(120);
    let mut last = 120;
    for i in 0..360 {
        last = timer.tick(180);
        if i == 358 {
            assert_eq!(1, last);
        }
    }
    assert_eq!(0, last);
    assert_eq!(0, timer.tick(180));
    assert_eq!(120, timer.start_val);
}

#[test]
fn timer_stops_at_zero() {
    let mut timer = Timer::new();
    timer.set(2);
    assert_eq!(1, timer.tick(60));
    assert_eq!(0, timer.tick(60));
    for _ in 0..10 {
        assert_eq!(0, timer.tick(0));
    }
    assert_eq!(0, timer.current_val);
}

#[test]
fn timer_set_restarts_the_count() {
    let mut timer = Timer::new();
    timer.set(5);
    assert_eq!(5, timer.tick(180));
    assert_eq!(5, timer.tick(180));
    timer.set(5);
    assert_eq!(5, timer.tick(180));
    assert_eq!(5, timer.tick(180));
    assert_eq!(4, timer.tick(180));
}

#[test]
fn register_add_sets_carry() {
    let mut m = machine_with(Vec::new());
    m.write_v_reg(0x3, 0xFE).unwrap();
    m.write_v_reg(0x4, 0x01).unwrap();
    run(&mut m, 0x8344).unwrap();
    assert_eq!(Ok(0xFF), m.read_v_reg(0x3));
    assert_eq!(Ok(0x00), m.read_v_reg(0xF));
    m.write_v_reg(0x3, 0xFF).unwrap();
    m.write_v_reg(0x4, 0x03).unwrap();
    run(&mut m, 0x8344).unwrap();
    assert_eq!(Ok(0x02), m.read_v_reg(0x3));
    assert_eq!(Ok(0x01), m.read_v_reg(0xF));
}

#[test]
fn register_add_into_the_flag_register_keeps_the_carry() {
    let mut m = machine_with(Vec::new());
    m.write_v_reg(0xF, 0x10).unwrap();
    m.write_v_reg(0x1, 0x20).unwrap();
    run(&mut m, 0x8F14).unwrap();
    assert_eq!(Ok(0x00), m.read_v_reg(0xF));
}

#[test]
fn register_subtract_reports_no_borrow_with_one() {
    let mut m = machine_with(Vec::new());
    m.write_v_reg(0x5, 0x02).unwrap();
    m.write_v_reg(0x6, 0x01).unwrap();
    run(&mut m, 0x8565).unwrap();
    assert_eq!(Ok(0x01), m.read_v_reg(0x5));
    assert_eq!(Ok(0x01), m.read_v_reg(0xF));
    m.write_v_reg(0x5, 0x01).unwrap();
    m.write_v_reg(0x6, 0x02).unwrap();
    run(&mut m, 0x8565).unwrap();
    assert_eq!(Ok(0xFF), m.read_v_reg(0x5));
    assert_eq!(Ok(0x00), m.read_v_reg(0xF));
}

#[test]
fn shift_right_reads_vy_only_in_quirk_mode() {
    let mut m = machine_with(Vec::new());
    m.write_v_reg(0x1, 0b0000_1101).unwrap();
    m.write_v_reg(0x2, 0b1000_0000).unwrap();
    run(&mut m, 0x8126).unwrap();
    assert_eq!(Ok(0b0000_0110), m.read_v_reg(0x1));
    assert_eq!(Ok(1), m.read_v_reg(0xF));

    let mut q = machine_with(Vec::new());
    q.quirks = QuirkFlags::quirk_8xy6();
    q.write_v_reg(0x1, 0b1111_1110).unwrap();
    q.write_v_reg(0x2, 0b0000_1101).unwrap();
    run(&mut q, 0x8126).unwrap();
    assert_eq!(Ok(0b0000_0110), q.read_v_reg(0x1));
    assert_eq!(Ok(1), q.read_v_reg(0xF));
    assert_eq!(Ok(0b0000_1101), q.read_v_reg(0x2));
}

#[test]
fn sprite_drawn_twice_collides_and_clears() {
    let mut m = machine_with(Vec::new());
    m.i_reg = 0x300;
    m.write_mem(0x300, 0b1010_0101).unwrap();
    m.write_mem(0x301, 0b1111_0000).unwrap();
    m.write_v_reg(0x1, 10).unwrap();
    m.write_v_reg(0x2, 4).unwrap();
    run(&mut m, 0xD122).unwrap();
    assert_eq!(Ok(0), m.read_v_reg(0xF));
    assert_eq!(8, lit_pixels(&m));
    assert_eq!(1, m.display_buffer[4][10]);
    assert_eq!(0, m.display_buffer[4][11]);
    assert_eq!(1, m.display_buffer[4][17]);
    assert_eq!(1, m.display_buffer[5][13]);
    assert_eq!(0, m.display_buffer[5][14]);
    run(&mut m, 0xD122).unwrap();
    assert_eq!(Ok(1), m.read_v_reg(0xF));
    assert_eq!(0, lit_pixels(&m));
}

#[test]
fn sprite_wraps_around_both_edges() {
    let mut m = machine_with(Vec::new());
    m.i_reg = 0x300;
    m.write_mem(0x300, 0xFF).unwrap();
    m.write_mem(0x301, 0x80).unwrap();
    m.write_v_reg(0x1, 62).unwrap();
    m.write_v_reg(0x2, 31).unwrap();
    run(&mut m, 0xD122).unwrap();
    assert_eq!(1, m.display_buffer[31][62]);
    assert_eq!(1, m.display_buffer[31][63]);
    assert_eq!(1, m.display_buffer[31][0]);
    assert_eq!(1, m.display_buffer[31][5]);
    assert_eq!(0, m.display_buffer[31][6]);
    assert_eq!(1, m.display_buffer[0][62]);
    assert_eq!(9, lit_pixels(&m));
}

#[test]
fn sprite_past_the_end_of_memory_faults_and_draws_nothing() {
    let mut m = machine_with(Vec::new());
    m.i_reg = 0xFFE;
    m.write_v_reg(0xF, 7).unwrap();
    assert_eq!(Err(InterpreterErr::MemFault), run(&mut m, 0xD013));
    assert_eq!(0, lit_pixels(&m));
    assert_eq!(Ok(7), m.read_v_reg(0xF));
}

#[test]
fn key_wait_holds_the_program_counter_until_a_key_comes() {
    let mut m = machine_with(vec![0xF3, 0x0A, 0x62, 0x07]);
    let first = m.step(60).unwrap();
    assert_eq!(OpCode::OpCodeFx0a(0x3), first.opcode);
    assert_eq!(Some(KeyAwaitOp { dest_v_reg: 3 }), m.key_await_dest_reg);
    let waiting_pc = m.pc;
    assert_eq!(START_ADDR as u16 + 2, waiting_pc);
    for _ in 0..5 {
        let idle = m.step(60).unwrap();
        assert_eq!(DecodedInstruction::new(), idle);
        assert_eq!(waiting_pc, m.pc);
        assert_eq!(Ok(0), m.read_v_reg(0x3));
    }
    m.key_press = Some(KeyCodes::KeyC);
    let next = m.step(60).unwrap();
    assert_eq!(OpCode::OpCode6xnn(0x2, 0x07), next.opcode);
    assert_eq!(Ok(0x0C), m.read_v_reg(0x3));
    assert_eq!(Ok(0x07), m.read_v_reg(0x2));
    assert_eq!(waiting_pc + 2, m.pc);
    assert_eq!(None, m.key_await_dest_reg);
}

#[test]
fn rom_filling_memory_to_the_last_byte_is_refused() {
    let platform = FixedPlatform { random_val: 0, play_count: 0, pause_count: 0 };
    let fits = Chip8Interpreter::new(platform, vec![0xAB; MEM_SZ - START_ADDR - 1]);
    let m = match fits {
        Ok(m) => m,
        Err(_) => panic!("a program ending before the last byte fits"),
    };
    assert_eq!(Ok(0xAB), m.read_mem(0xFFE));
    assert_eq!(Ok(0x00), m.read_mem(0xFFF));
    for len in [MEM_SZ - START_ADDR, MEM_SZ - START_ADDR + 1] {
        let platform = FixedPlatform { random_val: 0, play_count: 0, pause_count: 0 };
        match Chip8Interpreter::new(platform, vec![0; len]) {
            Err(e) => assert_eq!(InterpreterErr::RomTooLarge, e),
            Ok(_) => panic!("a program of {} bytes does not fit", len),
        }
    }
}

#[test]
fn new_machine_holds_glyphs_and_program() {
    let m = machine_with(vec![0x12, 0x34]);
    assert_eq!(Ok(0xF0), m.read_mem(0));
    assert_eq!(Ok(0x90), m.read_mem(1));
    assert_eq!(Ok(0x80), m.read_mem(79));
    assert_eq!(Ok(0x00), m.read_mem(80));
    assert_eq!(Ok(0x12), m.read_mem(0x200));
    assert_eq!(Ok(0x34), m.read_mem(0x201));
    assert_eq!(0x200, m.pc);
    assert_eq!(0, m.i_reg);
    assert_eq!(0, lit_pixels(&m));
    assert!(m.stack.is_empty());
    assert!(!m.is_sound_playing);
}

#[test]
fn invalid_word_is_reported_with_the_word() {
    let mut m = machine_with(vec![0x51, 0x23]);
    assert_eq!(Err(InterpreterErr::InvalidOpcode(0x5123)), m.step(60).map(|d| d.instr));
    assert_eq!(0x202, m.pc);
    assert_eq!(OpCode::OpCodeInvalid(), decode(0x0000, QuirkFlags::none()).opcode);
    assert_eq!(OpCode::OpCodeInvalid(), decode(0xE1A2, QuirkFlags::none()).opcode);
    assert_eq!(OpCode::OpCodeInvalid(), decode(0xF1FF, QuirkFlags::none()).opcode);
    assert_eq!("", decode(0x8008, QuirkFlags::none()).mnemonic);
}

#[test]
fn every_word_decodes() {
    let mut valid = 0u32;
    let mut per = [0u32; 16];
    for w in 0..=u16::MAX {
        let d = decode(w, QuirkFlags::none());
        assert_eq!(w, d.instr);
        if d.opcode != OpCode::OpCodeInvalid() {
            valid += 1;
            per[(w >> 12) as usize] += 1;
            assert!(!d.mnemonic.is_empty());
        }
    }
    let full = 4096;
    let expected = [2, full, full, full, full, 256, full, full, 9 * 256, 256, full, full, full, full, 2 * 16, 9 * 16];
    assert_eq!(expected, per);
    assert_eq!(43954, valid);
}

#[test]
fn returning_with_an_empty_stack_fails() {
    let mut m = machine_with(Vec::new());
    assert_eq!(Err(InterpreterErr::CallStackEmpty), run(&mut m, 0x00EE));
    assert_eq!(0x200, m.pc);
}

#[test]
fn seventeenth_nested_call_overflows() {
    let mut m = machine_with(Vec::new());
    for _ in 0..16 {
        run(&mut m, 0x2300).unwrap();
    }
    assert_eq!(Err(InterpreterErr::CallStackOverflow), run(&mut m, 0x2400));
    assert_eq!(0x300, m.pc);
    run(&mut m, 0x00EE).unwrap();
    assert_eq!(0x300, m.pc);
}

#[test]
fn register_out_of_range_is_refused_without_change() {
    let mut m = machine_with(Vec::new());
    let op = DecodedInstruction { instr: 0x6001, opcode: OpCode::OpCode6xnn(16, 1), mnemonic: String::new() };
    assert_eq!(Err(InterpreterErr::InvalidRegister), m.execute_instruction(&op));
    assert_eq!(Err(InterpreterErr::InvalidRegister), m.read_v_reg(16));
    assert_eq!(Err(InterpreterErr::InvalidRegister), m.write_v_reg(16, 1));
    let op = DecodedInstruction { instr: 0x8001, opcode: OpCode::OpCode8xy6(1, 16), mnemonic: String::new() };
    m.quirks = QuirkFlags::quirk_8xy6();
    m.write_v_reg(0xF, 9).unwrap();
    assert_eq!(Err(InterpreterErr::InvalidRegister), m.execute_instruction(&op));
    assert_eq!(Ok(9), m.read_v_reg(0xF));
}

#[test]
fn fetch_past_memory_faults() {
    let mut m = machine_with(Vec::new());
    m.pc = 0xFFF;
    assert_eq!(Err(InterpreterErr::MemFault), m.step(60).map(|d| d.instr));
    assert_eq!(0xFFF, m.pc);
    assert_eq!(Err(InterpreterErr::MemFault), m.read_mem(0x1000));
    assert_eq!(Err(InterpreterErr::MemFault), m.write_mem(0xFFFF, 1));
}

#[test]
fn bcd_near_the_end_of_memory_faults_without_writing() {
    let mut m = machine_with(Vec::new());
    m.i_reg = 0xFFE;
    m.write_v_reg(0x1, 234).unwrap();
    assert_eq!(Err(InterpreterErr::MemFault), run(&mut m, 0xF133));
    assert_eq!(Ok(0), m.read_mem(0xFFE));
    m.i_reg = 0xFFD;
    run(&mut m, 0xF133).unwrap();
    assert_eq!(Ok(2), m.read_mem(0xFFD));
    assert_eq!(Ok(3), m.read_mem(0xFFE));
    assert_eq!(Ok(4), m.read_mem(0xFFF));
}

#[test]
fn bulk_store_stops_at_the_end_of_memory() {
    let mut m = machine_with(Vec::new());
    m.quirks = QuirkFlags::quirk_fx55();
    for r in 0..16u8 {
        m.write_v_reg(r, 0x40 + r).unwrap();
    }
    m.i_reg = 0xFFA;
    assert_eq!(Err(InterpreterErr::MemFault), run(&mut m, 0xFE55));
    for a in 0xFFAu16..=0xFFF {
        assert_eq!(Ok(0x40 + (a - 0xFFA) as u8), m.read_mem(a));
    }
    assert_eq!(0xFFA, m.i_reg);
}

#[test]
fn bulk_load_stops_at_the_end_of_memory() {
    let mut m = machine_with(Vec::new());
    for a in 0xFFCu16..=0xFFF {
        m.write_mem(a, 0x70 + (a - 0xFFC) as u8).unwrap();
    }
    m.i_reg = 0xFFC;
    assert_eq!(Err(InterpreterErr::MemFault), run(&mut m, 0xF565));
    for r in 0..4u8 {
        assert_eq!(Ok(0x70 + r), m.read_v_reg(r));
    }
    assert_eq!(Ok(0), m.read_v_reg(4));
}

#[test]
fn font_address_is_five_bytes_per_glyph() {
    let mut m = machine_with(Vec::new());
    m.write_v_reg(0x2, 0xF).unwrap();
    run(&mut m, 0xF229).unwrap();
    assert_eq!(75, m.i_reg);
    assert_eq!(Ok(0xF0), m.read_mem(m.i_reg));
    assert_eq!(Ok(0x80), m.read_mem(m.i_reg + 4));
}

#[test]
fn index_add_wraps_at_sixteen_bits() {
    let mut m = machine_with(Vec::new());
    m.i_reg = 0xFFFE;
    m.write_v_reg(0x1, 0x03).unwrap();
    m.write_v_reg(0xF, 0x05).unwrap();
    run(&mut m, 0xF11E).unwrap();
    assert_eq!(0x0001, m.i_reg);
    assert_eq!(Ok(0x05), m.read_v_reg(0xF));
}

#[test]
fn random_byte_is_masked() {
    let mut m = machine_with(Vec::new());
    m.platform_adapter.random_val = 0b1100_1010;
    run(&mut m, 0xC30F).unwrap();
    assert_eq!(Ok(0b0000_1010), m.read_v_reg(0x3));
}

#[test]
fn sound_stops_once_when_its_timer_runs_out() {
    let mut m = machine_with(vec![0x13, 0x00]);
    m.write_v_reg(0x1, 2).unwrap();
    run(&mut m, 0xF118).unwrap();
    assert_eq!(1, m.platform_adapter.play_count);
    m.pc = 0x200;
    m.step(60).unwrap();
    assert!(m.is_sound_playing);
    m.pc = 0x200;
    m.step(60).unwrap();
    assert!(!m.is_sound_playing);
    assert_eq!(1, m.platform_adapter.pause_count);
    m.pc = 0x200;
    m.step(60).unwrap();
    assert_eq!(1, m.platform_adapter.pause_count);
}

#[test]
fn skip_on_key_compares_the_key_number() {
    let mut m = machine_with(Vec::new());
    m.write_v_reg(0x1, 0xA).unwrap();
    run(&mut m, 0xE1A1).unwrap();
    assert_eq!(0x200, m.pc);
    m.key_press = Some(KeyCodes::KeyA);
    run(&mut m, 0xE19E).unwrap();
    assert_eq!(0x202, m.pc);
    assert_eq!(0xA, KeyCodes::KeyA.value());
    assert_eq!(0xF, KeyCodes::KeyF.value());
}

#[test]
fn clear_display_darkens_every_pixel() {
    let mut m = machine_with(Vec::new());
    m.display_buffer[3][7] = 1;
    m.display_buffer[31][63] = 1;
    run(&mut m, 0x00E0).unwrap();
    assert_eq!(0, lit_pixels(&m));
}

#[test]
fn mnemonics_pad_hexadecimal_operands() {
    assert_eq!("JP 0x005", decode(0x1005, QuirkFlags::none()).mnemonic);
    assert_eq!("LD VA, 0x05", decode(0x6A05, QuirkFlags::none()).mnemonic);
    assert_eq!("RND VC, 0xF", decode(0xCC0F, QuirkFlags::none()).mnemonic);
    assert_eq!("DRW V0, VE, 0x0", decode(0xD0E0, QuirkFlags::none()).mnemonic);
    assert_eq!("CALL 0xFFF", decode(0x2FFF, QuirkFlags::none()).mnemonic);
    assert_eq!("LD I 0xABC", decode(0xAABC, QuirkFlags::none()).mnemonic);
    assert_eq!("SHL VB, V3", decode(0x8B3E, QuirkFlags::quirk_8xye()).mnemonic);
    assert_eq!("SHL VB", decode(0x8B3E, QuirkFlags::quirk_8xy6()).mnemonic);
}

#[test]
fn quirk_flags_combine() {
    let both = QuirkFlags::quirk_fx55().union(QuirkFlags::quirk_fx65());
    assert!(both.contains(QuirkFlags::quirk_fx55()));
    assert!(both.contains(QuirkFlags::quirk_fx65()));
    assert!(!both.contains(QuirkFlags::quirk_8xy6()));
    assert!(both.contains(QuirkFlags::none()));
    assert!(!QuirkFlags::none().contains(QuirkFlags::quirk_fx1e()));
}

#[test]
fn random_instruction_uses_the_byte_it_is_given() {
    let mut m = machine_with(Vec::new());
    m.platform_adapter.random_val = 0xFF;
    m.execute_instruction_with(&decode(0xC3F0, QuirkFlags::none()), 0xAB).unwrap();
    assert_eq!(Ok(0xA0), m.read_v_reg(0x3));
    m.execute_instruction_with(&decode(0x6345, QuirkFlags::none()), 0x00).unwrap();
    assert_eq!(Ok(0x45), m.read_v_reg(0x3));
}

#[test]
fn timer_carries_the_remainder_between_units() {
    let mut timer = Timer::new();
    timer.set(10);
    let mut last = 10;
    for _ in 0..5 {
        last = timer.tick(100);
    }
    assert_eq!(7, last);
    let mut other = Timer::new();
    other.set(100);
    for _ in 0..3 {
        last = other.tick(90);
    }
    assert_eq!(98, last);
    for _ in 3..90 {
        last = other.tick(90);
    }
    assert_eq!(40, last);
}
