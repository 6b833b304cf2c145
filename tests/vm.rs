use chip8::interpreter::{ControlFlow, ExecError, Fault, Interpreter, Opcode};

fn step(vm: &mut Interpreter) -> Result<(), ExecError> {
    let op = vm.fetch().expect("instruction inside memory");
    vm.execute(op)
}

fn run(vm: &mut Interpreter, n: usize) {
    for _ in 0..n {
        step(vm).expect("instruction runs");
    }
}

#[test]
fn load_immediate_sets_every_register() {
    for x in 0u8..16 {
        for &kk in &[0x00u8, 0x01, 0x7F, 0x80, 0xAB, 0xFF] {
            let mut vm = Interpreter::new(&[0x60 | x, kk]);
            run(&mut vm, 1);
            assert_eq!(vm.reg_v(x), kk);
            assert_eq!(vm.program_counter, 0x202);
        }
    }
}

#[test]
fn add_immediate_wraps_and_keeps_flag() {
    let mut vm = Interpreter::new(&[0x60, 250, 0x6F, 0x07, 0x70, 10]);
    run(&mut vm, 3);
    assert_eq!(vm.reg_v(0), 4);
    assert_eq!(vm.reg_v(0xF), 7);
}

#[test]
fn add_registers_sets_carry() {
    let mut vm = Interpreter::new(&[0x60, 200, 0x61, 100, 0x80, 0x14]);
    run(&mut vm, 3);
    assert_eq!(vm.reg_v(0), 44);
    assert_eq!(vm.reg_v(0xF), 1);

    let mut vm = Interpreter::new(&[0x60, 10, 0x61, 10, 0x80, 0x14]);
    run(&mut vm, 3);
    assert_eq!(vm.reg_v(0), 20);
    assert_eq!(vm.reg_v(0xF), 0);
}

#[test]
fn subtract_registers_borrow_polarity() {
    let mut vm = Interpreter::new(&[0x60, 10, 0x61, 3, 0x80, 0x15]);
    run(&mut vm, 3);
    assert_eq!(vm.reg_v(0), 7);
    assert_eq!(vm.reg_v(0xF), 1);

    let mut vm = Interpreter::new(&[0x60, 3, 0x61, 10, 0x80, 0x15]);
    run(&mut vm, 3);
    assert_eq!(vm.reg_v(0), 249);
    assert_eq!(vm.reg_v(0xF), 0);
}

#[test]
fn reverse_subtract_and_shifts() {
    // V0 = 3, V1 = 10; 8017: V0 = V1 - V0 = 7, no borrow.
    let mut vm = Interpreter::new(&[0x60, 3, 0x61, 10, 0x80, 0x17]);
    run(&mut vm, 3);
    assert_eq!(vm.reg_v(0), 7);
    assert_eq!(vm.reg_v(0xF), 1);

    // V1 = 0b1000_0011; 8016: V0 = V1 >> 1, VF = 1.
    let mut vm = Interpreter::new(&[0x61, 0x83, 0x80, 0x16]);
    run(&mut vm, 2);
    assert_eq!(vm.reg_v(0), 0x41);
    assert_eq!(vm.reg_v(0xF), 1);

    // 801E: V0 = V1 << 1 modulo 256, VF = 1.
    let mut vm = Interpreter::new(&[0x61, 0x83, 0x80, 0x1E]);
    run(&mut vm, 2);
    assert_eq!(vm.reg_v(0), 0x06);
    assert_eq!(vm.reg_v(0xF), 1);
}

#[test]
fn bitwise_register_operations() {
    let mut vm = Interpreter::new(&[
        0x60, 0b1100, 0x61, 0b1010, 0x82, 0x00, 0x82, 0x11, 0x83, 0x00, 0x83, 0x12, 0x84, 0x00,
        0x84, 0x13,
    ]);
    run(&mut vm, 8);
    assert_eq!(vm.reg_v(2), 0b1110);
    assert_eq!(vm.reg_v(3), 0b1000);
    assert_eq!(vm.reg_v(4), 0b0110);
}

#[test]
fn call_then_return() {
    // 0x200: call 0x300; 0x300: return.
    let mut rom = vec![0u8; 0x102];
    rom[0] = 0x23;
    rom[1] = 0x00;
    rom[0x100] = 0x00;
    rom[0x101] = 0xEE;
    let mut vm = Interpreter::new(&rom);
    run(&mut vm, 1);
    assert_eq!(vm.stack.len(), 1);
    assert_eq!(vm.stack.peek(), Some(0x202));
    assert_eq!(vm.program_counter, 0x300);
    run(&mut vm, 1);
    assert_eq!(vm.program_counter, 0x202);
    assert_eq!(vm.stack.len(), 0);
}

#[test]
fn wait_for_key_blocks_until_pressed() {
    let mut vm = Interpreter::new(&[0x63, 0x55, 0xF3, 0x0A]);
    run(&mut vm, 1);
    for _ in 0..5 {
        run(&mut vm, 1);
        assert_eq!(vm.program_counter, 0x202);
        assert_eq!(vm.reg_v(3), 0x55);
    }
    vm.handle_input(0xB, true);
    vm.handle_input(0x4, true);
    run(&mut vm, 1);
    assert_eq!(vm.program_counter, 0x204);
    assert_eq!(vm.reg_v(3), 0x4);
}

#[test]
fn delay_timer_reaches_zero_in_real_time() {
    // V0 = 5; delay = V0; loop forever.
    let mut vm = Interpreter::new(&[0x60, 5, 0xF0, 0x15, 0x12, 0x04]);
    let mut now: u64 = 0;
    let mut set_at: Option<u64> = None;
    let mut last = u8::MAX;
    while now < 200_000 {
        now += 1000;
        vm.run_cycle(now).expect("cycle runs");
        if set_at.is_none() && vm.program_counter == 0x204 {
            set_at = Some(now);
            assert_eq!(vm.timers.delay_timer, 5);
        }
        if set_at.is_some() {
            assert!(vm.timers.delay_timer <= last);
            last = vm.timers.delay_timer;
        }
        if let Some(t) = set_at {
            if now - t < 3 * 16_666 {
                assert!(vm.timers.delay_timer > 0);
            }
            if now - t >= 5 * 16_666 + 1000 {
                assert_eq!(vm.timers.delay_timer, 0);
            }
        }
    }
    assert_eq!(vm.timers.delay_timer, 0);
}

#[test]
fn cycles_are_rate_limited_but_timers_tick() {
    let mut vm = Interpreter::new(&[0x60, 1, 0x61, 2]);
    assert_eq!(vm.run_cycle(1000), Ok(false));
    assert_eq!(vm.program_counter, 0x200);
    assert_eq!(vm.run_cycle(2500), Ok(true));
    assert_eq!(vm.program_counter, 0x202);
    assert_eq!(vm.last_cycle, 2500);
    assert_eq!(vm.run_cycle(4000), Ok(false));
    assert_eq!(vm.run_cycle(4501), Ok(true));
    assert_eq!(vm.reg_v(1), 2);
}

#[test]
fn draw_twice_through_instructions() {
    // I = font glyph of 0; draw at (0, 0) twice.
    let mut vm = Interpreter::new(&[0xA0, 0x00, 0xD0, 0x05, 0xD0, 0x05]);
    run(&mut vm, 2);
    assert_eq!(vm.reg_v(0xF), 0);
    assert!(vm.get_display_buffer()[0]);
    assert!(vm.get_display_buffer()[3]);
    assert!(!vm.get_display_buffer()[4]);
    run(&mut vm, 1);
    assert_eq!(vm.reg_v(0xF), 1);
    assert!(vm.get_display_buffer().iter().all(|&p| !p));
}

#[test]
fn clear_display_instruction() {
    let mut vm = Interpreter::new(&[0xA0, 0x00, 0xD0, 0x05, 0x00, 0xE0]);
    run(&mut vm, 2);
    assert!(vm.get_display_buffer().iter().any(|&p| p));
    run(&mut vm, 1);
    assert!(vm.get_display_buffer().iter().all(|&p| !p));
}

#[test]
fn skips_and_jumps() {
    // 3000: V0 == 0 -> skip.
    let mut vm = Interpreter::new(&[0x30, 0x00]);
    run(&mut vm, 1);
    assert_eq!(vm.program_counter, 0x204);
    // 4000: V0 != 0 -> no skip.
    let mut vm = Interpreter::new(&[0x40, 0x00]);
    run(&mut vm, 1);
    assert_eq!(vm.program_counter, 0x202);
    // 5010: V0 == V1 -> skip; 9010: V0 != V1 -> no skip.
    let mut vm = Interpreter::new(&[0x50, 0x10, 0x00, 0x00, 0x90, 0x10]);
    run(&mut vm, 2);
    assert_eq!(vm.program_counter, 0x206);
    // 1ABC jumps.
    let mut vm = Interpreter::new(&[0x1A, 0xBC]);
    run(&mut vm, 1);
    assert_eq!(vm.program_counter, 0xABC);
    // B300 with V0 = 0x10 jumps to 0x310.
    let mut vm = Interpreter::new(&[0x60, 0x10, 0xB3, 0x00]);
    run(&mut vm, 2);
    assert_eq!(vm.program_counter, 0x310);
}

#[test]
fn key_skips() {
    let mut vm = Interpreter::new(&[0x60, 0x7, 0xE0, 0x9E, 0x00, 0x00, 0xE0, 0xA1]);
    vm.handle_input(0x7, true);
    run(&mut vm, 2);
    assert_eq!(vm.program_counter, 0x206);
    run(&mut vm, 1);
    assert_eq!(vm.program_counter, 0x208);

    let mut vm = Interpreter::new(&[0x60, 0x7, 0xE0, 0xA1]);
    run(&mut vm, 2);
    assert_eq!(vm.program_counter, 0x206);
}

#[test]
fn index_and_timer_instructions() {
    let mut vm = Interpreter::new(&[
        0xA1, 0x23, 0x60, 0x05, 0xF0, 0x1E, 0x61, 0x0A, 0xF1, 0x29, 0xF0, 0x18, 0xF0, 0x15, 0xF2,
        0x07,
    ]);
    run(&mut vm, 3);
    assert_eq!(vm.reg_i, 0x128);
    run(&mut vm, 2);
    assert_eq!(vm.reg_i, 50);
    run(&mut vm, 3);
    assert_eq!(vm.timers.sound_timer, 5);
    assert_eq!(vm.timers.delay_timer, 5);
    assert_eq!(vm.reg_v(2), 5);
}

#[test]
fn decimal_digits_and_register_transfer() {
    // V0 = 234; I = 0x300; store digits; then V0..=V2 = mem[I..I+3].
    let mut vm = Interpreter::new(&[0x60, 234, 0xA3, 0x00, 0xF0, 0x33, 0xF2, 0x65]);
    run(&mut vm, 3);
    assert_eq!(vm.memory.read_byte(0x300), 2);
    assert_eq!(vm.memory.read_byte(0x301), 3);
    assert_eq!(vm.memory.read_byte(0x302), 4);
    run(&mut vm, 1);
    assert_eq!((vm.reg_v(0), vm.reg_v(1), vm.reg_v(2)), (2, 3, 4));

    // V0 = 9, V1 = 8; I = 0x400; store V0..=V1; only two bytes change.
    let mut vm = Interpreter::new(&[0x60, 9, 0x61, 8, 0x62, 7, 0xA4, 0x00, 0xF1, 0x55]);
    run(&mut vm, 5);
    assert_eq!(vm.memory.read_byte(0x400), 9);
    assert_eq!(vm.memory.read_byte(0x401), 8);
    assert_eq!(vm.memory.read_byte(0x402), 0);
}

#[test]
fn random_byte_is_masked() {
    for _ in 0..50 {
        let mut vm = Interpreter::new(&[0x60, 0xFF, 0xC0, 0x0F, 0xC1, 0x00]);
        run(&mut vm, 3);
        assert_eq!(vm.reg_v(0) & 0xF0, 0);
        assert_eq!(vm.reg_v(1), 0);
    }
}

#[test]
fn random_instruction_from_given_byte() {
    let mut vm = Interpreter::new(&[]);
    let flow = chip8::interpreter::instructions::instr_Cxkk_from(&mut vm, 2, 0x3C, 0xA5);
    assert_eq!(flow, ControlFlow::Next);
    assert_eq!(vm.reg_v(2), 0x24);
    assert_eq!(vm.execute_with(Opcode::new(0xC3, 0xF0), 0x5A), Ok(()));
    assert_eq!(vm.reg_v(3), 0x50);
}

#[test]
fn invalid_opcode_is_reported() {
    let mut vm = Interpreter::new(&[0x01, 0x23]);
    assert_eq!(
        step(&mut vm),
        Err(ExecError { fault: Fault::InvalidOpcode, opcode: 0x0123, pc: 0x200 })
    );
    assert_eq!(vm.program_counter, 0x200);
    let mut vm = Interpreter::new(&[0x80, 0x18]);
    assert_eq!(step(&mut vm).unwrap_err().fault, Fault::InvalidOpcode);
    let mut vm = Interpreter::new(&[0xF0, 0x99]);
    assert_eq!(step(&mut vm).unwrap_err().fault, Fault::InvalidOpcode);
}

#[test]
fn stack_underflow_is_reported() {
    let mut vm = Interpreter::new(&[0x00, 0xEE]);
    assert_eq!(
        step(&mut vm),
        Err(ExecError { fault: Fault::StackUnderflow, opcode: 0x00EE, pc: 0x200 })
    );
}

#[test]
fn stack_overflow_is_reported() {
    let mut vm = Interpreter::new(&[0x22, 0x00]);
    run(&mut vm, 16);
    assert_eq!(vm.stack.len(), 16);
    assert_eq!(
        step(&mut vm),
        Err(ExecError { fault: Fault::StackOverflow, opcode: 0x2200, pc: 0x200 })
    );
    assert_eq!(vm.stack.len(), 16);
}

#[test]
fn out_of_range_accesses_are_reported() {
    // Jump to the last byte: the fetch cannot read two bytes.
    let mut vm = Interpreter::new(&[0x1F, 0xFF]);
    assert_eq!(vm.run_cycle(3000), Ok(true));
    assert!(vm.fetch().is_none());
    assert_eq!(
        vm.run_cycle(6000),
        Err(ExecError { fault: Fault::AddressOutOfRange, opcode: 0, pc: 0xFFF })
    );
    // I = 0xFFF; store three digits.
    let mut vm = Interpreter::new(&[0xAF, 0xFF, 0xF0, 0x33]);
    run(&mut vm, 1);
    assert_eq!(step(&mut vm).unwrap_err().fault, Fault::AddressOutOfRange);
    // I = 0xFFE; draw five rows.
    let mut vm = Interpreter::new(&[0xAF, 0xFE, 0xD0, 0x05]);
    run(&mut vm, 1);
    assert_eq!(step(&mut vm).unwrap_err().fault, Fault::AddressOutOfRange);
}

#[test]
fn bad_key_and_digit_are_reported() {
    let mut vm = Interpreter::new(&[0x60, 0x10, 0xE0, 0x9E]);
    run(&mut vm, 1);
    assert_eq!(step(&mut vm).unwrap_err().fault, Fault::InvalidKey);
    let mut vm = Interpreter::new(&[0x60, 0x10, 0xF0, 0x29]);
    run(&mut vm, 1);
    assert_eq!(step(&mut vm).unwrap_err().fault, Fault::InvalidDigit);
}

#[test]
fn opcode_fields() {
    let op = Opcode::new(0xD1, 0x2F);
    assert_eq!(op.nibbles, [0xD, 0x1, 0x2, 0xF]);
    assert_eq!(op.word(), 0xD12F);
    assert_eq!(op.nnn(), 0x12F);
    assert_eq!(op.kk(), 0x2F);
}

#[test]
fn new_machine_state() {
    let vm = Interpreter::new(&[0xAB, 0xCD]);
    assert_eq!(vm.program_counter, 0x200);
    assert_eq!(vm.reg_i, 0);
    assert_eq!(vm.reg_v, [0; 16]);
    assert_eq!(vm.stack.len(), 0);
    assert_eq!(vm.memory.read_byte(0x200), 0xAB);
    assert_eq!(vm.memory.read_byte(0x201), 0xCD);
    assert_eq!(vm.memory.read_byte(0), 0xF0);
    assert!(vm.get_display_buffer().iter().all(|&p| !p));
}
