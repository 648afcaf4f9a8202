use chip8::call_stack;
use chip8::memory;
use chip8::Instruction;
use chip8::Machine;
use chip8::RunFlow;
use chip8::TickError;
use chip8::TickFlow;

#[test]
fn new_machine_starts_at_the_entry_point() {
    let m = Machine::new();
    assert_eq!(m.ip_register, 0x200);
    assert_eq!(m.i_register, 0);
    assert_eq!(m.registers, [0; 16]);
    assert_eq!(m.delay_timer, 0);
    assert_eq!(m.sound_timer, 0);
    // the font is installed at the bottom of memory
    assert_eq!(m.memory.get(0), Ok(0xF0));
    assert_eq!(m.memory.get(79), Ok(0x80));
}

#[test]
fn register_mut_writes_through() {
    let mut m = Machine::new();
    *m.register_mut(4) = 42;
    assert_eq!(m.register(4), 42);
}

#[test]
fn store_register_reads_back_prior_value() {
    let mut m = Machine::new();
    m.store_value(2, 77).unwrap();
    let before = m.register(2);
    assert_eq!(m.store_register(1, 2), Ok(TickFlow::Advance));
    assert_eq!(m.register(1), before);
}

#[test]
fn add_register_carry_law() {
    let mut m = Machine::new();
    // sum exceeds 255: wrapped result, VF = 1
    m.store_value(1, 200).unwrap();
    m.store_value(2, 100).unwrap();
    m.add_register(1, 2).unwrap();
    assert_eq!(m.register(1), 44);
    assert_eq!(m.register(0xF), 1);
    // sum within range: VF = 0
    m.store_value(1, 1).unwrap();
    m.store_value(2, 2).unwrap();
    m.add_register(1, 2).unwrap();
    assert_eq!(m.register(1), 3);
    assert_eq!(m.register(0xF), 0);
}

#[test]
fn add_register_with_vf_as_target_keeps_the_flag_last() {
    let mut m = Machine::new();
    m.store_value(0xF, 200).unwrap();
    m.store_value(2, 100).unwrap();
    m.add_register(0xF, 2).unwrap();
    // the carry flag is the last register-affecting step, so it wins over
    // the wrapped sum
    assert_eq!(m.register(0xF), 1);
}

#[test]
fn sub_register_borrow_law() {
    let mut m = Machine::new();
    // borrow occurred: VF = 0
    m.store_value(1, 5).unwrap();
    m.store_value(2, 10).unwrap();
    m.sub_register(1, 2).unwrap();
    assert_eq!(m.register(1), 251);
    assert_eq!(m.register(0xF), 0);
    // no borrow: VF = 1
    m.store_value(1, 10).unwrap();
    m.store_value(2, 5).unwrap();
    m.sub_register(1, 2).unwrap();
    assert_eq!(m.register(1), 5);
    assert_eq!(m.register(0xF), 1);
}

#[test]
fn sub_register_reverse_borrow_law() {
    let mut m = Machine::new();
    m.store_value(1, 10).unwrap();
    m.store_value(2, 3).unwrap();
    m.sub_register_reverse(1, 2).unwrap();
    // VX := VY - VX wraps; VY < VX is a borrow, VF = 0
    assert_eq!(m.register(1), 249);
    assert_eq!(m.register(0xF), 0);
    m.store_value(1, 3).unwrap();
    m.store_value(2, 10).unwrap();
    m.sub_register_reverse(1, 2).unwrap();
    assert_eq!(m.register(1), 7);
    assert_eq!(m.register(0xF), 1);
}

#[test]
fn shift_right_law() {
    let mut m = Machine::new();
    m.store_value(2, 0b1011).unwrap();
    m.shift_right(1, 2).unwrap();
    assert_eq!(m.register(1), 0b101);
    assert_eq!(m.register(0xF), 1);
    assert_eq!(m.register(2), 0b1011);
    m.store_value(2, 0b1010).unwrap();
    m.shift_right(1, 2).unwrap();
    assert_eq!(m.register(1), 0b101);
    assert_eq!(m.register(0xF), 0);
}

#[test]
fn shift_left_law_keeps_the_raw_mask() {
    let mut m = Machine::new();
    m.store_value(2, 0b1000_0001).unwrap();
    m.shift_left(1, 2).unwrap();
    assert_eq!(m.register(1), 0b10);
    // the raw most-significant bit, not normalized to 1
    assert_eq!(m.register(0xF), 0x80);
    assert_eq!(m.register(2), 0b1000_0001);
    m.store_value(2, 0b0100_0001).unwrap();
    m.shift_left(1, 2).unwrap();
    assert_eq!(m.register(1), 0b1000_0010);
    assert_eq!(m.register(0xF), 0);
}

#[test]
fn add_value_wraps_without_touching_vf() {
    let mut m = Machine::new();
    m.store_value(1, 250).unwrap();
    m.store_value(0xF, 9).unwrap();
    m.add_value(1, 10).unwrap();
    assert_eq!(m.register(1), 4);
    assert_eq!(m.register(0xF), 9);
}

#[test]
fn bitwise_ops() {
    let mut m = Machine::new();
    m.store_value(1, 0b1100).unwrap();
    m.store_value(2, 0b1010).unwrap();
    m.or(1, 2).unwrap();
    assert_eq!(m.register(1), 0b1110);
    m.store_value(1, 0b1100).unwrap();
    m.and(1, 2).unwrap();
    assert_eq!(m.register(1), 0b1000);
    m.store_value(1, 0b1100).unwrap();
    m.xor(1, 2).unwrap();
    assert_eq!(m.register(1), 0b0110);
}

#[test]
fn skips_consult_register_values() {
    let mut m = Machine::new();
    m.store_value(1, 5).unwrap();
    assert_eq!(m.skip_eq_to(1, 5), Ok(TickFlow::Skip));
    assert_eq!(m.skip_eq_to(1, 6), Ok(TickFlow::Advance));
    assert_eq!(m.skip_neq_to(1, 6), Ok(TickFlow::Skip));
    assert_eq!(m.skip_neq_to(1, 5), Ok(TickFlow::Advance));
    m.store_value(2, 5).unwrap();
    m.store_value(3, 7).unwrap();
    assert_eq!(m.skip_eq(1, 2), Ok(TickFlow::Skip));
    assert_eq!(m.skip_eq(1, 3), Ok(TickFlow::Advance));
    assert_eq!(m.skip_neq(1, 3), Ok(TickFlow::Skip));
    assert_eq!(m.skip_neq(1, 2), Ok(TickFlow::Advance));
}

#[test]
fn subroutine_call_and_return() {
    let mut m = Machine::new();
    assert_eq!(m.execute_subroutine(0x400), Ok(TickFlow::GoTo(0x400)));
    // the return address is the instruction after the call
    assert_eq!(m.return_from_subroutine(), Ok(TickFlow::GoTo(0x202)));
    // returning with no call active underflows
    assert_eq!(
        m.return_from_subroutine(),
        Err(TickError::StackError(call_stack::Error::Underflow))
    );
}

#[test]
fn subroutine_nesting_limit() {
    let mut m = Machine::new();
    for _ in 0..12 {
        assert_eq!(m.execute_subroutine(0x400), Ok(TickFlow::GoTo(0x400)));
    }
    let before_regs = m.registers;
    let before_ip = m.ip_register;
    assert_eq!(
        m.execute_subroutine(0x400),
        Err(TickError::StackError(call_stack::Error::Overflow))
    );
    // the failed call left the machine unchanged
    assert_eq!(m.registers, before_regs);
    assert_eq!(m.ip_register, before_ip);
    assert_eq!(m.return_from_subroutine(), Ok(TickFlow::GoTo(0x202)));
}

#[test]
fn jumps() {
    let mut m = Machine::new();
    assert_eq!(m.jump_to(0x345), Ok(TickFlow::GoTo(0x345)));
    assert_eq!(m.jump_to_machine_code(0x345), Err(TickError::Unimplemented));
    m.store_value(0, 5).unwrap();
    assert_eq!(m.jump_to_offset(0x300), Ok(TickFlow::GoTo(0x305)));
}

#[test]
fn store_random_respects_the_mask() {
    let mut m = Machine::new();
    for _ in 0..32 {
        assert_eq!(m.store_random(1, 0x0F), Ok(TickFlow::Advance));
        assert_eq!(m.register(1) & !0x0F, 0);
    }
    m.store_random(1, 0).unwrap();
    assert_eq!(m.register(1), 0);
}

#[test]
fn store_random_masked_is_exact() {
    let mut m = Machine::new();
    assert_eq!(m.store_random_masked(1, 0x0F, 0xAB), Ok(TickFlow::Advance));
    assert_eq!(m.register(1), 0x0B);
}

#[test]
fn timers() {
    let mut m = Machine::new();
    m.store_value(1, 2).unwrap();
    m.set_delay_timer(1).unwrap();
    m.set_sound_timer(1).unwrap();
    assert_eq!(m.delay_timer, 2);
    assert_eq!(m.sound_timer, 2);
    m.store_delay_timer(3).unwrap();
    assert_eq!(m.register(3), 2);
    m.decrement_timers();
    assert_eq!(m.delay_timer, 1);
    m.decrement_timers();
    m.decrement_timers();
    // saturating: never below zero
    assert_eq!(m.delay_timer, 0);
    assert_eq!(m.sound_timer, 0);
}

#[test]
fn index_register_ops() {
    let mut m = Machine::new();
    assert_eq!(m.store_addr(0x123), Ok(TickFlow::Advance));
    assert_eq!(m.i_register, 0x123);
    m.store_value(1, 10).unwrap();
    m.add_to_i(1).unwrap();
    assert_eq!(m.i_register, 0x12D);
    // wrapping addition
    m.store_addr(0xFFFF).unwrap();
    m.store_value(1, 2).unwrap();
    m.add_to_i(1).unwrap();
    assert_eq!(m.i_register, 1);
}

#[test]
fn digit_location_points_into_the_font() {
    let mut m = Machine::new();
    m.store_value(3, 0x2A).unwrap();
    m.store_digit_location(3).unwrap();
    // the low nibble names the digit; glyphs are five bytes each
    assert_eq!(m.i_register, 0xA * 5);
    assert_eq!(m.memory.get(m.i_register), Ok(0xF0));
}

#[test]
fn binary_coded_decimal_of_205() {
    let mut m = Machine::new();
    m.store_value(1, 205).unwrap();
    m.store_addr(0x300).unwrap();
    assert_eq!(m.store_binary_coded(1), Ok(TickFlow::Advance));
    assert_eq!(m.memory.get(0x300), Ok(2));
    assert_eq!(m.memory.get(0x301), Ok(0));
    assert_eq!(m.memory.get(0x302), Ok(5));
    // the index register itself is unchanged
    assert_eq!(m.i_register, 0x300);
}

#[test]
fn binary_coded_decimal_out_of_bounds_changes_nothing() {
    let mut m = Machine::new();
    m.store_value(1, 205).unwrap();
    m.store_addr(4094).unwrap();
    assert_eq!(
        m.store_binary_coded(1),
        Err(TickError::MemoryError(memory::Error::RangeOutOfBound(4094, 3)))
    );
    assert_eq!(m.memory.get(4094), Ok(0));
    assert_eq!(m.i_register, 4094);
}

#[test]
fn bulk_store_and_load_move_the_index() {
    let mut m = Machine::new();
    m.store_value(0, 10).unwrap();
    m.store_value(1, 11).unwrap();
    m.store_value(2, 12).unwrap();
    m.store_value(3, 13).unwrap();
    m.store_addr(0x400).unwrap();
    assert_eq!(m.store_registers(3), Ok(TickFlow::Advance));
    assert_eq!(m.memory.get(0x400), Ok(10));
    assert_eq!(m.memory.get(0x401), Ok(11));
    assert_eq!(m.memory.get(0x402), Ok(12));
    assert_eq!(m.memory.get(0x403), Ok(13));
    // the index register points one past the last address written
    assert_eq!(m.i_register, 0x404);
    // registers above VX are untouched by a load
    m.store_addr(0x400).unwrap();
    m.store_value(5, 99).unwrap();
    assert_eq!(m.load_registers(2), Ok(TickFlow::Advance));
    assert_eq!(m.register(0), 10);
    assert_eq!(m.register(1), 11);
    assert_eq!(m.register(2), 12);
    assert_eq!(m.register(5), 99);
    assert_eq!(m.i_register, 0x403);
}

#[test]
fn bulk_store_out_of_bounds_changes_nothing() {
    let mut m = Machine::new();
    m.store_addr(4090).unwrap();
    assert_eq!(
        m.store_registers(8),
        Err(TickError::MemoryError(memory::Error::RangeOutOfBound(4090, 9)))
    );
    assert_eq!(m.i_register, 4090);
    assert_eq!(m.memory.get(4090), Ok(0));
}

#[test]
fn keypad_skip_instructions_use_steady_state() {
    let mut m = Machine::new();
    m.store_value(1, 0xB).unwrap();
    assert_eq!(m.skip_if_key_pressed(1), Ok(TickFlow::Advance));
    assert_eq!(m.skip_if_key_not_pressed(1), Ok(TickFlow::Skip));
    m.keypad.press(0xB);
    m.keypad.reset();
    // the edge set is empty, but the steady state still says pressed
    assert_eq!(m.skip_if_key_pressed(1), Ok(TickFlow::Skip));
    assert_eq!(m.skip_if_key_not_pressed(1), Ok(TickFlow::Advance));
}

#[test]
fn wait_for_keypress_scenario() {
    let mut m = Machine::new();
    let program = [0xF5, 0x0A];
    m.load_program(&program).unwrap();
    // with no pressed keys every step reports Wait and changes nothing
    for _ in 0..5 {
        assert_eq!(m.step(), Ok(RunFlow::Wait));
        assert_eq!(m.ip_register, 0x200);
        assert_eq!(m.register(5), 0);
    }
    // a key transition resolves the wait exactly once
    m.keypad.press(0xA);
    assert_eq!(m.step(), Ok(RunFlow::Continue));
    assert_eq!(m.register(5), 0xA);
    assert_eq!(m.ip_register, 0x202);
}

#[test]
fn store_and_add_scenario() {
    // 6105: store 5 into V1; 7103: add 3 to V1; 00EE at program start
    let program = [0x61, 0x05, 0x71, 0x03, 0x00, 0xEE];
    let mut m = Machine::new();
    m.load_program(&program).unwrap();
    assert_eq!(m.current_instruction(), Ok(Instruction::StoreValue(1, 5)));
    assert_eq!(m.step(), Ok(RunFlow::Continue));
    assert_eq!(m.current_instruction(), Ok(Instruction::AddValue(1, 3)));
    assert_eq!(m.step(), Ok(RunFlow::Continue));
    // after two ticks V1 holds 8 and the program counter advanced 4 bytes
    assert_eq!(m.register(1), 8);
    assert_eq!(m.ip_register, 0x204);
}

#[test]
fn draw_scenario_with_collision() {
    let mut m = Machine::new();
    // decoding byte pair 0xD1, 0x25 names a 5-line draw at (V1, V2)
    assert_eq!(Instruction::decode([0xD, 0x1, 0x2, 0x5]), Some(Instruction::DrawSprite(1, 2, 5)));
    // V1 = 0, V2 = 0, index register 0: the glyph for digit 0 at (0, 0)
    assert_eq!(m.draw_sprite(1, 2, 5), Ok(TickFlow::Advance));
    assert_eq!(m.register(0xF), 0);
    assert!(m.screen.pixel(0, 0));
    assert!(m.screen.pixel(3, 0));
    assert!(!m.screen.pixel(1, 1));
    // an identical draw clears exactly the pixels of the first and collides
    assert_eq!(m.draw_sprite(1, 2, 5), Ok(TickFlow::Advance));
    assert_eq!(m.register(0xF), 1);
    for x in 0..64 {
        for y in 0..32 {
            assert!(!m.screen.pixel(x, y));
        }
    }
}

#[test]
fn draw_out_of_bounds_changes_nothing() {
    let mut m = Machine::new();
    m.store_addr(4093).unwrap();
    assert_eq!(
        m.draw_sprite(1, 2, 5),
        Err(TickError::MemoryError(memory::Error::RangeOutOfBound(4093, 5)))
    );
    assert_eq!(m.register(0xF), 0);
}

#[test]
fn clear_screen_instruction() {
    let mut m = Machine::new();
    m.draw_sprite(1, 2, 5).unwrap();
    assert_eq!(m.clear_screen(), Ok(TickFlow::Advance));
    for x in 0..64 {
        for y in 0..32 {
            assert!(!m.screen.pixel(x, y));
        }
    }
}

#[test]
fn tick_leaves_the_machine_unchanged_on_errors() {
    let mut m = Machine::new();
    // an unknown bit pattern: FFFF
    m.load_program(&[0xFF, 0xFF]).unwrap();
    assert_eq!(m.tick(), Err(TickError::Unknown));
    assert_eq!(m.ip_register, 0x200);
    assert_eq!(m.registers, [0; 16]);
    // an unreadable program counter
    m.ip_register = 4095;
    assert_eq!(m.tick(), Err(TickError::MemoryError(memory::Error::OutOfBound(4096))));
    assert_eq!(m.ip_register, 4095);
    m.ip_register = 5000;
    assert_eq!(m.tick(), Err(TickError::MemoryError(memory::Error::OutOfBound(5000))));
    assert_eq!(m.ip_register, 5000);
}

#[test]
fn tick_does_not_move_the_program_counter() {
    let mut m = Machine::new();
    m.load_program(&[0x61, 0x05]).unwrap();
    assert_eq!(m.tick(), Ok(TickFlow::Advance));
    assert_eq!(m.register(1), 5);
    assert_eq!(m.ip_register, 0x200);
}

#[test]
fn step_applies_each_flow_directive() {
    // skip: 3105 with V1 == 5
    let mut m = Machine::new();
    m.load_program(&[0x61, 0x05, 0x31, 0x05]).unwrap();
    m.step().unwrap();
    assert_eq!(m.ip_register, 0x202);
    m.step().unwrap();
    assert_eq!(m.ip_register, 0x206);
    // jump: 1400
    let mut m = Machine::new();
    m.load_program(&[0x14, 0x00]).unwrap();
    m.step().unwrap();
    assert_eq!(m.ip_register, 0x400);
}

#[test]
fn run_executes_a_frame_of_steps() {
    // a tight loop: jump to the program start
    let mut m = Machine::new();
    m.load_program(&[0x12, 0x00]).unwrap();
    assert_eq!(m.run(), Ok(RunFlow::Continue));
    assert_eq!(m.ip_register, 0x200);
    // a wait stops the frame early
    let mut m = Machine::new();
    m.load_program(&[0xF1, 0x0A]).unwrap();
    assert_eq!(m.run(), Ok(RunFlow::Wait));
    // an error stops the frame and is reported
    let mut m = Machine::new();
    m.load_program(&[0xFF, 0xFF]).unwrap();
    assert_eq!(m.run(), Err(TickError::Unknown));
}

#[test]
fn machine_load_program_rejects_oversized_programs() {
    let mut m = Machine::new();
    let too_large = vec![0u8; 4096 - 0x200 + 1];
    assert_eq!(m.load_program(&too_large), Err(memory::Error::ProgramTooLarge));
    assert_eq!(m.memory.get(0x200), Ok(0));
}
