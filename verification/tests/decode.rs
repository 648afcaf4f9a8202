use chip8::instruction::u16_from_nibbles;
use chip8::instruction::u8_from_nibbles;
use chip8::Instruction;

#[test]
fn nibble_concatenation() {
    assert_eq!(u8_from_nibbles(0xA, 0x5), 0xA5);
    assert_eq!(u8_from_nibbles(0x0, 0x0), 0x00);
    assert_eq!(u8_from_nibbles(0xF, 0xF), 0xFF);
    assert_eq!(u16_from_nibbles(0x1, 0x2, 0x3), 0x123);
    assert_eq!(u16_from_nibbles(0xF, 0xF, 0xF), 0xFFF);
    assert_eq!(u16_from_nibbles(0x0, 0x0, 0x0), 0x000);
}

#[test]
fn decode_screen_and_flow() {
    assert_eq!(Instruction::decode([0, 0, 0xE, 0]), Some(Instruction::ClearScreen));
    assert_eq!(Instruction::decode([0, 0, 0xE, 0xE]), Some(Instruction::ReturnFromSubroutine));
    assert_eq!(Instruction::decode([0, 1, 2, 3]), Some(Instruction::JumpToMachineCode(0x123)));
    assert_eq!(Instruction::decode([1, 2, 3, 4]), Some(Instruction::JumpTo(0x234)));
    assert_eq!(Instruction::decode([2, 0xA, 0xB, 0xC]), Some(Instruction::ExecuteSubroutine(0xABC)));
    assert_eq!(Instruction::decode([0xB, 1, 0, 0]), Some(Instruction::JumpToOffset(0x100)));
}

#[test]
fn decode_skips() {
    assert_eq!(Instruction::decode([3, 4, 0, 5]), Some(Instruction::SkipEqTo(4, 5)));
    assert_eq!(Instruction::decode([4, 4, 1, 0]), Some(Instruction::SkipNeqTo(4, 0x10)));
    assert_eq!(Instruction::decode([5, 1, 2, 0]), Some(Instruction::SkipEq(1, 2)));
    assert_eq!(Instruction::decode([9, 1, 2, 0]), Some(Instruction::SkipNeq(1, 2)));
    assert_eq!(Instruction::decode([0xE, 3, 9, 0xE]), Some(Instruction::SkipIfKeyPressed(3)));
    assert_eq!(Instruction::decode([0xE, 3, 0xA, 1]), Some(Instruction::SkipIfKeyNotPressed(3)));
}

#[test]
fn decode_register_ops() {
    assert_eq!(Instruction::decode([6, 1, 0, 5]), Some(Instruction::StoreValue(1, 5)));
    assert_eq!(Instruction::decode([7, 1, 0, 3]), Some(Instruction::AddValue(1, 3)));
    assert_eq!(Instruction::decode([8, 1, 2, 0]), Some(Instruction::StoreRegister(1, 2)));
    assert_eq!(Instruction::decode([8, 1, 2, 1]), Some(Instruction::Or(1, 2)));
    assert_eq!(Instruction::decode([8, 1, 2, 2]), Some(Instruction::And(1, 2)));
    assert_eq!(Instruction::decode([8, 1, 2, 3]), Some(Instruction::Xor(1, 2)));
    assert_eq!(Instruction::decode([8, 1, 2, 4]), Some(Instruction::AddRegister(1, 2)));
    assert_eq!(Instruction::decode([8, 1, 2, 5]), Some(Instruction::SubRegister(1, 2)));
    assert_eq!(Instruction::decode([8, 1, 2, 6]), Some(Instruction::ShiftRight(1, 2)));
    assert_eq!(Instruction::decode([8, 1, 2, 7]), Some(Instruction::SubRegisterReverse(1, 2)));
    assert_eq!(Instruction::decode([8, 1, 2, 0xE]), Some(Instruction::ShiftLeft(1, 2)));
}

#[test]
fn decode_misc() {
    assert_eq!(Instruction::decode([0xA, 1, 2, 3]), Some(Instruction::StoreAddr(0x123)));
    assert_eq!(Instruction::decode([0xC, 2, 0xF, 0]), Some(Instruction::StoreRandom(2, 0xF0)));
    assert_eq!(Instruction::decode([0xD, 1, 2, 5]), Some(Instruction::DrawSprite(1, 2, 5)));
    assert_eq!(Instruction::decode([0xF, 1, 0, 7]), Some(Instruction::StoreDelayTimer(1)));
    assert_eq!(Instruction::decode([0xF, 1, 0, 0xA]), Some(Instruction::WaitForKeypress(1)));
    assert_eq!(Instruction::decode([0xF, 1, 1, 5]), Some(Instruction::SetDelayTimer(1)));
    assert_eq!(Instruction::decode([0xF, 1, 1, 8]), Some(Instruction::SetSoundTimer(1)));
    assert_eq!(Instruction::decode([0xF, 1, 1, 0xE]), Some(Instruction::AddToI(1)));
    assert_eq!(Instruction::decode([0xF, 1, 2, 9]), Some(Instruction::StoreDigitLocation(1)));
    assert_eq!(Instruction::decode([0xF, 1, 3, 3]), Some(Instruction::StoreBinaryCoded(1)));
    assert_eq!(Instruction::decode([0xF, 1, 5, 5]), Some(Instruction::StoreRegisters(1)));
    assert_eq!(Instruction::decode([0xF, 1, 6, 5]), Some(Instruction::LoadRegisters(1)));
}

#[test]
fn decode_unknown_patterns() {
    assert_eq!(Instruction::decode([0xF, 1, 0xF, 0xF]), None);
    assert_eq!(Instruction::decode([5, 1, 2, 1]), None);
    assert_eq!(Instruction::decode([8, 1, 2, 8]), None);
    assert_eq!(Instruction::decode([9, 1, 2, 1]), None);
    assert_eq!(Instruction::decode([0xE, 1, 0, 0]), None);
}

#[test]
fn mnemonics_render() {
    assert_eq!(Instruction::ClearScreen.mnemonic(), "clear");
    assert_eq!(Instruction::ReturnFromSubroutine.mnemonic(), "return");
    assert_eq!(Instruction::JumpTo(0x234).mnemonic(), "jump 0x234");
    assert_eq!(Instruction::JumpToMachineCode(0x123).mnemonic(), "machine_jump 0x123");
    assert_eq!(Instruction::ExecuteSubroutine(0xABC).mnemonic(), "call 0xabc");
    assert_eq!(Instruction::SkipEqTo(4, 5).mnemonic(), "skip_if v4 == 5");
    assert_eq!(Instruction::SkipNeqTo(4, 16).mnemonic(), "skip_if v4 != 16");
    assert_eq!(Instruction::SkipEq(1, 2).mnemonic(), "skip_if v1 == v2");
    assert_eq!(Instruction::StoreValue(1, 5).mnemonic(), "v1 := 5");
    assert_eq!(Instruction::AddValue(1, 255).mnemonic(), "v1 += 255");
    assert_eq!(Instruction::StoreRegister(1, 2).mnemonic(), "v1 := v2");
    assert_eq!(Instruction::Or(1, 2).mnemonic(), "v1 |= v2");
    assert_eq!(Instruction::And(1, 2).mnemonic(), "v1 &= v2");
    assert_eq!(Instruction::Xor(1, 2).mnemonic(), "v1 ^= v2");
    assert_eq!(Instruction::AddRegister(1, 2).mnemonic(), "v1 += v2");
    assert_eq!(Instruction::SubRegister(1, 2).mnemonic(), "v1 -= v2");
    assert_eq!(Instruction::ShiftRight(1, 2).mnemonic(), "v1 = v2 >> 1");
    assert_eq!(Instruction::SubRegisterReverse(1, 2).mnemonic(), "v1 = v2 - v1");
    assert_eq!(Instruction::ShiftLeft(1, 2).mnemonic(), "v1 = v2 << 1");
    assert_eq!(Instruction::SkipNeq(1, 2).mnemonic(), "skip_if v1 != v2");
    assert_eq!(Instruction::StoreAddr(0xFFF).mnemonic(), "i := 0xfff");
    assert_eq!(Instruction::JumpToOffset(0x300).mnemonic(), "jump v0 + 0x300");
    assert_eq!(Instruction::StoreRandom(2, 5).mnemonic(), "v2 := random() & 0b101");
    assert_eq!(Instruction::DrawSprite(1, 2, 5).mnemonic(), "draw v1, v2, 5");
    assert_eq!(Instruction::SkipIfKeyPressed(3).mnemonic(), "skip_if_pressed v3");
    assert_eq!(Instruction::SkipIfKeyNotPressed(3).mnemonic(), "skip_if_not_pressed v3");
    assert_eq!(Instruction::StoreDelayTimer(1).mnemonic(), "v1 := delay");
    assert_eq!(Instruction::WaitForKeypress(10).mnemonic(), "wait_keypress va");
    assert_eq!(Instruction::SetDelayTimer(1).mnemonic(), "delay := v1");
    assert_eq!(Instruction::SetSoundTimer(1).mnemonic(), "sound := v1");
    assert_eq!(Instruction::AddToI(1).mnemonic(), "i += v1");
    assert_eq!(Instruction::StoreDigitLocation(1).mnemonic(), "i := digit_location v1");
    assert_eq!(Instruction::StoreBinaryCoded(1).mnemonic(), "binary_encode v1");
    assert_eq!(Instruction::StoreRegisters(3).mnemonic(), "store_registers v0 .. v3");
    assert_eq!(Instruction::LoadRegisters(3).mnemonic(), "load_registers v0 .. v3");
}

#[test]
fn disassembly_of_a_program() {
    let program = [0x61, 0x05, 0x71, 0x03, 0x00, 0xEE];
    let text = chip8::dissassemble(&program).unwrap();
    assert_eq!(text, "v1 := 5\nv1 += 3\nreturn\n");
}

#[test]
fn disassembly_stops_at_unknown_word() {
    let program = [0x61, 0x05, 0xFF, 0xFF, 0x71, 0x03];
    let text = chip8::dissassemble(&program).unwrap();
    assert_eq!(text, "v1 := 5\n");
}

#[test]
fn disassembly_ignores_a_leftover_byte() {
    let program = [0x61, 0x05, 0x71];
    let text = chip8::dissassemble(&program).unwrap();
    assert_eq!(text, "v1 := 5\n");
}
