//! Instruction decoding: a pure mapping from the four nibbles of a 16-bit
//! instruction word to one of the thirty-five typed instructions, or nothing
//! for an unknown bit pattern. Address operands are three nibbles, immediate
//! byte operands two.

use crate::memory::Address;
use crate::memory::nibble_hi;
use crate::memory::nibble_lo;
use vstd::prelude::*;
use vstd::string::StringExecFns;

verus! {

/// Index of a general-purpose register, `0x0` through `0xF`.
pub type Register = u8;

/// The byte formed from two nibbles, high nibble first.
pub open spec fn spec_byte_from_nibbles(a: u8, b: u8) -> u8 {
    (a * 16 + b) as u8
}

/// The address formed from three nibbles, highest nibble first.
pub open spec fn spec_addr_from_nibbles(a: u8, b: u8, c: u8) -> u16 {
    (a * 256 + b * 16 + c) as u16
}

/// Concatenate two nibbles into a byte.
pub fn u8_from_nibbles(a: u8, b: u8) -> (r: u8)
    requires
        a < 16,
        b < 16,
    ensures
        r == spec_byte_from_nibbles(a, b),
{
    proof {
        assert((a << 4 | b) == a * 16 + b) by (bit_vector)
            requires
                a < 16 && b < 16,
        ;
    }
    a << 4 | b
}

/// Concatenate three nibbles into an address.
pub fn u16_from_nibbles(a: u8, b: u8, c: u8) -> (r: u16)
    requires
        a < 16,
        b < 16,
        c < 16,
    ensures
        r == spec_addr_from_nibbles(a, b, c),
{
    proof {
        assert(((a as u16) << 8 | (b as u16) << 4 | (c as u16)) == (a as u16) * 256 + (b as u16)
            * 16 + (c as u16)) by (bit_vector)
            requires
                a < 16 && b < 16 && c < 16,
        ;
    }
    (a as u16) << 8 | (b as u16) << 4 | (c as u16)
}

/// One decoded instruction of the 35-member set, with its operands.
#[derive(Clone, Copy, Debug, PartialEq, Eq, Structural)]
pub enum Instruction {
    ClearScreen,
    ReturnFromSubroutine,
    JumpToMachineCode(Address),
    JumpTo(Address),
    ExecuteSubroutine(Address),
    SkipEqTo(Register, u8),
    SkipNeqTo(Register, u8),
    SkipEq(Register, Register),
    StoreValue(Register, u8),
    AddValue(Register, u8),
    StoreRegister(Register, Register),
    Or(Register, Register),
    And(Register, Register),
    Xor(Register, Register),
    AddRegister(Register, Register),
    SubRegister(Register, Register),
    ShiftRight(Register, Register),
    SubRegisterReverse(Register, Register),
    ShiftLeft(Register, Register),
    SkipNeq(Register, Register),
    StoreAddr(Address),
    JumpToOffset(Address),
    StoreRandom(Register, u8),
    DrawSprite(Register, Register, u8),
    SkipIfKeyPressed(Register),
    SkipIfKeyNotPressed(Register),
    StoreDelayTimer(Register),
    WaitForKeypress(Register),
    SetDelayTimer(Register),
    SetSoundTimer(Register),
    AddToI(Register),
    StoreDigitLocation(Register),
    StoreBinaryCoded(Register),
    StoreRegisters(Register),
    LoadRegisters(Register),
}

/// Bounds that every decoded instruction satisfies: register operands are
/// nibbles, address operands fit in twelve bits.
pub open spec fn wf_instruction(i: Instruction) -> bool {
    match i {
        Instruction::ClearScreen => true,
        Instruction::ReturnFromSubroutine => true,
        Instruction::JumpToMachineCode(a) => a < 4096,
        Instruction::JumpTo(a) => a < 4096,
        Instruction::ExecuteSubroutine(a) => a < 4096,
        Instruction::SkipEqTo(x, _) => x < 16,
        Instruction::SkipNeqTo(x, _) => x < 16,
        Instruction::SkipEq(x, y) => x < 16 && y < 16,
        Instruction::StoreValue(x, _) => x < 16,
        Instruction::AddValue(x, _) => x < 16,
        Instruction::StoreRegister(x, y) => x < 16 && y < 16,
        Instruction::Or(x, y) => x < 16 && y < 16,
        Instruction::And(x, y) => x < 16 && y < 16,
        Instruction::Xor(x, y) => x < 16 && y < 16,
        Instruction::AddRegister(x, y) => x < 16 && y < 16,
        Instruction::SubRegister(x, y) => x < 16 && y < 16,
        Instruction::ShiftRight(x, y) => x < 16 && y < 16,
        Instruction::SubRegisterReverse(x, y) => x < 16 && y < 16,
        Instruction::ShiftLeft(x, y) => x < 16 && y < 16,
        Instruction::SkipNeq(x, y) => x < 16 && y < 16,
        Instruction::StoreAddr(a) => a < 4096,
        Instruction::JumpToOffset(a) => a < 4096,
        Instruction::StoreRandom(x, _) => x < 16,
        Instruction::DrawSprite(x, y, n) => x < 16 && y < 16 && n < 16,
        Instruction::SkipIfKeyPressed(x) => x < 16,
        Instruction::SkipIfKeyNotPressed(x) => x < 16,
        Instruction::StoreDelayTimer(x) => x < 16,
        Instruction::WaitForKeypress(x) => x < 16,
        Instruction::SetDelayTimer(x) => x < 16,
        Instruction::SetSoundTimer(x) => x < 16,
        Instruction::AddToI(x) => x < 16,
        Instruction::StoreDigitLocation(x) => x < 16,
        Instruction::StoreBinaryCoded(x) => x < 16,
        Instruction::StoreRegisters(x) => x < 16,
        Instruction::LoadRegisters(x) => x < 16,
    }
}

/// The decode table as a mathematical function of the four nibbles of an
/// instruction word, in source order.
pub open spec fn spec_decode(a: u8, b: u8, c: u8, d: u8) -> Option<Instruction> {
    match (a, b, c, d) {
        (0, 0, 0xe, 0) => Some(Instruction::ClearScreen),
        (0, 0, 0xe, 0xe) => Some(Instruction::ReturnFromSubroutine),
        (0, n1, n2, n3) => Some(Instruction::JumpToMachineCode(spec_addr_from_nibbles(n1, n2, n3))),
        (1, n1, n2, n3) => Some(Instruction::JumpTo(spec_addr_from_nibbles(n1, n2, n3))),
        (2, n1, n2, n3) => Some(Instruction::ExecuteSubroutine(spec_addr_from_nibbles(n1, n2, n3))),
        (3, x, n1, n2) => Some(Instruction::SkipEqTo(x, spec_byte_from_nibbles(n1, n2))),
        (4, x, n1, n2) => Some(Instruction::SkipNeqTo(x, spec_byte_from_nibbles(n1, n2))),
        (5, x, y, 0) => Some(Instruction::SkipEq(x, y)),
        (6, x, n1, n2) => Some(Instruction::StoreValue(x, spec_byte_from_nibbles(n1, n2))),
        (7, x, n1, n2) => Some(Instruction::AddValue(x, spec_byte_from_nibbles(n1, n2))),
        (8, x, y, 0) => Some(Instruction::StoreRegister(x, y)),
        (8, x, y, 1) => Some(Instruction::Or(x, y)),
        (8, x, y, 2) => Some(Instruction::And(x, y)),
        (8, x, y, 3) => Some(Instruction::Xor(x, y)),
        (8, x, y, 4) => Some(Instruction::AddRegister(x, y)),
        (8, x, y, 5) => Some(Instruction::SubRegister(x, y)),
        (8, x, y, 6) => Some(Instruction::ShiftRight(x, y)),
        (8, x, y, 7) => Some(Instruction::SubRegisterReverse(x, y)),
        (8, x, y, 0xe) => Some(Instruction::ShiftLeft(x, y)),
        (9, x, y, 0) => Some(Instruction::SkipNeq(x, y)),
        (0xa, n1, n2, n3) => Some(Instruction::StoreAddr(spec_addr_from_nibbles(n1, n2, n3))),
        (0xb, n1, n2, n3) => Some(Instruction::JumpToOffset(spec_addr_from_nibbles(n1, n2, n3))),
        (0xc, x, n1, n2) => Some(Instruction::StoreRandom(x, spec_byte_from_nibbles(n1, n2))),
        (0xd, x, y, n) => Some(Instruction::DrawSprite(x, y, n)),
        (0xe, x, 9, 0xe) => Some(Instruction::SkipIfKeyPressed(x)),
        (0xe, x, 0xa, 1) => Some(Instruction::SkipIfKeyNotPressed(x)),
        (0xf, x, 0, 7) => Some(Instruction::StoreDelayTimer(x)),
        (0xf, x, 0, 0xa) => Some(Instruction::WaitForKeypress(x)),
        (0xf, x, 1, 5) => Some(Instruction::SetDelayTimer(x)),
        (0xf, x, 1, 8) => Some(Instruction::SetSoundTimer(x)),
        (0xf, x, 1, 0xe) => Some(Instruction::AddToI(x)),
        (0xf, x, 2, 9) => Some(Instruction::StoreDigitLocation(x)),
        (0xf, x, 3, 3) => Some(Instruction::StoreBinaryCoded(x)),
        (0xf, x, 5, 5) => Some(Instruction::StoreRegisters(x)),
        (0xf, x, 6, 5) => Some(Instruction::LoadRegisters(x)),
        _ => None,
    }
}

impl Instruction {
    /// Decode an instruction word given as its four nibbles in source order;
    /// `None` for a bit pattern outside the instruction set.
    pub fn decode(nibbles: [u8; 4]) -> (r: Option<Instruction>)
        requires
            forall|k: int| 0 <= k < 4 ==> nibbles@[k] < 16,
        ensures
            r == spec_decode(nibbles@[0], nibbles@[1], nibbles@[2], nibbles@[3]),
            r matches Some(i) ==> wf_instruction(i),
    {
        match (nibbles[0], nibbles[1], nibbles[2], nibbles[3]) {
            (0, 0, 0xe, 0) => Some(Instruction::ClearScreen),
            (0, 0, 0xe, 0xe) => Some(Instruction::ReturnFromSubroutine),
            (0, n1, n2, n3) => Some(Instruction::JumpToMachineCode(u16_from_nibbles(n1, n2, n3))),
            (1, n1, n2, n3) => Some(Instruction::JumpTo(u16_from_nibbles(n1, n2, n3))),
            (2, n1, n2, n3) => Some(Instruction::ExecuteSubroutine(u16_from_nibbles(n1, n2, n3))),
            (3, x, n1, n2) => Some(Instruction::SkipEqTo(x, u8_from_nibbles(n1, n2))),
            (4, x, n1, n2) => Some(Instruction::SkipNeqTo(x, u8_from_nibbles(n1, n2))),
            (5, x, y, 0) => Some(Instruction::SkipEq(x, y)),
            (6, x, n1, n2) => Some(Instruction::StoreValue(x, u8_from_nibbles(n1, n2))),
            (7, x, n1, n2) => Some(Instruction::AddValue(x, u8_from_nibbles(n1, n2))),
            (8, x, y, 0) => Some(Instruction::StoreRegister(x, y)),
            (8, x, y, 1) => Some(Instruction::Or(x, y)),
            (8, x, y, 2) => Some(Instruction::And(x, y)),
            (8, x, y, 3) => Some(Instruction::Xor(x, y)),
            (8, x, y, 4) => Some(Instruction::AddRegister(x, y)),
            (8, x, y, 5) => Some(Instruction::SubRegister(x, y)),
            (8, x, y, 6) => Some(Instruction::ShiftRight(x, y)),
            (8, x, y, 7) => Some(Instruction::SubRegisterReverse(x, y)),
            (8, x, y, 0xe) => Some(Instruction::ShiftLeft(x, y)),
            (9, x, y, 0) => Some(Instruction::SkipNeq(x, y)),
            (0xa, n1, n2, n3) => Some(Instruction::StoreAddr(u16_from_nibbles(n1, n2, n3))),
            (0xb, n1, n2, n3) => Some(Instruction::JumpToOffset(u16_from_nibbles(n1, n2, n3))),
            (0xc, x, n1, n2) => Some(Instruction::StoreRandom(x, u8_from_nibbles(n1, n2))),
            (0xd, x, y, n) => Some(Instruction::DrawSprite(x, y, n)),
            (0xe, x, 9, 0xe) => Some(Instruction::SkipIfKeyPressed(x)),
            (0xe, x, 0xa, 1) => Some(Instruction::SkipIfKeyNotPressed(x)),
            (0xf, x, 0, 7) => Some(Instruction::StoreDelayTimer(x)),
            (0xf, x, 0, 0xa) => Some(Instruction::WaitForKeypress(x)),
            (0xf, x, 1, 5) => Some(Instruction::SetDelayTimer(x)),
            (0xf, x, 1, 8) => Some(Instruction::SetSoundTimer(x)),
            (0xf, x, 1, 0xe) => Some(Instruction::AddToI(x)),
            (0xf, x, 2, 9) => Some(Instruction::StoreDigitLocation(x)),
            (0xf, x, 3, 3) => Some(Instruction::StoreBinaryCoded(x)),
            (0xf, x, 5, 5) => Some(Instruction::StoreRegisters(x)),
            (0xf, x, 6, 5) => Some(Instruction::LoadRegisters(x)),
            _ => None,
        }
    }
}

/// The character for one digit, `0` through `f`.
pub open spec fn spec_digit_char(d: int) -> char {
    if d == 0 {
        '0'
    } else if d == 1 {
        '1'
    } else if d == 2 {
        '2'
    } else if d == 3 {
        '3'
    } else if d == 4 {
        '4'
    } else if d == 5 {
        '5'
    } else if d == 6 {
        '6'
    } else if d == 7 {
        '7'
    } else if d == 8 {
        '8'
    } else if d == 9 {
        '9'
    } else if d == 10 {
        'a'
    } else if d == 11 {
        'b'
    } else if d == 12 {
        'c'
    } else if d == 13 {
        'd'
    } else if d == 14 {
        'e'
    } else {
        'f'
    }
}

/// Decimal rendering of a non-negative number, without leading zeros.
pub open spec fn spec_dec(n: int) -> Seq<char>
    decreases n,
{
    if n < 10 {
        seq![spec_digit_char(n)]
    } else {
        spec_dec(n / 10).push(spec_digit_char(n % 10))
    }
}

/// Hexadecimal rendering, lower case, without leading zeros.
pub open spec fn spec_hex(n: int) -> Seq<char>
    decreases n,
{
    if n < 16 {
        seq![spec_digit_char(n)]
    } else {
        spec_hex(n / 16).push(spec_digit_char(n % 16))
    }
}

/// Binary rendering, without leading zeros.
pub open spec fn spec_bin(n: int) -> Seq<char>
    decreases n,
{
    if n < 2 {
        seq![spec_digit_char(n)]
    } else {
        spec_bin(n / 2).push(spec_digit_char(n % 2))
    }
}

/// `v` followed by the register's hexadecimal digit.
pub open spec fn spec_reg_name(x: Register) -> Seq<char> {
    "v"@ + seq![spec_digit_char(x as int)]
}

/// A hexadecimal literal with the `0x` prefix.
pub open spec fn spec_hex_lit(n: int) -> Seq<char> {
    "0x"@ + spec_hex(n)
}

/// A binary literal with the `0b` prefix.
pub open spec fn spec_bin_lit(n: int) -> Seq<char> {
    "0b"@ + spec_bin(n)
}

/// Append the character for one digit.
fn push_digit(s: &mut String, d: u8)
    requires
        d < 16,
    ensures
        final(s)@ == old(s)@ + seq![spec_digit_char(d as int)],
{
    proof {
        reveal_strlit("0");
        reveal_strlit("1");
        reveal_strlit("2");
        reveal_strlit("3");
        reveal_strlit("4");
        reveal_strlit("5");
        reveal_strlit("6");
        reveal_strlit("7");
        reveal_strlit("8");
        reveal_strlit("9");
        reveal_strlit("a");
        reveal_strlit("b");
        reveal_strlit("c");
        reveal_strlit("d");
        reveal_strlit("e");
        reveal_strlit("f");
    }
    match d {
        0 => s.append("0"),
        1 => s.append("1"),
        2 => s.append("2"),
        3 => s.append("3"),
        4 => s.append("4"),
        5 => s.append("5"),
        6 => s.append("6"),
        7 => s.append("7"),
        8 => s.append("8"),
        9 => s.append("9"),
        10 => s.append("a"),
        11 => s.append("b"),
        12 => s.append("c"),
        13 => s.append("d"),
        14 => s.append("e"),
        _ => s.append("f"),
    }
    proof {
        assert(s@ =~= old(s)@ + seq![spec_digit_char(d as int)]);
    }
}

/// Append the decimal rendering of a byte.
fn push_dec(s: &mut String, n: u8)
    ensures
        final(s)@ == old(s)@ + spec_dec(n as int),
    decreases n,
{
    if n < 10 {
        push_digit(s, n);
    } else {
        push_dec(s, n / 10);
        push_digit(s, n % 10);
        proof {
            assert(s@ =~= old(s)@ + spec_dec(n as int));
        }
    }
}

/// Append the hexadecimal rendering of an address-sized number.
fn push_hex(s: &mut String, n: u16)
    ensures
        final(s)@ == old(s)@ + spec_hex(n as int),
    decreases n,
{
    if n < 16 {
        push_digit(s, n as u8);
    } else {
        push_hex(s, n / 16);
        push_digit(s, (n % 16) as u8);
        proof {
            assert(s@ =~= old(s)@ + spec_hex(n as int));
        }
    }
}

/// Append the binary rendering of a byte.
fn push_bin(s: &mut String, n: u8)
    ensures
        final(s)@ == old(s)@ + spec_bin(n as int),
    decreases n,
{
    if n < 2 {
        push_digit(s, n);
    } else {
        push_bin(s, n / 2);
        push_digit(s, n % 2);
        proof {
            assert(s@ =~= old(s)@ + spec_bin(n as int));
        }
    }
}

/// Append a register name.
fn push_reg(s: &mut String, x: Register)
    requires
        x < 16,
    ensures
        final(s)@ == old(s)@ + spec_reg_name(x),
{
    s.append("v");
    push_digit(s, x);
    proof {
        assert(s@ =~= old(s)@ + spec_reg_name(x));
    }
}

/// Append a hexadecimal literal with the `0x` prefix.
fn push_hex_lit(s: &mut String, n: u16)
    ensures
        final(s)@ == old(s)@ + spec_hex_lit(n as int),
{
    s.append("0x");
    push_hex(s, n);
    proof {
        assert(s@ =~= old(s)@ + spec_hex_lit(n as int));
    }
}

/// Append a binary literal with the `0b` prefix.
fn push_bin_lit(s: &mut String, n: u8)
    ensures
        final(s)@ == old(s)@ + spec_bin_lit(n as int),
{
    s.append("0b");
    push_bin(s, n);
    proof {
        assert(s@ =~= old(s)@ + spec_bin_lit(n as int));
    }
}

/// The canonical mnemonic line for each instruction: a pure projection that
/// never affects execution.
pub open spec fn spec_mnemonic(i: Instruction) -> Seq<char> {
    match i {
        Instruction::ClearScreen => "clear"@,
        Instruction::ReturnFromSubroutine => "return"@,
        Instruction::JumpToMachineCode(a) => "machine_jump "@ + spec_hex_lit(a as int),
        Instruction::JumpTo(a) => "jump "@ + spec_hex_lit(a as int),
        Instruction::ExecuteSubroutine(a) => "call "@ + spec_hex_lit(a as int),
        Instruction::SkipEqTo(x, v) => "skip_if "@ + spec_reg_name(x) + " == "@ + spec_dec(
            v as int,
        ),
        Instruction::SkipNeqTo(x, v) => "skip_if "@ + spec_reg_name(x) + " != "@ + spec_dec(
            v as int,
        ),
        Instruction::SkipEq(x, y) => "skip_if "@ + spec_reg_name(x) + " == "@ + spec_reg_name(y),
        Instruction::StoreValue(x, v) => spec_reg_name(x) + " := "@ + spec_dec(v as int),
        Instruction::AddValue(x, v) => spec_reg_name(x) + " += "@ + spec_dec(v as int),
        Instruction::StoreRegister(x, y) => spec_reg_name(x) + " := "@ + spec_reg_name(y),
        Instruction::Or(x, y) => spec_reg_name(x) + " |= "@ + spec_reg_name(y),
        Instruction::And(x, y) => spec_reg_name(x) + " &= "@ + spec_reg_name(y),
        Instruction::Xor(x, y) => spec_reg_name(x) + " ^= "@ + spec_reg_name(y),
        Instruction::AddRegister(x, y) => spec_reg_name(x) + " += "@ + spec_reg_name(y),
        Instruction::SubRegister(x, y) => spec_reg_name(x) + " -= "@ + spec_reg_name(y),
        Instruction::ShiftRight(x, y) => spec_reg_name(x) + " = "@ + spec_reg_name(y) + " >> 1"@,
        Instruction::SubRegisterReverse(x, y) => spec_reg_name(x) + " = "@ + spec_reg_name(y)
            + " - "@ + spec_reg_name(x),
        Instruction::ShiftLeft(x, y) => spec_reg_name(x) + " = "@ + spec_reg_name(y) + " << 1"@,
        Instruction::SkipNeq(x, y) => "skip_if "@ + spec_reg_name(x) + " != "@ + spec_reg_name(y),
        Instruction::StoreAddr(a) => "i := "@ + spec_hex_lit(a as int),
        Instruction::JumpToOffset(a) => "jump v0 + "@ + spec_hex_lit(a as int),
        Instruction::StoreRandom(x, m) => spec_reg_name(x) + " := random() & "@ + spec_bin_lit(
            m as int,
        ),
        Instruction::DrawSprite(x, y, n) => "draw "@ + spec_reg_name(x) + ", "@ + spec_reg_name(y)
            + ", "@ + spec_dec(n as int),
        Instruction::SkipIfKeyPressed(x) => "skip_if_pressed "@ + spec_reg_name(x),
        Instruction::SkipIfKeyNotPressed(x) => "skip_if_not_pressed "@ + spec_reg_name(x),
        Instruction::StoreDelayTimer(x) => spec_reg_name(x) + " := delay"@,
        Instruction::WaitForKeypress(x) => "wait_keypress "@ + spec_reg_name(x),
        Instruction::SetDelayTimer(x) => "delay := "@ + spec_reg_name(x),
        Instruction::SetSoundTimer(x) => "sound := "@ + spec_reg_name(x),
        Instruction::AddToI(x) => "i += "@ + spec_reg_name(x),
        Instruction::StoreDigitLocation(x) => "i := digit_location "@ + spec_reg_name(x),
        Instruction::StoreBinaryCoded(x) => "binary_encode "@ + spec_reg_name(x),
        Instruction::StoreRegisters(x) => "store_registers v0 .. "@ + spec_reg_name(x),
        Instruction::LoadRegisters(x) => "load_registers v0 .. "@ + spec_reg_name(x),
    }
}

impl Instruction {
    /// Render this instruction as its canonical human-readable mnemonic
    /// line, for diagnostics.
    pub fn mnemonic(&self) -> (r: String)
        requires
            wf_instruction(*self),
        ensures
            r@ == spec_mnemonic(*self),
    {
        let mut s = String::new();
        match *self {
            Instruction::ClearScreen => {
                s.append("clear");
            },
            Instruction::ReturnFromSubroutine => {
                s.append("return");
            },
            Instruction::JumpToMachineCode(a) => {
                s.append("machine_jump ");
                push_hex_lit(&mut s, a);
            },
            Instruction::JumpTo(a) => {
                s.append("jump ");
                push_hex_lit(&mut s, a);
            },
            Instruction::ExecuteSubroutine(a) => {
                s.append("call ");
                push_hex_lit(&mut s, a);
            },
            Instruction::SkipEqTo(x, v) => {
                s.append("skip_if ");
                push_reg(&mut s, x);
                s.append(" == ");
                push_dec(&mut s, v);
            },
            Instruction::SkipNeqTo(x, v) => {
                s.append("skip_if ");
                push_reg(&mut s, x);
                s.append(" != ");
                push_dec(&mut s, v);
            },
            Instruction::SkipEq(x, y) => {
                s.append("skip_if ");
                push_reg(&mut s, x);
                s.append(" == ");
                push_reg(&mut s, y);
            },
            Instruction::StoreValue(x, v) => {
                push_reg(&mut s, x);
                s.append(" := ");
                push_dec(&mut s, v);
            },
            Instruction::AddValue(x, v) => {
                push_reg(&mut s, x);
                s.append(" += ");
                push_dec(&mut s, v);
            },
            Instruction::StoreRegister(x, y) => {
                push_reg(&mut s, x);
                s.append(" := ");
                push_reg(&mut s, y);
            },
            Instruction::Or(x, y) => {
                push_reg(&mut s, x);
                s.append(" |= ");
                push_reg(&mut s, y);
            },
            Instruction::And(x, y) => {
                push_reg(&mut s, x);
                s.append(" &= ");
                push_reg(&mut s, y);
            },
            Instruction::Xor(x, y) => {
                push_reg(&mut s, x);
                s.append(" ^= ");
                push_reg(&mut s, y);
            },
            Instruction::AddRegister(x, y) => {
                push_reg(&mut s, x);
                s.append(" += ");
                push_reg(&mut s, y);
            },
            Instruction::SubRegister(x, y) => {
                push_reg(&mut s, x);
                s.append(" -= ");
                push_reg(&mut s, y);
            },
            Instruction::ShiftRight(x, y) => {
                push_reg(&mut s, x);
                s.append(" = ");
                push_reg(&mut s, y);
                s.append(" >> 1");
            },
            Instruction::SubRegisterReverse(x, y) => {
                push_reg(&mut s, x);
                s.append(" = ");
                push_reg(&mut s, y);
                s.append(" - ");
                push_reg(&mut s, x);
            },
            Instruction::ShiftLeft(x, y) => {
                push_reg(&mut s, x);
                s.append(" = ");
                push_reg(&mut s, y);
                s.append(" << 1");
            },
            Instruction::SkipNeq(x, y) => {
                s.append("skip_if ");
                push_reg(&mut s, x);
                s.append(" != ");
                push_reg(&mut s, y);
            },
            Instruction::StoreAddr(a) => {
                s.append("i := ");
                push_hex_lit(&mut s, a);
            },
            Instruction::JumpToOffset(a) => {
                s.append("jump v0 + ");
                push_hex_lit(&mut s, a);
            },
            Instruction::StoreRandom(x, m) => {
                push_reg(&mut s, x);
                s.append(" := random() & ");
                push_bin_lit(&mut s, m);
            },
            Instruction::DrawSprite(x, y, n) => {
                s.append("draw ");
                push_reg(&mut s, x);
                s.append(", ");
                push_reg(&mut s, y);
                s.append(", ");
                push_dec(&mut s, n);
            },
            Instruction::SkipIfKeyPressed(x) => {
                s.append("skip_if_pressed ");
                push_reg(&mut s, x);
            },
            Instruction::SkipIfKeyNotPressed(x) => {
                s.append("skip_if_not_pressed ");
                push_reg(&mut s, x);
            },
            Instruction::StoreDelayTimer(x) => {
                push_reg(&mut s, x);
                s.append(" := delay");
            },
            Instruction::WaitForKeypress(x) => {
                s.append("wait_keypress ");
                push_reg(&mut s, x);
            },
            Instruction::SetDelayTimer(x) => {
                s.append("delay := ");
                push_reg(&mut s, x);
            },
            Instruction::SetSoundTimer(x) => {
                s.append("sound := ");
                push_reg(&mut s, x);
            },
            Instruction::AddToI(x) => {
                s.append("i += ");
                push_reg(&mut s, x);
            },
            Instruction::StoreDigitLocation(x) => {
                s.append("i := digit_location ");
                push_reg(&mut s, x);
            },
            Instruction::StoreBinaryCoded(x) => {
                s.append("binary_encode ");
                push_reg(&mut s, x);
            },
            Instruction::StoreRegisters(x) => {
                s.append("store_registers v0 .. ");
                push_reg(&mut s, x);
            },
            Instruction::LoadRegisters(x) => {
                s.append("load_registers v0 .. ");
                push_reg(&mut s, x);
            },
        }
        proof {
            assert(s@ =~= spec_mnemonic(*self));
        }
        s
    }
}

/// The disassembly of the byte pairs of `bytes` from pair `c` on: one
/// mnemonic line per decodable instruction word, stopping at the first
/// undecodable word or leftover byte.
pub open spec fn spec_disassembly(bytes: Seq<u8>, c: int) -> Seq<char>
    decreases bytes.len() - 2 * c,
{
    if 0 <= 2 * c && 2 * c + 2 <= bytes.len() {
        match spec_decode(
            nibble_hi(bytes[2 * c]),
            nibble_lo(bytes[2 * c]),
            nibble_hi(bytes[2 * c + 1]),
            nibble_lo(bytes[2 * c + 1]),
        ) {
            Some(i) => spec_mnemonic(i) + "\n"@ + spec_disassembly(bytes, c + 1),
            None => Seq::empty(),
        }
    } else {
        Seq::empty()
    }
}

/// Render each leading decodable instruction word of `bytes` as one
/// mnemonic line; purely a diagnostic projection of the decode table.
pub fn dissassemble(bytes: &[u8]) -> (r: Result<String, ()>)
    ensures
        r matches Ok(text) && text@ == spec_disassembly(bytes@, 0),
{
    let mut text = String::new();
    let mut c: usize = 0;
    while c < bytes.len() / 2
        invariant
            0 <= c,
            text@ + spec_disassembly(bytes@, c as int) == spec_disassembly(bytes@, 0),
        decreases bytes@.len() - 2 * c,
    {
        let a = bytes[2 * c];
        let b = bytes[2 * c + 1];
        proof {
            assert(a >> 4u8 == a / 16 && (a & 0xf) == a % 16) by (bit_vector);
            assert(b >> 4u8 == b / 16 && (b & 0xf) == b % 16) by (bit_vector);
        }
        let nibbles = [a >> 4, a & 0xf, b >> 4, b & 0xf];
        match Instruction::decode(nibbles) {
            Some(instruction) => {
                let line = instruction.mnemonic();
                text.append(line.as_str());
                text.append("\n");
                proof {
                    assert(text@ + spec_disassembly(bytes@, c + 1) =~= spec_disassembly(
                        bytes@,
                        0,
                    ));
                }
                c = c + 1;
            },
            None => {
                proof {
                    assert(text@ =~= spec_disassembly(bytes@, 0));
                }
                return Ok(text);
            },
        }
    }
    proof {
        assert(text@ =~= spec_disassembly(bytes@, 0));
    }
    Ok(text)
}

} // verus!
