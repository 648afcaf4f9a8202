//! The machine itself: registers, timers, memory, call stack, keypad and
//! screen, one handler per instruction, and the fetch-decode-execute cycle.
//! Every handler returns the flow directive to apply to the program counter
//! (advance, skip, jump, or wait) and fails before any state is mutated, so
//! a failed tick leaves the machine exactly as it was.

use crate::call_stack;
use crate::call_stack::CallStack;
use crate::instruction::Instruction;
use crate::instruction::Register;
use crate::instruction::spec_decode;
use crate::instruction::wf_instruction;
use crate::keypad::Keypad;
use crate::keypad::KEY_COUNT;
use crate::memory;
use crate::memory::Address;
use crate::memory::Memory;
use crate::memory::FONT_LOCATION;
use crate::memory::GLYPH_SIZE;
use crate::memory::MEMORY_END;
use crate::memory::MEMORY_SIZE;
use crate::memory::PROGRAM_ENTRYPOINT;
use crate::memory::nibble_hi;
use crate::memory::nibble_lo;
use crate::screen::Screen;
use crate::screen::draw_applied;
use crate::screen::draw_collides;
use crate::screen::PIXEL_COUNT;
use vstd::prelude::*;

verus! {

broadcast use crate::memory::lemma_memory_len;

/// Number of general-purpose registers.
pub const REGISTER_COUNT: usize = 16;

/// Size in bytes of one instruction word.
pub const INSTRUCTION_SIZE: Address = 2;

/// Steps the driver issues per display frame.
pub const TICKS_PER_FRAME: usize = 60;

/// Why a tick failed; the machine is left unchanged by a failed tick.
#[derive(Clone, Copy, Debug, PartialEq, Eq, Structural)]
pub enum TickError {
    /// Subroutine call or return went past the call stack's bounds.
    StackError(call_stack::Error),
    /// A memory access went past the end of memory.
    MemoryError(memory::Error),
    /// The machine-code passthrough instructions, which this machine does
    /// not implement.
    Unimplemented,
    /// A bit pattern outside the instruction set.
    Unknown,
}

/// What to do with the program counter after an instruction.
#[derive(Clone, Copy, Debug, PartialEq, Eq, Structural)]
pub enum TickFlow {
    /// Move to the next instruction.
    Advance,
    /// Skip one instruction.
    Skip,
    /// Jump to an address.
    GoTo(Address),
    /// Stay on this instruction and re-evaluate it next cycle.
    Wait,
}

pub type TickResult = Result<TickFlow, TickError>;

/// Whether a driver-level step left the machine runnable or stalled.
#[derive(Clone, Copy, Debug, PartialEq, Eq, Structural)]
pub enum RunFlow {
    Continue,
    Wait,
}

pub type RunResult = Result<RunFlow, TickError>;

/// The CHIP-8 machine state.
pub struct Machine {
    pub registers: [u8; REGISTER_COUNT],
    pub i_register: Address,
    pub ip_register: Address,
    pub memory: Memory,
    pub delay_timer: u8,
    pub sound_timer: u8,
    pub call_stack: CallStack,
    pub screen: Screen,
    pub keypad: Keypad,
}

/// Relies on `rand::random`: an independently drawn, uniformly random byte.
/// Nothing can be promised of the value, so callers state what holds of
/// every outcome.
#[verifier::external_body]
fn random_byte() -> u8 {
    rand::random()
}

/// Whether the key named by the value of register `x` is currently held
/// down; a register value outside the sixteen key codes counts as not
/// pressed.
pub open spec fn spec_key_pressed(m: Machine, x: Register) -> bool {
    &&& m.registers@[x as int] < KEY_COUNT
    &&& m.keypad.pressed_keys()[m.registers@[x as int] as int]
}

/// Unsigned 8-bit addition that wraps.
pub open spec fn wrap_add_u8(a: u8, b: u8) -> u8 {
    if a + b > 255 {
        (a + b - 256) as u8
    } else {
        (a + b) as u8
    }
}

/// Unsigned 8-bit subtraction that wraps.
pub open spec fn wrap_sub_u8(a: u8, b: u8) -> u8 {
    if a - b < 0 {
        (a - b + 256) as u8
    } else {
        (a - b) as u8
    }
}

/// Unsigned 16-bit addition that wraps.
pub open spec fn wrap_add_u16(a: u16, b: u16) -> u16 {
    if a + b > 65535 {
        (a + b - 65536) as u16
    } else {
        (a + b) as u16
    }
}

pub open spec fn same_registers(pre: Machine, post: Machine) -> bool {
    post.registers@ == pre.registers@
}

pub open spec fn same_i_register(pre: Machine, post: Machine) -> bool {
    post.i_register == pre.i_register
}

pub open spec fn same_ip_register(pre: Machine, post: Machine) -> bool {
    post.ip_register == pre.ip_register
}

pub open spec fn same_memory(pre: Machine, post: Machine) -> bool {
    post.memory@ == pre.memory@
}

pub open spec fn same_delay_timer(pre: Machine, post: Machine) -> bool {
    post.delay_timer == pre.delay_timer
}

pub open spec fn same_sound_timer(pre: Machine, post: Machine) -> bool {
    post.sound_timer == pre.sound_timer
}

pub open spec fn same_call_stack(pre: Machine, post: Machine) -> bool {
    post.call_stack@ == pre.call_stack@
}

pub open spec fn same_screen(pre: Machine, post: Machine) -> bool {
    post.screen@ == pre.screen@
}

pub open spec fn same_keypad(pre: Machine, post: Machine) -> bool {
    &&& post.keypad.pressed_keys() == pre.keypad.pressed_keys()
    &&& post.keypad.just_pressed_keys() == pre.keypad.just_pressed_keys()
    &&& post.keypad.just_released_keys() == pre.keypad.just_released_keys()
}

/// Whether both bytes of the instruction word at the program counter lie in
/// memory.
pub open spec fn fetch_readable(m: Machine) -> bool {
    m.ip_register + 1 < MEMORY_END
}

/// The instruction decoded from the two bytes at the program counter.
pub open spec fn spec_fetch(m: Machine) -> Option<Instruction> {
    spec_decode(
        nibble_hi(m.memory@[m.ip_register as int]),
        nibble_lo(m.memory@[m.ip_register as int]),
        nibble_hi(m.memory@[m.ip_register + 1]),
        nibble_lo(m.memory@[m.ip_register + 1]),
    )
}

/// Instructions never touch the program counter directly; flow directives do.
/// These predicates say which parts of the machine an instruction left alone.
pub open spec fn only_registers_changed(pre: Machine, post: Machine) -> bool {
    &&& same_i_register(pre, post)
    &&& same_ip_register(pre, post)
    &&& same_memory(pre, post)
    &&& same_delay_timer(pre, post)
    &&& same_sound_timer(pre, post)
    &&& same_call_stack(pre, post)
    &&& same_screen(pre, post)
    &&& same_keypad(pre, post)
}

pub open spec fn machine_unchanged(pre: Machine, post: Machine) -> bool {
    &&& same_registers(pre, post)
    &&& only_registers_changed(pre, post)
}

pub open spec fn only_screen_changed(pre: Machine, post: Machine) -> bool {
    &&& same_registers(pre, post)
    &&& same_i_register(pre, post)
    &&& same_ip_register(pre, post)
    &&& same_memory(pre, post)
    &&& same_delay_timer(pre, post)
    &&& same_sound_timer(pre, post)
    &&& same_call_stack(pre, post)
    &&& same_keypad(pre, post)
}

pub open spec fn only_call_stack_changed(pre: Machine, post: Machine) -> bool {
    &&& same_registers(pre, post)
    &&& same_i_register(pre, post)
    &&& same_ip_register(pre, post)
    &&& same_memory(pre, post)
    &&& same_delay_timer(pre, post)
    &&& same_sound_timer(pre, post)
    &&& same_screen(pre, post)
    &&& same_keypad(pre, post)
}

pub open spec fn only_i_register_changed(pre: Machine, post: Machine) -> bool {
    &&& same_registers(pre, post)
    &&& same_ip_register(pre, post)
    &&& same_memory(pre, post)
    &&& same_delay_timer(pre, post)
    &&& same_sound_timer(pre, post)
    &&& same_call_stack(pre, post)
    &&& same_screen(pre, post)
    &&& same_keypad(pre, post)
}

pub open spec fn only_memory_changed(pre: Machine, post: Machine) -> bool {
    &&& same_registers(pre, post)
    &&& same_i_register(pre, post)
    &&& same_ip_register(pre, post)
    &&& same_delay_timer(pre, post)
    &&& same_sound_timer(pre, post)
    &&& same_call_stack(pre, post)
    &&& same_screen(pre, post)
    &&& same_keypad(pre, post)
}

pub open spec fn only_delay_timer_changed(pre: Machine, post: Machine) -> bool {
    &&& same_registers(pre, post)
    &&& same_i_register(pre, post)
    &&& same_ip_register(pre, post)
    &&& same_memory(pre, post)
    &&& same_sound_timer(pre, post)
    &&& same_call_stack(pre, post)
    &&& same_screen(pre, post)
    &&& same_keypad(pre, post)
}

pub open spec fn only_sound_timer_changed(pre: Machine, post: Machine) -> bool {
    &&& same_registers(pre, post)
    &&& same_i_register(pre, post)
    &&& same_ip_register(pre, post)
    &&& same_memory(pre, post)
    &&& same_delay_timer(pre, post)
    &&& same_call_stack(pre, post)
    &&& same_screen(pre, post)
    &&& same_keypad(pre, post)
}

pub open spec fn only_screen_and_registers_changed(pre: Machine, post: Machine) -> bool {
    &&& same_i_register(pre, post)
    &&& same_ip_register(pre, post)
    &&& same_memory(pre, post)
    &&& same_delay_timer(pre, post)
    &&& same_sound_timer(pre, post)
    &&& same_call_stack(pre, post)
    &&& same_keypad(pre, post)
}

pub open spec fn only_memory_and_i_changed(pre: Machine, post: Machine) -> bool {
    &&& same_registers(pre, post)
    &&& same_ip_register(pre, post)
    &&& same_delay_timer(pre, post)
    &&& same_sound_timer(pre, post)
    &&& same_call_stack(pre, post)
    &&& same_screen(pre, post)
    &&& same_keypad(pre, post)
}

pub open spec fn only_registers_and_i_changed(pre: Machine, post: Machine) -> bool {
    &&& same_ip_register(pre, post)
    &&& same_memory(pre, post)
    &&& same_delay_timer(pre, post)
    &&& same_sound_timer(pre, post)
    &&& same_call_stack(pre, post)
    &&& same_screen(pre, post)
    &&& same_keypad(pre, post)
}

/// The dispatch table as a relation: how executing one decoded instruction
/// relates the machine before (`pre`) and after (`post`), and the returned
/// flow directive or error. Each arm mirrors the contract of the handler for
/// that instruction; a failed instruction always leaves the machine
/// unchanged.
pub open spec fn instr_rel(pre: Machine, post: Machine, instruction: Instruction, r: TickResult) -> bool {
    match instruction {
        Instruction::ClearScreen => {
            &&& r == Ok::<TickFlow, TickError>(TickFlow::Advance)
            &&& only_screen_changed(pre, post)
            &&& post.screen@.len() == PIXEL_COUNT
            &&& forall|i: int| 0 <= i < PIXEL_COUNT ==> !post.screen@[i]
        },
        Instruction::ReturnFromSubroutine => {
            &&& pre.call_stack@.len() > 0 ==> {
                &&& r == Ok::<TickFlow, TickError>(TickFlow::GoTo(pre.call_stack@.last()))
                &&& only_call_stack_changed(pre, post)
                &&& post.call_stack@ == pre.call_stack@.drop_last()
            }
            &&& pre.call_stack@.len() == 0 ==> {
                &&& r == Err::<TickFlow, TickError>(
                    TickError::StackError(call_stack::Error::Underflow),
                )
                &&& machine_unchanged(pre, post)
            }
        },
        Instruction::JumpToMachineCode(_) => {
            &&& machine_unchanged(pre, post)
            &&& r == Err::<TickFlow, TickError>(TickError::Unimplemented)
        },
        Instruction::JumpTo(addr) => {
            &&& machine_unchanged(pre, post)
            &&& r == Ok::<TickFlow, TickError>(TickFlow::GoTo(addr))
        },
        Instruction::ExecuteSubroutine(addr) => {
            &&& pre.call_stack@.len() < call_stack::STACK_CAPACITY ==> {
                &&& r == Ok::<TickFlow, TickError>(TickFlow::GoTo(addr))
                &&& only_call_stack_changed(pre, post)
                &&& post.call_stack@ == pre.call_stack@.push(
                    (pre.ip_register + INSTRUCTION_SIZE) as u16,
                )
            }
            &&& pre.call_stack@.len() >= call_stack::STACK_CAPACITY ==> {
                &&& r == Err::<TickFlow, TickError>(
                    TickError::StackError(call_stack::Error::Overflow),
                )
                &&& machine_unchanged(pre, post)
            }
        },
        Instruction::SkipEqTo(x, value) => {
            &&& machine_unchanged(pre, post)
            &&& r == Ok::<TickFlow, TickError>(
                if pre.registers@[x as int] == value {
                    TickFlow::Skip
                } else {
                    TickFlow::Advance
                },
            )
        },
        Instruction::SkipNeqTo(x, value) => {
            &&& machine_unchanged(pre, post)
            &&& r == Ok::<TickFlow, TickError>(
                if pre.registers@[x as int] != value {
                    TickFlow::Skip
                } else {
                    TickFlow::Advance
                },
            )
        },
        Instruction::SkipEq(x, y) => {
            &&& machine_unchanged(pre, post)
            &&& r == Ok::<TickFlow, TickError>(
                if pre.registers@[x as int] == pre.registers@[y as int] {
                    TickFlow::Skip
                } else {
                    TickFlow::Advance
                },
            )
        },
        Instruction::StoreValue(x, value) => {
            &&& only_registers_changed(pre, post)
            &&& post.registers@ == pre.registers@.update(x as int, value)
            &&& r == Ok::<TickFlow, TickError>(TickFlow::Advance)
        },
        Instruction::AddValue(x, value) => {
            &&& only_registers_changed(pre, post)
            &&& post.registers@ == pre.registers@.update(
                x as int,
                wrap_add_u8(pre.registers@[x as int], value),
            )
            &&& r == Ok::<TickFlow, TickError>(TickFlow::Advance)
        },
        Instruction::StoreRegister(x, y) => {
            &&& only_registers_changed(pre, post)
            &&& post.registers@ == pre.registers@.update(x as int, pre.registers@[y as int])
            &&& r == Ok::<TickFlow, TickError>(TickFlow::Advance)
        },
        Instruction::Or(x, y) => {
            &&& only_registers_changed(pre, post)
            &&& post.registers@ == pre.registers@.update(
                x as int,
                pre.registers@[x as int] | pre.registers@[y as int],
            )
            &&& r == Ok::<TickFlow, TickError>(TickFlow::Advance)
        },
        Instruction::And(x, y) => {
            &&& only_registers_changed(pre, post)
            &&& post.registers@ == pre.registers@.update(
                x as int,
                pre.registers@[x as int] & pre.registers@[y as int],
            )
            &&& r == Ok::<TickFlow, TickError>(TickFlow::Advance)
        },
        Instruction::Xor(x, y) => {
            &&& only_registers_changed(pre, post)
            &&& post.registers@ == pre.registers@.update(
                x as int,
                pre.registers@[x as int] ^ pre.registers@[y as int],
            )
            &&& r == Ok::<TickFlow, TickError>(TickFlow::Advance)
        },
        Instruction::AddRegister(x, y) => {
            &&& only_registers_changed(pre, post)
            &&& post.registers@ == pre.registers@.update(
                x as int,
                wrap_add_u8(pre.registers@[x as int], pre.registers@[y as int]),
            ).update(
                0xF,
                if pre.registers@[x as int] + pre.registers@[y as int] > 255 {
                    1u8
                } else {
                    0u8
                },
            )
            &&& r == Ok::<TickFlow, TickError>(TickFlow::Advance)
        },
        Instruction::SubRegister(x, y) => {
            &&& only_registers_changed(pre, post)
            &&& post.registers@ == pre.registers@.update(
                x as int,
                wrap_sub_u8(pre.registers@[x as int], pre.registers@[y as int]),
            ).update(
                0xF,
                if pre.registers@[x as int] < pre.registers@[y as int] {
                    0u8
                } else {
                    1u8
                },
            )
            &&& r == Ok::<TickFlow, TickError>(TickFlow::Advance)
        },
        Instruction::ShiftRight(x, y) => {
            &&& only_registers_changed(pre, post)
            &&& post.registers@ == pre.registers@.update(
                x as int,
                pre.registers@[y as int] / 2,
            ).update(0xF, (pre.registers@[y as int] % 2) as u8)
            &&& r == Ok::<TickFlow, TickError>(TickFlow::Advance)
        },
        Instruction::SubRegisterReverse(x, y) => {
            &&& only_registers_changed(pre, post)
            &&& post.registers@ == pre.registers@.update(
                x as int,
                wrap_sub_u8(pre.registers@[y as int], pre.registers@[x as int]),
            ).update(
                0xF,
                if pre.registers@[y as int] < pre.registers@[x as int] {
                    0u8
                } else {
                    1u8
                },
            )
            &&& r == Ok::<TickFlow, TickError>(TickFlow::Advance)
        },
        Instruction::ShiftLeft(x, y) => {
            &&& only_registers_changed(pre, post)
            &&& post.registers@ == pre.registers@.update(
                x as int,
                wrap_add_u8(pre.registers@[y as int], pre.registers@[y as int]),
            ).update(
                0xF,
                if pre.registers@[y as int] >= 128 {
                    0x80u8
                } else {
                    0u8
                },
            )
            &&& r == Ok::<TickFlow, TickError>(TickFlow::Advance)
        },
        Instruction::SkipNeq(x, y) => {
            &&& machine_unchanged(pre, post)
            &&& r == Ok::<TickFlow, TickError>(
                if pre.registers@[x as int] != pre.registers@[y as int] {
                    TickFlow::Skip
                } else {
                    TickFlow::Advance
                },
            )
        },
        Instruction::StoreAddr(addr) => {
            &&& only_i_register_changed(pre, post)
            &&& post.i_register == addr
            &&& r == Ok::<TickFlow, TickError>(TickFlow::Advance)
        },
        Instruction::JumpToOffset(reference) => {
            &&& machine_unchanged(pre, post)
            &&& r == Ok::<TickFlow, TickError>(
                TickFlow::GoTo((reference + pre.registers@[0]) as u16),
            )
        },
        Instruction::StoreRandom(x, mask) => {
            &&& only_registers_changed(pre, post)
            &&& exists|b: u8| post.registers@ == pre.registers@.update(x as int, b & mask)
            &&& r == Ok::<TickFlow, TickError>(TickFlow::Advance)
        },
        Instruction::DrawSprite(x, y, line_count) => {
            &&& pre.i_register + line_count > MEMORY_END ==> {
                &&& r == Err::<TickFlow, TickError>(
                    TickError::MemoryError(
                        memory::Error::RangeOutOfBound(pre.i_register, line_count as u16),
                    ),
                )
                &&& machine_unchanged(pre, post)
            }
            &&& pre.i_register + line_count <= MEMORY_END ==> ({
                let sprite = pre.memory@.subrange(
                    pre.i_register as int,
                    pre.i_register + line_count,
                );
                let sx = pre.registers@[x as int] as int;
                let sy = pre.registers@[y as int] as int;
                let collided = draw_collides(pre.screen@, sx, sy, sprite);
                &&& r == Ok::<TickFlow, TickError>(TickFlow::Advance)
                &&& only_screen_and_registers_changed(pre, post)
                &&& draw_applied(pre.screen@, post.screen@, sx, sy, sprite)
                &&& post.registers@ == pre.registers@.update(
                    0xF,
                    if collided {
                        1u8
                    } else {
                        0u8
                    },
                )
            })
        },
        Instruction::SkipIfKeyPressed(x) => {
            &&& machine_unchanged(pre, post)
            &&& r == Ok::<TickFlow, TickError>(
                if spec_key_pressed(pre, x) {
                    TickFlow::Skip
                } else {
                    TickFlow::Advance
                },
            )
        },
        Instruction::SkipIfKeyNotPressed(x) => {
            &&& machine_unchanged(pre, post)
            &&& r == Ok::<TickFlow, TickError>(
                if spec_key_pressed(pre, x) {
                    TickFlow::Advance
                } else {
                    TickFlow::Skip
                },
            )
        },
        Instruction::StoreDelayTimer(x) => {
            &&& only_registers_changed(pre, post)
            &&& post.registers@ == pre.registers@.update(x as int, pre.delay_timer)
            &&& r == Ok::<TickFlow, TickError>(TickFlow::Advance)
        },
        Instruction::WaitForKeypress(x) => {
            &&& (forall|j: int| 0 <= j < KEY_COUNT ==> !pre.keypad.just_pressed_keys()[j]) ==> r
                == Ok::<TickFlow, TickError>(TickFlow::Wait) && machine_unchanged(pre, post)
            &&& (exists|j: int| 0 <= j < KEY_COUNT && pre.keypad.just_pressed_keys()[j]) ==> {
                &&& r == Ok::<TickFlow, TickError>(TickFlow::Advance)
                &&& only_registers_changed(pre, post)
                &&& exists|k: int|
                    {
                        &&& 0 <= k < KEY_COUNT
                        &&& pre.keypad.just_pressed_keys()[k]
                        &&& forall|j: int| 0 <= j < k ==> !pre.keypad.just_pressed_keys()[j]
                        &&& post.registers@ == pre.registers@.update(x as int, k as u8)
                    }
            }
        },
        Instruction::SetDelayTimer(x) => {
            &&& only_delay_timer_changed(pre, post)
            &&& post.delay_timer == pre.registers@[x as int]
            &&& r == Ok::<TickFlow, TickError>(TickFlow::Advance)
        },
        Instruction::SetSoundTimer(x) => {
            &&& only_sound_timer_changed(pre, post)
            &&& post.sound_timer == pre.registers@[x as int]
            &&& r == Ok::<TickFlow, TickError>(TickFlow::Advance)
        },
        Instruction::AddToI(x) => {
            &&& only_i_register_changed(pre, post)
            &&& post.i_register == wrap_add_u16(pre.i_register, pre.registers@[x as int] as u16)
            &&& r == Ok::<TickFlow, TickError>(TickFlow::Advance)
        },
        Instruction::StoreDigitLocation(x) => {
            &&& only_i_register_changed(pre, post)
            &&& post.i_register == FONT_LOCATION + (pre.registers@[x as int] % 16) * GLYPH_SIZE
            &&& r == Ok::<TickFlow, TickError>(TickFlow::Advance)
        },
        Instruction::StoreBinaryCoded(x) => {
            &&& pre.i_register + 3 > MEMORY_END ==> {
                &&& r == Err::<TickFlow, TickError>(
                    TickError::MemoryError(memory::Error::RangeOutOfBound(pre.i_register, 3)),
                )
                &&& machine_unchanged(pre, post)
            }
            &&& pre.i_register + 3 <= MEMORY_END ==> ({
                let i = pre.i_register as int;
                let v = pre.registers@[x as int];
                &&& r == Ok::<TickFlow, TickError>(TickFlow::Advance)
                &&& only_memory_changed(pre, post)
                &&& post.memory@ == pre.memory@.update(i, (v / 100) as u8).update(
                    i + 1,
                    ((v / 10) % 10) as u8,
                ).update(i + 2, (v % 10) as u8)
            })
        },
        Instruction::StoreRegisters(x) => {
            &&& pre.i_register + x + 1 > MEMORY_END ==> {
                &&& r == Err::<TickFlow, TickError>(
                    TickError::MemoryError(
                        memory::Error::RangeOutOfBound(pre.i_register, (x + 1) as u16),
                    ),
                )
                &&& machine_unchanged(pre, post)
            }
            &&& pre.i_register + x + 1 <= MEMORY_END ==> {
                &&& r == Ok::<TickFlow, TickError>(TickFlow::Advance)
                &&& only_memory_and_i_changed(pre, post)
                &&& post.i_register == pre.i_register + x + 1
                &&& post.memory@.len() == pre.memory@.len()
                &&& forall|k: int|
                    0 <= k <= x ==> post.memory@[pre.i_register + k] == pre.registers@[k]
                &&& forall|a: int|
                    0 <= a < pre.memory@.len() && !(pre.i_register <= a <= pre.i_register + x)
                        ==> post.memory@[a] == pre.memory@[a]
            }
        },
        Instruction::LoadRegisters(x) => {
            &&& pre.i_register + x + 1 > MEMORY_END ==> {
                &&& r == Err::<TickFlow, TickError>(
                    TickError::MemoryError(
                        memory::Error::RangeOutOfBound(pre.i_register, (x + 1) as u16),
                    ),
                )
                &&& machine_unchanged(pre, post)
            }
            &&& pre.i_register + x + 1 <= MEMORY_END ==> {
                &&& r == Ok::<TickFlow, TickError>(TickFlow::Advance)
                &&& only_registers_and_i_changed(pre, post)
                &&& post.i_register == pre.i_register + x + 1
                &&& post.registers@.len() == REGISTER_COUNT
                &&& forall|k: int|
                    0 <= k <= x ==> post.registers@[k] == pre.memory@[pre.i_register + k]
                &&& forall|k: int|
                    x < k < REGISTER_COUNT ==> post.registers@[k] == pre.registers@[k]
            }
        },
    }
}

/// Whichever instruction was executed, the program counter is untouched,
/// and a failed instruction leaves the whole machine unchanged.
proof fn lemma_instr_rel_frame(
    pre: Machine,
    post: Machine,
    instruction: Instruction,
    r: TickResult,
)
    requires
        instr_rel(pre, post, instruction, r),
    ensures
        same_ip_register(pre, post),
        r is Err ==> machine_unchanged(pre, post),
{
    match instruction {
        Instruction::ClearScreen => {},
        Instruction::ReturnFromSubroutine => {},
        Instruction::JumpToMachineCode(..) => {},
        Instruction::JumpTo(..) => {},
        Instruction::ExecuteSubroutine(..) => {},
        Instruction::SkipEqTo(..) => {},
        Instruction::SkipNeqTo(..) => {},
        Instruction::SkipEq(..) => {},
        Instruction::StoreValue(..) => {},
        Instruction::AddValue(..) => {},
        Instruction::StoreRegister(..) => {},
        Instruction::Or(..) => {},
        Instruction::And(..) => {},
        Instruction::Xor(..) => {},
        Instruction::AddRegister(..) => {},
        Instruction::SubRegister(..) => {},
        Instruction::ShiftRight(..) => {},
        Instruction::SubRegisterReverse(..) => {},
        Instruction::ShiftLeft(..) => {},
        Instruction::SkipNeq(..) => {},
        Instruction::StoreAddr(..) => {},
        Instruction::JumpToOffset(..) => {},
        Instruction::StoreRandom(..) => {},
        Instruction::DrawSprite(..) => {},
        Instruction::SkipIfKeyPressed(..) => {},
        Instruction::SkipIfKeyNotPressed(..) => {},
        Instruction::StoreDelayTimer(..) => {},
        Instruction::WaitForKeypress(..) => {},
        Instruction::SetDelayTimer(..) => {},
        Instruction::SetSoundTimer(..) => {},
        Instruction::AddToI(..) => {},
        Instruction::StoreDigitLocation(..) => {},
        Instruction::StoreBinaryCoded(..) => {},
        Instruction::StoreRegisters(..) => {},
        Instruction::LoadRegisters(..) => {},
    }
}

/// Store-then-read law: on any register file, after `store_register(x, y)`
/// writes the value of VY into VX, reading VX yields exactly the value VY
/// held before the store.
pub proof fn lemma_store_register_reads_back(regs: Seq<u8>, x: int, y: int)
    requires
        0 <= x < REGISTER_COUNT,
        0 <= y < REGISTER_COUNT,
        regs.len() == REGISTER_COUNT,
    ensures
        regs.update(x, regs[y])[x] == regs[y],
{
}

/// Error law: whichever instruction was executed, a failed tick leaves the
/// machine exactly as it was before, so a run can be re-executed
/// deterministically.
pub proof fn lemma_error_preserves_machine(
    pre: Machine,
    post: Machine,
    instruction: Instruction,
    r: TickResult,
)
    requires
        instr_rel(pre, post, instruction, r),
        r is Err,
    ensures
        machine_unchanged(pre, post),
{
    lemma_instr_rel_frame(pre, post, instruction, r);
}

/// How one tick relates the machine before and after: the program counter is
/// untouched, fetch and decode errors are exact, and a decoded instruction
/// acts as `instr_rel` says.
pub open spec fn tick_rel(pre: Machine, post: Machine, r: TickResult) -> bool {
    &&& same_ip_register(pre, post)
    &&& r is Err ==> machine_unchanged(pre, post)
    &&& pre.ip_register >= MEMORY_END ==> r == Err::<TickFlow, TickError>(
        TickError::MemoryError(memory::Error::OutOfBound(pre.ip_register)),
    )
    &&& pre.ip_register + 1 == MEMORY_END ==> r == Err::<TickFlow, TickError>(
        TickError::MemoryError(memory::Error::OutOfBound((pre.ip_register + 1) as u16)),
    )
    &&& fetch_readable(pre) ==> match spec_fetch(pre) {
        Some(instruction) => instr_rel(pre, post, instruction, r),
        None => r == Err::<TickFlow, TickError>(TickError::Unknown),
    }
}

/// How one driver step relates the machine before and after: a tick, then
/// the flow directive applied to the program counter. `Wait` leaves the
/// program counter alone; an error leaves the whole machine alone.
pub open spec fn step_rel(pre: Machine, post: Machine, r: RunResult) -> bool {
    ({
        let mid = Machine { ip_register: pre.ip_register, ..post };
        match r {
            Ok(RunFlow::Continue) => {
                ||| (tick_rel(pre, mid, Ok(TickFlow::Advance)) && post.ip_register
                    == pre.ip_register + INSTRUCTION_SIZE)
                ||| (tick_rel(pre, mid, Ok(TickFlow::Skip)) && post.ip_register
                    == pre.ip_register + 2 * INSTRUCTION_SIZE)
                ||| (exists|a: Address|
                    tick_rel(pre, mid, Ok(TickFlow::GoTo(a))) && post.ip_register == a)
            },
            Ok(RunFlow::Wait) => tick_rel(pre, post, Ok(TickFlow::Wait)),
            Err(e) => tick_rel(pre, post, Err(e)),
        }
    })
}

/// A chain of `k` driver steps, each of which continued.
pub open spec fn steps_chain(pre: Machine, post: Machine, k: nat) -> bool
    decreases k,
{
    if k == 0 {
        post == pre
    } else {
        exists|mid: Machine|
            steps_chain(pre, mid, (k - 1) as nat) && step_rel(mid, post, Ok(RunFlow::Continue))
    }
}

impl Machine {
    /// A machine at power-on: registers, timers and screen cleared, the font
    /// installed, and the program counter at the program entry point.
    pub fn new() -> (m: Machine)
        ensures
            forall|k: int| 0 <= k < REGISTER_COUNT ==> m.registers@[k] == 0u8,
            m.i_register == 0,
            m.ip_register == PROGRAM_ENTRYPOINT,
            m.memory@.len() == MEMORY_SIZE,
            forall|a: int| 0 <= a < 16 * GLYPH_SIZE ==> m.memory@[a] == memory::font_byte(a),
            forall|a: int| 16 * GLYPH_SIZE <= a < MEMORY_SIZE ==> m.memory@[a] == 0u8,
            m.delay_timer == 0,
            m.sound_timer == 0,
            m.call_stack@ == Seq::<Address>::empty(),
            m.screen@.len() == PIXEL_COUNT,
            forall|i: int| 0 <= i < PIXEL_COUNT ==> !m.screen@[i],
            forall|j: int| 0 <= j < KEY_COUNT ==> !m.keypad.pressed_keys()[j],
            forall|j: int| 0 <= j < KEY_COUNT ==> !m.keypad.just_pressed_keys()[j],
            forall|j: int| 0 <= j < KEY_COUNT ==> !m.keypad.just_released_keys()[j],
    {
        let mut mem = Memory::zeroed();
        mem.load_font();
        Machine {
            registers: [0; REGISTER_COUNT],
            i_register: 0,
            ip_register: PROGRAM_ENTRYPOINT,
            memory: mem,
            delay_timer: 0,
            sound_timer: 0,
            call_stack: CallStack::new(),
            screen: Screen::new(),
            keypad: Keypad::new(),
        }
    }

    /// Install a program at the entry point; fails, leaving the machine
    /// unchanged, if the program does not fit.
    pub fn load_program(&mut self, program: &[u8]) -> (r: Result<(), memory::Error>)
        ensures
            only_memory_changed(*old(self), *final(self)),
            program@.len() <= memory::PROGRAM_CAPACITY ==> {
                &&& r == Ok::<(), memory::Error>(())
                &&& final(self).memory@.len() == MEMORY_SIZE
                &&& forall|k: int|
                    0 <= k < program@.len() ==> final(self).memory@[PROGRAM_ENTRYPOINT + k]
                        == program@[k]
                &&& forall|a: int|
                    0 <= a < MEMORY_SIZE && !(PROGRAM_ENTRYPOINT <= a < PROGRAM_ENTRYPOINT
                        + program@.len()) ==> final(self).memory@[a] == old(self).memory@[a]
            },
            program@.len() > memory::PROGRAM_CAPACITY ==> r == Err::<(), memory::Error>(
                memory::Error::ProgramTooLarge,
            ) && same_memory(*old(self), *final(self)),
    {
        self.memory.load_program(program)
    }

    /// The value of register `x`.
    pub fn register(&self, x: Register) -> (r: u8)
        requires
            x < REGISTER_COUNT,
        ensures
            r == self.registers@[x as int],
    {
        self.registers[x as usize]
    }

    /// A mutable reference to register `x`; the register file after the
    /// call holds whatever value the caller leaves behind the reference.
    pub fn register_mut(&mut self, x: Register) -> (r: &mut u8)
        requires
            x < REGISTER_COUNT,
        ensures
            *r == old(self).registers@[x as int],
            only_registers_changed(*old(self), *final(self)),
            final(self).registers@ == old(self).registers@.update(x as int, *final(r)),
    {
        &mut self.registers[x as usize]
    }

    /// Overwrite register `x`.
    pub fn set_register(&mut self, x: Register, value: u8)
        requires
            x < REGISTER_COUNT,
        ensures
            only_registers_changed(*old(self), *final(self)),
            final(self).registers@ == old(self).registers@.update(x as int, value),
    {
        self.registers[x as usize] = value;
    }

    /// Decrement both countdown timers by one, saturating at zero. Called by
    /// the driver once per display frame, independent of instruction
    /// execution.
    pub fn decrement_timers(&mut self)
        ensures
            same_registers(*old(self), *final(self)),
            same_i_register(*old(self), *final(self)),
            same_ip_register(*old(self), *final(self)),
            same_memory(*old(self), *final(self)),
            same_call_stack(*old(self), *final(self)),
            same_screen(*old(self), *final(self)),
            same_keypad(*old(self), *final(self)),
            final(self).delay_timer == if old(self).delay_timer > 0 {
                old(self).delay_timer - 1
            } else {
                0
            },
            final(self).sound_timer == if old(self).sound_timer > 0 {
                old(self).sound_timer - 1
            } else {
                0
            },
    {
        if self.delay_timer > 0 {
            self.delay_timer = self.delay_timer - 1;
        }
        if self.sound_timer > 0 {
            self.sound_timer = self.sound_timer - 1;
        }
    }

    /// 2NNN: push the return address and jump to the subroutine at `addr`;
    /// fails with `Overflow`, leaving the machine unchanged, when twelve
    /// calls are already nested.
    pub fn execute_subroutine(&mut self, addr: Address) -> (r: TickResult)
        requires
            old(self).ip_register + INSTRUCTION_SIZE <= u16::MAX,
        ensures
            old(self).call_stack@.len() < call_stack::STACK_CAPACITY ==> {
                &&& r == Ok::<TickFlow, TickError>(TickFlow::GoTo(addr))
                &&& only_call_stack_changed(*old(self), *final(self))
                &&& final(self).call_stack@ == old(self).call_stack@.push(
                    (old(self).ip_register + INSTRUCTION_SIZE) as u16,
                )
            },
            old(self).call_stack@.len() >= call_stack::STACK_CAPACITY ==> {
                &&& r == Err::<TickFlow, TickError>(
                    TickError::StackError(call_stack::Error::Overflow),
                )
                &&& machine_unchanged(*old(self), *final(self))
            },
    {
        match self.call_stack.push(self.ip_register + INSTRUCTION_SIZE) {
            Ok(()) => Ok(TickFlow::GoTo(addr)),
            Err(e) => Err(TickError::StackError(e)),
        }
    }

    /// 00E0: unset every pixel of the screen.
    pub fn clear_screen(&mut self) -> (r: TickResult)
        ensures
            r == Ok::<TickFlow, TickError>(TickFlow::Advance),
            only_screen_changed(*old(self), *final(self)),
            final(self).screen@.len() == PIXEL_COUNT,
            forall|i: int| 0 <= i < PIXEL_COUNT ==> !final(self).screen@[i],
    {
        self.screen.clear();
        Ok(TickFlow::Advance)
    }

    /// 3XNN: skip the following instruction if VX equals `value`.
    pub fn skip_eq_to(&mut self, x: Register, value: u8) -> (r: TickResult)
        requires
            x < REGISTER_COUNT,
        ensures
            machine_unchanged(*old(self), *final(self)),
            r == Ok::<TickFlow, TickError>(
                if old(self).registers@[x as int] == value {
                    TickFlow::Skip
                } else {
                    TickFlow::Advance
                },
            ),
    {
        if self.register(x) == value {
            Ok(TickFlow::Skip)
        } else {
            Ok(TickFlow::Advance)
        }
    }

    /// 4XNN: skip the following instruction if VX is not equal to `value`.
    pub fn skip_neq_to(&mut self, x: Register, value: u8) -> (r: TickResult)
        requires
            x < REGISTER_COUNT,
        ensures
            machine_unchanged(*old(self), *final(self)),
            r == Ok::<TickFlow, TickError>(
                if old(self).registers@[x as int] != value {
                    TickFlow::Skip
                } else {
                    TickFlow::Advance
                },
            ),
    {
        if self.register(x) != value {
            Ok(TickFlow::Skip)
        } else {
            Ok(TickFlow::Advance)
        }
    }

    /// 5XY0: skip the following instruction if VX equals VY.
    pub fn skip_eq(&mut self, x: Register, y: Register) -> (r: TickResult)
        requires
            x < REGISTER_COUNT,
            y < REGISTER_COUNT,
        ensures
            machine_unchanged(*old(self), *final(self)),
            r == Ok::<TickFlow, TickError>(
                if old(self).registers@[x as int] == old(self).registers@[y as int] {
                    TickFlow::Skip
                } else {
                    TickFlow::Advance
                },
            ),
    {
        if self.register(x) == self.register(y) {
            Ok(TickFlow::Skip)
        } else {
            Ok(TickFlow::Advance)
        }
    }

    /// 00EE: pop the return address and jump to it; fails with `Underflow`,
    /// leaving the machine unchanged, when no call is active.
    pub fn return_from_subroutine(&mut self) -> (r: TickResult)
        ensures
            old(self).call_stack@.len() > 0 ==> {
                &&& r == Ok::<TickFlow, TickError>(TickFlow::GoTo(old(self).call_stack@.last()))
                &&& only_call_stack_changed(*old(self), *final(self))
                &&& final(self).call_stack@ == old(self).call_stack@.drop_last()
            },
            old(self).call_stack@.len() == 0 ==> {
                &&& r == Err::<TickFlow, TickError>(
                    TickError::StackError(call_stack::Error::Underflow),
                )
                &&& machine_unchanged(*old(self), *final(self))
            },
    {
        match self.call_stack.pop() {
            Ok(addr) => Ok(TickFlow::GoTo(addr)),
            Err(e) => Err(TickError::StackError(e)),
        }
    }

    /// 1NNN: jump to `addr`.
    pub fn jump_to(&mut self, addr: Address) -> (r: TickResult)
        ensures
            machine_unchanged(*old(self), *final(self)),
            r == Ok::<TickFlow, TickError>(TickFlow::GoTo(addr)),
    {
        Ok(TickFlow::GoTo(addr))
    }

    /// 0NNN: the historical machine-code passthrough; always fails with
    /// `Unimplemented` rather than silently doing nothing.
    pub fn jump_to_machine_code(&mut self, _addr: Address) -> (r: TickResult)
        ensures
            machine_unchanged(*old(self), *final(self)),
            r == Err::<TickFlow, TickError>(TickError::Unimplemented),
    {
        Err(TickError::Unimplemented)
    }

    /// 6XNN: store `value` in VX.
    pub fn store_value(&mut self, x: Register, value: u8) -> (r: TickResult)
        requires
            x < REGISTER_COUNT,
        ensures
            only_registers_changed(*old(self), *final(self)),
            final(self).registers@ == old(self).registers@.update(x as int, value),
            r == Ok::<TickFlow, TickError>(TickFlow::Advance),
    {
        self.set_register(x, value);
        Ok(TickFlow::Advance)
    }

    /// 7XNN: add `value` to VX, wrapping; VF is not touched.
    pub fn add_value(&mut self, x: Register, value: u8) -> (r: TickResult)
        requires
            x < REGISTER_COUNT,
        ensures
            only_registers_changed(*old(self), *final(self)),
            final(self).registers@ == old(self).registers@.update(
                x as int,
                wrap_add_u8(old(self).registers@[x as int], value),
            ),
            r == Ok::<TickFlow, TickError>(TickFlow::Advance),
    {
        let sum = self.register(x).wrapping_add(value);
        self.set_register(x, sum);
        Ok(TickFlow::Advance)
    }

    /// 8XY0: store the value of VY in VX. Reading VX afterwards always
    /// yields the prior value of VY.
    pub fn store_register(&mut self, x: Register, y: Register) -> (r: TickResult)
        requires
            x < REGISTER_COUNT,
            y < REGISTER_COUNT,
        ensures
            only_registers_changed(*old(self), *final(self)),
            final(self).registers@ == old(self).registers@.update(
                x as int,
                old(self).registers@[y as int],
            ),
            r == Ok::<TickFlow, TickError>(TickFlow::Advance),
    {
        let vy = self.register(y);
        self.set_register(x, vy);
        Ok(TickFlow::Advance)
    }

    /// 8XY1: set VX to VX OR VY.
    pub fn or(&mut self, x: Register, y: Register) -> (r: TickResult)
        requires
            x < REGISTER_COUNT,
            y < REGISTER_COUNT,
        ensures
            only_registers_changed(*old(self), *final(self)),
            final(self).registers@ == old(self).registers@.update(
                x as int,
                old(self).registers@[x as int] | old(self).registers@[y as int],
            ),
            r == Ok::<TickFlow, TickError>(TickFlow::Advance),
    {
        let v = self.register(x) | self.register(y);
        self.set_register(x, v);
        Ok(TickFlow::Advance)
    }

    /// 8XY2: set VX to VX AND VY.
    pub fn and(&mut self, x: Register, y: Register) -> (r: TickResult)
        requires
            x < REGISTER_COUNT,
            y < REGISTER_COUNT,
        ensures
            only_registers_changed(*old(self), *final(self)),
            final(self).registers@ == old(self).registers@.update(
                x as int,
                old(self).registers@[x as int] & old(self).registers@[y as int],
            ),
            r == Ok::<TickFlow, TickError>(TickFlow::Advance),
    {
        let v = self.register(x) & self.register(y);
        self.set_register(x, v);
        Ok(TickFlow::Advance)
    }

    /// 8XY3: set VX to VX XOR VY.
    pub fn xor(&mut self, x: Register, y: Register) -> (r: TickResult)
        requires
            x < REGISTER_COUNT,
            y < REGISTER_COUNT,
        ensures
            only_registers_changed(*old(self), *final(self)),
            final(self).registers@ == old(self).registers@.update(
                x as int,
                old(self).registers@[x as int] ^ old(self).registers@[y as int],
            ),
            r == Ok::<TickFlow, TickError>(TickFlow::Advance),
    {
        let v = self.register(x) ^ self.register(y);
        self.set_register(x, v);
        Ok(TickFlow::Advance)
    }

    /// 8XY4: add VY to VX, wrapping; then VF becomes 1 exactly when the
    /// unsigned sum of the two operands exceeds 255, else 0.
    pub fn add_register(&mut self, x: Register, y: Register) -> (r: TickResult)
        requires
            x < REGISTER_COUNT,
            y < REGISTER_COUNT,
        ensures
            only_registers_changed(*old(self), *final(self)),
            final(self).registers@ == old(self).registers@.update(
                x as int,
                wrap_add_u8(old(self).registers@[x as int], old(self).registers@[y as int]),
            ).update(
                0xF,
                if old(self).registers@[x as int] + old(self).registers@[y as int] > 255 {
                    1u8
                } else {
                    0u8
                },
            ),
            r == Ok::<TickFlow, TickError>(TickFlow::Advance),
    {
        let vx = self.register(x);
        let vy = self.register(y);
        let carry: u8 = if vx as u16 + vy as u16 > 255 {
            1
        } else {
            0
        };
        self.set_register(x, vx.wrapping_add(vy));
        self.set_register(0xF, carry);
        Ok(TickFlow::Advance)
    }

    /// 8XY5: subtract VY from VX, wrapping; then VF becomes 0 exactly when a
    /// borrow occurred (VX was less than VY), else 1.
    pub fn sub_register(&mut self, x: Register, y: Register) -> (r: TickResult)
        requires
            x < REGISTER_COUNT,
            y < REGISTER_COUNT,
        ensures
            only_registers_changed(*old(self), *final(self)),
            final(self).registers@ == old(self).registers@.update(
                x as int,
                wrap_sub_u8(old(self).registers@[x as int], old(self).registers@[y as int]),
            ).update(
                0xF,
                if old(self).registers@[x as int] < old(self).registers@[y as int] {
                    0u8
                } else {
                    1u8
                },
            ),
            r == Ok::<TickFlow, TickError>(TickFlow::Advance),
    {
        let vx = self.register(x);
        let vy = self.register(y);
        let no_borrow: u8 = if vx < vy {
            0
        } else {
            1
        };
        self.set_register(x, vx.wrapping_sub(vy));
        self.set_register(0xF, no_borrow);
        Ok(TickFlow::Advance)
    }

    /// 8XY6: store VY shifted right by one bit in VX (a literal shift by
    /// one); then VF becomes the least significant bit of VY before the
    /// shift. VY is unchanged.
    pub fn shift_right(&mut self, x: Register, y: Register) -> (r: TickResult)
        requires
            x < REGISTER_COUNT,
            y < REGISTER_COUNT,
        ensures
            only_registers_changed(*old(self), *final(self)),
            final(self).registers@ == old(self).registers@.update(
                x as int,
                old(self).registers@[y as int] / 2,
            ).update(0xF, (old(self).registers@[y as int] % 2) as u8),
            r == Ok::<TickFlow, TickError>(TickFlow::Advance),
    {
        let vy = self.register(y);
        proof {
            assert(vy >> 1u8 == vy / 2 && (vy & 1) == vy % 2) by (bit_vector);
        }
        let low = vy & 1;
        self.set_register(x, vy >> 1);
        self.set_register(0xF, low);
        Ok(TickFlow::Advance)
    }

    /// 8XY7: set VX to VY minus VX, wrapping; then VF becomes 0 exactly when
    /// a borrow occurred (VY was less than VX), else 1.
    pub fn sub_register_reverse(&mut self, x: Register, y: Register) -> (r: TickResult)
        requires
            x < REGISTER_COUNT,
            y < REGISTER_COUNT,
        ensures
            only_registers_changed(*old(self), *final(self)),
            final(self).registers@ == old(self).registers@.update(
                x as int,
                wrap_sub_u8(old(self).registers@[y as int], old(self).registers@[x as int]),
            ).update(
                0xF,
                if old(self).registers@[y as int] < old(self).registers@[x as int] {
                    0u8
                } else {
                    1u8
                },
            ),
            r == Ok::<TickFlow, TickError>(TickFlow::Advance),
    {
        let vx = self.register(x);
        let vy = self.register(y);
        let no_borrow: u8 = if vy < vx {
            0
        } else {
            1
        };
        self.set_register(x, vy.wrapping_sub(vx));
        self.set_register(0xF, no_borrow);
        Ok(TickFlow::Advance)
    }

    /// 8XYE: store VY shifted left by one bit in VX, wrapping; then VF
    /// becomes the most significant bit of VY before the shift, as the raw
    /// mask 0x80 or 0x00, not normalized to 1 or 0. VY is unchanged.
    pub fn shift_left(&mut self, x: Register, y: Register) -> (r: TickResult)
        requires
            x < REGISTER_COUNT,
            y < REGISTER_COUNT,
        ensures
            only_registers_changed(*old(self), *final(self)),
            final(self).registers@ == old(self).registers@.update(
                x as int,
                wrap_add_u8(old(self).registers@[y as int], old(self).registers@[y as int]),
            ).update(
                0xF,
                if old(self).registers@[y as int] >= 128 {
                    0x80u8
                } else {
                    0u8
                },
            ),
            r == Ok::<TickFlow, TickError>(TickFlow::Advance),
    {
        let vy = self.register(y);
        proof {
            assert((vy & 0x80) == (if vy >= 128 { 0x80u8 } else { 0u8 })) by (bit_vector);
            assert((vy << 1u8) == (if vy + vy > 255 { (vy + vy - 256) as u8 } else { (vy + vy) as u8 }))
                by (bit_vector);
        }
        let msb = vy & 0x80;
        self.set_register(x, vy << 1);
        self.set_register(0xF, msb);
        Ok(TickFlow::Advance)
    }

    /// 9XY0: skip the following instruction if VX is not equal to VY.
    pub fn skip_neq(&mut self, x: Register, y: Register) -> (r: TickResult)
        requires
            x < REGISTER_COUNT,
            y < REGISTER_COUNT,
        ensures
            machine_unchanged(*old(self), *final(self)),
            r == Ok::<TickFlow, TickError>(
                if old(self).registers@[x as int] != old(self).registers@[y as int] {
                    TickFlow::Skip
                } else {
                    TickFlow::Advance
                },
            ),
    {
        if self.register(x) != self.register(y) {
            Ok(TickFlow::Skip)
        } else {
            Ok(TickFlow::Advance)
        }
    }

    /// ANNN: store `addr` in the index register.
    pub fn store_addr(&mut self, addr: Address) -> (r: TickResult)
        ensures
            only_i_register_changed(*old(self), *final(self)),
            final(self).i_register == addr,
            r == Ok::<TickFlow, TickError>(TickFlow::Advance),
    {
        self.i_register = addr;
        Ok(TickFlow::Advance)
    }

    /// BNNN: jump to `reference` plus the value of V0, the 8-bit value
    /// promoted to address width.
    pub fn jump_to_offset(&mut self, reference: u16) -> (r: TickResult)
        requires
            reference < MEMORY_END,
        ensures
            machine_unchanged(*old(self), *final(self)),
            r == Ok::<TickFlow, TickError>(
                TickFlow::GoTo((reference + old(self).registers@[0]) as u16),
            ),
    {
        let v0 = self.register(0);
        Ok(TickFlow::GoTo(reference + v0 as u16))
    }

    /// CXNN with the random byte already drawn: store `byte AND mask` in VX.
    /// This part is verified for every value of the byte; `store_random`
    /// draws the byte and calls it.
    pub fn store_random_masked(&mut self, x: Register, mask: u8, byte: u8) -> (r: TickResult)
        requires
            x < REGISTER_COUNT,
        ensures
            only_registers_changed(*old(self), *final(self)),
            final(self).registers@ == old(self).registers@.update(x as int, byte & mask),
            r == Ok::<TickFlow, TickError>(TickFlow::Advance),
    {
        self.set_register(x, byte & mask);
        Ok(TickFlow::Advance)
    }

    /// CXNN: store a uniformly random byte AND `mask` in VX. Whatever byte
    /// came back, only VX changes and it holds the byte masked.
    pub fn store_random(&mut self, x: Register, mask: u8) -> (r: TickResult)
        requires
            x < REGISTER_COUNT,
        ensures
            only_registers_changed(*old(self), *final(self)),
            exists|b: u8|
                final(self).registers@ == old(self).registers@.update(x as int, b & mask),
            r == Ok::<TickFlow, TickError>(TickFlow::Advance),
    {
        let byte = random_byte();
        self.store_random_masked(x, mask, byte)
    }

    /// DXYN: draw the `line_count`-byte sprite held in memory at the index
    /// register, at position (VX, VY); then VF becomes 1 exactly when some
    /// pixel went from set to unset. Fails, leaving the machine unchanged,
    /// when the sprite bytes do not fit below the end of memory. The index
    /// register is not changed by drawing.
    pub fn draw_sprite(&mut self, x: Register, y: Register, line_count: u8) -> (r: TickResult)
        requires
            x < REGISTER_COUNT,
            y < REGISTER_COUNT,
        ensures
            old(self).i_register + line_count > MEMORY_END ==> {
                &&& r == Err::<TickFlow, TickError>(
                    TickError::MemoryError(
                        memory::Error::RangeOutOfBound(old(self).i_register, line_count as u16),
                    ),
                )
                &&& machine_unchanged(*old(self), *final(self))
            },
            old(self).i_register + line_count <= MEMORY_END ==> ({
                let sprite = old(self).memory@.subrange(
                    old(self).i_register as int,
                    old(self).i_register + line_count,
                );
                let sx = old(self).registers@[x as int] as int;
                let sy = old(self).registers@[y as int] as int;
                let collided = draw_collides(old(self).screen@, sx, sy, sprite);
                &&& r == Ok::<TickFlow, TickError>(TickFlow::Advance)
                &&& only_screen_and_registers_changed(*old(self), *final(self))
                &&& draw_applied(old(self).screen@, final(self).screen@, sx, sy, sprite)
                &&& final(self).registers@ == old(self).registers@.update(
                    0xF,
                    if collided {
                        1u8
                    } else {
                        0u8
                    },
                )
            }),
    {
        let sprite = match self.memory.range(self.i_register, line_count as u16) {
            Ok(s) => s,
            Err(e) => {
                return Err(TickError::MemoryError(e));
            },
        };
        let vx = self.register(x);
        let vy = self.register(y);
        let collision = self.screen.draw_sprite(vx as usize, vy as usize, sprite.as_slice());
        let flag: u8 = if collision {
            1
        } else {
            0
        };
        self.set_register(0xF, flag);
        Ok(TickFlow::Advance)
    }

    /// EX9E: skip the following instruction if the key named by the value of
    /// VX is currently pressed; the steady state is consulted, not the
    /// just-pressed edge set.
    pub fn skip_if_key_pressed(&mut self, x: Register) -> (r: TickResult)
        requires
            x < REGISTER_COUNT,
        ensures
            machine_unchanged(*old(self), *final(self)),
            r == Ok::<TickFlow, TickError>(
                if spec_key_pressed(*old(self), x) {
                    TickFlow::Skip
                } else {
                    TickFlow::Advance
                },
            ),
    {
        let key = self.register(x);
        if self.keypad.pressed(key) {
            Ok(TickFlow::Skip)
        } else {
            Ok(TickFlow::Advance)
        }
    }

    /// EXA1: skip the following instruction if the key named by the value of
    /// VX is currently not pressed.
    pub fn skip_if_key_not_pressed(&mut self, x: Register) -> (r: TickResult)
        requires
            x < REGISTER_COUNT,
        ensures
            machine_unchanged(*old(self), *final(self)),
            r == Ok::<TickFlow, TickError>(
                if spec_key_pressed(*old(self), x) {
                    TickFlow::Advance
                } else {
                    TickFlow::Skip
                },
            ),
    {
        let key = self.register(x);
        if self.keypad.pressed(key) {
            Ok(TickFlow::Advance)
        } else {
            Ok(TickFlow::Skip)
        }
    }

    /// FX07: store the current value of the delay timer in VX.
    pub fn store_delay_timer(&mut self, x: Register) -> (r: TickResult)
        requires
            x < REGISTER_COUNT,
        ensures
            only_registers_changed(*old(self), *final(self)),
            final(self).registers@ == old(self).registers@.update(
                x as int,
                old(self).delay_timer,
            ),
            r == Ok::<TickFlow, TickError>(TickFlow::Advance),
    {
        let t = self.delay_timer;
        self.set_register(x, t);
        Ok(TickFlow::Advance)
    }

    /// FX0A: if a key was pressed since the last edge reset, store the
    /// lowest-numbered such key in VX and advance; otherwise wait, changing
    /// nothing, so the same instruction is re-evaluated next cycle.
    pub fn wait_for_keypress(&mut self, x: Register) -> (r: TickResult)
        requires
            x < REGISTER_COUNT,
        ensures
            (forall|j: int| 0 <= j < KEY_COUNT ==> !old(self).keypad.just_pressed_keys()[j])
                ==> r == Ok::<TickFlow, TickError>(TickFlow::Wait) && machine_unchanged(
                *old(self),
                *final(self),
            ),
            (exists|j: int| 0 <= j < KEY_COUNT && old(self).keypad.just_pressed_keys()[j]) ==> {
                &&& r == Ok::<TickFlow, TickError>(TickFlow::Advance)
                &&& only_registers_changed(*old(self), *final(self))
                &&& exists|k: int|
                    {
                        &&& 0 <= k < KEY_COUNT
                        &&& old(self).keypad.just_pressed_keys()[k]
                        &&& forall|j: int| 0 <= j < k ==> !old(self).keypad.just_pressed_keys()[j]
                        &&& final(self).registers@ == old(self).registers@.update(
                            x as int,
                            k as u8,
                        )
                    }
            },
    {
        match self.keypad.just_pressed() {
            Some(key) => {
                self.set_register(x, key);
                Ok(TickFlow::Advance)
            },
            None => Ok(TickFlow::Wait),
        }
    }

    /// FX15: set the delay timer to the value of VX.
    pub fn set_delay_timer(&mut self, x: Register) -> (r: TickResult)
        requires
            x < REGISTER_COUNT,
        ensures
            only_delay_timer_changed(*old(self), *final(self)),
            final(self).delay_timer == old(self).registers@[x as int],
            r == Ok::<TickFlow, TickError>(TickFlow::Advance),
    {
        self.delay_timer = self.register(x);
        Ok(TickFlow::Advance)
    }

    /// FX18: set the sound timer to the value of VX.
    pub fn set_sound_timer(&mut self, x: Register) -> (r: TickResult)
        requires
            x < REGISTER_COUNT,
        ensures
            only_sound_timer_changed(*old(self), *final(self)),
            final(self).sound_timer == old(self).registers@[x as int],
            r == Ok::<TickFlow, TickError>(TickFlow::Advance),
    {
        self.sound_timer = self.register(x);
        Ok(TickFlow::Advance)
    }

    /// FX1E: add the value of VX to the index register, wrapping.
    pub fn add_to_i(&mut self, x: Register) -> (r: TickResult)
        requires
            x < REGISTER_COUNT,
        ensures
            only_i_register_changed(*old(self), *final(self)),
            final(self).i_register == wrap_add_u16(
                old(self).i_register,
                old(self).registers@[x as int] as u16,
            ),
            r == Ok::<TickFlow, TickError>(TickFlow::Advance),
    {
        let value = self.register(x) as u16;
        self.i_register = self.i_register.wrapping_add(value);
        Ok(TickFlow::Advance)
    }

    /// FX29: point the index register at the font glyph for the hexadecimal
    /// digit held in the low nibble of VX.
    pub fn store_digit_location(&mut self, x: Register) -> (r: TickResult)
        requires
            x < REGISTER_COUNT,
        ensures
            only_i_register_changed(*old(self), *final(self)),
            final(self).i_register == FONT_LOCATION + (old(self).registers@[x as int] % 16)
                * GLYPH_SIZE,
            r == Ok::<TickFlow, TickError>(TickFlow::Advance),
    {
        let digit = self.register(x) & 0xF;
        proof {
            let v = self.registers@[x as int];
            assert((v & 0xF) == v % 16) by (bit_vector);
        }
        self.i_register = FONT_LOCATION + digit as u16 * GLYPH_SIZE;
        Ok(TickFlow::Advance)
    }

    /// FX33: write the three decimal digits of the value of VX, hundreds
    /// first, at the index register and the two following addresses; the
    /// index register itself is unchanged. Fails, leaving the machine
    /// unchanged, when the three addresses do not fit below the end of
    /// memory.
    pub fn store_binary_coded(&mut self, x: Register) -> (r: TickResult)
        requires
            x < REGISTER_COUNT,
        ensures
            old(self).i_register + 3 > MEMORY_END ==> {
                &&& r == Err::<TickFlow, TickError>(
                    TickError::MemoryError(
                        memory::Error::RangeOutOfBound(old(self).i_register, 3),
                    ),
                )
                &&& machine_unchanged(*old(self), *final(self))
            },
            old(self).i_register + 3 <= MEMORY_END ==> ({
                let i = old(self).i_register as int;
                let v = old(self).registers@[x as int];
                &&& r == Ok::<TickFlow, TickError>(TickFlow::Advance)
                &&& only_memory_changed(*old(self), *final(self))
                &&& final(self).memory@ == old(self).memory@.update(i, (v / 100) as u8).update(
                    i + 1,
                    ((v / 10) % 10) as u8,
                ).update(i + 2, (v % 10) as u8)
            }),
    {
        if self.i_register > MEMORY_END - 3 {
            return Err(
                TickError::MemoryError(memory::Error::RangeOutOfBound(self.i_register, 3)),
            );
        }
        let i = self.i_register;
        let v = self.register(x);
        let _ = self.memory.set(i, v / 100);
        let _ = self.memory.set(i + 1, (v / 10) % 10);
        let _ = self.memory.set(i + 2, v % 10);
        Ok(TickFlow::Advance)
    }

    /// FX55: store the values of registers V0 through VX inclusive in memory
    /// starting at the index register, which is left pointing one past the
    /// last address written. Fails, leaving the machine unchanged, when the
    /// addresses do not fit below the end of memory.
    pub fn store_registers(&mut self, x: Register) -> (r: TickResult)
        requires
            x < REGISTER_COUNT,
        ensures
            old(self).i_register + x + 1 > MEMORY_END ==> {
                &&& r == Err::<TickFlow, TickError>(
                    TickError::MemoryError(
                        memory::Error::RangeOutOfBound(old(self).i_register, (x + 1) as u16),
                    ),
                )
                &&& machine_unchanged(*old(self), *final(self))
            },
            old(self).i_register + x + 1 <= MEMORY_END ==> {
                &&& r == Ok::<TickFlow, TickError>(TickFlow::Advance)
                &&& only_memory_and_i_changed(*old(self), *final(self))
                &&& final(self).i_register == old(self).i_register + x + 1
                &&& final(self).memory@.len() == old(self).memory@.len()
                &&& forall|k: int|
                    0 <= k <= x ==> final(self).memory@[old(self).i_register + k]
                        == old(self).registers@[k]
                &&& forall|a: int|
                    0 <= a < old(self).memory@.len() && !(old(self).i_register <= a <= old(
                        self,
                    ).i_register + x) ==> final(self).memory@[a] == old(self).memory@[a]
            },
    {
        if x as u16 > MEMORY_END - 1 || self.i_register > MEMORY_END - 1 - x as u16 {
            return Err(
                TickError::MemoryError(
                    memory::Error::RangeOutOfBound(self.i_register, x as u16 + 1),
                ),
            );
        }
        let i = self.i_register;
        let mut k: u8 = 0;
        while k <= x
            invariant
                x < REGISTER_COUNT,
                k <= x + 1,
                i == old(self).i_register,
                i + x + 1 <= MEMORY_END,
                same_registers(*old(self), *self),
                same_i_register(*old(self), *self),
                same_ip_register(*old(self), *self),
                same_delay_timer(*old(self), *self),
                same_sound_timer(*old(self), *self),
                same_call_stack(*old(self), *self),
                same_screen(*old(self), *self),
                same_keypad(*old(self), *self),
                self.memory@.len() == old(self).memory@.len(),
                forall|j: int| 0 <= j < k ==> self.memory@[i + j] == old(self).registers@[j],
                forall|a: int|
                    0 <= a < old(self).memory@.len() && !(i <= a < i + k) ==> self.memory@[a]
                        == old(self).memory@[a],
            decreases x + 1 - k,
        {
            let value = self.register(k);
            let _ = self.memory.set(i + k as u16, value);
            k = k + 1;
        }
        self.i_register = i + x as u16 + 1;
        Ok(TickFlow::Advance)
    }

    /// FX65: fill registers V0 through VX inclusive from memory starting at
    /// the index register, which is left pointing one past the last address
    /// read. Fails, leaving the machine unchanged, when the addresses do not
    /// fit below the end of memory.
    pub fn load_registers(&mut self, x: Register) -> (r: TickResult)
        requires
            x < REGISTER_COUNT,
        ensures
            old(self).i_register + x + 1 > MEMORY_END ==> {
                &&& r == Err::<TickFlow, TickError>(
                    TickError::MemoryError(
                        memory::Error::RangeOutOfBound(old(self).i_register, (x + 1) as u16),
                    ),
                )
                &&& machine_unchanged(*old(self), *final(self))
            },
            old(self).i_register + x + 1 <= MEMORY_END ==> {
                &&& r == Ok::<TickFlow, TickError>(TickFlow::Advance)
                &&& only_registers_and_i_changed(*old(self), *final(self))
                &&& final(self).i_register == old(self).i_register + x + 1
                &&& final(self).registers@.len() == REGISTER_COUNT
                &&& forall|k: int|
                    0 <= k <= x ==> final(self).registers@[k] == old(self).memory@[old(
                        self,
                    ).i_register + k]
                &&& forall|k: int|
                    x < k < REGISTER_COUNT ==> final(self).registers@[k] == old(
                        self,
                    ).registers@[k]
            },
    {
        if x as u16 > MEMORY_END - 1 || self.i_register > MEMORY_END - 1 - x as u16 {
            return Err(
                TickError::MemoryError(
                    memory::Error::RangeOutOfBound(self.i_register, x as u16 + 1),
                ),
            );
        }
        let i = self.i_register;
        let mut k: u8 = 0;
        while k <= x
            invariant
                x < REGISTER_COUNT,
                k <= x + 1,
                i == old(self).i_register,
                i + x + 1 <= MEMORY_END,
                same_i_register(*old(self), *self),
                same_ip_register(*old(self), *self),
                same_memory(*old(self), *self),
                same_delay_timer(*old(self), *self),
                same_sound_timer(*old(self), *self),
                same_call_stack(*old(self), *self),
                same_screen(*old(self), *self),
                same_keypad(*old(self), *self),
                self.registers@.len() == REGISTER_COUNT,
                forall|j: int| 0 <= j < k ==> self.registers@[j] == old(self).memory@[i + j],
                forall|j: int| k <= j < REGISTER_COUNT ==> self.registers@[j] == old(
                    self,
                ).registers@[j],
            decreases x + 1 - k,
        {
            let value = match self.memory.get(i + k as u16) {
                Ok(v) => v,
                Err(_) => 0,
            };
            self.set_register(k, value);
            k = k + 1;
        }
        self.i_register = i + x as u16 + 1;
        Ok(TickFlow::Advance)
    }

    /// Fetch and decode the instruction at the program counter, without
    /// executing it; fails when the word is not readable or the bit pattern
    /// is unknown.
    pub fn current_instruction(&self) -> (r: Result<Instruction, TickError>)
        ensures
            self.ip_register >= MEMORY_END ==> r == Err::<Instruction, TickError>(
                TickError::MemoryError(memory::Error::OutOfBound(self.ip_register)),
            ),
            self.ip_register + 1 == MEMORY_END ==> r == Err::<Instruction, TickError>(
                TickError::MemoryError(memory::Error::OutOfBound((self.ip_register + 1) as u16)),
            ),
            fetch_readable(*self) ==> match spec_fetch(*self) {
                Some(instruction) => r == Ok::<Instruction, TickError>(instruction)
                    && wf_instruction(instruction),
                None => r == Err::<Instruction, TickError>(TickError::Unknown),
            },
    {
        let nibbles = match self.memory.nibbles_at(self.ip_register) {
            Ok(n) => n,
            Err(e) => {
                return Err(TickError::MemoryError(e));
            },
        };
        match Instruction::decode(nibbles) {
            Some(instruction) => Ok(instruction),
            None => Err(TickError::Unknown),
        }
    }

    /// Execute one already-decoded instruction, dispatching to its handler.
    fn execute(&mut self, instruction: Instruction) -> (r: TickResult)
        requires
            wf_instruction(instruction),
            old(self).ip_register + INSTRUCTION_SIZE <= u16::MAX,
        ensures
            instr_rel(*old(self), *final(self), instruction, r),
    {
        match instruction {
            Instruction::ClearScreen => self.clear_screen(),
            Instruction::ReturnFromSubroutine => self.return_from_subroutine(),
            Instruction::JumpToMachineCode(address) => self.jump_to_machine_code(address),
            Instruction::JumpTo(address) => self.jump_to(address),
            Instruction::ExecuteSubroutine(address) => self.execute_subroutine(address),
            Instruction::SkipEqTo(x, value) => self.skip_eq_to(x, value),
            Instruction::SkipNeqTo(x, value) => self.skip_neq_to(x, value),
            Instruction::SkipEq(x, y) => self.skip_eq(x, y),
            Instruction::StoreValue(x, value) => self.store_value(x, value),
            Instruction::AddValue(x, value) => self.add_value(x, value),
            Instruction::StoreRegister(x, y) => self.store_register(x, y),
            Instruction::Or(x, y) => self.or(x, y),
            Instruction::And(x, y) => self.and(x, y),
            Instruction::Xor(x, y) => self.xor(x, y),
            Instruction::AddRegister(x, y) => self.add_register(x, y),
            Instruction::SubRegister(x, y) => self.sub_register(x, y),
            Instruction::ShiftRight(x, y) => self.shift_right(x, y),
            Instruction::SubRegisterReverse(x, y) => self.sub_register_reverse(x, y),
            Instruction::ShiftLeft(x, y) => self.shift_left(x, y),
            Instruction::SkipNeq(x, y) => self.skip_neq(x, y),
            Instruction::StoreAddr(address) => self.store_addr(address),
            Instruction::JumpToOffset(reference) => self.jump_to_offset(reference),
            Instruction::StoreRandom(x, mask) => self.store_random(x, mask),
            Instruction::DrawSprite(x, y, line_count) => self.draw_sprite(x, y, line_count),
            Instruction::SkipIfKeyPressed(x) => self.skip_if_key_pressed(x),
            Instruction::SkipIfKeyNotPressed(x) => self.skip_if_key_not_pressed(x),
            Instruction::StoreDelayTimer(x) => self.store_delay_timer(x),
            Instruction::WaitForKeypress(x) => self.wait_for_keypress(x),
            Instruction::SetDelayTimer(x) => self.set_delay_timer(x),
            Instruction::SetSoundTimer(x) => self.set_sound_timer(x),
            Instruction::AddToI(x) => self.add_to_i(x),
            Instruction::StoreDigitLocation(x) => self.store_digit_location(x),
            Instruction::StoreBinaryCoded(x) => self.store_binary_coded(x),
            Instruction::StoreRegisters(x) => self.store_registers(x),
            Instruction::LoadRegisters(x) => self.load_registers(x),
        }
    }

    /// Run the instruction at the program counter without applying the
    /// returned flow directive to it. A failed tick leaves the machine
    /// exactly as it was.
    pub fn tick(&mut self) -> (r: TickResult)
        ensures
            tick_rel(*old(self), *final(self), r),
    {
        let instruction = match self.current_instruction() {
            Ok(instruction) => instruction,
            Err(e) => {
                return Err(e);
            },
        };
        let r = self.execute(instruction);
        proof {
            lemma_instr_rel_frame(*old(self), *self, instruction, r);
        }
        r
    }

    /// One driver step: a tick, then the flow directive applied to the
    /// program counter. Reports `Wait` without moving the program counter
    /// when the machine stalls on a keypress.
    pub fn step(&mut self) -> (r: RunResult)
        ensures
            step_rel(*old(self), *final(self), r),
    {
        let flow = match self.tick() {
            Ok(flow) => flow,
            Err(e) => {
                return Err(e);
            },
        };
        let ghost mid = *self;
        match flow {
            TickFlow::Advance => {
                self.ip_register = self.ip_register + INSTRUCTION_SIZE;
                proof {
                    assert(mid == Machine { ip_register: old(self).ip_register, ..*self });
                }
                Ok(RunFlow::Continue)
            },
            TickFlow::Skip => {
                self.ip_register = self.ip_register + 2 * INSTRUCTION_SIZE;
                proof {
                    assert(mid == Machine { ip_register: old(self).ip_register, ..*self });
                }
                Ok(RunFlow::Continue)
            },
            TickFlow::GoTo(addr) => {
                self.ip_register = addr;
                proof {
                    assert(mid == Machine { ip_register: old(self).ip_register, ..*self });
                    assert(tick_rel(*old(self), mid, Ok(TickFlow::GoTo(addr))));
                }
                Ok(RunFlow::Continue)
            },
            TickFlow::Wait => Ok(RunFlow::Wait),
        }
    }

    /// One frame's worth of execution: up to `TICKS_PER_FRAME` steps,
    /// stopping early when the machine stalls on a keypress or an
    /// instruction fails.
    pub fn run(&mut self) -> (r: RunResult)
        ensures
            r == Ok::<RunFlow, TickError>(RunFlow::Continue) ==> steps_chain(
                *old(self),
                *final(self),
                TICKS_PER_FRAME as nat,
            ),
            r == Ok::<RunFlow, TickError>(RunFlow::Wait) ==> exists|k: nat, mid: Machine|
                k < TICKS_PER_FRAME && steps_chain(*old(self), mid, k) && step_rel(
                    mid,
                    *final(self),
                    Ok(RunFlow::Wait),
                ),
            r matches Err(e) ==> exists|k: nat, mid: Machine|
                k < TICKS_PER_FRAME && steps_chain(*old(self), mid, k) && step_rel(
                    mid,
                    *final(self),
                    Err(e),
                ),
    {
        let mut n: usize = 0;
        while n < TICKS_PER_FRAME
            invariant
                n <= TICKS_PER_FRAME,
                steps_chain(*old(self), *self, n as nat),
            decreases TICKS_PER_FRAME - n,
        {
            let ghost before = *self;
            match self.step() {
                Ok(RunFlow::Continue) => {},
                Ok(RunFlow::Wait) => {
                    proof {
                        assert(steps_chain(*old(self), before, n as nat));
                    }
                    return Ok(RunFlow::Wait);
                },
                Err(e) => {
                    proof {
                        assert(steps_chain(*old(self), before, n as nat));
                    }
                    return Err(e);
                },
            }
            proof {
                assert(steps_chain(*old(self), before, n as nat) && step_rel(
                    before,
                    *self,
                    Ok(RunFlow::Continue),
                ));
                assert(steps_chain(*old(self), *self, (n + 1) as nat));
            }
            n = n + 1;
        }
        Ok(RunFlow::Continue)
    }
}

} // verus!
