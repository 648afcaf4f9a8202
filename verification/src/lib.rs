//! A verified interpreter core for the CHIP-8 virtual machine: memory, call
//! stack, keypad, screen, instruction decoding and the fetch-decode-execute
//! cycle, with contracts for the exact bit-level semantics of each opcode.

pub mod call_stack;
pub mod instruction;
pub mod keypad;
pub mod machine;
pub mod memory;
pub mod screen;

pub use call_stack::CallStack;
pub use instruction::dissassemble;
pub use instruction::Instruction;
pub use instruction::Register;
pub use keypad::Key;
pub use keypad::Keypad;
pub use machine::Machine;
pub use machine::RunFlow;
pub use machine::RunResult;
pub use machine::TickError;
pub use machine::TickFlow;
pub use machine::TickResult;
pub use memory::Address;
pub use memory::Memory;
pub use screen::Screen;
