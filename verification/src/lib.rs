//! An interpreter core for a 16/32-bit CISC instruction set: eight 32-bit
//! data registers, eight 32-bit address registers (the last doubling as the
//! stack pointer), a program counter, and a status word of arithmetic flags.
//! Instruction words are fetched big-endian from a loaded program image and
//! executed against a byte-addressable memory model.
//!
//! The crate separates the mathematical description of the machine (spec
//! functions over a ghost machine state) from the executable interpreter,
//! and proves that every step of the interpreter follows the description.

pub mod ea;
pub mod flags;
pub mod instr;
pub mod laws;
pub mod machine;
pub mod mem;

pub use machine::M68k;
pub use mem::Mem;
pub use mem::MEM_LEN;
