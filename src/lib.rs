// Interpreter for the CHIP-8 instruction set: state containers, decoding, execution.
pub mod chip;
pub mod fault;
pub mod keypad;
pub mod memory;
pub mod random;
pub mod registers;
pub mod semantics;
pub mod stack;
pub mod theorems;
pub mod video;
