use vstd::prelude::*;

verus! {

/// Conditions that stop the machine. Each one is told apart from the others.
#[derive(Clone, Copy, Debug, PartialEq, Eq, Structural)]
pub enum Fault {
    /// The program image does not fit between `0x200` and the end of memory.
    RomTooLarge,
    /// A call was made with sixteen return addresses already on the stack.
    StackOverflow,
    /// A return was made with no return address on the stack.
    StackUnderflow,
    /// A memory access or key index fell outside its range.
    OutOfBounds,
}

} // verus!
