use vstd::prelude::*;

verus! {

/// A fatal condition. The instruction that meets one is not carried out:
/// the machine and the display stay exactly as they were, and the run ends.
#[derive(Clone, Copy, Debug, PartialEq, Eq, Structural)]
pub enum Fault {
    /// A return was executed while the call stack was empty.
    StackUnderflow,
    /// `8xy7` would have produced a negative difference.
    ArithmeticUnderflow,
    /// An address left memory, or the program counter or the index register
    /// left the sixteen bits they are held in.
    OutOfBounds,
    /// `Ex9E` or `ExA1` asked for a key the keyboard has never heard of.
    UnknownKey,
}

/// What one step of the interpreter did when it did not fault.
#[derive(Clone, Copy, Debug, PartialEq, Eq, Structural)]
pub enum Status {
    /// An instruction was decoded and carried out.
    Executed,
    /// The opcode matched no instruction; only the program counter moved.
    Unknown,
    /// The machine is waiting for a key; nothing was fetched.
    Waiting,
}

} // verus!
