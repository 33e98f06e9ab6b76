//! What a load or a step reports back to the host.

use vstd::prelude::*;

verus! {

/// Why a step could not carry out its instruction. None of these is fatal:
/// the machine stays usable and the host decides how to go on.
#[derive(Clone, Copy, Debug, PartialEq, Eq, Structural)]
pub enum Fault {
    /// A call was attempted with all sixteen stack slots in use.
    StackOverflow,
    /// A return was attempted with an empty call stack.
    StackUnderflow,
    /// The instruction word, carried here, names no instruction.
    UnknownOpcode(u16),
}

/// Result of one step of the machine.
#[derive(Clone, Copy, Debug, PartialEq, Eq, Structural)]
pub enum StepOutcome {
    /// The instruction was carried out.
    Completed,
    /// The instruction could not be carried out.
    Fault(Fault),
    /// A key-wait instruction found no key held down; the program counter stays on it.
    WaitingForKey,
}

/// Why a program image was refused.
#[derive(Clone, Copy, Debug, PartialEq, Eq, Structural)]
pub enum LoadError {
    /// The image does not fit between the program start and the end of memory.
    RomTooLarge,
}

/// Phase of the machine's life.
#[derive(Clone, Copy, Debug, PartialEq, Eq, Structural)]
pub enum VmState {
    /// Constructed, nothing loaded yet.
    Uninitialized,
    /// A program was loaded and no step was taken since.
    Loaded,
    /// The last step carried out, or faulted on, an instruction.
    Running,
    /// The last step found a key-wait instruction with no key held down.
    WaitingForKey,
}

} // verus!
