use vstd::prelude::*;

verus! {

/// The ways in which interpretation can fail. Every fault is final: the
/// machine that reported it is left exactly as it was before the call.
#[derive(Clone, Copy, Debug, PartialEq, Eq, Structural)]
pub enum Fault {
    /// The fetched word matches no instruction pattern. Carries the word and
    /// the address it was fetched from.
    UnknownOpcode { opcode: u16, pc: u16 },
    /// A return with an empty call stack.
    StackUnderflow,
    /// A call with a full call stack.
    StackOverflow,
    /// A program image that does not fit between the entry address and the
    /// end of memory.
    RomTooLarge,
    /// A program counter or a memory address outside the 4 KiB address space.
    AddressOutOfRange,
}

} // verus!
