use vstd::prelude::*;

verus! {

/// A condition that ends an emulation session: the running program did
/// something the machine cannot carry out.
#[derive(Debug, PartialEq, Eq, Clone, Copy, Structural)]
pub enum Fault {
    /// The byte fetched as an opcode has no handler.
    UnimplementedOpcode { opcode: u8 },
    /// A push found the stack pointer at zero.
    StackOverflow,
    /// A pull found the stack pointer at its top, 0xFF.
    StackUnderflow,
    /// A write went to cartridge ROM outside an on-cart RAM window.
    RomWrite,
    /// A cartridge image is shorter than the window it is read through.
    OutOfBounds,
}

} // verus!
