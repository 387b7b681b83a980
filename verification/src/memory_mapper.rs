use vstd::prelude::*;
use crate::fault::Fault;

verus! {

/// The memory as the processor sees it: 65536 locations that are read and
/// written a byte at a time.
///
/// A read may change the memory (a port that takes note of being read), and
/// a write may be refused (ROM). An implementation says what its reads and
/// writes do as functions of a model of its own choosing, and its methods
/// are held to that. What is proved of the processor is proved over these
/// functions, for every implementation.
pub trait MemoryMapper {
    /// The mathematical model of the memory's state.
    type Model;

    /// The model of this memory.
    spec fn model(&self) -> Self::Model;

    /// Whether the memory is in a state that its own operations lead to.
    spec fn wf(&self) -> bool;

    /// The byte that a read of `location` gives.
    spec fn peek(m: Self::Model, location: u16) -> u8;

    /// The memory after a read of `location`.
    spec fn after_read(m: Self::Model, location: u16) -> Self::Model;

    /// Whether a write to `location` is taken.
    spec fn takes_write(m: Self::Model, location: u16) -> bool;

    /// The memory after a write to `location` that was taken.
    spec fn after_write(m: Self::Model, location: u16, byte: u8) -> Self::Model;

    /// Reads the byte at `location`.
    fn cpu_read(&mut self, location: u16) -> (byte: u8)
        requires
            old(self).wf(),
        ensures
            final(self).wf(),
            byte == Self::peek(old(self).model(), location),
            final(self).model() == Self::after_read(old(self).model(), location),
    ;

    /// Writes `byte` to `location`, or reports `Fault::RomWrite`, changing
    /// nothing, where the memory takes no write.
    fn cpu_write(&mut self, location: u16, byte: u8) -> (r: Result<(), Fault>)
        requires
            old(self).wf(),
        ensures
            final(self).wf(),
            r.is_ok() <==> Self::takes_write(old(self).model(), location),
            r.is_ok() ==> final(self).model() == Self::after_write(
                old(self).model(),
                location,
                byte,
            ),
            r.is_err() ==> r == Err::<(), Fault>(Fault::RomWrite) && final(self).model() == old(
                self,
            ).model(),
    ;
}

} // verus!
