use vstd::prelude::*;
use crate::fault::Fault;

verus! {

/// Read-only memory: whatever else a block does, as a ROM it refuses every
/// write.
pub trait MemoryRom: Sized {
    /// Refuses the write: the result is `Fault::RomWrite` and nothing is
    /// changed.
    fn write_rom(&mut self, _location: u16, _byte: u8) -> (r: Result<(), Fault>)
        ensures
            r == Err::<(), Fault>(Fault::RomWrite),
            *final(self) == *old(self),
    {
        Err(Fault::RomWrite)
    }
}

} // verus!
