use vstd::prelude::*;
use crate::fault::Fault;
use crate::memory_mapper::MemoryMapper;

verus! {

/// A processor that is driven one tick at a time and reaches its memory
/// through a `MemoryMapper` that the caller hands in.
pub trait BaseCpu {
    /// Whether the processor is in a state that its own operations lead to.
    spec fn ready(&self) -> bool;

    /// Runs the processor for one tick. A fault of the running program ends
    /// the session: after it the processor is not to be run on.
    fn execute_tick<M: MemoryMapper>(&mut self, memory: &mut M) -> (r: Result<(), Fault>)
        requires
            old(self).ready(),
            old(memory).wf(),
        ensures
            final(memory).wf(),
            r.is_ok() ==> final(self).ready(),
    ;

    /// Puts the processor into the state in which a program starts.
    fn reset<M: MemoryMapper>(&mut self, memory: &mut M)
        requires
            old(self).ready(),
            old(memory).wf(),
        ensures
            final(memory).wf(),
            final(self).ready(),
    ;
}

} // verus!
