use vstd::prelude::*;
use vstd::slice::slice_to_vec;
use crate::base_memory::BaseMemory;
use crate::fault::Fault;

verus! {

/// Read-write memory: every location below its length can be read and
/// written, and a read gives back what was last written there.
pub struct MemoryRam {
    memory: Vec<u8>,
    name: String,
}

impl MemoryRam {
    /// A block of `size` zero bytes called `_name`.
    pub fn new(_name: String, size: u16) -> (ram: MemoryRam)
        ensures
            ram.contents().len() == size,
            forall|i: int| 0 <= i < size ==> ram.contents()[i] == 0,
            ram.label() == _name@,
    {
        MemoryRam { memory: vec![0u8; size as usize], name: _name }
    }

    /// The number of bytes held.
    pub fn size(&self) -> (n: usize)
        ensures
            n == self.contents().len(),
    {
        self.memory.len()
    }
}

impl BaseMemory for MemoryRam {
    closed spec fn contents(&self) -> Seq<u8> {
        self.memory@
    }

    closed spec fn label(&self) -> Seq<char> {
        self.name@
    }

    open spec fn read_index(&self, location: u16) -> int {
        location as int
    }

    open spec fn takes_write(&self, location: u16) -> bool {
        true
    }

    open spec fn write_index(&self, location: u16) -> int {
        location as int
    }

    fn load_data(&mut self, data: &[u8]) {
        self.memory = slice_to_vec(data);
    }

    fn read(&self, location: u16) -> (byte: u8) {
        self.memory[location as usize]
    }

    fn write(&mut self, location: u16, byte: u8) -> (r: Result<(), Fault>) {
        self.memory[location as usize] = byte;
        Ok(())
    }

    fn get_name(&self) -> (name: String) {
        self.name.clone()
    }

    fn check_location(&self, location: u16) -> (inside: bool) {
        (location as usize) < self.memory.len()
    }
}

} // verus!
