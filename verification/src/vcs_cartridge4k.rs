use vstd::prelude::*;
use vstd::slice::slice_to_vec;
use crate::base_memory::BaseMemory;
use crate::bits::lemma_mask_bound_u16;
use crate::fault::Fault;
use crate::memory_rom::MemoryRom;
use crate::vcs_cartridge::VcsCartridge;

verus! {

/// A cartridge of 4096 bytes, read through the low bits of the address.
/// With a SuperChip, writes to its first 128 locations land in on-cart RAM,
/// which is read back at the 128 locations after them.
pub struct VcsCartridge4k {
    pub memory: Vec<u8>,
    pub name: String,
    pub has_super_chip: bool,
}

impl BaseMemory for VcsCartridge4k {
    open spec fn contents(&self) -> Seq<u8> {
        self.memory@
    }

    open spec fn label(&self) -> Seq<char> {
        "ROM cartridge"@
    }

    open spec fn read_index(&self, location: u16) -> int {
        (location & 0xFFF) as int
    }

    open spec fn takes_write(&self, location: u16) -> bool {
        self.has_super_chip && location < 0x80
    }

    open spec fn write_index(&self, location: u16) -> int {
        location + 0x80
    }

    fn load_data(&mut self, data: &[u8])
        ensures
            final(self).has_super_chip == old(self).has_super_chip,
            final(self).name == old(self).name,
    {
        self.memory = slice_to_vec(data);
    }

    fn read(&self, location: u16) -> (byte: u8) {
        self.read_offset(location & 0xFFF, 0)
    }

    fn write(&mut self, location: u16, byte: u8) -> (r: Result<(), Fault>)
        ensures
            final(self).has_super_chip == old(self).has_super_chip,
            final(self).name == old(self).name,
    {
        if self.has_super_chip && location < 0x80 {
            self.memory[location as usize + 0x80] = byte;
            Ok(())
        } else {
            Err(Fault::RomWrite)
        }
    }

    fn get_name(&self) -> (name: String) {
        "ROM cartridge".to_owned()
    }

    fn check_location(&self, location: u16) -> (inside: bool) {
        ((location & 0xFFF) as usize) < self.memory.len()
    }
}

impl MemoryRom for VcsCartridge4k {

}

impl VcsCartridge for VcsCartridge4k {
    open spec fn bank_index(&self, location: u16, memory_offset: u16) -> int {
        if location < 0x100 && self.has_super_chip {
            location as int
        } else {
            location + memory_offset
        }
    }

    fn read_a13(&self, location: u16, _a13set: bool) -> (byte: u8) {
        self.read(location)
    }

    fn read_offset(&self, location: u16, memory_offset: u16) -> (byte: u8) {
        let mut offset: usize = memory_offset as usize;
        if location < 0x100 && self.has_super_chip {
            offset = 0;
        }
        self.memory[location as usize + offset]
    }
}

/// A cartridge of at least 4096 bytes serves every location.
pub proof fn lemma_full_image_serves_all_4k(cartridge: &VcsCartridge4k, location: u16)
    requires
        cartridge.memory@.len() >= 4096,
    ensures
        cartridge.holds(location),
{
    lemma_mask_bound_u16(location, 0xFFF);
}

} // verus!
