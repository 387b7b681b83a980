use vstd::prelude::*;
use crate::fault::Fault;

verus! {

/// A named block of bytes that is read and written by 16-bit location.
///
/// An implementation says, through the spec functions, which stored byte a
/// location is served from and which locations take a write; the methods are
/// held to that description.
pub trait BaseMemory {
    /// The bytes held, in storage order.
    spec fn contents(&self) -> Seq<u8>;

    /// The name the block was given.
    spec fn label(&self) -> Seq<char>;

    /// The index into `contents` that a read of `location` is served from.
    spec fn read_index(&self, location: u16) -> int;

    /// Whether a write to `location` is taken.
    spec fn takes_write(&self, location: u16) -> bool;

    /// The index into `contents` that a taken write to `location` lands on.
    spec fn write_index(&self, location: u16) -> int;

    /// Whether `location` is served from a byte that exists.
    open spec fn holds(&self, location: u16) -> bool {
        0 <= self.read_index(location) < self.contents().len()
    }

    /// Replaces the whole contents with a copy of `data`.
    fn load_data(&mut self, data: &[u8])
        ensures
            final(self).contents() == data@,
            final(self).label() == old(self).label(),
    ;

    /// The byte at `location`.
    fn read(&self, location: u16) -> (byte: u8)
        requires
            self.holds(location),
        ensures
            byte == self.contents()[self.read_index(location)],
    ;

    /// Stores `byte` at `location` if the block takes writes there, and
    /// reports `Fault::RomWrite`, changing nothing, if it does not.
    fn write(&mut self, location: u16, byte: u8) -> (r: Result<(), Fault>)
        requires
            old(self).takes_write(location) ==> 0 <= old(self).write_index(location) < old(
                self,
            ).contents().len(),
        ensures
            r.is_ok() <==> old(self).takes_write(location),
            r.is_ok() ==> final(self).contents() == old(self).contents().update(
                old(self).write_index(location),
                byte,
            ),
            r.is_err() ==> r == Err::<(), Fault>(Fault::RomWrite) && final(self).contents() == old(
                self,
            ).contents(),
            final(self).label() == old(self).label(),
    ;

    /// The block's name.
    fn get_name(&self) -> (name: String)
        ensures
            name@ == self.label(),
    ;

    /// Whether `location` lies inside the block.
    fn check_location(&self, location: u16) -> (inside: bool)
        ensures
            inside == self.holds(location),
    ;
}

} // verus!
