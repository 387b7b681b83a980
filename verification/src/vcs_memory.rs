use vstd::prelude::*;
use crate::bits::lemma_mask_bound_u16;
use crate::fault::Fault;
use crate::memory_mapper::MemoryMapper;
use crate::vcs_cartridge::{Cartridge, CartridgeState, VcsCartridgeDetector, runs_as_4k};
use crate::vcs_parameters::VcsParameters;
use crate::vcs_riot::{RiotState, VcsRiot};
use crate::vcs_tia::VcsTia;
use crate::vcs_tia_model::TiaState;

verus! {

/// The four things that an address can select.
#[derive(Debug, PartialEq, Eq, Clone, Copy, Structural)]
pub enum Region {
    /// The television interface adapter.
    Tia,
    /// The 128 bytes of working RAM.
    Ram,
    /// The I/O block: ports and timer.
    Io,
    /// The cartridge.
    Cartridge,
}

/// What an address selects. Only address lines 12, 9 and 7 decide; the top
/// three lines do not reach the bus.
pub open spec fn region_of(location: u16) -> Region {
    if location & 0x1080 == 0 {
        Region::Tia
    } else if location & 0x1280 == 0x0080 {
        Region::Ram
    } else if location & 0x1280 == 0x0280 {
        Region::Io
    } else {
        Region::Cartridge
    }
}

/// The port that a read of the adapter at `location` reaches.
pub open spec fn tia_read_port(location: u16) -> u16 {
    ((location & 0x0F) + 0x30) as u16
}

/// The register that a write to the adapter at `location` reaches.
pub open spec fn tia_write_port(location: u16) -> u16 {
    let low = location & 0xFF;
    if low >= 0x40 {
        (low - 0x40) as u16
    } else {
        low
    }
}

/// The byte of working RAM at `location`.
pub open spec fn ram_index(location: u16) -> u16 {
    location & 0x7F
}

/// The register of the I/O block at `location`. The two mirrors of the
/// timer at 6 and 7 are the timer registers at 4 and 5.
pub open spec fn io_register(location: u16) -> u16 {
    let low = location & 0x1F;
    if low == 0x06 || low == 0x07 {
        (low - 2) as u16
    } else {
        low
    }
}

/// The location within the cartridge's window.
pub open spec fn cartridge_location(location: u16) -> u16 {
    ((location & 0x1FFF) - 0x1000) as u16
}

/// Every address selects one of the four regions: an address that selects
/// none of the first three has line 12 high, and so selects the cartridge.
pub proof fn lemma_decode_is_total(location: u16)
    ensures
        region_of(location) == Region::Cartridge <==> location & 0x1000 == 0x1000,
        region_of(location) == Region::Cartridge ==> 0x1000 <= location & 0x1FFF <= 0x1FFF,
        region_of(location) == Region::Tia ==> location & 0xFF < 0x80,
{
    assert((location & 0x1080 != 0 && location & 0x1280 != 0x0080 && location & 0x1280 != 0x0280)
        <==> location & 0x1000 == 0x1000) by (bit_vector);
    assert(location & 0x1000 == 0x1000 ==> 0x1000 <= location & 0x1FFF <= 0x1FFF)
        by (bit_vector);
    assert(location & 0x1080 == 0 ==> location & 0xFF < 0x80) by (bit_vector);
}

/// The state of everything that the processor reaches by address.
pub struct MemoryState {
    pub tia: TiaState,
    pub riot: RiotState,
    pub cartridge: CartridgeState,
}

impl MemoryState {
    pub open spec fn wf(self) -> bool {
        self.tia.wf() && self.riot.wf() && self.cartridge.wf()
    }

    /// What a read of `location` gives.
    pub open spec fn read(self, location: u16) -> u8 {
        match region_of(location) {
            Region::Tia => self.tia.read(tia_read_port(location)),
            Region::Ram => self.riot.read_ram(ram_index(location)),
            Region::Io => self.riot.read(io_register(location)),
            Region::Cartridge => self.cartridge.read(cartridge_location(location)),
        }
    }

    /// The state after a read of `location`: only a read of the I/O block
    /// leaves a trace.
    pub open spec fn after_read(self, location: u16) -> MemoryState {
        match region_of(location) {
            Region::Io => MemoryState { riot: self.riot.after_read(io_register(location)), ..self },
            _ => self,
        }
    }

    /// Whether a write to `location` is taken: the cartridge takes one only
    /// into on-cart RAM.
    pub open spec fn takes_write(self, location: u16) -> bool {
        region_of(location) == Region::Cartridge ==> self.cartridge.takes_write(
            cartridge_location(location),
        )
    }

    /// The state after a write to `location` that was taken.
    pub open spec fn after_write(self, location: u16, byte: u8) -> MemoryState {
        match region_of(location) {
            Region::Tia => MemoryState {
                tia: self.tia.write(tia_write_port(location), byte),
                ..self
            },
            Region::Ram => MemoryState {
                riot: self.riot.write_ram(ram_index(location), byte),
                ..self
            },
            Region::Io => MemoryState {
                riot: self.riot.write(io_register(location), byte),
                ..self
            },
            Region::Cartridge => MemoryState {
                cartridge: self.cartridge.write(cartridge_location(location), byte),
                ..self
            },
        }
    }
}

/// The memory of the console: the adapter, the RAM and I/O chip and the
/// cartridge, each at the addresses that select it.
pub struct VcsMemory {
    pub vcs_tia: VcsTia,
    pub vcs_riot: VcsRiot,
    pub vcs_cartridge: Cartridge,
}

impl View for VcsMemory {
    type V = MemoryState;

    open spec fn view(&self) -> MemoryState {
        MemoryState { tia: self.vcs_tia@, riot: self.vcs_riot@, cartridge: self.vcs_cartridge@ }
    }
}

impl VcsMemory {
    /// The memory of a console with the cartridge that `vcs_parameters`
    /// holds in its slot. An image that does not fill the window it is read
    /// through is refused with `Fault::OutOfBounds`.
    pub fn new(vcs_parameters: &VcsParameters, tia: VcsTia, riot: VcsRiot) -> (r: Result<
        VcsMemory,
        Fault,
    >)
        requires
            tia.wf(),
            riot.wf(),
        ensures
            r.is_ok() <==> vcs_parameters.cart_data@.len() >= if runs_as_4k(
                vcs_parameters.cart_data@,
            ) {
                4096int
            } else {
                2048int
            },
            r matches Err(fault) ==> fault == Fault::OutOfBounds,
            r matches Ok(memory) ==> memory.wf() && memory@ == (MemoryState {
                tia: tia@,
                riot: riot@,
                cartridge: CartridgeState {
                    contents: vcs_parameters.cart_data@,
                    is_4k: runs_as_4k(vcs_parameters.cart_data@),
                    has_super_chip: vcs_parameters.has_super_chip,
                },
            }),
    {
        let vcs_cartridge = VcsCartridgeDetector::detect_cartridge(vcs_parameters);
        if !vcs_cartridge.fills_window() {
            return Err(Fault::OutOfBounds);
        }
        Ok(VcsMemory { vcs_tia: tia, vcs_riot: riot, vcs_cartridge })
    }
}

impl MemoryMapper for VcsMemory {
    type Model = MemoryState;

    open spec fn model(&self) -> MemoryState {
        self@
    }

    open spec fn wf(&self) -> bool {
        self.vcs_tia.wf() && self.vcs_riot.wf() && self.vcs_cartridge@.wf()
    }

    open spec fn peek(m: MemoryState, location: u16) -> u8 {
        m.read(location)
    }

    open spec fn after_read(m: MemoryState, location: u16) -> MemoryState {
        m.after_read(location)
    }

    open spec fn takes_write(m: MemoryState, location: u16) -> bool {
        m.takes_write(location)
    }

    open spec fn after_write(m: MemoryState, location: u16, byte: u8) -> MemoryState {
        m.after_write(location, byte)
    }

    fn cpu_read(&mut self, location: u16) -> (byte: u8) {
        let result: u8;
        proof {
            lemma_decode_is_total(location);
            lemma_mask_bound_u16(location, 0x0F);
            lemma_mask_bound_u16(location, 0x7F);
            lemma_mask_bound_u16(location, 0x1F);
        }
        if location & 0x1080 == 0 {
            result = self.vcs_tia.read((location & 0x0F) + 0x30);
        } else if location & 0x1280 == 0x0080 {
            result = self.vcs_riot.read_ram(location & 0x7F);
        } else if location & 0x1280 == 0x0280 {
            let mut register: u16 = location & 0x1F;
            if register == 0x06 || register == 0x07 {
                register -= 2;
            }
            result = self.vcs_riot.read(register);
        } else {
            let window: u16 = (location & 0x1FFF) - 0x1000;
            result = self.vcs_cartridge.read_a13(window, false);
        }
        result
    }

    fn cpu_write(&mut self, location: u16, byte: u8) -> (r: Result<(), Fault>) {
        proof {
            lemma_decode_is_total(location);
            lemma_mask_bound_u16(location, 0xFF);
            lemma_mask_bound_u16(location, 0x7F);
            lemma_mask_bound_u16(location, 0x1F);
        }
        if location & 0x1080 == 0 {
            let mut register: u16 = location & 0xFF;
            if register >= 0x40 {
                register -= 0x40;
            }
            self.vcs_tia.write(register, byte);
            Ok(())
        } else if location & 0x1280 == 0x0080 {
            self.vcs_riot.write_ram(location & 0x7F, byte);
            Ok(())
        } else if location & 0x1280 == 0x0280 {
            let mut register: u16 = location & 0x1F;
            if register == 0x06 || register == 0x07 {
                register -= 2;
            }
            self.vcs_riot.write(register, byte);
            Ok(())
        } else {
            let window: u16 = (location & 0x1FFF) - 0x1000;
            self.vcs_cartridge.write(window, byte)
        }
    }
}

} // verus!
