use vstd::prelude::*;
use crate::vcs_console_type::ConsoleType;

verus! {

/// What a console is built from: the cartridge image and the choices that
/// go with it.
pub struct VcsParameters {
    pub console_type: ConsoleType,
    pub cart_data: Vec<u8>,
    pub mapper: String,
    pub has_super_chip: bool,
}

impl VcsParameters {
    /// The parameters for the image `rom` on an NTSC console, without
    /// on-cart RAM.
    pub fn new(rom: Vec<u8>) -> (parameters: VcsParameters)
        ensures
            parameters.console_type == ConsoleType::NTSC,
            parameters.cart_data@ == rom@,
            parameters.mapper@ == "2K"@,
            !parameters.has_super_chip,
    {
        VcsParameters {
            console_type: ConsoleType::NTSC,
            cart_data: rom,
            mapper: "2K".to_owned(),
            has_super_chip: false,
        }
    }
}

} // verus!
