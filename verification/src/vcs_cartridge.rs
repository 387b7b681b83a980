use vstd::prelude::*;
use crate::base_memory::BaseMemory;
use crate::fault::Fault;
use crate::vcs_cartridge2k::{VcsCartridge2k, lemma_full_image_serves_all_2k};
use crate::vcs_cartridge4k::{VcsCartridge4k, lemma_full_image_serves_all_4k};
use crate::vcs_parameters::VcsParameters;

verus! {

/// A cartridge: a block of memory that the console reads through a window
/// of 4096 locations.
pub trait VcsCartridge: BaseMemory {
    /// The index into the contents of `location` within the bank that
    /// starts at `memory_offset`. On-cart RAM belongs to no bank.
    spec fn bank_index(&self, location: u16, memory_offset: u16) -> int;

    /// The byte at `location` of the window, given the state of address
    /// line 13.
    fn read_a13(&self, location: u16, a13set: bool) -> (byte: u8)
        requires
            self.holds(location),
        ensures
            byte == self.contents()[self.read_index(location)],
    ;

    /// The byte at `location` of the bank that starts at `memory_offset`.
    fn read_offset(&self, location: u16, memory_offset: u16) -> (byte: u8)
        requires
            self.bank_index(location, memory_offset) < self.contents().len(),
        ensures
            byte == self.contents()[self.bank_index(location, memory_offset)],
    ;
}

/// The bank-switching schemes that the detector tells apart.
#[derive(Debug, PartialEq, Eq, Clone, Copy, Structural)]
pub enum Bankswitch {
    TwoK,
    FourK,
    Cv,
    FourKSc,
    Fc,
    Gl,
}

/// Whether `signature` stands in `image` at index `at`.
pub open spec fn matches_at(image: Seq<u8>, signature: Seq<u8>, at: int) -> bool {
    &&& 0 <= at
    &&& at + signature.len() <= image.len()
    &&& forall|j: int| 0 <= j < signature.len() ==> image[at + j] == signature[j]
}

/// Whether a scan of `image` from index `at` on, with `count` hits so far,
/// reaches `minhits` hits. The scan stops at the first index from which the
/// signature would reach the last byte; after a hit it goes on behind the
/// byte that follows the hit.
pub open spec fn scan_reaches(
    image: Seq<u8>,
    signature: Seq<u8>,
    minhits: u32,
    at: int,
    count: u32,
) -> bool
    decreases image.len() - at,
{
    if at < 0 || at + signature.len() >= image.len() {
        count == minhits
    } else if matches_at(image, signature, at) {
        if count + 1 == minhits || count == u32::MAX {
            count + 1 == minhits
        } else {
            scan_reaches(image, signature, minhits, at + signature.len() + 1, (count + 1) as u32)
        }
    } else {
        scan_reaches(image, signature, minhits, at + 1, count)
    }
}

/// Whether a scan of the whole image reaches `minhits` hits.
pub open spec fn search_finds(image: Seq<u8>, signature: Seq<u8>, minhits: u32) -> bool {
    scan_reaches(image, signature, minhits, 0, 0)
}

/// The signatures of code that reaches for the RAM of a CV cartridge.
pub open spec fn cv_signatures() -> (Seq<u8>, Seq<u8>) {
    (seq![0x9Du8, 0xFF, 0xF3], seq![0x99u8, 0x00, 0xF4])
}

pub open spec fn probably_cv(image: Seq<u8>) -> bool {
    search_finds(image, cv_signatures().0, 3) || search_finds(image, cv_signatures().1, 3)
}

pub open spec fn probably_gl(image: Seq<u8>) -> bool {
    search_finds(image, seq![0xadu8, 0xb8, 0x0c], 3)
}

/// Whether the first 256 bytes are all alike and the image carries the
/// letters SC six bytes before its end.
pub open spec fn probably_4ksc(image: Seq<u8>) -> bool {
    &&& image.len() >= 256
    &&& forall|i: int| 1 <= i < 256 ==> #[trigger] image[i] == image[0]
    &&& image[image.len() - 6] == 0x53
    &&& image[image.len() - 5] == 0x43
}

pub open spec fn probably_fc(image: Seq<u8>) -> bool {
    ||| search_finds(image, seq![0x8du8, 0xf8, 0x1f, 0x4a, 0x4a, 0x8d], 6)
    ||| search_finds(image, seq![0x8du8, 0xf8, 0xff, 0x8d, 0xfc, 0xff], 6)
    ||| search_finds(image, seq![0x8cu8, 0xf9, 0xff, 0xad, 0xfc, 0xff], 6)
}

/// Whether the image is one of 4096 bytes whose halves are alike.
pub open spec fn halves_alike(image: Seq<u8>) -> bool {
    image.len() == 4096 && image.subrange(0, 2048) == image.subrange(2048, 4096)
}

/// The scheme that an image appears to be made for.
pub open spec fn scheme_of(image: Seq<u8>) -> Bankswitch {
    if image.len() <= 2048 || halves_alike(image) {
        if probably_cv(image) {
            Bankswitch::Cv
        } else {
            Bankswitch::TwoK
        }
    } else if image.len() == 4096 {
        if probably_cv(image) {
            Bankswitch::Cv
        } else if probably_4ksc(image) {
            Bankswitch::FourKSc
        } else if probably_fc(image) {
            Bankswitch::Fc
        } else if probably_gl(image) {
            Bankswitch::Gl
        } else {
            Bankswitch::FourK
        }
    } else {
        Bankswitch::TwoK
    }
}

/// Whether an image is run as a cartridge of 4096 bytes. The schemes that
/// are only recognised fall back on this where the image has the size for
/// it; every other image is run as a cartridge of 2048 bytes.
pub open spec fn runs_as_4k(image: Seq<u8>) -> bool {
    image.len() == 4096 && !halves_alike(image)
}

/// The cartridge in the slot.
pub enum Cartridge {
    TwoK(VcsCartridge2k),
    FourK(VcsCartridge4k),
}

/// What the console sees of a cartridge.
pub struct CartridgeState {
    pub contents: Seq<u8>,
    /// Whether the cartridge is read through 4096 locations, not 2048.
    pub is_4k: bool,
    pub has_super_chip: bool,
}

impl CartridgeState {
    /// The locations that the cartridge is read through.
    pub open spec fn window(self) -> int {
        if self.is_4k {
            4096
        } else {
            2048
        }
    }

    pub open spec fn wf(self) -> bool {
        self.contents.len() >= self.window()
    }

    /// The byte at `location` of the window.
    pub open spec fn read(self, location: u16) -> u8 {
        if self.is_4k {
            self.contents[(location & 0xFFF) as int]
        } else {
            self.contents[(location & 0x7FF) as int]
        }
    }

    /// Whether a write to `location` is taken: only on-cart RAM takes one.
    pub open spec fn takes_write(self, location: u16) -> bool {
        self.has_super_chip && location < 0x80
    }

    /// The cartridge after a write that it took.
    pub open spec fn write(self, location: u16, byte: u8) -> CartridgeState {
        CartridgeState { contents: self.contents.update(location + 0x80, byte), ..self }
    }
}

impl View for Cartridge {
    type V = CartridgeState;

    open spec fn view(&self) -> CartridgeState {
        match self {
            Cartridge::TwoK(c) => CartridgeState {
                contents: c.memory@,
                is_4k: false,
                has_super_chip: c.has_super_chip,
            },
            Cartridge::FourK(c) => CartridgeState {
                contents: c.memory@,
                is_4k: true,
                has_super_chip: c.has_super_chip,
            },
        }
    }
}

impl Cartridge {
    /// The name that the cartridge was given.
    pub open spec fn name(&self) -> Seq<char> {
        match self {
            Cartridge::TwoK(c) => c.name@,
            Cartridge::FourK(c) => c.name@,
        }
    }

    /// The byte at `location` of the window.
    pub fn read_a13(&self, location: u16, a13set: bool) -> (byte: u8)
        requires
            self@.wf(),
        ensures
            byte == self@.read(location),
    {
        match self {
            Cartridge::TwoK(c) => {
                proof {
                    lemma_full_image_serves_all_2k(c, location);
                }
                c.read_a13(location, a13set)
            },
            Cartridge::FourK(c) => {
                proof {
                    lemma_full_image_serves_all_4k(c, location);
                }
                c.read_a13(location, a13set)
            },
        }
    }

    /// Stores `byte` at `location` if the cartridge has RAM there, and
    /// reports `Fault::RomWrite`, changing nothing, if it has not.
    pub fn write(&mut self, location: u16, byte: u8) -> (r: Result<(), Fault>)
        requires
            old(self)@.wf(),
        ensures
            final(self)@.wf(),
            r.is_ok() <==> old(self)@.takes_write(location),
            r.is_ok() ==> final(self)@ == old(self)@.write(location, byte),
            r.is_err() ==> r == Err::<(), Fault>(Fault::RomWrite) && final(self)@ == old(self)@,
    {
        match self {
            Cartridge::TwoK(c) => BaseMemory::write(c, location, byte),
            Cartridge::FourK(c) => BaseMemory::write(c, location, byte),
        }
    }

    /// The number of bytes in the image.
    pub fn size(&self) -> (n: usize)
        ensures
            n == self@.contents.len(),
    {
        match self {
            Cartridge::TwoK(c) => c.memory.len(),
            Cartridge::FourK(c) => c.memory.len(),
        }
    }

    /// Whether the image fills the window it is read through.
    pub fn fills_window(&self) -> (full: bool)
        ensures
            full == self@.wf(),
    {
        match self {
            Cartridge::TwoK(c) => c.memory.len() >= 2048,
            Cartridge::FourK(c) => c.memory.len() >= 4096,
        }
    }
}

/// Tells from an image what kind of cartridge it is.
pub struct VcsCartridgeDetector {}

impl VcsCartridgeDetector {
    /// The cartridge for the image in `vcs_parameters`.
    pub fn detect_cartridge(vcs_parameters: &VcsParameters) -> (cartridge: Cartridge)
        ensures
            cartridge@.contents == vcs_parameters.cart_data@,
            cartridge@.is_4k == runs_as_4k(vcs_parameters.cart_data@),
            cartridge@.has_super_chip == vcs_parameters.has_super_chip,
            cartridge.name() == if runs_as_4k(vcs_parameters.cart_data@) {
                "4k Cartridge"@
            } else {
                "2k Cartridge"@
            },
    {
        let scheme = Self::detect_scheme(&vcs_parameters.cart_data);
        let size = vcs_parameters.cart_data.len();
        match scheme {
            Bankswitch::TwoK => {
                let mut cart2k = VcsCartridge2k {
                    memory: Vec::new(),
                    name: "2k Cartridge".to_owned(),
                    has_super_chip: vcs_parameters.has_super_chip,
                };
                cart2k.load_data(vcs_parameters.cart_data.as_slice());
                Cartridge::TwoK(cart2k)
            },
            Bankswitch::FourK => {
                let mut cart4k = VcsCartridge4k {
                    memory: Vec::new(),
                    name: "4k Cartridge".to_owned(),
                    has_super_chip: vcs_parameters.has_super_chip,
                };
                cart4k.load_data(vcs_parameters.cart_data.as_slice());
                Cartridge::FourK(cart4k)
            },
            _ => {
                if size == 4096 && !Self::halves_alike(&vcs_parameters.cart_data) {
                    let mut cart4k = VcsCartridge4k {
                        memory: Vec::new(),
                        name: "4k Cartridge".to_owned(),
                        has_super_chip: vcs_parameters.has_super_chip,
                    };
                    cart4k.load_data(vcs_parameters.cart_data.as_slice());
                    Cartridge::FourK(cart4k)
                } else {
                    let mut cart2k = VcsCartridge2k {
                        memory: Vec::new(),
                        name: "2k Cartridge".to_owned(),
                        has_super_chip: vcs_parameters.has_super_chip,
                    };
                    cart2k.load_data(vcs_parameters.cart_data.as_slice());
                    Cartridge::TwoK(cart2k)
                }
            },
        }
    }

    /// The scheme that an image appears to be made for.
    pub fn detect_scheme(image: &Vec<u8>) -> (scheme: Bankswitch)
        ensures
            scheme == scheme_of(image@),
    {
        let size = image.len();
        if (size <= 2048) || Self::halves_alike(image) {
            if Self::is_probably_cv(image) {
                Bankswitch::Cv
            } else {
                Bankswitch::TwoK
            }
        } else if size == 4096 {
            if Self::is_probably_cv(image) {
                Bankswitch::Cv
            } else if Self::is_probably_4ksc(image) {
                Bankswitch::FourKSc
            } else if Self::is_probably_fc(image) {
                Bankswitch::Fc
            } else if Self::is_probably_gl(image) {
                Bankswitch::Gl
            } else {
                Bankswitch::FourK
            }
        } else {
            Bankswitch::TwoK
        }
    }

    fn halves_alike(image: &Vec<u8>) -> (alike: bool)
        ensures
            alike == halves_alike(image@),
    {
        if image.len() != 4096 {
            return false;
        }
        let mut i: usize = 0;
        while i < 2048
            invariant
                i <= 2048,
                image@.len() == 4096,
                forall|j: int| 0 <= j < i ==> #[trigger] image@[j] == image@[j + 2048],
            decreases 2048 - i,
        {
            if image[i] != image[i + 2048] {
                proof {
                    let low = image@.subrange(0, 2048);
                    let high = image@.subrange(2048, 4096);
                    assert(low[i as int] != high[i as int]);
                }
                return false;
            }
            i += 1;
        }
        assert(image@.subrange(0, 2048) =~= image@.subrange(2048, 4096));
        true
    }

    fn is_probably_cv(image: &Vec<u8>) -> (probable: bool)
        ensures
            probable == probably_cv(image@),
    {
        let magicard_signature: Vec<u8> = vec![0x9D, 0xFF, 0xF3];
        let videolife_signature: Vec<u8> = vec![0x99, 0x00, 0xF4];
        assert(magicard_signature@ =~= cv_signatures().0);
        assert(videolife_signature@ =~= cv_signatures().1);
        if Self::search_for_bytes(image, magicard_signature, 3) {
            return true;
        } else {
            return Self::search_for_bytes(image, videolife_signature, 3);
        }
    }

    fn is_probably_gl(image: &Vec<u8>) -> (probable: bool)
        ensures
            probable == probably_gl(image@),
    {
        let constexpr: Vec<u8> = vec![0xad, 0xb8, 0x0c];
        assert(constexpr@ =~= seq![0xadu8, 0xb8, 0x0c]);
        Self::search_for_bytes(image, constexpr, 3)
    }

    fn is_probably_4ksc(image: &Vec<u8>) -> (probable: bool)
        ensures
            probable == probably_4ksc(image@),
    {
        if image.len() < 256 {
            return false;
        }
        let first: u8 = image[0];
        let mut i: usize = 1;
        while i < 256
            invariant
                1 <= i <= 256,
                image@.len() >= 256,
                first == image@[0],
                forall|j: int| 1 <= j < i ==> #[trigger] image@[j] == image@[0],
            decreases 256 - i,
        {
            if image[i] != first {
                return false;
            }
            i += 1;
        }
        let size = image.len();
        image[size - 6] == 0x53 && image[size - 5] == 0x43
    }

    fn is_probably_fc(image: &Vec<u8>) -> (probable: bool)
        ensures
            probable == probably_fc(image@),
    {
        let constexpr1: Vec<u8> = vec![0x8d, 0xf8, 0x1f, 0x4a, 0x4a, 0x8d];
        let constexpr2: Vec<u8> = vec![0x8d, 0xf8, 0xff, 0x8d, 0xfc, 0xff];
        let constexpr3: Vec<u8> = vec![0x8c, 0xf9, 0xff, 0xad, 0xfc, 0xff];
        assert(constexpr1@ =~= seq![0x8du8, 0xf8, 0x1f, 0x4a, 0x4a, 0x8d]);
        assert(constexpr2@ =~= seq![0x8du8, 0xf8, 0xff, 0x8d, 0xfc, 0xff]);
        assert(constexpr3@ =~= seq![0x8cu8, 0xf9, 0xff, 0xad, 0xfc, 0xff]);
        if Self::search_for_bytes(image, constexpr1, 6) || Self::search_for_bytes(
            image,
            constexpr2,
            6,
        ) || Self::search_for_bytes(image, constexpr3, 6) {
            return true;
        }
        false
    }

    /// Whether `signature` stands in `image` at index `at`.
    fn signature_at(image: &Vec<u8>, signature: &Vec<u8>, at: usize) -> (found: bool)
        requires
            at + signature@.len() <= image@.len(),
        ensures
            found == matches_at(image@, signature@, at as int),
    {
        let size: usize = image.len();
        let mut j: usize = 0;
        while j < signature.len()
            invariant
                j <= signature@.len(),
                size == image@.len(),
                at + signature@.len() <= size,
                forall|k: int| 0 <= k < j ==> image@[at + k] == signature@[k],
            decreases signature@.len() - j,
        {
            if image[at + j] != signature[j] {
                return false;
            }
            j += 1;
        }
        true
    }

    /// Whether a scan of `image` for `signature` reaches `minhits` hits.
    fn search_for_bytes(image: &Vec<u8>, signature: Vec<u8>, minhits: u32) -> (found: bool)
        ensures
            found == search_finds(image@, signature@, minhits),
    {
        let mut count: u32 = 0;
        if image.len() < signature.len() {
            return count == minhits;
        }
        let last: usize = image.len() - signature.len();
        let mut i: usize = 0;
        while i < last
            invariant
                last == image@.len() - signature@.len(),
                search_finds(image@, signature@, minhits) == scan_reaches(
                    image@,
                    signature@,
                    minhits,
                    i as int,
                    count,
                ),
            decreases image@.len() - i,
        {
            if Self::signature_at(image, &signature, i) {
                if count == u32::MAX {
                    return false;
                }
                count += 1;
                if count == minhits {
                    return true;
                }
                if signature.len() >= last - i {
                    assert(!scan_reaches(
                        image@,
                        signature@,
                        minhits,
                        i + signature@.len() + 1,
                        count,
                    ));
                    return false;
                }
                i += signature.len();
            }
            i += 1;
        }
        count == minhits
    }
}

} // verus!
