use vstd::prelude::*;
use crate::vcs_console_type::ConsoleType;

verus! {

/// The colours of an NTSC console, as 0xRRGGBB: sixteen hues of eight
/// brightnesses each.
pub open spec fn ntsc_colors() -> Seq<u32> {
    seq![
        0x000000u32, 0x4a4a4au32, 0x6f6f6fu32, 0x8e8e8eu32, 0xaaaaaau32, 0xc0c0c0u32, 0xd6d6d6u32, 0xecececu32,
        0x484800u32, 0x69690fu32, 0x86861du32, 0xa2a22au32, 0xbbbb35u32, 0xd2d240u32, 0xe8e84au32, 0xfcfc54u32,
        0x7c2c00u32, 0x904811u32, 0xa26221u32, 0xb47a30u32, 0xc3903du32, 0xd2a44au32, 0xdfb755u32, 0xecc860u32,
        0x901c00u32, 0xa33915u32, 0xb55328u32, 0xc66c3au32, 0xd5824au32, 0xe39759u32, 0xf0aa67u32, 0xfcbc74u32,
        0x940000u32, 0xa71a1au32, 0xb83232u32, 0xc84848u32, 0xd65c5cu32, 0xe46f6fu32, 0xf08080u32, 0xfc9090u32,
        0x840064u32, 0x97197au32, 0xa8308fu32, 0xb846a2u32, 0xc659b3u32, 0xd46cc3u32, 0xe07cd2u32, 0xec8ce0u32,
        0x500084u32, 0x68199au32, 0x7d30adu32, 0x9246c0u32, 0xa459d0u32, 0xb56ce0u32, 0xc57ceeu32, 0xd48cfcu32,
        0x140090u32, 0x331aa3u32, 0x4e32b5u32, 0x6848c6u32, 0x7f5cd5u32, 0x956fe3u32, 0xa980f0u32, 0xbc90fcu32,
        0x000094u32, 0x181aa7u32, 0x2d32b8u32, 0x4248c8u32, 0x545cd6u32, 0x656fe4u32, 0x7580f0u32, 0x8490fcu32,
        0x001c88u32, 0x183b9du32, 0x2d57b0u32, 0x4272c2u32, 0x548ad2u32, 0x65a0e1u32, 0x75b5efu32, 0x84c8fcu32,
        0x003064u32, 0x185080u32, 0x2d6d98u32, 0x4288b0u32, 0x54a0c5u32, 0x65b7d9u32, 0x75ccebu32, 0x84e0fcu32,
        0x004030u32, 0x18624eu32, 0x2d8169u32, 0x429e82u32, 0x54b899u32, 0x65d1aeu32, 0x75e7c2u32, 0x84fcd4u32,
        0x004400u32, 0x1a661au32, 0x328432u32, 0x48a048u32, 0x5cba5cu32, 0x6fd26fu32, 0x80e880u32, 0x90fc90u32,
        0x143c00u32, 0x355f18u32, 0x527e2du32, 0x6e9c42u32, 0x87b754u32, 0x9ed065u32, 0xb4e775u32, 0xc8fc84u32,
        0x303800u32, 0x505916u32, 0x6d762bu32, 0x88923eu32, 0xa0ab4fu32, 0xb7c25fu32, 0xccd86eu32, 0xe0ec7cu32,
        0x482c00u32, 0x694d14u32, 0x866a26u32, 0xa28638u32, 0xbb9f47u32, 0xd2b656u32, 0xe8cc63u32, 0xfce070u32,
    ]
}

/// The colours of a PAL console, as 0xRRGGBB. The first two and the last two
/// hues are grey.
pub open spec fn pal_colors() -> Seq<u32> {
    seq![
        0x000000u32, 0x2b2b2bu32, 0x525252u32, 0x767676u32, 0x979797u32, 0xb6b6b6u32, 0xd2d2d2u32, 0xecececu32,
        0x000000u32, 0x2b2b2bu32, 0x525252u32, 0x767676u32, 0x979797u32, 0xb6b6b6u32, 0xd2d2d2u32, 0xecececu32,
        0x805800u32, 0x96711au32, 0xab8732u32, 0xbe9c48u32, 0xcfaf5cu32, 0xdfc06fu32, 0xeed180u32, 0xfce090u32,
        0x445c00u32, 0x5e791au32, 0x769332u32, 0x8cac48u32, 0xa0c25cu32, 0xb3d76fu32, 0xc4ea80u32, 0xd4fc90u32,
        0x703400u32, 0x89511au32, 0xa06b32u32, 0xb68448u32, 0xc99a5cu32, 0xdcaf6fu32, 0xecc280u32, 0xfcd490u32,
        0x006414u32, 0x1a8035u32, 0x329852u32, 0x48b06eu32, 0x5cc587u32, 0x6fd99eu32, 0x80ebb4u32, 0x90fcc8u32,
        0x700014u32, 0x891a35u32, 0xa03252u32, 0xb6486eu32, 0xc95c87u32, 0xdc6f9eu32, 0xec80b4u32, 0xfc90c8u32,
        0x005c5cu32, 0x1a7676u32, 0x328e8eu32, 0x48a4a4u32, 0x5cb8b8u32, 0x6fcbcbu32, 0x80dcdcu32, 0x90ececu32,
        0x70005cu32, 0x841a74u32, 0x963289u32, 0xa8489eu32, 0xb75cb0u32, 0xc66fc1u32, 0xd380d1u32, 0xe090e0u32,
        0x003c70u32, 0x195a89u32, 0x2f75a0u32, 0x448eb6u32, 0x57a5c9u32, 0x68badcu32, 0x79ceecu32, 0x88e0fcu32,
        0x580070u32, 0x6e1a89u32, 0x8332a0u32, 0x9648b6u32, 0xa75cc9u32, 0xb76fdcu32, 0xc680ecu32, 0xd490fcu32,
        0x002070u32, 0x193f89u32, 0x2f5aa0u32, 0x4474b6u32, 0x578bc9u32, 0x68a1dcu32, 0x79b5ecu32, 0x88c8fcu32,
        0x340080u32, 0x4a1a96u32, 0x5f32abu32, 0x7248beu32, 0x835ccfu32, 0x936fdfu32, 0xa280eeu32, 0xb090fcu32,
        0x000088u32, 0x1a1a9du32, 0x3232b0u32, 0x4848c2u32, 0x5c5cd2u32, 0x6f6fe1u32, 0x8080efu32, 0x9090fcu32,
        0x000000u32, 0x2b2b2bu32, 0x525252u32, 0x767676u32, 0x979797u32, 0xb6b6b6u32, 0xd2d2d2u32, 0xecececu32,
        0x000000u32, 0x2b2b2bu32, 0x525252u32, 0x767676u32, 0x979797u32, 0xb6b6b6u32, 0xd2d2d2u32, 0xecececu32,
    ]
}

/// The colours of a console of the given standard. SECAM is shown with the
/// PAL colours.
pub open spec fn colors_of(t: ConsoleType) -> Seq<u32> {
    if t == ConsoleType::NTSC {
        ntsc_colors()
    } else {
        pal_colors()
    }
}

/// The red, green and blue of a colour register's value. The register's
/// lowest bit takes no part: the upper seven bits pick hue and brightness.
pub open spec fn rgb_of(t: ConsoleType, index: int) -> (u8, u8, u8) {
    let word = colors_of(t)[(index / 2) % 128];
    ((word / 65536) as u8, ((word / 256) % 256) as u8, (word % 256) as u8)
}

/// The colour table of one television standard.
pub struct VcsPalette {
    colors: Vec<u32>,
    console_type: ConsoleType,
}

impl View for VcsPalette {
    type V = ConsoleType;

    closed spec fn view(&self) -> ConsoleType {
        self.console_type
    }
}

impl VcsPalette {
    /// Whether the table held is that of the standard.
    pub closed spec fn wf(&self) -> bool {
        self.colors@ == colors_of(self.console_type)
    }

    pub fn new(console_type: ConsoleType) -> (palette: VcsPalette)
        ensures
            palette.wf(),
            palette@ == console_type,
    {
        let colors = if console_type == ConsoleType::NTSC {
            let table: Vec<u32> = vec![
                0x000000, 0x4a4a4a, 0x6f6f6f, 0x8e8e8e, 0xaaaaaa, 0xc0c0c0, 0xd6d6d6, 0xececec,
                0x484800, 0x69690f, 0x86861d, 0xa2a22a, 0xbbbb35, 0xd2d240, 0xe8e84a, 0xfcfc54,
                0x7c2c00, 0x904811, 0xa26221, 0xb47a30, 0xc3903d, 0xd2a44a, 0xdfb755, 0xecc860,
                0x901c00, 0xa33915, 0xb55328, 0xc66c3a, 0xd5824a, 0xe39759, 0xf0aa67, 0xfcbc74,
                0x940000, 0xa71a1a, 0xb83232, 0xc84848, 0xd65c5c, 0xe46f6f, 0xf08080, 0xfc9090,
                0x840064, 0x97197a, 0xa8308f, 0xb846a2, 0xc659b3, 0xd46cc3, 0xe07cd2, 0xec8ce0,
                0x500084, 0x68199a, 0x7d30ad, 0x9246c0, 0xa459d0, 0xb56ce0, 0xc57cee, 0xd48cfc,
                0x140090, 0x331aa3, 0x4e32b5, 0x6848c6, 0x7f5cd5, 0x956fe3, 0xa980f0, 0xbc90fc,
                0x000094, 0x181aa7, 0x2d32b8, 0x4248c8, 0x545cd6, 0x656fe4, 0x7580f0, 0x8490fc,
                0x001c88, 0x183b9d, 0x2d57b0, 0x4272c2, 0x548ad2, 0x65a0e1, 0x75b5ef, 0x84c8fc,
                0x003064, 0x185080, 0x2d6d98, 0x4288b0, 0x54a0c5, 0x65b7d9, 0x75cceb, 0x84e0fc,
                0x004030, 0x18624e, 0x2d8169, 0x429e82, 0x54b899, 0x65d1ae, 0x75e7c2, 0x84fcd4,
                0x004400, 0x1a661a, 0x328432, 0x48a048, 0x5cba5c, 0x6fd26f, 0x80e880, 0x90fc90,
                0x143c00, 0x355f18, 0x527e2d, 0x6e9c42, 0x87b754, 0x9ed065, 0xb4e775, 0xc8fc84,
                0x303800, 0x505916, 0x6d762b, 0x88923e, 0xa0ab4f, 0xb7c25f, 0xccd86e, 0xe0ec7c,
                0x482c00, 0x694d14, 0x866a26, 0xa28638, 0xbb9f47, 0xd2b656, 0xe8cc63, 0xfce070,
            ];
            assert(table@ =~= ntsc_colors());
            table
        } else {
            let table: Vec<u32> = vec![
                0x000000, 0x2b2b2b, 0x525252, 0x767676, 0x979797, 0xb6b6b6, 0xd2d2d2, 0xececec,
                0x000000, 0x2b2b2b, 0x525252, 0x767676, 0x979797, 0xb6b6b6, 0xd2d2d2, 0xececec,
                0x805800, 0x96711a, 0xab8732, 0xbe9c48, 0xcfaf5c, 0xdfc06f, 0xeed180, 0xfce090,
                0x445c00, 0x5e791a, 0x769332, 0x8cac48, 0xa0c25c, 0xb3d76f, 0xc4ea80, 0xd4fc90,
                0x703400, 0x89511a, 0xa06b32, 0xb68448, 0xc99a5c, 0xdcaf6f, 0xecc280, 0xfcd490,
                0x006414, 0x1a8035, 0x329852, 0x48b06e, 0x5cc587, 0x6fd99e, 0x80ebb4, 0x90fcc8,
                0x700014, 0x891a35, 0xa03252, 0xb6486e, 0xc95c87, 0xdc6f9e, 0xec80b4, 0xfc90c8,
                0x005c5c, 0x1a7676, 0x328e8e, 0x48a4a4, 0x5cb8b8, 0x6fcbcb, 0x80dcdc, 0x90ecec,
                0x70005c, 0x841a74, 0x963289, 0xa8489e, 0xb75cb0, 0xc66fc1, 0xd380d1, 0xe090e0,
                0x003c70, 0x195a89, 0x2f75a0, 0x448eb6, 0x57a5c9, 0x68badc, 0x79ceec, 0x88e0fc,
                0x580070, 0x6e1a89, 0x8332a0, 0x9648b6, 0xa75cc9, 0xb76fdc, 0xc680ec, 0xd490fc,
                0x002070, 0x193f89, 0x2f5aa0, 0x4474b6, 0x578bc9, 0x68a1dc, 0x79b5ec, 0x88c8fc,
                0x340080, 0x4a1a96, 0x5f32ab, 0x7248be, 0x835ccf, 0x936fdf, 0xa280ee, 0xb090fc,
                0x000088, 0x1a1a9d, 0x3232b0, 0x4848c2, 0x5c5cd2, 0x6f6fe1, 0x8080ef, 0x9090fc,
                0x000000, 0x2b2b2b, 0x525252, 0x767676, 0x979797, 0xb6b6b6, 0xd2d2d2, 0xececec,
                0x000000, 0x2b2b2b, 0x525252, 0x767676, 0x979797, 0xb6b6b6, 0xd2d2d2, 0xececec,
            ];
            assert(table@ =~= pal_colors());
            table
        };
        VcsPalette { colors, console_type }
    }

    /// The red, green and blue shown for a colour register's value.
    pub fn get_color(&self, index: usize) -> (rgb: (u8, u8, u8))
        requires
            self.wf(),
        ensures
            rgb == rgb_of(self@, index as int),
    {
        let word: u32 = self.colors[(index / 2) % 128];
        assert(word <= 0xffffff) by {
            lemma_colors_fit(self.console_type, ((index / 2) % 128) as int);
        }
        ((word / 65536) as u8, ((word / 256) % 256) as u8, (word % 256) as u8)
    }
}

/// Every colour of either table fits in 24 bits.
pub proof fn lemma_colors_fit(t: ConsoleType, i: int)
    requires
        0 <= i < 128,
    ensures
        colors_of(t).len() == 128,
        colors_of(t)[i] <= 0xffffff,
{
}

} // verus!
