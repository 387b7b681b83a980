use vstd::prelude::*;
use crate::bits::{bit_set, lemma_zero_has_no_bit};
use crate::vcs_console_type::x_resolution_of;
use crate::vcs_palette::rgb_of;
use crate::vcs_tia_model::{
    HBLANK,
    REG_COLUBK,
    REG_CTRLPF,
    REG_ENABL,
    REG_ENAM0,
    REG_ENAM1,
    REG_GRP0,
    REG_GRP1,
    REG_HMOVE,
    REG_HMP0,
    REG_PF0,
    REG_PF1,
    REG_PF2,
    REG_WSYNC,
    TiaState,
    moved,
    playfield_column,
    playfield_pixel,
    signed_nibble,
};

verus! {

/// With the mirror bit of CTRLPF set, the playfield is symmetric about the
/// centre of the line: it is lit at a column exactly where it is lit at the
/// column's mirror image, and outside score mode in the same colour.
pub proof fn lemma_mirrored_playfield_is_symmetric(registers: Seq<u8>, x: int)
    requires
        registers.len() == 128,
        0 <= x < 160,
        registers[REG_CTRLPF as int] & 0x01 != 0,
    ensures
        playfield_pixel(registers, x).is_some() == playfield_pixel(registers, 159 - x).is_some(),
        registers[REG_CTRLPF as int] & 0x02 == 0 ==> playfield_pixel(registers, x)
            == playfield_pixel(registers, 159 - x),
{
    assert(playfield_column(true, x) == playfield_column(true, 159 - x));
}

/// Without the mirror bit, the right half of the playfield repeats the left.
pub proof fn lemma_repeated_playfield(registers: Seq<u8>, x: int)
    requires
        registers.len() == 128,
        0 <= x < 80,
        registers[REG_CTRLPF as int] & 0x01 == 0,
    ensures
        playfield_pixel(registers, x).is_some() == playfield_pixel(registers, x + 80).is_some(),
{
    assert(playfield_column(false, x) == playfield_column(false, x + 80));
}

/// A motion register holds a signed nibble in its upper half: 0x70 moves an
/// object seven clocks to the left, 0x80 eight to the right, wherever the
/// target stays within the visible range.
pub proof fn lemma_motion_is_signed(origin: u16, x_resolution: int)
    requires
        0 <= x_resolution <= 255,
    ensures
        signed_nibble(0x70) == 7,
        signed_nibble(0x80) == -8,
        HBLANK <= origin - 7 <= HBLANK + x_resolution ==> moved(0x70, origin, x_resolution)
            == origin - 7,
        HBLANK <= origin + 8 <= HBLANK + x_resolution ==> moved(0x80, origin, x_resolution)
            == origin + 8,
        forall|mov: u8|
            HBLANK <= origin - signed_nibble(mov) <= HBLANK + x_resolution ==> #[trigger] moved(
                mov,
                origin,
                x_resolution,
            ) == origin - signed_nibble(mov),
{
}

/// A write to HMOVE moves player 0 by what HMP0 holds: seven clocks to the
/// left for 0x70, eight to the right for 0x80, wherever the target stays
/// within the visible range.
pub proof fn lemma_hmove_moves_player(s: TiaState, byte: u8)
    requires
        s.wf(),
    ensures
        s.reg(REG_HMP0) == 0x70 && 75 <= s.res_p0_cycle ==> s.write(REG_HMOVE, byte).res_p0_cycle
            == s.res_p0_cycle - 7,
        s.reg(REG_HMP0) == 0x80 && 60 <= s.res_p0_cycle <= 220 ==> s.write(
            REG_HMOVE,
            byte,
        ).res_p0_cycle == s.res_p0_cycle + 8,
{
    reveal(TiaState::write);
    lemma_motion_is_signed(s.res_p0_cycle, x_resolution_of(s.console));
}

/// Where no player has graphics, no missile and no ball is enabled and the
/// playfield is empty, the pixel under the beam is drawn in the background
/// colour.
pub proof fn lemma_background_where_nothing_shows(s: TiaState)
    requires
        s.wf(),
        s.visible(),
        s.reg(REG_GRP0) == 0,
        s.reg(REG_GRP1) == 0,
        s.reg(REG_ENAM0) & 0x02 == 0,
        s.reg(REG_ENAM1) & 0x02 == 0,
        s.reg(REG_ENABL) & 0x02 == 0,
        s.reg(REG_PF0) == 0,
        s.reg(REG_PF1) == 0,
        s.reg(REG_PF2) == 0,
    ensures
        s.pixel_color() == s.reg(REG_COLUBK),
        s.render_pixel().registers == s.registers,
        s.render_pixel().screen[s.pixel_index()] == rgb_of(
            s.console,
            s.reg(REG_COLUBK) as int,
        ).0,
        s.render_pixel().screen[s.pixel_index() + 1] == rgb_of(
            s.console,
            s.reg(REG_COLUBK) as int,
        ).1,
        s.render_pixel().screen[s.pixel_index() + 2] == rgb_of(
            s.console,
            s.reg(REG_COLUBK) as int,
        ).2,
{
    assert forall|i: u8| i < 8 implies !bit_set(0, i) by {
        lemma_zero_has_no_bit(i);
    }
    assert(s.p0_pixel().is_none());
    assert(s.p1_pixel().is_none());
    assert(s.pf_pixel().is_none());
    assert(s.render_pixel().registers =~= s.registers);
    lemma_pixel_in_frame(s);
}

/// The pixel under a visible beam lies inside the frame.
pub proof fn lemma_pixel_in_frame(s: TiaState)
    requires
        s.wf(),
        s.visible(),
    ensures
        0 <= s.pixel_index(),
        s.pixel_index() + 2 < s.screen.len(),
{
}

/// One colour clock leaves a well-formed chip well formed.
pub proof fn lemma_tick_keeps_wf(s: TiaState)
    requires
        s.wf(),
    ensures
        s.tick().wf(),
        s.tick().console == s.console,
        s.tick().cycle == s.advanced().cycle,
        s.tick().scan_line == s.advanced().scan_line,
        s.tick().w_sync_set == (s.w_sync_set && s.tick().cycle != 3),
{
    reveal(TiaState::tick);
    let moved = s.advanced();
    if moved.visible() {
        lemma_pixel_in_frame(moved);
    }
}

impl TiaState {
    /// The state `n` colour clocks later.
    pub open spec fn ticks(self, n: nat) -> TiaState
        decreases n,
    {
        if n == 0 {
            self
        } else {
            self.tick().ticks((n - 1) as nat)
        }
    }

    /// The colour clocks from now until the beam is next at cycle 3.
    pub open spec fn clocks_to_release(self) -> nat {
        if self.cycle < 3 {
            (3 - self.cycle) as nat
        } else {
            (self.last_cycle() + 4 - self.cycle) as nat
        }
    }
}

/// No write changes the television standard of the chip.
pub proof fn lemma_write_keeps_console(s: TiaState, location: u16, byte: u8)
    ensures
        s.write(location, byte).console == s.console,
{
    reveal(TiaState::write);
}

/// A write to WSYNC holds the processor, whatever byte is written.
pub proof fn lemma_wsync_holds(s: TiaState, byte: u8)
    ensures
        s.write(REG_WSYNC, byte).w_sync_set,
        s.write(REG_WSYNC, byte) == (TiaState { w_sync_set: true, ..s }),
{
    reveal(TiaState::write);
}

/// A held processor stays held for every colour clock until the beam is
/// next at cycle 3, and is released on that clock. When the hold began at
/// cycle 3 or later, that is cycle 3 of the next scanline.
pub proof fn lemma_wsync_holds_until_cycle_three(s: TiaState, n: nat)
    requires
        s.wf(),
        s.w_sync_set,
        n <= s.clocks_to_release(),
    ensures
        s.ticks(n).wf(),
        n < s.clocks_to_release() ==> s.ticks(n).w_sync_set,
        n == s.clocks_to_release() ==> !s.ticks(n).w_sync_set && s.ticks(n).cycle == 3,
        n == s.clocks_to_release() && s.cycle >= 3 ==> s.ticks(n).scan_line == s.advanced_line(),
    decreases n,
{
    if n > 0 {
        lemma_tick_keeps_wf(s);
        let next = s.tick();
        if next.cycle != 3 {
            assert(next.clocks_to_release() == s.clocks_to_release() - 1);
            lemma_wsync_holds_until_cycle_three(next, (n - 1) as nat);
            if n == s.clocks_to_release() && s.cycle >= 3 {
                if next.cycle >= 3 {
                    assert(next.advanced_line() == s.advanced_line());
                } else {
                    lemma_line_kept_before_cycle_three(next, (n - 1) as nat);
                }
            }
        } else {
            assert(s.clocks_to_release() == 1);
            assert(next.ticks(0) == next);
        }
    }
}

/// While the beam has not passed cycle 3 of a line, the line count stays.
proof fn lemma_line_kept_before_cycle_three(s: TiaState, n: nat)
    requires
        s.wf(),
        s.cycle < 3,
        n <= s.clocks_to_release(),
    ensures
        s.ticks(n).scan_line == s.scan_line,
    decreases n,
{
    if n > 0 {
        lemma_tick_keeps_wf(s);
        let next = s.tick();
        if next.cycle < 3 {
            lemma_line_kept_before_cycle_three(next, (n - 1) as nat);
        } else {
            assert(n == 1);
            assert(next.ticks(0) == next);
        }
    }
}

impl TiaState {
    /// The line count once the current line has ended.
    pub open spec fn advanced_line(self) -> u16 {
        if self.scan_line == 0xffff {
            0
        } else {
            (self.scan_line + 1) as u16
        }
    }
}

} // verus!
