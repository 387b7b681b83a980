use vstd::prelude::*;
use crate::bits::{bit_set};
use crate::vcs_console_type::{ConsoleType, v_blank_lines_of, x_resolution_of, y_resolution_of};
use crate::vcs_palette::rgb_of;

verus! {

pub const REG_VSYNC: u16 = 0x00;
pub const REG_VBLANK: u16 = 0x01;
pub const REG_WSYNC: u16 = 0x02;
pub const REG_RSYNC: u16 = 0x03;
pub const REG_NUSIZ0: u16 = 0x04;
pub const REG_NUSIZ1: u16 = 0x05;
pub const REG_COLUP0: u16 = 0x06;
pub const REG_COLUP1: u16 = 0x07;
pub const REG_COLUPF: u16 = 0x08;
pub const REG_COLUBK: u16 = 0x09;
pub const REG_CTRLPF: u16 = 0x0A;
pub const REG_REFP0: u16 = 0x0B;
pub const REG_REFP1: u16 = 0x0C;
pub const REG_PF0: u16 = 0x0D;
pub const REG_PF1: u16 = 0x0E;
pub const REG_PF2: u16 = 0x0F;
pub const REG_RESP0: u16 = 0x10;
pub const REG_RESP1: u16 = 0x11;
pub const REG_RESM0: u16 = 0x12;
pub const REG_RESM1: u16 = 0x13;
pub const REG_RESBL: u16 = 0x14;
pub const REG_AUDC0: u16 = 0x15;
pub const REG_AUDC1: u16 = 0x16;
pub const REG_AUDF0: u16 = 0x17;
pub const REG_AUDF1: u16 = 0x18;
pub const REG_AUDV0: u16 = 0x19;
pub const REG_AUDV1: u16 = 0x1A;
pub const REG_GRP0: u16 = 0x1B;
pub const REG_GRP1: u16 = 0x1C;
pub const REG_ENAM0: u16 = 0x1D;
pub const REG_ENAM1: u16 = 0x1E;
pub const REG_ENABL: u16 = 0x1F;
pub const REG_HMP0: u16 = 0x20;
pub const REG_HMP1: u16 = 0x21;
pub const REG_HMM0: u16 = 0x22;
pub const REG_HMM1: u16 = 0x23;
pub const REG_HMBL: u16 = 0x24;
pub const REG_VDELP0: u16 = 0x25;
pub const REG_VDELP1: u16 = 0x26;
pub const REG_VDELBL: u16 = 0x27;
pub const REG_RESMP0: u16 = 0x28;
pub const REG_RESMP1: u16 = 0x29;
pub const REG_HMOVE: u16 = 0x2A;
pub const REG_HMCLR: u16 = 0x2B;
pub const REG_CXCLR: u16 = 0x2C;
pub const REG_CXM0P: u16 = 0x30;
pub const REG_CXM1P: u16 = 0x31;
pub const REG_CXP0FB: u16 = 0x32;
pub const REG_CXP1FB: u16 = 0x33;
pub const REG_CXM0FB: u16 = 0x34;
pub const REG_CXM1FB: u16 = 0x35;
pub const REG_CXBLPF: u16 = 0x36;
pub const REG_CXPPMM: u16 = 0x37;
pub const REG_INPT0: u16 = 0x38;
pub const REG_INPT1: u16 = 0x39;
pub const REG_INPT2: u16 = 0x3A;
pub const REG_INPT3: u16 = 0x3B;
pub const REG_INPT4: u16 = 0x3C;
pub const REG_INPT5: u16 = 0x3D;

/// Length of the horizontal blank, in colour clocks: the first visible
/// cycle of a scanline.
pub const HBLANK: u16 = 68;

/// Distance from a reset strobe to the object's origin.
pub const SPRITEOFFSET: u16 = 5;

/// The largest value a player's origin takes: that of a player reset on the
/// last cycle of a line.
pub const MAX_PLAYER_ORIGIN: u16 = 232;

/// The largest value any object's origin takes: that of a missile locked to
/// a player at the largest origin.
pub const MAX_ORIGIN: u16 = 242;

// ---------------------------------------------------------------------
// The playfield
// ---------------------------------------------------------------------

/// Bit `k` of the twenty playfield bits, counted from the left edge: the
/// upper nibble of PF0 from its low end, then PF1 from its high end, then
/// PF2 from its low end.
pub open spec fn playfield_bit(pf0: u8, pf1: u8, pf2: u8, k: int) -> bool {
    if k < 4 {
        bit_set(pf0, (4 + k) as u8)
    } else if k < 12 {
        bit_set(pf1, (11 - k) as u8)
    } else {
        bit_set(pf2, (k - 12) as u8)
    }
}

/// The playfield bit that covers visible column `x`. Each bit is four
/// columns wide. The right half repeats the left, or mirrors it.
pub open spec fn playfield_column(mirror: bool, x: int) -> int {
    if x < 80 {
        x / 4
    } else if mirror {
        19 - (x - 80) / 4
    } else {
        (x - 80) / 4
    }
}

/// The colour of the playfield at column `x`: its own, or in score mode
/// that of the player whose half it is.
pub open spec fn playfield_color(ctrlpf: u8, colupf: u8, colup0: u8, colup1: u8, x: int) -> u8 {
    if ctrlpf & 0x02 != 0 {
        if x < 80 {
            colup0
        } else {
            colup1
        }
    } else {
        colupf
    }
}

/// What the playfield shows at visible column `x`.
pub open spec fn playfield_pixel(registers: Seq<u8>, x: int) -> Option<u8> {
    let ctrlpf = registers[REG_CTRLPF as int];
    if playfield_bit(
        registers[REG_PF0 as int],
        registers[REG_PF1 as int],
        registers[REG_PF2 as int],
        playfield_column(ctrlpf & 0x01 != 0, x),
    ) {
        Some(
            playfield_color(
                ctrlpf,
                registers[REG_COLUPF as int],
                registers[REG_COLUP0 as int],
                registers[REG_COLUP1 as int],
                x,
            ),
        )
    } else {
        None
    }
}

// ---------------------------------------------------------------------
// Players, missiles and the ball
// ---------------------------------------------------------------------

/// Distance from an object's origin to its second copy, zero where there is
/// none.
pub open spec fn second_copy(nusiz: u8) -> int {
    let n = nusiz & 0x07;
    if n == 1 || n == 3 {
        16
    } else if n == 2 || n == 6 {
        40
    } else if n == 4 {
        72
    } else {
        0
    }
}

/// Distance from an object's origin to its third copy, zero where there is
/// none.
pub open spec fn third_copy(nusiz: u8) -> int {
    let n = nusiz & 0x07;
    if n == 3 {
        32
    } else if n == 6 {
        80
    } else {
        0
    }
}

/// Colour clocks per bit of a player's graphics.
pub open spec fn player_stretch(nusiz: u8) -> int {
    let n = nusiz & 0x07;
    if n == 5 {
        2
    } else if n == 7 {
        4
    } else {
        1
    }
}

/// Whether a player drawn from `origin` shows at `cycle`. Unreflected, the
/// high bit of the graphics comes first.
pub open spec fn player_shows(grp: u8, reflect: bool, stretch: int, origin: int, cycle: int) -> bool {
    let d = cycle - origin;
    0 <= d < 8 * stretch && bit_set(
        grp,
        if reflect {
            (d / stretch) as u8
        } else {
            (7 - d / stretch) as u8
        },
    )
}

/// What a player shows at `cycle`.
pub open spec fn player_pixel(grp: u8, nusiz: u8, refp: u8, color: u8, origin: int, cycle: int)
    -> Option<u8> {
    let reflect = refp & 0x08 != 0;
    let stretch = player_stretch(nusiz);
    if player_shows(grp, reflect, stretch, origin, cycle) || player_shows(
        grp,
        reflect,
        stretch,
        origin + second_copy(nusiz),
        cycle,
    ) || player_shows(grp, reflect, stretch, origin + third_copy(nusiz), cycle) {
        Some(color)
    } else {
        None
    }
}

/// The width that a two-bit size code stands for.
pub open spec fn width_of_code(code: u8) -> int {
    if code == 0 {
        1
    } else if code == 1 {
        2
    } else if code == 2 {
        4
    } else {
        8
    }
}

/// Whether `cycle` falls on the `width` clocks from `origin`.
pub open spec fn span_covers(origin: int, width: int, cycle: int) -> bool {
    origin <= cycle < origin + width
}

/// What a missile shows at `cycle`. It is drawn when enabled and not locked
/// to its player, as wide as bits 4 and 5 of NUSIZ say, in as many copies as
/// the player.
pub open spec fn missile_pixel(
    enam: u8,
    resmp: u8,
    nusiz: u8,
    color: u8,
    origin: int,
    cycle: int,
) -> Option<u8> {
    let width = width_of_code((nusiz & 0x30) >> 4);
    if enam & 0x02 != 0 && resmp & 0x02 == 0 && (span_covers(origin, width, cycle) || span_covers(
        origin + second_copy(nusiz),
        width,
        cycle,
    ) || span_covers(origin + third_copy(nusiz), width, cycle)) {
        Some(color)
    } else {
        None
    }
}

/// What the ball shows at `cycle`. Its width is in bits 4 and 5 of CTRLPF.
pub open spec fn ball_pixel(enabl: u8, ctrlpf: u8, colupf: u8, origin: int, cycle: int) -> Option<
    u8,
> {
    if enabl & 0x02 != 0 && span_covers(origin, width_of_code((ctrlpf & 0x30) >> 4), cycle) {
        Some(colupf)
    } else {
        None
    }
}

/// The offset from a player's origin at which its locked missile sits.
pub open spec fn locked_missile_offset(nusiz: u8) -> int {
    let n = nusiz & 0x07;
    if n == 5 {
        6
    } else if n == 7 {
        10
    } else {
        3
    }
}

// ---------------------------------------------------------------------
// Priority and collisions
// ---------------------------------------------------------------------

/// The nearer of two layers, where the nearer one shows anything.
pub open spec fn first_of(near: Option<u8>, far: Option<u8>) -> Option<u8> {
    if near.is_some() {
        near
    } else {
        far
    }
}

/// The colour that reaches the screen. Player 0 and its missile lie over
/// player 1 and its missile, these over ball and playfield; with
/// `pf_above`, ball and playfield lie over everything. Where nothing shows,
/// the background does.
pub open spec fn composite(
    pf_above: bool,
    p0: Option<u8>,
    m0: Option<u8>,
    p1: Option<u8>,
    m1: Option<u8>,
    ball: Option<u8>,
    playfield: Option<u8>,
    background: u8,
) -> u8 {
    let sprites_first = first_of(
        p0,
        first_of(m0, first_of(p1, first_of(m1, first_of(ball, playfield)))),
    );
    let shown = if pf_above {
        first_of(ball, first_of(playfield, sprites_first))
    } else {
        sprites_first
    };
    match shown {
        Some(color) => color,
        None => background,
    }
}

/// A collision register after a pixel: a bit that was set stays set, and
/// bits 7 and 6 are set where their pair of objects met.
pub open spec fn latched(register: u8, met_7: bool, met_6: bool) -> u8 {
    let with_7 = if met_7 {
        register | 0x80
    } else {
        register
    };
    if met_6 {
        with_7 | 0x40
    } else {
        with_7
    }
}

/// The register file after the collisions of one pixel have been latched.
pub open spec fn collided(
    registers: Seq<u8>,
    playfield: bool,
    p0: bool,
    p1: bool,
    m0: bool,
    m1: bool,
    ball: bool,
) -> Seq<u8> {
    registers.update(
        REG_CXM0P as int,
        latched(registers[REG_CXM0P as int], m0 && p1, m0 && p0),
    ).update(REG_CXM1P as int, latched(registers[REG_CXM1P as int], m1 && p0, m1 && p1)).update(
        REG_CXP0FB as int,
        latched(registers[REG_CXP0FB as int], p0 && playfield, p0 && ball),
    ).update(
        REG_CXP1FB as int,
        latched(registers[REG_CXP1FB as int], p1 && playfield, p1 && ball),
    ).update(
        REG_CXM0FB as int,
        latched(registers[REG_CXM0FB as int], m0 && playfield, m0 && ball),
    ).update(
        REG_CXM1FB as int,
        latched(registers[REG_CXM1FB as int], m1 && playfield, m1 && ball),
    ).update(REG_CXBLPF as int, latched(registers[REG_CXBLPF as int], ball && playfield, false))
        .update(REG_CXPPMM as int, latched(registers[REG_CXPPMM as int], p0 && p1, m0 && m1))
}

// ---------------------------------------------------------------------
// Horizontal motion
// ---------------------------------------------------------------------

/// The upper nibble of a motion register as a signed number, -8 to 7.
pub open spec fn signed_nibble(mov: u8) -> int {
    let high = mov as int / 16;
    if high >= 8 {
        high - 16
    } else {
        high
    }
}

/// An object's origin after a motion strobe: the motion is subtracted, and
/// an origin that leaves the visible range on one side comes back at the
/// other edge.
pub open spec fn moved(mov: u8, origin: u16, x_resolution: int) -> u16 {
    let target = origin as int - signed_nibble(mov);
    if target < 0 || target > HBLANK + x_resolution {
        HBLANK
    } else if target < HBLANK {
        (HBLANK + x_resolution) as u16
    } else {
        target as u16
    }
}

/// The leftmost origin that a reset strobe gives an object: three clocks
/// into the visible part of the line.
pub const MIN_STROBED: u16 = 71;

/// The origin that a reset strobe at `cycle` gives an object: five clocks
/// on, and never left of `MIN_STROBED`.
pub open spec fn strobed(cycle: u16) -> u16 {
    if cycle + SPRITEOFFSET < MIN_STROBED {
        MIN_STROBED
    } else {
        (cycle + SPRITEOFFSET) as u16
    }
}

// ---------------------------------------------------------------------
// The chip
// ---------------------------------------------------------------------

/// The state of the television interface adapter.
pub struct TiaState {
    pub console: ConsoleType,
    /// The 128 registers.
    pub registers: Seq<u8>,
    /// Colour clock within the scanline, 0 to 227.
    pub cycle: u16,
    pub scan_line: u16,
    /// The frame being drawn, three bytes a pixel, row by row.
    pub screen: Seq<u8>,
    /// The last frame completed.
    pub screen_display: Seq<u8>,
    /// Whether the processor is held until the line starts again.
    pub w_sync_set: bool,
    pub res_p0_cycle: u16,
    pub res_p1_cycle: u16,
    pub res_m0_cycle: u16,
    pub res_m1_cycle: u16,
    pub res_bl_cycle: u16,
    /// Graphics written to a vertically delayed player 0, waiting.
    pub grp_0_delay: u8,
    pub grp_1_delay: u8,
    pub enable_delay: u8,
}

impl TiaState {
    /// The last cycle of a scanline.
    pub open spec fn last_cycle(self) -> int {
        67 + x_resolution_of(self.console)
    }

    /// Bytes in a frame.
    pub open spec fn frame_bytes(self) -> int {
        x_resolution_of(self.console) * y_resolution_of(self.console) * 3
    }

    pub open spec fn wf(self) -> bool {
        &&& self.registers.len() == 128
        &&& self.cycle <= self.last_cycle()
        &&& self.screen.len() == self.frame_bytes()
        &&& self.screen_display.len() == self.frame_bytes()
        &&& self.res_p0_cycle <= MAX_PLAYER_ORIGIN
        &&& self.res_p1_cycle <= MAX_PLAYER_ORIGIN
        &&& self.res_m0_cycle <= MAX_ORIGIN
        &&& self.res_m1_cycle <= MAX_ORIGIN
        &&& self.res_bl_cycle <= MAX_ORIGIN
    }

    /// The register `location`.
    pub open spec fn reg(self, location: u16) -> u8 {
        self.registers[location as int]
    }

    /// The state with register `location` set to `byte`.
    pub open spec fn with_reg(self, location: u16, byte: u8) -> TiaState {
        TiaState { registers: self.registers.update(location as int, byte), ..self }
    }

    /// What a read of `location` gives: the collision and input ports at
    /// 0x30 to 0x3D, and the first of them for every other location.
    pub open spec fn read(self, location: u16) -> u8 {
        if location < 0x30 || location > 0x3D {
            self.reg(0x30)
        } else {
            self.reg(location)
        }
    }

    /// The state after the fire button of the left controller went down
    /// (`true`) or up: bit 7 of INPT4 is low while it is down.
    pub open spec fn left_controller_trigger(self, value: bool) -> TiaState {
        if value {
            self.with_reg(REG_INPT4, self.reg(REG_INPT4) & 0x7f)
        } else {
            self.with_reg(REG_INPT4, self.reg(REG_INPT4) | 0x80)
        }
    }

    /// Whether the beam is on a pixel of the frame.
    pub open spec fn visible(self) -> bool {
        let v_blank = v_blank_lines_of(self.console);
        &&& self.scan_line > 2 + v_blank
        &&& self.scan_line <= 2 + v_blank + y_resolution_of(self.console)
        &&& self.cycle > 67
    }

    /// Column of the beam in the frame.
    pub open spec fn screen_x(self) -> int {
        self.cycle - HBLANK
    }

    /// Row of the beam in the frame.
    pub open spec fn screen_y(self) -> int {
        self.scan_line - (3 + v_blank_lines_of(self.console))
    }

    pub open spec fn p0_pixel(self) -> Option<u8> {
        player_pixel(
            self.reg(REG_GRP0),
            self.reg(REG_NUSIZ0),
            self.reg(REG_REFP0),
            self.reg(REG_COLUP0),
            self.res_p0_cycle as int,
            self.cycle as int,
        )
    }

    pub open spec fn p1_pixel(self) -> Option<u8> {
        player_pixel(
            self.reg(REG_GRP1),
            self.reg(REG_NUSIZ1),
            self.reg(REG_REFP1),
            self.reg(REG_COLUP1),
            self.res_p1_cycle as int,
            self.cycle as int,
        )
    }

    pub open spec fn m0_pixel(self) -> Option<u8> {
        missile_pixel(
            self.reg(REG_ENAM0),
            self.reg(REG_RESMP0),
            self.reg(REG_NUSIZ0),
            self.reg(REG_COLUP0),
            self.res_m0_cycle as int,
            self.cycle as int,
        )
    }

    pub open spec fn m1_pixel(self) -> Option<u8> {
        missile_pixel(
            self.reg(REG_ENAM1),
            self.reg(REG_RESMP1),
            self.reg(REG_NUSIZ1),
            self.reg(REG_COLUP1),
            self.res_m1_cycle as int,
            self.cycle as int,
        )
    }

    pub open spec fn bl_pixel(self) -> Option<u8> {
        ball_pixel(
            self.reg(REG_ENABL),
            self.reg(REG_CTRLPF),
            self.reg(REG_COLUPF),
            self.res_bl_cycle as int,
            self.cycle as int,
        )
    }

    pub open spec fn pf_pixel(self) -> Option<u8> {
        playfield_pixel(self.registers, self.screen_x())
    }

    /// The colour register value shown under the beam.
    pub open spec fn pixel_color(self) -> u8 {
        composite(
            self.reg(REG_CTRLPF) & 0x04 != 0,
            self.p0_pixel(),
            self.m0_pixel(),
            self.p1_pixel(),
            self.m1_pixel(),
            self.bl_pixel(),
            self.pf_pixel(),
            self.reg(REG_COLUBK),
        )
    }

    /// Index in the frame of the first byte of the pixel under the beam.
    pub open spec fn pixel_index(self) -> int {
        (self.screen_y() * x_resolution_of(self.console) + self.screen_x()) * 3
    }

    /// The state after the pixel under the beam has been drawn and its
    /// collisions latched.
    pub open spec fn render_pixel(self) -> TiaState {
        let rgb = rgb_of(self.console, self.pixel_color() as int);
        let at = self.pixel_index();
        TiaState {
            screen: self.screen.update(at, rgb.0).update(at + 1, rgb.1).update(at + 2, rgb.2),
            registers: collided(
                self.registers,
                self.pf_pixel().is_some(),
                self.p0_pixel().is_some(),
                self.p1_pixel().is_some(),
                self.m0_pixel().is_some(),
                self.m1_pixel().is_some(),
                self.bl_pixel().is_some(),
            ),
            ..self
        }
    }

    /// The state with the beam moved on by one colour clock. After the last
    /// cycle of a line the next line starts; the line count wraps at 65536.
    pub open spec fn advanced(self) -> TiaState {
        if self.cycle + 1 > self.last_cycle() {
            TiaState {
                cycle: 0,
                scan_line: if self.scan_line == 0xffff {
                    0
                } else {
                    (self.scan_line + 1) as u16
                },
                ..self
            }
        } else {
            TiaState { cycle: (self.cycle + 1) as u16, ..self }
        }
    }

    /// The state with each missile that is locked to its player moved to
    /// that player.
    pub open spec fn missiles_locked(self) -> TiaState {
        let m0 = if self.reg(REG_RESMP0) & 0x02 != 0 {
            (self.res_p0_cycle + locked_missile_offset(self.reg(REG_NUSIZ0))) as u16
        } else {
            self.res_m0_cycle
        };
        let m1 = if self.reg(REG_RESMP1) & 0x02 != 0 {
            (self.res_p1_cycle + locked_missile_offset(self.reg(REG_NUSIZ1))) as u16
        } else {
            self.res_m1_cycle
        };
        TiaState { res_m0_cycle: m0, res_m1_cycle: m1, ..self }
    }

    /// The state one colour clock later: the beam moves on, draws the pixel
    /// it is on if that is part of the frame, locked missiles follow their
    /// players, and at cycle 3 the processor is released.
    #[verifier::opaque]
    pub open spec fn tick(self) -> TiaState {
        let moved = self.advanced();
        let drawn = if moved.visible() {
            moved.render_pixel()
        } else {
            moved
        };
        let locked = drawn.missiles_locked();
        TiaState {
            w_sync_set: if locked.cycle == 3 {
                false
            } else {
                locked.w_sync_set
            },
            ..locked
        }
    }

    /// Whether a frame has just been completed: the beam stands at the start
    /// of scanline 3.
    pub open spec fn frame_done(self) -> bool {
        self.cycle == 0 && self.scan_line == 3
    }

    /// The state after the check for a completed frame: where one is
    /// complete, it becomes the frame displayed.
    pub open spec fn repaint(self) -> TiaState {
        if self.frame_done() {
            TiaState { screen_display: self.screen, ..self }
        } else {
            self
        }
    }

    /// The state after a motion strobe: each object moves by its own motion
    /// register.
    pub open spec fn apply_movement(self) -> TiaState {
        let x = x_resolution_of(self.console);
        TiaState {
            res_p0_cycle: moved(self.reg(REG_HMP0), self.res_p0_cycle, x),
            res_p1_cycle: moved(self.reg(REG_HMP1), self.res_p1_cycle, x),
            res_m0_cycle: moved(self.reg(REG_HMM0), self.res_m0_cycle, x),
            res_m1_cycle: moved(self.reg(REG_HMM1), self.res_m1_cycle, x),
            res_bl_cycle: moved(self.reg(REG_HMBL), self.res_bl_cycle, x),
            ..self
        }
    }

    /// The state with all five motion registers zero.
    pub open spec fn clear_move_registers(self) -> TiaState {
        TiaState {
            registers: self.registers.update(REG_HMP0 as int, 0).update(REG_HMP1 as int, 0).update(
                REG_HMM0 as int,
                0,
            ).update(REG_HMM1 as int, 0).update(REG_HMBL as int, 0),
            ..self
        }
    }

    /// The state with all eight collision registers zero.
    pub open spec fn clear_collisions(self) -> TiaState {
        TiaState {
            registers: self.registers.update(REG_CXM0P as int, 0).update(REG_CXM1P as int, 0).update(
                REG_CXP0FB as int,
                0,
            ).update(REG_CXP1FB as int, 0).update(REG_CXM0FB as int, 0).update(
                REG_CXM1FB as int,
                0,
            ).update(REG_CXBLPF as int, 0).update(REG_CXPPMM as int, 0),
            ..self
        }
    }

    /// The state after a write to GRP0. A vertically delayed player 0 keeps
    /// the byte waiting; the write releases what player 1 kept waiting.
    pub open spec fn write_grp0(self, byte: u8) -> TiaState {
        let own = if self.reg(REG_VDELP0) & 0x01 != 0 {
            TiaState { grp_0_delay: byte, ..self }
        } else {
            self.with_reg(REG_GRP0, byte)
        };
        if own.reg(REG_VDELP1) & 0x01 != 0 {
            TiaState { grp_1_delay: 0, ..own.with_reg(REG_GRP1, own.grp_1_delay) }
        } else {
            own
        }
    }

    /// The state after a write to GRP1. A vertically delayed player 1 keeps
    /// the byte waiting; the write releases what player 0 and the ball kept
    /// waiting.
    pub open spec fn write_grp1(self, byte: u8) -> TiaState {
        let own = if self.reg(REG_VDELP1) & 0x01 != 0 {
            TiaState { grp_1_delay: byte, ..self }
        } else {
            self.with_reg(REG_GRP1, byte)
        };
        let other = if own.reg(REG_VDELP0) & 0x01 != 0 {
            TiaState { grp_0_delay: 0, ..own.with_reg(REG_GRP0, own.grp_0_delay) }
        } else {
            own
        };
        if other.reg(REG_VDELBL) & 0x01 != 0 {
            TiaState { enable_delay: 0, ..other.with_reg(REG_ENABL, other.enable_delay) }
        } else {
            other
        }
    }

    /// The state after a write to ENABL, which a vertically delayed ball
    /// keeps waiting.
    pub open spec fn write_enabl(self, byte: u8) -> TiaState {
        if self.reg(REG_VDELBL) & 0x01 != 0 {
            TiaState { enable_delay: byte, ..self }
        } else {
            self.with_reg(REG_ENABL, byte)
        }
    }

    /// The state after a write to VSYNC. When bit 1 falls, the frame starts:
    /// the line count becomes 2 and vertical blank is switched on.
    pub open spec fn write_vsync(self, byte: u8) -> TiaState {
        let started = if byte & 0x02 == 0 && self.reg(REG_VSYNC) & 0x02 != 0 {
            TiaState { scan_line: 2, ..self.with_reg(REG_VBLANK, self.reg(REG_VBLANK) | 0x02) }
        } else {
            self
        };
        started.with_reg(REG_VSYNC, byte)
    }

    /// The state after a write to VBLANK. When bit 1 falls later than line
    /// 30, the picture starts on the next line.
    pub open spec fn write_vblank(self, byte: u8) -> TiaState {
        let started = if byte & 0x02 == 0 && self.reg(REG_VBLANK) & 0x02 != 0 && self.scan_line
            > 30 {
            TiaState { scan_line: (2 + v_blank_lines_of(self.console)) as u16, ..self }
        } else {
            self
        };
        started.with_reg(REG_VBLANK, byte)
    }

    /// The state after `byte` was written to `location`. Locations above
    /// 0x2C take no write. A strobe acts whatever the byte; every other
    /// register keeps the byte.
    #[verifier::opaque]
    pub open spec fn write(self, location: u16, byte: u8) -> TiaState {
        if location > 0x2C {
            self
        } else if location == REG_GRP0 {
            self.write_grp0(byte)
        } else if location == REG_GRP1 {
            self.write_grp1(byte)
        } else if location == REG_ENABL {
            self.write_enabl(byte)
        } else if location == REG_VSYNC {
            self.write_vsync(byte)
        } else if location == REG_VBLANK {
            self.write_vblank(byte)
        } else if location == REG_WSYNC {
            TiaState { w_sync_set: true, ..self }
        } else if location == REG_RSYNC {
            TiaState { cycle: 0, ..self }
        } else if location == REG_RESP0 {
            TiaState { res_p0_cycle: strobed(self.cycle), ..self }
        } else if location == REG_RESP1 {
            TiaState { res_p1_cycle: strobed(self.cycle), ..self }
        } else if location == REG_RESM0 {
            TiaState { res_m0_cycle: strobed(self.cycle), ..self }
        } else if location == REG_RESM1 {
            TiaState { res_m1_cycle: strobed(self.cycle), ..self }
        } else if location == REG_RESBL {
            TiaState { res_bl_cycle: strobed(self.cycle), ..self }
        } else if location == REG_HMOVE {
            self.apply_movement()
        } else if location == REG_HMCLR {
            self.clear_move_registers()
        } else if location == REG_CXCLR {
            self.clear_collisions()
        } else {
            self.with_reg(location, byte)
        }
    }

    /// The registers after a reset: all zero, but the six input ports, whose
    /// lines rest high.
    pub open spec fn reset_registers() -> Seq<u8> {
        Seq::new(
            128,
            |i: int|
                if REG_INPT0 <= i <= REG_INPT5 {
                    255u8
                } else {
                    0u8
                },
        )
    }

    /// The state after a reset: the beam at the start of line 0, the
    /// processor released, both players at the left edge, the registers as
    /// `reset_registers` says.
    pub open spec fn reset(self) -> TiaState {
        TiaState {
            cycle: 0,
            scan_line: 0,
            w_sync_set: false,
            res_p0_cycle: 0,
            res_p1_cycle: 0,
            registers: Self::reset_registers(),
            ..self
        }
    }

    /// The state of a chip fresh from the factory: everything zero.
    pub open spec fn initial(console: ConsoleType) -> TiaState {
        TiaState {
            console,
            registers: Seq::new(128, |i: int| 0u8),
            cycle: 0,
            scan_line: 0,
            screen: Seq::new(
                (x_resolution_of(console) * y_resolution_of(console) * 3) as nat,
                |i: int| 0u8,
            ),
            screen_display: Seq::new(
                (x_resolution_of(console) * y_resolution_of(console) * 3) as nat,
                |i: int| 0u8,
            ),
            w_sync_set: false,
            res_p0_cycle: 0,
            res_p1_cycle: 0,
            res_m0_cycle: 0,
            res_m1_cycle: 0,
            res_bl_cycle: 0,
            grp_0_delay: 0,
            grp_1_delay: 0,
            enable_delay: 0,
        }
    }
}

} // verus!
