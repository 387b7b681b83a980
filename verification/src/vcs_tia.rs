use vstd::prelude::*;
use crate::base_memory::BaseMemory;
use crate::bits::{bit_set, lemma_reversed_bit, reversed, test_bit};
use crate::memory_ram::MemoryRam;
use crate::vcs_console_type::{
    VcsConsoleType,
    v_blank_lines_of,
    x_resolution_of,
    y_resolution_of,
};
use crate::vcs_palette::VcsPalette;
use crate::vcs_tia_model::{
    HBLANK,
    MAX_ORIGIN,
    MIN_STROBED,
    REG_AUDC0,
    REG_AUDC1,
    REG_AUDF0,
    REG_AUDF1,
    REG_AUDV0,
    REG_AUDV1,
    REG_COLUBK,
    REG_COLUP0,
    REG_COLUP1,
    REG_COLUPF,
    REG_CTRLPF,
    REG_CXBLPF,
    REG_CXCLR,
    REG_CXM0FB,
    REG_CXM0P,
    REG_CXM1FB,
    REG_CXM1P,
    REG_CXP0FB,
    REG_CXP1FB,
    REG_CXPPMM,
    REG_ENABL,
    REG_ENAM0,
    REG_ENAM1,
    REG_GRP0,
    REG_GRP1,
    REG_HMBL,
    REG_HMCLR,
    REG_HMM0,
    REG_HMM1,
    REG_HMOVE,
    REG_HMP0,
    REG_HMP1,
    REG_INPT0,
    REG_INPT1,
    REG_INPT2,
    REG_INPT3,
    REG_INPT4,
    REG_INPT5,
    REG_NUSIZ0,
    REG_NUSIZ1,
    REG_PF0,
    REG_PF1,
    REG_PF2,
    REG_REFP0,
    REG_REFP1,
    REG_RESBL,
    REG_RESM0,
    REG_RESM1,
    REG_RESMP0,
    REG_RESMP1,
    REG_RESP0,
    REG_RESP1,
    REG_RSYNC,
    REG_VBLANK,
    REG_VDELBL,
    REG_VDELP0,
    REG_VDELP1,
    REG_VSYNC,
    REG_WSYNC,
    SPRITEOFFSET,
    TiaState,
    ball_pixel,
    collided,
    latched,
    missile_pixel,
    moved,
    player_pixel,
    player_shows,
    player_stretch,
    playfield_pixel,
    second_copy,
    span_covers,
    strobed,
    third_copy,
    width_of_code,
};

verus! {

const CLOSE: u16 = 16;

const MEDIUM: u16 = 40;

const WIDE: u16 = 72;

/// The television interface adapter: it draws the picture one colour clock
/// at a time from its registers, without a frame buffer of its own on the
/// real chip; here the pixels drawn are collected into a frame.
pub struct VcsTia {
    registers: MemoryRam,
    cycle: u16,
    scan_line: u16,
    screen: Vec<u8>,
    screen_display: Vec<u8>,
    vcs_palette: VcsPalette,
    w_sync_set: bool,
    res_p0_cycle: u16,
    res_p1_cycle: u16,
    res_m0_cycle: u16,
    res_m1_cycle: u16,
    res_bl_cycle: u16,
    grp_0_delay: u8,
    grp_1_delay: u8,
    enable_delay: u8,
    v_blank: u8,
    x_resolution: u8,
    y_resolution: u8,
}

impl View for VcsTia {
    type V = TiaState;

    closed spec fn view(&self) -> TiaState {
        TiaState {
            console: self.vcs_palette@,
            registers: self.registers.contents(),
            cycle: self.cycle,
            scan_line: self.scan_line,
            screen: self.screen@,
            screen_display: self.screen_display@,
            w_sync_set: self.w_sync_set,
            res_p0_cycle: self.res_p0_cycle,
            res_p1_cycle: self.res_p1_cycle,
            res_m0_cycle: self.res_m0_cycle,
            res_m1_cycle: self.res_m1_cycle,
            res_bl_cycle: self.res_bl_cycle,
            grp_0_delay: self.grp_0_delay,
            grp_1_delay: self.grp_1_delay,
            enable_delay: self.enable_delay,
        }
    }
}

/// Whether a copy of a player whose graphics, already in drawing order, are
/// `sprite` shows at `cycle`.
spec fn copy_shows(sprite: u8, stretch: int, origin: int, cycle: int) -> bool {
    let d = cycle - origin;
    0 <= d < 8 * stretch && bit_set(sprite, (d / stretch) as u8)
}

/// Drawing a player from its reversed graphics, low bit first, is drawing it
/// from its graphics, high bit first.
proof fn lemma_copy_shows(grp: u8, reflect: bool, stretch: int, origin: int, cycle: int)
    requires
        stretch == 1 || stretch == 2 || stretch == 4,
    ensures
        copy_shows(
            if reflect {
                grp
            } else {
                reversed(grp)
            },
            stretch,
            origin,
            cycle,
        ) == player_shows(grp, reflect, stretch, origin, cycle),
{
    let d = cycle - origin;
    if 0 <= d < 8 * stretch && !reflect {
        let s = d / stretch;
        assert(0 <= s < 8);
        lemma_reversed_bit(grp, s as u8);
    }
}

/// Whether a copy drawn from `origin` shows at `cycle`.
fn copy_visible(sprite: u8, stretch: u16, origin: u16, cycle: u16) -> (shows: bool)
    requires
        stretch == 1 || stretch == 2 || stretch == 4,
    ensures
        shows == copy_shows(sprite, stretch as int, origin as int, cycle as int),
{
    if cycle < origin {
        return false;
    }
    let shift: u16 = (cycle - origin) / stretch;
    if shift < 8 {
        test_bit(sprite, shift as u8)
    } else {
        false
    }
}

/// Whether `cycle` falls on the `width` clocks from `origin`.
fn covers(origin: u16, width: u16, cycle: u16) -> (inside: bool)
    requires
        origin <= 1000,
        width <= 8,
    ensures
        inside == span_covers(origin as int, width as int, cycle as int),
{
    origin <= cycle && origin + width > cycle
}

/// The width that a two-bit size code stands for.
fn width_for(code: u8) -> (width: u16)
    ensures
        width == width_of_code(code),
        width <= 8,
{
    match code {
        0 => 1,
        1 => 2,
        2 => 4,
        _ => 8,
    }
}

/// Distance to an object's second copy.
fn second_copy_of(size: u8) -> (distance: u16)
    ensures
        distance == second_copy(size),
        distance <= 80,
{
    let n: u8 = size & 0x07;
    if n == 1 || n == 3 {
        CLOSE
    } else if n == 2 || n == 6 {
        MEDIUM
    } else if n == 4 {
        WIDE
    } else {
        0
    }
}

/// Distance to an object's third copy.
fn third_copy_of(size: u8) -> (distance: u16)
    ensures
        distance == third_copy(size),
        distance <= 80,
{
    let n: u8 = size & 0x07;
    if n == 3 {
        CLOSE + CLOSE
    } else if n == 6 {
        MEDIUM + MEDIUM
    } else {
        0
    }
}

/// An object's origin after a motion strobe.
fn move_object(mov: u8, object_cycle: u16, x_resolution: u8) -> (origin: u16)
    requires
        object_cycle <= MAX_ORIGIN,
    ensures
        origin == moved(mov, object_cycle, x_resolution as int),
        HBLANK <= origin <= HBLANK + x_resolution,
{
    let high: i32 = (mov / 16) as i32;
    let move_value: i32 = if high >= 8 {
        high - 16
    } else {
        high
    };
    let target: i32 = object_cycle as i32 - move_value;
    let right_edge: i32 = 68 + x_resolution as i32;
    if target < 0 || target > right_edge {
        68
    } else if target < 68 {
        right_edge as u16
    } else {
        target as u16
    }
}

/// The origin that a reset strobe gives an object.
fn strobe(cycle: u16) -> (origin: u16)
    requires
        cycle <= 227,
    ensures
        origin == strobed(cycle),
        origin <= 232,
{
    let origin: u16 = cycle + SPRITEOFFSET;
    if origin < MIN_STROBED {
        MIN_STROBED
    } else {
        origin
    }
}

/// A collision register after a pixel.
fn latch(register: u8, met_7: bool, met_6: bool) -> (after: u8)
    ensures
        after == latched(register, met_7, met_6),
{
    let mut collision: u8 = register;
    if met_7 {
        collision |= 0x80;
    }
    if met_6 {
        collision |= 0x40;
    }
    collision
}

impl VcsTia {
    /// Whether the chip is in a state that its own operations lead to: its
    /// state is, and what it keeps beside the state fits it.
    pub open spec fn wf(&self) -> bool {
        &&& self@.wf()
        &&& self.fits_standard()
    }

    /// Whether the colour table and the geometry that the chip keeps are
    /// those of its television standard.
    pub closed spec fn fits_standard(&self) -> bool {
        &&& self.vcs_palette.wf()
        &&& self.v_blank == v_blank_lines_of(self@.console)
        &&& self.x_resolution == x_resolution_of(self@.console)
        &&& self.y_resolution == y_resolution_of(self@.console)
    }

    /// A chip for the given television standard, all registers zero.
    pub fn new(console_type: &VcsConsoleType) -> (tia: VcsTia)
        ensures
            tia.wf(),
            tia@ == TiaState::initial(console_type@),
    {
        let v_blank: u8 = console_type.get_v_blank_lines();
        let x_resolution: u8 = console_type.get_x_resolution() as u8;
        let y_resolution: u8 = console_type.get_y_resolution() as u8;
        let frame_bytes: usize = x_resolution as usize * y_resolution as usize * 3;
        let tia = VcsTia {
            registers: MemoryRam::new("TIA Registers".to_owned(), 0x80),
            cycle: 0,
            scan_line: 0,
            screen: vec![0u8; frame_bytes],
            screen_display: vec![0u8; frame_bytes],
            vcs_palette: VcsPalette::new(console_type.get_console_type()),
            w_sync_set: false,
            res_p0_cycle: 0,
            res_p1_cycle: 0,
            res_m0_cycle: 0,
            res_m1_cycle: 0,
            res_bl_cycle: 0,
            grp_0_delay: 0,
            grp_1_delay: 0,
            enable_delay: 0,
            v_blank,
            x_resolution,
            y_resolution,
        };
        proof {
            let model = TiaState::initial(console_type@);
            assert(tia@.registers =~= model.registers);
            assert(tia@.screen =~= model.screen);
            assert(tia@.screen_display =~= model.screen_display);
        }
        tia
    }

    /// The last frame completed, three bytes a pixel, row by row.
    pub fn get_screen(&self) -> (frame: Vec<u8>)
        ensures
            frame@ == self@.screen_display,
            self.wf() ==> frame@.len() == x_resolution_of(self@.console) * y_resolution_of(
                self@.console,
            ) * 3,
    {
        self.screen_display.clone()
    }

    /// Records the fire button of the left controller going down (`true`)
    /// or up.
    pub fn left_controller_trigger(&mut self, value: bool)
        requires
            old(self).wf(),
        ensures
            final(self).wf(),
            final(self)@ == old(self)@.left_controller_trigger(value),
    {
        let mut reg_input_4: u8 = self.reg(REG_INPT4);
        if value {
            reg_input_4 &= 0x7f;
        } else {
            reg_input_4 |= 0x80;
        }
        self.set_reg(REG_INPT4, reg_input_4);
    }

    fn reg(&self, location: u16) -> (byte: u8)
        requires
            self.wf(),
            location < 128,
        ensures
            byte == self@.reg(location),
    {
        self.registers.read(location)
    }

    fn set_reg(&mut self, location: u16, byte: u8)
        requires
            old(self).wf(),
            location < 128,
        ensures
            final(self).wf(),
            final(self)@ == old(self)@.with_reg(location, byte),
    {
        let _ = self.registers.write(location, byte);
    }

    /// What the processor reads at `location`.
    pub fn read(&self, location: u16) -> (byte: u8)
        requires
            self.wf(),
        ensures
            byte == self@.read(location),
    {
        if location < 0x30 || location > 0x3D {
            return self.reg(0x30);
        }
        self.reg(location)
    }

    /// Takes a write of the processor to `location`.
    pub fn write(&mut self, location: u16, byte: u8)
        requires
            old(self).wf(),
        ensures
            final(self).wf(),
            final(self)@ == old(self)@.write(location, byte),
    {
        reveal(TiaState::write);
        if location > 0x2C {
            return ;
        }
        if location == REG_GRP0 {
            if (self.reg(REG_VDELP0) & 0x01) > 0 {
                self.grp_0_delay = byte;
            } else {
                self.set_reg(REG_GRP0, byte);
            }
            if (self.reg(REG_VDELP1) & 0x01) > 0 {
                self.set_reg(REG_GRP1, self.grp_1_delay);
                self.grp_1_delay = 0;
            }
        } else if location == REG_GRP1 {
            if (self.reg(REG_VDELP1) & 0x01) > 0 {
                self.grp_1_delay = byte;
            } else {
                self.set_reg(REG_GRP1, byte);
            }
            if (self.reg(REG_VDELP0) & 0x01) > 0 {
                self.set_reg(REG_GRP0, self.grp_0_delay);
                self.grp_0_delay = 0;
            }
            if (self.reg(REG_VDELBL) & 0x01) > 0 {
                self.set_reg(REG_ENABL, self.enable_delay);
                self.enable_delay = 0;
            }
        } else if location == REG_ENABL {
            if (self.reg(REG_VDELBL) & 0x01) > 0 {
                self.enable_delay = byte;
            } else {
                self.set_reg(REG_ENABL, byte);
            }
        } else if location == REG_VSYNC {
            if (byte & 0x02 == 0) && (self.reg(REG_VSYNC) & 0x02) > 0 {
                self.scan_line = 2;
                let v_blank: u8 = self.reg(REG_VBLANK);
                self.set_reg(REG_VBLANK, v_blank | 0x02);
            }
            self.set_reg(REG_VSYNC, byte);
        } else if location == REG_VBLANK {
            if (byte & 0x02) == 0 && (self.reg(REG_VBLANK) & 0x02 > 0) && self.scan_line > 30 {
                self.scan_line = 2 + self.v_blank as u16;
            }
            self.set_reg(REG_VBLANK, byte);
        } else if location == REG_WSYNC {
            self.w_sync_set = true;
        } else if location == REG_RSYNC {
            self.cycle = 0;
        } else if location == REG_RESP0 {
            self.res_p0_cycle = strobe(self.cycle);
        } else if location == REG_RESP1 {
            self.res_p1_cycle = strobe(self.cycle);
        } else if location == REG_RESM0 {
            self.res_m0_cycle = strobe(self.cycle);
        } else if location == REG_RESM1 {
            self.res_m1_cycle = strobe(self.cycle);
        } else if location == REG_RESBL {
            self.res_bl_cycle = strobe(self.cycle);
        } else if location == REG_HMOVE {
            self.apply_movement();
        } else if location == REG_HMCLR {
            self.clear_move_registers();
        } else if location == REG_CXCLR {
            self.set_reg(REG_CXM0P, 0);
            self.set_reg(REG_CXM1P, 0);
            self.set_reg(REG_CXP0FB, 0);
            self.set_reg(REG_CXP1FB, 0);
            self.set_reg(REG_CXM0FB, 0);
            self.set_reg(REG_CXM1FB, 0);
            self.set_reg(REG_CXBLPF, 0);
            self.set_reg(REG_CXPPMM, 0);
        } else {
            self.set_reg(location, byte);
        }
    }

    /// Puts the chip into the state in which the console starts.
    pub fn reset(&mut self)
        requires
            old(self).wf(),
        ensures
            final(self).wf(),
            final(self)@ == old(self)@.reset(),
    {
        self.cycle = 0;
        self.scan_line = 0;
        self.w_sync_set = false;
        self.res_p0_cycle = 0;
        self.res_p1_cycle = 0;
        let ghost start = self@;
        let mut i: u16 = 0;
        while i < 0x80
            invariant
                i <= 0x80,
                self.wf(),
                self@ == (TiaState { registers: self@.registers, ..start }),
                forall|j: int| 0 <= j < i ==> self@.registers[j] == 0,
            decreases 0x80 - i,
        {
            self.set_reg(i, 0);
            i += 1;
        }
        self.set_reg(REG_INPT0, 255);
        self.set_reg(REG_INPT1, 255);
        self.set_reg(REG_INPT2, 255);
        self.set_reg(REG_INPT3, 255);
        self.set_reg(REG_INPT4, 255);
        self.set_reg(REG_INPT5, 255);
        self.set_reg(REG_AUDC0, 0);
        self.set_reg(REG_AUDC1, 0);
        self.set_reg(REG_AUDF0, 0);
        self.set_reg(REG_AUDF1, 0);
        self.set_reg(REG_AUDV0, 0);
        self.set_reg(REG_AUDV1, 0);
        assert(self@.registers =~= TiaState::reset_registers());
    }

    /// Runs the chip for one colour clock.
    pub fn execute_tick(&mut self)
        requires
            old(self).wf(),
        ensures
            final(self).wf(),
            final(self)@ == old(self)@.tick(),
    {
        reveal(TiaState::tick);
        self.cycle += 1;
        if self.cycle > 67 + self.x_resolution as u16 {
            self.cycle = 0;
            self.scan_line = if self.scan_line == 0xffff {
                0
            } else {
                self.scan_line + 1
            };
        }
        assert(self@ == old(self)@.advanced());
        if (self.scan_line > (2 + self.v_blank as u16)) && (self.scan_line <= (2
            + self.v_blank as u16 + self.y_resolution as u16)) && (self.cycle > 67) {
            self.render_pixel();
        }
        if self.reg(REG_RESMP0) & 0x02 > 0 {
            let size: u8 = self.reg(REG_NUSIZ0);
            self.res_m0_cycle = self.res_p0_cycle;
            if size & 0x07 == 5 {
                self.res_m0_cycle += 6;
            } else if size & 0x07 == 7 {
                self.res_m0_cycle += 10;
            } else {
                self.res_m0_cycle += 3;
            }
        }
        if self.reg(REG_RESMP1) & 0x02 > 0 {
            let size: u8 = self.reg(REG_NUSIZ1);
            self.res_m1_cycle = self.res_p1_cycle;
            if size & 0x07 == 5 {
                self.res_m1_cycle += 6;
            } else if size & 0x07 == 7 {
                self.res_m1_cycle += 10;
            } else {
                self.res_m1_cycle += 3;
            }
        }
        if self.cycle == 3 {
            self.w_sync_set = false;
        }
    }

    /// Checks whether a frame has just been completed, and if so makes it
    /// the frame displayed.
    pub fn repaint(&mut self) -> (done: bool)
        requires
            old(self).wf(),
        ensures
            final(self).wf(),
            done == old(self)@.frame_done(),
            final(self)@ == old(self)@.repaint(),
    {
        if self.cycle == 0 && self.scan_line == 3 {
            self.screen_display = self.screen.clone();
        }
        self.cycle == 0 && self.scan_line == 3
    }

    fn apply_movement(&mut self)
        requires
            old(self).wf(),
        ensures
            final(self).wf(),
            final(self)@ == old(self)@.apply_movement(),
    {
        self.res_p0_cycle = move_object(self.reg(REG_HMP0), self.res_p0_cycle, self.x_resolution);
        self.res_p1_cycle = move_object(self.reg(REG_HMP1), self.res_p1_cycle, self.x_resolution);
        self.res_m0_cycle = move_object(self.reg(REG_HMM0), self.res_m0_cycle, self.x_resolution);
        self.res_m1_cycle = move_object(self.reg(REG_HMM1), self.res_m1_cycle, self.x_resolution);
        self.res_bl_cycle = move_object(self.reg(REG_HMBL), self.res_bl_cycle, self.x_resolution);
    }

    fn clear_move_registers(&mut self)
        requires
            old(self).wf(),
        ensures
            final(self).wf(),
            final(self)@ == old(self)@.clear_move_registers(),
    {
        self.set_reg(REG_HMP0, 0);
        self.set_reg(REG_HMP1, 0);
        self.set_reg(REG_HMM0, 0);
        self.set_reg(REG_HMM1, 0);
        self.set_reg(REG_HMBL, 0);
    }

    /// What a player with the given graphics, size, reflection, colour and
    /// origin shows under the beam.
    pub fn get_player_pixel(
        &self,
        graphics_player: u8,
        player_size: u8,
        reflect_player: u8,
        color: u8,
        player_cycle: u16,
    ) -> (pixel: Option<u8>)
        requires
            self.wf(),
            player_cycle <= MAX_ORIGIN,
        ensures
            pixel == player_pixel(
                graphics_player,
                player_size,
                reflect_player,
                color,
                player_cycle as int,
                self@.cycle as int,
            ),
    {
        let mut sprite_data: u8 = graphics_player;
        if (reflect_player & 0x08) == 0 {
            sprite_data = Self::reverse_bits(sprite_data);
        }
        let position2_cycle: u16 = player_cycle + second_copy_of(player_size);
        let position3_cycle: u16 = player_cycle + third_copy_of(player_size);
        let mut size_multiple: u16 = 1;
        if (player_size & 0x07) == 5 {
            size_multiple = 2;
        } else if (player_size & 0x07) == 7 {
            size_multiple = 4;
        }
        proof {
            let reflect = reflect_player & 0x08 != 0;
            let stretch = player_stretch(player_size);
            let cycle = self@.cycle as int;
            lemma_copy_shows(graphics_player, reflect, stretch, player_cycle as int, cycle);
            lemma_copy_shows(graphics_player, reflect, stretch, position2_cycle as int, cycle);
            lemma_copy_shows(graphics_player, reflect, stretch, position3_cycle as int, cycle);
        }
        if copy_visible(sprite_data, size_multiple, player_cycle, self.cycle) {
            return Some(color);
        }
        if copy_visible(sprite_data, size_multiple, position2_cycle, self.cycle) {
            return Some(color);
        }
        if copy_visible(sprite_data, size_multiple, position3_cycle, self.cycle) {
            return Some(color);
        }
        None
    }

    /// What the playfield shows under the beam.
    pub fn get_playfield_pixel(&self) -> (pixel: Option<u8>)
        requires
            self.wf(),
            self@.cycle >= HBLANK,
        ensures
            pixel == self@.pf_pixel(),
    {
        let screen_x: u16 = self.cycle - 68;
        let control_playfield: u8 = self.reg(REG_CTRLPF);
        let mut playfield_color: u8 = self.reg(REG_COLUPF);
        if (control_playfield & 0x02) > 0 {
            if screen_x < 80 {
                playfield_color = self.reg(REG_COLUP0);
            } else {
                playfield_color = self.reg(REG_COLUP1);
            }
        }
        let lit: bool;
        if screen_x < 16 {
            lit = test_bit(self.reg(REG_PF0), (4 + (screen_x / 4)) as u8);
        } else if screen_x < 48 {
            lit = test_bit(self.reg(REG_PF1), (7 - ((screen_x - 16) / 4)) as u8);
        } else if screen_x < 80 {
            lit = test_bit(self.reg(REG_PF2), ((screen_x - 48) / 4) as u8);
        } else if control_playfield & 0x01 > 0 {
            if screen_x < 112 {
                lit = test_bit(self.reg(REG_PF2), (7 - ((screen_x - 80) / 4)) as u8);
            } else if screen_x < 144 {
                lit = test_bit(self.reg(REG_PF1), ((screen_x - 112) / 4) as u8);
            } else {
                lit = test_bit(self.reg(REG_PF0), (7 - ((screen_x - 144) / 4)) as u8);
            }
        } else {
            if screen_x < 96 {
                lit = test_bit(self.reg(REG_PF0), (4 + ((screen_x - 80) / 4)) as u8);
            } else if screen_x < 128 {
                lit = test_bit(self.reg(REG_PF1), (7 - ((screen_x - 96) / 4)) as u8);
            } else {
                lit = test_bit(self.reg(REG_PF2), ((screen_x - 128) / 4) as u8);
            }
        }
        if lit {
            Some(playfield_color)
        } else {
            None
        }
    }

    /// What a missile with the given enable, lock, size, colour and origin
    /// shows under the beam.
    pub fn get_missle_pixel(
        &self,
        enable: u8,
        missle_reset: u8,
        missle_size: u8,
        missle_color: u8,
        missle_cycle: u16,
    ) -> (pixel: Option<u8>)
        requires
            self.wf(),
            missle_cycle <= MAX_ORIGIN,
        ensures
            pixel == missile_pixel(
                enable,
                missle_reset,
                missle_size,
                missle_color,
                missle_cycle as int,
                self@.cycle as int,
            ),
    {
        let mut result: Option<u8> = None;
        if (enable & 0x02) > 0 && (missle_reset & 0x02) == 0 {
            let position_2_cycle: u16 = missle_cycle + second_copy_of(missle_size);
            let position_3_cycle: u16 = missle_cycle + third_copy_of(missle_size);
            let size: u16 = width_for((missle_size & 0x30) >> 4);
            if covers(missle_cycle, size, self.cycle) {
                result = Some(missle_color);
            }
            if covers(position_2_cycle, size, self.cycle) {
                result = Some(missle_color);
            }
            if covers(position_3_cycle, size, self.cycle) {
                result = Some(missle_color);
            }
        }
        result
    }

    /// What the ball shows under the beam.
    pub fn get_ball_pixel(&self) -> (pixel: Option<u8>)
        requires
            self.wf(),
        ensures
            pixel == self@.bl_pixel(),
    {
        let mut result: Option<u8> = None;
        if self.reg(REG_ENABL) & 0x02 > 0 {
            let size: u16 = width_for((self.reg(REG_CTRLPF) & 0x30) >> 4);
            if covers(self.res_bl_cycle, size, self.cycle) {
                result = Some(self.reg(REG_COLUPF));
            }
        }
        result
    }

    /// Draws the pixel under the beam into the frame and latches its
    /// collisions.
    pub fn render_pixel(&mut self)
        requires
            old(self).wf(),
            old(self)@.visible(),
        ensures
            final(self).wf(),
            final(self)@ == old(self)@.render_pixel(),
    {
        let screen_x: u16 = self.cycle - 68;
        let screen_y: u16 = self.scan_line - (3 + self.v_blank as u16);
        let background: u8 = self.reg(REG_COLUBK);
        let playfield_pixel: Option<u8> = self.get_playfield_pixel();
        let pf_above: bool = self.reg(REG_CTRLPF) & 0x04 > 0;
        let p0_pixel: Option<u8> = self.get_player_pixel(
            self.reg(REG_GRP0),
            self.reg(REG_NUSIZ0),
            self.reg(REG_REFP0),
            self.reg(REG_COLUP0),
            self.res_p0_cycle,
        );
        let p1_pixel: Option<u8> = self.get_player_pixel(
            self.reg(REG_GRP1),
            self.reg(REG_NUSIZ1),
            self.reg(REG_REFP1),
            self.reg(REG_COLUP1),
            self.res_p1_cycle,
        );
        let m0_pixel: Option<u8> = self.get_missle_pixel(
            self.reg(REG_ENAM0),
            self.reg(REG_RESMP0),
            self.reg(REG_NUSIZ0),
            self.reg(REG_COLUP0),
            self.res_m0_cycle,
        );
        let m1_pixel: Option<u8> = self.get_missle_pixel(
            self.reg(REG_ENAM1),
            self.reg(REG_RESMP1),
            self.reg(REG_NUSIZ1),
            self.reg(REG_COLUP1),
            self.res_m1_cycle,
        );
        let ball_pixel: Option<u8> = self.get_ball_pixel();
        let current_pixel: usize = screen_y as usize * self.x_resolution as usize
            + screen_x as usize;

        let mut current_color: Option<u8> = None;
        if pf_above {
            if ball_pixel.is_some() && current_color.is_none() {
                current_color = ball_pixel;
            }
            if playfield_pixel.is_some() && current_color.is_none() {
                current_color = playfield_pixel;
            }
        }
        if p0_pixel.is_some() && current_color.is_none() {
            current_color = p0_pixel;
        }
        if m0_pixel.is_some() && current_color.is_none() {
            current_color = m0_pixel;
        }
        if p1_pixel.is_some() && current_color.is_none() {
            current_color = p1_pixel;
        }
        if m1_pixel.is_some() && current_color.is_none() {
            current_color = m1_pixel;
        }
        if ball_pixel.is_some() && current_color.is_none() {
            current_color = ball_pixel;
        }
        if playfield_pixel.is_some() && current_color.is_none() {
            current_color = playfield_pixel;
        }
        let shown: u8 = match current_color {
            Some(color) => color,
            None => background,
        };
        assert(shown == old(self)@.pixel_color());

        let (color_r, color_g, color_b) = self.vcs_palette.get_color(shown as usize);
        self.screen[current_pixel * 3] = color_r;
        self.screen[current_pixel * 3 + 1] = color_g;
        self.screen[current_pixel * 3 + 2] = color_b;

        self.check_collisions(playfield_pixel, p0_pixel, p1_pixel, m0_pixel, m1_pixel, ball_pixel);
    }

    /// Latches the collisions of a pixel at which the given objects show.
    pub fn check_collisions(
        &mut self,
        playfield_pixel: Option<u8>,
        p0_pixel: Option<u8>,
        p1_pixel: Option<u8>,
        m0_pixel: Option<u8>,
        m1_pixel: Option<u8>,
        ball_pixel: Option<u8>,
    )
        requires
            old(self).wf(),
        ensures
            final(self).wf(),
            final(self)@ == (TiaState {
                registers: collided(
                    old(self)@.registers,
                    playfield_pixel.is_some(),
                    p0_pixel.is_some(),
                    p1_pixel.is_some(),
                    m0_pixel.is_some(),
                    m1_pixel.is_some(),
                    ball_pixel.is_some(),
                ),
                ..old(self)@
            }),
    {
        let pf: bool = playfield_pixel.is_some();
        let p0: bool = p0_pixel.is_some();
        let p1: bool = p1_pixel.is_some();
        let m0: bool = m0_pixel.is_some();
        let m1: bool = m1_pixel.is_some();
        let bl: bool = ball_pixel.is_some();

        let mut collision: u8 = self.reg(REG_CXM0P);
        self.set_reg(REG_CXM0P, latch(collision, m0 && p1, m0 && p0));

        collision = self.reg(REG_CXM1P);
        self.set_reg(REG_CXM1P, latch(collision, m1 && p0, m1 && p1));

        collision = self.reg(REG_CXP0FB);
        self.set_reg(REG_CXP0FB, latch(collision, p0 && pf, p0 && bl));

        collision = self.reg(REG_CXP1FB);
        self.set_reg(REG_CXP1FB, latch(collision, p1 && pf, p1 && bl));

        collision = self.reg(REG_CXM0FB);
        self.set_reg(REG_CXM0FB, latch(collision, m0 && pf, m0 && bl));

        collision = self.reg(REG_CXM1FB);
        self.set_reg(REG_CXM1FB, latch(collision, m1 && pf, m1 && bl));

        collision = self.reg(REG_CXBLPF);
        self.set_reg(REG_CXBLPF, latch(collision, bl && pf, false));

        collision = self.reg(REG_CXPPMM);
        self.set_reg(REG_CXPPMM, latch(collision, p0 && p1, m0 && m1));
    }

    /// The colour clock within the scanline that the beam is at.
    pub fn get_cycle(&self) -> (cycle: u16)
        ensures
            cycle == self@.cycle,
    {
        self.cycle
    }

    /// The scanline that the beam is on.
    pub fn get_scan_line(&self) -> (line: u16)
        ensures
            line == self@.scan_line,
    {
        self.scan_line
    }

    /// The origins of the five objects: player 0, player 1, missile 0,
    /// missile 1 and ball.
    pub fn get_object_cycles(&self) -> (origins: (u16, u16, u16, u16, u16))
        ensures
            origins == (
                self@.res_p0_cycle,
                self@.res_p1_cycle,
                self@.res_m0_cycle,
                self@.res_m1_cycle,
                self@.res_bl_cycle,
            ),
    {
        (
            self.res_p0_cycle,
            self.res_p1_cycle,
            self.res_m0_cycle,
            self.res_m1_cycle,
            self.res_bl_cycle,
        )
    }

    /// Whether the processor is being held until the line starts again.
    pub fn is_cpu_blocked(&self) -> (blocked: bool)
        ensures
            blocked == self@.w_sync_set,
    {
        let mut result: bool = false;
        if self.w_sync_set {
            result = true;
        }
        result
    }

    pub fn get_audio_c0(&self) -> (byte: u8)
        requires
            self.wf(),
        ensures
            byte == self@.reg(REG_AUDC0),
    {
        self.reg(REG_AUDC0)
    }

    pub fn get_audio_c1(&self) -> (byte: u8)
        requires
            self.wf(),
        ensures
            byte == self@.reg(REG_AUDC1),
    {
        self.reg(REG_AUDC1)
    }

    pub fn get_audio_f0(&self) -> (byte: u8)
        requires
            self.wf(),
        ensures
            byte == self@.reg(REG_AUDF0),
    {
        self.reg(REG_AUDF0)
    }

    pub fn get_audio_f1(&self) -> (byte: u8)
        requires
            self.wf(),
        ensures
            byte == self@.reg(REG_AUDF1),
    {
        self.reg(REG_AUDF1)
    }

    pub fn get_audio_v0(&self) -> (byte: u8)
        requires
            self.wf(),
        ensures
            byte == self@.reg(REG_AUDV0),
    {
        self.reg(REG_AUDV0)
    }

    pub fn get_audio_v1(&self) -> (byte: u8)
        requires
            self.wf(),
        ensures
            byte == self@.reg(REG_AUDV1),
    {
        self.reg(REG_AUDV1)
    }

    /// The byte with its bits in the opposite order.
    fn reverse_bits(n: u8) -> (ans: u8)
        ensures
            ans == reversed(n),
    {
        ((n & 0x01) << 7) | ((n & 0x02) << 5) | ((n & 0x04) << 3) | ((n & 0x08) << 1) | ((n & 0x10)
            >> 1) | ((n & 0x20) >> 3) | ((n & 0x40) >> 5) | ((n & 0x80) >> 7)
    }
}

} // verus!
