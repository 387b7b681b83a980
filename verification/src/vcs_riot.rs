use vstd::prelude::*;
use crate::base_memory::BaseMemory;
use crate::memory_ram::MemoryRam;

verus! {

pub const REG_SWCHA: u16 = 0x00;

pub const REG_SWCNT: u16 = 0x01;

pub const REG_SWCHB: u16 = 0x02;

pub const REG_SWBCNT: u16 = 0x03;

pub const REG_INTIM: u16 = 0x04;

pub const REG_INSTAT: u16 = 0x05;

pub const REG_TIMI1T: u16 = 0x14;

pub const REG_TIM8T: u16 = 0x15;

pub const REG_TIM64T: u16 = 0x16;

pub const REG_T1024T: u16 = 0x17;

/// The clocks per count that a write to a timer register selects, and zero
/// for every other register.
pub open spec fn prescaler_of(location: u16) -> u16 {
    if location == REG_TIMI1T {
        1
    } else if location == REG_TIM8T {
        8
    } else if location == REG_TIM64T {
        64
    } else if location == REG_T1024T {
        1024
    } else {
        0
    }
}

/// The direction bits of one axis after the stick moved along it. `both`
/// holds the two bits of the axis; `negative` and `positive` are the masks
/// that clear the bit of their direction. A bit is zero while the stick is
/// pushed its way.
pub open spec fn axis_set(swcha: u8, value: i8, both: u8, negative: u8, positive: u8) -> u8 {
    if value < 0 {
        (swcha | both) & negative
    } else if value > 0 {
        (swcha | both) & positive
    } else {
        swcha | both
    }
}

/// The state of the RAM, I/O and timer chip.
pub struct RiotState {
    /// The 128 bytes of the I/O block: ports, direction registers, timer.
    pub io: Seq<u8>,
    /// The 128 bytes of working RAM.
    pub ram: Seq<u8>,
    /// Clocks per count of the timer: 1, 8, 64 or 1024.
    pub step: u16,
    /// Clocks counted towards the next count of the timer.
    pub step_count: u16,
    /// Whether the timer passed zero on the last clock.
    pub overflow_tick: bool,
    pub select_pressed: bool,
    pub reset_pressed: bool,
}

impl RiotState {
    pub open spec fn wf(self) -> bool {
        &&& self.io.len() == 128
        &&& self.ram.len() == 128
        &&& (self.step == 1 || self.step == 8 || self.step == 64 || self.step == 1024)
        &&& self.step_count < self.step
    }

    /// A chip fresh from the factory: everything zero, the timer counting
    /// every clock.
    pub open spec fn initial() -> RiotState {
        RiotState {
            io: Seq::new(128, |i: int| 0u8),
            ram: Seq::new(128, |i: int| 0u8),
            step: 1,
            step_count: 0,
            overflow_tick: false,
            select_pressed: false,
            reset_pressed: false,
        }
    }

    pub open spec fn with_io(self, location: u16, byte: u8) -> RiotState {
        RiotState { io: self.io.update(location as int, byte), ..self }
    }

    /// The current value of the timer.
    pub open spec fn timer(self) -> u8 {
        self.io[REG_INTIM as int]
    }

    /// The timer's status register.
    pub open spec fn status(self) -> u8 {
        self.io[REG_INSTAT as int]
    }

    /// The state in which the console starts: the timer counts every clock,
    /// nothing is pressed, the stick is at rest and the ports are inputs.
    pub open spec fn reset(self) -> RiotState {
        RiotState {
            step: 1,
            step_count: 0,
            select_pressed: false,
            reset_pressed: false,
            io: self.io.update(REG_INSTAT as int, 0).update(REG_SWCHA as int, 255).update(
                REG_SWCNT as int,
                255,
            ).update(REG_SWBCNT as int, 255),
            ..self
        }
    }

    pub open spec fn reset_pressed(self, value: bool) -> RiotState {
        RiotState { reset_pressed: value, ..self }
    }

    pub open spec fn select_pressed(self, value: bool) -> RiotState {
        RiotState { select_pressed: value, ..self }
    }

    /// The state after the left stick moved up (positive), down (negative)
    /// or back to the middle (zero).
    pub open spec fn left_controller_up_down(self, value: i8) -> RiotState {
        self.with_io(REG_SWCHA, axis_set(self.io[REG_SWCHA as int], value, 0x30, 0xDF, 0xEF))
    }

    /// The state after the left stick moved right (positive), left
    /// (negative) or back to the middle (zero).
    pub open spec fn left_controller_left_right(self, value: i8) -> RiotState {
        self.with_io(REG_SWCHA, axis_set(self.io[REG_SWCHA as int], value, 0xC0, 0xBF, 0x7F))
    }

    /// The state after the timer has counted down once. Passing zero sets
    /// bit 7 of the status, and from then on the timer counts every clock.
    pub open spec fn counted(self) -> RiotState {
        if self.timer() == 0 {
            RiotState {
                step_count: 0,
                step: 1,
                overflow_tick: true,
                io: self.io.update(REG_INSTAT as int, self.status() | 0x80).update(
                    REG_INTIM as int,
                    255,
                ),
                ..self
            }
        } else {
            RiotState {
                step_count: 0,
                overflow_tick: false,
                io: self.io.update(REG_INTIM as int, (self.timer() - 1) as u8),
                ..self
            }
        }
    }

    /// The state one clock later: every `step` clocks the timer counts
    /// down.
    pub open spec fn tick(self) -> RiotState {
        if self.step_count + 1 < self.step {
            RiotState { step_count: (self.step_count + 1) as u16, ..self }
        } else {
            self.counted()
        }
    }

    /// The state `n` clocks later.
    pub open spec fn ticks(self, n: nat) -> RiotState
        decreases n,
    {
        if n == 0 {
            self
        } else {
            self.tick().ticks((n - 1) as nat)
        }
    }

    /// The state with bit 7 of the status cleared, unless the timer passed
    /// zero on the last clock.
    pub open spec fn underflow_seen(self) -> RiotState {
        if self.overflow_tick {
            self
        } else {
            self.with_io(REG_INSTAT, self.status() & 0x7F)
        }
    }

    /// The state after a read of `location` in the I/O block. Reading the
    /// timer or its status takes note of an underflow.
    pub open spec fn after_read(self, location: u16) -> RiotState {
        if location == REG_INTIM || location == REG_INSTAT {
            self.underflow_seen()
        } else {
            self
        }
    }

    /// The console switches as the port shows them: bit 1 is low while
    /// Select is down, bit 0 while Reset is down.
    pub open spec fn switches(self) -> u8 {
        let select = if self.select_pressed {
            11u8 & 0xFD
        } else {
            11u8
        };
        if self.reset_pressed {
            select & 0xFE
        } else {
            select
        }
    }

    /// What a read of `location` in the I/O block gives: the register as it
    /// stands before the read leaves its trace, so that a read of the status
    /// shows an underflow that no read has seen yet.
    pub open spec fn read(self, location: u16) -> u8 {
        if location == REG_SWCHB {
            self.switches()
        } else {
            self.io[location as int]
        }
    }

    /// The state after `byte` was written to `location` in the I/O block. A
    /// write to one of the four timer registers starts the timer one below
    /// the byte at that register's rate and clears the underflow bit.
    pub open spec fn write(self, location: u16, byte: u8) -> RiotState {
        if prescaler_of(location) != 0 {
            RiotState {
                step: prescaler_of(location),
                step_count: 0,
                io: self.io.update(REG_INSTAT as int, self.status() & 0x7F).update(
                    REG_INTIM as int,
                    byte.wrapping_sub(1),
                ).update(location as int, byte),
                ..self
            }
        } else {
            self.with_io(location, byte)
        }
    }

    pub open spec fn read_ram(self, location: u16) -> u8 {
        self.ram[location as int]
    }

    pub open spec fn write_ram(self, location: u16, byte: u8) -> RiotState {
        RiotState { ram: self.ram.update(location as int, byte), ..self }
    }
}

/// The RAM, I/O and timer chip: 128 bytes of working RAM, the ports of the
/// stick and the console switches, and a timer that counts down at one of
/// four rates.
pub struct VcsRiot {
    riot_ram: MemoryRam,
    system_ram: MemoryRam,
    step: u16,
    step_count: u16,
    overflow_tick: bool,
    select_pressed: bool,
    reset_pressed: bool,
}

impl View for VcsRiot {
    type V = RiotState;

    closed spec fn view(&self) -> RiotState {
        RiotState {
            io: self.riot_ram.contents(),
            ram: self.system_ram.contents(),
            step: self.step,
            step_count: self.step_count,
            overflow_tick: self.overflow_tick,
            select_pressed: self.select_pressed,
            reset_pressed: self.reset_pressed,
        }
    }
}

impl VcsRiot {
    pub open spec fn wf(&self) -> bool {
        self@.wf()
    }

    pub fn new() -> (riot: VcsRiot)
        ensures
            riot.wf(),
            riot@ == RiotState::initial(),
    {
        let riot = VcsRiot {
            riot_ram: MemoryRam::new("VCS RIOT Registers".to_owned(), 0x80),
            system_ram: MemoryRam::new("VCS Ram".to_owned(), 0x80),
            step: 1,
            step_count: 0,
            overflow_tick: false,
            select_pressed: false,
            reset_pressed: false,
        };
        proof {
            assert(riot@.io =~= RiotState::initial().io);
            assert(riot@.ram =~= RiotState::initial().ram);
        }
        riot
    }

    fn io(&self, location: u16) -> (byte: u8)
        requires
            self.wf(),
            location < 128,
        ensures
            byte == self@.io[location as int],
    {
        self.riot_ram.read(location)
    }

    fn set_io(&mut self, location: u16, byte: u8)
        requires
            old(self).wf(),
            location < 128,
        ensures
            final(self).wf(),
            final(self)@ == old(self)@.with_io(location, byte),
    {
        let _ = self.riot_ram.write(location, byte);
    }

    /// Puts the chip into the state in which the console starts.
    pub fn reset(&mut self)
        requires
            old(self).wf(),
        ensures
            final(self).wf(),
            final(self)@ == old(self)@.reset(),
    {
        self.step = 1;
        self.step_count = 0;
        self.set_io(REG_INSTAT, 0);
        self.set_io(REG_SWCHA, 255);
        self.set_io(REG_SWCNT, 255);
        self.set_io(REG_SWBCNT, 255);
        self.select_pressed = false;
        self.reset_pressed = false;
    }

    /// Records the Reset switch going down (`true`) or up.
    pub fn reset_pressed(&mut self, value: bool)
        ensures
            final(self)@ == old(self)@.reset_pressed(value),
    {
        if value {
            self.reset_pressed = true;
        } else {
            self.reset_pressed = false;
        }
    }

    /// Records the Select switch going down (`true`) or up.
    pub fn select_pressed(&mut self, value: bool)
        ensures
            final(self)@ == old(self)@.select_pressed(value),
    {
        if value {
            self.select_pressed = true;
        } else {
            self.select_pressed = false;
        }
    }

    /// Records the left stick moving up (positive), down (negative) or back
    /// to the middle (zero).
    pub fn left_controller_up_down(&mut self, value: i8)
        requires
            old(self).wf(),
        ensures
            final(self).wf(),
            final(self)@ == old(self)@.left_controller_up_down(value),
    {
        let mut byte: u8 = self.io(REG_SWCHA);
        if value < 0 {
            byte |= 0x30;
            byte &= 0xDF;
        } else if value > 0 {
            byte |= 0x30;
            byte &= 0xEF;
        } else {
            byte |= 0x30;
        }
        self.set_io(REG_SWCHA, byte);
    }

    /// Records the left stick moving right (positive), left (negative) or
    /// back to the middle (zero).
    pub fn left_controller_left_right(&mut self, value: i8)
        requires
            old(self).wf(),
        ensures
            final(self).wf(),
            final(self)@ == old(self)@.left_controller_left_right(value),
    {
        let mut byte: u8 = self.io(REG_SWCHA);
        if value < 0 {
            byte |= 0xC0;
            byte &= 0xBF;
        } else if value > 0 {
            byte |= 0xC0;
            byte &= 0x7F;
        } else {
            byte |= 0xC0;
        }
        self.set_io(REG_SWCHA, byte);
    }

    /// Runs the chip for one clock.
    pub fn execute_tick(&mut self)
        requires
            old(self).wf(),
        ensures
            final(self).wf(),
            final(self)@ == old(self)@.tick(),
    {
        self.step_count += 1;
        if self.step_count < self.step {
            return ;
        }
        self.step_count = 0;
        self.overflow_tick = false;
        let timer: u8 = self.io(REG_INTIM);
        let new_timer: u8 = timer.wrapping_sub(1);
        if timer == 0 {
            let status_byte: u8 = self.io(REG_INSTAT);
            self.set_io(REG_INSTAT, status_byte | 0x80);
            self.step = 1;
            self.overflow_tick = true;
        }
        self.set_io(REG_INTIM, new_timer);
    }

    /// What the processor reads at `location` of the I/O block.
    pub fn read(&mut self, location: u16) -> (byte: u8)
        requires
            old(self).wf(),
            location < 128,
        ensures
            final(self).wf(),
            byte == old(self)@.read(location),
            final(self)@ == old(self)@.after_read(location),
    {
        if location == REG_SWCHB {
            let mut result: u8 = 11;
            if self.select_pressed {
                result &= 0xFD;
            }
            if self.reset_pressed {
                result &= 0xFE;
            }
            return result;
        }
        let byte: u8 = self.io(location);
        if location == REG_INTIM {
            self.clear_timnnt_underflow();
        } else if location == REG_INSTAT {
            self.clear_instat_underflow();
        }
        byte
    }

    /// Takes a write of the processor to `location` of the I/O block.
    pub fn write(&mut self, location: u16, byte: u8)
        requires
            old(self).wf(),
            location < 128,
        ensures
            final(self).wf(),
            final(self)@ == old(self)@.write(location, byte),
    {
        let byte_minus_1: u8 = byte.wrapping_sub(1);
        if location == REG_TIMI1T {
            self.start_timer(byte_minus_1, 1);
        } else if location == REG_TIM8T {
            self.start_timer(byte_minus_1, 8);
        } else if location == REG_TIM64T {
            self.start_timer(byte_minus_1, 64);
        } else if location == REG_T1024T {
            self.start_timer(byte_minus_1, 1024);
        }
        self.set_io(location, byte);
    }

    /// Starts the timer at `value`, counting every `step` clocks.
    fn start_timer(&mut self, value: u8, step: u16)
        requires
            old(self).wf(),
            step == 1 || step == 8 || step == 64 || step == 1024,
        ensures
            final(self).wf(),
            final(self)@ == (RiotState {
                step,
                step_count: 0,
                io: old(self)@.io.update(REG_INSTAT as int, old(self)@.status() & 0x7F).update(
                    REG_INTIM as int,
                    value,
                ),
                ..old(self)@
            }),
    {
        let status_byte: u8 = self.io(REG_INSTAT);
        self.set_io(REG_INSTAT, status_byte & 0x7F);
        self.set_io(REG_INTIM, value);
        self.step = step;
        self.step_count = 0;
    }

    /// The byte of working RAM at `location`.
    pub fn read_ram(&self, location: u16) -> (byte: u8)
        requires
            self.wf(),
            location < 128,
        ensures
            byte == self@.read_ram(location),
    {
        self.system_ram.read(location)
    }

    /// Stores `byte` in working RAM at `location`.
    pub fn write_ram(&mut self, location: u16, byte: u8)
        requires
            old(self).wf(),
            location < 128,
        ensures
            final(self).wf(),
            final(self)@ == old(self)@.write_ram(location, byte),
    {
        let _ = self.system_ram.write(location, byte);
    }

    fn clear_instat_underflow(&mut self)
        requires
            old(self).wf(),
        ensures
            final(self).wf(),
            final(self)@ == old(self)@.underflow_seen(),
    {
        if !self.overflow_tick {
            let status_byte: u8 = self.io(REG_INSTAT);
            self.set_io(REG_INSTAT, status_byte & 0x7F);
        }
    }

    fn clear_timnnt_underflow(&mut self)
        requires
            old(self).wf(),
        ensures
            final(self).wf(),
            final(self)@ == old(self)@.underflow_seen(),
    {
        if !self.overflow_tick {
            let status_byte: u8 = self.io(REG_INSTAT);
            self.set_io(REG_INSTAT, status_byte & 0x7F);
        }
    }
}

} // verus!
