use vstd::prelude::*;
use crate::vcs_audio_channel::DATA_SAMPLE_RATE_HZ;

verus! {

/// The television standard a console was built for.
#[derive(Debug, PartialEq, Eq, Clone, Copy, Structural)]
pub enum ConsoleType {
    NTSC,
    PAL,
    SECAM,
}

/// Visible pixels per scanline.
pub open spec fn x_resolution_of(t: ConsoleType) -> int {
    160
}

/// Scanlines kept in a frame.
pub open spec fn y_resolution_of(t: ConsoleType) -> int {
    if t == ConsoleType::NTSC {
        210
    } else {
        228
    }
}

/// Frames shown per second.
pub open spec fn frames_per_second_of(t: ConsoleType) -> int {
    if t == ConsoleType::NTSC {
        60
    } else {
        50
    }
}

/// Scanlines of vertical blank before the picture starts.
pub open spec fn v_blank_lines_of(t: ConsoleType) -> int {
    if t == ConsoleType::NTSC {
        37
    } else {
        45
    }
}

/// Colour clocks per second.
pub open spec fn ticks_per_second_of(t: ConsoleType) -> int {
    if t == ConsoleType::NTSC {
        3579545
    } else {
        3546894
    }
}

/// Colour clocks per frame: the clocks of a second shared out over its
/// frames, rounded down.
pub open spec fn ticks_per_frame_of(t: ConsoleType) -> int {
    ticks_per_second_of(t) / frames_per_second_of(t)
}

/// Audio samples per frame: the samples of a second shared out over its
/// frames. Both frame rates divide the sample rate, so nothing is lost.
pub open spec fn samples_per_frame_of(t: ConsoleType) -> int {
    48000int / frames_per_second_of(t)
}

/// The timing and geometry that follow from a television standard. SECAM
/// consoles run on PAL timing.
pub struct VcsConsoleType {
    console_type: ConsoleType,
}

impl View for VcsConsoleType {
    type V = ConsoleType;

    closed spec fn view(&self) -> ConsoleType {
        self.console_type
    }
}

impl VcsConsoleType {
    pub fn new(_type: ConsoleType) -> (r: VcsConsoleType)
        ensures
            r@ == _type,
    {
        VcsConsoleType { console_type: _type }
    }

    pub fn get_console_type(&self) -> (t: ConsoleType)
        ensures
            t == self@,
    {
        self.console_type
    }

    pub fn get_x_resolution(&self) -> (r: u32)
        ensures
            r == x_resolution_of(self@),
    {
        160
    }

    pub fn get_y_resolution(&self) -> (r: u32)
        ensures
            r == y_resolution_of(self@),
    {
        let mut result: u32 = 228;
        if self.console_type == ConsoleType::NTSC {
            result = 210;
        }
        result
    }

    pub fn get_frames_per_second(&self) -> (r: u32)
        ensures
            r == frames_per_second_of(self@),
    {
        let mut result: u32 = 50;
        if self.console_type == ConsoleType::NTSC {
            result = 60;
        }
        result
    }

    pub fn get_v_blank_lines(&self) -> (r: u8)
        ensures
            r == v_blank_lines_of(self@),
    {
        let mut result: u8 = 45;
        if self.console_type == ConsoleType::NTSC {
            result = 37;
        }
        result
    }

    pub fn ticks_per_second(&self) -> (r: i32)
        ensures
            r == ticks_per_second_of(self@),
    {
        let mut result: i32 = 3546894;
        if self.console_type == ConsoleType::NTSC {
            result = 3579545;
        }
        result
    }

    pub fn get_ticks_per_frame(&self) -> (r: i32)
        ensures
            r == ticks_per_frame_of(self@),
            r == if self@ == ConsoleType::NTSC { 59659int } else { 70937int },
    {
        self.ticks_per_second() / (self.get_frames_per_second() as i32)
    }

    pub fn audio_samples_per_frame(&self) -> (r: usize)
        ensures
            r == samples_per_frame_of(self@),
            r == if self@ == ConsoleType::NTSC { 800int } else { 960int },
            48000int % frames_per_second_of(self@) == 0,
    {
        let frames: usize = self.get_frames_per_second() as usize;
        assert(frames == 60 ==> 48000usize / frames == 800);
        assert(frames == 50 ==> 48000usize / frames == 960);
        DATA_SAMPLE_RATE_HZ / frames
    }

    pub fn get_video_type(&self) -> (t: ConsoleType)
        ensures
            t == self@,
    {
        self.console_type
    }
}

} // verus!
