use vstd::prelude::*;
use crate::bits::lemma_mask_bound;

verus! {

/// Audio samples produced per second.
pub const DATA_SAMPLE_RATE_HZ: usize = 48000;

/// Audio samples in one frame at sixty frames a second.
pub const SAMPLES_PER_FRAME: usize = DATA_SAMPLE_RATE_HZ / 60;

pub const BUFFER_SIZE: usize = SAMPLES_PER_FRAME;

/// The clock that the chip's audio dividers count, in Hz.
pub const AUDIO_CLOCK_HZ: u16 = 30000;

/// The source that a channel's output level is read from.
#[derive(Debug, PartialEq, Eq, Clone, Copy, Structural)]
pub enum ShiftRegister {
    /// The 4-bit polynomial counter.
    Four,
    /// The 5-bit polynomial counter.
    Five,
    /// The 9-bit polynomial counter.
    Nine,
    /// The 4-bit counter, clocked when the 5-bit counter puts out a one.
    FiveToFour,
    /// A square wave: the clock divided by two.
    Div2,
    /// The clock divided by 31, high for 18 counts and low for 13.
    Div31,
    /// The 4-bit counter, clocked twice in every 31 counts.
    Div31Four,
}

/// The amplitude of each of the sixteen volume settings.
pub open spec fn volume_steps() -> Seq<u8> {
    seq![0u8, 9, 17, 26, 34, 43, 51, 60, 68, 77, 85, 94, 103, 111, 120, 128]
}

/// The source and the rate that the low nibble of a control register
/// selects: the second component says whether the counters are clocked at
/// half rate. Settings 0 and 11 select silence.
pub open spec fn shape_of(nibble: u8) -> Option<(ShiftRegister, bool)> {
    if nibble == 1 {
        Some((ShiftRegister::Four, false))
    } else if nibble == 2 {
        Some((ShiftRegister::Div31Four, false))
    } else if nibble == 3 {
        Some((ShiftRegister::FiveToFour, false))
    } else if nibble == 4 || nibble == 5 {
        Some((ShiftRegister::Div2, false))
    } else if nibble == 6 || nibble == 10 {
        Some((ShiftRegister::Div31, false))
    } else if nibble == 7 || nibble == 9 {
        Some((ShiftRegister::Five, false))
    } else if nibble == 8 {
        Some((ShiftRegister::Nine, false))
    } else if nibble == 12 || nibble == 13 {
        Some((ShiftRegister::Div2, true))
    } else if nibble == 14 {
        Some((ShiftRegister::Div31, true))
    } else if nibble == 15 {
        Some((ShiftRegister::Five, true))
    } else {
        None
    }
}

/// A polynomial counter after one clock: it moves one place down, and the
/// exclusive or of its lowest bit and the bit at `tap` enters at `top`.
pub open spec fn lfsr_step(register: u16, tap: u16, top: u16) -> u16 {
    let new_bit = ((register & tap) != 0) != ((register & 0x0001) != 0);
    let moved = register >> 1;
    if new_bit {
        moved | top
    } else {
        moved & !top
    }
}

/// The state of one audio channel.
pub struct ChannelState {
    /// Samples produced so far, modulo 2^64.
    pub total_sample: u64,
    /// Position within the current period of the channel's frequency, in
    /// units of which `DATA_SAMPLE_RATE_HZ` make one period.
    pub phase: u32,
    /// Amplitude of a high sample.
    pub volume: u8,
    /// Clocks of the counters per second; zero until the channel is set up.
    pub frequency: u16,
    pub is_shutdown: bool,
    pub shift_register: ShiftRegister,
    pub apply_third: bool,
    pub third_count: u8,
    pub div2_count: u8,
    pub div31_count: u8,
    pub shift_4_register: u16,
    pub shift_5_register: u16,
    pub shift_9_register: u16,
}

impl ChannelState {
    pub open spec fn wf(self) -> bool {
        &&& self.phase < 48000
        &&& self.volume <= 128
        &&& self.frequency <= AUDIO_CLOCK_HZ
        &&& self.third_count <= 1
        &&& self.div31_count <= 30
    }

    /// A channel before it is set up: silent, with all counters full.
    pub open spec fn initial() -> ChannelState {
        ChannelState {
            total_sample: 0,
            phase: 0,
            volume: 0,
            frequency: 0,
            is_shutdown: false,
            shift_register: ShiftRegister::Four,
            apply_third: false,
            third_count: 0,
            div2_count: 0,
            div31_count: 0,
            shift_4_register: 0xFFFF,
            shift_5_register: 0xFFFF,
            shift_9_register: 0xFFFF,
        }
    }

    /// The channel with source and rate selected afresh: the divider of the
    /// source starts from zero, and so does the half-rate count.
    pub open spec fn selected(self, source: ShiftRegister, third: bool) -> ChannelState {
        ChannelState {
            shift_register: source,
            apply_third: third,
            third_count: if third {
                0
            } else {
                self.third_count
            },
            div2_count: if source == ShiftRegister::Div2 {
                0
            } else {
                self.div2_count
            },
            div31_count: if source == ShiftRegister::Div31 || source == ShiftRegister::Div31Four {
                0
            } else {
                self.div31_count
            },
            ..self
        }
    }

    /// The channel after the three audio registers have been read. The
    /// volume is the step that the low nibble of `volume_reg` selects, and
    /// zero for a silent shape; the frequency is the audio clock divided by
    /// one more than the low five bits of `frequency_reg`; a shape that is
    /// already selected keeps its counters.
    pub open spec fn set_channel_settings(self, volume_reg: u8, frequency_reg: u8, noise_reg: u8)
        -> ChannelState {
        let tuned = ChannelState {
            volume: volume_steps()[(volume_reg & 0x0F) as int],
            frequency: (30000int / ((frequency_reg & 0x1F) + 1) as int) as u16,
            ..self
        };
        match shape_of(noise_reg & 0x0F) {
            None => ChannelState { volume: 0, apply_third: false, ..tuned },
            Some((source, third)) => if tuned.shift_register == source && tuned.apply_third
                == third {
                tuned
            } else {
                tuned.selected(source, third)
            },
        }
    }

    pub open spec fn shift_four_register(self) -> ChannelState {
        ChannelState { shift_4_register: lfsr_step(self.shift_4_register, 0x0002, 0x0008), ..self }
    }

    pub open spec fn shift_five_register(self) -> ChannelState {
        ChannelState { shift_5_register: lfsr_step(self.shift_5_register, 0x0004, 0x0010), ..self }
    }

    pub open spec fn shift_nine_register(self) -> ChannelState {
        ChannelState { shift_9_register: lfsr_step(self.shift_9_register, 0x0010, 0x0100), ..self }
    }

    /// Whether a clock reaches the 4-bit counter.
    pub open spec fn clocks_four(self) -> bool {
        if self.shift_register == ShiftRegister::Div31Four {
            self.div31_count == 17 || self.div31_count == 30
        } else if self.shift_register == ShiftRegister::FiveToFour {
            self.shift_5_register & 0x0001 != 0
        } else {
            true
        }
    }

    /// The channel after its dividers have counted one clock.
    pub open spec fn dividers_counted(self) -> ChannelState {
        if self.shift_register == ShiftRegister::Div2 {
            ChannelState {
                div2_count: if self.div2_count == 0 {
                    1
                } else {
                    0
                },
                ..self
            }
        } else if self.shift_register == ShiftRegister::Div31 || self.shift_register
            == ShiftRegister::Div31Four {
            ChannelState {
                div31_count: if self.div31_count + 1 >= 31 {
                    0
                } else {
                    (self.div31_count + 1) as u8
                },
                ..self
            }
        } else {
            self
        }
    }

    /// The channel after one clock at full rate.
    pub open spec fn clocked(self) -> ChannelState {
        let four = if self.clocks_four() {
            self.shift_four_register()
        } else {
            self
        };
        four.shift_five_register().shift_nine_register().dividers_counted()
    }

    /// The channel after one clock of its frequency. At half rate only
    /// every second clock reaches the counters.
    pub open spec fn shift_registers(self) -> ChannelState {
        if self.apply_third {
            if self.third_count + 1 < 2 {
                ChannelState { third_count: (self.third_count + 1) as u8, ..self }
            } else {
                (ChannelState { third_count: 0, ..self }).clocked()
            }
        } else {
            self.clocked()
        }
    }

    /// Whether the selected source puts out a one.
    pub open spec fn level(self) -> bool {
        match self.shift_register {
            ShiftRegister::Four | ShiftRegister::Div31Four | ShiftRegister::FiveToFour => {
                self.shift_4_register & 0x0001 == 1
            },
            ShiftRegister::Five => self.shift_5_register & 0x0001 == 1,
            ShiftRegister::Nine => self.shift_9_register & 0x0001 == 1,
            ShiftRegister::Div2 => self.div2_count == 1,
            ShiftRegister::Div31 => self.div31_count < 18,
        }
    }

    /// Whether a clock of the channel's frequency falls on the coming
    /// sample.
    pub open spec fn clock_due(self) -> bool {
        self.phase < self.frequency
    }

    /// The channel as it stands while the coming sample is put out: clocked
    /// if a clock falls on the sample.
    pub open spec fn sounding(self) -> ChannelState {
        if self.clock_due() {
            self.shift_registers()
        } else {
            self
        }
    }

    /// The coming sample: the volume where the source puts out a one, and
    /// zero where it does not.
    pub open spec fn emitted(self) -> u16 {
        if self.sounding().level() {
            self.volume as u16
        } else {
            0
        }
    }

    /// The channel after one sample. The phase moves on by the frequency,
    /// modulo the sample rate: a period of the frequency lasts the sample
    /// rate divided by the frequency, in samples, with nothing rounded.
    pub open spec fn advance(self) -> ChannelState {
        let s = self.sounding();
        ChannelState {
            phase: ((s.phase + s.frequency) % 48000) as u32,
            total_sample: if s.total_sample == u64::MAX {
                0
            } else {
                (s.total_sample + 1) as u64
            },
            ..s
        }
    }

    /// The channel after `n` samples.
    pub open spec fn run(self, n: nat) -> ChannelState
        decreases n,
    {
        if n == 0 {
            self
        } else {
            self.run((n - 1) as nat).advance()
        }
    }

    /// Whether the channel produces sound at all: one that is shut down or
    /// was never set up stands still and puts out silence.
    pub open spec fn running(self) -> bool {
        !self.is_shutdown && self.frequency != 0
    }

    /// The `i`-th of the samples to come.
    pub open spec fn sample(self, i: nat) -> u16 {
        if self.running() {
            self.run(i).emitted()
        } else {
            0
        }
    }

    /// The channel after `n` samples have been asked of it.
    pub open spec fn after(self, n: nat) -> ChannelState {
        if self.running() {
            self.run(n)
        } else {
            self
        }
    }
}

/// A polynomial counter after one clock.
fn step_lfsr(register: u16, tap: u16, top: u16) -> (next: u16)
    ensures
        next == lfsr_step(register, tap, top),
{
    let new_bit: bool = ((register & tap) != 0) != ((register & 0x0001) != 0);
    let moved: u16 = register >> 1;
    if new_bit {
        moved | top
    } else {
        moved & !top
    }
}

/// One channel of the audio generator. It turns the three audio registers
/// of the channel into samples.
pub struct VcsAudioChannel {
    total_sample: u64,
    phase: u32,
    volume: u8,
    frequency: u16,
    volume_steps: Vec<u8>,
    m_buffer: Vec<u16>,
    is_shutdown: bool,
    shift_register: ShiftRegister,
    apply_third: bool,
    third_count: u8,
    div2_count: u8,
    div31_count: u8,
    shift_4_register: u16,
    shift_5_register: u16,
    shift_9_register: u16,
}

impl View for VcsAudioChannel {
    type V = ChannelState;

    closed spec fn view(&self) -> ChannelState {
        ChannelState {
            total_sample: self.total_sample,
            phase: self.phase,
            volume: self.volume,
            frequency: self.frequency,
            is_shutdown: self.is_shutdown,
            shift_register: self.shift_register,
            apply_third: self.apply_third,
            third_count: self.third_count,
            div2_count: self.div2_count,
            div31_count: self.div31_count,
            shift_4_register: self.shift_4_register,
            shift_5_register: self.shift_5_register,
            shift_9_register: self.shift_9_register,
        }
    }
}

impl VcsAudioChannel {
    /// Whether the channel is in a state that its own operations lead to:
    /// its state is, and it holds the table of volume steps.
    pub open spec fn wf(&self) -> bool {
        &&& self@.wf()
        &&& self.steps_loaded()
    }

    /// Whether the channel holds the table of volume steps.
    pub closed spec fn steps_loaded(&self) -> bool {
        self.volume_steps@ == volume_steps()
    }

    pub fn new() -> (channel: VcsAudioChannel)
        ensures
            channel.wf(),
            channel@ == ChannelState::initial(),
    {
        let steps: Vec<u8> = vec![0, 9, 17, 26, 34, 43, 51, 60, 68, 77, 85, 94, 103, 111, 120, 128];
        assert(steps@ =~= volume_steps());
        VcsAudioChannel {
            total_sample: 0,
            phase: 0,
            volume: 0,
            frequency: 0,
            volume_steps: steps,
            m_buffer: vec![0u16; BUFFER_SIZE],
            is_shutdown: false,
            shift_register: ShiftRegister::Four,
            apply_third: false,
            third_count: 0,
            div2_count: 0,
            div31_count: 0,
            shift_4_register: 0xFFFF,
            shift_5_register: 0xFFFF,
            shift_9_register: 0xFFFF,
        }
    }

    /// Selects source and rate afresh, unless they are selected already.
    fn select(&mut self, source: ShiftRegister, third: bool)
        requires
            old(self).wf(),
        ensures
            final(self).wf(),
            final(self)@ == if old(self)@.shift_register == source && old(self)@.apply_third
                == third {
                old(self)@
            } else {
                old(self)@.selected(source, third)
            },
    {
        if self.shift_register != source || self.apply_third != third {
            if source == ShiftRegister::Div2 {
                self.div2_count = 0;
            }
            if source == ShiftRegister::Div31 || source == ShiftRegister::Div31Four {
                self.div31_count = 0;
            }
            if third {
                self.third_count = 0;
            }
            self.shift_register = source;
            self.apply_third = third;
        }
    }

    /// Takes over the channel's three audio registers.
    pub fn set_channel_settings(&mut self, volume_reg: u8, frequency_reg: u8, noise_reg: u8)
        requires
            old(self).wf(),
        ensures
            final(self).wf(),
            final(self)@ == old(self)@.set_channel_settings(volume_reg, frequency_reg, noise_reg),
    {
        proof {
            lemma_mask_bound(volume_reg, 0x0F);
            lemma_mask_bound(frequency_reg, 0x1F);
        }
        self.volume = self.volume_steps[(volume_reg & 0x0F) as usize];
        let frequency_divider: u8 = (frequency_reg & 0x1F) + 1;
        assert(30000int / (frequency_divider as int) <= 30000) by (nonlinear_arith)
            requires
                1 <= frequency_divider,
        ;
        assert(30000int / (frequency_divider as int) >= 0) by (nonlinear_arith)
            requires
                1 <= frequency_divider,
        ;
        self.frequency = AUDIO_CLOCK_HZ / frequency_divider as u16;

        match noise_reg & 0x0F {
            0 | 11 => {
                self.volume = 0;
                self.apply_third = false;
            },
            1 => self.select(ShiftRegister::Four, false),
            2 => self.select(ShiftRegister::Div31Four, false),
            3 => self.select(ShiftRegister::FiveToFour, false),
            4 | 5 => self.select(ShiftRegister::Div2, false),
            6 | 10 => self.select(ShiftRegister::Div31, false),
            8 => self.select(ShiftRegister::Nine, false),
            7 | 9 => self.select(ShiftRegister::Five, false),
            12 | 13 => self.select(ShiftRegister::Div2, true),
            14 => self.select(ShiftRegister::Div31, true),
            15 => self.select(ShiftRegister::Five, true),
            _ => {
                proof {
                    lemma_mask_bound(noise_reg, 0x0F);
                }
            },
        }
    }

    fn shift_four_register(&mut self)
        ensures
            final(self).volume_steps == old(self).volume_steps,
            final(self).m_buffer == old(self).m_buffer,
            final(self)@ == old(self)@.shift_four_register(),
    {
        self.shift_4_register = step_lfsr(self.shift_4_register, 0x0002, 0x0008);
    }

    fn shift_five_register(&mut self)
        ensures
            final(self).volume_steps == old(self).volume_steps,
            final(self).m_buffer == old(self).m_buffer,
            final(self)@ == old(self)@.shift_five_register(),
    {
        self.shift_5_register = step_lfsr(self.shift_5_register, 0x0004, 0x0010);
    }

    fn shift_nine_register(&mut self)
        ensures
            final(self).volume_steps == old(self).volume_steps,
            final(self).m_buffer == old(self).m_buffer,
            final(self)@ == old(self)@.shift_nine_register(),
    {
        self.shift_9_register = step_lfsr(self.shift_9_register, 0x0010, 0x0100);
    }

    fn shift_registers(&mut self)
        requires
            old(self).wf(),
        ensures
            final(self).wf(),
            final(self).m_buffer == old(self).m_buffer,
            final(self)@ == old(self)@.shift_registers(),
    {
        if self.apply_third {
            self.third_count += 1;
            if self.third_count < 2 {
                return ;
            }
            self.third_count = 0;
        }
        let mut should_shift_four: bool = true;
        if self.shift_register == ShiftRegister::FiveToFour {
            should_shift_four = (self.shift_5_register & 0x0001) > 0;
        }
        if self.shift_register == ShiftRegister::Div31Four {
            if self.div31_count != 17 && self.div31_count != 30 {
                should_shift_four = false;
            }
        }
        if should_shift_four {
            self.shift_four_register();
        }
        self.shift_five_register();
        self.shift_nine_register();

        if self.shift_register == ShiftRegister::Div2 {
            if self.div2_count == 0 {
                self.div2_count = 1;
            } else {
                self.div2_count = 0;
            }
        } else if self.shift_register == ShiftRegister::Div31 || self.shift_register
            == ShiftRegister::Div31Four {
            self.div31_count += 1;
            if self.div31_count >= 31 {
                self.div31_count = 0;
            }
        }
    }

    /// Whether the selected source puts out a one.
    fn level(&self) -> (high: bool)
        ensures
            high == self@.level(),
    {
        match self.shift_register {
            ShiftRegister::Four | ShiftRegister::Div31Four | ShiftRegister::FiveToFour => {
                self.shift_4_register & 0x0001 == 1
            },
            ShiftRegister::Five => self.shift_5_register & 0x0001 == 1,
            ShiftRegister::Nine => self.shift_9_register & 0x0001 == 1,
            ShiftRegister::Div2 => self.div2_count == 1,
            ShiftRegister::Div31 => self.div31_count < 18,
        }
    }

    /// Fills the working buffer with the next `sample_count` samples.
    fn generate_buffer_data(&mut self, sample_count: usize)
        requires
            old(self).wf(),
            !old(self)@.is_shutdown,
        ensures
            final(self).wf(),
            final(self).m_buffer@.len() == sample_count,
            forall|i: int|
                0 <= i < sample_count ==> final(self).m_buffer@[i] == old(self)@.sample(i as nat),
            final(self)@ == old(self)@.after(sample_count as nat),
    {
        if self.m_buffer.len() != sample_count {
            self.m_buffer = vec![0u16; sample_count];
        }
        if self.frequency == 0 {
            let mut i: usize = 0;
            while i < sample_count
                invariant
                    i <= sample_count,
                    self.wf(),
                    self@ == old(self)@,
                    self.m_buffer@.len() == sample_count,
                    forall|j: int| 0 <= j < i ==> self.m_buffer@[j] == 0,
                decreases sample_count - i,
            {
                self.m_buffer[i] = 0;
                i += 1;
            }
            return ;
        }
        let mut sample_index: usize = 0;
        while sample_index < sample_count
            invariant
                sample_index <= sample_count,
                self.wf(),
                old(self)@.running(),
                self@ == old(self)@.run(sample_index as nat),
                self.m_buffer@.len() == sample_count,
                forall|j: int|
                    0 <= j < sample_index ==> self.m_buffer@[j] == old(self)@.sample(j as nat),
            decreases sample_count - sample_index,
        {
            let ghost before = self@;
            if self.phase < self.frequency as u32 {
                self.shift_registers();
            }
            let amplitude: u16 = if self.level() {
                self.volume as u16
            } else {
                0
            };
            self.m_buffer[sample_index] = amplitude;
            self.phase = (self.phase + self.frequency as u32) % 48000;
            self.total_sample = if self.total_sample == u64::MAX {
                0
            } else {
                self.total_sample + 1
            };
            assert(amplitude == before.emitted());
            assert(self@ == before.advance());
            sample_index += 1;
            assert(old(self)@.run(sample_index as nat) == old(self)@.run(
                (sample_index - 1) as nat,
            ).advance());
        }
    }

    /// The next `size` samples of the channel.
    pub fn callback(&mut self, size: usize) -> (buffer: Vec<u16>)
        requires
            old(self).wf(),
        ensures
            final(self).wf(),
            buffer@.len() == size,
            forall|i: int| 0 <= i < size ==> buffer@[i] == old(self)@.sample(i as nat),
            final(self)@ == old(self)@.after(size as nat),
    {
        if self.is_shutdown {
            let buffer: Vec<u16> = vec![0u16; size];
            return buffer;
        }
        self.generate_buffer_data(size);
        self.m_buffer.clone()
    }
}

/// A channel keeps its volume, its frequency and whether it is shut down
/// for as long as it only produces samples.
pub proof fn lemma_run_keeps_settings(s: ChannelState, n: nat)
    ensures
        s.run(n).volume == s.volume,
        s.run(n).frequency == s.frequency,
        s.run(n).is_shutdown == s.is_shutdown,
    decreases n,
{
    if n > 0 {
        lemma_run_keeps_settings(s, (n - 1) as nat);
    }
}

/// A channel at volume zero puts out silence.
pub proof fn lemma_zero_volume_is_silent(s: ChannelState, i: nat)
    requires
        s.volume == 0,
    ensures
        s.sample(i) == 0,
{
    lemma_run_keeps_settings(s, i);
}

/// A channel whose control register selects shape 0 or 11 puts out silence,
/// whatever its volume register holds.
pub proof fn lemma_silent_shapes(
    s: ChannelState,
    volume_reg: u8,
    frequency_reg: u8,
    noise_reg: u8,
    i: nat,
)
    requires
        noise_reg & 0x0F == 0 || noise_reg & 0x0F == 11,
    ensures
        s.set_channel_settings(volume_reg, frequency_reg, noise_reg).sample(i) == 0,
{
    lemma_zero_volume_is_silent(s.set_channel_settings(volume_reg, frequency_reg, noise_reg), i);
}

/// A channel whose volume register holds zero in its low nibble puts out
/// silence, whatever shape is selected.
pub proof fn lemma_volume_register_zero_is_silent(
    s: ChannelState,
    volume_reg: u8,
    frequency_reg: u8,
    noise_reg: u8,
    i: nat,
)
    requires
        volume_reg & 0x0F == 0,
    ensures
        s.set_channel_settings(volume_reg, frequency_reg, noise_reg).sample(i) == 0,
{
    lemma_zero_volume_is_silent(s.set_channel_settings(volume_reg, frequency_reg, noise_reg), i);
}

} // verus!
