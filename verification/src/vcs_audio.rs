use vstd::prelude::*;
use crate::vcs_audio_channel::{ChannelState, DATA_SAMPLE_RATE_HZ, VcsAudioChannel};
use crate::vcs_tia::VcsTia;
use crate::vcs_tia_model::{REG_AUDC0, REG_AUDC1, REG_AUDF0, REG_AUDF1, REG_AUDV0, REG_AUDV1, TiaState};

verus! {

/// The state of the audio generator.
pub struct AudioState {
    pub channels: Seq<ChannelState>,
    pub frames_per_second: u32,
}

impl AudioState {
    pub open spec fn wf(self) -> bool {
        &&& self.channels.len() == 2
        &&& self.channels[0].wf()
        &&& self.channels[1].wf()
        &&& self.frames_per_second > 0
    }

    /// Samples in one frame.
    pub open spec fn samples_per_frame(self) -> nat {
        (48000int / self.frames_per_second as int) as nat
    }

    /// The state after each channel has taken over its three registers from
    /// the adapter.
    pub open spec fn execute_tick(self, tia: TiaState) -> AudioState {
        AudioState {
            channels: seq![
                self.channels[0].set_channel_settings(
                    tia.reg(REG_AUDV0),
                    tia.reg(REG_AUDF0),
                    tia.reg(REG_AUDC0),
                ),
                self.channels[1].set_channel_settings(
                    tia.reg(REG_AUDV1),
                    tia.reg(REG_AUDF1),
                    tia.reg(REG_AUDC1),
                ),
            ],
            ..self
        }
    }

    /// The state after `channel` has produced the samples of one frame.
    pub open spec fn after_frame(self, channel: int) -> AudioState {
        AudioState {
            channels: self.channels.update(
                channel,
                self.channels[channel].after(self.samples_per_frame()),
            ),
            ..self
        }
    }
}

/// The audio generator: two channels that take their settings from the
/// adapter's audio registers once a frame.
pub struct VcsAudio {
    channels: Vec<VcsAudioChannel>,
    frames_per_second: u32,
}

impl View for VcsAudio {
    type V = AudioState;

    closed spec fn view(&self) -> AudioState {
        AudioState {
            channels: Seq::new(self.channels@.len(), |i: int| self.channels@[i]@),
            frames_per_second: self.frames_per_second,
        }
    }
}

impl VcsAudio {
    /// Whether the generator is in a state that its own operations lead to:
    /// its state is, and so are its channels.
    pub open spec fn wf(&self) -> bool {
        &&& self@.wf()
        &&& self.channels_wf()
    }

    /// Whether there are two channels, each in a state that its operations
    /// lead to.
    pub closed spec fn channels_wf(&self) -> bool {
        &&& self.channels@.len() == 2
        &&& self.channels@[0].wf()
        &&& self.channels@[1].wf()
    }

    /// A generator of two channels that have not been set up, for a console
    /// that shows `frames_per_second` frames a second.
    pub fn new(frames_per_second: u32) -> (audio: VcsAudio)
        requires
            frames_per_second > 0,
        ensures
            audio.wf(),
            audio@ == (AudioState {
                channels: seq![ChannelState::initial(), ChannelState::initial()],
                frames_per_second,
            }),
    {
        let mut achannels: Vec<VcsAudioChannel> = Vec::with_capacity(2);
        achannels.push(VcsAudioChannel::new());
        achannels.push(VcsAudioChannel::new());
        let audio = VcsAudio { channels: achannels, frames_per_second };
        assert(audio@.channels =~= seq![ChannelState::initial(), ChannelState::initial()]);
        audio
    }

    /// Takes over the audio registers of the adapter.
    pub fn execute_tick(&mut self, tia: &VcsTia)
        requires
            old(self).wf(),
            tia.wf(),
        ensures
            final(self).wf(),
            final(self)@ == old(self)@.execute_tick(tia@),
    {
        let mut register1: u8 = tia.get_audio_v0();
        let mut register2: u8 = tia.get_audio_f0();
        let mut register3: u8 = tia.get_audio_c0();
        self.channels[0].set_channel_settings(register1, register2, register3);

        register1 = tia.get_audio_v1();
        register2 = tia.get_audio_f1();
        register3 = tia.get_audio_c1();
        self.channels[1].set_channel_settings(register1, register2, register3);
        assert(self@.channels =~= old(self)@.execute_tick(tia@).channels);
    }

    /// The samples of one frame from `channel`: as many as the sample rate
    /// divided by the frame rate.
    pub fn get_audio_buffer(&mut self, channel: usize) -> (buffer: Vec<u16>)
        requires
            old(self).wf(),
            channel < 2,
        ensures
            final(self).wf(),
            buffer@.len() == 48000int / old(self)@.frames_per_second as int,
            forall|i: int|
                0 <= i < buffer@.len() ==> buffer@[i] == old(self)@.channels[channel as int].sample(
                    i as nat,
                ),
            final(self)@ == old(self)@.after_frame(channel as int),
    {
        let buffer = self.channels[channel].callback(
            DATA_SAMPLE_RATE_HZ / self.frames_per_second as usize,
        );
        assert(self@.channels =~= old(self)@.after_frame(channel as int).channels);
        buffer
    }
}

} // verus!
