use vcs::vcs_audio::VcsAudio;
use vcs::vcs_audio_channel::{
    VcsAudioChannel, BUFFER_SIZE, DATA_SAMPLE_RATE_HZ, SAMPLES_PER_FRAME,
};
use vcs::vcs_console_type::{ConsoleType, VcsConsoleType};
use vcs::vcs_tia::VcsTia;

fn channel(volume: u8, frequency: u8, shape: u8) -> VcsAudioChannel {
    let mut channel = VcsAudioChannel::new();
    channel.set_channel_settings(volume, frequency, shape);
    channel
}

/// The lengths of the runs of equal samples.
fn runs(samples: &[u16]) -> Vec<(u16, usize)> {
    let mut result: Vec<(u16, usize)> = Vec::new();
    for s in samples {
        match result.last_mut() {
            Some((value, count)) if *value == *s => *count += 1,
            _ => result.push((*s, 1)),
        }
    }
    result
}

#[test]
fn the_constants_fit_an_ntsc_frame() {
    assert_eq!(DATA_SAMPLE_RATE_HZ, 48000);
    assert_eq!(SAMPLES_PER_FRAME, 800);
    assert_eq!(BUFFER_SIZE, 800);
}

#[test]
fn a_channel_that_was_never_set_up_is_silent() {
    let mut channel = VcsAudioChannel::new();
    let buffer = channel.callback(800);
    assert_eq!(buffer.len(), 800);
    assert!(buffer.iter().all(|s| *s == 0));
}

#[test]
fn the_buffer_has_the_length_asked_for() {
    let mut c = channel(15, 1, 4);
    assert_eq!(c.callback(800).len(), 800);
    assert_eq!(c.callback(960).len(), 960);
    assert_eq!(c.callback(0).len(), 0);
    assert_eq!(c.callback(1).len(), 1);
}

#[test]
fn a_square_wave_at_15_khz_is_half_high_and_half_low() {
    let mut c = channel(15, 1, 4);
    let buffer = c.callback(800);
    assert_eq!(buffer.len(), 800);
    assert_eq!(buffer.iter().filter(|s| **s == 128).count(), 400);
    assert_eq!(buffer.iter().filter(|s| **s == 0).count(), 400);
    // a period is 6.4 samples: runs of three and four samples in turn
    let runs = runs(&buffer);
    assert_eq!(runs.len(), 250);
    for (i, (value, count)) in runs.iter().enumerate() {
        assert_eq!(*value, if i % 2 == 0 { 128 } else { 0 });
        assert!(*count == 3 || *count == 4);
    }
    assert_eq!(&buffer[0..8], &[128, 128, 128, 128, 0, 0, 0, 128]);
}

#[test]
fn the_wave_goes_on_where_the_last_buffer_ended() {
    let mut whole = channel(15, 3, 4);
    let mut parts = channel(15, 3, 4);
    let expected = whole.callback(800);
    let mut got = parts.callback(300);
    got.extend(parts.callback(500));
    assert_eq!(got, expected);
}

#[test]
fn volume_zero_is_silent() {
    for shape in 0..16u8 {
        let mut c = channel(0, 1, shape);
        assert!(c.callback(800).iter().all(|s| *s == 0), "shape {}", shape);
        let mut c = channel(0xf0, 7, shape);
        assert!(c.callback(800).iter().all(|s| *s == 0), "shape {}", shape);
    }
}

#[test]
fn shapes_0_and_11_are_silent() {
    for volume in 0..16u8 {
        for shape in [0u8, 11, 0x10, 0x1b, 0xf0, 0xfb] {
            let mut c = channel(volume, 2, shape);
            assert!(c.callback(800).iter().all(|s| *s == 0));
        }
    }
    // silence ends when a shape is selected again
    let mut c = channel(15, 1, 0);
    assert!(c.callback(800).iter().all(|s| *s == 0));
    c.set_channel_settings(15, 1, 4);
    assert!(c.callback(800).iter().any(|s| *s == 128));
}

#[test]
fn the_volume_steps_are_the_table() {
    let steps: [u16; 16] = [0, 9, 17, 26, 34, 43, 51, 60, 68, 77, 85, 94, 103, 111, 120, 128];
    for volume in 0..16u8 {
        let mut c = channel(volume, 0, 4);
        let buffer = c.callback(16);
        assert_eq!(buffer[0], steps[volume as usize]);
        assert_eq!(buffer.iter().max().copied(), Some(steps[volume as usize]));
        // only the low nibble counts
        let mut c = channel(volume | 0xf0, 0, 4);
        assert_eq!(c.callback(1)[0], steps[volume as usize]);
    }
}

#[test]
fn the_frequency_is_the_clock_over_the_divider() {
    // AUDF 31: 30000 / 32 = 937 Hz, a clock every 51.2 samples
    let mut c = channel(15, 31, 4);
    let buffer = c.callback(800);
    let runs = runs(&buffer);
    assert_eq!(runs[0], (128, 52));
    assert_eq!(runs[1], (0, 51));
    assert_eq!(runs[2], (128, 51));
    // AUDF 0: 30000 Hz, a clock every 1.6 samples
    let mut c = channel(15, 0, 4);
    let buffer = c.callback(16);
    assert_eq!(&buffer[0..8], &[128, 128, 0, 0, 128, 0, 0, 128]);
    // only the low five bits count
    let mut a = channel(15, 0x20 | 5, 4);
    let mut b = channel(15, 5, 4);
    assert_eq!(a.callback(800), b.callback(800));
}

#[test]
fn the_four_bit_counter_starts_from_all_ones() {
    let mut c = channel(15, 0, 1);
    let buffer = c.callback(6);
    assert_eq!(buffer, vec![128, 128, 128, 128, 128, 0]);
}

#[test]
fn the_divider_by_31_is_high_for_18_counts() {
    // AUDF 0 and shape 6: the divider counts a clock every 1.6 samples
    let mut c = channel(15, 0, 6);
    let buffer = c.callback(800);
    let high = buffer.iter().filter(|s| **s == 128).count();
    let low = buffer.iter().filter(|s| **s == 0).count();
    assert_eq!(high + low, 800);
    // 500 clocks: 16 whole rounds of 31 and four counts more
    assert_eq!(low, 16 * 13 * 8 / 5);
}

#[test]
fn a_third_halves_the_rate() {
    let mut full = channel(15, 1, 4);
    let mut third = channel(15, 1, 12);
    let full_runs = runs(&full.callback(800));
    let third_runs = runs(&third.callback(800));
    assert_eq!(full_runs.len(), 250);
    // the first clock is the one left out, so the wave starts low; 125
    // changes of level make 126 runs
    assert_eq!(third_runs.len(), 126);
    assert_eq!(third_runs[0], (0, 4));
    assert_eq!(third_runs[1], (128, 6));
    assert_eq!(third_runs[2], (0, 6));
    assert_eq!(third_runs[3], (128, 7));
}

#[test]
fn selecting_the_same_shape_again_keeps_the_wave() {
    let mut again = channel(15, 1, 4);
    let mut once = channel(15, 1, 4);
    let mut got = again.callback(5);
    again.set_channel_settings(15, 1, 4);
    got.extend(again.callback(795));
    assert_eq!(got, once.callback(800));
}

#[test]
fn a_frame_of_audio_has_the_samples_of_a_frame() {
    let tia = VcsTia::new(&VcsConsoleType::new(ConsoleType::NTSC));
    let mut audio = VcsAudio::new(60);
    audio.execute_tick(&tia);
    assert_eq!(audio.get_audio_buffer(0).len(), 800);
    assert_eq!(audio.get_audio_buffer(1).len(), 800);
    let mut audio = VcsAudio::new(50);
    audio.execute_tick(&tia);
    assert_eq!(audio.get_audio_buffer(0).len(), 960);
    assert_eq!(audio.get_audio_buffer(1).len(), 960);
}

#[test]
fn the_generator_takes_its_settings_from_the_adapter() {
    let mut tia = VcsTia::new(&VcsConsoleType::new(ConsoleType::NTSC));
    tia.reset();
    tia.write(0x15, 4);
    tia.write(0x17, 1);
    tia.write(0x19, 15);
    tia.write(0x16, 4);
    tia.write(0x18, 1);
    tia.write(0x1a, 1);
    let mut audio = VcsAudio::new(60);
    assert!(audio.get_audio_buffer(0).iter().all(|s| *s == 0));
    audio.execute_tick(&tia);
    let left = audio.get_audio_buffer(0);
    let right = audio.get_audio_buffer(1);
    assert_eq!(left.iter().filter(|s| **s == 128).count(), 400);
    assert_eq!(right.iter().filter(|s| **s == 9).count(), 400);
    assert_eq!(right.iter().filter(|s| **s == 0).count(), 400);
}
