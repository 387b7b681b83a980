use vcs::vcs_console_type::{ConsoleType, VcsConsoleType};
use vcs::vcs_palette::VcsPalette;

#[test]
fn ntsc_timing() {
    let ntsc = VcsConsoleType::new(ConsoleType::NTSC);
    assert_eq!(ntsc.get_console_type(), ConsoleType::NTSC);
    assert_eq!(ntsc.get_video_type(), ConsoleType::NTSC);
    assert_eq!(ntsc.get_x_resolution(), 160);
    assert_eq!(ntsc.get_y_resolution(), 210);
    assert_eq!(ntsc.get_frames_per_second(), 60);
    assert_eq!(ntsc.get_v_blank_lines(), 37);
    assert_eq!(ntsc.ticks_per_second(), 3_579_545);
    assert_eq!(ntsc.get_ticks_per_frame(), 59_659);
    assert_eq!(ntsc.audio_samples_per_frame(), 800);
}

#[test]
fn pal_timing() {
    let pal = VcsConsoleType::new(ConsoleType::PAL);
    assert_eq!(pal.get_console_type(), ConsoleType::PAL);
    assert_eq!(pal.get_x_resolution(), 160);
    assert_eq!(pal.get_y_resolution(), 228);
    assert_eq!(pal.get_frames_per_second(), 50);
    assert_eq!(pal.get_v_blank_lines(), 45);
    assert_eq!(pal.ticks_per_second(), 3_546_894);
    assert_eq!(pal.get_ticks_per_frame(), 70_937);
    assert_eq!(pal.audio_samples_per_frame(), 960);
}

#[test]
fn secam_runs_on_pal_timing() {
    let secam = VcsConsoleType::new(ConsoleType::SECAM);
    let pal = VcsConsoleType::new(ConsoleType::PAL);
    assert_eq!(secam.get_video_type(), ConsoleType::SECAM);
    assert_eq!(secam.get_y_resolution(), pal.get_y_resolution());
    assert_eq!(secam.get_frames_per_second(), pal.get_frames_per_second());
    assert_eq!(secam.get_v_blank_lines(), pal.get_v_blank_lines());
    assert_eq!(secam.ticks_per_second(), pal.ticks_per_second());
    assert_eq!(secam.get_ticks_per_frame(), pal.get_ticks_per_frame());
    assert_eq!(secam.audio_samples_per_frame(), pal.audio_samples_per_frame());
}

#[test]
fn the_samples_of_a_frame_divide_the_sample_rate_exactly() {
    for kind in [ConsoleType::NTSC, ConsoleType::PAL, ConsoleType::SECAM] {
        let console = VcsConsoleType::new(kind);
        assert_eq!(
            console.audio_samples_per_frame() * console.get_frames_per_second() as usize,
            48000
        );
    }
}

#[test]
fn the_palette_maps_the_upper_seven_bits() {
    let ntsc = VcsPalette::new(ConsoleType::NTSC);
    assert_eq!(ntsc.get_color(0x00), (0x00, 0x00, 0x00));
    assert_eq!(ntsc.get_color(0x0e), (0xec, 0xec, 0xec));
    assert_eq!(ntsc.get_color(0x1e), (0xfc, 0xfc, 0x54));
    assert_eq!(ntsc.get_color(0x44), (0xb8, 0x32, 0x32));
    assert_eq!(ntsc.get_color(0xfe), (0xfc, 0xe0, 0x70));
    for index in 0..128usize {
        assert_eq!(ntsc.get_color(2 * index), ntsc.get_color(2 * index + 1));
    }
    assert_eq!(ntsc.get_color(0x100), ntsc.get_color(0x00));
}

#[test]
fn pal_and_secam_share_their_colours() {
    let pal = VcsPalette::new(ConsoleType::PAL);
    let secam = VcsPalette::new(ConsoleType::SECAM);
    assert_eq!(pal.get_color(0x00), (0x00, 0x00, 0x00));
    assert_eq!(pal.get_color(0x1e), (0xec, 0xec, 0xec));
    assert_eq!(pal.get_color(0x20), (0x80, 0x58, 0x00));
    assert_eq!(pal.get_color(0x44), (0xa0, 0x6b, 0x32));
    assert_eq!(pal.get_color(0xfe), (0xec, 0xec, 0xec));
    for index in 0..256usize {
        assert_eq!(pal.get_color(index), secam.get_color(index));
    }
}
