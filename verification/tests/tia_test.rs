use vcs::vcs_console_type::{ConsoleType, VcsConsoleType};
use vcs::vcs_palette::VcsPalette;
use vcs::vcs_tia::VcsTia;
use vcs::vcs_tia_model::{
    REG_COLUBK, REG_COLUP0, REG_COLUP1, REG_COLUPF, REG_CTRLPF, REG_CXCLR, REG_CXP0FB, REG_CXPPMM,
    REG_ENABL, REG_ENAM0, REG_GRP0, REG_GRP1, REG_HMCLR, REG_HMM0, REG_HMOVE, REG_HMP0, REG_HMP1,
    REG_INPT4, REG_NUSIZ0, REG_PF0, REG_PF1, REG_PF2, REG_REFP0, REG_RESBL, REG_RESM0, REG_RESMP0,
    REG_RESP0, REG_RESP1, REG_RSYNC, REG_VBLANK, REG_VDELP0, REG_VSYNC, REG_WSYNC,
};

fn fresh(kind: ConsoleType) -> VcsTia {
    let mut tia = VcsTia::new(&VcsConsoleType::new(kind));
    tia.reset();
    tia
}

/// Runs the adapter as the console does: a tick, then the check for a
/// completed frame. Says whether a frame was completed.
fn ticks(tia: &mut VcsTia, n: u32) -> bool {
    let mut done = false;
    for _ in 0..n {
        tia.execute_tick();
        if tia.repaint() {
            done = true;
        }
    }
    done
}

/// Runs to the given cycle of the current or the next line.
fn run_to_cycle(tia: &mut VcsTia, cycle: u16) {
    while tia.get_cycle() != cycle {
        ticks(tia, 1);
    }
}

/// Runs to the start of the given line.
fn run_to_line(tia: &mut VcsTia, line: u16) {
    while !(tia.get_scan_line() == line && tia.get_cycle() == 0) {
        ticks(tia, 1);
    }
}

/// Ends the frame as a program does, so that what was drawn is displayed.
fn finish_frame(tia: &mut VcsTia) -> Vec<u8> {
    tia.write(REG_VSYNC, 2);
    tia.write(REG_VSYNC, 0);
    assert_eq!(tia.get_scan_line(), 2);
    let mut done = false;
    while !done {
        done = ticks(tia, 1);
    }
    assert_eq!(tia.get_scan_line(), 3);
    assert_eq!(tia.get_cycle(), 0);
    tia.get_screen()
}

fn pixel(frame: &[u8], x: usize, y: usize) -> (u8, u8, u8) {
    let at = (y * 160 + x) * 3;
    (frame[at], frame[at + 1], frame[at + 2])
}

/// Draws the first line of the picture and gives it back as colours.
fn first_line(tia: &mut VcsTia) -> Vec<(u8, u8, u8)> {
    run_to_line(tia, 40);
    ticks(tia, 227);
    let frame = finish_frame(tia);
    (0..160).map(|x| pixel(&frame, x, 0)).collect()
}

fn ntsc(index: usize) -> (u8, u8, u8) {
    VcsPalette::new(ConsoleType::NTSC).get_color(index)
}

#[test]
fn a_new_adapter_has_a_black_frame_of_the_size_of_its_standard() {
    let tia = VcsTia::new(&VcsConsoleType::new(ConsoleType::NTSC));
    let frame = tia.get_screen();
    assert_eq!(frame.len(), 160 * 210 * 3);
    assert!(frame.iter().all(|b| *b == 0));
    let tia = VcsTia::new(&VcsConsoleType::new(ConsoleType::PAL));
    assert_eq!(tia.get_screen().len(), 160 * 228 * 3);
    let tia = VcsTia::new(&VcsConsoleType::new(ConsoleType::SECAM));
    assert_eq!(tia.get_screen().len(), 160 * 228 * 3);
}

#[test]
fn reset_rests_the_input_lines_high() {
    let tia = fresh(ConsoleType::NTSC);
    for port in 0x38..=0x3d {
        assert_eq!(tia.read(port), 0xff);
    }
    for port in 0x30..=0x37 {
        assert_eq!(tia.read(port), 0);
    }
    assert_eq!(tia.get_cycle(), 0);
    assert_eq!(tia.get_scan_line(), 0);
    assert!(!tia.is_cpu_blocked());
}

#[test]
fn an_undefined_read_gives_the_first_port() {
    let mut tia = fresh(ConsoleType::NTSC);
    assert_eq!(tia.read(0x00), 0);
    assert_eq!(tia.read(0x2f), 0);
    assert_eq!(tia.read(0x3e), 0);
    assert_eq!(tia.read(0x7f), 0);
    // let missile 0 meet player 0, which sets bit 6 of the first port
    tia.write(REG_GRP0, 0xff);
    tia.write(REG_ENAM0, 0x02);
    tia.write(REG_NUSIZ0, 0x30);
    run_to_cycle(&mut tia, 100);
    tia.write(REG_RESP0, 0);
    tia.write(REG_RESM0, 0);
    run_to_line(&mut tia, 42);
    assert_eq!(tia.read(0x30), 0x40);
    assert_eq!(tia.read(0x00), 0x40);
    assert_eq!(tia.read(0x3e), 0x40);
    assert_eq!(tia.read(0x3c), 0xff);
}

#[test]
fn a_write_above_the_last_register_is_dropped() {
    let mut tia = fresh(ConsoleType::NTSC);
    tia.write(0x3c, 0x00);
    assert_eq!(tia.read(0x3c), 0xff);
    tia.write(0x30, 0xff);
    assert_eq!(tia.read(0x30), 0x00);
    tia.write(0x2d, 0xff);
    tia.write(0x7f, 0xff);
    for port in 0x30..=0x37 {
        assert_eq!(tia.read(port), 0);
    }
}

#[test]
fn the_fire_button_pulls_its_line_low() {
    let mut tia = fresh(ConsoleType::NTSC);
    tia.left_controller_trigger(true);
    assert_eq!(tia.read(REG_INPT4), 0x7f);
    tia.left_controller_trigger(false);
    assert_eq!(tia.read(REG_INPT4), 0xff);
}

#[test]
fn the_beam_wraps_after_228_clocks() {
    let mut tia = fresh(ConsoleType::NTSC);
    ticks(&mut tia, 227);
    assert_eq!((tia.get_cycle(), tia.get_scan_line()), (227, 0));
    ticks(&mut tia, 1);
    assert_eq!((tia.get_cycle(), tia.get_scan_line()), (0, 1));
    ticks(&mut tia, 228 * 5 + 17);
    assert_eq!((tia.get_cycle(), tia.get_scan_line()), (17, 6));
    tia.write(REG_RSYNC, 0);
    assert_eq!((tia.get_cycle(), tia.get_scan_line()), (0, 6));
}

#[test]
fn a_frame_is_done_at_the_start_of_line_three() {
    let mut tia = fresh(ConsoleType::NTSC);
    assert!(!ticks(&mut tia, 3 * 228 - 1));
    assert!(ticks(&mut tia, 1));
    assert_eq!((tia.get_cycle(), tia.get_scan_line()), (0, 3));
    assert!(!ticks(&mut tia, 262 * 228));
}

#[test]
fn vsync_going_low_starts_the_frame_at_line_two() {
    let mut tia = fresh(ConsoleType::NTSC);
    ticks(&mut tia, 228 * 100 + 50);
    tia.write(REG_VSYNC, 2);
    assert_eq!(tia.get_scan_line(), 100);
    tia.write(REG_VSYNC, 2);
    assert_eq!(tia.get_scan_line(), 100);
    tia.write(REG_VSYNC, 0);
    assert_eq!(tia.get_scan_line(), 2);
    assert_eq!(tia.get_cycle(), 50);
    tia.write(REG_VSYNC, 0);
    ticks(&mut tia, 10);
    assert_eq!(tia.get_scan_line(), 2);
}

#[test]
fn vblank_going_low_late_starts_the_picture() {
    let mut tia = fresh(ConsoleType::NTSC);
    ticks(&mut tia, 228 * 35);
    tia.write(REG_VBLANK, 2);
    tia.write(REG_VBLANK, 0);
    assert_eq!(tia.get_scan_line(), 39);
    // too early, the write only sets the register
    let mut tia = fresh(ConsoleType::NTSC);
    ticks(&mut tia, 228 * 20);
    tia.write(REG_VBLANK, 2);
    tia.write(REG_VBLANK, 0);
    assert_eq!(tia.get_scan_line(), 20);
    let mut tia = fresh(ConsoleType::PAL);
    ticks(&mut tia, 228 * 40);
    tia.write(REG_VBLANK, 2);
    tia.write(REG_VBLANK, 0);
    assert_eq!(tia.get_scan_line(), 47);
}

#[test]
fn wsync_holds_the_processor_until_cycle_three() {
    let mut tia = fresh(ConsoleType::NTSC);
    ticks(&mut tia, 10);
    tia.write(REG_WSYNC, 0);
    assert!(tia.is_cpu_blocked());
    ticks(&mut tia, 220);
    assert!(tia.is_cpu_blocked());
    assert_eq!((tia.get_cycle(), tia.get_scan_line()), (2, 1));
    ticks(&mut tia, 1);
    assert!(!tia.is_cpu_blocked());
    assert_eq!((tia.get_cycle(), tia.get_scan_line()), (3, 1));
}

#[test]
fn wsync_before_cycle_three_ends_on_the_same_line() {
    let mut tia = fresh(ConsoleType::NTSC);
    ticks(&mut tia, 1);
    tia.write(REG_WSYNC, 0xff);
    assert!(tia.is_cpu_blocked());
    ticks(&mut tia, 1);
    assert!(tia.is_cpu_blocked());
    ticks(&mut tia, 1);
    assert!(!tia.is_cpu_blocked());
    assert_eq!((tia.get_cycle(), tia.get_scan_line()), (3, 0));
}

#[test]
fn a_frame_without_objects_is_all_background() {
    let mut tia = fresh(ConsoleType::NTSC);
    tia.write(REG_COLUBK, 0x1e);
    run_to_line(&mut tia, 250);
    let frame = finish_frame(&mut tia);
    assert_eq!(frame.len(), 100_800);
    let expected = ntsc(0x1e);
    assert_eq!(expected, (0xfc, 0xfc, 0x54));
    for y in 0..210 {
        for x in 0..160 {
            assert_eq!(pixel(&frame, x, y), expected, "x {} y {}", x, y);
        }
    }
}

#[test]
fn a_pal_frame_without_objects_is_all_background() {
    let mut tia = fresh(ConsoleType::PAL);
    tia.write(REG_COLUBK, 0x44);
    run_to_line(&mut tia, 48 + 228);
    let frame = finish_frame(&mut tia);
    assert_eq!(frame.len(), 160 * 228 * 3);
    let expected = VcsPalette::new(ConsoleType::PAL).get_color(0x44);
    assert_eq!(expected, (0xa0, 0x6b, 0x32));
    for at in 0..160 * 228 {
        assert_eq!((frame[at * 3], frame[at * 3 + 1], frame[at * 3 + 2]), expected);
    }
}

#[test]
fn the_picture_starts_after_the_vertical_blank() {
    let mut tia = fresh(ConsoleType::NTSC);
    // a frame as a program makes it: sync, blank, 192 lines of picture
    tia.write(REG_VSYNC, 2);
    ticks(&mut tia, 3 * 228);
    tia.write(REG_VSYNC, 0);
    assert_eq!(tia.get_scan_line(), 2);
    tia.write(REG_VBLANK, 2);
    ticks(&mut tia, 37 * 228);
    tia.write(REG_VBLANK, 0);
    tia.write(REG_COLUBK, 0x44);
    ticks(&mut tia, 192 * 228);
    tia.write(REG_COLUBK, 0x00);
    run_to_line(&mut tia, 250);
    let frame = finish_frame(&mut tia);
    let red = ntsc(0x44);
    assert_eq!(red, (0xb8, 0x32, 0x32));
    // the line on which the blank ends belongs to the blank, so 191 of the
    // 192 lines are part of the frame
    for y in 0..191 {
        for x in 0..160 {
            assert_eq!(pixel(&frame, x, y), red, "x {} y {}", x, y);
        }
    }
    for y in 191..210 {
        for x in 0..160 {
            assert_eq!(pixel(&frame, x, y), (0, 0, 0), "x {} y {}", x, y);
        }
    }
}

fn lit(line: &[(u8, u8, u8)], color: (u8, u8, u8)) -> Vec<usize> {
    (0..160).filter(|x| line[*x] == color).collect()
}

#[test]
fn the_playfield_repeats_on_the_right() {
    let mut tia = fresh(ConsoleType::NTSC);
    tia.write(REG_COLUPF, 0x44);
    tia.write(REG_PF0, 0x10);
    tia.write(REG_PF1, 0x80);
    tia.write(REG_PF2, 0x01);
    let line = first_line(&mut tia);
    let mut expected: Vec<usize> = Vec::new();
    for start in [0usize, 16, 48, 80, 96, 128] {
        expected.extend(start..start + 4);
    }
    assert_eq!(lit(&line, ntsc(0x44)), expected);
}

#[test]
fn the_mirrored_playfield_is_symmetric() {
    let mut tia = fresh(ConsoleType::NTSC);
    tia.write(REG_COLUPF, 0x44);
    tia.write(REG_CTRLPF, 0x01);
    tia.write(REG_PF0, 0x10);
    tia.write(REG_PF1, 0x80);
    tia.write(REG_PF2, 0x01);
    let line = first_line(&mut tia);
    let mut expected: Vec<usize> = Vec::new();
    for start in [0usize, 16, 48, 108, 140, 156] {
        expected.extend(start..start + 4);
    }
    assert_eq!(lit(&line, ntsc(0x44)), expected);
    for x in 0..160 {
        assert_eq!(line[x], line[159 - x]);
    }
}

#[test]
fn every_playfield_bit_has_its_four_columns() {
    for pattern in [(0xf0u8, 0x00u8, 0x00u8), (0x00, 0xff, 0x00), (0x00, 0x00, 0xff), (0xa0, 0x55, 0x33)]
    {
        for mirror in [0u8, 1] {
            let mut tia = fresh(ConsoleType::NTSC);
            tia.write(REG_COLUPF, 0x44);
            tia.write(REG_CTRLPF, mirror);
            tia.write(REG_PF0, pattern.0);
            tia.write(REG_PF1, pattern.1);
            tia.write(REG_PF2, pattern.2);
            let line = first_line(&mut tia);
            for x in 0..160usize {
                let k = if x < 80 {
                    x / 4
                } else if mirror == 1 {
                    19 - (x - 80) / 4
                } else {
                    (x - 80) / 4
                };
                let on = if k < 4 {
                    pattern.0 >> (4 + k) & 1
                } else if k < 12 {
                    pattern.1 >> (11 - k) & 1
                } else {
                    pattern.2 >> (k - 12) & 1
                };
                assert_eq!(line[x] == ntsc(0x44), on == 1, "x {} mirror {}", x, mirror);
            }
        }
    }
}

#[test]
fn score_mode_colours_the_halves_like_the_players() {
    let mut tia = fresh(ConsoleType::NTSC);
    tia.write(REG_COLUPF, 0x44);
    tia.write(REG_COLUP0, 0x1e);
    tia.write(REG_COLUP1, 0x84);
    tia.write(REG_CTRLPF, 0x02);
    tia.write(REG_PF2, 0x80);
    let line = first_line(&mut tia);
    assert_eq!(lit(&line, ntsc(0x1e)), (76..80).collect::<Vec<usize>>());
    assert_eq!(lit(&line, ntsc(0x84)), (156..160).collect::<Vec<usize>>());
    assert_eq!(lit(&line, ntsc(0x44)), Vec::<usize>::new());
}

#[test]
fn a_reset_strobe_places_an_object_five_clocks_on() {
    let mut tia = fresh(ConsoleType::NTSC);
    run_to_cycle(&mut tia, 100);
    tia.write(REG_RESP0, 0);
    tia.write(REG_RESM0, 0);
    run_to_cycle(&mut tia, 150);
    tia.write(REG_RESP1, 0);
    tia.write(REG_RESBL, 0);
    assert_eq!(tia.get_object_cycles(), (105, 155, 105, 0, 155));
    // an object never goes left of cycle 71
    run_to_cycle(&mut tia, 10);
    tia.write(REG_RESP0, 0);
    assert_eq!(tia.get_object_cycles().0, 71);
    run_to_cycle(&mut tia, 63);
    tia.write(REG_RESP0, 0);
    assert_eq!(tia.get_object_cycles().0, 71);
    run_to_cycle(&mut tia, 66);
    tia.write(REG_RESM0, 0);
    assert_eq!(tia.get_object_cycles().2, 71);
    run_to_cycle(&mut tia, 67);
    tia.write(REG_RESBL, 0);
    assert_eq!(tia.get_object_cycles().4, 72);
}

#[test]
fn hmove_moves_by_the_signed_nibble() {
    let mut tia = fresh(ConsoleType::NTSC);
    run_to_cycle(&mut tia, 100);
    tia.write(REG_RESP0, 0);
    tia.write(REG_RESP1, 0);
    tia.write(REG_HMP0, 0x70);
    tia.write(REG_HMOVE, 0);
    assert_eq!(tia.get_object_cycles().0, 105 - 7);
    assert_eq!(tia.get_object_cycles().1, 105);
    tia.write(REG_HMP0, 0x80);
    tia.write(REG_HMOVE, 0);
    assert_eq!(tia.get_object_cycles().0, 98 + 8);
    tia.write(REG_HMP0, 0x10);
    tia.write(REG_HMP1, 0xf0);
    tia.write(REG_HMOVE, 0);
    assert_eq!(tia.get_object_cycles().0, 105);
    assert_eq!(tia.get_object_cycles().1, 106);
    // the low nibble takes no part
    tia.write(REG_HMP0, 0x0f);
    tia.write(REG_HMP1, 0x0f);
    tia.write(REG_HMOVE, 0);
    assert_eq!(tia.get_object_cycles().0, 105);
    assert_eq!(tia.get_object_cycles().1, 106);
}

#[test]
fn hmove_brings_an_object_back_at_the_other_edge() {
    let mut tia = fresh(ConsoleType::NTSC);
    run_to_cycle(&mut tia, 65);
    tia.write(REG_RESP0, 0);
    assert_eq!(tia.get_object_cycles().0, 71);
    tia.write(REG_HMP0, 0x70);
    tia.write(REG_HMOVE, 0);
    assert_eq!(tia.get_object_cycles().0, 228);
    tia.write(REG_HMP0, 0xf0);
    tia.write(REG_HMOVE, 0);
    assert_eq!(tia.get_object_cycles().0, 68);
    // objects that were never placed stand at zero and come in at the edge
    assert_eq!(tia.get_object_cycles().4, 228);
}

#[test]
fn hmclr_clears_the_motion() {
    let mut tia = fresh(ConsoleType::NTSC);
    run_to_cycle(&mut tia, 100);
    tia.write(REG_RESP0, 0);
    tia.write(REG_RESM0, 0);
    tia.write(REG_HMP0, 0x70);
    tia.write(REG_HMM0, 0x70);
    tia.write(REG_HMCLR, 0);
    tia.write(REG_HMOVE, 0);
    assert_eq!(tia.get_object_cycles().0, 105);
    assert_eq!(tia.get_object_cycles().2, 105);
}

#[test]
fn a_player_is_drawn_high_bit_first() {
    let mut tia = fresh(ConsoleType::NTSC);
    tia.write(REG_COLUP0, 0x1e);
    tia.write(REG_GRP0, 0b1100_0001);
    run_to_cycle(&mut tia, 95);
    tia.write(REG_RESP0, 0);
    let line = first_line(&mut tia);
    assert_eq!(lit(&line, ntsc(0x1e)), vec![32, 33, 39]);
}

#[test]
fn a_reflected_player_is_drawn_low_bit_first() {
    let mut tia = fresh(ConsoleType::NTSC);
    tia.write(REG_COLUP0, 0x1e);
    tia.write(REG_GRP0, 0b1100_0001);
    tia.write(REG_REFP0, 0x08);
    run_to_cycle(&mut tia, 95);
    tia.write(REG_RESP0, 0);
    let line = first_line(&mut tia);
    assert_eq!(lit(&line, ntsc(0x1e)), vec![32, 38, 39]);
}

#[test]
fn nusiz_sets_copies_and_width_of_a_player() {
    // (NUSIZ, the columns lit by a player with only its leading bit set)
    let cases: [(u8, Vec<usize>); 8] = [
        (0, vec![32]),
        (1, vec![32, 48]),
        (2, vec![32, 72]),
        (3, vec![32, 48, 64]),
        (4, vec![32, 104]),
        (5, vec![32, 33]),
        (6, vec![32, 72, 112]),
        (7, vec![32, 33, 34, 35]),
    ];
    for (nusiz, expected) in cases {
        let mut tia = fresh(ConsoleType::NTSC);
        tia.write(REG_COLUP0, 0x1e);
        tia.write(REG_GRP0, 0x80);
        tia.write(REG_NUSIZ0, nusiz);
        run_to_cycle(&mut tia, 95);
        tia.write(REG_RESP0, 0);
        let line = first_line(&mut tia);
        assert_eq!(lit(&line, ntsc(0x1e)), expected, "NUSIZ {}", nusiz);
    }
}

#[test]
fn a_missile_has_the_width_of_its_size_bits() {
    for (size, width) in [(0x00u8, 1usize), (0x10, 2), (0x20, 4), (0x30, 8)] {
        let mut tia = fresh(ConsoleType::NTSC);
        tia.write(REG_COLUP0, 0x1e);
        tia.write(REG_ENAM0, 0x02);
        tia.write(REG_NUSIZ0, size);
        run_to_cycle(&mut tia, 95);
        tia.write(REG_RESM0, 0);
        let line = first_line(&mut tia);
        assert_eq!(lit(&line, ntsc(0x1e)), (32..32 + width).collect::<Vec<usize>>());
    }
    // copies as for the player
    let mut tia = fresh(ConsoleType::NTSC);
    tia.write(REG_COLUP0, 0x1e);
    tia.write(REG_ENAM0, 0x02);
    tia.write(REG_NUSIZ0, 0x03);
    run_to_cycle(&mut tia, 95);
    tia.write(REG_RESM0, 0);
    let line = first_line(&mut tia);
    assert_eq!(lit(&line, ntsc(0x1e)), vec![32, 48, 64]);
}

#[test]
fn a_disabled_or_locked_missile_is_not_drawn() {
    let mut tia = fresh(ConsoleType::NTSC);
    tia.write(REG_COLUP0, 0x1e);
    tia.write(REG_ENAM0, 0x00);
    run_to_cycle(&mut tia, 95);
    tia.write(REG_RESM0, 0);
    let line = first_line(&mut tia);
    assert_eq!(lit(&line, ntsc(0x1e)), Vec::<usize>::new());

    let mut tia = fresh(ConsoleType::NTSC);
    tia.write(REG_COLUP0, 0x1e);
    tia.write(REG_ENAM0, 0x02);
    tia.write(REG_RESMP0, 0x02);
    run_to_cycle(&mut tia, 96);
    tia.write(REG_RESP0, 0);
    ticks(&mut tia, 1);
    // locked, the missile follows its player
    assert_eq!(tia.get_object_cycles().2, 101 + 3);
    let line = first_line(&mut tia);
    assert_eq!(lit(&line, ntsc(0x1e)), Vec::<usize>::new());
}

#[test]
fn the_ball_has_the_width_of_the_playfield_control() {
    for (size, width) in [(0x00u8, 1usize), (0x10, 2), (0x20, 4), (0x30, 8)] {
        let mut tia = fresh(ConsoleType::NTSC);
        tia.write(REG_COLUPF, 0x44);
        tia.write(REG_ENABL, 0x02);
        tia.write(REG_CTRLPF, size);
        run_to_cycle(&mut tia, 95);
        tia.write(REG_RESBL, 0);
        let line = first_line(&mut tia);
        assert_eq!(lit(&line, ntsc(0x44)), (32..32 + width).collect::<Vec<usize>>());
    }
}

#[test]
fn player_zero_lies_over_player_one_and_both_over_the_playfield() {
    let mut tia = fresh(ConsoleType::NTSC);
    tia.write(REG_COLUP0, 0x1e);
    tia.write(REG_COLUP1, 0x84);
    tia.write(REG_COLUPF, 0x44);
    tia.write(REG_COLUBK, 0x02);
    tia.write(REG_GRP0, 0xff);
    tia.write(REG_GRP1, 0xff);
    tia.write(REG_PF1, 0xff);
    run_to_cycle(&mut tia, 95);
    tia.write(REG_RESP0, 0);
    run_to_cycle(&mut tia, 99);
    tia.write(REG_RESP1, 0);
    let line = first_line(&mut tia);
    assert_eq!(lit(&line, ntsc(0x1e)), (32..40).collect::<Vec<usize>>());
    assert_eq!(lit(&line, ntsc(0x84)), (40..44).collect::<Vec<usize>>());
    let mut field: Vec<usize> = (16..32).collect();
    field.extend(44..48);
    field.extend(96..128);
    assert_eq!(lit(&line, ntsc(0x44)), field);
    assert_eq!(line[0], ntsc(0x02));
}

#[test]
fn with_its_priority_bit_the_playfield_lies_over_the_players() {
    let mut tia = fresh(ConsoleType::NTSC);
    tia.write(REG_COLUP0, 0x1e);
    tia.write(REG_COLUPF, 0x44);
    tia.write(REG_CTRLPF, 0x04);
    tia.write(REG_GRP0, 0xff);
    tia.write(REG_PF1, 0x0f);
    run_to_cycle(&mut tia, 95);
    tia.write(REG_RESP0, 0);
    let line = first_line(&mut tia);
    // PF1 low nibble: bits 8 to 11 of the playfield, columns 32 to 47
    assert_eq!(lit(&line, ntsc(0x1e)), Vec::<usize>::new());
    let mut field: Vec<usize> = (32..48).collect();
    field.extend(112..128);
    assert_eq!(lit(&line, ntsc(0x44)), field);
}

#[test]
fn collisions_are_latched_until_they_are_cleared() {
    let mut tia = fresh(ConsoleType::NTSC);
    tia.write(REG_GRP0, 0xff);
    tia.write(REG_GRP1, 0xff);
    tia.write(REG_PF2, 0xff);
    run_to_cycle(&mut tia, 95);
    tia.write(REG_RESP0, 0);
    tia.write(REG_RESP1, 0);
    run_to_line(&mut tia, 41);
    assert_eq!(tia.read(REG_CXPPMM), 0x80);
    assert_eq!(tia.read(REG_CXP0FB), 0x00);
    // move player 0 onto the playfield
    run_to_cycle(&mut tia, 111);
    tia.write(REG_RESP0, 0);
    run_to_line(&mut tia, 43);
    assert_eq!(tia.read(REG_CXP0FB), 0x80);
    tia.write(REG_GRP0, 0);
    tia.write(REG_GRP1, 0);
    run_to_line(&mut tia, 45);
    assert_eq!(tia.read(REG_CXPPMM), 0x80);
    assert_eq!(tia.read(REG_CXP0FB), 0x80);
    tia.write(REG_CXCLR, 0);
    for port in 0x30..=0x37 {
        assert_eq!(tia.read(port), 0);
    }
    run_to_line(&mut tia, 47);
    for port in 0x30..=0x37 {
        assert_eq!(tia.read(port), 0);
    }
}

#[test]
fn a_delayed_player_waits_for_a_write_to_the_other() {
    let mut tia = fresh(ConsoleType::NTSC);
    tia.write(REG_COLUP0, 0x1e);
    tia.write(REG_VDELP0, 0x01);
    run_to_cycle(&mut tia, 95);
    tia.write(REG_RESP0, 0);
    tia.write(REG_GRP0, 0x80);
    run_to_line(&mut tia, 40);
    ticks(&mut tia, 227);
    // nothing is shown yet
    tia.write(REG_GRP1, 0x00);
    ticks(&mut tia, 228);
    let frame = finish_frame(&mut tia);
    let first: Vec<usize> = (0..160).filter(|x| pixel(&frame, *x, 0) == ntsc(0x1e)).collect();
    let second: Vec<usize> = (0..160).filter(|x| pixel(&frame, *x, 1) == ntsc(0x1e)).collect();
    assert_eq!(first, Vec::<usize>::new());
    assert_eq!(second, vec![32]);
}

#[test]
fn the_audio_registers_are_read_back_for_the_generator() {
    let mut tia = fresh(ConsoleType::NTSC);
    tia.write(0x15, 4);
    tia.write(0x16, 8);
    tia.write(0x17, 1);
    tia.write(0x18, 31);
    tia.write(0x19, 15);
    tia.write(0x1a, 7);
    assert_eq!(tia.get_audio_c0(), 4);
    assert_eq!(tia.get_audio_c1(), 8);
    assert_eq!(tia.get_audio_f0(), 1);
    assert_eq!(tia.get_audio_f1(), 31);
    assert_eq!(tia.get_audio_v0(), 15);
    assert_eq!(tia.get_audio_v1(), 7);
}
