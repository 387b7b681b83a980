use vcs::fault::Fault;
use vcs::vcs_console::{Key, Message, VcsConsole};
use vcs::vcs_console_type::ConsoleType;
use vcs::vcs_parameters::VcsParameters;

/// A 2K image that starts with `program`, goes on with NOPs and ends in a
/// jump back to its start. It runs from 0xF000.
fn rom(program: &[u8]) -> Vec<u8> {
    let mut image = vec![0xeau8; 2048];
    image[..program.len()].copy_from_slice(program);
    image[0x7f9..0x7fc].copy_from_slice(&[0x4c, 0x00, 0xf0]);
    image[0x7fc..0x800].copy_from_slice(&[0x00, 0xf0, 0x00, 0xf0]);
    image
}

fn console(program: &[u8]) -> VcsConsole {
    VcsConsole::new(VcsParameters::new(rom(program))).unwrap()
}

fn pal_console(program: &[u8]) -> VcsConsole {
    let mut parameters = VcsParameters::new(rom(program));
    parameters.console_type = ConsoleType::PAL;
    VcsConsole::new(parameters).unwrap()
}

#[test]
fn a_new_console_is_reset() {
    let console = console(&[]);
    let cpu = console.get_cpu();
    assert_eq!(cpu.get_program_counter(), 0xf000);
    assert_eq!(cpu.get_stack_pointer(), 0xff);
    assert_eq!(cpu.get_status_register(), 0x20);
    assert_eq!(console.get_memory().vcs_tia.get_scan_line(), 0);
    assert_eq!(console.get_audio_buffer().len(), 0);
}

#[test]
fn a_short_image_makes_no_console() {
    assert_eq!(VcsConsole::new(VcsParameters::new(vec![0xea; 100])).err(), Some(Fault::OutOfBounds));
}

#[test]
fn one_frame_renders_a_frame_of_100800_bytes() {
    let mut console = console(&[]);
    let before = console.is_frame_rendered();
    assert!(!before.0);
    console.start_next_frame().unwrap();
    let frame = console.is_frame_rendered();
    assert!(frame.0);
    assert_eq!(frame.1.len(), 100_800);
    // the frame is taken
    assert!(!console.is_frame_rendered().0);
}

#[test]
fn a_pal_frame_has_228_lines() {
    let mut console = pal_console(&[]);
    console.start_next_frame().unwrap();
    let frame = console.is_frame_rendered();
    assert!(frame.0);
    assert_eq!(frame.1.len(), 160 * 228 * 3);
    assert_eq!(console.get_audio_buffer().len(), 960);
}

#[test]
fn a_frame_runs_the_clocks_of_a_frame() {
    let mut console = console(&[]);
    console.start_next_frame().unwrap();
    // 59659 colour clocks are 261 lines and 151 clocks
    let tia = &console.get_memory().vcs_tia;
    assert_eq!((tia.get_scan_line(), tia.get_cycle()), (261, 151));
    console.start_next_frame().unwrap();
    let tia = &console.get_memory().vcs_tia;
    assert_eq!((tia.get_scan_line(), tia.get_cycle()), (523, 74));
}

#[test]
fn the_processor_runs_every_third_clock() {
    // LDX #0; loop: INX; STX $80; JMP loop -- eight ticks a turn
    let mut console = console(&[0xa2, 0x00, 0xe8, 0x86, 0x80, 0x4c, 0x02, 0xf0]);
    console.start_next_frame().unwrap();
    // 59659 clocks are 19887 ticks: INX is carried out on tick 4 and then
    // every eighth tick, STX three ticks later
    assert_eq!(console.read_memory(0x0080), (2486 % 256) as u8);
    assert_eq!(console.get_cpu().get_register_x(), (2486 % 256) as u8);
}

#[test]
fn the_init_preamble_leaves_the_stack_and_the_ram_empty() {
    let mut console = console(&[
        0x78, 0xd8, 0xa2, 0xff, 0x9a, 0xa9, 0x00, 0x95, 0x00, 0xca, 0x10, 0xfb, 0xa9, 0x00, 0x85,
        0x2a,
    ]);
    // a hundred instructions take at most 300 ticks here
    console.start_next_frame().unwrap();
    assert!(console.get_cpu().get_stack_pointer() >= 0xfc);
    assert_eq!(console.get_cpu().get_stack_pointer(), 0xff);
    assert_eq!(console.get_cpu().get_accumulator(), 0);
    assert_eq!(console.get_cpu().get_register_x(), 0xfe);
    for location in 0x80..=0xffu16 {
        assert_eq!(console.read_memory(location), 0);
    }
}

#[test]
fn the_reset_switch_shows_in_the_switch_port() {
    let mut console = console(&[]);
    console.handle_input(Message::Reset, 1);
    console.start_next_frame().unwrap();
    assert_eq!(console.read_memory(0x0282) & 0x01, 0);
    assert_eq!(console.read_memory(0x0282), 0x0a);
    console.handle_input(Message::Reset, 0);
    console.start_next_frame().unwrap();
    assert_eq!(console.read_memory(0x0282) & 0x01, 1);
    assert_eq!(console.read_memory(0x0282), 0x0b);
}

#[test]
fn inputs_reach_the_ports() {
    let mut console = console(&[]);
    console.handle_input(Message::Select, 1);
    assert_eq!(console.read_memory(0x0282), 0x09);
    console.handle_input(Message::Select, 0);
    assert_eq!(console.read_memory(0x0282), 0x0b);
    console.handle_input(Message::P0UpDown, 1);
    assert_eq!(console.read_memory(0x0280), 0xef);
    console.handle_input(Message::P0UpDown, -1);
    assert_eq!(console.read_memory(0x0280), 0xdf);
    console.handle_input(Message::P0UpDown, 0);
    console.handle_input(Message::P0LeftRight, -1);
    assert_eq!(console.read_memory(0x0280), 0xbf);
    console.handle_input(Message::P0LeftRight, 1);
    assert_eq!(console.read_memory(0x0280), 0x7f);
    console.handle_input(Message::P0LeftRight, 0);
    assert_eq!(console.read_memory(0x0280), 0xff);
    console.handle_input(Message::P0Trigger, 1);
    assert_eq!(console.read_memory(0x000c), 0x7f);
    console.handle_input(Message::P0Trigger, 0);
    assert_eq!(console.read_memory(0x000c), 0xff);
}

#[test]
fn keys_stand_for_inputs() {
    let mut console = console(&[]);
    console.input_check(Key::A, true);
    assert_eq!(console.read_memory(0x0282), 0x09);
    console.input_check(Key::A, false);
    console.input_check(Key::S, true);
    assert_eq!(console.read_memory(0x0282), 0x0a);
    console.input_check(Key::S, false);
    assert_eq!(console.read_memory(0x0282), 0x0b);
    console.input_check(Key::ArrowUp, true);
    assert_eq!(console.read_memory(0x0280), 0xef);
    console.input_check(Key::ArrowUp, false);
    assert_eq!(console.read_memory(0x0280), 0xff);
    console.input_check(Key::ArrowDown, true);
    assert_eq!(console.read_memory(0x0280), 0xdf);
    console.input_check(Key::ArrowDown, false);
    console.input_check(Key::ArrowLeft, true);
    assert_eq!(console.read_memory(0x0280), 0xbf);
    console.input_check(Key::ArrowLeft, false);
    console.input_check(Key::ArrowRight, true);
    assert_eq!(console.read_memory(0x0280), 0x7f);
    console.input_check(Key::ArrowRight, false);
    assert_eq!(console.read_memory(0x0280), 0xff);
    console.input_check(Key::Space, true);
    assert_eq!(console.read_memory(0x000c), 0x7f);
    console.input_check(Key::Space, false);
    assert_eq!(console.read_memory(0x000c), 0xff);
    console.input_check(Key::Other, true);
    assert_eq!(console.read_memory(0x0280), 0xff);
    assert_eq!(console.read_memory(0x0282), 0x0b);
    assert_eq!(console.read_memory(0x000c), 0xff);
}

#[test]
fn wsync_holds_the_processor_for_the_rest_of_the_line() {
    // loop: STA WSYNC; INC $80; JMP loop -- one turn a line
    let mut console = console(&[0x85, 0x02, 0xe6, 0x80, 0x4c, 0x00, 0xf0]);
    console.start_next_frame().unwrap();
    let lines = console.get_memory().vcs_tia.get_scan_line();
    assert_eq!(lines, 261);
    let turns = console.read_memory(0x0080) as u16;
    assert!(turns == lines % 256 || turns + 1 == lines % 256, "turns {}", turns);
}

#[test]
fn the_audio_of_a_frame_is_the_mix_of_both_channels() {
    // LDA #4; STA AUDC0; LDA #1; STA AUDF0; LDA #15; STA AUDV0
    let mut console = console(&[0xa9, 0x04, 0x85, 0x15, 0xa9, 0x01, 0x85, 0x17, 0xa9, 0x0f, 0x85, 0x19]);
    console.start_next_frame().unwrap();
    // the first frame took its settings before the program ran
    let first = console.get_audio_buffer();
    assert_eq!(first.len(), 800);
    assert!(first.iter().all(|s| *s == 0));
    console.start_next_frame().unwrap();
    let second = console.get_audio_buffer();
    assert_eq!(second.len(), 800);
    assert_eq!(second.iter().filter(|s| **s == 64).count(), 400);
    assert_eq!(second.iter().filter(|s| **s == 0).count(), 400);
    assert_eq!(&second[0..8], &[64, 64, 64, 64, 0, 0, 0, 64]);
}

#[test]
fn a_program_draws_its_background() {
    // LDA #$1E; STA COLUBK
    let mut console = console(&[0xa9, 0x1e, 0x85, 0x09]);
    console.start_next_frame().unwrap();
    console.start_next_frame().unwrap();
    // line 3 has not come round again, so the frame is still the first
    let frame = console.is_frame_rendered();
    assert!(frame.0);
    assert!(frame.1.iter().all(|b| *b == 0));
    // what has been drawn shows once the program ends the frame; here the
    // line count runs on, so look at the adapter's registers instead
    assert_eq!(console.get_memory().vcs_tia.read(0x30), 0);
}

#[test]
fn an_unused_opcode_ends_the_session() {
    let mut console = console(&[0xea, 0x02]);
    assert_eq!(console.start_next_frame(), Err(Fault::UnimplementedOpcode { opcode: 0x02 }));
}

#[test]
fn a_write_to_rom_ends_the_session() {
    // STA $F000
    let mut console = console(&[0x8d, 0x00, 0xf0]);
    assert_eq!(console.start_next_frame(), Err(Fault::RomWrite));
}

#[test]
fn a_stack_that_runs_over_ends_the_session() {
    // loop: PHA; JMP loop
    let mut console = console(&[0x48, 0x4c, 0x00, 0xf0]);
    assert_eq!(console.start_next_frame(), Err(Fault::StackOverflow));
    // loop: PLA
    let mut empty = VcsConsole::new(VcsParameters::new(rom(&[0x68]))).unwrap();
    assert_eq!(empty.start_next_frame(), Err(Fault::StackUnderflow));
}

#[test]
fn with_a_super_chip_the_cartridge_takes_writes_into_its_ram() {
    // LDA #$5A; STA $F010; LDA $F090; STA $80
    let mut parameters = VcsParameters::new(rom(&[
        0xa9, 0x5a, 0x8d, 0x10, 0xf0, 0xad, 0x90, 0xf0, 0x85, 0x80,
    ]));
    parameters.has_super_chip = true;
    let mut console = VcsConsole::new(parameters).unwrap();
    console.start_next_frame().unwrap();
    assert_eq!(console.read_memory(0x0080), 0x5a);
}
