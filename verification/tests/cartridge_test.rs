use vcs::base_memory::BaseMemory;
use vcs::fault::Fault;
use vcs::memory_mapper::MemoryMapper;
use vcs::vcs_cartridge::{Bankswitch, Cartridge, VcsCartridge, VcsCartridgeDetector};
use vcs::vcs_cartridge2k::VcsCartridge2k;
use vcs::vcs_cartridge4k::VcsCartridge4k;
use vcs::vcs_console_type::{ConsoleType, VcsConsoleType};
use vcs::vcs_memory::VcsMemory;
use vcs::vcs_parameters::VcsParameters;
use vcs::vcs_riot::VcsRiot;
use vcs::vcs_tia::VcsTia;

fn image(size: usize) -> Vec<u8> {
    (0..size).map(|i| (i % 251) as u8).collect()
}

fn detect(rom: Vec<u8>) -> Cartridge {
    VcsCartridgeDetector::detect_cartridge(&VcsParameters::new(rom))
}

fn memory(rom: Vec<u8>, super_chip: bool) -> Result<VcsMemory, Fault> {
    let mut parameters = VcsParameters::new(rom);
    parameters.has_super_chip = super_chip;
    let console_type = VcsConsoleType::new(ConsoleType::NTSC);
    let mut tia = VcsTia::new(&console_type);
    tia.reset();
    let mut riot = VcsRiot::new();
    riot.reset();
    VcsMemory::new(&parameters, tia, riot)
}

#[test]
fn the_parameters_default_to_ntsc_without_ram() {
    let parameters = VcsParameters::new(vec![1, 2, 3]);
    assert_eq!(parameters.console_type, ConsoleType::NTSC);
    assert_eq!(parameters.cart_data, vec![1, 2, 3]);
    assert_eq!(parameters.mapper, "2K");
    assert!(!parameters.has_super_chip);
}

#[test]
fn the_size_decides_the_kind() {
    assert!(matches!(detect(image(2048)), Cartridge::TwoK(_)));
    assert!(matches!(detect(image(4096)), Cartridge::FourK(_)));
    assert!(matches!(detect(image(100)), Cartridge::TwoK(_)));
    assert!(matches!(detect(image(8192)), Cartridge::TwoK(_)));
    assert!(matches!(detect(Vec::new()), Cartridge::TwoK(_)));
    assert_eq!(detect(image(4096)).size(), 4096);
    assert_eq!(detect(image(100)).size(), 100);
}

#[test]
fn the_cartridge_is_named_after_its_kind() {
    match detect(image(2048)) {
        Cartridge::TwoK(cartridge) => {
            assert_eq!(cartridge.name, "2k Cartridge");
            assert_eq!(cartridge.get_name(), "ROM cartridge");
            assert_eq!(cartridge.memory, image(2048));
            assert!(!cartridge.has_super_chip);
        }
        Cartridge::FourK(_) => panic!("a 2K image was taken for 4K"),
    }
    match detect(image(4096)) {
        Cartridge::FourK(cartridge) => {
            assert_eq!(cartridge.name, "4k Cartridge");
            assert_eq!(cartridge.memory, image(4096));
        }
        Cartridge::TwoK(_) => panic!("a 4K image was taken for 2K"),
    }
}

#[test]
fn an_image_of_two_alike_halves_is_a_2k_cartridge() {
    let mut rom = image(2048);
    rom.extend(image(2048));
    assert!(matches!(detect(rom.clone()), Cartridge::TwoK(_)));
    rom[4095] ^= 1;
    assert!(matches!(detect(rom), Cartridge::FourK(_)));
}

#[test]
fn the_scheme_is_recognised_by_its_signature() {
    assert_eq!(VcsCartridgeDetector::detect_scheme(&image(2048)), Bankswitch::TwoK);
    assert_eq!(VcsCartridgeDetector::detect_scheme(&image(4096)), Bankswitch::FourK);
    assert_eq!(VcsCartridgeDetector::detect_scheme(&image(8192)), Bankswitch::TwoK);

    // the signature of a CV cartridge, three times
    let mut rom = vec![0u8; 2048];
    for at in [0usize, 100, 200] {
        rom[at..at + 3].copy_from_slice(&[0x9d, 0xff, 0xf3]);
    }
    assert_eq!(VcsCartridgeDetector::detect_scheme(&rom), Bankswitch::Cv);
    rom[200] = 0;
    assert_eq!(VcsCartridgeDetector::detect_scheme(&rom), Bankswitch::TwoK);
    let mut rom = image(4096);
    for at in [10usize, 1000, 4000] {
        rom[at..at + 3].copy_from_slice(&[0x99, 0x00, 0xf4]);
    }
    assert_eq!(VcsCartridgeDetector::detect_scheme(&rom), Bankswitch::Cv);
    assert!(matches!(detect(rom), Cartridge::FourK(_)));

    // 4KSC: 256 bytes alike at the start, and the letters SC near the end
    let mut rom = image(4096);
    for b in rom.iter_mut().take(256) {
        *b = 0xaa;
    }
    rom[4090] = b'S';
    rom[4091] = b'C';
    assert_eq!(VcsCartridgeDetector::detect_scheme(&rom), Bankswitch::FourKSc);
    assert!(matches!(detect(rom.clone()), Cartridge::FourK(_)));
    rom[255] = 0;
    assert_eq!(VcsCartridgeDetector::detect_scheme(&rom), Bankswitch::FourK);

    let mut rom = image(4096);
    for at in [0usize, 50, 100] {
        rom[at..at + 3].copy_from_slice(&[0xad, 0xb8, 0x0c]);
    }
    assert_eq!(VcsCartridgeDetector::detect_scheme(&rom), Bankswitch::Gl);

    let mut rom = image(4096);
    for i in 0..6usize {
        rom[i * 16..i * 16 + 6].copy_from_slice(&[0x8d, 0xf8, 0xff, 0x8d, 0xfc, 0xff]);
    }
    assert_eq!(VcsCartridgeDetector::detect_scheme(&rom), Bankswitch::Fc);
    assert!(matches!(detect(rom.clone()), Cartridge::FourK(_)));
    rom[0] = 0;
    assert_eq!(VcsCartridgeDetector::detect_scheme(&rom), Bankswitch::FourK);
}

#[test]
fn hits_right_behind_each_other_count_once() {
    // after a hit the scan goes on behind the byte that follows the hit
    let mut rom = vec![0u8; 2048];
    rom[0..9].copy_from_slice(&[0x9d, 0xff, 0xf3, 0x9d, 0xff, 0xf3, 0x9d, 0xff, 0xf3]);
    assert_eq!(VcsCartridgeDetector::detect_scheme(&rom), Bankswitch::TwoK);
    let mut rom = vec![0u8; 2048];
    rom[0..11].copy_from_slice(&[0x9d, 0xff, 0xf3, 0, 0x9d, 0xff, 0xf3, 0, 0x9d, 0xff, 0xf3]);
    assert_eq!(VcsCartridgeDetector::detect_scheme(&rom), Bankswitch::Cv);
    // a hit that reaches the last byte is not seen
    let mut rom = vec![0u8; 2048];
    rom[0..7].copy_from_slice(&[0x9d, 0xff, 0xf3, 0, 0x9d, 0xff, 0xf3]);
    rom[2045..2048].copy_from_slice(&[0x9d, 0xff, 0xf3]);
    assert_eq!(VcsCartridgeDetector::detect_scheme(&rom), Bankswitch::TwoK);
    rom[2044..2047].copy_from_slice(&[0x9d, 0xff, 0xf3]);
    assert_eq!(VcsCartridgeDetector::detect_scheme(&rom), Bankswitch::Cv);
}

#[test]
fn a_2k_cartridge_is_read_through_eleven_address_lines() {
    let rom = image(2048);
    let cartridge = detect(rom.clone());
    for location in [0u16, 1, 0x7ff, 0x800, 0x801, 0xfff] {
        assert_eq!(cartridge.read_a13(location, false), rom[(location & 0x7ff) as usize]);
    }
    let cartridge = VcsCartridge2k { memory: rom.clone(), name: String::new(), has_super_chip: false };
    assert_eq!(cartridge.read(0x805), rom[5]);
    assert_eq!(cartridge.read_a13(0x805, true), rom[5]);
    assert_eq!(cartridge.read_offset(5, 0x100), rom[0x105]);
    assert_eq!(cartridge.get_name(), "ROM cartridge");
    assert!(cartridge.check_location(0xfff));
    let short = VcsCartridge2k { memory: image(100), name: String::new(), has_super_chip: false };
    assert!(short.check_location(99));
    assert!(!short.check_location(100));
    assert!(short.check_location(0x800));
}

#[test]
fn a_4k_cartridge_is_read_through_twelve_address_lines() {
    let rom = image(4096);
    let cartridge = detect(rom.clone());
    for location in [0u16, 1, 0x7ff, 0x800, 0x801, 0xfff] {
        assert_eq!(cartridge.read_a13(location, false), rom[location as usize]);
    }
    let mut cartridge =
        VcsCartridge4k { memory: Vec::new(), name: String::new(), has_super_chip: false };
    cartridge.load_data(&rom);
    assert_eq!(cartridge.read(0x805), rom[0x805]);
    assert_eq!(cartridge.read(0x1805), rom[0x805]);
    assert_eq!(cartridge.write(0, 1), Err(Fault::RomWrite));
    assert_eq!(cartridge.read(0), rom[0]);
}

#[test]
fn only_on_cart_ram_takes_a_write() {
    let mut cartridge = detect(image(2048));
    assert_eq!(cartridge.write(0x10, 0x55), Err(Fault::RomWrite));
    assert_eq!(cartridge.read_a13(0x90, false), image(2048)[0x90]);

    let mut parameters = VcsParameters::new(image(2048));
    parameters.has_super_chip = true;
    let mut cartridge = VcsCartridgeDetector::detect_cartridge(&parameters);
    assert_eq!(cartridge.write(0x10, 0x55), Ok(()));
    assert_eq!(cartridge.read_a13(0x90, false), 0x55);
    assert_eq!(cartridge.write(0x7f, 0x66), Ok(()));
    assert_eq!(cartridge.read_a13(0xff, false), 0x66);
    assert_eq!(cartridge.write(0x80, 0x77), Err(Fault::RomWrite));
    assert_eq!(cartridge.write(0x7ff, 0x77), Err(Fault::RomWrite));
    assert_eq!(cartridge.read_a13(0x100, false), image(2048)[0x100]);
}

#[test]
fn a_short_image_is_refused() {
    assert_eq!(memory(image(2047), false).err(), Some(Fault::OutOfBounds));
    assert_eq!(memory(Vec::new(), false).err(), Some(Fault::OutOfBounds));
    assert!(memory(image(2048), false).is_ok());
    assert!(memory(image(4096), false).is_ok());
    assert!(memory(image(3000), false).is_ok());
    assert!(memory(image(8192), false).is_ok());
}

#[test]
fn the_top_three_address_lines_do_not_count() {
    let rom = image(4096);
    let mut memory = memory(rom.clone(), false).unwrap();
    for base in [0x1000u16, 0x3000, 0x5000, 0x7000, 0x9000, 0xb000, 0xd000, 0xf000] {
        assert_eq!(memory.cpu_read(base), rom[0]);
        assert_eq!(memory.cpu_read(base + 0x123), rom[0x123]);
        assert_eq!(memory.cpu_read(base + 0xfff), rom[0xfff]);
    }
    memory.cpu_write(0x0080, 0x12).unwrap();
    for base in [0x0080u16, 0x2080, 0x4080, 0xe080, 0x0180, 0x0480, 0x0d80] {
        assert_eq!(memory.cpu_read(base), 0x12, "{:#x}", base);
    }
}

#[test]
fn working_ram_is_at_0x80_and_is_the_stack() {
    let mut memory = memory(image(2048), false).unwrap();
    for location in 0x80..=0xffu16 {
        assert_eq!(memory.cpu_read(location), 0);
        memory.cpu_write(location, location as u8).unwrap();
    }
    for location in 0x80..=0xffu16 {
        assert_eq!(memory.cpu_read(location), location as u8);
        assert_eq!(memory.cpu_read(0x100 + location), location as u8);
    }
    assert_eq!(memory.vcs_riot.read_ram(0), 0x80);
    assert_eq!(memory.vcs_riot.read_ram(0x7f), 0xff);
}

#[test]
fn the_adapter_is_read_at_its_ports_and_written_at_its_registers() {
    let mut memory = memory(image(2048), false).unwrap();
    // every read reaches one of the sixteen ports
    assert_eq!(memory.cpu_read(0x000c), 0xff);
    assert_eq!(memory.cpu_read(0x003c), 0xff);
    assert_eq!(memory.cpu_read(0x000d), 0xff);
    assert_eq!(memory.cpu_read(0x0000), 0x00);
    assert_eq!(memory.cpu_read(0x000e), 0x00);
    assert_eq!(memory.cpu_read(0x010c), 0xff);
    // a write reaches the register, also through the mirror at 0x40
    memory.cpu_write(0x0019, 15).unwrap();
    assert_eq!(memory.vcs_tia.get_audio_v0(), 15);
    memory.cpu_write(0x0059, 7).unwrap();
    assert_eq!(memory.vcs_tia.get_audio_v0(), 7);
    memory.cpu_write(0x0002, 0).unwrap();
    assert!(memory.vcs_tia.is_cpu_blocked());
    // writes above the last register are dropped
    memory.cpu_write(0x003c, 0).unwrap();
    assert_eq!(memory.cpu_read(0x003c), 0xff);
}

#[test]
fn the_timer_is_reached_through_its_mirrors() {
    let mut memory = memory(image(2048), false).unwrap();
    memory.cpu_write(0x0296, 10).unwrap();
    assert_eq!(memory.cpu_read(0x0284), 9);
    assert_eq!(memory.cpu_read(0x0286), 9);
    assert_eq!(memory.cpu_read(0x0285) & 0x80, 0);
    assert_eq!(memory.cpu_read(0x0287) & 0x80, 0);
    assert_eq!(memory.cpu_read(0x0280), 0xff);
    assert_eq!(memory.cpu_read(0x0282), 0x0b);
    assert_eq!(memory.cpu_read(0x02a4), 9);
    for _ in 0..64 {
        memory.vcs_riot.execute_tick();
    }
    assert_eq!(memory.cpu_read(0x0284), 8);
    memory.cpu_write(0x0294, 3).unwrap();
    assert_eq!(memory.cpu_read(0x0284), 2);
    memory.vcs_riot.execute_tick();
    assert_eq!(memory.cpu_read(0x0284), 1);
}

#[test]
fn a_write_to_the_cartridge_is_a_fault_without_ram() {
    let mut plain = memory(image(2048), false).unwrap();
    assert_eq!(plain.cpu_write(0x1000, 1), Err(Fault::RomWrite));
    assert_eq!(plain.cpu_write(0xf010, 1), Err(Fault::RomWrite));
    assert_eq!(plain.cpu_read(0x1000), image(2048)[0]);
    let mut with_ram = memory(image(2048), true).unwrap();
    assert_eq!(with_ram.cpu_write(0x1010, 0x42), Ok(()));
    assert_eq!(with_ram.cpu_read(0x1090), 0x42);
    assert_eq!(with_ram.cpu_read(0xf090), 0x42);
    assert_eq!(with_ram.cpu_write(0x1080, 0x42), Err(Fault::RomWrite));
}
