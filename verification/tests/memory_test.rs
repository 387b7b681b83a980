use vcs::base_memory::BaseMemory;
use vcs::fault::Fault;
use vcs::memory_ram::MemoryRam;
use vcs::memory_rom::MemoryRom;
use vcs::vcs_cartridge2k::VcsCartridge2k;

#[test]
fn test_ram_load_read() {
    let mut memory = MemoryRam::new(String::from("RAM Test"), 0);

    memory.load_data(&[1, 2, 3, 4, 5, 6, 7, 8, 9, 10]);
    assert_eq!(memory.read(0), 1);
    assert_eq!(memory.read(4), 5);
}

#[test]
fn test_ram_write() {
    let mut memory = MemoryRam::new(String::from("RAM Test"), 0);

    memory.load_data(&[1, 2, 3, 4, 5, 6, 7, 8, 9, 10]);
    assert_eq!(memory.read(0), 1);
    assert_eq!(memory.read(4), 5);
    memory.write(0, 51).unwrap();
    memory.write(4, 72).unwrap();
    assert_eq!(memory.read(0), 51);
    assert_eq!(memory.read(4), 72);
}

#[test]
fn test_ram_name() {
    let memory = MemoryRam::new(String::from("RAM Test"), 0);

    assert_eq!(memory.get_name(), String::from("RAM Test"));
}

#[test]
fn ram_starts_zeroed_at_its_size() {
    let memory = MemoryRam::new(String::from("zeroes"), 128);
    assert_eq!(memory.size(), 128);
    for location in 0..128u16 {
        assert_eq!(memory.read(location), 0);
    }
    assert!(memory.check_location(127));
    assert!(!memory.check_location(128));
}

#[test]
fn ram_write_leaves_other_bytes() {
    let mut memory = MemoryRam::new(String::from("RAM"), 4);
    memory.write(2, 9).unwrap();
    assert_eq!(memory.read(0), 0);
    assert_eq!(memory.read(1), 0);
    assert_eq!(memory.read(2), 9);
    assert_eq!(memory.read(3), 0);
}

#[test]
fn rom_refuses_every_write() {
    let mut cartridge = VcsCartridge2k {
        memory: vec![7u8; 2048],
        name: String::from("rom"),
        has_super_chip: true,
    };
    assert_eq!(cartridge.write_rom(0, 1), Err(Fault::RomWrite));
    assert_eq!(cartridge.write_rom(0x10, 1), Err(Fault::RomWrite));
    assert_eq!(BaseMemory::read(&cartridge, 0), 7);
    assert_eq!(BaseMemory::read(&cartridge, 0x90), 7);
}
