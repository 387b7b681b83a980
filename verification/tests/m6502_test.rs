use vcs::base_cpu::BaseCpu;
use vcs::base_memory::BaseMemory;
use vcs::fault::Fault;
use vcs::m6502::M6502;
use vcs::memory_mapper::MemoryMapper;
use vcs::memory_ram::MemoryRam;

pub struct M6502TestMemory {
    ram: MemoryRam,
}

impl M6502TestMemory {
    pub fn new() -> Self {
        let mut ram = MemoryRam::new(String::from("RAM Test"), 0);
        ram.load_data(&[1, 0, 0, 4, 5, 6, 7, 8, 9, 10]);

        Self { ram }
    }
}

impl MemoryMapper for M6502TestMemory {
    type Model = ();

    fn model(&self) {}

    fn wf(&self) -> bool {
        true
    }

    fn peek(_m: (), _location: u16) -> u8 {
        0
    }

    fn after_read(_m: (), _location: u16) {}

    fn takes_write(_m: (), _location: u16) -> bool {
        true
    }

    fn after_write(_m: (), _location: u16, _byte: u8) {}

    fn cpu_read(&mut self, location: u16) -> u8 {
        let result: u8;

        if location == 0xfffc {
            result = 0;
        } else if location == 0xfffd {
            result = 0;
        } else {
            result = self.ram.read(location);
        }

        result
    }

    fn cpu_write(&mut self, location: u16, byte: u8) -> Result<(), Fault> {
        self.ram.write(location, byte)
    }
}

#[test]
fn test_opcode_0x01() {
    let mut memory = M6502TestMemory::new();
    let mut cpu = M6502::new();

    cpu.reset(&mut memory);
    cpu.execute_opcode(&mut memory, 0x01).unwrap();

    assert_eq!(cpu.get_overflow_ticks(), 6);
    assert_eq!(cpu.get_accumulator(), 1);
    assert_eq!(cpu.get_status_register(), 32);
}
