use vcs::base_cpu::BaseCpu;
use vcs::fault::Fault;
use vcs::m6502::{adc_binary, adc_decimal, sbc_decimal, M6502};
use vcs::m6502_operation::{get_op_codes, AddressMode, Handler};
use vcs::memory_mapper::MemoryMapper;

const C: u8 = 1;
const Z: u8 = 2;
const I: u8 = 4;
const D: u8 = 8;
const B: u8 = 16;
const U: u8 = 32;
const V: u8 = 64;
const N: u8 = 128;

/// 64K of RAM; locations from `rom_from` up refuse writes.
struct Flat {
    bytes: Vec<u8>,
    rom_from: u32,
}

impl Flat {
    fn new() -> Flat {
        Flat { bytes: vec![0u8; 65536], rom_from: 65536 }
    }

    fn load(&mut self, at: u16, bytes: &[u8]) {
        for (i, b) in bytes.iter().enumerate() {
            self.bytes[(at as usize + i) % 65536] = *b;
        }
    }
}

impl MemoryMapper for Flat {
    type Model = ();

    fn model(&self) {}

    fn wf(&self) -> bool {
        true
    }

    fn peek(_m: (), _location: u16) -> u8 {
        0
    }

    fn after_read(_m: (), _location: u16) {}

    fn takes_write(_m: (), _location: u16) -> bool {
        true
    }

    fn after_write(_m: (), _location: u16, _byte: u8) {}

    fn cpu_read(&mut self, location: u16) -> u8 {
        self.bytes[location as usize]
    }

    fn cpu_write(&mut self, location: u16, byte: u8) -> Result<(), Fault> {
        if (location as u32) < self.rom_from {
            self.bytes[location as usize] = byte;
            Ok(())
        } else {
            Err(Fault::RomWrite)
        }
    }
}

/// A processor reset to start at `start`, on RAM.
fn machine(start: u16) -> (M6502, Flat) {
    let mut memory = Flat::new();
    memory.load(0xfffc, &[(start % 256) as u8, (start / 256) as u8]);
    let mut cpu = M6502::new();
    cpu.reset(&mut memory);
    (cpu, memory)
}

/// Carries out one instruction whose operand bytes are `operand`.
fn exec(cpu: &mut M6502, memory: &mut Flat, opcode: u8, operand: &[u8]) -> Result<(), Fault> {
    memory.load(cpu.get_program_counter(), operand);
    cpu.execute_opcode(memory, opcode)
}

fn run(cpu: &mut M6502, memory: &mut Flat, opcode: u8, operand: &[u8]) {
    exec(cpu, memory, opcode, operand).unwrap();
}

/// Ticks until the pending operation has been carried out and the next one
/// fetched; gives the number of ticks that took.
fn step(cpu: &mut M6502, memory: &mut Flat) -> u32 {
    let mut ticks = 0;
    loop {
        let last = cpu.get_overflow_ticks() <= 1;
        cpu.execute_tick(memory).unwrap();
        ticks += 1;
        if last {
            return ticks;
        }
    }
}

#[test]
fn reset_takes_the_vector_and_clears_the_registers() {
    let (cpu, _memory) = machine(0x1234);
    assert_eq!(cpu.get_program_counter(), 0x1234);
    assert_eq!(cpu.get_stack_pointer(), 0xff);
    assert_eq!(cpu.get_accumulator(), 0);
    assert_eq!(cpu.get_register_x(), 0);
    assert_eq!(cpu.get_register_y(), 0);
    assert_eq!(cpu.get_status_register(), U);
    assert_eq!(cpu.get_overflow_ticks(), 0);
}

#[test]
fn a_new_processor_waits_for_its_reset() {
    let cpu = M6502::new();
    assert_eq!(cpu.get_program_counter(), 0);
    assert_eq!(cpu.get_stack_pointer(), 0xfd);
    assert_eq!(cpu.get_status_register(), 0x40);
    assert_eq!(cpu.get_overflow_ticks(), 0);
}

#[test]
fn the_table_decodes_the_documented_opcodes() {
    let table = get_op_codes();
    assert_eq!(table[0xa9].handler, Handler::Lda);
    assert_eq!(table[0xa9].address_method, AddressMode::Immediate);
    assert_eq!(table[0xa9].ticks, 2);
    assert_eq!(table[0x6c].handler, Handler::Jmp);
    assert_eq!(table[0x6c].address_method, AddressMode::Indirect);
    assert_eq!(table[0x6c].ticks, 5);
    assert_eq!(table[0x9d].handler, Handler::Sta);
    assert_eq!(table[0x9d].address_method, AddressMode::AbsoluteXNoOverflow);
    assert_eq!(table[0x9d].ticks, 5);
    assert_eq!(table[0x00].handler, Handler::Brk);
    assert_eq!(table[0x00].ticks, 7);
    assert_eq!(table[0xea].handler, Handler::Nop);
    assert_eq!(table[0x03].handler, Handler::Slo);
    assert_eq!(table[0x87].handler, Handler::Sax);
    assert_eq!(table[0xe7].handler, Handler::Isc);
    assert_eq!(table[0x04].handler, Handler::Nop);
    assert_eq!(table[0x04].address_method, AddressMode::Zero);
}

#[test]
fn unused_opcodes_decode_to_the_fault() {
    let table = get_op_codes();
    for opcode in [0x02usize, 0x12, 0x22, 0x6b, 0x9c, 0xf2] {
        assert_eq!(table[opcode].handler, Handler::Panic);
        assert_eq!(table[opcode].address_method, AddressMode::Null);
        assert_eq!(table[opcode].ticks, 2);
    }
    let mut ticks = [0u32; 9];
    for operation in table.iter() {
        assert!(operation.ticks >= 2 && operation.ticks <= 8);
        ticks[operation.ticks as usize] += 1;
    }
    assert_eq!(ticks.iter().sum::<u32>(), 256);
}

#[test]
fn pc_advances_by_the_length_of_the_instruction() {
    // (opcode, bytes after the opcode)
    let cases: [(u8, u16); 14] = [
        (0xea, 0), // NOP
        (0xaa, 0), // TAX
        (0x0a, 0), // ASL A
        (0xa9, 1), // LDA #
        (0xa5, 1), // LDA zp
        (0xb5, 1), // LDA zp,X
        (0xb6, 1), // LDX zp,Y
        (0xa1, 1), // LDA (zp,X)
        (0xb1, 1), // LDA (zp),Y
        (0xad, 2), // LDA abs
        (0xbd, 2), // LDA abs,X
        (0xb9, 2), // LDA abs,Y
        (0x04, 1), // NOP zp
        (0x0c, 2), // NOP abs
    ];
    for (opcode, length) in cases {
        let (mut cpu, mut memory) = machine(0x2000);
        run(&mut cpu, &mut memory, opcode, &[0x10, 0x30]);
        assert_eq!(cpu.get_program_counter(), 0x2000 + length, "opcode {:#x}", opcode);
    }
}

#[test]
fn pc_wraps_at_the_top_of_memory() {
    let (mut cpu, mut memory) = machine(0xffff);
    run(&mut cpu, &mut memory, 0xa9, &[0x42]);
    assert_eq!(cpu.get_accumulator(), 0x42);
    assert_eq!(cpu.get_program_counter(), 0x0000);
}

#[test]
fn loads_set_negative_and_zero() {
    let (mut cpu, mut memory) = machine(0x2000);
    run(&mut cpu, &mut memory, 0xa9, &[0x00]);
    assert_eq!(cpu.get_status_register(), U | Z);
    run(&mut cpu, &mut memory, 0xa9, &[0x80]);
    assert_eq!(cpu.get_accumulator(), 0x80);
    assert_eq!(cpu.get_status_register(), U | N);
    run(&mut cpu, &mut memory, 0xa2, &[0x7f]);
    assert_eq!(cpu.get_register_x(), 0x7f);
    assert_eq!(cpu.get_status_register(), U);
    run(&mut cpu, &mut memory, 0xa0, &[0xff]);
    assert_eq!(cpu.get_register_y(), 0xff);
    assert_eq!(cpu.get_status_register(), U | N);
}

#[test]
fn binary_addition_matches_the_sum_for_every_input() {
    for a in 0..=255u8 {
        for m in 0..=255u8 {
            for carry in [false, true] {
                let total = a as u32 + m as u32 + carry as u32;
                let sum = adc_binary(a, m, carry);
                assert_eq!(sum.value as u32, total % 256);
                assert_eq!(sum.carry, total > 255);
                assert_eq!(sum.overflow, ((a ^ sum.value) & (m ^ sum.value) & 0x80) != 0);
            }
        }
    }
}

#[test]
fn adc_sets_carry_overflow_zero_and_negative() {
    let (mut cpu, mut memory) = machine(0x2000);
    run(&mut cpu, &mut memory, 0xa9, &[0x50]);
    run(&mut cpu, &mut memory, 0x69, &[0x50]);
    assert_eq!(cpu.get_accumulator(), 0xa0);
    assert_eq!(cpu.get_status_register(), U | V | N);

    run(&mut cpu, &mut memory, 0xa9, &[0xff]);
    run(&mut cpu, &mut memory, 0x18, &[]);
    run(&mut cpu, &mut memory, 0x69, &[0x01]);
    assert_eq!(cpu.get_accumulator(), 0x00);
    assert_eq!(cpu.get_status_register(), U | C | Z);

    // the carry takes part in the next sum
    run(&mut cpu, &mut memory, 0xa9, &[0x01]);
    run(&mut cpu, &mut memory, 0x69, &[0x01]);
    assert_eq!(cpu.get_accumulator(), 0x03);
    assert_eq!(cpu.get_status_register(), U);

    // -128 + -1 overflows
    run(&mut cpu, &mut memory, 0xa9, &[0x80]);
    run(&mut cpu, &mut memory, 0x69, &[0xff]);
    assert_eq!(cpu.get_accumulator(), 0x7f);
    assert_eq!(cpu.get_status_register(), U | C | V);
}

#[test]
fn sbc_is_adc_of_the_complement() {
    let (mut cpu, mut memory) = machine(0x2000);
    run(&mut cpu, &mut memory, 0x38, &[]);
    run(&mut cpu, &mut memory, 0xa9, &[0x50]);
    run(&mut cpu, &mut memory, 0xe9, &[0x20]);
    assert_eq!(cpu.get_accumulator(), 0x30);
    assert_eq!(cpu.get_status_register(), U | C);

    // a borrow clears the carry
    run(&mut cpu, &mut memory, 0x38, &[]);
    run(&mut cpu, &mut memory, 0xa9, &[0x20]);
    run(&mut cpu, &mut memory, 0xe9, &[0x30]);
    assert_eq!(cpu.get_accumulator(), 0xf0);
    assert_eq!(cpu.get_status_register(), U | N);

    // a clear carry takes one more
    run(&mut cpu, &mut memory, 0x18, &[]);
    run(&mut cpu, &mut memory, 0xa9, &[0x05]);
    run(&mut cpu, &mut memory, 0xe9, &[0x05]);
    assert_eq!(cpu.get_accumulator(), 0xff);
    assert_eq!(cpu.get_status_register(), U | N);

    for a in [0u8, 1, 0x7f, 0x80, 0xff] {
        for m in [0u8, 1, 0x7f, 0x80, 0xff] {
            for carry in [false, true] {
                let (mut cpu, mut memory) = machine(0x2000);
                run(&mut cpu, &mut memory, if carry { 0x38 } else { 0x18 }, &[]);
                run(&mut cpu, &mut memory, 0xa9, &[a]);
                run(&mut cpu, &mut memory, 0xe9, &[m]);
                let expected = adc_binary(a, !m, carry);
                assert_eq!(cpu.get_accumulator(), expected.value);
                assert_eq!(cpu.get_status_register() & C != 0, expected.carry);
                assert_eq!(cpu.get_status_register() & V != 0, expected.overflow);
            }
        }
    }
}

#[test]
fn decimal_addition_adds_decimal_digits() {
    let sum = adc_decimal(0x19, 0x28, false);
    assert_eq!((sum.value, sum.carry), (0x47, false));
    let sum = adc_decimal(0x58, 0x46, true);
    assert_eq!((sum.value, sum.carry), (0x05, true));
    let sum = adc_decimal(0x99, 0x99, true);
    assert_eq!((sum.value, sum.carry), (0x99, true));
    let sum = adc_decimal(0x00, 0x00, false);
    assert_eq!((sum.value, sum.carry), (0x00, false));
    for a in 0..100u32 {
        for m in 0..100u32 {
            for carry in [false, true] {
                let sum = adc_decimal(
                    ((a / 10) * 16 + a % 10) as u8,
                    ((m / 10) * 16 + m % 10) as u8,
                    carry,
                );
                let total = a + m + carry as u32;
                assert_eq!((sum.value / 16) as u32 * 10 + (sum.value % 16) as u32, total % 100);
                assert_eq!(sum.carry, total > 99);
            }
        }
    }
}

#[test]
fn decimal_subtraction_subtracts_decimal_digits() {
    let sum = sbc_decimal(0x50, 0x25, true);
    assert_eq!((sum.value, sum.carry), (0x25, true));
    let sum = sbc_decimal(0x12, 0x21, true);
    assert_eq!((sum.value, sum.carry), (0x91, false));
    let sum = sbc_decimal(0x00, 0x00, false);
    assert_eq!((sum.value, sum.carry), (0x99, false));
    for a in 0..100i32 {
        for m in 0..100i32 {
            for carry in [false, true] {
                let sum = sbc_decimal(
                    ((a / 10) * 16 + a % 10) as u8,
                    ((m / 10) * 16 + m % 10) as u8,
                    carry,
                );
                let total = a - m - (1 - carry as i32);
                assert_eq!(
                    (sum.value / 16) as i32 * 10 + (sum.value % 16) as i32,
                    total.rem_euclid(100)
                );
                assert_eq!(sum.carry, total >= 0);
            }
        }
    }
}

#[test]
fn adc_in_decimal_mode_uses_decimal_addition() {
    let (mut cpu, mut memory) = machine(0x2000);
    run(&mut cpu, &mut memory, 0xf8, &[]);
    run(&mut cpu, &mut memory, 0xa9, &[0x19]);
    run(&mut cpu, &mut memory, 0x69, &[0x28]);
    assert_eq!(cpu.get_accumulator(), 0x47);
    assert_eq!(cpu.get_status_register() & (C | D), D);
    run(&mut cpu, &mut memory, 0x38, &[]);
    run(&mut cpu, &mut memory, 0xe9, &[0x08]);
    assert_eq!(cpu.get_accumulator(), 0x39);
    assert_eq!(cpu.get_status_register() & (C | D), C | D);
    run(&mut cpu, &mut memory, 0xd8, &[]);
    assert_eq!(cpu.get_status_register() & D, 0);
}

#[test]
fn logic_works_bit_by_bit() {
    let (mut cpu, mut memory) = machine(0x2000);
    run(&mut cpu, &mut memory, 0xa9, &[0b1100_1010]);
    run(&mut cpu, &mut memory, 0x29, &[0b1010_0110]);
    assert_eq!(cpu.get_accumulator(), 0b1000_0010);
    assert_eq!(cpu.get_status_register(), U | N);
    run(&mut cpu, &mut memory, 0x49, &[0b1000_0010]);
    assert_eq!(cpu.get_accumulator(), 0);
    assert_eq!(cpu.get_status_register(), U | Z);
    run(&mut cpu, &mut memory, 0x09, &[0b0000_0101]);
    assert_eq!(cpu.get_accumulator(), 5);
    assert_eq!(cpu.get_status_register(), U);
}

#[test]
fn bit_copies_two_bits_and_tests_the_rest() {
    let (mut cpu, mut memory) = machine(0x2000);
    memory.load(0x0040, &[0xc0]);
    run(&mut cpu, &mut memory, 0xa9, &[0x01]);
    run(&mut cpu, &mut memory, 0x24, &[0x40]);
    assert_eq!(cpu.get_accumulator(), 0x01);
    assert_eq!(cpu.get_status_register(), U | N | V | Z);
    memory.load(0x0040, &[0x01]);
    run(&mut cpu, &mut memory, 0x24, &[0x40]);
    assert_eq!(cpu.get_status_register(), U);
}

#[test]
fn compares_set_carry_where_the_register_is_not_below() {
    let (mut cpu, mut memory) = machine(0x2000);
    run(&mut cpu, &mut memory, 0xa9, &[0x40]);
    run(&mut cpu, &mut memory, 0xc9, &[0x40]);
    assert_eq!(cpu.get_status_register(), U | C | Z);
    run(&mut cpu, &mut memory, 0xc9, &[0x41]);
    assert_eq!(cpu.get_status_register(), U | N);
    run(&mut cpu, &mut memory, 0xc9, &[0x3f]);
    assert_eq!(cpu.get_status_register(), U | C);
    assert_eq!(cpu.get_accumulator(), 0x40);
    run(&mut cpu, &mut memory, 0xa2, &[0x10]);
    run(&mut cpu, &mut memory, 0xe0, &[0x20]);
    assert_eq!(cpu.get_status_register(), U | N);
    run(&mut cpu, &mut memory, 0xa0, &[0x30]);
    run(&mut cpu, &mut memory, 0xc0, &[0x20]);
    assert_eq!(cpu.get_status_register(), U | C);
}

#[test]
fn counting_wraps_at_a_byte() {
    let (mut cpu, mut memory) = machine(0x2000);
    run(&mut cpu, &mut memory, 0xa2, &[0xff]);
    run(&mut cpu, &mut memory, 0xe8, &[]);
    assert_eq!(cpu.get_register_x(), 0);
    assert_eq!(cpu.get_status_register(), U | Z);
    run(&mut cpu, &mut memory, 0xca, &[]);
    assert_eq!(cpu.get_register_x(), 0xff);
    assert_eq!(cpu.get_status_register(), U | N);
    run(&mut cpu, &mut memory, 0xc8, &[]);
    assert_eq!(cpu.get_register_y(), 1);
    run(&mut cpu, &mut memory, 0x88, &[]);
    run(&mut cpu, &mut memory, 0x88, &[]);
    assert_eq!(cpu.get_register_y(), 0xff);

    memory.load(0x0080, &[0xff]);
    run(&mut cpu, &mut memory, 0xe6, &[0x80]);
    assert_eq!(memory.bytes[0x80], 0);
    assert_eq!(cpu.get_status_register(), U | Z);
    run(&mut cpu, &mut memory, 0xc6, &[0x80]);
    assert_eq!(memory.bytes[0x80], 0xff);
    assert_eq!(cpu.get_status_register(), U | N);
}

#[test]
fn shifts_move_the_lost_bit_into_the_carry() {
    let (mut cpu, mut memory) = machine(0x2000);
    run(&mut cpu, &mut memory, 0xa9, &[0x81]);
    run(&mut cpu, &mut memory, 0x0a, &[]);
    assert_eq!(cpu.get_accumulator(), 0x02);
    assert_eq!(cpu.get_status_register(), U | C);
    run(&mut cpu, &mut memory, 0x4a, &[]);
    assert_eq!(cpu.get_accumulator(), 0x01);
    assert_eq!(cpu.get_status_register(), U);
    run(&mut cpu, &mut memory, 0x4a, &[]);
    assert_eq!(cpu.get_accumulator(), 0x00);
    assert_eq!(cpu.get_status_register(), U | C | Z);
    // the carry enters at the other end
    run(&mut cpu, &mut memory, 0x6a, &[]);
    assert_eq!(cpu.get_accumulator(), 0x80);
    assert_eq!(cpu.get_status_register(), U | N);
    run(&mut cpu, &mut memory, 0x2a, &[]);
    assert_eq!(cpu.get_accumulator(), 0x00);
    assert_eq!(cpu.get_status_register(), U | C | Z);
    run(&mut cpu, &mut memory, 0x2a, &[]);
    assert_eq!(cpu.get_accumulator(), 0x01);
    assert_eq!(cpu.get_status_register(), U);

    memory.load(0x0090, &[0x40]);
    run(&mut cpu, &mut memory, 0x06, &[0x90]);
    assert_eq!(memory.bytes[0x90], 0x80);
    assert_eq!(cpu.get_status_register(), U | N);
    run(&mut cpu, &mut memory, 0x38, &[]);
    run(&mut cpu, &mut memory, 0x66, &[0x90]);
    assert_eq!(memory.bytes[0x90], 0xc0);
    assert_eq!(cpu.get_status_register(), U | N);
    assert_eq!(cpu.get_accumulator(), 0x01);
}

#[test]
fn transfers_copy_and_set_flags() {
    let (mut cpu, mut memory) = machine(0x2000);
    run(&mut cpu, &mut memory, 0xa9, &[0x80]);
    run(&mut cpu, &mut memory, 0xaa, &[]);
    assert_eq!(cpu.get_register_x(), 0x80);
    run(&mut cpu, &mut memory, 0xa8, &[]);
    assert_eq!(cpu.get_register_y(), 0x80);
    run(&mut cpu, &mut memory, 0xa2, &[0x00]);
    run(&mut cpu, &mut memory, 0x8a, &[]);
    assert_eq!(cpu.get_accumulator(), 0);
    assert_eq!(cpu.get_status_register(), U | Z);
    run(&mut cpu, &mut memory, 0x98, &[]);
    assert_eq!(cpu.get_accumulator(), 0x80);
    run(&mut cpu, &mut memory, 0xa2, &[0x33]);
    run(&mut cpu, &mut memory, 0x9a, &[]);
    assert_eq!(cpu.get_stack_pointer(), 0x33);
    run(&mut cpu, &mut memory, 0xa2, &[0x00]);
    run(&mut cpu, &mut memory, 0xba, &[]);
    assert_eq!(cpu.get_register_x(), 0x33);
    assert_eq!(cpu.get_status_register(), U);
}

#[test]
fn flag_instructions_touch_one_flag() {
    let (mut cpu, mut memory) = machine(0x2000);
    run(&mut cpu, &mut memory, 0x38, &[]);
    assert_eq!(cpu.get_status_register(), U | C);
    run(&mut cpu, &mut memory, 0xf8, &[]);
    assert_eq!(cpu.get_status_register(), U | C | D);
    run(&mut cpu, &mut memory, 0x78, &[]);
    assert_eq!(cpu.get_status_register(), U | C | D | I);
    run(&mut cpu, &mut memory, 0x18, &[]);
    assert_eq!(cpu.get_status_register(), U | D | I);
    run(&mut cpu, &mut memory, 0xd8, &[]);
    assert_eq!(cpu.get_status_register(), U | I);
    run(&mut cpu, &mut memory, 0x58, &[]);
    assert_eq!(cpu.get_status_register(), U);
    run(&mut cpu, &mut memory, 0xa9, &[0x7f]);
    run(&mut cpu, &mut memory, 0x69, &[0x01]);
    assert_eq!(cpu.get_status_register(), U | V | N);
    run(&mut cpu, &mut memory, 0xb8, &[]);
    assert_eq!(cpu.get_status_register(), U | N);
}

#[test]
fn stores_write_the_register() {
    let (mut cpu, mut memory) = machine(0x2000);
    run(&mut cpu, &mut memory, 0xa9, &[0x11]);
    run(&mut cpu, &mut memory, 0xa2, &[0x22]);
    run(&mut cpu, &mut memory, 0xa0, &[0x33]);
    run(&mut cpu, &mut memory, 0x85, &[0x40]);
    run(&mut cpu, &mut memory, 0x86, &[0x41]);
    run(&mut cpu, &mut memory, 0x84, &[0x42]);
    run(&mut cpu, &mut memory, 0x8d, &[0x00, 0x30]);
    assert_eq!(&memory.bytes[0x40..0x43], &[0x11, 0x22, 0x33]);
    assert_eq!(memory.bytes[0x3000], 0x11);
    assert_eq!(cpu.get_status_register(), U);
}

#[test]
fn zero_page_indexing_wraps_within_the_page() {
    let (mut cpu, mut memory) = machine(0x2000);
    memory.load(0x0001, &[0x77]);
    memory.load(0x0101, &[0x99]);
    run(&mut cpu, &mut memory, 0xa2, &[0x02]);
    run(&mut cpu, &mut memory, 0xb5, &[0xff]);
    assert_eq!(cpu.get_accumulator(), 0x77);
    run(&mut cpu, &mut memory, 0xa0, &[0x02]);
    run(&mut cpu, &mut memory, 0xb6, &[0xff]);
    assert_eq!(cpu.get_register_x(), 0x77);
}

#[test]
fn indexed_and_indirect_modes_find_their_operand() {
    let (mut cpu, mut memory) = machine(0x2000);
    memory.load(0x3005, &[0xaa]);
    memory.load(0x30ff + 2, &[0xbb]);
    run(&mut cpu, &mut memory, 0xa2, &[0x05]);
    run(&mut cpu, &mut memory, 0xbd, &[0x00, 0x30]);
    assert_eq!(cpu.get_accumulator(), 0xaa);
    run(&mut cpu, &mut memory, 0xa0, &[0x02]);
    run(&mut cpu, &mut memory, 0xb9, &[0xff, 0x30]);
    assert_eq!(cpu.get_accumulator(), 0xbb);

    // (zp,X): the pointer is at zp + X
    memory.load(0x0025, &[0x34, 0x12]);
    memory.load(0x1234, &[0xcc]);
    run(&mut cpu, &mut memory, 0xa1, &[0x20]);
    assert_eq!(cpu.get_accumulator(), 0xcc);

    // (zp),Y: Y is added to what the pointer holds
    memory.load(0x0030, &[0x00, 0x40]);
    memory.load(0x4002, &[0xdd]);
    run(&mut cpu, &mut memory, 0xb1, &[0x30]);
    assert_eq!(cpu.get_accumulator(), 0xdd);

    // the pointer of (zp,X) wraps within page zero
    memory.load(0x00ff, &[0x78]);
    memory.load(0x0000, &[0x56]);
    memory.load(0x5678, &[0xee]);
    run(&mut cpu, &mut memory, 0xa2, &[0x00]);
    run(&mut cpu, &mut memory, 0xa1, &[0xff]);
    assert_eq!(cpu.get_accumulator(), 0xee);
}

#[test]
fn pha_then_pla_restores_the_accumulator() {
    for value in [0x00u8, 0x01, 0x7f, 0x80, 0xff] {
        let (mut cpu, mut memory) = machine(0x2000);
        run(&mut cpu, &mut memory, 0xa9, &[value]);
        run(&mut cpu, &mut memory, 0x48, &[]);
        assert_eq!(cpu.get_stack_pointer(), 0xfe);
        assert_eq!(memory.bytes[0x01ff], value);
        run(&mut cpu, &mut memory, 0xa9, &[0x55]);
        run(&mut cpu, &mut memory, 0x68, &[]);
        assert_eq!(cpu.get_accumulator(), value);
        assert_eq!(cpu.get_stack_pointer(), 0xff);
        assert_eq!(cpu.get_status_register() & Z != 0, value == 0);
        assert_eq!(cpu.get_status_register() & N != 0, value >= 0x80);
    }
}

#[test]
fn php_then_plp_restores_the_status() {
    let (mut cpu, mut memory) = machine(0x2000);
    run(&mut cpu, &mut memory, 0x38, &[]);
    run(&mut cpu, &mut memory, 0xf8, &[]);
    run(&mut cpu, &mut memory, 0xa9, &[0x80]);
    let before = cpu.get_status_register();
    assert_eq!(before, U | C | D | N);
    run(&mut cpu, &mut memory, 0x08, &[]);
    run(&mut cpu, &mut memory, 0x18, &[]);
    run(&mut cpu, &mut memory, 0xd8, &[]);
    run(&mut cpu, &mut memory, 0xa9, &[0x00]);
    assert_eq!(cpu.get_status_register(), U | Z);
    run(&mut cpu, &mut memory, 0x28, &[]);
    assert_eq!(cpu.get_status_register() & !B, before & !B);
    assert_eq!(cpu.get_stack_pointer(), 0xff);
}

#[test]
fn jsr_then_rts_goes_on_after_the_call() {
    let (mut cpu, mut memory) = machine(0x2001);
    // the JSR opcode is thought at 0x2000, its operand at 0x2001
    run(&mut cpu, &mut memory, 0x20, &[0x00, 0x30]);
    assert_eq!(cpu.get_program_counter(), 0x3000);
    assert_eq!(cpu.get_stack_pointer(), 0xfd);
    assert_eq!(memory.bytes[0x01ff], 0x20);
    assert_eq!(memory.bytes[0x01fe], 0x02);
    run(&mut cpu, &mut memory, 0x60, &[]);
    assert_eq!(cpu.get_program_counter(), 0x2003);
    assert_eq!(cpu.get_stack_pointer(), 0xff);
}

#[test]
fn jmp_goes_where_it_is_told() {
    let (mut cpu, mut memory) = machine(0x2000);
    run(&mut cpu, &mut memory, 0x4c, &[0xcd, 0xab]);
    assert_eq!(cpu.get_program_counter(), 0xabcd);
    memory.load(0x3000, &[0x34, 0x12]);
    run(&mut cpu, &mut memory, 0x6c, &[0x00, 0x30]);
    assert_eq!(cpu.get_program_counter(), 0x1234);
}

#[test]
fn indirect_jmp_wraps_within_the_page_of_its_pointer() {
    let (mut cpu, mut memory) = machine(0x2000);
    memory.load(0x10ff, &[0x34]);
    memory.load(0x1000, &[0x12]);
    memory.load(0x1100, &[0x56]);
    run(&mut cpu, &mut memory, 0x6c, &[0xff, 0x10]);
    assert_eq!(cpu.get_program_counter(), 0x1234);
}

#[test]
fn branches_follow_their_flag() {
    // (opcode, flag, taken when the flag is set)
    let cases: [(u8, u8, bool); 8] = [
        (0x90, C, false),
        (0xb0, C, true),
        (0xf0, Z, true),
        (0xd0, Z, false),
        (0x30, N, true),
        (0x10, N, false),
        (0x70, V, true),
        (0x50, V, false),
    ];
    for (opcode, flag, taken_when_set) in cases {
        for set in [false, true] {
            let (mut cpu, mut memory) = machine(0x2000);
            // bring the one flag into its state through the stack
            run(&mut cpu, &mut memory, 0xa9, &[if set { U | flag } else { U }]);
            run(&mut cpu, &mut memory, 0x48, &[]);
            run(&mut cpu, &mut memory, 0x28, &[]);
            let at = cpu.get_program_counter();
            run(&mut cpu, &mut memory, opcode, &[0x10]);
            let expected = if set == taken_when_set { at + 1 + 0x10 } else { at + 1 };
            assert_eq!(cpu.get_program_counter(), expected, "opcode {:#x} set {}", opcode, set);
        }
    }
}

#[test]
fn branches_go_backwards_on_a_negative_displacement() {
    let (mut cpu, mut memory) = machine(0x2000);
    run(&mut cpu, &mut memory, 0xd0, &[0xfb]);
    assert_eq!(cpu.get_program_counter(), 0x2001 - 5);
    run(&mut cpu, &mut memory, 0xd0, &[0x80]);
    assert_eq!(cpu.get_program_counter(), 0x1ffc + 1 - 128);
    run(&mut cpu, &mut memory, 0xd0, &[0x7f]);
    assert_eq!(cpu.get_program_counter(), 0x1f7d + 1 + 127);
    run(&mut cpu, &mut memory, 0xd0, &[0x00]);
    assert_eq!(cpu.get_program_counter(), 0x1ffd + 1);
}

#[test]
fn brk_pushes_and_goes_through_its_vector() {
    let (mut cpu, mut memory) = machine(0x2001);
    memory.load(0xfffe, &[0x00, 0x40]);
    run(&mut cpu, &mut memory, 0x38, &[]);
    run(&mut cpu, &mut memory, 0x00, &[]);
    assert_eq!(cpu.get_program_counter(), 0x4000);
    assert_eq!(cpu.get_stack_pointer(), 0xfc);
    // the location behind the byte that follows the BRK
    assert_eq!(memory.bytes[0x01ff], 0x20);
    assert_eq!(memory.bytes[0x01fe], 0x02);
    // the status as it stood, with B set; I is set only after the push
    assert_eq!(memory.bytes[0x01fd], U | C | B);
    assert_eq!(cpu.get_status_register(), U | C | I);

    run(&mut cpu, &mut memory, 0x18, &[]);
    run(&mut cpu, &mut memory, 0x40, &[]);
    assert_eq!(cpu.get_program_counter(), 0x2002);
    assert_eq!(cpu.get_stack_pointer(), 0xff);
    // the status as it stood before the BRK
    assert_eq!(cpu.get_status_register(), U | C);
}

#[test]
fn brk_on_a_reset_processor_pushes_0x30() {
    let (mut cpu, mut memory) = machine(0x2001);
    memory.load(0xfffe, &[0x34, 0x12]);
    assert_eq!(cpu.get_status_register(), 0x20);
    run(&mut cpu, &mut memory, 0x00, &[]);
    assert_eq!(memory.bytes[0x01fd], 0x30);
    assert_eq!(cpu.get_status_register(), 0x24);
    assert_eq!(cpu.get_program_counter(), 0x1234);
    assert_eq!(cpu.get_stack_pointer(), 0xfc);
}

#[test]
fn rti_pulls_the_status_without_b_and_the_location_as_it_is() {
    let (mut cpu, mut memory) = machine(0x2000);
    memory.load(0x01fd, &[0xff, 0x78, 0x56]);
    run(&mut cpu, &mut memory, 0xa2, &[0xfc]);
    run(&mut cpu, &mut memory, 0x9a, &[]);
    run(&mut cpu, &mut memory, 0x40, &[]);
    assert_eq!(cpu.get_program_counter(), 0x5678);
    assert_eq!(cpu.get_status_register(), 0xff & !B);
    assert_eq!(cpu.get_stack_pointer(), 0xff);
}

#[test]
fn the_table_follows_the_reference_where_the_cost_is_fixed() {
    let table = get_op_codes();
    assert_eq!(table[0xf9].handler, Handler::Sbc);
    assert_eq!(table[0xf9].address_method, AddressMode::AbsoluteY);
    assert_eq!(table[0xf9].ticks, 4);
    assert_eq!(table[0xce].handler, Handler::Dec);
    assert_eq!(table[0xce].address_method, AddressMode::Absolute);
    assert_eq!(table[0xce].ticks, 6);
    for opcode in [0x14usize, 0x34, 0x54, 0x74, 0xd4, 0xf4] {
        assert_eq!(table[opcode].handler, Handler::Nop);
        assert_eq!(table[opcode].address_method, AddressMode::ZeroX);
        assert_eq!(table[opcode].ticks, 4);
    }
    assert_eq!(table[0xf3].handler, Handler::Isc);
    assert_eq!(table[0xf3].address_method, AddressMode::IndirectYNoOverflow);
    assert_eq!(table[0xf3].ticks, 8);
}

#[test]
fn sbc_absolute_y_is_indexed_by_y() {
    let (mut cpu, mut memory) = machine(0x2000);
    memory.load(0x3000, &[0x01]);
    memory.load(0x3005, &[0x10]);
    run(&mut cpu, &mut memory, 0x38, &[]);
    run(&mut cpu, &mut memory, 0xa0, &[0x05]);
    run(&mut cpu, &mut memory, 0xa9, &[0x30]);
    run(&mut cpu, &mut memory, 0xf9, &[0x00, 0x30]);
    assert_eq!(cpu.get_accumulator(), 0x20);
}

#[test]
fn unofficial_instructions_do_their_two_steps() {
    let (mut cpu, mut memory) = machine(0x2000);
    // SLO: shift the byte, then OR it into the accumulator
    memory.load(0x0040, &[0x81]);
    run(&mut cpu, &mut memory, 0xa9, &[0x10]);
    run(&mut cpu, &mut memory, 0x07, &[0x40]);
    assert_eq!(memory.bytes[0x40], 0x02);
    assert_eq!(cpu.get_accumulator(), 0x12);
    assert_eq!(cpu.get_status_register(), U | C);

    // SAX: store A and X
    run(&mut cpu, &mut memory, 0xa9, &[0b1100_1100]);
    run(&mut cpu, &mut memory, 0xa2, &[0b1010_1010]);
    let status = cpu.get_status_register();
    run(&mut cpu, &mut memory, 0x87, &[0x41]);
    assert_eq!(memory.bytes[0x41], 0b1000_1000);
    assert_eq!(cpu.get_status_register(), status);

    // ISC: count the byte up, then subtract it
    memory.load(0x0042, &[0x0f]);
    run(&mut cpu, &mut memory, 0x38, &[]);
    run(&mut cpu, &mut memory, 0xa9, &[0x30]);
    run(&mut cpu, &mut memory, 0xe7, &[0x42]);
    assert_eq!(memory.bytes[0x42], 0x10);
    assert_eq!(cpu.get_accumulator(), 0x20);
    assert_eq!(cpu.get_status_register(), U | C);
}

#[test]
fn an_unused_opcode_is_a_fault() {
    let (mut cpu, mut memory) = machine(0x2000);
    assert_eq!(
        exec(&mut cpu, &mut memory, 0x02, &[]),
        Err(Fault::UnimplementedOpcode { opcode: 0x02 })
    );
    let (mut cpu, mut memory) = machine(0x2000);
    memory.load(0x2000, &[0xff - 0x0d]);
    // fetched in the ordinary way, the fault comes when the opcode's turn is
    let mut result = Ok(());
    for _ in 0..4 {
        result = cpu.execute_tick(&mut memory);
        if result.is_err() {
            break;
        }
    }
    assert_eq!(result, Err(Fault::UnimplementedOpcode { opcode: 0xf2 }));
}

#[test]
fn a_push_on_a_full_stack_is_a_fault() {
    let (mut cpu, mut memory) = machine(0x2000);
    run(&mut cpu, &mut memory, 0xa2, &[0x01]);
    run(&mut cpu, &mut memory, 0x9a, &[]);
    run(&mut cpu, &mut memory, 0x48, &[]);
    assert_eq!(cpu.get_stack_pointer(), 0);
    assert_eq!(exec(&mut cpu, &mut memory, 0x48, &[]), Err(Fault::StackOverflow));
    assert_eq!(exec(&mut cpu, &mut memory, 0x08, &[]), Err(Fault::StackOverflow));
    assert_eq!(exec(&mut cpu, &mut memory, 0x20, &[0, 0]), Err(Fault::StackOverflow));
}

#[test]
fn a_pull_from_an_empty_stack_is_a_fault() {
    let (mut cpu, mut memory) = machine(0x2000);
    assert_eq!(cpu.get_stack_pointer(), 0xff);
    assert_eq!(exec(&mut cpu, &mut memory, 0x68, &[]), Err(Fault::StackUnderflow));
    assert_eq!(exec(&mut cpu, &mut memory, 0x28, &[]), Err(Fault::StackUnderflow));
    assert_eq!(exec(&mut cpu, &mut memory, 0x60, &[]), Err(Fault::StackUnderflow));
    assert_eq!(exec(&mut cpu, &mut memory, 0x40, &[]), Err(Fault::StackUnderflow));
}

#[test]
fn a_write_that_the_memory_refuses_is_a_fault() {
    let (mut cpu, mut memory) = machine(0x2000);
    memory.rom_from = 0x8000;
    assert_eq!(exec(&mut cpu, &mut memory, 0x8d, &[0x00, 0x90]), Err(Fault::RomWrite));
    assert_eq!(exec(&mut cpu, &mut memory, 0xee, &[0x00, 0x90]), Err(Fault::RomWrite));
    run(&mut cpu, &mut memory, 0x8d, &[0x00, 0x70]);
}

#[test]
fn an_instruction_takes_its_base_ticks() {
    let (mut cpu, mut memory) = machine(0x2000);
    // NOP; LDA #1; STA $40; INC $40; JMP $2000
    memory.load(0x2000, &[0xea, 0xa9, 0x01, 0x85, 0x40, 0xe6, 0x40, 0x4c, 0x00, 0x20]);
    // the first tick carries out the pending NOP of the reset and fetches
    assert_eq!(step(&mut cpu, &mut memory), 1);
    assert_eq!(cpu.get_program_counter(), 0x2001);
    assert_eq!(cpu.get_overflow_ticks(), 1);
    assert_eq!(step(&mut cpu, &mut memory), 1);
    assert_eq!(cpu.get_overflow_ticks(), 2);
    assert_eq!(step(&mut cpu, &mut memory), 2);
    assert_eq!(cpu.get_accumulator(), 1);
    assert_eq!(cpu.get_overflow_ticks(), 3);
    assert_eq!(step(&mut cpu, &mut memory), 3);
    assert_eq!(memory.bytes[0x40], 1);
    assert_eq!(cpu.get_overflow_ticks(), 5);
    assert_eq!(step(&mut cpu, &mut memory), 5);
    assert_eq!(memory.bytes[0x40], 2);
    assert_eq!(cpu.get_overflow_ticks(), 3);
    assert_eq!(step(&mut cpu, &mut memory), 3);
    assert_eq!(cpu.get_program_counter(), 0x2001);
}

#[test]
fn a_page_crossing_costs_a_tick() {
    let (mut cpu, mut memory) = machine(0x2000);
    // LDX #1; LDA $30FF,X; LDA $3000,X; STA $30FF,X; LDY #1; LDA ($40),Y; LDA $30FF,Y
    memory.load(
        0x2000,
        &[
            0xa2, 0x01, 0xbd, 0xff, 0x30, 0xbd, 0x00, 0x30, 0x9d, 0xff, 0x30, 0xa0, 0x01, 0xb1,
            0x40, 0xb9, 0xff, 0x30, 0xea,
        ],
    );
    memory.load(0x0040, &[0xff, 0x30]);
    // the tick that fetches the first instruction counts towards it
    step(&mut cpu, &mut memory);
    assert_eq!(cpu.get_overflow_ticks(), 1);
    step(&mut cpu, &mut memory);
    assert_eq!(cpu.get_overflow_ticks(), 5, "LDA abs,X across a page");
    step(&mut cpu, &mut memory);
    assert_eq!(cpu.get_overflow_ticks(), 4, "LDA abs,X within a page");
    step(&mut cpu, &mut memory);
    assert_eq!(cpu.get_overflow_ticks(), 5, "STA abs,X at its fixed cost");
    step(&mut cpu, &mut memory);
    assert_eq!(cpu.get_overflow_ticks(), 2);
    step(&mut cpu, &mut memory);
    assert_eq!(cpu.get_overflow_ticks(), 6, "LDA (zp),Y across a page");
    step(&mut cpu, &mut memory);
    assert_eq!(cpu.get_overflow_ticks(), 5, "LDA abs,Y across a page");
}

#[test]
fn a_taken_branch_costs_a_tick_and_a_page_crossing_one_more() {
    let (mut cpu, mut memory) = machine(0x20f0);
    // BNE +2 (taken, same page); ..; BEQ +2 (not taken); BNE +0x10 (taken, next page)
    memory.load(0x20f0, &[0xd0, 0x02, 0xea, 0xea, 0xf0, 0x02, 0xd0, 0x10]);
    // the tick that fetches the first instruction counts towards it
    step(&mut cpu, &mut memory);
    assert_eq!(cpu.get_overflow_ticks(), 2);
    step(&mut cpu, &mut memory);
    assert_eq!(cpu.get_program_counter(), 0x20f5);
    assert_eq!(cpu.get_overflow_ticks(), 2);
    step(&mut cpu, &mut memory);
    assert_eq!(cpu.get_program_counter(), 0x20f7);
    assert_eq!(cpu.get_overflow_ticks(), 4);
    step(&mut cpu, &mut memory);
    assert_eq!(cpu.get_program_counter(), 0x2108 + 1);
}

#[test]
fn a_loop_of_two_nops_and_a_jump_stays_in_its_six_bytes() {
    let (mut cpu, mut memory) = machine(0x1000);
    memory.load(0x1000, &[0xea, 0xea, 0x4c, 0x00, 0x10]);
    for tick in 0..1000 {
        cpu.execute_tick(&mut memory).unwrap();
        let pc = cpu.get_program_counter();
        assert!((0x1000..=0x1005).contains(&pc), "tick {} pc {:#x}", tick, pc);
    }
    let pc = cpu.get_program_counter();
    assert!((0x1000..=0x1005).contains(&pc));
}

#[test]
fn get_next_operation_fetches_without_executing() {
    let (mut cpu, mut memory) = machine(0x2000);
    memory.load(0x2000, &[0xa9, 0x55]);
    cpu.get_next_operation(&mut memory);
    assert_eq!(cpu.get_program_counter(), 0x2001);
    assert_eq!(cpu.get_overflow_ticks(), 2);
    assert_eq!(cpu.get_accumulator(), 0);
}
