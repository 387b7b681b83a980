use vstd::prelude::*;
use crate::fault::Fault;
use crate::m6502_operation::{AddressMode, Handler, Operation, operation_of};
use crate::memory_mapper::MemoryMapper;

verus! {

pub const CARRY_FLAG: u8 = 1;

pub const ZERO_FLAG: u8 = 2;

pub const INTERRUPT_FLAG: u8 = 4;

pub const DECIMAL_MODE: u8 = 8;

pub const BREAK_COMMAND: u8 = 16;

pub const IGNORED: u8 = 32;

pub const OVERFLOW_FLAG: u8 = 64;

pub const NEGATIVE_FLAG: u8 = 128;

/// The page that the stack lives in.
pub const STACK_PAGE: u16 = 0x100;

/// The most ticks that the processor can have left. An instruction adds ten
/// at most, so in running the count stays far below.
pub const MAX_TICKS: i32 = 0x4000_0000;

/// The registers of the processor, and what it keeps between ticks.
#[derive(Debug, PartialEq, Eq, Clone, Copy, Structural)]
pub struct CpuState {
    /// Ticks left until the pending operation is carried out.
    pub overflow_ticks: i32,
    pub program_counter: u16,
    pub stack_pointer: u8,
    pub accumulator: u8,
    pub register_x: u8,
    pub register_y: u8,
    pub status_register: u8,
    /// The operation that was fetched last and is carried out next.
    pub operation: Operation,
    /// The opcode byte that `operation` was decoded from.
    pub instruction: u8,
}

/// Whether `flag` is set in `status`.
pub open spec fn flag_set(status: u8, flag: u8) -> bool {
    status & flag != 0
}

/// `status` with `flag` set or cleared.
pub open spec fn with_flag(status: u8, flag: u8, on: bool) -> u8 {
    if on {
        status | flag
    } else {
        status & !flag
    }
}

/// `status` with N and Z set from `byte`: N is its bit 7, Z says that it is
/// zero.
pub open spec fn with_nz(status: u8, byte: u8) -> u8 {
    with_flag(with_flag(status, NEGATIVE_FLAG, (byte & 0x80) != 0), ZERO_FLAG, byte == 0)
}

/// The 16-bit word with the given low and high byte.
pub open spec fn word(low: u8, high: u8) -> u16 {
    (high * 256 + low) as u16
}

/// The high byte of a word.
pub open spec fn high_byte(w: u16) -> u8 {
    (w / 256) as u8
}

/// The low byte of a word.
pub open spec fn low_byte(w: u16) -> u8 {
    (w % 256) as u8
}

/// The location after `pointer` in the same page: the processor fetches the
/// high byte of an indirect address without carrying into the page number.
pub open spec fn next_in_page(pointer: u16) -> u16 {
    if pointer % 256 == 255 {
        (pointer - 255) as u16
    } else {
        (pointer + 1) as u16
    }
}

/// A displacement byte as a signed number, -128 to 127.
pub open spec fn displacement(byte: u8) -> int {
    if byte >= 128 {
        byte - 256
    } else {
        byte as int
    }
}

/// The location `byte` away from `from`, as a branch counts it; locations
/// wrap at 65536.
pub open spec fn branch_target(from: u16, byte: u8) -> u16 {
    ((from + displacement(byte)) % 65536) as u16
}

/// What an addition or subtraction gives.
pub struct Sum {
    pub value: u8,
    pub carry: bool,
    pub overflow: bool,
}

/// Whether adding `m` to `a` with result `r` overflowed as an addition of
/// signed bytes: both operands differ in sign from the result.
pub open spec fn signed_overflow(a: u8, m: u8, r: u8) -> bool {
    ((a ^ r) & (m ^ r) & 0x80) != 0
}

/// Binary addition of `a`, `m` and the carry.
pub open spec fn add_binary(a: u8, m: u8, carry: bool) -> Sum {
    let total = a + m + if carry {
        1int
    } else {
        0int
    };
    let value = (total % 256) as u8;
    Sum { value, carry: total > 255, overflow: signed_overflow(a, m, value) }
}

/// The number that a byte of two decimal digits stands for.
pub open spec fn bcd_value(byte: u8) -> int {
    (byte / 16) * 10 + byte % 16
}

/// Whether both nibbles of a byte are decimal digits.
pub open spec fn is_bcd(byte: u8) -> bool {
    byte / 16 <= 9 && byte % 16 <= 9
}

/// Decimal addition of `a`, `m` and the carry: the nibbles are added
/// apart, and a nibble that passes nine is adjusted by six and carries.
pub open spec fn add_decimal(a: u8, m: u8, carry: bool) -> Sum {
    let low = a % 16 + m % 16 + if carry {
        1int
    } else {
        0int
    };
    let low_adjusted = if low > 9 {
        low + 6
    } else {
        low
    };
    let high = a / 16 + m / 16 + if low_adjusted > 15 {
        1int
    } else {
        0int
    };
    let high_adjusted = if high > 9 {
        high + 6
    } else {
        high
    };
    let value = ((high_adjusted % 16) * 16 + low_adjusted % 16) as u8;
    Sum { value, carry: high_adjusted > 15, overflow: signed_overflow(a, m, value) }
}

/// Decimal subtraction of `m` and the borrow from `a`; the borrow is the
/// carry inverted. A nibble that falls below zero is adjusted by ten and
/// borrows.
pub open spec fn subtract_decimal(a: u8, m: u8, carry: bool) -> Sum {
    let low = a % 16 - m % 16 - if carry {
        0int
    } else {
        1int
    };
    let low_adjusted = if low < 0 {
        low + 10
    } else {
        low
    };
    let high = a / 16 - m / 16 - if low < 0 {
        1int
    } else {
        0int
    };
    let high_adjusted = if high < 0 {
        high + 10
    } else {
        high
    };
    let value = ((high_adjusted * 16 + low_adjusted) % 256) as u8;
    Sum { value, carry: high >= 0, overflow: signed_overflow(a, m, value) }
}

/// The operand of a subtraction as the adder takes it: its complement.
pub open spec fn complement(m: u8) -> u8 {
    (255 - m) as u8
}

/// A byte moved one place up with `carry` entering at bit 0, and the bit
/// that left at the top.
pub open spec fn rotated_left(byte: u8, carry: bool) -> (u8, bool) {
    (
        (byte << 1) | if carry {
            1u8
        } else {
            0u8
        },
        (byte & 0x80) != 0,
    )
}

/// A byte moved one place down with `carry` entering at bit 7, and the bit
/// that left at the bottom.
pub open spec fn rotated_right(byte: u8, carry: bool) -> (u8, bool) {
    (
        (byte >> 1) | if carry {
            0x80u8
        } else {
            0u8
        },
        (byte & 0x01) != 0,
    )
}

impl CpuState {
    /// Whether the state is one that the processor's own operations lead
    /// to: the count of ticks left is never negative between ticks.
    pub open spec fn wf(self) -> bool {
        0 <= self.overflow_ticks <= MAX_TICKS
    }

    pub open spec fn flag(self, flag: u8) -> bool {
        flag_set(self.status_register, flag)
    }

    pub open spec fn with_status_flag(self, flag: u8, on: bool) -> CpuState {
        CpuState { status_register: with_flag(self.status_register, flag, on), ..self }
    }

    /// The state with N and Z set from `byte`.
    pub open spec fn with_negative_zero(self, byte: u8) -> CpuState {
        CpuState { status_register: with_nz(self.status_register, byte), ..self }
    }

    pub open spec fn with_pc(self, program_counter: u16) -> CpuState {
        CpuState { program_counter, ..self }
    }

    /// The state with `byte` in the accumulator and N and Z set from it.
    pub open spec fn load_a(self, byte: u8) -> CpuState {
        (CpuState { accumulator: byte, ..self }).with_negative_zero(byte)
    }

    pub open spec fn load_x(self, byte: u8) -> CpuState {
        (CpuState { register_x: byte, ..self }).with_negative_zero(byte)
    }

    pub open spec fn load_y(self, byte: u8) -> CpuState {
        (CpuState { register_y: byte, ..self }).with_negative_zero(byte)
    }

    /// The state after a comparison of `register` with `byte`: C says that
    /// the register is not below the byte, N and Z are those of the
    /// difference.
    pub open spec fn compared(self, register: u8, byte: u8) -> CpuState {
        self.with_status_flag(CARRY_FLAG, register >= byte).with_negative_zero(
            register.wrapping_sub(byte),
        )
    }

    /// The state after BIT: N and V are bits 7 and 6 of the byte, Z says
    /// that the byte and the accumulator have no bit in common.
    pub open spec fn bit_tested(self, byte: u8) -> CpuState {
        self.with_status_flag(OVERFLOW_FLAG, (byte & 0x40) != 0).with_status_flag(
            NEGATIVE_FLAG,
            (byte & 0x80) != 0,
        ).with_status_flag(ZERO_FLAG, byte & self.accumulator == 0)
    }

    /// The state with a sum taken into the accumulator and C, V, N and Z set
    /// from it.
    pub open spec fn with_sum(self, sum: Sum) -> CpuState {
        (CpuState { accumulator: sum.value, ..self }).with_status_flag(
            CARRY_FLAG,
            sum.carry,
        ).with_status_flag(OVERFLOW_FLAG, sum.overflow).with_negative_zero(sum.value)
    }

    /// The state after ADC of `byte`.
    pub open spec fn adc(self, byte: u8) -> CpuState {
        if self.flag(DECIMAL_MODE) {
            self.with_sum(add_decimal(self.accumulator, byte, self.flag(CARRY_FLAG)))
        } else {
            self.with_sum(add_binary(self.accumulator, byte, self.flag(CARRY_FLAG)))
        }
    }

    /// The state after SBC of `byte`: in binary mode the addition of the
    /// byte's complement.
    pub open spec fn sbc(self, byte: u8) -> CpuState {
        if self.flag(DECIMAL_MODE) {
            self.with_sum(subtract_decimal(self.accumulator, byte, self.flag(CARRY_FLAG)))
        } else {
            self.with_sum(add_binary(self.accumulator, complement(byte), self.flag(CARRY_FLAG)))
        }
    }

    /// The state after an instruction that reads its operand has been given
    /// the operand `byte`. NOP reads nothing into the state.
    pub open spec fn alu(self, handler: Handler, byte: u8) -> CpuState {
        match handler {
            Handler::Lda => self.load_a(byte),
            Handler::Ldx => self.load_x(byte),
            Handler::Ldy => self.load_y(byte),
            Handler::And => self.load_a(self.accumulator & byte),
            Handler::Eor => self.load_a(self.accumulator ^ byte),
            Handler::Ora => self.load_a(self.accumulator | byte),
            Handler::Bit => self.bit_tested(byte),
            Handler::Adc => self.adc(byte),
            Handler::Sbc => self.sbc(byte),
            Handler::Cmp => self.compared(self.accumulator, byte),
            Handler::Cpx => self.compared(self.register_x, byte),
            Handler::Cpy => self.compared(self.register_y, byte),
            _ => self,
        }
    }

    /// The byte that a store instruction writes.
    pub open spec fn stored(self, handler: Handler) -> u8 {
        match handler {
            Handler::Sta => self.accumulator,
            Handler::Stx => self.register_x,
            Handler::Sty => self.register_y,
            _ => self.accumulator & self.register_x,
        }
    }

    /// What an instruction that changes a byte in place makes of `byte`,
    /// and the state that it leaves. INC and DEC count modulo 256; the
    /// shifts put the bit that leaves the byte into C; SLO shifts and then
    /// takes the result into the accumulator by OR; ISC counts up and then
    /// subtracts the result from the accumulator.
    pub open spec fn modified(self, handler: Handler, byte: u8) -> (u8, CpuState) {
        match handler {
            Handler::Inc => (byte.wrapping_add(1), self.with_negative_zero(byte.wrapping_add(1))),
            Handler::Dec => (byte.wrapping_sub(1), self.with_negative_zero(byte.wrapping_sub(1))),
            Handler::Asl => {
                let r = rotated_left(byte, false);
                (r.0, self.with_status_flag(CARRY_FLAG, r.1).with_negative_zero(r.0))
            },
            Handler::Lsr => {
                let r = rotated_right(byte, false);
                (r.0, self.with_status_flag(CARRY_FLAG, r.1).with_negative_zero(r.0))
            },
            Handler::Rol => {
                let r = rotated_left(byte, self.flag(CARRY_FLAG));
                (r.0, self.with_status_flag(CARRY_FLAG, r.1).with_negative_zero(r.0))
            },
            Handler::Ror => {
                let r = rotated_right(byte, self.flag(CARRY_FLAG));
                (r.0, self.with_status_flag(CARRY_FLAG, r.1).with_negative_zero(r.0))
            },
            Handler::Slo => {
                let r = rotated_left(byte, false);
                (r.0, self.with_status_flag(CARRY_FLAG, r.1).load_a(self.accumulator | r.0))
            },
            _ => (byte.wrapping_add(1), self.sbc(byte.wrapping_add(1))),
        }
    }

    /// The state after an instruction that works on the registers alone.
    pub open spec fn implied(self, handler: Handler) -> CpuState {
        match handler {
            Handler::Tax => self.load_x(self.accumulator),
            Handler::Tay => self.load_y(self.accumulator),
            Handler::Txa => self.load_a(self.register_x),
            Handler::Tya => self.load_a(self.register_y),
            Handler::Tsx => self.load_x(self.stack_pointer),
            Handler::Txs => CpuState { stack_pointer: self.register_x, ..self },
            Handler::Inx => self.load_x(self.register_x.wrapping_add(1)),
            Handler::Iny => self.load_y(self.register_y.wrapping_add(1)),
            Handler::Dex => self.load_x(self.register_x.wrapping_sub(1)),
            Handler::Dey => self.load_y(self.register_y.wrapping_sub(1)),
            Handler::Clc => self.with_status_flag(CARRY_FLAG, false),
            Handler::Cld => self.with_status_flag(DECIMAL_MODE, false),
            Handler::Cli => self.with_status_flag(INTERRUPT_FLAG, false),
            Handler::Clv => self.with_status_flag(OVERFLOW_FLAG, false),
            Handler::Sec => self.with_status_flag(CARRY_FLAG, true),
            Handler::Sed => self.with_status_flag(DECIMAL_MODE, true),
            Handler::Sei => self.with_status_flag(INTERRUPT_FLAG, true),
            _ => self,
        }
    }

    /// Whether a branch instruction branches in this state.
    pub open spec fn branches(self, handler: Handler) -> bool {
        match handler {
            Handler::Bcc => !self.flag(CARRY_FLAG),
            Handler::Bcs => self.flag(CARRY_FLAG),
            Handler::Beq => self.flag(ZERO_FLAG),
            Handler::Bne => !self.flag(ZERO_FLAG),
            Handler::Bmi => self.flag(NEGATIVE_FLAG),
            Handler::Bpl => !self.flag(NEGATIVE_FLAG),
            Handler::Bvs => self.flag(OVERFLOW_FLAG),
            Handler::Bvc => !self.flag(OVERFLOW_FLAG),
            _ => false,
        }
    }

    /// The location that the stack pointer points at.
    pub open spec fn stack_slot(self) -> u16 {
        (STACK_PAGE + self.stack_pointer) as u16
    }
}

/// Whether a handler reads its operand and works on the registers.
pub open spec fn is_read(handler: Handler) -> bool {
    matches!(
        handler,
        Handler::Lda | Handler::Ldx | Handler::Ldy | Handler::And | Handler::Eor | Handler::Ora
            | Handler::Bit | Handler::Adc | Handler::Sbc | Handler::Cmp | Handler::Cpx
            | Handler::Cpy
    )
}

/// Whether a handler stores a register.
pub open spec fn is_store(handler: Handler) -> bool {
    matches!(handler, Handler::Sta | Handler::Stx | Handler::Sty | Handler::Sax)
}

/// Whether a handler changes a byte in place.
pub open spec fn is_modify(handler: Handler) -> bool {
    matches!(
        handler,
        Handler::Inc | Handler::Dec | Handler::Asl | Handler::Lsr | Handler::Rol | Handler::Ror
            | Handler::Slo | Handler::Isc
    )
}

/// Whether a handler is one of the four shifts, which can work on the
/// accumulator in place of a byte of memory.
pub open spec fn is_shift(handler: Handler) -> bool {
    matches!(handler, Handler::Asl | Handler::Lsr | Handler::Rol | Handler::Ror)
}

/// Whether a handler works on the registers alone.
pub open spec fn is_implied(handler: Handler) -> bool {
    matches!(
        handler,
        Handler::Tax | Handler::Tay | Handler::Txa | Handler::Tya | Handler::Tsx | Handler::Txs
            | Handler::Inx | Handler::Iny | Handler::Dex | Handler::Dey | Handler::Clc
            | Handler::Cld | Handler::Cli | Handler::Clv | Handler::Sec | Handler::Sed
            | Handler::Sei
    )
}

/// Whether a handler sets or clears one flag.
pub open spec fn is_flag_change(handler: Handler) -> bool {
    matches!(
        handler,
        Handler::Clc | Handler::Cld | Handler::Cli | Handler::Clv | Handler::Sec | Handler::Sed
            | Handler::Sei
    )
}

/// Whether a handler is a conditional branch.
pub open spec fn is_branch(handler: Handler) -> bool {
    matches!(
        handler,
        Handler::Bcc | Handler::Bcs | Handler::Beq | Handler::Bne | Handler::Bmi | Handler::Bpl
            | Handler::Bvc | Handler::Bvs
    )
}

/// The processor and the memory after a step, or the fault that ended it.
/// Where there is a fault, the two states say nothing.
pub struct Outcome<T> {
    pub cpu: CpuState,
    pub mem: T,
    pub fault: Option<Fault>,
}

/// Whether a call that returned `r` and left the processor as `cpu` and the
/// memory as `mem` did what `out` says.
pub open spec fn realizes<T>(r: Result<(), Fault>, cpu: CpuState, mem: T, out: Outcome<T>) -> bool {
    match out.fault {
        Some(fault) => r == Err::<(), Fault>(fault),
        None => r.is_ok() && cpu == out.cpu && mem == out.mem,
    }
}

/// An operand found: its address, and the processor and memory after the
/// bytes that follow the opcode have been read.
pub struct Operand<T> {
    pub address: u16,
    pub cpu: CpuState,
    pub mem: T,
}

/// A byte read from memory, and the memory after the read.
pub open spec fn read_byte<M: MemoryMapper>(m: M::Model, location: u16) -> (u8, M::Model) {
    (M::peek(m, location), M::after_read(m, location))
}

/// A word read from memory, low byte first, and the memory after the two
/// reads.
pub open spec fn read_word<M: MemoryMapper>(m: M::Model, low_at: u16, high_at: u16) -> (
    u16,
    M::Model,
) {
    let low = read_byte::<M>(m, low_at);
    let high = read_byte::<M>(low.1, high_at);
    (word(low.0, high.0), high.1)
}

/// The operand that an addressing mode finds. The program counter moves
/// over the bytes that follow the opcode.
#[verifier::opaque]
pub open spec fn resolve<M: MemoryMapper>(mode: AddressMode, c: CpuState, m: M::Model) -> Operand<
    M::Model,
> {
    let pc = c.program_counter;
    let pc1 = pc.wrapping_add(1);
    let pc2 = pc.wrapping_add(2);
    match mode {
        AddressMode::Null => Operand { address: 0, cpu: c, mem: m },
        AddressMode::Accumulator => Operand { address: c.accumulator as u16, cpu: c, mem: m },
        AddressMode::Immediate => Operand { address: pc, cpu: c.with_pc(pc1), mem: m },
        AddressMode::Zero => {
            let b = read_byte::<M>(m, pc);
            Operand { address: b.0 as u16, cpu: c.with_pc(pc1), mem: b.1 }
        },
        AddressMode::ZeroX => {
            let b = read_byte::<M>(m, pc);
            Operand {
                address: b.0.wrapping_add(c.register_x) as u16,
                cpu: c.with_pc(pc1),
                mem: b.1,
            }
        },
        AddressMode::ZeroY => {
            let b = read_byte::<M>(m, pc);
            Operand {
                address: b.0.wrapping_add(c.register_y) as u16,
                cpu: c.with_pc(pc1),
                mem: b.1,
            }
        },
        AddressMode::Absolute => {
            let w = read_word::<M>(m, pc, pc1);
            Operand { address: w.0, cpu: c.with_pc(pc2), mem: w.1 }
        },
        AddressMode::AbsoluteX | AddressMode::AbsoluteXNoOverflow => {
            let w = read_word::<M>(m, pc, pc1);
            Operand {
                address: w.0.wrapping_add(c.register_x as u16),
                cpu: c.with_pc(pc2),
                mem: w.1,
            }
        },
        AddressMode::AbsoluteY | AddressMode::AbsoluteYNoOverflow => {
            let w = read_word::<M>(m, pc, pc1);
            Operand {
                address: w.0.wrapping_add(c.register_y as u16),
                cpu: c.with_pc(pc2),
                mem: w.1,
            }
        },
        AddressMode::Indirect => {
            let pointer = read_word::<M>(m, pc, pc1);
            let target = read_word::<M>(pointer.1, pointer.0, next_in_page(pointer.0));
            Operand { address: target.0, cpu: c.with_pc(pc2), mem: target.1 }
        },
        AddressMode::IndirectX => {
            let b = read_byte::<M>(m, pc);
            let pointer = b.0.wrapping_add(c.register_x);
            let target = read_word::<M>(b.1, pointer as u16, pointer.wrapping_add(1) as u16);
            Operand { address: target.0, cpu: c.with_pc(pc1), mem: target.1 }
        },
        AddressMode::IndirectY | AddressMode::IndirectYNoOverflow => {
            let b = read_byte::<M>(m, pc);
            let target = read_word::<M>(b.1, b.0 as u16, b.0.wrapping_add(1) as u16);
            Operand {
                address: target.0.wrapping_add(c.register_y as u16),
                cpu: c.with_pc(pc1),
                mem: target.1,
            }
        },
    }
}

/// A push of `byte`: the byte goes to the stack slot and the pointer moves
/// down. A push with the pointer at zero is a fault.
pub open spec fn push<M: MemoryMapper>(c: CpuState, m: M::Model, byte: u8) -> Outcome<M::Model> {
    if c.stack_pointer == 0 {
        Outcome { cpu: c, mem: m, fault: Some(Fault::StackOverflow) }
    } else if !M::takes_write(m, c.stack_slot()) {
        Outcome { cpu: c, mem: m, fault: Some(Fault::RomWrite) }
    } else {
        Outcome {
            cpu: CpuState { stack_pointer: (c.stack_pointer - 1) as u8, ..c },
            mem: M::after_write(m, c.stack_slot(), byte),
            fault: None,
        }
    }
}

/// A pull: the pointer moves up and the byte at the stack slot is read. A
/// pull with the pointer at 0xFF is a fault.
pub open spec fn pull<M: MemoryMapper>(c: CpuState, m: M::Model) -> (u8, Outcome<M::Model>) {
    if c.stack_pointer == 0xFF {
        (0, Outcome { cpu: c, mem: m, fault: Some(Fault::StackUnderflow) })
    } else {
        let up = CpuState { stack_pointer: (c.stack_pointer + 1) as u8, ..c };
        let b = read_byte::<M>(m, up.stack_slot());
        (b.0, Outcome { cpu: up, mem: b.1, fault: None })
    }
}

/// A push of a word, high byte first.
pub open spec fn push_word<M: MemoryMapper>(c: CpuState, m: M::Model, w: u16) -> Outcome<M::Model> {
    let high = push::<M>(c, m, high_byte(w));
    if high.fault.is_some() {
        high
    } else {
        push::<M>(high.cpu, high.mem, low_byte(w))
    }
}

/// A pull of a word, low byte first.
pub open spec fn pull_word<M: MemoryMapper>(c: CpuState, m: M::Model) -> (u16, Outcome<M::Model>) {
    let low = pull::<M>(c, m);
    if low.1.fault.is_some() {
        (0, low.1)
    } else {
        let high = pull::<M>(low.1.cpu, low.1.mem);
        (word(low.0, high.0), high.1)
    }
}

/// A write of `byte` to `address`, which the memory may refuse.
pub open spec fn store<M: MemoryMapper>(c: CpuState, m: M::Model, address: u16, byte: u8)
    -> Outcome<M::Model> {
    if M::takes_write(m, address) {
        Outcome { cpu: c, mem: M::after_write(m, address, byte), fault: None }
    } else {
        Outcome { cpu: c, mem: m, fault: Some(Fault::RomWrite) }
    }
}

/// What an instruction that reads its operand does.
#[verifier::opaque]
pub open spec fn execute_read<M: MemoryMapper>(
    handler: Handler,
    mode: AddressMode,
    c: CpuState,
    m: M::Model,
) -> Outcome<M::Model> {
    let o = resolve::<M>(mode, c, m);
    let b = read_byte::<M>(o.mem, o.address);
    Outcome { cpu: o.cpu.alu(handler, b.0), mem: b.1, fault: None }
}

/// What an instruction that stores a register does.
#[verifier::opaque]
pub open spec fn execute_store<M: MemoryMapper>(
    handler: Handler,
    mode: AddressMode,
    c: CpuState,
    m: M::Model,
) -> Outcome<M::Model> {
    let o = resolve::<M>(mode, c, m);
    store::<M>(o.cpu, o.mem, o.address, o.cpu.stored(handler))
}

/// What an instruction that changes a byte in place does. A shift in
/// accumulator mode changes the accumulator and reaches for no memory.
#[verifier::opaque]
pub open spec fn execute_modify<M: MemoryMapper>(
    handler: Handler,
    mode: AddressMode,
    c: CpuState,
    m: M::Model,
) -> Outcome<M::Model> {
    if is_shift(handler) && mode == AddressMode::Accumulator {
        let r = c.modified(handler, c.accumulator);
        Outcome { cpu: CpuState { accumulator: r.0, ..r.1 }, mem: m, fault: None }
    } else {
        let o = resolve::<M>(mode, c, m);
        let b = read_byte::<M>(o.mem, o.address);
        let r = o.cpu.modified(handler, b.0);
        store::<M>(r.1, b.1, o.address, r.0)
    }
}

/// What an instruction that works on the registers alone does.
#[verifier::opaque]
pub open spec fn execute_implied<M: MemoryMapper>(
    handler: Handler,
    mode: AddressMode,
    c: CpuState,
    m: M::Model,
) -> Outcome<M::Model> {
    let o = resolve::<M>(mode, c, m);
    Outcome { cpu: o.cpu.implied(handler), mem: o.mem, fault: None }
}

/// What a conditional branch does: where it branches, the program counter
/// moves by the displacement from the instruction that follows.
#[verifier::opaque]
pub open spec fn execute_branch<M: MemoryMapper>(
    handler: Handler,
    mode: AddressMode,
    c: CpuState,
    m: M::Model,
) -> Outcome<M::Model> {
    let o = resolve::<M>(mode, c, m);
    let b = read_byte::<M>(o.mem, o.address);
    Outcome {
        cpu: if o.cpu.branches(handler) {
            o.cpu.with_pc(branch_target(o.cpu.program_counter, b.0))
        } else {
            o.cpu
        },
        mem: b.1,
        fault: None,
    }
}

/// What the instructions of the stack and of control flow do. JSR pushes the
/// location of its own last byte, which RTS pulls and steps over. RTI pulls
/// the status, in which it clears B, and then the location to go on at.
/// BRK pushes the location behind the byte that follows it, then the status
/// as it stands with B set in the byte pushed; only then it sets I, clears
/// B in the register and goes where the vector at 0xFFFE points. NOP steps
/// over its operand.
#[verifier::opaque]
pub open spec fn execute_control<M: MemoryMapper>(
    handler: Handler,
    mode: AddressMode,
    c: CpuState,
    m: M::Model,
) -> Outcome<M::Model> {
    let o = resolve::<M>(mode, c, m);
    match handler {
        Handler::Pha => push::<M>(o.cpu, o.mem, o.cpu.accumulator),
        Handler::Php => push::<M>(o.cpu, o.mem, o.cpu.status_register),
        Handler::Pla => {
            let p = pull::<M>(o.cpu, o.mem);
            Outcome { cpu: p.1.cpu.load_a(p.0), ..p.1 }
        },
        Handler::Plp => {
            let p = pull::<M>(o.cpu, o.mem);
            Outcome { cpu: CpuState { status_register: p.0, ..p.1.cpu }, ..p.1 }
        },
        Handler::Jmp => Outcome { cpu: o.cpu.with_pc(o.address), mem: o.mem, fault: None },
        Handler::Jsr => {
            let p = push_word::<M>(o.cpu, o.mem, o.cpu.program_counter.wrapping_sub(1));
            Outcome { cpu: p.cpu.with_pc(o.address), ..p }
        },
        Handler::Rts => {
            let p = pull_word::<M>(o.cpu, o.mem);
            Outcome { cpu: p.1.cpu.with_pc(p.0.wrapping_add(1)), ..p.1 }
        },
        Handler::Rti => {
            let s = pull::<M>(o.cpu, o.mem);
            if s.1.fault.is_some() {
                s.1
            } else {
                let p = pull_word::<M>(
                    CpuState { status_register: with_flag(s.0, BREAK_COMMAND, false), ..s.1.cpu },
                    s.1.mem,
                );
                Outcome { cpu: p.1.cpu.with_pc(p.0), ..p.1 }
            }
        },
        Handler::Brk => {
            let p = push_word::<M>(o.cpu, o.mem, o.cpu.program_counter.wrapping_add(1));
            if p.fault.is_some() {
                p
            } else {
                let s = push::<M>(
                    p.cpu,
                    p.mem,
                    with_flag(p.cpu.status_register, BREAK_COMMAND, true),
                );
                if s.fault.is_some() {
                    s
                } else {
                    let vector = read_word::<M>(s.mem, 0xfffe, 0xffff);
                    Outcome {
                        cpu: s.cpu.with_status_flag(INTERRUPT_FLAG, true).with_status_flag(
                            BREAK_COMMAND,
                            false,
                        ).with_pc(vector.0),
                        mem: vector.1,
                        fault: None,
                    }
                }
            }
        },
        _ => Outcome { cpu: o.cpu, mem: o.mem, fault: None },
    }
}

/// What carrying out an operation does. The operand is found first, so
/// that the program counter stands behind the instruction; then the
/// handler acts. An opcode without a handler is a fault.
pub open spec fn execute<M: MemoryMapper>(
    handler: Handler,
    mode: AddressMode,
    c: CpuState,
    m: M::Model,
) -> Outcome<M::Model> {
    if handler == Handler::Panic {
        Outcome { cpu: c, mem: m, fault: Some(Fault::UnimplementedOpcode { opcode: c.instruction }) }
    } else if is_read(handler) {
        execute_read::<M>(handler, mode, c, m)
    } else if is_store(handler) {
        execute_store::<M>(handler, mode, c, m)
    } else if is_modify(handler) {
        execute_modify::<M>(handler, mode, c, m)
    } else if is_implied(handler) {
        execute_implied::<M>(handler, mode, c, m)
    } else if is_branch(handler) {
        execute_branch::<M>(handler, mode, c, m)
    } else {
        execute_control::<M>(handler, mode, c, m)
    }
}

/// The extra ticks of a branch that will be taken, with the memory after
/// the displacement has been looked at: one tick, and one more where the
/// target lies in another page than the instruction that follows.
pub open spec fn branch_penalty<M: MemoryMapper>(handler: Handler, c: CpuState, m: M::Model) -> (
    int,
    M::Model,
) {
    if is_branch(handler) && c.branches(handler) {
        let b = read_byte::<M>(m, c.program_counter);
        let next = c.program_counter.wrapping_add(1);
        (
            if branch_target(next, b.0) / 256 != next / 256 {
                2
            } else {
                1
            },
            b.1,
        )
    } else {
        (0, m)
    }
}

/// The extra tick of an indexed access that crosses into the next page,
/// with the memory after the address has been looked at.
pub open spec fn index_penalty<M: MemoryMapper>(mode: AddressMode, c: CpuState, m: M::Model) -> (
    int,
    M::Model,
) {
    match mode {
        AddressMode::AbsoluteX => {
            let b = read_byte::<M>(m, c.program_counter);
            (
                if b.0 + c.register_x > 255 {
                    1
                } else {
                    0
                },
                b.1,
            )
        },
        AddressMode::AbsoluteY => {
            let b = read_byte::<M>(m, c.program_counter);
            (
                if b.0 + c.register_y > 255 {
                    1
                } else {
                    0
                },
                b.1,
            )
        },
        AddressMode::IndirectY => {
            let pointer = read_byte::<M>(m, c.program_counter);
            let b = read_byte::<M>(pointer.1, pointer.0 as u16);
            (
                if b.0 + c.register_y > 255 {
                    1
                } else {
                    0
                },
                b.1,
            )
        },
        _ => (0, m),
    }
}

/// The fetch of the next operation: the opcode at the program counter is
/// read and decoded, the program counter moves past it, and the
/// operation's ticks with its penalties are added to the ticks left.
#[verifier::opaque]
pub open spec fn fetch<M: MemoryMapper>(c: CpuState, m: M::Model) -> (CpuState, M::Model) {
    let opcode = read_byte::<M>(m, c.program_counter);
    let operation = operation_of(opcode.0);
    let fetched = CpuState {
        instruction: opcode.0,
        operation,
        program_counter: c.program_counter.wrapping_add(1),
        ..c
    };
    let branch = branch_penalty::<M>(operation.handler, fetched, opcode.1);
    let index = index_penalty::<M>(operation.address_method, fetched, branch.1);
    (
        CpuState {
            overflow_ticks: (c.overflow_ticks + operation.ticks + branch.0 + index.0) as i32,
            ..fetched
        },
        index.1,
    )
}

/// One tick of the processor. While more than one tick is left, the tick
/// is counted and nothing else happens. On the last tick the pending
/// operation is carried out, and the next one is fetched.
#[verifier::opaque]
pub open spec fn tick<M: MemoryMapper>(c: CpuState, m: M::Model) -> Outcome<M::Model> {
    let counted = CpuState { overflow_ticks: (c.overflow_ticks - 1) as i32, ..c };
    if c.overflow_ticks > 1 {
        Outcome { cpu: counted, mem: m, fault: None }
    } else {
        let done = execute::<M>(
            counted.operation.handler,
            counted.operation.address_method,
            counted,
            m,
        );
        if done.fault.is_some() {
            done
        } else {
            let next = fetch::<M>(done.cpu, done.mem);
            Outcome { cpu: next.0, mem: next.1, fault: None }
        }
    }
}

/// The state after a reset: the program counter comes from the vector at
/// 0xFFFC, the stack is empty, the registers are zero, only the unused
/// flag is set, and the pending operation is NOP.
pub open spec fn reset<M: MemoryMapper>(c: CpuState, m: M::Model) -> (CpuState, M::Model) {
    let vector = read_word::<M>(m, 0xfffc, 0xfffd);
    (
        CpuState {
            operation: operation_of(0xea),
            stack_pointer: 0xff,
            program_counter: vector.0,
            accumulator: 0,
            register_x: 0,
            register_y: 0,
            status_register: IGNORED,
            ..c
        },
        vector.1,
    )
}

/// The state of a processor that has not been reset yet.
pub open spec fn power_on() -> CpuState {
    CpuState {
        overflow_ticks: 0,
        program_counter: 0,
        stack_pointer: 0xfd,
        accumulator: 0,
        register_x: 0,
        register_y: 0,
        status_register: 0x40,
        operation: operation_of(0xea),
        instruction: 0,
    }
}

} // verus!
