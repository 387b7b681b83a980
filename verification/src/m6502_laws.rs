use vstd::prelude::*;
use crate::m6502_model::{
    BREAK_COMMAND,
    CARRY_FLAG,
    CpuState,
    DECIMAL_MODE,
    INTERRUPT_FLAG,
    NEGATIVE_FLAG,
    OVERFLOW_FLAG,
    ZERO_FLAG,
    add_binary,
    add_decimal,
    bcd_value,
    complement,
    displacement,
    execute,
    execute_branch,
    execute_control,
    execute_implied,
    execute_modify,
    execute_read,
    execute_store,
    fetch,
    flag_set,
    high_byte,
    is_bcd,
    is_branch,
    is_implied,
    is_modify,
    is_read,
    is_store,
    low_byte,
    pull,
    pull_word,
    push,
    push_word,
    read_byte,
    read_word,
    resolve,
    subtract_decimal,
    tick,
    with_flag,
    with_nz,
    word,
};
use crate::m6502_operation::{AddressMode, Handler, operand_length, operation_of};
use crate::memory_mapper::MemoryMapper;

verus! {

/// Whether a byte is one of the eight flags of the status register.
pub open spec fn is_flag(flag: u8) -> bool {
    flag == 1 || flag == 2 || flag == 4 || flag == 8 || flag == 16 || flag == 32 || flag == 64
        || flag == 128
}

/// Setting or clearing a flag gives the flag that value and leaves every
/// other flag as it was.
pub proof fn lemma_with_flag(status: u8, flag: u8, on: bool, other: u8)
    requires
        is_flag(flag),
        is_flag(other),
    ensures
        flag_set(with_flag(status, flag, on), flag) == on,
        other != flag ==> flag_set(with_flag(status, flag, on), other) == flag_set(status, other),
{
    assert((status | flag) & flag != 0) by (bit_vector)
        requires
            flag == 1 || flag == 2 || flag == 4 || flag == 8 || flag == 16 || flag == 32 || flag
                == 64 || flag == 128,
    ;
    assert((status & !flag) & flag == 0) by (bit_vector);
    assert(other != flag ==> (status | flag) & other == status & other) by (bit_vector)
        requires
            flag == 1 || flag == 2 || flag == 4 || flag == 8 || flag == 16 || flag == 32 || flag
                == 64 || flag == 128,
            other == 1 || other == 2 || other == 4 || other == 8 || other == 16 || other == 32
                || other == 64 || other == 128,
    ;
    assert(other != flag ==> (status & !flag) & other == status & other) by (bit_vector)
        requires
            flag == 1 || flag == 2 || flag == 4 || flag == 8 || flag == 16 || flag == 32 || flag
                == 64 || flag == 128,
            other == 1 || other == 2 || other == 4 || other == 8 || other == 16 || other == 32
                || other == 64 || other == 128,
    ;
}

/// After N and Z have been set from a byte, Z says that the byte is zero
/// and N is its bit 7; the other flags are as they were.
pub proof fn lemma_with_nz(status: u8, byte: u8, other: u8)
    requires
        is_flag(other),
    ensures
        flag_set(with_nz(status, byte), ZERO_FLAG) == (byte == 0),
        flag_set(with_nz(status, byte), NEGATIVE_FLAG) == ((byte & 0x80) != 0),
        other != ZERO_FLAG && other != NEGATIVE_FLAG ==> flag_set(with_nz(status, byte), other)
            == flag_set(status, other),
{
    let n = with_flag(status, NEGATIVE_FLAG, (byte & 0x80) != 0);
    lemma_with_flag(status, NEGATIVE_FLAG, (byte & 0x80) != 0, other);
    lemma_with_flag(status, NEGATIVE_FLAG, (byte & 0x80) != 0, NEGATIVE_FLAG);
    lemma_with_flag(n, ZERO_FLAG, byte == 0, other);
    lemma_with_flag(n, ZERO_FLAG, byte == 0, NEGATIVE_FLAG);
    lemma_with_flag(n, ZERO_FLAG, byte == 0, ZERO_FLAG);
}

/// ADC in binary mode: the accumulator takes the sum of accumulator,
/// operand and carry modulo 256; C is the carry out of that sum, V the
/// overflow of the signed addition, Z says that the result is zero and N is
/// its bit 7.
pub proof fn lemma_adc_binary(c: CpuState, m: u8)
    requires
        !c.flag(DECIMAL_MODE),
    ensures
        ({
            let total = c.accumulator + m + if c.flag(CARRY_FLAG) {
                1int
            } else {
                0int
            };
            let r = c.adc(m);
            &&& r.accumulator == total % 256
            &&& r.flag(CARRY_FLAG) == (total > 255)
            &&& r.flag(OVERFLOW_FLAG) == (((c.accumulator ^ r.accumulator) & (m ^ r.accumulator)
                & 0x80) != 0)
            &&& r.flag(ZERO_FLAG) == (r.accumulator == 0)
            &&& r.flag(NEGATIVE_FLAG) == ((r.accumulator & 0x80) != 0)
        }),
{
    lemma_sum_flags(c, add_binary(c.accumulator, m, c.flag(CARRY_FLAG)));
}

/// SBC in binary mode is ADC of the operand's complement: with `n` the
/// complement, the accumulator takes the sum of accumulator, `n` and carry
/// modulo 256, and the flags follow as for ADC.
pub proof fn lemma_sbc_binary(c: CpuState, m: u8)
    requires
        !c.flag(DECIMAL_MODE),
    ensures
        c.sbc(m) == c.adc(complement(m)),
        ({
            let n = complement(m);
            let total = c.accumulator + n + if c.flag(CARRY_FLAG) {
                1int
            } else {
                0int
            };
            let r = c.sbc(m);
            &&& r.accumulator == total % 256
            &&& r.flag(CARRY_FLAG) == (total > 255)
            &&& r.flag(OVERFLOW_FLAG) == (((c.accumulator ^ r.accumulator) & (n ^ r.accumulator)
                & 0x80) != 0)
            &&& r.flag(ZERO_FLAG) == (r.accumulator == 0)
            &&& r.flag(NEGATIVE_FLAG) == ((r.accumulator & 0x80) != 0)
        }),
{
    lemma_adc_binary(c, complement(m));
}

/// The flags after a sum has been taken into the accumulator.
proof fn lemma_sum_flags(c: CpuState, sum: crate::m6502_model::Sum)
    ensures
        c.with_sum(sum).accumulator == sum.value,
        c.with_sum(sum).flag(CARRY_FLAG) == sum.carry,
        c.with_sum(sum).flag(OVERFLOW_FLAG) == sum.overflow,
        c.with_sum(sum).flag(ZERO_FLAG) == (sum.value == 0),
        c.with_sum(sum).flag(NEGATIVE_FLAG) == ((sum.value & 0x80) != 0),
{
    let s0 = c.status_register;
    let s1 = with_flag(s0, CARRY_FLAG, sum.carry);
    let s2 = with_flag(s1, OVERFLOW_FLAG, sum.overflow);
    lemma_with_flag(s0, CARRY_FLAG, sum.carry, CARRY_FLAG);
    lemma_with_flag(s1, OVERFLOW_FLAG, sum.overflow, CARRY_FLAG);
    lemma_with_flag(s1, OVERFLOW_FLAG, sum.overflow, OVERFLOW_FLAG);
    lemma_with_nz(s2, sum.value, CARRY_FLAG);
    lemma_with_nz(s2, sum.value, OVERFLOW_FLAG);
}

/// Decimal addition of two bytes of decimal digits gives a byte of decimal
/// digits: the sum of the numbers they stand for modulo 100, with the carry
/// saying that the sum passed 99.
pub proof fn lemma_add_decimal(a: u8, m: u8, carry: bool)
    requires
        is_bcd(a),
        is_bcd(m),
    ensures
        is_bcd(add_decimal(a, m, carry).value),
        bcd_value(add_decimal(a, m, carry).value) + if add_decimal(a, m, carry).carry {
            100int
        } else {
            0int
        } == bcd_value(a) + bcd_value(m) + if carry {
            1int
        } else {
            0int
        },
{
    let cin = if carry {
        1int
    } else {
        0int
    };
    let low = a % 16 + m % 16 + cin;
    let low_digit = if low > 9 {
        low - 10
    } else {
        low
    };
    let low_adjusted = if low > 9 {
        low + 6
    } else {
        low
    };
    assert(low_adjusted % 16 == low_digit);
    let high = a / 16 + m / 16 + if low > 9 {
        1int
    } else {
        0int
    };
    let high_digit = if high > 9 {
        high - 10
    } else {
        high
    };
    let high_adjusted = if high > 9 {
        high + 6
    } else {
        high
    };
    assert(high_adjusted % 16 == high_digit);
    let value = add_decimal(a, m, carry).value;
    assert(value == high_digit * 16 + low_digit);
    assert(value / 16 == high_digit && value % 16 == low_digit);
}

/// Decimal subtraction of two bytes of decimal digits gives a byte of
/// decimal digits: the difference of the numbers they stand for, less one
/// where the carry is clear, modulo 100; the carry comes out clear where
/// the difference fell below zero.
pub proof fn lemma_subtract_decimal(a: u8, m: u8, carry: bool)
    requires
        is_bcd(a),
        is_bcd(m),
    ensures
        is_bcd(subtract_decimal(a, m, carry).value),
        bcd_value(subtract_decimal(a, m, carry).value) - if subtract_decimal(a, m, carry).carry {
            0int
        } else {
            100int
        } == bcd_value(a) - bcd_value(m) - if carry {
            0int
        } else {
            1int
        },
{
    let borrow = if carry {
        0int
    } else {
        1int
    };
    let low = a % 16 - m % 16 - borrow;
    let low_digit = if low < 0 {
        low + 10
    } else {
        low
    };
    let high = a / 16 - m / 16 - if low < 0 {
        1int
    } else {
        0int
    };
    let high_digit = if high < 0 {
        high + 10
    } else {
        high
    };
    assert(0 <= low_digit <= 9);
    assert(0 <= high_digit <= 9);
    let value = subtract_decimal(a, m, carry).value;
    assert((high_digit * 16 + low_digit) % 256 == high_digit * 16 + low_digit);
    assert(value == high_digit * 16 + low_digit);
    assert(value / 16 == high_digit && value % 16 == low_digit);
}

/// Finding an operand moves the program counter over the operand's bytes
/// and changes nothing else of the processor.
pub proof fn lemma_resolve_moves_pc_only<M: MemoryMapper>(
    mode: AddressMode,
    c: CpuState,
    m: M::Model,
)
    ensures
        resolve::<M>(mode, c, m).cpu == c.with_pc(
            ((c.program_counter + operand_length(mode)) % 65536) as u16,
        ),
{
    reveal(resolve);
}

/// Carrying out an operation leaves the count of ticks alone.
pub proof fn lemma_execute_keeps_ticks<M: MemoryMapper>(
    handler: Handler,
    mode: AddressMode,
    c: CpuState,
    m: M::Model,
)
    ensures
        execute::<M>(handler, mode, c, m).fault.is_none() ==> execute::<M>(
            handler,
            mode,
            c,
            m,
        ).cpu.overflow_ticks == c.overflow_ticks,
{
    reveal(execute_read);
    reveal(execute_store);
    reveal(execute_modify);
    reveal(execute_implied);
    reveal(execute_branch);
    reveal(execute_control);
    lemma_resolve_moves_pc_only::<M>(mode, c, m);
}

/// Whether a handler decides itself where the program goes on.
pub open spec fn sets_pc(handler: Handler) -> bool {
    is_branch(handler) || matches!(
        handler,
        Handler::Jmp | Handler::Jsr | Handler::Rts | Handler::Rti | Handler::Brk
    )
}

/// An instruction that is no branch, jump, call, return or break leaves the
/// program counter behind its last byte.
pub proof fn lemma_pc_steps_over_operand<M: MemoryMapper>(
    handler: Handler,
    mode: AddressMode,
    c: CpuState,
    m: M::Model,
)
    requires
        !sets_pc(handler),
        execute::<M>(handler, mode, c, m).fault.is_none(),
    ensures
        execute::<M>(handler, mode, c, m).cpu.program_counter == (c.program_counter
            + operand_length(mode)) % 65536,
{
    lemma_resolve_moves_pc_only::<M>(mode, c, m);
    if is_read(handler) {
        reveal(execute_read);
    } else if is_store(handler) {
        reveal(execute_store);
    } else if is_modify(handler) {
        reveal(execute_modify);
    } else if is_implied(handler) {
        reveal(execute_implied);
    } else {
        reveal(execute_control);
    }
}

/// A branch that is taken goes to the location behind its operand plus the
/// signed displacement; one that is not taken goes to the location behind
/// its operand.
pub proof fn lemma_branch_target<M: MemoryMapper>(handler: Handler, c: CpuState, m: M::Model)
    requires
        is_branch(handler),
    ensures
        execute::<M>(handler, AddressMode::Immediate, c, m).fault.is_none(),
        execute::<M>(handler, AddressMode::Immediate, c, m).cpu.program_counter == if c.branches(
            handler,
        ) {
            (c.program_counter + 1 + displacement(M::peek(m, c.program_counter))) % 65536
        } else {
            (c.program_counter + 1) % 65536
        },
{
    reveal(execute_branch);
    reveal(resolve);
}

/// One whole instruction, from the fetch of its opcode at `c.program_counter`
/// to the end of its execution. An instruction that is no branch, jump,
/// call, return or break leaves the program counter at the opcode's
/// location plus the instruction's length. A branch leaves it two further,
/// and where it is taken, further by the displacement.
pub proof fn lemma_instruction_length<M: MemoryMapper>(c: CpuState, m: M::Model)
    ensures
        ({
            let at = c.program_counter;
            let operation = operation_of(M::peek(m, at));
            let fetched = fetch::<M>(c, m);
            let done = execute::<M>(
                operation.handler,
                operation.address_method,
                fetched.0,
                fetched.1,
            );
            &&& fetched.0.operation == operation
            &&& fetched.0.program_counter == (at + 1) % 65536
            &&& !sets_pc(operation.handler) && done.fault.is_none() ==> done.cpu.program_counter
                == (at + 1 + operand_length(operation.address_method)) % 65536
            &&& is_branch(operation.handler) && operation.address_method == AddressMode::Immediate
                ==> done.cpu.program_counter == if fetched.0.branches(operation.handler) {
                (at + 2 + displacement(M::peek(fetched.1, fetched.0.program_counter))) % 65536
            } else {
                (at + 2) % 65536
            }
        }),
{
    reveal(fetch);
    let at = c.program_counter;
    let operation = operation_of(M::peek(m, at));
    let fetched = fetch::<M>(c, m);
    if !sets_pc(operation.handler) && execute::<M>(
        operation.handler,
        operation.address_method,
        fetched.0,
        fetched.1,
    ).fault.is_none() {
        lemma_pc_steps_over_operand::<M>(
            operation.handler,
            operation.address_method,
            fetched.0,
            fetched.1,
        );
    }
    if is_branch(operation.handler) {
        lemma_branch_target::<M>(operation.handler, fetched.0, fetched.1);
    }
}

/// JMP goes to the address that its mode finds.
pub proof fn lemma_jmp<M: MemoryMapper>(mode: AddressMode, c: CpuState, m: M::Model)
    ensures
        execute::<M>(Handler::Jmp, mode, c, m).fault.is_none(),
        execute::<M>(Handler::Jmp, mode, c, m).cpu.program_counter == resolve::<M>(
            mode,
            c,
            m,
        ).address,
{
    reveal(execute_control);
}

/// Where the instructions of control flow go. RTS goes to the location
/// behind the word that it pulls, RTI to the word that it pulls after the
/// status, and BRK where the vector at 0xFFFE points.
pub proof fn lemma_control_targets<M: MemoryMapper>(c: CpuState, m: M::Model)
    ensures
        ({
            let returned = execute::<M>(Handler::Rts, AddressMode::Null, c, m);
            let pulled = pull_word::<M>(c, m);
            returned.fault.is_none() ==> pulled.1.fault.is_none() && returned.cpu.program_counter
                == (pulled.0 + 1) % 65536
        }),
        ({
            let returned = execute::<M>(Handler::Rti, AddressMode::Null, c, m);
            let status = pull::<M>(c, m);
            returned.fault.is_none() ==> status.1.fault.is_none() && returned.cpu.program_counter
                == pull_word::<M>(
                CpuState {
                    status_register: with_flag(status.0, BREAK_COMMAND, false),
                    ..status.1.cpu
                },
                status.1.mem,
            ).0 && returned.cpu.status_register == with_flag(status.0, BREAK_COMMAND, false)
        }),
        ({
            let broken = execute::<M>(Handler::Brk, AddressMode::Null, c, m);
            broken.fault.is_none() ==> exists|before: M::Model|
                broken.cpu.program_counter == read_word::<M>(before, 0xfffe, 0xffff).0
                    && broken.mem == read_word::<M>(before, 0xfffe, 0xffff).1
        }),
{
    reveal(execute_control);
    reveal(resolve);
    let broken = execute::<M>(Handler::Brk, AddressMode::Null, c, m);
    if broken.fault.is_none() {
        let p = push_word::<M>(c, m, c.program_counter.wrapping_add(1));
        let s = push::<M>(p.cpu, p.mem, with_flag(p.cpu.status_register, BREAK_COMMAND, true));
        assert(broken.cpu.program_counter == read_word::<M>(s.mem, 0xfffe, 0xffff).0);
        assert(broken.mem == read_word::<M>(s.mem, 0xfffe, 0xffff).1);
    }
}

/// BRK pushes three bytes: the high and the low byte of the location behind
/// the byte that follows it, and then the status as it stood with B set.
/// After that I is set, and the program goes on where the vector at 0xFFFE
/// points. This holds where the three pushes are possible and taken.
pub proof fn lemma_brk_pushes_status_with_b<M: MemoryMapper>(c: CpuState, m: M::Model)
    requires
        execute::<M>(Handler::Brk, AddressMode::Null, c, m).fault.is_none(),
    ensures
        ({
            let w = ((c.program_counter + 1) % 65536) as u16;
            let upper = c.stack_slot();
            let m1 = M::after_write(m, upper, high_byte(w));
            let m2 = M::after_write(m1, (upper - 1) as u16, low_byte(w));
            let m3 = M::after_write(
                m2,
                (upper - 2) as u16,
                with_flag(c.status_register, BREAK_COMMAND, true),
            );
            let broken = execute::<M>(Handler::Brk, AddressMode::Null, c, m);
            &&& c.stack_pointer >= 3
            &&& broken.cpu.stack_pointer == c.stack_pointer - 3
            &&& broken.mem == read_word::<M>(m3, 0xfffe, 0xffff).1
            &&& broken.cpu.program_counter == read_word::<M>(m3, 0xfffe, 0xffff).0
            &&& broken.cpu.status_register == with_flag(
                with_flag(c.status_register, INTERRUPT_FLAG, true),
                BREAK_COMMAND,
                false,
            )
        }),
{
    reveal(execute_control);
    reveal(resolve);
}

/// Whether every read and every write that is taken keeps `inv`.
pub open spec fn kept_by_memory<M: MemoryMapper>(inv: spec_fn(M::Model) -> bool) -> bool {
    &&& forall|m: M::Model, location: u16| inv(m) ==> inv(#[trigger] M::after_read(m, location))
    &&& forall|m: M::Model, location: u16, byte: u8|
        inv(m) && M::takes_write(m, location) ==> inv(
            #[trigger] M::after_write(m, location, byte),
        )
}

/// What every read and every taken write keeps, finding an operand keeps.
pub proof fn lemma_resolve_keeps<M: MemoryMapper>(
    mode: AddressMode,
    c: CpuState,
    m: M::Model,
    inv: spec_fn(M::Model) -> bool,
)
    requires
        kept_by_memory::<M>(inv),
        inv(m),
    ensures
        inv(resolve::<M>(mode, c, m).mem),
{
    reveal(resolve);
}

/// What every read and every taken write keeps, an operation keeps.
pub proof fn lemma_execute_keeps<M: MemoryMapper>(
    handler: Handler,
    mode: AddressMode,
    c: CpuState,
    m: M::Model,
    inv: spec_fn(M::Model) -> bool,
)
    requires
        kept_by_memory::<M>(inv),
        inv(m),
    ensures
        execute::<M>(handler, mode, c, m).fault.is_none() ==> inv(
            execute::<M>(handler, mode, c, m).mem,
        ),
{
    lemma_resolve_keeps::<M>(mode, c, m, inv);
    if is_read(handler) {
        reveal(execute_read);
    } else if is_store(handler) {
        reveal(execute_store);
    } else if is_modify(handler) {
        reveal(execute_modify);
    } else if is_implied(handler) {
        reveal(execute_implied);
    } else if is_branch(handler) {
        reveal(execute_branch);
    } else {
        reveal(execute_control);
    }
}

/// What every read and every taken write keeps, a fetch keeps.
pub proof fn lemma_fetch_keeps<M: MemoryMapper>(
    c: CpuState,
    m: M::Model,
    inv: spec_fn(M::Model) -> bool,
)
    requires
        kept_by_memory::<M>(inv),
        inv(m),
    ensures
        inv(fetch::<M>(c, m).1),
{
    reveal(fetch);
}

/// What every read and every taken write keeps, a tick of the processor
/// keeps.
pub proof fn lemma_tick_keeps<M: MemoryMapper>(
    c: CpuState,
    m: M::Model,
    inv: spec_fn(M::Model) -> bool,
)
    requires
        kept_by_memory::<M>(inv),
        inv(m),
    ensures
        tick::<M>(c, m).fault.is_none() ==> inv(tick::<M>(c, m).mem),
{
    reveal(tick);
    if c.overflow_ticks <= 1 {
        let counted = CpuState { overflow_ticks: (c.overflow_ticks - 1) as i32, ..c };
        let done = execute::<M>(
            counted.operation.handler,
            counted.operation.address_method,
            counted,
            m,
        );
        lemma_execute_keeps::<M>(
            counted.operation.handler,
            counted.operation.address_method,
            counted,
            m,
            inv,
        );
        if done.fault.is_none() {
            lemma_fetch_keeps::<M>(done.cpu, done.mem, inv);
        }
    }
}

/// The pointer of an indirect jump is read without carry into its high
/// byte: where the pointer's low byte is 0xFF, the high byte of the target
/// comes from the start of the pointer's own page, not from the next page.
pub proof fn lemma_indirect_wraps_in_page<M: MemoryMapper>(c: CpuState, m: M::Model)
    ensures
        ({
            let pc = c.program_counter;
            let pointer = read_word::<M>(m, pc, pc.wrapping_add(1));
            let low = read_byte::<M>(pointer.1, pointer.0);
            let high_at = if pointer.0 % 256 == 255 {
                (pointer.0 - 255) as u16
            } else {
                (pointer.0 + 1) as u16
            };
            let high = read_byte::<M>(low.1, high_at);
            &&& resolve::<M>(AddressMode::Indirect, c, m).address == word(low.0, high.0)
            &&& execute::<M>(Handler::Jmp, AddressMode::Indirect, c, m).cpu.program_counter
                == word(low.0, high.0)
            &&& pointer.0 == 0x10FF ==> high_at == 0x1000
        }),
{
    reveal(resolve);
    reveal(execute_control);
}

/// PHA then PLA restores the accumulator, whatever it held in between,
/// puts the stack pointer back and sets N and Z from the accumulator. This
/// holds where the push is possible (the stack pointer is not zero) and the
/// stack slot keeps what is written to it.
pub proof fn lemma_pha_pla<M: MemoryMapper>(c: CpuState, m: M::Model, between: u8)
    requires
        c.stack_pointer != 0,
        M::takes_write(m, c.stack_slot()),
        M::peek(M::after_write(m, c.stack_slot(), c.accumulator), c.stack_slot()) == c.accumulator,
    ensures
        ({
            let pushed = execute::<M>(Handler::Pha, AddressMode::Null, c, m);
            let pulled = execute::<M>(
                Handler::Pla,
                AddressMode::Null,
                CpuState { accumulator: between, ..pushed.cpu },
                pushed.mem,
            );
            &&& pushed.fault.is_none()
            &&& pulled.fault.is_none()
            &&& pulled.cpu.accumulator == c.accumulator
            &&& pulled.cpu.stack_pointer == c.stack_pointer
            &&& pulled.cpu.flag(ZERO_FLAG) == (c.accumulator == 0)
            &&& pulled.cpu.flag(NEGATIVE_FLAG) == ((c.accumulator & 0x80) != 0)
        }),
{
    reveal(execute_control);
    reveal(resolve);
    lemma_with_nz(c.status_register, c.accumulator, CARRY_FLAG);
}

/// PHP then PLP restores the status register, whatever it held in
/// between, and so every flag but B, which is no flag of the processor.
/// This holds where the push is possible and the stack slot keeps what is
/// written to it.
pub proof fn lemma_php_plp<M: MemoryMapper>(c: CpuState, m: M::Model, between: u8)
    requires
        c.stack_pointer != 0,
        M::takes_write(m, c.stack_slot()),
        M::peek(M::after_write(m, c.stack_slot(), c.status_register), c.stack_slot())
            == c.status_register,
    ensures
        ({
            let pushed = execute::<M>(Handler::Php, AddressMode::Null, c, m);
            let pulled = execute::<M>(
                Handler::Plp,
                AddressMode::Null,
                CpuState { status_register: between, ..pushed.cpu },
                pushed.mem,
            );
            &&& pushed.fault.is_none()
            &&& pulled.fault.is_none()
            &&& pulled.cpu.status_register == c.status_register
            &&& with_flag(pulled.cpu.status_register, BREAK_COMMAND, false) == with_flag(
                c.status_register,
                BREAK_COMMAND,
                false,
            )
            &&& pulled.cpu.stack_pointer == c.stack_pointer
        }),
{
    reveal(execute_control);
    reveal(resolve);
}

/// JSR reads its operand, pushes the location of its own last byte, high
/// byte first, and goes to the operand. This holds where both pushes are
/// possible and taken.
pub proof fn lemma_jsr_pushes_return_address<M: MemoryMapper>(c: CpuState, m: M::Model)
    requires
        c.stack_pointer >= 2,
        ({
            let read = M::after_read(
                M::after_read(m, c.program_counter),
                c.program_counter.wrapping_add(1),
            );
            let w = ((c.program_counter + 1) % 65536) as u16;
            &&& M::takes_write(read, c.stack_slot())
            &&& M::takes_write(
                M::after_write(read, c.stack_slot(), high_byte(w)),
                (c.stack_slot() - 1) as u16,
            )
        }),
    ensures
        ({
            let read = M::after_read(
                M::after_read(m, c.program_counter),
                c.program_counter.wrapping_add(1),
            );
            let w = ((c.program_counter + 1) % 65536) as u16;
            let called = execute::<M>(Handler::Jsr, AddressMode::Absolute, c, m);
            &&& called.fault.is_none()
            &&& called.cpu.stack_pointer == c.stack_pointer - 2
            &&& called.mem == M::after_write(
                M::after_write(read, c.stack_slot(), high_byte(w)),
                (c.stack_slot() - 1) as u16,
                low_byte(w),
            )
        }),
{
    reveal(execute_control);
    reveal(resolve);
}

/// Whether the two stack slots that a call at `c` uses keep the return
/// address `w` once the call has written it: the low byte is read back
/// from the lower slot, and after that read the high byte from the upper
/// one.
pub open spec fn stack_keeps_word<M: MemoryMapper>(c: CpuState, m: M::Model, w: u16) -> bool {
    let lower = (c.stack_slot() - 1) as u16;
    M::peek(m, lower) == low_byte(w) && M::peek(M::after_read(m, lower), c.stack_slot())
        == high_byte(w)
}

/// JSR then RTS goes on at the instruction after the JSR: with the program
/// counter at the operand of the JSR, two locations further. This holds
/// where the call succeeds and the stack keeps the return address.
pub proof fn lemma_jsr_rts<M: MemoryMapper>(c: CpuState, m: M::Model)
    requires
        execute::<M>(Handler::Jsr, AddressMode::Absolute, c, m).fault.is_none(),
        stack_keeps_word::<M>(
            c,
            execute::<M>(Handler::Jsr, AddressMode::Absolute, c, m).mem,
            ((c.program_counter + 1) % 65536) as u16,
        ),
    ensures
        ({
            let called = execute::<M>(Handler::Jsr, AddressMode::Absolute, c, m);
            let returned = execute::<M>(Handler::Rts, AddressMode::Null, called.cpu, called.mem);
            &&& called.cpu.program_counter == resolve::<M>(AddressMode::Absolute, c, m).address
            &&& returned.fault.is_none()
            &&& returned.cpu.program_counter == (c.program_counter + 2) % 65536
            &&& returned.cpu.stack_pointer == c.stack_pointer
        }),
{
    reveal(execute_control);
    reveal(resolve);
}

} // verus!
