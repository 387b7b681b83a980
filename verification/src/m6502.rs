use vstd::prelude::*;
use crate::base_cpu::BaseCpu;
use crate::fault::Fault;
use crate::m6502_model::{
    BREAK_COMMAND,
    CARRY_FLAG,
    CpuState,
    DECIMAL_MODE,
    IGNORED,
    INTERRUPT_FLAG,
    MAX_TICKS,
    NEGATIVE_FLAG,
    OVERFLOW_FLAG,
    Operand,
    STACK_PAGE,
    Sum,
    ZERO_FLAG,
    add_binary,
    add_decimal,
    branch_penalty,
    branch_target,
    execute,
    execute_branch,
    execute_control,
    execute_implied,
    execute_modify,
    execute_read,
    execute_store,
    fetch,
    index_penalty,
    is_branch,
    is_flag_change,
    is_implied,
    is_modify,
    is_read,
    is_store,
    power_on,
    pull,
    pull_word,
    push,
    push_word,
    read_word,
    realizes,
    reset,
    resolve,
    rotated_left,
    rotated_right,
    store,
    subtract_decimal,
    tick,
    word,
};
use crate::m6502_operation::{
    AddressMode,
    Handler,
    Operation,
    get_op_codes,
    lemma_base_ticks_bounds,
    operation_of,
};
use crate::memory_mapper::MemoryMapper;

verus! {

/// Binary addition of two bytes and a carry: the sum modulo 256, the carry
/// out of bit 7, and the overflow of the signed addition.
pub fn adc_binary(a: u8, m: u8, carry: bool) -> (sum: Sum)
    ensures
        sum == add_binary(a, m, carry),
        sum.value == (a + m + if carry {
            1int
        } else {
            0int
        }) % 256,
        sum.carry == (a + m + if carry {
            1int
        } else {
            0int
        } > 255),
        sum.overflow == (((a ^ sum.value) & (m ^ sum.value) & 0x80) != 0),
{
    let total: u16 = a as u16 + m as u16 + if carry {
        1
    } else {
        0
    };
    let value: u8 = (total % 256) as u8;
    Sum { value, carry: total > 255, overflow: ((a ^ value) & (m ^ value) & 0x80) != 0 }
}

/// Decimal addition of two bytes and a carry.
pub fn adc_decimal(a: u8, m: u8, carry: bool) -> (sum: Sum)
    ensures
        sum == add_decimal(a, m, carry),
{
    let mut low: u8 = a % 16 + m % 16 + if carry {
        1
    } else {
        0
    };
    if low > 9 {
        low += 6;
    }
    let mut high: u8 = a / 16 + m / 16 + if low > 15 {
        1
    } else {
        0
    };
    if high > 9 {
        high += 6;
    }
    assert(low <= 37 && high <= 37);
    let value: u8 = (high % 16) * 16 + low % 16;
    Sum { value, carry: high > 15, overflow: ((a ^ value) & (m ^ value) & 0x80) != 0 }
}

/// Decimal subtraction of a byte and a borrow from a byte.
pub fn sbc_decimal(a: u8, m: u8, carry: bool) -> (sum: Sum)
    ensures
        sum == subtract_decimal(a, m, carry),
{
    let low: i16 = (a % 16) as i16 - (m % 16) as i16 - if carry {
        0
    } else {
        1
    };
    let low_adjusted: i16 = if low < 0 {
        low + 10
    } else {
        low
    };
    let high: i16 = (a / 16) as i16 - (m / 16) as i16 - if low < 0 {
        1
    } else {
        0
    };
    let high_adjusted: i16 = if high < 0 {
        high + 10
    } else {
        high
    };
    assert(-6 <= low_adjusted <= 15 && -6 <= high_adjusted <= 15);
    let combined: i16 = high_adjusted * 16 + low_adjusted;
    assert(-102 <= combined <= 255);
    assert(combined < 0 ==> (combined as int) % 256 == combined + 256);
    assert(combined >= 0 ==> (combined as int) % 256 == combined as int);
    let value: u8 = if combined < 0 {
        (combined + 256) as u8
    } else {
        combined as u8
    };
    Sum { value, carry: high >= 0, overflow: ((a ^ value) & (m ^ value) & 0x80) != 0 }
}

/// The 6502 processor. It holds its registers and the table that decodes
/// opcodes; the memory belongs to the caller.
pub struct M6502 {
    registers: CpuState,
    op_code_lookup: [Operation; 256],
}

impl View for M6502 {
    type V = CpuState;

    closed spec fn view(&self) -> CpuState {
        self.registers
    }
}

impl BaseCpu for M6502 {
    open spec fn ready(&self) -> bool {
        self.wf()
    }

    fn execute_tick<M: MemoryMapper>(&mut self, memory: &mut M) -> (r: Result<(), Fault>)
        ensures
            realizes(
                r,
                final(self)@,
                final(memory).model(),
                tick::<M>(old(self)@, old(memory).model()),
            ),
    {
        reveal(tick);
        if self.registers.overflow_ticks > 1 {
            self.registers.overflow_ticks -= 1;
            return Ok(());
        }
        self.registers.overflow_ticks -= 1;
        let ghost counted = self.registers;
        let ghost before = memory.model();
        let operation = self.registers.operation;
        match Self::call_op_method(
            &mut self.registers,
            memory,
            operation.handler,
            operation.address_method,
        ) {
            Err(fault) => {
                return Err(fault);
            },
            Ok(()) => {},
        }
        proof {
            crate::m6502_laws::lemma_execute_keeps_ticks::<M>(
                operation.handler,
                operation.address_method,
                counted,
                before,
            );
        }
        self.get_next_operation(memory);
        Ok(())
    }

    fn reset<M: MemoryMapper>(&mut self, memory: &mut M)
        ensures
            (final(self)@, final(memory).model()) == reset::<M>(old(self)@, old(memory).model()),
    {
        self.registers.operation = self.op_code_lookup[0xea];
        self.registers.stack_pointer = 0xff;
        let pcl: u8 = memory.cpu_read(0xfffc);
        let pch: u8 = memory.cpu_read(0xfffd);
        self.registers.program_counter = (pch as u16) * 256 + pcl as u16;
        self.registers.accumulator = 0;
        self.registers.register_x = 0;
        self.registers.register_y = 0;
        self.registers.status_register = 0;
        Self::set_status_flag(&mut self.registers, IGNORED, true);
        assert(0u8 | 32u8 == 32u8) by (bit_vector);
    }
}

impl M6502 {
    /// Whether the processor is in a state that its own operations lead to:
    /// its registers are, and its table decodes.
    pub open spec fn wf(&self) -> bool {
        &&& self@.wf()
        &&& self.table_decodes()
    }

    /// Whether the table holds the decoding of every opcode.
    pub closed spec fn table_decodes(&self) -> bool {
        forall|opcode: u8| #[trigger] self.op_code_lookup@[opcode as int] == operation_of(opcode)
    }

    /// A processor that has not been reset yet.
    pub fn new() -> (cpu: M6502)
        ensures
            cpu.wf(),
            cpu@ == power_on(),
    {
        let op_code_lookup: [Operation; 256] = get_op_codes();
        let operation: Operation = op_code_lookup[0xea];
        M6502 {
            registers: CpuState {
                overflow_ticks: 0,
                program_counter: 0,
                stack_pointer: 0xfd,
                accumulator: 0,
                register_x: 0,
                register_y: 0,
                status_register: 0x40,
                operation,
                instruction: 0,
            },
            op_code_lookup,
        }
    }

    /// Carries out an operation that reads its operand.
    fn call_read_method<M: MemoryMapper>(
        c: &mut CpuState,
        memory: &mut M,
        op: Handler,
        address_method: AddressMode,
    ) -> (r: Result<(), Fault>)
        requires
            old(memory).wf(),
            is_read(op),
        ensures
            final(memory).wf(),
            realizes(
                r,
                *final(c),
                final(memory).model(),
                execute::<M>(op, address_method, *old(c), old(memory).model()),
            ),
    {
        match op {
            Handler::Lda => Self::op_lda(c, memory, address_method),
            Handler::Ldx => Self::op_ldx(c, memory, address_method),
            Handler::Ldy => Self::op_ldy(c, memory, address_method),
            Handler::And => Self::op_and(c, memory, address_method),
            Handler::Eor => Self::op_eor(c, memory, address_method),
            Handler::Ora => Self::op_ora(c, memory, address_method),
            Handler::Bit => Self::op_bit(c, memory, address_method),
            Handler::Adc => Self::op_adc(c, memory, address_method),
            Handler::Sbc => Self::op_sbc(c, memory, address_method),
            Handler::Cmp => Self::op_cmp(c, memory, address_method),
            Handler::Cpx => Self::op_cpx(c, memory, address_method),
            Handler::Cpy => Self::op_cpy(c, memory, address_method),
            _ => Ok(()),
        }
    }

    /// Carries out an operation that stores a register.
    fn call_store_method<M: MemoryMapper>(
        c: &mut CpuState,
        memory: &mut M,
        op: Handler,
        address_method: AddressMode,
    ) -> (r: Result<(), Fault>)
        requires
            old(memory).wf(),
            is_store(op),
        ensures
            final(memory).wf(),
            realizes(
                r,
                *final(c),
                final(memory).model(),
                execute::<M>(op, address_method, *old(c), old(memory).model()),
            ),
    {
        match op {
            Handler::Sta => Self::op_sta(c, memory, address_method),
            Handler::Stx => Self::op_stx(c, memory, address_method),
            Handler::Sty => Self::op_sty(c, memory, address_method),
            Handler::Sax => Self::op_sax(c, memory, address_method),
            _ => Ok(()),
        }
    }

    /// Carries out an operation that changes a byte in place.
    fn call_modify_method<M: MemoryMapper>(
        c: &mut CpuState,
        memory: &mut M,
        op: Handler,
        address_method: AddressMode,
    ) -> (r: Result<(), Fault>)
        requires
            old(memory).wf(),
            is_modify(op),
        ensures
            final(memory).wf(),
            realizes(
                r,
                *final(c),
                final(memory).model(),
                execute::<M>(op, address_method, *old(c), old(memory).model()),
            ),
    {
        match op {
            Handler::Inc => Self::op_inc(c, memory, address_method),
            Handler::Dec => Self::op_dec(c, memory, address_method),
            Handler::Asl => Self::op_asl(c, memory, address_method),
            Handler::Lsr => Self::op_lsr(c, memory, address_method),
            Handler::Rol => Self::op_rol(c, memory, address_method),
            Handler::Ror => Self::op_ror(c, memory, address_method),
            Handler::Slo => Self::op_slo(c, memory, address_method),
            Handler::Isc => Self::op_isc(c, memory, address_method),
            _ => Ok(()),
        }
    }

    /// Carries out an operation that sets or clears one flag.
    fn call_flag_method<M: MemoryMapper>(
        c: &mut CpuState,
        memory: &mut M,
        op: Handler,
        address_method: AddressMode,
    ) -> (r: Result<(), Fault>)
        requires
            old(memory).wf(),
            is_flag_change(op),
        ensures
            final(memory).wf(),
            realizes(
                r,
                *final(c),
                final(memory).model(),
                execute::<M>(op, address_method, *old(c), old(memory).model()),
            ),
    {
        match op {
            Handler::Clc => Self::op_clc(c, memory, address_method),
            Handler::Cld => Self::op_cld(c, memory, address_method),
            Handler::Cli => Self::op_cli(c, memory, address_method),
            Handler::Clv => Self::op_clv(c, memory, address_method),
            Handler::Sec => Self::op_sec(c, memory, address_method),
            Handler::Sed => Self::op_sed(c, memory, address_method),
            Handler::Sei => Self::op_sei(c, memory, address_method),
            _ => Ok(()),
        }
    }

    /// Carries out an operation that works on the registers alone.
    fn call_implied_method<M: MemoryMapper>(
        c: &mut CpuState,
        memory: &mut M,
        op: Handler,
        address_method: AddressMode,
    ) -> (r: Result<(), Fault>)
        requires
            old(memory).wf(),
            is_implied(op),
        ensures
            final(memory).wf(),
            realizes(
                r,
                *final(c),
                final(memory).model(),
                execute::<M>(op, address_method, *old(c), old(memory).model()),
            ),
    {
        match op {
            Handler::Tax => Self::op_tax(c, memory, address_method),
            Handler::Tay => Self::op_tay(c, memory, address_method),
            Handler::Txa => Self::op_txa(c, memory, address_method),
            Handler::Tya => Self::op_tya(c, memory, address_method),
            Handler::Tsx => Self::op_tsx(c, memory, address_method),
            Handler::Txs => Self::op_txs(c, memory, address_method),
            Handler::Inx => Self::op_inx(c, memory, address_method),
            Handler::Iny => Self::op_iny(c, memory, address_method),
            Handler::Dex => Self::op_dex(c, memory, address_method),
            Handler::Dey => Self::op_dey(c, memory, address_method),
            _ => Self::call_flag_method(c, memory, op, address_method),
        }
    }

    /// Carries out an operation that is a conditional branch.
    fn call_branch_method<M: MemoryMapper>(
        c: &mut CpuState,
        memory: &mut M,
        op: Handler,
        address_method: AddressMode,
    ) -> (r: Result<(), Fault>)
        requires
            old(memory).wf(),
            is_branch(op),
        ensures
            final(memory).wf(),
            realizes(
                r,
                *final(c),
                final(memory).model(),
                execute::<M>(op, address_method, *old(c), old(memory).model()),
            ),
    {
        match op {
            Handler::Bcc => Self::op_bcc(c, memory, address_method),
            Handler::Bcs => Self::op_bcs(c, memory, address_method),
            Handler::Beq => Self::op_beq(c, memory, address_method),
            Handler::Bne => Self::op_bne(c, memory, address_method),
            Handler::Bmi => Self::op_bmi(c, memory, address_method),
            Handler::Bpl => Self::op_bpl(c, memory, address_method),
            Handler::Bvc => Self::op_bvc(c, memory, address_method),
            Handler::Bvs => Self::op_bvs(c, memory, address_method),
            _ => Ok(()),
        }
    }

    /// Carries out an operation.
    fn call_op_method<M: MemoryMapper>(
        c: &mut CpuState,
        memory: &mut M,
        op: Handler,
        address_method: AddressMode,
    ) -> (r: Result<(), Fault>)
        requires
            old(memory).wf(),
        ensures
            final(memory).wf(),
            realizes(
                r,
                *final(c),
                final(memory).model(),
                execute::<M>(op, address_method, *old(c), old(memory).model()),
            ),
    {
        match op {
            Handler::Lda
            | Handler::Ldx
            | Handler::Ldy
            | Handler::And
            | Handler::Eor
            | Handler::Ora
            | Handler::Bit
            | Handler::Adc
            | Handler::Sbc
            | Handler::Cmp
            | Handler::Cpx
            | Handler::Cpy => {
                Self::call_read_method(c, memory, op, address_method)
            },
            Handler::Sta
            | Handler::Stx
            | Handler::Sty
            | Handler::Sax => {
                Self::call_store_method(c, memory, op, address_method)
            },
            Handler::Inc
            | Handler::Dec
            | Handler::Asl
            | Handler::Lsr
            | Handler::Rol
            | Handler::Ror
            | Handler::Slo
            | Handler::Isc => {
                Self::call_modify_method(c, memory, op, address_method)
            },
            Handler::Tax
            | Handler::Tay
            | Handler::Txa
            | Handler::Tya
            | Handler::Tsx
            | Handler::Txs
            | Handler::Inx
            | Handler::Iny
            | Handler::Dex
            | Handler::Dey
            | Handler::Clc
            | Handler::Cld
            | Handler::Cli
            | Handler::Clv
            | Handler::Sec
            | Handler::Sed
            | Handler::Sei => {
                Self::call_implied_method(c, memory, op, address_method)
            },
            Handler::Bcc
            | Handler::Bcs
            | Handler::Beq
            | Handler::Bne
            | Handler::Bmi
            | Handler::Bpl
            | Handler::Bvc
            | Handler::Bvs => {
                Self::call_branch_method(c, memory, op, address_method)
            },
            Handler::Brk => Self::op_brk(c, memory, address_method),
            Handler::Jmp => Self::op_jmp(c, memory, address_method),
            Handler::Jsr => Self::op_jsr(c, memory, address_method),
            Handler::Nop => Self::op_nop(c, memory, address_method),
            Handler::Pha => Self::op_pha(c, memory, address_method),
            Handler::Php => Self::op_php(c, memory, address_method),
            Handler::Pla => Self::op_pla(c, memory, address_method),
            Handler::Plp => Self::op_plp(c, memory, address_method),
            Handler::Rti => Self::op_rti(c, memory, address_method),
            Handler::Rts => Self::op_rts(c, memory, address_method),
            Handler::Panic => Self::op_panic(c, memory, address_method),
        }
    }

    /// Carries out the operation that `opcode` selects on the operand at
    /// the program counter, and adds its ticks to the ticks left. Penalties
    /// are not counted.
    pub fn execute_opcode<M: MemoryMapper>(&mut self, memory: &mut M, opcode: u8) -> (r: Result<
        (),
        Fault,
    >)
        requires
            old(self).wf(),
            old(memory).wf(),
            old(self)@.overflow_ticks <= MAX_TICKS - 8,
        ensures
            final(memory).wf(),
            r.is_ok() ==> final(self).wf(),
            realizes(
                r,
                final(self)@,
                final(memory).model(),
                execute::<M>(
                    operation_of(opcode).handler,
                    operation_of(opcode).address_method,
                    CpuState {
                        instruction: opcode,
                        overflow_ticks: (old(self)@.overflow_ticks + operation_of(opcode).ticks) as i32,
                        ..old(self)@
                    },
                    old(memory).model(),
                ),
            ),
    {
        let operation = self.op_code_lookup[opcode as usize];
        proof {
            lemma_base_ticks_bounds(opcode);
        }
        self.registers.instruction = opcode;
        self.registers.overflow_ticks += operation.ticks as i32;
        let ghost start = self.registers;
        let ghost before = memory.model();
        let r = Self::call_op_method(
            &mut self.registers,
            memory,
            operation.handler,
            operation.address_method,
        );
        proof {
            crate::m6502_laws::lemma_execute_keeps_ticks::<M>(
                operation.handler,
                operation.address_method,
                start,
                before,
            );
        }
        r
    }

    /// Fetches the next operation: reads and decodes the opcode at the
    /// program counter and adds its ticks, with penalties, to the ticks
    /// left.
    pub fn get_next_operation<M: MemoryMapper>(&mut self, memory: &mut M)
        requires
            old(self).table_decodes(),
            old(memory).wf(),
            -1 <= old(self)@.overflow_ticks <= MAX_TICKS - 10,
        ensures
            final(self).wf(),
            final(memory).wf(),
            (final(self)@, final(memory).model()) == fetch::<M>(old(self)@, old(memory).model()),
    {
        reveal(fetch);
        self.registers.instruction = memory.cpu_read(self.registers.program_counter);
        self.registers.operation = self.op_code_lookup[self.registers.instruction as usize];
        self.registers.program_counter = self.registers.program_counter.wrapping_add(1);
        proof {
            lemma_base_ticks_bounds(self.registers.instruction);
        }
        self.registers.overflow_ticks += self.registers.operation.ticks as i32;
        Self::set_overflow_for_operation(&mut self.registers, memory);
        let address_method = self.registers.operation.address_method;
        Self::set_overflow_for_address_access(&mut self.registers, memory, address_method);
    }

    /// Whether a branch instruction branches in the state `c`.
    fn branch_taken(c: &CpuState, op: Handler) -> (taken: bool)
        ensures
            taken == c.branches(op),
    {
        match op {
            Handler::Bcc => Self::get_status_flag(c, CARRY_FLAG) == 0,
            Handler::Bcs => Self::get_status_flag(c, CARRY_FLAG) != 0,
            Handler::Beq => Self::get_status_flag(c, ZERO_FLAG) != 0,
            Handler::Bne => Self::get_status_flag(c, ZERO_FLAG) == 0,
            Handler::Bmi => Self::get_status_flag(c, NEGATIVE_FLAG) != 0,
            Handler::Bpl => Self::get_status_flag(c, NEGATIVE_FLAG) == 0,
            Handler::Bvs => Self::get_status_flag(c, OVERFLOW_FLAG) != 0,
            Handler::Bvc => Self::get_status_flag(c, OVERFLOW_FLAG) == 0,
            _ => false,
        }
    }

    /// The location `byte` away from `from`, as a branch counts it.
    fn branch_to(from: u16, byte: u8) -> (target: u16)
        ensures
            target == branch_target(from, byte),
    {
        let offset: i32 = if byte >= 128 {
            byte as i32 - 256
        } else {
            byte as i32
        };
        let sum: i32 = from as i32 + offset;
        if sum < 0 {
            (sum + 65536) as u16
        } else if sum > 65535 {
            (sum - 65536) as u16
        } else {
            sum as u16
        }
    }

    /// Adds the extra ticks of a branch that will be taken.
    fn set_overflow_for_operation<M: MemoryMapper>(c: &mut CpuState, memory: &mut M)
        requires
            old(memory).wf(),
            -1 <= old(c).overflow_ticks <= MAX_TICKS,
        ensures
            final(memory).wf(),
            *final(c) == (CpuState {
                overflow_ticks: (old(c).overflow_ticks + branch_penalty::<M>(
                    old(c).operation.handler,
                    *old(c),
                    old(memory).model(),
                ).0) as i32,
                ..*old(c)
            }),
            final(memory).model() == branch_penalty::<M>(
                old(c).operation.handler,
                *old(c),
                old(memory).model(),
            ).1,
            0 <= branch_penalty::<M>(old(c).operation.handler, *old(c), old(memory).model()).0 <= 2,
    {
        if Self::branch_taken(c, c.operation.handler) {
            c.overflow_ticks += 1;
            let relative_address: u8 = memory.cpu_read(c.program_counter);
            let next: u16 = c.program_counter.wrapping_add(1);
            if Self::branch_to(next, relative_address) / 256 != next / 256 {
                c.overflow_ticks += 1;
            }
        }
    }

    /// Adds the extra tick of an indexed access that crosses a page.
    fn set_overflow_for_address_access<M: MemoryMapper>(
        c: &mut CpuState,
        memory: &mut M,
        address_method: AddressMode,
    )
        requires
            old(memory).wf(),
            -1 <= old(c).overflow_ticks <= MAX_TICKS,
        ensures
            final(memory).wf(),
            *final(c) == (CpuState {
                overflow_ticks: (old(c).overflow_ticks + index_penalty::<M>(
                    address_method,
                    *old(c),
                    old(memory).model(),
                ).0) as i32,
                ..*old(c)
            }),
            final(memory).model() == index_penalty::<M>(
                address_method,
                *old(c),
                old(memory).model(),
            ).1,
            0 <= index_penalty::<M>(address_method, *old(c), old(memory).model()).0 <= 1,
    {
        let mut carry: u16 = 0;
        match address_method {
            AddressMode::AbsoluteX => {
                let loadl: u8 = memory.cpu_read(c.program_counter);
                carry = loadl as u16 + c.register_x as u16;
            },
            AddressMode::AbsoluteY => {
                let loadl: u8 = memory.cpu_read(c.program_counter);
                carry = loadl as u16 + c.register_y as u16;
            },
            AddressMode::IndirectY => {
                let indirect: u8 = memory.cpu_read(c.program_counter);
                let loadl: u8 = memory.cpu_read(indirect as u16);
                carry = loadl as u16 + c.register_y as u16;
            },
            _ => {},
        }
        if carry > 0x00FF {
            c.overflow_ticks += 1;
        }
    }

    fn push_stack<M: MemoryMapper>(c: &mut CpuState, memory: &mut M, byte: u8) -> (r: Result<
        (),
        Fault,
    >)
        requires
            old(memory).wf(),
        ensures
            final(memory).wf(),
            realizes(
                r,
                *final(c),
                final(memory).model(),
                push::<M>(*old(c), old(memory).model(), byte),
            ),
    {
        if c.stack_pointer == 0 {
            return Err(Fault::StackOverflow);
        }
        match memory.cpu_write(c.stack_pointer as u16 + STACK_PAGE, byte) {
            Err(fault) => Err(fault),
            Ok(()) => {
                c.stack_pointer -= 1;
                Ok(())
            },
        }
    }

    fn pop_stack<M: MemoryMapper>(c: &mut CpuState, memory: &mut M) -> (r: Result<u8, Fault>)
        requires
            old(memory).wf(),
        ensures
            final(memory).wf(),
            match pull::<M>(*old(c), old(memory).model()).1.fault {
                Some(fault) => r == Err::<u8, Fault>(fault),
                None => r == Ok::<u8, Fault>(pull::<M>(*old(c), old(memory).model()).0)
                    && *final(c) == pull::<M>(*old(c), old(memory).model()).1.cpu && final(memory).model() == pull::<M>(*old(c), old(memory).model()).1.mem,
            },
    {
        if c.stack_pointer == 0xff {
            return Err(Fault::StackUnderflow);
        }
        c.stack_pointer += 1;
        Ok(memory.cpu_read(c.stack_pointer as u16 + STACK_PAGE))
    }

    /// Pushes a word, high byte first.
    fn push_address<M: MemoryMapper>(c: &mut CpuState, memory: &mut M, w: u16) -> (r: Result<
        (),
        Fault,
    >)
        requires
            old(memory).wf(),
        ensures
            final(memory).wf(),
            realizes(
                r,
                *final(c),
                final(memory).model(),
                push_word::<M>(*old(c), old(memory).model(), w),
            ),
    {
        match Self::push_stack(c, memory, (w / 256) as u8) {
            Err(fault) => Err(fault),
            Ok(()) => Self::push_stack(c, memory, (w % 256) as u8),
        }
    }

    /// Pulls a word, low byte first.
    fn pop_address<M: MemoryMapper>(c: &mut CpuState, memory: &mut M) -> (r: Result<u16, Fault>)
        requires
            old(memory).wf(),
        ensures
            final(memory).wf(),
            match pull_word::<M>(*old(c), old(memory).model()).1.fault {
                Some(fault) => r == Err::<u16, Fault>(fault),
                None => r == Ok::<u16, Fault>(pull_word::<M>(*old(c), old(memory).model()).0)
                    && *final(c) == pull_word::<M>(*old(c), old(memory).model()).1.cpu && final(memory).model() == pull_word::<M>(*old(c), old(memory).model()).1.mem,
            },
    {
        match Self::pop_stack(c, memory) {
            Err(fault) => Err(fault),
            Ok(loadl) => match Self::pop_stack(c, memory) {
                Err(fault) => Err(fault),
                Ok(loadh) => Ok((loadh as u16) * 256 + loadl as u16),
            },
        }
    }

    /// Reads a word, low byte first.
    fn load_word<M: MemoryMapper>(memory: &mut M, low_at: u16, high_at: u16) -> (w: u16)
        requires
            old(memory).wf(),
        ensures
            final(memory).wf(),
            (w, final(memory).model()) == read_word::<M>(old(memory).model(), low_at, high_at),
    {
        let loadl: u8 = memory.cpu_read(low_at);
        let loadh: u8 = memory.cpu_read(high_at);
        (loadh as u16) * 256 + loadl as u16
    }

    /// Writes a byte.
    fn store_byte<M: MemoryMapper>(c: &mut CpuState, memory: &mut M, address: u16, byte: u8) -> (r:
        Result<(), Fault>)
        requires
            old(memory).wf(),
        ensures
            final(memory).wf(),
            realizes(
                r,
                *final(c),
                final(memory).model(),
                store::<M>(*old(c), old(memory).model(), address, byte),
            ),
    {
        memory.cpu_write(address, byte)
    }

    fn null_address<M: MemoryMapper>(c: &mut CpuState, memory: &mut M) -> (address: u16)
        requires
            old(memory).wf(),
        ensures
            final(memory).wf(),
            (Operand { address, cpu: *final(c), mem: final(memory).model() }) == resolve::<M>(
                AddressMode::Null,
                *old(c),
                old(memory).model(),
            ),
    {
        reveal(resolve);
        0
    }

    fn accumulator_address<M: MemoryMapper>(c: &mut CpuState, memory: &mut M) -> (address: u16)
        requires
            old(memory).wf(),
        ensures
            final(memory).wf(),
            (Operand { address, cpu: *final(c), mem: final(memory).model() }) == resolve::<M>(
                AddressMode::Accumulator,
                *old(c),
                old(memory).model(),
            ),
    {
        reveal(resolve);
        c.accumulator as u16
    }

    fn immediate_address<M: MemoryMapper>(c: &mut CpuState, memory: &mut M) -> (address: u16)
        requires
            old(memory).wf(),
        ensures
            final(memory).wf(),
            (Operand { address, cpu: *final(c), mem: final(memory).model() }) == resolve::<M>(
                AddressMode::Immediate,
                *old(c),
                old(memory).model(),
            ),
    {
        reveal(resolve);
        let address: u16 = c.program_counter;
        c.program_counter = c.program_counter.wrapping_add(1);
        address
    }

    fn zero_address<M: MemoryMapper>(c: &mut CpuState, memory: &mut M) -> (address: u16)
        requires
            old(memory).wf(),
        ensures
            final(memory).wf(),
            (Operand { address, cpu: *final(c), mem: final(memory).model() }) == resolve::<M>(
                AddressMode::Zero,
                *old(c),
                old(memory).model(),
            ),
    {
        reveal(resolve);
        let address: u16 = memory.cpu_read(c.program_counter) as u16;
        c.program_counter = c.program_counter.wrapping_add(1);
        address
    }

    fn zero_x_address<M: MemoryMapper>(c: &mut CpuState, memory: &mut M) -> (address: u16)
        requires
            old(memory).wf(),
        ensures
            final(memory).wf(),
            (Operand { address, cpu: *final(c), mem: final(memory).model() }) == resolve::<M>(
                AddressMode::ZeroX,
                *old(c),
                old(memory).model(),
            ),
    {
        reveal(resolve);
        let address: u16 = memory.cpu_read(c.program_counter).wrapping_add(c.register_x) as u16;
        c.program_counter = c.program_counter.wrapping_add(1);
        address
    }

    fn zero_y_address<M: MemoryMapper>(c: &mut CpuState, memory: &mut M) -> (address: u16)
        requires
            old(memory).wf(),
        ensures
            final(memory).wf(),
            (Operand { address, cpu: *final(c), mem: final(memory).model() }) == resolve::<M>(
                AddressMode::ZeroY,
                *old(c),
                old(memory).model(),
            ),
    {
        reveal(resolve);
        let address: u16 = memory.cpu_read(c.program_counter).wrapping_add(c.register_y) as u16;
        c.program_counter = c.program_counter.wrapping_add(1);
        address
    }

    fn absolute_address<M: MemoryMapper>(c: &mut CpuState, memory: &mut M) -> (address: u16)
        requires
            old(memory).wf(),
        ensures
            final(memory).wf(),
            (Operand { address, cpu: *final(c), mem: final(memory).model() }) == resolve::<M>(
                AddressMode::Absolute,
                *old(c),
                old(memory).model(),
            ),
    {
        reveal(resolve);
        let address: u16 = Self::load_word(
            memory,
            c.program_counter,
            c.program_counter.wrapping_add(1),
        );
        c.program_counter = c.program_counter.wrapping_add(2);
        address
    }

    fn absolute_x_address<M: MemoryMapper>(c: &mut CpuState, memory: &mut M) -> (address: u16)
        requires
            old(memory).wf(),
        ensures
            final(memory).wf(),
            (Operand { address, cpu: *final(c), mem: final(memory).model() }) == resolve::<M>(
                AddressMode::AbsoluteX,
                *old(c),
                old(memory).model(),
            ),
    {
        reveal(resolve);
        let address: u16 = Self::load_word(
            memory,
            c.program_counter,
            c.program_counter.wrapping_add(1),
        );
        c.program_counter = c.program_counter.wrapping_add(2);
        address.wrapping_add(c.register_x as u16)
    }

    fn absolute_x_address_no_overflow<M: MemoryMapper>(c: &mut CpuState, memory: &mut M) -> (address: u16)
        requires
            old(memory).wf(),
        ensures
            final(memory).wf(),
            (Operand { address, cpu: *final(c), mem: final(memory).model() }) == resolve::<M>(
                AddressMode::AbsoluteXNoOverflow,
                *old(c),
                old(memory).model(),
            ),
    {
        reveal(resolve);
        let address: u16 = Self::absolute_x_address(c, memory);
        address
    }

    fn absolute_y_address<M: MemoryMapper>(c: &mut CpuState, memory: &mut M) -> (address: u16)
        requires
            old(memory).wf(),
        ensures
            final(memory).wf(),
            (Operand { address, cpu: *final(c), mem: final(memory).model() }) == resolve::<M>(
                AddressMode::AbsoluteY,
                *old(c),
                old(memory).model(),
            ),
    {
        reveal(resolve);
        let address: u16 = Self::load_word(
            memory,
            c.program_counter,
            c.program_counter.wrapping_add(1),
        );
        c.program_counter = c.program_counter.wrapping_add(2);
        address.wrapping_add(c.register_y as u16)
    }

    fn absolute_y_address_no_overflow<M: MemoryMapper>(c: &mut CpuState, memory: &mut M) -> (address: u16)
        requires
            old(memory).wf(),
        ensures
            final(memory).wf(),
            (Operand { address, cpu: *final(c), mem: final(memory).model() }) == resolve::<M>(
                AddressMode::AbsoluteYNoOverflow,
                *old(c),
                old(memory).model(),
            ),
    {
        reveal(resolve);
        let address: u16 = Self::absolute_y_address(c, memory);
        address
    }

    fn indirect_address<M: MemoryMapper>(c: &mut CpuState, memory: &mut M) -> (address: u16)
        requires
            old(memory).wf(),
        ensures
            final(memory).wf(),
            (Operand { address, cpu: *final(c), mem: final(memory).model() }) == resolve::<M>(
                AddressMode::Indirect,
                *old(c),
                old(memory).model(),
            ),
    {
        reveal(resolve);
        let load: u16 = Self::load_word(
            memory,
            c.program_counter,
            c.program_counter.wrapping_add(1),
        );
        c.program_counter = c.program_counter.wrapping_add(2);
        let high_at: u16 = if load % 256 == 255 {
            load - 255
        } else {
            load + 1
        };
        Self::load_word(memory, load, high_at)
    }

    fn indirect_x_address<M: MemoryMapper>(c: &mut CpuState, memory: &mut M) -> (address: u16)
        requires
            old(memory).wf(),
        ensures
            final(memory).wf(),
            (Operand { address, cpu: *final(c), mem: final(memory).model() }) == resolve::<M>(
                AddressMode::IndirectX,
                *old(c),
                old(memory).model(),
            ),
    {
        reveal(resolve);
        let indirect: u8 = memory.cpu_read(c.program_counter).wrapping_add(c.register_x);
        c.program_counter = c.program_counter.wrapping_add(1);
        Self::load_word(memory, indirect as u16, indirect.wrapping_add(1) as u16)
    }

    fn indirect_y_address<M: MemoryMapper>(c: &mut CpuState, memory: &mut M) -> (address: u16)
        requires
            old(memory).wf(),
        ensures
            final(memory).wf(),
            (Operand { address, cpu: *final(c), mem: final(memory).model() }) == resolve::<M>(
                AddressMode::IndirectY,
                *old(c),
                old(memory).model(),
            ),
    {
        reveal(resolve);
        let indirect: u8 = memory.cpu_read(c.program_counter);
        c.program_counter = c.program_counter.wrapping_add(1);
        let address: u16 = Self::load_word(memory, indirect as u16, indirect.wrapping_add(1) as u16);
        address.wrapping_add(c.register_y as u16)
    }

    fn indirect_y_address_no_overflow<M: MemoryMapper>(c: &mut CpuState, memory: &mut M) -> (address: u16)
        requires
            old(memory).wf(),
        ensures
            final(memory).wf(),
            (Operand { address, cpu: *final(c), mem: final(memory).model() }) == resolve::<M>(
                AddressMode::IndirectYNoOverflow,
                *old(c),
                old(memory).model(),
            ),
    {
        reveal(resolve);
        let address: u16 = Self::indirect_y_address(c, memory);
        address
    }

    /// Finds the operand of the given addressing mode.
    fn address<M: MemoryMapper>(c: &mut CpuState, memory: &mut M, address_method: AddressMode) -> (address:
        u16)
        requires
            old(memory).wf(),
        ensures
            final(memory).wf(),
            (Operand { address, cpu: *final(c), mem: final(memory).model() }) == resolve::<M>(
                address_method,
                *old(c),
                old(memory).model(),
            ),
    {
        reveal(resolve);
        match address_method {
            AddressMode::Null => Self::null_address(c, memory),
            AddressMode::Accumulator => Self::accumulator_address(c, memory),
            AddressMode::Immediate => Self::immediate_address(c, memory),
            AddressMode::Zero => Self::zero_address(c, memory),
            AddressMode::ZeroX => Self::zero_x_address(c, memory),
            AddressMode::ZeroY => Self::zero_y_address(c, memory),
            AddressMode::Absolute => Self::absolute_address(c, memory),
            AddressMode::AbsoluteX => Self::absolute_x_address(c, memory),
            AddressMode::AbsoluteXNoOverflow => Self::absolute_x_address_no_overflow(c, memory),
            AddressMode::AbsoluteY => Self::absolute_y_address(c, memory),
            AddressMode::AbsoluteYNoOverflow => Self::absolute_y_address_no_overflow(c, memory),
            AddressMode::Indirect => Self::indirect_address(c, memory),
            AddressMode::IndirectX => Self::indirect_x_address(c, memory),
            AddressMode::IndirectY => Self::indirect_y_address(c, memory),
            AddressMode::IndirectYNoOverflow => Self::indirect_y_address_no_overflow(c, memory),
        }
    }

    pub fn get_overflow_ticks(&self) -> (ticks: i32)
        ensures
            ticks == self@.overflow_ticks,
    {
        self.registers.overflow_ticks
    }

    pub fn get_accumulator(&self) -> (byte: u8)
        ensures
            byte == self@.accumulator,
    {
        self.registers.accumulator
    }

    pub fn get_register_x(&self) -> (byte: u8)
        ensures
            byte == self@.register_x,
    {
        self.registers.register_x
    }

    pub fn get_register_y(&self) -> (byte: u8)
        ensures
            byte == self@.register_y,
    {
        self.registers.register_y
    }

    pub fn get_status_register(&self) -> (byte: u8)
        ensures
            byte == self@.status_register,
    {
        self.registers.status_register
    }

    pub fn get_program_counter(&self) -> (location: u16)
        ensures
            location == self@.program_counter,
    {
        self.registers.program_counter
    }

    pub fn get_stack_pointer(&self) -> (byte: u8)
        ensures
            byte == self@.stack_pointer,
    {
        self.registers.stack_pointer
    }

    fn get_status_flag(c: &CpuState, flag: u8) -> (bits: u8)
        ensures
            bits == c.status_register & flag,
            (bits != 0) == c.flag(flag),
    {
        c.status_register & flag
    }

    fn set_status_flag(c: &mut CpuState, flag: u8, set_clear: bool)
        ensures
            *final(c) == old(c).with_status_flag(flag, set_clear),
    {
        if set_clear {
            c.status_register |= flag;
        } else {
            c.status_register &= !flag;
        }
    }

    fn set_negative(c: &mut CpuState, byte: u8)
        ensures
            *final(c) == old(c).with_status_flag(NEGATIVE_FLAG, (byte & 0x80) != 0),
    {
        Self::set_status_flag(c, NEGATIVE_FLAG, (byte & 0x80) != 0);
    }

    fn set_zero(c: &mut CpuState, byte: u8)
        ensures
            *final(c) == old(c).with_status_flag(ZERO_FLAG, byte == 0),
    {
        Self::set_status_flag(c, ZERO_FLAG, byte == 0);
    }

    fn set_negative_zero(c: &mut CpuState, byte: u8)
        ensures
            *final(c) == old(c).with_negative_zero(byte),
    {
        Self::set_negative(c, byte);
        Self::set_zero(c, byte);
    }

    /// Takes a sum into the accumulator and the flags.
    fn take_sum(c: &mut CpuState, sum: Sum)
        ensures
            *final(c) == old(c).with_sum(sum),
    {
        c.accumulator = sum.value;
        Self::set_status_flag(c, CARRY_FLAG, sum.carry);
        Self::set_status_flag(c, OVERFLOW_FLAG, sum.overflow);
        Self::set_negative_zero(c, sum.value);
    }

    /// Adds a byte and the carry to the accumulator.
    fn add(c: &mut CpuState, byte: u8)
        ensures
            *final(c) == old(c).adc(byte),
    {
        let carry: bool = Self::get_status_flag(c, CARRY_FLAG) != 0;
        let sum = if Self::get_status_flag(c, DECIMAL_MODE) != 0 {
            adc_decimal(c.accumulator, byte, carry)
        } else {
            adc_binary(c.accumulator, byte, carry)
        };
        Self::take_sum(c, sum);
    }

    /// Subtracts a byte and the borrow from the accumulator.
    fn subtract(c: &mut CpuState, byte: u8)
        ensures
            *final(c) == old(c).sbc(byte),
    {
        let carry: bool = Self::get_status_flag(c, CARRY_FLAG) != 0;
        let sum = if Self::get_status_flag(c, DECIMAL_MODE) != 0 {
            sbc_decimal(c.accumulator, byte, carry)
        } else {
            adc_binary(c.accumulator, 255 - byte, carry)
        };
        Self::take_sum(c, sum);
    }

    /// Sets the flags from a comparison.
    fn compare(c: &mut CpuState, register: u8, byte: u8)
        ensures
            *final(c) == old(c).compared(register, byte),
    {
        Self::set_status_flag(c, CARRY_FLAG, register >= byte);
        Self::set_negative_zero(c, register.wrapping_sub(byte));
    }

    /// Moves a byte one place up.
    fn rotate_left(byte: u8, carry: bool) -> (r: (u8, bool))
        ensures
            r == rotated_left(byte, carry),
    {
        (
            (byte << 1) | if carry {
                1u8
            } else {
                0u8
            },
            (byte & 0x80) != 0,
        )
    }

    /// Moves a byte one place down.
    fn rotate_right(byte: u8, carry: bool) -> (r: (u8, bool))
        ensures
            r == rotated_right(byte, carry),
    {
        (
            (byte >> 1) | if carry {
                0x80u8
            } else {
                0u8
            },
            (byte & 0x01) != 0,
        )
    }

    /// LDA: loads the accumulator.
    pub fn op_lda<M: MemoryMapper>(c: &mut CpuState, memory: &mut M, address_method: AddressMode) -> (r:
        Result<(), Fault>)
        requires
            old(memory).wf(),
        ensures
            final(memory).wf(),
            realizes(
                r,
                *final(c),
                final(memory).model(),
                execute::<M>(Handler::Lda, address_method, *old(c), old(memory).model()),
            ),
    {
        reveal(execute_read);
        let address: u16 = Self::address(c, memory, address_method);
        let byte: u8 = memory.cpu_read(address);
        c.accumulator = byte;
        Self::set_negative_zero(c, byte);
        Ok(())
    }

    /// LDX: loads X.
    pub fn op_ldx<M: MemoryMapper>(c: &mut CpuState, memory: &mut M, address_method: AddressMode) -> (r:
        Result<(), Fault>)
        requires
            old(memory).wf(),
        ensures
            final(memory).wf(),
            realizes(
                r,
                *final(c),
                final(memory).model(),
                execute::<M>(Handler::Ldx, address_method, *old(c), old(memory).model()),
            ),
    {
        reveal(execute_read);
        let address: u16 = Self::address(c, memory, address_method);
        let byte: u8 = memory.cpu_read(address);
        c.register_x = byte;
        Self::set_negative_zero(c, byte);
        Ok(())
    }

    /// LDY: loads Y.
    pub fn op_ldy<M: MemoryMapper>(c: &mut CpuState, memory: &mut M, address_method: AddressMode) -> (r:
        Result<(), Fault>)
        requires
            old(memory).wf(),
        ensures
            final(memory).wf(),
            realizes(
                r,
                *final(c),
                final(memory).model(),
                execute::<M>(Handler::Ldy, address_method, *old(c), old(memory).model()),
            ),
    {
        reveal(execute_read);
        let address: u16 = Self::address(c, memory, address_method);
        let byte: u8 = memory.cpu_read(address);
        c.register_y = byte;
        Self::set_negative_zero(c, byte);
        Ok(())
    }

    /// STA: stores the accumulator.
    pub fn op_sta<M: MemoryMapper>(c: &mut CpuState, memory: &mut M, address_method: AddressMode) -> (r:
        Result<(), Fault>)
        requires
            old(memory).wf(),
        ensures
            final(memory).wf(),
            realizes(
                r,
                *final(c),
                final(memory).model(),
                execute::<M>(Handler::Sta, address_method, *old(c), old(memory).model()),
            ),
    {
        reveal(execute_store);
        let address: u16 = Self::address(c, memory, address_method);
        Self::store_byte(c, memory, address, c.accumulator)
    }

    /// STX: stores X.
    pub fn op_stx<M: MemoryMapper>(c: &mut CpuState, memory: &mut M, address_method: AddressMode) -> (r:
        Result<(), Fault>)
        requires
            old(memory).wf(),
        ensures
            final(memory).wf(),
            realizes(
                r,
                *final(c),
                final(memory).model(),
                execute::<M>(Handler::Stx, address_method, *old(c), old(memory).model()),
            ),
    {
        reveal(execute_store);
        let address: u16 = Self::address(c, memory, address_method);
        Self::store_byte(c, memory, address, c.register_x)
    }

    /// STY: stores Y.
    pub fn op_sty<M: MemoryMapper>(c: &mut CpuState, memory: &mut M, address_method: AddressMode) -> (r:
        Result<(), Fault>)
        requires
            old(memory).wf(),
        ensures
            final(memory).wf(),
            realizes(
                r,
                *final(c),
                final(memory).model(),
                execute::<M>(Handler::Sty, address_method, *old(c), old(memory).model()),
            ),
    {
        reveal(execute_store);
        let address: u16 = Self::address(c, memory, address_method);
        Self::store_byte(c, memory, address, c.register_y)
    }

    /// TAX: copies the accumulator to X.
    pub fn op_tax<M: MemoryMapper>(c: &mut CpuState, memory: &mut M, address_method: AddressMode) -> (r:
        Result<(), Fault>)
        requires
            old(memory).wf(),
        ensures
            final(memory).wf(),
            realizes(
                r,
                *final(c),
                final(memory).model(),
                execute::<M>(Handler::Tax, address_method, *old(c), old(memory).model()),
            ),
    {
        reveal(execute_implied);
        let _ = Self::address(c, memory, address_method);
        c.register_x = c.accumulator;
        Self::set_negative_zero(c, c.register_x);
        Ok(())
    }

    /// TAY: copies the accumulator to Y.
    pub fn op_tay<M: MemoryMapper>(c: &mut CpuState, memory: &mut M, address_method: AddressMode) -> (r:
        Result<(), Fault>)
        requires
            old(memory).wf(),
        ensures
            final(memory).wf(),
            realizes(
                r,
                *final(c),
                final(memory).model(),
                execute::<M>(Handler::Tay, address_method, *old(c), old(memory).model()),
            ),
    {
        reveal(execute_implied);
        let _ = Self::address(c, memory, address_method);
        c.register_y = c.accumulator;
        Self::set_negative_zero(c, c.register_y);
        Ok(())
    }

    /// TXA: copies X to the accumulator.
    pub fn op_txa<M: MemoryMapper>(c: &mut CpuState, memory: &mut M, address_method: AddressMode) -> (r:
        Result<(), Fault>)
        requires
            old(memory).wf(),
        ensures
            final(memory).wf(),
            realizes(
                r,
                *final(c),
                final(memory).model(),
                execute::<M>(Handler::Txa, address_method, *old(c), old(memory).model()),
            ),
    {
        reveal(execute_implied);
        let _ = Self::address(c, memory, address_method);
        c.accumulator = c.register_x;
        Self::set_negative_zero(c, c.accumulator);
        Ok(())
    }

    /// TYA: copies Y to the accumulator.
    pub fn op_tya<M: MemoryMapper>(c: &mut CpuState, memory: &mut M, address_method: AddressMode) -> (r:
        Result<(), Fault>)
        requires
            old(memory).wf(),
        ensures
            final(memory).wf(),
            realizes(
                r,
                *final(c),
                final(memory).model(),
                execute::<M>(Handler::Tya, address_method, *old(c), old(memory).model()),
            ),
    {
        reveal(execute_implied);
        let _ = Self::address(c, memory, address_method);
        c.accumulator = c.register_y;
        Self::set_negative_zero(c, c.accumulator);
        Ok(())
    }

    /// TSX: copies the stack pointer to X.
    pub fn op_tsx<M: MemoryMapper>(c: &mut CpuState, memory: &mut M, address_method: AddressMode) -> (r:
        Result<(), Fault>)
        requires
            old(memory).wf(),
        ensures
            final(memory).wf(),
            realizes(
                r,
                *final(c),
                final(memory).model(),
                execute::<M>(Handler::Tsx, address_method, *old(c), old(memory).model()),
            ),
    {
        reveal(execute_implied);
        let _ = Self::address(c, memory, address_method);
        c.register_x = c.stack_pointer;
        Self::set_negative_zero(c, c.register_x);
        Ok(())
    }

    /// TXS: copies X to the stack pointer.
    pub fn op_txs<M: MemoryMapper>(c: &mut CpuState, memory: &mut M, address_method: AddressMode) -> (r:
        Result<(), Fault>)
        requires
            old(memory).wf(),
        ensures
            final(memory).wf(),
            realizes(
                r,
                *final(c),
                final(memory).model(),
                execute::<M>(Handler::Txs, address_method, *old(c), old(memory).model()),
            ),
    {
        reveal(execute_implied);
        let _ = Self::address(c, memory, address_method);
        c.stack_pointer = c.register_x;
        Ok(())
    }

    /// PHA: pushes the accumulator.
    pub fn op_pha<M: MemoryMapper>(c: &mut CpuState, memory: &mut M, address_method: AddressMode) -> (r:
        Result<(), Fault>)
        requires
            old(memory).wf(),
        ensures
            final(memory).wf(),
            realizes(
                r,
                *final(c),
                final(memory).model(),
                execute::<M>(Handler::Pha, address_method, *old(c), old(memory).model()),
            ),
    {
        reveal(execute_control);
        let _ = Self::address(c, memory, address_method);
        Self::push_stack(c, memory, c.accumulator)
    }

    /// PHP: pushes the status.
    pub fn op_php<M: MemoryMapper>(c: &mut CpuState, memory: &mut M, address_method: AddressMode) -> (r:
        Result<(), Fault>)
        requires
            old(memory).wf(),
        ensures
            final(memory).wf(),
            realizes(
                r,
                *final(c),
                final(memory).model(),
                execute::<M>(Handler::Php, address_method, *old(c), old(memory).model()),
            ),
    {
        reveal(execute_control);
        let _ = Self::address(c, memory, address_method);
        Self::push_stack(c, memory, c.status_register)
    }

    /// PLA: pulls the accumulator.
    pub fn op_pla<M: MemoryMapper>(c: &mut CpuState, memory: &mut M, address_method: AddressMode) -> (r:
        Result<(), Fault>)
        requires
            old(memory).wf(),
        ensures
            final(memory).wf(),
            realizes(
                r,
                *final(c),
                final(memory).model(),
                execute::<M>(Handler::Pla, address_method, *old(c), old(memory).model()),
            ),
    {
        reveal(execute_control);
        let _ = Self::address(c, memory, address_method);
        match Self::pop_stack(c, memory) {
            Err(fault) => Err(fault),
            Ok(byte) => {
                c.accumulator = byte;
                Self::set_negative_zero(c, c.accumulator);
                Ok(())
            },
        }
    }

    /// PLP: pulls the status.
    pub fn op_plp<M: MemoryMapper>(c: &mut CpuState, memory: &mut M, address_method: AddressMode) -> (r:
        Result<(), Fault>)
        requires
            old(memory).wf(),
        ensures
            final(memory).wf(),
            realizes(
                r,
                *final(c),
                final(memory).model(),
                execute::<M>(Handler::Plp, address_method, *old(c), old(memory).model()),
            ),
    {
        reveal(execute_control);
        let _ = Self::address(c, memory, address_method);
        match Self::pop_stack(c, memory) {
            Err(fault) => Err(fault),
            Ok(byte) => {
                c.status_register = byte;
                Ok(())
            },
        }
    }

    /// AND: the accumulator and the operand, bit by bit.
    pub fn op_and<M: MemoryMapper>(c: &mut CpuState, memory: &mut M, address_method: AddressMode) -> (r:
        Result<(), Fault>)
        requires
            old(memory).wf(),
        ensures
            final(memory).wf(),
            realizes(
                r,
                *final(c),
                final(memory).model(),
                execute::<M>(Handler::And, address_method, *old(c), old(memory).model()),
            ),
    {
        reveal(execute_read);
        let address: u16 = Self::address(c, memory, address_method);
        let byte: u8 = memory.cpu_read(address);
        c.accumulator &= byte;
        Self::set_negative_zero(c, c.accumulator);
        Ok(())
    }

    /// EOR: the accumulator exclusive-or the operand.
    pub fn op_eor<M: MemoryMapper>(c: &mut CpuState, memory: &mut M, address_method: AddressMode) -> (r:
        Result<(), Fault>)
        requires
            old(memory).wf(),
        ensures
            final(memory).wf(),
            realizes(
                r,
                *final(c),
                final(memory).model(),
                execute::<M>(Handler::Eor, address_method, *old(c), old(memory).model()),
            ),
    {
        reveal(execute_read);
        let address: u16 = Self::address(c, memory, address_method);
        let byte: u8 = memory.cpu_read(address);
        c.accumulator ^= byte;
        Self::set_negative_zero(c, c.accumulator);
        Ok(())
    }

    /// ORA: the accumulator or the operand.
    pub fn op_ora<M: MemoryMapper>(c: &mut CpuState, memory: &mut M, address_method: AddressMode) -> (r:
        Result<(), Fault>)
        requires
            old(memory).wf(),
        ensures
            final(memory).wf(),
            realizes(
                r,
                *final(c),
                final(memory).model(),
                execute::<M>(Handler::Ora, address_method, *old(c), old(memory).model()),
            ),
    {
        reveal(execute_read);
        let address: u16 = Self::address(c, memory, address_method);
        let byte: u8 = memory.cpu_read(address);
        c.accumulator |= byte;
        Self::set_negative_zero(c, c.accumulator);
        Ok(())
    }

    /// BIT: tests the operand against the accumulator.
    pub fn op_bit<M: MemoryMapper>(c: &mut CpuState, memory: &mut M, address_method: AddressMode) -> (r:
        Result<(), Fault>)
        requires
            old(memory).wf(),
        ensures
            final(memory).wf(),
            realizes(
                r,
                *final(c),
                final(memory).model(),
                execute::<M>(Handler::Bit, address_method, *old(c), old(memory).model()),
            ),
    {
        reveal(execute_read);
        let address: u16 = Self::address(c, memory, address_method);
        let byte: u8 = memory.cpu_read(address);
        Self::set_status_flag(c, OVERFLOW_FLAG, (byte & 0x40) != 0);
        Self::set_status_flag(c, NEGATIVE_FLAG, (byte & 0x80) != 0);
        Self::set_status_flag(c, ZERO_FLAG, byte & c.accumulator == 0);
        Ok(())
    }

    /// ADC: adds the operand and the carry to the accumulator.
    pub fn op_adc<M: MemoryMapper>(c: &mut CpuState, memory: &mut M, address_method: AddressMode) -> (r:
        Result<(), Fault>)
        requires
            old(memory).wf(),
        ensures
            final(memory).wf(),
            realizes(
                r,
                *final(c),
                final(memory).model(),
                execute::<M>(Handler::Adc, address_method, *old(c), old(memory).model()),
            ),
    {
        reveal(execute_read);
        let address: u16 = Self::address(c, memory, address_method);
        let byte: u8 = memory.cpu_read(address);
        Self::add(c, byte);
        Ok(())
    }

    /// SBC: subtracts the operand and the borrow from the accumulator.
    pub fn op_sbc<M: MemoryMapper>(c: &mut CpuState, memory: &mut M, address_method: AddressMode) -> (r:
        Result<(), Fault>)
        requires
            old(memory).wf(),
        ensures
            final(memory).wf(),
            realizes(
                r,
                *final(c),
                final(memory).model(),
                execute::<M>(Handler::Sbc, address_method, *old(c), old(memory).model()),
            ),
    {
        reveal(execute_read);
        let address: u16 = Self::address(c, memory, address_method);
        let byte: u8 = memory.cpu_read(address);
        Self::subtract(c, byte);
        Ok(())
    }

    /// CMP: compares the accumulator with the operand.
    pub fn op_cmp<M: MemoryMapper>(c: &mut CpuState, memory: &mut M, address_method: AddressMode) -> (r:
        Result<(), Fault>)
        requires
            old(memory).wf(),
        ensures
            final(memory).wf(),
            realizes(
                r,
                *final(c),
                final(memory).model(),
                execute::<M>(Handler::Cmp, address_method, *old(c), old(memory).model()),
            ),
    {
        reveal(execute_read);
        let address: u16 = Self::address(c, memory, address_method);
        let byte: u8 = memory.cpu_read(address);
        Self::compare(c, c.accumulator, byte);
        Ok(())
    }

    /// CPX: compares X with the operand.
    pub fn op_cpx<M: MemoryMapper>(c: &mut CpuState, memory: &mut M, address_method: AddressMode) -> (r:
        Result<(), Fault>)
        requires
            old(memory).wf(),
        ensures
            final(memory).wf(),
            realizes(
                r,
                *final(c),
                final(memory).model(),
                execute::<M>(Handler::Cpx, address_method, *old(c), old(memory).model()),
            ),
    {
        reveal(execute_read);
        let address: u16 = Self::address(c, memory, address_method);
        let byte: u8 = memory.cpu_read(address);
        Self::compare(c, c.register_x, byte);
        Ok(())
    }

    /// CPY: compares Y with the operand.
    pub fn op_cpy<M: MemoryMapper>(c: &mut CpuState, memory: &mut M, address_method: AddressMode) -> (r:
        Result<(), Fault>)
        requires
            old(memory).wf(),
        ensures
            final(memory).wf(),
            realizes(
                r,
                *final(c),
                final(memory).model(),
                execute::<M>(Handler::Cpy, address_method, *old(c), old(memory).model()),
            ),
    {
        reveal(execute_read);
        let address: u16 = Self::address(c, memory, address_method);
        let byte: u8 = memory.cpu_read(address);
        Self::compare(c, c.register_y, byte);
        Ok(())
    }

    /// INC: counts a byte of memory up.
    pub fn op_inc<M: MemoryMapper>(c: &mut CpuState, memory: &mut M, address_method: AddressMode) -> (r:
        Result<(), Fault>)
        requires
            old(memory).wf(),
        ensures
            final(memory).wf(),
            realizes(
                r,
                *final(c),
                final(memory).model(),
                execute::<M>(Handler::Inc, address_method, *old(c), old(memory).model()),
            ),
    {
        reveal(execute_modify);
        let address: u16 = Self::address(c, memory, address_method);
        let byte: u8 = memory.cpu_read(address);
        let byte2: u8 = byte.wrapping_add(1);
        Self::set_negative_zero(c, byte2);
        Self::store_byte(c, memory, address, byte2)
    }

    /// INX: counts X up.
    pub fn op_inx<M: MemoryMapper>(c: &mut CpuState, memory: &mut M, address_method: AddressMode) -> (r:
        Result<(), Fault>)
        requires
            old(memory).wf(),
        ensures
            final(memory).wf(),
            realizes(
                r,
                *final(c),
                final(memory).model(),
                execute::<M>(Handler::Inx, address_method, *old(c), old(memory).model()),
            ),
    {
        reveal(execute_implied);
        let _ = Self::address(c, memory, address_method);
        c.register_x = c.register_x.wrapping_add(1);
        Self::set_negative_zero(c, c.register_x);
        Ok(())
    }

    /// INY: counts Y up.
    pub fn op_iny<M: MemoryMapper>(c: &mut CpuState, memory: &mut M, address_method: AddressMode) -> (r:
        Result<(), Fault>)
        requires
            old(memory).wf(),
        ensures
            final(memory).wf(),
            realizes(
                r,
                *final(c),
                final(memory).model(),
                execute::<M>(Handler::Iny, address_method, *old(c), old(memory).model()),
            ),
    {
        reveal(execute_implied);
        let _ = Self::address(c, memory, address_method);
        c.register_y = c.register_y.wrapping_add(1);
        Self::set_negative_zero(c, c.register_y);
        Ok(())
    }

    /// DEC: counts a byte of memory down.
    pub fn op_dec<M: MemoryMapper>(c: &mut CpuState, memory: &mut M, address_method: AddressMode) -> (r:
        Result<(), Fault>)
        requires
            old(memory).wf(),
        ensures
            final(memory).wf(),
            realizes(
                r,
                *final(c),
                final(memory).model(),
                execute::<M>(Handler::Dec, address_method, *old(c), old(memory).model()),
            ),
    {
        reveal(execute_modify);
        let address: u16 = Self::address(c, memory, address_method);
        let byte: u8 = memory.cpu_read(address);
        let byte2: u8 = byte.wrapping_sub(1);
        Self::set_negative_zero(c, byte2);
        Self::store_byte(c, memory, address, byte2)
    }

    /// DEX: counts X down.
    pub fn op_dex<M: MemoryMapper>(c: &mut CpuState, memory: &mut M, address_method: AddressMode) -> (r:
        Result<(), Fault>)
        requires
            old(memory).wf(),
        ensures
            final(memory).wf(),
            realizes(
                r,
                *final(c),
                final(memory).model(),
                execute::<M>(Handler::Dex, address_method, *old(c), old(memory).model()),
            ),
    {
        reveal(execute_implied);
        let _ = Self::address(c, memory, address_method);
        c.register_x = c.register_x.wrapping_sub(1);
        Self::set_negative_zero(c, c.register_x);
        Ok(())
    }

    /// DEY: counts Y down.
    pub fn op_dey<M: MemoryMapper>(c: &mut CpuState, memory: &mut M, address_method: AddressMode) -> (r:
        Result<(), Fault>)
        requires
            old(memory).wf(),
        ensures
            final(memory).wf(),
            realizes(
                r,
                *final(c),
                final(memory).model(),
                execute::<M>(Handler::Dey, address_method, *old(c), old(memory).model()),
            ),
    {
        reveal(execute_implied);
        let _ = Self::address(c, memory, address_method);
        c.register_y = c.register_y.wrapping_sub(1);
        Self::set_negative_zero(c, c.register_y);
        Ok(())
    }

    /// ASL: shifts left; a zero enters.
    pub fn op_asl<M: MemoryMapper>(c: &mut CpuState, memory: &mut M, address_method: AddressMode) -> (r:
        Result<(), Fault>)
        requires
            old(memory).wf(),
        ensures
            final(memory).wf(),
            realizes(
                r,
                *final(c),
                final(memory).model(),
                execute::<M>(Handler::Asl, address_method, *old(c), old(memory).model()),
            ),
    {
        reveal(execute_modify);
        let mut address: u16 = 0;
        let byte: u8;
        if address_method == AddressMode::Accumulator {
            byte = c.accumulator;
        } else {
            address = Self::address(c, memory, address_method);
            byte = memory.cpu_read(address);
        }
        let moved = Self::rotate_left(byte, false);
        Self::set_status_flag(c, CARRY_FLAG, moved.1);
        Self::set_negative_zero(c, moved.0);
        if address_method == AddressMode::Accumulator {
            c.accumulator = moved.0;
            Ok(())
        } else {
            Self::store_byte(c, memory, address, moved.0)
        }
    }

    /// LSR: shifts right; a zero enters.
    pub fn op_lsr<M: MemoryMapper>(c: &mut CpuState, memory: &mut M, address_method: AddressMode) -> (r:
        Result<(), Fault>)
        requires
            old(memory).wf(),
        ensures
            final(memory).wf(),
            realizes(
                r,
                *final(c),
                final(memory).model(),
                execute::<M>(Handler::Lsr, address_method, *old(c), old(memory).model()),
            ),
    {
        reveal(execute_modify);
        let mut address: u16 = 0;
        let byte: u8;
        if address_method == AddressMode::Accumulator {
            byte = c.accumulator;
        } else {
            address = Self::address(c, memory, address_method);
            byte = memory.cpu_read(address);
        }
        let moved = Self::rotate_right(byte, false);
        Self::set_status_flag(c, CARRY_FLAG, moved.1);
        Self::set_negative_zero(c, moved.0);
        if address_method == AddressMode::Accumulator {
            c.accumulator = moved.0;
            Ok(())
        } else {
            Self::store_byte(c, memory, address, moved.0)
        }
    }

    /// ROL: shifts left; the carry enters.
    pub fn op_rol<M: MemoryMapper>(c: &mut CpuState, memory: &mut M, address_method: AddressMode) -> (r:
        Result<(), Fault>)
        requires
            old(memory).wf(),
        ensures
            final(memory).wf(),
            realizes(
                r,
                *final(c),
                final(memory).model(),
                execute::<M>(Handler::Rol, address_method, *old(c), old(memory).model()),
            ),
    {
        reveal(execute_modify);
        let mut address: u16 = 0;
        let byte: u8;
        if address_method == AddressMode::Accumulator {
            byte = c.accumulator;
        } else {
            address = Self::address(c, memory, address_method);
            byte = memory.cpu_read(address);
        }
        let carry: bool = Self::get_status_flag(c, CARRY_FLAG) != 0;
        let moved = Self::rotate_left(byte, carry);
        Self::set_status_flag(c, CARRY_FLAG, moved.1);
        Self::set_negative_zero(c, moved.0);
        if address_method == AddressMode::Accumulator {
            c.accumulator = moved.0;
            Ok(())
        } else {
            Self::store_byte(c, memory, address, moved.0)
        }
    }

    /// ROR: shifts right; the carry enters.
    pub fn op_ror<M: MemoryMapper>(c: &mut CpuState, memory: &mut M, address_method: AddressMode) -> (r:
        Result<(), Fault>)
        requires
            old(memory).wf(),
        ensures
            final(memory).wf(),
            realizes(
                r,
                *final(c),
                final(memory).model(),
                execute::<M>(Handler::Ror, address_method, *old(c), old(memory).model()),
            ),
    {
        reveal(execute_modify);
        let mut address: u16 = 0;
        let byte: u8;
        if address_method == AddressMode::Accumulator {
            byte = c.accumulator;
        } else {
            address = Self::address(c, memory, address_method);
            byte = memory.cpu_read(address);
        }
        let carry: bool = Self::get_status_flag(c, CARRY_FLAG) != 0;
        let moved = Self::rotate_right(byte, carry);
        Self::set_status_flag(c, CARRY_FLAG, moved.1);
        Self::set_negative_zero(c, moved.0);
        if address_method == AddressMode::Accumulator {
            c.accumulator = moved.0;
            Ok(())
        } else {
            Self::store_byte(c, memory, address, moved.0)
        }
    }

    /// JMP: goes to the operand.
    pub fn op_jmp<M: MemoryMapper>(c: &mut CpuState, memory: &mut M, address_method: AddressMode) -> (r:
        Result<(), Fault>)
        requires
            old(memory).wf(),
        ensures
            final(memory).wf(),
            realizes(
                r,
                *final(c),
                final(memory).model(),
                execute::<M>(Handler::Jmp, address_method, *old(c), old(memory).model()),
            ),
    {
        reveal(execute_control);
        let address: u16 = Self::address(c, memory, address_method);
        c.program_counter = address;
        Ok(())
    }

    /// JSR: pushes the location of its last byte and goes to the operand.
    pub fn op_jsr<M: MemoryMapper>(c: &mut CpuState, memory: &mut M, address_method: AddressMode) -> (r:
        Result<(), Fault>)
        requires
            old(memory).wf(),
        ensures
            final(memory).wf(),
            realizes(
                r,
                *final(c),
                final(memory).model(),
                execute::<M>(Handler::Jsr, address_method, *old(c), old(memory).model()),
            ),
    {
        reveal(execute_control);
        let jump_address: u16 = Self::address(c, memory, address_method);
        match Self::push_address(c, memory, c.program_counter.wrapping_sub(1)) {
            Err(fault) => Err(fault),
            Ok(()) => {
                c.program_counter = jump_address;
                Ok(())
            },
        }
    }

    /// RTS: pulls a location and goes on behind it.
    pub fn op_rts<M: MemoryMapper>(c: &mut CpuState, memory: &mut M, address_method: AddressMode) -> (r:
        Result<(), Fault>)
        requires
            old(memory).wf(),
        ensures
            final(memory).wf(),
            realizes(
                r,
                *final(c),
                final(memory).model(),
                execute::<M>(Handler::Rts, address_method, *old(c), old(memory).model()),
            ),
    {
        reveal(execute_control);
        let _ = Self::address(c, memory, address_method);
        match Self::pop_address(c, memory) {
            Err(fault) => Err(fault),
            Ok(address) => {
                c.program_counter = address.wrapping_add(1);
                Ok(())
            },
        }
    }

    /// BCC: branches where C is clear.
    pub fn op_bcc<M: MemoryMapper>(c: &mut CpuState, memory: &mut M, address_method: AddressMode) -> (r:
        Result<(), Fault>)
        requires
            old(memory).wf(),
        ensures
            final(memory).wf(),
            realizes(
                r,
                *final(c),
                final(memory).model(),
                execute::<M>(Handler::Bcc, address_method, *old(c), old(memory).model()),
            ),
    {
        reveal(execute_branch);
        let address: u16 = Self::address(c, memory, address_method);
        let relative_address: u8 = memory.cpu_read(address);
        if Self::branch_taken(c, Handler::Bcc) {
            c.program_counter = Self::branch_to(c.program_counter, relative_address);
        }
        Ok(())
    }

    /// BCS: branches where C is set.
    pub fn op_bcs<M: MemoryMapper>(c: &mut CpuState, memory: &mut M, address_method: AddressMode) -> (r:
        Result<(), Fault>)
        requires
            old(memory).wf(),
        ensures
            final(memory).wf(),
            realizes(
                r,
                *final(c),
                final(memory).model(),
                execute::<M>(Handler::Bcs, address_method, *old(c), old(memory).model()),
            ),
    {
        reveal(execute_branch);
        let address: u16 = Self::address(c, memory, address_method);
        let relative_address: u8 = memory.cpu_read(address);
        if Self::branch_taken(c, Handler::Bcs) {
            c.program_counter = Self::branch_to(c.program_counter, relative_address);
        }
        Ok(())
    }

    /// BEQ: branches where Z is set.
    pub fn op_beq<M: MemoryMapper>(c: &mut CpuState, memory: &mut M, address_method: AddressMode) -> (r:
        Result<(), Fault>)
        requires
            old(memory).wf(),
        ensures
            final(memory).wf(),
            realizes(
                r,
                *final(c),
                final(memory).model(),
                execute::<M>(Handler::Beq, address_method, *old(c), old(memory).model()),
            ),
    {
        reveal(execute_branch);
        let address: u16 = Self::address(c, memory, address_method);
        let relative_address: u8 = memory.cpu_read(address);
        if Self::branch_taken(c, Handler::Beq) {
            c.program_counter = Self::branch_to(c.program_counter, relative_address);
        }
        Ok(())
    }

    /// BMI: branches where N is set.
    pub fn op_bmi<M: MemoryMapper>(c: &mut CpuState, memory: &mut M, address_method: AddressMode) -> (r:
        Result<(), Fault>)
        requires
            old(memory).wf(),
        ensures
            final(memory).wf(),
            realizes(
                r,
                *final(c),
                final(memory).model(),
                execute::<M>(Handler::Bmi, address_method, *old(c), old(memory).model()),
            ),
    {
        reveal(execute_branch);
        let address: u16 = Self::address(c, memory, address_method);
        let relative_address: u8 = memory.cpu_read(address);
        if Self::branch_taken(c, Handler::Bmi) {
            c.program_counter = Self::branch_to(c.program_counter, relative_address);
        }
        Ok(())
    }

    /// BNE: branches where Z is clear.
    pub fn op_bne<M: MemoryMapper>(c: &mut CpuState, memory: &mut M, address_method: AddressMode) -> (r:
        Result<(), Fault>)
        requires
            old(memory).wf(),
        ensures
            final(memory).wf(),
            realizes(
                r,
                *final(c),
                final(memory).model(),
                execute::<M>(Handler::Bne, address_method, *old(c), old(memory).model()),
            ),
    {
        reveal(execute_branch);
        let address: u16 = Self::address(c, memory, address_method);
        let relative_address: u8 = memory.cpu_read(address);
        if Self::branch_taken(c, Handler::Bne) {
            c.program_counter = Self::branch_to(c.program_counter, relative_address);
        }
        Ok(())
    }

    /// BPL: branches where N is clear.
    pub fn op_bpl<M: MemoryMapper>(c: &mut CpuState, memory: &mut M, address_method: AddressMode) -> (r:
        Result<(), Fault>)
        requires
            old(memory).wf(),
        ensures
            final(memory).wf(),
            realizes(
                r,
                *final(c),
                final(memory).model(),
                execute::<M>(Handler::Bpl, address_method, *old(c), old(memory).model()),
            ),
    {
        reveal(execute_branch);
        let address: u16 = Self::address(c, memory, address_method);
        let relative_address: u8 = memory.cpu_read(address);
        if Self::branch_taken(c, Handler::Bpl) {
            c.program_counter = Self::branch_to(c.program_counter, relative_address);
        }
        Ok(())
    }

    /// BVC: branches where V is clear.
    pub fn op_bvc<M: MemoryMapper>(c: &mut CpuState, memory: &mut M, address_method: AddressMode) -> (r:
        Result<(), Fault>)
        requires
            old(memory).wf(),
        ensures
            final(memory).wf(),
            realizes(
                r,
                *final(c),
                final(memory).model(),
                execute::<M>(Handler::Bvc, address_method, *old(c), old(memory).model()),
            ),
    {
        reveal(execute_branch);
        let address: u16 = Self::address(c, memory, address_method);
        let relative_address: u8 = memory.cpu_read(address);
        if Self::branch_taken(c, Handler::Bvc) {
            c.program_counter = Self::branch_to(c.program_counter, relative_address);
        }
        Ok(())
    }

    /// BVS: branches where V is set.
    pub fn op_bvs<M: MemoryMapper>(c: &mut CpuState, memory: &mut M, address_method: AddressMode) -> (r:
        Result<(), Fault>)
        requires
            old(memory).wf(),
        ensures
            final(memory).wf(),
            realizes(
                r,
                *final(c),
                final(memory).model(),
                execute::<M>(Handler::Bvs, address_method, *old(c), old(memory).model()),
            ),
    {
        reveal(execute_branch);
        let address: u16 = Self::address(c, memory, address_method);
        let relative_address: u8 = memory.cpu_read(address);
        if Self::branch_taken(c, Handler::Bvs) {
            c.program_counter = Self::branch_to(c.program_counter, relative_address);
        }
        Ok(())
    }

    /// CLC: clears C.
    pub fn op_clc<M: MemoryMapper>(c: &mut CpuState, memory: &mut M, address_method: AddressMode) -> (r:
        Result<(), Fault>)
        requires
            old(memory).wf(),
        ensures
            final(memory).wf(),
            realizes(
                r,
                *final(c),
                final(memory).model(),
                execute::<M>(Handler::Clc, address_method, *old(c), old(memory).model()),
            ),
    {
        reveal(execute_implied);
        let _ = Self::address(c, memory, address_method);
        Self::set_status_flag(c, CARRY_FLAG, false);
        Ok(())
    }

    /// CLD: clears D.
    pub fn op_cld<M: MemoryMapper>(c: &mut CpuState, memory: &mut M, address_method: AddressMode) -> (r:
        Result<(), Fault>)
        requires
            old(memory).wf(),
        ensures
            final(memory).wf(),
            realizes(
                r,
                *final(c),
                final(memory).model(),
                execute::<M>(Handler::Cld, address_method, *old(c), old(memory).model()),
            ),
    {
        reveal(execute_implied);
        let _ = Self::address(c, memory, address_method);
        Self::set_status_flag(c, DECIMAL_MODE, false);
        Ok(())
    }

    /// CLI: clears I.
    pub fn op_cli<M: MemoryMapper>(c: &mut CpuState, memory: &mut M, address_method: AddressMode) -> (r:
        Result<(), Fault>)
        requires
            old(memory).wf(),
        ensures
            final(memory).wf(),
            realizes(
                r,
                *final(c),
                final(memory).model(),
                execute::<M>(Handler::Cli, address_method, *old(c), old(memory).model()),
            ),
    {
        reveal(execute_implied);
        let _ = Self::address(c, memory, address_method);
        Self::set_status_flag(c, INTERRUPT_FLAG, false);
        Ok(())
    }

    /// CLV: clears V.
    pub fn op_clv<M: MemoryMapper>(c: &mut CpuState, memory: &mut M, address_method: AddressMode) -> (r:
        Result<(), Fault>)
        requires
            old(memory).wf(),
        ensures
            final(memory).wf(),
            realizes(
                r,
                *final(c),
                final(memory).model(),
                execute::<M>(Handler::Clv, address_method, *old(c), old(memory).model()),
            ),
    {
        reveal(execute_implied);
        let _ = Self::address(c, memory, address_method);
        Self::set_status_flag(c, OVERFLOW_FLAG, false);
        Ok(())
    }

    /// SEC: sets C.
    pub fn op_sec<M: MemoryMapper>(c: &mut CpuState, memory: &mut M, address_method: AddressMode) -> (r:
        Result<(), Fault>)
        requires
            old(memory).wf(),
        ensures
            final(memory).wf(),
            realizes(
                r,
                *final(c),
                final(memory).model(),
                execute::<M>(Handler::Sec, address_method, *old(c), old(memory).model()),
            ),
    {
        reveal(execute_implied);
        let _ = Self::address(c, memory, address_method);
        Self::set_status_flag(c, CARRY_FLAG, true);
        Ok(())
    }

    /// SED: sets D.
    pub fn op_sed<M: MemoryMapper>(c: &mut CpuState, memory: &mut M, address_method: AddressMode) -> (r:
        Result<(), Fault>)
        requires
            old(memory).wf(),
        ensures
            final(memory).wf(),
            realizes(
                r,
                *final(c),
                final(memory).model(),
                execute::<M>(Handler::Sed, address_method, *old(c), old(memory).model()),
            ),
    {
        reveal(execute_implied);
        let _ = Self::address(c, memory, address_method);
        Self::set_status_flag(c, DECIMAL_MODE, true);
        Ok(())
    }

    /// SEI: sets I.
    pub fn op_sei<M: MemoryMapper>(c: &mut CpuState, memory: &mut M, address_method: AddressMode) -> (r:
        Result<(), Fault>)
        requires
            old(memory).wf(),
        ensures
            final(memory).wf(),
            realizes(
                r,
                *final(c),
                final(memory).model(),
                execute::<M>(Handler::Sei, address_method, *old(c), old(memory).model()),
            ),
    {
        reveal(execute_implied);
        let _ = Self::address(c, memory, address_method);
        Self::set_status_flag(c, INTERRUPT_FLAG, true);
        Ok(())
    }

    /// BRK: pushes location and status and goes through the vector at 0xFFFE.
    pub fn op_brk<M: MemoryMapper>(c: &mut CpuState, memory: &mut M, address_method: AddressMode) -> (r:
        Result<(), Fault>)
        requires
            old(memory).wf(),
        ensures
            final(memory).wf(),
            realizes(
                r,
                *final(c),
                final(memory).model(),
                execute::<M>(Handler::Brk, address_method, *old(c), old(memory).model()),
            ),
    {
        reveal(execute_control);
        let _ = Self::address(c, memory, address_method);
        match Self::push_address(c, memory, c.program_counter.wrapping_add(1)) {
            Err(fault) => {
                return Err(fault);
            },
            Ok(()) => {},
        }
        match Self::push_stack(c, memory, c.status_register | BREAK_COMMAND) {
            Err(fault) => {
                return Err(fault);
            },
            Ok(()) => {},
        }
        Self::set_status_flag(c, INTERRUPT_FLAG, true);
        Self::set_status_flag(c, BREAK_COMMAND, false);
        c.program_counter = Self::load_word(memory, 0xfffe, 0xffff);
        Ok(())
    }

    /// NOP: steps over its operand.
    pub fn op_nop<M: MemoryMapper>(c: &mut CpuState, memory: &mut M, address_method: AddressMode) -> (r:
        Result<(), Fault>)
        requires
            old(memory).wf(),
        ensures
            final(memory).wf(),
            realizes(
                r,
                *final(c),
                final(memory).model(),
                execute::<M>(Handler::Nop, address_method, *old(c), old(memory).model()),
            ),
    {
        reveal(execute_control);
        let _ = Self::address(c, memory, address_method);
        Ok(())
    }

    /// RTI: pulls the status and the location to go on at.
    pub fn op_rti<M: MemoryMapper>(c: &mut CpuState, memory: &mut M, address_method: AddressMode) -> (r:
        Result<(), Fault>)
        requires
            old(memory).wf(),
        ensures
            final(memory).wf(),
            realizes(
                r,
                *final(c),
                final(memory).model(),
                execute::<M>(Handler::Rti, address_method, *old(c), old(memory).model()),
            ),
    {
        reveal(execute_control);
        let _ = Self::address(c, memory, address_method);
        match Self::pop_stack(c, memory) {
            Err(fault) => {
                return Err(fault);
            },
            Ok(byte) => {
                c.status_register = byte;
            },
        }
        Self::set_status_flag(c, BREAK_COMMAND, false);
        match Self::pop_address(c, memory) {
            Err(fault) => Err(fault),
            Ok(load) => {
                c.program_counter = load;
                Ok(())
            },
        }
    }

    /// ISC: counts a byte of memory up and subtracts it from the accumulator.
    pub fn op_isc<M: MemoryMapper>(c: &mut CpuState, memory: &mut M, address_method: AddressMode) -> (r:
        Result<(), Fault>)
        requires
            old(memory).wf(),
        ensures
            final(memory).wf(),
            realizes(
                r,
                *final(c),
                final(memory).model(),
                execute::<M>(Handler::Isc, address_method, *old(c), old(memory).model()),
            ),
    {
        reveal(execute_modify);
        let address: u16 = Self::address(c, memory, address_method);
        let byte: u8 = memory.cpu_read(address);
        let byte2: u8 = byte.wrapping_add(1);
        Self::subtract(c, byte2);
        Self::store_byte(c, memory, address, byte2)
    }

    /// SAX: stores the accumulator and X, bit by bit.
    pub fn op_sax<M: MemoryMapper>(c: &mut CpuState, memory: &mut M, address_method: AddressMode) -> (r:
        Result<(), Fault>)
        requires
            old(memory).wf(),
        ensures
            final(memory).wf(),
            realizes(
                r,
                *final(c),
                final(memory).model(),
                execute::<M>(Handler::Sax, address_method, *old(c), old(memory).model()),
            ),
    {
        reveal(execute_store);
        let address: u16 = Self::address(c, memory, address_method);
        Self::store_byte(c, memory, address, c.accumulator & c.register_x)
    }

    /// SLO: shifts a byte of memory left and ors it into the accumulator.
    pub fn op_slo<M: MemoryMapper>(c: &mut CpuState, memory: &mut M, address_method: AddressMode) -> (r:
        Result<(), Fault>)
        requires
            old(memory).wf(),
        ensures
            final(memory).wf(),
            realizes(
                r,
                *final(c),
                final(memory).model(),
                execute::<M>(Handler::Slo, address_method, *old(c), old(memory).model()),
            ),
    {
        reveal(execute_modify);
        let address: u16 = Self::address(c, memory, address_method);
        let byte: u8 = memory.cpu_read(address);
        let moved = Self::rotate_left(byte, false);
        Self::set_status_flag(c, CARRY_FLAG, moved.1);
        c.accumulator |= moved.0;
        Self::set_negative_zero(c, c.accumulator);
        Self::store_byte(c, memory, address, moved.0)
    }

    /// The handler of an opcode that has none: a fault.
    pub fn op_panic<M: MemoryMapper>(c: &mut CpuState, memory: &mut M, address_method: AddressMode) -> (r:
        Result<(), Fault>)
        requires
            old(memory).wf(),
        ensures
            final(memory).wf(),
            realizes(
                r,
                *final(c),
                final(memory).model(),
                execute::<M>(Handler::Panic, address_method, *old(c), old(memory).model()),
            ),
    {
        Err(Fault::UnimplementedOpcode { opcode: c.instruction })
    }
}

} // verus!
