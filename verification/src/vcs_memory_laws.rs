use vstd::prelude::*;
use crate::bits::lemma_mask_bound_u16;
use crate::m6502_laws::{
    lemma_jsr_pushes_return_address,
    lemma_jsr_rts,
    lemma_pha_pla,
    lemma_php_plp,
    stack_keeps_word,
};
use crate::m6502_model::{CpuState, NEGATIVE_FLAG, ZERO_FLAG, execute, high_byte, low_byte};
use crate::m6502_operation::{AddressMode, Handler};
use crate::vcs_memory::{MemoryState, Region, VcsMemory, ram_index, region_of};

verus! {

/// The upper half of the stack page is the working RAM: with the stack
/// pointer at 0x80 or above, the stack slot is byte `pointer - 0x80` of it.
pub proof fn lemma_stack_slot_is_ram(pointer: u8)
    requires
        pointer >= 0x80,
    ensures
        region_of((0x100 + pointer) as u16) == Region::Ram,
        ram_index((0x100 + pointer) as u16) == pointer - 0x80,
{
    let slot: u16 = (0x100 + pointer) as u16;
    assert(slot & 0x1080 != 0 && slot & 0x1280 == 0x0080 && slot & 0x7F == slot - 0x180)
        by (bit_vector)
        requires
            0x180 <= slot <= 0x1FF,
    ;
}

/// Working RAM keeps what is written to it: a write is taken and read
/// back, and a read leaves no trace.
pub proof fn lemma_ram_keeps_bytes(m: MemoryState, location: u16, byte: u8)
    requires
        m.wf(),
        region_of(location) == Region::Ram,
    ensures
        m.takes_write(location),
        m.after_write(location, byte).wf(),
        m.after_write(location, byte).read(location) == byte,
        m.after_read(location) == m,
{
    lemma_mask_bound_u16(location, 0x7F);
}

/// No read changes the working RAM or the cartridge, and none leaves the
/// memory in a state that its operations do not lead to.
pub proof fn lemma_reads_keep_ram(m: MemoryState, location: u16)
    requires
        m.wf(),
    ensures
        m.after_read(location).wf(),
        m.after_read(location).riot.ram == m.riot.ram,
        m.after_read(location).cartridge == m.cartridge,
        m.after_read(location).tia == m.tia,
{
}

/// On the console, PHA then PLA restores the accumulator and sets N and Z
/// from it, wherever the stack pointer is at 0x80 or above, so that the
/// stack slot is in working RAM.
pub proof fn lemma_console_pha_pla(c: CpuState, m: MemoryState, between: u8)
    requires
        m.wf(),
        c.stack_pointer >= 0x80,
    ensures
        ({
            let pushed = execute::<VcsMemory>(Handler::Pha, AddressMode::Null, c, m);
            let pulled = execute::<VcsMemory>(
                Handler::Pla,
                AddressMode::Null,
                CpuState { accumulator: between, ..pushed.cpu },
                pushed.mem,
            );
            &&& pushed.fault.is_none()
            &&& pulled.fault.is_none()
            &&& pulled.cpu.accumulator == c.accumulator
            &&& pulled.cpu.stack_pointer == c.stack_pointer
            &&& pulled.cpu.flag(ZERO_FLAG) == (c.accumulator == 0)
            &&& pulled.cpu.flag(NEGATIVE_FLAG) == ((c.accumulator & 0x80) != 0)
        }),
{
    lemma_stack_slot_is_ram(c.stack_pointer);
    lemma_ram_keeps_bytes(m, c.stack_slot(), c.accumulator);
    lemma_pha_pla::<VcsMemory>(c, m, between);
}

/// On the console, PHP then PLP restores the status register, wherever the
/// stack pointer is at 0x80 or above.
pub proof fn lemma_console_php_plp(c: CpuState, m: MemoryState, between: u8)
    requires
        m.wf(),
        c.stack_pointer >= 0x80,
    ensures
        ({
            let pushed = execute::<VcsMemory>(Handler::Php, AddressMode::Null, c, m);
            let pulled = execute::<VcsMemory>(
                Handler::Plp,
                AddressMode::Null,
                CpuState { status_register: between, ..pushed.cpu },
                pushed.mem,
            );
            &&& pushed.fault.is_none()
            &&& pulled.fault.is_none()
            &&& pulled.cpu.status_register == c.status_register
            &&& pulled.cpu.stack_pointer == c.stack_pointer
        }),
{
    lemma_stack_slot_is_ram(c.stack_pointer);
    lemma_ram_keeps_bytes(m, c.stack_slot(), c.status_register);
    lemma_php_plp::<VcsMemory>(c, m, between);
}

/// On the console, JSR then RTS goes on at the instruction after the JSR,
/// wherever the stack pointer is at 0x81 or above, so that both stack
/// slots are in working RAM.
pub proof fn lemma_console_jsr_rts(c: CpuState, m: MemoryState)
    requires
        m.wf(),
        c.stack_pointer >= 0x81,
    ensures
        ({
            let called = execute::<VcsMemory>(Handler::Jsr, AddressMode::Absolute, c, m);
            let returned = execute::<VcsMemory>(
                Handler::Rts,
                AddressMode::Null,
                called.cpu,
                called.mem,
            );
            &&& called.fault.is_none()
            &&& returned.fault.is_none()
            &&& returned.cpu.program_counter == (c.program_counter + 2) % 65536
            &&& returned.cpu.stack_pointer == c.stack_pointer
        }),
{
    let pc = c.program_counter;
    let m1 = m.after_read(pc);
    let m2 = m1.after_read(pc.wrapping_add(1));
    lemma_reads_keep_ram(m, pc);
    lemma_reads_keep_ram(m1, pc.wrapping_add(1));
    let w: u16 = ((pc + 1) % 65536) as u16;
    let upper = c.stack_slot();
    let lower = (upper - 1) as u16;
    lemma_stack_slot_is_ram(c.stack_pointer);
    lemma_stack_slot_is_ram((c.stack_pointer - 1) as u8);
    lemma_ram_keeps_bytes(m2, upper, high_byte(w));
    let m3 = m2.after_write(upper, high_byte(w));
    lemma_ram_keeps_bytes(m3, lower, low_byte(w));
    let m4 = m3.after_write(lower, low_byte(w));
    lemma_jsr_pushes_return_address::<VcsMemory>(c, m);
    assert(m4.riot.ram == m2.riot.ram.update(c.stack_pointer - 0x80, high_byte(w)).update(
        c.stack_pointer - 0x81,
        low_byte(w),
    ));
    assert(m4.read(lower) == low_byte(w));
    assert(m4.after_read(lower) == m4);
    assert(m4.read(upper) == high_byte(w));
    assert(stack_keeps_word::<VcsMemory>(c, m4, w));
    lemma_jsr_rts::<VcsMemory>(c, m);
}

} // verus!
