use vstd::prelude::*;

verus! {

/// What an instruction does, apart from how it finds its operand.
#[derive(Debug, PartialEq, Eq, Clone, Copy, Structural)]
pub enum Handler {
    Adc,
    And,
    Asl,
    Bcc,
    Bcs,
    Beq,
    Bit,
    Bmi,
    Bne,
    Bpl,
    Brk,
    Bvc,
    Bvs,
    Clc,
    Cld,
    Cli,
    Clv,
    Cmp,
    Cpx,
    Cpy,
    Dec,
    Dex,
    Dey,
    Eor,
    Inc,
    Inx,
    Iny,
    Isc,
    Jmp,
    Jsr,
    Lda,
    Ldx,
    Ldy,
    Lsr,
    Nop,
    Ora,
    Pha,
    Php,
    Pla,
    Plp,
    Rol,
    Ror,
    Rti,
    Rts,
    Sax,
    Sbc,
    Sec,
    Sed,
    Sei,
    Slo,
    Sta,
    Stx,
    Sty,
    Tax,
    Tay,
    Tsx,
    Txa,
    Txs,
    Tya,
    /// No instruction: executing it is a fault.
    Panic,
}

/// How an instruction finds its operand.
#[derive(Debug, PartialEq, Eq, Clone, Copy, Structural)]
pub enum AddressMode {
    /// No operand.
    Null,
    /// The operand is the accumulator itself.
    Accumulator,
    /// The operand is the byte after the opcode.
    Immediate,
    /// The byte after the opcode is an address in page zero.
    Zero,
    /// Page zero, indexed by X; the sum wraps within the page.
    ZeroX,
    /// Page zero, indexed by Y; the sum wraps within the page.
    ZeroY,
    /// The two bytes after the opcode are the address, low byte first.
    Absolute,
    /// Absolute, indexed by X; crossing a page costs a cycle.
    AbsoluteX,
    /// Absolute, indexed by X, at a fixed cost.
    AbsoluteXNoOverflow,
    /// Absolute, indexed by Y; crossing a page costs a cycle.
    AbsoluteY,
    /// Absolute, indexed by Y, at a fixed cost.
    AbsoluteYNoOverflow,
    /// The two bytes after the opcode point at the address; the pointer's
    /// high byte is fetched without carry out of its low byte.
    Indirect,
    /// The byte after the opcode plus X, wrapped, points into page zero
    /// at the address.
    IndirectX,
    /// The byte after the opcode points into page zero at a base address,
    /// to which Y is added; crossing a page costs a cycle.
    IndirectY,
    /// As `IndirectY`, at a fixed cost.
    IndirectYNoOverflow,
}

/// The decoded form of an opcode byte.
#[derive(Debug, PartialEq, Eq, Clone, Copy, Structural)]
pub struct Operation {
    pub handler: Handler,
    pub address_method: AddressMode,
    /// Cycles the instruction takes before any penalty.
    pub ticks: u8,
}

/// The instruction that each opcode byte selects. Bytes that are listed
/// nowhere select `Handler::Panic`.
pub open spec fn handler_of(opcode: u8) -> Handler {
    match opcode {
        0x61 | 0x65 | 0x69 | 0x6d | 0x71 | 0x75 | 0x79 | 0x7d => Handler::Adc,
        0x21 | 0x25 | 0x29 | 0x2d | 0x31 | 0x35 | 0x39 | 0x3d => Handler::And,
        0x06 | 0x0a | 0x0e | 0x16 | 0x1e => Handler::Asl,
        0x90 => Handler::Bcc,
        0xb0 => Handler::Bcs,
        0xf0 => Handler::Beq,
        0x24 | 0x2c => Handler::Bit,
        0x30 => Handler::Bmi,
        0xd0 => Handler::Bne,
        0x10 => Handler::Bpl,
        0x00 => Handler::Brk,
        0x50 => Handler::Bvc,
        0x70 => Handler::Bvs,
        0x18 => Handler::Clc,
        0xd8 => Handler::Cld,
        0x58 => Handler::Cli,
        0xb8 => Handler::Clv,
        0xc1 | 0xc5 | 0xc9 | 0xcd | 0xd1 | 0xd5 | 0xd9 | 0xdd => Handler::Cmp,
        0xe0 | 0xe4 | 0xec => Handler::Cpx,
        0xc0 | 0xc4 | 0xcc => Handler::Cpy,
        0xc6 | 0xce | 0xd6 | 0xde => Handler::Dec,
        0xca => Handler::Dex,
        0x88 => Handler::Dey,
        0x41 | 0x45 | 0x49 | 0x4d | 0x51 | 0x55 | 0x59 | 0x5d => Handler::Eor,
        0xe6 | 0xee | 0xf6 | 0xfe => Handler::Inc,
        0xe8 => Handler::Inx,
        0xc8 => Handler::Iny,
        0xe3 | 0xe7 | 0xef | 0xf3 | 0xf7 | 0xfb | 0xff => Handler::Isc,
        0x4c | 0x6c => Handler::Jmp,
        0x20 => Handler::Jsr,
        0xa1 | 0xa5 | 0xa9 | 0xad | 0xb1 | 0xb5 | 0xb9 | 0xbd => Handler::Lda,
        0xa2 | 0xa6 | 0xae | 0xb6 | 0xbe => Handler::Ldx,
        0xa0 | 0xa4 | 0xac | 0xb4 | 0xbc => Handler::Ldy,
        0x46 | 0x4a | 0x4e | 0x56 | 0x5e => Handler::Lsr,
        0x04 | 0x0c | 0x14 | 0x1a | 0x1c | 0x34 | 0x3a | 0x3c
        | 0x44 | 0x54 | 0x5a | 0x5c | 0x64 | 0x74 | 0x7a | 0x7c
        | 0x80 | 0x82 | 0x89 | 0xc2 | 0xd4 | 0xdc | 0xe2 | 0xea
        | 0xf4 | 0xfa | 0xfc => Handler::Nop,
        0x01 | 0x05 | 0x09 | 0x0d | 0x11 | 0x15 | 0x19 | 0x1d => Handler::Ora,
        0x48 => Handler::Pha,
        0x08 => Handler::Php,
        0x68 => Handler::Pla,
        0x28 => Handler::Plp,
        0x26 | 0x2a | 0x2e | 0x36 | 0x3e => Handler::Rol,
        0x66 | 0x6a | 0x6e | 0x76 | 0x7e => Handler::Ror,
        0x40 => Handler::Rti,
        0x60 => Handler::Rts,
        0x83 | 0x87 | 0x8f | 0x97 => Handler::Sax,
        0xe1 | 0xe5 | 0xe9 | 0xed | 0xf1 | 0xf5 | 0xf9 | 0xfd => Handler::Sbc,
        0x38 => Handler::Sec,
        0xf8 => Handler::Sed,
        0x78 => Handler::Sei,
        0x03 | 0x07 | 0x0f | 0x13 | 0x17 | 0x1b | 0x1f => Handler::Slo,
        0x81 | 0x85 | 0x8d | 0x91 | 0x95 | 0x99 | 0x9d => Handler::Sta,
        0x86 | 0x8e | 0x96 => Handler::Stx,
        0x84 | 0x8c | 0x94 => Handler::Sty,
        0xaa => Handler::Tax,
        0xa8 => Handler::Tay,
        0xba => Handler::Tsx,
        0x8a => Handler::Txa,
        0x9a => Handler::Txs,
        0x98 => Handler::Tya,
        _ => Handler::Panic,
    }
}

/// The addressing mode that each opcode byte selects. Bytes that are listed
/// nowhere take no operand.
pub open spec fn address_method_of(opcode: u8) -> AddressMode {
    match opcode {
        0x0a | 0x2a | 0x4a | 0x6a => AddressMode::Accumulator,
        0x09 | 0x10 | 0x29 | 0x30 | 0x49 | 0x50 | 0x69 | 0x70
        | 0x80 | 0x82 | 0x89 | 0x90 | 0xa0 | 0xa2 | 0xa9 | 0xb0
        | 0xc0 | 0xc2 | 0xc9 | 0xd0 | 0xe0 | 0xe2 | 0xe9 | 0xf0 => AddressMode::Immediate,
        0x04 | 0x05 | 0x06 | 0x07 | 0x24 | 0x25 | 0x26 | 0x44
        | 0x45 | 0x46 | 0x64 | 0x65 | 0x66 | 0x84 | 0x85 | 0x86
        | 0x87 | 0xa4 | 0xa5 | 0xa6 | 0xc4 | 0xc5 | 0xc6 | 0xe4
        | 0xe5 | 0xe6 | 0xe7 => AddressMode::Zero,
        0x14 | 0x15 | 0x16 | 0x17 | 0x34 | 0x35 | 0x36 | 0x54
        | 0x55 | 0x56 | 0x74 | 0x75 | 0x76 | 0x94 | 0x95 | 0xb4
        | 0xb5 | 0xd4 | 0xd5 | 0xd6 | 0xf4 | 0xf5 | 0xf6 | 0xf7 => AddressMode::ZeroX,
        0x96 | 0x97 | 0xb6 => AddressMode::ZeroY,
        0x0c | 0x0d | 0x0e | 0x0f | 0x20 | 0x2c | 0x2d | 0x2e
        | 0x4c | 0x4d | 0x4e | 0x6d | 0x6e | 0x8c | 0x8d | 0x8e
        | 0x8f | 0xac | 0xad | 0xae | 0xcc | 0xcd | 0xce | 0xec
        | 0xed | 0xee | 0xef => AddressMode::Absolute,
        0x1c | 0x1d | 0x3c | 0x3d | 0x5c | 0x5d | 0x7c | 0x7d
        | 0xbc | 0xbd | 0xdc | 0xdd | 0xfc | 0xfd => AddressMode::AbsoluteX,
        0x1e | 0x1f | 0x3e | 0x5e | 0x7e | 0x9d | 0xde | 0xfe
        | 0xff => AddressMode::AbsoluteXNoOverflow,
        0x19 | 0x39 | 0x59 | 0x79 | 0xb9 | 0xbe | 0xd9 | 0xf9 => AddressMode::AbsoluteY,
        0x1b | 0x99 | 0xfb => AddressMode::AbsoluteYNoOverflow,
        0x6c => AddressMode::Indirect,
        0x01 | 0x03 | 0x21 | 0x41 | 0x61 | 0x81 | 0x83 | 0xa1
        | 0xc1 | 0xe1 | 0xe3 => AddressMode::IndirectX,
        0x11 | 0x31 | 0x51 | 0x71 | 0xb1 | 0xd1 | 0xf1 => AddressMode::IndirectY,
        0x13 | 0x91 | 0xf3 => AddressMode::IndirectYNoOverflow,
        _ => AddressMode::Null,
    }
}

/// The cycles that each opcode byte costs before penalties. Bytes that are
/// listed nowhere cost two.
pub open spec fn base_ticks_of(opcode: u8) -> u8 {
    match opcode {
        0x04 | 0x05 | 0x08 | 0x24 | 0x25 | 0x44 | 0x45 | 0x48
        | 0x4c | 0x64 | 0x65 | 0x84 | 0x85 | 0x86 | 0x87 | 0xa4
        | 0xa5 | 0xa6 | 0xc4 | 0xc5 | 0xe4 | 0xe5 => 3,
        0x0c | 0x0d | 0x14 | 0x15 | 0x19 | 0x1c | 0x1d | 0x28
        | 0x2c | 0x2d | 0x34 | 0x35 | 0x39 | 0x3c | 0x3d | 0x4d
        | 0x54 | 0x55 | 0x59 | 0x5c | 0x5d | 0x68 | 0x6d | 0x74
        | 0x75 | 0x79 | 0x7c | 0x7d | 0x8c | 0x8d | 0x8e | 0x8f
        | 0x94 | 0x95 | 0x96 | 0x97 | 0xac | 0xad | 0xae | 0xb4
        | 0xb5 | 0xb6 | 0xb9 | 0xbc | 0xbd | 0xbe | 0xcc | 0xcd
        | 0xd4 | 0xd5 | 0xd9 | 0xdc | 0xdd | 0xec | 0xed | 0xf4
        | 0xf5 | 0xf9 | 0xfc | 0xfd => 4,
        0x06 | 0x07 | 0x11 | 0x26 | 0x31 | 0x46 | 0x51 | 0x66
        | 0x6c | 0x71 | 0x99 | 0x9d | 0xb1 | 0xc6 | 0xd1 | 0xe6
        | 0xe7 | 0xf1 => 5,
        0x01 | 0x0e | 0x0f | 0x16 | 0x17 | 0x20 | 0x21 | 0x2e
        | 0x36 | 0x40 | 0x41 | 0x4e | 0x56 | 0x60 | 0x61 | 0x6e
        | 0x76 | 0x81 | 0x83 | 0x91 | 0xa1 | 0xc1 | 0xce | 0xd6
        | 0xe1 | 0xee | 0xef | 0xf6 | 0xf7 => 6,
        0x00 | 0x1b | 0x1e | 0x1f | 0x3e | 0x5e | 0x7e | 0xde
        | 0xfb | 0xfe | 0xff => 7,
        0x03 | 0x13 | 0xe3 | 0xf3 => 8,
        _ => 2,
    }
}

/// The decoding of an opcode byte.
pub open spec fn operation_of(opcode: u8) -> Operation {
    Operation {
        handler: handler_of(opcode),
        address_method: address_method_of(opcode),
        ticks: base_ticks_of(opcode),
    }
}

/// The bytes an instruction occupies after its opcode.
pub open spec fn operand_length(mode: AddressMode) -> int {
    match mode {
        AddressMode::Null | AddressMode::Accumulator => 0,
        AddressMode::Absolute
        | AddressMode::AbsoluteX
        | AddressMode::AbsoluteXNoOverflow
        | AddressMode::AbsoluteY
        | AddressMode::AbsoluteYNoOverflow
        | AddressMode::Indirect => 2,
        _ => 1,
    }
}

/// Whether rows `0..rows` of sixteen entries each hold the decoding of their
/// index.
pub open spec fn rows_decoded(table: Seq<Operation>, rows: int) -> bool {
    &&& table.len() == 256
    &&& forall|opcode: u8| opcode < 16 * rows ==> #[trigger] table[opcode as int] == operation_of(opcode)
}

/// Fills in the sixteen entries from 0x00 to 0x0f.
fn fill_row_0(table: &mut [Operation; 256])
    requires
        rows_decoded(old(table)@, 0),
    ensures
        rows_decoded(final(table)@, 1),
{
    table[0x00] = Operation { handler: Handler::Brk, address_method: AddressMode::Null, ticks: 7 };
    table[0x01] = Operation { handler: Handler::Ora, address_method: AddressMode::IndirectX, ticks: 6 };
    table[0x02] = Operation { handler: Handler::Panic, address_method: AddressMode::Null, ticks: 2 };
    table[0x03] = Operation { handler: Handler::Slo, address_method: AddressMode::IndirectX, ticks: 8 };
    table[0x04] = Operation { handler: Handler::Nop, address_method: AddressMode::Zero, ticks: 3 };
    table[0x05] = Operation { handler: Handler::Ora, address_method: AddressMode::Zero, ticks: 3 };
    table[0x06] = Operation { handler: Handler::Asl, address_method: AddressMode::Zero, ticks: 5 };
    table[0x07] = Operation { handler: Handler::Slo, address_method: AddressMode::Zero, ticks: 5 };
    table[0x08] = Operation { handler: Handler::Php, address_method: AddressMode::Null, ticks: 3 };
    table[0x09] = Operation { handler: Handler::Ora, address_method: AddressMode::Immediate, ticks: 2 };
    table[0x0a] = Operation { handler: Handler::Asl, address_method: AddressMode::Accumulator, ticks: 2 };
    table[0x0b] = Operation { handler: Handler::Panic, address_method: AddressMode::Null, ticks: 2 };
    table[0x0c] = Operation { handler: Handler::Nop, address_method: AddressMode::Absolute, ticks: 4 };
    table[0x0d] = Operation { handler: Handler::Ora, address_method: AddressMode::Absolute, ticks: 4 };
    table[0x0e] = Operation { handler: Handler::Asl, address_method: AddressMode::Absolute, ticks: 6 };
    table[0x0f] = Operation { handler: Handler::Slo, address_method: AddressMode::Absolute, ticks: 6 };
}

/// Fills in the sixteen entries from 0x10 to 0x1f.
fn fill_row_1(table: &mut [Operation; 256])
    requires
        rows_decoded(old(table)@, 1),
    ensures
        rows_decoded(final(table)@, 2),
{
    table[0x10] = Operation { handler: Handler::Bpl, address_method: AddressMode::Immediate, ticks: 2 };
    table[0x11] = Operation { handler: Handler::Ora, address_method: AddressMode::IndirectY, ticks: 5 };
    table[0x12] = Operation { handler: Handler::Panic, address_method: AddressMode::Null, ticks: 2 };
    table[0x13] = Operation { handler: Handler::Slo, address_method: AddressMode::IndirectYNoOverflow, ticks: 8 };
    table[0x14] = Operation { handler: Handler::Nop, address_method: AddressMode::ZeroX, ticks: 4 };
    table[0x15] = Operation { handler: Handler::Ora, address_method: AddressMode::ZeroX, ticks: 4 };
    table[0x16] = Operation { handler: Handler::Asl, address_method: AddressMode::ZeroX, ticks: 6 };
    table[0x17] = Operation { handler: Handler::Slo, address_method: AddressMode::ZeroX, ticks: 6 };
    table[0x18] = Operation { handler: Handler::Clc, address_method: AddressMode::Null, ticks: 2 };
    table[0x19] = Operation { handler: Handler::Ora, address_method: AddressMode::AbsoluteY, ticks: 4 };
    table[0x1a] = Operation { handler: Handler::Nop, address_method: AddressMode::Null, ticks: 2 };
    table[0x1b] = Operation { handler: Handler::Slo, address_method: AddressMode::AbsoluteYNoOverflow, ticks: 7 };
    table[0x1c] = Operation { handler: Handler::Nop, address_method: AddressMode::AbsoluteX, ticks: 4 };
    table[0x1d] = Operation { handler: Handler::Ora, address_method: AddressMode::AbsoluteX, ticks: 4 };
    table[0x1e] = Operation { handler: Handler::Asl, address_method: AddressMode::AbsoluteXNoOverflow, ticks: 7 };
    table[0x1f] = Operation { handler: Handler::Slo, address_method: AddressMode::AbsoluteXNoOverflow, ticks: 7 };
}

/// Fills in the sixteen entries from 0x20 to 0x2f.
fn fill_row_2(table: &mut [Operation; 256])
    requires
        rows_decoded(old(table)@, 2),
    ensures
        rows_decoded(final(table)@, 3),
{
    table[0x20] = Operation { handler: Handler::Jsr, address_method: AddressMode::Absolute, ticks: 6 };
    table[0x21] = Operation { handler: Handler::And, address_method: AddressMode::IndirectX, ticks: 6 };
    table[0x22] = Operation { handler: Handler::Panic, address_method: AddressMode::Null, ticks: 2 };
    table[0x23] = Operation { handler: Handler::Panic, address_method: AddressMode::Null, ticks: 2 };
    table[0x24] = Operation { handler: Handler::Bit, address_method: AddressMode::Zero, ticks: 3 };
    table[0x25] = Operation { handler: Handler::And, address_method: AddressMode::Zero, ticks: 3 };
    table[0x26] = Operation { handler: Handler::Rol, address_method: AddressMode::Zero, ticks: 5 };
    table[0x27] = Operation { handler: Handler::Panic, address_method: AddressMode::Null, ticks: 2 };
    table[0x28] = Operation { handler: Handler::Plp, address_method: AddressMode::Null, ticks: 4 };
    table[0x29] = Operation { handler: Handler::And, address_method: AddressMode::Immediate, ticks: 2 };
    table[0x2a] = Operation { handler: Handler::Rol, address_method: AddressMode::Accumulator, ticks: 2 };
    table[0x2b] = Operation { handler: Handler::Panic, address_method: AddressMode::Null, ticks: 2 };
    table[0x2c] = Operation { handler: Handler::Bit, address_method: AddressMode::Absolute, ticks: 4 };
    table[0x2d] = Operation { handler: Handler::And, address_method: AddressMode::Absolute, ticks: 4 };
    table[0x2e] = Operation { handler: Handler::Rol, address_method: AddressMode::Absolute, ticks: 6 };
    table[0x2f] = Operation { handler: Handler::Panic, address_method: AddressMode::Null, ticks: 2 };
}

/// Fills in the sixteen entries from 0x30 to 0x3f.
fn fill_row_3(table: &mut [Operation; 256])
    requires
        rows_decoded(old(table)@, 3),
    ensures
        rows_decoded(final(table)@, 4),
{
    table[0x30] = Operation { handler: Handler::Bmi, address_method: AddressMode::Immediate, ticks: 2 };
    table[0x31] = Operation { handler: Handler::And, address_method: AddressMode::IndirectY, ticks: 5 };
    table[0x32] = Operation { handler: Handler::Panic, address_method: AddressMode::Null, ticks: 2 };
    table[0x33] = Operation { handler: Handler::Panic, address_method: AddressMode::Null, ticks: 2 };
    table[0x34] = Operation { handler: Handler::Nop, address_method: AddressMode::ZeroX, ticks: 4 };
    table[0x35] = Operation { handler: Handler::And, address_method: AddressMode::ZeroX, ticks: 4 };
    table[0x36] = Operation { handler: Handler::Rol, address_method: AddressMode::ZeroX, ticks: 6 };
    table[0x37] = Operation { handler: Handler::Panic, address_method: AddressMode::Null, ticks: 2 };
    table[0x38] = Operation { handler: Handler::Sec, address_method: AddressMode::Null, ticks: 2 };
    table[0x39] = Operation { handler: Handler::And, address_method: AddressMode::AbsoluteY, ticks: 4 };
    table[0x3a] = Operation { handler: Handler::Nop, address_method: AddressMode::Null, ticks: 2 };
    table[0x3b] = Operation { handler: Handler::Panic, address_method: AddressMode::Null, ticks: 2 };
    table[0x3c] = Operation { handler: Handler::Nop, address_method: AddressMode::AbsoluteX, ticks: 4 };
    table[0x3d] = Operation { handler: Handler::And, address_method: AddressMode::AbsoluteX, ticks: 4 };
    table[0x3e] = Operation { handler: Handler::Rol, address_method: AddressMode::AbsoluteXNoOverflow, ticks: 7 };
    table[0x3f] = Operation { handler: Handler::Panic, address_method: AddressMode::Null, ticks: 2 };
}

/// Fills in the sixteen entries from 0x40 to 0x4f.
fn fill_row_4(table: &mut [Operation; 256])
    requires
        rows_decoded(old(table)@, 4),
    ensures
        rows_decoded(final(table)@, 5),
{
    table[0x40] = Operation { handler: Handler::Rti, address_method: AddressMode::Null, ticks: 6 };
    table[0x41] = Operation { handler: Handler::Eor, address_method: AddressMode::IndirectX, ticks: 6 };
    table[0x42] = Operation { handler: Handler::Panic, address_method: AddressMode::Null, ticks: 2 };
    table[0x43] = Operation { handler: Handler::Panic, address_method: AddressMode::Null, ticks: 2 };
    table[0x44] = Operation { handler: Handler::Nop, address_method: AddressMode::Zero, ticks: 3 };
    table[0x45] = Operation { handler: Handler::Eor, address_method: AddressMode::Zero, ticks: 3 };
    table[0x46] = Operation { handler: Handler::Lsr, address_method: AddressMode::Zero, ticks: 5 };
    table[0x47] = Operation { handler: Handler::Panic, address_method: AddressMode::Null, ticks: 2 };
    table[0x48] = Operation { handler: Handler::Pha, address_method: AddressMode::Null, ticks: 3 };
    table[0x49] = Operation { handler: Handler::Eor, address_method: AddressMode::Immediate, ticks: 2 };
    table[0x4a] = Operation { handler: Handler::Lsr, address_method: AddressMode::Accumulator, ticks: 2 };
    table[0x4b] = Operation { handler: Handler::Panic, address_method: AddressMode::Null, ticks: 2 };
    table[0x4c] = Operation { handler: Handler::Jmp, address_method: AddressMode::Absolute, ticks: 3 };
    table[0x4d] = Operation { handler: Handler::Eor, address_method: AddressMode::Absolute, ticks: 4 };
    table[0x4e] = Operation { handler: Handler::Lsr, address_method: AddressMode::Absolute, ticks: 6 };
    table[0x4f] = Operation { handler: Handler::Panic, address_method: AddressMode::Null, ticks: 2 };
}

/// Fills in the sixteen entries from 0x50 to 0x5f.
fn fill_row_5(table: &mut [Operation; 256])
    requires
        rows_decoded(old(table)@, 5),
    ensures
        rows_decoded(final(table)@, 6),
{
    table[0x50] = Operation { handler: Handler::Bvc, address_method: AddressMode::Immediate, ticks: 2 };
    table[0x51] = Operation { handler: Handler::Eor, address_method: AddressMode::IndirectY, ticks: 5 };
    table[0x52] = Operation { handler: Handler::Panic, address_method: AddressMode::Null, ticks: 2 };
    table[0x53] = Operation { handler: Handler::Panic, address_method: AddressMode::Null, ticks: 2 };
    table[0x54] = Operation { handler: Handler::Nop, address_method: AddressMode::ZeroX, ticks: 4 };
    table[0x55] = Operation { handler: Handler::Eor, address_method: AddressMode::ZeroX, ticks: 4 };
    table[0x56] = Operation { handler: Handler::Lsr, address_method: AddressMode::ZeroX, ticks: 6 };
    table[0x57] = Operation { handler: Handler::Panic, address_method: AddressMode::Null, ticks: 2 };
    table[0x58] = Operation { handler: Handler::Cli, address_method: AddressMode::Null, ticks: 2 };
    table[0x59] = Operation { handler: Handler::Eor, address_method: AddressMode::AbsoluteY, ticks: 4 };
    table[0x5a] = Operation { handler: Handler::Nop, address_method: AddressMode::Null, ticks: 2 };
    table[0x5b] = Operation { handler: Handler::Panic, address_method: AddressMode::Null, ticks: 2 };
    table[0x5c] = Operation { handler: Handler::Nop, address_method: AddressMode::AbsoluteX, ticks: 4 };
    table[0x5d] = Operation { handler: Handler::Eor, address_method: AddressMode::AbsoluteX, ticks: 4 };
    table[0x5e] = Operation { handler: Handler::Lsr, address_method: AddressMode::AbsoluteXNoOverflow, ticks: 7 };
    table[0x5f] = Operation { handler: Handler::Panic, address_method: AddressMode::Null, ticks: 2 };
}

/// Fills in the sixteen entries from 0x60 to 0x6f.
fn fill_row_6(table: &mut [Operation; 256])
    requires
        rows_decoded(old(table)@, 6),
    ensures
        rows_decoded(final(table)@, 7),
{
    table[0x60] = Operation { handler: Handler::Rts, address_method: AddressMode::Null, ticks: 6 };
    table[0x61] = Operation { handler: Handler::Adc, address_method: AddressMode::IndirectX, ticks: 6 };
    table[0x62] = Operation { handler: Handler::Panic, address_method: AddressMode::Null, ticks: 2 };
    table[0x63] = Operation { handler: Handler::Panic, address_method: AddressMode::Null, ticks: 2 };
    table[0x64] = Operation { handler: Handler::Nop, address_method: AddressMode::Zero, ticks: 3 };
    table[0x65] = Operation { handler: Handler::Adc, address_method: AddressMode::Zero, ticks: 3 };
    table[0x66] = Operation { handler: Handler::Ror, address_method: AddressMode::Zero, ticks: 5 };
    table[0x67] = Operation { handler: Handler::Panic, address_method: AddressMode::Null, ticks: 2 };
    table[0x68] = Operation { handler: Handler::Pla, address_method: AddressMode::Null, ticks: 4 };
    table[0x69] = Operation { handler: Handler::Adc, address_method: AddressMode::Immediate, ticks: 2 };
    table[0x6a] = Operation { handler: Handler::Ror, address_method: AddressMode::Accumulator, ticks: 2 };
    table[0x6b] = Operation { handler: Handler::Panic, address_method: AddressMode::Null, ticks: 2 };
    table[0x6c] = Operation { handler: Handler::Jmp, address_method: AddressMode::Indirect, ticks: 5 };
    table[0x6d] = Operation { handler: Handler::Adc, address_method: AddressMode::Absolute, ticks: 4 };
    table[0x6e] = Operation { handler: Handler::Ror, address_method: AddressMode::Absolute, ticks: 6 };
    table[0x6f] = Operation { handler: Handler::Panic, address_method: AddressMode::Null, ticks: 2 };
}

/// Fills in the sixteen entries from 0x70 to 0x7f.
fn fill_row_7(table: &mut [Operation; 256])
    requires
        rows_decoded(old(table)@, 7),
    ensures
        rows_decoded(final(table)@, 8),
{
    table[0x70] = Operation { handler: Handler::Bvs, address_method: AddressMode::Immediate, ticks: 2 };
    table[0x71] = Operation { handler: Handler::Adc, address_method: AddressMode::IndirectY, ticks: 5 };
    table[0x72] = Operation { handler: Handler::Panic, address_method: AddressMode::Null, ticks: 2 };
    table[0x73] = Operation { handler: Handler::Panic, address_method: AddressMode::Null, ticks: 2 };
    table[0x74] = Operation { handler: Handler::Nop, address_method: AddressMode::ZeroX, ticks: 4 };
    table[0x75] = Operation { handler: Handler::Adc, address_method: AddressMode::ZeroX, ticks: 4 };
    table[0x76] = Operation { handler: Handler::Ror, address_method: AddressMode::ZeroX, ticks: 6 };
    table[0x77] = Operation { handler: Handler::Panic, address_method: AddressMode::Null, ticks: 2 };
    table[0x78] = Operation { handler: Handler::Sei, address_method: AddressMode::Null, ticks: 2 };
    table[0x79] = Operation { handler: Handler::Adc, address_method: AddressMode::AbsoluteY, ticks: 4 };
    table[0x7a] = Operation { handler: Handler::Nop, address_method: AddressMode::Null, ticks: 2 };
    table[0x7b] = Operation { handler: Handler::Panic, address_method: AddressMode::Null, ticks: 2 };
    table[0x7c] = Operation { handler: Handler::Nop, address_method: AddressMode::AbsoluteX, ticks: 4 };
    table[0x7d] = Operation { handler: Handler::Adc, address_method: AddressMode::AbsoluteX, ticks: 4 };
    table[0x7e] = Operation { handler: Handler::Ror, address_method: AddressMode::AbsoluteXNoOverflow, ticks: 7 };
    table[0x7f] = Operation { handler: Handler::Panic, address_method: AddressMode::Null, ticks: 2 };
}

/// Fills in the sixteen entries from 0x80 to 0x8f.
fn fill_row_8(table: &mut [Operation; 256])
    requires
        rows_decoded(old(table)@, 8),
    ensures
        rows_decoded(final(table)@, 9),
{
    table[0x80] = Operation { handler: Handler::Nop, address_method: AddressMode::Immediate, ticks: 2 };
    table[0x81] = Operation { handler: Handler::Sta, address_method: AddressMode::IndirectX, ticks: 6 };
    table[0x82] = Operation { handler: Handler::Nop, address_method: AddressMode::Immediate, ticks: 2 };
    table[0x83] = Operation { handler: Handler::Sax, address_method: AddressMode::IndirectX, ticks: 6 };
    table[0x84] = Operation { handler: Handler::Sty, address_method: AddressMode::Zero, ticks: 3 };
    table[0x85] = Operation { handler: Handler::Sta, address_method: AddressMode::Zero, ticks: 3 };
    table[0x86] = Operation { handler: Handler::Stx, address_method: AddressMode::Zero, ticks: 3 };
    table[0x87] = Operation { handler: Handler::Sax, address_method: AddressMode::Zero, ticks: 3 };
    table[0x88] = Operation { handler: Handler::Dey, address_method: AddressMode::Null, ticks: 2 };
    table[0x89] = Operation { handler: Handler::Nop, address_method: AddressMode::Immediate, ticks: 2 };
    table[0x8a] = Operation { handler: Handler::Txa, address_method: AddressMode::Null, ticks: 2 };
    table[0x8b] = Operation { handler: Handler::Panic, address_method: AddressMode::Null, ticks: 2 };
    table[0x8c] = Operation { handler: Handler::Sty, address_method: AddressMode::Absolute, ticks: 4 };
    table[0x8d] = Operation { handler: Handler::Sta, address_method: AddressMode::Absolute, ticks: 4 };
    table[0x8e] = Operation { handler: Handler::Stx, address_method: AddressMode::Absolute, ticks: 4 };
    table[0x8f] = Operation { handler: Handler::Sax, address_method: AddressMode::Absolute, ticks: 4 };
}

/// Fills in the sixteen entries from 0x90 to 0x9f.
fn fill_row_9(table: &mut [Operation; 256])
    requires
        rows_decoded(old(table)@, 9),
    ensures
        rows_decoded(final(table)@, 10),
{
    table[0x90] = Operation { handler: Handler::Bcc, address_method: AddressMode::Immediate, ticks: 2 };
    table[0x91] = Operation { handler: Handler::Sta, address_method: AddressMode::IndirectYNoOverflow, ticks: 6 };
    table[0x92] = Operation { handler: Handler::Panic, address_method: AddressMode::Null, ticks: 2 };
    table[0x93] = Operation { handler: Handler::Panic, address_method: AddressMode::Null, ticks: 2 };
    table[0x94] = Operation { handler: Handler::Sty, address_method: AddressMode::ZeroX, ticks: 4 };
    table[0x95] = Operation { handler: Handler::Sta, address_method: AddressMode::ZeroX, ticks: 4 };
    table[0x96] = Operation { handler: Handler::Stx, address_method: AddressMode::ZeroY, ticks: 4 };
    table[0x97] = Operation { handler: Handler::Sax, address_method: AddressMode::ZeroY, ticks: 4 };
    table[0x98] = Operation { handler: Handler::Tya, address_method: AddressMode::Null, ticks: 2 };
    table[0x99] = Operation { handler: Handler::Sta, address_method: AddressMode::AbsoluteYNoOverflow, ticks: 5 };
    table[0x9a] = Operation { handler: Handler::Txs, address_method: AddressMode::Null, ticks: 2 };
    table[0x9b] = Operation { handler: Handler::Panic, address_method: AddressMode::Null, ticks: 2 };
    table[0x9c] = Operation { handler: Handler::Panic, address_method: AddressMode::Null, ticks: 2 };
    table[0x9d] = Operation { handler: Handler::Sta, address_method: AddressMode::AbsoluteXNoOverflow, ticks: 5 };
    table[0x9e] = Operation { handler: Handler::Panic, address_method: AddressMode::Null, ticks: 2 };
    table[0x9f] = Operation { handler: Handler::Panic, address_method: AddressMode::Null, ticks: 2 };
}

/// Fills in the sixteen entries from 0xa0 to 0xaf.
fn fill_row_a(table: &mut [Operation; 256])
    requires
        rows_decoded(old(table)@, 10),
    ensures
        rows_decoded(final(table)@, 11),
{
    table[0xa0] = Operation { handler: Handler::Ldy, address_method: AddressMode::Immediate, ticks: 2 };
    table[0xa1] = Operation { handler: Handler::Lda, address_method: AddressMode::IndirectX, ticks: 6 };
    table[0xa2] = Operation { handler: Handler::Ldx, address_method: AddressMode::Immediate, ticks: 2 };
    table[0xa3] = Operation { handler: Handler::Panic, address_method: AddressMode::Null, ticks: 2 };
    table[0xa4] = Operation { handler: Handler::Ldy, address_method: AddressMode::Zero, ticks: 3 };
    table[0xa5] = Operation { handler: Handler::Lda, address_method: AddressMode::Zero, ticks: 3 };
    table[0xa6] = Operation { handler: Handler::Ldx, address_method: AddressMode::Zero, ticks: 3 };
    table[0xa7] = Operation { handler: Handler::Panic, address_method: AddressMode::Null, ticks: 2 };
    table[0xa8] = Operation { handler: Handler::Tay, address_method: AddressMode::Null, ticks: 2 };
    table[0xa9] = Operation { handler: Handler::Lda, address_method: AddressMode::Immediate, ticks: 2 };
    table[0xaa] = Operation { handler: Handler::Tax, address_method: AddressMode::Null, ticks: 2 };
    table[0xab] = Operation { handler: Handler::Panic, address_method: AddressMode::Null, ticks: 2 };
    table[0xac] = Operation { handler: Handler::Ldy, address_method: AddressMode::Absolute, ticks: 4 };
    table[0xad] = Operation { handler: Handler::Lda, address_method: AddressMode::Absolute, ticks: 4 };
    table[0xae] = Operation { handler: Handler::Ldx, address_method: AddressMode::Absolute, ticks: 4 };
    table[0xaf] = Operation { handler: Handler::Panic, address_method: AddressMode::Null, ticks: 2 };
}

/// Fills in the sixteen entries from 0xb0 to 0xbf.
fn fill_row_b(table: &mut [Operation; 256])
    requires
        rows_decoded(old(table)@, 11),
    ensures
        rows_decoded(final(table)@, 12),
{
    table[0xb0] = Operation { handler: Handler::Bcs, address_method: AddressMode::Immediate, ticks: 2 };
    table[0xb1] = Operation { handler: Handler::Lda, address_method: AddressMode::IndirectY, ticks: 5 };
    table[0xb2] = Operation { handler: Handler::Panic, address_method: AddressMode::Null, ticks: 2 };
    table[0xb3] = Operation { handler: Handler::Panic, address_method: AddressMode::Null, ticks: 2 };
    table[0xb4] = Operation { handler: Handler::Ldy, address_method: AddressMode::ZeroX, ticks: 4 };
    table[0xb5] = Operation { handler: Handler::Lda, address_method: AddressMode::ZeroX, ticks: 4 };
    table[0xb6] = Operation { handler: Handler::Ldx, address_method: AddressMode::ZeroY, ticks: 4 };
    table[0xb7] = Operation { handler: Handler::Panic, address_method: AddressMode::Null, ticks: 2 };
    table[0xb8] = Operation { handler: Handler::Clv, address_method: AddressMode::Null, ticks: 2 };
    table[0xb9] = Operation { handler: Handler::Lda, address_method: AddressMode::AbsoluteY, ticks: 4 };
    table[0xba] = Operation { handler: Handler::Tsx, address_method: AddressMode::Null, ticks: 2 };
    table[0xbb] = Operation { handler: Handler::Panic, address_method: AddressMode::Null, ticks: 2 };
    table[0xbc] = Operation { handler: Handler::Ldy, address_method: AddressMode::AbsoluteX, ticks: 4 };
    table[0xbd] = Operation { handler: Handler::Lda, address_method: AddressMode::AbsoluteX, ticks: 4 };
    table[0xbe] = Operation { handler: Handler::Ldx, address_method: AddressMode::AbsoluteY, ticks: 4 };
    table[0xbf] = Operation { handler: Handler::Panic, address_method: AddressMode::Null, ticks: 2 };
}

/// Fills in the sixteen entries from 0xc0 to 0xcf.
fn fill_row_c(table: &mut [Operation; 256])
    requires
        rows_decoded(old(table)@, 12),
    ensures
        rows_decoded(final(table)@, 13),
{
    table[0xc0] = Operation { handler: Handler::Cpy, address_method: AddressMode::Immediate, ticks: 2 };
    table[0xc1] = Operation { handler: Handler::Cmp, address_method: AddressMode::IndirectX, ticks: 6 };
    table[0xc2] = Operation { handler: Handler::Nop, address_method: AddressMode::Immediate, ticks: 2 };
    table[0xc3] = Operation { handler: Handler::Panic, address_method: AddressMode::Null, ticks: 2 };
    table[0xc4] = Operation { handler: Handler::Cpy, address_method: AddressMode::Zero, ticks: 3 };
    table[0xc5] = Operation { handler: Handler::Cmp, address_method: AddressMode::Zero, ticks: 3 };
    table[0xc6] = Operation { handler: Handler::Dec, address_method: AddressMode::Zero, ticks: 5 };
    table[0xc7] = Operation { handler: Handler::Panic, address_method: AddressMode::Null, ticks: 2 };
    table[0xc8] = Operation { handler: Handler::Iny, address_method: AddressMode::Null, ticks: 2 };
    table[0xc9] = Operation { handler: Handler::Cmp, address_method: AddressMode::Immediate, ticks: 2 };
    table[0xca] = Operation { handler: Handler::Dex, address_method: AddressMode::Null, ticks: 2 };
    table[0xcb] = Operation { handler: Handler::Panic, address_method: AddressMode::Null, ticks: 2 };
    table[0xcc] = Operation { handler: Handler::Cpy, address_method: AddressMode::Absolute, ticks: 4 };
    table[0xcd] = Operation { handler: Handler::Cmp, address_method: AddressMode::Absolute, ticks: 4 };
    table[0xce] = Operation { handler: Handler::Dec, address_method: AddressMode::Absolute, ticks: 6 };
    table[0xcf] = Operation { handler: Handler::Panic, address_method: AddressMode::Null, ticks: 2 };
}

/// Fills in the sixteen entries from 0xd0 to 0xdf.
fn fill_row_d(table: &mut [Operation; 256])
    requires
        rows_decoded(old(table)@, 13),
    ensures
        rows_decoded(final(table)@, 14),
{
    table[0xd0] = Operation { handler: Handler::Bne, address_method: AddressMode::Immediate, ticks: 2 };
    table[0xd1] = Operation { handler: Handler::Cmp, address_method: AddressMode::IndirectY, ticks: 5 };
    table[0xd2] = Operation { handler: Handler::Panic, address_method: AddressMode::Null, ticks: 2 };
    table[0xd3] = Operation { handler: Handler::Panic, address_method: AddressMode::Null, ticks: 2 };
    table[0xd4] = Operation { handler: Handler::Nop, address_method: AddressMode::ZeroX, ticks: 4 };
    table[0xd5] = Operation { handler: Handler::Cmp, address_method: AddressMode::ZeroX, ticks: 4 };
    table[0xd6] = Operation { handler: Handler::Dec, address_method: AddressMode::ZeroX, ticks: 6 };
    table[0xd7] = Operation { handler: Handler::Panic, address_method: AddressMode::Null, ticks: 2 };
    table[0xd8] = Operation { handler: Handler::Cld, address_method: AddressMode::Null, ticks: 2 };
    table[0xd9] = Operation { handler: Handler::Cmp, address_method: AddressMode::AbsoluteY, ticks: 4 };
    table[0xda] = Operation { handler: Handler::Panic, address_method: AddressMode::Null, ticks: 2 };
    table[0xdb] = Operation { handler: Handler::Panic, address_method: AddressMode::Null, ticks: 2 };
    table[0xdc] = Operation { handler: Handler::Nop, address_method: AddressMode::AbsoluteX, ticks: 4 };
    table[0xdd] = Operation { handler: Handler::Cmp, address_method: AddressMode::AbsoluteX, ticks: 4 };
    table[0xde] = Operation { handler: Handler::Dec, address_method: AddressMode::AbsoluteXNoOverflow, ticks: 7 };
    table[0xdf] = Operation { handler: Handler::Panic, address_method: AddressMode::Null, ticks: 2 };
}

/// Fills in the sixteen entries from 0xe0 to 0xef.
fn fill_row_e(table: &mut [Operation; 256])
    requires
        rows_decoded(old(table)@, 14),
    ensures
        rows_decoded(final(table)@, 15),
{
    table[0xe0] = Operation { handler: Handler::Cpx, address_method: AddressMode::Immediate, ticks: 2 };
    table[0xe1] = Operation { handler: Handler::Sbc, address_method: AddressMode::IndirectX, ticks: 6 };
    table[0xe2] = Operation { handler: Handler::Nop, address_method: AddressMode::Immediate, ticks: 2 };
    table[0xe3] = Operation { handler: Handler::Isc, address_method: AddressMode::IndirectX, ticks: 8 };
    table[0xe4] = Operation { handler: Handler::Cpx, address_method: AddressMode::Zero, ticks: 3 };
    table[0xe5] = Operation { handler: Handler::Sbc, address_method: AddressMode::Zero, ticks: 3 };
    table[0xe6] = Operation { handler: Handler::Inc, address_method: AddressMode::Zero, ticks: 5 };
    table[0xe7] = Operation { handler: Handler::Isc, address_method: AddressMode::Zero, ticks: 5 };
    table[0xe8] = Operation { handler: Handler::Inx, address_method: AddressMode::Null, ticks: 2 };
    table[0xe9] = Operation { handler: Handler::Sbc, address_method: AddressMode::Immediate, ticks: 2 };
    table[0xea] = Operation { handler: Handler::Nop, address_method: AddressMode::Null, ticks: 2 };
    table[0xeb] = Operation { handler: Handler::Panic, address_method: AddressMode::Null, ticks: 2 };
    table[0xec] = Operation { handler: Handler::Cpx, address_method: AddressMode::Absolute, ticks: 4 };
    table[0xed] = Operation { handler: Handler::Sbc, address_method: AddressMode::Absolute, ticks: 4 };
    table[0xee] = Operation { handler: Handler::Inc, address_method: AddressMode::Absolute, ticks: 6 };
    table[0xef] = Operation { handler: Handler::Isc, address_method: AddressMode::Absolute, ticks: 6 };
}

/// Fills in the sixteen entries from 0xf0 to 0xff.
fn fill_row_f(table: &mut [Operation; 256])
    requires
        rows_decoded(old(table)@, 15),
    ensures
        rows_decoded(final(table)@, 16),
{
    table[0xf0] = Operation { handler: Handler::Beq, address_method: AddressMode::Immediate, ticks: 2 };
    table[0xf1] = Operation { handler: Handler::Sbc, address_method: AddressMode::IndirectY, ticks: 5 };
    table[0xf2] = Operation { handler: Handler::Panic, address_method: AddressMode::Null, ticks: 2 };
    table[0xf3] = Operation { handler: Handler::Isc, address_method: AddressMode::IndirectYNoOverflow, ticks: 8 };
    table[0xf4] = Operation { handler: Handler::Nop, address_method: AddressMode::ZeroX, ticks: 4 };
    table[0xf5] = Operation { handler: Handler::Sbc, address_method: AddressMode::ZeroX, ticks: 4 };
    table[0xf6] = Operation { handler: Handler::Inc, address_method: AddressMode::ZeroX, ticks: 6 };
    table[0xf7] = Operation { handler: Handler::Isc, address_method: AddressMode::ZeroX, ticks: 6 };
    table[0xf8] = Operation { handler: Handler::Sed, address_method: AddressMode::Null, ticks: 2 };
    table[0xf9] = Operation { handler: Handler::Sbc, address_method: AddressMode::AbsoluteY, ticks: 4 };
    table[0xfa] = Operation { handler: Handler::Nop, address_method: AddressMode::Null, ticks: 2 };
    table[0xfb] = Operation { handler: Handler::Isc, address_method: AddressMode::AbsoluteYNoOverflow, ticks: 7 };
    table[0xfc] = Operation { handler: Handler::Nop, address_method: AddressMode::AbsoluteX, ticks: 4 };
    table[0xfd] = Operation { handler: Handler::Sbc, address_method: AddressMode::AbsoluteX, ticks: 4 };
    table[0xfe] = Operation { handler: Handler::Inc, address_method: AddressMode::AbsoluteXNoOverflow, ticks: 7 };
    table[0xff] = Operation { handler: Handler::Isc, address_method: AddressMode::AbsoluteXNoOverflow, ticks: 7 };
}

/// The table of all 256 decodings, indexed by opcode byte.
pub fn get_op_codes() -> (table: [Operation; 256])
    ensures
        forall|opcode: u8| #[trigger] table@[opcode as int] == operation_of(opcode),
{
    let panic_operation = Operation {
        handler: Handler::Panic,
        address_method: AddressMode::Null,
        ticks: 2,
    };
    let mut op_code_lookup: [Operation; 256] = [panic_operation; 256];
    fill_row_0(&mut op_code_lookup);
    fill_row_1(&mut op_code_lookup);
    fill_row_2(&mut op_code_lookup);
    fill_row_3(&mut op_code_lookup);
    fill_row_4(&mut op_code_lookup);
    fill_row_5(&mut op_code_lookup);
    fill_row_6(&mut op_code_lookup);
    fill_row_7(&mut op_code_lookup);
    fill_row_8(&mut op_code_lookup);
    fill_row_9(&mut op_code_lookup);
    fill_row_a(&mut op_code_lookup);
    fill_row_b(&mut op_code_lookup);
    fill_row_c(&mut op_code_lookup);
    fill_row_d(&mut op_code_lookup);
    fill_row_e(&mut op_code_lookup);
    fill_row_f(&mut op_code_lookup);
    op_code_lookup
}

/// Every opcode costs between two and eight cycles before penalties.
pub proof fn lemma_base_ticks_bounds(opcode: u8)
    ensures
        2 <= base_ticks_of(opcode) <= 8,
{
}

} // verus!
