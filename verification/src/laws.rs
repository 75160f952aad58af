//! What holds of every instruction and of every step of the machine, proved
//! from the definitions of the instruction set.
use crate::isa::{
    alu, bit_set, cost, decoding_is_well_formed, keeps_flags, sub8, AluOp, IllegalOpcode, Instr,
    Machine, Place, Table, PREFIX,
};
use crate::registers::{
    flag_byte, flag_byte_reads, flag_update_reads, has_flag, is_flag, with_flag, CARRY,
    HALF_CARRY, SUBTRACT, ZERO,
};
use vstd::prelude::*;

verus! {

/// An instruction that is documented to leave the flags alone leaves `F`
/// bit-identical: the 16-bit increments and decrements, the loads, and the
/// bit clear and bit set of the extended table.
pub proof fn flags_are_kept(m: Machine, instr: Instr)
    requires
        instr.well_formed(),
        keeps_flags(instr),
    ensures
        m.run(instr).reg.f == m.reg.f,
{
    reveal(Machine::apply);
}

/// A step whose opcode selects an instruction that is documented to leave
/// the flags alone leaves `F` bit-identical.
pub proof fn step_keeps_flags(m: Machine)
    requires
        m.selected() matches Some(instr) && keeps_flags(instr),
    ensures
        m.step().reg.f == m.reg.f,
{
    decoding_is_well_formed(m.opcode());
    decoding_is_well_formed(m.skip(1).opcode());
    if m.opcode() == PREFIX {
        flags_are_kept(m.skip(1).skip(1), m.selected()->0);
    } else {
        flags_are_kept(m.skip(1), m.selected()->0);
    }
}

/// The flags of the 8-bit arithmetic and logic group: Zero tells whether the
/// result is zero, Subtract is set by subtract, subtract-with-carry and
/// compare and cleared by the other operations, and compare leaves the
/// accumulator as it was, its result being that of the subtraction.
pub proof fn alu_sets_zero_and_subtract(op: AluOp, a: u8, b: u8, carry: bool)
    ensures
        op is Cp ==> alu(op, a, b, carry).0 == a,
        has_flag(alu(op, a, b, carry).1, ZERO) == (if op is Cp {
            sub8(a, b, false).0 == 0
        } else {
            alu(op, a, b, carry).0 == 0
        }),
        has_flag(alu(op, a, b, carry).1, SUBTRACT) == (op is Sub || op is Sbc || op is Cp),
{
    assert forall|z: bool, n: bool, h: bool, c: bool|
        has_flag(#[trigger] flag_byte(z, n, h, c), ZERO) == z && has_flag(
            flag_byte(z, n, h, c),
            SUBTRACT,
        ) == n by {
        flag_byte_reads(z, n, h, c);
    }
}

/// The bit test never changes the value it tests. It sets Zero exactly if the
/// tested bit is clear, always sets Half-Carry and always clears Subtract,
/// whatever the tested bit holds, and it leaves Carry. Nothing but `F` and
/// the cycle counter changes.
pub proof fn bit_test_keeps_value(m: Machine, bit: u8, place: Place)
    requires
        place.well_formed(),
    ensures
        m.run(Instr::TestBit(bit, place)).get(place) == m.get(place),
        m.run(Instr::TestBit(bit, place)).reg.with_f(m.reg.f) == m.reg,
        m.run(Instr::TestBit(bit, place)).bus.mem == m.bus.mem,
        m.run(Instr::TestBit(bit, place)).bus.cart == m.bus.cart,
        m.run(Instr::TestBit(bit, place)).pc == m.pc,
        has_flag(m.run(Instr::TestBit(bit, place)).reg.f, ZERO) == !bit_set(m.get(place), bit),
        has_flag(m.run(Instr::TestBit(bit, place)).reg.f, HALF_CARRY),
        !has_flag(m.run(Instr::TestBit(bit, place)).reg.f, SUBTRACT),
        has_flag(m.run(Instr::TestBit(bit, place)).reg.f, CARRY) == has_flag(m.reg.f, CARRY),
{
    reveal(Machine::apply);
    let zero = with_flag(m.reg.f, ZERO, !bit_set(m.get(place), bit));
    let cleared = with_flag(zero, SUBTRACT, false);
    flag_update_reads(m.reg.f, ZERO, !bit_set(m.get(place), bit));
    flag_update_reads(zero, SUBTRACT, false);
    flag_update_reads(cleared, HALF_CARRY, true);
}

/// A step onto an opcode without an entry reports that byte and the table
/// it was looked up in: the main table for the byte at the program counter,
/// the extended table for the byte behind the prefix. Nothing but the program
/// counter changes, which stands behind the bytes fetched. A step onto an
/// opcode with an entry reports success.
pub proof fn illegal_opcode_is_reported(m: Machine)
    ensures
        m.outcome() is Err <==> m.selected() is None,
        m.outcome() matches Err(e) ==> {
            &&& m.opcode() != PREFIX ==> e == (IllegalOpcode {
                opcode: m.opcode(),
                table: Table::Main,
            }) && m.step() == m.skip(1)
            &&& m.opcode() == PREFIX ==> e == (IllegalOpcode {
                opcode: m.skip(1).opcode(),
                table: Table::Extended,
            }) && m.step() == m.skip(1).skip(1)
        },
{
}

/// Every instruction counts its fixed cost once, and that cost is 4, 8, 12
/// or 16 cycles.
pub proof fn cost_is_counted_once(m: Machine, instr: Instr)
    requires
        m.bus.cycles + 16 <= usize::MAX,
    ensures
        m.run(instr).bus.cycles == m.bus.cycles + cost(instr),
        cost(instr) == 4 || cost(instr) == 8 || cost(instr) == 12 || cost(instr) == 16,
{
    reveal(Machine::apply);
}

/// No instruction sets a bit of the low nibble of `F`: where the nibble is
/// zero before an instruction, it is zero after it.
pub proof fn low_nibble_stays_clear(m: Machine, instr: Instr)
    requires
        instr.well_formed(),
        m.reg.f & 0x0f == 0,
    ensures
        m.run(instr).reg.f & 0x0f == 0,
{
    reveal(Machine::apply);
    assert forall|z: bool, n: bool, h: bool, c: bool| #[trigger]
        flag_byte(z, n, h, c) & 0x0f == 0 by {
        flag_byte_reads(z, n, h, c);
    }
    assert forall|f: u8, mask: u8, on: bool| is_flag(mask) implies #[trigger] with_flag(
        f,
        mask,
        on,
    ) & 0x0f == f & 0x0f by {
        flag_update_reads(f, mask, on);
    }
}

} // verus!
