//! The CPU engine: fetches one opcode, selects its handler by exact match and
//! executes it. One call of `step` is one instruction.
use crate::bus::Bus;
use crate::cartridge::Cartridge;
use crate::isa::{
    add8, decode_extended, decode_main, report, sub8, swapped, wrap16, AluOp, IllegalOpcode, Instr,
    Machine, Operand, Place, Table, PREFIX,
};
use crate::memory::Memory;
use crate::registers::{
    carries_after_clear, flag_byte, flag_byte_from_updates, with_flag, zero_after_pattern,
    ByteReg, Registers, WordReg, CARRY, HALF_CARRY, SUBTRACT, ZERO,
};
use crate::tables::{extended_table, main_table};
use crate::types::{zeros, Size};
use vstd::prelude::*;

verus! {

/// Address at which execution starts.
pub const ENTRY_POINT: u16 = 0x100;

/// Largest cost of one instruction, in cycles.
pub const MAX_COST: usize = 16;

/// One machine: the register file, the bus and the program counter.
pub struct SM83 {
    pub reg: Registers,
    pub bus: Bus,
    pub pc: u16,
}

impl View for SM83 {
    type V = Machine;

    open spec fn view(&self) -> Machine {
        Machine { reg: self.reg, bus: self.bus@, pc: self.pc }
    }
}

impl SM83 {
    /// Whether the cycle counter can take one more instruction.
    pub open spec fn can_step(&self) -> bool {
        self.bus.cycles <= usize::MAX - MAX_COST
    }

    /// A machine with zeroed registers, the default bus, and the program
    /// counter at the entry point.
    pub fn new() -> (cpu: Self)
        ensures
            cpu.reg == Registers::default_value(),
            cpu.pc == ENTRY_POINT,
            cpu@.bus.mem == zeros(Memory::DEFAULT_SIZE as nat),
            cpu@.bus.cart == Cartridge::default_view(),
            cpu@.bus.cycles == 0,
            cpu.can_step(),
    {
        Self { reg: Registers::new(), bus: Bus::new(None), pc: ENTRY_POINT }
    }

    /// Executes exactly one instruction: fetches the opcode at the program
    /// counter, looks it up and runs the instruction it selects. An opcode
    /// without an entry is reported with the table it was looked up in; the
    /// machine then holds the state of `Machine::step`, the program counter
    /// behind the bytes fetched and nothing else changed.
    pub fn step(&mut self) -> (done: Result<(), IllegalOpcode>)
        requires
            old(self).can_step(),
        ensures
            final(self)@ == old(self)@.step(),
            done == old(self)@.outcome(),
    {
        let op = self.fetch();
        if op == PREFIX {
            self.prefix_cb()
        } else {
            self.run_instruction(op)
        }
    }

    /// Runs the instruction that `op` selects in the main table. The program
    /// counter stands behind `op`. An opcode without an entry is reported
    /// and changes nothing.
    fn run_instruction(&mut self, op: u8) -> (done: Result<(), IllegalOpcode>)
        requires
            old(self).can_step(),
        ensures
            final(self)@ == old(self)@.after(decode_main(op)),
            done == report(decode_main(op), op, Table::Main),
    {
        match main_table(op) {
            Some(instr) => {
                self.execute(instr);
                Ok(())
            },
            None => Err(IllegalOpcode { opcode: op, table: Table::Main }),
        }
    }

    /// Fetches the byte behind the prefix and runs the instruction that it
    /// selects in the extended table. An opcode without an entry is reported
    /// and changes nothing but the program counter.
    fn prefix_cb(&mut self) -> (done: Result<(), IllegalOpcode>)
        requires
            old(self).can_step(),
        ensures
            final(self)@ == old(self)@.skip(1).after(decode_extended(old(self)@.opcode())),
            done == report(
                decode_extended(old(self)@.opcode()),
                old(self)@.opcode(),
                Table::Extended,
            ),
    {
        let op = self.fetch();
        match extended_table(op) {
            Some(instr) => {
                self.execute(instr);
                Ok(())
            },
            None => Err(IllegalOpcode { opcode: op, table: Table::Extended }),
        }
    }

    /// Runs one decoded instruction: hands it to the handler of its form
    /// together with its fixed cost.
    fn execute(&mut self, instr: Instr)
        requires
            instr.well_formed(),
            old(self).can_step(),
        ensures
            final(self)@ == old(self)@.run(instr),
    {
        proof {
            reveal(Machine::apply);
        }
        match instr {
            Instr::Alu(op, src) => self.execute_alu(op, src),
            Instr::Inc(place) => self.execute_inc(place),
            Instr::Dec(place) => self.execute_dec(place),
            Instr::IncWord(reg) => self.inc_rr(reg, 8),
            Instr::DecWord(reg) => self.dec_rr(reg, 8),
            Instr::AddHl(reg) => self.add_hl_rr(reg, 8),
            Instr::AddSp => self.add_sp_n(16),
            Instr::Load(dst, src) => self.execute_load(dst, src),
            Instr::LoadAStep(up) => self.ld_a_hl_step(up, 8),
            Instr::StoreAStep(up) => self.ld_hl_step_a(up, 8),
            Instr::TestBit(bit, place) => self.execute_bit(bit, place),
            Instr::ResetBit(bit, place) => self.execute_res(bit, place),
            Instr::SetBit(bit, place) => self.execute_set(bit, place),
            Instr::Swap(place) => self.execute_swap(place),
            Instr::Rl(place) => self.execute_rl(place),
        }
    }

    /// Runs an 8-bit increment of a register or of the byte at `HL`.
    fn execute_inc(&mut self, place: Place)
        requires
            old(self).can_step(),
        ensures
            final(self)@ == old(self)@.run(Instr::Inc(place)),
    {
        proof {
            reveal(Machine::apply);
        }
        match place {
            Place::Reg(reg) => self.inc_r(reg, 4),
            Place::AtHl => self.inc_hl(12),
        }
    }

    /// Runs an 8-bit decrement of a register or of the byte at `HL`.
    fn execute_dec(&mut self, place: Place)
        requires
            old(self).can_step(),
        ensures
            final(self)@ == old(self)@.run(Instr::Dec(place)),
    {
        proof {
            reveal(Machine::apply);
        }
        match place {
            Place::Reg(reg) => self.dec_r(reg, 4),
            Place::AtHl => self.dec_hl(12),
        }
    }

    /// Runs a bit test on a register or on the byte at `HL`.
    fn execute_bit(&mut self, bit: u8, place: Place)
        requires
            bit < 8,
            old(self).can_step(),
        ensures
            final(self)@ == old(self)@.run(Instr::TestBit(bit, place)),
    {
        proof {
            reveal(Machine::apply);
        }
        match place {
            Place::Reg(reg) => self.bit_r(bit, reg, 8),
            Place::AtHl => self.bit_hl(bit, 12),
        }
    }

    /// Runs a bit clear on a register or on the byte at `HL`.
    fn execute_res(&mut self, bit: u8, place: Place)
        requires
            bit < 8,
            old(self).can_step(),
        ensures
            final(self)@ == old(self)@.run(Instr::ResetBit(bit, place)),
    {
        proof {
            reveal(Machine::apply);
        }
        match place {
            Place::Reg(reg) => self.res_r(bit, reg, 8),
            Place::AtHl => self.res_hl(bit, 16),
        }
    }

    /// Runs a bit set on a register or on the byte at `HL`.
    fn execute_set(&mut self, bit: u8, place: Place)
        requires
            bit < 8,
            old(self).can_step(),
        ensures
            final(self)@ == old(self)@.run(Instr::SetBit(bit, place)),
    {
        proof {
            reveal(Machine::apply);
        }
        match place {
            Place::Reg(reg) => self.set_r(bit, reg, 8),
            Place::AtHl => self.set_hl(bit, 16),
        }
    }

    /// Runs a nibble swap of a register or of the byte at `HL`.
    fn execute_swap(&mut self, place: Place)
        requires
            old(self).can_step(),
        ensures
            final(self)@ == old(self)@.run(Instr::Swap(place)),
    {
        proof {
            reveal(Machine::apply);
        }
        match place {
            Place::Reg(reg) => self.swap_r(reg, 8),
            Place::AtHl => self.swap_hl(16),
        }
    }

    /// Runs a rotate left through Carry of a register or of the byte at `HL`.
    fn execute_rl(&mut self, place: Place)
        requires
            old(self).can_step(),
        ensures
            final(self)@ == old(self)@.run(Instr::Rl(place)),
    {
        proof {
            reveal(Machine::apply);
        }
        match place {
            Place::Reg(reg) => self.rl_r(reg, 8),
            Place::AtHl => self.rl_hl(16),
        }
    }

    /// Runs one load between a place and an operand.
    fn execute_load(&mut self, dst: Place, src: Operand)
        requires
            Instr::Load(dst, src).well_formed(),
            old(self).can_step(),
        ensures
            final(self)@ == old(self)@.run(Instr::Load(dst, src)),
    {
        proof {
            reveal(Machine::apply);
        }
        match dst {
            Place::Reg(reg) => match src {
                Operand::Reg(from) => self.ld_r_r(reg, from, 4),
                Operand::AtHl => self.ld_r_hl(reg, 8),
                Operand::Imm => self.ld_r_n(reg, 8),
            },
            Place::AtHl => match src {
                Operand::Reg(from) => self.ld_hl_r(from, 8),
                Operand::AtHl => unreached(),
                Operand::Imm => self.ld_hl_n(12),
            },
        }
    }

    /// Runs one instruction of the 8-bit arithmetic and logic group. Where
    /// the operand is `A` itself and the result does not depend on what `A`
    /// holds, the handler of that special case runs.
    fn execute_alu(&mut self, op: AluOp, src: Operand)
        requires
            old(self).can_step(),
        ensures
            final(self)@ == old(self)@.run(Instr::Alu(op, src)),
    {
        proof {
            reveal(Machine::apply);
        }
        match src {
            Operand::Reg(reg) => match op {
                AluOp::Add => self.add_r(reg, 4),
                AluOp::Adc => self.adc_r(reg, 4),
                AluOp::Sub => match reg {
                    ByteReg::A => self.sub_r_a(4),
                    _ => self.sub_r(reg, 4),
                },
                AluOp::Sbc => match reg {
                    ByteReg::A => self.sbc_r_a(4),
                    _ => self.sbc_r(reg, 4),
                },
                AluOp::And => self.and_r(reg, 4),
                AluOp::Xor => match reg {
                    ByteReg::A => self.xor_r_a(4),
                    _ => self.xor_r(reg, 4),
                },
                AluOp::Or => self.or_r(reg, 4),
                AluOp::Cp => match reg {
                    ByteReg::A => self.cp_r_a(4),
                    _ => self.cp_r(reg, 4),
                },
            },
            Operand::AtHl => match op {
                AluOp::Add => self.add_hl(8),
                AluOp::Adc => self.adc_hl(8),
                AluOp::Sub => self.sub_hl(8),
                AluOp::Sbc => self.sbc_hl(8),
                AluOp::And => self.and_hl(8),
                AluOp::Xor => self.xor_hl(8),
                AluOp::Or => self.or_hl(8),
                AluOp::Cp => self.cp_hl(8),
            },
            Operand::Imm => match op {
                AluOp::Add => self.add_n(8),
                AluOp::Adc => self.adc_n(8),
                AluOp::Sub => self.sub_n(8),
                AluOp::Sbc => self.sbc_n(8),
                AluOp::And => self.and_n(8),
                AluOp::Xor => self.xor_n(8),
                AluOp::Or => self.or_n(8),
                AluOp::Cp => self.cp_n(8),
            },
        }
    }

    /// Reads the byte at `addr` through the bus.
    fn read_byte(&self, addr: u16) -> (value: u8)
        ensures
            value == self@.read8(addr),
    {
        self.bus.read(Size::Byte, addr as usize) as u8
    }

    /// Writes `value` at `addr` through the bus.
    fn write_byte(&mut self, addr: u16, value: u8)
        ensures
            final(self)@ == old(self)@.write8(addr, value),
            final(self).bus.cycles == old(self).bus.cycles,
    {
        self.bus.write(Size::Byte, addr as usize, value as usize);
    }

    /// Reads the byte at the program counter and moves the counter past it.
    fn fetch(&mut self) -> (value: u8)
        ensures
            value == old(self)@.read8(old(self).pc),
            final(self)@ == old(self)@.skip(1),
            final(self).bus.cycles == old(self).bus.cycles,
    {
        let value = self.read_byte(self.pc);
        self.pc = self.pc.wrapping_add(1);
        value
    }

    /// Reads the value at the address held in `HL`.
    fn read_hl(&self) -> (value: u8)
        ensures
            value == self@.get(Place::AtHl),
    {
        self.read_byte(self.reg.get_word(WordReg::HL))
    }

    /// Writes `value` at the address held in `HL`.
    fn write_hl(&mut self, value: u8)
        ensures
            final(self)@ == old(self)@.put(Place::AtHl, value),
            final(self).bus.cycles == old(self).bus.cycles,
    {
        let hl = self.reg.get_word(WordReg::HL);
        self.write_byte(hl, value);
    }

    /// Counts the cost of the instruction.
    fn tick(&mut self, cycles: usize)
        requires
            old(self).bus.cycles + cycles <= usize::MAX,
        ensures
            final(self)@ == old(self)@.tick(cycles as int),
    {
        self.bus.tick(cycles);
    }

    /// Sets all four flags from a result and the intermediates of its
    /// computation: `half` before the cut to four bits, `wide` before the cut
    /// to eight.
    fn set_computed(&mut self, result: u8, subtract: bool, half: u16, wide: u16)
        ensures
            final(self)@ == old(self)@.flagged(
                flag_byte(result == 0, subtract, half > 0xf, wide > 0xff),
            ),
            final(self).bus.cycles == old(self).bus.cycles,
    {
        self.reg.set_flags(0);
        self.reg.check_zero(result);
        self.reg.subtract(subtract);
        self.reg.check_half_carry(half);
        self.reg.check_carry(wide);
        proof {
            flag_byte_from_updates(result == 0, subtract, half > 0xf, wide > 0xff);
        }
    }

    /// Sets the flags of an instruction whose flags are a fixed pattern but
    /// for Zero, which follows the result.
    fn set_pattern(&mut self, pattern: u8, result: u8)
        requires
            pattern == 0 || pattern == HALF_CARRY,
        ensures
            final(self)@ == old(self)@.flagged(
                flag_byte(result == 0, false, pattern == HALF_CARRY, false),
            ),
            final(self).bus.cycles == old(self).bus.cycles,
    {
        self.reg.set_flags(pattern);
        self.reg.check_zero(result);
        proof {
            zero_after_pattern(result == 0);
        }
    }

    /// Adds `b` and the carry-in to `A`, and sets the flags from the sums
    /// before they are cut.
    fn add_to_a(&mut self, b: u8, carry_in: bool)
        ensures
            final(self)@ == old(self)@.with_reg(
                Registers {
                    a: add8(old(self).reg.a, b, carry_in).0,
                    f: add8(old(self).reg.a, b, carry_in).1,
                    ..old(self).reg
                },
            ),
            final(self).bus.cycles == old(self).bus.cycles,
    {
        let a = self.reg.a;
        let c: u16 = if carry_in { 1 } else { 0 };
        let half: u16 = (a % 16) as u16 + (b % 16) as u16 + c;
        let wide: u16 = a as u16 + b as u16 + c;
        let result = (wide % 256) as u8;
        self.reg.set_byte(ByteReg::A, result);
        self.set_computed(result, false, half, wide);
    }

    /// Subtracts `b` and the carry-in from `A`, and sets the flags from the
    /// differences before they are cut. The result is stored only if
    /// `store` holds.
    fn sub_from_a(&mut self, b: u8, carry_in: bool, store: bool)
        ensures
            final(self)@ == old(self)@.with_reg(
                Registers {
                    a: if store {
                        sub8(old(self).reg.a, b, carry_in).0
                    } else {
                        old(self).reg.a
                    },
                    f: sub8(old(self).reg.a, b, carry_in).1,
                    ..old(self).reg
                },
            ),
            final(self).bus.cycles == old(self).bus.cycles,
    {
        let a = self.reg.a;
        let c: u16 = if carry_in { 1 } else { 0 };
        let half: u16 = ((a % 16) as u16).wrapping_sub((b % 16) as u16).wrapping_sub(c);
        let wide: u16 = (a as u16).wrapping_sub(b as u16).wrapping_sub(c);
        let result = (wide % 256) as u8;
        if store {
            self.reg.set_byte(ByteReg::A, result);
        }
        self.set_computed(result, true, half, wide);
    }

    /// Stores `result` in `A` and sets the flags of a logic operation: Zero
    /// from the result, the rest as `pattern` says.
    fn logic_to_a(&mut self, result: u8, pattern: u8)
        requires
            pattern == 0 || pattern == HALF_CARRY,
        ensures
            final(self)@ == old(self)@.with_reg(
                Registers {
                    a: result,
                    f: flag_byte(result == 0, false, pattern == HALF_CARRY, false),
                    ..old(self).reg
                },
            ),
            final(self).bus.cycles == old(self).bus.cycles,
    {
        self.reg.set_byte(ByteReg::A, result);
        self.set_pattern(pattern, result);
    }

    /// `ADC A, r`.
    fn adc_r(&mut self, reg: ByteReg, cycles: usize)
        requires
            old(self).bus.cycles + cycles <= usize::MAX,
        ensures
            final(self)@ == old(self)@.alu_step(AluOp::Adc, Operand::Reg(reg)).tick(cycles as int),
    {
        let b = self.reg.get_byte(reg);
        let carry = self.reg.get_carry();
        self.add_to_a(b, carry);
        self.tick(cycles);
    }

    /// `ADC A, (HL)`.
    fn adc_hl(&mut self, cycles: usize)
        requires
            old(self).bus.cycles + cycles <= usize::MAX,
        ensures
            final(self)@ == old(self)@.alu_step(AluOp::Adc, Operand::AtHl).tick(cycles as int),
    {
        let b = self.read_hl();
        let carry = self.reg.get_carry();
        self.add_to_a(b, carry);
        self.tick(cycles);
    }

    /// `ADC A, n`.
    fn adc_n(&mut self, cycles: usize)
        requires
            old(self).bus.cycles + cycles <= usize::MAX,
        ensures
            final(self)@ == old(self)@.alu_step(AluOp::Adc, Operand::Imm).tick(cycles as int),
    {
        let b = self.fetch();
        let carry = self.reg.get_carry();
        self.add_to_a(b, carry);
        self.tick(cycles);
    }

    /// `ADD A, r`.
    fn add_r(&mut self, reg: ByteReg, cycles: usize)
        requires
            old(self).bus.cycles + cycles <= usize::MAX,
        ensures
            final(self)@ == old(self)@.alu_step(AluOp::Add, Operand::Reg(reg)).tick(cycles as int),
    {
        let b = self.reg.get_byte(reg);
        self.add_to_a(b, false);
        self.tick(cycles);
    }

    /// `ADD A, (HL)`.
    fn add_hl(&mut self, cycles: usize)
        requires
            old(self).bus.cycles + cycles <= usize::MAX,
        ensures
            final(self)@ == old(self)@.alu_step(AluOp::Add, Operand::AtHl).tick(cycles as int),
    {
        let b = self.read_hl();
        self.add_to_a(b, false);
        self.tick(cycles);
    }

    /// `ADD A, n`.
    fn add_n(&mut self, cycles: usize)
        requires
            old(self).bus.cycles + cycles <= usize::MAX,
        ensures
            final(self)@ == old(self)@.alu_step(AluOp::Add, Operand::Imm).tick(cycles as int),
    {
        let b = self.fetch();
        self.add_to_a(b, false);
        self.tick(cycles);
    }

    /// `AND A, r`.
    fn and_r(&mut self, reg: ByteReg, cycles: usize)
        requires
            old(self).bus.cycles + cycles <= usize::MAX,
        ensures
            final(self)@ == old(self)@.alu_step(AluOp::And, Operand::Reg(reg)).tick(cycles as int),
    {
        let b = self.reg.get_byte(reg);
        self.logic_to_a(self.reg.a & b, HALF_CARRY);
        self.tick(cycles);
    }

    /// `AND A, (HL)`.
    fn and_hl(&mut self, cycles: usize)
        requires
            old(self).bus.cycles + cycles <= usize::MAX,
        ensures
            final(self)@ == old(self)@.alu_step(AluOp::And, Operand::AtHl).tick(cycles as int),
    {
        let b = self.read_hl();
        self.logic_to_a(self.reg.a & b, HALF_CARRY);
        self.tick(cycles);
    }

    /// `AND A, n`.
    fn and_n(&mut self, cycles: usize)
        requires
            old(self).bus.cycles + cycles <= usize::MAX,
        ensures
            final(self)@ == old(self)@.alu_step(AluOp::And, Operand::Imm).tick(cycles as int),
    {
        let b = self.fetch();
        self.logic_to_a(self.reg.a & b, HALF_CARRY);
        self.tick(cycles);
    }

    /// `CP A, r`.
    fn cp_r(&mut self, reg: ByteReg, cycles: usize)
        requires
            old(self).bus.cycles + cycles <= usize::MAX,
        ensures
            final(self)@ == old(self)@.alu_step(AluOp::Cp, Operand::Reg(reg)).tick(cycles as int),
    {
        let b = self.reg.get_byte(reg);
        self.sub_from_a(b, false, false);
        self.tick(cycles);
    }

    /// `CP A, (HL)`.
    fn cp_hl(&mut self, cycles: usize)
        requires
            old(self).bus.cycles + cycles <= usize::MAX,
        ensures
            final(self)@ == old(self)@.alu_step(AluOp::Cp, Operand::AtHl).tick(cycles as int),
    {
        let b = self.read_hl();
        self.sub_from_a(b, false, false);
        self.tick(cycles);
    }

    /// `CP A, n`.
    fn cp_n(&mut self, cycles: usize)
        requires
            old(self).bus.cycles + cycles <= usize::MAX,
        ensures
            final(self)@ == old(self)@.alu_step(AluOp::Cp, Operand::Imm).tick(cycles as int),
    {
        let b = self.fetch();
        self.sub_from_a(b, false, false);
        self.tick(cycles);
    }

    /// `OR A, r`.
    fn or_r(&mut self, reg: ByteReg, cycles: usize)
        requires
            old(self).bus.cycles + cycles <= usize::MAX,
        ensures
            final(self)@ == old(self)@.alu_step(AluOp::Or, Operand::Reg(reg)).tick(cycles as int),
    {
        let b = self.reg.get_byte(reg);
        self.logic_to_a(self.reg.a | b, 0);
        self.tick(cycles);
    }

    /// `OR A, (HL)`.
    fn or_hl(&mut self, cycles: usize)
        requires
            old(self).bus.cycles + cycles <= usize::MAX,
        ensures
            final(self)@ == old(self)@.alu_step(AluOp::Or, Operand::AtHl).tick(cycles as int),
    {
        let b = self.read_hl();
        self.logic_to_a(self.reg.a | b, 0);
        self.tick(cycles);
    }

    /// `OR A, n`.
    fn or_n(&mut self, cycles: usize)
        requires
            old(self).bus.cycles + cycles <= usize::MAX,
        ensures
            final(self)@ == old(self)@.alu_step(AluOp::Or, Operand::Imm).tick(cycles as int),
    {
        let b = self.fetch();
        self.logic_to_a(self.reg.a | b, 0);
        self.tick(cycles);
    }

    /// `SBC A, r`.
    fn sbc_r(&mut self, reg: ByteReg, cycles: usize)
        requires
            old(self).bus.cycles + cycles <= usize::MAX,
        ensures
            final(self)@ == old(self)@.alu_step(AluOp::Sbc, Operand::Reg(reg)).tick(cycles as int),
    {
        let b = self.reg.get_byte(reg);
        let carry = self.reg.get_carry();
        self.sub_from_a(b, carry, true);
        self.tick(cycles);
    }

    /// `SBC A, (HL)`.
    fn sbc_hl(&mut self, cycles: usize)
        requires
            old(self).bus.cycles + cycles <= usize::MAX,
        ensures
            final(self)@ == old(self)@.alu_step(AluOp::Sbc, Operand::AtHl).tick(cycles as int),
    {
        let b = self.read_hl();
        let carry = self.reg.get_carry();
        self.sub_from_a(b, carry, true);
        self.tick(cycles);
    }

    /// `SBC A, n`.
    fn sbc_n(&mut self, cycles: usize)
        requires
            old(self).bus.cycles + cycles <= usize::MAX,
        ensures
            final(self)@ == old(self)@.alu_step(AluOp::Sbc, Operand::Imm).tick(cycles as int),
    {
        let b = self.fetch();
        let carry = self.reg.get_carry();
        self.sub_from_a(b, carry, true);
        self.tick(cycles);
    }

    /// `SUB A, r`.
    fn sub_r(&mut self, reg: ByteReg, cycles: usize)
        requires
            old(self).bus.cycles + cycles <= usize::MAX,
        ensures
            final(self)@ == old(self)@.alu_step(AluOp::Sub, Operand::Reg(reg)).tick(cycles as int),
    {
        let b = self.reg.get_byte(reg);
        self.sub_from_a(b, false, true);
        self.tick(cycles);
    }

    /// `SUB A, (HL)`.
    fn sub_hl(&mut self, cycles: usize)
        requires
            old(self).bus.cycles + cycles <= usize::MAX,
        ensures
            final(self)@ == old(self)@.alu_step(AluOp::Sub, Operand::AtHl).tick(cycles as int),
    {
        let b = self.read_hl();
        self.sub_from_a(b, false, true);
        self.tick(cycles);
    }

    /// `SUB A, n`.
    fn sub_n(&mut self, cycles: usize)
        requires
            old(self).bus.cycles + cycles <= usize::MAX,
        ensures
            final(self)@ == old(self)@.alu_step(AluOp::Sub, Operand::Imm).tick(cycles as int),
    {
        let b = self.fetch();
        self.sub_from_a(b, false, true);
        self.tick(cycles);
    }

    /// `XOR A, r`.
    fn xor_r(&mut self, reg: ByteReg, cycles: usize)
        requires
            old(self).bus.cycles + cycles <= usize::MAX,
        ensures
            final(self)@ == old(self)@.alu_step(AluOp::Xor, Operand::Reg(reg)).tick(cycles as int),
    {
        let b = self.reg.get_byte(reg);
        self.logic_to_a(self.reg.a ^ b, 0);
        self.tick(cycles);
    }

    /// `XOR A, (HL)`.
    fn xor_hl(&mut self, cycles: usize)
        requires
            old(self).bus.cycles + cycles <= usize::MAX,
        ensures
            final(self)@ == old(self)@.alu_step(AluOp::Xor, Operand::AtHl).tick(cycles as int),
    {
        let b = self.read_hl();
        self.logic_to_a(self.reg.a ^ b, 0);
        self.tick(cycles);
    }

    /// `XOR A, n`.
    fn xor_n(&mut self, cycles: usize)
        requires
            old(self).bus.cycles + cycles <= usize::MAX,
        ensures
            final(self)@ == old(self)@.alu_step(AluOp::Xor, Operand::Imm).tick(cycles as int),
    {
        let b = self.fetch();
        self.logic_to_a(self.reg.a ^ b, 0);
        self.tick(cycles);
    }

    /// `CP A, A`: the difference is zero whatever `A` holds, so the flags are
    /// a fixed pattern.
    fn cp_r_a(&mut self, cycles: usize)
        requires
            old(self).bus.cycles + cycles <= usize::MAX,
        ensures
            final(self)@ == old(self)@.alu_step(AluOp::Cp, Operand::Reg(ByteReg::A)).tick(cycles as int),
    {
        self.reg.set_flags(ZERO + SUBTRACT);
        self.tick(cycles);
    }

    /// `SUB A, A`: the difference is zero whatever `A` holds.
    fn sub_r_a(&mut self, cycles: usize)
        requires
            old(self).bus.cycles + cycles <= usize::MAX,
        ensures
            final(self)@ == old(self)@.alu_step(AluOp::Sub, Operand::Reg(ByteReg::A)).tick(cycles as int),
    {
        self.reg.set_byte(ByteReg::A, 0);
        self.reg.set_flags(ZERO + SUBTRACT);
        self.tick(cycles);
    }

    /// `SBC A, A`: the difference is zero without a carry-in, and `0xFF`
    /// with a borrow out of both nibbles with one.
    fn sbc_r_a(&mut self, cycles: usize)
        requires
            old(self).bus.cycles + cycles <= usize::MAX,
        ensures
            final(self)@ == old(self)@.alu_step(AluOp::Sbc, Operand::Reg(ByteReg::A)).tick(cycles as int),
    {
        if self.reg.get_carry() {
            self.reg.set_byte(ByteReg::A, 0xff);
            self.reg.set_flags(SUBTRACT + HALF_CARRY + CARRY);
        } else {
            self.reg.set_byte(ByteReg::A, 0);
            self.reg.set_flags(ZERO + SUBTRACT);
        }
        self.tick(cycles);
    }

    /// `XOR A, A`: the result is zero whatever `A` holds.
    fn xor_r_a(&mut self, cycles: usize)
        requires
            old(self).bus.cycles + cycles <= usize::MAX,
        ensures
            final(self)@ == old(self)@.alu_step(AluOp::Xor, Operand::Reg(ByteReg::A)).tick(cycles as int),
    {
        let a = self.reg.a;
        assert(a ^ a == 0) by (bit_vector);
        self.reg.set_byte(ByteReg::A, 0);
        self.reg.set_flags(ZERO);
        self.tick(cycles);
    }

    /// Updates the flags of an 8-bit increment or decrement of `value`:
    /// Zero from the result, Subtract from the direction, Half-Carry from
    /// the low nibble before it is cut. Carry stays.
    fn set_stepped(&mut self, value: u8, up: bool)
        ensures
            final(self)@ == old(self)@.step_flagged(value, up),
            final(self).bus.cycles == old(self).bus.cycles,
    {
        let low = (value % 16) as u16;
        if up {
            self.reg.check_zero(value.wrapping_add(1));
            self.reg.subtract(false);
            self.reg.check_half_carry(low + 1);
        } else {
            self.reg.check_zero(value.wrapping_sub(1));
            self.reg.subtract(true);
            self.reg.check_half_carry(low.wrapping_sub(1));
        }
    }

    /// `DEC r`.
    fn dec_r(&mut self, reg: ByteReg, cycles: usize)
        requires
            old(self).bus.cycles + cycles <= usize::MAX,
        ensures
            final(self)@ == old(self)@.stepped(Place::Reg(reg), false).tick(cycles as int),
    {
        let value = self.reg.get_byte(reg);
        self.reg.set_byte(reg, value.wrapping_sub(1));
        self.set_stepped(value, false);
        self.tick(cycles);
    }

    /// `DEC (HL)`.
    fn dec_hl(&mut self, cycles: usize)
        requires
            old(self).bus.cycles + cycles <= usize::MAX,
        ensures
            final(self)@ == old(self)@.stepped(Place::AtHl, false).tick(cycles as int),
    {
        let value = self.read_hl();
        self.write_hl(value.wrapping_sub(1));
        self.set_stepped(value, false);
        self.tick(cycles);
    }

    /// `DEC rr`. The flags stay.
    fn dec_rr(&mut self, reg: WordReg, cycles: usize)
        requires
            old(self).bus.cycles + cycles <= usize::MAX,
        ensures
            final(self)@ == old(self)@.word_stepped(reg, false).tick(cycles as int),
    {
        let data = step_word(self.reg.get_word(reg), false);
        self.reg.set_word(reg, data);
        self.tick(cycles);
    }

    /// `INC r`.
    fn inc_r(&mut self, reg: ByteReg, cycles: usize)
        requires
            old(self).bus.cycles + cycles <= usize::MAX,
        ensures
            final(self)@ == old(self)@.stepped(Place::Reg(reg), true).tick(cycles as int),
    {
        let value = self.reg.get_byte(reg);
        self.reg.set_byte(reg, value.wrapping_add(1));
        self.set_stepped(value, true);
        self.tick(cycles);
    }

    /// `INC (HL)`.
    fn inc_hl(&mut self, cycles: usize)
        requires
            old(self).bus.cycles + cycles <= usize::MAX,
        ensures
            final(self)@ == old(self)@.stepped(Place::AtHl, true).tick(cycles as int),
    {
        let value = self.read_hl();
        self.write_hl(value.wrapping_add(1));
        self.set_stepped(value, true);
        self.tick(cycles);
    }

    /// `INC rr`. The flags stay.
    fn inc_rr(&mut self, reg: WordReg, cycles: usize)
        requires
            old(self).bus.cycles + cycles <= usize::MAX,
        ensures
            final(self)@ == old(self)@.word_stepped(reg, true).tick(cycles as int),
    {
        let data = step_word(self.reg.get_word(reg), true);
        self.reg.set_word(reg, data);
        self.tick(cycles);
    }

    /// `ADD HL, rr`. Half-Carry and Carry are the carries out of bit 11 and
    /// bit 15 of the addition; Zero stays.
    fn add_hl_rr(&mut self, reg: WordReg, cycles: usize)
        requires
            old(self).bus.cycles + cycles <= usize::MAX,
        ensures
            final(self)@ == old(self)@.add_hl(reg).tick(cycles as int),
    {
        let hl = self.reg.get_word(WordReg::HL);
        let rr = self.reg.get_word(reg);
        let low: u16 = hl % 0x1000 + rr % 0x1000;
        let sum: u32 = hl as u32 + rr as u32;
        self.reg.set_word(WordReg::HL, (sum % 0x10000) as u16);
        self.reg.subtract(false);
        self.reg.check_half_carry(low / 0x100);
        self.reg.check_carry((sum / 0x100) as u16);
        self.tick(cycles);
    }

    /// `ADD SP, n`. The immediate is signed; Half-Carry and Carry come from
    /// adding it to the low byte of `SP`.
    fn add_sp_n(&mut self, cycles: usize)
        requires
            old(self).bus.cycles + cycles <= usize::MAX,
        ensures
            final(self)@ == old(self)@.add_sp().tick(cycles as int),
    {
        let n = self.fetch();
        let sp = self.reg.get_word(WordReg::SP);
        let moved = if n < 128 {
            sp.wrapping_add(n as u16)
        } else {
            sp.wrapping_sub(256 - n as u16)
        };
        self.reg.set_word(WordReg::SP, moved);
        self.reg.set_flags(0);
        self.reg.check_half_carry(sp % 16 + (n % 16) as u16);
        self.reg.check_carry(sp % 256 + n as u16);
        proof {
            carries_after_clear(sp % 16 + n % 16 > 0xf, sp % 256 + n > 0xff);
        }
        self.tick(cycles);
    }

    /// `LD r, r'`.
    fn ld_r_r(&mut self, dst: ByteReg, src: ByteReg, cycles: usize)
        requires
            old(self).bus.cycles + cycles <= usize::MAX,
        ensures
            final(self)@ == old(self)@.load(Place::Reg(dst), Operand::Reg(src)).tick(cycles as int),
    {
        let value = self.reg.get_byte(src);
        self.reg.set_byte(dst, value);
        self.tick(cycles);
    }

    /// `LD r, n`.
    fn ld_r_n(&mut self, dst: ByteReg, cycles: usize)
        requires
            old(self).bus.cycles + cycles <= usize::MAX,
        ensures
            final(self)@ == old(self)@.load(Place::Reg(dst), Operand::Imm).tick(cycles as int),
    {
        let value = self.fetch();
        self.reg.set_byte(dst, value);
        self.tick(cycles);
    }

    /// `LD r, (HL)`.
    fn ld_r_hl(&mut self, dst: ByteReg, cycles: usize)
        requires
            old(self).bus.cycles + cycles <= usize::MAX,
        ensures
            final(self)@ == old(self)@.load(Place::Reg(dst), Operand::AtHl).tick(cycles as int),
    {
        let value = self.read_hl();
        self.reg.set_byte(dst, value);
        self.tick(cycles);
    }

    /// `LD (HL), r`.
    fn ld_hl_r(&mut self, src: ByteReg, cycles: usize)
        requires
            old(self).bus.cycles + cycles <= usize::MAX,
        ensures
            final(self)@ == old(self)@.load(Place::AtHl, Operand::Reg(src)).tick(cycles as int),
    {
        let value = self.reg.get_byte(src);
        self.write_hl(value);
        self.tick(cycles);
    }

    /// `LD (HL), n`.
    fn ld_hl_n(&mut self, cycles: usize)
        requires
            old(self).bus.cycles + cycles <= usize::MAX,
        ensures
            final(self)@ == old(self)@.load(Place::AtHl, Operand::Imm).tick(cycles as int),
    {
        let value = self.fetch();
        self.write_hl(value);
        self.tick(cycles);
    }

    /// Moves `HL` one address up or down, with wraparound.
    fn step_hl(&mut self, up: bool)
        ensures
            final(self)@ == old(self)@.with_reg(
                old(self).reg.with_word(
                    WordReg::HL,
                    wrap16(old(self)@.hl(), if up { 1 } else { -1 }),
                ),
            ),
            final(self).bus.cycles == old(self).bus.cycles,
    {
        let moved = step_word(self.reg.get_word(WordReg::HL), up);
        self.reg.set_word(WordReg::HL, moved);
    }

    /// `LD A, (HL+)` and `LD A, (HL-)`.
    fn ld_a_hl_step(&mut self, up: bool, cycles: usize)
        requires
            old(self).bus.cycles + cycles <= usize::MAX,
        ensures
            final(self)@ == old(self)@.load_a_step(up).tick(cycles as int),
    {
        let value = self.read_hl();
        self.reg.set_byte(ByteReg::A, value);
        self.step_hl(up);
        self.tick(cycles);
    }

    /// `LD (HL+), A` and `LD (HL-), A`.
    fn ld_hl_step_a(&mut self, up: bool, cycles: usize)
        requires
            old(self).bus.cycles + cycles <= usize::MAX,
        ensures
            final(self)@ == old(self)@.store_a_step(up).tick(cycles as int),
    {
        let value = self.reg.get_byte(ByteReg::A);
        self.write_hl(value);
        self.step_hl(up);
        self.tick(cycles);
    }

    /// Updates the flags of a bit test from the masked value: Zero if no bit
    /// of it is set, Subtract cleared, Half-Carry set. Carry stays.
    fn set_tested(&mut self, masked: u8)
        ensures
            final(self)@ == old(self)@.flagged(
                with_flag(
                    with_flag(with_flag(old(self).reg.f, ZERO, masked == 0), SUBTRACT, false),
                    HALF_CARRY,
                    true,
                ),
            ),
            final(self).bus.cycles == old(self).bus.cycles,
    {
        self.reg.check_zero(masked);
        self.reg.subtract(false);
        let f = self.reg.get_byte(ByteReg::F);
        self.reg.set_flags(f | HALF_CARRY);
    }

    /// `BIT b, r`. The register stays as it is.
    fn bit_r(&mut self, bit: u8, reg: ByteReg, cycles: usize)
        requires
            bit < 8,
            old(self).bus.cycles + cycles <= usize::MAX,
        ensures
            final(self)@ == old(self)@.test_bit(bit, Place::Reg(reg)).tick(cycles as int),
    {
        let value = self.reg.get_byte(reg);
        self.set_tested(value & (1u8 << bit));
        self.tick(cycles);
    }

    /// `BIT b, (HL)`. The byte stays as it is.
    fn bit_hl(&mut self, bit: u8, cycles: usize)
        requires
            bit < 8,
            old(self).bus.cycles + cycles <= usize::MAX,
        ensures
            final(self)@ == old(self)@.test_bit(bit, Place::AtHl).tick(cycles as int),
    {
        let value = self.read_hl();
        self.set_tested(value & (1u8 << bit));
        self.tick(cycles);
    }

    /// `RES b, r`. The flags stay.
    fn res_r(&mut self, bit: u8, reg: ByteReg, cycles: usize)
        requires
            bit < 8,
            old(self).bus.cycles + cycles <= usize::MAX,
        ensures
            final(self)@ == old(self)@.reset_bit(bit, Place::Reg(reg)).tick(cycles as int),
    {
        let value = self.reg.get_byte(reg);
        self.reg.set_byte(reg, value & !(1u8 << bit));
        self.tick(cycles);
    }

    /// `RES b, (HL)`. The flags stay.
    fn res_hl(&mut self, bit: u8, cycles: usize)
        requires
            bit < 8,
            old(self).bus.cycles + cycles <= usize::MAX,
        ensures
            final(self)@ == old(self)@.reset_bit(bit, Place::AtHl).tick(cycles as int),
    {
        let value = self.read_hl();
        self.write_hl(value & !(1u8 << bit));
        self.tick(cycles);
    }

    /// `SET b, r`. The flags stay.
    fn set_r(&mut self, bit: u8, reg: ByteReg, cycles: usize)
        requires
            bit < 8,
            old(self).bus.cycles + cycles <= usize::MAX,
        ensures
            final(self)@ == old(self)@.set_bit(bit, Place::Reg(reg)).tick(cycles as int),
    {
        let value = self.reg.get_byte(reg);
        self.reg.set_byte(reg, value | (1u8 << bit));
        self.tick(cycles);
    }

    /// `SET b, (HL)`. The flags stay.
    fn set_hl(&mut self, bit: u8, cycles: usize)
        requires
            bit < 8,
            old(self).bus.cycles + cycles <= usize::MAX,
        ensures
            final(self)@ == old(self)@.set_bit(bit, Place::AtHl).tick(cycles as int),
    {
        let value = self.read_hl();
        self.write_hl(value | (1u8 << bit));
        self.tick(cycles);
    }

    /// `SWAP r`.
    fn swap_r(&mut self, reg: ByteReg, cycles: usize)
        requires
            old(self).bus.cycles + cycles <= usize::MAX,
        ensures
            final(self)@ == old(self)@.swap(Place::Reg(reg)).tick(cycles as int),
    {
        let result = swap_nibbles(self.reg.get_byte(reg));
        self.reg.set_byte(reg, result);
        self.set_pattern(0, result);
        self.tick(cycles);
    }

    /// `SWAP (HL)`.
    fn swap_hl(&mut self, cycles: usize)
        requires
            old(self).bus.cycles + cycles <= usize::MAX,
        ensures
            final(self)@ == old(self)@.swap(Place::AtHl).tick(cycles as int),
    {
        let result = swap_nibbles(self.read_hl());
        self.write_hl(result);
        self.set_pattern(0, result);
        self.tick(cycles);
    }

    /// `RL r`. The intermediate keeps bit 7 as bit 8, which becomes Carry.
    fn rl_r(&mut self, reg: ByteReg, cycles: usize)
        requires
            old(self).bus.cycles + cycles <= usize::MAX,
        ensures
            final(self)@ == old(self)@.rl(Place::Reg(reg)).tick(cycles as int),
    {
        let carry: u16 = if self.reg.get_carry() { 1 } else { 0 };
        let wide: u16 = self.reg.get_byte(reg) as u16 * 2 + carry;
        let result = (wide % 256) as u8;
        self.reg.set_byte(reg, result);
        self.set_computed(result, false, 0, wide);
        self.tick(cycles);
    }

    /// `RL (HL)`.
    fn rl_hl(&mut self, cycles: usize)
        requires
            old(self).bus.cycles + cycles <= usize::MAX,
        ensures
            final(self)@ == old(self)@.rl(Place::AtHl).tick(cycles as int),
    {
        let carry: u16 = if self.reg.get_carry() { 1 } else { 0 };
        let wide: u16 = self.read_hl() as u16 * 2 + carry;
        let result = (wide % 256) as u8;
        self.write_hl(result);
        self.set_computed(result, false, 0, wide);
        self.tick(cycles);
    }
}

impl Default for SM83 {
    /// A machine in its power-on state.
    fn default() -> (cpu: Self)
        ensures
            cpu.reg == Registers::default_value(),
            cpu.pc == ENTRY_POINT,
            cpu@.bus.mem == zeros(Memory::DEFAULT_SIZE as nat),
            cpu@.bus.cart == Cartridge::default_view(),
            cpu@.bus.cycles == 0,
            cpu.can_step(),
    {
        Self::new()
    }
}

/// Moves a 16-bit value one up or one down, with wraparound.
fn step_word(value: u16, up: bool) -> (moved: u16)
    ensures
        moved == wrap16(value, if up { 1 } else { -1 }),
{
    if up {
        value.wrapping_add(1)
    } else {
        value.wrapping_sub(1)
    }
}

/// Exchanges the high and the low nibble of a byte.
fn swap_nibbles(value: u8) -> (result: u8)
    ensures
        result == swapped(value),
{
    assert((value << 4) | (value >> 4) == (value % 16) * 16 + value / 16) by (bit_vector);
    (value << 4) | (value >> 4)
}

} // verus!
