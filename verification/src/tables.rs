//! The two dispatch tables: which instruction each opcode byte selects, entry
//! by entry. Each table is verified to agree with the field-wise decoding of
//! the instruction set.
use crate::isa::{decode_extended, decode_main, AluOp, Instr, Operand, Place};
use crate::registers::{ByteReg, WordReg};
use vstd::prelude::*;

verus! {

/// Looks `op` up in the main table. The prefix byte and the bytes without
/// a handler have no entry.
pub fn main_table(op: u8) -> (found: Option<Instr>)
    ensures
        found == decode_main(op),
        found matches Some(instr) ==> instr.well_formed(),
{
    match op {
        0x03 => Some(Instr::IncWord(WordReg::BC)),  // INC BC
        0x04 => Some(Instr::Inc(Place::Reg(ByteReg::B))),  // INC B
        0x05 => Some(Instr::Dec(Place::Reg(ByteReg::B))),  // DEC B
        0x06 => Some(Instr::Load(Place::Reg(ByteReg::B), Operand::Imm)),  // LD B, n
        0x09 => Some(Instr::AddHl(WordReg::BC)),  // ADD HL, BC
        0x0b => Some(Instr::DecWord(WordReg::BC)),  // DEC BC
        0x0c => Some(Instr::Inc(Place::Reg(ByteReg::C))),  // INC C
        0x0d => Some(Instr::Dec(Place::Reg(ByteReg::C))),  // DEC C
        0x0e => Some(Instr::Load(Place::Reg(ByteReg::C), Operand::Imm)),  // LD C, n
        0x13 => Some(Instr::IncWord(WordReg::DE)),  // INC DE
        0x14 => Some(Instr::Inc(Place::Reg(ByteReg::D))),  // INC D
        0x15 => Some(Instr::Dec(Place::Reg(ByteReg::D))),  // DEC D
        0x16 => Some(Instr::Load(Place::Reg(ByteReg::D), Operand::Imm)),  // LD D, n
        0x19 => Some(Instr::AddHl(WordReg::DE)),  // ADD HL, DE
        0x1b => Some(Instr::DecWord(WordReg::DE)),  // DEC DE
        0x1c => Some(Instr::Inc(Place::Reg(ByteReg::E))),  // INC E
        0x1d => Some(Instr::Dec(Place::Reg(ByteReg::E))),  // DEC E
        0x1e => Some(Instr::Load(Place::Reg(ByteReg::E), Operand::Imm)),  // LD E, n
        0x22 => Some(Instr::StoreAStep(true)),  // LD (HL+), A
        0x23 => Some(Instr::IncWord(WordReg::HL)),  // INC HL
        0x24 => Some(Instr::Inc(Place::Reg(ByteReg::H))),  // INC H
        0x25 => Some(Instr::Dec(Place::Reg(ByteReg::H))),  // DEC H
        0x26 => Some(Instr::Load(Place::Reg(ByteReg::H), Operand::Imm)),  // LD H, n
        0x29 => Some(Instr::AddHl(WordReg::HL)),  // ADD HL, HL
        0x2a => Some(Instr::LoadAStep(true)),  // LD A, (HL+)
        0x2b => Some(Instr::DecWord(WordReg::HL)),  // DEC HL
        0x2c => Some(Instr::Inc(Place::Reg(ByteReg::L))),  // INC L
        0x2d => Some(Instr::Dec(Place::Reg(ByteReg::L))),  // DEC L
        0x2e => Some(Instr::Load(Place::Reg(ByteReg::L), Operand::Imm)),  // LD L, n
        0x32 => Some(Instr::StoreAStep(false)),  // LD (HL-), A
        0x33 => Some(Instr::IncWord(WordReg::SP)),  // INC SP
        0x34 => Some(Instr::Inc(Place::AtHl)),  // INC (HL)
        0x35 => Some(Instr::Dec(Place::AtHl)),  // DEC (HL)
        0x36 => Some(Instr::Load(Place::AtHl, Operand::Imm)),  // LD (HL), n
        0x39 => Some(Instr::AddHl(WordReg::SP)),  // ADD HL, SP
        0x3a => Some(Instr::LoadAStep(false)),  // LD A, (HL-)
        0x3b => Some(Instr::DecWord(WordReg::SP)),  // DEC SP
        0x3c => Some(Instr::Inc(Place::Reg(ByteReg::A))),  // INC A
        0x3d => Some(Instr::Dec(Place::Reg(ByteReg::A))),  // DEC A
        0x3e => Some(Instr::Load(Place::Reg(ByteReg::A), Operand::Imm)),  // LD A, n
        0x40 => Some(Instr::Load(Place::Reg(ByteReg::B), Operand::Reg(ByteReg::B))),  // LD B, B
        0x41 => Some(Instr::Load(Place::Reg(ByteReg::B), Operand::Reg(ByteReg::C))),  // LD B, C
        0x42 => Some(Instr::Load(Place::Reg(ByteReg::B), Operand::Reg(ByteReg::D))),  // LD B, D
        0x43 => Some(Instr::Load(Place::Reg(ByteReg::B), Operand::Reg(ByteReg::E))),  // LD B, E
        0x44 => Some(Instr::Load(Place::Reg(ByteReg::B), Operand::Reg(ByteReg::H))),  // LD B, H
        0x45 => Some(Instr::Load(Place::Reg(ByteReg::B), Operand::Reg(ByteReg::L))),  // LD B, L
        0x46 => Some(Instr::Load(Place::Reg(ByteReg::B), Operand::AtHl)),  // LD B, (HL)
        0x47 => Some(Instr::Load(Place::Reg(ByteReg::B), Operand::Reg(ByteReg::A))),  // LD B, A
        0x48 => Some(Instr::Load(Place::Reg(ByteReg::C), Operand::Reg(ByteReg::B))),  // LD C, B
        0x49 => Some(Instr::Load(Place::Reg(ByteReg::C), Operand::Reg(ByteReg::C))),  // LD C, C
        0x4a => Some(Instr::Load(Place::Reg(ByteReg::C), Operand::Reg(ByteReg::D))),  // LD C, D
        0x4b => Some(Instr::Load(Place::Reg(ByteReg::C), Operand::Reg(ByteReg::E))),  // LD C, E
        0x4c => Some(Instr::Load(Place::Reg(ByteReg::C), Operand::Reg(ByteReg::H))),  // LD C, H
        0x4d => Some(Instr::Load(Place::Reg(ByteReg::C), Operand::Reg(ByteReg::L))),  // LD C, L
        0x4e => Some(Instr::Load(Place::Reg(ByteReg::C), Operand::AtHl)),  // LD C, (HL)
        0x4f => Some(Instr::Load(Place::Reg(ByteReg::C), Operand::Reg(ByteReg::A))),  // LD C, A
        0x50 => Some(Instr::Load(Place::Reg(ByteReg::D), Operand::Reg(ByteReg::B))),  // LD D, B
        0x51 => Some(Instr::Load(Place::Reg(ByteReg::D), Operand::Reg(ByteReg::C))),  // LD D, C
        0x52 => Some(Instr::Load(Place::Reg(ByteReg::D), Operand::Reg(ByteReg::D))),  // LD D, D
        0x53 => Some(Instr::Load(Place::Reg(ByteReg::D), Operand::Reg(ByteReg::E))),  // LD D, E
        0x54 => Some(Instr::Load(Place::Reg(ByteReg::D), Operand::Reg(ByteReg::H))),  // LD D, H
        0x55 => Some(Instr::Load(Place::Reg(ByteReg::D), Operand::Reg(ByteReg::L))),  // LD D, L
        0x56 => Some(Instr::Load(Place::Reg(ByteReg::D), Operand::AtHl)),  // LD D, (HL)
        0x57 => Some(Instr::Load(Place::Reg(ByteReg::D), Operand::Reg(ByteReg::A))),  // LD D, A
        0x58 => Some(Instr::Load(Place::Reg(ByteReg::E), Operand::Reg(ByteReg::B))),  // LD E, B
        0x59 => Some(Instr::Load(Place::Reg(ByteReg::E), Operand::Reg(ByteReg::C))),  // LD E, C
        0x5a => Some(Instr::Load(Place::Reg(ByteReg::E), Operand::Reg(ByteReg::D))),  // LD E, D
        0x5b => Some(Instr::Load(Place::Reg(ByteReg::E), Operand::Reg(ByteReg::E))),  // LD E, E
        0x5c => Some(Instr::Load(Place::Reg(ByteReg::E), Operand::Reg(ByteReg::H))),  // LD E, H
        0x5d => Some(Instr::Load(Place::Reg(ByteReg::E), Operand::Reg(ByteReg::L))),  // LD E, L
        0x5e => Some(Instr::Load(Place::Reg(ByteReg::E), Operand::AtHl)),  // LD E, (HL)
        0x5f => Some(Instr::Load(Place::Reg(ByteReg::E), Operand::Reg(ByteReg::A))),  // LD E, A
        0x60 => Some(Instr::Load(Place::Reg(ByteReg::H), Operand::Reg(ByteReg::B))),  // LD H, B
        0x61 => Some(Instr::Load(Place::Reg(ByteReg::H), Operand::Reg(ByteReg::C))),  // LD H, C
        0x62 => Some(Instr::Load(Place::Reg(ByteReg::H), Operand::Reg(ByteReg::D))),  // LD H, D
        0x63 => Some(Instr::Load(Place::Reg(ByteReg::H), Operand::Reg(ByteReg::E))),  // LD H, E
        0x64 => Some(Instr::Load(Place::Reg(ByteReg::H), Operand::Reg(ByteReg::H))),  // LD H, H
        0x65 => Some(Instr::Load(Place::Reg(ByteReg::H), Operand::Reg(ByteReg::L))),  // LD H, L
        0x66 => Some(Instr::Load(Place::Reg(ByteReg::H), Operand::AtHl)),  // LD H, (HL)
        0x67 => Some(Instr::Load(Place::Reg(ByteReg::H), Operand::Reg(ByteReg::A))),  // LD H, A
        0x68 => Some(Instr::Load(Place::Reg(ByteReg::L), Operand::Reg(ByteReg::B))),  // LD L, B
        0x69 => Some(Instr::Load(Place::Reg(ByteReg::L), Operand::Reg(ByteReg::C))),  // LD L, C
        0x6a => Some(Instr::Load(Place::Reg(ByteReg::L), Operand::Reg(ByteReg::D))),  // LD L, D
        0x6b => Some(Instr::Load(Place::Reg(ByteReg::L), Operand::Reg(ByteReg::E))),  // LD L, E
        0x6c => Some(Instr::Load(Place::Reg(ByteReg::L), Operand::Reg(ByteReg::H))),  // LD L, H
        0x6d => Some(Instr::Load(Place::Reg(ByteReg::L), Operand::Reg(ByteReg::L))),  // LD L, L
        0x6e => Some(Instr::Load(Place::Reg(ByteReg::L), Operand::AtHl)),  // LD L, (HL)
        0x6f => Some(Instr::Load(Place::Reg(ByteReg::L), Operand::Reg(ByteReg::A))),  // LD L, A
        0x70 => Some(Instr::Load(Place::AtHl, Operand::Reg(ByteReg::B))),  // LD (HL), B
        0x71 => Some(Instr::Load(Place::AtHl, Operand::Reg(ByteReg::C))),  // LD (HL), C
        0x72 => Some(Instr::Load(Place::AtHl, Operand::Reg(ByteReg::D))),  // LD (HL), D
        0x73 => Some(Instr::Load(Place::AtHl, Operand::Reg(ByteReg::E))),  // LD (HL), E
        0x74 => Some(Instr::Load(Place::AtHl, Operand::Reg(ByteReg::H))),  // LD (HL), H
        0x75 => Some(Instr::Load(Place::AtHl, Operand::Reg(ByteReg::L))),  // LD (HL), L
        0x77 => Some(Instr::Load(Place::AtHl, Operand::Reg(ByteReg::A))),  // LD (HL), A
        0x78 => Some(Instr::Load(Place::Reg(ByteReg::A), Operand::Reg(ByteReg::B))),  // LD A, B
        0x79 => Some(Instr::Load(Place::Reg(ByteReg::A), Operand::Reg(ByteReg::C))),  // LD A, C
        0x7a => Some(Instr::Load(Place::Reg(ByteReg::A), Operand::Reg(ByteReg::D))),  // LD A, D
        0x7b => Some(Instr::Load(Place::Reg(ByteReg::A), Operand::Reg(ByteReg::E))),  // LD A, E
        0x7c => Some(Instr::Load(Place::Reg(ByteReg::A), Operand::Reg(ByteReg::H))),  // LD A, H
        0x7d => Some(Instr::Load(Place::Reg(ByteReg::A), Operand::Reg(ByteReg::L))),  // LD A, L
        0x7e => Some(Instr::Load(Place::Reg(ByteReg::A), Operand::AtHl)),  // LD A, (HL)
        0x7f => Some(Instr::Load(Place::Reg(ByteReg::A), Operand::Reg(ByteReg::A))),  // LD A, A
        0x80 => Some(Instr::Alu(AluOp::Add, Operand::Reg(ByteReg::B))),  // ADD A, B
        0x81 => Some(Instr::Alu(AluOp::Add, Operand::Reg(ByteReg::C))),  // ADD A, C
        0x82 => Some(Instr::Alu(AluOp::Add, Operand::Reg(ByteReg::D))),  // ADD A, D
        0x83 => Some(Instr::Alu(AluOp::Add, Operand::Reg(ByteReg::E))),  // ADD A, E
        0x84 => Some(Instr::Alu(AluOp::Add, Operand::Reg(ByteReg::H))),  // ADD A, H
        0x85 => Some(Instr::Alu(AluOp::Add, Operand::Reg(ByteReg::L))),  // ADD A, L
        0x86 => Some(Instr::Alu(AluOp::Add, Operand::AtHl)),  // ADD A, (HL)
        0x87 => Some(Instr::Alu(AluOp::Add, Operand::Reg(ByteReg::A))),  // ADD A, A
        0x88 => Some(Instr::Alu(AluOp::Adc, Operand::Reg(ByteReg::B))),  // ADC A, B
        0x89 => Some(Instr::Alu(AluOp::Adc, Operand::Reg(ByteReg::C))),  // ADC A, C
        0x8a => Some(Instr::Alu(AluOp::Adc, Operand::Reg(ByteReg::D))),  // ADC A, D
        0x8b => Some(Instr::Alu(AluOp::Adc, Operand::Reg(ByteReg::E))),  // ADC A, E
        0x8c => Some(Instr::Alu(AluOp::Adc, Operand::Reg(ByteReg::H))),  // ADC A, H
        0x8d => Some(Instr::Alu(AluOp::Adc, Operand::Reg(ByteReg::L))),  // ADC A, L
        0x8e => Some(Instr::Alu(AluOp::Adc, Operand::AtHl)),  // ADC A, (HL)
        0x8f => Some(Instr::Alu(AluOp::Adc, Operand::Reg(ByteReg::A))),  // ADC A, A
        0x90 => Some(Instr::Alu(AluOp::Sub, Operand::Reg(ByteReg::B))),  // SUB A, B
        0x91 => Some(Instr::Alu(AluOp::Sub, Operand::Reg(ByteReg::C))),  // SUB A, C
        0x92 => Some(Instr::Alu(AluOp::Sub, Operand::Reg(ByteReg::D))),  // SUB A, D
        0x93 => Some(Instr::Alu(AluOp::Sub, Operand::Reg(ByteReg::E))),  // SUB A, E
        0x94 => Some(Instr::Alu(AluOp::Sub, Operand::Reg(ByteReg::H))),  // SUB A, H
        0x95 => Some(Instr::Alu(AluOp::Sub, Operand::Reg(ByteReg::L))),  // SUB A, L
        0x96 => Some(Instr::Alu(AluOp::Sub, Operand::AtHl)),  // SUB A, (HL)
        0x97 => Some(Instr::Alu(AluOp::Sub, Operand::Reg(ByteReg::A))),  // SUB A, A
        0x98 => Some(Instr::Alu(AluOp::Sbc, Operand::Reg(ByteReg::B))),  // SBC A, B
        0x99 => Some(Instr::Alu(AluOp::Sbc, Operand::Reg(ByteReg::C))),  // SBC A, C
        0x9a => Some(Instr::Alu(AluOp::Sbc, Operand::Reg(ByteReg::D))),  // SBC A, D
        0x9b => Some(Instr::Alu(AluOp::Sbc, Operand::Reg(ByteReg::E))),  // SBC A, E
        0x9c => Some(Instr::Alu(AluOp::Sbc, Operand::Reg(ByteReg::H))),  // SBC A, H
        0x9d => Some(Instr::Alu(AluOp::Sbc, Operand::Reg(ByteReg::L))),  // SBC A, L
        0x9e => Some(Instr::Alu(AluOp::Sbc, Operand::AtHl)),  // SBC A, (HL)
        0x9f => Some(Instr::Alu(AluOp::Sbc, Operand::Reg(ByteReg::A))),  // SBC A, A
        0xa0 => Some(Instr::Alu(AluOp::And, Operand::Reg(ByteReg::B))),  // AND A, B
        0xa1 => Some(Instr::Alu(AluOp::And, Operand::Reg(ByteReg::C))),  // AND A, C
        0xa2 => Some(Instr::Alu(AluOp::And, Operand::Reg(ByteReg::D))),  // AND A, D
        0xa3 => Some(Instr::Alu(AluOp::And, Operand::Reg(ByteReg::E))),  // AND A, E
        0xa4 => Some(Instr::Alu(AluOp::And, Operand::Reg(ByteReg::H))),  // AND A, H
        0xa5 => Some(Instr::Alu(AluOp::And, Operand::Reg(ByteReg::L))),  // AND A, L
        0xa6 => Some(Instr::Alu(AluOp::And, Operand::AtHl)),  // AND A, (HL)
        0xa7 => Some(Instr::Alu(AluOp::And, Operand::Reg(ByteReg::A))),  // AND A, A
        0xa8 => Some(Instr::Alu(AluOp::Xor, Operand::Reg(ByteReg::B))),  // XOR A, B
        0xa9 => Some(Instr::Alu(AluOp::Xor, Operand::Reg(ByteReg::C))),  // XOR A, C
        0xaa => Some(Instr::Alu(AluOp::Xor, Operand::Reg(ByteReg::D))),  // XOR A, D
        0xab => Some(Instr::Alu(AluOp::Xor, Operand::Reg(ByteReg::E))),  // XOR A, E
        0xac => Some(Instr::Alu(AluOp::Xor, Operand::Reg(ByteReg::H))),  // XOR A, H
        0xad => Some(Instr::Alu(AluOp::Xor, Operand::Reg(ByteReg::L))),  // XOR A, L
        0xae => Some(Instr::Alu(AluOp::Xor, Operand::AtHl)),  // XOR A, (HL)
        0xaf => Some(Instr::Alu(AluOp::Xor, Operand::Reg(ByteReg::A))),  // XOR A, A
        0xb0 => Some(Instr::Alu(AluOp::Or, Operand::Reg(ByteReg::B))),  // OR A, B
        0xb1 => Some(Instr::Alu(AluOp::Or, Operand::Reg(ByteReg::C))),  // OR A, C
        0xb2 => Some(Instr::Alu(AluOp::Or, Operand::Reg(ByteReg::D))),  // OR A, D
        0xb3 => Some(Instr::Alu(AluOp::Or, Operand::Reg(ByteReg::E))),  // OR A, E
        0xb4 => Some(Instr::Alu(AluOp::Or, Operand::Reg(ByteReg::H))),  // OR A, H
        0xb5 => Some(Instr::Alu(AluOp::Or, Operand::Reg(ByteReg::L))),  // OR A, L
        0xb6 => Some(Instr::Alu(AluOp::Or, Operand::AtHl)),  // OR A, (HL)
        0xb7 => Some(Instr::Alu(AluOp::Or, Operand::Reg(ByteReg::A))),  // OR A, A
        0xb8 => Some(Instr::Alu(AluOp::Cp, Operand::Reg(ByteReg::B))),  // CP A, B
        0xb9 => Some(Instr::Alu(AluOp::Cp, Operand::Reg(ByteReg::C))),  // CP A, C
        0xba => Some(Instr::Alu(AluOp::Cp, Operand::Reg(ByteReg::D))),  // CP A, D
        0xbb => Some(Instr::Alu(AluOp::Cp, Operand::Reg(ByteReg::E))),  // CP A, E
        0xbc => Some(Instr::Alu(AluOp::Cp, Operand::Reg(ByteReg::H))),  // CP A, H
        0xbd => Some(Instr::Alu(AluOp::Cp, Operand::Reg(ByteReg::L))),  // CP A, L
        0xbe => Some(Instr::Alu(AluOp::Cp, Operand::AtHl)),  // CP A, (HL)
        0xbf => Some(Instr::Alu(AluOp::Cp, Operand::Reg(ByteReg::A))),  // CP A, A
        0xc6 => Some(Instr::Alu(AluOp::Add, Operand::Imm)),  // ADD A, n
        0xce => Some(Instr::Alu(AluOp::Adc, Operand::Imm)),  // ADC A, n
        0xd6 => Some(Instr::Alu(AluOp::Sub, Operand::Imm)),  // SUB A, n
        0xde => Some(Instr::Alu(AluOp::Sbc, Operand::Imm)),  // SBC A, n
        0xe6 => Some(Instr::Alu(AluOp::And, Operand::Imm)),  // AND A, n
        0xe8 => Some(Instr::AddSp),  // ADD SP, n
        0xee => Some(Instr::Alu(AluOp::Xor, Operand::Imm)),  // XOR A, n
        0xf6 => Some(Instr::Alu(AluOp::Or, Operand::Imm)),  // OR A, n
        0xfe => Some(Instr::Alu(AluOp::Cp, Operand::Imm)),  // CP A, n
        _ => None,
    }
}

/// Looks `op` up in the extended table, the one behind the prefix byte.
pub fn extended_table(op: u8) -> (found: Option<Instr>)
    ensures
        found == decode_extended(op),
        found matches Some(instr) ==> instr.well_formed(),
{
    match op {
        0x10 => Some(Instr::Rl(Place::Reg(ByteReg::B))),  // RL B
        0x11 => Some(Instr::Rl(Place::Reg(ByteReg::C))),  // RL C
        0x12 => Some(Instr::Rl(Place::Reg(ByteReg::D))),  // RL D
        0x13 => Some(Instr::Rl(Place::Reg(ByteReg::E))),  // RL E
        0x14 => Some(Instr::Rl(Place::Reg(ByteReg::H))),  // RL H
        0x15 => Some(Instr::Rl(Place::Reg(ByteReg::L))),  // RL L
        0x16 => Some(Instr::Rl(Place::AtHl)),  // RL (HL)
        0x17 => Some(Instr::Rl(Place::Reg(ByteReg::A))),  // RL A
        0x30 => Some(Instr::Swap(Place::Reg(ByteReg::B))),  // SWAP B
        0x31 => Some(Instr::Swap(Place::Reg(ByteReg::C))),  // SWAP C
        0x32 => Some(Instr::Swap(Place::Reg(ByteReg::D))),  // SWAP D
        0x33 => Some(Instr::Swap(Place::Reg(ByteReg::E))),  // SWAP E
        0x34 => Some(Instr::Swap(Place::Reg(ByteReg::H))),  // SWAP H
        0x35 => Some(Instr::Swap(Place::Reg(ByteReg::L))),  // SWAP L
        0x36 => Some(Instr::Swap(Place::AtHl)),  // SWAP (HL)
        0x37 => Some(Instr::Swap(Place::Reg(ByteReg::A))),  // SWAP A
        0x40 => Some(Instr::TestBit(0, Place::Reg(ByteReg::B))),  // BIT 0, B
        0x41 => Some(Instr::TestBit(0, Place::Reg(ByteReg::C))),  // BIT 0, C
        0x42 => Some(Instr::TestBit(0, Place::Reg(ByteReg::D))),  // BIT 0, D
        0x43 => Some(Instr::TestBit(0, Place::Reg(ByteReg::E))),  // BIT 0, E
        0x44 => Some(Instr::TestBit(0, Place::Reg(ByteReg::H))),  // BIT 0, H
        0x45 => Some(Instr::TestBit(0, Place::Reg(ByteReg::L))),  // BIT 0, L
        0x46 => Some(Instr::TestBit(0, Place::AtHl)),  // BIT 0, (HL)
        0x47 => Some(Instr::TestBit(0, Place::Reg(ByteReg::A))),  // BIT 0, A
        0x48 => Some(Instr::TestBit(1, Place::Reg(ByteReg::B))),  // BIT 1, B
        0x49 => Some(Instr::TestBit(1, Place::Reg(ByteReg::C))),  // BIT 1, C
        0x4a => Some(Instr::TestBit(1, Place::Reg(ByteReg::D))),  // BIT 1, D
        0x4b => Some(Instr::TestBit(1, Place::Reg(ByteReg::E))),  // BIT 1, E
        0x4c => Some(Instr::TestBit(1, Place::Reg(ByteReg::H))),  // BIT 1, H
        0x4d => Some(Instr::TestBit(1, Place::Reg(ByteReg::L))),  // BIT 1, L
        0x4e => Some(Instr::TestBit(1, Place::AtHl)),  // BIT 1, (HL)
        0x4f => Some(Instr::TestBit(1, Place::Reg(ByteReg::A))),  // BIT 1, A
        0x50 => Some(Instr::TestBit(2, Place::Reg(ByteReg::B))),  // BIT 2, B
        0x51 => Some(Instr::TestBit(2, Place::Reg(ByteReg::C))),  // BIT 2, C
        0x52 => Some(Instr::TestBit(2, Place::Reg(ByteReg::D))),  // BIT 2, D
        0x53 => Some(Instr::TestBit(2, Place::Reg(ByteReg::E))),  // BIT 2, E
        0x54 => Some(Instr::TestBit(2, Place::Reg(ByteReg::H))),  // BIT 2, H
        0x55 => Some(Instr::TestBit(2, Place::Reg(ByteReg::L))),  // BIT 2, L
        0x56 => Some(Instr::TestBit(2, Place::AtHl)),  // BIT 2, (HL)
        0x57 => Some(Instr::TestBit(2, Place::Reg(ByteReg::A))),  // BIT 2, A
        0x58 => Some(Instr::TestBit(3, Place::Reg(ByteReg::B))),  // BIT 3, B
        0x59 => Some(Instr::TestBit(3, Place::Reg(ByteReg::C))),  // BIT 3, C
        0x5a => Some(Instr::TestBit(3, Place::Reg(ByteReg::D))),  // BIT 3, D
        0x5b => Some(Instr::TestBit(3, Place::Reg(ByteReg::E))),  // BIT 3, E
        0x5c => Some(Instr::TestBit(3, Place::Reg(ByteReg::H))),  // BIT 3, H
        0x5d => Some(Instr::TestBit(3, Place::Reg(ByteReg::L))),  // BIT 3, L
        0x5e => Some(Instr::TestBit(3, Place::AtHl)),  // BIT 3, (HL)
        0x5f => Some(Instr::TestBit(3, Place::Reg(ByteReg::A))),  // BIT 3, A
        0x60 => Some(Instr::TestBit(4, Place::Reg(ByteReg::B))),  // BIT 4, B
        0x61 => Some(Instr::TestBit(4, Place::Reg(ByteReg::C))),  // BIT 4, C
        0x62 => Some(Instr::TestBit(4, Place::Reg(ByteReg::D))),  // BIT 4, D
        0x63 => Some(Instr::TestBit(4, Place::Reg(ByteReg::E))),  // BIT 4, E
        0x64 => Some(Instr::TestBit(4, Place::Reg(ByteReg::H))),  // BIT 4, H
        0x65 => Some(Instr::TestBit(4, Place::Reg(ByteReg::L))),  // BIT 4, L
        0x66 => Some(Instr::TestBit(4, Place::AtHl)),  // BIT 4, (HL)
        0x67 => Some(Instr::TestBit(4, Place::Reg(ByteReg::A))),  // BIT 4, A
        0x68 => Some(Instr::TestBit(5, Place::Reg(ByteReg::B))),  // BIT 5, B
        0x69 => Some(Instr::TestBit(5, Place::Reg(ByteReg::C))),  // BIT 5, C
        0x6a => Some(Instr::TestBit(5, Place::Reg(ByteReg::D))),  // BIT 5, D
        0x6b => Some(Instr::TestBit(5, Place::Reg(ByteReg::E))),  // BIT 5, E
        0x6c => Some(Instr::TestBit(5, Place::Reg(ByteReg::H))),  // BIT 5, H
        0x6d => Some(Instr::TestBit(5, Place::Reg(ByteReg::L))),  // BIT 5, L
        0x6e => Some(Instr::TestBit(5, Place::AtHl)),  // BIT 5, (HL)
        0x6f => Some(Instr::TestBit(5, Place::Reg(ByteReg::A))),  // BIT 5, A
        0x70 => Some(Instr::TestBit(6, Place::Reg(ByteReg::B))),  // BIT 6, B
        0x71 => Some(Instr::TestBit(6, Place::Reg(ByteReg::C))),  // BIT 6, C
        0x72 => Some(Instr::TestBit(6, Place::Reg(ByteReg::D))),  // BIT 6, D
        0x73 => Some(Instr::TestBit(6, Place::Reg(ByteReg::E))),  // BIT 6, E
        0x74 => Some(Instr::TestBit(6, Place::Reg(ByteReg::H))),  // BIT 6, H
        0x75 => Some(Instr::TestBit(6, Place::Reg(ByteReg::L))),  // BIT 6, L
        0x76 => Some(Instr::TestBit(6, Place::AtHl)),  // BIT 6, (HL)
        0x77 => Some(Instr::TestBit(6, Place::Reg(ByteReg::A))),  // BIT 6, A
        0x78 => Some(Instr::TestBit(7, Place::Reg(ByteReg::B))),  // BIT 7, B
        0x79 => Some(Instr::TestBit(7, Place::Reg(ByteReg::C))),  // BIT 7, C
        0x7a => Some(Instr::TestBit(7, Place::Reg(ByteReg::D))),  // BIT 7, D
        0x7b => Some(Instr::TestBit(7, Place::Reg(ByteReg::E))),  // BIT 7, E
        0x7c => Some(Instr::TestBit(7, Place::Reg(ByteReg::H))),  // BIT 7, H
        0x7d => Some(Instr::TestBit(7, Place::Reg(ByteReg::L))),  // BIT 7, L
        0x7e => Some(Instr::TestBit(7, Place::AtHl)),  // BIT 7, (HL)
        0x7f => Some(Instr::TestBit(7, Place::Reg(ByteReg::A))),  // BIT 7, A
        0x80 => Some(Instr::ResetBit(0, Place::Reg(ByteReg::B))),  // RES 0, B
        0x81 => Some(Instr::ResetBit(0, Place::Reg(ByteReg::C))),  // RES 0, C
        0x82 => Some(Instr::ResetBit(0, Place::Reg(ByteReg::D))),  // RES 0, D
        0x83 => Some(Instr::ResetBit(0, Place::Reg(ByteReg::E))),  // RES 0, E
        0x84 => Some(Instr::ResetBit(0, Place::Reg(ByteReg::H))),  // RES 0, H
        0x85 => Some(Instr::ResetBit(0, Place::Reg(ByteReg::L))),  // RES 0, L
        0x86 => Some(Instr::ResetBit(0, Place::AtHl)),  // RES 0, (HL)
        0x87 => Some(Instr::ResetBit(0, Place::Reg(ByteReg::A))),  // RES 0, A
        0x88 => Some(Instr::ResetBit(1, Place::Reg(ByteReg::B))),  // RES 1, B
        0x89 => Some(Instr::ResetBit(1, Place::Reg(ByteReg::C))),  // RES 1, C
        0x8a => Some(Instr::ResetBit(1, Place::Reg(ByteReg::D))),  // RES 1, D
        0x8b => Some(Instr::ResetBit(1, Place::Reg(ByteReg::E))),  // RES 1, E
        0x8c => Some(Instr::ResetBit(1, Place::Reg(ByteReg::H))),  // RES 1, H
        0x8d => Some(Instr::ResetBit(1, Place::Reg(ByteReg::L))),  // RES 1, L
        0x8e => Some(Instr::ResetBit(1, Place::AtHl)),  // RES 1, (HL)
        0x8f => Some(Instr::ResetBit(1, Place::Reg(ByteReg::A))),  // RES 1, A
        0x90 => Some(Instr::ResetBit(2, Place::Reg(ByteReg::B))),  // RES 2, B
        0x91 => Some(Instr::ResetBit(2, Place::Reg(ByteReg::C))),  // RES 2, C
        0x92 => Some(Instr::ResetBit(2, Place::Reg(ByteReg::D))),  // RES 2, D
        0x93 => Some(Instr::ResetBit(2, Place::Reg(ByteReg::E))),  // RES 2, E
        0x94 => Some(Instr::ResetBit(2, Place::Reg(ByteReg::H))),  // RES 2, H
        0x95 => Some(Instr::ResetBit(2, Place::Reg(ByteReg::L))),  // RES 2, L
        0x96 => Some(Instr::ResetBit(2, Place::AtHl)),  // RES 2, (HL)
        0x97 => Some(Instr::ResetBit(2, Place::Reg(ByteReg::A))),  // RES 2, A
        0x98 => Some(Instr::ResetBit(3, Place::Reg(ByteReg::B))),  // RES 3, B
        0x99 => Some(Instr::ResetBit(3, Place::Reg(ByteReg::C))),  // RES 3, C
        0x9a => Some(Instr::ResetBit(3, Place::Reg(ByteReg::D))),  // RES 3, D
        0x9b => Some(Instr::ResetBit(3, Place::Reg(ByteReg::E))),  // RES 3, E
        0x9c => Some(Instr::ResetBit(3, Place::Reg(ByteReg::H))),  // RES 3, H
        0x9d => Some(Instr::ResetBit(3, Place::Reg(ByteReg::L))),  // RES 3, L
        0x9e => Some(Instr::ResetBit(3, Place::AtHl)),  // RES 3, (HL)
        0x9f => Some(Instr::ResetBit(3, Place::Reg(ByteReg::A))),  // RES 3, A
        0xa0 => Some(Instr::ResetBit(4, Place::Reg(ByteReg::B))),  // RES 4, B
        0xa1 => Some(Instr::ResetBit(4, Place::Reg(ByteReg::C))),  // RES 4, C
        0xa2 => Some(Instr::ResetBit(4, Place::Reg(ByteReg::D))),  // RES 4, D
        0xa3 => Some(Instr::ResetBit(4, Place::Reg(ByteReg::E))),  // RES 4, E
        0xa4 => Some(Instr::ResetBit(4, Place::Reg(ByteReg::H))),  // RES 4, H
        0xa5 => Some(Instr::ResetBit(4, Place::Reg(ByteReg::L))),  // RES 4, L
        0xa6 => Some(Instr::ResetBit(4, Place::AtHl)),  // RES 4, (HL)
        0xa7 => Some(Instr::ResetBit(4, Place::Reg(ByteReg::A))),  // RES 4, A
        0xa8 => Some(Instr::ResetBit(5, Place::Reg(ByteReg::B))),  // RES 5, B
        0xa9 => Some(Instr::ResetBit(5, Place::Reg(ByteReg::C))),  // RES 5, C
        0xaa => Some(Instr::ResetBit(5, Place::Reg(ByteReg::D))),  // RES 5, D
        0xab => Some(Instr::ResetBit(5, Place::Reg(ByteReg::E))),  // RES 5, E
        0xac => Some(Instr::ResetBit(5, Place::Reg(ByteReg::H))),  // RES 5, H
        0xad => Some(Instr::ResetBit(5, Place::Reg(ByteReg::L))),  // RES 5, L
        0xae => Some(Instr::ResetBit(5, Place::AtHl)),  // RES 5, (HL)
        0xaf => Some(Instr::ResetBit(5, Place::Reg(ByteReg::A))),  // RES 5, A
        0xb0 => Some(Instr::ResetBit(6, Place::Reg(ByteReg::B))),  // RES 6, B
        0xb1 => Some(Instr::ResetBit(6, Place::Reg(ByteReg::C))),  // RES 6, C
        0xb2 => Some(Instr::ResetBit(6, Place::Reg(ByteReg::D))),  // RES 6, D
        0xb3 => Some(Instr::ResetBit(6, Place::Reg(ByteReg::E))),  // RES 6, E
        0xb4 => Some(Instr::ResetBit(6, Place::Reg(ByteReg::H))),  // RES 6, H
        0xb5 => Some(Instr::ResetBit(6, Place::Reg(ByteReg::L))),  // RES 6, L
        0xb6 => Some(Instr::ResetBit(6, Place::AtHl)),  // RES 6, (HL)
        0xb7 => Some(Instr::ResetBit(6, Place::Reg(ByteReg::A))),  // RES 6, A
        0xb8 => Some(Instr::ResetBit(7, Place::Reg(ByteReg::B))),  // RES 7, B
        0xb9 => Some(Instr::ResetBit(7, Place::Reg(ByteReg::C))),  // RES 7, C
        0xba => Some(Instr::ResetBit(7, Place::Reg(ByteReg::D))),  // RES 7, D
        0xbb => Some(Instr::ResetBit(7, Place::Reg(ByteReg::E))),  // RES 7, E
        0xbc => Some(Instr::ResetBit(7, Place::Reg(ByteReg::H))),  // RES 7, H
        0xbd => Some(Instr::ResetBit(7, Place::Reg(ByteReg::L))),  // RES 7, L
        0xbe => Some(Instr::ResetBit(7, Place::AtHl)),  // RES 7, (HL)
        0xbf => Some(Instr::ResetBit(7, Place::Reg(ByteReg::A))),  // RES 7, A
        0xc0 => Some(Instr::SetBit(0, Place::Reg(ByteReg::B))),  // SET 0, B
        0xc1 => Some(Instr::SetBit(0, Place::Reg(ByteReg::C))),  // SET 0, C
        0xc2 => Some(Instr::SetBit(0, Place::Reg(ByteReg::D))),  // SET 0, D
        0xc3 => Some(Instr::SetBit(0, Place::Reg(ByteReg::E))),  // SET 0, E
        0xc4 => Some(Instr::SetBit(0, Place::Reg(ByteReg::H))),  // SET 0, H
        0xc5 => Some(Instr::SetBit(0, Place::Reg(ByteReg::L))),  // SET 0, L
        0xc6 => Some(Instr::SetBit(0, Place::AtHl)),  // SET 0, (HL)
        0xc7 => Some(Instr::SetBit(0, Place::Reg(ByteReg::A))),  // SET 0, A
        0xc8 => Some(Instr::SetBit(1, Place::Reg(ByteReg::B))),  // SET 1, B
        0xc9 => Some(Instr::SetBit(1, Place::Reg(ByteReg::C))),  // SET 1, C
        0xca => Some(Instr::SetBit(1, Place::Reg(ByteReg::D))),  // SET 1, D
        0xcb => Some(Instr::SetBit(1, Place::Reg(ByteReg::E))),  // SET 1, E
        0xcc => Some(Instr::SetBit(1, Place::Reg(ByteReg::H))),  // SET 1, H
        0xcd => Some(Instr::SetBit(1, Place::Reg(ByteReg::L))),  // SET 1, L
        0xce => Some(Instr::SetBit(1, Place::AtHl)),  // SET 1, (HL)
        0xcf => Some(Instr::SetBit(1, Place::Reg(ByteReg::A))),  // SET 1, A
        0xd0 => Some(Instr::SetBit(2, Place::Reg(ByteReg::B))),  // SET 2, B
        0xd1 => Some(Instr::SetBit(2, Place::Reg(ByteReg::C))),  // SET 2, C
        0xd2 => Some(Instr::SetBit(2, Place::Reg(ByteReg::D))),  // SET 2, D
        0xd3 => Some(Instr::SetBit(2, Place::Reg(ByteReg::E))),  // SET 2, E
        0xd4 => Some(Instr::SetBit(2, Place::Reg(ByteReg::H))),  // SET 2, H
        0xd5 => Some(Instr::SetBit(2, Place::Reg(ByteReg::L))),  // SET 2, L
        0xd6 => Some(Instr::SetBit(2, Place::AtHl)),  // SET 2, (HL)
        0xd7 => Some(Instr::SetBit(2, Place::Reg(ByteReg::A))),  // SET 2, A
        0xd8 => Some(Instr::SetBit(3, Place::Reg(ByteReg::B))),  // SET 3, B
        0xd9 => Some(Instr::SetBit(3, Place::Reg(ByteReg::C))),  // SET 3, C
        0xda => Some(Instr::SetBit(3, Place::Reg(ByteReg::D))),  // SET 3, D
        0xdb => Some(Instr::SetBit(3, Place::Reg(ByteReg::E))),  // SET 3, E
        0xdc => Some(Instr::SetBit(3, Place::Reg(ByteReg::H))),  // SET 3, H
        0xdd => Some(Instr::SetBit(3, Place::Reg(ByteReg::L))),  // SET 3, L
        0xde => Some(Instr::SetBit(3, Place::AtHl)),  // SET 3, (HL)
        0xdf => Some(Instr::SetBit(3, Place::Reg(ByteReg::A))),  // SET 3, A
        0xe0 => Some(Instr::SetBit(4, Place::Reg(ByteReg::B))),  // SET 4, B
        0xe1 => Some(Instr::SetBit(4, Place::Reg(ByteReg::C))),  // SET 4, C
        0xe2 => Some(Instr::SetBit(4, Place::Reg(ByteReg::D))),  // SET 4, D
        0xe3 => Some(Instr::SetBit(4, Place::Reg(ByteReg::E))),  // SET 4, E
        0xe4 => Some(Instr::SetBit(4, Place::Reg(ByteReg::H))),  // SET 4, H
        0xe5 => Some(Instr::SetBit(4, Place::Reg(ByteReg::L))),  // SET 4, L
        0xe6 => Some(Instr::SetBit(4, Place::AtHl)),  // SET 4, (HL)
        0xe7 => Some(Instr::SetBit(4, Place::Reg(ByteReg::A))),  // SET 4, A
        0xe8 => Some(Instr::SetBit(5, Place::Reg(ByteReg::B))),  // SET 5, B
        0xe9 => Some(Instr::SetBit(5, Place::Reg(ByteReg::C))),  // SET 5, C
        0xea => Some(Instr::SetBit(5, Place::Reg(ByteReg::D))),  // SET 5, D
        0xeb => Some(Instr::SetBit(5, Place::Reg(ByteReg::E))),  // SET 5, E
        0xec => Some(Instr::SetBit(5, Place::Reg(ByteReg::H))),  // SET 5, H
        0xed => Some(Instr::SetBit(5, Place::Reg(ByteReg::L))),  // SET 5, L
        0xee => Some(Instr::SetBit(5, Place::AtHl)),  // SET 5, (HL)
        0xef => Some(Instr::SetBit(5, Place::Reg(ByteReg::A))),  // SET 5, A
        0xf0 => Some(Instr::SetBit(6, Place::Reg(ByteReg::B))),  // SET 6, B
        0xf1 => Some(Instr::SetBit(6, Place::Reg(ByteReg::C))),  // SET 6, C
        0xf2 => Some(Instr::SetBit(6, Place::Reg(ByteReg::D))),  // SET 6, D
        0xf3 => Some(Instr::SetBit(6, Place::Reg(ByteReg::E))),  // SET 6, E
        0xf4 => Some(Instr::SetBit(6, Place::Reg(ByteReg::H))),  // SET 6, H
        0xf5 => Some(Instr::SetBit(6, Place::Reg(ByteReg::L))),  // SET 6, L
        0xf6 => Some(Instr::SetBit(6, Place::AtHl)),  // SET 6, (HL)
        0xf7 => Some(Instr::SetBit(6, Place::Reg(ByteReg::A))),  // SET 6, A
        0xf8 => Some(Instr::SetBit(7, Place::Reg(ByteReg::B))),  // SET 7, B
        0xf9 => Some(Instr::SetBit(7, Place::Reg(ByteReg::C))),  // SET 7, C
        0xfa => Some(Instr::SetBit(7, Place::Reg(ByteReg::D))),  // SET 7, D
        0xfb => Some(Instr::SetBit(7, Place::Reg(ByteReg::E))),  // SET 7, E
        0xfc => Some(Instr::SetBit(7, Place::Reg(ByteReg::H))),  // SET 7, H
        0xfd => Some(Instr::SetBit(7, Place::Reg(ByteReg::L))),  // SET 7, L
        0xfe => Some(Instr::SetBit(7, Place::AtHl)),  // SET 7, (HL)
        0xff => Some(Instr::SetBit(7, Place::Reg(ByteReg::A))),  // SET 7, A
        _ => None,
    }
}

} // verus!
