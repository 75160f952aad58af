use sm83_core::bus::{Bus, Region};
use sm83_core::cartridge::{Cartridge, CartridgeError};
use sm83_core::isa::{AluOp, IllegalOpcode, Instr, Operand, Place, Table};
use sm83_core::memory::Memory;
use sm83_core::registers::{ByteReg, Registers, WordReg};
use sm83_core::sm83::SM83;
use sm83_core::tables::{extended_table, main_table};
use sm83_core::types::Size;
use sm83_core::Core;

const ZERO: u8 = 0x80;
const SUB: u8 = 0x40;
const HALF_CARRY: u8 = 0x20;
const CARRY: u8 = 0x10;

fn machine(program: &[u8]) -> SM83 {
    let mut rom = vec![0u8; 0x100];
    rom.extend_from_slice(program);
    if rom.len() < 0x150 {
        rom.resize(0x150, 0);
    }
    let mut cpu = SM83::new();
    cpu.bus.rom.load_new_rom(&rom).unwrap();
    cpu
}

#[test]
fn pair_round_trip_splits_high_and_low() {
    for v in [0x0000u16, 0x0001, 0x00ff, 0x0100, 0x1234, 0x8000, 0xfffe, 0xffff] {
        let mut regs = Registers::new();
        regs.set_word(WordReg::HL, v);
        assert_eq!(regs.get_word(WordReg::HL), v);
        assert_eq!(regs.h, (v >> 8) as u8);
        assert_eq!(regs.l, (v & 0xff) as u8);
        assert_eq!(regs.a, 0);
        assert_eq!(regs.sp, 0);
    }
}

#[test]
fn every_pair_reads_its_own_bytes() {
    let mut regs = Registers::new();
    regs.set_word(WordReg::BC, 0x1122);
    regs.set_word(WordReg::DE, 0x3344);
    regs.set_word(WordReg::SP, 0x5566);
    regs.set_word(WordReg::AF, 0x7788);
    assert_eq!((regs.b, regs.c, regs.d, regs.e), (0x11, 0x22, 0x33, 0x44));
    assert_eq!((regs.a, regs.f, regs.sp), (0x77, 0x88, 0x5566));
    assert_eq!(regs.get_word(WordReg::DE), 0x3344);
    assert_eq!(regs.get_byte(ByteReg::F), 0x88);
}

#[test]
fn flag_helpers_touch_one_bit_each() {
    let mut regs = Registers::new();
    regs.set_flags(0xff);
    regs.check_zero(1);
    assert_eq!(regs.f, 0x7f);
    regs.subtract(false);
    assert_eq!(regs.f, 0x3f);
    regs.check_half_carry(0x0f);
    assert_eq!(regs.f, 0x1f);
    assert!(regs.get_carry());
    regs.check_carry(0xff);
    assert_eq!(regs.f, 0x0f);
    assert!(!regs.get_carry());
    regs.check_carry(0x100);
    regs.check_half_carry(0x10);
    assert_eq!(regs.f, 0x3f);
}

#[test]
fn push_word_sets_the_stack_pointer() {
    let mut regs = Registers::new();
    regs.push_word(0x0103);
    assert_eq!(regs.sp, 0x0103);
    assert_eq!(regs, Registers { sp: 0x0103, ..Registers::default() });
}

#[test]
fn memory_word_is_little_endian() {
    let mut mem = Memory::new(0x10);
    mem.write(Size::Word, 0x04, 0x0102);
    assert_eq!(mem.read(Size::Byte, 0x04), 0x02);
    assert_eq!(mem.read(Size::Byte, 0x05), 0x01);
    assert_eq!(mem.read(Size::Word, 0x04), 0x0102);
    assert_eq!(mem.read(Size::Byte, 0x03), 0x00);
    assert_eq!(mem.read(Size::Byte, 0x06), 0x00);
    assert_eq!(mem.size(), 0x10);
}

#[test]
fn memory_write_cuts_to_the_width() {
    let mut mem = Memory::new(4);
    mem.write(Size::Byte, 0, 0x1ff);
    assert_eq!(mem.read(Size::Byte, 0), 0xff);
    assert_eq!(mem.read(Size::Byte, 1), 0x00);
    mem.write(Size::Word, 2, 0x12345);
    assert_eq!(mem.read(Size::Word, 2), 0x2345);
}

#[test]
fn default_memory_has_its_documented_size() {
    assert_eq!(Memory::default().size(), 0xFFFF);
    assert_eq!(Memory::DEFAULT_SIZE, 0xFFFF);
}

#[test]
fn ram_size_codes_follow_the_table() {
    for (code, size) in [(0u8, 0usize), (1, 2048), (2, 8192), (3, 32768), (4, 131072), (5, 65536)] {
        let mut rom = vec![0u8; 0x150];
        rom[0x149] = code;
        let cart = Cartridge::new(&rom).unwrap();
        assert_eq!(cart.ram_size, code);
        assert_eq!(cart.ram.size(), size);
    }
}

#[test]
fn unknown_ram_size_code_is_an_error_and_keeps_the_cartridge() {
    let mut rom = vec![0u8; 0x150];
    rom[0x149] = 0x06;
    assert!(matches!(Cartridge::new(&rom), Err(CartridgeError::InvalidRamSize { code: 0x06 })));

    let mut good = vec![0u8; 0x150];
    good[0x149] = 0x02;
    good[0x147] = 0x13;
    let mut cart = Cartridge::new(&good).unwrap();
    cart.ram.write(Size::Byte, 7, 0x5a);
    assert_eq!(cart.load_new_rom(&rom), Err(CartridgeError::InvalidRamSize { code: 0x06 }));
    assert_eq!(cart.ram_size, 0x02);
    assert_eq!(cart.cartridge_type, 0x13);
    assert_eq!(cart.ram.read(Size::Byte, 7), 0x5a);
    assert_eq!(cart.rom, good);
}

#[test]
fn header_fields_come_from_their_offsets() {
    let mut rom = vec![0u8; 0x200];
    for (i, b) in "  GAME".bytes().enumerate() {
        rom[0x136 + i] = b;
    }
    rom[0x143] = 0x80;
    rom[0x144] = 0x30;
    rom[0x145] = 0x31;
    rom[0x146] = 0x03;
    rom[0x147] = 0x1b;
    rom[0x148] = 0x05;
    rom[0x149] = 0x03;
    rom[0x14a] = 0x01;
    rom[0x14b] = 0x33;
    rom[0x14c] = 0x02;
    rom[0x14d] = 0xa5;
    rom[0x14e] = 0x12;
    rom[0x14f] = 0x34;
    let cart = Cartridge::new(&rom).unwrap();
    assert_eq!(cart.title, "  GAME");
    assert_eq!(cart.cgb_flag, 0x80);
    assert_eq!(cart.new_licensee_code, 0x3031);
    assert_eq!(cart.sgb_flag, 0x03);
    assert_eq!(cart.cartridge_type, 0x1b);
    assert_eq!(cart.rom_size, 0x05);
    assert_eq!(cart.destination_code, 0x01);
    assert_eq!(cart.old_licensee_code, 0x33);
    assert_eq!(cart.mask_rom_version_number, 0x02);
    assert_eq!(cart.header_checksum, 0xa5);
    assert_eq!(cart.global_checksum, 0x1234);
    assert_eq!(cart.rom.len(), 0x200);
    assert_eq!(cart.read(Size::Word, 0x14e), 0x3412);
    assert_eq!(cart.read(Size::Byte, 0x14e), 0x12);
}

#[test]
fn title_keeps_inner_zero_bytes_and_non_ascii_text() {
    let mut rom = vec![0u8; 0x150];
    rom[0x134] = b'A';
    rom[0x136] = b'B';
    let cart = Cartridge::new(&rom).unwrap();
    assert_eq!(cart.title, "A\0B");

    let mut rom = vec![0u8; 0x150];
    for (i, b) in "é!".bytes().enumerate() {
        rom[0x134 + i] = b;
    }
    let cart = Cartridge::new(&rom).unwrap();
    assert_eq!(cart.title, "é!");
}

#[test]
fn title_that_is_not_text_is_an_error() {
    let mut rom = vec![0u8; 0x150];
    rom[0x134] = 0xff;
    rom[0x149] = 0x09;
    assert!(matches!(Cartridge::new(&rom), Err(CartridgeError::InvalidTitle)));
    let mut rom = vec![0u8; 0x150];
    rom[0x142] = 0xc3;
    assert!(matches!(Cartridge::new(&rom), Err(CartridgeError::InvalidTitle)));
}

#[test]
fn default_cartridge_is_blank() {
    let cart = Cartridge::default();
    assert_eq!(cart.title, "");
    assert_eq!(cart.rom, vec![0u8; 0x150]);
    assert_eq!(cart.ram.size(), 0);
    assert_eq!(cart.ram_size, 0);
}

#[test]
fn unmapped_read_is_zero_and_changes_nothing() {
    let mut cpu = machine(&[0x3e, 0x05]);
    cpu.reg.b = 0x42;
    let before = cpu.reg;
    assert_eq!(cpu.bus.read(Size::Byte, 0x9000), 0);
    assert_eq!(cpu.bus.read(Size::Word, 0x9000), 0);
    assert_eq!(cpu.bus.read(Size::Byte, 0xffff), 0);
    assert_eq!(cpu.bus.read(Size::Byte, 0x1_0000), 0);
    assert!(!cpu.bus.readable(Size::Byte, 0x9000));
    assert!(!cpu.bus.writable(Size::Byte, 0x9000));
    cpu.bus.write(Size::Byte, 0x9000, 0x77);
    assert_eq!(cpu.bus.read(Size::Byte, 0x9000), 0);
    assert_eq!(cpu.reg, before);
    assert_eq!(cpu.pc, 0x100);
    assert_eq!(cpu.bus.cycles, 0);
}

#[test]
fn regions_follow_the_address_ranges() {
    assert_eq!(Bus::region(0x0000), Region::Rom);
    assert_eq!(Bus::region(0x3fff), Region::Rom);
    assert_eq!(Bus::region(0x4000), Region::Unmapped);
    assert_eq!(Bus::region(0xbfff), Region::Unmapped);
    assert_eq!(Bus::region(0xc000), Region::Wram0);
    assert_eq!(Bus::region(0xcfff), Region::Wram0);
    assert_eq!(Bus::region(0xd000), Region::Wram1);
    assert_eq!(Bus::region(0xdfff), Region::Wram1);
    assert_eq!(Bus::region(0xe000), Region::Unmapped);
}

#[test]
fn rom_is_read_only_and_unbacked_addresses_read_zero() {
    let mut bus = Bus::default();
    bus.write(Size::Byte, 0x0100, 0xaa);
    assert_eq!(bus.read(Size::Byte, 0x0100), 0);
    assert!(bus.readable(Size::Byte, 0x014f));
    assert!(!bus.readable(Size::Byte, 0x0150));
    assert!(!bus.readable(Size::Word, 0x014f));
    assert_eq!(bus.read(Size::Byte, 0x3fff), 0);
    // The default cartridge has no RAM: bank 1 is not backed.
    assert!(!bus.writable(Size::Byte, 0xd000));
    bus.write(Size::Byte, 0xd000, 0x11);
    assert_eq!(bus.read(Size::Byte, 0xd000), 0);
}

#[test]
fn bus_word_access_is_little_endian() {
    let mut bus = Bus::default();
    bus.write(Size::Word, 0xc010, 0x0102);
    assert_eq!(bus.read(Size::Byte, 0xc010), 0x02);
    assert_eq!(bus.read(Size::Byte, 0xc011), 0x01);
    assert_eq!(bus.read(Size::Word, 0xc010), 0x0102);
    assert_eq!(bus.mem.read(Size::Word, 0x0010), 0x0102);
}

#[test]
fn tick_only_counts() {
    let mut bus = Bus::default();
    bus.write(Size::Byte, 0xc000, 0x33);
    bus.tick(4);
    bus.tick(0);
    bus.tick(12);
    assert_eq!(bus.cycles, 16);
    assert_eq!(bus.read(Size::Byte, 0xc000), 0x33);
}

#[test]
fn load_immediate_then_add() {
    let mut cpu = machine(&[0x3e, 0x05, 0x80]);
    cpu.reg.b = 0x01;
    assert_eq!(cpu.step(), Ok(()));
    assert_eq!(cpu.reg.a, 0x05);
    assert_eq!(cpu.pc, 0x102);
    assert_eq!(cpu.bus.cycles, 8);
    assert_eq!(cpu.step(), Ok(()));
    assert_eq!(cpu.reg.a, 0x06);
    assert_eq!(cpu.reg.f, 0x00);
    assert_eq!(cpu.pc, 0x103);
    assert_eq!(cpu.bus.cycles, 12);
}

#[test]
fn add_with_carry_folds_the_carry_in() {
    let mut cpu = machine(&[0x88]);
    cpu.reg.a = 0x01;
    cpu.reg.b = 0x01;
    cpu.reg.f = CARRY;
    cpu.step().unwrap();
    assert_eq!(cpu.reg.a, 0x03);
    assert_eq!(cpu.reg.f & ZERO, 0);
    assert_eq!(cpu.reg.f & CARRY, 0);
    assert_eq!(cpu.reg.f & HALF_CARRY, 0);
    assert_eq!(cpu.reg.f, 0x00);
}

#[test]
fn add_sets_half_carry_and_carry_from_the_uncut_sums() {
    let mut cpu = machine(&[0x80, 0x80, 0xce, 0xff]);
    cpu.reg.a = 0x0f;
    cpu.reg.b = 0x01;
    cpu.step().unwrap();
    assert_eq!((cpu.reg.a, cpu.reg.f), (0x10, HALF_CARRY));
    cpu.reg.a = 0xff;
    cpu.step().unwrap();
    assert_eq!((cpu.reg.a, cpu.reg.f), (0x00, ZERO | HALF_CARRY | CARRY));
    // ADC A, 0xff with the carry set: 0x00 + 0xff + 1.
    cpu.step().unwrap();
    assert_eq!((cpu.reg.a, cpu.reg.f), (0x00, ZERO | HALF_CARRY | CARRY));
    assert_eq!(cpu.pc, 0x104);
}

#[test]
fn subtract_borrows_set_half_carry_and_carry() {
    let mut cpu = machine(&[0x91, 0x9f, 0xb8, 0xbf]);
    cpu.reg.a = 0x00;
    cpu.reg.c = 0x02;
    cpu.step().unwrap();
    assert_eq!((cpu.reg.a, cpu.reg.f), (0xfe, SUB | HALF_CARRY | CARRY));
    // SBC A, A with the carry set: 0xfe - 0xfe - 1.
    cpu.step().unwrap();
    assert_eq!((cpu.reg.a, cpu.reg.f), (0xff, SUB | HALF_CARRY | CARRY));
    // CP A, B leaves A and borrows nothing: 0xff - 0x00.
    cpu.step().unwrap();
    assert_eq!((cpu.reg.a, cpu.reg.f), (0xff, SUB));
    cpu.step().unwrap();
    assert_eq!((cpu.reg.a, cpu.reg.f), (0xff, ZERO | SUB));
}

#[test]
fn subtract_with_carry_without_carry_is_subtract() {
    let mut cpu = machine(&[0x9f, 0xde, 0x01]);
    cpu.reg.a = 0x34;
    cpu.step().unwrap();
    assert_eq!((cpu.reg.a, cpu.reg.f), (0x00, ZERO | SUB));
    cpu.reg.a = 0x10;
    cpu.step().unwrap();
    assert_eq!((cpu.reg.a, cpu.reg.f), (0x0f, SUB | HALF_CARRY));
}

#[test]
fn logic_operations_store_their_result() {
    let mut cpu = machine(&[0xa8, 0xa9, 0xaf, 0xee, 0xf0, 0xe6, 0x0f, 0xb1]);
    cpu.reg.a = 0x01;
    cpu.reg.b = 0x01;
    cpu.reg.c = 0x02;
    cpu.reg.f = CARRY | SUB;
    cpu.step().unwrap();
    assert_eq!((cpu.reg.a, cpu.reg.f), (0x00, ZERO));
    cpu.step().unwrap();
    assert_eq!((cpu.reg.a, cpu.reg.f), (0x02, 0x00));
    cpu.step().unwrap();
    assert_eq!((cpu.reg.a, cpu.reg.f), (0x00, ZERO));
    cpu.step().unwrap();
    assert_eq!((cpu.reg.a, cpu.reg.f), (0xf0, 0x00));
    cpu.step().unwrap();
    assert_eq!((cpu.reg.a, cpu.reg.f), (0x00, ZERO | HALF_CARRY));
    cpu.step().unwrap();
    assert_eq!((cpu.reg.a, cpu.reg.f), (0x02, 0x00));
}

#[test]
fn increment_and_decrement_keep_carry() {
    let mut cpu = machine(&[0x1c, 0x1d, 0x3c]);
    cpu.reg.e = 0xff;
    cpu.reg.a = 0x0f;
    cpu.reg.f = CARRY;
    cpu.step().unwrap();
    assert_eq!((cpu.reg.e, cpu.reg.f), (0x00, ZERO | HALF_CARRY | CARRY));
    cpu.step().unwrap();
    assert_eq!((cpu.reg.e, cpu.reg.f), (0xff, SUB | HALF_CARRY | CARRY));
    cpu.step().unwrap();
    assert_eq!((cpu.reg.a, cpu.reg.f), (0x10, HALF_CARRY | CARRY));
    assert_eq!(cpu.bus.cycles, 12);
}

#[test]
fn increment_and_decrement_at_hl_change_the_byte() {
    let mut cpu = machine(&[0x34, 0x35, 0x35]);
    cpu.reg.set_word(WordReg::HL, 0xc001);
    cpu.bus.write(Size::Byte, 0xc001, 0x0f);
    cpu.step().unwrap();
    assert_eq!(cpu.bus.read(Size::Byte, 0xc001), 0x10);
    assert_eq!(cpu.reg.f, HALF_CARRY);
    assert_eq!(cpu.reg.get_word(WordReg::HL), 0xc001);
    assert_eq!(cpu.bus.cycles, 12);
    cpu.step().unwrap();
    assert_eq!(cpu.bus.read(Size::Byte, 0xc001), 0x0f);
    assert_eq!(cpu.reg.f, SUB | HALF_CARRY);
    cpu.bus.write(Size::Byte, 0xc001, 0x01);
    cpu.step().unwrap();
    assert_eq!(cpu.bus.read(Size::Byte, 0xc001), 0x00);
    assert_eq!(cpu.reg.f, ZERO | SUB);
}

#[test]
fn sixteen_bit_steps_wrap_and_leave_the_flags() {
    for flags in [0x00u8, 0xf0, 0x50, 0xa0] {
        let mut cpu = machine(&[0x03, 0x1b, 0x33, 0x2b]);
        cpu.reg.set_word(WordReg::BC, 0xffff);
        cpu.reg.set_word(WordReg::DE, 0x0000);
        cpu.reg.sp = 0x00ff;
        cpu.reg.set_word(WordReg::HL, 0x0100);
        cpu.reg.f = flags;
        cpu.step().unwrap();
        assert_eq!((cpu.reg.get_word(WordReg::BC), cpu.reg.f), (0x0000, flags));
        cpu.step().unwrap();
        assert_eq!((cpu.reg.get_word(WordReg::DE), cpu.reg.f), (0xffff, flags));
        cpu.step().unwrap();
        assert_eq!((cpu.reg.sp, cpu.reg.f), (0x0100, flags));
        cpu.step().unwrap();
        assert_eq!((cpu.reg.get_word(WordReg::HL), cpu.reg.f), (0x00ff, flags));
        assert_eq!(cpu.bus.cycles, 32);
    }
}

#[test]
fn add_hl_takes_its_carries_from_bit_11_and_bit_15() {
    let mut cpu = machine(&[0x09, 0x19, 0x39, 0x29]);
    cpu.reg.set_word(WordReg::HL, 0x000c);
    cpu.reg.set_word(WordReg::BC, 0x0004);
    cpu.reg.set_word(WordReg::DE, 0x0ff0);
    cpu.reg.sp = 0xf000;
    cpu.reg.f = ZERO | SUB;
    cpu.step().unwrap();
    assert_eq!((cpu.reg.get_word(WordReg::HL), cpu.reg.f), (0x0010, ZERO));
    cpu.step().unwrap();
    assert_eq!((cpu.reg.get_word(WordReg::HL), cpu.reg.f), (0x1000, ZERO | HALF_CARRY));
    cpu.step().unwrap();
    assert_eq!((cpu.reg.get_word(WordReg::HL), cpu.reg.f), (0x0000, ZERO | CARRY));
    cpu.reg.set_word(WordReg::HL, 0x8800);
    cpu.step().unwrap();
    assert_eq!((cpu.reg.get_word(WordReg::HL), cpu.reg.f), (0x1000, ZERO | HALF_CARRY | CARRY));
}

#[test]
fn add_sp_takes_a_signed_immediate() {
    let mut cpu = machine(&[0xe8, 0xff, 0xe8, 0x01, 0xe8, 0x80]);
    cpu.reg.sp = 0x0000;
    cpu.reg.f = ZERO | SUB;
    cpu.step().unwrap();
    assert_eq!((cpu.reg.sp, cpu.reg.f), (0xffff, 0x00));
    cpu.step().unwrap();
    assert_eq!((cpu.reg.sp, cpu.reg.f), (0x0000, HALF_CARRY | CARRY));
    cpu.reg.sp = 0x0180;
    cpu.step().unwrap();
    assert_eq!((cpu.reg.sp, cpu.reg.f), (0x0100, CARRY));
    assert_eq!(cpu.pc, 0x106);
    assert_eq!(cpu.bus.cycles, 48);
}

#[test]
fn bit_test_never_changes_the_value() {
    for value in [0x00u8, 0x01, 0x80, 0x55, 0xaa, 0xff] {
        for bit in 0..8u8 {
            let mut cpu = machine(&[0xcb, 0x40 + 8 * bit + 2, 0xcb, 0x40 + 8 * bit + 6]);
            cpu.reg.d = value;
            cpu.reg.set_word(WordReg::HL, 0xc123);
            cpu.bus.write(Size::Byte, 0xc123, value as usize);
            cpu.reg.f = SUB | CARRY;
            let expected = if value & (1 << bit) == 0 { ZERO | HALF_CARRY } else { HALF_CARRY };
            cpu.step().unwrap();
            assert_eq!(cpu.reg.d, value);
            assert_eq!(cpu.reg.f, expected | CARRY);
            cpu.reg.f = ZERO | SUB;
            cpu.step().unwrap();
            assert_eq!(cpu.bus.read(Size::Byte, 0xc123), value as usize);
            assert_eq!(cpu.reg.f, expected);
            assert_eq!(cpu.pc, 0x104);
            assert_eq!(cpu.bus.cycles, 20);
        }
    }
}

#[test]
fn bit_clear_and_set_leave_the_flags() {
    let mut cpu = machine(&[0xcb, 0xbf, 0xcb, 0xff, 0xcb, 0x9e, 0xcb, 0xe6]);
    cpu.reg.a = 0xff;
    cpu.reg.f = 0xb0;
    cpu.reg.set_word(WordReg::HL, 0xc000);
    cpu.bus.write(Size::Byte, 0xc000, 0x0f);
    cpu.step().unwrap();
    assert_eq!((cpu.reg.a, cpu.reg.f), (0x7f, 0xb0));
    cpu.step().unwrap();
    assert_eq!((cpu.reg.a, cpu.reg.f), (0xff, 0xb0));
    cpu.step().unwrap();
    assert_eq!((cpu.bus.read(Size::Byte, 0xc000), cpu.reg.f), (0x07, 0xb0));
    cpu.step().unwrap();
    assert_eq!((cpu.bus.read(Size::Byte, 0xc000), cpu.reg.f), (0x17, 0xb0));
    assert_eq!(cpu.bus.cycles, 48);
}

#[test]
fn swap_clears_every_flag_but_zero() {
    let mut cpu = machine(&[0xcb, 0x33, 0xcb, 0x34]);
    cpu.reg.e = 0xa5;
    cpu.reg.h = 0x00;
    cpu.reg.f = 0x70;
    cpu.step().unwrap();
    assert_eq!((cpu.reg.e, cpu.reg.f), (0x5a, 0x00));
    cpu.reg.f = 0x70;
    cpu.step().unwrap();
    assert_eq!((cpu.reg.h, cpu.reg.f), (0x00, ZERO));
}

#[test]
fn rotate_left_moves_bit_7_into_carry() {
    let mut cpu = machine(&[0xcb, 0x12, 0xcb, 0x13, 0xcb, 0x10, 0xcb, 0x16]);
    cpu.reg.d = 0x80;
    cpu.reg.e = 0x80;
    cpu.reg.b = 0x7f;
    cpu.reg.f = SUB | HALF_CARRY;
    cpu.step().unwrap();
    assert_eq!((cpu.reg.d, cpu.reg.f), (0x00, ZERO | CARRY));
    cpu.step().unwrap();
    assert_eq!((cpu.reg.e, cpu.reg.f), (0x01, CARRY));
    cpu.step().unwrap();
    assert_eq!((cpu.reg.b, cpu.reg.f), (0xff, 0x00));
    cpu.reg.set_word(WordReg::HL, 0xc010);
    cpu.bus.write(Size::Byte, 0xc010, 0xc0);
    cpu.step().unwrap();
    assert_eq!((cpu.bus.read(Size::Byte, 0xc010), cpu.reg.f), (0x80, CARRY));
    assert_eq!(cpu.bus.cycles, 40);
}

#[test]
fn loads_leave_the_flags() {
    let mut cpu = machine(&[0x06, 0x12, 0x48, 0x71, 0x5e, 0x22, 0x3a]);
    cpu.reg.f = 0xf0;
    cpu.reg.set_word(WordReg::HL, 0xc000);
    cpu.step().unwrap();
    assert_eq!(cpu.reg.b, 0x12);
    cpu.step().unwrap();
    assert_eq!(cpu.reg.c, 0x12);
    cpu.step().unwrap();
    assert_eq!(cpu.bus.read(Size::Byte, 0xc000), 0x12);
    cpu.step().unwrap();
    assert_eq!(cpu.reg.e, 0x12);
    cpu.reg.a = 0x99;
    cpu.step().unwrap();
    assert_eq!(cpu.bus.read(Size::Byte, 0xc000), 0x99);
    assert_eq!(cpu.reg.get_word(WordReg::HL), 0xc001);
    cpu.step().unwrap();
    assert_eq!(cpu.reg.a, 0x00);
    assert_eq!(cpu.reg.get_word(WordReg::HL), 0xc000);
    assert_eq!(cpu.reg.f, 0xf0);
    assert_eq!(cpu.bus.cycles, 8 + 4 + 8 + 8 + 8 + 8);
}

#[test]
fn illegal_opcode_in_the_main_table_is_reported() {
    let mut cpu = machine(&[0xd3]);
    cpu.reg.a = 0x12;
    let before = cpu.reg;
    assert_eq!(cpu.step(), Err(IllegalOpcode { opcode: 0xd3, table: Table::Main }));
    assert_eq!(cpu.reg, before);
    assert_eq!(cpu.pc, 0x101);
    assert_eq!(cpu.bus.cycles, 0);
}

#[test]
fn illegal_opcode_in_the_extended_table_is_reported() {
    let mut cpu = machine(&[0xcb, 0x07]);
    assert_eq!(cpu.step(), Err(IllegalOpcode { opcode: 0x07, table: Table::Extended }));
    assert_eq!(cpu.pc, 0x102);
    assert_eq!(cpu.bus.cycles, 0);
    assert_eq!(cpu.reg, Registers::new());
}

#[test]
fn stepping_onto_unmapped_memory_reads_opcode_zero() {
    let mut cpu = SM83::new();
    cpu.pc = 0x9000;
    assert_eq!(cpu.step(), Err(IllegalOpcode { opcode: 0x00, table: Table::Main }));
    assert_eq!(cpu.pc, 0x9001);
}

#[test]
fn program_counter_wraps() {
    let mut cpu = SM83::new();
    cpu.pc = 0xffff;
    assert!(cpu.step().is_err());
    assert_eq!(cpu.pc, 0x0000);
}

#[test]
fn tables_decode_by_field() {
    assert_eq!(main_table(0x3e), Some(Instr::Load(Place::Reg(ByteReg::A), Operand::Imm)));
    assert_eq!(main_table(0x80), Some(Instr::Alu(AluOp::Add, Operand::Reg(ByteReg::B))));
    assert_eq!(main_table(0xbe), Some(Instr::Alu(AluOp::Cp, Operand::AtHl)));
    assert_eq!(main_table(0xee), Some(Instr::Alu(AluOp::Xor, Operand::Imm)));
    assert_eq!(main_table(0x39), Some(Instr::AddHl(WordReg::SP)));
    assert_eq!(main_table(0x35), Some(Instr::Dec(Place::AtHl)));
    assert_eq!(main_table(0x70), Some(Instr::Load(Place::AtHl, Operand::Reg(ByteReg::B))));
    assert_eq!(main_table(0x76), None);
    assert_eq!(main_table(0xcb), None);
    assert_eq!(main_table(0x00), None);
    assert_eq!(extended_table(0x7e), Some(Instr::TestBit(7, Place::AtHl)));
    assert_eq!(extended_table(0x87), Some(Instr::ResetBit(0, Place::Reg(ByteReg::A))));
    assert_eq!(extended_table(0xff), Some(Instr::SetBit(7, Place::Reg(ByteReg::A))));
    assert_eq!(extended_table(0x36), Some(Instr::Swap(Place::AtHl)));
    assert_eq!(extended_table(0x11), Some(Instr::Rl(Place::Reg(ByteReg::C))));
    assert_eq!(extended_table(0x18), None);
    assert_eq!(extended_table(0x38), None);
    assert_eq!((0..=255u8).filter(|op| main_table(*op).is_some()).count(), 176);
    assert_eq!((0..=255u8).filter(|op| extended_table(*op).is_some()).count(), 208);
}

#[test]
fn new_machine_is_in_its_power_on_state() {
    let cpu = SM83::new();
    assert_eq!(cpu.pc, 0x100);
    assert_eq!(cpu.reg, Registers::new());
    assert_eq!(cpu.bus.cycles, 0);
    assert_eq!(cpu.bus.mem.size(), 0xFFFF);
    assert_eq!(cpu.bus.rom.rom.len(), 0x150);
}

#[test]
fn core_steps_its_cpu() {
    let mut core = Core::new();
    let mut rom = vec![0u8; 0x150];
    rom[0x100] = 0x3c;
    core.sm83.bus.rom.load_new_rom(&rom).unwrap();
    assert_eq!(core.step(), Ok(()));
    assert_eq!(core.sm83.reg.a, 1);
    assert_eq!(core.sm83.pc, 0x101);
    assert!(core.step().is_err());
}

#[test]
fn hot_swap_resets_the_cartridge_but_not_the_cpu() {
    let mut cpu = machine(&[0x3c]);
    cpu.step().unwrap();
    let mut rom = vec![0u8; 0x150];
    rom[0x149] = 0x01;
    rom[0x101] = 0x3c;
    cpu.bus.rom.load_new_rom(&rom).unwrap();
    assert_eq!(cpu.reg.a, 1);
    assert_eq!(cpu.pc, 0x101);
    assert_eq!(cpu.bus.rom.ram.size(), 2048);
    cpu.step().unwrap();
    assert_eq!(cpu.reg.a, 2);
}
