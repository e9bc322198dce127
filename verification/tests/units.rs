use xtreme86::cpu::alu;
use xtreme86::cpu::instruction::{decode_at, Instruction};
use xtreme86::cpu::reg::Reg;
use xtreme86::cpu::{CpuErr, CPU, Regs};
use xtreme86::flagset::{FlagBit, FlagBits, FlagContainer, Flags};
use xtreme86::cpu::instruction::actions::{alu as alu_actions, flags, interrupt, jmp, mem, stack};

#[test]
fn modular_byte_and_word_sums() {
    assert_eq!(alu::add_with_carry_8_bit(200, 100), 44);
    assert_eq!(alu::add_with_carry_8_bit(0, 0), 0);
    assert_eq!(alu::add_with_carry_16_bit(0xFFFF, 2), 1);
    assert_eq!(alu::sub_with_carry_8_bit(5, 7), 254);
    assert_eq!(alu::sub_with_carry_16_bit(1, 2), 0xFFFF);
    assert_eq!(alu::twos_compliment_byte(1), 0xFF);
    assert_eq!(alu::twos_compliment_word(0x0002), 0xFFFE);
}

#[test]
fn parity_of_low_byte() {
    assert!(alu::parity_even(0b0000_0000));
    assert!(alu::parity_even(0b0000_0011));
    assert!(!alu::parity_even(0b0000_0111));
    assert!(alu::parity_even(0b1111_1111));
}

#[test]
fn rotates_and_shifts() {
    assert_eq!(alu::rotate_left_byte(0b1000_0001, 1), 0b0000_0011);
    assert_eq!(alu::rotate_right_byte(0b1000_0001, 1), 0b1100_0000);
    assert_eq!(alu::rotate_left_word(0x8001, 1), 0x0003);
    assert_eq!(alu::rotate_left_carry_byte(0x80, 1, false), (0x00, true));
    assert_eq!(alu::rotate_right_carry_byte(0x01, 1, true), (0x80, true));
    assert_eq!(alu::shift_left_byte(0x81, 1), (0x02, true));
    assert_eq!(alu::shift_right_byte(0x81, 1), (0x40, true));
    assert_eq!(alu::shift_right_arith_byte(0x81, 1), (0xC0, true));
    assert_eq!(alu::shift_right_arith_word(0x8002, 1), (0xC001, false));
}

#[test]
fn register_byte_halves() {
    let mut r = Reg::new();
    assert_eq!(r.value, 0);
    r.value = 0xABCD;
    assert_eq!(r.get_low(), 0xCD);
    assert_eq!(r.get_high(), 0xAB);
    r.set_low(0x11);
    assert_eq!(r.value, 0xAB11);
    r.set_high(0x22);
    assert_eq!(r.value, 0x2211);
}

#[test]
fn decoding_twice_gives_equal_instructions() {
    let programs: Vec<Vec<u8>> = vec![
        vec![0xB8, 0x06, 0x00],
        vec![0x83, 0xC0, 0x05],
        vec![0xC6, 0x06, 0x00, 0x00, 0x55],
        vec![0x26, 0xC6, 0x06, 0x00, 0x00, 0x5A],
        vec![0xF7, 0xE3],
        vec![0xCD, 0x12],
    ];
    for code in programs {
        let first: Instruction = decode_at(&code, 0, None).unwrap();
        let second: Instruction = decode_at(&code, 0, None).unwrap();
        assert!(first == second);
    }
}

#[test]
fn decode_lengths() {
    assert_eq!(decode_at(&vec![0xB8, 0x06, 0x00], 0, None).unwrap().length, 3);
    assert_eq!(decode_at(&vec![0x83, 0xC0, 0x05], 0, None).unwrap().length, 3);
    assert_eq!(decode_at(&vec![0x40], 0, None).unwrap().length, 1);
    assert_eq!(
        decode_at(&vec![0x26, 0xC6, 0x06, 0x00, 0x00, 0x5A], 0, None).unwrap().length,
        6
    );
}

#[test]
fn unknown_opcode_is_reported() {
    let r = decode_at(&vec![0xF4], 0, None);
    assert!(r == Err(CpuErr::UnknownOpcode));
}

#[test]
fn truncated_instruction_is_reported() {
    let r = decode_at(&vec![0xB8, 0x06], 0, None);
    assert!(r == Err(CpuErr::OutOfBounds));
}

#[test]
fn out_of_bounds_writes_are_reported() {
    let mut comp = CPU::new(4);
    assert!(comp.write_bytes(2, vec![1, 2, 3]) == Err(CpuErr::OutOfBounds));
    assert!(comp.write_bytes(0, vec![1, 2, 3]).is_ok());
    assert!(comp.write_word(3, 0xBEEF) == Err(CpuErr::OutOfBounds));
}

#[test]
fn fetch_past_memory_is_reported() {
    let mut comp = CPU::new(2);
    comp.set_reg(Regs::CS, 0x1000);
    let r = comp.step();
    assert!(r == Err(CpuErr::OutOfBounds));
}

#[test]
fn mnemonic_texts() {
    assert_eq!(alu_actions::add_mnemonic(0).unwrap(), "ADD");
    assert_eq!(alu_actions::adc_mnemonic(0).unwrap(), "ADC");
    assert_eq!(alu_actions::sub_mnemonic(0).unwrap(), "SUB");
    assert_eq!(alu_actions::and_mnemonic(0).unwrap(), "AND");
    assert_eq!(alu_actions::or_mnemonic(0).unwrap(), "OR");
    assert_eq!(alu_actions::xor_mnemonic(0).unwrap(), "XOR");
    assert_eq!(alu_actions::inc_mnemonic(0).unwrap(), "INC");
    assert_eq!(alu_actions::dec_mnemonic(0).unwrap(), "DEC");
    assert_eq!(alu_actions::aaa_mnemonic(0).unwrap(), "AAA");
    assert_eq!(alu_actions::aad_mnemonic(0).unwrap(), "AAD");
    assert_eq!(alu_actions::aas_mnemonic(0).unwrap(), "AAS");
    assert_eq!(alu_actions::daa_mnemonic(0).unwrap(), "DAA");
    assert_eq!(alu_actions::alu_dispatch_two_args_mnemonic(5).unwrap(), "SUB");
    assert_eq!(alu_actions::alu_dispatch_one_arg_mnemonic(6).unwrap(), "PUSH");
    assert_eq!(alu_actions::mul_dispatch_mnemonic(4).unwrap(), "MUL");
    assert_eq!(alu_actions::rotate_dispatch_mnemonic(7).unwrap(), "SAR");
    assert_eq!(alu_actions::mul_dispatch_mnemonic(0).unwrap(), "TEST");
    assert!(alu_actions::mul_dispatch_mnemonic(1).is_none());
    assert_eq!(alu_actions::alu_dispatch_two_args_mnemonic(3).unwrap(), "SBB");
    assert_eq!(alu_actions::alu_dispatch_two_args_mnemonic(7).unwrap(), "CMP");
    assert_eq!(alu_actions::alu_dispatch_one_arg_mnemonic(2).unwrap(), "CALL");
    assert!(alu_actions::alu_dispatch_one_arg_mnemonic(7).is_none());
    assert_eq!(flags::clc_mnemonic(0).unwrap(), "CLC");
    assert_eq!(flags::cld_mnemonic(0).unwrap(), "CLD");
    assert_eq!(flags::cli_mnemonic(0).unwrap(), "CLI");
    assert_eq!(flags::cmc_mnemonic(0).unwrap(), "CMC");
    assert_eq!(flags::cmp_mnemonic(0).unwrap(), "CMP");
    assert_eq!(flags::cmps_mnemonic(0).unwrap(), "CMPS");
    assert_eq!(mem::mov_mnemonic(0).unwrap(), "MOV");
    assert_eq!(mem::cbw_mnemonic(0).unwrap(), "CBW");
    assert_eq!(mem::cdw_mnemonic(0).unwrap(), "CDW");
    assert_eq!(mem::lds_mnemonic(0).unwrap(), "LDS");
    assert_eq!(mem::les_mnemonic(0).unwrap(), "LES");
    assert_eq!(mem::lea_mnemonic(0).unwrap(), "LEA");
    assert_eq!(mem::nop_mnemonic(0).unwrap(), "NOP");
    assert_eq!(stack::push_mnemonic(0).unwrap(), "PUSH");
    assert_eq!(stack::pop_mnemonic(0).unwrap(), "POP");
    assert_eq!(stack::call_mnemonic(0).unwrap(), "CALL");
    assert_eq!(stack::ret_mnemonic(0).unwrap(), "RET");
    assert_eq!(stack::enter_mnemonic(0).unwrap(), "ENTER");
    assert_eq!(interrupt::int_mnemonic(0).unwrap(), "INT");
    assert_eq!(interrupt::iret_mnemonic(0).unwrap(), "IRET");
    assert_eq!(interrupt::bound_mnemonic(0).unwrap(), "BOUND");
    assert_eq!(jmp::jmp_mnemonic(0).unwrap(), "JMP");
    assert_eq!(jmp::cond_jmp_mnemonic("Z".to_string()).unwrap(), "JZ");
    assert_eq!(jmp::loop_mnemonic("NZ".to_string()).unwrap(), "LOOPNZ");
}

/// A small flag vocabulary over a byte-wide container.
#[derive(Clone, Copy)]
enum Lamp {
    Red,
    Green,
}

impl FlagBits for Lamp {
    type Container = u8;

    fn loc_bits(&self) -> u64 {
        match self {
            Lamp::Red => 0b01,
            Lamp::Green => 0b10,
        }
    }

    fn to_loc(&self) -> u8 {
        match self {
            Lamp::Red => 0b01,
            Lamp::Green => 0b10,
        }
    }
}

#[test]
fn flag_container_bit_operations() {
    let mut bits: u16 = <u16 as FlagContainer>::none();
    assert_eq!(bits, 0);
    assert_eq!(<u16 as FlagContainer>::identity(), 1);
    FlagContainer::add(&mut bits, 0b101);
    assert_eq!(bits, 0b101);
    FlagContainer::remove(&mut bits, 0b001);
    assert_eq!(bits, 0b100);
    assert!(FlagContainer::has(&bits, 0b100));
    assert!(!FlagContainer::has(&bits, 0b010));
    let mut wide: u64 = <u64 as FlagContainer>::none();
    FlagContainer::add(&mut wide, 1 << 40);
    assert!(FlagContainer::has(&wide, 1 << 40));
}

#[test]
fn flag_set_add_and_query() {
    let mut set: Flags<Lamp> = Flags::new();
    assert!(!set.has(Lamp::Red));
    set.add(FlagBit::Is(Lamp::Red));
    assert!(set.has(Lamp::Red));
    assert!(!set.has(Lamp::Green));
    set.add(FlagBit::Is(Lamp::Green));
    set.add(FlagBit::Not(Lamp::Red));
    assert!(!set.has(Lamp::Red));
    assert!(set.has(Lamp::Green));
    let flipped = FlagBit::Is(Lamp::Red).flip();
    set.add(FlagBit::Is(Lamp::Red));
    set.add(flipped);
    assert!(!set.has(Lamp::Red));
}

#[test]
fn instruction_text() {
    let mut comp = CPU::new(16);
    comp.load(vec![0xB8, 0x06, 0x00, 0x40, 0x90], 0);
    assert_eq!(comp.get_instruction_text(0).unwrap(), "MOV AX, 6");
    assert_eq!(comp.get_instruction_text(3).unwrap(), "INC AX");
    assert_eq!(comp.get_instruction_text(4).unwrap(), "NOP");
}
