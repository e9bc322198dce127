use xtreme86::cpu::{self, CPU, CPUFlags, Regs, WordPart};
use xtreme86::peripheral::Peripheral;

/// A machine with a 4 KiB memory, the stack at the top of segment zero and
/// code running in segment 0x10, so physical 0x100 is CS:0.
fn machine() -> CPU {
    let mut comp = CPU::new(0x1000);
    comp.set_reg(Regs::SS, 0x0000);
    comp.set_reg(Regs::SP, 0x00F0);
    comp.set_reg(Regs::CS, 0x0010);
    comp.set_reg(Regs::DS, 0x0010);
    comp.set_reg(Regs::IP, 0x0000);
    comp
}

#[test]
fn register_write_then_read() {
    let mut comp = CPU::new(16);
    let all = [
        Regs::AX,
        Regs::BX,
        Regs::CX,
        Regs::DX,
        Regs::SI,
        Regs::DI,
        Regs::SP,
        Regs::BP,
        Regs::ES,
        Regs::CS,
        Regs::SS,
        Regs::DS,
        Regs::IP,
        Regs::FLAGS,
    ];
    for (i, r) in all.iter().enumerate() {
        comp.set_reg(*r, 0x1111 * (i as u16 % 6) + 7);
        assert_eq!(comp.read_reg(*r).unwrap(), 0x1111 * (i as u16 % 6) + 7);
    }
    comp.set_reg(Regs::AX, 0xABCD);
    comp.set_reg_part(Regs::AX, WordPart::Low, 0x42);
    assert_eq!(comp.read_reg_part(Regs::AX, WordPart::Low), 0x42);
    assert_eq!(comp.read_reg_part(Regs::AX, WordPart::High), 0xAB);
    comp.set_reg_part(Regs::AX, WordPart::High, 0x99);
    assert_eq!(comp.read_reg_part(Regs::AX, WordPart::High), 0x99);
    assert_eq!(comp.read_reg_part(Regs::AX, WordPart::Low), 0x42);
}

#[test]
fn add_byte_carry() {
    // MOV AL, 0xFF; ADD AL, 2 -> AL = 1, carry set.
    let mut comp = machine();
    comp.load(vec![0xB0, 0xFF, 0x04, 0x02, 0x90], 0x100);
    comp.run_to_nop(0).unwrap();
    assert_eq!(comp.read_reg_part(Regs::AX, WordPart::Low), 0x01);
    assert_ne!(comp.read_reg(Regs::FLAGS).unwrap() & CPUFlags::CARRY, 0);
}

#[test]
fn add_word_no_carry() {
    // ADD AX, 5 with AX = 0: carry and overflow clear.
    let mut comp = machine();
    comp.load(vec![0x83, 0xC0, 0x05, 0x90], 0x100);
    comp.run_to_nop(0).unwrap();
    assert_eq!(comp.read_reg(Regs::AX).unwrap(), 5);
    assert_eq!(
        comp.read_reg(Regs::FLAGS).unwrap() & (CPUFlags::CARRY | CPUFlags::OVERFLOW),
        0
    );
}

#[test]
fn push_pop_round_trip() {
    // MOV AX, 5; PUSH AX; POP BX: BX gets 5 and SP returns.
    let mut comp = machine();
    let sp0 = comp.read_reg(Regs::SP).unwrap();
    comp.load(vec![0xB8, 0x05, 0x00, 0x50, 0x5B, 0x90], 0x100);
    comp.run_to_nop(0).unwrap();
    assert_eq!(comp.read_reg(Regs::BX).unwrap(), 0x05);
    assert_eq!(comp.read_reg(Regs::SP).unwrap(), sp0);
}

#[test]
fn interrupt_and_return() {
    // INT 2 through a vector whose handler loads AX and returns: FLAGS, CS,
    // IP and SP come back.
    let mut comp = machine();
    // Vector 2: offset word 0, segment word 0x20.
    comp.write_bytes(8, vec![0x00, 0x00, 0x20, 0x00]).unwrap();
    // Program: INT 2; NOP.
    comp.load(vec![0xCD, 0x02, 0x90], 0x100);
    // Handler at 0x20:0 -> physical 0x200: MOV AX, 5; IRET.
    comp.load(vec![0xB8, 0x05, 0x00, 0xCF], 0x200);
    let sp0 = comp.read_reg(Regs::SP).unwrap();
    comp.run_to_nop(0).unwrap();
    assert_eq!(comp.read_reg(Regs::AX).unwrap(), 5);
    assert_eq!(comp.read_reg(Regs::SP).unwrap(), sp0);
    assert_eq!(comp.read_reg(Regs::CS).unwrap(), 0x0010);
}

#[test]
fn divide_by_zero_resumes_at_handler() {
    // DIV by a zero register raises the divide exception; the handler makes
    // the divisor sane and returns, so the retried division succeeds.
    let mut comp = machine();
    // Vector 0: offset word 0, segment word 0x20.
    comp.write_bytes(0, vec![0x00, 0x00, 0x20, 0x00]).unwrap();
    // Program: MOV BX, 0; MOV AX, 8; DIV BX; NOP.
    comp.load(
        vec![0xBB, 0x00, 0x00, 0xB8, 0x08, 0x00, 0xF7, 0xF3, 0x90],
        0x100,
    );
    // Handler: MOV BX, 2; IRET.
    comp.load(vec![0xBB, 0x02, 0x00, 0xCF], 0x200);
    comp.run_to_nop(0).unwrap();
    assert_eq!(comp.read_reg(Regs::AX).unwrap(), 0x0004);
}

#[test]
fn inc_byte_wraps_and_flags() {
    // INC on a byte holding 0xFF wraps to 0 and sets ZERO and OVERFLOW.
    let mut comp = machine();
    comp.write_bytes(0x110, vec![0xFF]).unwrap();
    // INC byte [0x0010]; NOP (the pointer is DS-relative, DS = 0x10).
    comp.load(vec![0xFE, 0x06, 0x10, 0x00, 0x90], 0x100);
    comp.run_to_nop(0).unwrap();
    assert_eq!(comp.probe_mem(0x110), 0x00);
    assert_eq!(
        comp.read_reg(Regs::FLAGS).unwrap() & (CPUFlags::OVERFLOW | CPUFlags::ZERO),
        CPUFlags::OVERFLOW | CPUFlags::ZERO
    );
}

#[test]
fn conditional_jump_taken() {
    // CMP AX, 5 with AX = 5 sets ZERO; JZ skips the MOV that would clobber AX.
    let mut comp = machine();
    comp.load(
        vec![0xB8, 0x05, 0x00, 0x3D, 0x05, 0x00, 0x74, 0x03, 0xB8, 0xFF, 0x00, 0x90],
        0x100,
    );
    comp.run_to_nop(0).unwrap();
    assert_eq!(comp.read_reg(Regs::AX).unwrap(), 5);
}

#[test]
fn conditional_jump_not_taken() {
    // CMP AX, 6 with AX = 5 clears ZERO; JZ falls through into the MOV.
    let mut comp = machine();
    comp.load(
        vec![0xB8, 0x05, 0x00, 0x3D, 0x06, 0x00, 0x74, 0x03, 0xB8, 0xFF, 0x00, 0x90],
        0x100,
    );
    comp.run_to_nop(0).unwrap();
    assert_eq!(comp.read_reg(Regs::AX).unwrap(), 0xFF);
}

#[test]
fn loop_counts_down() {
    // MOV CX, 3; INC AX; LOOP back: the body runs three times.
    let mut comp = machine();
    comp.load(vec![0xB9, 0x03, 0x00, 0x40, 0xE2, 0xFD, 0x90], 0x100);
    comp.run_to_nop(0).unwrap();
    assert_eq!(comp.read_reg(Regs::AX).unwrap(), 3);
    assert_eq!(comp.read_reg(Regs::CX).unwrap(), 0);
}

#[test]
fn rotate_left_word() {
    // MOV AX, 0x1234; ROL AX, 4 -> 0x2341.
    let mut comp = machine();
    comp.load(vec![0xB8, 0x34, 0x12, 0xC1, 0xC0, 0x04, 0x90], 0x100);
    comp.run_to_nop(0).unwrap();
    assert_eq!(comp.read_reg(Regs::AX).unwrap(), 0x2341);
}

#[test]
fn shift_left_sets_carry() {
    // MOV AL, 0x81; SHL AL, 1 -> 0x02 with carry from the old top bit.
    let mut comp = machine();
    comp.load(vec![0xB0, 0x81, 0xC0, 0xE0, 0x01, 0x90], 0x100);
    comp.run_to_nop(0).unwrap();
    assert_eq!(comp.read_reg_part(Regs::AX, WordPart::Low), 0x02);
    assert_ne!(comp.read_reg(Regs::FLAGS).unwrap() & CPUFlags::CARRY, 0);
}

#[test]
fn call_and_return() {
    // CALL a routine that loads AX, then RET back to the NOP.
    let mut comp = machine();
    let sp0 = comp.read_reg(Regs::SP).unwrap();
    // CALL rel16 +0x0001 (to offset 4); NOP; MOV AX, 0x16; RET.
    comp.load(
        vec![0xE8, 0x01, 0x00, 0x90, 0xB8, 0x16, 0x00, 0xC3],
        0x100,
    );
    comp.run_to_nop(0).unwrap();
    assert_eq!(comp.read_reg(Regs::AX).unwrap(), 0x16);
    assert_eq!(comp.read_reg(Regs::SP).unwrap(), sp0);
}

#[test]
fn string_move_forward() {
    // CLD; MOV CX,3; REP MOVSB copies three bytes from DS:SI to ES:DI.
    let mut comp = machine();
    comp.set_reg(Regs::DS, 0x0040);
    comp.set_reg(Regs::ES, 0x0030);
    comp.set_reg(Regs::SI, 0x0000);
    comp.set_reg(Regs::DI, 0x0000);
    comp.write_bytes_ds(0, vec![0x11, 0x22, 0x33]).unwrap();
    comp.load(vec![0xFC, 0xB9, 0x03, 0x00, 0xF3, 0xA4, 0x90], 0x100);
    comp.run_to_nop(0).unwrap();
    assert_eq!(comp.probe_mem_es(0), 0x11);
    assert_eq!(comp.probe_mem_es(1), 0x22);
    assert_eq!(comp.probe_mem_es(2), 0x33);
    assert_eq!(comp.read_reg(Regs::CX).unwrap(), 0);
    assert_eq!(comp.read_reg(Regs::SI).unwrap(), 3);
    assert_eq!(comp.read_reg(Regs::DI).unwrap(), 3);
}

#[test]
fn segment_override_prefix() {
    // MOV with an ES override writes through ES instead of DS.
    let mut comp = machine();
    comp.set_reg(Regs::DS, 0x0040);
    comp.set_reg(Regs::ES, 0x0030);
    // ES: MOV byte [0x0000], 0x5A; NOP.
    comp.load(vec![0x26, 0xC6, 0x06, 0x00, 0x00, 0x5A, 0x90], 0x100);
    comp.run_to_nop(0).unwrap();
    assert_eq!(comp.probe_mem_es(0), 0x5A);
    assert_eq!(comp.probe_mem_ds(0), 0x00);
}

/// A byte-wide device for the tests: it remembers the last byte written and
/// serves a fixed word.
struct TestDevice {
    hooked: u16,
    interrupts: std::cell::Cell<u8>,
}

impl Peripheral for TestDevice {
    fn init(&self, _bus: &mut cpu::Bus, _index: usize) -> Vec<u16> {
        vec![self.hooked]
    }

    fn handle_interrupt(&mut self, bus: &mut cpu::Bus, _int_num: u8) -> usize {
        self.interrupts.set(self.interrupts.get() + 1);
        bus.set_reg(Regs::DX, 0x7777);
        0
    }

    fn handle_mem_read_byte(&mut self, _address: u16) -> u8 {
        0x42
    }

    fn handle_mem_read_word(&mut self, _address: u16) -> u16 {
        0x1234
    }

    fn handle_mem_write_byte(&mut self, _address: u16, _val: u8) {}

    fn handle_mem_write_word(&mut self, _address: u16, _val: u16) {}
}

#[test]
fn port_read_reaches_device() {
    let mut comp = machine();
    comp.hook_peripheral(Box::new(TestDevice { hooked: 0x00F2, interrupts: std::cell::Cell::new(0) }));
    // IN AL, 0xF2; NOP.
    comp.load(vec![0xE4, 0xF2, 0x90], 0x100);
    comp.run_to_nop(0).unwrap();
    assert_eq!(comp.read_reg_part(Regs::AX, WordPart::Low), 0x42);
}

#[test]
fn peripheral_interrupt_restores_state() {
    let mut comp = machine();
    let index = comp.hook_peripheral(Box::new(TestDevice {
        hooked: 0x00F2,
        interrupts: std::cell::Cell::new(0),
    }));
    comp.hook_interrupt(index, 0x12).unwrap();
    let sp0 = comp.read_reg(Regs::SP).unwrap();
    // INT 0x12; NOP.
    comp.load(vec![0xCD, 0x12, 0x90], 0x100);
    comp.run_to_nop(0).unwrap();
    assert_eq!(comp.read_reg(Regs::DX).unwrap(), 0x7777);
    assert_eq!(comp.read_reg(Regs::SP).unwrap(), sp0);
    assert_eq!(comp.read_reg(Regs::CS).unwrap(), 0x0010);
}

#[test]
fn lea_takes_the_address() {
    // LEA AX, [0x0009] loads the offset itself, not the memory behind it.
    let mut comp = machine();
    comp.load(vec![0x8D, 0x06, 0x09, 0x00, 0x90], 0x100);
    comp.run_to_nop(0).unwrap();
    assert_eq!(comp.read_reg(Regs::AX).unwrap(), 9);
}

#[test]
fn xchg_swaps_operands() {
    let mut comp = machine();
    comp.load(vec![0xB8, 0x01, 0x00, 0xBB, 0x02, 0x00, 0x87, 0xC3, 0x90], 0x100);
    comp.run_to_nop(0).unwrap();
    assert_eq!(comp.read_reg(Regs::AX).unwrap(), 2);
    assert_eq!(comp.read_reg(Regs::BX).unwrap(), 1);
}

#[test]
fn cbw_copies_the_sign_up() {
    // MOV AL, 0xFF; CBW -> AX = 0xFFFF.
    let mut comp = machine();
    comp.load(vec![0xB0, 0xFF, 0x98, 0x90], 0x100);
    comp.run_to_nop(0).unwrap();
    assert_eq!(comp.read_reg(Regs::AX).unwrap(), 0xFFFF);
}

#[test]
fn cwd_spreads_the_sign_into_dx() {
    // MOV AX, 0x8000; CWD -> DX = 0xFFFF.
    let mut comp = machine();
    comp.load(vec![0xB8, 0x00, 0x80, 0x99, 0x90], 0x100);
    comp.run_to_nop(0).unwrap();
    assert_eq!(comp.read_reg(Regs::DX).unwrap(), 0xFFFF);
}

#[test]
fn neg_takes_the_two_s_complement() {
    // MOV AX, 5; NEG AX -> 0xFFFB.
    let mut comp = machine();
    comp.load(vec![0xB8, 0x05, 0x00, 0xF7, 0xD8, 0x90], 0x100);
    comp.run_to_nop(0).unwrap();
    assert_eq!(comp.read_reg(Regs::AX).unwrap(), 0xFFFB);
}

#[test]
fn sar_keeps_the_sign_bit() {
    // MOV AL, 0x82; SAR AL, 1 -> 0xC1.
    let mut comp = machine();
    comp.load(vec![0xB0, 0x82, 0xC0, 0xF8, 0x01, 0x90], 0x100);
    comp.run_to_nop(0).unwrap();
    assert_eq!(comp.read_reg_part(Regs::AX, WordPart::Low), 0xC1);
}

#[test]
fn daa_corrects_the_low_nibble() {
    // MOV AL, 0x1A; DAA -> 0x20 with the auxiliary carry set.
    let mut comp = machine();
    comp.load(vec![0xB0, 0x1A, 0x27, 0x90], 0x100);
    comp.run_to_nop(0).unwrap();
    assert_eq!(comp.read_reg_part(Regs::AX, WordPart::Low), 0x20);
    assert_ne!(comp.read_reg(Regs::FLAGS).unwrap() & CPUFlags::AUX_CARRY, 0);
}

#[test]
fn aad_folds_the_digits() {
    // MOV AX, 0x0102; AAD 10 -> AX = 12.
    let mut comp = machine();
    comp.load(vec![0xB8, 0x02, 0x01, 0xD5, 0x0A, 0x90], 0x100);
    comp.run_to_nop(0).unwrap();
    assert_eq!(comp.read_reg(Regs::AX).unwrap(), 12);
}

#[test]
fn far_call_and_far_return() {
    // CALL 0x20:0 runs a routine in another segment; RETF comes back.
    let mut comp = machine();
    let sp0 = comp.read_reg(Regs::SP).unwrap();
    comp.load(vec![0x9A, 0x00, 0x00, 0x20, 0x00, 0x90], 0x100);
    comp.load(vec![0xB8, 0x10, 0x00, 0xCB], 0x200);
    comp.run_to_nop(0).unwrap();
    assert_eq!(comp.read_reg(Regs::AX).unwrap(), 0x10);
    assert_eq!(comp.read_reg(Regs::CS).unwrap(), 0x0010);
    assert_eq!(comp.read_reg(Regs::SP).unwrap(), sp0);
}

#[test]
fn enter_and_leave_balance_the_stack() {
    // ENTER 4, 0 opens a frame with four local bytes; LEAVE closes it.
    let mut comp = machine();
    let sp0 = comp.read_reg(Regs::SP).unwrap();
    let bp0 = comp.read_reg(Regs::BP).unwrap();
    comp.load(vec![0xC8, 0x04, 0x00, 0x00, 0xC9, 0x90], 0x100);
    comp.run_to_nop(0).unwrap();
    assert_eq!(comp.read_reg(Regs::SP).unwrap(), sp0);
    assert_eq!(comp.read_reg(Regs::BP).unwrap(), bp0);
}

#[test]
fn sbb_borrows_the_carry() {
    // STC; MOV AX, 5; SBB AX, 2 -> 2.
    let mut comp = machine();
    comp.load(vec![0xF9, 0xB8, 0x05, 0x00, 0x1D, 0x02, 0x00, 0x90], 0x100);
    comp.run_to_nop(0).unwrap();
    assert_eq!(comp.read_reg(Regs::AX).unwrap(), 2);
}

#[test]
fn adc_adds_the_carry() {
    // STC; MOV AX, 5; ADC AX, 2 -> 8.
    let mut comp = machine();
    comp.load(vec![0xF9, 0xB8, 0x05, 0x00, 0x15, 0x02, 0x00, 0x90], 0x100);
    comp.run_to_nop(0).unwrap();
    assert_eq!(comp.read_reg(Regs::AX).unwrap(), 8);
}

#[test]
fn lds_loads_register_and_segment() {
    // LDS BX, [0x0020]: BX takes the offset word and DS the segment word of
    // the double word at DS:0x20.
    let mut comp = machine();
    comp.write_bytes(0x120, vec![0x34, 0x12, 0x78, 0x56]).unwrap();
    comp.load(vec![0xC5, 0x1E, 0x20, 0x00, 0x90], 0x100);
    comp.run_to_nop(0).unwrap();
    assert_eq!(comp.read_reg(Regs::BX).unwrap(), 0x1234);
    assert_eq!(comp.read_reg(Regs::DS).unwrap(), 0x5678);
}

#[test]
fn les_loads_register_and_segment() {
    // LES CX, [0x0020]: CX takes the offset word and ES the segment word.
    let mut comp = machine();
    comp.write_bytes(0x120, vec![0x34, 0x12, 0x78, 0x56]).unwrap();
    comp.load(vec![0xC4, 0x0E, 0x20, 0x00, 0x90], 0x100);
    comp.run_to_nop(0).unwrap();
    assert_eq!(comp.read_reg(Regs::CX).unwrap(), 0x1234);
    assert_eq!(comp.read_reg(Regs::ES).unwrap(), 0x5678);
}
