use vstd::prelude::*;
use crate::cpu::{CPUFlags, Regs};
use crate::cpu::model::{self, Arch};
use crate::cpu::reg::{high_byte, low_byte, word_of};
use crate::cpu::instruction::args::DstArg;
use crate::cpu::instruction::opcode::OpAction;
use crate::cpu::instruction::actions::alu::{alu_carry8, alu_carry16, spec_alu_two};
use crate::cpu::instruction::actions::interrupt::{spec_iret, spec_service};

verus! {

/// Writing a register and reading it back gives the written value, and
/// every other register, the memory, and the pending-interrupt latch are
/// exactly as they were.
pub proof fn lemma_register_round_trip(a: Arch, r: Regs, v: u16)
    ensures
        a.with_reg(r, v).reg(r) == v,
        forall|r2: Regs| r2 != r ==> a.with_reg(r, v).reg(r2) == a.reg(r2),
        a.with_reg(r, v).ram == a.ram,
        a.with_reg(r, v).irq == a.irq,
{
}

/// Writing one byte half of a register leaves the other half unchanged, and
/// reading the half just written gives the byte back.
pub proof fn lemma_register_half_round_trip(a: Arch, r: Regs, v: u8)
    ensures
        low_byte(a.with_reg(r, word_of(high_byte(a.reg(r)), v)).reg(r)) == v,
        high_byte(a.with_reg(r, word_of(high_byte(a.reg(r)), v)).reg(r)) == high_byte(a.reg(r)),
        high_byte(a.with_reg(r, word_of(v, low_byte(a.reg(r)))).reg(r)) == v,
        low_byte(a.with_reg(r, word_of(v, low_byte(a.reg(r)))).reg(r)) == low_byte(a.reg(r)),
{
    crate::cpu::reg::lemma_byte_halves_round_trip(a.reg(r), v);
}

/// Turning flag bits on or off leaves every flag outside the mask alone.
pub proof fn lemma_with_flag_frame(a: Arch, mask: u16, other: u16, on: bool)
    requires
        mask & other == 0,
    ensures
        a.with_flag(mask, on).flag_set(other) == a.flag_set(other),
{
    let f = a.flags;
    assert(((f | mask) & other == f & other) && ((f & !mask) & other == f & other))
        by (bit_vector)
        requires
            mask & other == 0,
    ;
}

/// After turning flag bits on or off, testing those bits gives back what was
/// set.
pub proof fn lemma_with_flag_set(a: Arch, mask: u16, on: bool)
    requires
        mask != 0,
    ensures
        a.with_flag(mask, on).flag_set(mask) == on,
{
    let f = a.flags;
    assert(((f | mask) & mask != 0) && ((f & !mask) & mask == 0)) by (bit_vector)
        requires
            mask != 0,
    ;
}

/// The flag updates of a byte-wide addition: carry lands exactly when the
/// unwrapped sum exceeds the byte maximum, and no register or memory cell
/// moves.
proof fn lemma_alu_flags8_add(b: Arch, x: u8, y: u8, cf: bool, res: u8)
    ensures
        ({
            let c = crate::cpu::instruction::actions::alu::alu_flags8(
                b,
                OpAction::Add,
                x,
                y,
                cf,
                res,
            );
            &&& c.flag_set(CPUFlags::CARRY) == (y + x > 0xFF)
            &&& forall|r: Regs| r != Regs::FLAGS ==> c.reg(r) == b.reg(r)
            &&& c.ram == b.ram
        }),
{
    assert(CPUFlags::AUX_CARRY & CPUFlags::CARRY == 0 && CPUFlags::ZERO & CPUFlags::CARRY == 0
        && CPUFlags::SIGN & CPUFlags::CARRY == 0 && CPUFlags::PARITY & CPUFlags::CARRY == 0 && (
    CPUFlags::ZERO | CPUFlags::SIGN | CPUFlags::PARITY) & CPUFlags::ZERO != 0 && (CPUFlags::ZERO
        | CPUFlags::SIGN | CPUFlags::PARITY) & CPUFlags::SIGN != 0 && (CPUFlags::ZERO
        | CPUFlags::SIGN | CPUFlags::PARITY) & CPUFlags::PARITY != 0) by (bit_vector);
    let carry = alu_carry8(OpAction::Add, x, y, cf);
    let aux = crate::cpu::instruction::actions::alu::alu_aux8(OpAction::Add, x, y, cf);
    let b1 = b.with_flag(CPUFlags::CARRY, carry);
    lemma_with_flag_set(b, CPUFlags::CARRY, carry);
    let b2 = b1.with_flag(CPUFlags::AUX_CARRY, aux);
    lemma_with_flag_frame(b1, CPUFlags::AUX_CARRY, CPUFlags::CARRY, aux);
    let v = crate::cpu::instruction::args::SrcArg::Byte(res);
    let c1 = b2.with_flag(CPUFlags::ZERO, model::val_is_zero(v));
    lemma_with_flag_frame(b2, CPUFlags::ZERO, CPUFlags::CARRY, model::val_is_zero(v));
    let c2 = c1.with_flag(CPUFlags::SIGN, model::val_sign(v));
    lemma_with_flag_frame(c1, CPUFlags::SIGN, CPUFlags::CARRY, model::val_sign(v));
    let pf = crate::cpu::alu::spec_parity_even(model::val_low_byte(v));
    let c3 = c2.with_flag(CPUFlags::PARITY, pf);
    lemma_with_flag_frame(c2, CPUFlags::PARITY, CPUFlags::CARRY, pf);
    assert(crate::cpu::instruction::actions::alu::alu_flags8(b, OpAction::Add, x, y, cf, res)
        == c3);
}

/// The flag updates of a word-wide addition.
proof fn lemma_alu_flags16_add(b: Arch, x: u16, y: u16, cf: bool, res: u16)
    ensures
        ({
            let c = crate::cpu::instruction::actions::alu::alu_flags16(
                b,
                OpAction::Add,
                x,
                y,
                cf,
                res,
            );
            &&& c.flag_set(CPUFlags::CARRY) == (y + x > 0xFFFF)
            &&& forall|r: Regs| r != Regs::FLAGS ==> c.reg(r) == b.reg(r)
            &&& c.ram == b.ram
        }),
{
    assert(CPUFlags::AUX_CARRY & CPUFlags::CARRY == 0 && CPUFlags::ZERO & CPUFlags::CARRY == 0
        && CPUFlags::SIGN & CPUFlags::CARRY == 0 && CPUFlags::PARITY & CPUFlags::CARRY == 0 && (
    CPUFlags::ZERO | CPUFlags::SIGN | CPUFlags::PARITY) & CPUFlags::ZERO != 0 && (CPUFlags::ZERO
        | CPUFlags::SIGN | CPUFlags::PARITY) & CPUFlags::SIGN != 0 && (CPUFlags::ZERO
        | CPUFlags::SIGN | CPUFlags::PARITY) & CPUFlags::PARITY != 0) by (bit_vector);
    let carry = alu_carry16(OpAction::Add, x, y, cf);
    let aux = crate::cpu::instruction::actions::alu::alu_aux16(OpAction::Add, x, y, cf);
    let b1 = b.with_flag(CPUFlags::CARRY | CPUFlags::OVERFLOW, carry);
    assert(b1.flag_set(CPUFlags::CARRY) == carry) by {
        let f = b.flags;
        let m: u16 = CPUFlags::CARRY | CPUFlags::OVERFLOW;
        assert((((f | m) & 0x1u16) != 0) && (((f & !m) & 0x1u16) == 0)) by (bit_vector)
            requires
                m == 0x1u16 | 0x800u16,
        ;
    }
    let b2 = b1.with_flag(CPUFlags::AUX_CARRY, aux);
    lemma_with_flag_frame(b1, CPUFlags::AUX_CARRY, CPUFlags::CARRY, aux);
    let v = crate::cpu::instruction::args::SrcArg::Word(res);
    let c1 = b2.with_flag(CPUFlags::ZERO, model::val_is_zero(v));
    lemma_with_flag_frame(b2, CPUFlags::ZERO, CPUFlags::CARRY, model::val_is_zero(v));
    let c2 = c1.with_flag(CPUFlags::SIGN, model::val_sign(v));
    lemma_with_flag_frame(c1, CPUFlags::SIGN, CPUFlags::CARRY, model::val_sign(v));
    let pf = crate::cpu::alu::spec_parity_even(model::val_low_byte(v));
    let c3 = c2.with_flag(CPUFlags::PARITY, pf);
    lemma_with_flag_frame(c2, CPUFlags::PARITY, CPUFlags::CARRY, pf);
    assert(crate::cpu::instruction::actions::alu::alu_flags16(b, OpAction::Add, x, y, cf, res)
        == c3);
}

/// The law of byte addition: adding an immediate to a byte register leaves
/// the register holding the sum reduced mod 256, and the carry flag set
/// exactly when the unwrapped sum exceeds 255.
#[verifier::rlimit(100)]
#[verifier::spinoff_prover]
pub proof fn lemma_add_byte_law(a: Arch, x: u8, n: u8)
    requires
        n < 8,
    ensures
        ({
            let y = a.reg8(n);
            let t = spec_alu_two(a, Regs::DS, DstArg::Imm8(x), DstArg::Reg8(n), OpAction::Add);
            &&& t is Some
            &&& t.unwrap().reg8(n) == (y + x) % 0x100
            &&& t.unwrap().flag_set(CPUFlags::CARRY) == (y + x > 0xFF)
        }),
{
    let y = a.reg8(n);
    let cf = a.flag_set(CPUFlags::CARRY);
    let t = spec_alu_two(a, Regs::DS, DstArg::Imm8(x), DstArg::Reg8(n), OpAction::Add);
    let res = ((y + x) % 0x100) as u8;
    assert(model::spec_resolve_arg(a, Regs::DS, DstArg::Imm8(x))
        == Some(crate::cpu::instruction::args::SrcArg::Byte(x)));
    assert(model::spec_resolve_arg(a, Regs::DS, DstArg::Reg8(n))
        == Some(crate::cpu::instruction::args::SrcArg::Byte(y)));
    let wrote = a.with_reg8(n, res);
    assert(model::spec_write_arg(
        a,
        Regs::DS,
        DstArg::Reg8(n),
        crate::cpu::instruction::args::SrcArg::Byte(res),
    ) == Some(wrote));
    assert(t == Some(
        crate::cpu::instruction::actions::alu::alu_flags8(wrote, OpAction::Add, x, y, cf, res),
    ));
    lemma_alu_flags8_add(wrote, x, y, cf, res);
    let r16 = model::spec_reg16_of_num((n % 4) as u8).unwrap();
    crate::cpu::reg::lemma_byte_halves_round_trip(a.reg(r16), res);
    assert(wrote.reg8(n) == res);
    assert(t.unwrap().reg8(n) == res);
}

/// The law of word addition: the destination takes the sum reduced
/// mod 65536, and carry is set exactly when the unwrapped sum exceeds 65535.
#[verifier::rlimit(100)]
#[verifier::spinoff_prover]
pub proof fn lemma_add_word_law(a: Arch, x: u16, n: u8)
    requires
        n < 8,
    ensures
        ({
            let y = a.reg(model::spec_reg16_of_num(n).unwrap());
            let t = spec_alu_two(a, Regs::DS, DstArg::Imm16(x), DstArg::Reg16(n), OpAction::Add);
            &&& t is Some
            &&& t.unwrap().reg(model::spec_reg16_of_num(n).unwrap()) == (y + x) % 0x10000
            &&& t.unwrap().flag_set(CPUFlags::CARRY) == (y + x > 0xFFFF)
        }),
{
    let rr = model::spec_reg16_of_num(n).unwrap();
    let y = a.reg(rr);
    let cf = a.flag_set(CPUFlags::CARRY);
    let t = spec_alu_two(a, Regs::DS, DstArg::Imm16(x), DstArg::Reg16(n), OpAction::Add);
    let res = ((y + x) % 0x10000) as u16;
    assert(model::spec_resolve_arg(a, Regs::DS, DstArg::Imm16(x))
        == Some(crate::cpu::instruction::args::SrcArg::Word(x)));
    assert(model::spec_resolve_arg(a, Regs::DS, DstArg::Reg16(n))
        == Some(crate::cpu::instruction::args::SrcArg::Word(y)));
    let wrote = a.with_reg(rr, res);
    assert(model::spec_write_arg(
        a,
        Regs::DS,
        DstArg::Reg16(n),
        crate::cpu::instruction::args::SrcArg::Word(res),
    ) == Some(wrote));
    assert(t == Some(
        crate::cpu::instruction::actions::alu::alu_flags16(wrote, OpAction::Add, x, y, cf, res),
    ));
    lemma_alu_flags16_add(wrote, x, y, cf, res);
    assert(wrote.reg(rr) == res);
    assert(t.unwrap().reg(rr) == res);
}

/// Word offsets that name no common byte, taken through the same segment,
/// read and write independently: writing one leaves the other's word intact.
pub proof fn lemma_disjoint_word_slots(a: Arch, seg: Regs, off1: u16, off2: u16, v: u16)
    requires
        off2 != off1,
        off2 != model::wadd(off1, 1),
        model::wadd(off2, 1) != off1,
        model::wadd(off2, 1) != model::wadd(off1, 1),
        a.word_in_bounds(seg, off1),
    ensures
        a.with_word(seg, off1, v).word_at(seg, off2) == a.word_at(seg, off2),
{
}

/// A pushed word reads back: the stack slot the push filled holds the
/// pushed value.
pub proof fn lemma_push_reads_back(a: Arch, v: u16)
    requires
        a.spec_push_word(v) is Some,
    ensures
        a.spec_push_word(v).unwrap().word_at(Regs::SS, model::wsub(a.sp, 1)) == Some(v),
{
    let off = model::wsub(a.sp, 1);
    let b = a.with_word(Regs::SS, off, v);
    assert(model::wadd(off, 1) != off);
    crate::cpu::reg::lemma_word_of_halves(v);
    assert(b.word_at(Regs::SS, off) == Some(v));
}

/// The stack round-trip law: pushing a word and popping it straight back
/// gives the same word, returns SP to its value before the push, and leaves
/// every register as it was — for any SP whose stack slot lies in memory.
pub proof fn lemma_stack_round_trip(a: Arch, v: u16)
    requires
        a.word_in_bounds(Regs::SS, model::wsub(a.sp, 1)),
    ensures
        ({
            let pushed = a.spec_push_word(v);
            &&& pushed is Some
            &&& pushed.unwrap().spec_pop_word() is Some
            &&& pushed.unwrap().spec_pop_word().unwrap().1 == v
            &&& pushed.unwrap().spec_pop_word().unwrap().0.sp == a.sp
            &&& forall|r: Regs| pushed.unwrap().spec_pop_word().unwrap().0.reg(r) == a.reg(r)
        }),
{
    let off = model::wsub(a.sp, 1);
    let pushed = a.spec_push_word(v).unwrap();
    assert(model::wadd(pushed.sp, 1) == off);
    lemma_push_reads_back(a, v);
    assert(pushed.word_at(Regs::SS, off) == Some(v));
    assert(model::wadd(pushed.sp, 2) == a.sp);
}

/// Two states with the same memory and the same SS read every stack word
/// alike.
proof fn lemma_word_at_reg_frame(x: Arch, y: Arch, off: u16)
    requires
        x.ram == y.ram,
        x.ss == y.ss,
    ensures
        x.word_at(Regs::SS, off) == y.word_at(Regs::SS, off),
{
}

/// The offsets of the three stacked words and their byte cells are pairwise
/// distinct, and stepping back up the stack lands on them in reverse order.
proof fn lemma_stack_offsets(sp: u16)
    ensures
        model::wsub(model::wsub(sp, 2), 1) == model::wsub(sp, 3),
        model::wsub(model::wsub(sp, 4), 1) == model::wsub(sp, 5),
        model::wsub(model::wsub(sp, 2), 2) == model::wsub(sp, 4),
        model::wsub(model::wsub(sp, 4), 2) == model::wsub(sp, 6),
        model::wadd(model::wsub(sp, 6), 1) == model::wsub(sp, 5),
        model::wadd(model::wsub(sp, 6), 2) == model::wsub(sp, 4),
        model::wadd(model::wsub(sp, 4), 1) == model::wsub(sp, 3),
        model::wadd(model::wsub(sp, 4), 2) == model::wsub(sp, 2),
        model::wadd(model::wsub(sp, 2), 1) == model::wsub(sp, 1),
        model::wadd(model::wsub(sp, 2), 2) == sp,
        model::wadd(model::wsub(sp, 1), 1) == sp,
        model::wadd(model::wsub(sp, 3), 1) == model::wsub(sp, 2),
        model::wadd(model::wsub(sp, 5), 1) == model::wsub(sp, 4),
        model::wsub(sp, 1) != model::wsub(sp, 3),
        model::wsub(sp, 1) != model::wsub(sp, 5),
        model::wsub(sp, 3) != model::wsub(sp, 5),
        model::wsub(sp, 1) != model::wsub(sp, 2),
        model::wsub(sp, 1) != model::wsub(sp, 4),
        model::wsub(sp, 3) != model::wsub(sp, 4),
        model::wsub(sp, 2) != model::wsub(sp, 5),
        model::wsub(sp, 2) != model::wsub(sp, 3),
        model::wsub(sp, 4) != model::wsub(sp, 5),
        sp != model::wsub(sp, 3),
        sp != model::wsub(sp, 5),
        sp != model::wsub(sp, 2),
        sp != model::wsub(sp, 4),
        sp != model::wsub(sp, 1),
{
}

/// The stack pointer and stack segment after an interrupt dispatch: SS is
/// untouched, SP has moved down by the three saved words, and the memory is
/// exactly what the three pushes left.
#[verifier::rlimit(100)]
#[verifier::spinoff_prover]
proof fn lemma_service_sp(a: Arch, n: u8)
    requires
        spec_service(a, n) is Some,
    ensures
        spec_service(a, n).unwrap().ss == a.ss,
        spec_service(a, n).unwrap().sp == model::wsub(a.sp, 6),
        spec_service(a, n).unwrap().ram == a.spec_push_word(a.flags).unwrap().spec_push_word(
            a.cs,
        ).unwrap().spec_push_word(a.ip).unwrap().ram,
{
    let b = a.spec_push_word(a.flags).unwrap();
    let c = b.spec_push_word(b.cs).unwrap();
    let d = c.spec_push_word(c.ip).unwrap();
    assert(b.cs == a.cs && c.ip == a.ip);
    assert(b.sp == model::wsub(a.sp, 2) && c.sp == model::wsub(a.sp, 4) && d.sp == model::wsub(
        a.sp,
        6,
    ));
}

/// After an interrupt dispatch, the three saved words still sit where the
/// pushes put them: the return offset nearest the stack top, then the
/// segment, then the flags.
#[verifier::rlimit(100)]
#[verifier::spinoff_prover]
proof fn lemma_service_frame(a: Arch, n: u8)
    requires
        spec_service(a, n) is Some,
    ensures
        ({
            let s = spec_service(a, n).unwrap();
            &&& s.ss == a.ss
            &&& s.sp == model::wsub(a.sp, 6)
            &&& s.word_at(Regs::SS, model::wsub(a.sp, 5)) == Some(a.ip)
            &&& s.word_at(Regs::SS, model::wsub(a.sp, 3)) == Some(a.cs)
            &&& s.word_at(Regs::SS, model::wsub(a.sp, 1)) == Some(a.flags)
        }),
{
    let sp = a.sp;
    let o1 = model::wsub(sp, 1);
    let o2 = model::wsub(sp, 3);
    let o3 = model::wsub(sp, 5);
    lemma_stack_offsets(sp);
    let b = a.spec_push_word(a.flags).unwrap();
    let c = b.spec_push_word(b.cs).unwrap();
    let d = c.spec_push_word(c.ip).unwrap();
    lemma_service_sp(a, n);
    let s = spec_service(a, n).unwrap();
    assert(b.sp == model::wsub(sp, 2) && c.sp == model::wsub(sp, 4));
    assert(b.ss == a.ss && c.ss == a.ss && d.ss == a.ss);
    assert(model::wsub(b.sp, 1) == o2 && model::wsub(c.sp, 1) == o3);
    lemma_push_reads_back(a, a.flags);
    lemma_push_reads_back(b, b.cs);
    lemma_push_reads_back(c, c.ip);
    assert(b.cs == a.cs && c.ip == a.ip);
    assert(c.word_at(Regs::SS, o1) == Some(a.flags)) by {
        lemma_disjoint_word_slots(b, Regs::SS, o2, o1, a.cs);
    }
    assert(d.word_at(Regs::SS, o1) == Some(a.flags)) by {
        lemma_disjoint_word_slots(c, Regs::SS, o3, o1, a.ip);
    }
    assert(d.word_at(Regs::SS, o2) == Some(a.cs)) by {
        lemma_disjoint_word_slots(c, Regs::SS, o3, o2, a.ip);
    }
    lemma_word_at_reg_frame(s, d, o1);
    lemma_word_at_reg_frame(s, d, o2);
    lemma_word_at_reg_frame(s, d, o3);
}

/// The interrupt round-trip law: delivering an interrupt through a vector
/// whose handler does nothing but return — an immediate IRET — restores
/// FLAGS, CS, IP and SP to their values before the dispatch, for any vector
/// whose table entry is not the peripheral sentinel and any stack with room
/// for the three saved words.
#[verifier::rlimit(100)]
#[verifier::spinoff_prover]
pub proof fn lemma_interrupt_round_trip(a: Arch, n: u8)
    requires
        spec_service(a, n) is Some,
    ensures
        ({
            let s = spec_service(a, n).unwrap();
            &&& spec_iret(s) is Some
            &&& spec_iret(s).unwrap().flags == a.flags
            &&& spec_iret(s).unwrap().cs == a.cs
            &&& spec_iret(s).unwrap().ip == a.ip
            &&& spec_iret(s).unwrap().sp == a.sp
        }),
{
    lemma_stack_offsets(a.sp);
    lemma_service_frame(a, n);
    let s = spec_service(a, n).unwrap();
    let o1 = model::wsub(a.sp, 1);
    let o2 = model::wsub(a.sp, 3);
    let o3 = model::wsub(a.sp, 5);
    assert(model::wadd(s.sp, 1) == o3);
    let p1 = s.spec_pop_word().unwrap();
    assert(p1.1 == a.ip);
    let s1 = p1.0.with_reg(Regs::IP, p1.1);
    assert(s1.sp == model::wsub(a.sp, 4) && s1.ss == s.ss && s1.ram == s.ram);
    assert(model::wadd(s1.sp, 1) == o2);
    lemma_word_at_reg_frame(s1, s, o2);
    let p2 = s1.spec_pop_word().unwrap();
    assert(p2.1 == a.cs);
    let s2 = p2.0.with_reg(Regs::CS, p2.1);
    assert(s2.sp == model::wsub(a.sp, 2) && s2.ss == s.ss && s2.ram == s.ram);
    assert(model::wadd(s2.sp, 1) == o1);
    lemma_word_at_reg_frame(s2, s, o1);
    let p3 = s2.spec_pop_word().unwrap();
    assert(p3.1 == a.flags);
    assert(p3.0.sp == a.sp);
}

} // verus!
