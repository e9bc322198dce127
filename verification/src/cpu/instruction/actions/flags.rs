use vstd::prelude::*;
use vstd::string::StringExecFns;
use crate::cpu::{CPU, CPUFlags, CpuErr, Regs};
use crate::cpu::model::{self, Arch};
use crate::cpu::reg::{high_byte, low_byte, word_of};
use crate::cpu::instruction::Instruction;
use crate::cpu::instruction::args::{DstArg, SrcArg};
use crate::cpu::instruction::opcode::OpAction;
use crate::cpu::instruction::actions::alu::{
    alu_flags8, alu_flags16, alu_two, alu_two_ok, alu_val8, alu_val16, spec_alu_two,
};

verus! {

/// CLC: clears the carry flag.
pub fn clc(comp: &mut CPU, _instruction: Instruction) -> (r: Result<usize, CpuErr>)
    ensures
        r is Ok && final(comp)@ == old(comp)@.with_flag(CPUFlags::CARRY, false),
        final(comp).hooks() == old(comp).hooks(),
{
    comp.bus.clear_flag(CPUFlags::CARRY);
    Ok(0)
}

/// STC: sets the carry flag.
pub fn stc(comp: &mut CPU, _instruction: Instruction) -> (r: Result<usize, CpuErr>)
    ensures
        r is Ok && final(comp)@ == old(comp)@.with_flag(CPUFlags::CARRY, true),
        final(comp).hooks() == old(comp).hooks(),
{
    comp.bus.set_flag(CPUFlags::CARRY);
    Ok(0)
}

/// CLD: clears the direction flag, so string operations walk forward.
pub fn cld(comp: &mut CPU, _instruction: Instruction) -> (r: Result<usize, CpuErr>)
    ensures
        r is Ok && final(comp)@ == old(comp)@.with_flag(CPUFlags::DIRECTION, false),
        final(comp).hooks() == old(comp).hooks(),
{
    comp.bus.clear_flag(CPUFlags::DIRECTION);
    Ok(0)
}

/// STD: sets the direction flag, so string operations walk backward.
pub fn std_action(comp: &mut CPU, _instruction: Instruction) -> (r: Result<usize, CpuErr>)
    ensures
        r is Ok && final(comp)@ == old(comp)@.with_flag(CPUFlags::DIRECTION, true),
        final(comp).hooks() == old(comp).hooks(),
{
    comp.bus.set_flag(CPUFlags::DIRECTION);
    Ok(0)
}

/// CLI: clears the interrupt-enable flag.
pub fn cli(comp: &mut CPU, _instruction: Instruction) -> (r: Result<usize, CpuErr>)
    ensures
        r is Ok && final(comp)@ == old(comp)@.with_flag(CPUFlags::INTERRUPT, false),
        final(comp).hooks() == old(comp).hooks(),
{
    comp.bus.clear_flag(CPUFlags::INTERRUPT);
    Ok(0)
}

/// STI: sets the interrupt-enable flag.
pub fn sti(comp: &mut CPU, _instruction: Instruction) -> (r: Result<usize, CpuErr>)
    ensures
        r is Ok && final(comp)@ == old(comp)@.with_flag(CPUFlags::INTERRUPT, true),
        final(comp).hooks() == old(comp).hooks(),
{
    comp.bus.set_flag(CPUFlags::INTERRUPT);
    Ok(0)
}

/// CMC: complements the carry flag.
pub fn cmc(comp: &mut CPU, _instruction: Instruction) -> (r: Result<usize, CpuErr>)
    ensures
        r is Ok && final(comp)@ == old(comp)@.with_flag(
            CPUFlags::CARRY,
            !old(comp)@.flag_set(CPUFlags::CARRY),
        ),
        final(comp).hooks() == old(comp).hooks(),
{
    let c = comp.bus.check_flag(CPUFlags::CARRY);
    comp.bus.set_flag_if(CPUFlags::CARRY, !c);
    Ok(0)
}

/// CMP: subtraction for the flags alone; the destination keeps its value.
pub fn cmp(comp: &mut CPU, instruction: Instruction) -> (r: Result<usize, CpuErr>)
    ensures
        r is Ok <==> alu_two_ok(old(comp)@, instruction, OpAction::Cmp),
        r is Ok ==> Some(final(comp)@) == spec_alu_two(
            old(comp)@,
            instruction.segment,
            instruction.src.unwrap(),
            instruction.dst.unwrap(),
            OpAction::Cmp,
        ),
        r is Err ==> final(comp)@ == old(comp)@,
        final(comp).hooks() == old(comp).hooks(),
{
    alu_two(comp, &instruction, OpAction::Cmp)
}

/// TEST: bitwise conjunction for the flags alone.
pub fn test(comp: &mut CPU, instruction: Instruction) -> (r: Result<usize, CpuErr>)
    ensures
        r is Ok <==> alu_two_ok(old(comp)@, instruction, OpAction::Test),
        r is Ok ==> Some(final(comp)@) == spec_alu_two(
            old(comp)@,
            instruction.segment,
            instruction.src.unwrap(),
            instruction.dst.unwrap(),
            OpAction::Test,
        ),
        r is Err ==> final(comp)@ == old(comp)@,
        final(comp).hooks() == old(comp).hooks(),
{
    alu_two(comp, &instruction, OpAction::Test)
}

/// LAHF: AH takes the low byte of the FLAGS register.
pub fn lahf(comp: &mut CPU, _instruction: Instruction) -> (r: Result<usize, CpuErr>)
    ensures
        r is Ok && final(comp)@ == old(comp)@.with_reg(
            Regs::AX,
            word_of(low_byte(old(comp)@.flags), low_byte(old(comp)@.ax)),
        ),
        final(comp).hooks() == old(comp).hooks(),
{
    let fl = comp.bus.read_reg_part(Regs::FLAGS, crate::cpu::WordPart::Low);
    comp.bus.set_reg_part(Regs::AX, crate::cpu::WordPart::High, fl);
    Ok(0)
}

/// SAHF: the low byte of FLAGS takes AH.
pub fn sahf(comp: &mut CPU, _instruction: Instruction) -> (r: Result<usize, CpuErr>)
    ensures
        r is Ok && final(comp)@ == old(comp)@.with_reg(
            Regs::FLAGS,
            word_of(high_byte(old(comp)@.flags), high_byte(old(comp)@.ax)),
        ),
        final(comp).hooks() == old(comp).hooks(),
{
    let ah = comp.bus.read_reg_part(Regs::AX, crate::cpu::WordPart::High);
    comp.bus.set_reg_part(Regs::FLAGS, crate::cpu::WordPart::Low, ah);
    Ok(0)
}

/// A string pointer register stepped by the operand width, forward when the
/// direction flag is clear and backward when it is set.
pub open spec fn spec_advance(a: Arch, r: Regs, n: u16) -> Arch {
    if a.flag_set(CPUFlags::DIRECTION) {
        a.with_reg(r, model::wsub(a.reg(r), n))
    } else {
        a.with_reg(r, model::wadd(a.reg(r), n))
    }
}

/// Steps DI by the operand width in the direction the direction flag gives.
pub fn advance_di(comp: &mut CPU, size: crate::cpu::instruction::args::Size) -> (r: Result<
    usize,
    CpuErr,
>)
    ensures
        r is Ok <==> size != crate::cpu::instruction::args::Size::DWord,
        r is Ok ==> final(comp)@ == spec_advance(old(comp)@, Regs::DI, size.spec_len()),
        r is Err ==> final(comp)@ == old(comp)@,
        final(comp).hooks() == old(comp).hooks(),
{
    let n: u16 = match size {
        crate::cpu::instruction::args::Size::Byte => 1,
        crate::cpu::instruction::args::Size::Word => 2,
        crate::cpu::instruction::args::Size::DWord => {
            return Err(CpuErr::BadOperand);
        },
    };
    let cur = match comp.bus.read_reg(Regs::DI) {
        Some(v) => v,
        None => 0,
    };
    if comp.bus.check_flag(CPUFlags::DIRECTION) {
        comp.bus.set_reg(Regs::DI, crate::cpu::wrap_sub(cur, n));
    } else {
        comp.bus.set_reg(Regs::DI, crate::cpu::wrap_add(cur, n));
    }
    Ok(0)
}

/// Steps SI by the operand width in the direction the direction flag gives.
pub fn advance_si(comp: &mut CPU, size: crate::cpu::instruction::args::Size) -> (r: Result<
    usize,
    CpuErr,
>)
    ensures
        r is Ok <==> size != crate::cpu::instruction::args::Size::DWord,
        r is Ok ==> final(comp)@ == spec_advance(old(comp)@, Regs::SI, size.spec_len()),
        r is Err ==> final(comp)@ == old(comp)@,
        final(comp).hooks() == old(comp).hooks(),
{
    let n: u16 = match size {
        crate::cpu::instruction::args::Size::Byte => 1,
        crate::cpu::instruction::args::Size::Word => 2,
        crate::cpu::instruction::args::Size::DWord => {
            return Err(CpuErr::BadOperand);
        },
    };
    let cur = match comp.bus.read_reg(Regs::SI) {
        Some(v) => v,
        None => 0,
    };
    if comp.bus.check_flag(CPUFlags::DIRECTION) {
        comp.bus.set_reg(Regs::SI, crate::cpu::wrap_sub(cur, n));
    } else {
        comp.bus.set_reg(Regs::SI, crate::cpu::wrap_add(cur, n));
    }
    Ok(0)
}

/// CMPS: compares the string element at segment:SI with the one at ES:DI —
/// the flags of their difference, nothing written — then steps SI and DI by
/// the width, forward when the direction flag is clear. The width marker
/// rides in the decoded destination operand.
pub open spec fn spec_cmps(a: Arch, seg: Regs, dst: DstArg) -> Option<Arch> {
    match model::spec_resolve_arg(a, seg, dst) {
        Some(SrcArg::Byte(_)) => match (a.byte_at(seg, a.si), a.byte_at(Regs::ES, a.di)) {
            (Some(y), Some(x)) => {
                let cf = a.flag_set(CPUFlags::CARRY);
                let res = alu_val8(OpAction::Cmp, x, y, cf);
                let b = alu_flags8(a, OpAction::Cmp, x, y, cf, res);
                Some(spec_advance(spec_advance(b, Regs::DI, 1), Regs::SI, 1))
            },
            _ => None,
        },
        Some(SrcArg::Word(_)) => match (a.word_at(seg, a.si), a.word_at(Regs::ES, a.di)) {
            (Some(y), Some(x)) => {
                let cf = a.flag_set(CPUFlags::CARRY);
                let res = alu_val16(OpAction::Cmp, x, y, cf);
                let b = alu_flags16(a, OpAction::Cmp, x, y, cf, res);
                Some(spec_advance(spec_advance(b, Regs::DI, 2), Regs::SI, 2))
            },
            _ => None,
        },
        _ => None,
    }
}

pub fn cmps(comp: &mut CPU, instruction: Instruction) -> (r: Result<usize, CpuErr>)
    ensures
        r is Ok <==> instruction.dst is Some && spec_cmps(
            old(comp)@,
            instruction.segment,
            instruction.dst.unwrap(),
        ) is Some,
        r is Ok ==> Some(final(comp)@) == spec_cmps(
            old(comp)@,
            instruction.segment,
            instruction.dst.unwrap(),
        ),
        r is Err ==> final(comp)@ == old(comp)@,
        final(comp).hooks() == old(comp).hooks(),
{
    let seg = instruction.segment;
    let dst_arg = match instruction.dst {
        Some(d) => d,
        None => {
            return Err(CpuErr::BadOperand);
        },
    };
    let marker = match dst_arg.to_src_arg(&mut comp.bus, seg) {
        Some(v) => v,
        None => {
            return Err(CpuErr::OutOfBounds);
        },
    };
    let si = match comp.bus.read_reg(Regs::SI) {
        Some(v) => v,
        None => 0,
    };
    let di = match comp.bus.read_reg(Regs::DI) {
        Some(v) => v,
        None => 0,
    };
    let cf = comp.bus.check_flag(CPUFlags::CARRY);
    match marker {
        SrcArg::Byte(_) => {
            let y = match comp.bus.mem_byte(seg, si) {
                Some(v) => v,
                None => {
                    return Err(CpuErr::OutOfBounds);
                },
            };
            let x = match comp.bus.mem_byte(Regs::ES, di) {
                Some(v) => v,
                None => {
                    return Err(CpuErr::OutOfBounds);
                },
            };
            let res = crate::cpu::alu::sub_with_carry_8_bit(y, x);
            crate::cpu::instruction::actions::alu::apply_cmp_flags8(comp, x, y, cf, res);
            let r1 = advance_di(comp, crate::cpu::instruction::args::Size::Byte);
            let r2 = advance_si(comp, crate::cpu::instruction::args::Size::Byte);
            Ok(0)
        },
        SrcArg::Word(_) => {
            let y = match comp.bus.mem_word(seg, si) {
                Some(v) => v,
                None => {
                    return Err(CpuErr::OutOfBounds);
                },
            };
            let x = match comp.bus.mem_word(Regs::ES, di) {
                Some(v) => v,
                None => {
                    return Err(CpuErr::OutOfBounds);
                },
            };
            let res = crate::cpu::alu::sub_with_carry_16_bit(y, x);
            crate::cpu::instruction::actions::alu::apply_cmp_flags16(comp, x, y, cf, res);
            let r1 = advance_di(comp, crate::cpu::instruction::args::Size::Word);
            let r2 = advance_si(comp, crate::cpu::instruction::args::Size::Word);
            Ok(0)
        },
        SrcArg::DWord(_) => Err(CpuErr::BadOperand),
    }
}

/// SCAS: compares the accumulator with the string element at ES:DI — the
/// flags of their difference — then steps DI by the width.
pub open spec fn spec_scas(a: Arch, seg: Regs, dst: DstArg) -> Option<Arch> {
    match model::spec_resolve_arg(a, seg, dst) {
        Some(SrcArg::Byte(_)) => match a.byte_at(Regs::ES, a.di) {
            Some(x) => {
                let y = low_byte(a.ax);
                let cf = a.flag_set(CPUFlags::CARRY);
                let res = alu_val8(OpAction::Cmp, x, y, cf);
                let b = alu_flags8(a, OpAction::Cmp, x, y, cf, res);
                Some(spec_advance(b, Regs::DI, 1))
            },
            _ => None,
        },
        Some(SrcArg::Word(_)) => match a.word_at(Regs::ES, a.di) {
            Some(x) => {
                let y = a.ax;
                let cf = a.flag_set(CPUFlags::CARRY);
                let res = alu_val16(OpAction::Cmp, x, y, cf);
                let b = alu_flags16(a, OpAction::Cmp, x, y, cf, res);
                Some(spec_advance(b, Regs::DI, 2))
            },
            _ => None,
        },
        _ => None,
    }
}

pub fn scas(comp: &mut CPU, instruction: Instruction) -> (r: Result<usize, CpuErr>)
    ensures
        r is Ok <==> instruction.dst is Some && spec_scas(
            old(comp)@,
            instruction.segment,
            instruction.dst.unwrap(),
        ) is Some,
        r is Ok ==> Some(final(comp)@) == spec_scas(
            old(comp)@,
            instruction.segment,
            instruction.dst.unwrap(),
        ),
        r is Err ==> final(comp)@ == old(comp)@,
        final(comp).hooks() == old(comp).hooks(),
{
    let seg = instruction.segment;
    let dst_arg = match instruction.dst {
        Some(d) => d,
        None => {
            return Err(CpuErr::BadOperand);
        },
    };
    let marker = match dst_arg.to_src_arg(&mut comp.bus, seg) {
        Some(v) => v,
        None => {
            return Err(CpuErr::OutOfBounds);
        },
    };
    let di = match comp.bus.read_reg(Regs::DI) {
        Some(v) => v,
        None => 0,
    };
    let ax = match comp.bus.read_reg(Regs::AX) {
        Some(v) => v,
        None => 0,
    };
    let cf = comp.bus.check_flag(CPUFlags::CARRY);
    match marker {
        SrcArg::Byte(_) => {
            let x = match comp.bus.mem_byte(Regs::ES, di) {
                Some(v) => v,
                None => {
                    return Err(CpuErr::OutOfBounds);
                },
            };
            let y: u8 = (ax % 0x100) as u8;
            let res = crate::cpu::alu::sub_with_carry_8_bit(y, x);
            crate::cpu::instruction::actions::alu::apply_cmp_flags8(comp, x, y, cf, res);
            let r1 = advance_di(comp, crate::cpu::instruction::args::Size::Byte);
            Ok(0)
        },
        SrcArg::Word(_) => {
            let x = match comp.bus.mem_word(Regs::ES, di) {
                Some(v) => v,
                None => {
                    return Err(CpuErr::OutOfBounds);
                },
            };
            let res = crate::cpu::alu::sub_with_carry_16_bit(ax, x);
            crate::cpu::instruction::actions::alu::apply_cmp_flags16(comp, x, ax, cf, res);
            let r1 = advance_di(comp, crate::cpu::instruction::args::Size::Word);
            Ok(0)
        },
        SrcArg::DWord(_) => Err(CpuErr::BadOperand),
    }
}

pub fn clc_mnemonic(_reg_bits: u8) -> (r: Option<String>)
    ensures
        r is Some && r.unwrap()@ == "CLC"@,
{
    Some(String::from_str("CLC"))
}

pub fn cld_mnemonic(_reg_bits: u8) -> (r: Option<String>)
    ensures
        r is Some && r.unwrap()@ == "CLD"@,
{
    Some(String::from_str("CLD"))
}

pub fn cli_mnemonic(_reg_bits: u8) -> (r: Option<String>)
    ensures
        r is Some && r.unwrap()@ == "CLI"@,
{
    Some(String::from_str("CLI"))
}

pub fn cmc_mnemonic(_reg_bits: u8) -> (r: Option<String>)
    ensures
        r is Some && r.unwrap()@ == "CMC"@,
{
    Some(String::from_str("CMC"))
}

pub fn cmp_mnemonic(_reg_bits: u8) -> (r: Option<String>)
    ensures
        r is Some && r.unwrap()@ == "CMP"@,
{
    Some(String::from_str("CMP"))
}

pub fn cmps_mnemonic(_reg_bits: u8) -> (r: Option<String>)
    ensures
        r is Some && r.unwrap()@ == "CMPS"@,
{
    Some(String::from_str("CMPS"))
}

} // verus!
