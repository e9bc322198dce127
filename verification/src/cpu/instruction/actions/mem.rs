use vstd::prelude::*;
use vstd::string::StringExecFns;
use crate::cpu::{CPU, CpuErr, Regs};
use crate::cpu::model::{self, Arch};
use crate::cpu::reg::low_byte;
use crate::cpu::instruction::Instruction;
use crate::cpu::instruction::args::{DstArg, Size, SrcArg};
use crate::cpu::instruction::actions::flags::{advance_di, advance_si, spec_advance};

verus! {

/// MOV: the destination takes the source's value, flags untouched.
pub open spec fn spec_mov(a: Arch, seg: Regs, src: DstArg, dst: DstArg) -> Option<Arch> {
    match model::spec_resolve_arg(a, seg, src) {
        Some(v) => model::spec_write_arg(a, seg, dst, v),
        None => None,
    }
}

pub fn mov(comp: &mut CPU, instruction: Instruction) -> (r: Result<usize, CpuErr>)
    ensures
        r is Ok <==> instruction.src is Some && instruction.dst is Some && spec_mov(
            old(comp)@,
            instruction.segment,
            instruction.src.unwrap(),
            instruction.dst.unwrap(),
        ) is Some,
        r is Ok ==> Some(final(comp)@) == spec_mov(
            old(comp)@,
            instruction.segment,
            instruction.src.unwrap(),
            instruction.dst.unwrap(),
        ),
        r is Err ==> final(comp)@ == old(comp)@,
        final(comp).hooks() == old(comp).hooks(),
{
    let seg = instruction.segment;
    let (src_arg, dst_arg) = match (instruction.src, instruction.dst) {
        (Some(s), Some(d)) => (s, d),
        _ => {
            return Err(CpuErr::BadOperand);
        },
    };
    let v = match src_arg.to_src_arg(&mut comp.bus, seg) {
        Some(v) => v,
        None => {
            return Err(CpuErr::OutOfBounds);
        },
    };
    match comp.bus.write_to_arg(dst_arg, seg, v) {
        Ok(()) => Ok(0),
        Err(e) => Err(e),
    }
}

/// CBW: AX takes AL widened by its sign bit.
pub fn cbw(comp: &mut CPU, _instruction: Instruction) -> (r: Result<usize, CpuErr>)
    ensures
        r is Ok && final(comp)@ == old(comp)@.with_reg(
            Regs::AX,
            model::spec_sign_extend(low_byte(old(comp)@.ax)),
        ),
        final(comp).hooks() == old(comp).hooks(),
{
    let al = comp.bus.read_reg_part(Regs::AX, crate::cpu::WordPart::Low);
    let wide = CPU::sign_extend(al);
    comp.bus.set_reg(Regs::AX, wide);
    Ok(0)
}

/// CWD: DX takes the sign of AX, all ones when AX is negative and zero
/// otherwise.
pub fn cdw(comp: &mut CPU, _instruction: Instruction) -> (r: Result<usize, CpuErr>)
    ensures
        r is Ok && final(comp)@ == old(comp)@.with_reg(
            Regs::DX,
            if old(comp)@.ax >= 0x8000 {
                0xFFFFu16
            } else {
                0u16
            },
        ),
        final(comp).hooks() == old(comp).hooks(),
{
    let ax = match comp.bus.read_reg(Regs::AX) {
        Some(v) => v,
        None => 0,
    };
    comp.bus.set_reg(Regs::DX, if ax >= 0x8000 {
        0xFFFF
    } else {
        0
    });
    Ok(0)
}

/// LDS and LES as one transform: the double-word source supplies an offset
/// and a segment; the named segment register takes the high word and the
/// 16-bit destination register the low word.
pub open spec fn spec_load_wide(a: Arch, seg: Regs, src: DstArg, dst: DstArg, seg_dst: Regs) -> Option<
    Arch,
> {
    match (model::spec_resolve_arg(a, seg, src), dst) {
        (Some(SrcArg::DWord(v)), DstArg::Reg16(n)) => {
            let a1 = a.with_reg(seg_dst, (v / 0x10000) as u16);
            model::spec_write_arg(a1, seg, dst, SrcArg::Word((v % 0x10000) as u16))
        },
        _ => None,
    }
}

fn load_wide(comp: &mut CPU, instruction: &Instruction, seg_dst: Regs) -> (r: Result<usize, CpuErr>)
    ensures
        r is Ok <==> instruction.src is Some && instruction.dst is Some && spec_load_wide(
            old(comp)@,
            instruction.segment,
            instruction.src.unwrap(),
            instruction.dst.unwrap(),
            seg_dst,
        ) is Some,
        r is Ok ==> Some(final(comp)@) == spec_load_wide(
            old(comp)@,
            instruction.segment,
            instruction.src.unwrap(),
            instruction.dst.unwrap(),
            seg_dst,
        ),
        r is Err ==> final(comp)@ == old(comp)@,
        final(comp).hooks() == old(comp).hooks(),
{
    let seg = instruction.segment;
    let (src_arg, dst_arg) = match (instruction.src, instruction.dst) {
        (Some(s), Some(d)) => (s, d),
        _ => {
            return Err(CpuErr::BadOperand);
        },
    };
    match dst_arg {
        DstArg::Reg16(n) => {
            if n >= 8 {
                return Err(CpuErr::BadOperand);
            }
        },
        _ => {
            return Err(CpuErr::BadOperand);
        },
    }
    let v = match src_arg.to_src_arg(&mut comp.bus, seg) {
        Some(SrcArg::DWord(v)) => v,
        Some(_) => {
            return Err(CpuErr::BadOperand);
        },
        None => {
            return Err(CpuErr::OutOfBounds);
        },
    };
    comp.bus.set_reg(seg_dst, (v / 0x10000) as u16);
    match comp.bus.write_to_arg(dst_arg, seg, SrcArg::Word((v % 0x10000) as u16)) {
        Ok(()) => Ok(0),
        Err(e) => {
            proof {
                assert(false);
            }
            Err(e)
        },
    }
}

/// LDS: loads DS and a 16-bit register from a double-word source.
pub fn lds(comp: &mut CPU, instruction: Instruction) -> (r: Result<usize, CpuErr>)
    ensures
        r is Ok <==> instruction.src is Some && instruction.dst is Some && spec_load_wide(
            old(comp)@,
            instruction.segment,
            instruction.src.unwrap(),
            instruction.dst.unwrap(),
            Regs::DS,
        ) is Some,
        r is Ok ==> Some(final(comp)@) == spec_load_wide(
            old(comp)@,
            instruction.segment,
            instruction.src.unwrap(),
            instruction.dst.unwrap(),
            Regs::DS,
        ),
        r is Err ==> final(comp)@ == old(comp)@,
        final(comp).hooks() == old(comp).hooks(),
{
    load_wide(comp, &instruction, Regs::DS)
}

/// LES: loads ES and a 16-bit register from a double-word source.
pub fn les(comp: &mut CPU, instruction: Instruction) -> (r: Result<usize, CpuErr>)
    ensures
        r is Ok <==> instruction.src is Some && instruction.dst is Some && spec_load_wide(
            old(comp)@,
            instruction.segment,
            instruction.src.unwrap(),
            instruction.dst.unwrap(),
            Regs::ES,
        ) is Some,
        r is Ok ==> Some(final(comp)@) == spec_load_wide(
            old(comp)@,
            instruction.segment,
            instruction.src.unwrap(),
            instruction.dst.unwrap(),
            Regs::ES,
        ),
        r is Err ==> final(comp)@ == old(comp)@,
        final(comp).hooks() == old(comp).hooks(),
{
    load_wide(comp, &instruction, Regs::ES)
}

/// LEA: the destination takes the source operand's effective address, not
/// the memory behind it.
pub open spec fn spec_lea(a: Arch, seg: Regs, src: DstArg, dst: DstArg) -> Option<Arch> {
    match model::spec_eff_addr(a, src) {
        Some(off) => model::spec_write_arg(a, seg, dst, SrcArg::Word(off)),
        None => None,
    }
}

pub fn lea(comp: &mut CPU, instruction: Instruction) -> (r: Result<usize, CpuErr>)
    ensures
        r is Ok <==> instruction.src is Some && instruction.dst is Some && spec_lea(
            old(comp)@,
            instruction.segment,
            instruction.src.unwrap(),
            instruction.dst.unwrap(),
        ) is Some,
        r is Ok ==> Some(final(comp)@) == spec_lea(
            old(comp)@,
            instruction.segment,
            instruction.src.unwrap(),
            instruction.dst.unwrap(),
        ),
        r is Err ==> final(comp)@ == old(comp)@,
        final(comp).hooks() == old(comp).hooks(),
{
    let seg = instruction.segment;
    let (src_arg, dst_arg) = match (instruction.src, instruction.dst) {
        (Some(s), Some(d)) => (s, d),
        _ => {
            return Err(CpuErr::BadOperand);
        },
    };
    let off = match src_arg.to_ptr(&comp.bus) {
        Some(o) => o,
        None => {
            return Err(CpuErr::BadOperand);
        },
    };
    match comp.bus.write_to_arg(dst_arg, seg, SrcArg::Word(off)) {
        Ok(()) => Ok(0),
        Err(e) => Err(e),
    }
}

/// XCHG: the two operands trade values; the destination is written first
/// with the source's old value, then the source with the destination's.
pub open spec fn spec_xchg(a: Arch, seg: Regs, src: DstArg, dst: DstArg) -> Option<Arch> {
    match (model::spec_resolve_arg(a, seg, src), model::spec_resolve_arg(a, seg, dst)) {
        (Some(sv), Some(dv)) => match model::spec_write_arg(a, seg, dst, sv) {
            Some(b) => model::spec_write_arg(b, seg, src, dv),
            None => None,
        },
        _ => None,
    }
}

pub fn xchg(comp: &mut CPU, instruction: Instruction) -> (r: Result<usize, CpuErr>)
    ensures
        r is Ok <==> instruction.src is Some && instruction.dst is Some && spec_xchg(
            old(comp)@,
            instruction.segment,
            instruction.src.unwrap(),
            instruction.dst.unwrap(),
        ) is Some,
        r is Ok ==> Some(final(comp)@) == spec_xchg(
            old(comp)@,
            instruction.segment,
            instruction.src.unwrap(),
            instruction.dst.unwrap(),
        ),
        r is Err ==> final(comp)@ == old(comp)@ || (instruction.src is Some && instruction.dst
            is Some && Some(final(comp)@) == model::spec_write_arg(
            old(comp)@,
            instruction.segment,
            instruction.dst.unwrap(),
            model::spec_resolve_arg(
                old(comp)@,
                instruction.segment,
                instruction.src.unwrap(),
            ).unwrap(),
        )),
        final(comp).hooks() == old(comp).hooks(),
{
    let seg = instruction.segment;
    let (src_arg, dst_arg) = match (instruction.src, instruction.dst) {
        (Some(s), Some(d)) => (s, d),
        _ => {
            return Err(CpuErr::BadOperand);
        },
    };
    let sv = match src_arg.to_src_arg(&mut comp.bus, seg) {
        Some(v) => v,
        None => {
            return Err(CpuErr::OutOfBounds);
        },
    };
    let dv = match dst_arg.to_src_arg(&mut comp.bus, seg) {
        Some(v) => v,
        None => {
            return Err(CpuErr::OutOfBounds);
        },
    };
    match comp.bus.write_to_arg(dst_arg, seg, sv) {
        Ok(()) => (),
        Err(e) => {
            return Err(e);
        },
    }
    match comp.bus.write_to_arg(src_arg, seg, dv) {
        Ok(()) => Ok(0),
        Err(e) => Err(e),
    }
}

/// XLAT: AH takes the byte at segment:(BX + AL), the table lookup.
pub open spec fn spec_xlat(a: Arch, seg: Regs) -> Option<Arch> {
    match a.byte_at(seg, model::wadd(a.bx, low_byte(a.ax) as u16)) {
        Some(b) => Some(a.with_reg8(4, b)),
        None => None,
    }
}

pub fn xlat(comp: &mut CPU, instruction: Instruction) -> (r: Result<usize, CpuErr>)
    ensures
        r is Ok <==> spec_xlat(old(comp)@, instruction.segment) is Some,
        r is Ok ==> Some(final(comp)@) == spec_xlat(old(comp)@, instruction.segment),
        r is Err ==> final(comp)@ == old(comp)@,
        final(comp).hooks() == old(comp).hooks(),
{
    let seg = instruction.segment;
    let bx = match comp.bus.read_reg(Regs::BX) {
        Some(v) => v,
        None => 0,
    };
    let al = comp.bus.read_reg_part(Regs::AX, crate::cpu::WordPart::Low);
    let off = crate::cpu::wrap_add(bx, al as u16);
    match comp.bus.mem_byte(seg, off) {
        Some(b) => {
            comp.bus.set_reg_part(Regs::AX, crate::cpu::WordPart::High, b);
            Ok(0)
        },
        None => Err(CpuErr::OutOfBounds),
    }
}

/// LODS: the accumulator takes the string element at segment:SI, and SI
/// steps by the width, forward when the direction flag is clear. The width
/// marker rides in the decoded destination operand.
pub open spec fn spec_lods(a: Arch, seg: Regs, dst: DstArg) -> Option<Arch> {
    match model::spec_resolve_arg(a, seg, dst) {
        Some(SrcArg::Byte(_)) => match a.byte_at(seg, a.si) {
            Some(b) => Some(spec_advance(a.with_reg8(0, b), Regs::SI, 1)),
            None => None,
        },
        Some(SrcArg::Word(_)) => match a.word_at(seg, a.si) {
            Some(w) => Some(spec_advance(a.with_reg(Regs::AX, w), Regs::SI, 2)),
            None => None,
        },
        _ => None,
    }
}

pub fn lods(comp: &mut CPU, instruction: Instruction) -> (r: Result<usize, CpuErr>)
    ensures
        r is Ok <==> instruction.dst is Some && spec_lods(
            old(comp)@,
            instruction.segment,
            instruction.dst.unwrap(),
        ) is Some,
        r is Ok ==> Some(final(comp)@) == spec_lods(
            old(comp)@,
            instruction.segment,
            instruction.dst.unwrap(),
        ),
        r is Err ==> final(comp)@ == old(comp)@,
        final(comp).hooks() == old(comp).hooks(),
{
    let seg = instruction.segment;
    let dst_arg = match instruction.dst {
        Some(d) => d,
        None => {
            return Err(CpuErr::BadOperand);
        },
    };
    let marker = match dst_arg.to_src_arg(&mut comp.bus, seg) {
        Some(v) => v,
        None => {
            return Err(CpuErr::OutOfBounds);
        },
    };
    let si = match comp.bus.read_reg(Regs::SI) {
        Some(v) => v,
        None => 0,
    };
    match marker {
        SrcArg::Byte(_) => match comp.bus.mem_byte(seg, si) {
            Some(b) => {
                comp.bus.set_reg_part(Regs::AX, crate::cpu::WordPart::Low, b);
                let r1 = advance_si(comp, Size::Byte);
                Ok(0)
            },
            None => Err(CpuErr::OutOfBounds),
        },
        SrcArg::Word(_) => match comp.bus.mem_word(seg, si) {
            Some(w) => {
                comp.bus.set_reg(Regs::AX, w);
                let r1 = advance_si(comp, Size::Word);
                Ok(0)
            },
            None => Err(CpuErr::OutOfBounds),
        },
        SrcArg::DWord(_) => Err(CpuErr::BadOperand),
    }
}

/// MOVS: copies the string element at segment:SI to ES:DI, then steps both
/// pointers by the width, forward when the direction flag is clear.
pub open spec fn spec_movs(a: Arch, seg: Regs, dst: DstArg) -> Option<Arch> {
    match model::spec_resolve_arg(a, seg, dst) {
        Some(SrcArg::Byte(_)) => match a.byte_at(seg, a.si) {
            Some(b) => if a.byte_in_bounds(Regs::ES, a.di) {
                Some(
                    spec_advance(
                        spec_advance(a.with_byte(Regs::ES, a.di, b), Regs::SI, 1),
                        Regs::DI,
                        1,
                    ),
                )
            } else {
                None
            },
            None => None,
        },
        Some(SrcArg::Word(_)) => match a.word_at(seg, a.si) {
            Some(w) => if a.word_in_bounds(Regs::ES, a.di) {
                Some(
                    spec_advance(
                        spec_advance(a.with_word(Regs::ES, a.di, w), Regs::SI, 2),
                        Regs::DI,
                        2,
                    ),
                )
            } else {
                None
            },
            None => None,
        },
        _ => None,
    }
}

pub fn movs(comp: &mut CPU, instruction: Instruction) -> (r: Result<usize, CpuErr>)
    ensures
        r is Ok <==> instruction.dst is Some && spec_movs(
            old(comp)@,
            instruction.segment,
            instruction.dst.unwrap(),
        ) is Some,
        r is Ok ==> Some(final(comp)@) == spec_movs(
            old(comp)@,
            instruction.segment,
            instruction.dst.unwrap(),
        ),
        r is Err ==> final(comp)@ == old(comp)@,
        final(comp).hooks() == old(comp).hooks(),
{
    let seg = instruction.segment;
    let dst_arg = match instruction.dst {
        Some(d) => d,
        None => {
            return Err(CpuErr::BadOperand);
        },
    };
    let marker = match dst_arg.to_src_arg(&mut comp.bus, seg) {
        Some(v) => v,
        None => {
            return Err(CpuErr::OutOfBounds);
        },
    };
    let si = match comp.bus.read_reg(Regs::SI) {
        Some(v) => v,
        None => 0,
    };
    let di = match comp.bus.read_reg(Regs::DI) {
        Some(v) => v,
        None => 0,
    };
    match marker {
        SrcArg::Byte(_) => {
            let b = match comp.bus.mem_byte(seg, si) {
                Some(v) => v,
                None => {
                    return Err(CpuErr::OutOfBounds);
                },
            };
            match comp.bus.mem_write_byte(Regs::ES, di, b) {
                Ok(()) => {
                    let r1 = advance_si(comp, Size::Byte);
                    let r2 = advance_di(comp, Size::Byte);
                    Ok(0)
                },
                Err(e) => Err(e),
            }
        },
        SrcArg::Word(_) => {
            let w = match comp.bus.mem_word(seg, si) {
                Some(v) => v,
                None => {
                    return Err(CpuErr::OutOfBounds);
                },
            };
            match comp.bus.mem_write_word(Regs::ES, di, w) {
                Ok(()) => {
                    let r1 = advance_si(comp, Size::Word);
                    let r2 = advance_di(comp, Size::Word);
                    Ok(0)
                },
                Err(e) => Err(e),
            }
        },
        SrcArg::DWord(_) => Err(CpuErr::BadOperand),
    }
}

/// STOS: stores the accumulator's low byte or whole word at ES:DI, then
/// steps DI by the width.
pub open spec fn spec_stos(a: Arch, seg: Regs, dst: DstArg) -> Option<Arch> {
    match model::spec_resolve_arg(a, seg, dst) {
        Some(SrcArg::Byte(_)) => if a.byte_in_bounds(Regs::ES, a.di) {
            Some(spec_advance(a.with_byte(Regs::ES, a.di, low_byte(a.ax)), Regs::DI, 1))
        } else {
            None
        },
        Some(SrcArg::Word(_)) => if a.word_in_bounds(Regs::ES, a.di) {
            Some(spec_advance(a.with_word(Regs::ES, a.di, a.ax), Regs::DI, 2))
        } else {
            None
        },
        _ => None,
    }
}

pub fn stos(comp: &mut CPU, instruction: Instruction) -> (r: Result<usize, CpuErr>)
    ensures
        r is Ok <==> instruction.dst is Some && spec_stos(
            old(comp)@,
            instruction.segment,
            instruction.dst.unwrap(),
        ) is Some,
        r is Ok ==> Some(final(comp)@) == spec_stos(
            old(comp)@,
            instruction.segment,
            instruction.dst.unwrap(),
        ),
        r is Err ==> final(comp)@ == old(comp)@,
        final(comp).hooks() == old(comp).hooks(),
{
    let seg = instruction.segment;
    let dst_arg = match instruction.dst {
        Some(d) => d,
        None => {
            return Err(CpuErr::BadOperand);
        },
    };
    let marker = match dst_arg.to_src_arg(&mut comp.bus, seg) {
        Some(v) => v,
        None => {
            return Err(CpuErr::OutOfBounds);
        },
    };
    let di = match comp.bus.read_reg(Regs::DI) {
        Some(v) => v,
        None => 0,
    };
    let ax = match comp.bus.read_reg(Regs::AX) {
        Some(v) => v,
        None => 0,
    };
    match marker {
        SrcArg::Byte(_) => match comp.bus.mem_write_byte(Regs::ES, di, (ax % 0x100) as u8) {
            Ok(()) => {
                let r1 = advance_di(comp, Size::Byte);
                Ok(0)
            },
            Err(e) => Err(e),
        },
        SrcArg::Word(_) => match comp.bus.mem_write_word(Regs::ES, di, ax) {
            Ok(()) => {
                let r1 = advance_di(comp, Size::Word);
                Ok(0)
            },
            Err(e) => Err(e),
        },
        SrcArg::DWord(_) => Err(CpuErr::BadOperand),
    }
}

/// NOP: nothing happens.
pub fn nop(comp: &mut CPU, _instruction: Instruction) -> (r: Result<usize, CpuErr>)
    ensures
        r is Ok && final(comp)@ == old(comp)@,
        final(comp).hooks() == old(comp).hooks(),
{
    Ok(0)
}

pub fn mov_mnemonic(_reg_bits: u8) -> (r: Option<String>)
    ensures
        r is Some && r.unwrap()@ == "MOV"@,
{
    Some(String::from_str("MOV"))
}

pub fn cbw_mnemonic(_reg_bits: u8) -> (r: Option<String>)
    ensures
        r is Some && r.unwrap()@ == "CBW"@,
{
    Some(String::from_str("CBW"))
}

pub fn cdw_mnemonic(_reg_bits: u8) -> (r: Option<String>)
    ensures
        r is Some && r.unwrap()@ == "CDW"@,
{
    Some(String::from_str("CDW"))
}

pub fn lds_mnemonic(_reg_bits: u8) -> (r: Option<String>)
    ensures
        r is Some && r.unwrap()@ == "LDS"@,
{
    Some(String::from_str("LDS"))
}

pub fn les_mnemonic(_reg_bits: u8) -> (r: Option<String>)
    ensures
        r is Some && r.unwrap()@ == "LES"@,
{
    Some(String::from_str("LES"))
}

pub fn lea_mnemonic(_reg_bits: u8) -> (r: Option<String>)
    ensures
        r is Some && r.unwrap()@ == "LEA"@,
{
    Some(String::from_str("LEA"))
}

pub fn nop_mnemonic(_reg_bits: u8) -> (r: Option<String>)
    ensures
        r is Some && r.unwrap()@ == "NOP"@,
{
    Some(String::from_str("NOP"))
}

} // verus!
