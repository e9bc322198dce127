use vstd::prelude::*;
use vstd::string::StringExecFns;
use crate::cpu::{CPU, CPUFlags, CpuErr, Regs};
use crate::cpu::model::{self, Arch};
use crate::cpu::instruction::Instruction;
use crate::cpu::instruction::args::{DstArg, SrcArg};

verus! {

/// JMP near: a relative immediate moves IP by its signed value; any other
/// operand resolves to an absolute offset that replaces IP.
pub open spec fn spec_jmp(a: Arch, seg: Regs, dst: DstArg) -> Option<Arch> {
    match dst {
        DstArg::Imm16(v) => Some(a.with_reg(Regs::IP, model::wadd(a.ip, v))),
        DstArg::Imm8(v) => Some(a.with_reg(Regs::IP, model::wadd(a.ip, model::spec_sign_extend(v)))),
        _ => match model::spec_resolve_arg(a, seg, dst) {
            Some(SrcArg::Word(w)) => Some(a.with_reg(Regs::IP, w)),
            _ => None,
        },
    }
}

pub fn jmp(comp: &mut CPU, instruction: Instruction) -> (r: Result<usize, CpuErr>)
    ensures
        r is Ok <==> instruction.dst is Some && spec_jmp(
            old(comp)@,
            instruction.segment,
            instruction.dst.unwrap(),
        ) is Some,
        r is Ok ==> Some(final(comp)@) == spec_jmp(
            old(comp)@,
            instruction.segment,
            instruction.dst.unwrap(),
        ),
        r is Err ==> final(comp)@ == old(comp)@,
        final(comp).hooks() == old(comp).hooks(),
{
    let seg = instruction.segment;
    let dst_arg = match instruction.dst {
        Some(d) => d,
        None => {
            return Err(CpuErr::BadOperand);
        },
    };
    let ip = match comp.bus.read_reg(Regs::IP) {
        Some(v) => v,
        None => 0,
    };
    match dst_arg {
        DstArg::Imm16(v) => {
            comp.bus.set_reg(Regs::IP, crate::cpu::wrap_add(ip, v));
            Ok(0)
        },
        DstArg::Imm8(v) => {
            comp.bus.set_reg(Regs::IP, crate::cpu::wrap_add(ip, CPU::sign_extend(v)));
            Ok(0)
        },
        _ => match dst_arg.to_src_arg(&mut comp.bus, seg) {
            Some(SrcArg::Word(w)) => {
                comp.bus.set_reg(Regs::IP, w);
                Ok(0)
            },
            Some(_) => Err(CpuErr::BadOperand),
            None => Err(CpuErr::OutOfBounds),
        },
    }
}

/// JMP far: a double-word operand, absolute segment and offset, replaces
/// the CS:IP pair.
pub open spec fn spec_jmp_far(a: Arch, seg: Regs, dst: DstArg) -> Option<Arch> {
    match dst {
        DstArg::Imm32(v) => Some(
            a.with_reg(Regs::CS, (v / 0x10000) as u16).with_reg(Regs::IP, (v % 0x10000) as u16),
        ),
        _ => match model::spec_resolve_arg(a, seg, dst) {
            Some(SrcArg::DWord(v)) => Some(
                a.with_reg(Regs::CS, (v / 0x10000) as u16).with_reg(Regs::IP, (v % 0x10000) as u16),
            ),
            _ => None,
        },
    }
}

pub fn jmp_far(comp: &mut CPU, instruction: Instruction) -> (r: Result<usize, CpuErr>)
    ensures
        r is Ok <==> instruction.dst is Some && spec_jmp_far(
            old(comp)@,
            instruction.segment,
            instruction.dst.unwrap(),
        ) is Some,
        r is Ok ==> Some(final(comp)@) == spec_jmp_far(
            old(comp)@,
            instruction.segment,
            instruction.dst.unwrap(),
        ),
        r is Err ==> final(comp)@ == old(comp)@,
        final(comp).hooks() == old(comp).hooks(),
{
    let seg = instruction.segment;
    let dst_arg = match instruction.dst {
        Some(d) => d,
        None => {
            return Err(CpuErr::BadOperand);
        },
    };
    let v: u32 = match dst_arg {
        DstArg::Imm32(v) => v,
        _ => match dst_arg.to_src_arg(&mut comp.bus, seg) {
            Some(SrcArg::DWord(v)) => v,
            Some(_) => {
                return Err(CpuErr::BadOperand);
            },
            None => {
                return Err(CpuErr::OutOfBounds);
            },
        },
    };
    comp.bus.set_reg(Regs::CS, (v / 0x10000) as u16);
    comp.bus.set_reg(Regs::IP, (v % 0x10000) as u16);
    Ok(0)
}

/// The condition each low-nibble value of a conditional-jump opcode tests,
/// over the flags: overflow, carry, zero, sign, parity and their signed
/// combinations, each paired with its negation.
pub open spec fn spec_condition(a: Arch, cond: u8) -> bool {
    let of = a.flag_set(CPUFlags::OVERFLOW);
    let cf = a.flag_set(CPUFlags::CARRY);
    let zf = a.flag_set(CPUFlags::ZERO);
    let sf = a.flag_set(CPUFlags::SIGN);
    let pf = a.flag_set(CPUFlags::PARITY);
    if cond == 0 {
        of
    } else if cond == 1 {
        !of
    } else if cond == 2 {
        cf
    } else if cond == 3 {
        !cf
    } else if cond == 4 {
        zf
    } else if cond == 5 {
        !zf
    } else if cond == 6 {
        cf || zf
    } else if cond == 7 {
        !cf && !zf
    } else if cond == 8 {
        sf
    } else if cond == 9 {
        !sf
    } else if cond == 10 {
        pf
    } else if cond == 11 {
        !pf
    } else if cond == 12 {
        sf != of
    } else if cond == 13 {
        sf == of
    } else if cond == 14 {
        zf || sf != of
    } else {
        !zf && sf == of
    }
}

/// Evaluates a conditional-jump condition against the current flags.
pub fn check_condition(comp: &CPU, cond: u8) -> (r: bool)
    ensures
        r == spec_condition(comp@, cond),
{
    let of = comp.bus.check_flag(CPUFlags::OVERFLOW);
    let cf = comp.bus.check_flag(CPUFlags::CARRY);
    let zf = comp.bus.check_flag(CPUFlags::ZERO);
    let sf = comp.bus.check_flag(CPUFlags::SIGN);
    let pf = comp.bus.check_flag(CPUFlags::PARITY);
    if cond == 0 {
        of
    } else if cond == 1 {
        !of
    } else if cond == 2 {
        cf
    } else if cond == 3 {
        !cf
    } else if cond == 4 {
        zf
    } else if cond == 5 {
        !zf
    } else if cond == 6 {
        cf || zf
    } else if cond == 7 {
        !cf && !zf
    } else if cond == 8 {
        sf
    } else if cond == 9 {
        !sf
    } else if cond == 10 {
        pf
    } else if cond == 11 {
        !pf
    } else if cond == 12 {
        sf != of
    } else if cond == 13 {
        sf == of
    } else if cond == 14 {
        zf || sf != of
    } else {
        !zf && sf == of
    }
}

/// A conditional jump: when its condition holds of the flags, the
/// unconditional near jump runs; otherwise nothing changes.
pub open spec fn spec_cond_jmp(a: Arch, seg: Regs, dst: DstArg, cond: u8) -> Option<Arch> {
    if spec_condition(a, cond) {
        spec_jmp(a, seg, dst)
    } else {
        Some(a)
    }
}

pub fn cond_jmp(comp: &mut CPU, instruction: Instruction, cond: u8) -> (r: Result<usize, CpuErr>)
    ensures
        r is Ok <==> (!spec_condition(old(comp)@, cond) || (instruction.dst is Some && spec_jmp(
            old(comp)@,
            instruction.segment,
            instruction.dst.unwrap(),
        ) is Some)),
        r is Ok ==> (instruction.dst is Some ==> Some(final(comp)@) == spec_cond_jmp(
            old(comp)@,
            instruction.segment,
            instruction.dst.unwrap(),
            cond,
        )) && (instruction.dst is None ==> final(comp)@ == old(comp)@),
        r is Err ==> final(comp)@ == old(comp)@,
        final(comp).hooks() == old(comp).hooks(),
{
    if check_condition(comp, cond) {
        jmp(comp, instruction)
    } else {
        Ok(0)
    }
}

/// A loop jump: CX steps down by one; if it is then non-zero and the
/// variant's zero-flag condition holds, the relative jump is taken.
pub open spec fn spec_loop(a: Arch, seg: Regs, dst: Option<DstArg>, kind: u8) -> Option<Arch> {
    let a1 = a.with_reg(Regs::CX, model::wsub(a.cx, 1));
    let zf = a1.flag_set(CPUFlags::ZERO);
    let go = a1.cx != 0 && (if kind == 0 {
        !zf
    } else if kind == 1 {
        zf
    } else {
        true
    });
    if go {
        match dst {
            Some(d) => spec_jmp(a1, seg, d),
            None => None,
        }
    } else {
        Some(a1)
    }
}

pub fn lop(comp: &mut CPU, instruction: Instruction, kind: u8) -> (r: Result<usize, CpuErr>)
    ensures
        r is Ok <==> spec_loop(old(comp)@, instruction.segment, instruction.dst, kind) is Some,
        r is Ok ==> Some(final(comp)@) == spec_loop(
            old(comp)@,
            instruction.segment,
            instruction.dst,
            kind,
        ),
        r is Err ==> final(comp)@ == old(comp)@.with_reg(
            Regs::CX,
            model::wsub(old(comp)@.cx, 1),
        ),
        final(comp).hooks() == old(comp).hooks(),
{
    let cx = match comp.bus.read_reg(Regs::CX) {
        Some(v) => v,
        None => 0,
    };
    let new_cx = crate::cpu::wrap_sub(cx, 1);
    comp.bus.set_reg(Regs::CX, new_cx);
    let zf = comp.bus.check_flag(CPUFlags::ZERO);
    let go = new_cx != 0 && (if kind == 0 {
        !zf
    } else if kind == 1 {
        zf
    } else {
        true
    });
    if go {
        jmp(comp, instruction)
    } else {
        Ok(0)
    }
}

pub fn jmp_mnemonic(_reg_bits: u8) -> (r: Option<String>)
    ensures
        r is Some && r.unwrap()@ == "JMP"@,
{
    Some(String::from_str("JMP"))
}

/// The mnemonic of a conditional jump: the letter J followed by the
/// condition's own name.
pub fn cond_jmp_mnemonic(cond_text: String) -> (r: Option<String>)
    ensures
        r is Some && r.unwrap()@ == "J"@ + cond_text@,
{
    let mut s = String::from_str("J");
    s.append(cond_text.as_str());
    Some(s)
}

/// The mnemonic of a loop jump: LOOP followed by the variant's suffix.
pub fn loop_mnemonic(cond_text: String) -> (r: Option<String>)
    ensures
        r is Some && r.unwrap()@ == "LOOP"@ + cond_text@,
{
    let mut s = String::from_str("LOOP");
    s.append(cond_text.as_str());
    Some(s)
}

} // verus!
