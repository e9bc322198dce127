use vstd::prelude::*;
use vstd::string::StringExecFns;
use crate::cpu::{CPU, CpuErr, Regs};
use crate::cpu::model::{self, Arch};
use crate::cpu::instruction::Instruction;
use crate::cpu::instruction::args::{DstArg, SrcArg};

verus! {

/// PUSH of an operand: a byte value is sign-extended to a word first; the
/// word lands at SS:(SP-1) and SP moves down by two.
pub open spec fn spec_push(a: Arch, seg: Regs, dst: DstArg) -> Option<Arch> {
    match model::spec_resolve_arg(a, seg, dst) {
        Some(SrcArg::Byte(b)) => a.spec_push_word(model::spec_sign_extend(b)),
        Some(SrcArg::Word(w)) => a.spec_push_word(w),
        _ => None,
    }
}

/// PUSH always travels through the SS segment, whatever segment the
/// instruction would otherwise address.
pub fn push(comp: &mut CPU, instruction: Instruction) -> (r: Result<usize, CpuErr>)
    ensures
        r is Ok <==> instruction.dst is Some && spec_push(
            old(comp)@,
            instruction.segment,
            instruction.dst.unwrap(),
        ) is Some,
        r is Ok ==> Some(final(comp)@) == spec_push(
            old(comp)@,
            instruction.segment,
            instruction.dst.unwrap(),
        ),
        r is Err ==> final(comp)@ == old(comp)@,
        final(comp).hooks() == old(comp).hooks(),
{
    let seg = instruction.segment;
    let dst_arg = match instruction.dst {
        Some(d) => d,
        None => {
            return Err(CpuErr::BadOperand);
        },
    };
    let w: u16 = match dst_arg.to_src_arg(&mut comp.bus, seg) {
        Some(SrcArg::Byte(b)) => CPU::sign_extend(b),
        Some(SrcArg::Word(w)) => w,
        Some(SrcArg::DWord(_)) => {
            return Err(CpuErr::BadOperand);
        },
        None => {
            return Err(CpuErr::OutOfBounds);
        },
    };
    match comp.bus.push_word(w) {
        Ok(()) => Ok(1),
        Err(e) => Err(e),
    }
}

/// POP into an operand: the word at SS:(SP+1) is written to the destination
/// and SP moves up by two afterward.
pub open spec fn spec_pop(a: Arch, seg: Regs, dst: DstArg) -> Option<Arch> {
    match a.word_at(Regs::SS, model::wadd(a.sp, 1)) {
        Some(w) => match model::spec_write_arg(a, seg, dst, SrcArg::Word(w)) {
            Some(b) => Some(b.with_reg(Regs::SP, model::wadd(b.sp, 2))),
            None => None,
        },
        None => None,
    }
}

pub fn pop(comp: &mut CPU, instruction: Instruction) -> (r: Result<usize, CpuErr>)
    ensures
        r is Ok <==> instruction.dst is Some && spec_pop(
            old(comp)@,
            instruction.segment,
            instruction.dst.unwrap(),
        ) is Some,
        r is Ok ==> Some(final(comp)@) == spec_pop(
            old(comp)@,
            instruction.segment,
            instruction.dst.unwrap(),
        ),
        r is Err ==> final(comp)@ == old(comp)@,
        final(comp).hooks() == old(comp).hooks(),
{
    let seg = instruction.segment;
    let dst_arg = match instruction.dst {
        Some(d) => d,
        None => {
            return Err(CpuErr::BadOperand);
        },
    };
    let sp = match comp.bus.read_reg(Regs::SP) {
        Some(v) => v,
        None => 0,
    };
    let w = match comp.bus.mem_word(Regs::SS, crate::cpu::wrap_add(sp, 1)) {
        Some(w) => w,
        None => {
            return Err(CpuErr::OutOfBounds);
        },
    };
    match comp.bus.write_to_arg(dst_arg, seg, SrcArg::Word(w)) {
        Ok(()) => {
            let sp_now = match comp.bus.read_reg(Regs::SP) {
                Some(v) => v,
                None => 0,
            };
            comp.bus.set_reg(Regs::SP, crate::cpu::wrap_add(sp_now, 2));
            Ok(1)
        },
        Err(e) => Err(e),
    }
}

/// CALL near: pushes the return offset, then either adds a relative
/// immediate to IP or loads IP from the resolved operand.
pub open spec fn spec_near_call(a: Arch, seg: Regs, dst: DstArg) -> Option<Arch> {
    match a.spec_push_word(a.ip) {
        Some(b) => match dst {
            DstArg::Imm16(v) => Some(b.with_reg(Regs::IP, model::wadd(b.ip, v))),
            DstArg::Imm8(v) => Some(b.with_reg(Regs::IP, model::wadd(b.ip, model::spec_sign_extend(v)))),
            _ => match model::spec_resolve_arg(b, seg, dst) {
                Some(SrcArg::Word(w)) => Some(b.with_reg(Regs::IP, w)),
                _ => None,
            },
        },
        None => None,
    }
}

pub fn near_call(comp: &mut CPU, instruction: Instruction) -> (r: Result<usize, CpuErr>)
    ensures
        r is Ok <==> instruction.dst is Some && spec_near_call(
            old(comp)@,
            instruction.segment,
            instruction.dst.unwrap(),
        ) is Some,
        r is Ok ==> Some(final(comp)@) == spec_near_call(
            old(comp)@,
            instruction.segment,
            instruction.dst.unwrap(),
        ),
        r is Err ==> final(comp)@ == old(comp)@ || Some(final(comp)@) == old(
            comp,
        )@.spec_push_word(old(comp)@.ip),
        final(comp).hooks() == old(comp).hooks(),
{
    let seg = instruction.segment;
    let dst_arg = match instruction.dst {
        Some(d) => d,
        None => {
            return Err(CpuErr::BadOperand);
        },
    };
    let ip = match comp.bus.read_reg(Regs::IP) {
        Some(v) => v,
        None => 0,
    };
    match comp.bus.push_word(ip) {
        Ok(()) => (),
        Err(e) => {
            return Err(e);
        },
    }
    match dst_arg {
        DstArg::Imm16(v) => {
            let ip_now = match comp.bus.read_reg(Regs::IP) {
                Some(x) => x,
                None => 0,
            };
            comp.bus.set_reg(Regs::IP, crate::cpu::wrap_add(ip_now, v));
            Ok(0)
        },
        DstArg::Imm8(v) => {
            let ip_now = match comp.bus.read_reg(Regs::IP) {
                Some(x) => x,
                None => 0,
            };
            comp.bus.set_reg(Regs::IP, crate::cpu::wrap_add(ip_now, CPU::sign_extend(v)));
            Ok(0)
        },
        _ => match dst_arg.to_src_arg(&mut comp.bus, seg) {
            Some(SrcArg::Word(w)) => {
                comp.bus.set_reg(Regs::IP, w);
                Ok(0)
            },
            Some(_) => Err(CpuErr::BadOperand),
            None => Err(CpuErr::OutOfBounds),
        },
    }
}

/// CALL far: pushes CS then the return offset, then loads the CS:IP pair
/// from a double-word operand, an absolute segment and offset.
pub open spec fn spec_far_call(a: Arch, seg: Regs, dst: DstArg) -> Option<Arch> {
    match a.spec_push_word(a.cs) {
        Some(b) => match b.spec_push_word(b.ip) {
            Some(c) => match dst {
                DstArg::Imm32(v) => Some(
                    c.with_reg(Regs::CS, (v / 0x10000) as u16).with_reg(
                        Regs::IP,
                        (v % 0x10000) as u16,
                    ),
                ),
                _ => match model::spec_resolve_arg(c, seg, dst) {
                    Some(SrcArg::DWord(v)) => Some(
                        c.with_reg(Regs::CS, (v / 0x10000) as u16).with_reg(
                            Regs::IP,
                            (v % 0x10000) as u16,
                        ),
                    ),
                    _ => None,
                },
            },
            None => None,
        },
        None => None,
    }
}

pub fn far_call(comp: &mut CPU, instruction: Instruction) -> (r: Result<usize, CpuErr>)
    ensures
        r is Ok <==> instruction.dst is Some && spec_far_call(
            old(comp)@,
            instruction.segment,
            instruction.dst.unwrap(),
        ) is Some,
        r is Ok ==> Some(final(comp)@) == spec_far_call(
            old(comp)@,
            instruction.segment,
            instruction.dst.unwrap(),
        ),
        final(comp).hooks() == old(comp).hooks(),
{
    let seg = instruction.segment;
    let dst_arg = match instruction.dst {
        Some(d) => d,
        None => {
            return Err(CpuErr::BadOperand);
        },
    };
    let cs = match comp.bus.read_reg(Regs::CS) {
        Some(v) => v,
        None => 0,
    };
    match comp.bus.push_word(cs) {
        Ok(()) => (),
        Err(e) => {
            return Err(e);
        },
    }
    let ip = match comp.bus.read_reg(Regs::IP) {
        Some(v) => v,
        None => 0,
    };
    match comp.bus.push_word(ip) {
        Ok(()) => (),
        Err(e) => {
            return Err(e);
        },
    }
    let v: u32 = match dst_arg {
        DstArg::Imm32(v) => v,
        _ => match dst_arg.to_src_arg(&mut comp.bus, seg) {
            Some(SrcArg::DWord(v)) => v,
            Some(_) => {
                return Err(CpuErr::BadOperand);
            },
            None => {
                return Err(CpuErr::OutOfBounds);
            },
        },
    };
    comp.bus.set_reg(Regs::CS, (v / 0x10000) as u16);
    comp.bus.set_reg(Regs::IP, (v % 0x10000) as u16);
    Ok(0)
}

/// RET near: pops the return offset into IP; the immediate form then
/// discards that many extra stack bytes by moving SP further up.
pub open spec fn spec_near_ret(a: Arch, dst: Option<DstArg>) -> Option<Arch> {
    match a.spec_pop_word() {
        Some((b, w)) => {
            let c = b.with_reg(Regs::IP, w);
            match dst {
                None => Some(c),
                Some(DstArg::Imm16(n)) => Some(c.with_reg(Regs::SP, model::wadd(c.sp, n))),
                Some(_) => None,
            }
        },
        None => None,
    }
}

pub fn near_ret(comp: &mut CPU, instruction: Instruction) -> (r: Result<usize, CpuErr>)
    ensures
        r is Ok <==> spec_near_ret(old(comp)@, instruction.dst) is Some,
        r is Ok ==> Some(final(comp)@) == spec_near_ret(old(comp)@, instruction.dst),
        r is Err ==> final(comp)@ == old(comp)@,
        final(comp).hooks() == old(comp).hooks(),
{
    match instruction.dst {
        None => (),
        Some(DstArg::Imm16(_)) => (),
        Some(_) => {
            return Err(CpuErr::BadOperand);
        },
    }
    let w = match comp.bus.pop_word() {
        Ok(w) => w,
        Err(e) => {
            return Err(e);
        },
    };
    comp.bus.set_reg(Regs::IP, w);
    match instruction.dst {
        Some(DstArg::Imm16(n)) => {
            let sp = match comp.bus.read_reg(Regs::SP) {
                Some(v) => v,
                None => 0,
            };
            comp.bus.set_reg(Regs::SP, crate::cpu::wrap_add(sp, n));
            Ok(0)
        },
        _ => Ok(0),
    }
}

/// RET far: pops the return offset into IP and the return segment into CS;
/// the immediate form then discards extra stack bytes.
pub open spec fn spec_far_ret(a: Arch, dst: Option<DstArg>) -> Option<Arch> {
    match a.spec_pop_word() {
        Some((b, w)) => {
            let c = b.with_reg(Regs::IP, w);
            match c.spec_pop_word() {
                Some((d, w2)) => {
                    let e = d.with_reg(Regs::CS, w2);
                    match dst {
                        None => Some(e),
                        Some(DstArg::Imm16(n)) => Some(e.with_reg(Regs::SP, model::wadd(e.sp, n))),
                        Some(_) => None,
                    }
                },
                None => None,
            }
        },
        None => None,
    }
}

pub fn far_ret(comp: &mut CPU, instruction: Instruction) -> (r: Result<usize, CpuErr>)
    ensures
        r is Ok <==> spec_far_ret(old(comp)@, instruction.dst) is Some,
        r is Ok ==> Some(final(comp)@) == spec_far_ret(old(comp)@, instruction.dst),
        final(comp).hooks() == old(comp).hooks(),
{
    match instruction.dst {
        None => (),
        Some(DstArg::Imm16(_)) => (),
        Some(_) => {
            return Err(CpuErr::BadOperand);
        },
    }
    let w = match comp.bus.pop_word() {
        Ok(w) => w,
        Err(e) => {
            return Err(e);
        },
    };
    comp.bus.set_reg(Regs::IP, w);
    let w2 = match comp.bus.pop_word() {
        Ok(w2) => w2,
        Err(e) => {
            return Err(e);
        },
    };
    comp.bus.set_reg(Regs::CS, w2);
    match instruction.dst {
        Some(DstArg::Imm16(n)) => {
            let sp = match comp.bus.read_reg(Regs::SP) {
                Some(v) => v,
                None => 0,
            };
            comp.bus.set_reg(Regs::SP, crate::cpu::wrap_add(sp, n));
            Ok(0)
        },
        _ => Ok(0),
    }
}

/// The chain of nested-frame links ENTER builds for each nesting level past
/// the first: BP steps down a word, and the word at SS:BP is pushed.
pub open spec fn spec_enter_links(a: Arch, k: nat) -> Option<Arch>
    decreases k,
{
    if k == 0 {
        Some(a)
    } else {
        let new_bp = model::wsub(a.bp, 2);
        let a1 = a.with_reg(Regs::BP, new_bp);
        match a1.word_at(Regs::SS, new_bp) {
            Some(w) => match a1.spec_push_word(w) {
                Some(a2) => spec_enter_links(a2, (k - 1) as nat),
                None => None,
            },
            None => None,
        }
    }
}

/// ENTER size, level: pushes BP, records the frame pointer, builds the
/// nested-frame display for a positive nesting level (the level is reduced
/// modulo thirteen), re-pushes the frame pointer, then makes BP the frame
/// pointer and reserves the locals by moving SP down by the size.
pub open spec fn spec_enter(a: Arch, size: u16, level0: u8) -> Option<Arch> {
    let level = level0 % 13;
    match a.spec_push_word(a.bp) {
        Some(b) => {
            let fp = b.sp;
            let after_links = if level > 0 {
                match spec_enter_links(b, (level - 1) as nat) {
                    Some(c) => c.spec_push_word(fp),
                    None => None,
                }
            } else {
                Some(b)
            };
            match after_links {
                Some(c) => Some(
                    c.with_reg(Regs::BP, fp).with_reg(Regs::SP, model::wsub(c.sp, size)),
                ),
                None => None,
            }
        },
        None => None,
    }
}

/// ENTER's operand shape and transform together: a word immediate for the
/// local space, a byte immediate for the nesting level, and the frame built.
pub open spec fn spec_enter_i(a: Arch, dst: Option<DstArg>, src: Option<DstArg>) -> Option<Arch> {
    match (dst, src) {
        (Some(DstArg::Imm16(size)), Some(DstArg::Imm8(level))) => spec_enter(a, size, level),
        _ => None,
    }
}

#[verifier::rlimit(100)]
#[verifier::spinoff_prover]
pub fn enter(comp: &mut CPU, instruction: Instruction) -> (r: Result<usize, CpuErr>)
    ensures
        r is Ok <==> spec_enter_i(old(comp)@, instruction.dst, instruction.src) is Some,
        r is Ok ==> Some(final(comp)@) == spec_enter_i(
            old(comp)@,
            instruction.dst,
            instruction.src,
        ),
        final(comp).hooks() == old(comp).hooks(),
{
    let size: u16 = match instruction.dst {
        Some(DstArg::Imm16(v)) => v,
        _ => {
            return Err(CpuErr::BadOperand);
        },
    };
    let level0: u8 = match instruction.src {
        Some(DstArg::Imm8(v)) => v,
        _ => {
            return Err(CpuErr::BadOperand);
        },
    };
    let level: u8 = level0 % 13;
    let bp = match comp.bus.read_reg(Regs::BP) {
        Some(v) => v,
        None => 0,
    };
    match comp.bus.push_word(bp) {
        Ok(()) => (),
        Err(e) => {
            return Err(e);
        },
    }
    let fp = match comp.bus.read_reg(Regs::SP) {
        Some(v) => v,
        None => 0,
    };
    let ghost b = comp@;
    if level > 0 {
        let mut failed: Option<CpuErr> = None;
        let mut i: u8 = 1;
        while i < level && failed.is_none()
            invariant
                1 <= i <= level,
                failed is None ==> spec_enter_links(comp@, (level - i) as nat)
                    == spec_enter_links(b, (level - 1) as nat),
                failed is Some ==> spec_enter_links(b, (level - 1) as nat) is None,
                comp.hooks() == old(comp).hooks(),
            decreases level - i, (if failed is None {
                1int
            } else {
                0int
            }),
        {
            let ghost head = comp@;
            let cur_bp = match comp.bus.read_reg(Regs::BP) {
                Some(v) => v,
                None => 0,
            };
            let new_bp = crate::cpu::wrap_sub(cur_bp, 2);
            comp.bus.set_reg(Regs::BP, new_bp);
            let w_opt = comp.bus.mem_word(Regs::SS, new_bp);
            proof {
                assert(comp@ == head.with_reg(Regs::BP, model::wsub(head.bp, 2)));
            }
            match w_opt {
                Some(w) => {
                    match comp.bus.push_word(w) {
                        Ok(()) => {
                            i = i + 1;
                        },
                        Err(e) => {
                            proof {
                                assert(spec_enter_links(head, (level - i) as nat) is None);
                            }
                            failed = Some(e);
                        },
                    }
                },
                None => {
                    proof {
                        assert(spec_enter_links(head, (level - i) as nat) is None);
                    }
                    failed = Some(CpuErr::OutOfBounds);
                },
            }
        }
        match failed {
            Some(e) => {
                proof {
                    assert(spec_enter(old(comp)@, size, level) is None);
                }
                return Err(e);
            },
            None => (),
        }
        match comp.bus.push_word(fp) {
            Ok(()) => (),
            Err(e) => {
                proof {
                    assert(spec_enter_links(b, (level - 1) as nat) == Some(comp@));
                    assert(spec_enter(old(comp)@, size, level) is None);
                }
                return Err(e);
            },
        }
    }
    comp.bus.set_reg(Regs::BP, fp);
    let sp = match comp.bus.read_reg(Regs::SP) {
        Some(v) => v,
        None => 0,
    };
    comp.bus.set_reg(Regs::SP, crate::cpu::wrap_sub(sp, size));
    Ok(0)
}

/// LEAVE: SP returns to the frame pointer in BP, then BP pops its saved
/// value back off the stack.
pub open spec fn spec_leave(a: Arch) -> Option<Arch> {
    let b = a.with_reg(Regs::SP, a.bp);
    match b.word_at(Regs::SS, model::wadd(b.sp, 1)) {
        Some(w) => Some(b.with_reg(Regs::BP, w).with_reg(Regs::SP, model::wadd(b.sp, 2))),
        None => None,
    }
}

pub fn leave(comp: &mut CPU, _instruction: Instruction) -> (r: Result<usize, CpuErr>)
    ensures
        r is Ok <==> spec_leave(old(comp)@) is Some,
        r is Ok ==> Some(final(comp)@) == spec_leave(old(comp)@),
        final(comp).hooks() == old(comp).hooks(),
{
    let bp = match comp.bus.read_reg(Regs::BP) {
        Some(v) => v,
        None => 0,
    };
    comp.bus.set_reg(Regs::SP, bp);
    match comp.bus.pop_word() {
        Ok(w) => {
            comp.bus.set_reg(Regs::BP, w);
            Ok(0)
        },
        Err(e) => Err(e),
    }
}

pub fn push_mnemonic(_reg_bits: u8) -> (r: Option<String>)
    ensures
        r is Some && r.unwrap()@ == "PUSH"@,
{
    Some(String::from_str("PUSH"))
}

pub fn pop_mnemonic(_reg_bits: u8) -> (r: Option<String>)
    ensures
        r is Some && r.unwrap()@ == "POP"@,
{
    Some(String::from_str("POP"))
}

pub fn call_mnemonic(_reg_bits: u8) -> (r: Option<String>)
    ensures
        r is Some && r.unwrap()@ == "CALL"@,
{
    Some(String::from_str("CALL"))
}

pub fn ret_mnemonic(_reg_bits: u8) -> (r: Option<String>)
    ensures
        r is Some && r.unwrap()@ == "RET"@,
{
    Some(String::from_str("RET"))
}

pub fn enter_mnemonic(_reg_bits: u8) -> (r: Option<String>)
    ensures
        r is Some && r.unwrap()@ == "ENTER"@,
{
    Some(String::from_str("ENTER"))
}

} // verus!
