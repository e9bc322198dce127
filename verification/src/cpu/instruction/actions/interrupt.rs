use vstd::prelude::*;
use vstd::string::StringExecFns;
use crate::cpu::{exceptions, CPU, CPUFlags, CpuErr, Regs};
use crate::cpu::model::{self, Arch};
use crate::cpu::instruction::Instruction;
use crate::cpu::instruction::args::{DstArg, SrcArg};

verus! {

/// INT: latches the byte operand as the pending interrupt vector; the
/// driver services it before the next fetch.
pub open spec fn spec_int_req(a: Arch, seg: Regs, dst: DstArg) -> Option<Arch> {
    match model::spec_resolve_arg(a, seg, dst) {
        Some(SrcArg::Byte(n)) => Some(a.with_irq(Some(n))),
        _ => None,
    }
}

pub fn int_req(comp: &mut CPU, instruction: Instruction) -> (r: Result<usize, CpuErr>)
    ensures
        r is Ok <==> instruction.dst is Some && spec_int_req(
            old(comp)@,
            instruction.segment,
            instruction.dst.unwrap(),
        ) is Some,
        r is Ok ==> Some(final(comp)@) == spec_int_req(
            old(comp)@,
            instruction.segment,
            instruction.dst.unwrap(),
        ),
        r is Err ==> final(comp)@ == old(comp)@,
        final(comp).hooks() == old(comp).hooks(),
{
    let seg = instruction.segment;
    let dst_arg = match instruction.dst {
        Some(d) => d,
        None => {
            return Err(CpuErr::BadOperand);
        },
    };
    match dst_arg.to_src_arg(&mut comp.bus, seg) {
        Some(SrcArg::Byte(n)) => {
            comp.bus.irq = Some(n);
            Ok(0)
        },
        Some(_) => Err(CpuErr::BadOperand),
        None => Err(CpuErr::OutOfBounds),
    }
}

/// INTO: raises the overflow trap only when the overflow flag is set.
pub fn into(comp: &mut CPU, _instruction: Instruction) -> (r: Result<usize, CpuErr>)
    ensures
        r is Ok,
        old(comp)@.flag_set(CPUFlags::OVERFLOW) ==> Some(final(comp)@) == old(comp)@.spec_except(
            exceptions::INTO,
        ),
        !old(comp)@.flag_set(CPUFlags::OVERFLOW) ==> final(comp)@ == old(comp)@,
        final(comp).hooks() == old(comp).hooks(),
{
    if comp.bus.check_flag(CPUFlags::OVERFLOW) {
        match comp.bus.except(exceptions::INTO) {
            Ok(()) => Ok(0),
            Err(_) => Ok(0),
        }
    } else {
        Ok(0)
    }
}

/// IRET: pops IP, CS and FLAGS in that order, mirroring how the interrupt
/// dispatch pushed them.
pub open spec fn spec_iret(a: Arch) -> Option<Arch> {
    match a.spec_pop_word() {
        Some((a1, w1)) => {
            let b = a1.with_reg(Regs::IP, w1);
            match b.spec_pop_word() {
                Some((b1, w2)) => {
                    let c = b1.with_reg(Regs::CS, w2);
                    match c.spec_pop_word() {
                        Some((c1, w3)) => Some(c1.with_reg(Regs::FLAGS, w3)),
                        None => None,
                    }
                },
                None => None,
            }
        },
        None => None,
    }
}

pub fn iret(comp: &mut CPU, _instruction: Instruction) -> (r: Result<usize, CpuErr>)
    ensures
        r is Ok <==> spec_iret(old(comp)@) is Some,
        r is Ok ==> Some(final(comp)@) == spec_iret(old(comp)@),
        final(comp).hooks() == old(comp).hooks(),
{
    let w1 = match comp.bus.pop_word() {
        Ok(w) => w,
        Err(e) => {
            return Err(e);
        },
    };
    comp.bus.set_reg(Regs::IP, w1);
    let w2 = match comp.bus.pop_word() {
        Ok(w) => w,
        Err(e) => {
            return Err(e);
        },
    };
    comp.bus.set_reg(Regs::CS, w2);
    let w3 = match comp.bus.pop_word() {
        Ok(w) => w,
        Err(e) => {
            return Err(e);
        },
    };
    comp.bus.set_reg(Regs::FLAGS, w3);
    Ok(0)
}

/// BOUND: the double-word source holds a lower and an upper bound; a tested
/// register value outside them raises the bound exception, and a destination
/// that is not a register raises the invalid-opcode exception.
pub open spec fn spec_bound(a: Arch, seg: Regs, src: DstArg, dst: DstArg) -> Option<Arch> {
    match model::spec_resolve_arg(a, seg, src) {
        Some(SrcArg::DWord(bounds)) => {
            let lower = (bounds % 0x10000) as u16;
            let upper = (bounds / 0x10000) as u16;
            match dst {
                DstArg::Reg16(_) | DstArg::Reg(_) => match model::spec_resolve_arg(a, seg, dst) {
                    Some(SrcArg::Word(val)) => if val < lower || val > upper {
                        a.spec_except(exceptions::BOUND)
                    } else {
                        Some(a)
                    },
                    _ => None,
                },
                _ => a.spec_except(exceptions::INVALID_OPCODE),
            }
        },
        Some(_) => Some(a),
        None => None,
    }
}

pub fn bound(comp: &mut CPU, instruction: Instruction) -> (r: Result<usize, CpuErr>)
    ensures
        r is Ok <==> instruction.src is Some && instruction.dst is Some && spec_bound(
            old(comp)@,
            instruction.segment,
            instruction.src.unwrap(),
            instruction.dst.unwrap(),
        ) is Some,
        r is Ok ==> Some(final(comp)@) == spec_bound(
            old(comp)@,
            instruction.segment,
            instruction.src.unwrap(),
            instruction.dst.unwrap(),
        ),
        r is Err ==> final(comp)@ == old(comp)@,
        final(comp).hooks() == old(comp).hooks(),
{
    let seg = instruction.segment;
    let (src_arg, dst_arg) = match (instruction.src, instruction.dst) {
        (Some(s), Some(d)) => (s, d),
        _ => {
            return Err(CpuErr::BadOperand);
        },
    };
    let bounds: u32 = match src_arg.to_src_arg(&mut comp.bus, seg) {
        Some(SrcArg::DWord(v)) => v,
        Some(_) => {
            return Ok(0);
        },
        None => {
            return Err(CpuErr::OutOfBounds);
        },
    };
    let lower: u16 = (bounds % 0x10000) as u16;
    let upper: u16 = (bounds / 0x10000) as u16;
    let is_reg = match dst_arg {
        DstArg::Reg16(_) => true,
        DstArg::Reg(_) => true,
        _ => false,
    };
    if !is_reg {
        match comp.bus.except(exceptions::INVALID_OPCODE) {
            Ok(()) => {
                return Ok(0);
            },
            Err(e) => {
                return Err(e);
            },
        }
    }
    match dst_arg.to_src_arg(&mut comp.bus, seg) {
        Some(SrcArg::Word(val)) => {
            if val < lower || val > upper {
                match comp.bus.except(exceptions::BOUND) {
                    Ok(()) => Ok(0),
                    Err(e) => Err(e),
                }
            } else {
                Ok(0)
            }
        },
        Some(_) => Err(CpuErr::BadOperand),
        None => Err(CpuErr::OutOfBounds),
    }
}

/// Servicing a pending interrupt through the vector table: FLAGS, CS and IP
/// are pushed in that order, the latch clears, and the CS:IP pair is loaded
/// from the table entry at ES:(vector times four). Nothing when the stack or
/// the table read is out of bounds, or when the entry carries the sentinel
/// segment that routes to a peripheral instead.
pub open spec fn spec_service(a: Arch, n: u8) -> Option<Arch> {
    match a.spec_push_word(a.flags) {
        Some(b) => match b.spec_push_word(b.cs) {
            Some(c) => match c.spec_push_word(c.ip) {
                Some(d) => {
                    let d1 = d.with_irq(None);
                    let base = ((n as int) * 4) as u16;
                    match (d1.word_at(Regs::ES, base), d1.word_at(Regs::ES, model::wadd(base, 2))) {
                        (Some(ipw), Some(csw)) => if csw != 0xFFFF {
                            Some(d1.with_reg(Regs::CS, csw).with_reg(Regs::IP, ipw))
                        } else {
                            None
                        },
                        _ => None,
                    }
                },
                None => None,
            },
            None => None,
        },
        None => None,
    }
}

/// Runs the pending interrupt: the register state is saved on the stack and
/// the handler the vector table names takes over. An entry whose segment
/// word is the sentinel routes to the hooked peripheral instead: the device
/// handler runs and the saved state is then popped straight back, as the
/// handler's closing IRET would have done.
pub fn int_service(comp: &mut CPU) -> (r: Result<usize, CpuErr>)
    ensures
        (old(comp)@.irq matches Some(n) && spec_service(old(comp)@, n) is Some) ==> r is Ok && Some(
            final(comp)@,
        ) == spec_service(old(comp)@, old(comp)@.irq.unwrap()),
        (old(comp)@.irq is Some && r is Ok) ==> (Some(final(comp)@) == spec_service(
            old(comp)@,
            old(comp)@.irq.unwrap(),
        ) || (exists|mid: Arch| Some(final(comp)@) == #[trigger] spec_iret(mid))),
        final(comp).hooks() == old(comp).hooks(),
{
    let n: u8 = match comp.bus.irq {
        Some(n) => n,
        None => {
            return Err(CpuErr::BadOperand);
        },
    };
    let fl = match comp.bus.read_reg(Regs::FLAGS) {
        Some(v) => v,
        None => 0,
    };
    match comp.bus.push_word(fl) {
        Ok(()) => (),
        Err(e) => {
            return Err(e);
        },
    }
    let cs = match comp.bus.read_reg(Regs::CS) {
        Some(v) => v,
        None => 0,
    };
    match comp.bus.push_word(cs) {
        Ok(()) => (),
        Err(e) => {
            return Err(e);
        },
    }
    let ip = match comp.bus.read_reg(Regs::IP) {
        Some(v) => v,
        None => 0,
    };
    match comp.bus.push_word(ip) {
        Ok(()) => (),
        Err(e) => {
            return Err(e);
        },
    }
    comp.bus.irq = None;
    let base: u16 = (n as u16) * 4;
    let ipw = match comp.bus.mem_word(Regs::ES, base) {
        Some(w) => w,
        None => {
            return Err(CpuErr::OutOfBounds);
        },
    };
    let csw = match comp.bus.mem_word(Regs::ES, crate::cpu::wrap_add(base, 2)) {
        Some(w) => w,
        None => {
            return Err(CpuErr::OutOfBounds);
        },
    };
    if csw != 0xFFFF {
        comp.bus.set_reg(Regs::CS, csw);
        comp.bus.set_reg(Regs::IP, ipw);
        Ok(0)
    } else {
        let extra = comp.dispatch_interrupt(ipw as usize, n);
        let ghost mid = comp@;
        let w1 = match comp.bus.pop_word() {
            Ok(w) => w,
            Err(e) => {
                return Err(e);
            },
        };
        comp.bus.set_reg(Regs::IP, w1);
        let w2 = match comp.bus.pop_word() {
            Ok(w) => w,
            Err(e) => {
                return Err(e);
            },
        };
        comp.bus.set_reg(Regs::CS, w2);
        let w3 = match comp.bus.pop_word() {
            Ok(w) => w,
            Err(e) => {
                return Err(e);
            },
        };
        comp.bus.set_reg(Regs::FLAGS, w3);
        proof {
            assert(Some(comp@) == spec_iret(mid));
        }
        Ok(extra)
    }
}

pub fn int_mnemonic(_reg_bits: u8) -> (r: Option<String>)
    ensures
        r is Some && r.unwrap()@ == "INT"@,
{
    Some(String::from_str("INT"))
}

pub fn iret_mnemonic(_reg_bits: u8) -> (r: Option<String>)
    ensures
        r is Some && r.unwrap()@ == "IRET"@,
{
    Some(String::from_str("IRET"))
}

pub fn bound_mnemonic(_reg_bits: u8) -> (r: Option<String>)
    ensures
        r is Some && r.unwrap()@ == "BOUND"@,
{
    Some(String::from_str("BOUND"))
}

} // verus!
