use vstd::prelude::*;
use crate::cpu::{CPU, CPUFlags, CpuErr, Regs};
use crate::cpu::model::{self, Arch};
use crate::cpu::instruction::Instruction;
use crate::cpu::instruction::args::{DstArg, Size, SrcArg};
use crate::cpu::instruction::actions::flags::{advance_di, advance_si, spec_advance};
use crate::cpu::instruction::actions::is_device_dependent;
use crate::cpu::instruction::opcode::OpAction;

verus! {

/// Whether a write of any value of the given width would land in an operand
/// location is a fact about the location, not the value.
proof fn lemma_write_is_value_blind(a: Arch, seg: Regs, dst: DstArg, v1: SrcArg, v2: SrcArg)
    requires
        v1.spec_size() == v2.spec_size(),
    ensures
        (model::spec_write_arg(a, seg, dst, v1) is Some) == (model::spec_write_arg(
            a,
            seg,
            dst,
            v2,
        ) is Some),
{
}

/// The inputs on which IN succeeds: the source resolves to a byte or word
/// port, some peripheral is hooked to that port, and the destination both
/// resolves (fixing the access width) and can take a value of that width.
pub open spec fn spec_in_ok(
    a: Arch,
    hooks: Seq<(u16, usize)>,
    seg: Regs,
    src_arg: DstArg,
    dst_arg: DstArg,
) -> bool {
    let port = match model::spec_resolve_arg(a, seg, src_arg) {
        Some(SrcArg::Byte(p)) => Some(p as u16),
        Some(SrcArg::Word(p)) => Some(p),
        _ => None,
    };
    match port {
        Some(p) => match model::spec_resolve_arg(a, seg, dst_arg) {
            Some(SrcArg::Byte(_)) => crate::cpu::spec_io_hook_for(hooks, p) is Some
                && model::spec_write_arg(a, seg, dst_arg, SrcArg::Byte(0)) is Some,
            Some(SrcArg::Word(_)) => crate::cpu::spec_io_hook_for(hooks, p) is Some
                && model::spec_write_arg(a, seg, dst_arg, SrcArg::Word(0)) is Some,
            _ => false,
        },
        None => false,
    }
}

/// IN: reads a byte or word from the peripheral hooked to the port named by
/// the source, into the destination. What arrives is the device's to choose:
/// the contract promises that some value of the right width lands in the
/// destination, succeeding exactly when the port is hooked and the operands
/// decode, and that a failure leaves the machine unchanged.
pub fn in_action(comp: &mut CPU, instruction: Instruction) -> (r: Result<usize, CpuErr>)
    ensures
        r is Ok <==> (instruction.src is Some && instruction.dst is Some && spec_in_ok(
            old(comp)@,
            old(comp).hooks(),
            instruction.segment,
            instruction.src.unwrap(),
            instruction.dst.unwrap(),
        )),
        r is Ok ==> (instruction.dst is Some && exists|v: SrcArg|
            Some(final(comp)@) == model::spec_write_arg(
                old(comp)@,
                instruction.segment,
                instruction.dst.unwrap(),
                v,
            )),
        r is Err ==> final(comp)@ == old(comp)@,
        final(comp).hooks() == old(comp).hooks(),
{
    let seg = instruction.segment;
    let (src_arg, dst_arg) = match (instruction.src, instruction.dst) {
        (Some(s), Some(d)) => (s, d),
        _ => {
            return Err(CpuErr::BadOperand);
        },
    };
    let port: u16 = match src_arg.to_src_arg(&mut comp.bus, seg) {
        Some(SrcArg::Byte(p)) => p as u16,
        Some(SrcArg::Word(p)) => p,
        Some(SrcArg::DWord(_)) => {
            return Err(CpuErr::BadOperand);
        },
        None => {
            return Err(CpuErr::OutOfBounds);
        },
    };
    let size = match dst_arg.to_src_arg(&mut comp.bus, seg) {
        Some(v) => v.get_size(),
        None => {
            return Err(CpuErr::OutOfBounds);
        },
    };
    let dev = match comp.io_hook_for(port) {
        Some(i) => i,
        None => {
            return Err(CpuErr::NoDevice);
        },
    };
    let val: SrcArg = match size {
        Size::Byte => SrcArg::Byte(comp.dispatch_read_byte(dev, port)),
        Size::Word => SrcArg::Word(comp.dispatch_read_word(dev, port)),
        Size::DWord => {
            return Err(CpuErr::BadOperand);
        },
    };
    proof {
        match val {
            SrcArg::Byte(_) => lemma_write_is_value_blind(
                old(comp)@,
                seg,
                dst_arg,
                val,
                SrcArg::Byte(0),
            ),
            SrcArg::Word(_) => lemma_write_is_value_blind(
                old(comp)@,
                seg,
                dst_arg,
                val,
                SrcArg::Word(0),
            ),
            SrcArg::DWord(_) => (),
        }
    }
    match comp.bus.write_to_arg(dst_arg, seg, val) {
        Ok(()) => {
            proof {
                assert(exists|v: SrcArg|
                    Some(comp@) == model::spec_write_arg(
                        old(comp)@,
                        instruction.segment,
                        instruction.dst.unwrap(),
                        v,
                    )) by {
                    assert(Some(comp@) == model::spec_write_arg(
                        old(comp)@,
                        instruction.segment,
                        instruction.dst.unwrap(),
                        val,
                    ));
                }
            }
            Ok(0)
        },
        Err(e) => Err(e),
    }
}

/// The inputs on which OUT succeeds: the destination resolves to a byte or
/// word port with a peripheral hooked to it, and the source resolves to a
/// byte or word value.
pub open spec fn spec_out_ok(
    a: Arch,
    hooks: Seq<(u16, usize)>,
    seg: Regs,
    src_arg: DstArg,
    dst_arg: DstArg,
) -> bool {
    let port = match model::spec_resolve_arg(a, seg, dst_arg) {
        Some(SrcArg::Byte(p)) => Some(p as u16),
        Some(SrcArg::Word(p)) => Some(p),
        _ => None,
    };
    match port {
        Some(p) => match model::spec_resolve_arg(a, seg, src_arg) {
            Some(SrcArg::Byte(_)) => crate::cpu::spec_io_hook_for(hooks, p) is Some,
            Some(SrcArg::Word(_)) => crate::cpu::spec_io_hook_for(hooks, p) is Some,
            _ => false,
        },
        None => false,
    }
}

/// OUT: writes the source's value to the peripheral hooked to the port
/// named by the destination, succeeding exactly when the port is hooked and
/// the operands decode. Ordinary memory never changes: the machine state is
/// exactly as before, whatever the device did with the value.
pub fn out(comp: &mut CPU, instruction: Instruction) -> (r: Result<usize, CpuErr>)
    ensures
        r is Ok <==> (instruction.src is Some && instruction.dst is Some && spec_out_ok(
            old(comp)@,
            old(comp).hooks(),
            instruction.segment,
            instruction.src.unwrap(),
            instruction.dst.unwrap(),
        )),
        final(comp)@ == old(comp)@,
        final(comp).hooks() == old(comp).hooks(),
{
    let seg = instruction.segment;
    let (src_arg, dst_arg) = match (instruction.src, instruction.dst) {
        (Some(s), Some(d)) => (s, d),
        _ => {
            return Err(CpuErr::BadOperand);
        },
    };
    let port: u16 = match dst_arg.to_src_arg(&mut comp.bus, seg) {
        Some(SrcArg::Byte(p)) => p as u16,
        Some(SrcArg::Word(p)) => p,
        Some(SrcArg::DWord(_)) => {
            return Err(CpuErr::BadOperand);
        },
        None => {
            return Err(CpuErr::OutOfBounds);
        },
    };
    let val = match src_arg.to_src_arg(&mut comp.bus, seg) {
        Some(v) => v,
        None => {
            return Err(CpuErr::OutOfBounds);
        },
    };
    let dev = match comp.io_hook_for(port) {
        Some(i) => i,
        None => {
            return Err(CpuErr::NoDevice);
        },
    };
    match val {
        SrcArg::Byte(b) => {
            comp.dispatch_write_byte(dev, port, b);
            Ok(0)
        },
        SrcArg::Word(w) => {
            comp.dispatch_write_word(dev, port, w);
            Ok(0)
        },
        SrcArg::DWord(_) => Err(CpuErr::BadOperand),
    }
}

/// The inputs on which INS succeeds: the width marker resolves, a
/// peripheral is hooked to the port in DX, and the destination cell at
/// ES:DI lies in memory. The device's answer never decides success, since a
/// read always yields a value.
pub open spec fn spec_ins_ok(a: Arch, hooks: Seq<(u16, usize)>, seg: Regs, dst: DstArg) -> bool {
    match model::spec_resolve_arg(a, seg, dst) {
        Some(SrcArg::Byte(_)) => crate::cpu::spec_io_hook_for(hooks, a.dx) is Some
            && a.byte_in_bounds(Regs::ES, a.di),
        Some(SrcArg::Word(_)) => crate::cpu::spec_io_hook_for(hooks, a.dx) is Some
            && a.word_in_bounds(Regs::ES, a.di),
        _ => false,
    }
}

/// INS: reads from the peripheral on port DX into memory at ES:DI, then
/// steps DI by the width the decoded marker gives. Some value of the right
/// width lands at ES:DI; which one is the device's to choose. Success is
/// owed exactly when the marker decodes, the port is hooked and the cell is
/// in memory.
pub fn ins(comp: &mut CPU, instruction: Instruction) -> (r: Result<usize, CpuErr>)
    ensures
        r is Ok <==> (instruction.dst is Some && spec_ins_ok(
            old(comp)@,
            old(comp).hooks(),
            instruction.segment,
            instruction.dst.unwrap(),
        )),
        r is Ok ==> (exists|b: u8|
            final(comp)@ == spec_advance(
                #[trigger] old(comp)@.with_byte(Regs::ES, old(comp)@.di, b),
                Regs::DI,
                1,
            )) || (exists|w: u16|
            final(comp)@ == spec_advance(
                #[trigger] old(comp)@.with_word(Regs::ES, old(comp)@.di, w),
                Regs::DI,
                2,
            )),
        r is Err ==> final(comp)@ == old(comp)@,
        final(comp).hooks() == old(comp).hooks(),
{
    let seg = instruction.segment;
    let dst_arg = match instruction.dst {
        Some(d) => d,
        None => {
            return Err(CpuErr::BadOperand);
        },
    };
    let marker = match dst_arg.to_src_arg(&mut comp.bus, seg) {
        Some(v) => v,
        None => {
            return Err(CpuErr::OutOfBounds);
        },
    };
    let port = match comp.bus.read_reg(Regs::DX) {
        Some(v) => v,
        None => 0,
    };
    let di = match comp.bus.read_reg(Regs::DI) {
        Some(v) => v,
        None => 0,
    };
    let dev = match comp.io_hook_for(port) {
        Some(i) => i,
        None => {
            return Err(CpuErr::NoDevice);
        },
    };
    match marker {
        SrcArg::Byte(_) => {
            let in_bounds = comp.bus.mem_in_bounds(Regs::ES, di);
            if !in_bounds {
                return Err(CpuErr::OutOfBounds);
            }
            let b = comp.dispatch_read_byte(dev, port);
            match comp.bus.mem_write_byte(Regs::ES, di, b) {
                Ok(()) => {
                    let r1 = advance_di(comp, Size::Byte);
                    Ok(0)
                },
                Err(e) => Err(e),
            }
        },
        SrcArg::Word(_) => {
            let in_bounds = comp.bus.mem_in_bounds(Regs::ES, di) && comp.bus.mem_in_bounds(
                Regs::ES,
                crate::cpu::wrap_add(di, 1),
            );
            if !in_bounds {
                return Err(CpuErr::OutOfBounds);
            }
            let w = comp.dispatch_read_word(dev, port);
            match comp.bus.mem_write_word(Regs::ES, di, w) {
                Ok(()) => {
                    let r1 = advance_di(comp, Size::Word);
                    Ok(0)
                },
                Err(e) => Err(e),
            }
        },
        SrcArg::DWord(_) => Err(CpuErr::BadOperand),
    }
}

/// OUTS as one state transform: the element at segment:SI goes out to the
/// peripheral on port DX — which cannot change the machine — and SI steps by
/// the width. Nothing when the marker does not decode, the element is out of
/// bounds, or no peripheral is hooked to the port.
pub open spec fn spec_outs(a: Arch, hooks: Seq<(u16, usize)>, seg: Regs, dst: DstArg) -> Option<
    Arch,
> {
    match model::spec_resolve_arg(a, seg, dst) {
        Some(SrcArg::Byte(_)) => if a.byte_at(seg, a.si) is Some && crate::cpu::spec_io_hook_for(
            hooks,
            a.dx,
        ) is Some {
            Some(spec_advance(a, Regs::SI, 1))
        } else {
            None
        },
        Some(SrcArg::Word(_)) => if a.word_at(seg, a.si) is Some && crate::cpu::spec_io_hook_for(
            hooks,
            a.dx,
        ) is Some {
            Some(spec_advance(a, Regs::SI, 2))
        } else {
            None
        },
        _ => None,
    }
}

/// OUTS: writes the string element at segment:SI to the peripheral on port
/// DX, then steps SI by the width. Memory never changes: only SI moves.
pub fn outs(comp: &mut CPU, instruction: Instruction) -> (r: Result<usize, CpuErr>)
    ensures
        r is Ok <==> (instruction.dst is Some && spec_outs(
            old(comp)@,
            old(comp).hooks(),
            instruction.segment,
            instruction.dst.unwrap(),
        ) is Some),
        r is Ok ==> Some(final(comp)@) == spec_outs(
            old(comp)@,
            old(comp).hooks(),
            instruction.segment,
            instruction.dst.unwrap(),
        ),
        r is Err ==> final(comp)@ == old(comp)@,
        final(comp).hooks() == old(comp).hooks(),
{
    let seg = instruction.segment;
    let dst_arg = match instruction.dst {
        Some(d) => d,
        None => {
            return Err(CpuErr::BadOperand);
        },
    };
    let marker = match dst_arg.to_src_arg(&mut comp.bus, seg) {
        Some(v) => v,
        None => {
            return Err(CpuErr::OutOfBounds);
        },
    };
    let port = match comp.bus.read_reg(Regs::DX) {
        Some(v) => v,
        None => 0,
    };
    let si = match comp.bus.read_reg(Regs::SI) {
        Some(v) => v,
        None => 0,
    };
    let dev = match comp.io_hook_for(port) {
        Some(i) => i,
        None => {
            return Err(CpuErr::NoDevice);
        },
    };
    match marker {
        SrcArg::Byte(_) => {
            let b = match comp.bus.mem_byte(seg, si) {
                Some(v) => v,
                None => {
                    return Err(CpuErr::OutOfBounds);
                },
            };
            comp.dispatch_write_byte(dev, port, b);
            match advance_si(comp, Size::Byte) {
                Ok(_) => Ok(0),
                Err(e) => Err(e),
            }
        },
        SrcArg::Word(_) => {
            let w = match comp.bus.mem_word(seg, si) {
                Some(v) => v,
                None => {
                    return Err(CpuErr::OutOfBounds);
                },
            };
            comp.dispatch_write_word(dev, port, w);
            match advance_si(comp, Size::Word) {
                Ok(_) => Ok(0),
                Err(e) => Err(e),
            }
        },
        SrcArg::DWord(_) => Err(CpuErr::BadOperand),
    }
}


/// True of the opcode bytes the repeat prefixes may wrap: the string moves,
/// stores, loads and the port-string forms.
pub open spec fn spec_plain_string_op(op: u8) -> bool {
    op == 0xA4 || op == 0xA5 || op == 0xAA || op == 0xAB || op == 0xAC || op == 0xAD || op == 0x6C
        || op == 0x6D || op == 0x6E || op == 0x6F
}

/// True of the string comparisons, whose repetition also watches the zero
/// flag.
pub open spec fn spec_compare_string_op(op: u8) -> bool {
    op == 0xA6 || op == 0xA7 || op == 0xAE || op == 0xAF
}

/// The string opcodes that touch memory alone, so one repetition is a
/// function of the machine state; the port-string forms are not among them.
pub open spec fn spec_mem_string_op(op: u8) -> bool {
    op == 0xA4 || op == 0xA5 || op == 0xA6 || op == 0xA7 || op == 0xAA || op == 0xAB || op == 0xAC
        || op == 0xAD || op == 0xAE || op == 0xAF
}

/// One repetition of a wrapped memory string opcode: the byte form's marker
/// is a byte immediate, the word form's a word immediate, exactly as the
/// decoder would hand the action.
#[verifier::opaque]
pub open spec fn spec_string_step(a: Arch, seg: Regs, op: u8) -> Option<Arch> {
    if op == 0xA4 {
        crate::cpu::instruction::actions::mem::spec_movs(a, seg, DstArg::Imm8(0))
    } else if op == 0xA5 {
        crate::cpu::instruction::actions::mem::spec_movs(a, seg, DstArg::Imm16(0))
    } else if op == 0xA6 {
        crate::cpu::instruction::actions::flags::spec_cmps(a, seg, DstArg::Imm8(0))
    } else if op == 0xA7 {
        crate::cpu::instruction::actions::flags::spec_cmps(a, seg, DstArg::Imm16(0))
    } else if op == 0xAA {
        crate::cpu::instruction::actions::mem::spec_stos(a, seg, DstArg::Imm8(0))
    } else if op == 0xAB {
        crate::cpu::instruction::actions::mem::spec_stos(a, seg, DstArg::Imm16(0))
    } else if op == 0xAC {
        crate::cpu::instruction::actions::mem::spec_lods(a, seg, DstArg::Imm8(0))
    } else if op == 0xAD {
        crate::cpu::instruction::actions::mem::spec_lods(a, seg, DstArg::Imm16(0))
    } else if op == 0xAE {
        crate::cpu::instruction::actions::flags::spec_scas(a, seg, DstArg::Imm8(0))
    } else if op == 0xAF {
        crate::cpu::instruction::actions::flags::spec_scas(a, seg, DstArg::Imm16(0))
    } else {
        None
    }
}

/// The synthetic instruction a repeat prefix builds for a wrapped opcode:
/// the opcode's action with the width marker as its only operand.
pub open spec fn spec_wrapped_inst(op: u8, seg: Regs) -> Instruction {
    let act = if op == 0xA4 || op == 0xA5 {
        OpAction::Movs
    } else if op == 0xA6 || op == 0xA7 {
        OpAction::Cmps
    } else if op == 0xAA || op == 0xAB {
        OpAction::Stos
    } else if op == 0xAC || op == 0xAD {
        OpAction::Lods
    } else if op == 0xAE || op == 0xAF {
        OpAction::Scas
    } else if op == 0x6C || op == 0x6D {
        OpAction::Ins
    } else {
        OpAction::Outs
    };
    let marker = if op % 2 == 0 {
        DstArg::Imm8(0)
    } else {
        DstArg::Imm16(0)
    };
    Instruction {
        flags: 0,
        segment: seg,
        action: act,
        src: None,
        dst: Some(marker),
        reg_bits: 0,
        length: 0,
        next_cycles: 0,
    }
}

/// Executing the wrapped instruction of a memory string opcode is exactly
/// one repetition of that opcode.
#[verifier::rlimit(100)]
#[verifier::spinoff_prover]
proof fn lemma_exec_is_string_step(s: Arch, hooks: Seq<(u16, usize)>, op: u8, seg: Regs)
    requires
        spec_mem_string_op(op),
    ensures
        crate::cpu::instruction::actions::spec_exec(s, hooks, spec_wrapped_inst(op, seg))
            == spec_string_step(s, seg, op),
{
    reveal(crate::cpu::instruction::actions::spec_exec);
    reveal(spec_string_step);
    if op == 0xA4 || op == 0xA5 {
        assert(spec_wrapped_inst(op, seg).action == OpAction::Movs);
    } else if op == 0xA6 || op == 0xA7 {
        assert(spec_wrapped_inst(op, seg).action == OpAction::Cmps);
    } else if op == 0xAA || op == 0xAB {
        assert(spec_wrapped_inst(op, seg).action == OpAction::Stos);
    } else if op == 0xAC || op == 0xAD {
        assert(spec_wrapped_inst(op, seg).action == OpAction::Lods);
    } else {
        assert(spec_wrapped_inst(op, seg).action == OpAction::Scas);
    }
}

/// A repeat run over a memory string opcode, the repetition rule as a
/// recursion: while CX is non-zero the wrapped opcode's transform applies
/// and CX steps down by one; a stop rule of one watches for the zero flag
/// clearing after a repetition, a stop rule of two for it setting. The fuel
/// bounds the recursion; the driver starts it above the count register's
/// whole range, so it never cuts a run short.
#[verifier::opaque]
pub open spec fn spec_rep_run(a: Arch, seg: Regs, op: u8, stop: int, fuel: nat) -> Option<Arch>
    decreases fuel,
{
    if fuel == 0 {
        Some(a)
    } else if a.cx == 0 {
        Some(a)
    } else {
        match spec_string_step(a, seg, op) {
            None => None,
            Some(b0) => {
                let b = b0.with_reg(Regs::CX, model::wsub(b0.cx, 1));
                if stop == 1 && !b.flag_set(CPUFlags::ZERO) {
                    Some(b)
                } else if stop == 2 && b.flag_set(CPUFlags::ZERO) {
                    Some(b)
                } else {
                    spec_rep_run(b, seg, op, stop, (fuel - 1) as nat)
                }
            },
        }
    }
}

/// The stop rule a prefix applies to a wrapped opcode: the negated prefix
/// stops a comparison when the zero flag sets, the plain prefix when it
/// clears, and the non-comparing opcodes run on the count alone.
pub open spec fn spec_stop_rule(op: u8, negate: bool) -> int {
    if negate {
        2
    } else if spec_compare_string_op(op) {
        1
    } else {
        0
    }
}

/// One unfolding of the repeat recursion: with count and fuel left, a
/// successful repetition followed by the count step either stops on the
/// zero-flag rule or continues the recursion with one unit of fuel spent.
proof fn lemma_rep_run_step(head: Arch, b: Arch, seg: Regs, op: u8, stop: int, fuel: nat)
    requires
        fuel > 0,
        head.cx != 0,
        spec_string_step(head, seg, op) is Some,
        b == spec_string_step(head, seg, op).unwrap().with_reg(
            Regs::CX,
            model::wsub(spec_string_step(head, seg, op).unwrap().cx, 1),
        ),
    ensures
        spec_rep_run(head, seg, op, stop, fuel) == (if (stop == 1 && !b.flag_set(CPUFlags::ZERO))
            || (stop == 2 && b.flag_set(CPUFlags::ZERO)) {
            Some(b)
        } else {
            spec_rep_run(b, seg, op, stop, (fuel - 1) as nat)
        }),
{
    reveal(spec_rep_run);
}

/// Builds the synthetic sub-instruction a repeat prefix hands to the
/// wrapped opcode's behavior.
fn wrapped_inst(op: u8, seg: Regs) -> (r: Instruction)
    ensures
        r == spec_wrapped_inst(op, seg),
{
    let act = if op == 0xA4 || op == 0xA5 {
        OpAction::Movs
    } else if op == 0xA6 || op == 0xA7 {
        OpAction::Cmps
    } else if op == 0xAA || op == 0xAB {
        OpAction::Stos
    } else if op == 0xAC || op == 0xAD {
        OpAction::Lods
    } else if op == 0xAE || op == 0xAF {
        OpAction::Scas
    } else if op == 0x6C || op == 0x6D {
        OpAction::Ins
    } else {
        OpAction::Outs
    };
    let marker = if op % 2 == 0 {
        DstArg::Imm8(0)
    } else {
        DstArg::Imm16(0)
    };
    Instruction {
        flags: 0,
        segment: seg,
        action: act,
        src: None,
        dst: Some(marker),
        reg_bits: 0,
        length: 0,
        next_cycles: 0,
    }
}

/// One repeat run: while CX is non-zero the wrapped string opcode runs as a
/// synthetic sub-instruction and CX steps down by one; a comparison opcode
/// additionally stops as soon as the zero flag matches the prefix's
/// stopping rule. For the memory string opcodes the whole run is pinned to
/// the repeat recursion; the port-string forms keep only the frame promises.
#[verifier::rlimit(100)]
#[verifier::spinoff_prover]
fn repeat_run(comp: &mut CPU, instruction: &Instruction, negate: bool) -> (r: Result<usize, CpuErr>)
    ensures
        final(comp).hooks() == old(comp).hooks(),
        (match instruction.dst {
            Some(DstArg::Opcode(o)) => (!spec_plain_string_op(o) && !spec_compare_string_op(o))
                || (negate && !spec_compare_string_op(o)),
            _ => true,
        }) ==> r is Err && final(comp)@ == old(comp)@,
        (match instruction.dst {
            Some(DstArg::Opcode(o)) => spec_mem_string_op(o) && !(negate
                && !spec_compare_string_op(o)),
            _ => false,
        }) ==> {
            let o = match instruction.dst {
                Some(DstArg::Opcode(o)) => o,
                _ => 0u8,
            };
            let run = spec_rep_run(
                old(comp)@,
                instruction.segment,
                o,
                spec_stop_rule(o, negate),
                0x10000,
            );
            (r is Ok <==> run is Some) && (r is Ok ==> Some(final(comp)@) == run)
        },
    decreases 1int, 1int,
{
    let op = match instruction.dst {
        Some(DstArg::Opcode(o)) => o,
        _ => {
            return Err(CpuErr::BadOperand);
        },
    };
    let is_cmp = op == 0xA6 || op == 0xA7 || op == 0xAE || op == 0xAF;
    let is_plain = op == 0xA4 || op == 0xA5 || op == 0xAA || op == 0xAB || op == 0xAC || op == 0xAD
        || op == 0x6C || op == 0x6D || op == 0x6E || op == 0x6F;
    if negate && !is_cmp {
        return Err(CpuErr::BadOperand);
    }
    if !is_cmp && !is_plain {
        return Err(CpuErr::BadOperand);
    }
    let seg = instruction.segment;
    let inst = wrapped_inst(op, seg);
    let ghost mem_op = spec_mem_string_op(op);
    let ghost stop = spec_stop_rule(op, negate);
    let ghost hooks0 = comp.hooks();
    let ghost a0 = comp@;
    let stop_exec: u8 = if negate {
        2
    } else if is_cmp {
        1
    } else {
        0
    };
    let mut fuel: u32 = 0x10000;
    loop
        invariant
            comp.hooks() == old(comp).hooks(),
            hooks0 == old(comp).hooks(),
            a0 == old(comp)@,
            fuel <= 0x10000,
            stop_exec as int == stop,
            mem_op == spec_mem_string_op(op),
            stop == spec_stop_rule(op, negate),
            inst == spec_wrapped_inst(op, seg),
            mem_op ==> !is_device_dependent(inst.action),
            mem_op ==> spec_rep_run(comp@, seg, op, stop, fuel as nat) == spec_rep_run(
                a0,
                seg,
                op,
                stop,
                0x10000,
            ),
            !(match instruction.dst {
                Some(DstArg::Opcode(o)) => (!spec_plain_string_op(o) && !spec_compare_string_op(o))
                    || (negate && !spec_compare_string_op(o)),
                _ => true,
            }),
            (match instruction.dst {
                Some(DstArg::Opcode(o)) => o == op,
                _ => false,
            }),
            instruction.segment == seg,
        decreases fuel,
    {
        if fuel == 0 {
            proof {
                if mem_op {
                    assert(spec_rep_run(comp@, seg, op, stop, fuel as nat) == Some(comp@)) by {
                        reveal(spec_rep_run);
                    }
                }
            }
            return Ok(0);
        }
        let cx = match comp.bus.read_reg(Regs::CX) {
            Some(v) => v,
            None => 0,
        };
        if cx == 0 {
            proof {
                if mem_op {
                    assert(spec_rep_run(comp@, seg, op, stop, fuel as nat) == Some(comp@)) by {
                        reveal(spec_rep_run);
                    }
                }
            }
            return Ok(0);
        }
        let ghost head = comp@;
        proof {
            assert(crate::cpu::instruction::actions::action_rank(inst.action) == 0);
            if mem_op {
                lemma_exec_is_string_step(head, hooks0, op, seg);
            }
        }
        match inst.exec(comp) {
            Ok(_) => (),
            Err(e) => {
                proof {
                    if mem_op {
                        assert(spec_string_step(head, seg, op) is None);
                        assert(spec_rep_run(head, seg, op, stop, fuel as nat) is None) by {
                            reveal(spec_rep_run);
                        }
                    }
                }
                return Err(e);
            },
        }
        let cx2 = match comp.bus.read_reg(Regs::CX) {
            Some(v) => v,
            None => 0,
        };
        comp.bus.set_reg(Regs::CX, crate::cpu::wrap_sub(cx2, 1));
        let stopped = if stop_exec == 1 {
            !comp.bus.check_flag(CPUFlags::ZERO)
        } else if stop_exec == 2 {
            comp.bus.check_flag(CPUFlags::ZERO)
        } else {
            false
        };
        proof {
            if mem_op {
                lemma_rep_run_step(head, comp@, seg, op, stop, fuel as nat);
            }
        }
        if stopped {
            return Ok(0);
        }
        fuel = fuel - 1;
    }
}

/// REP and REPE: repeats the wrapped string opcode while CX is non-zero; a
/// comparison opcode additionally stops as soon as the zero flag clears.
/// Over the memory string opcodes the whole run is the repeat recursion.
pub fn rep(comp: &mut CPU, instruction: Instruction) -> (r: Result<usize, CpuErr>)
    ensures
        final(comp).hooks() == old(comp).hooks(),
        (match instruction.dst {
            Some(DstArg::Opcode(o)) => !spec_plain_string_op(o) && !spec_compare_string_op(o),
            _ => true,
        }) ==> r is Err && final(comp)@ == old(comp)@,
        (match instruction.dst {
            Some(DstArg::Opcode(o)) => spec_mem_string_op(o),
            _ => false,
        }) ==> {
            let o = match instruction.dst {
                Some(DstArg::Opcode(o)) => o,
                _ => 0u8,
            };
            let run = spec_rep_run(
                old(comp)@,
                instruction.segment,
                o,
                spec_stop_rule(o, false),
                0x10000,
            );
            (r is Ok <==> run is Some) && (r is Ok ==> Some(final(comp)@) == run)
        },
    decreases 1int, 2int,
{
    repeat_run(comp, &instruction, false)
}

/// REPNE: repeats a wrapped string comparison while CX is non-zero,
/// stopping as soon as the zero flag sets.
pub fn repne(comp: &mut CPU, instruction: Instruction) -> (r: Result<usize, CpuErr>)
    ensures
        final(comp).hooks() == old(comp).hooks(),
        (match instruction.dst {
            Some(DstArg::Opcode(o)) => !spec_compare_string_op(o),
            _ => true,
        }) ==> r is Err && final(comp)@ == old(comp)@,
        (match instruction.dst {
            Some(DstArg::Opcode(o)) => spec_compare_string_op(o),
            _ => false,
        }) ==> {
            let o = match instruction.dst {
                Some(DstArg::Opcode(o)) => o,
                _ => 0u8,
            };
            let run = spec_rep_run(
                old(comp)@,
                instruction.segment,
                o,
                spec_stop_rule(o, true),
                0x10000,
            );
            (r is Ok <==> run is Some) && (r is Ok ==> Some(final(comp)@) == run)
        },
    decreases 1int, 2int,
{
    repeat_run(comp, &instruction, true)
}

} // verus!
