use vstd::prelude::*;
use vstd::string::StringExecFns;
use crate::cpu::{exceptions, CPU, CPUFlags, CpuErr, Regs};
use crate::cpu::alu::{
    add_with_carry_8_bit, add_with_carry_16_bit, sub_with_carry_8_bit, sub_with_carry_16_bit,
};
use crate::cpu::model::{self, Arch};
use crate::cpu::reg::{high_byte, low_byte};
use crate::cpu::instruction::Instruction;
use crate::cpu::instruction::args::{DstArg, SrcArg};
use crate::cpu::instruction::opcode::OpAction;

verus! {

/// The operations whose carry and auxiliary-carry flags follow the
/// arithmetic rules.
pub open spec fn is_arith(op: OpAction) -> bool {
    op == OpAction::Add || op == OpAction::Adc || op == OpAction::Sub || op == OpAction::Sbb || op
        == OpAction::Cmp
}

/// The operations that always clear carry and overflow.
pub open spec fn is_logic(op: OpAction) -> bool {
    op == OpAction::And || op == OpAction::Or || op == OpAction::Xor || op == OpAction::Test
}

/// The operations that update flags only, writing no result back.
pub open spec fn is_flags_only(op: OpAction) -> bool {
    op == OpAction::Cmp || op == OpAction::Test
}

/// The byte result of a two-operand operation: modular sums and differences,
/// or the plain bitwise combination.
pub open spec fn alu_val8(op: OpAction, x: u8, y: u8, cf: bool) -> u8 {
    let c: int = if cf {
        1
    } else {
        0
    };
    if op == OpAction::Add {
        ((y + x) % 0x100) as u8
    } else if op == OpAction::Adc {
        ((y + x + c) % 0x100) as u8
    } else if op == OpAction::Sub || op == OpAction::Cmp {
        ((y - x) % 0x100) as u8
    } else if op == OpAction::Sbb {
        ((y - x - c) % 0x100) as u8
    } else if op == OpAction::And || op == OpAction::Test {
        y & x
    } else if op == OpAction::Or {
        y | x
    } else if op == OpAction::Xor {
        y ^ x
    } else {
        0
    }
}

/// The word result of a two-operand operation.
pub open spec fn alu_val16(op: OpAction, x: u16, y: u16, cf: bool) -> u16 {
    let c: int = if cf {
        1
    } else {
        0
    };
    if op == OpAction::Add {
        ((y + x) % 0x10000) as u16
    } else if op == OpAction::Adc {
        ((y + x + c) % 0x10000) as u16
    } else if op == OpAction::Sub || op == OpAction::Cmp {
        ((y - x) % 0x10000) as u16
    } else if op == OpAction::Sbb {
        ((y - x - c) % 0x10000) as u16
    } else if op == OpAction::And || op == OpAction::Test {
        y & x
    } else if op == OpAction::Or {
        y | x
    } else if op == OpAction::Xor {
        y ^ x
    } else {
        0
    }
}

/// The carry out of a byte-wide operation: for sums, the unwrapped total
/// exceeds the byte maximum; for differences, the subtrahend is non-zero and
/// no borrow is needed, mirroring the sum with the two's complement.
pub open spec fn alu_carry8(op: OpAction, x: u8, y: u8, cf: bool) -> bool {
    let c: int = if cf {
        1
    } else {
        0
    };
    if op == OpAction::Add {
        y + x > 0xFF
    } else if op == OpAction::Adc {
        y + x + c > 0xFF
    } else if op == OpAction::Sub || op == OpAction::Cmp {
        x != 0 && y >= x
    } else if op == OpAction::Sbb {
        let xp = ((x + c) % 0x100) as u8;
        xp != 0 && y >= xp
    } else {
        false
    }
}

pub open spec fn alu_carry16(op: OpAction, x: u16, y: u16, cf: bool) -> bool {
    let c: int = if cf {
        1
    } else {
        0
    };
    if op == OpAction::Add {
        y + x > 0xFFFF
    } else if op == OpAction::Adc {
        y + x + c > 0xFFFF
    } else if op == OpAction::Sub || op == OpAction::Cmp {
        x != 0 && y >= x
    } else if op == OpAction::Sbb {
        let xp = ((x + c) % 0x10000) as u16;
        xp != 0 && y >= xp
    } else {
        false
    }
}

/// The auxiliary carry: a carry out of, or borrow into, the low nibble.
pub open spec fn alu_aux8(op: OpAction, x: u8, y: u8, cf: bool) -> bool {
    let c: int = if cf {
        1
    } else {
        0
    };
    if op == OpAction::Add {
        (y % 16) + (x % 16) > 15
    } else if op == OpAction::Adc {
        (y % 16) + (x % 16) + c > 15
    } else if op == OpAction::Sub || op == OpAction::Cmp {
        (y % 16) < (x % 16)
    } else if op == OpAction::Sbb {
        (y % 16) < (x % 16) + c
    } else {
        false
    }
}

pub open spec fn alu_aux16(op: OpAction, x: u16, y: u16, cf: bool) -> bool {
    let c: int = if cf {
        1
    } else {
        0
    };
    if op == OpAction::Add {
        (y % 16) + (x % 16) > 15
    } else if op == OpAction::Adc {
        (y % 16) + (x % 16) + c > 15
    } else if op == OpAction::Sub || op == OpAction::Cmp {
        (y % 16) < (x % 16)
    } else if op == OpAction::Sbb {
        (y % 16) < (x % 16) + c
    } else {
        false
    }
}

/// The flag bits a byte-wide two-operand operation leaves behind, applied to
/// a machine that already holds the result.
pub open spec fn alu_flags8(b: Arch, op: OpAction, x: u8, y: u8, cf: bool, res: u8) -> Arch {
    let b1 = if is_arith(op) {
        b.with_flag(CPUFlags::CARRY, alu_carry8(op, x, y, cf)).with_flag(
            CPUFlags::AUX_CARRY,
            alu_aux8(op, x, y, cf),
        )
    } else {
        b
    };
    let b2 = b1.with_result_flags(
        SrcArg::Byte(res),
        CPUFlags::ZERO | CPUFlags::SIGN | CPUFlags::PARITY,
    );
    if is_logic(op) {
        b2.with_flag(CPUFlags::CARRY | CPUFlags::OVERFLOW, false)
    } else {
        b2
    }
}

/// The flag bits a word-wide operation leaves behind; the carry check also
/// drives overflow, as the word-width carry test couples the two.
pub open spec fn alu_flags16(b: Arch, op: OpAction, x: u16, y: u16, cf: bool, res: u16) -> Arch {
    let b1 = if is_arith(op) {
        b.with_flag(CPUFlags::CARRY | CPUFlags::OVERFLOW, alu_carry16(op, x, y, cf)).with_flag(
            CPUFlags::AUX_CARRY,
            alu_aux16(op, x, y, cf),
        )
    } else {
        b
    };
    let b2 = b1.with_result_flags(
        SrcArg::Word(res),
        CPUFlags::ZERO | CPUFlags::SIGN | CPUFlags::PARITY,
    );
    if is_logic(op) {
        b2.with_flag(CPUFlags::CARRY | CPUFlags::OVERFLOW, false)
    } else {
        b2
    }
}

/// A two-operand ALU operation as one state transform: resolve both
/// operands (a byte source against a word destination is sign-extended
/// first), write the result back unless the operation is flags-only, then
/// recompute the flags the operation defines from the operand values.
/// Nothing when an operand cannot be resolved, the widths cannot combine, or
/// the destination cannot take the result.
pub open spec fn spec_alu_two(
    a: Arch,
    seg: Regs,
    src_arg: DstArg,
    dst_arg: DstArg,
    op: OpAction,
) -> Option<Arch> {
    match (model::spec_resolve_arg(a, seg, src_arg), model::spec_resolve_arg(a, seg, dst_arg)) {
        (Some(SrcArg::Byte(x)), Some(SrcArg::Byte(y))) => {
            let cf = a.flag_set(CPUFlags::CARRY);
            let res = alu_val8(op, x, y, cf);
            let wrote = if is_flags_only(op) {
                Some(a)
            } else {
                model::spec_write_arg(a, seg, dst_arg, SrcArg::Byte(res))
            };
            match wrote {
                Some(b) => Some(alu_flags8(b, op, x, y, cf, res)),
                None => None,
            }
        },
        (Some(SrcArg::Byte(x0)), Some(SrcArg::Word(y))) => {
            let x = model::spec_sign_extend(x0);
            let cf = a.flag_set(CPUFlags::CARRY);
            let res = alu_val16(op, x, y, cf);
            let wrote = if is_flags_only(op) {
                Some(a)
            } else {
                model::spec_write_arg(a, seg, dst_arg, SrcArg::Word(res))
            };
            match wrote {
                Some(b) => Some(alu_flags16(b, op, x, y, cf, res)),
                None => None,
            }
        },
        (Some(SrcArg::Word(x)), Some(SrcArg::Word(y))) => {
            let cf = a.flag_set(CPUFlags::CARRY);
            let res = alu_val16(op, x, y, cf);
            let wrote = if is_flags_only(op) {
                Some(a)
            } else {
                model::spec_write_arg(a, seg, dst_arg, SrcArg::Word(res))
            };
            match wrote {
                Some(b) => Some(alu_flags16(b, op, x, y, cf, res)),
                None => None,
            }
        },
        _ => None,
    }
}

/// Whether a two-operand ALU instruction has both operands and the transform
/// goes through.
pub open spec fn alu_two_ok(a: Arch, i: Instruction, op: OpAction) -> bool {
    &&& i.src is Some
    &&& i.dst is Some
    &&& spec_alu_two(a, i.segment, i.src.unwrap(), i.dst.unwrap(), op) is Some
}

/// Runs one two-operand ALU operation against the machine.
pub fn alu_two(comp: &mut CPU, instruction: &Instruction, op: OpAction) -> (r: Result<
    usize,
    CpuErr,
>)
    ensures
        r is Ok <==> alu_two_ok(old(comp)@, *instruction, op),
        r is Ok ==> Some(final(comp)@) == spec_alu_two(
            old(comp)@,
            instruction.segment,
            instruction.src.unwrap(),
            instruction.dst.unwrap(),
            op,
        ),
        r is Err ==> final(comp)@ == old(comp)@,
        final(comp).hooks() == old(comp).hooks(),
{
    let seg = instruction.segment;
    let (src_arg, dst_arg) = match (instruction.src, instruction.dst) {
        (Some(s), Some(d)) => (s, d),
        _ => {
            return Err(CpuErr::BadOperand);
        },
    };
    let sv = match src_arg.to_src_arg(&mut comp.bus, seg) {
        Some(v) => v,
        None => {
            return Err(CpuErr::OutOfBounds);
        },
    };
    let dv = match dst_arg.to_src_arg(&mut comp.bus, seg) {
        Some(v) => v,
        None => {
            return Err(CpuErr::OutOfBounds);
        },
    };
    let cf = comp.bus.check_flag(CPUFlags::CARRY);
    match (sv, dv) {
        (SrcArg::Byte(x), SrcArg::Byte(y)) => {
            let res = alu_val8_exec(op, x, y, cf);
            if !is_flags_only_exec(op) {
                match comp.bus.write_to_arg(dst_arg, seg, SrcArg::Byte(res)) {
                    Ok(()) => (),
                    Err(e) => {
                        return Err(e);
                    },
                }
            }
            apply_flags8(comp, op, x, y, cf, res);
            Ok(0)
        },
        (SrcArg::Byte(x0), SrcArg::Word(y)) => {
            let x = CPU::sign_extend(x0);
            let res = alu_val16_exec(op, x, y, cf);
            if !is_flags_only_exec(op) {
                match comp.bus.write_to_arg(dst_arg, seg, SrcArg::Word(res)) {
                    Ok(()) => (),
                    Err(e) => {
                        return Err(e);
                    },
                }
            }
            apply_flags16(comp, op, x, y, cf, res);
            Ok(0)
        },
        (SrcArg::Word(x), SrcArg::Word(y)) => {
            let res = alu_val16_exec(op, x, y, cf);
            if !is_flags_only_exec(op) {
                match comp.bus.write_to_arg(dst_arg, seg, SrcArg::Word(res)) {
                    Ok(()) => (),
                    Err(e) => {
                        return Err(e);
                    },
                }
            }
            apply_flags16(comp, op, x, y, cf, res);
            Ok(0)
        },
        _ => Err(CpuErr::BadOperand),
    }
}

fn is_flags_only_exec(op: OpAction) -> (r: bool)
    ensures
        r == is_flags_only(op),
{
    match op {
        OpAction::Cmp => true,
        OpAction::Test => true,
        _ => false,
    }
}

fn alu_val8_exec(op: OpAction, x: u8, y: u8, cf: bool) -> (r: u8)
    ensures
        r == alu_val8(op, x, y, cf),
{
    let c: u8 = if cf {
        1
    } else {
        0
    };
    match op {
        OpAction::Add => add_with_carry_8_bit(y, x),
        OpAction::Adc => ((((y as u16) + (x as u16) + (c as u16)) % 0x100) as u8),
        OpAction::Sub => sub_with_carry_8_bit(y, x),
        OpAction::Cmp => sub_with_carry_8_bit(y, x),
        OpAction::Sbb => {
            let total: u16 = (x as u16) + (c as u16);
            if (y as u16) >= total {
                ((y as u16) - total) as u8
            } else {
                (0x100 + (y as u16) - total) as u8
            }
        },
        OpAction::And => y & x,
        OpAction::Test => y & x,
        OpAction::Or => y | x,
        OpAction::Xor => y ^ x,
        _ => 0,
    }
}

fn alu_val16_exec(op: OpAction, x: u16, y: u16, cf: bool) -> (r: u16)
    ensures
        r == alu_val16(op, x, y, cf),
{
    let c: u16 = if cf {
        1
    } else {
        0
    };
    match op {
        OpAction::Add => add_with_carry_16_bit(y, x),
        OpAction::Adc => ((((y as u32) + (x as u32) + (c as u32)) % 0x10000) as u16),
        OpAction::Sub => sub_with_carry_16_bit(y, x),
        OpAction::Cmp => sub_with_carry_16_bit(y, x),
        OpAction::Sbb => {
            let total: u32 = (x as u32) + (c as u32);
            if (y as u32) >= total {
                ((y as u32) - total) as u16
            } else {
                (0x10000 + (y as u32) - total) as u16
            }
        },
        OpAction::And => y & x,
        OpAction::Test => y & x,
        OpAction::Or => y | x,
        OpAction::Xor => y ^ x,
        _ => 0,
    }
}

fn apply_flags8(comp: &mut CPU, op: OpAction, x: u8, y: u8, cf: bool, res: u8)
    ensures
        final(comp)@ == alu_flags8(old(comp)@, op, x, y, cf, res),
        final(comp).hooks() == old(comp).hooks(),
{
    let c: u16 = if cf {
        1
    } else {
        0
    };
    let arith = match op {
        OpAction::Add | OpAction::Adc | OpAction::Sub | OpAction::Sbb | OpAction::Cmp => true,
        _ => false,
    };
    if arith {
        let carry = match op {
            OpAction::Add => (y as u16) + (x as u16) > 0xFF,
            OpAction::Adc => (y as u16) + (x as u16) + c > 0xFF,
            OpAction::Sub | OpAction::Cmp => x != 0 && y >= x,
            _ => {
                let xp: u8 = (((x as u16) + c) % 0x100) as u8;
                xp != 0 && y >= xp
            },
        };
        let aux = match op {
            OpAction::Add => (y % 16) + (x % 16) > 15,
            OpAction::Adc => (y as u16) % 16 + (x as u16) % 16 + c > 15,
            OpAction::Sub | OpAction::Cmp => (y % 16) < (x % 16),
            _ => ((y as u16) % 16) < ((x as u16) % 16) + c,
        };
        comp.bus.set_flag_if(CPUFlags::CARRY, carry);
        comp.bus.set_flag_if(CPUFlags::AUX_CARRY, aux);
    }
    comp.bus.check_flags_in_result(
        &SrcArg::Byte(res),
        CPUFlags::ZERO | CPUFlags::SIGN | CPUFlags::PARITY,
    );
    let logic = match op {
        OpAction::And | OpAction::Or | OpAction::Xor | OpAction::Test => true,
        _ => false,
    };
    if logic {
        comp.bus.clear_flag(CPUFlags::CARRY | CPUFlags::OVERFLOW);
    }
}

fn apply_flags16(comp: &mut CPU, op: OpAction, x: u16, y: u16, cf: bool, res: u16)
    ensures
        final(comp)@ == alu_flags16(old(comp)@, op, x, y, cf, res),
        final(comp).hooks() == old(comp).hooks(),
{
    let c: u32 = if cf {
        1
    } else {
        0
    };
    let arith = match op {
        OpAction::Add | OpAction::Adc | OpAction::Sub | OpAction::Sbb | OpAction::Cmp => true,
        _ => false,
    };
    if arith {
        let carry = match op {
            OpAction::Add => (y as u32) + (x as u32) > 0xFFFF,
            OpAction::Adc => (y as u32) + (x as u32) + c > 0xFFFF,
            OpAction::Sub | OpAction::Cmp => x != 0 && y >= x,
            _ => {
                let xp: u16 = (((x as u32) + c) % 0x10000) as u16;
                xp != 0 && y >= xp
            },
        };
        let aux = match op {
            OpAction::Add => (y % 16) + (x % 16) > 15,
            OpAction::Adc => (y as u32) % 16 + (x as u32) % 16 + c > 15,
            OpAction::Sub | OpAction::Cmp => (y % 16) < (x % 16),
            _ => ((y as u32) % 16) < ((x as u32) % 16) + c,
        };
        comp.bus.set_flag_if(CPUFlags::CARRY | CPUFlags::OVERFLOW, carry);
        comp.bus.set_flag_if(CPUFlags::AUX_CARRY, aux);
    }
    comp.bus.check_flags_in_result(
        &SrcArg::Word(res),
        CPUFlags::ZERO | CPUFlags::SIGN | CPUFlags::PARITY,
    );
    let logic = match op {
        OpAction::And | OpAction::Or | OpAction::Xor | OpAction::Test => true,
        _ => false,
    };
    if logic {
        comp.bus.clear_flag(CPUFlags::CARRY | CPUFlags::OVERFLOW);
    }
}

/// ADD: the destination takes the modular sum; carry is set exactly when
/// the unwrapped sum exceeds the operand width's maximum.
pub fn add(comp: &mut CPU, instruction: Instruction) -> (r: Result<usize, CpuErr>)
    ensures
        r is Ok <==> alu_two_ok(old(comp)@, instruction, OpAction::Add),
        r is Ok ==> Some(final(comp)@) == spec_alu_two(
            old(comp)@,
            instruction.segment,
            instruction.src.unwrap(),
            instruction.dst.unwrap(),
            OpAction::Add,
        ),
        r is Err ==> final(comp)@ == old(comp)@,
        final(comp).hooks() == old(comp).hooks(),
{
    alu_two(comp, &instruction, OpAction::Add)
}

/// ADC: addition that also takes the incoming carry flag.
pub fn adc(comp: &mut CPU, instruction: Instruction) -> (r: Result<usize, CpuErr>)
    ensures
        r is Ok <==> alu_two_ok(old(comp)@, instruction, OpAction::Adc),
        r is Ok ==> Some(final(comp)@) == spec_alu_two(
            old(comp)@,
            instruction.segment,
            instruction.src.unwrap(),
            instruction.dst.unwrap(),
            OpAction::Adc,
        ),
        r is Err ==> final(comp)@ == old(comp)@,
        final(comp).hooks() == old(comp).hooks(),
{
    alu_two(comp, &instruction, OpAction::Adc)
}

/// SUB: the destination takes the modular difference.
pub fn sub(comp: &mut CPU, instruction: Instruction) -> (r: Result<usize, CpuErr>)
    ensures
        r is Ok <==> alu_two_ok(old(comp)@, instruction, OpAction::Sub),
        r is Ok ==> Some(final(comp)@) == spec_alu_two(
            old(comp)@,
            instruction.segment,
            instruction.src.unwrap(),
            instruction.dst.unwrap(),
            OpAction::Sub,
        ),
        r is Err ==> final(comp)@ == old(comp)@,
        final(comp).hooks() == old(comp).hooks(),
{
    alu_two(comp, &instruction, OpAction::Sub)
}

/// SBB: subtraction that also takes the incoming carry flag as a borrow.
pub fn sbb(comp: &mut CPU, instruction: Instruction) -> (r: Result<usize, CpuErr>)
    ensures
        r is Ok <==> alu_two_ok(old(comp)@, instruction, OpAction::Sbb),
        r is Ok ==> Some(final(comp)@) == spec_alu_two(
            old(comp)@,
            instruction.segment,
            instruction.src.unwrap(),
            instruction.dst.unwrap(),
            OpAction::Sbb,
        ),
        r is Err ==> final(comp)@ == old(comp)@,
        final(comp).hooks() == old(comp).hooks(),
{
    alu_two(comp, &instruction, OpAction::Sbb)
}

/// AND: bitwise conjunction; carry and overflow are always cleared.
pub fn and(comp: &mut CPU, instruction: Instruction) -> (r: Result<usize, CpuErr>)
    ensures
        r is Ok <==> alu_two_ok(old(comp)@, instruction, OpAction::And),
        r is Ok ==> Some(final(comp)@) == spec_alu_two(
            old(comp)@,
            instruction.segment,
            instruction.src.unwrap(),
            instruction.dst.unwrap(),
            OpAction::And,
        ),
        r is Err ==> final(comp)@ == old(comp)@,
        final(comp).hooks() == old(comp).hooks(),
{
    alu_two(comp, &instruction, OpAction::And)
}

/// OR: bitwise disjunction; carry and overflow are always cleared.
pub fn or(comp: &mut CPU, instruction: Instruction) -> (r: Result<usize, CpuErr>)
    ensures
        r is Ok <==> alu_two_ok(old(comp)@, instruction, OpAction::Or),
        r is Ok ==> Some(final(comp)@) == spec_alu_two(
            old(comp)@,
            instruction.segment,
            instruction.src.unwrap(),
            instruction.dst.unwrap(),
            OpAction::Or,
        ),
        r is Err ==> final(comp)@ == old(comp)@,
        final(comp).hooks() == old(comp).hooks(),
{
    alu_two(comp, &instruction, OpAction::Or)
}

/// XOR: bitwise difference; carry and overflow are always cleared.
pub fn xor(comp: &mut CPU, instruction: Instruction) -> (r: Result<usize, CpuErr>)
    ensures
        r is Ok <==> alu_two_ok(old(comp)@, instruction, OpAction::Xor),
        r is Ok ==> Some(final(comp)@) == spec_alu_two(
            old(comp)@,
            instruction.segment,
            instruction.src.unwrap(),
            instruction.dst.unwrap(),
            OpAction::Xor,
        ),
        r is Err ==> final(comp)@ == old(comp)@,
        final(comp).hooks() == old(comp).hooks(),
{
    alu_two(comp, &instruction, OpAction::Xor)
}

/// INC and DEC as one transform: the destination moves by one modularly;
/// overflow reports the unsigned boundary crossing, the auxiliary carry the
/// low-nibble one; the carry flag is left alone.
pub open spec fn spec_inc_dec(a: Arch, seg: Regs, dst_arg: DstArg, inc: bool) -> Option<Arch> {
    match model::spec_resolve_arg(a, seg, dst_arg) {
        Some(SrcArg::Byte(y)) => {
            let res = if inc {
                ((y + 1) % 0x100) as u8
            } else {
                ((y - 1) % 0x100) as u8
            };
            let of = if inc {
                y == 0xFF
            } else {
                y == 0
            };
            let af = if inc {
                (y % 16) + 1 > 15
            } else {
                (y % 16) < 1
            };
            match model::spec_write_arg(a, seg, dst_arg, SrcArg::Byte(res)) {
                Some(b) => Some(
                    b.with_flag(CPUFlags::OVERFLOW, of).with_flag(
                        CPUFlags::AUX_CARRY,
                        af,
                    ).with_result_flags(
                        SrcArg::Byte(res),
                        CPUFlags::ZERO | CPUFlags::SIGN | CPUFlags::PARITY,
                    ),
                ),
                None => None,
            }
        },
        Some(SrcArg::Word(y)) => {
            let res = if inc {
                ((y + 1) % 0x10000) as u16
            } else {
                ((y - 1) % 0x10000) as u16
            };
            let of = if inc {
                y == 0xFFFF
            } else {
                y == 0
            };
            let af = if inc {
                (y % 16) + 1 > 15
            } else {
                (y % 16) < 1
            };
            match model::spec_write_arg(a, seg, dst_arg, SrcArg::Word(res)) {
                Some(b) => Some(
                    b.with_flag(CPUFlags::OVERFLOW, of).with_flag(
                        CPUFlags::AUX_CARRY,
                        af,
                    ).with_result_flags(
                        SrcArg::Word(res),
                        CPUFlags::ZERO | CPUFlags::SIGN | CPUFlags::PARITY,
                    ),
                ),
                None => None,
            }
        },
        _ => None,
    }
}

fn inc_dec(comp: &mut CPU, instruction: &Instruction, is_inc: bool) -> (r: Result<usize, CpuErr>)
    ensures
        r is Ok <==> instruction.dst is Some && spec_inc_dec(
            old(comp)@,
            instruction.segment,
            instruction.dst.unwrap(),
            is_inc,
        ) is Some,
        r is Ok ==> Some(final(comp)@) == spec_inc_dec(
            old(comp)@,
            instruction.segment,
            instruction.dst.unwrap(),
            is_inc,
        ),
        r is Err ==> final(comp)@ == old(comp)@,
        final(comp).hooks() == old(comp).hooks(),
{
    let seg = instruction.segment;
    let dst_arg = match instruction.dst {
        Some(d) => d,
        None => {
            return Err(CpuErr::BadOperand);
        },
    };
    let dv = match dst_arg.to_src_arg(&mut comp.bus, seg) {
        Some(v) => v,
        None => {
            return Err(CpuErr::OutOfBounds);
        },
    };
    match dv {
        SrcArg::Byte(y) => {
            let res: u8 = if is_inc {
                add_with_carry_8_bit(y, 1)
            } else {
                sub_with_carry_8_bit(y, 1)
            };
            let of = if is_inc {
                y == 0xFF
            } else {
                y == 0
            };
            let af = if is_inc {
                (y % 16) + 1 > 15
            } else {
                (y % 16) < 1
            };
            match comp.bus.write_to_arg(dst_arg, seg, SrcArg::Byte(res)) {
                Ok(()) => (),
                Err(e) => {
                    return Err(e);
                },
            }
            comp.bus.set_flag_if(CPUFlags::OVERFLOW, of);
            comp.bus.set_flag_if(CPUFlags::AUX_CARRY, af);
            comp.bus.check_flags_in_result(
                &SrcArg::Byte(res),
                CPUFlags::ZERO | CPUFlags::SIGN | CPUFlags::PARITY,
            );
            Ok(0)
        },
        SrcArg::Word(y) => {
            let res: u16 = if is_inc {
                add_with_carry_16_bit(y, 1)
            } else {
                sub_with_carry_16_bit(y, 1)
            };
            let of = if is_inc {
                y == 0xFFFF
            } else {
                y == 0
            };
            let af = if is_inc {
                (y % 16) + 1 > 15
            } else {
                (y % 16) < 1
            };
            match comp.bus.write_to_arg(dst_arg, seg, SrcArg::Word(res)) {
                Ok(()) => (),
                Err(e) => {
                    return Err(e);
                },
            }
            comp.bus.set_flag_if(CPUFlags::OVERFLOW, of);
            comp.bus.set_flag_if(CPUFlags::AUX_CARRY, af);
            comp.bus.check_flags_in_result(
                &SrcArg::Word(res),
                CPUFlags::ZERO | CPUFlags::SIGN | CPUFlags::PARITY,
            );
            Ok(0)
        },
        SrcArg::DWord(_) => Err(CpuErr::BadOperand),
    }
}

/// INC: adds one to the destination without touching the carry flag;
/// overflow reports the wrap past the width's maximum.
pub fn inc(comp: &mut CPU, instruction: Instruction) -> (r: Result<usize, CpuErr>)
    ensures
        r is Ok <==> instruction.dst is Some && spec_inc_dec(
            old(comp)@,
            instruction.segment,
            instruction.dst.unwrap(),
            true,
        ) is Some,
        r is Ok ==> Some(final(comp)@) == spec_inc_dec(
            old(comp)@,
            instruction.segment,
            instruction.dst.unwrap(),
            true,
        ),
        r is Err ==> final(comp)@ == old(comp)@,
        final(comp).hooks() == old(comp).hooks(),
{
    inc_dec(comp, &instruction, true)
}

/// DEC: subtracts one from the destination without touching the carry flag.
pub fn dec(comp: &mut CPU, instruction: Instruction) -> (r: Result<usize, CpuErr>)
    ensures
        r is Ok <==> instruction.dst is Some && spec_inc_dec(
            old(comp)@,
            instruction.segment,
            instruction.dst.unwrap(),
            false,
        ) is Some,
        r is Ok ==> Some(final(comp)@) == spec_inc_dec(
            old(comp)@,
            instruction.segment,
            instruction.dst.unwrap(),
            false,
        ),
        r is Err ==> final(comp)@ == old(comp)@,
        final(comp).hooks() == old(comp).hooks(),
{
    inc_dec(comp, &instruction, false)
}

/// NOT: the destination takes its bitwise complement; no flags change.
pub open spec fn spec_not(a: Arch, seg: Regs, dst_arg: DstArg) -> Option<Arch> {
    match model::spec_resolve_arg(a, seg, dst_arg) {
        Some(SrcArg::Byte(y)) => model::spec_write_arg(a, seg, dst_arg, SrcArg::Byte(!y)),
        Some(SrcArg::Word(y)) => model::spec_write_arg(a, seg, dst_arg, SrcArg::Word(!y)),
        _ => None,
    }
}

pub fn not(comp: &mut CPU, instruction: Instruction) -> (r: Result<usize, CpuErr>)
    ensures
        r is Ok <==> instruction.dst is Some && spec_not(
            old(comp)@,
            instruction.segment,
            instruction.dst.unwrap(),
        ) is Some,
        r is Ok ==> Some(final(comp)@) == spec_not(
            old(comp)@,
            instruction.segment,
            instruction.dst.unwrap(),
        ),
        r is Err ==> final(comp)@ == old(comp)@,
        final(comp).hooks() == old(comp).hooks(),
{
    let seg = instruction.segment;
    let dst_arg = match instruction.dst {
        Some(d) => d,
        None => {
            return Err(CpuErr::BadOperand);
        },
    };
    match dst_arg.to_src_arg(&mut comp.bus, seg) {
        Some(SrcArg::Byte(y)) => match comp.bus.write_to_arg(dst_arg, seg, SrcArg::Byte(!y)) {
            Ok(()) => Ok(0),
            Err(e) => Err(e),
        },
        Some(SrcArg::Word(y)) => match comp.bus.write_to_arg(dst_arg, seg, SrcArg::Word(!y)) {
            Ok(()) => Ok(0),
            Err(e) => Err(e),
        },
        Some(SrcArg::DWord(_)) => Err(CpuErr::BadOperand),
        None => Err(CpuErr::OutOfBounds),
    }
}

/// NEG: the destination takes its two's complement, and the zero, sign and
/// parity flags are recomputed from the result.
pub open spec fn spec_neg(a: Arch, seg: Regs, dst_arg: DstArg) -> Option<Arch> {
    match model::spec_resolve_arg(a, seg, dst_arg) {
        Some(SrcArg::Byte(y)) => {
            let res = ((0 - y) % 0x100) as u8;
            match model::spec_write_arg(a, seg, dst_arg, SrcArg::Byte(res)) {
                Some(b) => Some(
                    b.with_result_flags(
                        SrcArg::Byte(res),
                        CPUFlags::ZERO | CPUFlags::SIGN | CPUFlags::PARITY,
                    ),
                ),
                None => None,
            }
        },
        Some(SrcArg::Word(y)) => {
            let res = ((0 - y) % 0x10000) as u16;
            match model::spec_write_arg(a, seg, dst_arg, SrcArg::Word(res)) {
                Some(b) => Some(
                    b.with_result_flags(
                        SrcArg::Word(res),
                        CPUFlags::ZERO | CPUFlags::SIGN | CPUFlags::PARITY,
                    ),
                ),
                None => None,
            }
        },
        _ => None,
    }
}

pub fn neg(comp: &mut CPU, instruction: Instruction) -> (r: Result<usize, CpuErr>)
    ensures
        r is Ok <==> instruction.dst is Some && spec_neg(
            old(comp)@,
            instruction.segment,
            instruction.dst.unwrap(),
        ) is Some,
        r is Ok ==> Some(final(comp)@) == spec_neg(
            old(comp)@,
            instruction.segment,
            instruction.dst.unwrap(),
        ),
        r is Err ==> final(comp)@ == old(comp)@,
        final(comp).hooks() == old(comp).hooks(),
{
    let seg = instruction.segment;
    let dst_arg = match instruction.dst {
        Some(d) => d,
        None => {
            return Err(CpuErr::BadOperand);
        },
    };
    match dst_arg.to_src_arg(&mut comp.bus, seg) {
        Some(SrcArg::Byte(y)) => {
            let res = crate::cpu::alu::twos_compliment_byte(y);
            match comp.bus.write_to_arg(dst_arg, seg, SrcArg::Byte(res)) {
                Ok(()) => {
                    comp.bus.check_flags_in_result(
                        &SrcArg::Byte(res),
                        CPUFlags::ZERO | CPUFlags::SIGN | CPUFlags::PARITY,
                    );
                    Ok(0)
                },
                Err(e) => Err(e),
            }
        },
        Some(SrcArg::Word(y)) => {
            let res = crate::cpu::alu::twos_compliment_word(y);
            match comp.bus.write_to_arg(dst_arg, seg, SrcArg::Word(res)) {
                Ok(()) => {
                    comp.bus.check_flags_in_result(
                        &SrcArg::Word(res),
                        CPUFlags::ZERO | CPUFlags::SIGN | CPUFlags::PARITY,
                    );
                    Ok(0)
                },
                Err(e) => Err(e),
            }
        },
        Some(SrcArg::DWord(_)) => Err(CpuErr::BadOperand),
        None => Err(CpuErr::OutOfBounds),
    }
}

/// MUL: unsigned multiply against the accumulator. A byte operand forms a
/// 16-bit product in AX; a word operand fills AX with the low half and DX
/// with the high half. Carry and overflow are set together exactly when the
/// high half is non-zero.
pub open spec fn spec_mul(a: Arch, seg: Regs, dst_arg: DstArg) -> Option<Arch> {
    match model::spec_resolve_arg(a, seg, dst_arg) {
        Some(SrcArg::Byte(v)) => {
            let p = v * low_byte(a.ax);
            Some(
                a.with_reg(Regs::AX, p as u16).with_flag(
                    CPUFlags::CARRY | CPUFlags::OVERFLOW,
                    p > 0xFF,
                ),
            )
        },
        Some(SrcArg::Word(v)) => {
            let p = v * a.ax;
            let lo = (p % 0x10000) as u16;
            let hi = (p / 0x10000) as u16;
            Some(
                a.with_reg(Regs::AX, lo).with_reg(Regs::DX, hi).with_flag(
                    CPUFlags::CARRY | CPUFlags::OVERFLOW,
                    hi != 0,
                ),
            )
        },
        _ => None,
    }
}

pub fn mul(comp: &mut CPU, instruction: Instruction) -> (r: Result<usize, CpuErr>)
    ensures
        r is Ok <==> instruction.dst is Some && spec_mul(
            old(comp)@,
            instruction.segment,
            instruction.dst.unwrap(),
        ) is Some,
        r is Ok ==> Some(final(comp)@) == spec_mul(
            old(comp)@,
            instruction.segment,
            instruction.dst.unwrap(),
        ),
        r is Err ==> final(comp)@ == old(comp)@,
        final(comp).hooks() == old(comp).hooks(),
{
    let seg = instruction.segment;
    let dst_arg = match instruction.dst {
        Some(d) => d,
        None => {
            return Err(CpuErr::BadOperand);
        },
    };
    let ax = match comp.bus.read_reg(Regs::AX) {
        Some(v) => v,
        None => 0,
    };
    match dst_arg.to_src_arg(&mut comp.bus, seg) {
        Some(SrcArg::Byte(v)) => {
            let al: u16 = ax % 256;
            proof {
                assert((v as int) * (al as int) <= 255 * 255) by (nonlinear_arith)
                    requires
                        v <= 255,
                        al <= 255,
                ;
            }
            let p32: u32 = (v as u32) * (al as u32);
            comp.bus.set_reg(Regs::AX, p32 as u16);
            comp.bus.set_flag_if(CPUFlags::CARRY | CPUFlags::OVERFLOW, p32 > 0xFF);
            Ok(0)
        },
        Some(SrcArg::Word(v)) => {
            proof {
                assert((v as int) * (ax as int) <= 0xFFFF * 0xFFFF) by (nonlinear_arith)
                    requires
                        v <= 0xFFFF,
                        ax <= 0xFFFF,
                ;
            }
            let p32: u32 = (v as u32) * (ax as u32);
            let lo: u16 = (p32 % 0x10000) as u16;
            let hi: u16 = (p32 / 0x10000) as u16;
            comp.bus.set_reg(Regs::AX, lo);
            comp.bus.set_reg(Regs::DX, hi);
            comp.bus.set_flag_if(CPUFlags::CARRY | CPUFlags::OVERFLOW, hi != 0);
            Ok(0)
        },
        Some(SrcArg::DWord(_)) => Err(CpuErr::BadOperand),
        None => Err(CpuErr::OutOfBounds),
    }
}

/// The magnitude-and-sign view of a signed product: the product of the
/// magnitudes is the magnitude of the product, and the product is negative
/// exactly when the signs differ and it is not zero.
proof fn lemma_signed_product(x: int, y: int, mag: int, neg: bool)
    requires
        mag == iabs(x) * iabs(y),
        neg == ((x < 0) != (y < 0)),
    ensures
        iabs(x * y) == mag,
        x * y < 0 <==> (neg && mag != 0),
{
    assert(iabs(x * y) == mag && (x * y < 0 <==> (neg && mag != 0))) by (nonlinear_arith)
        requires
            mag == iabs(x) * iabs(y),
            neg == ((x < 0) != (y < 0)),
    ;
}

/// Reducing a signed value given by sign and magnitude: its remainder by a
/// positive modulus is the two's-complement image of the magnitude's
/// remainder.
proof fn lemma_signed_mod(v: int, m: int, vm: int, vneg: bool)
    requires
        m > 0,
        vm >= 0,
        v == (if vneg {
            -vm
        } else {
            vm
        }),
    ensures
        v % m == (if vneg {
            (0 - (vm % m)) % m
        } else {
            vm % m
        }),
{
    if vneg {
        vstd::arithmetic::div_mod::lemma_fundamental_div_mod(vm, m);
        vstd::arithmetic::div_mod::lemma_mod_pos_bound(vm, m);
        let q0 = vm / m;
        let r0 = vm % m;
        if r0 == 0 {
            assert(v == (-q0) * m + 0) by (nonlinear_arith)
                requires
                    v == -vm,
                    vm == m * q0,
            ;
            vstd::arithmetic::div_mod::lemma_fundamental_div_mod_converse(v, m, -q0, 0);
            vstd::arithmetic::div_mod::lemma_small_mod(0, m as nat);
        } else {
            assert(v == (-q0 - 1) * m + (m - r0)) by (nonlinear_arith)
                requires
                    v == -vm,
                    vm == m * q0 + r0,
            ;
            vstd::arithmetic::div_mod::lemma_fundamental_div_mod_converse(v, m, -q0 - 1, m - r0);
            assert(0 - r0 == (-1) * m + (m - r0)) by (nonlinear_arith);
            vstd::arithmetic::div_mod::lemma_fundamental_div_mod_converse(
                0 - r0,
                m,
                -1,
                m - r0,
            );
        }
    }
}

/// The two's-complement image of a small signed value: for a magnitude
/// under the modulus, the remainder is the magnitude itself when the value
/// is non-negative and the modulus minus it when negative.
proof fn lemma_signed_mod_small(v: int, m: int, vm: int, vneg: bool)
    requires
        m > 0,
        0 <= vm < m,
        v == (if vneg {
            -vm
        } else {
            vm
        }),
        iabs(v) == vm,
    ensures
        v % m == (if vneg && vm != 0 {
            m - vm
        } else {
            vm
        }),
{
    lemma_signed_mod(v, m, vm, vneg);
    vstd::arithmetic::div_mod::lemma_small_mod(vm as nat, m as nat);
    if vneg && vm != 0 {
        assert(0 - vm == (-1) * m + (m - vm)) by (nonlinear_arith);
        vstd::arithmetic::div_mod::lemma_fundamental_div_mod_converse(0 - vm, m, -1, m - vm);
    } else {
        if vneg {
            vstd::arithmetic::div_mod::lemma_small_mod(0, m as nat);
        }
    }
}

/// A byte read as a signed quantity.
pub open spec fn as_i8(b: u8) -> int {
    if b < 0x80 {
        b as int
    } else {
        b - 0x100
    }
}

/// A word read as a signed quantity.
pub open spec fn as_i16(w: u16) -> int {
    if w < 0x8000 {
        w as int
    } else {
        w - 0x10000
    }
}

/// A double word read as a signed quantity.
pub open spec fn as_i32(d: u32) -> int {
    if d < 0x8000_0000 {
        d as int
    } else {
        d - 0x1_0000_0000
    }
}

pub open spec fn iabs(x: int) -> int {
    if x < 0 {
        -x
    } else {
        x
    }
}

/// Signed division truncating toward zero, as the hardware divides.
pub open spec fn tdiv(x: int, y: int) -> int {
    if (x < 0) != (y < 0) {
        -(iabs(x) / iabs(y))
    } else {
        iabs(x) / iabs(y)
    }
}

/// The remainder of truncating division: it carries the dividend's sign.
pub open spec fn tmod(x: int, y: int) -> int {
    if x < 0 {
        -(iabs(x) % iabs(y))
    } else {
        iabs(x) % iabs(y)
    }
}

/// IMUL: signed multiply against the accumulator. A byte operand forms a
/// 16-bit signed product in AX; a word operand fills AX and DX with the two
/// halves of the 32-bit product's two's-complement image. Carry and overflow
/// are set together exactly when the product does not fit the operand width
/// signed, that is, when the high half is not a sign-extension of the low.
pub open spec fn spec_imul(a: Arch, seg: Regs, dst_arg: DstArg) -> Option<Arch> {
    match model::spec_resolve_arg(a, seg, dst_arg) {
        Some(SrcArg::Byte(v)) => {
            let p = as_i8(v) * as_i8(low_byte(a.ax));
            let image = (p % 0x10000) as u16;
            Some(
                a.with_reg(Regs::AX, image).with_flag(
                    CPUFlags::CARRY | CPUFlags::OVERFLOW,
                    !(-0x80 <= p < 0x80),
                ),
            )
        },
        Some(SrcArg::Word(v)) => {
            let p = as_i16(v) * as_i16(a.ax);
            let image = p % 0x1_0000_0000;
            let lo = (image % 0x10000) as u16;
            let hi = (image / 0x10000) as u16;
            Some(
                a.with_reg(Regs::AX, lo).with_reg(Regs::DX, hi).with_flag(
                    CPUFlags::CARRY | CPUFlags::OVERFLOW,
                    !(-0x8000 <= p < 0x8000),
                ),
            )
        },
        _ => None,
    }
}

/// The magnitude of a byte read as signed.
fn mag8(b: u8) -> (r: u16)
    ensures
        r == iabs(as_i8(b)),
{
    if b >= 0x80 {
        0x100 - (b as u16)
    } else {
        b as u16
    }
}

fn mag16(w: u16) -> (r: u32)
    ensures
        r == iabs(as_i16(w)),
{
    if w >= 0x8000 {
        0x10000 - (w as u32)
    } else {
        w as u32
    }
}

fn mag32(d: u32) -> (r: u64)
    ensures
        r == iabs(as_i32(d)),
{
    if d >= 0x8000_0000 {
        0x1_0000_0000 - (d as u64)
    } else {
        d as u64
    }
}

#[verifier::rlimit(100)]
#[verifier::spinoff_prover]
pub fn imul(comp: &mut CPU, instruction: Instruction) -> (r: Result<usize, CpuErr>)
    ensures
        r is Ok <==> instruction.dst is Some && spec_imul(
            old(comp)@,
            instruction.segment,
            instruction.dst.unwrap(),
        ) is Some,
        r is Ok ==> Some(final(comp)@) == spec_imul(
            old(comp)@,
            instruction.segment,
            instruction.dst.unwrap(),
        ),
        r is Err ==> final(comp)@ == old(comp)@,
        final(comp).hooks() == old(comp).hooks(),
{
    let seg = instruction.segment;
    let dst_arg = match instruction.dst {
        Some(d) => d,
        None => {
            return Err(CpuErr::BadOperand);
        },
    };
    let ax = match comp.bus.read_reg(Regs::AX) {
        Some(v) => v,
        None => 0,
    };
    match dst_arg.to_src_arg(&mut comp.bus, seg) {
        Some(SrcArg::Byte(v)) => {
            let al: u8 = (ax % 256) as u8;
            let neg = (v >= 0x80) != (al >= 0x80);
            let m1 = mag8(v);
            let m2 = mag8(al);
            proof {
                assert((m1 as int) * (m2 as int) <= 128 * 128) by (nonlinear_arith)
                    requires
                        m1 <= 128,
                        m2 <= 128,
                ;
            }
            let mag: u32 = (m1 as u32) * (m2 as u32);
            proof {
                lemma_signed_product(as_i8(v), as_i8(al), mag as int, neg);
                lemma_signed_mod_small(as_i8(v) * as_i8(al), 0x10000, mag as int, neg && mag != 0);
            }
            let image: u16 = if neg && mag != 0 {
                (0x10000 - mag) as u16
            } else {
                mag as u16
            };
            proof {
                assert(image == (as_i8(v) * as_i8(al)) % 0x10000);
            }
            let fits = if neg {
                mag <= 0x80
            } else {
                mag < 0x80
            };
            comp.bus.set_reg(Regs::AX, image);
            comp.bus.set_flag_if(CPUFlags::CARRY | CPUFlags::OVERFLOW, !fits);
            Ok(0)
        },
        Some(SrcArg::Word(v)) => {
            let neg = (v >= 0x8000) != (ax >= 0x8000);
            let m1 = mag16(v);
            let m2 = mag16(ax);
            proof {
                assert((m1 as int) * (m2 as int) <= 0x8000 * 0x8000) by (nonlinear_arith)
                    requires
                        m1 <= 0x8000,
                        m2 <= 0x8000,
                ;
            }
            let mag: u64 = (m1 as u64) * (m2 as u64);
            proof {
                lemma_signed_product(as_i16(v), as_i16(ax), mag as int, neg);
                lemma_signed_mod_small(
                    as_i16(v) * as_i16(ax),
                    0x1_0000_0000,
                    mag as int,
                    neg && mag != 0,
                );
            }
            let image: u64 = if neg && mag != 0 {
                0x1_0000_0000 - mag
            } else {
                mag
            };
            proof {
                assert(image == (as_i16(v) * as_i16(ax)) % 0x1_0000_0000);
            }
            let lo: u16 = (image % 0x10000) as u16;
            let hi: u16 = ((image / 0x10000) % 0x10000) as u16;
            let fits = if neg {
                mag <= 0x8000
            } else {
                mag < 0x8000
            };
            comp.bus.set_reg(Regs::AX, lo);
            comp.bus.set_reg(Regs::DX, hi);
            comp.bus.set_flag_if(CPUFlags::CARRY | CPUFlags::OVERFLOW, !fits);
            Ok(0)
        },
        Some(SrcArg::DWord(_)) => Err(CpuErr::BadOperand),
        None => Err(CpuErr::OutOfBounds),
    }
}

/// DIV: unsigned division of the accumulator pair. A byte divisor divides
/// AX, leaving the quotient's low byte in AL and the remainder in AH; a word
/// divisor divides DX:AX, leaving the quotient in AX and the remainder in
/// DX. A zero divisor computes nothing and raises the divide-by-zero
/// exception instead.
pub open spec fn spec_div(a: Arch, seg: Regs, dst_arg: DstArg) -> Option<Arch> {
    match model::spec_resolve_arg(a, seg, dst_arg) {
        Some(SrcArg::Byte(v)) => if v == 0 {
            a.spec_except(crate::cpu::exceptions::DIVIDE_BY_ZERO)
        } else {
            let q = a.ax as int / v as int;
            let rem = a.ax as int % v as int;
            Some(a.with_reg(Regs::AX, ((q % 0x100) + rem * 0x100) as u16))
        },
        Some(SrcArg::Word(v)) => if v == 0 {
            a.spec_except(crate::cpu::exceptions::DIVIDE_BY_ZERO)
        } else {
            let dividend = a.ax + a.dx * 0x10000;
            let q = dividend / v as int;
            let rem = dividend % v as int;
            Some(a.with_reg(Regs::AX, (q % 0x10000) as u16).with_reg(Regs::DX, rem as u16))
        },
        _ => None,
    }
}

pub fn div(comp: &mut CPU, instruction: Instruction) -> (r: Result<usize, CpuErr>)
    ensures
        r is Ok <==> instruction.dst is Some && spec_div(
            old(comp)@,
            instruction.segment,
            instruction.dst.unwrap(),
        ) is Some,
        r is Ok ==> Some(final(comp)@) == spec_div(
            old(comp)@,
            instruction.segment,
            instruction.dst.unwrap(),
        ),
        r is Err ==> final(comp)@ == old(comp)@,
        final(comp).hooks() == old(comp).hooks(),
{
    let seg = instruction.segment;
    let dst_arg = match instruction.dst {
        Some(d) => d,
        None => {
            return Err(CpuErr::BadOperand);
        },
    };
    match dst_arg.to_src_arg(&mut comp.bus, seg) {
        Some(SrcArg::Byte(v)) => {
            if v == 0 {
                match comp.bus.except(exceptions::DIVIDE_BY_ZERO) {
                    Ok(()) => Ok(0),
                    Err(e) => Err(e),
                }
            } else {
                let ax = match comp.bus.read_reg(Regs::AX) {
                    Some(w) => w,
                    None => 0,
                };
                let q: u16 = ax / (v as u16);
                let rem: u16 = ax % (v as u16);
                comp.bus.set_reg(Regs::AX, (q % 0x100) + rem * 0x100);
                Ok(0)
            }
        },
        Some(SrcArg::Word(v)) => {
            if v == 0 {
                match comp.bus.except(exceptions::DIVIDE_BY_ZERO) {
                    Ok(()) => Ok(0),
                    Err(e) => Err(e),
                }
            } else {
                let ax = match comp.bus.read_reg(Regs::AX) {
                    Some(w) => w,
                    None => 0,
                };
                let dx = match comp.bus.read_reg(Regs::DX) {
                    Some(w) => w,
                    None => 0,
                };
                let dividend: u32 = (ax as u32) + (dx as u32) * 0x10000;
                let q: u32 = dividend / (v as u32);
                let rem: u32 = dividend % (v as u32);
                comp.bus.set_reg(Regs::AX, (q % 0x10000) as u16);
                comp.bus.set_reg(Regs::DX, rem as u16);
                Ok(0)
            }
        },
        Some(SrcArg::DWord(_)) => Err(CpuErr::BadOperand),
        None => Err(CpuErr::OutOfBounds),
    }
}

/// IDIV: signed division of the accumulator pair, truncating toward zero,
/// with the remainder carrying the dividend's sign. The quotient and
/// remainder land as in DIV. A zero divisor raises the divide-by-zero
/// exception instead.
pub open spec fn spec_idiv(a: Arch, seg: Regs, dst_arg: DstArg) -> Option<Arch> {
    match model::spec_resolve_arg(a, seg, dst_arg) {
        Some(SrcArg::Byte(v)) => if v == 0 {
            a.spec_except(crate::cpu::exceptions::DIVIDE_BY_ZERO)
        } else {
            let q = tdiv(as_i16(a.ax), as_i8(v));
            let rem = tmod(as_i16(a.ax), as_i8(v));
            Some(a.with_reg(Regs::AX, ((q % 0x100) + (rem % 0x100) * 0x100) as u16))
        },
        Some(SrcArg::Word(v)) => if v == 0 {
            a.spec_except(crate::cpu::exceptions::DIVIDE_BY_ZERO)
        } else {
            let dividend = as_i32((a.ax + a.dx * 0x10000) as u32);
            let q = tdiv(dividend, as_i16(v));
            let rem = tmod(dividend, as_i16(v));
            Some(
                a.with_reg(Regs::AX, (q % 0x10000) as u16).with_reg(
                    Regs::DX,
                    (rem % 0x10000) as u16,
                ),
            )
        },
        _ => None,
    }
}

/// The two's-complement image of a signed magnitude in the given modulus.
fn signed_image(neg: bool, mag: u32, modulus: u32) -> (r: u32)
    requires
        mag < modulus,
    ensures
        r == (if neg {
            (0 - (mag as int)) % (modulus as int)
        } else {
            (mag as int) % (modulus as int)
        }),
{
    proof {
        if neg && mag != 0 {
            assert((0 - (mag as int)) % (modulus as int) == modulus - mag) by (nonlinear_arith)
                requires
                    0 < mag < modulus,
            ;
        } else {
            assert((mag as int) % (modulus as int) == mag) by (nonlinear_arith)
                requires
                    0 <= mag < modulus,
            ;
        }
    }
    if neg && mag != 0 {
        modulus - mag
    } else {
        mag
    }
}

#[verifier::rlimit(100)]
#[verifier::spinoff_prover]
pub fn idiv(comp: &mut CPU, instruction: Instruction) -> (r: Result<usize, CpuErr>)
    ensures
        r is Ok <==> instruction.dst is Some && spec_idiv(
            old(comp)@,
            instruction.segment,
            instruction.dst.unwrap(),
        ) is Some,
        r is Ok ==> Some(final(comp)@) == spec_idiv(
            old(comp)@,
            instruction.segment,
            instruction.dst.unwrap(),
        ),
        r is Err ==> final(comp)@ == old(comp)@,
        final(comp).hooks() == old(comp).hooks(),
{
    let seg = instruction.segment;
    let dst_arg = match instruction.dst {
        Some(d) => d,
        None => {
            return Err(CpuErr::BadOperand);
        },
    };
    match dst_arg.to_src_arg(&mut comp.bus, seg) {
        Some(SrcArg::Byte(v)) => {
            if v == 0 {
                match comp.bus.except(exceptions::DIVIDE_BY_ZERO) {
                    Ok(()) => Ok(0),
                    Err(e) => Err(e),
                }
            } else {
                let ax = match comp.bus.read_reg(Regs::AX) {
                    Some(w) => w,
                    None => 0,
                };
                let nm: u32 = mag16(ax) as u32;
                let dm: u32 = mag8(v) as u32;
                let qm: u32 = nm / dm;
                let rm: u32 = nm % dm;
                let qneg = (ax >= 0x8000) != (v >= 0x80);
                let rneg = ax >= 0x8000;
                let qb: u32 = signed_image(qneg, qm % 0x100, 0x100);
                let rb: u32 = signed_image(rneg, rm % 0x100, 0x100);
                proof {
                    lemma_signed_mod(tdiv(as_i16(old(comp)@.ax), as_i8(v)), 0x100, qm as int, qneg);
                    lemma_signed_mod(tmod(as_i16(old(comp)@.ax), as_i8(v)), 0x100, rm as int, rneg);
                }
                comp.bus.set_reg(Regs::AX, (qb + rb * 0x100) as u16);
                Ok(0)
            }
        },
        Some(SrcArg::Word(v)) => {
            if v == 0 {
                match comp.bus.except(exceptions::DIVIDE_BY_ZERO) {
                    Ok(()) => Ok(0),
                    Err(e) => Err(e),
                }
            } else {
                let ax = match comp.bus.read_reg(Regs::AX) {
                    Some(w) => w,
                    None => 0,
                };
                let dx = match comp.bus.read_reg(Regs::DX) {
                    Some(w) => w,
                    None => 0,
                };
                let dividend: u32 = (ax as u32) + (dx as u32) * 0x10000;
                let nm: u64 = mag32(dividend);
                let dm: u64 = mag16(v) as u64;
                let qm: u64 = nm / dm;
                let rm: u64 = nm % dm;
                let qneg = (dividend >= 0x8000_0000) != (v >= 0x8000);
                let rneg = dividend >= 0x8000_0000;
                let qw: u32 = signed_image(qneg, (qm % 0x10000) as u32, 0x10000);
                let rw: u32 = signed_image(rneg, (rm % 0x10000) as u32, 0x10000);
                proof {
                    lemma_signed_mod(tdiv(as_i32(dividend), as_i16(v)), 0x10000, qm as int, qneg);
                    lemma_signed_mod(tmod(as_i32(dividend), as_i16(v)), 0x10000, rm as int, rneg);
                }
                comp.bus.set_reg(Regs::AX, qw as u16);
                comp.bus.set_reg(Regs::DX, rw as u16);
                Ok(0)
            }
        },
        Some(SrcArg::DWord(_)) => Err(CpuErr::BadOperand),
        None => Err(CpuErr::OutOfBounds),
    }
}

/// The repeat count of a rotate or shift, read from the count operand's low
/// byte.
pub open spec fn times_of(v: SrcArg) -> u8 {
    match v {
        SrcArg::Byte(b) => b,
        SrcArg::Word(w) => (w % 0x100) as u8,
        SrcArg::DWord(d) => (d % 0x100) as u8,
    }
}

/// One byte-wide rotate or shift: the result, the carry to set (none when
/// the operation leaves carry alone), and the overflow to set.
pub open spec fn rot8(op: OpAction, y: u8, t: u8, cf: bool) -> (u8, Option<bool>, Option<bool>) {
    if op == OpAction::Rol {
        let r = crate::cpu::alu::spec_rol8(y, t as nat);
        (r, if t > 0 {
            Some(r % 2 == 1)
        } else {
            None
        }, None)
    } else if op == OpAction::Ror {
        let r = crate::cpu::alu::spec_ror8(y, t as nat);
        (r, if t > 0 {
            Some(r >= 0x80)
        } else {
            None
        }, None)
    } else if op == OpAction::Rcl {
        let p = crate::cpu::alu::spec_rcl8(y, cf, t as nat);
        (p.0, Some(p.1), None)
    } else if op == OpAction::Rcr {
        let p = crate::cpu::alu::spec_rcr8(y, cf, t as nat);
        (p.0, Some(p.1), None)
    } else if op == OpAction::Sal {
        let p = crate::cpu::alu::spec_shl8(y, t as nat);
        (p.0, if t > 0 {
            Some(p.1)
        } else {
            None
        }, if t == 1 {
            Some((y / 0x80) % 2 != (y / 0x40) % 2)
        } else {
            None
        })
    } else if op == OpAction::Shr {
        let p = crate::cpu::alu::spec_shr8(y, t as nat);
        (p.0, if t > 0 {
            Some(p.1)
        } else {
            None
        }, if t == 1 {
            Some(y >= 0x80)
        } else {
            None
        })
    } else if op == OpAction::Sar {
        let p = crate::cpu::alu::spec_sar8(y, t as nat);
        (p.0, if t > 0 {
            Some(p.1)
        } else {
            None
        }, if t == 1 {
            Some(false)
        } else {
            None
        })
    } else {
        (y, None, None)
    }
}

/// One word-wide rotate or shift.
pub open spec fn rot16(op: OpAction, y: u16, t: u8, cf: bool) -> (u16, Option<bool>, Option<bool>) {
    if op == OpAction::Rol {
        let r = crate::cpu::alu::spec_rol16(y, t as nat);
        (r, if t > 0 {
            Some(r % 2 == 1)
        } else {
            None
        }, None)
    } else if op == OpAction::Ror {
        let r = crate::cpu::alu::spec_ror16(y, t as nat);
        (r, if t > 0 {
            Some(r >= 0x8000)
        } else {
            None
        }, None)
    } else if op == OpAction::Rcl {
        let p = crate::cpu::alu::spec_rcl16(y, cf, t as nat);
        (p.0, Some(p.1), None)
    } else if op == OpAction::Rcr {
        let p = crate::cpu::alu::spec_rcr16(y, cf, t as nat);
        (p.0, Some(p.1), None)
    } else if op == OpAction::Sal {
        let p = crate::cpu::alu::spec_shl16(y, t as nat);
        (p.0, if t > 0 {
            Some(p.1)
        } else {
            None
        }, if t == 1 {
            Some((y / 0x8000) % 2 != (y / 0x4000) % 2)
        } else {
            None
        })
    } else if op == OpAction::Shr {
        let p = crate::cpu::alu::spec_shr16(y, t as nat);
        (p.0, if t > 0 {
            Some(p.1)
        } else {
            None
        }, if t == 1 {
            Some(y >= 0x8000)
        } else {
            None
        })
    } else if op == OpAction::Sar {
        let p = crate::cpu::alu::spec_sar16(y, t as nat);
        (p.0, if t > 0 {
            Some(p.1)
        } else {
            None
        }, if t == 1 {
            Some(false)
        } else {
            None
        })
    } else {
        (y, None, None)
    }
}

/// A rotate or shift as one state transform: the count comes from the source
/// operand, the destination takes the rotated or shifted value, the carry
/// flag takes the last bit carried out, and single-bit shifts define
/// overflow.
pub open spec fn spec_rotate(
    a: Arch,
    seg: Regs,
    src_arg: DstArg,
    dst_arg: DstArg,
    op: OpAction,
) -> Option<Arch> {
    match (model::spec_resolve_arg(a, seg, src_arg), model::spec_resolve_arg(a, seg, dst_arg)) {
        (Some(sv), Some(dv)) => {
            let t = times_of(sv);
            let cf = a.flag_set(CPUFlags::CARRY);
            match dv {
                SrcArg::Byte(y) => {
                    let out = rot8(op, y, t, cf);
                    match model::spec_write_arg(a, seg, dst_arg, SrcArg::Byte(out.0)) {
                        Some(b) => {
                            let b1 = match out.2 {
                                Some(o) => b.with_flag(CPUFlags::OVERFLOW, o),
                                None => b,
                            };
                            match out.1 {
                                Some(c) => Some(b1.with_flag(CPUFlags::CARRY, c)),
                                None => Some(b1),
                            }
                        },
                        None => None,
                    }
                },
                SrcArg::Word(y) => {
                    let out = rot16(op, y, t, cf);
                    match model::spec_write_arg(a, seg, dst_arg, SrcArg::Word(out.0)) {
                        Some(b) => {
                            let b1 = match out.2 {
                                Some(o) => b.with_flag(CPUFlags::OVERFLOW, o),
                                None => b,
                            };
                            match out.1 {
                                Some(c) => Some(b1.with_flag(CPUFlags::CARRY, c)),
                                None => Some(b1),
                            }
                        },
                        None => None,
                    }
                },
                SrcArg::DWord(_) => None,
            }
        },
        _ => None,
    }
}

fn rot8_exec(op: OpAction, y: u8, t: u8, cf: bool) -> (r: (u8, Option<bool>, Option<bool>))
    ensures
        r == rot8(op, y, t, cf),
{
    match op {
        OpAction::Rol => {
            let r = crate::cpu::alu::rotate_left_byte(y, t);
            (r, if t > 0 {
                Some(r % 2 == 1)
            } else {
                None
            }, None)
        },
        OpAction::Ror => {
            let r = crate::cpu::alu::rotate_right_byte(y, t);
            (r, if t > 0 {
                Some(r >= 0x80)
            } else {
                None
            }, None)
        },
        OpAction::Rcl => {
            let p = crate::cpu::alu::rotate_left_carry_byte(y, t, cf);
            (p.0, Some(p.1), None)
        },
        OpAction::Rcr => {
            let p = crate::cpu::alu::rotate_right_carry_byte(y, t, cf);
            (p.0, Some(p.1), None)
        },
        OpAction::Sal => {
            let p = crate::cpu::alu::shift_left_byte(y, t);
            (p.0, if t > 0 {
                Some(p.1)
            } else {
                None
            }, if t == 1 {
                Some((y / 0x80) % 2 != (y / 0x40) % 2)
            } else {
                None
            })
        },
        OpAction::Shr => {
            let p = crate::cpu::alu::shift_right_byte(y, t);
            (p.0, if t > 0 {
                Some(p.1)
            } else {
                None
            }, if t == 1 {
                Some(y >= 0x80)
            } else {
                None
            })
        },
        OpAction::Sar => {
            let p = crate::cpu::alu::shift_right_arith_byte(y, t);
            (p.0, if t > 0 {
                Some(p.1)
            } else {
                None
            }, if t == 1 {
                Some(false)
            } else {
                None
            })
        },
        _ => (y, None, None),
    }
}

fn rot16_exec(op: OpAction, y: u16, t: u8, cf: bool) -> (r: (u16, Option<bool>, Option<bool>))
    ensures
        r == rot16(op, y, t, cf),
{
    match op {
        OpAction::Rol => {
            let r = crate::cpu::alu::rotate_left_word(y, t as u16);
            (r, if t > 0 {
                Some(r % 2 == 1)
            } else {
                None
            }, None)
        },
        OpAction::Ror => {
            let r = crate::cpu::alu::rotate_right_word(y, t as u16);
            (r, if t > 0 {
                Some(r >= 0x8000)
            } else {
                None
            }, None)
        },
        OpAction::Rcl => {
            let p = crate::cpu::alu::rotate_left_carry_word(y, t as u16, cf);
            (p.0, Some(p.1), None)
        },
        OpAction::Rcr => {
            let p = crate::cpu::alu::rotate_right_carry_word(y, t as u16, cf);
            (p.0, Some(p.1), None)
        },
        OpAction::Sal => {
            let p = crate::cpu::alu::shift_left_word(y, t);
            (p.0, if t > 0 {
                Some(p.1)
            } else {
                None
            }, if t == 1 {
                Some((y / 0x8000) % 2 != (y / 0x4000) % 2)
            } else {
                None
            })
        },
        OpAction::Shr => {
            let p = crate::cpu::alu::shift_right_word(y, t);
            (p.0, if t > 0 {
                Some(p.1)
            } else {
                None
            }, if t == 1 {
                Some(y >= 0x8000)
            } else {
                None
            })
        },
        OpAction::Sar => {
            let p = crate::cpu::alu::shift_right_arith_word(y, t);
            (p.0, if t > 0 {
                Some(p.1)
            } else {
                None
            }, if t == 1 {
                Some(false)
            } else {
                None
            })
        },
        _ => (y, None, None),
    }
}

/// Runs one rotate or shift against the machine.
fn rotate_op(comp: &mut CPU, instruction: &Instruction, op: OpAction) -> (r: Result<usize, CpuErr>)
    ensures
        r is Ok <==> instruction.src is Some && instruction.dst is Some && spec_rotate(
            old(comp)@,
            instruction.segment,
            instruction.src.unwrap(),
            instruction.dst.unwrap(),
            op,
        ) is Some,
        r is Ok ==> Some(final(comp)@) == spec_rotate(
            old(comp)@,
            instruction.segment,
            instruction.src.unwrap(),
            instruction.dst.unwrap(),
            op,
        ),
        r is Err ==> final(comp)@ == old(comp)@,
        final(comp).hooks() == old(comp).hooks(),
{
    let seg = instruction.segment;
    let (src_arg, dst_arg) = match (instruction.src, instruction.dst) {
        (Some(s), Some(d)) => (s, d),
        _ => {
            return Err(CpuErr::BadOperand);
        },
    };
    let sv = match src_arg.to_src_arg(&mut comp.bus, seg) {
        Some(v) => v,
        None => {
            return Err(CpuErr::OutOfBounds);
        },
    };
    let dv = match dst_arg.to_src_arg(&mut comp.bus, seg) {
        Some(v) => v,
        None => {
            return Err(CpuErr::OutOfBounds);
        },
    };
    let t: u8 = match sv {
        SrcArg::Byte(b) => b,
        SrcArg::Word(w) => (w % 0x100) as u8,
        SrcArg::DWord(d) => (d % 0x100) as u8,
    };
    let cf = comp.bus.check_flag(CPUFlags::CARRY);
    match dv {
        SrcArg::Byte(y) => {
            let out = rot8_exec(op, y, t, cf);
            match comp.bus.write_to_arg(dst_arg, seg, SrcArg::Byte(out.0)) {
                Ok(()) => {
                    match out.2 {
                        Some(o) => comp.bus.set_flag_if(CPUFlags::OVERFLOW, o),
                        None => (),
                    }
                    match out.1 {
                        Some(c) => comp.bus.set_flag_if(CPUFlags::CARRY, c),
                        None => (),
                    }
                    Ok(0)
                },
                Err(e) => Err(e),
            }
        },
        SrcArg::Word(y) => {
            let out = rot16_exec(op, y, t, cf);
            match comp.bus.write_to_arg(dst_arg, seg, SrcArg::Word(out.0)) {
                Ok(()) => {
                    match out.2 {
                        Some(o) => comp.bus.set_flag_if(CPUFlags::OVERFLOW, o),
                        None => (),
                    }
                    match out.1 {
                        Some(c) => comp.bus.set_flag_if(CPUFlags::CARRY, c),
                        None => (),
                    }
                    Ok(0)
                },
                Err(e) => Err(e),
            }
        },
        SrcArg::DWord(_) => Err(CpuErr::BadOperand),
    }
}

/// ROL: rotates the destination left; carry takes the bit rotated around.
pub fn rol(comp: &mut CPU, instruction: Instruction) -> (r: Result<usize, CpuErr>)
    ensures
        r is Ok <==> instruction.src is Some && instruction.dst is Some && spec_rotate(
            old(comp)@,
            instruction.segment,
            instruction.src.unwrap(),
            instruction.dst.unwrap(),
            OpAction::Rol,
        ) is Some,
        r is Ok ==> Some(final(comp)@) == spec_rotate(
            old(comp)@,
            instruction.segment,
            instruction.src.unwrap(),
            instruction.dst.unwrap(),
            OpAction::Rol,
        ),
        r is Err ==> final(comp)@ == old(comp)@,
        final(comp).hooks() == old(comp).hooks(),
{
    rotate_op(comp, &instruction, OpAction::Rol)
}

/// ROR: rotates the destination right; carry takes the bit rotated around.
pub fn ror(comp: &mut CPU, instruction: Instruction) -> (r: Result<usize, CpuErr>)
    ensures
        r is Ok <==> instruction.src is Some && instruction.dst is Some && spec_rotate(
            old(comp)@,
            instruction.segment,
            instruction.src.unwrap(),
            instruction.dst.unwrap(),
            OpAction::Ror,
        ) is Some,
        r is Ok ==> Some(final(comp)@) == spec_rotate(
            old(comp)@,
            instruction.segment,
            instruction.src.unwrap(),
            instruction.dst.unwrap(),
            OpAction::Ror,
        ),
        r is Err ==> final(comp)@ == old(comp)@,
        final(comp).hooks() == old(comp).hooks(),
{
    rotate_op(comp, &instruction, OpAction::Ror)
}

/// RCL: rotates left through the carry flag, a nine- or seventeen-bit
/// rotation.
pub fn rcl(comp: &mut CPU, instruction: Instruction) -> (r: Result<usize, CpuErr>)
    ensures
        r is Ok <==> instruction.src is Some && instruction.dst is Some && spec_rotate(
            old(comp)@,
            instruction.segment,
            instruction.src.unwrap(),
            instruction.dst.unwrap(),
            OpAction::Rcl,
        ) is Some,
        r is Ok ==> Some(final(comp)@) == spec_rotate(
            old(comp)@,
            instruction.segment,
            instruction.src.unwrap(),
            instruction.dst.unwrap(),
            OpAction::Rcl,
        ),
        r is Err ==> final(comp)@ == old(comp)@,
        final(comp).hooks() == old(comp).hooks(),
{
    rotate_op(comp, &instruction, OpAction::Rcl)
}

/// RCR: rotates right through the carry flag.
pub fn rcr(comp: &mut CPU, instruction: Instruction) -> (r: Result<usize, CpuErr>)
    ensures
        r is Ok <==> instruction.src is Some && instruction.dst is Some && spec_rotate(
            old(comp)@,
            instruction.segment,
            instruction.src.unwrap(),
            instruction.dst.unwrap(),
            OpAction::Rcr,
        ) is Some,
        r is Ok ==> Some(final(comp)@) == spec_rotate(
            old(comp)@,
            instruction.segment,
            instruction.src.unwrap(),
            instruction.dst.unwrap(),
            OpAction::Rcr,
        ),
        r is Err ==> final(comp)@ == old(comp)@,
        final(comp).hooks() == old(comp).hooks(),
{
    rotate_op(comp, &instruction, OpAction::Rcr)
}

/// SAL: shifts left; carry takes the last bit shifted out, and a single-bit
/// shift defines overflow from whether the top two bits disagreed.
pub fn sal(comp: &mut CPU, instruction: Instruction) -> (r: Result<usize, CpuErr>)
    ensures
        r is Ok <==> instruction.src is Some && instruction.dst is Some && spec_rotate(
            old(comp)@,
            instruction.segment,
            instruction.src.unwrap(),
            instruction.dst.unwrap(),
            OpAction::Sal,
        ) is Some,
        r is Ok ==> Some(final(comp)@) == spec_rotate(
            old(comp)@,
            instruction.segment,
            instruction.src.unwrap(),
            instruction.dst.unwrap(),
            OpAction::Sal,
        ),
        r is Err ==> final(comp)@ == old(comp)@,
        final(comp).hooks() == old(comp).hooks(),
{
    rotate_op(comp, &instruction, OpAction::Sal)
}

/// SHR: shifts right with zero fill; carry takes the last bit shifted out.
pub fn shr(comp: &mut CPU, instruction: Instruction) -> (r: Result<usize, CpuErr>)
    ensures
        r is Ok <==> instruction.src is Some && instruction.dst is Some && spec_rotate(
            old(comp)@,
            instruction.segment,
            instruction.src.unwrap(),
            instruction.dst.unwrap(),
            OpAction::Shr,
        ) is Some,
        r is Ok ==> Some(final(comp)@) == spec_rotate(
            old(comp)@,
            instruction.segment,
            instruction.src.unwrap(),
            instruction.dst.unwrap(),
            OpAction::Shr,
        ),
        r is Err ==> final(comp)@ == old(comp)@,
        final(comp).hooks() == old(comp).hooks(),
{
    rotate_op(comp, &instruction, OpAction::Shr)
}

/// SAR: shifts right arithmetically, the sign bit staying put; carry takes
/// the last bit shifted out.
pub fn sar(comp: &mut CPU, instruction: Instruction) -> (r: Result<usize, CpuErr>)
    ensures
        r is Ok <==> instruction.src is Some && instruction.dst is Some && spec_rotate(
            old(comp)@,
            instruction.segment,
            instruction.src.unwrap(),
            instruction.dst.unwrap(),
            OpAction::Sar,
        ) is Some,
        r is Ok ==> Some(final(comp)@) == spec_rotate(
            old(comp)@,
            instruction.segment,
            instruction.src.unwrap(),
            instruction.dst.unwrap(),
            OpAction::Sar,
        ),
        r is Err ==> final(comp)@ == old(comp)@,
        final(comp).hooks() == old(comp).hooks(),
{
    rotate_op(comp, &instruction, OpAction::Sar)
}

/// AAA: the ASCII adjust after addition. When the low nibble of AL exceeds
/// nine or the auxiliary carry is set, six is added to AL and one to AH and
/// both carry flags are set, else both are cleared; AL then keeps only its
/// low nibble.
pub open spec fn spec_aaa(a: Arch) -> Arch {
    let al = low_byte(a.ax);
    let ah = high_byte(a.ax);
    let cond = (al % 16) > 9 || a.flag_set(CPUFlags::AUX_CARRY);
    let al_mid = if cond {
        ((al + 6) % 0x100) as u8
    } else {
        al
    };
    let ah2 = if cond {
        ((ah + 1) % 0x100) as u8
    } else {
        ah
    };
    a.with_reg(Regs::AX, crate::cpu::reg::word_of(ah2, (al_mid % 16) as u8)).with_flag(
        CPUFlags::AUX_CARRY | CPUFlags::CARRY,
        cond,
    )
}

pub fn aaa(comp: &mut CPU, _instruction: Instruction) -> (r: Result<usize, CpuErr>)
    ensures
        r is Ok && final(comp)@ == spec_aaa(old(comp)@),
        final(comp).hooks() == old(comp).hooks(),
{
    let ax = match comp.bus.read_reg(Regs::AX) {
        Some(v) => v,
        None => 0,
    };
    let al: u16 = ax % 0x100;
    let ah: u16 = ax / 0x100;
    let cond = (al % 16) > 9 || comp.bus.check_flag(CPUFlags::AUX_CARRY);
    let al_mid: u16 = if cond {
        (al + 6) % 0x100
    } else {
        al
    };
    let ah2: u16 = if cond {
        (ah + 1) % 0x100
    } else {
        ah
    };
    comp.bus.set_reg(Regs::AX, ah2 * 0x100 + al_mid % 16);
    comp.bus.set_flag_if(CPUFlags::AUX_CARRY | CPUFlags::CARRY, cond);
    Ok(0)
}

/// AAS: the ASCII adjust after subtraction. When the low nibble of AL
/// exceeds nine or the auxiliary carry is set, six leaves AL and one leaves
/// AH, AL keeps only its low nibble, and both carry flags are set; else both
/// are cleared and AX stays put.
pub open spec fn spec_aas(a: Arch) -> Arch {
    let al = low_byte(a.ax);
    let ah = high_byte(a.ax);
    let cond = (al % 16) > 9 || a.flag_set(CPUFlags::AUX_CARRY);
    let a1 = if cond {
        a.with_reg(
            Regs::AX,
            crate::cpu::reg::word_of(
                ((ah - 1) % 0x100) as u8,
                ((((al - 6) % 0x100) as u8) % 16) as u8,
            ),
        )
    } else {
        a
    };
    a1.with_flag(CPUFlags::AUX_CARRY | CPUFlags::CARRY, cond)
}

pub fn aas(comp: &mut CPU, _instruction: Instruction) -> (r: Result<usize, CpuErr>)
    ensures
        r is Ok && final(comp)@ == spec_aas(old(comp)@),
        final(comp).hooks() == old(comp).hooks(),
{
    let ax = match comp.bus.read_reg(Regs::AX) {
        Some(v) => v,
        None => 0,
    };
    let al: u16 = ax % 0x100;
    let ah: u16 = ax / 0x100;
    let cond = (al % 16) > 9 || comp.bus.check_flag(CPUFlags::AUX_CARRY);
    if cond {
        let al2: u16 = ((al + 0x100) - 6) % 0x100;
        let ah2: u16 = ((ah + 0x100) - 1) % 0x100;
        comp.bus.set_reg(Regs::AX, ah2 * 0x100 + al2 % 16);
    }
    comp.bus.set_flag_if(CPUFlags::AUX_CARRY | CPUFlags::CARRY, cond);
    Ok(0)
}

/// DAA: the decimal adjust after addition, the textbook nibble correction.
/// A low nibble past nine or a set auxiliary carry adds six to AL and sets
/// the auxiliary carry; an AL past 0x99 or an incoming carry adds 0x60 and
/// sets the carry.
pub open spec fn spec_daa(a: Arch) -> Arch {
    let al = low_byte(a.ax);
    let ah = high_byte(a.ax);
    let cond1 = (al % 16) > 9 || a.flag_set(CPUFlags::AUX_CARRY);
    let al1 = if cond1 {
        ((al + 6) % 0x100) as u8
    } else {
        al
    };
    let cond2 = al > 0x99 || a.flag_set(CPUFlags::CARRY);
    let al2 = if cond2 {
        ((al1 + 0x60) % 0x100) as u8
    } else {
        al1
    };
    a.with_reg(Regs::AX, crate::cpu::reg::word_of(ah, al2)).with_flag(
        CPUFlags::AUX_CARRY,
        cond1,
    ).with_flag(CPUFlags::CARRY, cond2)
}

pub fn daa(comp: &mut CPU, _instruction: Instruction) -> (r: Result<usize, CpuErr>)
    ensures
        r is Ok && final(comp)@ == spec_daa(old(comp)@),
        final(comp).hooks() == old(comp).hooks(),
{
    let ax = match comp.bus.read_reg(Regs::AX) {
        Some(v) => v,
        None => 0,
    };
    let al: u16 = ax % 0x100;
    let ah: u16 = ax / 0x100;
    let cond1 = (al % 16) > 9 || comp.bus.check_flag(CPUFlags::AUX_CARRY);
    let al1: u16 = if cond1 {
        (al + 6) % 0x100
    } else {
        al
    };
    let cond2 = al > 0x99 || comp.bus.check_flag(CPUFlags::CARRY);
    let al2: u16 = if cond2 {
        (al1 + 0x60) % 0x100
    } else {
        al1
    };
    comp.bus.set_reg(Regs::AX, ah * 0x100 + al2);
    comp.bus.set_flag_if(CPUFlags::AUX_CARRY, cond1);
    comp.bus.set_flag_if(CPUFlags::CARRY, cond2);
    Ok(0)
}

/// AAD: the ASCII adjust before division. With an immediate base operand,
/// AL becomes AL plus AH times the base, reduced to a byte, and AH clears;
/// any other operand shape leaves the machine as it was.
pub open spec fn spec_aad(a: Arch, dst: Option<DstArg>) -> Arch {
    match dst {
        Some(DstArg::Imm8(base)) => {
            let al = low_byte(a.ax);
            let ah = high_byte(a.ax);
            a.with_reg(Regs::AX, ((al + ah * base) % 0x100) as u16)
        },
        _ => a,
    }
}

pub fn aad(comp: &mut CPU, instruction: Instruction) -> (r: Result<usize, CpuErr>)
    ensures
        r is Ok && final(comp)@ == spec_aad(old(comp)@, instruction.dst),
        final(comp).hooks() == old(comp).hooks(),
{
    match instruction.dst {
        Some(DstArg::Imm8(base)) => {
            let ax = match comp.bus.read_reg(Regs::AX) {
                Some(v) => v,
                None => 0,
            };
            let al: u32 = (ax % 0x100) as u32;
            let ah: u32 = (ax / 0x100) as u32;
            proof {
                assert((ah as int) * (base as int) <= 255 * 255) by (nonlinear_arith)
                    requires
                        ah <= 255,
                        base <= 255,
                ;
            }
            comp.bus.set_reg(Regs::AX, ((al + ah * (base as u32)) % 0x100) as u16);
            Ok(0)
        },
        _ => Ok(0),
    }
}

/// The operation each reg-field value selects within the two-operand ALU
/// group.
pub open spec fn group_two_op(rb: u8) -> OpAction {
    if rb == 0 {
        OpAction::Add
    } else if rb == 1 {
        OpAction::Or
    } else if rb == 2 {
        OpAction::Adc
    } else if rb == 3 {
        OpAction::Sbb
    } else if rb == 4 {
        OpAction::And
    } else if rb == 5 {
        OpAction::Sub
    } else if rb == 6 {
        OpAction::Xor
    } else {
        OpAction::Cmp
    }
}

/// The shared two-operand group: the ModRM reg-field bits select which of
/// ADD, OR, ADC, SBB, AND, SUB, XOR or CMP runs.
pub fn alu_dispatch_two_args(comp: &mut CPU, instruction: Instruction) -> (r: Result<usize, CpuErr>)
    ensures
        r is Ok <==> alu_two_ok(old(comp)@, instruction, group_two_op(instruction.reg_bits % 8)),
        r is Ok ==> Some(final(comp)@) == spec_alu_two(
            old(comp)@,
            instruction.segment,
            instruction.src.unwrap(),
            instruction.dst.unwrap(),
            group_two_op(instruction.reg_bits % 8),
        ),
        r is Err ==> final(comp)@ == old(comp)@,
        final(comp).hooks() == old(comp).hooks(),
{
    let op = match instruction.reg_bits % 8 {
        0 => OpAction::Add,
        1 => OpAction::Or,
        2 => OpAction::Adc,
        3 => OpAction::Sbb,
        4 => OpAction::And,
        5 => OpAction::Sub,
        6 => OpAction::Xor,
        _ => OpAction::Cmp,
    };
    alu_two(comp, &instruction, op)
}

/// The one-operand arithmetic group behind TEST/NOT/NEG/MUL/IMUL/DIV/IDIV:
/// the reg-field bits select the operation. TEST needs a second operand that
/// this group's decode never supplies, so it reports a bad operand rather
/// than silently doing nothing; the one unassigned value falls through.
pub open spec fn spec_mul_group(a: Arch, i: Instruction) -> Option<Arch> {
    let rb = i.reg_bits % 8;
    if rb == 0 {
        if i.src is Some && i.dst is Some {
            spec_alu_two(a, i.segment, i.src.unwrap(), i.dst.unwrap(), OpAction::Test)
        } else {
            None
        }
    } else if rb == 2 {
        if i.dst is Some {
            spec_not(a, i.segment, i.dst.unwrap())
        } else {
            None
        }
    } else if rb == 3 {
        if i.dst is Some {
            spec_neg(a, i.segment, i.dst.unwrap())
        } else {
            None
        }
    } else if rb == 4 {
        if i.dst is Some {
            spec_mul(a, i.segment, i.dst.unwrap())
        } else {
            None
        }
    } else if rb == 5 {
        if i.dst is Some {
            spec_imul(a, i.segment, i.dst.unwrap())
        } else {
            None
        }
    } else if rb == 6 {
        if i.dst is Some {
            spec_div(a, i.segment, i.dst.unwrap())
        } else {
            None
        }
    } else if rb == 7 {
        if i.dst is Some {
            spec_idiv(a, i.segment, i.dst.unwrap())
        } else {
            None
        }
    } else {
        Some(a)
    }
}

pub fn mul_dispatch(comp: &mut CPU, instruction: Instruction) -> (r: Result<usize, CpuErr>)
    ensures
        r is Ok <==> spec_mul_group(old(comp)@, instruction) is Some,
        r is Ok ==> Some(final(comp)@) == spec_mul_group(old(comp)@, instruction),
        r is Err ==> final(comp)@ == old(comp)@,
        final(comp).hooks() == old(comp).hooks(),
{
    match instruction.reg_bits % 8 {
        0 => alu_two(comp, &instruction, OpAction::Test),
        2 => crate::cpu::instruction::actions::alu::not(comp, instruction),
        3 => crate::cpu::instruction::actions::alu::neg(comp, instruction),
        4 => crate::cpu::instruction::actions::alu::mul(comp, instruction),
        5 => crate::cpu::instruction::actions::alu::imul(comp, instruction),
        6 => crate::cpu::instruction::actions::alu::div(comp, instruction),
        7 => crate::cpu::instruction::actions::alu::idiv(comp, instruction),
        _ => Ok(0),
    }
}

/// The rotate-and-shift group: the reg-field bits select which of ROL, ROR,
/// RCL, RCR, SAL, SHR or SAR runs; the unassigned value falls through.
pub open spec fn spec_rotate_group(a: Arch, i: Instruction) -> Option<Arch> {
    let rb = i.reg_bits % 8;
    if rb == 6 {
        Some(a)
    } else {
        let op = if rb == 0 {
            OpAction::Rol
        } else if rb == 1 {
            OpAction::Ror
        } else if rb == 2 {
            OpAction::Rcl
        } else if rb == 3 {
            OpAction::Rcr
        } else if rb == 4 {
            OpAction::Sal
        } else if rb == 5 {
            OpAction::Shr
        } else {
            OpAction::Sar
        };
        if i.src is Some && i.dst is Some {
            spec_rotate(a, i.segment, i.src.unwrap(), i.dst.unwrap(), op)
        } else {
            None
        }
    }
}

pub fn rotate_dispatch(comp: &mut CPU, instruction: Instruction) -> (r: Result<usize, CpuErr>)
    ensures
        r is Ok <==> spec_rotate_group(old(comp)@, instruction) is Some,
        r is Ok ==> Some(final(comp)@) == spec_rotate_group(old(comp)@, instruction),
        r is Err ==> final(comp)@ == old(comp)@,
        final(comp).hooks() == old(comp).hooks(),
{
    let op = match instruction.reg_bits % 8 {
        0 => OpAction::Rol,
        1 => OpAction::Ror,
        2 => OpAction::Rcl,
        3 => OpAction::Rcr,
        4 => OpAction::Sal,
        5 => OpAction::Shr,
        7 => OpAction::Sar,
        _ => {
            return Ok(0);
        },
    };
    rotate_op(comp, &instruction, op)
}


/// Applies the comparison's flag updates for a byte-wide compare.
pub(crate) fn apply_cmp_flags8(comp: &mut CPU, x: u8, y: u8, cf: bool, res: u8)
    ensures
        final(comp)@ == alu_flags8(old(comp)@, OpAction::Cmp, x, y, cf, res),
        final(comp).hooks() == old(comp).hooks(),
{
    apply_flags8(comp, OpAction::Cmp, x, y, cf, res);
}

/// Applies the comparison's flag updates for a word-wide compare.
pub(crate) fn apply_cmp_flags16(comp: &mut CPU, x: u16, y: u16, cf: bool, res: u16)
    ensures
        final(comp)@ == alu_flags16(old(comp)@, OpAction::Cmp, x, y, cf, res),
        final(comp).hooks() == old(comp).hooks(),
{
    apply_flags16(comp, OpAction::Cmp, x, y, cf, res);
}


/// The one-operand group behind INC/DEC/CALL/JMP/PUSH: the reg-field bits
/// select the operation; the value nothing is assigned to falls through.
pub open spec fn spec_alu_group_one(a: Arch, i: Instruction) -> Option<Arch> {
    let rb = i.reg_bits % 8;
    if i.dst is None {
        if rb == 7 {
            Some(a)
        } else {
            None
        }
    } else {
        let dst = i.dst.unwrap();
        if rb == 0 {
            spec_inc_dec(a, i.segment, dst, true)
        } else if rb == 1 {
            spec_inc_dec(a, i.segment, dst, false)
        } else if rb == 2 {
            crate::cpu::instruction::actions::stack::spec_near_call(a, i.segment, dst)
        } else if rb == 3 {
            crate::cpu::instruction::actions::stack::spec_far_call(a, i.segment, dst)
        } else if rb == 4 {
            crate::cpu::instruction::actions::jmp::spec_jmp(a, i.segment, dst)
        } else if rb == 5 {
            crate::cpu::instruction::actions::jmp::spec_jmp_far(a, i.segment, dst)
        } else if rb == 6 {
            crate::cpu::instruction::actions::stack::spec_push(a, i.segment, dst)
        } else {
            Some(a)
        }
    }
}

pub fn alu_dispatch_one_arg(comp: &mut CPU, instruction: Instruction) -> (r: Result<usize, CpuErr>)
    ensures
        r is Ok <==> spec_alu_group_one(old(comp)@, instruction) is Some,
        r is Ok ==> Some(final(comp)@) == spec_alu_group_one(old(comp)@, instruction),
        final(comp).hooks() == old(comp).hooks(),
{
    if instruction.dst.is_none() {
        if instruction.reg_bits % 8 == 7 {
            return Ok(0);
        } else {
            return Err(CpuErr::BadOperand);
        }
    }
    match instruction.reg_bits % 8 {
        0 => crate::cpu::instruction::actions::alu::inc(comp, instruction),
        1 => crate::cpu::instruction::actions::alu::dec(comp, instruction),
        2 => crate::cpu::instruction::actions::stack::near_call(comp, instruction),
        3 => crate::cpu::instruction::actions::stack::far_call(comp, instruction),
        4 => crate::cpu::instruction::actions::jmp::jmp(comp, instruction),
        5 => crate::cpu::instruction::actions::jmp::jmp_far(comp, instruction),
        6 => crate::cpu::instruction::actions::stack::push(comp, instruction),
        _ => Ok(0),
    }
}


/// The mnemonic of the operation the reg-field bits select in the
/// two-operand group.
pub fn alu_dispatch_two_args_mnemonic(reg_bits: u8) -> (r: Option<String>)
    ensures
        reg_bits == 0 ==> r is Some && r.unwrap()@ == "ADD"@,
        reg_bits == 1 ==> r is Some && r.unwrap()@ == "OR"@,
        reg_bits == 2 ==> r is Some && r.unwrap()@ == "ADC"@,
        reg_bits == 3 ==> r is Some && r.unwrap()@ == "SBB"@,
        reg_bits == 4 ==> r is Some && r.unwrap()@ == "AND"@,
        reg_bits == 5 ==> r is Some && r.unwrap()@ == "SUB"@,
        reg_bits == 6 ==> r is Some && r.unwrap()@ == "XOR"@,
        reg_bits == 7 ==> r is Some && r.unwrap()@ == "CMP"@,
        reg_bits >= 8 ==> r is None,
{
    match reg_bits {
        0 => Some(String::from_str("ADD")),
        1 => Some(String::from_str("OR")),
        2 => Some(String::from_str("ADC")),
        3 => Some(String::from_str("SBB")),
        4 => Some(String::from_str("AND")),
        5 => Some(String::from_str("SUB")),
        6 => Some(String::from_str("XOR")),
        7 => Some(String::from_str("CMP")),
        _ => None,
    }
}

/// The mnemonic of the operation the reg-field bits select in the
/// one-operand group.
pub fn alu_dispatch_one_arg_mnemonic(reg_bits: u8) -> (r: Option<String>)
    ensures
        reg_bits == 0 ==> r is Some && r.unwrap()@ == "INC"@,
        reg_bits == 1 ==> r is Some && r.unwrap()@ == "DEC"@,
        reg_bits == 2 || reg_bits == 3 ==> r is Some && r.unwrap()@ == "CALL"@,
        reg_bits == 4 || reg_bits == 5 ==> r is Some && r.unwrap()@ == "JMP"@,
        reg_bits == 6 ==> r is Some && r.unwrap()@ == "PUSH"@,
        reg_bits >= 7 ==> r is None,
{
    match reg_bits {
        0 => Some(String::from_str("INC")),
        1 => Some(String::from_str("DEC")),
        2 => Some(String::from_str("CALL")),
        3 => Some(String::from_str("CALL")),
        4 => Some(String::from_str("JMP")),
        5 => Some(String::from_str("JMP")),
        6 => Some(String::from_str("PUSH")),
        _ => None,
    }
}

/// The mnemonic of the operation the reg-field bits select in the multiply
/// group.
pub fn mul_dispatch_mnemonic(reg_bits: u8) -> (r: Option<String>)
    ensures
        reg_bits == 0 ==> r is Some && r.unwrap()@ == "TEST"@,
        reg_bits == 2 ==> r is Some && r.unwrap()@ == "NOT"@,
        reg_bits == 3 ==> r is Some && r.unwrap()@ == "NEG"@,
        reg_bits == 4 ==> r is Some && r.unwrap()@ == "MUL"@,
        reg_bits == 5 ==> r is Some && r.unwrap()@ == "IMUL"@,
        reg_bits == 6 ==> r is Some && r.unwrap()@ == "DIV"@,
        reg_bits == 7 ==> r is Some && r.unwrap()@ == "IDIV"@,
        reg_bits == 1 || reg_bits >= 8 ==> r is None,
{
    match reg_bits {
        0 => Some(String::from_str("TEST")),
        2 => Some(String::from_str("NOT")),
        3 => Some(String::from_str("NEG")),
        4 => Some(String::from_str("MUL")),
        5 => Some(String::from_str("IMUL")),
        6 => Some(String::from_str("DIV")),
        7 => Some(String::from_str("IDIV")),
        _ => None,
    }
}

/// The mnemonic of the operation the reg-field bits select in the rotate
/// group.
pub fn rotate_dispatch_mnemonic(reg_bits: u8) -> (r: Option<String>)
    ensures
        reg_bits == 0 ==> r is Some && r.unwrap()@ == "ROL"@,
        reg_bits == 1 ==> r is Some && r.unwrap()@ == "ROR"@,
        reg_bits == 2 ==> r is Some && r.unwrap()@ == "RCL"@,
        reg_bits == 3 ==> r is Some && r.unwrap()@ == "RCR"@,
        reg_bits == 4 ==> r is Some && r.unwrap()@ == "SAL"@,
        reg_bits == 5 ==> r is Some && r.unwrap()@ == "SHR"@,
        reg_bits == 7 ==> r is Some && r.unwrap()@ == "SAR"@,
        reg_bits == 6 || reg_bits >= 8 ==> r is None,
{
    match reg_bits {
        0 => Some(String::from_str("ROL")),
        1 => Some(String::from_str("ROR")),
        2 => Some(String::from_str("RCL")),
        3 => Some(String::from_str("RCR")),
        4 => Some(String::from_str("SAL")),
        5 => Some(String::from_str("SHR")),
        7 => Some(String::from_str("SAR")),
        _ => None,
    }
}

pub fn add_mnemonic(_reg_bits: u8) -> (r: Option<String>)
    ensures
        r is Some && r.unwrap()@ == "ADD"@,
{
    Some(String::from_str("ADD"))
}

pub fn adc_mnemonic(_reg_bits: u8) -> (r: Option<String>)
    ensures
        r is Some && r.unwrap()@ == "ADC"@,
{
    Some(String::from_str("ADC"))
}

pub fn sub_mnemonic(_reg_bits: u8) -> (r: Option<String>)
    ensures
        r is Some && r.unwrap()@ == "SUB"@,
{
    Some(String::from_str("SUB"))
}

pub fn and_mnemonic(_reg_bits: u8) -> (r: Option<String>)
    ensures
        r is Some && r.unwrap()@ == "AND"@,
{
    Some(String::from_str("AND"))
}

pub fn or_mnemonic(_reg_bits: u8) -> (r: Option<String>)
    ensures
        r is Some && r.unwrap()@ == "OR"@,
{
    Some(String::from_str("OR"))
}

pub fn xor_mnemonic(_reg_bits: u8) -> (r: Option<String>)
    ensures
        r is Some && r.unwrap()@ == "XOR"@,
{
    Some(String::from_str("XOR"))
}

pub fn inc_mnemonic(_reg_bits: u8) -> (r: Option<String>)
    ensures
        r is Some && r.unwrap()@ == "INC"@,
{
    Some(String::from_str("INC"))
}

pub fn dec_mnemonic(_reg_bits: u8) -> (r: Option<String>)
    ensures
        r is Some && r.unwrap()@ == "DEC"@,
{
    Some(String::from_str("DEC"))
}

pub fn aaa_mnemonic(_reg_bits: u8) -> (r: Option<String>)
    ensures
        r is Some && r.unwrap()@ == "AAA"@,
{
    Some(String::from_str("AAA"))
}

pub fn aad_mnemonic(_reg_bits: u8) -> (r: Option<String>)
    ensures
        r is Some && r.unwrap()@ == "AAD"@,
{
    Some(String::from_str("AAD"))
}

pub fn aas_mnemonic(_reg_bits: u8) -> (r: Option<String>)
    ensures
        r is Some && r.unwrap()@ == "AAS"@,
{
    Some(String::from_str("AAS"))
}

pub fn daa_mnemonic(_reg_bits: u8) -> (r: Option<String>)
    ensures
        r is Some && r.unwrap()@ == "DAA"@,
{
    Some(String::from_str("DAA"))
}

} // verus!
