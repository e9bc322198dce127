use vstd::prelude::*;

pub mod alu;
pub mod flags;
pub mod interrupt;
pub mod io;
pub mod jmp;
pub mod mem;
pub mod stack;

use crate::cpu::{CPU, CPUFlags, CpuErr, Regs};
use crate::cpu::exceptions;
use crate::cpu::model::Arch;
use crate::cpu::reg::{high_byte, low_byte, word_of};
use crate::cpu::instruction::Instruction;
use crate::cpu::instruction::args::DstArg;
use crate::cpu::instruction::opcode::OpAction;

verus! {

/// How deep an action's synthetic sub-instructions can nest: the repeat
/// prefixes re-invoke a wrapped string opcode, everything else stands alone.
pub open spec fn action_rank(op: OpAction) -> int {
    match op {
        OpAction::Rep => 1,
        OpAction::Repne => 1,
        _ => 0,
    }
}

/// The behaviors whose outcome a peripheral co-decides: a port read hands
/// back whatever the device chooses, and a repeat prefix may wrap a
/// port-string opcode. Every other action is a function of the machine
/// state alone.
pub open spec fn is_device_dependent(op: OpAction) -> bool {
    match op {
        OpAction::In => true,
        OpAction::Ins => true,
        OpAction::Rep => true,
        OpAction::Repne => true,
        _ => false,
    }
}

/// Executing one instruction, as a mathematical function of the machine
/// state, the I/O hook table, and the instruction itself: the state after,
/// or nothing where the operands cannot be resolved, combined or written, a
/// memory operand is out of bounds, or an unhooked port is addressed. The
/// device-co-decided behaviors (port reads and the repeat prefixes) are not
/// given by this function; the executor's contract covers them separately.
#[verifier::opaque]
pub open spec fn spec_exec(a: Arch, hooks: Seq<(u16, usize)>, i: Instruction) -> Option<Arch> {
    let seg = i.segment;
    match i.action {
        OpAction::Nop => Some(a),
        OpAction::SegmentPrefix(_) => Some(a),
        OpAction::Mov => match (i.src, i.dst) {
            (Some(s), Some(d)) => mem::spec_mov(a, seg, s, d),
            _ => None,
        },
        OpAction::Cbw => Some(
            a.with_reg(Regs::AX, crate::cpu::model::spec_sign_extend(low_byte(a.ax))),
        ),
        OpAction::Cdw => Some(
            a.with_reg(
                Regs::DX,
                if a.ax >= 0x8000 {
                    0xFFFFu16
                } else {
                    0u16
                },
            ),
        ),
        OpAction::Lds => match (i.src, i.dst) {
            (Some(s), Some(d)) => mem::spec_load_wide(a, seg, s, d, Regs::DS),
            _ => None,
        },
        OpAction::Les => match (i.src, i.dst) {
            (Some(s), Some(d)) => mem::spec_load_wide(a, seg, s, d, Regs::ES),
            _ => None,
        },
        OpAction::Lea => match (i.src, i.dst) {
            (Some(s), Some(d)) => mem::spec_lea(a, seg, s, d),
            _ => None,
        },
        OpAction::Xchg => match (i.src, i.dst) {
            (Some(s), Some(d)) => mem::spec_xchg(a, seg, s, d),
            _ => None,
        },
        OpAction::Xlat => mem::spec_xlat(a, seg),
        OpAction::Add | OpAction::Adc | OpAction::Sub | OpAction::Sbb | OpAction::And
            | OpAction::Or | OpAction::Xor | OpAction::Cmp | OpAction::Test => match (
            i.src,
            i.dst,
        ) {
            (Some(s), Some(d)) => alu::spec_alu_two(a, seg, s, d, i.action),
            _ => None,
        },
        OpAction::Not => match i.dst {
            Some(d) => alu::spec_not(a, seg, d),
            None => None,
        },
        OpAction::Neg => match i.dst {
            Some(d) => alu::spec_neg(a, seg, d),
            None => None,
        },
        OpAction::Inc => match i.dst {
            Some(d) => alu::spec_inc_dec(a, seg, d, true),
            None => None,
        },
        OpAction::Dec => match i.dst {
            Some(d) => alu::spec_inc_dec(a, seg, d, false),
            None => None,
        },
        OpAction::Mul => match i.dst {
            Some(d) => alu::spec_mul(a, seg, d),
            None => None,
        },
        OpAction::Imul => match i.dst {
            Some(d) => alu::spec_imul(a, seg, d),
            None => None,
        },
        OpAction::Div => match i.dst {
            Some(d) => alu::spec_div(a, seg, d),
            None => None,
        },
        OpAction::Idiv => match i.dst {
            Some(d) => alu::spec_idiv(a, seg, d),
            None => None,
        },
        OpAction::Aaa => Some(alu::spec_aaa(a)),
        OpAction::Aas => Some(alu::spec_aas(a)),
        OpAction::Daa => Some(alu::spec_daa(a)),
        OpAction::Aad => Some(alu::spec_aad(a, i.dst)),
        OpAction::Rol | OpAction::Ror | OpAction::Rcl | OpAction::Rcr | OpAction::Sal
            | OpAction::Shr | OpAction::Sar => match (i.src, i.dst) {
            (Some(s), Some(d)) => alu::spec_rotate(a, seg, s, d, i.action),
            _ => None,
        },
        OpAction::Push => match i.dst {
            Some(d) => stack::spec_push(a, seg, d),
            None => None,
        },
        OpAction::Pop => match i.dst {
            Some(d) => stack::spec_pop(a, seg, d),
            None => None,
        },
        OpAction::NearCall => match i.dst {
            Some(d) => stack::spec_near_call(a, seg, d),
            None => None,
        },
        OpAction::FarCall => match i.dst {
            Some(d) => stack::spec_far_call(a, seg, d),
            None => None,
        },
        OpAction::NearRet => stack::spec_near_ret(a, i.dst),
        OpAction::FarRet => stack::spec_far_ret(a, i.dst),
        OpAction::Enter => stack::spec_enter_i(a, i.dst, i.src),
        OpAction::Leave => stack::spec_leave(a),
        OpAction::Jmp => match i.dst {
            Some(d) => jmp::spec_jmp(a, seg, d),
            None => None,
        },
        OpAction::JmpFar => match i.dst {
            Some(d) => jmp::spec_jmp_far(a, seg, d),
            None => None,
        },
        OpAction::CondJmp(c) => if !jmp::spec_condition(a, c) {
            Some(a)
        } else {
            match i.dst {
                Some(d) => jmp::spec_jmp(a, seg, d),
                None => None,
            }
        },
        OpAction::LoopJmp(k) => jmp::spec_loop(a, seg, i.dst, k),
        OpAction::IntReq => match i.dst {
            Some(d) => interrupt::spec_int_req(a, seg, d),
            None => None,
        },
        OpAction::Into => if a.flag_set(CPUFlags::OVERFLOW) {
            a.spec_except(exceptions::INTO)
        } else {
            Some(a)
        },
        OpAction::Iret => interrupt::spec_iret(a),
        OpAction::Bound => match (i.src, i.dst) {
            (Some(s), Some(d)) => interrupt::spec_bound(a, seg, s, d),
            _ => None,
        },
        OpAction::Clc => Some(a.with_flag(CPUFlags::CARRY, false)),
        OpAction::Stc => Some(a.with_flag(CPUFlags::CARRY, true)),
        OpAction::Cli => Some(a.with_flag(CPUFlags::INTERRUPT, false)),
        OpAction::Sti => Some(a.with_flag(CPUFlags::INTERRUPT, true)),
        OpAction::Cld => Some(a.with_flag(CPUFlags::DIRECTION, false)),
        OpAction::Std => Some(a.with_flag(CPUFlags::DIRECTION, true)),
        OpAction::Cmc => Some(a.with_flag(CPUFlags::CARRY, !a.flag_set(CPUFlags::CARRY))),
        OpAction::Lahf => Some(
            a.with_reg(Regs::AX, word_of(low_byte(a.flags), low_byte(a.ax))),
        ),
        OpAction::Sahf => Some(
            a.with_reg(Regs::FLAGS, word_of(high_byte(a.flags), high_byte(a.ax))),
        ),
        OpAction::Movs => match i.dst {
            Some(d) => mem::spec_movs(a, seg, d),
            None => None,
        },
        OpAction::Cmps => match i.dst {
            Some(d) => flags::spec_cmps(a, seg, d),
            None => None,
        },
        OpAction::Scas => match i.dst {
            Some(d) => flags::spec_scas(a, seg, d),
            None => None,
        },
        OpAction::Lods => match i.dst {
            Some(d) => mem::spec_lods(a, seg, d),
            None => None,
        },
        OpAction::Stos => match i.dst {
            Some(d) => mem::spec_stos(a, seg, d),
            None => None,
        },
        OpAction::Out => match (i.src, i.dst) {
            (Some(s), Some(d)) => if io::spec_out_ok(a, hooks, seg, s, d) {
                Some(a)
            } else {
                None
            },
            _ => None,
        },
        OpAction::Outs => match i.dst {
            Some(d) => io::spec_outs(a, hooks, seg, d),
            None => None,
        },
        OpAction::In => None,
        OpAction::Ins => None,
        OpAction::Rep => None,
        OpAction::Repne => None,
        OpAction::AluGroupTwo => match (i.src, i.dst) {
            (Some(s), Some(d)) => alu::spec_alu_two(
                a,
                seg,
                s,
                d,
                alu::group_two_op((i.reg_bits % 8) as u8),
            ),
            _ => None,
        },
        OpAction::AluGroupOne => alu::spec_alu_group_one(a, i),
        OpAction::MulGroup => alu::spec_mul_group(a, i),
        OpAction::RotateGroup => alu::spec_rotate_group(a, i),
    }
}

impl Instruction {
    /// Executes this instruction's behavior against the machine: one match
    /// away from the opcode table's action kind to the function that carries
    /// that operation's contract. For every behavior the machine state alone
    /// decides, the run succeeds exactly when the execution function applies
    /// and leaves exactly the state it gives; the device-co-decided
    /// behaviors keep the weaker promises their own contracts state.
    pub fn exec(self, comp: &mut CPU) -> (r: Result<usize, CpuErr>)
        ensures
            final(comp).hooks() == old(comp).hooks(),
            !is_device_dependent(self.action) ==> (r is Ok <==> spec_exec(
                old(comp)@,
                old(comp).hooks(),
                self,
            ) is Some),
            (!is_device_dependent(self.action) && r is Ok) ==> Some(final(comp)@) == spec_exec(
                old(comp)@,
                old(comp).hooks(),
                self,
            ),
        decreases action_rank(self.action), 3int,
    {
        proof {
            reveal(crate::cpu::instruction::actions::spec_exec);
        }
        let res = match self.action {
            OpAction::Nop => mem::nop(comp, self),
            OpAction::Mov => mem::mov(comp, self),
            OpAction::Cbw => mem::cbw(comp, self),
            OpAction::Cdw => mem::cdw(comp, self),
            OpAction::Lds => mem::lds(comp, self),
            OpAction::Les => mem::les(comp, self),
            OpAction::Lea => mem::lea(comp, self),
            OpAction::Xchg => mem::xchg(comp, self),
            OpAction::Xlat => mem::xlat(comp, self),
            OpAction::Add => alu::add(comp, self),
            OpAction::Adc => alu::adc(comp, self),
            OpAction::Sub => alu::sub(comp, self),
            OpAction::Sbb => alu::sbb(comp, self),
            OpAction::And => alu::and(comp, self),
            OpAction::Or => alu::or(comp, self),
            OpAction::Xor => alu::xor(comp, self),
            OpAction::Cmp => flags::cmp(comp, self),
            OpAction::Test => flags::test(comp, self),
            OpAction::Not => alu::not(comp, self),
            OpAction::Neg => alu::neg(comp, self),
            OpAction::Inc => alu::inc(comp, self),
            OpAction::Dec => alu::dec(comp, self),
            OpAction::Mul => alu::mul(comp, self),
            OpAction::Imul => alu::imul(comp, self),
            OpAction::Div => alu::div(comp, self),
            OpAction::Idiv => alu::idiv(comp, self),
            OpAction::Aaa => alu::aaa(comp, self),
            OpAction::Aad => alu::aad(comp, self),
            OpAction::Aas => alu::aas(comp, self),
            OpAction::Daa => alu::daa(comp, self),
            OpAction::Rol => alu::rol(comp, self),
            OpAction::Ror => alu::ror(comp, self),
            OpAction::Rcl => alu::rcl(comp, self),
            OpAction::Rcr => alu::rcr(comp, self),
            OpAction::Sal => alu::sal(comp, self),
            OpAction::Shr => alu::shr(comp, self),
            OpAction::Sar => alu::sar(comp, self),
            OpAction::Push => stack::push(comp, self),
            OpAction::Pop => stack::pop(comp, self),
            OpAction::NearCall => stack::near_call(comp, self),
            OpAction::FarCall => stack::far_call(comp, self),
            OpAction::NearRet => stack::near_ret(comp, self),
            OpAction::FarRet => stack::far_ret(comp, self),
            OpAction::Enter => stack::enter(comp, self),
            OpAction::Leave => stack::leave(comp, self),
            OpAction::Jmp => jmp::jmp(comp, self),
            OpAction::JmpFar => jmp::jmp_far(comp, self),
            OpAction::CondJmp(c) => jmp::cond_jmp(comp, self, c),
            OpAction::LoopJmp(k) => jmp::lop(comp, self, k),
            OpAction::IntReq => interrupt::int_req(comp, self),
            OpAction::Into => interrupt::into(comp, self),
            OpAction::Iret => interrupt::iret(comp, self),
            OpAction::Bound => interrupt::bound(comp, self),
            OpAction::Clc => flags::clc(comp, self),
            OpAction::Stc => flags::stc(comp, self),
            OpAction::Cli => flags::cli(comp, self),
            OpAction::Sti => flags::sti(comp, self),
            OpAction::Cld => flags::cld(comp, self),
            OpAction::Std => flags::std_action(comp, self),
            OpAction::Cmc => flags::cmc(comp, self),
            OpAction::Lahf => flags::lahf(comp, self),
            OpAction::Sahf => flags::sahf(comp, self),
            OpAction::Movs => mem::movs(comp, self),
            OpAction::Cmps => flags::cmps(comp, self),
            OpAction::Scas => flags::scas(comp, self),
            OpAction::Lods => mem::lods(comp, self),
            OpAction::Stos => mem::stos(comp, self),
            OpAction::In => io::in_action(comp, self),
            OpAction::Out => io::out(comp, self),
            OpAction::Ins => io::ins(comp, self),
            OpAction::Outs => io::outs(comp, self),
            OpAction::Rep => io::rep(comp, self),
            OpAction::Repne => io::repne(comp, self),
            OpAction::AluGroupTwo => alu::alu_dispatch_two_args(comp, self),
            OpAction::AluGroupOne => alu::alu_dispatch_one_arg(comp, self),
            OpAction::MulGroup => alu::mul_dispatch(comp, self),
            OpAction::RotateGroup => alu::rotate_dispatch(comp, self),
            OpAction::SegmentPrefix(_) => Ok(0),
        };
        res
    }
}

} // verus!
