use vstd::prelude::*;

pub mod actions;
pub mod args;
pub mod opcode;

use vstd::string::StringExecFns;
use crate::cpu::{CpuErr, Regs};
use crate::cpu::reg::word_of;
use args::{DstArg, Size};
use opcode::{NumArgs, Opcode, OpcodeFlags, OpAction, Placeholder};

verus! {

/// The decoder's output: one self-contained, re-executable instruction with
/// resolved operand locations, the segment it will address memory through,
/// the ModRM reg-field bits for sub-dispatch, the byte length consumed and
/// the cycle cost of the fetch.
#[derive(Copy, Clone, PartialEq, Eq, Debug)]
pub struct Instruction {
    pub flags: u16,
    pub segment: Regs,
    pub action: OpAction,
    pub src: Option<DstArg>,
    pub dst: Option<DstArg>,
    pub reg_bits: u8,
    pub length: u16,
    pub next_cycles: u16,
}

impl Instruction {
    /// A blank instruction: the starting point for the decoder and for
    /// synthetic sub-instructions that actions build by hand.
    pub fn new() -> (r: Instruction)
        ensures
            r == Instruction::blank(),
    {
        Instruction {
            flags: 0,
            segment: Regs::DS,
            action: OpAction::Nop,
            src: None,
            dst: None,
            reg_bits: 0,
            length: 0,
            next_cycles: 0,
        }
    }

    pub open spec fn blank() -> Instruction {
        Instruction {
            flags: 0,
            segment: Regs::DS,
            action: OpAction::Nop,
            src: None,
            dst: None,
            reg_bits: 0,
            length: 0,
            next_cycles: 0,
        }
    }

    /// True when the descriptor flag bits that decoded this instruction
    /// include the given mask.
    pub fn has_flag(&self, flag: u16) -> (r: bool)
        ensures
            r == (self.flags & flag != 0),
    {
        self.flags & flag != 0
    }
}

/// The byte at an absolute position in memory, if it lies inside.
pub open spec fn abs_byte(ram: Seq<u8>, pos: int) -> Option<u8> {
    if 0 <= pos < ram.len() {
        Some(ram[pos])
    } else {
        None
    }
}

/// The little-endian word at an absolute position in memory.
pub open spec fn abs_word(ram: Seq<u8>, pos: int) -> Option<u16> {
    match (abs_byte(ram, pos), abs_byte(ram, pos + 1)) {
        (Some(lo), Some(hi)) => Some(word_of(hi, lo)),
        _ => None,
    }
}

/// The little-endian double word at an absolute position in memory.
pub open spec fn abs_dword(ram: Seq<u8>, pos: int) -> Option<u32> {
    match (abs_word(ram, pos), abs_word(ram, pos + 2)) {
        (Some(lo), Some(hi)) => Some(((hi as int) * 0x10000 + lo) as u32),
        _ => None,
    }
}

/// Reads the byte at an absolute position, if it lies inside the memory.
pub fn read_byte_at(ram: &Vec<u8>, pos: usize) -> (r: Option<u8>)
    ensures
        r == abs_byte(ram@, pos as int),
{
    if pos < ram.len() {
        Some(ram[pos])
    } else {
        None
    }
}

/// Reads the little-endian word at an absolute position.
pub fn read_word_at(ram: &Vec<u8>, pos: usize) -> (r: Option<u16>)
    ensures
        r == abs_word(ram@, pos as int),
{
    if pos < ram.len() && pos + 1 < ram.len() {
        Some((ram[pos + 1] as u16) * 256 + (ram[pos] as u16))
    } else {
        None
    }
}

/// Reads the little-endian double word at an absolute position.
pub fn read_dword_at(ram: &Vec<u8>, pos: usize) -> (r: Option<u32>)
    requires
        pos + 4 <= usize::MAX,
    ensures
        r == abs_dword(ram@, pos as int),
{
    match (read_word_at(ram, pos), read_word_at(ram, pos + 2)) {
        (Some(lo), Some(hi)) => Some((hi as u32) * 0x10000 + (lo as u32)),
        _ => None,
    }
}

/// A resolved shorthand operand and the count of instruction-stream bytes
/// it consumed.
pub open spec fn spec_translate_shorthand(ram: Seq<u8>, pos: int, s: u8, ph: Placeholder) -> Option<
    (DstArg, int),
> {
    match ph {
        Placeholder::Reg8(r) => Some((DstArg::Reg8(r), 0)),
        Placeholder::Reg16(r) => Some((DstArg::Reg16(r), 0)),
        Placeholder::Reg(r) => Some((DstArg::spec_reg_to_arg(r, s), 0)),
        Placeholder::RegEnum(r) => Some((DstArg::Reg(r), 0)),
        Placeholder::Byte(v) => Some((DstArg::Imm8(v), 0)),
        Placeholder::Word(v) => Some((DstArg::Imm16(v), 0)),
        Placeholder::Imm => if s == 1 {
            match abs_word(ram, pos) {
                Some(w) => Some((DstArg::Imm16(w), 2)),
                None => None,
            }
        } else {
            match abs_byte(ram, pos) {
                Some(b) => Some((DstArg::Imm8(b), 1)),
                None => None,
            }
        },
        Placeholder::Ptr => match abs_word(ram, pos) {
            Some(w) => Some((DstArg::Ptr(w, Size::spec_from_s(s)), 2)),
            None => None,
        },
        Placeholder::Opcode => match abs_byte(ram, pos) {
            Some(b) => Some((DstArg::Opcode(b), 1)),
            None => None,
        },
    }
}

/// Resolves a shorthand operand at run time; gives the operand and the count
/// of bytes consumed.
pub fn translate_shorthand(ram: &Vec<u8>, pos: usize, s: u8, ph: Placeholder) -> (r: Option<
    (DstArg, usize),
>)
    requires
        s <= 2,
    ensures
        r is Some <==> spec_translate_shorthand(ram@, pos as int, s, ph) is Some,
        r is Some ==> Some((r.unwrap().0, r.unwrap().1 as int)) == spec_translate_shorthand(
            ram@,
            pos as int,
            s,
            ph,
        ),
{
    match ph {
        Placeholder::Reg8(r) => Some((DstArg::Reg8(r), 0)),
        Placeholder::Reg16(r) => Some((DstArg::Reg16(r), 0)),
        Placeholder::Reg(r) => Some((DstArg::reg_to_arg(r, s), 0)),
        Placeholder::RegEnum(r) => Some((DstArg::Reg(r), 0)),
        Placeholder::Byte(v) => Some((DstArg::Imm8(v), 0)),
        Placeholder::Word(v) => Some((DstArg::Imm16(v), 0)),
        Placeholder::Imm => if s == 1 {
            match read_word_at(ram, pos) {
                Some(w) => Some((DstArg::Imm16(w), 2)),
                None => None,
            }
        } else {
            match read_byte_at(ram, pos) {
                Some(b) => Some((DstArg::Imm8(b), 1)),
                None => None,
            }
        },
        Placeholder::Ptr => match read_word_at(ram, pos) {
            Some(w) => Some((DstArg::Ptr(w, Size::from_s(s)), 2)),
            None => None,
        },
        Placeholder::Opcode => match read_byte_at(ram, pos) {
            Some(b) => Some((DstArg::Opcode(b), 1)),
            None => None,
        },
    }
}

/// The fixed base-and-index register pair each ModRM `rm` value names.
pub open spec fn spec_rm_regs(rm_bits: u8) -> (Regs, Option<Regs>) {
    if rm_bits == 0 {
        (Regs::BX, Some(Regs::SI))
    } else if rm_bits == 1 {
        (Regs::BX, Some(Regs::DI))
    } else if rm_bits == 2 {
        (Regs::BP, Some(Regs::SI))
    } else if rm_bits == 3 {
        (Regs::BP, Some(Regs::DI))
    } else if rm_bits == 4 {
        (Regs::SI, None)
    } else if rm_bits == 5 {
        (Regs::DI, None)
    } else if rm_bits == 6 {
        (Regs::BP, None)
    } else {
        (Regs::BX, None)
    }
}

/// The register-or-memory operand a ModRM byte selects, with the count of
/// displacement bytes consumed.
pub open spec fn spec_translate_mod_rm(
    ram: Seq<u8>,
    pos: int,
    s: u8,
    mod_bits: u8,
    rm_bits: u8,
) -> Option<(DstArg, int)> {
    if mod_bits == 0 && rm_bits == 6 {
        match abs_word(ram, pos) {
            Some(w) => Some((DstArg::Ptr(w, Size::spec_from_s(s)), 2)),
            None => None,
        }
    } else if mod_bits == 3 {
        Some((DstArg::spec_reg_to_arg(rm_bits, s), 0))
    } else {
        let size = Size::spec_from_s(s);
        let pair = spec_rm_regs(rm_bits);
        match pair.1 {
            Some(reg2) => if mod_bits == 0 {
                Some((DstArg::RegPtrOff(pair.0, reg2, size), 0))
            } else if mod_bits == 1 {
                match abs_byte(ram, pos) {
                    Some(b) => Some((DstArg::RegPtrOffImm(pair.0, reg2, b as u16, size), 1)),
                    None => None,
                }
            } else {
                match abs_word(ram, pos) {
                    Some(w) => Some((DstArg::RegPtrOffImm(pair.0, reg2, w, size), 2)),
                    None => None,
                }
            },
            None => if mod_bits == 0 {
                Some((DstArg::RegPtr(pair.0, size), 0))
            } else if mod_bits == 1 {
                match abs_byte(ram, pos) {
                    Some(b) => Some((DstArg::RegPtrImm(pair.0, b as u16, size), 1)),
                    None => None,
                }
            } else {
                match abs_word(ram, pos) {
                    Some(w) => Some((DstArg::RegPtrImm(pair.0, w, size), 2)),
                    None => None,
                }
            },
        }
    }
}

/// Resolves a ModRM register-or-memory operand at run time.
pub fn translate_mod_rm(ram: &Vec<u8>, pos: usize, s: u8, mod_bits: u8, rm_bits: u8) -> (r: Option<
    (DstArg, usize),
>)
    requires
        s <= 2,
    ensures
        r is Some <==> spec_translate_mod_rm(ram@, pos as int, s, mod_bits, rm_bits) is Some,
        r is Some ==> Some((r.unwrap().0, r.unwrap().1 as int)) == spec_translate_mod_rm(
            ram@,
            pos as int,
            s,
            mod_bits,
            rm_bits,
        ),
{
    if mod_bits == 0 && rm_bits == 6 {
        match read_word_at(ram, pos) {
            Some(w) => Some((DstArg::Ptr(w, Size::from_s(s)), 2)),
            None => None,
        }
    } else if mod_bits == 3 {
        Some((DstArg::reg_to_arg(rm_bits, s), 0))
    } else {
        let size = Size::from_s(s);
        let (reg1, reg2_opt) = if rm_bits == 0 {
            (Regs::BX, Some(Regs::SI))
        } else if rm_bits == 1 {
            (Regs::BX, Some(Regs::DI))
        } else if rm_bits == 2 {
            (Regs::BP, Some(Regs::SI))
        } else if rm_bits == 3 {
            (Regs::BP, Some(Regs::DI))
        } else if rm_bits == 4 {
            (Regs::SI, None)
        } else if rm_bits == 5 {
            (Regs::DI, None)
        } else if rm_bits == 6 {
            (Regs::BP, None)
        } else {
            (Regs::BX, None)
        };
        match reg2_opt {
            Some(reg2) => if mod_bits == 0 {
                Some((DstArg::RegPtrOff(reg1, reg2, size), 0))
            } else if mod_bits == 1 {
                match read_byte_at(ram, pos) {
                    Some(b) => Some((DstArg::RegPtrOffImm(reg1, reg2, b as u16, size), 1)),
                    None => None,
                }
            } else {
                match read_word_at(ram, pos) {
                    Some(w) => Some((DstArg::RegPtrOffImm(reg1, reg2, w, size), 2)),
                    None => None,
                }
            },
            None => if mod_bits == 0 {
                Some((DstArg::RegPtr(reg1, size), 0))
            } else if mod_bits == 1 {
                match read_byte_at(ram, pos) {
                    Some(b) => Some((DstArg::RegPtrImm(reg1, b as u16, size), 1)),
                    None => None,
                }
            } else {
                match read_word_at(ram, pos) {
                    Some(w) => Some((DstArg::RegPtrImm(reg1, w, size), 2)),
                    None => None,
                }
            },
        }
    }
}

/// Builds the decoder's output record: the descriptor's flags, action and
/// chosen segment, the resolved operands, the reg-field bits, and the byte
/// length consumed, which is also the cycle cost of the fetch.
#[verifier::allow_in_spec]
pub fn make_inst(
    op: Opcode,
    segment: Regs,
    src: Option<DstArg>,
    dst: Option<DstArg>,
    reg_bits: u8,
    length: u16,
) -> Instruction
    returns (Instruction {
        flags: op.flags,
        segment,
        action: op.action,
        src,
        dst,
        reg_bits,
        length,
        next_cycles: length,
    })
{
    Instruction {
        flags: op.flags,
        segment,
        action: op.action,
        src,
        dst,
        reg_bits,
        length,
        next_cycles: length,
    }
}

/// A shorthand slot resolved: no placeholder gives no operand; a placeholder
/// that cannot be read fails the decode.
pub open spec fn spec_opt_shorthand(ram: Seq<u8>, pos: int, s: u8, ph: Option<Placeholder>) -> Option<
    (Option<DstArg>, int),
> {
    match ph {
        Some(p) => match spec_translate_shorthand(ram, pos, s, p) {
            Some((a, c)) => Some((Some(a), c)),
            None => None,
        },
        None => Some((None, 0)),
    }
}

pub fn opt_shorthand(ram: &Vec<u8>, pos: usize, s: u8, ph: Option<Placeholder>) -> (r: Option<
    (Option<DstArg>, usize),
>)
    requires
        s <= 2,
    ensures
        r is Some <==> spec_opt_shorthand(ram@, pos as int, s, ph) is Some,
        r is Some ==> Some((r.unwrap().0, r.unwrap().1 as int)) == spec_opt_shorthand(
            ram@,
            pos as int,
            s,
            ph,
        ),
{
    match ph {
        Some(p) => match translate_shorthand(ram, pos, s, p) {
            Some((a, c)) => Some((Some(a), c)),
            None => None,
        },
        None => Some((None, 0)),
    }
}

/// The opcode's `s` width selector after a resolved register operand has
/// fixed the width.
pub open spec fn spec_retrofit_s(arg: Option<DstArg>, s: u8) -> u8 {
    match arg {
        Some(DstArg::Reg8(_)) => 0,
        Some(DstArg::Reg16(_)) => 1,
        _ => s,
    }
}

/// Decode of an opcode whose operands the opcode byte itself implies.
/// Two immediate placeholders are read back to back; otherwise each
/// placeholder resolves in turn, the first may fix the operand width for the
/// second, and the direction bit or a direction flag assigns source and
/// destination.
pub open spec fn spec_decode_shorthand(
    ram: Seq<u8>,
    pos: int,
    op: Opcode,
    segment: Regs,
    d: u8,
    s: u8,
) -> Option<Instruction> {
    if op.shorthand1 == Some(Placeholder::Imm) && op.shorthand2 == Some(Placeholder::Imm) {
        if op.flags & OpcodeFlags::SIZE_MISMATCH != 0 {
            match (abs_word(ram, pos + 1), abs_byte(ram, pos + 3)) {
                (Some(w), Some(b)) => Some(
                    make_inst(
                        op,
                        segment,
                        Some(DstArg::Imm8(b)),
                        Some(DstArg::Imm16(w)),
                        0,
                        4,
                    ),
                ),
                _ => None,
            }
        } else if s == 0 {
            match (abs_byte(ram, pos + 1), abs_byte(ram, pos + 2)) {
                (Some(b1), Some(b2)) => Some(
                    make_inst(op, segment, Some(DstArg::Imm8(b2)), Some(DstArg::Imm8(b1)), 0, 3),
                ),
                _ => None,
            }
        } else {
            Some(make_inst(op, segment, None, None, 0, 1))
        }
    } else {
        match spec_opt_shorthand(ram, pos + 1, s, op.shorthand1) {
            None => None,
            Some((arg1, c1)) => {
                let s2 = spec_retrofit_s(arg1, s);
                match spec_opt_shorthand(ram, pos + 1 + c1, s2, op.shorthand2) {
                    None => None,
                    Some((arg2, c2)) => {
                        let one_arg = !(op.num_args is Two);
                        let swap = (d == 1 && op.flags & OpcodeFlags::IMMEDIATE == 0 && !one_arg
                            && op.flags & OpcodeFlags::FORCE_NOT_DIRECTION == 0) || op.flags
                            & OpcodeFlags::FORCE_DIRECTION != 0;
                        let src = if swap {
                            arg1
                        } else {
                            arg2
                        };
                        let dst = if swap {
                            arg2
                        } else {
                            arg1
                        };
                        Some(make_inst(op, segment, src, dst, 0, (1 + c1 + c2) as u16))
                    },
                }
            },
        }
    }
}

pub fn decode_shorthand(
    ram: &Vec<u8>,
    pos: usize,
    op: Opcode,
    segment: Regs,
    d: u8,
    s: u8,
) -> (r: Result<Instruction, CpuErr>)
    requires
        s <= 2,
        pos + 8 <= usize::MAX,
    ensures
        r is Ok <==> spec_decode_shorthand(ram@, pos as int, op, segment, d, s) is Some,
        r is Ok ==> Some(r.unwrap()) == spec_decode_shorthand(ram@, pos as int, op, segment, d, s),
{
    if op.shorthand1 == Some(Placeholder::Imm) && op.shorthand2 == Some(Placeholder::Imm) {
        if op.flags & OpcodeFlags::SIZE_MISMATCH != 0 {
            match (read_word_at(ram, pos + 1), read_byte_at(ram, pos + 3)) {
                (Some(w), Some(b)) => Ok(
                    make_inst(
                        op,
                        segment,
                        Some(DstArg::Imm8(b)),
                        Some(DstArg::Imm16(w)),
                        0,
                        4,
                    ),
                ),
                _ => Err(CpuErr::OutOfBounds),
            }
        } else if s == 0 {
            match (read_byte_at(ram, pos + 1), read_byte_at(ram, pos + 2)) {
                (Some(b1), Some(b2)) => Ok(
                    make_inst(op, segment, Some(DstArg::Imm8(b2)), Some(DstArg::Imm8(b1)), 0, 3),
                ),
                _ => Err(CpuErr::OutOfBounds),
            }
        } else {
            Ok(make_inst(op, segment, None, None, 0, 1))
        }
    } else {
        match opt_shorthand(ram, pos + 1, s, op.shorthand1) {
            None => Err(CpuErr::OutOfBounds),
            Some((arg1, c1)) => {
                let s2: u8 = match arg1 {
                    Some(DstArg::Reg8(_)) => 0,
                    Some(DstArg::Reg16(_)) => 1,
                    _ => s,
                };
                match opt_shorthand(ram, pos + 1 + c1, s2, op.shorthand2) {
                    None => Err(CpuErr::OutOfBounds),
                    Some((arg2, c2)) => {
                        let one_arg = !matches!(op.num_args, NumArgs::Two);
                        let swap = (d == 1 && op.flags & OpcodeFlags::IMMEDIATE == 0 && !one_arg
                            && op.flags & OpcodeFlags::FORCE_NOT_DIRECTION == 0) || op.flags
                            & OpcodeFlags::FORCE_DIRECTION != 0;
                        let src = if swap {
                            arg1
                        } else {
                            arg2
                        };
                        let dst = if swap {
                            arg2
                        } else {
                            arg1
                        };
                        Ok(make_inst(op, segment, src, dst, 0, (1 + c1 + c2) as u16))
                    },
                }
            },
        }
    }
}

/// Decode of a two-operand instruction through its ModRM byte: the
/// register-or-memory operand, then the second operand — an immediate sized
/// by the width selector and the size flags, or the register the reg-field
/// bits name — and the direction rule that assigns source and destination.
pub open spec fn spec_decode_two(
    ram: Seq<u8>,
    pos: int,
    op: Opcode,
    segment: Regs,
    d: u8,
    s: u8,
) -> Option<Instruction> {
    match abs_byte(ram, pos + 1) {
        None => None,
        Some(modrm) => {
            let mod_bits = (modrm / 64) as u8;
            let reg_bits = ((modrm / 8) % 8) as u8;
            let rm_bits = (modrm % 8) as u8;
            match spec_translate_mod_rm(ram, pos + 2, s, mod_bits, rm_bits) {
                None => None,
                Some((arg2, c2)) => {
                    let immediate = op.flags & OpcodeFlags::IMMEDIATE != 0;
                    let imm_pos = pos + 2 + c2;
                    let a1 = if immediate {
                        if op.flags & OpcodeFlags::FORCE_DWORD != 0 {
                            match abs_dword(ram, imm_pos) {
                                Some(dw) => Some((DstArg::Imm32(dw), 4int)),
                                None => None,
                            }
                        } else if ((s == 1 && op.flags & OpcodeFlags::SIZE_MISMATCH == 0) || op.flags
                            & OpcodeFlags::FORCE_WORD != 0) && op.flags & OpcodeFlags::FORCE_BYTE
                            == 0 {
                            match abs_word(ram, imm_pos) {
                                Some(w) => Some((DstArg::Imm16(w), 2int)),
                                None => None,
                            }
                        } else {
                            match abs_byte(ram, imm_pos) {
                                Some(b) => Some((DstArg::Imm8(b), 1int)),
                                None => None,
                            }
                        }
                    } else {
                        Some(
                            (DstArg::spec_reg_to_arg(
                                reg_bits,
                                if op.flags & OpcodeFlags::FORCE_DWORD != 0 {
                                    1
                                } else {
                                    s
                                },
                            ), 0int),
                        )
                    };
                    match a1 {
                        None => None,
                        Some((arg1, c1)) => {
                            let swap = op.flags & OpcodeFlags::FORCE_DIRECTION != 0 || (d == 1
                                && !immediate);
                            let src = if swap {
                                arg2
                            } else {
                                arg1
                            };
                            let dst = if swap {
                                arg1
                            } else {
                                arg2
                            };
                            Some(
                                make_inst(
                                    op,
                                    segment,
                                    Some(src),
                                    Some(dst),
                                    reg_bits,
                                    (2 + c2 + c1) as u16,
                                ),
                            )
                        },
                    }
                },
            }
        },
    }
}

pub fn decode_two(ram: &Vec<u8>, pos: usize, op: Opcode, segment: Regs, d: u8, s: u8) -> (r: Result<
    Instruction,
    CpuErr,
>)
    requires
        s <= 2,
        pos + 8 <= usize::MAX,
    ensures
        r is Ok <==> spec_decode_two(ram@, pos as int, op, segment, d, s) is Some,
        r is Ok ==> Some(r.unwrap()) == spec_decode_two(ram@, pos as int, op, segment, d, s),
{
    match read_byte_at(ram, pos + 1) {
        None => Err(CpuErr::OutOfBounds),
        Some(modrm) => {
            let mod_bits: u8 = modrm / 64;
            let reg_bits: u8 = (modrm / 8) % 8;
            let rm_bits: u8 = modrm % 8;
            match translate_mod_rm(ram, pos + 2, s, mod_bits, rm_bits) {
                None => Err(CpuErr::OutOfBounds),
                Some((arg2, c2)) => {
                    let immediate = op.flags & OpcodeFlags::IMMEDIATE != 0;
                    let imm_pos = pos + 2 + c2;
                    let a1: Option<(DstArg, usize)> = if immediate {
                        if op.flags & OpcodeFlags::FORCE_DWORD != 0 {
                            match read_dword_at(ram, imm_pos) {
                                Some(dw) => Some((DstArg::Imm32(dw), 4)),
                                None => None,
                            }
                        } else if ((s == 1 && op.flags & OpcodeFlags::SIZE_MISMATCH == 0) || op.flags
                            & OpcodeFlags::FORCE_WORD != 0) && op.flags & OpcodeFlags::FORCE_BYTE
                            == 0 {
                            match read_word_at(ram, imm_pos) {
                                Some(w) => Some((DstArg::Imm16(w), 2)),
                                None => None,
                            }
                        } else {
                            match read_byte_at(ram, imm_pos) {
                                Some(b) => Some((DstArg::Imm8(b), 1)),
                                None => None,
                            }
                        }
                    } else {
                        Some(
                            (DstArg::reg_to_arg(
                                reg_bits,
                                if op.flags & OpcodeFlags::FORCE_DWORD != 0 {
                                    1
                                } else {
                                    s
                                },
                            ), 0),
                        )
                    };
                    match a1 {
                        None => Err(CpuErr::OutOfBounds),
                        Some((arg1, c1)) => {
                            let swap = op.flags & OpcodeFlags::FORCE_DIRECTION != 0 || (d == 1
                                && !immediate);
                            let src = if swap {
                                arg2
                            } else {
                                arg1
                            };
                            let dst = if swap {
                                arg1
                            } else {
                                arg2
                            };
                            Ok(
                                make_inst(
                                    op,
                                    segment,
                                    Some(src),
                                    Some(dst),
                                    reg_bits,
                                    (2 + c2 + c1) as u16,
                                ),
                            )
                        },
                    }
                },
            }
        },
    }
}

/// Decode of a one-operand instruction: an immediate sized by the direction
/// bit and the size flags, or a register-or-memory operand through ModRM
/// whose reg-field bits select the operation within a group.
pub open spec fn spec_decode_one(
    ram: Seq<u8>,
    pos: int,
    op: Opcode,
    segment: Regs,
    d: u8,
    s: u8,
) -> Option<Instruction> {
    if op.flags & OpcodeFlags::IMMEDIATE != 0 {
        if op.flags & OpcodeFlags::FORCE_DWORD != 0 {
            match abs_dword(ram, pos + 1) {
                Some(dw) => Some(make_inst(op, segment, None, Some(DstArg::Imm32(dw)), 0, 5)),
                None => None,
            }
        } else if ((d == 0 && op.flags & OpcodeFlags::SIZE_MISMATCH == 0) || op.flags
            & OpcodeFlags::FORCE_WORD != 0) && op.flags & OpcodeFlags::FORCE_BYTE == 0 {
            match abs_word(ram, pos + 1) {
                Some(w) => Some(make_inst(op, segment, None, Some(DstArg::Imm16(w)), 0, 3)),
                None => None,
            }
        } else {
            match abs_byte(ram, pos + 1) {
                Some(b) => Some(make_inst(op, segment, None, Some(DstArg::Imm8(b)), 0, 2)),
                None => None,
            }
        }
    } else {
        match abs_byte(ram, pos + 1) {
            None => None,
            Some(modrm) => {
                let mod_bits = (modrm / 64) as u8;
                let reg_bits = ((modrm / 8) % 8) as u8;
                let rm_bits = (modrm % 8) as u8;
                match spec_translate_mod_rm(ram, pos + 2, s, mod_bits, rm_bits) {
                    None => None,
                    Some((arg, c)) => Some(
                        make_inst(op, segment, None, Some(arg), reg_bits, (2 + c) as u16),
                    ),
                }
            },
        }
    }
}

pub fn decode_one(ram: &Vec<u8>, pos: usize, op: Opcode, segment: Regs, d: u8, s: u8) -> (r: Result<
    Instruction,
    CpuErr,
>)
    requires
        s <= 2,
        pos + 8 <= usize::MAX,
    ensures
        r is Ok <==> spec_decode_one(ram@, pos as int, op, segment, d, s) is Some,
        r is Ok ==> Some(r.unwrap()) == spec_decode_one(ram@, pos as int, op, segment, d, s),
{
    if op.flags & OpcodeFlags::IMMEDIATE != 0 {
        if op.flags & OpcodeFlags::FORCE_DWORD != 0 {
            match read_dword_at(ram, pos + 1) {
                Some(dw) => Ok(make_inst(op, segment, None, Some(DstArg::Imm32(dw)), 0, 5)),
                None => Err(CpuErr::OutOfBounds),
            }
        } else if ((d == 0 && op.flags & OpcodeFlags::SIZE_MISMATCH == 0) || op.flags
            & OpcodeFlags::FORCE_WORD != 0) && op.flags & OpcodeFlags::FORCE_BYTE == 0 {
            match read_word_at(ram, pos + 1) {
                Some(w) => Ok(make_inst(op, segment, None, Some(DstArg::Imm16(w)), 0, 3)),
                None => Err(CpuErr::OutOfBounds),
            }
        } else {
            match read_byte_at(ram, pos + 1) {
                Some(b) => Ok(make_inst(op, segment, None, Some(DstArg::Imm8(b)), 0, 2)),
                None => Err(CpuErr::OutOfBounds),
            }
        }
    } else {
        match read_byte_at(ram, pos + 1) {
            None => Err(CpuErr::OutOfBounds),
            Some(modrm) => {
                let mod_bits: u8 = modrm / 64;
                let reg_bits: u8 = (modrm / 8) % 8;
                let rm_bits: u8 = modrm % 8;
                match translate_mod_rm(ram, pos + 2, s, mod_bits, rm_bits) {
                    None => Err(CpuErr::OutOfBounds),
                    Some((arg, c)) => Ok(
                        make_inst(op, segment, None, Some(arg), reg_bits, (2 + c) as u16),
                    ),
                }
            },
        }
    }
}

/// The decoder as a mathematical function of the memory contents alone:
/// given the bytes and a starting position, either exactly one decoded
/// instruction or a refusal. Segment-override prefixes recurse, carrying the
/// chosen segment into the decode of the prefixed opcode.
pub open spec fn spec_decode(ram: Seq<u8>, pos: int, seg_override: Option<Regs>) -> Option<
    Instruction,
>
    decreases ram.len() - pos,
{
    match abs_byte(ram, pos) {
        None => None,
        Some(code) => match opcode::spec_get_opcode(code) {
            None => None,
            Some(op) => {
                let segment = match seg_override {
                    Some(sr) => sr,
                    None => op.segment,
                };
                match op.action {
                    OpAction::SegmentPrefix(sr) => match spec_decode(ram, pos + 1, Some(sr)) {
                        Some(i) => Some(
                            Instruction {
                                length: crate::cpu::model::wadd(i.length, 1),
                                next_cycles: crate::cpu::model::wadd(i.next_cycles, 1),
                                ..i
                            },
                        ),
                        None => None,
                    },
                    _ => {
                        let d = ((code & 2) / 2) as u8;
                        let s = if op.flags & OpcodeFlags::FORCE_DWORD != 0 {
                            2u8
                        } else {
                            (code & 1) as u8
                        };
                        if op.shorthand1 is Some || op.shorthand2 is Some {
                            spec_decode_shorthand(ram, pos, op, segment, d, s)
                        } else {
                            match op.num_args {
                                NumArgs::Two => spec_decode_two(ram, pos, op, segment, d, s),
                                NumArgs::One => spec_decode_one(ram, pos, op, segment, d, s),
                                NumArgs::Zero => Some(make_inst(op, segment, None, None, 0, 1)),
                            }
                        }
                    },
                }
            },
        },
    }
}

/// Decodes the instruction whose first byte sits at the given absolute
/// position. Fails on a byte the opcode table does not describe and on an
/// instruction that runs past the end of memory; otherwise it returns
/// exactly what the decode function of the memory contents says.
pub fn decode_at(ram: &Vec<u8>, pos: usize, seg_override: Option<Regs>) -> (r: Result<
    Instruction,
    CpuErr,
>)
    requires
        ram@.len() + 8 <= usize::MAX,
    ensures
        r is Ok <==> spec_decode(ram@, pos as int, seg_override) is Some,
        r is Ok ==> Some(r.unwrap()) == spec_decode(ram@, pos as int, seg_override),
    decreases ram@.len() - pos,
{
    match read_byte_at(ram, pos) {
        None => Err(CpuErr::OutOfBounds),
        Some(code) => match opcode::get_opcode(code) {
            None => Err(CpuErr::UnknownOpcode),
            Some(op) => {
                let segment = match seg_override {
                    Some(sr) => sr,
                    None => op.segment,
                };
                match op.action {
                    OpAction::SegmentPrefix(sr) => match decode_at(ram, pos + 1, Some(sr)) {
                        Ok(i) => Ok(
                            Instruction {
                                length: crate::cpu::wrap_add(i.length, 1),
                                next_cycles: crate::cpu::wrap_add(i.next_cycles, 1),
                                ..i
                            },
                        ),
                        Err(e) => Err(e),
                    },
                    _ => {
                        let d: u8 = (code & 2) / 2;
                        let s: u8 = if op.flags & OpcodeFlags::FORCE_DWORD != 0 {
                            2
                        } else {
                            code & 1
                        };
                        assert(code & 1 <= 1) by (bit_vector);
                        if op.has_shorthand() {
                            decode_shorthand(ram, pos, op, segment, d, s)
                        } else {
                            match op.num_args {
                                NumArgs::Two => decode_two(ram, pos, op, segment, d, s),
                                NumArgs::One => decode_one(ram, pos, op, segment, d, s),
                                NumArgs::Zero => Ok(make_inst(op, segment, None, None, 0, 1)),
                            }
                        }
                    },
                }
            },
        },
    }
}

/// Decoding is a pure function of the memory contents it reads: two decodes
/// of the same bytes from the same position give the same instruction.
pub proof fn lemma_decode_deterministic(
    ram1: Seq<u8>,
    ram2: Seq<u8>,
    pos: int,
    seg_override: Option<Regs>,
)
    requires
        ram1 == ram2,
    ensures
        spec_decode(ram1, pos, seg_override) == spec_decode(ram2, pos, seg_override),
{
}

/// One decimal digit as text.
fn digit_text(d: u16) -> (r: &'static str)
{
    if d == 0 {
        "0"
    } else if d == 1 {
        "1"
    } else if d == 2 {
        "2"
    } else if d == 3 {
        "3"
    } else if d == 4 {
        "4"
    } else if d == 5 {
        "5"
    } else if d == 6 {
        "6"
    } else if d == 7 {
        "7"
    } else if d == 8 {
        "8"
    } else {
        "9"
    }
}

/// A 16-bit value rendered in decimal, for the diagnostic listings.
pub fn u16_to_text(v: u16) -> (r: String)
{
    let mut s = String::from_str("");
    if v == 0 {
        s.append("0");
        return s;
    }
    let mut div: u16 = 10000;
    let mut started = false;
    while div > 0
        decreases div,
    {
        let d = (v / div) % 10;
        if d != 0 || started || div == 1 {
            if d != 0 || started {
                started = true;
            }
            if started || div == 1 {
                s.append(digit_text(d));
            }
        }
        div = div / 10;
    }
    if !started {
        s.append("0");
    }
    s
}

/// The name of a register, for the diagnostic listings.
pub fn reg_text(r: Regs) -> (t: &'static str)
{
    match r {
        Regs::AX => "AX",
        Regs::BX => "BX",
        Regs::CX => "CX",
        Regs::DX => "DX",
        Regs::SI => "SI",
        Regs::DI => "DI",
        Regs::SP => "SP",
        Regs::BP => "BP",
        Regs::ES => "ES",
        Regs::CS => "CS",
        Regs::SS => "SS",
        Regs::DS => "DS",
        Regs::IP => "IP",
        Regs::FLAGS => "FLAGS",
    }
}

/// The name of a numbered 16-bit register.
fn reg16_text(n: u8) -> (t: &'static str)
{
    match n {
        0 => "AX",
        1 => "CX",
        2 => "DX",
        3 => "BX",
        4 => "SP",
        5 => "BP",
        6 => "SI",
        7 => "DI",
        _ => "",
    }
}

/// The name of a numbered 8-bit sub-register.
fn reg8_text(n: u8) -> (t: &'static str)
{
    match n {
        0 => "AL",
        1 => "CL",
        2 => "DL",
        3 => "BL",
        4 => "AH",
        5 => "CH",
        6 => "DH",
        7 => "BH",
        _ => "",
    }
}

fn size_text(s: Size) -> (t: &'static str)
{
    match s {
        Size::Byte => "byte",
        Size::Word => "word",
        Size::DWord => "dword",
    }
}

impl DstArg {
    /// This operand as the diagnostic listing writes it.
    pub fn to_text(&self) -> (t: String)
    {
        let mut s = String::from_str("");
        match self {
            DstArg::Reg8(n) => s.append(reg8_text(*n)),
            DstArg::Reg16(n) => s.append(reg16_text(*n)),
            DstArg::Imm8(v) => {
                let d = u16_to_text(*v as u16);
                s.append(d.as_str());
            },
            DstArg::Imm16(v) => {
                let d = u16_to_text(*v);
                s.append(d.as_str());
            },
            DstArg::Imm32(v) => {
                let hi = u16_to_text((*v / 0x10000) as u16);
                let lo = u16_to_text((*v % 0x10000) as u16);
                s.append(hi.as_str());
                s.append(":");
                s.append(lo.as_str());
            },
            DstArg::Ptr(off, size) => {
                s.append(size_text(*size));
                s.append(" [");
                let d = u16_to_text(*off);
                s.append(d.as_str());
                s.append("]");
            },
            DstArg::RegPtr(r, size) => {
                s.append(size_text(*size));
                s.append(" [");
                s.append(reg_text(*r));
                s.append("]");
            },
            DstArg::RegPtrImm(r, imm, size) => {
                s.append(size_text(*size));
                s.append(" [");
                s.append(reg_text(*r));
                s.append(" + ");
                let d = u16_to_text(*imm);
                s.append(d.as_str());
                s.append("]");
            },
            DstArg::RegPtrOff(r1, r2, size) => {
                s.append(size_text(*size));
                s.append(" [");
                s.append(reg_text(*r1));
                s.append(" + ");
                s.append(reg_text(*r2));
                s.append("]");
            },
            DstArg::RegPtrOffImm(r1, r2, imm, size) => {
                s.append(size_text(*size));
                s.append(" [");
                s.append(reg_text(*r1));
                s.append(" + ");
                s.append(reg_text(*r2));
                s.append(" + ");
                let d = u16_to_text(*imm);
                s.append(d.as_str());
                s.append("]");
            },
            DstArg::Reg(r) => s.append(reg_text(*r)),
            DstArg::Opcode(v) => {
                let d = u16_to_text(*v as u16);
                s.append(d.as_str());
            },
        }
        s
    }
}

/// The suffix a conditional jump's mnemonic carries for each condition code.
fn condition_text(cond: u8) -> (t: &'static str)
{
    if cond == 0 {
        "O"
    } else if cond == 1 {
        "NO"
    } else if cond == 2 {
        "B"
    } else if cond == 3 {
        "NB"
    } else if cond == 4 {
        "Z"
    } else if cond == 5 {
        "NZ"
    } else if cond == 6 {
        "BE"
    } else if cond == 7 {
        "A"
    } else if cond == 8 {
        "S"
    } else if cond == 9 {
        "NS"
    } else if cond == 10 {
        "P"
    } else if cond == 11 {
        "NP"
    } else if cond == 12 {
        "L"
    } else if cond == 13 {
        "GE"
    } else if cond == 14 {
        "LE"
    } else {
        "G"
    }
}

/// Whether an instruction's behavior has a mnemonic of its own: every plain
/// kind does, the grouped kinds only for the reg-field values an operation
/// is assigned to, and a bare segment prefix has none.
pub open spec fn spec_has_mnemonic(action: OpAction, reg_bits: u8) -> bool {
    match action {
        OpAction::SegmentPrefix(_) => false,
        OpAction::AluGroupTwo => reg_bits < 8,
        OpAction::AluGroupOne => reg_bits < 7,
        OpAction::MulGroup => reg_bits < 8 && reg_bits != 1,
        OpAction::RotateGroup => reg_bits < 8 && reg_bits != 6,
        _ => true,
    }
}

/// The mnemonic of an instruction's behavior, with the reg-field bits
/// picking within the grouped kinds.
pub fn mnemonic_text(action: OpAction, reg_bits: u8) -> (r: Option<String>)
    ensures
        r is Some <==> spec_has_mnemonic(action, reg_bits),
{
    match action {
        OpAction::Nop => actions::mem::nop_mnemonic(reg_bits),
        OpAction::Mov => actions::mem::mov_mnemonic(reg_bits),
        OpAction::Cbw => actions::mem::cbw_mnemonic(reg_bits),
        OpAction::Cdw => actions::mem::cdw_mnemonic(reg_bits),
        OpAction::Lds => actions::mem::lds_mnemonic(reg_bits),
        OpAction::Les => actions::mem::les_mnemonic(reg_bits),
        OpAction::Lea => actions::mem::lea_mnemonic(reg_bits),
        OpAction::Xchg => Some(String::from_str("XCHG")),
        OpAction::Xlat => Some(String::from_str("XLAT")),
        OpAction::Add => actions::alu::add_mnemonic(reg_bits),
        OpAction::Adc => actions::alu::adc_mnemonic(reg_bits),
        OpAction::Sub => actions::alu::sub_mnemonic(reg_bits),
        OpAction::Sbb => Some(String::from_str("SBB")),
        OpAction::And => actions::alu::and_mnemonic(reg_bits),
        OpAction::Or => actions::alu::or_mnemonic(reg_bits),
        OpAction::Xor => actions::alu::xor_mnemonic(reg_bits),
        OpAction::Cmp => actions::flags::cmp_mnemonic(reg_bits),
        OpAction::Test => Some(String::from_str("TEST")),
        OpAction::Not => Some(String::from_str("NOT")),
        OpAction::Neg => Some(String::from_str("NEG")),
        OpAction::Inc => actions::alu::inc_mnemonic(reg_bits),
        OpAction::Dec => actions::alu::dec_mnemonic(reg_bits),
        OpAction::Mul => Some(String::from_str("MUL")),
        OpAction::Imul => Some(String::from_str("IMUL")),
        OpAction::Div => Some(String::from_str("DIV")),
        OpAction::Idiv => Some(String::from_str("IDIV")),
        OpAction::Aaa => actions::alu::aaa_mnemonic(reg_bits),
        OpAction::Aad => actions::alu::aad_mnemonic(reg_bits),
        OpAction::Aas => actions::alu::aas_mnemonic(reg_bits),
        OpAction::Daa => actions::alu::daa_mnemonic(reg_bits),
        OpAction::Rol => Some(String::from_str("ROL")),
        OpAction::Ror => Some(String::from_str("ROR")),
        OpAction::Rcl => Some(String::from_str("RCL")),
        OpAction::Rcr => Some(String::from_str("RCR")),
        OpAction::Sal => Some(String::from_str("SAL")),
        OpAction::Shr => Some(String::from_str("SHR")),
        OpAction::Sar => Some(String::from_str("SAR")),
        OpAction::Push => actions::stack::push_mnemonic(reg_bits),
        OpAction::Pop => actions::stack::pop_mnemonic(reg_bits),
        OpAction::NearCall => actions::stack::call_mnemonic(reg_bits),
        OpAction::FarCall => actions::stack::call_mnemonic(reg_bits),
        OpAction::NearRet => actions::stack::ret_mnemonic(reg_bits),
        OpAction::FarRet => actions::stack::ret_mnemonic(reg_bits),
        OpAction::Enter => actions::stack::enter_mnemonic(reg_bits),
        OpAction::Leave => Some(String::from_str("LEAVE")),
        OpAction::Jmp => actions::jmp::jmp_mnemonic(reg_bits),
        OpAction::JmpFar => actions::jmp::jmp_mnemonic(reg_bits),
        OpAction::CondJmp(c) => actions::jmp::cond_jmp_mnemonic(
            String::from_str(condition_text(c)),
        ),
        OpAction::LoopJmp(k) => actions::jmp::loop_mnemonic(
            String::from_str(
                if k == 0 {
                    "NZ"
                } else if k == 1 {
                    "Z"
                } else {
                    ""
                },
            ),
        ),
        OpAction::IntReq => actions::interrupt::int_mnemonic(reg_bits),
        OpAction::Into => Some(String::from_str("INTO")),
        OpAction::Iret => actions::interrupt::iret_mnemonic(reg_bits),
        OpAction::Bound => actions::interrupt::bound_mnemonic(reg_bits),
        OpAction::Clc => actions::flags::clc_mnemonic(reg_bits),
        OpAction::Stc => Some(String::from_str("STC")),
        OpAction::Cli => actions::flags::cli_mnemonic(reg_bits),
        OpAction::Sti => Some(String::from_str("STI")),
        OpAction::Cld => actions::flags::cld_mnemonic(reg_bits),
        OpAction::Std => Some(String::from_str("STD")),
        OpAction::Cmc => actions::flags::cmc_mnemonic(reg_bits),
        OpAction::Lahf => Some(String::from_str("LAHF")),
        OpAction::Sahf => Some(String::from_str("SAHF")),
        OpAction::Movs => Some(String::from_str("MOVS")),
        OpAction::Cmps => actions::flags::cmps_mnemonic(reg_bits),
        OpAction::Scas => Some(String::from_str("SCAS")),
        OpAction::Lods => Some(String::from_str("LODS")),
        OpAction::Stos => Some(String::from_str("STOS")),
        OpAction::In => Some(String::from_str("IN")),
        OpAction::Out => Some(String::from_str("OUT")),
        OpAction::Ins => Some(String::from_str("INS")),
        OpAction::Outs => Some(String::from_str("OUTS")),
        OpAction::Rep => Some(String::from_str("REP")),
        OpAction::Repne => Some(String::from_str("REPNE")),
        OpAction::AluGroupTwo => actions::alu::alu_dispatch_two_args_mnemonic(reg_bits),
        OpAction::AluGroupOne => actions::alu::alu_dispatch_one_arg_mnemonic(reg_bits),
        OpAction::MulGroup => actions::alu::mul_dispatch_mnemonic(reg_bits),
        OpAction::RotateGroup => actions::alu::rotate_dispatch_mnemonic(reg_bits),
        OpAction::SegmentPrefix(_) => None,
    }
}

impl Instruction {
    /// This instruction as a mnemonic-plus-operands line, purely for
    /// diagnostics; there is one exactly when the behavior has a mnemonic.
    pub fn to_text(&self) -> (r: Option<String>)
        ensures
            r is Some <==> spec_has_mnemonic(self.action, self.reg_bits),
    {
        let mut s = match mnemonic_text(self.action, self.reg_bits) {
            Some(m) => m,
            None => {
                return None;
            },
        };
        match &self.dst {
            Some(d) => {
                s.append(" ");
                let dt = d.to_text();
                s.append(dt.as_str());
                match &self.src {
                    Some(sr) => {
                        s.append(", ");
                        let st = sr.to_text();
                        s.append(st.as_str());
                    },
                    None => (),
                }
            },
            None => (),
        }
        Some(s)
    }
}

/// A decoder positioned over memory: the entry point the driver and the
/// diagnostics share.
pub struct InstructionDecoder<'a> {
    pub ram: &'a Vec<u8>,
    pub pos: usize,
}

impl<'a> InstructionDecoder<'a> {
    pub fn new(ram: &'a Vec<u8>, pos: usize) -> (r: InstructionDecoder<'a>)
        ensures
            r.ram == ram,
            r.pos == pos,
    {
        InstructionDecoder { ram, pos }
    }

    /// Decodes the instruction under the cursor.
    pub fn get(self) -> (r: Result<Instruction, CpuErr>)
        requires
            self.ram@.len() + 8 <= usize::MAX,
        ensures
            r is Ok <==> spec_decode(self.ram@, self.pos as int, None) is Some,
            r is Ok ==> Some(r.unwrap()) == spec_decode(self.ram@, self.pos as int, None),
    {
        decode_at(self.ram, self.pos, None)
    }
}

} // verus!
