use vstd::prelude::*;
use crate::cpu::{Bus, Regs};
use crate::cpu::model;

verus! {

/// Width of an operand: one byte, one word, or a double word.
#[derive(Copy, Clone, PartialEq, Eq, Structural, Debug)]
pub enum Size {
    Byte,
    Word,
    DWord,
}

impl Size {
    /// The width that the opcode's `s` selector stands for.
    pub open spec fn spec_from_s(s: u8) -> Size {
        if s == 0 {
            Size::Byte
        } else if s == 1 {
            Size::Word
        } else {
            Size::DWord
        }
    }

    pub fn from_s(s: u8) -> (r: Size)
        requires
            s <= 2,
        ensures
            r == Size::spec_from_s(s),
    {
        match s {
            0 => Size::Byte,
            1 => Size::Word,
            _ => Size::DWord,
        }
    }

    /// How many bytes an operand of this width occupies in memory.
    pub open spec fn spec_len(self) -> u16 {
        match self {
            Size::Byte => 1,
            Size::Word => 2,
            Size::DWord => 4,
        }
    }
}

/// An operand value that has already been read: the form the arithmetic
/// actions consume.
#[derive(Copy, Clone, PartialEq, Eq, Structural, Debug)]
pub enum SrcArg {
    Byte(u8),
    Word(u16),
    DWord(u32),
}

impl SrcArg {
    pub open spec fn spec_size(self) -> Size {
        match self {
            SrcArg::Byte(_) => Size::Byte,
            SrcArg::Word(_) => Size::Word,
            SrcArg::DWord(_) => Size::DWord,
        }
    }

    pub fn get_size(self) -> (r: Size)
        ensures
            r == self.spec_size(),
    {
        match self {
            SrcArg::Byte(_) => Size::Byte,
            SrcArg::Word(_) => Size::Word,
            SrcArg::DWord(_) => Size::DWord,
        }
    }
}

/// Where an operand lives: a numbered 8- or 16-bit register, a read-only
/// immediate, a memory cell at a fixed or register-relative offset, a named
/// register, or — for the repeat prefixes — the opcode byte they wrap.
#[derive(Copy, Clone, PartialEq, Eq, Structural, Debug)]
pub enum DstArg {
    Reg8(u8),
    Reg16(u8),
    Imm8(u8),
    Imm16(u16),
    Imm32(u32),
    Ptr(u16, Size),
    RegPtr(Regs, Size),
    RegPtrImm(Regs, u16, Size),
    RegPtrOff(Regs, Regs, Size),
    RegPtrOffImm(Regs, Regs, u16, Size),
    Reg(Regs),
    Opcode(u8),
}

impl DstArg {
    /// The numbered register of the width that the `s` selector gives.
    pub open spec fn spec_reg_to_arg(reg: u8, s: u8) -> DstArg {
        if s == 1 {
            DstArg::Reg16(reg)
        } else {
            DstArg::Reg8(reg)
        }
    }

    pub fn reg_to_arg(reg: u8, s: u8) -> (r: DstArg)
        ensures
            r == DstArg::spec_reg_to_arg(reg, s),
    {
        if s == 1 {
            DstArg::Reg16(reg)
        } else {
            DstArg::Reg8(reg)
        }
    }

    /// The offset this operand addresses, if it names memory.
    pub fn to_ptr(&self, comp: &Bus) -> (r: Option<u16>)
        ensures
            r == model::spec_eff_addr(comp@, *self),
    {
        match self {
            DstArg::Ptr(off, _) => Some(*off),
            DstArg::RegPtr(r, _) => comp.read_reg(*r),
            DstArg::RegPtrImm(r, imm, _) => {
                let base = match comp.read_reg(*r) {
                    Some(v) => v,
                    None => 0,
                };
                Some(crate::cpu::wrap_add(base, *imm))
            },
            DstArg::RegPtrOff(r1, r2, _) => {
                let base = match comp.read_reg(*r1) {
                    Some(v) => v,
                    None => 0,
                };
                let off = match comp.read_reg(*r2) {
                    Some(v) => v,
                    None => 0,
                };
                Some(crate::cpu::wrap_add(base, off))
            },
            DstArg::RegPtrOffImm(r1, r2, imm, _) => {
                let base = match comp.read_reg(*r1) {
                    Some(v) => v,
                    None => 0,
                };
                let off = match comp.read_reg(*r2) {
                    Some(v) => v,
                    None => 0,
                };
                Some(crate::cpu::wrap_add(crate::cpu::wrap_add(base, off), *imm))
            },
            _ => None,
        }
    }

    /// The width of this operand where it names memory.
    pub fn mem_size(&self) -> (r: Option<Size>)
        ensures
            r == model::spec_arg_size(*self),
    {
        match self {
            DstArg::Ptr(_, s) => Some(*s),
            DstArg::RegPtr(_, s) => Some(*s),
            DstArg::RegPtrImm(_, _, s) => Some(*s),
            DstArg::RegPtrOff(_, _, s) => Some(*s),
            DstArg::RegPtrOffImm(_, _, _, s) => Some(*s),
            _ => None,
        }
    }

    /// Reads the value this operand location holds: a register read, the
    /// immediate itself, or a memory read through the given segment.
    pub fn to_src_arg(self, comp: &mut Bus, seg: Regs) -> (r: Option<SrcArg>)
        ensures
            r == model::spec_resolve_arg(old(comp)@, seg, self),
            final(comp)@ == old(comp)@,
    {
        match self {
            DstArg::Reg8(n) => match comp.get_reg_8(n) {
                Some(b) => Some(SrcArg::Byte(b)),
                None => None,
            },
            DstArg::Reg16(n) => match comp.get_reg_16(n) {
                Some(w) => Some(SrcArg::Word(w)),
                None => None,
            },
            DstArg::Imm8(v) => Some(SrcArg::Byte(v)),
            DstArg::Imm16(v) => Some(SrcArg::Word(v)),
            DstArg::Imm32(v) => Some(SrcArg::DWord(v)),
            DstArg::Reg(r) => match comp.read_reg(r) {
                Some(w) => Some(SrcArg::Word(w)),
                None => None,
            },
            DstArg::Opcode(_) => None,
            _ => {
                let off = match self.to_ptr(comp) {
                    Some(o) => o,
                    None => 0,
                };
                let size = match self.mem_size() {
                    Some(s) => s,
                    None => Size::Byte,
                };
                match size {
                    Size::Byte => match comp.mem_byte(seg, off) {
                        Some(b) => Some(SrcArg::Byte(b)),
                        None => None,
                    },
                    Size::Word => match comp.mem_word(seg, off) {
                        Some(w) => Some(SrcArg::Word(w)),
                        None => None,
                    },
                    Size::DWord => match comp.mem_dword(seg, off) {
                        Some(d) => Some(SrcArg::DWord(d)),
                        None => None,
                    },
                }
            },
        }
    }
}

} // verus!
