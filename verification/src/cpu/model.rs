use vstd::prelude::*;
use crate::cpu::Regs;
use crate::cpu::reg::{low_byte, high_byte, word_of};
use crate::cpu::instruction::Instruction;
use crate::cpu::instruction::args::{DstArg, Size, SrcArg};

verus! {

/// 16-bit addition that wraps around the offset space, as the address
/// arithmetic of the machine does.
pub open spec fn wadd(x: u16, y: u16) -> u16 {
    ((x + y) % 0x10000) as u16
}

/// A byte widened to a word by copying its sign bit upward.
pub open spec fn spec_sign_extend(b: u8) -> u16 {
    if b < 0x80 {
        b as u16
    } else {
        (0xFF00 + b) as u16
    }
}

/// The 16-bit register the given ModRM register number names.
pub open spec fn spec_reg16_of_num(n: u8) -> Option<Regs> {
    if n == 0 {
        Some(Regs::AX)
    } else if n == 1 {
        Some(Regs::CX)
    } else if n == 2 {
        Some(Regs::DX)
    } else if n == 3 {
        Some(Regs::BX)
    } else if n == 4 {
        Some(Regs::SP)
    } else if n == 5 {
        Some(Regs::BP)
    } else if n == 6 {
        Some(Regs::SI)
    } else if n == 7 {
        Some(Regs::DI)
    } else {
        None
    }
}

/// The bus-visible machine state as mathematics: register values, the flat
/// memory, the pending-interrupt latch, the address of the instruction being
/// executed, and the in-flight decoded instruction. Cycle bookkeeping is
/// deliberately not part of the model.
#[verifier::ext_equal]
pub ghost struct Arch {
    pub ax: u16,
    pub bx: u16,
    pub cx: u16,
    pub dx: u16,
    pub si: u16,
    pub di: u16,
    pub sp: u16,
    pub bp: u16,
    pub es: u16,
    pub cs: u16,
    pub ss: u16,
    pub ds: u16,
    pub ip: u16,
    pub flags: u16,
    pub ram: Seq<u8>,
    pub irq: Option<u8>,
    pub opcode_address: (u16, u16),
    pub instruction: Option<Instruction>,
}

impl Arch {
    /// The value a register holds.
    pub open spec fn reg(self, r: Regs) -> u16 {
        match r {
            Regs::AX => self.ax,
            Regs::BX => self.bx,
            Regs::CX => self.cx,
            Regs::DX => self.dx,
            Regs::SI => self.si,
            Regs::DI => self.di,
            Regs::SP => self.sp,
            Regs::BP => self.bp,
            Regs::ES => self.es,
            Regs::CS => self.cs,
            Regs::SS => self.ss,
            Regs::DS => self.ds,
            Regs::IP => self.ip,
            Regs::FLAGS => self.flags,
        }
    }

    /// The same state with one register replaced.
    pub open spec fn with_reg(self, r: Regs, v: u16) -> Arch {
        match r {
            Regs::AX => Arch { ax: v, ..self },
            Regs::BX => Arch { bx: v, ..self },
            Regs::CX => Arch { cx: v, ..self },
            Regs::DX => Arch { dx: v, ..self },
            Regs::SI => Arch { si: v, ..self },
            Regs::DI => Arch { di: v, ..self },
            Regs::SP => Arch { sp: v, ..self },
            Regs::BP => Arch { bp: v, ..self },
            Regs::ES => Arch { es: v, ..self },
            Regs::CS => Arch { cs: v, ..self },
            Regs::SS => Arch { ss: v, ..self },
            Regs::DS => Arch { ds: v, ..self },
            Regs::IP => Arch { ip: v, ..self },
            Regs::FLAGS => Arch { flags: v, ..self },
        }
    }

    /// The value of a numbered 8-bit sub-register.
    pub open spec fn reg8(self, n: u8) -> u8 {
        let r16 = spec_reg16_of_num((n % 4) as u8);
        if n / 4 == 0 {
            low_byte(self.reg(r16.unwrap()))
        } else {
            high_byte(self.reg(r16.unwrap()))
        }
    }

    /// The same state with one numbered 8-bit sub-register replaced,
    /// leaving the other half of its register unchanged.
    pub open spec fn with_reg8(self, n: u8, v: u8) -> Arch {
        let r16 = spec_reg16_of_num((n % 4) as u8).unwrap();
        let w = self.reg(r16);
        if n / 4 == 0 {
            self.with_reg(r16, word_of(high_byte(w), v))
        } else {
            self.with_reg(r16, word_of(v, low_byte(w)))
        }
    }

    /// True when any bit of the mask is set in the FLAGS register.
    pub open spec fn flag_set(self, mask: u16) -> bool {
        self.flags & mask != 0
    }

    /// The same state with the masked flag bits turned on or off.
    pub open spec fn with_flag(self, mask: u16, on: bool) -> Arch {
        if on {
            Arch { flags: self.flags | mask, ..self }
        } else {
            Arch { flags: self.flags & !mask, ..self }
        }
    }

    /// The 20-bit physical address a segment and an offset name.
    pub open spec fn phys(seg: u16, off: u16) -> int {
        seg * 16 + off
    }

    /// The physical address of an offset taken through a segment register.
    pub open spec fn seg_phys(self, seg: Regs, off: u16) -> int {
        Arch::phys(self.reg(seg), off)
    }

    /// True when the byte at segment:offset lies inside the memory.
    pub open spec fn byte_in_bounds(self, seg: Regs, off: u16) -> bool {
        self.seg_phys(seg, off) < self.ram.len()
    }

    /// The byte at segment:offset, if it lies inside the memory.
    pub open spec fn byte_at(self, seg: Regs, off: u16) -> Option<u8> {
        if self.byte_in_bounds(seg, off) {
            Some(self.ram[self.seg_phys(seg, off)])
        } else {
            None
        }
    }

    /// The same state with the byte at segment:offset replaced. Meaningful
    /// only when the address is in bounds.
    pub open spec fn with_byte(self, seg: Regs, off: u16, v: u8) -> Arch {
        Arch { ram: self.ram.update(self.seg_phys(seg, off), v), ..self }
    }

    /// True when both bytes of the word at segment:offset lie inside the
    /// memory; the second byte's offset wraps within the segment.
    pub open spec fn word_in_bounds(self, seg: Regs, off: u16) -> bool {
        self.byte_in_bounds(seg, off) && self.byte_in_bounds(seg, wadd(off, 1))
    }

    /// The little-endian word at segment:offset, if it lies inside the memory.
    pub open spec fn word_at(self, seg: Regs, off: u16) -> Option<u16> {
        if self.word_in_bounds(seg, off) {
            Some(word_of(self.byte_at(seg, wadd(off, 1)).unwrap(), self.byte_at(seg, off).unwrap()))
        } else {
            None
        }
    }

    /// The same state with the little-endian word at segment:offset replaced.
    pub open spec fn with_word(self, seg: Regs, off: u16, v: u16) -> Arch {
        self.with_byte(seg, off, low_byte(v)).with_byte(seg, wadd(off, 1), high_byte(v))
    }

    pub open spec fn dword_in_bounds(self, seg: Regs, off: u16) -> bool {
        self.word_in_bounds(seg, off) && self.word_in_bounds(seg, wadd(off, 2))
    }

    /// The little-endian double word at segment:offset.
    pub open spec fn dword_at(self, seg: Regs, off: u16) -> Option<u32> {
        if self.dword_in_bounds(seg, off) {
            Some(
                ((self.word_at(seg, off).unwrap() as int) + (self.word_at(
                    seg,
                    wadd(off, 2),
                ).unwrap() as int) * 0x10000) as u32,
            )
        } else {
            None
        }
    }

    pub open spec fn with_dword(self, seg: Regs, off: u16, v: u32) -> Arch {
        self.with_word(seg, off, (v % 0x10000) as u16).with_word(
            seg,
            wadd(off, 2),
            (v / 0x10000) as u16,
        )
    }

    /// An operand of the given width read from memory at segment:offset.
    pub open spec fn mem_read(self, seg: Regs, off: u16, size: Size) -> Option<SrcArg> {
        match size {
            Size::Byte => match self.byte_at(seg, off) {
                Some(b) => Some(SrcArg::Byte(b)),
                None => None,
            },
            Size::Word => match self.word_at(seg, off) {
                Some(w) => Some(SrcArg::Word(w)),
                None => None,
            },
            Size::DWord => match self.dword_at(seg, off) {
                Some(d) => Some(SrcArg::DWord(d)),
                None => None,
            },
        }
    }
}

impl Arch {
    /// The same state with the memory region starting at the given physical
    /// offset overwritten verbatim by the given bytes.
    pub open spec fn overwrite(self, loc: int, bytes: Seq<u8>) -> Arch {
        Arch {
            ram: self.ram.map(
                |i: int, b: u8|
                    if loc <= i < loc + bytes.len() {
                        bytes[i - loc]
                    } else {
                        b
                    },
            ),
            ..self
        }
    }
}

/// The offset a memory operand addresses, if the operand names memory.
pub open spec fn spec_eff_addr(a: Arch, arg: DstArg) -> Option<u16> {
    match arg {
        DstArg::Ptr(off, _) => Some(off),
        DstArg::RegPtr(r, _) => Some(a.reg(r)),
        DstArg::RegPtrImm(r, imm, _) => Some(wadd(a.reg(r), imm)),
        DstArg::RegPtrOff(r1, r2, _) => Some(wadd(a.reg(r1), a.reg(r2))),
        DstArg::RegPtrOffImm(r1, r2, imm, _) => Some(wadd(wadd(a.reg(r1), a.reg(r2)), imm)),
        _ => None,
    }
}

/// The width of a memory operand, if the operand names memory.
pub open spec fn spec_arg_size(arg: DstArg) -> Option<Size> {
    match arg {
        DstArg::Ptr(_, s) => Some(s),
        DstArg::RegPtr(_, s) => Some(s),
        DstArg::RegPtrImm(_, _, s) => Some(s),
        DstArg::RegPtrOff(_, _, s) => Some(s),
        DstArg::RegPtrOffImm(_, _, _, s) => Some(s),
        _ => None,
    }
}

/// The value an operand location holds: a register read, the immediate
/// itself, or a memory read through the given segment. `None` on a register
/// number out of range, a memory operand out of bounds, or a location that
/// holds no value.
pub open spec fn spec_resolve_arg(a: Arch, seg: Regs, arg: DstArg) -> Option<SrcArg> {
    match arg {
        DstArg::Reg8(n) => if n < 8 {
            Some(SrcArg::Byte(a.reg8(n)))
        } else {
            None
        },
        DstArg::Reg16(n) => match spec_reg16_of_num(n) {
            Some(r) => Some(SrcArg::Word(a.reg(r))),
            None => None,
        },
        DstArg::Imm8(v) => Some(SrcArg::Byte(v)),
        DstArg::Imm16(v) => Some(SrcArg::Word(v)),
        DstArg::Imm32(v) => Some(SrcArg::DWord(v)),
        DstArg::Reg(r) => Some(SrcArg::Word(a.reg(r))),
        DstArg::Opcode(_) => None,
        _ => a.mem_read(seg, spec_eff_addr(a, arg).unwrap(), spec_arg_size(arg).unwrap()),
    }
}

/// The machine after a value is written to an operand location: a register
/// write (a byte value is sign-extended into a 16-bit register), or a memory
/// write through the given segment with the location's declared width.
/// `None` when the location cannot take the value: an immediate destination,
/// a register number out of range, a width the location refuses, or a memory
/// operand out of bounds.
pub open spec fn spec_write_arg(a: Arch, seg: Regs, arg: DstArg, val: SrcArg) -> Option<Arch> {
    match arg {
        DstArg::Reg16(n) => match (spec_reg16_of_num(n), val) {
            (Some(r), SrcArg::Byte(b)) => Some(a.with_reg(r, spec_sign_extend(b))),
            (Some(r), SrcArg::Word(w)) => Some(a.with_reg(r, w)),
            _ => None,
        },
        DstArg::Reg8(n) => match val {
            SrcArg::Byte(b) => if n < 8 {
                Some(a.with_reg8(n, b))
            } else {
                None
            },
            _ => None,
        },
        DstArg::Reg(r) => match val {
            SrcArg::Byte(b) => Some(a.with_reg(r, spec_sign_extend(b))),
            SrcArg::Word(w) => Some(a.with_reg(r, w)),
            _ => None,
        },
        DstArg::Ptr(_, _)
        | DstArg::RegPtr(_, _)
        | DstArg::RegPtrImm(_, _, _)
        | DstArg::RegPtrOff(_, _, _)
        | DstArg::RegPtrOffImm(_, _, _, _) => {
            let off = spec_eff_addr(a, arg).unwrap();
            match spec_arg_size(arg).unwrap() {
                Size::Byte => match val {
                    SrcArg::Byte(b) => if a.byte_in_bounds(seg, off) {
                        Some(a.with_byte(seg, off, b))
                    } else {
                        None
                    },
                    SrcArg::Word(w) => if a.byte_in_bounds(seg, off) {
                        Some(a.with_byte(seg, off, low_byte(w)))
                    } else {
                        None
                    },
                    SrcArg::DWord(_) => None,
                },
                Size::Word => match val {
                    SrcArg::Byte(b) => if a.word_in_bounds(seg, off) {
                        Some(a.with_word(seg, off, b as u16))
                    } else {
                        None
                    },
                    SrcArg::Word(w) => if a.word_in_bounds(seg, off) {
                        Some(a.with_word(seg, off, w))
                    } else {
                        None
                    },
                    SrcArg::DWord(_) => None,
                },
                Size::DWord => match val {
                    SrcArg::DWord(d) => if a.dword_in_bounds(seg, off) {
                        Some(a.with_dword(seg, off, d))
                    } else {
                        None
                    },
                    _ => None,
                },
            }
        },
        _ => None,
    }
}


/// 16-bit subtraction that wraps around the offset space.
pub open spec fn wsub(x: u16, y: u16) -> u16 {
    ((x - y) % 0x10000) as u16
}

/// The value an operand holds, reduced to the predicates the flags engine
/// speaks of.
pub open spec fn val_is_zero(v: SrcArg) -> bool {
    match v {
        SrcArg::Byte(b) => b == 0,
        SrcArg::Word(w) => w == 0,
        SrcArg::DWord(d) => d == 0,
    }
}

/// True when the value's top bit, at its own width, is set.
pub open spec fn val_sign(v: SrcArg) -> bool {
    match v {
        SrcArg::Byte(b) => b >= 0x80,
        SrcArg::Word(w) => w >= 0x8000,
        SrcArg::DWord(d) => d >= 0x8000_0000,
    }
}

/// The low byte of an operand value, which the parity flag is computed from.
pub open spec fn val_low_byte(v: SrcArg) -> u8 {
    match v {
        SrcArg::Byte(b) => b,
        SrcArg::Word(w) => low_byte(w),
        SrcArg::DWord(d) => (d % 0x100) as u8,
    }
}

impl Arch {
    /// The machine with the zero, sign and parity flags recomputed from a
    /// result value, each only where the mask selects it.
    pub open spec fn with_result_flags(self, v: SrcArg, mask: u16) -> Arch {
        let a1 = if mask & crate::cpu::CPUFlags::ZERO != 0 {
            self.with_flag(crate::cpu::CPUFlags::ZERO, val_is_zero(v))
        } else {
            self
        };
        let a2 = if mask & crate::cpu::CPUFlags::SIGN != 0 {
            a1.with_flag(crate::cpu::CPUFlags::SIGN, val_sign(v))
        } else {
            a1
        };
        if mask & crate::cpu::CPUFlags::PARITY != 0 {
            a2.with_flag(
                crate::cpu::CPUFlags::PARITY,
                crate::cpu::alu::spec_parity_even(val_low_byte(v)),
            )
        } else {
            a2
        }
    }

    /// The machine after a word is pushed: the word lands at SS:(SP-1) and
    /// SP moves down by two. Fails when the slot is out of bounds.
    pub open spec fn spec_push_word(self, v: u16) -> Option<Arch> {
        let off = wsub(self.sp, 1);
        if self.word_in_bounds(Regs::SS, off) {
            Some(self.with_word(Regs::SS, off, v).with_reg(Regs::SP, wsub(self.sp, 2)))
        } else {
            None
        }
    }

    /// The machine after a word is popped, and the word: it is read from
    /// SS:(SP+1) and SP moves up by two.
    pub open spec fn spec_pop_word(self) -> Option<(Arch, u16)> {
        let off = wadd(self.sp, 1);
        match self.word_at(Regs::SS, off) {
            Some(w) => Some((self.with_reg(Regs::SP, wadd(self.sp, 2)), w)),
            None => None,
        }
    }
}


impl Arch {
    /// The same state with the in-flight instruction slot replaced.
    pub open spec fn with_instruction(self, v: Option<Instruction>) -> Arch {
        Arch { instruction: v, ..self }
    }

    /// The same state with the pending-interrupt latch replaced.
    pub open spec fn with_irq(self, v: Option<u8>) -> Arch {
        Arch { irq: v, ..self }
    }

    /// Raising a processor exception: the exceptions that re-point execution
    /// first rewind CS:IP to the faulting instruction's address, so the
    /// return address saved later names the faulting instruction; then the
    /// vector is latched. An overflow trap latches without rewinding. Any
    /// other code is not an exception.
    pub open spec fn spec_except(self, code: u8) -> Option<Arch> {
        if code == crate::cpu::exceptions::DIVIDE_BY_ZERO || code == crate::cpu::exceptions::BOUND
            || code == crate::cpu::exceptions::INVALID_OPCODE || code
            == crate::cpu::exceptions::NO_EXTENSION {
            Some(
                self.with_reg(Regs::CS, self.opcode_address.0).with_reg(
                    Regs::IP,
                    self.opcode_address.1,
                ).with_irq(Some(code)),
            )
        } else if code == crate::cpu::exceptions::INTO {
            Some(self.with_irq(Some(code)))
        } else {
            None
        }
    }
}

} // verus!
