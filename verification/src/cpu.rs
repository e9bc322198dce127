use vstd::prelude::*;

pub mod alu;
pub mod exceptions;
pub mod instruction;
pub mod laws;
pub mod model;
pub mod reg;

use crate::cpu::instruction::Instruction;
use crate::cpu::instruction::args::{DstArg, Size, SrcArg};
use crate::cpu::model::Arch;
use crate::cpu::reg::{high_byte, low_byte, word_of};

verus! {

/// Bit positions within the FLAGS register.
pub struct CPUFlags;

impl CPUFlags {
    pub const CARRY: u16 = 0x0001;
    pub const PARITY: u16 = 0x0004;
    pub const AUX_CARRY: u16 = 0x0010;
    pub const ZERO: u16 = 0x0040;
    pub const SIGN: u16 = 0x0080;
    pub const TRAP: u16 = 0x0100;
    pub const INTERRUPT: u16 = 0x0200;
    pub const DIRECTION: u16 = 0x0400;
    pub const OVERFLOW: u16 = 0x0800;
}

/// The ways an operation on the machine can fail: a memory access outside
/// the configured memory, an operand shape an operation cannot take, an
/// opcode byte the table does not describe even after the mask fallback, an
/// exception code outside the defined set, and a port access with no
/// peripheral hooked to the address.
#[derive(Copy, Clone, PartialEq, Eq, Structural, Debug)]
pub enum CpuErr {
    OutOfBounds,
    BadOperand,
    UnknownOpcode,
    BadException,
    NoDevice,
    StepLimit,
}

/// Identity of one register in the register file.
#[derive(Copy, Clone, PartialEq, Eq, Structural, Debug, Hash)]
pub enum Regs {
    AX,
    BX,
    CX,
    DX,
    SI,
    DI,
    SP,
    BP,
    ES,
    CS,
    SS,
    DS,
    IP,
    FLAGS,
}

impl Regs {
    /// The 16-bit register a ModRM register number selects.
    pub fn translate_reg16(num: u8) -> (r: Option<Regs>)
        ensures
            r == model::spec_reg16_of_num(num),
    {
        match num {
            0 => Some(Regs::AX),
            1 => Some(Regs::CX),
            2 => Some(Regs::DX),
            3 => Some(Regs::BX),
            4 => Some(Regs::SP),
            5 => Some(Regs::BP),
            6 => Some(Regs::SI),
            7 => Some(Regs::DI),
            _ => None,
        }
    }

    /// The register and byte half an 8-bit register number selects.
    pub fn translate_reg8(num: u8) -> (r: Option<(Regs, WordPart)>)
        ensures
            num < 8 ==> r == Some((
                model::spec_reg16_of_num((num % 4) as u8).unwrap(),
                if num / 4 == 0 {
                    WordPart::Low
                } else {
                    WordPart::High
                },
            )),
            num >= 8 ==> r is None,
    {
        if num >= 8 {
            None
        } else {
            match Regs::translate_reg16(num % 4) {
                Some(r16) => Some(
                    (r16, if num / 4 == 0 {
                        WordPart::Low
                    } else {
                        WordPart::High
                    }),
                ),
                None => None,
            }
        }
    }
}

/// Which byte half of a register an 8-bit access names.
#[derive(Copy, Clone, PartialEq, Eq, Structural, Debug)]
pub enum WordPart {
    Low,
    High,
}

/// The machine state a device on the bus can see: the register file, the
/// flat memory, the pending-interrupt latch and the in-flight decoded
/// instruction. Everything of the processor but the peripheral hook tables.
pub struct Bus {
    pub ram: Vec<u8>,
    pub ax: reg::Reg,
    pub bx: reg::Reg,
    pub cx: reg::Reg,
    pub dx: reg::Reg,
    pub si: reg::Reg,
    pub di: reg::Reg,
    pub sp: reg::Reg,
    pub bp: reg::Reg,
    pub es: reg::Reg,
    pub cs: reg::Reg,
    pub ss: reg::Reg,
    pub ds: reg::Reg,
    pub ip: reg::Reg,
    pub flags: reg::Reg,
    pub next_cycles: usize,
    pub irq: Option<u8>,
    pub opcode_address: (u16, u16),
    pub instruction: Option<Instruction>,
}

impl View for Bus {
    type V = Arch;

    open spec fn view(&self) -> Arch {
        Arch {
            ax: self.ax.value,
            bx: self.bx.value,
            cx: self.cx.value,
            dx: self.dx.value,
            si: self.si.value,
            di: self.di.value,
            sp: self.sp.value,
            bp: self.bp.value,
            es: self.es.value,
            cs: self.cs.value,
            ss: self.ss.value,
            ds: self.ds.value,
            ip: self.ip.value,
            flags: self.flags.value,
            ram: self.ram@,
            irq: self.irq,
            opcode_address: self.opcode_address,
            instruction: self.instruction,
        }
    }
}

impl Bus {
    /// A bus with the given amount of zeroed memory and every register zero.
    pub fn new(ram_size: usize) -> (r: Bus)
        ensures
            r@.ram.len() == ram_size,
            forall|i: int| 0 <= i < ram_size ==> r@.ram[i] == 0,
            forall|rr: Regs| r@.reg(rr) == 0,
            r@.irq is None,
            r@.instruction is None,
            r@.opcode_address == (0u16, 0u16),
    {
        let mut ram: Vec<u8> = Vec::new();
        let mut i: usize = 0;
        while i < ram_size
            invariant
                i <= ram_size,
                ram@.len() == i,
                forall|j: int| 0 <= j < i ==> ram@[j] == 0,
            decreases ram_size - i,
        {
            ram.push(0);
            i = i + 1;
        }
        Bus {
            ram,
            ax: reg::Reg::new(),
            bx: reg::Reg::new(),
            cx: reg::Reg::new(),
            dx: reg::Reg::new(),
            si: reg::Reg::new(),
            di: reg::Reg::new(),
            sp: reg::Reg::new(),
            bp: reg::Reg::new(),
            es: reg::Reg::new(),
            cs: reg::Reg::new(),
            ss: reg::Reg::new(),
            ds: reg::Reg::new(),
            ip: reg::Reg::new(),
            flags: reg::Reg::new(),
            next_cycles: 0,
            irq: None,
            opcode_address: (0, 0),
            instruction: None,
        }
    }

    /// The current value of a register.
    pub fn read_reg(&self, r: Regs) -> (v: Option<u16>)
        ensures
            v == Some(self@.reg(r)),
    {
        Some(
            match r {
                Regs::AX => self.ax.value,
                Regs::BX => self.bx.value,
                Regs::CX => self.cx.value,
                Regs::DX => self.dx.value,
                Regs::SI => self.si.value,
                Regs::DI => self.di.value,
                Regs::SP => self.sp.value,
                Regs::BP => self.bp.value,
                Regs::ES => self.es.value,
                Regs::CS => self.cs.value,
                Regs::SS => self.ss.value,
                Regs::DS => self.ds.value,
                Regs::IP => self.ip.value,
                Regs::FLAGS => self.flags.value,
            },
        )
    }

    /// Replaces the value of a register.
    pub fn set_reg(&mut self, r: Regs, val: u16)
        ensures
            final(self)@ == old(self)@.with_reg(r, val),
            final(self).next_cycles == old(self).next_cycles,
    {
        match r {
            Regs::AX => self.ax.value = val,
            Regs::BX => self.bx.value = val,
            Regs::CX => self.cx.value = val,
            Regs::DX => self.dx.value = val,
            Regs::SI => self.si.value = val,
            Regs::DI => self.di.value = val,
            Regs::SP => self.sp.value = val,
            Regs::BP => self.bp.value = val,
            Regs::ES => self.es.value = val,
            Regs::SS => self.ss.value = val,
            Regs::CS => self.cs.value = val,
            Regs::DS => self.ds.value = val,
            Regs::IP => self.ip.value = val,
            Regs::FLAGS => self.flags.value = val,
        }
    }

    /// Reads one byte half of a register.
    pub fn read_reg_part(&self, r: Regs, part: WordPart) -> (v: u8)
        ensures
            part is Low ==> v == low_byte(self@.reg(r)),
            part is High ==> v == high_byte(self@.reg(r)),
    {
        let w = match self.read_reg(r) {
            Some(w) => w,
            None => 0,
        };
        match part {
            WordPart::Low => (w % 256) as u8,
            WordPart::High => (w / 256) as u8,
        }
    }

    /// Writes one byte half of a register, leaving the other half unchanged.
    pub fn set_reg_part(&mut self, r: Regs, part: WordPart, val: u8)
        ensures
            part is Low ==> final(self)@ == old(self)@.with_reg(
                r,
                word_of(high_byte(old(self)@.reg(r)), val),
            ),
            part is High ==> final(self)@ == old(self)@.with_reg(
                r,
                word_of(val, low_byte(old(self)@.reg(r))),
            ),
    {
        let w = match self.read_reg(r) {
            Some(w) => w,
            None => 0,
        };
        let new_val: u16 = match part {
            WordPart::Low => {
                let hi: u16 = w / 256;
                assert(hi * 256 + 255 < 65536) by (nonlinear_arith)
                    requires hi <= 255;
                hi * 256 + (val as u16)
            },
            WordPart::High => (val as u16) * 256 + w % 256,
        };
        self.set_reg(r, new_val);
    }

    /// The value of a 16-bit register selected by a ModRM register number.
    pub fn get_reg_16(&self, reg_num: u8) -> (v: Option<u16>)
        ensures
            v == match model::spec_reg16_of_num(reg_num) {
                Some(rr) => Some(self@.reg(rr)),
                None => None::<u16>,
            },
    {
        match Regs::translate_reg16(reg_num) {
            Some(r) => self.read_reg(r),
            None => None,
        }
    }

    /// The value of an 8-bit sub-register selected by its register number.
    pub fn get_reg_8(&self, reg_num: u8) -> (v: Option<u8>)
        ensures
            reg_num < 8 ==> v == Some(self@.reg8(reg_num)),
            reg_num >= 8 ==> v is None,
    {
        match Regs::translate_reg8(reg_num) {
            Some((r, part)) => Some(self.read_reg_part(r, part)),
            None => None,
        }
    }

    /// True when any bit of the mask is set in the FLAGS register.
    pub(crate) fn check_flag(&self, flag: u16) -> (r: bool)
        ensures
            r == self@.flag_set(flag),
    {
        self.flags.value & flag != 0
    }

    /// Turns the masked flag bits on.
    pub(crate) fn set_flag(&mut self, flag: u16)
        ensures
            final(self)@ == old(self)@.with_flag(flag, true),
    {
        self.flags.value = self.flags.value | flag;
    }

    /// Turns the masked flag bits off.
    pub(crate) fn clear_flag(&mut self, flag: u16)
        ensures
            final(self)@ == old(self)@.with_flag(flag, false),
    {
        self.flags.value = self.flags.value & !flag;
    }

    /// Flips the masked flag bits.
    pub(crate) fn flip_flag(&mut self, flag: u16)
        ensures
            final(self)@ == old(self)@.with_reg(Regs::FLAGS, old(self)@.flags ^ flag),
    {
        self.flags.value = self.flags.value ^ flag;
    }

    /// Turns the masked flag bits on or off as the condition says.
    pub(crate) fn set_flag_if(&mut self, flag: u16, cond: bool)
        ensures
            final(self)@ == old(self)@.with_flag(flag, cond),
    {
        if cond {
            self.set_flag(flag);
        } else {
            self.clear_flag(flag);
        }
    }

    /// Reads the byte at segment:offset, counting one access cycle for a
    /// read that lands; a read past the end of memory is reported and costs
    /// nothing.
    pub(crate) fn mem_byte(&mut self, seg: Regs, off: u16) -> (r: Option<u8>)
        ensures
            r == old(self)@.byte_at(seg, off),
            final(self)@ == old(self)@,
            r is Some ==> final(self).next_cycles == spec_add_cycles(old(self).next_cycles, 1),
            r is None ==> final(self).next_cycles == old(self).next_cycles,
    {
        let seg_val = match self.read_reg(seg) {
            Some(v) => v,
            None => 0,
        };
        let addr = CPU::physical_address(seg_val, off) as usize;
        if addr < self.ram.len() {
            self.next_cycles = add_cycles(self.next_cycles, 1);
            Some(self.ram[addr])
        } else {
            None
        }
    }

    /// Reads the little-endian word at segment:offset, one access cycle per
    /// byte that lands.
    pub(crate) fn mem_word(&mut self, seg: Regs, off: u16) -> (r: Option<u16>)
        ensures
            r == old(self)@.word_at(seg, off),
            final(self)@ == old(self)@,
            r is Some ==> final(self).next_cycles == spec_add_cycles(
                spec_add_cycles(old(self).next_cycles, 1),
                1,
            ),
    {
        let lo = self.mem_byte(seg, off);
        let hi = self.mem_byte(seg, wrap_add(off, 1));
        match (lo, hi) {
            (Some(l), Some(h)) => Some((h as u16) * 256 + (l as u16)),
            _ => None,
        }
    }

    /// Reads the little-endian double word at segment:offset.
    pub(crate) fn mem_dword(&mut self, seg: Regs, off: u16) -> (r: Option<u32>)
        ensures
            r == old(self)@.dword_at(seg, off),
            final(self)@ == old(self)@,
    {
        let lo = self.mem_word(seg, off);
        let hi = self.mem_word(seg, wrap_add(off, 2));
        match (lo, hi) {
            (Some(l), Some(h)) => Some((h as u32) * 0x10000 + (l as u32)),
            _ => None,
        }
    }

    /// Writes the byte at segment:offset, counting one access cycle, or
    /// reports the bounds violation and leaves the machine unchanged.
    pub(crate) fn mem_write_byte(&mut self, seg: Regs, off: u16, val: u8) -> (r: Result<
        (),
        CpuErr,
    >)
        ensures
            r is Ok <==> old(self)@.byte_in_bounds(seg, off),
            r is Ok ==> final(self)@ == old(self)@.with_byte(seg, off, val),
            r is Ok ==> final(self).next_cycles == spec_add_cycles(old(self).next_cycles, 1),
            r is Err ==> final(self)@ == old(self)@ && r == Err::<(), CpuErr>(CpuErr::OutOfBounds)
                && final(self).next_cycles == old(self).next_cycles,
    {
        let seg_val = match self.read_reg(seg) {
            Some(v) => v,
            None => 0,
        };
        let addr = CPU::physical_address(seg_val, off) as usize;
        if addr < self.ram.len() {
            self.next_cycles = add_cycles(self.next_cycles, 1);
            self.ram.set(addr, val);
            Ok(())
        } else {
            Err(CpuErr::OutOfBounds)
        }
    }

    /// Writes the little-endian word at segment:offset, whole or not at all.
    pub(crate) fn mem_write_word(&mut self, seg: Regs, off: u16, val: u16) -> (r: Result<
        (),
        CpuErr,
    >)
        ensures
            r is Ok <==> old(self)@.word_in_bounds(seg, off),
            r is Ok ==> final(self)@ == old(self)@.with_word(seg, off, val),
            r is Err ==> final(self)@ == old(self)@ && r == Err::<(), CpuErr>(CpuErr::OutOfBounds),
    {
        if self.mem_in_bounds(seg, off) && self.mem_in_bounds(seg, wrap_add(off, 1)) {
            let lo = (val % 256) as u8;
            let hi = (val / 256) as u8;
            let r1 = self.mem_write_byte(seg, off, lo);
            let r2 = self.mem_write_byte(seg, wrap_add(off, 1), hi);
            Ok(())
        } else {
            Err(CpuErr::OutOfBounds)
        }
    }

    /// Writes the little-endian double word at segment:offset, whole or not
    /// at all.
    pub(crate) fn mem_write_dword(&mut self, seg: Regs, off: u16, val: u32) -> (r: Result<
        (),
        CpuErr,
    >)
        ensures
            r is Ok <==> old(self)@.dword_in_bounds(seg, off),
            r is Ok ==> final(self)@ == old(self)@.with_dword(seg, off, val),
            r is Err ==> final(self)@ == old(self)@ && r == Err::<(), CpuErr>(CpuErr::OutOfBounds),
    {
        if self.mem_in_bounds(seg, off) && self.mem_in_bounds(seg, wrap_add(off, 1))
            && self.mem_in_bounds(seg, wrap_add(off, 2)) && self.mem_in_bounds(
            seg,
            wrap_add(off, 3),
        ) {
            let lo = (val % 0x10000) as u16;
            let hi = (val / 0x10000) as u16;
            let r1 = self.mem_write_word(seg, off, lo);
            let r2 = self.mem_write_word(seg, wrap_add(off, 2), hi);
            assert(wadd(wadd(off, 2), 1) == wadd(off, 3));
            Ok(())
        } else {
            Err(CpuErr::OutOfBounds)
        }
    }

    /// True when segment:offset lies inside the memory.
    pub(crate) fn mem_in_bounds(&self, seg: Regs, off: u16) -> (r: bool)
        ensures
            r == self@.byte_in_bounds(seg, off),
    {
        let seg_val = match self.read_reg(seg) {
            Some(v) => v,
            None => 0,
        };
        (CPU::physical_address(seg_val, off) as usize) < self.ram.len()
    }

    /// Writes the sentinel interrupt-vector-table entry that routes the
    /// given vector to the peripheral with the given index: the index word
    /// lands in the entry's offset slot and the sentinel 0xFFFF in its
    /// segment slot, and nothing else changes.
    pub fn hook_interrupt(&mut self, dev_index: usize, int_num: u8) -> (r: Result<(), CpuErr>)
        ensures
            r is Ok <==> (int_num as int) * 4 + 3 < old(self)@.ram.len() && dev_index < 0x10000,
            r is Ok ==> final(self)@ == old(self)@.overwrite(
                (int_num as int) * 4,
                seq![
                    low_byte(dev_index as u16),
                    high_byte(dev_index as u16),
                    0xFFu8,
                    0xFFu8,
                ],
            ),
            r is Err ==> final(self)@ == old(self)@,
    {
        let base: usize = (int_num as usize) * 4;
        if base + 3 < self.ram.len() && dev_index < 0x10000 {
            let idx = dev_index as u16;
            self.ram.set(base, (idx % 256) as u8);
            self.ram.set(base + 1, (idx / 256) as u8);
            self.ram.set(base + 2, 0xFF);
            self.ram.set(base + 3, 0xFF);
            proof {
                assert(self.ram@ =~= old(self)@.overwrite(
                    (int_num as int) * 4,
                    seq![
                        low_byte(dev_index as u16),
                        high_byte(dev_index as u16),
                        0xFFu8,
                        0xFFu8,
                    ],
                ).ram);
            }
            Ok(())
        } else {
            Err(CpuErr::OutOfBounds)
        }
    }

    /// The byte at an absolute memory offset, for host-side inspection.
    pub fn probe_mem(&self, loc: usize) -> (r: u8)
        requires
            loc < self@.ram.len(),
        ensures
            r == self@.ram[loc as int],
    {
        self.ram[loc]
    }

    /// The little-endian word at an absolute memory offset.
    pub fn probe_mem_word(&self, loc: usize) -> (r: u16)
        requires
            loc + 1 < self@.ram.len(),
        ensures
            r == word_of(self@.ram[loc + 1], self@.ram[loc as int]),
    {
        let l: usize = self.ram.len();
        (self.ram[loc] as u16) + (self.ram[loc + 1] as u16) * 256
    }
}

/// Saturating cycle addition: the counter sticks at its ceiling rather than
/// wrapping.
pub open spec fn spec_add_cycles(a: usize, b: usize) -> usize {
    if a + b <= usize::MAX {
        (a + b) as usize
    } else {
        usize::MAX
    }
}

/// Saturating cycle bookkeeping at run time.
pub(crate) fn add_cycles(a: usize, b: usize) -> (r: usize)
    ensures
        r == spec_add_cycles(a, b),
{
    if a <= usize::MAX - b {
        a + b
    } else {
        usize::MAX
    }
}

/// 16-bit addition wrapping around the offset space.
pub(crate) fn wrap_add(x: u16, y: u16) -> (r: u16)
    ensures
        r == model::wadd(x, y),
{
    (((x as u32) + (y as u32)) % 0x10000) as u16
}

use crate::cpu::model::wadd;

/// The whole machine: the bus-visible state plus the registered peripherals
/// and the memory-mapped I/O hook table.
pub struct CPU {
    pub bus: Bus,
    pub io_devices: Vec<crate::peripheral::DeviceSlot>,
    pub io_memory_hooks: Vec<(u16, usize)>,
}

impl View for CPU {
    type V = Arch;

    open spec fn view(&self) -> Arch {
        self.bus@
    }
}

impl CPU {
    /// The registered memory-mapped I/O hooks, newest last.
    pub open spec fn hooks(&self) -> Seq<(u16, usize)> {
        self.io_memory_hooks@
    }

    /// How many peripherals are registered.
    pub open spec fn dev_count(&self) -> nat {
        self.io_devices@.len()
    }

    /// A machine with the given amount of zeroed memory, every register
    /// zero, nothing pending and nothing hooked.
    pub fn new(ram_size: usize) -> (r: CPU)
        ensures
            r@.ram.len() == ram_size,
            forall|i: int| 0 <= i < ram_size ==> r@.ram[i] == 0,
            forall|rr: Regs| r@.reg(rr) == 0,
            r@.irq is None,
            r@.instruction is None,
            r.hooks().len() == 0,
    {
        CPU { bus: Bus::new(ram_size), io_devices: Vec::new(), io_memory_hooks: Vec::new() }
    }

    /// The 20-bit physical address a segment and an offset name.
    pub fn physical_address(seg: u16, offset: u16) -> (r: u32)
        ensures
            r == Arch::phys(seg, offset),
    {
        (seg as u32) * 16 + (offset as u32)
    }

    /// The current value of a register.
    pub fn read_reg(&self, r: Regs) -> (v: Option<u16>)
        ensures
            v == Some(self@.reg(r)),
    {
        self.bus.read_reg(r)
    }

    /// Replaces the value of a register.
    pub fn set_reg(&mut self, r: Regs, val: u16)
        ensures
            final(self)@ == old(self)@.with_reg(r, val),
            final(self).hooks() == old(self).hooks(),
    {
        self.bus.set_reg(r, val);
    }

    /// Reads one byte half of a register.
    pub fn read_reg_part(&self, r: Regs, part: WordPart) -> (v: u8)
        ensures
            part is Low ==> v == low_byte(self@.reg(r)),
            part is High ==> v == high_byte(self@.reg(r)),
    {
        self.bus.read_reg_part(r, part)
    }

    /// Writes one byte half of a register, leaving the other half unchanged.
    pub fn set_reg_part(&mut self, r: Regs, part: WordPart, val: u8)
        ensures
            part is Low ==> final(self)@ == old(self)@.with_reg(
                r,
                word_of(high_byte(old(self)@.reg(r)), val),
            ),
            part is High ==> final(self)@ == old(self)@.with_reg(
                r,
                word_of(val, low_byte(old(self)@.reg(r))),
            ),
            final(self).hooks() == old(self).hooks(),
    {
        self.bus.set_reg_part(r, part, val);
    }

    /// The byte at an absolute memory offset, for host-side inspection.
    pub fn probe_mem(&self, loc: usize) -> (r: u8)
        requires
            loc < self@.ram.len(),
        ensures
            r == self@.ram[loc as int],
    {
        self.bus.probe_mem(loc)
    }

    /// The little-endian word at an absolute memory offset.
    pub fn probe_mem_word(&self, loc: usize) -> (r: u16)
        requires
            loc + 1 < self@.ram.len(),
        ensures
            r == word_of(self@.ram[loc + 1], self@.ram[loc as int]),
    {
        self.bus.probe_mem_word(loc)
    }

    /// The byte at an offset taken through DS, for host-side inspection.
    pub fn probe_mem_ds(&self, loc: u16) -> (r: u8)
        requires
            self@.byte_in_bounds(Regs::DS, loc),
        ensures
            Some(r) == self@.byte_at(Regs::DS, loc),
    {
        let ds = match self.read_reg(Regs::DS) {
            Some(v) => v,
            None => 0,
        };
        self.probe_mem(CPU::physical_address(ds, loc) as usize)
    }

    /// The byte at an offset taken through ES, for host-side inspection.
    pub fn probe_mem_es(&self, loc: u16) -> (r: u8)
        requires
            self@.byte_in_bounds(Regs::ES, loc),
        ensures
            Some(r) == self@.byte_at(Regs::ES, loc),
    {
        let es = match self.read_reg(Regs::ES) {
            Some(v) => v,
            None => 0,
        };
        self.probe_mem(CPU::physical_address(es, loc) as usize)
    }

    /// The word at an offset taken through DS, for host-side inspection;
    /// the second byte's offset wraps within the segment.
    pub fn probe_mem_ds_word(&self, loc: u16) -> (r: u16)
        requires
            self@.word_in_bounds(Regs::DS, loc),
        ensures
            Some(r) == self@.word_at(Regs::DS, loc),
    {
        let ds = match self.read_reg(Regs::DS) {
            Some(v) => v,
            None => 0,
        };
        let lo = self.probe_mem(CPU::physical_address(ds, loc) as usize);
        let hi = self.probe_mem(CPU::physical_address(ds, wrap_add(loc, 1)) as usize);
        (hi as u16) * 256 + (lo as u16)
    }

    /// The word at an offset taken through ES, for host-side inspection;
    /// the second byte's offset wraps within the segment.
    pub fn probe_mem_es_word(&self, loc: u16) -> (r: u16)
        requires
            self@.word_in_bounds(Regs::ES, loc),
        ensures
            Some(r) == self@.word_at(Regs::ES, loc),
    {
        let es = match self.read_reg(Regs::ES) {
            Some(v) => v,
            None => 0,
        };
        let lo = self.probe_mem(CPU::physical_address(es, loc) as usize);
        let hi = self.probe_mem(CPU::physical_address(es, wrap_add(loc, 1)) as usize);
        (hi as u16) * 256 + (lo as u16)
    }

    /// The byte at an offset taken through the given segment register.
    pub fn get_mem_seg(&self, seg: Regs, loc: u16) -> (r: u8)
        requires
            self@.byte_in_bounds(seg, loc),
        ensures
            Some(r) == self@.byte_at(seg, loc),
    {
        let seg_val = match self.read_reg(seg) {
            Some(v) => v,
            None => 0,
        };
        self.probe_mem(CPU::physical_address(seg_val, loc) as usize)
    }

    /// Overwrites memory from an absolute offset with the given bytes,
    /// whole or not at all.
    pub fn write_bytes(&mut self, start_loc: usize, bytes: Vec<u8>) -> (r: Result<(), CpuErr>)
        ensures
            r is Ok <==> start_loc + bytes@.len() <= old(self)@.ram.len(),
            r is Ok ==> final(self)@ == old(self)@.overwrite(start_loc as int, bytes@),
            r is Err ==> final(self)@ == old(self)@,
            final(self).hooks() == old(self).hooks(),
    {
        if start_loc <= self.bus.ram.len() && bytes.len() <= self.bus.ram.len() - start_loc {
            let ghost target = old(self)@.ram.map(
                |i: int, b: u8|
                    if start_loc <= i < start_loc + bytes@.len() {
                        bytes@[i - start_loc]
                    } else {
                        b
                    },
            );
            let rl: usize = self.bus.ram.len();
            let mut i: usize = 0;
            while i < bytes.len()
                invariant
                    i <= bytes@.len(),
                    start_loc + bytes@.len() <= self.bus.ram@.len(),
                    self.bus.ram@.len() <= usize::MAX,
                    self.bus.ram@.len() == old(self)@.ram.len(),
                    forall|j: int|
                        0 <= j < self.bus.ram@.len() ==> self.bus.ram@[j] == if start_loc <= j
                            < start_loc + i {
                            bytes@[j - start_loc]
                        } else {
                            old(self)@.ram[j]
                        },
                    self.bus.ax == old(self).bus.ax,
                    self.bus.bx == old(self).bus.bx,
                    self.bus.cx == old(self).bus.cx,
                    self.bus.dx == old(self).bus.dx,
                    self.bus.si == old(self).bus.si,
                    self.bus.di == old(self).bus.di,
                    self.bus.sp == old(self).bus.sp,
                    self.bus.bp == old(self).bus.bp,
                    self.bus.es == old(self).bus.es,
                    self.bus.cs == old(self).bus.cs,
                    self.bus.ss == old(self).bus.ss,
                    self.bus.ds == old(self).bus.ds,
                    self.bus.ip == old(self).bus.ip,
                    self.bus.flags == old(self).bus.flags,
                    self.bus.irq == old(self).bus.irq,
                    self.bus.opcode_address == old(self).bus.opcode_address,
                    self.bus.instruction == old(self).bus.instruction,
                    self.io_memory_hooks == old(self).io_memory_hooks,
                    self.io_devices@.len() == old(self).io_devices@.len(),
                decreases bytes@.len() - i,
            {
                self.bus.ram.set(start_loc + i, bytes[i]);
                i = i + 1;
            }
            proof {
                assert(self.bus.ram@ =~= target);
            }
            Ok(())
        } else {
            Err(CpuErr::OutOfBounds)
        }
    }

    /// Overwrites memory with the given bytes at an offset taken through DS.
    pub fn write_bytes_ds(&mut self, start_loc: u16, bytes: Vec<u8>) -> (r: Result<(), CpuErr>)
        ensures
            r is Ok <==> old(self)@.seg_phys(Regs::DS, start_loc) + bytes@.len() <= old(
                self,
            )@.ram.len(),
            r is Ok ==> final(self)@ == old(self)@.overwrite(
                old(self)@.seg_phys(Regs::DS, start_loc),
                bytes@,
            ),
            r is Err ==> final(self)@ == old(self)@,
            final(self).hooks() == old(self).hooks(),
    {
        let ds = match self.read_reg(Regs::DS) {
            Some(v) => v,
            None => 0,
        };
        self.write_bytes(CPU::physical_address(ds, start_loc) as usize, bytes)
    }

    /// Overwrites memory with the given bytes at an offset taken through ES.
    pub fn write_bytes_es(&mut self, start_loc: u16, bytes: Vec<u8>) -> (r: Result<(), CpuErr>)
        ensures
            r is Ok <==> old(self)@.seg_phys(Regs::ES, start_loc) + bytes@.len() <= old(
                self,
            )@.ram.len(),
            r is Ok ==> final(self)@ == old(self)@.overwrite(
                old(self)@.seg_phys(Regs::ES, start_loc),
                bytes@,
            ),
            r is Err ==> final(self)@ == old(self)@,
            final(self).hooks() == old(self).hooks(),
    {
        let es = match self.read_reg(Regs::ES) {
            Some(v) => v,
            None => 0,
        };
        self.write_bytes(CPU::physical_address(es, start_loc) as usize, bytes)
    }

    /// Writes one little-endian word at an absolute memory offset.
    pub fn write_word(&mut self, loc: usize, word: u16) -> (r: Result<(), CpuErr>)
        ensures
            r is Ok <==> loc + 2 <= old(self)@.ram.len(),
            r is Ok ==> final(self)@ == old(self)@.overwrite(
                loc as int,
                seq![low_byte(word), high_byte(word)],
            ),
            r is Err ==> final(self)@ == old(self)@,
            final(self).hooks() == old(self).hooks(),
    {
        if loc < self.bus.ram.len() && loc + 1 < self.bus.ram.len() {
            self.bus.ram.set(loc, (word % 256) as u8);
            self.bus.ram.set(loc + 1, (word / 256) as u8);
            proof {
                assert(self.bus.ram@ =~= old(self)@.overwrite(
                    loc as int,
                    seq![low_byte(word), high_byte(word)],
                ).ram);
            }
            Ok(())
        } else {
            Err(CpuErr::OutOfBounds)
        }
    }

    /// Loads a program image: the memory region starting at the given offset
    /// is overwritten verbatim with the bytes.
    pub fn load(&mut self, data: Vec<u8>, loc: usize)
        requires
            loc + data@.len() <= old(self)@.ram.len(),
        ensures
            final(self)@ == old(self)@.overwrite(loc as int, data@),
            final(self).hooks() == old(self).hooks(),
    {
        let r = self.write_bytes(loc, data);
    }

    /// Registers a peripheral: the device is handed its index, may claim
    /// interrupt vectors through the bus, and every memory-mapped address it
    /// returns is hooked to it. Returns the assigned index, under which the
    /// device is then present; indices are handed out in registration order
    /// and a registration is never undone.
    pub fn hook_peripheral(
        &mut self,
        dev: std::boxed::Box<dyn crate::peripheral::Peripheral>,
    ) -> (index: usize)
        ensures
            index == old(self).dev_count(),
            final(self).dev_count() == old(self).dev_count() + 1,
            final(self).io_devices@[index as int].dev is Some,
    {
        let index = self.io_devices.len();
        let wanted = dev.init(&mut self.bus, index);
        let slot = crate::peripheral::make_slot(dev);
        self.io_devices.push(slot);
        let mut i: usize = 0;
        while i < wanted.len()
            invariant
                self.io_devices@.len() == old(self).io_devices@.len() + 1,
                index < self.io_devices@.len(),
                self.io_devices@[index as int].dev is Some,
            decreases wanted@.len() - i,
        {
            self.io_memory_hooks.push((wanted[i], index));
            i = i + 1;
        }
        index
    }

    /// Hooks one memory-mapped address to the peripheral with the given
    /// index: reads and writes of that address go to the device, not memory.
    pub fn hook_io_memory(&mut self, dev_index: usize, address: u16)
        ensures
            final(self).hooks() == old(self).hooks().push((address, dev_index)),
            final(self)@ == old(self)@,
    {
        self.io_memory_hooks.push((address, dev_index));
    }

    /// Writes the sentinel interrupt-vector-table entry that routes the
    /// given vector to the peripheral with the given index: the index word
    /// lands in the entry's offset slot and the sentinel 0xFFFF in its
    /// segment slot, and nothing else changes.
    pub fn hook_interrupt(&mut self, dev_index: usize, int_num: u8) -> (r: Result<(), CpuErr>)
        ensures
            final(self).hooks() == old(self).hooks(),
            r is Ok <==> (int_num as int) * 4 + 3 < old(self)@.ram.len() && dev_index < 0x10000,
            r is Ok ==> final(self)@ == old(self)@.overwrite(
                (int_num as int) * 4,
                seq![
                    low_byte(dev_index as u16),
                    high_byte(dev_index as u16),
                    0xFFu8,
                    0xFFu8,
                ],
            ),
            r is Err ==> final(self)@ == old(self)@,
    {
        self.bus.hook_interrupt(dev_index, int_num)
    }

    /// The peripheral index hooked to a memory-mapped address, if any.
    /// The earliest registration of an address wins.
    pub fn io_hook_for(&self, address: u16) -> (r: Option<usize>)
        ensures
            r == spec_io_hook_for(self.hooks(), address),
    {
        let mut i: usize = 0;
        proof {
            assert(self.io_memory_hooks@.skip(0) =~= self.io_memory_hooks@);
        }
        while i < self.io_memory_hooks.len()
            invariant
                i <= self.io_memory_hooks@.len(),
                spec_io_hook_for(self.io_memory_hooks@, address) == spec_io_hook_for(
                    self.io_memory_hooks@.skip(i as int),
                    address,
                ),
            decreases self.io_memory_hooks@.len() - i,
        {
            let (addr, idx) = self.io_memory_hooks[i];
            proof {
                assert(self.io_memory_hooks@.skip(i as int)[0] == self.io_memory_hooks@[i as int]);
                assert(self.io_memory_hooks@.skip(i as int).skip(1) == self.io_memory_hooks@.skip(
                    i + 1,
                ));
            }
            if addr == address {
                return Some(idx);
            }
            i = i + 1;
        }
        None
    }
}

/// The peripheral index the hook table routes an address to: the earliest
/// entry for that address.
pub open spec fn spec_io_hook_for(hooks: Seq<(u16, usize)>, address: u16) -> Option<usize>
    decreases hooks.len(),
{
    if hooks.len() == 0 {
        None
    } else if hooks[0].0 == address {
        Some(hooks[0].1)
    } else {
        spec_io_hook_for(hooks.skip(1), address)
    }
}

impl CPU {
    /// A byte widened to a word by copying its sign bit upward.
    pub fn sign_extend(num: u8) -> (r: u16)
        ensures
            r == model::spec_sign_extend(num),
    {
        if num < 0x80 {
            num as u16
        } else {
            0xFF00 + (num as u16)
        }
    }
}

impl Bus {
    /// Writes a value to an operand location: a register write (a byte value
    /// is sign-extended into a 16-bit register), or a memory write through
    /// the given segment at the location's declared width. Fails, leaving
    /// the machine unchanged, when the location cannot take the value.
    pub(crate) fn write_to_arg(&mut self, arg: DstArg, seg: Regs, val: SrcArg) -> (r: Result<
        (),
        CpuErr,
    >)
        ensures
            r is Ok <==> model::spec_write_arg(old(self)@, seg, arg, val) is Some,
            r is Ok ==> Some(final(self)@) == model::spec_write_arg(old(self)@, seg, arg, val),
            r is Err ==> final(self)@ == old(self)@,
    {
        match arg {
            DstArg::Reg16(n) => match (Regs::translate_reg16(n), val) {
                (Some(r16), SrcArg::Byte(b)) => {
                    self.set_reg(r16, CPU::sign_extend(b));
                    Ok(())
                },
                (Some(r16), SrcArg::Word(w)) => {
                    self.set_reg(r16, w);
                    Ok(())
                },
                _ => Err(CpuErr::BadOperand),
            },
            DstArg::Reg8(n) => match val {
                SrcArg::Byte(b) => match Regs::translate_reg8(n) {
                    Some((r16, part)) => {
                        self.set_reg_part(r16, part, b);
                        Ok(())
                    },
                    None => Err(CpuErr::BadOperand),
                },
                _ => Err(CpuErr::BadOperand),
            },
            DstArg::Reg(r16) => match val {
                SrcArg::Byte(b) => {
                    self.set_reg(r16, CPU::sign_extend(b));
                    Ok(())
                },
                SrcArg::Word(w) => {
                    self.set_reg(r16, w);
                    Ok(())
                },
                SrcArg::DWord(_) => Err(CpuErr::BadOperand),
            },
            DstArg::Ptr(_, _)
            | DstArg::RegPtr(_, _)
            | DstArg::RegPtrImm(_, _, _)
            | DstArg::RegPtrOff(_, _, _)
            | DstArg::RegPtrOffImm(_, _, _, _) => {
                let off = match arg.to_ptr(self) {
                    Some(o) => o,
                    None => 0,
                };
                let size = match arg.mem_size() {
                    Some(s) => s,
                    None => Size::Byte,
                };
                match size {
                    Size::Byte => match val {
                        SrcArg::Byte(b) => self.mem_write_byte(seg, off, b),
                        SrcArg::Word(w) => self.mem_write_byte(seg, off, (w % 256) as u8),
                        SrcArg::DWord(_) => Err(CpuErr::BadOperand),
                    },
                    Size::Word => match val {
                        SrcArg::Byte(b) => self.mem_write_word(seg, off, b as u16),
                        SrcArg::Word(w) => self.mem_write_word(seg, off, w),
                        SrcArg::DWord(_) => Err(CpuErr::BadOperand),
                    },
                    Size::DWord => match val {
                        SrcArg::DWord(d) => self.mem_write_dword(seg, off, d),
                        _ => Err(CpuErr::BadOperand),
                    },
                }
            },
            _ => Err(CpuErr::BadOperand),
        }
    }
}

impl Bus {
    /// Recomputes the zero flag from a result value.
    pub(crate) fn check_zero(&mut self, result: &SrcArg)
        ensures
            final(self)@ == old(self)@.with_flag(CPUFlags::ZERO, model::val_is_zero(*result)),
    {
        let z = match result {
            SrcArg::Byte(b) => *b == 0,
            SrcArg::Word(w) => *w == 0,
            SrcArg::DWord(d) => *d == 0,
        };
        self.set_flag_if(CPUFlags::ZERO, z);
    }

    /// Recomputes the sign flag from a result value's top bit.
    pub(crate) fn check_sign(&mut self, result: &SrcArg)
        ensures
            final(self)@ == old(self)@.with_flag(CPUFlags::SIGN, model::val_sign(*result)),
    {
        let s = match result {
            SrcArg::Byte(b) => *b >= 0x80,
            SrcArg::Word(w) => *w >= 0x8000,
            SrcArg::DWord(d) => *d >= 0x8000_0000,
        };
        self.set_flag_if(CPUFlags::SIGN, s);
    }

    /// Recomputes the parity flag from a result's low byte: set when the
    /// number of one bits there is even.
    pub(crate) fn check_parity(&mut self, result: &SrcArg)
        ensures
            final(self)@ == old(self)@.with_flag(
                CPUFlags::PARITY,
                alu::spec_parity_even(model::val_low_byte(*result)),
            ),
    {
        let b: u8 = match result {
            SrcArg::Byte(b) => *b,
            SrcArg::Word(w) => (*w % 256) as u8,
            SrcArg::DWord(d) => (*d % 256) as u8,
        };
        let p = alu::parity_even(b);
        self.set_flag_if(CPUFlags::PARITY, p);
    }

    /// Recomputes the zero, sign and parity flags from a result value, each
    /// only where the mask selects it.
    pub(crate) fn check_flags_in_result(&mut self, result: &SrcArg, flags: u16)
        ensures
            final(self)@ == old(self)@.with_result_flags(*result, flags),
    {
        if flags & CPUFlags::ZERO != 0 {
            self.check_zero(result);
        }
        if flags & CPUFlags::SIGN != 0 {
            self.check_sign(result);
        }
        if flags & CPUFlags::PARITY != 0 {
            self.check_parity(result);
        }
    }

    /// Pushes one word: it lands at SS:(SP-1) and SP moves down by two.
    /// Stack traffic always goes through the SS segment.
    pub(crate) fn push_word(&mut self, val: u16) -> (r: Result<(), CpuErr>)
        ensures
            r is Ok <==> old(self)@.spec_push_word(val) is Some,
            r is Ok ==> Some(final(self)@) == old(self)@.spec_push_word(val),
            r is Err ==> final(self)@ == old(self)@,
    {
        let sp = match self.read_reg(Regs::SP) {
            Some(v) => v,
            None => 0,
        };
        let off = wrap_sub(sp, 1);
        match self.mem_write_word(Regs::SS, off, val) {
            Ok(()) => {
                self.set_reg(Regs::SP, wrap_sub(sp, 2));
                Ok(())
            },
            Err(e) => Err(e),
        }
    }

    /// Pops one word: it is read from SS:(SP+1) and SP moves up by two.
    pub(crate) fn pop_word(&mut self) -> (r: Result<u16, CpuErr>)
        ensures
            r is Ok <==> old(self)@.spec_pop_word() is Some,
            r is Ok ==> Some((final(self)@, r.unwrap())) == old(self)@.spec_pop_word(),
            r is Err ==> final(self)@ == old(self)@,
    {
        let sp = match self.read_reg(Regs::SP) {
            Some(v) => v,
            None => 0,
        };
        let off = wrap_add(sp, 1);
        match self.mem_word(Regs::SS, off) {
            Some(w) => {
                self.set_reg(Regs::SP, wrap_add(sp, 2));
                Ok(w)
            },
            None => Err(CpuErr::OutOfBounds),
        }
    }
}

/// 16-bit subtraction wrapping around the offset space.
pub(crate) fn wrap_sub(x: u16, y: u16) -> (r: u16)
    ensures
        r == model::wsub(x, y),
{
    if x >= y {
        x - y
    } else {
        (((x as u32) + 0x10000) - (y as u32)) as u16
    }
}

impl Bus {
    /// Raises a processor exception: rewinds CS:IP for the exceptions that
    /// re-point execution and latches the vector. Refuses a code outside the
    /// defined exception set.
    pub(crate) fn except(&mut self, code: u8) -> (r: Result<(), CpuErr>)
        ensures
            r is Ok <==> old(self)@.spec_except(code) is Some,
            r is Ok ==> Some(final(self)@) == old(self)@.spec_except(code),
            r is Err ==> final(self)@ == old(self)@,
    {
        if code == exceptions::DIVIDE_BY_ZERO || code == exceptions::BOUND || code
            == exceptions::INVALID_OPCODE || code == exceptions::NO_EXTENSION {
            let addr = self.opcode_address;
            self.set_reg(Regs::CS, addr.0);
            self.set_reg(Regs::IP, addr.1);
            self.irq = Some(code);
            Ok(())
        } else if code == exceptions::INTO {
            self.irq = Some(code);
            Ok(())
        } else {
            Err(CpuErr::BadException)
        }
    }
}

impl CPU {
    /// Hands an interrupt to the peripheral with the given index. The device
    /// is lifted out of its slot around the call, so its handler may reach
    /// back into the bus freely; the device then returns to its slot.
    pub(crate) fn dispatch_interrupt(&mut self, dev_index: usize, int_num: u8) -> (r: usize)
        ensures
            final(self).hooks() == old(self).hooks(),
    {
        if dev_index < self.io_devices.len() {
            let mut slot = self.io_devices.remove(dev_index);
            let res: usize = match &mut slot.dev {
                Some(dev) => dev.handle_interrupt(&mut self.bus, int_num),
                None => 0,
            };
            self.io_devices.insert(dev_index, slot);
            res
        } else {
            0
        }
    }

    /// Routes a memory-mapped byte read to the hooked peripheral.
    pub(crate) fn dispatch_read_byte(&mut self, dev_index: usize, address: u16) -> (r: u8)
        ensures
            final(self)@ == old(self)@,
            final(self).hooks() == old(self).hooks(),
    {
        if dev_index < self.io_devices.len() {
            let mut slot = self.io_devices.remove(dev_index);
            let res: u8 = match &mut slot.dev {
                Some(dev) => dev.handle_mem_read_byte(address),
                None => 0,
            };
            self.io_devices.insert(dev_index, slot);
            res
        } else {
            0
        }
    }

    /// Routes a memory-mapped word read to the hooked peripheral.
    pub(crate) fn dispatch_read_word(&mut self, dev_index: usize, address: u16) -> (r: u16)
        ensures
            final(self)@ == old(self)@,
            final(self).hooks() == old(self).hooks(),
    {
        if dev_index < self.io_devices.len() {
            let mut slot = self.io_devices.remove(dev_index);
            let res: u16 = match &mut slot.dev {
                Some(dev) => dev.handle_mem_read_word(address),
                None => 0,
            };
            self.io_devices.insert(dev_index, slot);
            res
        } else {
            0
        }
    }

    /// Routes a memory-mapped byte write to the hooked peripheral; ordinary
    /// memory is never touched.
    pub(crate) fn dispatch_write_byte(&mut self, dev_index: usize, address: u16, val: u8)
        ensures
            final(self)@ == old(self)@,
            final(self).hooks() == old(self).hooks(),
    {
        if dev_index < self.io_devices.len() {
            let mut slot = self.io_devices.remove(dev_index);
            match &mut slot.dev {
                Some(dev) => dev.handle_mem_write_byte(address, val),
                None => (),
            }
            self.io_devices.insert(dev_index, slot);
        }
    }

    /// Routes a memory-mapped word write to the hooked peripheral.
    pub(crate) fn dispatch_write_word(&mut self, dev_index: usize, address: u16, val: u16)
        ensures
            final(self)@ == old(self)@,
            final(self).hooks() == old(self).hooks(),
    {
        if dev_index < self.io_devices.len() {
            let mut slot = self.io_devices.remove(dev_index);
            match &mut slot.dev {
                Some(dev) => dev.handle_mem_write_word(address, val),
                None => (),
            }
            self.io_devices.insert(dev_index, slot);
        }
    }
}

/// True of a machine at rest with work ahead: no pending cycles, no
/// in-flight instruction, no pending interrupt, a memory the decoder can
/// index, a decodable instruction at CS:IP, and a behavior the machine
/// state alone decides.
pub open spec fn spec_ready(a: Arch, cycles: usize) -> bool {
    &&& cycles == 0
    &&& a.instruction is None
    &&& a.irq is None
    &&& a.ram.len() + 8 <= usize::MAX
    &&& spec_fetch(a) is Some
    &&& !crate::cpu::instruction::actions::is_device_dependent(
        spec_fetch(a).unwrap().instruction.unwrap().action,
    )
}

/// The state after one whole instruction from a quiescent machine: the fetch
/// at CS:IP composed with the fetched instruction's execution, the in-flight
/// slot cleared again.
pub open spec fn spec_run_one(a: Arch, hooks: Seq<(u16, usize)>) -> Option<Arch> {
    let f = spec_fetch(a).unwrap();
    let i = f.instruction.unwrap();
    match crate::cpu::instruction::actions::spec_exec(f, hooks, i) {
        Some(b) => Some(b.with_instruction(None)),
        None => None,
    }
}

/// Fetching one instruction: the bytes at CS:IP decode to exactly one
/// instruction, the fetch address is recorded for exception rewind, the
/// decoded instruction becomes the in-flight one, and IP advances past the
/// consumed bytes.
pub open spec fn spec_fetch(a: Arch) -> Option<Arch> {
    match crate::cpu::instruction::spec_decode(a.ram, Arch::phys(a.cs, a.ip), None) {
        Some(i) => Some(
            (Arch { instruction: Some(i), opcode_address: (a.cs, a.ip), ..a }).with_reg(
                Regs::IP,
                wadd(a.ip, i.length),
            ),
        ),
        None => None,
    }
}

impl CPU {
    /// One micro-step of the driver: a pending cycle burns off; else the
    /// in-flight instruction executes and clears; else a pending interrupt
    /// is serviced; else the next instruction is fetched and decoded, with
    /// the invalid-opcode condition and a fetch past the end of memory
    /// reported rather than executed.
    #[verifier::rlimit(100)]
    #[verifier::spinoff_prover]
    pub fn step(&mut self) -> (r: Result<(), CpuErr>)
        ensures
            final(self).hooks() == old(self).hooks(),
            old(self).bus.next_cycles > 0 ==> r is Ok && final(self)@ == old(self)@
                && final(self).bus.next_cycles == old(self).bus.next_cycles - 1,
            (old(self).bus.next_cycles == 0 && old(self)@.instruction is Some)
                ==> final(self)@.instruction is None,
            (old(self).bus.next_cycles == 0 && old(self)@.instruction is Some
                && !crate::cpu::instruction::actions::is_device_dependent(
                old(self)@.instruction.unwrap().action,
            )) ==> ((r is Ok <==> crate::cpu::instruction::actions::spec_exec(
                old(self)@,
                old(self).hooks(),
                old(self)@.instruction.unwrap(),
            ) is Some) && (r is Ok ==> Some(final(self)@)
                == (match crate::cpu::instruction::actions::spec_exec(
                old(self)@,
                old(self).hooks(),
                old(self)@.instruction.unwrap(),
            ) {
                Some(b) => Some(b.with_instruction(None)),
                None => None::<Arch>,
            }))),
            (old(self).bus.next_cycles == 0 && old(self)@.instruction is None
                && old(self)@.irq is None && old(self)@.ram.len() + 8 <= usize::MAX) ==> ((r is Ok
                <==> spec_fetch(old(self)@) is Some) && (r is Ok ==> Some(final(self)@)
                == spec_fetch(old(self)@)) && (r is Ok ==> final(self).bus.next_cycles
                == spec_add_cycles(
                old(self).bus.next_cycles,
                spec_fetch(old(self)@).unwrap().instruction.unwrap().next_cycles as usize,
            ))),
            (old(self).bus.next_cycles == 0 && old(self)@.instruction is None
                && old(self)@.irq is Some
                && crate::cpu::instruction::actions::interrupt::spec_service(
                old(self)@,
                old(self)@.irq.unwrap(),
            ) is Some) ==> r is Ok && Some(final(self)@)
                == crate::cpu::instruction::actions::interrupt::spec_service(
                old(self)@,
                old(self)@.irq.unwrap(),
            ),
    {
        if self.bus.next_cycles > 0 {
            self.bus.next_cycles = self.bus.next_cycles - 1;
            return Ok(());
        }
        let pending = self.bus.instruction;
        match pending {
            Some(inst) => {
                let res = inst.exec(self);
                self.bus.instruction = None;
                match res {
                    Ok(extra) => {
                        self.bus.next_cycles = add_cycles(self.bus.next_cycles, extra);
                        Ok(())
                    },
                    Err(e) => Err(e),
                }
            },
            None => {
                if self.bus.irq.is_some() {
                    match crate::cpu::instruction::actions::interrupt::int_service(self) {
                        Ok(extra) => {
                            self.bus.next_cycles = add_cycles(self.bus.next_cycles, extra);
                            Ok(())
                        },
                        Err(e) => Err(e),
                    }
                } else {
                    if self.bus.ram.len() > usize::MAX - 8 {
                        return Err(CpuErr::OutOfBounds);
                    }
                    let cs = match self.bus.read_reg(Regs::CS) {
                        Some(v) => v,
                        None => 0,
                    };
                    let ip = match self.bus.read_reg(Regs::IP) {
                        Some(v) => v,
                        None => 0,
                    };
                    let addr = CPU::physical_address(cs, ip) as usize;
                    match crate::cpu::instruction::decode_at(&self.bus.ram, addr, None) {
                        Ok(i) => {
                            self.bus.opcode_address = (cs, ip);
                            self.bus.next_cycles = add_cycles(
                                self.bus.next_cycles,
                                i.next_cycles as usize,
                            );
                            let new_ip = wrap_add(ip, i.length);
                            self.bus.instruction = Some(i);
                            self.bus.set_reg(Regs::IP, new_ip);
                            proof {
                                assert(Some(i) == crate::cpu::instruction::spec_decode(
                                    old(self)@.ram,
                                    Arch::phys(old(self)@.cs, old(self)@.ip),
                                    None,
                                ));
                                assert(self@ =~= spec_fetch(old(self)@).unwrap());
                                assert(self.bus.next_cycles == spec_add_cycles(
                                    old(self).bus.next_cycles,
                                    i.next_cycles as usize,
                                ));
                            }
                            Ok(())
                        },
                        Err(e) => Err(e),
                    }
                }
            },
        }
    }

    /// Steps until the instruction just fetched has fully completed,
    /// honoring pending cycles. From a quiescent machine this runs exactly
    /// one instruction: the decode at CS:IP composed with its execution.
    pub fn execute_next(&mut self) -> (r: Result<(), CpuErr>)
        ensures
            final(self).hooks() == old(self).hooks(),
            spec_ready(old(self)@, old(self).bus.next_cycles) ==> ((r is Ok <==> spec_run_one(
                old(self)@,
                old(self).hooks(),
            ) is Some) && (r is Ok ==> Some(final(self)@) == spec_run_one(
                old(self)@,
                old(self).hooks(),
            ))),
    {
        let ghost ready = spec_ready(self@, self.bus.next_cycles);
        let ghost f = spec_fetch(self@).unwrap();
        let ghost run = spec_run_one(self@, self.hooks());
        match self.step() {
            Ok(()) => (),
            Err(e) => {
                return Err(e);
            },
        }
        while self.bus.instruction.is_some() || self.bus.next_cycles > 0
            invariant
                self.hooks() == old(self).hooks(),
                ready == spec_ready(old(self)@, old(self).bus.next_cycles),
                f == spec_fetch(old(self)@).unwrap(),
                run == spec_run_one(old(self)@, old(self).hooks()),
                ready ==> ((self.bus.instruction is Some ==> self@ == f) && (
                self.bus.instruction is None ==> (run is Some && Some(self@) == run))),
            decreases (if self.bus.instruction is Some {
                1int
            } else {
                0int
            }), self.bus.next_cycles,
        {
            match self.step() {
                Ok(()) => (),
                Err(e) => {
                    return Err(e);
                },
            }
        }
        Ok(())
    }

    /// Moves IP to the given offset, then runs one instruction to
    /// completion: from a quiescent machine, exactly the decode at CS:loc
    /// composed with its execution.
    pub fn execute_next_from(&mut self, loc: u16) -> (r: Result<(), CpuErr>)
        ensures
            final(self).hooks() == old(self).hooks(),
            spec_ready(old(self)@.with_reg(Regs::IP, loc), old(self).bus.next_cycles) ==> ((r
                is Ok <==> spec_run_one(old(self)@.with_reg(Regs::IP, loc), old(self).hooks())
                is Some) && (r is Ok ==> Some(final(self)@) == spec_run_one(
                old(self)@.with_reg(Regs::IP, loc),
                old(self).hooks(),
            ))),
    {
        self.bus.set_reg(Regs::IP, loc);
        self.execute_next()
    }

    /// Runs from the given offset until the designated no-op marker opcode
    /// is fetched, then drains the pending cycles: on success the machine
    /// rests with no cycles owed and the marker instruction in flight.
    /// Gives up with an error after a large fixed budget of steps, so a
    /// runaway program cannot run forever.
    pub fn run_to_nop(&mut self, loc: u16) -> (r: Result<(), CpuErr>)
        ensures
            final(self).hooks() == old(self).hooks(),
            r is Ok ==> final(self).bus.next_cycles == 0 && (match final(self)@.instruction {
                Some(i) => i.flags & crate::cpu::instruction::opcode::OpcodeFlags::NOP != 0,
                None => false,
            }),
    {
        self.bus.set_reg(Regs::IP, loc);
        match self.step() {
            Ok(()) => (),
            Err(e) => {
                return Err(e);
            },
        }
        let mut fuel: u64 = 0x100_0000;
        loop
            invariant
                self.hooks() == old(self).hooks(),
            ensures
                (match self.bus.instruction {
                    Some(i) => i.flags & crate::cpu::instruction::opcode::OpcodeFlags::NOP != 0,
                    None => false,
                }),
            decreases fuel,
        {
            if fuel == 0 {
                return Err(CpuErr::StepLimit);
            }
            fuel = fuel - 1;
            let at_nop = match &self.bus.instruction {
                Some(i) => i.has_flag(crate::cpu::instruction::opcode::OpcodeFlags::NOP),
                None => false,
            };
            if at_nop {
                break;
            }
            match self.step() {
                Ok(()) => (),
                Err(e) => {
                    return Err(e);
                },
            }
        }
        while self.bus.next_cycles > 0
            invariant
                self.hooks() == old(self).hooks(),
                (match self.bus.instruction {
                    Some(i) => i.flags & crate::cpu::instruction::opcode::OpcodeFlags::NOP != 0,
                    None => false,
                }),
            decreases self.bus.next_cycles,
        {
            match self.step() {
                Ok(()) => (),
                Err(e) => {
                    return Err(e);
                },
            }
        }
        Ok(())
    }

    /// Runs from the current IP until the no-op marker is fetched: on
    /// success the machine rests with no cycles owed and the marker in
    /// flight.
    pub fn run_to_nop_from_ip(&mut self) -> (r: Result<(), CpuErr>)
        ensures
            final(self).hooks() == old(self).hooks(),
            r is Ok ==> final(self).bus.next_cycles == 0 && (match final(self)@.instruction {
                Some(i) => i.flags & crate::cpu::instruction::opcode::OpcodeFlags::NOP != 0,
                None => false,
            }),
    {
        let ip = match self.bus.read_reg(Regs::IP) {
            Some(v) => v,
            None => 0,
        };
        self.run_to_nop(ip)
    }

    /// The physical address an offset names through the current DS.
    pub fn address_in_ds(&self, offset: u16) -> (r: u32)
        ensures
            r == Arch::phys(self@.ds, offset),
    {
        let ds = match self.read_reg(Regs::DS) {
            Some(v) => v,
            None => 0,
        };
        CPU::physical_address(ds, offset)
    }

    /// The registered peripheral with the given index, if one is there:
    /// exactly when the index was handed out and its slot holds a device.
    pub fn get_peripheral(&self, dev_index: usize) -> (r: Option<
        &std::boxed::Box<dyn crate::peripheral::Peripheral>,
    >)
        ensures
            r is Some <==> dev_index < self.io_devices@.len()
                && self.io_devices@[dev_index as int].dev is Some,
    {
        if dev_index < self.io_devices.len() {
            self.io_devices[dev_index].dev.as_ref()
        } else {
            None
        }
    }
}

impl CPU {
    /// Renders the instruction decoded at an absolute memory offset as a
    /// mnemonic-plus-operands line, purely for diagnostics. Nothing is
    /// mutated: the decode runs against the memory as it stands, and a line
    /// comes back exactly when the bytes decode within an indexable memory
    /// and the decoded behavior has a mnemonic.
    pub fn get_instruction_text(&self, loc: usize) -> (r: Option<String>)
        ensures
            r is Some <==> (self@.ram.len() + 8 <= usize::MAX
                && crate::cpu::instruction::spec_decode(self@.ram, loc as int, None) is Some
                && crate::cpu::instruction::spec_has_mnemonic(
                crate::cpu::instruction::spec_decode(
                    self@.ram,
                    loc as int,
                    None,
                ).unwrap().action,
                crate::cpu::instruction::spec_decode(
                    self@.ram,
                    loc as int,
                    None,
                ).unwrap().reg_bits,
            )),
    {
        if self.bus.ram.len() > usize::MAX - 8 {
            return None;
        }
        match crate::cpu::instruction::decode_at(&self.bus.ram, loc, None) {
            Ok(i) => i.to_text(),
            Err(_) => None,
        }
    }
}

} // verus!
