use vstd::prelude::*;
use crate::cpu::Regs;

verus! {

/// Behavior flags on an opcode descriptor.
pub struct OpcodeFlags;

impl OpcodeFlags {
    /// The instruction carries an immediate operand after any ModRM bytes.
    pub const IMMEDIATE: u16 = 0x0001;
    /// The immediate stays one byte wide even when the operand width is a word.
    pub const SIZE_MISMATCH: u16 = 0x0002;
    /// The designated no-op / end-of-program marker.
    pub const NOP: u16 = 0x0004;
    /// The operand width is a word whatever the opcode's low bit says.
    pub const FORCE_WORD: u16 = 0x0008;
    /// The immediate is one byte whatever the opcode's low bit says.
    pub const FORCE_BYTE: u16 = 0x0010;
    /// The instruction reads a double-word operand.
    pub const FORCE_DWORD: u16 = 0x0020;
    /// The first resolved operand is the source whatever the direction bit says.
    pub const FORCE_DIRECTION: u16 = 0x0040;
    /// The first resolved operand is the destination whatever the direction bit says.
    pub const FORCE_NOT_DIRECTION: u16 = 0x0080;
}

/// How many operands an opcode takes.
#[derive(Copy, Clone, PartialEq, Eq, Structural, Debug)]
pub enum NumArgs {
    Zero,
    One,
    Two,
}

/// An operand implied by the opcode byte itself, resolved without a ModRM
/// byte: a register of the selected width, a fixed register, a literal, an
/// immediate or embedded pointer read from the instruction stream, or — for
/// the repeat prefixes — the wrapped opcode byte.
#[derive(Copy, Clone, PartialEq, Eq, Structural, Debug)]
pub enum Placeholder {
    Reg8(u8),
    Reg16(u8),
    Reg(u8),
    RegEnum(Regs),
    Byte(u8),
    Word(u16),
    Imm,
    Ptr,
    Opcode,
}

/// The behavior an opcode stands for, dispatched by one match. Group kinds
/// pick the concrete operation from the ModRM reg-field bits; the condition
/// codes of the jump and loop families ride along as data.
#[derive(Copy, Clone, PartialEq, Eq, Structural, Debug)]
pub enum OpAction {
    Nop,
    Mov,
    Cbw,
    Cdw,
    Lds,
    Les,
    Lea,
    Xchg,
    Xlat,
    Add,
    Adc,
    Sub,
    Sbb,
    And,
    Or,
    Xor,
    Cmp,
    Test,
    Not,
    Neg,
    Inc,
    Dec,
    Mul,
    Imul,
    Div,
    Idiv,
    Aaa,
    Aad,
    Aas,
    Daa,
    Rol,
    Ror,
    Rcl,
    Rcr,
    Sal,
    Shr,
    Sar,
    Push,
    Pop,
    NearCall,
    FarCall,
    NearRet,
    FarRet,
    Enter,
    Leave,
    Jmp,
    JmpFar,
    CondJmp(u8),
    LoopJmp(u8),
    IntReq,
    Into,
    Iret,
    Bound,
    Clc,
    Stc,
    Cli,
    Sti,
    Cld,
    Std,
    Cmc,
    Lahf,
    Sahf,
    Movs,
    Cmps,
    Scas,
    Lods,
    Stos,
    In,
    Out,
    Ins,
    Outs,
    Rep,
    Repne,
    AluGroupTwo,
    AluGroupOne,
    MulGroup,
    RotateGroup,
    SegmentPrefix(Regs),
}

/// One opcode's immutable description: operand arity, shorthand operand
/// placeholders, behavior flags, default segment, and the behavior to invoke.
#[derive(Copy, Clone, PartialEq, Eq, Structural, Debug)]
pub struct Opcode {
    pub num_args: NumArgs,
    pub shorthand1: Option<Placeholder>,
    pub shorthand2: Option<Placeholder>,
    pub flags: u16,
    pub segment: Regs,
    pub action: OpAction,
}

impl Opcode {
    /// A descriptor with no operands.
    #[verifier::allow_in_spec]
    pub fn zero(action: OpAction) -> Opcode
        returns (Opcode {
            num_args: NumArgs::Zero,
            shorthand1: None,
            shorthand2: None,
            flags: 0,
            segment: Regs::DS,
            action,
        })
    {
        Opcode {
            num_args: NumArgs::Zero,
            shorthand1: None,
            shorthand2: None,
            flags: 0,
            segment: Regs::DS,
            action,
        }
    }

    /// A one-operand descriptor without shorthand.
    #[verifier::allow_in_spec]
    pub fn one(flags: u16, action: OpAction) -> Opcode
        returns (Opcode {
            num_args: NumArgs::One,
            shorthand1: None,
            shorthand2: None,
            flags,
            segment: Regs::DS,
            action,
        })
    {
        Opcode {
            num_args: NumArgs::One,
            shorthand1: None,
            shorthand2: None,
            flags,
            segment: Regs::DS,
            action,
        }
    }

    /// A one-operand descriptor whose operand the opcode byte itself implies.
    #[verifier::allow_in_spec]
    pub fn one_sh(sh: Placeholder, flags: u16, action: OpAction) -> Opcode
        returns (Opcode {
            num_args: NumArgs::One,
            shorthand1: Some(sh),
            shorthand2: None,
            flags,
            segment: Regs::DS,
            action,
        })
    {
        Opcode {
            num_args: NumArgs::One,
            shorthand1: Some(sh),
            shorthand2: None,
            flags,
            segment: Regs::DS,
            action,
        }
    }

    /// A two-operand descriptor without shorthand.
    #[verifier::allow_in_spec]
    pub fn two(flags: u16, action: OpAction) -> Opcode
        returns (Opcode {
            num_args: NumArgs::Two,
            shorthand1: None,
            shorthand2: None,
            flags,
            segment: Regs::DS,
            action,
        })
    {
        Opcode {
            num_args: NumArgs::Two,
            shorthand1: None,
            shorthand2: None,
            flags,
            segment: Regs::DS,
            action,
        }
    }

    /// A two-operand descriptor with both operands implied by the opcode byte.
    #[verifier::allow_in_spec]
    pub fn two_sh(sh1: Placeholder, sh2: Placeholder, flags: u16, action: OpAction) -> Opcode
        returns (Opcode {
            num_args: NumArgs::Two,
            shorthand1: Some(sh1),
            shorthand2: Some(sh2),
            flags,
            segment: Regs::DS,
            action,
        })
    {
        Opcode {
            num_args: NumArgs::Two,
            shorthand1: Some(sh1),
            shorthand2: Some(sh2),
            flags,
            segment: Regs::DS,
            action,
        }
    }

    /// True when either operand is implied by the opcode byte.
    pub fn has_shorthand(&self) -> (r: bool)
        ensures
            r == (self.shorthand1 is Some || self.shorthand2 is Some),
    {
        self.shorthand1.is_some() || self.shorthand2.is_some()
    }
}

/// The opcode table: the fixed mapping from an opcode byte to its
/// descriptor, as a mathematical function.
pub open spec fn spec_opcode_entry(code: u8) -> Option<Opcode> {
    // ADD r/m and register forms
    if code <= 0x03 {
        Some(Opcode::two(0, OpAction::Add))
    // ADD accumulator, immediate
    } else if code == 0x04 || code == 0x05 {
        Some(Opcode::two_sh(Placeholder::Reg(0), Placeholder::Imm, OpcodeFlags::IMMEDIATE, OpAction::Add))
    // OR r/m and register forms
    } else if 0x08 <= code && code <= 0x0B {
        Some(Opcode::two(0, OpAction::Or))
    // OR accumulator, immediate
    } else if code == 0x0C || code == 0x0D {
        Some(Opcode::two_sh(Placeholder::Reg(0), Placeholder::Imm, OpcodeFlags::IMMEDIATE, OpAction::Or))
    // ADC r/m and register forms
    } else if 0x10 <= code && code <= 0x13 {
        Some(Opcode::two(0, OpAction::Adc))
    // ADC accumulator, immediate
    } else if code == 0x14 || code == 0x15 {
        Some(Opcode::two_sh(Placeholder::Reg(0), Placeholder::Imm, OpcodeFlags::IMMEDIATE, OpAction::Adc))
    // SBB r/m and register forms
    } else if 0x18 <= code && code <= 0x1B {
        Some(Opcode::two(0, OpAction::Sbb))
    // SBB accumulator, immediate
    } else if code == 0x1C || code == 0x1D {
        Some(Opcode::two_sh(Placeholder::Reg(0), Placeholder::Imm, OpcodeFlags::IMMEDIATE, OpAction::Sbb))
    // AND r/m and register forms
    } else if 0x20 <= code && code <= 0x23 {
        Some(Opcode::two(0, OpAction::And))
    // AND accumulator, immediate
    } else if code == 0x24 || code == 0x25 {
        Some(Opcode::two_sh(Placeholder::Reg(0), Placeholder::Imm, OpcodeFlags::IMMEDIATE, OpAction::And))
    // segment override prefixes
    } else if code == 0x26 {
        Some(Opcode::zero(OpAction::SegmentPrefix(Regs::ES)))
    // DAA
    } else if code == 0x27 {
        Some(Opcode::zero(OpAction::Daa))
    // SUB r/m and register forms
    } else if 0x28 <= code && code <= 0x2B {
        Some(Opcode::two(0, OpAction::Sub))
    // SUB accumulator, immediate
    } else if code == 0x2C || code == 0x2D {
        Some(Opcode::two_sh(Placeholder::Reg(0), Placeholder::Imm, OpcodeFlags::IMMEDIATE, OpAction::Sub))
    } else if code == 0x2E {
        Some(Opcode::zero(OpAction::SegmentPrefix(Regs::CS)))
    // XOR r/m and register forms
    } else if 0x30 <= code && code <= 0x33 {
        Some(Opcode::two(0, OpAction::Xor))
    // XOR accumulator, immediate
    } else if code == 0x34 || code == 0x35 {
        Some(Opcode::two_sh(Placeholder::Reg(0), Placeholder::Imm, OpcodeFlags::IMMEDIATE, OpAction::Xor))
    } else if code == 0x36 {
        Some(Opcode::zero(OpAction::SegmentPrefix(Regs::SS)))
    // AAA
    } else if code == 0x37 {
        Some(Opcode::zero(OpAction::Aaa))
    // CMP r/m and register forms
    } else if 0x38 <= code && code <= 0x3B {
        Some(Opcode::two(0, OpAction::Cmp))
    // CMP accumulator, immediate
    } else if code == 0x3C || code == 0x3D {
        Some(Opcode::two_sh(Placeholder::Reg(0), Placeholder::Imm, OpcodeFlags::IMMEDIATE, OpAction::Cmp))
    } else if code == 0x3E {
        Some(Opcode::zero(OpAction::SegmentPrefix(Regs::DS)))
    // AAS
    } else if code == 0x3F {
        Some(Opcode::zero(OpAction::Aas))
    // INC r16, register number in the opcode byte
    } else if 0x40 <= code && code <= 0x47 {
        Some(Opcode::one_sh(Placeholder::Reg16((code - 0x40) as u8), 0, OpAction::Inc))
    // DEC r16
    } else if 0x48 <= code && code <= 0x4F {
        Some(Opcode::one_sh(Placeholder::Reg16((code - 0x48) as u8), 0, OpAction::Dec))
    // PUSH r16
    } else if 0x50 <= code && code <= 0x57 {
        Some(Opcode::one_sh(Placeholder::Reg16((code - 0x50) as u8), 0, OpAction::Push))
    // POP r16
    } else if 0x58 <= code && code <= 0x5F {
        Some(Opcode::one_sh(Placeholder::Reg16((code - 0x58) as u8), 0, OpAction::Pop))
    // BOUND
    } else if code == 0x62 {
        Some(Opcode::two(OpcodeFlags::FORCE_DWORD, OpAction::Bound))
    // INS and OUTS, width marked by the placeholder
    } else if code == 0x6C {
        Some(Opcode::one_sh(Placeholder::Byte(0), 0, OpAction::Ins))
    } else if code == 0x6D {
        Some(Opcode::one_sh(Placeholder::Word(0), 0, OpAction::Ins))
    } else if code == 0x6E {
        Some(Opcode::one_sh(Placeholder::Byte(0), 0, OpAction::Outs))
    } else if code == 0x6F {
        Some(Opcode::one_sh(Placeholder::Word(0), 0, OpAction::Outs))
    // conditional jumps, condition in the low nibble
    } else if 0x70 <= code && code <= 0x7F {
        Some(Opcode::one(OpcodeFlags::IMMEDIATE | OpcodeFlags::SIZE_MISMATCH, OpAction::CondJmp((code & 0x0F) as u8)))
    // ADD/OR/ADC/SBB/AND/SUB/XOR/CMP group, immediate forms
    } else if 0x80 <= code && code <= 0x82 {
        Some(Opcode::two(OpcodeFlags::IMMEDIATE, OpAction::AluGroupTwo))
    // sign-extending byte-immediate form of the same group
    } else if code == 0x83 {
        Some(Opcode::two(OpcodeFlags::IMMEDIATE | OpcodeFlags::SIZE_MISMATCH, OpAction::AluGroupTwo))
    // TEST
    } else if code == 0x84 || code == 0x85 {
        Some(Opcode::two(0, OpAction::Test))
    // XCHG
    } else if code == 0x86 || code == 0x87 {
        Some(Opcode::two(0, OpAction::Xchg))
    // MOV r/m and register forms
    } else if 0x88 <= code && code <= 0x8B {
        Some(Opcode::two(0, OpAction::Mov))
    // LEA
    } else if code == 0x8D {
        Some(Opcode::two(OpcodeFlags::FORCE_DIRECTION, OpAction::Lea))
    // POP r/m
    } else if code == 0x8F {
        Some(Opcode::one(0, OpAction::Pop))
    // NOP, the end-of-program marker
    } else if code == 0x90 {
        Some(Opcode { num_args: NumArgs::Zero, shorthand1: None, shorthand2: None, flags: OpcodeFlags::NOP, segment: Regs::DS, action: OpAction::Nop })
    // CBW and CWD
    } else if code == 0x98 {
        Some(Opcode::zero(OpAction::Cbw))
    } else if code == 0x99 {
        Some(Opcode::zero(OpAction::Cdw))
    // CALL far, absolute segment:offset pair
    } else if code == 0x9A {
        Some(Opcode::one(OpcodeFlags::IMMEDIATE | OpcodeFlags::FORCE_DWORD, OpAction::FarCall))
    // SAHF and LAHF
    } else if code == 0x9E {
        Some(Opcode::zero(OpAction::Sahf))
    } else if code == 0x9F {
        Some(Opcode::zero(OpAction::Lahf))
    // MOV between the accumulator and a fixed address
    } else if code == 0xA0 || code == 0xA1 {
        Some(Opcode::two_sh(Placeholder::Reg(0), Placeholder::Ptr, 0, OpAction::Mov))
    } else if code == 0xA2 || code == 0xA3 {
        Some(Opcode::two_sh(Placeholder::Reg(0), Placeholder::Ptr, 0, OpAction::Mov))
    // string operations, width marked by the placeholder
    } else if code == 0xA4 {
        Some(Opcode::one_sh(Placeholder::Byte(0), 0, OpAction::Movs))
    } else if code == 0xA5 {
        Some(Opcode::one_sh(Placeholder::Word(0), 0, OpAction::Movs))
    } else if code == 0xA6 {
        Some(Opcode::one_sh(Placeholder::Byte(0), 0, OpAction::Cmps))
    } else if code == 0xA7 {
        Some(Opcode::one_sh(Placeholder::Word(0), 0, OpAction::Cmps))
    } else if code == 0xAA {
        Some(Opcode::one_sh(Placeholder::Byte(0), 0, OpAction::Stos))
    } else if code == 0xAB {
        Some(Opcode::one_sh(Placeholder::Word(0), 0, OpAction::Stos))
    } else if code == 0xAC {
        Some(Opcode::one_sh(Placeholder::Byte(0), 0, OpAction::Lods))
    } else if code == 0xAD {
        Some(Opcode::one_sh(Placeholder::Word(0), 0, OpAction::Lods))
    } else if code == 0xAE {
        Some(Opcode::one_sh(Placeholder::Byte(0), 0, OpAction::Scas))
    } else if code == 0xAF {
        Some(Opcode::one_sh(Placeholder::Word(0), 0, OpAction::Scas))
    // MOV r8, immediate
    } else if 0xB0 <= code && code <= 0xB7 {
        Some(Opcode::two_sh(Placeholder::Reg8((code - 0xB0) as u8), Placeholder::Imm, OpcodeFlags::IMMEDIATE, OpAction::Mov))
    // MOV r16, immediate
    } else if 0xB8 <= code && code <= 0xBF {
        Some(Opcode::two_sh(Placeholder::Reg16((code - 0xB8) as u8), Placeholder::Imm, OpcodeFlags::IMMEDIATE, OpAction::Mov))
    // rotate and shift group, count in a byte immediate
    } else if code == 0xC0 || code == 0xC1 {
        Some(Opcode::two(OpcodeFlags::IMMEDIATE | OpcodeFlags::SIZE_MISMATCH, OpAction::RotateGroup))
    // RET near, with and without an extra-bytes operand
    } else if code == 0xC2 {
        Some(Opcode::one(OpcodeFlags::IMMEDIATE | OpcodeFlags::FORCE_WORD, OpAction::NearRet))
    } else if code == 0xC3 {
        Some(Opcode::zero(OpAction::NearRet))
    // LES and LDS
    } else if code == 0xC4 {
        Some(Opcode::two(OpcodeFlags::FORCE_DWORD | OpcodeFlags::FORCE_DIRECTION, OpAction::Les))
    } else if code == 0xC5 {
        Some(Opcode::two(OpcodeFlags::FORCE_DWORD | OpcodeFlags::FORCE_DIRECTION, OpAction::Lds))
    // MOV r/m, immediate
    } else if code == 0xC6 || code == 0xC7 {
        Some(Opcode::two(OpcodeFlags::IMMEDIATE, OpAction::Mov))
    // ENTER size, level
    } else if code == 0xC8 {
        Some(Opcode::two_sh(Placeholder::Imm, Placeholder::Imm, OpcodeFlags::IMMEDIATE | OpcodeFlags::SIZE_MISMATCH, OpAction::Enter))
    // LEAVE
    } else if code == 0xC9 {
        Some(Opcode::zero(OpAction::Leave))
    // RET far, with and without an extra-bytes operand
    } else if code == 0xCA {
        Some(Opcode::one(OpcodeFlags::IMMEDIATE | OpcodeFlags::FORCE_WORD, OpAction::FarRet))
    } else if code == 0xCB {
        Some(Opcode::zero(OpAction::FarRet))
    // INT 3
    } else if code == 0xCC {
        Some(Opcode::one_sh(Placeholder::Byte(3), 0, OpAction::IntReq))
    // INT imm8
    } else if code == 0xCD {
        Some(Opcode::one(OpcodeFlags::IMMEDIATE | OpcodeFlags::FORCE_BYTE, OpAction::IntReq))
    // INTO
    } else if code == 0xCE {
        Some(Opcode::zero(OpAction::Into))
    // IRET
    } else if code == 0xCF {
        Some(Opcode::zero(OpAction::Iret))
    // AAD
    } else if code == 0xD5 {
        Some(Opcode::one(OpcodeFlags::IMMEDIATE | OpcodeFlags::FORCE_BYTE, OpAction::Aad))
    // XLAT
    } else if code == 0xD7 {
        Some(Opcode::zero(OpAction::Xlat))
    // LOOPNZ, LOOPZ, LOOP
    } else if 0xE0 <= code && code <= 0xE2 {
        Some(Opcode::one(OpcodeFlags::IMMEDIATE | OpcodeFlags::SIZE_MISMATCH, OpAction::LoopJmp((code - 0xE0) as u8)))
    // IN accumulator, immediate port
    } else if code == 0xE4 || code == 0xE5 {
        Some(Opcode::two_sh(Placeholder::Reg(0), Placeholder::Imm, OpcodeFlags::IMMEDIATE, OpAction::In))
    // OUT immediate port, accumulator
    } else if code == 0xE6 || code == 0xE7 {
        Some(Opcode::two_sh(Placeholder::Imm, Placeholder::Reg(0), OpcodeFlags::IMMEDIATE, OpAction::Out))
    // CALL near, relative
    } else if code == 0xE8 {
        Some(Opcode::one(OpcodeFlags::IMMEDIATE | OpcodeFlags::FORCE_WORD, OpAction::NearCall))
    // JMP near, relative
    } else if code == 0xE9 {
        Some(Opcode::one(OpcodeFlags::IMMEDIATE, OpAction::Jmp))
    // JMP far, absolute segment:offset pair
    } else if code == 0xEA {
        Some(Opcode::one(OpcodeFlags::IMMEDIATE | OpcodeFlags::FORCE_DWORD, OpAction::JmpFar))
    // JMP short
    } else if code == 0xEB {
        Some(Opcode::one(OpcodeFlags::IMMEDIATE | OpcodeFlags::SIZE_MISMATCH, OpAction::Jmp))
    // IN accumulator, DX port
    } else if code == 0xEC || code == 0xED {
        Some(Opcode::two_sh(Placeholder::Reg(0), Placeholder::RegEnum(Regs::DX), 0, OpAction::In))
    // OUT DX port, accumulator
    } else if code == 0xEE || code == 0xEF {
        Some(Opcode::two_sh(Placeholder::RegEnum(Regs::DX), Placeholder::Reg(0), OpcodeFlags::FORCE_NOT_DIRECTION, OpAction::Out))
    // repeat prefixes wrapping a string opcode
    } else if code == 0xF2 {
        Some(Opcode::one_sh(Placeholder::Opcode, 0, OpAction::Repne))
    } else if code == 0xF3 {
        Some(Opcode::one_sh(Placeholder::Opcode, 0, OpAction::Rep))
    // CMC
    } else if code == 0xF5 {
        Some(Opcode::zero(OpAction::Cmc))
    // TEST/NOT/NEG/MUL/IMUL/DIV/IDIV group
    } else if code == 0xF6 || code == 0xF7 {
        Some(Opcode::one(0, OpAction::MulGroup))
    // flag instructions
    } else if code == 0xF8 {
        Some(Opcode::zero(OpAction::Clc))
    } else if code == 0xF9 {
        Some(Opcode::zero(OpAction::Stc))
    } else if code == 0xFA {
        Some(Opcode::zero(OpAction::Cli))
    } else if code == 0xFB {
        Some(Opcode::zero(OpAction::Sti))
    } else if code == 0xFC {
        Some(Opcode::zero(OpAction::Cld))
    } else if code == 0xFD {
        Some(Opcode::zero(OpAction::Std))
    // INC/DEC/CALL/JMP/PUSH group
    } else if code == 0xFE || code == 0xFF {
        Some(Opcode::one(0, OpAction::AluGroupOne))
    } else {
        None
    }
}

/// The opcode table at run time, one entry per described opcode byte.
pub fn opcode_entry(code: u8) -> (r: Option<Opcode>)
    ensures
        r == spec_opcode_entry(code),
{
    // ADD r/m and register forms
    if code <= 0x03 {
        Some(Opcode::two(0, OpAction::Add))
    // ADD accumulator, immediate
    } else if code == 0x04 || code == 0x05 {
        Some(Opcode::two_sh(Placeholder::Reg(0), Placeholder::Imm, OpcodeFlags::IMMEDIATE, OpAction::Add))
    // OR r/m and register forms
    } else if 0x08 <= code && code <= 0x0B {
        Some(Opcode::two(0, OpAction::Or))
    // OR accumulator, immediate
    } else if code == 0x0C || code == 0x0D {
        Some(Opcode::two_sh(Placeholder::Reg(0), Placeholder::Imm, OpcodeFlags::IMMEDIATE, OpAction::Or))
    // ADC r/m and register forms
    } else if 0x10 <= code && code <= 0x13 {
        Some(Opcode::two(0, OpAction::Adc))
    // ADC accumulator, immediate
    } else if code == 0x14 || code == 0x15 {
        Some(Opcode::two_sh(Placeholder::Reg(0), Placeholder::Imm, OpcodeFlags::IMMEDIATE, OpAction::Adc))
    // SBB r/m and register forms
    } else if 0x18 <= code && code <= 0x1B {
        Some(Opcode::two(0, OpAction::Sbb))
    // SBB accumulator, immediate
    } else if code == 0x1C || code == 0x1D {
        Some(Opcode::two_sh(Placeholder::Reg(0), Placeholder::Imm, OpcodeFlags::IMMEDIATE, OpAction::Sbb))
    // AND r/m and register forms
    } else if 0x20 <= code && code <= 0x23 {
        Some(Opcode::two(0, OpAction::And))
    // AND accumulator, immediate
    } else if code == 0x24 || code == 0x25 {
        Some(Opcode::two_sh(Placeholder::Reg(0), Placeholder::Imm, OpcodeFlags::IMMEDIATE, OpAction::And))
    // segment override prefixes
    } else if code == 0x26 {
        Some(Opcode::zero(OpAction::SegmentPrefix(Regs::ES)))
    // DAA
    } else if code == 0x27 {
        Some(Opcode::zero(OpAction::Daa))
    // SUB r/m and register forms
    } else if 0x28 <= code && code <= 0x2B {
        Some(Opcode::two(0, OpAction::Sub))
    // SUB accumulator, immediate
    } else if code == 0x2C || code == 0x2D {
        Some(Opcode::two_sh(Placeholder::Reg(0), Placeholder::Imm, OpcodeFlags::IMMEDIATE, OpAction::Sub))
    } else if code == 0x2E {
        Some(Opcode::zero(OpAction::SegmentPrefix(Regs::CS)))
    // XOR r/m and register forms
    } else if 0x30 <= code && code <= 0x33 {
        Some(Opcode::two(0, OpAction::Xor))
    // XOR accumulator, immediate
    } else if code == 0x34 || code == 0x35 {
        Some(Opcode::two_sh(Placeholder::Reg(0), Placeholder::Imm, OpcodeFlags::IMMEDIATE, OpAction::Xor))
    } else if code == 0x36 {
        Some(Opcode::zero(OpAction::SegmentPrefix(Regs::SS)))
    // AAA
    } else if code == 0x37 {
        Some(Opcode::zero(OpAction::Aaa))
    // CMP r/m and register forms
    } else if 0x38 <= code && code <= 0x3B {
        Some(Opcode::two(0, OpAction::Cmp))
    // CMP accumulator, immediate
    } else if code == 0x3C || code == 0x3D {
        Some(Opcode::two_sh(Placeholder::Reg(0), Placeholder::Imm, OpcodeFlags::IMMEDIATE, OpAction::Cmp))
    } else if code == 0x3E {
        Some(Opcode::zero(OpAction::SegmentPrefix(Regs::DS)))
    // AAS
    } else if code == 0x3F {
        Some(Opcode::zero(OpAction::Aas))
    // INC r16, register number in the opcode byte
    } else if 0x40 <= code && code <= 0x47 {
        Some(Opcode::one_sh(Placeholder::Reg16((code - 0x40) as u8), 0, OpAction::Inc))
    // DEC r16
    } else if 0x48 <= code && code <= 0x4F {
        Some(Opcode::one_sh(Placeholder::Reg16((code - 0x48) as u8), 0, OpAction::Dec))
    // PUSH r16
    } else if 0x50 <= code && code <= 0x57 {
        Some(Opcode::one_sh(Placeholder::Reg16((code - 0x50) as u8), 0, OpAction::Push))
    // POP r16
    } else if 0x58 <= code && code <= 0x5F {
        Some(Opcode::one_sh(Placeholder::Reg16((code - 0x58) as u8), 0, OpAction::Pop))
    // BOUND
    } else if code == 0x62 {
        Some(Opcode::two(OpcodeFlags::FORCE_DWORD, OpAction::Bound))
    // INS and OUTS, width marked by the placeholder
    } else if code == 0x6C {
        Some(Opcode::one_sh(Placeholder::Byte(0), 0, OpAction::Ins))
    } else if code == 0x6D {
        Some(Opcode::one_sh(Placeholder::Word(0), 0, OpAction::Ins))
    } else if code == 0x6E {
        Some(Opcode::one_sh(Placeholder::Byte(0), 0, OpAction::Outs))
    } else if code == 0x6F {
        Some(Opcode::one_sh(Placeholder::Word(0), 0, OpAction::Outs))
    // conditional jumps, condition in the low nibble
    } else if 0x70 <= code && code <= 0x7F {
        Some(Opcode::one(OpcodeFlags::IMMEDIATE | OpcodeFlags::SIZE_MISMATCH, OpAction::CondJmp((code & 0x0F) as u8)))
    // ADD/OR/ADC/SBB/AND/SUB/XOR/CMP group, immediate forms
    } else if 0x80 <= code && code <= 0x82 {
        Some(Opcode::two(OpcodeFlags::IMMEDIATE, OpAction::AluGroupTwo))
    // sign-extending byte-immediate form of the same group
    } else if code == 0x83 {
        Some(Opcode::two(OpcodeFlags::IMMEDIATE | OpcodeFlags::SIZE_MISMATCH, OpAction::AluGroupTwo))
    // TEST
    } else if code == 0x84 || code == 0x85 {
        Some(Opcode::two(0, OpAction::Test))
    // XCHG
    } else if code == 0x86 || code == 0x87 {
        Some(Opcode::two(0, OpAction::Xchg))
    // MOV r/m and register forms
    } else if 0x88 <= code && code <= 0x8B {
        Some(Opcode::two(0, OpAction::Mov))
    // LEA
    } else if code == 0x8D {
        Some(Opcode::two(OpcodeFlags::FORCE_DIRECTION, OpAction::Lea))
    // POP r/m
    } else if code == 0x8F {
        Some(Opcode::one(0, OpAction::Pop))
    // NOP, the end-of-program marker
    } else if code == 0x90 {
        Some(Opcode { num_args: NumArgs::Zero, shorthand1: None, shorthand2: None, flags: OpcodeFlags::NOP, segment: Regs::DS, action: OpAction::Nop })
    // CBW and CWD
    } else if code == 0x98 {
        Some(Opcode::zero(OpAction::Cbw))
    } else if code == 0x99 {
        Some(Opcode::zero(OpAction::Cdw))
    // CALL far, absolute segment:offset pair
    } else if code == 0x9A {
        Some(Opcode::one(OpcodeFlags::IMMEDIATE | OpcodeFlags::FORCE_DWORD, OpAction::FarCall))
    // SAHF and LAHF
    } else if code == 0x9E {
        Some(Opcode::zero(OpAction::Sahf))
    } else if code == 0x9F {
        Some(Opcode::zero(OpAction::Lahf))
    // MOV between the accumulator and a fixed address
    } else if code == 0xA0 || code == 0xA1 {
        Some(Opcode::two_sh(Placeholder::Reg(0), Placeholder::Ptr, 0, OpAction::Mov))
    } else if code == 0xA2 || code == 0xA3 {
        Some(Opcode::two_sh(Placeholder::Reg(0), Placeholder::Ptr, 0, OpAction::Mov))
    // string operations, width marked by the placeholder
    } else if code == 0xA4 {
        Some(Opcode::one_sh(Placeholder::Byte(0), 0, OpAction::Movs))
    } else if code == 0xA5 {
        Some(Opcode::one_sh(Placeholder::Word(0), 0, OpAction::Movs))
    } else if code == 0xA6 {
        Some(Opcode::one_sh(Placeholder::Byte(0), 0, OpAction::Cmps))
    } else if code == 0xA7 {
        Some(Opcode::one_sh(Placeholder::Word(0), 0, OpAction::Cmps))
    } else if code == 0xAA {
        Some(Opcode::one_sh(Placeholder::Byte(0), 0, OpAction::Stos))
    } else if code == 0xAB {
        Some(Opcode::one_sh(Placeholder::Word(0), 0, OpAction::Stos))
    } else if code == 0xAC {
        Some(Opcode::one_sh(Placeholder::Byte(0), 0, OpAction::Lods))
    } else if code == 0xAD {
        Some(Opcode::one_sh(Placeholder::Word(0), 0, OpAction::Lods))
    } else if code == 0xAE {
        Some(Opcode::one_sh(Placeholder::Byte(0), 0, OpAction::Scas))
    } else if code == 0xAF {
        Some(Opcode::one_sh(Placeholder::Word(0), 0, OpAction::Scas))
    // MOV r8, immediate
    } else if 0xB0 <= code && code <= 0xB7 {
        Some(Opcode::two_sh(Placeholder::Reg8((code - 0xB0) as u8), Placeholder::Imm, OpcodeFlags::IMMEDIATE, OpAction::Mov))
    // MOV r16, immediate
    } else if 0xB8 <= code && code <= 0xBF {
        Some(Opcode::two_sh(Placeholder::Reg16((code - 0xB8) as u8), Placeholder::Imm, OpcodeFlags::IMMEDIATE, OpAction::Mov))
    // rotate and shift group, count in a byte immediate
    } else if code == 0xC0 || code == 0xC1 {
        Some(Opcode::two(OpcodeFlags::IMMEDIATE | OpcodeFlags::SIZE_MISMATCH, OpAction::RotateGroup))
    // RET near, with and without an extra-bytes operand
    } else if code == 0xC2 {
        Some(Opcode::one(OpcodeFlags::IMMEDIATE | OpcodeFlags::FORCE_WORD, OpAction::NearRet))
    } else if code == 0xC3 {
        Some(Opcode::zero(OpAction::NearRet))
    // LES and LDS
    } else if code == 0xC4 {
        Some(Opcode::two(OpcodeFlags::FORCE_DWORD | OpcodeFlags::FORCE_DIRECTION, OpAction::Les))
    } else if code == 0xC5 {
        Some(Opcode::two(OpcodeFlags::FORCE_DWORD | OpcodeFlags::FORCE_DIRECTION, OpAction::Lds))
    // MOV r/m, immediate
    } else if code == 0xC6 || code == 0xC7 {
        Some(Opcode::two(OpcodeFlags::IMMEDIATE, OpAction::Mov))
    // ENTER size, level
    } else if code == 0xC8 {
        Some(Opcode::two_sh(Placeholder::Imm, Placeholder::Imm, OpcodeFlags::IMMEDIATE | OpcodeFlags::SIZE_MISMATCH, OpAction::Enter))
    // LEAVE
    } else if code == 0xC9 {
        Some(Opcode::zero(OpAction::Leave))
    // RET far, with and without an extra-bytes operand
    } else if code == 0xCA {
        Some(Opcode::one(OpcodeFlags::IMMEDIATE | OpcodeFlags::FORCE_WORD, OpAction::FarRet))
    } else if code == 0xCB {
        Some(Opcode::zero(OpAction::FarRet))
    // INT 3
    } else if code == 0xCC {
        Some(Opcode::one_sh(Placeholder::Byte(3), 0, OpAction::IntReq))
    // INT imm8
    } else if code == 0xCD {
        Some(Opcode::one(OpcodeFlags::IMMEDIATE | OpcodeFlags::FORCE_BYTE, OpAction::IntReq))
    // INTO
    } else if code == 0xCE {
        Some(Opcode::zero(OpAction::Into))
    // IRET
    } else if code == 0xCF {
        Some(Opcode::zero(OpAction::Iret))
    // AAD
    } else if code == 0xD5 {
        Some(Opcode::one(OpcodeFlags::IMMEDIATE | OpcodeFlags::FORCE_BYTE, OpAction::Aad))
    // XLAT
    } else if code == 0xD7 {
        Some(Opcode::zero(OpAction::Xlat))
    // LOOPNZ, LOOPZ, LOOP
    } else if 0xE0 <= code && code <= 0xE2 {
        Some(Opcode::one(OpcodeFlags::IMMEDIATE | OpcodeFlags::SIZE_MISMATCH, OpAction::LoopJmp((code - 0xE0) as u8)))
    // IN accumulator, immediate port
    } else if code == 0xE4 || code == 0xE5 {
        Some(Opcode::two_sh(Placeholder::Reg(0), Placeholder::Imm, OpcodeFlags::IMMEDIATE, OpAction::In))
    // OUT immediate port, accumulator
    } else if code == 0xE6 || code == 0xE7 {
        Some(Opcode::two_sh(Placeholder::Imm, Placeholder::Reg(0), OpcodeFlags::IMMEDIATE, OpAction::Out))
    // CALL near, relative
    } else if code == 0xE8 {
        Some(Opcode::one(OpcodeFlags::IMMEDIATE | OpcodeFlags::FORCE_WORD, OpAction::NearCall))
    // JMP near, relative
    } else if code == 0xE9 {
        Some(Opcode::one(OpcodeFlags::IMMEDIATE, OpAction::Jmp))
    // JMP far, absolute segment:offset pair
    } else if code == 0xEA {
        Some(Opcode::one(OpcodeFlags::IMMEDIATE | OpcodeFlags::FORCE_DWORD, OpAction::JmpFar))
    // JMP short
    } else if code == 0xEB {
        Some(Opcode::one(OpcodeFlags::IMMEDIATE | OpcodeFlags::SIZE_MISMATCH, OpAction::Jmp))
    // IN accumulator, DX port
    } else if code == 0xEC || code == 0xED {
        Some(Opcode::two_sh(Placeholder::Reg(0), Placeholder::RegEnum(Regs::DX), 0, OpAction::In))
    // OUT DX port, accumulator
    } else if code == 0xEE || code == 0xEF {
        Some(Opcode::two_sh(Placeholder::RegEnum(Regs::DX), Placeholder::Reg(0), OpcodeFlags::FORCE_NOT_DIRECTION, OpAction::Out))
    // repeat prefixes wrapping a string opcode
    } else if code == 0xF2 {
        Some(Opcode::one_sh(Placeholder::Opcode, 0, OpAction::Repne))
    } else if code == 0xF3 {
        Some(Opcode::one_sh(Placeholder::Opcode, 0, OpAction::Rep))
    // CMC
    } else if code == 0xF5 {
        Some(Opcode::zero(OpAction::Cmc))
    // TEST/NOT/NEG/MUL/IMUL/DIV/IDIV group
    } else if code == 0xF6 || code == 0xF7 {
        Some(Opcode::one(0, OpAction::MulGroup))
    // flag instructions
    } else if code == 0xF8 {
        Some(Opcode::zero(OpAction::Clc))
    } else if code == 0xF9 {
        Some(Opcode::zero(OpAction::Stc))
    } else if code == 0xFA {
        Some(Opcode::zero(OpAction::Cli))
    } else if code == 0xFB {
        Some(Opcode::zero(OpAction::Sti))
    } else if code == 0xFC {
        Some(Opcode::zero(OpAction::Cld))
    } else if code == 0xFD {
        Some(Opcode::zero(OpAction::Std))
    // INC/DEC/CALL/JMP/PUSH group
    } else if code == 0xFE || code == 0xFF {
        Some(Opcode::one(0, OpAction::AluGroupOne))
    } else {
        None
    }
}

/// Descriptor lookup with the mask-fallback chain: try the byte itself, then
/// with the direction bit cleared, the size bit cleared, and both cleared,
/// in that order, so opcodes that encode `d` and `s` in their low two bits
/// recover their base descriptor.
pub open spec fn spec_get_opcode(code: u8) -> Option<Opcode> {
    if spec_opcode_entry(code) is Some {
        spec_opcode_entry(code)
    } else if spec_opcode_entry(code & 0xFE) is Some {
        spec_opcode_entry(code & 0xFE)
    } else if spec_opcode_entry(code & 0xFD) is Some {
        spec_opcode_entry(code & 0xFD)
    } else {
        spec_opcode_entry(code & 0xFC)
    }
}

pub fn get_opcode(code: u8) -> (r: Option<Opcode>)
    ensures
        r == spec_get_opcode(code),
{
    if let Some(op) = opcode_entry(code) {
        Some(op)
    } else if let Some(op) = opcode_entry(code & 0xFE) {
        Some(op)
    } else if let Some(op) = opcode_entry(code & 0xFD) {
        Some(op)
    } else {
        opcode_entry(code & 0xFC)
    }
}

} // verus!
