use vstd::prelude::*;

verus! {

/// Vector numbers of the exceptions the processor itself can raise.
pub const DIVIDE_BY_ZERO: u8 = 0x00;

pub const SINGLE_STEP_INSTRUCTION: u8 = 0x01;

pub const NMI: u8 = 0x02;

pub const BREAKPOINT: u8 = 0x03;

pub const INTO: u8 = 0x04;

pub const BOUND: u8 = 0x05;

pub const INVALID_OPCODE: u8 = 0x06;

pub const NO_EXTENSION: u8 = 0x07;

pub const IVT_TOO_SMALL: u8 = 0x08;

} // verus!
