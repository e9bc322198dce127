//! An emulator for an 8086-class processor: a flat segmented memory, a
//! register file with byte-half access, a table-driven instruction decoder,
//! an ALU with exact flag semantics, stack and control-flow machinery, and
//! an interrupt dispatcher that peripherals can hook.

pub mod cpu;
pub mod flagset;
pub mod peripheral;
